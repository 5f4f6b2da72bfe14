//! What the screen shows of the station, as far as it is a matter of numbers
//! and cases rather than of drawing.

use crate::app::FocusedBlock;
use crate::mode::station::network::Network;
use crate::mode::station::speed_test::SpeedTest;
use crate::mode::station::Station;
use vstd::prelude::*;

verus! {

/// How strong a signal is, in four steps.
#[derive(Debug, Clone, Copy, PartialEq, Eq, Structural)]
pub enum SignalLevel {
    Weak,
    Fair,
    Good,
    Full,
}

/// What the result of a bandwidth measurement shows.
#[derive(Debug, Clone, Copy, PartialEq, Eq, Structural)]
pub enum SpeedTestPhase {
    Running,
    Failed,
    Done,
}

/// The colour of the frame around a measurement.
#[derive(Debug, Clone, Copy, PartialEq, Eq, Structural)]
pub enum FrameTone {
    /// Something went wrong.
    Alarm,
    /// Work is under way.
    Busy,
    /// All is well.
    Calm,
}

/// Whether the keys of a block are listed on one line or on two.
#[derive(Debug, Clone, Copy, PartialEq, Eq, Structural)]
pub enum HelpLayout {
    OneLine,
    TwoLines,
}

/// A signal in percent: the stored value is in hundredths of a percent, and
/// what lies outside of 0 to 100 counts as the nearer end.
pub open spec fn percent_of(signal: i16) -> i16 {
    if signal <= 0 {
        0
    } else if signal / 100 > 100 {
        100
    } else {
        (signal / 100) as i16
    }
}

/// The step of a signal in percent: from 75 full, from 50 good, from 25
/// fair, below that weak.
pub open spec fn level_of(percent: i16) -> SignalLevel {
    if percent >= 75 {
        SignalLevel::Full
    } else if percent >= 50 {
        SignalLevel::Good
    } else if percent >= 25 {
        SignalLevel::Fair
    } else {
        SignalLevel::Weak
    }
}

/// A signal in percent.
pub fn signal_percent(signal: i16) -> (r: i16)
    ensures
        r == percent_of(signal),
        0 <= r <= 100,
{
    if signal <= 0 {
        0
    } else if signal / 100 > 100 {
        100
    } else {
        signal / 100
    }
}

/// The step of a signal in percent.
pub fn signal_level(percent: i16) -> (r: SignalLevel)
    ensures
        r == level_of(percent),
{
    if percent >= 75 {
        SignalLevel::Full
    } else if percent >= 50 {
        SignalLevel::Good
    } else if percent >= 25 {
        SignalLevel::Fair
    } else {
        SignalLevel::Weak
    }
}

/// The rank of a step, from weak to full.
pub open spec fn level_rank(level: SignalLevel) -> int {
    match level {
        SignalLevel::Weak => 0,
        SignalLevel::Fair => 1,
        SignalLevel::Good => 2,
        SignalLevel::Full => 3,
    }
}

/// A stronger signal never shows a lower step.
pub proof fn lemma_level_grows_with_signal(weaker: i16, stronger: i16)
    requires
        weaker <= stronger,
    ensures
        percent_of(weaker) <= percent_of(stronger),
        level_rank(level_of(percent_of(weaker))) <= level_rank(level_of(percent_of(stronger))),
{
}

/// Whether a row of the known networks carries the mark of the connected
/// network: it is the connected one, and no Ethernet connection is in use.
pub fn marks_connected(station: &Station, network: &Network) -> (r: bool)
    ensures
        r == (!station.is_ethernet_connected && match station.connected_network {
            Some(connected) => connected.name@ == network.name@,
            None => false,
        }),
{
    if station.is_ethernet_connected {
        false
    } else {
        match &station.connected_network {
            Some(connected) => connected.name == network.name,
            None => false,
        }
    }
}

/// Height of the dialog for a hidden network: four rows more where a
/// password is asked for.
pub fn hidden_dialog_height(requires_password: bool) -> (r: u16)
    ensures
        r == (if requires_password {
            16u16
        } else {
            12u16
        }),
{
    if requires_password {
        16
    } else {
        12
    }
}

/// What the result of a measurement shows: that it runs, else its error,
/// else its values.
pub fn speed_test_phase(test: &SpeedTest) -> (r: SpeedTestPhase)
    ensures
        r == (if test.is_running {
            SpeedTestPhase::Running
        } else if test.error is Some {
            SpeedTestPhase::Failed
        } else {
            SpeedTestPhase::Done
        }),
{
    if test.is_running {
        SpeedTestPhase::Running
    } else if test.error.is_some() {
        SpeedTestPhase::Failed
    } else {
        SpeedTestPhase::Done
    }
}

/// The colour of the frame around a measurement: an error shows as alarm
/// even while the measurement runs.
pub fn speed_test_tone(test: &SpeedTest) -> (r: FrameTone)
    ensures
        r == (if test.error is Some {
            FrameTone::Alarm
        } else if test.is_running {
            FrameTone::Busy
        } else {
            FrameTone::Calm
        }),
{
    if test.error.is_some() {
        FrameTone::Alarm
    } else if test.is_running {
        FrameTone::Busy
    } else {
        FrameTone::Calm
    }
}

/// Height of the block that shows a measurement: seven rows while it runs,
/// eleven for its result.
pub fn speed_test_height(test: &SpeedTest) -> (r: u16)
    ensures
        r == (if test.is_running {
            7u16
        } else {
            11u16
        }),
{
    if test.is_running {
        7
    } else {
        11
    }
}

/// Width of the block that shows a shared network: room for the code or for
/// the passphrase with its label, whichever is wider, and a margin of six.
/// A width beyond what can be counted is the largest that can.
pub open spec fn share_width(code_width: usize, passphrase_len: usize) -> int {
    let text = passphrase_len + 12;
    let inner = if code_width >= text {
        code_width as int
    } else {
        text
    };
    if inner + 6 > usize::MAX {
        usize::MAX as int
    } else {
        inner + 6
    }
}

/// Width of the block that shows a shared network.
pub fn share_block_width(code_width: usize, passphrase_len: usize) -> (r: usize)
    ensures
        r == share_width(code_width, passphrase_len),
{
    let text = passphrase_len.saturating_add(12);
    let inner = if code_width >= text {
        code_width
    } else {
        text
    };
    inner.saturating_add(6)
}

/// How the keys of the focused block are listed on a screen of the given
/// width: the known networks need more than 130 columns for one line, the
/// new networks 80; every other block fits on one line.
pub fn help_layout(focused_block: FocusedBlock, width: u16) -> (r: HelpLayout)
    ensures
        r == (match focused_block {
            FocusedBlock::KnownNetworks => if width <= 130 {
                HelpLayout::TwoLines
            } else {
                HelpLayout::OneLine
            },
            FocusedBlock::NewNetworks => if width < 80 {
                HelpLayout::TwoLines
            } else {
                HelpLayout::OneLine
            },
            _ => HelpLayout::OneLine,
        }),
{
    match focused_block {
        FocusedBlock::KnownNetworks => if width <= 130 {
            HelpLayout::TwoLines
        } else {
            HelpLayout::OneLine
        },
        FocusedBlock::NewNetworks => if width < 80 {
            HelpLayout::TwoLines
        } else {
            HelpLayout::OneLine
        },
        _ => HelpLayout::OneLine,
    }
}

} // verus!
