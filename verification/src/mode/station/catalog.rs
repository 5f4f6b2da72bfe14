//! Reconciliation of a scan with the saved profiles: which networks are
//! known, which are new, which saved ones are out of reach, and how a fresh
//! list replaces the one on screen without moving the cursor needlessly.

use crate::mode::station::known_network::KnownNetwork;
use crate::mode::station::network::{string_of, Network};
use crate::nm::types::{AccessPointInfo, ConnectionInfo};
use crate::nm::wifi::{
    ap_names, dedup_by_ssid, distinct_ssids, find_profile, has_entry, is_strongest,
    lemma_strongest_per_ssid, profile_for, profile_names, stands_in, strongest_per_ssid,
};
use vstd::prelude::*;

verus! {

/// Signal of a row, in hundredths of a percent.
pub open spec fn signal_of(strength: u8) -> i16 {
    (strength * 100) as i16
}

/// The row that an access point gives: known where a saved profile has its
/// SSID, connected where the active SSID is its own.
pub open spec fn row_of(
    device_path: String,
    ap: AccessPointInfo,
    saved: Seq<ConnectionInfo>,
    active: Option<Seq<char>>,
) -> (Network, i16) {
    let known = match profile_for(saved, ap.ssid@) {
        Some(info) => Some(KnownNetwork::of_connection(info)),
        None => None,
    };
    (
        Network::of_access_point(device_path, ap, known, active == Some(ap.ssid@)),
        signal_of(ap.strength),
    )
}

/// The rows of a list of access points, in its order.
pub open spec fn rows_of(
    device_path: String,
    aps: Seq<AccessPointInfo>,
    saved: Seq<ConnectionInfo>,
    active: Option<Seq<char>>,
) -> Seq<(Network, i16)> {
    aps.map_values(|ap: AccessPointInfo| row_of(device_path, ap, saved, active))
}

/// The test for rows with a saved profile.
pub open spec fn known_row() -> spec_fn((Network, i16)) -> bool {
    |row: (Network, i16)| row.0.is_known()
}

/// The test for rows without a saved profile.
pub open spec fn new_row() -> spec_fn((Network, i16)) -> bool {
    |row: (Network, i16)| !row.0.is_known()
}

/// The network among `aps` that is connected: the first whose SSID is the
/// active one.
pub open spec fn connected_among(
    device_path: String,
    aps: Seq<AccessPointInfo>,
    saved: Seq<ConnectionInfo>,
    active: Option<Seq<char>>,
) -> Option<Network> {
    match active {
        Some(ssid) => match ap_names(aps).index_of_first(ssid) {
            Some(i) => Some(row_of(device_path, aps[i], saved, active).0),
            None => None,
        },
        None => None,
    }
}

/// The three results of reconciling one scan.
pub struct Reconciled {
    /// Visible networks without a saved profile.
    pub new_networks: Vec<(Network, i16)>,
    /// Visible networks with a saved profile.
    pub known_networks: Vec<(Network, i16)>,
    /// The visible network that the device is connected to, if any.
    pub connected_network: Option<Network>,
}

impl Reconciled {
    /// Whether these are the results for the given scan, profiles and active
    /// SSID: the scan is reduced to one entry per SSID, each entry becomes a
    /// row, and the rows part into known and new, each part in scan order.
    pub open spec fn is_for(
        self,
        device_path: String,
        scanned: Seq<AccessPointInfo>,
        saved: Seq<ConnectionInfo>,
        active: Option<Seq<char>>,
    ) -> bool {
        let rows = rows_of(device_path, strongest_per_ssid(scanned), saved, active);
        &&& self.known_networks@ == rows.filter(known_row())
        &&& self.new_networks@ == rows.filter(new_row())
        &&& self.connected_network == connected_among(
            device_path,
            strongest_per_ssid(scanned),
            saved,
            active,
        )
    }
}

/// Where a name first occurs in a list that grew by one.
proof fn lemma_first_index_push(names: Seq<Seq<char>>, last: Seq<char>, name: Seq<char>)
    ensures
        names.push(last).index_of_first(name) == match names.index_of_first(name) {
            Some(i) => Some(i),
            None => if last == name {
                Some(names.len() as int)
            } else {
                None
            },
        },
{
    let longer = names.push(last);
    names.index_of_first_ensures(name);
    longer.index_of_first_ensures(name);
    match names.index_of_first(name) {
        Some(i) => {
            assert(longer[i] == name);
            assert(longer.contains(name));
            let found = longer.index_of_first(name)->0;
            if found < i {
                assert(names[found] == longer[found]);
            }
        },
        None => {
            if last == name {
                assert(longer[names.len() as int] == name);
                assert(longer.contains(name));
                let found = longer.index_of_first(name)->0;
                if found < names.len() {
                    assert(names[found] == longer[found]);
                    assert(names.contains(name));
                }
            } else {
                if longer.contains(name) {
                    let found = longer.index_of_first(name)->0;
                    assert(names[found] == longer[found]);
                    assert(names.contains(name));
                }
            }
        },
    }
}

/// The saved profile for an SSID, as a row of the known networks.
pub fn known_for(saved: &Vec<ConnectionInfo>, ssid: &str) -> (r: Option<KnownNetwork>)
    ensures
        r == match profile_for(saved@, ssid@) {
            Some(info) => Some(KnownNetwork::of_connection(info)),
            None => None,
        },
{
    match find_profile(saved, ssid) {
        Some(i) => Some(KnownNetwork::from_connection_info(saved[i].clone())),
        None => None,
    }
}

/// Turns one scan pass into the known networks, the new networks and the
/// connected one. Access points are first reduced to one per SSID, the
/// strongest and of equally strong ones the first, hidden beacons dropped. A
/// network is known where a saved profile has its SSID, and connected where
/// its SSID is the active one. No order is imposed: both lists keep the order
/// of the scan.
pub fn reconcile(
    device_path: &String,
    scanned: &Vec<AccessPointInfo>,
    saved: &Vec<ConnectionInfo>,
    active_ssid: &Option<String>,
) -> (r: Reconciled)
    ensures
        r.is_for(*device_path, scanned@, saved@, string_of(*active_ssid)),
        one_row_per_ssid(r.known_networks@, r.new_networks@, scanned@),
        one_connected(r.known_networks@, r.new_networks@, r.connected_network),
        rows_in_order(r.known_networks@, true),
        rows_in_order(r.new_networks@, false),
        row_names(r.known_networks@).to_set().subset_of(profile_names(saved@).to_set()),
{
    let ghost active = string_of(*active_ssid);
    proof {
        lemma_reconcile_one_per_ssid(*device_path, scanned@, saved@, active);
        lemma_reconcile_one_connected(*device_path, scanned@, saved@, active);
        lemma_reconciled_rows_in_order(*device_path, scanned@, saved@, active);
        lemma_known_rows_are_saved(*device_path, strongest_per_ssid(scanned@), saved@, active);
    }
    let aps = dedup_by_ssid(scanned);
    let mut new_networks: Vec<(Network, i16)> = Vec::new();
    let mut known_networks: Vec<(Network, i16)> = Vec::new();
    let mut connected_network: Option<Network> = None;
    let mut i: usize = 0;
    proof {
        if active is Some {
            ap_names(aps@.take(0)).index_of_first_ensures(active->0);
        }
    }
    while i < aps.len()
        invariant
            i <= aps.len(),
            active == string_of(*active_ssid),
            known_networks@ == rows_of(*device_path, aps@.take(i as int), saved@, active).filter(
                known_row(),
            ),
            new_networks@ == rows_of(*device_path, aps@.take(i as int), saved@, active).filter(
                new_row(),
            ),
            connected_network == connected_among(
                *device_path,
                aps@.take(i as int),
                saved@,
                active,
            ),
        decreases aps.len() - i,
    {
        let ap = aps[i].clone();
        let is_connected = match active_ssid {
            Some(ssid) => ap.ssid == *ssid,
            None => false,
        };
        let signal = ap.strength as i16 * 100;
        let known = known_for(saved, ap.ssid.as_str());
        let is_known = known.is_some();
        proof {
            let before = aps@.take(i as int);
            let after = aps@.take(i as int + 1);
            let rows = rows_of(*device_path, before, saved@, active);
            let row = row_of(*device_path, ap, saved@, active);
            assert(after == before.push(ap));
            assert(rows_of(*device_path, after, saved@, active) == rows.push(row));
            rows.lemma_filter_push(row, known_row());
            rows.lemma_filter_push(row, new_row());
            assert(ap_names(after) == ap_names(before).push(ap.ssid@));
            if active is Some {
                lemma_first_index_push(ap_names(before), ap.ssid@, active->0);
                ap_names(before).index_of_first_ensures(active->0);
                if ap_names(before).index_of_first(active->0) is Some {
                    let at = ap_names(before).index_of_first(active->0)->0;
                    assert(after[at] == before[at]);
                }
            }
        }
        let network = Network::from_access_point(device_path.clone(), ap, known, is_connected);
        if is_connected && connected_network.is_none() {
            connected_network = Some(network.clone());
        }
        if is_known {
            known_networks.push((network, signal));
        } else {
            new_networks.push((network, signal));
        }
        i += 1;
    }
    proof {
        assert(aps@.take(i as int) == aps@);
    }
    Reconciled { new_networks, known_networks, connected_network }
}

/// The SSIDs of a list of rows, in its order.
pub open spec fn row_names(rows: Seq<(Network, i16)>) -> Seq<Seq<char>> {
    rows.map_values(|row: (Network, i16)| row.0.name@)
}

/// The SSIDs of a list of saved networks, in its order.
pub open spec fn known_names(networks: Seq<KnownNetwork>) -> Seq<Seq<char>> {
    networks.map_values(|network: KnownNetwork| network.name@)
}

/// The test for saved profiles whose SSID is not among `visible`.
pub open spec fn out_of_reach(visible: Seq<Seq<char>>) -> spec_fn(ConnectionInfo) -> bool {
    |info: ConnectionInfo| !visible.contains(info.ssid@)
}

/// The saved networks that are out of reach: the profiles whose SSID no
/// visible known network has, in the order of the profiles.
pub open spec fn unavailable_of(
    known: Seq<(Network, i16)>,
    saved: Seq<ConnectionInfo>,
) -> Seq<KnownNetwork> {
    saved.filter(out_of_reach(row_names(known))).map_values(
        |info: ConnectionInfo| KnownNetwork::of_connection(info),
    )
}

/// Whether some row has the given SSID.
pub fn has_row(rows: &Vec<(Network, i16)>, ssid: &String) -> (r: bool)
    ensures
        r == row_names(rows@).contains(ssid@),
{
    let ghost names = row_names(rows@);
    let mut i: usize = 0;
    while i < rows.len()
        invariant
            i <= rows.len(),
            names == row_names(rows@),
            forall|j: int| 0 <= j < i ==> names[j] != ssid@,
        decreases rows.len() - i,
    {
        if rows[i].0.name == *ssid {
            assert(names[i as int] == ssid@);
            return true;
        }
        i += 1;
    }
    false
}

/// The saved profiles that the current scan does not show: every profile
/// whose SSID none of the visible known networks has.
pub fn find_unavailable(known_now_visible: &Vec<(Network, i16)>, saved: &Vec<ConnectionInfo>) -> (r:
    Vec<KnownNetwork>)
    ensures
        r@ == unavailable_of(known_now_visible@, saved@),
{
    let ghost visible = row_names(known_now_visible@);
    let ghost to_row = |info: ConnectionInfo| KnownNetwork::of_connection(info);
    let mut unavailable: Vec<KnownNetwork> = Vec::new();
    let mut i: usize = 0;
    while i < saved.len()
        invariant
            i <= saved.len(),
            visible == row_names(known_now_visible@),
            unavailable@ == unavailable_of(known_now_visible@, saved@.take(i as int)),
        decreases saved.len() - i,
    {
        let info = &saved[i];
        proof {
            let before = saved@.take(i as int);
            assert(saved@.take(i as int + 1) == before.push(*info));
            before.lemma_filter_push(*info, out_of_reach(visible));
        }
        if !has_row(known_now_visible, &info.ssid) {
            unavailable.push(KnownNetwork::from_connection_info(info.clone()));
        }
        i += 1;
    }
    proof {
        assert(saved@.take(i as int) == saved@);
    }
    unavailable
}

/// Whether two lists of rows show the same networks: as many rows, and the
/// same set of SSIDs, in whatever order.
pub open spec fn same_names(previous: Seq<(Network, i16)>, fresh: Seq<(Network, i16)>) -> bool {
    previous.len() == fresh.len() && row_names(previous).to_set() == row_names(fresh).to_set()
}

/// A row on screen with what a fresh scan says of its network: the signal
/// and, for a known network, the autoconnect flag are taken from the first
/// fresh row of the same SSID; everything else stays.
pub open spec fn refreshed(row: (Network, i16), fresh: Seq<(Network, i16)>) -> (Network, i16) {
    match row_names(fresh).index_of_first(row.0.name@) {
        Some(i) => (
            Network {
                device_path: row.0.device_path,
                ap_path: row.0.ap_path,
                name: row.0.name,
                network_type: row.0.network_type,
                is_connected: row.0.is_connected,
                known_network: match (row.0.known_network, fresh[i].0.known_network) {
                    (Some(shown), Some(seen)) => Some(
                        KnownNetwork {
                            connection_path: shown.connection_path,
                            name: shown.name,
                            network_type: shown.network_type,
                            is_autoconnect: seen.is_autoconnect,
                            is_hidden: shown.is_hidden,
                            last_connected: shown.last_connected,
                        },
                    ),
                    _ => row.0.known_network,
                },
                signal_strength: fresh[i].0.signal_strength,
            },
            fresh[i].1,
        ),
        None => row,
    }
}

/// The list on screen after a refresh: where the fresh list shows the same
/// networks, the rows stay as they are and only take over what changed;
/// otherwise the fresh list replaces them.
pub open spec fn merged(previous: Seq<(Network, i16)>, fresh: Seq<(Network, i16)>) -> Seq<
    (Network, i16),
> {
    if same_names(previous, fresh) {
        previous.map_values(|row: (Network, i16)| refreshed(row, fresh))
    } else {
        fresh
    }
}

/// The selection after a refresh: untouched where the fresh list shows the
/// same networks; otherwise the first row, or nothing for an empty list.
pub open spec fn selection_after(
    previous: Seq<(Network, i16)>,
    fresh: Seq<(Network, i16)>,
    selection: Option<usize>,
) -> Option<usize> {
    if same_names(previous, fresh) {
        selection
    } else if fresh.len() > 0 {
        Some(0usize)
    } else {
        None
    }
}

/// Whether every SSID of `rows` is one of `others`.
pub fn names_within(rows: &Vec<(Network, i16)>, others: &Vec<(Network, i16)>) -> (r: bool)
    ensures
        r == row_names(rows@).to_set().subset_of(row_names(others@).to_set()),
{
    let ghost names = row_names(rows@);
    let ghost other_names = row_names(others@);
    let mut i: usize = 0;
    while i < rows.len()
        invariant
            i <= rows.len(),
            names == row_names(rows@),
            other_names == row_names(others@),
            forall|j: int| 0 <= j < i ==> other_names.contains(#[trigger] names[j]),
        decreases rows.len() - i,
    {
        if !has_row(others, &rows[i].0.name) {
            proof {
                assert(names[i as int] == rows[i as int].0.name@);
                assert(names.to_set().contains(names[i as int]));
                assert(!other_names.to_set().contains(names[i as int]));
            }
            return false;
        }
        assert(names[i as int] == rows[i as int].0.name@);
        i += 1;
    }
    proof {
        assert forall|name: Seq<char>| names.to_set().contains(name) implies other_names.to_set().contains(
            name,
        ) by {
            let j = choose|j: int| 0 <= j < names.len() && names[j] == name;
            assert(other_names.contains(names[j]));
        }
    }
    true
}

/// Whether two lists of rows show the same networks.
pub fn shows_same_networks(previous: &Vec<(Network, i16)>, fresh: &Vec<(Network, i16)>) -> (r: bool)
    ensures
        r == same_names(previous@, fresh@),
{
    if previous.len() != fresh.len() {
        return false;
    }
    let forth = names_within(previous, fresh);
    let back = names_within(fresh, previous);
    proof {
        let a = row_names(previous@).to_set();
        let b = row_names(fresh@).to_set();
        if forth && back {
            assert(a =~= b);
        }
    }
    forth && back
}

/// Position of the first row with the given SSID.
pub fn find_row(rows: &Vec<(Network, i16)>, ssid: &String) -> (r: Option<usize>)
    ensures
        match r {
            Some(i) => i < rows.len() && row_names(rows@).index_of_first(ssid@) == Some(i as int),
            None => row_names(rows@).index_of_first(ssid@) is None,
        },
{
    let ghost names = row_names(rows@);
    let mut i: usize = 0;
    while i < rows.len()
        invariant
            i <= rows.len(),
            names == row_names(rows@),
            forall|j: int| 0 <= j < i ==> names[j] != ssid@,
        decreases rows.len() - i,
    {
        if rows[i].0.name == *ssid {
            proof {
                assert(names[i as int] == ssid@);
                names.index_of_first_ensures(ssid@);
            }
            return Some(i);
        }
        i += 1;
    }
    proof {
        names.index_of_first_ensures(ssid@);
    }
    None
}

/// Brings one row on screen up to date from the fresh list.
pub fn refresh_row(row: (Network, i16), fresh: &Vec<(Network, i16)>) -> (r: (Network, i16))
    ensures
        r == refreshed(row, fresh@),
{
    let (network, signal) = row;
    match find_row(fresh, &network.name) {
        Some(i) => {
            let seen = &fresh[i];
            let known_network = match network.known_network {
                Some(shown) => match &seen.0.known_network {
                    Some(seen_known) => Some(
                        KnownNetwork {
                            connection_path: shown.connection_path,
                            name: shown.name,
                            network_type: shown.network_type,
                            is_autoconnect: seen_known.is_autoconnect,
                            is_hidden: shown.is_hidden,
                            last_connected: shown.last_connected,
                        },
                    ),
                    None => Some(shown),
                },
                None => None,
            };
            (
                Network {
                    device_path: network.device_path,
                    ap_path: network.ap_path,
                    name: network.name,
                    network_type: network.network_type,
                    is_connected: network.is_connected,
                    known_network,
                    signal_strength: seen.0.signal_strength,
                },
                seen.1,
            )
        },
        None => (network, signal),
    }
}

/// Merges a fresh list into the one on screen. Where both show the same set
/// of SSIDs, the rows on screen stay in place, take over signal and
/// autoconnect flag from the fresh rows, and the selection does not move.
/// Otherwise the fresh list replaces the old one and the selection goes to
/// the first row, or to nothing where the list is empty: never to an index
/// of the list that went.
pub fn merge_preserving_selection(
    previous: Vec<(Network, i16)>,
    fresh: Vec<(Network, i16)>,
    previous_selection: Option<usize>,
) -> (r: (Vec<(Network, i16)>, Option<usize>))
    ensures
        r.0@ == merged(previous@, fresh@),
        r.1 == selection_after(previous@, fresh@, previous_selection),
        same_names(previous@, fresh@) ==> r.1 == previous_selection,
        !same_names(previous@, fresh@) ==> r.1 == (if fresh@.len() > 0 {
            Some(0usize)
        } else {
            None
        }),
{
    if shows_same_networks(&previous, &fresh) {
        let ghost update = |row: (Network, i16)| refreshed(row, fresh@);
        let mut rows: Vec<(Network, i16)> = Vec::new();
        for row in it: previous
            invariant
                rows@ == previous@.take(it.index() as int).map_values(
                    |row: (Network, i16)| refreshed(row, fresh@),
                ),
        {
            proof {
                let before = previous@.take(it.index() as int);
                assert(previous@.take(it.index() + 1) == before.push(row));
            }
            rows.push(refresh_row(row, &fresh));
        }
        proof {
            assert(previous@.take(previous@.len() as int) == previous@);
        }
        (rows, previous_selection)
    } else {
        let selection = if fresh.len() > 0 {
            Some(0)
        } else {
            None
        };
        (fresh, selection)
    }
}

/// Whether `row` shows the access point that stands for its SSID in the scan:
/// the strongest of that SSID, and of equally strong ones the first.
pub open spec fn shows_strongest(row: (Network, i16), scanned: Seq<AccessPointInfo>) -> bool {
    exists|k: int|
        #[trigger] is_strongest(scanned, k) && row.0.name == scanned[k].ssid && row.0.ap_path
            == scanned[k].path && row.0.signal_strength == scanned[k].strength && row.1
            == signal_of(scanned[k].strength)
}

/// Whether the two lists together hold exactly one row for each SSID of the
/// scan, which shows the strongest access point of that SSID.
pub open spec fn one_row_per_ssid(
    known: Seq<(Network, i16)>,
    fresh: Seq<(Network, i16)>,
    scanned: Seq<AccessPointInfo>,
) -> bool {
    &&& row_names(known).no_duplicates()
    &&& row_names(fresh).no_duplicates()
    &&& row_names(known).to_set().disjoint(row_names(fresh).to_set())
    &&& forall|i: int| 0 <= i < known.len() ==> shows_strongest(#[trigger] known[i], scanned)
    &&& forall|i: int| 0 <= i < fresh.len() ==> shows_strongest(#[trigger] fresh[i], scanned)
    &&& forall|k: int|
        0 <= k < scanned.len() && (#[trigger] scanned[k]).ssid@.len() > 0 ==> row_names(
            known,
        ).contains(scanned[k].ssid@) || row_names(fresh).contains(scanned[k].ssid@)
}

/// What passes a filter satisfies the test and comes from the list.
proof fn lemma_filtered_row(rows: Seq<(Network, i16)>, keep: spec_fn((Network, i16)) -> bool, i: int)
    requires
        0 <= i < rows.filter(keep).len(),
    ensures
        keep(rows.filter(keep)[i]),
        rows.contains(rows.filter(keep)[i]),
{
    let kept = rows.filter(keep);
    rows.lemma_filter_pred(keep, i);
    assert(kept.contains(kept[i]));
    rows.lemma_filter_contains_rev(keep, kept[i]);
}

/// Filtering rows of distinct SSIDs leaves rows of distinct SSIDs.
proof fn lemma_filter_keeps_distinct(rows: Seq<(Network, i16)>, keep: spec_fn((Network, i16)) -> bool)
    requires
        row_names(rows).no_duplicates(),
    ensures
        row_names(rows.filter(keep)).no_duplicates(),
    decreases rows.len(),
{
    let kept = rows.filter(keep);
    if rows.len() == 0 {
        reveal(Seq::filter);
    } else {
        let head = rows.drop_last();
        let last = rows.last();
        assert(row_names(head).no_duplicates()) by {
            assert forall|i: int, j: int|
                0 <= i < head.len() && 0 <= j < head.len() && i != j implies row_names(head)[i]
                != row_names(head)[j] by {
                assert(row_names(rows)[i] != row_names(rows)[j]);
            }
        }
        lemma_filter_keeps_distinct(head, keep);
        head.lemma_filter_push(last, keep);
        assert(head.push(last) == rows);
        if keep(last) {
            let front = head.filter(keep);
            assert forall|i: int, j: int|
                0 <= i < kept.len() && 0 <= j < kept.len() && i != j implies row_names(kept)[i]
                != row_names(kept)[j] by {
                if i < front.len() && j < front.len() {
                    assert(row_names(front)[i] != row_names(front)[j]);
                } else {
                    let inner = if i < front.len() {
                        i
                    } else {
                        j
                    };
                    lemma_filtered_row(head, keep, inner);
                    let at = choose|at: int| 0 <= at < head.len() && head[at] == front[inner];
                    assert(row_names(rows)[at] != row_names(rows)[rows.len() - 1]);
                }
            }
        }
    }
}

/// The rows of access points with distinct SSIDs have distinct SSIDs, and
/// each shows its access point.
proof fn lemma_rows_follow_aps(
    device_path: String,
    aps: Seq<AccessPointInfo>,
    saved: Seq<ConnectionInfo>,
    active: Option<Seq<char>>,
)
    ensures
        row_names(rows_of(device_path, aps, saved, active)) == ap_names(aps),
        distinct_ssids(aps) ==> ap_names(aps).no_duplicates(),
{
    assert(row_names(rows_of(device_path, aps, saved, active)) =~= ap_names(aps));
    if distinct_ssids(aps) {
        assert forall|i: int, j: int|
            0 <= i < aps.len() && 0 <= j < aps.len() && i != j implies ap_names(aps)[i]
            != ap_names(aps)[j] by {
            if i < j {
                assert(aps[i].ssid@ != aps[j].ssid@);
            } else {
                assert(aps[j].ssid@ != aps[i].ssid@);
            }
        }
    }
}

/// Reconciling keeps exactly one row per SSID of the scan, in the known or in
/// the new networks, and that row shows the strongest access point of its
/// SSID; of equally strong ones, the first of the scan.
pub proof fn lemma_reconcile_one_per_ssid(
    device_path: String,
    scanned: Seq<AccessPointInfo>,
    saved: Seq<ConnectionInfo>,
    active: Option<Seq<char>>,
)
    ensures
        one_row_per_ssid(
            rows_of(device_path, strongest_per_ssid(scanned), saved, active).filter(known_row()),
            rows_of(device_path, strongest_per_ssid(scanned), saved, active).filter(new_row()),
            scanned,
        ),
{
    let aps = strongest_per_ssid(scanned);
    let rows = rows_of(device_path, aps, saved, active);
    let known = rows.filter(known_row());
    let fresh = rows.filter(new_row());
    lemma_strongest_per_ssid(scanned);
    lemma_rows_follow_aps(device_path, aps, saved, active);
    lemma_filter_keeps_distinct(rows, known_row());
    lemma_filter_keeps_distinct(rows, new_row());
    assert forall|i: int| 0 <= i < rows.len() implies shows_strongest(#[trigger] rows[i], scanned) by {
        assert(stands_in(aps[i], scanned));
        let k = choose|k: int| #[trigger] is_strongest(scanned, k) && scanned[k] == aps[i];
        assert(is_strongest(scanned, k) && rows[i].0.name == scanned[k].ssid);
    }
    assert forall|i: int| 0 <= i < known.len() implies shows_strongest(
        #[trigger] known[i],
        scanned,
    ) by {
        lemma_filtered_row(rows, known_row(), i);
        let at = choose|at: int| 0 <= at < rows.len() && rows[at] == known[i];
        assert(shows_strongest(rows[at], scanned));
    }
    assert forall|i: int| 0 <= i < fresh.len() implies shows_strongest(
        #[trigger] fresh[i],
        scanned,
    ) by {
        lemma_filtered_row(rows, new_row(), i);
        let at = choose|at: int| 0 <= at < rows.len() && rows[at] == fresh[i];
        assert(shows_strongest(rows[at], scanned));
    }
    assert forall|name: Seq<char>| row_names(known).to_set().contains(name) implies !row_names(
        fresh,
    ).to_set().contains(name) by {
        if row_names(fresh).to_set().contains(name) {
            let i = choose|i: int| 0 <= i < known.len() && row_names(known)[i] == name;
            let j = choose|j: int| 0 <= j < fresh.len() && row_names(fresh)[j] == name;
            lemma_filtered_row(rows, known_row(), i);
            lemma_filtered_row(rows, new_row(), j);
            let a = choose|a: int| 0 <= a < rows.len() && rows[a] == known[i];
            let b = choose|b: int| 0 <= b < rows.len() && rows[b] == fresh[j];
            assert(row_names(rows)[a] == name && row_names(rows)[b] == name);
            assert(a == b);
        }
    }
    assert forall|k: int|
        0 <= k < scanned.len() && (#[trigger] scanned[k]).ssid@.len() > 0 implies row_names(
        known,
    ).contains(scanned[k].ssid@) || row_names(fresh).contains(scanned[k].ssid@) by {
        assert(has_entry(aps, scanned[k].ssid@));
        let i = choose|i: int| 0 <= i < aps.len() && (#[trigger] aps[i]).ssid@ == scanned[k].ssid@;
        let row = rows[i];
        if row.0.is_known() {
            rows.lemma_filter_contains(known_row(), i);
            let at = choose|at: int| 0 <= at < known.len() && known[at] == row;
            assert(row_names(known)[at] == scanned[k].ssid@);
        } else {
            rows.lemma_filter_contains(new_row(), i);
            let at = choose|at: int| 0 <= at < fresh.len() && fresh[at] == row;
            assert(row_names(fresh)[at] == scanned[k].ssid@);
        }
    }
}

/// Every known network that reconciling finds has the SSID of a saved
/// profile.
pub proof fn lemma_known_rows_are_saved(
    device_path: String,
    aps: Seq<AccessPointInfo>,
    saved: Seq<ConnectionInfo>,
    active: Option<Seq<char>>,
)
    ensures
        row_names(rows_of(device_path, aps, saved, active).filter(known_row())).to_set().subset_of(
            profile_names(saved).to_set(),
        ),
{
    let rows = rows_of(device_path, aps, saved, active);
    let known = rows.filter(known_row());
    assert forall|name: Seq<char>| row_names(known).to_set().contains(name) implies profile_names(
        saved,
    ).to_set().contains(name) by {
        let i = choose|i: int| 0 <= i < known.len() && row_names(known)[i] == name;
        lemma_filtered_row(rows, known_row(), i);
        let at = choose|at: int| 0 <= at < rows.len() && rows[at] == known[i];
        assert(rows[at] == row_of(device_path, aps[at], saved, active));
        profile_names(saved).index_of_first_ensures(aps[at].ssid@);
    }
}

/// No unavailable network has the SSID of a known network on screen.
pub proof fn lemma_unavailable_apart(known: Seq<(Network, i16)>, saved: Seq<ConnectionInfo>)
    ensures
        row_names(known).to_set().disjoint(known_names(unavailable_of(known, saved)).to_set()),
{
    let visible = row_names(known);
    let keep = out_of_reach(visible);
    let left = saved.filter(keep);
    let names = known_names(unavailable_of(known, saved));
    assert forall|name: Seq<char>| visible.to_set().contains(name) implies !names.to_set().contains(
        name,
    ) by {
        if names.to_set().contains(name) {
            let i = choose|i: int| 0 <= i < names.len() && names[i] == name;
            saved.lemma_filter_pred(keep, i);
            assert(names[i] == left[i].ssid@);
        }
    }
}

/// The known networks on screen and the unavailable ones part the saved
/// profiles by SSID: no SSID is on both sides, and together they are the
/// SSIDs of the saved profiles. This holds wherever every known network on
/// screen has the SSID of a saved profile, as the known networks of a
/// reconciled scan do.
pub proof fn lemma_unavailable_partition(known: Seq<(Network, i16)>, saved: Seq<ConnectionInfo>)
    requires
        row_names(known).to_set().subset_of(profile_names(saved).to_set()),
    ensures
        row_names(known).to_set().disjoint(known_names(unavailable_of(known, saved)).to_set()),
        row_names(known).to_set().union(known_names(unavailable_of(known, saved)).to_set())
            == profile_names(saved).to_set(),
{
    let visible = row_names(known);
    let keep = out_of_reach(visible);
    let left = saved.filter(keep);
    let unavailable = unavailable_of(known, saved);
    let names = known_names(unavailable);
    assert forall|i: int| 0 <= i < names.len() implies names[i] == left[i].ssid@ && keep(left[i])
        && saved.contains(left[i]) by {
        saved.lemma_filter_pred(keep, i);
        assert(left.contains(left[i]));
        saved.lemma_filter_contains_rev(keep, left[i]);
    }
    assert forall|name: Seq<char>| visible.to_set().contains(name) implies !names.to_set().contains(
        name,
    ) by {
        if names.to_set().contains(name) {
            let i = choose|i: int| 0 <= i < names.len() && names[i] == name;
            assert(keep(left[i]));
        }
    }
    let all = visible.to_set().union(names.to_set());
    assert forall|name: Seq<char>| all.contains(name) <==> profile_names(saved).to_set().contains(
        name,
    ) by {
        if names.to_set().contains(name) {
            let i = choose|i: int| 0 <= i < names.len() && names[i] == name;
            let at = choose|at: int| 0 <= at < saved.len() && saved[at] == left[i];
            assert(profile_names(saved)[at] == name);
        }
        if profile_names(saved).to_set().contains(name) && !visible.to_set().contains(name) {
            let at = choose|at: int| 0 <= at < saved.len() && profile_names(saved)[at] == name;
            assert(!visible.contains(name));
            assert(keep(saved[at]));
            saved.lemma_filter_contains(keep, at);
            let i = choose|i: int| 0 <= i < left.len() && left[i] == saved[at];
            assert(names[i] == name);
        }
    }
    assert(all =~= profile_names(saved).to_set());
}

/// After reconciling and looking for the unavailable networks with the same
/// saved profiles, every saved SSID is either a known network or an
/// unavailable one, and none is both.
pub proof fn lemma_reconciled_partition(
    device_path: String,
    scanned: Seq<AccessPointInfo>,
    saved: Seq<ConnectionInfo>,
    active: Option<Seq<char>>,
)
    ensures
        ({
            let known = rows_of(device_path, strongest_per_ssid(scanned), saved, active).filter(
                known_row(),
            );
            let unavailable = unavailable_of(known, saved);
            &&& row_names(known).to_set().disjoint(known_names(unavailable).to_set())
            &&& row_names(known).to_set().union(known_names(unavailable).to_set())
                == profile_names(saved).to_set()
        }),
{
    let known = rows_of(device_path, strongest_per_ssid(scanned), saved, active).filter(known_row());
    lemma_known_rows_are_saved(device_path, strongest_per_ssid(scanned), saved, active);
    lemma_unavailable_partition(known, saved);
}

/// Merging keeps every row's SSID where the fresh list shows the same
/// networks.
pub proof fn lemma_merge_keeps_names(previous: Seq<(Network, i16)>, fresh: Seq<(Network, i16)>)
    requires
        same_names(previous, fresh),
    ensures
        row_names(merged(previous, fresh)) == row_names(previous),
        same_names(merged(previous, fresh), fresh),
{
    assert(row_names(merged(previous, fresh)) =~= row_names(previous));
}

/// Merging the same fresh list twice is merging it once: where it shows the
/// networks already on screen, neither call moves the selection, and the
/// second call changes no row.
pub proof fn lemma_merge_twice(
    previous: Seq<(Network, i16)>,
    fresh: Seq<(Network, i16)>,
    selection: Option<usize>,
)
    requires
        same_names(previous, fresh),
    ensures
        selection_after(previous, fresh, selection) == selection,
        selection_after(
            merged(previous, fresh),
            fresh,
            selection_after(previous, fresh, selection),
        ) == selection,
        merged(merged(previous, fresh), fresh) == merged(previous, fresh),
{
    lemma_merge_keeps_names(previous, fresh);
    let once = merged(previous, fresh);
    let twice = merged(once, fresh);
    assert forall|i: int| 0 <= i < once.len() implies twice[i] == once[i] by {
        assert(once[i] == refreshed(previous[i], fresh));
        assert(twice[i] == refreshed(once[i], fresh));
    }
    assert(twice =~= once);
}

/// Where the fresh list shows other networks than the list on screen, the
/// selection after merging is the first row of the fresh list, or nothing
/// where that list is empty, whatever was selected before.
pub proof fn lemma_selection_resets(
    previous: Seq<(Network, i16)>,
    fresh: Seq<(Network, i16)>,
    selection: Option<usize>,
)
    requires
        !same_names(previous, fresh),
    ensures
        fresh.len() > 0 ==> selection_after(previous, fresh, selection) == Some(0usize),
        fresh.len() == 0 ==> selection_after(previous, fresh, selection) is None,
        merged(previous, fresh) == fresh,
{
}

/// Whether a row is marked connected exactly where its SSID is the active
/// one.
pub open spec fn marked_by(row: (Network, i16), active: Option<Seq<char>>) -> bool {
    row.0.is_connected == (active == Some(row.0.name@))
}

/// Whether some row of the list shows the network.
pub open spec fn holds(rows: Seq<(Network, i16)>, network: Network) -> bool {
    exists|i: int| 0 <= i < rows.len() && (#[trigger] rows[i]).0 == network
}

/// Whether at most one row of the two lists is marked connected, and the
/// connected network, where there is one, is that row's network.
pub open spec fn one_connected(
    known: Seq<(Network, i16)>,
    fresh: Seq<(Network, i16)>,
    connected: Option<Network>,
) -> bool {
    &&& forall|i: int, j: int|
        0 <= i < known.len() && 0 <= j < known.len() && (#[trigger] known[i]).0.is_connected && (
        #[trigger] known[j]).0.is_connected ==> i == j
    &&& forall|i: int, j: int|
        0 <= i < fresh.len() && 0 <= j < fresh.len() && (#[trigger] fresh[i]).0.is_connected && (
        #[trigger] fresh[j]).0.is_connected ==> i == j
    &&& forall|i: int, j: int|
        0 <= i < known.len() && 0 <= j < fresh.len() ==> !((#[trigger] known[i]).0.is_connected
            && (#[trigger] fresh[j]).0.is_connected)
    &&& forall|i: int|
        0 <= i < known.len() && (#[trigger] known[i]).0.is_connected ==> connected == Some(
            known[i].0,
        )
    &&& forall|i: int|
        0 <= i < fresh.len() && (#[trigger] fresh[i]).0.is_connected ==> connected == Some(
            fresh[i].0,
        )
    &&& connected matches Some(network) ==> network.is_connected && (holds(known, network)
        || holds(fresh, network))
}

/// Reconciling marks at most one network as connected: the one whose SSID is
/// the active one, which is then the connected network.
pub proof fn lemma_reconcile_one_connected(
    device_path: String,
    scanned: Seq<AccessPointInfo>,
    saved: Seq<ConnectionInfo>,
    active: Option<Seq<char>>,
)
    ensures
        one_connected(
            rows_of(device_path, strongest_per_ssid(scanned), saved, active).filter(known_row()),
            rows_of(device_path, strongest_per_ssid(scanned), saved, active).filter(new_row()),
            connected_among(device_path, strongest_per_ssid(scanned), saved, active),
        ),
{
    let aps = strongest_per_ssid(scanned);
    let rows = rows_of(device_path, aps, saved, active);
    let known = rows.filter(known_row());
    let fresh = rows.filter(new_row());
    let connected = connected_among(device_path, aps, saved, active);
    lemma_strongest_per_ssid(scanned);
    lemma_rows_follow_aps(device_path, aps, saved, active);
    let names = ap_names(aps);
    if active is Some {
        names.index_of_first_ensures(active->0);
    }
    assert forall|at: int| 0 <= at < rows.len() && (#[trigger] rows[at]).0.is_connected implies connected
        == Some(rows[at].0) by {
        assert(names[at] == active->0);
        let first = names.index_of_first(active->0)->0;
        assert(first == at);
    }
    assert forall|i: int| 0 <= i < known.len() implies rows.contains(#[trigger] known[i]) by {
        lemma_filtered_row(rows, known_row(), i);
    }
    assert forall|i: int| 0 <= i < fresh.len() implies rows.contains(#[trigger] fresh[i]) by {
        lemma_filtered_row(rows, new_row(), i);
    }
    lemma_filter_keeps_distinct(rows, known_row());
    lemma_filter_keeps_distinct(rows, new_row());
    assert forall|i: int, j: int|
        0 <= i < known.len() && 0 <= j < known.len() && (#[trigger] known[i]).0.is_connected && (
        #[trigger] known[j]).0.is_connected implies i == j by {
        assert(row_names(known)[i] == row_names(known)[j]);
    }
    assert forall|i: int, j: int|
        0 <= i < fresh.len() && 0 <= j < fresh.len() && (#[trigger] fresh[i]).0.is_connected && (
        #[trigger] fresh[j]).0.is_connected implies i == j by {
        assert(row_names(fresh)[i] == row_names(fresh)[j]);
    }
    assert forall|i: int, j: int| 0 <= i < known.len() && 0 <= j < fresh.len() implies !((
    #[trigger] known[i]).0.is_connected && (#[trigger] fresh[j]).0.is_connected) by {
        if known[i].0.is_connected && fresh[j].0.is_connected {
            let a = choose|a: int| 0 <= a < rows.len() && rows[a] == known[i];
            let b = choose|b: int| 0 <= b < rows.len() && rows[b] == fresh[j];
            lemma_filtered_row(rows, known_row(), i);
            lemma_filtered_row(rows, new_row(), j);
            assert(rows[a].0 == rows[b].0);
        }
    }
    if connected is Some {
        let network = connected->0;
        let at = names.index_of_first(active->0)->0;
        assert(rows[at].0 == network);
        assert(network.is_connected);
        if rows[at].0.is_known() {
            rows.lemma_filter_contains(known_row(), at);
            let i = choose|i: int| 0 <= i < known.len() && known[i] == rows[at];
            assert(known[i].0 == network);
        } else {
            rows.lemma_filter_contains(new_row(), at);
            let i = choose|i: int| 0 <= i < fresh.len() && fresh[i] == rows[at];
            assert(fresh[i].0 == network);
        }
    }
}

/// The SSID of the selected row, where a row is selected.
pub open spec fn selected_name(rows: Seq<(Network, i16)>, selection: Option<usize>) -> Option<
    Seq<char>,
> {
    match selection {
        Some(i) => if i < rows.len() {
            Some(rows[i as int].0.name@)
        } else {
            None
        },
        None => None,
    }
}

/// Where the fresh list shows the networks already on screen, the cursor
/// stays on the network that it was on: the selection is kept by the
/// network's name, not only by its place.
pub proof fn lemma_selection_keeps_its_network(
    previous: Seq<(Network, i16)>,
    fresh: Seq<(Network, i16)>,
    selection: Option<usize>,
)
    requires
        same_names(previous, fresh),
    ensures
        selected_name(merged(previous, fresh), selection_after(previous, fresh, selection))
            == selected_name(previous, selection),
{
    lemma_merge_keeps_names(previous, fresh);
    if selection is Some && selection->0 < previous.len() {
        let i = selection->0 as int;
        assert(row_names(merged(previous, fresh))[i] == row_names(previous)[i]);
    }
}

/// Whether a row is in order as a row of the known networks, or of the new
/// ones: it has a profile exactly in the former case, its signal is that of
/// its access point, and it has a name.
pub open spec fn row_in_order(row: (Network, i16), known: bool) -> bool {
    &&& row.0.is_known() == known
    &&& row.1 == signal_of(row.0.signal_strength)
    &&& row.0.name@.len() > 0
}

/// Whether a list is in order as the list of known networks, or of new ones:
/// every row is, and no two rows share an SSID.
pub open spec fn rows_in_order(rows: Seq<(Network, i16)>, known: bool) -> bool {
    &&& row_names(rows).no_duplicates()
    &&& forall|i: int| 0 <= i < rows.len() ==> row_in_order(#[trigger] rows[i], known)
}

/// Whether every row has a profile, or every row has none.
pub open spec fn rows_of_kind(rows: Seq<(Network, i16)>, known: bool) -> bool {
    forall|i: int| 0 <= i < rows.len() ==> (#[trigger] rows[i]).0.is_known() == known
}

/// The two lists that reconciling gives are in order.
pub proof fn lemma_reconciled_rows_in_order(
    device_path: String,
    scanned: Seq<AccessPointInfo>,
    saved: Seq<ConnectionInfo>,
    active: Option<Seq<char>>,
)
    ensures
        rows_in_order(
            rows_of(device_path, strongest_per_ssid(scanned), saved, active).filter(known_row()),
            true,
        ),
        rows_in_order(
            rows_of(device_path, strongest_per_ssid(scanned), saved, active).filter(new_row()),
            false,
        ),
{
    let aps = strongest_per_ssid(scanned);
    let rows = rows_of(device_path, aps, saved, active);
    let known = rows.filter(known_row());
    let fresh = rows.filter(new_row());
    lemma_strongest_per_ssid(scanned);
    lemma_rows_follow_aps(device_path, aps, saved, active);
    lemma_filter_keeps_distinct(rows, known_row());
    lemma_filter_keeps_distinct(rows, new_row());
    assert forall|at: int| 0 <= at < rows.len() implies (#[trigger] rows[at]).1 == signal_of(
        rows[at].0.signal_strength,
    ) && rows[at].0.name@.len() > 0 by {
        assert(stands_in(aps[at], scanned));
    }
    assert forall|i: int| 0 <= i < known.len() implies row_in_order(#[trigger] known[i], true) by {
        lemma_filtered_row(rows, known_row(), i);
    }
    assert forall|i: int| 0 <= i < fresh.len() implies row_in_order(#[trigger] fresh[i], false) by {
        lemma_filtered_row(rows, new_row(), i);
    }
}

/// Merging a fresh list that is in order into a list of the same kind gives
/// a list that is in order and shows the networks of the fresh list.
pub proof fn lemma_merged_rows_in_order(
    previous: Seq<(Network, i16)>,
    fresh: Seq<(Network, i16)>,
    known: bool,
)
    requires
        rows_in_order(fresh, known),
        rows_of_kind(previous, known),
    ensures
        rows_in_order(merged(previous, fresh), known),
        row_names(merged(previous, fresh)).to_set() == row_names(fresh).to_set(),
{
    if same_names(previous, fresh) {
        let out = merged(previous, fresh);
        let names = row_names(previous);
        let seen = row_names(fresh);
        assert(row_names(out) =~= names);
        seen.unique_seq_to_set();
        names.lemma_no_dup_set_cardinality();
        assert forall|i: int| 0 <= i < out.len() implies row_in_order(#[trigger] out[i], known) by {
            assert(out[i] == refreshed(previous[i], fresh));
            assert(names[i] == previous[i].0.name@);
            assert(names.to_set().contains(names[i]));
            assert(seen.contains(names[i]));
            seen.index_of_first_ensures(names[i]);
            let at = seen.index_of_first(names[i])->0;
            assert(row_in_order(fresh[at], known));
            assert(seen[at] == fresh[at].0.name@);
            assert(previous[i].0.is_known() == known);
        }
    }
}

} // verus!
