//! The list of visible networks that one scan gives: one entry per SSID, the
//! strongest first.

use crate::nm::ranking::{by_rank, descending, of_rank, sort_by_rank, Ranked};
use crate::nm::types::{AccessPointInfo, ConnectionInfo, DeviceState};
use vstd::prelude::*;

verus! {

/// The SSIDs of a list of access points, in its order.
pub open spec fn ap_names(aps: Seq<AccessPointInfo>) -> Seq<Seq<char>> {
    aps.map_values(|ap: AccessPointInfo| ap.ssid@)
}

/// Takes one more access point into a list that holds one entry per SSID. A
/// hidden beacon, which has an empty SSID, is dropped. An SSID not seen yet
/// gets a new entry at the end. For an SSID seen before, the entry stays where
/// it is, and the newcomer replaces it only where it is strictly stronger:
/// of equally strong ones the first stays.
pub open spec fn absorb(kept: Seq<AccessPointInfo>, ap: AccessPointInfo) -> Seq<AccessPointInfo> {
    if ap.ssid@.len() == 0 {
        kept
    } else {
        match ap_names(kept).index_of_first(ap.ssid@) {
            Some(i) => if ap.strength > kept[i].strength {
                kept.update(i, ap)
            } else {
                kept
            },
            None => kept.push(ap),
        }
    }
}

/// The scan with one entry per SSID: entries stand in the order in which
/// their SSIDs first occur.
pub open spec fn strongest_per_ssid(aps: Seq<AccessPointInfo>) -> Seq<AccessPointInfo> {
    aps.fold_left(
        Seq::<AccessPointInfo>::empty(),
        |kept: Seq<AccessPointInfo>, ap: AccessPointInfo| absorb(kept, ap),
    )
}

/// Whether entry `k` is the one that stands for its SSID: it has an SSID, no
/// entry of the same SSID is stronger, and none before it is as strong.
pub open spec fn is_strongest(aps: Seq<AccessPointInfo>, k: int) -> bool {
    &&& 0 <= k < aps.len()
    &&& aps[k].ssid@.len() > 0
    &&& forall|j: int|
        0 <= j < aps.len() && (#[trigger] aps[j]).ssid@ == aps[k].ssid@ ==> aps[j].strength
            <= aps[k].strength
    &&& forall|j: int|
        0 <= j < k && (#[trigger] aps[j]).ssid@ == aps[k].ssid@ ==> aps[j].strength
            < aps[k].strength
}

/// Whether `entry` is an entry of `aps` that stands for its SSID.
pub open spec fn stands_in(entry: AccessPointInfo, aps: Seq<AccessPointInfo>) -> bool {
    exists|k: int| #[trigger] is_strongest(aps, k) && aps[k] == entry
}

/// Whether some entry of `kept` has the given SSID.
pub open spec fn has_entry(kept: Seq<AccessPointInfo>, ssid: Seq<char>) -> bool {
    exists|i: int| 0 <= i < kept.len() && (#[trigger] kept[i]).ssid@ == ssid
}

/// Whether no two entries share an SSID.
pub open spec fn distinct_ssids(kept: Seq<AccessPointInfo>) -> bool {
    forall|i: int, j: int|
        0 <= i < j < kept.len() ==> (#[trigger] kept[i]).ssid@ != (#[trigger] kept[j]).ssid@
}

/// Whether `kept` holds, for each SSID that occurs in `aps`, exactly the
/// entry that stands for it, and nothing else.
pub open spec fn one_per_ssid(kept: Seq<AccessPointInfo>, aps: Seq<AccessPointInfo>) -> bool {
    &&& distinct_ssids(kept)
    &&& forall|i: int| 0 <= i < kept.len() ==> stands_in(#[trigger] kept[i], aps)
    &&& forall|k: int|
        0 <= k < aps.len() && (#[trigger] aps[k]).ssid@.len() > 0 ==> has_entry(
            kept,
            aps[k].ssid@,
        )
}

/// Position of the first entry with the given SSID.
pub fn find_ssid(aps: &Vec<AccessPointInfo>, ssid: &String) -> (r: Option<usize>)
    ensures
        match r {
            Some(i) => i < aps.len() && ap_names(aps@).index_of_first(ssid@) == Some(i as int),
            None => ap_names(aps@).index_of_first(ssid@) is None,
        },
{
    let ghost names = ap_names(aps@);
    let mut i: usize = 0;
    while i < aps.len()
        invariant
            i <= aps.len(),
            names == ap_names(aps@),
            forall|j: int| 0 <= j < i ==> names[j] != ssid@,
        decreases aps.len() - i,
    {
        if aps[i].ssid == *ssid {
            proof {
                assert(names[i as int] == ssid@);
                names.index_of_first_ensures(ssid@);
            }
            return Some(i);
        }
        i += 1;
    }
    proof {
        names.index_of_first_ensures(ssid@);
    }
    None
}

/// An entry that stands for its SSID still does so after one more access
/// point, unless the newcomer has the same SSID and is stronger.
proof fn lemma_strongest_stays(aps: Seq<AccessPointInfo>, ap: AccessPointInfo, k: int)
    requires
        is_strongest(aps, k),
        aps[k].ssid@ != ap.ssid@ || ap.strength <= aps[k].strength,
    ensures
        is_strongest(aps.push(ap), k),
{
    let next = aps.push(ap);
    assert forall|j: int|
        0 <= j < next.len() && (#[trigger] next[j]).ssid@ == next[k].ssid@ implies next[j].strength
        <= next[k].strength by {
        if j < aps.len() {
            assert(next[j] == aps[j]);
        }
    }
    assert forall|j: int|
        0 <= j < k && (#[trigger] next[j]).ssid@ == next[k].ssid@ implies next[j].strength
        < next[k].strength by {
        assert(next[j] == aps[j]);
    }
}

/// The newcomer stands for its SSID where no earlier entry of that SSID is
/// as strong.
proof fn lemma_newcomer_strongest(aps: Seq<AccessPointInfo>, ap: AccessPointInfo)
    requires
        ap.ssid@.len() > 0,
        forall|j: int|
            0 <= j < aps.len() && (#[trigger] aps[j]).ssid@ == ap.ssid@ ==> aps[j].strength
                < ap.strength,
    ensures
        is_strongest(aps.push(ap), aps.len() as int),
{
    let next = aps.push(ap);
    let n = aps.len() as int;
    assert forall|j: int|
        0 <= j < next.len() && (#[trigger] next[j]).ssid@ == next[n].ssid@ implies next[j].strength
        <= next[n].strength by {
        if j < n {
            assert(next[j] == aps[j]);
        }
    }
    assert forall|j: int|
        0 <= j < n && (#[trigger] next[j]).ssid@ == next[n].ssid@ implies next[j].strength
        < next[n].strength by {
        assert(next[j] == aps[j]);
    }
}

/// Every SSID of the longer scan has its entry, where the list's SSIDs did
/// not change and that of the newcomer is among them or empty.
proof fn lemma_every_ssid_kept(
    kept: Seq<AccessPointInfo>,
    out: Seq<AccessPointInfo>,
    aps: Seq<AccessPointInfo>,
    ap: AccessPointInfo,
)
    requires
        one_per_ssid(kept, aps),
        out.len() >= kept.len(),
        forall|i: int| 0 <= i < kept.len() ==> (#[trigger] out[i]).ssid@ == kept[i].ssid@,
        ap.ssid@.len() == 0 || has_entry(out, ap.ssid@),
    ensures
        forall|k: int|
            0 <= k < aps.push(ap).len() && (#[trigger] aps.push(ap)[k]).ssid@.len() > 0
                ==> has_entry(out, aps.push(ap)[k].ssid@),
{
    let next = aps.push(ap);
    assert forall|k: int|
        0 <= k < next.len() && (#[trigger] next[k]).ssid@.len() > 0 implies has_entry(
        out,
        next[k].ssid@,
    ) by {
        if k < aps.len() {
            assert(next[k] == aps[k]);
            assert(has_entry(kept, aps[k].ssid@));
            let i = choose|i: int|
                0 <= i < kept.len() && (#[trigger] kept[i]).ssid@ == aps[k].ssid@;
            assert(out[i].ssid@ == next[k].ssid@);
        }
    }
}

/// An entry that stood for its SSID in the shorter scan does so in the
/// longer one, unless the newcomer has the same SSID and is stronger.
proof fn lemma_entry_stays(entry: AccessPointInfo, aps: Seq<AccessPointInfo>, ap: AccessPointInfo)
    requires
        stands_in(entry, aps),
        entry.ssid@ != ap.ssid@ || ap.strength <= entry.strength,
    ensures
        stands_in(entry, aps.push(ap)),
{
    let k = choose|k: int| #[trigger] is_strongest(aps, k) && aps[k] == entry;
    lemma_strongest_stays(aps, ap, k);
    assert(aps.push(ap)[k] == entry);
}

/// A hidden beacon changes nothing.
proof fn lemma_absorb_hidden(
    kept: Seq<AccessPointInfo>,
    aps: Seq<AccessPointInfo>,
    ap: AccessPointInfo,
)
    requires
        one_per_ssid(kept, aps),
        ap.ssid@.len() == 0,
    ensures
        one_per_ssid(kept, aps.push(ap)),
{
    let next = aps.push(ap);
    assert forall|i: int| 0 <= i < kept.len() implies stands_in(#[trigger] kept[i], next) by {
        lemma_entry_stays(kept[i], aps, ap);
    }
    lemma_every_ssid_kept(kept, kept, aps, ap);
}

/// An access point whose SSID has an entry at `at` replaces that entry where
/// it is stronger, and changes nothing where it is not.
proof fn lemma_absorb_seen(
    kept: Seq<AccessPointInfo>,
    aps: Seq<AccessPointInfo>,
    ap: AccessPointInfo,
    at: int,
)
    requires
        one_per_ssid(kept, aps),
        ap.ssid@.len() > 0,
        0 <= at < kept.len(),
        kept[at].ssid@ == ap.ssid@,
    ensures
        one_per_ssid(
            if ap.strength > kept[at].strength {
                kept.update(at, ap)
            } else {
                kept
            },
            aps.push(ap),
        ),
{
    let next = aps.push(ap);
    let n = aps.len() as int;
    let stronger = ap.strength > kept[at].strength;
    let out = if stronger {
        kept.update(at, ap)
    } else {
        kept
    };
    assert forall|i: int| 0 <= i < kept.len() implies (#[trigger] out[i]).ssid@
        == kept[i].ssid@ by {}
    assert(distinct_ssids(out)) by {
        assert forall|i: int, j: int| 0 <= i < j < out.len() implies (#[trigger] out[i]).ssid@
            != (#[trigger] out[j]).ssid@ by {
            assert(kept[i].ssid@ != kept[j].ssid@);
        }
    }
    assert forall|i: int| 0 <= i < out.len() implies stands_in(#[trigger] out[i], next) by {
        if i == at && stronger {
            assert(stands_in(kept[at], aps));
            let held = choose|k: int| #[trigger] is_strongest(aps, k) && aps[k] == kept[at];
            assert forall|j: int|
                0 <= j < aps.len() && (#[trigger] aps[j]).ssid@
                    == ap.ssid@ implies aps[j].strength < ap.strength by {
                assert(aps[j].strength <= aps[held].strength);
            }
            lemma_newcomer_strongest(aps, ap);
            assert(is_strongest(next, n) && next[n] == out[i]);
        } else {
            assert(out[i] == kept[i]);
            if i < at {
                assert(kept[i].ssid@ != kept[at].ssid@);
            } else if i > at {
                assert(kept[at].ssid@ != kept[i].ssid@);
            }
            lemma_entry_stays(kept[i], aps, ap);
        }
    }
    assert(out[at].ssid@ == ap.ssid@);
    lemma_every_ssid_kept(kept, out, aps, ap);
}

/// An access point whose SSID has no entry yet gets one at the end.
proof fn lemma_absorb_unseen(
    kept: Seq<AccessPointInfo>,
    aps: Seq<AccessPointInfo>,
    ap: AccessPointInfo,
)
    requires
        one_per_ssid(kept, aps),
        ap.ssid@.len() > 0,
        !has_entry(kept, ap.ssid@),
    ensures
        one_per_ssid(kept.push(ap), aps.push(ap)),
{
    let next = aps.push(ap);
    let n = aps.len() as int;
    let out = kept.push(ap);
    assert forall|j: int| 0 <= j < n && (#[trigger] aps[j]).ssid@ == ap.ssid@ implies aps[j].strength
        < ap.strength by {
        assert(has_entry(kept, aps[j].ssid@));
    }
    assert(distinct_ssids(out)) by {
        assert forall|i: int, j: int| 0 <= i < j < out.len() implies (#[trigger] out[i]).ssid@
            != (#[trigger] out[j]).ssid@ by {
            assert(out[i] == kept[i]);
            if j < kept.len() {
                assert(out[j] == kept[j]);
            }
        }
    }
    assert forall|i: int| 0 <= i < out.len() implies stands_in(#[trigger] out[i], next) by {
        if i < kept.len() {
            assert(out[i] == kept[i]);
            lemma_entry_stays(kept[i], aps, ap);
        } else {
            lemma_newcomer_strongest(aps, ap);
            assert(is_strongest(next, n) && next[n] == out[i]);
        }
    }
    assert(out[kept.len() as int].ssid@ == ap.ssid@);
    assert forall|i: int| 0 <= i < kept.len() implies (#[trigger] out[i]).ssid@
        == kept[i].ssid@ by {}
    lemma_every_ssid_kept(kept, out, aps, ap);
}

/// Taking one more access point in keeps the list at one entry per SSID, each
/// the one that stands for it.
pub proof fn lemma_absorb(kept: Seq<AccessPointInfo>, aps: Seq<AccessPointInfo>, ap: AccessPointInfo)
    requires
        one_per_ssid(kept, aps),
    ensures
        one_per_ssid(absorb(kept, ap), aps.push(ap)),
{
    let names = ap_names(kept);
    names.index_of_first_ensures(ap.ssid@);
    if ap.ssid@.len() == 0 {
        lemma_absorb_hidden(kept, aps, ap);
    } else {
        match names.index_of_first(ap.ssid@) {
            Some(at) => {
                assert(kept[at].ssid@ == names[at]);
                lemma_absorb_seen(kept, aps, ap, at);
            },
            None => {
                assert forall|i: int| 0 <= i < kept.len() implies (#[trigger] kept[i]).ssid@
                    != ap.ssid@ by {
                    assert(names[i] == kept[i].ssid@);
                }
                lemma_absorb_unseen(kept, aps, ap);
            },
        }
    }
}

/// The scan reduced to one entry per SSID holds, for each SSID that occurs
/// in the scan, exactly the entry that stands for it: the strongest, and of
/// equally strong ones the first.
pub proof fn lemma_strongest_per_ssid(aps: Seq<AccessPointInfo>)
    ensures
        one_per_ssid(strongest_per_ssid(aps), aps),
    decreases aps.len(),
{
    if aps.len() > 0 {
        lemma_strongest_per_ssid(aps.drop_last());
        lemma_absorb(strongest_per_ssid(aps.drop_last()), aps.drop_last(), aps.last());
        assert(aps.drop_last().push(aps.last()) == aps);
    }
}

/// Reduces a scan to one entry per SSID. Hidden beacons, which have an empty
/// SSID, are dropped. Of several access points with one SSID the strongest
/// stays, and of equally strong ones the first. The entries stand in the
/// order in which their SSIDs first occur in the scan.
pub fn dedup_by_ssid(aps: &Vec<AccessPointInfo>) -> (r: Vec<AccessPointInfo>)
    ensures
        r@ == strongest_per_ssid(aps@),
        one_per_ssid(r@, aps@),
{
    let mut kept: Vec<AccessPointInfo> = Vec::new();
    let mut i: usize = 0;
    while i < aps.len()
        invariant
            i <= aps.len(),
            kept@ == strongest_per_ssid(aps@.take(i as int)),
        decreases aps.len() - i,
    {
        let ap = &aps[i];
        proof {
            let next = aps@.take(i as int + 1);
            assert(next.drop_last() == aps@.take(i as int));
            assert(next.last() == *ap);
        }
        if !ap.ssid.as_str().is_empty() {
            match find_ssid(&kept, &ap.ssid) {
                Some(at) => {
                    if ap.strength > kept[at].strength {
                        kept.set(at, ap.clone());
                    }
                },
                None => {
                    kept.push(ap.clone());
                },
            }
        }
        i += 1;
    }
    proof {
        assert(aps@.take(i as int) == aps@);
        lemma_strongest_per_ssid(aps@);
    }
    kept
}

impl Ranked for AccessPointInfo {
    /// Access points are ordered by signal strength.
    open spec fn rank(&self) -> int {
        self.strength as int
    }

    fn ranks_below(&self, other: &Self) -> (r: bool) {
        self.strength < other.strength
    }
}

/// The visible networks of a scan: one entry per SSID, the strongest signal
/// first, entries of equal strength in the order in which their SSIDs first
/// occur.
pub fn visible_networks(aps: &Vec<AccessPointInfo>) -> (r: Vec<AccessPointInfo>)
    ensures
        r@ == by_rank(strongest_per_ssid(aps@)),
        descending(r@),
        r@.to_multiset() == strongest_per_ssid(aps@).to_multiset(),
        forall|strength: int| #[trigger]
            of_rank(r@, strength) == of_rank(strongest_per_ssid(aps@), strength),
{
    sort_by_rank(dedup_by_ssid(aps))
}

/// The SSIDs of a list of saved profiles, in its order.
pub open spec fn profile_names(saved: Seq<ConnectionInfo>) -> Seq<Seq<char>> {
    saved.map_values(|info: ConnectionInfo| info.ssid@)
}

/// The first saved profile for an SSID, if there is one.
pub open spec fn profile_for(saved: Seq<ConnectionInfo>, ssid: Seq<char>) -> Option<ConnectionInfo> {
    match profile_names(saved).index_of_first(ssid) {
        Some(i) => Some(saved[i]),
        None => None,
    }
}

/// Position of the first saved profile for an SSID.
pub fn find_profile(saved: &Vec<ConnectionInfo>, ssid: &str) -> (r: Option<usize>)
    ensures
        match r {
            Some(i) => i < saved.len() && profile_names(saved@).index_of_first(ssid@) == Some(
                i as int,
            ),
            None => profile_names(saved@).index_of_first(ssid@) is None,
        },
{
    let ghost names = profile_names(saved@);
    let wanted = ssid.to_owned();
    let mut i: usize = 0;
    while i < saved.len()
        invariant
            i <= saved.len(),
            wanted@ == ssid@,
            names == profile_names(saved@),
            forall|j: int| 0 <= j < i ==> names[j] != ssid@,
        decreases saved.len() - i,
    {
        if saved[i].ssid == wanted {
            proof {
                assert(names[i as int] == ssid@);
                names.index_of_first_ensures(ssid@);
            }
            return Some(i);
        }
        i += 1;
    }
    proof {
        names.index_of_first_ensures(ssid@);
    }
    None
}

/// Path of the first saved profile for an SSID.
pub fn connection_for_ssid(saved: &Vec<ConnectionInfo>, ssid: &str) -> (r: Option<String>)
    ensures
        match profile_for(saved@, ssid@) {
            Some(info) => r == Some(info.path),
            None => r is None,
        },
{
    match find_profile(saved, ssid) {
        Some(i) => Some(saved[i].path.clone()),
        None => None,
    }
}

/// A device is connected where its state is `Activated`.
pub fn is_connected_state(state: DeviceState) -> (r: bool)
    ensures
        r == (state == DeviceState::Activated),
{
    state == DeviceState::Activated
}

} // verus!
