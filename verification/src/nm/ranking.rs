//! Ordering a list by an integer rank, highest first, without reordering
//! items of equal rank.

use vstd::prelude::*;

verus! {

/// Items that are ordered by an integer.
pub trait Ranked: Sized {
    /// The integer by which the item is ordered.
    spec fn rank(&self) -> int;

    /// Whether this item's rank is strictly lower than the other's.
    fn ranks_below(&self, other: &Self) -> (r: bool)
        ensures
            r == (self.rank() < other.rank()),
    ;
}

/// Whether ranks never rise along the list.
pub open spec fn descending<T: Ranked>(items: Seq<T>) -> bool {
    forall|i: int, j: int|
        0 <= i < j < items.len() ==> (#[trigger] items[i]).rank() >= (#[trigger] items[j]).rank()
}

/// Puts one more item into a list: behind every item at the list's end that
/// ranks strictly lower, so behind the items of its own rank.
pub open spec fn settle<T: Ranked>(sorted: Seq<T>, item: T) -> Seq<T>
    decreases sorted.len(),
{
    if sorted.len() > 0 && sorted.last().rank() < item.rank() {
        settle(sorted.drop_last(), item).push(sorted.last())
    } else {
        sorted.push(item)
    }
}

/// The list ordered by rank, highest first; items of equal rank keep the
/// order they came in.
pub open spec fn by_rank<T: Ranked>(items: Seq<T>) -> Seq<T> {
    items.fold_left(Seq::<T>::empty(), |sorted: Seq<T>, item: T| settle(sorted, item))
}

/// Whether every item ranks at least `floor`.
pub open spec fn all_at_least<T: Ranked>(items: Seq<T>, floor: int) -> bool {
    forall|i: int| 0 <= i < items.len() ==> (#[trigger] items[i]).rank() >= floor
}

/// The test for items of one rank.
pub open spec fn has_rank<T: Ranked>(rank: int) -> spec_fn(T) -> bool {
    |item: T| item.rank() == rank
}

/// The items of one rank, in their order.
pub open spec fn of_rank<T: Ranked>(items: Seq<T>, rank: int) -> Seq<T> {
    items.filter(has_rank(rank))
}

proof fn lemma_settle_at_least<T: Ranked>(sorted: Seq<T>, item: T, floor: int)
    requires
        all_at_least(sorted, floor),
        item.rank() >= floor,
    ensures
        all_at_least(settle(sorted, item), floor),
    decreases sorted.len(),
{
    if sorted.len() > 0 && sorted.last().rank() < item.rank() {
        assert forall|i: int| 0 <= i < sorted.drop_last().len() implies (
        #[trigger] sorted.drop_last()[i]).rank() >= floor by {
            assert(sorted.drop_last()[i] == sorted[i]);
        }
        lemma_settle_at_least(sorted.drop_last(), item, floor);
    }
}

proof fn lemma_settle_descending<T: Ranked>(sorted: Seq<T>, item: T)
    requires
        descending(sorted),
    ensures
        descending(settle(sorted, item)),
    decreases sorted.len(),
{
    let out = settle(sorted, item);
    if sorted.len() > 0 && sorted.last().rank() < item.rank() {
        let head = sorted.drop_last();
        let floor = sorted.last().rank();
        assert forall|i: int| 0 <= i < head.len() implies (#[trigger] head[i]).rank() >= floor by {
            assert(head[i] == sorted[i]);
        }
        assert(descending(head)) by {
            assert forall|i: int, j: int| 0 <= i < j < head.len() implies (#[trigger] head[i]).rank()
                >= (#[trigger] head[j]).rank() by {
                assert(head[i] == sorted[i] && head[j] == sorted[j]);
            }
        }
        lemma_settle_descending(head, item);
        lemma_settle_at_least(head, item, floor);
        let front = settle(head, item);
        assert forall|i: int, j: int| 0 <= i < j < out.len() implies (#[trigger] out[i]).rank() >= (
        #[trigger] out[j]).rank() by {
            assert(out[i] == front[i]);
            if j < front.len() {
                assert(out[j] == front[j]);
            }
        }
    } else {
        assert forall|i: int, j: int| 0 <= i < j < out.len() implies (#[trigger] out[i]).rank() >= (
        #[trigger] out[j]).rank() by {
            assert(out[i] == sorted[i]);
            if j < sorted.len() {
                assert(out[j] == sorted[j]);
            } else {
                assert(sorted[i].rank() >= sorted.last().rank());
            }
        }
    }
}

proof fn lemma_settle_of_rank<T: Ranked>(sorted: Seq<T>, item: T, rank: int)
    ensures
        of_rank(settle(sorted, item), rank) == if item.rank() == rank {
            of_rank(sorted, rank).push(item)
        } else {
            of_rank(sorted, rank)
        },
    decreases sorted.len(),
{
    let keep = has_rank::<T>(rank);
    if sorted.len() > 0 && sorted.last().rank() < item.rank() {
        let head = sorted.drop_last();
        lemma_settle_of_rank(head, item, rank);
        settle(head, item).lemma_filter_push(sorted.last(), keep);
        head.lemma_filter_push(sorted.last(), keep);
        assert(head.push(sorted.last()) == sorted);
    } else {
        sorted.lemma_filter_push(item, keep);
    }
}

proof fn lemma_settle_multiset<T: Ranked>(sorted: Seq<T>, item: T)
    ensures
        settle(sorted, item).to_multiset() == sorted.to_multiset().insert(item),
    decreases sorted.len(),
{
    broadcast use vstd::seq_lib::to_multiset_build;

    if sorted.len() > 0 && sorted.last().rank() < item.rank() {
        let head = sorted.drop_last();
        lemma_settle_multiset(head, item);
        assert(head.push(sorted.last()) == sorted);
        assert(settle(sorted, item).to_multiset() =~= sorted.to_multiset().insert(item));
    }
}

/// In the ordered list, ranks never rise.
pub proof fn lemma_by_rank_descending<T: Ranked>(items: Seq<T>)
    ensures
        descending(by_rank(items)),
    decreases items.len(),
{
    if items.len() > 0 {
        lemma_by_rank_descending(items.drop_last());
        lemma_settle_descending(by_rank(items.drop_last()), items.last());
    }
}

/// Ordering is stable: the items of any one rank stand in the ordered list
/// as they stood in the list given.
pub proof fn lemma_by_rank_stable<T: Ranked>(items: Seq<T>, rank: int)
    ensures
        of_rank(by_rank(items), rank) == of_rank(items, rank),
    decreases items.len(),
{
    let keep = has_rank::<T>(rank);
    if items.len() > 0 {
        lemma_by_rank_stable(items.drop_last(), rank);
        lemma_settle_of_rank(by_rank(items.drop_last()), items.last(), rank);
        items.drop_last().lemma_filter_push(items.last(), keep);
        assert(items.drop_last().push(items.last()) == items);
    } else {
        assert(by_rank(items) == items);
    }
}

/// Ordering neither drops nor adds an item.
pub proof fn lemma_by_rank_permutes<T: Ranked>(items: Seq<T>)
    ensures
        by_rank(items).to_multiset() == items.to_multiset(),
    decreases items.len(),
{
    broadcast use vstd::seq_lib::to_multiset_build;

    if items.len() > 0 {
        lemma_by_rank_permutes(items.drop_last());
        lemma_settle_multiset(by_rank(items.drop_last()), items.last());
        assert(items.drop_last().push(items.last()) == items);
        assert(by_rank(items).to_multiset() =~= items.to_multiset());
    } else {
        assert(by_rank(items) == items);
    }
}

/// Orders a list by rank, highest first, keeping the order of items of equal
/// rank.
pub fn sort_by_rank<T: Ranked>(items: Vec<T>) -> (r: Vec<T>)
    ensures
        r@ == by_rank(items@),
        descending(r@),
        r@.to_multiset() == items@.to_multiset(),
        forall|rank: int| #[trigger] of_rank(r@, rank) == of_rank(items@, rank),
{
    proof {
        lemma_by_rank_descending(items@);
        lemma_by_rank_permutes(items@);
        assert forall|rank: int| #[trigger]
            of_rank(by_rank(items@), rank) == of_rank(items@, rank) by {
            lemma_by_rank_stable(items@, rank);
        }
    }
    let mut sorted: Vec<T> = Vec::new();
    for item in it: items
        invariant
            sorted@ == by_rank(items@.take(it.index() as int)),
    {
        proof {
            let next = items@.take(it.index() + 1);
            assert(next.drop_last() == items@.take(it.index() as int));
            assert(next.last() == item);
        }
        let mut at: usize = sorted.len();
        proof {
            assert(sorted@.take(at as int) == sorted@);
            assert(settle(sorted@, item) + sorted@.skip(at as int) == settle(sorted@, item));
        }
        while at > 0 && sorted[at - 1].ranks_below(&item)
            invariant
                at <= sorted.len(),
                settle(sorted@, item) == settle(sorted@.take(at as int), item) + sorted@.skip(
                    at as int,
                ),
            decreases at,
        {
            proof {
                let head = sorted@.take(at as int);
                assert(head.drop_last() == sorted@.take(at - 1));
                assert(settle(head.drop_last(), item).push(head.last()) + sorted@.skip(at as int)
                    == settle(head.drop_last(), item) + sorted@.skip(at - 1));
            }
            at -= 1;
        }
        proof {
            assert(sorted@.take(at as int).push(item) + sorted@.skip(at as int)
                == sorted@.insert(at as int, item));
        }
        sorted.insert(at, item);
    }
    sorted
}

} // verus!
