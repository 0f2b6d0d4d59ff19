//! Taking closed windows out of the lists that run in parallel with the windows.
use vstd::prelude::*;

verus! {

/// Whether a position is among the closed ones.
pub open spec fn is_closed(closed: Seq<usize>, k: int) -> bool {
    exists|j: int| 0 <= j < closed.len() && #[trigger] closed[j] == k
}

/// The positions in a list of this length that are not closed, from the first to the last.
pub open spec fn open_positions(len: nat, closed: Seq<usize>) -> Seq<int> {
    Seq::new(len, |k: int| k).filter(|k: int| !is_closed(closed, k))
}

/// The elements of a list whose positions are not closed, in order.
pub open spec fn kept<V>(list: Seq<V>, closed: Seq<usize>) -> Seq<V> {
    open_positions(list.len(), closed).map_values(|k: int| list[k])
}

/// Whether a list of positions goes up.
pub open spec fn increasing(list: Seq<int>) -> bool {
    forall|i: int, j: int| 0 <= i < j < list.len() ==> list[i] < list[j]
}

proof fn lemma_open_positions_of_next(len: nat, closed: Seq<usize>)
    ensures
        open_positions(len + 1, closed) == if is_closed(closed, len as int) {
            open_positions(len, closed)
        } else {
            open_positions(len, closed).push(len as int)
        },
{
    reveal(Seq::filter);
    assert(Seq::new(len + 1, |k: int| k).drop_last() =~= Seq::new(len, |k: int| k));
}

/// The open positions go up, and they are exactly the positions in the list that are not closed.
pub proof fn law_open_positions(len: nat, closed: Seq<usize>)
    ensures
        increasing(open_positions(len, closed)),
        forall|i: int|
            0 <= i < open_positions(len, closed).len() ==> 0 <= #[trigger] open_positions(
                len,
                closed,
            )[i] < len,
        forall|k: int| #[trigger]
            open_positions(len, closed).contains(k) <==> 0 <= k < len && !is_closed(closed, k),
    decreases len,
{
    if len == 0 {
        reveal(Seq::filter);
        assert(Seq::new(0, |k: int| k) =~= Seq::<int>::empty());
    } else {
        let n = (len - 1) as nat;
        let before = open_positions(n, closed);
        let after = open_positions(len, closed);
        law_open_positions(n, closed);
        lemma_open_positions_of_next(n, closed);
        assert forall|k: int| #[trigger] after.contains(k) <==> 0 <= k < len && !is_closed(
            closed,
            k,
        ) by {
            if before.contains(k) {
                let i = choose|i: int| 0 <= i < before.len() && before[i] == k;
                assert(after[i] == k);
            }
            if after.contains(k) {
                let i = choose|i: int| 0 <= i < after.len() && after[i] == k;
                assert(i < before.len() ==> before[i] == k);
            }
            if k == n && !is_closed(closed, k) {
                assert(after[before.len() as int] == k);
            }
        }
    }
}

/// Where no position in a list is closed, all of it stays; where every one is, nothing does.
pub proof fn law_all_or_nothing<V>(list: Seq<V>, closed: Seq<usize>)
    ensures
        (forall|k: int| 0 <= k < list.len() ==> !is_closed(closed, k)) ==> kept(list, closed)
            == list,
        (forall|k: int| 0 <= k < list.len() ==> is_closed(closed, k)) ==> kept(list, closed).len()
            == 0,
    decreases list.len(),
{
    if list.len() == 0 {
        reveal(Seq::filter);
        assert(kept(list, closed) =~= list);
    } else {
        let front = list.drop_last();
        law_all_or_nothing(front, closed);
        lemma_kept_of_next(list, closed, front.len() as int);
        assert(list.take(list.len() as int) =~= list);
        assert(list.take(front.len() as int) =~= front);
        assert(front.push(list.last()) =~= list);
    }
}

/// Closing positions and changing each element can be done in either order.
pub proof fn lemma_closing_commutes_with_map<V, W>(
    list: Seq<V>,
    closed: Seq<usize>,
    f: spec_fn(V) -> W,
)
    ensures
        kept(list.map_values(f), closed) == kept(list, closed).map_values(f),
{
    law_open_positions(list.len(), closed);
    assert(kept(list.map_values(f), closed) =~= kept(list, closed).map_values(f));
}

proof fn lemma_kept_of_next<V>(list: Seq<V>, closed: Seq<usize>, i: int)
    requires
        0 <= i < list.len(),
    ensures
        kept(list.take(i + 1), closed) == if is_closed(closed, i) {
            kept(list.take(i), closed)
        } else {
            kept(list.take(i), closed).push(list[i])
        },
{
    law_open_positions(i as nat, closed);
    lemma_open_positions_of_next(i as nat, closed);
    assert(kept(list.take(i + 1), closed) =~= if is_closed(closed, i) {
        kept(list.take(i), closed)
    } else {
        kept(list.take(i), closed).push(list[i])
    });
}

/// Checks whether a position is among the closed ones.
pub fn has_closed(closed: &Vec<usize>, k: usize) -> (found: bool)
    ensures
        found == is_closed(closed@, k as int),
{
    let mut j: usize = 0;
    while j < closed.len()
        invariant
            j <= closed@.len(),
            forall|a: int| 0 <= a < j ==> #[trigger] closed@[a] != k,
        decreases closed@.len() - j,
    {
        if closed[j] == k {
            return true;
        }
        j = j + 1;
    }
    false
}

/// Takes the elements at the closed positions out of a list, and no others.
pub fn remove_closed<V>(list: &mut Vec<V>, closed: &Vec<usize>)
    ensures
        final(list)@ == kept(old(list)@, closed@),
{
    let ghost all = list@;
    let mut i: usize = list.len();
    assert(all.take(i as int) =~= all);
    assert(kept(all, closed@) =~= kept(all.take(i as int), closed@) + list@.skip(i as int));
    while i > 0
        invariant
            all == old(list)@,
            i <= list@.len(),
            i <= all.len(),
            list@.take(i as int) == all.take(i as int),
            kept(all, closed@) == kept(all.take(i as int), closed@) + list@.skip(i as int),
        decreases i,
    {
        i = i - 1;
        let ghost before = list@;
        assert(before[i as int] == before.take(i + 1)[i as int]);
        assert(all[i as int] == all.take(i + 1)[i as int]);
        proof {
            lemma_kept_of_next(all, closed@, i as int);
        }
        assert(before.take(i as int) =~= before.take(i + 1).take(i as int));
        assert(all.take(i as int) =~= all.take(i + 1).take(i as int));
        if has_closed(closed, i) {
            let _ = list.remove(i);
            assert(list@.skip(i as int) =~= before.skip(i + 1));
            assert(list@.take(i as int) =~= before.take(i as int));
        } else {
            assert(kept(all.take(i as int), closed@) + before.skip(i as int) =~= kept(
                all.take(i as int),
                closed@,
            ).push(all[i as int]) + before.skip(i + 1));
        }
    }
    assert(kept(all.take(0), closed@) =~= Seq::<V>::empty()) by {
        law_open_positions(0, closed@);
    }
    assert(list@ =~= kept(all, closed@));
}

/// Exactly the closed positions go: there is a list of the positions that stay, from the first to
/// the last, in which a position of the list is found exactly if it is not among the closed ones,
/// and what is kept is what stood at these positions. How often and in which order the closed
/// positions are given does not matter.
pub proof fn law_exactly_the_closed_positions_go<V>(list: Seq<V>, closed: Seq<usize>) -> (stay: Seq<
    int,
>)
    ensures
        forall|a: int, b: int| 0 <= a < b < stay.len() ==> stay[a] < stay[b],
        forall|k: int| #[trigger]
            stay.contains(k) <==> 0 <= k < list.len() && !(exists|j: int|
                0 <= j < closed.len() && #[trigger] closed[j] == k),
        kept(list, closed).len() == stay.len(),
        forall|a: int|
            0 <= a < stay.len() ==> 0 <= stay[a] < list.len() && #[trigger] kept(list, closed)[a]
                == list[stay[a]],
{
    law_open_positions(list.len(), closed);
    open_positions(list.len(), closed)
}

/// Whether an element is kept depends on its own position alone.
pub proof fn law_each_position_counts_for_itself<V>(list: Seq<V>, last: V, closed: Seq<usize>)
    ensures
        kept(Seq::<V>::empty(), closed) == Seq::<V>::empty(),
        (exists|j: int| 0 <= j < closed.len() && #[trigger] closed[j] == list.len()) ==> kept(
            list.push(last),
            closed,
        ) == kept(list, closed),
        !(exists|j: int| 0 <= j < closed.len() && #[trigger] closed[j] == list.len()) ==> kept(
            list.push(last),
            closed,
        ) == kept(list, closed).push(last),
{
    law_all_or_nothing(Seq::<V>::empty(), closed);
    let longer = list.push(last);
    lemma_kept_of_next(longer, closed, list.len() as int);
    assert(longer.take(list.len() as int) =~= list);
    assert(longer.take(longer.len() as int) =~= longer);
}

} // verus!
