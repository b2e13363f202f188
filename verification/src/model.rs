use vstd::prelude::*;
use vstd::multiset::Multiset;
use vstd::seq_lib::lemma_multiset_commutative;

verus! {

// The kernel delivers pending messages strictly by descending priority and
// first-in-first-out among equal priorities.  This module states that
// selection rule over a sequence of pending messages — each a priority paired
// with its payload, listed in the order their sends completed — and proves
// the ordering laws the transport relies on.

/// The position of the pending message that is delivered next: the earliest
/// message among those of maximal priority.
pub open spec fn next_delivery(q: Seq<(u32, Seq<u8>)>) -> int
    recommends
        q.len() > 0,
    decreases q.len(),
{
    if q.len() <= 1 {
        0
    } else {
        let rest = 1 + next_delivery(q.drop_first());
        if 0 <= rest < q.len() && q[rest].0 > q[0].0 {
            rest
        } else {
            0
        }
    }
}

/// The order in which the pending messages are delivered, if no further send
/// interleaves: repeatedly the earliest message of maximal priority.
pub open spec fn delivery_order(q: Seq<(u32, Seq<u8>)>) -> Seq<(u32, Seq<u8>)>
    decreases q.len(),
{
    if q.len() == 0 {
        Seq::empty()
    } else {
        let i = next_delivery(q);
        if 0 <= i < q.len() {
            seq![q[i]] + delivery_order(q.remove(i))
        } else {
            Seq::empty()
        }
    }
}

/// The message delivered next has maximal priority among all pending
/// messages, and every earlier-sent message still pending has strictly
/// lower priority — so delivery is by descending priority, first-in
/// first-out among equals.
pub proof fn lemma_next_delivery_is_first_max(q: Seq<(u32, Seq<u8>)>)
    requires
        q.len() > 0,
    ensures
        0 <= next_delivery(q) < q.len(),
        forall|j: int| 0 <= j < q.len() ==> (#[trigger] q[j]).0 <= q[next_delivery(q)].0,
        forall|j: int| 0 <= j < next_delivery(q) ==> (#[trigger] q[j]).0 < q[next_delivery(q)].0,
    decreases q.len(),
{
    if q.len() > 1 {
        let tail = q.drop_first();
        lemma_next_delivery_is_first_max(tail);
        let r = next_delivery(tail);
        assert(forall|j: int| 1 <= j < q.len() ==> q[j] == tail[j - 1]);
        let i = next_delivery(q);
        if 1 + r < q.len() && q[1 + r].0 > q[0].0 {
            assert(i == 1 + r);
            assert forall|j: int| 0 <= j < q.len() implies (#[trigger] q[j]).0 <= q[i].0 by {
                if j >= 1 {
                    assert(tail[j - 1].0 <= tail[r].0);
                }
            }
            assert forall|j: int| 0 <= j < i implies (#[trigger] q[j]).0 < q[i].0 by {
                if j >= 1 {
                    assert(tail[j - 1].0 < tail[r].0);
                }
            }
        } else {
            assert(i == 0);
            assert forall|j: int| 0 <= j < q.len() implies (#[trigger] q[j]).0 <= q[0].0 by {
                if j >= 1 {
                    assert(tail[j - 1].0 <= tail[r].0);
                    assert(q[1 + r].0 <= q[0].0);
                }
            }
        }
    }
}

/// Every pending message is delivered exactly once: what comes out of the
/// queue is a permutation of what went in — nothing lost, nothing
/// duplicated.
pub proof fn lemma_delivery_is_permutation(q: Seq<(u32, Seq<u8>)>)
    ensures
        delivery_order(q).to_multiset() == q.to_multiset(),
        delivery_order(q).len() == q.len(),
    decreases q.len(),
{
    broadcast use vstd::seq_lib::group_to_multiset_ensures;

    if q.len() == 0 {
        assert(delivery_order(q) =~= q);
    } else {
        lemma_next_delivery_is_first_max(q);
        let i = next_delivery(q);
        let rest = q.remove(i);
        lemma_delivery_is_permutation(rest);
        assert(delivery_order(q) == seq![q[i]] + delivery_order(rest));
        lemma_multiset_commutative(seq![q[i]], delivery_order(rest));
        assert(seq![q[i]] =~= Seq::<(u32, Seq<u8>)>::empty().push(q[i]));
        assert(seq![q[i]].to_multiset() =~= Multiset::<(u32, Seq<u8>)>::empty().insert(q[i]));
        assert(rest.to_multiset() =~= q.to_multiset().remove(q[i]));
        assert(q.contains(q[i]));
        assert(q.to_multiset().count(q[i]) > 0);
        assert(delivery_order(q).to_multiset() =~= q.to_multiset());
    }
}

/// Priority ordering: when two messages with priorities `p1 > p2` are
/// pending, the `p1` message is delivered before the `p2` message,
/// whichever of the two was sent first.
pub proof fn lemma_priority_ordering(p1: u32, a: Seq<u8>, p2: u32, b: Seq<u8>)
    requires
        p1 > p2,
    ensures
        delivery_order(seq![(p1, a), (p2, b)]) == seq![(p1, a), (p2, b)],
        delivery_order(seq![(p2, b), (p1, a)]) == seq![(p1, a), (p2, b)],
{
    lemma_two_messages(p1, a, p2, b);
    lemma_two_messages(p2, b, p1, a);
}

/// FIFO tie break: when two messages of equal priority are pending, the one
/// sent first is delivered first.
pub proof fn lemma_fifo_tie_break(p: u32, a: Seq<u8>, b: Seq<u8>)
    ensures
        delivery_order(seq![(p, a), (p, b)]) == seq![(p, a), (p, b)],
{
    lemma_two_messages(p, a, p, b);
}

/// Delivery order of exactly two pending messages: the second-sent message
/// overtakes the first exactly when its priority is strictly higher.
pub proof fn lemma_two_messages(p1: u32, a: Seq<u8>, p2: u32, b: Seq<u8>)
    ensures
        p2 > p1 ==> delivery_order(seq![(p1, a), (p2, b)]) == seq![(p2, b), (p1, a)],
        p2 <= p1 ==> delivery_order(seq![(p1, a), (p2, b)]) == seq![(p1, a), (p2, b)],
{
    let q = seq![(p1, a), (p2, b)];
    let first = seq![(p1, a)];
    let second = seq![(p2, b)];
    assert(q.drop_first() =~= second);
    assert(next_delivery(second) == 0);
    assert(delivery_order(Seq::<(u32, Seq<u8>)>::empty()) =~= Seq::<(u32, Seq<u8>)>::empty());
    assert(second.remove(0) =~= Seq::<(u32, Seq<u8>)>::empty());
    assert(delivery_order(second) =~= second);
    assert(first.remove(0) =~= Seq::<(u32, Seq<u8>)>::empty());
    assert(delivery_order(first) =~= first);
    if p2 > p1 {
        assert(next_delivery(q) == 1);
        assert(q.remove(1) =~= first);
        assert(delivery_order(q) =~= seq![(p2, b)] + first);
        assert(delivery_order(q) =~= seq![(p2, b), (p1, a)]);
    } else {
        assert(next_delivery(q) == 0);
        assert(q.remove(0) =~= second);
        assert(delivery_order(q) =~= seq![(p1, a)] + second);
        assert(delivery_order(q) =~= q);
    }
}

} // verus!
