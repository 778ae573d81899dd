use vstd::prelude::*;

use crate::refcounted::{after_add_ref, after_release, slot, with_count, Composite};

verus! {

/// The heap after a sequence of counting calls on the composite at `p`, in
/// order: `true` stands for `add_ref`, `false` for `release`.
pub open spec fn after_calls<C, P>(s: Seq<Composite<C, P>>, p: usize, calls: Seq<bool>) -> Seq<
    Composite<C, P>,
>
    decreases calls.len(),
{
    if calls.len() == 0 {
        s
    } else {
        let t = after_calls(s, p, calls.drop_last());
        if calls.last() {
            after_add_ref(t, p)
        } else {
            after_release(t, p)
        }
    }
}

/// Adds minus releases in a sequence of counting calls.
pub open spec fn net(calls: Seq<bool>) -> int
    decreases calls.len(),
{
    if calls.len() == 0 {
        0
    } else {
        net(calls.drop_last()) + if calls.last() {
            1int
        } else {
            -1int
        }
    }
}

/// Every call of the sequence meets a composite that still has an owner.
pub open spec fn calls_on_live(count: nat, calls: Seq<bool>) -> bool {
    forall|k: int| 0 <= k < calls.len() ==> count + #[trigger] net(calls.take(k)) >= 1
}

/// Counting calls on one composite, each made while an owner remains, leave it
/// with its count moved by their net change, the payload kept while an owner
/// remains and gone once none does, and every other composite as it was.
pub proof fn lemma_calls_move_count<C, P>(s: Seq<Composite<C, P>>, p: usize, calls: Seq<bool>)
    requires
        1 <= p <= s.len(),
        s[slot(p)].count > 0,
        s[slot(p)].payload is Some,
        s[slot(p)].record is Some,
        calls_on_live(s[slot(p)].count, calls),
    ensures
        s[slot(p)].count + net(calls) >= 0,
        after_calls(s, p, calls) == s.update(
            slot(p),
            with_count(s[slot(p)], (s[slot(p)].count + net(calls)) as nat),
        ),
    decreases calls.len(),
{
    let c = s[slot(p)];
    if calls.len() == 0 {
        assert(s.update(slot(p), with_count(c, c.count)) =~= s);
    } else {
        let front = calls.drop_last();
        assert forall|k: int| 0 <= k < front.len() implies c.count + #[trigger] net(front.take(k))
            >= 1 by {
            assert(front.take(k) =~= calls.take(k));
        }
        lemma_calls_move_count(s, p, front);
        assert(calls.take(front.len() as int) =~= front);
        let n = (c.count + net(front)) as nat;
        let t = s.update(slot(p), with_count(c, n));
        assert(n >= 1);
        if calls.last() {
            assert(after_add_ref(t, p) =~= s.update(slot(p), with_count(c, n + 1)));
        } else {
            assert(after_release(t, p) =~= s.update(slot(p), with_count(c, (n - 1) as nat)));
        }
    }
}

/// As many `add_ref` as `release` calls on one composite, in any order and each
/// made while an owner remains, leave the whole heap as it was: the same
/// count, and the payload never torn down.
pub proof fn lemma_balanced_calls_restore<C, P>(
    s: Seq<Composite<C, P>>,
    p: usize,
    calls: Seq<bool>,
)
    requires
        1 <= p <= s.len(),
        s[slot(p)].count > 0,
        s[slot(p)].payload is Some,
        s[slot(p)].record is Some,
        calls_on_live(s[slot(p)].count, calls),
        net(calls) == 0,
    ensures
        after_calls(s, p, calls) == s,
{
    lemma_calls_move_count(s, p, calls);
    assert(s.update(slot(p), with_count(s[slot(p)], s[slot(p)].count)) =~= s);
}

/// `release` on a composite that has an owner frees its record and tears its
/// payload down exactly when it takes the last owner, and touches no other composite.
pub proof fn lemma_release_tears_down_last<C, P>(s: Seq<Composite<C, P>>, p: usize)
    requires
        1 <= p <= s.len(),
        s[slot(p)].count > 0,
        s[slot(p)].payload is Some,
        s[slot(p)].record is Some,
    ensures
        after_release(s, p)[slot(p)].count == s[slot(p)].count - 1,
        after_release(s, p)[slot(p)].record is None <==> s[slot(p)].count == 1,
        after_release(s, p)[slot(p)].payload is None <==> s[slot(p)].count == 1,
        after_release(s, p)[slot(p)].payload is Some ==> after_release(s, p)[slot(p)].payload
            == s[slot(p)].payload,
        forall|i: int| 0 <= i < s.len() && i != slot(p) ==> after_release(s, p)[i] == s[i],
{
}

/// Wrapping a payload, turning the handle into its bare address and taking
/// that address over again reaches the composite that holds the very payload
/// wrapped.
pub proof fn lemma_wrap_round_trip<C, P>(
    before: Seq<Composite<C, P>>,
    after: Seq<Composite<C, P>>,
    object: P,
    p: usize,
)
    requires
        after.len() == before.len() + 1,
        after.drop_last() == before,
        after.last().payload == Some(object),
        p == after.len(),
    ensures
        1 <= p <= after.len(),
        after[slot(p)].payload == Some(object),
        after[slot(p)].count == after.last().count,
{
}

} // verus!
