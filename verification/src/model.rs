use vstd::prelude::*;

verus! {

/// The element one pull yields from a producer whose pending elements are
/// `up`: the front of `up`, or `None` once nothing is pending.
pub open spec fn pull_result<T>(up: Seq<T>) -> Option<T> {
    if up.len() == 0 {
        None
    } else {
        Some(up[0])
    }
}

/// The elements still pending after one pull from a producer whose pending
/// elements are `up`: an exhausted producer stays exhausted, otherwise the
/// front element is gone.
pub open spec fn pull_rest<T>(up: Seq<T>) -> Seq<T> {
    if up.len() == 0 {
        up
    } else {
        up.drop_first()
    }
}

/// An observation record `log` after one pull that yielded `r`: the yielded
/// element is appended, and an exhaustion signal records nothing.
pub open spec fn observed_after<T>(log: Seq<T>, r: Option<T>) -> Seq<T> {
    match r {
        Some(t) => log.push(t),
        None => log,
    }
}

/// The elements still pending after `k` pulls from a producer whose pending
/// elements started as `up`.
pub open spec fn remaining_after<T>(up: Seq<T>, k: nat) -> Seq<T>
    decreases k,
{
    if k == 0 {
        up
    } else {
        pull_rest(remaining_after(up, (k - 1) as nat))
    }
}

/// The elements the first `k` pulls yield, in order, from a producer whose
/// pending elements started as `up`.
pub open spec fn yielded_by<T>(up: Seq<T>, k: nat) -> Seq<T>
    decreases k,
{
    if k == 0 {
        Seq::empty()
    } else {
        observed_after(
            yielded_by(up, (k - 1) as nat),
            pull_result(remaining_after(up, (k - 1) as nat)),
        )
    }
}

/// Invocation count and early termination: stopping after `k` pulls, the
/// consumer has received exactly the first `k` elements, in order, and
/// exactly the elements beyond the first `k` are still pending; since an
/// observer sees exactly the yielded elements, it has been invoked exactly
/// `k` times.
pub proof fn lemma_invocation_count<T>(up: Seq<T>, k: nat)
    requires
        k <= up.len(),
    ensures
        yielded_by(up, k) == up.take(k as int),
        yielded_by(up, k).len() == k,
        remaining_after(up, k) == up.skip(k as int),
    decreases k,
{
    if k == 0 {
        assert(yielded_by(up, 0) =~= up.take(0));
        assert(remaining_after(up, 0) =~= up.skip(0));
    } else {
        lemma_invocation_count(up, (k - 1) as nat);
        assert(yielded_by(up, k) =~= up.take(k as int));
        assert(remaining_after(up, k) =~= up.skip(k as int));
    }
}

/// Order preservation and value identity: pulling a producer to exhaustion
/// yields every element it held, unchanged and in their original order.
pub proof fn lemma_order_preservation<T>(up: Seq<T>)
    ensures
        yielded_by(up, up.len()) == up,
        remaining_after(up, up.len()).len() == 0,
{
    lemma_invocation_count(up, up.len());
    assert(up.take(up.len() as int) =~= up);
}

/// Exhaustion stability: once a pull reports that nothing is pending, every
/// later pull still finds nothing pending and reports the same.
pub proof fn lemma_exhaustion_stability<T>(up: Seq<T>, k: nat)
    requires
        pull_result(up) is None,
    ensures
        remaining_after(up, k) == up,
        pull_result(remaining_after(up, k)) is None,
    decreases k,
{
    if k > 0 {
        lemma_exhaustion_stability(up, (k - 1) as nat);
    }
}

} // verus!
