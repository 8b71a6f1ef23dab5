//! Laws of the counter protocol itself, shared by both handle families.
//!
//! A history of one control block's strong counter is a sequence of steps,
//! each either a raise (a construct, a duplication, or a successful
//! promotion of a weak handle — the operations whose contracts raise the
//! count by one) or a disposal (which lowers it by one). The contracts of
//! both handle families admit a disposal only while the count is positive,
//! which is what [`admissible`] captures.

use vstd::prelude::*;

verus! {

/// One step of a strong-counter history: `Raise` for a construct, a
/// duplication or a successful promotion, `Dispose` for a disposal.
pub enum Step {
    Raise,
    Dispose,
}

/// How many steps of the history raise the count.
pub open spec fn raises(ops: Seq<Step>) -> nat
    decreases ops.len(),
{
    if ops.len() == 0 {
        0
    } else {
        raises(ops.drop_last()) + if ops.last() is Raise {
            1nat
        } else {
            0nat
        }
    }
}

/// How many steps of the history dispose of a handle.
pub open spec fn disposals(ops: Seq<Step>) -> nat
    decreases ops.len(),
{
    if ops.len() == 0 {
        0
    } else {
        disposals(ops.drop_last()) + if ops.last() is Dispose {
            1nat
        } else {
            0nat
        }
    }
}

/// The strong count after running the history from `init`.
pub open spec fn count_after(init: nat, ops: Seq<Step>) -> int
    decreases ops.len(),
{
    if ops.len() == 0 {
        init as int
    } else {
        count_after(init, ops.drop_last()) + if ops.last() is Raise {
            1int
        } else {
            -1int
        }
    }
}

/// A history the handle protocol can produce: every disposal consumes an
/// outstanding handle, so it happens only while the count is positive.
pub open spec fn admissible(init: nat, ops: Seq<Step>) -> bool
    decreases ops.len(),
{
    if ops.len() == 0 {
        true
    } else {
        admissible(init, ops.drop_last()) && (ops.last() is Raise || count_after(
            init,
            ops.drop_last(),
        ) >= 1)
    }
}

/// Law (counter arithmetic): over any admissible history of strong-handle
/// operations, the strong count equals the initial count plus the number of
/// constructs and duplicates, minus the number of disposals — at every
/// observation point, since every prefix of an admissible history is itself
/// admissible — and it never goes negative.
pub proof fn lemma_count_is_balance(init: nat, ops: Seq<Step>)
    requires
        admissible(init, ops),
    ensures
        count_after(init, ops) == init + raises(ops) - disposals(ops),
        count_after(init, ops) >= 0,
    decreases ops.len(),
{
    if ops.len() > 0 {
        lemma_count_is_balance(init, ops.drop_last());
    }
}

/// Every prefix of an admissible history is itself admissible, so the
/// balance law holds at every observation point along the way, and the
/// count is nonnegative there too.
pub proof fn lemma_every_prefix_admissible(init: nat, ops: Seq<Step>, k: int)
    requires
        admissible(init, ops),
        0 <= k <= ops.len(),
    ensures
        admissible(init, ops.take(k)),
        count_after(init, ops.take(k)) >= 0,
    decreases ops.len(),
{
    if k == ops.len() {
        assert(ops.take(k) =~= ops);
    } else {
        assert(ops.drop_last().take(k) =~= ops.take(k));
        lemma_every_prefix_admissible(init, ops.drop_last(), k);
    }
    lemma_count_is_balance(init, ops.take(k));
}

/// Law (balanced histories restore the count): when as many handles are
/// disposed of as were created — for instance a crowd of threads, each
/// duplicating and then disposing of a strong handle any number of times,
/// in whatever interleaved order — the strong count ends where it began.
pub proof fn lemma_balanced_history_restores_count(init: nat, ops: Seq<Step>)
    requires
        admissible(init, ops),
        raises(ops) == disposals(ops),
    ensures
        count_after(init, ops) == init,
{
    lemma_count_is_balance(init, ops);
}

} // verus!
