//! A mathematical model of the shared ready flag.
//!
//! The flag of one gate is a single boolean. Each operation that touches it
//! (`Setter::set_ready`, `Notifier::notify`, `Waiter::reset`) performs one
//! transition described by [`flag_after_op`]; [`flag_after`] folds a whole
//! history of operations. The proof functions below state the laws the flag
//! obeys over any such history.

use vstd::prelude::*;

verus! {

/// One operation on the shared ready flag of a gate.
#[derive(Clone, Copy, Debug, PartialEq, Eq, Structural)]
pub enum GateOp {
    /// `Setter::set_ready`: raise the flag, wake nobody.
    SetReady,
    /// `Notifier::notify`: raise the flag, wake one parked thread.
    Notify,
    /// `Waiter::reset`: clear the flag, starting a new epoch.
    Reset,
}

/// Whether an operation raises the flag.
pub open spec fn raises(op: GateOp) -> bool {
    match op {
        GateOp::SetReady => true,
        GateOp::Notify => true,
        GateOp::Reset => false,
    }
}

/// The flag value after one operation, given the flag value `flag` before it.
/// The new value depends on the operation alone: raising operations store
/// `true` however often they are repeated, and `Reset` stores `false`.
pub open spec fn flag_after_op(flag: bool, op: GateOp) -> bool {
    raises(op)
}

/// The flag value after a history `ops` of operations, starting from `init`.
/// A fresh gate starts at `init == false`.
pub open spec fn flag_after(init: bool, ops: Seq<GateOp>) -> bool
    decreases ops.len(),
{
    if ops.len() == 0 {
        init
    } else {
        flag_after_op(flag_after(init, ops.drop_last()), ops.last())
    }
}

/// Within one epoch (a history without `Reset`), a fresh gate's flag is
/// `false` before any raising operation has occurred and `true` as soon as at
/// least one has: the flag is monotonic within an epoch.
pub proof fn lemma_flag_monotonic_in_epoch(ops: Seq<GateOp>)
    requires
        forall|i: int| 0 <= i < ops.len() ==> !(ops[i] is Reset),
    ensures
        flag_after(false, ops) <==> exists|i: int| 0 <= i < ops.len() && raises(ops[i]),
{
    if ops.len() > 0 {
        assert(raises(ops[ops.len() - 1]));
    }
}

/// Within one epoch, a raised flag stays raised: no operation but `Reset`
/// takes the flag from `true` back to `false`.
pub proof fn lemma_no_reset_keeps_flag(ops: Seq<GateOp>)
    requires
        forall|i: int| 0 <= i < ops.len() ==> !(ops[i] is Reset),
    ensures
        flag_after(true, ops),
{
    if ops.len() > 0 {
        assert(raises(ops[ops.len() - 1]));
    }
}

/// A `reset` ends the epoch: whatever the history before it, the flag is
/// `false` right after, until the next raising operation.
pub proof fn lemma_reset_clears(init: bool, ops: Seq<GateOp>)
    ensures
        !flag_after(init, ops.push(GateOp::Reset)),
{
    assert(ops.push(GateOp::Reset).drop_last() =~= ops);
}

/// `notify` is idempotent on the flag: one call leaves it `true`, and a
/// second call in succession changes nothing.
pub proof fn lemma_notify_idempotent(init: bool, ops: Seq<GateOp>)
    ensures
        flag_after(init, ops.push(GateOp::Notify)),
        flag_after(init, ops.push(GateOp::Notify).push(GateOp::Notify)) == flag_after(
            init,
            ops.push(GateOp::Notify),
        ),
{
}

/// The flag reflects the most recent completed operation: after a non-empty
/// history it is `true` exactly when the last operation raised it.
pub proof fn lemma_flag_reflects_last_op(init: bool, ops: Seq<GateOp>)
    requires
        ops.len() > 0,
    ensures
        flag_after(init, ops) == raises(ops.last()),
{
}

} // verus!
