//! Trusted declarations for the outside synchronization primitives.
//!
//! A gate parks and wakes threads through parking_lot's condition
//! variable and mutex (parking_lot's `Mutex` is an alias of lock_api's),
//! and paces its busy-wait phase with crossbeam's adaptive `Backoff`. The
//! values of all of these are opaque here: each wrapper promises only what
//! the crates' own documentation promises of a call, which for these
//! blocking and pacing primitives is nothing about a returned value. The
//! fused lock-and-park call, which must pair a gate's condition variable
//! with that same gate's mutex, is a method on `Waiter` itself:
//! `Waiter::park_until_ready`.

use vstd::prelude::*;

verus! {

/// Declares lock_api's `Mutex`, the struct behind parking_lot's `Mutex`
/// alias, so a `Waiter` can hold its parking mutex as a field. Opaque.
#[verifier::external_type_specification]
#[verifier::external_body]
#[verifier::reject_recursive_types(R)]
#[verifier::reject_recursive_types(T)]
pub struct ExMutex<R, T: ?Sized>(lock_api::Mutex<R, T>);

/// Declares parking_lot's `RawMutex`, the lock implementation that
/// parking_lot's `Mutex` alias instantiates lock_api's struct with.
#[verifier::external_type_specification]
#[verifier::external_body]
pub struct ExRawMutex(parking_lot::RawMutex);

/// Declares parking_lot's `Condvar`, the condition variable a gate parks
/// threads on. Opaque.
#[verifier::external_type_specification]
#[verifier::external_body]
pub struct ExCondvar(parking_lot::Condvar);

/// Declares crossbeam_utils' `Backoff`, the adaptive counter that paces
/// the busy-wait phase of a wait. Opaque: its step count is interior state.
#[verifier::external_type_specification]
#[verifier::external_body]
pub struct ExBackoff(crossbeam_utils::Backoff);

/// Relies on std's `Arc::clone`: the returned handle shares the argument's
/// allocation, so it holds the very value the argument holds. This is what
/// lets a factory method promise that the handle it returns holds the same
/// shared flag (and condition variable) as its gate.
#[verifier::external_body]
pub(crate) fn arc_share<T>(arc: &std::sync::Arc<T>) -> (shared: std::sync::Arc<T>)
    ensures
        shared == *arc,
{
    std::sync::Arc::clone(arc)
}

/// Relies on lock_api's `Mutex::new`: a fresh, unlocked mutex around the
/// unit payload. A gate's mutex guards no data; it exists only to pair
/// with the condition variable's wait protocol.
#[verifier::external_body]
pub(crate) fn park_lock_new() -> parking_lot::Mutex<()> {
    parking_lot::Mutex::new(())
}

/// Relies on parking_lot's `Condvar::new`: a fresh condition variable with
/// no thread parked on it.
#[verifier::external_body]
pub(crate) fn condvar_new() -> parking_lot::Condvar {
    parking_lot::Condvar::new()
}

/// Relies on parking_lot's `Condvar::notify_one`: wakes at most one thread
/// parked on the condition variable, a no-op if none is parked; returns
/// whether a thread was woken.
#[verifier::external_body]
pub(crate) fn condvar_notify_one(cvar: &parking_lot::Condvar) -> bool {
    cvar.notify_one()
}

/// Relies on crossbeam_utils' `Backoff::new`: a backoff counter at its
/// initial step, not yet completed.
#[verifier::external_body]
pub(crate) fn backoff_new() -> crossbeam_utils::Backoff {
    crossbeam_utils::Backoff::new()
}

/// Relies on crossbeam_utils' `Backoff::is_completed`: whether enough
/// backoff steps have elapsed that blocking the thread is advised.
#[verifier::external_body]
pub(crate) fn backoff_is_completed(backoff: &crossbeam_utils::Backoff) -> bool {
    backoff.is_completed()
}

/// Relies on crossbeam_utils' `Backoff::snooze`: one bounded busy-wait step
/// (a spin hint early on, a thread yield later), advancing the counter
/// towards completion.
#[verifier::external_body]
pub(crate) fn backoff_snooze(backoff: &crossbeam_utils::Backoff) {
    backoff.snooze()
}

} // verus!
