//! A single-event synchronization gate.
//!
//! One thread raises a one-time "ready" signal; other threads observe it or
//! block until it arrives. A [`Waiter`] owns one gate and hands out three
//! capability-restricted views of the same shared flag: a [`Notifier`]
//! (raise and wake one parked thread), a [`Setter`] (raise only, no wake)
//! and a [`Spectator`] (observe only). `Waiter::wait` blocks with an
//! adaptive spin-then-block strategy: it busy-waits briefly for fast
//! signals, then parks on a condition variable for slow ones.

use vstd::prelude::*;

mod ext;
pub mod model;

verus! {

use std::sync::Arc;
use std::sync::atomic::AtomicBool;
use std::sync::atomic::Ordering;

/// Raises the shared ready flag and wakes one thread parked on its gate's
/// condition variable: the `Notify` transition of [`model::flag_after_op`].
#[derive(Clone)]
pub struct Notifier {
    ready: Arc<AtomicBool>,
    cvar: Arc<parking_lot::Condvar>,
}

/// Raises the shared ready flag without waking anyone: the `SetReady`
/// transition of [`model::flag_after_op`]. For callers who know no thread
/// is parked (waiters still spinning observe the flag by themselves), or
/// who signal readiness through another channel; a thread already parked
/// stays blocked until a [`Notifier::notify`] or a spurious wake.
#[derive(Clone)]
pub struct Setter {
    ready: Arc<AtomicBool>,
}

impl Setter {
    /// The shared ready flag this handle raises.
    pub closed spec fn flag(&self) -> Arc<AtomicBool> {
        self.ready
    }

    /// Creates a new setter from a shared ready flag.
    fn new(ready: Arc<AtomicBool>) -> (setter: Self)
        ensures
            setter.flag() == ready,
    {
        Setter { ready }
    }

    /// Raises the shared ready flag (release store), waking nobody.
    pub fn set_ready(&self) {
        self.ready.store(true, Ordering::Release);
    }
}

/// Observes the shared ready flag without side effects: never blocks and
/// never changes the flag.
#[derive(Clone)]
pub struct Spectator {
    ready: Arc<AtomicBool>,
}

impl Spectator {
    /// The shared ready flag this handle observes.
    pub closed spec fn flag(&self) -> Arc<AtomicBool> {
        self.ready
    }

    /// Creates a new spectator from a shared ready flag.
    fn new(ready: Arc<AtomicBool>) -> (spectator: Self)
        ensures
            spectator.flag() == ready,
    {
        Spectator { ready }
    }

    /// Returns the current value of the shared ready flag (acquire load):
    /// `true` exactly when the most recent flag store visible to this
    /// thread raised it ([`model::lemma_flag_reflects_last_op`]).
    pub fn is_ready(&self) -> bool {
        self.ready.load(Ordering::Acquire)
    }
}

impl Notifier {
    /// The shared ready flag this handle raises.
    pub closed spec fn flag(&self) -> Arc<AtomicBool> {
        self.ready
    }

    /// The shared condition variable this handle notifies.
    pub closed spec fn wake(&self) -> Arc<parking_lot::Condvar> {
        self.cvar
    }

    /// Creates a new notifier from a shared ready flag and condition variable.
    fn new(ready: Arc<AtomicBool>, cvar: Arc<parking_lot::Condvar>) -> (notifier: Self)
        ensures
            notifier.flag() == ready,
            notifier.wake() == cvar,
    {
        Notifier { ready, cvar }
    }

    /// Raises the shared ready flag (release store), then wakes at most one
    /// thread parked on its gate's condition variable. Idempotent on the
    /// flag ([`model::lemma_notify_idempotent`]); each repeated call still
    /// attempts one wake, a harmless no-op when nobody is parked.
    pub fn notify(&self) {
        self.ready.store(true, Ordering::Release);
        crate::ext::condvar_notify_one(&self.cvar);
    }
}

/// Whether a waiting thread must keep waiting: `true` exactly when the
/// shared ready flag is still down (acquire load). This is the condition a
/// parked thread re-checks under the parking mutex after every wake.
pub(crate) fn still_waiting(ready: &AtomicBool) -> bool {
    !ready.load(Ordering::Acquire)
}

/// A cap on the busy-wait phase of [`Waiter::wait`], comfortably above the
/// step count at which crossbeam's backoff counter reports completion: the
/// spin loop always leaves for the blocking phase through that report, and
/// the cap only bounds it besides.
const SPIN_CAP: u32 = 64;

/// What one iteration of [`Waiter::wait`]'s spin loop does next, given the
/// flag value it observed and whether the backoff counter has completed.
#[derive(Clone, Copy, Debug, PartialEq, Eq, Structural)]
pub enum WaitStep {
    /// The flag was observed `true`: return from `wait`.
    Finish,
    /// Spinning is exhausted: take the lock, re-check the flag under it,
    /// and park on the condition variable if the flag is still down.
    Park,
    /// Keep busy-waiting: one bounded spin-or-yield step.
    Snooze,
}

/// The spin-then-block policy: return as soon as the flag is observed
/// raised; otherwise spin until the backoff counter completes, and park
/// from then on. Because completion is permanent, an iteration after a
/// wake never goes back to spinning.
pub open spec fn chosen_step(flag: bool, completed: bool) -> WaitStep {
    if flag {
        WaitStep::Finish
    } else if completed {
        WaitStep::Park
    } else {
        WaitStep::Snooze
    }
}

/// Decides the next step of the wait loop from the flag value just
/// observed and the backoff counter's completion.
pub fn next_step(flag: bool, completed: bool) -> (step: WaitStep)
    ensures
        step == chosen_step(flag, completed),
{
    if flag {
        WaitStep::Finish
    } else if completed {
        WaitStep::Park
    } else {
        WaitStep::Snooze
    }
}

/// The wait loop never returns while the flag is observed down, and once
/// the backoff counter has completed it never spins again: every later
/// iteration either finishes or goes straight to the lock-and-park path.
pub proof fn lemma_step_sound(flag: bool, completed: bool)
    ensures
        chosen_step(flag, completed) is Finish <==> flag,
        completed ==> !(chosen_step(flag, completed) is Snooze),
        !flag && completed ==> chosen_step(flag, completed) is Park,
{
}

/// Owns one gate: the shared ready flag, the condition variable, and the
/// mutex that exists only to pair with the condition variable's wait
/// protocol (the flag itself is read and written without locking).
pub struct Waiter {
    ready: Arc<AtomicBool>,
    cvar: Arc<parking_lot::Condvar>,
    mutex: parking_lot::Mutex<()>,
}

impl Waiter {
    /// The shared ready flag this gate owns.
    pub closed spec fn flag(&self) -> Arc<AtomicBool> {
        self.ready
    }

    /// The shared condition variable this gate parks threads on.
    pub closed spec fn wake(&self) -> Arc<parking_lot::Condvar> {
        self.cvar
    }

    /// Creates a gate whose flag starts `false`, with a fresh condition
    /// variable and lock.
    pub fn new() -> Self {
        Waiter {
            ready: Arc::new(AtomicBool::new(false)),
            cvar: Arc::new(crate::ext::condvar_new()),
            mutex: crate::ext::park_lock_new(),
        }
    }

    /// Blocks the calling thread until the shared ready flag is observed
    /// `true`, then returns; never returns early and never times out. A
    /// gate that is never raised and never notified blocks this call
    /// indefinitely, by design.
    ///
    /// Spin phase: each iteration follows [`chosen_step`] — check the flag
    /// (acquire load) and return if it is up, otherwise busy-wait until the
    /// backoff counter reports that blocking is now cheaper than further
    /// spinning. Blocking phase ([`Waiter::park_until_ready`]): take the
    /// lock, re-check the flag under it — closing the race with a raise
    /// between the last unlocked check and the lock — and park on the
    /// condition variable only while the flag stays down, re-checking it
    /// under the lock after every wake, spurious ones included.
    pub fn wait(&self) {
        let backoff = crate::ext::backoff_new();
        let mut spins: u32 = 0;
        while spins < SPIN_CAP
            decreases SPIN_CAP - spins,
        {
            let flag = self.ready.load(Ordering::Acquire);
            let completed = crate::ext::backoff_is_completed(&backoff);
            match next_step(flag, completed) {
                WaitStep::Finish => {
                    return;
                },
                WaitStep::Park => {
                    break;
                },
                WaitStep::Snooze => {
                    crate::ext::backoff_snooze(&backoff);
                    spins = spins + 1;
                },
            }
        }
        self.park_until_ready();
    }

    /// Relies on lock_api's `Mutex::lock` and parking_lot's
    /// `Condvar::wait_while`, fused into one call so that every use pairs
    /// this gate's condition variable with this gate's own mutex — the one
    /// association parking_lot allows (it panics when one condition
    /// variable is used with two different mutexes, which no call of this
    /// method can bring about: each gate's condition variable is fresh and
    /// parked on only here, under this one mutex). Takes the lock, then,
    /// while [`still_waiting`] observes the flag down under it, atomically
    /// releases the mutex and parks until a notification or a spurious
    /// wake, reacquiring the mutex and re-checking the flag under it after
    /// every wake. Returns only once the flag was observed raised under
    /// the mutex.
    #[verifier::external_body]
    fn park_until_ready(&self) {
        let mut guard = self.mutex.lock();
        self.cvar.wait_while(&mut guard, |_| still_waiting(&self.ready));
    }

    /// Returns a notifier handle holding this gate's own shared flag and
    /// condition variable: what it raises is what `wait` watches, and what
    /// it notifies is what `wait` parks on.
    pub fn notifier(&self) -> (notifier: Notifier)
        ensures
            notifier.flag() == self.flag(),
            notifier.wake() == self.wake(),
    {
        Notifier::new(crate::ext::arc_share(&self.ready), crate::ext::arc_share(&self.cvar))
    }

    /// Returns a setter handle holding this gate's own shared flag: what it
    /// raises is what `wait` and the spectators watch.
    pub fn setter(&self) -> (setter: Setter)
        ensures
            setter.flag() == self.flag(),
    {
        Setter::new(crate::ext::arc_share(&self.ready))
    }

    /// Returns a spectator handle holding this gate's own shared flag: what
    /// it observes is the flag the other handles raise and clear.
    pub fn spectator(&self) -> (spectator: Spectator)
        ensures
            spectator.flag() == self.flag(),
    {
        Spectator::new(crate::ext::arc_share(&self.ready))
    }

    /// Clears the shared ready flag (release store): the `Reset` transition
    /// of [`model::flag_after_op`], starting a new epoch
    /// ([`model::lemma_reset_clears`]). The caller must serialize a reset
    /// against concurrent waits and raises; no fencing is provided
    /// between them.
    pub fn reset(&self) {
        self.ready.store(false, Ordering::Release);
    }
}

impl Default for Waiter {
    /// A fresh gate, as [`Waiter::new`] returns it.
    fn default() -> Self {
        Waiter::new()
    }
}

} // verus!
