use crossbeam_utils::Backoff;
use ready_gate::Waiter;

// Raising one gate signals another thread's progress without any std I/O or
// timing primitive: the helper loops, notifying the watched gate, until the
// done gate is observed raised.

#[test]
fn notify_unblocks_a_waiting_thread() {
    let gate = Waiter::new();
    let notifier = gate.notifier();
    let done = Waiter::new();
    let done_setter = done.setter();
    let done_spectator = done.spectator();

    crossbeam_utils::thread::scope(|s| {
        s.spawn(move |_| {
            gate.wait();
            done_setter.set_ready();
        });
        let pace = Backoff::new();
        // Give the waiter time to spin through its backoff and park, then
        // keep notifying until it has demonstrably returned: a single
        // notify could land in the instant between the waiter's re-check
        // under the lock and its parking.
        while !done_spectator.is_ready() {
            notifier.notify();
            pace.snooze();
        }
    })
    .unwrap();
    assert!(done_spectator.is_ready());
}

#[test]
fn set_ready_before_wait_lets_a_thread_pass_straight_through() {
    let gate = Waiter::new();
    gate.setter().set_ready();
    let done = Waiter::new();
    let done_setter = done.setter();
    let done_spectator = done.spectator();

    crossbeam_utils::thread::scope(|s| {
        s.spawn(move |_| {
            gate.wait();
            done_setter.set_ready();
        });
    })
    .unwrap();
    assert!(done_spectator.is_ready());
}

#[test]
fn one_notify_per_parked_waiter_releases_both() {
    // Two threads wait on the same gate; one notify is only guaranteed to
    // wake one parked thread, so the helper keeps notifying until both
    // have returned. Asserting that a single notify releases both would
    // overstate the single-wake semantics.
    let gate = Waiter::new();
    let notifier = gate.notifier();
    let done_one = Waiter::new();
    let done_one_setter = done_one.setter();
    let done_one_spectator = done_one.spectator();
    let done_two = Waiter::new();
    let done_two_setter = done_two.setter();
    let done_two_spectator = done_two.spectator();

    crossbeam_utils::thread::scope(|s| {
        let gate_ref = &gate;
        s.spawn(move |_| {
            gate_ref.wait();
            done_one_setter.set_ready();
        });
        s.spawn(move |_| {
            gate_ref.wait();
            done_two_setter.set_ready();
        });
        let pace = Backoff::new();
        while !(done_one_spectator.is_ready() && done_two_spectator.is_ready()) {
            notifier.notify();
            pace.snooze();
        }
    })
    .unwrap();
    assert!(done_one_spectator.is_ready());
    assert!(done_two_spectator.is_ready());
}
