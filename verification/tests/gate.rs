use ready_gate::{next_step, WaitStep, Waiter};

#[test]
fn fresh_gate_not_ready() {
    let gate = Waiter::new();
    assert!(!gate.spectator().is_ready());
}

#[test]
fn set_ready_raises_flag() {
    let gate = Waiter::new();
    let setter = gate.setter();
    let spectator = gate.spectator();
    assert!(!spectator.is_ready());
    setter.set_ready();
    assert!(spectator.is_ready());
}

#[test]
fn notify_raises_flag() {
    let gate = Waiter::new();
    let notifier = gate.notifier();
    let spectator = gate.spectator();
    assert!(!spectator.is_ready());
    notifier.notify();
    assert!(spectator.is_ready());
}

#[test]
fn reset_clears_flag() {
    let gate = Waiter::new();
    gate.setter().set_ready();
    assert!(gate.spectator().is_ready());
    gate.reset();
    assert!(!gate.spectator().is_ready());
}

#[test]
fn reset_starts_a_fresh_epoch() {
    let gate = Waiter::new();
    let notifier = gate.notifier();
    let spectator = gate.spectator();
    notifier.notify();
    gate.reset();
    assert!(!spectator.is_ready());
    notifier.notify();
    assert!(spectator.is_ready());
    gate.wait();
}

#[test]
fn notify_twice_is_idempotent_and_wait_still_returns() {
    let gate = Waiter::new();
    let notifier = gate.notifier();
    notifier.notify();
    notifier.notify();
    assert!(gate.spectator().is_ready());
    gate.wait();
}

#[test]
fn wait_returns_immediately_when_already_ready() {
    let gate = Waiter::new();
    gate.setter().set_ready();
    gate.wait();
}

#[test]
fn spectator_observes_without_side_effects() {
    let gate = Waiter::new();
    let spectator = gate.spectator();
    assert!(!spectator.is_ready());
    assert!(!spectator.is_ready());
    gate.setter().set_ready();
    assert!(spectator.is_ready());
    assert!(spectator.is_ready());
}

#[test]
fn handles_share_one_flag() {
    let gate = Waiter::new();
    let setter = gate.setter();
    let spectator_one = gate.spectator();
    let spectator_two = spectator_one.clone();
    setter.clone().set_ready();
    assert!(spectator_one.is_ready());
    assert!(spectator_two.is_ready());
}

#[test]
fn next_step_returns_as_soon_as_flag_is_up() {
    assert_eq!(next_step(true, false), WaitStep::Finish);
    assert_eq!(next_step(true, true), WaitStep::Finish);
}

#[test]
fn next_step_spins_until_backoff_completes() {
    assert_eq!(next_step(false, false), WaitStep::Snooze);
}

#[test]
fn next_step_parks_once_backoff_completes() {
    assert_eq!(next_step(false, true), WaitStep::Park);
}
