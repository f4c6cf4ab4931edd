use twitchy_mouse::config::CYCLE_DELAY_MS;
use twitchy_mouse::scheduler::{Phase, PushOutcome, Scheduler};
use twitchy_mouse::script::motion_script;
use twitchy_mouse::store::{IrqAction, Peripherals, PushGate};

#[test]
fn interrupt_before_bringup_is_noop() {
    let store: Peripherals<u8, u16, u32> = Peripherals::new();
    assert_eq!(store.poll_action(), IrqAction::NoOp);
}

#[test]
fn interrupt_with_only_bus_installed_is_noop() {
    let mut store: Peripherals<u8, u16, u32> = Peripherals::new();
    store.install_bus(1);
    assert_eq!(store.poll_action(), IrqAction::NoOp);
}

#[test]
fn interrupt_after_bringup_polls() {
    let mut store: Peripherals<u8, u16, u32> = Peripherals::new();
    store.install_bus(1);
    store.install_class_and_device(2, 3);
    store.arm_interrupts();
    assert_eq!(store.poll_action(), IrqAction::PollDevice);
}

#[test]
fn bringup_populates_slots_in_order() {
    let mut store: Peripherals<u8, u16, u32> = Peripherals::new();
    assert!(store.bus.is_none() && store.hid.is_none() && store.device.is_none());
    assert!(!store.armed);
    store.install_bus(7);
    assert_eq!(store.bus, Some(7));
    assert!(store.hid.is_none() && store.device.is_none());
    store.install_class_and_device(8, 9);
    assert_eq!(store.hid, Some(8));
    assert_eq!(store.device, Some(9));
    assert!(!store.armed);
    store.arm_interrupts();
    assert!(store.armed);
}

#[test]
fn push_gate_refuses_uninitialized_store() {
    let store: Peripherals<u8, u16, u32> = Peripherals::new();
    assert_eq!(store.push_gate(), PushGate::NotInitialized);
}

#[test]
fn push_gate_delivers_once_class_installed() {
    let mut store: Peripherals<u8, u16, u32> = Peripherals::new();
    store.install_bus(1);
    store.install_class_and_device(2, 3);
    assert_eq!(store.push_gate(), PushGate::Deliver);
}

#[test]
fn cycle_emits_all_sixteen_vectors_then_pauses() {
    let mut sched = Scheduler::new();
    assert!(!sched.indicator());
    sched.begin_cycle();
    assert!(sched.indicator());
    let script = motion_script();
    let mut emitted = Vec::new();
    while !sched.cycle_complete() {
        let r = sched.current_report();
        emitted.push((r.x, r.y));
        assert!(sched.indicator());
        sched.on_push_outcome(PushOutcome::Accepted);
    }
    assert_eq!(emitted.len(), 16);
    for (i, v) in script.iter().enumerate() {
        assert_eq!(emitted[i], (v.dx, v.dy));
    }
    let delay = sched.end_cycle();
    assert_eq!(delay, CYCLE_DELAY_MS);
    assert_eq!(delay, 10_000);
    assert!(!sched.indicator());
    assert_eq!(sched.phase, Phase::Idle);
}

#[test]
fn retry_convergence_counts_attempts() {
    let k: u32 = 5;
    let mut sched = Scheduler::new();
    sched.begin_cycle();
    let mut backpressure_left: u32 = k;
    let mut attempts: u32 = 0;
    loop {
        let outcome = if backpressure_left > 0 {
            backpressure_left -= 1;
            PushOutcome::WouldBlock
        } else {
            PushOutcome::Accepted
        };
        attempts += 1;
        let before = sched.index;
        if sched.on_push_outcome(outcome) {
            break;
        }
        assert_eq!(sched.index, before);
    }
    assert_eq!(attempts, k + 1);
    assert_eq!(sched.index, 1);
}

#[test]
fn nontransient_error_advances_within_the_cycle() {
    let mut sched = Scheduler::new();
    sched.begin_cycle();
    sched.on_push_outcome(PushOutcome::Accepted);
    sched.on_push_outcome(PushOutcome::Accepted);
    assert_eq!(sched.index, 2);
    let advanced = sched.on_push_outcome(PushOutcome::Failed);
    assert!(advanced);
    assert_eq!(sched.index, 3);
    assert_eq!(sched.phase, Phase::Emitting);
    assert!(sched.indicator());
    assert!(!sched.cycle_complete());
}
