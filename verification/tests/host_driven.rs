use keter_reactor::driver::Polled;
use keter_reactor::host_driven::{
    claim_exchange, entry_exchange, event_exchange, judge_claim, judge_entry, judge_pump,
    judge_wake, pump_exchange, rest_number, run_entered, wake_target, Register, Run,
};
use keter_reactor::state::{Timeout, Violation, WakeAction};

#[test]
fn wake_target_moves_only_a_run() {
    assert_eq!(wake_target(0), None);
    assert_eq!(wake_target(1), None);
    assert_eq!(wake_target(2), Some(1));
    assert_eq!(wake_target(3), Some(1));
    assert_eq!(wake_target(4), None);
    assert_eq!(wake_target(usize::MAX), None);
}

#[test]
fn outcomes_follow_the_value_that_was_found() {
    assert_eq!(judge_entry(0), Ok(()));
    assert_eq!(judge_entry(1), Err(Violation::DoubleEntry));
    assert_eq!(judge_entry(2), Err(Violation::DoubleEntry));
    assert_eq!(judge_entry(3), Err(Violation::DoubleEntry));

    assert_eq!(judge_wake(0), Ok(WakeAction::Nothing));
    assert_eq!(judge_wake(1), Ok(WakeAction::Nothing));
    assert_eq!(judge_wake(2), Ok(WakeAction::WakeHost));
    assert_eq!(judge_wake(3), Ok(WakeAction::Nothing));

    assert_eq!(judge_pump(0), Err(Violation::OutOfStep));
    assert_eq!(judge_pump(1), Ok(Timeout::Zero));
    assert_eq!(judge_pump(2), Ok(Timeout::Unbounded));
    assert_eq!(judge_pump(3), Ok(Timeout::Unbounded));

    assert_eq!(judge_claim(0), Err(Violation::OutOfStep));
    assert_eq!(judge_claim(1), Ok(true));
    assert_eq!(judge_claim(2), Err(Violation::OutOfStep));
    assert_eq!(judge_claim(3), Ok(false));
}

#[test]
fn a_number_that_stands_for_no_state_is_a_violation() {
    for raw in [4, 5, 0xff, usize::MAX] {
        assert_eq!(judge_entry(raw), Err(Violation::Unintelligible));
        assert_eq!(judge_wake(raw), Err(Violation::Unintelligible));
        assert_eq!(judge_pump(raw), Err(Violation::Unintelligible));
        assert_eq!(judge_claim(raw), Err(Violation::Unintelligible));
    }
}

#[test]
fn second_entry_is_a_violation() {
    let register = Register::new();
    assert_eq!(register.enter(), Ok(()));
    assert_eq!(register.enter(), Err(Violation::DoubleEntry));
    // The refused entry left the register as it was: a poll is still due.
    assert_eq!(register.before_pump(), Ok(Timeout::Zero));
    assert_eq!(register.claim_poll(), Ok(true));
    assert_eq!(register.enter(), Err(Violation::DoubleEntry));
    assert_eq!(register.before_pump(), Ok(Timeout::Unbounded));
    assert_eq!(register.enter(), Err(Violation::DoubleEntry));
}

#[test]
fn a_left_run_can_be_followed_by_another() {
    let register = Register::new();
    for _ in 0..3 {
        assert_eq!(register.enter(), Ok(()));
        assert_eq!(register.claim_poll(), Ok(true));
        register.leave();
    }
}

#[test]
fn first_pump_does_not_block() {
    let register = Register::new();
    register.enter().unwrap();
    assert_eq!(register.before_pump(), Ok(Timeout::Zero));
}

#[test]
fn wake_without_run_is_dropped() {
    let register = Register::new();
    assert_eq!(register.wake(), Ok(WakeAction::Nothing));
    assert_eq!(register.wake(), Ok(WakeAction::Nothing));
    // The register still says that nothing runs.
    assert_eq!(register.before_pump(), Err(Violation::OutOfStep));
    assert_eq!(register.enter(), Ok(()));
}

#[test]
fn wake_interrupts_a_sleeping_host_once() {
    let register = Register::new();
    register.enter().unwrap();
    assert_eq!(register.claim_poll(), Ok(true));
    assert_eq!(register.before_pump(), Ok(Timeout::Unbounded));
    assert_eq!(register.wake(), Ok(WakeAction::WakeHost));
    for _ in 0..10 {
        assert_eq!(register.wake(), Ok(WakeAction::Nothing));
    }
    register.on_event();
    assert_eq!(register.claim_poll(), Ok(true));
    assert_eq!(register.claim_poll(), Ok(false));
}

#[test]
fn wake_of_an_awake_run_needs_no_host() {
    let register = Register::new();
    register.enter().unwrap();
    assert_eq!(register.claim_poll(), Ok(true));
    assert_eq!(register.wake(), Ok(WakeAction::Nothing));
    // The notification is found before the pump, which must not block.
    assert_eq!(register.before_pump(), Ok(Timeout::Zero));
}

#[test]
fn event_ends_the_sleep() {
    let register = Register::new();
    register.enter().unwrap();
    assert_eq!(register.claim_poll(), Ok(true));
    assert_eq!(register.before_pump(), Ok(Timeout::Unbounded));
    register.on_event();
    // Awake again: a wake now needs no host.
    assert_eq!(register.wake(), Ok(WakeAction::Nothing));
}

#[test]
fn claim_out_of_step_is_a_violation() {
    let register = Register::new();
    assert_eq!(register.claim_poll(), Err(Violation::OutOfStep));
    register.enter().unwrap();
    register.claim_poll().unwrap();
    assert_eq!(register.before_pump(), Ok(Timeout::Unbounded));
    assert_eq!(register.claim_poll(), Err(Violation::OutOfStep));
}

#[test]
fn run_records_the_first_finished_poll() {
    let mut run: Run<u32> = Run::new();
    assert_eq!(run.finish(), None);
    run.record(Polled::Pending);
    assert_eq!(run.finish(), None);
    run.record(Polled::Ready(7));
    run.record(Polled::Pending);
    assert_eq!(run.finish(), Some(7));
    assert_eq!(run.finish(), None);
}

#[test]
fn run_keeps_the_latest_result() {
    let mut run: Run<u32> = Run::new();
    run.record(Polled::Ready(1));
    run.record(Polled::Ready(2));
    assert_eq!(run.finish(), Some(2));
}

#[test]
fn deliver_polls_only_when_notified() {
    let register = Register::new();
    register.enter().unwrap();
    let mut run: Run<&str> = Run::new();
    let mut dispatched = 0;
    let mut polled = 0;

    // A notification is pending from the entry: the event leads to a poll.
    let delivered = register.deliver(
        &mut run,
        || dispatched += 1,
        || {
            polled += 1;
            Polled::Pending
        },
    );
    assert_eq!(delivered, Ok(()));
    assert_eq!((dispatched, polled), (1, 1));
    assert_eq!(run.finish(), None);

    // No notification: the event is dispatched, the future is left alone.
    let delivered = register.deliver(
        &mut run,
        || dispatched += 1,
        || {
            polled += 1;
            Polled::Ready("early")
        },
    );
    assert_eq!(delivered, Ok(()));
    assert_eq!((dispatched, polled), (2, 1));
    assert_eq!(run.finish(), None);

    // A wake during the sleep: the next event polls, and the result is kept.
    assert_eq!(register.before_pump(), Ok(Timeout::Unbounded));
    assert_eq!(register.wake(), Ok(WakeAction::WakeHost));
    let delivered = register.deliver(
        &mut run,
        || dispatched += 1,
        || {
            polled += 1;
            Polled::Ready("done")
        },
    );
    assert_eq!(delivered, Ok(()));
    assert_eq!((dispatched, polled), (3, 2));
    assert_eq!(run.finish(), Some("done"));
}

#[test]
fn deliver_without_run_is_a_violation() {
    let register = Register::new();
    let mut run: Run<u8> = Run::new();
    let delivered = register.deliver(&mut run, || {}, || Polled::Ready(1));
    assert_eq!(delivered, Err(Violation::OutOfStep));
    assert_eq!(run.finish(), None);
}

#[test]
fn settle_polls_only_for_a_claimed_notification() {
    let mut run: Run<u32> = Run::new();
    let mut polls = 0;

    let delivered = run.settle(Ok(false), || {
        polls += 1;
        Polled::Ready(1)
    });
    assert_eq!(delivered, Ok(()));
    assert_eq!(polls, 0);
    assert_eq!(run.finish(), None);

    let delivered = run.settle(Err(Violation::OutOfStep), || {
        polls += 1;
        Polled::Ready(2)
    });
    assert_eq!(delivered, Err(Violation::OutOfStep));
    assert_eq!(polls, 0);
    assert_eq!(run.finish(), None);

    let delivered = run.settle(Err(Violation::Unintelligible), || {
        polls += 1;
        Polled::Ready(3)
    });
    assert_eq!(delivered, Err(Violation::Unintelligible));
    assert_eq!(polls, 0);

    let delivered = run.settle(Ok(true), || {
        polls += 1;
        Polled::Pending
    });
    assert_eq!(delivered, Ok(()));
    assert_eq!(polls, 1);
    assert_eq!(run.finish(), None);

    let delivered = run.settle(Ok(true), || {
        polls += 1;
        Polled::Ready(4)
    });
    assert_eq!(delivered, Ok(()));
    assert_eq!(polls, 2);
    assert_eq!(run.finish(), Some(4));
}

#[test]
fn deliver_dispatches_every_event_once() {
    let register = Register::new();
    let mut run: Run<u8> = Run::new();
    let mut dispatched = 0;

    // Without a run the claim is a violation, but the event was dispatched.
    let delivered = register.deliver(&mut run, || dispatched += 1, || Polled::Pending);
    assert_eq!(delivered, Err(Violation::OutOfStep));
    assert_eq!(dispatched, 1);

    register.enter().unwrap();
    for round in 0..5 {
        let delivered = register.deliver(&mut run, || dispatched += 1, || Polled::Pending);
        assert_eq!(delivered, Ok(()));
        assert_eq!(dispatched, 2 + round);
    }
}

#[test]
fn exchanges_look_for_one_state_and_store_its_successor() {
    assert_eq!(entry_exchange(), (0, 1));
    assert_eq!(pump_exchange(), (3, 2));
    assert_eq!(event_exchange(), (2, 3));
    assert_eq!(claim_exchange(), (1, 3));
    assert_eq!(rest_number(), 0);
}

#[test]
fn refused_entry_drives_nothing() {
    let mut driven = false;
    let run = run_entered(Err(Violation::DoubleEntry), || {
        driven = true;
        5
    });
    assert_eq!(run, Err(Violation::DoubleEntry));
    assert!(!driven);

    let run = run_entered(Err(Violation::Unintelligible), || 5);
    assert_eq!(run, Err(Violation::Unintelligible));

    let run = run_entered(Ok(()), || 5);
    assert_eq!(run, Ok(5));
}

#[test]
fn host_driven_run_enters_and_leaves() {
    let register = Register::new();
    for round in 0..3 {
        let run = register.block_on(|| {
            // Inside the run the register is taken.
            assert_eq!(register.enter(), Err(Violation::DoubleEntry));
            assert_eq!(register.before_pump(), Ok(Timeout::Zero));
            round
        });
        assert_eq!(run, Ok(round));
    }
    // After the last run the register is at rest.
    assert_eq!(register.enter(), Ok(()));
}

#[test]
fn overlapping_run_is_refused_and_changes_nothing() {
    let register = Register::new();
    let outer = register.block_on(|| {
        assert_eq!(register.claim_poll(), Ok(true));
        assert_eq!(register.before_pump(), Ok(Timeout::Unbounded));
        let mut polled = false;
        let inner = register.block_on(|| polled = true);
        assert_eq!(inner, Err(Violation::DoubleEntry));
        assert!(!polled);
        // The live run's register is as it was: asleep, so a wake
        // interrupts the host.
        assert_eq!(register.wake(), Ok(WakeAction::WakeHost));
        7
    });
    assert_eq!(outer, Ok(7));
}
