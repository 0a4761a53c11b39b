use rust_gpiozero::{BlinkAction, BlinkPhase, BlinkTask};

fn run(task: &mut BlinkTask, blinking: bool, steps: usize) -> Vec<BlinkAction> {
    (0..steps).map(|_| task.next(blinking)).collect()
}

#[test]
fn three_cycles_then_exit() {
    let mut task = BlinkTask::new(10, 10, Some(3));
    let actions = run(&mut task, true, 13);
    let cycle = [
        BlinkAction::TurnOn,
        BlinkAction::Sleep(10),
        BlinkAction::TurnOff,
        BlinkAction::Sleep(10),
    ];
    let mut expected = Vec::new();
    for _ in 0..3 {
        expected.extend_from_slice(&cycle);
    }
    expected.push(BlinkAction::Exit);
    assert_eq!(actions, expected);
    assert_eq!(actions.iter().filter(|a| **a == BlinkAction::TurnOn).count(), 3);
    assert!(task.is_done());
    assert_eq!(task.next(true), BlinkAction::Exit);
}

#[test]
fn cycle_uses_on_and_off_times() {
    let mut task = BlinkTask::new(50, 200, Some(1));
    assert_eq!(
        run(&mut task, true, 5),
        vec![
            BlinkAction::TurnOn,
            BlinkAction::Sleep(50),
            BlinkAction::TurnOff,
            BlinkAction::Sleep(200),
            BlinkAction::Exit,
        ]
    );
}

#[test]
fn cancelled_at_top_of_cycle_stops() {
    let mut task = BlinkTask::new(50, 50, None);
    assert_eq!(task.next(false), BlinkAction::Stop);
    assert!(task.is_done());
    assert_eq!(task.next(true), BlinkAction::Exit);
}

#[test]
fn cancellation_is_seen_within_one_cycle() {
    for started in 0..4 {
        let mut task = BlinkTask::new(50, 50, None);
        run(&mut task, true, started);
        let actions = run(&mut task, false, 4);
        assert!(!actions.contains(&BlinkAction::TurnOn));
        let slept: u64 = actions
            .iter()
            .map(|a| match a {
                BlinkAction::Sleep(ms) => *ms,
                _ => 0,
            })
            .sum();
        assert!(slept <= 100);
        assert!(task.is_done());
        let last = *actions.last().unwrap();
        assert!(last == BlinkAction::Stop || last == BlinkAction::Exit);
    }
}

#[test]
fn mid_cycle_cancellation_finishes_the_pulse() {
    let mut task = BlinkTask::new(30, 40, None);
    assert_eq!(task.next(true), BlinkAction::TurnOn);
    assert_eq!(
        run(&mut task, false, 4),
        vec![
            BlinkAction::Sleep(30),
            BlinkAction::TurnOff,
            BlinkAction::Sleep(40),
            BlinkAction::Stop,
        ]
    );
}

#[test]
fn unbounded_blink_keeps_going() {
    let mut task = BlinkTask::new(1, 1, None);
    let actions = run(&mut task, true, 400);
    assert!(!actions.contains(&BlinkAction::Exit));
    assert!(!actions.contains(&BlinkAction::Stop));
    assert_eq!(actions.iter().filter(|a| **a == BlinkAction::TurnOn).count(), 100);
}

#[test]
fn zero_or_negative_count_blinks_never() {
    for n in [0, -1, i32::MIN] {
        let mut task = BlinkTask::new(10, 10, Some(n));
        assert_eq!(task.next(true), BlinkAction::Exit);
        assert!(task.is_done());
    }
}

#[test]
fn finished_count_exits_without_stopping() {
    let mut task = BlinkTask::new(10, 10, Some(1));
    run(&mut task, true, 4);
    assert_eq!(task.phase, BlinkPhase::Check);
    assert_eq!(task.next(false), BlinkAction::Exit);
}

#[test]
fn negative_duration_becomes_no_sleep() {
    let on_ms = (-1.0f32 * 1000.0) as u64;
    let off_ms = (0.01f32 * 1000.0) as u64;
    assert_eq!(on_ms, 0);
    let mut task = BlinkTask::new(on_ms, off_ms, Some(1));
    assert_eq!(
        run(&mut task, true, 5),
        vec![
            BlinkAction::TurnOn,
            BlinkAction::Sleep(0),
            BlinkAction::TurnOff,
            BlinkAction::Sleep(10),
            BlinkAction::Exit,
        ]
    );
}
