use sdp_backend::command::{AbortReason, CleaningPattern, Command, Config, Instruction};
use sdp_backend::error::ApiError;
use sdp_backend::ledger::Ledger;
use sdp_backend::poll::{transition, Poll, Transition};

const TEST_SERIAL: &str = "testing1";
const NOW: i64 = 1_700_000_000;

fn request(robot: &str, instruction: Instruction, battery_level: i64) -> Poll {
    Poll::new(robot.to_string(), instruction, battery_level)
}

#[test]
fn set_idle_poll() {
    let cfg = Config::default();
    let mut ledger = Ledger::new();
    Command::idle(&mut ledger, &cfg, TEST_SERIAL, NOW).unwrap();
    let poll = request(TEST_SERIAL, Instruction::Idle, 90);
    let result = Poll::poll(&mut ledger, &cfg, &poll, NOW).unwrap();
    assert_eq!(Instruction::Idle, result.instruction);
}

#[test]
fn scenario_idle_task_task_idle() {
    let cfg = Config::default();
    let mut ledger = Ledger::new();

    let first = Poll::poll(&mut ledger, &cfg, &request("R1", Instruction::Idle, 90), NOW).unwrap();
    assert_eq!(first.instruction, Instruction::Idle);
    assert!(!first.completed);
    assert_eq!(ledger.len(), 1);

    // Reporting a task that was never issued is no defined transition.
    let unsolicited = Poll::poll(
        &mut ledger,
        &cfg,
        &request("R1", Instruction::Task(CleaningPattern::ZigZag), 90),
        NOW + 1,
    );
    assert_eq!(unsolicited, Err(ApiError::InstructionSequenceUnsupported));
    assert_eq!(ledger.len(), 1);

    // A task is handed out by the authority; the robot then reports it.
    let task = Command::task(&mut ledger, &cfg, "R1", &CleaningPattern::ZigZag, NOW + 1).unwrap();
    assert_eq!(task.instruction, Instruction::Task(CleaningPattern::ZigZag));
    assert!(!task.completed);

    let zigzag = request("R1", Instruction::Task(CleaningPattern::ZigZag), 90);
    let again = Poll::poll(&mut ledger, &cfg, &zigzag, NOW + 2).unwrap();
    assert_eq!(again.command_id, task.command_id);
    let rows = ledger.len();
    let third = Poll::poll(&mut ledger, &cfg, &zigzag, NOW + 3).unwrap();
    assert_eq!(third.command_id, task.command_id);
    assert_eq!(ledger.len(), rows);

    let back = Poll::poll(&mut ledger, &cfg, &request("R1", Instruction::Idle, 90), NOW + 4).unwrap();
    let stored_task = ledger.row((task.command_id - 1) as usize).unwrap();
    assert!(stored_task.completed);
    // The first Idle command is still pending and fresh, so it comes back.
    assert_eq!(back.instruction, Instruction::Idle);
    assert_eq!(back.command_id, first.command_id);
}

#[test]
fn first_idle_poll_issues_idle() {
    let cfg = Config::default();
    let mut ledger = Ledger::new();
    Command::idle(&mut ledger, &cfg, "other", NOW).unwrap();
    let r = Poll::poll(&mut ledger, &cfg, &request("fresh", Instruction::Idle, 75), NOW).unwrap();
    assert_eq!(r.instruction, Instruction::Idle);
    assert!(!r.completed);
    assert_eq!(r.command_id, 2);
    assert_eq!(r.robot_serial_number, "fresh");
    assert_eq!(r.time_issued, NOW);
    assert_eq!(r.time_instruction, NOW);
    assert_eq!(ledger.len(), 2);
}

#[test]
fn abort_poll_completes_previous() {
    let cfg = Config::default();
    let mut ledger = Ledger::new();
    let prev = Command::task(&mut ledger, &cfg, "R2", &CleaningPattern::Circular, NOW).unwrap();
    let r = Poll::poll(
        &mut ledger,
        &cfg,
        &request("R2", Instruction::Abort(AbortReason::Obstacle), 80),
        NOW + 5,
    )
    .unwrap();
    assert_eq!(r.instruction, Instruction::Abort(AbortReason::Obstacle));
    assert!(!r.completed);
    assert_ne!(r.command_id, prev.command_id);
    assert!(ledger.row(0).unwrap().completed);
}

#[test]
fn abort_poll_without_history() {
    let cfg = Config::default();
    let mut ledger = Ledger::new();
    let r = Poll::poll(
        &mut ledger,
        &cfg,
        &request("R3", Instruction::Abort(AbortReason::Safety), 60),
        NOW,
    )
    .unwrap();
    assert_eq!(r.instruction, Instruction::Abort(AbortReason::Safety));
    assert_eq!(ledger.len(), 1);
}

#[test]
fn low_battery_overrides_report() {
    let cfg = Config::default();
    for level in [0i64, -1, 50, 101, 1000] {
        for reported in [
            Instruction::Idle,
            Instruction::Task(CleaningPattern::ZigZag),
            Instruction::Abort(AbortReason::Obstacle),
            Instruction::Pause,
        ] {
            let mut ledger = Ledger::new();
            Command::task(&mut ledger, &cfg, "R4", &CleaningPattern::ZigZag, NOW).unwrap();
            let r = Poll::poll(&mut ledger, &cfg, &request("R4", reported, level), NOW).unwrap();
            assert_eq!(r.instruction, Instruction::Abort(AbortReason::LowBattery));
            assert!(!r.completed);
            assert!(!ledger.row(0).unwrap().completed);
            assert_eq!(ledger.len(), 2);
        }
    }
}

#[test]
fn check_battery_bounds() {
    let cfg = Config::default();
    assert!(!request("b", Instruction::Idle, 50).check_battery(&cfg));
    assert!(request("b", Instruction::Idle, 51).check_battery(&cfg));
    assert!(request("b", Instruction::Idle, 100).check_battery(&cfg));
    assert!(!request("b", Instruction::Idle, 101).check_battery(&cfg));
    assert!(!request("b", Instruction::Idle, -5).check_battery(&cfg));
    let lenient = Config::new(60, 900, -10);
    assert!(request("b", Instruction::Idle, 0).check_battery(&lenient));
    assert!(!request("b", Instruction::Idle, -1).check_battery(&lenient));
}

#[test]
fn task_switch_is_unsupported() {
    let cfg = Config::default();
    let mut ledger = Ledger::new();
    Command::task(&mut ledger, &cfg, "R5", &CleaningPattern::ZigZag, NOW).unwrap();
    let r = Poll::poll(
        &mut ledger,
        &cfg,
        &request("R5", Instruction::Task(CleaningPattern::Circular), 90),
        NOW,
    );
    assert_eq!(r, Err(ApiError::InstructionSequenceUnsupported));
    assert_eq!(ledger.len(), 1);
    assert!(!ledger.row(0).unwrap().completed);
}

#[test]
fn continue_and_pause_are_unsupported() {
    let cfg = Config::default();
    let mut ledger = Ledger::new();
    for reported in [Instruction::Continue, Instruction::Pause] {
        let r = Poll::poll(&mut ledger, &cfg, &request("R6", reported, 90), NOW);
        assert_eq!(r, Err(ApiError::InstructionSequenceUnsupported));
    }
    let r = Poll::poll(
        &mut ledger,
        &cfg,
        &request("R6", Instruction::Task(CleaningPattern::ZigZag), 90),
        NOW,
    );
    assert_eq!(r, Err(ApiError::InstructionSequenceUnsupported));
    assert_eq!(ledger.len(), 0);
}

#[test]
fn stale_pending_is_replaced_by_idle() {
    let cfg = Config::default();
    let mut ledger = Ledger::new();
    let stale = Command::abort(&mut ledger, &cfg, "R7", &AbortReason::Safety, NOW).unwrap();
    let later = NOW + 900;
    let r = Poll::poll(&mut ledger, &cfg, &request("R7", Instruction::Idle, 90), later).unwrap();
    assert_eq!(r.instruction, Instruction::Idle);
    assert_ne!(r.command_id, stale.command_id);
    assert_eq!(r.time_issued, later);
    assert!(!ledger.row(0).unwrap().completed);
    assert_eq!(ledger.len(), 2);
}

#[test]
fn fresh_pending_is_returned() {
    let cfg = Config::default();
    let mut ledger = Ledger::new();
    let queued = Command::abort(&mut ledger, &cfg, "R8", &AbortReason::Safety, NOW).unwrap();
    let r = Poll::poll(&mut ledger, &cfg, &request("R8", Instruction::Idle, 90), NOW + 899).unwrap();
    assert_eq!(r, queued);
    assert_eq!(ledger.len(), 1);
}

#[test]
fn pending_prefers_latest_instruction_time() {
    let cfg = Config::default();
    let mut ledger = Ledger::new();
    Command::new(&mut ledger, &cfg, "R9", NOW, NOW + 30, &Instruction::Pause, NOW).unwrap();
    let newer =
        Command::new(&mut ledger, &cfg, "R9", NOW, NOW + 40, &Instruction::Continue, NOW).unwrap();
    Command::new(&mut ledger, &cfg, "R9", NOW + 1, NOW + 10, &Instruction::Idle, NOW).unwrap();
    let r = Command::pending(&mut ledger, &cfg, "R9", NOW + 20).unwrap();
    assert_eq!(r, newer);
}

#[test]
fn current_is_latest_issued() {
    let cfg = Config::default();
    let mut ledger = Ledger::new();
    assert_eq!(Command::current(&ledger, "R10"), Err(ApiError::NotFound));
    Command::new(&mut ledger, &cfg, "R10", NOW + 5, NOW, &Instruction::Pause, NOW).unwrap();
    Command::new(&mut ledger, &cfg, "R10", NOW - 5, NOW, &Instruction::Idle, NOW).unwrap();
    Command::new(&mut ledger, &cfg, "R11", NOW + 9, NOW, &Instruction::Continue, NOW).unwrap();
    let c = Command::current(&ledger, "R10").unwrap();
    assert_eq!(c.instruction, Instruction::Pause);
    assert_eq!(c.command_id, 1);
}

#[test]
fn issuance_window_is_enforced() {
    let cfg = Config::default();
    let mut ledger = Ledger::new();
    let r = Command::new(&mut ledger, &cfg, "R12", NOW - 61, NOW, &Instruction::Idle, NOW);
    assert_eq!(r, Err(ApiError::OutsideIssuanceWindow));
    let r = Command::new(&mut ledger, &cfg, "R12", NOW + 61, NOW, &Instruction::Idle, NOW);
    assert_eq!(r, Err(ApiError::OutsideIssuanceWindow));
    assert_eq!(ledger.len(), 0);
    let ok = Command::new(&mut ledger, &cfg, "R12", NOW - 60, NOW + 7, &Instruction::Idle, NOW)
        .unwrap();
    assert_eq!(ok.time_issued, NOW - 60);
    assert_eq!(ok.time_instruction, NOW + 7);
    assert_eq!(ok.command_id, 1);
    assert!(Command::issuance_allowed(&cfg, NOW + 60, NOW));
    assert!(!Command::issuance_allowed(&cfg, NOW + 61, NOW));
    assert!(!Command::issuance_allowed(&cfg, i64::MAX, i64::MIN));
}

#[test]
fn instruction_validity_window() {
    let cfg = Config::default();
    let mut ledger = Ledger::new();
    let c = Command::idle(&mut ledger, &cfg, "R13", NOW).unwrap();
    assert!(c.valid_time_instruction(&cfg, NOW));
    assert!(c.valid_time_instruction(&cfg, NOW + 899));
    assert!(!c.valid_time_instruction(&cfg, NOW + 900));
    assert!(c.valid_time_instruction(&cfg, NOW - 899));
    assert!(!c.valid_time_instruction(&cfg, NOW - 900));
    assert!(!c.valid_time_instruction(&cfg, i64::MIN));
}

#[test]
fn complete_is_idempotent() {
    let cfg = Config::default();
    let mut ledger = Ledger::new();
    let c = Command::idle(&mut ledger, &cfg, "R14", NOW).unwrap();
    assert_eq!(c.complete(&mut ledger), Ok(()));
    assert_eq!(c.complete(&mut ledger), Ok(()));
    assert!(ledger.row(0).unwrap().completed);
    assert_eq!(ledger.complete(2), Err(ApiError::NotFound));
    assert_eq!(ledger.complete(0), Err(ApiError::NotFound));
}

#[test]
fn decision_table() {
    assert_eq!(
        transition(&Instruction::Idle, &Instruction::Abort(AbortReason::Obstacle)),
        Transition::IssueAbort(AbortReason::Obstacle)
    );
    assert_eq!(transition(&Instruction::Task(CleaningPattern::ZigZag), &Instruction::Task(CleaningPattern::ZigZag)), Transition::KeepCurrent);
    assert_eq!(transition(&Instruction::Task(CleaningPattern::ZigZag), &Instruction::Task(CleaningPattern::Circular)), Transition::Unsupported);
    assert_eq!(transition(&Instruction::Task(CleaningPattern::Circular), &Instruction::Idle), Transition::CompleteThenResolve);
    assert_eq!(transition(&Instruction::Pause, &Instruction::Idle), Transition::Resolve);
    assert_eq!(transition(&Instruction::Idle, &Instruction::Task(CleaningPattern::ZigZag)), Transition::Unsupported);
    assert_eq!(transition(&Instruction::Continue, &Instruction::Pause), Transition::Unsupported);
}

#[test]
fn actionable_keeps_only_fresh_heads() {
    let cfg = Config::default();
    let mut ledger = Ledger::new();
    let c = Command::idle(&mut ledger, &cfg, "R16", NOW).unwrap();
    assert_eq!(Command::actionable(Some(c.clone()), &cfg, NOW + 10), Some(c.clone()));
    assert_eq!(Command::actionable(Some(c), &cfg, NOW + 900), None);
    assert_eq!(Command::actionable(None, &cfg, NOW), None);
}

#[test]
fn stale_pending_survives_task_completion() {
    let cfg = Config::default();
    let mut ledger = Ledger::new();
    let stale = Command::new(&mut ledger, &cfg, "R17", NOW, NOW, &Instruction::Pause, NOW).unwrap();
    let later = NOW + 1000;
    let task = Command::task(&mut ledger, &cfg, "R17", &CleaningPattern::Circular, later).unwrap();
    let r = Poll::poll(&mut ledger, &cfg, &request("R17", Instruction::Idle, 90), later).unwrap();
    assert_eq!(r.instruction, Instruction::Idle);
    assert_eq!(r.command_id, 3);
    assert!(ledger.row((task.command_id - 1) as usize).unwrap().completed);
    assert!(!ledger.row((stale.command_id - 1) as usize).unwrap().completed);
}

#[test]
fn polls_keep_history() {
    let cfg = Config::default();
    let mut ledger = Ledger::new();
    let first = Command::task(&mut ledger, &cfg, "R18", &CleaningPattern::ZigZag, NOW).unwrap();
    Poll::poll(&mut ledger, &cfg, &request("R18", Instruction::Idle, 90), NOW + 1).unwrap();
    Poll::poll(&mut ledger, &cfg, &request("R18", Instruction::Pause, 90), NOW + 2).unwrap_err();
    Poll::poll(&mut ledger, &cfg, &request("R18", Instruction::Idle, 10), NOW + 3).unwrap();
    let stored = ledger.row(0).unwrap();
    assert_eq!(stored.instruction, first.instruction);
    assert_eq!(stored.time_issued, first.time_issued);
    assert!(stored.completed);
    assert_eq!(ledger.len(), 3);
}

#[test]
fn task_then_idle_ignores_other_robots() {
    let cfg = Config::default();
    let mut ledger = Ledger::new();
    let idle = Command::idle(&mut ledger, &cfg, "R1", NOW).unwrap();
    Command::task(&mut ledger, &cfg, "R2", &CleaningPattern::Circular, NOW + 2).unwrap();
    let task = Command::task(&mut ledger, &cfg, "R1", &CleaningPattern::ZigZag, NOW + 1).unwrap();
    Command::abort(&mut ledger, &cfg, "R2", &AbortReason::Obstacle, NOW + 3).unwrap();
    let r = Poll::poll(&mut ledger, &cfg, &request("R1", Instruction::Idle, 90), NOW + 4).unwrap();
    assert!(ledger.row((task.command_id - 1) as usize).unwrap().completed);
    assert_eq!(r, idle);
    assert!(!ledger.row(1).unwrap().completed);
    assert_eq!(ledger.len(), 4);
}
