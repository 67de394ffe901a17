use vstd::prelude::*;
use crate::command::{
    AbortReason, CleaningPattern, Command, Config, Instruction, instruction_valid_at,
    issue_outcome, pending_outcome,
};
use crate::error::ApiError;
use crate::ledger::{
    completed_at, has_room, ids_in_order, latest_index, lemma_latest_in_bounds,
    lemma_pending_head_after_completing, lemma_pending_head_in_bounds, owned_by, pending_head,
    Ledger,
};

verus! {

/// A robot's report: who it is, what it believes it is doing, and its
/// battery level in percent.
#[derive(Debug, Clone)]
pub struct Poll {
    pub robot_serial_number: String,
    pub instruction: Instruction,
    pub battery_level: i64,
}

/// What the decision table asks for, given the robot's current instruction
/// and the instruction it reports.
#[derive(Debug, Clone, Copy, PartialEq, Eq, Structural)]
pub enum Transition {
    /// Complete the current command, then issue an abort with this reason.
    IssueAbort(AbortReason),
    /// Hand back the current command unchanged.
    KeepCurrent,
    /// Complete the current command, then resolve the pending queue.
    CompleteThenResolve,
    /// Resolve the pending queue.
    Resolve,
    /// The pair has no defined transition.
    Unsupported,
}

/// The battery level lets the robot keep working.
pub open spec fn battery_ok(cfg: Config, level: int) -> bool {
    0 <= level && level > cfg.minimum_battery_level && level <= 100
}

/// The decision table over the current and the reported instruction.
pub open spec fn transition_of(prev: Instruction, request: Instruction) -> Transition {
    match request {
        Instruction::Abort(reason) => Transition::IssueAbort(reason),
        Instruction::Idle => match prev {
            Instruction::Task(_) => Transition::CompleteThenResolve,
            _ => Transition::Resolve,
        },
        Instruction::Task(q) => match prev {
            Instruction::Task(p) => if p == q {
                Transition::KeepCurrent
            } else {
                Transition::Unsupported
            },
            _ => Transition::Unsupported,
        },
        _ => Transition::Unsupported,
    }
}

/// The instruction of the robot's current row; a robot without rows counts
/// as idle.
pub open spec fn prev_instruction(rows: Seq<Command>, robot: Seq<char>) -> Instruction {
    match latest_index(rows, robot) {
        Some(i) => rows[i].instruction,
        None => Instruction::Idle,
    }
}

/// The rows with the robot's current row, if any, marked complete.
pub open spec fn complete_latest(rows: Seq<Command>, robot: Seq<char>) -> Seq<Command> {
    match latest_index(rows, robot) {
        Some(i) => completed_at(rows, i),
        None => rows,
    }
}

/// What a poll at `now` does to a ledger holding `rows`, leaving `after`,
/// when it returns `r`. A low battery always brings a fresh
/// `Abort(LowBattery)`; otherwise the decision table decides.
pub open spec fn poll_outcome(
    cfg: Config,
    now: i64,
    rows: Seq<Command>,
    after: Seq<Command>,
    r: Result<Command, ApiError>,
    request: Poll,
) -> bool {
    let robot = request.robot_serial_number@;
    if !battery_ok(cfg, request.battery_level as int) {
        issue_outcome(
            cfg,
            now,
            rows,
            after,
            r,
            robot,
            now,
            now,
            Instruction::Abort(AbortReason::LowBattery),
        )
    } else {
        match transition_of(prev_instruction(rows, robot), request.instruction) {
            Transition::IssueAbort(reason) => issue_outcome(
                cfg,
                now,
                complete_latest(rows, robot),
                after,
                r,
                robot,
                now,
                now,
                Instruction::Abort(reason),
            ),
            Transition::KeepCurrent => r == Ok::<Command, ApiError>(
                rows[latest_index(rows, robot)->0],
            ) && after == rows,
            Transition::CompleteThenResolve => pending_outcome(
                cfg,
                now,
                complete_latest(rows, robot),
                after,
                r,
                robot,
            ),
            Transition::Resolve => pending_outcome(cfg, now, rows, after, r, robot),
            Transition::Unsupported => r == Err::<Command, ApiError>(
                ApiError::InstructionSequenceUnsupported,
            ) && after == rows,
        }
    }
}

/// The decision table.
pub fn transition(prev: &Instruction, request: &Instruction) -> (t: Transition)
    ensures
        t == transition_of(*prev, *request),
{
    match request {
        Instruction::Abort(reason) => Transition::IssueAbort(*reason),
        Instruction::Idle => match prev {
            Instruction::Task(_) => Transition::CompleteThenResolve,
            _ => Transition::Resolve,
        },
        Instruction::Task(q) => match prev {
            Instruction::Task(p) => {
                if *p == *q {
                    Transition::KeepCurrent
                } else {
                    Transition::Unsupported
                }
            },
            _ => Transition::Unsupported,
        },
        _ => Transition::Unsupported,
    }
}

impl Poll {
    pub fn new(robot_serial_number: String, instruction: Instruction, battery_level: i64) -> (r:
        Poll)
        ensures
            r.robot_serial_number == robot_serial_number,
            r.instruction == instruction,
            r.battery_level == battery_level,
    {
        Poll { robot_serial_number, instruction, battery_level }
    }

    /// The reported battery level lets the robot keep working.
    pub fn check_battery(&self, cfg: &Config) -> (r: bool)
        ensures
            r == battery_ok(*cfg, self.battery_level as int),
    {
        self.battery_level >= 0 && self.battery_level > cfg.minimum_battery_level
            && self.battery_level <= 100
    }

    /// Resolves a poll at time `now`: decides the robot's next command,
    /// records it in the ledger and returns it.
    pub fn poll(ledger: &mut Ledger, cfg: &Config, next_command: &Poll, now: i64) -> (r: Result<
        Command,
        ApiError,
    >)
        requires
            old(ledger).wf(),
            cfg.wf(),
        ensures
            final(ledger).wf(),
            poll_outcome(*cfg, now, old(ledger)@, final(ledger)@, r, *next_command),
    {
        let robot: &str = next_command.robot_serial_number.as_str();
        if !next_command.check_battery(cfg) {
            return Command::abort(ledger, cfg, robot, &AbortReason::LowBattery, now);
        }
        let ghost rows = ledger@;
        proof {
            lemma_latest_in_bounds(rows, robot@, rows.len() as int);
        }
        let prev: Option<Command> = match Command::current(ledger, robot) {
            Ok(c) => Some(c),
            Err(_) => None,
        };
        let prev_instr: Instruction = match &prev {
            Some(c) => c.instruction,
            None => Instruction::Idle,
        };
        match transition(&prev_instr, &next_command.instruction) {
            Transition::IssueAbort(reason) => {
                if let Some(c) = &prev {
                    let _ = c.complete(ledger);
                }
                Command::abort(ledger, cfg, robot, &reason, now)
            },
            Transition::KeepCurrent => {
                match prev {
                    Some(c) => Ok(c),
                    None => Err(ApiError::InstructionSequenceUnsupported),
                }
            },
            Transition::CompleteThenResolve => {
                if let Some(c) = &prev {
                    let _ = c.complete(ledger);
                }
                Command::pending(ledger, cfg, robot, now)
            },
            Transition::Resolve => Command::pending(ledger, cfg, robot, now),
            Transition::Unsupported => Err(ApiError::InstructionSequenceUnsupported),
        }
    }
}

/// A robot that owns no row and polls `Idle` with a good battery receives a
/// freshly issued, incomplete `Idle` command.
pub proof fn lemma_first_idle_poll(
    cfg: Config,
    now: i64,
    rows: Seq<Command>,
    after: Seq<Command>,
    r: Result<Command, ApiError>,
    request: Poll,
)
    requires
        cfg.wf(),
        ids_in_order(rows),
        has_room(rows),
        latest_index(rows, request.robot_serial_number@) is None,
        battery_ok(cfg, request.battery_level as int),
        request.instruction == Instruction::Idle,
        poll_outcome(cfg, now, rows, after, r, request),
    ensures
        match r {
            Ok(c) => c.instruction == Instruction::Idle && !c.completed && c.command_id == rows.len()
                + 1 && after == rows.push(c),
            Err(_) => false,
        },
{
    let robot = request.robot_serial_number@;
    lemma_latest_in_bounds(rows, robot, rows.len() as int);
    lemma_pending_head_in_bounds(rows, robot, rows.len() as int);
}

/// A poll reporting `Abort(reason)` with a good battery completes the robot's
/// current command, if it has one, and returns a fresh incomplete
/// `Abort(reason)` command.
pub proof fn lemma_abort_poll(
    cfg: Config,
    now: i64,
    rows: Seq<Command>,
    after: Seq<Command>,
    r: Result<Command, ApiError>,
    request: Poll,
    reason: AbortReason,
)
    requires
        cfg.wf(),
        ids_in_order(rows),
        has_room(rows),
        battery_ok(cfg, request.battery_level as int),
        request.instruction == Instruction::Abort(reason),
        poll_outcome(cfg, now, rows, after, r, request),
    ensures
        match r {
            Ok(c) => c.instruction == Instruction::Abort(reason) && !c.completed && c.command_id
                == rows.len() + 1 && after == complete_latest(rows, request.robot_serial_number@).push(c),
            Err(_) => false,
        },
        latest_index(rows, request.robot_serial_number@) matches Some(i) ==> after[i].completed,
{
    lemma_latest_in_bounds(rows, request.robot_serial_number@, rows.len() as int);
}

/// Polling twice with `Task(p)` while the robot's current command is
/// `Task(p)` returns that same command both times and writes nothing.
pub proof fn lemma_same_task_idempotent(
    cfg: Config,
    first_now: i64,
    second_now: i64,
    rows: Seq<Command>,
    mid: Seq<Command>,
    after: Seq<Command>,
    first: Result<Command, ApiError>,
    second: Result<Command, ApiError>,
    request: Poll,
    p: CleaningPattern,
)
    requires
        battery_ok(cfg, request.battery_level as int),
        prev_instruction(rows, request.robot_serial_number@) == Instruction::Task(p),
        request.instruction == Instruction::Task(p),
        poll_outcome(cfg, first_now, rows, mid, first, request),
        poll_outcome(cfg, second_now, mid, after, second, request),
    ensures
        latest_index(rows, request.robot_serial_number@) is Some,
        first == Ok::<Command, ApiError>(rows[latest_index(rows, request.robot_serial_number@)->0]),
        second == first,
        mid == rows,
        after == rows,
{
}

/// A battery level that is negative, above one hundred, or not above the
/// minimum level brings a fresh `Abort(LowBattery)` command, whatever
/// instruction the robot reports, and nothing else changes.
pub proof fn lemma_low_battery_aborts(
    cfg: Config,
    now: i64,
    rows: Seq<Command>,
    after: Seq<Command>,
    r: Result<Command, ApiError>,
    request: Poll,
)
    requires
        cfg.wf(),
        has_room(rows),
        request.battery_level < 0 || request.battery_level <= cfg.minimum_battery_level
            || request.battery_level > 100,
        poll_outcome(cfg, now, rows, after, r, request),
    ensures
        match r {
            Ok(c) => c.instruction == Instruction::Abort(AbortReason::LowBattery) && !c.completed
                && c.command_id == rows.len() + 1 && after == rows.push(c),
            Err(_) => false,
        },
{
}

/// Switching directly from one cleaning pattern to another is refused and
/// writes nothing.
pub proof fn lemma_task_switch_unsupported(
    cfg: Config,
    now: i64,
    rows: Seq<Command>,
    after: Seq<Command>,
    r: Result<Command, ApiError>,
    request: Poll,
    p: CleaningPattern,
    q: CleaningPattern,
)
    requires
        p != q,
        battery_ok(cfg, request.battery_level as int),
        prev_instruction(rows, request.robot_serial_number@) == Instruction::Task(p),
        request.instruction == Instruction::Task(q),
        poll_outcome(cfg, now, rows, after, r, request),
    ensures
        r == Err::<Command, ApiError>(ApiError::InstructionSequenceUnsupported),
        after == rows,
{
}

/// A robot whose pending head has gone stale, polling `Idle`, receives a
/// fresh `Idle` command and the stale row stays incomplete, unless that row
/// is the robot's current task, which an `Idle` report completes.
pub proof fn lemma_stale_pending(
    cfg: Config,
    now: i64,
    rows: Seq<Command>,
    after: Seq<Command>,
    r: Result<Command, ApiError>,
    request: Poll,
    h: int,
)
    requires
        cfg.wf(),
        ids_in_order(rows),
        has_room(rows),
        battery_ok(cfg, request.battery_level as int),
        request.instruction == Instruction::Idle,
        pending_head(rows, request.robot_serial_number@) == Some(h),
        latest_index(rows, request.robot_serial_number@) != Some(h) || !(prev_instruction(
            rows,
            request.robot_serial_number@,
        ) is Task),
        !instruction_valid_at(cfg, now as int, rows[h].time_instruction as int),
        poll_outcome(cfg, now, rows, after, r, request),
    ensures
        match r {
            Ok(c) => c.instruction == Instruction::Idle && !c.completed && c.command_id
                == rows.len() + 1 && after.len() == rows.len() + 1 && after[rows.len() as int] == c,
            Err(_) => false,
        },
        0 <= h < rows.len(),
        !after[h].completed,
{
    let robot = request.robot_serial_number@;
    lemma_pending_head_in_bounds(rows, robot, rows.len() as int);
    lemma_latest_in_bounds(rows, robot, rows.len() as int);
    if prev_instruction(rows, robot) is Task {
        let l = latest_index(rows, robot)->0;
        lemma_pending_head_after_completing(rows, robot, l, rows.len() as int);
        assert(pending_head(complete_latest(rows, robot), robot) == Some(h));
    }
}

/// Reporting `Idle` while the current command is a task completes that
/// task; the robot then receives the actionable head of its pending queue,
/// or else a fresh `Idle` command. When every other incomplete row of the
/// robot is `Idle`, the answer is an `Idle` command either way.
pub proof fn lemma_task_then_idle(
    cfg: Config,
    now: i64,
    rows: Seq<Command>,
    after: Seq<Command>,
    r: Result<Command, ApiError>,
    request: Poll,
    p: CleaningPattern,
)
    requires
        cfg.wf(),
        ids_in_order(rows),
        has_room(rows),
        battery_ok(cfg, request.battery_level as int),
        prev_instruction(rows, request.robot_serial_number@) == Instruction::Task(p),
        request.instruction == Instruction::Idle,
        poll_outcome(cfg, now, rows, after, r, request),
    ensures
        ({
            let robot = request.robot_serial_number@;
            let l = latest_index(rows, robot)->0;
            let done = complete_latest(rows, robot);
            let h = pending_head(done, robot);
            &&& latest_index(rows, robot) is Some
            &&& 0 <= l < rows.len()
            &&& after[l].completed
            &&& match r {
                Ok(c) => !c.completed && if h is Some && instruction_valid_at(
                    cfg,
                    now as int,
                    done[h->0].time_instruction as int,
                ) {
                    c == done[h->0] && after == done && h->0 != l
                } else {
                    c.instruction == Instruction::Idle && c.command_id == rows.len() + 1
                        && after == done.push(c)
                },
                Err(_) => false,
            }
            &&& (forall|i: int|
                0 <= i < rows.len() && i != l && owned_by(rows, i, robot) && !rows[i].completed
                    ==> #[trigger] rows[i].instruction == Instruction::Idle) ==> (r matches Ok(c)
                ==> c.instruction == Instruction::Idle)
        }),
{
    let robot = request.robot_serial_number@;
    lemma_latest_in_bounds(rows, robot, rows.len() as int);
    let l = latest_index(rows, robot)->0;
    let done = complete_latest(rows, robot);
    lemma_pending_head_in_bounds(done, robot, done.len() as int);
    let h = pending_head(done, robot);
    if h is Some {
        let k = h->0;
        assert(owned_by(done, k, robot));
        assert(k != l);
        assert(done[k] == rows[k]);
        assert(owned_by(rows, k, robot));
    }
}

/// `after` keeps every row of `rows` in place: identity, robot, times and
/// instruction unchanged, and a completed row still completed.
pub open spec fn history_kept(rows: Seq<Command>, after: Seq<Command>) -> bool {
    &&& rows.len() <= after.len()
    &&& forall|i: int|
        0 <= i < rows.len() ==> {
            &&& after[i].command_id == (#[trigger] rows[i]).command_id
            &&& after[i].robot_serial_number == rows[i].robot_serial_number
            &&& after[i].time_issued == rows[i].time_issued
            &&& after[i].time_instruction == rows[i].time_instruction
            &&& after[i].instruction == rows[i].instruction
            &&& rows[i].completed ==> after[i].completed
        }
}

/// A poll never removes a row, never changes a stored instruction, and never
/// marks a completed command incomplete again.
pub proof fn lemma_poll_keeps_history(
    cfg: Config,
    now: i64,
    rows: Seq<Command>,
    after: Seq<Command>,
    r: Result<Command, ApiError>,
    request: Poll,
)
    requires
        poll_outcome(cfg, now, rows, after, r, request),
    ensures
        history_kept(rows, after),
{
    let robot = request.robot_serial_number@;
    lemma_latest_in_bounds(rows, robot, rows.len() as int);
    let done = complete_latest(rows, robot);
    if battery_ok(cfg, request.battery_level as int) {
        match transition_of(prev_instruction(rows, robot), request.instruction) {
            Transition::IssueAbort(_) | Transition::CompleteThenResolve => {
                assert(history_kept(rows, done));
                assert(history_kept(done, after));
                assert forall|i: int| 0 <= i < rows.len() implies {
                    &&& after[i].command_id == (#[trigger] rows[i]).command_id
                    &&& after[i].robot_serial_number == rows[i].robot_serial_number
                    &&& after[i].time_issued == rows[i].time_issued
                    &&& after[i].time_instruction == rows[i].time_instruction
                    &&& after[i].instruction == rows[i].instruction
                    &&& rows[i].completed ==> after[i].completed
                } by {
                    assert(done[i] == done[i]);
                }
            },
            _ => {},
        }
    }
}

} // verus!
