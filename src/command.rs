use vstd::prelude::*;
use crate::encoding::{decode_instruction, decoded};
use crate::error::ApiError;
use crate::ledger::{fresh_row, has_room, pending_head, latest_index, completed_at, Ledger};

verus! {

/// Tolerated distance, in seconds, between a command's issuance time and the
/// authority's clock. One minute absorbs ordinary clock skew and transport
/// delay while refusing replayed or badly skewed requests.
pub const DEFAULT_ISSUANCE_BUFFER: i64 = 60;

/// How long, in seconds, an issued instruction stays actionable. Fifteen
/// minutes lets a queued command survive a few missed polls without sending
/// a robot work that was planned for a situation long past.
pub const DEFAULT_INSTRUCTION_BUFFER: i64 = 900;

/// Battery level at or below which a robot is sent home.
pub const DEFAULT_MINIMUM_BATTERY_LEVEL: i64 = 50;

/// The tunable thresholds of the authority.
#[derive(Debug, Clone, Copy, PartialEq, Eq, Structural)]
pub struct Config {
    pub time_issued_buffer: i64,
    pub time_instruction_buffer: i64,
    pub minimum_battery_level: i64,
}

impl Config {
    /// Both time windows are non-negative.
    pub open spec fn wf(&self) -> bool {
        self.time_issued_buffer >= 0 && self.time_instruction_buffer >= 0
    }

    pub fn new(time_issued_buffer: i64, time_instruction_buffer: i64, minimum_battery_level: i64) -> (r: Config)
        ensures
            r.time_issued_buffer == time_issued_buffer,
            r.time_instruction_buffer == time_instruction_buffer,
            r.minimum_battery_level == minimum_battery_level,
    {
        Config { time_issued_buffer, time_instruction_buffer, minimum_battery_level }
    }
}

impl Default for Config {
    fn default() -> (r: Config)
        ensures
            r.time_issued_buffer == DEFAULT_ISSUANCE_BUFFER,
            r.time_instruction_buffer == DEFAULT_INSTRUCTION_BUFFER,
            r.minimum_battery_level == DEFAULT_MINIMUM_BATTERY_LEVEL,
    {
        Config {
            time_issued_buffer: DEFAULT_ISSUANCE_BUFFER,
            time_instruction_buffer: DEFAULT_INSTRUCTION_BUFFER,
            minimum_battery_level: DEFAULT_MINIMUM_BATTERY_LEVEL,
        }
    }
}

/// The cleaning pattern a task follows; an opaque tag to the authority.
#[derive(Debug, Clone, Copy, PartialEq, Eq, Structural)]
pub enum CleaningPattern {
    ZigZag,
    Circular,
}

/// Why a robot is told to abort.
#[derive(Debug, Clone, Copy, PartialEq, Eq, Structural)]
pub enum AbortReason {
    LowBattery,
    Safety,
    Obstacle,
}

/// What a robot should be doing.
#[derive(Debug, Clone, Copy, PartialEq, Eq, Structural)]
pub enum Instruction {
    Continue,
    Pause,
    Abort(AbortReason),
    Task(CleaningPattern),
    Idle,
}

/// One row of the command ledger. Times are seconds since the Unix epoch.
#[derive(Debug, Clone, PartialEq, Eq)]
pub struct Command {
    pub command_id: i64,
    pub robot_serial_number: String,
    pub time_issued: i64,
    pub time_instruction: i64,
    pub instruction: Instruction,
    pub completed: bool,
}

/// Distance between two instants.
pub open spec fn abs_diff(a: int, b: int) -> int {
    if a >= b { a - b } else { b - a }
}

/// Distance between two instants, computed without overflow.
pub fn seconds_between(a: i64, b: i64) -> (r: u64)
    ensures
        r as int == abs_diff(a as int, b as int),
{
    if a >= b {
        ((a as i128) - (b as i128)) as u64
    } else {
        ((b as i128) - (a as i128)) as u64
    }
}

/// A command issued at `time_issued` is accepted at `now`.
pub open spec fn within_issuance_window(cfg: Config, now: int, time_issued: int) -> bool {
    abs_diff(now, time_issued) <= cfg.time_issued_buffer
}

/// An instruction meant for `time_instruction` is still actionable at `now`.
pub open spec fn instruction_valid_at(cfg: Config, now: int, time_instruction: int) -> bool {
    abs_diff(now, time_instruction) < cfg.time_instruction_buffer
}

impl Command {
    /// Rebuilds a command from a stored row whose instruction is held as
    /// text; unreadable text is reported as a corrupted record.
    pub fn from_row(
        command_id: i64,
        robot_serial_number: String,
        time_issued: i64,
        time_instruction: i64,
        instruction: &str,
        completed: bool,
    ) -> (r: Result<Command, ApiError>)
        ensures
            decoded(
                instruction@,
                match r {
                    Ok(c) => Ok(c.instruction),
                    Err(e) => Err(e),
                },
            ),
            r matches Ok(c) ==> c.command_id == command_id && c.robot_serial_number
                == robot_serial_number && c.time_issued == time_issued && c.time_instruction
                == time_instruction && c.completed == completed,
    {
        match decode_instruction(instruction) {
            Ok(i) => Ok(
                Command {
                    command_id,
                    robot_serial_number,
                    time_issued,
                    time_instruction,
                    instruction: i,
                    completed,
                },
            ),
            Err(e) => Err(e),
        }
    }

    /// A command issued at `time_issued` may be accepted at `now`.
    pub fn issuance_allowed(cfg: &Config, time_issued: i64, now: i64) -> (r: bool)
        ensures
            r == within_issuance_window(*cfg, now as int, time_issued as int),
    {
        let time_difference: u64 = seconds_between(now, time_issued);
        cfg.time_issued_buffer >= 0 && time_difference <= cfg.time_issued_buffer as u64
    }

    /// A copy of the row, field for field.
    pub fn duplicate(&self) -> (r: Command)
        ensures
            r == *self,
    {
        Command {
            command_id: self.command_id,
            robot_serial_number: self.robot_serial_number.clone(),
            time_issued: self.time_issued,
            time_instruction: self.time_instruction,
            instruction: self.instruction,
            completed: self.completed,
        }
    }

    /// The command's instruction is still actionable at `now`.
    pub fn valid_time_instruction(&self, cfg: &Config, now: i64) -> (r: bool)
        ensures
            r == instruction_valid_at(*cfg, now as int, self.time_instruction as int),
    {
        let d: u64 = seconds_between(now, self.time_instruction);
        cfg.time_instruction_buffer >= 0 && d < cfg.time_instruction_buffer as u64
    }
}

/// What issuing a command at `now` does to a ledger holding `rows`, leaving
/// `after`, when it returns `r`: it is refused outside the issuance window,
/// fails when the ledger has no identity left, and otherwise appends one
/// fresh incomplete row and returns it.
pub open spec fn issue_outcome(
    cfg: Config,
    now: i64,
    rows: Seq<Command>,
    after: Seq<Command>,
    r: Result<Command, ApiError>,
    robot: Seq<char>,
    time_issued: i64,
    time_instruction: i64,
    instruction: Instruction,
) -> bool {
    match r {
        Ok(c) => within_issuance_window(cfg, now as int, time_issued as int) && has_room(rows)
            && after == rows.push(c) && fresh_row(
            rows,
            c,
            robot,
            time_issued,
            time_instruction,
            instruction,
        ),
        Err(e) => after == rows && if !within_issuance_window(cfg, now as int, time_issued as int) {
            e == ApiError::OutsideIssuanceWindow
        } else {
            !has_room(rows) && e == ApiError::PersistenceFailure
        },
    }
}

/// What resolving the robot's pending queue at `now` does: the head of the
/// queue comes back unchanged while it is still actionable; otherwise a fresh
/// `Idle` command is issued. A stale head is left as it is.
pub open spec fn pending_outcome(
    cfg: Config,
    now: i64,
    rows: Seq<Command>,
    after: Seq<Command>,
    r: Result<Command, ApiError>,
    robot: Seq<char>,
) -> bool {
    let h = pending_head(rows, robot);
    if h is Some && instruction_valid_at(cfg, now as int, rows[h->0].time_instruction as int) {
        r == Ok::<Command, ApiError>(rows[h->0]) && after == rows
    } else {
        issue_outcome(cfg, now, rows, after, r, robot, now, now, Instruction::Idle)
    }
}

impl Command {
    /// Issues a command: refused when `time_issued` lies outside the
    /// issuance window around `now`, otherwise appended to the ledger.
    pub fn new(
        ledger: &mut Ledger,
        cfg: &Config,
        robot_serial_number: &str,
        time_issued: i64,
        time_instruction: i64,
        instruction: &Instruction,
        now: i64,
    ) -> (r: Result<Command, ApiError>)
        requires
            old(ledger).wf(),
        ensures
            final(ledger).wf(),
            issue_outcome(
                *cfg,
                now,
                old(ledger)@,
                final(ledger)@,
                r,
                robot_serial_number@,
                time_issued,
                time_instruction,
                *instruction,
            ),
    {
        if !Command::issuance_allowed(cfg, time_issued, now) {
            return Err(ApiError::OutsideIssuanceWindow);
        }
        ledger.append(robot_serial_number, time_issued, time_instruction, *instruction)
    }

    /// The robot's current command: the row with the latest issuance time.
    pub fn current(ledger: &Ledger, robot_serial_number: &str) -> (r: Result<Command, ApiError>)
        ensures
            r == match latest_index(ledger@, robot_serial_number@) {
                Some(i) => Ok(ledger@[i]),
                None => Err(ApiError::NotFound),
            },
    {
        match ledger.latest(robot_serial_number) {
            Some(c) => Ok(c),
            None => Err(ApiError::NotFound),
        }
    }

    /// The actionable head of the robot's pending queue, or a freshly issued
    /// `Idle` command when there is none.
    pub fn pending(ledger: &mut Ledger, cfg: &Config, robot_serial_number: &str, now: i64) -> (r:
        Result<Command, ApiError>)
        requires
            old(ledger).wf(),
            cfg.wf(),
        ensures
            final(ledger).wf(),
            pending_outcome(*cfg, now, old(ledger)@, final(ledger)@, r, robot_serial_number@),
    {
        let head = ledger.incomplete_head(robot_serial_number);
        match Command::actionable(head, cfg, now) {
            Some(cmd) => Ok(cmd),
            None => Command::idle(ledger, cfg, robot_serial_number, now),
        }
    }

    /// The head of a pending queue if it is still actionable at `now`;
    /// `None` asks for a fresh `Idle` command instead.
    pub fn actionable(head: Option<Command>, cfg: &Config, now: i64) -> (r: Option<Command>)
        ensures
            r == match head {
                Some(c) => if instruction_valid_at(*cfg, now as int, c.time_instruction as int) {
                    Some(c)
                } else {
                    None
                },
                None => None,
            },
    {
        match head {
            Some(c) => {
                if c.valid_time_instruction(cfg, now) {
                    Some(c)
                } else {
                    None
                }
            },
            None => None,
        }
    }

    /// Marks this command complete in the ledger.
    pub fn complete(&self, ledger: &mut Ledger) -> (r: Result<(), ApiError>)
        requires
            old(ledger).wf(),
        ensures
            final(ledger).wf(),
            1 <= self.command_id <= old(ledger)@.len() ==> r is Ok && final(ledger)@
                == completed_at(old(ledger)@, self.command_id - 1),
            !(1 <= self.command_id <= old(ledger)@.len()) ==> r == Err::<(), ApiError>(
                ApiError::NotFound,
            ) && final(ledger)@ == old(ledger)@,
    {
        ledger.complete(self.command_id)
    }

    /// Issues `Abort(reason)` for the robot, for the time `now`.
    pub fn abort(
        ledger: &mut Ledger,
        cfg: &Config,
        robot_serial_number: &str,
        reason: &AbortReason,
        now: i64,
    ) -> (r: Result<Command, ApiError>)
        requires
            old(ledger).wf(),
            cfg.wf(),
        ensures
            final(ledger).wf(),
            issue_outcome(
                *cfg,
                now,
                old(ledger)@,
                final(ledger)@,
                r,
                robot_serial_number@,
                now,
                now,
                Instruction::Abort(*reason),
            ),
            r is Ok <==> has_room(old(ledger)@),
    {
        Command::new(ledger, cfg, robot_serial_number, now, now, &Instruction::Abort(*reason), now)
    }

    /// Issues `Idle` for the robot, for the time `now`.
    pub fn idle(ledger: &mut Ledger, cfg: &Config, robot_serial_number: &str, now: i64) -> (r:
        Result<Command, ApiError>)
        requires
            old(ledger).wf(),
            cfg.wf(),
        ensures
            final(ledger).wf(),
            issue_outcome(
                *cfg,
                now,
                old(ledger)@,
                final(ledger)@,
                r,
                robot_serial_number@,
                now,
                now,
                Instruction::Idle,
            ),
            r is Ok <==> has_room(old(ledger)@),
    {
        Command::new(ledger, cfg, robot_serial_number, now, now, &Instruction::Idle, now)
    }

    /// Issues `Task(cleaning_pattern)` for the robot, for the time `now`.
    pub fn task(
        ledger: &mut Ledger,
        cfg: &Config,
        robot_serial_number: &str,
        cleaning_pattern: &CleaningPattern,
        now: i64,
    ) -> (r: Result<Command, ApiError>)
        requires
            old(ledger).wf(),
            cfg.wf(),
        ensures
            final(ledger).wf(),
            issue_outcome(
                *cfg,
                now,
                old(ledger)@,
                final(ledger)@,
                r,
                robot_serial_number@,
                now,
                now,
                Instruction::Task(*cleaning_pattern),
            ),
            r is Ok <==> has_room(old(ledger)@),
    {
        Command::new(
            ledger,
            cfg,
            robot_serial_number,
            now,
            now,
            &Instruction::Task(*cleaning_pattern),
            now,
        )
    }
}

} // verus!
