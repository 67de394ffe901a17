use vstd::prelude::*;
use crate::command::{Command, Instruction};
use crate::error::ApiError;

verus! {

/// Row `i` belongs to `robot`.
pub open spec fn owned_by(rows: Seq<Command>, i: int, robot: Seq<char>) -> bool {
    rows[i].robot_serial_number@ == robot
}

/// Index of the robot's current row among the first `n` rows: the greatest
/// `time_issued`, the later row winning a tie.
pub open spec fn latest_in(rows: Seq<Command>, robot: Seq<char>, n: int) -> Option<int>
    decreases n,
{
    if n <= 0 {
        None
    } else {
        let before = latest_in(rows, robot, n - 1);
        if owned_by(rows, n - 1, robot) && (before is None || rows[before->0].time_issued
            <= rows[n - 1].time_issued) {
            Some(n - 1)
        } else {
            before
        }
    }
}

/// Index of the robot's current row.
pub open spec fn latest_index(rows: Seq<Command>, robot: Seq<char>) -> Option<int> {
    latest_in(rows, robot, rows.len() as int)
}

/// Index of the head of the robot's pending queue among the first `n` rows:
/// the incomplete row with the greatest `time_instruction`, the later row
/// winning a tie.
pub open spec fn pending_head_in(rows: Seq<Command>, robot: Seq<char>, n: int) -> Option<int>
    decreases n,
{
    if n <= 0 {
        None
    } else {
        let before = pending_head_in(rows, robot, n - 1);
        if owned_by(rows, n - 1, robot) && !rows[n - 1].completed && (before is None
            || rows[before->0].time_instruction <= rows[n - 1].time_instruction) {
            Some(n - 1)
        } else {
            before
        }
    }
}

/// Index of the head of the robot's pending queue.
pub open spec fn pending_head(rows: Seq<Command>, robot: Seq<char>) -> Option<int> {
    pending_head_in(rows, robot, rows.len() as int)
}

/// The rows with row `i` marked complete.
pub open spec fn completed_at(rows: Seq<Command>, i: int) -> Seq<Command> {
    rows.update(i, Command { completed: true, ..rows[i] })
}

/// Identities are assigned in order, starting at one.
pub open spec fn ids_in_order(rows: Seq<Command>) -> bool {
    &&& rows.len() < i64::MAX
    &&& forall|i: int| 0 <= i < rows.len() ==> #[trigger] rows[i].command_id == i + 1
}

/// Another row can be appended without exhausting the identities.
pub open spec fn has_room(rows: Seq<Command>) -> bool {
    rows.len() + 1 < i64::MAX
}

/// `c` is the row that an append of the given values hands out after `rows`.
pub open spec fn fresh_row(
    rows: Seq<Command>,
    c: Command,
    robot: Seq<char>,
    time_issued: i64,
    time_instruction: i64,
    instruction: Instruction,
) -> bool {
    &&& c.command_id == rows.len() + 1
    &&& c.robot_serial_number@ == robot
    &&& c.time_issued == time_issued
    &&& c.time_instruction == time_instruction
    &&& c.instruction == instruction
    &&& !c.completed
}

/// The current row, when there is one, is a row of the robot; when there is
/// none, the robot owns no row.
pub proof fn lemma_latest_in_bounds(rows: Seq<Command>, robot: Seq<char>, n: int)
    requires
        0 <= n <= rows.len(),
    ensures
        latest_in(rows, robot, n) matches Some(i) ==> 0 <= i < n && owned_by(rows, i, robot),
        latest_in(rows, robot, n) is None ==> forall|j: int|
            0 <= j < n ==> !#[trigger] owned_by(rows, j, robot),
    decreases n,
{
    if n > 0 {
        lemma_latest_in_bounds(rows, robot, n - 1);
    }
}

/// The head of the pending queue, when there is one, is an incomplete row of
/// the robot; a robot that owns no row has no pending queue.
pub proof fn lemma_pending_head_in_bounds(rows: Seq<Command>, robot: Seq<char>, n: int)
    requires
        0 <= n <= rows.len(),
    ensures
        pending_head_in(rows, robot, n) matches Some(i) ==> 0 <= i < n && owned_by(rows, i, robot)
            && !rows[i].completed,
        (forall|j: int| 0 <= j < n ==> !#[trigger] owned_by(rows, j, robot)) ==> pending_head_in(
            rows,
            robot,
            n,
        ) is None,
    decreases n,
{
    if n > 0 {
        lemma_pending_head_in_bounds(rows, robot, n - 1);
    }
}

/// Completing a row other than the head of a pending queue leaves that head
/// in place.
pub proof fn lemma_pending_head_after_completing(
    rows: Seq<Command>,
    robot: Seq<char>,
    l: int,
    n: int,
)
    requires
        0 <= l < rows.len(),
        0 <= n <= rows.len(),
    ensures
        ({
            let p = pending_head_in(rows, robot, n);
            let q = pending_head_in(completed_at(rows, l), robot, n);
            &&& q is Some ==> p is Some && rows[q->0].time_instruction
                <= rows[p->0].time_instruction
            &&& (p matches Some(x) && x != l ==> q == p)
        }),
    decreases n,
{
    let rows2 = completed_at(rows, l);
    lemma_pending_head_in_bounds(rows, robot, n);
    lemma_pending_head_in_bounds(rows2, robot, n);
    if n > 0 {
        lemma_pending_head_after_completing(rows, robot, l, n - 1);
        lemma_pending_head_in_bounds(rows, robot, n - 1);
        lemma_pending_head_in_bounds(rows2, robot, n - 1);
        assert(rows2[n - 1].time_instruction == rows[n - 1].time_instruction);
        assert(n - 1 != l ==> rows2[n - 1] == rows[n - 1]);
    }
}

/// An append-mostly store of commands, kept in memory. Rows are never
/// removed and their instructions never change; the only mutation of a
/// stored row is its completion.
pub struct Ledger {
    rows: Vec<Command>,
}

impl View for Ledger {
    type V = Seq<Command>;

    closed spec fn view(&self) -> Seq<Command> {
        self.rows@
    }
}

impl Ledger {
    pub open spec fn wf(&self) -> bool {
        ids_in_order(self@)
    }

    /// An empty ledger.
    pub fn new() -> (r: Ledger)
        ensures
            r.wf(),
            r@ == Seq::<Command>::empty(),
    {
        Ledger { rows: Vec::new() }
    }

    /// Number of rows stored.
    pub fn len(&self) -> (r: usize)
        ensures
            r == self@.len(),
    {
        self.rows.len()
    }

    /// The row at position `i`.
    pub fn row(&self, i: usize) -> (r: Option<Command>)
        ensures
            i < self@.len() ==> r == Some(self@[i as int]),
            i >= self@.len() ==> r is None,
    {
        if i < self.rows.len() {
            Some(self.rows[i].duplicate())
        } else {
            None
        }
    }

    /// Stores a new incomplete row and returns it with its identity.
    pub fn append(
        &mut self,
        robot_serial_number: &str,
        time_issued: i64,
        time_instruction: i64,
        instruction: Instruction,
    ) -> (r: Result<Command, ApiError>)
        requires
            old(self).wf(),
        ensures
            final(self).wf(),
            match r {
                Ok(c) => has_room(old(self)@) && final(self)@ == old(self)@.push(c) && fresh_row(
                    old(self)@,
                    c,
                    robot_serial_number@,
                    time_issued,
                    time_instruction,
                    instruction,
                ),
                Err(e) => !has_room(old(self)@) && e == ApiError::PersistenceFailure
                    && final(self)@ == old(self)@,
            },
    {
        let n: usize = self.rows.len();
        if n as u128 + 1 >= i64::MAX as u128 {
            return Err(ApiError::PersistenceFailure);
        }
        let c = Command {
            command_id: n as i64 + 1,
            robot_serial_number: robot_serial_number.to_owned(),
            time_issued,
            time_instruction,
            instruction,
            completed: false,
        };
        self.rows.push(c.duplicate());
        assert(forall|i: int| 0 <= i < self@.len() ==> #[trigger] self@[i].command_id == i + 1);
        Ok(c)
    }

    /// The robot's current row, if it has any.
    pub fn latest(&self, robot_serial_number: &str) -> (r: Option<Command>)
        ensures
            r == match latest_index(self@, robot_serial_number@) {
                Some(i) => Some(self@[i]),
                None => None,
            },
    {
        let robot = robot_serial_number.to_owned();
        let mut best: Option<usize> = None;
        let mut i: usize = 0;
        while i < self.rows.len()
            invariant
                i <= self.rows@.len(),
                robot@ == robot_serial_number@,
                self.rows@ == self@,
                best matches Some(b) ==> b < i,
                latest_in(self@, robot@, i as int) == match best {
                    Some(b) => Some(b as int),
                    None => None,
                },
            decreases self.rows@.len() - i,
        {
            if self.rows[i].robot_serial_number == robot {
                match best {
                    Some(b) => {
                        if self.rows[b].time_issued <= self.rows[i].time_issued {
                            best = Some(i);
                        }
                    },
                    None => {
                        best = Some(i);
                    },
                }
            }
            i = i + 1;
        }
        match best {
            Some(b) => Some(self.rows[b].duplicate()),
            None => None,
        }
    }

    /// The head of the robot's pending queue, if it has any incomplete row.
    pub fn incomplete_head(&self, robot_serial_number: &str) -> (r: Option<Command>)
        ensures
            r == match pending_head(self@, robot_serial_number@) {
                Some(i) => Some(self@[i]),
                None => None,
            },
    {
        let robot = robot_serial_number.to_owned();
        let mut best: Option<usize> = None;
        let mut i: usize = 0;
        while i < self.rows.len()
            invariant
                i <= self.rows@.len(),
                robot@ == robot_serial_number@,
                self.rows@ == self@,
                best matches Some(b) ==> b < i,
                pending_head_in(self@, robot@, i as int) == match best {
                    Some(b) => Some(b as int),
                    None => None,
                },
            decreases self.rows@.len() - i,
        {
            if self.rows[i].robot_serial_number == robot && !self.rows[i].completed {
                match best {
                    Some(b) => {
                        if self.rows[b].time_instruction <= self.rows[i].time_instruction {
                            best = Some(i);
                        }
                    },
                    None => {
                        best = Some(i);
                    },
                }
            }
            i = i + 1;
        }
        match best {
            Some(b) => Some(self.rows[b].duplicate()),
            None => None,
        }
    }

    /// Marks the row with identity `command_id` complete; completing a
    /// complete row changes nothing and succeeds.
    pub fn complete(&mut self, command_id: i64) -> (r: Result<(), ApiError>)
        requires
            old(self).wf(),
        ensures
            final(self).wf(),
            1 <= command_id <= old(self)@.len() ==> r is Ok && final(self)@ == completed_at(
                old(self)@,
                command_id - 1,
            ),
            !(1 <= command_id <= old(self)@.len()) ==> r == Err::<(), ApiError>(ApiError::NotFound)
                && final(self)@ == old(self)@,
    {
        if command_id < 1 || command_id as u64 > self.rows.len() as u64 {
            return Err(ApiError::NotFound);
        }
        let k: usize = (command_id - 1) as usize;
        let mut c = self.rows[k].duplicate();
        c.completed = true;
        self.rows.set(k, c);
        assert(self@ =~= completed_at(old(self)@, command_id - 1));
        Ok(())
    }
}

} // verus!
