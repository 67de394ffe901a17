use vstd::prelude::*;
use crate::command::{AbortReason, CleaningPattern, Instruction};
use crate::error::ApiError;

verus! {

/// The stored text of an instruction: a quoted tag for the variants without
/// payload, an object from tag to payload for the others.
pub open spec fn instruction_text(i: Instruction) -> Seq<char> {
    match i {
        Instruction::Continue => "\"Continue\""@,
        Instruction::Pause => "\"Pause\""@,
        Instruction::Idle => "\"Idle\""@,
        Instruction::Abort(AbortReason::LowBattery) => "{\"Abort\":\"LowBattery\"}"@,
        Instruction::Abort(AbortReason::Safety) => "{\"Abort\":\"Safety\"}"@,
        Instruction::Abort(AbortReason::Obstacle) => "{\"Abort\":\"Obstacle\"}"@,
        Instruction::Task(CleaningPattern::ZigZag) => "{\"Task\":\"ZigZag\"}"@,
        Instruction::Task(CleaningPattern::Circular) => "{\"Task\":\"Circular\"}"@,
    }
}

/// The stored text of an instruction.
pub fn encode_instruction(i: &Instruction) -> (r: String)
    ensures
        r@ == instruction_text(*i),
{
    match i {
        Instruction::Continue => String::from_str("\"Continue\""),
        Instruction::Pause => String::from_str("\"Pause\""),
        Instruction::Idle => String::from_str("\"Idle\""),
        Instruction::Abort(AbortReason::LowBattery) => String::from_str("{\"Abort\":\"LowBattery\"}"),
        Instruction::Abort(AbortReason::Safety) => String::from_str("{\"Abort\":\"Safety\"}"),
        Instruction::Abort(AbortReason::Obstacle) => String::from_str("{\"Abort\":\"Obstacle\"}"),
        Instruction::Task(CleaningPattern::ZigZag) => String::from_str("{\"Task\":\"ZigZag\"}"),
        Instruction::Task(CleaningPattern::Circular) => String::from_str("{\"Task\":\"Circular\"}"),
    }
}

/// `r` is what reading back the text `s` gives: the instruction stored as
/// `s`, or `CorruptedRecord` when `s` is no instruction's text.
pub open spec fn decoded(s: Seq<char>, r: Result<Instruction, ApiError>) -> bool {
    match r {
        Ok(i) => instruction_text(i) == s,
        Err(e) => e == ApiError::CorruptedRecord && forall|i: Instruction|
            #[trigger] instruction_text(i) != s,
    }
}

/// Reads a stored instruction back; text that is no instruction's is a
/// corrupted record, never a guessed instruction.
pub fn decode_instruction(s: &str) -> (r: Result<Instruction, ApiError>)
    ensures
        decoded(s@, r),
{
    let t = s.to_owned();
    let candidates: [Instruction; 8] = [
        Instruction::Continue,
        Instruction::Pause,
        Instruction::Idle,
        Instruction::Abort(AbortReason::LowBattery),
        Instruction::Abort(AbortReason::Safety),
        Instruction::Abort(AbortReason::Obstacle),
        Instruction::Task(CleaningPattern::ZigZag),
        Instruction::Task(CleaningPattern::Circular),
    ];
    let mut k: usize = 0;
    while k < 8
        invariant
            k <= 8,
            t@ == s@,
            candidates@ == seq![
                Instruction::Continue,
                Instruction::Pause,
                Instruction::Idle,
                Instruction::Abort(AbortReason::LowBattery),
                Instruction::Abort(AbortReason::Safety),
                Instruction::Abort(AbortReason::Obstacle),
                Instruction::Task(CleaningPattern::ZigZag),
                Instruction::Task(CleaningPattern::Circular),
            ],
            forall|j: int| 0 <= j < k ==> instruction_text(#[trigger] candidates@[j]) != s@,
        decreases 8 - k,
    {
        let c: Instruction = candidates[k];
        if encode_instruction(&c) == t {
            return Ok(c);
        }
        k = k + 1;
    }
    assert forall|i: Instruction| #[trigger] instruction_text(i) != s@ by {
        match i {
            Instruction::Continue => assert(candidates@[0] == i),
            Instruction::Pause => assert(candidates@[1] == i),
            Instruction::Idle => assert(candidates@[2] == i),
            Instruction::Abort(AbortReason::LowBattery) => assert(candidates@[3] == i),
            Instruction::Abort(AbortReason::Safety) => assert(candidates@[4] == i),
            Instruction::Abort(AbortReason::Obstacle) => assert(candidates@[5] == i),
            Instruction::Task(CleaningPattern::ZigZag) => assert(candidates@[6] == i),
            Instruction::Task(CleaningPattern::Circular) => assert(candidates@[7] == i),
        }
    }
    Err(ApiError::CorruptedRecord)
}

/// Distinct instructions are stored as distinct texts.
pub proof fn lemma_instruction_text_injective(a: Instruction, b: Instruction)
    ensures
        instruction_text(a) == instruction_text(b) ==> a == b,
{
    reveal_strlit("\"Continue\"");
    reveal_strlit("\"Pause\"");
    reveal_strlit("\"Idle\"");
    reveal_strlit("{\"Abort\":\"LowBattery\"}");
    reveal_strlit("{\"Abort\":\"Safety\"}");
    reveal_strlit("{\"Abort\":\"Obstacle\"}");
    reveal_strlit("{\"Task\":\"ZigZag\"}");
    reveal_strlit("{\"Task\":\"Circular\"}");
    if instruction_text(a) == instruction_text(b) {
        let ta = instruction_text(a);
        let tb = instruction_text(b);
        assert(ta.len() == tb.len());
        assert(ta[1] == tb[1]);
        assert(ta[2] == tb[2]);
        assert(ta[ta.len() - 3] == tb[tb.len() - 3]);
        assert(ta[ta.len() - 4] == tb[tb.len() - 4]);
    }
}

/// Reading back the stored text of an instruction gives the instruction.
pub proof fn lemma_instruction_round_trip(i: Instruction, r: Result<Instruction, ApiError>)
    requires
        decoded(instruction_text(i), r),
    ensures
        r == Ok::<Instruction, ApiError>(i),
{
    match r {
        Ok(j) => lemma_instruction_text_injective(i, j),
        Err(_) => assert(instruction_text(i) != instruction_text(i)),
    }
}

} // verus!
