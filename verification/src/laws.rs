//! General theorems of the instruction set: facts that hold of every
//! instruction word and of every well-formed machine state, proved once and
//! for all rather than checked on examples.

use vstd::prelude::*;

use crate::model::decode;
use crate::model::machine_step;
use crate::model::op_c;
use crate::model::op_d;
use crate::model::op_x;
use crate::model::op_y;
use crate::model::wf;
use crate::model::word_at;
use crate::model::word_of_nibbles;
use crate::model::Operation;
use crate::model::State;
use crate::model::Status;
use crate::model::MEMORY_SIZE;
use crate::model::STACK_DEPTH;

verus! {

/// Each nibble of an instruction word is a 4-bit value, so it always names
/// a valid register index.
pub proof fn lemma_nibbles_in_range(w: u16)
    ensures
        op_c(w) < 16,
        op_x(w) < 16,
        op_y(w) < 16,
        op_d(w) < 16,
{
    assert((w & 0xf000) >> 12 < 16) by (bit_vector);
    assert((w & 0x0f00) >> 8 < 16) by (bit_vector);
    assert((w & 0x00f0) >> 4 < 16) by (bit_vector);
    assert(w & 0x000f < 16) by (bit_vector);
}

/// Law: splitting any 16-bit instruction word into its four nibbles and
/// reassembling them, most significant first, gives back the original word.
pub proof fn lemma_nibble_round_trip(w: u16)
    ensures
        word_of_nibbles(op_c(w), op_x(w), op_y(w), op_d(w)) == w,
{
    assert(((((((w & 0xf000) >> 12) as u8) as u16) << 12) | (((((w & 0x0f00) >> 8) as u8)
        as u16) << 8) | (((((w & 0x00f0) >> 4) as u8) as u16) << 4)) | (((w & 0x000f) as u8)
        as u16) == w) by (bit_vector);
}

/// Law: a call whose target holds a return instruction round-trips. From a
/// state about to execute `Call(addr)` with room on the stack, where the
/// word at `addr` decodes to `Ret`, two steps run without fault and leave
/// the program counter at the instruction following the call, the stack
/// pointer at its pre-call value, and memory, registers, and the stack
/// slots below the pre-call pointer untouched.
pub proof fn lemma_call_return_round_trip(s: State, addr: u16)
    requires
        wf(s),
        s.program_counter + 1 < MEMORY_SIZE as int,
        decode(word_at(s.memory, s.program_counter)) == Operation::Call(addr),
        s.stack_pointer < STACK_DEPTH as int,
        addr as int + 1 < MEMORY_SIZE as int,
        decode(word_at(s.memory, addr as int)) == Operation::Ret,
    ensures
        machine_step(s).status == Status::Running,
        machine_step(machine_step(s).state).status == Status::Running,
        machine_step(machine_step(s).state).state.program_counter == s.program_counter + 2,
        machine_step(machine_step(s).state).state.stack_pointer == s.stack_pointer,
        machine_step(machine_step(s).state).state.memory == s.memory,
        machine_step(machine_step(s).state).state.registers == s.registers,
        forall|i: int|
            0 <= i < s.stack_pointer ==> machine_step(machine_step(s).state).state.stack[i]
                == s.stack[i],
{
}

/// Law: on every word that fits one of the four defined patterns, the
/// decoder yields exactly that variant with exactly the nibbles of the word
/// as its payload; a call's payload is the low 12 bits of the word, so it
/// always lies inside memory.
pub proof fn lemma_decode_defined_patterns(w: u16)
    ensures
        w == 0x0000 ==> decode(w) == Operation::Halt,
        w == 0x00EE ==> decode(w) == Operation::Ret,
        op_c(w) == 0x8 && op_d(w) == 0x4 ==> decode(w) == Operation::Add(op_x(w), op_y(w)),
        op_c(w) == 0x2 ==> decode(w) == Operation::Call(w & 0x0fff),
        w & 0x0fff < MEMORY_SIZE as u16,
{
    assert((0x0000u16 & 0xf000) >> 12 == 0 && (0x0000u16 & 0x0f00) >> 8 == 0 && (0x0000u16
        & 0x00f0) >> 4 == 0 && 0x0000u16 & 0x000f == 0) by (bit_vector);
    assert((0x00EEu16 & 0xf000) >> 12 == 0 && (0x00EEu16 & 0x0f00) >> 8 == 0 && (0x00EEu16
        & 0x00f0) >> 4 == 0xE && 0x00EEu16 & 0x000f == 0xE) by (bit_vector);
    assert(w & 0x0fff < 0x1000) by (bit_vector);
}

/// Law: every step from a well-formed state leaves a well-formed state, so
/// the sizes of memory, registers, and stack, and the bounds of the stack
/// pointer, are invariants of execution.
pub proof fn lemma_step_preserves_wf(s: State)
    requires
        wf(s),
    ensures
        wf(machine_step(s).state),
{
    if s.program_counter + 1 < MEMORY_SIZE as int {
        lemma_nibbles_in_range(word_at(s.memory, s.program_counter));
    }
}

} // verus!
