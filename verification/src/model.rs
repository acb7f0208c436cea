//! The mathematical model of the machine: its state as plain sequences and
//! integers, the instruction decoder, and the single-step and bounded-run
//! transition functions that the executable code is proved against.

use vstd::prelude::*;

verus! {

/// Size of the byte-addressable memory: addresses run from 0 to 0xFFF.
pub const MEMORY_SIZE: usize = 0x1000;

/// Number of general-purpose 8-bit registers.
pub const REGISTER_COUNT: usize = 16;

/// Number of return-address slots in the call stack.
pub const STACK_DEPTH: usize = 16;

/// Index of the register that receives the carry flag of an addition.
pub const CARRY_REGISTER: usize = 0xF;

/// A decoded instruction. Every 16-bit word decodes to exactly one variant;
/// words outside the four defined patterns decode to `Unknown`, which carries
/// the raw nibbles of the word.
#[derive(Clone, Copy, Debug, PartialEq, Eq, Structural)]
pub enum Operation {
    /// Word 0x0000: stop execution normally.
    Halt,
    /// Words 0x8xy4: add register y into register x with 8-bit wraparound.
    Add(u8, u8),
    /// Words 0x2nnn: push the return address and jump to the 12-bit address.
    Call(u16),
    /// Word 0x00EE: pop the saved return address into the program counter.
    Ret,
    /// Any other word, as its four nibbles from most to least significant.
    Unknown(u8, u8, u8, u8),
}

/// A fatal condition: execution stops abnormally and must not continue past
/// the violating instruction.
#[derive(Clone, Copy, Debug, PartialEq, Eq, Structural)]
pub enum VmFault {
    /// A call was issued while the stack was already full.
    StackOverflow,
    /// A return was issued while the stack was empty.
    StackUnderflow,
    /// An `Unknown` operation reached the dispatcher.
    IllegalInstruction,
    /// The program counter ran past the end of memory without a halt.
    ProgramCounterOutOfRange,
}

/// What a step, or a bounded run, ended as: still running, halted normally,
/// or stopped by a fatal condition.
#[derive(Clone, Copy, Debug, PartialEq, Eq, Structural)]
pub enum Status {
    Running,
    Halted,
    Faulted(VmFault),
}

/// The machine state as mathematical values.
#[verifier::ext_equal]
pub ghost struct State {
    pub memory: Seq<u8>,
    pub registers: Seq<u8>,
    pub program_counter: int,
    pub stack: Seq<u16>,
    pub stack_pointer: int,
}

/// The outcome of one step or of a bounded run: the status it ended with and
/// the state it left behind.
#[verifier::ext_equal]
pub ghost struct StepResult {
    pub status: Status,
    pub state: State,
}

/// Well-formedness of a machine state: the three storage arrays have their
/// fixed sizes and the stack pointer stays within its slots. Every operation
/// preserves it.
pub open spec fn wf(s: State) -> bool {
    &&& s.memory.len() == MEMORY_SIZE
    &&& s.registers.len() == REGISTER_COUNT
    &&& s.stack.len() == STACK_DEPTH
    &&& 0 <= s.program_counter
    &&& 0 <= s.stack_pointer <= STACK_DEPTH
}

/// The 16-bit instruction word at address `pc`: the byte at `pc` is the most
/// significant half, the byte at `pc + 1` the least significant.
pub open spec fn word_at(memory: Seq<u8>, pc: int) -> u16 {
    ((memory[pc] as u16) << 8) | (memory[pc + 1] as u16)
}

/// Nibble of bits 12 to 15 of an instruction word.
pub open spec fn op_c(w: u16) -> u8 {
    ((w & 0xf000) >> 12) as u8
}

/// Nibble of bits 8 to 11 of an instruction word.
pub open spec fn op_x(w: u16) -> u8 {
    ((w & 0x0f00) >> 8) as u8
}

/// Nibble of bits 4 to 7 of an instruction word.
pub open spec fn op_y(w: u16) -> u8 {
    ((w & 0x00f0) >> 4) as u8
}

/// Nibble of bits 0 to 3 of an instruction word.
pub open spec fn op_d(w: u16) -> u8 {
    (w & 0x000f) as u8
}

/// Reassemble an instruction word from its four nibbles, most significant
/// first.
pub open spec fn word_of_nibbles(c: u8, x: u8, y: u8, d: u8) -> u16 {
    (((c as u16) << 12) | ((x as u16) << 8) | ((y as u16) << 4)) | (d as u16)
}

/// Classify an instruction word into its operation. Total: a word that fits
/// none of the four defined patterns yields `Unknown` rather than failing.
pub open spec fn decode(w: u16) -> Operation {
    let c = op_c(w);
    let x = op_x(w);
    let y = op_y(w);
    let d = op_d(w);
    if c == 0 && x == 0 && y == 0 && d == 0 {
        Operation::Halt
    } else if c == 0x8 && d == 0x4 {
        Operation::Add(x, y)
    } else if c == 0x2 {
        Operation::Call(w & 0x0fff)
    } else if c == 0 && x == 0 && y == 0xE && d == 0xE {
        Operation::Ret
    } else {
        Operation::Unknown(c, x, y, d)
    }
}

/// The register file after `Add(x, y)`: the wrapped 8-bit sum of registers
/// `x` and `y` lands in register `x`, and the carry register is then set to
/// 1 exactly when the true sum exceeded 8 bits. Both operands are read
/// before either write, and when `x` is the carry register itself the flag
/// write wins, as the update order shows.
pub open spec fn regs_after_add(regs: Seq<u8>, x: int, y: int) -> Seq<u8> {
    let total = regs[x] as int + regs[y] as int;
    let carry: u8 = if total >= 256 {
        1u8
    } else {
        0u8
    };
    regs.update(x, (total % 256) as u8).update(CARRY_REGISTER as int, carry)
}

/// One fetch-decode-execute step. The program counter is advanced past the
/// instruction before the operation takes effect, so a call saves the
/// address of the instruction after itself. A fetch that would read past
/// the end of memory, a call on a full stack, a return on an empty stack,
/// and an unknown instruction are the four fatal outcomes; a fetch fault
/// leaves the state untouched, the other three leave the counter advanced.
pub open spec fn machine_step(s: State) -> StepResult {
    if s.program_counter + 1 >= MEMORY_SIZE as int {
        StepResult { status: Status::Faulted(VmFault::ProgramCounterOutOfRange), state: s }
    } else {
        let adv = State { program_counter: s.program_counter + 2, ..s };
        match decode(word_at(s.memory, s.program_counter)) {
            Operation::Halt => StepResult { status: Status::Halted, state: adv },
            Operation::Add(x, y) => StepResult {
                status: Status::Running,
                state: State {
                    registers: regs_after_add(adv.registers, x as int, y as int),
                    ..adv
                },
            },
            Operation::Call(addr) => {
                if adv.stack_pointer >= STACK_DEPTH as int {
                    StepResult { status: Status::Faulted(VmFault::StackOverflow), state: adv }
                } else {
                    StepResult {
                        status: Status::Running,
                        state: State {
                            stack: adv.stack.update(
                                adv.stack_pointer,
                                adv.program_counter as u16,
                            ),
                            stack_pointer: adv.stack_pointer + 1,
                            program_counter: addr as int,
                            ..adv
                        },
                    }
                }
            },
            Operation::Ret => {
                if adv.stack_pointer == 0 {
                    StepResult { status: Status::Faulted(VmFault::StackUnderflow), state: adv }
                } else {
                    StepResult {
                        status: Status::Running,
                        state: State {
                            stack_pointer: adv.stack_pointer - 1,
                            program_counter: adv.stack[adv.stack_pointer - 1] as int,
                            ..adv
                        },
                    }
                }
            },
            Operation::Unknown(_, _, _, _) => StepResult {
                status: Status::Faulted(VmFault::IllegalInstruction),
                state: adv,
            },
        }
    }
}

/// Run the machine for at most `fuel` steps: iterate `machine_step` until a
/// step ends with something other than `Running`, or the budget is spent.
/// A result with status `Running` means the budget ran out first.
pub open spec fn run_spec(s: State, fuel: nat) -> StepResult
    decreases fuel,
{
    if fuel == 0 {
        StepResult { status: Status::Running, state: s }
    } else {
        let r = machine_step(s);
        if r.status == Status::Running {
            run_spec(r.state, (fuel - 1) as nat)
        } else {
            r
        }
    }
}

} // verus!
