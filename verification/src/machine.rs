//! The executable CPU: a fetch-decode-execute machine whose every method is
//! proved against the transition functions of the model.

use vstd::prelude::*;

use crate::laws::lemma_nibbles_in_range;
use crate::model::decode;
use crate::model::regs_after_add;
use crate::model::run_spec;
use crate::model::wf;
use crate::model::word_at;
use crate::model::Operation;
use crate::model::State;
use crate::model::Status;
use crate::model::VmFault;
use crate::model::CARRY_REGISTER;
use crate::model::MEMORY_SIZE;
use crate::model::REGISTER_COUNT;
use crate::model::STACK_DEPTH;

verus! {

/// The machine. The last register is reserved by convention as the carry
/// flag of additions. The stack holds saved program counters as 16-bit
/// values; the stack pointer indexes the next free slot, so 0 means empty
/// and `STACK_DEPTH` means full.
pub struct CPU {
    memory: Vec<u8>,
    registers: Vec<u8>,
    program_counter: usize,
    stack: Vec<u16>,
    stack_pointer: usize,
}

impl View for CPU {
    type V = State;

    closed spec fn view(&self) -> State {
        State {
            memory: self.memory@,
            registers: self.registers@,
            program_counter: self.program_counter as int,
            stack: self.stack@,
            stack_pointer: self.stack_pointer as int,
        }
    }
}

/// A vector of `len` copies of `value`.
fn filled<T: Copy>(len: usize, value: T) -> (v: Vec<T>)
    ensures
        v@.len() == len,
        forall|j: int| 0 <= j < len ==> v@[j] == value,
{
    let mut v: Vec<T> = Vec::new();
    let mut i: usize = 0;
    while i < len
        invariant
            i <= len,
            v@.len() == i,
            forall|j: int| 0 <= j < i ==> v@[j] == value,
        decreases len - i,
    {
        v.push(value);
        i = i + 1;
    }
    v
}

impl CPU {
    /// A machine with all memory, registers, and stack slots zero, the
    /// program counter at address 0, and an empty stack.
    pub fn new() -> (cpu: CPU)
        ensures
            wf(cpu@),
            forall|i: int| 0 <= i < MEMORY_SIZE ==> cpu@.memory[i] == 0,
            forall|i: int| 0 <= i < REGISTER_COUNT ==> cpu@.registers[i] == 0,
            forall|i: int| 0 <= i < STACK_DEPTH ==> cpu@.stack[i] == 0,
            cpu@.program_counter == 0,
            cpu@.stack_pointer == 0,
    {
        CPU {
            memory: filled(MEMORY_SIZE, 0u8),
            registers: filled(REGISTER_COUNT, 0u8),
            program_counter: 0,
            stack: filled(STACK_DEPTH, 0u16),
            stack_pointer: 0,
        }
    }

    /// The instruction word at the current program counter: the byte at the
    /// counter is the most significant half, the next byte the least.
    pub fn read_opcode(&self) -> (word: u16)
        requires
            wf(self@),
            self@.program_counter + 1 < MEMORY_SIZE as int,
        ensures
            word == word_at(self@.memory, self@.program_counter),
    {
        let part1 = self.memory[self.program_counter] as u16;
        let part2 = self.memory[self.program_counter + 1] as u16;
        (part1 << 8) | part2
    }

    /// Decode the instruction at the current program counter into its
    /// operation. Pure: reads memory and the counter, changes nothing, and
    /// never fails, since unrecognized words decode to `Unknown`.
    pub fn decode_opcode(&self) -> (op: Operation)
        requires
            wf(self@),
            self@.program_counter + 1 < MEMORY_SIZE as int,
        ensures
            op == decode(word_at(self@.memory, self@.program_counter)),
    {
        let instruction = self.read_opcode();
        proof {
            assert((instruction & 0xf000) >> 12 < 256) by (bit_vector);
            assert((instruction & 0x0f00) >> 8 < 256) by (bit_vector);
            assert((instruction & 0x00f0) >> 4 < 256) by (bit_vector);
            assert(instruction & 0x000f < 256) by (bit_vector);
        }
        let c = ((instruction & 0xf000) >> 12) as u8;
        let x = ((instruction & 0x0f00) >> 8) as u8;
        let y = ((instruction & 0x00f0) >> 4) as u8;
        let d = (instruction & 0x000f) as u8;

        match (c, x, y, d) {
            (0, 0, 0, 0) => Operation::Halt,
            (0x8, _, _, 0x4) => Operation::Add(x, y),
            (0x2, _, _, _) => Operation::Call(instruction & 0x0fff),
            (0, 0, 0xE, 0xE) => Operation::Ret,
            _ => Operation::Unknown(c, x, y, d),
        }
    }

    /// Add register `y` into register `x` with 8-bit wraparound, and set
    /// the carry register to 1 exactly when the sum overflowed 8 bits, else
    /// to 0. Both operands are read before either register is written, so
    /// the carry register may serve as an operand; when `x` is the carry
    /// register itself, the flag overwrites the stored sum.
    pub fn add_xy(&mut self, x: u8, y: u8)
        requires
            wf(old(self)@),
            (x as int) < REGISTER_COUNT as int,
            (y as int) < REGISTER_COUNT as int,
        ensures
            wf(final(self)@),
            final(self)@.registers == regs_after_add(old(self)@.registers, x as int, y as int),
            final(self)@.memory == old(self)@.memory,
            final(self)@.program_counter == old(self)@.program_counter,
            final(self)@.stack == old(self)@.stack,
            final(self)@.stack_pointer == old(self)@.stack_pointer,
    {
        let arg1 = self.registers[x as usize];
        let arg2 = self.registers[y as usize];

        let total = arg1 as u16 + arg2 as u16;
        self.registers[x as usize] = (total % 256) as u8;

        if total > 255 {
            self.registers[CARRY_REGISTER] = 1;
        } else {
            self.registers[CARRY_REGISTER] = 0;
        }
    }

    /// Push the current program counter onto the stack and jump to `addr`.
    /// Refused with a stack-overflow fault, the machine left unchanged,
    /// exactly when the stack is already full; the boundary is strict, so
    /// every slot written lies inside the stack.
    pub fn call(&mut self, addr: u16) -> (r: Result<(), VmFault>)
        requires
            wf(old(self)@),
            old(self)@.program_counter <= u16::MAX as int,
        ensures
            wf(final(self)@),
            final(self)@.memory == old(self)@.memory,
            final(self)@.registers == old(self)@.registers,
            old(self)@.stack_pointer >= STACK_DEPTH as int ==> r == Err::<(), VmFault>(
                VmFault::StackOverflow,
            ) && final(self)@ == old(self)@,
            old(self)@.stack_pointer < STACK_DEPTH as int ==> r == Ok::<(), VmFault>(())
                && final(self)@.stack == old(self)@.stack.update(
                old(self)@.stack_pointer,
                old(self)@.program_counter as u16,
            ) && final(self)@.stack_pointer == old(self)@.stack_pointer + 1 && final(self)@.program_counter
                == addr as int,
    {
        if self.stack_pointer >= STACK_DEPTH {
            return Err(VmFault::StackOverflow);
        }
        self.stack[self.stack_pointer] = self.program_counter as u16;
        self.stack_pointer = self.stack_pointer + 1;
        self.program_counter = addr as usize;
        Ok(())
    }

    /// Pop the most recently saved return address into the program counter.
    /// Refused with a stack-underflow fault, the machine left unchanged,
    /// exactly when the stack is empty.
    pub fn ret(&mut self) -> (r: Result<(), VmFault>)
        requires
            wf(old(self)@),
        ensures
            wf(final(self)@),
            final(self)@.memory == old(self)@.memory,
            final(self)@.registers == old(self)@.registers,
            final(self)@.stack == old(self)@.stack,
            old(self)@.stack_pointer == 0 ==> r == Err::<(), VmFault>(VmFault::StackUnderflow)
                && final(self)@ == old(self)@,
            old(self)@.stack_pointer > 0 ==> r == Ok::<(), VmFault>(()) && final(self)@.stack_pointer
                == old(self)@.stack_pointer - 1 && final(self)@.program_counter == old(
                self,
            )@.stack[old(self)@.stack_pointer - 1] as int,
    {
        if self.stack_pointer == 0 {
            return Err(VmFault::StackUnderflow);
        }
        self.stack_pointer = self.stack_pointer - 1;
        self.program_counter = self.stack[self.stack_pointer] as usize;
        Ok(())
    }

    /// Execute instructions from the current state for at most `max_steps`
    /// of them: decode, advance the counter past the instruction, dispatch,
    /// repeat. Returns `Halted` on the halt instruction, `Faulted` on a
    /// fatal condition, and `Running` when the budget ran out first; the
    /// final machine is exactly what the model's bounded run prescribes.
    /// The explicit budget is what makes termination provable; the
    /// instruction set itself has no watchdog.
    pub fn run(&mut self, max_steps: u64) -> (status: Status)
        requires
            wf(old(self)@),
        ensures
            wf(final(self)@),
            status == run_spec(old(self)@, max_steps as nat).status,
            final(self)@ == run_spec(old(self)@, max_steps as nat).state,
    {
        let ghost s0 = self@;
        let mut remaining: u64 = max_steps;
        loop
            invariant
                wf(self@),
                s0 == old(self)@,
                run_spec(s0, max_steps as nat) == run_spec(self@, remaining as nat),
            decreases remaining,
        {
            if remaining == 0 {
                return Status::Running;
            }
            if self.program_counter >= MEMORY_SIZE - 1 {
                return Status::Faulted(VmFault::ProgramCounterOutOfRange);
            }
            let op = self.decode_opcode();
            proof {
                lemma_nibbles_in_range(word_at(self@.memory, self@.program_counter));
            }
            self.program_counter = self.program_counter + 2;
            remaining = remaining - 1;
            match op {
                Operation::Halt => {
                    return Status::Halted;
                },
                Operation::Add(x, y) => {
                    self.add_xy(x, y);
                },
                Operation::Call(addr) => {
                    if let Err(fault) = self.call(addr) {
                        return Status::Faulted(fault);
                    }
                },
                Operation::Ret => {
                    if let Err(fault) = self.ret() {
                        return Status::Faulted(fault);
                    }
                },
                Operation::Unknown(_, _, _, _) => {
                    return Status::Faulted(VmFault::IllegalInstruction);
                },
            }
        }
    }

    /// Write one byte of memory; part of the privileged setup phase that
    /// loads a program image before the run loop takes over.
    pub fn write_memory(&mut self, addr: usize, value: u8)
        requires
            wf(old(self)@),
            addr < MEMORY_SIZE,
        ensures
            wf(final(self)@),
            final(self)@.memory == old(self)@.memory.update(addr as int, value),
            final(self)@.registers == old(self)@.registers,
            final(self)@.program_counter == old(self)@.program_counter,
            final(self)@.stack == old(self)@.stack,
            final(self)@.stack_pointer == old(self)@.stack_pointer,
    {
        self.memory[addr] = value;
    }

    /// Read one byte of memory.
    pub fn read_memory(&self, addr: usize) -> (value: u8)
        requires
            wf(self@),
            addr < MEMORY_SIZE,
        ensures
            value == self@.memory[addr as int],
    {
        self.memory[addr]
    }

    /// Write one register; part of the privileged setup phase.
    pub fn write_register(&mut self, index: usize, value: u8)
        requires
            wf(old(self)@),
            index < REGISTER_COUNT,
        ensures
            wf(final(self)@),
            final(self)@.registers == old(self)@.registers.update(index as int, value),
            final(self)@.memory == old(self)@.memory,
            final(self)@.program_counter == old(self)@.program_counter,
            final(self)@.stack == old(self)@.stack,
            final(self)@.stack_pointer == old(self)@.stack_pointer,
    {
        self.registers[index] = value;
    }

    /// Read one register.
    pub fn read_register(&self, index: usize) -> (value: u8)
        requires
            wf(self@),
            index < REGISTER_COUNT,
        ensures
            value == self@.registers[index as int],
    {
        self.registers[index]
    }

    /// The current program counter.
    pub fn program_counter(&self) -> (pc: usize)
        ensures
            pc as int == self@.program_counter,
    {
        self.program_counter
    }

    /// The current stack pointer: the number of return addresses saved.
    pub fn stack_pointer(&self) -> (sp: usize)
        ensures
            sp as int == self@.stack_pointer,
    {
        self.stack_pointer
    }
}

} // verus!
