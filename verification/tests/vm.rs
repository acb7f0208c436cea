use micro_vm::machine::CPU;
use micro_vm::model::Operation;
use micro_vm::model::Status;
use micro_vm::model::VmFault;

/// Write a 16-bit instruction word at the given address, high byte first.
fn write_word(cpu: &mut CPU, addr: usize, word: u16) {
    cpu.write_memory(addr, (word >> 8) as u8);
    cpu.write_memory(addr + 1, (word & 0xff) as u8);
}

fn cpu_with_word(word: u16) -> CPU {
    let mut cpu = CPU::new();
    write_word(&mut cpu, 0, word);
    cpu
}

#[test]
fn new_machine_is_zeroed() {
    let cpu = CPU::new();
    for i in 0..16 {
        assert_eq!(cpu.read_register(i), 0);
    }
    assert_eq!(cpu.read_memory(0), 0);
    assert_eq!(cpu.read_memory(0xFFF), 0);
    assert_eq!(cpu.program_counter(), 0);
    assert_eq!(cpu.stack_pointer(), 0);
}

#[test]
fn memory_and_register_access_round_trip() {
    let mut cpu = CPU::new();
    cpu.write_memory(0xFFF, 0xAA);
    assert_eq!(cpu.read_memory(0xFFF), 0xAA);
    cpu.write_register(7, 9);
    assert_eq!(cpu.read_register(7), 9);
}

#[test]
fn read_opcode_combines_bytes_high_first() {
    let cpu = cpu_with_word(0xABCD);
    assert_eq!(cpu.read_opcode(), 0xABCD);
}

#[test]
fn decode_add_pattern() {
    assert_eq!(cpu_with_word(0x8014).decode_opcode(), Operation::Add(0, 1));
    assert_eq!(cpu_with_word(0x8CA4).decode_opcode(), Operation::Add(0xC, 0xA));
}

#[test]
fn decode_call_pattern() {
    assert_eq!(cpu_with_word(0x2100).decode_opcode(), Operation::Call(0x100));
    assert_eq!(cpu_with_word(0x2FFF).decode_opcode(), Operation::Call(0xFFF));
}

#[test]
fn decode_ret_pattern() {
    assert_eq!(cpu_with_word(0x00EE).decode_opcode(), Operation::Ret);
}

#[test]
fn decode_halt_pattern() {
    assert_eq!(cpu_with_word(0x0000).decode_opcode(), Operation::Halt);
}

#[test]
fn decode_unknown_pattern_keeps_nibbles() {
    assert_eq!(
        cpu_with_word(0xF123).decode_opcode(),
        Operation::Unknown(0xF, 0x1, 0x2, 0x3)
    );
    // Ends in 4 but does not start with 8, and starts with 0 but is not
    // 0x0000 or 0x00EE: neither is a defined pattern.
    assert_eq!(
        cpu_with_word(0x7014).decode_opcode(),
        Operation::Unknown(0x7, 0x0, 0x1, 0x4)
    );
    assert_eq!(
        cpu_with_word(0x00EF).decode_opcode(),
        Operation::Unknown(0x0, 0x0, 0xE, 0xF)
    );
}

#[test]
fn add_wraparound_sets_carry() {
    let mut cpu = CPU::new();
    cpu.write_register(0, 255);
    cpu.write_register(1, 1);
    cpu.add_xy(0, 1);
    assert_eq!(cpu.read_register(0), 0);
    assert_eq!(cpu.read_register(0xF), 1);
}

#[test]
fn add_without_overflow_clears_carry() {
    let mut cpu = CPU::new();
    cpu.write_register(0, 3);
    cpu.write_register(1, 6);
    cpu.write_register(0xF, 1);
    cpu.add_xy(0, 1);
    assert_eq!(cpu.read_register(0), 9);
    assert_eq!(cpu.read_register(0xF), 0);
}

#[test]
fn add_doubles_a_register_added_to_itself() {
    let mut cpu = CPU::new();
    cpu.write_register(3, 100);
    cpu.add_xy(3, 3);
    assert_eq!(cpu.read_register(3), 200);
    assert_eq!(cpu.read_register(0xF), 0);
}

#[test]
fn add_reads_carry_register_operand_before_writing_flag() {
    let mut cpu = CPU::new();
    cpu.write_register(0, 100);
    cpu.write_register(0xF, 200);
    cpu.add_xy(0, 0xF);
    // The operand value 200 is read before the flag lands in the register.
    assert_eq!(cpu.read_register(0), 44);
    assert_eq!(cpu.read_register(0xF), 1);
}

#[test]
fn add_flag_wins_when_carry_register_is_the_target() {
    let mut cpu = CPU::new();
    cpu.write_register(0xF, 200);
    cpu.add_xy(0xF, 0xF);
    // 200 + 200 wraps to 144, but the carry flag overwrites the stored sum.
    assert_eq!(cpu.read_register(0xF), 1);
}

#[test]
fn call_return_round_trip() {
    let mut cpu = CPU::new();
    write_word(&mut cpu, 0x000, 0x2100); // call 0x100
    write_word(&mut cpu, 0x002, 0x0000); // halt
    write_word(&mut cpu, 0x100, 0x00EE); // return
    assert_eq!(cpu.run(10), Status::Halted);
    // The return came back to the instruction after the call, whose halt
    // then advanced the counter once more; the stack is back to empty.
    assert_eq!(cpu.program_counter(), 4);
    assert_eq!(cpu.stack_pointer(), 0);
}

#[test]
fn two_call_return_pairs_double_subroutine_effect() {
    let mut cpu = CPU::new();
    cpu.write_register(0, 3);
    cpu.write_register(1, 6);
    write_word(&mut cpu, 0x000, 0x2100); // call 0x100
    write_word(&mut cpu, 0x002, 0x2100); // call 0x100
    write_word(&mut cpu, 0x004, 0x0000); // halt
    write_word(&mut cpu, 0x100, 0x8014); // add reg 1 into reg 0
    write_word(&mut cpu, 0x102, 0x00EE); // return
    assert_eq!(cpu.run(100), Status::Halted);
    assert_eq!(cpu.read_register(0), 15);
    assert_eq!(cpu.read_register(1), 6);
    assert_eq!(cpu.stack_pointer(), 0);
}

#[test]
fn stack_overflow_on_seventeenth_nested_call() {
    let mut cpu = CPU::new();
    // Seventeen call instructions, each the target of the one before it.
    for k in 0..17 {
        let target = (2 * (k + 1)) as u16;
        write_word(&mut cpu, 2 * k, 0x2000 | target);
    }
    assert_eq!(cpu.run(100), Status::Faulted(VmFault::StackOverflow));
    // Sixteen calls filled the stack; the seventeenth was refused with the
    // stack still full, not written past its end.
    assert_eq!(cpu.stack_pointer(), 16);
}

#[test]
fn stack_underflow_on_bare_return() {
    let mut cpu = CPU::new();
    write_word(&mut cpu, 0, 0x00EE);
    assert_eq!(cpu.run(10), Status::Faulted(VmFault::StackUnderflow));
    assert_eq!(cpu.stack_pointer(), 0);
}

#[test]
fn illegal_instruction_faults() {
    let mut cpu = CPU::new();
    write_word(&mut cpu, 0, 0xFFFF);
    assert_eq!(cpu.run(10), Status::Faulted(VmFault::IllegalInstruction));
}

#[test]
fn program_counter_running_past_memory_faults() {
    let mut cpu = CPU::new();
    write_word(&mut cpu, 0, 0x2FFF); // call the last byte of memory
    assert_eq!(
        cpu.run(10),
        Status::Faulted(VmFault::ProgramCounterOutOfRange)
    );
    assert_eq!(cpu.program_counter(), 0xFFF);
}

#[test]
fn zero_budget_leaves_machine_untouched() {
    let mut cpu = CPU::new();
    write_word(&mut cpu, 0, 0x2100);
    assert_eq!(cpu.run(0), Status::Running);
    assert_eq!(cpu.program_counter(), 0);
    assert_eq!(cpu.stack_pointer(), 0);
}

#[test]
fn spent_budget_pauses_mid_program() {
    let mut cpu = CPU::new();
    write_word(&mut cpu, 0x000, 0x2100);
    write_word(&mut cpu, 0x100, 0x00EE);
    assert_eq!(cpu.run(1), Status::Running);
    // One step executed the call; the machine stands at the subroutine.
    assert_eq!(cpu.program_counter(), 0x100);
    assert_eq!(cpu.stack_pointer(), 1);
}

#[test]
fn halt_on_zeroed_memory() {
    let mut cpu = CPU::new();
    assert_eq!(cpu.run(10), Status::Halted);
    assert_eq!(cpu.program_counter(), 2);
}

#[test]
fn end_to_end_demo() {
    let mut cpu = CPU::new();
    cpu.write_register(0, 3);
    cpu.write_register(1, 6);

    cpu.write_memory(0x000, 0x21);
    cpu.write_memory(0x001, 0x00);
    cpu.write_memory(0x002, 0x21);
    cpu.write_memory(0x003, 0x00);
    cpu.write_memory(0x004, 0x00);
    cpu.write_memory(0x005, 0x00);

    cpu.write_memory(0x100, 0x80);
    cpu.write_memory(0x101, 0x14);
    cpu.write_memory(0x102, 0x80);
    cpu.write_memory(0x103, 0x14);
    cpu.write_memory(0x104, 0x00);
    cpu.write_memory(0x105, 0xEE);

    assert_eq!(cpu.run(1000), Status::Halted);
    assert_eq!(cpu.read_register(0), 27);
    assert_eq!(cpu.read_register(1), 6);
    assert_eq!(cpu.read_register(0xF), 0);
}
