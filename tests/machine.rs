use tiny_cpu::cpu::Cpu;
use tiny_cpu::fault::Fault;
use tiny_cpu::isa::{AddressingMode, Instruction, Opcode};
use tiny_cpu::memory::Memory;
use tiny_cpu::registers::{Flags, Registers};

fn cpu_with(program: &[u8]) -> Cpu {
    let mut cpu = Cpu::default();
    for (i, b) in program.iter().enumerate() {
        cpu.memory.write(i as u16, *b).unwrap();
    }
    cpu
}

fn imm(opcode: Opcode, reg1: u8, data: u8) -> Instruction {
    Instruction { opcode, mode: AddressingMode::Immediate, reg1, reg2: 0, data: Some(data) }
}

fn reg(opcode: Opcode, reg1: u8, reg2: u8) -> Instruction {
    Instruction { opcode, mode: AddressingMode::Register, reg1, reg2, data: None }
}

#[test]
fn load_then_halt_scenario() {
    let mut cpu = cpu_with(&[0x00, 0x00, 0x01, 0x7F]);
    assert_eq!(cpu.run(), Ok(()));
    assert_eq!(cpu.registers.general[0], 1);
    assert!(!cpu.running);
}

#[test]
fn jump_then_halt_scenario() {
    let mut cpu = cpu_with(&[0x30, 0x00, 0x05, 0x00, 0x00, 0x7F]);
    assert_eq!(cpu.run(), Ok(()));
    assert_eq!(cpu.registers.pc, 8);
    assert!(!cpu.running);
}

#[test]
fn invalid_opcode_scenario() {
    let mut cpu = cpu_with(&[0x99]);
    assert_eq!(cpu.run(), Err(Fault::InvalidOpcode));
    assert!(!cpu.running);
    assert_eq!(cpu.current_instruction, None);
    assert_eq!(cpu.registers.pc, 3);
}

#[test]
fn fault_program_counter_out_of_bounds() {
    let mut cpu = Cpu::new(Memory::from_image(vec![0x70, 0x40]));
    assert_eq!(cpu.step(), Ok(()));
    assert_eq!(cpu.run(), Err(Fault::ProgramCounterOutOfBounds));
    assert_eq!(cpu.registers.pc, 2);
}

#[test]
fn fault_missing_operand_byte() {
    let mut cpu = Cpu::new(Memory::from_image(vec![0x70]));
    assert_eq!(cpu.run(), Err(Fault::MissingOperandByte));
    assert_eq!(cpu.registers.pc, 1);
}

#[test]
fn fault_missing_data_byte() {
    let mut cpu = Cpu::new(Memory::from_image(vec![0x00, 0x00]));
    assert_eq!(cpu.run(), Err(Fault::MissingDataByte));
    assert_eq!(cpu.registers.pc, 2);
}

#[test]
fn fault_invalid_register_number() {
    let mut cpu = cpu_with(&[0x14, 0b0111_1000]);
    assert_eq!(cpu.run(), Err(Fault::InvalidRegisterNumber));
    let mut cpu = cpu_with(&[0x14, 0b0100_0111]);
    assert_eq!(cpu.fetch_instruction(), Err(Fault::InvalidRegisterNumber));
}

#[test]
fn fault_division_by_zero_changes_nothing_else() {
    let mut cpu = cpu_with(&[0x13, 0x00, 0x00, 0x7F]);
    cpu.registers.general[0] = 9;
    assert_eq!(cpu.run(), Err(Fault::DivisionByZero));
    assert_eq!(cpu.registers.general[0], 9);
    assert!(!cpu.running);
    assert_eq!(cpu.current_instruction, Some(imm(Opcode::DIV, 0, 0)));
}

#[test]
fn fault_store_outside_memory() {
    let mut cpu = cpu_with(&[0x01, 0x00, 0x07]);
    cpu.registers.general[0] = 256;
    assert_eq!(cpu.run(), Err(Fault::MemoryFault));
}

#[test]
fn fault_pop_on_empty_stack() {
    let mut cpu = cpu_with(&[0x41, 0x40]);
    assert_eq!(cpu.run(), Err(Fault::MemoryFault));
    assert_eq!(cpu.registers.sp, 256);
}

#[test]
fn fault_ret_on_empty_stack() {
    let mut cpu = Cpu::default();
    assert_eq!(cpu.ret(reg(Opcode::RET, 0, 0)), Err(Fault::MemoryFault));
    assert_eq!(cpu.registers.pc, 0);
}

#[test]
fn fault_push_below_address_zero() {
    let mut cpu = Cpu::default();
    cpu.registers.sp = 0;
    assert_eq!(cpu.push_imediate(imm(Opcode::PUSH, 0, 1)), Err(Fault::MemoryFault));
    assert_eq!(cpu.registers.sp, 0);
}

#[test]
fn fault_call_without_room_on_stack() {
    let mut cpu = Cpu::default();
    cpu.registers.sp = 1;
    cpu.registers.pc = 0x0102;
    assert_eq!(cpu.call_imediate(imm(Opcode::CALL, 0, 9)), Err(Fault::MemoryFault));
    assert_eq!(cpu.registers.pc, 0x0102);
    assert_eq!(cpu.registers.sp, 1);
    assert_eq!(cpu.memory.read(0), Ok(0));
}

#[test]
fn memory_read_write_bounds() {
    let mut m = Memory::new(4);
    assert_eq!(m.len(), 4);
    assert_eq!(m.write(3, 7), Ok(()));
    assert_eq!(m.read(3), Ok(7));
    assert_eq!(m.write(4, 7), Err(Fault::MemoryFault));
    assert_eq!(m.read(4), Err(Fault::MemoryFault));
    assert_eq!(m.as_slice(), &[0, 0, 0, 7]);
    assert_eq!(Memory::default().len(), 256);
}

#[test]
fn decode_encode_round_trip() {
    let bytes = [0x24, 0b1101_0011, 0x42];
    let mut cpu = cpu_with(&bytes);
    let i = cpu.fetch_instruction().unwrap();
    assert_eq!(i, Instruction {
        opcode: Opcode::SHL,
        mode: AddressingMode::Memory,
        reg1: 2,
        reg2: 3,
        data: Some(0x42),
    });
    assert_eq!(cpu.registers.pc, 3);
    assert_eq!(i.encode(), bytes.to_vec());

    let bytes = [0x03, 0b1000_1110];
    let mut cpu = cpu_with(&bytes);
    let i = cpu.fetch_instruction().unwrap();
    assert_eq!(i.mode, AddressingMode::Indirect);
    assert_eq!(i.data, None);
    assert_eq!(cpu.registers.pc, 2);
    assert_eq!(i.encode(), bytes.to_vec());
}

#[test]
fn encode_then_decode_every_opcode() {
    let all = [
        0x00u8, 0x01, 0x02, 0x03, 0x10, 0x11, 0x12, 0x13, 0x14, 0x15, 0x20, 0x21, 0x22, 0x23,
        0x24, 0x25, 0x30, 0x31, 0x32, 0x33, 0x34, 0x35, 0x40, 0x41, 0x70, 0x7F,
    ];
    let mut known = 0;
    for b in 0..=255u8 {
        match Opcode::from_byte(b) {
            Some(op) => {
                known += 1;
                assert!(all.contains(&b));
                assert_eq!(op.to_byte(), b);
                let i = reg(op, 6, 5);
                let mut cpu = cpu_with(&i.encode());
                assert_eq!(cpu.fetch_instruction(), Ok(i));
            }
            None => assert!(!all.contains(&b)),
        }
    }
    assert_eq!(known, 26);
}

#[test]
fn addressing_mode_codes() {
    assert_eq!(AddressingMode::from_byte(0), Some(AddressingMode::Immediate));
    assert_eq!(AddressingMode::from_byte(1), Some(AddressingMode::Register));
    assert_eq!(AddressingMode::from_byte(2), Some(AddressingMode::Indirect));
    assert_eq!(AddressingMode::from_byte(3), Some(AddressingMode::Memory));
    assert_eq!(AddressingMode::from_byte(4), None);
    assert_eq!(AddressingMode::Memory.code_byte(), 3);
    assert!(AddressingMode::Memory.carries_data());
    assert!(!AddressingMode::Indirect.carries_data());
}

#[test]
fn load_sets_zero_flag_from_value() {
    let mut cpu = Cpu::default();
    cpu.registers.general[4] = 0x1234;
    cpu.load_imediate(imm(Opcode::LOAD, 4, 0));
    assert_eq!(cpu.registers.general[4], 0);
    assert!(cpu.flags.zero);
    cpu.mov_imediate(imm(Opcode::MOV, 4, 0xFF));
    assert_eq!(cpu.registers.general[4], 0x00FF);
    assert!(!cpu.flags.zero);
    assert!(!cpu.flags.negative);
}

#[test]
fn add_wraps_and_sets_carry() {
    let mut cpu = Cpu::default();
    cpu.registers.general[1] = 0xFFF0;
    cpu.add_imediate(imm(Opcode::ADD, 1, 0x10));
    assert_eq!(cpu.registers.general[1], 0);
    assert!(cpu.flags.zero && cpu.flags.carry && cpu.flags.overflow);
    cpu.add_imediate(imm(Opcode::ADD, 1, 0x05));
    assert_eq!(cpu.registers.general[1], 5);
    assert!(!cpu.flags.zero && !cpu.flags.carry && !cpu.flags.overflow);
    cpu.registers.general[1] = 0x7FFF;
    cpu.add_imediate(imm(Opcode::ADD, 1, 1));
    assert!(cpu.flags.negative && !cpu.flags.carry);
}

#[test]
fn add_without_data_changes_nothing() {
    let mut cpu = Cpu::default();
    cpu.registers.general[0] = 3;
    cpu.add_imediate(reg(Opcode::ADD, 0, 0));
    assert_eq!(cpu.registers.general[0], 3);
    assert_eq!(cpu.flags, Flags::default());
}

#[test]
fn sub_borrow_and_dec_wrap() {
    let mut cpu = Cpu::default();
    cpu.registers.general[0] = 2;
    cpu.sub_imediate(imm(Opcode::SUB, 0, 3));
    assert_eq!(cpu.registers.general[0], 0xFFFF);
    assert!(cpu.flags.carry && cpu.flags.negative);
    cpu.registers.general[2] = 0;
    cpu.dec_register(reg(Opcode::DEC, 2, 0));
    assert_eq!(cpu.registers.general[2], 0xFFFF);
    assert!(cpu.flags.carry);
    cpu.dec_register(reg(Opcode::DEC, 2, 0));
    assert_eq!(cpu.registers.general[2], 0xFFFE);
    assert!(!cpu.flags.carry);
    cpu.registers.general[3] = 0xFFFF;
    cpu.inc_register(reg(Opcode::INC, 3, 0));
    assert_eq!(cpu.registers.general[3], 0);
    assert!(cpu.flags.carry && cpu.flags.zero);
}

#[test]
fn mul_and_div_values_and_flags() {
    let mut cpu = Cpu::default();
    cpu.registers.general[0] = 0x1000;
    cpu.mul_imediate(imm(Opcode::MUL, 0, 0x20));
    assert_eq!(cpu.registers.general[0], 0);
    assert!(cpu.flags.carry && cpu.flags.zero);
    cpu.registers.general[0] = 5;
    cpu.mul_imediate(imm(Opcode::MUL, 0, 3));
    assert_eq!(cpu.registers.general[0], 15);
    assert!(!cpu.flags.carry);
    assert_eq!(cpu.div_imediate(imm(Opcode::DIV, 0, 4)), Ok(()));
    assert_eq!(cpu.registers.general[0], 3);
    assert!(!cpu.flags.carry && !cpu.flags.overflow);
}

#[test]
fn logic_and_shifts() {
    let mut cpu = Cpu::default();
    cpu.registers.general[6] = 0xFF0F;
    cpu.and_imediate(imm(Opcode::AND, 6, 0xF0));
    assert_eq!(cpu.registers.general[6], 0x0000);
    assert!(cpu.flags.zero);
    cpu.registers.general[6] = 0x8000;
    cpu.or_imediate(imm(Opcode::OR, 6, 0x01));
    assert_eq!(cpu.registers.general[6], 0x8001);
    assert!(cpu.flags.negative);
    cpu.xor_imediate(imm(Opcode::XOR, 6, 0xFF));
    assert_eq!(cpu.registers.general[6], 0x80FE);
    cpu.not_register(reg(Opcode::NOT, 6, 0));
    assert_eq!(cpu.registers.general[6], 0x7F01);
    assert!(!cpu.flags.negative);
    cpu.shl_imediate(imm(Opcode::SHL, 6, 4));
    assert_eq!(cpu.registers.general[6], 0xF010);
    cpu.shr_imediate(imm(Opcode::SHR, 6, 15));
    assert_eq!(cpu.registers.general[6], 1);
    cpu.shl_imediate(imm(Opcode::SHL, 6, 16));
    assert_eq!(cpu.registers.general[6], 0);
    cpu.registers.general[6] = 0xFFFF;
    cpu.shr_imediate(imm(Opcode::SHR, 6, 200));
    assert_eq!(cpu.registers.general[6], 0);
}

#[test]
fn swap_keeps_flags() {
    let mut cpu = Cpu::default();
    cpu.flags.carry = true;
    cpu.flags.zero = true;
    cpu.registers.general[3] = 0xABCD;
    cpu.registers.general[6] = 0x0001;
    let before = cpu.flags;
    cpu.swap_register(reg(Opcode::SWAP, 3, 6));
    assert_eq!(cpu.registers.general[3], 0x0001);
    assert_eq!(cpu.registers.general[6], 0xABCD);
    assert_eq!(cpu.flags, before);
}

#[test]
fn register_six_is_addressable() {
    let mut cpu = cpu_with(&[0x00, 0b0011_0000, 0x2A, 0x7F, 0x40]);
    assert_eq!(cpu.run(), Ok(()));
    assert_eq!(cpu.registers.general[6], 0x2A);
    assert_eq!(cpu.registers.general[5], 0);
    assert_eq!(cpu.registers.get(6), 0x2A);
    assert_eq!(cpu.registers.len(), 7);
}

#[test]
fn push_then_pop_restores_stack_pointer() {
    let mut cpu = Cpu::default();
    let sp = cpu.registers.sp;
    assert_eq!(cpu.push_imediate(imm(Opcode::PUSH, 0, 0xC8)), Ok(()));
    assert_eq!(cpu.registers.sp, sp - 1);
    assert_eq!(cpu.pop_register(reg(Opcode::POP, 2, 0)), Ok(()));
    assert_eq!(cpu.registers.sp, sp);
    assert_eq!(cpu.registers.general[2], 0x00C8);
    assert!(!cpu.flags.zero);
}

#[test]
fn call_then_ret_returns_past_call() {
    // CALL 16 at address 4; RET at 16.
    let mut cpu = cpu_with(&[0x70, 0x40, 0x70, 0x40, 0x34, 0x00, 0x10]);
    cpu.memory.write(16, 0x35).unwrap();
    cpu.memory.write(17, 0x40).unwrap();
    let sp = cpu.registers.sp;
    for _ in 0..3 {
        assert_eq!(cpu.step(), Ok(()));
    }
    assert_eq!(cpu.registers.pc, 16);
    assert_eq!(cpu.registers.sp, sp - 2);
    assert_eq!(cpu.step(), Ok(()));
    assert_eq!(cpu.registers.pc, 7);
    assert_eq!(cpu.registers.sp, sp);
}

#[test]
fn call_pushes_high_then_low_byte() {
    let mut cpu = Cpu::default();
    cpu.registers.pc = 0x0123;
    assert_eq!(cpu.call_imediate(imm(Opcode::CALL, 0, 0x40)), Ok(()));
    assert_eq!(cpu.registers.pc, 0x40);
    assert_eq!(cpu.registers.sp, 254);
    assert_eq!(cpu.memory.read(254), Ok(0x23));
    assert_eq!(cpu.memory.read(255), Ok(0x01));
    assert_eq!(cpu.ret(reg(Opcode::RET, 0, 0)), Ok(()));
    assert_eq!(cpu.registers.pc, 0x0123);
    assert_eq!(cpu.registers.sp, 256);
}

#[test]
fn conditional_jumps_not_taken() {
    let mut cpu = Cpu::default();
    cpu.flags.zero = false;
    cpu.flags.carry = false;
    cpu.jz_imediate(imm(Opcode::JZ, 0, 9));
    cpu.jc_imediate(imm(Opcode::JC, 0, 9));
    assert_eq!(cpu.registers.pc, 0);
    cpu.flags.zero = true;
    cpu.jnz_imediate(imm(Opcode::JNZ, 0, 9));
    assert_eq!(cpu.registers.pc, 0);
    cpu.jmp_imediate(imm(Opcode::JMP, 0, 9));
    assert_eq!(cpu.registers.pc, 9);
}

#[test]
fn run_for_stops_after_budget() {
    // JMP 0: loops for ever.
    let mut cpu = cpu_with(&[0x30, 0x00, 0x00]);
    assert_eq!(cpu.run_for(10), Ok(()));
    assert!(cpu.running);
    assert_eq!(cpu.registers.pc, 0);
    cpu.halt();
    assert_eq!(cpu.run_for(10), Ok(()));
    assert_eq!(cpu.registers.pc, 0);
}

#[test]
fn fresh_machine_state() {
    let cpu = Cpu::default();
    assert_eq!(cpu.registers.sp, 256);
    assert_eq!(cpu.registers.pc, 0);
    assert_eq!(cpu.flags, Flags::default());
    assert!(cpu.running);
    let r = Registers::new(40);
    assert_eq!(r.sp, 40);
    assert_eq!(r.general, [0; 8]);
    let mut r = Registers::default();
    r.set(7, 11);
    assert_eq!(r.get(7), 11);
    let cpu = Cpu::new(Memory::new(16));
    assert_eq!(cpu.registers.sp, 16);
}

#[test]
fn fetch_reads_and_advances() {
    let mut cpu = cpu_with(&[0xAB, 0xCD]);
    assert_eq!(cpu.fetch(), 0xAB);
    assert_eq!(cpu.fetch(), 0xCD);
    assert_eq!(cpu.registers.pc, 2);
}

#[test]
fn nop_changes_nothing() {
    let mut cpu = Cpu::default();
    cpu.registers.general[1] = 4;
    cpu.nop(reg(Opcode::NOP, 0, 0));
    assert_eq!(cpu.registers.general[1], 4);
    assert_eq!(cpu.registers.pc, 0);
    assert_eq!(cpu.execute(reg(Opcode::NOP, 1, 1)), Ok(()));
    assert_eq!(cpu.current_instruction, Some(reg(Opcode::NOP, 1, 1)));
}
