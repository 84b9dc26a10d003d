use vstd::prelude::*;

use crate::fault::Fault;
use crate::isa::{decode, AddressingMode, Instruction, Opcode, ADDRESSABLE_REGISTERS};
use crate::memory::{Memory, MEMORY_SIZE};
use crate::registers::{Flags, Registers};
use crate::semantics::CpuState;

verus! {

/// A processor with its registers, flags and memory.
#[derive(Debug)]
pub struct Cpu {
    pub registers: Registers,
    pub flags: Flags,
    pub memory: Memory,
    /// The instruction most recently handed to the executor, kept for inspection.
    pub current_instruction: Option<Instruction>,
    /// Cleared by HALT and by a fault.
    pub running: bool,
}

impl View for Cpu {
    type V = CpuState;

    open spec fn view(&self) -> CpuState {
        CpuState {
            regs: self.registers.general@,
            pc: self.registers.pc,
            sp: self.registers.sp,
            bp: self.registers.bp,
            flags: self.flags,
            mem: self.memory@,
            last: self.current_instruction,
            running: self.running,
        }
    }
}

impl Cpu {
    pub open spec fn wf(&self) -> bool {
        self.memory.wf()
    }

    /// A running machine over `memory`: registers zero, flags clear, the
    /// stack pointer one past the end of memory.
    pub fn new(memory: Memory) -> (r: Cpu)
        requires
            memory.wf(),
        ensures
            r.wf(),
            r@ == (CpuState {
                regs: Seq::new(8, |_i: int| 0u16),
                pc: 0,
                sp: memory@.len() as u16,
                bp: 0,
                flags: Flags {
                    zero: false,
                    negative: false,
                    carry: false,
                    overflow: false,
                    interrupt: false,
                },
                mem: memory@,
                last: None,
                running: true,
            }),
    {
        let sp = memory.len() as u16;
        Cpu {
            registers: Registers::new(sp),
            flags: Flags::default(),
            memory,
            current_instruction: None,
            running: true,
        }
    }

    /// Reads the byte at the program counter and moves the program counter past it.
    pub fn fetch(&mut self) -> (r: u8)
        requires
            old(self).wf(),
            old(self).registers.pc < old(self).memory@.len(),
        ensures
            final(self).wf(),
            r == old(self)@.mem[old(self)@.pc as int],
            final(self)@ == (CpuState { pc: (old(self)@.pc + 1) as u16, ..old(self)@ }),
    {
        let pc = self.registers.pc;
        let byte = match self.memory.read(pc) {
            Ok(b) => b,
            Err(_) => 0,
        };
        self.registers.pc = pc + 1;
        byte
    }

    /// Decodes the instruction at the program counter, moving the program
    /// counter past every byte it consumed, also on a fault.
    pub fn fetch_instruction(&mut self) -> (r: Result<Instruction, Fault>)
        requires
            old(self).wf(),
        ensures
            final(self).wf(),
            (r, final(self)@.pc) == decode(old(self)@.mem, old(self)@.pc),
            final(self)@ == (CpuState { pc: final(self)@.pc, ..old(self)@ }),
    {
        let len = self.memory.len();
        if self.registers.pc as usize >= len {
            return Err(Fault::ProgramCounterOutOfBounds);
        }
        let opcode_bin = self.fetch();
        if self.registers.pc as usize >= len {
            return Err(Fault::MissingOperandByte);
        }
        let operands_bin = self.fetch();
        let mode = (operands_bin >> 6) & 0b11;
        let reg1 = (operands_bin >> 3) & 0b111;
        let reg2 = operands_bin & 0b111;
        proof {
            assert((operands_bin >> 6) & 0b11 == operands_bin / 64) by (bit_vector);
            assert((operands_bin >> 3) & 0b111 == (operands_bin / 8) % 8) by (bit_vector);
            assert(operands_bin & 0b111 == operands_bin % 8) by (bit_vector);
        }
        if reg1 >= ADDRESSABLE_REGISTERS || reg2 >= ADDRESSABLE_REGISTERS {
            return Err(Fault::InvalidRegisterNumber);
        }
        let addressing_mode = match AddressingMode::from_byte(mode) {
            Some(m) => m,
            None => AddressingMode::Register,
        };
        let data = if addressing_mode.carries_data() {
            if self.registers.pc as usize >= len {
                return Err(Fault::MissingDataByte);
            }
            Some(self.fetch())
        } else {
            None
        };
        match Opcode::from_byte(opcode_bin) {
            Some(opcode) => Ok(Instruction { opcode, mode: addressing_mode, reg1, reg2, data }),
            None => Err(Fault::InvalidOpcode),
        }
    }

    /// LOAD: `reg1` takes the data byte, zero-extended; `zero` tells whether it is 0.
    pub fn load_imediate(&mut self, instruction: Instruction)
        requires
            old(self).wf(),
            instruction.wf(),
        ensures
            final(self).wf(),
            final(self)@ == old(self)@.load(instruction),
    {
        match instruction.data {
            Some(data) => {
                self.registers.set(instruction.reg1, data as u16);
                self.flags.zero = data == 0;
            },
            None => {},
        }
    }

    /// MOV: as LOAD.
    pub fn mov_imediate(&mut self, instruction: Instruction)
        requires
            old(self).wf(),
            instruction.wf(),
        ensures
            final(self).wf(),
            final(self)@ == old(self)@.load(instruction),
    {
        self.load_imediate(instruction);
    }

    /// STORE: the data byte goes to the address held in `reg1`.
    pub fn store_imediate(&mut self, instruction: Instruction) -> (r: Result<(), Fault>)
        requires
            old(self).wf(),
            instruction.wf(),
        ensures
            final(self).wf(),
            match old(self)@.store(instruction) {
                Ok(t) => r == Ok::<(), Fault>(()) && final(self)@ == t,
                Err(f) => r == Err::<(), Fault>(f) && final(self)@ == old(self)@,
            },
    {
        match instruction.data {
            Some(data) => {
                let address = self.registers.get(instruction.reg1);
                self.memory.write(address, data)
            },
            None => Ok(()),
        }
    }

    /// SWAP: `reg1` and `reg2` exchange their values; the flags stay.
    pub fn swap_register(&mut self, instruction: Instruction)
        requires
            old(self).wf(),
            instruction.wf(),
        ensures
            final(self).wf(),
            final(self)@ == old(self)@.swap(instruction),
    {
        let a = self.registers.get(instruction.reg1);
        let b = self.registers.get(instruction.reg2);
        self.registers.set(instruction.reg1, b);
        self.registers.set(instruction.reg2, a);
    }

    /// ADD: `reg1 += data`, wrapping; carry and overflow tell whether it wrapped.
    pub fn add_imediate(&mut self, instruction: Instruction)
        requires
            old(self).wf(),
            instruction.wf(),
        ensures
            final(self).wf(),
            final(self)@ == old(self)@.add(instruction),
    {
        match instruction.data {
            Some(data) => {
                let r = self.registers.get(instruction.reg1);
                let result = r.wrapping_add(data as u16);
                self.registers.set(instruction.reg1, result);
                self.flags.zero = result == 0;
                self.flags.negative = result > 0x7FFF;
                self.flags.carry = result < r;
                self.flags.overflow = result < r;
            },
            None => {},
        }
    }
    /// SUB: `reg1 -= data`, wrapping; carry and overflow tell whether it borrowed.
    pub fn sub_imediate(&mut self, instruction: Instruction)
        requires
            old(self).wf(),
            instruction.wf(),
        ensures
            final(self).wf(),
            final(self)@ == old(self)@.sub(instruction),
    {
        match instruction.data {
            Some(data) => {
                let r = self.registers.get(instruction.reg1);
                let result = r.wrapping_sub(data as u16);
                let borrow = data as u16 > r;
                self.registers.set(instruction.reg1, result);
                self.flags.zero = result == 0;
                self.flags.negative = result > 0x7FFF;
                self.flags.carry = borrow;
                self.flags.overflow = borrow;
            },
            None => {},
        }
    }

    /// MUL: `reg1 *= data`, wrapping; carry and overflow tell whether the
    /// product did not fit in 16 bits.
    pub fn mul_imediate(&mut self, instruction: Instruction)
        requires
            old(self).wf(),
            instruction.wf(),
        ensures
            final(self).wf(),
            final(self)@ == old(self)@.mul(instruction),
    {
        match instruction.data {
            Some(data) => {
                let r = self.registers.get(instruction.reg1);
                let result = r.wrapping_mul(data as u16);
                proof {
                    assert((r as int) * (data as int) <= 0xFFFF * 0xFF) by (nonlinear_arith)
                        requires
                            r <= 0xFFFF,
                            data <= 0xFF,
                    ;
                }
                let wide: u32 = r as u32 * data as u32;
                self.registers.set(instruction.reg1, result);
                self.flags.zero = result == 0;
                self.flags.negative = result > 0x7FFF;
                self.flags.carry = wide > 0xFFFF;
                self.flags.overflow = wide > 0xFFFF;
            },
            None => {},
        }
    }

    /// DIV: `reg1 /= data`, rounding down; carry and overflow clear.
    /// A zero divisor is `DivisionByZero`, and nothing changes.
    pub fn div_imediate(&mut self, instruction: Instruction) -> (r: Result<(), Fault>)
        requires
            old(self).wf(),
            instruction.wf(),
        ensures
            final(self).wf(),
            match old(self)@.div(instruction) {
                Ok(t) => r == Ok::<(), Fault>(()) && final(self)@ == t,
                Err(f) => r == Err::<(), Fault>(f) && final(self)@ == old(self)@,
            },
    {
        match instruction.data {
            Some(data) => {
                if data == 0 {
                    return Err(Fault::DivisionByZero);
                }
                let r = self.registers.get(instruction.reg1);
                let result = r / (data as u16);
                self.registers.set(instruction.reg1, result);
                self.flags.zero = result == 0;
                self.flags.negative = result > 0x7FFF;
                self.flags.carry = false;
                self.flags.overflow = false;
                Ok(())
            },
            None => Ok(()),
        }
    }

    /// INC: `reg1 += 1`, wrapping; carry and overflow tell whether it wrapped.
    pub fn inc_register(&mut self, instruction: Instruction)
        requires
            old(self).wf(),
            instruction.wf(),
        ensures
            final(self).wf(),
            final(self)@ == old(self)@.inc(instruction),
    {
        let r = self.registers.get(instruction.reg1);
        let result = r.wrapping_add(1);
        self.registers.set(instruction.reg1, result);
        self.flags.zero = result == 0;
        self.flags.negative = result > 0x7FFF;
        self.flags.carry = result < r;
        self.flags.overflow = result < r;
    }

    /// DEC: `reg1 -= 1`, wrapping; carry and overflow tell whether it borrowed.
    pub fn dec_register(&mut self, instruction: Instruction)
        requires
            old(self).wf(),
            instruction.wf(),
        ensures
            final(self).wf(),
            final(self)@ == old(self)@.dec(instruction),
    {
        let r = self.registers.get(instruction.reg1);
        let result = r.wrapping_sub(1);
        self.registers.set(instruction.reg1, result);
        self.flags.zero = result == 0;
        self.flags.negative = result > 0x7FFF;
        self.flags.carry = r == 0;
        self.flags.overflow = r == 0;
    }

    /// Writes a logic result into `reg1` and sets `zero` and `negative` from it.
    fn write_logic_result(&mut self, reg: u8, result: u16)
        requires
            old(self).wf(),
            reg < ADDRESSABLE_REGISTERS,
        ensures
            final(self).wf(),
            final(self)@ == old(self)@.with_reg(
                reg,
                result,
                Flags { zero: result == 0, negative: result > 0x7FFF, ..old(self).flags },
            ),
    {
        self.registers.set(reg, result);
        self.flags.zero = result == 0;
        self.flags.negative = result > 0x7FFF;
    }

    /// AND: `reg1 &= data`, the data byte zero-extended.
    pub fn and_imediate(&mut self, instruction: Instruction)
        requires
            old(self).wf(),
            instruction.wf(),
        ensures
            final(self).wf(),
            final(self)@ == old(self)@.logic(instruction, Opcode::AND),
    {
        match instruction.data {
            Some(data) => {
                let r = self.registers.get(instruction.reg1);
                self.write_logic_result(instruction.reg1, r & data as u16);
            },
            None => {},
        }
    }

    /// OR: `reg1 |= data`, the data byte zero-extended.
    pub fn or_imediate(&mut self, instruction: Instruction)
        requires
            old(self).wf(),
            instruction.wf(),
        ensures
            final(self).wf(),
            final(self)@ == old(self)@.logic(instruction, Opcode::OR),
    {
        match instruction.data {
            Some(data) => {
                let r = self.registers.get(instruction.reg1);
                self.write_logic_result(instruction.reg1, r | data as u16);
            },
            None => {},
        }
    }

    /// XOR: `reg1 ^= data`, the data byte zero-extended.
    pub fn xor_imediate(&mut self, instruction: Instruction)
        requires
            old(self).wf(),
            instruction.wf(),
        ensures
            final(self).wf(),
            final(self)@ == old(self)@.logic(instruction, Opcode::XOR),
    {
        match instruction.data {
            Some(data) => {
                let r = self.registers.get(instruction.reg1);
                self.write_logic_result(instruction.reg1, r ^ data as u16);
            },
            None => {},
        }
    }

    /// SHL: `reg1` shifted left by `data` places; 0 when `data >= 16`.
    pub fn shl_imediate(&mut self, instruction: Instruction)
        requires
            old(self).wf(),
            instruction.wf(),
        ensures
            final(self).wf(),
            final(self)@ == old(self)@.logic(instruction, Opcode::SHL),
    {
        match instruction.data {
            Some(data) => {
                let r = self.registers.get(instruction.reg1);
                let result = if data < 16 {
                    r << (data as u16)
                } else {
                    0
                };
                self.write_logic_result(instruction.reg1, result);
            },
            None => {},
        }
    }

    /// SHR: `reg1` shifted right by `data` places, filling with zeros; 0
    /// when `data >= 16`.
    pub fn shr_imediate(&mut self, instruction: Instruction)
        requires
            old(self).wf(),
            instruction.wf(),
        ensures
            final(self).wf(),
            final(self)@ == old(self)@.logic(instruction, Opcode::SHR),
    {
        match instruction.data {
            Some(data) => {
                let r = self.registers.get(instruction.reg1);
                let result = if data < 16 {
                    r >> (data as u16)
                } else {
                    0
                };
                self.write_logic_result(instruction.reg1, result);
            },
            None => {},
        }
    }

    /// NOT: every bit of `reg1` inverted.
    pub fn not_register(&mut self, instruction: Instruction)
        requires
            old(self).wf(),
            instruction.wf(),
        ensures
            final(self).wf(),
            final(self)@ == old(self)@.not(instruction),
    {
        let r = self.registers.get(instruction.reg1);
        self.write_logic_result(instruction.reg1, !r);
    }

    /// JMP: the program counter takes the data address.
    pub fn jmp_imediate(&mut self, instruction: Instruction)
        requires
            old(self).wf(),
            instruction.wf(),
        ensures
            final(self).wf(),
            final(self)@ == old(self)@.jump(instruction, true),
    {
        match instruction.data {
            Some(address) => self.registers.pc = address as u16,
            None => {},
        }
    }

    /// JZ: jumps to the data address when `zero` is set.
    pub fn jz_imediate(&mut self, instruction: Instruction)
        requires
            old(self).wf(),
            instruction.wf(),
        ensures
            final(self).wf(),
            final(self)@ == old(self)@.jump(instruction, old(self).flags.zero),
    {
        if self.flags.zero {
            self.jmp_imediate(instruction);
        }
    }

    /// JNZ: jumps to the data address when `zero` is clear.
    pub fn jnz_imediate(&mut self, instruction: Instruction)
        requires
            old(self).wf(),
            instruction.wf(),
        ensures
            final(self).wf(),
            final(self)@ == old(self)@.jump(instruction, !old(self).flags.zero),
    {
        if !self.flags.zero {
            self.jmp_imediate(instruction);
        }
    }

    /// JC: jumps to the data address when `carry` is set.
    pub fn jc_imediate(&mut self, instruction: Instruction)
        requires
            old(self).wf(),
            instruction.wf(),
        ensures
            final(self).wf(),
            final(self)@ == old(self)@.jump(instruction, old(self).flags.carry),
    {
        if self.flags.carry {
            self.jmp_imediate(instruction);
        }
    }

    /// CALL: pushes the program counter, high byte first, and jumps to the
    /// data address. Where either stack byte would lie outside memory, it is
    /// `MemoryFault` and nothing changes.
    pub fn call_imediate(&mut self, instruction: Instruction) -> (r: Result<(), Fault>)
        requires
            old(self).wf(),
            instruction.wf(),
        ensures
            final(self).wf(),
            match old(self)@.call(instruction) {
                Ok(t) => r == Ok::<(), Fault>(()) && final(self)@ == t,
                Err(f) => r == Err::<(), Fault>(f) && final(self)@ == old(self)@,
            },
    {
        let address = match instruction.data {
            Some(data) => data,
            None => return Ok(()),
        };
        let hi_at = self.registers.sp.wrapping_sub(1);
        let lo_at = self.registers.sp.wrapping_sub(2);
        let len = self.memory.len();
        if hi_at as usize >= len || lo_at as usize >= len {
            return Err(Fault::MemoryFault);
        }
        let pc = self.registers.pc;
        let _ = self.memory.write(hi_at, (pc / 256) as u8);
        let _ = self.memory.write(lo_at, (pc % 256) as u8);
        self.registers.sp = lo_at;
        self.registers.pc = address as u16;
        Ok(())
    }

    /// RET: pops the low byte, then the high byte, into the program counter.
    /// Where either lies outside memory, it is `MemoryFault` and nothing changes.
    pub fn ret(&mut self, _instruction: Instruction) -> (r: Result<(), Fault>)
        requires
            old(self).wf(),
        ensures
            final(self).wf(),
            match old(self)@.ret() {
                Ok(t) => r == Ok::<(), Fault>(()) && final(self)@ == t,
                Err(f) => r == Err::<(), Fault>(f) && final(self)@ == old(self)@,
            },
    {
        let sp = self.registers.sp;
        let low = match self.memory.read(sp) {
            Ok(b) => b,
            Err(f) => return Err(f),
        };
        let high = match self.memory.read(sp.wrapping_add(1)) {
            Ok(b) => b,
            Err(f) => return Err(f),
        };
        self.registers.sp = sp.wrapping_add(2);
        self.registers.pc = high as u16 * 256 + low as u16;
        Ok(())
    }

    /// PUSH: the stack pointer moves down one byte and the data byte is
    /// written there. Where that lies outside memory, it is `MemoryFault` and
    /// nothing changes.
    pub fn push_imediate(&mut self, instruction: Instruction) -> (r: Result<(), Fault>)
        requires
            old(self).wf(),
            instruction.wf(),
        ensures
            final(self).wf(),
            match old(self)@.push(instruction) {
                Ok(t) => r == Ok::<(), Fault>(()) && final(self)@ == t,
                Err(f) => r == Err::<(), Fault>(f) && final(self)@ == old(self)@,
            },
    {
        let data = match instruction.data {
            Some(data) => data,
            None => return Ok(()),
        };
        let at = self.registers.sp.wrapping_sub(1);
        match self.memory.write(at, data) {
            Ok(()) => {
                self.registers.sp = at;
                Ok(())
            },
            Err(f) => Err(f),
        }
    }

    /// POP: the byte at the stack pointer, zero-extended, goes to `reg1`,
    /// `zero` tells whether it is 0, and the stack pointer moves up one byte.
    /// Where the stack pointer lies outside memory, it is `MemoryFault` and
    /// nothing changes.
    pub fn pop_register(&mut self, instruction: Instruction) -> (r: Result<(), Fault>)
        requires
            old(self).wf(),
            instruction.wf(),
        ensures
            final(self).wf(),
            match old(self)@.pop(instruction) {
                Ok(t) => r == Ok::<(), Fault>(()) && final(self)@ == t,
                Err(f) => r == Err::<(), Fault>(f) && final(self)@ == old(self)@,
            },
    {
        let sp = self.registers.sp;
        let value = match self.memory.read(sp) {
            Ok(b) => b as u16,
            Err(f) => return Err(f),
        };
        self.registers.set(instruction.reg1, value);
        self.flags.zero = value == 0;
        self.registers.sp = sp.wrapping_add(1);
        Ok(())
    }

    /// NOP: nothing changes.
    pub fn nop(&mut self, _instruction: Instruction)
        ensures
            *final(self) == *old(self),
    {
    }

    /// HALT: the machine stops.
    pub fn halt(&mut self)
        requires
            old(self).wf(),
        ensures
            final(self).wf(),
            final(self)@ == old(self)@.halt(),
    {
        self.running = false;
    }
    /// Records `instruction` as the current one and carries out its operation.
    /// On a fault nothing else changes.
    pub fn execute(&mut self, instruction: Instruction) -> (r: Result<(), Fault>)
        requires
            old(self).wf(),
            instruction.wf(),
        ensures
            final(self).wf(),
            (final(self)@, r) == old(self)@.execute(instruction),
    {
        self.current_instruction = Some(instruction);
        match instruction.opcode {
            Opcode::LOAD => {
                self.load_imediate(instruction);
                Ok(())
            },
            Opcode::STORE => self.store_imediate(instruction),
            Opcode::MOV => {
                self.mov_imediate(instruction);
                Ok(())
            },
            Opcode::SWAP => {
                self.swap_register(instruction);
                Ok(())
            },
            Opcode::ADD => {
                self.add_imediate(instruction);
                Ok(())
            },
            Opcode::SUB => {
                self.sub_imediate(instruction);
                Ok(())
            },
            Opcode::MUL => {
                self.mul_imediate(instruction);
                Ok(())
            },
            Opcode::DIV => self.div_imediate(instruction),
            Opcode::INC => {
                self.inc_register(instruction);
                Ok(())
            },
            Opcode::DEC => {
                self.dec_register(instruction);
                Ok(())
            },
            Opcode::AND => {
                self.and_imediate(instruction);
                Ok(())
            },
            Opcode::OR => {
                self.or_imediate(instruction);
                Ok(())
            },
            Opcode::XOR => {
                self.xor_imediate(instruction);
                Ok(())
            },
            Opcode::NOT => {
                self.not_register(instruction);
                Ok(())
            },
            Opcode::SHL => {
                self.shl_imediate(instruction);
                Ok(())
            },
            Opcode::SHR => {
                self.shr_imediate(instruction);
                Ok(())
            },
            Opcode::JMP => {
                self.jmp_imediate(instruction);
                Ok(())
            },
            Opcode::JZ => {
                self.jz_imediate(instruction);
                Ok(())
            },
            Opcode::JNZ => {
                self.jnz_imediate(instruction);
                Ok(())
            },
            Opcode::JC => {
                self.jc_imediate(instruction);
                Ok(())
            },
            Opcode::CALL => self.call_imediate(instruction),
            Opcode::RET => self.ret(instruction),
            Opcode::PUSH => self.push_imediate(instruction),
            Opcode::POP => self.pop_register(instruction),
            Opcode::NOP => {
                self.nop(instruction);
                Ok(())
            },
            Opcode::HALT => {
                self.halt();
                Ok(())
            },
        }
    }

    /// One fetch-decode-execute cycle. A fault, from decoding or from
    /// executing, stops the machine and is returned.
    pub fn step(&mut self) -> (r: Result<(), Fault>)
        requires
            old(self).wf(),
        ensures
            final(self).wf(),
            (final(self)@, r) == old(self)@.step(),
    {
        proof {
            reveal(CpuState::step);
        }
        let r = match self.fetch_instruction() {
            Ok(instruction) => {
                proof {
                    crate::laws::lemma_decoded_wf(old(self)@.mem, old(self)@.pc);
                }
                self.execute(instruction)
            },
            Err(f) => Err(f),
        };
        if r.is_err() {
            self.running = false;
        }
        r
    }

    /// Runs cycles while the machine is running, at most `max_steps` of them.
    /// Returns the fault that stopped it, if one did.
    pub fn run_for(&mut self, max_steps: u64) -> (r: Result<(), Fault>)
        requires
            old(self).wf(),
        ensures
            final(self).wf(),
            (final(self)@, r) == old(self)@.run(max_steps as nat),
    {
        let mut done: u64 = 0;
        while self.running && done < max_steps
            invariant
                self.wf(),
                done <= max_steps,
                old(self)@.run(max_steps as nat) == self@.run((max_steps - done) as nat),
            decreases max_steps - done,
        {
            let ghost before = self@;
            let r = self.step();
            proof {
                assert(before.run((max_steps - done) as nat) == match r {
                    Ok(()) => self@.run((max_steps - done - 1) as nat),
                    Err(f) => (self@, r),
                });
            }
            if r.is_err() {
                return r;
            }
            done = done + 1;
        }
        Ok(())
    }

    /// Runs until HALT or a fault stops the machine (giving up only after
    /// `u64::MAX` cycles). Returns the fault, if one stopped it.
    pub fn run(&mut self) -> (r: Result<(), Fault>)
        requires
            old(self).wf(),
        ensures
            final(self).wf(),
            (final(self)@, r) == old(self)@.run(u64::MAX as nat),
    {
        self.run_for(u64::MAX)
    }
}

impl Default for Cpu {
    /// A running machine over a default memory of zero bytes.
    fn default() -> (r: Cpu)
        ensures
            r.wf(),
            r@ == (CpuState {
                regs: Seq::new(8, |_i: int| 0u16),
                pc: 0,
                sp: MEMORY_SIZE as u16,
                bp: 0,
                flags: Flags {
                    zero: false,
                    negative: false,
                    carry: false,
                    overflow: false,
                    interrupt: false,
                },
                mem: Seq::new(MEMORY_SIZE as nat, |_i: int| 0u8),
                last: None,
                running: true,
            }),
    {
        Cpu::new(Memory::default())
    }
}

} // verus!
