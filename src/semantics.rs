use vstd::prelude::*;

use crate::fault::Fault;
use crate::isa::{decode, Instruction, Opcode};
use crate::registers::Flags;

verus! {

/// The state of a machine as the instruction set sees it.
pub struct CpuState {
    /// The eight general registers.
    pub regs: Seq<u16>,
    pub pc: u16,
    pub sp: u16,
    pub bp: u16,
    pub flags: Flags,
    pub mem: Seq<u8>,
    /// The instruction most recently handed to the executor.
    pub last: Option<Instruction>,
    pub running: bool,
}

/// A value reduced to 16 bits, as the machine's arithmetic wraps.
pub open spec fn wrap16(x: int) -> u16 {
    (x % 0x10000) as u16
}

/// Whether the sign bit of a 16-bit value is set.
pub open spec fn sign_bit(v: u16) -> bool {
    v > 0x7FFF
}

/// Flags after an arithmetic result: zero and negative from the result,
/// carry and overflow both set to `carry`, the interrupt flag kept.
pub open spec fn arith_flags(f: Flags, res: u16, carry: bool) -> Flags {
    Flags { zero: res == 0, negative: sign_bit(res), carry, overflow: carry, interrupt: f.interrupt }
}

/// Flags after a logic result: zero and negative from the result, the rest kept.
pub open spec fn logic_flags(f: Flags, res: u16) -> Flags {
    Flags { zero: res == 0, negative: sign_bit(res), ..f }
}

/// Flags after a register is loaded with `v`: zero from the value, the rest kept.
pub open spec fn load_flags(f: Flags, v: u16) -> Flags {
    Flags { zero: v == 0, ..f }
}

/// A shift to the left by `n` places; every bit is shifted out when `n >= 16`.
pub open spec fn shl16(v: u16, n: u8) -> u16 {
    if n < 16 {
        v << (n as u16)
    } else {
        0
    }
}

/// A logical shift to the right by `n` places; zero when `n >= 16`.
pub open spec fn shr16(v: u16, n: u8) -> u16 {
    if n < 16 {
        v >> (n as u16)
    } else {
        0
    }
}

impl CpuState {
    /// Register `r` set to `v` and the flags replaced.
    pub open spec fn with_reg(self, r: u8, v: u16, flags: Flags) -> CpuState {
        CpuState { regs: self.regs.update(r as int, v), flags, ..self }
    }

    /// The value of register `r`.
    pub open spec fn reg(self, r: u8) -> u16 {
        self.regs[r as int]
    }

    /// Whether `a` is an address inside memory.
    pub open spec fn in_memory(self, a: u16) -> bool {
        a < self.mem.len()
    }

    /// LOAD and MOV: the data byte, zero-extended, into `reg1`.
    pub open spec fn load(self, i: Instruction) -> CpuState {
        match i.data {
            None => self,
            Some(v) => self.with_reg(i.reg1, v as u16, load_flags(self.flags, v as u16)),
        }
    }

    /// STORE: the data byte to the address held in `reg1`.
    pub open spec fn store(self, i: Instruction) -> Result<CpuState, Fault> {
        match i.data {
            None => Ok(self),
            Some(v) => {
                let a = self.reg(i.reg1);
                if self.in_memory(a) {
                    Ok(CpuState { mem: self.mem.update(a as int, v), ..self })
                } else {
                    Err(Fault::MemoryFault)
                }
            },
        }
    }

    /// SWAP: `reg1` and `reg2` exchange their values; no flag changes.
    pub open spec fn swap(self, i: Instruction) -> CpuState {
        CpuState {
            regs: self.regs.update(i.reg1 as int, self.reg(i.reg2)).update(
                i.reg2 as int,
                self.reg(i.reg1),
            ),
            ..self
        }
    }

    /// ADD: `reg1 += data` modulo 2^16; carry when the sum wrapped.
    pub open spec fn add(self, i: Instruction) -> CpuState {
        match i.data {
            None => self,
            Some(v) => {
                let r = self.reg(i.reg1);
                let res = wrap16(r + v);
                self.with_reg(i.reg1, res, arith_flags(self.flags, res, res < r))
            },
        }
    }

    /// SUB: `reg1 -= data` modulo 2^16; carry when it borrowed.
    pub open spec fn sub(self, i: Instruction) -> CpuState {
        match i.data {
            None => self,
            Some(v) => {
                let r = self.reg(i.reg1);
                let res = wrap16(r - v);
                self.with_reg(i.reg1, res, arith_flags(self.flags, res, v > r))
            },
        }
    }

    /// MUL: `reg1 *= data` modulo 2^16; carry when the product does not fit.
    pub open spec fn mul(self, i: Instruction) -> CpuState {
        match i.data {
            None => self,
            Some(v) => {
                let r = self.reg(i.reg1);
                let res = wrap16(r * v);
                self.with_reg(i.reg1, res, arith_flags(self.flags, res, r * v > 0xFFFF))
            },
        }
    }

    /// DIV: `reg1 /= data`, rounding down; a quotient always fits, so carry
    /// is clear. A zero divisor is a fault.
    pub open spec fn div(self, i: Instruction) -> Result<CpuState, Fault> {
        match i.data {
            None => Ok(self),
            Some(v) => {
                if v == 0 {
                    Err(Fault::DivisionByZero)
                } else {
                    let r = self.reg(i.reg1);
                    let res = (r / (v as u16)) as u16;
                    Ok(self.with_reg(i.reg1, res, arith_flags(self.flags, res, false)))
                }
            },
        }
    }

    /// INC: `reg1 += 1` modulo 2^16; carry when it wrapped.
    pub open spec fn inc(self, i: Instruction) -> CpuState {
        let r = self.reg(i.reg1);
        let res = wrap16(r + 1);
        self.with_reg(i.reg1, res, arith_flags(self.flags, res, res < r))
    }

    /// DEC: `reg1 -= 1` modulo 2^16; carry when it borrowed.
    pub open spec fn dec(self, i: Instruction) -> CpuState {
        let r = self.reg(i.reg1);
        let res = wrap16(r - 1);
        self.with_reg(i.reg1, res, arith_flags(self.flags, res, r == 0))
    }

    /// AND, OR, XOR, SHL, SHR (as `op` names): `reg1` combined with the data byte.
    pub open spec fn logic(self, i: Instruction, op: Opcode) -> CpuState {
        match i.data {
            None => self,
            Some(v) => {
                let r = self.reg(i.reg1);
                let res = match op {
                    Opcode::AND => r & (v as u16),
                    Opcode::OR => r | (v as u16),
                    Opcode::XOR => r ^ (v as u16),
                    Opcode::SHL => shl16(r, v),
                    _ => shr16(r, v),
                };
                self.with_reg(i.reg1, res, logic_flags(self.flags, res))
            },
        }
    }

    /// NOT: every bit of `reg1` inverted.
    pub open spec fn not(self, i: Instruction) -> CpuState {
        let res = !self.reg(i.reg1);
        self.with_reg(i.reg1, res, logic_flags(self.flags, res))
    }

    /// JMP, JZ, JNZ, JC: to the data address when the condition holds.
    pub open spec fn jump(self, i: Instruction, taken: bool) -> CpuState {
        match i.data {
            Some(a) if taken => CpuState { pc: a as u16, ..self },
            _ => self,
        }
    }

    /// CALL: the program counter pushed, high byte first, then a jump to the
    /// data address. Afterwards the low byte is at `sp` and the high byte at
    /// `sp + 1`.
    pub open spec fn call(self, i: Instruction) -> Result<CpuState, Fault> {
        match i.data {
            None => Ok(self),
            Some(a) => {
                let hi_at = wrap16(self.sp - 1);
                let lo_at = wrap16(self.sp - 2);
                if self.in_memory(hi_at) && self.in_memory(lo_at) {
                    Ok(
                        CpuState {
                            mem: self.mem.update(hi_at as int, (self.pc / 256) as u8).update(
                                lo_at as int,
                                (self.pc % 256) as u8,
                            ),
                            sp: lo_at,
                            pc: a as u16,
                            ..self
                        },
                    )
                } else {
                    Err(Fault::MemoryFault)
                }
            },
        }
    }

    /// RET: pops the low byte, then the high byte, into the program counter.
    pub open spec fn ret(self) -> Result<CpuState, Fault> {
        let hi_at = wrap16(self.sp + 1);
        if self.in_memory(self.sp) && self.in_memory(hi_at) {
            Ok(
                CpuState {
                    pc: (self.mem[hi_at as int] * 256 + self.mem[self.sp as int]) as u16,
                    sp: wrap16(self.sp + 2),
                    ..self
                },
            )
        } else {
            Err(Fault::MemoryFault)
        }
    }

    /// PUSH: the stack pointer moves down one byte, and the data byte goes there.
    pub open spec fn push(self, i: Instruction) -> Result<CpuState, Fault> {
        match i.data {
            None => Ok(self),
            Some(v) => {
                let at = wrap16(self.sp - 1);
                if self.in_memory(at) {
                    Ok(CpuState { mem: self.mem.update(at as int, v), sp: at, ..self })
                } else {
                    Err(Fault::MemoryFault)
                }
            },
        }
    }

    /// POP: the byte at the stack pointer, zero-extended, into `reg1`; the
    /// stack pointer moves up one byte.
    pub open spec fn pop(self, i: Instruction) -> Result<CpuState, Fault> {
        if self.in_memory(self.sp) {
            let v = self.mem[self.sp as int] as u16;
            Ok(CpuState { sp: wrap16(self.sp + 1), ..self.with_reg(i.reg1, v, load_flags(self.flags, v)) })
        } else {
            Err(Fault::MemoryFault)
        }
    }

    /// HALT: the machine stops.
    pub open spec fn halt(self) -> CpuState {
        CpuState { running: false, ..self }
    }

    /// What the operation of `i` makes of this state.
    pub open spec fn operate(self, i: Instruction) -> Result<CpuState, Fault> {
        match i.opcode {
            Opcode::LOAD | Opcode::MOV => Ok(self.load(i)),
            Opcode::STORE => self.store(i),
            Opcode::SWAP => Ok(self.swap(i)),
            Opcode::ADD => Ok(self.add(i)),
            Opcode::SUB => Ok(self.sub(i)),
            Opcode::MUL => Ok(self.mul(i)),
            Opcode::DIV => self.div(i),
            Opcode::INC => Ok(self.inc(i)),
            Opcode::DEC => Ok(self.dec(i)),
            Opcode::AND | Opcode::OR | Opcode::XOR | Opcode::SHL | Opcode::SHR => Ok(
                self.logic(i, i.opcode),
            ),
            Opcode::NOT => Ok(self.not(i)),
            Opcode::JMP => Ok(self.jump(i, true)),
            Opcode::JZ => Ok(self.jump(i, self.flags.zero)),
            Opcode::JNZ => Ok(self.jump(i, !self.flags.zero)),
            Opcode::JC => Ok(self.jump(i, self.flags.carry)),
            Opcode::CALL => self.call(i),
            Opcode::RET => self.ret(),
            Opcode::PUSH => self.push(i),
            Opcode::POP => self.pop(i),
            Opcode::NOP => Ok(self),
            Opcode::HALT => Ok(self.halt()),
        }
    }

    /// Executing `i`: it is recorded as the last instruction, then operated.
    /// On a fault nothing but that record changes.
    pub open spec fn execute(self, i: Instruction) -> (CpuState, Result<(), Fault>) {
        let s = CpuState { last: Some(i), ..self };
        match s.operate(i) {
            Ok(t) => (t, Ok(())),
            Err(f) => (s, Err(f)),
        }
    }

    /// One fetch-decode-execute cycle. A fault stops the machine.
    #[verifier::opaque]
    pub open spec fn step(self) -> (CpuState, Result<(), Fault>) {
        let (d, pc) = decode(self.mem, self.pc);
        let s = CpuState { pc, ..self };
        match d {
            Err(f) => (CpuState { running: false, ..s }, Err(f)),
            Ok(i) => {
                let (t, r) = s.execute(i);
                match r {
                    Ok(()) => (t, Ok(())),
                    Err(f) => (CpuState { running: false, ..t }, Err(f)),
                }
            },
        }
    }

    /// Cycles while the machine runs, at most `fuel` of them; the first fault
    /// ends the run and is its result.
    pub open spec fn run(self, fuel: nat) -> (CpuState, Result<(), Fault>)
        decreases fuel,
    {
        if !self.running || fuel == 0 {
            (self, Ok(()))
        } else {
            let (t, r) = self.step();
            match r {
                Ok(()) => t.run((fuel - 1) as nat),
                Err(f) => (t, Err(f)),
            }
        }
    }
}

} // verus!
