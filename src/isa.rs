use vstd::prelude::*;

use crate::fault::Fault;

verus! {

/// Number of registers that an instruction's register fields may name.
pub const ADDRESSABLE_REGISTERS: u8 = 7;

/// The operations of the instruction set.
#[allow(non_camel_case_types, clippy::upper_case_acronyms)]
#[derive(Clone, Copy, Debug, PartialEq, Eq, Structural)]
pub enum Opcode {
    LOAD,
    STORE,
    MOV,
    SWAP,
    ADD,
    SUB,
    MUL,
    DIV,
    INC,
    DEC,
    AND,
    OR,
    XOR,
    NOT,
    SHL,
    SHR,
    JMP,
    JZ,
    JNZ,
    JC,
    CALL,
    RET,
    PUSH,
    POP,
    NOP,
    HALT,
}

impl Opcode {
    /// The byte that encodes this operation.
    pub open spec fn byte(self) -> u8 {
        match self {
            Opcode::LOAD => 0x00,
            Opcode::STORE => 0x01,
            Opcode::MOV => 0x02,
            Opcode::SWAP => 0x03,
            Opcode::ADD => 0x10,
            Opcode::SUB => 0x11,
            Opcode::MUL => 0x12,
            Opcode::DIV => 0x13,
            Opcode::INC => 0x14,
            Opcode::DEC => 0x15,
            Opcode::AND => 0x20,
            Opcode::OR => 0x21,
            Opcode::XOR => 0x22,
            Opcode::NOT => 0x23,
            Opcode::SHL => 0x24,
            Opcode::SHR => 0x25,
            Opcode::JMP => 0x30,
            Opcode::JZ => 0x31,
            Opcode::JNZ => 0x32,
            Opcode::JC => 0x33,
            Opcode::CALL => 0x34,
            Opcode::RET => 0x35,
            Opcode::PUSH => 0x40,
            Opcode::POP => 0x41,
            Opcode::NOP => 0x70,
            Opcode::HALT => 0x7F,
        }
    }

    /// The operation that a byte encodes, if any: the inverse of `byte`.
    pub open spec fn spec_from_byte(b: u8) -> Option<Opcode> {
        if exists|op: Opcode| op.byte() == b {
            Some(choose|op: Opcode| op.byte() == b)
        } else {
            None
        }
    }

    pub fn to_byte(self) -> (r: u8)
        ensures
            r == self.byte(),
    {
        match self {
            Opcode::LOAD => 0x00,
            Opcode::STORE => 0x01,
            Opcode::MOV => 0x02,
            Opcode::SWAP => 0x03,
            Opcode::ADD => 0x10,
            Opcode::SUB => 0x11,
            Opcode::MUL => 0x12,
            Opcode::DIV => 0x13,
            Opcode::INC => 0x14,
            Opcode::DEC => 0x15,
            Opcode::AND => 0x20,
            Opcode::OR => 0x21,
            Opcode::XOR => 0x22,
            Opcode::NOT => 0x23,
            Opcode::SHL => 0x24,
            Opcode::SHR => 0x25,
            Opcode::JMP => 0x30,
            Opcode::JZ => 0x31,
            Opcode::JNZ => 0x32,
            Opcode::JC => 0x33,
            Opcode::CALL => 0x34,
            Opcode::RET => 0x35,
            Opcode::PUSH => 0x40,
            Opcode::POP => 0x41,
            Opcode::NOP => 0x70,
            Opcode::HALT => 0x7F,
        }
    }

    /// Decodes an opcode byte; `None` for a byte that no operation has.
    pub fn from_byte(byte: u8) -> (r: Option<Opcode>)
        ensures
            r == Opcode::spec_from_byte(byte),
            match r {
                Some(op) => op.byte() == byte,
                None => forall|op: Opcode| op.byte() != byte,
            },
    {
        let r = match byte {
            0x00 => Some(Opcode::LOAD),
            0x01 => Some(Opcode::STORE),
            0x02 => Some(Opcode::MOV),
            0x03 => Some(Opcode::SWAP),
            0x10 => Some(Opcode::ADD),
            0x11 => Some(Opcode::SUB),
            0x12 => Some(Opcode::MUL),
            0x13 => Some(Opcode::DIV),
            0x14 => Some(Opcode::INC),
            0x15 => Some(Opcode::DEC),
            0x20 => Some(Opcode::AND),
            0x21 => Some(Opcode::OR),
            0x22 => Some(Opcode::XOR),
            0x23 => Some(Opcode::NOT),
            0x24 => Some(Opcode::SHL),
            0x25 => Some(Opcode::SHR),
            0x30 => Some(Opcode::JMP),
            0x31 => Some(Opcode::JZ),
            0x32 => Some(Opcode::JNZ),
            0x33 => Some(Opcode::JC),
            0x34 => Some(Opcode::CALL),
            0x35 => Some(Opcode::RET),
            0x40 => Some(Opcode::PUSH),
            0x41 => Some(Opcode::POP),
            0x70 => Some(Opcode::NOP),
            0x7F => Some(Opcode::HALT),
            _ => None,
        };
        proof {
            lemma_opcode_byte_injective();
            match r {
                Some(op) => {
                    assert(op.byte() == byte);
                    assert(Opcode::spec_from_byte(byte) == Some(op));
                },
                None => {},
            }
        }
        r
    }
}

/// How an instruction's operand is given. The two-bit code sits in the top
/// bits of the operand byte.
#[derive(Clone, Copy, Debug, PartialEq, Eq, Structural)]
pub enum AddressingMode {
    Register,
    Immediate,
    Indirect,
    Memory,
}

impl AddressingMode {
    /// The two-bit code of this mode.
    pub open spec fn code(self) -> u8 {
        match self {
            AddressingMode::Immediate => 0,
            AddressingMode::Register => 1,
            AddressingMode::Indirect => 2,
            AddressingMode::Memory => 3,
        }
    }

    /// Whether an instruction in this mode carries a data byte.
    pub open spec fn has_data(self) -> bool {
        match self {
            AddressingMode::Immediate | AddressingMode::Memory => true,
            AddressingMode::Register | AddressingMode::Indirect => false,
        }
    }

    /// The mode that a two-bit code names.
    pub open spec fn spec_from_byte(b: u8) -> Option<AddressingMode> {
        if b == 0 {
            Some(AddressingMode::Immediate)
        } else if b == 1 {
            Some(AddressingMode::Register)
        } else if b == 2 {
            Some(AddressingMode::Indirect)
        } else if b == 3 {
            Some(AddressingMode::Memory)
        } else {
            None
        }
    }

    /// Decodes a two-bit mode code; `None` for a value above 3.
    pub fn from_byte(byte: u8) -> (r: Option<AddressingMode>)
        ensures
            r == AddressingMode::spec_from_byte(byte),
            r is Some <==> byte < 4,
            r matches Some(m) ==> m.code() == byte,
    {
        match byte {
            1 => Some(AddressingMode::Register),
            0 => Some(AddressingMode::Immediate),
            2 => Some(AddressingMode::Indirect),
            3 => Some(AddressingMode::Memory),
            _ => None,
        }
    }

    pub fn code_byte(self) -> (r: u8)
        ensures
            r == self.code(),
    {
        match self {
            AddressingMode::Immediate => 0,
            AddressingMode::Register => 1,
            AddressingMode::Indirect => 2,
            AddressingMode::Memory => 3,
        }
    }

    pub fn carries_data(self) -> (r: bool)
        ensures
            r == self.has_data(),
    {
        match self {
            AddressingMode::Immediate | AddressingMode::Memory => true,
            AddressingMode::Register | AddressingMode::Indirect => false,
        }
    }
}

/// A decoded instruction.
#[derive(Clone, Copy, Debug, PartialEq, Eq, Structural)]
pub struct Instruction {
    pub opcode: Opcode,
    pub mode: AddressingMode,
    pub reg1: u8,
    pub reg2: u8,
    /// The immediate value or address, present exactly in the modes that carry one.
    pub data: Option<u8>,
}

impl Instruction {
    /// Register fields name addressable registers, and the data byte is
    /// present exactly when the mode carries one.
    pub open spec fn wf(self) -> bool {
        &&& self.reg1 < ADDRESSABLE_REGISTERS
        &&& self.reg2 < ADDRESSABLE_REGISTERS
        &&& self.data is Some <==> self.mode.has_data()
    }

    /// The operand byte: `[mode:2][reg1:3][reg2:3]`.
    pub open spec fn operand_byte(self) -> u8 {
        (self.mode.code() * 64 + self.reg1 * 8 + self.reg2) as u8
    }

    /// The bytes that encode this instruction.
    pub open spec fn encoding(self) -> Seq<u8> {
        match self.data {
            Some(d) => seq![self.opcode.byte(), self.operand_byte(), d],
            None => seq![self.opcode.byte(), self.operand_byte()],
        }
    }

    /// Encodes a well-formed instruction into its two or three bytes.
    pub fn encode(&self) -> (r: Vec<u8>)
        requires
            self.wf(),
        ensures
            r@ == self.encoding(),
    {
        let operand: u8 = self.mode.code_byte() * 64 + self.reg1 * 8 + self.reg2;
        let mut r: Vec<u8> = Vec::new();
        r.push(self.opcode.to_byte());
        r.push(operand);
        match self.data {
            Some(d) => r.push(d),
            None => {},
        }
        proof {
            assert(r@ =~= self.encoding());
        }
        r
    }
}

/// The addressing-mode code of an operand byte (its top two bits).
pub open spec fn mode_bits(b: u8) -> u8 {
    b / 64
}

/// The first register field of an operand byte (its middle three bits).
pub open spec fn reg1_bits(b: u8) -> u8 {
    (b / 8) % 8
}

/// The second register field of an operand byte (its low three bits).
pub open spec fn reg2_bits(b: u8) -> u8 {
    b % 8
}

/// Decoding at `pc`: the instruction or the fault, and where the program
/// counter stands afterwards (past every byte that was consumed).
///
/// The steps and their order: the program counter must lie inside memory;
/// the opcode byte is read; an operand byte must follow; both register fields
/// must name addressable registers; a data byte must follow where the mode
/// carries one; last, the opcode byte must name an operation.
pub open spec fn decode(mem: Seq<u8>, pc: u16) -> (Result<Instruction, Fault>, u16) {
    if pc >= mem.len() {
        (Err(Fault::ProgramCounterOutOfBounds), pc)
    } else if pc + 1 >= mem.len() {
        (Err(Fault::MissingOperandByte), (pc + 1) as u16)
    } else {
        let op = mem[pc as int];
        let b = mem[pc + 1];
        let after = (pc + 2) as u16;
        if reg1_bits(b) >= ADDRESSABLE_REGISTERS || reg2_bits(b) >= ADDRESSABLE_REGISTERS {
            (Err(Fault::InvalidRegisterNumber), after)
        } else {
            let mode = AddressingMode::spec_from_byte(mode_bits(b))->Some_0;
            if mode.has_data() && after >= mem.len() {
                (Err(Fault::MissingDataByte), after)
            } else {
                let data = if mode.has_data() { Some(mem[after as int]) } else { None };
                let end = if mode.has_data() { (after + 1) as u16 } else { after };
                match Opcode::spec_from_byte(op) {
                    None => (Err(Fault::InvalidOpcode), end),
                    Some(opcode) => (
                        Ok(Instruction { opcode, mode, reg1: reg1_bits(b), reg2: reg2_bits(b), data }),
                        end,
                    ),
                }
            }
        }
    }
}

/// No two operations share an encoding byte.
pub proof fn lemma_opcode_byte_injective()
    ensures
        forall|a: Opcode, b: Opcode| a.byte() == b.byte() ==> a == b,
{
}

} // verus!
