use vstd::prelude::*;

verus! {

/// Why a cycle of the processor could not complete.
///
/// The first five come from decoding; the last two from executing an
/// instruction whose operands fall outside what the machine defines.
#[derive(Clone, Copy, Debug, PartialEq, Eq, Structural)]
pub enum Fault {
    /// The program counter is at or past the end of memory.
    ProgramCounterOutOfBounds,
    /// Memory ends right after the opcode byte.
    MissingOperandByte,
    /// The addressing mode asks for a data byte, but memory ends first.
    MissingDataByte,
    /// A register field names a register outside the addressable ones.
    InvalidRegisterNumber,
    /// The opcode byte names no operation.
    InvalidOpcode,
    /// DIV with a zero operand.
    DivisionByZero,
    /// A load, store or stack access at an address outside memory.
    MemoryFault,
}

} // verus!
