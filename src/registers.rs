use vstd::prelude::*;

use crate::isa::ADDRESSABLE_REGISTERS;
use crate::memory::MEMORY_SIZE;

verus! {

/// The register file: eight general 16-bit registers, addressed by index,
/// and the program counter, stack pointer and base pointer.
#[derive(Clone, Copy, Debug)]
pub struct Registers {
    pub general: [u16; 8],
    /// Address of the next instruction to fetch.
    pub pc: u16,
    /// Address of the most recently pushed byte.
    pub sp: u16,
    /// Frame base; no instruction uses it yet.
    pub bp: u16,
}

impl Registers {
    /// All registers zero, the stack pointer at `sp`.
    pub fn new(sp: u16) -> (r: Registers)
        ensures
            r.general@ == Seq::new(8, |_i: int| 0u16),
            r.pc == 0,
            r.sp == sp,
            r.bp == 0,
    {
        let r = Registers { general: [0u16; 8], pc: 0, sp, bp: 0 };
        proof {
            assert(r.general@ =~= Seq::new(8, |_i: int| 0u16));
        }
        r
    }

    /// How many registers an instruction can name.
    pub fn len(&self) -> (r: usize)
        ensures
            r == ADDRESSABLE_REGISTERS,
    {
        ADDRESSABLE_REGISTERS as usize
    }

    /// The general register `index`.
    pub fn get(&self, index: u8) -> (r: u16)
        requires
            index < 8,
        ensures
            r == self.general@[index as int],
    {
        self.general[index as usize]
    }

    /// Sets the general register `index` to `value`, leaving every other
    /// register as it was.
    pub fn set(&mut self, index: u8, value: u16)
        requires
            index < 8,
        ensures
            final(self).general@ == old(self).general@.update(index as int, value),
            final(self).pc == old(self).pc,
            final(self).sp == old(self).sp,
            final(self).bp == old(self).bp,
    {
        self.general[index as usize] = value;
    }
}

impl Default for Registers {
    /// All zero, the stack pointer one past the end of a default memory.
    fn default() -> (r: Registers)
        ensures
            r.general@ == Seq::new(8, |_i: int| 0u16),
            r.pc == 0,
            r.sp == MEMORY_SIZE,
            r.bp == 0,
    {
        Registers::new(MEMORY_SIZE as u16)
    }
}

/// The condition flags.
#[derive(Clone, Copy, Debug, PartialEq, Eq, Structural)]
pub struct Flags {
    pub zero: bool,
    pub negative: bool,
    pub carry: bool,
    pub overflow: bool,
    pub interrupt: bool,
}

impl Default for Flags {
    /// All flags clear.
    fn default() -> (r: Flags)
        ensures
            r == (Flags { zero: false, negative: false, carry: false, overflow: false, interrupt: false }),
    {
        Flags { zero: false, negative: false, carry: false, overflow: false, interrupt: false }
    }
}

} // verus!
