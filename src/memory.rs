use vstd::prelude::*;

use crate::fault::Fault;

verus! {

/// Size of the memory of a default machine, in bytes.
pub const MEMORY_SIZE: usize = 256;

/// Largest memory a machine can have: every address, and the initial stack
/// pointer (one past the last address), must fit in 16 bits.
pub const MAX_MEMORY_SIZE: usize = 0xFFFF;

/// A flat byte memory whose size is fixed when it is made.
#[derive(Debug)]
pub struct Memory {
    data: Vec<u8>,
}

impl View for Memory {
    type V = Seq<u8>;

    closed spec fn view(&self) -> Seq<u8> {
        self.data@
    }
}

impl Memory {
    /// Every address of the memory fits in 16 bits, and so does its size.
    pub open spec fn wf(&self) -> bool {
        self@.len() <= MAX_MEMORY_SIZE
    }

    /// A memory of `size` zero bytes.
    pub fn new(size: usize) -> (r: Memory)
        requires
            size <= MAX_MEMORY_SIZE,
        ensures
            r.wf(),
            r@ == Seq::new(size as nat, |_i: int| 0u8),
    {
        let m = Memory { data: vec![0u8; size] };
        proof {
            assert(m@ =~= Seq::new(size as nat, |_i: int| 0u8));
        }
        m
    }

    /// A memory that holds exactly `image`.
    pub fn from_image(image: Vec<u8>) -> (r: Memory)
        requires
            image@.len() <= MAX_MEMORY_SIZE,
        ensures
            r.wf(),
            r@ == image@,
    {
        Memory { data: image }
    }

    /// The byte at `address`, or `MemoryFault` where the address lies outside.
    pub fn read(&self, address: u16) -> (r: Result<u8, Fault>)
        ensures
            address < self@.len() ==> r == Ok::<u8, Fault>(self@[address as int]),
            address >= self@.len() ==> r == Err::<u8, Fault>(Fault::MemoryFault),
    {
        if (address as usize) < self.data.len() {
            Ok(self.data[address as usize])
        } else {
            Err(Fault::MemoryFault)
        }
    }

    /// Writes `data` at `address`; `MemoryFault`, and no change, where the
    /// address lies outside.
    pub fn write(&mut self, address: u16, data: u8) -> (r: Result<(), Fault>)
        ensures
            address < old(self)@.len() ==> r == Ok::<(), Fault>(()) && final(self)@ == old(self)@.update(
                address as int,
                data,
            ),
            address >= old(self)@.len() ==> r == Err::<(), Fault>(Fault::MemoryFault)
                && final(self)@ == old(self)@,
    {
        if (address as usize) < self.data.len() {
            self.data.set(address as usize, data);
            Ok(())
        } else {
            Err(Fault::MemoryFault)
        }
    }

    /// The size of the memory, in bytes.
    pub fn len(&self) -> (r: usize)
        ensures
            r == self@.len(),
    {
        self.data.len()
    }

    /// The whole contents, for inspection.
    pub fn as_slice(&self) -> (r: &[u8])
        ensures
            r@ == self@,
    {
        self.data.as_slice()
    }
}

impl Default for Memory {
    /// A memory of `MEMORY_SIZE` zero bytes.
    fn default() -> (r: Memory)
        ensures
            r.wf(),
            r@ == Seq::new(MEMORY_SIZE as nat, |_i: int| 0u8),
    {
        Memory::new(MEMORY_SIZE)
    }
}

} // verus!
