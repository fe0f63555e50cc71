//! The 64 KiB flat memory image: a passive byte store addressed by 16-bit
//! addresses, with no holes.  All cycle accounting is the CPU's concern, so
//! reads and writes here have no effect on any counter.

use vstd::prelude::*;

verus! {

/// Number of bytes in the address space of the processor.
pub const MEM_MAX: usize = 64 * 1024;

pub type Byte = u8;
pub type Word = u16;

/// A 64 KiB random-access byte store.  The invariant [`Memory::wf`] says the
/// backing storage always holds exactly [`MEM_MAX`] bytes, so every 16-bit
/// address is readable and writable.
pub struct Memory {
    pub data: Vec<u8>,
}

impl Memory {
    /// The memory image as a mathematical sequence of bytes.
    pub open spec fn view(&self) -> Seq<u8> {
        self.data@
    }

    /// Well-formedness: the image covers the full 16-bit address space.
    pub open spec fn wf(&self) -> bool {
        self.data@.len() == MEM_MAX
    }

    /// A fresh image with every byte zero.
    pub fn new() -> (r: Self)
        ensures
            r.wf(),
            r@ == Seq::<u8>::new(MEM_MAX as nat, |i: int| 0u8),
    {
        let mut data: Vec<u8> = Vec::new();
        let mut i: usize = 0;
        while i < MEM_MAX
            invariant
                i <= MEM_MAX,
                data@.len() == i,
                forall|j: int| 0 <= j < i ==> data@[j] == 0u8,
            decreases MEM_MAX - i,
        {
            data.push(0u8);
            i = i + 1;
        }
        let r = Memory { data };
        proof {
            assert(r@ =~= Seq::<u8>::new(MEM_MAX as nat, |i: int| 0u8));
        }
        r
    }

    /// Resets every byte to zero.
    pub fn clear(&mut self)
        requires
            old(self).wf(),
        ensures
            final(self).wf(),
            final(self)@ == Seq::<u8>::new(MEM_MAX as nat, |i: int| 0u8),
    {
        let mut i: usize = 0;
        while i < MEM_MAX
            invariant
                i <= MEM_MAX,
                self.data@.len() == MEM_MAX,
                forall|j: int| 0 <= j < i ==> self.data@[j] == 0u8,
            decreases MEM_MAX - i,
        {
            self.data.set(i, 0u8);
            i = i + 1;
        }
        proof {
            assert(self@ =~= Seq::<u8>::new(MEM_MAX as nat, |i: int| 0u8));
        }
    }

    /// The byte stored at `idx`.
    pub fn get_byte(&self, idx: usize) -> (b: Byte)
        requires
            self.wf(),
            idx < MEM_MAX,
        ensures
            b == self@[idx as int],
    {
        self.data[idx]
    }

    /// Stores `data` at `idx`.
    pub fn insert_byte(&mut self, idx: usize, data: Byte)
        requires
            old(self).wf(),
            idx < MEM_MAX,
        ensures
            final(self).wf(),
            final(self)@ == old(self)@.update(idx as int, data),
    {
        self.data.set(idx, data);
    }

    /// A mutable reference to the byte at `idx`.
    pub fn at(&mut self, idx: usize) -> (r: &mut Byte)
        requires
            old(self).wf(),
            idx < MEM_MAX,
        ensures
            *r == old(self)@[idx as int],
            final(self).wf(),
            final(self)@ == old(self)@.update(idx as int, *final(r)),
    {
        &mut self.data[idx]
    }

    /// Little-endian word write: the low byte goes to `addr`, the high byte
    /// to `(addr + 1) mod 65536`.
    pub fn write_word(&mut self, addr: usize, data: Word)
        requires
            old(self).wf(),
            addr < MEM_MAX,
        ensures
            final(self).wf(),
            final(self)@ == old(self)@
                .update(addr as int, (data % 256) as u8)
                .update((addr + 1) % (MEM_MAX as int), (data / 256) as u8),
    {
        self.data.set(addr, (data % 256) as u8);
        self.data.set((addr + 1) % MEM_MAX, (data / 256) as u8);
    }
}

} // verus!
