//! The cartridge as a store of its own: 32 KiB of bytes addressed from zero.
use vstd::prelude::*;
use vstd::slice::slice_subrange;
use crate::mem::Memory;
use crate::ram::spec_overwrite;

verus! {

/// A flat cartridge image of 32 KiB.
#[derive(Debug, Clone)]
pub struct Cartridge {
    mem: Vec<u8>,
}

impl Cartridge {
    /// A cartridge of 32 KiB of zero bytes.
    pub fn new() -> (cart: Self)
        ensures
            cart.bytes().len() == 0x8000,
            forall|i: int| 0 <= i < 0x8000 ==> cart.bytes()[i] == 0,
    {
        let mut mem: Vec<u8> = Vec::new();
        let mut i: usize = 0;
        while i < 0x8000
            invariant
                i <= 0x8000,
                mem@.len() == i,
                forall|j: int| 0 <= j < i ==> mem@[j] == 0,
            decreases 0x8000 - i,
        {
            mem.push(0);
            i += 1;
        }
        Cartridge { mem }
    }
}

impl Default for Cartridge {
    fn default() -> (cart: Self)
        ensures
            cart.bytes().len() == 0x8000,
            forall|i: int| 0 <= i < 0x8000 ==> cart.bytes()[i] == 0,
    {
        Cartridge::new()
    }
}

impl Memory for Cartridge {
    closed spec fn bytes(&self) -> Seq<u8> {
        self.mem@
    }

    fn read(&self, address: u16) -> (value: u8) {
        self.mem[address as usize]
    }

    fn write(&mut self, address: u16, value: u8) {
        self.mem.set(address as usize, value);
    }

    fn read_range(&self, start: u16, end: u16) -> (bytes: &[u8]) {
        slice_subrange(self.mem.as_slice(), start as usize, end as usize)
    }

    fn write_range(&mut self, start: u16, end: u16, value: &[u8]) {
        let base = start as usize;
        let total = self.mem.len();
        let mut i: usize = 0;
        while i < value.len()
            invariant
                i <= value@.len(),
                base == start,
                total == self.mem@.len(),
                base + value@.len() <= total,
                self.mem@.len() == old(self).mem@.len(),
                forall|j: int|
                    0 <= j < self.mem@.len() ==> self.mem@[j] == (if base <= j < base + i {
                        value@[j - base]
                    } else {
                        old(self).mem@[j]
                    }),
            decreases value@.len() - i,
        {
            self.mem.set(base + i, value[i]);
            i += 1;
        }
        assert(self.mem@ =~= spec_overwrite(old(self).mem@, start as int, value@));
    }
}

} // verus!
