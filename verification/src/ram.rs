//! Memory regions: byte buffers of fixed length, each anchored at a base
//! address of the 16-bit address space.
use vstd::prelude::*;
use vstd::slice::slice_subrange;

verus! {

/// The sizes in which memory comes.
#[derive(Debug, Clone, Copy, PartialEq, Eq, Structural)]
pub enum RamSize {
    KB2,
    KB8,
    KB32,
    KB64,
    KB128,
}

impl RamSize {
    /// The number of bytes.
    pub open spec fn spec_bytes(self) -> u32 {
        match self {
            RamSize::KB2 => 2048,
            RamSize::KB8 => 8192,
            RamSize::KB32 => 32_768,
            RamSize::KB64 => 65_536,
            RamSize::KB128 => 131_072,
        }
    }

    #[verifier::when_used_as_spec(spec_bytes)]
    pub fn bytes(self) -> (n: u32)
        ensures
            n == self.spec_bytes(),
    {
        match self {
            RamSize::KB2 => 2048,
            RamSize::KB8 => 8192,
            RamSize::KB32 => 32_768,
            RamSize::KB64 => 65_536,
            RamSize::KB128 => 131_072,
        }
    }
}

impl From<RamSize> for u32 {
    fn from(size: RamSize) -> (n: Self) {
        size.bytes()
    }
}

impl vstd::std_specs::convert::FromSpecImpl<RamSize> for u32 {
    open spec fn obeys_from_spec() -> bool {
        true
    }

    open spec fn from_spec(size: RamSize) -> u32 {
        size.spec_bytes()
    }
}

/// The base addresses of the regions of the memory map.
#[derive(Debug, Clone, Copy, PartialEq, Eq, Structural)]
pub enum RamStart {
    Cart,
    VRam,
    WRam,
    ERam,
    HRam,
}

impl RamStart {
    /// The first address of the region.
    pub open spec fn spec_address(self) -> u16 {
        match self {
            RamStart::Cart => 0x0000,
            RamStart::VRam => 0x8000,
            RamStart::WRam => 0xC000,
            RamStart::ERam => 0xE000,
            RamStart::HRam => 0xFF80,
        }
    }

    #[verifier::when_used_as_spec(spec_address)]
    pub fn address(self) -> (a: u16)
        ensures
            a == self.spec_address(),
    {
        match self {
            RamStart::Cart => 0x0000,
            RamStart::VRam => 0x8000,
            RamStart::WRam => 0xC000,
            RamStart::ERam => 0xE000,
            RamStart::HRam => 0xFF80,
        }
    }
}

impl From<RamStart> for u16 {
    fn from(start: RamStart) -> (a: Self) {
        start.address()
    }
}

impl vstd::std_specs::convert::FromSpecImpl<RamStart> for u16 {
    open spec fn obeys_from_spec() -> bool {
        true
    }

    open spec fn from_spec(start: RamStart) -> u16 {
        start.spec_address()
    }
}

/// A byte buffer of fixed length that answers for the addresses from `start`
/// up to `start` plus its length.
#[derive(Debug, Clone, Default)]
pub struct MemoryRegion {
    pub start: u16,
    mem: Vec<u8>,
}

impl View for MemoryRegion {
    type V = Seq<u8>;

    /// The bytes of the region, the one at `start` first.
    closed spec fn view(&self) -> Seq<u8> {
        self.mem@
    }
}

impl MemoryRegion {
    /// The first address of the region's window: the field `start`.
    pub closed spec fn base(&self) -> u16 {
        self.start
    }

    /// Whether `address` lies in the region's window.
    pub open spec fn contains(&self, address: u16) -> bool {
        self.base() <= address && address - self.base() < self@.len()
    }

    /// A region of `size` zero bytes at `start`.
    pub fn new(size: u16, start: u16) -> (region: Self)
        ensures
            region.base() == start,
            region@.len() == size,
            forall|i: int| 0 <= i < size ==> region@[i] == 0,
    {
        let mut mem: Vec<u8> = Vec::new();
        let mut i: u16 = 0;
        while i < size
            invariant
                i <= size,
                mem@.len() == i,
                forall|j: int| 0 <= j < i ==> mem@[j] == 0,
            decreases size - i,
        {
            mem.push(0);
            i += 1;
        }
        MemoryRegion { start, mem }
    }

    /// The number of bytes in the region.
    pub fn len(&self) -> (n: usize)
        ensures
            n == self@.len(),
    {
        self.mem.len()
    }

    /// The byte at `address`, which lies in the region's window.
    pub fn read(&self, address: u16) -> (value: u8)
        requires
            self.contains(address),
        ensures
            value == self@[address - self.base()],
    {
        let offset = address - self.start;
        self.mem[offset as usize]
    }

    /// Stores `value` at `address`, which lies in the region's window.
    pub fn write(&mut self, address: u16, value: u8)
        requires
            old(self).contains(address),
        ensures
            final(self).base() == old(self).base(),
            final(self)@ == old(self)@.update(address - old(self).base(), value),
    {
        let offset = address - self.start;
        self.mem.set(offset as usize, value);
    }

    /// The bytes at the offsets from `start` up to `end`, counted from the
    /// region's first byte.
    pub fn read_range(&self, start: u16, end: u16) -> (bytes: &[u8])
        requires
            start <= end <= self@.len(),
        ensures
            bytes@ == self@.subrange(start as int, end as int),
    {
        slice_subrange(self.mem.as_slice(), start as usize, end as usize)
    }

    /// Copies `value` into the region from offset `start` on. The window from
    /// `start` up to `end` is what the caller means to fill: a source that is
    /// shorter than the window is not accepted, one that fills it is copied
    /// whole.
    pub fn write_range(&mut self, start: u16, end: u16, value: &[u8])
        requires
            start <= end,
            end - start <= value@.len(),
            start + value@.len() <= old(self)@.len(),
        ensures
            final(self).base() == old(self).base(),
            final(self)@ == spec_overwrite(old(self)@, start as int, value@),
    {
        let base = start as usize;
        let total = self.mem.len();
        let mut i: usize = 0;
        while i < value.len()
            invariant
                i <= value@.len(),
                base == start,
                total == self.mem@.len(),
                base + value@.len() <= total,
                self.mem@.len() == old(self).mem@.len(),
                self.start == old(self).start,
                forall|j: int|
                    0 <= j < self.mem@.len() ==> self.mem@[j] == (if base <= j < base + i {
                        value@[j - base]
                    } else {
                        old(self).mem@[j]
                    }),
            decreases value@.len() - i,
        {
            self.mem.set(base + i, value[i]);
            i += 1;
        }
        assert(self.mem@ =~= spec_overwrite(old(self).mem@, start as int, value@));
    }
}

/// `bytes` with the items from offset `at` on replaced by those of `source`.
pub open spec fn spec_overwrite(bytes: Seq<u8>, at: int, source: Seq<u8>) -> Seq<u8> {
    Seq::new(
        bytes.len(),
        |i: int|
            if at <= i < at + source.len() {
                source[i - at]
            } else {
                bytes[i]
            },
    )
}

} // verus!
