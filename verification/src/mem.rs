//! The memory-management unit: it routes each address of the 16-bit address
//! space to the region or register that owns it.
use vstd::prelude::*;
use vstd::array::array_as_slice;
use crate::{BOOT_ROM, NINTENDO_HEADER};
use crate::bitwise::{high, low, spec_high, spec_low, spec_word, word};
use crate::ram::{spec_overwrite, MemoryRegion};

pub mod cart;

verus! {

/// A store of bytes that is addressed from zero.
pub trait Memory {
    /// The bytes that the store holds.
    spec fn bytes(&self) -> Seq<u8>;

    fn read(&self, address: u16) -> (value: u8)
        requires
            address < self.bytes().len(),
        ensures
            value == self.bytes()[address as int],
    ;

    fn write(&mut self, address: u16, value: u8)
        requires
            address < old(self).bytes().len(),
        ensures
            final(self).bytes() == old(self).bytes().update(address as int, value),
    ;

    fn read_range(&self, start: u16, end: u16) -> (bytes: &[u8])
        requires
            start <= end <= self.bytes().len(),
        ensures
            bytes@ == self.bytes().subrange(start as int, end as int),
    ;

    /// Copies `value` into the store from `start` on; the window from `start`
    /// up to `end` must not be longer than `value`.
    fn write_range(&mut self, start: u16, end: u16, value: &[u8])
        requires
            start <= end,
            end - start <= value@.len(),
            start + value@.len() <= old(self).bytes().len(),
        ensures
            final(self).bytes() == spec_overwrite(old(self).bytes(), start as int, value@),
    ;

    /// The word at `address`: the byte there is its lower half, the next byte
    /// its upper half.
    fn read_word(&self, address: u16) -> (value: u16)
        requires
            address < 0xFFFF,
            address + 1 < self.bytes().len(),
        ensures
            value == spec_word(self.bytes()[address + 1], self.bytes()[address as int]),
    {
        let lower = self.read(address);
        let upper = self.read(address + 1);
        word(upper, lower)
    }

    /// Stores the lower half of `value` at `address` and the upper half in the
    /// next byte.
    fn write_word(&mut self, address: u16, value: u16)
        requires
            address < 0xFFFF,
            address + 1 < old(self).bytes().len(),
        ensures
            final(self).bytes() == old(self).bytes().update(address as int, spec_low(value)).update(
                address + 1,
                spec_high(value),
            ),
    {
        self.write(address, low(value));
        self.write(address + 1, high(value));
    }
}

/// Counter, modulo and control of the timer.
#[derive(Debug, Default, Clone, Copy)]
struct Timer {
    counter: u8,
    modulo: u8,
    control: u8,
}

/// The interrupt-enable and interrupt-flag registers.
#[derive(Debug, Default, Clone, Copy)]
struct Interrupts {
    enable: u8,
    flag: u8,
}

/// Why a cartridge image was not loaded.
#[derive(Debug, Clone, Copy, PartialEq, Eq, Structural)]
pub enum LoadError {
    /// The image ends before the end of the boot logo.
    TooShort,
    /// The image is longer than the cartridge region.
    TooLong,
    /// The bytes at `0x0104..0x0134` are not the boot logo.
    InvalidLogo,
}

/// Whether a write to `address` is kept: the address belongs to the
/// cartridge, to video, work or high RAM, or to one of the registers.
pub open spec fn spec_is_mapped(address: u16) -> bool {
    ||| address <= 0x9FFF
    ||| 0xC000 <= address <= 0xDFFF
    ||| address == 0xFF00
    ||| 0xFF04 <= address <= 0xFF07
    ||| address == 0xFF0F
    ||| 0xFF80 <= address
}

#[verifier::when_used_as_spec(spec_is_mapped)]
pub fn is_mapped(address: u16) -> (mapped: bool)
    ensures
        mapped == spec_is_mapped(address),
{
    address <= 0x9FFF || (0xC000 <= address && address <= 0xDFFF) || address == 0xFF00 || (0xFF04
        <= address && address <= 0xFF07) || address == 0xFF0F || 0xFF80 <= address
}

/// Whether `address` belongs to one of the four regions of memory: the
/// cartridge, video RAM, work RAM or high RAM.
pub open spec fn spec_in_region(address: u16) -> bool {
    ||| address <= 0x9FFF
    ||| 0xC000 <= address <= 0xDFFF
    ||| 0xFF80 <= address <= 0xFFFE
}

/// The image of the address space after `value` is written to `address`.
pub open spec fn spec_store(image: Seq<u8>, address: u16, value: u8) -> Seq<u8> {
    if spec_is_mapped(address) {
        image.update(address as int, value)
    } else {
        image
    }
}

/// The word that the image holds at `address`, lower byte first; the address
/// after `0xFFFF` is `0x0000`.
pub open spec fn spec_load_word(image: Seq<u8>, address: u16) -> u16 {
    spec_word(image[address.wrapping_add(1) as int], image[address as int])
}

/// The image after the word `value` is written to `address`, lower byte
/// first.
pub open spec fn spec_store_word(image: Seq<u8>, address: u16, value: u16) -> Seq<u8> {
    spec_store(
        spec_store(image, address, spec_low(value)),
        address.wrapping_add(1),
        spec_high(value),
    )
}

/// A byte that is written to a mapped address is the byte that is read there
/// afterwards, and every other address reads as before.
pub proof fn lemma_store_load(image: Seq<u8>, address: u16, value: u8, other: u16)
    requires
        image.len() == 0x10000,
        spec_is_mapped(address),
    ensures
        spec_store(image, address, value)[address as int] == value,
        other != address ==> spec_store(image, address, value)[other as int] == image[other as int],
{
}

/// The word at an address is the byte there, or-ed with the next byte
/// shifted left by eight.
pub proof fn lemma_load_word(image: Seq<u8>, address: u16)
    ensures
        spec_load_word(image, address) == (image[address as int] as u16) | ((image[address.wrapping_add(
            1,
        ) as int] as u16) << 8),
{
    let lower = image[address as int];
    let upper = image[address.wrapping_add(1) as int];
    assert(((upper as u16) << 8) | (lower as u16) == (lower as u16) | ((upper as u16) << 8))
        by (bit_vector);
}

/// A word that is written where both of its bytes are mapped is the word that
/// is read there afterwards.
pub proof fn lemma_store_load_word(image: Seq<u8>, address: u16, value: u16)
    requires
        image.len() == 0x10000,
        spec_is_mapped(address),
        spec_is_mapped(address.wrapping_add(1)),
    ensures
        spec_load_word(spec_store_word(image, address, value), address) == value,
{
    crate::bitwise::lemma_split_join(value);
}

/// The owner of the cartridge, the three RAM regions and the registers that
/// are mapped into the address space.
#[derive(Debug, Clone)]
pub struct MMU {
    cart: MemoryRegion,
    vram: MemoryRegion,
    wram: MemoryRegion,
    hram: MemoryRegion,
    timer: Timer,
    joypad: u8,
    divider_reg: u8,
    interrupts: Interrupts,
}

impl View for MMU {
    type V = Seq<u8>;

    /// The image of the address space: for each of the 65536 addresses the
    /// byte that a read returns.
    closed spec fn view(&self) -> Seq<u8> {
        Seq::new(0x10000, |a: int| self.byte_at(a))
    }
}

impl MMU {
    spec fn byte_at(&self, a: int) -> u8 {
        if a <= 0x7FFF {
            self.cart@[a]
        } else if a <= 0x9FFF {
            self.vram@[a - 0x8000]
        } else if a <= 0xBFFF {
            1
        } else if a <= 0xDFFF {
            self.wram@[a - 0xC000]
        } else if a <= 0xFEFF {
            1
        } else if a == 0xFF00 {
            self.joypad
        } else if a == 0xFF04 {
            self.divider_reg
        } else if a == 0xFF05 {
            self.timer.counter
        } else if a == 0xFF06 {
            self.timer.modulo
        } else if a == 0xFF07 {
            self.timer.control
        } else if a == 0xFF0F {
            self.interrupts.flag
        } else if a <= 0xFF7F {
            1
        } else if a <= 0xFFFE {
            self.hram@[a - 0xFF80]
        } else {
            self.interrupts.enable
        }
    }

    /// The regions have the sizes and the places that the memory map gives
    /// them.
    pub closed spec fn regions_wf(&self) -> bool {
        &&& self.cart.base() == 0x0000 && self.cart@.len() == 0x8000
        &&& self.vram.base() == 0x8000 && self.vram@.len() == 0x2000
        &&& self.wram.base() == 0xC000 && self.wram@.len() == 0x2000
        &&& self.hram.base() == 0xFF80 && self.hram@.len() == 127
    }

    /// The regions are in their places, so that every address belongs to
    /// exactly one owner: the image has one byte for each address, and an
    /// address that no region or register owns reads as one.
    pub open spec fn wf(&self) -> bool {
        &&& self.regions_wf()
        &&& self@.len() == 0x10000
        &&& forall|a: int|
            0 <= a < 0x10000 && !spec_is_mapped(a as u16) ==> #[trigger] self@[a] == 1
    }

    /// An address space in which every region and register holds zero.
    pub fn new() -> (mmu: Self)
        ensures
            mmu.wf(),
            forall|a: int|
                0 <= a < 0x10000 ==> #[trigger] mmu@[a] == (if spec_is_mapped(a as u16) {
                    0u8
                } else {
                    1u8
                }),
    {
        MMU {
            cart: MemoryRegion::new(0x8000, 0x0000),
            vram: MemoryRegion::new(0x2000, 0x8000),
            wram: MemoryRegion::new(0x2000, 0xC000),
            hram: MemoryRegion::new(127, 0xFF80),
            timer: Timer { counter: 0, modulo: 0, control: 0 },
            joypad: 0,
            divider_reg: 0,
            interrupts: Interrupts { enable: 0, flag: 0 },
        }
    }

    /// The region that owns `address`, for an address of the cartridge or of
    /// video, work or high RAM.
    fn get_region(&self, address: u16) -> (owner: Option<&MemoryRegion>)
        requires
            self.wf(),
        ensures
            owner.is_some() == spec_in_region(address),
            owner.is_some() ==> owner.unwrap().contains(address) && owner.unwrap()@[address
                - owner.unwrap().base()] == self@[address as int],
    {
        if address <= 0x7FFF {
            Some(&self.cart)
        } else if address <= 0x9FFF {
            Some(&self.vram)
        } else if address <= 0xBFFF {
            None
        } else if address <= 0xDFFF {
            Some(&self.wram)
        } else if address <= 0xFF7F {
            None
        } else if address <= 0xFFFE {
            Some(&self.hram)
        } else {
            None
        }
    }

    /// The byte at `address`.
    pub fn read(&self, address: u16) -> (value: u8)
        requires
            self.wf(),
        ensures
            value == self@[address as int],
    {
        if let Some(region) = self.get_region(address) {
            region.read(address)
        } else if address <= 0xFEFF {
            1
        } else if address == 0xFF00 {
            self.joypad
        } else if address == 0xFF04 {
            self.divider_reg
        } else if address == 0xFF05 {
            self.timer.counter
        } else if address == 0xFF06 {
            self.timer.modulo
        } else if address == 0xFF07 {
            self.timer.control
        } else if address == 0xFF0F {
            self.interrupts.flag
        } else if address <= 0xFF7F {
            1
        } else {
            self.interrupts.enable
        }
    }

    /// Stores `value` at `address`; a write to an address that no region or
    /// register owns changes nothing.
    pub fn write(&mut self, address: u16, value: u8)
        requires
            old(self).wf(),
        ensures
            final(self).wf(),
            final(self)@ == spec_store(old(self)@, address, value),
    {
        if address <= 0x7FFF {
            self.cart.write(address, value);
        } else if address <= 0x9FFF {
            self.vram.write(address, value);
        } else if address <= 0xBFFF {
        } else if address <= 0xDFFF {
            self.wram.write(address, value);
        } else if address <= 0xFEFF {
        } else if address == 0xFF00 {
            self.joypad = value;
        } else if address == 0xFF04 {
            self.divider_reg = value;
        } else if address == 0xFF05 {
            self.timer.counter = value;
        } else if address == 0xFF06 {
            self.timer.modulo = value;
        } else if address == 0xFF07 {
            self.timer.control = value;
        } else if address == 0xFF0F {
            self.interrupts.flag = value;
        } else if address <= 0xFF7F {
        } else if address <= 0xFFFE {
            self.hram.write(address, value);
        } else {
            self.interrupts.enable = value;
        }
        assert(self@ =~= spec_store(old(self)@, address, value));
    }

    /// The word at `address`, lower byte first.
    pub fn read_word(&self, address: u16) -> (value: u16)
        requires
            self.wf(),
        ensures
            value == spec_load_word(self@, address),
    {
        let lower = self.read(address);
        let upper = self.read(address.wrapping_add(1));
        word(upper, lower)
    }

    /// Stores the lower byte of `value` at `address` and the upper byte at
    /// the address after it.
    pub fn write_word(&mut self, address: u16, value: u16)
        requires
            old(self).wf(),
        ensures
            final(self).wf(),
            final(self)@ == spec_store_word(old(self)@, address, value),
    {
        self.write(address, low(value));
        self.write(address.wrapping_add(1), high(value));
    }

    /// The `len` bytes from `address` on, or nothing where they would reach
    /// past the last address.
    pub fn read_range(&self, address: u16, len: u16) -> (bytes: Option<Vec<u8>>)
        requires
            self.wf(),
        ensures
            address + len <= 0x10000 ==> bytes.is_some() && bytes.unwrap()@ == self@.subrange(
                address as int,
                address + len,
            ),
            address + len > 0x10000 ==> bytes.is_none(),
    {
        if address as u32 + len as u32 > 0x10000 {
            return None;
        }
        let mut bytes: Vec<u8> = Vec::new();
        let mut i: u16 = 0;
        while i < len
            invariant
                self.wf(),
                i <= len,
                address + len <= 0x10000,
                bytes@ == self@.subrange(address as int, address + i),
            decreases len - i,
        {
            let value = self.read((address as u32 + i as u32) as u16);
            bytes.push(value);
            assert(bytes@ =~= self@.subrange(address as int, address + i + 1));
            i += 1;
        }
        Some(bytes)
    }

    /// Copies `bytes` into the cartridge region from its first byte on.
    fn fill_cart(&mut self, bytes: &[u8])
        requires
            old(self).wf(),
            bytes@.len() <= 0x8000,
        ensures
            final(self).wf(),
            final(self)@ == spec_overwrite(old(self)@, 0, bytes@),
    {
        self.cart.write_range(0, 0, bytes);
        assert(self@ =~= spec_overwrite(old(self)@, 0, bytes@));
    }
}

impl Default for MMU {
    fn default() -> (mmu: Self)
        ensures
            mmu.wf(),
            forall|a: int|
                0 <= a < 0x10000 ==> #[trigger] mmu@[a] == (if spec_is_mapped(a as u16) {
                    0u8
                } else {
                    1u8
                }),
    {
        MMU::new()
    }
}

/// Whether `bytes` carries the boot logo at `0x0104..0x0134`.
pub open spec fn spec_has_logo(bytes: Seq<u8>) -> bool {
    bytes.len() >= 0x0134 && bytes.subrange(0x0104, 0x0134) == NINTENDO_HEADER@
}

/// What becomes of a cartridge image: it is accepted where it reaches to the
/// end of the boot logo, fits the cartridge region and carries the logo.
pub open spec fn spec_check_rom(bytes: Seq<u8>) -> Result<(), LoadError> {
    if bytes.len() < 0x0134 {
        Err(LoadError::TooShort)
    } else if bytes.len() > 0x8000 {
        Err(LoadError::TooLong)
    } else if !spec_has_logo(bytes) {
        Err(LoadError::InvalidLogo)
    } else {
        Ok(())
    }
}

/// Validates a cartridge image and, where it is valid, copies it into the
/// cartridge region from offset zero on. An image that is refused leaves the
/// memory as it was.
pub fn load_rom(bytes: &[u8], mmu: &mut MMU) -> (result: Result<(), LoadError>)
    requires
        old(mmu).wf(),
    ensures
        final(mmu).wf(),
        result == spec_check_rom(bytes@),
        result.is_ok() ==> final(mmu)@ == spec_overwrite(old(mmu)@, 0, bytes@),
        result.is_err() ==> final(mmu)@ == old(mmu)@,
{
    if bytes.len() < 0x0134 {
        return Err(LoadError::TooShort);
    }
    if bytes.len() > 0x8000 {
        return Err(LoadError::TooLong);
    }
    let mut i: usize = 0;
    while i < 48
        invariant
            i <= 48,
            0x0134 <= bytes@.len() <= 0x8000,
            forall|j: int| 0 <= j < i ==> bytes@[0x0104 + j] == NINTENDO_HEADER@[j],
            mmu.wf(),
            mmu@ == old(mmu)@,
        decreases 48 - i,
    {
        if bytes[0x0104 + i] != NINTENDO_HEADER[i] {
            proof {
                let logo = bytes@.subrange(0x0104, 0x0134);
                assert(logo[i as int] == bytes@[0x0104 + i]);
                assert(logo[i as int] != NINTENDO_HEADER@[i as int]);
                assert(logo != NINTENDO_HEADER@);
            }
            return Err(LoadError::InvalidLogo);
        }
        i += 1;
    }
    assert(bytes@.subrange(0x0104, 0x0134) =~= NINTENDO_HEADER@);
    mmu.fill_cart(bytes);
    Ok(())
}

/// Copies the startup program into the cartridge region from offset zero on.
pub fn load_boot_rom(mmu: &mut MMU)
    requires
        old(mmu).wf(),
    ensures
        final(mmu).wf(),
        final(mmu)@ == spec_overwrite(old(mmu)@, 0, BOOT_ROM@),
{
    mmu.fill_cart(array_as_slice(&BOOT_ROM));
}

} // verus!
