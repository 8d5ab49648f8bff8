//! The register file: eight byte registers, two word registers, paired views
//! and the status bits of `F`.
use vstd::prelude::*;
use crate::bitwise::{high, low, spec_high, spec_low, spec_word, word};

verus! {

/// One of the four status bits of register `F`.
#[derive(Debug, Clone, Copy, PartialEq, Eq, Structural)]
pub enum FlagBit {
    /// Zero result, bit 7.
    Z,
    /// Last operation was a subtraction, bit 6.
    N,
    /// Carry or borrow between bits 3 and 4, bit 5.
    H,
    /// Carry or borrow out of bit 7, bit 4.
    C,
}

impl FlagBit {
    /// The byte in which only the flag's bit is set.
    pub open spec fn spec_mask(self) -> u8 {
        match self {
            FlagBit::Z => 0x80,
            FlagBit::N => 0x40,
            FlagBit::H => 0x20,
            FlagBit::C => 0x10,
        }
    }

    #[verifier::when_used_as_spec(spec_mask)]
    pub fn mask(self) -> (m: u8)
        ensures
            m == self.spec_mask(),
    {
        match self {
            FlagBit::Z => 0x80,
            FlagBit::N => 0x40,
            FlagBit::H => 0x20,
            FlagBit::C => 0x10,
        }
    }
}

/// The four status bits as booleans.
#[derive(Debug, Clone, Copy, PartialEq, Eq, Structural)]
pub struct Flags {
    pub z: bool,
    pub n: bool,
    pub h: bool,
    pub c: bool,
}

impl Flags {
    /// The value of `F` that carries these bits; its low four bits are zero.
    pub open spec fn spec_byte(self) -> u8 {
        (if self.z { 0x80u8 } else { 0u8 }) | (if self.n { 0x40u8 } else { 0u8 })
            | (if self.h { 0x20u8 } else { 0u8 }) | (if self.c { 0x10u8 } else { 0u8 })
    }

    /// The status bits that a value of `F` carries.
    pub open spec fn spec_of(f: u8) -> Flags {
        Flags { z: f & 0x80 != 0, n: f & 0x40 != 0, h: f & 0x20 != 0, c: f & 0x10 != 0 }
    }

    #[verifier::when_used_as_spec(spec_byte)]
    pub fn byte(self) -> (f: u8)
        ensures
            f == self.spec_byte(),
    {
        (if self.z { 0x80u8 } else { 0u8 }) | (if self.n { 0x40u8 } else { 0u8 })
            | (if self.h { 0x20u8 } else { 0u8 }) | (if self.c { 0x10u8 } else { 0u8 })
    }

    #[verifier::when_used_as_spec(spec_of)]
    pub fn of(f: u8) -> (flags: Flags)
        ensures
            flags == Flags::spec_of(f),
    {
        Flags { z: f & 0x80 != 0, n: f & 0x40 != 0, h: f & 0x20 != 0, c: f & 0x10 != 0 }
    }

    /// Packing four bits into `F` and reading them again gives them back, and
    /// leaves the low four bits of `F` zero.
    pub proof fn lemma_byte(self)
        ensures
            Flags::spec_of(self.spec_byte()) == self,
            self.spec_byte() & 0x0F == 0,
    {
        let (z, n, h, c) = (self.z, self.n, self.h, self.c);
        assert({
            let f = (if z { 0x80u8 } else { 0u8 }) | (if n { 0x40u8 } else { 0u8 }) | (if h {
                0x20u8
            } else {
                0u8
            }) | (if c { 0x10u8 } else { 0u8 });
            &&& (f & 0x80 != 0) == z
            &&& (f & 0x40 != 0) == n
            &&& (f & 0x20 != 0) == h
            &&& (f & 0x10 != 0) == c
            &&& f & 0x0F == 0
        }) by (bit_vector);
    }
}

/// A 16-bit view of two byte registers, upper byte first.
#[derive(Debug, Clone, Copy, PartialEq, Eq, Structural)]
pub enum Pair {
    AF,
    BC,
    DE,
    HL,
}

/// A byte register that an instruction can name as an operand.
#[derive(Debug, Clone, Copy, PartialEq, Eq, Structural)]
pub enum Reg8 {
    A,
    B,
    C,
    D,
    E,
    H,
    L,
}

/// A word register that an instruction can name as an operand.
#[derive(Debug, Clone, Copy, PartialEq, Eq, Structural)]
pub enum Reg16 {
    BC,
    DE,
    HL,
    SP,
}

/// The register file. `ime` is the pending interrupt-enable flag that `EI`
/// sets and `DI` clears.
#[derive(Debug, Clone, Copy, PartialEq, Eq, Structural)]
pub struct Registers {
    pub a: u8,
    pub f: u8,
    pub b: u8,
    pub c: u8,
    pub d: u8,
    pub e: u8,
    pub h: u8,
    pub l: u8,
    pub pc: u16,
    pub sp: u16,
    pub ime: bool,
}

impl Registers {
    /// The values of the registers after the boot sequence.
    pub open spec fn spec_new() -> Registers {
        Registers {
            a: 0x01,
            f: 0x80,
            b: 0x00,
            c: 0x13,
            d: 0x00,
            e: 0xD8,
            h: 0x01,
            l: 0x4D,
            pc: 0x0100,
            sp: 0xFFFE,
            ime: false,
        }
    }

    #[verifier::when_used_as_spec(spec_new)]
    pub fn new() -> (r: Self)
        ensures
            r == Registers::spec_new(),
    {
        Registers {
            a: 0x01,
            f: 0x80,
            b: 0x00,
            c: 0x13,
            d: 0x00,
            e: 0xD8,
            h: 0x01,
            l: 0x4D,
            pc: 0x0100,
            sp: 0xFFFE,
            ime: false,
        }
    }

    /// The low four bits of `F` are zero.
    pub open spec fn wf(self) -> bool {
        self.f & 0x0F == 0
    }

    /// The paired view: upper register times 256 plus lower register. `AF`
    /// reads the low four bits of `F` as zero.
    pub open spec fn spec_read_pair(&self, pair: Pair) -> u16 {
        match pair {
            Pair::AF => spec_word(self.a, self.f & 0xF0),
            Pair::BC => spec_word(self.b, self.c),
            Pair::DE => spec_word(self.d, self.e),
            Pair::HL => spec_word(self.h, self.l),
        }
    }

    #[verifier::when_used_as_spec(spec_read_pair)]
    pub fn read_pair(&self, pair: Pair) -> (value: u16)
        ensures
            value == self.spec_read_pair(pair),
    {
        match pair {
            Pair::AF => word(self.a, self.f & 0xF0),
            Pair::BC => word(self.b, self.c),
            Pair::DE => word(self.d, self.e),
            Pair::HL => word(self.h, self.l),
        }
    }

    /// The register file after `value` is written to a pair: the upper byte to
    /// the first register, the lower byte to the second; of `F` only the upper
    /// four bits are kept.
    pub open spec fn spec_write_pair(self, pair: Pair, value: u16) -> Registers {
        match pair {
            Pair::AF => Registers { a: spec_high(value), f: spec_low(value) & 0xF0, ..self },
            Pair::BC => Registers { b: spec_high(value), c: spec_low(value), ..self },
            Pair::DE => Registers { d: spec_high(value), e: spec_low(value), ..self },
            Pair::HL => Registers { h: spec_high(value), l: spec_low(value), ..self },
        }
    }

    pub fn write_pair(&mut self, pair: Pair, value: u16)
        ensures
            *final(self) == old(self).spec_write_pair(pair, value),
    {
        let higher = high(value);
        let lower = low(value);
        match pair {
            Pair::AF => {
                self.a = higher;
                self.f = lower & 0xF0;
            },
            Pair::BC => {
                self.b = higher;
                self.c = lower;
            },
            Pair::DE => {
                self.d = higher;
                self.e = lower;
            },
            Pair::HL => {
                self.h = higher;
                self.l = lower;
            },
        }
    }

    /// Whether a status bit is set in `F`.
    pub open spec fn spec_is_set(&self, flag: FlagBit) -> bool {
        self.f & flag.spec_mask() != 0
    }

    #[verifier::when_used_as_spec(spec_is_set)]
    pub fn is_set(&self, flag: FlagBit) -> (set: bool)
        ensures
            set == self.spec_is_set(flag),
    {
        self.f & flag.mask() != 0
    }

    /// The value of `F` after one status bit is cleared and then set if
    /// `value` holds; the low four bits come out zero.
    pub open spec fn spec_flag_byte(f: u8, flag: FlagBit, value: bool) -> u8 {
        ((f & !flag.spec_mask()) | (if value { flag.spec_mask() } else { 0u8 })) & 0xF0
    }

    pub fn set_flag(&mut self, flag: FlagBit, value: bool)
        ensures
            *final(self) == (Registers {
                f: Registers::spec_flag_byte(old(self).f, flag, value),
                ..*old(self)
            }),
    {
        let mask = flag.mask();
        self.f = ((self.f & !mask) | (if value { mask } else { 0u8 })) & 0xF0;
    }

    /// The four status bits.
    pub open spec fn spec_flags(&self) -> Flags {
        Flags::spec_of(self.f)
    }

    #[verifier::when_used_as_spec(spec_flags)]
    pub fn flags(&self) -> (flags: Flags)
        ensures
            flags == self.spec_flags(),
    {
        Flags::of(self.f)
    }

    /// The register file with `F` replaced by the given status bits.
    pub open spec fn spec_with_flags(self, flags: Flags) -> Registers {
        Registers { f: flags.spec_byte(), ..self }
    }

    pub fn set_flags(&mut self, flags: Flags)
        ensures
            *final(self) == old(self).spec_with_flags(flags),
    {
        self.f = flags.byte();
    }

    /// The value of a byte register.
    pub open spec fn spec_read8(&self, r: Reg8) -> u8 {
        match r {
            Reg8::A => self.a,
            Reg8::B => self.b,
            Reg8::C => self.c,
            Reg8::D => self.d,
            Reg8::E => self.e,
            Reg8::H => self.h,
            Reg8::L => self.l,
        }
    }

    #[verifier::when_used_as_spec(spec_read8)]
    pub fn read8(&self, r: Reg8) -> (value: u8)
        ensures
            value == self.spec_read8(r),
    {
        match r {
            Reg8::A => self.a,
            Reg8::B => self.b,
            Reg8::C => self.c,
            Reg8::D => self.d,
            Reg8::E => self.e,
            Reg8::H => self.h,
            Reg8::L => self.l,
        }
    }

    /// The register file after a byte register is written.
    pub open spec fn spec_write8(self, r: Reg8, value: u8) -> Registers {
        match r {
            Reg8::A => Registers { a: value, ..self },
            Reg8::B => Registers { b: value, ..self },
            Reg8::C => Registers { c: value, ..self },
            Reg8::D => Registers { d: value, ..self },
            Reg8::E => Registers { e: value, ..self },
            Reg8::H => Registers { h: value, ..self },
            Reg8::L => Registers { l: value, ..self },
        }
    }

    pub fn write8(&mut self, r: Reg8, value: u8)
        ensures
            *final(self) == old(self).spec_write8(r, value),
    {
        match r {
            Reg8::A => self.a = value,
            Reg8::B => self.b = value,
            Reg8::C => self.c = value,
            Reg8::D => self.d = value,
            Reg8::E => self.e = value,
            Reg8::H => self.h = value,
            Reg8::L => self.l = value,
        }
    }

    /// The value of a word register.
    pub open spec fn spec_read16(&self, r: Reg16) -> u16 {
        match r {
            Reg16::BC => self.spec_read_pair(Pair::BC),
            Reg16::DE => self.spec_read_pair(Pair::DE),
            Reg16::HL => self.spec_read_pair(Pair::HL),
            Reg16::SP => self.sp,
        }
    }

    #[verifier::when_used_as_spec(spec_read16)]
    pub fn read16(&self, r: Reg16) -> (value: u16)
        ensures
            value == self.spec_read16(r),
    {
        match r {
            Reg16::BC => self.read_pair(Pair::BC),
            Reg16::DE => self.read_pair(Pair::DE),
            Reg16::HL => self.read_pair(Pair::HL),
            Reg16::SP => self.sp,
        }
    }

    /// The register file after a word register is written.
    pub open spec fn spec_write16(self, r: Reg16, value: u16) -> Registers {
        match r {
            Reg16::BC => self.spec_write_pair(Pair::BC, value),
            Reg16::DE => self.spec_write_pair(Pair::DE, value),
            Reg16::HL => self.spec_write_pair(Pair::HL, value),
            Reg16::SP => Registers { sp: value, ..self },
        }
    }

    pub fn write16(&mut self, r: Reg16, value: u16)
        ensures
            *final(self) == old(self).spec_write16(r, value),
    {
        match r {
            Reg16::BC => self.write_pair(Pair::BC, value),
            Reg16::DE => self.write_pair(Pair::DE, value),
            Reg16::HL => self.write_pair(Pair::HL, value),
            Reg16::SP => self.sp = value,
        }
    }

    /// A pair that was written reads back as the value written; for `AF` the
    /// low four bits read zero.
    pub proof fn lemma_write_read_pair(self, pair: Pair, value: u16)
        ensures
            self.spec_write_pair(pair, value).spec_read_pair(pair) == (if pair == Pair::AF {
                value & 0xFFF0
            } else {
                value
            }),
    {
        crate::bitwise::lemma_split_join(value);
        if pair == Pair::AF {
            assert(spec_word(spec_high(value), (spec_low(value) & 0xF0) & 0xF0) == value & 0xFFF0)
                by (bit_vector);
        }
    }

    /// After `set_flag` the flag reads as the value given, the other three
    /// flags read as before, and the low four bits of `F` are zero.
    pub proof fn lemma_set_flag(self, flag: FlagBit, value: bool, other: FlagBit)
        ensures
            ({
                let after = Registers { f: Registers::spec_flag_byte(self.f, flag, value), ..self };
                &&& after.spec_is_set(flag) == value
                &&& other != flag ==> after.spec_is_set(other) == self.spec_is_set(other)
                &&& after.wf()
            }),
    {
        let f = self.f;
        let m = flag.spec_mask();
        let o = other.spec_mask();
        assert((m == 0x80 || m == 0x40 || m == 0x20 || m == 0x10) && (o == 0x80 || o == 0x40 || o
            == 0x20 || o == 0x10));
        assert(other != flag ==> o != m);
        let g = ((f & !m) | (if value { m } else { 0u8 })) & 0xF0;
        assert((g & m != 0) == value && (o != m ==> (g & o != 0) == (f & o != 0)) && g & 0x0F
            == 0) by (bit_vector)
            requires
                g == ((f & !m) | (if value { m } else { 0u8 })) & 0xF0,
                m == 0x80 || m == 0x40 || m == 0x20 || m == 0x10,
                o == 0x80 || o == 0x40 || o == 0x20 || o == 0x10,
        ;
    }
}

impl Default for Registers {
    fn default() -> (r: Self)
        ensures
            r == Registers::spec_new(),
    {
        Registers::new()
    }
}

} // verus!
