//! The arithmetic of the processor on plain values: each operation gives its
//! result together with the status bits that it sets.
use vstd::prelude::*;
use crate::reg::Flags;

verus! {

/// `1` where the carry goes into an operation, else `0`.
pub open spec fn spec_carry_in(carry: bool) -> u8 {
    if carry {
        1
    } else {
        0
    }
}

#[verifier::when_used_as_spec(spec_carry_in)]
pub fn carry_in(carry: bool) -> (c: u8)
    ensures
        c == spec_carry_in(carry),
{
    if carry {
        1
    } else {
        0
    }
}

/// `a + b + carry`: the sum modulo 256; `H` is the carry out of bit 3, `C`
/// the carry out of bit 7.
pub open spec fn spec_add8(a: u8, b: u8, carry: bool) -> (u8, Flags) {
    let c = spec_carry_in(carry);
    let r = a.wrapping_add(b).wrapping_add(c);
    (
        r,
        Flags {
            z: r == 0,
            n: false,
            h: ((a & 0xF) as u16 + (b & 0xF) as u16 + c as u16) as u16 & 0x10 != 0,
            c: a + b + c > 0xFF,
        },
    )
}

#[verifier::when_used_as_spec(spec_add8)]
pub fn add8(a: u8, b: u8, carry: bool) -> (out: (u8, Flags))
    ensures
        out == spec_add8(a, b, carry),
{
    let c = carry_in(carry);
    let r = a.wrapping_add(b).wrapping_add(c);
    let nibbles: u16 = (a & 0xF) as u16 + (b & 0xF) as u16 + c as u16;
    let sum: u16 = a as u16 + b as u16 + c as u16;
    (r, Flags { z: r == 0, n: false, h: nibbles & 0x10 != 0, c: sum > 0xFF })
}

/// `a - b - carry`: the difference modulo 256; `H` is the borrow from bit 4,
/// `C` the borrow from beyond bit 7.
pub open spec fn spec_sub8(a: u8, b: u8, carry: bool) -> (u8, Flags) {
    let c = spec_carry_in(carry);
    let r = a.wrapping_sub(b).wrapping_sub(c);
    (
        r,
        Flags {
            z: r == 0,
            n: true,
            h: (a & 0xF).wrapping_sub(b & 0xF).wrapping_sub(c) & 0x10 != 0,
            c: a < b + c,
        },
    )
}

#[verifier::when_used_as_spec(spec_sub8)]
pub fn sub8(a: u8, b: u8, carry: bool) -> (out: (u8, Flags))
    ensures
        out == spec_sub8(a, b, carry),
{
    let c = carry_in(carry);
    let r = a.wrapping_sub(b).wrapping_sub(c);
    let nibbles = (a & 0xF).wrapping_sub(b & 0xF).wrapping_sub(c);
    let borrow = (a as u16) < b as u16 + c as u16;
    (r, Flags { z: r == 0, n: true, h: nibbles & 0x10 != 0, c: borrow })
}

/// `a & b`, with `H` set.
pub open spec fn spec_and8(a: u8, b: u8) -> (u8, Flags) {
    (a & b, Flags { z: a & b == 0, n: false, h: true, c: false })
}

#[verifier::when_used_as_spec(spec_and8)]
pub fn and8(a: u8, b: u8) -> (out: (u8, Flags))
    ensures
        out == spec_and8(a, b),
{
    (a & b, Flags { z: a & b == 0, n: false, h: true, c: false })
}

/// `a | b`.
pub open spec fn spec_or8(a: u8, b: u8) -> (u8, Flags) {
    (a | b, Flags { z: a | b == 0, n: false, h: false, c: false })
}

#[verifier::when_used_as_spec(spec_or8)]
pub fn or8(a: u8, b: u8) -> (out: (u8, Flags))
    ensures
        out == spec_or8(a, b),
{
    (a | b, Flags { z: a | b == 0, n: false, h: false, c: false })
}

/// `a ^ b`.
pub open spec fn spec_xor8(a: u8, b: u8) -> (u8, Flags) {
    (a ^ b, Flags { z: a ^ b == 0, n: false, h: false, c: false })
}

#[verifier::when_used_as_spec(spec_xor8)]
pub fn xor8(a: u8, b: u8) -> (out: (u8, Flags))
    ensures
        out == spec_xor8(a, b),
{
    (a ^ b, Flags { z: a ^ b == 0, n: false, h: false, c: false })
}

/// `value + 1` modulo 256; `C` stays as it was.
pub open spec fn spec_inc8(value: u8, flags: Flags) -> (u8, Flags) {
    let r = value.wrapping_add(1);
    (r, Flags { z: r == 0, n: false, h: ((value & 0xF) + 1) as u8 & 0x10 != 0, c: flags.c })
}

#[verifier::when_used_as_spec(spec_inc8)]
pub fn inc8(value: u8, flags: Flags) -> (out: (u8, Flags))
    ensures
        out == spec_inc8(value, flags),
{
    let r = value.wrapping_add(1);
    let nibble: u16 = (value & 0xF) as u16 + 1;
    (r, Flags { z: r == 0, n: false, h: (nibble as u8) & 0x10 != 0, c: flags.c })
}

/// `value - 1` modulo 256; `C` stays as it was.
pub open spec fn spec_dec8(value: u8, flags: Flags) -> (u8, Flags) {
    let r = value.wrapping_sub(1);
    (r, Flags { z: r == 0, n: true, h: (value & 0xF).wrapping_sub(1) & 0x10 != 0, c: flags.c })
}

#[verifier::when_used_as_spec(spec_dec8)]
pub fn dec8(value: u8, flags: Flags) -> (out: (u8, Flags))
    ensures
        out == spec_dec8(value, flags),
{
    let r = value.wrapping_sub(1);
    (r, Flags { z: r == 0, n: true, h: (value & 0xF).wrapping_sub(1) & 0x10 != 0, c: flags.c })
}

/// The ways in which a byte is rotated or shifted by one bit.
#[derive(Debug, Clone, Copy, PartialEq, Eq, Structural)]
pub enum Shift {
    /// Rotate left; bit 7 goes to bit 0 and to the carry.
    Rlc,
    /// Rotate right; bit 0 goes to bit 7 and to the carry.
    Rrc,
    /// Rotate left through the carry.
    Rl,
    /// Rotate right through the carry.
    Rr,
    /// Shift left; bit 0 becomes zero.
    Sla,
    /// Shift right; bit 7 stays.
    Sra,
    /// Exchange the two halves of the byte.
    Swap,
    /// Shift right; bit 7 becomes zero.
    Srl,
}

/// The byte after the shift, and the bit that was shifted out (for `Swap`,
/// no bit).
pub open spec fn spec_shift8(kind: Shift, value: u8, carry: bool) -> (u8, bool) {
    match kind {
        Shift::Rlc => ((value << 1) | (value >> 7), value & 0x80 != 0),
        Shift::Rrc => ((value >> 1) | (value << 7), value & 0x01 != 0),
        Shift::Rl => ((value << 1) | spec_carry_in(carry), value & 0x80 != 0),
        Shift::Rr => ((value >> 1) | (spec_carry_in(carry) << 7), value & 0x01 != 0),
        Shift::Sla => (value << 1, value & 0x80 != 0),
        Shift::Sra => ((value >> 1) | (value & 0x80), value & 0x01 != 0),
        Shift::Swap => ((value << 4) | (value >> 4), false),
        Shift::Srl => (value >> 1, value & 0x01 != 0),
    }
}

#[verifier::when_used_as_spec(spec_shift8)]
pub fn shift8(kind: Shift, value: u8, carry: bool) -> (out: (u8, bool))
    ensures
        out == spec_shift8(kind, value, carry),
{
    match kind {
        Shift::Rlc => ((value << 1) | (value >> 7), value & 0x80 != 0),
        Shift::Rrc => ((value >> 1) | (value << 7), value & 0x01 != 0),
        Shift::Rl => ((value << 1) | carry_in(carry), value & 0x80 != 0),
        Shift::Rr => ((value >> 1) | (carry_in(carry) << 7), value & 0x01 != 0),
        Shift::Sla => (value << 1, value & 0x80 != 0),
        Shift::Sra => ((value >> 1) | (value & 0x80), value & 0x01 != 0),
        Shift::Swap => ((value << 4) | (value >> 4), false),
        Shift::Srl => (value >> 1, value & 0x01 != 0),
    }
}

/// The status bits after a shift: `Z` from the result where `zero` asks for
/// it, else clear; `N` and `H` clear; `C` the bit shifted out.
pub open spec fn spec_shift_flags(result: u8, out: bool, zero: bool) -> Flags {
    Flags { z: zero && result == 0, n: false, h: false, c: out }
}

/// The byte in which only bit `n` is set, for `n` below 8.
pub open spec fn spec_bit_mask(n: u8) -> u8 {
    1u8 << n
}

#[verifier::when_used_as_spec(spec_bit_mask)]
pub fn bit_mask(n: u8) -> (m: u8)
    requires
        n < 8,
    ensures
        m == spec_bit_mask(n),
{
    1u8 << n
}

/// Decimal adjustment of `a` after an addition or subtraction of two packed
/// decimal numbers: `0x06` is added (after a subtraction, subtracted) where
/// the lower digit overflowed, `0x60` where the upper digit did, which also
/// sets `C`.
pub open spec fn spec_daa(a: u8, flags: Flags) -> (u8, Flags) {
    let low_adjust = flags.h || (!flags.n && (a & 0x0F) > 9);
    let high_adjust = flags.c || (!flags.n && a > 0x99);
    let adjust: u8 = if low_adjust && high_adjust {
        0x66
    } else if low_adjust {
        0x06
    } else if high_adjust {
        0x60
    } else {
        0x00
    };
    let r = if flags.n {
        a.wrapping_sub(adjust)
    } else {
        a.wrapping_add(adjust)
    };
    (r, Flags { z: r == 0, n: flags.n, h: false, c: high_adjust })
}

#[verifier::when_used_as_spec(spec_daa)]
pub fn daa(a: u8, flags: Flags) -> (out: (u8, Flags))
    ensures
        out == spec_daa(a, flags),
{
    let low_adjust = flags.h || (!flags.n && (a & 0x0F) > 9);
    let high_adjust = flags.c || (!flags.n && a > 0x99);
    let adjust: u8 = if low_adjust && high_adjust {
        0x66
    } else if low_adjust {
        0x06
    } else if high_adjust {
        0x60
    } else {
        0x00
    };
    let r = if flags.n {
        a.wrapping_sub(adjust)
    } else {
        a.wrapping_add(adjust)
    };
    (r, Flags { z: r == 0, n: flags.n, h: false, c: high_adjust })
}

/// `a + b` modulo 65536; `H` is the carry out of bit 11, `C` the carry out of
/// bit 15; `Z` stays as it was.
pub open spec fn spec_add16(a: u16, b: u16, flags: Flags) -> (u16, Flags) {
    (
        a.wrapping_add(b),
        Flags {
            z: flags.z,
            n: false,
            h: ((a & 0x0FFF) as u32 + (b & 0x0FFF) as u32) as u32 & 0x1000 != 0,
            c: a + b > 0xFFFF,
        },
    )
}

#[verifier::when_used_as_spec(spec_add16)]
pub fn add16(a: u16, b: u16, flags: Flags) -> (out: (u16, Flags))
    ensures
        out == spec_add16(a, b, flags),
{
    let part: u32 = (a & 0x0FFF) as u32 + (b & 0x0FFF) as u32;
    let sum: u32 = a as u32 + b as u32;
    (a.wrapping_add(b), Flags { z: flags.z, n: false, h: part & 0x1000 != 0, c: sum > 0xFFFF })
}

/// A signed byte as the 16-bit value that, added modulo 65536, moves an
/// address by that many bytes.
pub open spec fn spec_sign_extend(offset: u8) -> u16 {
    if offset < 0x80 {
        offset as u16
    } else {
        (0xFF00 + offset) as u16
    }
}

#[verifier::when_used_as_spec(spec_sign_extend)]
pub fn sign_extend(offset: u8) -> (value: u16)
    ensures
        value == spec_sign_extend(offset),
{
    if offset < 0x80 {
        offset as u16
    } else {
        0xFF00 + offset as u16
    }
}

/// `base` moved by the signed byte `offset`; `H` and `C` are the carries out
/// of bit 3 and bit 7 of the unsigned sum of the low byte and the offset.
pub open spec fn spec_add_offset(base: u16, offset: u8) -> (u16, Flags) {
    (
        base.wrapping_add(spec_sign_extend(offset)),
        Flags {
            z: false,
            n: false,
            h: ((base & 0x0F) + (offset & 0x0F) as u16) as u16 & 0x10 != 0,
            c: ((base & 0xFF) + offset as u16) as u16 & 0x100 != 0,
        },
    )
}

#[verifier::when_used_as_spec(spec_add_offset)]
pub fn add_offset(base: u16, offset: u8) -> (out: (u16, Flags))
    ensures
        out == spec_add_offset(base, offset),
{
    proof {
        assert(base & 0x0F <= 0x0F && base & 0xFF <= 0xFF) by (bit_vector);
    }
    let low_part: u16 = (base & 0x0F) + (offset & 0x0F) as u16;
    let byte_part: u16 = (base & 0xFF) + offset as u16;
    (
        base.wrapping_add(sign_extend(offset)),
        Flags { z: false, n: false, h: low_part & 0x10 != 0, c: byte_part & 0x100 != 0 },
    )
}

} // verus!
