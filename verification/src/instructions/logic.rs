//! Arithmetic and logic: the eight operations on `A`, increments and
//! decrements of bytes and words, 16-bit addition, decimal adjustment and
//! complement.
use vstd::prelude::*;
use crate::alu::{
    add16, add_offset, and8, daa, dec8, inc8, or8, spec_add16, spec_add_offset, spec_and8,
    spec_daa, spec_dec8, spec_inc8, spec_or8, spec_sub8, spec_xor8, sub8, xor8,
};
use crate::cpu::{CPU, State};
use crate::instructions::{
    collect, entry, spec_family_table, spec_lookup, AluOp, Family, Instruction, Operation, Place,
};
use crate::reg::{Flags, Pair, Reg16, Reg8, Registers};

verus! {

/// The registers after an arithmetic operation on `A` and `b`. `CP` is a
/// subtraction that keeps only the status bits.
pub open spec fn spec_alu(op: AluOp, reg: Registers, b: u8) -> Registers {
    match op {
        AluOp::Add => CPU::spec_add(reg, b, false),
        AluOp::Adc => CPU::spec_add(reg, b, true),
        AluOp::Sub => CPU::spec_sub(reg, b, false),
        AluOp::Sbc => CPU::spec_sub(reg, b, true),
        AluOp::And => Registers { a: spec_and8(reg.a, b).0, f: spec_and8(reg.a, b).1.spec_byte(), ..reg },
        AluOp::Xor => Registers { a: spec_xor8(reg.a, b).0, f: spec_xor8(reg.a, b).1.spec_byte(), ..reg },
        AluOp::Or => Registers { a: spec_or8(reg.a, b).0, f: spec_or8(reg.a, b).1.spec_byte(), ..reg },
        AluOp::Cp => Registers { f: spec_sub8(reg.a, b, false).1.spec_byte(), ..reg },
    }
}

/// Applies an arithmetic operation to `A` and `b`.
pub fn alu(cpu: &mut CPU, op: AluOp, b: u8)
    requires
        old(cpu).wf(),
    ensures
        final(cpu).wf(),
        final(cpu)@ == old(cpu)@.with_reg(spec_alu(op, old(cpu).reg, b)),
{
    match op {
        AluOp::Add => cpu.add(b, false),
        AluOp::Adc => cpu.add(b, true),
        AluOp::Sub => cpu.sub(b, false),
        AluOp::Sbc => cpu.sub(b, true),
        AluOp::And => {
            let (value, flags) = and8(cpu.reg.a, b);
            cpu.reg.a = value;
            cpu.reg.set_flags(flags);
        },
        AluOp::Xor => {
            let (value, flags) = xor8(cpu.reg.a, b);
            cpu.reg.a = value;
            cpu.reg.set_flags(flags);
        },
        AluOp::Or => {
            let (value, flags) = or8(cpu.reg.a, b);
            cpu.reg.a = value;
            cpu.reg.set_flags(flags);
        },
        AluOp::Cp => {
            let (_, flags) = sub8(cpu.reg.a, b, false);
            cpu.reg.set_flags(flags);
        },
    }
}

/// The state after an instruction of this family.
pub open spec fn spec_run(op: Operation, s: State) -> State {
    let flags = s.reg.spec_flags();
    match op {
        Operation::Alu(kind, place) => s.with_reg(spec_alu(kind, s.reg, s.place(place))),
        Operation::AluImm(kind) => s.with_reg(spec_alu(kind, s.reg, s.imm8())),
        Operation::Inc(place) => {
            let (value, after) = spec_inc8(s.place(place), flags);
            s.with_place(place, value).with_flags(after)
        },
        Operation::Dec(place) => {
            let (value, after) = spec_dec8(s.place(place), flags);
            s.with_place(place, value).with_flags(after)
        },
        Operation::IncWord(r) => s.with_reg(
            s.reg.spec_write16(r, s.reg.spec_read16(r).wrapping_add(1)),
        ),
        Operation::DecWord(r) => s.with_reg(
            s.reg.spec_write16(r, s.reg.spec_read16(r).wrapping_sub(1)),
        ),
        Operation::AddHl(r) => {
            let (value, after) = spec_add16(s.hl(), s.reg.spec_read16(r), flags);
            s.with_reg(s.reg.spec_write_pair(Pair::HL, value).spec_with_flags(after))
        },
        Operation::AddSp => {
            let (value, after) = spec_add_offset(s.reg.sp, s.imm8());
            s.with_reg(Registers { sp: value, f: after.spec_byte(), ..s.reg })
        },
        Operation::Daa => {
            let (value, after) = spec_daa(s.reg.a, flags);
            s.with_reg(Registers { a: value, f: after.spec_byte(), ..s.reg })
        },
        Operation::Cpl => s.with_reg(
            Registers {
                a: !s.reg.a,
                f: (Flags { z: flags.z, n: true, h: true, c: flags.c }).spec_byte(),
                ..s.reg
            },
        ),
        _ => s,
    }
}

/// Executes an instruction of this family.
pub fn run(op: Operation, cpu: &mut CPU)
    requires
        old(cpu).wf(),
        op.family() == Family::Logic,
    ensures
        final(cpu).wf(),
        final(cpu)@ == spec_run(op, old(cpu)@),
{
    let flags = cpu.reg.flags();
    match op {
        Operation::Alu(kind, place) => {
            let b = cpu.read_place(place);
            alu(cpu, kind, b);
        },
        Operation::AluImm(kind) => {
            let b = cpu.read_next_byte();
            alu(cpu, kind, b);
        },
        Operation::Inc(place) => {
            let (value, after) = inc8(cpu.read_place(place), flags);
            cpu.write_place(place, value);
            cpu.reg.set_flags(after);
        },
        Operation::Dec(place) => {
            let (value, after) = dec8(cpu.read_place(place), flags);
            cpu.write_place(place, value);
            cpu.reg.set_flags(after);
        },
        Operation::IncWord(r) => {
            let value = cpu.reg.read16(r).wrapping_add(1);
            cpu.reg.write16(r, value);
        },
        Operation::DecWord(r) => {
            let value = cpu.reg.read16(r).wrapping_sub(1);
            cpu.reg.write16(r, value);
        },
        Operation::AddHl(r) => {
            let (value, after) = add16(cpu.reg.read_pair(Pair::HL), cpu.reg.read16(r), flags);
            cpu.reg.write_pair(Pair::HL, value);
            cpu.reg.set_flags(after);
        },
        Operation::AddSp => {
            let (value, after) = add_offset(cpu.reg.sp, cpu.read_next_byte());
            cpu.reg.sp = value;
            cpu.reg.set_flags(after);
        },
        Operation::Daa => {
            let (value, after) = daa(cpu.reg.a, flags);
            cpu.reg.a = value;
            cpu.reg.set_flags(after);
        },
        Operation::Cpl => {
            cpu.reg.a = !cpu.reg.a;
            cpu.reg.set_flags(Flags { z: flags.z, n: true, h: true, c: flags.c });
        },
        _ => {},
    }
}

// The catalog of this family.

/// The entries for the opcodes from `0x00` to `0x0F`.
fn lookup_00(opcode: u8) -> (found: Option<Instruction>)
    requires
        0x00 <= opcode <= 0x0F,
    ensures
        spec_lookup(Family::Logic, opcode, found),
{
    match opcode {
        0x03 => Some(entry("INC_BC", 0x03, 2, 2, 1, Operation::IncWord(Reg16::BC))),
        0x04 => Some(entry("INC_B", 0x04, 1, 1, 1, Operation::Inc(Place::Reg(Reg8::B)))),
        0x05 => Some(entry("DEC_B", 0x05, 1, 1, 1, Operation::Dec(Place::Reg(Reg8::B)))),
        0x09 => Some(entry("ADD_HL_BC", 0x09, 2, 2, 1, Operation::AddHl(Reg16::BC))),
        0x0B => Some(entry("DEC_BC", 0x0B, 2, 2, 1, Operation::DecWord(Reg16::BC))),
        0x0C => Some(entry("INC_C", 0x0C, 1, 1, 1, Operation::Inc(Place::Reg(Reg8::C)))),
        0x0D => Some(entry("DEC_C", 0x0D, 1, 1, 1, Operation::Dec(Place::Reg(Reg8::C)))),
        _ => None,
    }
}

/// The entries for the opcodes from `0x10` to `0x1F`.
fn lookup_10(opcode: u8) -> (found: Option<Instruction>)
    requires
        0x10 <= opcode <= 0x1F,
    ensures
        spec_lookup(Family::Logic, opcode, found),
{
    match opcode {
        0x13 => Some(entry("INC_DE", 0x13, 2, 2, 1, Operation::IncWord(Reg16::DE))),
        0x14 => Some(entry("INC_D", 0x14, 1, 1, 1, Operation::Inc(Place::Reg(Reg8::D)))),
        0x15 => Some(entry("DEC_D", 0x15, 1, 1, 1, Operation::Dec(Place::Reg(Reg8::D)))),
        0x19 => Some(entry("ADD_HL_DE", 0x19, 2, 2, 1, Operation::AddHl(Reg16::DE))),
        0x1B => Some(entry("DEC_DE", 0x1B, 2, 2, 1, Operation::DecWord(Reg16::DE))),
        0x1C => Some(entry("INC_E", 0x1C, 1, 1, 1, Operation::Inc(Place::Reg(Reg8::E)))),
        0x1D => Some(entry("DEC_E", 0x1D, 1, 1, 1, Operation::Dec(Place::Reg(Reg8::E)))),
        _ => None,
    }
}

/// The entries for the opcodes from `0x20` to `0x2F`.
fn lookup_20(opcode: u8) -> (found: Option<Instruction>)
    requires
        0x20 <= opcode <= 0x2F,
    ensures
        spec_lookup(Family::Logic, opcode, found),
{
    match opcode {
        0x23 => Some(entry("INC_HL", 0x23, 2, 2, 1, Operation::IncWord(Reg16::HL))),
        0x24 => Some(entry("INC_H", 0x24, 1, 1, 1, Operation::Inc(Place::Reg(Reg8::H)))),
        0x25 => Some(entry("DEC_H", 0x25, 1, 1, 1, Operation::Dec(Place::Reg(Reg8::H)))),
        0x27 => Some(entry("DAA", 0x27, 1, 1, 1, Operation::Daa)),
        0x29 => Some(entry("ADD_HL_HL", 0x29, 2, 2, 1, Operation::AddHl(Reg16::HL))),
        0x2B => Some(entry("DEC_HL", 0x2B, 2, 2, 1, Operation::DecWord(Reg16::HL))),
        0x2C => Some(entry("INC_L", 0x2C, 1, 1, 1, Operation::Inc(Place::Reg(Reg8::L)))),
        0x2D => Some(entry("DEC_L", 0x2D, 1, 1, 1, Operation::Dec(Place::Reg(Reg8::L)))),
        0x2F => Some(entry("CPL", 0x2F, 1, 1, 1, Operation::Cpl)),
        _ => None,
    }
}

/// The entries for the opcodes from `0x30` to `0x3F`.
fn lookup_30(opcode: u8) -> (found: Option<Instruction>)
    requires
        0x30 <= opcode <= 0x3F,
    ensures
        spec_lookup(Family::Logic, opcode, found),
{
    match opcode {
        0x33 => Some(entry("INC_SP", 0x33, 2, 2, 1, Operation::IncWord(Reg16::SP))),
        0x34 => Some(entry("INC_AT_HL", 0x34, 3, 3, 1, Operation::Inc(Place::HLMem))),
        0x35 => Some(entry("DEC_AT_HL", 0x35, 3, 3, 1, Operation::Dec(Place::HLMem))),
        0x39 => Some(entry("ADD_HL_SP", 0x39, 2, 2, 1, Operation::AddHl(Reg16::SP))),
        0x3B => Some(entry("DEC_SP", 0x3B, 2, 2, 1, Operation::DecWord(Reg16::SP))),
        0x3C => Some(entry("INC_A", 0x3C, 1, 1, 1, Operation::Inc(Place::Reg(Reg8::A)))),
        0x3D => Some(entry("DEC_A", 0x3D, 1, 1, 1, Operation::Dec(Place::Reg(Reg8::A)))),
        _ => None,
    }
}

/// The entries for the opcodes from `0x80` to `0x8F`.
fn lookup_80(opcode: u8) -> (found: Option<Instruction>)
    requires
        0x80 <= opcode <= 0x8F,
    ensures
        spec_lookup(Family::Logic, opcode, found),
{
    match opcode {
        0x80 => Some(entry("ADD_A_B", 0x80, 1, 1, 1, Operation::Alu(AluOp::Add, Place::Reg(Reg8::B)))),
        0x81 => Some(entry("ADD_A_C", 0x81, 1, 1, 1, Operation::Alu(AluOp::Add, Place::Reg(Reg8::C)))),
        0x82 => Some(entry("ADD_A_D", 0x82, 1, 1, 1, Operation::Alu(AluOp::Add, Place::Reg(Reg8::D)))),
        0x83 => Some(entry("ADD_A_E", 0x83, 1, 1, 1, Operation::Alu(AluOp::Add, Place::Reg(Reg8::E)))),
        0x84 => Some(entry("ADD_A_H", 0x84, 1, 1, 1, Operation::Alu(AluOp::Add, Place::Reg(Reg8::H)))),
        0x85 => Some(entry("ADD_A_L", 0x85, 1, 1, 1, Operation::Alu(AluOp::Add, Place::Reg(Reg8::L)))),
        0x86 => Some(entry("ADD_A_HL", 0x86, 2, 2, 1, Operation::Alu(AluOp::Add, Place::HLMem))),
        0x87 => Some(entry("ADD_A_A", 0x87, 1, 1, 1, Operation::Alu(AluOp::Add, Place::Reg(Reg8::A)))),
        0x88 => Some(entry("ADC_A_B", 0x88, 1, 1, 1, Operation::Alu(AluOp::Adc, Place::Reg(Reg8::B)))),
        0x89 => Some(entry("ADC_A_C", 0x89, 1, 1, 1, Operation::Alu(AluOp::Adc, Place::Reg(Reg8::C)))),
        0x8A => Some(entry("ADC_A_D", 0x8A, 1, 1, 1, Operation::Alu(AluOp::Adc, Place::Reg(Reg8::D)))),
        0x8B => Some(entry("ADC_A_E", 0x8B, 1, 1, 1, Operation::Alu(AluOp::Adc, Place::Reg(Reg8::E)))),
        0x8C => Some(entry("ADC_A_H", 0x8C, 1, 1, 1, Operation::Alu(AluOp::Adc, Place::Reg(Reg8::H)))),
        0x8D => Some(entry("ADC_A_L", 0x8D, 1, 1, 1, Operation::Alu(AluOp::Adc, Place::Reg(Reg8::L)))),
        0x8E => Some(entry("ADC_A_HL", 0x8E, 2, 2, 1, Operation::Alu(AluOp::Adc, Place::HLMem))),
        0x8F => Some(entry("ADC_A_A", 0x8F, 1, 1, 1, Operation::Alu(AluOp::Adc, Place::Reg(Reg8::A)))),
        _ => None,
    }
}

/// The entries for the opcodes from `0x90` to `0x9F`.
fn lookup_90(opcode: u8) -> (found: Option<Instruction>)
    requires
        0x90 <= opcode <= 0x9F,
    ensures
        spec_lookup(Family::Logic, opcode, found),
{
    match opcode {
        0x90 => Some(entry("SUB_B", 0x90, 1, 1, 1, Operation::Alu(AluOp::Sub, Place::Reg(Reg8::B)))),
        0x91 => Some(entry("SUB_C", 0x91, 1, 1, 1, Operation::Alu(AluOp::Sub, Place::Reg(Reg8::C)))),
        0x92 => Some(entry("SUB_D", 0x92, 1, 1, 1, Operation::Alu(AluOp::Sub, Place::Reg(Reg8::D)))),
        0x93 => Some(entry("SUB_E", 0x93, 1, 1, 1, Operation::Alu(AluOp::Sub, Place::Reg(Reg8::E)))),
        0x94 => Some(entry("SUB_H", 0x94, 1, 1, 1, Operation::Alu(AluOp::Sub, Place::Reg(Reg8::H)))),
        0x95 => Some(entry("SUB_L", 0x95, 1, 1, 1, Operation::Alu(AluOp::Sub, Place::Reg(Reg8::L)))),
        0x96 => Some(entry("SUB_HL", 0x96, 2, 2, 1, Operation::Alu(AluOp::Sub, Place::HLMem))),
        0x97 => Some(entry("SUB_A", 0x97, 1, 1, 1, Operation::Alu(AluOp::Sub, Place::Reg(Reg8::A)))),
        0x98 => Some(entry("SBC_A_B", 0x98, 1, 1, 1, Operation::Alu(AluOp::Sbc, Place::Reg(Reg8::B)))),
        0x99 => Some(entry("SBC_A_C", 0x99, 1, 1, 1, Operation::Alu(AluOp::Sbc, Place::Reg(Reg8::C)))),
        0x9A => Some(entry("SBC_A_D", 0x9A, 1, 1, 1, Operation::Alu(AluOp::Sbc, Place::Reg(Reg8::D)))),
        0x9B => Some(entry("SBC_A_E", 0x9B, 1, 1, 1, Operation::Alu(AluOp::Sbc, Place::Reg(Reg8::E)))),
        0x9C => Some(entry("SBC_A_H", 0x9C, 1, 1, 1, Operation::Alu(AluOp::Sbc, Place::Reg(Reg8::H)))),
        0x9D => Some(entry("SBC_A_L", 0x9D, 1, 1, 1, Operation::Alu(AluOp::Sbc, Place::Reg(Reg8::L)))),
        0x9E => Some(entry("SBC_A_HL", 0x9E, 2, 2, 1, Operation::Alu(AluOp::Sbc, Place::HLMem))),
        0x9F => Some(entry("SBC_A_A", 0x9F, 1, 1, 1, Operation::Alu(AluOp::Sbc, Place::Reg(Reg8::A)))),
        _ => None,
    }
}

/// The entries for the opcodes from `0xA0` to `0xAF`.
fn lookup_a0(opcode: u8) -> (found: Option<Instruction>)
    requires
        0xA0 <= opcode <= 0xAF,
    ensures
        spec_lookup(Family::Logic, opcode, found),
{
    match opcode {
        0xA0 => Some(entry("AND_B", 0xA0, 1, 1, 1, Operation::Alu(AluOp::And, Place::Reg(Reg8::B)))),
        0xA1 => Some(entry("AND_C", 0xA1, 1, 1, 1, Operation::Alu(AluOp::And, Place::Reg(Reg8::C)))),
        0xA2 => Some(entry("AND_D", 0xA2, 1, 1, 1, Operation::Alu(AluOp::And, Place::Reg(Reg8::D)))),
        0xA3 => Some(entry("AND_E", 0xA3, 1, 1, 1, Operation::Alu(AluOp::And, Place::Reg(Reg8::E)))),
        0xA4 => Some(entry("AND_H", 0xA4, 1, 1, 1, Operation::Alu(AluOp::And, Place::Reg(Reg8::H)))),
        0xA5 => Some(entry("AND_L", 0xA5, 1, 1, 1, Operation::Alu(AluOp::And, Place::Reg(Reg8::L)))),
        0xA6 => Some(entry("AND_HL", 0xA6, 2, 2, 1, Operation::Alu(AluOp::And, Place::HLMem))),
        0xA7 => Some(entry("AND_A", 0xA7, 1, 1, 1, Operation::Alu(AluOp::And, Place::Reg(Reg8::A)))),
        0xA8 => Some(entry("XOR_B", 0xA8, 1, 1, 1, Operation::Alu(AluOp::Xor, Place::Reg(Reg8::B)))),
        0xA9 => Some(entry("XOR_C", 0xA9, 1, 1, 1, Operation::Alu(AluOp::Xor, Place::Reg(Reg8::C)))),
        0xAA => Some(entry("XOR_D", 0xAA, 1, 1, 1, Operation::Alu(AluOp::Xor, Place::Reg(Reg8::D)))),
        0xAB => Some(entry("XOR_E", 0xAB, 1, 1, 1, Operation::Alu(AluOp::Xor, Place::Reg(Reg8::E)))),
        0xAC => Some(entry("XOR_H", 0xAC, 1, 1, 1, Operation::Alu(AluOp::Xor, Place::Reg(Reg8::H)))),
        0xAD => Some(entry("XOR_L", 0xAD, 1, 1, 1, Operation::Alu(AluOp::Xor, Place::Reg(Reg8::L)))),
        0xAE => Some(entry("XOR_HL", 0xAE, 2, 2, 1, Operation::Alu(AluOp::Xor, Place::HLMem))),
        0xAF => Some(entry("XOR_A", 0xAF, 1, 1, 1, Operation::Alu(AluOp::Xor, Place::Reg(Reg8::A)))),
        _ => None,
    }
}

/// The entries for the opcodes from `0xB0` to `0xBF`.
fn lookup_b0(opcode: u8) -> (found: Option<Instruction>)
    requires
        0xB0 <= opcode <= 0xBF,
    ensures
        spec_lookup(Family::Logic, opcode, found),
{
    match opcode {
        0xB0 => Some(entry("OR_B", 0xB0, 1, 1, 1, Operation::Alu(AluOp::Or, Place::Reg(Reg8::B)))),
        0xB1 => Some(entry("OR_C", 0xB1, 1, 1, 1, Operation::Alu(AluOp::Or, Place::Reg(Reg8::C)))),
        0xB2 => Some(entry("OR_D", 0xB2, 1, 1, 1, Operation::Alu(AluOp::Or, Place::Reg(Reg8::D)))),
        0xB3 => Some(entry("OR_E", 0xB3, 1, 1, 1, Operation::Alu(AluOp::Or, Place::Reg(Reg8::E)))),
        0xB4 => Some(entry("OR_H", 0xB4, 1, 1, 1, Operation::Alu(AluOp::Or, Place::Reg(Reg8::H)))),
        0xB5 => Some(entry("OR_L", 0xB5, 1, 1, 1, Operation::Alu(AluOp::Or, Place::Reg(Reg8::L)))),
        0xB6 => Some(entry("OR_HL", 0xB6, 2, 2, 1, Operation::Alu(AluOp::Or, Place::HLMem))),
        0xB7 => Some(entry("OR_A", 0xB7, 1, 1, 1, Operation::Alu(AluOp::Or, Place::Reg(Reg8::A)))),
        0xB8 => Some(entry("CP_A_B", 0xB8, 1, 1, 1, Operation::Alu(AluOp::Cp, Place::Reg(Reg8::B)))),
        0xB9 => Some(entry("CP_A_C", 0xB9, 1, 1, 1, Operation::Alu(AluOp::Cp, Place::Reg(Reg8::C)))),
        0xBA => Some(entry("CP_A_D", 0xBA, 1, 1, 1, Operation::Alu(AluOp::Cp, Place::Reg(Reg8::D)))),
        0xBB => Some(entry("CP_A_E", 0xBB, 1, 1, 1, Operation::Alu(AluOp::Cp, Place::Reg(Reg8::E)))),
        0xBC => Some(entry("CP_A_H", 0xBC, 1, 1, 1, Operation::Alu(AluOp::Cp, Place::Reg(Reg8::H)))),
        0xBD => Some(entry("CP_A_L", 0xBD, 1, 1, 1, Operation::Alu(AluOp::Cp, Place::Reg(Reg8::L)))),
        0xBE => Some(entry("CP_A_HL", 0xBE, 2, 2, 1, Operation::Alu(AluOp::Cp, Place::HLMem))),
        0xBF => Some(entry("CP_A_A", 0xBF, 1, 1, 1, Operation::Alu(AluOp::Cp, Place::Reg(Reg8::A)))),
        _ => None,
    }
}

/// The entries for the opcodes from `0xC0` to `0xCF`.
fn lookup_c0(opcode: u8) -> (found: Option<Instruction>)
    requires
        0xC0 <= opcode <= 0xCF,
    ensures
        spec_lookup(Family::Logic, opcode, found),
{
    match opcode {
        0xC6 => Some(entry("ADD_A_D8", 0xC6, 2, 2, 2, Operation::AluImm(AluOp::Add))),
        0xCE => Some(entry("ADC_A_D8", 0xCE, 2, 2, 2, Operation::AluImm(AluOp::Adc))),
        _ => None,
    }
}

/// The entries for the opcodes from `0xD0` to `0xDF`.
fn lookup_d0(opcode: u8) -> (found: Option<Instruction>)
    requires
        0xD0 <= opcode <= 0xDF,
    ensures
        spec_lookup(Family::Logic, opcode, found),
{
    match opcode {
        0xD6 => Some(entry("SUB_D8", 0xD6, 2, 2, 2, Operation::AluImm(AluOp::Sub))),
        0xDE => Some(entry("SBC_A_D8", 0xDE, 2, 2, 2, Operation::AluImm(AluOp::Sbc))),
        _ => None,
    }
}

/// The entries for the opcodes from `0xE0` to `0xEF`.
fn lookup_e0(opcode: u8) -> (found: Option<Instruction>)
    requires
        0xE0 <= opcode <= 0xEF,
    ensures
        spec_lookup(Family::Logic, opcode, found),
{
    match opcode {
        0xE6 => Some(entry("AND_D8", 0xE6, 2, 2, 2, Operation::AluImm(AluOp::And))),
        0xE8 => Some(entry("ADD_SP_S8", 0xE8, 4, 4, 2, Operation::AddSp)),
        0xEE => Some(entry("XOR_D8", 0xEE, 2, 2, 2, Operation::AluImm(AluOp::Xor))),
        _ => None,
    }
}

/// The entries for the opcodes from `0xF0` to `0xFF`.
fn lookup_f0(opcode: u8) -> (found: Option<Instruction>)
    requires
        0xF0 <= opcode <= 0xFF,
    ensures
        spec_lookup(Family::Logic, opcode, found),
{
    match opcode {
        0xF6 => Some(entry("OR_D8", 0xF6, 2, 2, 2, Operation::AluImm(AluOp::Or))),
        0xFE => Some(entry("CP_A_D8", 0xFE, 2, 2, 2, Operation::AluImm(AluOp::Cp))),
        _ => None,
    }
}

/// The entry of the catalog for `opcode`, if it names one of the
/// arithmetic and logic instructions.
pub fn lookup(opcode: u8) -> (found: Option<Instruction>)
    ensures
        spec_lookup(Family::Logic, opcode, found),
{
    if opcode < 0x10 {
        lookup_00(opcode)
    } else if opcode < 0x20 {
        lookup_10(opcode)
    } else if opcode < 0x30 {
        lookup_20(opcode)
    } else if opcode < 0x40 {
        lookup_30(opcode)
    } else if opcode < 0x80 {
        None
    } else if opcode < 0x90 {
        lookup_80(opcode)
    } else if opcode < 0xA0 {
        lookup_90(opcode)
    } else if opcode < 0xB0 {
        lookup_a0(opcode)
    } else if opcode < 0xC0 {
        lookup_b0(opcode)
    } else if opcode < 0xD0 {
        lookup_c0(opcode)
    } else if opcode < 0xE0 {
        lookup_d0(opcode)
    } else if opcode < 0xF0 {
        lookup_e0(opcode)
    } else {
        lookup_f0(opcode)
    }
}

/// The arithmetic and logic instructions in the order of their opcodes.
pub fn get() -> (table: Vec<Instruction>)
    ensures
        spec_family_table(table@, Family::Logic),
{
    collect(Family::Logic)
}

} // verus!
