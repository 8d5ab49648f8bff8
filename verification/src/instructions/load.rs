//! Loads and stores of bytes and words, and the stack instructions `PUSH`
//! and `POP`. Only `LD HL, SP+s8` and `POP AF` change status bits.
use vstd::prelude::*;
use crate::alu::{add_offset, spec_add_offset};
use crate::cpu::{CPU, State};
use crate::instructions::{
    collect, entry, spec_family_table, spec_lookup, Family, Indirect, Instruction, Operation,
    Place,
};
use crate::mem::spec_store_word;
use crate::reg::{Pair, Reg16, Reg8, Registers};

verus! {

/// The address that a load or store of `A` goes to.
pub open spec fn spec_address(target: Indirect, s: State) -> u16 {
    match target {
        Indirect::BC => s.reg.spec_read_pair(Pair::BC),
        Indirect::DE => s.reg.spec_read_pair(Pair::DE),
        Indirect::HLInc | Indirect::HLDec => s.hl(),
        Indirect::Abs => s.imm16(),
        Indirect::HighC => (0xFF00 + s.reg.c) as u16,
        Indirect::HighImm => (0xFF00 + s.imm8()) as u16,
    }
}

/// The registers after the access: `HL` moves by one where the operand says
/// so.
pub open spec fn spec_advance(target: Indirect, reg: Registers) -> Registers {
    match target {
        Indirect::HLInc => reg.spec_write_pair(
            Pair::HL,
            reg.spec_read_pair(Pair::HL).wrapping_add(1),
        ),
        Indirect::HLDec => reg.spec_write_pair(
            Pair::HL,
            reg.spec_read_pair(Pair::HL).wrapping_sub(1),
        ),
        _ => reg,
    }
}

fn address(target: Indirect, cpu: &CPU) -> (a: u16)
    requires
        cpu.wf(),
    ensures
        a == spec_address(target, cpu@),
{
    match target {
        Indirect::BC => cpu.reg.read_pair(Pair::BC),
        Indirect::DE => cpu.reg.read_pair(Pair::DE),
        Indirect::HLInc | Indirect::HLDec => cpu.reg.read_pair(Pair::HL),
        Indirect::Abs => cpu.read_next_word(),
        Indirect::HighC => 0xFF00 + cpu.reg.c as u16,
        Indirect::HighImm => 0xFF00 + cpu.read_next_byte() as u16,
    }
}

fn advance(target: Indirect, reg: &mut Registers)
    ensures
        *final(reg) == spec_advance(target, *old(reg)),
{
    match target {
        Indirect::HLInc => {
            let value = reg.read_pair(Pair::HL).wrapping_add(1);
            reg.write_pair(Pair::HL, value);
        },
        Indirect::HLDec => {
            let value = reg.read_pair(Pair::HL).wrapping_sub(1);
            reg.write_pair(Pair::HL, value);
        },
        _ => {},
    }
}

/// The state after an instruction of this family.
pub open spec fn spec_run(op: Operation, s: State) -> State {
    match op {
        Operation::Ld(dst, src) => s.with_place(dst, s.place(src)),
        Operation::LdImm(dst) => s.with_place(dst, s.imm8()),
        Operation::LoadA(target) => s.with_reg(
            spec_advance(
                target,
                Registers { a: s.mem[spec_address(target, s) as int], ..s.reg },
            ),
        ),
        Operation::StoreA(target) => s.store(spec_address(target, s), s.reg.a).with_reg(
            spec_advance(target, s.reg),
        ),
        Operation::LdWordImm(r) => s.with_reg(s.reg.spec_write16(r, s.imm16())),
        Operation::LdSpHl => s.with_reg(Registers { sp: s.hl(), ..s.reg }),
        Operation::LdHlSpOffset => {
            let (value, flags) = spec_add_offset(s.reg.sp, s.imm8());
            s.with_reg(s.reg.spec_write_pair(Pair::HL, value).spec_with_flags(flags))
        },
        Operation::StoreSp => State { mem: spec_store_word(s.mem, s.imm16(), s.reg.sp), ..s },
        Operation::Push(pair) => s.push_word(s.reg.spec_read_pair(pair)),
        Operation::Pop(pair) => {
            let (value, popped) = s.pop_word();
            popped.with_reg(popped.reg.spec_write_pair(pair, value))
        },
        _ => s,
    }
}

/// Executes an instruction of this family.
pub fn run(op: Operation, cpu: &mut CPU)
    requires
        old(cpu).wf(),
        op.family() == Family::Load,
    ensures
        final(cpu).wf(),
        final(cpu)@ == spec_run(op, old(cpu)@),
{
    match op {
        Operation::Ld(dst, src) => {
            let value = cpu.read_place(src);
            cpu.write_place(dst, value);
        },
        Operation::LdImm(dst) => {
            let value = cpu.read_next_byte();
            cpu.write_place(dst, value);
        },
        Operation::LoadA(target) => {
            let from = address(target, cpu);
            cpu.reg.a = cpu.mmu.read(from);
            advance(target, &mut cpu.reg);
        },
        Operation::StoreA(target) => {
            let to = address(target, cpu);
            cpu.mmu.write(to, cpu.reg.a);
            advance(target, &mut cpu.reg);
        },
        Operation::LdWordImm(r) => {
            let value = cpu.read_next_word();
            cpu.reg.write16(r, value);
        },
        Operation::LdSpHl => {
            cpu.reg.sp = cpu.reg.read_pair(Pair::HL);
        },
        Operation::LdHlSpOffset => {
            let (value, flags) = add_offset(cpu.reg.sp, cpu.read_next_byte());
            cpu.reg.write_pair(Pair::HL, value);
            cpu.reg.set_flags(flags);
        },
        Operation::StoreSp => {
            let to = cpu.read_next_word();
            cpu.mmu.write_word(to, cpu.reg.sp);
        },
        Operation::Push(pair) => {
            let value = cpu.reg.read_pair(pair);
            cpu.push_word(value);
        },
        Operation::Pop(pair) => {
            let value = cpu.pop_word();
            cpu.reg.write_pair(pair, value);
        },
        _ => {},
    }
}

// The catalog of this family.

/// The entries for the opcodes from `0x00` to `0x1F`.
fn lookup_00(opcode: u8) -> (found: Option<Instruction>)
    requires
        0x00 <= opcode <= 0x1F,
    ensures
        spec_lookup(Family::Load, opcode, found),
{
    match opcode {
        0x01 => Some(entry("LD_BC_D16", 0x01, 3, 3, 3, Operation::LdWordImm(Reg16::BC))),
        0x02 => Some(entry("LD_BC_A", 0x02, 2, 2, 1, Operation::StoreA(Indirect::BC))),
        0x06 => Some(entry("LD_B_D8", 0x06, 2, 2, 2, Operation::LdImm(Place::Reg(Reg8::B)))),
        0x08 => Some(entry("LD_A16_SP", 0x08, 5, 5, 3, Operation::StoreSp)),
        0x0A => Some(entry("LD_A_BC", 0x0A, 2, 2, 1, Operation::LoadA(Indirect::BC))),
        0x0E => Some(entry("LD_C_D8", 0x0E, 2, 2, 2, Operation::LdImm(Place::Reg(Reg8::C)))),
        0x11 => Some(entry("LD_DE_D16", 0x11, 3, 3, 3, Operation::LdWordImm(Reg16::DE))),
        0x12 => Some(entry("LD_DE_A", 0x12, 2, 2, 1, Operation::StoreA(Indirect::DE))),
        0x16 => Some(entry("LD_D_D8", 0x16, 2, 2, 2, Operation::LdImm(Place::Reg(Reg8::D)))),
        0x1A => Some(entry("LD_A_DE", 0x1A, 2, 2, 1, Operation::LoadA(Indirect::DE))),
        0x1E => Some(entry("LD_E_D8", 0x1E, 2, 2, 2, Operation::LdImm(Place::Reg(Reg8::E)))),
        _ => None,
    }
}

/// The entries for the opcodes from `0x20` to `0x3F`.
fn lookup_20(opcode: u8) -> (found: Option<Instruction>)
    requires
        0x20 <= opcode <= 0x3F,
    ensures
        spec_lookup(Family::Load, opcode, found),
{
    match opcode {
        0x21 => Some(entry("LD_HL_D16", 0x21, 3, 3, 3, Operation::LdWordImm(Reg16::HL))),
        0x22 => Some(entry("LD_HLI_A", 0x22, 2, 2, 1, Operation::StoreA(Indirect::HLInc))),
        0x26 => Some(entry("LD_H_D8", 0x26, 2, 2, 2, Operation::LdImm(Place::Reg(Reg8::H)))),
        0x2A => Some(entry("LD_A_HLI", 0x2A, 2, 2, 1, Operation::LoadA(Indirect::HLInc))),
        0x2E => Some(entry("LD_L_D8", 0x2E, 2, 2, 2, Operation::LdImm(Place::Reg(Reg8::L)))),
        0x31 => Some(entry("LD_SP_D16", 0x31, 3, 3, 3, Operation::LdWordImm(Reg16::SP))),
        0x32 => Some(entry("LD_HLD_A", 0x32, 2, 2, 1, Operation::StoreA(Indirect::HLDec))),
        0x36 => Some(entry("LD_AT_HL_D8", 0x36, 3, 3, 2, Operation::LdImm(Place::HLMem))),
        0x3A => Some(entry("LD_A_HLD", 0x3A, 2, 2, 1, Operation::LoadA(Indirect::HLDec))),
        0x3E => Some(entry("LD_A_D8", 0x3E, 2, 2, 2, Operation::LdImm(Place::Reg(Reg8::A)))),
        _ => None,
    }
}

/// The entries for the opcodes from `0x40` to `0x5F`.
fn lookup_40(opcode: u8) -> (found: Option<Instruction>)
    requires
        0x40 <= opcode <= 0x5F,
    ensures
        spec_lookup(Family::Load, opcode, found),
{
    match opcode {
        0x40 => Some(entry("LD_B_B", 0x40, 1, 1, 1, Operation::Ld(Place::Reg(Reg8::B), Place::Reg(Reg8::B)))),
        0x41 => Some(entry("LD_B_C", 0x41, 1, 1, 1, Operation::Ld(Place::Reg(Reg8::B), Place::Reg(Reg8::C)))),
        0x42 => Some(entry("LD_B_D", 0x42, 1, 1, 1, Operation::Ld(Place::Reg(Reg8::B), Place::Reg(Reg8::D)))),
        0x43 => Some(entry("LD_B_E", 0x43, 1, 1, 1, Operation::Ld(Place::Reg(Reg8::B), Place::Reg(Reg8::E)))),
        0x44 => Some(entry("LD_B_H", 0x44, 1, 1, 1, Operation::Ld(Place::Reg(Reg8::B), Place::Reg(Reg8::H)))),
        0x45 => Some(entry("LD_B_L", 0x45, 1, 1, 1, Operation::Ld(Place::Reg(Reg8::B), Place::Reg(Reg8::L)))),
        0x46 => Some(entry("LD_B_HL", 0x46, 2, 2, 1, Operation::Ld(Place::Reg(Reg8::B), Place::HLMem))),
        0x47 => Some(entry("LD_B_A", 0x47, 1, 1, 1, Operation::Ld(Place::Reg(Reg8::B), Place::Reg(Reg8::A)))),
        0x48 => Some(entry("LD_C_B", 0x48, 1, 1, 1, Operation::Ld(Place::Reg(Reg8::C), Place::Reg(Reg8::B)))),
        0x49 => Some(entry("LD_C_C", 0x49, 1, 1, 1, Operation::Ld(Place::Reg(Reg8::C), Place::Reg(Reg8::C)))),
        0x4A => Some(entry("LD_C_D", 0x4A, 1, 1, 1, Operation::Ld(Place::Reg(Reg8::C), Place::Reg(Reg8::D)))),
        0x4B => Some(entry("LD_C_E", 0x4B, 1, 1, 1, Operation::Ld(Place::Reg(Reg8::C), Place::Reg(Reg8::E)))),
        0x4C => Some(entry("LD_C_H", 0x4C, 1, 1, 1, Operation::Ld(Place::Reg(Reg8::C), Place::Reg(Reg8::H)))),
        0x4D => Some(entry("LD_C_L", 0x4D, 1, 1, 1, Operation::Ld(Place::Reg(Reg8::C), Place::Reg(Reg8::L)))),
        0x4E => Some(entry("LD_C_HL", 0x4E, 2, 2, 1, Operation::Ld(Place::Reg(Reg8::C), Place::HLMem))),
        0x4F => Some(entry("LD_C_A", 0x4F, 1, 1, 1, Operation::Ld(Place::Reg(Reg8::C), Place::Reg(Reg8::A)))),
        0x50 => Some(entry("LD_D_B", 0x50, 1, 1, 1, Operation::Ld(Place::Reg(Reg8::D), Place::Reg(Reg8::B)))),
        0x51 => Some(entry("LD_D_C", 0x51, 1, 1, 1, Operation::Ld(Place::Reg(Reg8::D), Place::Reg(Reg8::C)))),
        0x52 => Some(entry("LD_D_D", 0x52, 1, 1, 1, Operation::Ld(Place::Reg(Reg8::D), Place::Reg(Reg8::D)))),
        0x53 => Some(entry("LD_D_E", 0x53, 1, 1, 1, Operation::Ld(Place::Reg(Reg8::D), Place::Reg(Reg8::E)))),
        0x54 => Some(entry("LD_D_H", 0x54, 1, 1, 1, Operation::Ld(Place::Reg(Reg8::D), Place::Reg(Reg8::H)))),
        0x55 => Some(entry("LD_D_L", 0x55, 1, 1, 1, Operation::Ld(Place::Reg(Reg8::D), Place::Reg(Reg8::L)))),
        0x56 => Some(entry("LD_D_HL", 0x56, 2, 2, 1, Operation::Ld(Place::Reg(Reg8::D), Place::HLMem))),
        0x57 => Some(entry("LD_D_A", 0x57, 1, 1, 1, Operation::Ld(Place::Reg(Reg8::D), Place::Reg(Reg8::A)))),
        0x58 => Some(entry("LD_E_B", 0x58, 1, 1, 1, Operation::Ld(Place::Reg(Reg8::E), Place::Reg(Reg8::B)))),
        0x59 => Some(entry("LD_E_C", 0x59, 1, 1, 1, Operation::Ld(Place::Reg(Reg8::E), Place::Reg(Reg8::C)))),
        0x5A => Some(entry("LD_E_D", 0x5A, 1, 1, 1, Operation::Ld(Place::Reg(Reg8::E), Place::Reg(Reg8::D)))),
        0x5B => Some(entry("LD_E_E", 0x5B, 1, 1, 1, Operation::Ld(Place::Reg(Reg8::E), Place::Reg(Reg8::E)))),
        0x5C => Some(entry("LD_E_H", 0x5C, 1, 1, 1, Operation::Ld(Place::Reg(Reg8::E), Place::Reg(Reg8::H)))),
        0x5D => Some(entry("LD_E_L", 0x5D, 1, 1, 1, Operation::Ld(Place::Reg(Reg8::E), Place::Reg(Reg8::L)))),
        0x5E => Some(entry("LD_E_HL", 0x5E, 2, 2, 1, Operation::Ld(Place::Reg(Reg8::E), Place::HLMem))),
        0x5F => Some(entry("LD_E_A", 0x5F, 1, 1, 1, Operation::Ld(Place::Reg(Reg8::E), Place::Reg(Reg8::A)))),
        _ => None,
    }
}

/// The entries for the opcodes from `0x60` to `0x7F`.
fn lookup_60(opcode: u8) -> (found: Option<Instruction>)
    requires
        0x60 <= opcode <= 0x7F,
    ensures
        spec_lookup(Family::Load, opcode, found),
{
    match opcode {
        0x60 => Some(entry("LD_H_B", 0x60, 1, 1, 1, Operation::Ld(Place::Reg(Reg8::H), Place::Reg(Reg8::B)))),
        0x61 => Some(entry("LD_H_C", 0x61, 1, 1, 1, Operation::Ld(Place::Reg(Reg8::H), Place::Reg(Reg8::C)))),
        0x62 => Some(entry("LD_H_D", 0x62, 1, 1, 1, Operation::Ld(Place::Reg(Reg8::H), Place::Reg(Reg8::D)))),
        0x63 => Some(entry("LD_H_E", 0x63, 1, 1, 1, Operation::Ld(Place::Reg(Reg8::H), Place::Reg(Reg8::E)))),
        0x64 => Some(entry("LD_H_H", 0x64, 1, 1, 1, Operation::Ld(Place::Reg(Reg8::H), Place::Reg(Reg8::H)))),
        0x65 => Some(entry("LD_H_L", 0x65, 1, 1, 1, Operation::Ld(Place::Reg(Reg8::H), Place::Reg(Reg8::L)))),
        0x66 => Some(entry("LD_H_HL", 0x66, 2, 2, 1, Operation::Ld(Place::Reg(Reg8::H), Place::HLMem))),
        0x67 => Some(entry("LD_H_A", 0x67, 1, 1, 1, Operation::Ld(Place::Reg(Reg8::H), Place::Reg(Reg8::A)))),
        0x68 => Some(entry("LD_L_B", 0x68, 1, 1, 1, Operation::Ld(Place::Reg(Reg8::L), Place::Reg(Reg8::B)))),
        0x69 => Some(entry("LD_L_C", 0x69, 1, 1, 1, Operation::Ld(Place::Reg(Reg8::L), Place::Reg(Reg8::C)))),
        0x6A => Some(entry("LD_L_D", 0x6A, 1, 1, 1, Operation::Ld(Place::Reg(Reg8::L), Place::Reg(Reg8::D)))),
        0x6B => Some(entry("LD_L_E", 0x6B, 1, 1, 1, Operation::Ld(Place::Reg(Reg8::L), Place::Reg(Reg8::E)))),
        0x6C => Some(entry("LD_L_H", 0x6C, 1, 1, 1, Operation::Ld(Place::Reg(Reg8::L), Place::Reg(Reg8::H)))),
        0x6D => Some(entry("LD_L_L", 0x6D, 1, 1, 1, Operation::Ld(Place::Reg(Reg8::L), Place::Reg(Reg8::L)))),
        0x6E => Some(entry("LD_L_HL", 0x6E, 2, 2, 1, Operation::Ld(Place::Reg(Reg8::L), Place::HLMem))),
        0x6F => Some(entry("LD_L_A", 0x6F, 1, 1, 1, Operation::Ld(Place::Reg(Reg8::L), Place::Reg(Reg8::A)))),
        0x70 => Some(entry("LD_HL_B", 0x70, 2, 2, 1, Operation::Ld(Place::HLMem, Place::Reg(Reg8::B)))),
        0x71 => Some(entry("LD_HL_C", 0x71, 2, 2, 1, Operation::Ld(Place::HLMem, Place::Reg(Reg8::C)))),
        0x72 => Some(entry("LD_HL_D", 0x72, 2, 2, 1, Operation::Ld(Place::HLMem, Place::Reg(Reg8::D)))),
        0x73 => Some(entry("LD_HL_E", 0x73, 2, 2, 1, Operation::Ld(Place::HLMem, Place::Reg(Reg8::E)))),
        0x74 => Some(entry("LD_HL_H", 0x74, 2, 2, 1, Operation::Ld(Place::HLMem, Place::Reg(Reg8::H)))),
        0x75 => Some(entry("LD_HL_L", 0x75, 2, 2, 1, Operation::Ld(Place::HLMem, Place::Reg(Reg8::L)))),
        0x77 => Some(entry("LD_HL_A", 0x77, 2, 2, 1, Operation::Ld(Place::HLMem, Place::Reg(Reg8::A)))),
        0x78 => Some(entry("LD_A_B", 0x78, 1, 1, 1, Operation::Ld(Place::Reg(Reg8::A), Place::Reg(Reg8::B)))),
        0x79 => Some(entry("LD_A_C", 0x79, 1, 1, 1, Operation::Ld(Place::Reg(Reg8::A), Place::Reg(Reg8::C)))),
        0x7A => Some(entry("LD_A_D", 0x7A, 1, 1, 1, Operation::Ld(Place::Reg(Reg8::A), Place::Reg(Reg8::D)))),
        0x7B => Some(entry("LD_A_E", 0x7B, 1, 1, 1, Operation::Ld(Place::Reg(Reg8::A), Place::Reg(Reg8::E)))),
        0x7C => Some(entry("LD_A_H", 0x7C, 1, 1, 1, Operation::Ld(Place::Reg(Reg8::A), Place::Reg(Reg8::H)))),
        0x7D => Some(entry("LD_A_L", 0x7D, 1, 1, 1, Operation::Ld(Place::Reg(Reg8::A), Place::Reg(Reg8::L)))),
        0x7E => Some(entry("LD_A_HL", 0x7E, 2, 2, 1, Operation::Ld(Place::Reg(Reg8::A), Place::HLMem))),
        0x7F => Some(entry("LD_A_A", 0x7F, 1, 1, 1, Operation::Ld(Place::Reg(Reg8::A), Place::Reg(Reg8::A)))),
        _ => None,
    }
}

/// The entries for the opcodes from `0xC0` to `0xDF`.
fn lookup_c0(opcode: u8) -> (found: Option<Instruction>)
    requires
        0xC0 <= opcode <= 0xDF,
    ensures
        spec_lookup(Family::Load, opcode, found),
{
    match opcode {
        0xC1 => Some(entry("POP_BC", 0xC1, 3, 3, 1, Operation::Pop(Pair::BC))),
        0xC5 => Some(entry("PUSH_BC", 0xC5, 4, 4, 1, Operation::Push(Pair::BC))),
        0xD1 => Some(entry("POP_DE", 0xD1, 3, 3, 1, Operation::Pop(Pair::DE))),
        0xD5 => Some(entry("PUSH_DE", 0xD5, 4, 4, 1, Operation::Push(Pair::DE))),
        _ => None,
    }
}

/// The entries for the opcodes from `0xE0` to `0xFF`.
fn lookup_e0(opcode: u8) -> (found: Option<Instruction>)
    requires
        0xE0 <= opcode <= 0xFF,
    ensures
        spec_lookup(Family::Load, opcode, found),
{
    match opcode {
        0xE0 => Some(entry("LDH_A8_A", 0xE0, 3, 3, 2, Operation::StoreA(Indirect::HighImm))),
        0xE1 => Some(entry("POP_HL", 0xE1, 3, 3, 1, Operation::Pop(Pair::HL))),
        0xE2 => Some(entry("LDH_C_A", 0xE2, 2, 2, 1, Operation::StoreA(Indirect::HighC))),
        0xE5 => Some(entry("PUSH_HL", 0xE5, 4, 4, 1, Operation::Push(Pair::HL))),
        0xEA => Some(entry("LD_A16_A", 0xEA, 4, 4, 3, Operation::StoreA(Indirect::Abs))),
        0xF0 => Some(entry("LDH_A_A8", 0xF0, 3, 3, 2, Operation::LoadA(Indirect::HighImm))),
        0xF1 => Some(entry("POP_AF", 0xF1, 3, 3, 1, Operation::Pop(Pair::AF))),
        0xF2 => Some(entry("LDH_A_C", 0xF2, 2, 2, 1, Operation::LoadA(Indirect::HighC))),
        0xF5 => Some(entry("PUSH_AF", 0xF5, 4, 4, 1, Operation::Push(Pair::AF))),
        0xF8 => Some(entry("LD_HL_SP_S8", 0xF8, 3, 3, 2, Operation::LdHlSpOffset)),
        0xF9 => Some(entry("LD_SP_HL", 0xF9, 2, 2, 1, Operation::LdSpHl)),
        0xFA => Some(entry("LD_A_A16", 0xFA, 4, 4, 3, Operation::LoadA(Indirect::Abs))),
        _ => None,
    }
}

/// The entry of the catalog for `opcode`, if it names one of the
/// loads, stores and stack instructions.
pub fn lookup(opcode: u8) -> (found: Option<Instruction>)
    ensures
        spec_lookup(Family::Load, opcode, found),
{
    if opcode < 0x20 {
        lookup_00(opcode)
    } else if opcode < 0x40 {
        lookup_20(opcode)
    } else if opcode < 0x60 {
        lookup_40(opcode)
    } else if opcode < 0x80 {
        lookup_60(opcode)
    } else if opcode < 0xC0 {
        None
    } else if opcode < 0xE0 {
        lookup_c0(opcode)
    } else {
        lookup_e0(opcode)
    }
}

/// The loads, stores and stack instructions in the order of their opcodes.
pub fn get() -> (table: Vec<Instruction>)
    ensures
        spec_family_table(table@, Family::Load),
{
    collect(Family::Load)
}

} // verus!
