//! The instructions that follow the prefix byte `0xCB`: rotations and shifts
//! of a register or of `(HL)`, and the test, clearing and setting of one bit.
use vstd::prelude::*;
use crate::alu::{bit_mask, shift8, spec_bit_mask, spec_shift8, spec_shift_flags, Shift};
use crate::cpu::{CPU, State};
use crate::instructions::{
    collect, entry, spec_family_table, spec_lookup, Family, Instruction, Operation, Place,
};
use crate::reg::{Flags, Reg8};

verus! {

/// The state after an instruction of this family.
pub open spec fn spec_run(op: Operation, s: State) -> State {
    let flags = s.reg.spec_flags();
    match op {
        Operation::Shift(kind, place) => {
            let (value, out) = spec_shift8(kind, s.place(place), flags.c);
            s.with_place(place, value).with_flags(spec_shift_flags(value, out, true))
        },
        Operation::TestBit(n, place) => s.with_flags(
            Flags { z: s.place(place) & spec_bit_mask(n) == 0, n: false, h: true, c: flags.c },
        ),
        Operation::ResetBit(n, place) => s.with_place(place, s.place(place) & !spec_bit_mask(n)),
        Operation::SetBit(n, place) => s.with_place(place, s.place(place) | spec_bit_mask(n)),
        _ => s,
    }
}

/// Executes an instruction of this family.
pub fn run(op: Operation, cpu: &mut CPU)
    requires
        old(cpu).wf(),
        op.family() == Family::Prefixed,
        op.valid(),
    ensures
        final(cpu).wf(),
        final(cpu)@ == spec_run(op, old(cpu)@),
{
    let flags = cpu.reg.flags();
    match op {
        Operation::Shift(kind, place) => {
            let (value, out) = shift8(kind, cpu.read_place(place), flags.c);
            cpu.write_place(place, value);
            cpu.reg.set_flags(Flags { z: value == 0, n: false, h: false, c: out });
        },
        Operation::TestBit(n, place) => {
            let value = cpu.read_place(place);
            cpu.reg.set_flags(
                Flags { z: value & bit_mask(n) == 0, n: false, h: true, c: flags.c },
            );
        },
        Operation::ResetBit(n, place) => {
            let value = cpu.read_place(place);
            cpu.write_place(place, value & !bit_mask(n));
        },
        Operation::SetBit(n, place) => {
            let value = cpu.read_place(place);
            cpu.write_place(place, value | bit_mask(n));
        },
        _ => {},
    }
}

// The catalog of this family.

/// The entries for the opcodes from `0x00` to `0x1F`.
fn lookup_00(opcode: u8) -> (found: Option<Instruction>)
    requires
        0x00 <= opcode <= 0x1F,
    ensures
        spec_lookup(Family::Prefixed, opcode, found),
{
    match opcode {
        0x00 => Some(entry("RLC_B", 0x00, 2, 2, 2, Operation::Shift(Shift::Rlc, Place::Reg(Reg8::B)))),
        0x01 => Some(entry("RLC_C", 0x01, 2, 2, 2, Operation::Shift(Shift::Rlc, Place::Reg(Reg8::C)))),
        0x02 => Some(entry("RLC_D", 0x02, 2, 2, 2, Operation::Shift(Shift::Rlc, Place::Reg(Reg8::D)))),
        0x03 => Some(entry("RLC_E", 0x03, 2, 2, 2, Operation::Shift(Shift::Rlc, Place::Reg(Reg8::E)))),
        0x04 => Some(entry("RLC_H", 0x04, 2, 2, 2, Operation::Shift(Shift::Rlc, Place::Reg(Reg8::H)))),
        0x05 => Some(entry("RLC_L", 0x05, 2, 2, 2, Operation::Shift(Shift::Rlc, Place::Reg(Reg8::L)))),
        0x06 => Some(entry("RLC_HL", 0x06, 4, 4, 2, Operation::Shift(Shift::Rlc, Place::HLMem))),
        0x07 => Some(entry("RLC_A", 0x07, 2, 2, 2, Operation::Shift(Shift::Rlc, Place::Reg(Reg8::A)))),
        0x08 => Some(entry("RRC_B", 0x08, 2, 2, 2, Operation::Shift(Shift::Rrc, Place::Reg(Reg8::B)))),
        0x09 => Some(entry("RRC_C", 0x09, 2, 2, 2, Operation::Shift(Shift::Rrc, Place::Reg(Reg8::C)))),
        0x0A => Some(entry("RRC_D", 0x0A, 2, 2, 2, Operation::Shift(Shift::Rrc, Place::Reg(Reg8::D)))),
        0x0B => Some(entry("RRC_E", 0x0B, 2, 2, 2, Operation::Shift(Shift::Rrc, Place::Reg(Reg8::E)))),
        0x0C => Some(entry("RRC_H", 0x0C, 2, 2, 2, Operation::Shift(Shift::Rrc, Place::Reg(Reg8::H)))),
        0x0D => Some(entry("RRC_L", 0x0D, 2, 2, 2, Operation::Shift(Shift::Rrc, Place::Reg(Reg8::L)))),
        0x0E => Some(entry("RRC_HL", 0x0E, 4, 4, 2, Operation::Shift(Shift::Rrc, Place::HLMem))),
        0x0F => Some(entry("RRC_A", 0x0F, 2, 2, 2, Operation::Shift(Shift::Rrc, Place::Reg(Reg8::A)))),
        0x10 => Some(entry("RL_B", 0x10, 2, 2, 2, Operation::Shift(Shift::Rl, Place::Reg(Reg8::B)))),
        0x11 => Some(entry("RL_C", 0x11, 2, 2, 2, Operation::Shift(Shift::Rl, Place::Reg(Reg8::C)))),
        0x12 => Some(entry("RL_D", 0x12, 2, 2, 2, Operation::Shift(Shift::Rl, Place::Reg(Reg8::D)))),
        0x13 => Some(entry("RL_E", 0x13, 2, 2, 2, Operation::Shift(Shift::Rl, Place::Reg(Reg8::E)))),
        0x14 => Some(entry("RL_H", 0x14, 2, 2, 2, Operation::Shift(Shift::Rl, Place::Reg(Reg8::H)))),
        0x15 => Some(entry("RL_L", 0x15, 2, 2, 2, Operation::Shift(Shift::Rl, Place::Reg(Reg8::L)))),
        0x16 => Some(entry("RL_HL", 0x16, 4, 4, 2, Operation::Shift(Shift::Rl, Place::HLMem))),
        0x17 => Some(entry("RL_A", 0x17, 2, 2, 2, Operation::Shift(Shift::Rl, Place::Reg(Reg8::A)))),
        0x18 => Some(entry("RR_B", 0x18, 2, 2, 2, Operation::Shift(Shift::Rr, Place::Reg(Reg8::B)))),
        0x19 => Some(entry("RR_C", 0x19, 2, 2, 2, Operation::Shift(Shift::Rr, Place::Reg(Reg8::C)))),
        0x1A => Some(entry("RR_D", 0x1A, 2, 2, 2, Operation::Shift(Shift::Rr, Place::Reg(Reg8::D)))),
        0x1B => Some(entry("RR_E", 0x1B, 2, 2, 2, Operation::Shift(Shift::Rr, Place::Reg(Reg8::E)))),
        0x1C => Some(entry("RR_H", 0x1C, 2, 2, 2, Operation::Shift(Shift::Rr, Place::Reg(Reg8::H)))),
        0x1D => Some(entry("RR_L", 0x1D, 2, 2, 2, Operation::Shift(Shift::Rr, Place::Reg(Reg8::L)))),
        0x1E => Some(entry("RR_HL", 0x1E, 4, 4, 2, Operation::Shift(Shift::Rr, Place::HLMem))),
        0x1F => Some(entry("RR_A", 0x1F, 2, 2, 2, Operation::Shift(Shift::Rr, Place::Reg(Reg8::A)))),
        _ => None,
    }
}

/// The entries for the opcodes from `0x20` to `0x3F`.
fn lookup_20(opcode: u8) -> (found: Option<Instruction>)
    requires
        0x20 <= opcode <= 0x3F,
    ensures
        spec_lookup(Family::Prefixed, opcode, found),
{
    match opcode {
        0x20 => Some(entry("SLA_B", 0x20, 2, 2, 2, Operation::Shift(Shift::Sla, Place::Reg(Reg8::B)))),
        0x21 => Some(entry("SLA_C", 0x21, 2, 2, 2, Operation::Shift(Shift::Sla, Place::Reg(Reg8::C)))),
        0x22 => Some(entry("SLA_D", 0x22, 2, 2, 2, Operation::Shift(Shift::Sla, Place::Reg(Reg8::D)))),
        0x23 => Some(entry("SLA_E", 0x23, 2, 2, 2, Operation::Shift(Shift::Sla, Place::Reg(Reg8::E)))),
        0x24 => Some(entry("SLA_H", 0x24, 2, 2, 2, Operation::Shift(Shift::Sla, Place::Reg(Reg8::H)))),
        0x25 => Some(entry("SLA_L", 0x25, 2, 2, 2, Operation::Shift(Shift::Sla, Place::Reg(Reg8::L)))),
        0x26 => Some(entry("SLA_HL", 0x26, 4, 4, 2, Operation::Shift(Shift::Sla, Place::HLMem))),
        0x27 => Some(entry("SLA_A", 0x27, 2, 2, 2, Operation::Shift(Shift::Sla, Place::Reg(Reg8::A)))),
        0x28 => Some(entry("SRA_B", 0x28, 2, 2, 2, Operation::Shift(Shift::Sra, Place::Reg(Reg8::B)))),
        0x29 => Some(entry("SRA_C", 0x29, 2, 2, 2, Operation::Shift(Shift::Sra, Place::Reg(Reg8::C)))),
        0x2A => Some(entry("SRA_D", 0x2A, 2, 2, 2, Operation::Shift(Shift::Sra, Place::Reg(Reg8::D)))),
        0x2B => Some(entry("SRA_E", 0x2B, 2, 2, 2, Operation::Shift(Shift::Sra, Place::Reg(Reg8::E)))),
        0x2C => Some(entry("SRA_H", 0x2C, 2, 2, 2, Operation::Shift(Shift::Sra, Place::Reg(Reg8::H)))),
        0x2D => Some(entry("SRA_L", 0x2D, 2, 2, 2, Operation::Shift(Shift::Sra, Place::Reg(Reg8::L)))),
        0x2E => Some(entry("SRA_HL", 0x2E, 4, 4, 2, Operation::Shift(Shift::Sra, Place::HLMem))),
        0x2F => Some(entry("SRA_A", 0x2F, 2, 2, 2, Operation::Shift(Shift::Sra, Place::Reg(Reg8::A)))),
        0x30 => Some(entry("SWAP_B", 0x30, 2, 2, 2, Operation::Shift(Shift::Swap, Place::Reg(Reg8::B)))),
        0x31 => Some(entry("SWAP_C", 0x31, 2, 2, 2, Operation::Shift(Shift::Swap, Place::Reg(Reg8::C)))),
        0x32 => Some(entry("SWAP_D", 0x32, 2, 2, 2, Operation::Shift(Shift::Swap, Place::Reg(Reg8::D)))),
        0x33 => Some(entry("SWAP_E", 0x33, 2, 2, 2, Operation::Shift(Shift::Swap, Place::Reg(Reg8::E)))),
        0x34 => Some(entry("SWAP_H", 0x34, 2, 2, 2, Operation::Shift(Shift::Swap, Place::Reg(Reg8::H)))),
        0x35 => Some(entry("SWAP_L", 0x35, 2, 2, 2, Operation::Shift(Shift::Swap, Place::Reg(Reg8::L)))),
        0x36 => Some(entry("SWAP_HL", 0x36, 4, 4, 2, Operation::Shift(Shift::Swap, Place::HLMem))),
        0x37 => Some(entry("SWAP_A", 0x37, 2, 2, 2, Operation::Shift(Shift::Swap, Place::Reg(Reg8::A)))),
        0x38 => Some(entry("SRL_B", 0x38, 2, 2, 2, Operation::Shift(Shift::Srl, Place::Reg(Reg8::B)))),
        0x39 => Some(entry("SRL_C", 0x39, 2, 2, 2, Operation::Shift(Shift::Srl, Place::Reg(Reg8::C)))),
        0x3A => Some(entry("SRL_D", 0x3A, 2, 2, 2, Operation::Shift(Shift::Srl, Place::Reg(Reg8::D)))),
        0x3B => Some(entry("SRL_E", 0x3B, 2, 2, 2, Operation::Shift(Shift::Srl, Place::Reg(Reg8::E)))),
        0x3C => Some(entry("SRL_H", 0x3C, 2, 2, 2, Operation::Shift(Shift::Srl, Place::Reg(Reg8::H)))),
        0x3D => Some(entry("SRL_L", 0x3D, 2, 2, 2, Operation::Shift(Shift::Srl, Place::Reg(Reg8::L)))),
        0x3E => Some(entry("SRL_HL", 0x3E, 4, 4, 2, Operation::Shift(Shift::Srl, Place::HLMem))),
        0x3F => Some(entry("SRL_A", 0x3F, 2, 2, 2, Operation::Shift(Shift::Srl, Place::Reg(Reg8::A)))),
        _ => None,
    }
}

/// The entries for the opcodes from `0x40` to `0x5F`.
fn lookup_40(opcode: u8) -> (found: Option<Instruction>)
    requires
        0x40 <= opcode <= 0x5F,
    ensures
        spec_lookup(Family::Prefixed, opcode, found),
{
    match opcode {
        0x40 => Some(entry("BIT_0_B", 0x40, 2, 2, 2, Operation::TestBit(0, Place::Reg(Reg8::B)))),
        0x41 => Some(entry("BIT_0_C", 0x41, 2, 2, 2, Operation::TestBit(0, Place::Reg(Reg8::C)))),
        0x42 => Some(entry("BIT_0_D", 0x42, 2, 2, 2, Operation::TestBit(0, Place::Reg(Reg8::D)))),
        0x43 => Some(entry("BIT_0_E", 0x43, 2, 2, 2, Operation::TestBit(0, Place::Reg(Reg8::E)))),
        0x44 => Some(entry("BIT_0_H", 0x44, 2, 2, 2, Operation::TestBit(0, Place::Reg(Reg8::H)))),
        0x45 => Some(entry("BIT_0_L", 0x45, 2, 2, 2, Operation::TestBit(0, Place::Reg(Reg8::L)))),
        0x46 => Some(entry("BIT_0_HL", 0x46, 3, 3, 2, Operation::TestBit(0, Place::HLMem))),
        0x47 => Some(entry("BIT_0_A", 0x47, 2, 2, 2, Operation::TestBit(0, Place::Reg(Reg8::A)))),
        0x48 => Some(entry("BIT_1_B", 0x48, 2, 2, 2, Operation::TestBit(1, Place::Reg(Reg8::B)))),
        0x49 => Some(entry("BIT_1_C", 0x49, 2, 2, 2, Operation::TestBit(1, Place::Reg(Reg8::C)))),
        0x4A => Some(entry("BIT_1_D", 0x4A, 2, 2, 2, Operation::TestBit(1, Place::Reg(Reg8::D)))),
        0x4B => Some(entry("BIT_1_E", 0x4B, 2, 2, 2, Operation::TestBit(1, Place::Reg(Reg8::E)))),
        0x4C => Some(entry("BIT_1_H", 0x4C, 2, 2, 2, Operation::TestBit(1, Place::Reg(Reg8::H)))),
        0x4D => Some(entry("BIT_1_L", 0x4D, 2, 2, 2, Operation::TestBit(1, Place::Reg(Reg8::L)))),
        0x4E => Some(entry("BIT_1_HL", 0x4E, 3, 3, 2, Operation::TestBit(1, Place::HLMem))),
        0x4F => Some(entry("BIT_1_A", 0x4F, 2, 2, 2, Operation::TestBit(1, Place::Reg(Reg8::A)))),
        0x50 => Some(entry("BIT_2_B", 0x50, 2, 2, 2, Operation::TestBit(2, Place::Reg(Reg8::B)))),
        0x51 => Some(entry("BIT_2_C", 0x51, 2, 2, 2, Operation::TestBit(2, Place::Reg(Reg8::C)))),
        0x52 => Some(entry("BIT_2_D", 0x52, 2, 2, 2, Operation::TestBit(2, Place::Reg(Reg8::D)))),
        0x53 => Some(entry("BIT_2_E", 0x53, 2, 2, 2, Operation::TestBit(2, Place::Reg(Reg8::E)))),
        0x54 => Some(entry("BIT_2_H", 0x54, 2, 2, 2, Operation::TestBit(2, Place::Reg(Reg8::H)))),
        0x55 => Some(entry("BIT_2_L", 0x55, 2, 2, 2, Operation::TestBit(2, Place::Reg(Reg8::L)))),
        0x56 => Some(entry("BIT_2_HL", 0x56, 3, 3, 2, Operation::TestBit(2, Place::HLMem))),
        0x57 => Some(entry("BIT_2_A", 0x57, 2, 2, 2, Operation::TestBit(2, Place::Reg(Reg8::A)))),
        0x58 => Some(entry("BIT_3_B", 0x58, 2, 2, 2, Operation::TestBit(3, Place::Reg(Reg8::B)))),
        0x59 => Some(entry("BIT_3_C", 0x59, 2, 2, 2, Operation::TestBit(3, Place::Reg(Reg8::C)))),
        0x5A => Some(entry("BIT_3_D", 0x5A, 2, 2, 2, Operation::TestBit(3, Place::Reg(Reg8::D)))),
        0x5B => Some(entry("BIT_3_E", 0x5B, 2, 2, 2, Operation::TestBit(3, Place::Reg(Reg8::E)))),
        0x5C => Some(entry("BIT_3_H", 0x5C, 2, 2, 2, Operation::TestBit(3, Place::Reg(Reg8::H)))),
        0x5D => Some(entry("BIT_3_L", 0x5D, 2, 2, 2, Operation::TestBit(3, Place::Reg(Reg8::L)))),
        0x5E => Some(entry("BIT_3_HL", 0x5E, 3, 3, 2, Operation::TestBit(3, Place::HLMem))),
        0x5F => Some(entry("BIT_3_A", 0x5F, 2, 2, 2, Operation::TestBit(3, Place::Reg(Reg8::A)))),
        _ => None,
    }
}

/// The entries for the opcodes from `0x60` to `0x7F`.
fn lookup_60(opcode: u8) -> (found: Option<Instruction>)
    requires
        0x60 <= opcode <= 0x7F,
    ensures
        spec_lookup(Family::Prefixed, opcode, found),
{
    match opcode {
        0x60 => Some(entry("BIT_4_B", 0x60, 2, 2, 2, Operation::TestBit(4, Place::Reg(Reg8::B)))),
        0x61 => Some(entry("BIT_4_C", 0x61, 2, 2, 2, Operation::TestBit(4, Place::Reg(Reg8::C)))),
        0x62 => Some(entry("BIT_4_D", 0x62, 2, 2, 2, Operation::TestBit(4, Place::Reg(Reg8::D)))),
        0x63 => Some(entry("BIT_4_E", 0x63, 2, 2, 2, Operation::TestBit(4, Place::Reg(Reg8::E)))),
        0x64 => Some(entry("BIT_4_H", 0x64, 2, 2, 2, Operation::TestBit(4, Place::Reg(Reg8::H)))),
        0x65 => Some(entry("BIT_4_L", 0x65, 2, 2, 2, Operation::TestBit(4, Place::Reg(Reg8::L)))),
        0x66 => Some(entry("BIT_4_HL", 0x66, 3, 3, 2, Operation::TestBit(4, Place::HLMem))),
        0x67 => Some(entry("BIT_4_A", 0x67, 2, 2, 2, Operation::TestBit(4, Place::Reg(Reg8::A)))),
        0x68 => Some(entry("BIT_5_B", 0x68, 2, 2, 2, Operation::TestBit(5, Place::Reg(Reg8::B)))),
        0x69 => Some(entry("BIT_5_C", 0x69, 2, 2, 2, Operation::TestBit(5, Place::Reg(Reg8::C)))),
        0x6A => Some(entry("BIT_5_D", 0x6A, 2, 2, 2, Operation::TestBit(5, Place::Reg(Reg8::D)))),
        0x6B => Some(entry("BIT_5_E", 0x6B, 2, 2, 2, Operation::TestBit(5, Place::Reg(Reg8::E)))),
        0x6C => Some(entry("BIT_5_H", 0x6C, 2, 2, 2, Operation::TestBit(5, Place::Reg(Reg8::H)))),
        0x6D => Some(entry("BIT_5_L", 0x6D, 2, 2, 2, Operation::TestBit(5, Place::Reg(Reg8::L)))),
        0x6E => Some(entry("BIT_5_HL", 0x6E, 3, 3, 2, Operation::TestBit(5, Place::HLMem))),
        0x6F => Some(entry("BIT_5_A", 0x6F, 2, 2, 2, Operation::TestBit(5, Place::Reg(Reg8::A)))),
        0x70 => Some(entry("BIT_6_B", 0x70, 2, 2, 2, Operation::TestBit(6, Place::Reg(Reg8::B)))),
        0x71 => Some(entry("BIT_6_C", 0x71, 2, 2, 2, Operation::TestBit(6, Place::Reg(Reg8::C)))),
        0x72 => Some(entry("BIT_6_D", 0x72, 2, 2, 2, Operation::TestBit(6, Place::Reg(Reg8::D)))),
        0x73 => Some(entry("BIT_6_E", 0x73, 2, 2, 2, Operation::TestBit(6, Place::Reg(Reg8::E)))),
        0x74 => Some(entry("BIT_6_H", 0x74, 2, 2, 2, Operation::TestBit(6, Place::Reg(Reg8::H)))),
        0x75 => Some(entry("BIT_6_L", 0x75, 2, 2, 2, Operation::TestBit(6, Place::Reg(Reg8::L)))),
        0x76 => Some(entry("BIT_6_HL", 0x76, 3, 3, 2, Operation::TestBit(6, Place::HLMem))),
        0x77 => Some(entry("BIT_6_A", 0x77, 2, 2, 2, Operation::TestBit(6, Place::Reg(Reg8::A)))),
        0x78 => Some(entry("BIT_7_B", 0x78, 2, 2, 2, Operation::TestBit(7, Place::Reg(Reg8::B)))),
        0x79 => Some(entry("BIT_7_C", 0x79, 2, 2, 2, Operation::TestBit(7, Place::Reg(Reg8::C)))),
        0x7A => Some(entry("BIT_7_D", 0x7A, 2, 2, 2, Operation::TestBit(7, Place::Reg(Reg8::D)))),
        0x7B => Some(entry("BIT_7_E", 0x7B, 2, 2, 2, Operation::TestBit(7, Place::Reg(Reg8::E)))),
        0x7C => Some(entry("BIT_7_H", 0x7C, 2, 2, 2, Operation::TestBit(7, Place::Reg(Reg8::H)))),
        0x7D => Some(entry("BIT_7_L", 0x7D, 2, 2, 2, Operation::TestBit(7, Place::Reg(Reg8::L)))),
        0x7E => Some(entry("BIT_7_HL", 0x7E, 3, 3, 2, Operation::TestBit(7, Place::HLMem))),
        0x7F => Some(entry("BIT_7_A", 0x7F, 2, 2, 2, Operation::TestBit(7, Place::Reg(Reg8::A)))),
        _ => None,
    }
}

/// The entries for the opcodes from `0x80` to `0x9F`.
fn lookup_80(opcode: u8) -> (found: Option<Instruction>)
    requires
        0x80 <= opcode <= 0x9F,
    ensures
        spec_lookup(Family::Prefixed, opcode, found),
{
    match opcode {
        0x80 => Some(entry("RES_0_B", 0x80, 2, 2, 2, Operation::ResetBit(0, Place::Reg(Reg8::B)))),
        0x81 => Some(entry("RES_0_C", 0x81, 2, 2, 2, Operation::ResetBit(0, Place::Reg(Reg8::C)))),
        0x82 => Some(entry("RES_0_D", 0x82, 2, 2, 2, Operation::ResetBit(0, Place::Reg(Reg8::D)))),
        0x83 => Some(entry("RES_0_E", 0x83, 2, 2, 2, Operation::ResetBit(0, Place::Reg(Reg8::E)))),
        0x84 => Some(entry("RES_0_H", 0x84, 2, 2, 2, Operation::ResetBit(0, Place::Reg(Reg8::H)))),
        0x85 => Some(entry("RES_0_L", 0x85, 2, 2, 2, Operation::ResetBit(0, Place::Reg(Reg8::L)))),
        0x86 => Some(entry("RES_0_HL", 0x86, 4, 4, 2, Operation::ResetBit(0, Place::HLMem))),
        0x87 => Some(entry("RES_0_A", 0x87, 2, 2, 2, Operation::ResetBit(0, Place::Reg(Reg8::A)))),
        0x88 => Some(entry("RES_1_B", 0x88, 2, 2, 2, Operation::ResetBit(1, Place::Reg(Reg8::B)))),
        0x89 => Some(entry("RES_1_C", 0x89, 2, 2, 2, Operation::ResetBit(1, Place::Reg(Reg8::C)))),
        0x8A => Some(entry("RES_1_D", 0x8A, 2, 2, 2, Operation::ResetBit(1, Place::Reg(Reg8::D)))),
        0x8B => Some(entry("RES_1_E", 0x8B, 2, 2, 2, Operation::ResetBit(1, Place::Reg(Reg8::E)))),
        0x8C => Some(entry("RES_1_H", 0x8C, 2, 2, 2, Operation::ResetBit(1, Place::Reg(Reg8::H)))),
        0x8D => Some(entry("RES_1_L", 0x8D, 2, 2, 2, Operation::ResetBit(1, Place::Reg(Reg8::L)))),
        0x8E => Some(entry("RES_1_HL", 0x8E, 4, 4, 2, Operation::ResetBit(1, Place::HLMem))),
        0x8F => Some(entry("RES_1_A", 0x8F, 2, 2, 2, Operation::ResetBit(1, Place::Reg(Reg8::A)))),
        0x90 => Some(entry("RES_2_B", 0x90, 2, 2, 2, Operation::ResetBit(2, Place::Reg(Reg8::B)))),
        0x91 => Some(entry("RES_2_C", 0x91, 2, 2, 2, Operation::ResetBit(2, Place::Reg(Reg8::C)))),
        0x92 => Some(entry("RES_2_D", 0x92, 2, 2, 2, Operation::ResetBit(2, Place::Reg(Reg8::D)))),
        0x93 => Some(entry("RES_2_E", 0x93, 2, 2, 2, Operation::ResetBit(2, Place::Reg(Reg8::E)))),
        0x94 => Some(entry("RES_2_H", 0x94, 2, 2, 2, Operation::ResetBit(2, Place::Reg(Reg8::H)))),
        0x95 => Some(entry("RES_2_L", 0x95, 2, 2, 2, Operation::ResetBit(2, Place::Reg(Reg8::L)))),
        0x96 => Some(entry("RES_2_HL", 0x96, 4, 4, 2, Operation::ResetBit(2, Place::HLMem))),
        0x97 => Some(entry("RES_2_A", 0x97, 2, 2, 2, Operation::ResetBit(2, Place::Reg(Reg8::A)))),
        0x98 => Some(entry("RES_3_B", 0x98, 2, 2, 2, Operation::ResetBit(3, Place::Reg(Reg8::B)))),
        0x99 => Some(entry("RES_3_C", 0x99, 2, 2, 2, Operation::ResetBit(3, Place::Reg(Reg8::C)))),
        0x9A => Some(entry("RES_3_D", 0x9A, 2, 2, 2, Operation::ResetBit(3, Place::Reg(Reg8::D)))),
        0x9B => Some(entry("RES_3_E", 0x9B, 2, 2, 2, Operation::ResetBit(3, Place::Reg(Reg8::E)))),
        0x9C => Some(entry("RES_3_H", 0x9C, 2, 2, 2, Operation::ResetBit(3, Place::Reg(Reg8::H)))),
        0x9D => Some(entry("RES_3_L", 0x9D, 2, 2, 2, Operation::ResetBit(3, Place::Reg(Reg8::L)))),
        0x9E => Some(entry("RES_3_HL", 0x9E, 4, 4, 2, Operation::ResetBit(3, Place::HLMem))),
        0x9F => Some(entry("RES_3_A", 0x9F, 2, 2, 2, Operation::ResetBit(3, Place::Reg(Reg8::A)))),
        _ => None,
    }
}

/// The entries for the opcodes from `0xA0` to `0xBF`.
fn lookup_a0(opcode: u8) -> (found: Option<Instruction>)
    requires
        0xA0 <= opcode <= 0xBF,
    ensures
        spec_lookup(Family::Prefixed, opcode, found),
{
    match opcode {
        0xA0 => Some(entry("RES_4_B", 0xA0, 2, 2, 2, Operation::ResetBit(4, Place::Reg(Reg8::B)))),
        0xA1 => Some(entry("RES_4_C", 0xA1, 2, 2, 2, Operation::ResetBit(4, Place::Reg(Reg8::C)))),
        0xA2 => Some(entry("RES_4_D", 0xA2, 2, 2, 2, Operation::ResetBit(4, Place::Reg(Reg8::D)))),
        0xA3 => Some(entry("RES_4_E", 0xA3, 2, 2, 2, Operation::ResetBit(4, Place::Reg(Reg8::E)))),
        0xA4 => Some(entry("RES_4_H", 0xA4, 2, 2, 2, Operation::ResetBit(4, Place::Reg(Reg8::H)))),
        0xA5 => Some(entry("RES_4_L", 0xA5, 2, 2, 2, Operation::ResetBit(4, Place::Reg(Reg8::L)))),
        0xA6 => Some(entry("RES_4_HL", 0xA6, 4, 4, 2, Operation::ResetBit(4, Place::HLMem))),
        0xA7 => Some(entry("RES_4_A", 0xA7, 2, 2, 2, Operation::ResetBit(4, Place::Reg(Reg8::A)))),
        0xA8 => Some(entry("RES_5_B", 0xA8, 2, 2, 2, Operation::ResetBit(5, Place::Reg(Reg8::B)))),
        0xA9 => Some(entry("RES_5_C", 0xA9, 2, 2, 2, Operation::ResetBit(5, Place::Reg(Reg8::C)))),
        0xAA => Some(entry("RES_5_D", 0xAA, 2, 2, 2, Operation::ResetBit(5, Place::Reg(Reg8::D)))),
        0xAB => Some(entry("RES_5_E", 0xAB, 2, 2, 2, Operation::ResetBit(5, Place::Reg(Reg8::E)))),
        0xAC => Some(entry("RES_5_H", 0xAC, 2, 2, 2, Operation::ResetBit(5, Place::Reg(Reg8::H)))),
        0xAD => Some(entry("RES_5_L", 0xAD, 2, 2, 2, Operation::ResetBit(5, Place::Reg(Reg8::L)))),
        0xAE => Some(entry("RES_5_HL", 0xAE, 4, 4, 2, Operation::ResetBit(5, Place::HLMem))),
        0xAF => Some(entry("RES_5_A", 0xAF, 2, 2, 2, Operation::ResetBit(5, Place::Reg(Reg8::A)))),
        0xB0 => Some(entry("RES_6_B", 0xB0, 2, 2, 2, Operation::ResetBit(6, Place::Reg(Reg8::B)))),
        0xB1 => Some(entry("RES_6_C", 0xB1, 2, 2, 2, Operation::ResetBit(6, Place::Reg(Reg8::C)))),
        0xB2 => Some(entry("RES_6_D", 0xB2, 2, 2, 2, Operation::ResetBit(6, Place::Reg(Reg8::D)))),
        0xB3 => Some(entry("RES_6_E", 0xB3, 2, 2, 2, Operation::ResetBit(6, Place::Reg(Reg8::E)))),
        0xB4 => Some(entry("RES_6_H", 0xB4, 2, 2, 2, Operation::ResetBit(6, Place::Reg(Reg8::H)))),
        0xB5 => Some(entry("RES_6_L", 0xB5, 2, 2, 2, Operation::ResetBit(6, Place::Reg(Reg8::L)))),
        0xB6 => Some(entry("RES_6_HL", 0xB6, 4, 4, 2, Operation::ResetBit(6, Place::HLMem))),
        0xB7 => Some(entry("RES_6_A", 0xB7, 2, 2, 2, Operation::ResetBit(6, Place::Reg(Reg8::A)))),
        0xB8 => Some(entry("RES_7_B", 0xB8, 2, 2, 2, Operation::ResetBit(7, Place::Reg(Reg8::B)))),
        0xB9 => Some(entry("RES_7_C", 0xB9, 2, 2, 2, Operation::ResetBit(7, Place::Reg(Reg8::C)))),
        0xBA => Some(entry("RES_7_D", 0xBA, 2, 2, 2, Operation::ResetBit(7, Place::Reg(Reg8::D)))),
        0xBB => Some(entry("RES_7_E", 0xBB, 2, 2, 2, Operation::ResetBit(7, Place::Reg(Reg8::E)))),
        0xBC => Some(entry("RES_7_H", 0xBC, 2, 2, 2, Operation::ResetBit(7, Place::Reg(Reg8::H)))),
        0xBD => Some(entry("RES_7_L", 0xBD, 2, 2, 2, Operation::ResetBit(7, Place::Reg(Reg8::L)))),
        0xBE => Some(entry("RES_7_HL", 0xBE, 4, 4, 2, Operation::ResetBit(7, Place::HLMem))),
        0xBF => Some(entry("RES_7_A", 0xBF, 2, 2, 2, Operation::ResetBit(7, Place::Reg(Reg8::A)))),
        _ => None,
    }
}

/// The entries for the opcodes from `0xC0` to `0xDF`.
fn lookup_c0(opcode: u8) -> (found: Option<Instruction>)
    requires
        0xC0 <= opcode <= 0xDF,
    ensures
        spec_lookup(Family::Prefixed, opcode, found),
{
    match opcode {
        0xC0 => Some(entry("SET_0_B", 0xC0, 2, 2, 2, Operation::SetBit(0, Place::Reg(Reg8::B)))),
        0xC1 => Some(entry("SET_0_C", 0xC1, 2, 2, 2, Operation::SetBit(0, Place::Reg(Reg8::C)))),
        0xC2 => Some(entry("SET_0_D", 0xC2, 2, 2, 2, Operation::SetBit(0, Place::Reg(Reg8::D)))),
        0xC3 => Some(entry("SET_0_E", 0xC3, 2, 2, 2, Operation::SetBit(0, Place::Reg(Reg8::E)))),
        0xC4 => Some(entry("SET_0_H", 0xC4, 2, 2, 2, Operation::SetBit(0, Place::Reg(Reg8::H)))),
        0xC5 => Some(entry("SET_0_L", 0xC5, 2, 2, 2, Operation::SetBit(0, Place::Reg(Reg8::L)))),
        0xC6 => Some(entry("SET_0_HL", 0xC6, 4, 4, 2, Operation::SetBit(0, Place::HLMem))),
        0xC7 => Some(entry("SET_0_A", 0xC7, 2, 2, 2, Operation::SetBit(0, Place::Reg(Reg8::A)))),
        0xC8 => Some(entry("SET_1_B", 0xC8, 2, 2, 2, Operation::SetBit(1, Place::Reg(Reg8::B)))),
        0xC9 => Some(entry("SET_1_C", 0xC9, 2, 2, 2, Operation::SetBit(1, Place::Reg(Reg8::C)))),
        0xCA => Some(entry("SET_1_D", 0xCA, 2, 2, 2, Operation::SetBit(1, Place::Reg(Reg8::D)))),
        0xCB => Some(entry("SET_1_E", 0xCB, 2, 2, 2, Operation::SetBit(1, Place::Reg(Reg8::E)))),
        0xCC => Some(entry("SET_1_H", 0xCC, 2, 2, 2, Operation::SetBit(1, Place::Reg(Reg8::H)))),
        0xCD => Some(entry("SET_1_L", 0xCD, 2, 2, 2, Operation::SetBit(1, Place::Reg(Reg8::L)))),
        0xCE => Some(entry("SET_1_HL", 0xCE, 4, 4, 2, Operation::SetBit(1, Place::HLMem))),
        0xCF => Some(entry("SET_1_A", 0xCF, 2, 2, 2, Operation::SetBit(1, Place::Reg(Reg8::A)))),
        0xD0 => Some(entry("SET_2_B", 0xD0, 2, 2, 2, Operation::SetBit(2, Place::Reg(Reg8::B)))),
        0xD1 => Some(entry("SET_2_C", 0xD1, 2, 2, 2, Operation::SetBit(2, Place::Reg(Reg8::C)))),
        0xD2 => Some(entry("SET_2_D", 0xD2, 2, 2, 2, Operation::SetBit(2, Place::Reg(Reg8::D)))),
        0xD3 => Some(entry("SET_2_E", 0xD3, 2, 2, 2, Operation::SetBit(2, Place::Reg(Reg8::E)))),
        0xD4 => Some(entry("SET_2_H", 0xD4, 2, 2, 2, Operation::SetBit(2, Place::Reg(Reg8::H)))),
        0xD5 => Some(entry("SET_2_L", 0xD5, 2, 2, 2, Operation::SetBit(2, Place::Reg(Reg8::L)))),
        0xD6 => Some(entry("SET_2_HL", 0xD6, 4, 4, 2, Operation::SetBit(2, Place::HLMem))),
        0xD7 => Some(entry("SET_2_A", 0xD7, 2, 2, 2, Operation::SetBit(2, Place::Reg(Reg8::A)))),
        0xD8 => Some(entry("SET_3_B", 0xD8, 2, 2, 2, Operation::SetBit(3, Place::Reg(Reg8::B)))),
        0xD9 => Some(entry("SET_3_C", 0xD9, 2, 2, 2, Operation::SetBit(3, Place::Reg(Reg8::C)))),
        0xDA => Some(entry("SET_3_D", 0xDA, 2, 2, 2, Operation::SetBit(3, Place::Reg(Reg8::D)))),
        0xDB => Some(entry("SET_3_E", 0xDB, 2, 2, 2, Operation::SetBit(3, Place::Reg(Reg8::E)))),
        0xDC => Some(entry("SET_3_H", 0xDC, 2, 2, 2, Operation::SetBit(3, Place::Reg(Reg8::H)))),
        0xDD => Some(entry("SET_3_L", 0xDD, 2, 2, 2, Operation::SetBit(3, Place::Reg(Reg8::L)))),
        0xDE => Some(entry("SET_3_HL", 0xDE, 4, 4, 2, Operation::SetBit(3, Place::HLMem))),
        0xDF => Some(entry("SET_3_A", 0xDF, 2, 2, 2, Operation::SetBit(3, Place::Reg(Reg8::A)))),
        _ => None,
    }
}

/// The entries for the opcodes from `0xE0` to `0xFF`.
fn lookup_e0(opcode: u8) -> (found: Option<Instruction>)
    requires
        0xE0 <= opcode <= 0xFF,
    ensures
        spec_lookup(Family::Prefixed, opcode, found),
{
    match opcode {
        0xE0 => Some(entry("SET_4_B", 0xE0, 2, 2, 2, Operation::SetBit(4, Place::Reg(Reg8::B)))),
        0xE1 => Some(entry("SET_4_C", 0xE1, 2, 2, 2, Operation::SetBit(4, Place::Reg(Reg8::C)))),
        0xE2 => Some(entry("SET_4_D", 0xE2, 2, 2, 2, Operation::SetBit(4, Place::Reg(Reg8::D)))),
        0xE3 => Some(entry("SET_4_E", 0xE3, 2, 2, 2, Operation::SetBit(4, Place::Reg(Reg8::E)))),
        0xE4 => Some(entry("SET_4_H", 0xE4, 2, 2, 2, Operation::SetBit(4, Place::Reg(Reg8::H)))),
        0xE5 => Some(entry("SET_4_L", 0xE5, 2, 2, 2, Operation::SetBit(4, Place::Reg(Reg8::L)))),
        0xE6 => Some(entry("SET_4_HL", 0xE6, 4, 4, 2, Operation::SetBit(4, Place::HLMem))),
        0xE7 => Some(entry("SET_4_A", 0xE7, 2, 2, 2, Operation::SetBit(4, Place::Reg(Reg8::A)))),
        0xE8 => Some(entry("SET_5_B", 0xE8, 2, 2, 2, Operation::SetBit(5, Place::Reg(Reg8::B)))),
        0xE9 => Some(entry("SET_5_C", 0xE9, 2, 2, 2, Operation::SetBit(5, Place::Reg(Reg8::C)))),
        0xEA => Some(entry("SET_5_D", 0xEA, 2, 2, 2, Operation::SetBit(5, Place::Reg(Reg8::D)))),
        0xEB => Some(entry("SET_5_E", 0xEB, 2, 2, 2, Operation::SetBit(5, Place::Reg(Reg8::E)))),
        0xEC => Some(entry("SET_5_H", 0xEC, 2, 2, 2, Operation::SetBit(5, Place::Reg(Reg8::H)))),
        0xED => Some(entry("SET_5_L", 0xED, 2, 2, 2, Operation::SetBit(5, Place::Reg(Reg8::L)))),
        0xEE => Some(entry("SET_5_HL", 0xEE, 4, 4, 2, Operation::SetBit(5, Place::HLMem))),
        0xEF => Some(entry("SET_5_A", 0xEF, 2, 2, 2, Operation::SetBit(5, Place::Reg(Reg8::A)))),
        0xF0 => Some(entry("SET_6_B", 0xF0, 2, 2, 2, Operation::SetBit(6, Place::Reg(Reg8::B)))),
        0xF1 => Some(entry("SET_6_C", 0xF1, 2, 2, 2, Operation::SetBit(6, Place::Reg(Reg8::C)))),
        0xF2 => Some(entry("SET_6_D", 0xF2, 2, 2, 2, Operation::SetBit(6, Place::Reg(Reg8::D)))),
        0xF3 => Some(entry("SET_6_E", 0xF3, 2, 2, 2, Operation::SetBit(6, Place::Reg(Reg8::E)))),
        0xF4 => Some(entry("SET_6_H", 0xF4, 2, 2, 2, Operation::SetBit(6, Place::Reg(Reg8::H)))),
        0xF5 => Some(entry("SET_6_L", 0xF5, 2, 2, 2, Operation::SetBit(6, Place::Reg(Reg8::L)))),
        0xF6 => Some(entry("SET_6_HL", 0xF6, 4, 4, 2, Operation::SetBit(6, Place::HLMem))),
        0xF7 => Some(entry("SET_6_A", 0xF7, 2, 2, 2, Operation::SetBit(6, Place::Reg(Reg8::A)))),
        0xF8 => Some(entry("SET_7_B", 0xF8, 2, 2, 2, Operation::SetBit(7, Place::Reg(Reg8::B)))),
        0xF9 => Some(entry("SET_7_C", 0xF9, 2, 2, 2, Operation::SetBit(7, Place::Reg(Reg8::C)))),
        0xFA => Some(entry("SET_7_D", 0xFA, 2, 2, 2, Operation::SetBit(7, Place::Reg(Reg8::D)))),
        0xFB => Some(entry("SET_7_E", 0xFB, 2, 2, 2, Operation::SetBit(7, Place::Reg(Reg8::E)))),
        0xFC => Some(entry("SET_7_H", 0xFC, 2, 2, 2, Operation::SetBit(7, Place::Reg(Reg8::H)))),
        0xFD => Some(entry("SET_7_L", 0xFD, 2, 2, 2, Operation::SetBit(7, Place::Reg(Reg8::L)))),
        0xFE => Some(entry("SET_7_HL", 0xFE, 4, 4, 2, Operation::SetBit(7, Place::HLMem))),
        0xFF => Some(entry("SET_7_A", 0xFF, 2, 2, 2, Operation::SetBit(7, Place::Reg(Reg8::A)))),
        _ => None,
    }
}

/// The entry of the catalog for `opcode`, if it names one of the
/// prefixed instructions.
pub fn lookup(opcode: u8) -> (found: Option<Instruction>)
    ensures
        spec_lookup(Family::Prefixed, opcode, found),
{
    if opcode < 0x20 {
        lookup_00(opcode)
    } else if opcode < 0x40 {
        lookup_20(opcode)
    } else if opcode < 0x60 {
        lookup_40(opcode)
    } else if opcode < 0x80 {
        lookup_60(opcode)
    } else if opcode < 0xA0 {
        lookup_80(opcode)
    } else if opcode < 0xC0 {
        lookup_a0(opcode)
    } else if opcode < 0xE0 {
        lookup_c0(opcode)
    } else {
        lookup_e0(opcode)
    }
}

/// The prefixed instructions in the order of their opcodes.
pub fn get() -> (table: Vec<Instruction>)
    ensures
        spec_family_table(table@, Family::Prefixed),
{
    collect(Family::Prefixed)
}

} // verus!
