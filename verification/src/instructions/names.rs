//! The names of the instructions: the mnemonic under which the catalog
//! lists each one, and the unprefixed instructions as an assembler writes
//! them.
use vstd::prelude::*;

verus! {

/// The names for the opcodes from `0x00` to `0x1F`.
pub open spec fn mnemonics_00(opcode: u8) -> Seq<char> {
    match opcode {
        0x00 => "NOP"@,
        0x01 => "LD_BC_D16"@,
        0x02 => "LD_BC_A"@,
        0x03 => "INC_BC"@,
        0x04 => "INC_B"@,
        0x05 => "DEC_B"@,
        0x06 => "LD_B_D8"@,
        0x07 => "RLCA"@,
        0x08 => "LD_A16_SP"@,
        0x09 => "ADD_HL_BC"@,
        0x0A => "LD_A_BC"@,
        0x0B => "DEC_BC"@,
        0x0C => "INC_C"@,
        0x0D => "DEC_C"@,
        0x0E => "LD_C_D8"@,
        0x0F => "RRCA"@,
        0x10 => "STOP"@,
        0x11 => "LD_DE_D16"@,
        0x12 => "LD_DE_A"@,
        0x13 => "INC_DE"@,
        0x14 => "INC_D"@,
        0x15 => "DEC_D"@,
        0x16 => "LD_D_D8"@,
        0x17 => "RLA"@,
        0x18 => "JR_S8"@,
        0x19 => "ADD_HL_DE"@,
        0x1A => "LD_A_DE"@,
        0x1B => "DEC_DE"@,
        0x1C => "INC_E"@,
        0x1D => "DEC_E"@,
        0x1E => "LD_E_D8"@,
        0x1F => "RRA"@,
        _ => "?"@,
    }
}

/// The names for the opcodes from `0x20` to `0x3F`.
pub open spec fn mnemonics_20(opcode: u8) -> Seq<char> {
    match opcode {
        0x20 => "JR_NZ_S8"@,
        0x21 => "LD_HL_D16"@,
        0x22 => "LD_HLI_A"@,
        0x23 => "INC_HL"@,
        0x24 => "INC_H"@,
        0x25 => "DEC_H"@,
        0x26 => "LD_H_D8"@,
        0x27 => "DAA"@,
        0x28 => "JR_Z_S8"@,
        0x29 => "ADD_HL_HL"@,
        0x2A => "LD_A_HLI"@,
        0x2B => "DEC_HL"@,
        0x2C => "INC_L"@,
        0x2D => "DEC_L"@,
        0x2E => "LD_L_D8"@,
        0x2F => "CPL"@,
        0x30 => "JR_NC_S8"@,
        0x31 => "LD_SP_D16"@,
        0x32 => "LD_HLD_A"@,
        0x33 => "INC_SP"@,
        0x34 => "INC_AT_HL"@,
        0x35 => "DEC_AT_HL"@,
        0x36 => "LD_AT_HL_D8"@,
        0x37 => "SCF"@,
        0x38 => "JR_C_S8"@,
        0x39 => "ADD_HL_SP"@,
        0x3A => "LD_A_HLD"@,
        0x3B => "DEC_SP"@,
        0x3C => "INC_A"@,
        0x3D => "DEC_A"@,
        0x3E => "LD_A_D8"@,
        0x3F => "CCF"@,
        _ => "?"@,
    }
}

/// The names for the opcodes from `0x40` to `0x5F`.
pub open spec fn mnemonics_40(opcode: u8) -> Seq<char> {
    match opcode {
        0x40 => "LD_B_B"@,
        0x41 => "LD_B_C"@,
        0x42 => "LD_B_D"@,
        0x43 => "LD_B_E"@,
        0x44 => "LD_B_H"@,
        0x45 => "LD_B_L"@,
        0x46 => "LD_B_HL"@,
        0x47 => "LD_B_A"@,
        0x48 => "LD_C_B"@,
        0x49 => "LD_C_C"@,
        0x4A => "LD_C_D"@,
        0x4B => "LD_C_E"@,
        0x4C => "LD_C_H"@,
        0x4D => "LD_C_L"@,
        0x4E => "LD_C_HL"@,
        0x4F => "LD_C_A"@,
        0x50 => "LD_D_B"@,
        0x51 => "LD_D_C"@,
        0x52 => "LD_D_D"@,
        0x53 => "LD_D_E"@,
        0x54 => "LD_D_H"@,
        0x55 => "LD_D_L"@,
        0x56 => "LD_D_HL"@,
        0x57 => "LD_D_A"@,
        0x58 => "LD_E_B"@,
        0x59 => "LD_E_C"@,
        0x5A => "LD_E_D"@,
        0x5B => "LD_E_E"@,
        0x5C => "LD_E_H"@,
        0x5D => "LD_E_L"@,
        0x5E => "LD_E_HL"@,
        0x5F => "LD_E_A"@,
        _ => "?"@,
    }
}

/// The names for the opcodes from `0x60` to `0x7F`.
pub open spec fn mnemonics_60(opcode: u8) -> Seq<char> {
    match opcode {
        0x60 => "LD_H_B"@,
        0x61 => "LD_H_C"@,
        0x62 => "LD_H_D"@,
        0x63 => "LD_H_E"@,
        0x64 => "LD_H_H"@,
        0x65 => "LD_H_L"@,
        0x66 => "LD_H_HL"@,
        0x67 => "LD_H_A"@,
        0x68 => "LD_L_B"@,
        0x69 => "LD_L_C"@,
        0x6A => "LD_L_D"@,
        0x6B => "LD_L_E"@,
        0x6C => "LD_L_H"@,
        0x6D => "LD_L_L"@,
        0x6E => "LD_L_HL"@,
        0x6F => "LD_L_A"@,
        0x70 => "LD_HL_B"@,
        0x71 => "LD_HL_C"@,
        0x72 => "LD_HL_D"@,
        0x73 => "LD_HL_E"@,
        0x74 => "LD_HL_H"@,
        0x75 => "LD_HL_L"@,
        0x76 => "HALT"@,
        0x77 => "LD_HL_A"@,
        0x78 => "LD_A_B"@,
        0x79 => "LD_A_C"@,
        0x7A => "LD_A_D"@,
        0x7B => "LD_A_E"@,
        0x7C => "LD_A_H"@,
        0x7D => "LD_A_L"@,
        0x7E => "LD_A_HL"@,
        0x7F => "LD_A_A"@,
        _ => "?"@,
    }
}

/// The names for the opcodes from `0x80` to `0x9F`.
pub open spec fn mnemonics_80(opcode: u8) -> Seq<char> {
    match opcode {
        0x80 => "ADD_A_B"@,
        0x81 => "ADD_A_C"@,
        0x82 => "ADD_A_D"@,
        0x83 => "ADD_A_E"@,
        0x84 => "ADD_A_H"@,
        0x85 => "ADD_A_L"@,
        0x86 => "ADD_A_HL"@,
        0x87 => "ADD_A_A"@,
        0x88 => "ADC_A_B"@,
        0x89 => "ADC_A_C"@,
        0x8A => "ADC_A_D"@,
        0x8B => "ADC_A_E"@,
        0x8C => "ADC_A_H"@,
        0x8D => "ADC_A_L"@,
        0x8E => "ADC_A_HL"@,
        0x8F => "ADC_A_A"@,
        0x90 => "SUB_B"@,
        0x91 => "SUB_C"@,
        0x92 => "SUB_D"@,
        0x93 => "SUB_E"@,
        0x94 => "SUB_H"@,
        0x95 => "SUB_L"@,
        0x96 => "SUB_HL"@,
        0x97 => "SUB_A"@,
        0x98 => "SBC_A_B"@,
        0x99 => "SBC_A_C"@,
        0x9A => "SBC_A_D"@,
        0x9B => "SBC_A_E"@,
        0x9C => "SBC_A_H"@,
        0x9D => "SBC_A_L"@,
        0x9E => "SBC_A_HL"@,
        0x9F => "SBC_A_A"@,
        _ => "?"@,
    }
}

/// The names for the opcodes from `0xA0` to `0xBF`.
pub open spec fn mnemonics_a0(opcode: u8) -> Seq<char> {
    match opcode {
        0xA0 => "AND_B"@,
        0xA1 => "AND_C"@,
        0xA2 => "AND_D"@,
        0xA3 => "AND_E"@,
        0xA4 => "AND_H"@,
        0xA5 => "AND_L"@,
        0xA6 => "AND_HL"@,
        0xA7 => "AND_A"@,
        0xA8 => "XOR_B"@,
        0xA9 => "XOR_C"@,
        0xAA => "XOR_D"@,
        0xAB => "XOR_E"@,
        0xAC => "XOR_H"@,
        0xAD => "XOR_L"@,
        0xAE => "XOR_HL"@,
        0xAF => "XOR_A"@,
        0xB0 => "OR_B"@,
        0xB1 => "OR_C"@,
        0xB2 => "OR_D"@,
        0xB3 => "OR_E"@,
        0xB4 => "OR_H"@,
        0xB5 => "OR_L"@,
        0xB6 => "OR_HL"@,
        0xB7 => "OR_A"@,
        0xB8 => "CP_A_B"@,
        0xB9 => "CP_A_C"@,
        0xBA => "CP_A_D"@,
        0xBB => "CP_A_E"@,
        0xBC => "CP_A_H"@,
        0xBD => "CP_A_L"@,
        0xBE => "CP_A_HL"@,
        0xBF => "CP_A_A"@,
        _ => "?"@,
    }
}

/// The names for the opcodes from `0xC0` to `0xDF`.
pub open spec fn mnemonics_c0(opcode: u8) -> Seq<char> {
    match opcode {
        0xC0 => "RET_NZ"@,
        0xC1 => "POP_BC"@,
        0xC2 => "JP_NZ_A16"@,
        0xC3 => "JP_A16"@,
        0xC4 => "CALL_NZ_A16"@,
        0xC5 => "PUSH_BC"@,
        0xC6 => "ADD_A_D8"@,
        0xC7 => "RST_0"@,
        0xC8 => "RET_Z"@,
        0xC9 => "RET"@,
        0xCA => "JP_Z_A16"@,
        0xCC => "CALL_Z_A16"@,
        0xCD => "CALL_A16"@,
        0xCE => "ADC_A_D8"@,
        0xCF => "RST_1"@,
        0xD0 => "RET_NC"@,
        0xD1 => "POP_DE"@,
        0xD2 => "JP_NC_A16"@,
        0xD4 => "CALL_NC_A16"@,
        0xD5 => "PUSH_DE"@,
        0xD6 => "SUB_D8"@,
        0xD7 => "RST_2"@,
        0xD8 => "RET_C"@,
        0xD9 => "RETI"@,
        0xDA => "JP_C_A16"@,
        0xDC => "CALL_C_A16"@,
        0xDE => "SBC_A_D8"@,
        0xDF => "RST_3"@,
        _ => "?"@,
    }
}

/// The names for the opcodes from `0xE0` to `0xFF`.
pub open spec fn mnemonics_e0(opcode: u8) -> Seq<char> {
    match opcode {
        0xE0 => "LDH_A8_A"@,
        0xE1 => "POP_HL"@,
        0xE2 => "LDH_C_A"@,
        0xE5 => "PUSH_HL"@,
        0xE6 => "AND_D8"@,
        0xE7 => "RST_4"@,
        0xE8 => "ADD_SP_S8"@,
        0xE9 => "JP_HL"@,
        0xEA => "LD_A16_A"@,
        0xEE => "XOR_D8"@,
        0xEF => "RST_5"@,
        0xF0 => "LDH_A_A8"@,
        0xF1 => "POP_AF"@,
        0xF2 => "LDH_A_C"@,
        0xF3 => "DI"@,
        0xF5 => "PUSH_AF"@,
        0xF6 => "OR_D8"@,
        0xF7 => "RST_6"@,
        0xF8 => "LD_HL_SP_S8"@,
        0xF9 => "LD_SP_HL"@,
        0xFA => "LD_A_A16"@,
        0xFB => "EI"@,
        0xFE => "CP_A_D8"@,
        0xFF => "RST_7"@,
        _ => "?"@,
    }
}

/// The mnemonic of the unprefixed instruction with the given opcode: the
/// name of the operation and of its operands, joined by `_`. `D8` and `D16`
/// stand for an immediate byte and word, `A8` and `A16` for an address of one
/// and of two bytes, `S8` for a signed offset; `HL` as an operand of a byte
/// operation is the byte that `HL` points to, `HLI` and `HLD` the same with
/// `HL` then increased or decreased. An opcode that names no instruction has
/// the name `"?"`.
pub open spec fn spec_mnemonic(opcode: u8) -> Seq<char> {
    if opcode < 0x20 {
        mnemonics_00(opcode)
    } else if opcode < 0x40 {
        mnemonics_20(opcode)
    } else if opcode < 0x60 {
        mnemonics_40(opcode)
    } else if opcode < 0x80 {
        mnemonics_60(opcode)
    } else if opcode < 0xA0 {
        mnemonics_80(opcode)
    } else if opcode < 0xC0 {
        mnemonics_a0(opcode)
    } else if opcode < 0xE0 {
        mnemonics_c0(opcode)
    } else {
        mnemonics_e0(opcode)
    }
}

/// The names for the opcodes from `0x00` to `0x1F`.
pub open spec fn prefixed_mnemonics_00(opcode: u8) -> Seq<char> {
    match opcode {
        0x00 => "RLC_B"@,
        0x01 => "RLC_C"@,
        0x02 => "RLC_D"@,
        0x03 => "RLC_E"@,
        0x04 => "RLC_H"@,
        0x05 => "RLC_L"@,
        0x06 => "RLC_HL"@,
        0x07 => "RLC_A"@,
        0x08 => "RRC_B"@,
        0x09 => "RRC_C"@,
        0x0A => "RRC_D"@,
        0x0B => "RRC_E"@,
        0x0C => "RRC_H"@,
        0x0D => "RRC_L"@,
        0x0E => "RRC_HL"@,
        0x0F => "RRC_A"@,
        0x10 => "RL_B"@,
        0x11 => "RL_C"@,
        0x12 => "RL_D"@,
        0x13 => "RL_E"@,
        0x14 => "RL_H"@,
        0x15 => "RL_L"@,
        0x16 => "RL_HL"@,
        0x17 => "RL_A"@,
        0x18 => "RR_B"@,
        0x19 => "RR_C"@,
        0x1A => "RR_D"@,
        0x1B => "RR_E"@,
        0x1C => "RR_H"@,
        0x1D => "RR_L"@,
        0x1E => "RR_HL"@,
        0x1F => "RR_A"@,
        _ => "?"@,
    }
}

/// The names for the opcodes from `0x20` to `0x3F`.
pub open spec fn prefixed_mnemonics_20(opcode: u8) -> Seq<char> {
    match opcode {
        0x20 => "SLA_B"@,
        0x21 => "SLA_C"@,
        0x22 => "SLA_D"@,
        0x23 => "SLA_E"@,
        0x24 => "SLA_H"@,
        0x25 => "SLA_L"@,
        0x26 => "SLA_HL"@,
        0x27 => "SLA_A"@,
        0x28 => "SRA_B"@,
        0x29 => "SRA_C"@,
        0x2A => "SRA_D"@,
        0x2B => "SRA_E"@,
        0x2C => "SRA_H"@,
        0x2D => "SRA_L"@,
        0x2E => "SRA_HL"@,
        0x2F => "SRA_A"@,
        0x30 => "SWAP_B"@,
        0x31 => "SWAP_C"@,
        0x32 => "SWAP_D"@,
        0x33 => "SWAP_E"@,
        0x34 => "SWAP_H"@,
        0x35 => "SWAP_L"@,
        0x36 => "SWAP_HL"@,
        0x37 => "SWAP_A"@,
        0x38 => "SRL_B"@,
        0x39 => "SRL_C"@,
        0x3A => "SRL_D"@,
        0x3B => "SRL_E"@,
        0x3C => "SRL_H"@,
        0x3D => "SRL_L"@,
        0x3E => "SRL_HL"@,
        0x3F => "SRL_A"@,
        _ => "?"@,
    }
}

/// The names for the opcodes from `0x40` to `0x5F`.
pub open spec fn prefixed_mnemonics_40(opcode: u8) -> Seq<char> {
    match opcode {
        0x40 => "BIT_0_B"@,
        0x41 => "BIT_0_C"@,
        0x42 => "BIT_0_D"@,
        0x43 => "BIT_0_E"@,
        0x44 => "BIT_0_H"@,
        0x45 => "BIT_0_L"@,
        0x46 => "BIT_0_HL"@,
        0x47 => "BIT_0_A"@,
        0x48 => "BIT_1_B"@,
        0x49 => "BIT_1_C"@,
        0x4A => "BIT_1_D"@,
        0x4B => "BIT_1_E"@,
        0x4C => "BIT_1_H"@,
        0x4D => "BIT_1_L"@,
        0x4E => "BIT_1_HL"@,
        0x4F => "BIT_1_A"@,
        0x50 => "BIT_2_B"@,
        0x51 => "BIT_2_C"@,
        0x52 => "BIT_2_D"@,
        0x53 => "BIT_2_E"@,
        0x54 => "BIT_2_H"@,
        0x55 => "BIT_2_L"@,
        0x56 => "BIT_2_HL"@,
        0x57 => "BIT_2_A"@,
        0x58 => "BIT_3_B"@,
        0x59 => "BIT_3_C"@,
        0x5A => "BIT_3_D"@,
        0x5B => "BIT_3_E"@,
        0x5C => "BIT_3_H"@,
        0x5D => "BIT_3_L"@,
        0x5E => "BIT_3_HL"@,
        0x5F => "BIT_3_A"@,
        _ => "?"@,
    }
}

/// The names for the opcodes from `0x60` to `0x7F`.
pub open spec fn prefixed_mnemonics_60(opcode: u8) -> Seq<char> {
    match opcode {
        0x60 => "BIT_4_B"@,
        0x61 => "BIT_4_C"@,
        0x62 => "BIT_4_D"@,
        0x63 => "BIT_4_E"@,
        0x64 => "BIT_4_H"@,
        0x65 => "BIT_4_L"@,
        0x66 => "BIT_4_HL"@,
        0x67 => "BIT_4_A"@,
        0x68 => "BIT_5_B"@,
        0x69 => "BIT_5_C"@,
        0x6A => "BIT_5_D"@,
        0x6B => "BIT_5_E"@,
        0x6C => "BIT_5_H"@,
        0x6D => "BIT_5_L"@,
        0x6E => "BIT_5_HL"@,
        0x6F => "BIT_5_A"@,
        0x70 => "BIT_6_B"@,
        0x71 => "BIT_6_C"@,
        0x72 => "BIT_6_D"@,
        0x73 => "BIT_6_E"@,
        0x74 => "BIT_6_H"@,
        0x75 => "BIT_6_L"@,
        0x76 => "BIT_6_HL"@,
        0x77 => "BIT_6_A"@,
        0x78 => "BIT_7_B"@,
        0x79 => "BIT_7_C"@,
        0x7A => "BIT_7_D"@,
        0x7B => "BIT_7_E"@,
        0x7C => "BIT_7_H"@,
        0x7D => "BIT_7_L"@,
        0x7E => "BIT_7_HL"@,
        0x7F => "BIT_7_A"@,
        _ => "?"@,
    }
}

/// The names for the opcodes from `0x80` to `0x9F`.
pub open spec fn prefixed_mnemonics_80(opcode: u8) -> Seq<char> {
    match opcode {
        0x80 => "RES_0_B"@,
        0x81 => "RES_0_C"@,
        0x82 => "RES_0_D"@,
        0x83 => "RES_0_E"@,
        0x84 => "RES_0_H"@,
        0x85 => "RES_0_L"@,
        0x86 => "RES_0_HL"@,
        0x87 => "RES_0_A"@,
        0x88 => "RES_1_B"@,
        0x89 => "RES_1_C"@,
        0x8A => "RES_1_D"@,
        0x8B => "RES_1_E"@,
        0x8C => "RES_1_H"@,
        0x8D => "RES_1_L"@,
        0x8E => "RES_1_HL"@,
        0x8F => "RES_1_A"@,
        0x90 => "RES_2_B"@,
        0x91 => "RES_2_C"@,
        0x92 => "RES_2_D"@,
        0x93 => "RES_2_E"@,
        0x94 => "RES_2_H"@,
        0x95 => "RES_2_L"@,
        0x96 => "RES_2_HL"@,
        0x97 => "RES_2_A"@,
        0x98 => "RES_3_B"@,
        0x99 => "RES_3_C"@,
        0x9A => "RES_3_D"@,
        0x9B => "RES_3_E"@,
        0x9C => "RES_3_H"@,
        0x9D => "RES_3_L"@,
        0x9E => "RES_3_HL"@,
        0x9F => "RES_3_A"@,
        _ => "?"@,
    }
}

/// The names for the opcodes from `0xA0` to `0xBF`.
pub open spec fn prefixed_mnemonics_a0(opcode: u8) -> Seq<char> {
    match opcode {
        0xA0 => "RES_4_B"@,
        0xA1 => "RES_4_C"@,
        0xA2 => "RES_4_D"@,
        0xA3 => "RES_4_E"@,
        0xA4 => "RES_4_H"@,
        0xA5 => "RES_4_L"@,
        0xA6 => "RES_4_HL"@,
        0xA7 => "RES_4_A"@,
        0xA8 => "RES_5_B"@,
        0xA9 => "RES_5_C"@,
        0xAA => "RES_5_D"@,
        0xAB => "RES_5_E"@,
        0xAC => "RES_5_H"@,
        0xAD => "RES_5_L"@,
        0xAE => "RES_5_HL"@,
        0xAF => "RES_5_A"@,
        0xB0 => "RES_6_B"@,
        0xB1 => "RES_6_C"@,
        0xB2 => "RES_6_D"@,
        0xB3 => "RES_6_E"@,
        0xB4 => "RES_6_H"@,
        0xB5 => "RES_6_L"@,
        0xB6 => "RES_6_HL"@,
        0xB7 => "RES_6_A"@,
        0xB8 => "RES_7_B"@,
        0xB9 => "RES_7_C"@,
        0xBA => "RES_7_D"@,
        0xBB => "RES_7_E"@,
        0xBC => "RES_7_H"@,
        0xBD => "RES_7_L"@,
        0xBE => "RES_7_HL"@,
        0xBF => "RES_7_A"@,
        _ => "?"@,
    }
}

/// The names for the opcodes from `0xC0` to `0xDF`.
pub open spec fn prefixed_mnemonics_c0(opcode: u8) -> Seq<char> {
    match opcode {
        0xC0 => "SET_0_B"@,
        0xC1 => "SET_0_C"@,
        0xC2 => "SET_0_D"@,
        0xC3 => "SET_0_E"@,
        0xC4 => "SET_0_H"@,
        0xC5 => "SET_0_L"@,
        0xC6 => "SET_0_HL"@,
        0xC7 => "SET_0_A"@,
        0xC8 => "SET_1_B"@,
        0xC9 => "SET_1_C"@,
        0xCA => "SET_1_D"@,
        0xCB => "SET_1_E"@,
        0xCC => "SET_1_H"@,
        0xCD => "SET_1_L"@,
        0xCE => "SET_1_HL"@,
        0xCF => "SET_1_A"@,
        0xD0 => "SET_2_B"@,
        0xD1 => "SET_2_C"@,
        0xD2 => "SET_2_D"@,
        0xD3 => "SET_2_E"@,
        0xD4 => "SET_2_H"@,
        0xD5 => "SET_2_L"@,
        0xD6 => "SET_2_HL"@,
        0xD7 => "SET_2_A"@,
        0xD8 => "SET_3_B"@,
        0xD9 => "SET_3_C"@,
        0xDA => "SET_3_D"@,
        0xDB => "SET_3_E"@,
        0xDC => "SET_3_H"@,
        0xDD => "SET_3_L"@,
        0xDE => "SET_3_HL"@,
        0xDF => "SET_3_A"@,
        _ => "?"@,
    }
}

/// The names for the opcodes from `0xE0` to `0xFF`.
pub open spec fn prefixed_mnemonics_e0(opcode: u8) -> Seq<char> {
    match opcode {
        0xE0 => "SET_4_B"@,
        0xE1 => "SET_4_C"@,
        0xE2 => "SET_4_D"@,
        0xE3 => "SET_4_E"@,
        0xE4 => "SET_4_H"@,
        0xE5 => "SET_4_L"@,
        0xE6 => "SET_4_HL"@,
        0xE7 => "SET_4_A"@,
        0xE8 => "SET_5_B"@,
        0xE9 => "SET_5_C"@,
        0xEA => "SET_5_D"@,
        0xEB => "SET_5_E"@,
        0xEC => "SET_5_H"@,
        0xED => "SET_5_L"@,
        0xEE => "SET_5_HL"@,
        0xEF => "SET_5_A"@,
        0xF0 => "SET_6_B"@,
        0xF1 => "SET_6_C"@,
        0xF2 => "SET_6_D"@,
        0xF3 => "SET_6_E"@,
        0xF4 => "SET_6_H"@,
        0xF5 => "SET_6_L"@,
        0xF6 => "SET_6_HL"@,
        0xF7 => "SET_6_A"@,
        0xF8 => "SET_7_B"@,
        0xF9 => "SET_7_C"@,
        0xFA => "SET_7_D"@,
        0xFB => "SET_7_E"@,
        0xFC => "SET_7_H"@,
        0xFD => "SET_7_L"@,
        0xFE => "SET_7_HL"@,
        0xFF => "SET_7_A"@,
        _ => "?"@,
    }
}

/// The mnemonic of the instruction that the given byte names after the
/// prefix `0xCB`.
pub open spec fn spec_mnemonic_prefixed(opcode: u8) -> Seq<char> {
    if opcode < 0x20 {
        prefixed_mnemonics_00(opcode)
    } else if opcode < 0x40 {
        prefixed_mnemonics_20(opcode)
    } else if opcode < 0x60 {
        prefixed_mnemonics_40(opcode)
    } else if opcode < 0x80 {
        prefixed_mnemonics_60(opcode)
    } else if opcode < 0xA0 {
        prefixed_mnemonics_80(opcode)
    } else if opcode < 0xC0 {
        prefixed_mnemonics_a0(opcode)
    } else if opcode < 0xE0 {
        prefixed_mnemonics_c0(opcode)
    } else {
        prefixed_mnemonics_e0(opcode)
    }
}

/// The names for the opcodes from `0x00` to `0x1F`.
pub open spec fn assembly_names_00(opcode: u8) -> Seq<char> {
    match opcode {
        0x00 => "NOP"@,
        0x01 => "LD BC,d16"@,
        0x02 => "LD (BC),A"@,
        0x03 => "INC BC"@,
        0x04 => "INC B"@,
        0x05 => "DEC B"@,
        0x06 => "LD B,d8"@,
        0x07 => "RLCA"@,
        0x08 => "LD (a16),SP"@,
        0x09 => "ADD HL,BC"@,
        0x0A => "LD A,(BC)"@,
        0x0B => "DEC BC"@,
        0x0C => "INC C"@,
        0x0D => "DEC C"@,
        0x0E => "LD C,d8"@,
        0x0F => "RRCA"@,
        0x10 => "STOP"@,
        0x11 => "LD DE,d16"@,
        0x12 => "LD (DE),A"@,
        0x13 => "INC DE"@,
        0x14 => "INC D"@,
        0x15 => "DEC D"@,
        0x16 => "LD D,d8"@,
        0x17 => "RLA"@,
        0x18 => "JR s8"@,
        0x19 => "ADD HL,DE"@,
        0x1A => "LD A,(DE)"@,
        0x1B => "DEC DE"@,
        0x1C => "INC E"@,
        0x1D => "DEC E"@,
        0x1E => "LD E,d8"@,
        0x1F => "RRA"@,
        _ => "?"@,
    }
}

/// The names for the opcodes from `0x20` to `0x3F`.
pub open spec fn assembly_names_20(opcode: u8) -> Seq<char> {
    match opcode {
        0x20 => "JR NZ,s8"@,
        0x21 => "LD HL,d16"@,
        0x22 => "LD (HL+),A"@,
        0x23 => "INC HL"@,
        0x24 => "INC H"@,
        0x25 => "DEC H"@,
        0x26 => "LD H,d8"@,
        0x27 => "DAA"@,
        0x28 => "JR Z,s8"@,
        0x29 => "ADD HL,HL"@,
        0x2A => "LD A,(HL+)"@,
        0x2B => "DEC HL"@,
        0x2C => "INC L"@,
        0x2D => "DEC L"@,
        0x2E => "LD L,d8"@,
        0x2F => "CPL"@,
        0x30 => "JR NC,s8"@,
        0x31 => "LD SP,d16"@,
        0x32 => "LD (HL-),A"@,
        0x33 => "INC SP"@,
        0x34 => "INC (HL)"@,
        0x35 => "DEC (HL)"@,
        0x36 => "LD (HL),d8"@,
        0x37 => "SCF"@,
        0x38 => "JR C,s8"@,
        0x39 => "ADD HL,SP"@,
        0x3A => "LD A,(HL-)"@,
        0x3B => "DEC SP"@,
        0x3C => "INC A"@,
        0x3D => "DEC A"@,
        0x3E => "LD A,d8"@,
        0x3F => "CCF"@,
        _ => "?"@,
    }
}

/// The names for the opcodes from `0x40` to `0x5F`.
pub open spec fn assembly_names_40(opcode: u8) -> Seq<char> {
    match opcode {
        0x40 => "LD B,B"@,
        0x41 => "LD B,C"@,
        0x42 => "LD B,D"@,
        0x43 => "LD B,E"@,
        0x44 => "LD B,H"@,
        0x45 => "LD B,L"@,
        0x46 => "LD B,(HL)"@,
        0x47 => "LD B,A"@,
        0x48 => "LD C,B"@,
        0x49 => "LD C,C"@,
        0x4A => "LD C,D"@,
        0x4B => "LD C,E"@,
        0x4C => "LD C,H"@,
        0x4D => "LD C,L"@,
        0x4E => "LD C,(HL)"@,
        0x4F => "LD C,A"@,
        0x50 => "LD D,B"@,
        0x51 => "LD D,C"@,
        0x52 => "LD D,D"@,
        0x53 => "LD D,E"@,
        0x54 => "LD D,H"@,
        0x55 => "LD D,L"@,
        0x56 => "LD D,(HL)"@,
        0x57 => "LD D,A"@,
        0x58 => "LD E,B"@,
        0x59 => "LD E,C"@,
        0x5A => "LD E,D"@,
        0x5B => "LD E,E"@,
        0x5C => "LD E,H"@,
        0x5D => "LD E,L"@,
        0x5E => "LD E,(HL)"@,
        0x5F => "LD E,A"@,
        _ => "?"@,
    }
}

/// The names for the opcodes from `0x60` to `0x7F`.
pub open spec fn assembly_names_60(opcode: u8) -> Seq<char> {
    match opcode {
        0x60 => "LD H,B"@,
        0x61 => "LD H,C"@,
        0x62 => "LD H,D"@,
        0x63 => "LD H,E"@,
        0x64 => "LD H,H"@,
        0x65 => "LD H,L"@,
        0x66 => "LD H,(HL)"@,
        0x67 => "LD H,A"@,
        0x68 => "LD L,B"@,
        0x69 => "LD L,C"@,
        0x6A => "LD L,D"@,
        0x6B => "LD L,E"@,
        0x6C => "LD L,H"@,
        0x6D => "LD L,L"@,
        0x6E => "LD L,(HL)"@,
        0x6F => "LD L,A"@,
        0x70 => "LD (HL),B"@,
        0x71 => "LD (HL),C"@,
        0x72 => "LD (HL),D"@,
        0x73 => "LD (HL),E"@,
        0x74 => "LD (HL),H"@,
        0x75 => "LD (HL),L"@,
        0x76 => "HALT"@,
        0x77 => "LD (HL),A"@,
        0x78 => "LD A,B"@,
        0x79 => "LD A,C"@,
        0x7A => "LD A,D"@,
        0x7B => "LD A,E"@,
        0x7C => "LD A,H"@,
        0x7D => "LD A,L"@,
        0x7E => "LD A,(HL)"@,
        0x7F => "LD A,A"@,
        _ => "?"@,
    }
}

/// The names for the opcodes from `0x80` to `0x9F`.
pub open spec fn assembly_names_80(opcode: u8) -> Seq<char> {
    match opcode {
        0x80 => "ADD A,B"@,
        0x81 => "ADD A,C"@,
        0x82 => "ADD A,D"@,
        0x83 => "ADD A,E"@,
        0x84 => "ADD A,H"@,
        0x85 => "ADD A,L"@,
        0x86 => "ADD A,(HL)"@,
        0x87 => "ADD A,A"@,
        0x88 => "ADC A,B"@,
        0x89 => "ADC A,C"@,
        0x8A => "ADC A,D"@,
        0x8B => "ADC A,E"@,
        0x8C => "ADC A,H"@,
        0x8D => "ADC A,L"@,
        0x8E => "ADC A,(HL)"@,
        0x8F => "ADC A,A"@,
        0x90 => "SUB A,B"@,
        0x91 => "SUB A,C"@,
        0x92 => "SUB A,D"@,
        0x93 => "SUB A,E"@,
        0x94 => "SUB A,H"@,
        0x95 => "SUB A,L"@,
        0x96 => "SUB A,(HL)"@,
        0x97 => "SUB A,A"@,
        0x98 => "SBC A,B"@,
        0x99 => "SBC A,C"@,
        0x9A => "SBC A,D"@,
        0x9B => "SBC A,E"@,
        0x9C => "SBC A,H"@,
        0x9D => "SBC A,L"@,
        0x9E => "SBC A,(HL)"@,
        0x9F => "SBC A,A"@,
        _ => "?"@,
    }
}

/// The names for the opcodes from `0xA0` to `0xBF`.
pub open spec fn assembly_names_a0(opcode: u8) -> Seq<char> {
    match opcode {
        0xA0 => "AND B"@,
        0xA1 => "AND C"@,
        0xA2 => "AND D"@,
        0xA3 => "AND E"@,
        0xA4 => "AND H"@,
        0xA5 => "AND L"@,
        0xA6 => "AND (HL)"@,
        0xA7 => "AND A"@,
        0xA8 => "XOR B"@,
        0xA9 => "XOR C"@,
        0xAA => "XOR D"@,
        0xAB => "XOR E"@,
        0xAC => "XOR H"@,
        0xAD => "XOR L"@,
        0xAE => "XOR (HL)"@,
        0xAF => "XOR A"@,
        0xB0 => "OR B"@,
        0xB1 => "OR C"@,
        0xB2 => "OR D"@,
        0xB3 => "OR E"@,
        0xB4 => "OR H"@,
        0xB5 => "OR L"@,
        0xB6 => "OR (HL)"@,
        0xB7 => "OR A"@,
        0xB8 => "CP B"@,
        0xB9 => "CP C"@,
        0xBA => "CP D"@,
        0xBB => "CP E"@,
        0xBC => "CP H"@,
        0xBD => "CP L"@,
        0xBE => "CP (HL)"@,
        0xBF => "CP A"@,
        _ => "?"@,
    }
}

/// The names for the opcodes from `0xC0` to `0xDF`.
pub open spec fn assembly_names_c0(opcode: u8) -> Seq<char> {
    match opcode {
        0xC0 => "RET NZ"@,
        0xC1 => "POP BC"@,
        0xC2 => "JP NZ,a16"@,
        0xC3 => "JP a16"@,
        0xC4 => "CALL NZ,a16"@,
        0xC5 => "PUSH BC"@,
        0xC6 => "ADD A,d8"@,
        0xC7 => "RST 0"@,
        0xC8 => "RET Z"@,
        0xC9 => "RET"@,
        0xCA => "JP Z,a16"@,
        0xCC => "CALL Z,a16"@,
        0xCD => "CALL a16"@,
        0xCE => "ADC A,d8"@,
        0xCF => "RST 1"@,
        0xD0 => "RET NC"@,
        0xD1 => "POP DE"@,
        0xD2 => "JP NC,a16"@,
        0xD4 => "CALL NC,a16"@,
        0xD5 => "PUSH DE"@,
        0xD6 => "SUB A,d8"@,
        0xD7 => "RST 2"@,
        0xD8 => "RET C"@,
        0xD9 => "RETI"@,
        0xDA => "JP C,a16"@,
        0xDC => "CALL C,a16"@,
        0xDE => "SBC A,d8"@,
        0xDF => "RST 3"@,
        _ => "?"@,
    }
}

/// The names for the opcodes from `0xE0` to `0xFF`.
pub open spec fn assembly_names_e0(opcode: u8) -> Seq<char> {
    match opcode {
        0xE0 => "LDH (a8),A"@,
        0xE1 => "POP HL"@,
        0xE2 => "LD (C),A"@,
        0xE5 => "PUSH HL"@,
        0xE6 => "AND d8"@,
        0xE7 => "RST 4"@,
        0xE8 => "ADD SP,s8"@,
        0xE9 => "JP HL"@,
        0xEA => "LD (a16),A"@,
        0xEE => "XOR d8"@,
        0xEF => "RST 5"@,
        0xF0 => "LDH A,(a8)"@,
        0xF1 => "POP AF"@,
        0xF2 => "LD A,(C)"@,
        0xF3 => "DI"@,
        0xF5 => "PUSH AF"@,
        0xF6 => "OR d8"@,
        0xF7 => "RST 6"@,
        0xF8 => "LD HL,SP+s8"@,
        0xF9 => "LD SP,HL"@,
        0xFA => "LD A,(a16)"@,
        0xFB => "EI"@,
        0xFE => "CP d8"@,
        0xFF => "RST 7"@,
        _ => "?"@,
    }
}

/// The unprefixed instruction with the given opcode in assembler syntax:
/// `d8` and `d16` stand for an immediate byte and word, `a8` and `a16` for an
/// address of one and of two bytes, `s8` for a signed offset. An opcode that
/// names no instruction has the name `"?"`.
pub open spec fn spec_assembly(opcode: u8) -> Seq<char> {
    if opcode < 0x20 {
        assembly_names_00(opcode)
    } else if opcode < 0x40 {
        assembly_names_20(opcode)
    } else if opcode < 0x60 {
        assembly_names_40(opcode)
    } else if opcode < 0x80 {
        assembly_names_60(opcode)
    } else if opcode < 0xA0 {
        assembly_names_80(opcode)
    } else if opcode < 0xC0 {
        assembly_names_a0(opcode)
    } else if opcode < 0xE0 {
        assembly_names_c0(opcode)
    } else {
        assembly_names_e0(opcode)
    }
}

/// The names for the opcodes from `0x00` to `0x1F`.
fn assembly_00(opcode: u8) -> (name: &'static str)
    requires
        0x00 <= opcode <= 0x1F,
    ensures
        name@ == spec_assembly(opcode),
{
    match opcode {
        0x00 => "NOP",
        0x01 => "LD BC,d16",
        0x02 => "LD (BC),A",
        0x03 => "INC BC",
        0x04 => "INC B",
        0x05 => "DEC B",
        0x06 => "LD B,d8",
        0x07 => "RLCA",
        0x08 => "LD (a16),SP",
        0x09 => "ADD HL,BC",
        0x0A => "LD A,(BC)",
        0x0B => "DEC BC",
        0x0C => "INC C",
        0x0D => "DEC C",
        0x0E => "LD C,d8",
        0x0F => "RRCA",
        0x10 => "STOP",
        0x11 => "LD DE,d16",
        0x12 => "LD (DE),A",
        0x13 => "INC DE",
        0x14 => "INC D",
        0x15 => "DEC D",
        0x16 => "LD D,d8",
        0x17 => "RLA",
        0x18 => "JR s8",
        0x19 => "ADD HL,DE",
        0x1A => "LD A,(DE)",
        0x1B => "DEC DE",
        0x1C => "INC E",
        0x1D => "DEC E",
        0x1E => "LD E,d8",
        0x1F => "RRA",
        _ => "?",
    }
}

/// The names for the opcodes from `0x20` to `0x3F`.
fn assembly_20(opcode: u8) -> (name: &'static str)
    requires
        0x20 <= opcode <= 0x3F,
    ensures
        name@ == spec_assembly(opcode),
{
    match opcode {
        0x20 => "JR NZ,s8",
        0x21 => "LD HL,d16",
        0x22 => "LD (HL+),A",
        0x23 => "INC HL",
        0x24 => "INC H",
        0x25 => "DEC H",
        0x26 => "LD H,d8",
        0x27 => "DAA",
        0x28 => "JR Z,s8",
        0x29 => "ADD HL,HL",
        0x2A => "LD A,(HL+)",
        0x2B => "DEC HL",
        0x2C => "INC L",
        0x2D => "DEC L",
        0x2E => "LD L,d8",
        0x2F => "CPL",
        0x30 => "JR NC,s8",
        0x31 => "LD SP,d16",
        0x32 => "LD (HL-),A",
        0x33 => "INC SP",
        0x34 => "INC (HL)",
        0x35 => "DEC (HL)",
        0x36 => "LD (HL),d8",
        0x37 => "SCF",
        0x38 => "JR C,s8",
        0x39 => "ADD HL,SP",
        0x3A => "LD A,(HL-)",
        0x3B => "DEC SP",
        0x3C => "INC A",
        0x3D => "DEC A",
        0x3E => "LD A,d8",
        0x3F => "CCF",
        _ => "?",
    }
}

/// The names for the opcodes from `0x40` to `0x5F`.
fn assembly_40(opcode: u8) -> (name: &'static str)
    requires
        0x40 <= opcode <= 0x5F,
    ensures
        name@ == spec_assembly(opcode),
{
    match opcode {
        0x40 => "LD B,B",
        0x41 => "LD B,C",
        0x42 => "LD B,D",
        0x43 => "LD B,E",
        0x44 => "LD B,H",
        0x45 => "LD B,L",
        0x46 => "LD B,(HL)",
        0x47 => "LD B,A",
        0x48 => "LD C,B",
        0x49 => "LD C,C",
        0x4A => "LD C,D",
        0x4B => "LD C,E",
        0x4C => "LD C,H",
        0x4D => "LD C,L",
        0x4E => "LD C,(HL)",
        0x4F => "LD C,A",
        0x50 => "LD D,B",
        0x51 => "LD D,C",
        0x52 => "LD D,D",
        0x53 => "LD D,E",
        0x54 => "LD D,H",
        0x55 => "LD D,L",
        0x56 => "LD D,(HL)",
        0x57 => "LD D,A",
        0x58 => "LD E,B",
        0x59 => "LD E,C",
        0x5A => "LD E,D",
        0x5B => "LD E,E",
        0x5C => "LD E,H",
        0x5D => "LD E,L",
        0x5E => "LD E,(HL)",
        0x5F => "LD E,A",
        _ => "?",
    }
}

/// The names for the opcodes from `0x60` to `0x7F`.
fn assembly_60(opcode: u8) -> (name: &'static str)
    requires
        0x60 <= opcode <= 0x7F,
    ensures
        name@ == spec_assembly(opcode),
{
    match opcode {
        0x60 => "LD H,B",
        0x61 => "LD H,C",
        0x62 => "LD H,D",
        0x63 => "LD H,E",
        0x64 => "LD H,H",
        0x65 => "LD H,L",
        0x66 => "LD H,(HL)",
        0x67 => "LD H,A",
        0x68 => "LD L,B",
        0x69 => "LD L,C",
        0x6A => "LD L,D",
        0x6B => "LD L,E",
        0x6C => "LD L,H",
        0x6D => "LD L,L",
        0x6E => "LD L,(HL)",
        0x6F => "LD L,A",
        0x70 => "LD (HL),B",
        0x71 => "LD (HL),C",
        0x72 => "LD (HL),D",
        0x73 => "LD (HL),E",
        0x74 => "LD (HL),H",
        0x75 => "LD (HL),L",
        0x76 => "HALT",
        0x77 => "LD (HL),A",
        0x78 => "LD A,B",
        0x79 => "LD A,C",
        0x7A => "LD A,D",
        0x7B => "LD A,E",
        0x7C => "LD A,H",
        0x7D => "LD A,L",
        0x7E => "LD A,(HL)",
        0x7F => "LD A,A",
        _ => "?",
    }
}

/// The names for the opcodes from `0x80` to `0x9F`.
fn assembly_80(opcode: u8) -> (name: &'static str)
    requires
        0x80 <= opcode <= 0x9F,
    ensures
        name@ == spec_assembly(opcode),
{
    match opcode {
        0x80 => "ADD A,B",
        0x81 => "ADD A,C",
        0x82 => "ADD A,D",
        0x83 => "ADD A,E",
        0x84 => "ADD A,H",
        0x85 => "ADD A,L",
        0x86 => "ADD A,(HL)",
        0x87 => "ADD A,A",
        0x88 => "ADC A,B",
        0x89 => "ADC A,C",
        0x8A => "ADC A,D",
        0x8B => "ADC A,E",
        0x8C => "ADC A,H",
        0x8D => "ADC A,L",
        0x8E => "ADC A,(HL)",
        0x8F => "ADC A,A",
        0x90 => "SUB A,B",
        0x91 => "SUB A,C",
        0x92 => "SUB A,D",
        0x93 => "SUB A,E",
        0x94 => "SUB A,H",
        0x95 => "SUB A,L",
        0x96 => "SUB A,(HL)",
        0x97 => "SUB A,A",
        0x98 => "SBC A,B",
        0x99 => "SBC A,C",
        0x9A => "SBC A,D",
        0x9B => "SBC A,E",
        0x9C => "SBC A,H",
        0x9D => "SBC A,L",
        0x9E => "SBC A,(HL)",
        0x9F => "SBC A,A",
        _ => "?",
    }
}

/// The names for the opcodes from `0xA0` to `0xBF`.
fn assembly_a0(opcode: u8) -> (name: &'static str)
    requires
        0xA0 <= opcode <= 0xBF,
    ensures
        name@ == spec_assembly(opcode),
{
    match opcode {
        0xA0 => "AND B",
        0xA1 => "AND C",
        0xA2 => "AND D",
        0xA3 => "AND E",
        0xA4 => "AND H",
        0xA5 => "AND L",
        0xA6 => "AND (HL)",
        0xA7 => "AND A",
        0xA8 => "XOR B",
        0xA9 => "XOR C",
        0xAA => "XOR D",
        0xAB => "XOR E",
        0xAC => "XOR H",
        0xAD => "XOR L",
        0xAE => "XOR (HL)",
        0xAF => "XOR A",
        0xB0 => "OR B",
        0xB1 => "OR C",
        0xB2 => "OR D",
        0xB3 => "OR E",
        0xB4 => "OR H",
        0xB5 => "OR L",
        0xB6 => "OR (HL)",
        0xB7 => "OR A",
        0xB8 => "CP B",
        0xB9 => "CP C",
        0xBA => "CP D",
        0xBB => "CP E",
        0xBC => "CP H",
        0xBD => "CP L",
        0xBE => "CP (HL)",
        0xBF => "CP A",
        _ => "?",
    }
}

/// The names for the opcodes from `0xC0` to `0xDF`.
fn assembly_c0(opcode: u8) -> (name: &'static str)
    requires
        0xC0 <= opcode <= 0xDF,
    ensures
        name@ == spec_assembly(opcode),
{
    match opcode {
        0xC0 => "RET NZ",
        0xC1 => "POP BC",
        0xC2 => "JP NZ,a16",
        0xC3 => "JP a16",
        0xC4 => "CALL NZ,a16",
        0xC5 => "PUSH BC",
        0xC6 => "ADD A,d8",
        0xC7 => "RST 0",
        0xC8 => "RET Z",
        0xC9 => "RET",
        0xCA => "JP Z,a16",
        0xCC => "CALL Z,a16",
        0xCD => "CALL a16",
        0xCE => "ADC A,d8",
        0xCF => "RST 1",
        0xD0 => "RET NC",
        0xD1 => "POP DE",
        0xD2 => "JP NC,a16",
        0xD4 => "CALL NC,a16",
        0xD5 => "PUSH DE",
        0xD6 => "SUB A,d8",
        0xD7 => "RST 2",
        0xD8 => "RET C",
        0xD9 => "RETI",
        0xDA => "JP C,a16",
        0xDC => "CALL C,a16",
        0xDE => "SBC A,d8",
        0xDF => "RST 3",
        _ => "?",
    }
}

/// The names for the opcodes from `0xE0` to `0xFF`.
fn assembly_e0(opcode: u8) -> (name: &'static str)
    requires
        0xE0 <= opcode <= 0xFF,
    ensures
        name@ == spec_assembly(opcode),
{
    match opcode {
        0xE0 => "LDH (a8),A",
        0xE1 => "POP HL",
        0xE2 => "LD (C),A",
        0xE5 => "PUSH HL",
        0xE6 => "AND d8",
        0xE7 => "RST 4",
        0xE8 => "ADD SP,s8",
        0xE9 => "JP HL",
        0xEA => "LD (a16),A",
        0xEE => "XOR d8",
        0xEF => "RST 5",
        0xF0 => "LDH A,(a8)",
        0xF1 => "POP AF",
        0xF2 => "LD A,(C)",
        0xF3 => "DI",
        0xF5 => "PUSH AF",
        0xF6 => "OR d8",
        0xF7 => "RST 6",
        0xF8 => "LD HL,SP+s8",
        0xF9 => "LD SP,HL",
        0xFA => "LD A,(a16)",
        0xFB => "EI",
        0xFE => "CP d8",
        0xFF => "RST 7",
        _ => "?",
    }
}

/// The unprefixed instruction with the given opcode in assembler syntax.
pub fn assembly(opcode: u8) -> (name: &'static str)
    ensures
        name@ == spec_assembly(opcode),
{
    if opcode < 0x20 {
        assembly_00(opcode)
    } else if opcode < 0x40 {
        assembly_20(opcode)
    } else if opcode < 0x60 {
        assembly_40(opcode)
    } else if opcode < 0x80 {
        assembly_60(opcode)
    } else if opcode < 0xA0 {
        assembly_80(opcode)
    } else if opcode < 0xC0 {
        assembly_a0(opcode)
    } else if opcode < 0xE0 {
        assembly_c0(opcode)
    } else {
        assembly_e0(opcode)
    }
}

} // verus!
