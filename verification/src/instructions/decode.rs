//! The encoding of the instruction set: which operation each opcode names,
//! read off the three bit fields of the opcode.
use vstd::prelude::*;
use crate::alu::Shift;
use crate::instructions::{AluOp, Condition, Indirect, Operation, Place};
use crate::reg::{Pair, Reg16, Reg8};

verus! {

/// The operand that a three-bit field of an opcode names: `B`, `C`, `D`,
/// `E`, `H`, `L`, `(HL)`, `A`.
pub open spec fn place_of(field: int) -> Place {
    if field == 0 {
        Place::Reg(Reg8::B)
    } else if field == 1 {
        Place::Reg(Reg8::C)
    } else if field == 2 {
        Place::Reg(Reg8::D)
    } else if field == 3 {
        Place::Reg(Reg8::E)
    } else if field == 4 {
        Place::Reg(Reg8::H)
    } else if field == 5 {
        Place::Reg(Reg8::L)
    } else if field == 6 {
        Place::HLMem
    } else {
        Place::Reg(Reg8::A)
    }
}

/// The word register that a two-bit field names: `BC`, `DE`, `HL`, `SP`.
pub open spec fn word_of(field: int) -> Reg16 {
    if field == 0 {
        Reg16::BC
    } else if field == 1 {
        Reg16::DE
    } else if field == 2 {
        Reg16::HL
    } else {
        Reg16::SP
    }
}

/// The pair that a two-bit field of `PUSH` or `POP` names: `BC`, `DE`, `HL`,
/// `AF`.
pub open spec fn pair_of(field: int) -> Pair {
    if field == 0 {
        Pair::BC
    } else if field == 1 {
        Pair::DE
    } else if field == 2 {
        Pair::HL
    } else {
        Pair::AF
    }
}

/// The condition that a two-bit field names: `NZ`, `Z`, `NC`, `C`.
pub open spec fn condition_of(field: int) -> Condition {
    if field == 0 {
        Condition::NZ
    } else if field == 1 {
        Condition::Z
    } else if field == 2 {
        Condition::NC
    } else {
        Condition::C
    }
}

/// The arithmetic operation that a three-bit field names.
pub open spec fn alu_of(field: int) -> AluOp {
    if field == 0 {
        AluOp::Add
    } else if field == 1 {
        AluOp::Adc
    } else if field == 2 {
        AluOp::Sub
    } else if field == 3 {
        AluOp::Sbc
    } else if field == 4 {
        AluOp::And
    } else if field == 5 {
        AluOp::Xor
    } else if field == 6 {
        AluOp::Or
    } else {
        AluOp::Cp
    }
}

/// The rotation or shift that a three-bit field names.
pub open spec fn shift_of(field: int) -> Shift {
    if field == 0 {
        Shift::Rlc
    } else if field == 1 {
        Shift::Rrc
    } else if field == 2 {
        Shift::Rl
    } else if field == 3 {
        Shift::Rr
    } else if field == 4 {
        Shift::Sla
    } else if field == 5 {
        Shift::Sra
    } else if field == 6 {
        Shift::Swap
    } else {
        Shift::Srl
    }
}

/// The memory operand of the loads and stores of `A` in the first quarter of
/// the opcode space.
pub open spec fn indirect_of(field: int) -> Indirect {
    if field == 0 {
        Indirect::BC
    } else if field == 1 {
        Indirect::DE
    } else if field == 2 {
        Indirect::HLInc
    } else {
        Indirect::HLDec
    }
}

/// Opcodes `0x00..0x40`.
pub open spec fn decode_quarter0(y: int, z: int) -> Option<Operation> {
    let p = y / 2;
    let q = y % 2;
    if z == 0 {
        if y == 0 {
            Some(Operation::Nop)
        } else if y == 1 {
            Some(Operation::StoreSp)
        } else if y == 2 {
            Some(Operation::Stop)
        } else if y == 3 {
            Some(Operation::Jr)
        } else {
            Some(Operation::JrIf(condition_of(y - 4)))
        }
    } else if z == 1 {
        if q == 0 {
            Some(Operation::LdWordImm(word_of(p)))
        } else {
            Some(Operation::AddHl(word_of(p)))
        }
    } else if z == 2 {
        if q == 0 {
            Some(Operation::StoreA(indirect_of(p)))
        } else {
            Some(Operation::LoadA(indirect_of(p)))
        }
    } else if z == 3 {
        if q == 0 {
            Some(Operation::IncWord(word_of(p)))
        } else {
            Some(Operation::DecWord(word_of(p)))
        }
    } else if z == 4 {
        Some(Operation::Inc(place_of(y)))
    } else if z == 5 {
        Some(Operation::Dec(place_of(y)))
    } else if z == 6 {
        Some(Operation::LdImm(place_of(y)))
    } else if y < 4 {
        Some(Operation::RotateA(shift_of(y)))
    } else if y == 4 {
        Some(Operation::Daa)
    } else if y == 5 {
        Some(Operation::Cpl)
    } else if y == 6 {
        Some(Operation::Scf)
    } else {
        Some(Operation::Ccf)
    }
}

/// Opcodes `0xC0..=0xFF`. Eleven of them name no operation, and `0xCB` is
/// the prefix byte, which is no instruction of its own.
pub open spec fn decode_quarter3(y: int, z: int) -> Option<Operation> {
    let p = y / 2;
    let q = y % 2;
    if z == 0 {
        if y < 4 {
            Some(Operation::RetIf(condition_of(y)))
        } else if y == 4 {
            Some(Operation::StoreA(Indirect::HighImm))
        } else if y == 5 {
            Some(Operation::AddSp)
        } else if y == 6 {
            Some(Operation::LoadA(Indirect::HighImm))
        } else {
            Some(Operation::LdHlSpOffset)
        }
    } else if z == 1 {
        if q == 0 {
            Some(Operation::Pop(pair_of(p)))
        } else if p == 0 {
            Some(Operation::Ret)
        } else if p == 1 {
            Some(Operation::Reti)
        } else if p == 2 {
            Some(Operation::JpHl)
        } else {
            Some(Operation::LdSpHl)
        }
    } else if z == 2 {
        if y < 4 {
            Some(Operation::JpIf(condition_of(y)))
        } else if y == 4 {
            Some(Operation::StoreA(Indirect::HighC))
        } else if y == 5 {
            Some(Operation::StoreA(Indirect::Abs))
        } else if y == 6 {
            Some(Operation::LoadA(Indirect::HighC))
        } else {
            Some(Operation::LoadA(Indirect::Abs))
        }
    } else if z == 3 {
        if y == 0 {
            Some(Operation::Jp)
        } else if y == 6 {
            Some(Operation::Di)
        } else if y == 7 {
            Some(Operation::Ei)
        } else {
            None
        }
    } else if z == 4 {
        if y < 4 {
            Some(Operation::CallIf(condition_of(y)))
        } else {
            None
        }
    } else if z == 5 {
        if q == 0 {
            Some(Operation::Push(pair_of(p)))
        } else if p == 0 {
            Some(Operation::Call)
        } else {
            None
        }
    } else if z == 6 {
        Some(Operation::AluImm(alu_of(y)))
    } else {
        Some(Operation::Rst(y as u8))
    }
}

/// The operation that an unprefixed opcode names, if it names one. With
/// `x`, `y`, `z` the upper two, middle three and lower three bits of the
/// opcode: `x` selects the quarter of the opcode space, the second quarter
/// holds the register-to-register loads (and `HALT` in place of
/// `LD (HL), (HL)`), the third the arithmetic on `A`.
pub open spec fn spec_decode(opcode: u8) -> Option<Operation> {
    let x = opcode as int / 64;
    let y = (opcode as int / 8) % 8;
    let z = opcode as int % 8;
    if x == 0 {
        decode_quarter0(y, z)
    } else if x == 1 {
        if y == 6 && z == 6 {
            Some(Operation::Halt)
        } else {
            Some(Operation::Ld(place_of(y), place_of(z)))
        }
    } else if x == 2 {
        Some(Operation::Alu(alu_of(y), place_of(z)))
    } else {
        decode_quarter3(y, z)
    }
}

/// The operation that the byte after the prefix `0xCB` names; every byte
/// names one.
pub open spec fn spec_decode_prefixed(opcode: u8) -> Operation {
    let x = opcode as int / 64;
    let y = (opcode as int / 8) % 8;
    let z = opcode as int % 8;
    if x == 0 {
        Operation::Shift(shift_of(y), place_of(z))
    } else if x == 1 {
        Operation::TestBit(y as u8, place_of(z))
    } else if x == 2 {
        Operation::ResetBit(y as u8, place_of(z))
    } else {
        Operation::SetBit(y as u8, place_of(z))
    }
}

} // verus!
