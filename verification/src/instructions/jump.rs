//! Jumps, calls, returns and restarts. An instruction of this family that
//! transfers control writes the target to `PC`; a conditional one whose
//! condition fails leaves the state as it was.
use vstd::prelude::*;
use crate::alu::{sign_extend, spec_sign_extend};
use crate::cpu::{CPU, State};
use crate::instructions::{
    collect, entry, spec_family_table, spec_lookup, Condition, Family, Instruction, Operation,
};
use crate::reg::{Flags, Pair, Registers};

verus! {

/// Whether the status bits meet a condition.
pub open spec fn spec_holds(condition: Condition, flags: Flags) -> bool {
    match condition {
        Condition::NZ => !flags.z,
        Condition::Z => flags.z,
        Condition::NC => !flags.c,
        Condition::C => flags.c,
    }
}

#[verifier::when_used_as_spec(spec_holds)]
pub fn holds(condition: Condition, flags: Flags) -> (met: bool)
    ensures
        met == spec_holds(condition, flags),
{
    match condition {
        Condition::NZ => !flags.z,
        Condition::Z => flags.z,
        Condition::NC => !flags.c,
        Condition::C => flags.c,
    }
}

/// Whether the instruction transfers control: always for an unconditional
/// jump, call, return or restart, and for a conditional one where its
/// condition is met.
pub open spec fn spec_taken(op: Operation, s: State) -> bool {
    match op {
        Operation::Jp | Operation::JpHl | Operation::Jr | Operation::Call | Operation::Ret
        | Operation::Reti | Operation::Rst(_) => true,
        Operation::JpIf(c) | Operation::JrIf(c) | Operation::CallIf(c) | Operation::RetIf(c) =>
            spec_holds(c, s.reg.spec_flags()),
        _ => false,
    }
}

/// The target of a relative jump: the address of the next instruction moved
/// by the signed byte that follows the opcode.
pub open spec fn spec_relative(s: State) -> u16 {
    s.reg.pc.wrapping_add(2).wrapping_add(spec_sign_extend(s.imm8()))
}

/// The state after a call to `target` from an instruction of `length` bytes:
/// the address of the next instruction is pushed, then `PC` is loaded.
pub open spec fn spec_call(s: State, length: u16, target: u16) -> State {
    s.push_word(s.reg.pc.wrapping_add(length)).with_pc(target)
}

/// The state after a return: `PC` is popped.
pub open spec fn spec_return(s: State) -> State {
    let (target, popped) = s.pop_word();
    popped.with_pc(target)
}

/// The state after an instruction of this family.
pub open spec fn spec_run(op: Operation, s: State) -> State {
    if !spec_taken(op, s) {
        s
    } else {
        match op {
            Operation::Jp | Operation::JpIf(_) => s.with_pc(s.imm16()),
            Operation::JpHl => s.with_pc(s.hl()),
            Operation::Jr | Operation::JrIf(_) => s.with_pc(spec_relative(s)),
            Operation::Call | Operation::CallIf(_) => spec_call(s, 3, s.imm16()),
            Operation::Ret | Operation::RetIf(_) => spec_return(s),
            Operation::Reti => {
                let after = spec_return(s);
                after.with_reg(Registers { ime: true, ..after.reg })
            },
            Operation::Rst(n) => spec_call(s, 1, (n * 8) as u16),
            _ => s,
        }
    }
}

fn call(cpu: &mut CPU, length: u16, target: u16)
    requires
        old(cpu).wf(),
    ensures
        final(cpu).wf(),
        final(cpu)@ == spec_call(old(cpu)@, length, target),
{
    let next = cpu.reg.pc.wrapping_add(length);
    cpu.push_word(next);
    cpu.reg.pc = target;
}

fn ret(cpu: &mut CPU)
    requires
        old(cpu).wf(),
    ensures
        final(cpu).wf(),
        final(cpu)@ == spec_return(old(cpu)@),
{
    let target = cpu.pop_word();
    cpu.reg.pc = target;
}

/// Executes an instruction of this family and says whether it transferred
/// control.
pub fn run(op: Operation, cpu: &mut CPU) -> (taken: bool)
    requires
        old(cpu).wf(),
        op.family() == Family::Jump,
        op.valid(),
    ensures
        final(cpu).wf(),
        final(cpu)@ == spec_run(op, old(cpu)@),
        taken == spec_taken(op, old(cpu)@),
{
    let taken = match op {
        Operation::JpIf(c) | Operation::JrIf(c) | Operation::CallIf(c) | Operation::RetIf(c) =>
            holds(c, cpu.reg.flags()),
        _ => true,
    };
    if !taken {
        return false;
    }
    match op {
        Operation::Jp | Operation::JpIf(_) => {
            cpu.reg.pc = cpu.read_next_word();
        },
        Operation::JpHl => {
            cpu.reg.pc = cpu.reg.read_pair(Pair::HL);
        },
        Operation::Jr | Operation::JrIf(_) => {
            let offset = cpu.read_next_byte();
            cpu.reg.pc = cpu.reg.pc.wrapping_add(2).wrapping_add(sign_extend(offset));
        },
        Operation::Call | Operation::CallIf(_) => {
            let target = cpu.read_next_word();
            call(cpu, 3, target);
        },
        Operation::Ret | Operation::RetIf(_) => {
            ret(cpu);
        },
        Operation::Reti => {
            ret(cpu);
            cpu.reg.ime = true;
        },
        Operation::Rst(n) => {
            call(cpu, 1, n as u16 * 8);
        },
        _ => {},
    }
    true
}

// The catalog of this family.

/// The entry of the catalog for `opcode`, if it names one of the
/// jumps, calls, returns and restarts.
pub fn lookup(opcode: u8) -> (found: Option<Instruction>)
    ensures
        spec_lookup(Family::Jump, opcode, found),
{
    match opcode {
        0x18 => Some(entry("JR_S8", 0x18, 3, 3, 2, Operation::Jr)),
        0x20 => Some(entry("JR_NZ_S8", 0x20, 3, 2, 2, Operation::JrIf(Condition::NZ))),
        0x28 => Some(entry("JR_Z_S8", 0x28, 3, 2, 2, Operation::JrIf(Condition::Z))),
        0x30 => Some(entry("JR_NC_S8", 0x30, 3, 2, 2, Operation::JrIf(Condition::NC))),
        0x38 => Some(entry("JR_C_S8", 0x38, 3, 2, 2, Operation::JrIf(Condition::C))),
        0xC0 => Some(entry("RET_NZ", 0xC0, 5, 2, 1, Operation::RetIf(Condition::NZ))),
        0xC2 => Some(entry("JP_NZ_A16", 0xC2, 4, 3, 3, Operation::JpIf(Condition::NZ))),
        0xC3 => Some(entry("JP_A16", 0xC3, 4, 4, 3, Operation::Jp)),
        0xC4 => Some(entry("CALL_NZ_A16", 0xC4, 6, 3, 3, Operation::CallIf(Condition::NZ))),
        0xC7 => Some(entry("RST_0", 0xC7, 4, 4, 1, Operation::Rst(0))),
        0xC8 => Some(entry("RET_Z", 0xC8, 5, 2, 1, Operation::RetIf(Condition::Z))),
        0xC9 => Some(entry("RET", 0xC9, 4, 4, 1, Operation::Ret)),
        0xCA => Some(entry("JP_Z_A16", 0xCA, 4, 3, 3, Operation::JpIf(Condition::Z))),
        0xCC => Some(entry("CALL_Z_A16", 0xCC, 6, 3, 3, Operation::CallIf(Condition::Z))),
        0xCD => Some(entry("CALL_A16", 0xCD, 6, 6, 3, Operation::Call)),
        0xCF => Some(entry("RST_1", 0xCF, 4, 4, 1, Operation::Rst(1))),
        0xD0 => Some(entry("RET_NC", 0xD0, 5, 2, 1, Operation::RetIf(Condition::NC))),
        0xD2 => Some(entry("JP_NC_A16", 0xD2, 4, 3, 3, Operation::JpIf(Condition::NC))),
        0xD4 => Some(entry("CALL_NC_A16", 0xD4, 6, 3, 3, Operation::CallIf(Condition::NC))),
        0xD7 => Some(entry("RST_2", 0xD7, 4, 4, 1, Operation::Rst(2))),
        0xD8 => Some(entry("RET_C", 0xD8, 5, 2, 1, Operation::RetIf(Condition::C))),
        0xD9 => Some(entry("RETI", 0xD9, 4, 4, 1, Operation::Reti)),
        0xDA => Some(entry("JP_C_A16", 0xDA, 4, 3, 3, Operation::JpIf(Condition::C))),
        0xDC => Some(entry("CALL_C_A16", 0xDC, 6, 3, 3, Operation::CallIf(Condition::C))),
        0xDF => Some(entry("RST_3", 0xDF, 4, 4, 1, Operation::Rst(3))),
        0xE7 => Some(entry("RST_4", 0xE7, 4, 4, 1, Operation::Rst(4))),
        0xE9 => Some(entry("JP_HL", 0xE9, 1, 1, 1, Operation::JpHl)),
        0xEF => Some(entry("RST_5", 0xEF, 4, 4, 1, Operation::Rst(5))),
        0xF7 => Some(entry("RST_6", 0xF7, 4, 4, 1, Operation::Rst(6))),
        0xFF => Some(entry("RST_7", 0xFF, 4, 4, 1, Operation::Rst(7))),
        _ => None,
    }
}

/// The jumps, calls, returns and restarts in the order of their opcodes.
pub fn get() -> (table: Vec<Instruction>)
    ensures
        spec_family_table(table@, Family::Jump),
{
    collect(Family::Jump)
}

} // verus!
