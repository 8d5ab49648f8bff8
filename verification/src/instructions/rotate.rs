//! The four rotations of `A` that have an opcode of their own. They clear
//! `Z` whatever the result.
use vstd::prelude::*;
use crate::alu::{shift8, spec_shift8, spec_shift_flags, Shift};
use crate::cpu::{CPU, State};
use crate::instructions::{
    collect, entry, spec_family_table, spec_lookup, Family, Instruction, Operation,
};
use crate::reg::{Flags, Registers};

verus! {

/// The state after an instruction of this family.
pub open spec fn spec_run(op: Operation, s: State) -> State {
    match op {
        Operation::RotateA(kind) => {
            let (value, out) = spec_shift8(kind, s.reg.a, s.reg.spec_flags().c);
            s.with_reg(
                Registers { a: value, f: spec_shift_flags(value, out, false).spec_byte(), ..s.reg },
            )
        },
        _ => s,
    }
}

/// Executes an instruction of this family.
pub fn run(op: Operation, cpu: &mut CPU)
    requires
        old(cpu).wf(),
        op.family() == Family::Rotate,
    ensures
        final(cpu).wf(),
        final(cpu)@ == spec_run(op, old(cpu)@),
{
    match op {
        Operation::RotateA(kind) => {
            let (value, out) = shift8(kind, cpu.reg.a, cpu.reg.flags().c);
            cpu.reg.a = value;
            cpu.reg.set_flags(Flags { z: false, n: false, h: false, c: out });
        },
        _ => {},
    }
}

// The catalog of this family.

/// The entry of the catalog for `opcode`, if it names one of the
/// rotations of `A`.
pub fn lookup(opcode: u8) -> (found: Option<Instruction>)
    ensures
        spec_lookup(Family::Rotate, opcode, found),
{
    match opcode {
        0x07 => Some(entry("RLCA", 0x07, 1, 1, 1, Operation::RotateA(Shift::Rlc))),
        0x0F => Some(entry("RRCA", 0x0F, 1, 1, 1, Operation::RotateA(Shift::Rrc))),
        0x17 => Some(entry("RLA", 0x17, 1, 1, 1, Operation::RotateA(Shift::Rl))),
        0x1F => Some(entry("RRA", 0x1F, 1, 1, 1, Operation::RotateA(Shift::Rr))),
        _ => None,
    }
}

/// The rotations of `A` in the order of their opcodes.
pub fn get() -> (table: Vec<Instruction>)
    ensures
        spec_family_table(table@, Family::Rotate),
{
    collect(Family::Rotate)
}

} // verus!
