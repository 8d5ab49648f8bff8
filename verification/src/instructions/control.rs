//! Instructions that steer the processor itself: `NOP`, `HALT`, `STOP`,
//! `DI`, `EI`, and the two that set and flip the carry.
use vstd::prelude::*;
use crate::cpu::{CPU, Mode, State};
use crate::instructions::{
    collect, entry, spec_family_table, spec_lookup, Family, Instruction, Operation,
};
use crate::reg::{Flags, Registers};

verus! {

/// The state after an instruction of this family.
pub open spec fn spec_run(op: Operation, s: State) -> State {
    let flags = s.reg.spec_flags();
    match op {
        Operation::Halt => State { mode: Mode::Halted, ..s },
        Operation::Stop => State { mode: Mode::Stopped, ..s },
        Operation::Di => s.with_reg(Registers { ime: false, ..s.reg }),
        Operation::Ei => s.with_reg(Registers { ime: true, ..s.reg }),
        Operation::Scf => s.with_flags(Flags { z: flags.z, n: false, h: false, c: true }),
        Operation::Ccf => s.with_flags(Flags { z: flags.z, n: false, h: false, c: !flags.c }),
        _ => s,
    }
}

/// Executes an instruction of this family.
pub fn run(op: Operation, cpu: &mut CPU)
    requires
        old(cpu).wf(),
        op.family() == Family::Control,
    ensures
        final(cpu).wf(),
        final(cpu)@ == spec_run(op, old(cpu)@),
{
    let flags = cpu.reg.flags();
    match op {
        Operation::Halt => {
            cpu.mode = Mode::Halted;
        },
        Operation::Stop => {
            cpu.mode = Mode::Stopped;
        },
        Operation::Di => {
            cpu.reg.ime = false;
        },
        Operation::Ei => {
            cpu.reg.ime = true;
        },
        Operation::Scf => {
            cpu.reg.set_flags(Flags { z: flags.z, n: false, h: false, c: true });
        },
        Operation::Ccf => {
            cpu.reg.set_flags(Flags { z: flags.z, n: false, h: false, c: !flags.c });
        },
        _ => {},
    }
}

// The catalog of this family.

/// The entry of the catalog for `opcode`, if it names one of the
/// control instructions.
pub fn lookup(opcode: u8) -> (found: Option<Instruction>)
    ensures
        spec_lookup(Family::Control, opcode, found),
{
    match opcode {
        0x00 => Some(entry("NOP", 0x00, 1, 1, 1, Operation::Nop)),
        0x10 => Some(entry("STOP", 0x10, 1, 1, 2, Operation::Stop)),
        0x37 => Some(entry("SCF", 0x37, 1, 1, 1, Operation::Scf)),
        0x3F => Some(entry("CCF", 0x3F, 1, 1, 1, Operation::Ccf)),
        0x76 => Some(entry("HALT", 0x76, 1, 1, 1, Operation::Halt)),
        0xF3 => Some(entry("DI", 0xF3, 1, 1, 1, Operation::Di)),
        0xFB => Some(entry("EI", 0xFB, 1, 1, 1, Operation::Ei)),
        _ => None,
    }
}

/// The control instructions in the order of their opcodes.
pub fn get() -> (table: Vec<Instruction>)
    ensures
        spec_family_table(table@, Family::Control),
{
    collect(Family::Control)
}

} // verus!
