//! The processor: the register file and the memory it works on, the stack,
//! the status bits, and the fetch/decode/execute step.
use vstd::prelude::*;
use vstd::string::StringExecFns;
use crate::GPU;
use crate::alu::{add8, spec_add8, spec_sub8, sub8};
use crate::bitwise::{high, low, spec_high, spec_low, spec_word, word};
use crate::instructions::{decode, decode_prefixed, spec_run, Instruction, Operation, Place};
use crate::instructions::decode::{spec_decode, spec_decode_prefixed};
use crate::instructions::jump::spec_taken;
use crate::mem::{spec_is_mapped, spec_load_word, spec_store, MMU};
use crate::reg::{FlagBit, Flags, Pair, Registers};
use crate::text::{binary, hex, spec_binary, spec_hex};

verus! {

/// Whether the processor runs or waits.
#[derive(Debug, Clone, Copy, PartialEq, Eq, Structural)]
pub enum Mode {
    /// Instructions are fetched and executed.
    Running,
    /// `HALT` was executed: the processor waits for an enabled interrupt.
    Halted,
    /// `STOP` was executed: the processor waits for joypad input or a reset.
    Stopped,
}

/// The state of the machine as the instructions see it: the registers, the
/// image of the address space, the mode and the count of machine cycles.
pub struct State {
    pub reg: Registers,
    pub mem: Seq<u8>,
    pub mode: Mode,
    pub cycles: u64,
}

impl State {
    /// The state with other registers.
    pub open spec fn with_reg(self, reg: Registers) -> State {
        State { reg, ..self }
    }

    /// The state with another program counter.
    pub open spec fn with_pc(self, pc: u16) -> State {
        State { reg: Registers { pc, ..self.reg }, ..self }
    }

    /// The state with other status bits.
    pub open spec fn with_flags(self, flags: Flags) -> State {
        State { reg: self.reg.spec_with_flags(flags), ..self }
    }

    /// The state after `value` is written to `address`.
    pub open spec fn store(self, address: u16, value: u8) -> State {
        State { mem: spec_store(self.mem, address, value), ..self }
    }

    /// The value of `HL`.
    pub open spec fn hl(self) -> u16 {
        self.reg.spec_read_pair(Pair::HL)
    }

    /// The byte that follows the opcode.
    pub open spec fn imm8(self) -> u8 {
        self.mem[self.reg.pc.wrapping_add(1) as int]
    }

    /// The word that follows the opcode, lower byte first.
    pub open spec fn imm16(self) -> u16 {
        spec_load_word(self.mem, self.reg.pc.wrapping_add(1))
    }

    /// The byte that an operand names.
    pub open spec fn place(self, place: Place) -> u8 {
        match place {
            Place::Reg(r) => self.reg.spec_read8(r),
            Place::HLMem => self.mem[self.hl() as int],
        }
    }

    /// The state after `value` is written to the operand.
    pub open spec fn with_place(self, place: Place, value: u8) -> State {
        match place {
            Place::Reg(r) => self.with_reg(self.reg.spec_write8(r, value)),
            Place::HLMem => self.store(self.hl(), value),
        }
    }

    /// The state after a byte is pushed: `SP` goes down by one, then the byte
    /// is stored where `SP` points.
    pub open spec fn push(self, value: u8) -> State {
        let sp = self.reg.sp.wrapping_sub(1);
        State { reg: Registers { sp, ..self.reg }, mem: spec_store(self.mem, sp, value), ..self }
    }

    /// The byte on top of the stack, and the state after it is popped: the
    /// byte where `SP` points is read, then `SP` goes up by one.
    pub open spec fn pop(self) -> (u8, State) {
        (
            self.mem[self.reg.sp as int],
            State { reg: Registers { sp: self.reg.sp.wrapping_add(1), ..self.reg }, ..self },
        )
    }

    /// The state after a word is pushed, upper byte first.
    pub open spec fn push_word(self, value: u16) -> State {
        self.push(spec_high(value)).push(spec_low(value))
    }

    /// The word on top of the stack, lower byte on top, and the state after
    /// it is popped.
    pub open spec fn pop_word(self) -> (u16, State) {
        let (lower, s1) = self.pop();
        let (upper, s2) = s1.pop();
        (spec_word(upper, lower), s2)
    }
}

/// A word that is pushed onto a stack in mapped memory and popped again comes
/// back as it was, and `SP` returns to where it started.
pub proof fn lemma_push_pop_word(s: State, value: u16)
    requires
        s.mem.len() == 0x10000,
        spec_is_mapped(s.reg.sp.wrapping_sub(1)),
        spec_is_mapped(s.reg.sp.wrapping_sub(2)),
    ensures
        s.push_word(value).pop_word().0 == value,
        s.push_word(value).pop_word().1.reg == s.reg,
        s.push_word(value).pop_word().1.mem == s.push_word(value).mem,
{
    crate::bitwise::lemma_split_join(value);
}

/// A byte that is pushed onto a stack in mapped memory and popped again
/// comes back as it was, and `SP` returns to where it started.
pub proof fn lemma_push_pop(s: State, value: u8)
    requires
        s.mem.len() == 0x10000,
        spec_is_mapped(s.reg.sp.wrapping_sub(1)),
    ensures
        s.push(value).pop().0 == value,
        s.push(value).pop().1.reg == s.reg,
{
}

/// One row of the table of registers: a name and a value, a gap, a name and
/// a value, and the end of the line.
pub open spec fn spec_row(
    name: Seq<char>,
    value: Seq<char>,
    gap: Seq<char>,
    other: Seq<char>,
) -> Seq<char> {
    name + value + gap + other + "\n"@
}

/// The table of the byte registers: each in hexadecimal, then each in binary.
pub open spec fn spec_print_reg(reg: Registers) -> Seq<char> {
    "Registers (hex):\n"@ + spec_row("A: "@, spec_hex(reg.a), "     F: "@, spec_hex(reg.f))
        + spec_row("B: "@, spec_hex(reg.b), "     C: "@, spec_hex(reg.c)) + spec_row(
        "D: "@,
        spec_hex(reg.d),
        "     E: "@,
        spec_hex(reg.e),
    ) + spec_row("H: "@, spec_hex(reg.h), "     L: "@, spec_hex(reg.l)) + "Registers (bin):\n"@
        + spec_row("A: "@, spec_binary(reg.a), " F: "@, spec_binary(reg.f)) + spec_row(
        "B: "@,
        spec_binary(reg.b),
        " C: "@,
        spec_binary(reg.c),
    ) + spec_row("D: "@, spec_binary(reg.d), " E: "@, spec_binary(reg.e)) + spec_row(
        "H: "@,
        spec_binary(reg.h),
        " L: "@,
        spec_binary(reg.l),
    )
}

fn row(name: &str, value: String, gap: &str, other: String) -> (text: String)
    ensures
        text@ == spec_row(name@, value@, gap@, other@),
{
    let mut text = String::from_str(name);
    text.append(value.as_str());
    text.append(gap);
    text.append(other.as_str());
    text.append("\n");
    text
}

/// No instruction has the opcode that was fetched.
#[derive(Debug, Clone, Copy, PartialEq, Eq, Structural)]
pub struct DecodeError {
    /// The byte that names no instruction.
    pub opcode: u8,
    /// The address it was fetched from.
    pub pc: u16,
}

/// The operation that the bytes at the program counter name, if they name
/// one: the opcode `0xCB` is a prefix, and the byte after it selects from the
/// prefixed instructions.
pub open spec fn spec_fetch(s: State) -> Option<Operation> {
    let opcode = s.mem[s.reg.pc as int];
    if opcode == 0xCB {
        Some(spec_decode_prefixed(s.imm8()))
    } else {
        spec_decode(opcode)
    }
}

/// The opcode of the instruction at the program counter: the byte there, or
/// after the prefix `0xCB` the byte that follows it.
pub open spec fn spec_fetch_opcode(s: State) -> u8 {
    if s.mem[s.reg.pc as int] == 0xCB {
        s.imm8()
    } else {
        s.mem[s.reg.pc as int]
    }
}

/// Whether the processor executes an instruction in its next step: a
/// running one does; a halted one as soon as an interrupt is both enabled and
/// requested; a stopped one as soon as the joypad interrupt is requested.
pub open spec fn spec_wakes(s: State) -> bool {
    match s.mode {
        Mode::Running => true,
        Mode::Halted => s.mem[0xFFFF] & s.mem[0xFF0F] & 0x1F != 0,
        Mode::Stopped => s.mem[0xFF0F] & 0x10 != 0,
    }
}

/// The state after an operation is executed as one step: the handler runs;
/// unless it transferred control, `PC` moves on by the length of the
/// instruction; the cost is added to the cycle count, the lower one where a
/// conditional transfer was not taken.
pub open spec fn spec_execute(op: Operation, s: State) -> State {
    let after = spec_run(op, s);
    if spec_taken(op, s) {
        State { cycles: s.cycles.wrapping_add(op.cycles() as u64), ..after }
    } else {
        State {
            reg: Registers { pc: after.reg.pc.wrapping_add(op.length()), ..after.reg },
            cycles: s.cycles.wrapping_add(op.cycles_untaken() as u64),
            ..after
        }
    }
}

/// One step of the machine. A processor that waits spends one cycle and
/// changes nothing else; one that runs or wakes up executes the instruction
/// at the program counter, or fails where the opcode names none.
pub open spec fn spec_cycle(s: State) -> Result<State, DecodeError> {
    if !spec_wakes(s) {
        Ok(State { cycles: s.cycles.wrapping_add(1), ..s })
    } else {
        let running = State { mode: Mode::Running, ..s };
        match spec_fetch(running) {
            Some(op) => Ok(spec_execute(op, running)),
            None => Err(DecodeError { opcode: s.mem[s.reg.pc as int], pc: s.reg.pc }),
        }
    }
}

/// The processor with its memory.
#[derive(Debug, Clone)]
pub struct CPU {
    pub reg: Registers,
    pub mmu: MMU,
    pub gpu: GPU,
    pub mode: Mode,
    /// The machine cycles spent so far, modulo 2^64.
    pub cycles: u64,
}

impl View for CPU {
    type V = State;

    open spec fn view(&self) -> State {
        State { reg: self.reg, mem: self.mmu@, mode: self.mode, cycles: self.cycles }
    }
}

impl Default for CPU {
    fn default() -> (cpu: Self)
        ensures
            cpu.wf(),
            cpu.reg == Registers::spec_new(),
            cpu.mode == Mode::Running,
            cpu.cycles == 0,
            forall|a: int|
                0 <= a < 0x10000 ==> #[trigger] cpu@.mem[a] == (if spec_is_mapped(a as u16) {
                    0u8
                } else {
                    1u8
                }),
    {
        CPU::new()
    }
}

impl CPU {
    /// The memory is well formed.
    pub open spec fn wf(&self) -> bool {
        self.mmu.wf()
    }

    /// A running processor with the registers as the boot sequence leaves
    /// them and a memory of zeros.
    pub fn new() -> (cpu: Self)
        ensures
            cpu.wf(),
            cpu.reg == Registers::spec_new(),
            cpu.mode == Mode::Running,
            cpu.cycles == 0,
            forall|a: int|
                0 <= a < 0x10000 ==> #[trigger] cpu@.mem[a] == (if spec_is_mapped(a as u16) {
                    0u8
                } else {
                    1u8
                }),
    {
        CPU {
            reg: Registers::new(),
            mmu: MMU::new(),
            gpu: GPU::new(),
            mode: Mode::Running,
            cycles: 0,
        }
    }

    /// Pushes a byte: `SP` goes down by one, then the byte is stored.
    pub fn push_stack(&mut self, value: u8)
        requires
            old(self).wf(),
        ensures
            final(self).wf(),
            final(self)@ == old(self)@.push(value),
    {
        self.reg.sp = self.reg.sp.wrapping_sub(1);
        self.mmu.write(self.reg.sp, value);
    }

    /// Pops a byte: the byte where `SP` points is read, then `SP` goes up by
    /// one.
    pub fn pop_stack(&mut self) -> (value: u8)
        requires
            old(self).wf(),
        ensures
            final(self).wf(),
            (value, final(self)@) == old(self)@.pop(),
    {
        let value = self.mmu.read(self.reg.sp);
        self.reg.sp = self.reg.sp.wrapping_add(1);
        value
    }

    /// Pushes a word, upper byte first, so that the lower byte lies at the
    /// lower address.
    pub fn push_word(&mut self, value: u16)
        requires
            old(self).wf(),
        ensures
            final(self).wf(),
            final(self)@ == old(self)@.push_word(value),
    {
        self.push_stack(high(value));
        self.push_stack(low(value));
    }

    /// Pops a word, lower byte first.
    pub fn pop_word(&mut self) -> (value: u16)
        requires
            old(self).wf(),
        ensures
            final(self).wf(),
            (value, final(self)@) == old(self)@.pop_word(),
    {
        let lower = self.pop_stack();
        let upper = self.pop_stack();
        word(upper, lower)
    }

    /// Pushes the program counter as a word.
    pub fn store_pc(&mut self)
        requires
            old(self).wf(),
        ensures
            final(self).wf(),
            final(self)@ == old(self)@.push_word(old(self).reg.pc),
    {
        self.push_word(self.reg.pc);
    }

    /// The instruction at the program counter. The opcode `0xCB` is a prefix:
    /// the byte after it is looked up among the prefixed instructions.
    pub fn fetch(&self) -> (found: Result<Instruction, DecodeError>)
        requires
            self.wf(),
        ensures
            match found {
                Ok(e) => e.wf() && e.spec_named() && e.opcode == spec_fetch_opcode(self@)
                    && spec_fetch(self@) == Some(e.handler),
                Err(error) => spec_fetch(self@).is_none() && error == (DecodeError {
                    opcode: self@.mem[self.reg.pc as int],
                    pc: self.reg.pc,
                }),
            },
    {
        let opcode = self.read_byte();
        if opcode == 0xCB {
            Ok(decode_prefixed(self.read_next_byte()))
        } else {
            match decode(opcode) {
                Some(e) => Ok(e),
                None => Err(DecodeError { opcode, pc: self.reg.pc }),
            }
        }
    }

    /// Whether the processor executes an instruction in its next step.
    pub fn wakes(&self) -> (awake: bool)
        requires
            self.wf(),
        ensures
            awake == spec_wakes(self@),
    {
        match self.mode {
            Mode::Running => true,
            Mode::Halted => self.mmu.read(0xFFFF) & self.mmu.read(0xFF0F) & 0x1F != 0,
            Mode::Stopped => self.mmu.read(0xFF0F) & 0x10 != 0,
        }
    }

    /// Executes one instruction as a step: the handler runs; unless it
    /// transferred control, `PC` moves on by the length of the instruction;
    /// the cost is added to the cycle count.
    pub fn execute(&mut self, instruction: &Instruction)
        requires
            old(self).wf(),
            instruction.wf(),
        ensures
            final(self).wf(),
            final(self)@ == spec_execute(instruction.handler, old(self)@),
    {
        proof {
            instruction.lemma_valid();
        }
        let before = self.cycles;
        let taken = instruction.run(self);
        if taken {
            self.cycles = before.wrapping_add(instruction.cycles as u64);
        } else {
            self.reg.pc = self.reg.pc.wrapping_add(instruction.length);
            self.cycles = before.wrapping_add(instruction.cycles_untaken as u64);
        }
    }

    /// One step: fetch, decode, execute, advance, tick. A decode error leaves
    /// the processor and the memory as they were.
    pub fn cycle(&mut self) -> (result: Result<(), DecodeError>)
        requires
            old(self).wf(),
        ensures
            final(self).wf(),
            match spec_cycle(old(self)@) {
                Ok(s) => result.is_ok() && final(self)@ == s,
                Err(error) => result == Err::<(), DecodeError>(error) && final(self)@ == old(
                    self,
                )@,
            },
    {
        if !self.wakes() {
            self.cycles = self.cycles.wrapping_add(1);
            return Ok(());
        }
        let ghost running = State { mode: Mode::Running, ..self@ };
        assert(spec_fetch(running) == spec_fetch(self@));
        match self.fetch() {
            Ok(instruction) => {
                self.mode = Mode::Running;
                assert(self@ == running);
                self.execute(&instruction);
                Ok(())
            },
            Err(error) => Err(error),
        }
    }

    /// The byte at the program counter.
    pub fn read_byte(&self) -> (value: u8)
        requires
            self.wf(),
        ensures
            value == self@.mem[self.reg.pc as int],
    {
        self.mmu.read(self.reg.pc)
    }

    /// The byte after the one at the program counter.
    pub fn read_next_byte(&self) -> (value: u8)
        requires
            self.wf(),
        ensures
            value == self@.imm8(),
    {
        self.mmu.read(self.reg.pc.wrapping_add(1))
    }

    /// The word after the byte at the program counter, lower byte first.
    pub fn read_next_word(&self) -> (value: u16)
        requires
            self.wf(),
        ensures
            value == self@.imm16(),
    {
        self.mmu.read_word(self.reg.pc.wrapping_add(1))
    }

    /// The byte that an operand names.
    pub fn read_place(&self, place: Place) -> (value: u8)
        requires
            self.wf(),
        ensures
            value == self@.place(place),
    {
        match place {
            Place::Reg(r) => self.reg.read8(r),
            Place::HLMem => self.mmu.read(self.reg.read_pair(Pair::HL)),
        }
    }

    /// Writes `value` to the operand.
    pub fn write_place(&mut self, place: Place, value: u8)
        requires
            old(self).wf(),
        ensures
            final(self).wf(),
            final(self)@ == old(self)@.with_place(place, value),
    {
        match place {
            Place::Reg(r) => self.reg.write8(r, value),
            Place::HLMem => {
                let address = self.reg.read_pair(Pair::HL);
                self.mmu.write(address, value);
            },
        }
    }

    /// Puts the registers back to their values after the boot sequence and
    /// lets the processor run.
    pub fn reset(&mut self)
        ensures
            final(self).reg == Registers::spec_new(),
            final(self).mode == Mode::Running,
            final(self).mmu == old(self).mmu,
            final(self).cycles == old(self).cycles,
    {
        self.reg = Registers::new();
        self.mode = Mode::Running;
    }

    /// Clears one status bit and sets it again if `value` holds.
    pub fn set_flag(&mut self, flag: FlagBit, value: bool)
        ensures
            final(self)@ == old(self)@.with_reg(
                Registers {
                    f: Registers::spec_flag_byte(old(self).reg.f, flag, value),
                    ..old(self).reg
                },
            ),
            final(self).mmu == old(self).mmu,
    {
        self.reg.set_flag(flag, value);
    }

    /// Whether a status bit is set.
    pub fn is_set(&self, flag: FlagBit) -> (set: bool)
        ensures
            set == self.reg.spec_is_set(flag),
    {
        self.reg.is_set(flag)
    }

    /// The table of the byte registers as text, for a trace.
    pub fn print_reg(&self) -> (text: String)
        ensures
            text@ == spec_print_reg(self.reg),
    {
        let reg = &self.reg;
        let mut text = String::from_str("Registers (hex):\n");
        text.append(row("A: ", hex(reg.a), "     F: ", hex(reg.f)).as_str());
        text.append(row("B: ", hex(reg.b), "     C: ", hex(reg.c)).as_str());
        text.append(row("D: ", hex(reg.d), "     E: ", hex(reg.e)).as_str());
        text.append(row("H: ", hex(reg.h), "     L: ", hex(reg.l)).as_str());
        text.append("Registers (bin):\n");
        text.append(row("A: ", binary(reg.a), " F: ", binary(reg.f)).as_str());
        text.append(row("B: ", binary(reg.b), " C: ", binary(reg.c)).as_str());
        text.append(row("D: ", binary(reg.d), " E: ", binary(reg.e)).as_str());
        text.append(row("H: ", binary(reg.h), " L: ", binary(reg.l)).as_str());
        text
    }

    /// The status bit in its place in `F`: the flag's mask where the bit is
    /// set, else zero.
    pub fn get_flag(&self, flag: FlagBit) -> (bits: u8)
        ensures
            bits == self.reg.f & flag.spec_mask(),
    {
        self.reg.f & flag.mask()
    }

    /// The registers after `b`, and the carry where `use_carry` asks for it,
    /// is added to `A`.
    pub open spec fn spec_add(reg: Registers, b: u8, use_carry: bool) -> Registers {
        let (value, flags) = spec_add8(reg.a, b, use_carry && reg.spec_flags().c);
        Registers { a: value, f: flags.spec_byte(), ..reg }
    }

    /// Adds `b` to `A`, and the carry too where `use_carry` asks for it, and
    /// sets the four status bits.
    pub fn add(&mut self, b: u8, use_carry: bool)
        ensures
            final(self)@ == old(self)@.with_reg(CPU::spec_add(old(self).reg, b, use_carry)),
            final(self).mmu == old(self).mmu,
    {
        let (value, flags) = add8(self.reg.a, b, use_carry && self.reg.flags().c);
        self.reg.a = value;
        self.reg.set_flags(flags);
    }

    /// The registers after `b`, and the carry where `use_carry` asks for it,
    /// is subtracted from `A`.
    pub open spec fn spec_sub(reg: Registers, b: u8, use_carry: bool) -> Registers {
        let (value, flags) = spec_sub8(reg.a, b, use_carry && reg.spec_flags().c);
        Registers { a: value, f: flags.spec_byte(), ..reg }
    }

    /// Subtracts `b` from `A`, and the carry too where `use_carry` asks for
    /// it, and sets the four status bits.
    pub fn sub(&mut self, b: u8, use_carry: bool)
        ensures
            final(self)@ == old(self)@.with_reg(CPU::spec_sub(old(self).reg, b, use_carry)),
            final(self).mmu == old(self).mmu,
    {
        let (value, flags) = sub8(self.reg.a, b, use_carry && self.reg.flags().c);
        self.reg.a = value;
        self.reg.set_flags(flags);
    }
}

} // verus!
