//! An emulator core for an 8-bit handheld console: register file, memory map,
//! instruction catalog and the fetch/decode/execute loop, with contracts on each.
use vstd::prelude::*;

pub mod alu;
pub mod bitwise;
pub mod cpu;
pub mod disassembler;
pub mod instructions;
pub mod mem;
pub mod ram;
pub mod reg;
pub mod text;

verus! {

/// Whether a driver logs every read and write.
pub const SPAMMY_LOGS: bool = true;

/// Whether a driver logs the registers after each step.
pub const LOG_REGISTERS: bool = true;

/// Whether a driver logs line numbers.
pub const LOG_LINES: bool = true;

/// Ticks of the system clock per second.
pub const CLOCK_FREQ: usize = 4_194_304;

/// Machine cycles per second: a quarter of the clock frequency.
pub const MACHINE_FREQ: usize = 1_048_576;

/// Frames per second that a driver paces the machine to.
pub const FPS: usize = 60;

/// The size of the video RAM and of the work RAM.
pub const RAM_SIZE: usize = 0x2000;

/// The size of the cartridge region.
pub const MAX_ROM_SIZE: usize = 0x8000;

/// The boot logo that a cartridge carries at `0x0104..0x0134`.
pub const NINTENDO_HEADER: [u8; 48] = [
    0xCE, 0xED, 0x66, 0x66, 0xCC, 0x0D, 0x00, 0x0B, 0x03, 0x73, 0x00, 0x83, 0x00, 0x0C, 0x00, 0x0D,
    0x00, 0x08, 0x11, 0x1F, 0x88, 0x89, 0x00, 0x0E, 0xDC, 0xCC, 0x6E, 0xE6, 0xDD, 0xDD, 0xD9, 0x99,
    0xBB, 0xBB, 0x67, 0x63, 0x6E, 0x0E, 0xEC, 0xCC, 0xDD, 0xDC, 0x99, 0x9F, 0xBB, 0xB9, 0x33, 0x3E,
];

/// The startup program that runs before a cartridge takes over.
pub const BOOT_ROM: [u8; 256] = [
    0x31, 0xFE, 0xFF, 0xAF, 0x21, 0xFF, 0x9F, 0x32, 0xCB, 0x7C, 0x20, 0xFB, 0x21, 0x26, 0xFF, 0x0E,
    0x11, 0x3E, 0x80, 0x32, 0xE2, 0x0C, 0x3E, 0xF3, 0xE2, 0x32, 0x3E, 0x77, 0x77, 0x3E, 0xFC, 0xE0,
    0x47, 0x11, 0x04, 0x01, 0x21, 0x10, 0x80, 0x1A, 0xCD, 0x95, 0x00, 0xCD, 0x96, 0x00, 0x13, 0x7B,
    0xFE, 0x34, 0x20, 0xF3, 0x11, 0xD8, 0x00, 0x06, 0x08, 0x1A, 0x13, 0x22, 0x23, 0x05, 0x20, 0xF9,
    0x3E, 0x19, 0xEA, 0x10, 0x99, 0x21, 0x2F, 0x99, 0x0E, 0x0C, 0x3D, 0x28, 0x08, 0x32, 0x0D, 0x20,
    0xF9, 0x2E, 0x0F, 0x18, 0xF3, 0x67, 0x3E, 0x64, 0x57, 0xE0, 0x42, 0x3E, 0x91, 0xE0, 0x40, 0x04,
    0x1E, 0x02, 0x0E, 0x0C, 0xF0, 0x44, 0xFE, 0x90, 0x20, 0xFA, 0x0D, 0x20, 0xF7, 0x1D, 0x20, 0xF2,
    0x0E, 0x13, 0x24, 0x7C, 0x1E, 0x83, 0xFE, 0x62, 0x28, 0x06, 0x1E, 0xC1, 0xFE, 0x64, 0x20, 0x06,
    0x7B, 0xE2, 0x0C, 0x3E, 0x87, 0xE2, 0xF0, 0x42, 0x90, 0xE0, 0x42, 0x15, 0x20, 0xD2, 0x05, 0x20,
    0x4F, 0x16, 0x20, 0x18, 0xCB, 0x4F, 0x06, 0x04, 0xC5, 0xCB, 0x11, 0x17, 0xC1, 0xCB, 0x11, 0x17,
    0x05, 0x20, 0xF5, 0x22, 0x23, 0x22, 0x23, 0xC9, 0xCE, 0xED, 0x66, 0x66, 0xCC, 0x0D, 0x00, 0x0B,
    0x03, 0x73, 0x00, 0x83, 0x00, 0x0C, 0x00, 0x0D, 0x00, 0x08, 0x11, 0x1F, 0x88, 0x89, 0x00, 0x0E,
    0xDC, 0xCC, 0x6E, 0xE6, 0xDD, 0xDD, 0xD9, 0x99, 0xBB, 0xBB, 0x67, 0x63, 0x6E, 0x0E, 0xEC, 0xCC,
    0xDD, 0xDC, 0x99, 0x9F, 0xBB, 0xB9, 0x33, 0x3E, 0x3C, 0x42, 0xB9, 0xA5, 0xB9, 0xA5, 0x42, 0x3C,
    0x21, 0x04, 0x01, 0x11, 0xA8, 0x00, 0x1A, 0x13, 0xBE, 0x20, 0xFE, 0x23, 0x7D, 0xFE, 0x34, 0x20,
    0xF5, 0x06, 0x19, 0x78, 0x86, 0x23, 0x05, 0x20, 0xFB, 0x86, 0x20, 0xFE, 0x3E, 0x01, 0xE0, 0x50,
];

/// The addresses that a restart or an interrupt can transfer control to.
pub const JUMP_VECTORS: [u8; 12] = [
    0x00, 0x08, 0x10, 0x20, 0x28, 0x30, 0x38, 0x40, 0x48, 0x50, 0x58, 0x60,
];

/// The catalog of the unprefixed instructions, each under its name in
/// assembler syntax (`"ADD A,B"`, `"LD (HL),d8"`); but for the names it is the
/// catalog of `instructions::get`, entry for entry.
pub fn get_instructions() -> (table: Vec<instructions::Instruction>)
    ensures
        instructions::spec_base_table(table@),
        instructions::spec_ordered(table@),
        forall|k: int|
            0 <= k < table@.len() ==> (#[trigger] table@[k]).mnemonic@
                == instructions::names::spec_assembly(table@[k].opcode as u8),
{
    let catalog = instructions::get();
    let mut table: Vec<instructions::Instruction> = Vec::new();
    let mut k: usize = 0;
    while k < catalog.len()
        invariant
            k <= catalog@.len(),
            table@.len() == k,
            instructions::spec_base_table(catalog@),
            instructions::spec_ordered(catalog@),
            forall|j: int|
                0 <= j < k ==> (#[trigger] table@[j]) == (instructions::Instruction {
                    mnemonic: table@[j].mnemonic,
                    ..catalog@[j]
                }) && table@[j].mnemonic@ == instructions::names::spec_assembly(
                    catalog@[j].opcode as u8,
                ),
        decreases catalog@.len() - k,
    {
        let e = catalog[k];
        table.push(
            instructions::entry(
                instructions::names::assembly(e.opcode as u8),
                e.opcode,
                e.cycles,
                e.cycles_untaken,
                e.length,
                e.handler,
            ),
        );
        k += 1;
    }
    proof {
        assert forall|opcode: u8|
            instructions::decode::spec_decode(
                opcode,
            ).is_some() implies #[trigger] instructions::spec_has(table@, opcode) by {
            assert(instructions::spec_has(catalog@, opcode));
            let j = choose|j: int|
                0 <= j < catalog@.len() && (#[trigger] catalog@[j]).opcode == opcode;
            assert(table@[j].opcode == opcode);
        }
        assert forall|i: int, j: int| 0 <= i < j < table@.len() implies (
        #[trigger] table@[i]).opcode != (#[trigger] table@[j]).opcode by {
            assert(catalog@[i].opcode != catalog@[j].opcode);
        }
        assert forall|i: int, j: int| 0 <= i < j < table@.len() implies {
            let first = (#[trigger] table@[i]).handler.family();
            let second = (#[trigger] table@[j]).handler.family();
            instructions::spec_rank(first) < instructions::spec_rank(second) || (first == second
                && table@[i].opcode < table@[j].opcode)
        } by {
            assert(catalog@[i].handler == table@[i].handler && catalog@[j].handler
                == table@[j].handler);
        }
        assert forall|j: int| 0 <= j < table@.len() implies (#[trigger] table@[j]).wf()
            && table@[j].handler.family() != instructions::Family::Prefixed by {
            assert(catalog@[j].wf());
        }
    }
    table
}

/// The default value of a type; shorter to write where a struct is filled in.
pub fn default<T: Default>() -> (value: T)
    ensures
        call_ensures(T::default, (), value),
{
    Default::default()
}

/// The pixel-processing unit. It lies outside this library and holds no
/// state here.
#[derive(Debug, Clone, Copy, Default, PartialEq, Eq, Structural)]
pub struct GPU {}

impl GPU {
    pub fn new() -> (gpu: Self)
        ensures
            gpu == (GPU {  }),
    {
        GPU {  }
    }
}

} // verus!
