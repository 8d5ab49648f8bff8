use hardware::cpu::{DecodeError, Mode, CPU};
use hardware::instructions::{decode, decode_prefixed};
use hardware::mem::load_boot_rom;
use hardware::reg::FlagBit::{C, H, N, Z};
use hardware::reg::{Pair, Registers};

fn run_opcode(cpu: &mut CPU, opcode: u8) -> bool {
    decode(opcode).unwrap().run(cpu)
}

fn flags(cpu: &CPU) -> (bool, bool, bool, bool) {
    (cpu.is_set(Z), cpu.is_set(N), cpu.is_set(H), cpu.is_set(C))
}

#[test]
fn add_a_b_with_carry() {
    let mut cpu = CPU::new();
    cpu.reg.a = 0xFF;
    cpu.reg.b = 0x01;
    run_opcode(&mut cpu, 0x80);
    assert_eq!(cpu.reg.a, 0x00);
    assert_eq!(flags(&cpu), (true, false, true, true));
    assert_eq!(cpu.reg.f, 0xB0);
}

#[test]
fn sub_a_b_without_borrow() {
    let mut cpu = CPU::new();
    cpu.reg.a = 62;
    cpu.reg.b = 34;
    run_opcode(&mut cpu, 0x90);
    assert_eq!(cpu.reg.a, 28);
    assert!(!cpu.is_set(Z));
    assert!(cpu.is_set(N));
    assert!(!cpu.is_set(C));
    // The low half 0xE is not smaller than 0x2: nothing is borrowed from bit 4.
    assert!(!cpu.is_set(H));
}

#[test]
fn xor_a_clears_a() {
    let mut cpu = CPU::new();
    cpu.reg.a = 0x7C;
    run_opcode(&mut cpu, 0xAF);
    assert_eq!(cpu.reg.a, 0x00);
    assert_eq!(flags(&cpu), (true, false, false, false));
}

#[test]
fn inc_c_wraps() {
    let mut cpu = CPU::new();
    cpu.reg.c = 0xFF;
    cpu.reg.f = 0x10;
    run_opcode(&mut cpu, 0x0C);
    assert_eq!(cpu.reg.c, 0x00);
    // Z set, N clear, H set, and C as it was.
    assert_eq!(flags(&cpu), (true, false, true, true));
}

#[test]
fn ld_sp_d16_step() {
    let mut cpu = CPU::new();
    cpu.reg.sp = 0;
    cpu.mmu.write(0x0100, 0x31);
    cpu.mmu.write(0x0101, 0xFE);
    cpu.mmu.write(0x0102, 0xFF);
    assert_eq!(cpu.cycle(), Ok(()));
    assert_eq!(cpu.reg.sp, 0xFFFE);
    assert_eq!(cpu.reg.pc, 0x0103);
    assert_eq!(cpu.cycles, 3);
}

#[test]
fn call_then_ret() {
    let mut cpu = CPU::new();
    assert_eq!(cpu.reg.pc, 0x0100);
    assert_eq!(cpu.reg.sp, 0xFFFE);
    cpu.mmu.write(0x0100, 0xCD);
    cpu.mmu.write(0x0101, 0x50);
    cpu.mmu.write(0x0102, 0x01);
    cpu.mmu.write(0x0150, 0xC9);

    assert_eq!(cpu.cycle(), Ok(()));
    assert_eq!(cpu.reg.pc, 0x0150);
    assert_eq!(cpu.reg.sp, 0xFFFC);
    assert_eq!(cpu.mmu.read(0xFFFD), 0x01);
    assert_eq!(cpu.mmu.read(0xFFFC), 0x03);
    assert_eq!(cpu.cycles, 6);

    assert_eq!(cpu.cycle(), Ok(()));
    assert_eq!(cpu.reg.pc, 0x0103);
    assert_eq!(cpu.reg.sp, 0xFFFE);
    assert_eq!(cpu.cycles, 10);
}

#[test]
fn rst_7() {
    let mut cpu = CPU::new();
    cpu.reg.pc = 0x0200;
    cpu.reg.sp = 0xFFFE;
    cpu.mmu.write(0x0200, 0xFF);
    assert_eq!(cpu.cycle(), Ok(()));
    assert_eq!(cpu.reg.pc, 0x0038);
    assert_eq!(cpu.reg.sp, 0xFFFC);
    assert_eq!(cpu.mmu.read_word(0xFFFC), 0x0201);
    assert_eq!(cpu.cycles, 4);
}

#[test]
fn handler_leaves_pc_and_step_advances_it() {
    let mut cpu = CPU::new();
    cpu.mmu.write(0x0100, 0x06);
    cpu.mmu.write(0x0101, 0x77);
    let instruction = cpu.fetch().unwrap();
    assert_eq!(instruction.mnemonic, "LD_B_D8");
    assert!(!instruction.run(&mut cpu));
    assert_eq!(cpu.reg.b, 0x77);
    assert_eq!(cpu.reg.pc, 0x0100);
    assert_eq!(cpu.cycle(), Ok(()));
    assert_eq!(cpu.reg.pc, 0x0102);
}

#[test]
fn undefined_opcode_is_a_decode_error() {
    let mut cpu = CPU::new();
    cpu.mmu.write(0x0100, 0xD3);
    let before = cpu.reg;
    assert_eq!(cpu.cycle(), Err(DecodeError { opcode: 0xD3, pc: 0x0100 }));
    assert_eq!(cpu.reg, before);
    assert_eq!(cpu.cycles, 0);
    for opcode in [0xD3u8, 0xDB, 0xDD, 0xE3, 0xE4, 0xEB, 0xEC, 0xED, 0xF4, 0xFC, 0xFD, 0xCB] {
        assert!(decode(opcode).is_none());
    }
}

#[test]
fn prefix_selects_the_prefixed_table() {
    let mut cpu = CPU::new();
    cpu.mmu.write(0x0100, 0xCB);
    cpu.mmu.write(0x0101, 0x7C);
    cpu.reg.h = 0x80;
    cpu.reg.f = 0x10;
    let instruction = cpu.fetch().unwrap();
    assert_eq!(instruction.mnemonic, "BIT_7_H");
    assert_eq!(instruction.opcode, 0x7C);
    assert_eq!(instruction.length, 2);
    assert_eq!(cpu.cycle(), Ok(()));
    assert_eq!(cpu.reg.pc, 0x0102);
    // Bit 7 of H is set: Z clear, N clear, H set, C as it was.
    assert_eq!(flags(&cpu), (false, false, true, true));
    assert_eq!(cpu.cycles, 2);
    assert_eq!(decode_prefixed(0x7C).mnemonic, "BIT_7_H");
}

#[test]
fn conditional_jump_costs_less_when_not_taken() {
    let mut cpu = CPU::new();
    // JR NZ, +5 with Z set: not taken.
    cpu.mmu.write(0x0100, 0x20);
    cpu.mmu.write(0x0101, 0x05);
    cpu.reg.f = 0x80;
    assert_eq!(cpu.cycle(), Ok(()));
    assert_eq!(cpu.reg.pc, 0x0102);
    assert_eq!(cpu.cycles, 2);
    // JR NZ, -4 with Z clear: taken, from the address of the next instruction.
    cpu.mmu.write(0x0102, 0x20);
    cpu.mmu.write(0x0103, 0xFC);
    cpu.reg.f = 0x00;
    assert_eq!(cpu.cycle(), Ok(()));
    assert_eq!(cpu.reg.pc, 0x0100);
    assert_eq!(cpu.cycles, 5);
}

#[test]
fn jp_a16_is_little_endian() {
    let mut cpu = CPU::new();
    cpu.mmu.write(0x0100, 0xC3);
    cpu.mmu.write(0x0101, 0x34);
    cpu.mmu.write(0x0102, 0x12);
    assert_eq!(cpu.cycle(), Ok(()));
    assert_eq!(cpu.reg.pc, 0x1234);
}

#[test]
fn push_and_pop_keep_the_word() {
    let mut cpu = CPU::new();
    cpu.reg.sp = 0xD000;
    cpu.push_word(0xBEEF);
    assert_eq!(cpu.reg.sp, 0xCFFE);
    assert_eq!(cpu.mmu.read(0xCFFE), 0xEF);
    assert_eq!(cpu.mmu.read(0xCFFF), 0xBE);
    assert_eq!(cpu.pop_word(), 0xBEEF);
    assert_eq!(cpu.reg.sp, 0xD000);

    cpu.reg.pc = 0x4321;
    cpu.store_pc();
    assert_eq!(cpu.pop_stack(), 0x21);
    assert_eq!(cpu.pop_stack(), 0x43);
}

#[test]
fn push_bc_pop_af_masks_f() {
    let mut cpu = CPU::new();
    cpu.reg.sp = 0xD000;
    cpu.reg.b = 0x12;
    cpu.reg.c = 0xFF;
    run_opcode(&mut cpu, 0xC5);
    run_opcode(&mut cpu, 0xF1);
    assert_eq!(cpu.reg.a, 0x12);
    assert_eq!(cpu.reg.f, 0xF0);
    assert_eq!(cpu.reg.sp, 0xD000);
}

#[test]
fn halt_waits_for_an_enabled_interrupt() {
    let mut cpu = CPU::new();
    cpu.mmu.write(0x0100, 0x76);
    cpu.mmu.write(0x0101, 0x3C);
    assert_eq!(cpu.cycle(), Ok(()));
    assert_eq!(cpu.mode, Mode::Halted);
    assert_eq!(cpu.reg.pc, 0x0101);
    let a = cpu.reg.a;
    assert_eq!(cpu.cycle(), Ok(()));
    assert_eq!(cpu.mode, Mode::Halted);
    assert_eq!(cpu.reg.pc, 0x0101);
    assert_eq!(cpu.cycles, 2);
    // Requested but not enabled: still waiting.
    cpu.mmu.write(0xFF0F, 0x01);
    assert_eq!(cpu.cycle(), Ok(()));
    assert_eq!(cpu.mode, Mode::Halted);
    // Enabled too: the processor runs on.
    cpu.mmu.write(0xFFFF, 0x01);
    assert_eq!(cpu.cycle(), Ok(()));
    assert_eq!(cpu.mode, Mode::Running);
    assert_eq!(cpu.reg.a, a.wrapping_add(1));
    assert_eq!(cpu.reg.pc, 0x0102);
}

#[test]
fn stop_waits_for_joypad_or_reset() {
    let mut cpu = CPU::new();
    cpu.mmu.write(0x0100, 0x10);
    cpu.mmu.write(0x0102, 0x00);
    assert_eq!(cpu.cycle(), Ok(()));
    assert_eq!(cpu.mode, Mode::Stopped);
    assert_eq!(cpu.reg.pc, 0x0102);
    assert_eq!(cpu.cycle(), Ok(()));
    assert_eq!(cpu.mode, Mode::Stopped);
    cpu.mmu.write(0xFF0F, 0x10);
    assert_eq!(cpu.cycle(), Ok(()));
    assert_eq!(cpu.mode, Mode::Running);
    assert_eq!(cpu.reg.pc, 0x0103);

    cpu.reg.pc = 0x0100;
    cpu.mmu.write(0xFF0F, 0x00);
    assert_eq!(cpu.cycle(), Ok(()));
    assert_eq!(cpu.mode, Mode::Stopped);
    cpu.reset();
    assert_eq!(cpu.mode, Mode::Running);
    assert_eq!(cpu.reg, Registers::new());
}

#[test]
fn ei_and_di_and_reti() {
    let mut cpu = CPU::new();
    assert!(!cpu.reg.ime);
    run_opcode(&mut cpu, 0xFB);
    assert!(cpu.reg.ime);
    run_opcode(&mut cpu, 0xF3);
    assert!(!cpu.reg.ime);
    cpu.reg.sp = 0xD000;
    cpu.push_word(0x4000);
    assert!(run_opcode(&mut cpu, 0xD9));
    assert_eq!(cpu.reg.pc, 0x4000);
    assert!(cpu.reg.ime);
}

#[test]
fn daa_after_addition() {
    let mut cpu = CPU::new();
    cpu.reg.a = 0x45;
    cpu.reg.b = 0x38;
    run_opcode(&mut cpu, 0x80);
    assert_eq!(cpu.reg.a, 0x7D);
    run_opcode(&mut cpu, 0x27);
    assert_eq!(cpu.reg.a, 0x83);
    assert!(!cpu.is_set(C));
    cpu.reg.a = 0x83;
    cpu.reg.b = 0x38;
    run_opcode(&mut cpu, 0x90);
    assert_eq!(cpu.reg.a, 0x4B);
    run_opcode(&mut cpu, 0x27);
    assert_eq!(cpu.reg.a, 0x45);
}

#[test]
fn rotations_of_a_clear_z() {
    let mut cpu = CPU::new();
    cpu.reg.a = 0x80;
    cpu.reg.f = 0x00;
    run_opcode(&mut cpu, 0x07);
    assert_eq!(cpu.reg.a, 0x01);
    assert_eq!(flags(&cpu), (false, false, false, true));
    cpu.reg.a = 0x80;
    cpu.reg.f = 0x00;
    run_opcode(&mut cpu, 0x17);
    assert_eq!(cpu.reg.a, 0x00);
    assert_eq!(flags(&cpu), (false, false, false, true));
    run_opcode(&mut cpu, 0x1F);
    assert_eq!(cpu.reg.a, 0x80);
    assert_eq!(flags(&cpu), (false, false, false, false));
    cpu.reg.a = 0x01;
    run_opcode(&mut cpu, 0x0F);
    assert_eq!(cpu.reg.a, 0x80);
    assert!(cpu.is_set(C));
}

#[test]
fn prefixed_shifts() {
    let mut cpu = CPU::new();
    cpu.reg.b = 0x81;
    cpu.reg.f = 0;
    decode_prefixed(0x20).run(&mut cpu);
    assert_eq!(cpu.reg.b, 0x02);
    assert_eq!(flags(&cpu), (false, false, false, true));
    cpu.reg.b = 0x81;
    decode_prefixed(0x28).run(&mut cpu);
    assert_eq!(cpu.reg.b, 0xC0);
    cpu.reg.b = 0x81;
    decode_prefixed(0x38).run(&mut cpu);
    assert_eq!(cpu.reg.b, 0x40);
    cpu.reg.b = 0xA5;
    decode_prefixed(0x30).run(&mut cpu);
    assert_eq!(cpu.reg.b, 0x5A);
    assert!(!cpu.is_set(C));
    cpu.reg.b = 0x00;
    decode_prefixed(0x00).run(&mut cpu);
    assert!(cpu.is_set(Z));
    // SET 3,(HL) and RES 3,(HL)
    cpu.reg.write_pair(Pair::HL, 0xC000);
    decode_prefixed(0xDE).run(&mut cpu);
    assert_eq!(cpu.mmu.read(0xC000), 0x08);
    decode_prefixed(0x9E).run(&mut cpu);
    assert_eq!(cpu.mmu.read(0xC000), 0x00);
}

#[test]
fn add_hl_and_add_sp() {
    let mut cpu = CPU::new();
    cpu.reg.write_pair(Pair::HL, 0x0FFF);
    cpu.reg.write_pair(Pair::BC, 0x0001);
    cpu.reg.f = 0x80;
    run_opcode(&mut cpu, 0x09);
    assert_eq!(cpu.reg.read_pair(Pair::HL), 0x1000);
    assert_eq!(flags(&cpu), (true, false, true, false));

    cpu.reg.sp = 0xFFF8;
    cpu.mmu.write(0x0101, 0x08);
    run_opcode(&mut cpu, 0xE8);
    assert_eq!(cpu.reg.sp, 0x0000);
    assert_eq!(flags(&cpu), (false, false, true, true));

    cpu.reg.sp = 0x0001;
    cpu.mmu.write(0x0101, 0xFF);
    run_opcode(&mut cpu, 0xF8);
    assert_eq!(cpu.reg.read_pair(Pair::HL), 0x0000);
    assert_eq!(cpu.reg.sp, 0x0001);
}

#[test]
fn loads_through_memory() {
    let mut cpu = CPU::new();
    cpu.reg.a = 0x5A;
    cpu.reg.write_pair(Pair::HL, 0xC010);
    run_opcode(&mut cpu, 0x22);
    assert_eq!(cpu.mmu.read(0xC010), 0x5A);
    assert_eq!(cpu.reg.read_pair(Pair::HL), 0xC011);
    run_opcode(&mut cpu, 0x32);
    assert_eq!(cpu.mmu.read(0xC011), 0x5A);
    assert_eq!(cpu.reg.read_pair(Pair::HL), 0xC010);
    cpu.reg.a = 0;
    run_opcode(&mut cpu, 0x2A);
    assert_eq!(cpu.reg.a, 0x5A);
    // LDH (a8),A to high RAM
    cpu.mmu.write(0x0101, 0x80);
    cpu.reg.a = 0x99;
    run_opcode(&mut cpu, 0xE0);
    assert_eq!(cpu.mmu.read(0xFF80), 0x99);
    // LD (C),A
    cpu.reg.c = 0x81;
    run_opcode(&mut cpu, 0xE2);
    assert_eq!(cpu.mmu.read(0xFF81), 0x99);
    // LD (a16),SP stores the lower byte first.
    cpu.reg.sp = 0xABCD;
    cpu.mmu.write(0x0101, 0x00);
    cpu.mmu.write(0x0102, 0xC1);
    run_opcode(&mut cpu, 0x08);
    assert_eq!(cpu.mmu.read(0xC100), 0xCD);
    assert_eq!(cpu.mmu.read(0xC101), 0xAB);
}

#[test]
fn boot_program_runs_without_decode_error() {
    let mut cpu = CPU::new();
    load_boot_rom(&mut cpu.mmu);
    cpu.reg.pc = 0x0000;
    cpu.mmu.write(0x8000, 0xAA);
    cpu.mmu.write(0x9FFF, 0xAA);
    for _ in 0..30_000 {
        assert_eq!(cpu.cycle(), Ok(()));
    }
    // The program has set up the stack and cleared the video RAM.
    assert_eq!(cpu.reg.sp, 0xFFFE);
    assert_eq!(cpu.mmu.read(0x8000), 0x00);
    assert_eq!(cpu.mmu.read(0x9FFF), 0x00);
    assert_eq!(cpu.mode, Mode::Running);
}
