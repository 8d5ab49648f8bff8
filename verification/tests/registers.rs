use hardware::ram::{MemoryRegion, RamSize, RamStart};
use hardware::reg::FlagBit::{C, H, N, Z};
use hardware::reg::{Flags, Pair, Registers};
use hardware::text::{binary, decimal, hex, hex_address, hex_bytes, hex_dump};
use hardware::GPU;

#[test]
fn registers_after_boot() {
    let reg = Registers::new();
    assert_eq!(
        (reg.a, reg.f, reg.b, reg.c, reg.d, reg.e, reg.h, reg.l),
        (0x01, 0x80, 0x00, 0x13, 0x00, 0xD8, 0x01, 0x4D)
    );
    assert_eq!((reg.pc, reg.sp), (0x0100, 0xFFFE));
    assert!(!reg.ime);
    assert_eq!(Registers::default(), reg);
    let same: Registers = hardware::default();
    assert_eq!(same, reg);
    assert_eq!(GPU::new(), GPU::default());
}

#[test]
fn pairs_are_upper_byte_first() {
    let mut reg = Registers::new();
    assert_eq!(reg.read_pair(Pair::AF), 0x0180);
    assert_eq!(reg.read_pair(Pair::BC), 0x0013);
    assert_eq!(reg.read_pair(Pair::DE), 0x00D8);
    assert_eq!(reg.read_pair(Pair::HL), 0x014D);
    reg.write_pair(Pair::BC, 0xABCD);
    assert_eq!((reg.b, reg.c), (0xAB, 0xCD));
    assert_eq!(reg.read_pair(Pair::BC), 0xABCD);
    reg.write_pair(Pair::AF, 0x12FF);
    assert_eq!((reg.a, reg.f), (0x12, 0xF0));
    assert_eq!(reg.read_pair(Pair::AF), 0x12F0);
    assert_eq!(reg.read_pair(Pair::DE), 0x00D8);
}

#[test]
fn flags_in_f() {
    let mut reg = Registers::new();
    assert!(reg.is_set(Z));
    assert!(!reg.is_set(N) && !reg.is_set(H) && !reg.is_set(C));
    reg.set_flag(C, true);
    assert_eq!(reg.f, 0x90);
    reg.set_flag(Z, false);
    assert_eq!(reg.f, 0x10);
    reg.set_flag(H, true);
    reg.set_flag(N, true);
    assert_eq!(reg.f, 0x70);
    reg.set_flag(N, true);
    assert_eq!(reg.f, 0x70);
    reg.f = 0x0F;
    reg.set_flag(Z, true);
    assert_eq!(reg.f, 0x80);
    let flags = Flags { z: true, n: false, h: true, c: false };
    assert_eq!(flags.byte(), 0xA0);
    assert_eq!(Flags::of(0xAF), flags);
}

#[test]
fn region_reads_and_writes_in_its_window() {
    let mut region = MemoryRegion::new(16, 0xC000);
    assert_eq!(region.start, 0xC000);
    assert_eq!(region.len(), 16);
    assert_eq!(region.read(0xC00F), 0);
    region.write(0xC003, 9);
    assert_eq!(region.read(0xC003), 9);
    assert_eq!(region.read_range(2, 5), &[0, 9, 0]);
    region.write_range(4, 6, &[1, 2]);
    assert_eq!(region.read_range(0, 8), &[0, 0, 0, 9, 1, 2, 0, 0]);
}

#[test]
fn sizes_and_starts() {
    assert_eq!(u32::from(RamSize::KB2), 2048);
    assert_eq!(u32::from(RamSize::KB8), 8192);
    assert_eq!(u32::from(RamSize::KB32), 32_768);
    assert_eq!(u32::from(RamSize::KB64), 65_536);
    assert_eq!(u32::from(RamSize::KB128), 131_072);
    assert_eq!(u16::from(RamStart::Cart), 0x0000);
    assert_eq!(u16::from(RamStart::VRam), 0x8000);
    assert_eq!(u16::from(RamStart::WRam), 0xC000);
    assert_eq!(u16::from(RamStart::ERam), 0xE000);
    assert_eq!(u16::from(RamStart::HRam), 0xFF80);
}

#[test]
fn bytes_as_text() {
    assert_eq!(hex(0x00), "0x00");
    assert_eq!(hex(0x0A), format!("{:#04x}", 0x0A));
    assert_eq!(hex(0xF3), "0xf3");
    assert_eq!(binary(0x00), "00000000");
    assert_eq!(binary(0xA5), format!("{:08b}", 0xA5));
    assert_eq!(binary(0x01), "00000001");
    assert_eq!(hex_address(0), "0x00");
    assert_eq!(hex_address(0x0F), "0x0f");
    assert_eq!(hex_address(0x100), format!("{:#04x}", 0x100));
    assert_eq!(hex_address(0x7FFF), "0x7fff");
    assert_eq!(decimal(0), "0");
    assert_eq!(decimal(9), "9");
    assert_eq!(decimal(32768), "32768");
    assert_eq!(hex_bytes(&[]), "");
    assert_eq!(hex_bytes(&[1, 0xAB]), " 0x01 0xab");
}

#[test]
fn registers_as_text() {
    let cpu = hardware::cpu::CPU::new();
    assert_eq!(
        cpu.print_reg(),
        "Registers (hex):\n\
         A: 0x01     F: 0x80\n\
         B: 0x00     C: 0x13\n\
         D: 0x00     E: 0xd8\n\
         H: 0x01     L: 0x4d\n\
         Registers (bin):\n\
         A: 00000001 F: 10000000\n\
         B: 00000000 C: 00010011\n\
         D: 00000000 E: 11011000\n\
         H: 00000001 L: 01001101\n"
    );
}

#[test]
fn dump_has_sixteen_bytes_to_a_line() {
    assert_eq!(hex_dump(&[]), "");
    assert_eq!(hex_dump(&[0xCE, 0xED]), "0xce 0xed ");
    let bytes: Vec<u8> = (0..18).collect();
    assert_eq!(
        hex_dump(&bytes),
        "0x00 0x01 0x02 0x03 0x04 0x05 0x06 0x07 0x08 0x09 0x0a 0x0b 0x0c 0x0d 0x0e 0x0f\n\
         0x10 0x11 "
    );
}
