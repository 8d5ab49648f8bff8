use hardware::disassembler::{disassemble, parse_header, Line};
use hardware::mem::{load_boot_rom, load_rom, LoadError, MMU};
use hardware::{BOOT_ROM, NINTENDO_HEADER};

fn image(len: usize) -> Vec<u8> {
    let mut bytes = vec![0u8; len];
    bytes[0x0104..0x0134].copy_from_slice(&NINTENDO_HEADER);
    bytes
}

#[test]
fn valid_rom_is_copied_to_the_cartridge() {
    let mut mmu = MMU::new();
    let mut bytes = image(0x0200);
    bytes[0] = 0x3E;
    bytes[0x01FF] = 0x77;
    mmu.write(0x0200, 0x55);
    mmu.write(0x8000, 0x66);
    assert_eq!(load_rom(&bytes, &mut mmu), Ok(()));
    assert_eq!(mmu.read(0x0000), 0x3E);
    assert_eq!(mmu.read(0x01FF), 0x77);
    assert_eq!(mmu.read_range(0x0104, 48), Some(NINTENDO_HEADER.to_vec()));
    assert_eq!(mmu.read(0x0200), 0x55);
    assert_eq!(mmu.read(0x8000), 0x66);
    assert_eq!(load_rom(&image(0x8000), &mut mmu), Ok(()));
    assert_eq!(load_rom(&image(0x0134), &mut mmu), Ok(()));
}

#[test]
fn bad_roms_are_refused() {
    let mut mmu = MMU::new();
    mmu.write(0x0000, 0x11);
    assert_eq!(load_rom(&[], &mut mmu), Err(LoadError::TooShort));
    assert_eq!(load_rom(&image(0x0134)[..0x0133], &mut mmu), Err(LoadError::TooShort));
    assert_eq!(load_rom(&image(0x8001), &mut mmu), Err(LoadError::TooLong));
    let mut bytes = image(0x4000);
    bytes[0x0133] ^= 1;
    assert_eq!(load_rom(&bytes, &mut mmu), Err(LoadError::InvalidLogo));
    let mut bytes = image(0x4000);
    bytes[0x0104] = 0;
    assert_eq!(load_rom(&bytes, &mut mmu), Err(LoadError::InvalidLogo));
    assert_eq!(mmu.read(0x0000), 0x11);
    assert_eq!(mmu.read(0x0104), 0x00);
}

#[test]
fn boot_rom_is_copied_to_offset_zero() {
    let mut mmu = MMU::new();
    mmu.write(0x0100, 0x42);
    load_boot_rom(&mut mmu);
    assert_eq!(mmu.read_range(0, 256), Some(BOOT_ROM.to_vec()));
    assert_eq!(mmu.read(0x0100), 0x42);
}

#[test]
fn header_fields() {
    let mut bytes = image(0x0150);
    bytes[0x0100..0x0104].copy_from_slice(&[0x00, 0xC3, 0x50, 0x01]);
    bytes[0x0134..0x0139].copy_from_slice(b"TETRI");
    bytes[0x0144] = 0x30;
    bytes[0x0145] = 0x31;
    bytes[0x0146] = 0x03;
    bytes[0x0147] = 0x01;
    bytes[0x0148] = 0x02;
    bytes[0x0149] = 0x04;
    bytes[0x014A] = 0x05;
    bytes[0x014B] = 0x33;
    bytes[0x014C] = 0x06;
    bytes[0x014D] = 0x0B;
    bytes[0x014E] = 0x89;
    bytes[0x014F] = 0xB5;
    let header = parse_header(&bytes).unwrap();
    assert_eq!(header.entry_point, vec![0x00, 0xC3, 0x50, 0x01]);
    assert_eq!(header.logo, NINTENDO_HEADER.to_vec());
    assert_eq!(header.title.len(), 15);
    assert_eq!(&header.title[..5], b"TETRI");
    assert_eq!(header.licensee, vec![0x30, 0x31]);
    assert_eq!(header.sgb_flag, 0x03);
    assert_eq!(header.cartridge_type, 0x01);
    assert_eq!(header.rom_size, 0x02);
    assert_eq!(header.ram_size, 0x04);
    assert_eq!(header.destination_code, 0x05);
    assert_eq!(header.old_licensee_code, 0x33);
    assert_eq!(header.mask_rom_version_number, 0x06);
    assert_eq!(header.header_checksum, 0x0B);
    assert_eq!(header.global_checksum, 0x89B5);
    assert!(parse_header(&bytes[..0x014F]).is_none());
    assert!(parse_header(&BOOT_ROM).is_none());
}

fn shape(line: &Line) -> (usize, String, usize) {
    match line {
        Line::Decoded { address, instruction, length } => {
            (*address, instruction.mnemonic.to_string(), *length)
        }
        Line::Unknown { address, opcode } => (*address, format!("? {opcode:#04x}"), 1),
        Line::Filler { address, byte, count } => (*address, format!("{byte:#04x} x{count}"), *count),
    }
}

#[test]
fn listing_of_the_boot_program() {
    let listing = disassemble(&BOOT_ROM, false);
    let lines: Vec<_> = listing.lines.iter().map(shape).collect();
    assert_eq!(lines[0], (0x00, "LD_SP_D16".to_string(), 3));
    assert_eq!(lines[1], (0x03, "XOR_A".to_string(), 1));
    assert_eq!(lines[2], (0x04, "LD_HL_D16".to_string(), 3));
    assert_eq!(lines[3], (0x07, "LD_HLD_A".to_string(), 1));
    assert_eq!(lines[4], (0x08, "BIT_7_H".to_string(), 2));
    assert_eq!(lines[5], (0x0A, "JR_NZ_S8".to_string(), 2));
    let mut at = 0;
    for line in &listing.lines {
        assert_eq!(line.address(), at);
        at += line.size();
    }
    assert_eq!(at, 256);
    let unknown = listing.lines.iter().filter(|l| matches!(l, Line::Unknown { .. })).count();
    assert_eq!(listing.unknown, unknown);
}

#[test]
fn listing_with_unknown_and_cut_off_bytes() {
    let listing = disassemble(&[0xD3, 0x00, 0xFD, 0xCB], false);
    let lines: Vec<_> = listing.lines.iter().map(shape).collect();
    assert_eq!(
        lines,
        vec![
            (0, "? 0xd3".to_string(), 1),
            (1, "NOP".to_string(), 1),
            (2, "? 0xfd".to_string(), 1),
            (3, "? 0xcb".to_string(), 1),
        ]
    );
    assert_eq!(listing.unknown, 3);

    let listing = disassemble(&[0x3E, 0x12, 0xC3, 0x00], false);
    let lines: Vec<_> = listing.lines.iter().map(shape).collect();
    assert_eq!(lines, vec![(0, "LD_A_D8".to_string(), 2), (2, "JP_A16".to_string(), 2)]);
    assert_eq!(listing.unknown, 0);

    let listing = disassemble(&[], true);
    assert!(listing.lines.is_empty());
    assert_eq!(listing.unknown, 0);
}

#[test]
fn minify_coalesces_filler_runs() {
    let bytes = [0x00, 0x00, 0x00, 0xFF, 0xFF, 0x3E, 0x00, 0x00, 0xFF];
    let listing = disassemble(&bytes, true);
    let lines: Vec<_> = listing.lines.iter().map(shape).collect();
    assert_eq!(
        lines,
        vec![
            (0, "0x00 x3".to_string(), 3),
            (3, "0xff x2".to_string(), 2),
            (5, "LD_A_D8".to_string(), 2),
            (7, "0x00 x1".to_string(), 1),
            (8, "0xff x1".to_string(), 1),
        ]
    );
    let listing = disassemble(&bytes, false);
    let lines: Vec<_> = listing.lines.iter().map(shape).collect();
    assert_eq!(lines[0], (0, "NOP".to_string(), 1));
    assert_eq!(lines[3], (3, "RST_7".to_string(), 1));
    assert_eq!(lines.len(), 8);
}

#[test]
fn listing_as_text() {
    let bytes = [0x31, 0xFE, 0xFF, 0xAF, 0xCB, 0x7C, 0xD3, 0x00, 0x00];
    let listing = disassemble(&bytes, true);
    assert_eq!(
        listing.render(&bytes),
        "0x00: LD_SP_D16 0x31 0xfe 0xff\n\
         0x03: XOR_A 0xaf\n\
         0x04: BIT_7_H 0xcb 0x7c\n\
         0x06: 0xd3 ?\n\
         0x07: 0x00 x2\n"
    );
    let line = Line::Filler { address: 0x1234, byte: 0xFF, count: 1030 };
    assert_eq!(line.render(&[0xFF; 0x2000]), "0x1234: 0xff x1030");
    let line = Line::Unknown { address: 0x10, opcode: 0x0D };
    assert_eq!(line.render(&[0x0D; 0x20]), "0x10: 0x0d ?");
    assert_eq!(disassemble(&[], false).render(&[]), "");
}
