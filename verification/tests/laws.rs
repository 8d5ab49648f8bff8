use hardware::cpu::CPU;
use hardware::instructions::cb;
use hardware::instructions::{dbg_check_instructions, decode, decode_prefixed, get};
use hardware::mem::{is_mapped, MMU};
use hardware::get_instructions;

#[test]
fn write_then_read_on_every_mapped_address() {
    let mut mmu = MMU::new();
    for a in 0..=0xFFFFu16 {
        let value = (a as u8) ^ 0x5A;
        mmu.write(a, value);
        if is_mapped(a) {
            assert_eq!(mmu.read(a), value, "address {a:#06x}");
        } else {
            assert_eq!(mmu.read(a), 1, "address {a:#06x}");
        }
    }
}

#[test]
fn unmapped_addresses_read_one_and_ignore_writes() {
    let mut mmu = MMU::new();
    for a in [0xA000u16, 0xBFFF, 0xE000, 0xFDFF, 0xFE00, 0xFE9F, 0xFEA0, 0xFEFF, 0xFF01, 0xFF10, 0xFF26, 0xFF27, 0xFF7F] {
        assert!(!is_mapped(a));
        assert_eq!(mmu.read(a), 1);
        mmu.write(a, 0x77);
        assert_eq!(mmu.read(a), 1);
    }
    for a in [0x0000u16, 0x7FFF, 0x8000, 0x9FFF, 0xC000, 0xDFFF, 0xFF00, 0xFF04, 0xFF05, 0xFF06, 0xFF07, 0xFF0F, 0xFF80, 0xFFFE, 0xFFFF] {
        assert!(is_mapped(a));
        assert_eq!(mmu.read(a), 0);
    }
}

#[test]
fn word_is_lower_byte_first() {
    let mut mmu = MMU::new();
    mmu.write(0xC000, 0x34);
    mmu.write(0xC001, 0x12);
    assert_eq!(mmu.read_word(0xC000), 0x1234);
    assert_eq!(
        mmu.read_word(0xC000),
        u16::from(mmu.read(0xC000)) | (u16::from(mmu.read(0xC001)) << 8)
    );
    mmu.write_word(0xD000, 0xBEEF);
    assert_eq!(mmu.read(0xD000), 0xEF);
    assert_eq!(mmu.read(0xD001), 0xBE);
    assert_eq!(mmu.read_word(0xD000), 0xBEEF);
    // The address after 0xFFFF is 0x0000.
    mmu.write_word(0xFFFF, 0xA55A);
    assert_eq!(mmu.read(0xFFFF), 0x5A);
    assert_eq!(mmu.read(0x0000), 0xA5);
    assert_eq!(mmu.read_word(0xFFFF), 0xA55A);
}

#[test]
fn read_range_of_the_address_space() {
    let mut mmu = MMU::new();
    mmu.write(0x9FFF, 7);
    assert_eq!(mmu.read_range(0x9FFE, 4), Some(vec![0, 7, 1, 1]));
    assert_eq!(mmu.read_range(0xFFFF, 1), Some(vec![0]));
    assert_eq!(mmu.read_range(0xFFFF, 2), None);
    assert_eq!(mmu.read_range(0x1234, 0), Some(vec![]));
}

#[test]
fn catalog_lengths_and_unique_opcodes() {
    let base = get();
    assert_eq!(base.len(), 244);
    assert_eq!(dbg_check_instructions(&base), Ok(()));
    let prefixed = cb::get();
    assert_eq!(prefixed.len(), 256);
    assert_eq!(dbg_check_instructions(&prefixed), Ok(()));
    for e in base.iter().chain(prefixed.iter()) {
        assert!((1..=3).contains(&e.length), "{}", e.mnemonic);
        assert!(e.opcode <= 0xFF);
        if e.handler.is_conditional() {
            assert!(e.cycles_untaken < e.cycles, "{}", e.mnemonic);
        } else {
            assert_eq!(e.cycles_untaken, e.cycles, "{}", e.mnemonic);
        }
    }
    for (k, e) in prefixed.iter().enumerate() {
        assert_eq!(e.opcode as usize, k);
        assert_eq!(e.length, 2);
        assert_eq!(decode_prefixed(k as u8).mnemonic, e.mnemonic);
    }
    let mut names: Vec<&str> = base.iter().map(|e| e.mnemonic).collect();
    names.sort();
    names.dedup();
    assert_eq!(names.len(), 244);
}

#[test]
fn duplicate_opcode_is_reported() {
    let mut table = get();
    let first = table[0];
    table.push(first);
    assert_eq!(dbg_check_instructions(&table), Err("Instruction already exists!"));
}

#[test]
fn assembler_names_follow_the_catalog() {
    let named = get_instructions();
    let base = get();
    assert_eq!(named.len(), base.len());
    for (a, b) in named.iter().zip(base.iter()) {
        assert_eq!(a.opcode, b.opcode);
        assert_eq!(a.handler, b.handler);
        assert_eq!((a.cycles, a.cycles_untaken, a.length), (b.cycles, b.cycles_untaken, b.length));
    }
    let find = |opcode: u32| named.iter().find(|e| e.opcode == opcode).unwrap().mnemonic;
    assert_eq!(find(0x00), "NOP");
    assert_eq!(find(0x10), "STOP");
    assert_eq!(find(0x76), "HALT");
    assert_eq!(find(0x31), "LD SP,d16");
    assert_eq!(find(0x36), "LD (HL),d8");
    assert_eq!(find(0x2A), "LD A,(HL+)");
    assert_eq!(find(0xCC), "CALL Z,a16");
}

#[test]
fn known_costs_and_lengths() {
    let cost = |opcode: u8| {
        let e = decode(opcode).unwrap();
        (e.cycles, e.cycles_untaken, e.length)
    };
    assert_eq!(cost(0x00), (1, 1, 1));
    assert_eq!(cost(0x01), (3, 3, 3));
    assert_eq!(cost(0x08), (5, 5, 3));
    assert_eq!(cost(0x10), (1, 1, 2));
    assert_eq!(cost(0x18), (3, 3, 2));
    assert_eq!(cost(0x20), (3, 2, 2));
    assert_eq!(cost(0x34), (3, 3, 1));
    assert_eq!(cost(0x36), (3, 3, 2));
    assert_eq!(cost(0x46), (2, 2, 1));
    assert_eq!(cost(0x86), (2, 2, 1));
    assert_eq!(cost(0xC0), (5, 2, 1));
    assert_eq!(cost(0xC2), (4, 3, 3));
    assert_eq!(cost(0xC4), (6, 3, 3));
    assert_eq!(cost(0xC5), (4, 4, 1));
    assert_eq!(cost(0xC9), (4, 4, 1));
    assert_eq!(cost(0xCD), (6, 6, 3));
    assert_eq!(cost(0xE0), (3, 3, 2));
    assert_eq!(cost(0xE8), (4, 4, 2));
    assert_eq!(cost(0xE9), (1, 1, 1));
    assert_eq!(cost(0xEA), (4, 4, 3));
    assert_eq!(cost(0xFF), (4, 4, 1));
    let e = decode_prefixed(0x46);
    assert_eq!((e.cycles, e.length), (3, 2));
    let e = decode_prefixed(0x86);
    assert_eq!((e.cycles, e.length), (4, 2));
}

#[test]
fn low_bits_of_f_stay_zero() {
    let base = get();
    let prefixed = cb::get();
    for e in base.iter().chain(prefixed.iter()) {
        for (a, f) in [(0x00u8, 0x00u8), (0xFF, 0xF0), (0x9A, 0x50), (0x0F, 0xA0)] {
            let mut cpu = CPU::new();
            cpu.reg.a = a;
            cpu.reg.b = 0x3C;
            cpu.reg.f = f;
            cpu.reg.sp = 0xD000;
            cpu.mmu.write(0xD000, 0xFF);
            cpu.mmu.write(0x0101, 0x7F);
            e.run(&mut cpu);
            assert_eq!(cpu.reg.f & 0x0F, 0, "{}", e.mnemonic);
        }
    }
}
