use hardware::mem::cart::Cartridge;
use hardware::mem::{Memory, MMU};

#[test]
fn mem_test_mmu() {
    let mut mmu = MMU::new();

    mmu.write_word(0x0000, 0x0001);
    mmu.write_word(0x0002, 0x0203);

    mmu.write_word(0x8000, 0x0405);
    mmu.write_word(0x8002, 0x0607);

    mmu.write_word(0xC000, 0x0809);
    mmu.write_word(0xC002, 0x0A0B);

    assert_eq!(mmu.read_word(0x0000), 0x0001);
    assert_eq!(mmu.read_word(0x0002), 0x0203);

    assert_eq!(mmu.read_word(0x8000), 0x0405);
    assert_eq!(mmu.read_word(0x8002), 0x0607);

    assert_eq!(mmu.read_word(0xC000), 0x0809);
    assert_eq!(mmu.read_word(0xC002), 0x0A0B);
}

#[test]
fn tests_test_mmu() {
    let mut mmu = MMU::default();

    mmu.write_word(0x0000, 0x0001);
    mmu.write_word(0x0002, 0x0203);

    mmu.write_word(0x8000, 0x0405);
    mmu.write_word(0x8002, 0x0607);

    mmu.write_word(0xC000, 0x0809);
    mmu.write_word(0xC002, 0x0A0B);

    assert_eq!(mmu.read_word(0x0000), 0x0001);
    assert_eq!(mmu.read_word(0x0002), 0x0203);

    assert_eq!(mmu.read_word(0x8000), 0x0405);
    assert_eq!(mmu.read_word(0x8002), 0x0607);

    assert_eq!(mmu.read_word(0xC000), 0x0809);
    assert_eq!(mmu.read_word(0xC002), 0x0A0B);
}

#[test]
fn test_reads() {
    let mut mmu = MMU::default();

    for (i, byte) in [0x00u8, 0x01, 0x02, 0x03].iter().enumerate() {
        mmu.write(0x0000 + i as u16, *byte);
    }
    for (i, byte) in [0x04u8, 0x05, 0x06, 0x07].iter().enumerate() {
        mmu.write(0x8000 + i as u16, *byte);
    }
    for (i, byte) in [0x08u8, 0x09, 0x0A, 0x0B].iter().enumerate() {
        mmu.write(0xC000 + i as u16, *byte);
    }

    assert_eq!(mmu.read(0x0000), 0x00);
    assert_eq!(mmu.read(0x0001), 0x01);
    assert_eq!(mmu.read(0x0002), 0x02);
    assert_eq!(mmu.read(0x0003), 0x03);

    assert_eq!(mmu.read(0x8000), 0x04);
    assert_eq!(mmu.read(0x8001), 0x05);
    assert_eq!(mmu.read(0x8002), 0x06);
    assert_eq!(mmu.read(0x8003), 0x07);

    assert_eq!(mmu.read(0xC000), 0x08);
    assert_eq!(mmu.read(0xC001), 0x09);
    assert_eq!(mmu.read(0xC002), 0x0A);
    assert_eq!(mmu.read(0xC003), 0x0B);

    // A word lies in memory with its lower byte first.
    assert_eq!(mmu.read_word(0x8000), 0x0504);
    assert_eq!(mmu.read_word(0xC000), 0x0908);
}

#[test]
fn test_read_range() {
    let mut cart = Cartridge::new();
    cart.write(0x0000, 0x01);
    cart.write(0x0001, 0x02);
    cart.write(0x0002, 0x03);
    cart.write(0x0003, 0x04);
    cart.write(0x0004, 0x05);
    cart.write(0x0005, 0x06);
    cart.write(0x0006, 0x07);
    cart.write(0x0007, 0x08);

    let range = cart.read_range(0x0000, 0x0008);
    assert_eq!(range, &[0x01, 0x02, 0x03, 0x04, 0x05, 0x06, 0x07, 0x08]);
}

#[test]
fn test_read_range_mut() {
    let mut cart = Cartridge::new();
    cart.write(0x0000, 0x01);
    cart.write(0x0001, 0x02);
    cart.write(0x0002, 0x03);
    cart.write(0x0003, 0x04);
    cart.write(0x0004, 0x05);
    cart.write(0x0005, 0x06);
    cart.write(0x0006, 0x07);
    cart.write(0x0007, 0x08);

    let range = cart.read_range(0x0000, 0x0008);
    assert_eq!(range, &[0x01, 0x02, 0x03, 0x04, 0x05, 0x06, 0x07, 0x08]);

    cart.write_range(0, 7, &[0x09, 0x0A, 0x0B, 0x0C, 0x0D, 0x0E, 0x0F, 0x10]);

    let range = cart.read_range(0x0000, 0x0008);
    assert_eq!(range, &[0x09, 0x0A, 0x0B, 0x0C, 0x0D, 0x0E, 0x0F, 0x10]);
}
