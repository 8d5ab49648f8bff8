use hardware::cpu::CPU;
use hardware::instructions::logic::get;
use hardware::reg::FlagBit::{C, H, N, Z};

#[test]
fn logic_test_add() {
    let mut cpu = CPU::new();
    let instructions = get();
    let instruction = instructions
        .iter()
        .find(|i| i.mnemonic == "ADD_A_B")
        .unwrap();

    cpu.reg.a = 0;
    cpu.reg.b = 0;
    instruction.run(&mut cpu);
    assert!(cpu.is_set(Z));

    cpu.reg.a = 62;
    cpu.reg.b = 34;
    instruction.run(&mut cpu);
    assert_eq!(cpu.reg.a, 96);
    assert!(cpu.is_set(H));

    cpu.reg.a = 255;
    cpu.reg.b = 5;
    instruction.run(&mut cpu);
    assert!(cpu.is_set(C));
}

#[test]
fn logic_test_sub() {
    let mut cpu = CPU::new();
    let instructions = get();
    let instruction = instructions.iter().find(|i| i.mnemonic == "SUB_B").unwrap();

    cpu.reg.a = 0;
    cpu.reg.b = 0;
    instruction.run(&mut cpu);
    assert!(cpu.is_set(Z));

    // 0xE - 0x2 in the low halves needs no borrow from bit 4.
    cpu.reg.a = 62;
    cpu.reg.b = 34;
    instruction.run(&mut cpu);
    assert_eq!(cpu.reg.a, 28);
    assert!(!cpu.is_set(H));

    cpu.reg.a = 0;
    cpu.reg.b = 5;
    instruction.run(&mut cpu);
    assert!(cpu.is_set(C));
}

#[test]
fn test_xor() {
    let mut cpu = CPU::new();
    let instructions = get();
    let instruction = instructions.iter().find(|i| i.mnemonic == "XOR_A").unwrap();

    cpu.reg.a = 124;
    instruction.run(&mut cpu);
    assert_eq!(cpu.reg.a, 0);
}

#[test]
fn test_inc_c() {
    let mut cpu = CPU::new();
    let instructions = get();
    let instruction = instructions.iter().find(|i| i.opcode == 0x0C).unwrap();

    cpu.reg.c = 0;
    instruction.run(&mut cpu);
    assert_eq!(cpu.reg.c, 1);

    cpu.reg.c = 255;
    instruction.run(&mut cpu);
    assert_eq!(cpu.reg.c, 0);
}

#[test]
fn sub_sets_half_carry_on_borrow_from_bit_4() {
    let mut cpu = CPU::new();
    let instructions = get();
    let instruction = instructions.iter().find(|i| i.mnemonic == "SUB_B").unwrap();
    cpu.reg.a = 0x10;
    cpu.reg.b = 0x01;
    instruction.run(&mut cpu);
    assert_eq!(cpu.reg.a, 0x0F);
    assert!(cpu.is_set(H));
    assert!(cpu.is_set(N));
    assert!(!cpu.is_set(C));
    assert!(!cpu.is_set(Z));
}
