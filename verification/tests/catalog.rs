use hardware::cpu::CPU;
use hardware::get_instructions;
use hardware::reg::FlagBit::{C, H, Z};

#[test]
fn tests_test_add() {
    let mut cpu = CPU::new();
    let instructions = get_instructions();
    let instruction = instructions
        .iter()
        .find(|i| i.mnemonic == "ADD A,B")
        .unwrap();

    // Test zero flag
    cpu.reg.a = 0;
    cpu.reg.b = 0;
    instruction.run(&mut cpu);

    assert!(cpu.is_set(Z));

    // Test half-carry flag
    cpu.reg.a = 62;
    cpu.reg.b = 34;
    instruction.run(&mut cpu);

    assert_eq!(cpu.reg.a, 96);
    assert!(cpu.is_set(H));

    // Test carry flag
    cpu.reg.a = 255;
    cpu.reg.b = 5;
    instruction.run(&mut cpu);

    assert!(cpu.is_set(C));
}

#[test]
fn tests_test_sub() {
    let mut cpu = CPU::new();
    let instructions = get_instructions();
    let instruction = instructions
        .iter()
        .find(|i| i.mnemonic == "SUB A,B")
        .unwrap();

    // Test zero flag
    cpu.reg.a = 0;
    cpu.reg.b = 0;
    instruction.run(&mut cpu);

    assert!(cpu.is_set(Z));

    // No borrow from bit 4: the half-carry flag stays clear
    cpu.reg.a = 62;
    cpu.reg.b = 34;
    instruction.run(&mut cpu);

    assert_eq!(cpu.reg.a, 28);
    assert!(!cpu.is_set(H));

    // Test carry flag
    cpu.reg.a = 0;
    cpu.reg.b = 5;
    instruction.run(&mut cpu);

    assert!(cpu.is_set(C));
}

#[test]
fn lib_test_add() {
    let mut cpu = CPU::new();
    let instructions = get_instructions();
    let instruction = instructions
        .iter()
        .find(|i| i.mnemonic == "ADD A,B")
        .unwrap();

    // Test zero flag
    cpu.reg.a = 0;
    cpu.reg.b = 0;
    instruction.run(&mut cpu);

    assert_eq!(cpu.get_flag(Z), 0b1000_0000);

    // Test half-carry flag
    cpu.reg.a = 62;
    cpu.reg.b = 34;
    instruction.run(&mut cpu);

    assert_eq!(cpu.reg.a, 96);
    assert_eq!(cpu.get_flag(H), 0b0010_0000);

    // Test carry flag
    cpu.reg.a = 255;
    cpu.reg.b = 5;
    instruction.run(&mut cpu);

    assert_eq!(cpu.get_flag(C), 0b0001_0000);
}

#[test]
fn lib_test_sub() {
    let mut cpu = CPU::new();
    let instructions = get_instructions();
    let instruction = instructions
        .iter()
        .find(|i| i.mnemonic == "SUB A,B")
        .unwrap();

    // Test zero flag
    cpu.reg.a = 0;
    cpu.reg.b = 0;
    instruction.run(&mut cpu);

    assert_eq!(cpu.get_flag(Z), 0b1000_0000);

    // No borrow from bit 4: the half-carry flag stays clear
    cpu.reg.a = 62;
    cpu.reg.b = 34;
    instruction.run(&mut cpu);

    assert_eq!(cpu.reg.a, 28);
    assert_eq!(cpu.get_flag(H), 0);

    // Test carry flag
    cpu.reg.a = 0;
    cpu.reg.b = 5;
    instruction.run(&mut cpu);

    assert_eq!(cpu.get_flag(C), 0b0001_0000);
}
