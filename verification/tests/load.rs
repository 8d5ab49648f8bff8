use hardware::cpu::CPU;
use hardware::instructions::load;
use hardware::instructions::Instruction;

fn named(name: &str) -> Instruction {
    *load::get().iter().find(|i| i.mnemonic == name).unwrap()
}

#[test]
fn test_load_8bit() {
    let mut cpu = CPU::new();
    cpu.reg.b = 0x42;
    let instruction = named("LD_A_B");
    assert_eq!(instruction.opcode, 0x78);
    instruction.run(&mut cpu);
    assert_eq!(cpu.reg.a, 0x42);
}

#[test]
fn test_load_16bit() {
    let mut cpu = CPU::new();
    let instruction = named("LD_SP_D16");
    assert_eq!(instruction.opcode, 0x31);
    cpu.mmu.write_word(0x0101, 0x1234);
    instruction.run(&mut cpu);
    assert_eq!(cpu.reg.sp, 0x1234);
}

#[test]
fn test_load_16_into_8() {
    let mut cpu = CPU::new();
    cpu.reg.h = 0x12;
    cpu.reg.l = 0x34;
    // The byte that HL points to is what the instruction loads.
    cpu.mmu.write(0x1234, 0x34);
    let instruction = named("LD_L_HL");
    assert_eq!(instruction.opcode, 0x6E);
    instruction.run(&mut cpu);
    assert_eq!(cpu.reg.l, 0x34);
}
