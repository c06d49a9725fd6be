use metalboy::cpu::Cpu;
use metalboy::execute::{
    cp_d8, dec_d8, execute_0c, execute_20, execute_32, execute_af, pop_word, rl_d8, rr, srl,
    swap_u8,
};
use metalboy::flags::Flags;

#[test]
fn push_pop_ok() {
    let mut cpu = Cpu::new();
    cpu.reg.reset();
    cpu.reg.set_bc(0xABCD);
    let word = cpu.reg.bc();
    cpu.push_word(word);
    cpu.reg.set_bc(0xBEEF);
    assert_eq!(cpu.reg.bc(), 0xBEEF);
    let word = pop_word(&mut cpu);
    cpu.reg.set_bc(word);
    assert_eq!(cpu.reg.bc(), 0xABCD);
}

#[test]
fn swap_u8_ok() {
    let mut cpu = Cpu::new();
    cpu.reg.e = 0b1100_1001;
    swap_u8(&mut cpu.reg.e, &mut cpu.reg.f);
    assert_eq!(cpu.reg.e, 0b1001_1100);
}

#[test]
fn cp_d8_match() {
    let mut cpu = Cpu::new();
    cpu.reg.b = 0b01001001;
    cpu.reg.a = 0b01001001;
    let byte = cpu.reg.b;
    cp_d8(&mut cpu, byte);
    assert!(cpu.reg.f.zero);
    assert!(!cpu.reg.f.carry);
    assert!(cpu.reg.f.sub);
    assert!(!cpu.reg.f.half_carry);
}

#[test]
fn rl_d8_ok() {
    let mut cpu = Cpu::new();
    cpu.reg.f.carry = true;
    cpu.reg.b = 0b01101010;
    rl_d8(&mut cpu.reg.b, &mut cpu.reg.f);
    assert_eq!(cpu.reg.b, 0b11010101);
    assert!(!cpu.reg.f.carry);
}

#[test]
fn dec_d8_ok() {
    let mut cpu = Cpu::new();
    cpu.reg.b = 1;
    dec_d8(&mut cpu.reg.b, &mut cpu.reg.f);
    assert_eq!(cpu.reg.b, 0);
    assert!(cpu.reg.f.zero);
    assert!(!cpu.reg.f.carry);
    assert!(cpu.reg.f.sub);
}

#[test]
fn execute_0c_ok() {
    let mut cpu = Cpu::new();
    cpu.reg.c = 0x20;
    execute_0c(&mut cpu);
    assert_eq!(cpu.reg.c, 0x21);
}

#[test]
fn execute_20_no_jmp() {
    let mut cpu = Cpu::new();
    cpu.mmu.cartridge.data = vec![0x20, 0x06];
    cpu.reg.f.zero = true;
    execute_20(&mut cpu);
    assert_eq!(cpu.advance_pc, 2);
}

#[test]
fn execute_32_ok() {
    let mut cpu = Cpu::new();
    cpu.mmu.cartridge.data = vec![0x32];
    cpu.reg.set_hl(0x9fff);
    cpu.reg.a = 0xBB;
    execute_32(&mut cpu);
    assert_eq!(cpu.mmu.get(0x9fff), 0xBB);
    assert_eq!(cpu.reg.hl(), 0x9ffe);
}

#[test]
fn execute_af_zero() {
    let mut cpu = Cpu::new();
    cpu.mmu.cartridge.data = vec![0xAF];
    assert_eq!(cpu.reg.a, 0);
    assert_eq!(cpu.reg.f.zero, false);
    execute_af(&mut cpu);
    assert_eq!(cpu.reg.a, 0);
    assert_eq!(cpu.reg.f.zero, true);
}

#[test]
fn execute_af_not_zero() {
    let mut cpu = Cpu::new();
    cpu.mmu.cartridge.data = vec![0xAF];
    cpu.reg.a = 32;
    assert_eq!(cpu.reg.f.zero, false);
    execute_af(&mut cpu);
    assert_eq!(cpu.reg.a, 0);
    assert_eq!(cpu.reg.f.zero, true);
}

#[test]
fn rr_and_srl_on_bytes() {
    let mut flags = Flags { zero: false, sub: false, half_carry: false, carry: true };
    let mut byte = 0b0000_0001;
    rr(&mut byte, &mut flags);
    assert_eq!(byte, 0b1000_0000);
    assert!(flags.carry);
    let mut byte = 0b1000_0001;
    srl(&mut byte, &mut flags);
    assert_eq!(byte, 0b0100_0000);
    assert!(flags.carry);
    assert!(!flags.zero);
}

#[test]
fn execute_20_jumps_backwards() {
    let mut cpu = Cpu::new();
    cpu.mmu.bootrom_mapped = false;
    cpu.mmu.cartridge.data = vec![0x20, 0xFC];
    cpu.reg.f.zero = false;
    execute_20(&mut cpu);
    assert_eq!(cpu.advance_pc, -2);
    assert_eq!(cpu.cycles, 3);
}
