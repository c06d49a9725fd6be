use metalboy::cpu::{Cpu, Status, CB_TIMINGS, NORMAL_TIMINGS};
use metalboy::registers::R8;

/// A processor running `program` from address 0 with no boot ROM mapped.
fn with_program(program: Vec<u8>) -> Cpu {
    let mut cpu = Cpu::new();
    cpu.mmu.bootrom_mapped = false;
    cpu.mmu.cartridge.data = program;
    cpu
}

#[test]
fn generate_interrupts_ok() {
    let mut cpu = Cpu::new();
    cpu.mmu.set(0xFF0F, 0b0000_1101);
    cpu.mmu.set(0xFFFF, 0b0001_0111);
    cpu.service_interrupts();
    assert_eq!(cpu.mmu.get(0xFF0F), 0b0000_1100);
}

#[test]
fn generate_interrupt_ok() {
    let mut cpu = Cpu::new();
    cpu.mmu.set(0xFF0F, 0b0000_0110);
    cpu.mmu.set(0xFFFF, 0b0001_1111);
    assert_eq!(cpu.reg.sp, 0xFFFE);
    cpu.service_interrupt(1, cpu.mmu.get(0xFF0F));
    assert_eq!(cpu.mmu.get(0xFF0F), 0b0000_0100);
    assert_eq!(cpu.reg.pc, 0x48);
    assert_eq!(cpu.reg.sp, 0xFFFE - 2);
}

#[test]
fn tick_advances_pc() {
    let mut cpu = Cpu::new();
    let initial_state = cpu.reg.pc;
    cpu.tick();
    assert_eq!(cpu.reg.pc, initial_state + 1);
}

#[test]
fn rlc_ok() {
    let mut cpu = Cpu::new();
    cpu.reg.d = 0b10101010;
    cpu.rlc(R8::D);
    assert_eq!(cpu.reg.d, 0b01010101);
}

#[test]
fn xor_a_scenario() {
    let mut cpu = with_program(vec![0xAF]);
    assert_eq!(cpu.reg.a, 0);
    cpu.tick();
    assert_eq!(cpu.reg.a, 0);
    assert_eq!(cpu.reg.f.as_u8(), 0x80);
    assert_eq!(cpu.reg.pc, 1);
    assert_eq!(cpu.cycles, 1);
}

#[test]
fn ld_sp_d16_scenario() {
    let mut cpu = with_program(vec![0x31, 0xFE, 0xFF]);
    cpu.reg.sp = 0;
    cpu.tick();
    assert_eq!(cpu.reg.sp, 0xFFFE);
    assert_eq!(cpu.reg.pc, 3);
    assert_eq!(cpu.cycles, 3);
}

#[test]
fn ld_a_d8_scenario() {
    let mut cpu = with_program(vec![0x3E, 0xBE]);
    cpu.tick();
    assert_eq!(cpu.reg.a, 0xBE);
    assert_eq!(cpu.reg.pc, 2);
}

#[test]
fn ld_hl_minus_a_scenario() {
    let mut cpu = with_program(vec![0x32]);
    cpu.reg.set_hl(0x9FFF);
    cpu.reg.a = 0xBB;
    assert_eq!(cpu.mmu.get(0x9FFF), 0);
    cpu.tick();
    assert_eq!(cpu.mmu.get(0x9FFF), 0xBB);
    assert_eq!(cpu.reg.hl(), 0x9FFE);
}

#[test]
fn bit_7_h_scenario() {
    let mut cpu = with_program(vec![0xCB, 0x7C]);
    cpu.reg.h = 0b01010101;
    cpu.tick();
    assert!(cpu.reg.f.zero);
    assert!(!cpu.reg.f.sub);
    assert!(cpu.reg.f.half_carry);
    assert_eq!(cpu.cycles, 2);
    assert!(cpu.cb_prefix);
    assert_eq!(cpu.reg.pc, 2);
}

#[test]
fn interrupt_service_scenario() {
    let mut cpu = Cpu::new();
    cpu.mmu.set(0xFF0F, 0b0000_1101);
    cpu.mmu.set(0xFFFF, 0b0001_0111);
    cpu.ime = true;
    cpu.reg.sp = 0xFFFE;
    cpu.reg.pc = 0x200;
    cpu.service_interrupts();
    assert_eq!(cpu.reg.pc, 0x40);
    assert_eq!(cpu.reg.sp, 0xFFFC);
    assert_eq!(cpu.mmu.get(0xFFFD), 0x02);
    assert_eq!(cpu.mmu.get(0xFFFC), 0x00);
    assert_eq!(cpu.mmu.get(0xFFFE), 0x00);
    assert_eq!(cpu.mmu.get(0xFF0F), 0b0000_1100);
    assert!(!cpu.ime);
}

#[test]
fn no_service_without_ime() {
    let mut cpu = Cpu::new();
    cpu.mmu.set(0xFF0F, 0b0000_0001);
    cpu.mmu.set(0xFFFF, 0b0000_0001);
    cpu.ime = false;
    cpu.reg.pc = 0x200;
    cpu.service_interrupts();
    assert_eq!(cpu.reg.pc, 0x200);
    assert_eq!(cpu.mmu.get(0xFF0F), 0b0000_0001);
}

#[test]
fn halt_wakes_on_pending_interrupt() {
    let mut cpu = with_program(vec![0x76]);
    cpu.ime = false;
    cpu.tick();
    assert_eq!(cpu.status, Status::Halt);
    let pc = cpu.reg.pc;
    cpu.tick();
    assert_eq!(cpu.reg.pc, pc);
    cpu.mmu.set(0xFFFF, 0b0000_0100);
    cpu.mmu.set(0xFF0F, 0b0000_0100);
    cpu.service_interrupts();
    assert_eq!(cpu.status, Status::Running);
    assert_eq!(cpu.reg.pc, pc);
}

#[test]
fn push_then_pop_restores_word_and_sp() {
    let mut cpu = Cpu::new();
    cpu.reg.sp = 0xD000;
    cpu.push_word(0x1234);
    assert_eq!(cpu.reg.sp, 0xCFFE);
    assert_eq!(cpu.pop_word(), 0x1234);
    assert_eq!(cpu.reg.sp, 0xD000);
}

#[test]
fn pop_af_clears_low_nibble() {
    let mut cpu = with_program(vec![0xF1]);
    cpu.reg.sp = 0xC000;
    cpu.mmu.set(0xC000, 0xFF);
    cpu.mmu.set(0xC001, 0x12);
    cpu.tick();
    assert_eq!(cpu.reg.a, 0x12);
    assert_eq!(cpu.reg.f.as_u8() & 0x0F, 0);
    assert_eq!(cpu.reg.af(), 0x12F0);
}

#[test]
fn cycles_follow_timing_tables() {
    for op in 0..=255u8 {
        if op == 0xCB || op == 0x10 || op == 0x76 {
            continue;
        }
        let mut cpu = with_program(vec![op, 0x00, 0x00]);
        cpu.reg.sp = 0xD000;
        // Z and C set: NZ and NC branches are not taken.
        cpu.reg.f.zero = true;
        cpu.reg.f.carry = true;
        let taken_when_set = [0x28u8, 0x38, 0xC8, 0xD8, 0xCA, 0xDA, 0xCC, 0xDC];
        if taken_when_set.contains(&op) {
            cpu.reg.f.zero = false;
            cpu.reg.f.carry = false;
        }
        cpu.tick();
        assert_eq!(cpu.cycles, NORMAL_TIMINGS[op as usize], "opcode {:02X}", op);
    }
    for op in 0..=255u8 {
        let mut cpu = with_program(vec![0xCB, op]);
        cpu.tick();
        assert_eq!(cpu.cycles, CB_TIMINGS[op as usize], "prefixed opcode {:02X}", op);
    }
}

#[test]
fn taken_branches_cost_more() {
    let mut cpu = with_program(vec![0x20, 0x05]);
    cpu.reg.f.zero = false;
    cpu.tick();
    assert_eq!(cpu.cycles, 3);
    assert_eq!(cpu.reg.pc, 7);
    let mut cpu = with_program(vec![0xC4, 0x34, 0x12]);
    cpu.reg.sp = 0xD000;
    cpu.reg.f.zero = false;
    cpu.tick();
    assert_eq!(cpu.cycles, 6);
    assert_eq!(cpu.reg.pc, 0x1234);
    assert_eq!(cpu.pop_word(), 3);
}

#[test]
fn stop_costs_one_cycle() {
    let mut cpu = with_program(vec![0x10]);
    cpu.tick();
    assert_eq!(cpu.cycles, 1);
    assert_eq!(cpu.reg.pc, 1);
}

#[test]
fn jr_backwards_to_itself_is_an_infinite_loop() {
    let mut cpu = with_program(vec![0x00, 0x18, 0xFE]);
    cpu.ime = false;
    cpu.tick();
    cpu.tick();
    assert_eq!(cpu.reg.pc, 1);
    assert_eq!(cpu.status, Status::InfiniteLoop);
}

#[test]
fn call_and_ret_round_trip() {
    let mut cpu = with_program(vec![0xCD, 0x05, 0x00, 0x00, 0x00, 0xC9]);
    cpu.reg.sp = 0xD000;
    cpu.tick();
    assert_eq!(cpu.reg.pc, 5);
    assert_eq!(cpu.reg.sp, 0xCFFE);
    cpu.tick();
    assert_eq!(cpu.reg.pc, 3);
    assert_eq!(cpu.reg.sp, 0xD000);
}

#[test]
fn rst_pushes_next_address() {
    let mut cpu = with_program(vec![0x00, 0xEF]);
    cpu.reg.sp = 0xD000;
    cpu.tick();
    cpu.tick();
    assert_eq!(cpu.reg.pc, 0x28);
    assert_eq!(cpu.pop_word(), 2);
}

#[test]
fn add_and_adc_flags() {
    let mut cpu = Cpu::new();
    cpu.reg.a = 0x3A;
    cpu.add(0xC6);
    assert_eq!(cpu.reg.a, 0x00);
    assert_eq!(cpu.reg.f.as_u8(), 0xB0);
    cpu.reg.a = 0xE1;
    cpu.reg.f.carry = true;
    cpu.adc(0x0F);
    assert_eq!(cpu.reg.a, 0xF1);
    assert_eq!(cpu.reg.f.as_u8(), 0x20);
}

#[test]
fn sub_and_sbc_flags() {
    let mut cpu = Cpu::new();
    cpu.reg.a = 0x3E;
    cpu.sub(0x3E);
    assert_eq!(cpu.reg.a, 0);
    assert_eq!(cpu.reg.f.as_u8(), 0xC0);
    cpu.reg.a = 0x3B;
    cpu.reg.f.carry = true;
    cpu.sbc(0x2A);
    assert_eq!(cpu.reg.a, 0x10);
    assert_eq!(cpu.reg.f.as_u8(), 0x40);
    cpu.reg.a = 0x3B;
    cpu.reg.f.carry = true;
    cpu.sbc(0x4F);
    assert_eq!(cpu.reg.a, 0xEB);
    assert_eq!(cpu.reg.f.as_u8(), 0x70);
}

#[test]
fn and_or_xor_flags() {
    let mut cpu = Cpu::new();
    cpu.reg.a = 0x5A;
    cpu.and(0x3F);
    assert_eq!(cpu.reg.a, 0x1A);
    assert_eq!(cpu.reg.f.as_u8(), 0x20);
    cpu.or(0x00);
    assert_eq!(cpu.reg.f.as_u8(), 0x00);
    cpu.xor(0x1A);
    assert_eq!(cpu.reg.a, 0);
    assert_eq!(cpu.reg.f.as_u8(), 0x80);
}

#[test]
fn inc_dec_keep_carry() {
    let mut cpu = Cpu::new();
    cpu.reg.f.carry = true;
    cpu.reg.b = 0x0F;
    cpu.inc(R8::B);
    assert_eq!(cpu.reg.b, 0x10);
    assert!(cpu.reg.f.half_carry && cpu.reg.f.carry && !cpu.reg.f.sub);
    cpu.reg.b = 0x00;
    cpu.dec(R8::B);
    assert_eq!(cpu.reg.b, 0xFF);
    assert!(cpu.reg.f.half_carry && cpu.reg.f.carry && cpu.reg.f.sub && !cpu.reg.f.zero);
}

#[test]
fn add_sp_signed_offset_flags() {
    let mut cpu = with_program(vec![0xE8, 0xFF]);
    cpu.reg.sp = 0x0001;
    cpu.tick();
    assert_eq!(cpu.reg.sp, 0x0000);
    assert!(!cpu.reg.f.zero && !cpu.reg.f.sub);
    assert!(cpu.reg.f.half_carry);
    assert!(cpu.reg.f.carry);
    let mut cpu = with_program(vec![0xF8, 0x02]);
    cpu.reg.sp = 0xFFF8;
    cpu.tick();
    assert_eq!(cpu.reg.hl(), 0xFFFA);
    assert_eq!(cpu.reg.sp, 0xFFF8);
    assert!(!cpu.reg.f.half_carry && !cpu.reg.f.carry);
}

#[test]
fn daa_after_addition_and_subtraction() {
    let mut cpu = with_program(vec![0x80, 0x27]);
    cpu.reg.a = 0x45;
    cpu.reg.b = 0x38;
    cpu.tick();
    cpu.tick();
    assert_eq!(cpu.reg.a, 0x83);
    assert!(!cpu.reg.f.carry);
    let mut cpu = with_program(vec![0x90, 0x27]);
    cpu.reg.a = 0x83;
    cpu.reg.b = 0x38;
    cpu.tick();
    cpu.tick();
    assert_eq!(cpu.reg.a, 0x45);
    let mut cpu = with_program(vec![0x80, 0x27]);
    cpu.reg.a = 0x99;
    cpu.reg.b = 0x01;
    cpu.tick();
    cpu.tick();
    assert_eq!(cpu.reg.a, 0x00);
    assert!(cpu.reg.f.carry && cpu.reg.f.zero && !cpu.reg.f.half_carry);
}

#[test]
fn rotate_a_clears_zero() {
    let mut cpu = with_program(vec![0x07]);
    cpu.reg.a = 0;
    cpu.reg.f.zero = true;
    cpu.tick();
    assert_eq!(cpu.reg.a, 0);
    assert!(!cpu.reg.f.zero);
    let mut cpu = with_program(vec![0xCB, 0x07]);
    cpu.reg.a = 0;
    cpu.tick();
    assert!(cpu.reg.f.zero);
}

#[test]
fn add_hl_keeps_zero() {
    let mut cpu = with_program(vec![0x09]);
    cpu.reg.set_hl(0x8A23);
    cpu.reg.set_bc(0x0605);
    cpu.reg.f.zero = true;
    cpu.tick();
    assert_eq!(cpu.reg.hl(), 0x9028);
    assert!(cpu.reg.f.half_carry && !cpu.reg.f.carry && cpu.reg.f.zero);
}

#[test]
fn illegal_opcode_is_a_counted_no_op() {
    let mut cpu = with_program(vec![0xD3]);
    cpu.tick();
    assert_eq!(cpu.reg.pc, 1);
    assert_eq!(cpu.illegal_opcodes, 1);
    assert_eq!(cpu.cycles, 0);
}

#[test]
fn boot_rom_unmaps_at_0x100() {
    let mut cpu = Cpu::new();
    cpu.mmu.cartridge.data = vec![0; 0x200];
    let mut image = vec![0u8; 256];
    image[0] = 0xC3;
    image[1] = 0x00;
    image[2] = 0x01;
    cpu.mmu.load_bootrom(&image);
    assert_eq!(cpu.mmu.get(0), 0xC3);
    cpu.tick();
    assert_eq!(cpu.reg.pc, 0x100);
    assert!(!cpu.mmu.bootrom_mapped);
    assert_eq!(cpu.mmu.get(0), 0);
    assert_eq!(cpu.mmu.get(0xFF40), 0x91);
    assert_eq!(cpu.mmu.get(0xFF04), 0xAB);
    assert_eq!(cpu.mmu.get(0xFF00), 0xCF);
}
