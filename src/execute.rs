use vstd::prelude::*;
use crate::cpu::{
    alu, daa, shift_flags, shifted, signed, Cpu, CpuView, Status, CB_TIMINGS, NORMAL_TIMINGS,
};
use crate::flags::Flags;
use crate::registers::{r16_of, r8_of, Registers, R16, R8};
use crate::{bit_set, bytes_from, hi_byte, lo_byte, word, word_from};

verus! {

/// The state with the instruction's PC advance and cycle cost recorded.
pub open spec fn fin(s: CpuView, advance: int, cycles: usize) -> CpuView {
    CpuView { advance_pc: advance as i16, cycles, ..s }
}

/// Listed cost of a primary opcode.
pub open spec fn timing(op: u8) -> usize {
    NORMAL_TIMINGS@[op as int]
}

/// Listed cost of a 0xCB-prefixed opcode.
pub open spec fn cb_timing(op: u8) -> usize {
    CB_TIMINGS@[op as int]
}

/// Branch condition `k`: NZ, Z, NC, C for 0 to 3.
pub open spec fn condition(s: CpuView, k: u8) -> bool {
    if k == 0 {
        !s.reg.f.zero
    } else if k == 1 {
        s.reg.f.zero
    } else if k == 2 {
        !s.reg.f.carry
    } else {
        s.reg.f.carry
    }
}

/// The pair that PUSH and POP name by bits 5-4: BC, DE, HL, AF.
pub open spec fn stack_pair(k: u8) -> R16 {
    if k == 0 {
        R16::BC
    } else if k == 1 {
        R16::DE
    } else if k == 2 {
        R16::HL
    } else {
        R16::AF
    }
}

/// Address used by `LD (rr),A` and `LD A,(rr)`: BC, DE, HL (then
/// incremented), HL (then decremented) for `k` from 0 to 3.
pub open spec fn indirect_address(s: CpuView, k: u8) -> u16 {
    if k == 0 {
        s.reg.spec_bc()
    } else if k == 1 {
        s.reg.spec_de()
    } else {
        s.reg.spec_hl()
    }
}

/// The state with HL stepped after an indirect access through HL+ or HL-.
pub open spec fn hl_stepped(s: CpuView, k: u8) -> CpuView {
    if k == 2 {
        s.with_reg(s.reg.with_hl(s.reg.spec_hl().wrapping_add(1)))
    } else if k == 3 {
        s.with_reg(s.reg.with_hl(s.reg.spec_hl().wrapping_sub(1)))
    } else {
        s
    }
}

/// Rotate of A (RLCA, RRCA, RLA, RRA for `kind` 0 to 3): Z always clear.
pub open spec fn rotate_a(s: CpuView, kind: u8) -> CpuView {
    let (v, c) = shifted(kind, s.reg.a, s.reg.f.carry);
    s.with_reg(Registers { a: v, f: Flags { zero: false, ..shift_flags(v, c) }, ..s.reg })
}

/// Relative jump over the signed offset after the opcode.
pub open spec fn jr_advance(s: CpuView) -> int {
    2 + signed(s.byte_at(1))
}

/// State after CALL: return address (PC + 3) pushed, PC at the target.
pub open spec fn called(s: CpuView) -> CpuView {
    s.pushed(s.reg.pc.wrapping_add(3)).with_pc(s.imm16())
}

/// State after RET: PC popped from the stack.
pub open spec fn returned(s: CpuView) -> CpuView {
    s.popped().with_pc(s.top())
}

/// `LD HL, SP+r8`: HL gets SP plus the offset, flags as for `ADD SP, r8`,
/// SP kept.
pub open spec fn ld_hl_sp_offset(s: CpuView) -> CpuView {
    let t = s.add_sp_applied(s.byte_at(1));
    t.with_reg(Registers { sp: s.reg.sp, ..t.reg.with_hl(t.reg.sp) })
}

/// Effect of the primary opcodes that do not belong to a regular block.
pub open spec fn misc_step(s: CpuView, op: u8) -> CpuView {
    let t = timing(op);
    match op {
        0x00 => fin(s, 1, t),
        0x10 => fin(s, 1, 1),
        0x07 | 0x0F | 0x17 | 0x1F => fin(rotate_a(s, op / 8), 1, t),
        0x08 => {
            let addr = s.imm16();
            let sp = s.reg.sp;
            fin(
                s.with_mem(s.mem.write(addr, lo_byte(sp)).write(addr.wrapping_add(1), hi_byte(sp))),
                3,
                t,
            )
        },
        0x18 => fin(s, jr_advance(s), t),
        0x20 | 0x28 | 0x30 | 0x38 => if condition(s, (op / 8) % 4) {
            fin(s, jr_advance(s), 3)
        } else {
            fin(s, 2, t)
        },
        0x27 => {
            let (a, f) = daa(s.reg.a, s.reg.f);
            fin(s.with_reg(Registers { a, f, ..s.reg }), 1, t)
        },
        0x2F => fin(
            s.with_reg(
                Registers {
                    a: !s.reg.a,
                    f: Flags { sub: true, half_carry: true, ..s.reg.f },
                    ..s.reg
                },
            ),
            1,
            t,
        ),
        0x37 => fin(s.with_flags(Flags { sub: false, half_carry: false, carry: true, ..s.reg.f }), 1, t),
        0x3F => fin(
            s.with_flags(Flags { sub: false, half_carry: false, carry: !s.reg.f.carry, ..s.reg.f }),
            1,
            t,
        ),
        0x76 => fin(CpuView { status: Status::Halt, ..s }, 1, t),
        0xC0 | 0xC8 | 0xD0 | 0xD8 => if condition(s, (op / 8) % 4) {
            fin(returned(s), 0, 5)
        } else {
            fin(s, 1, t)
        },
        0xC2 | 0xCA | 0xD2 | 0xDA => if condition(s, (op / 8) % 4) {
            fin(s.with_pc(s.imm16()), 0, 4)
        } else {
            fin(s, 3, t)
        },
        0xC4 | 0xCC | 0xD4 | 0xDC => if condition(s, (op / 8) % 4) {
            fin(called(s), 0, 6)
        } else {
            fin(s, 3, t)
        },
        0xC3 => fin(s.with_pc(s.imm16()), 0, t),
        0xC9 | 0xD9 => fin(returned(s), 0, t),
        0xCD => fin(called(s), 0, t),
        0xE0 => fin(s.with_mem(s.mem.write(word(0xFF, s.byte_at(1)), s.reg.a)), 2, t),
        0xF0 => fin(s.with_a(s.mem.read(word(0xFF, s.byte_at(1)))), 2, t),
        0xE2 => fin(s.with_mem(s.mem.write(word(0xFF, s.reg.c), s.reg.a)), 1, t),
        0xF2 => fin(s.with_a(s.mem.read(word(0xFF, s.reg.c))), 1, t),
        0xE8 => fin(s.add_sp_applied(s.byte_at(1)), 2, t),
        0xF8 => fin(ld_hl_sp_offset(s), 2, t),
        0xE9 => fin(s.with_pc(s.reg.spec_hl()), 0, t),
        0xEA => fin(s.with_mem(s.mem.write(s.imm16(), s.reg.a)), 3, t),
        0xFA => fin(s.with_a(s.mem.read(s.imm16())), 3, t),
        0xF3 => fin(CpuView { ime: false, ..s }, 1, t),
        0xFB => fin(CpuView { ime: true, ..s }, 1, t),
        0xF9 => fin(s.with_sp(s.reg.spec_hl()), 1, t),
        _ => fin(CpuView { illegal_opcodes: s.illegal_opcodes.wrapping_add(1), ..s }, 1, t),
    }
}

/// Effect of a primary (unprefixed) opcode `op`.
pub open spec fn primary_step(s: CpuView, op: u8) -> CpuView {
    let t = timing(op);
    if op == 0x76 {
        misc_step(s, op)
    } else if 0x40 <= op < 0x80 {
        fin(s.put(r8_of(((op - 0x40) / 8) as u8), s.operand(r8_of(op % 8))), 1, t)
    } else if 0x80 <= op < 0xC0 {
        fin(s.alu_applied(((op - 0x80) / 8) as u8, s.operand(r8_of(op % 8))), 1, t)
    } else if op >= 0xC0 && op % 8 == 6 {
        fin(s.alu_applied(((op - 0xC0) / 8) as u8, s.byte_at(1)), 2, t)
    } else if op >= 0xC0 && op % 8 == 7 {
        fin(s.pushed(s.reg.pc.wrapping_add(1)).with_pc((op - 0xC7) as u16), 0, t)
    } else if op >= 0xC0 && op % 16 == 1 {
        fin(s.popped().with_pair(stack_pair(((op - 0xC0) / 16) as u8), s.top()), 1, t)
    } else if op >= 0xC0 && op % 16 == 5 {
        fin(s.pushed(s.pair(stack_pair(((op - 0xC0) / 16) as u8))), 1, t)
    } else if op < 0x40 && op % 8 == 4 {
        fin(s.inc_applied(r8_of(op / 8)), 1, t)
    } else if op < 0x40 && op % 8 == 5 {
        fin(s.dec_applied(r8_of(op / 8)), 1, t)
    } else if op < 0x40 && op % 8 == 6 {
        fin(s.put(r8_of(op / 8), s.byte_at(1)), 2, t)
    } else if op < 0x40 && op % 16 == 1 {
        fin(s.with_pair(r16_of(op / 16), s.imm16()), 3, t)
    } else if op < 0x40 && op % 16 == 3 {
        let r = r16_of(op / 16);
        fin(s.with_pair(r, s.pair(r).wrapping_add(1)), 1, t)
    } else if op < 0x40 && op % 16 == 0xB {
        let r = r16_of(op / 16);
        fin(s.with_pair(r, s.pair(r).wrapping_sub(1)), 1, t)
    } else if op < 0x40 && op % 16 == 9 {
        fin(s.add_hl_applied(s.pair(r16_of(op / 16))), 1, t)
    } else if op < 0x40 && op % 16 == 2 {
        let k = op / 16;
        let w = s.with_mem(s.mem.write(indirect_address(s, k), s.reg.a));
        fin(hl_stepped(w, k), 1, t)
    } else if op < 0x40 && op % 16 == 0xA {
        let k = op / 16;
        let w = s.with_a(s.mem.read(indirect_address(s, k)));
        fin(hl_stepped(w, k), 1, t)
    } else {
        misc_step(s, op)
    }
}

/// Effect of the 0xCB-prefixed opcode `op`: bits 2-0 name the operand,
/// bits 7-3 the operation.
pub open spec fn cb_step(s: CpuView, op: u8) -> CpuView {
    let r = r8_of(op % 8);
    let v = s.operand(r);
    let t = if op < 0x40 {
        s.shift_applied(op / 8, r)
    } else if op < 0x80 {
        s.with_flags(
            Flags {
                zero: !bit_set(v, ((op - 0x40) / 8) as u8),
                sub: false,
                half_carry: true,
                ..s.reg.f
            },
        )
    } else if op < 0xC0 {
        s.put(r, v & !(1u8 << ((op - 0x80) / 8) as u8))
    } else {
        s.put(r, v | (1u8 << ((op - 0xC0) / 8) as u8))
    };
    fin(t, 2, cb_timing(op))
}

/// Effect of executing the instruction whose opcode is latched in `s`.
pub open spec fn executed(s: CpuView) -> CpuView {
    if s.opcode == 0xCB {
        let op = s.byte_at(1);
        cb_step(CpuView { cb_prefix: true, opcode: op, ..s }, op)
    } else {
        primary_step(CpuView { cb_prefix: false, ..s }, s.opcode)
    }
}

/// Applies arithmetic-logic operation `k` (ADD, ADC, SUB, SBC, AND, XOR, OR,
/// CP) to A and `byte`.
fn alu_op(cpu: &mut Cpu, k: u8, byte: u8)
    requires
        k < 8,
    ensures
        final(cpu)@ == old(cpu)@.alu_applied(k, byte),
{
    match k {
        0 => cpu.add(byte),
        1 => cpu.adc(byte),
        2 => cpu.sub(byte),
        3 => cpu.sbc(byte),
        4 => cpu.and(byte),
        5 => cpu.xor(byte),
        6 => cpu.or(byte),
        _ => cpu.cp(byte),
    }
}

/// The pair that PUSH and POP name by bits 5-4 of the opcode.
fn stack_pair_of(k: u8) -> (r: R16)
    requires
        k < 4,
    ensures
        r == stack_pair(k),
{
    match k {
        0 => R16::BC,
        1 => R16::DE,
        2 => R16::HL,
        _ => R16::AF,
    }
}

/// Tests branch condition `k` (NZ, Z, NC, C).
fn condition_holds(cpu: &Cpu, k: u8) -> (r: bool)
    ensures
        r == condition(cpu@, k),
{
    if k == 0 {
        !cpu.reg.f.zero
    } else if k == 1 {
        cpu.reg.f.zero
    } else if k == 2 {
        !cpu.reg.f.carry
    } else {
        cpu.reg.f.carry
    }
}

/// Address of `LD (rr),A` / `LD A,(rr)` for pair field `k`.
fn indirect_address_of(cpu: &Cpu, k: u8) -> (r: u16)
    ensures
        r == indirect_address(cpu@, k),
{
    if k == 0 {
        cpu.reg.bc()
    } else if k == 1 {
        cpu.reg.de()
    } else {
        cpu.reg.hl()
    }
}

/// Steps HL after an access through HL+ (`k` = 2) or HL- (`k` = 3).
fn step_hl(cpu: &mut Cpu, k: u8)
    ensures
        final(cpu)@ == hl_stepped(old(cpu)@, k),
{
    if k == 2 {
        cpu.reg.inc_hl_nf();
    } else if k == 3 {
        cpu.reg.dec_hl_nf();
    }
}

/// The signed offset byte after the opcode, widened.
fn offset_of(cpu: &Cpu) -> (r: i16)
    requires
        cpu.wf(),
    ensures
        r == signed(cpu@.byte_at(1)),
{
    let b = cpu.get_op(1);
    if b >= 128 {
        (b as i16) - 256
    } else {
        b as i16
    }
}

/// JR over the signed offset when condition `k` holds: 3 cycles taken,
/// 2 not taken.
fn jr_cc(cpu: &mut Cpu, k: u8)
    requires
        old(cpu).wf(),
        k < 4,
    ensures
        final(cpu).wf(),
        final(cpu)@ == (if condition(old(cpu)@, k) {
            fin(old(cpu)@, jr_advance(old(cpu)@), 3)
        } else {
            fin(old(cpu)@, 2, 2)
        }),
{
    if condition_holds(cpu, k) {
        let offset = offset_of(cpu);
        cpu.set_op_attrs(2 + offset, 3);
    } else {
        cpu.set_op_attrs(2, 2);
    }
}

/// Pushes the address of the next instruction and jumps to the immediate word.
fn call_a16(cpu: &mut Cpu)
    requires
        old(cpu).wf(),
    ensures
        final(cpu).wf(),
        final(cpu)@ == called(old(cpu)@),
{
    let target = cpu.get_d16();
    let pc = cpu.reg.pc;
    cpu.push_word(pc.wrapping_add(3));
    cpu.reg.pc = target;
}

/// Pops PC.
fn ret(cpu: &mut Cpu)
    requires
        old(cpu).wf(),
    ensures
        final(cpu).wf(),
        final(cpu)@ == returned(old(cpu)@),
{
    let target = cpu.pop_word();
    cpu.reg.pc = target;
}

/// RLCA, RRCA, RLA, RRA: as the prefixed rotates on A, but Z always clear.
fn rotate_accumulator(cpu: &mut Cpu, kind: u8)
    requires
        old(cpu).wf(),
        kind < 4,
    ensures
        final(cpu).wf(),
        final(cpu)@ == rotate_a(old(cpu)@, kind),
{
    match kind {
        0 => cpu.rlc(R8::A),
        1 => cpu.rrc(R8::A),
        2 => cpu.rl(R8::A),
        _ => cpu.rr(R8::A),
    }
    cpu.reg.f.zero = false;
}

/// DAA: corrects A to packed decimal after an addition or subtraction.
pub fn execute_27(cpu: &mut Cpu)
    ensures
        final(cpu)@ == misc_step(old(cpu)@, 0x27),
{
    let a = cpu.reg.a;
    let low = cpu.reg.f.half_carry || (!cpu.reg.f.sub && (a & 0xf) > 9);
    let high = cpu.reg.f.carry || (!cpu.reg.f.sub && a > 0x99);
    let correction: u8 = (if low { 0x06u8 } else { 0u8 }) + (if high { 0x60u8 } else { 0u8 });
    cpu.reg.a = if cpu.reg.f.sub {
        a.wrapping_sub(correction)
    } else {
        a.wrapping_add(correction)
    };
    cpu.reg.f.carry = high;
    cpu.reg.f.zero = cpu.reg.a == 0;
    cpu.reg.f.half_carry = false;
    cpu.set_op_attrs(1, 1);
}

/// NOP.
pub fn execute_00(cpu: &mut Cpu)
    requires
        old(cpu).wf(),
    ensures
        final(cpu).wf(),
        final(cpu)@ == misc_step(old(cpu)@, 0x00),
{
    let t = NORMAL_TIMINGS[0x00];
    cpu.set_op_attrs(1, t);
}

/// STOP: a one-byte no-op costing one cycle.
pub fn execute_10(cpu: &mut Cpu)
    requires
        old(cpu).wf(),
    ensures
        final(cpu).wf(),
        final(cpu)@ == misc_step(old(cpu)@, 0x10),
{
    let t = NORMAL_TIMINGS[0x10];
    cpu.set_op_attrs(1, 1);
}

/// RLCA, RRCA, RLA, RRA.
fn rotate_a_op(cpu: &mut Cpu, op: u8)
    requires
        old(cpu).wf(),
        op == 0x07 || op == 0x0F || op == 0x17 || op == 0x1F,
    ensures
        final(cpu).wf(),
        final(cpu)@ == misc_step(old(cpu)@, op),
{
    let t = NORMAL_TIMINGS[op as usize];
    rotate_accumulator(cpu, op / 8);
    cpu.set_op_attrs(1, t);
}

/// LD (a16), SP.
pub fn execute_08(cpu: &mut Cpu)
    requires
        old(cpu).wf(),
    ensures
        final(cpu).wf(),
        final(cpu)@ == misc_step(old(cpu)@, 0x08),
{
    let t = NORMAL_TIMINGS[0x08];
    let addr = cpu.get_d16();
    let (hi, lo) = bytes_from(cpu.reg.sp);
    cpu.mmu.set(addr, lo);
    cpu.mmu.set(addr.wrapping_add(1), hi);
    cpu.set_op_attrs(3, t);
}

/// JR r8.
pub fn execute_18(cpu: &mut Cpu)
    requires
        old(cpu).wf(),
    ensures
        final(cpu).wf(),
        final(cpu)@ == misc_step(old(cpu)@, 0x18),
{
    let t = NORMAL_TIMINGS[0x18];
    let offset = offset_of(cpu);
    cpu.set_op_attrs(2 + offset, t);
}

/// JR cc, r8.
fn jr_cond(cpu: &mut Cpu, op: u8)
    requires
        old(cpu).wf(),
        op == 0x20 || op == 0x28 || op == 0x30 || op == 0x38,
    ensures
        final(cpu).wf(),
        final(cpu)@ == misc_step(old(cpu)@, op),
{
    let t = NORMAL_TIMINGS[op as usize];
    jr_cc(cpu, (op / 8) % 4);
}

/// CPL.
pub fn execute_2f(cpu: &mut Cpu)
    requires
        old(cpu).wf(),
    ensures
        final(cpu).wf(),
        final(cpu)@ == misc_step(old(cpu)@, 0x2F),
{
    let t = NORMAL_TIMINGS[0x2F];
    cpu.reg.a = !cpu.reg.a;
    cpu.reg.f.sub = true;
    cpu.reg.f.half_carry = true;
    cpu.set_op_attrs(1, t);
}

/// SCF.
pub fn execute_37(cpu: &mut Cpu)
    requires
        old(cpu).wf(),
    ensures
        final(cpu).wf(),
        final(cpu)@ == misc_step(old(cpu)@, 0x37),
{
    let t = NORMAL_TIMINGS[0x37];
    cpu.reg.f.sub = false;
    cpu.reg.f.half_carry = false;
    cpu.reg.f.carry = true;
    cpu.set_op_attrs(1, t);
}

/// CCF.
pub fn execute_3f(cpu: &mut Cpu)
    requires
        old(cpu).wf(),
    ensures
        final(cpu).wf(),
        final(cpu)@ == misc_step(old(cpu)@, 0x3F),
{
    let t = NORMAL_TIMINGS[0x3F];
    cpu.reg.f.sub = false;
    cpu.reg.f.half_carry = false;
    cpu.reg.f.carry = !cpu.reg.f.carry;
    cpu.set_op_attrs(1, t);
}

/// HALT.
pub fn execute_76(cpu: &mut Cpu)
    requires
        old(cpu).wf(),
    ensures
        final(cpu).wf(),
        final(cpu)@ == misc_step(old(cpu)@, 0x76),
{
    let t = NORMAL_TIMINGS[0x76];
    cpu.halt();
    cpu.set_op_attrs(1, t);
}

/// RET cc.
fn ret_cond(cpu: &mut Cpu, op: u8)
    requires
        old(cpu).wf(),
        op == 0xC0 || op == 0xC8 || op == 0xD0 || op == 0xD8,
    ensures
        final(cpu).wf(),
        final(cpu)@ == misc_step(old(cpu)@, op),
{
    let t = NORMAL_TIMINGS[op as usize];
    if condition_holds(cpu, (op / 8) % 4) {
        ret(cpu);
        cpu.set_op_attrs(0, 5);
    } else {
        cpu.set_op_attrs(1, t);
    }
}

/// JP cc, a16.
fn jp_cond(cpu: &mut Cpu, op: u8)
    requires
        old(cpu).wf(),
        op == 0xC2 || op == 0xCA || op == 0xD2 || op == 0xDA,
    ensures
        final(cpu).wf(),
        final(cpu)@ == misc_step(old(cpu)@, op),
{
    let t = NORMAL_TIMINGS[op as usize];
    if condition_holds(cpu, (op / 8) % 4) {
        let target = cpu.get_d16();
        cpu.reg.pc = target;
        cpu.set_op_attrs(0, 4);
    } else {
        cpu.set_op_attrs(3, t);
    }
}

/// CALL cc, a16.
fn call_cond(cpu: &mut Cpu, op: u8)
    requires
        old(cpu).wf(),
        op == 0xC4 || op == 0xCC || op == 0xD4 || op == 0xDC,
    ensures
        final(cpu).wf(),
        final(cpu)@ == misc_step(old(cpu)@, op),
{
    let t = NORMAL_TIMINGS[op as usize];
    if condition_holds(cpu, (op / 8) % 4) {
        call_a16(cpu);
        cpu.set_op_attrs(0, 6);
    } else {
        cpu.set_op_attrs(3, t);
    }
}

/// JP a16.
pub fn execute_c3(cpu: &mut Cpu)
    requires
        old(cpu).wf(),
    ensures
        final(cpu).wf(),
        final(cpu)@ == misc_step(old(cpu)@, 0xC3),
{
    let t = NORMAL_TIMINGS[0xC3];
    let target = cpu.get_d16();
    cpu.reg.pc = target;
    cpu.set_op_attrs(0, t);
}

/// RET and RETI.
fn ret_op(cpu: &mut Cpu, op: u8)
    requires
        old(cpu).wf(),
        op == 0xC9 || op == 0xD9,
    ensures
        final(cpu).wf(),
        final(cpu)@ == misc_step(old(cpu)@, op),
{
    let t = NORMAL_TIMINGS[op as usize];
    ret(cpu);
    cpu.set_op_attrs(0, t);
}

/// CALL a16.
pub fn execute_cd(cpu: &mut Cpu)
    requires
        old(cpu).wf(),
    ensures
        final(cpu).wf(),
        final(cpu)@ == misc_step(old(cpu)@, 0xCD),
{
    let t = NORMAL_TIMINGS[0xCD];
    call_a16(cpu);
    cpu.set_op_attrs(0, t);
}

/// LDH (a8), A.
pub fn execute_e0(cpu: &mut Cpu)
    requires
        old(cpu).wf(),
    ensures
        final(cpu).wf(),
        final(cpu)@ == misc_step(old(cpu)@, 0xE0),
{
    let t = NORMAL_TIMINGS[0xE0];
    let address = word_from(0xFF, cpu.get_op(1));
    let a = cpu.reg.a;
    cpu.mmu.set(address, a);
    cpu.set_op_attrs(2, t);
}

/// LDH A, (a8).
pub fn execute_f0(cpu: &mut Cpu)
    requires
        old(cpu).wf(),
    ensures
        final(cpu).wf(),
        final(cpu)@ == misc_step(old(cpu)@, 0xF0),
{
    let t = NORMAL_TIMINGS[0xF0];
    let address = word_from(0xFF, cpu.get_op(1));
    cpu.reg.a = cpu.mmu.get(address);
    cpu.set_op_attrs(2, t);
}

/// LD (C), A.
pub fn execute_e2(cpu: &mut Cpu)
    requires
        old(cpu).wf(),
    ensures
        final(cpu).wf(),
        final(cpu)@ == misc_step(old(cpu)@, 0xE2),
{
    let t = NORMAL_TIMINGS[0xE2];
    let address = word_from(0xFF, cpu.reg.c);
    let a = cpu.reg.a;
    cpu.mmu.set(address, a);
    cpu.set_op_attrs(1, t);
}

/// LD A, (C).
pub fn execute_f2(cpu: &mut Cpu)
    requires
        old(cpu).wf(),
    ensures
        final(cpu).wf(),
        final(cpu)@ == misc_step(old(cpu)@, 0xF2),
{
    let t = NORMAL_TIMINGS[0xF2];
    let address = word_from(0xFF, cpu.reg.c);
    cpu.reg.a = cpu.mmu.get(address);
    cpu.set_op_attrs(1, t);
}

/// ADD SP, r8.
pub fn execute_e8(cpu: &mut Cpu)
    requires
        old(cpu).wf(),
    ensures
        final(cpu).wf(),
        final(cpu)@ == misc_step(old(cpu)@, 0xE8),
{
    let t = NORMAL_TIMINGS[0xE8];
    let offset = offset_of(cpu);
    cpu.add_sp_s8(offset as i8);
    cpu.set_op_attrs(2, t);
}

/// LD HL, SP+r8.
pub fn execute_f8(cpu: &mut Cpu)
    requires
        old(cpu).wf(),
    ensures
        final(cpu).wf(),
        final(cpu)@ == misc_step(old(cpu)@, 0xF8),
{
    let t = NORMAL_TIMINGS[0xF8];
    let old_sp = cpu.reg.sp;
    let offset = offset_of(cpu);
    cpu.add_sp_s8(offset as i8);
    let sum = cpu.reg.sp;
    cpu.reg.set_hl(sum);
    cpu.reg.sp = old_sp;
    cpu.set_op_attrs(2, t);
}

/// JP (HL).
pub fn execute_e9(cpu: &mut Cpu)
    requires
        old(cpu).wf(),
    ensures
        final(cpu).wf(),
        final(cpu)@ == misc_step(old(cpu)@, 0xE9),
{
    let t = NORMAL_TIMINGS[0xE9];
    cpu.reg.pc = cpu.reg.hl();
    cpu.set_op_attrs(0, t);
}

/// LD (a16), A.
pub fn execute_ea(cpu: &mut Cpu)
    requires
        old(cpu).wf(),
    ensures
        final(cpu).wf(),
        final(cpu)@ == misc_step(old(cpu)@, 0xEA),
{
    let t = NORMAL_TIMINGS[0xEA];
    let address = cpu.get_d16();
    let a = cpu.reg.a;
    cpu.mmu.set(address, a);
    cpu.set_op_attrs(3, t);
}

/// LD A, (a16).
pub fn execute_fa(cpu: &mut Cpu)
    requires
        old(cpu).wf(),
    ensures
        final(cpu).wf(),
        final(cpu)@ == misc_step(old(cpu)@, 0xFA),
{
    let t = NORMAL_TIMINGS[0xFA];
    let address = cpu.get_d16();
    cpu.reg.a = cpu.mmu.get(address);
    cpu.set_op_attrs(3, t);
}

/// DI.
pub fn execute_f3(cpu: &mut Cpu)
    requires
        old(cpu).wf(),
    ensures
        final(cpu).wf(),
        final(cpu)@ == misc_step(old(cpu)@, 0xF3),
{
    let t = NORMAL_TIMINGS[0xF3];
    cpu.ime = false;
    cpu.set_op_attrs(1, t);
}

/// EI.
pub fn execute_fb(cpu: &mut Cpu)
    requires
        old(cpu).wf(),
    ensures
        final(cpu).wf(),
        final(cpu)@ == misc_step(old(cpu)@, 0xFB),
{
    let t = NORMAL_TIMINGS[0xFB];
    cpu.ime = true;
    cpu.set_op_attrs(1, t);
}

/// LD SP, HL.
pub fn execute_f9(cpu: &mut Cpu)
    requires
        old(cpu).wf(),
    ensures
        final(cpu).wf(),
        final(cpu)@ == misc_step(old(cpu)@, 0xF9),
{
    let t = NORMAL_TIMINGS[0xF9];
    cpu.reg.sp = cpu.reg.hl();
    cpu.set_op_attrs(1, t);
}

/// Whether a primary opcode outside the regular blocks has a handler of its
/// own; the others are illegal.
pub open spec fn handled_individually(op: u8) -> bool {
    op == 0x00 || op == 0x10 || op == 0x07 || op == 0x0F || op == 0x17 || op == 0x1F || op == 0x08 || op == 0x18 ||
    op == 0x20 || op == 0x28 || op == 0x30 || op == 0x38 || op == 0x27 || op == 0x2F || op == 0x37 || op == 0x3F ||
    op == 0x76 || op == 0xC0 || op == 0xC8 || op == 0xD0 || op == 0xD8 || op == 0xC2 || op == 0xCA || op == 0xD2 ||
    op == 0xDA || op == 0xC4 || op == 0xCC || op == 0xD4 || op == 0xDC || op == 0xC3 || op == 0xC9 || op == 0xD9 ||
    op == 0xCD || op == 0xE0 || op == 0xF0 || op == 0xE2 || op == 0xF2 || op == 0xE8 || op == 0xF8 || op == 0xE9 ||
    op == 0xEA || op == 0xFA || op == 0xF3 || op == 0xFB || op == 0xF9
}

/// An illegal opcode: counted, then skipped as a one-byte no-op.
fn illegal(cpu: &mut Cpu, op: u8)
    requires
        old(cpu).wf(),
        !handled_individually(op),
    ensures
        final(cpu).wf(),
        final(cpu)@ == misc_step(old(cpu)@, op),
{
    let t = NORMAL_TIMINGS[op as usize];
    cpu.illegal_opcodes = cpu.illegal_opcodes.wrapping_add(1);
    cpu.set_op_attrs(1, t);
}

/// Opcodes outside the regular blocks.
fn execute_misc(cpu: &mut Cpu, op: u8)
    requires
        old(cpu).wf(),
    ensures
        final(cpu).wf(),
        final(cpu)@ == misc_step(old(cpu)@, op),
{
    match op {
        0x00 => execute_00(cpu),
        0x10 => execute_10(cpu),
        0x07 | 0x0F | 0x17 | 0x1F => rotate_a_op(cpu, op),
        0x08 => execute_08(cpu),
        0x18 => execute_18(cpu),
        0x20 | 0x28 | 0x30 | 0x38 => jr_cond(cpu, op),
        0x27 => execute_27(cpu),
        0x2F => execute_2f(cpu),
        0x37 => execute_37(cpu),
        0x3F => execute_3f(cpu),
        0x76 => execute_76(cpu),
        0xC0 | 0xC8 | 0xD0 | 0xD8 => ret_cond(cpu, op),
        0xC2 | 0xCA | 0xD2 | 0xDA => jp_cond(cpu, op),
        0xC4 | 0xCC | 0xD4 | 0xDC => call_cond(cpu, op),
        0xC3 => execute_c3(cpu),
        0xC9 | 0xD9 => ret_op(cpu, op),
        0xCD => execute_cd(cpu),
        0xE0 => execute_e0(cpu),
        0xF0 => execute_f0(cpu),
        0xE2 => execute_e2(cpu),
        0xF2 => execute_f2(cpu),
        0xE8 => execute_e8(cpu),
        0xF8 => execute_f8(cpu),
        0xE9 => execute_e9(cpu),
        0xEA => execute_ea(cpu),
        0xFA => execute_fa(cpu),
        0xF3 => execute_f3(cpu),
        0xFB => execute_fb(cpu),
        0xF9 => execute_f9(cpu),
        _ => illegal(cpu, op),
    }
}

/// Rotates and shifts of the prefixed table (0x00-0x3F).
fn cb_shift(cpu: &mut Cpu, op: u8)
    requires
        old(cpu).wf(),
        op < 0x40,
    ensures
        final(cpu).wf(),
        final(cpu)@ == cb_step(old(cpu)@, op),
{
    let reg = R8::from_spec(op % 8);
    cpu.shift(op / 8, reg);
    cpu.set_op_attrs(2, CB_TIMINGS[op as usize]);
}

/// BIT, RES and SET of the prefixed table (0x40-0xFF).
fn cb_bit_op(cpu: &mut Cpu, op: u8)
    requires
        old(cpu).wf(),
        op >= 0x40,
    ensures
        final(cpu).wf(),
        final(cpu)@ == cb_step(old(cpu)@, op),
{
    let reg = R8::from_spec(op % 8);
    if op < 0x80 {
        cpu.bit((op - 0x40) / 8, reg);
    } else if op < 0xC0 {
        cpu.res((op - 0x80) / 8, reg);
    } else {
        cpu.set((op - 0xC0) / 8, reg);
    }
    cpu.set_op_attrs(2, CB_TIMINGS[op as usize]);
}

/// The 0xCB-prefixed table: the opcode is the byte after the prefix.
fn execute_prefixed(cpu: &mut Cpu)
    requires
        old(cpu).wf(),
        old(cpu).opcode == 0xCB,
    ensures
        final(cpu).wf(),
        final(cpu)@ == executed(old(cpu)@),
{
    let op = cpu.get_op(1);
    cpu.cb_prefix = true;
    cpu.opcode = op;
    if op < 0x40 {
        cb_shift(cpu, op);
    } else {
        cb_bit_op(cpu, op);
    }
}

/// LD r, r'.
fn ld_r_r(cpu: &mut Cpu, op: u8)
    requires
        old(cpu).wf(),
        0x40 <= op && op < 0x80 && op != 0x76,
    ensures
        final(cpu).wf(),
        final(cpu)@ == primary_step(old(cpu)@, op),
{
    let t = NORMAL_TIMINGS[op as usize];
    let value = cpu.get_reg8_by_index(op % 8);
    cpu.set_reg((op - 0x40) / 8, value);
    cpu.set_op_attrs(1, t);
}

/// ALU A, r.
fn alu_r(cpu: &mut Cpu, op: u8)
    requires
        old(cpu).wf(),
        0x80 <= op && op < 0xC0,
    ensures
        final(cpu).wf(),
        final(cpu)@ == primary_step(old(cpu)@, op),
{
    let t = NORMAL_TIMINGS[op as usize];
    let value = cpu.get_reg8_by_index(op % 8);
    alu_op(cpu, (op - 0x80) / 8, value);
    cpu.set_op_attrs(1, t);
}

/// ALU A, d8.
fn alu_d8(cpu: &mut Cpu, op: u8)
    requires
        old(cpu).wf(),
        op >= 0xC0 && op % 8 == 6,
    ensures
        final(cpu).wf(),
        final(cpu)@ == primary_step(old(cpu)@, op),
{
    let t = NORMAL_TIMINGS[op as usize];
    let value = cpu.get_op(1);
    alu_op(cpu, (op - 0xC0) / 8, value);
    cpu.set_op_attrs(2, t);
}

/// RST n: pushes the address of the next instruction and jumps to `op - 0xC7`.
fn rst(cpu: &mut Cpu, op: u8)
    requires
        old(cpu).wf(),
        op >= 0xC0 && op % 8 == 7,
    ensures
        final(cpu).wf(),
        final(cpu)@ == primary_step(old(cpu)@, op),
{
    let t = NORMAL_TIMINGS[op as usize];
    let pc = cpu.reg.pc;
    cpu.push_word(pc.wrapping_add(1));
    cpu.reg.pc = (op - 0xC7) as u16;
    cpu.set_op_attrs(0, t);
}

/// POP rr.
fn pop_rr(cpu: &mut Cpu, op: u8)
    requires
        old(cpu).wf(),
        op >= 0xC0 && op % 16 == 1,
    ensures
        final(cpu).wf(),
        final(cpu)@ == primary_step(old(cpu)@, op),
{
    let t = NORMAL_TIMINGS[op as usize];
    let word = cpu.pop_word();
    cpu.set_reg16(stack_pair_of((op - 0xC0) / 16), word);
    cpu.set_op_attrs(1, t);
}

/// PUSH rr.
fn push_rr(cpu: &mut Cpu, op: u8)
    requires
        old(cpu).wf(),
        op >= 0xC0 && op % 16 == 5,
    ensures
        final(cpu).wf(),
        final(cpu)@ == primary_step(old(cpu)@, op),
{
    let t = NORMAL_TIMINGS[op as usize];
    let word = cpu.get_reg16(stack_pair_of((op - 0xC0) / 16));
    cpu.push_word(word);
    cpu.set_op_attrs(1, t);
}

/// INC r.
fn inc_r(cpu: &mut Cpu, op: u8)
    requires
        old(cpu).wf(),
        op < 0x40 && op % 8 == 4,
    ensures
        final(cpu).wf(),
        final(cpu)@ == primary_step(old(cpu)@, op),
{
    let t = NORMAL_TIMINGS[op as usize];
    cpu.inc(R8::from_spec(op / 8));
    cpu.set_op_attrs(1, t);
}

/// DEC r.
fn dec_r(cpu: &mut Cpu, op: u8)
    requires
        old(cpu).wf(),
        op < 0x40 && op % 8 == 5,
    ensures
        final(cpu).wf(),
        final(cpu)@ == primary_step(old(cpu)@, op),
{
    let t = NORMAL_TIMINGS[op as usize];
    cpu.dec(R8::from_spec(op / 8));
    cpu.set_op_attrs(1, t);
}

/// LD r, d8.
fn ld_r_d8(cpu: &mut Cpu, op: u8)
    requires
        old(cpu).wf(),
        op < 0x40 && op % 8 == 6,
    ensures
        final(cpu).wf(),
        final(cpu)@ == primary_step(old(cpu)@, op),
{
    let t = NORMAL_TIMINGS[op as usize];
    let value = cpu.get_op(1);
    cpu.set_reg(op / 8, value);
    cpu.set_op_attrs(2, t);
}

/// LD rr, d16.
fn ld_rr_d16(cpu: &mut Cpu, op: u8)
    requires
        old(cpu).wf(),
        op < 0x40 && op % 16 == 1,
    ensures
        final(cpu).wf(),
        final(cpu)@ == primary_step(old(cpu)@, op),
{
    let t = NORMAL_TIMINGS[op as usize];
    let word = cpu.get_d16();
    cpu.set_reg16_by_index(op / 16, word);
    cpu.set_op_attrs(3, t);
}

/// INC rr.
fn inc_rr(cpu: &mut Cpu, op: u8)
    requires
        old(cpu).wf(),
        op < 0x40 && op % 16 == 3,
    ensures
        final(cpu).wf(),
        final(cpu)@ == primary_step(old(cpu)@, op),
{
    let t = NORMAL_TIMINGS[op as usize];
    cpu.inc_rr(R16::from_spec(op / 16));
    cpu.set_op_attrs(1, t);
}

/// DEC rr.
fn dec_rr(cpu: &mut Cpu, op: u8)
    requires
        old(cpu).wf(),
        op < 0x40 && op % 16 == 0xB,
    ensures
        final(cpu).wf(),
        final(cpu)@ == primary_step(old(cpu)@, op),
{
    let t = NORMAL_TIMINGS[op as usize];
    cpu.dec_rr(R16::from_spec(op / 16));
    cpu.set_op_attrs(1, t);
}

/// ADD HL, rr.
fn add_hl_rr(cpu: &mut Cpu, op: u8)
    requires
        old(cpu).wf(),
        op < 0x40 && op % 16 == 9,
    ensures
        final(cpu).wf(),
        final(cpu)@ == primary_step(old(cpu)@, op),
{
    let t = NORMAL_TIMINGS[op as usize];
    let word = cpu.get_reg16(R16::from_spec(op / 16));
    cpu.add_hl(word);
    cpu.set_op_attrs(1, t);
}

/// LD (rr), A with HL+ and HL-.
fn ld_indirect_a(cpu: &mut Cpu, op: u8)
    requires
        old(cpu).wf(),
        op < 0x40 && op % 16 == 2,
    ensures
        final(cpu).wf(),
        final(cpu)@ == primary_step(old(cpu)@, op),
{
    let t = NORMAL_TIMINGS[op as usize];
    let address = indirect_address_of(cpu, op / 16);
    let a = cpu.reg.a;
    cpu.mmu.set(address, a);
    step_hl(cpu, op / 16);
    cpu.set_op_attrs(1, t);
}

/// LD A, (rr) with HL+ and HL-.
fn ld_a_indirect(cpu: &mut Cpu, op: u8)
    requires
        old(cpu).wf(),
        op < 0x40 && op % 16 == 0xA,
    ensures
        final(cpu).wf(),
        final(cpu)@ == primary_step(old(cpu)@, op),
{
    let t = NORMAL_TIMINGS[op as usize];
    let address = indirect_address_of(cpu, op / 16);
    cpu.reg.a = cpu.mmu.get(address);
    step_hl(cpu, op / 16);
    cpu.set_op_attrs(1, t);
}

/// The regular blocks of the primary table, decoded from the opcode's bit
/// fields; the rest goes to the per-opcode handlers.
fn execute_primary(cpu: &mut Cpu, op: u8)
    requires
        old(cpu).wf(),
    ensures
        final(cpu).wf(),
        final(cpu)@ == primary_step(old(cpu)@, op),
{
    if op == 0x76 {
        execute_misc(cpu, op);
    } else if 0x40 <= op && op < 0x80 {
        ld_r_r(cpu, op);
    } else if 0x80 <= op && op < 0xC0 {
        alu_r(cpu, op);
    } else if op >= 0xC0 && op % 8 == 6 {
        alu_d8(cpu, op);
    } else if op >= 0xC0 && op % 8 == 7 {
        rst(cpu, op);
    } else if op >= 0xC0 && op % 16 == 1 {
        pop_rr(cpu, op);
    } else if op >= 0xC0 && op % 16 == 5 {
        push_rr(cpu, op);
    } else if op < 0x40 && op % 8 == 4 {
        inc_r(cpu, op);
    } else if op < 0x40 && op % 8 == 5 {
        dec_r(cpu, op);
    } else if op < 0x40 && op % 8 == 6 {
        ld_r_d8(cpu, op);
    } else if op < 0x40 && op % 16 == 1 {
        ld_rr_d16(cpu, op);
    } else if op < 0x40 && op % 16 == 3 {
        inc_rr(cpu, op);
    } else if op < 0x40 && op % 16 == 0xB {
        dec_rr(cpu, op);
    } else if op < 0x40 && op % 16 == 9 {
        add_hl_rr(cpu, op);
    } else if op < 0x40 && op % 16 == 2 {
        ld_indirect_a(cpu, op);
    } else if op < 0x40 && op % 16 == 0xA {
        ld_a_indirect(cpu, op);
    } else {
        execute_misc(cpu, op);
    }
}

/// Executes the instruction whose opcode is latched in `cpu.opcode`: sets
/// its effect, `advance_pc` (0 where it set PC itself) and `cycles`.
pub fn execute(cpu: &mut Cpu)
    requires
        old(cpu).wf(),
    ensures
        final(cpu).wf(),
        final(cpu)@ == executed(old(cpu)@),
{
    if cpu.opcode == 0xCB {
        execute_prefixed(cpu);
    } else {
        cpu.cb_prefix = false;
        let op = cpu.opcode;
        execute_primary(cpu, op);
    }
}

/// INC C.
pub fn execute_0c(cpu: &mut Cpu)
    requires
        old(cpu).wf(),
    ensures
        final(cpu).wf(),
        final(cpu)@ == primary_step(old(cpu)@, 0x0C),
{
    execute_primary(cpu, 0x0C)
}

/// JR NZ, r8: 3 cycles when Z is clear, 2 when set.
pub fn execute_20(cpu: &mut Cpu)
    requires
        old(cpu).wf(),
    ensures
        final(cpu).wf(),
        final(cpu)@ == misc_step(old(cpu)@, 0x20),
{
    jr_cond(cpu, 0x20)
}

/// LD (HL-), A.
pub fn execute_32(cpu: &mut Cpu)
    requires
        old(cpu).wf(),
    ensures
        final(cpu).wf(),
        final(cpu)@ == primary_step(old(cpu)@, 0x32),
{
    execute_primary(cpu, 0x32)
}

/// XOR A: clears A and sets Z.
pub fn execute_af(cpu: &mut Cpu)
    requires
        old(cpu).wf(),
    ensures
        final(cpu).wf(),
        final(cpu)@ == primary_step(old(cpu)@, 0xAF),
{
    execute_primary(cpu, 0xAF)
}

/// Pops a word off the stack.
pub fn pop_word(cpu: &mut Cpu) -> (r: u16)
    requires
        old(cpu).wf(),
    ensures
        final(cpu).wf(),
        r == old(cpu)@.top(),
        final(cpu)@ == old(cpu)@.popped(),
{
    cpu.pop_word()
}

/// CP A, byte.
pub fn cp_d8(cpu: &mut Cpu, byte: u8)
    ensures
        final(cpu)@ == old(cpu)@.alu_applied(7, byte),
{
    cpu.cp(byte)
}

/// Applies rotate/shift `kind` to a byte held outside the register file.
fn shift_byte(reg: &mut u8, flags: &mut Flags, kind: u8)
    requires
        kind < 8,
    ensures
        *final(reg) == shifted(kind, *old(reg), old(flags).carry).0,
        *final(flags) == shift_flags(*final(reg), shifted(kind, *old(reg), old(flags).carry).1),
{
    let val = *reg;
    let cin: u8 = if flags.carry { 1 } else { 0 };
    let (r, c): (u8, bool) = if kind == 0 {
        ((val % 128) * 2 + val / 128, val >= 128)
    } else if kind == 1 {
        (val / 2 + (val % 2) * 128, val % 2 == 1)
    } else if kind == 2 {
        ((val % 128) * 2 + cin, val >= 128)
    } else if kind == 3 {
        (val / 2 + cin * 128, val % 2 == 1)
    } else if kind == 4 {
        ((val % 128) * 2, val >= 128)
    } else if kind == 5 {
        (val / 2 + (val / 128) * 128, val % 2 == 1)
    } else if kind == 6 {
        ((val % 16) * 16 + val / 16, false)
    } else {
        (val / 2, val % 2 == 1)
    };
    *reg = r;
    flags.set_from_bool(r == 0, false, false, c);
}

/// RL on a byte: rotate left through carry.
pub fn rl_d8(reg: &mut u8, flags: &mut Flags)
    ensures
        *final(reg) == shifted(2, *old(reg), old(flags).carry).0,
        *final(flags) == shift_flags(*final(reg), shifted(2, *old(reg), old(flags).carry).1),
{
    shift_byte(reg, flags, 2)
}

/// RR on a byte: rotate right through carry.
pub fn rr(reg: &mut u8, flags: &mut Flags)
    ensures
        *final(reg) == shifted(3, *old(reg), old(flags).carry).0,
        *final(flags) == shift_flags(*final(reg), shifted(3, *old(reg), old(flags).carry).1),
{
    shift_byte(reg, flags, 3)
}

/// SWAP on a byte: exchange the nibbles.
pub fn swap_u8(reg: &mut u8, flags: &mut Flags)
    ensures
        *final(reg) == shifted(6, *old(reg), old(flags).carry).0,
        *final(flags) == shift_flags(*final(reg), false),
{
    shift_byte(reg, flags, 6)
}

/// SRL on a byte: shift right, bit 7 becomes 0, bit 0 goes to C.
pub fn srl(reg: &mut u8, flags: &mut Flags)
    ensures
        *final(reg) == shifted(7, *old(reg), old(flags).carry).0,
        *final(flags) == shift_flags(*final(reg), shifted(7, *old(reg), old(flags).carry).1),
{
    shift_byte(reg, flags, 7)
}

/// DEC on a byte: Z, N, H from the result; C kept.
pub fn dec_d8(reg: &mut u8, flags: &mut Flags)
    ensures
        *final(reg) == old(reg).wrapping_sub(1),
        *final(flags) == (Flags {
            zero: *final(reg) == 0,
            sub: true,
            half_carry: crate::flags::half_carry_sub(*old(reg), 1),
            ..*old(flags)
        }),
{
    let val = *reg;
    flags.half_carry = Flags::half_carry_sub_occurred(val, 1);
    *reg = val.wrapping_sub(1);
    flags.zero = *reg == 0;
    flags.sub = true;
}

/// Whether `op` is a conditional branch (JR, RET, JP, CALL) whose condition
/// holds in `s`.
pub open spec fn branch_taken(s: CpuView, op: u8) -> bool {
    (op == 0x20 || op == 0x28 || op == 0x30 || op == 0x38 || op == 0xC0 || op == 0xC8 || op == 0xD0
        || op == 0xD8 || op == 0xC2 || op == 0xCA || op == 0xD2 || op == 0xDA || op == 0xC4 || op
        == 0xCC || op == 0xD4 || op == 0xDC) && condition(s, (op / 8) % 4)
}

/// Cost of a taken conditional branch: JR 3, RET 5, JP 4, CALL 6.
pub open spec fn taken_timing(op: u8) -> usize {
    if op < 0x40 {
        3
    } else if op % 8 == 0 {
        5
    } else if op % 8 == 2 {
        4
    } else {
        6
    }
}

/// Cycles published by the handlers outside the regular blocks.
proof fn lemma_misc_cycles(s: CpuView, op: u8)
    ensures
        misc_step(s, op).cycles == (if op == 0x10 {
            1
        } else if branch_taken(s, op) {
            taken_timing(op)
        } else {
            timing(op)
        }),
{
}

/// Cycles published by the primary table.
proof fn lemma_primary_cycles(s: CpuView, op: u8)
    ensures
        primary_step(s, op).cycles == (if op == 0x10 {
            1
        } else if branch_taken(s, op) {
            taken_timing(op)
        } else {
            timing(op)
        }),
{
    lemma_misc_cycles(s, op);
}

/// The cycle count that a tick publishes is the listed cost of the opcode:
/// the prefixed table for 0xCB, else the primary table. Exceptions are
/// STOP, which costs one cycle, and a conditional branch that is taken,
/// which costs more than its listed (not-taken) cost.
pub proof fn lemma_tick_cycles(s: CpuView)
    requires
        s.wf(),
        s.status != Status::Halt,
    ensures
        ({
            let op = s.mem.read(s.reg.pc);
            let c = crate::cpu::ticked(s).cycles;
            &&& op == 0xCB ==> c == cb_timing(s.byte_at(1))
            &&& op != 0xCB && op != 0x10 && !branch_taken(s, op) ==> c == timing(op)
            &&& op != 0xCB && branch_taken(s, op) ==> c == taken_timing(op)
            &&& op == 0x10 ==> c == 1
        }),
{
    reveal(crate::cpu::ticked);
    let op = s.mem.read(s.reg.pc);
    let s1 = CpuView { cycles: 0, opcode: op, ..s };
    if op != 0xCB {
        let s2 = CpuView { cb_prefix: false, ..s1 };
        lemma_primary_cycles(s2, op);
        assert(branch_taken(s2, op) == branch_taken(s, op));
    }
}

/// POP AF leaves the low nibble of F clear, whatever the stack held.
pub proof fn lemma_pop_af_masks_flags(s: CpuView)
    requires
        s.wf(),
    ensures
        primary_step(s, 0xF1).reg.f.byte() & 0x0F == 0,
        primary_step(s, 0xF1).reg.spec_af() & 0x0F == 0,
{
    let t = primary_step(s, 0xF1);
    crate::flags::lemma_flags_round_trip(lo_byte(s.top()));
    let f = t.reg.f.byte();
    let a = t.reg.a;
    assert(f & 0x0F == 0);
    assert(((a * 256 + f) as u16) & 0x0F == 0) by (bit_vector)
        requires
            f & 0x0F == 0,
    ;
}

} // verus!
