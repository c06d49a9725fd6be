use vstd::prelude::*;
use crate::flags::{Flags, half_carry_add, half_carry_sub, half_carry_add_u16};
use crate::mmu::{Mmu, MemView, INTERRUPT_FLAG, INTERRUPT_ENABLE};
use crate::registers::{Registers, R8, R16};
use crate::timer::Timer;
use crate::{bytes_from, hi_byte, lo_byte, word, word_from, bit_set};
use crate::execute::{execute, executed};

verus! {

/// The five interrupt sources, highest priority first.
#[derive(Clone, Copy, PartialEq, Eq, Structural, Debug)]
pub enum Interrupt {
    VBlank,
    LCD,
    TIMER,
    SERIAL,
    JOYPAD,
}

/// Service routine address of interrupt `id` (0 to 4).
pub open spec fn vector_of(id: u8) -> u16 {
    (0x40 + 8 * id) as u16
}

impl Interrupt {
    pub open spec fn spec_id(self) -> u8 {
        match self {
            Interrupt::VBlank => 0,
            Interrupt::LCD => 1,
            Interrupt::TIMER => 2,
            Interrupt::SERIAL => 3,
            Interrupt::JOYPAD => 4,
        }
    }

    /// Bit number of the interrupt in IF and IE.
    pub fn id(&self) -> (r: u8)
        ensures
            r == self.spec_id(),
    {
        match self {
            Interrupt::VBlank => 0,
            Interrupt::LCD => 1,
            Interrupt::TIMER => 2,
            Interrupt::SERIAL => 3,
            Interrupt::JOYPAD => 4,
        }
    }

    /// Address of the interrupt's service routine.
    pub fn vector(&self) -> (r: u16)
        ensures
            r == vector_of(self.spec_id()),
    {
        match self {
            Interrupt::VBlank => 0x40,
            Interrupt::LCD => 0x48,
            Interrupt::TIMER => 0x50,
            Interrupt::SERIAL => 0x58,
            Interrupt::JOYPAD => 0x60,
        }
    }
}

/// Run state of the processor.
#[derive(Clone, Copy, PartialEq, Eq, Structural, Debug)]
pub enum Status {
    Stopped,
    Running,
    Halt,
    InfiniteLoop,
}

/// Master clock in Hz.
pub const CLOCK_SPEED: usize = 4194304;

/// Machine cycles of each primary opcode; for a conditional branch, the cost
/// when it is not taken.
pub const NORMAL_TIMINGS: [usize; 256] = [
    1, 3, 2, 2, 1, 1, 2, 1, 5, 2, 2, 2, 1, 1, 2, 1,
    0, 3, 2, 2, 1, 1, 2, 1, 3, 2, 2, 2, 1, 1, 2, 1,
    2, 3, 2, 2, 1, 1, 2, 1, 2, 2, 2, 2, 1, 1, 2, 1,
    2, 3, 2, 2, 3, 3, 3, 1, 2, 2, 2, 2, 1, 1, 2, 1,
    1, 1, 1, 1, 1, 1, 2, 1, 1, 1, 1, 1, 1, 1, 2, 1,
    1, 1, 1, 1, 1, 1, 2, 1, 1, 1, 1, 1, 1, 1, 2, 1,
    1, 1, 1, 1, 1, 1, 2, 1, 1, 1, 1, 1, 1, 1, 2, 1,
    2, 2, 2, 2, 2, 2, 1, 2, 1, 1, 1, 1, 1, 1, 2, 1,
    1, 1, 1, 1, 1, 1, 2, 1, 1, 1, 1, 1, 1, 1, 2, 1,
    1, 1, 1, 1, 1, 1, 2, 1, 1, 1, 1, 1, 1, 1, 2, 1,
    1, 1, 1, 1, 1, 1, 2, 1, 1, 1, 1, 1, 1, 1, 2, 1,
    1, 1, 1, 1, 1, 1, 2, 1, 1, 1, 1, 1, 1, 1, 2, 1,
    2, 3, 3, 4, 3, 4, 2, 4, 2, 4, 3, 0, 3, 6, 2, 4,
    2, 3, 3, 0, 3, 4, 2, 4, 2, 4, 3, 0, 3, 0, 2, 4,
    3, 3, 2, 0, 0, 4, 2, 4, 4, 1, 4, 0, 0, 0, 2, 4,
    3, 3, 2, 1, 0, 4, 2, 4, 3, 2, 4, 1, 0, 0, 2, 4,
];

/// Machine cycles of each 0xCB-prefixed opcode.
pub const CB_TIMINGS: [usize; 256] = [
    2, 2, 2, 2, 2, 2, 4, 2, 2, 2, 2, 2, 2, 2, 4, 2,
    2, 2, 2, 2, 2, 2, 4, 2, 2, 2, 2, 2, 2, 2, 4, 2,
    2, 2, 2, 2, 2, 2, 4, 2, 2, 2, 2, 2, 2, 2, 4, 2,
    2, 2, 2, 2, 2, 2, 4, 2, 2, 2, 2, 2, 2, 2, 4, 2,
    2, 2, 2, 2, 2, 2, 3, 2, 2, 2, 2, 2, 2, 2, 3, 2,
    2, 2, 2, 2, 2, 2, 3, 2, 2, 2, 2, 2, 2, 2, 3, 2,
    2, 2, 2, 2, 2, 2, 3, 2, 2, 2, 2, 2, 2, 2, 3, 2,
    2, 2, 2, 2, 2, 2, 3, 2, 2, 2, 2, 2, 2, 2, 3, 2,
    2, 2, 2, 2, 2, 2, 4, 2, 2, 2, 2, 2, 2, 2, 4, 2,
    2, 2, 2, 2, 2, 2, 4, 2, 2, 2, 2, 2, 2, 2, 4, 2,
    2, 2, 2, 2, 2, 2, 4, 2, 2, 2, 2, 2, 2, 2, 4, 2,
    2, 2, 2, 2, 2, 2, 4, 2, 2, 2, 2, 2, 2, 2, 4, 2,
    2, 2, 2, 2, 2, 2, 4, 2, 2, 2, 2, 2, 2, 2, 4, 2,
    2, 2, 2, 2, 2, 2, 4, 2, 2, 2, 2, 2, 2, 2, 4, 2,
    2, 2, 2, 2, 2, 2, 4, 2, 2, 2, 2, 2, 2, 2, 4, 2,
    2, 2, 2, 2, 2, 2, 4, 2, 2, 2, 2, 2, 2, 2, 4, 2,
];

/// The signed value of an offset byte.
pub open spec fn signed(b: u8) -> i8 {
    if b >= 128 {
        (b - 256) as i8
    } else {
        b as i8
    }
}

/// Result and flags of arithmetic-logic operation `op` (ADD, ADC, SUB, SBC,
/// AND, XOR, OR, CP for 0 to 7) on accumulator `a` and operand `b`.
pub open spec fn alu(op: u8, a: u8, b: u8, f: Flags) -> (u8, Flags) {
    let c: int = if f.carry { 1 } else { 0 };
    if op == 0 {
        let r = a.wrapping_add(b);
        (r, Flags { zero: r == 0, sub: false, half_carry: half_carry_add(a, b), carry: a + b > 0xFF })
    } else if op == 1 {
        let r = ((a + b + c) % 256) as u8;
        (
            r,
            Flags {
                zero: r == 0,
                sub: false,
                half_carry: (a & 0xF) + (b & 0xF) + c >= 0x10,
                carry: a + b + c > 0xFF,
            },
        )
    } else if op == 2 || op == 7 {
        let r = a.wrapping_sub(b);
        (
            if op == 2 { r } else { a },
            Flags { zero: r == 0, sub: true, half_carry: half_carry_sub(a, b), carry: a < b },
        )
    } else if op == 3 {
        let r = ((a + 512 - b - c) % 256) as u8;
        (r, Flags { zero: r == 0, sub: true, half_carry: (a & 0xF) < (b & 0xF) + c, carry: a < b + c })
    } else if op == 4 {
        let r = a & b;
        (r, Flags { zero: r == 0, sub: false, half_carry: true, carry: false })
    } else if op == 5 {
        let r = a ^ b;
        (r, Flags { zero: r == 0, ..Flags::none() })
    } else {
        let r = a | b;
        (r, Flags { zero: r == 0, ..Flags::none() })
    }
}

/// Result and carry-out of rotate/shift `kind` (RLC, RRC, RL, RR, SLA, SRA,
/// SWAP, SRL for 0 to 7) on `v` with carry-in `c`.
pub open spec fn shifted(kind: u8, v: u8, c: bool) -> (u8, bool) {
    let cin: int = if c { 1 } else { 0 };
    if kind == 0 {
        (((v % 128) * 2 + v / 128) as u8, v >= 128)
    } else if kind == 1 {
        ((v / 2 + (v % 2) * 128) as u8, v % 2 == 1)
    } else if kind == 2 {
        (((v % 128) * 2 + cin) as u8, v >= 128)
    } else if kind == 3 {
        ((v / 2 + cin * 128) as u8, v % 2 == 1)
    } else if kind == 4 {
        (((v % 128) * 2) as u8, v >= 128)
    } else if kind == 5 {
        ((v / 2 + (v / 128) * 128) as u8, v % 2 == 1)
    } else if kind == 6 {
        (((v % 16) * 16 + v / 16) as u8, false)
    } else {
        ((v / 2) as u8, v % 2 == 1)
    }
}

/// Flags after a rotate or shift with result `r` and carry-out `c`.
pub open spec fn shift_flags(r: u8, c: bool) -> Flags {
    Flags { zero: r == 0, sub: false, half_carry: false, carry: c }
}

/// Accumulator and flags after decimal adjustment.
pub open spec fn daa(a: u8, f: Flags) -> (u8, Flags) {
    let low = f.half_carry || (!f.sub && (a & 0xF) > 9);
    let high = f.carry || (!f.sub && a > 0x99);
    let correction: u8 = ((if low { 0x06int } else { 0 }) + (if high { 0x60int } else { 0 })) as u8;
    let r = if f.sub { a.wrapping_sub(correction) } else { a.wrapping_add(correction) };
    (r, Flags { zero: r == 0, sub: f.sub, half_carry: false, carry: high })
}

/// What the processor holds, as plain values.
pub ghost struct CpuView {
    pub reg: Registers,
    pub mem: MemView,
    pub timer: Timer,
    pub status: Status,
    pub opcode: u8,
    pub advance_pc: i16,
    pub cycles: usize,
    pub cb_prefix: bool,
    pub ime: bool,
    pub illegal_opcodes: usize,
}

impl CpuView {
    pub open spec fn wf(self) -> bool {
        self.mem.wf()
    }

    pub open spec fn with_reg(self, reg: Registers) -> CpuView {
        CpuView { reg, ..self }
    }

    pub open spec fn with_flags(self, f: Flags) -> CpuView {
        self.with_reg(Registers { f, ..self.reg })
    }

    pub open spec fn with_mem(self, mem: MemView) -> CpuView {
        CpuView { mem, ..self }
    }

    pub open spec fn with_a(self, a: u8) -> CpuView {
        self.with_reg(Registers { a, ..self.reg })
    }

    pub open spec fn with_pc(self, pc: u16) -> CpuView {
        self.with_reg(Registers { pc, ..self.reg })
    }

    pub open spec fn with_sp(self, sp: u16) -> CpuView {
        self.with_reg(Registers { sp, ..self.reg })
    }

    /// The value of an 8-bit operand.
    pub open spec fn operand(self, r: R8) -> u8 {
        match r {
            R8::A => self.reg.a,
            R8::B => self.reg.b,
            R8::C => self.reg.c,
            R8::D => self.reg.d,
            R8::E => self.reg.e,
            R8::H => self.reg.h,
            R8::L => self.reg.l,
            R8::HLRam => self.mem.read(self.reg.spec_hl()),
        }
    }

    /// The state after storing `v` into an 8-bit operand.
    pub open spec fn put(self, r: R8, v: u8) -> CpuView {
        match r {
            R8::A => self.with_reg(Registers { a: v, ..self.reg }),
            R8::B => self.with_reg(Registers { b: v, ..self.reg }),
            R8::C => self.with_reg(Registers { c: v, ..self.reg }),
            R8::D => self.with_reg(Registers { d: v, ..self.reg }),
            R8::E => self.with_reg(Registers { e: v, ..self.reg }),
            R8::H => self.with_reg(Registers { h: v, ..self.reg }),
            R8::L => self.with_reg(Registers { l: v, ..self.reg }),
            R8::HLRam => self.with_mem(self.mem.write(self.reg.spec_hl(), v)),
        }
    }

    /// The value of a 16-bit register or pair.
    pub open spec fn pair(self, r: R16) -> u16 {
        match r {
            R16::AF => self.reg.spec_af(),
            R16::BC => self.reg.spec_bc(),
            R16::DE => self.reg.spec_de(),
            R16::HL => self.reg.spec_hl(),
            R16::SP => self.reg.sp,
            R16::PC => self.reg.pc,
        }
    }

    /// The state after loading a 16-bit register or pair.
    pub open spec fn with_pair(self, r: R16, w: u16) -> CpuView {
        match r {
            R16::AF => self.with_reg(self.reg.with_af(w)),
            R16::BC => self.with_reg(self.reg.with_bc(w)),
            R16::DE => self.with_reg(self.reg.with_de(w)),
            R16::HL => self.with_reg(self.reg.with_hl(w)),
            R16::SP => self.with_sp(w),
            R16::PC => self.with_pc(w),
        }
    }

    /// The byte `offset` bytes after the program counter.
    pub open spec fn byte_at(self, offset: u16) -> u8 {
        self.mem.read(self.reg.pc.wrapping_add(offset))
    }

    /// The little-endian word that follows the opcode.
    pub open spec fn imm16(self) -> u16 {
        word(self.byte_at(2), self.byte_at(1))
    }

    /// The state after pushing `w`: high byte at SP-1, low byte at SP-2.
    pub open spec fn pushed(self, w: u16) -> CpuView {
        let sp = self.reg.sp;
        self.with_mem(
            self.mem.write(sp.wrapping_sub(1), hi_byte(w)).write(sp.wrapping_sub(2), lo_byte(w)),
        ).with_sp(sp.wrapping_sub(2))
    }

    /// The word on top of the stack.
    pub open spec fn top(self) -> u16 {
        word(self.mem.read(self.reg.sp.wrapping_add(1)), self.mem.read(self.reg.sp))
    }

    /// The state after dropping the word on top of the stack.
    pub open spec fn popped(self) -> CpuView {
        self.with_sp(self.reg.sp.wrapping_add(2))
    }

    /// The state after an arithmetic-logic operation on A.
    pub open spec fn alu_applied(self, op: u8, b: u8) -> CpuView {
        let (r, f) = alu(op, self.reg.a, b, self.reg.f);
        self.with_reg(Registers { a: r, f, ..self.reg })
    }

    /// The state after a rotate or shift of an operand.
    pub open spec fn shift_applied(self, kind: u8, r: R8) -> CpuView {
        let (v, c) = shifted(kind, self.operand(r), self.reg.f.carry);
        self.with_flags(shift_flags(v, c)).put(r, v)
    }

    /// The state after incrementing an 8-bit operand; C is kept.
    pub open spec fn inc_applied(self, r: R8) -> CpuView {
        let v = self.operand(r);
        let n = v.wrapping_add(1);
        self.with_flags(
            Flags { zero: n == 0, sub: false, half_carry: half_carry_add(v, 1), ..self.reg.f },
        ).put(r, n)
    }

    /// The state after decrementing an 8-bit operand; C is kept.
    pub open spec fn dec_applied(self, r: R8) -> CpuView {
        let v = self.operand(r);
        let n = v.wrapping_sub(1);
        self.with_flags(
            Flags { zero: n == 0, sub: true, half_carry: half_carry_sub(v, 1), ..self.reg.f },
        ).put(r, n)
    }

    /// The state after adding `w` to HL; Z is kept.
    pub open spec fn add_hl_applied(self, w: u16) -> CpuView {
        let hl = self.reg.spec_hl();
        self.with_reg(
            Registers {
                f: Flags {
                    sub: false,
                    half_carry: half_carry_add_u16(hl, w),
                    carry: hl + w > 0xFFFF,
                    ..self.reg.f
                },
                ..self.reg.with_hl(hl.wrapping_add(w))
            },
        )
    }

    /// The state after adding a signed offset to SP: Z and N clear, H and C
    /// from the unsigned addition of the offset byte to the low byte of SP.
    pub open spec fn add_sp_applied(self, b: u8) -> CpuView {
        let sp = self.reg.sp;
        self.with_reg(
            Registers {
                sp: sp.wrapping_add_signed(signed(b) as i16),
                f: Flags {
                    zero: false,
                    sub: false,
                    half_carry: half_carry_add(lo_byte(sp), b),
                    carry: lo_byte(sp) + b > 0xFF,
                },
                ..self.reg
            },
        )
    }

    /// The state after servicing interrupt `id` with IF read as `flag`: IME
    /// clear, the bit cleared in IF, PC pushed and PC at the vector.
    pub open spec fn serviced(self, id: u8, flag: u8) -> CpuView {
        let s = CpuView { ime: false, ..self };
        let s = s.with_mem(s.mem.write(INTERRUPT_FLAG, flag & (0xFF ^ (1u8 << id))));
        s.pushed(s.reg.pc).with_pc(vector_of(id))
    }

    /// The lowest set bit of `pending` among bits 0 to 4, if any.
    pub open spec fn first_pending(pending: u8) -> Option<u8> {
        if bit_set(pending, 0) {
            Some(0u8)
        } else if bit_set(pending, 1) {
            Some(1u8)
        } else if bit_set(pending, 2) {
            Some(2u8)
        } else if bit_set(pending, 3) {
            Some(3u8)
        } else if bit_set(pending, 4) {
            Some(4u8)
        } else {
            None
        }
    }

    /// The state after one interrupt-service call: a halted processor wakes
    /// on any pending enabled interrupt; with IME set and IF non-zero, the
    /// highest-priority pending enabled interrupt is serviced.
    pub open spec fn interrupts_serviced(self) -> CpuView {
        let flag = self.mem.read(INTERRUPT_FLAG);
        let enable = self.mem.read(INTERRUPT_ENABLE);
        let pending = flag & enable;
        let s = if self.status == Status::Halt && pending != 0 {
            CpuView { status: Status::Running, ..self }
        } else {
            self
        };
        if !s.ime || flag == 0 {
            s
        } else {
            match CpuView::first_pending(pending) {
                Some(id) => s.serviced(id, flag),
                None => s,
            }
        }
    }
}

/// Whether the instruction at the start of a tick jumped back to itself with
/// interrupts disabled, so that nothing can ever leave it.
pub open spec fn stuck(s: CpuView, op: u8, pc: u16, ime: bool) -> bool {
    !ime && pc == s.reg.pc && (op == 0x18 || op == 0xC3)
}

/// The state after one tick: a halted processor does nothing; otherwise the
/// opcode at PC is fetched and executed, PC advances, the boot ROM is
/// unmapped (and the post-boot register values stored) once PC reaches
/// 0x100, and an unconditional jump to itself with IME clear marks an
/// infinite loop.
#[verifier::opaque]
pub open spec fn ticked(s: CpuView) -> CpuView {
    if s.status == Status::Halt {
        s
    } else {
        let op = s.mem.read(s.reg.pc);
        let e = executed(CpuView { cycles: 0, opcode: op, ..s });
        let pc = e.reg.pc.wrapping_add_signed(e.advance_pc);
        let n = CpuView { advance_pc: 1, ..e.with_pc(pc) };
        let n = if n.mem.bootrom_mapped && pc >= 0x100 {
            n.with_mem(MemView { bootrom_mapped: false, ..n.mem }.post_boot())
        } else {
            n
        };
        if stuck(s, op, pc, n.ime) {
            CpuView { status: Status::InfiniteLoop, ..n }
        } else {
            n
        }
    }
}

/// Whether a byte written at `a` is stored as is and read back unchanged.
pub open spec fn plain_ram(a: u16) -> bool {
    a >= 0x8000 && !(0xFEA0 <= a < 0xFF00) && a != crate::mmu::JOYP && a != crate::mmu::DIV
        && a != crate::mmu::DMA
}

/// Popping right after a push returns the pushed word and restores SP,
/// wherever the two stack bytes are ordinary RAM.
pub proof fn lemma_push_pop_round_trip(s: CpuView, w: u16)
    requires
        s.wf(),
        plain_ram(s.reg.sp.wrapping_sub(1)),
        plain_ram(s.reg.sp.wrapping_sub(2)),
    ensures
        s.pushed(w).top() == w,
        s.pushed(w).popped().reg.sp == s.reg.sp,
        s.pushed(w).popped().reg == s.reg,
{
}

/// One interrupt-service call wakes a halted processor whenever an enabled
/// interrupt is pending, whether or not IME is set.
pub proof fn lemma_halt_wakes(s: CpuView)
    requires
        s.wf(),
        s.status == Status::Halt,
        s.mem.read(INTERRUPT_FLAG) & s.mem.read(INTERRUPT_ENABLE) != 0,
    ensures
        s.interrupts_serviced().status == Status::Running,
{
}

/// The processor: registers, memory, timer and instruction state.
pub struct Cpu {
    pub reg: Registers,
    pub mmu: Mmu,
    pub timer: Timer,
    pub status: Status,
    /// Opcode of the instruction being executed (the second byte after a 0xCB prefix).
    pub opcode: u8,
    /// Added to PC after the instruction; 0 where the instruction set PC itself.
    pub advance_pc: i16,
    /// Machine cycles the last instruction took.
    pub cycles: usize,
    pub cb_prefix: bool,
    /// Interrupt master enable.
    pub ime: bool,
    /// Number of illegal or unimplemented opcodes met so far.
    pub illegal_opcodes: usize,
}

impl View for Cpu {
    type V = CpuView;

    open spec fn view(&self) -> CpuView {
        CpuView {
            reg: self.reg,
            mem: self.mmu@,
            timer: self.timer,
            status: self.status,
            opcode: self.opcode,
            advance_pc: self.advance_pc,
            cycles: self.cycles,
            cb_prefix: self.cb_prefix,
            ime: self.ime,
            illegal_opcodes: self.illegal_opcodes,
        }
    }
}

impl Cpu {
    pub open spec fn wf(&self) -> bool {
        self.mmu.wf()
    }

    /// A processor at power-on with an empty cartridge and the boot ROM mapped.
    pub fn new() -> (r: Self)
        ensures
            r.wf(),
            r.reg == Registers::initial(),
            r.status == Status::Running,
            r.opcode == 0,
            r.advance_pc == 1,
            r.cycles == 0,
            !r.cb_prefix,
            r.ime,
            r.illegal_opcodes == 0,
            r.timer == Timer::initial(),
            r.mmu.bootrom_mapped,
            r.mmu.rom_bank == 1,
            r.mmu.cartridge.data@.len() == 0,
            forall|i: int| 0 <= i < crate::mmu::MEMORY_SIZE ==> r.mmu.memory@[i] == 0,
    {
        Cpu {
            reg: Registers::new(),
            mmu: Mmu::new(),
            timer: Timer::new(),
            status: Status::Running,
            opcode: 0x00,
            advance_pc: 1,
            cycles: 0,
            cb_prefix: false,
            ime: true,
            illegal_opcodes: 0,
        }
    }

    /// Registers back to their power-on values; PC starts at 0x100 when no
    /// boot ROM is mapped.
    pub fn reset(&mut self)
        requires
            old(self).wf(),
        ensures
            final(self)@ == (CpuView {
                reg: Registers {
                    pc: if old(self).mmu.bootrom_mapped { 0 } else { 0x100 },
                    ..Registers::initial()
                },
                opcode: 0,
                advance_pc: 1,
                cycles: 0,
                ..old(self)@
            }),
    {
        self.reg.reset();
        self.mmu.reset();
        if !self.mmu.bootrom_mapped {
            self.reg.pc = 0x100;
        }
        self.opcode = 0x00;
        self.advance_pc = 1;
        self.cycles = 0;
    }

    /// Executes one instruction (nothing while halted).
    #[verifier::rlimit(100)]
    pub fn tick(&mut self)
        requires
            old(self).wf(),
        ensures
            final(self).wf(),
            final(self)@ == ticked(old(self)@),
            final(self).timer == old(self).timer,
    {
        reveal(ticked);
        if self.status == Status::Halt {
            return;
        }
        let start = self.reg.pc;
        self.cycles = 0;
        let op = self.mmu.get(start);
        self.opcode = op;
        execute(self);
        let pc = self.reg.pc.wrapping_add_signed(self.advance_pc);
        self.reg.pc = pc;
        self.advance_pc = 1;
        if self.mmu.bootrom_mapped && pc >= 0x100 {
            self.mmu.bootrom_mapped = false;
            self.mmu.set_initial_state();
        }
        if !self.ime && pc == start && (op == 0x18 || op == 0xC3) {
            self.status = Status::InfiniteLoop;
        }
    }

    /// The byte `offset` bytes after PC.
    pub fn get_op(&self, offset: u16) -> (r: u8)
        requires
            self.wf(),
        ensures
            r == self@.byte_at(offset),
    {
        self.mmu.get(self.reg.pc.wrapping_add(offset))
    }

    /// The little-endian word that follows the opcode.
    pub fn get_d16(&self) -> (r: u16)
        requires
            self.wf(),
        ensures
            r == self@.imm16(),
    {
        word_from(self.get_op(2), self.get_op(1))
    }

    /// Reads the 8-bit operand that a 3-bit opcode field names.
    pub fn get_reg8_by_index(&self, index: u8) -> (r: u8)
        requires
            self.wf(),
            index < 8,
        ensures
            r == self@.operand(crate::registers::r8_of(index)),
    {
        self.get_reg8(R8::from_spec(index))
    }

    /// Reads a 16-bit register or pair.
    pub fn get_reg16(&self, reg: R16) -> (r: u16)
        ensures
            r == self@.pair(reg),
    {
        match reg {
            R16::AF => self.reg.af(),
            R16::BC => self.reg.bc(),
            R16::DE => self.reg.de(),
            R16::HL => self.reg.hl(),
            R16::SP => self.reg.sp,
            R16::PC => self.reg.pc,
        }
    }

    /// Loads a 16-bit register or pair.
    pub fn set_reg16(&mut self, reg: R16, word: u16)
        ensures
            final(self)@ == old(self)@.with_pair(reg, word),
    {
        match reg {
            R16::AF => self.reg.set_af(word),
            R16::BC => self.reg.set_bc(word),
            R16::DE => self.reg.set_de(word),
            R16::HL => self.reg.set_hl(word),
            R16::SP => self.reg.set_sp(word),
            R16::PC => self.reg.pc = word,
        }
    }

    /// Loads the pair that a 2-bit opcode field names.
    pub fn set_reg16_by_index(&mut self, index: u8, word: u16)
        requires
            index < 4,
        ensures
            final(self)@ == old(self)@.with_pair(crate::registers::r16_of(index), word),
    {
        self.set_reg16(R16::from_spec(index), word)
    }

    /// Reads an 8-bit operand.
    pub fn get_reg8(&self, reg: R8) -> (r: u8)
        requires
            self.wf(),
        ensures
            r == self@.operand(reg),
    {
        match reg {
            R8::A => self.reg.a,
            R8::B => self.reg.b,
            R8::C => self.reg.c,
            R8::D => self.reg.d,
            R8::E => self.reg.e,
            R8::H => self.reg.h,
            R8::L => self.reg.l,
            R8::HLRam => self.mmu.get(self.reg.hl()),
        }
    }

    /// Stores into an 8-bit operand; (HL) goes through the memory write path.
    pub fn set_reg8(&mut self, reg: R8, byte: u8)
        requires
            old(self).wf(),
        ensures
            final(self).wf(),
            final(self)@ == old(self)@.put(reg, byte),
    {
        match reg {
            R8::A => self.reg.a = byte,
            R8::B => self.reg.b = byte,
            R8::C => self.reg.c = byte,
            R8::D => self.reg.d = byte,
            R8::E => self.reg.e = byte,
            R8::H => self.reg.h = byte,
            R8::L => self.reg.l = byte,
            R8::HLRam => {
                let hl = self.reg.hl();
                self.mmu.set(hl, byte)
            },
        }
    }

    /// Records the instruction's PC advance and cycle cost.
    pub fn set_op_attrs(&mut self, advance_pc: i16, cycles: usize)
        ensures
            final(self)@ == (CpuView { advance_pc, cycles, ..old(self)@ }),
    {
        self.advance_pc = advance_pc;
        self.cycles = cycles;
    }

    /// Stores into the 8-bit operand that a 3-bit opcode field names.
    pub fn set_reg(&mut self, index: u8, value: u8)
        requires
            old(self).wf(),
            index < 8,
        ensures
            final(self).wf(),
            final(self)@ == old(self)@.put(crate::registers::r8_of(index), value),
    {
        self.set_reg8(R8::from_spec(index), value)
    }

    /// Pushes a word: high byte at SP-1, low byte at SP-2, then SP -= 2.
    pub fn push_word(&mut self, word: u16)
        requires
            old(self).wf(),
        ensures
            final(self).wf(),
            final(self)@ == old(self)@.pushed(word),
    {
        let (left, right) = bytes_from(word);
        let sp = self.reg.sp;
        self.mmu.set(sp.wrapping_sub(1), left);
        self.mmu.set(sp.wrapping_sub(2), right);
        self.reg.sp = sp.wrapping_sub(2);
    }

    /// Pops a word: low byte at SP, high byte at SP+1, then SP += 2.
    pub fn pop_word(&mut self) -> (r: u16)
        requires
            old(self).wf(),
        ensures
            final(self).wf(),
            r == old(self)@.top(),
            final(self)@ == old(self)@.popped(),
    {
        let sp = self.reg.sp;
        let left = self.mmu.get(sp.wrapping_add(1));
        let right = self.mmu.get(sp);
        self.reg.sp = sp.wrapping_add(2);
        word_from(left, right)
    }

    /// INC r: Z, N, H from the result; C kept.
    pub fn inc(&mut self, reg: R8)
        requires
            old(self).wf(),
        ensures
            final(self).wf(),
            final(self)@ == old(self)@.inc_applied(reg),
    {
        let val = self.get_reg8(reg);
        let h = Flags::half_carry_add_occurred(val, 1);
        let n = val.wrapping_add(1);
        self.reg.f.zero = n == 0;
        self.reg.f.sub = false;
        self.reg.f.half_carry = h;
        self.set_reg8(reg, n);
    }

    /// INC rr: no flag changes.
    pub fn inc_rr(&mut self, reg: R16)
        ensures
            final(self)@ == old(self)@.with_pair(reg, old(self)@.pair(reg).wrapping_add(1)),
    {
        let reg_val = self.get_reg16(reg);
        self.set_reg16(reg, reg_val.wrapping_add(1));
    }

    /// DEC r: Z, N, H from the result; C kept.
    pub fn dec(&mut self, reg: R8)
        requires
            old(self).wf(),
        ensures
            final(self).wf(),
            final(self)@ == old(self)@.dec_applied(reg),
    {
        let val = self.get_reg8(reg);
        let h = Flags::half_carry_sub_occurred(val, 1);
        let n = val.wrapping_sub(1);
        self.reg.f.zero = n == 0;
        self.reg.f.sub = true;
        self.reg.f.half_carry = h;
        self.set_reg8(reg, n);
    }

    /// DEC rr: no flag changes.
    pub fn dec_rr(&mut self, reg: R16)
        ensures
            final(self)@ == old(self)@.with_pair(reg, old(self)@.pair(reg).wrapping_sub(1)),
    {
        let reg_val = self.get_reg16(reg);
        self.set_reg16(reg, reg_val.wrapping_sub(1));
    }

    /// ADD A, byte.
    pub fn add(&mut self, byte: u8)
        ensures
            final(self)@ == old(self)@.alu_applied(0, byte),
    {
        let a = self.reg.a;
        let h = Flags::half_carry_add_occurred(a, byte);
        let sum = (a as u16) + (byte as u16);
        self.reg.a = a.wrapping_add(byte);
        self.reg.f.zero = self.reg.a == 0;
        self.reg.f.sub = false;
        self.reg.f.half_carry = h;
        self.reg.f.carry = sum > 0xFF;
    }

    /// ADC A, byte: adds the carry flag too.
    pub fn adc(&mut self, byte: u8)
        ensures
            final(self)@ == old(self)@.alu_applied(1, byte),
    {
        let a = self.reg.a;
        let cy: u16 = if self.reg.f.carry { 1 } else { 0 };
        let sum = (a as u16) + (byte as u16) + cy;
        let h = ((a & 0xf) as u16) + ((byte & 0xf) as u16) + cy >= 0x10;
        self.reg.a = (sum % 256) as u8;
        self.reg.f.zero = self.reg.a == 0;
        self.reg.f.sub = false;
        self.reg.f.half_carry = h;
        self.reg.f.carry = sum > 0xFF;
    }

    /// SUB A, byte.
    pub fn sub(&mut self, byte: u8)
        ensures
            final(self)@ == old(self)@.alu_applied(2, byte),
    {
        let a = self.reg.a;
        self.reg.f.compute_half_carry_sub(a, byte);
        self.reg.a = a.wrapping_sub(byte);
        self.reg.f.carry = a < byte;
        self.reg.f.sub = true;
        self.reg.f.zero = self.reg.a == 0;
    }

    /// ADD HL, word: N clear, H from bit 11, C from bit 15, Z kept.
    pub fn add_hl(&mut self, word: u16)
        ensures
            final(self)@ == old(self)@.add_hl_applied(word),
    {
        let hl = self.reg.hl();
        self.reg.f.compute_half_carry_add_u16(hl, word);
        let carry = (hl as u32) + (word as u32) > 0xFFFF;
        self.reg.set_hl(hl.wrapping_add(word));
        self.reg.f.carry = carry;
        self.reg.f.sub = false;
    }

    /// ADD SP, offset: Z and N clear; H and C from the unsigned addition of
    /// the offset byte to the low byte of SP.
    pub fn add_sp_s8(&mut self, byte: i8)
        ensures
            final(self)@ == old(self)@.add_sp_applied(
                (if byte < 0 { byte + 256 } else { byte as int }) as u8,
            ),
    {
        let unsigned: u8 = if byte < 0 {
            (byte as i16 + 256) as u8
        } else {
            byte as u8
        };
        let sp = self.reg.sp;
        let low = (sp % 256) as u8;
        self.reg.sp = sp.wrapping_add_signed(byte as i16);
        self.reg.f.zero = false;
        self.reg.f.sub = false;
        self.reg.f.half_carry = Flags::half_carry_add_occurred(low, unsigned);
        self.reg.f.carry = (low as u16) + (unsigned as u16) > 0xFF;
    }

    /// SBC A, byte: subtracts the carry flag too.
    pub fn sbc(&mut self, byte: u8)
        ensures
            final(self)@ == old(self)@.alu_applied(3, byte),
    {
        let a = self.reg.a;
        let cy: u16 = if self.reg.f.carry { 1 } else { 0 };
        let r = (((a as u16) + 512 - (byte as u16) - cy) % 256) as u8;
        self.reg.f.half_carry = ((a & 0xf) as u16) < ((byte & 0xf) as u16) + cy;
        self.reg.f.carry = (a as u16) < (byte as u16) + cy;
        self.reg.a = r;
        self.reg.f.sub = true;
        self.reg.f.zero = r == 0;
    }

    /// AND A, byte: H set, N and C clear.
    pub fn and(&mut self, byte: u8)
        ensures
            final(self)@ == old(self)@.alu_applied(4, byte),
    {
        self.reg.a = self.reg.a & byte;
        self.reg.f.clear();
        self.reg.f.zero = self.reg.a == 0;
        self.reg.f.half_carry = true;
    }

    /// XOR A, byte: only Z can be set.
    pub fn xor(&mut self, byte: u8)
        ensures
            final(self)@ == old(self)@.alu_applied(5, byte),
    {
        self.reg.a = self.reg.a ^ byte;
        self.reg.f.clear();
        self.reg.f.zero = self.reg.a == 0;
    }

    /// OR A, byte: only Z can be set.
    pub fn or(&mut self, byte: u8)
        ensures
            final(self)@ == old(self)@.alu_applied(6, byte),
    {
        self.reg.a = self.reg.a | byte;
        self.reg.f.clear();
        self.reg.f.zero = self.reg.a == 0;
    }

    /// CP A, byte: the flags of SUB, A kept.
    pub fn cp(&mut self, byte: u8)
        ensures
            final(self)@ == old(self)@.alu_applied(7, byte),
    {
        let a = self.reg.a;
        let h = Flags::half_carry_sub_occurred(a, byte);
        let result = a.wrapping_sub(byte);
        self.reg.f.zero = result == 0;
        self.reg.f.sub = true;
        self.reg.f.half_carry = h;
        self.reg.f.carry = a < byte;
    }

    /// Applies rotate/shift `kind` to an operand.
    pub(crate) fn shift(&mut self, kind: u8, reg: R8)
        requires
            old(self).wf(),
            kind < 8,
        ensures
            final(self).wf(),
            final(self)@ == old(self)@.shift_applied(kind, reg),
    {
        let val = self.get_reg8(reg);
        let cin: u8 = if self.reg.f.carry { 1 } else { 0 };
        let (r, c): (u8, bool) = if kind == 0 {
            ((val % 128) * 2 + val / 128, val >= 128)
        } else if kind == 1 {
            (val / 2 + (val % 2) * 128, val % 2 == 1)
        } else if kind == 2 {
            ((val % 128) * 2 + cin, val >= 128)
        } else if kind == 3 {
            (val / 2 + cin * 128, val % 2 == 1)
        } else if kind == 4 {
            ((val % 128) * 2, val >= 128)
        } else if kind == 5 {
            (val / 2 + (val / 128) * 128, val % 2 == 1)
        } else if kind == 6 {
            ((val % 16) * 16 + val / 16, false)
        } else {
            (val / 2, val % 2 == 1)
        };
        self.reg.f.set_from_bool(r == 0, false, false, c);
        self.set_reg8(reg, r);
    }

    /// RLC r: rotate left; C takes bit 7.
    pub fn rlc(&mut self, reg: R8)
        requires
            old(self).wf(),
        ensures
            final(self).wf(),
            final(self)@ == old(self)@.shift_applied(0, reg),
    {
        self.shift(0, reg)
    }

    /// RRC r: rotate right; C takes bit 0.
    pub fn rrc(&mut self, reg: R8)
        requires
            old(self).wf(),
        ensures
            final(self).wf(),
            final(self)@ == old(self)@.shift_applied(1, reg),
    {
        self.shift(1, reg)
    }

    /// RL r: rotate left through carry.
    pub fn rl(&mut self, reg: R8)
        requires
            old(self).wf(),
        ensures
            final(self).wf(),
            final(self)@ == old(self)@.shift_applied(2, reg),
    {
        self.shift(2, reg)
    }

    /// RR r: rotate right through carry.
    pub fn rr(&mut self, reg: R8)
        requires
            old(self).wf(),
        ensures
            final(self).wf(),
            final(self)@ == old(self)@.shift_applied(3, reg),
    {
        self.shift(3, reg)
    }

    /// SLA r: shift left; bit 0 becomes 0.
    pub fn sla(&mut self, reg: R8)
        requires
            old(self).wf(),
        ensures
            final(self).wf(),
            final(self)@ == old(self)@.shift_applied(4, reg),
    {
        self.shift(4, reg)
    }

    /// SRA r: shift right; bit 7 kept.
    pub fn sra(&mut self, reg: R8)
        requires
            old(self).wf(),
        ensures
            final(self).wf(),
            final(self)@ == old(self)@.shift_applied(5, reg),
    {
        self.shift(5, reg)
    }

    /// SWAP r: exchange the nibbles; only Z can be set.
    pub fn swap(&mut self, reg: R8)
        requires
            old(self).wf(),
        ensures
            final(self).wf(),
            final(self)@ == old(self)@.shift_applied(6, reg),
    {
        self.shift(6, reg)
    }

    /// SRL r: shift right; bit 7 becomes 0.
    pub fn srl(&mut self, reg: R8)
        requires
            old(self).wf(),
        ensures
            final(self).wf(),
            final(self)@ == old(self)@.shift_applied(7, reg),
    {
        self.shift(7, reg)
    }

    /// BIT n, r: Z set when the bit is clear; N clear, H set, C kept.
    pub fn bit(&mut self, index: u8, reg: R8)
        requires
            old(self).wf(),
            index < 8,
        ensures
            final(self)@ == old(self)@.with_flags(
                Flags {
                    zero: !bit_set(old(self)@.operand(reg), index),
                    sub: false,
                    half_carry: true,
                    ..old(self).reg.f
                },
            ),
    {
        let val = self.get_reg8(reg);
        self.reg.f.zero = !crate::check_bit(val, index);
        self.reg.f.sub = false;
        self.reg.f.half_carry = true;
    }

    /// RES n, r: clear a bit; no flag changes.
    pub fn res(&mut self, index: u8, reg: R8)
        requires
            old(self).wf(),
            index < 8,
        ensures
            final(self).wf(),
            final(self)@ == old(self)@.put(reg, old(self)@.operand(reg) & !(1u8 << index)),
    {
        let mut val = self.get_reg8(reg);
        crate::unset_bit(&mut val, index);
        self.set_reg8(reg, val);
    }

    /// SET n, r: set a bit; no flag changes.
    pub fn set(&mut self, index: u8, reg: R8)
        requires
            old(self).wf(),
            index < 8,
        ensures
            final(self).wf(),
            final(self)@ == old(self)@.put(reg, old(self)@.operand(reg) | (1u8 << index)),
    {
        let mut val = self.get_reg8(reg);
        crate::set_bit(&mut val, index);
        self.set_reg8(reg, val);
    }

    /// Stops executing until an interrupt is pending.
    pub fn halt(&mut self)
        ensures
            final(self)@ == (CpuView { status: Status::Halt, ..old(self)@ }),
    {
        self.status = Status::Halt;
    }

    /// Services interrupt `id` (0 to 4) with IF read as `interrupt_flag`.
    pub fn service_interrupt(&mut self, id: u8, interrupt_flag: u8)
        requires
            old(self).wf(),
            id < 5,
        ensures
            final(self).wf(),
            final(self)@ == old(self)@.serviced(id, interrupt_flag),
    {
        self.ime = false;
        let cleared = interrupt_flag & (0xFFu8 ^ (1u8 << id));
        self.mmu.set(INTERRUPT_FLAG, cleared);
        let pc = self.reg.pc;
        self.push_word(pc);
        self.reg.pc = 0x40 + 8 * (id as u16);
    }

    /// Wakes a halted processor on any pending enabled interrupt, then, with
    /// IME set, services the highest-priority pending enabled interrupt.
    pub fn service_interrupts(&mut self)
        requires
            old(self).wf(),
        ensures
            final(self).wf(),
            final(self)@ == old(self)@.interrupts_serviced(),
    {
        let interrupt_flag = self.mmu.get(INTERRUPT_FLAG);
        let interrupt_enable = self.mmu.get(INTERRUPT_ENABLE);
        let pending = interrupt_flag & interrupt_enable;
        if self.status == Status::Halt && pending != 0 {
            self.status = Status::Running;
        }
        if !self.ime || interrupt_flag == 0 {
            return;
        }
        let id: u8 = if crate::check_bit(pending, 0) {
            0
        } else if crate::check_bit(pending, 1) {
            1
        } else if crate::check_bit(pending, 2) {
            2
        } else if crate::check_bit(pending, 3) {
            3
        } else if crate::check_bit(pending, 4) {
            4
        } else {
            return;
        };
        self.service_interrupt(id, interrupt_flag);
    }
}

} // verus!
