use vstd::prelude::*;
use crate::cpu::{ticked, Cpu, CpuView, Status};
use crate::graphics::{count_after, fb_after, mem_after, Graphics};
use crate::joypad::{joypad_memory, Button, Joypad};
use crate::registers::Registers;

verus! {

/// Clock cycles that the last tick took: four per machine cycle (saturating),
/// and one machine cycle while halted so that the timer and the display
/// keep running.
pub open spec fn clock_of(s: CpuView) -> usize {
    if s.status == Status::Halt {
        4
    } else if s.cycles * 4 <= usize::MAX {
        (s.cycles * 4) as usize
    } else {
        usize::MAX
    }
}

/// Processor state after one driver step from `s`: a tick, the timer and
/// the pixel pipeline advanced by its clock cycles over memory `m`, the
/// joypad latch, then interrupt service. `count` is the scanline clock.
pub open spec fn stepped(s: CpuView, count: i32, pressed: Seq<Button>) -> CpuView {
    let t = ticked(s);
    let clock = clock_of(t);
    let m1 = t.mem.with_memory(t.timer.memory_after(t.mem.memory, clock));
    let timer = t.timer.advanced(clock, t.mem.memory[0x7F07]);
    let m2 = mem_after(count, m1, clock);
    let m3 = m2.with_memory(joypad_memory(m2.memory, pressed));
    CpuView { mem: m3, timer, ..t }.interrupts_serviced()
}

/// Memory that the pixel pipeline sees during the step from `s`.
pub open spec fn step_video_memory(s: CpuView) -> crate::mmu::MemView {
    let t = ticked(s);
    t.mem.with_memory(t.timer.memory_after(t.mem.memory, clock_of(t)))
}

/// One step of the driver: executes an instruction, advances the timer and
/// the pixel pipeline by the clock cycles it took, latches the buttons and
/// services interrupts. Returns the clock cycles.
pub fn step(cpu: &mut Cpu, graphics: &mut Graphics, pressed: &[Button]) -> (r: usize)
    requires
        old(cpu).wf(),
        old(cpu).timer.wf(),
        old(graphics).wf(),
    ensures
        final(cpu).wf(),
        final(cpu).timer.wf(),
        final(graphics).wf(),
        r == clock_of(ticked(old(cpu)@)),
        final(cpu)@ == stepped(old(cpu)@, old(graphics).scanline_count, pressed@),
        final(graphics).fb@ == fb_after(
            old(graphics).fb@,
            old(graphics).scanline_count,
            step_video_memory(old(cpu)@),
            r,
        ),
        final(graphics).scanline_count == count_after(
            old(graphics).scanline_count,
            step_video_memory(old(cpu)@),
            r,
        ),
{
    cpu.tick();
    let ghost t = cpu@;
    let clock = if cpu.status == Status::Halt {
        4
    } else {
        match cpu.cycles.checked_mul(4) {
            Some(c) => c,
            None => usize::MAX,
        }
    };
    assert(clock == clock_of(t));
    cpu.timer.update(&mut cpu.mmu, clock);
    let ghost m1 = cpu.mmu@;
    assert(m1 == step_video_memory(old(cpu)@));
    graphics.update(&mut cpu.mmu, clock);
    let ghost m2 = cpu.mmu@;
    assert(m2 == mem_after(old(graphics).scanline_count, m1, clock));
    Joypad::update(&mut cpu.mmu, pressed);
    assert(cpu@ == CpuView {
        mem: m2.with_memory(joypad_memory(m2.memory, pressed@)),
        timer: t.timer.advanced(clock, t.mem.memory[0x7F07]),
        ..t
    });
    cpu.service_interrupts();
    clock
}

/// The whole machine; everything else is reachable from its processor.
pub struct System {
    pub cpu: Cpu,
}

impl System {
    /// A machine at power-on, reset.
    pub fn new() -> (r: Self)
        ensures
            r.cpu.wf(),
            r.cpu.reg == Registers::initial(),
            r.cpu.status == Status::Running,
            r.cpu.mmu.bootrom_mapped,
            r.cpu.ime,
            r.cpu.advance_pc == 1,
            r.cpu.cycles == 0,
    {
        let mut system = System { cpu: Cpu::new() };
        system.reset();
        system
    }

    /// Resets the processor; PC starts at 0x100 when no boot ROM is mapped.
    pub fn reset(&mut self)
        requires
            old(self).cpu.wf(),
        ensures
            final(self).cpu.wf(),
            final(self).cpu@ == (CpuView {
                reg: Registers {
                    pc: if old(self).cpu.mmu.bootrom_mapped { 0 } else { 0x100 },
                    ..Registers::initial()
                },
                opcode: 0,
                advance_pc: 1,
                cycles: 0,
                ..old(self).cpu@
            }),
    {
        self.cpu.reset();
    }
}

} // verus!
