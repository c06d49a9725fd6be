use metalboy::graphics::Graphics;
use metalboy::joypad::{Button, Joypad};
use metalboy::mmu::Mmu;
use metalboy::cpu::Cpu;
use metalboy::system::{step, System};
use metalboy::timer::Timer;

fn ram_mmu() -> Mmu {
    let mut mmu = Mmu::new();
    mmu.bootrom_mapped = false;
    mmu
}

#[test]
fn divider_counts_every_256_cycles() {
    let mut mmu = ram_mmu();
    let mut timer = Timer::new();
    timer.update(&mut mmu, 255);
    assert_eq!(mmu.get(0xFF04), 0);
    timer.update(&mut mmu, 1);
    assert_eq!(mmu.get(0xFF04), 1);
    timer.update(&mut mmu, 512);
    assert_eq!(mmu.get(0xFF04), 3);
}

#[test]
fn timer_counter_follows_tac_rate() {
    let mut mmu = ram_mmu();
    let mut timer = Timer::new();
    mmu.set(0xFF07, 0b101);
    timer.update(&mut mmu, 15);
    assert_eq!(mmu.get(0xFF05), 0);
    timer.update(&mut mmu, 1);
    assert_eq!(mmu.get(0xFF05), 1);
    timer.update(&mut mmu, 64);
    assert_eq!(mmu.get(0xFF05), 5);
    mmu.set(0xFF07, 0b001);
    timer.update(&mut mmu, 64);
    assert_eq!(mmu.get(0xFF05), 5);
}

#[test]
fn timer_overflow_reloads_and_requests_interrupt() {
    let mut mmu = ram_mmu();
    let mut timer = Timer::new();
    mmu.set(0xFF07, 0b100);
    mmu.set(0xFF05, 0xFF);
    mmu.set(0xFF06, 0x42);
    timer.update(&mut mmu, 1024);
    assert_eq!(mmu.get(0xFF05), 0x42);
    assert_eq!(mmu.get(0xFF0F) & 0b100, 0b100);
}

#[test]
fn timer_frequencies() {
    let timer = Timer::new();
    assert_eq!(timer.tac_frequency(0b00), 4096);
    assert_eq!(timer.tac_frequency(0b01), 262144);
    assert_eq!(timer.tac_frequency(0b10), 65536);
    assert_eq!(timer.tac_frequency(0b11), 16384);
    assert!(timer.tac_enabled(0b100));
    assert!(!timer.tac_enabled(0b011));
}

#[test]
fn palette_maps_to_green_scale() {
    let graphics = Graphics::new();
    assert_eq!(graphics.get_colour(0, 0b11100100), 0x8BAC0F);
    assert_eq!(graphics.get_colour(1, 0b11100100), 0x306230);
    assert_eq!(graphics.get_colour(2, 0b11100100), 0x0F380F);
    assert_eq!(graphics.get_colour(3, 0b11100100), 0x000000);
    assert_eq!(graphics.get_colour(0, 0b00000011), 0x000000);
}

#[test]
fn scanline_clock_and_vblank() {
    let mut mmu = ram_mmu();
    let mut graphics = Graphics::new();
    graphics.update(&mut mmu, 1000);
    assert_eq!(mmu.get(0xFF44), 0);
    mmu.set(0xFF40, 0x80);
    graphics.update(&mut mmu, 400);
    assert_eq!(graphics.scanline_count, 56);
    assert_eq!(mmu.get(0xFF44), 0);
    graphics.update(&mut mmu, 56);
    assert_eq!(graphics.scanline_count, 456);
    assert_eq!(mmu.get(0xFF44), 1);
    mmu.set(0xFF44, 144);
    graphics.update(&mut mmu, 456);
    assert_eq!(mmu.get(0xFF44), 145);
    assert_eq!(mmu.get(0xFF0F) & 1, 1);
    mmu.set(0xFF44, 154);
    graphics.update(&mut mmu, 456);
    assert_eq!(mmu.get(0xFF44), 1);
}

#[test]
fn background_tile_is_drawn() {
    let mut mmu = ram_mmu();
    // LCD on, background on, unsigned tile data at 0x8000, map at 0x9800.
    mmu.set(0xFF40, 0b1001_0001);
    mmu.set(0xFF47, 0b11_10_01_00);
    // Tile 1, row 0: colour indices 3,2,1,0,0,0,0,0.
    mmu.set(0x8010, 0b1010_0000);
    mmu.set(0x8011, 0b1100_0000);
    mmu.set(0x9800, 1);
    let mut graphics = Graphics::new();
    graphics.update(&mut mmu, 456);
    assert_eq!(graphics.pixel(0, 0), 0x000000);
    assert_eq!(graphics.pixel(1, 0), 0x0F380F);
    assert_eq!(graphics.pixel(2, 0), 0x306230);
    assert_eq!(graphics.pixel(3, 0), 0x8BAC0F);
    assert_eq!(graphics.pixel(8, 0), 0x8BAC0F);
    assert_eq!(graphics.pixel(0, 1), 0xFFFFFF);
}

#[test]
fn sprite_is_drawn_over_background() {
    let mut mmu = ram_mmu();
    // LCD on, sprites on, background off.
    mmu.set(0xFF40, 0b1000_0010);
    mmu.set(0xFF48, 0b11_10_01_00);
    mmu.set(0x8020, 0b1000_0001);
    mmu.set(0x8021, 0b1000_0000);
    // Sprite 0 at screen (4, 0), tile 2.
    mmu.set(0xFE00, 16);
    mmu.set(0xFE01, 12);
    mmu.set(0xFE02, 2);
    mmu.set(0xFE03, 0);
    let mut graphics = Graphics::new();
    graphics.update(&mut mmu, 456);
    assert_eq!(graphics.pixel(4, 0), 0x000000);
    assert_eq!(graphics.pixel(5, 0), 0xFFFFFF);
    assert_eq!(graphics.pixel(11, 0), 0x306230);
}

#[test]
fn joypad_directions_pull_lines_low() {
    let mut mmu = ram_mmu();
    mmu.set(0xFF00, 0b0010_0000);
    Joypad::update(&mut mmu, &[Button::Right, Button::Up, Button::A]);
    assert_eq!(mmu.get(0xFF00) & 0x0F, 0b1010);
    assert_eq!(mmu.get(0xFF0F) & 0b1_0000, 0b1_0000);
}

#[test]
fn joypad_actions_pull_lines_low() {
    let mut mmu = ram_mmu();
    mmu.set(0xFF00, 0b0001_0000);
    Joypad::update(&mut mmu, &[Button::Start, Button::Left]);
    assert_eq!(mmu.get(0xFF00) & 0x0F, 0b0111);
}

#[test]
fn joypad_without_buttons_releases_lines() {
    let mut mmu = ram_mmu();
    mmu.set(0xFF00, 0b0000_0000);
    Joypad::update(&mut mmu, &[]);
    assert_eq!(mmu.get(0xFF00) & 0x0F, 0x0F);
    assert_eq!(mmu.get(0xFF0F), 0);
}

#[test]
fn system_starts_at_boot_rom() {
    let system = System::new();
    assert_eq!(system.cpu.reg.pc, 0);
    assert_eq!(system.cpu.reg.sp, 0xFFFE);
    let mut system = System::new();
    system.cpu.mmu.bootrom_mapped = false;
    system.reset();
    assert_eq!(system.cpu.reg.pc, 0x100);
}

#[test]
fn step_runs_timer_display_joypad_and_interrupts() {
    let mut cpu = Cpu::new();
    cpu.mmu.bootrom_mapped = false;
    cpu.mmu.cartridge.data = vec![0x00, 0x76];
    cpu.mmu.set(0xFF40, 0x80);
    cpu.mmu.set(0xFF00, 0b0010_0000);
    let mut graphics = Graphics::new();
    let clock = step(&mut cpu, &mut graphics, &[]);
    assert_eq!(clock, 4);
    assert_eq!(graphics.scanline_count, 452);
    assert_eq!(cpu.reg.pc, 1);
    // HALT, then one machine cycle per step while halted.
    step(&mut cpu, &mut graphics, &[]);
    assert_eq!(cpu.status, metalboy::cpu::Status::Halt);
    cpu.mmu.set(0xFFFF, 0b1_0000);
    let clock = step(&mut cpu, &mut graphics, &[Button::Down]);
    assert_eq!(clock, 4);
    assert_eq!(cpu.status, metalboy::cpu::Status::Running);
    assert_eq!(cpu.reg.pc, 0x60);
    assert_eq!(cpu.mmu.get(0xFF00) & 0x0F, 0b0111);
}
