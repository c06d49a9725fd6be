use metalboy::cartridge::Cartridge;
use metalboy::mmu::Mmu;

fn ram_mmu() -> Mmu {
    let mut mmu = Mmu::new();
    mmu.bootrom_mapped = false;
    mmu
}

#[test]
fn div_write_resets_divider() {
    let mut mmu = ram_mmu();
    mmu.memory[0x7F04] = 0x42;
    assert_eq!(mmu.get(0xFF04), 0x42);
    mmu.set(0xFF04, 0x99);
    assert_eq!(mmu.get(0xFF04), 0);
}

#[test]
fn dma_copies_into_oam() {
    let mut mmu = ram_mmu();
    for i in 0..0xA0u16 {
        mmu.set(0xC100 + i, (i as u8).wrapping_mul(3));
    }
    mmu.set(0xFF46, 0xC1);
    for i in 0..0xA0u16 {
        assert_eq!(mmu.get(0xFE00 + i), mmu.get(0xC100 + i));
    }
    assert_eq!(mmu.get(0xFE01), 3);
}

#[test]
fn echo_ram_aliases_work_ram() {
    let mut mmu = ram_mmu();
    mmu.set(0xE123, 0x77);
    assert_eq!(mmu.get(0xC123), 0x77);
    mmu.set(0xC456, 0x55);
    assert_eq!(mmu.get(0xE456), 0x55);
}

#[test]
fn unusable_region_reads_zero() {
    let mut mmu = ram_mmu();
    mmu.set(0xFEA5, 0x12);
    assert_eq!(mmu.get(0xFEA5), 0);
}

#[test]
fn joypad_write_keeps_button_lines() {
    let mut mmu = ram_mmu();
    mmu.set_joypad_buttons(0x0A);
    mmu.set(0xFF00, 0xF5);
    assert_eq!(mmu.get(0xFF00), 0xFA);
}

#[test]
fn rom_writes_are_ignored_without_mbc() {
    let mut mmu = ram_mmu();
    mmu.cartridge.data = vec![0x11; 0x8000];
    mmu.set(0x0100, 0x22);
    mmu.set(0x2000, 0x03);
    assert_eq!(mmu.get(0x0100), 0x11);
    assert_eq!(mmu.rom_bank, 1);
}

#[test]
fn mbc1_switches_rom_bank() {
    let mut data = vec![0u8; 0x4000 * 4];
    data[0x147] = 0x01;
    data[0x4000 * 2] = 0xB2;
    data[0x4000 * 3 + 5] = 0xB3;
    data[0x4000] = 0xB1;
    let mut mmu = ram_mmu();
    mmu.cartridge = Cartridge::from_bytes(data);
    assert_eq!(mmu.cartridge.mbc, 1);
    assert_eq!(mmu.get(0x4000), 0xB1);
    mmu.set(0x2000, 0x02);
    assert_eq!(mmu.get(0x4000), 0xB2);
    mmu.set(0x3FFF, 0xE3);
    assert_eq!(mmu.rom_bank, 3);
    assert_eq!(mmu.get(0x4005), 0xB3);
    mmu.set(0x2000, 0x00);
    assert_eq!(mmu.rom_bank, 1);
}

#[test]
fn reads_past_the_image_are_zero() {
    let mut mmu = ram_mmu();
    mmu.cartridge.data = vec![0x5A; 0x10];
    assert_eq!(mmu.get(0x000F), 0x5A);
    assert_eq!(mmu.get(0x0010), 0);
    assert_eq!(mmu.get(0x7FFF), 0);
}

#[test]
fn boot_rom_overlays_low_addresses() {
    let mut mmu = Mmu::new();
    mmu.cartridge.data = vec![0x44; 0x200];
    mmu.load_bootrom(&vec![0x31, 0xFE]);
    assert_eq!(mmu.get(0x0000), 0x31);
    assert_eq!(mmu.get(0x0001), 0xFE);
    assert_eq!(mmu.get(0x0002), 0x00);
    assert_eq!(mmu.get(0x0100), 0x44);
    mmu.bootrom_mapped = false;
    assert_eq!(mmu.get(0x0000), 0x44);
}

#[test]
fn request_interrupt_sets_flag_bit() {
    let mut mmu = ram_mmu();
    mmu.request_interrupt(2);
    mmu.request_interrupt(0);
    assert_eq!(mmu.get(0xFF0F), 0b101);
}

#[test]
fn initial_state_is_stored_verbatim() {
    let mut mmu = ram_mmu();
    mmu.set_initial_state();
    assert_eq!(mmu.get(0xFF00), 0xCF);
    assert_eq!(mmu.get(0xFF04), 0xAB);
    assert_eq!(mmu.get(0xFF07), 0xF8);
    assert_eq!(mmu.get(0xFF0F), 0xE1);
    assert_eq!(mmu.get(0xFF10), 0x80);
    assert_eq!(mmu.get(0xFF11), 0xBF);
    assert_eq!(mmu.get(0xFF40), 0x91);
    assert_eq!(mmu.get(0xFF41), 0x85);
    assert_eq!(mmu.get(0xFF47), 0xFC);
    assert_eq!(mmu.get(0xFF46), 0xFF);
    assert_eq!(mmu.get(0xFE00), 0x00);
}

#[test]
fn cartridge_header_selects_controller() {
    let mut data = vec![0u8; 0x150];
    for (id, kind) in [(0x00u8, 0u8), (0x01, 1), (0x02, 1), (0x03, 1), (0x05, 0), (0x13, 0)] {
        data[0x147] = id;
        assert_eq!(Cartridge::from_bytes(data.clone()).mbc, kind);
    }
    assert_eq!(Cartridge::from_bytes(vec![1, 2, 3]).mbc, 0);
    let cart = Cartridge::new();
    assert_eq!(cart.mbc, 0);
    assert_eq!(cart.read(5), 0);
}
