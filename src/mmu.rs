use vstd::prelude::*;
use crate::cartridge::Cartridge;

verus! {

/// Joypad register: select lines in bits 5-4, button lines in bits 3-0.
pub const JOYP: u16 = 0xFF00;
/// Divider register.
pub const DIV: u16 = 0xFF04;
/// Pending-interrupt register (IF).
pub const INTERRUPT_FLAG: u16 = 0xFF0F;
/// Writing here starts a copy into sprite attribute memory.
pub const DMA: u16 = 0xFF46;
/// Interrupt-enable register (IE).
pub const INTERRUPT_ENABLE: u16 = 0xFFFF;

/// Size of the boot ROM image.
pub const BOOTROM_SIZE: usize = 0x100;
/// Size of the RAM behind 0x8000-0xFFFF.
pub const MEMORY_SIZE: usize = 0x8000;
/// Start of sprite attribute memory.
pub const OAM_START: u16 = 0xFE00;
/// Number of bytes a DMA copy moves.
pub const DMA_LENGTH: u16 = 0xA0;

/// The bank that a write to 0x2000-0x3FFF selects on MBC1: the low five
/// bits, with 0 read as 1.
pub open spec fn bank_of(v: u8) -> u8 {
    if v & 0x1F == 0 {
        1
    } else {
        v & 0x1F
    }
}

/// The register values that the boot program leaves behind, by address.
pub open spec fn post_boot_value(a: u16) -> Option<u8> {
    match a {
        0xFF00 => Some(0xCFu8),
        0xFF01 => Some(0x00u8),
        0xFF02 => Some(0x7Eu8),
        0xFF04 => Some(0xABu8),
        0xFF05 => Some(0x00u8),
        0xFF06 => Some(0x00u8),
        0xFF07 => Some(0xF8u8),
        0xFF0F => Some(0xE1u8),
        0xFF10 => Some(0x80u8),
        0xFF11 => Some(0xBFu8),
        0xFF12 => Some(0xF3u8),
        0xFF13 => Some(0xFFu8),
        0xFF14 => Some(0xBFu8),
        0xFF16 => Some(0x3Fu8),
        0xFF17 => Some(0x00u8),
        0xFF18 => Some(0xFFu8),
        0xFF19 => Some(0xBFu8),
        0xFF1A => Some(0x7Fu8),
        0xFF1B => Some(0xFFu8),
        0xFF1C => Some(0x9Fu8),
        0xFF1D => Some(0xFFu8),
        0xFF1E => Some(0xBFu8),
        0xFF20 => Some(0xFFu8),
        0xFF21 => Some(0x00u8),
        0xFF22 => Some(0x00u8),
        0xFF23 => Some(0xBFu8),
        0xFF24 => Some(0x77u8),
        0xFF25 => Some(0xF3u8),
        0xFF26 => Some(0xF1u8),
        0xFF40 => Some(0x91u8),
        0xFF41 => Some(0x85u8),
        0xFF42 => Some(0x00u8),
        0xFF43 => Some(0x00u8),
        0xFF44 => Some(0x00u8),
        0xFF45 => Some(0x00u8),
        0xFF46 => Some(0xFFu8),
        0xFF47 => Some(0xFCu8),
        0xFF4A => Some(0xFFu8),
        0xFF4B => Some(0xFFu8),
        0xFF4D => Some(0xFFu8),
        0xFF4F => Some(0xFFu8),
        0xFF51 => Some(0xFFu8),
        0xFF52 => Some(0xFFu8),
        0xFF53 => Some(0xFFu8),
        0xFF54 => Some(0xFFu8),
        0xFF55 => Some(0xFFu8),
        0xFF56 => Some(0xFFu8),
        0xFF68 => Some(0xFFu8),
        0xFF69 => Some(0xFFu8),
        0xFF6A => Some(0xFFu8),
        0xFF6B => Some(0xFFu8),
        0xFF70 => Some(0xFFu8),
        0xFFFF => Some(0x00u8),
        _ => None,
    }
}

/// What a memory map holds, as plain values.
pub ghost struct MemView {
    pub bootrom: Seq<u8>,
    pub bootrom_mapped: bool,
    pub cart: Seq<u8>,
    pub mbc: u8,
    pub memory: Seq<u8>,
    pub rom_bank: u8,
}

impl MemView {
    pub open spec fn wf(self) -> bool {
        &&& self.bootrom.len() == BOOTROM_SIZE
        &&& self.memory.len() == MEMORY_SIZE
        &&& 1 <= self.rom_bank < 32
    }

    /// The cartridge byte at offset `i`, or 0 past the end of the image.
    pub open spec fn cart_byte(self, i: int) -> u8 {
        if 0 <= i < self.cart.len() {
            self.cart[i]
        } else {
            0
        }
    }

    /// The byte that a read of `a` returns.
    pub open spec fn read(self, a: u16) -> u8 {
        if self.bootrom_mapped && a < 0x100 {
            self.bootrom[a as int]
        } else if a < 0x4000 {
            self.cart_byte(a as int)
        } else if a < 0x8000 {
            self.cart_byte(self.rom_bank * 0x4000 + (a - 0x4000))
        } else if 0xE000 <= a < 0xFE00 {
            self.memory[a - 0xA000]
        } else if 0xFEA0 <= a < 0xFF00 {
            0
        } else {
            self.memory[a - 0x8000]
        }
    }

    /// RAM after a DMA copy from page `v`: sprite attribute memory holds the
    /// 160 bytes read from `v * 0x100` on.
    pub open spec fn dma_result(self, v: u8) -> Seq<u8> {
        Seq::new(
            MEMORY_SIZE as nat,
            |i: int|
                if 0x7E00 <= i < 0x7EA0 {
                    self.read((v * 256 + (i - 0x7E00)) as u16)
                } else {
                    self.memory[i]
                },
        )
    }

    /// RAM after a write of `v` to `a`.
    pub open spec fn memory_after(self, a: u16, v: u8) -> Seq<u8> {
        if a < 0x8000 || (0xFEA0 <= a < 0xFF00) {
            self.memory
        } else if 0xE000 <= a < 0xFE00 {
            self.memory.update(a - 0xA000, v)
        } else if a == JOYP {
            self.memory.update(0x7F00, (v & 0xF0) | (self.memory[0x7F00] & 0x0F))
        } else if a == DIV {
            self.memory.update(0x7F04, 0)
        } else if a == DMA {
            self.dma_result(v)
        } else {
            self.memory.update(a - 0x8000, v)
        }
    }

    /// ROM bank after a write of `v` to `a`.
    pub open spec fn bank_after(self, a: u16, v: u8) -> u8 {
        if self.mbc == 1 && 0x2000 <= a < 0x4000 {
            bank_of(v)
        } else {
            self.rom_bank
        }
    }

    /// The memory map after a write of `v` to `a`.
    pub open spec fn write(self, a: u16, v: u8) -> MemView {
        MemView { memory: self.memory_after(a, v), rom_bank: self.bank_after(a, v), ..self }
    }

    /// The memory map with the boot program's register values stored as
    /// plain bytes.
    pub open spec fn post_boot(self) -> MemView {
        self.with_memory(
            Seq::new(
                MEMORY_SIZE as nat,
                |i: int|
                    match post_boot_value((i + 0x8000) as u16) {
                        Some(v) => v,
                        None => self.memory[i],
                    },
            ),
        )
    }

    /// The memory map with RAM replaced.
    pub open spec fn with_memory(self, memory: Seq<u8>) -> MemView {
        MemView { memory, ..self }
    }
}

/// The 64 KiB address space: cartridge ROM below 0x8000, RAM above it.
pub struct Mmu {
    /// The 256-byte boot program, overlaid on 0x0000-0x00FF while mapped.
    pub bootrom: Vec<u8>,
    pub bootrom_mapped: bool,
    pub cartridge: Cartridge,
    /// Backing store for 0x8000-0xFFFF; `memory[i]` holds address `0x8000 + i`.
    pub memory: Vec<u8>,
    /// ROM bank seen through 0x4000-0x7FFF.
    pub rom_bank: u8,
}

impl View for Mmu {
    type V = MemView;

    open spec fn view(&self) -> MemView {
        MemView {
            bootrom: self.bootrom@,
            bootrom_mapped: self.bootrom_mapped,
            cart: self.cartridge.data@,
            mbc: self.cartridge.mbc,
            memory: self.memory@,
            rom_bank: self.rom_bank,
        }
    }
}

impl Mmu {
    pub open spec fn wf(&self) -> bool {
        self@.wf()
    }

    /// A cleared address space with an empty cartridge and the boot ROM mapped.
    pub fn new() -> (r: Self)
        ensures
            r.wf(),
            r.bootrom_mapped,
            r.rom_bank == 1,
            r.cartridge.data@.len() == 0,
            r.cartridge.mbc == 0,
            forall|i: int| 0 <= i < BOOTROM_SIZE ==> r.bootrom@[i] == 0,
            forall|i: int| 0 <= i < MEMORY_SIZE ==> r.memory@[i] == 0,
    {
        let bootrom: Vec<u8> = vec![0u8; BOOTROM_SIZE];
        let memory: Vec<u8> = vec![0u8; MEMORY_SIZE];
        Mmu { bootrom, bootrom_mapped: true, cartridge: Cartridge::new(), memory, rom_bank: 1 }
    }

    /// Installs a boot ROM image; bytes past the first 256 are ignored and
    /// missing ones read as 0.
    pub fn load_bootrom(&mut self, image: &Vec<u8>)
        requires
            old(self).wf(),
        ensures
            final(self).wf(),
            final(self).bootrom_mapped == old(self).bootrom_mapped,
            final(self).cartridge == old(self).cartridge,
            final(self).memory == old(self).memory,
            final(self).rom_bank == old(self).rom_bank,
            forall|i: int|
                0 <= i < BOOTROM_SIZE ==> final(self).bootrom@[i] == (if i < image@.len() {
                    image@[i]
                } else {
                    0
                }),
    {
        let mut i: usize = 0;
        while i < BOOTROM_SIZE
            invariant
                self.wf(),
                i <= BOOTROM_SIZE,
                self.bootrom_mapped == old(self).bootrom_mapped,
                self.cartridge == old(self).cartridge,
                self.memory == old(self).memory,
                self.rom_bank == old(self).rom_bank,
                forall|j: int|
                    0 <= j < i ==> self.bootrom@[j] == (if j < image@.len() {
                        image@[j]
                    } else {
                        0
                    }),
            decreases BOOTROM_SIZE - i,
        {
            let b = if i < image.len() {
                image[i]
            } else {
                0
            };
            self.bootrom.set(i, b);
            i = i + 1;
        }
    }

    /// Resetting the processor leaves memory as it is.
    pub fn reset(&mut self)
        ensures
            *final(self) == *old(self),
    {
    }

    /// Reads the byte at `address`.
    pub fn get(&self, address: u16) -> (r: u8)
        requires
            self.wf(),
        ensures
            r == self@.read(address),
    {
        if self.bootrom_mapped && address < 0x100 {
            self.bootrom[address as usize]
        } else if address < 0x4000 {
            self.cartridge.read(address as usize)
        } else if address < 0x8000 {
            self.cartridge.read((self.rom_bank as usize) * 0x4000 + (address as usize - 0x4000))
        } else if 0xE000 <= address && address < 0xFE00 {
            self.memory[address as usize - 0xA000]
        } else if 0xFEA0 <= address && address < 0xFF00 {
            0
        } else {
            self.memory[address as usize - 0x8000]
        }
    }

    /// Writes `byte` to `address` with the side effects of the memory map:
    /// ROM and the unusable area ignore writes (but an MBC1 cartridge takes
    /// writes to 0x2000-0x3FFF as a bank number), echo RAM aliases work RAM,
    /// the joypad register keeps its low nibble, the divider resets and the
    /// DMA register starts a copy into sprite attribute memory.
    pub fn set(&mut self, address: u16, byte: u8)
        requires
            old(self).wf(),
        ensures
            final(self).wf(),
            final(self)@ == old(self)@.write(address, byte),
    {
        if address < 0x8000 {
            if self.cartridge.mbc == 1 && 0x2000 <= address && address < 0x4000 {
                let low = byte & 0x1F;
                self.rom_bank = if low == 0 {
                    1
                } else {
                    low
                };
                assert(byte & 0x1F < 32) by (bit_vector);
            }
        } else if 0xFEA0 <= address && address < 0xFF00 {
        } else if 0xE000 <= address && address < 0xFE00 {
            self.memory.set(address as usize - 0xA000, byte);
        } else if address == JOYP {
            let current = self.memory[0x7F00];
            self.memory.set(0x7F00, (byte & 0xF0) | (current & 0x0F));
        } else if address == DIV {
            self.memory.set(0x7F04, 0);
        } else if address == DMA {
            self.dma_transfer(byte);
        } else {
            self.memory.set(address as usize - 0x8000, byte);
        }
    }

    /// Stores the register values that the boot program leaves behind, as
    /// plain bytes: no write side effect (joypad mask, divider reset, DMA)
    /// takes place.
    pub fn set_initial_state(&mut self)
        requires
            old(self).wf(),
        ensures
            final(self).wf(),
            final(self)@ == old(self)@.post_boot(),
    {
        self.memory.set(0x7F00, 0xCF);
        self.memory.set(0x7F01, 0x00);
        self.memory.set(0x7F02, 0x7E);
        self.memory.set(0x7F04, 0xAB);
        self.memory.set(0x7F05, 0x00);
        self.memory.set(0x7F06, 0x00);
        self.memory.set(0x7F07, 0xF8);
        self.memory.set(0x7F0F, 0xE1);
        self.memory.set(0x7F10, 0x80);
        self.memory.set(0x7F11, 0xBF);
        self.memory.set(0x7F12, 0xF3);
        self.memory.set(0x7F13, 0xFF);
        self.memory.set(0x7F14, 0xBF);
        self.memory.set(0x7F16, 0x3F);
        self.memory.set(0x7F17, 0x00);
        self.memory.set(0x7F18, 0xFF);
        self.memory.set(0x7F19, 0xBF);
        self.memory.set(0x7F1A, 0x7F);
        self.memory.set(0x7F1B, 0xFF);
        self.memory.set(0x7F1C, 0x9F);
        self.memory.set(0x7F1D, 0xFF);
        self.memory.set(0x7F1E, 0xBF);
        self.memory.set(0x7F20, 0xFF);
        self.memory.set(0x7F21, 0x00);
        self.memory.set(0x7F22, 0x00);
        self.memory.set(0x7F23, 0xBF);
        self.memory.set(0x7F24, 0x77);
        self.memory.set(0x7F25, 0xF3);
        self.memory.set(0x7F26, 0xF1);
        self.memory.set(0x7F40, 0x91);
        self.memory.set(0x7F41, 0x85);
        self.memory.set(0x7F42, 0x00);
        self.memory.set(0x7F43, 0x00);
        self.memory.set(0x7F44, 0x00);
        self.memory.set(0x7F45, 0x00);
        self.memory.set(0x7F46, 0xFF);
        self.memory.set(0x7F47, 0xFC);
        self.memory.set(0x7F4A, 0xFF);
        self.memory.set(0x7F4B, 0xFF);
        self.memory.set(0x7F4D, 0xFF);
        self.memory.set(0x7F4F, 0xFF);
        self.memory.set(0x7F51, 0xFF);
        self.memory.set(0x7F52, 0xFF);
        self.memory.set(0x7F53, 0xFF);
        self.memory.set(0x7F54, 0xFF);
        self.memory.set(0x7F55, 0xFF);
        self.memory.set(0x7F56, 0xFF);
        self.memory.set(0x7F68, 0xFF);
        self.memory.set(0x7F69, 0xFF);
        self.memory.set(0x7F6A, 0xFF);
        self.memory.set(0x7F6B, 0xFF);
        self.memory.set(0x7F70, 0xFF);
        self.memory.set(0x7FFF, 0x00);
        assert(self.memory@ =~= old(self)@.post_boot().memory);
    }

    /// Copies the 160 bytes at `data * 0x100` into sprite attribute memory,
    /// reading through the normal read path.
    pub fn dma_transfer(&mut self, data: u8)
        requires
            old(self).wf(),
        ensures
            final(self).wf(),
            final(self)@ == old(self)@.with_memory(old(self)@.dma_result(data)),
    {
        let address: u16 = (data as u16) * 256;
        let mut i: u16 = 0;
        while i < DMA_LENGTH
            invariant
                self.wf(),
                i <= DMA_LENGTH,
                address == data * 256,
                old(self).wf(),
                self@ == old(self)@.with_memory(self.memory@),
                forall|j: int|
                    0 <= j < MEMORY_SIZE ==> self.memory@[j] == (if 0x7E00 <= j < 0x7E00 + i {
                        old(self)@.read((data * 256 + (j - 0x7E00)) as u16)
                    } else {
                        old(self).memory@[j]
                    }),
            decreases DMA_LENGTH - i,
        {
            assert(self@.read((address + i) as u16) == old(self)@.read((address + i) as u16));
            let b = self.get(address + i);
            self.memory.set(0x7E00 + i as usize, b);
            i = i + 1;
        }
        assert(self.memory@ =~= old(self)@.dma_result(data));
    }

    /// Marks interrupt `id` as pending by setting its bit in IF.
    pub fn request_interrupt(&mut self, id: u8)
        requires
            old(self).wf(),
            id < 8,
        ensures
            final(self).wf(),
            final(self)@ == old(self)@.with_memory(
                old(self)@.memory.update(0x7F0F, old(self)@.memory[0x7F0F] | (1u8 << id)),
            ),
    {
        let interrupt_flag = self.get(INTERRUPT_FLAG) | (1u8 << id);
        self.set(INTERRUPT_FLAG, interrupt_flag);
    }

    /// Drives the button lines (low nibble of the joypad register) without
    /// going through the write path, which would keep them.
    pub fn set_joypad_buttons(&mut self, byte: u8)
        requires
            old(self).wf(),
        ensures
            final(self).wf(),
            final(self)@ == old(self)@.with_memory(
                old(self)@.memory.update(0x7F00, (old(self)@.memory[0x7F00] & 0xF0) | (byte & 0x0F)),
            ),
    {
        let current = self.memory[0x7F00];
        self.memory.set(0x7F00, (current & 0xF0) | (byte & 0x0F));
    }
}

/// A write to the divider register resets it to 0, whatever the value.
pub proof fn lemma_div_write_resets(m: MemView, v: u8)
    requires
        m.wf(),
    ensures
        m.write(DIV, v).read(DIV) == 0,
{
}

/// After a write of `v` to the DMA register, sprite attribute memory holds
/// the 160 bytes that were at `v * 0x100` on.
pub proof fn lemma_dma_copies(m: MemView, v: u8)
    requires
        m.wf(),
    ensures
        forall|i: u16|
            i < DMA_LENGTH ==> #[trigger] m.write(DMA, v).read((OAM_START + i) as u16) == m.read(
                (v * 256 + i) as u16,
            ),
{
}

} // verus!
