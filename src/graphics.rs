use vstd::prelude::*;
use crate::cpu::signed;
use crate::mmu::{MemView, Mmu};
use crate::{bit_set, check_bit};

verus! {

/// Clock cycles per scanline.
pub const SCANLINE_RESET: i32 = 456;
/// LCD control register (LCDC).
pub const LCD_CONTROL: u16 = 0xFF40;
pub const SCROLL_Y: u16 = 0xFF42;
pub const SCROLL_X: u16 = 0xFF43;
/// Current scanline (LY).
pub const LY: u16 = 0xFF44;
/// Background palette.
pub const BG_PALETTE: u16 = 0xFF47;
/// First of the two sprite palettes.
pub const OBJ_PALETTE: u16 = 0xFF48;
pub const WINDOW_Y: u16 = 0xFF4A;
pub const WINDOW_X: u16 = 0xFF4B;
/// Screen size in pixels.
pub const WIDTH: usize = 160;
pub const HEIGHT: usize = 144;
/// Number of entries in sprite attribute memory.
pub const SPRITES: u16 = 40;

/// A tile number as the tile-data addressing mode reads it.
pub enum TileNumber {
    Signed(i16),
    Unsigned(u16),
}

/// The RGB value of a shade.
pub open spec fn rgb(shade: u8) -> u32 {
    if shade == 0 {
        0x8BAC0F
    } else if shade == 1 {
        0x306230
    } else if shade == 2 {
        0x0F380F
    } else {
        0x000000
    }
}

/// The shade that `palette` gives colour index `n` (bits 2n+1 and 2n).
pub open spec fn shade_of(n: u8, palette: u8) -> u8 {
    ((if bit_set(palette, (2 * n + 1) as u8) { 2int } else { 0 }) + (if bit_set(palette, (2 * n) as u8) {
        1int
    } else {
        0
    })) as u8
}

/// The 2-bit colour index of pixel `bit` of a tile row held in `d1`, `d2`.
pub open spec fn colour_index(d1: u8, d2: u8, bit: u8) -> u8 {
    ((if bit_set(d2, bit) { 2int } else { 0 }) + (if bit_set(d1, bit) { 1int } else { 0 })) as u8
}

/// Whether the window covers column `col` of line `ly`.
pub open spec fn window_at(m: MemView, ly: u8, col: int) -> bool {
    bit_set(m.read(LCD_CONTROL), 5) && m.read(WINDOW_Y) <= ly && col >= m.read(WINDOW_X) - 7
}

/// Colour index of the background or window at column `col` of line `ly`.
pub open spec fn bg_index(m: MemView, ly: u8, col: int) -> u8 {
    let control = m.read(LCD_CONTROL);
    let window = window_at(m, ly, col);
    let map: int = if (window && bit_set(control, 6)) || (!window && bit_set(control, 3)) {
        0x9C00
    } else {
        0x9800
    };
    let y: int = if window {
        ly - m.read(WINDOW_Y)
    } else {
        (ly + m.read(SCROLL_Y)) % 256
    };
    let x: int = if window {
        col - (m.read(WINDOW_X) - 7)
    } else {
        (col + m.read(SCROLL_X)) % 256
    };
    let n = m.read((map + (y / 8) * 32 + x / 8) as u16);
    let tile: int = if bit_set(control, 4) {
        0x8000 + n * 16
    } else {
        0x8800 + (signed(n) + 128) * 16
    };
    let d1 = m.read((tile + (y % 8) * 2) as u16);
    let d2 = m.read((tile + (y % 8) * 2 + 1) as u16);
    colour_index(d1, d2, (7 - x % 8) as u8)
}

/// Colour that sprite `s` paints at column `col` of line `ly`, if any:
/// none where it does not cover the pixel or its colour index is 0.
pub open spec fn sprite_pixel(m: MemView, ly: u8, s: int, col: int) -> Option<u32> {
    let base = 0xFE00 + 4 * s;
    let y = m.read(base as u16) - 16;
    let x = m.read((base + 1) as u16) - 8;
    let tile = m.read((base + 2) as u16);
    let attr = m.read((base + 3) as u16);
    let height: int = if bit_set(m.read(LCD_CONTROL), 2) { 16 } else { 8 };
    if y <= ly < y + height && x <= col < x + 8 {
        let row = if bit_set(attr, 6) { height - 1 - (ly - y) } else { ly - y };
        let addr = 0x8000 + tile * 16 + row * 2;
        let d1 = m.read(addr as u16);
        let d2 = m.read((addr + 1) as u16);
        let bit: u8 = if bit_set(attr, 5) { (col - x) as u8 } else { (7 - (col - x)) as u8 };
        let index = colour_index(d1, d2, bit);
        let palette = m.read((OBJ_PALETTE + (if bit_set(attr, 4) { 1int } else { 0 })) as u16);
        if index == 0 {
            None
        } else {
            Some(rgb(shade_of(index, palette)))
        }
    } else {
        None
    }
}

/// Colour at column `col` of line `ly` after sprites `0..k` were painted
/// over `base`: later sprites cover earlier ones.
pub open spec fn painted(m: MemView, ly: u8, base: u32, k: int, col: int) -> u32
    decreases k,
{
    if k <= 0 {
        base
    } else {
        match sprite_pixel(m, ly, k - 1, col) {
            Some(c) => c,
            None => painted(m, ly, base, k - 1, col),
        }
    }
}

/// Index of pixel (x, y) in the framebuffer.
pub open spec fn at(x: int, y: int) -> int {
    x * HEIGHT + y
}

/// Framebuffer after the background and window of line `ly` were drawn.
pub open spec fn tiles_drawn(fb: Seq<u32>, m: MemView, ly: u8) -> Seq<u32> {
    Seq::new(
        fb.len(),
        |i: int|
            if i % (HEIGHT as int) == ly && 0 <= i / (HEIGHT as int) < WIDTH {
                rgb(shade_of(bg_index(m, ly, i / (HEIGHT as int)), m.read(BG_PALETTE)))
            } else {
                fb[i]
            },
    )
}

/// Framebuffer after the sprites of line `ly` were drawn.
pub open spec fn sprites_drawn(fb: Seq<u32>, m: MemView, ly: u8) -> Seq<u32> {
    Seq::new(
        fb.len(),
        |i: int|
            if i % (HEIGHT as int) == ly && 0 <= i / (HEIGHT as int) < WIDTH {
                painted(m, ly, fb[i], SPRITES as int, i / (HEIGHT as int))
            } else {
                fb[i]
            },
    )
}

/// Framebuffer after line `ly` was drawn: background and window when LCDC
/// bit 0 is set, then sprites when bit 1 is set.
pub open spec fn line_drawn(fb: Seq<u32>, m: MemView, ly: u8) -> Seq<u32> {
    let control = m.read(LCD_CONTROL);
    let t = if bit_set(control, 0) { tiles_drawn(fb, m, ly) } else { fb };
    if bit_set(control, 1) { sprites_drawn(t, m, ly) } else { t }
}

/// Each framebuffer index is the index of the pixel at its column and line.
proof fn lemma_index(j: int)
    requires
        0 <= j < WIDTH * HEIGHT,
    ensures
        j == at(j / (HEIGHT as int), j % (HEIGHT as int)),
        0 <= j / (HEIGHT as int) < WIDTH,
        0 <= j % (HEIGHT as int) < HEIGHT,
{
    vstd::arithmetic::div_mod::lemma_fundamental_div_mod(j, HEIGHT as int);
}

/// The index of a pixel gives back its column and line.
proof fn lemma_at(x: int, y: int)
    requires
        0 <= x < WIDTH,
        0 <= y < HEIGHT,
    ensures
        at(x, y) / (HEIGHT as int) == x,
        at(x, y) % (HEIGHT as int) == y,
        0 <= at(x, y) < WIDTH * HEIGHT,
{
    vstd::arithmetic::div_mod::lemma_fundamental_div_mod_converse(at(x, y), HEIGHT as int, x, y);
}

/// The signed value of a tile number or offset byte, widened.
fn signed_of(b: u8) -> (r: i16)
    ensures
        r == signed(b),
{
    if b >= 128 {
        (b as i16) - 256
    } else {
        b as i16
    }
}

/// Address of the first byte of a tile: unsigned numbers count from 0x8000,
/// signed ones from 0x8800 with a bias of 128.
fn tile_data_address(number: TileNumber) -> (r: u16)
    requires
        match number {
            TileNumber::Unsigned(n) => n < 256,
            TileNumber::Signed(n) => -128 <= n < 128,
        },
    ensures
        r == match number {
            TileNumber::Unsigned(n) => 0x8000 + n * 16,
            TileNumber::Signed(n) => 0x8800 + (n + 128) * 16,
        },
{
    match number {
        TileNumber::Unsigned(n) => 0x8000 + n * 16,
        TileNumber::Signed(n) => 0x8800 + ((n + 128) as u16) * 16,
    }
}

/// Colour index of pixel `bit` of a tile row.
fn colour_index_of(d1: u8, d2: u8, bit: u8) -> (r: u8)
    requires
        bit < 8,
    ensures
        r == colour_index(d1, d2, bit),
        r < 4,
{
    let high: u8 = if check_bit(d2, bit) { 2 } else { 0 };
    let low: u8 = if check_bit(d1, bit) { 1 } else { 0 };
    high + low
}

/// RAM after a scanline ends on line `ly`: V-Blank is requested on line
/// 144, and LY moves to the next line, wrapping to line 1 past line 153.
pub open spec fn line_end_memory(memory: Seq<u8>, ly: u8) -> Seq<u8> {
    let m = if ly == 144 {
        memory.update(0x7F0F, memory[0x7F0F] | (1u8 << 0u8))
    } else {
        memory
    };
    m.update(0x7F44, if ly > 153 { 1u8 } else { (ly + 1) as u8 })
}

/// Whether `cycles` more clock cycles end the current scanline.
pub open spec fn line_ends(count: i32, m: MemView, cycles: usize) -> bool {
    bit_set(m.read(LCD_CONTROL), 7) && cycles >= count
}

/// Framebuffer after `cycles` more clock cycles: a visible line is drawn
/// when its scanline ends.
pub open spec fn fb_after(fb: Seq<u32>, count: i32, m: MemView, cycles: usize) -> Seq<u32> {
    if line_ends(count, m, cycles) && m.read(LY) < HEIGHT {
        line_drawn(fb, m, m.read(LY))
    } else {
        fb
    }
}

/// Scanline clock after `cycles` more clock cycles; it only runs while the
/// display is on (LCDC bit 7).
pub open spec fn count_after(count: i32, m: MemView, cycles: usize) -> i32 {
    if !bit_set(m.read(LCD_CONTROL), 7) {
        count
    } else if cycles < count {
        (count - cycles) as i32
    } else {
        SCANLINE_RESET
    }
}

/// Memory after `cycles` more clock cycles of the pixel pipeline.
pub open spec fn mem_after(count: i32, m: MemView, cycles: usize) -> MemView {
    if line_ends(count, m, cycles) {
        m.with_memory(line_end_memory(m.memory, m.read(LY)))
    } else {
        m
    }
}

/// The pixel pipeline: a 160x144 framebuffer and the scanline clock.
pub struct Graphics {
    /// Pixel (x, y) is at `fb[x * 144 + y]`.
    pub fb: Vec<u32>,
    pub scanline_count: i32,
}

impl Graphics {
    pub open spec fn wf(&self) -> bool {
        &&& self.fb@.len() == WIDTH * HEIGHT
        &&& 0 < self.scanline_count <= SCANLINE_RESET
    }

    /// A white screen at the start of a scanline.
    pub fn new() -> (r: Self)
        ensures
            r.wf(),
            r.scanline_count == SCANLINE_RESET,
            forall|i: int| 0 <= i < WIDTH * HEIGHT ==> r.fb@[i] == 0xFFFFFF,
    {
        Graphics { fb: vec![0xFFFFFFu32; WIDTH * HEIGHT], scanline_count: SCANLINE_RESET }
    }

    /// The pixel at column `x`, line `y`.
    pub fn pixel(&self, x: usize, y: usize) -> (r: u32)
        requires
            self.wf(),
            x < WIDTH,
            y < HEIGHT,
        ensures
            r == self.fb@[at(x as int, y as int)],
    {
        self.fb[x * HEIGHT + y]
    }

    /// Whether LCDC bit 7 turns the display on.
    pub fn lcd_enabled(&self, mmu: &Mmu) -> (r: bool)
        requires
            mmu.wf(),
        ensures
            r == bit_set(mmu@.read(LCD_CONTROL), 7),
    {
        check_bit(mmu.get(LCD_CONTROL), 7)
    }

    /// Draws line `ly` of the background and window.
    #[verifier::rlimit(50)]
    pub fn render_tiles(&mut self, mmu: &Mmu)
        requires
            old(self).wf(),
            mmu.wf(),
            mmu@.read(LY) < HEIGHT,
        ensures
            final(self).wf(),
            final(self).scanline_count == old(self).scanline_count,
            final(self).fb@ == tiles_drawn(old(self).fb@, mmu@, mmu@.read(LY)),
    {
        let control = mmu.get(LCD_CONTROL);
        let scroll_y = mmu.get(SCROLL_Y);
        let scroll_x = mmu.get(SCROLL_X);
        let window_y = mmu.get(WINDOW_Y);
        let window_x = mmu.get(WINDOW_X);
        let ly = mmu.get(LY);
        let palette = mmu.get(BG_PALETTE);
        let unsigned = check_bit(control, 4);
        let window_on = check_bit(control, 5);
        let window_map = check_bit(control, 6);
        let bg_map = check_bit(control, 3);
        let ghost m = mmu@;
        let ghost old_fb = self.fb@;
        let mut i: usize = 0;
        while i < WIDTH
            invariant
                self.wf(),
                i <= WIDTH,
                ly < HEIGHT,
                mmu@ == m,
                mmu.wf(),
                old_fb.len() == WIDTH * HEIGHT,
                ly == m.read(LY),
                control == m.read(LCD_CONTROL),
                scroll_y == m.read(SCROLL_Y),
                scroll_x == m.read(SCROLL_X),
                window_y == m.read(WINDOW_Y),
                window_x == m.read(WINDOW_X),
                palette == m.read(BG_PALETTE),
                unsigned == bit_set(control, 4),
                window_on == bit_set(control, 5),
                window_map == bit_set(control, 6),
                bg_map == bit_set(control, 3),
                self.scanline_count == old(self).scanline_count,
                forall|c: int|
                    0 <= c < WIDTH ==> self.fb@[at(c, ly as int)] == (if c < i {
                        rgb(shade_of(bg_index(m, ly, c), palette))
                    } else {
                        old_fb[at(c, ly as int)]
                    }),
                forall|j: int|
                    0 <= j < WIDTH * HEIGHT && j % (HEIGHT as int) != ly ==> self.fb@[j] == old_fb[j],
            decreases WIDTH - i,
        {
            let window = window_on && window_y <= ly && (i as i32) >= (window_x as i32) - 7;
            let map: u16 = if (window && window_map) || (!window && bg_map) {
                0x9C00
            } else {
                0x9800
            };
            let y: u8 = if window {
                ly - window_y
            } else {
                ly.wrapping_add(scroll_y)
            };
            let x: u8 = if window {
                ((i as i32) - ((window_x as i32) - 7)) as u8
            } else {
                (i as u8).wrapping_add(scroll_x)
            };
            let n = mmu.get(map + (y / 8) as u16 * 32 + (x / 8) as u16);
            let number = if unsigned {
                TileNumber::Unsigned(n as u16)
            } else {
                TileNumber::Signed(signed_of(n))
            };
            let tile = tile_data_address(number);
            let row = ((y % 8) as u16) * 2;
            let d1 = mmu.get(tile + row);
            let d2 = mmu.get(tile + row + 1);
            let index = colour_index_of(d1, d2, 7 - x % 8);
            let colour = self.get_colour(index, palette);
            proof {
                lemma_at(i as int, ly as int);
                assert forall|c: int| 0 <= c < WIDTH && c != i implies at(c, ly as int) != at(i as int, ly as int) by {}
            }
            self.fb.set(i * HEIGHT + ly as usize, colour);
            i = i + 1;
        }
        proof {
            assert forall|j: int| 0 <= j < self.fb@.len() implies self.fb@[j] == tiles_drawn(old_fb, m, ly)[j] by {
                lemma_index(j);
            }
        }
        assert(self.fb@ =~= tiles_drawn(old_fb, m, ly));
    }

    /// Advances the scanline clock by `cycles` clock cycles while the display
    /// is on. When a scanline ends, the clock restarts, V-Blank is requested
    /// on line 144, a visible line is drawn, and LY moves on (wrapping past
    /// line 153).
    pub fn update(&mut self, mmu: &mut Mmu, cycles: usize)
        requires
            old(self).wf(),
            old(mmu).wf(),
        ensures
            final(self).wf(),
            final(mmu).wf(),
            final(self).fb@ == fb_after(old(self).fb@, old(self).scanline_count, old(mmu)@, cycles),
            final(self).scanline_count == count_after(old(self).scanline_count, old(mmu)@, cycles),
            final(mmu)@ == mem_after(old(self).scanline_count, old(mmu)@, cycles),
    {
        if !self.lcd_enabled(mmu) {
            return;
        }
        if cycles < self.scanline_count as usize {
            self.scanline_count = self.scanline_count - cycles as i32;
            return;
        }
        self.scanline_count = SCANLINE_RESET;
        let ghost m = mmu@;
        let current_line = mmu.get(LY);
        if current_line == 144 {
            mmu.request_interrupt(0);
        } else if current_line > 153 {
            mmu.set(LY, 0);
        } else if current_line < 144 {
            self.draw_scanline(mmu);
        }
        let now = mmu.get(LY);
        mmu.set(LY, now + 1);
        assert(mmu@.memory =~= line_end_memory(m.memory, current_line));
    }

    /// Paints sprite `s` over line `ly`.
    fn render_sprite(&mut self, mmu: &Mmu, ly: u8, s: u16)
        requires
            old(self).wf(),
            mmu.wf(),
            ly < HEIGHT,
            ly == mmu@.read(LY),
            s < SPRITES,
        ensures
            final(self).wf(),
            final(self).scanline_count == old(self).scanline_count,
            forall|c: int|
                0 <= c < WIDTH ==> final(self).fb@[at(c, ly as int)] == (match sprite_pixel(
                    mmu@,
                    ly,
                    s as int,
                    c,
                ) {
                    Some(colour) => colour,
                    None => old(self).fb@[at(c, ly as int)],
                }),
            forall|j: int|
                0 <= j < WIDTH * HEIGHT && j % (HEIGHT as int) != ly ==> final(self).fb@[j]
                    == old(self).fb@[j],
    {
        let control = mmu.get(LCD_CONTROL);
        let height: i32 = if check_bit(control, 2) { 16 } else { 8 };
        let base: u16 = 0xFE00 + s * 4;
        let y: i32 = (mmu.get(base) as i32) - 16;
        let x: i32 = (mmu.get(base + 1) as i32) - 8;
        let tile = mmu.get(base + 2);
        let attributes = mmu.get(base + 3);
        let line = ly as i32;
        if !(y <= line && line < y + height) {
            return;
        }
        let row: i32 = if check_bit(attributes, 6) { height - 1 - (line - y) } else { line - y };
        let address: u16 = (0x8000 + (tile as i32) * 16 + row * 2) as u16;
        let data_1 = mmu.get(address);
        let data_2 = mmu.get(address + 1);
        let x_flip = check_bit(attributes, 5);
        let palette = mmu.get(OBJ_PALETTE + (if check_bit(attributes, 4) { 1u16 } else { 0u16 }));
        let ghost old_fb = self.fb@;
        let ghost m = mmu@;
        let mut j: i32 = 0;
        while j < 8
            invariant
                self.wf(),
                0 <= j <= 8,
                ly < HEIGHT,
                old_fb.len() == WIDTH * HEIGHT,
                mmu@ == m,
                self.scanline_count == old(self).scanline_count,
                y == m.read(base) - 16,
                x == m.read((base + 1) as u16) - 8,
                base == 0xFE00 + 4 * s,
                tile == m.read((base + 2) as u16),
                attributes == m.read((base + 3) as u16),
                height == (if bit_set(m.read(LCD_CONTROL), 2) { 16int } else { 8 }),
                y <= ly < y + height,
                row == (if bit_set(attributes, 6) { height - 1 - (ly - y) } else { ly - y }),
                address == 0x8000 + tile * 16 + row * 2,
                data_1 == m.read(address),
                data_2 == m.read((address + 1) as u16),
                x_flip == bit_set(attributes, 5),
                palette == m.read((OBJ_PALETTE + (if bit_set(attributes, 4) { 1int } else { 0 })) as u16),
                forall|c: int|
                    0 <= c < WIDTH ==> self.fb@[at(c, ly as int)] == (if c < x + j {
                        match sprite_pixel(m, ly, s as int, c) {
                            Some(colour) => colour,
                            None => old_fb[at(c, ly as int)],
                        }
                    } else {
                        old_fb[at(c, ly as int)]
                    }),
                forall|i: int|
                    0 <= i < WIDTH * HEIGHT && i % (HEIGHT as int) != ly ==> self.fb@[i] == old_fb[i],
            decreases 8 - j,
        {
            let column = x + j;
            let bit: u8 = if x_flip { j as u8 } else { (7 - j) as u8 };
            let index = colour_index_of(data_1, data_2, bit);
            if 0 <= column && column < WIDTH as i32 && index != 0 {
                let colour = self.get_colour(index, palette);
                proof {
                    lemma_at(column as int, ly as int);
                    assert forall|c: int| 0 <= c < WIDTH && c != column implies at(c, ly as int) != at(column as int, ly as int) by {}
                }
                self.fb.set((column as usize) * HEIGHT + ly as usize, colour);
            }
            j = j + 1;
        }
    }

    /// Paints the sprites over line `ly` in attribute-table order, so that a
    /// later sprite covers an earlier one; colour index 0 is transparent.
    pub fn render_sprites(&mut self, mmu: &Mmu)
        requires
            old(self).wf(),
            mmu.wf(),
            mmu@.read(LY) < HEIGHT,
        ensures
            final(self).wf(),
            final(self).scanline_count == old(self).scanline_count,
            final(self).fb@ == sprites_drawn(old(self).fb@, mmu@, mmu@.read(LY)),
    {
        let ly = mmu.get(LY);
        let ghost m = mmu@;
        let ghost old_fb = self.fb@;
        let mut s: u16 = 0;
        while s < SPRITES
            invariant
                self.wf(),
                mmu.wf(),
                s <= SPRITES,
                ly < HEIGHT,
                ly == m.read(LY),
                mmu@ == m,
                old_fb.len() == WIDTH * HEIGHT,
                self.scanline_count == old(self).scanline_count,
                forall|c: int|
                    0 <= c < WIDTH ==> self.fb@[at(c, ly as int)] == painted(
                        m,
                        ly,
                        old_fb[at(c, ly as int)],
                        s as int,
                        c,
                    ),
                forall|j: int|
                    0 <= j < WIDTH * HEIGHT && j % (HEIGHT as int) != ly ==> self.fb@[j] == old_fb[j],
            decreases SPRITES - s,
        {
            self.render_sprite(mmu, ly, s);
            s = s + 1;
        }
        proof {
            assert forall|j: int| 0 <= j < self.fb@.len() implies self.fb@[j] == sprites_drawn(old_fb, m, ly)[j] by {
                lemma_index(j);
            }
        }
        assert(self.fb@ =~= sprites_drawn(old_fb, m, ly));
    }

    /// Draws line LY: background and window when LCDC bit 0 is set, then
    /// sprites when bit 1 is set.
    pub fn draw_scanline(&mut self, mmu: &Mmu)
        requires
            old(self).wf(),
            mmu.wf(),
            mmu@.read(LY) < HEIGHT,
        ensures
            final(self).wf(),
            final(self).scanline_count == old(self).scanline_count,
            final(self).fb@ == line_drawn(old(self).fb@, mmu@, mmu@.read(LY)),
    {
        let control = mmu.get(LCD_CONTROL);
        if check_bit(control, 0) {
            self.render_tiles(mmu);
        }
        if check_bit(control, 1) {
            self.render_sprites(mmu);
        }
    }

    /// The RGB value that `palette` gives colour index `colour_no`.
    pub fn get_colour(&self, colour_no: u8, palette: u8) -> (r: u32)
        requires
            colour_no < 4,
        ensures
            r == rgb(shade_of(colour_no, palette)),
    {
        let left: u8 = if check_bit(palette, colour_no * 2 + 1) { 2 } else { 0 };
        let right: u8 = if check_bit(palette, colour_no * 2) { 1 } else { 0 };
        let colour = left + right;
        if colour == 0 {
            0x8bac0f
        } else if colour == 1 {
            0x306230
        } else if colour == 2 {
            0x0f380f
        } else {
            0x000000
        }
    }
}

} // verus!
