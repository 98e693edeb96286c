use vstd::prelude::*;
use super::bitops::{bit_is_set, bit_value, get_bit, palette_shade, shade, test_bit, with_bit_clear, with_bit_set};
use super::interrupt::{with_request, InterruptState, INT_LCD, INT_VBLANK};

verus! {

pub const SCREEN_WIDTH: u8 = 160;

pub const SCREEN_HEIGHT: u8 = 144;

pub const TILEDATA_START_ADDR: u16 = 0x8000;

pub const TILEDATA_END_ADDR: u16 = 0x97FF;

pub const TILEMAP_START_ADDR: u16 = 0x9800;

pub const TILEMAP_END_ADDR: u16 = 0x9FFF;

pub const OAM_START_ADDR: u16 = 0xFE00;

pub const OAM_END_ADDR: u16 = 0xFE9F;

pub const CYCLES_PER_SCANLINE: i32 = 456;

pub const LCDC: u16 = 0xFF40;

pub const STAT: u16 = 0xFF41;

pub const SCY: u16 = 0xFF42;

pub const SCX: u16 = 0xFF43;

pub const LY: u16 = 0xFF44;

pub const LYC: u16 = 0xFF45;

pub const DMA_TRANSFER: u16 = 0xFF46;

pub const BGP: u16 = 0xFF47;

pub const OBP0: u16 = 0xFF48;

pub const OBP1: u16 = 0xFF49;

pub const WY: u16 = 0xFF4A;

pub const WX: u16 = 0xFF4B;

pub const LCDC_PRIORITY: u8 = 0;

pub const LCDC_OBJ_ENABLE: u8 = 1;

pub const LCDC_OBJ_SIZE: u8 = 2;

pub const LCDC_BG_TILEMAP: u8 = 3;

pub const LCDC_BG_WIN_TILE: u8 = 4;

pub const LCDC_WIN_ENABLE: u8 = 5;

pub const LCDC_WIN_TILEMAP: u8 = 6;

pub const LCDC_PPU_ENABLE: u8 = 7;

pub const STAT_LYC_INT: u8 = 6;

pub const STAT_MODE2_INT: u8 = 5;

pub const STAT_MODE1_INT: u8 = 4;

pub const STAT_MODE0_INT: u8 = 3;

/// The bit of STAT that tells whether LY equals LYC.
pub const STAT_COINCIDENCE: u8 = 2;

/// T-cycles that an OAM transfer takes from the write that starts it.
pub const DMA_CYCLES: i32 = 640;

/// The four phases of a scanline. Their numbers in STAT are 2, 3, 0 and 1.
#[allow(non_camel_case_types)]
#[derive(Debug, Clone, Copy, PartialEq, Eq, Structural)]
pub enum PpuMode {
    OAM_SCAN,
    DRAW,
    HBLANK,
    VBLANK,
}

/// The pixel unit: video memory, sprite memory, the LCD registers, the
/// place in the frame, the OAM transfer engine and the picture.
#[derive(Debug)]
pub struct Ppu {
    pub frame_buffer: [u8; 23040],
    pub current_cycle: i32,
    pub window_line: u8,
    pub oam_buffer: Vec<usize>,
    pub mode: PpuMode,
    pub finish_frame: bool,
    pub dma_transfer: u8,
    pub dma_transfer_active: bool,
    pub dma_transfer_cycle: i32,
    pub ly: u8,
    pub vram: [u8; 0x2000],
    pub oam: [u8; 160],
    pub lcdc: u8,
    pub stat: u8,
    pub lyc: u8,
    pub scx: u8,
    pub scy: u8,
    pub wx: u8,
    pub wy: u8,
    pub bgp: u8,
    pub obp0: u8,
    pub obp1: u8,
}

/// The model of the pixel unit: the memories and the picture as sequences
/// of bytes, the sprite buffer as a sequence of offsets into sprite memory.
pub struct PpuView {
    pub frame_buffer: Seq<u8>,
    pub current_cycle: i32,
    pub window_line: u8,
    pub oam_buffer: Seq<usize>,
    pub mode: PpuMode,
    pub finish_frame: bool,
    pub dma_transfer: u8,
    pub dma_transfer_active: bool,
    pub dma_transfer_cycle: i32,
    pub ly: u8,
    pub vram: Seq<u8>,
    pub oam: Seq<u8>,
    pub lcdc: u8,
    pub stat: u8,
    pub lyc: u8,
    pub scx: u8,
    pub scy: u8,
    pub wx: u8,
    pub wy: u8,
    pub bgp: u8,
    pub obp0: u8,
    pub obp1: u8,
}

impl View for Ppu {
    type V = PpuView;

    open spec fn view(&self) -> PpuView {
        PpuView {
            frame_buffer: self.frame_buffer@,
            current_cycle: self.current_cycle,
            window_line: self.window_line,
            oam_buffer: self.oam_buffer@,
            mode: self.mode,
            finish_frame: self.finish_frame,
            dma_transfer: self.dma_transfer,
            dma_transfer_active: self.dma_transfer_active,
            dma_transfer_cycle: self.dma_transfer_cycle,
            ly: self.ly,
            vram: self.vram@,
            oam: self.oam@,
            lcdc: self.lcdc,
            stat: self.stat,
            lyc: self.lyc,
            scx: self.scx,
            scy: self.scy,
            wx: self.wx,
            wy: self.wy,
            bgp: self.bgp,
            obp0: self.obp0,
            obp1: self.obp1,
        }
    }
}

/// How many T-cycles a phase lasts; for V-blank, one of its ten lines.
pub open spec fn mode_duration(mode: PpuMode) -> int {
    match mode {
        PpuMode::OAM_SCAN => 80,
        PpuMode::DRAW => 172,
        PpuMode::HBLANK => 204,
        PpuMode::VBLANK => 456,
    }
}

/// The number by which STAT names a phase.
pub open spec fn mode_number(mode: PpuMode) -> u8 {
    match mode {
        PpuMode::OAM_SCAN => 2,
        PpuMode::DRAW => 3,
        PpuMode::HBLANK => 0,
        PpuMode::VBLANK => 1,
    }
}

/// STAT with its two low bits naming `mode` and the rest as it was.
pub open spec fn stat_with_mode(stat: u8, mode: PpuMode) -> u8 {
    (stat / 4 * 4 + mode_number(mode)) as u8
}

/// Whether the interrupt source `bit` of STAT is switched on. Only the
/// seven low bits of STAT exist.
pub open spec fn stat_enabled(stat: u8, bit: u8) -> bool {
    ((stat & 0x7F) >> bit) & 1 == 1
}

/// The power-on state: everything zero, the first line about to be scanned.
pub open spec fn ppu_reset() -> PpuView {
    PpuView {
        frame_buffer: Seq::new(23040, |i: int| 0u8),
        current_cycle: 0,
        window_line: 0,
        oam_buffer: Seq::empty(),
        mode: PpuMode::OAM_SCAN,
        finish_frame: false,
        dma_transfer: 0,
        dma_transfer_active: false,
        dma_transfer_cycle: 0,
        ly: 0,
        vram: Seq::new(0x2000, |i: int| 0u8),
        oam: Seq::new(160, |i: int| 0u8),
        lcdc: 0,
        stat: 0,
        lyc: 0,
        scx: 0,
        scy: 0,
        wx: 0,
        wy: 0,
        bgp: 0,
        obp0: 0,
        obp1: 0,
    }
}

impl PpuView {
    /// What holds of the unit at every moment: the memories have their
    /// sizes, every pixel is one of four shades, the sprite buffer holds at
    /// most ten offsets of whole entries, the line counter stays within the
    /// frame and agrees with the phase, and the transfer has not run past
    /// its deadline.
    pub open spec fn inv(self) -> bool {
        &&& self.frame_buffer.len() == 23040
        &&& self.vram.len() == 0x2000
        &&& self.oam.len() == 160
        &&& forall|i: int| 0 <= i < 23040 ==> #[trigger] self.frame_buffer[i] <= 3
        &&& self.oam_buffer.len() <= 10
        &&& forall|i: int| 0 <= i < self.oam_buffer.len() ==> #[trigger] self.oam_buffer[i] <= 156
        &&& self.ly <= 153
        &&& (self.mode == PpuMode::VBLANK <==> self.ly >= 144)
        &&& 0 <= self.dma_transfer_cycle < 640
    }

    /// What holds of the unit between any two operations: all of `inv`, and
    /// the phase has not run past its end.
    pub open spec fn wf(self) -> bool {
        &&& self.inv()
        &&& 0 <= self.current_cycle < mode_duration(self.mode)
    }

    pub open spec fn lcdc_bit(self, control: u8) -> bool {
        bit_is_set(self.lcdc, control)
    }

    /// The byte of video memory at the bus address `address`.
    pub open spec fn vram_at(self, address: int) -> u8 {
        self.vram[address - 0x8000]
    }

    /// Sprites are 16 lines tall when LCDC bit 2 is set, else 8.
    pub open spec fn sprite_height(self) -> int {
        if self.lcdc_bit(LCDC_OBJ_SIZE) {
            16
        } else {
            8
        }
    }

    /// Whether the sprite entry at offset `entry` of sprite memory lies on
    /// the current line: it is not parked at x = 0, and the line falls
    /// within its height.
    pub open spec fn sprite_on_line(self, entry: int) -> bool {
        let y = self.oam[entry];
        let x = self.oam[entry + 1];
        x > 0 && self.ly + 16 >= y && self.ly + 16 < y + self.sprite_height()
    }

    /// The sprites chosen among the first `count` entries, in the order of
    /// sprite memory: those on the line, until ten are chosen.
    pub open spec fn sprites_chosen(self, count: int) -> Seq<usize>
        decreases count,
    {
        if count <= 0 {
            Seq::empty()
        } else {
            let before = self.sprites_chosen(count - 1);
            let entry = (count - 1) * 4;
            if self.sprite_on_line(entry) && before.len() < 10 {
                before.push(entry as usize)
            } else {
                before
            }
        }
    }

    /// Whether the sprite at `a` is drawn before the one at `b`: the one
    /// further right goes first, and of two at the same x the one later in
    /// sprite memory. What is drawn later covers what was drawn before.
    pub open spec fn drawn_before(self, a: usize, b: usize) -> bool {
        let xa = self.oam[a + 1];
        let xb = self.oam[b + 1];
        xa > xb || (xa == xb && a > b)
    }

    /// Where `entry` goes into a buffer that is in drawing order: behind
    /// all that are drawn before it.
    pub open spec fn insert_position(self, buffer: Seq<usize>, entry: usize) -> int
        decreases buffer.len(),
    {
        if buffer.len() == 0 {
            0
        } else if self.drawn_before(buffer.last(), entry) {
            buffer.len() as int
        } else {
            self.insert_position(buffer.drop_last(), entry)
        }
    }

    /// The first `count` of `chosen`, put into drawing order.
    pub open spec fn in_drawing_order(self, chosen: Seq<usize>, count: int) -> Seq<usize>
        decreases count,
    {
        if count <= 0 {
            Seq::empty()
        } else {
            let before = self.in_drawing_order(chosen, count - 1);
            before.insert(self.insert_position(before, chosen[count - 1]), chosen[count - 1])
        }
    }

    /// The sprite buffer that a scan of sprite memory leaves.
    pub open spec fn scanned_sprites(self) -> Seq<usize> {
        let chosen = self.sprites_chosen(40);
        self.in_drawing_order(chosen, chosen.len() as int)
    }

    /// Sign-extended tile numbers count from 0x9000, plain ones from 0x8000:
    /// the bus address of the two bytes that hold line `line` of tile `tile`
    /// in the table that LCDC bit 4 selects.
    pub open spec fn tile_row_address(self, tile: int, line: int) -> int {
        if self.lcdc_bit(LCDC_BG_WIN_TILE) {
            0x8000 + tile * 16 + line * 2
        } else {
            0x9000 + (if tile < 128 { tile } else { tile - 256 }) * 16 + line * 2
        }
    }

    /// The colour number that the two bit planes at `address` and
    /// `address + 1` give at bit `bit`.
    pub open spec fn colour_at(self, address: int, bit: u8) -> u8 {
        (bit_value(self.vram_at(address + 1), bit) * 2 + bit_value(self.vram_at(address), bit)) as u8
    }

    /// Whether the window covers the pixel `x` of line `y`.
    pub open spec fn window_covers(self, x: int, y: int) -> bool {
        self.lcdc_bit(LCDC_WIN_ENABLE) && x + 7 >= self.wx && y >= self.wy
    }

    /// Whether the window covers any pixel of the current line.
    pub open spec fn window_on_line(self) -> bool {
        self.lcdc_bit(LCDC_WIN_ENABLE) && self.wx <= 166 && self.ly >= self.wy
    }

    /// The background's tile number, line within the tile and bit for the
    /// pixel `x` of line `y` under the scroll `scx`, `scy`.
    pub open spec fn background_tile(self, x: u8, y: u8, scx: u8, scy: u8) -> (u16, u16, u8) {
        let px = (scx + x) % 256;
        let py = (scy + y) % 256;
        let map: int = if self.lcdc_bit(LCDC_BG_TILEMAP) { 0x9C00 } else { 0x9800 };
        (self.vram_at(map + py / 8 * 32 + px / 8) as u16, (py % 8) as u16, (7 - px % 8) as u8)
    }

    /// The window's tile number, line within the tile and bit for the pixel
    /// `x` of line `y`, the window standing at `wx`, `wy`. The row of tiles
    /// goes by the count of window lines drawn, the line within the tile by
    /// the distance from the window's top.
    pub open spec fn window_tile(self, x: u8, y: u8, wx: u8, wy: u8) -> (u16, u16, u8) {
        let px = x + 7 - wx;
        let map: int = if self.lcdc_bit(LCDC_WIN_TILEMAP) { 0x9C00 } else { 0x9800 };
        (
            self.vram_at(map + px / 8 % 32 + self.window_line / 8 * 32) as u16,
            ((y - wy) % 8) as u16,
            (7 - px % 8) as u8,
        )
    }

    /// The colour number of the pixel `x` of the current line as fetched
    /// from the window, where it covers the pixel, else from the background.
    pub open spec fn fetched_colour(self, x: u8) -> u8 {
        let tile = if self.window_covers(x as int, self.ly as int) {
            self.window_tile(x, self.ly, self.wx, self.wy)
        } else {
            self.background_tile(x, self.ly, self.scx, self.scy)
        };
        self.colour_at(self.tile_row_address(tile.0 as int, tile.1 as int), tile.2)
    }

    /// The colour number of the pixel `x` before the palette: what was
    /// fetched, or 0 while LCDC bit 0 switches the background off.
    pub open spec fn background_colour(self, x: int) -> u8 {
        if self.lcdc_bit(LCDC_PRIORITY) {
            self.fetched_colour(x as u8)
        } else {
            0
        }
    }

    /// The shade of the pixel `x` of the background layer.
    pub open spec fn background_shade(self, x: int) -> u8 {
        if self.lcdc_bit(LCDC_PRIORITY) {
            palette_shade(self.bgp, self.fetched_colour(x as u8))
        } else {
            0
        }
    }

    /// The colour numbers of the 160 pixels of the current line.
    pub open spec fn background_colours(self) -> Seq<u8> {
        Seq::new(160, |x: int| self.background_colour(x))
    }

    /// The unit after the background layer of the current line is drawn:
    /// the line's 160 pixels hold the background's shades, and a line that
    /// showed the window counts as one more window line.
    pub open spec fn background_drawn(self) -> PpuView {
        PpuView {
            frame_buffer: Seq::new(
                23040,
                |i: int|
                    if self.ly * 160 <= i < self.ly * 160 + 160 {
                        self.background_shade(i - self.ly * 160)
                    } else {
                        self.frame_buffer[i]
                    },
            ),
            window_line: if self.lcdc_bit(LCDC_PRIORITY) && self.window_on_line() {
                if self.window_line == 255 {
                    0u8
                } else {
                    (self.window_line + 1) as u8
                }
            } else {
                self.window_line
            },
            ..self
        }
    }

    /// The line of the sprite at `entry` that falls on the current scanline,
    /// counted from the sprite's top, or from its bottom if attribute bit 6
    /// flips it.
    pub open spec fn sprite_row(self, entry: int) -> int {
        let row = (self.ly - self.oam[entry] + 16) % 256;
        if bit_is_set(self.oam[entry + 3], 6) {
            (self.sprite_height() - 1 - row) % 256
        } else {
            row
        }
    }

    /// The bus address of the two bytes that hold that line. A tall sprite
    /// takes an even tile for its upper half and the next for its lower.
    pub open spec fn sprite_row_address(self, entry: int) -> int {
        let tile: int = if self.lcdc_bit(LCDC_OBJ_SIZE) {
            self.oam[entry + 2] / 2 * 2
        } else {
            self.oam[entry + 2] as int
        };
        let row = self.sprite_row(entry);
        0x8000 + (tile + if row >= 8 { 1int } else { 0 }) * 16 + row % 8 * 2
    }

    /// The colour number of the sprite's pixel `bit`, counted from its left
    /// edge as drawn; attribute bit 5 mirrors the sprite.
    pub open spec fn sprite_colour(self, entry: int, bit: u8) -> u8 {
        self.colour_at(
            self.sprite_row_address(entry),
            if bit_is_set(self.oam[entry + 3], 5) { bit } else { (7 - bit) as u8 },
        )
    }

    /// The screen column of the sprite's pixel `bit`, modulo 256.
    pub open spec fn sprite_column(self, entry: int, bit: u8) -> int {
        (self.oam[entry + 1] + 248 + bit) % 256
    }

    /// Whether the sprite's pixel `bit` is drawn: it is not transparent, it
    /// is on the screen, and the sprite is not one that stands behind a
    /// background pixel of a colour other than 0.
    pub open spec fn sprite_pixel_shows(self, colours: Seq<u8>, entry: int, bit: u8) -> bool {
        let column = self.sprite_column(entry, bit);
        &&& self.sprite_colour(entry, bit) != 0
        &&& column < 160
        &&& (!bit_is_set(self.oam[entry + 3], 7) || colours[column] == 0)
    }

    /// The shade of the sprite's pixel `bit`: attribute bit 4 picks the
    /// palette.
    pub open spec fn sprite_shade(self, entry: int, bit: u8) -> u8 {
        palette_shade(
            if bit_is_set(self.oam[entry + 3], 4) { self.obp1 } else { self.obp0 },
            self.sprite_colour(entry, bit),
        )
    }

    /// The picture `picture` after the first `bits` pixels of the sprite at
    /// `entry` are drawn over it.
    pub open spec fn with_sprite_pixels(self, picture: Seq<u8>, colours: Seq<u8>, entry: int, bits: int) -> Seq<u8>
        decreases bits,
    {
        if bits <= 0 {
            picture
        } else {
            let before = self.with_sprite_pixels(picture, colours, entry, bits - 1);
            let bit = (bits - 1) as u8;
            if self.sprite_pixel_shows(colours, entry, bit) {
                before.update(self.sprite_column(entry, bit) + self.ly * 160, self.sprite_shade(entry, bit))
            } else {
                before
            }
        }
    }

    /// The picture `picture` after the first `count` sprites of the buffer
    /// are drawn over it, each over those before it.
    pub open spec fn with_sprites(self, picture: Seq<u8>, colours: Seq<u8>, count: int) -> Seq<u8>
        decreases count,
    {
        if count <= 0 {
            picture
        } else {
            self.with_sprite_pixels(
                self.with_sprites(picture, colours, count - 1),
                colours,
                self.oam_buffer[count - 1] as int,
                8,
            )
        }
    }

    /// The unit after the sprite layer of the current line is drawn over
    /// the picture; nothing is drawn while LCDC bit 1 switches sprites off.
    pub open spec fn sprites_drawn(self, colours: Seq<u8>) -> PpuView {
        if self.lcdc_bit(LCDC_OBJ_ENABLE) {
            PpuView {
                frame_buffer: self.with_sprites(self.frame_buffer, colours, self.oam_buffer.len() as int),
                ..self
            }
        } else {
            self
        }
    }

    /// The unit after the current line is drawn: the background layer, then
    /// the sprites.
    pub open spec fn line_drawn(self) -> PpuView {
        self.background_drawn().sprites_drawn(self.background_colours())
    }

    /// The unit after the scan of sprite memory.
    pub open spec fn oam_scan(self) -> PpuView {
        PpuView { oam_buffer: self.scanned_sprites(), ..self }
    }
}

/// The unit in the phase `mode`, which has just begun, with STAT naming it.
pub open spec fn in_mode(p: PpuView, mode: PpuMode) -> PpuView {
    PpuView { mode, stat: stat_with_mode(p.stat, mode), current_cycle: 0, ..p }
}

/// The interrupt flags with the LCD interrupt requested if the source `bit`
/// of `stat` is switched on.
pub open spec fn with_stat_request(i: InterruptState, stat: u8, bit: u8) -> InterruptState {
    if stat_enabled(stat, bit) {
        with_request(i, INT_LCD)
    } else {
        i
    }
}

/// LY is held against LYC: STAT bit 2 tells whether they are equal, and
/// their being equal requests the LCD interrupt if STAT bit 6 allows.
pub open spec fn lyc_compared(p: PpuView, i: InterruptState) -> (PpuView, InterruptState) {
    if p.lyc == p.ly {
        (PpuView { stat: with_bit_set(p.stat, STAT_COINCIDENCE), ..p }, with_stat_request(i, p.stat, STAT_LYC_INT))
    } else {
        (PpuView { stat: with_bit_clear(p.stat, STAT_COINCIDENCE), ..p }, i)
    }
}

/// The unit and the interrupt flags after the scanline has ended.
///
/// After line 153 comes line 0: a frame is finished, the window starts
/// over, and the first line is scanned. Line 144 begins V-blank, which
/// requests the V-blank interrupt and, if STAT bit 4 allows, the LCD
/// interrupt; the lines after it stay in V-blank. Every other line begins
/// with the scan of sprite memory. Entering the scan requests the LCD
/// interrupt if STAT bit 5 allows. The new line is then held against LYC.
pub open spec fn next_scanline(p: PpuView, i: InterruptState) -> (PpuView, InterruptState) {
    if p.ly >= 153 {
        lyc_compared(
            PpuView { ly: 0, mode: PpuMode::OAM_SCAN, finish_frame: true, window_line: 0, ..p },
            with_stat_request(i, p.stat, STAT_MODE2_INT),
        )
    } else if p.ly == 143 {
        lyc_compared(
            PpuView { ly: 144, mode: PpuMode::VBLANK, ..p },
            with_stat_request(with_request(i, INT_VBLANK), p.stat, STAT_MODE1_INT),
        )
    } else if p.ly > 143 {
        lyc_compared(PpuView { ly: (p.ly + 1) as u8, mode: PpuMode::VBLANK, ..p }, i)
    } else {
        lyc_compared(
            PpuView { ly: (p.ly + 1) as u8, mode: PpuMode::OAM_SCAN, ..p },
            with_stat_request(i, p.stat, STAT_MODE2_INT),
        )
    }
}

/// The unit and the interrupt flags after the current phase has ended and
/// the next has begun.
///
/// The scan ends with the sprite buffer filled, and drawing begins. Drawing
/// ends with the line in the picture, and H-blank begins, which requests
/// the LCD interrupt if STAT bit 3 allows. H-blank, and each line of
/// V-blank, ends with the scanline. STAT names the new phase.
pub open spec fn ppu_step(p: PpuView, i: InterruptState) -> (PpuView, InterruptState) {
    match p.mode {
        PpuMode::OAM_SCAN => (in_mode(p.oam_scan(), PpuMode::DRAW), i),
        PpuMode::DRAW => (in_mode(p.line_drawn(), PpuMode::HBLANK), with_stat_request(i, p.stat, STAT_MODE0_INT)),
        _ => {
            let next = next_scanline(p, i);
            (in_mode(next.0, next.0.mode), next.1)
        },
    }
}

/// The unit with `spent` T-cycles of its phase gone, and with STAT naming
/// the phase.
pub open spec fn settled(p: PpuView, spent: int) -> PpuView {
    PpuView { current_cycle: spent as i32, stat: stat_with_mode(p.stat, p.mode), ..p }
}

/// The unit and the interrupt flags after `budget` T-cycles have been spent
/// from the start of the current phase: every phase that the budget covers
/// is gone through, what is left counts as time in the phase reached, and
/// STAT names that phase.
pub open spec fn ppu_run(p: PpuView, i: InterruptState, budget: int) -> (PpuView, InterruptState)
    decreases budget,
{
    if budget >= mode_duration(p.mode) {
        let next = ppu_step(p, i);
        ppu_run(next.0, next.1, budget - mode_duration(p.mode))
    } else {
        (settled(p, budget), i)
    }
}

/// The unit and the interrupt flags after `cycles` T-cycles; a count that
/// is not positive adds no time. Either way the two low bits of STAT name
/// the phase that the unit is then in.
///
/// While LCDC bit 7 keeps the unit switched off it is held on line 0 in
/// H-blank with no time spent, and requests nothing.
pub open spec fn ppu_update(p: PpuView, i: InterruptState, cycles: i32) -> (PpuView, InterruptState) {
    if p.lcdc_bit(LCDC_PPU_ENABLE) {
        ppu_run(p, i, p.current_cycle + (if cycles > 0 { cycles as int } else { 0 }))
    } else {
        (PpuView { ly: 0, ..in_mode(p, PpuMode::HBLANK) }, i)
    }
}

/// The transfer engine after `cycle` T-cycles, and whether the transfer
/// fell due: an active transfer falls due once 640 T-cycles have passed
/// since its start, and is then over.
pub open spec fn dma_advanced(p: PpuView, cycle: i32) -> (PpuView, bool) {
    if !p.dma_transfer_active {
        (p, false)
    } else if p.dma_transfer_cycle + (if cycle > 0 { cycle as int } else { 0 }) >= 640 {
        (PpuView { dma_transfer_cycle: 0, dma_transfer_active: false, ..p }, true)
    } else {
        (PpuView { dma_transfer_cycle: (p.dma_transfer_cycle + (if cycle > 0 { cycle as int } else { 0 })) as i32, ..p }, false)
    }
}

impl Ppu {
    pub fn new() -> (p: Ppu)
        ensures
            p@ == ppu_reset(),
            p@.wf(),
    {
        let p = Ppu {
            frame_buffer: [0; 23040],
            mode: PpuMode::OAM_SCAN,
            current_cycle: 0,
            oam_buffer: Vec::new(),
            finish_frame: false,
            window_line: 0,
            ly: 0,
            vram: [0u8; 0x2000],
            oam: [0u8; 160],
            dma_transfer: 0,
            dma_transfer_active: false,
            dma_transfer_cycle: 0,
            lcdc: 0,
            stat: 0,
            lyc: 0,
            scx: 0,
            scy: 0,
            wx: 0,
            wy: 0,
            bgp: 0,
            obp0: 0,
            obp1: 0,
        };
        assert(p@.frame_buffer =~= ppu_reset().frame_buffer);
        assert(p@.vram =~= ppu_reset().vram);
        assert(p@.oam =~= ppu_reset().oam);
        p
    }

    /// Tells whether every pixel of the picture is one of the four shades.
    fn picture_is_valid(&self) -> (r: bool)
        ensures
            r == (forall|i: int| 0 <= i < 23040 ==> #[trigger] self@.frame_buffer[i] <= 3),
    {
        let mut i: usize = 0;
        while i < 23040
            invariant
                i <= 23040,
                forall|j: int| 0 <= j < i ==> #[trigger] self@.frame_buffer[j] <= 3,
            decreases 23040 - i,
        {
            if self.frame_buffer[i] > 3 {
                assert(self@.frame_buffer[i as int] > 3);
                return false;
            }
            i = i + 1;
        }
        true
    }

    /// Tells whether the sprite buffer holds at most ten offsets of whole
    /// entries.
    fn buffer_is_valid(&self) -> (r: bool)
        ensures
            r == (self@.oam_buffer.len() <= 10 && forall|i: int|
                0 <= i < self@.oam_buffer.len() ==> #[trigger] self@.oam_buffer[i] <= 156),
    {
        if self.oam_buffer.len() > 10 {
            return false;
        }
        let mut i: usize = 0;
        while i < self.oam_buffer.len()
            invariant
                i <= self@.oam_buffer.len(),
                forall|j: int| 0 <= j < i ==> #[trigger] self@.oam_buffer[j] <= 156,
            decreases self@.oam_buffer.len() - i,
        {
            if self.oam_buffer[i] > 156 {
                assert(self@.oam_buffer[i as int] > 156);
                return false;
            }
            i = i + 1;
        }
        true
    }

    /// Tells whether the unit is in a state that it can work from.
    pub fn is_valid(&self) -> (r: bool)
        ensures
            r == self@.wf(),
    {
        let vblank = matches!(self.mode, PpuMode::VBLANK);
        let duration: i32 = match self.mode {
            PpuMode::OAM_SCAN => 80,
            PpuMode::DRAW => 172,
            PpuMode::HBLANK => 204,
            PpuMode::VBLANK => 456,
        };
        self.picture_is_valid() && self.buffer_is_valid() && self.ly <= 153 && vblank == (self.ly >= 144) && 0
            <= self.dma_transfer_cycle && self.dma_transfer_cycle < 640 && 0 <= self.current_cycle
            && self.current_cycle < duration
    }

    pub fn get_lcdc(&self, control: u8) -> (r: bool)
        requires
            control < 8,
        ensures
            r == self@.lcdc_bit(control),
    {
        test_bit(self.lcdc, control)
    }

    pub fn read_vram(&self, address: u16) -> (r: u8)
        requires
            0x8000 <= address <= 0x9FFF,
        ensures
            r == self@.vram_at(address as int),
    {
        self.vram[(address - 0x8000) as usize]
    }

    pub fn write_vram(&mut self, address: u16, value: u8)
        requires
            0x8000 <= address <= 0x9FFF,
        ensures
            final(self)@ == (PpuView { vram: old(self)@.vram.update(address - 0x8000, value), ..old(self)@ }),
    {
        self.vram[(address - 0x8000) as usize] = value;
    }

    pub fn read_oam(&self, address: u16) -> (r: u8)
        requires
            0xFE00 <= address <= 0xFE9F,
        ensures
            r == self@.oam[address - 0xFE00],
    {
        self.oam[(address - 0xFE00) as usize]
    }

    pub fn write_oam(&mut self, address: u16, value: u8)
        requires
            0xFE00 <= address <= 0xFE9F,
        ensures
            final(self)@ == (PpuView { oam: old(self)@.oam.update(address - 0xFE00, value), ..old(self)@ }),
    {
        self.oam[(address - 0xFE00) as usize] = value;
    }

    pub fn ly(&self) -> (r: u8)
        ensures
            r == self.ly,
    {
        self.ly
    }

    pub fn reset_stat(&mut self, stat: u8)
        requires
            stat < 8,
        ensures
            final(self)@ == (PpuView { stat: with_bit_clear(old(self).stat, stat), ..old(self)@ }),
    {
        self.stat = self.stat & !(1u8 << stat);
    }

    pub fn set_stat(&mut self, stat: u8)
        requires
            stat < 8,
        ensures
            final(self)@ == (PpuView { stat: with_bit_set(old(self).stat, stat), ..old(self)@ }),
    {
        self.stat = self.stat | (1u8 << stat);
    }

    pub fn test_stat(&self, stat: u8) -> (r: bool)
        requires
            stat < 8,
        ensures
            r == stat_enabled(self.stat, stat),
    {
        let mask: u8 = 0x7F;
        ((self.stat & mask) >> stat) & 1 == 1
    }

    /// Starts an OAM transfer from the page `value`; one under way starts
    /// over.
    pub fn start_dma_transfer(&mut self, value: u8)
        ensures
            final(self)@ == (PpuView {
                dma_transfer: value,
                dma_transfer_active: true,
                dma_transfer_cycle: 0,
                ..old(self)@
            }),
    {
        self.dma_transfer = value;
        self.dma_transfer_active = true;
        self.dma_transfer_cycle = 0;
    }

    /// The colour number at bit `bit` of the two bit planes at `address`.
    fn read_colour(&self, address: u16, bit: u8) -> (r: u8)
        requires
            0x8000 <= address < 0x9FFF,
            bit < 8,
        ensures
            r == self@.colour_at(address as int, bit),
            r <= 3,
    {
        let lo = self.read_vram(address);
        let hi = self.read_vram(address + 1);
        get_bit(hi, bit) * 2 + get_bit(lo, bit)
    }

    pub fn fetch_window_tile(&self, x: u8, y: u8, wx: u8, wy: u8) -> (r: (u16, u16, u8))
        requires
            x < 160,
            x + 7 >= wx,
            y >= wy,
        ensures
            r == self@.window_tile(x, y, wx, wy),
            r.0 <= 255,
            r.1 <= 7,
            r.2 <= 7,
    {
        let relative_x = x + 7 - wx;
        let relative_y = y - wy;
        let line_offset = (relative_y % 8) as u16;
        let window_tilemap_addr: u16 = if self.get_lcdc(LCDC_WIN_TILEMAP) { 0x9C00 } else { 0x9800 };
        let shift = 7 - (relative_x % 8);
        let tile_x = (relative_x / 8 % 32) as u16;
        let tile_y = (self.window_line / 8) as u16;
        (self.read_vram(window_tilemap_addr + tile_x + tile_y * 32) as u16, line_offset, shift)
    }

    #[verifier::rlimit(50)]
    pub fn fetch_background_tile(&self, x: u8, y: u8, scx: u8, scy: u8) -> (r: (u16, u16, u8))
        ensures
            r == self@.background_tile(x, y, scx, scy),
            r.0 <= 255,
            r.1 <= 7,
            r.2 <= 7,
    {
        let px = scx.wrapping_add(x);
        let py = scy.wrapping_add(y);
        assert(px == (scx + x) % 256);
        assert(py == (scy + y) % 256);
        let tile_x = (px / 8) as u16;
        let tile_y = (py / 8) as u16;
        let line_offset = (py % 8) as u16;
        let bg_tilemap_addr: u16 = if self.get_lcdc(LCDC_BG_TILEMAP) { 0x9C00 } else { 0x9800 };
        (self.read_vram(bg_tilemap_addr + tile_y * 32 + tile_x) as u16, line_offset, 7 - (px % 8))
    }

    /// The colour number of the pixel `x` of the current line.
    fn fetch_colour(&self, x: u8) -> (r: u8)
        requires
            x < 160,
        ensures
            r == self@.fetched_colour(x),
            r <= 3,
    {
        let is_window = self.get_lcdc(LCDC_WIN_ENABLE) && x + 7 >= self.wx && self.ly >= self.wy;
        let (tile_index, line_offset, shift) = if is_window {
            self.fetch_window_tile(x, self.ly, self.wx, self.wy)
        } else {
            self.fetch_background_tile(x, self.ly, self.scx, self.scy)
        };
        let tile_address: u16 = if self.get_lcdc(LCDC_BG_WIN_TILE) {
            TILEDATA_START_ADDR + tile_index * 16 + line_offset * 2
        } else if tile_index < 128 {
            0x9000 + tile_index * 16 + line_offset * 2
        } else {
            0x8000 + tile_index * 16 + line_offset * 2
        };
        self.read_colour(tile_address, shift)
    }

    /// Draws the background layer of the current line and returns the
    /// colour numbers of its pixels, which the sprite layer goes by.
    pub fn draw_lcd(&mut self) -> (colours: [u8; 160])
        requires
            old(self)@.inv(),
            old(self).ly < 144,
        ensures
            final(self)@ == old(self)@.background_drawn(),
            colours@ == old(self)@.background_colours(),
            final(self)@.inv(),
    {
        let ghost before = self@;
        let base: usize = self.ly as usize * 160;
        let enabled = self.get_lcdc(LCDC_PRIORITY);
        let mut color_index = [0u8; 160];
        let mut x: u8 = 0;
        while x < 160
            invariant
                x <= 160,
                before.inv(),
                before.ly < 144,
                base == before.ly * 160,
                enabled == before.lcdc_bit(LCDC_PRIORITY),
                self@ == (PpuView { frame_buffer: self@.frame_buffer, ..before }),
                self@.frame_buffer.len() == 23040,
                forall|i: int| 0 <= i < 23040 ==> #[trigger] self@.frame_buffer[i] <= 3,
                forall|i: int|
                    0 <= i < 23040 && !(base <= i < base + x) ==> #[trigger] self@.frame_buffer[i]
                        == before.frame_buffer[i],
                forall|i: int|
                    base <= i < base + x ==> #[trigger] self@.frame_buffer[i] == before.background_shade(
                        i - base,
                    ),
                forall|j: int| 0 <= j < x ==> #[trigger] color_index@[j] == before.background_colour(j),
                forall|j: int| x <= j < 160 ==> #[trigger] color_index@[j] == 0,
            decreases 160 - x,
        {
            if enabled {
                let pixel = self.fetch_colour(x);
                let color = shade(self.bgp, pixel);
                color_index[x as usize] = pixel;
                self.frame_buffer[base + x as usize] = color;
            } else {
                self.frame_buffer[base + x as usize] = 0;
            }
            x = x + 1;
        }
        if enabled && self.get_lcdc(LCDC_WIN_ENABLE) && self.wx <= 166 && self.ly >= self.wy {
            self.window_line = self.window_line.wrapping_add(1);
        }
        proof {
            assert(self@.frame_buffer =~= before.background_drawn().frame_buffer);
            assert(color_index@ =~= before.background_colours());
        }
        color_index
    }

    /// The bus address of the two bytes that hold the line of the sprite at
    /// `entry` that falls on the current scanline.
    fn sprite_line_address(&self, entry: usize) -> (r: u16)
        requires
            entry <= 156,
        ensures
            r == self@.sprite_row_address(entry as int),
            0x8000 <= r < 0x9FFF,
    {
        let tall = self.get_lcdc(LCDC_OBJ_SIZE);
        let sprite_height: u8 = if tall { 16 } else { 8 };
        let sprite_y = self.oam[entry];
        let flip_y = test_bit(self.oam[entry + 3], 6);
        let row = self.ly.wrapping_sub(sprite_y).wrapping_add(16);
        let pixel_y = if flip_y { sprite_height.wrapping_sub(1u8).wrapping_sub(row) } else { row };
        assert(row == (self.ly - sprite_y + 16) % 256);
        assert(pixel_y == self@.sprite_row(entry as int));
        let tile = self.oam[entry + 2] as u16;
        let tile_index = if tall { tile / 2 * 2 } else { tile };
        let tile_index = if pixel_y >= 8 { tile_index + 1 } else { tile_index };
        let line_offset = (pixel_y % 8) as u16;
        TILEDATA_START_ADDR + tile_index * 16 + line_offset * 2
    }

    /// Draws the eight pixels of one sprite over the current line.
    fn draw_sprite(&mut self, color_index: &[u8; 160], entry: usize, Ghost(before): Ghost<PpuView>)
        requires
            old(self)@.inv(),
            before.inv(),
            old(self).ly < 144,
            entry <= 156,
            old(self)@ == (PpuView { frame_buffer: old(self)@.frame_buffer, ..before }),
        ensures
            final(self)@ == (PpuView {
                frame_buffer: before.with_sprite_pixels(old(self)@.frame_buffer, color_index@, entry as int, 8),
                ..before
            }),
            final(self)@.inv(),
    {
        let sprite_x = self.oam[entry + 1];
        let obj_flags = self.oam[entry + 3];
        let behind = test_bit(obj_flags, 7);
        let flip_x = test_bit(obj_flags, 5);
        let line_address = self.sprite_line_address(entry);
        let pallete = if test_bit(obj_flags, 4) { self.obp1 } else { self.obp0 };
        let base: usize = self.ly as usize * 160;
        let ghost start = self@.frame_buffer;

        let mut bit: u8 = 0;
        while bit < 8
            invariant
                bit <= 8,
                before.inv(),
                before.ly < 144,
                entry <= 156,
                base == before.ly * 160,
                line_address == before.sprite_row_address(entry as int),
                0x8000 <= line_address < 0x9FFF,
                sprite_x == before.oam[entry + 1],
                obj_flags == before.oam[entry + 3],
                behind == bit_is_set(obj_flags, 7),
                flip_x == bit_is_set(obj_flags, 5),
                pallete == (if bit_is_set(obj_flags, 4) { before.obp1 } else { before.obp0 }),
                self@ == (PpuView { frame_buffer: self@.frame_buffer, ..before }),
                self@.frame_buffer.len() == 23040,
                forall|i: int| 0 <= i < 23040 ==> #[trigger] self@.frame_buffer[i] <= 3,
                self@.frame_buffer == before.with_sprite_pixels(start, color_index@, entry as int, bit as int),
            decreases 8 - bit,
        {
            let shift = if flip_x { bit } else { 7 - bit };
            let pixel = self.read_colour(line_address, shift);
            let screen_x = sprite_x.wrapping_sub(8).wrapping_add(bit);
            if pixel != 0 && screen_x < 160 && !(behind && color_index[screen_x as usize] != 0) {
                let color = shade(pallete, pixel);
                self.frame_buffer[screen_x as usize + base] = color;
            }
            bit = bit + 1;
        }
    }

    /// Draws the sprites of the buffer over the current line, where sprites
    /// are switched on.
    pub fn draw_lcd_sprite(&mut self, color_index: [u8; 160])
        requires
            old(self)@.inv(),
            old(self).ly < 144,
        ensures
            final(self)@ == old(self)@.sprites_drawn(color_index@),
            final(self)@.inv(),
    {
        if !self.get_lcdc(LCDC_OBJ_ENABLE) {
            return ;
        }
        let ghost before = self@;
        let count = self.oam_buffer.len();
        let mut index: usize = 0;
        while index < count
            invariant
                index <= count,
                count == before.oam_buffer.len(),
                before.inv(),
                before.ly < 144,
                self@.inv(),
                self@ == (PpuView { frame_buffer: self@.frame_buffer, ..before }),
                self@.frame_buffer == before.with_sprites(before.frame_buffer, color_index@, index as int),
            decreases count - index,
        {
            let entry = self.oam_buffer[index];
            self.draw_sprite(&color_index, entry, Ghost(before));
            index = index + 1;
        }
    }

    /// Requests the LCD interrupt if the source `bit` of STAT is switched on.
    fn request_stat(&self, interrupt: &mut InterruptState, bit: u8)
        requires
            bit < 8,
        ensures
            *final(interrupt) == with_stat_request(*old(interrupt), self.stat, bit),
    {
        if self.test_stat(bit) {
            interrupt.request(INT_LCD);
        }
    }

    /// Ends the scanline and begins the next.
    pub fn next_scanline(&mut self, interrupt: &mut InterruptState)
        requires
            old(self)@.inv(),
        ensures
            (final(self)@, *final(interrupt)) == next_scanline(old(self)@, *old(interrupt)),
            final(self)@.inv(),
    {
        if self.ly >= 153 {
            self.request_stat(interrupt, STAT_MODE2_INT);
            self.ly = 0;
            self.mode = PpuMode::OAM_SCAN;
            self.finish_frame = true;
            self.window_line = 0;
        } else if self.ly == 143 {
            interrupt.request(INT_VBLANK);
            self.request_stat(interrupt, STAT_MODE1_INT);
            self.ly = 144;
            self.mode = PpuMode::VBLANK;
        } else if self.ly > 143 {
            self.ly = self.ly + 1;
            self.mode = PpuMode::VBLANK;
        } else {
            self.request_stat(interrupt, STAT_MODE2_INT);
            self.ly = self.ly + 1;
            self.mode = PpuMode::OAM_SCAN;
        }
        if self.lyc == self.ly {
            self.request_stat(interrupt, STAT_LYC_INT);
            self.set_stat(STAT_COINCIDENCE);
        } else {
            self.reset_stat(STAT_COINCIDENCE);
        }
    }

    /// Writes the number of the current phase into the two low bits of
    /// STAT.
    fn name_mode(&mut self)
        ensures
            final(self)@ == (PpuView { stat: stat_with_mode(old(self).stat, old(self).mode), ..old(self)@ }),
    {
        let number: u8 = match self.mode {
            PpuMode::VBLANK => 1,
            PpuMode::HBLANK => 0,
            PpuMode::OAM_SCAN => 2,
            PpuMode::DRAW => 3,
        };
        self.stat = self.stat / 4 * 4 + number;
    }

    /// Begins the phase `mode`.
    fn enter(&mut self, mode: PpuMode)
        ensures
            final(self)@ == in_mode(old(self)@, mode),
    {
        self.mode = mode;
        self.name_mode();
        self.current_cycle = 0;
    }

    /// Ends the current phase and begins the next.
    pub fn step(&mut self, interrupt: &mut InterruptState)
        requires
            old(self)@.inv(),
        ensures
            (final(self)@, *final(interrupt)) == ppu_step(old(self)@, *old(interrupt)),
            final(self)@.wf(),
    {
        match self.mode {
            PpuMode::OAM_SCAN => {
                self.oam_scan();
                self.enter(PpuMode::DRAW);
            },
            PpuMode::DRAW => {
                self.request_stat(interrupt, STAT_MODE0_INT);
                let color_index = self.draw_lcd();
                self.draw_lcd_sprite(color_index);
                self.enter(PpuMode::HBLANK);
            },
            _ => {
                self.next_scanline(interrupt);
                let mode = self.mode;
                self.enter(mode);
            },
        }
    }

    /// Advances the unit by `cycles` T-cycles.
    pub fn update(&mut self, cycles: i32, interrupt: &mut InterruptState)
        requires
            old(self)@.wf(),
        ensures
            (final(self)@, *final(interrupt)) == ppu_update(old(self)@, *old(interrupt), cycles),
            final(self).stat % 4 == mode_number(final(self).mode),
            final(self)@.wf(),
    {
        if !self.get_lcdc(LCDC_PPU_ENABLE) {
            self.enter(PpuMode::HBLANK);
            self.ly = 0;
            return ;
        }
        let mut budget: i64 = self.current_cycle as i64 + (if cycles > 0 { cycles as i64 } else { 0 });
        loop
            invariant
                self@.inv(),
                0 <= budget,
                ppu_run(self@, *interrupt, budget as int) == ppu_update(old(self)@, *old(interrupt), cycles),
            ensures
                self@.wf(),
                self.stat % 4 == mode_number(self.mode),
                (self@, *interrupt) == ppu_update(old(self)@, *old(interrupt), cycles),
            decreases budget,
        {
            let duration: i64 = match self.mode {
                PpuMode::OAM_SCAN => 80,
                PpuMode::DRAW => 172,
                PpuMode::HBLANK => 204,
                PpuMode::VBLANK => 456,
            };
            if budget < duration {
                self.current_cycle = budget as i32;
                self.name_mode();
                break ;
            }
            self.step(interrupt);
            budget = budget - duration;
        }
    }

    /// Advances an OAM transfer by `cycle` T-cycles and tells whether it
    /// fell due, in which case sprite memory is to be filled from the page
    /// it was started with.
    pub fn update_dma_transfer(&mut self, cycle: i32) -> (due: bool)
        requires
            old(self)@.inv(),
        ensures
            (final(self)@, due) == dma_advanced(old(self)@, cycle),
    {
        if !self.dma_transfer_active {
            return false;
        }
        let total: i64 = self.dma_transfer_cycle as i64 + (if cycle > 0 { cycle as i64 } else { 0 });
        if total >= 640 {
            self.dma_transfer_cycle = 0;
            self.dma_transfer_active = false;
            true
        } else {
            self.dma_transfer_cycle = total as i32;
            false
        }
    }

    /// Where `entry` goes into the sprite buffer.
    fn find_position(&self, buffer: &Vec<usize>, entry: usize) -> (r: usize)
        requires
            entry <= 156,
            forall|i: int| 0 <= i < buffer@.len() ==> #[trigger] buffer@[i] <= 156,
        ensures
            r == self@.insert_position(buffer@, entry),
            r <= buffer@.len(),
    {
        let mut position: usize = buffer.len();
        proof {
            assert(buffer@.take(position as int) =~= buffer@);
        }
        while position > 0
            invariant
                position <= buffer@.len(),
                entry <= 156,
                forall|i: int| 0 <= i < buffer@.len() ==> #[trigger] buffer@[i] <= 156,
                self@.insert_position(buffer@, entry) == self@.insert_position(
                    buffer@.take(position as int),
                    entry,
                ),
            decreases position,
        {
            let last = buffer[position - 1];
            let x_last = self.oam[last + 1];
            let x_entry = self.oam[entry + 1];
            proof {
                assert(buffer@.take(position as int).last() == last);
                assert(buffer@.take(position as int).drop_last() =~= buffer@.take(position - 1));
            }
            if x_last > x_entry || (x_last == x_entry && last > entry) {
                return position;
            }
            position = position - 1;
        }
        proof {
            assert(buffer@.take(0).len() == 0);
        }
        0
    }

    /// Chooses the sprites of the current line and puts them in drawing
    /// order.
    pub fn oam_scan(&mut self)
        requires
            old(self)@.inv(),
        ensures
            final(self)@ == old(self)@.oam_scan(),
            final(self)@.inv(),
    {
        let is_tall_sprite = self.get_lcdc(LCDC_OBJ_SIZE);
        let sprite_height: u16 = if is_tall_sprite { 16 } else { 8 };
        let mut chosen: Vec<usize> = Vec::new();
        let mut index: usize = 0;
        while index < 40
            invariant
                index <= 40,
                *self == *old(self),
                sprite_height == self@.sprite_height(),
                chosen@ == self@.sprites_chosen(index as int),
                chosen@.len() <= 10,
                forall|i: int| 0 <= i < chosen@.len() ==> #[trigger] chosen@[i] <= 156,
            decreases 40 - index,
        {
            let addr: usize = index * 4;
            let y_pos = self.oam[addr] as u16;
            let x_pos = self.oam[addr + 1];
            let line = self.ly as u16 + 16;
            if x_pos > 0 && line >= y_pos && line < y_pos + sprite_height && chosen.len() < 10 {
                chosen.push(addr);
            }
            index = index + 1;
        }
        let mut buffer: Vec<usize> = Vec::new();
        let mut taken: usize = 0;
        while taken < chosen.len()
            invariant
                taken <= chosen@.len(),
                chosen@.len() <= 10,
                *self == *old(self),
                forall|i: int| 0 <= i < chosen@.len() ==> #[trigger] chosen@[i] <= 156,
                buffer@ == self@.in_drawing_order(chosen@, taken as int),
                buffer@.len() == taken,
                forall|i: int| 0 <= i < buffer@.len() ==> #[trigger] buffer@[i] <= 156,
            decreases chosen@.len() - taken,
        {
            let entry = chosen[taken];
            let position = self.find_position(&buffer, entry);
            buffer.insert(position, entry);
            taken = taken + 1;
        }
        self.oam_buffer = buffer;
    }
}

impl Default for Ppu {
    fn default() -> (p: Ppu)
        ensures
            p@ == ppu_reset(),
            p@.wf(),
    {
        Ppu::new()
    }
}

/// Whether the line counter is within the frame and agrees with the phase.
pub open spec fn line_agrees(p: PpuView) -> bool {
    p.ly <= 153 && (p.mode == PpuMode::VBLANK <==> p.ly >= 144)
}

/// Whether the phase of `p` ends with LY reaching 144: it is the H-blank of
/// line 143.
pub open spec fn reaches_vblank(p: PpuView) -> bool {
    p.mode == PpuMode::HBLANK && p.ly == 143
}

/// Whether the phase of `p` ends with the frame: it is the last line of
/// V-blank.
pub open spec fn ends_frame(p: PpuView) -> bool {
    p.mode == PpuMode::VBLANK && p.ly == 153
}

/// How often LY reaches 144 while `budget` T-cycles are spent from the
/// start of the current phase.
pub open spec fn vblank_entries(p: PpuView, i: InterruptState, budget: int) -> nat
    decreases budget,
{
    if budget >= mode_duration(p.mode) {
        let next = ppu_step(p, i);
        (if reaches_vblank(p) { 1nat } else { 0 }) + vblank_entries(next.0, next.1, budget - mode_duration(p.mode))
    } else {
        0
    }
}

/// How often a frame ends, LY going from 153 back to 0, while `budget`
/// T-cycles are spent from the start of the current phase.
pub open spec fn frames_ended(p: PpuView, i: InterruptState, budget: int) -> nat
    decreases budget,
{
    if budget >= mode_duration(p.mode) {
        let next = ppu_step(p, i);
        (if ends_frame(p) { 1nat } else { 0 }) + frames_ended(next.0, next.1, budget - mode_duration(p.mode))
    } else {
        0
    }
}

/// 1 while LY is at or past 144, else 0.
pub open spec fn in_vblank(p: PpuView) -> nat {
    if p.ly >= 144 {
        1
    } else {
        0
    }
}

/// What the end of a phase does to the place in the frame.
///
/// LY stays through the scan and the drawing, and goes up by one at the
/// end of H-blank and of every line of V-blank but the last, after which
/// it is 0 again. A frame is marked as finished exactly when LY goes back
/// to 0, the mark staying if it was there, and the V-blank interrupt is
/// requested exactly when LY reaches 144.
pub proof fn lemma_step_moves_one_line(p: PpuView, i: InterruptState)
    requires
        line_agrees(p),
    ensures
        line_agrees(ppu_step(p, i).0),
        ppu_step(p, i).0.current_cycle == 0,
        (p.mode == PpuMode::OAM_SCAN || p.mode == PpuMode::DRAW) ==> ppu_step(p, i).0.ly == p.ly,
        (p.mode == PpuMode::HBLANK || p.mode == PpuMode::VBLANK) ==> ppu_step(p, i).0.ly == (if p.ly == 153 {
            0
        } else {
            p.ly + 1
        }),
        ppu_step(p, i).0.finish_frame == (p.finish_frame || ends_frame(p)),
        (ppu_step(p, i).0.ly == 144 && p.ly != 144) <==> reaches_vblank(p),
        reaches_vblank(p) ==> bit_value(ppu_step(p, i).1.interrupt_flag, INT_VBLANK) == 1,
        !reaches_vblank(p) ==> bit_value(ppu_step(p, i).1.interrupt_flag, INT_VBLANK) == bit_value(
            i.interrupt_flag,
            INT_VBLANK,
        ),
{
    let f = i.interrupt_flag;
    crate::emulator::bitops::lemma_bit_facts(f, INT_LCD);
    crate::emulator::bitops::lemma_bit_facts(f, INT_VBLANK);
    crate::emulator::bitops::lemma_bit_facts(with_bit_set(f, INT_LCD), INT_LCD);
    crate::emulator::bitops::lemma_bit_facts(with_bit_set(f, INT_VBLANK), INT_LCD);
    crate::emulator::bitops::lemma_bit_facts(with_bit_set(with_bit_set(f, INT_VBLANK), INT_LCD), INT_LCD);
    if p.mode == PpuMode::HBLANK || p.mode == PpuMode::VBLANK {
        let next = next_scanline(p, i);
        assert(ppu_step(p, i) == (in_mode(next.0, next.0.mode), next.1));
    }
}

/// Between the ends of two frames LY reaches 144 exactly once.
///
/// Over any stretch of time in which the unit stays switched on, LY
/// reaches 144 as often as a frame ends, give or take the V-blank in which
/// the stretch begins or ends: one entry more if it ends within V-blank
/// and did not begin there, one less if it began within V-blank and does
/// not end there. So a stretch that begins and ends outside V-blank, as
/// one from the end of a frame to the end of the next, sees LY reach 144
/// once for every frame that ends in it. The place in the frame stays
/// sound throughout.
pub proof fn lemma_one_vblank_per_frame(p: PpuView, i: InterruptState, budget: int)
    requires
        line_agrees(p),
    ensures
        line_agrees(ppu_run(p, i, budget).0),
        vblank_entries(p, i, budget) + in_vblank(p) == frames_ended(p, i, budget) + in_vblank(
            ppu_run(p, i, budget).0,
        ),
        !p.finish_frame ==> (ppu_run(p, i, budget).0.finish_frame <==> frames_ended(p, i, budget) > 0),
    decreases budget,
{
    if budget >= mode_duration(p.mode) {
        let next = ppu_step(p, i);
        lemma_step_moves_one_line(p, i);
        lemma_one_vblank_per_frame(next.0, next.1, budget - mode_duration(p.mode));
        if next.0.finish_frame {
            lemma_finished_frame_stays(next.0, next.1, budget - mode_duration(p.mode));
        }
    }
}

/// The mark of a finished frame, once set, stays until the host clears it.
pub proof fn lemma_finished_frame_stays(p: PpuView, i: InterruptState, budget: int)
    requires
        line_agrees(p),
        p.finish_frame,
    ensures
        ppu_run(p, i, budget).0.finish_frame,
    decreases budget,
{
    if budget >= mode_duration(p.mode) {
        let next = ppu_step(p, i);
        lemma_step_moves_one_line(p, i);
        lemma_finished_frame_stays(next.0, next.1, budget - mode_duration(p.mode));
    }
}

/// Whether, of any two sprites in `buffer`, the one that stands first is
/// drawn first.
pub open spec fn is_drawing_order(p: PpuView, buffer: Seq<usize>) -> bool {
    forall|i: int, j: int| 0 <= i < j < buffer.len() ==> p.drawn_before(#[trigger] buffer[i], #[trigger] buffer[j])
}

/// What the walk through sprite memory chooses among the first `count`
/// entries: at most ten sprites, each a whole entry that lies on the line,
/// in the order of sprite memory; and a sprite on the line is passed over
/// only once ten have been chosen.
pub proof fn lemma_sprites_chosen(p: PpuView, count: int)
    requires
        0 <= count <= 40,
    ensures
        p.sprites_chosen(count).len() <= 10,
        p.sprites_chosen(count).len() <= count,
        forall|k: int|
            0 <= k < p.sprites_chosen(count).len() ==> {
                let entry = #[trigger] p.sprites_chosen(count)[k];
                entry % 4 == 0 && entry < 4 * count && p.sprite_on_line(entry as int)
            },
        forall|j: int, k: int|
            0 <= j < k < p.sprites_chosen(count).len() ==> #[trigger] p.sprites_chosen(count)[j]
                < #[trigger] p.sprites_chosen(count)[k],
        forall|index: int|
            0 <= index < count && p.sprite_on_line(index * 4) && !p.sprites_chosen(count).contains(
                #[trigger] ((index * 4) as usize),
            ) ==> p.sprites_chosen(count).len() == 10,
    decreases count,
{
    if count > 0 {
        lemma_sprites_chosen(p, count - 1);
        let before = p.sprites_chosen(count - 1);
        let now = p.sprites_chosen(count);
        let entry = (count - 1) * 4;
        if p.sprite_on_line(entry) && before.len() < 10 {
            assert(now == before.push(entry as usize));
            assert(now[now.len() - 1] == entry as usize);
            assert forall|index: int|
                0 <= index < count && p.sprite_on_line(index * 4) && !now.contains(
                    #[trigger] ((index * 4) as usize),
                ) implies now.len() == 10 by {
                if index < count - 1 {
                    if before.contains((index * 4) as usize) {
                        let k = choose|k: int| 0 <= k < before.len() && before[k] == (index * 4) as usize;
                        assert(now[k] == (index * 4) as usize);
                    }
                }
            }
        } else {
            assert(now == before);
        }
    }
}

/// A sprite that is not yet in a buffer in drawing order goes behind all
/// that are drawn before it and before all that are drawn after it.
pub proof fn lemma_insert_position(p: PpuView, buffer: Seq<usize>, entry: usize)
    requires
        is_drawing_order(p, buffer),
        !buffer.contains(entry),
    ensures
        0 <= p.insert_position(buffer, entry) <= buffer.len(),
        forall|k: int| 0 <= k < p.insert_position(buffer, entry) ==> p.drawn_before(#[trigger] buffer[k], entry),
        forall|k: int|
            p.insert_position(buffer, entry) <= k < buffer.len() ==> p.drawn_before(entry, #[trigger] buffer[k]),
    decreases buffer.len(),
{
    if buffer.len() > 0 {
        let last = buffer.last();
        if p.drawn_before(last, entry) {
            assert forall|k: int| 0 <= k < buffer.len() implies p.drawn_before(#[trigger] buffer[k], entry) by {
                if k < buffer.len() - 1 {
                    assert(p.drawn_before(buffer[k], buffer[buffer.len() - 1]));
                }
            }
        } else {
            let rest = buffer.drop_last();
            assert(is_drawing_order(p, rest)) by {
                assert forall|i: int, j: int| 0 <= i < j < rest.len() implies p.drawn_before(
                    #[trigger] rest[i],
                    #[trigger] rest[j],
                ) by {
                    assert(rest[i] == buffer[i] && rest[j] == buffer[j]);
                }
            }
            assert(!rest.contains(entry)) by {
                if rest.contains(entry) {
                    let k = choose|k: int| 0 <= k < rest.len() && rest[k] == entry;
                    assert(buffer[k] == entry);
                }
            }
            lemma_insert_position(p, rest, entry);
            let position = p.insert_position(rest, entry);
            assert forall|k: int| 0 <= k < position implies p.drawn_before(#[trigger] buffer[k], entry) by {
                assert(rest[k] == buffer[k]);
            }
            assert forall|k: int| position <= k < buffer.len() implies p.drawn_before(
                entry,
                #[trigger] buffer[k],
            ) by {
                if k < buffer.len() - 1 {
                    assert(rest[k] == buffer[k]);
                } else {
                    assert(buffer[k] == last);
                    assert(last != entry);
                }
            }
        }
    }
}

/// Putting the first `count` of a sequence of distinct sprites into
/// drawing order yields those same sprites, in drawing order.
pub proof fn lemma_in_drawing_order(p: PpuView, chosen: Seq<usize>, count: int)
    requires
        0 <= count <= chosen.len(),
        forall|j: int, k: int| 0 <= j < k < chosen.len() ==> #[trigger] chosen[j] != #[trigger] chosen[k],
    ensures
        p.in_drawing_order(chosen, count).len() == count,
        is_drawing_order(p, p.in_drawing_order(chosen, count)),
        forall|entry: usize|
            #[trigger] p.in_drawing_order(chosen, count).contains(entry) <==> exists|k: int|
                0 <= k < count && #[trigger] chosen[k] == entry,
    decreases count,
{
    if count > 0 {
        lemma_in_drawing_order(p, chosen, count - 1);
        let before = p.in_drawing_order(chosen, count - 1);
        let entry = chosen[count - 1];
        assert(!before.contains(entry)) by {
            if before.contains(entry) {
                let k = choose|k: int| 0 <= k < count - 1 && #[trigger] chosen[k] == entry;
                assert(chosen[k] != chosen[count - 1]);
            }
        }
        lemma_insert_position(p, before, entry);
        let position = p.insert_position(before, entry);
        let now = before.insert(position, entry);
        assert(now == p.in_drawing_order(chosen, count));
        assert(now.len() == count);
        assert forall|i: int, j: int| 0 <= i < j < now.len() implies p.drawn_before(
            #[trigger] now[i],
            #[trigger] now[j],
        ) by {
            if j < position {
                assert(now[i] == before[i] && now[j] == before[j]);
            } else if j == position {
                assert(now[i] == before[i]);
            } else if i < position {
                assert(now[i] == before[i] && now[j] == before[j - 1]);
            } else if i == position {
                assert(now[j] == before[j - 1]);
            } else {
                assert(now[i] == before[i - 1] && now[j] == before[j - 1]);
            }
        }
        assert forall|other: usize| #[trigger] now.contains(other) <==> exists|k: int|
            0 <= k < count && #[trigger] chosen[k] == other by {
            if now.contains(other) {
                let i = choose|i: int| 0 <= i < now.len() && now[i] == other;
                if i == position {
                    assert(chosen[count - 1] == other);
                } else {
                    let at = if i < position { i } else { i - 1 };
                    assert(before[at] == other);
                    assert(before.contains(other));
                    let k = choose|k: int| 0 <= k < count - 1 && #[trigger] chosen[k] == other;
                    assert(0 <= k < count && chosen[k] == other);
                }
            }
            if exists|k: int| 0 <= k < count && #[trigger] chosen[k] == other {
                let k = choose|k: int| 0 <= k < count && #[trigger] chosen[k] == other;
                if k == count - 1 {
                    assert(now[position] == other);
                } else {
                    assert(before.contains(other));
                    let i = choose|i: int| 0 <= i < before.len() && before[i] == other;
                    if i < position {
                        assert(now[i] == other);
                    } else {
                        assert(now[i + 1] == other);
                    }
                }
            }
        }
    }
}

/// What a scan of sprite memory leaves in the sprite buffer: at most ten
/// sprites, each a whole entry that lies on the line, in drawing order,
/// further right first and later in sprite memory first among those at the
/// same x. They are the sprites that the walk through sprite memory chose.
pub proof fn lemma_scanned_sprites(p: PpuView)
    ensures
        p.scanned_sprites().len() <= 10,
        p.scanned_sprites().len() == p.sprites_chosen(40).len(),
        is_drawing_order(p, p.scanned_sprites()),
        forall|entry: usize|
            #[trigger] p.scanned_sprites().contains(entry) <==> p.sprites_chosen(40).contains(entry),
        forall|k: int|
            0 <= k < p.scanned_sprites().len() ==> {
                let entry = #[trigger] p.scanned_sprites()[k];
                entry % 4 == 0 && entry <= 156 && p.sprite_on_line(entry as int)
            },
{
    let chosen = p.sprites_chosen(40);
    lemma_sprites_chosen(p, 40);
    lemma_in_drawing_order(p, chosen, chosen.len() as int);
    let buffer = p.scanned_sprites();
    assert forall|entry: usize| #[trigger] buffer.contains(entry) <==> chosen.contains(entry) by {
        if buffer.contains(entry) {
            let k = choose|k: int| 0 <= k < chosen.len() && #[trigger] chosen[k] == entry;
            assert(chosen.contains(entry));
        }
        if chosen.contains(entry) {
            let k = choose|k: int| 0 <= k < chosen.len() && chosen[k] == entry;
            assert(0 <= k < chosen.len() && chosen[k] == entry);
        }
    }
    assert forall|k: int| 0 <= k < buffer.len() implies {
        let entry = #[trigger] buffer[k];
        entry % 4 == 0 && entry <= 156 && p.sprite_on_line(entry as int)
    } by {
        assert(buffer.contains(buffer[k]));
        let at = choose|at: int| 0 <= at < chosen.len() && chosen[at] == buffer[k];
        assert(chosen[at] % 4 == 0);
    }
}

/// Over video memory that holds nothing but zeros, the background layer of
/// a line is one shade throughout: the one that the palette gives to the
/// colour number 0. With sprites switched off that is the whole line.
pub proof fn lemma_clean_line(p: PpuView, x: int)
    requires
        p.inv(),
        p.ly < 144,
        p.lcdc_bit(LCDC_PRIORITY),
        forall|k: int| 0 <= k < 0x2000 ==> #[trigger] p.vram[k] == 0,
        0 <= x < 160,
    ensures
        p.background_colour(x) == 0,
        p.background_shade(x) == palette_shade(p.bgp, 0),
        p.background_drawn().frame_buffer[p.ly * 160 + x] == palette_shade(p.bgp, 0),
        !p.lcdc_bit(LCDC_OBJ_ENABLE) ==> p.line_drawn().frame_buffer[p.ly * 160 + x] == palette_shade(p.bgp, 0),
        p.bgp % 4 == 0 ==> palette_shade(p.bgp, 0) == 0,
{
    let tile = if p.window_covers(x, p.ly as int) {
        p.window_tile(x as u8, p.ly, p.wx, p.wy)
    } else {
        p.background_tile(x as u8, p.ly, p.scx, p.scy)
    };
    assert(tile.0 == 0);
    let address = p.tile_row_address(tile.0 as int, tile.1 as int);
    assert(p.vram_at(address) == 0 && p.vram_at(address + 1) == 0);
    let bit = tile.2;
    let bgp = p.bgp;
    assert((0u8 >> bit) & 1 == 0) by (bit_vector);
    assert(bgp % 4 == 0 ==> (bgp >> 0u8) & 3 == 0) by (bit_vector);
}

/// Two bytes that agree above their two low bits agree on every source of
/// STAT and stay in agreement when the coincidence bit is set or cleared.
proof fn lemma_stat_above_mode_bits(a: u8, b: u8)
    by (bit_vector)
    requires
        a / 4 == b / 4,
    ensures
        ((a & 0x7F) >> 3u8) & 1 == ((b & 0x7F) >> 3u8) & 1,
        ((a & 0x7F) >> 4u8) & 1 == ((b & 0x7F) >> 4u8) & 1,
        ((a & 0x7F) >> 5u8) & 1 == ((b & 0x7F) >> 5u8) & 1,
        ((a & 0x7F) >> 6u8) & 1 == ((b & 0x7F) >> 6u8) & 1,
        (a | (1u8 << 2u8)) / 4 == (b | (1u8 << 2u8)) / 4,
        (a & !(1u8 << 2u8)) / 4 == (b & !(1u8 << 2u8)) / 4,
{
}

/// The unit `p` with other time spent in its phase and other mode bits in
/// STAT.
pub open spec fn resettled(p: PpuView, spent: i32, stat: u8) -> PpuView {
    PpuView { current_cycle: spent, stat, ..p }
}

/// The choice of sprites depends neither on the time spent in the phase
/// nor on STAT.
proof fn lemma_choice_ignores_time(p: PpuView, spent: i32, stat: u8, count: int)
    ensures
        resettled(p, spent, stat).sprites_chosen(count) == p.sprites_chosen(count),
    decreases count,
{
    if count > 0 {
        lemma_choice_ignores_time(p, spent, stat, count - 1);
    }
}

/// The place of a sprite in the buffer depends neither on the time spent
/// in the phase nor on STAT.
proof fn lemma_position_ignores_time(p: PpuView, spent: i32, stat: u8, buffer: Seq<usize>, entry: usize)
    ensures
        resettled(p, spent, stat).insert_position(buffer, entry) == p.insert_position(buffer, entry),
    decreases buffer.len(),
{
    if buffer.len() > 0 {
        lemma_position_ignores_time(p, spent, stat, buffer.drop_last(), entry);
    }
}

/// The drawing order depends neither on the time spent in the phase nor
/// on STAT.
proof fn lemma_order_ignores_time(p: PpuView, spent: i32, stat: u8, chosen: Seq<usize>, count: int)
    ensures
        resettled(p, spent, stat).in_drawing_order(chosen, count) == p.in_drawing_order(chosen, count),
    decreases count,
{
    if count > 0 {
        lemma_order_ignores_time(p, spent, stat, chosen, count - 1);
        lemma_position_ignores_time(p, spent, stat, p.in_drawing_order(chosen, count - 1), chosen[count - 1]);
    }
}

/// The pixels of a sprite depend neither on the time spent in the phase
/// nor on STAT.
proof fn lemma_pixels_ignore_time(
    p: PpuView,
    spent: i32,
    stat: u8,
    picture: Seq<u8>,
    colours: Seq<u8>,
    entry: int,
    bits: int,
)
    ensures
        resettled(p, spent, stat).with_sprite_pixels(picture, colours, entry, bits) == p.with_sprite_pixels(
            picture,
            colours,
            entry,
            bits,
        ),
    decreases bits,
{
    if bits > 0 {
        lemma_pixels_ignore_time(p, spent, stat, picture, colours, entry, bits - 1);
    }
}

/// The sprite layer depends neither on the time spent in the phase nor on
/// STAT.
proof fn lemma_sprites_ignore_time(
    p: PpuView,
    spent: i32,
    stat: u8,
    picture: Seq<u8>,
    colours: Seq<u8>,
    count: int,
)
    ensures
        resettled(p, spent, stat).with_sprites(picture, colours, count) == p.with_sprites(picture, colours, count),
    decreases count,
{
    if count > 0 {
        lemma_sprites_ignore_time(p, spent, stat, picture, colours, count - 1);
        lemma_pixels_ignore_time(
            p,
            spent,
            stat,
            p.with_sprites(picture, colours, count - 1),
            colours,
            p.oam_buffer[count - 1] as int,
            8,
        );
    }
}

/// The end of the scanline depends on the time spent in the phase not at
/// all, and on the two low bits of STAT only in that it leaves them.
proof fn lemma_scanline_ignores_time(p: PpuView, i: InterruptState, spent: i32, stat: u8)
    requires
        stat / 4 == p.stat / 4,
    ensures
        next_scanline(resettled(p, spent, stat), i).1 == next_scanline(p, i).1,
        next_scanline(resettled(p, spent, stat), i).0.stat / 4 == next_scanline(p, i).0.stat / 4,
        next_scanline(resettled(p, spent, stat), i).0 == resettled(
            next_scanline(p, i).0,
            spent,
            next_scanline(resettled(p, spent, stat), i).0.stat,
        ),
{
    lemma_stat_above_mode_bits(stat, p.stat);
}

/// The end of a phase depends neither on the time spent in it nor on the
/// two low bits of STAT.
proof fn lemma_step_ignores_time(p: PpuView, i: InterruptState, spent: i32, stat: u8)
    requires
        stat / 4 == p.stat / 4,
    ensures
        ppu_step(resettled(p, spent, stat), i) == ppu_step(p, i),
{
    let q = resettled(p, spent, stat);
    lemma_stat_above_mode_bits(stat, p.stat);
    match p.mode {
        PpuMode::OAM_SCAN => {
            lemma_choice_ignores_time(p, spent, stat, 40);
            lemma_order_ignores_time(p, spent, stat, p.sprites_chosen(40), p.sprites_chosen(40).len() as int);
            assert(q.oam_scan() == resettled(p.oam_scan(), spent, stat));
        },
        PpuMode::DRAW => {
            let drawn = p.background_drawn();
            assert(q.background_colours() =~= p.background_colours());
            assert(q.background_drawn().frame_buffer =~= drawn.frame_buffer);
            assert(q.background_drawn() == resettled(drawn, spent, stat));
            lemma_sprites_ignore_time(
                drawn,
                spent,
                stat,
                drawn.frame_buffer,
                p.background_colours(),
                drawn.oam_buffer.len() as int,
            );
            assert(q.line_drawn() == resettled(p.line_drawn(), spent, stat));
        },
        _ => {
            lemma_scanline_ignores_time(p, i, spent, stat);
        },
    }
}

/// Where the unit ends up depends on the time that it had already spent in
/// its phase only through the budget, and not on what the two low bits of
/// STAT were.
pub proof fn lemma_run_ignores_time_in_phase(p: PpuView, i: InterruptState, budget: int, spent: i32, stat: u8)
    requires
        stat / 4 == p.stat / 4,
    ensures
        ppu_run(resettled(p, spent, stat), i, budget) == ppu_run(p, i, budget),
{
    if budget >= mode_duration(p.mode) {
        lemma_step_ignores_time(p, i, spent, stat);
    }
}

/// After an advance the two low bits of STAT name the phase that the unit
/// is in, whether it is switched on or off, and whatever they were before.
pub proof fn lemma_stat_names_the_phase(p: PpuView, i: InterruptState, cycles: i32)
    ensures
        ppu_update(p, i, cycles).0.stat % 4 == mode_number(ppu_update(p, i, cycles).0.mode),
{
    if p.lcdc_bit(LCDC_PPU_ENABLE) {
        lemma_run_names_the_phase(p, i, p.current_cycle + (if cycles > 0 { cycles as int } else { 0 }));
    }
}

/// However much time is spent, STAT then names the phase reached.
pub proof fn lemma_run_names_the_phase(p: PpuView, i: InterruptState, budget: int)
    ensures
        ppu_run(p, i, budget).0.stat % 4 == mode_number(ppu_run(p, i, budget).0.mode),
    decreases budget,
{
    if budget >= mode_duration(p.mode) {
        let next = ppu_step(p, i);
        lemma_run_names_the_phase(next.0, next.1, budget - mode_duration(p.mode));
    }
}

/// Time is the same however it is dealt: giving the unit, while it stays
/// switched on, first one number of T-cycles and then another leaves it as
/// giving it their sum at once does.
pub proof fn lemma_update_splits(p: PpuView, i: InterruptState, first: i32, second: i32)
    requires
        p.lcdc_bit(LCDC_PPU_ENABLE),
        0 <= p.current_cycle < mode_duration(p.mode),
        0 <= first,
        0 <= second,
        first + second <= i32::MAX,
    ensures
        ({
            let half = ppu_update(p, i, first);
            ppu_update(half.0, half.1, second) == ppu_update(p, i, (first + second) as i32)
        }),
{
    lemma_run_splits(p, i, p.current_cycle + first, second as int);
}

/// Spending a budget and then, from where that leaves the unit, some more
/// time, is spending both at once.
pub proof fn lemma_run_splits(p: PpuView, i: InterruptState, budget: int, more: int)
    requires
        p.lcdc_bit(LCDC_PPU_ENABLE),
        0 <= budget,
        0 <= more,
    ensures
        ({
            let half = ppu_run(p, i, budget);
            &&& half.0.lcdc_bit(LCDC_PPU_ENABLE)
            &&& 0 <= half.0.current_cycle < mode_duration(half.0.mode)
            &&& ppu_run(half.0, half.1, half.0.current_cycle + more) == ppu_run(p, i, budget + more)
        }),
    decreases budget,
{
    if budget >= mode_duration(p.mode) {
        let next = ppu_step(p, i);
        assert(next.0.lcdc == p.lcdc);
        lemma_run_splits(next.0, next.1, budget - mode_duration(p.mode), more);
    } else {
        lemma_run_ignores_time_in_phase(p, i, budget + more, budget as i32, stat_with_mode(p.stat, p.mode));
    }
}

/// Between the ends of two frames LY reaches 144 exactly once, told of the
/// advance of the unit by a number of T-cycles: while the unit is switched
/// on, the place in the frame stays sound, and LY reaches 144 as often as
/// a frame ends, give or take the V-blank in which the advance begins or
/// ends.
pub proof fn lemma_update_keeps_the_frame(p: PpuView, i: InterruptState, cycles: i32)
    requires
        line_agrees(p),
        p.lcdc_bit(LCDC_PPU_ENABLE),
    ensures
        ({
            let budget = p.current_cycle + (if cycles > 0 { cycles as int } else { 0 });
            &&& line_agrees(ppu_update(p, i, cycles).0)
            &&& vblank_entries(p, i, budget) + in_vblank(p) == frames_ended(p, i, budget) + in_vblank(
                ppu_update(p, i, cycles).0,
            )
        }),
{
    lemma_one_vblank_per_frame(p, i, p.current_cycle + (if cycles > 0 { cycles as int } else { 0 }));
}

} // verus!
