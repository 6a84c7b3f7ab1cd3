use vstd::prelude::*;
use crate::screen::{
    new_screen, put_pixel, put_spec, raw_bytes, screen_bytes, screen_height, screen_width, Screen,
    FRAME_BYTES, VISIBLE_HEIGHT, VISIBLE_WIDTH,
};

verus! {

pub const VRAM_SIZE: usize = 0x2000;

pub const OAM_ENTRIES: usize = 0xA0;

pub const LINE_WIDTH: usize = 256;

/// Dots in a scanline.
pub const DOTS: u16 = 456;

/// Scanlines in a frame.
pub const LINES: u8 = 154;

/// The first line of vertical blanking.
pub const VBLANK_LINE: u8 = 144;

/// Sprites kept for one line.
pub const MAX_SPRITES: usize = 10;

/// Bit `n` of `v`.
pub open spec fn bit(v: u8, n: u8) -> bool {
    (v >> n) & 1 == 1
}

pub fn get_bit(v: u8, n: u8) -> (r: bool)
    requires
        n < 8,
    ensures
        r == bit(v, n),
{
    (v >> n) & 1 == 1
}

/// Colour index `idx` of a packed palette `ddccbbaa`.
pub open spec fn palette_color(pal: u8, idx: u8) -> u8 {
    (pal >> (2 * (idx & 3)) as u8) & 3
}

fn palette_lookup(pal: u8, idx: u8) -> (r: u8)
    ensures
        r == palette_color(pal, idx),
{
    let k = idx & 3;
    assert(k < 4) by (bit_vector)
        requires
            k == idx & 3,
    ;
    (pal >> (2 * k)) & 3
}

/// Colour index of pixel `j` (from the left) of a tile row whose two bytes
/// are `first` and `second`: the bit of `first` is the high bit.
pub open spec fn tile_pixel(first: u8, second: u8, j: int) -> u8 {
    (2 * ((first >> (7 - j) as u8) & 1) + ((second >> (7 - j) as u8) & 1)) as u8
}

/// The tile number read as a signed offset.
pub open spec fn signed_tile(tile: u8) -> int {
    if tile < 128 {
        tile as int
    } else {
        tile - 256
    }
}

/// VRAM offset of row `row` of tile `tile`; signed addressing is based at
/// 0x9000, unsigned at 0x8000.
pub open spec fn tile_addr(tile: u8, row: u8, signed: bool) -> int {
    if signed {
        0x1000 + row * 2 + signed_tile(tile) * 16
    } else {
        row * 2 + tile * 16
    }
}

/// `line` with the eight entries from `x` on replaced by `cols`.
pub open spec fn overlay<T>(line: Seq<T>, x: int, cols: Seq<T>) -> Seq<T> {
    Seq::new(line.len(), |i: int| if x <= i < x + 8 { cols[i - x] } else { line[i] })
}

/// Position in the scan after one dot.
pub open spec fn next_dot(c: u16) -> u16 {
    if c + 1 >= DOTS {
        0
    } else {
        (c + 1) as u16
    }
}

pub open spec fn next_line(l: u8, c: u16) -> u8 {
    let l2 = if c + 1 >= DOTS {
        l + 1
    } else {
        l as int
    };
    if l2 >= LINES {
        0
    } else {
        l2 as u8
    }
}

/// The mode at a scan position: OAM scan for dots 0..=79, drawing for
/// 80..=239 and horizontal blanking for 240..=455 on the visible lines
/// 0..=143; vertical blanking on lines 144..=153.
pub open spec fn mode_of(line: u8, dot: u16) -> Mode {
    if line >= VBLANK_LINE {
        Mode::VBlank
    } else if dot < 80 {
        Mode::OamScan
    } else if dot < 240 {
        Mode::Drawing
    } else {
        Mode::HBlank
    }
}

/// One sprite attribute entry.
#[derive(Debug, Copy, Clone)]
pub struct Oam {
    pub y_pos: u8,
    pub x_pos: u8,
    pub tile_num: u8,
    /// Bit 4 palette, bit 5 x flip, bit 6 y flip, bit 7 behind background.
    pub sprite_flag: u8,
}

/// A sprite pixel: its colour index, its palette colour, and whether the
/// background wins over it.
#[derive(Debug, Copy, Clone)]
pub struct OamColor {
    pub index: u8,
    pub color: u8,
    pub blend: bool,
}

pub open spec fn blank_oam() -> Oam {
    Oam { y_pos: 0, x_pos: 0, tile_num: 0, sprite_flag: 0 }
}

pub open spec fn blank_color() -> OamColor {
    OamColor { index: 0, color: 0, blend: false }
}

impl OamColor {
    /// One sprite pixel per colour index, coloured through `palette`.
    pub fn from_indexes(indexes: [u8; 8], blend: bool, palette: u8) -> (r: [OamColor; 8])
        ensures
            forall|j: int|
                0 <= j < 8 ==> r@[j] == (OamColor {
                    index: indexes@[j],
                    color: palette_color(palette, indexes@[j]),
                    blend,
                }),
    {
        let mut colors = [OamColor { index: 0, color: 0, blend: false };8];
        let mut j: usize = 0;
        while j < 8
            invariant
                j <= 8,
                colors@.len() == 8,
                forall|k: int|
                    0 <= k < j ==> colors@[k] == (OamColor {
                        index: indexes@[k],
                        color: palette_color(palette, indexes@[k]),
                        blend,
                    }),
            decreases 8 - j,
        {
            let index = indexes[j];
            colors[j] = OamColor { index, blend, color: palette_lookup(palette, index) };
            j += 1;
        }
        colors
    }
}

#[derive(Debug, Copy, Clone, PartialEq, Eq, Structural)]
pub enum Mode {
    HBlank,
    VBlank,
    OamScan,
    Drawing,
}

/// The pixel unit: video RAM, sprite table, registers, the dot/line scan
/// and the line buffers it composes the visible frame from.
pub struct Ppu {
    pub vram: Vec<u8>,
    pub mode: Mode,
    pub lcd_control: u8,
    pub lcd_status: u8,
    pub window_x: u8,
    pub window_y: u8,
    pub scroll_x: u8,
    pub scroll_y: u8,
    /// Dot within the line, 0..=455.
    pub cycles: u16,
    /// Line within the frame, 0..=153.
    pub lines: u8,
    pub lines_compare: u8,
    pub bg_palette: u8,
    pub object_palette_0: u8,
    pub object_palette_1: u8,
    pub int_v_blank: bool,
    pub int_lcd_stat: bool,
    /// Column being drawn.
    pub x: u8,
    /// Visible line being drawn.
    pub y: u8,
    pub oam: Vec<Oam>,
    /// Sprites found on this line by the scan.
    pub buffer: Vec<Oam>,
    pub bg_line: Vec<u8>,
    pub oam_line: Vec<OamColor>,
    /// The decoded background or window tile row under the column.
    pub cur_bg: [u8; 8],
    pub drawing_window: bool,
    pub pixels: Screen,
}

/// The fixed four shades, from lightest to darkest, as RGBA.
pub open spec fn shade(color: u8) -> Seq<u8> {
    if color == 0 {
        seq![0xD8u8, 0xF7, 0xD7, 0xFF]
    } else if color == 1 {
        seq![0x6Cu8, 0xA6, 0x6B, 0xFF]
    } else if color == 2 {
        seq![0x20u8, 0x59, 0x4A, 0xFF]
    } else if color == 3 {
        seq![0x00u8, 0x14, 0x1B, 0xFF]
    } else {
        seq![0xFFu8, 0xFF, 0xFF, 0xFF]
    }
}

fn color_to_pixel(color: u8) -> (r: [u8; 4])
    ensures
        r@ == shade(color),
{
    let r = match color {
        0 => [0xD8u8, 0xF7, 0xD7, 0xFF],
        1 => [0x6Cu8, 0xA6, 0x6B, 0xFF],
        2 => [0x20u8, 0x59, 0x4A, 0xFF],
        3 => [0x00u8, 0x14, 0x1B, 0xFF],
        _ => [0xFFu8, 0xFF, 0xFF, 0xFF],
    };
    assert(r@ =~= shade(color));
    r
}

impl Ppu {
    pub open spec fn wf(&self) -> bool {
        &&& self.vram@.len() == VRAM_SIZE
        &&& self.oam@.len() == OAM_ENTRIES
        &&& self.buffer@.len() <= MAX_SPRITES
        &&& self.bg_line@.len() == LINE_WIDTH
        &&& self.oam_line@.len() == LINE_WIDTH
        &&& self.cycles < DOTS
        &&& self.lines < LINES
        &&& self.mode == mode_of(self.lines, self.cycles)
        &&& screen_bytes(self.pixels).len() == FRAME_BYTES
        &&& screen_width(self.pixels) == VISIBLE_WIDTH
        &&& screen_height(self.pixels) == VISIBLE_HEIGHT
    }

    /// The eight colour indexes of row `row` of tile `tile`.
    pub open spec fn tile_row(&self, tile: u8, row: u8, signed: bool) -> Seq<u8> {
        let a = tile_addr(tile, row, signed);
        Seq::new(8, |j: int| tile_pixel(self.vram@[a], self.vram@[a + 1], j))
    }

    /// Row `row` of the tile at (`tile_x`, `tile_y`) of the tile map at
    /// 0x9C00 (`high`) or 0x9800.
    pub open spec fn map_row(&self, tile_x: u8, tile_y: u8, row: u8, high: bool) -> Seq<u8> {
        let m = (if high {
            0x1C00int
        } else {
            0x1800int
        }) + tile_x + tile_y * 32;
        self.tile_row(self.vram@[m], row, !bit(self.lcd_control, 4))
    }

    /// Background fetch for the current column: (tile row cache, line).
    pub open spec fn bg_step(&self, dw: bool, cur: Seq<u8>, line: Seq<u8>) -> (Seq<u8>, Seq<u8>) {
        if dw {
            (cur, line)
        } else {
            let cx = ((self.x + self.scroll_x) % 256) as u8;
            let cy = ((self.y + self.scroll_y) % 256) as u8;
            let col = cx % 8;
            let cur2 = if col == 0 || self.x == 0 {
                self.map_row(cx / 8, cy / 8, cy % 8, bit(self.lcd_control, 3))
            } else {
                cur
            };
            (cur2, line.update(self.x as int, cur2[col as int]))
        }
    }

    /// Window fetch for the current column: (window started, tile row cache,
    /// line). The window starts where the column reaches its origin.
    pub open spec fn window_step(&self, dw: bool, cur: Seq<u8>, line: Seq<u8>) -> (
        bool,
        Seq<u8>,
        Seq<u8>,
    ) {
        if !dw && !(self.x + 7 == self.window_x && self.y >= self.window_y) {
            (dw, cur, line)
        } else {
            let cx = ((self.x - self.window_x) % 256) as u8;
            let cy = ((self.y - self.window_y) % 256) as u8;
            let col = cx % 8;
            let cur2 = if col == 0 || self.x == 0 {
                self.map_row(cx / 8, cy / 8, cy % 8, bit(self.lcd_control, 6))
            } else {
                cur
            };
            (true, cur2, line.update(self.x as int, cur2[col as int]))
        }
    }

    /// The eight pixels of sprite `o` on the current line, left to right.
    pub open spec fn oam_colors(&self, o: Oam) -> Seq<OamColor> {
        let rel = ((self.y + 16 - o.y_pos) % 256) as u8;
        let tile = if bit(self.lcd_control, 2) {
            if rel / 8 % 2 == 1 {
                o.tile_num | 1
            } else {
                o.tile_num & 0xFE
            }
        } else {
            o.tile_num
        };
        let row = if bit(o.sprite_flag, 6) {
            (7 - rel % 8) as u8
        } else {
            rel % 8
        };
        let palette = if bit(o.sprite_flag, 4) {
            self.object_palette_1
        } else {
            self.object_palette_0
        };
        let idx = self.tile_row(tile, row, false);
        Seq::new(
            8,
            |j: int|
                {
                    let k = if bit(o.sprite_flag, 5) {
                        7 - j
                    } else {
                        j
                    };
                    OamColor {
                        index: idx[k],
                        color: palette_color(palette, idx[k]),
                        blend: bit(o.sprite_flag, 7),
                    }
                },
        )
    }

    /// The sprite line after the first `n` buffered sprites that start at the
    /// current column were drawn over `line`, later ones on top.
    pub open spec fn sprite_fold(&self, line: Seq<OamColor>, n: int) -> Seq<OamColor>
        decreases n,
    {
        if n <= 0 {
            line
        } else {
            let l = self.sprite_fold(line, n - 1);
            let o = self.buffer@[n - 1];
            if o.x_pos == self.x + 8 {
                overlay(l, self.x as int, self.oam_colors(o))
            } else {
                l
            }
        }
    }

    /// Whether sprite `i` of the table lies on the current line.
    pub open spec fn on_line(&self, i: int) -> bool {
        let o = self.oam@[i];
        let size = if bit(self.lcd_control, 2) {
            16int
        } else {
            8int
        };
        let cur_y = self.lines + 16;
        o.x_pos > 8 && cur_y < o.y_pos + size && o.y_pos <= cur_y
    }

    /// Final colour of column `x`: the sprite pixel where it is opaque and
    /// either in front or over background colour 0, else the background.
    pub open spec fn pixel_color(&self, x: int) -> u8 {
        let index = self.bg_line@[x];
        let o = self.oam_line@[x];
        if (!o.blend || index == 0) && o.index != 0 {
            o.color
        } else {
            palette_color(self.bg_palette, index)
        }
    }

    /// Timing: `self` is `old` after one dot of the scan, before the work
    /// of the new position.
    pub open spec fn advanced_from(&self, old: Ppu) -> bool {
        let c = next_dot(old.cycles);
        let l = next_line(old.lines, old.cycles);
        let new_line = old.cycles + 1 >= DOTS;
        let x1 = if c == 80 {
            0
        } else {
            old.x
        };
        &&& self.cycles == c
        &&& self.lines == l
        &&& self.x == if l < VBLANK_LINE && 81 <= c <= 239 {
            ((x1 + 1) % 256) as u8
        } else {
            x1
        }
        &&& self.y == if l < VBLANK_LINE {
            l
        } else {
            old.y
        }
        &&& self.mode == mode_of(l, c)
        &&& self.drawing_window == if l < VBLANK_LINE && c >= 240 {
            false
        } else {
            old.drawing_window
        }
        &&& self.int_v_blank == (old.int_v_blank || (l == VBLANK_LINE && c == 0))
        &&& self.buffer@ == if new_line {
            Seq::empty()
        } else {
            old.buffer@
        }
        &&& self.bg_line@ == if new_line {
            Seq::new(LINE_WIDTH as nat, |i: int| 0u8)
        } else {
            old.bg_line@
        }
        &&& self.oam_line@ == if new_line {
            Seq::new(LINE_WIDTH as nat, |i: int| blank_color())
        } else {
            old.oam_line@
        }
        &&& *self == Ppu {
            cycles: self.cycles,
            lines: self.lines,
            x: self.x,
            y: self.y,
            mode: self.mode,
            drawing_window: self.drawing_window,
            int_v_blank: self.int_v_blank,
            buffer: self.buffer,
            bg_line: self.bg_line,
            oam_line: self.oam_line,
            ..old
        }
    }

    /// The work of one position, by mode: fetch and compose in Drawing, emit
    /// a finished pixel in HBlank, examine a sprite every other dot of the
    /// scan.
    pub open spec fn worked_from(&self, mid: Ppu) -> bool {
        let lcdc = mid.lcd_control;
        match mid.mode {
            Mode::Drawing => {
                let (dw1, cur1, line1) = if bit(lcdc, 0) && bit(lcdc, 5) {
                    mid.window_step(mid.drawing_window, mid.cur_bg@, mid.bg_line@)
                } else {
                    (mid.drawing_window, mid.cur_bg@, mid.bg_line@)
                };
                let (cur2, line2) = if bit(lcdc, 0) {
                    mid.bg_step(dw1, cur1, line1)
                } else {
                    (cur1, line1)
                };
                let sprites = if bit(lcdc, 1) {
                    mid.sprite_fold(mid.oam_line@, mid.buffer@.len() as int)
                } else {
                    mid.oam_line@
                };
                &&& *self == Ppu {
                    drawing_window: dw1,
                    cur_bg: self.cur_bg,
                    bg_line: self.bg_line,
                    oam_line: self.oam_line,
                    ..mid
                }
                &&& self.cur_bg@ == cur2
                &&& self.bg_line@ == line2
                &&& self.oam_line@ == sprites
            },
            Mode::HBlank => {
                if 240 <= mid.cycles < 400 && mid.y < VBLANK_LINE {
                    let x = mid.cycles - 240;
                    &&& *self == Ppu { pixels: self.pixels, ..mid }
                    &&& screen_bytes(self.pixels) == put_spec(
                        screen_bytes(mid.pixels),
                        VISIBLE_WIDTH as int,
                        x,
                        mid.y as int,
                        shade(mid.pixel_color(x)),
                    )
                } else {
                    *self == mid
                }
            },
            Mode::OamScan => {
                if mid.cycles % 2 == 0 && mid.cycles / 2 < OAM_ENTRIES {
                    let i = (mid.cycles / 2) as int;
                    &&& *self == Ppu { buffer: self.buffer, ..mid }
                    &&& self.buffer@ == if mid.on_line(i) && mid.buffer@.len() < MAX_SPRITES {
                        mid.buffer@.push(mid.oam@[i])
                    } else {
                        mid.buffer@
                    }
                } else {
                    *self == mid
                }
            },
            Mode::VBlank => *self == mid,
        }
    }
}

} // verus!

verus! {

impl Ppu {
    /// The power-on state: cleared memories, sprite table, line buffers and
    /// registers, at line 0, dot 0 of the frame (OAM scan).
    pub open spec fn is_initial(&self) -> bool {
        &&& self.wf()
        &&& self.vram@ == Seq::new(VRAM_SIZE as nat, |i: int| 0u8)
        &&& self.mode == Mode::OamScan
        &&& self.oam@ == Seq::new(OAM_ENTRIES as nat, |i: int| blank_oam())
        &&& self.bg_line@ == Seq::new(LINE_WIDTH as nat, |i: int| 0u8)
        &&& self.oam_line@ == Seq::new(LINE_WIDTH as nat, |i: int| blank_color())
        &&& self.cur_bg@ == Seq::new(8, |i: int| 0u8)
        &&& self.cycles == 0 && self.lines == 0 && self.x == 0 && self.y == 0
        &&& self.lcd_control == 0 && self.lcd_status == 0
        &&& self.scroll_x == 0 && self.scroll_y == 0 && self.window_x == 0 && self.window_y == 0
        &&& self.lines_compare == 0
        &&& self.bg_palette == 0 && self.object_palette_0 == 0 && self.object_palette_1 == 0
        &&& !self.int_v_blank && !self.int_lcd_stat && !self.drawing_window
        &&& self.buffer@.len() == 0
        &&& screen_bytes(self.pixels) == Seq::new(FRAME_BYTES as nat, |i: int| 0u8)
    }

    pub fn new() -> (r: Ppu)
        ensures
            r.is_initial(),
    {
        let vram = vec![0u8; VRAM_SIZE];
        let oam = vec![Oam { y_pos: 0, x_pos: 0, tile_num: 0, sprite_flag: 0 }; OAM_ENTRIES];
        let bg_line = vec![0u8; LINE_WIDTH];
        let oam_line = vec![OamColor { index: 0, color: 0, blend: false }; LINE_WIDTH];
        let cur_bg = [0u8; 8];
        assert(vram@ =~= Seq::new(VRAM_SIZE as nat, |i: int| 0u8));
        assert(oam@ =~= Seq::new(OAM_ENTRIES as nat, |i: int| blank_oam()));
        assert(bg_line@ =~= Seq::new(LINE_WIDTH as nat, |i: int| 0u8));
        assert(oam_line@ =~= Seq::new(LINE_WIDTH as nat, |i: int| blank_color()));
        assert(cur_bg@ =~= Seq::new(8, |i: int| 0u8));
        Ppu {
            vram,
            mode: Mode::OamScan,
            lcd_control: 0,
            lcd_status: 0,
            window_x: 0,
            window_y: 0,
            scroll_x: 0,
            scroll_y: 0,
            cycles: 0,
            lines: 0,
            lines_compare: 0,
            bg_palette: 0,
            object_palette_0: 0,
            object_palette_1: 0,
            int_v_blank: false,
            int_lcd_stat: false,
            x: 0,
            y: 0,
            oam,
            buffer: Vec::new(),
            bg_line,
            oam_line,
            cur_bg,
            drawing_window: false,
            pixels: new_screen(VISIBLE_WIDTH as u32, VISIBLE_HEIGHT as u32),
        }
    }

    fn tile_to_indexes(&self, tile_num: u8, row: u8, signed: bool) -> (r: [u8; 8])
        requires
            self.wf(),
            row < 8,
        ensures
            r@ == self.tile_row(tile_num, row, signed),
    {
        let addr: usize = if signed {
            let t: i32 = if tile_num < 128 {
                tile_num as i32
            } else {
                tile_num as i32 - 256
            };
            (0x1000i32 + row as i32 * 2 + t * 16) as usize
        } else {
            row as usize * 2 + tile_num as usize * 16
        };
        let first = self.vram[addr];
        let second = self.vram[addr + 1];
        let mut indexes = [0u8; 8];
        let mut j: usize = 0;
        while j < 8
            invariant
                j <= 8,
                indexes@.len() == 8,
                forall|k: int| 0 <= k < j ==> indexes@[k] == tile_pixel(first, second, k),
            decreases 8 - j,
        {
            let s = (7 - j) as u8;
            let hi = (first >> s) & 1;
            let lo = (second >> s) & 1;
            assert(hi <= 1 && lo <= 1) by (bit_vector)
                requires
                    hi == (first >> s) & 1,
                    lo == (second >> s) & 1,
            ;
            indexes[j] = 2 * hi + lo;
            j += 1;
        }
        assert(indexes@ =~= self.tile_row(tile_num, row, signed));
        indexes
    }

    fn tile_map_to_colors(&self, tile_x: u8, tile_y: u8, row: u8, high: bool) -> (r: [u8; 8])
        requires
            self.wf(),
            tile_x < 32,
            tile_y < 32,
            row < 8,
        ensures
            r@ == self.map_row(tile_x, tile_y, row, high),
    {
        let base: usize = if high {
            0x1C00
        } else {
            0x1800
        };
        let tile_num = self.vram[base + tile_x as usize + tile_y as usize * 32];
        self.tile_to_indexes(tile_num, row, !get_bit(self.lcd_control, 4))
    }

    fn oam_to_colors(&self, oam: &Oam) -> (r: [OamColor; 8])
        requires
            self.wf(),
        ensures
            r@ == self.oam_colors(*oam),
    {
        let rel = self.y.wrapping_add(16).wrapping_sub(oam.y_pos);
        let tile = if get_bit(self.lcd_control, 2) {
            if rel / 8 % 2 == 1 {
                oam.tile_num | 1
            } else {
                oam.tile_num & 0xFE
            }
        } else {
            oam.tile_num
        };
        let row = if get_bit(oam.sprite_flag, 6) {
            7 - rel % 8
        } else {
            rel % 8
        };
        let palette = if get_bit(oam.sprite_flag, 4) {
            self.object_palette_1
        } else {
            self.object_palette_0
        };
        let blend = get_bit(oam.sprite_flag, 7);
        let colors = OamColor::from_indexes(self.tile_to_indexes(tile, row, false), blend, palette);
        let flip = get_bit(oam.sprite_flag, 5);
        let mut out = colors;
        if flip {
            let mut j: usize = 0;
            while j < 8
                invariant
                    j <= 8,
                    out@.len() == 8,
                    forall|k: int| 0 <= k < j ==> out@[k] == colors@[7 - k],
                decreases 8 - j,
            {
                out[j] = colors[7 - j];
                j += 1;
            }
        }
        assert(out@ =~= self.oam_colors(*oam));
        out
    }

    fn scan_oam(&mut self, i: usize)
        requires
            old(self).wf(),
            i < OAM_ENTRIES,
        ensures
            final(self).wf(),
            *final(self) == (Ppu { buffer: final(self).buffer, ..*old(self) }),
            final(self).buffer@ == if old(self).on_line(i as int) && old(self).buffer@.len()
                < MAX_SPRITES {
                old(self).buffer@.push(old(self).oam@[i as int])
            } else {
                old(self).buffer@
            },
    {
        let size: u16 = if get_bit(self.lcd_control, 2) {
            16
        } else {
            8
        };
        let oam = self.oam[i];
        let cur_y = self.lines as u16 + 16;
        let target_y = oam.y_pos as u16;
        if oam.x_pos > 8 && cur_y < target_y + size && target_y <= cur_y && self.buffer.len()
            < MAX_SPRITES {
            self.buffer.push(oam);
        }
    }

    fn draw_bg(&mut self)
        requires
            old(self).wf(),
        ensures
            final(self).wf(),
            *final(self) == (Ppu {
                cur_bg: final(self).cur_bg,
                bg_line: final(self).bg_line,
                ..*old(self)
            }),
            (final(self).cur_bg@, final(self).bg_line@) == old(self).bg_step(
                old(self).drawing_window,
                old(self).cur_bg@,
                old(self).bg_line@,
            ),
    {
        if self.drawing_window {
            return;
        }
        let cx = self.x.wrapping_add(self.scroll_x);
        let cy = self.y.wrapping_add(self.scroll_y);
        assert(cx == ((self.x + self.scroll_x) % 256) as u8);
        assert(cy == ((self.y + self.scroll_y) % 256) as u8);
        let col = cx % 8;
        let ghost step = self.bg_step(self.drawing_window, self.cur_bg@, self.bg_line@);
        if col == 0 || self.x == 0 {
            self.cur_bg = self.tile_map_to_colors(
                cx / 8,
                cy / 8,
                cy % 8,
                get_bit(self.lcd_control, 3),
            );
        }
        assert(self.cur_bg@ == step.0);
        let v = self.cur_bg[col as usize];
        self.bg_line.set(self.x as usize, v);
        assert(self.bg_line@ == step.1);
    }

    #[verifier::rlimit(40)]
    fn draw_window(&mut self)
        requires
            old(self).wf(),
        ensures
            final(self).wf(),
            *final(self) == (Ppu {
                drawing_window: final(self).drawing_window,
                cur_bg: final(self).cur_bg,
                bg_line: final(self).bg_line,
                ..*old(self)
            }),
            (final(self).drawing_window, final(self).cur_bg@, final(self).bg_line@)
                == old(self).window_step(
                old(self).drawing_window,
                old(self).cur_bg@,
                old(self).bg_line@,
            ),
    {
        if !self.drawing_window && !(self.x as u16 + 7 == self.window_x as u16 && self.y
            >= self.window_y) {
            return;
        }
        let ghost step = old(self).window_step(
            old(self).drawing_window,
            old(self).cur_bg@,
            old(self).bg_line@,
        );
        self.drawing_window = true;
        let cx = self.x.wrapping_sub(self.window_x);
        let cy = self.y.wrapping_sub(self.window_y);
        assert(cx == ((self.x - self.window_x) % 256) as u8);
        assert(cy == ((self.y - self.window_y) % 256) as u8);
        let col = cx % 8;
        if col == 0 || self.x == 0 {
            self.cur_bg = self.tile_map_to_colors(
                cx / 8,
                cy / 8,
                cy % 8,
                get_bit(self.lcd_control, 6),
            );
        }
        assert(self.cur_bg@ == step.1);
        let v = self.cur_bg[col as usize];
        self.bg_line.set(self.x as usize, v);
        assert(self.bg_line@ == step.2);
    }

    fn draw_sprite(&mut self)
        requires
            old(self).wf(),
        ensures
            final(self).wf(),
            *final(self) == (Ppu { oam_line: final(self).oam_line, ..*old(self) }),
            final(self).oam_line@ == old(self).sprite_fold(
                old(self).oam_line@,
                old(self).buffer@.len() as int,
            ),
    {
        let ghost pre = *self;
        let mut i: usize = 0;
        while i < self.buffer.len()
            invariant
                self.wf(),
                i <= self.buffer@.len(),
                *self == (Ppu { oam_line: self.oam_line, ..pre }),
                self.oam_line@ == pre.sprite_fold(pre.oam_line@, i as int),
            decreases self.buffer@.len() - i,
        {
            let oam = self.buffer[i];
            if oam.x_pos as u16 == self.x as u16 + 8 {
                let x = self.x as usize;
                let colors = self.oam_to_colors(&oam);
                let ghost before = self.oam_line@;
                let mut k: usize = 0;
                while k < 8
                    invariant
                        self.wf(),
                        k <= 8,
                        x + 8 <= LINE_WIDTH,
                        *self == (Ppu { oam_line: self.oam_line, ..pre }),
                        self.oam_line@.len() == before.len(),
                        forall|m: int|
                            0 <= m < before.len() ==> self.oam_line@[m] == if x <= m < x + k {
                                colors@[m - x]
                            } else {
                                before[m]
                            },
                    decreases 8 - k,
                {
                    self.oam_line.set(x + k, colors[k]);
                    k += 1;
                }
                assert(self.oam_line@ =~= overlay(before, x as int, pre.oam_colors(oam)));
            }
            i += 1;
        }
    }

    fn put_pixels(&mut self, x: u8)
        requires
            old(self).wf(),
            x < VISIBLE_WIDTH,
            old(self).y < VISIBLE_HEIGHT,
        ensures
            final(self).wf(),
            *final(self) == (Ppu { pixels: final(self).pixels, ..*old(self) }),
            screen_bytes(final(self).pixels) == put_spec(
                screen_bytes(old(self).pixels),
                VISIBLE_WIDTH as int,
                x as int,
                old(self).y as int,
                shade(old(self).pixel_color(x as int)),
            ),
    {
        let index = self.bg_line[x as usize];
        let mut color = palette_lookup(self.bg_palette, index);
        let oam = self.oam_line[x as usize];
        if (!oam.blend || index == 0) && oam.index != 0 {
            color = oam.color;
        }
        put_pixel(&mut self.pixels, x as u32, self.y as u32, color_to_pixel(color));
    }

    fn advance(&mut self)
        requires
            old(self).wf(),
        ensures
            final(self).wf(),
            final(self).advanced_from(*old(self)),
    {
        self.cycles = self.cycles + 1;
        if self.cycles >= DOTS {
            self.cycles = 0;
            self.lines = self.lines + 1;
            self.buffer.clear();
            self.bg_line = vec![0u8; LINE_WIDTH];
            self.oam_line = vec![OamColor { index: 0, color: 0, blend: false }; LINE_WIDTH];
            assert(self.bg_line@ =~= Seq::new(LINE_WIDTH as nat, |i: int| 0u8));
            assert(self.oam_line@ =~= Seq::new(LINE_WIDTH as nat, |i: int| blank_color()));
        }
        if self.lines >= LINES {
            self.lines = 0;
        }
        if self.cycles == 80 {
            self.x = 0;
        }
        if self.lines < VBLANK_LINE {
            self.y = self.lines;
            if self.cycles < 80 {
                self.mode = Mode::OamScan;
            } else if self.cycles < 240 {
                self.mode = Mode::Drawing;
                if self.cycles > 80 {
                    self.x = self.x.wrapping_add(1);
                }
            } else {
                self.mode = Mode::HBlank;
                self.drawing_window = false;
            }
        } else {
            self.mode = Mode::VBlank;
            if self.lines == VBLANK_LINE && self.cycles == 0 {
                self.int_v_blank = true;
            }
        }
    }

    fn work(&mut self)
        requires
            old(self).wf(),
        ensures
            final(self).wf(),
            final(self).worked_from(*old(self)),
    {
        match self.mode {
            Mode::Drawing => {
                let ghost pre = *self;
                if get_bit(self.lcd_control, 0) {
                    if get_bit(self.lcd_control, 5) {
                        self.draw_window();
                    }
                    let ghost w = *self;
                    self.draw_bg();
                    assert(w.bg_step(w.drawing_window, w.cur_bg@, w.bg_line@) == pre.bg_step(
                        w.drawing_window,
                        w.cur_bg@,
                        w.bg_line@,
                    ));
                }
                let ghost b = *self;
                if get_bit(self.lcd_control, 1) {
                    self.draw_sprite();
                    assert(b.sprite_fold(b.oam_line@, b.buffer@.len() as int) == pre.sprite_fold(
                        pre.oam_line@,
                        pre.buffer@.len() as int,
                    )) by {
                        lemma_sprite_fold_frame(b, pre, pre.oam_line@, pre.buffer@.len() as int);
                    }
                }
            },
            Mode::HBlank => {
                if self.cycles >= 240 && self.cycles < 400 && self.y < VBLANK_LINE {
                    self.put_pixels((self.cycles - 240) as u8);
                }
            },
            Mode::OamScan => {
                if self.cycles % 2 == 0 && ((self.cycles / 2) as usize) < OAM_ENTRIES {
                    self.scan_oam((self.cycles / 2) as usize);
                }
            },
            Mode::VBlank => {},
        }
    }

    /// `self` is `old` after one dot: the scan position moved on, the
    /// vertical blanking interrupt raised on entering line 144 (at its dot
    /// 0, once per frame), and the
    /// work of the new position done.
    pub open spec fn ticked_from(&self, old: Ppu) -> bool {
        &&& self.wf()
        &&& self.cycles == next_dot(old.cycles)
        &&& self.lines == next_line(old.lines, old.cycles)
        &&& self.int_v_blank == (old.int_v_blank || (self.lines == VBLANK_LINE && self.cycles
            == 0))
        &&& exists|mid: Ppu| mid.advanced_from(old) && self.worked_from(mid)
    }

    /// Advances the scan by one dot and does that position's work.
    pub fn tick(&mut self)
        requires
            old(self).wf(),
        ensures
            final(self).ticked_from(*old(self)),
    {
        self.advance();
        let ghost mid = *self;
        self.work();
        assert(mid.advanced_from(*old(self)) && self.worked_from(mid));
    }
}

} // verus!

verus! {

/// The sprite fold reads only the buffer, the column, the line and the
/// sprite drawing state: two units that agree there agree on it.
proof fn lemma_sprite_fold_frame(a: Ppu, b: Ppu, line: Seq<OamColor>, n: int)
    requires
        a.buffer == b.buffer,
        a.x == b.x,
        a.y == b.y,
        a.vram == b.vram,
        a.lcd_control == b.lcd_control,
        a.object_palette_0 == b.object_palette_0,
        a.object_palette_1 == b.object_palette_1,
    ensures
        a.sprite_fold(line, n) == b.sprite_fold(line, n),
    decreases n,
{
    if n > 0 {
        lemma_sprite_fold_frame(a, b, line, n - 1);
        if 0 <= n - 1 < a.buffer@.len() {
            assert(a.oam_colors(a.buffer@[n - 1]) == b.oam_colors(b.buffer@[n - 1]));
        }
    }
}

} // verus!

verus! {

impl Ppu {
    /// The sprite table byte at `addr`: y, x, tile, flags of entry
    /// (addr - 0xFE00) / 4.
    pub open spec fn oam_byte(&self, addr: u16) -> u8 {
        let o = self.oam@[(addr - 0xFE00) / 4];
        let off = (addr - 0xFE00) % 4;
        if off == 0 {
            o.y_pos
        } else if off == 1 {
            o.x_pos
        } else if off == 2 {
            o.tile_num
        } else {
            o.sprite_flag
        }
    }

    pub fn read(&self, addr: u16) -> (r: u8)
        requires
            self.wf(),
            0x8000 <= addr <= 0x9FFF,
        ensures
            r == self.vram@[addr - 0x8000],
    {
        self.vram[(addr - 0x8000) as usize]
    }

    pub fn write(&mut self, addr: u16, val: u8)
        requires
            old(self).wf(),
            0x8000 <= addr <= 0x9FFF,
        ensures
            final(self).wf(),
            *final(self) == (Ppu { vram: final(self).vram, ..*old(self) }),
            final(self).vram@ == old(self).vram@.update(addr - 0x8000, val),
    {
        self.vram.set((addr - 0x8000) as usize, val);
    }

    pub fn read_oam(&self, addr: u16) -> (r: u8)
        requires
            self.wf(),
            0xFE00 <= addr <= 0xFE9F,
        ensures
            r == self.oam_byte(addr),
    {
        let index_addr = addr - 0xFE00;
        let oam = self.oam[(index_addr / 4) as usize];
        match index_addr % 4 {
            0 => oam.y_pos,
            1 => oam.x_pos,
            2 => oam.tile_num,
            _ => oam.sprite_flag,
        }
    }

    pub fn write_oam(&mut self, addr: u16, val: u8)
        requires
            old(self).wf(),
            0xFE00 <= addr <= 0xFE9F,
        ensures
            final(self).wf(),
            *final(self) == (Ppu { oam: final(self).oam, ..*old(self) }),
            final(self).oam@.len() == old(self).oam@.len(),
            forall|a: u16|
                0xFE00 <= a <= 0xFE9F ==> final(self).oam_byte(a) == if a == addr {
                    val
                } else {
                    old(self).oam_byte(a)
                },
    {
        let index_addr = addr - 0xFE00;
        let index = (index_addr / 4) as usize;
        let mut oam = self.oam[index];
        match index_addr % 4 {
            0 => {
                oam.y_pos = val;
            },
            1 => {
                oam.x_pos = val;
            },
            2 => {
                oam.tile_num = val;
            },
            _ => {
                oam.sprite_flag = val;
            },
        }
        self.oam.set(index, oam);
    }

    pub fn read_lcd_control(&self) -> (r: u8)
        ensures
            r == self.lcd_control,
    {
        self.lcd_control
    }

    pub fn write_lcd_control(&mut self, val: u8)
        ensures
            *final(self) == (Ppu { lcd_control: val, ..*old(self) }),
    {
        self.lcd_control = val;
    }

    pub fn read_lcd_status(&self) -> (r: u8)
        ensures
            r == self.lcd_status,
    {
        self.lcd_status
    }

    pub fn write_lcd_status(&mut self, val: u8)
        ensures
            *final(self) == (Ppu { lcd_status: val, ..*old(self) }),
    {
        self.lcd_status = val;
    }

    pub fn read_scroll_y(&self) -> (r: u8)
        ensures
            r == self.scroll_y,
    {
        self.scroll_y
    }

    pub fn write_scroll_y(&mut self, val: u8)
        ensures
            *final(self) == (Ppu { scroll_y: val, ..*old(self) }),
    {
        self.scroll_y = val;
    }

    pub fn read_scroll_x(&self) -> (r: u8)
        ensures
            r == self.scroll_x,
    {
        self.scroll_x
    }

    pub fn write_scroll_x(&mut self, val: u8)
        ensures
            *final(self) == (Ppu { scroll_x: val, ..*old(self) }),
    {
        self.scroll_x = val;
    }

    pub fn read_lines(&self) -> (r: u8)
        ensures
            r == self.lines,
    {
        self.lines
    }

    pub fn read_line_compare(&self) -> (r: u8)
        ensures
            r == self.lines_compare,
    {
        self.lines_compare
    }

    pub fn write_line_compare(&mut self, val: u8)
        ensures
            *final(self) == (Ppu { lines_compare: val, ..*old(self) }),
    {
        self.lines_compare = val;
    }

    pub fn read_window_x(&self) -> (r: u8)
        ensures
            r == self.window_x,
    {
        self.window_x
    }

    pub fn write_window_x(&mut self, val: u8)
        ensures
            *final(self) == (Ppu { window_x: val, ..*old(self) }),
    {
        self.window_x = val;
    }

    pub fn read_window_y(&self) -> (r: u8)
        ensures
            r == self.window_y,
    {
        self.window_y
    }

    pub fn write_window_y(&mut self, val: u8)
        ensures
            *final(self) == (Ppu { window_y: val, ..*old(self) }),
    {
        self.window_y = val;
    }

    pub fn read_bg_palette(&self) -> (r: u8)
        ensures
            r == self.bg_palette,
    {
        self.bg_palette
    }

    pub fn write_bg_palette(&mut self, val: u8)
        ensures
            *final(self) == (Ppu { bg_palette: val, ..*old(self) }),
    {
        self.bg_palette = val;
    }

    pub fn read_object_palette_0(&self) -> (r: u8)
        ensures
            r == self.object_palette_0,
    {
        self.object_palette_0
    }

    pub fn write_object_palette_0(&mut self, val: u8)
        ensures
            *final(self) == (Ppu { object_palette_0: val, ..*old(self) }),
    {
        self.object_palette_0 = val;
    }

    pub fn read_object_palette_1(&self) -> (r: u8)
        ensures
            r == self.object_palette_1,
    {
        self.object_palette_1
    }

    pub fn write_object_palette_1(&mut self, val: u8)
        ensures
            *final(self) == (Ppu { object_palette_1: val, ..*old(self) }),
    {
        self.object_palette_1 = val;
    }

    /// Copies the visible frame into `frame`: RGBA bytes, row-major, 160 by
    /// 144 pixels.
    pub fn render(&self, frame: &mut Vec<u8>)
        ensures
            final(frame)@ == screen_bytes(self.pixels),
    {
        *frame = raw_bytes(&self.pixels);
    }
}

} // verus!

verus! {

/// Dots in a frame: 456 per line, 154 lines.
pub open spec fn frame_dots() -> int {
    70224
}

/// Position of the scan within the frame, in dots.
pub open spec fn scan_pos(p: Ppu) -> int {
    p.lines * 456 + p.cycles
}

/// One tick moves the scan one dot on, wrapping at the end of the frame.
pub proof fn lemma_tick_pos(old: Ppu, new: Ppu)
    requires
        old.wf(),
        new.ticked_from(old),
    ensures
        scan_pos(new) == (scan_pos(old) + 1) % frame_dots(),
{
    assert(0 <= scan_pos(old) < frame_dots()) by (nonlinear_arith)
        requires
            old.lines < 154,
            old.cycles < 456,
            scan_pos(old) == old.lines * 456 + old.cycles,
    ;
}

proof fn lemma_frame_prefix(s: Seq<Ppu>, j: int)
    requires
        s.len() == frame_dots() + 1,
        s[0].wf(),
        0 <= j <= frame_dots(),
        forall|i: int| 0 <= i < frame_dots() ==> #[trigger] s[i + 1].ticked_from(s[i]),
    ensures
        forall|i: int| 0 <= i <= j ==> #[trigger] s[i].wf() && scan_pos(s[i]) == (scan_pos(s[0]) + i) % frame_dots(),
        s[0].lines == 0 && s[0].cycles == 0 && !s[0].int_v_blank ==> forall|i: int|
            0 <= i <= j ==> #[trigger] s[i].int_v_blank == (i >= 144 * 456),
    decreases j,
{
    assert(0 <= scan_pos(s[0]) < frame_dots()) by (nonlinear_arith)
        requires
            s[0].lines < 154,
            s[0].cycles < 456,
            scan_pos(s[0]) == s[0].lines * 456 + s[0].cycles,
    ;
    if j > 0 {
        lemma_frame_prefix(s, j - 1);
        let k = j - 1;
        assert(s[k + 1].ticked_from(s[k]));
        assert(s[k].wf());
        lemma_tick_pos(s[k], s[k + 1]);
        vstd::arithmetic::div_mod::lemma_add_mod_noop(scan_pos(s[0]) + k, 1, frame_dots());
        assert(scan_pos(s[j]) == (scan_pos(s[0]) + j) % frame_dots());
        if s[0].lines == 0 && s[0].cycles == 0 && !s[0].int_v_blank {
            assert(scan_pos(s[j]) == j % frame_dots());
            let p = s[j];
            assert(p.lines == scan_pos(p) / 456 && p.cycles == scan_pos(p) % 456)
                by (nonlinear_arith)
                requires
                    p.cycles < 456,
                    scan_pos(p) == p.lines * 456 + p.cycles,
                    p.lines >= 0,
                    p.cycles >= 0,
            ;
            if j < frame_dots() {
                assert(scan_pos(s[j]) == j);
            } else {
                assert(scan_pos(s[j]) == 0);
            }
        }
    }
}

/// Over one frame of ticks (456 dots times 154 lines) the scan comes back to
/// the line and dot it started at; started at line 0, dot 0 with no request
/// pending, the vertical blanking request is raised exactly once, at the
/// tick that enters line 144, and stays raised.
pub proof fn lemma_frame(s: Seq<Ppu>)
    requires
        s.len() == frame_dots() + 1,
        s[0].wf(),
        forall|i: int| 0 <= i < frame_dots() ==> #[trigger] s[i + 1].ticked_from(s[i]),
    ensures
        s[frame_dots()].lines == s[0].lines,
        s[frame_dots()].cycles == s[0].cycles,
        s[0].lines == 0 && s[0].cycles == 0 && !s[0].int_v_blank ==> forall|i: int|
            0 <= i <= frame_dots() ==> #[trigger] s[i].int_v_blank == (i >= 144 * 456),
{
    lemma_frame_prefix(s, frame_dots());
    let a = s[0];
    let b = s[frame_dots()];
    assert(b.wf());
    assert(scan_pos(b) == scan_pos(a) % frame_dots());
    assert(scan_pos(b) == scan_pos(a));
    assert(b.lines == a.lines && b.cycles == a.cycles) by (nonlinear_arith)
        requires
            a.cycles < 456,
            b.cycles < 456,
            a.lines * 456 + a.cycles == b.lines * 456 + b.cycles,
            a.lines >= 0,
            b.lines >= 0,
    ;
}

} // verus!

verus! {

impl Default for OamColor {
    fn default() -> (r: OamColor)
        ensures
            r == blank_color(),
    {
        OamColor { index: 0, color: 0, blend: false }
    }
}

} // verus!
