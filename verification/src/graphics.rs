//! The pixel-processing unit: a mode state machine driven by the cumulative
//! machine-cycle timestamp (OAM scan, drawing, horizontal and vertical
//! blank), a background pixel fetcher over the scrolled tile maps, a
//! per-scanline sprite strip capped at ten sprites, and the STAT/VBLANK
//! interrupt side effects. The timing invariant `wf` pins LY to the
//! timestamp: each scanline spans 114 machine cycles and each frame 154
//! scanlines.

use vstd::prelude::*;

use crate::alu::{s_bit_mask, wrap16};
use crate::cpu::{INTERRUPT_FLAG_ADDRESS, LCD_FLAG, VBLANK_FLAG};
use crate::memory::{MemV, Memory, memv_wf, write8_spec};
use crate::utils::{Address, Byte};

verus! {

pub const BYTES_PER_TILE: Address = 16;

pub const SCREEN_WIDTH: usize = 160;

pub const SCREEN_HEIGHT: usize = 144;

pub const OAM_ADDRESS: Address = 0xFE00;

pub const SCY_ADDRESS: Address = 0xFF42;

pub const SCX_ADDRESS: Address = 0xFF43;

pub const WY_ADDRESS: Address = 0xFF4A;

pub const WX_ADDRESS: Address = 0xFF4B;

pub const LY_ADDRESS: Address = 0xFF44;

pub const LYC_ADDRESS: Address = 0xFF45;

pub const LCDC_ADDRESS: Address = 0xFF40;

pub const LCDC_ENABLE_FLAG: Byte = 0b1000_0000;

pub const WINDOW_TILE_MAP_FLAG: Byte = 0b0100_0000;

pub const WINDOW_ENABLE_FLAG: Byte = 0b0010_0000;

pub const BGW_TILES_DATA_FLAG: Byte = 0b0001_0000;

pub const BG_TILE_MAP_FLAG: Byte = 0b0000_1000;

pub const OBJ_SIZE_FLAG: Byte = 0b0000_0100;

pub const OBJ_ENABLE_FLAG: Byte = 0b0000_0010;

pub const BGW_ENABLE_FLAG: Byte = 0b0000_0001;

pub const BG_PALETTE_ADDRESS: Address = 0xFF47;

pub const OBP0_ADDRESS: Address = 0xFF48;

pub const OBP1_ADDRESS: Address = 0xFF49;

pub const OBJ_TILE_ADDRESS: Address = 0x8000;

pub const OBJ_COUNT: usize = 40;

pub const OBJ_PRIORITY_FLAG: Byte = 0b1000_0000;

pub const OBJ_YFLIP_FLAG: Byte = 0b0100_0000;

pub const OBJ_XFLIP_FLAG: Byte = 0b0010_0000;

pub const OBJ_PALETTE_FLAG: Byte = 0b0001_0000;

pub const LCD_STATUS_ADDRESS: Address = 0xFF41;

pub const LCY_INT_FLAG: Byte = 0b0100_0000;

pub const MODE2_INT_FLAG: Byte = 0b0010_0000;

pub const MODE1_INT_FLAG: Byte = 0b0001_0000;

pub const MODE0_INT_FLAG: Byte = 0b0000_1000;

pub const LYC_EQ_LY_FLAG: Byte = 0b0000_0100;

pub const SCANLINE_CYCLES: u128 = 114;

/// Where a pixel came from: the background/window layer (with the layer's
/// enable bit), or a sprite, by its OAM index.
#[derive(Debug, Clone, Copy, PartialEq, Eq, Structural)]
pub enum PixelSource {
    Background { enabled: bool },
    Object { number: usize },
}

/// A pending pixel: a 2-bit color index and its source.
#[derive(Debug, Clone, Copy, PartialEq, Eq, Structural)]
pub struct Pixel {
    pub color_ref: u8,
    pub pixel_source: PixelSource,
}

impl Pixel {
    pub fn new(color_ref: u8, pixel_source: PixelSource) -> (r: Self)
        ensures
            r == (Pixel { color_ref, pixel_source }),
    {
        Self { color_ref, pixel_source }
    }
}

/// The transparent placeholder a sprite strip starts from.
pub open spec fn transparent_pix() -> Pixel {
    Pixel { color_ref: 0, pixel_source: PixelSource::Object { number: 0 } }
}

/// The 2-bit color index at (row, col) of the 16-byte tile at `address`:
/// bit (7-col) of the row's low byte is the low bit, the same bit of the
/// high byte is the high bit.
pub open spec fn tile_color_spec(mem: Seq<u8>, address: Address, row: int, col: int) -> u8 {
    let lsb = mem[wrap16(address + 2 * row) as int];
    let msb = mem[wrap16(address + 2 * row + 1) as int];
    let lo: u8 = if lsb & s_bit_mask((7 - col) as u8) == 0 {
        0
    } else {
        1
    };
    let hi: u8 = if msb & s_bit_mask((7 - col) as u8) == 0 {
        0
    } else {
        1
    };
    (hi * 2 + lo) as u8
}

/// An 8-by-8 tile of decoded pixels, row-major.
pub struct Tile {
    pub pixels: Vec<Pixel>,
}

impl Tile {
    pub open spec fn wf(&self) -> bool {
        self.pixels@.len() == 64
    }

    pub open spec fn at(&self, row: int, col: int) -> Pixel {
        self.pixels@[row * 8 + col]
    }

    /// Decode the 16-byte tile at `address` into pixels carrying the given
    /// source.
    pub fn fetch_tile(memory: &Memory, pixel_source: PixelSource, address: Address) -> (r: Self)
        requires
            memory.wf(),
        ensures
            r.wf(),
            forall|row: int, col: int|
                0 <= row < 8 && 0 <= col < 8 ==> r.at(row, col) == (Pixel {
                    color_ref: tile_color_spec(memory@.mem, address, row, col),
                    pixel_source,
                }),
    {
        let mut pixels: Vec<Pixel> = Vec::new();
        let mut row: usize = 0;
        while row < 8
            invariant
                memory.wf(),
                row <= 8,
                pixels@.len() == row * 8,
                forall|r2: int, c2: int|
                    0 <= r2 < row && 0 <= c2 < 8 ==> pixels@[r2 * 8 + c2] == (Pixel {
                        color_ref: tile_color_spec(memory@.mem, address, r2, c2),
                        pixel_source,
                    }),
            decreases 8 - row,
        {
            let lsb_address = crate::cpu::wadd16(address, (2 * row) as Address);
            let msb_address = crate::cpu::wadd16(address, (2 * row + 1) as Address);
            let lsb = memory.read_byte(lsb_address);
            let msb = memory.read_byte(msb_address);
            let mut col: usize = 0;
            while col < 8
                invariant
                    memory.wf(),
                    row < 8,
                    col <= 8,
                    lsb == memory@.mem[wrap16(address + 2 * row) as int],
                    msb == memory@.mem[wrap16(address + 2 * row + 1) as int],
                    pixels@.len() == row * 8 + col,
                    forall|r2: int, c2: int|
                        0 <= r2 < 8 && 0 <= c2 < 8 && r2 * 8 + c2 < row * 8 + col ==> pixels@[r2 * 8
                            + c2] == (Pixel {
                            color_ref: tile_color_spec(memory@.mem, address, r2, c2),
                            pixel_source,
                        }),
            decreases 8 - col,
            {
                let m = crate::alu::bit_mask_of((7 - col) as u8);
                let lo: u8 = if lsb & m == 0 {
                    0
                } else {
                    1
                };
                let hi: u8 = if msb & m == 0 {
                    0
                } else {
                    1
                };
                pixels.push(Pixel { color_ref: hi * 2 + lo, pixel_source });
                col = col + 1;
            }
            row = row + 1;
        }
        Tile { pixels }
    }

    /// The pixels of row `y` from column `x` to the right edge.
    pub fn get_range(&self, x: usize, y: usize) -> (r: Vec<Pixel>)
        requires
            self.wf(),
            x < 8,
            y < 8,
        ensures
            r@.len() == 8 - x,
            forall|i: int| 0 <= i < 8 - x ==> r@[i] == self.at(y as int, x + i),
    {
        let mut r: Vec<Pixel> = Vec::new();
        let mut i: usize = x;
        while i < 8
            invariant
                self.wf(),
                x <= i <= 8,
                y < 8,
                r@.len() == i - x,
                forall|j: int| 0 <= j < i - x ==> r@[j] == self.at(y as int, x + j),
            decreases 8 - i,
        {
            r.push(self.pixels[y * 8 + i]);
            i = i + 1;
        }
        r
    }

    /// Mirror each row horizontally.
    pub fn flip_x(&mut self)
        requires
            old(self).wf(),
        ensures
            final(self).wf(),
            forall|row: int, col: int|
                0 <= row < 8 && 0 <= col < 8 ==> final(self).at(row, col) == old(self).at(row, 7 - col),
    {
        let mut pixels: Vec<Pixel> = Vec::new();
        let mut row: usize = 0;
        while row < 8
            invariant
                old(self).wf(),
                row <= 8,
                pixels@.len() == row * 8,
                forall|r2: int, c2: int| #![trigger pixels@[r2 * 8 + c2]]
                    0 <= r2 < row && 0 <= c2 < 8 ==> pixels@[r2 * 8 + c2] == old(self).at(r2, 7 - c2),
            decreases 8 - row,
        {
            let mut col: usize = 0;
            while col < 8
                invariant
                    old(self).wf(),
                    row < 8,
                    col <= 8,
                    pixels@.len() == row * 8 + col,
                    forall|r2: int, c2: int| #![trigger pixels@[r2 * 8 + c2]]
                        0 <= r2 < 8 && 0 <= c2 < 8 && r2 * 8 + c2 < row * 8 + col ==> pixels@[r2 * 8
                            + c2] == old(self).at(r2, 7 - c2),
                decreases 8 - col,
            {
                pixels.push(self.pixels[row * 8 + (7 - col)]);
                col = col + 1;
            }
            row = row + 1;
        }
        self.pixels = pixels;
    }

    /// Mirror the rows vertically.
    pub fn flip_y(&mut self)
        requires
            old(self).wf(),
        ensures
            final(self).wf(),
            forall|row: int, col: int|
                0 <= row < 8 && 0 <= col < 8 ==> final(self).at(row, col) == old(self).at(7 - row, col),
    {
        let mut pixels: Vec<Pixel> = Vec::new();
        let mut row: usize = 0;
        while row < 8
            invariant
                old(self).wf(),
                row <= 8,
                pixels@.len() == row * 8,
                forall|r2: int, c2: int| #![trigger pixels@[r2 * 8 + c2]]
                    0 <= r2 < row && 0 <= c2 < 8 ==> pixels@[r2 * 8 + c2] == old(self).at(7 - r2, c2),
            decreases 8 - row,
        {
            let mut col: usize = 0;
            while col < 8
                invariant
                    old(self).wf(),
                    row < 8,
                    col <= 8,
                    pixels@.len() == row * 8 + col,
                    forall|r2: int, c2: int| #![trigger pixels@[r2 * 8 + c2]]
                        0 <= r2 < 8 && 0 <= c2 < 8 && r2 * 8 + c2 < row * 8 + col ==> pixels@[r2 * 8
                            + c2] == old(self).at(7 - r2, c2),
                decreases 8 - col,
            {
                pixels.push(self.pixels[(7 - row) * 8 + col]);
                col = col + 1;
            }
            row = row + 1;
        }
        self.pixels = pixels;
    }
}

/// A position on the screen, in pixels.
#[derive(Debug, Clone, Copy, PartialEq, Eq, Structural)]
pub struct PixelPos {
    pub x: usize,
    pub y: usize,
}

/// A position in the 32-by-32 tile map, in tiles.
#[derive(Debug, Clone, Copy, PartialEq, Eq, Structural)]
pub struct TilePos {
    pub i: usize,
    pub j: usize,
}

impl PixelPos {
    pub fn new() -> (r: PixelPos)
        ensures
            r == (PixelPos { x: 0, y: 0 }),
    {
        PixelPos { x: 0, y: 0 }
    }

    /// The tile this pixel falls in.
    pub fn to_tile(self) -> (r: TilePos)
        ensures
            r == (TilePos { i: self.x / 8, j: self.y / 8 }),
    {
        TilePos { i: self.x / 8, j: self.y / 8 }
    }

    /// The start of the next scanline.
    pub fn next_line(&self) -> (r: Self)
        requires
            self.y < usize::MAX,
        ensures
            r == (PixelPos { x: 0, y: (self.y + 1) as usize }),
    {
        Self { x: 0, y: self.y + 1 }
    }
}

/// Whether screen position (x, y) falls inside the window region.
pub open spec fn win_cond(mem: Seq<u8>, x: int, y: int) -> bool {
    let lcdc = mem[0xFF40];
    (lcdc & WINDOW_ENABLE_FLAG != 0) && x + 7 >= mem[0xFF4B] && y >= mem[0xFF4A]
}

/// The background or window pixel at screen position (x, y): the scrolled
/// (or window-relative) source coordinate modulo 256, the tile index from
/// the selected map, the tile pattern from the selected data area (signed
/// indices from 0x9000, unsigned from 0x8000), and the 2-bit color at the
/// intra-tile offset.
pub open spec fn bg_pixel_spec(mem: Seq<u8>, x: int, y: int) -> Pixel {
    let lcdc = mem[0xFF40];
    let enabled = lcdc & BGW_ENABLE_FLAG != 0;
    let win = win_cond(mem, x, y);
    let fx: int = if win {
        (x + 7 - mem[0xFF4B]) % 256
    } else {
        (x + mem[0xFF43]) % 256
    };
    let fy: int = if win {
        (y - mem[0xFF4A]) % 256
    } else {
        (y + mem[0xFF42]) % 256
    };
    let map: int = if win {
        if lcdc & WINDOW_TILE_MAP_FLAG != 0 {
            0x9C00
        } else {
            0x9800
        }
    } else {
        if lcdc & BG_TILE_MAP_FLAG != 0 {
            0x9C00
        } else {
            0x9800
        }
    };
    let tile_num = mem[map + fx / 8 + (fy / 8) * 32];
    let tile_addr: int = if lcdc & BGW_TILES_DATA_FLAG != 0 {
        0x8000 + 16 * tile_num
    } else {
        0x9000 + 16 * (tile_num as i8)
    };
    Pixel {
        color_ref: tile_color_spec(mem, tile_addr as Address, fy % 8, fx % 8),
        pixel_source: PixelSource::Background { enabled },
    }
}

/// The background fetcher: a cursor over the scanline and the in-window
/// latch that flips once the window region starts.
pub struct BgFIFO {
    pub initialized: bool,
    pub lcdc: Byte,
    pub screen_pos: PixelPos,
    pub in_window: bool,
}

impl BgFIFO {
    pub fn new() -> (r: Self)
        ensures
            r == (BgFIFO {
                initialized: false,
                lcdc: 0,
                screen_pos: PixelPos { x: 0, y: 0 },
                in_window: false,
            }),
    {
        Self { initialized: false, lcdc: 0, screen_pos: PixelPos::new(), in_window: false }
    }

    /// Move the cursor to the start of the next scanline (or the first, on
    /// the first call) and latch the window state there.
    pub fn next_line(&mut self, memory: &Memory)
        requires
            memory.wf(),
            old(self).initialized ==> old(self).screen_pos.y < 143,
        ensures
            final(self).screen_pos.y == (if old(self).initialized {
                old(self).screen_pos.y + 1
            } else {
                0
            }),
            final(self).screen_pos.x == 0,
            final(self).initialized,
            final(self).lcdc == memory@.mem[0xFF40],
            final(self).in_window == win_cond(memory@.mem, 0, final(self).screen_pos.y as int),
    {
        if self.initialized {
            self.screen_pos = PixelPos { x: 0, y: self.screen_pos.y + 1 };
        } else {
            self.initialized = true;
            self.screen_pos = PixelPos { x: 0, y: 0 };
        }
        let wy = memory.read_byte(WY_ADDRESS);
        let wx = memory.read_byte(WX_ADDRESS);
        let lcdc = memory.read_byte(LCDC_ADDRESS);
        self.lcdc = lcdc;
        self.in_window = (lcdc & WINDOW_ENABLE_FLAG != 0) && 7 >= wx as usize && self.screen_pos.y
            >= wy as usize;
        self.screen_pos = PixelPos { x: 0, y: self.screen_pos.y };
    }

    /// Produce the background pixel at the cursor and advance it; entering
    /// the window region mid-line switches the fetch source.
    pub fn pop(&mut self, memory: &Memory) -> (r: Pixel)
        requires
            memory.wf(),
            old(self).screen_pos.x < 160,
            old(self).screen_pos.y < 144,
            old(self).in_window ==> win_cond(
                memory@.mem,
                old(self).screen_pos.x as int,
                old(self).screen_pos.y as int,
            ),
        ensures
            r == bg_pixel_spec(
                memory@.mem,
                old(self).screen_pos.x as int,
                old(self).screen_pos.y as int,
            ),
            final(self).screen_pos.x == old(self).screen_pos.x + 1,
            final(self).screen_pos.y == old(self).screen_pos.y,
            final(self).initialized == old(self).initialized,
            final(self).lcdc == old(self).lcdc,
            final(self).in_window == (old(self).in_window || win_cond(
                memory@.mem,
                old(self).screen_pos.x as int,
                old(self).screen_pos.y as int,
            )),
    {
        let x = self.screen_pos.x;
        let y = self.screen_pos.y;
        let lcdc = memory.read_byte(LCDC_ADDRESS);
        let wy = memory.read_byte(WY_ADDRESS) as usize;
        let wx = memory.read_byte(WX_ADDRESS) as usize;
        let here = (lcdc & WINDOW_ENABLE_FLAG != 0) && x + 7 >= wx && y >= wy;
        if !self.in_window && here {
            self.in_window = true;
        } else {
            self.in_window = self.in_window || here;
        }
        let win = self.in_window;
        proof {
            assert(win == win_cond(memory@.mem, x as int, y as int));
        }
        let fx: usize;
        let fy: usize;
        let map: usize;
        if win {
            fx = (x + 7 - wx) % 256;
            fy = (y - wy) % 256;
            map = if lcdc & WINDOW_TILE_MAP_FLAG != 0 {
                0x9C00
            } else {
                0x9800
            };
        } else {
            let scy = memory.read_byte(SCY_ADDRESS) as usize;
            let scx = memory.read_byte(SCX_ADDRESS) as usize;
            fx = (x + scx) % 256;
            fy = (y + scy) % 256;
            map = if lcdc & BG_TILE_MAP_FLAG != 0 {
                0x9C00
            } else {
                0x9800
            };
        }
        let tile_num = memory.read_byte((map + fx / 8 + (fy / 8) * 32) as Address);
        let tile_addr: Address = if lcdc & BGW_TILES_DATA_FLAG != 0 {
            0x8000 + 16 * (tile_num as Address)
        } else if tile_num < 128 {
            0x9000 + 16 * (tile_num as Address)
        } else {
            0x8000 + 16 * (tile_num as Address)
        };
        proof {
            if lcdc & BGW_TILES_DATA_FLAG == 0 {
                if tile_num < 128 {
                    assert(tile_num as i8 == tile_num as int) by (bit_vector)
                        requires
                            tile_num < 128,
                    ;
                } else {
                    assert(tile_num as i8 == tile_num - 256) by (bit_vector)
                        requires
                            tile_num >= 128,
                    ;
                }
                assert(tile_addr == 0x9000 + 16 * (tile_num as i8));
            }
        }
        let lsb_address = crate::cpu::wadd16(tile_addr, (2 * (fy % 8)) as Address);
        let msb_address = crate::cpu::wadd16(tile_addr, (2 * (fy % 8) + 1) as Address);
        let lsb = memory.read_byte(lsb_address);
        let msb = memory.read_byte(msb_address);
        let m = crate::alu::bit_mask_of((7 - fx % 8) as u8);
        let lo: u8 = if lsb & m == 0 {
            0
        } else {
            1
        };
        let hi: u8 = if msb & m == 0 {
            0
        } else {
            1
        };
        let enabled = lcdc & BGW_ENABLE_FLAG != 0;
        self.screen_pos = PixelPos { x: x + 1, y };
        Pixel { color_ref: hi * 2 + lo, pixel_source: PixelSource::Background { enabled } }
    }
}

/// One OAM entry a scanline collected: its index and its four bytes.
#[derive(Debug, Clone, Copy, PartialEq, Eq, Structural)]
pub struct Object {
    pub index: usize,
    pub x_pos: usize,
    pub y_pos: usize,
    pub tile_num: Address,
    pub flag: Byte,
}

impl Object {
    pub fn new(index: usize, x_pos: usize, y_pos: usize, tile_num: Address, flag: Byte) -> (r: Self)
        ensures
            r == (Object { index, x_pos, y_pos, tile_num, flag }),
    {
        Self { index, x_pos, y_pos, tile_num, flag }
    }
}

/// Sprite height in rows: 16 when LCDC bit 2 is set, else 8.
pub open spec fn obj_height(lcdc: u8) -> int {
    if lcdc & OBJ_SIZE_FLAG != 0 {
        16
    } else {
        8
    }
}

/// Whether OAM entry `i` intersects scanline `line` and is on screen: its
/// y position puts the line inside the sprite's 8 or 16 rows and its x
/// position is in (0, 168).
pub open spec fn obj_match(mem: Seq<u8>, line: int, i: int) -> bool {
    let y_pos = mem[0xFE00 + 4 * i];
    let x_pos = mem[0xFE00 + 4 * i + 1];
    y_pos <= line + 16 && line + 16 < y_pos + obj_height(mem[0xFF40]) && !(x_pos == 0 || x_pos
        >= 168)
}

/// Whether sprite `i`'s eight-pixel row covers screen column `x`.
pub open spec fn obj_covers(mem: Seq<u8>, i: int, x: int) -> bool {
    let x_pos = mem[0xFE00 + 4 * i + 1];
    x_pos - 8 <= x < x_pos && 0 <= x < 160
}

/// The pixel sprite `i` contributes at column `x` of `line`: the sprite row
/// the line selects (an 8x16 sprite stacks the even tile over the odd one),
/// X and Y flips applied, decoded from the tile planes.
pub open spec fn obj_pix(mem: Seq<u8>, line: int, i: int, x: int) -> Pixel {
    let y_pos = mem[0xFE00 + 4 * i];
    let x_pos = mem[0xFE00 + 4 * i + 1];
    let tile = mem[0xFE00 + 4 * i + 2];
    let flags = mem[0xFE00 + 4 * i + 3];
    let h = obj_height(mem[0xFF40]);
    let row0 = line + 16 - y_pos;
    let row = if flags & OBJ_YFLIP_FLAG != 0 {
        h - 1 - row0
    } else {
        row0
    };
    let d0 = x - (x_pos - 8);
    let col = if flags & OBJ_XFLIP_FLAG != 0 {
        7 - d0
    } else {
        d0
    };
    let tnum: u8 = if h == 16 {
        if row < 8 {
            tile & 0xFE
        } else {
            tile | 1
        }
    } else {
        tile
    };
    let trow = if row < 8 {
        row
    } else {
        row - 8
    };
    Pixel {
        color_ref: tile_color_spec(mem, (0x8000 + 16 * tnum) as Address, trow, col),
        pixel_source: PixelSource::Object { number: i as usize },
    }
}

/// First non-transparent pixel wins.
pub open spec fn merge_spec(p1: Pixel, p2: Pixel) -> Pixel {
    if p1.color_ref == 0 {
        p2
    } else {
        p1
    }
}

/// The all-transparent strip a scanline starts from.
pub open spec fn init_strip() -> Seq<Pixel> {
    Seq::new(160, |x: int| transparent_pix())
}

/// The OAM scan fold from entry `i` on: while fewer than ten sprites are
/// collected, each matching entry is appended in OAM order and its pixels
/// merged into the strip, earlier entries winning overlaps.
pub open spec fn obj_scan(mem: Seq<u8>, line: int, i: int, strip: Seq<Pixel>, objs: Seq<Object>) -> (
    Seq<Pixel>,
    Seq<Object>,
)
    decreases 40 - i,
{
    if i < 0 || i >= 40 || objs.len() >= 10 {
        (strip, objs)
    } else if obj_match(mem, line, i) {
        let strip2 = Seq::new(
            strip.len(),
            |x: int|
                if obj_covers(mem, i, x) {
                    merge_spec(strip[x], obj_pix(mem, line, i, x))
                } else {
                    strip[x]
                },
        );
        let ob = Object {
            index: i as usize,
            x_pos: mem[0xFE00 + 4 * i + 1] as usize,
            y_pos: mem[0xFE00 + 4 * i] as usize,
            tile_num: mem[0xFE00 + 4 * i + 2] as Address,
            flag: mem[0xFE00 + 4 * i + 3],
        };
        obj_scan(mem, line, i + 1, strip2, objs.push(ob))
    } else {
        obj_scan(mem, line, i + 1, strip, objs)
    }
}

/// Appending a sprite keeps a pixel's owner collected.
proof fn lemma_pix_listed_extend(objs: Seq<Object>, ob: Object, p: Pixel)
    requires
        pix_listed(objs, p),
    ensures
        pix_listed(objs.push(ob), p),
{
    match p.pixel_source {
        PixelSource::Object { number } => {
            if p.color_ref != 0 {
                let j = choose|j: int|
                    0 <= j < objs.len() && (#[trigger] objs[j]).index == number;
                assert(objs.push(ob)[j] == objs[j]);
            }
        },
        PixelSource::Background { .. } => {},
    }
}

/// The scan collects at most ten sprites, only extends the collected list,
/// and keeps every strip pixel transparent or owned by a collected sprite
/// with a two-bit color.
proof fn lemma_obj_scan_props(mem: Seq<u8>, line: int, i: int, strip: Seq<Pixel>, objs: Seq<Object>)
    requires
        strip.len() == 160,
        objs.len() <= 10,
        forall|x: int|
            0 <= x < 160 ==> pix_listed(objs, #[trigger] strip[x]) && strip[x].color_ref < 4,
    ensures
        obj_scan(mem, line, i, strip, objs).0.len() == 160,
        obj_scan(mem, line, i, strip, objs).1.len() <= 10,
        forall|x: int|
            0 <= x < 160 ==> pix_listed(
                obj_scan(mem, line, i, strip, objs).1,
                #[trigger] obj_scan(mem, line, i, strip, objs).0[x],
            ) && obj_scan(mem, line, i, strip, objs).0[x].color_ref < 4,
    decreases 40 - i,
{
    if i < 0 || i >= 40 || objs.len() >= 10 {
    } else if obj_match(mem, line, i) {
        let strip2 = Seq::new(
            strip.len(),
            |x: int|
                if obj_covers(mem, i, x) {
                    merge_spec(strip[x], obj_pix(mem, line, i, x))
                } else {
                    strip[x]
                },
        );
        let ob = Object {
            index: i as usize,
            x_pos: mem[0xFE00 + 4 * i + 1] as usize,
            y_pos: mem[0xFE00 + 4 * i] as usize,
            tile_num: mem[0xFE00 + 4 * i + 2] as Address,
            flag: mem[0xFE00 + 4 * i + 3],
        };
        let objs2 = objs.push(ob);
        assert forall|x: int| 0 <= x < 160 implies pix_listed(objs2, #[trigger] strip2[x])
            && strip2[x].color_ref < 4 by {
            if obj_covers(mem, i, x) && strip[x].color_ref == 0 {
                assert(strip2[x] == obj_pix(mem, line, i, x));
                assert(objs2[objs.len() as int] == ob);
            } else {
                assert(strip2[x] == strip[x]);
                lemma_pix_listed_extend(objs, ob, strip[x]);
            }
        }
        lemma_obj_scan_props(mem, line, i + 1, strip2, objs2);
    } else {
        lemma_obj_scan_props(mem, line, i + 1, strip, objs);
    }
}

/// A strip pixel is transparent or carries the index of a collected sprite.
pub open spec fn pix_listed(objs: Seq<Object>, p: Pixel) -> bool {
    match p.pixel_source {
        PixelSource::Object { number } => p.color_ref == 0 || exists|j: int|
            0 <= j < objs.len() && (#[trigger] objs[j]).index == number,
        PixelSource::Background { .. } => false,
    }
}

/// The first collected sprite with the given OAM index.
pub open spec fn find_obj(objs: Seq<Object>, number: usize) -> Object
    decreases objs.len(),
{
    if objs.len() == 0 {
        Object { index: 0, x_pos: 0, y_pos: 0, tile_num: 0, flag: 0 }
    } else if objs[0].index == number {
        objs[0]
    } else {
        find_obj(objs.drop_first(), number)
    }
}

/// The sprite strip of one scanline: a 160-pixel pre-rendered row and the
/// at-most-ten sprites that contribute to it.
pub struct ObjFIFO {
    pub fifo: Vec<Pixel>,
    pub lcdc: Byte,
    pub initialized: bool,
    pub screen_y: usize,
    pub obj_attr: Vec<Object>,
}

impl ObjFIFO {
    pub fn new() -> (r: Self)
        ensures
            r.fifo@.len() == 0,
            r.obj_attr@.len() == 0,
            r.lcdc == 0,
            r.screen_y == 0,
            !r.initialized,
    {
        Self { fifo: Vec::new(), lcdc: 0, screen_y: 0, initialized: false, obj_attr: Vec::new() }
    }

    /// First non-transparent pixel wins: within a scanline, overlap between
    /// sprites goes to the earlier OAM entry.
    pub fn merge(p1: Pixel, p2: Pixel) -> (r: Pixel)
        ensures
            r == merge_spec(p1, p2),
    {
        if p1.color_ref == 0 {
            p2
        } else {
            p1
        }
    }

    /// The collected sprite with OAM index `obj_index`.
    pub fn get_obj_attr(&self, obj_index: usize) -> (r: Object)
        requires
            exists|j: int| 0 <= j < self.obj_attr@.len() && (#[trigger] self.obj_attr@[j]).index
                == obj_index,
        ensures
            r == find_obj(self.obj_attr@, obj_index),
    {
        let n = self.obj_attr.len();
        proof {
            assert(self.obj_attr@.subrange(0, n as int) =~= self.obj_attr@);
        }
        let mut i: usize = 0;
        while i < n
            invariant
                n == self.obj_attr@.len(),
                i <= n,
                exists|j: int| i <= j < n && (#[trigger] self.obj_attr@[j]).index == obj_index,
                find_obj(self.obj_attr@, obj_index) == find_obj(
                    self.obj_attr@.subrange(i as int, n as int),
                    obj_index,
                ),
            decreases n - i,
        {
            if self.obj_attr[i].index == obj_index {
                proof {
                    assert(self.obj_attr@.subrange(i as int, n as int)[0] == self.obj_attr@[i as int]);
                }
                return self.obj_attr[i];
            }
            proof {
                let sub = self.obj_attr@.subrange(i as int, n as int);
                assert(sub[0] == self.obj_attr@[i as int]);
                assert(sub.drop_first() =~= self.obj_attr@.subrange(i + 1, n as int));
            }
            i = i + 1;
        }
        proof {
            assert(false);
        }
        Object::new(0, 0, 0, 0, 0)
    }

    /// Scan the 40 OAM entries for sprites intersecting the next scanline,
    /// collecting at most the first ten in OAM order, and pre-render their
    /// pixels into a 160-pixel strip, earlier entries winning overlaps:
    /// the exact fold `obj_scan` over the OAM table.
    #[verifier::rlimit(100)]
    #[verifier::spinoff_prover]
    pub fn next_line(&mut self, memory: &Memory)
        requires
            memory.wf(),
            old(self).initialized ==> old(self).screen_y < 143,
        ensures
            final(self).screen_y == (if old(self).initialized {
                old(self).screen_y + 1
            } else {
                0
            }),
            final(self).initialized,
            final(self).lcdc == memory@.mem[0xFF40],
            (memory@.mem[0xFF40] & OBJ_ENABLE_FLAG != 0) ==> (final(self).fifo@, final(self).obj_attr@) == obj_scan(
                memory@.mem,
                final(self).screen_y as int,
                0,
                init_strip(),
                Seq::<Object>::empty(),
            ),
            (memory@.mem[0xFF40] & OBJ_ENABLE_FLAG == 0) ==> final(self).fifo@ == init_strip()
                && final(self).obj_attr@ == Seq::<Object>::empty(),
            final(self).fifo@.len() == 160,
            final(self).obj_attr@.len() <= 10,
            forall|x: int|
                0 <= x < 160 ==> pix_listed(final(self).obj_attr@, #[trigger] final(self).fifo@[x])
                    && final(self).fifo@[x].color_ref < 4,
    {
        if self.initialized {
            self.screen_y = self.screen_y + 1;
        } else {
            self.initialized = true;
            self.screen_y = 0;
        }
        self.obj_attr = Vec::new();
        self.lcdc = memory.read_byte(LCDC_ADDRESS);

        let mut line_pixels: Vec<Pixel> = Vec::new();
        let mut k: usize = 0;
        while k < SCREEN_WIDTH
            invariant
                k <= 160,
                line_pixels@.len() == k,
                forall|x: int| 0 <= x < k ==> #[trigger] line_pixels@[x] == transparent_pix(),
            decreases 160 - k,
        {
            line_pixels.push(Pixel::new(0, PixelSource::Object { number: 0 }));
            k = k + 1;
        }
        proof {
            assert(line_pixels@ =~= init_strip());
        }

        if self.lcdc & OBJ_ENABLE_FLAG != 0 {
            let line = self.screen_y;
            let h: usize = if self.lcdc & OBJ_SIZE_FLAG != 0 {
                16
            } else {
                8
            };
            let ghost target = obj_scan(
                memory@.mem,
                line as int,
                0,
                init_strip(),
                Seq::<Object>::empty(),
            );
            let mut obj_idx: usize = 0;
            while obj_idx < OBJ_COUNT
                invariant_except_break
                    self.obj_attr@.len() <= 9,
                invariant
                    memory.wf(),
                    line == self.screen_y < 144,
                    h == obj_height(memory@.mem[0xFF40]),
                    self.lcdc == memory@.mem[0xFF40],
                    self.initialized,
                    obj_idx <= 40,
                    line_pixels@.len() == 160,
                    self.obj_attr@.len() <= 10,
                    target == obj_scan(
                        memory@.mem,
                        line as int,
                        obj_idx as int,
                        line_pixels@,
                        self.obj_attr@,
                    ),
                ensures
                    obj_idx >= 40 || self.obj_attr@.len() >= 10,
                decreases 40 - obj_idx,
            {
                let obj_address = OAM_ADDRESS + 4 * (obj_idx as Address);
                let y_pos = memory.read_byte(obj_address) as usize;
                let x_pos = memory.read_byte(obj_address + 1) as usize;
                let tile_number = memory.read_byte(obj_address + 2);
                let flag = memory.read_byte(obj_address + 3);
                let ghost strip_in = line_pixels@;
                let ghost objs_in = self.obj_attr@;

                if y_pos <= line + 16 && line + 16 < y_pos + h && !(x_pos == 0 || x_pos >= 168) {
                    self.obj_attr.push(
                        Object::new(obj_idx, x_pos, y_pos, tile_number as Address, flag),
                    );
                    let row0 = line + 16 - y_pos;
                    let row: usize = if flag & OBJ_YFLIP_FLAG != 0 {
                        h - 1 - row0
                    } else {
                        row0
                    };
                    let tnum: u8 = if h == 16 {
                        if row < 8 {
                            tile_number & 0xFE
                        } else {
                            tile_number | 1
                        }
                    } else {
                        tile_number
                    };
                    let trow: usize = if row < 8 {
                        row
                    } else {
                        row - 8
                    };
                    let tile_base: Address = OBJ_TILE_ADDRESS + BYTES_PER_TILE * (tnum as Address);
                    let lsb = memory.read_byte(tile_base + 2 * (trow as Address));
                    let msb = memory.read_byte(tile_base + 2 * (trow as Address) + 1);
                    let d_lo: usize = if x_pos < 8 {
                        8 - x_pos
                    } else {
                        0
                    };
                    let d_hi: usize = if x_pos > SCREEN_WIDTH {
                        (8 + SCREEN_WIDTH) - x_pos
                    } else {
                        8
                    };
                    let mut d: usize = d_lo;
                    while d < d_hi
                        invariant
                            memory.wf(),
                            obj_idx < 40,
                            d_lo <= d,
                            d_hi <= 8,
                            1 <= x_pos < 168,
                            x_pos + d_lo >= 8,
                            x_pos + d_hi <= 168,
                            d_lo == (if x_pos < 8 {
                                8 - (x_pos as int)
                            } else {
                                0int
                            }),
                            d_hi == (if x_pos > 160 {
                                168 - (x_pos as int)
                            } else {
                                8int
                            }),
                            line_pixels@.len() == 160,
                            h == obj_height(memory@.mem[0xFF40]),
                            y_pos == memory@.mem[0xFE00 + 4 * obj_idx],
                            x_pos == memory@.mem[0xFE00 + 4 * obj_idx + 1],
                            tile_number == memory@.mem[0xFE00 + 4 * obj_idx + 2],
                            flag == memory@.mem[0xFE00 + 4 * obj_idx + 3],
                            y_pos <= line + 16 && line + 16 < y_pos + h,
                            row0 == line + 16 - y_pos,
                            row == (if flag & OBJ_YFLIP_FLAG != 0 {
                                h - 1 - (row0 as int)
                            } else {
                                row0 as int
                            }),
                            row < h,
                            tnum == (if h == 16 {
                                if row < 8 {
                                    tile_number & 0xFE
                                } else {
                                    tile_number | 1
                                }
                            } else {
                                tile_number
                            }),
                            trow == (if row < 8 {
                                row as int
                            } else {
                                row - 8
                            }),
                            trow < 8,
                            tile_base == 0x8000 + 16 * (tnum as int),
                            lsb == memory@.mem[wrap16(tile_base + 2 * trow) as int],
                            msb == memory@.mem[wrap16(tile_base + 2 * trow + 1) as int],
                            forall|x: int|
                                0 <= x < 160 ==> #[trigger] line_pixels@[x] == (if obj_covers(
                                    memory@.mem,
                                    obj_idx as int,
                                    x,
                                ) && x < x_pos - 8 + d {
                                    merge_spec(
                                        strip_in[x],
                                        obj_pix(memory@.mem, line as int, obj_idx as int, x),
                                    )
                                } else {
                                    strip_in[x]
                                }),
                        decreases d_hi - d,
                    {
                        let pos = x_pos + d - 8;
                        let col: usize = if flag & OBJ_XFLIP_FLAG != 0 {
                            7 - d
                        } else {
                            d
                        };
                        let m = crate::alu::bit_mask_of((7 - col) as u8);
                        let lo: u8 = if lsb & m == 0 {
                            0
                        } else {
                            1
                        };
                        let hi: u8 = if msb & m == 0 {
                            0
                        } else {
                            1
                        };
                        let p = Pixel {
                            color_ref: hi * 2 + lo,
                            pixel_source: PixelSource::Object { number: obj_idx },
                        };
                        proof {
                            assert(p == obj_pix(
                                memory@.mem,
                                line as int,
                                obj_idx as int,
                                pos as int,
                            ));
                        }
                        let merged = Self::merge(line_pixels[pos], p);
                        line_pixels.set(pos, merged);
                        d = d + 1;
                    }
                    proof {
                        let sm = memory@.mem;
                        let strip2 = Seq::new(
                            strip_in.len(),
                            |x: int|
                                if obj_covers(sm, obj_idx as int, x) {
                                    merge_spec(
                                        strip_in[x],
                                        obj_pix(sm, line as int, obj_idx as int, x),
                                    )
                                } else {
                                    strip_in[x]
                                },
                        );
                        assert(line_pixels@ =~= strip2);
                        assert(obj_match(sm, line as int, obj_idx as int));
                        assert(self.obj_attr@ =~= objs_in.push(
                            Object {
                                index: obj_idx as usize,
                                x_pos: sm[0xFE00 + 4 * obj_idx + 1] as usize,
                                y_pos: sm[0xFE00 + 4 * obj_idx] as usize,
                                tile_num: sm[0xFE00 + 4 * obj_idx + 2] as Address,
                                flag: sm[0xFE00 + 4 * obj_idx + 3],
                            },
                        ));
                        assert(obj_scan(sm, line as int, obj_idx as int, strip_in, objs_in)
                            == obj_scan(
                            sm,
                            line as int,
                            obj_idx + 1,
                            line_pixels@,
                            self.obj_attr@,
                        ));
                    }
                } else {
                    proof {
                        assert(!obj_match(memory@.mem, line as int, obj_idx as int));
                        assert(obj_scan(memory@.mem, line as int, obj_idx as int, strip_in, objs_in)
                            == obj_scan(
                            memory@.mem,
                            line as int,
                            obj_idx + 1,
                            line_pixels@,
                            self.obj_attr@,
                        ));
                    }
                }
                if self.obj_attr.len() >= 10 {
                    break ;
                }
                obj_idx = obj_idx + 1;
            }
            proof {
                assert(obj_scan(memory@.mem, line as int, obj_idx as int, line_pixels@, self.obj_attr@)
                    == (line_pixels@, self.obj_attr@));
                lemma_obj_scan_props(
                    memory@.mem,
                    line as int,
                    0,
                    init_strip(),
                    Seq::<Object>::empty(),
                );
            }
        }
        self.fifo = line_pixels;
    }

    /// Pop the strip pixel for the current x position.
    pub fn pop(&mut self) -> (r: Pixel)
        requires
            old(self).fifo@.len() > 0,
        ensures
            r == old(self).fifo@[0],
            final(self).fifo@ == old(self).fifo@.drop_first(),
            final(self).obj_attr == old(self).obj_attr,
            final(self).screen_y == old(self).screen_y,
            final(self).lcdc == old(self).lcdc,
            final(self).initialized == old(self).initialized,
    {
        let r = self.fifo.remove(0);
        proof {
            assert(self.fifo@ =~= old(self).fifo@.drop_first());
        }
        r
    }
}

/// Mixing rule for one screen position: a transparent sprite pixel yields
/// the background; with the background layer disabled the sprite wins;
/// a priority-flagged sprite loses to background colors 1-3; otherwise the
/// sprite wins.
pub open spec fn mix_spec(objs: Seq<Object>, bgp: Pixel, obp: Pixel) -> Pixel {
    let enabled = match bgp.pixel_source {
        PixelSource::Background { enabled } => enabled,
        PixelSource::Object { .. } => false,
    };
    let number = match obp.pixel_source {
        PixelSource::Object { number } => number,
        PixelSource::Background { .. } => 0,
    };
    if obp.color_ref == 0 {
        bgp
    } else if !enabled {
        obp
    } else if find_obj(objs, number).flag & OBJ_PRIORITY_FLAG != 0 && bgp.color_ref >= 1 {
        bgp
    } else {
        obp
    }
}

/// The palette byte a pixel is mapped through: BGP for the background (a
/// disabled background layer maps everything to black), OBP0/OBP1 for
/// sprites with field 0 forced to black (it is never shown: index 0 is
/// transparent).
pub open spec fn palette_of(mem: Seq<u8>, objs: Seq<Object>, p: Pixel) -> u8 {
    match p.pixel_source {
        PixelSource::Background { enabled } => if enabled {
            mem[0xFF47]
        } else {
            0xFF
        },
        PixelSource::Object { number } => (if find_obj(objs, number).flag & OBJ_PALETTE_FLAG != 0 {
            mem[0xFF49]
        } else {
            mem[0xFF48]
        }) | 0x03,
    }
}

/// The 2-bit field of the palette byte selected by a color index.
pub open spec fn color_idx(palette: u8, cref: u8) -> u8 {
    if cref == 0 {
        palette % 4
    } else if cref == 1 {
        (palette / 4) % 4
    } else if cref == 2 {
        (palette / 16) % 4
    } else {
        (palette / 64) % 4
    }
}

/// The four shades: white, light grey, dark grey, black.
pub open spec fn shade(idx: u8) -> (u8, u8, u8) {
    if idx == 0 {
        (255u8, 255u8, 255u8)
    } else if idx == 1 {
        (139u8, 139u8, 139u8)
    } else if idx == 2 {
        (48u8, 48u8, 48u8)
    } else {
        (0u8, 0u8, 0u8)
    }
}

/// The final color of a pixel: its palette field, decoded to a shade.
pub open spec fn px_rgb(mem: Seq<u8>, objs: Seq<Object>, p: Pixel) -> (u8, u8, u8) {
    shade(color_idx(palette_of(mem, objs, p), p.color_ref))
}

/// The back buffer holds at (line, x) exactly the shade of the mixed
/// background and sprite pixel there.
pub open spec fn row_pixel_ok(
    buf: Seq<u8>,
    mem: Seq<u8>,
    objs: Seq<Object>,
    strip: Seq<Pixel>,
    line: int,
    x: int,
) -> bool {
    let rgb = px_rgb(mem, objs, mix_spec(objs, bg_pixel_spec(mem, x, line), strip[x]));
    &&& buf[line * 480 + 3 * x] == rgb.0
    &&& buf[line * 480 + 3 * x + 1] == rgb.1
    &&& buf[line * 480 + 3 * x + 2] == rgb.2
}

/// PPU mode with the scanline it belongs to.
#[derive(Debug, Clone, Copy, PartialEq, Eq, Structural)]
pub enum PPUMode {
    /// Horizontal blank
    Mode0 { line: usize },
    /// Vertical blank
    Mode1 { line: usize },
    /// OAM scan
    Mode2 { line: usize },
    /// Drawing pixels
    Mode3 { line: usize },
}

pub open spec fn mode_num(m: PPUMode) -> Byte {
    match m {
        PPUMode::Mode0 { .. } => 0,
        PPUMode::Mode1 { .. } => 1,
        PPUMode::Mode2 { .. } => 2,
        PPUMode::Mode3 { .. } => 3,
    }
}

impl PPUMode {
    /// The two-bit mode number as held in STAT.
    pub fn get_num(&self) -> (r: Byte)
        ensures
            r == mode_num(*self),
    {
        match self {
            Self::Mode0 { .. } => 0,
            Self::Mode1 { .. } => 1,
            Self::Mode2 { .. } => 2,
            Self::Mode3 { .. } => 3,
        }
    }
}

/// The mode a scanline is in `d` cycles after its start: lines 144-153 are
/// vertical blank; below that, exactly 20 cycles of OAM scan, drawing from
/// cycle 20 until cycle 76, then horizontal blank to cycle 113.
pub open spec fn spec_mode(line: int, d: int) -> PPUMode {
    if line >= 144 {
        PPUMode::Mode1 { line: line as usize }
    } else if d < 20 {
        PPUMode::Mode2 { line: line as usize }
    } else if d < 77 {
        PPUMode::Mode3 { line: line as usize }
    } else {
        PPUMode::Mode0 { line: line as usize }
    }
}

/// The scanline the next mode-3 entry will draw, given the current mode.
pub open spec fn fifo_next_bg(b: BgFIFO) -> int {
    if b.initialized {
        b.screen_pos.y + 1
    } else {
        0
    }
}

pub open spec fn fifo_next_obj(o: ObjFIFO) -> int {
    if o.initialized {
        o.screen_y + 1
    } else {
        0
    }
}

/// The pixel-processing unit: scanline counter, back buffer, line-start
/// timestamp, the two per-scanline fetchers, and the last observed mode.
pub struct Ppu {
    pub line_y: usize,
    pub screen_buffer: Vec<Byte>,
    pub last_timestamp: u128,
    pub last_seen: u128,
    pub bg_fifo: BgFIFO,
    pub obj_fifo: ObjFIFO,
    pub last_ppu_mode: PPUMode,
}

impl Ppu {
    /// Fetcher line counters agree with the mode machine: the next draw
    /// targets the current line during OAM scan, the following line after
    /// drawing has started.
    pub open spec fn fifos_ok(&self) -> bool {
        match self.last_ppu_mode {
            PPUMode::Mode2 { line } => line == self.line_y && fifo_next_bg(self.bg_fifo)
                == self.line_y && fifo_next_obj(self.obj_fifo) == self.line_y,
            PPUMode::Mode3 { line } => line == self.line_y && fifo_next_bg(self.bg_fifo)
                == self.line_y + 1 && fifo_next_obj(self.obj_fifo) == self.line_y + 1,
            PPUMode::Mode0 { line } => line == self.line_y && fifo_next_bg(self.bg_fifo)
                == self.line_y + 1 && fifo_next_obj(self.obj_fifo) == self.line_y + 1,
            PPUMode::Mode1 { line } => line == self.line_y,
        }
    }

    /// The timing invariant: the line-start timestamp counts whole
    /// 114-cycle scanlines, LY is that count modulo the 154 lines of a
    /// frame, and the last observed mode matches the timestamp last seen.
    /// The freshly powered-on unit (nothing observed yet) is the one other
    /// legal state.
    pub open spec fn wf(&self) -> bool {
        &&& self.screen_buffer@.len() == 69120
    &&& self.last_timestamp % 114 == 0
    &&& self.line_y == ((self.last_timestamp / 114) % 154)
    &&& self.last_seen >= self.last_timestamp
    &&& self.last_seen - self.last_timestamp <= 113
    &&& ({
        ||| (self.last_ppu_mode == spec_mode(
            self.line_y as int,
            (self.last_seen - self.last_timestamp) as int,
        ) && self.fifos_ok())
        ||| (self.last_timestamp == 0 && self.last_seen == 0 && self.line_y == 0
            && self.last_ppu_mode == (PPUMode::Mode1 { line: 153 }) && !self.bg_fifo.initialized
            && !self.obj_fifo.initialized)
    })
    }

    pub fn new() -> (r: Self)
        ensures
            r.wf(),
            r.line_y == 0,
            r.last_timestamp == 0,
            r.last_seen == 0,
            forall|j: int| 0 <= j < 69120 ==> r.screen_buffer@[j] == 0u8,
    {
        let mut screen_buffer: Vec<Byte> = Vec::new();
        let mut i: usize = 0;
        while i < 69120
            invariant
                i <= 69120,
                screen_buffer@.len() == i,
                forall|j: int| 0 <= j < i ==> screen_buffer@[j] == 0u8,
            decreases 69120 - i,
        {
            screen_buffer.push(0);
            i = i + 1;
        }
        Ppu {
            line_y: 0,
            screen_buffer,
            last_timestamp: 0,
            last_seen: 0,
            bg_fifo: BgFIFO::new(),
            obj_fifo: ObjFIFO::new(),
            last_ppu_mode: PPUMode::Mode1 { line: 153 },
        }
    }

    /// The mode at `clock_diff` cycles past the current line start.
    fn get_mode(&self, clock_diff: u128) -> (r: PPUMode)
        ensures
            r == spec_mode(self.line_y as int, clock_diff as int),
    {
        if self.line_y >= 144 {
            PPUMode::Mode1 { line: self.line_y }
        } else if clock_diff < 20 {
            PPUMode::Mode2 { line: self.line_y }
        } else if clock_diff < 77 {
            PPUMode::Mode3 { line: self.line_y }
        } else {
            PPUMode::Mode0 { line: self.line_y }
        }
    }

    /// Mix a background pixel with the sprite-strip pixel at the same
    /// position.
    fn mix(&self, bgp: Pixel, obp: Pixel) -> (r: Pixel)
        requires
            bgp.pixel_source is Background,
            obp.pixel_source is Object,
            obp.color_ref != 0 ==> exists|j: int|
                0 <= j < self.obj_fifo.obj_attr@.len() && (#[trigger] self.obj_fifo.obj_attr@[j]).index
                    == obp.pixel_source->Object_number,
        ensures
            r == mix_spec(self.obj_fifo.obj_attr@, bgp, obp),
    {
        if obp.color_ref == 0 {
            bgp
        } else {
            let enabled = match bgp.pixel_source {
                PixelSource::Background { enabled } => enabled,
                PixelSource::Object { .. } => false,
            };
            if !enabled {
                obp
            } else {
                let number = match obp.pixel_source {
                    PixelSource::Object { number } => number,
                    PixelSource::Background { .. } => 0,
                };
                let attr = self.obj_fifo.get_obj_attr(number);
                if attr.flag & OBJ_PRIORITY_FLAG != 0 && bgp.color_ref >= 1 {
                    bgp
                } else {
                    obp
                }
            }
        }
    }

    /// Map a mixed pixel through its palette to a shade.
    fn pixel_to_color(&self, pixel: Pixel, memory: &Memory) -> (r: (u8, u8, u8))
        requires
            memory.wf(),
            pixel.pixel_source is Object ==> exists|j: int|
                0 <= j < self.obj_fifo.obj_attr@.len() && (#[trigger] self.obj_fifo.obj_attr@[j]).index
                    == pixel.pixel_source->Object_number,
        ensures
            r == px_rgb(memory@.mem, self.obj_fifo.obj_attr@, pixel),
    {
        let palette: u8 = match pixel.pixel_source {
            PixelSource::Background { enabled } => {
                let palette = memory.read_byte(BG_PALETTE_ADDRESS);
                if enabled {
                    palette
                } else {
                    0xFF
                }
            },
            PixelSource::Object { number } => {
                let obj_flag = self.obj_fifo.get_obj_attr(number).flag;
                let palette = if obj_flag & OBJ_PALETTE_FLAG != 0 {
                    memory.read_byte(OBP1_ADDRESS)
                } else {
                    memory.read_byte(OBP0_ADDRESS)
                };
                palette | 0x03
            },
        };
        let idx: u8 = if pixel.color_ref == 0 {
            palette % 4
        } else if pixel.color_ref == 1 {
            (palette / 4) % 4
        } else if pixel.color_ref == 2 {
            (palette / 16) % 4
        } else {
            (palette / 64) % 4
        };
        if idx == 0 {
            (255, 255, 255)
        } else if idx == 1 {
            (139, 139, 139)
        } else if idx == 2 {
            (48, 48, 48)
        } else {
            (0, 0, 0)
        }
    }

    /// Effect of publishing a mode into STAT: the mode bits are replaced,
    /// and if the matching STAT interrupt-enable bit is set, LCD-STAT is
    /// raised in IF.
    #[verifier::opaque]
    pub open spec fn set_ppu_spec(m: MemV, mode: PPUMode) -> MemV {
        let stat = m.mem[0xFF41] & !3;
        let int0 = m.mem[0xFF0F];
        let raise = match mode {
            PPUMode::Mode0 { .. } => stat & MODE0_INT_FLAG != 0,
            PPUMode::Mode1 { .. } => stat & MODE1_INT_FLAG != 0,
            PPUMode::Mode2 { .. } => stat & MODE2_INT_FLAG != 0,
            PPUMode::Mode3 { .. } => false,
        };
        let m1 = write8_spec(
            m,
            0xFF0F,
            if raise {
                int0 | LCD_FLAG
            } else {
                int0
            },
        );
        write8_spec(m1, 0xFF41, (stat | mode_num(mode)) as u8)
    }

    /// Publish the mode bits into STAT and raise LCD-STAT if enabled.
    fn set_ppu(&self, ppu_mode: PPUMode, memory: &mut Memory)
        requires
            old(memory).wf(),
        ensures
            final(memory)@ == Self::set_ppu_spec(old(memory)@, ppu_mode),
            final(memory).wf(),
            forall|j: int|
                0 <= j < 0x10000 && j != 0xFF41 && j != 0xFF0F ==> final(memory)@.mem[j] == old(memory)@.mem[j],
            final(memory)@.boot == old(memory)@.boot,
            final(memory)@.rom == old(memory)@.rom,
            final(memory)@.cart == old(memory)@.cart,
            final(memory)@.mem[0xFF0F] & 1 == old(memory)@.mem[0xFF0F] & 1,
    {
        proof {
            reveal(Ppu::set_ppu_spec);
            lemma_or_keeps_low_bit();
        }
        let stat_flag = memory.read_byte(LCD_STATUS_ADDRESS) & !0b11;
        let new_stat_flag = stat_flag | ppu_mode.get_num();
        let mut int_flag = memory.read_byte(INTERRUPT_FLAG_ADDRESS);
        match ppu_mode {
            PPUMode::Mode0 { .. } => {
                if stat_flag & MODE0_INT_FLAG != 0 {
                    int_flag = int_flag | LCD_FLAG;
                }
            },
            PPUMode::Mode1 { .. } => {
                if stat_flag & MODE1_INT_FLAG != 0 {
                    int_flag = int_flag | LCD_FLAG;
                }
            },
            PPUMode::Mode2 { .. } => {
                if stat_flag & MODE2_INT_FLAG != 0 {
                    int_flag = int_flag | LCD_FLAG;
                }
            },
            PPUMode::Mode3 { .. } => {},
        }
        memory.write_byte(INTERRUPT_FLAG_ADDRESS, int_flag);
        memory.write_byte(LCD_STATUS_ADDRESS, new_stat_flag);
    }

    /// Effect of a scanline change on LY and the LY=LYC machinery: LY is
    /// written; on a match the STAT coincidence bit is set and, with its
    /// enable bit on, LCD-STAT is raised.
    #[verifier::opaque]
    pub open spec fn set_lyc_spec(m: MemV, line: int) -> MemV {
        let m1 = write8_spec(m, 0xFF44, line as u8);
        if m1.mem[0xFF45] == line {
            let stat = m1.mem[0xFF41];
            let m2 = write8_spec(m1, 0xFF41, stat | LYC_EQ_LY_FLAG);
            if stat & LCY_INT_FLAG != 0 {
                write8_spec(m2, 0xFF0F, m2.mem[0xFF0F] | LCD_FLAG)
            } else {
                m2
            }
        } else {
            m1
        }
    }

    /// Write LY and update the LY=LYC coincidence flag and interrupt.
    fn set_lyc(&self, memory: &mut Memory)
        requires
            old(memory).wf(),
            self.line_y <= 153,
        ensures
            final(memory)@ == Self::set_lyc_spec(old(memory)@, self.line_y as int),
            final(memory).wf(),
            forall|j: int|
                0 <= j < 0x10000 && j != 0xFF44 && j != 0xFF41 && j != 0xFF0F ==> final(memory)@.mem[j] == old(memory)@.mem[j],
            final(memory)@.boot == old(memory)@.boot,
            final(memory)@.rom == old(memory)@.rom,
            final(memory)@.cart == old(memory)@.cart,
            final(memory)@.mem[0xFF0F] & 1 == old(memory)@.mem[0xFF0F] & 1,
    {
        proof {
            reveal(Ppu::set_lyc_spec);
            lemma_or_keeps_low_bit();
        }
        memory.write_byte(LY_ADDRESS, self.line_y as Byte);
        let lyc = memory.read_byte(LYC_ADDRESS) as usize;
        if lyc == self.line_y {
            let stat_flag = memory.read_byte(LCD_STATUS_ADDRESS);
            let new_stat_flag = stat_flag | LYC_EQ_LY_FLAG;
            memory.write_byte(LCD_STATUS_ADDRESS, new_stat_flag);
            if stat_flag & LCY_INT_FLAG != 0 {
                let int_flag = memory.read_byte(INTERRUPT_FLAG_ADDRESS);
                memory.write_byte(INTERRUPT_FLAG_ADDRESS, int_flag | LCD_FLAG);
            }
        }
    }

    /// Raise the VBLANK interrupt.
    fn set_vblank_int(&self, memory: &mut Memory)
        requires
            old(memory).wf(),
        ensures
            final(memory)@ == write8_spec(
                old(memory)@,
                0xFF0F,
                (old(memory)@.mem[0xFF0F] | VBLANK_FLAG) as u8,
            ),
            final(memory).wf(),
            forall|j: int|
                0 <= j < 0x10000 && j != 0xFF0F ==> final(memory)@.mem[j] == old(memory)@.mem[j],
            final(memory)@.boot == old(memory)@.boot,
            final(memory)@.rom == old(memory)@.rom,
            final(memory)@.cart == old(memory)@.cart,
            final(memory)@.mem[0xFF0F] & 1 != 0,
    {
        proof {
            lemma_or_keeps_low_bit();
        }
        let int_flag = memory.read_byte(INTERRUPT_FLAG_ADDRESS);
        memory.write_byte(INTERRUPT_FLAG_ADDRESS, int_flag | VBLANK_FLAG);
    }

    /// Render the current scanline into the back buffer: for each of the
    /// 160 positions, mix the background pixel with the sprite strip and
    /// map through the palettes; with the LCD disabled every emitted pixel
    /// is black.
    fn draw_scanline(&mut self, memory: &Memory)
        requires
            memory.wf(),
            old(self).screen_buffer@.len() == 69120,
            old(self).line_y < 144,
            fifo_next_bg(old(self).bg_fifo) == old(self).line_y,
            fifo_next_obj(old(self).obj_fifo) == old(self).line_y,
        ensures
            final(self).screen_buffer@.len() == 69120,
            final(self).line_y == old(self).line_y,
            final(self).last_timestamp == old(self).last_timestamp,
            final(self).last_seen == old(self).last_seen,
            final(self).last_ppu_mode == old(self).last_ppu_mode,
            final(self).bg_fifo.initialized && final(self).bg_fifo.screen_pos.y == old(self).line_y,
            final(self).obj_fifo.initialized && final(self).obj_fifo.screen_y == old(self).line_y,
            forall|j: int|
                0 <= j < 69120 && !(old(self).line_y * 480 <= j < old(self).line_y * 480 + 480)
                    ==> final(self).screen_buffer@[j] == old(self).screen_buffer@[j],
            (memory@.mem[0xFF40] & LCDC_ENABLE_FLAG == 0) ==> forall|j: int|
                old(self).line_y * 480 <= j < old(self).line_y * 480 + 480 ==> final(self).screen_buffer@[j] == 0u8,
            exists|strip: Seq<Pixel>|
                #![auto]
                strip.len() == 160 && (forall|i: int|
                    0 <= i < 160 ==> pix_listed(final(self).obj_fifo.obj_attr@, #[trigger] strip[i]))
                    && (memory@.mem[0xFF40] & LCDC_ENABLE_FLAG != 0 ==> forall|x: int|
                    0 <= x < 160 ==> row_pixel_ok(
                        final(self).screen_buffer@,
                        memory@.mem,
                        final(self).obj_fifo.obj_attr@,
                        strip,
                        old(self).line_y as int,
                        x,
                    )),
    {
        self.bg_fifo.next_line(memory);
        self.obj_fifo.next_line(memory);
        let ghost strip = self.obj_fifo.fifo@;
        let ghost objs = self.obj_fifo.obj_attr@;
        let line = self.line_y;
        let lcdc0 = memory.read_byte(LCDC_ADDRESS);
        let mut x: usize = 0;
        while x < SCREEN_WIDTH
            invariant
                memory.wf(),
                x <= 160,
                line == self.line_y < 144,
                lcdc0 == memory@.mem[0xFF40],
                self.screen_buffer@.len() == 69120,
                old(self).screen_buffer@.len() == 69120,
                self.last_seen == old(self).last_seen,
                self.last_timestamp == old(self).last_timestamp,
                self.last_ppu_mode == old(self).last_ppu_mode,
                self.bg_fifo.initialized,
                self.bg_fifo.screen_pos.y == line,
                self.bg_fifo.screen_pos.x == x,
                self.bg_fifo.in_window ==> win_cond(memory@.mem, x as int, line as int),
                self.obj_fifo.initialized,
                self.obj_fifo.screen_y == line,
                self.obj_fifo.obj_attr@ == objs,
                strip.len() == 160,
                self.obj_fifo.fifo@ == strip.subrange(x as int, 160),
                forall|i: int|
                    0 <= i < 160 ==> pix_listed(objs, #[trigger] strip[i]) && strip[i].color_ref < 4,
                forall|j: int|
                    0 <= j < 69120 && !(line * 480 <= j < line * 480 + 3 * x) ==> self.screen_buffer@[j]
                        == old(self).screen_buffer@[j],
                (lcdc0 & LCDC_ENABLE_FLAG == 0) ==> forall|j: int|
                    line * 480 <= j < line * 480 + 3 * x ==> self.screen_buffer@[j] == 0u8,
                (lcdc0 & LCDC_ENABLE_FLAG != 0) ==> forall|x2: int|
                    0 <= x2 < x ==> row_pixel_ok(
                        self.screen_buffer@,
                        memory@.mem,
                        objs,
                        strip,
                        line as int,
                        x2,
                    ),
            decreases 160 - x,
        {
            let ghost buf0 = self.screen_buffer@;
            proof {
                assert(strip.subrange(x as int, 160)[0] == strip[x as int]);
            }
            let bg_pixel = self.bg_fifo.pop(memory);
            let obj_pixel = self.obj_fifo.pop();
            proof {
                assert(self.obj_fifo.fifo@ =~= strip.subrange(x + 1, 160));
            }
            let pixel = self.mix(bg_pixel, obj_pixel);
            let color = self.pixel_to_color(pixel, memory);
            let offset = line * 480 + x * 3;
            if lcdc0 & LCDC_ENABLE_FLAG != 0 {
                self.screen_buffer.set(offset, color.0);
                self.screen_buffer.set(offset + 1, color.1);
                self.screen_buffer.set(offset + 2, color.2);
            } else {
                self.screen_buffer.set(offset, 0);
                self.screen_buffer.set(offset + 1, 0);
                self.screen_buffer.set(offset + 2, 0);
            }
            proof {
                if lcdc0 & LCDC_ENABLE_FLAG != 0 {
                    assert forall|x2: int| 0 <= x2 < x + 1 implies row_pixel_ok(
                        self.screen_buffer@,
                        memory@.mem,
                        objs,
                        strip,
                        line as int,
                        x2,
                    ) by {
                        if x2 == x {
                            assert(row_pixel_ok(
                                self.screen_buffer@,
                                memory@.mem,
                                objs,
                                strip,
                                line as int,
                                x as int,
                            ));
                        } else {
                            assert(row_pixel_ok(buf0, memory@.mem, objs, strip, line as int, x2));
                            assert(self.screen_buffer@[line * 480 + 3 * x2] == buf0[line * 480 + 3
                                * x2]);
                            assert(self.screen_buffer@[line * 480 + 3 * x2 + 1] == buf0[line * 480 + 3
                                * x2 + 1]);
                            assert(self.screen_buffer@[line * 480 + 3 * x2 + 2] == buf0[line * 480 + 3
                                * x2 + 2]);
                        }
                    }
                }
            }
            x = x + 1;
        }
        proof {
            assert(forall|i: int| 0 <= i < 160 ==> pix_listed(objs, #[trigger] strip[i]));
        }
    }

    /// Advance the mode machine to the given timestamp: cross at most one
    /// scanline boundary, perform the transition's side effects (scanline
    /// render, LY/STAT update, VBLANK and LCD-STAT interrupts), and report
    /// whether a frame was completed for the host to present.
    #[verifier::rlimit(100)]
    #[verifier::spinoff_prover]
    pub fn render(&mut self, memory: &mut Memory, timestamp: u128) -> (frame: bool)
        requires
            old(self).wf(),
            old(memory).wf(),
            timestamp >= old(self).last_seen,
            timestamp - old(self).last_seen <= 19,
        ensures
            final(self).wf(),
            final(memory).wf(),
            final(self).last_seen == timestamp,
            render_rel(*old(self), old(memory)@, timestamp, *final(self), final(memory)@, frame),
    {
        proof {
            reveal(render_rel);
            lemma_or_keeps_low_bit();
        }
        let clock_diff = timestamp - self.last_timestamp;
        if clock_diff >= SCANLINE_CYCLES {
            self.last_timestamp = self.last_timestamp + SCANLINE_CYCLES;
            self.line_y = self.line_y + 1;
        }
        if self.line_y > 153 {
            self.line_y = 0;
            self.bg_fifo = BgFIFO::new();
            self.obj_fifo = ObjFIFO::new();
        }
        let clock_diff = timestamp - self.last_timestamp;
        let current_ppu_mode = self.get_mode(clock_diff);
        let mut frame = false;
        if !modes_equal(self.last_ppu_mode, current_ppu_mode) {
            match (self.last_ppu_mode, current_ppu_mode) {
                (PPUMode::Mode1 { line: l1 }, PPUMode::Mode2 { line: l2 }) => {
                    self.set_lyc(memory);
                },
                (PPUMode::Mode2 { line: l1 }, PPUMode::Mode3 { line: l2 }) => {
                    self.draw_scanline(memory);
                },
                (PPUMode::Mode3 { line: l1 }, PPUMode::Mode0 { line: l2 }) => {},
                (PPUMode::Mode0 { line: l1 }, PPUMode::Mode2 { line: l2 }) => {
                    self.set_lyc(memory);
                },
                (PPUMode::Mode0 { line: l1 }, PPUMode::Mode1 { line: l2 }) => {
                    self.set_lyc(memory);
                    self.set_vblank_int(memory);
                    frame = true;
                },
                (PPUMode::Mode1 { line: l1 }, PPUMode::Mode1 { line: l2 }) => {
                    self.set_lyc(memory);
                },
                _ => {
                    proof {
                        assert(false);
                    }
                },
            }
            self.last_ppu_mode = current_ppu_mode;
            self.set_ppu(current_ppu_mode, memory);
        }
        self.last_seen = timestamp;
        frame
    }
}

/// The memory left behind by one mode-machine advance: on a transition,
/// the LY write with its LY=LYC coincidence machinery (except on the
/// same-line entry into and out of drawing), the VBLANK raise on entry
/// into vertical blank, and finally the STAT mode publication; without a
/// transition, memory is untouched.
pub open spec fn render_mem_spec(m: MemV, old_mode: PPUMode, new_mode: PPUMode, line: int) -> MemV {
    if old_mode == new_mode {
        m
    } else {
        let with_ly = match (old_mode, new_mode) {
            (PPUMode::Mode2 { .. }, PPUMode::Mode3 { .. }) => m,
            (PPUMode::Mode3 { .. }, PPUMode::Mode0 { .. }) => m,
            (PPUMode::Mode0 { .. }, PPUMode::Mode1 { .. }) => {
                let ml = Ppu::set_lyc_spec(m, line);
                write8_spec(ml, 0xFF0F, (ml.mem[0xFF0F] | VBLANK_FLAG) as u8)
            },
            _ => Ppu::set_lyc_spec(m, line),
        };
        Ppu::set_ppu_spec(with_ly, new_mode)
    }
}

/// What one `render` call does, relating the pipeline state and memory
/// before (`p0`, `m0`) to after (`p1`, `m1`) at timestamp `t`: the
/// line-start timestamp crosses at most one 114-cycle boundary, LY tracks
/// it, memory becomes exactly the per-transition composition of the LY,
/// VBLANK and STAT effects, `frame` marks the entry into vertical blank,
/// and the back buffer changes only when a scanline is drawn.
#[verifier::opaque]
pub open spec fn render_rel(p0: Ppu, m0: MemV, t: u128, p1: Ppu, m1: MemV, frame: bool) -> bool {
    &&& p1.last_seen == t
    &&& p1.last_timestamp == (if t - p0.last_timestamp >= 114 {
        p0.last_timestamp + 114
    } else {
        p0.last_timestamp as int
    })
    &&& p1.line_y == ((p1.last_timestamp / 114) % 154)
    &&& p1.last_ppu_mode == spec_mode(p1.line_y as int, (t - p1.last_timestamp) as int)
    &&& m1 == render_mem_spec(m0, p0.last_ppu_mode, p1.last_ppu_mode, p1.line_y as int)
    &&& (forall|j: int|
        0 <= j < 0x10000 && j != 0xFF41 && j != 0xFF44 && j != 0xFF0F ==> m1.mem[j] == m0.mem[j])
    &&& m1.boot == m0.boot
    &&& m1.rom == m0.rom
    &&& m1.cart == m0.cart
    &&& frame == (!(p0.last_ppu_mode is Mode1) && p1.last_ppu_mode is Mode1)
    &&& (frame ==> m1.mem[0xFF0F] & VBLANK_FLAG != 0)
    &&& (!frame ==> m1.mem[0xFF0F] & VBLANK_FLAG == m0.mem[0xFF0F] & VBLANK_FLAG)
    &&& (!(p0.last_ppu_mode is Mode2 && p1.last_ppu_mode is Mode3) ==> p1.screen_buffer
        == p0.screen_buffer)
    &&& ((p0.last_ppu_mode is Mode2 && p1.last_ppu_mode is Mode3 && m0.mem[0xFF40]
        & LCDC_ENABLE_FLAG == 0) ==> forall|j: int|
        p0.line_y * 480 <= j < p0.line_y * 480 + 480 ==> p1.screen_buffer@[j] == 0u8)
}

/// On every transition that moves to a new scanline (every one except the
/// same-line entries into and out of drawing), the LY register is written
/// with that line.
pub proof fn law_ly_register(m: MemV, om: PPUMode, nm: PPUMode, line: int)
    requires
        memv_wf(m),
        om != nm,
        !(om is Mode2 && nm is Mode3),
        !(om is Mode3 && nm is Mode0),
        0 <= line <= 153,
    ensures
        render_mem_spec(m, om, nm, line).mem[0xFF44] == line,
{
    reveal(Ppu::set_lyc_spec);
    reveal(Ppu::set_ppu_spec);
}

/// Whether two modes (with their lines) are the same.
pub fn modes_equal(a: PPUMode, b: PPUMode) -> (r: bool)
    ensures
        r == (a == b),
{
    match (a, b) {
        (PPUMode::Mode0 { line: l1 }, PPUMode::Mode0 { line: l2 }) => l1 == l2,
        (PPUMode::Mode1 { line: l1 }, PPUMode::Mode1 { line: l2 }) => l1 == l2,
        (PPUMode::Mode2 { line: l1 }, PPUMode::Mode2 { line: l2 }) => l1 == l2,
        (PPUMode::Mode3 { line: l1 }, PPUMode::Mode3 { line: l2 }) => l1 == l2,
        _ => false,
    }
}

proof fn lemma_or_keeps_low_bit()
    by (bit_vector)
    ensures
        forall|f: u8| ((f | 2) & 1) == (f & 1),
        forall|f: u8| ((f | 4) & 1) == (f & 1),
        forall|f: u8| ((f | 1) & 1) != 0,
{
}

/// Every frame has the same shape: the line-start timestamp counts whole
/// 114-cycle scanlines, LY is the scanline count modulo the 154 lines of a
/// frame (so it passes through 0 to 153 exactly once per frame), and a
/// frame spans exactly 154 * 114 = 17556 machine cycles: LY returns to 0
/// exactly at multiples of 17556.
pub proof fn law_frame_structure(p: Ppu)
    requires
        p.wf(),
    ensures
        p.last_timestamp % 114 == 0,
        p.line_y == ((p.last_timestamp / 114) % 154),
        p.line_y <= 153,
        (p.line_y == 0) <==> (p.last_timestamp % 17556 < 114),
{
    let k = p.last_timestamp / 114;
    assert(p.last_timestamp == 114 * k) by (nonlinear_arith)
        requires
            p.last_timestamp % 114 == 0,
            k == p.last_timestamp / 114,
    ;
    assert((114 * k) % 17556 == 114 * (k % 154)) by (nonlinear_arith);
    assert(k % 154 < 154) by (nonlinear_arith);
    assert(114 * (k % 154) < 114 <==> k % 154 == 0) by (nonlinear_arith);
}

} // verus!
