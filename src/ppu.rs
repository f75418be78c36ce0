use vstd::prelude::*;
use crate::memory_gb::{Address, Byte, MemoryMap, MemoryRegion, MemoryState, Word, lemma_plain_io_read, spec_signed};
use crate::ops::bit_is_set;

verus! {

pub const SCREEN_WIDTH: usize = 160;

pub const SCREEN_HEIGHT: usize = 144;

pub const DISPLAY_BUFFER_SIZE: usize = 23040;

pub const DOTS_PER_LINE: u32 = 456;

pub const VBLANK_START_DOTS: u32 = 65664;

pub const DOT_MAX: u32 = 70224;

pub const OAM_SCAN_TIME: u32 = 80;

pub const PIXEL_DRAW_END_DOTS: u32 = 252;

pub const OAM_GRANULE: u32 = 2;

pub const PIXEL_DRAW_GRANULE: u32 = 43;

pub const HBLANK_GRANULE: u32 = 12;

pub const VBLANK_GRANULE: u32 = 24;

/// Dots charged per call while the LCD is off.
pub const LCD_OFF_GRANULE: u32 = 4;

pub const LCDC_ADDRESS: Address = 0xFF40;

pub const STAT_ADDRESS: Address = 0xFF41;

pub const SCY_ADDRESS: Address = 0xFF42;

pub const SCX_ADDRESS: Address = 0xFF43;

pub const LY_ADDRESS: Address = 0xFF44;

pub const LYC_ADDRESS: Address = 0xFF45;

pub const BGP_ADDRESS: Address = 0xFF47;

pub const OBP0_ADDRESS: Address = 0xFF48;

pub const OBP1_ADDRESS: Address = 0xFF49;

pub const WY_ADDRESS: Address = 0xFF4A;

pub const WX_ADDRESS: Address = 0xFF4B;

/// A 2-bit colour number of a tile pixel, before a palette.
#[derive(Clone, Copy, PartialEq, Eq, Structural, Debug)]
pub enum ColorIndex {
    Blank,
    One,
    Two,
    Three,
}

/// One of the four shades on screen, lightest first.
#[derive(Clone, Copy, PartialEq, Eq, Structural, Debug)]
pub enum Color {
    A,
    B,
    C,
    D,
}

pub open spec fn color_index_value(c: ColorIndex) -> u8 {
    match c {
        ColorIndex::Blank => 0,
        ColorIndex::One => 1,
        ColorIndex::Two => 2,
        ColorIndex::Three => 3,
    }
}

pub open spec fn color_value(c: Color) -> u8 {
    match c {
        Color::A => 0,
        Color::B => 1,
        Color::C => 2,
        Color::D => 3,
    }
}

pub open spec fn color_of_value(v: u8) -> Color {
    if v == 0 {
        Color::A
    } else if v == 1 {
        Color::B
    } else if v == 2 {
        Color::C
    } else {
        Color::D
    }
}

/// The shade that a palette byte gives colour number `n`: bits 2n+1..2n.
pub open spec fn palette_shade(palette: u8, n: u8) -> u8 {
    let weight: int = if n == 0 {
        1
    } else if n == 1 {
        4
    } else if n == 2 {
        16
    } else {
        64
    };
    ((palette as int / weight) % 4) as u8
}

impl ColorIndex {
    pub fn from_bits(high: bool, low: bool) -> (r: ColorIndex)
        ensures
            color_index_value(r) == (if high { 2int } else { 0 }) + (if low { 1int } else { 0 }),
    {
        match (high, low) {
            (false, false) => ColorIndex::Blank,
            (false, true) => ColorIndex::One,
            (true, false) => ColorIndex::Two,
            (true, true) => ColorIndex::Three,
        }
    }

    pub fn from_value(value: u8) -> (r: Option<ColorIndex>)
        ensures
            value < 4 ==> r is Some && color_index_value(r->0) == value,
            value >= 4 ==> r is None,
    {
        if value == 0 {
            Some(ColorIndex::Blank)
        } else if value == 1 {
            Some(ColorIndex::One)
        } else if value == 2 {
            Some(ColorIndex::Two)
        } else if value == 3 {
            Some(ColorIndex::Three)
        } else {
            None
        }
    }

    pub fn to_value(&self) -> (r: u8)
        ensures
            r == color_index_value(*self),
    {
        match self {
            ColorIndex::Blank => 0,
            ColorIndex::One => 1,
            ColorIndex::Two => 2,
            ColorIndex::Three => 3,
        }
    }

    /// The shade that `palette` gives this colour number.
    pub fn apply_palette(&self, palette: Byte) -> (r: Color)
        ensures
            color_value(r) == palette_shade(palette, color_index_value(*self)),
            r == color_of_value(palette_shade(palette, color_index_value(*self))),
    {
        let color_number = self.to_value();
        let weight: u8 = if color_number == 0 {
            1
        } else if color_number == 1 {
            4
        } else if color_number == 2 {
            16
        } else {
            64
        };
        Color::from_value_total((palette / weight) % 4)
    }
}

impl Color {
    pub fn from_bits(high: bool, low: bool) -> (r: Color)
        ensures
            color_value(r) == (if high { 2int } else { 0 }) + (if low { 1int } else { 0 }),
    {
        match (high, low) {
            (false, false) => Color::A,
            (false, true) => Color::B,
            (true, false) => Color::C,
            (true, true) => Color::D,
        }
    }

    pub fn from_value(value: u8) -> (r: Option<Color>)
        ensures
            value < 4 ==> r == Some(color_of_value(value)),
            value >= 4 ==> r is None,
    {
        if value < 4 {
            Some(Color::from_value_total(value))
        } else {
            None
        }
    }

    fn from_value_total(value: u8) -> (r: Color)
        ensures
            r == color_of_value(value),
            value < 4 ==> color_value(r) == value,
    {
        if value == 0 {
            Color::A
        } else if value == 1 {
            Color::B
        } else if value == 2 {
            Color::C
        } else {
            Color::D
        }
    }

    pub fn to_value(&self) -> (r: u8)
        ensures
            r == color_value(*self),
    {
        match self {
            Color::A => 0,
            Color::B => 1,
            Color::C => 2,
            Color::D => 3,
        }
    }

    /// Whether this is the shade that `palette` gives colour number 0.
    pub fn is_blank_color(&self, palette: Byte) -> (r: bool)
        ensures
            r == (color_value(*self) == palette % 4),
    {
        self.to_value() == palette % 4
    }
}

/// The colour number of pixel (x, y) of the tile whose 16 bytes start at
/// `address`: bit 7-x of the line's second byte, then of its first.
pub open spec fn tile_pixel(mem: MemoryState, address: u16, x: u8, y: u8) -> u8 {
    let low = mem.read((address + 2 * y) as u16);
    let high = mem.read((address + 2 * y + 1) as u16);
    ((if bit_is_set(high, (7 - x) as u8) { 2int } else { 0 }) + (if bit_is_set(low, (7 - x) as u8) {
        1int
    } else {
        0
    })) as u8
}

/// Eight lines of two bytes each.
pub struct Tile {
    pub lines: Vec<Word>,
}

impl Tile {
    /// Loads the 16 bytes of a tile as eight little-endian words.
    pub fn from_address(memory: &MemoryMap, address: Address) -> (r: Tile)
        requires
            memory.wf(),
            address <= 0xFFF0,
        ensures
            r.lines@.len() == 8,
            forall|i: int|
                0 <= i < 8 ==> #[trigger] r.lines@[i] == memory@.read((address + 2 * i) as u16)
                    + 256 * memory@.read((address + 2 * i + 1) as u16),
    {
        let mut lines: Vec<Word> = Vec::new();
        let mut i: u16 = 0;
        while i < 8
            invariant
                memory.wf(),
                address <= 0xFFF0,
                i <= 8,
                lines@.len() == i,
                forall|j: int|
                    0 <= j < i ==> #[trigger] lines@[j] == memory@.read((address + 2 * j) as u16)
                        + 256 * memory@.read((address + 2 * j + 1) as u16),
            decreases 8 - i,
        {
            let low = memory.read(address + 2 * i);
            let high = memory.read(address + 2 * i + 1);
            lines.push(low as u16 + 256 * high as u16);
            i = i + 1;
        }
        Tile { lines }
    }

    /// The colour number of pixel (x, y); None outside the 8x8 tile.
    pub fn color_index(&self, idx_x: u8, idx_y: u8) -> (r: Option<ColorIndex>)
        requires
            self.lines@.len() == 8,
        ensures
            (idx_x > 7 || idx_y > 7) ==> r is None,
            (idx_x <= 7 && idx_y <= 7) ==> ({
                let word = self.lines@[idx_y as int];
                let low = (word % 256) as u8;
                let high = (word / 256) as u8;
                r is Some && color_index_value(r->0) == (if bit_is_set(high, (7 - idx_x) as u8) {
                    2int
                } else {
                    0
                }) + (if bit_is_set(low, (7 - idx_x) as u8) { 1int } else { 0 })
            }),
    {
        if idx_x > 7 || idx_y > 7 {
            None
        } else {
            let data_word = self.lines[idx_y as usize];
            let low_byte = (data_word % 256) as u8;
            let high_byte = (data_word / 256) as u8;
            let weight: u8 = if idx_x == 0 {
                128
            } else if idx_x == 1 {
                64
            } else if idx_x == 2 {
                32
            } else if idx_x == 3 {
                16
            } else if idx_x == 4 {
                8
            } else if idx_x == 5 {
                4
            } else if idx_x == 6 {
                2
            } else {
                1
            };
            Some(ColorIndex::from_bits((high_byte / weight) % 2 == 1, (low_byte / weight) % 2 == 1))
        }
    }
}

/// The PPU's four modes.
#[derive(Clone, Copy, PartialEq, Eq, Structural, Debug)]
pub enum RenderMode {
    OAMScan,
    PixelDraw,
    HBlank,
    VBlank,
}

pub open spec fn spec_mode_number(m: RenderMode) -> u8 {
    match m {
        RenderMode::OAMScan => 2,
        RenderMode::PixelDraw => 3,
        RenderMode::HBlank => 0,
        RenderMode::VBlank => 1,
    }
}

impl RenderMode {
    /// The mode number that STAT bits 0..1 report.
    pub fn mode_number(&self) -> (r: u8)
        ensures
            r == spec_mode_number(*self),
    {
        match self {
            RenderMode::OAMScan => 2,
            RenderMode::PixelDraw => 3,
            RenderMode::HBlank => 0,
            RenderMode::VBlank => 1,
        }
    }
}

/// The dots that one call spends in a mode.
pub open spec fn granule(m: RenderMode) -> u32 {
    match m {
        RenderMode::OAMScan => OAM_GRANULE,
        RenderMode::PixelDraw => PIXEL_DRAW_GRANULE,
        RenderMode::HBlank => HBLANK_GRANULE,
        RenderMode::VBlank => VBLANK_GRANULE,
    }
}

/// The mode change due at dot `d` of the frame.
pub open spec fn next_mode(m: RenderMode, d: u32) -> (RenderMode, u32) {
    match m {
        RenderMode::OAMScan => if d % DOTS_PER_LINE >= OAM_SCAN_TIME {
            (RenderMode::PixelDraw, d)
        } else {
            (RenderMode::OAMScan, d)
        },
        RenderMode::PixelDraw => if d % DOTS_PER_LINE >= PIXEL_DRAW_END_DOTS {
            (RenderMode::HBlank, d)
        } else {
            (RenderMode::PixelDraw, d)
        },
        RenderMode::HBlank => if d % DOTS_PER_LINE == 0 {
            if d >= VBLANK_START_DOTS {
                (RenderMode::VBlank, d)
            } else {
                (RenderMode::OAMScan, d)
            }
        } else {
            (RenderMode::HBlank, d)
        },
        RenderMode::VBlank => if d >= DOT_MAX {
            (RenderMode::OAMScan, 0)
        } else {
            (RenderMode::VBlank, d)
        },
    }
}

/// One call of the mode machine: the new mode and dot, and the dots spent.
pub open spec fn advance(m: RenderMode, d: u32) -> (RenderMode, u32, u32) {
    let n = next_mode(m, (d + granule(m)) as u32);
    (n.0, n.1, granule(m))
}

/// The (mode, dot) pairs that the mode machine reaches from the frame start.
pub open spec fn timing_wf(m: RenderMode, d: u32) -> bool {
    &&& d < DOT_MAX
    &&& match m {
        RenderMode::OAMScan => d / 456 < 144 && d % 456 < 80 && d % 2 == 0,
        RenderMode::PixelDraw => d / 456 < 144 && 80 <= d % 456 < 252 && (d % 456 - 80) % 43 == 0,
        RenderMode::HBlank => d / 456 < 144 && 252 <= d % 456 && (d % 456 - 252) % 12 == 0,
        RenderMode::VBlank => d >= VBLANK_START_DOTS && (d - VBLANK_START_DOTS) % 24 == 0,
    }
}

/// Each call moves the frame position by exactly the dots it spends, except
/// the one that ends the frame, which lands on dot 0 of line 0's OAM scan.
pub proof fn lemma_advance(m: RenderMode, d: u32)
    requires
        timing_wf(m, d),
    ensures
        timing_wf(advance(m, d).0, advance(m, d).1),
        advance(m, d).1 == d + advance(m, d).2 || (d + advance(m, d).2 == DOT_MAX && advance(m, d).1
            == 0 && advance(m, d).0 == RenderMode::OAMScan),
        advance(m, d).1 == 0 ==> d + advance(m, d).2 == DOT_MAX,
{
}

pub open spec fn sum_dots(s: Seq<u32>) -> int
    decreases s.len(),
{
    if s.len() == 0 {
        0
    } else {
        sum_dots(s.drop_last()) + s.last()
    }
}

proof fn lemma_frame_prefix(modes: Seq<RenderMode>, dots: Seq<u32>, spent: Seq<u32>, k: int)
    requires
        modes.len() == dots.len() == spent.len() + 1,
        modes[0] == RenderMode::OAMScan,
        dots[0] == 0,
        forall|i: int|
            0 <= i < spent.len() ==> #[trigger] advance(modes[i], dots[i]) == (
                modes[i + 1],
                dots[i + 1],
                spent[i],
            ),
        forall|i: int| 0 < i < spent.len() ==> #[trigger] dots[i] != 0,
        0 <= k < spent.len(),
    ensures
        timing_wf(modes[k], dots[k]),
        sum_dots(spent.take(k)) == dots[k],
    decreases k,
{
    if k > 0 {
        lemma_frame_prefix(modes, dots, spent, k - 1);
        lemma_advance(modes[k - 1], dots[k - 1]);
        assert(advance(modes[k - 1], dots[k - 1]) == (modes[k], dots[k], spent[k - 1]));
        assert(dots[k] != 0);
        assert(spent.take(k).drop_last() =~= spent.take(k - 1));
    } else {
        assert(spent.take(0) =~= Seq::<u32>::empty());
    }
}

/// From line 0's OAM scan at dot 0, the calls up to the next return to dot 0
/// spend exactly 70,224 dots: one frame.
pub proof fn lemma_frame_is_70224_dots(modes: Seq<RenderMode>, dots: Seq<u32>, spent: Seq<u32>)
    requires
        modes.len() == dots.len() == spent.len() + 1,
        spent.len() > 0,
        modes[0] == RenderMode::OAMScan,
        dots[0] == 0,
        forall|i: int|
            0 <= i < spent.len() ==> #[trigger] advance(modes[i], dots[i]) == (
                modes[i + 1],
                dots[i + 1],
                spent[i],
            ),
        forall|i: int| 0 < i < spent.len() ==> #[trigger] dots[i] != 0,
        dots[spent.len() as int] == 0,
    ensures
        sum_dots(spent) == DOT_MAX,
{
    let n = spent.len() as int;
    lemma_frame_prefix(modes, dots, spent, n - 1);
    lemma_advance(modes[n - 1], dots[n - 1]);
    assert(advance(modes[n - 1], dots[n - 1]) == (modes[n], dots[n], spent[n - 1]));
    assert(spent.take(n).drop_last() =~= spent.take(n - 1));
    assert(spent.take(n) =~= spent);
}

/// One object attribute entry: position, tile and flags (bit 7 behind the
/// background, bit 6 y-flip, bit 5 x-flip, bit 4 palette).
#[derive(Clone, Copy, PartialEq, Eq, Structural, Debug)]
pub struct OamEntry {
    pub y_pos: Byte,
    pub x_pos: Byte,
    pub tile_index: Byte,
    pub flags: Byte,
}

pub open spec fn lcdc_bit(mem: MemoryState, bit: u8) -> bool {
    bit_is_set(mem.read(LCDC_ADDRESS), bit)
}

/// The first screen column of the window (WX - 7, floored at 0).
pub open spec fn window_left(mem: MemoryState) -> int {
    let wx = mem.read(WX_ADDRESS);
    if wx >= 7 {
        wx - 7
    } else {
        0
    }
}

pub open spec fn in_window(mem: MemoryState, line: int, x: int) -> bool {
    lcdc_bit(mem, 5) && line >= mem.read(WY_ADDRESS) && x >= window_left(mem)
}

/// Whether the window shows on `line` at all.
pub open spec fn window_drawn(mem: MemoryState, line: int) -> bool {
    lcdc_bit(mem, 0) && lcdc_bit(mem, 5) && line >= mem.read(WY_ADDRESS) && window_left(mem) < 160
}

/// Where the data of background tile `tile_id` starts: 8000 + 16 id, or
/// 9000 + 16 id with the id signed.
pub open spec fn bg_tile_address(mem: MemoryState, tile_id: u8) -> u16 {
    if lcdc_bit(mem, 4) {
        (0x8000 + 16 * tile_id) as u16
    } else {
        (0x9000 + 16 * spec_signed(tile_id)) as u16
    }
}

/// The background or window shade at screen (x, line); `window_line` is the
/// window's own line counter.
pub open spec fn bg_pixel(mem: MemoryState, line: int, x: int, window_line: int) -> Color {
    let window = in_window(mem, line, x);
    let map: int = if window {
        if lcdc_bit(mem, 6) { 0x9C00 } else { 0x9800 }
    } else {
        if lcdc_bit(mem, 3) { 0x9C00 } else { 0x9800 }
    };
    let px: int = if window { x - window_left(mem) } else { (x + mem.read(SCX_ADDRESS)) % 256 };
    let py: int = if window { window_line % 256 } else { (line + mem.read(SCY_ADDRESS)) % 256 };
    let tile_id = mem.read((map + (py / 8) * 32 + px / 8) as u16);
    let n = tile_pixel(mem, bg_tile_address(mem, tile_id), (px % 8) as u8, (py % 8) as u8);
    color_of_value(palette_shade(mem.read(BGP_ADDRESS), n))
}

pub open spec fn object_height(mem: MemoryState) -> int {
    if lcdc_bit(mem, 2) {
        16
    } else {
        8
    }
}

/// The object covers `line` (objects sit 16 lines above the screen's top).
pub open spec fn object_on_line(mem: MemoryState, obj: OamEntry, line: int) -> bool {
    obj.y_pos <= line + 16 < obj.y_pos + object_height(mem)
}

/// The pixel at screen (x, line) after object `obj` is drawn over `current`.
pub open spec fn object_pixel(mem: MemoryState, obj: OamEntry, line: int, x: int, current: Color) -> Color {
    let px = x + 8;
    let py = line + 16;
    let h = object_height(mem);
    if !(obj.x_pos <= px < obj.x_pos + 8 && obj.y_pos <= py < obj.y_pos + h) {
        current
    } else {
        let ix = px - obj.x_pos;
        let iy = py - obj.y_pos;
        let fx = if bit_is_set(obj.flags, 5) { 7 - ix } else { ix };
        let fy = if bit_is_set(obj.flags, 6) { h - 1 - iy } else { iy };
        let tile: int = if h == 16 {
            if fy < 8 { obj.tile_index - obj.tile_index % 2 } else { obj.tile_index - obj.tile_index % 2 + 1 }
        } else {
            obj.tile_index as int
        };
        let n = tile_pixel(mem, (0x8000 + 16 * tile) as u16, fx as u8, (fy % 8) as u8);
        let palette = if bit_is_set(obj.flags, 4) { mem.read(OBP1_ADDRESS) } else { mem.read(OBP0_ADDRESS) };
        if n == 0 {
            current
        } else if bit_is_set(obj.flags, 7) && color_value(current) != mem.read(BGP_ADDRESS) % 4 {
            current
        } else {
            color_of_value(palette_shade(palette, n))
        }
    }
}

/// The objects drawn in order over `current`; later ones overwrite earlier ones.
pub open spec fn objects_pixel(mem: MemoryState, objs: Seq<OamEntry>, line: int, x: int, current: Color) -> Color
    decreases objs.len(),
{
    if objs.len() == 0 {
        current
    } else {
        object_pixel(mem, objs.last(), line, x, objects_pixel(mem, objs.drop_last(), line, x, current))
    }
}

/// The final shade of screen (x, line).
pub open spec fn line_pixel(mem: MemoryState, objs: Seq<OamEntry>, line: int, x: int, window_line: int) -> Color {
    let base = if lcdc_bit(mem, 0) { bg_pixel(mem, line, x, window_line) } else { Color::A };
    if lcdc_bit(mem, 1) {
        objects_pixel(mem, objs, line, x, base)
    } else {
        base
    }
}

/// The OAM entry in slot `k`.
pub open spec fn oam_entry(mem: MemoryState, k: int) -> OamEntry {
    OamEntry {
        y_pos: mem.read((0xFE00 + 4 * k) as u16),
        x_pos: mem.read((0xFE00 + 4 * k + 1) as u16),
        tile_index: mem.read((0xFE00 + 4 * k + 2) as u16),
        flags: mem.read((0xFE00 + 4 * k + 3) as u16),
    }
}

/// Objects ordered by x, highest first, so that the one drawn last wins.
pub open spec fn sorted_for_drawing(objs: Seq<OamEntry>) -> bool {
    forall|i: int, j: int| 0 <= i < j < objs.len() ==> objs[i].x_pos >= objs[j].x_pos
}

/// One granule of the graphics unit from (`c0`, `m0`) to (`c1`, `m1`),
/// spending `spent` dots.
pub open spec fn ppu_ran(c0: &Ppu, m0: MemoryState, c1: &Ppu, m1: MemoryState, spent: u32) -> bool {
    &&& m1.read(LY_ADDRESS) <= 153
    &&& bit_is_set(m1.read(STAT_ADDRESS), 2) <==> m1.read(LY_ADDRESS)
        == m1.read(LYC_ADDRESS)
    &&& lcdc_bit(m0, 7) ==> ({
        let a = advance(c0.current_mode, c0.current_dot);
        let mode = c0.current_mode;
        let dot = c0.current_dot;
        let line = dot / DOTS_PER_LINE;
        let scanned = mode == RenderMode::OAMScan && (dot + OAM_GRANULE) as int % DOTS_PER_LINE as int >= OAM_SCAN_TIME;
        let drawn = mode == RenderMode::PixelDraw && (dot + PIXEL_DRAW_GRANULE) as int % DOTS_PER_LINE as int
            >= PIXEL_DRAW_END_DOTS;
        let row = c0.back_buffer_base + 160 * line;
        &&& c1.current_mode == a.0
        &&& c1.current_dot == a.1
        &&& spent == a.2
        &&& m1 == render_registers(m0, mode, a.0, a.1)
        &&& scanned ==> scan_result(m0, c1.oam_scan_results@)
        &&& !scanned ==> c1.oam_scan_results@ == c0.oam_scan_results@
        &&& drawn ==> (forall|x: int|
            0 <= x < 160 ==> #[trigger] c1.display_buffer@[row + x] == line_pixel(
                m0,
                c0.oam_scan_results@,
                line as int,
                x,
                c0.internal_window_line_counter as int,
            ))
        &&& drawn ==> (forall|i: int|
            0 <= i < 2 * DISPLAY_BUFFER_SIZE && !(row <= i < row + 160) ==> #[trigger] c1.display_buffer@[i]
                == c0.display_buffer@[i])
        &&& drawn ==> c1.internal_window_line_counter == if window_drawn(m0, line as int)
            && c0.internal_window_line_counter < 0x7FFF {
            c0.internal_window_line_counter + 1
        } else {
            c0.internal_window_line_counter as int
        }
        &&& !drawn ==> c1.display_buffer@ == c0.display_buffer@
        &&& entering_vblank(mode, a.0) ==> c1.frame_ready && c1.front_buffer_base
            == c0.back_buffer_base && c1.back_buffer_base == c0.front_buffer_base
            && c1.internal_window_line_counter == 0
        &&& !entering_vblank(mode, a.0) ==> c1.frame_ready == c0.frame_ready
            && c1.front_buffer_base == c0.front_buffer_base
            && c1.back_buffer_base == c0.back_buffer_base
        &&& (!drawn && !entering_vblank(mode, a.0)) ==> c1.internal_window_line_counter
            == c0.internal_window_line_counter
    })
    &&& !lcdc_bit(m0, 7) ==> c1.current_mode == RenderMode::OAMScan
        && c1.current_dot == 0 && spent == LCD_OFF_GRANULE && c1.internal_window_line_counter
        == 0 && c1.display_buffer@ == c0.display_buffer@ && c1.frame_ready
        == c0.frame_ready && m1 == (MemoryState {
        io: m0.io.update(0x44, 0).update(
            0x41,
            stat_value(m0.io[0x41], 0, m0.io[0x45], RenderMode::HBlank),
        ),
        ..m0
    })
}

/// The graphics unit: mode machine, double-buffered screen and OAM scan.
pub struct Ppu {
    pub current_mode: RenderMode,
    pub current_dot: u32,
    pub display_buffer: Vec<Color>,
    pub front_buffer_base: usize,
    pub back_buffer_base: usize,
    pub oam_scan_results: Vec<OamEntry>,
    pub internal_window_line_counter: u16,
    pub frame_ready: bool,
}

impl Ppu {
    pub open spec fn wf(&self) -> bool {
        &&& timing_wf(self.current_mode, self.current_dot)
        &&& self.wf_except_timing()
    }

    /// Everything of `wf` but the position of the mode machine.
    pub open spec fn wf_except_timing(&self) -> bool {
        &&& self.display_buffer@.len() == 2 * DISPLAY_BUFFER_SIZE
        &&& ((self.front_buffer_base == 0 && self.back_buffer_base == DISPLAY_BUFFER_SIZE) || (
        self.front_buffer_base == DISPLAY_BUFFER_SIZE && self.back_buffer_base == 0))
        &&& self.internal_window_line_counter <= 0x7FFF
        &&& self.oam_scan_results@.len() <= 10
    }

    /// A unit at the last granule of VBlank, both buffers blank.
    pub fn new() -> (r: Ppu)
        ensures
            r.wf(),
            r.current_mode == RenderMode::VBlank,
            r.current_dot == DOT_MAX - VBLANK_GRANULE,
            !r.frame_ready,
            r.display_buffer@ == Seq::new(2 * DISPLAY_BUFFER_SIZE as nat, |_i: int| Color::A),
    {
        let mut display_buffer: Vec<Color> = Vec::new();
        let mut i: usize = 0;
        while i < 2 * DISPLAY_BUFFER_SIZE
            invariant
                i <= 2 * DISPLAY_BUFFER_SIZE,
                display_buffer@ == Seq::new(i as nat, |_i: int| Color::A),
            decreases 2 * DISPLAY_BUFFER_SIZE - i,
        {
            display_buffer.push(Color::A);
            i = i + 1;
        }
        Ppu {
            current_mode: RenderMode::VBlank,
            current_dot: DOT_MAX - VBLANK_GRANULE,
            display_buffer,
            front_buffer_base: 0,
            back_buffer_base: DISPLAY_BUFFER_SIZE,
            oam_scan_results: Vec::new(),
            internal_window_line_counter: 0,
            frame_ready: false,
        }
    }

    /// Whether a new frame was published since the last call; clears the flag.
    pub fn frame_is_ready(&mut self) -> (ready: bool)
        ensures
            ready == old(self).frame_ready,
            !final(self).frame_ready,
            final(self).current_mode == old(self).current_mode,
            final(self).current_dot == old(self).current_dot,
            final(self).display_buffer@ == old(self).display_buffer@,
            final(self).front_buffer_base == old(self).front_buffer_base,
            final(self).back_buffer_base == old(self).back_buffer_base,
            final(self).oam_scan_results@ == old(self).oam_scan_results@,
            final(self).internal_window_line_counter == old(self).internal_window_line_counter,
    {
        let ready = self.frame_ready;
        self.frame_ready = false;
        ready
    }

    /// A copy of the front buffer, row by row.
    pub fn display_handle(&self) -> (r: Vec<Color>)
        requires
            self.wf(),
        ensures
            r@ == self.display_buffer@.subrange(
                self.front_buffer_base as int,
                self.front_buffer_base + DISPLAY_BUFFER_SIZE,
            ),
    {
        let mut out: Vec<Color> = Vec::new();
        let mut i: usize = 0;
        while i < DISPLAY_BUFFER_SIZE
            invariant
                self.wf(),
                i <= DISPLAY_BUFFER_SIZE,
                out@ == self.display_buffer@.subrange(
                    self.front_buffer_base as int,
                    self.front_buffer_base + i,
                ),
            decreases DISPLAY_BUFFER_SIZE - i,
        {
            out.push(self.display_buffer[self.front_buffer_base + i]);
            i = i + 1;
            assert(out@ =~= self.display_buffer@.subrange(
                self.front_buffer_base as int,
                self.front_buffer_base + i,
            ));
        }
        out
    }

    /// The back buffer becomes the front one and a frame is published.
    fn swap_buffers(&mut self)
        requires
            old(self).wf_except_timing(),
        ensures
            final(self).wf_except_timing(),
            final(self).front_buffer_base == old(self).back_buffer_base,
            final(self).back_buffer_base == old(self).front_buffer_base,
            final(self).frame_ready,
            final(self).current_mode == old(self).current_mode,
            final(self).current_dot == old(self).current_dot,
            final(self).display_buffer@ == old(self).display_buffer@,
            final(self).oam_scan_results@ == old(self).oam_scan_results@,
            final(self).internal_window_line_counter == old(self).internal_window_line_counter,
    {
        let tmp: usize = self.front_buffer_base;
        self.front_buffer_base = self.back_buffer_base;
        self.back_buffer_base = tmp;
        self.frame_ready = true;
    }

    /// The screen rectangle that SCX and SCY select in the 256x256 map, as
    /// (left, top) and (right, bottom), wrapping.
    pub fn viewport_of(scx: Byte, scy: Byte) -> (r: ((u16, u16), (u16, u16)))
        ensures
            r == ((scx as u16, scy as u16), (((scx + 159) % 256) as u16, ((scy + 143) % 256) as u16)),
    {
        ((scx as u16, scy as u16), (scx.wrapping_add(159) as u16, scy.wrapping_add(143) as u16))
    }

    /// The colour number of pixel (x, y) of the tile at `address`.
    fn tile_color_number(memory: &MemoryMap, address: Address, x: u8, y: u8) -> (r: u8)
        requires
            memory.wf(),
            address <= 0xFFF0,
            x < 8,
            y < 8,
        ensures
            r == tile_pixel(memory@, address, x, y),
            r < 4,
    {
        let tile = Tile::from_address(memory, address);
        assert(tile.lines@[y as int] == memory@.read((address + 2 * y) as u16) + 256 * memory@.read(
            (address + 2 * y + 1) as u16,
        ));
        match tile.color_index(x, y) {
            Some(c) => c.to_value(),
            None => 0,
        }
    }

    fn test_bit(value: u8, bit: u8) -> (r: bool)
        requires
            bit < 8,
        ensures
            r == bit_is_set(value, bit),
    {
        let weight: u8 = if bit == 0 {
            1
        } else if bit == 1 {
            2
        } else if bit == 2 {
            4
        } else if bit == 3 {
            8
        } else if bit == 4 {
            16
        } else if bit == 5 {
            32
        } else if bit == 6 {
            64
        } else {
            128
        };
        (value / weight) % 2 == 1
    }

    /// The background or window shade at screen (x, line).
    fn background_color(memory: &MemoryMap, line: u32, x: u16, window_line: u16) -> (r: Color)
        requires
            memory.wf(),
            line < 144,
            x < 160,
        ensures
            r == bg_pixel(memory@, line as int, x as int, window_line as int),
    {
        let lcdc = memory.read(LCDC_ADDRESS);
        let wy = memory.read(WY_ADDRESS);
        let wx = memory.read(WX_ADDRESS);
        let left: u16 = if wx >= 7 { (wx - 7) as u16 } else { 0 };
        let window = Ppu::test_bit(lcdc, 5) && line >= wy as u32 && x >= left;
        let map: u16 = if window {
            if Ppu::test_bit(lcdc, 6) { 0x9C00 } else { 0x9800 }
        } else {
            if Ppu::test_bit(lcdc, 3) { 0x9C00 } else { 0x9800 }
        };
        let scx = memory.read(SCX_ADDRESS);
        let scy = memory.read(SCY_ADDRESS);
        let px: u16 = if window { x - left } else { (x + scx as u16) % 256 };
        let py: u16 = if window { window_line % 256 } else { ((line as u16) + scy as u16) % 256 };
        let tile_id = memory.read(map + (py / 8) * 32 + px / 8);
        let tile_address: u16 = if Ppu::test_bit(lcdc, 4) {
            0x8000 + 16 * tile_id as u16
        } else if tile_id < 128 {
            0x9000 + 16 * tile_id as u16
        } else {
            0x9000 - 16 * (256 - tile_id as u16)
        };
        let n = Ppu::tile_color_number(memory, tile_address, (px % 8) as u8, (py % 8) as u8);
        let bgp = memory.read(BGP_ADDRESS);
        let index = ColorIndex::from_value(n);
        match index {
            Some(c) => c.apply_palette(bgp),
            None => Color::A,
        }
    }

    /// The pixel at screen (x, line) after object `obj` is drawn over `current`.
    fn object_color(memory: &MemoryMap, obj: OamEntry, line: u32, x: u16, current: Color) -> (r: Color)
        requires
            memory.wf(),
            line < 144,
            x < 160,
        ensures
            r == object_pixel(memory@, obj, line as int, x as int, current),
    {
        let lcdc = memory.read(LCDC_ADDRESS);
        let height: u16 = if Ppu::test_bit(lcdc, 2) { 16 } else { 8 };
        let px: u16 = x + 8;
        let py: u16 = line as u16 + 16;
        let ox = obj.x_pos as u16;
        let oy = obj.y_pos as u16;
        if !(ox <= px && px < ox + 8 && oy <= py && py < oy + height) {
            return current;
        }
        let ix = px - ox;
        let iy = py - oy;
        let fx = if Ppu::test_bit(obj.flags, 5) { 7 - ix } else { ix };
        let fy = if Ppu::test_bit(obj.flags, 6) { height - 1 - iy } else { iy };
        let tile: u16 = if height == 16 {
            if fy < 8 {
                (obj.tile_index - obj.tile_index % 2) as u16
            } else {
                (obj.tile_index - obj.tile_index % 2) as u16 + 1
            }
        } else {
            obj.tile_index as u16
        };
        let n = Ppu::tile_color_number(memory, 0x8000 + 16 * tile, fx as u8, (fy % 8) as u8);
        let palette = if Ppu::test_bit(obj.flags, 4) {
            memory.read(OBP1_ADDRESS)
        } else {
            memory.read(OBP0_ADDRESS)
        };
        let bgp = memory.read(BGP_ADDRESS);
        if n == 0 {
            current
        } else if Ppu::test_bit(obj.flags, 7) && !current.is_blank_color(bgp) {
            current
        } else {
            match ColorIndex::from_value(n) {
                Some(c) => c.apply_palette(palette),
                None => current,
            }
        }
    }

    /// Renders screen line `line_number` into the back buffer: background and
    /// window (LCDC bit 0), then the scanned objects (LCDC bit 1). The window's
    /// line counter advances when the window shows on this line.
    #[verifier::rlimit(60)]
    fn draw_line(&mut self, memory: &MemoryMap, line_number: u32)
        requires
            old(self).wf_except_timing(),
            memory.wf(),
            line_number < 144,
        ensures
            final(self).wf_except_timing(),
            final(self).current_mode == old(self).current_mode,
            final(self).current_dot == old(self).current_dot,
            final(self).front_buffer_base == old(self).front_buffer_base,
            final(self).back_buffer_base == old(self).back_buffer_base,
            final(self).oam_scan_results@ == old(self).oam_scan_results@,
            final(self).frame_ready == old(self).frame_ready,
            final(self).internal_window_line_counter == if window_drawn(memory@, line_number as int)
                && old(self).internal_window_line_counter < 0x7FFF {
                old(self).internal_window_line_counter + 1
            } else {
                old(self).internal_window_line_counter as int
            },
            forall|x: int|
                0 <= x < 160 ==> #[trigger] final(self).display_buffer@[old(self).back_buffer_base + 160
                    * line_number + x] == line_pixel(
                    memory@,
                    old(self).oam_scan_results@,
                    line_number as int,
                    x,
                    old(self).internal_window_line_counter as int,
                ),
            forall|i: int|
                0 <= i < 2 * DISPLAY_BUFFER_SIZE && !(old(self).back_buffer_base + 160 * line_number <= i
                    < old(self).back_buffer_base + 160 * line_number + 160) ==> #[trigger] final(self).display_buffer@[i]
                    == old(self).display_buffer@[i],
    {
        let lcdc = memory.read(LCDC_ADDRESS);
        let row: usize = self.back_buffer_base + 160 * (line_number as usize);
        let window_line = self.internal_window_line_counter;
        let draw_background = Ppu::test_bit(lcdc, 0);
        let draw_objects = Ppu::test_bit(lcdc, 1);
        let count = self.oam_scan_results.len();
        let mut pixel: u16 = 0;
        while pixel < 160
            invariant
                self.wf_except_timing(),
                memory.wf(),
                line_number < 144,
                pixel <= 160,
                row == old(self).back_buffer_base + 160 * line_number,
                self.back_buffer_base == old(self).back_buffer_base,
                self.front_buffer_base == old(self).front_buffer_base,
                self.current_mode == old(self).current_mode,
                self.current_dot == old(self).current_dot,
                self.frame_ready == old(self).frame_ready,
                self.oam_scan_results@ == old(self).oam_scan_results@,
                self.internal_window_line_counter == window_line,
                window_line == old(self).internal_window_line_counter,
                count == self.oam_scan_results@.len(),
                draw_background == lcdc_bit(memory@, 0),
                draw_objects == lcdc_bit(memory@, 1),
                forall|x: int|
                    0 <= x < pixel ==> #[trigger] self.display_buffer@[row + x] == line_pixel(
                        memory@,
                        old(self).oam_scan_results@,
                        line_number as int,
                        x,
                        window_line as int,
                    ),
                forall|i: int|
                    0 <= i < 2 * DISPLAY_BUFFER_SIZE && !(row <= i < row + pixel) ==> #[trigger] self.display_buffer@[i]
                        == old(self).display_buffer@[i],
            decreases 160 - pixel,
        {
            let base = if draw_background {
                Ppu::background_color(memory, line_number, pixel, window_line)
            } else {
                Color::A
            };
            let mut color = base;
            if draw_objects {
                let mut k: usize = 0;
                while k < count
                    invariant
                        memory.wf(),
                        line_number < 144,
                        pixel < 160,
                        k <= count,
                        count == self.oam_scan_results@.len(),
                        color == objects_pixel(
                            memory@,
                            self.oam_scan_results@.take(k as int),
                            line_number as int,
                            pixel as int,
                            base,
                        ),
                    decreases count - k,
                {
                    let object = self.oam_scan_results[k];
                    color = Ppu::object_color(memory, object, line_number, pixel, color);
                    k = k + 1;
                    assert(self.oam_scan_results@.take(k as int).drop_last() =~= self.oam_scan_results@.take(k - 1));
                }
                assert(self.oam_scan_results@.take(count as int) =~= self.oam_scan_results@);
            }
            self.display_buffer.set(row + pixel as usize, color);
            pixel = pixel + 1;
        }
        if draw_background && Ppu::test_bit(lcdc, 5) && line_number >= memory.read(WY_ADDRESS) as u32 {
            let wx = memory.read(WX_ADDRESS);
            let left: u16 = if wx >= 7 { (wx - 7) as u16 } else { 0 };
            if left < 160 && self.internal_window_line_counter < 0x7FFF {
                self.internal_window_line_counter = self.internal_window_line_counter + 1;
            }
        }
    }

    /// Finds the objects on the current line (LY): the first ten OAM entries
    /// whose rows cover it, ordered by x with the highest first, so that the
    /// one drawn last is the one that wins.
    fn scan_oam(&self, memory: &MemoryMap) -> (r: Vec<OamEntry>)
        requires
            memory.wf(),
        ensures
            scan_result(memory@, r@),
    {
        let lcdc = memory.read(LCDC_ADDRESS);
        let ly = memory.read(LY_ADDRESS);
        let height: u16 = if Ppu::test_bit(lcdc, 2) { 16 } else { 8 };
        let padded: u16 = ly as u16 + 16;
        let mut found: Vec<OamEntry> = Vec::new();
        let mut k: u16 = 0;
        while k < 40 && found.len() < 10
            invariant
                memory.wf(),
                k <= 40,
                ly == memory@.read(LY_ADDRESS),
                height == object_height(memory@),
                padded == ly + 16,
                found@.len() <= 10,
                found@.len() == count_on_line(memory@, ly as int, k as int),
                found@.len() == oam_selection(memory@, ly as int, k as int).len(),
                found@.to_multiset() == oam_selection(memory@, ly as int, k as int).to_multiset(),
                sorted_for_drawing(found@),
                forall|i: int| 0 <= i < found@.len() ==> object_on_line(memory@, #[trigger] found@[i], ly as int),
                forall|i: int|
                    0 <= i < found@.len() ==> exists|j: int| 0 <= j < k && #[trigger] found@[i] == oam_entry(memory@, j),
            decreases 40 - k,
        {
            let base: u16 = 0xFE00 + 4 * k;
            let entry = OamEntry {
                y_pos: memory.read(base),
                x_pos: memory.read(base + 1),
                tile_index: memory.read(base + 2),
                flags: memory.read(base + 3),
            };
            assert(entry == oam_entry(memory@, k as int));
            if entry.y_pos as u16 <= padded && padded < entry.y_pos as u16 + height {
                let mut p: usize = 0;
                while p < found.len() && found[p].x_pos > entry.x_pos
                    invariant
                        p <= found@.len(),
                        forall|i: int| 0 <= i < p ==> #[trigger] found@[i].x_pos > entry.x_pos,
                    decreases found@.len() - p,
                {
                    p = p + 1;
                }
                let ghost before = found@;
                found.insert(p, entry);
                proof {
                    vstd::seq_lib::to_multiset_insert(before, p as int, entry);
                    oam_selection(memory@, ly as int, k as int).to_multiset_ensures();
                }
                assert forall|i: int, j: int| 0 <= i < j < found@.len() implies found@[i].x_pos
                    >= found@[j].x_pos by {
                    if j < p {
                    } else if j == p {
                    } else if i < p {
                        assert(before[j - 1].x_pos <= before[p as int].x_pos);
                    } else if i == p {
                        assert(before[j - 1].x_pos <= before[p as int].x_pos);
                    } else {
                    }
                }
                assert forall|i: int| 0 <= i < found@.len() implies object_on_line(memory@, #[trigger] found@[i], ly as int) by {
                    if i < p {
                    } else if i == p {
                    } else {
                        assert(found@[i] == before[i - 1]);
                    }
                }
                assert forall|i: int| 0 <= i < found@.len() implies exists|j: int|
                    0 <= j < k + 1 && #[trigger] found@[i] == oam_entry(memory@, j) by {
                    if i < p {
                        let j = choose|j: int| 0 <= j < k && before[i] == oam_entry(memory@, j);
                        assert(found@[i] == oam_entry(memory@, j));
                    } else if i == p {
                        assert(found@[i] == oam_entry(memory@, k as int));
                    } else {
                        let j = choose|j: int| 0 <= j < k && before[i - 1] == oam_entry(memory@, j);
                        assert(found@[i] == oam_entry(memory@, j));
                    }
                }
            }
            k = k + 1;
        }
        proof {
            lemma_count_monotone(memory@, ly as int, k as int, 40);
            if k < 40 {
                lemma_selection_full(memory@, ly as int, k as int, 40);
            }
        }
        found
    }

    /// Writes LY, STAT and IF for the mode change due at the current dot and
    /// publishes a frame on entering VBlank.
    #[verifier::spinoff_prover]
    #[verifier::rlimit(80)]
    fn update_render_state(&mut self, memory: &mut MemoryMap)
        requires
            old(self).wf_except_timing(),
            old(memory).wf(),
            old(self).current_dot < DOT_MAX + VBLANK_GRANULE,
        ensures
            final(memory).wf(),
            ({
                let n = next_mode(old(self).current_mode, old(self).current_dot);
                &&& final(self).current_mode == n.0
                &&& final(self).current_dot == n.1
                &&& final(memory)@ == render_registers(old(memory)@, old(self).current_mode, n.0, n.1)
                &&& entering_vblank(old(self).current_mode, n.0) ==> final(self).frame_ready
                    && final(self).front_buffer_base == old(self).back_buffer_base
                    && final(self).internal_window_line_counter == 0
                &&& !entering_vblank(old(self).current_mode, n.0) ==> final(self).frame_ready
                    == old(self).frame_ready && final(self).front_buffer_base
                    == old(self).front_buffer_base && final(self).internal_window_line_counter
                    == old(self).internal_window_line_counter
            }),
            final(self).wf_except_timing(),
            final(self).display_buffer@ == old(self).display_buffer@,
            final(self).oam_scan_results@ == old(self).oam_scan_results@,
    {
        let d = self.current_dot;
        let previous = self.current_mode;
        let line_offset = d % DOTS_PER_LINE;
        let (mode, dot) = match previous {
            RenderMode::OAMScan => if line_offset >= OAM_SCAN_TIME {
                (RenderMode::PixelDraw, d)
            } else {
                (RenderMode::OAMScan, d)
            },
            RenderMode::PixelDraw => if line_offset >= PIXEL_DRAW_END_DOTS {
                (RenderMode::HBlank, d)
            } else {
                (RenderMode::PixelDraw, d)
            },
            RenderMode::HBlank => if line_offset == 0 {
                if d >= VBLANK_START_DOTS {
                    (RenderMode::VBlank, d)
                } else {
                    (RenderMode::OAMScan, d)
                }
            } else {
                (RenderMode::HBlank, d)
            },
            RenderMode::VBlank => if d >= DOT_MAX {
                (RenderMode::OAMScan, 0)
            } else {
                (RenderMode::VBlank, d)
            },
        };
        self.current_mode = mode;
        self.current_dot = dot;
        let start_oam_scan = mode == RenderMode::OAMScan && previous != RenderMode::OAMScan;
        let start_hblank = mode == RenderMode::HBlank && previous != RenderMode::HBlank;
        let start_vblank = mode == RenderMode::VBlank && previous != RenderMode::VBlank;
        let ly = (dot / DOTS_PER_LINE) as u8;
        let lyc = memory.read_io_register(LYC_ADDRESS);
        let ly_eq_lyc_edge = dot % DOTS_PER_LINE == 0 && ly == lyc;
        let old_stat = memory.read_io_register(STAT_ADDRESS);
        memory.write_io_register(ly, LY_ADDRESS);
        let stat: u8 = old_stat - old_stat % 8 + (if ly == lyc { 4u8 } else { 0 }) + mode.mode_number();
        memory.write_io_register(stat, STAT_ADDRESS);
        let stat_interrupt = (start_oam_scan && Ppu::test_bit(stat, 5)) || (ly_eq_lyc_edge
            && Ppu::test_bit(stat, 6)) || (start_vblank && Ppu::test_bit(stat, 4)) || (start_hblank
            && Ppu::test_bit(stat, 3));
        let interrupt_flag = memory.read_io_register(0xFF0F);
        let raised: u8 = interrupt_flag | (if stat_interrupt { 2u8 } else { 0 }) | (if start_vblank { 1u8 } else { 0 });
        memory.write_io_register(raised, 0xFF0F);
        if start_vblank {
            self.swap_buffers();
            self.internal_window_line_counter = 0;
        }
    }

    /// One granule of the graphics unit. With the LCD on (LCDC bit 7) the mode
    /// machine advances by the mode's granule, scanning OAM at the end of the
    /// scan and drawing the line at the end of pixel transfer; with it off the
    /// unit rests at line 0 with LY = 0. Returns the dots spent.
    #[verifier::spinoff_prover]
    #[verifier::rlimit(80)]
    pub fn run(&mut self, memory: &mut MemoryMap) -> (spent: u32)
        requires
            old(self).wf(),
            old(memory).wf(),
        ensures
            final(self).wf(),
            final(memory).wf(),
            ppu_ran(old(self), old(memory)@, final(self), final(memory)@, spent),
    {
        let lcdc = memory.read(LCDC_ADDRESS);
        if !Ppu::test_bit(lcdc, 7) {
            self.current_mode = RenderMode::OAMScan;
            self.current_dot = 0;
            self.internal_window_line_counter = 0;
            let lyc = memory.read_io_register(LYC_ADDRESS);
            let old_stat = memory.read_io_register(STAT_ADDRESS);
            memory.write_io_register(0, LY_ADDRESS);
            let stat: u8 = old_stat - old_stat % 8 + (if lyc == 0 { 4u8 } else { 0 });
            memory.write_io_register(stat, STAT_ADDRESS);
            proof {
                lemma_stat_coincidence(old_stat, 0, lyc);
                assert(stat == stat_value(old_stat, 0, lyc, RenderMode::HBlank));
                lemma_plain_io_read(memory@, LY_ADDRESS);
                lemma_plain_io_read(memory@, STAT_ADDRESS);
                lemma_plain_io_read(memory@, LYC_ADDRESS);
            }
            return LCD_OFF_GRANULE;
        }
        let spent = match self.current_mode {
            RenderMode::OAMScan => {
                self.current_dot = self.current_dot + OAM_GRANULE;
                if self.current_dot % DOTS_PER_LINE >= OAM_SCAN_TIME {
                    self.oam_scan_results = self.scan_oam(memory);
                }
                OAM_GRANULE
            },
            RenderMode::PixelDraw => {
                let line_number = self.current_dot / DOTS_PER_LINE;
                self.current_dot = self.current_dot + PIXEL_DRAW_GRANULE;
                if self.current_dot % DOTS_PER_LINE >= PIXEL_DRAW_END_DOTS {
                    self.draw_line(memory, line_number);
                }
                PIXEL_DRAW_GRANULE
            },
            RenderMode::HBlank => {
                self.current_dot = self.current_dot + HBLANK_GRANULE;
                HBLANK_GRANULE
            },
            RenderMode::VBlank => {
                self.current_dot = self.current_dot + VBLANK_GRANULE;
                VBLANK_GRANULE
            },
        };
        self.update_render_state(memory);
        proof {
            lemma_advance(old(self).current_mode, old(self).current_dot);
            lemma_registers_after_update(old(memory)@, old(self).current_mode, self.current_mode, self.current_dot);
        }
        spent
    }
}


pub open spec fn count_on_line(mem: MemoryState, line: int, n: int) -> nat
    decreases n,
{
    if n <= 0 {
        0
    } else {
        count_on_line(mem, line, n - 1) + if object_on_line(mem, oam_entry(mem, n - 1), line) {
            1nat
        } else {
            0
        }
    }
}

/// The first ten OAM entries among slots 0..k whose rows cover `line`, in
/// OAM order.
pub open spec fn oam_selection(mem: MemoryState, line: int, k: int) -> Seq<OamEntry>
    decreases k,
{
    if k <= 0 {
        Seq::empty()
    } else {
        let s = oam_selection(mem, line, k - 1);
        if s.len() < 10 && object_on_line(mem, oam_entry(mem, k - 1), line) {
            s.push(oam_entry(mem, k - 1))
        } else {
            s
        }
    }
}

/// Once ten entries are selected, later slots add none.
proof fn lemma_selection_full(mem: MemoryState, line: int, k: int, j: int)
    requires
        0 <= k <= j,
        oam_selection(mem, line, k).len() >= 10,
    ensures
        oam_selection(mem, line, j) == oam_selection(mem, line, k),
    decreases j - k,
{
    if j > k {
        lemma_selection_full(mem, line, k, j - 1);
    }
}

/// What an OAM scan of the current line (LY) yields: the selection of
/// `oam_selection`, each entry once, reordered by x with the highest first.
pub open spec fn scan_result(mem: MemoryState, r: Seq<OamEntry>) -> bool {
    let ly = mem.read(LY_ADDRESS) as int;
    &&& r.len() <= 10
    &&& r.len() == if count_on_line(mem, ly, 40) < 10 { count_on_line(mem, ly, 40) } else { 10 }
    &&& sorted_for_drawing(r)
    &&& r.to_multiset() == oam_selection(mem, ly, 40).to_multiset()
    &&& forall|i: int| 0 <= i < r.len() ==> object_on_line(mem, #[trigger] r[i], ly)
    &&& forall|i: int| 0 <= i < r.len() ==> exists|k: int| 0 <= k < 40 && #[trigger] r[i] == oam_entry(mem, k)
}

proof fn lemma_count_monotone(mem: MemoryState, line: int, a: int, b: int)
    requires
        0 <= a <= b,
    ensures
        count_on_line(mem, line, a) <= count_on_line(mem, line, b),
    decreases b - a,
{
    if a < b {
        lemma_count_monotone(mem, line, a, b - 1);
    }
}

pub open spec fn entering_vblank(from: RenderMode, to: RenderMode) -> bool {
    to == RenderMode::VBlank && from != RenderMode::VBlank
}

/// STAT with the coincidence bit and mode number replaced.
pub open spec fn stat_value(old_stat: u8, ly: u8, lyc: u8, mode: RenderMode) -> u8 {
    (old_stat - old_stat % 8 + (if ly == lyc { 4int } else { 0 }) + spec_mode_number(mode)) as u8
}

/// LY, STAT and IF after the mode machine moves from `from` to `to` at dot `d`:
/// STAT interrupts for entered modes whose enable bit is set and for LY = LYC
/// at the start of a line; the VBlank interrupt on entering VBlank.
pub open spec fn render_registers(mem: MemoryState, from: RenderMode, to: RenderMode, d: u32) -> MemoryState {
    let ly = (d / DOTS_PER_LINE) as u8;
    let lyc = mem.io[0x45];
    let stat = stat_value(mem.io[0x41], ly, lyc, to);
    let entered = to != from;
    let stat_interrupt = (entered && to == RenderMode::OAMScan && bit_is_set(stat, 5)) || (d
        % DOTS_PER_LINE == 0 && ly == lyc && bit_is_set(stat, 6)) || (entered && to
        == RenderMode::VBlank && bit_is_set(stat, 4)) || (entered && to == RenderMode::HBlank
        && bit_is_set(stat, 3));
    let raised = mem.io[0x0F] | (if stat_interrupt { 2u8 } else { 0 }) | (if entering_vblank(from, to) {
        1u8
    } else {
        0
    });
    MemoryState { io: mem.io.update(0x44, ly).update(0x41, stat).update(0x0F, raised), ..mem }
}

proof fn lemma_stat_coincidence(old_stat: u8, ly: u8, lyc: u8)
    ensures
        forall|m: RenderMode| #[trigger] bit_is_set(stat_value(old_stat, ly, lyc, m), 2) <==> ly == lyc,
{
    assert forall|m: RenderMode| #[trigger] bit_is_set(stat_value(old_stat, ly, lyc, m), 2) <==> ly == lyc by {
        let v = old_stat - old_stat % 8;
        assert(v % 8 == 0);
    }
}

/// After the registers are written, LY names a line of the frame (at most
/// 153) and STAT bit 2 is set exactly when LY equals LYC.
pub proof fn lemma_registers_after_update(mem: MemoryState, from: RenderMode, to: RenderMode, d: u32)
    requires
        mem.wf(),
        d < DOT_MAX,
    ensures
        render_registers(mem, from, to, d).read(LY_ADDRESS) <= 153,
        bit_is_set(render_registers(mem, from, to, d).read(STAT_ADDRESS), 2) <==> render_registers(
            mem,
            from,
            to,
            d,
        ).read(LY_ADDRESS) == render_registers(mem, from, to, d).read(LYC_ADDRESS),
{
    let m = render_registers(mem, from, to, d);
    lemma_plain_io_read(m, LY_ADDRESS);
    lemma_plain_io_read(m, STAT_ADDRESS);
    lemma_plain_io_read(m, LYC_ADDRESS);
    lemma_stat_coincidence(mem.io[0x41], (d / DOTS_PER_LINE) as u8, mem.io[0x45]);
}

/// An object with flag bit 7 (behind the background) never covers a pixel
/// whose current shade is not the one BGP gives colour 0.
pub proof fn lemma_object_behind_background(mem: MemoryState, obj: OamEntry, line: int, x: int, current: Color)
    requires
        bit_is_set(obj.flags, 7),
        color_value(current) != mem.read(BGP_ADDRESS) % 4,
    ensures
        object_pixel(mem, obj, line, x, current) == current,
{
}

/// Calls of `Ppu::run` with the LCD on, from line 0's OAM scan at dot 0 up
/// to the next return to dot 0, spend exactly 70,224 dots: one frame.
pub proof fn lemma_run_frame_is_70224_dots(ppus: Seq<Ppu>, mems: Seq<MemoryState>, spent: Seq<u32>)
    requires
        ppus.len() == mems.len() == spent.len() + 1,
        spent.len() > 0,
        ppus[0].current_mode == RenderMode::OAMScan,
        ppus[0].current_dot == 0,
        forall|i: int|
            0 <= i < spent.len() ==> lcdc_bit(mems[i], 7) && #[trigger] ppu_ran(
                &ppus[i],
                mems[i],
                &ppus[i + 1],
                mems[i + 1],
                spent[i],
            ),
        forall|i: int| 0 < i < spent.len() ==> #[trigger] ppus[i].current_dot != 0,
        ppus[spent.len() as int].current_dot == 0,
    ensures
        sum_dots(spent) == DOT_MAX,
{
    let modes = Seq::new(ppus.len(), |i: int| ppus[i].current_mode);
    let dots = Seq::new(ppus.len(), |i: int| ppus[i].current_dot);
    assert forall|i: int| 0 <= i < spent.len() implies #[trigger] advance(modes[i], dots[i]) == (
        modes[i + 1],
        dots[i + 1],
        spent[i],
    ) by {
        assert(ppu_ran(&ppus[i], mems[i], &ppus[i + 1], mems[i + 1], spent[i]));
    }
    assert forall|i: int| 0 < i < spent.len() implies #[trigger] dots[i] != 0 by {
        assert(ppus[i].current_dot != 0);
    }
    lemma_frame_is_70224_dots(modes, dots, spent);
}

} // verus!
