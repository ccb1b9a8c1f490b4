//! The pixel processing unit: a dot-driven scanline state machine that
//! raises STAT and VBlank interrupts and renders a frame at the start of
//! V-blank.
use crate::bits::{bit_mask, bit_of, get_bit, set_bit, set_low_bits, with_bit, with_low_bits};
use crate::mbc::{MemState, MBC1};
use crate::ram::Reg;
use vstd::prelude::*;

verus! {

/// Width of the screen in pixels.
pub const WIDTH: usize = 160;

/// Height of the screen in pixels.
pub const HEIGHT: usize = 144;

/// Side of a background, window or sprite scratch map in pixels.
pub const MAP_SIDE: usize = 256;

/// Dots in one scanline.
pub const DOTS_PER_LINE: usize = 456;

/// Scanlines in one frame, V-blank included.
pub const LINES: u8 = 154;

/// First V-blank scanline.
pub const VBLANK_LINE: u8 = 144;

/// The four PPU modes.
#[derive(Debug, Copy, Clone, PartialEq, Eq, Structural)]
pub enum Mode {
    OAMScan,
    Drawing,
    HBlank,
    VBlank,
}

/// `m` with interrupt request `bit` raised in IF.
pub open spec fn raise(m: MemState, bit: u8) -> MemState {
    m.set_reg(Reg::IF, with_bit(m.reg(Reg::IF), bit, true))
}

/// STAT's mode field for each mode.
pub open spec fn mode_bits(mode: Mode) -> u8 {
    match mode {
        Mode::HBlank => 0,
        Mode::VBlank => 1,
        Mode::OAMScan => 2,
        Mode::Drawing => 3,
    }
}

/// The memory after the PPU enters `mode`: STAT's mode field, the blocking
/// gates, and the interrupts that STAT enables for the mode.
pub open spec fn enter_mode(m: MemState, mode: Mode) -> MemState {
    let stat = m.reg(Reg::STAT);
    let m1 = m.set_reg(Reg::STAT, with_low_bits(stat, 2, mode_bits(mode)));
    match mode {
        Mode::HBlank => {
            let m2 = MemState { vram_blocking: false, oam_blocking: false, ..m1 };
            if bit_of(stat, 3) {
                raise(m2, 1)
            } else {
                m2
            }
        },
        Mode::VBlank => {
            let m2 = MemState { vram_blocking: false, oam_blocking: false, ..m1 };
            let m3 = if bit_of(stat, 4) {
                raise(m2, 1)
            } else {
                m2
            };
            raise(m3, 0)
        },
        Mode::OAMScan => {
            let m2 = MemState { vram_blocking: false, oam_blocking: true, ..m1 };
            if bit_of(stat, 5) {
                raise(m2, 1)
            } else {
                m2
            }
        },
        Mode::Drawing => MemState { oam_blocking: true, ..m1 },
    }
}

/// The memory after LY is compared with LYC: STAT bit 2 holds the result,
/// and a match raises STAT when STAT bit 6 enables it.
pub open spec fn compare_lyc(m: MemState) -> MemState {
    let stat = m.reg(Reg::STAT);
    let eq = m.reg(Reg::LYC) == m.reg(Reg::LY);
    let m1 = m.set_reg(Reg::STAT, with_bit(stat, 2, eq));
    if eq && bit_of(stat, 6) {
        raise(m1, 1)
    } else {
        m1
    }
}

/// The scanline after `ly`; lines past the last go back to 0.
pub open spec fn next_line(ly: u8) -> u8 {
    if ly + 1 >= LINES {
        0
    } else {
        (ly + 1) as u8
    }
}

/// The mode that starts at dot `lx` of line `ly`, if any.
pub open spec fn mode_at(ly: u8, lx: usize) -> Option<Mode> {
    if ly < VBLANK_LINE {
        if lx == 0 {
            Some(Mode::OAMScan)
        } else if lx == 80 {
            Some(Mode::Drawing)
        } else if lx == 252 {
            Some(Mode::HBlank)
        } else {
            None
        }
    } else if ly == VBLANK_LINE && lx == 0 {
        Some(Mode::VBlank)
    } else {
        None
    }
}

/// The memory after the PPU runs dot `lx`.
pub open spec fn step_mem(m: MemState, lx: usize) -> MemState {
    let m1 = match mode_at(m.reg(Reg::LY), lx) {
        Some(mode) => enter_mode(m, mode),
        None => m,
    };
    if lx + 1 == DOTS_PER_LINE {
        compare_lyc(m1.set_reg(Reg::LY, next_line(m.reg(Reg::LY))))
    } else {
        m1
    }
}

/// A palette maps a 2-bit color id to a 2-bit shade.
pub open spec fn shade(palette: u8, color_id: u8) -> u8 {
    (palette >> (color_id * 2) as u8) & 3
}

/// Every pixel of `buf` is a 2-bit shade.
pub open spec fn shades_only(buf: Seq<u8>) -> bool {
    forall|k: int| 0 <= k < buf.len() ==> #[trigger] buf[k] <= 3
}

/// Address of the first byte of tile `i`: unsigned from 0x8000 for sprites
/// and when LCDC bit 4 is set, signed around 0x9000 otherwise.
pub open spec fn tile_addr(lcdc: u8, i: u8, is_obj: bool) -> u16 {
    if is_obj || bit_of(lcdc, 4) {
        (0x8000 + i * 16) as u16
    } else if i < 128 {
        (0x9000 + i * 16) as u16
    } else {
        (0x9000 - (256 - i) * 16) as u16
    }
}

/// Color id of column `c` of row `y` of the tile at `addr`: bit `7 - c` of
/// the row's second byte, then of its first.
pub open spec fn tile_pixel(m: MemState, addr: u16, y: int, c: int) -> u8 {
    let t1 = m.read((addr + 2 * y) as u16);
    let t2 = m.read((addr + 2 * y + 1) as u16);
    let s = (7 - c) as u8;
    ((t1 >> s) & 1) | (((t2 >> s) & 1) << 1u8)
}

/// Index in the background map of screen pixel `k` (row-major) when the
/// screen is scrolled to (`scy`, `scx`); the map wraps at its edges.
pub open spec fn scroll_source(scy: u8, scx: u8, k: int) -> int {
    ((scy + k / WIDTH as int) % 256) * 256 + (scx + k % WIDTH as int) % 256
}

/// The background tile map that LCDC bit 3 selects.
pub open spec fn bg_map(lcdc: u8) -> u16 {
    if bit_of(lcdc, 3) {
        0x9c00
    } else {
        0x9800
    }
}

/// Shade of screen pixel `k` (row-major) from the background alone: the
/// background cell that SCY/SCX bring under it.
pub open spec fn bg_frame_pixel(m: MemState, k: int) -> u8 {
    bg_cell(
        m,
        bg_map(m.reg(Reg::LCDC)),
        (m.reg(Reg::SCY) + k / WIDTH as int) % 256,
        (m.reg(Reg::SCX) + k % WIDTH as int) % 256,
    )
}

/// The screen with the background alone.
pub open spec fn bg_layer(m: MemState) -> Seq<u8> {
    Seq::new((WIDTH * HEIGHT) as nat, |k: int| bg_frame_pixel(m, k))
}

/// The screen with the window laid over the background where LCDC bit 5
/// enables it.
pub open spec fn win_layer(m: MemState) -> Seq<u8> {
    if bit_of(m.reg(Reg::LCDC), 5) {
        Seq::new(
            (WIDTH * HEIGHT) as nat,
            |k: int|
                if window_covers(m.reg(Reg::WY), m.reg(Reg::WX), k) {
                    window_pixel(m, k)
                } else {
                    bg_frame_pixel(m, k)
                },
        )
    } else {
        bg_layer(m)
    }
}

/// The frame that memory `m` describes: background, then window, then the
/// sprites where LCDC bit 1 enables them.
pub open spec fn frame(m: MemState) -> Seq<u8> {
    if bit_of(m.reg(Reg::LCDC), 1) {
        sprites_over(m, win_layer(m), 40)
    } else {
        win_layer(m)
    }
}

/// Every screen pixel of `p` shows the background as `m` describes it.
pub open spec fn shows_background(p: &PPU, m: MemState) -> bool {
    forall|k: int| 0 <= k < WIDTH * HEIGHT ==> #[trigger] p.buffer@[k] == bg_frame_pixel(m, k)
}

/// The 64 color ids of the tile at `addr`, row by row.
pub open spec fn tile_seq(m: MemState, addr: u16) -> Seq<u8> {
    Seq::new(64, |k: int| tile_pixel(m, addr, k / 8, k % 8))
}

/// Color id of row `row`, column `col` of a sprite tile, after the flips.
pub open spec fn flipped_id(tile: Seq<u8>, row: int, col: int, fx: bool, fy: bool) -> u8 {
    tile[(if fy { 7 - row } else { row }) * 8 + (if fx { 7 - col } else { col })]
}

/// Row of screen pixel `q` (row-major) within a sprite tile whose OAM row is `y`.
pub open spec fn sprite_row(y: int, q: int) -> int {
    q / WIDTH as int + 16 - y
}

/// Column of screen pixel `q` within a sprite tile whose OAM column is `x`.
pub open spec fn sprite_col(x: int, q: int) -> int {
    q % WIDTH as int + 8 - x
}

/// Whether screen pixel `q` shows a non-transparent pixel of the sprite tile
/// at OAM corner (`y`, `x`), among its rows before `ry` and the first `rx`
/// columns of row `ry`.
pub open spec fn sprite_hit(tile: Seq<u8>, y: int, x: int, fx: bool, fy: bool, q: int, ry: int, rx: int) -> bool {
    let row = sprite_row(y, q);
    let col = sprite_col(x, q);
    &&& 0 <= row < 8
    &&& 0 <= col < 8
    &&& (row < ry || (row == ry && col < rx))
    &&& flipped_id(tile, row, col, fx, fy) != 0
}

/// `buf` with the pixels of a sprite tile drawn over it through `pal`, the
/// tile limited as in `sprite_hit`; color id 0 is transparent.
pub open spec fn tile_over(
    buf: Seq<u8>,
    tile: Seq<u8>,
    pal: u8,
    y: int,
    x: int,
    fx: bool,
    fy: bool,
    ry: int,
    rx: int,
) -> Seq<u8> {
    Seq::new(
        buf.len(),
        |q: int|
            if sprite_hit(tile, y, x, fx, fy, q, ry, rx) {
                shade(pal, flipped_id(tile, sprite_row(y, q), sprite_col(x, q), fx, fy))
            } else {
                buf[q]
            },
    )
}

/// Byte `k` of OAM entry `i`: Y, X, tile index, attributes.
pub open spec fn oam(m: MemState, i: int, k: int) -> u8 {
    m.read((0xfe00 + 4 * i + k) as u16)
}

/// Sprite height in tiles, per LCDC bit 2.
pub open spec fn sprite_tiles(m: MemState) -> int {
    if bit_of(m.reg(Reg::LCDC), 2) {
        2
    } else {
        1
    }
}

/// Sprite `i` is off: Y is 0 or at least 160, X at least 168, or attribute
/// bit 7 (background priority) hides it.
pub open spec fn sprite_hidden(m: MemState, i: int) -> bool {
    oam(m, i, 0) == 0 || oam(m, i, 0) >= 160 || oam(m, i, 1) >= 168 || bit_of(oam(m, i, 3), 7)
}

/// The palette of sprite `i`: OBP1 when attribute bit 4 is set, else OBP0.
pub open spec fn sprite_palette(m: MemState, i: int) -> u8 {
    if bit_of(oam(m, i, 3), 4) {
        m.reg(Reg::OBP1)
    } else {
        m.reg(Reg::OBP0)
    }
}

/// Tile data of part `z` of sprite `i`; a vertical flip swaps the two tiles
/// of a tall sprite.
pub open spec fn sprite_tile(m: MemState, i: int, z: int) -> Seq<u8> {
    let zz = if bit_of(oam(m, i, 3), 6) && sprite_tiles(m) == 2 {
        1 - z
    } else {
        z
    };
    tile_seq(m, tile_addr(m.reg(Reg::LCDC), ((oam(m, i, 2) + zz) % 256) as u8, true))
}

/// `buf` with part `z` (the tile 8 * `z` rows down) of sprite `i` drawn over it.
pub open spec fn sprite_part(m: MemState, buf: Seq<u8>, i: int, z: int) -> Seq<u8> {
    tile_over(
        buf,
        sprite_tile(m, i, z),
        sprite_palette(m, i),
        oam(m, i, 0) + 8 * z,
        oam(m, i, 1) as int,
        bit_of(oam(m, i, 3), 5),
        bit_of(oam(m, i, 3), 6),
        8,
        0,
    )
}

/// `buf` with the first `z` parts of sprite `i` drawn over it, unless hidden.
pub open spec fn sprite_parts(m: MemState, buf: Seq<u8>, i: int, z: int) -> Seq<u8> {
    if sprite_hidden(m, i) || z <= 0 {
        buf
    } else if z == 1 {
        sprite_part(m, buf, i, 0)
    } else {
        sprite_part(m, sprite_part(m, buf, i, 0), i, 1)
    }
}

/// `buf` with sprites 0 to `n` - 1 drawn over it in order, so a later
/// sprite covers an earlier one.
pub open spec fn sprites_over(m: MemState, buf: Seq<u8>, n: nat) -> Seq<u8>
    decreases n,
{
    if n == 0 {
        buf
    } else {
        sprite_parts(m, sprites_over(m, buf, (n - 1) as nat), n - 1, sprite_tiles(m))
    }
}

/// The window tile map that LCDC bit 6 selects.
pub open spec fn win_map(lcdc: u8) -> u16 {
    if bit_of(lcdc, 6) {
        0x9c00
    } else {
        0x9800
    }
}

/// Shade of screen pixel `k` (row-major) from the window: pixel
/// (row - WY, column - (WX - 6)) of the window map, through BGP.
pub open spec fn window_pixel(m: MemState, k: int) -> u8 {
    bg_cell(
        m,
        win_map(m.reg(Reg::LCDC)),
        k / WIDTH as int - m.reg(Reg::WY),
        k % WIDTH as int - window_x(m.reg(Reg::WX)),
    )
}

/// Whether the window covers screen pixel `k` (row-major): its row is at
/// least `wy` and its column at least `wx` - 6.
pub open spec fn window_covers(wy: u8, wx: u8, k: int) -> bool {
    wy <= k / WIDTH as int && window_x(wx) <= k % WIDTH as int
}

/// The window's left column for register value `wx`: `wx - 6`, wrapping.
pub open spec fn window_x(wx: u8) -> u8 {
    if wx >= 6 {
        (wx - 6) as u8
    } else {
        (wx + 250) as u8
    }
}

fn palette(p: u8, color_id: u8) -> (r: u8)
    requires
        color_id <= 3,
    ensures
        r == shade(p, color_id),
        r <= 3,
{
    let r = (p >> (color_id * 2)) & 3;
    assert(r <= 3) by (bit_vector)
        requires
            r == (p >> (color_id * 2)) & 3,
    ;
    r
}

pub struct PPU {
    pub mbc: MBC1,
    pub buffer: Vec<u8>,
    pub buffer_bg: Vec<u8>,
    pub buffer_win: Vec<u8>,
    pub buffer_obj: Vec<u8>,
    pub buffer_vram: Vec<u8>,
    pub lx: usize,
}

/// Index of map cell (`y`, `x`) in a row-major scratch map.
pub open spec fn cell(y: int, x: int) -> int {
    y * MAP_SIDE + x
}

/// Offset of map coordinate `c` from a tile corner at `start`, wrapping.
pub open spec fn offset(c: int, start: int) -> int {
    (c - start % 256 + 256) % 256
}

/// Whether map cell (`y`, `x`) lies in the 8x8 tile whose corner is at
/// (`ty`, `tx`), the map wrapping at its edges.
pub open spec fn in_tile(ty: int, tx: int, y: int, x: int) -> bool {
    offset(y, ty) < 8 && offset(x, tx) < 8
}

/// The cell that pixel (`iy`, `ix`) of a tile cornered at (`y`, `x`) lands
/// on is at those offsets, and no other cell is.
#[verifier::spinoff_prover]
#[verifier::rlimit(60)]
proof fn lemma_offset_unique(y: int, x: int, iy: int, ix: int, r: int, c: int)
    requires
        0 <= y < 2 * MAP_SIDE,
        0 <= x < 2 * MAP_SIDE,
        0 <= iy < 8,
        0 <= ix < 8,
        0 <= r < MAP_SIDE,
        0 <= c < MAP_SIDE,
    ensures
        offset((y + iy) % 256, y) == iy,
        offset((x + ix) % 256, x) == ix,
        offset(r, y) == iy && offset(c, x) == ix ==> r == (y + iy) % 256 && c == (x + ix) % 256,
{
}

proof fn lemma_cell_distinct(y1: int, x1: int, y2: int, x2: int)
    requires
        0 <= x1 < MAP_SIDE,
        0 <= x2 < MAP_SIDE,
        0 <= y1,
        0 <= y2,
        y1 != y2 || x1 != x2,
    ensures
        cell(y1, x1) != cell(y2, x2),
{
    if y1 < y2 {
        assert(y1 * 256 + x1 < y2 * 256) by (nonlinear_arith)
            requires
                y1 < y2,
                0 <= x1 < 256,
        ;
    } else if y1 > y2 {
        assert(y2 * 256 + x2 < y1 * 256) by (nonlinear_arith)
            requires
                y2 < y1,
                0 <= x2 < 256,
        ;
    }
}

/// Tile number, in map order, of map cell (`r`, `c`).
pub open spec fn tile_no(r: int, c: int) -> int {
    (r / 8) * 32 + c / 8
}

/// Shade of background map cell (`r`, `c`): the tile that the map at `map`
/// names for it, addressed per LCDC, its pixel through BGP.
pub open spec fn bg_cell(m: MemState, map: u16, r: int, c: int) -> u8 {
    let ti = m.read((map + tile_no(r, c)) as u16);
    shade(m.reg(Reg::BGP), tile_pixel(m, tile_addr(m.reg(Reg::LCDC), ti, false), r % 8, c % 8))
}

/// Moving a tile corner `a` cells on shifts every offset from it by `a`.
#[verifier::spinoff_prover]
#[verifier::rlimit(80)]
proof fn lemma_offset_shift(r: int, y0: int, a: int)
    requires
        0 <= r < 256,
        0 <= y0 < 256,
        0 <= a < 256,
    ensures
        offset(r, (y0 + a) % 256) == (offset(r, y0) - a + 256) % 256,
        0 <= offset(r, y0) < 256,
{
    let t = (y0 + a) % 256;
    if y0 + a < 256 {
        assert(t == y0 + a);
    } else {
        assert(t == y0 + a - 256);
    }
    assert(t % 256 == t);
    assert(y0 % 256 == y0);
    if r >= y0 {
        assert(offset(r, y0) == r - y0);
    } else {
        assert(offset(r, y0) == r - y0 + 256);
    }
}

/// An offset `rr` lies in the tile that starts `8 * k` cells on exactly when
/// its tile row is `k`, and then it sits `rr % 8` into that tile.
#[verifier::spinoff_prover]
#[verifier::rlimit(80)]
proof fn lemma_grid_pos(rr: int, k: int)
    requires
        0 <= rr < 256,
        0 <= k < 32,
    ensures
        ((rr - 8 * k + 256) % 256 < 8) <==> rr / 8 == k,
        rr / 8 == k ==> (rr - 8 * k + 256) % 256 == rr % 8,
        0 <= rr / 8 < 32,
{
    assert(rr == (rr / 8) * 8 + rr % 8);
    if rr >= 8 * k {
        assert((rr - 8 * k + 256) % 256 == rr - 8 * k);
    } else {
        assert((rr - 8 * k + 256) % 256 == rr - 8 * k + 256);
    }
}

/// Tile `i` of a map drawn with its first tile at (`y0`, `x0`) covers
/// exactly the cells whose tile number, counted from that origin, is `i`,
/// at their offsets within the tile.
#[verifier::spinoff_prover]
#[verifier::rlimit(80)]
proof fn lemma_tile_cell(i: int, y0: int, x0: int, r: int, c: int)
    requires
        0 <= i < 1024,
        0 <= y0 < MAP_SIDE,
        0 <= x0 < MAP_SIDE,
        0 <= r < MAP_SIDE,
        0 <= c < MAP_SIDE,
    ensures
        in_tile((y0 + (i / 32) * 8) % 256, (x0 + (i % 32) * 8) % 256, r, c) <==> tile_no(
            offset(r, y0),
            offset(c, x0),
        ) == i,
        tile_no(offset(r, y0), offset(c, x0)) == i ==> offset(r, (y0 + (i / 32) * 8) % 256) == offset(
            r,
            y0,
        ) % 8 && offset(c, (x0 + (i % 32) * 8) % 256) == offset(c, x0) % 8,
{
    let ty = i / 32;
    let tx = i % 32;
    assert(0 <= ty < 32 && 0 <= tx < 32 && i == ty * 32 + tx);
    lemma_offset_shift(r, y0, ty * 8);
    lemma_offset_shift(c, x0, tx * 8);
    lemma_grid_pos(offset(r, y0), ty);
    lemma_grid_pos(offset(c, x0), tx);
    let rt = offset(r, y0) / 8;
    let ct = offset(c, x0) / 8;
    assert(tile_no(offset(r, y0), offset(c, x0)) == rt * 32 + ct);
    assert(rt * 32 + ct == i <==> rt == ty && ct == tx);
}

/// The palette that maps each color id to itself.
pub const IDENTITY_PALETTE: u8 = 0xe4;

proof fn lemma_identity_palette(id: u8)
    requires
        id <= 3,
    ensures
        shade(IDENTITY_PALETTE, id) == id,
{
    assert(id <= 3 ==> (0xe4u8 >> (id * 2) as u8) & 3 == id) by (bit_vector);
}

/// Number of the VRAM tile that `dump_vram` shows at map cell (`r`, `c`):
/// 32 pairs to a 16-row band, the pair's first tile above its second.
pub open spec fn vram_tile(r: int, c: int) -> int {
    64 * (r / 16) + 2 * (c / 8) + (r / 8) % 2
}

/// Tile `i` placed by `dump_vram` covers exactly the cells of the top 128
/// rows that show tile `i`, at their offsets within the tile.
#[verifier::spinoff_prover]
#[verifier::rlimit(80)]
proof fn lemma_vram_cell(i: int, r: int, c: int)
    requires
        0 <= i < 512,
        0 <= r < MAP_SIDE,
        0 <= c < MAP_SIDE,
    ensures
        in_tile((i / 64) * 16 + (i % 2) * 8, ((i % 64) / 2) * 8, r, c) <==> (r < 128 && vram_tile(r, c) == i),
        r < 128 && vram_tile(r, c) == i ==> offset(r, (i / 64) * 16 + (i % 2) * 8) == r % 8 && offset(
            c,
            ((i % 64) / 2) * 8,
        ) == c % 8,
{
    let ky = 2 * (i / 64) + i % 2;
    let kx = (i % 64) / 2;
    assert(0 <= ky < 16 && 0 <= kx < 32);
    assert(i == 64 * (i / 64) + 2 * ((i % 64) / 2) + i % 2);
    assert((i / 64) * 16 + (i % 2) * 8 == 8 * ky);
    lemma_offset_shift(r, 0, 8 * ky);
    lemma_offset_shift(c, 0, 8 * kx);
    assert(offset(r, 0) == r && offset(c, 0) == c);
    assert((8 * ky) % 256 == 8 * ky && (8 * kx) % 256 == 8 * kx);
    lemma_grid_pos(r, ky);
    lemma_grid_pos(c, kx);
    let r8 = r / 8;
    assert(r / 16 == r8 / 2 && (r / 8) % 2 == r8 % 2);
    assert(r8 == 2 * (r8 / 2) + r8 % 2);
    assert(r < 128 <==> r8 < 16);
}

/// Draws the 8x8 tile `tile` through `palette` into the scratch map `dst`
/// with its corner at row `y`, column `x`, wrapping at the map's edges.
#[verifier::spinoff_prover]
#[verifier::rlimit(80)]
fn put_tile(dst: &mut Vec<u8>, tile: &Vec<u8>, pal: u8, y: usize, x: usize)
    requires
        old(dst)@.len() == MAP_SIDE * MAP_SIDE,
        shades_only(old(dst)@),
        tile@.len() == 64,
        forall|k: int| 0 <= k < 64 ==> #[trigger] tile@[k] <= 3,
        y < 2 * MAP_SIDE,
        x < 2 * MAP_SIDE,
    ensures
        final(dst)@.len() == MAP_SIDE * MAP_SIDE,
        shades_only(final(dst)@),
        forall|r: int, c: int|
            0 <= r < MAP_SIDE && 0 <= c < MAP_SIDE ==> #[trigger] final(dst)@[cell(r, c)] == if in_tile(
                y as int,
                x as int,
                r,
                c,
            ) {
                shade(pal, tile@[offset(r, y as int) * 8 + offset(c, x as int)])
            } else {
                old(dst)@[cell(r, c)]
            },
{
    let mut iy: usize = 0;
    while iy < 8
        invariant
            dst@.len() == MAP_SIDE * MAP_SIDE,
            shades_only(dst@),
            tile@.len() == 64,
            forall|k: int| 0 <= k < 64 ==> #[trigger] tile@[k] <= 3,
            y < 2 * MAP_SIDE,
            x < 2 * MAP_SIDE,
            iy <= 8,
            forall|r: int, c: int|
                0 <= r < MAP_SIDE && 0 <= c < MAP_SIDE ==> #[trigger] dst@[cell(r, c)] == if in_tile(
                    y as int,
                    x as int,
                    r,
                    c,
                ) && offset(r, y as int) < iy {
                    shade(pal, tile@[offset(r, y as int) * 8 + offset(c, x as int)])
                } else {
                    old(dst)@[cell(r, c)]
                },
        decreases 8 - iy,
    {
        let mut ix: usize = 0;
        while ix < 8
            invariant
                dst@.len() == MAP_SIDE * MAP_SIDE,
                shades_only(dst@),
                tile@.len() == 64,
                forall|k: int| 0 <= k < 64 ==> #[trigger] tile@[k] <= 3,
                y < 2 * MAP_SIDE,
                x < 2 * MAP_SIDE,
                iy < 8,
                ix <= 8,
                forall|r: int, c: int|
                    0 <= r < MAP_SIDE && 0 <= c < MAP_SIDE ==> #[trigger] dst@[cell(r, c)] == if in_tile(
                        y as int,
                        x as int,
                        r,
                        c,
                    ) && (offset(r, y as int) < iy || (offset(r, y as int) == iy && offset(
                        c,
                        x as int,
                    ) < ix)) {
                        shade(pal, tile@[offset(r, y as int) * 8 + offset(c, x as int)])
                    } else {
                        old(dst)@[cell(r, c)]
                    },
            decreases 8 - ix,
        {
            let color = palette(pal, tile[iy * 8 + ix]);
            let yy = (y + iy) % MAP_SIDE;
            let xx = (x + ix) % MAP_SIDE;
            assert(yy * MAP_SIDE + xx < MAP_SIDE * MAP_SIDE) by (nonlinear_arith)
                requires
                    yy < MAP_SIDE,
                    xx < MAP_SIDE,
            ;
            proof {
                lemma_offset_unique(y as int, x as int, iy as int, ix as int, 0, 0);
            }
            let ghost prev = dst@;
            dst.set(yy * MAP_SIDE + xx, color);
            proof {
                assert forall|r: int, c: int| 0 <= r < MAP_SIDE && 0 <= c < MAP_SIDE implies #[trigger] dst@[cell(
                    r,
                    c,
                )] == if in_tile(y as int, x as int, r, c) && (offset(r, y as int) < iy || (offset(
                    r,
                    y as int,
                ) == iy && offset(c, x as int) < ix + 1)) {
                    shade(pal, tile@[offset(r, y as int) * 8 + offset(c, x as int)])
                } else {
                    old(dst)@[cell(r, c)]
                } by {
                    lemma_offset_unique(y as int, x as int, iy as int, ix as int, r, c);
                    if r != yy || c != xx {
                        lemma_cell_distinct(r, c, yy as int, xx as int);
                    }
                }
            }
            ix += 1;
        }
        iy += 1;
    }
}

/// Sets every pixel of `buf` to 0.
fn clear(buf: &mut Vec<u8>)
    ensures
        final(buf)@ == Seq::new(old(buf)@.len(), |k: int| 0u8),
{
    let mut k: usize = 0;
    while k < buf.len()
        invariant
            buf@.len() == old(buf)@.len(),
            k <= buf@.len(),
            forall|j: int| 0 <= j < k ==> #[trigger] buf@[j] == 0,
        decreases buf@.len() - k,
    {
        buf.set(k, 0);
        k += 1;
    }
    assert(buf@ =~= Seq::new(old(buf)@.len(), |k: int| 0u8));
}

impl PPU {
    pub open spec fn wf(&self) -> bool {
        &&& self.mbc.wf()
        &&& self.buffer@.len() == WIDTH * HEIGHT
        &&& self.buffer_bg@.len() == MAP_SIDE * MAP_SIDE
        &&& self.buffer_win@.len() == MAP_SIDE * MAP_SIDE
        &&& self.buffer_obj@.len() == MAP_SIDE * MAP_SIDE
        &&& self.buffer_vram@.len() == MAP_SIDE * MAP_SIDE
        &&& shades_only(self.buffer@)
        &&& shades_only(self.buffer_bg@)
        &&& shades_only(self.buffer_win@)
        &&& shades_only(self.buffer_vram@)
        &&& self.lx < DOTS_PER_LINE
    }

    pub fn new(mbc: MBC1) -> (r: PPU)
        requires
            mbc.wf(),
        ensures
            r.wf(),
            r.mbc == mbc,
            r.lx == 0,
            r.buffer@ == Seq::new((WIDTH * HEIGHT) as nat, |i: int| 0u8),
            r.buffer_bg@ == Seq::new((MAP_SIDE * MAP_SIDE) as nat, |i: int| 0u8),
            r.buffer_win@ == Seq::new((MAP_SIDE * MAP_SIDE) as nat, |i: int| 0u8),
            r.buffer_obj@ == Seq::new((MAP_SIDE * MAP_SIDE) as nat, |i: int| 0u8),
            r.buffer_vram@ == Seq::new((MAP_SIDE * MAP_SIDE) as nat, |i: int| 0u8),
    {
        let r = PPU {
            mbc: mbc,
            buffer: vec![0u8; WIDTH * HEIGHT],
            buffer_bg: vec![0u8; MAP_SIDE * MAP_SIDE],
            buffer_win: vec![0u8; MAP_SIDE * MAP_SIDE],
            buffer_obj: vec![0u8; MAP_SIDE * MAP_SIDE],
            buffer_vram: vec![0u8; MAP_SIDE * MAP_SIDE],
            lx: 0,
        };
        assert(r.buffer@ =~= Seq::new((WIDTH * HEIGHT) as nat, |i: int| 0u8));
        assert(r.buffer_bg@ =~= Seq::new((MAP_SIDE * MAP_SIDE) as nat, |i: int| 0u8));
        assert(r.buffer_win@ =~= Seq::new((MAP_SIDE * MAP_SIDE) as nat, |i: int| 0u8));
        assert(r.buffer_obj@ =~= Seq::new((MAP_SIDE * MAP_SIDE) as nat, |i: int| 0u8));
        assert(r.buffer_vram@ =~= Seq::new((MAP_SIDE * MAP_SIDE) as nat, |i: int| 0u8));
        r
    }

    fn read(&self, i: u16) -> (r: u8)
        requires
            self.mbc.wf(),
        ensures
            r == self.mbc@.read(i),
    {
        self.mbc.read(i)
    }

    fn read_reg(&self, r: Reg) -> (v: u8)
        requires
            self.mbc.wf(),
        ensures
            v == self.mbc@.reg(r),
    {
        self.mbc.read_reg(r)
    }

    fn write_reg(&mut self, r: Reg, v: u8)
        requires
            old(self).wf(),
        ensures
            final(self).wf(),
            final(self).mbc@ == old(self).mbc@.set_reg(r, v),
            final(self).mbc.rom == old(self).mbc.rom,
            final(self).same_screen(old(self)),
    {
        self.mbc.write_reg(r, v);
    }

    /// The window's scratch map when `win`, else the background's.
    pub open spec fn scratch(&self, win: bool) -> Seq<u8> {
        if win {
            self.buffer_win@
        } else {
            self.buffer_bg@
        }
    }

    /// The buffers and the dot counter agree.
    pub open spec fn same_screen(&self, other: &PPU) -> bool {
        &&& self.buffer == other.buffer
        &&& self.buffer_bg == other.buffer_bg
        &&& self.buffer_win == other.buffer_win
        &&& self.buffer_obj == other.buffer_obj
        &&& self.buffer_vram == other.buffer_vram
        &&& self.lx == other.lx
    }

    fn set_interrupt_stat(&mut self)
        requires
            old(self).wf(),
        ensures
            final(self).wf(),
            final(self).mbc@ == raise(old(self).mbc@, 1),
            final(self).mbc.rom == old(self).mbc.rom,
            final(self).same_screen(old(self)),
    {
        self.mbc.modify_reg(Reg::IF, |u: u8| -> (r: u8)
            ensures r == with_bit(u, 1, true)
            { set_bit(u, 1, true) });
    }

    fn set_interrupt_vblank(&mut self)
        requires
            old(self).wf(),
        ensures
            final(self).wf(),
            final(self).mbc@ == raise(old(self).mbc@, 0),
            final(self).mbc.rom == old(self).mbc.rom,
            final(self).same_screen(old(self)),
    {
        self.mbc.modify_reg(Reg::IF, |u: u8| -> (r: u8)
            ensures r == with_bit(u, 0, true)
            { set_bit(u, 0, true) });
    }

    fn set_blocking(&mut self, vram: bool, oam: bool)
        requires
            old(self).wf(),
        ensures
            final(self).wf(),
            final(self).mbc@ == (MemState { vram_blocking: vram, oam_blocking: oam, ..old(self).mbc@ }),
            final(self).mbc.rom == old(self).mbc.rom,
            final(self).same_screen(old(self)),
    {
        self.mbc.set_vram_blocking(vram);
        self.mbc.set_oam_blocking(oam);
    }

    fn set_mode(&mut self, mode: Mode)
        requires
            old(self).wf(),
        ensures
            final(self).wf(),
            final(self).mbc@ == enter_mode(old(self).mbc@, mode),
            final(self).mbc.rom == old(self).mbc.rom,
            final(self).same_screen(old(self)),
    {
        let stat = self.read_reg(Reg::STAT);
        assert(bit_mask(2) == 4) by (bit_vector);
        match mode {
            Mode::HBlank => {
                self.write_reg(Reg::STAT, set_low_bits(stat, 2, 0));
                self.set_blocking(false, false);
                if get_bit(stat, 3) {
                    self.set_interrupt_stat();
                }
            },
            Mode::VBlank => {
                self.write_reg(Reg::STAT, set_low_bits(stat, 2, 1));
                self.set_blocking(false, false);
                if get_bit(stat, 4) {
                    self.set_interrupt_stat();
                }
                self.set_interrupt_vblank();
            },
            Mode::OAMScan => {
                self.write_reg(Reg::STAT, set_low_bits(stat, 2, 2));
                self.set_blocking(false, true);
                if get_bit(stat, 5) {
                    self.set_interrupt_stat();
                }
            },
            Mode::Drawing => {
                self.write_reg(Reg::STAT, set_low_bits(stat, 2, 3));
                self.mbc.set_oam_blocking(true);
            },
        }
        proof {
            assert(self.mbc@ =~= enter_mode(old(self).mbc@, mode));
        }
    }

    fn compare_lyc(&mut self)
        requires
            old(self).wf(),
        ensures
            final(self).wf(),
            final(self).mbc@ == compare_lyc(old(self).mbc@),
            final(self).mbc.rom == old(self).mbc.rom,
            final(self).same_screen(old(self)),
    {
        let stat = self.read_reg(Reg::STAT);
        let lyc = self.read_reg(Reg::LYC);
        let ly = self.read_reg(Reg::LY);
        let eq = lyc == ly;
        self.write_reg(Reg::STAT, set_bit(stat, 2, eq));
        if eq && get_bit(stat, 6) {
            self.set_interrupt_stat();
        }
    }

    /// Advances the PPU by one dot.
    pub fn step(&mut self)
        requires
            old(self).wf(),
        ensures
            final(self).wf(),
            final(self).mbc@ == step_mem(old(self).mbc@, old(self).lx),
            final(self).mbc.rom == old(self).mbc.rom,
            final(self).lx == if old(self).lx + 1 == DOTS_PER_LINE {
                0
            } else {
                old(self).lx + 1
            },
            !(old(self).mbc@.reg(Reg::LY) == VBLANK_LINE && old(self).lx == 0) ==> {
                &&& final(self).buffer == old(self).buffer
                &&& final(self).buffer_bg == old(self).buffer_bg
                &&& final(self).buffer_win == old(self).buffer_win
            },
            old(self).mbc@.reg(Reg::LY) == VBLANK_LINE && old(self).lx == 0 ==> final(self).buffer@ == frame(
                old(self).mbc@,
            ),
    {
        let ly = self.read_reg(Reg::LY);
        if ly < VBLANK_LINE {
            if self.lx == 0 {
                self.set_mode(Mode::OAMScan);
            } else if self.lx == 80 {
                self.set_mode(Mode::Drawing);
            } else if self.lx == 252 {
                self.set_mode(Mode::HBlank);
            }
        } else if ly == VBLANK_LINE && self.lx == 0 {
            self.draw();
            self.set_mode(Mode::VBlank);
        }
        self.lx = self.lx + 1;
        if self.lx == DOTS_PER_LINE {
            self.lx = 0;
            let next = if ly >= LINES - 1 { 0 } else { ly + 1 };
            self.write_reg(Reg::LY, next);
            self.compare_lyc();
        }
    }

    /// The eight rows of eight color ids of the tile at `addr`, row by row.
    fn read_tile(&self, addr: u16) -> (tile: Vec<u8>)
        requires
            self.mbc.wf(),
            addr <= 0x9ff0,
        ensures
            tile@.len() == 64,
            forall|k: int| 0 <= k < 64 ==> #[trigger] tile@[k] <= 3,
            forall|y: int, c: int|
                0 <= y < 8 && 0 <= c < 8 ==> tile@[y * 8 + c] == tile_pixel(self.mbc@, addr, y, c),
            tile@ == tile_seq(self.mbc@, addr),
    {
        let mut tile: Vec<u8> = Vec::new();
        let mut y: u16 = 0;
        while y < 8
            invariant
                self.mbc.wf(),
                addr <= 0x9ff0,
                y <= 8,
                tile@.len() == y * 8,
                forall|k: int| 0 <= k < tile@.len() ==> #[trigger] tile@[k] <= 3,
                forall|yy: int, c: int|
                    0 <= yy < y && 0 <= c < 8 ==> tile@[yy * 8 + c] == tile_pixel(self.mbc@, addr, yy, c),
            decreases 8 - y,
        {
            let t1 = self.read(addr + y * 2);
            let t2 = self.read(addr + y * 2 + 1);
            let mut c: u8 = 0;
            while c < 8
                invariant
                    self.mbc.wf(),
                    addr <= 0x9ff0,
                    y < 8,
                    c <= 8,
                    t1 == self.mbc@.read((addr + 2 * y) as u16),
                    t2 == self.mbc@.read((addr + 2 * y + 1) as u16),
                    tile@.len() == y * 8 + c,
                    forall|k: int| 0 <= k < tile@.len() ==> #[trigger] tile@[k] <= 3,
                    forall|yy: int, cc: int|
                        0 <= yy < y && 0 <= cc < 8 ==> tile@[yy * 8 + cc] == tile_pixel(self.mbc@, addr, yy, cc),
                    forall|cc: int|
                        0 <= cc < c ==> tile@[y * 8 + cc] == tile_pixel(self.mbc@, addr, y as int, cc),
                decreases 8 - c,
            {
                let s: u8 = 7 - c;
                let v = ((t1 >> s) & 1) | (((t2 >> s) & 1) << 1u8);
                assert(((t1 >> s) & 1) | (((t2 >> s) & 1) << 1u8) <= 3) by (bit_vector);
                tile.push(v);
                c += 1;
            }
            y += 1;
        }
        proof {
            assert forall|k: int| 0 <= k < 64 implies tile@[k] == tile_seq(self.mbc@, addr)[k] by {
                assert(k == (k / 8) * 8 + k % 8);
            }
            assert(tile@ =~= tile_seq(self.mbc@, addr));
        }
        tile
    }

    /// Address of tile `i` of the background, the window or the sprites.
    fn addressing_tile(&self, i: u8, is_obj: bool) -> (r: u16)
        requires
            self.mbc.wf(),
        ensures
            r == tile_addr(self.mbc@.reg(Reg::LCDC), i, is_obj),
            0x8000 <= r <= 0x97f0,
    {
        let lcdc = self.read_reg(Reg::LCDC);
        let addressing_mode = get_bit(lcdc, 4);
        if is_obj || addressing_mode {
            0x8000 + (i as u16) * 16
        } else if i < 128 {
            0x9000 + (i as u16) * 16
        } else {
            0x9000 - (256 - i as u16) * 16
        }
    }

    /// Renders the tile map at `map` through BGP into the window's scratch
    /// map (`win`) or the background's, the map's first tile at (`y0`,
    /// `x0`) and the rest laid out from there, wrapping at the edges.
    #[verifier::spinoff_prover]
    #[verifier::rlimit(80)]
    fn draw_map(&mut self, map: u16, y0: usize, x0: usize, win: bool)
        requires
            old(self).wf(),
            map == 0x9800 || map == 0x9c00,
            y0 < MAP_SIDE,
            x0 < MAP_SIDE,
        ensures
            final(self).wf(),
            final(self).mbc == old(self).mbc,
            final(self).lx == old(self).lx,
            final(self).buffer == old(self).buffer,
            win ==> final(self).buffer_bg == old(self).buffer_bg,
            !win ==> final(self).buffer_win == old(self).buffer_win,
            win ==> forall|r: int, c: int|
                0 <= r < MAP_SIDE && 0 <= c < MAP_SIDE ==> #[trigger] final(self).buffer_win@[cell(r, c)]
                    == bg_cell(old(self).mbc@, map, offset(r, y0 as int), offset(c, x0 as int)),
            !win ==> forall|r: int, c: int|
                0 <= r < MAP_SIDE && 0 <= c < MAP_SIDE ==> #[trigger] final(self).buffer_bg@[cell(r, c)]
                    == bg_cell(old(self).mbc@, map, offset(r, y0 as int), offset(c, x0 as int)),
    {
        let bgp = self.read_reg(Reg::BGP);
        let ghost m = old(self).mbc@;
        let ghost start = old(self).scratch(win);
        let mut i: u16 = 0;
        while i < 1024
            invariant
                self.wf(),
                self.mbc == old(self).mbc,
                m == self.mbc@,
                bgp == m.reg(Reg::BGP),
                start == old(self).scratch(win),
                self.lx == old(self).lx,
                self.buffer == old(self).buffer,
                win ==> self.buffer_bg == old(self).buffer_bg,
                !win ==> self.buffer_win == old(self).buffer_win,
                map == 0x9800 || map == 0x9c00,
                y0 < MAP_SIDE,
                x0 < MAP_SIDE,
                i <= 1024,
                forall|r: int, c: int|
                    0 <= r < MAP_SIDE && 0 <= c < MAP_SIDE ==> #[trigger] self.scratch(win)[cell(r, c)]
                        == if tile_no(offset(r, y0 as int), offset(c, x0 as int)) < i {
                        bg_cell(m, map, offset(r, y0 as int), offset(c, x0 as int))
                    } else {
                        start[cell(r, c)]
                    },
            decreases 1024 - i,
        {
            let ti = self.read(map + i);
            let addr = self.addressing_tile(ti, false);
            let tile = self.read_tile(addr);
            let y = (y0 + (i as usize / 32) * 8) % MAP_SIDE;
            let x = (x0 + (i as usize % 32) * 8) % MAP_SIDE;
            let ghost before = self.scratch(win);
            if win {
                put_tile(&mut self.buffer_win, &tile, bgp, y, x);
            } else {
                put_tile(&mut self.buffer_bg, &tile, bgp, y, x);
            }
            proof {
                assert forall|r: int, c: int| 0 <= r < MAP_SIDE && 0 <= c < MAP_SIDE implies #[trigger] self.scratch(
                    win,
                )[cell(r, c)] == if tile_no(offset(r, y0 as int), offset(c, x0 as int)) < i + 1 {
                    bg_cell(m, map, offset(r, y0 as int), offset(c, x0 as int))
                } else {
                    start[cell(r, c)]
                } by {
                    lemma_tile_cell(i as int, y0 as int, x0 as int, r, c);
                    lemma_offset_shift(r, y0 as int, 0);
                    lemma_offset_shift(c, x0 as int, 0);
                    let v0 = before[cell(r, c)];
                    if win {
                        let v1 = self.buffer_win@[cell(r, c)];
                    } else {
                        let v1 = self.buffer_bg@[cell(r, c)];
                    }
                    if tile_no(offset(r, y0 as int), offset(c, x0 as int)) == i {
                        let rr = offset(r, y0 as int) % 8;
                        let cc = offset(c, x0 as int) % 8;
                        assert(tile@[rr * 8 + cc] == tile_pixel(m, addr, rr, cc));
                    }
                }
            }
            i += 1;
        }
        proof {
            assert forall|r: int, c: int| 0 <= r < MAP_SIDE && 0 <= c < MAP_SIDE implies #[trigger] self.scratch(
                win,
            )[cell(r, c)] == bg_cell(m, map, offset(r, y0 as int), offset(c, x0 as int)) by {
                lemma_offset_shift(r, y0 as int, 0);
                lemma_offset_shift(c, x0 as int, 0);
                assert(0 <= tile_no(offset(r, y0 as int), offset(c, x0 as int)) < 1024);
            }
            if win {
                assert forall|r: int, c: int| 0 <= r < MAP_SIDE && 0 <= c < MAP_SIDE implies #[trigger] self.buffer_win@[cell(
                    r,
                    c,
                )] == bg_cell(m, map, offset(r, y0 as int), offset(c, x0 as int)) by {
                    let v = self.scratch(win)[cell(r, c)];
                }
            } else {
                assert forall|r: int, c: int| 0 <= r < MAP_SIDE && 0 <= c < MAP_SIDE implies #[trigger] self.buffer_bg@[cell(
                    r,
                    c,
                )] == bg_cell(m, map, offset(r, y0 as int), offset(c, x0 as int)) by {
                    let v = self.scratch(win)[cell(r, c)];
                }
            }
        }
    }

    /// Renders the background map and copies the part that SCY/SCX select
    /// to the screen.
    #[verifier::spinoff_prover]
    #[verifier::rlimit(80)]
    fn draw_background(&mut self)
        requires
            old(self).wf(),
        ensures
            final(self).wf(),
            final(self).mbc == old(self).mbc,
            final(self).lx == old(self).lx,
            final(self).buffer_win == old(self).buffer_win,
            forall|r: int, c: int|
                0 <= r < MAP_SIDE && 0 <= c < MAP_SIDE ==> #[trigger] final(self).buffer_bg@[cell(r, c)]
                    == bg_cell(old(self).mbc@, bg_map(old(self).mbc@.reg(Reg::LCDC)), r, c),
            shows_background(final(self), old(self).mbc@),
    {
        let lcdc = self.read_reg(Reg::LCDC);
        let bg_addr: u16 = if get_bit(lcdc, 3) {
            0x9c00
        } else {
            0x9800
        };
        self.draw_map(bg_addr, 0, 0, false);
        proof {
            assert forall|r: int, c: int| 0 <= r < MAP_SIDE && 0 <= c < MAP_SIDE implies #[trigger] self.buffer_bg@[cell(
                r,
                c,
            )] == bg_cell(old(self).mbc@, bg_map(old(self).mbc@.reg(Reg::LCDC)), r, c) by {
                lemma_offset_shift(r, 0, 0);
                lemma_offset_shift(c, 0, 0);
                assert(offset(r, 0) == r && offset(c, 0) == c);
            }
        }
        let scy = self.read_reg(Reg::SCY) as usize;
        let scx = self.read_reg(Reg::SCX) as usize;
        let mut k: usize = 0;
        while k < WIDTH * HEIGHT
            invariant
                self.wf(),
                self.mbc == old(self).mbc,
                self.lx == old(self).lx,
                self.buffer_win == old(self).buffer_win,
                scy == old(self).mbc@.reg(Reg::SCY),
                scx == old(self).mbc@.reg(Reg::SCX),
                k <= WIDTH * HEIGHT,
                forall|r: int, c: int|
                    0 <= r < MAP_SIDE && 0 <= c < MAP_SIDE ==> #[trigger] self.buffer_bg@[cell(r, c)]
                        == bg_cell(old(self).mbc@, bg_map(old(self).mbc@.reg(Reg::LCDC)), r, c),
                forall|j: int|
                    0 <= j < k ==> #[trigger] self.buffer@[j] == self.buffer_bg@[scroll_source(
                        scy as u8,
                        scx as u8,
                        j,
                    )],
            decreases WIDTH * HEIGHT - k,
        {
            let sy = (scy + k / WIDTH) % MAP_SIDE;
            let sx = (scx + k % WIDTH) % MAP_SIDE;
            assert(sy * MAP_SIDE + sx < MAP_SIDE * MAP_SIDE) by (nonlinear_arith)
                requires
                    sy < MAP_SIDE,
                    sx < MAP_SIDE,
            ;
            let color = self.buffer_bg[sy * MAP_SIDE + sx];
            self.buffer.set(k, color);
            k += 1;
        }
        proof {
            assert forall|k: int| 0 <= k < WIDTH * HEIGHT implies #[trigger] self.buffer@[k]
                == bg_frame_pixel(old(self).mbc@, k) by {
                let r = (scy + k / WIDTH as int) % 256;
                let c = (scx + k % WIDTH as int) % 256;
                assert(scroll_source(scy as u8, scx as u8, k) == cell(r, c));
            }
        }
    }

    /// When LCDC bit 5 enables it, renders the window map from (WY, WX - 6)
    /// and lays it over the screen where row >= WY and column >= WX - 6.
    #[verifier::spinoff_prover]
    #[verifier::rlimit(80)]
    fn draw_window(&mut self)
        requires
            old(self).wf(),
        ensures
            final(self).wf(),
            final(self).mbc == old(self).mbc,
            final(self).lx == old(self).lx,
            final(self).buffer_bg == old(self).buffer_bg,
            !bit_of(old(self).mbc@.reg(Reg::LCDC), 5) ==> final(self).buffer == old(self).buffer,
            bit_of(old(self).mbc@.reg(Reg::LCDC), 5) ==> forall|r: int, c: int|
                0 <= r < MAP_SIDE && 0 <= c < MAP_SIDE ==> #[trigger] final(self).buffer_win@[cell(r, c)]
                    == bg_cell(
                    old(self).mbc@,
                    win_map(old(self).mbc@.reg(Reg::LCDC)),
                    offset(r, old(self).mbc@.reg(Reg::WY) as int),
                    offset(c, window_x(old(self).mbc@.reg(Reg::WX)) as int),
                ),
            bit_of(old(self).mbc@.reg(Reg::LCDC), 5) ==> forall|k: int|
                0 <= k < WIDTH * HEIGHT ==> #[trigger] final(self).buffer@[k] == if window_covers(
                    old(self).mbc@.reg(Reg::WY),
                    old(self).mbc@.reg(Reg::WX),
                    k,
                ) {
                    window_pixel(old(self).mbc@, k)
                } else {
                    old(self).buffer@[k]
                },
    {
        let lcdc = self.read_reg(Reg::LCDC);
        let wy = self.read_reg(Reg::WY);
        let wx_reg = self.read_reg(Reg::WX);
        let wx: u8 = if wx_reg >= 6 {
            wx_reg - 6
        } else {
            wx_reg + 250
        };
        let win_enable = get_bit(lcdc, 5);
        if !win_enable {
            return;
        }
        let win_addr: u16 = if get_bit(lcdc, 6) {
            0x9c00
        } else {
            0x9800
        };
        self.draw_map(win_addr, wy as usize, wx as usize, true);
        let ghost before = self.buffer@;
        let mut k: usize = 0;
        while k < WIDTH * HEIGHT
            invariant
                self.wf(),
                self.mbc == old(self).mbc,
                self.lx == old(self).lx,
                self.buffer_bg == old(self).buffer_bg,
                before == old(self).buffer@,
                wy == old(self).mbc@.reg(Reg::WY),
                wx_reg == old(self).mbc@.reg(Reg::WX),
                wx == window_x(wx_reg),
                k <= WIDTH * HEIGHT,
                win_addr == win_map(lcdc),
                lcdc == old(self).mbc@.reg(Reg::LCDC),
                forall|r: int, c: int|
                    0 <= r < MAP_SIDE && 0 <= c < MAP_SIDE ==> #[trigger] self.buffer_win@[cell(r, c)]
                        == bg_cell(old(self).mbc@, win_addr, offset(r, wy as int), offset(c, wx as int)),
                forall|j: int|
                    0 <= j < WIDTH * HEIGHT ==> #[trigger] self.buffer@[j] == if j < k
                        && window_covers(wy, wx_reg, j) {
                        self.buffer_win@[(j / WIDTH as int) * 256 + j % WIDTH as int]
                    } else {
                        before[j]
                    },
            decreases WIDTH * HEIGHT - k,
        {
            let dy = k / WIDTH;
            let dx = k % WIDTH;
            if wy as usize <= dy && wx as usize <= dx {
                assert(dy * MAP_SIDE + dx < MAP_SIDE * MAP_SIDE) by (nonlinear_arith)
                    requires
                        dy < MAP_SIDE,
                        dx < MAP_SIDE,
                ;
                let color = self.buffer_win[dy * MAP_SIDE + dx];
                self.buffer.set(k, color);
            }
            k += 1;
        }
        proof {
            assert forall|j: int| 0 <= j < WIDTH * HEIGHT && window_covers(wy, wx_reg, j) implies self.buffer_win@[(
            j / WIDTH as int) * 256 + j % WIDTH as int] == window_pixel(old(self).mbc@, j) by {
                let r = j / WIDTH as int;
                let c = j % WIDTH as int;
                assert(0 <= r < 144 && 0 <= c < 160);
                assert((j / WIDTH as int) * 256 + j % WIDTH as int == cell(r, c));
                assert(offset(r, wy as int) == r - wy);
                assert(offset(c, wx as int) == c - wx);
            }
        }
    }

    /// When LCDC bit 1 enables them, draws the 40 sprites of OAM over the
    /// screen in OAM order; color id 0 is transparent.
    #[verifier::spinoff_prover]
    #[verifier::rlimit(60)]
    fn draw_oam(&mut self)
        requires
            old(self).wf(),
        ensures
            final(self).wf(),
            final(self).mbc == old(self).mbc,
            final(self).lx == old(self).lx,
            final(self).buffer_bg == old(self).buffer_bg,
            final(self).buffer_win == old(self).buffer_win,
            !bit_of(old(self).mbc@.reg(Reg::LCDC), 1) ==> final(self).buffer == old(self).buffer,
            bit_of(old(self).mbc@.reg(Reg::LCDC), 1) ==> final(self).buffer@ == sprites_over(
                old(self).mbc@,
                old(self).buffer@,
                40,
            ),
    {
        let lcdc = self.read_reg(Reg::LCDC);
        let obj_enable = get_bit(lcdc, 1);
        if !obj_enable {
            return;
        }
        let obj_size: usize = if get_bit(lcdc, 2) {
            2
        } else {
            1
        };
        let ghost m = old(self).mbc@;
        let mut i: u16 = 0;
        while i < 40
            invariant
                self.wf(),
                self.mbc == old(self).mbc,
                m == self.mbc@,
                self.lx == old(self).lx,
                self.buffer_bg == old(self).buffer_bg,
                self.buffer_win == old(self).buffer_win,
                obj_size == sprite_tiles(m),
                i <= 40,
                self.buffer@ == sprites_over(m, old(self).buffer@, i as nat),
            decreases 40 - i,
        {
            let ghost start = self.buffer@;
            let o: u16 = 0xfe00 + i * 4;
            let y = self.read(o) as usize;
            let x = self.read(o + 1) as usize;
            let t = self.read(o + 2);
            let a = self.read(o + 3);
            let flip_y = get_bit(a, 6);
            let flip_x = get_bit(a, 5);
            let dmg_palette = self.read_reg(
                if get_bit(a, 4) {
                    Reg::OBP1
                } else {
                    Reg::OBP0
                },
            );
            let hidden = y == 0 || y >= 160 || x >= 168 || get_bit(a, 7);
            if !hidden {
                let mut z: usize = 0;
                while z < obj_size
                    invariant
                        self.wf(),
                        self.mbc == old(self).mbc,
                        m == self.mbc@,
                        self.lx == old(self).lx,
                        self.buffer_bg == old(self).buffer_bg,
                        self.buffer_win == old(self).buffer_win,
                        obj_size == sprite_tiles(m),
                        z <= obj_size,
                        i < 40,
                        y == oam(m, i as int, 0),
                        x == oam(m, i as int, 1),
                        t == oam(m, i as int, 2),
                        a == oam(m, i as int, 3),
                        flip_y == bit_of(a, 6),
                        flip_x == bit_of(a, 5),
                        dmg_palette == sprite_palette(m, i as int),
                        !sprite_hidden(m, i as int),
                        y < 160,
                        x < 168,
                        self.buffer@ == sprite_parts(m, start, i as int, z as int),
                    decreases obj_size - z,
                {
                    let zz: u8 = if flip_y && obj_size == 2 {
                        (1 - z) as u8
                    } else {
                        z as u8
                    };
                    let ti = self.addressing_tile(t.wrapping_add(zz), true);
                    let tile = self.read_tile(ti);
                    assert(tile@ == sprite_tile(m, i as int, z as int));
                    self.put_sprite_tile(&tile, dmg_palette, y + z * 8, x, flip_x, flip_y);
                    z += 1;
                }
            }
            i += 1;
        }
    }

    /// Draws one 8x8 sprite tile whose OAM corner is (`y`, `x`): the screen
    /// pixel is (`y` - 16 + row, `x` - 8 + column), where it lies on screen.
    #[verifier::spinoff_prover]
    #[verifier::rlimit(80)]
    fn put_sprite_tile(&mut self, tile: &Vec<u8>, pal: u8, y: usize, x: usize, flip_x: bool, flip_y: bool)
        requires
            old(self).wf(),
            tile@.len() == 64,
            forall|k: int| 0 <= k < 64 ==> #[trigger] tile@[k] <= 3,
            y < 200,
            x < 200,
        ensures
            final(self).wf(),
            final(self).mbc == old(self).mbc,
            final(self).lx == old(self).lx,
            final(self).buffer_bg == old(self).buffer_bg,
            final(self).buffer_win == old(self).buffer_win,
            final(self).buffer@ == tile_over(old(self).buffer@, tile@, pal, y as int, x as int, flip_x, flip_y, 8, 0),
    {
        let mut yy: usize = 0;
        while yy < 8
            invariant
                self.wf(),
                self.mbc == old(self).mbc,
                self.lx == old(self).lx,
                self.buffer_bg == old(self).buffer_bg,
                self.buffer_win == old(self).buffer_win,
                tile@.len() == 64,
                forall|k: int| 0 <= k < 64 ==> #[trigger] tile@[k] <= 3,
                y < 200,
                x < 200,
                yy <= 8,
                self.buffer@ == tile_over(old(self).buffer@, tile@, pal, y as int, x as int, flip_x, flip_y, yy as int, 0),
            decreases 8 - yy,
        {
            let mut xx: usize = 0;
            while xx < 8
                invariant
                    self.wf(),
                    self.mbc == old(self).mbc,
                    self.lx == old(self).lx,
                    self.buffer_bg == old(self).buffer_bg,
                    self.buffer_win == old(self).buffer_win,
                    tile@.len() == 64,
                    forall|k: int| 0 <= k < 64 ==> #[trigger] tile@[k] <= 3,
                    y < 200,
                    x < 200,
                    yy < 8,
                    xx <= 8,
                    self.buffer@ == tile_over(
                        old(self).buffer@,
                        tile@,
                        pal,
                        y as int,
                        x as int,
                        flip_x,
                        flip_y,
                        yy as int,
                        xx as int,
                    ),
                decreases 8 - xx,
            {
                let ghost prev = self.buffer@;
                let iy = if flip_y {
                    7 - yy
                } else {
                    yy
                };
                let ix = if flip_x {
                    7 - xx
                } else {
                    xx
                };
                let color_id = tile[iy * 8 + ix];
                let color = palette(pal, color_id);
                if y + yy >= 16 && x + xx >= 8 && color_id != 0 && y + yy - 16 < HEIGHT && x + xx - 8 < WIDTH {
                    let sy = y + yy - 16;
                    let sx = x + xx - 8;
                    assert(sy * WIDTH + sx < WIDTH * HEIGHT) by (nonlinear_arith)
                        requires
                            sy < HEIGHT,
                            sx < WIDTH,
                    ;
                    self.buffer.set(sy * WIDTH + sx, color);
                    proof {
                        vstd::arithmetic::div_mod::lemma_fundamental_div_mod_converse(
                            (sy * WIDTH + sx) as int,
                            WIDTH as int,
                            sy as int,
                            sx as int,
                        );
                    }
                }
                proof {
                    let next = tile_over(
                        old(self).buffer@,
                        tile@,
                        pal,
                        y as int,
                        x as int,
                        flip_x,
                        flip_y,
                        yy as int,
                        xx + 1,
                    );
                    assert forall|q: int| 0 <= q < self.buffer@.len() implies #[trigger] self.buffer@[q] == next[q] by {
                        assert(q == (q / WIDTH as int) * WIDTH as int + q % WIDTH as int);
                    }
                    assert(self.buffer@ =~= next);
                }
                xx += 1;
            }
            proof {
                assert(self.buffer@ =~= tile_over(
                    old(self).buffer@,
                    tile@,
                    pal,
                    y as int,
                    x as int,
                    flip_x,
                    flip_y,
                    yy + 1,
                    0,
                ));
            }
            yy += 1;
        }
    }

    /// Clears the screen and the four scratch maps to shade 0.
    pub fn clear_buffer(&mut self)
        requires
            old(self).wf(),
        ensures
            final(self).wf(),
            final(self).mbc == old(self).mbc,
            final(self).lx == old(self).lx,
            final(self).buffer@ == Seq::new((WIDTH * HEIGHT) as nat, |k: int| 0u8),
            final(self).buffer_bg@ == Seq::new((MAP_SIDE * MAP_SIDE) as nat, |k: int| 0u8),
            final(self).buffer_win@ == Seq::new((MAP_SIDE * MAP_SIDE) as nat, |k: int| 0u8),
            final(self).buffer_obj@ == Seq::new((MAP_SIDE * MAP_SIDE) as nat, |k: int| 0u8),
            final(self).buffer_vram@ == Seq::new((MAP_SIDE * MAP_SIDE) as nat, |k: int| 0u8),
    {
        clear(&mut self.buffer);
        clear(&mut self.buffer_obj);
        clear(&mut self.buffer_win);
        clear(&mut self.buffer_bg);
        clear(&mut self.buffer_vram);
    }

    /// Decodes the 512 tiles of VRAM (tile data, then the two maps read as
    /// tiles) into `buffer_vram` as color ids: tiles go in pairs, one above
    /// the other, 32 pairs to a 16-row band, filling rows 0 to 127.
    #[verifier::spinoff_prover]
    #[verifier::rlimit(80)]
    pub fn dump_vram(&mut self)
        requires
            old(self).wf(),
        ensures
            final(self).wf(),
            final(self).mbc == old(self).mbc,
            final(self).lx == old(self).lx,
            final(self).buffer == old(self).buffer,
            final(self).buffer_bg == old(self).buffer_bg,
            final(self).buffer_win == old(self).buffer_win,
            forall|r: int, c: int|
                0 <= r < MAP_SIDE && 0 <= c < MAP_SIDE ==> #[trigger] final(self).buffer_vram@[cell(r, c)]
                    == if r < 128 {
                    tile_pixel(old(self).mbc@, (0x8000 + 16 * vram_tile(r, c)) as u16, r % 8, c % 8)
                } else {
                    old(self).buffer_vram@[cell(r, c)]
                },
    {
        let ghost m = old(self).mbc@;
        let mut i: u16 = 0;
        while i < 512
            invariant
                self.wf(),
                self.mbc == old(self).mbc,
                m == self.mbc@,
                self.lx == old(self).lx,
                self.buffer == old(self).buffer,
                self.buffer_bg == old(self).buffer_bg,
                self.buffer_win == old(self).buffer_win,
                i <= 512,
                forall|r: int, c: int|
                    0 <= r < MAP_SIDE && 0 <= c < MAP_SIDE ==> #[trigger] self.buffer_vram@[cell(r, c)]
                        == if r < 128 && vram_tile(r, c) < i {
                        tile_pixel(m, (0x8000 + 16 * vram_tile(r, c)) as u16, r % 8, c % 8)
                    } else {
                        old(self).buffer_vram@[cell(r, c)]
                    },
            decreases 512 - i,
        {
            let addr: u16 = 0x8000 + i * 16;
            let tile = self.read_tile(addr);
            let y = (i as usize / 64) * 16 + (i as usize % 2) * 8;
            let x = ((i as usize % 64) / 2) * 8;
            let ghost before = self.buffer_vram@;
            put_tile(&mut self.buffer_vram, &tile, IDENTITY_PALETTE, y, x);
            proof {
                assert forall|r: int, c: int| 0 <= r < MAP_SIDE && 0 <= c < MAP_SIDE implies #[trigger] self.buffer_vram@[cell(
                    r,
                    c,
                )] == if r < 128 && vram_tile(r, c) < i + 1 {
                    tile_pixel(m, (0x8000 + 16 * vram_tile(r, c)) as u16, r % 8, c % 8)
                } else {
                    old(self).buffer_vram@[cell(r, c)]
                } by {
                    let v0 = before[cell(r, c)];
                    lemma_vram_cell(i as int, r, c);
                    if r < 128 && vram_tile(r, c) == i {
                        assert(tile@[(r % 8) * 8 + c % 8] == tile_pixel(m, addr, r % 8, c % 8));
                        lemma_identity_palette(tile@[(r % 8) * 8 + c % 8]);
                    }
                }
            }
            i += 1;
        }
    }

    /// Renders a frame: background, then window, then sprites.
    fn draw(&mut self)
        requires
            old(self).wf(),
        ensures
            final(self).wf(),
            final(self).mbc == old(self).mbc,
            final(self).lx == old(self).lx,
            final(self).buffer@ == frame(old(self).mbc@),
    {
        let ghost m = self.mbc@;
        self.draw_background();
        proof {
            assert(self.buffer@ =~= bg_layer(m));
        }
        self.draw_window();
        proof {
            assert(self.buffer@ =~= win_layer(m));
        }
        self.draw_oam();
    }
}

} // verus!
