use gbe_rs::mbc::select_mbc;
use gbe_rs::ppu::PPU;
use gbe_rs::ram::Reg;
use gbe_rs::rom::ROM;

fn ppu() -> PPU {
    let mut raw = vec![0u8; 0x8000];
    raw[0x147] = 0x01;
    PPU::new(select_mbc(ROM::new(raw)))
}

#[test]
fn frame_cadence() {
    let mut p = ppu();
    let mut rises = 0;
    let mut prev = p.mbc.read_reg(Reg::IF) & 1;
    for _ in 0..70224 {
        p.step();
        let now = p.mbc.read_reg(Reg::IF) & 1;
        if now == 1 && prev == 0 {
            rises += 1;
        }
        prev = now;
    }
    assert_eq!(p.mbc.read_reg(Reg::LY), 0);
    assert_eq!(p.lx, 0);
    assert_eq!(rises, 1);
}

#[test]
fn mode_bits_follow_dots() {
    let mut p = ppu();
    p.step();
    assert_eq!(p.mbc.read_reg(Reg::STAT) & 3, 2);
    assert!(p.mbc.oam_blocking);
    for _ in 1..81 {
        p.step();
    }
    assert_eq!(p.mbc.read_reg(Reg::STAT) & 3, 3);
    for _ in 81..253 {
        p.step();
    }
    assert_eq!(p.mbc.read_reg(Reg::STAT) & 3, 0);
    assert!(!p.mbc.oam_blocking);
    for _ in 253..456 {
        p.step();
    }
    assert_eq!(p.mbc.read_reg(Reg::LY), 1);
}

#[test]
fn lyc_match_raises_stat() {
    let mut p = ppu();
    p.mbc.write(0xff45, 1);
    p.mbc.write(0xff41, 0x40);
    for _ in 0..456 {
        p.step();
    }
    assert_eq!(p.mbc.read_reg(Reg::STAT) & 0x04, 0x04);
    assert_eq!(p.mbc.read_reg(Reg::IF) & 0x02, 0x02);
    for _ in 0..456 {
        p.step();
    }
    assert_eq!(p.mbc.read_reg(Reg::STAT) & 0x04, 0);
}

#[test]
fn frame_pixels_are_shades() {
    let mut p = ppu();
    let mut x: u8 = 17;
    for a in 0x8000u16..0xa000 {
        x = x.wrapping_mul(13).wrapping_add(7);
        p.mbc.write(a, x);
    }
    for a in 0xfe00u16..0xfea0 {
        x = x.wrapping_mul(13).wrapping_add(7);
        p.mbc.write(a, x);
    }
    p.mbc.write(0xff40, 0xff);
    p.mbc.write(0xff47, 0xe4);
    p.mbc.write(0xff48, 0x1b);
    p.mbc.write(0xff4a, 0x10);
    p.mbc.write(0xff4b, 0x20);
    for _ in 0..(145 * 456) {
        p.step();
    }
    assert!(p.buffer.iter().all(|&v| v <= 3));
    assert!(p.buffer.iter().any(|&v| v != 0));
}

#[test]
fn background_uses_palette_and_scroll() {
    let mut p = ppu();
    // Tile 1: every row has byte1 = 0xff, byte2 = 0x00, so color id 1.
    for row in 0..8u16 {
        p.mbc.write(0x8010 + row * 2, 0xff);
    }
    // Map entry (0, 1) uses tile 1; unsigned addressing.
    p.mbc.write(0x9801, 1);
    p.mbc.write(0xff40, 0x91);
    p.mbc.write(0xff47, 0b0000_1100);
    p.mbc.write(0xff43, 4);
    for _ in 0..(145 * 456) {
        p.step();
    }
    // Screen column x shows map column x + 4, so tile 1 (map columns 8..16)
    // covers screen columns 4..12.
    assert_eq!(p.buffer[0], 0);
    assert_eq!(p.buffer[3], 0);
    assert_eq!(p.buffer[4], 3);
    assert_eq!(p.buffer[11], 3);
    assert_eq!(p.buffer[12], 0);
    assert_eq!(p.buffer[160 * 7 + 4], 3);
    assert_eq!(p.buffer[160 * 8 + 4], 0);
}

#[test]
fn vram_dump_and_clear() {
    let mut p = ppu();
    // Tile 1 (second of the first pair) is drawn below tile 0.
    p.mbc.write(0x8010, 0x80);
    p.mbc.write(0x8011, 0x80);
    // Tile 2 starts the second pair, eight columns to the right.
    p.mbc.write(0x8021, 0x01);
    p.dump_vram();
    assert_eq!(p.buffer_vram[8 * 256], 3);
    assert_eq!(p.buffer_vram[8 * 256 + 1], 0);
    assert_eq!(p.buffer_vram[8 + 7], 2);
    p.clear_buffer();
    assert!(p.buffer_vram.iter().all(|&v| v == 0));
    assert!(p.buffer.iter().all(|&v| v == 0));
}

#[test]
fn vblank_requested_once_per_frame() {
    let mut p = ppu();
    for _ in 0..(144 * 456 + 1) {
        p.step();
    }
    assert_eq!(p.mbc.read_reg(Reg::LY), 144);
    assert_eq!(p.mbc.read_reg(Reg::IF) & 1, 1);
    assert_eq!(p.mbc.read_reg(Reg::STAT) & 3, 1);
    // The handler acknowledges it; the rest of the line does not request it again.
    p.mbc.write(0xff0f, 0);
    for _ in 0..455 {
        p.step();
    }
    assert_eq!(p.mbc.read_reg(Reg::IF) & 1, 0);
    assert_eq!(p.mbc.read_reg(Reg::LY), 145);
}

/// Steps a fresh PPU to the start of V-blank, which renders the frame.
fn render(p: &mut PPU) {
    for _ in 0..(144 * 456 + 1) {
        p.step();
    }
}

/// Tile 1: every row has byte1 = 0xff, byte2 = 0x00, so color id 1.
fn solid_tile_one(p: &mut PPU) {
    for row in 0..8u16 {
        p.mbc.write(0x8010 + row * 2, 0xff);
    }
}

#[test]
fn window_anchored_at_wy_wx() {
    let mut p = ppu();
    solid_tile_one(&mut p);
    // Map row 1, column 0 names tile 1; both layers read the map at 0x9800.
    p.mbc.write(0x9800 + 32, 1);
    p.mbc.write(0xff40, 0xb1);
    p.mbc.write(0xff47, 0b0000_1100);
    p.mbc.write(0xff4a, 8);
    p.mbc.write(0xff4b, 14);
    render(&mut p);
    // The window's second tile row starts at its left edge, column 8.
    assert_eq!(p.buffer[160 * 16 + 8], 3);
    assert_eq!(p.buffer[160 * 23 + 15], 3);
    assert_eq!(p.buffer[160 * 16 + 16], 0);
    assert_eq!(p.buffer[160 * 8 + 8], 0);
    // Left of the window the background shows: map row 1 there too.
    assert_eq!(p.buffer[160 * 8], 3);
    assert_eq!(p.buffer[160 * 16], 0);
}

#[test]
fn sprites_drawn_with_palette_and_priority() {
    let mut p = ppu();
    solid_tile_one(&mut p);
    // Sprite 0 at screen (0, 0) with tile 1 through OBP1; sprite 1 at
    // screen (0, 20) hidden by attribute bit 7.
    for (k, b) in [16u8, 8, 1, 0x10, 16, 28, 1, 0x80].iter().enumerate() {
        p.mbc.write(0xfe00 + k as u16, *b);
    }
    p.mbc.write(0xff40, 0x93);
    p.mbc.write(0xff47, 0);
    p.mbc.write(0xff48, 0b0000_0100);
    p.mbc.write(0xff49, 0b0000_1000);
    render(&mut p);
    assert_eq!(p.buffer[0], 2);
    assert_eq!(p.buffer[160 * 7 + 7], 2);
    assert_eq!(p.buffer[8], 0);
    assert_eq!(p.buffer[160 * 8], 0);
    assert_eq!(p.buffer[20], 0);
}

#[test]
fn sprite_partly_off_screen_is_clipped() {
    let mut p = ppu();
    solid_tile_one(&mut p);
    // Y = 12 and X = 4: only rows 0..4 and columns 0..4 land on screen.
    for (k, b) in [12u8, 4, 1, 0].iter().enumerate() {
        p.mbc.write(0xfe00 + k as u16, *b);
    }
    p.mbc.write(0xff40, 0x93);
    p.mbc.write(0xff48, 0b0000_1100);
    render(&mut p);
    assert_eq!(p.buffer[0], 3);
    assert_eq!(p.buffer[160 * 3 + 3], 3);
    assert_eq!(p.buffer[4], 0);
    assert_eq!(p.buffer[160 * 4], 0);
}
