use dmg_core::cartridge::Cartridge;
use dmg_core::mmu::MMU;
use dmg_core::ppu::{
    color_id, color_palette, green_palette, shade, PPUMode, Palette, PPU, SCREEN_HEIGHT,
    SCREEN_WIDTH,
};

const PITCH: usize = 480;
const UNTOUCHED: u8 = 0x7B;

const WHITE: [u8; 3] = [255, 255, 255];
const YELLOW: [u8; 3] = [255, 255, 0];
const RED: [u8; 3] = [255, 0, 0];
const BLACK: [u8; 3] = [0, 0, 0];

fn blank_bus() -> MMU {
    MMU::new(Cartridge { rom: vec![0u8; 0x8000] })
}

fn blank_screen(pitch: usize) -> Vec<u8> {
    vec![UNTOUCHED; 143 * pitch + 480]
}

fn pixel(fb: &[u8], pitch: usize, x: usize, y: usize) -> [u8; 3] {
    let i = y * pitch + x * 3;
    [fb[i], fb[i + 1], fb[i + 2]]
}

/// Puts the two bit planes of one row of a tile in the block at 0x8000.
fn set_tile_row(mmu: &mut MMU, tile: u16, row: u16, low: u8, high: u8) {
    mmu.write_byte(0x8000 + tile * 16 + row * 2, low);
    mmu.write_byte(0x8000 + tile * 16 + row * 2 + 1, high);
}

fn set_sprite(mmu: &mut MMU, index: u16, y: u8, x: u8, tile: u8, attr: u8) {
    mmu.write_byte(0xFE00 + index * 4, y);
    mmu.write_byte(0xFE00 + index * 4 + 1, x);
    mmu.write_byte(0xFE00 + index * 4 + 2, tile);
    mmu.write_byte(0xFE00 + index * 4 + 3, attr);
}

/// Draws line `line` of a fresh frame and returns the frame buffer.
fn draw_line(mmu: &mut MMU, line: u32, pitch: usize) -> Vec<u8> {
    let mut ppu = PPU::new();
    let mut fb = blank_screen(pitch);
    ppu.step(mmu, 456 * line + 252, &mut fb, pitch);
    fb
}

#[test]
fn screen_size() {
    assert_eq!(SCREEN_WIDTH, 160);
    assert_eq!(SCREEN_HEIGHT, 144);
}

#[test]
fn palettes_hold_four_shades_light_to_dark() {
    assert_eq!(color_palette().colors, [WHITE, YELLOW, RED, BLACK]);
    assert_eq!(
        green_palette().colors,
        [[224, 248, 208], [136, 192, 112], [52, 104, 86], [8, 24, 32]]
    );
    assert!(color_palette() == color_palette());
    assert!(green_palette() != color_palette());
    let mut other = green_palette();
    other.colors[3][2] = 33;
    assert!(other != green_palette());
}

#[test]
fn controller_starts_at_the_first_tick_of_the_first_line() {
    let ppu = PPU::new();
    assert_eq!(ppu.ly, 0);
    assert_eq!(ppu.dot, 0);
    assert_eq!(ppu.mode, PPUMode::Oam);
    assert!(!ppu.frame_ready);
    assert!(ppu.get_palette() == color_palette());
}

#[test]
fn color_index_takes_one_bit_from_each_plane() {
    assert_eq!(color_id(0x80, 0x00, 7), 1);
    assert_eq!(color_id(0x00, 0x80, 7), 2);
    assert_eq!(color_id(0x80, 0x80, 7), 3);
    assert_eq!(color_id(0x7F, 0x7F, 7), 0);
    assert_eq!(color_id(0x01, 0x00, 0), 1);
    assert_eq!(color_id(0x10, 0x10, 4), 3);
}

#[test]
fn shade_is_looked_up_in_the_palette_register() {
    assert_eq!(shade(0xE4, 0), 0);
    assert_eq!(shade(0xE4, 1), 1);
    assert_eq!(shade(0xE4, 2), 2);
    assert_eq!(shade(0xE4, 3), 3);
    assert_eq!(shade(0x1B, 0), 3);
    assert_eq!(shade(0x1B, 1), 2);
    assert_eq!(shade(0x1B, 2), 1);
    assert_eq!(shade(0x1B, 3), 0);
}

#[test]
fn modes_follow_the_tick_within_a_line() {
    let mut mmu = blank_bus();
    let mut fb = blank_screen(PITCH);
    let mut ppu = PPU::new();
    ppu.step(&mut mmu, 79, &mut fb, PITCH);
    assert_eq!((ppu.ly, ppu.dot, ppu.mode), (0, 79, PPUMode::Oam));
    ppu.step(&mut mmu, 1, &mut fb, PITCH);
    assert_eq!((ppu.ly, ppu.dot, ppu.mode), (0, 80, PPUMode::Vram));
    ppu.step(&mut mmu, 171, &mut fb, PITCH);
    assert_eq!((ppu.ly, ppu.dot, ppu.mode), (0, 251, PPUMode::Vram));
    ppu.step(&mut mmu, 1, &mut fb, PITCH);
    assert_eq!((ppu.ly, ppu.dot, ppu.mode), (0, 252, PPUMode::HBlank));
    ppu.step(&mut mmu, 203, &mut fb, PITCH);
    assert_eq!((ppu.ly, ppu.dot, ppu.mode), (0, 455, PPUMode::HBlank));
    ppu.step(&mut mmu, 1, &mut fb, PITCH);
    assert_eq!((ppu.ly, ppu.dot, ppu.mode), (1, 0, PPUMode::Oam));
    assert_eq!(mmu.read_byte(0xFF44), 1);
    ppu.step(&mut mmu, 0, &mut fb, PITCH);
    assert_eq!((ppu.ly, ppu.dot, ppu.mode), (1, 0, PPUMode::Oam));
}

#[test]
fn line_144_starts_the_vertical_blank() {
    let mut mmu = blank_bus();
    mmu.write_byte(0xFF0F, 0x00);
    let mut fb = blank_screen(PITCH);
    let mut ppu = PPU::new();
    ppu.step(&mut mmu, 456 * 144 - 1, &mut fb, PITCH);
    assert_eq!((ppu.ly, ppu.dot, ppu.mode), (143, 455, PPUMode::HBlank));
    assert!(!ppu.frame_ready);
    assert_eq!(mmu.read_byte(0xFF0F), 0x00);
    ppu.step(&mut mmu, 1, &mut fb, PITCH);
    assert_eq!((ppu.ly, ppu.dot, ppu.mode), (144, 0, PPUMode::VBlank));
    assert!(ppu.frame_ready);
    assert_eq!(mmu.read_byte(0xFF0F), 0x01);
    assert_eq!(mmu.read_byte(0xFF44), 144);
}

#[test]
fn a_frame_of_ticks_from_power_on() {
    let mut mmu = blank_bus();
    let mut fb = blank_screen(PITCH);
    let mut ppu = PPU::new();
    ppu.step(&mut mmu, 456 * 144, &mut fb, PITCH);
    assert_eq!(ppu.ly, 144);
    assert_eq!(ppu.mode, PPUMode::VBlank);
    assert!(ppu.frame_ready);
    ppu.step(&mut mmu, 456 * 10 - 1, &mut fb, PITCH);
    assert_eq!((ppu.ly, ppu.dot, ppu.mode), (153, 455, PPUMode::VBlank));
    ppu.step(&mut mmu, 1, &mut fb, PITCH);
    assert_eq!((ppu.ly, ppu.dot, ppu.mode), (0, 0, PPUMode::Oam));
    assert_eq!(mmu.read_byte(0xFF44), 0);
    assert!(ppu.frame_ready);
}

#[test]
fn a_whole_frame_in_one_call_wraps_to_line_zero() {
    let mut mmu = blank_bus();
    let mut fb = blank_screen(PITCH);
    let mut ppu = PPU::new();
    ppu.step(&mut mmu, 456 * 154, &mut fb, PITCH);
    assert_eq!((ppu.ly, ppu.dot, ppu.mode), (0, 0, PPUMode::Oam));
    assert!(ppu.frame_ready);
}

#[test]
fn ticks_add_up_however_they_are_split() {
    let mut bus_a = blank_bus();
    let mut bus_b = blank_bus();
    let mut fb_a = blank_screen(PITCH);
    let mut fb_b = blank_screen(PITCH);
    bus_a.write_byte(0xFF40, 0x91);
    bus_b.write_byte(0xFF40, 0x91);
    let mut a = PPU::new();
    let mut b = PPU::new();
    a.step(&mut bus_a, 100_000, &mut fb_a, PITCH);
    let mut left: u32 = 100_000;
    let mut chunk: u32 = 1;
    while left > 0 {
        let n = if chunk < left { chunk } else { left };
        b.step(&mut bus_b, n, &mut fb_b, PITCH);
        left -= n;
        chunk = chunk % 23 + 4;
    }
    assert_eq!((a.ly, a.dot, a.mode, a.frame_ready), (b.ly, b.dot, b.mode, b.frame_ready));
    assert_eq!((a.ly, a.dot), ((100_000 / 456 % 154) as u8, (100_000 % 456) as u16));
    assert_eq!(fb_a, fb_b);
}

#[test]
fn frame_flag_reads_once() {
    let mut mmu = blank_bus();
    let mut fb = blank_screen(PITCH);
    let mut ppu = PPU::new();
    assert!(!ppu.is_frame_ready());
    ppu.step(&mut mmu, 456 * 144, &mut fb, PITCH);
    assert!(ppu.is_frame_ready());
    assert!(!ppu.is_frame_ready());
    ppu.step(&mut mmu, 456 * 154 - 1, &mut fb, PITCH);
    assert!(!ppu.is_frame_ready());
    ppu.step(&mut mmu, 1, &mut fb, PITCH);
    assert!(ppu.is_frame_ready());
}

#[test]
fn palette_is_set_and_read() {
    let mut ppu = PPU::new();
    ppu.set_palette(green_palette());
    assert!(ppu.get_palette() == green_palette());
    let custom = Palette { colors: [[1, 2, 3], [4, 5, 6], [7, 8, 9], [10, 11, 12]] };
    ppu.set_palette(custom);
    assert_eq!(ppu.get_palette().colors, custom.colors);
}

#[test]
fn nothing_is_drawn_with_the_display_off() {
    let mut mmu = blank_bus();
    mmu.write_byte(0xFF40, 0x03);
    let mut fb = blank_screen(PITCH);
    let mut ppu = PPU::new();
    ppu.step(&mut mmu, 456 * 154, &mut fb, PITCH);
    assert!(fb.iter().all(|b| *b == UNTOUCHED));
}

#[test]
fn a_line_is_drawn_at_tick_252_and_not_before() {
    let mut mmu = blank_bus();
    mmu.write_byte(0xFF40, 0x91);
    let mut fb = blank_screen(PITCH);
    let mut ppu = PPU::new();
    ppu.step(&mut mmu, 251, &mut fb, PITCH);
    assert!(fb.iter().all(|b| *b == UNTOUCHED));
    ppu.step(&mut mmu, 1, &mut fb, PITCH);
    assert!(fb[..480].iter().all(|b| *b == 255));
    assert!(fb[480..].iter().all(|b| *b == UNTOUCHED));
    // The line is drawn once: what is put there afterwards stays.
    fb[0] = UNTOUCHED;
    ppu.step(&mut mmu, 203, &mut fb, PITCH);
    assert_eq!(fb[0], UNTOUCHED);
}

#[test]
fn background_tiles_are_looked_up_in_the_map() {
    let mut mmu = blank_bus();
    mmu.write_byte(0xFF40, 0x91);
    mmu.write_byte(0xFF47, 0xE4);
    // Tile 1, row 0: columns 0-1 color 1, 2-3 color 2, 4-5 color 3, 6-7 color 0.
    set_tile_row(&mut mmu, 1, 0, 0b1100_1100, 0b0011_1100);
    mmu.write_byte(0x9800, 1);
    mmu.write_byte(0x9800 + 19, 1);
    let fb = draw_line(&mut mmu, 0, PITCH);
    assert_eq!(pixel(&fb, PITCH, 0, 0), YELLOW);
    assert_eq!(pixel(&fb, PITCH, 1, 0), YELLOW);
    assert_eq!(pixel(&fb, PITCH, 2, 0), RED);
    assert_eq!(pixel(&fb, PITCH, 3, 0), RED);
    assert_eq!(pixel(&fb, PITCH, 4, 0), BLACK);
    assert_eq!(pixel(&fb, PITCH, 5, 0), BLACK);
    assert_eq!(pixel(&fb, PITCH, 6, 0), WHITE);
    assert_eq!(pixel(&fb, PITCH, 7, 0), WHITE);
    assert_eq!(pixel(&fb, PITCH, 8, 0), WHITE);
    assert_eq!(pixel(&fb, PITCH, 151, 0), WHITE);
    assert_eq!(pixel(&fb, PITCH, 152, 0), YELLOW);
    assert_eq!(pixel(&fb, PITCH, 156, 0), BLACK);
    assert_eq!(pixel(&fb, PITCH, 159, 0), WHITE);
    assert!(fb[480..].iter().all(|b| *b == UNTOUCHED));
}

#[test]
fn background_palette_maps_colors_to_shades() {
    let mut mmu = blank_bus();
    mmu.write_byte(0xFF40, 0x91);
    mmu.write_byte(0xFF47, 0x1B);
    set_tile_row(&mut mmu, 0, 0, 0b1010_0000, 0b0110_0000);
    let fb = draw_line(&mut mmu, 0, PITCH);
    assert_eq!(pixel(&fb, PITCH, 0, 0), RED);
    assert_eq!(pixel(&fb, PITCH, 1, 0), YELLOW);
    assert_eq!(pixel(&fb, PITCH, 2, 0), WHITE);
    assert_eq!(pixel(&fb, PITCH, 3, 0), BLACK);
}

#[test]
fn background_scrolls_and_wraps() {
    let mut mmu = blank_bus();
    mmu.write_byte(0xFF40, 0x91);
    mmu.write_byte(0xFF47, 0xE4);
    // Tile 1 is color 3 on its row 5 only; it sits at column 31, row 31 of the map.
    set_tile_row(&mut mmu, 1, 5, 0xFF, 0xFF);
    mmu.write_byte(0x9800 + 31 * 32 + 31, 1);
    // Scrolled so that background point (252, 253) is at the screen's origin.
    mmu.write_byte(0xFF43, 252);
    mmu.write_byte(0xFF42, 253);
    let fb = draw_line(&mut mmu, 0, PITCH);
    assert_eq!(pixel(&fb, PITCH, 0, 0), BLACK);
    assert_eq!(pixel(&fb, PITCH, 3, 0), BLACK);
    assert_eq!(pixel(&fb, PITCH, 4, 0), WHITE);
    let fb = draw_line(&mut mmu, 1, PITCH);
    assert_eq!(pixel(&fb, PITCH, 0, 1), WHITE);
    // Line 3 shows background row 0, where the map wraps to its first row.
    mmu.write_byte(0x9800, 1);
    set_tile_row(&mut mmu, 1, 0, 0xFF, 0x00);
    let fb = draw_line(&mut mmu, 3, PITCH);
    assert_eq!(pixel(&fb, PITCH, 0, 3), WHITE);
    assert_eq!(pixel(&fb, PITCH, 4, 3), YELLOW);
    assert_eq!(pixel(&fb, PITCH, 11, 3), YELLOW);
    assert_eq!(pixel(&fb, PITCH, 12, 3), WHITE);
}

#[test]
fn second_map_and_signed_tile_numbers() {
    let mut mmu = blank_bus();
    mmu.write_byte(0xFF47, 0xE4);
    // Map at 0x9C00, tile data counted from 0x9000 with signed numbers.
    mmu.write_byte(0xFF40, 0x89);
    mmu.write_byte(0x9800, 0x7F);
    mmu.write_byte(0x9C00, 0x00);
    mmu.write_byte(0x9C01, 0x80);
    mmu.write_byte(0x9C02, 0xFF);
    mmu.write_byte(0x9C03, 0x7F);
    mmu.write_byte(0x9000, 0xFF); // tile 0: color 1
    mmu.write_byte(0x8801, 0xFF); // tile -128: color 2
    mmu.write_byte(0x8FF0, 0xFF); // tile -1: color 3
    mmu.write_byte(0x8FF1, 0xFF);
    let fb = draw_line(&mut mmu, 0, PITCH);
    assert_eq!(pixel(&fb, PITCH, 0, 0), YELLOW);
    assert_eq!(pixel(&fb, PITCH, 8, 0), RED);
    assert_eq!(pixel(&fb, PITCH, 16, 0), BLACK);
    assert_eq!(pixel(&fb, PITCH, 24, 0), WHITE);
    // With unsigned numbers the same entries count from 0x8000.
    mmu.write_byte(0xFF40, 0x99);
    let fb = draw_line(&mut mmu, 0, PITCH);
    assert_eq!(pixel(&fb, PITCH, 0, 0), WHITE);
    assert_eq!(pixel(&fb, PITCH, 8, 0), RED);
    assert_eq!(pixel(&fb, PITCH, 16, 0), BLACK);
}

#[test]
fn rows_follow_the_pitch() {
    let pitch = 512;
    let mut mmu = blank_bus();
    mmu.write_byte(0xFF40, 0x91);
    let mut fb = blank_screen(pitch);
    let mut ppu = PPU::new();
    ppu.step(&mut mmu, 456 * 2, &mut fb, pitch);
    assert!(fb[..480].iter().all(|b| *b == 255));
    assert!(fb[480..512].iter().all(|b| *b == UNTOUCHED));
    assert!(fb[512..992].iter().all(|b| *b == 255));
    assert!(fb[992..].iter().all(|b| *b == UNTOUCHED));
}

#[test]
fn sprite_pixels_cover_the_background_except_color_zero() {
    let mut mmu = blank_bus();
    mmu.write_byte(0xFF40, 0x93);
    mmu.write_byte(0xFF47, 0xE4);
    mmu.write_byte(0xFF48, 0xE4);
    set_tile_row(&mut mmu, 2, 0, 0xF0, 0x00);
    set_tile_row(&mut mmu, 2, 7, 0x00, 0x0F);
    set_sprite(&mut mmu, 0, 16, 8, 2, 0x00);
    let fb = draw_line(&mut mmu, 0, PITCH);
    assert_eq!(pixel(&fb, PITCH, 0, 0), YELLOW);
    assert_eq!(pixel(&fb, PITCH, 3, 0), YELLOW);
    assert_eq!(pixel(&fb, PITCH, 4, 0), WHITE);
    assert_eq!(pixel(&fb, PITCH, 8, 0), WHITE);
    let fb = draw_line(&mut mmu, 7, PITCH);
    assert_eq!(pixel(&fb, PITCH, 3, 7), WHITE);
    assert_eq!(pixel(&fb, PITCH, 4, 7), RED);
    assert_eq!(pixel(&fb, PITCH, 7, 7), RED);
    let fb = draw_line(&mut mmu, 8, PITCH);
    assert!(fb[8 * PITCH..8 * PITCH + 480].iter().all(|b| *b == 255));
}

#[test]
fn sprite_without_background_leaves_transparent_pixels_untouched() {
    let mut mmu = blank_bus();
    mmu.write_byte(0xFF40, 0x82);
    mmu.write_byte(0xFF48, 0xE4);
    set_tile_row(&mut mmu, 2, 0, 0xF0, 0xF0);
    set_sprite(&mut mmu, 0, 16, 8, 2, 0x00);
    let fb = draw_line(&mut mmu, 0, PITCH);
    assert_eq!(pixel(&fb, PITCH, 0, 0), BLACK);
    assert_eq!(pixel(&fb, PITCH, 3, 0), BLACK);
    assert_eq!(pixel(&fb, PITCH, 4, 0), [UNTOUCHED; 3]);
    assert_eq!(pixel(&fb, PITCH, 159, 0), [UNTOUCHED; 3]);
}

#[test]
fn sprite_flips_and_second_palette() {
    let mut mmu = blank_bus();
    mmu.write_byte(0xFF40, 0x82);
    mmu.write_byte(0xFF48, 0xE4);
    mmu.write_byte(0xFF49, 0x1B);
    set_tile_row(&mut mmu, 2, 0, 0x80, 0x00);
    set_tile_row(&mut mmu, 2, 7, 0x01, 0x01);
    // Flipped left to right: the leftmost pixel shows at the right.
    set_sprite(&mut mmu, 0, 16, 8, 2, 0x20);
    let fb = draw_line(&mut mmu, 0, PITCH);
    assert_eq!(pixel(&fb, PITCH, 0, 0), [UNTOUCHED; 3]);
    assert_eq!(pixel(&fb, PITCH, 7, 0), YELLOW);
    // Flipped top to bottom: line 0 shows the tile's last row.
    set_sprite(&mut mmu, 0, 16, 8, 2, 0x40);
    let fb = draw_line(&mut mmu, 0, PITCH);
    assert_eq!(pixel(&fb, PITCH, 7, 0), BLACK);
    assert_eq!(pixel(&fb, PITCH, 0, 0), [UNTOUCHED; 3]);
    let fb = draw_line(&mut mmu, 7, PITCH);
    assert_eq!(pixel(&fb, PITCH, 0, 7), YELLOW);
    // Both flips, with the second palette: color 3 becomes shade 0.
    set_sprite(&mut mmu, 0, 16, 8, 2, 0x70);
    let fb = draw_line(&mut mmu, 0, PITCH);
    assert_eq!(pixel(&fb, PITCH, 0, 0), WHITE);
    assert_eq!(pixel(&fb, PITCH, 1, 0), [UNTOUCHED; 3]);
}

#[test]
fn sprite_is_clipped_at_the_screen_edges() {
    let mut mmu = blank_bus();
    mmu.write_byte(0xFF40, 0x82);
    mmu.write_byte(0xFF48, 0xE4);
    set_tile_row(&mut mmu, 2, 0, 0xFF, 0x00);
    set_tile_row(&mut mmu, 2, 3, 0xFF, 0xFF);
    // Three columns off the left edge, three lines off the top.
    set_sprite(&mut mmu, 0, 13, 5, 2, 0x00);
    // Five columns off the right edge.
    set_sprite(&mut mmu, 1, 16, 165, 2, 0x00);
    // Wholly off the screen to the left, and to the right.
    set_sprite(&mut mmu, 2, 16, 0, 2, 0x00);
    set_sprite(&mut mmu, 3, 16, 168, 2, 0x00);
    let fb = draw_line(&mut mmu, 0, PITCH);
    assert_eq!(pixel(&fb, PITCH, 0, 0), BLACK);
    assert_eq!(pixel(&fb, PITCH, 4, 0), BLACK);
    assert_eq!(pixel(&fb, PITCH, 5, 0), [UNTOUCHED; 3]);
    assert_eq!(pixel(&fb, PITCH, 156, 0), [UNTOUCHED; 3]);
    assert_eq!(pixel(&fb, PITCH, 157, 0), YELLOW);
    assert_eq!(pixel(&fb, PITCH, 159, 0), YELLOW);
    assert!(fb[480..].iter().all(|b| *b == UNTOUCHED));
}

#[test]
fn later_sprites_are_drawn_over_earlier_ones() {
    let mut mmu = blank_bus();
    mmu.write_byte(0xFF40, 0x82);
    mmu.write_byte(0xFF48, 0xE4);
    set_tile_row(&mut mmu, 2, 0, 0xFF, 0x00);
    set_tile_row(&mut mmu, 3, 0, 0x00, 0xF0);
    set_sprite(&mut mmu, 0, 16, 8, 2, 0x00);
    set_sprite(&mut mmu, 5, 16, 12, 3, 0x00);
    let fb = draw_line(&mut mmu, 0, PITCH);
    assert_eq!(pixel(&fb, PITCH, 0, 0), YELLOW);
    assert_eq!(pixel(&fb, PITCH, 3, 0), YELLOW);
    assert_eq!(pixel(&fb, PITCH, 4, 0), RED);
    assert_eq!(pixel(&fb, PITCH, 7, 0), RED);
    assert_eq!(pixel(&fb, PITCH, 8, 0), [UNTOUCHED; 3]);
}

#[test]
fn only_ten_sprites_are_drawn_on_a_line() {
    let mut mmu = blank_bus();
    mmu.write_byte(0xFF40, 0x82);
    mmu.write_byte(0xFF48, 0xE4);
    set_tile_row(&mut mmu, 2, 0, 0xFF, 0x00);
    // Entry 0 is on another line and does not count.
    set_sprite(&mut mmu, 0, 40, 8, 2, 0x00);
    for i in 0..12u16 {
        set_sprite(&mut mmu, 1 + i, 16, 8 + 8 * i as u8, 2, 0x00);
    }
    let fb = draw_line(&mut mmu, 0, PITCH);
    for x in 0..80 {
        assert_eq!(pixel(&fb, PITCH, x, 0), YELLOW);
    }
    for x in 80..160 {
        assert_eq!(pixel(&fb, PITCH, x, 0), [UNTOUCHED; 3]);
    }
}

#[test]
fn sprites_off_means_no_sprites() {
    let mut mmu = blank_bus();
    mmu.write_byte(0xFF40, 0x91);
    mmu.write_byte(0xFF48, 0xE4);
    set_tile_row(&mut mmu, 2, 0, 0xFF, 0xFF);
    set_sprite(&mut mmu, 0, 16, 8, 2, 0x00);
    let fb = draw_line(&mut mmu, 0, PITCH);
    assert_eq!(pixel(&fb, PITCH, 0, 0), WHITE);
}
