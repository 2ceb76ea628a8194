use crate::alu::signed;
use crate::mmu::{BusState, IFLAG, LCDC, LY, MMU};
use vstd::prelude::*;

verus! {

pub const SCREEN_WIDTH: u8 = 160;

pub const SCREEN_HEIGHT: u8 = 144;

/// Clock ticks in one scanline.
pub const LINE_TICKS: u16 = 456;

/// Scanlines in one frame, the ten of the vertical blank included.
pub const FRAME_LINES: u8 = 154;

/// Scroll registers, palette registers and the object table.
pub const SCY: u16 = 0xFF42;

pub const SCX: u16 = 0xFF43;

pub const BGP: u16 = 0xFF47;

pub const OBP0: u16 = 0xFF48;

pub const OBP1: u16 = 0xFF49;

pub const OAM_BASE: u16 = 0xFE00;

/// Four shades, light to dark, each as red, green and blue.
#[derive(Clone, Copy, Debug)]
pub struct Palette {
    pub colors: [[u8; 3]; 4],
}

fn same_rgb(a: &[u8; 3], b: &[u8; 3]) -> (r: bool)
    ensures
        r == (*a == *b),
{
    let r = a[0] == b[0] && a[1] == b[1] && a[2] == b[2];
    proof {
        if r {
            assert(a@ =~= b@);
            assert(*a =~= *b);
        }
    }
    r
}

impl PartialEq for Palette {
    fn eq(&self, other: &Palette) -> (r: bool) {
        let r = same_rgb(&self.colors[0], &other.colors[0]) && same_rgb(
            &self.colors[1],
            &other.colors[1],
        ) && same_rgb(&self.colors[2], &other.colors[2]) && same_rgb(
            &self.colors[3],
            &other.colors[3],
        );
        proof {
            if r {
                assert(self.colors@ =~= other.colors@);
                assert(self.colors =~= other.colors);
            }
        }
        r
    }
}

impl vstd::std_specs::cmp::PartialEqSpecImpl for Palette {
    open spec fn obeys_eq_spec() -> bool {
        true
    }

    open spec fn eq_spec(&self, other: &Palette) -> bool {
        self.colors == other.colors
    }
}

/// The greenish palette of the handheld's own screen.
pub open spec fn green_palette_spec() -> Palette {
    Palette { colors: [[224, 248, 208], [136, 192, 112], [52, 104, 86], [8, 24, 32]] }
}

/// A palette of white, yellow, red and black.
pub open spec fn color_palette_spec() -> Palette {
    Palette { colors: [[255, 255, 255], [255, 255, 0], [255, 0, 0], [0, 0, 0]] }
}

/// The greenish palette.
pub fn green_palette() -> (p: Palette)
    ensures
        p == green_palette_spec(),
{
    Palette { colors: [[224, 248, 208], [136, 192, 112], [52, 104, 86], [8, 24, 32]] }
}

/// The palette of white, yellow, red and black.
pub fn color_palette() -> (p: Palette)
    ensures
        p == color_palette_spec(),
{
    Palette { colors: [[255, 255, 255], [255, 255, 0], [255, 0, 0], [0, 0, 0]] }
}

/// The four modes that the video controller goes through.
#[derive(Clone, Copy, Debug, PartialEq, Eq, Structural)]
pub enum PPUMode {
    /// End of a visible line.
    HBlank,
    /// The ten lines after the last visible one.
    VBlank,
    /// Search of the object table, at the start of a visible line.
    Oam,
    /// Transfer of pixels.
    Vram,
}

/// The mode at tick `dot` of line `ly`.
pub open spec fn mode_at(ly: u8, dot: u16) -> PPUMode {
    if ly >= 144 {
        PPUMode::VBlank
    } else if dot < 80 {
        PPUMode::Oam
    } else if dot < 252 {
        PPUMode::Vram
    } else {
        PPUMode::HBlank
    }
}

/// The 2-bit color index of one pixel, from the two bit planes of its row.
pub open spec fn color_id_spec(b0: u8, b1: u8, bit: u8) -> u8 {
    (((b1 >> bit) & 1) << 1) | ((b0 >> bit) & 1)
}

/// The shade that a palette register gives to a color index.
pub open spec fn shade_spec(pal: u8, color: u8) -> u8 {
    (pal >> ((color * 2) as u8)) & 0b11
}

/// Reads the color index of one pixel from the two bit planes of its row.
pub fn color_id(b0: u8, b1: u8, bit: u8) -> (c: u8)
    requires
        bit < 8,
    ensures
        c == color_id_spec(b0, b1, bit),
        c < 4,
{
    assert((((b1 >> bit) & 1) << 1) | ((b0 >> bit) & 1) < 4) by (bit_vector)
        requires
            bit < 8,
    ;
    (((b1 >> bit) & 1) << 1) | ((b0 >> bit) & 1)
}

/// Looks a color index up in a palette register.
pub fn shade(pal: u8, color: u8) -> (s: u8)
    requires
        color < 4,
    ensures
        s == shade_spec(pal, color),
        s < 4,
{
    let by: u8 = color * 2;
    assert((pal >> by) & 0b11 < 4) by (bit_vector);
    (pal >> by) & 0b11
}

/// The frame buffer after the pixel at column `x` of row `y` is given the
/// color `rgb`; rows are `pitch` bytes apart.
pub open spec fn put_px_spec(fb: Seq<u8>, pitch: int, x: int, y: int, rgb: [u8; 3]) -> Seq<u8> {
    let i = y * pitch + x * 3;
    fb.update(i, rgb[0]).update(i + 1, rgb[1]).update(i + 2, rgb[2])
}

/// Whether a frame buffer with rows `pitch` bytes apart holds every pixel of
/// the screen.
pub open spec fn holds_screen(len: int, pitch: int) -> bool {
    143 * pitch + 480 <= len
}

/// Whether the background is drawn: the display and the background are both
/// switched on.
pub open spec fn background_on(bus: BusState) -> bool {
    bus.peek(LCDC) & 0x80 != 0 && bus.peek(LCDC) & 0x01 != 0
}

/// Whether objects are drawn: the display and the objects are both switched
/// on.
pub open spec fn sprites_on(bus: BusState) -> bool {
    bus.peek(LCDC) & 0x80 != 0 && bus.peek(LCDC) & 0x02 != 0
}

/// Address of the first byte of a background tile's data: counted up from
/// 0x8000 by an unsigned index, or from 0x9000 by a signed one.
pub open spec fn tile_data_addr(lcdc: u8, index: u8) -> int {
    if lcdc & 0x10 != 0 {
        0x8000 + index * 16
    } else {
        0x9000 + signed(index) * 16
    }
}

/// Address of the entry of the background map for the point at column
/// `src_x` and row `src_y` of the 256 by 256 background: the map has 32
/// entries to a row, one for each tile of 8 by 8, and starts at one of two
/// addresses.
pub open spec fn tile_map_addr(lcdc: u8, src_x: u8, src_y: u8) -> int {
    (if lcdc & 0x08 != 0 {
        0x9C00int
    } else {
        0x9800int
    }) + (src_y / 8) * 32 + src_x / 8
}

/// Address of the two bit planes of row `src_y` of a background tile.
pub open spec fn tile_row_addr(lcdc: u8, index: u8, src_y: u8) -> int {
    tile_data_addr(lcdc, index) + (src_y % 8) * 2
}

/// The shade of the background at column `x` of line `ly`: the point of the
/// background that the scroll registers put there, looked up in the map, in
/// the tile's data, and in the background palette.
pub open spec fn bg_shade(bus: BusState, ly: u8, x: int) -> u8 {
    let lcdc = bus.peek(LCDC);
    let src_y = ((ly + bus.peek(SCY)) % 256) as u8;
    let src_x = ((x + bus.peek(SCX)) % 256) as u8;
    let index = bus.peek(tile_map_addr(lcdc, src_x, src_y) as u16);
    let row = tile_row_addr(lcdc, index, src_y);
    let b0 = bus.peek(row as u16);
    let b1 = bus.peek((row + 1) as u16);
    shade_spec(bus.peek(BGP), color_id_spec(b0, b1, (7 - src_x % 8) as u8))
}

/// The frame buffer after the background of line `ly` is drawn: each of the
/// line's 160 pixels has the color of its shade, and no other byte changes.
/// Nothing is drawn below the screen, or with the background switched off.
pub open spec fn draw_background(
    fb: Seq<u8>,
    bus: BusState,
    ly: u8,
    pitch: int,
    palette: Palette,
) -> Seq<u8> {
    if ly >= SCREEN_HEIGHT || !background_on(bus) {
        fb
    } else {
        Seq::new(
            fb.len(),
            |j: int|
                if ly * pitch <= j < ly * pitch + 480 {
                    palette.colors[bg_shade(bus, ly, (j - ly * pitch) / 3) as int][(j - ly * pitch)
                        % 3]
                } else {
                    fb[j]
                },
        )
    }
}

/// An entry of the object table.
#[derive(Clone, Copy, Debug, PartialEq, Eq, Structural)]
pub struct Sprite {
    /// Top of the object, 16 lines below the screen's first.
    pub y: u8,
    /// Left edge of the object, 8 columns right of the screen's first.
    pub x: u8,
    pub tile: u8,
    /// Bit 4 picks the palette, bit 5 flips left to right, bit 6 top to
    /// bottom.
    pub attr: u8,
}

impl Sprite {
    /// Entry `i` of the object table.
    pub open spec fn at(bus: BusState, i: int) -> Sprite {
        Sprite {
            y: bus.peek((OAM_BASE + i * 4) as u16),
            x: bus.peek((OAM_BASE + i * 4 + 1) as u16),
            tile: bus.peek((OAM_BASE + i * 4 + 2) as u16),
            attr: bus.peek((OAM_BASE + i * 4 + 3) as u16),
        }
    }

    /// Whether the object's eight lines include line `ly`.
    pub open spec fn covers(self, ly: u8) -> bool {
        self.y - 16 <= ly < self.y - 8
    }

    /// The row of the tile that shows on line `ly`.
    pub open spec fn row(self, ly: u8) -> int {
        if self.attr & 0x40 != 0 {
            7 - (ly - (self.y - 16))
        } else {
            ly - (self.y - 16)
        }
    }

    /// The bit of the row's planes that shows at the object's column `px`.
    pub open spec fn bit(self, px: int) -> u8 {
        if self.attr & 0x20 != 0 {
            px as u8
        } else {
            (7 - px) as u8
        }
    }

    /// Address of the two bit planes of the row that shows on line `ly`.
    pub open spec fn row_addr(self, ly: u8) -> int {
        0x8000 + self.tile * 16 + self.row(ly) * 2
    }

    /// The palette register that colors the object.
    pub open spec fn palette_reg(self) -> u16 {
        if self.attr & 0x10 != 0 {
            OBP1
        } else {
            OBP0
        }
    }
}

/// The frame buffer after the first `n` pixels of an object's row are drawn
/// on line `ly`: a pixel of color zero is left as it is, and so is one that
/// falls off the screen.
pub open spec fn draw_sprite_row(
    fb: Seq<u8>,
    pitch: int,
    ly: u8,
    sprite: Sprite,
    b0: u8,
    b1: u8,
    pal: u8,
    palette: Palette,
    n: int,
) -> Seq<u8>
    decreases n,
{
    if n <= 0 {
        fb
    } else {
        let drawn = draw_sprite_row(fb, pitch, ly, sprite, b0, b1, pal, palette, n - 1);
        let color = color_id_spec(b0, b1, sprite.bit(n - 1));
        let x = sprite.x - 8 + (n - 1);
        if color != 0 && 0 <= x < 160 {
            put_px_spec(drawn, pitch, x, ly as int, palette.colors[shade_spec(pal, color) as int])
        } else {
            drawn
        }
    }
}

/// The frame buffer after object `i` is drawn on line `ly`.
pub open spec fn draw_sprite(
    fb: Seq<u8>,
    bus: BusState,
    ly: u8,
    pitch: int,
    palette: Palette,
    i: int,
) -> Seq<u8> {
    let sprite = Sprite::at(bus, i);
    draw_sprite_row(
        fb,
        pitch,
        ly,
        sprite,
        bus.peek(sprite.row_addr(ly) as u16),
        bus.peek((sprite.row_addr(ly) + 1) as u16),
        bus.peek(sprite.palette_reg()),
        palette,
        8,
    )
}

/// The frame buffer after the first `n` entries of the object table are gone
/// through on line `ly`, and the number of objects drawn: the objects that
/// cover the line are drawn in table order, a later one over an earlier one,
/// until ten have been drawn.
pub open spec fn draw_objects(
    fb: Seq<u8>,
    bus: BusState,
    ly: u8,
    pitch: int,
    palette: Palette,
    n: int,
) -> (Seq<u8>, int)
    decreases n,
{
    if n <= 0 {
        (fb, 0)
    } else {
        let (before, count) = draw_objects(fb, bus, ly, pitch, palette, n - 1);
        if count < 10 && Sprite::at(bus, n - 1).covers(ly) {
            (draw_sprite(before, bus, ly, pitch, palette, n - 1), count + 1)
        } else {
            (before, count)
        }
    }
}

/// The frame buffer after the objects of line `ly` are drawn. Nothing is
/// drawn below the screen, or with the objects switched off.
pub open spec fn draw_sprites(
    fb: Seq<u8>,
    bus: BusState,
    ly: u8,
    pitch: int,
    palette: Palette,
) -> Seq<u8> {
    if ly >= SCREEN_HEIGHT || !sprites_on(bus) {
        fb
    } else {
        draw_objects(fb, bus, ly, pitch, palette, 40).0
    }
}

/// The video controller: the current scanline, the tick within it, the mode,
/// whether a frame has been completed since the flag was last read, and the
/// palette in use.
#[derive(Clone, Copy, Debug)]
pub struct PPU {
    /// Current scanline, from 0 to 153.
    pub ly: u8,
    pub mode: PPUMode,
    /// Clock ticks since the line began, from 0 to 455.
    pub dot: u16,
    pub frame_ready: bool,
    pub palette: Palette,
}

/// The bus after line `ly` is entered: the line number is written to its
/// register, and on entry to line 144 the vertical-blank interrupt is
/// requested.
pub open spec fn enter_line(bus: BusState, ly: u8) -> BusState {
    let entered = bus.write(LY, ly, 0);
    if ly == 144 {
        entered.write(IFLAG, entered.peek(IFLAG) | 0x01, 0)
    } else {
        entered
    }
}

/// The video controller with the bus it reads and the frame buffer it draws
/// into.
pub struct Video {
    pub ppu: PPU,
    pub bus: BusState,
    pub fb: Seq<u8>,
}

impl PPU {
    /// The line and the tick are in range, and the mode is the one that
    /// belongs to them.
    pub open spec fn wf(self) -> bool {
        &&& self.ly < FRAME_LINES
        &&& self.dot < LINE_TICKS
        &&& self.mode == mode_at(self.ly, self.dot)
    }

    /// The controller at power-on: first tick of the first line, no frame
    /// completed, the color palette.
    pub open spec fn power_on() -> PPU {
        PPU {
            ly: 0,
            mode: PPUMode::Oam,
            dot: 0,
            frame_ready: false,
            palette: color_palette_spec(),
        }
    }

    /// The controller at the start of the next line: the line number goes up
    /// by one and wraps past 153; entry to line 144 marks the frame as
    /// completed.
    pub open spec fn line_after(self) -> PPU {
        let ly: u8 = if self.ly >= 153 {
            0
        } else {
            (self.ly + 1) as u8
        };
        PPU {
            ly,
            dot: 0,
            mode: mode_at(ly, 0),
            frame_ready: self.frame_ready || ly == 144,
            ..self
        }
    }

    /// The controller drawing into `fb` from `bus`.
    pub open spec fn on(self, bus: BusState, fb: Seq<u8>) -> Video {
        Video { ppu: self, bus, fb }
    }
}

impl Video {
    /// The state at the start of the next line.
    pub open spec fn next_line(self) -> Video {
        let ppu = self.ppu.line_after();
        Video { ppu, bus: enter_line(self.bus, ppu.ly), fb: self.fb }
    }

    /// The state after the current line is drawn: the background first, then
    /// the objects over it.
    pub open spec fn render_line(self, pitch: int) -> Video {
        let p = self.ppu;
        Video {
            fb: draw_sprites(
                draw_background(self.fb, self.bus, p.ly, pitch, p.palette),
                self.bus,
                p.ly,
                pitch,
                p.palette,
            ),
            ..self
        }
    }

    /// The state after one clock tick. The tick counter goes up and, at 456,
    /// starts the next line; the mode follows the line and the tick; a
    /// visible line is drawn at its tick 252, and at no other.
    pub open spec fn tick(self, pitch: int) -> Video {
        let v = if self.ppu.dot + 1 >= LINE_TICKS {
            self.next_line()
        } else {
            Video {
                ppu: PPU {
                    dot: (self.ppu.dot + 1) as u16,
                    mode: mode_at(self.ppu.ly, (self.ppu.dot + 1) as u16),
                    ..self.ppu
                },
                ..self
            }
        };
        if v.ppu.dot == 252 && v.ppu.ly < 144 {
            v.render_line(pitch)
        } else {
            v
        }
    }

    /// The state after `n` clock ticks, taken one by one.
    pub open spec fn run(self, n: nat, pitch: int) -> Video
        decreases n,
    {
        if n == 0 {
            self
        } else {
            self.run((n - 1) as nat, pitch).tick(pitch)
        }
    }
}

/// Once ten objects are drawn, the rest of the table changes nothing.
proof fn lemma_objects_full(
    fb: Seq<u8>,
    bus: BusState,
    ly: u8,
    pitch: int,
    palette: Palette,
    i: int,
    n: int,
)
    requires
        0 <= i <= n,
        draw_objects(fb, bus, ly, pitch, palette, i).1 >= 10,
    ensures
        draw_objects(fb, bus, ly, pitch, palette, n) == draw_objects(
            fb,
            bus,
            ly,
            pitch,
            palette,
            i,
        ),
    decreases n - i,
{
    if i < n {
        lemma_objects_full(fb, bus, ly, pitch, palette, i, n - 1);
    }
}

/// Gives the pixel at column `x` of row `y` the color of `shade`.
fn put_px(fb: &mut [u8], pitch: usize, x: usize, y: usize, shade: u8, palette: Palette)
    requires
        x < 160,
        y < 144,
        shade < 4,
        holds_screen(old(fb)@.len() as int, pitch as int),
    ensures
        final(fb)@ == put_px_spec(
            old(fb)@,
            pitch as int,
            x as int,
            y as int,
            palette.colors[shade as int],
        ),
        final(fb)@.len() == old(fb)@.len(),
{
    proof {
        broadcast use vstd::slice::axiom_spec_len;

        assert(vstd::slice::spec_slice_len(fb) == fb@.len());
        assert(y * pitch <= 143 * pitch) by (nonlinear_arith)
            requires
                y <= 143,
        ;
    }
    let row_start = y * pitch;
    let i = row_start + x * 3;
    let c = palette.colors[shade as usize];
    fb[i] = c[0];
    fb[i + 1] = c[1];
    fb[i + 2] = c[2];
}

/// Computes the address of a background map entry.
fn map_entry_addr(lcdc: u8, src_x: u8, src_y: u8) -> (addr: u16)
    ensures
        addr == tile_map_addr(lcdc, src_x, src_y),
        0x9800 <= addr < 0xA000,
{
    let tile_row = (src_y as u16) / 8;
    let tile_col = (src_x as u16) / 8;
    let bg_map_base: u16 = if (lcdc & 0x08) != 0 {
        0x9C00
    } else {
        0x9800
    };
    bg_map_base + tile_row * 32 + tile_col
}

/// Computes the address of a row of a background tile's data.
fn tile_row(lcdc: u8, index: u8, src_y: u8) -> (addr: u16)
    ensures
        addr == tile_row_addr(lcdc, index, src_y),
        0x8000 <= addr < 0x9FFF,
{
    let row_in_tile = (src_y % 8) as u16;
    let tile_addr: u16 = if (lcdc & 0x10) != 0 || index >= 128 {
        0x8000 + (index as u16) * 16
    } else {
        0x9000 + (index as u16) * 16
    };
    tile_addr + row_in_tile * 2
}

/// Reads the shade of the background at column `x` of line `ly`.
fn background_shade(mmu: &MMU, lcdc: u8, scx: u8, scy: u8, bgp: u8, ly: u8, x: u8) -> (s: u8)
    requires
        lcdc == mmu@.peek(LCDC),
        scx == mmu@.peek(SCX),
        scy == mmu@.peek(SCY),
        bgp == mmu@.peek(BGP),
    ensures
        s == bg_shade(mmu@, ly, x as int),
        s < 4,
{
    let src_y = ly.wrapping_add(scy);
    let src_x = x.wrapping_add(scx);
    assert(src_y == ((ly + scy) % 256) as u8);
    assert(src_x == ((x + scx) % 256) as u8);
    let map_addr = map_entry_addr(lcdc, src_x, src_y);
    let index = mmu.read_byte(map_addr);
    assert(index == mmu@.peek(tile_map_addr(lcdc, src_x, src_y) as u16));
    let row = tile_row(lcdc, index, src_y);
    let bit = 7 - (src_x % 8);
    let b0 = mmu.read_byte(row);
    let b1 = mmu.read_byte(row + 1);
    assert(b0 == mmu@.peek(tile_row_addr(lcdc, index, src_y) as u16));
    assert(b1 == mmu@.peek((tile_row_addr(lcdc, index, src_y) + 1) as u16));
    shade(bgp, color_id(b0, b1, bit))
}

/// Draws the pixels of one object's row on line `ly`.
fn render_sprite_row(
    fb: &mut [u8],
    pitch: usize,
    ly: u8,
    sprite: Sprite,
    b0: u8,
    b1: u8,
    pal: u8,
    palette: Palette,
)
    requires
        ly < 144,
        holds_screen(old(fb)@.len() as int, pitch as int),
    ensures
        final(fb)@ == draw_sprite_row(old(fb)@, pitch as int, ly, sprite, b0, b1, pal, palette, 8),
        final(fb)@.len() == old(fb)@.len(),
{
    let mut px: u8 = 0;
    while px < 8
        invariant
            px <= 8,
            ly < 144,
            fb@.len() == old(fb)@.len(),
            holds_screen(fb@.len() as int, pitch as int),
            fb@ == draw_sprite_row(
                old(fb)@,
                pitch as int,
                ly,
                sprite,
                b0,
                b1,
                pal,
                palette,
                px as int,
            ),
        decreases 8 - px,
    {
        let bit = if (sprite.attr & 0x20) != 0 {
            px
        } else {
            7 - px
        };
        let color = color_id(b0, b1, bit);
        let column = sprite.x as u16 + px as u16;
        if color != 0 && column >= 8 && column < 168 {
            put_px(fb, pitch, (column - 8) as usize, ly as usize, shade(pal, color), palette);
        }
        px += 1;
    }
}

impl PPU {
    /// A controller at the first tick of the first line, with the color
    /// palette.
    pub fn new() -> (ppu: PPU)
        ensures
            ppu == PPU::power_on(),
            ppu.wf(),
    {
        PPU { ly: 0, mode: PPUMode::Oam, dot: 0, frame_ready: false, palette: color_palette() }
    }

    /// Advances the controller by `tcycles` clock ticks, one at a time, and
    /// draws each visible line into `framebuffer` at the line's tick 252.
    pub fn step(&mut self, mmu: &mut MMU, tcycles: u32, framebuffer: &mut [u8], pitch: usize)
        requires
            old(self).wf(),
            holds_screen(old(framebuffer)@.len() as int, pitch as int),
        ensures
            final(self).wf(),
            final(framebuffer)@.len() == old(framebuffer)@.len(),
            final(self).on(final(mmu)@, final(framebuffer)@) == old(self).on(
                old(mmu)@,
                old(framebuffer)@,
            ).run(tcycles as nat, pitch as int),
    {
        let mut i: u32 = 0;
        while i < tcycles
            invariant
                i <= tcycles,
                self.wf(),
                framebuffer@.len() == old(framebuffer)@.len(),
                holds_screen(framebuffer@.len() as int, pitch as int),
                self.on(mmu@, framebuffer@) == old(self).on(old(mmu)@, old(framebuffer)@).run(
                    i as nat,
                    pitch as int,
                ),
            decreases tcycles - i,
        {
            let ghost before = self.on(mmu@, framebuffer@);
            self.dot += 1;
            if self.dot == LINE_TICKS {
                self.dot = 0;
                self.next_line(mmu);
            }
            let new_mode = if self.ly >= 144 {
                PPUMode::VBlank
            } else if self.dot < 80 {
                PPUMode::Oam
            } else if self.dot < 252 {
                PPUMode::Vram
            } else {
                PPUMode::HBlank
            };
            if new_mode != self.mode {
                self.mode = new_mode;
            }
            if self.mode == PPUMode::HBlank && self.dot == 252 && self.ly < 144 {
                self.render_bg_line(mmu, framebuffer, pitch);
                self.render_sprites_line(mmu, framebuffer, pitch);
            }
            assert(self.on(mmu@, framebuffer@) == before.tick(pitch as int));
            i += 1;
        }
    }

    /// Starts the next scanline.
    fn next_line(&mut self, mmu: &mut MMU)
        requires
            old(self).ly < FRAME_LINES,
        ensures
            *final(self) == old(self).line_after(),
            final(mmu)@ == enter_line(old(mmu)@, final(self).ly),
    {
        self.dot = 0;
        self.ly = if self.ly >= 153 {
            0
        } else {
            self.ly + 1
        };
        mmu.write_byte(LY, self.ly);
        if self.ly == 144 {
            self.mode = PPUMode::VBlank;
            let iflag = mmu.read_byte(IFLAG) | 0x01;
            mmu.write_byte(IFLAG, iflag);
            self.frame_ready = true;
        } else if self.ly < 144 {
            self.mode = PPUMode::Oam;
        } else {
            self.mode = PPUMode::VBlank;
        }
    }

    /// Draws the background of the current line.
    fn render_bg_line(&self, mmu: &MMU, fb: &mut [u8], pitch: usize)
        requires
            holds_screen(old(fb)@.len() as int, pitch as int),
        ensures
            final(fb)@ == draw_background(old(fb)@, mmu@, self.ly, pitch as int, self.palette),
            final(fb)@.len() == old(fb)@.len(),
    {
        let y = self.ly;
        if y >= SCREEN_HEIGHT {
            return ;
        }
        let lcdc = mmu.read_byte(LCDC);
        if (lcdc & 0x80) == 0 {
            return ;
        }
        if (lcdc & 0x01) == 0 {
            return ;
        }
        let scx = mmu.read_byte(SCX);
        let scy = mmu.read_byte(SCY);
        let bgp = mmu.read_byte(BGP);
        assert(y * pitch <= 143 * pitch) by (nonlinear_arith)
            requires
                y <= 143,
        ;
        let ghost row = y * pitch;
        let mut x: u8 = 0;
        while x < SCREEN_WIDTH
            invariant
                x <= SCREEN_WIDTH,
                y == self.ly,
                y < 144,
                row == y * pitch,
                row + 480 <= fb@.len(),
                lcdc == mmu@.peek(LCDC),
                scx == mmu@.peek(SCX),
                scy == mmu@.peek(SCY),
                bgp == mmu@.peek(BGP),
                fb@.len() == old(fb)@.len(),
                holds_screen(fb@.len() as int, pitch as int),
                forall|j: int|
                    0 <= j < fb@.len() ==> #[trigger] fb@[j] == if row <= j < row + 3 * x {
                        self.palette.colors[bg_shade(mmu@, y, (j - row) / 3) as int][(j - row) % 3]
                    } else {
                        old(fb)@[j]
                    },
            decreases SCREEN_WIDTH - x,
        {
            let s = background_shade(mmu, lcdc, scx, scy, bgp, y, x);
            put_px(fb, pitch, x as usize, y as usize, s, self.palette);
            x += 1;
        }
        assert(fb@ =~= draw_background(old(fb)@, mmu@, self.ly, pitch as int, self.palette));
    }

    /// Draws the objects of the current line.
    fn render_sprites_line(&self, mmu: &MMU, fb: &mut [u8], pitch: usize)
        requires
            holds_screen(old(fb)@.len() as int, pitch as int),
        ensures
            final(fb)@ == draw_sprites(old(fb)@, mmu@, self.ly, pitch as int, self.palette),
            final(fb)@.len() == old(fb)@.len(),
    {
        let y = self.ly;
        if y >= SCREEN_HEIGHT {
            return ;
        }
        let lcdc = mmu.read_byte(LCDC);
        if (lcdc & 0x80) == 0 {
            return ;
        }
        if (lcdc & 0x02) == 0 {
            return ;
        }
        let obp0 = mmu.read_byte(OBP0);
        let obp1 = mmu.read_byte(OBP1);
        let mut drawn: u8 = 0;
        let mut i: u16 = 0;
        while i < 40 && drawn < 10
            invariant
                i <= 40,
                drawn <= 10,
                y == self.ly,
                y < 144,
                obp0 == mmu@.peek(OBP0),
                obp1 == mmu@.peek(OBP1),
                fb@.len() == old(fb)@.len(),
                holds_screen(fb@.len() as int, pitch as int),
                (fb@, drawn as int) == draw_objects(
                    old(fb)@,
                    mmu@,
                    y,
                    pitch as int,
                    self.palette,
                    i as int,
                ),
            decreases 40 - i,
        {
            let idx = OAM_BASE + i * 4;
            let sprite = Sprite {
                y: mmu.read_byte(idx),
                x: mmu.read_byte(idx + 1),
                tile: mmu.read_byte(idx + 2),
                attr: mmu.read_byte(idx + 3),
            };
            assert(sprite == Sprite::at(mmu@, i as int));
            let line16 = y as u16 + 16;
            if line16 >= sprite.y as u16 && line16 < sprite.y as u16 + 8 {
                let pal = if (sprite.attr & 0x10) != 0 {
                    obp1
                } else {
                    obp0
                };
                let offset = line16 - sprite.y as u16;
                let line = if (sprite.attr & 0x40) != 0 {
                    7 - offset
                } else {
                    offset
                };
                let tile_addr = 0x8000u16 + (sprite.tile as u16) * 16 + line * 2;
                let b0 = mmu.read_byte(tile_addr);
                let b1 = mmu.read_byte(tile_addr + 1);
                render_sprite_row(fb, pitch, y, sprite, b0, b1, pal, self.palette);
                drawn += 1;
            }
            i += 1;
        }
        proof {
            if drawn >= 10 {
                lemma_objects_full(old(fb)@, mmu@, y, pitch as int, self.palette, i as int, 40);
            }
        }
    }

    /// Tells whether a frame has been completed since the last call, and
    /// clears the flag.
    pub fn is_frame_ready(&mut self) -> (ready: bool)
        ensures
            ready == old(self).frame_ready,
            *final(self) == (PPU { frame_ready: false, ..*old(self) }),
    {
        let r = self.frame_ready;
        self.frame_ready = false;
        r
    }

    /// Puts another palette in use.
    pub fn set_palette(&mut self, palette: Palette)
        ensures
            *final(self) == (PPU { palette, ..*old(self) }),
    {
        self.palette = palette;
    }

    /// The palette in use.
    pub fn get_palette(&self) -> (palette: Palette)
        ensures
            palette == self.palette,
    {
        self.palette
    }
}

/// Clock ticks in one frame.
pub open spec fn frame_ticks() -> int {
    LINE_TICKS * FRAME_LINES
}

/// Clock ticks from the start of a frame to its entry into line 144.
pub open spec fn visible_ticks() -> int {
    LINE_TICKS * SCREEN_HEIGHT
}

impl PPU {
    /// Clock ticks since the frame began.
    pub open spec fn position(self) -> int {
        self.ly * LINE_TICKS + self.dot
    }
}

/// Whether line 144 is entered during the `n` ticks that follow position
/// `p` of a frame.
pub open spec fn enters_vblank(p: int, n: int) -> bool {
    exists|k: int| 1 <= k <= n && #[trigger] ((p + k) % frame_ticks()) == visible_ticks()
}

/// One tick on from position `q`, counted around the frame: the tick within
/// the line goes up by one or wraps to zero, in which case the line goes up
/// by one or wraps to zero; and line 144 is entered exactly when the new
/// position is that of its first tick.
proof fn lemma_next_position(q: int)
    requires
        q >= 0,
    ensures
        q % 456 < 455 ==> (q + 1) % 456 == q % 456 + 1 && (q + 1) / 456 % 154 == q / 456 % 154,
        q % 456 == 455 ==> (q + 1) % 456 == 0 && (q + 1) / 456 % 154 == (if q / 456 % 154
            >= 153 {
            0
        } else {
            q / 456 % 154 + 1
        }),
        ((q + 1) % 70224 == 65664) == ((q + 1) / 456 % 154 == 144 && (q + 1) % 456 == 0),
{
}

/// Timing in closed form. After `n` ticks from a valid state, the tick within
/// the line and the line are those of the position `n` ticks on, counted
/// around the frame; the mode is the one that belongs to them; the palette
/// is unchanged; and a frame is marked as completed if one was before, or if
/// line 144 was entered on the way.
pub proof fn lemma_timing(v: Video, n: nat, pitch: int)
    requires
        v.ppu.wf(),
    ensures
        v.run(n, pitch).ppu.wf(),
        v.run(n, pitch).ppu.dot == (v.ppu.position() + n) % (LINE_TICKS as int),
        v.run(n, pitch).ppu.ly == (v.ppu.position() + n) / (LINE_TICKS as int) % (
        FRAME_LINES as int),
        v.run(n, pitch).ppu.palette == v.ppu.palette,
        v.run(n, pitch).ppu.frame_ready == (v.ppu.frame_ready || enters_vblank(
            v.ppu.position(),
            n as int,
        )),
    decreases n,
{
    let p = v.ppu.position();
    if n == 0 {
        assert(!enters_vblank(p, 0));
    } else {
        lemma_timing(v, (n - 1) as nat, pitch);
        let before = v.run((n - 1) as nat, pitch);
        let after = before.tick(pitch);
        let q = p + n - 1;
        lemma_next_position(q);
        let entered = (q + 1) % 70224 == 65664;
        lemma_tick_timing(before, pitch);
        assert(after.ppu.frame_ready == (before.ppu.frame_ready || entered));
        if enters_vblank(p, n as int) {
            let k = choose|k: int|
                1 <= k <= n && #[trigger] ((p + k) % frame_ticks()) == visible_ticks();
            if k < n {
                assert(enters_vblank(p, n - 1));
            } else {
                assert(entered);
            }
        }
        if enters_vblank(p, n - 1) {
            let k = choose|k: int|
                1 <= k <= n - 1 && #[trigger] ((p + k) % frame_ticks()) == visible_ticks();
            assert(1 <= k <= n && (p + k) % frame_ticks() == visible_ticks());
        }
        if entered {
            assert((p + n) % frame_ticks() == visible_ticks());
        }
    }
}

/// What one tick does to the controller, apart from drawing.
proof fn lemma_tick_timing(v: Video, pitch: int)
    requires
        v.ppu.wf(),
    ensures
        v.tick(pitch).ppu.palette == v.ppu.palette,
        v.ppu.dot < 455 ==> v.tick(pitch).ppu.dot == v.ppu.dot + 1 && v.tick(pitch).ppu.ly
            == v.ppu.ly && v.tick(pitch).ppu.frame_ready == v.ppu.frame_ready,
        v.ppu.dot == 455 ==> v.tick(pitch).ppu.dot == 0 && v.tick(pitch).ppu.ly == (if v.ppu.ly
            >= 153 {
            0
        } else {
            v.ppu.ly + 1
        }) && v.tick(pitch).ppu.frame_ready == (v.ppu.frame_ready || v.ppu.ly == 143),
        v.tick(pitch).ppu.mode == mode_at(v.tick(pitch).ppu.ly, v.tick(pitch).ppu.dot),
{
}

/// From power-on, exactly 144 lines of ticks lead into line 144, in the
/// vertical blank, with a frame marked as completed; and exactly 154 lines
/// of ticks lead back to line 0.
pub proof fn lemma_first_frame(bus: BusState, fb: Seq<u8>, pitch: int)
    ensures
        PPU::power_on().on(bus, fb).run(65664, pitch).ppu.ly == 144,
        PPU::power_on().on(bus, fb).run(65664, pitch).ppu.dot == 0,
        PPU::power_on().on(bus, fb).run(65664, pitch).ppu.mode == PPUMode::VBlank,
        PPU::power_on().on(bus, fb).run(65664, pitch).ppu.frame_ready,
        PPU::power_on().on(bus, fb).run(70224, pitch).ppu.ly == 0,
        PPU::power_on().on(bus, fb).run(70224, pitch).ppu.dot == 0,
{
    let v = PPU::power_on().on(bus, fb);
    lemma_timing(v, 65664, pitch);
    lemma_timing(v, 70224, pitch);
    assert((0int + 65664int) % frame_ticks() == visible_ticks());
    assert(enters_vblank(0, 65664));
}

/// Running `a` ticks and then `b` more is running `a + b` ticks.
pub proof fn lemma_run_adds(v: Video, a: nat, b: nat, pitch: int)
    ensures
        v.run(a, pitch).run(b, pitch) == v.run(a + b, pitch),
    decreases b,
{
    if b > 0 {
        lemma_run_adds(v, a, (b - 1) as nat, pitch);
    }
}

/// Whether the pixel at column `x` of row `y` has the color `rgb`.
pub open spec fn pixel_is(fb: Seq<u8>, pitch: int, x: int, y: int, rgb: [u8; 3]) -> bool {
    let i = y * pitch + x * 3;
    fb[i] == rgb[0] && fb[i + 1] == rgb[1] && fb[i + 2] == rgb[2]
}

/// Whether the pixel at column `x` of row `y` has one of the palette's four
/// colors.
pub open spec fn painted(fb: Seq<u8>, pitch: int, palette: Palette, x: int, y: int) -> bool {
    exists|s: int| 0 <= s < 4 && #[trigger] pixel_is(fb, pitch, x, y, palette.colors[s])
}

/// Whether every pixel of row `y` has one of the palette's four colors.
pub open spec fn row_painted(fb: Seq<u8>, pitch: int, palette: Palette, y: int) -> bool {
    forall|x: int| 0 <= x < 160 ==> #[trigger] painted(fb, pitch, palette, x, y)
}

/// Whether two frame buffers agree on every byte outside row `y`.
pub open spec fn same_outside_row(a: Seq<u8>, b: Seq<u8>, pitch: int, y: int) -> bool {
    &&& a.len() == b.len()
    &&& forall|j: int|
        0 <= j < a.len() && !(y * pitch <= j < y * pitch + 480) ==> a[j] == #[trigger] b[j]
}

proof fn lemma_shade_in_range(pal: u8, color: u8)
    by (bit_vector)
    ensures
        (pal >> ((color * 2) as u8)) & 0b11 < 4,
{
}

/// Rows that are at least a row of pixels apart do not overlap, and every
/// row of the screen lies within a buffer that holds the screen.
proof fn lemma_rows_apart(pitch: int, y: int, other: int)
    by (nonlinear_arith)
    requires
        pitch >= 480,
        0 <= y < 144,
        0 <= other < 144,
        y != other,
    ensures
        y * pitch + 480 <= other * pitch || other * pitch + 480 <= y * pitch,
        0 <= y * pitch,
        y * pitch + 480 <= 143 * pitch + 480,
{
}

proof fn lemma_row_in_screen(pitch: int, y: int)
    by (nonlinear_arith)
    requires
        pitch >= 0,
        0 <= y < 144,
    ensures
        0 <= y * pitch,
        y * pitch + 480 <= 143 * pitch + 480,
{
}

/// Drawing a pixel of the palette in row `y` leaves the row painted if it
/// was, and changes nothing outside the row.
proof fn lemma_put_px_keeps_row(
    fb: Seq<u8>,
    pitch: int,
    palette: Palette,
    x: int,
    y: int,
    shade: int,
)
    requires
        0 <= x < 160,
        0 <= y < 144,
        0 <= shade < 4,
        pitch >= 0,
        holds_screen(fb.len() as int, pitch),
    ensures
        same_outside_row(put_px_spec(fb, pitch, x, y, palette.colors[shade]), fb, pitch, y),
        painted(put_px_spec(fb, pitch, x, y, palette.colors[shade]), pitch, palette, x, y),
        forall|z: int|
            0 <= z < 160 && painted(fb, pitch, palette, z, y) ==> #[trigger] painted(
                put_px_spec(fb, pitch, x, y, palette.colors[shade]),
                pitch,
                palette,
                z,
                y,
            ),
{
    lemma_row_in_screen(pitch, y);
    let after = put_px_spec(fb, pitch, x, y, palette.colors[shade]);
    let row = y * pitch;
    assert(pixel_is(after, pitch, x, y, palette.colors[shade]));
    assert forall|z: int| 0 <= z < 160 && painted(fb, pitch, palette, z, y) implies #[trigger] painted(
        after,
        pitch,
        palette,
        z,
        y,
    ) by {
        if z != x {
            let s = choose|s: int| 0 <= s < 4 && #[trigger] pixel_is(fb, pitch, z, y, palette.colors[s]);
            assert(pixel_is(after, pitch, z, y, palette.colors[s]));
        }
    }
}

/// Drawing an object's row on line `ly` leaves the row painted if it was,
/// and changes nothing outside the row.
proof fn lemma_sprite_row_keeps_row(
    fb: Seq<u8>,
    pitch: int,
    ly: u8,
    sprite: Sprite,
    b0: u8,
    b1: u8,
    pal: u8,
    palette: Palette,
    n: int,
)
    requires
        ly < 144,
        pitch >= 0,
        holds_screen(fb.len() as int, pitch),
    ensures
        same_outside_row(
            draw_sprite_row(fb, pitch, ly, sprite, b0, b1, pal, palette, n),
            fb,
            pitch,
            ly as int,
        ),
        row_painted(fb, pitch, palette, ly as int) ==> row_painted(
            draw_sprite_row(fb, pitch, ly, sprite, b0, b1, pal, palette, n),
            pitch,
            palette,
            ly as int,
        ),
    decreases n,
{
    if n > 0 {
        lemma_sprite_row_keeps_row(fb, pitch, ly, sprite, b0, b1, pal, palette, n - 1);
        let drawn = draw_sprite_row(fb, pitch, ly, sprite, b0, b1, pal, palette, n - 1);
        let color = color_id_spec(b0, b1, sprite.bit(n - 1));
        let x = sprite.x - 8 + (n - 1);
        if color != 0 && 0 <= x < 160 {
            lemma_shade_in_range(pal, color);
            lemma_put_px_keeps_row(drawn, pitch, palette, x, ly as int, shade_spec(pal, color) as int);
        }
    }
}

/// Going through the object table on line `ly` leaves the row painted if it
/// was, and changes nothing outside the row.
proof fn lemma_objects_keep_row(
    fb: Seq<u8>,
    bus: BusState,
    ly: u8,
    pitch: int,
    palette: Palette,
    n: int,
)
    requires
        ly < 144,
        pitch >= 0,
        holds_screen(fb.len() as int, pitch),
    ensures
        same_outside_row(draw_objects(fb, bus, ly, pitch, palette, n).0, fb, pitch, ly as int),
        row_painted(fb, pitch, palette, ly as int) ==> row_painted(
            draw_objects(fb, bus, ly, pitch, palette, n).0,
            pitch,
            palette,
            ly as int,
        ),
    decreases n,
{
    if n > 0 {
        lemma_objects_keep_row(fb, bus, ly, pitch, palette, n - 1);
        let (before, count) = draw_objects(fb, bus, ly, pitch, palette, n - 1);
        if count < 10 && Sprite::at(bus, n - 1).covers(ly) {
            let sprite = Sprite::at(bus, n - 1);
            lemma_sprite_row_keeps_row(
                before,
                pitch,
                ly,
                sprite,
                bus.peek(sprite.row_addr(ly) as u16),
                bus.peek((sprite.row_addr(ly) + 1) as u16),
                bus.peek(sprite.palette_reg()),
                palette,
                8,
            );
        }
    }
}

/// Drawing a visible line with the background switched on paints its row,
/// and changes nothing outside the row.
pub proof fn lemma_line_is_painted(v: Video, pitch: int)
    requires
        v.ppu.ly < 144,
        background_on(v.bus),
        pitch >= 0,
        holds_screen(v.fb.len() as int, pitch),
    ensures
        row_painted(v.render_line(pitch).fb, pitch, v.ppu.palette, v.ppu.ly as int),
        same_outside_row(v.render_line(pitch).fb, v.fb, pitch, v.ppu.ly as int),
        v.render_line(pitch).ppu == v.ppu,
        v.render_line(pitch).bus == v.bus,
{
    let ly = v.ppu.ly;
    let palette = v.ppu.palette;
    let row = ly * pitch;
    lemma_row_in_screen(pitch, ly as int);
    let bg = draw_background(v.fb, v.bus, ly, pitch, palette);
    assert forall|x: int| 0 <= x < 160 implies #[trigger] painted(bg, pitch, palette, x, ly as int) by {
        let s = bg_shade(v.bus, ly, x);
        let src_x = ((x + v.bus.peek(SCX)) % 256) as u8;
        let src_y = ((ly + v.bus.peek(SCY)) % 256) as u8;
        let index = v.bus.peek(tile_map_addr(v.bus.peek(LCDC), src_x, src_y) as u16);
        let addr = tile_row_addr(v.bus.peek(LCDC), index, src_y);
        lemma_shade_in_range(
            v.bus.peek(BGP),
            color_id_spec(
                v.bus.peek(addr as u16),
                v.bus.peek((addr + 1) as u16),
                (7 - src_x % 8) as u8,
            ),
        );
        assert(0 <= s < 4);
        let i = row + x * 3;
        assert((i - row) / 3 == x && (i - row) % 3 == 0);
        assert((i + 1 - row) / 3 == x && (i + 1 - row) % 3 == 1);
        assert((i + 2 - row) / 3 == x && (i + 2 - row) % 3 == 2);
        assert(pixel_is(bg, pitch, x, ly as int, palette.colors[s as int]));
    }
    assert(same_outside_row(bg, v.fb, pitch, ly as int));
    if sprites_on(v.bus) {
        lemma_objects_keep_row(bg, v.bus, ly, pitch, palette, 40);
    }
}

/// Whether line `y` is drawn during the `n` ticks that follow position `p`
/// of a frame: whether one of them is the line's tick 252.
pub open spec fn draws_line(p: int, n: int, y: int) -> bool {
    exists|k: int| 1 <= k <= n && #[trigger] ((p + k) % frame_ticks()) == y * 456 + 252
}

/// A position in the frame is tick 252 of line `y` exactly when its line is
/// `y` and its tick within the line is 252.
proof fn lemma_position_parts(q: int, y: int)
    requires
        q >= 0,
        0 <= y < 154,
    ensures
        (q % 70224 == y * 456 + 252) == (q / 456 % 154 == y && q % 456 == 252),
{
}

/// A row stays painted when only another row changes.
proof fn lemma_other_row_stays_painted(
    before: Seq<u8>,
    after: Seq<u8>,
    pitch: int,
    palette: Palette,
    changed: int,
    y: int,
)
    requires
        pitch >= 480,
        0 <= changed < 144,
        0 <= y < 144,
        y != changed,
        holds_screen(before.len() as int, pitch),
        same_outside_row(after, before, pitch, changed),
        row_painted(before, pitch, palette, y),
    ensures
        row_painted(after, pitch, palette, y),
{
    lemma_rows_apart(pitch, y, changed);
    assert forall|x: int| 0 <= x < 160 implies #[trigger] painted(after, pitch, palette, x, y) by {
        assert(painted(before, pitch, palette, x, y));
        let s = choose|s: int|
            0 <= s < 4 && #[trigger] pixel_is(before, pitch, x, y, palette.colors[s]);
        let i = y * pitch + x * 3;
        assert(after[i] == before[i]);
        assert(after[i + 1] == before[i + 1]);
        assert(after[i + 2] == before[i + 2]);
        assert(pixel_is(after, pitch, x, y, palette.colors[s]));
    }
}

/// With the background switched on, every line that is drawn during `n`
/// ticks has its row painted afterwards; the frame buffer keeps its length,
/// and the background stays switched on.
pub proof fn lemma_drawn_lines_are_painted(v: Video, n: nat, pitch: int)
    requires
        v.ppu.wf(),
        v.bus.wf(),
        background_on(v.bus),
        pitch >= 480,
        holds_screen(v.fb.len() as int, pitch),
    ensures
        v.run(n, pitch).fb.len() == v.fb.len(),
        v.run(n, pitch).bus.wf(),
        background_on(v.run(n, pitch).bus),
        forall|y: int|
            0 <= y < 144 && draws_line(v.ppu.position(), n as int, y) ==> #[trigger] row_painted(
                v.run(n, pitch).fb,
                pitch,
                v.ppu.palette,
                y,
            ),
    decreases n,
{
    let p = v.ppu.position();
    let palette = v.ppu.palette;
    if n == 0 {
        assert forall|y: int| 0 <= y < 144 implies !draws_line(p, 0, y) by {}
    } else {
        lemma_drawn_lines_are_painted(v, (n - 1) as nat, pitch);
        lemma_timing(v, (n - 1) as nat, pitch);
        lemma_timing(v, n, pitch);
        let before = v.run((n - 1) as nat, pitch);
        let after = before.tick(pitch);
        let moved = if before.ppu.dot + 1 >= LINE_TICKS {
            before.next_line()
        } else {
            Video {
                ppu: PPU {
                    dot: (before.ppu.dot + 1) as u16,
                    mode: mode_at(before.ppu.ly, (before.ppu.dot + 1) as u16),
                    ..before.ppu
                },
                ..before
            }
        };
        lemma_enter_line_keeps_control(before.bus, moved.ppu.ly);
        assert(moved.fb == before.fb);
        assert(moved.ppu.palette == palette);
        let drawing = moved.ppu.dot == 252 && moved.ppu.ly < 144;
        if drawing {
            lemma_line_is_painted(moved, pitch);
        }
        assert forall|y: int| 0 <= y < 144 && draws_line(p, n as int, y) implies #[trigger] row_painted(
            after.fb,
            pitch,
            palette,
            y,
        ) by {
            lemma_position_parts(p + n, y);
            let k = choose|k: int|
                1 <= k <= n && #[trigger] ((p + k) % frame_ticks()) == y * 456 + 252;
            if k < n {
                assert(draws_line(p, n - 1, y));
                assert(row_painted(before.fb, pitch, palette, y));
                if drawing && moved.ppu.ly != y {
                    lemma_other_row_stays_painted(
                        before.fb,
                        after.fb,
                        pitch,
                        palette,
                        moved.ppu.ly as int,
                        y,
                    );
                }
            } else {
                assert(drawing && moved.ppu.ly == y);
            }
        }
    }
}

/// Entering a line changes neither the display control register nor the size
/// of any region.
proof fn lemma_enter_line_keeps_control(bus: BusState, ly: u8)
    requires
        bus.wf(),
    ensures
        enter_line(bus, ly).wf(),
        enter_line(bus, ly).peek(LCDC) == bus.peek(LCDC),
{
}

/// A whole frame of ticks with the background switched on paints the whole
/// screen: every pixel of every row then has one of the palette's colors,
/// whatever the frame buffer held before.
pub proof fn lemma_frame_paints_screen(v: Video, pitch: int)
    requires
        v.ppu.wf(),
        v.bus.wf(),
        background_on(v.bus),
        pitch >= 480,
        holds_screen(v.fb.len() as int, pitch),
    ensures
        forall|x: int, y: int|
            0 <= x < 160 && 0 <= y < 144 ==> #[trigger] painted(
                v.run(70224, pitch).fb,
                pitch,
                v.ppu.palette,
                x,
                y,
            ),
{
    let p = v.ppu.position();
    lemma_drawn_lines_are_painted(v, 70224, pitch);
    assert forall|x: int, y: int| 0 <= x < 160 && 0 <= y < 144 implies #[trigger] painted(
        v.run(70224, pitch).fb,
        pitch,
        v.ppu.palette,
        x,
        y,
    ) by {
        let target = y * 456 + 252;
        let k = if target > p {
            target - p
        } else {
            target - p + 70224
        };
        assert(frame_ticks() == 70224);
        assert(0 <= p < 70224);
        assert(1 <= k <= 70224);
        if target > p {
            assert(p + k == target);
        } else {
            assert(p + k == target + 70224);
        }
        assert((p + k) % 70224 == target);
        assert(draws_line(p, 70224, y));
        assert(row_painted(v.run(70224, pitch).fb, pitch, v.ppu.palette, y));
    }
}

/// Whether the pixel at column `x` of row `y` is the same in two frame
/// buffers.
pub open spec fn same_pixel(a: Seq<u8>, b: Seq<u8>, pitch: int, x: int, y: int) -> bool {
    let i = y * pitch + x * 3;
    a[i] == b[i] && a[i + 1] == b[i + 1] && a[i + 2] == b[i + 2]
}

impl Sprite {
    /// Whether the object, with the bit planes `b0` and `b1` of its row, has
    /// a pixel of its own at screen column `x`: the column is one of its
    /// eight, and the color there is not zero.
    pub open spec fn shows(self, b0: u8, b1: u8, x: int) -> bool {
        let px = x - (self.x - 8);
        0 <= px < 8 && color_id_spec(b0, b1, self.bit(px)) != 0
    }

    /// The shade of the object's pixel at screen column `x`.
    pub open spec fn shade_at(self, b0: u8, b1: u8, pal: u8, x: int) -> u8 {
        shade_spec(pal, color_id_spec(b0, b1, self.bit(x - (self.x - 8))))
    }
}

/// The number of objects drawn among the first `n` entries of the object
/// table on line `ly`: those that cover the line, up to ten.
pub open spec fn objects_drawn(bus: BusState, ly: u8, n: int) -> int
    decreases n,
{
    if n <= 0 {
        0
    } else if objects_drawn(bus, ly, n - 1) < 10 && Sprite::at(bus, n - 1).covers(ly) {
        objects_drawn(bus, ly, n - 1) + 1
    } else {
        objects_drawn(bus, ly, n - 1)
    }
}

/// Whether entry `i` of the object table is drawn on line `ly`: it covers
/// the line, and fewer than ten entries before it were drawn.
pub open spec fn object_is_drawn(bus: BusState, ly: u8, i: int) -> bool {
    Sprite::at(bus, i).covers(ly) && objects_drawn(bus, ly, i) < 10
}

/// Whether entry `i` of the object table has a pixel of its own at screen
/// column `x` of line `ly`.
pub open spec fn object_shows(bus: BusState, ly: u8, i: int, x: int) -> bool {
    let sprite = Sprite::at(bus, i);
    object_is_drawn(bus, ly, i) && sprite.shows(
        bus.peek(sprite.row_addr(ly) as u16),
        bus.peek((sprite.row_addr(ly) + 1) as u16),
        x,
    )
}

/// The shade of the pixel of entry `i` at screen column `x` of line `ly`.
pub open spec fn object_shade(bus: BusState, ly: u8, i: int, x: int) -> u8 {
    let sprite = Sprite::at(bus, i);
    sprite.shade_at(
        bus.peek(sprite.row_addr(ly) as u16),
        bus.peek((sprite.row_addr(ly) + 1) as u16),
        bus.peek(sprite.palette_reg()),
        x,
    )
}

/// The last of the first `n` entries of the object table that has a pixel of
/// its own at screen column `x` of line `ly`, or -1 if none has.
pub open spec fn top_object(bus: BusState, ly: u8, x: int, n: int) -> int
    decreases n,
{
    if n <= 0 {
        -1
    } else if object_shows(bus, ly, n - 1, x) {
        n - 1
    } else {
        top_object(bus, ly, x, n - 1)
    }
}

/// Drawing a pixel changes no other pixel of its row.
proof fn lemma_put_px_elsewhere(fb: Seq<u8>, pitch: int, x: int, y: int, rgb: [u8; 3], z: int)
    requires
        0 <= x < 160,
        0 <= z < 160,
        0 <= y < 144,
        pitch >= 0,
        holds_screen(fb.len() as int, pitch),
    ensures
        pixel_is(put_px_spec(fb, pitch, x, y, rgb), pitch, x, y, rgb),
        z != x ==> same_pixel(put_px_spec(fb, pitch, x, y, rgb), fb, pitch, z, y),
{
    lemma_row_in_screen(pitch, y);
}

/// What the first `n` columns of an object's row leave at screen column `x`:
/// the object's own pixel where one of those columns shows there, and what
/// was there before otherwise.
proof fn lemma_sprite_row_pixel(
    fb: Seq<u8>,
    pitch: int,
    ly: u8,
    sprite: Sprite,
    b0: u8,
    b1: u8,
    pal: u8,
    palette: Palette,
    n: int,
    x: int,
)
    requires
        ly < 144,
        0 <= x < 160,
        0 <= n <= 8,
        pitch >= 0,
        holds_screen(fb.len() as int, pitch),
    ensures
        draw_sprite_row(fb, pitch, ly, sprite, b0, b1, pal, palette, n).len() == fb.len(),
        sprite.shows(b0, b1, x) && x - (sprite.x - 8) < n ==> pixel_is(
            draw_sprite_row(fb, pitch, ly, sprite, b0, b1, pal, palette, n),
            pitch,
            x,
            ly as int,
            palette.colors[sprite.shade_at(b0, b1, pal, x) as int],
        ),
        !(sprite.shows(b0, b1, x) && x - (sprite.x - 8) < n) ==> same_pixel(
            draw_sprite_row(fb, pitch, ly, sprite, b0, b1, pal, palette, n),
            fb,
            pitch,
            x,
            ly as int,
        ),
    decreases n,
{
    if n > 0 {
        lemma_sprite_row_pixel(fb, pitch, ly, sprite, b0, b1, pal, palette, n - 1, x);
        let drawn = draw_sprite_row(fb, pitch, ly, sprite, b0, b1, pal, palette, n - 1);
        let color = color_id_spec(b0, b1, sprite.bit(n - 1));
        let at = sprite.x - 8 + (n - 1);
        if color != 0 && 0 <= at < 160 {
            lemma_shade_in_range(pal, color);
            lemma_row_in_screen(pitch, ly as int);
            lemma_put_px_elsewhere(
                drawn,
                pitch,
                at,
                ly as int,
                palette.colors[shade_spec(pal, color) as int],
                x,
            );
        }
    }
}

/// Each screen column of a line, once the objects are drawn, holds the pixel
/// of the last entry of the object table that has one there, among the
/// entries that are drawn; and what was there before where none has.
pub proof fn lemma_top_object_shows(
    fb: Seq<u8>,
    bus: BusState,
    ly: u8,
    pitch: int,
    palette: Palette,
    n: int,
    x: int,
)
    requires
        ly < 144,
        0 <= x < 160,
        0 <= n,
        pitch >= 0,
        holds_screen(fb.len() as int, pitch),
    ensures
        draw_objects(fb, bus, ly, pitch, palette, n).0.len() == fb.len(),
        draw_objects(fb, bus, ly, pitch, palette, n).1 == objects_drawn(bus, ly, n),
        top_object(bus, ly, x, n) >= 0 ==> pixel_is(
            draw_objects(fb, bus, ly, pitch, palette, n).0,
            pitch,
            x,
            ly as int,
            palette.colors[object_shade(bus, ly, top_object(bus, ly, x, n), x) as int],
        ),
        top_object(bus, ly, x, n) < 0 ==> same_pixel(
            draw_objects(fb, bus, ly, pitch, palette, n).0,
            fb,
            pitch,
            x,
            ly as int,
        ),
    decreases n,
{
    if n > 0 {
        lemma_top_object_shows(fb, bus, ly, pitch, palette, n - 1, x);
        let (before, count) = draw_objects(fb, bus, ly, pitch, palette, n - 1);
        let sprite = Sprite::at(bus, n - 1);
        if count < 10 && sprite.covers(ly) {
            lemma_sprite_row_pixel(
                before,
                pitch,
                ly,
                sprite,
                bus.peek(sprite.row_addr(ly) as u16),
                bus.peek((sprite.row_addr(ly) + 1) as u16),
                bus.peek(sprite.palette_reg()),
                palette,
                8,
                x,
            );
        }
    }
}

} // verus!
