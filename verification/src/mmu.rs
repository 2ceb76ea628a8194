use crate::cartridge::Cartridge;
use crate::gb::{BTN_DOWN, BTN_LEFT, BTN_RIGHT, BTN_UP};
use vstd::prelude::*;

verus! {

/// Joypad register: group select in bits 4-5, pressed lines in the low nibble.
pub const JOYP: u16 = 0xFF00;

/// Divider register.
pub const DIV: u16 = 0xFF04;

/// Interrupt request flags.
pub const IFLAG: u16 = 0xFF0F;

/// Sound master-enable register.
pub const NR52: u16 = 0xFF26;

/// LCD control register.
pub const LCDC: u16 = 0xFF40;

/// Current scanline register.
pub const LY: u16 = 0xFF44;

/// Object-memory transfer trigger.
pub const DMA: u16 = 0xFF46;

/// Interrupt-enable register.
pub const IE: u16 = 0xFFFF;

/// Number of bytes in object memory, and so in one transfer.
pub const OAM_SIZE: u16 = 0xA0;

/// A write to a sound register, as it is handed to the sound unit: the clock
/// count since the last frame boundary at which it happened, the register and
/// the byte.
#[derive(Clone, Copy, Debug, PartialEq, Eq, Structural)]
pub struct SoundWrite {
    pub clock: u32,
    pub addr: u16,
    pub value: u8,
}

impl SoundWrite {
    /// The master-enable signal that the write carries: the top bit of a byte
    /// written to the sound-enable register, nothing for any other register.
    pub open spec fn enable_signal(self) -> Option<bool> {
        if self.addr == NR52 {
            Some(self.value >= 0x80)
        } else {
            None
        }
    }

    /// The master-enable signal that the write carries, if any.
    pub fn master_enable(&self) -> (e: Option<bool>)
        ensures
            e == self.enable_signal(),
    {
        if self.addr == NR52 {
            Some(self.value >= 0x80)
        } else {
            None
        }
    }
}

/// Whether a write to `addr` is also handed to the sound unit.
pub open spec fn is_sound_register(addr: u16) -> bool {
    0xFF10 <= addr <= 0xFF3F
}

/// The bus as a mathematical value: each storage region as a sequence of
/// bytes, the interrupt-enable byte, the button byte, and what has been
/// gathered for the sound unit.
pub struct BusState {
    pub rom: Seq<u8>,
    pub vram: Seq<u8>,
    pub eram: Seq<u8>,
    pub wram: Seq<u8>,
    pub oam: Seq<u8>,
    pub io: Seq<u8>,
    pub hram: Seq<u8>,
    pub ie: u8,
    pub buttons: u8,
    pub clock: u32,
    pub sound: Seq<SoundWrite>,
}

impl BusState {
    /// Every region has its hardware size.
    pub open spec fn wf(self) -> bool {
        &&& self.rom.len() == 0x8000
        &&& self.vram.len() == 0x2000
        &&& self.eram.len() == 0x2000
        &&& self.wram.len() == 0x2000
        &&& self.oam.len() == 0xA0
        &&& self.io.len() == 0x80
        &&& self.hram.len() == 0x7F
    }

    /// What the joypad register reads as: bits 6-7 set, the select bits as
    /// stored, and in the low nibble the pressed lines of the one selected
    /// group, active low; all ones when none or both are selected.
    pub open spec fn joypad(self) -> u8 {
        let joyp = self.io[0];
        let buttons_selected = joyp & 0x20 == 0;
        let dpad_selected = joyp & 0x10 == 0;
        let low: u8 = if buttons_selected && !dpad_selected {
            !(self.buttons >> 4) & 0x0F
        } else if dpad_selected && !buttons_selected {
            !self.buttons & 0x0F
        } else {
            0x0F
        };
        (joyp & 0x30) | 0xC0 | low
    }

    /// The byte that a read of `addr` returns, where `div` is what the divider
    /// register yields at that moment.
    pub open spec fn read(self, addr: u16, div: u8) -> u8 {
        if addr == JOYP {
            self.joypad()
        } else if addr == DIV {
            div
        } else if addr < 0x8000 {
            self.rom[addr as int]
        } else if addr < 0xA000 {
            self.vram[addr - 0x8000]
        } else if addr < 0xC000 {
            self.eram[addr - 0xA000]
        } else if addr < 0xE000 {
            self.wram[addr - 0xC000]
        } else if addr < 0xFE00 {
            self.wram[addr - 0xE000]
        } else if addr < 0xFEA0 {
            self.oam[addr - 0xFE00]
        } else if addr < 0xFF00 {
            0xFF
        } else if addr < 0xFF80 {
            self.io[addr - 0xFF00]
        } else if addr < 0xFFFF {
            self.hram[addr - 0xFF80]
        } else {
            self.ie
        }
    }

    /// The byte that a read of `addr` returns, for every address but the
    /// divider's.
    pub open spec fn peek(self, addr: u16) -> u8 {
        self.read(addr, 0)
    }

    /// Object memory after a transfer from page `page`: byte `i` is what a
    /// read of `page * 256 + i` returns.
    pub open spec fn dma_image(self, page: u8, div: u8) -> Seq<u8> {
        Seq::new(0xA0, |i: int| self.read((page * 256 + i) as u16, div))
    }

    /// The bus after a write to an I/O register.
    pub open spec fn write_io(self, addr: u16, value: u8, div: u8) -> BusState
        recommends
            0xFF00 <= addr < 0xFF80,
    {
        let reg = addr - 0xFF00;
        if addr == JOYP {
            BusState { io: self.io.update(0, (self.io[0] & 0xCF) | (value & 0x30) | 0xC0), ..self }
        } else if addr == DIV {
            BusState { io: self.io.update(reg, 0), ..self }
        } else if addr == DMA {
            BusState { oam: self.dma_image(value, div), io: self.io.update(reg, value), ..self }
        } else if is_sound_register(addr) {
            BusState {
                io: self.io.update(reg, value),
                sound: self.sound.push(SoundWrite { clock: self.clock, addr, value }),
                ..self
            }
        } else {
            BusState { io: self.io.update(reg, value), ..self }
        }
    }

    /// The bus after a write of `value` to `addr`, where `div` is what the
    /// divider register yields should the write start a transfer that reads it.
    pub open spec fn write(self, addr: u16, value: u8, div: u8) -> BusState {
        if addr < 0x8000 {
            self
        } else if addr < 0xA000 {
            BusState { vram: self.vram.update(addr - 0x8000, value), ..self }
        } else if addr < 0xC000 {
            BusState { eram: self.eram.update(addr - 0xA000, value), ..self }
        } else if addr < 0xE000 {
            BusState { wram: self.wram.update(addr - 0xC000, value), ..self }
        } else if addr < 0xFE00 {
            BusState { wram: self.wram.update(addr - 0xE000, value), ..self }
        } else if addr < 0xFEA0 {
            BusState { oam: self.oam.update(addr - 0xFE00, value), ..self }
        } else if addr < 0xFF00 {
            self
        } else if addr < 0xFF80 {
            self.write_io(addr, value, div)
        } else if addr < 0xFFFF {
            BusState { hram: self.hram.update(addr - 0xFF80, value), ..self }
        } else {
            BusState { ie: value, ..self }
        }
    }

    /// Whether `addr` keeps what is written to it, so that a read returns the
    /// byte last written: every address but those of the ROM, of the
    /// unusable region, of the joypad register and of the divider.
    pub open spec fn keeps(addr: u16) -> bool {
        &&& addr >= 0x8000
        &&& !(0xFEA0 <= addr < 0xFF00)
        &&& addr != JOYP
        &&& addr != DIV
    }

    /// Whether a write starts a transfer whose source holds the divider.
    pub open spec fn samples_divider(addr: u16, value: u8) -> bool {
        addr == DMA && value == 0xFF
    }

    /// The byte of object memory that a transfer from the register page takes
    /// from the divider.
    pub open spec fn dma_sample(self) -> u8 {
        self.oam[4]
    }

    /// The bus after `clocks` more clock ticks have passed.
    pub open spec fn advance(self, clocks: u32) -> BusState {
        BusState { clock: ((self.clock + clocks) % 0x1_0000_0000) as u32, ..self }
    }

    /// The bus after a frame of `clocks` ticks has been closed: the clock
    /// count is reduced by the frame's length.
    pub open spec fn close_frame(self, clocks: u32) -> BusState {
        BusState { clock: ((self.clock - clocks) % 0x1_0000_0000) as u32, ..self }
    }

    /// The bus after the gathered sound writes have been handed over.
    pub open spec fn drained(self) -> BusState {
        BusState { sound: Seq::empty(), ..self }
    }

    /// The bus at power-on, once the boot program has run, around the image
    /// `rom`.
    pub open spec fn power_on(rom: Seq<u8>) -> BusState {
        BusState {
            rom,
            vram: Seq::new(0x2000, |i: int| 0u8),
            eram: Seq::new(0x2000, |i: int| 0u8),
            wram: Seq::new(0x2000, |i: int| 0u8),
            oam: Seq::new(0xA0, |i: int| 0u8),
            io: Seq::new(0x80, |i: int| power_on_register(i)),
            hram: Seq::new(0x7F, |i: int| 0u8),
            ie: 0,
            buttons: 0,
            clock: 0,
            sound: power_on_sound(),
        }
    }

    /// The button byte after `mask` is pressed: the bits are added, and
    /// each direction that is pressed displaces its opposite. Where both
    /// directions of an axis are pressed at once, right and up are held.
    pub open spec fn press(self, mask: u8) -> BusState {
        let held = self.buttons | mask;
        let held = if mask & BTN_RIGHT != 0 {
            held & !BTN_LEFT
        } else if mask & BTN_LEFT != 0 {
            held & !BTN_RIGHT
        } else {
            held
        };
        let held = if mask & BTN_UP != 0 {
            held & !BTN_DOWN
        } else if mask & BTN_DOWN != 0 {
            held & !BTN_UP
        } else {
            held
        };
        BusState { buttons: held, ..self }
    }

    /// No direction is held together with its opposite.
    pub open spec fn directions_settled(self) -> bool {
        &&& !(self.buttons & BTN_LEFT != 0 && self.buttons & BTN_RIGHT != 0)
        &&& !(self.buttons & BTN_UP != 0 && self.buttons & BTN_DOWN != 0)
    }

    /// The button byte after `mask` is released.
    pub open spec fn release(self, mask: u8) -> BusState {
        BusState { buttons: self.buttons & !mask, ..self }
    }
}

/// A write that starts no transfer from the register page gives the same bus
/// whatever the divider yields.
pub proof fn lemma_write_ignores_divider(bus: BusState, addr: u16, value: u8, d1: u8, d2: u8)
    requires
        !BusState::samples_divider(addr, value),
    ensures
        bus.write(addr, value, d1) == bus.write(addr, value, d2),
{
    if addr == DMA {
        assert(bus.dma_image(value, d1) =~= bus.dma_image(value, d2));
    }
}

/// The register file at power-on: what the boot program leaves in each I/O
/// register, by offset.
pub open spec fn power_on_register(reg: int) -> u8 {
    if reg == 0x00 {
        0xC0
    } else if reg == 0x02 {
        0x7E
    } else if reg == 0x0F {
        0xE1
    } else if reg == 0x10 {
        0x80
    } else if reg == 0x11 || reg == 0x14 || reg == 0x19 || reg == 0x1E || reg == 0x23 {
        0xBF
    } else if reg == 0x12 || reg == 0x25 {
        0xF3
    } else if reg == 0x16 {
        0x3F
    } else if reg == 0x18 || reg == 0x1B || reg == 0x20 || reg == 0x48 || reg == 0x49 {
        0xFF
    } else if reg == 0x1A {
        0x7F
    } else if reg == 0x1C {
        0x9F
    } else if reg == 0x24 {
        0x77
    } else if reg == 0x26 {
        0xF1
    } else {
        0
    }
}

/// The sound registers that the boot program sets, in the order in which it
/// sets them.
pub open spec fn power_on_sound_registers() -> Seq<u16> {
    seq![
        0xFF10u16,
        0xFF11u16,
        0xFF12u16,
        0xFF14u16,
        0xFF16u16,
        0xFF17u16,
        0xFF18u16,
        0xFF19u16,
        0xFF1Au16,
        0xFF1Bu16,
        0xFF1Cu16,
        0xFF1Eu16,
        0xFF20u16,
        0xFF21u16,
        0xFF22u16,
        0xFF23u16,
        0xFF24u16,
        0xFF25u16,
        0xFF26u16,
    ]
}

/// The sound writes that the boot program makes: one for each register it
/// sets, at clock zero, with the register's power-on value.
pub open spec fn power_on_sound() -> Seq<SoundWrite> {
    Seq::new(
        power_on_sound_registers().len(),
        |i: int|
            SoundWrite {
                clock: 0,
                addr: power_on_sound_registers()[i],
                value: power_on_register(power_on_sound_registers()[i] - 0xFF00),
            },
    )
}

/// A byte written to work RAM reads back from its mirror, and a byte written
/// to the mirror reads back from work RAM.
pub proof fn lemma_work_ram_mirror(bus: BusState, addr: u16, value: u8, d1: u8, d2: u8)
    requires
        bus.wf(),
        0xC000 <= addr < 0xDE00,
    ensures
        bus.write(addr, value, d1).read((addr + 0x2000) as u16, d2) == value,
        bus.write((addr + 0x2000) as u16, value, d1).read(addr, d2) == value,
{
}

/// A write keeps every region at its size.
pub proof fn lemma_write_keeps_wf(bus: BusState, addr: u16, value: u8, div: u8)
    requires
        bus.wf(),
    ensures
        bus.write(addr, value, div).wf(),
{
}

/// A byte written to an address that keeps what is written reads back from
/// that address.
pub proof fn lemma_read_back(bus: BusState, addr: u16, value: u8, d1: u8, d2: u8)
    requires
        bus.wf(),
        BusState::keeps(addr),
    ensures
        bus.write(addr, value, d1).read(addr, d2) == value,
{
}

/// A write to the transfer trigger copies the 160 bytes of the page it names
/// into object memory, in order: byte `i` of object memory is then what a
/// read of byte `i` of the page returned before the write.
pub proof fn lemma_dma_copies_page(bus: BusState, page: u8, div: u8, i: int)
    requires
        bus.wf(),
        0 <= i < 0xA0,
    ensures
        bus.write(DMA, page, div).oam[i] == bus.read((page * 256 + i) as u16, div),
        bus.write(DMA, page, div).peek((0xFE00 + i) as u16) == bus.read(
            (page * 256 + i) as u16,
            div,
        ),
{
}

/// A press and a release keep the directions settled: if no direction was
/// held together with its opposite before, none is afterwards. A direction
/// that is pressed is held afterwards, unless its opposite wins the same
/// press.
pub proof fn lemma_press_settles_directions(bus: BusState, mask: u8)
    requires
        bus.directions_settled(),
    ensures
        bus.press(mask).directions_settled(),
        bus.release(mask).directions_settled(),
        mask & BTN_RIGHT != 0 ==> bus.press(mask).buttons & BTN_RIGHT != 0,
        mask & BTN_UP != 0 ==> bus.press(mask).buttons & BTN_UP != 0,
        mask & BTN_LEFT != 0 && mask & BTN_RIGHT == 0 ==> bus.press(mask).buttons & BTN_LEFT != 0,
        mask & BTN_DOWN != 0 && mask & BTN_UP == 0 ==> bus.press(mask).buttons & BTN_DOWN != 0,
{
    lemma_settled(bus.buttons, mask);
}

proof fn lemma_settled(b: u8, m: u8)
    by (bit_vector)
    requires
        !(b & 0x02 != 0 && b & 0x01 != 0),
        !(b & 0x04 != 0 && b & 0x08 != 0),
    ensures
        ({
            let h = b | m;
            let h = if m & 0x01 != 0 {
                h & !0x02u8
            } else if m & 0x02 != 0 {
                h & !0x01u8
            } else {
                h
            };
            let h = if m & 0x04 != 0 {
                h & !0x08u8
            } else if m & 0x08 != 0 {
                h & !0x04u8
            } else {
                h
            };
            &&& !(h & 0x02 != 0 && h & 0x01 != 0)
            &&& !(h & 0x04 != 0 && h & 0x08 != 0)
            &&& (m & 0x01 != 0 ==> h & 0x01 != 0)
            &&& (m & 0x04 != 0 ==> h & 0x04 != 0)
            &&& (m & 0x02 != 0 && m & 0x01 == 0 ==> h & 0x02 != 0)
            &&& (m & 0x08 != 0 && m & 0x04 == 0 ==> h & 0x08 != 0)
        }),
        !((b & !m) & 0x02 != 0 && (b & !m) & 0x01 != 0),
        !((b & !m) & 0x04 != 0 && (b & !m) & 0x08 != 0),
{
}

/// The bus and memory unit: the ROM image, the RAM regions, object memory, the
/// I/O register file, the interrupt-enable byte and the button latch.
pub struct MMU {
    rom: [u8; 0x8000],
    vram: [u8; 0x2000],
    eram: [u8; 0x2000],
    wram: [u8; 0x2000],
    oam: [u8; 0xA0],
    io: [u8; 0x80],
    hram: [u8; 0x7F],
    ie: u8,
    buttons: u8,
    clock: u32,
    sound: Vec<SoundWrite>,
}

impl View for MMU {
    type V = BusState;

    closed spec fn view(&self) -> BusState {
        BusState {
            rom: self.rom@,
            vram: self.vram@,
            eram: self.eram@,
            wram: self.wram@,
            oam: self.oam@,
            io: self.io@,
            hram: self.hram@,
            ie: self.ie,
            buttons: self.buttons,
            clock: self.clock,
            sound: self.sound@,
        }
    }
}

/// The handle to the thread-local random generator of the `rand` crate.
/// Nothing in it is visible here.
#[verifier::external_type_specification]
#[verifier::external_body]
pub struct ExThreadRng(rand::rngs::ThreadRng);

/// `rand::rng` hands out a handle to the thread-local generator. Nothing is
/// claimed of the handle. The generator seeds itself from the operating
/// system on a thread's first use of it, and panics if the system has no
/// randomness to give.
pub assume_specification[ rand::rng ]() -> (rng: rand::rngs::ThreadRng);

/// Draws one byte with `Rng::random` of the `rand` crate. Nothing is claimed
/// of the byte, nor of the generator afterwards.
#[verifier::external_body]
fn random_byte(rng: &mut rand::rngs::ThreadRng) -> (b: u8) {
    rand::Rng::random(rng)
}

impl MMU {
    /// The model of a bus always has regions of the hardware sizes.
    pub proof fn lemma_view_wf(&self)
        ensures
            self@.wf(),
    {
    }

    /// Builds the bus around a cartridge image and leaves the registers as
    /// the boot program does.
    pub fn new(cartridge: Cartridge) -> (mmu: MMU)
        requires
            cartridge.supported(),
        ensures
            mmu@ == BusState::power_on(cartridge.rom@),
    {
        let mut rom = [0u8; 0x8000];
        let mut i: usize = 0;
        while i < 0x8000
            invariant
                i <= 0x8000,
                cartridge.rom@.len() == 0x8000,
                forall|j: int| 0 <= j < i ==> rom@[j] == cartridge.rom@[j],
            decreases 0x8000 - i,
        {
            rom[i] = cartridge.rom[i];
            i += 1;
        }
        assert(rom@ =~= cartridge.rom@);
        let mut mmu = MMU {
            rom,
            vram: [0; 0x2000],
            eram: [0; 0x2000],
            wram: [0; 0x2000],
            oam: [0; 0xA0],
            io: [0; 0x80],
            hram: [0; 0x7F],
            ie: 0,
            buttons: 0,
            clock: 0,
            sound: Vec::new(),
        };
        assert((0u8 & 0xCF) | (0xCFu8 & 0x30) | 0xC0 == 0xC0) by (bit_vector);
        mmu.write_byte(0xFF00, 0xCF);
        mmu.write_byte(0xFF01, 0x00);
        mmu.write_byte(0xFF02, 0x7E);
        mmu.write_byte(0xFF04, 0xAB);
        mmu.write_byte(0xFF05, 0x00);
        mmu.write_byte(0xFF06, 0x00);
        mmu.write_byte(0xFF07, 0x00);
        mmu.write_byte(0xFF0F, 0xE1);
        mmu.write_byte(0xFF10, 0x80);
        mmu.write_byte(0xFF11, 0xBF);
        mmu.write_byte(0xFF12, 0xF3);
        mmu.write_byte(0xFF14, 0xBF);
        mmu.write_byte(0xFF16, 0x3F);
        mmu.write_byte(0xFF17, 0x00);
        mmu.write_byte(0xFF18, 0xFF);
        mmu.write_byte(0xFF19, 0xBF);
        mmu.write_byte(0xFF1A, 0x7F);
        mmu.write_byte(0xFF1B, 0xFF);
        mmu.write_byte(0xFF1C, 0x9F);
        mmu.write_byte(0xFF1E, 0xBF);
        mmu.write_byte(0xFF20, 0xFF);
        mmu.write_byte(0xFF21, 0x00);
        mmu.write_byte(0xFF22, 0x00);
        mmu.write_byte(0xFF23, 0xBF);
        mmu.write_byte(0xFF24, 0x77);
        mmu.write_byte(0xFF25, 0xF3);
        mmu.write_byte(0xFF26, 0xF1);
        mmu.write_byte(0xFF42, 0x00);
        mmu.write_byte(0xFF43, 0x00);
        mmu.write_byte(0xFF45, 0x00);
        mmu.write_byte(0xFF48, 0xFF);
        mmu.write_byte(0xFF49, 0xFF);
        mmu.write_byte(0xFF4A, 0x00);
        mmu.write_byte(0xFF4B, 0x00);
        mmu.write_byte(0xFFFF, 0x00);
        proof {
            let want = BusState::power_on(cartridge.rom@);
            assert(mmu@.vram =~= want.vram);
            assert(mmu@.eram =~= want.eram);
            assert(mmu@.wram =~= want.wram);
            assert(mmu@.oam =~= want.oam);
            assert(mmu@.hram =~= want.hram);
            assert(mmu@.io =~= want.io);
            assert(mmu@.sound =~= want.sound);
        }
        mmu
    }

    /// Reads `addr`, with `div` standing for what the divider yields.
    pub fn read_sampled(&self, addr: u16, div: u8) -> (b: u8)
        ensures
            b == self@.read(addr, div),
    {
        if addr == JOYP {
            let joyp = self.io[0];
            let buttons_selected = joyp & 0x20 == 0;
            let dpad_selected = joyp & 0x10 == 0;
            let low: u8 = if buttons_selected && !dpad_selected {
                !(self.buttons >> 4) & 0x0F
            } else if dpad_selected && !buttons_selected {
                !self.buttons & 0x0F
            } else {
                0x0F
            };
            (joyp & 0x30) | 0xC0 | low
        } else if addr == DIV {
            div
        } else if addr < 0x8000 {
            self.rom[addr as usize]
        } else if addr < 0xA000 {
            self.vram[(addr - 0x8000) as usize]
        } else if addr < 0xC000 {
            self.eram[(addr - 0xA000) as usize]
        } else if addr < 0xE000 {
            self.wram[(addr - 0xC000) as usize]
        } else if addr < 0xFE00 {
            self.wram[(addr - 0xE000) as usize]
        } else if addr < 0xFEA0 {
            self.oam[(addr - 0xFE00) as usize]
        } else if addr < 0xFF00 {
            0xFF
        } else if addr < 0xFF80 {
            self.io[(addr - 0xFF00) as usize]
        } else if addr < 0xFFFF {
            self.hram[(addr - 0xFF80) as usize]
        } else {
            self.ie
        }
    }

    /// Reads `addr`. The divider register yields a random byte; every other
    /// address has exactly one result.
    pub fn read_byte(&self, addr: u16) -> (b: u8)
        ensures
            addr != DIV ==> b == self@.peek(addr),
            b == self@.read(addr, b),
    {
        if addr == DIV {
            let mut rng = rand::rng();
            let div = random_byte(&mut rng);
            self.read_sampled(addr, div)
        } else {
            self.read_sampled(addr, 0)
        }
    }

    /// Copies the 160 bytes of page `page` into object memory, in order.
    fn dma_transfer(&mut self, page: u8, div: u8)
        ensures
            final(self)@ == (BusState { oam: old(self)@.dma_image(page, div), ..old(self)@ }),
    {
        let src: u16 = (page as u16) * 256;
        let mut i: u16 = 0;
        while i < OAM_SIZE
            invariant
                i <= OAM_SIZE,
                src == page * 256,
                self@.oam.len() == 0xA0,
                self@ == (BusState { oam: self@.oam, ..old(self)@ }),
                forall|j: int| 0 <= j < i ==> self@.oam[j] == old(self)@.dma_image(page, div)[j],
                forall|j: int| i <= j < 0xA0 ==> self@.oam[j] == old(self)@.oam[j],
            decreases OAM_SIZE - i,
        {
            let b = self.read_sampled(src + i, div);
            self.oam[i as usize] = b;
            i += 1;
        }
        assert(self@.oam =~= old(self)@.dma_image(page, div));
    }

    /// Writes `value` to `addr`, with `div` standing for what the divider
    /// yields should the write start a transfer that reads it.
    pub fn write_sampled(&mut self, addr: u16, value: u8, div: u8)
        ensures
            final(self)@ == old(self)@.write(addr, value, div),
    {
        if addr < 0x8000 {
        } else if addr < 0xA000 {
            self.vram[(addr - 0x8000) as usize] = value;
        } else if addr < 0xC000 {
            self.eram[(addr - 0xA000) as usize] = value;
        } else if addr < 0xE000 {
            self.wram[(addr - 0xC000) as usize] = value;
        } else if addr < 0xFE00 {
            self.wram[(addr - 0xE000) as usize] = value;
        } else if addr < 0xFEA0 {
            self.oam[(addr - 0xFE00) as usize] = value;
        } else if addr < 0xFF00 {
        } else if addr < 0xFF80 {
            let reg = (addr - 0xFF00) as usize;
            if addr == JOYP {
                let cur = self.io[0];
                self.io[0] = (cur & 0xCF) | (value & 0x30) | 0xC0;
            } else if addr == DIV {
                self.io[reg] = 0;
            } else if addr == DMA {
                self.dma_transfer(value, div);
                self.io[reg] = value;
            } else if 0xFF10 <= addr && addr <= 0xFF3F {
                self.sound.push(SoundWrite { clock: self.clock, addr, value });
                self.io[reg] = value;
            } else {
                self.io[reg] = value;
            }
        } else if addr < 0xFFFF {
            self.hram[(addr - 0xFF80) as usize] = value;
        } else {
            self.ie = value;
        }
    }

    /// Writes `value` to `addr`. A transfer from the register page takes one
    /// byte from the divider, which is random; everything else that the write
    /// changes has exactly one result.
    pub fn write_byte(&mut self, addr: u16, value: u8)
        ensures
            !BusState::samples_divider(addr, value) ==> final(self)@ == old(self)@.write(
                addr,
                value,
                0,
            ),
            final(self)@ == old(self)@.write(addr, value, final(self)@.dma_sample()),
    {
        if addr == DMA && value == 0xFF {
            let mut rng = rand::rng();
            let div = random_byte(&mut rng);
            self.write_sampled(addr, value, div);
        } else {
            self.write_sampled(addr, value, 0);
            proof {
                lemma_write_ignores_divider(old(self)@, addr, value, 0, self@.dma_sample());
            }
        }
    }

    /// Marks the buttons in `mask` as held. Each direction that is pressed
    /// displaces its opposite.
    pub fn input_press(&mut self, mask: u8)
        ensures
            final(self)@ == old(self)@.press(mask),
    {
        let mut held = self.buttons | mask;
        if mask & BTN_RIGHT != 0 {
            held &= !BTN_LEFT;
        } else if mask & BTN_LEFT != 0 {
            held &= !BTN_RIGHT;
        }
        if mask & BTN_UP != 0 {
            held &= !BTN_DOWN;
        } else if mask & BTN_DOWN != 0 {
            held &= !BTN_UP;
        }
        self.buttons = held;
    }

    /// Marks the buttons in `mask` as no longer held.
    pub fn input_release(&mut self, mask: u8)
        ensures
            final(self)@ == old(self)@.release(mask),
    {
        self.buttons &= !mask;
    }

    /// Moves the sound clock on by `clocks` ticks, wrapping.
    pub fn advance_clocks(&mut self, clocks: u32)
        ensures
            final(self)@ == old(self)@.advance(clocks),
    {
        self.clock = self.clock.wrapping_add(clocks);
    }

    /// Closes a frame of `clocks` ticks: the sound clock is reduced by that
    /// many, wrapping, so that it counts from the new frame's start.
    pub fn end_frame(&mut self, clocks: u32)
        ensures
            final(self)@ == old(self)@.close_frame(clocks),
    {
        self.clock = self.clock.wrapping_sub(clocks);
    }

    /// The clock count since the last frame boundary.
    pub fn sound_clock(&self) -> (clocks: u32)
        ensures
            clocks == self@.clock,
    {
        self.clock
    }

    /// Hands over the sound writes gathered since the last call, oldest
    /// first, and forgets them.
    pub fn take_sound_writes(&mut self) -> (writes: Vec<SoundWrite>)
        ensures
            writes@ == old(self)@.sound,
            final(self)@ == old(self)@.drained(),
    {
        let mut writes: Vec<SoundWrite> = Vec::new();
        std::mem::swap(&mut self.sound, &mut writes);
        writes
    }
}

} // verus!
