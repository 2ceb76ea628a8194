use crate::cartridge::Cartridge;
use crate::cpu::CPU;
use crate::isa::Fault;
use crate::machine::DivSamples;
use crate::mmu::{BusState, SoundWrite, MMU};
use crate::ppu::{
    color_palette, color_palette_spec, green_palette, green_palette_spec, holds_screen,
    lemma_timing, PPU,
};
use vstd::prelude::*;

verus! {

/// Button masks: the low nibble is the direction pad, the high nibble the
/// action buttons.
pub const BTN_RIGHT: u8 = 0x01;

pub const BTN_LEFT: u8 = 0x02;

pub const BTN_UP: u8 = 0x04;

pub const BTN_DOWN: u8 = 0x08;

pub const BTN_A: u8 = 0x10;

pub const BTN_B: u8 = 0x20;

pub const BTN_SELECT: u8 = 0x40;

pub const BTN_START: u8 = 0x80;

/// The whole system as a mathematical value: the processor's registers, the
/// bus, and the video controller.
pub struct GbState {
    pub cpu: CPU,
    pub bus: BusState,
    pub ppu: PPU,
}

impl GbState {
    pub open spec fn wf(self) -> bool {
        self.cpu.wf() && self.ppu.wf()
    }

    /// The system at power-on around the image `rom`.
    pub open spec fn power_on(rom: Seq<u8>) -> GbState {
        GbState { cpu: CPU::power_on(), bus: BusState::power_on(rom), ppu: PPU::power_on() }
    }

    /// One step of the system, drawing into the frame buffer `fb`: the
    /// processor takes one step; the sound clock and the video controller
    /// then advance by the clock ticks that the step took. The result tells
    /// whether a frame was completed, and the flag that says so is cleared.
    /// Where the processor meets an opcode outside the supported set, only
    /// its fetch has happened, and the result is the byte at fault.
    pub open spec fn step(self, fb: Seq<u8>, pitch: int, s: DivSamples) -> (
        GbState,
        Seq<u8>,
        Result<bool, Fault>,
    ) {
        let (m, r) = self.cpu.on(self.bus).step(s);
        match r {
            Ok(t) => {
                let v = self.ppu.on(m.bus.advance(t), fb).run(t as nat, pitch);
                (
                    GbState { cpu: m.cpu, bus: v.bus, ppu: PPU { frame_ready: false, ..v.ppu } },
                    v.fb,
                    Ok(v.ppu.frame_ready),
                )
            },
            Err(fault) => (GbState { cpu: m.cpu, bus: m.bus, ppu: self.ppu }, fb, Err(fault)),
        }
    }

    /// The system with the other of the two palettes: the color palette in
    /// place of the green one, and the green one in place of any other.
    pub open spec fn toggle_palette(self) -> GbState {
        let palette = if self.ppu.palette == green_palette_spec() {
            color_palette_spec()
        } else {
            green_palette_spec()
        };
        GbState { ppu: PPU { palette, ..self.ppu }, ..self }
    }
}

/// A step of the system keeps it well formed, and leaves the flag that marks
/// a completed frame clear: what the step reports has been read.
pub proof fn lemma_step_keeps_wf(g: GbState, fb: Seq<u8>, pitch: int, s: DivSamples)
    requires
        g.wf(),
        g.bus.wf(),
    ensures
        g.step(fb, pitch, s).0.wf(),
        g.step(fb, pitch, s).2.is_ok() ==> !g.step(fb, pitch, s).0.ppu.frame_ready,
{
    crate::machine::lemma_step_keeps_wf(g.cpu.on(g.bus), s);
    let (m, r) = g.cpu.on(g.bus).step(s);
    match r {
        Ok(t) => {
            lemma_timing(g.ppu.on(m.bus.advance(t), fb), t as nat, pitch);
        },
        Err(_) => {},
    }
}

/// The system: processor, bus and video controller, stepped together.
pub struct GB {
    cpu: CPU,
    mmu: MMU,
    ppu: PPU,
}

impl View for GB {
    type V = GbState;

    closed spec fn view(&self) -> GbState {
        GbState { cpu: self.cpu, bus: self.mmu@, ppu: self.ppu }
    }
}

impl GB {
    /// Builds the system around a cartridge image, in its power-on state.
    pub fn new(cartridge: Cartridge) -> (gb: GB)
        requires
            cartridge.supported(),
        ensures
            gb@ == GbState::power_on(cartridge.rom@),
            gb@.wf(),
    {
        let mmu = MMU::new(cartridge);
        GB { cpu: CPU::new(), mmu, ppu: PPU::new() }
    }

    /// Executes one processor step and advances the video controller by the
    /// clock ticks it took, drawing into `framebuffer`, whose rows are `pitch`
    /// bytes apart. Returns whether a frame was completed, or the byte at
    /// fault where the processor met an opcode outside the supported set.
    ///
    /// Every bus access but a read of the divider has one result, so the step
    /// is the model's step for some choice of what the divider yielded.
    pub fn step(&mut self, framebuffer: &mut [u8], pitch: usize) -> (r: Result<bool, Fault>)
        requires
            old(self)@.wf(),
            holds_screen(old(framebuffer)@.len() as int, pitch as int),
        ensures
            final(self)@.wf(),
            final(framebuffer)@.len() == old(framebuffer)@.len(),
            exists|s: DivSamples|
                (final(self)@, final(framebuffer)@, r) == #[trigger] old(self)@.step(
                    old(framebuffer)@,
                    pitch as int,
                    s,
                ),
    {
        let stepped = self.cpu.step(&mut self.mmu);
        let ghost before = old(self).cpu.on(old(self).mmu@);
        let ghost s = choose|s: DivSamples|
            (self.cpu.on(self.mmu@), stepped) == #[trigger] before.step(s);
        let r = match stepped {
            Ok(t) => {
                self.mmu.advance_clocks(t);
                self.ppu.step(&mut self.mmu, t, framebuffer, pitch);
                Ok(self.ppu.is_frame_ready())
            },
            Err(fault) => Err(fault),
        };
        assert((self@, framebuffer@, r) == old(self)@.step(old(framebuffer)@, pitch as int, s));
        r
    }

    /// Marks the buttons in `mask` as held.
    pub fn input_press(&mut self, mask: u8)
        ensures
            final(self)@ == (GbState { bus: old(self)@.bus.press(mask), ..old(self)@ }),
    {
        self.mmu.input_press(mask);
    }

    /// Marks the buttons in `mask` as no longer held.
    pub fn input_release(&mut self, mask: u8)
        ensures
            final(self)@ == (GbState { bus: old(self)@.bus.release(mask), ..old(self)@ }),
    {
        self.mmu.input_release(mask);
    }

    /// Switches between the green palette and the color palette.
    pub fn toggle_palette(&mut self)
        ensures
            final(self)@ == old(self)@.toggle_palette(),
    {
        if self.ppu.get_palette() == green_palette() {
            self.ppu.set_palette(color_palette());
        } else {
            self.ppu.set_palette(green_palette());
        }
    }

    /// Hands over the sound writes gathered since the last call, oldest
    /// first, and forgets them.
    pub fn take_sound_writes(&mut self) -> (writes: Vec<SoundWrite>)
        ensures
            writes@ == old(self)@.bus.sound,
            final(self)@ == (GbState { bus: old(self)@.bus.drained(), ..old(self)@ }),
    {
        self.mmu.take_sound_writes()
    }

    /// Closes a frame for the sound unit: returns the clock ticks counted
    /// since the last frame boundary, and starts the count again at zero.
    pub fn end_frame(&mut self) -> (clocks: u32)
        ensures
            clocks == old(self)@.bus.clock,
            final(self)@ == (GbState { bus: old(self)@.bus.close_frame(clocks), ..old(self)@ }),
            final(self)@.bus.clock == 0,
    {
        let clocks = self.mmu.sound_clock();
        self.mmu.end_frame(clocks);
        clocks
    }
}

} // verus!
