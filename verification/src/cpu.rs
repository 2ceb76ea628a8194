use crate::alu;
use crate::alu::{
    add8_spec, and8_spec, lemma_flags_round_trip, or8_spec, signed, sub8_spec, wrap16, xor8_spec,
    Flags,
};
use crate::isa::{
    decode, operand_len, AluOp, Arith, Bits, Cond, Fault, Flow, Instr, Load, Loc8, Reg16,
};
use crate::machine::{ticks, DataSamples, DivSamples, FetchSamples, Machine};
use crate::mmu::{lemma_write_ignores_divider, BusState, IE, IFLAG, MMU};
use vstd::prelude::*;

verus! {

/// Address that the processor jumps to when it services the vertical-blank
/// interrupt.
pub const VBLANK_VECTOR: u16 = 0x0040;

/// Clock ticks that servicing an interrupt takes.
pub const INTERRUPT_TICKS: u32 = 20;

/// The processor's registers: program counter, stack pointer, the
/// accumulator and flag register, six general registers, and the two
/// interrupt-control flags.
#[derive(Clone, Copy, Debug, PartialEq, Eq, Structural)]
pub struct CPU {
    pub pc: u16,
    pub sp: u16,
    pub a: u8,
    /// Flags in bits 7 to 4: zero, subtract, half-carry, carry.
    pub f: u8,
    pub b: u8,
    pub c: u8,
    pub d: u8,
    pub e: u8,
    pub h: u8,
    pub l: u8,
    /// Interrupts were asked to be enabled; the request takes effect after
    /// the next instruction.
    pub ei_pending: bool,
    /// Interrupt master enable.
    pub ime: bool,
}

/// The word with the given high and low bytes.
pub open spec fn word(high: u8, low: u8) -> u16 {
    (high * 256 + low) as u16
}

/// The high byte of a word.
pub open spec fn high_byte(v: u16) -> u8 {
    (v / 256) as u8
}

/// The low byte of a word.
pub open spec fn low_byte(v: u16) -> u8 {
    (v % 256) as u8
}

proof fn lemma_join(high: u8, low: u8)
    by (bit_vector)
    ensures
        ((high as u16) << 8) | (low as u16) == high * 256 + low,
{
}

proof fn lemma_split(v: u16)
    by (bit_vector)
    ensures
        v >> 8 == v / 256,
        v & 0xFF == v % 256,
        v & 0xF0 == v % 256 / 16 * 16,
{
}

proof fn lemma_flag_test(f: u8, m: u8)
    by (bit_vector)
    requires
        m == 0x80 || m == 0x40 || m == 0x20 || m == 0x10,
    ensures
        (f & m != 0) == (f / m % 2 == 1),
{
}

proof fn lemma_flag_mask(f: u8, m: u8)
    by (bit_vector)
    requires
        f % 16 == 0,
        m == 0x80 || m == 0x40 || m == 0x20 || m == 0x10,
    ensures
        (f | m) == f + (if f / m % 2 == 1 {
            0
        } else {
            m
        }),
        (f & !m) == f - (if f / m % 2 == 1 {
            m
        } else {
            0
        }),
        f == 128 * (f / 128 % 2) + 64 * (f / 64 % 2) + 32 * (f / 32 % 2) + 16 * (f / 16 % 2),
{
}

/// Joins two bytes into a word.
pub fn join(high: u8, low: u8) -> (v: u16)
    ensures
        v == word(high, low),
{
    proof {
        lemma_join(high, low);
    }
    ((high as u16) << 8) | (low as u16)
}

/// Splits a word into its high and its low byte.
pub fn split(v: u16) -> (r: (u8, u8))
    ensures
        r.0 == high_byte(v),
        r.1 == low_byte(v),
{
    proof {
        lemma_split(v);
    }
    ((v >> 8) as u8, (v & 0xFF) as u8)
}

impl CPU {
    /// The low nibble of the flag register is zero.
    pub open spec fn wf(self) -> bool {
        self.f % 16 == 0
    }

    /// The processor on a bus.
    pub open spec fn on(self, bus: BusState) -> Machine {
        Machine { cpu: self, bus }
    }

    /// The four flags.
    pub open spec fn flags(self) -> Flags {
        Flags::of(self.f)
    }

    /// The registers with the flags replaced.
    pub open spec fn with_flags(self, fl: Flags) -> CPU {
        CPU { f: fl.bits(), ..self }
    }

    /// The pair HL.
    pub open spec fn hl(self) -> u16 {
        word(self.h, self.l)
    }

    /// The value of a 16-bit register.
    pub open spec fn reg16(self, r: Reg16) -> u16 {
        match r {
            Reg16::BC => word(self.b, self.c),
            Reg16::DE => word(self.d, self.e),
            Reg16::HL => word(self.h, self.l),
            Reg16::SP => self.sp,
            Reg16::AF => word(self.a, self.f),
        }
    }

    /// The registers with a 16-bit register replaced. The low nibble of the
    /// flag register stays zero whatever is put in AF.
    pub open spec fn with_reg16(self, r: Reg16, v: u16) -> CPU {
        match r {
            Reg16::BC => CPU { b: high_byte(v), c: low_byte(v), ..self },
            Reg16::DE => CPU { d: high_byte(v), e: low_byte(v), ..self },
            Reg16::HL => CPU { h: high_byte(v), l: low_byte(v), ..self },
            Reg16::SP => CPU { sp: v, ..self },
            Reg16::AF => CPU { a: high_byte(v), f: (low_byte(v) / 16 * 16) as u8, ..self },
        }
    }

    /// Whether a branch condition holds.
    pub open spec fn holds(self, cc: Cond) -> bool {
        match cc {
            Cond::NotZero => !self.flags().z,
            Cond::Zero => self.flags().z,
            Cond::NoCarry => !self.flags().c,
            Cond::Carry => self.flags().c,
        }
    }

    /// The registers after an accumulator operation with the operand `v`.
    pub open spec fn alu(self, op: AluOp, v: u8) -> CPU {
        let (r, fl) = match op {
            AluOp::Add => add8_spec(self.a, v, false),
            AluOp::Adc => add8_spec(self.a, v, self.flags().c),
            AluOp::Sub => sub8_spec(self.a, v, false),
            AluOp::Sbc => sub8_spec(self.a, v, self.flags().c),
            AluOp::And => and8_spec(self.a, v),
            AluOp::Xor => xor8_spec(self.a, v),
            AluOp::Or => or8_spec(self.a, v),
            AluOp::Cp => (self.a, sub8_spec(self.a, v, false).1),
        };
        CPU { a: r, f: fl.bits(), ..self }
    }

    /// The registers as the boot program leaves them.
    pub open spec fn power_on() -> CPU {
        CPU {
            pc: 0x0100,
            sp: 0xFFFE,
            a: 0x01,
            f: 0xB0,
            b: 0x00,
            c: 0x13,
            d: 0x00,
            e: 0xD8,
            h: 0x01,
            l: 0x4D,
            ei_pending: false,
            ime: false,
        }
    }

    /// A processor in the state that the boot program leaves.
    pub fn new() -> (cpu: CPU)
        ensures
            cpu == CPU::power_on(),
            cpu.wf(),
    {
        CPU {
            pc: 0x0100,
            sp: 0xFFFE,
            a: 0x01,
            f: 0xB0,
            b: 0x00,
            c: 0x13,
            d: 0x00,
            e: 0xD8,
            h: 0x01,
            l: 0x4D,
            ei_pending: false,
            ime: false,
        }
    }

    /// Sets or clears the zero flag.
    pub fn set_flag_z(&mut self, v: bool)
        requires
            old(self).wf(),
        ensures
            *final(self) == old(self).with_flags(Flags { z: v, ..old(self).flags() }),
    {
        proof {
            lemma_flag_mask(self.f, 0x80);
        }
        if v {
            self.f |= 0x80;
        } else {
            self.f &= !0x80;
        }
    }

    /// Sets or clears the subtract flag.
    pub fn set_flag_n(&mut self, v: bool)
        requires
            old(self).wf(),
        ensures
            *final(self) == old(self).with_flags(Flags { n: v, ..old(self).flags() }),
    {
        proof {
            lemma_flag_mask(self.f, 0x40);
        }
        if v {
            self.f |= 0x40;
        } else {
            self.f &= !0x40;
        }
    }

    /// Sets or clears the half-carry flag.
    pub fn set_flag_h(&mut self, v: bool)
        requires
            old(self).wf(),
        ensures
            *final(self) == old(self).with_flags(Flags { h: v, ..old(self).flags() }),
    {
        proof {
            lemma_flag_mask(self.f, 0x20);
        }
        if v {
            self.f |= 0x20;
        } else {
            self.f &= !0x20;
        }
    }

    /// Sets or clears the carry flag.
    pub fn set_flag_c(&mut self, v: bool)
        requires
            old(self).wf(),
        ensures
            *final(self) == old(self).with_flags(Flags { c: v, ..old(self).flags() }),
    {
        proof {
            lemma_flag_mask(self.f, 0x10);
        }
        if v {
            self.f |= 0x10;
        } else {
            self.f &= !0x10;
        }
    }

    /// Reads the zero flag.
    pub fn get_flag_z(&self) -> (v: bool)
        ensures
            v == self.flags().z,
    {
        proof {
            lemma_flag_test(self.f, 0x80);
        }
        self.f & 0x80 != 0
    }

    /// Reads the subtract flag.
    pub fn get_flag_n(&self) -> (v: bool)
        ensures
            v == self.flags().n,
    {
        proof {
            lemma_flag_test(self.f, 0x40);
        }
        self.f & 0x40 != 0
    }

    /// Reads the half-carry flag.
    pub fn get_flag_h(&self) -> (v: bool)
        ensures
            v == self.flags().h,
    {
        proof {
            lemma_flag_test(self.f, 0x20);
        }
        self.f & 0x20 != 0
    }

    /// Reads the carry flag.
    pub fn get_flag_c(&self) -> (v: bool)
        ensures
            v == self.flags().c,
    {
        proof {
            lemma_flag_test(self.f, 0x10);
        }
        self.f & 0x10 != 0
    }

    /// The four flags, read from the flag register.
    pub fn get_flags(&self) -> (fl: Flags)
        ensures
            fl == self.flags(),
    {
        Flags {
            z: self.get_flag_z(),
            n: self.get_flag_n(),
            h: self.get_flag_h(),
            c: self.get_flag_c(),
        }
    }

    /// Puts the four flags into the flag register.
    pub fn set_flags(&mut self, fl: Flags)
        requires
            old(self).wf(),
        ensures
            *final(self) == old(self).with_flags(fl),
            final(self).wf(),
    {
        let ghost f0 = self.flags();
        self.set_flag_z(fl.z);
        proof {
            lemma_flags_round_trip(Flags { z: fl.z, ..f0 });
        }
        self.set_flag_n(fl.n);
        proof {
            lemma_flags_round_trip(Flags { z: fl.z, n: fl.n, ..f0 });
        }
        self.set_flag_h(fl.h);
        proof {
            lemma_flags_round_trip(Flags { z: fl.z, n: fl.n, h: fl.h, ..f0 });
        }
        self.set_flag_c(fl.c);
        proof {
            lemma_flags_round_trip(fl);
        }
    }

    /// Reads the accumulator and the flags as one word.
    pub fn get_af(&self) -> (v: u16)
        ensures
            v == self.reg16(Reg16::AF),
    {
        join(self.a, self.f)
    }

    /// Writes the accumulator and the flags; the low nibble of the flag register
    /// stays zero.
    pub fn set_af(&mut self, val: u16)
        ensures
            *final(self) == old(self).with_reg16(Reg16::AF, val),
            final(self).wf(),
    {
        proof {
            lemma_split(val);
        }
        self.a = (val >> 8) as u8;
        self.f = (val & 0xF0) as u8;
    }

    /// Reads the pair BC.
    pub fn get_bc(&self) -> (v: u16)
        ensures
            v == self.reg16(Reg16::BC),
    {
        join(self.b, self.c)
    }

    /// Writes the pair BC.
    pub fn set_bc(&mut self, val: u16)
        ensures
            *final(self) == old(self).with_reg16(Reg16::BC, val),
    {
        let (high, low) = split(val);
        self.b = high;
        self.c = low;
    }

    /// Reads the pair DE.
    pub fn get_de(&self) -> (v: u16)
        ensures
            v == self.reg16(Reg16::DE),
    {
        join(self.d, self.e)
    }

    /// Writes the pair DE.
    pub fn set_de(&mut self, val: u16)
        ensures
            *final(self) == old(self).with_reg16(Reg16::DE, val),
    {
        let (high, low) = split(val);
        self.d = high;
        self.e = low;
    }

    /// Reads the pair HL.
    pub fn get_hl(&self) -> (v: u16)
        ensures
            v == self.reg16(Reg16::HL),
            v == self.hl(),
    {
        join(self.h, self.l)
    }

    /// Writes the pair HL.
    pub fn set_hl(&mut self, val: u16)
        ensures
            *final(self) == old(self).with_reg16(Reg16::HL, val),
    {
        let (high, low) = split(val);
        self.h = high;
        self.l = low;
    }

    /// Reads a 16-bit register.
    pub fn get_reg16(&self, r: Reg16) -> (v: u16)
        ensures
            v == self.reg16(r),
    {
        match r {
            Reg16::BC => self.get_bc(),
            Reg16::DE => self.get_de(),
            Reg16::HL => self.get_hl(),
            Reg16::SP => self.sp,
            Reg16::AF => self.get_af(),
        }
    }

    /// Writes a 16-bit register.
    pub fn set_reg16(&mut self, r: Reg16, val: u16)
        requires
            old(self).wf(),
        ensures
            *final(self) == old(self).with_reg16(r, val),
            final(self).wf(),
    {
        match r {
            Reg16::BC => self.set_bc(val),
            Reg16::DE => self.set_de(val),
            Reg16::HL => self.set_hl(val),
            Reg16::SP => {
                self.sp = val;
            },
            Reg16::AF => self.set_af(val),
        }
    }

    /// Tests a branch condition.
    pub fn test(&self, cc: Cond) -> (taken: bool)
        ensures
            taken == self.holds(cc),
    {
        match cc {
            Cond::NotZero => !self.get_flag_z(),
            Cond::Zero => self.get_flag_z(),
            Cond::NoCarry => !self.get_flag_c(),
            Cond::Carry => self.get_flag_c(),
        }
    }

    /// Adds `b` to `a`, and the carry flag too where `carry` asks for it;
    /// sets all four flags.
    pub fn add8(&mut self, a: u8, b: u8, carry: bool) -> (res: u8)
        requires
            old(self).wf(),
        ensures
            res == add8_spec(a, b, carry && old(self).flags().c).0,
            *final(self) == old(self).with_flags(
                add8_spec(a, b, carry && old(self).flags().c).1,
            ),
            final(self).wf(),
    {
        let c = carry && self.get_flag_c();
        let (res, fl) = alu::add8(a, b, c);
        self.set_flags(fl);
        res
    }

    /// Subtracts `b` from `a`, and the carry flag too where `carry` asks for
    /// it; sets all four flags.
    pub fn sub8(&mut self, a: u8, b: u8, carry: bool) -> (res: u8)
        requires
            old(self).wf(),
        ensures
            res == sub8_spec(a, b, carry && old(self).flags().c).0,
            *final(self) == old(self).with_flags(
                sub8_spec(a, b, carry && old(self).flags().c).1,
            ),
            final(self).wf(),
    {
        let c = carry && self.get_flag_c();
        let (res, fl) = alu::sub8(a, b, c);
        self.set_flags(fl);
        res
    }

    /// Performs an accumulator operation with the operand `v`.
    pub fn accumulate(&mut self, op: AluOp, v: u8)
        requires
            old(self).wf(),
        ensures
            *final(self) == old(self).alu(op, v),
            final(self).wf(),
    {
        let a = self.a;
        match op {
            AluOp::Add => {
                self.a = self.add8(a, v, false);
            },
            AluOp::Adc => {
                self.a = self.add8(a, v, true);
            },
            AluOp::Sub => {
                self.a = self.sub8(a, v, false);
            },
            AluOp::Sbc => {
                self.a = self.sub8(a, v, true);
            },
            AluOp::And => {
                let (res, fl) = alu::and8(a, v);
                self.a = res;
                self.set_flags(fl);
            },
            AluOp::Xor => {
                let (res, fl) = alu::xor8(a, v);
                self.a = res;
                self.set_flags(fl);
            },
            AluOp::Or => {
                let (res, fl) = alu::or8(a, v);
                self.a = res;
                self.set_flags(fl);
            },
            AluOp::Cp => {
                let _ = self.sub8(a, v, false);
            },
        }
    }

    /// Reads the byte at the program counter and moves the counter past it.
    pub fn fetch_u8(&mut self, mmu: &MMU) -> (b: u8)
        ensures
            b == mmu@.read(old(self).pc, b),
            *final(self) == (CPU { pc: wrap16(old(self).pc + 1), ..*old(self) }),
    {
        let b = mmu.read_byte(self.pc);
        self.pc = self.pc.wrapping_add(1);
        b
    }

    /// Reads the word at the program counter, low byte first, and moves the
    /// counter past it.
    pub fn fetch_u16(&mut self, mmu: &MMU) -> (w: u16)
        ensures
            low_byte(w) == mmu@.read(old(self).pc, low_byte(w)),
            high_byte(w) == mmu@.read(wrap16(old(self).pc + 1), high_byte(w)),
            *final(self) == (CPU { pc: wrap16(old(self).pc + 2), ..*old(self) }),
    {
        let lo = self.fetch_u8(mmu);
        let hi = self.fetch_u8(mmu);
        join(hi, lo)
    }

    /// Reads an 8-bit place.
    pub fn load8(&self, mmu: &MMU, loc: Loc8) -> (v: u8)
        ensures
            v == self.on(mmu@).read8(loc, v),
    {
        match loc {
            Loc8::B => self.b,
            Loc8::C => self.c,
            Loc8::D => self.d,
            Loc8::E => self.e,
            Loc8::H => self.h,
            Loc8::L => self.l,
            Loc8::HlMem => mmu.read_byte(self.get_hl()),
            Loc8::A => self.a,
        }
    }

    /// Writes an 8-bit place.
    pub fn store8(&mut self, mmu: &mut MMU, loc: Loc8, v: u8)
        ensures
            final(self).on(final(mmu)@) == old(self).on(old(mmu)@).write8(
                loc,
                v,
                final(mmu)@.dma_sample(),
            ),
    {
        match loc {
            Loc8::B => {
                self.b = v;
            },
            Loc8::C => {
                self.c = v;
            },
            Loc8::D => {
                self.d = v;
            },
            Loc8::E => {
                self.e = v;
            },
            Loc8::H => {
                self.h = v;
            },
            Loc8::L => {
                self.l = v;
            },
            Loc8::HlMem => {
                mmu.write_byte(self.get_hl(), v);
            },
            Loc8::A => {
                self.a = v;
            },
        }
    }

    /// Pushes a word on the stack, low byte at the lower address.
    pub fn push(&mut self, mmu: &mut MMU, value: u16)
        ensures
            final(self).on(final(mmu)@) == old(self).on(old(mmu)@).push(
                value,
                final(mmu)@.dma_sample(),
            ),
    {
        let (high, low) = split(value);
        self.sp = self.sp.wrapping_sub(2);
        mmu.write_byte(self.sp, low);
        let ghost mid = mmu@;
        mmu.write_byte(self.sp.wrapping_add(1), high);
        proof {
            let d = mmu@.dma_sample();
            if !BusState::samples_divider(self.sp, low) {
                lemma_write_ignores_divider(old(mmu)@, self.sp, low, mid.dma_sample(), d);
            }
        }
    }

    /// Pops a word off the stack.
    pub fn pop(&mut self, mmu: &MMU) -> (v: u16)
        ensures
            (final(self).on(mmu@), v) == old(self).on(mmu@).pop(low_byte(v), high_byte(v)),
    {
        let lo = mmu.read_byte(self.sp);
        let hi = mmu.read_byte(self.sp.wrapping_add(1));
        self.sp = self.sp.wrapping_add(2);
        join(hi, lo)
    }

    /// Pushes the accumulator and the flags.
    pub fn push_af(&mut self, mmu: &mut MMU)
        ensures
            final(self).on(final(mmu)@) == old(self).on(old(mmu)@).push(
                old(self).reg16(Reg16::AF),
                final(mmu)@.dma_sample(),
            ),
    {
        let af = self.get_af();
        self.push(mmu, af);
    }

    /// Pops the accumulator and the flags; the low nibble of the flag
    /// register comes back as zero whatever was on the stack.
    pub fn pop_af(&mut self, mmu: &MMU)
        ensures
            final(self).wf(),
            exists|lo: u8, hi: u8|
                final(self).on(mmu@) == #[trigger] old(self).on(mmu@).pop_into(Reg16::AF, lo, hi),
    {
        let v = self.pop(mmu);
        self.set_af(v);
        assert(self.on(mmu@) == old(self).on(mmu@).pop_into(
            Reg16::AF,
            low_byte(v),
            high_byte(v),
        ));
    }

    /// Pushes a register pair, given as its two halves.
    pub fn push_reg_pair(&mut self, mmu: &mut MMU, high: u8, low: u8)
        ensures
            final(self).on(final(mmu)@) == old(self).on(old(mmu)@).push(
                word(high, low),
                final(mmu)@.dma_sample(),
            ),
    {
        self.push(mmu, join(high, low));
    }

    /// Pops a register pair, as its two halves.
    pub fn pop_reg_pair(&mut self, mmu: &MMU) -> (r: (u8, u8))
        ensures
            (final(self).on(mmu@), word(r.0, r.1)) == old(self).on(mmu@).pop(r.1, r.0),
    {
        let value = self.pop(mmu);
        split(value)
    }

    /// Whether the vertical-blank interrupt is both requested and enabled.
    pub fn vblank_pending(&self, mmu: &MMU) -> (pending: bool)
        ensures
            pending == self.on(mmu@).vblank_pending(),
    {
        (mmu.read_byte(IE) & mmu.read_byte(IFLAG)) & 0x01 != 0
    }

    /// Services the vertical-blank interrupt.
    pub fn service_interrupt(&mut self, mmu: &mut MMU) -> (t: u32)
        ensures
            t == INTERRUPT_TICKS,
            final(self).on(final(mmu)@) == old(self).on(old(mmu)@).service(
                final(mmu)@.dma_sample(),
            ),
    {
        let iflag = mmu.read_byte(IFLAG) & !0x01;
        mmu.write_byte(IFLAG, iflag);
        self.ime = false;
        let pc = self.pc;
        self.push(mmu, pc);
        self.pc = VBLANK_VECTOR;
        INTERRUPT_TICKS
    }

    /// Moves the program counter by a signed offset.
    pub fn jump_relative(&mut self, off: u8)
        ensures
            *final(self) == (CPU { pc: wrap16(old(self).pc + signed(off)), ..*old(self) }),
    {
        if off < 128 {
            self.pc = self.pc.wrapping_add(off as u16);
        } else {
            self.pc = self.pc.wrapping_sub(256 - off as u16);
        }
    }

    /// Fetches and decodes the instruction at the program counter, and keeps
    /// track of what was read.
    fn fetch_traced(&mut self, mmu: &MMU) -> (r: (Result<Instr, Fault>, Ghost<FetchSamples>))
        ensures
            (final(self).on(mmu@), r.0) == old(self).on(mmu@).fetch(r.1@),
            r.0 matches Ok(i) ==> i.valid(),
            final(self).f == old(self).f,
    {
        let op = self.fetch_u8(mmu);
        let n = operand_len(op);
        let operand: u16 = if n == 2 {
            self.fetch_u16(mmu)
        } else if n == 1 {
            self.fetch_u8(mmu) as u16
        } else {
            0
        };
        let ghost s = FetchSamples {
            opcode: op,
            operand_lo: low_byte(operand),
            operand_hi: high_byte(operand),
        };
        (decode(op, operand), Ghost(s))
    }

    /// Does nothing.
    fn op_nop(&mut self, mmu: &mut MMU) -> (out: (u32, Ghost<DataSamples>))
        requires
            old(self).wf(),
        ensures
            final(self).wf(),
            old(self).on(old(mmu)@).executes(
                Instr::Flow(Flow::Nop),
                out.1@,
                final(self).on(final(mmu)@),
                out.0,
            ),
    {
        proof {
            reveal(Machine::executes);
        }
        (4, Ghost(DataSamples { lo: 0, hi: 0, dma: mmu@.dma_sample() }))
    }

    /// Loads a 16-bit register with an immediate word.
    fn op_ld_word(&mut self, mmu: &mut MMU, r: Reg16, v: u16) -> (out: (u32, Ghost<DataSamples>))
        requires
            old(self).wf(),
        ensures
            final(self).wf(),
            old(self).on(old(mmu)@).executes(
                Instr::Load(Load::LdWord(r, v)),
                out.1@,
                final(self).on(final(mmu)@),
                out.0,
            ),
    {
        proof {
            reveal(Machine::executes);
        }
        self.set_reg16(r, v);
        (12, Ghost(DataSamples { lo: 0, hi: 0, dma: mmu@.dma_sample() }))
    }

    /// Stores the accumulator where a register pair points.
    fn op_store_a(&mut self, mmu: &mut MMU, r: Reg16) -> (out: (u32, Ghost<DataSamples>))
        requires
            old(self).wf(),
        ensures
            final(self).wf(),
            old(self).on(old(mmu)@).executes(
                Instr::Load(Load::StoreA(r)),
                out.1@,
                final(self).on(final(mmu)@),
                out.0,
            ),
    {
        proof {
            reveal(Machine::executes);
        }
        mmu.write_byte(self.get_reg16(r), self.a);
        (8, Ghost(DataSamples { lo: 0, hi: 0, dma: mmu@.dma_sample() }))
    }

    /// Loads the accumulator from where a register pair points.
    fn op_load_a(&mut self, mmu: &mut MMU, r: Reg16) -> (out: (u32, Ghost<DataSamples>))
        requires
            old(self).wf(),
        ensures
            final(self).wf(),
            old(self).on(old(mmu)@).executes(
                Instr::Load(Load::LoadA(r)),
                out.1@,
                final(self).on(final(mmu)@),
                out.0,
            ),
    {
        proof {
            reveal(Machine::executes);
        }
        self.a = mmu.read_byte(self.get_reg16(r));
        (8, Ghost(DataSamples { lo: self.a, hi: 0, dma: mmu@.dma_sample() }))
    }

    /// Stores the accumulator where HL points, then moves HL up.
    fn op_store_a_inc(&mut self, mmu: &mut MMU) -> (out: (u32, Ghost<DataSamples>))
        requires
            old(self).wf(),
        ensures
            final(self).wf(),
            old(self).on(old(mmu)@).executes(
                Instr::Load(Load::StoreAInc),
                out.1@,
                final(self).on(final(mmu)@),
                out.0,
            ),
    {
        proof {
            reveal(Machine::executes);
        }
        let hl = self.get_hl();
        mmu.write_byte(hl, self.a);
        self.set_hl(alu::inc16(hl));
        (8, Ghost(DataSamples { lo: 0, hi: 0, dma: mmu@.dma_sample() }))
    }

    /// Stores the accumulator where HL points, then moves HL down.
    fn op_store_a_dec(&mut self, mmu: &mut MMU) -> (out: (u32, Ghost<DataSamples>))
        requires
            old(self).wf(),
        ensures
            final(self).wf(),
            old(self).on(old(mmu)@).executes(
                Instr::Load(Load::StoreADec),
                out.1@,
                final(self).on(final(mmu)@),
                out.0,
            ),
    {
        proof {
            reveal(Machine::executes);
        }
        let hl = self.get_hl();
        mmu.write_byte(hl, self.a);
        self.set_hl(alu::dec16(hl));
        (8, Ghost(DataSamples { lo: 0, hi: 0, dma: mmu@.dma_sample() }))
    }

    /// Loads the accumulator from where HL points, then moves HL up.
    fn op_load_a_inc(&mut self, mmu: &mut MMU) -> (out: (u32, Ghost<DataSamples>))
        requires
            old(self).wf(),
        ensures
            final(self).wf(),
            old(self).on(old(mmu)@).executes(
                Instr::Load(Load::LoadAInc),
                out.1@,
                final(self).on(final(mmu)@),
                out.0,
            ),
    {
        proof {
            reveal(Machine::executes);
        }
        let hl = self.get_hl();
        self.a = mmu.read_byte(hl);
        self.set_hl(alu::inc16(hl));
        (8, Ghost(DataSamples { lo: self.a, hi: 0, dma: mmu@.dma_sample() }))
    }

    /// Loads the accumulator from where HL points, then moves HL down.
    fn op_load_a_dec(&mut self, mmu: &mut MMU) -> (out: (u32, Ghost<DataSamples>))
        requires
            old(self).wf(),
        ensures
            final(self).wf(),
            old(self).on(old(mmu)@).executes(
                Instr::Load(Load::LoadADec),
                out.1@,
                final(self).on(final(mmu)@),
                out.0,
            ),
    {
        proof {
            reveal(Machine::executes);
        }
        let hl = self.get_hl();
        self.a = mmu.read_byte(hl);
        self.set_hl(alu::dec16(hl));
        (8, Ghost(DataSamples { lo: self.a, hi: 0, dma: mmu@.dma_sample() }))
    }

    /// Adds one to a 16-bit register; no flag changes.
    fn op_inc_word(&mut self, mmu: &mut MMU, r: Reg16) -> (out: (u32, Ghost<DataSamples>))
        requires
            old(self).wf(),
        ensures
            final(self).wf(),
            old(self).on(old(mmu)@).executes(
                Instr::Arith(Arith::IncWord(r)),
                out.1@,
                final(self).on(final(mmu)@),
                out.0,
            ),
    {
        proof {
            reveal(Machine::executes);
        }
        let v = alu::inc16(self.get_reg16(r));
        self.set_reg16(r, v);
        (8, Ghost(DataSamples { lo: 0, hi: 0, dma: mmu@.dma_sample() }))
    }

    /// Takes one from a 16-bit register; no flag changes.
    fn op_dec_word(&mut self, mmu: &mut MMU, r: Reg16) -> (out: (u32, Ghost<DataSamples>))
        requires
            old(self).wf(),
        ensures
            final(self).wf(),
            old(self).on(old(mmu)@).executes(
                Instr::Arith(Arith::DecWord(r)),
                out.1@,
                final(self).on(final(mmu)@),
                out.0,
            ),
    {
        proof {
            reveal(Machine::executes);
        }
        let v = alu::dec16(self.get_reg16(r));
        self.set_reg16(r, v);
        (8, Ghost(DataSamples { lo: 0, hi: 0, dma: mmu@.dma_sample() }))
    }

    /// Adds one to an 8-bit place.
    fn op_inc(&mut self, mmu: &mut MMU, loc: Loc8) -> (out: (u32, Ghost<DataSamples>))
        requires
            old(self).wf(),
        ensures
            final(self).wf(),
            old(self).on(old(mmu)@).executes(
                Instr::Arith(Arith::Inc(loc)),
                out.1@,
                final(self).on(final(mmu)@),
                out.0,
            ),
    {
        proof {
            reveal(Machine::executes);
        }
        let v = self.load8(mmu, loc);
        let (res, fl) = alu::inc8(v, self.get_flags());
        self.set_flags(fl);
        self.store8(mmu, loc, res);
        (cost(loc, 4, 12), Ghost(DataSamples { lo: v, hi: 0, dma: mmu@.dma_sample() }))
    }

    /// Takes one from an 8-bit place.
    fn op_dec(&mut self, mmu: &mut MMU, loc: Loc8) -> (out: (u32, Ghost<DataSamples>))
        requires
            old(self).wf(),
        ensures
            final(self).wf(),
            old(self).on(old(mmu)@).executes(
                Instr::Arith(Arith::Dec(loc)),
                out.1@,
                final(self).on(final(mmu)@),
                out.0,
            ),
    {
        proof {
            reveal(Machine::executes);
        }
        let v = self.load8(mmu, loc);
        let (res, fl) = alu::dec8(v, self.get_flags());
        self.set_flags(fl);
        self.store8(mmu, loc, res);
        (cost(loc, 4, 12), Ghost(DataSamples { lo: v, hi: 0, dma: mmu@.dma_sample() }))
    }

    /// Loads an 8-bit place with an immediate byte.
    fn op_ld_byte(&mut self, mmu: &mut MMU, loc: Loc8, v: u8) -> (out: (u32, Ghost<DataSamples>))
        requires
            old(self).wf(),
        ensures
            final(self).wf(),
            old(self).on(old(mmu)@).executes(
                Instr::Load(Load::LdByte(loc, v)),
                out.1@,
                final(self).on(final(mmu)@),
                out.0,
            ),
    {
        proof {
            reveal(Machine::executes);
        }
        self.store8(mmu, loc, v);
        (cost(loc, 8, 12), Ghost(DataSamples { lo: 0, hi: 0, dma: mmu@.dma_sample() }))
    }

    /// Rotates the accumulator to the left.
    fn op_rlca(&mut self, mmu: &mut MMU) -> (out: (u32, Ghost<DataSamples>))
        requires
            old(self).wf(),
        ensures
            final(self).wf(),
            old(self).on(old(mmu)@).executes(
                Instr::Arith(Arith::Rlca),
                out.1@,
                final(self).on(final(mmu)@),
                out.0,
            ),
    {
        proof {
            reveal(Machine::executes);
        }
        let (res, fl) = alu::rlca(self.a);
        self.a = res;
        self.set_flags(fl);
        (4, Ghost(DataSamples { lo: 0, hi: 0, dma: mmu@.dma_sample() }))
    }

    /// Adjusts the accumulator to packed decimal.
    fn op_daa(&mut self, mmu: &mut MMU) -> (out: (u32, Ghost<DataSamples>))
        requires
            old(self).wf(),
        ensures
            final(self).wf(),
            old(self).on(old(mmu)@).executes(
                Instr::Arith(Arith::Daa),
                out.1@,
                final(self).on(final(mmu)@),
                out.0,
            ),
    {
        proof {
            reveal(Machine::executes);
        }
        let (res, fl) = alu::daa(self.a, self.get_flags());
        self.a = res;
        self.set_flags(fl);
        (4, Ghost(DataSamples { lo: 0, hi: 0, dma: mmu@.dma_sample() }))
    }

    /// Complements the accumulator.
    fn op_cpl(&mut self, mmu: &mut MMU) -> (out: (u32, Ghost<DataSamples>))
        requires
            old(self).wf(),
        ensures
            final(self).wf(),
            old(self).on(old(mmu)@).executes(
                Instr::Arith(Arith::Cpl),
                out.1@,
                final(self).on(final(mmu)@),
                out.0,
            ),
    {
        proof {
            reveal(Machine::executes);
        }
        let (res, fl) = alu::cpl(self.a, self.get_flags());
        self.a = res;
        self.set_flags(fl);
        (4, Ghost(DataSamples { lo: 0, hi: 0, dma: mmu@.dma_sample() }))
    }

    /// Adds a 16-bit register to HL.
    fn op_add_hl(&mut self, mmu: &mut MMU, r: Reg16) -> (out: (u32, Ghost<DataSamples>))
        requires
            old(self).wf(),
        ensures
            final(self).wf(),
            old(self).on(old(mmu)@).executes(
                Instr::Arith(Arith::AddHl(r)),
                out.1@,
                final(self).on(final(mmu)@),
                out.0,
            ),
    {
        proof {
            reveal(Machine::executes);
        }
        let (res, fl) = alu::add16(self.get_hl(), self.get_reg16(r), self.get_flags());
        self.set_flags(fl);
        self.set_hl(res);
        (8, Ghost(DataSamples { lo: 0, hi: 0, dma: mmu@.dma_sample() }))
    }

    /// Jumps by a signed offset.
    fn op_jr(&mut self, mmu: &mut MMU, off: u8) -> (out: (u32, Ghost<DataSamples>))
        requires
            old(self).wf(),
        ensures
            final(self).wf(),
            old(self).on(old(mmu)@).executes(
                Instr::Flow(Flow::Jr(off)),
                out.1@,
                final(self).on(final(mmu)@),
                out.0,
            ),
    {
        proof {
            reveal(Machine::executes);
        }
        self.jump_relative(off);
        (12, Ghost(DataSamples { lo: 0, hi: 0, dma: mmu@.dma_sample() }))
    }

    /// Jumps by a signed offset if the condition holds.
    fn op_jr_if(&mut self, mmu: &mut MMU, cc: Cond, off: u8) -> (out: (u32, Ghost<DataSamples>))
        requires
            old(self).wf(),
        ensures
            final(self).wf(),
            old(self).on(old(mmu)@).executes(
                Instr::Flow(Flow::JrIf(cc, off)),
                out.1@,
                final(self).on(final(mmu)@),
                out.0,
            ),
    {
        proof {
            reveal(Machine::executes);
        }
        let t: u32 = if self.test(cc) {
            self.jump_relative(off);
            12
        } else {
            8
        };
        (t, Ghost(DataSamples { lo: 0, hi: 0, dma: mmu@.dma_sample() }))
    }

    /// Copies one 8-bit place to another.
    fn op_ld(&mut self, mmu: &mut MMU, dst: Loc8, src: Loc8) -> (out: (u32, Ghost<DataSamples>))
        requires
            old(self).wf(),
        ensures
            final(self).wf(),
            old(self).on(old(mmu)@).executes(
                Instr::Load(Load::Ld(dst, src)),
                out.1@,
                final(self).on(final(mmu)@),
                out.0,
            ),
    {
        proof {
            reveal(Machine::executes);
        }
        let v = self.load8(mmu, src);
        self.store8(mmu, dst, v);
        let t: u32 = if matches!(dst, Loc8::HlMem) || matches!(src, Loc8::HlMem) {
            8
        } else {
            4
        };
        (t, Ghost(DataSamples { lo: v, hi: 0, dma: mmu@.dma_sample() }))
    }

    /// Operates on the accumulator with an 8-bit place.
    fn op_alu(&mut self, mmu: &mut MMU, op: AluOp, src: Loc8) -> (out: (u32, Ghost<DataSamples>))
        requires
            old(self).wf(),
        ensures
            final(self).wf(),
            old(self).on(old(mmu)@).executes(
                Instr::Arith(Arith::Alu(op, src)),
                out.1@,
                final(self).on(final(mmu)@),
                out.0,
            ),
    {
        proof {
            reveal(Machine::executes);
        }
        let v = self.load8(mmu, src);
        self.accumulate(op, v);
        (cost(src, 4, 8), Ghost(DataSamples { lo: v, hi: 0, dma: mmu@.dma_sample() }))
    }

    /// Operates on the accumulator with an immediate byte.
    fn op_alu_byte(&mut self, mmu: &mut MMU, op: AluOp, v: u8) -> (out: (u32, Ghost<DataSamples>))
        requires
            old(self).wf(),
        ensures
            final(self).wf(),
            old(self).on(old(mmu)@).executes(
                Instr::Arith(Arith::AluByte(op, v)),
                out.1@,
                final(self).on(final(mmu)@),
                out.0,
            ),
    {
        proof {
            reveal(Machine::executes);
        }
        self.accumulate(op, v);
        (8, Ghost(DataSamples { lo: 0, hi: 0, dma: mmu@.dma_sample() }))
    }

    /// Returns from a call.
    fn op_ret(&mut self, mmu: &mut MMU) -> (out: (u32, Ghost<DataSamples>))
        requires
            old(self).wf(),
        ensures
            final(self).wf(),
            old(self).on(old(mmu)@).executes(
                Instr::Flow(Flow::Ret),
                out.1@,
                final(self).on(final(mmu)@),
                out.0,
            ),
    {
        proof {
            reveal(Machine::executes);
        }
        let addr = self.pop(mmu);
        self.pc = addr;
        (16, Ghost(DataSamples { lo: low_byte(addr), hi: high_byte(addr), dma: mmu@.dma_sample() }))
    }

    /// Returns from a call if the condition holds.
    fn op_ret_if(&mut self, mmu: &mut MMU, cc: Cond) -> (out: (u32, Ghost<DataSamples>))
        requires
            old(self).wf(),
        ensures
            final(self).wf(),
            old(self).on(old(mmu)@).executes(
                Instr::Flow(Flow::RetIf(cc)),
                out.1@,
                final(self).on(final(mmu)@),
                out.0,
            ),
    {
        proof {
            reveal(Machine::executes);
        }
        let ghost mut lo: u8 = 0;
        let ghost mut hi: u8 = 0;
        let t: u32 = if self.test(cc) {
            let addr = self.pop(mmu);
            proof {
                lo = low_byte(addr);
                hi = high_byte(addr);
            }
            self.pc = addr;
            20
        } else {
            8
        };
        (t, Ghost(DataSamples { lo: lo, hi: hi, dma: mmu@.dma_sample() }))
    }

    /// Returns from an interrupt handler and enables interrupts.
    fn op_reti(&mut self, mmu: &mut MMU) -> (out: (u32, Ghost<DataSamples>))
        requires
            old(self).wf(),
        ensures
            final(self).wf(),
            old(self).on(old(mmu)@).executes(
                Instr::Flow(Flow::Reti),
                out.1@,
                final(self).on(final(mmu)@),
                out.0,
            ),
    {
        proof {
            reveal(Machine::executes);
        }
        let addr = self.pop(mmu);
        self.pc = addr;
        self.ime = true;
        (16, Ghost(DataSamples { lo: low_byte(addr), hi: high_byte(addr), dma: mmu@.dma_sample() }))
    }

    /// Pops a 16-bit register.
    fn op_pop(&mut self, mmu: &mut MMU, r: Reg16) -> (out: (u32, Ghost<DataSamples>))
        requires
            old(self).wf(),
        ensures
            final(self).wf(),
            old(self).on(old(mmu)@).executes(
                Instr::Load(Load::Pop(r)),
                out.1@,
                final(self).on(final(mmu)@),
                out.0,
            ),
    {
        proof {
            reveal(Machine::executes);
        }
        let ghost mut lo: u8 = 0;
        let ghost mut hi: u8 = 0;
        match r {
            Reg16::AF => {
                self.pop_af(mmu);
                proof {
                    let (l, h) = choose|l: u8, h: u8|
                        self.on(mmu@) == #[trigger] old(self).on(mmu@).pop_into(Reg16::AF, l, h);
                    lo = l;
                    hi = h;
                }
            },
            _ => {
                let (high, low) = self.pop_reg_pair(mmu);
                proof {
                    lo = low;
                    hi = high;
                }
                self.set_reg16(r, join(high, low));
            },
        }
        (12, Ghost(DataSamples { lo: lo, hi: hi, dma: mmu@.dma_sample() }))
    }

    /// Pushes a 16-bit register.
    fn op_push(&mut self, mmu: &mut MMU, r: Reg16) -> (out: (u32, Ghost<DataSamples>))
        requires
            old(self).wf(),
        ensures
            final(self).wf(),
            old(self).on(old(mmu)@).executes(
                Instr::Load(Load::Push(r)),
                out.1@,
                final(self).on(final(mmu)@),
                out.0,
            ),
    {
        proof {
            reveal(Machine::executes);
        }
        match r {
            Reg16::BC => self.push_reg_pair(mmu, self.b, self.c),
            Reg16::DE => self.push_reg_pair(mmu, self.d, self.e),
            Reg16::HL => self.push_reg_pair(mmu, self.h, self.l),
            Reg16::SP => {
                let sp = self.sp;
                self.push(mmu, sp);
            },
            Reg16::AF => self.push_af(mmu),
        }
        (16, Ghost(DataSamples { lo: 0, hi: 0, dma: mmu@.dma_sample() }))
    }

    /// Jumps to an address.
    fn op_jp(&mut self, mmu: &mut MMU, addr: u16) -> (out: (u32, Ghost<DataSamples>))
        requires
            old(self).wf(),
        ensures
            final(self).wf(),
            old(self).on(old(mmu)@).executes(
                Instr::Flow(Flow::Jp(addr)),
                out.1@,
                final(self).on(final(mmu)@),
                out.0,
            ),
    {
        proof {
            reveal(Machine::executes);
        }
        self.pc = addr;
        (16, Ghost(DataSamples { lo: 0, hi: 0, dma: mmu@.dma_sample() }))
    }

    /// Jumps to an address if the condition holds.
    fn op_jp_if(&mut self, mmu: &mut MMU, cc: Cond, addr: u16) -> (out: (u32, Ghost<DataSamples>))
        requires
            old(self).wf(),
        ensures
            final(self).wf(),
            old(self).on(old(mmu)@).executes(
                Instr::Flow(Flow::JpIf(cc, addr)),
                out.1@,
                final(self).on(final(mmu)@),
                out.0,
            ),
    {
        proof {
            reveal(Machine::executes);
        }
        let t: u32 = if self.test(cc) {
            self.pc = addr;
            16
        } else {
            12
        };
        (t, Ghost(DataSamples { lo: 0, hi: 0, dma: mmu@.dma_sample() }))
    }

    /// Jumps to the address in HL.
    fn op_jp_hl(&mut self, mmu: &mut MMU) -> (out: (u32, Ghost<DataSamples>))
        requires
            old(self).wf(),
        ensures
            final(self).wf(),
            old(self).on(old(mmu)@).executes(
                Instr::Flow(Flow::JpHl),
                out.1@,
                final(self).on(final(mmu)@),
                out.0,
            ),
    {
        proof {
            reveal(Machine::executes);
        }
        self.pc = self.get_hl();
        (4, Ghost(DataSamples { lo: 0, hi: 0, dma: mmu@.dma_sample() }))
    }

    /// Calls a subroutine: pushes the return address and jumps.
    fn op_call(&mut self, mmu: &mut MMU, addr: u16) -> (out: (u32, Ghost<DataSamples>))
        requires
            old(self).wf(),
        ensures
            final(self).wf(),
            old(self).on(old(mmu)@).executes(
                Instr::Flow(Flow::Call(addr)),
                out.1@,
                final(self).on(final(mmu)@),
                out.0,
            ),
    {
        proof {
            reveal(Machine::executes);
        }
        let pc = self.pc;
        self.push(mmu, pc);
        self.pc = addr;
        (24, Ghost(DataSamples { lo: 0, hi: 0, dma: mmu@.dma_sample() }))
    }

    /// Calls a fixed address in the first page.
    fn op_rst(&mut self, mmu: &mut MMU, addr: u8) -> (out: (u32, Ghost<DataSamples>))
        requires
            old(self).wf(),
        ensures
            final(self).wf(),
            old(self).on(old(mmu)@).executes(
                Instr::Flow(Flow::Rst(addr)),
                out.1@,
                final(self).on(final(mmu)@),
                out.0,
            ),
    {
        proof {
            reveal(Machine::executes);
        }
        let pc = self.pc;
        self.push(mmu, pc);
        self.pc = addr as u16;
        (16, Ghost(DataSamples { lo: 0, hi: 0, dma: mmu@.dma_sample() }))
    }

    /// Stores the accumulator in the high page, at an immediate offset.
    fn op_store_high(&mut self, mmu: &mut MMU, n: u8) -> (out: (u32, Ghost<DataSamples>))
        requires
            old(self).wf(),
        ensures
            final(self).wf(),
            old(self).on(old(mmu)@).executes(
                Instr::Load(Load::StoreHigh(n)),
                out.1@,
                final(self).on(final(mmu)@),
                out.0,
            ),
    {
        proof {
            reveal(Machine::executes);
        }
        mmu.write_byte(0xFF00 + n as u16, self.a);
        (12, Ghost(DataSamples { lo: 0, hi: 0, dma: mmu@.dma_sample() }))
    }

    /// Loads the accumulator from the high page, at an immediate offset.
    fn op_load_high(&mut self, mmu: &mut MMU, n: u8) -> (out: (u32, Ghost<DataSamples>))
        requires
            old(self).wf(),
        ensures
            final(self).wf(),
            old(self).on(old(mmu)@).executes(
                Instr::Load(Load::LoadHigh(n)),
                out.1@,
                final(self).on(final(mmu)@),
                out.0,
            ),
    {
        proof {
            reveal(Machine::executes);
        }
        self.a = mmu.read_byte(0xFF00 + n as u16);
        (12, Ghost(DataSamples { lo: self.a, hi: 0, dma: mmu@.dma_sample() }))
    }

    /// Stores the accumulator in the high page, at the offset in C.
    fn op_store_high_c(&mut self, mmu: &mut MMU) -> (out: (u32, Ghost<DataSamples>))
        requires
            old(self).wf(),
        ensures
            final(self).wf(),
            old(self).on(old(mmu)@).executes(
                Instr::Load(Load::StoreHighC),
                out.1@,
                final(self).on(final(mmu)@),
                out.0,
            ),
    {
        proof {
            reveal(Machine::executes);
        }
        mmu.write_byte(0xFF00 + self.c as u16, self.a);
        (8, Ghost(DataSamples { lo: 0, hi: 0, dma: mmu@.dma_sample() }))
    }

    /// Stores the accumulator at an immediate address.
    fn op_store_at(&mut self, mmu: &mut MMU, addr: u16) -> (out: (u32, Ghost<DataSamples>))
        requires
            old(self).wf(),
        ensures
            final(self).wf(),
            old(self).on(old(mmu)@).executes(
                Instr::Load(Load::StoreAt(addr)),
                out.1@,
                final(self).on(final(mmu)@),
                out.0,
            ),
    {
        proof {
            reveal(Machine::executes);
        }
        mmu.write_byte(addr, self.a);
        (16, Ghost(DataSamples { lo: 0, hi: 0, dma: mmu@.dma_sample() }))
    }

    /// Loads the accumulator from an immediate address.
    fn op_load_at(&mut self, mmu: &mut MMU, addr: u16) -> (out: (u32, Ghost<DataSamples>))
        requires
            old(self).wf(),
        ensures
            final(self).wf(),
            old(self).on(old(mmu)@).executes(
                Instr::Load(Load::LoadAt(addr)),
                out.1@,
                final(self).on(final(mmu)@),
                out.0,
            ),
    {
        proof {
            reveal(Machine::executes);
        }
        self.a = mmu.read_byte(addr);
        (16, Ghost(DataSamples { lo: self.a, hi: 0, dma: mmu@.dma_sample() }))
    }

    /// Asks for interrupts to be enabled after the next instruction.
    fn op_ei(&mut self, mmu: &mut MMU) -> (out: (u32, Ghost<DataSamples>))
        requires
            old(self).wf(),
        ensures
            final(self).wf(),
            old(self).on(old(mmu)@).executes(
                Instr::Flow(Flow::Ei),
                out.1@,
                final(self).on(final(mmu)@),
                out.0,
            ),
    {
        proof {
            reveal(Machine::executes);
        }
        self.ei_pending = true;
        (4, Ghost(DataSamples { lo: 0, hi: 0, dma: mmu@.dma_sample() }))
    }

    /// Disables interrupts.
    fn op_di(&mut self, mmu: &mut MMU) -> (out: (u32, Ghost<DataSamples>))
        requires
            old(self).wf(),
        ensures
            final(self).wf(),
            old(self).on(old(mmu)@).executes(
                Instr::Flow(Flow::Di),
                out.1@,
                final(self).on(final(mmu)@),
                out.0,
            ),
    {
        proof {
            reveal(Machine::executes);
        }
        self.ime = false;
        (4, Ghost(DataSamples { lo: 0, hi: 0, dma: mmu@.dma_sample() }))
    }

    /// Shifts an 8-bit place to the left.
    fn op_sla(&mut self, mmu: &mut MMU, loc: Loc8) -> (out: (u32, Ghost<DataSamples>))
        requires
            old(self).wf(),
        ensures
            final(self).wf(),
            old(self).on(old(mmu)@).executes(
                Instr::Bits(Bits::Sla(loc)),
                out.1@,
                final(self).on(final(mmu)@),
                out.0,
            ),
    {
        proof {
            reveal(Machine::executes);
        }
        let v = self.load8(mmu, loc);
        let (res, fl) = alu::sla(v);
        self.set_flags(fl);
        self.store8(mmu, loc, res);
        (cost(loc, 8, 16), Ghost(DataSamples { lo: v, hi: 0, dma: mmu@.dma_sample() }))
    }

    /// Exchanges the nibbles of an 8-bit place.
    fn op_swap(&mut self, mmu: &mut MMU, loc: Loc8) -> (out: (u32, Ghost<DataSamples>))
        requires
            old(self).wf(),
        ensures
            final(self).wf(),
            old(self).on(old(mmu)@).executes(
                Instr::Bits(Bits::Swap(loc)),
                out.1@,
                final(self).on(final(mmu)@),
                out.0,
            ),
    {
        proof {
            reveal(Machine::executes);
        }
        let v = self.load8(mmu, loc);
        let (res, fl) = alu::swap(v);
        self.set_flags(fl);
        self.store8(mmu, loc, res);
        (cost(loc, 8, 16), Ghost(DataSamples { lo: v, hi: 0, dma: mmu@.dma_sample() }))
    }

    /// Shifts an 8-bit place to the right.
    fn op_srl(&mut self, mmu: &mut MMU, loc: Loc8) -> (out: (u32, Ghost<DataSamples>))
        requires
            old(self).wf(),
        ensures
            final(self).wf(),
            old(self).on(old(mmu)@).executes(
                Instr::Bits(Bits::Srl(loc)),
                out.1@,
                final(self).on(final(mmu)@),
                out.0,
            ),
    {
        proof {
            reveal(Machine::executes);
        }
        let v = self.load8(mmu, loc);
        let (res, fl) = alu::srl(v);
        self.set_flags(fl);
        self.store8(mmu, loc, res);
        (cost(loc, 8, 16), Ghost(DataSamples { lo: v, hi: 0, dma: mmu@.dma_sample() }))
    }

    /// Tests one bit of an 8-bit place.
    fn op_test_bit(&mut self, mmu: &mut MMU, bit: u8, loc: Loc8) -> (out: (u32, Ghost<DataSamples>))
        requires
            old(self).wf(),
            bit < 8,
        ensures
            final(self).wf(),
            old(self).on(old(mmu)@).executes(
                Instr::Bits(Bits::TestBit(bit, loc)),
                out.1@,
                final(self).on(final(mmu)@),
                out.0,
            ),
    {
        proof {
            reveal(Machine::executes);
        }
        let v = self.load8(mmu, loc);
        let fl = alu::test_bit(bit, v, self.get_flags());
        self.set_flags(fl);
        (cost(loc, 8, 12), Ghost(DataSamples { lo: v, hi: 0, dma: mmu@.dma_sample() }))
    }

    /// Clears one bit of an 8-bit place.
    fn op_clear_bit(
        &mut self,
        mmu: &mut MMU,
        bit: u8,
        loc: Loc8,
    ) -> (out: (u32, Ghost<DataSamples>))
        requires
            old(self).wf(),
            bit < 8,
        ensures
            final(self).wf(),
            old(self).on(old(mmu)@).executes(
                Instr::Bits(Bits::ClearBit(bit, loc)),
                out.1@,
                final(self).on(final(mmu)@),
                out.0,
            ),
    {
        proof {
            reveal(Machine::executes);
        }
        let v = self.load8(mmu, loc);
        self.store8(mmu, loc, alu::clear_bit(bit, v));
        (cost(loc, 8, 16), Ghost(DataSamples { lo: v, hi: 0, dma: mmu@.dma_sample() }))
    }

    /// Sets one bit of an 8-bit place.
    fn op_set_bit(&mut self, mmu: &mut MMU, bit: u8, loc: Loc8) -> (out: (u32, Ghost<DataSamples>))
        requires
            old(self).wf(),
            bit < 8,
        ensures
            final(self).wf(),
            old(self).on(old(mmu)@).executes(
                Instr::Bits(Bits::SetBit(bit, loc)),
                out.1@,
                final(self).on(final(mmu)@),
                out.0,
            ),
    {
        proof {
            reveal(Machine::executes);
        }
        let v = self.load8(mmu, loc);
        self.store8(mmu, loc, alu::set_bit(bit, v));
        (cost(loc, 8, 16), Ghost(DataSamples { lo: v, hi: 0, dma: mmu@.dma_sample() }))
    }

    /// Executes a load or a store.
    fn execute_load(&mut self, mmu: &mut MMU, i: Load) -> (out: (u32, Ghost<DataSamples>))
        requires
            old(self).wf(),
        ensures
            final(self).wf(),
            old(self).on(old(mmu)@).executes(
                Instr::Load(i),
                out.1@,
                final(self).on(final(mmu)@),
                out.0,
            ),
    {
        match i {
            Load::LdWord(r, v) => self.op_ld_word(mmu, r, v),
            Load::StoreA(r) => self.op_store_a(mmu, r),
            Load::LoadA(r) => self.op_load_a(mmu, r),
            Load::StoreAInc => self.op_store_a_inc(mmu),
            Load::StoreADec => self.op_store_a_dec(mmu),
            Load::LoadAInc => self.op_load_a_inc(mmu),
            Load::LoadADec => self.op_load_a_dec(mmu),
            Load::LdByte(loc, v) => self.op_ld_byte(mmu, loc, v),
            Load::Ld(dst, src) => self.op_ld(mmu, dst, src),
            Load::Pop(r) => self.op_pop(mmu, r),
            Load::Push(r) => self.op_push(mmu, r),
            Load::StoreHigh(n) => self.op_store_high(mmu, n),
            Load::LoadHigh(n) => self.op_load_high(mmu, n),
            Load::StoreHighC => self.op_store_high_c(mmu),
            Load::StoreAt(addr) => self.op_store_at(mmu, addr),
            Load::LoadAt(addr) => self.op_load_at(mmu, addr),
        }
    }

    /// Executes an arithmetic or logic instruction.
    fn execute_arith(&mut self, mmu: &mut MMU, i: Arith) -> (out: (u32, Ghost<DataSamples>))
        requires
            old(self).wf(),
        ensures
            final(self).wf(),
            old(self).on(old(mmu)@).executes(
                Instr::Arith(i),
                out.1@,
                final(self).on(final(mmu)@),
                out.0,
            ),
    {
        match i {
            Arith::IncWord(r) => self.op_inc_word(mmu, r),
            Arith::DecWord(r) => self.op_dec_word(mmu, r),
            Arith::Inc(loc) => self.op_inc(mmu, loc),
            Arith::Dec(loc) => self.op_dec(mmu, loc),
            Arith::Rlca => self.op_rlca(mmu),
            Arith::Daa => self.op_daa(mmu),
            Arith::Cpl => self.op_cpl(mmu),
            Arith::AddHl(r) => self.op_add_hl(mmu, r),
            Arith::Alu(op, src) => self.op_alu(mmu, op, src),
            Arith::AluByte(op, v) => self.op_alu_byte(mmu, op, v),
        }
    }

    /// Executes a control instruction.
    fn execute_flow(&mut self, mmu: &mut MMU, i: Flow) -> (out: (u32, Ghost<DataSamples>))
        requires
            old(self).wf(),
        ensures
            final(self).wf(),
            old(self).on(old(mmu)@).executes(
                Instr::Flow(i),
                out.1@,
                final(self).on(final(mmu)@),
                out.0,
            ),
    {
        match i {
            Flow::Nop => self.op_nop(mmu),
            Flow::Jr(off) => self.op_jr(mmu, off),
            Flow::JrIf(cc, off) => self.op_jr_if(mmu, cc, off),
            Flow::Ret => self.op_ret(mmu),
            Flow::RetIf(cc) => self.op_ret_if(mmu, cc),
            Flow::Reti => self.op_reti(mmu),
            Flow::Jp(addr) => self.op_jp(mmu, addr),
            Flow::JpIf(cc, addr) => self.op_jp_if(mmu, cc, addr),
            Flow::JpHl => self.op_jp_hl(mmu),
            Flow::Call(addr) => self.op_call(mmu, addr),
            Flow::Rst(addr) => self.op_rst(mmu, addr),
            Flow::Ei => self.op_ei(mmu),
            Flow::Di => self.op_di(mmu),
        }
    }

    /// Executes a prefixed instruction.
    fn execute_bits(&mut self, mmu: &mut MMU, i: Bits) -> (out: (u32, Ghost<DataSamples>))
        requires
            old(self).wf(),
            Instr::Bits(i).valid(),
        ensures
            final(self).wf(),
            old(self).on(old(mmu)@).executes(
                Instr::Bits(i),
                out.1@,
                final(self).on(final(mmu)@),
                out.0,
            ),
    {
        match i {
            Bits::Sla(loc) => self.op_sla(mmu, loc),
            Bits::Swap(loc) => self.op_swap(mmu, loc),
            Bits::Srl(loc) => self.op_srl(mmu, loc),
            Bits::TestBit(bit, loc) => self.op_test_bit(mmu, bit, loc),
            Bits::ClearBit(bit, loc) => self.op_clear_bit(mmu, bit, loc),
            Bits::SetBit(bit, loc) => self.op_set_bit(mmu, bit, loc),
        }
    }

    /// Executes a decoded instruction, and keeps track of what was read.
    fn execute_traced(&mut self, mmu: &mut MMU, i: Instr) -> (out: (u32, Ghost<DataSamples>))
        requires
            old(self).wf(),
            i.valid(),
        ensures
            final(self).wf(),
            old(self).on(old(mmu)@).executes(i, out.1@, final(self).on(final(mmu)@), out.0),
    {
        match i {
            Instr::Load(l) => self.execute_load(mmu, l),
            Instr::Arith(a) => self.execute_arith(mmu, a),
            Instr::Flow(f) => self.execute_flow(mmu, f),
            Instr::Bits(b) => self.execute_bits(mmu, b),
        }
    }

    /// Fetches and decodes the instruction at the program counter, and moves
    /// the counter past it; or past the byte at fault, where the opcode is
    /// outside the supported set.
    pub fn fetch(&mut self, mmu: &MMU) -> (r: Result<Instr, Fault>)
        ensures
            exists|s: FetchSamples|
                (final(self).on(mmu@), r) == #[trigger] old(self).on(mmu@).fetch(s),
            r matches Ok(i) ==> i.valid(),
            final(self).wf() == old(self).wf(),
    {
        let (r, Ghost(s)) = self.fetch_traced(mmu);
        assert((self.on(mmu@), r) == old(self).on(mmu@).fetch(s));
        r
    }

    /// Executes a decoded instruction and returns the clock ticks it took.
    pub fn execute(&mut self, mmu: &mut MMU, i: Instr) -> (t: u32)
        requires
            old(self).wf(),
            i.valid(),
        ensures
            final(self).wf(),
            exists|s: DataSamples|
                (final(self).on(final(mmu)@), t) == #[trigger] old(self).on(old(mmu)@).execute(
                    i,
                    s,
                ),
    {
        let (t, Ghost(s)) = self.execute_traced(mmu, i);
        proof {
            reveal(Machine::executes);
            assert((self.on(mmu@), t) == old(self).on(old(mmu)@).execute(i, s));
        }
        t
    }

    /// Fetches, decodes and executes the instruction at the program counter,
    /// and returns the clock ticks it took; or the byte at fault, where the
    /// opcode is outside the supported set.
    fn opcode(&mut self, mmu: &mut MMU) -> (r: (Result<u32, Fault>, Ghost<DivSamples>))
        requires
            old(self).wf(),
        ensures
            final(self).wf(),
            (final(self).on(final(mmu)@), r.0) == old(self).on(old(mmu)@).run(r.1@),
            r.1@.data.dma == final(mmu)@.dma_sample(),
    {
        let (decoded, Ghost(fetched)) = self.fetch_traced(mmu);
        match decoded {
            Ok(i) => {
                let (t, Ghost(data)) = self.execute_traced(mmu, i);
                proof {
                    reveal(Machine::executes);
                }
                (Ok(t), Ghost(DivSamples { fetch: fetched, data }))
            },
            Err(fault) => (
                Err(fault),
                Ghost(
                    DivSamples {
                        fetch: fetched,
                        data: DataSamples { lo: 0, hi: 0, dma: mmu@.dma_sample() },
                    },
                ),
            ),
        }
    }

    /// Runs one step. With the master enable set and the vertical-blank
    /// interrupt requested and enabled, the interrupt is serviced. Otherwise
    /// one instruction is fetched, decoded and executed; if interrupts were
    /// asked to be enabled before it started, the master enable is set once
    /// it has run. Returns the clock ticks that the step took, or the byte at
    /// fault where the opcode is outside the supported set.
    ///
    /// Every bus access but a read of the divider has one result, so the step
    /// is the model's step for some choice of what the divider yielded.
    pub fn step(&mut self, mmu: &mut MMU) -> (r: Result<u32, Fault>)
        requires
            old(self).wf(),
        ensures
            final(self).wf(),
            exists|s: DivSamples|
                (final(self).on(final(mmu)@), r) == #[trigger] old(self).on(old(mmu)@).step(s),
    {
        if self.ime && self.vblank_pending(mmu) {
            let t = self.service_interrupt(mmu);
            proof {
                let s = DivSamples {
                    fetch: FetchSamples { opcode: 0, operand_lo: 0, operand_hi: 0 },
                    data: DataSamples { lo: 0, hi: 0, dma: mmu@.dma_sample() },
                };
                assert((self.on(mmu@), Ok::<u32, Fault>(t)) == old(self).on(old(mmu)@).step(s));
            }
            return Ok(t);
        }
        let armed = self.ei_pending;
        let (r, Ghost(s)) = self.opcode(mmu);
        if armed {
            match r {
                Ok(_) => {
                    self.ime = true;
                    self.ei_pending = false;
                },
                Err(_) => {},
            }
        }
        proof {
            assert((self.on(mmu@), r) == old(self).on(old(mmu)@).step(s));
        }
        r
    }
}

/// Clock ticks of an instruction that costs `plain` on a register and
/// `indirect` on the byte that HL points at.
fn cost(loc: Loc8, plain: u32, indirect: u32) -> (t: u32)
    ensures
        t == ticks(loc, plain, indirect),
{
    match loc {
        Loc8::HlMem => indirect,
        _ => plain,
    }
}

} // verus!
