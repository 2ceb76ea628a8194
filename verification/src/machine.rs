use crate::alu::{
    add16_spec, add8_spec, and8_spec, clear_bit_spec, cpl_spec, daa_spec, dec8_spec, inc8_spec,
    lemma_flags_round_trip, or8_spec, rlca_spec, set_bit_spec, signed, sla_spec, srl_spec,
    sub8_spec, swap_spec, test_bit_spec, wrap16, xor8_spec, Flags,
};
use crate::cpu::{high_byte, low_byte, word, CPU, INTERRUPT_TICKS, VBLANK_VECTOR};
use crate::isa::{
    decode_spec, operand_count, AluOp, Arith, Bits, Fault, Flow, Instr, Load, Loc8, Reg16,
};
use crate::mmu::{lemma_write_keeps_wf, BusState, IE, IFLAG};
use vstd::prelude::*;

verus! {

/// What the divider register yields at the bus accesses of an instruction
/// fetch that may read it: the opcode and the two operand bytes.
pub struct FetchSamples {
    pub opcode: u8,
    pub operand_lo: u8,
    pub operand_hi: u8,
}

/// What the divider register yields at the bus accesses of an instruction's
/// execution that may read it: the two data reads, and a transfer into object
/// memory that a write starts.
pub struct DataSamples {
    pub lo: u8,
    pub hi: u8,
    pub dma: u8,
}

/// What the divider register yields during one processor step.
pub struct DivSamples {
    pub fetch: FetchSamples,
    pub data: DataSamples,
}

/// The processor together with the bus it drives.
pub struct Machine {
    pub cpu: CPU,
    pub bus: BusState,
}

/// Clock ticks of an instruction that costs `plain` on a register and
/// `indirect` on the byte that HL points at.
pub open spec fn ticks(loc: Loc8, plain: u32, indirect: u32) -> u32 {
    if loc == Loc8::HlMem {
        indirect
    } else {
        plain
    }
}

impl Machine {
    pub open spec fn wf(self) -> bool {
        self.cpu.wf() && self.bus.wf()
    }

    pub open spec fn with_cpu(self, cpu: CPU) -> Machine {
        Machine { cpu, ..self }
    }

    /// The machine after a bus write.
    pub open spec fn write(self, addr: u16, v: u8, div: u8) -> Machine {
        Machine { bus: self.bus.write(addr, v, div), ..self }
    }

    /// The byte in an 8-bit place.
    pub open spec fn read8(self, loc: Loc8, div: u8) -> u8 {
        match loc {
            Loc8::B => self.cpu.b,
            Loc8::C => self.cpu.c,
            Loc8::D => self.cpu.d,
            Loc8::E => self.cpu.e,
            Loc8::H => self.cpu.h,
            Loc8::L => self.cpu.l,
            Loc8::HlMem => self.bus.read(self.cpu.hl(), div),
            Loc8::A => self.cpu.a,
        }
    }

    /// The machine after a byte is put in an 8-bit place.
    pub open spec fn write8(self, loc: Loc8, v: u8, div: u8) -> Machine {
        match loc {
            Loc8::B => self.with_cpu(CPU { b: v, ..self.cpu }),
            Loc8::C => self.with_cpu(CPU { c: v, ..self.cpu }),
            Loc8::D => self.with_cpu(CPU { d: v, ..self.cpu }),
            Loc8::E => self.with_cpu(CPU { e: v, ..self.cpu }),
            Loc8::H => self.with_cpu(CPU { h: v, ..self.cpu }),
            Loc8::L => self.with_cpu(CPU { l: v, ..self.cpu }),
            Loc8::HlMem => self.write(self.cpu.hl(), v, div),
            Loc8::A => self.with_cpu(CPU { a: v, ..self.cpu }),
        }
    }

    /// The machine after a word is pushed: the stack pointer moves down by
    /// two, the low byte goes to the new top and the high byte above it.
    pub open spec fn push(self, v: u16, div: u8) -> Machine {
        let sp = wrap16(self.cpu.sp - 2);
        Machine {
            cpu: CPU { sp, ..self.cpu },
            bus: self.bus.write(sp, low_byte(v), div).write(wrap16(sp + 1), high_byte(v), div),
        }
    }

    /// The machine after a word is popped, and the word: its low byte from
    /// the top of the stack and its high byte from above it.
    pub open spec fn pop(self, div_lo: u8, div_hi: u8) -> (Machine, u16) {
        let sp = self.cpu.sp;
        let lo = self.bus.read(sp, div_lo);
        let hi = self.bus.read(wrap16(sp + 1), div_hi);
        (self.with_cpu(CPU { sp: wrap16(sp + 2), ..self.cpu }), word(hi, lo))
    }

    /// The machine after a word is popped into a 16-bit register.
    pub open spec fn pop_into(self, r: Reg16, div_lo: u8, div_hi: u8) -> Machine {
        let (m, v) = self.pop(div_lo, div_hi);
        m.with_cpu(m.cpu.with_reg16(r, v))
    }

    /// The machine with the program counter at `pc`.
    pub open spec fn jump(self, pc: u16) -> Machine {
        self.with_cpu(CPU { pc, ..self.cpu })
    }

    /// Whether the vertical-blank interrupt is both requested and enabled.
    pub open spec fn vblank_pending(self) -> bool {
        (self.bus.peek(IE) & self.bus.peek(IFLAG)) & 0x01 != 0
    }

    /// The machine after the vertical-blank interrupt is serviced: the
    /// request is cleared, the master enable too, the program counter is
    /// pushed and replaced by the vector.
    pub open spec fn service(self, div: u8) -> Machine {
        let m = self.write(IFLAG, self.bus.peek(IFLAG) & !0x01u8, div);
        m.with_cpu(CPU { ime: false, ..m.cpu }).push(self.cpu.pc, div).jump(VBLANK_VECTOR)
    }

    /// The machine after the instruction at the program counter is fetched,
    /// and the instruction: the program counter has moved past the opcode and
    /// its operand, or past the byte at fault.
    pub open spec fn fetch(self, s: FetchSamples) -> (Machine, Result<Instr, Fault>) {
        let pc = self.cpu.pc;
        let op = self.bus.read(pc, s.opcode);
        let n = operand_count(op);
        let lo = self.bus.read(wrap16(pc + 1), s.operand_lo);
        let hi = self.bus.read(wrap16(pc + 2), s.operand_hi);
        let operand: u16 = if n == 2 {
            word(hi, lo)
        } else if n == 1 {
            lo as u16
        } else {
            0
        };
        (self.jump(wrap16(pc + 1 + n)), decode_spec(op, operand))
    }

    /// The machine after a load or a store, and the clock ticks it took.
    pub open spec fn execute_load(self, i: Load, s: DataSamples) -> (Machine, u32) {
        let c = self.cpu;
        match i {
            Load::LdWord(r, v) => (self.with_cpu(c.with_reg16(r, v)), 12),
            Load::StoreA(r) => (self.write(c.reg16(r), c.a, s.dma), 8),
            Load::LoadA(r) => (
                self.with_cpu(CPU { a: self.bus.read(c.reg16(r), s.lo), ..c }),
                8,
            ),
            Load::StoreAInc => (
                self.write(c.hl(), c.a, s.dma).with_cpu(
                    c.with_reg16(Reg16::HL, wrap16(c.hl() + 1)),
                ),
                8,
            ),
            Load::StoreADec => (
                self.write(c.hl(), c.a, s.dma).with_cpu(
                    c.with_reg16(Reg16::HL, wrap16(c.hl() - 1)),
                ),
                8,
            ),
            Load::LoadAInc => (
                self.with_cpu(
                    CPU { a: self.bus.read(c.hl(), s.lo), ..c }.with_reg16(
                        Reg16::HL,
                        wrap16(c.hl() + 1),
                    ),
                ),
                8,
            ),
            Load::LoadADec => (
                self.with_cpu(
                    CPU { a: self.bus.read(c.hl(), s.lo), ..c }.with_reg16(
                        Reg16::HL,
                        wrap16(c.hl() - 1),
                    ),
                ),
                8,
            ),
            Load::LdByte(loc, v) => (self.write8(loc, v, s.dma), ticks(loc, 8, 12)),
            Load::Ld(dst, src) => (
                self.write8(dst, self.read8(src, s.lo), s.dma),
                if dst == Loc8::HlMem || src == Loc8::HlMem {
                    8
                } else {
                    4
                },
            ),
            Load::Pop(r) => (self.pop_into(r, s.lo, s.hi), 12),
            Load::Push(r) => (self.push(c.reg16(r), s.dma), 16),
            Load::StoreHigh(n) => (self.write((0xFF00 + n) as u16, c.a, s.dma), 12),
            Load::LoadHigh(n) => (
                self.with_cpu(CPU { a: self.bus.read((0xFF00 + n) as u16, s.lo), ..c }),
                12,
            ),
            Load::StoreHighC => (self.write((0xFF00 + c.c) as u16, c.a, s.dma), 8),
            Load::StoreAt(addr) => (self.write(addr, c.a, s.dma), 16),
            Load::LoadAt(addr) => (
                self.with_cpu(CPU { a: self.bus.read(addr, s.lo), ..c }),
                16,
            ),
        }
    }

    /// The machine after an arithmetic or logic instruction, and the clock ticks it took.
    pub open spec fn execute_arith(self, i: Arith, s: DataSamples) -> (Machine, u32) {
        let c = self.cpu;
        match i {
            Arith::IncWord(r) => (self.with_cpu(c.with_reg16(r, wrap16(c.reg16(r) + 1))), 8),
            Arith::DecWord(r) => (self.with_cpu(c.with_reg16(r, wrap16(c.reg16(r) - 1))), 8),
            Arith::Inc(loc) => {
                let (v, fl) = inc8_spec(self.read8(loc, s.lo), c.flags());
                (self.with_cpu(c.with_flags(fl)).write8(loc, v, s.dma), ticks(loc, 4, 12))
            },
            Arith::Dec(loc) => {
                let (v, fl) = dec8_spec(self.read8(loc, s.lo), c.flags());
                (self.with_cpu(c.with_flags(fl)).write8(loc, v, s.dma), ticks(loc, 4, 12))
            },
            Arith::Rlca => {
                let (v, fl) = rlca_spec(c.a);
                (self.with_cpu(CPU { a: v, ..c }.with_flags(fl)), 4)
            },
            Arith::Daa => {
                let (v, fl) = daa_spec(c.a, c.flags());
                (self.with_cpu(CPU { a: v, ..c }.with_flags(fl)), 4)
            },
            Arith::Cpl => {
                let (v, fl) = cpl_spec(c.a, c.flags());
                (self.with_cpu(CPU { a: v, ..c }.with_flags(fl)), 4)
            },
            Arith::AddHl(r) => {
                let (v, fl) = add16_spec(c.hl(), c.reg16(r), c.flags());
                (self.with_cpu(c.with_flags(fl).with_reg16(Reg16::HL, v)), 8)
            },
            Arith::Alu(op, src) => (
                self.with_cpu(c.alu(op, self.read8(src, s.lo))),
                ticks(src, 4, 8),
            ),
            Arith::AluByte(op, v) => (self.with_cpu(c.alu(op, v)), 8),
        }
    }

    /// The machine after a control instruction, and the clock ticks it took.
    pub open spec fn execute_flow(self, i: Flow, s: DataSamples) -> (Machine, u32) {
        let c = self.cpu;
        match i {
            Flow::Nop => (self, 4),
            Flow::Jr(off) => (self.jump(wrap16(c.pc + signed(off))), 12),
            Flow::JrIf(cc, off) => if c.holds(cc) {
                (self.jump(wrap16(c.pc + signed(off))), 12)
            } else {
                (self, 8)
            },
            Flow::Ret => {
                let (m, v) = self.pop(s.lo, s.hi);
                (m.jump(v), 16)
            },
            Flow::RetIf(cc) => if c.holds(cc) {
                let (m, v) = self.pop(s.lo, s.hi);
                (m.jump(v), 20)
            } else {
                (self, 8)
            },
            Flow::Reti => {
                let (m, v) = self.pop(s.lo, s.hi);
                (m.with_cpu(CPU { pc: v, ime: true, ..m.cpu }), 16)
            },
            Flow::Jp(addr) => (self.jump(addr), 16),
            Flow::JpIf(cc, addr) => if c.holds(cc) {
                (self.jump(addr), 16)
            } else {
                (self, 12)
            },
            Flow::JpHl => (self.jump(c.hl()), 4),
            Flow::Call(addr) => (self.push(c.pc, s.dma).jump(addr), 24),
            Flow::Rst(addr) => (self.push(c.pc, s.dma).jump(addr as u16), 16),
            Flow::Ei => (self.with_cpu(CPU { ei_pending: true, ..c }), 4),
            Flow::Di => (self.with_cpu(CPU { ime: false, ..c }), 4),
        }
    }

    /// The machine after a prefixed instruction, and the clock ticks it took.
    pub open spec fn execute_bits(self, i: Bits, s: DataSamples) -> (Machine, u32) {
        let c = self.cpu;
        match i {
            Bits::Sla(loc) => {
                let (v, fl) = sla_spec(self.read8(loc, s.lo));
                (self.with_cpu(c.with_flags(fl)).write8(loc, v, s.dma), ticks(loc, 8, 16))
            },
            Bits::Swap(loc) => {
                let (v, fl) = swap_spec(self.read8(loc, s.lo));
                (self.with_cpu(c.with_flags(fl)).write8(loc, v, s.dma), ticks(loc, 8, 16))
            },
            Bits::Srl(loc) => {
                let (v, fl) = srl_spec(self.read8(loc, s.lo));
                (self.with_cpu(c.with_flags(fl)).write8(loc, v, s.dma), ticks(loc, 8, 16))
            },
            Bits::TestBit(bit, loc) => (
                self.with_cpu(
                    c.with_flags(test_bit_spec(bit, self.read8(loc, s.lo), c.flags())),
                ),
                ticks(loc, 8, 12),
            ),
            Bits::ClearBit(bit, loc) => (
                self.write8(loc, clear_bit_spec(bit, self.read8(loc, s.lo)), s.dma),
                ticks(loc, 8, 16),
            ),
            Bits::SetBit(bit, loc) => (
                self.write8(loc, set_bit_spec(bit, self.read8(loc, s.lo)), s.dma),
                ticks(loc, 8, 16),
            ),
        }
    }

    /// The machine after an instruction is executed, and the clock ticks it
    /// took. The program counter is already past the instruction.
    pub open spec fn execute(self, i: Instr, s: DataSamples) -> (Machine, u32) {
        match i {
            Instr::Load(l) => self.execute_load(l, s),
            Instr::Arith(a) => self.execute_arith(a, s),
            Instr::Flow(f) => self.execute_flow(f, s),
            Instr::Bits(b) => self.execute_bits(b, s),
        }
    }

    /// Whether executing `i` under the samples `s` leads to the machine
    /// `after` in `t` clock ticks, with `s` holding the byte that a transfer
    /// from the register page would have left in object memory.
    #[verifier::opaque]
    pub open spec fn executes(self, i: Instr, s: DataSamples, after: Machine, t: u32) -> bool {
        (after, t) == self.execute(i, s) && s.dma == after.bus.dma_sample()
    }

    /// The machine after the instruction at the program counter has run, and
    /// the clock ticks it took; or, where the opcode is outside the supported
    /// set, the machine with the program counter past the byte at fault, and
    /// that byte.
    pub open spec fn run(self, s: DivSamples) -> (Machine, Result<u32, Fault>) {
        let (m, r) = self.fetch(s.fetch);
        match r {
            Ok(i) => {
                let (m2, t) = m.execute(i, s.data);
                (m2, Ok(t))
            },
            Err(fault) => (m, Err(fault)),
        }
    }

    /// One processor step. With the master enable set and the vertical-blank
    /// interrupt pending, the interrupt is serviced. Otherwise one
    /// instruction runs; if interrupts were asked to be enabled before it
    /// started, the master enable is set once it has run.
    pub open spec fn step(self, s: DivSamples) -> (Machine, Result<u32, Fault>) {
        if self.cpu.ime && self.vblank_pending() {
            (self.service(s.data.dma), Ok(INTERRUPT_TICKS))
        } else {
            let (m, r) = self.run(s);
            if r.is_ok() && self.cpu.ei_pending {
                (m.with_cpu(CPU { ime: true, ei_pending: false, ..m.cpu }), r)
            } else {
                (m, r)
            }
        }
    }
}

/// A word pushed and then popped comes back unchanged, and so do the stack
/// pointer and every other register, where the two bytes below the stack
/// pointer are at addresses that keep what is written to them.
pub proof fn lemma_push_pop(m: Machine, v: u16, dma: u8, lo: u8, hi: u8)
    requires
        m.bus.wf(),
        BusState::keeps(wrap16(m.cpu.sp - 2)),
        BusState::keeps(wrap16(m.cpu.sp - 1)),
    ensures
        m.push(v, dma).pop(lo, hi).1 == v,
        m.push(v, dma).pop(lo, hi).0.cpu == m.cpu,
{
    let a = wrap16(m.cpu.sp - 2);
    let b = wrap16(a + 1);
    assert(b == wrap16(m.cpu.sp - 1));
    let first = m.bus.write(a, low_byte(v), dma);
    lemma_write_keeps_wf(m.bus, a, low_byte(v), dma);
    let second = first.write(b, high_byte(v), dma);
    assert(second.read(b, hi) == high_byte(v));
    assert(first.read(a, lo) == low_byte(v));
    assert(second.read(a, lo) == low_byte(v));
    assert(wrap16(a + 2) == m.cpu.sp);
}

/// Whatever is popped into the accumulator and the flags, the low nibble of
/// the flag register is zero afterwards.
pub proof fn lemma_pop_af_clears_low_nibble(m: Machine, lo: u8, hi: u8)
    ensures
        m.pop_into(Reg16::AF, lo, hi).cpu.wf(),
        m.pop_into(Reg16::AF, lo, hi).cpu.f % 16 == 0,
{
}

/// The accumulator and the flags, pushed and then popped, come back
/// unchanged.
pub proof fn lemma_push_pop_af(m: Machine, dma: u8, lo: u8, hi: u8)
    requires
        m.wf(),
        BusState::keeps(wrap16(m.cpu.sp - 2)),
        BusState::keeps(wrap16(m.cpu.sp - 1)),
    ensures
        m.push(m.cpu.reg16(Reg16::AF), dma).pop_into(Reg16::AF, lo, hi).cpu == m.cpu,
{
    lemma_push_pop(m, m.cpu.reg16(Reg16::AF), dma, lo, hi);
}

/// The opcode of the instruction that asks for interrupts to be enabled.
pub const EI_OPCODE: u8 = 0xFB;

/// The request to enable interrupts takes effect one instruction late. Take
/// a machine with the master enable clear and no request outstanding, at an
/// instruction that asks for interrupts to be enabled. Its step leaves the
/// master enable clear and the request outstanding. The next step then runs
/// an instruction and services nothing, whatever is requested; and once that
/// instruction has run, the master enable is set, so that the step after it
/// services the vertical-blank interrupt if it is pending.
pub proof fn lemma_enable_takes_effect_late(
    m: Machine,
    s0: DivSamples,
    s1: DivSamples,
    s2: DivSamples,
)
    requires
        !m.cpu.ime,
        !m.cpu.ei_pending,
        m.bus.read(m.cpu.pc, s0.fetch.opcode) == EI_OPCODE,
    ensures
        m.step(s0).1 == Ok::<u32, Fault>(4),
        !m.step(s0).0.cpu.ime,
        m.step(s0).0.cpu.ei_pending,
        m.step(s0).0.bus == m.bus,
        ({
            let m1 = m.step(s0).0;
            let (m2, r2) = m1.step(s1);
            &&& r2 == m1.run(s1).1
            &&& r2.is_ok() ==> m2.cpu.ime && m2 == m1.run(s1).0.with_cpu(
                CPU { ime: true, ei_pending: false, ..m1.run(s1).0.cpu },
            )
            &&& r2.is_ok() && m2.vblank_pending() ==> m2.step(s2) == (
                m2.service(s2.data.dma),
                Ok::<u32, Fault>(INTERRUPT_TICKS),
            )
        }),
{
    reveal(decode_spec);
    reveal(operand_count);
    assert(operand_count(EI_OPCODE) == 0);
    assert(decode_spec(EI_OPCODE, 0) == Ok::<Instr, Fault>(Instr::Flow(Flow::Ei)));
}

/// A push and a pop keep the machine well formed.
proof fn lemma_stack_keeps_wf(m: Machine, v: u16, dma: u8, lo: u8, hi: u8)
    requires
        m.wf(),
    ensures
        m.push(v, dma).wf(),
        m.pop(lo, hi).0.wf(),
{
    let sp = wrap16(m.cpu.sp - 2);
    lemma_write_keeps_wf(m.bus, sp, low_byte(v), dma);
    lemma_write_keeps_wf(m.bus.write(sp, low_byte(v), dma), wrap16(sp + 1), high_byte(v), dma);
}

/// Putting flags in the flag register leaves its low nibble zero.
proof fn lemma_with_flags_wf(c: CPU, fl: Flags)
    ensures
        c.with_flags(fl).wf(),
{
    lemma_flags_round_trip(fl);
}

/// Putting a byte in an 8-bit place keeps the machine well formed.
proof fn lemma_write8_keeps_wf(m: Machine, loc: Loc8, v: u8, div: u8)
    requires
        m.wf(),
    ensures
        m.write8(loc, v, div).wf(),
{
    lemma_write_keeps_wf(m.bus, m.cpu.hl(), v, div);
}

/// A load or a store keeps the machine well formed.
proof fn lemma_load_keeps_wf(m: Machine, i: Load, s: DataSamples)
    requires
        m.wf(),
    ensures
        m.execute_load(i, s).0.wf(),
{
    let c = m.cpu;
    match i {
        Load::LdWord(r, v) => {},
        Load::LdByte(loc, v) => lemma_write8_keeps_wf(m, loc, v, s.dma),
        Load::Ld(dst, src) => lemma_write8_keeps_wf(m, dst, m.read8(src, s.lo), s.dma),
        Load::StoreA(r) => lemma_write_keeps_wf(m.bus, c.reg16(r), c.a, s.dma),
        Load::StoreAInc => lemma_write_keeps_wf(m.bus, c.hl(), c.a, s.dma),
        Load::StoreADec => lemma_write_keeps_wf(m.bus, c.hl(), c.a, s.dma),
        Load::StoreHigh(n) => lemma_write_keeps_wf(m.bus, (0xFF00 + n) as u16, c.a, s.dma),
        Load::StoreHighC => lemma_write_keeps_wf(m.bus, (0xFF00 + c.c) as u16, c.a, s.dma),
        Load::StoreAt(addr) => lemma_write_keeps_wf(m.bus, addr, c.a, s.dma),
        Load::Pop(r) => lemma_stack_keeps_wf(m, 0, s.dma, s.lo, s.hi),
        Load::Push(r) => lemma_stack_keeps_wf(m, c.reg16(r), s.dma, s.lo, s.hi),
        _ => {},
    }
}

/// An accumulator operation leaves the low nibble of the flag register zero.
proof fn lemma_alu_keeps_wf(c: CPU, op: AluOp, v: u8)
    ensures
        c.alu(op, v).wf(),
{
    lemma_flags_round_trip(add8_spec(c.a, v, false).1);
    lemma_flags_round_trip(add8_spec(c.a, v, c.flags().c).1);
    lemma_flags_round_trip(sub8_spec(c.a, v, false).1);
    lemma_flags_round_trip(sub8_spec(c.a, v, c.flags().c).1);
    lemma_flags_round_trip(and8_spec(c.a, v).1);
    lemma_flags_round_trip(xor8_spec(c.a, v).1);
    lemma_flags_round_trip(or8_spec(c.a, v).1);
}

/// An arithmetic or logic instruction keeps the machine well formed.
proof fn lemma_arith_keeps_wf(m: Machine, i: Arith, s: DataSamples)
    requires
        m.wf(),
    ensures
        m.execute_arith(i, s).0.wf(),
{
    let c = m.cpu;
    match i {
        Arith::IncWord(r) => {},
        Arith::DecWord(r) => {},
        Arith::Inc(loc) => {
            let (v, fl) = inc8_spec(m.read8(loc, s.lo), c.flags());
            lemma_with_flags_wf(c, fl);
            lemma_write8_keeps_wf(m.with_cpu(c.with_flags(fl)), loc, v, s.dma);
        },
        Arith::Dec(loc) => {
            let (v, fl) = dec8_spec(m.read8(loc, s.lo), c.flags());
            lemma_with_flags_wf(c, fl);
            lemma_write8_keeps_wf(m.with_cpu(c.with_flags(fl)), loc, v, s.dma);
        },
        Arith::Rlca => lemma_flags_round_trip(rlca_spec(c.a).1),
        Arith::Daa => lemma_flags_round_trip(daa_spec(c.a, c.flags()).1),
        Arith::Cpl => lemma_flags_round_trip(cpl_spec(c.a, c.flags()).1),
        Arith::AddHl(r) => lemma_flags_round_trip(add16_spec(c.hl(), c.reg16(r), c.flags()).1),
        Arith::Alu(op, src) => lemma_alu_keeps_wf(c, op, m.read8(src, s.lo)),
        Arith::AluByte(op, v) => lemma_alu_keeps_wf(c, op, v),
    }
}

/// A control instruction keeps the machine well formed.
proof fn lemma_flow_keeps_wf(m: Machine, i: Flow, s: DataSamples)
    requires
        m.wf(),
    ensures
        m.execute_flow(i, s).0.wf(),
{
    lemma_stack_keeps_wf(m, m.cpu.pc, s.dma, s.lo, s.hi);
}

/// A prefixed instruction keeps the machine well formed.
proof fn lemma_bits_keep_wf(m: Machine, i: Bits, s: DataSamples)
    requires
        m.wf(),
    ensures
        m.execute_bits(i, s).0.wf(),
{
    let c = m.cpu;
    match i {
        Bits::Sla(loc) => {
            let (v, fl) = sla_spec(m.read8(loc, s.lo));
            lemma_with_flags_wf(c, fl);
            lemma_write8_keeps_wf(m.with_cpu(c.with_flags(fl)), loc, v, s.dma);
        },
        Bits::Swap(loc) => {
            let (v, fl) = swap_spec(m.read8(loc, s.lo));
            lemma_with_flags_wf(c, fl);
            lemma_write8_keeps_wf(m.with_cpu(c.with_flags(fl)), loc, v, s.dma);
        },
        Bits::Srl(loc) => {
            let (v, fl) = srl_spec(m.read8(loc, s.lo));
            lemma_with_flags_wf(c, fl);
            lemma_write8_keeps_wf(m.with_cpu(c.with_flags(fl)), loc, v, s.dma);
        },
        Bits::TestBit(bit, loc) => {
            lemma_with_flags_wf(c, test_bit_spec(bit, m.read8(loc, s.lo), c.flags()));
        },
        Bits::ClearBit(bit, loc) => {
            lemma_write8_keeps_wf(m, loc, clear_bit_spec(bit, m.read8(loc, s.lo)), s.dma);
        },
        Bits::SetBit(bit, loc) => {
            lemma_write8_keeps_wf(m, loc, set_bit_spec(bit, m.read8(loc, s.lo)), s.dma);
        },
    }
}

/// A step keeps the machine well formed: every region of the bus keeps its
/// size, and the low nibble of the flag register stays zero.
pub proof fn lemma_step_keeps_wf(m: Machine, s: DivSamples)
    requires
        m.wf(),
    ensures
        m.step(s).0.wf(),
{
    if m.cpu.ime && m.vblank_pending() {
        let cleared = m.write(IFLAG, m.bus.peek(IFLAG) & !0x01u8, s.data.dma);
        lemma_write_keeps_wf(m.bus, IFLAG, m.bus.peek(IFLAG) & !0x01u8, s.data.dma);
        lemma_stack_keeps_wf(
            cleared.with_cpu(CPU { ime: false, ..cleared.cpu }),
            m.cpu.pc,
            s.data.dma,
            0,
            0,
        );
    } else {
        let (fetched, r) = m.fetch(s.fetch);
        match r {
            Ok(i) => {
                match i {
                    Instr::Load(l) => lemma_load_keeps_wf(fetched, l, s.data),
                    Instr::Arith(a) => lemma_arith_keeps_wf(fetched, a, s.data),
                    Instr::Flow(f) => lemma_flow_keeps_wf(fetched, f, s.data),
                    Instr::Bits(b) => lemma_bits_keep_wf(fetched, b, s.data),
                }
            },
            Err(_) => {},
        }
    }
}

} // verus!
