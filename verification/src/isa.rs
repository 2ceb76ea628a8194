use vstd::prelude::*;

verus! {

/// An 8-bit operand place, in the order of the three-bit register field:
/// six registers, the byte that HL points at, and the accumulator.
#[derive(Clone, Copy, Debug, PartialEq, Eq, Structural)]
pub enum Loc8 {
    B,
    C,
    D,
    E,
    H,
    L,
    HlMem,
    A,
}

/// A 16-bit register: the three general pairs, the stack pointer, and the
/// accumulator with the flags.
#[derive(Clone, Copy, Debug, PartialEq, Eq, Structural)]
pub enum Reg16 {
    BC,
    DE,
    HL,
    SP,
    AF,
}

/// A branch condition on the zero or the carry flag.
#[derive(Clone, Copy, Debug, PartialEq, Eq, Structural)]
pub enum Cond {
    NotZero,
    Zero,
    NoCarry,
    Carry,
}

/// An operation of the accumulator with one 8-bit operand.
#[derive(Clone, Copy, Debug, PartialEq, Eq, Structural)]
pub enum AluOp {
    Add,
    Adc,
    Sub,
    Sbc,
    And,
    Xor,
    Or,
    Cp,
}

/// Loads and stores: what moves a value without computing one.
#[derive(Clone, Copy, Debug, PartialEq, Eq, Structural)]
pub enum Load {
    /// Load a 16-bit register with an immediate word.
    LdWord(Reg16, u16),
    /// Load an 8-bit place with an immediate byte.
    LdByte(Loc8, u8),
    /// Copy the second place to the first.
    Ld(Loc8, Loc8),
    /// Store the accumulator where BC or DE points.
    StoreA(Reg16),
    /// Load the accumulator from where BC or DE points.
    LoadA(Reg16),
    /// Store the accumulator where HL points, then move HL up.
    StoreAInc,
    /// Store the accumulator where HL points, then move HL down.
    StoreADec,
    /// Load the accumulator from where HL points, then move HL up.
    LoadAInc,
    /// Load the accumulator from where HL points, then move HL down.
    LoadADec,
    /// Store the accumulator in the high page, at an immediate offset.
    StoreHigh(u8),
    /// Load the accumulator from the high page, at an immediate offset.
    LoadHigh(u8),
    /// Store the accumulator in the high page, at the offset in C.
    StoreHighC,
    /// Store the accumulator at an immediate address.
    StoreAt(u16),
    /// Load the accumulator from an immediate address.
    LoadAt(u16),
    Pop(Reg16),
    Push(Reg16),
}

/// Arithmetic and logic.
#[derive(Clone, Copy, Debug, PartialEq, Eq, Structural)]
pub enum Arith {
    IncWord(Reg16),
    DecWord(Reg16),
    Inc(Loc8),
    Dec(Loc8),
    Rlca,
    Daa,
    Cpl,
    /// Add a 16-bit register to HL.
    AddHl(Reg16),
    Alu(AluOp, Loc8),
    AluByte(AluOp, u8),
}

/// Control flow and interrupt control.
#[derive(Clone, Copy, Debug, PartialEq, Eq, Structural)]
pub enum Flow {
    Nop,
    /// Relative jump by a signed offset.
    Jr(u8),
    JrIf(Cond, u8),
    Jp(u16),
    JpIf(Cond, u16),
    JpHl,
    Call(u16),
    /// Call to a fixed address in the first page.
    Rst(u8),
    Ret,
    RetIf(Cond),
    /// Return and enable interrupts at once.
    Reti,
    /// Ask for interrupts to be enabled after the next instruction.
    Ei,
    Di,
}

/// The prefixed instructions: shifts and single-bit operations.
#[derive(Clone, Copy, Debug, PartialEq, Eq, Structural)]
pub enum Bits {
    Sla(Loc8),
    Swap(Loc8),
    Srl(Loc8),
    TestBit(u8, Loc8),
    ClearBit(u8, Loc8),
    SetBit(u8, Loc8),
}

/// A decoded instruction, with its immediate operands.
#[derive(Clone, Copy, Debug, PartialEq, Eq, Structural)]
pub enum Instr {
    Load(Load),
    Arith(Arith),
    Flow(Flow),
    Bits(Bits),
}

/// Why an instruction could not be decoded: the byte that is outside the
/// supported set, in the plain or in the prefixed opcode space.
#[derive(Clone, Copy, Debug, PartialEq, Eq, Structural)]
pub enum Fault {
    Opcode(u8),
    Prefixed(u8),
}

/// The byte that introduces a prefixed opcode.
pub const PREFIX: u8 = 0xCB;

/// The place that a three-bit register field names.
pub open spec fn loc8(field: int) -> Loc8 {
    if field == 0 {
        Loc8::B
    } else if field == 1 {
        Loc8::C
    } else if field == 2 {
        Loc8::D
    } else if field == 3 {
        Loc8::E
    } else if field == 4 {
        Loc8::H
    } else if field == 5 {
        Loc8::L
    } else if field == 6 {
        Loc8::HlMem
    } else {
        Loc8::A
    }
}

/// The register that a two-bit pair field names in loads and arithmetic.
pub open spec fn pair(field: int) -> Reg16 {
    if field == 0 {
        Reg16::BC
    } else if field == 1 {
        Reg16::DE
    } else if field == 2 {
        Reg16::HL
    } else {
        Reg16::SP
    }
}

/// The register that a two-bit pair field names in pushes and pops.
pub open spec fn stack_pair(field: int) -> Reg16 {
    if field == 3 {
        Reg16::AF
    } else {
        pair(field)
    }
}

/// The condition that a two-bit condition field names.
pub open spec fn cond(field: int) -> Cond {
    if field == 0 {
        Cond::NotZero
    } else if field == 1 {
        Cond::Zero
    } else if field == 2 {
        Cond::NoCarry
    } else {
        Cond::Carry
    }
}

/// The operation that a three-bit operation field names.
pub open spec fn alu_op(field: int) -> AluOp {
    if field == 0 {
        AluOp::Add
    } else if field == 1 {
        AluOp::Adc
    } else if field == 2 {
        AluOp::Sub
    } else if field == 3 {
        AluOp::Sbc
    } else if field == 4 {
        AluOp::And
    } else if field == 5 {
        AluOp::Xor
    } else if field == 6 {
        AluOp::Or
    } else {
        AluOp::Cp
    }
}

/// The plain opcodes that are supported, the prefix byte aside.
pub open spec fn supported(op: u8) -> bool {
    match op {
        0x00 | 0x01 | 0x02 | 0x03 | 0x04 | 0x05 | 0x06 | 0x07 => true,
        0x09 | 0x0A | 0x0B | 0x0C | 0x0D | 0x0E => true,
        0x11 | 0x12 | 0x13 | 0x16 | 0x18 | 0x19 | 0x1A | 0x1B | 0x1C | 0x1D | 0x1E => true,
        0x20 | 0x21 | 0x22 | 0x23 | 0x25 | 0x26 | 0x27 | 0x28 => true,
        0x2A | 0x2B | 0x2C | 0x2D | 0x2E | 0x2F => true,
        0x30 | 0x31 | 0x32 | 0x34 | 0x35 | 0x36 | 0x38 | 0x3A | 0x3C | 0x3D | 0x3E => true,
        0x40 | 0x46 | 0x47 | 0x4E | 0x4F => true,
        0x54 | 0x56 | 0x57 | 0x5D | 0x5E | 0x5F => true,
        0x60 | 0x61 | 0x62 | 0x67 | 0x69 | 0x6B | 0x6F => true,
        0x70 | 0x71 | 0x72 | 0x73 | 0x77 | 0x78 | 0x79 | 0x7A | 0x7B | 0x7C | 0x7D | 0x7E => true,
        0x80 | 0x82 | 0x83 | 0x85 | 0x86 | 0x87 | 0x89 | 0x8E => true,
        0x90 | 0x96 => true,
        0xA0 | 0xA1 | 0xA7 | 0xA8 | 0xA9 | 0xAF => true,
        0xB0 | 0xB1 | 0xB2 | 0xB7 | 0xB8 | 0xB9 | 0xBE => true,
        0xC0 | 0xC1 | 0xC2 | 0xC3 | 0xC5 | 0xC6 | 0xC8 | 0xC9 | 0xCA | 0xCD => true,
        0xD0 | 0xD1 | 0xD5 | 0xD6 | 0xD8 | 0xD9 => true,
        0xE0 | 0xE1 | 0xE2 | 0xE5 | 0xE6 | 0xE9 | 0xEA | 0xEE | 0xEF => true,
        0xF0 | 0xF1 | 0xF3 | 0xF5 | 0xF6 | 0xFA | 0xFB | 0xFE => true,
        _ => false,
    }
}

/// The prefixed opcodes that are supported.
pub open spec fn supported_prefixed(op: u8) -> bool {
    match op {
        0x27 | 0x37 | 0x3F => true,
        0x40 | 0x41 | 0x47 | 0x48 => true,
        0x50 | 0x57 | 0x58 | 0x5F => true,
        0x60 | 0x61 | 0x68 | 0x69 | 0x6F => true,
        0x70 | 0x71 | 0x77 | 0x78 | 0x79 | 0x7E | 0x7F => true,
        0x86 | 0x87 | 0x9E | 0xBE | 0xDE | 0xFE => true,
        _ => false,
    }
}

impl Instr {
    /// A bit instruction names one of the eight bits of a byte.
    pub open spec fn valid(self) -> bool {
        match self {
            Instr::Bits(Bits::TestBit(bit, _)) | Instr::Bits(Bits::ClearBit(bit, _)) | Instr::Bits(
                Bits::SetBit(bit, _),
            ) => bit < 8,
            _ => true,
        }
    }

    /// The number of bytes that the instruction occupies: one or two for the
    /// opcode, and its immediate operand.
    pub open spec fn size(self) -> int {
        match self {
            Instr::Load(Load::LdWord(_, _)) | Instr::Load(Load::StoreAt(_)) | Instr::Load(
                Load::LoadAt(_),
            ) => 3,
            Instr::Flow(Flow::Jp(_)) | Instr::Flow(Flow::JpIf(_, _)) | Instr::Flow(
                Flow::Call(_),
            ) => 3,
            Instr::Load(Load::LdByte(_, _)) | Instr::Load(Load::StoreHigh(_)) | Instr::Load(
                Load::LoadHigh(_),
            ) => 2,
            Instr::Flow(Flow::Jr(_)) | Instr::Flow(Flow::JrIf(_, _)) => 2,
            Instr::Arith(Arith::AluByte(_, _)) => 2,
            Instr::Bits(_) => 2,
            _ => 1,
        }
    }
}

/// The instruction that a plain opcode encodes, read by its bit fields: two
/// bits of block, three of row and three of column. `operand` is the
/// immediate operand that follows the opcode; a byte operand is its low byte.
pub open spec fn decode_plain(op: u8, operand: u16) -> Option<Instr> {
    let x = (op / 64) as int;
    let y = (op / 8 % 8) as int;
    let z = (op % 8) as int;
    let p = y / 2;
    let q = y % 2;
    let byte = (operand % 256) as u8;
    if x == 1 {
        Some(Instr::Load(Load::Ld(loc8(y), loc8(z))))
    } else if x == 2 {
        Some(Instr::Arith(Arith::Alu(alu_op(y), loc8(z))))
    } else if x == 0 {
        if z == 0 {
            if y == 0 {
                Some(Instr::Flow(Flow::Nop))
            } else if y == 3 {
                Some(Instr::Flow(Flow::Jr(byte)))
            } else if y >= 4 {
                Some(Instr::Flow(Flow::JrIf(cond(y - 4), byte)))
            } else {
                None
            }
        } else if z == 1 {
            if q == 0 {
                Some(Instr::Load(Load::LdWord(pair(p), operand)))
            } else {
                Some(Instr::Arith(Arith::AddHl(pair(p))))
            }
        } else if z == 2 {
            if p < 2 {
                if q == 0 {
                    Some(Instr::Load(Load::StoreA(pair(p))))
                } else {
                    Some(Instr::Load(Load::LoadA(pair(p))))
                }
            } else if p == 2 {
                if q == 0 {
                    Some(Instr::Load(Load::StoreAInc))
                } else {
                    Some(Instr::Load(Load::LoadAInc))
                }
            } else {
                if q == 0 {
                    Some(Instr::Load(Load::StoreADec))
                } else {
                    Some(Instr::Load(Load::LoadADec))
                }
            }
        } else if z == 3 {
            if q == 0 {
                Some(Instr::Arith(Arith::IncWord(pair(p))))
            } else {
                Some(Instr::Arith(Arith::DecWord(pair(p))))
            }
        } else if z == 4 {
            Some(Instr::Arith(Arith::Inc(loc8(y))))
        } else if z == 5 {
            Some(Instr::Arith(Arith::Dec(loc8(y))))
        } else if z == 6 {
            Some(Instr::Load(Load::LdByte(loc8(y), byte)))
        } else {
            if y == 0 {
                Some(Instr::Arith(Arith::Rlca))
            } else if y == 4 {
                Some(Instr::Arith(Arith::Daa))
            } else if y == 5 {
                Some(Instr::Arith(Arith::Cpl))
            } else {
                None
            }
        }
    } else {
        if z == 0 {
            if y < 4 {
                Some(Instr::Flow(Flow::RetIf(cond(y))))
            } else if y == 4 {
                Some(Instr::Load(Load::StoreHigh(byte)))
            } else if y == 6 {
                Some(Instr::Load(Load::LoadHigh(byte)))
            } else {
                None
            }
        } else if z == 1 {
            if q == 0 {
                Some(Instr::Load(Load::Pop(stack_pair(p))))
            } else if p == 0 {
                Some(Instr::Flow(Flow::Ret))
            } else if p == 1 {
                Some(Instr::Flow(Flow::Reti))
            } else if p == 2 {
                Some(Instr::Flow(Flow::JpHl))
            } else {
                None
            }
        } else if z == 2 {
            if y < 4 {
                Some(Instr::Flow(Flow::JpIf(cond(y), operand)))
            } else if y == 4 {
                Some(Instr::Load(Load::StoreHighC))
            } else if y == 5 {
                Some(Instr::Load(Load::StoreAt(operand)))
            } else if y == 7 {
                Some(Instr::Load(Load::LoadAt(operand)))
            } else {
                None
            }
        } else if z == 3 {
            if y == 0 {
                Some(Instr::Flow(Flow::Jp(operand)))
            } else if y == 6 {
                Some(Instr::Flow(Flow::Di))
            } else if y == 7 {
                Some(Instr::Flow(Flow::Ei))
            } else {
                None
            }
        } else if z == 5 {
            if q == 0 {
                Some(Instr::Load(Load::Push(stack_pair(p))))
            } else if p == 0 {
                Some(Instr::Flow(Flow::Call(operand)))
            } else {
                None
            }
        } else if z == 6 {
            Some(Instr::Arith(Arith::AluByte(alu_op(y), byte)))
        } else if z == 7 {
            Some(Instr::Flow(Flow::Rst((y * 8) as u8)))
        } else {
            None
        }
    }
}

/// The instruction that a prefixed opcode encodes, read by its bit fields.
pub open spec fn decode_prefixed(op: u8) -> Option<Instr> {
    let x = (op / 64) as int;
    let y = (op / 8 % 8) as int;
    let z = (op % 8) as int;
    if x == 0 {
        if y == 4 {
            Some(Instr::Bits(Bits::Sla(loc8(z))))
        } else if y == 6 {
            Some(Instr::Bits(Bits::Swap(loc8(z))))
        } else if y == 7 {
            Some(Instr::Bits(Bits::Srl(loc8(z))))
        } else {
            None
        }
    } else if x == 1 {
        Some(Instr::Bits(Bits::TestBit(y as u8, loc8(z))))
    } else if x == 2 {
        Some(Instr::Bits(Bits::ClearBit(y as u8, loc8(z))))
    } else {
        Some(Instr::Bits(Bits::SetBit(y as u8, loc8(z))))
    }
}

/// The number of operand bytes that follow an opcode: one after the prefix,
/// none after an opcode outside the supported set, and otherwise what the
/// instruction's size asks for.
#[verifier::opaque]
pub open spec fn operand_count(op: u8) -> int {
    if op == PREFIX {
        1
    } else if !supported(op) {
        0
    } else {
        match decode_plain(op, 0) {
            Some(i) => i.size() - 1,
            None => 0,
        }
    }
}

/// What an opcode and its operand decode to: the instruction, if the opcode
/// is in the supported set, and otherwise the byte at fault. After the
/// prefix, the operand's low byte is the prefixed opcode.
#[verifier::opaque]
pub open spec fn decode_spec(op: u8, operand: u16) -> Result<Instr, Fault> {
    if op == PREFIX {
        let second = (operand % 256) as u8;
        match decode_prefixed(second) {
            Some(i) if supported_prefixed(second) => Ok(i),
            _ => Err(Fault::Prefixed(second)),
        }
    } else {
        match decode_plain(op, operand) {
            Some(i) if supported(op) => Ok(i),
            _ => Err(Fault::Opcode(op)),
        }
    }
}

/// Every instruction that decoding yields names its bit, if any, within a
/// byte.
pub proof fn lemma_decode_valid(op: u8, operand: u16)
    ensures
        decode_spec(op, operand) matches Ok(i) ==> i.valid(),
{
    reveal(decode_spec);
    if op == PREFIX {
        let second = (operand % 256) as u8;
        assert((second / 8 % 8) < 8);
    }
}

/// The number of operand bytes to fetch after `op`.
pub fn operand_len(op: u8) -> (n: u8)
    ensures
        n == operand_count(op),
        n <= 2,
{
    proof {
        reveal(operand_count);
    }
    match op {
        0x01 | 0x11 | 0x21 | 0x31 | 0xC2 | 0xC3 | 0xCA | 0xCD | 0xEA | 0xFA => 2,
        0x06 | 0x0E | 0x16 | 0x1E | 0x26 | 0x2E | 0x36 | 0x3E => 1,
        0x18 | 0x20 | 0x28 | 0x30 | 0x38 => 1,
        0xC6 | 0xD6 | 0xE6 | 0xEE | 0xF6 | 0xFE => 1,
        0xE0 | 0xF0 | 0xCB => 1,
        _ => 0,
    }
}

/// The instruction table of the prefixed opcode space.
pub fn decode_second(op: u8) -> (r: Result<Instr, Fault>)
    ensures
        r == decode_spec(PREFIX, op as u16),
{
    proof {
        reveal(decode_spec);
    }
    match op {
        0x27 => Ok(Instr::Bits(Bits::Sla(Loc8::A))),
        0x37 => Ok(Instr::Bits(Bits::Swap(Loc8::A))),
        0x3F => Ok(Instr::Bits(Bits::Srl(Loc8::A))),
        0x40 => Ok(Instr::Bits(Bits::TestBit(0, Loc8::B))),
        0x41 => Ok(Instr::Bits(Bits::TestBit(0, Loc8::C))),
        0x47 => Ok(Instr::Bits(Bits::TestBit(0, Loc8::A))),
        0x48 => Ok(Instr::Bits(Bits::TestBit(1, Loc8::B))),
        0x50 => Ok(Instr::Bits(Bits::TestBit(2, Loc8::B))),
        0x57 => Ok(Instr::Bits(Bits::TestBit(2, Loc8::A))),
        0x58 => Ok(Instr::Bits(Bits::TestBit(3, Loc8::B))),
        0x5F => Ok(Instr::Bits(Bits::TestBit(3, Loc8::A))),
        0x60 => Ok(Instr::Bits(Bits::TestBit(4, Loc8::B))),
        0x61 => Ok(Instr::Bits(Bits::TestBit(4, Loc8::C))),
        0x68 => Ok(Instr::Bits(Bits::TestBit(5, Loc8::B))),
        0x69 => Ok(Instr::Bits(Bits::TestBit(5, Loc8::C))),
        0x6F => Ok(Instr::Bits(Bits::TestBit(5, Loc8::A))),
        0x70 => Ok(Instr::Bits(Bits::TestBit(6, Loc8::B))),
        0x71 => Ok(Instr::Bits(Bits::TestBit(6, Loc8::C))),
        0x77 => Ok(Instr::Bits(Bits::TestBit(6, Loc8::A))),
        0x78 => Ok(Instr::Bits(Bits::TestBit(7, Loc8::B))),
        0x79 => Ok(Instr::Bits(Bits::TestBit(7, Loc8::C))),
        0x7E => Ok(Instr::Bits(Bits::TestBit(7, Loc8::HlMem))),
        0x7F => Ok(Instr::Bits(Bits::TestBit(7, Loc8::A))),
        0x86 => Ok(Instr::Bits(Bits::ClearBit(0, Loc8::HlMem))),
        0x87 => Ok(Instr::Bits(Bits::ClearBit(0, Loc8::A))),
        0x9E => Ok(Instr::Bits(Bits::ClearBit(3, Loc8::HlMem))),
        0xBE => Ok(Instr::Bits(Bits::ClearBit(7, Loc8::HlMem))),
        0xDE => Ok(Instr::Bits(Bits::SetBit(3, Loc8::HlMem))),
        0xFE => Ok(Instr::Bits(Bits::SetBit(7, Loc8::HlMem))),
        _ => Err(Fault::Prefixed(op)),
    }
}

/// The instruction table for the opcodes from 0x00 to 0x3F: loads of
/// immediates, increments, relative jumps.
fn decode_block0(op: u8, operand: u16) -> (r: Result<Instr, Fault>)
    requires
        op / 64 == 0,
        op != PREFIX,
    ensures
        r == decode_spec(op, operand),
{
    proof {
        reveal(decode_spec);
    }
    let byte = (operand % 256) as u8;
    match op {
        0x00 => Ok(Instr::Flow(Flow::Nop)),
        0x01 => Ok(Instr::Load(Load::LdWord(Reg16::BC, operand))),
        0x02 => Ok(Instr::Load(Load::StoreA(Reg16::BC))),
        0x03 => Ok(Instr::Arith(Arith::IncWord(Reg16::BC))),
        0x04 => Ok(Instr::Arith(Arith::Inc(Loc8::B))),
        0x05 => Ok(Instr::Arith(Arith::Dec(Loc8::B))),
        0x06 => Ok(Instr::Load(Load::LdByte(Loc8::B, byte))),
        0x07 => Ok(Instr::Arith(Arith::Rlca)),
        0x09 => Ok(Instr::Arith(Arith::AddHl(Reg16::BC))),
        0x0A => Ok(Instr::Load(Load::LoadA(Reg16::BC))),
        0x0B => Ok(Instr::Arith(Arith::DecWord(Reg16::BC))),
        0x0C => Ok(Instr::Arith(Arith::Inc(Loc8::C))),
        0x0D => Ok(Instr::Arith(Arith::Dec(Loc8::C))),
        0x0E => Ok(Instr::Load(Load::LdByte(Loc8::C, byte))),
        0x11 => Ok(Instr::Load(Load::LdWord(Reg16::DE, operand))),
        0x12 => Ok(Instr::Load(Load::StoreA(Reg16::DE))),
        0x13 => Ok(Instr::Arith(Arith::IncWord(Reg16::DE))),
        0x16 => Ok(Instr::Load(Load::LdByte(Loc8::D, byte))),
        0x18 => Ok(Instr::Flow(Flow::Jr(byte))),
        0x19 => Ok(Instr::Arith(Arith::AddHl(Reg16::DE))),
        0x1A => Ok(Instr::Load(Load::LoadA(Reg16::DE))),
        0x1B => Ok(Instr::Arith(Arith::DecWord(Reg16::DE))),
        0x1C => Ok(Instr::Arith(Arith::Inc(Loc8::E))),
        0x1D => Ok(Instr::Arith(Arith::Dec(Loc8::E))),
        0x1E => Ok(Instr::Load(Load::LdByte(Loc8::E, byte))),
        0x20 => Ok(Instr::Flow(Flow::JrIf(Cond::NotZero, byte))),
        0x21 => Ok(Instr::Load(Load::LdWord(Reg16::HL, operand))),
        0x22 => Ok(Instr::Load(Load::StoreAInc)),
        0x23 => Ok(Instr::Arith(Arith::IncWord(Reg16::HL))),
        0x25 => Ok(Instr::Arith(Arith::Dec(Loc8::H))),
        0x26 => Ok(Instr::Load(Load::LdByte(Loc8::H, byte))),
        0x27 => Ok(Instr::Arith(Arith::Daa)),
        0x28 => Ok(Instr::Flow(Flow::JrIf(Cond::Zero, byte))),
        0x2A => Ok(Instr::Load(Load::LoadAInc)),
        0x2B => Ok(Instr::Arith(Arith::DecWord(Reg16::HL))),
        0x2C => Ok(Instr::Arith(Arith::Inc(Loc8::L))),
        0x2D => Ok(Instr::Arith(Arith::Dec(Loc8::L))),
        0x2E => Ok(Instr::Load(Load::LdByte(Loc8::L, byte))),
        0x2F => Ok(Instr::Arith(Arith::Cpl)),
        0x30 => Ok(Instr::Flow(Flow::JrIf(Cond::NoCarry, byte))),
        0x31 => Ok(Instr::Load(Load::LdWord(Reg16::SP, operand))),
        0x32 => Ok(Instr::Load(Load::StoreADec)),
        0x34 => Ok(Instr::Arith(Arith::Inc(Loc8::HlMem))),
        0x35 => Ok(Instr::Arith(Arith::Dec(Loc8::HlMem))),
        0x36 => Ok(Instr::Load(Load::LdByte(Loc8::HlMem, byte))),
        0x38 => Ok(Instr::Flow(Flow::JrIf(Cond::Carry, byte))),
        0x3A => Ok(Instr::Load(Load::LoadADec)),
        0x3C => Ok(Instr::Arith(Arith::Inc(Loc8::A))),
        0x3D => Ok(Instr::Arith(Arith::Dec(Loc8::A))),
        0x3E => Ok(Instr::Load(Load::LdByte(Loc8::A, byte))),
        _ => Err(Fault::Opcode(op)),
    }
}

/// The instruction table for the opcodes from 0x40 to 0x7F: copies between 8-bit places.
fn decode_block1(op: u8, operand: u16) -> (r: Result<Instr, Fault>)
    requires
        op / 64 == 1,
        op != PREFIX,
    ensures
        r == decode_spec(op, operand),
{
    proof {
        reveal(decode_spec);
    }
    let byte = (operand % 256) as u8;
    match op {
        0x40 => Ok(Instr::Load(Load::Ld(Loc8::B, Loc8::B))),
        0x46 => Ok(Instr::Load(Load::Ld(Loc8::B, Loc8::HlMem))),
        0x47 => Ok(Instr::Load(Load::Ld(Loc8::B, Loc8::A))),
        0x4E => Ok(Instr::Load(Load::Ld(Loc8::C, Loc8::HlMem))),
        0x4F => Ok(Instr::Load(Load::Ld(Loc8::C, Loc8::A))),
        0x54 => Ok(Instr::Load(Load::Ld(Loc8::D, Loc8::H))),
        0x56 => Ok(Instr::Load(Load::Ld(Loc8::D, Loc8::HlMem))),
        0x57 => Ok(Instr::Load(Load::Ld(Loc8::D, Loc8::A))),
        0x5D => Ok(Instr::Load(Load::Ld(Loc8::E, Loc8::L))),
        0x5E => Ok(Instr::Load(Load::Ld(Loc8::E, Loc8::HlMem))),
        0x5F => Ok(Instr::Load(Load::Ld(Loc8::E, Loc8::A))),
        0x60 => Ok(Instr::Load(Load::Ld(Loc8::H, Loc8::B))),
        0x61 => Ok(Instr::Load(Load::Ld(Loc8::H, Loc8::C))),
        0x62 => Ok(Instr::Load(Load::Ld(Loc8::H, Loc8::D))),
        0x67 => Ok(Instr::Load(Load::Ld(Loc8::H, Loc8::A))),
        0x69 => Ok(Instr::Load(Load::Ld(Loc8::L, Loc8::C))),
        0x6B => Ok(Instr::Load(Load::Ld(Loc8::L, Loc8::E))),
        0x6F => Ok(Instr::Load(Load::Ld(Loc8::L, Loc8::A))),
        0x70 => Ok(Instr::Load(Load::Ld(Loc8::HlMem, Loc8::B))),
        0x71 => Ok(Instr::Load(Load::Ld(Loc8::HlMem, Loc8::C))),
        0x72 => Ok(Instr::Load(Load::Ld(Loc8::HlMem, Loc8::D))),
        0x73 => Ok(Instr::Load(Load::Ld(Loc8::HlMem, Loc8::E))),
        0x77 => Ok(Instr::Load(Load::Ld(Loc8::HlMem, Loc8::A))),
        0x78 => Ok(Instr::Load(Load::Ld(Loc8::A, Loc8::B))),
        0x79 => Ok(Instr::Load(Load::Ld(Loc8::A, Loc8::C))),
        0x7A => Ok(Instr::Load(Load::Ld(Loc8::A, Loc8::D))),
        0x7B => Ok(Instr::Load(Load::Ld(Loc8::A, Loc8::E))),
        0x7C => Ok(Instr::Load(Load::Ld(Loc8::A, Loc8::H))),
        0x7D => Ok(Instr::Load(Load::Ld(Loc8::A, Loc8::L))),
        0x7E => Ok(Instr::Load(Load::Ld(Loc8::A, Loc8::HlMem))),
        _ => Err(Fault::Opcode(op)),
    }
}

/// The instruction table for the opcodes from 0x80 to 0xBF: accumulator arithmetic.
fn decode_block2(op: u8, operand: u16) -> (r: Result<Instr, Fault>)
    requires
        op / 64 == 2,
        op != PREFIX,
    ensures
        r == decode_spec(op, operand),
{
    proof {
        reveal(decode_spec);
    }
    let byte = (operand % 256) as u8;
    match op {
        0x80 => Ok(Instr::Arith(Arith::Alu(AluOp::Add, Loc8::B))),
        0x82 => Ok(Instr::Arith(Arith::Alu(AluOp::Add, Loc8::D))),
        0x83 => Ok(Instr::Arith(Arith::Alu(AluOp::Add, Loc8::E))),
        0x85 => Ok(Instr::Arith(Arith::Alu(AluOp::Add, Loc8::L))),
        0x86 => Ok(Instr::Arith(Arith::Alu(AluOp::Add, Loc8::HlMem))),
        0x87 => Ok(Instr::Arith(Arith::Alu(AluOp::Add, Loc8::A))),
        0x89 => Ok(Instr::Arith(Arith::Alu(AluOp::Adc, Loc8::C))),
        0x8E => Ok(Instr::Arith(Arith::Alu(AluOp::Adc, Loc8::HlMem))),
        0x90 => Ok(Instr::Arith(Arith::Alu(AluOp::Sub, Loc8::B))),
        0x96 => Ok(Instr::Arith(Arith::Alu(AluOp::Sub, Loc8::HlMem))),
        0xA0 => Ok(Instr::Arith(Arith::Alu(AluOp::And, Loc8::B))),
        0xA1 => Ok(Instr::Arith(Arith::Alu(AluOp::And, Loc8::C))),
        0xA7 => Ok(Instr::Arith(Arith::Alu(AluOp::And, Loc8::A))),
        0xA8 => Ok(Instr::Arith(Arith::Alu(AluOp::Xor, Loc8::B))),
        0xA9 => Ok(Instr::Arith(Arith::Alu(AluOp::Xor, Loc8::C))),
        0xAF => Ok(Instr::Arith(Arith::Alu(AluOp::Xor, Loc8::A))),
        0xB0 => Ok(Instr::Arith(Arith::Alu(AluOp::Or, Loc8::B))),
        0xB1 => Ok(Instr::Arith(Arith::Alu(AluOp::Or, Loc8::C))),
        0xB2 => Ok(Instr::Arith(Arith::Alu(AluOp::Or, Loc8::D))),
        0xB7 => Ok(Instr::Arith(Arith::Alu(AluOp::Or, Loc8::A))),
        0xB8 => Ok(Instr::Arith(Arith::Alu(AluOp::Cp, Loc8::B))),
        0xB9 => Ok(Instr::Arith(Arith::Alu(AluOp::Cp, Loc8::C))),
        0xBE => Ok(Instr::Arith(Arith::Alu(AluOp::Cp, Loc8::HlMem))),
        _ => Err(Fault::Opcode(op)),
    }
}

/// The instruction table for the opcodes from 0xC0 to 0xFF: stack, jumps,
/// calls and high-page access.
fn decode_block3(op: u8, operand: u16) -> (r: Result<Instr, Fault>)
    requires
        op / 64 == 3,
        op != PREFIX,
    ensures
        r == decode_spec(op, operand),
{
    proof {
        reveal(decode_spec);
    }
    let byte = (operand % 256) as u8;
    match op {
        0xC0 => Ok(Instr::Flow(Flow::RetIf(Cond::NotZero))),
        0xC1 => Ok(Instr::Load(Load::Pop(Reg16::BC))),
        0xC2 => Ok(Instr::Flow(Flow::JpIf(Cond::NotZero, operand))),
        0xC3 => Ok(Instr::Flow(Flow::Jp(operand))),
        0xC5 => Ok(Instr::Load(Load::Push(Reg16::BC))),
        0xC6 => Ok(Instr::Arith(Arith::AluByte(AluOp::Add, byte))),
        0xC8 => Ok(Instr::Flow(Flow::RetIf(Cond::Zero))),
        0xC9 => Ok(Instr::Flow(Flow::Ret)),
        0xCA => Ok(Instr::Flow(Flow::JpIf(Cond::Zero, operand))),
        0xCD => Ok(Instr::Flow(Flow::Call(operand))),
        0xD0 => Ok(Instr::Flow(Flow::RetIf(Cond::NoCarry))),
        0xD1 => Ok(Instr::Load(Load::Pop(Reg16::DE))),
        0xD5 => Ok(Instr::Load(Load::Push(Reg16::DE))),
        0xD6 => Ok(Instr::Arith(Arith::AluByte(AluOp::Sub, byte))),
        0xD8 => Ok(Instr::Flow(Flow::RetIf(Cond::Carry))),
        0xD9 => Ok(Instr::Flow(Flow::Reti)),
        0xE0 => Ok(Instr::Load(Load::StoreHigh(byte))),
        0xE1 => Ok(Instr::Load(Load::Pop(Reg16::HL))),
        0xE2 => Ok(Instr::Load(Load::StoreHighC)),
        0xE5 => Ok(Instr::Load(Load::Push(Reg16::HL))),
        0xE6 => Ok(Instr::Arith(Arith::AluByte(AluOp::And, byte))),
        0xE9 => Ok(Instr::Flow(Flow::JpHl)),
        0xEA => Ok(Instr::Load(Load::StoreAt(operand))),
        0xEE => Ok(Instr::Arith(Arith::AluByte(AluOp::Xor, byte))),
        0xEF => Ok(Instr::Flow(Flow::Rst(0x28))),
        0xF0 => Ok(Instr::Load(Load::LoadHigh(byte))),
        0xF1 => Ok(Instr::Load(Load::Pop(Reg16::AF))),
        0xF3 => Ok(Instr::Flow(Flow::Di)),
        0xF5 => Ok(Instr::Load(Load::Push(Reg16::AF))),
        0xF6 => Ok(Instr::Arith(Arith::AluByte(AluOp::Or, byte))),
        0xFA => Ok(Instr::Load(Load::LoadAt(operand))),
        0xFB => Ok(Instr::Flow(Flow::Ei)),
        0xFE => Ok(Instr::Arith(Arith::AluByte(AluOp::Cp, byte))),
        _ => Err(Fault::Opcode(op)),
    }
}

/// Decodes an opcode with its operand: the instruction, or the byte that is
/// outside the supported set.
pub fn decode(op: u8, operand: u16) -> (r: Result<Instr, Fault>)
    ensures
        r == decode_spec(op, operand),
        r matches Ok(i) ==> i.valid(),
{
    proof {
        lemma_decode_valid(op, operand);
    }
    if op == PREFIX {
        proof {
            reveal(decode_spec);
        }
        decode_second((operand % 256) as u8)
    } else if op < 0x40 {
        decode_block0(op, operand)
    } else if op < 0x80 {
        decode_block1(op, operand)
    } else if op < 0xC0 {
        decode_block2(op, operand)
    } else {
        decode_block3(op, operand)
    }
}

} // verus!
