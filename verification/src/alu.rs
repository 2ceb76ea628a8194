use vstd::prelude::*;

verus! {

/// The four condition flags.
#[derive(Clone, Copy, Debug, PartialEq, Eq, Structural)]
pub struct Flags {
    /// The result was zero.
    pub z: bool,
    /// The operation was a subtraction.
    pub n: bool,
    /// Carry or borrow between the nibbles.
    pub h: bool,
    /// Carry or borrow out of the byte or word.
    pub c: bool,
}

impl Flags {
    /// The flags that a flag register holds: bits 7 to 4, in the order
    /// zero, subtract, half-carry, carry.
    pub open spec fn of(f: u8) -> Flags {
        Flags { z: f / 128 % 2 == 1, n: f / 64 % 2 == 1, h: f / 32 % 2 == 1, c: f / 16 % 2 == 1 }
    }

    /// The flag register that holds these flags: its low nibble is zero.
    pub open spec fn bits(self) -> u8 {
        ((if self.z {
            128int
        } else {
            0
        }) + (if self.n {
            64int
        } else {
            0
        }) + (if self.h {
            32int
        } else {
            0
        }) + (if self.c {
            16int
        } else {
            0
        })) as u8
    }
}

/// Packing flags into a register and reading them back changes nothing, and
/// leaves the low nibble zero.
pub proof fn lemma_flags_round_trip(fl: Flags)
    ensures
        Flags::of(fl.bits()) == fl,
        fl.bits() % 16 == 0,
{
    let f = fl.bits();
    if fl.z {
        if fl.n {
            if fl.h {
                if fl.c {
                    assert(f == 240);
                } else {
                    assert(f == 224);
                }
            } else {
                if fl.c {
                    assert(f == 208);
                } else {
                    assert(f == 192);
                }
            }
        } else {
            if fl.h {
                if fl.c {
                    assert(f == 176);
                } else {
                    assert(f == 160);
                }
            } else {
                if fl.c {
                    assert(f == 144);
                } else {
                    assert(f == 128);
                }
            }
        }
    } else {
        if fl.n {
            if fl.h {
                if fl.c {
                    assert(f == 112);
                } else {
                    assert(f == 96);
                }
            } else {
                if fl.c {
                    assert(f == 80);
                } else {
                    assert(f == 64);
                }
            }
        } else {
            if fl.h {
                if fl.c {
                    assert(f == 48);
                } else {
                    assert(f == 32);
                }
            } else {
                if fl.c {
                    assert(f == 16);
                } else {
                    assert(f == 0);
                }
            }
        }
    }
}

/// An integer reduced to a byte.
pub open spec fn wrap8(x: int) -> u8 {
    (x % 256) as u8
}

/// An integer reduced to a 16-bit word.
pub open spec fn wrap16(x: int) -> u16 {
    (x % 65536) as u16
}

/// A byte read as a two's-complement number.
pub open spec fn signed(x: u8) -> int {
    if x < 128 {
        x as int
    } else {
        x - 256
    }
}

/// One for a set carry, zero for a clear one.
pub open spec fn carry_in(c: bool) -> int {
    if c {
        1
    } else {
        0
    }
}

/// Sum of two bytes and a carry, with the flags of an addition.
pub open spec fn add8_spec(a: u8, b: u8, c: bool) -> (u8, Flags) {
    let r = wrap8(a + b + carry_in(c));
    (
        r,
        Flags {
            z: r == 0,
            n: false,
            h: a % 16 + b % 16 + carry_in(c) > 15,
            c: a + b + carry_in(c) > 255,
        },
    )
}

/// Difference of two bytes and a borrow, with the flags of a subtraction.
pub open spec fn sub8_spec(a: u8, b: u8, c: bool) -> (u8, Flags) {
    let r = wrap8(a - b - carry_in(c));
    (
        r,
        Flags {
            z: r == 0,
            n: true,
            h: a % 16 < b % 16 + carry_in(c),
            c: a < b + carry_in(c),
        },
    )
}

/// A byte plus one; the carry flag stays.
pub open spec fn inc8_spec(a: u8, fl: Flags) -> (u8, Flags) {
    let r = wrap8(a + 1);
    (r, Flags { z: r == 0, n: false, h: a % 16 == 15, c: fl.c })
}

/// A byte minus one; the carry flag stays.
pub open spec fn dec8_spec(a: u8, fl: Flags) -> (u8, Flags) {
    let r = wrap8(a - 1);
    (r, Flags { z: r == 0, n: true, h: a % 16 == 0, c: fl.c })
}

/// Bitwise and, which sets the half-carry flag.
pub open spec fn and8_spec(a: u8, b: u8) -> (u8, Flags) {
    let r = a & b;
    (r, Flags { z: r == 0, n: false, h: true, c: false })
}

/// Bitwise exclusive or.
pub open spec fn xor8_spec(a: u8, b: u8) -> (u8, Flags) {
    let r = a ^ b;
    (r, Flags { z: r == 0, n: false, h: false, c: false })
}

/// Bitwise or.
pub open spec fn or8_spec(a: u8, b: u8) -> (u8, Flags) {
    let r = a | b;
    (r, Flags { z: r == 0, n: false, h: false, c: false })
}

/// Sum of two words: carries out of bit 11 and bit 15; the zero flag stays.
pub open spec fn add16_spec(a: u16, b: u16, fl: Flags) -> (u16, Flags) {
    (wrap16(a + b), Flags { z: fl.z, n: false, h: a % 4096 + b % 4096 > 4095, c: a + b > 65535 })
}

/// Rotation to the left by one bit; the bit that leaves is the carry.
pub open spec fn rlca_spec(a: u8) -> (u8, Flags) {
    (wrap8(a * 2 + a / 128), Flags { z: false, n: false, h: false, c: a >= 128 })
}

/// Shift to the left by one bit; the bit that leaves is the carry.
pub open spec fn sla_spec(a: u8) -> (u8, Flags) {
    let r = wrap8(a * 2);
    (r, Flags { z: r == 0, n: false, h: false, c: a >= 128 })
}

/// Shift to the right by one bit; the bit that leaves is the carry.
pub open spec fn srl_spec(a: u8) -> (u8, Flags) {
    let r = (a / 2) as u8;
    (r, Flags { z: r == 0, n: false, h: false, c: a % 2 == 1 })
}

/// The two nibbles exchanged.
pub open spec fn swap_spec(a: u8) -> (u8, Flags) {
    let r = ((a % 16) * 16 + a / 16) as u8;
    (r, Flags { z: r == 0, n: false, h: false, c: false })
}

/// The complement; the zero and carry flags stay.
pub open spec fn cpl_spec(a: u8, fl: Flags) -> (u8, Flags) {
    ((255 - a) as u8, Flags { z: fl.z, n: true, h: true, c: fl.c })
}

/// Decimal adjustment of the accumulator after an addition or subtraction of
/// two packed decimal numbers; the subtract flag stays.
pub open spec fn daa_spec(a: u8, fl: Flags) -> (u8, Flags) {
    if !fl.n {
        let low: int = if fl.h || a % 16 > 9 {
            0x06
        } else {
            0
        };
        let high: int = if fl.c || a > 0x99 {
            0x60
        } else {
            0
        };
        let r = wrap8(a + low + high);
        (r, Flags { z: r == 0, n: fl.n, h: false, c: fl.c || a > 0x99 })
    } else {
        let low: int = if fl.h {
            0x06
        } else {
            0
        };
        let high: int = if fl.c {
            0x60
        } else {
            0
        };
        let r = wrap8(a - low - high);
        (r, Flags { z: r == 0, n: fl.n, h: false, c: fl.c })
    }
}

/// The flags after a test of bit `bit` of `v`; the carry flag stays.
pub open spec fn test_bit_spec(bit: u8, v: u8, fl: Flags) -> Flags {
    Flags { z: v & (1u8 << bit) == 0, n: false, h: true, c: fl.c }
}

/// `v` with bit `bit` cleared.
pub open spec fn clear_bit_spec(bit: u8, v: u8) -> u8 {
    v & !(1u8 << bit)
}

/// `v` with bit `bit` set.
pub open spec fn set_bit_spec(bit: u8, v: u8) -> u8 {
    v | (1u8 << bit)
}

/// Adds two bytes and a carry.
pub fn add8(a: u8, b: u8, carry: bool) -> (r: (u8, Flags))
    ensures
        r == add8_spec(a, b, carry),
{
    let c: u16 = if carry {
        1
    } else {
        0
    };
    let sum: u16 = a as u16 + b as u16 + c;
    let res = (sum % 256) as u8;
    let half = (a % 16) as u16 + (b % 16) as u16 + c > 15;
    (res, Flags { z: res == 0, n: false, h: half, c: sum > 255 })
}

/// Subtracts a byte and a borrow from a byte.
pub fn sub8(a: u8, b: u8, carry: bool) -> (r: (u8, Flags))
    ensures
        r == sub8_spec(a, b, carry),
{
    let c: u16 = if carry {
        1
    } else {
        0
    };
    let take: u16 = b as u16 + c;
    let res = ((256 + a as u16 - take) % 256) as u8;
    let half = ((a % 16) as u16) < (b % 16) as u16 + c;
    (res, Flags { z: res == 0, n: true, h: half, c: (a as u16) < take })
}

/// Adds one to a byte.
pub fn inc8(a: u8, fl: Flags) -> (r: (u8, Flags))
    ensures
        r == inc8_spec(a, fl),
{
    let res = a.wrapping_add(1);
    (res, Flags { z: res == 0, n: false, h: a % 16 == 15, c: fl.c })
}

/// Takes one from a byte.
pub fn dec8(a: u8, fl: Flags) -> (r: (u8, Flags))
    ensures
        r == dec8_spec(a, fl),
{
    let res = a.wrapping_sub(1);
    (res, Flags { z: res == 0, n: true, h: a % 16 == 0, c: fl.c })
}

/// Bitwise and of two bytes.
pub fn and8(a: u8, b: u8) -> (r: (u8, Flags))
    ensures
        r == and8_spec(a, b),
{
    let res = a & b;
    (res, Flags { z: res == 0, n: false, h: true, c: false })
}

/// Bitwise exclusive or of two bytes.
pub fn xor8(a: u8, b: u8) -> (r: (u8, Flags))
    ensures
        r == xor8_spec(a, b),
{
    let res = a ^ b;
    (res, Flags { z: res == 0, n: false, h: false, c: false })
}

/// Bitwise or of two bytes.
pub fn or8(a: u8, b: u8) -> (r: (u8, Flags))
    ensures
        r == or8_spec(a, b),
{
    let res = a | b;
    (res, Flags { z: res == 0, n: false, h: false, c: false })
}

/// Adds two words.
pub fn add16(a: u16, b: u16, fl: Flags) -> (r: (u16, Flags))
    ensures
        r == add16_spec(a, b, fl),
{
    let res = a.wrapping_add(b);
    (res, Flags { z: fl.z, n: false, h: (a % 4096) + (b % 4096) > 4095, c: a > 0xFFFF - b })
}

/// A word plus one, wrapping.
pub fn inc16(v: u16) -> (r: u16)
    ensures
        r == wrap16(v + 1),
{
    v.wrapping_add(1)
}

/// A word minus one, wrapping.
pub fn dec16(v: u16) -> (r: u16)
    ensures
        r == wrap16(v - 1),
{
    v.wrapping_sub(1)
}

/// Rotates a byte to the left by one bit.
pub fn rlca(a: u8) -> (r: (u8, Flags))
    ensures
        r == rlca_spec(a),
{
    let res = (a << 1) | (a >> 7);
    proof {
        assert((a << 1) | (a >> 7) == (a * 2 + a / 128) % 256) by (bit_vector);
    }
    (res, Flags { z: false, n: false, h: false, c: a >= 128 })
}

/// Shifts a byte to the left by one bit.
pub fn sla(a: u8) -> (r: (u8, Flags))
    ensures
        r == sla_spec(a),
{
    let res = a << 1;
    proof {
        assert(a << 1 == (a * 2) % 256) by (bit_vector);
    }
    (res, Flags { z: res == 0, n: false, h: false, c: a >= 128 })
}

/// Shifts a byte to the right by one bit.
pub fn srl(a: u8) -> (r: (u8, Flags))
    ensures
        r == srl_spec(a),
{
    let res = a >> 1;
    proof {
        assert(a >> 1 == a / 2) by (bit_vector);
    }
    (res, Flags { z: res == 0, n: false, h: false, c: a % 2 == 1 })
}

/// Exchanges the nibbles of a byte.
pub fn swap(a: u8) -> (r: (u8, Flags))
    ensures
        r == swap_spec(a),
{
    let res = (a >> 4) | (a << 4);
    proof {
        assert((a >> 4) | (a << 4) == (a % 16) * 16 + a / 16) by (bit_vector);
    }
    (res, Flags { z: res == 0, n: false, h: false, c: false })
}

/// Complements a byte.
pub fn cpl(a: u8, fl: Flags) -> (r: (u8, Flags))
    ensures
        r == cpl_spec(a, fl),
{
    let res = !a;
    proof {
        assert(!a == 255 - a) by (bit_vector);
    }
    (res, Flags { z: fl.z, n: true, h: true, c: fl.c })
}

/// Adjusts a byte to packed decimal.
pub fn daa(a: u8, fl: Flags) -> (r: (u8, Flags))
    ensures
        r == daa_spec(a, fl),
{
    let mut adjust: u8 = 0;
    let mut carry = fl.c;
    let res = if !fl.n {
        if fl.h || a % 16 > 9 {
            adjust = adjust + 0x06;
        }
        if carry || a > 0x99 {
            adjust = adjust + 0x60;
            carry = true;
        }
        a.wrapping_add(adjust)
    } else {
        if fl.h {
            adjust = adjust + 0x06;
        }
        if carry {
            adjust = adjust + 0x60;
        }
        a.wrapping_sub(adjust)
    };
    (res, Flags { z: res == 0, n: fl.n, h: false, c: carry })
}

/// Tests one bit of a byte.
pub fn test_bit(bit: u8, v: u8, fl: Flags) -> (r: Flags)
    requires
        bit < 8,
    ensures
        r == test_bit_spec(bit, v, fl),
{
    Flags { z: v & (1u8 << bit) == 0, n: false, h: true, c: fl.c }
}

/// Clears one bit of a byte.
pub fn clear_bit(bit: u8, v: u8) -> (r: u8)
    requires
        bit < 8,
    ensures
        r == clear_bit_spec(bit, v),
{
    v & !(1u8 << bit)
}

/// Sets one bit of a byte.
pub fn set_bit(bit: u8, v: u8) -> (r: u8)
    requires
        bit < 8,
    ensures
        r == set_bit_spec(bit, v),
{
    v | (1u8 << bit)
}

} // verus!
