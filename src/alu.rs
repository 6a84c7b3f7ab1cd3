use vstd::prelude::*;

verus! {

/// The four used flag bits: zero, subtract, half carry, carry.
#[derive(Debug, Copy, Clone, PartialEq, Eq, Structural)]
pub struct Flags {
    pub z: bool,
    pub n: bool,
    pub h: bool,
    pub c: bool,
}

pub open spec fn b2i(b: bool) -> int {
    if b {
        1
    } else {
        0
    }
}

/// The flags register byte: Z N H C in bits 7..4, the low nibble zero.
pub open spec fn flags_byte(f: Flags) -> u8 {
    (128 * b2i(f.z) + 64 * b2i(f.n) + 32 * b2i(f.h) + 16 * b2i(f.c)) as u8
}

/// The flags held in bits 7..4 of `b`; the low nibble is dropped.
pub open spec fn flags_of(b: u8) -> Flags {
    Flags { z: b / 128 % 2 == 1, n: b / 64 % 2 == 1, h: b / 32 % 2 == 1, c: b / 16 % 2 == 1 }
}

/// Addition with carry in: wrapping result, half carry out of bit 3,
/// carry out of bit 7.
pub open spec fn add8(a: u8, b: u8, cin: bool) -> (u8, Flags) {
    let r = ((a + b + b2i(cin)) % 256) as u8;
    (r, Flags { z: r == 0, n: false, h: a % 16 + b % 16 + b2i(cin) > 15, c: a + b + b2i(cin) > 255 })
}

/// Subtraction with borrow in: wrapping result, borrow from bit 4 and from
/// bit 8.
pub open spec fn sub8(a: u8, b: u8, cin: bool) -> (u8, Flags) {
    let r = ((a - b - b2i(cin)) % 256) as u8;
    (r, Flags { z: r == 0, n: true, h: a % 16 < b % 16 + b2i(cin), c: a < b + b2i(cin) })
}

/// The eight accumulator operations, numbered as in the opcode bits:
/// ADD, ADC, SUB, SBC, AND, XOR, OR, CP. CP keeps the accumulator.
pub open spec fn alu_spec(k: u8, a: u8, b: u8, f: Flags) -> (u8, Flags) {
    if k == 0 {
        add8(a, b, false)
    } else if k == 1 {
        add8(a, b, f.c)
    } else if k == 2 {
        sub8(a, b, false)
    } else if k == 3 {
        sub8(a, b, f.c)
    } else if k == 4 {
        (a & b, Flags { z: a & b == 0, n: false, h: true, c: false })
    } else if k == 5 {
        (a ^ b, Flags { z: a ^ b == 0, n: false, h: false, c: false })
    } else if k == 6 {
        (a | b, Flags { z: a | b == 0, n: false, h: false, c: false })
    } else {
        (a, sub8(a, b, false).1)
    }
}

/// The eight rotate and shift operations, numbered as in the prefixed
/// opcode bits: RLC, RRC, RL, RR, SLA, SRA, SWAP, SRL. The carry receives
/// the bit shifted out (SWAP clears it).
pub open spec fn shift_spec(k: u8, v: u8, f: Flags) -> (u8, Flags) {
    let (r, c): (int, bool) = if k == 0 {
        ((v * 2) % 256 + v / 128, v >= 128)
    } else if k == 1 {
        (v / 2 + (v % 2) * 128, v % 2 == 1)
    } else if k == 2 {
        ((v * 2) % 256 + b2i(f.c), v >= 128)
    } else if k == 3 {
        (v / 2 + b2i(f.c) * 128, v % 2 == 1)
    } else if k == 4 {
        ((v * 2) % 256, v >= 128)
    } else if k == 5 {
        (v / 2 + (v / 128) * 128, v % 2 == 1)
    } else if k == 6 {
        ((v % 16) * 16 + v / 16, false)
    } else {
        ((v / 2) as int, v % 2 == 1)
    };
    (r as u8, Flags { z: r == 0, n: false, h: false, c })
}

/// INC and DEC: like adding or subtracting 1, with the carry kept.
pub open spec fn incdec_spec(v: u8, dec: bool, f: Flags) -> (u8, Flags) {
    let (r, g) = if dec {
        sub8(v, 1, false)
    } else {
        add8(v, 1, false)
    };
    (r, Flags { c: f.c, ..g })
}

/// 16-bit addition: wrapping result, half carry out of bit 11, carry out of
/// bit 15, N cleared, Z as given.
pub open spec fn add16(a: u16, b: u16, z: bool) -> (u16, Flags) {
    (
        ((a + b) % 0x10000) as u16,
        Flags { z, n: false, h: a % 0x1000 + b % 0x1000 > 0xFFF, c: a + b > 0xFFFF },
    )
}

/// A byte read as a signed offset and widened to 16 bits.
pub open spec fn sext(b: u8) -> u16 {
    if b < 128 {
        b as u16
    } else {
        (b + 0xFF00) as u16
    }
}

/// Decimal adjustment of the accumulator after a BCD addition or
/// subtraction.
pub open spec fn daa_spec(a: u8, f: Flags) -> (u8, Flags) {
    if !f.n {
        let (a1, c1) = if f.c || a > 0x99 {
            (((a + 0x60) % 256) as u8, true)
        } else {
            (a, false)
        };
        let a2 = if f.h || a1 % 16 > 9 {
            ((a1 + 6) % 256) as u8
        } else {
            a1
        };
        (a2, Flags { z: a2 == 0, n: false, h: false, c: c1 })
    } else {
        let a1 = if f.c {
            ((a - 0x60) % 256) as u8
        } else {
            a
        };
        let a2 = if f.h {
            ((a1 - 6) % 256) as u8
        } else {
            a1
        };
        (a2, Flags { z: a2 == 0, n: true, h: false, c: f.c })
    }
}

pub fn flags_to_byte(f: Flags) -> (r: u8)
    ensures
        r == flags_byte(f),
{
    (if f.z {
        128u8
    } else {
        0
    }) + (if f.n {
        64u8
    } else {
        0
    }) + (if f.h {
        32u8
    } else {
        0
    }) + (if f.c {
        16u8
    } else {
        0
    })
}

pub fn byte_to_flags(b: u8) -> (r: Flags)
    ensures
        r == flags_of(b),
{
    Flags { z: b / 128 % 2 == 1, n: b / 64 % 2 == 1, h: b / 32 % 2 == 1, c: b / 16 % 2 == 1 }
}

fn carry_positive(left: u8, right: u8) -> (r: bool)
    ensures
        r == (left + right > 255),
{
    left as u16 + right as u16 > 255
}

fn carry_negative(left: u8, right: u8) -> (r: bool)
    ensures
        r == (left < right),
{
    left < right
}

fn half_carry_positive(left: u8, right: u8) -> (r: bool)
    ensures
        r == (left % 16 + right % 16 > 15),
{
    (left % 16) + (right % 16) > 15
}

fn half_carry_negative(left: u8, right: u8) -> (r: bool)
    ensures
        r == (left % 16 < right % 16),
{
    (left % 16) < (right % 16)
}

fn carry_positive_16(left: u16, right: u16) -> (r: bool)
    ensures
        r == (left + right > 0xFFFF),
{
    left as u32 + right as u32 > 0xFFFF
}

fn half_carry_positive_16(left: u16, right: u16) -> (r: bool)
    ensures
        r == (left % 0x1000 + right % 0x1000 > 0xFFF),
{
    (left % 0x1000) + (right % 0x1000) > 0xFFF
}

/// Addition, computed in two steps (operand, then carry in) whose half
/// carries and carries are or-ed together.
pub fn add_8(a: u8, b: u8, cin: bool) -> (r: (u8, Flags))
    ensures
        r == add8(a, b, cin),
{
    let c: u8 = if cin {
        1
    } else {
        0
    };
    let result1 = a.wrapping_add(b);
    let result2 = result1.wrapping_add(c);
    let c1 = carry_positive(a, b);
    let h1 = half_carry_positive(a, b);
    let c2 = carry_positive(result1, c);
    let h2 = half_carry_positive(result1, c);
    (result2, Flags { z: result2 == 0, n: false, h: h1 || h2, c: c1 || c2 })
}

/// Subtraction, computed in two steps as `add`.
pub fn sub_8(a: u8, b: u8, cin: bool) -> (r: (u8, Flags))
    ensures
        r == sub8(a, b, cin),
{
    let c: u8 = if cin {
        1
    } else {
        0
    };
    let result1 = a.wrapping_sub(b);
    let result2 = result1.wrapping_sub(c);
    let c1 = carry_negative(a, b);
    let h1 = half_carry_negative(a, b);
    let c2 = carry_negative(result1, c);
    let h2 = half_carry_negative(result1, c);
    (result2, Flags { z: result2 == 0, n: true, h: h1 || h2, c: c1 || c2 })
}

pub fn alu(k: u8, a: u8, b: u8, f: Flags) -> (r: (u8, Flags))
    ensures
        r == alu_spec(k, a, b, f),
{
    if k == 0 {
        add_8(a, b, false)
    } else if k == 1 {
        add_8(a, b, f.c)
    } else if k == 2 {
        sub_8(a, b, false)
    } else if k == 3 {
        sub_8(a, b, f.c)
    } else if k == 4 {
        (a & b, Flags { z: a & b == 0, n: false, h: true, c: false })
    } else if k == 5 {
        (a ^ b, Flags { z: a ^ b == 0, n: false, h: false, c: false })
    } else if k == 6 {
        (a | b, Flags { z: a | b == 0, n: false, h: false, c: false })
    } else {
        let (_, g) = sub_8(a, b, false);
        (a, g)
    }
}

pub fn shift(k: u8, v: u8, f: Flags) -> (r: (u8, Flags))
    ensures
        r == shift_spec(k, v, f),
{
    let cin: u16 = if f.c {
        1
    } else {
        0
    };
    let w = v as u16;
    let (r, c): (u16, bool) = if k == 0 {
        ((w * 2) % 256 + w / 128, v >= 128)
    } else if k == 1 {
        (w / 2 + (w % 2) * 128, v % 2 == 1)
    } else if k == 2 {
        ((w * 2) % 256 + cin, v >= 128)
    } else if k == 3 {
        (w / 2 + cin * 128, v % 2 == 1)
    } else if k == 4 {
        ((w * 2) % 256, v >= 128)
    } else if k == 5 {
        (w / 2 + (w / 128) * 128, v % 2 == 1)
    } else if k == 6 {
        ((w % 16) * 16 + w / 16, false)
    } else {
        (w / 2, v % 2 == 1)
    };
    (r as u8, Flags { z: r == 0, n: false, h: false, c })
}

pub fn incdec(v: u8, dec: bool, f: Flags) -> (r: (u8, Flags))
    ensures
        r == incdec_spec(v, dec, f),
{
    let (r, g) = if dec {
        sub_8(v, 1, false)
    } else {
        add_8(v, 1, false)
    };
    (r, Flags { c: f.c, ..g })
}

pub fn add_16(a: u16, b: u16, z: bool) -> (r: (u16, Flags))
    ensures
        r == add16(a, b, z),
{
    (
        a.wrapping_add(b),
        Flags { z, n: false, h: half_carry_positive_16(a, b), c: carry_positive_16(a, b) },
    )
}

pub fn sign_extend(b: u8) -> (r: u16)
    ensures
        r == sext(b),
{
    if b < 128 {
        b as u16
    } else {
        b as u16 + 0xFF00
    }
}

pub fn daa(a: u8, f: Flags) -> (r: (u8, Flags))
    ensures
        r == daa_spec(a, f),
{
    let mut result = a;
    let mut c = false;
    if !f.n {
        if f.c || a > 0x99 {
            result = result.wrapping_add(0x60);
            c = true;
        }
        if f.h || result % 16 > 9 {
            result = result.wrapping_add(0x06);
        }
        (result, Flags { z: result == 0, n: false, h: false, c })
    } else {
        if f.c {
            result = result.wrapping_sub(0x60);
        }
        if f.h {
            result = result.wrapping_sub(0x06);
        }
        (result, Flags { z: result == 0, n: true, h: false, c: f.c })
    }
}

} // verus!

verus! {

/// Adding `b` and then subtracting `b` gives back `a`; so does subtracting
/// and then adding.
pub proof fn lemma_add_sub_inverse(a: u8, b: u8)
    ensures
        sub8(add8(a, b, false).0, b, false).0 == a,
        add8(sub8(a, b, false).0, b, false).0 == a,
{
    let s = add8(a, b, false).0;
    if a + b < 256 {
        assert(s == a + b);
    } else {
        assert(s == a + b - 256);
    }
    assert(((s - b) % 256) as u8 == a);
    let d = sub8(a, b, false).0;
    if a >= b {
        assert(d == a - b);
    } else {
        assert(d == a - b + 256);
    }
    assert(((d + b) % 256) as u8 == a);
}

/// Packing flags into a byte and reading them back gives the same flags.
pub proof fn lemma_flags_round_trip(f: Flags)
    ensures
        flags_of(flags_byte(f)) == f,
        flags_byte(f) % 16 == 0,
{
}

} // verus!
