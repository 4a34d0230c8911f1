use vstd::prelude::*;

verus! {

/// The F byte holding the four given flags.
pub open spec fn flags_of(z: bool, n: bool, h: bool, c: bool) -> u8 {
    (if z { 0x80u8 } else { 0u8 }) | (if n { 0x40u8 } else { 0u8 }) | (if h { 0x20u8 } else { 0u8 }) | (
    if c {
        0x10u8
    } else {
        0u8
    })
}

/// Result byte and F of an 8-bit addition with carry-in `c`.
pub open spec fn add8_spec(a: u8, b: u8, c: bool) -> (u8, u8) {
    let ci: int = if c { 1 } else { 0 };
    let r = ((a + b + ci) % 256) as u8;
    (r, flags_of(r == 0, false, a % 16 + b % 16 + ci > 15, a + b + ci > 255))
}

/// Result byte and F of an 8-bit subtraction with borrow-in `c`.
pub open spec fn sub8_spec(a: u8, b: u8, c: bool) -> (u8, u8) {
    let ci: int = if c { 1 } else { 0 };
    let r = ((a - b - ci + 512) % 256) as u8;
    (r, flags_of(r == 0, true, a % 16 < b % 16 + ci, a < b + ci))
}

/// Result and F of an 8-bit increment; the carry flag `c` is kept.
pub open spec fn inc8_spec(a: u8, c: bool) -> (u8, u8) {
    let r = ((a + 1) % 256) as u8;
    (r, flags_of(r == 0, false, a % 16 == 15, c))
}

/// Result and F of an 8-bit decrement; the carry flag `c` is kept.
pub open spec fn dec8_spec(a: u8, c: bool) -> (u8, u8) {
    let r = ((a + 255) % 256) as u8;
    (r, flags_of(r == 0, true, a % 16 == 0, c))
}

/// Result and F of ADD HL, rr: H from bit 11, C from bit 15, Z kept.
pub open spec fn add16_spec(hl: u16, rr: u16, z: bool) -> (u16, u8) {
    ((((hl + rr) % 0x10000) as u16), flags_of(z, false, hl % 0x1000 + rr % 0x1000 > 0xfff, hl + rr > 0xffff))
}

/// SP plus a signed offset, with the flags of the unsigned addition of the low bytes.
pub open spec fn add_sp_spec(sp: u16, e: i8) -> (u16, u8) {
    let u: int = if e < 0 { e + 256 } else { e as int };
    (((sp + e + 0x10000) % 0x10000) as u16, flags_of(false, false, sp % 16 + u % 16 > 15, sp % 256 + u > 255))
}

/// Decimal adjust of A after a BCD addition (`n` false) or subtraction (`n` true).
pub open spec fn daa_spec(a: u8, n: bool, h: bool, c: bool) -> (u8, u8) {
    if !n {
        let high = c || a > 0x99;
        let a1: int = if high { a + 0x60 } else { a as int };
        let a2: int = if h || a % 16 > 9 { a1 + 6 } else { a1 };
        let r = (a2 % 256) as u8;
        (r, flags_of(r == 0, n, false, high))
    } else {
        let a1: int = if c { a - 0x60 } else { a as int };
        let a2: int = if h { a1 - 6 } else { a1 };
        let r = ((a2 + 512) % 256) as u8;
        (r, flags_of(r == 0, n, false, c))
    }
}

/// The rotate / shift kinds.
#[derive(Debug, Clone, Copy, PartialEq, Eq, Structural)]
pub enum Shift {
    /// Rotate left, bit 7 to carry and bit 0.
    Rlc,
    /// Rotate right, bit 0 to carry and bit 7.
    Rrc,
    /// Rotate left through carry.
    Rl,
    /// Rotate right through carry.
    Rr,
    /// Shift left, bit 0 cleared.
    Sla,
    /// Shift right, bit 7 kept.
    Sra,
    /// Shift right, bit 7 cleared.
    Srl,
    /// Exchange the nibbles.
    Swap,
}

/// Result and carry-out of a rotate / shift of `a` with carry-in `c`.
pub open spec fn shift_spec(kind: Shift, a: u8, c: bool) -> (u8, bool) {
    let ci: int = if c { 1 } else { 0 };
    match kind {
        Shift::Rlc => (((a * 2) % 256 + a / 128) as u8, a >= 128),
        Shift::Rrc => ((a / 2 + (a % 2) * 128) as u8, a % 2 == 1),
        Shift::Rl => (((a * 2) % 256 + ci) as u8, a >= 128),
        Shift::Rr => ((a / 2 + ci * 128) as u8, a % 2 == 1),
        Shift::Sla => (((a * 2) % 256) as u8, a >= 128),
        Shift::Sra => ((a / 2 + (a / 128) * 128) as u8, a % 2 == 1),
        Shift::Srl => ((a / 2) as u8, a % 2 == 1),
        Shift::Swap => (((a % 16) * 16 + a / 16) as u8, false),
    }
}

/// Whether bit `n` of `v` is set.
pub open spec fn bit_set(v: u8, n: u8) -> bool {
    (v >> n) & 1 == 1
}

pub proof fn lemma_flags_of(z: bool, n: bool, h: bool, c: bool)
    ensures
        flags_of(z, n, h, c) & 0x0f == 0,
        (flags_of(z, n, h, c) & 0x80 != 0) == z,
        (flags_of(z, n, h, c) & 0x40 != 0) == n,
        (flags_of(z, n, h, c) & 0x20 != 0) == h,
        (flags_of(z, n, h, c) & 0x10 != 0) == c,
{
    let f = flags_of(z, n, h, c);
    assert(f & 0x0f == 0 && (f & 0x80 != 0) == z && (f & 0x40 != 0) == n && (f & 0x20 != 0) == h
        && (f & 0x10 != 0) == c) by (bit_vector)
        requires
            f == ((if z { 0x80u8 } else { 0u8 }) | (if n { 0x40u8 } else { 0u8 }) | (if h { 0x20u8 } else { 0u8 }) | (
            if c {
                0x10u8
            } else {
                0u8
            })),
    ;
}

pub fn flags(z: bool, n: bool, h: bool, c: bool) -> (r: u8)
    ensures
        r == flags_of(z, n, h, c),
        r & 0x0f == 0,
{
    proof {
        lemma_flags_of(z, n, h, c);
    }
    (if z { 0x80u8 } else { 0u8 }) | (if n { 0x40u8 } else { 0u8 }) | (if h { 0x20u8 } else { 0u8 }) | (
    if c {
        0x10u8
    } else {
        0u8
    })
}

pub fn add8(a: u8, b: u8, c: bool) -> (r: (u8, u8))
    ensures
        r == add8_spec(a, b, c),
        r.1 & 0x0f == 0,
{
    let ci: u16 = if c { 1 } else { 0 };
    let sum = a as u16 + b as u16 + ci;
    let res = (sum % 256) as u8;
    (res, flags(res == 0, false, (a % 16) as u16 + (b % 16) as u16 + ci > 15, sum > 255))
}

pub fn sub8(a: u8, b: u8, c: bool) -> (r: (u8, u8))
    ensures
        r == sub8_spec(a, b, c),
        r.1 & 0x0f == 0,
{
    let ci: u16 = if c { 1 } else { 0 };
    let res = ((a as u16 + 512 - b as u16 - ci) % 256) as u8;
    (res, flags(res == 0, true, ((a % 16) as u16) < (b % 16) as u16 + ci, (a as u16) < b as u16 + ci))
}

pub fn inc8(a: u8, c: bool) -> (r: (u8, u8))
    ensures
        r == inc8_spec(a, c),
        r.1 & 0x0f == 0,
{
    let res = ((a as u16 + 1) % 256) as u8;
    (res, flags(res == 0, false, a % 16 == 15, c))
}

pub fn dec8(a: u8, c: bool) -> (r: (u8, u8))
    ensures
        r == dec8_spec(a, c),
        r.1 & 0x0f == 0,
{
    let res = ((a as u16 + 255) % 256) as u8;
    (res, flags(res == 0, true, a % 16 == 0, c))
}

pub fn add16(hl: u16, rr: u16, z: bool) -> (r: (u16, u8))
    ensures
        r == add16_spec(hl, rr, z),
        r.1 & 0x0f == 0,
{
    let sum = hl as u32 + rr as u32;
    ((sum % 0x10000) as u16, flags(z, false, hl % 0x1000 + rr % 0x1000 > 0xfff, sum > 0xffff))
}

pub fn add_sp(sp: u16, e: i8) -> (r: (u16, u8))
    ensures
        r == add_sp_spec(sp, e),
        r.1 & 0x0f == 0,
{
    let u: u16 = if e < 0 { (e as i16 + 256) as u16 } else { e as u16 };
    let res = ((sp as i32 + e as i32 + 0x10000) % 0x10000) as u16;
    (res, flags(false, false, sp % 16 + u % 16 > 15, sp % 256 + u > 255))
}

pub fn daa(a: u8, n: bool, h: bool, c: bool) -> (r: (u8, u8))
    ensures
        r == daa_spec(a, n, h, c),
        r.1 & 0x0f == 0,
{
    if !n {
        let high = c || a > 0x99;
        let a1: u16 = if high { a as u16 + 0x60 } else { a as u16 };
        let a2: u16 = if h || a % 16 > 9 { a1 + 6 } else { a1 };
        let res = (a2 % 256) as u8;
        (res, flags(res == 0, n, false, high))
    } else {
        let a1: i16 = if c { a as i16 - 0x60 } else { a as i16 };
        let a2: i16 = if h { a1 - 6 } else { a1 };
        let res = ((a2 + 512) % 256) as u8;
        (res, flags(res == 0, n, false, c))
    }
}

pub fn shift(kind: Shift, a: u8, c: bool) -> (r: (u8, bool))
    ensures
        r == shift_spec(kind, a, c),
{
    let ci: u16 = if c { 1 } else { 0 };
    let w = a as u16;
    match kind {
        Shift::Rlc => ((((w * 2) % 256) + w / 128) as u8, a >= 128),
        Shift::Rrc => ((w / 2 + (w % 2) * 128) as u8, a % 2 == 1),
        Shift::Rl => ((((w * 2) % 256) + ci) as u8, a >= 128),
        Shift::Rr => ((w / 2 + ci * 128) as u8, a % 2 == 1),
        Shift::Sla => (((w * 2) % 256) as u8, a >= 128),
        Shift::Sra => ((w / 2 + (w / 128) * 128) as u8, a % 2 == 1),
        Shift::Srl => ((w / 2) as u8, a % 2 == 1),
        Shift::Swap => (((w % 16) * 16 + w / 16) as u8, false),
    }
}

pub fn test_bit(v: u8, n: u8) -> (r: bool)
    requires
        n < 8,
    ensures
        r == bit_set(v, n),
{
    (v >> n) & 1 == 1
}

} // verus!
