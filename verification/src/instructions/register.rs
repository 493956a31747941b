//! The register abstraction: the value operations the instruction semantics
//! are written in, implemented for 32 and 64 bit machines.
use vstd::prelude::*;

verus! {

/// Population count of the low `n` bits of `x`.
pub open spec fn spec_popcount(x: u64, n: nat) -> nat
    decreases n,
{
    if n == 0 {
        0
    } else {
        spec_popcount(x, (n - 1) as nat) + (if (x >> ((n - 1) as u64)) & 1 == 1 {
            1nat
        } else {
            0nat
        })
    }
}

/// Carry-less product of `a` and the low `n` bits of `b`, truncated to 64 bits:
/// the exclusive or of `a << i` over each set bit `i` of `b` below `n`.
pub open spec fn spec_clmul64(a: u64, b: u64, n: nat) -> u64
    decreases n,
{
    if n == 0 {
        0
    } else {
        let i: u64 = (n - 1) as u64;
        let prev: u64 = spec_clmul64(a, b, (n - 1) as nat);
        if (b >> i) & 1 != 0 {
            prev ^ (a << i)
        } else {
            prev
        }
    }
}

/// High half of the carry-less product for bit indices `1 <= i < n`: the
/// exclusive or of `a >> (64 - i)` over each set bit `i` of `b`.
pub open spec fn spec_clmulh64(a: u64, b: u64, n: nat) -> u64
    decreases n,
{
    if n <= 1 {
        0
    } else {
        let i: u64 = (n - 1) as u64;
        let prev: u64 = spec_clmulh64(a, b, (n - 1) as nat);
        if (b >> i) & 1 != 0 {
            prev ^ (a >> ((64 - i) as u64))
        } else {
            prev
        }
    }
}

/// Reversed carry-less product for bit indices `i < n`: the exclusive or of
/// `a >> (63 - i)` over each set bit `i` of `b`.
pub open spec fn spec_clmulr64(a: u64, b: u64, n: nat) -> u64
    decreases n,
{
    if n == 0 {
        0
    } else {
        let i: u64 = (n - 1) as u64;
        let prev: u64 = spec_clmulr64(a, b, (n - 1) as nat);
        if (b >> i) & 1 != 0 {
            prev ^ (a >> ((63 - i) as u64))
        } else {
            prev
        }
    }
}

/// Quotient of the division of `a` by `b` rounded toward zero, as the
/// hardware divides signed integers.
pub open spec fn spec_trunc_div(a: int, b: int) -> int {
    let q: int = (vstd::math::abs(a) / vstd::math::abs(b)) as int;
    if (a < 0) != (b < 0) {
        -q
    } else {
        q
    }
}

/// Remainder that goes with `spec_trunc_div`: it takes the sign of `a`.
pub open spec fn spec_trunc_rem(a: int, b: int) -> int {
    a - b * spec_trunc_div(a, b)
}

/// `x` modulo 2^64, the value a 64 bit register holds for the integer `x`.
pub open spec fn wrap64(x: int) -> u64 {
    (x % 0x1_0000_0000_0000_0000int) as u64
}

/// `x` modulo 2^32, the value a 32 bit register holds for the integer `x`.
pub open spec fn wrap32(x: int) -> u32 {
    (x % 0x1_0000_0000int) as u32
}

/// The two's complement value of a 64 bit register.
pub open spec fn signed64(a: u64) -> int {
    if a < 0x8000_0000_0000_0000 {
        a as int
    } else {
        a as int - 0x1_0000_0000_0000_0000int
    }
}

/// The two's complement value of a 32 bit register.
pub open spec fn signed32(a: u32) -> int {
    if a < 0x8000_0000 {
        a as int
    } else {
        a as int - 0x1_0000_0000int
    }
}

/// The value held by an integer register, with the operations that the
/// instruction semantics are written in.
///
/// Each operation is stated by a spec function of the same name with a
/// `spec_` prefix, which each implementation defines; the instruction
/// semantics are proved over those functions, for every implementation.
/// Conditional operations emit `one()` when their condition holds and
/// `zero()` otherwise; `cond` picks its first argument exactly when it is
/// called on `one()`.
/// A shift amount masked to 6 bits is below 64.
pub(crate) proof fn lemma_and_63(x: u64)
    by (bit_vector)
    ensures
        x & 63 < 64,
        (x & 63) & 63 == x & 63,
        (x & 31) & 63 == x & 31,
        x < 64 ==> x & 63 == x,
{
}

/// A shift amount masked to 5 bits is below 32.
pub(crate) proof fn lemma_and_31(x: u32)
    by (bit_vector)
    ensures
        x & 31 < 32,
{
}

pub trait Register: Sized + Copy {
    const BITS: u8;

    const SHIFT_MASK: u8;

    spec fn spec_zero() -> Self;

    spec fn spec_one() -> Self;

    spec fn spec_min_value() -> Self;

    spec fn spec_max_value() -> Self;

    spec fn spec_eq(a: Self, b: Self) -> Self;

    spec fn spec_lt(a: Self, b: Self) -> Self;

    spec fn spec_lt_s(a: Self, b: Self) -> Self;

    spec fn spec_logical_not(a: Self) -> Self;

    spec fn spec_cond(c: Self, t: Self, f: Self) -> Self;

    spec fn spec_overflowing_add(a: Self, b: Self) -> Self;

    spec fn spec_overflowing_sub(a: Self, b: Self) -> Self;

    spec fn spec_overflowing_mul(a: Self, b: Self) -> Self;

    spec fn spec_overflowing_div(a: Self, b: Self) -> Self;

    spec fn spec_overflowing_rem(a: Self, b: Self) -> Self;

    spec fn spec_overflowing_div_signed(a: Self, b: Self) -> Self;

    spec fn spec_overflowing_rem_signed(a: Self, b: Self) -> Self;

    spec fn spec_overflowing_mul_high_signed(a: Self, b: Self) -> Self;

    spec fn spec_overflowing_mul_high_unsigned(a: Self, b: Self) -> Self;

    spec fn spec_overflowing_mul_high_signed_unsigned(a: Self, b: Self) -> Self;

    spec fn spec_clz(a: Self) -> Self;

    spec fn spec_ctz(a: Self) -> Self;

    spec fn spec_cpop(a: Self) -> Self;

    spec fn spec_clmul(a: Self, b: Self) -> Self;

    spec fn spec_clmulh(a: Self, b: Self) -> Self;

    spec fn spec_clmulr(a: Self, b: Self) -> Self;

    spec fn spec_orcb(a: Self) -> Self;

    spec fn spec_rev8(a: Self) -> Self;

    spec fn spec_signed_shl(a: Self, b: Self) -> Self;

    spec fn spec_signed_shr(a: Self, b: Self) -> Self;

    spec fn spec_rol(a: Self, b: Self) -> Self;

    spec fn spec_ror(a: Self, b: Self) -> Self;

    spec fn spec_zero_extend(a: Self, start_bit: Self) -> Self;

    spec fn spec_sign_extend(a: Self, start_bit: Self) -> Self;

    spec fn spec_not(a: Self) -> Self;

    spec fn spec_bitand(a: Self, b: Self) -> Self;

    spec fn spec_bitor(a: Self, b: Self) -> Self;

    spec fn spec_bitxor(a: Self, b: Self) -> Self;

    spec fn spec_shl(a: Self, b: Self) -> Self;

    spec fn spec_shr(a: Self, b: Self) -> Self;

    spec fn spec_to_i8(a: Self) -> i8;

    spec fn spec_to_i16(a: Self) -> i16;

    spec fn spec_to_i32(a: Self) -> i32;

    spec fn spec_to_i64(a: Self) -> i64;

    spec fn spec_to_u8(a: Self) -> u8;

    spec fn spec_to_u16(a: Self) -> u16;

    spec fn spec_to_u32(a: Self) -> u32;

    spec fn spec_to_u64(a: Self) -> u64;

    spec fn spec_from_i8(v: i8) -> Self;

    spec fn spec_from_i16(v: i16) -> Self;

    spec fn spec_from_i32(v: i32) -> Self;

    spec fn spec_from_i64(v: i64) -> Self;

    spec fn spec_from_u8(v: u8) -> Self;

    spec fn spec_from_u16(v: u16) -> Self;

    spec fn spec_from_u32(v: u32) -> Self;

    spec fn spec_from_u64(v: u64) -> Self;

    /// Registers are 32 or 64 bits wide.
    proof fn lemma_bits()
        ensures
            Self::BITS == 32 || Self::BITS == 64,
    ;

    fn zero() -> (r: Self)
        ensures
            r == Self::spec_zero(),
    ;

    fn one() -> (r: Self)
        ensures
            r == Self::spec_one(),
    ;

    fn min_value() -> (r: Self)
        ensures
            r == Self::spec_min_value(),
    ;

    fn max_value() -> (r: Self)
        ensures
            r == Self::spec_max_value(),
    ;

    fn eq(&self, other: &Self) -> (r: Self)
        ensures
            r == Self::spec_eq(*self, *other),
    ;

    fn lt(&self, other: &Self) -> (r: Self)
        ensures
            r == Self::spec_lt(*self, *other),
    ;

    fn lt_s(&self, other: &Self) -> (r: Self)
        ensures
            r == Self::spec_lt_s(*self, *other),
    ;

    fn logical_not(&self) -> (r: Self)
        ensures
            r == Self::spec_logical_not(*self),
    ;

    fn cond(&self, true_value: &Self, false_value: &Self) -> (r: Self)
        ensures
            r == Self::spec_cond(*self, *true_value, *false_value),
    ;

    fn overflowing_add(&self, rhs: &Self) -> (r: Self)
        ensures
            r == Self::spec_overflowing_add(*self, *rhs),
    ;

    fn overflowing_sub(&self, rhs: &Self) -> (r: Self)
        ensures
            r == Self::spec_overflowing_sub(*self, *rhs),
    ;

    fn overflowing_mul(&self, rhs: &Self) -> (r: Self)
        ensures
            r == Self::spec_overflowing_mul(*self, *rhs),
    ;

    fn overflowing_div(&self, rhs: &Self) -> (r: Self)
        ensures
            r == Self::spec_overflowing_div(*self, *rhs),
    ;

    fn overflowing_rem(&self, rhs: &Self) -> (r: Self)
        ensures
            r == Self::spec_overflowing_rem(*self, *rhs),
    ;

    fn overflowing_div_signed(&self, rhs: &Self) -> (r: Self)
        ensures
            r == Self::spec_overflowing_div_signed(*self, *rhs),
    ;

    fn overflowing_rem_signed(&self, rhs: &Self) -> (r: Self)
        ensures
            r == Self::spec_overflowing_rem_signed(*self, *rhs),
    ;

    fn overflowing_mul_high_signed(&self, rhs: &Self) -> (r: Self)
        ensures
            r == Self::spec_overflowing_mul_high_signed(*self, *rhs),
    ;

    fn overflowing_mul_high_unsigned(&self, rhs: &Self) -> (r: Self)
        ensures
            r == Self::spec_overflowing_mul_high_unsigned(*self, *rhs),
    ;

    fn overflowing_mul_high_signed_unsigned(&self, rhs: &Self) -> (r: Self)
        ensures
            r == Self::spec_overflowing_mul_high_signed_unsigned(*self, *rhs),
    ;

    /// The number of 0 bits at the most significant end.
    fn clz(&self) -> (r: Self)
        ensures
            r == Self::spec_clz(*self),
    ;

    /// The number of 0 bits at the least significant end.
    fn ctz(&self) -> (r: Self)
        ensures
            r == Self::spec_ctz(*self),
    ;

    /// The number of 1 bits.
    fn cpop(&self) -> (r: Self)
        ensures
            r == Self::spec_cpop(*self),
    ;

    /// Carry-less multiply (low part).
    fn clmul(&self, rhs: &Self) -> (r: Self)
        ensures
            r == Self::spec_clmul(*self, *rhs),
    ;

    /// Carry-less multiply (high part).
    fn clmulh(&self, rhs: &Self) -> (r: Self)
        ensures
            r == Self::spec_clmulh(*self, *rhs),
    ;

    /// Carry-less multiply (reversed).
    fn clmulr(&self, rhs: &Self) -> (r: Self)
        ensures
            r == Self::spec_clmulr(*self, *rhs),
    ;

    fn orcb(&self) -> (r: Self)
        ensures
            r == Self::spec_orcb(*self),
    ;

    fn rev8(&self) -> (r: Self)
        ensures
            r == Self::spec_rev8(*self),
    ;

    fn signed_shl(&self, rhs: &Self) -> (r: Self)
        ensures
            r == Self::spec_signed_shl(*self, *rhs),
    ;

    fn signed_shr(&self, rhs: &Self) -> (r: Self)
        ensures
            r == Self::spec_signed_shr(*self, *rhs),
    ;

    /// Rotate left.
    fn rol(&self, rhs: &Self) -> (r: Self)
        ensures
            r == Self::spec_rol(*self, *rhs),
    ;

    /// Rotate right.
    fn ror(&self, rhs: &Self) -> (r: Self)
        ensures
            r == Self::spec_ror(*self, *rhs),
    ;

    /// Zero extend from `start_bit` to the highest bit.
    fn zero_extend(&self, start_bit: &Self) -> (r: Self)
        ensures
            r == Self::spec_zero_extend(*self, *start_bit),
    ;

    /// Sign extend from `start_bit` to the highest bit using bit
    /// `start_bit - 1`.
    fn sign_extend(&self, start_bit: &Self) -> (r: Self)
        ensures
            r == Self::spec_sign_extend(*self, *start_bit),
    ;

    fn not(&self) -> (r: Self)
        ensures
            r == Self::spec_not(*self),
    ;

    fn bitand(&self, rhs: &Self) -> (r: Self)
        ensures
            r == Self::spec_bitand(*self, *rhs),
    ;

    fn bitor(&self, rhs: &Self) -> (r: Self)
        ensures
            r == Self::spec_bitor(*self, *rhs),
    ;

    fn bitxor(&self, rhs: &Self) -> (r: Self)
        ensures
            r == Self::spec_bitxor(*self, *rhs),
    ;

    fn shl(&self, rhs: &Self) -> (r: Self)
        ensures
            r == Self::spec_shl(*self, *rhs),
    ;

    fn shr(&self, rhs: &Self) -> (r: Self)
        ensures
            r == Self::spec_shr(*self, *rhs),
    ;

    fn to_i8(&self) -> (r: i8)
        ensures
            r == Self::spec_to_i8(*self),
    ;

    fn to_i16(&self) -> (r: i16)
        ensures
            r == Self::spec_to_i16(*self),
    ;

    fn to_i32(&self) -> (r: i32)
        ensures
            r == Self::spec_to_i32(*self),
    ;

    fn to_i64(&self) -> (r: i64)
        ensures
            r == Self::spec_to_i64(*self),
    ;

    fn to_u8(&self) -> (r: u8)
        ensures
            r == Self::spec_to_u8(*self),
    ;

    fn to_u16(&self) -> (r: u16)
        ensures
            r == Self::spec_to_u16(*self),
    ;

    fn to_u32(&self) -> (r: u32)
        ensures
            r == Self::spec_to_u32(*self),
    ;

    fn to_u64(&self) -> (r: u64)
        ensures
            r == Self::spec_to_u64(*self),
    ;

    fn from_i8(v: i8) -> (r: Self)
        ensures
            r == Self::spec_from_i8(v),
    ;

    fn from_i16(v: i16) -> (r: Self)
        ensures
            r == Self::spec_from_i16(v),
    ;

    fn from_i32(v: i32) -> (r: Self)
        ensures
            r == Self::spec_from_i32(v),
    ;

    fn from_i64(v: i64) -> (r: Self)
        ensures
            r == Self::spec_from_i64(v),
    ;

    fn from_u8(v: u8) -> (r: Self)
        ensures
            r == Self::spec_from_u8(v),
    ;

    fn from_u16(v: u16) -> (r: Self)
        ensures
            r == Self::spec_from_u16(v),
    ;

    fn from_u32(v: u32) -> (r: Self)
        ensures
            r == Self::spec_from_u32(v),
    ;

    fn from_u64(v: u64) -> (r: Self)
        ensures
            r == Self::spec_from_u64(v),
    ;

    fn ne(&self, rhs: &Self) -> (r: Self)
        ensures
            r == Self::spec_logical_not(Self::spec_eq(*self, *rhs)),
    {
        self.eq(rhs).logical_not()
    }

    fn ge(&self, other: &Self) -> (r: Self)
        ensures
            r == Self::spec_logical_not(Self::spec_lt(*self, *other)),
    {
        self.lt(other).logical_not()
    }

    fn ge_s(&self, other: &Self) -> (r: Self)
        ensures
            r == Self::spec_logical_not(Self::spec_lt_s(*self, *other)),
    {
        self.lt_s(other).logical_not()
    }
}

/// `x` modulo 2^64 for the sums and differences of two registers.
proof fn lemma_wrap64_small(x: int)
    requires
        -0x1_0000_0000_0000_0000int < x < 0x2_0000_0000_0000_0000int,
    ensures
        wrap64(x) == (if x < 0 {
            x + 0x1_0000_0000_0000_0000int
        } else if x >= 0x1_0000_0000_0000_0000int {
            x - 0x1_0000_0000_0000_0000int
        } else {
            x
        }),
{
    let d: int = 0x1_0000_0000_0000_0000int;
    if x < 0 {
        vstd::arithmetic::div_mod::lemma_fundamental_div_mod_converse(x, d, -1, x + d);
    } else if x >= d {
        vstd::arithmetic::div_mod::lemma_fundamental_div_mod_converse(x, d, 1, x - d);
    } else {
        vstd::arithmetic::div_mod::lemma_fundamental_div_mod_converse(x, d, 0, x);
    }
}

/// `x` modulo 2^32 for the sums and differences of two registers.
proof fn lemma_wrap32_small(x: int)
    requires
        -0x1_0000_0000int < x < 0x2_0000_0000int,
    ensures
        wrap32(x) == (if x < 0 {
            x + 0x1_0000_0000int
        } else if x >= 0x1_0000_0000int {
            x - 0x1_0000_0000int
        } else {
            x
        }),
{
    let d: int = 0x1_0000_0000int;
    if x < 0 {
        vstd::arithmetic::div_mod::lemma_fundamental_div_mod_converse(x, d, -1, x + d);
    } else if x >= d {
        vstd::arithmetic::div_mod::lemma_fundamental_div_mod_converse(x, d, 1, x - d);
    } else {
        vstd::arithmetic::div_mod::lemma_fundamental_div_mod_converse(x, d, 0, x);
    }
}

/// Floor division by 2^64 of a 128 bit product.
fn floor_div_2_64(p: i128) -> (h: i128)
    requires
        -0x8000_0000_0000_0000_0000_0000_0000_0000int < p,
    ensures
        h == (p as int) / 0x1_0000_0000_0000_0000int,
{
    let d: u128 = 0x1_0000_0000_0000_0000;
    if p >= 0 {
        let q: u128 = (p as u128) / d;
        q as i128
    } else {
        let m: u128 = (-p) as u128;
        let c: u128 = (m + (d - 1)) / d;
        proof {
            let di: int = d as int;
            vstd::arithmetic::div_mod::lemma_fundamental_div_mod(m + di - 1, di);
            let r: int = (m + di - 1) % di;
            vstd::arithmetic::div_mod::lemma_fundamental_div_mod_converse(
                p as int,
                di,
                -(c as int),
                di - 1 - r,
            );
        }
        -(c as i128)
    }
}

/// Floor division by 2^32 of a 64 bit product.
fn floor_div_2_32(p: i64) -> (h: i64)
    requires
        -0x8000_0000_0000_0000int < p,
    ensures
        h == (p as int) / 0x1_0000_0000int,
{
    let d: u64 = 0x1_0000_0000;
    if p >= 0 {
        let q: u64 = (p as u64) / d;
        q as i64
    } else {
        let m: u64 = (-p) as u64;
        let c: u64 = (m + (d - 1)) / d;
        proof {
            let di: int = d as int;
            vstd::arithmetic::div_mod::lemma_fundamental_div_mod(m + di - 1, di);
            let r: int = (m + di - 1) % di;
            vstd::arithmetic::div_mod::lemma_fundamental_div_mod_converse(
                p as int,
                di,
                -(c as int),
                di - 1 - r,
            );
        }
        -(c as i64)
    }
}

pub open spec fn spec_u64_div_signed(a: u64, b: u64) -> u64 {
    if b == 0 {
        0xffff_ffff_ffff_ffff
    } else if a == 0x8000_0000_0000_0000 && b == 0xffff_ffff_ffff_ffff {
        a
    } else {
        wrap64(spec_trunc_div(signed64(a), signed64(b)))
    }
}

pub open spec fn spec_u64_rem_signed(a: u64, b: u64) -> u64 {
    if b == 0 {
        a
    } else if a == 0x8000_0000_0000_0000 && b == 0xffff_ffff_ffff_ffff {
        0
    } else {
        wrap64(spec_trunc_rem(signed64(a), signed64(b)))
    }
}

pub open spec fn spec_u64_orcb(a: u64) -> u64 {
    (if a & 0x00000000000000ff != 0 { 0x00000000000000ffu64 } else { 0 })
        | (if a & 0x000000000000ff00 != 0 { 0x000000000000ff00u64 } else { 0 })
        | (if a & 0x0000000000ff0000 != 0 { 0x0000000000ff0000u64 } else { 0 })
        | (if a & 0x00000000ff000000 != 0 { 0x00000000ff000000u64 } else { 0 })
        | (if a & 0x000000ff00000000 != 0 { 0x000000ff00000000u64 } else { 0 })
        | (if a & 0x0000ff0000000000 != 0 { 0x0000ff0000000000u64 } else { 0 })
        | (if a & 0x00ff000000000000 != 0 { 0x00ff000000000000u64 } else { 0 })
        | (if a & 0xff00000000000000 != 0 { 0xff00000000000000u64 } else { 0 })
}

pub open spec fn spec_u64_rev8(a: u64) -> u64 {
    ((a & 0x00000000000000ff) << 56u64) | ((a & 0x000000000000ff00) << 40u64) | ((a
        & 0x0000000000ff0000) << 24u64) | ((a & 0x00000000ff000000) << 8u64) | ((a
        & 0x000000ff00000000) >> 8u64) | ((a & 0x0000ff0000000000) >> 24u64) | ((a
        & 0x00ff000000000000) >> 40u64) | ((a & 0xff00000000000000) >> 56u64)
}

/// Rotation left by `b` modulo 64.
pub open spec fn spec_u64_rol(a: u64, b: u64) -> u64 {
    let s: u64 = b & 63;
    if s == 0 {
        a
    } else {
        (a << s) | (a >> ((64 - s) as u64))
    }
}

/// Rotation right by `b` modulo 64.
pub open spec fn spec_u64_ror(a: u64, b: u64) -> u64 {
    let s: u64 = b & 63;
    if s == 0 {
        a
    } else {
        (a >> s) | (a << ((64 - s) as u64))
    }
}

pub open spec fn spec_u64_zero_extend(a: u64, start_bit: u64) -> u64 {
    let s: u64 = if start_bit < 64 { start_bit } else { 64 };
    if s == 0 {
        a
    } else {
        (a << ((64 - s) as u64)) >> ((64 - s) as u64)
    }
}

pub open spec fn spec_u64_sign_extend(a: u64, start_bit: u64) -> u64 {
    let s: u64 = if start_bit < 64 { start_bit } else { 64 };
    if s == 0 {
        a
    } else {
        (((a << ((64 - s) as u64)) as i64) >> ((64 - s) as u64)) as u64
    }
}

impl Register for u64 {
    const BITS: u8 = 64;

    /// These registers are 64 bits wide.
    proof fn lemma_bits()
        ensures
            Self::BITS == 64,
    {
    }

    const SHIFT_MASK: u8 = 0x3F;

    open spec fn spec_zero() -> u64 {
        0
    }

    open spec fn spec_one() -> u64 {
        1
    }

    open spec fn spec_min_value() -> u64 {
        0
    }

    open spec fn spec_max_value() -> u64 {
        0xffff_ffff_ffff_ffff
    }

    open spec fn spec_eq(a: u64, b: u64) -> u64 {
        if a == b { 1 } else { 0 }
    }

    open spec fn spec_lt(a: u64, b: u64) -> u64 {
        if a < b { 1 } else { 0 }
    }

    open spec fn spec_lt_s(a: u64, b: u64) -> u64 {
        if (a as i64) < (b as i64) { 1 } else { 0 }
    }

    open spec fn spec_logical_not(a: u64) -> u64 {
        if a != 1 { 1 } else { 0 }
    }

    open spec fn spec_cond(c: u64, t: u64, f: u64) -> u64 {
        if c == 1 { t } else { f }
    }

    open spec fn spec_overflowing_add(a: u64, b: u64) -> u64 {
        wrap64(a + b)
    }

    open spec fn spec_overflowing_sub(a: u64, b: u64) -> u64 {
        wrap64(a - b)
    }

    open spec fn spec_overflowing_mul(a: u64, b: u64) -> u64 {
        wrap64(a * b)
    }

    open spec fn spec_overflowing_div(a: u64, b: u64) -> u64 {
        if b == 0 { 0xffff_ffff_ffff_ffff } else { a / b }
    }

    open spec fn spec_overflowing_rem(a: u64, b: u64) -> u64 {
        if b == 0 { a } else { a % b }
    }

    open spec fn spec_overflowing_div_signed(a: u64, b: u64) -> u64 {
        spec_u64_div_signed(a, b)
    }

    open spec fn spec_overflowing_rem_signed(a: u64, b: u64) -> u64 {
        spec_u64_rem_signed(a, b)
    }

    open spec fn spec_overflowing_mul_high_signed(a: u64, b: u64) -> u64 {
        wrap64((signed64(a) * signed64(b)) / 0x1_0000_0000_0000_0000int)
    }

    open spec fn spec_overflowing_mul_high_unsigned(a: u64, b: u64) -> u64 {
        wrap64((a * b) / 0x1_0000_0000_0000_0000int)
    }

    open spec fn spec_overflowing_mul_high_signed_unsigned(a: u64, b: u64) -> u64 {
        wrap64((signed64(a) * b) / 0x1_0000_0000_0000_0000int)
    }

    open spec fn spec_clz(a: u64) -> u64 {
        vstd::std_specs::bits::u64_leading_zeros(a) as u64
    }

    open spec fn spec_ctz(a: u64) -> u64 {
        vstd::std_specs::bits::u64_trailing_zeros(a) as u64
    }

    open spec fn spec_cpop(a: u64) -> u64 {
        spec_popcount(a, 64) as u64
    }

    open spec fn spec_clmul(a: u64, b: u64) -> u64 {
        spec_clmul64(a, b, 64)
    }

    open spec fn spec_clmulh(a: u64, b: u64) -> u64 {
        spec_clmulh64(a, b, 64)
    }

    open spec fn spec_clmulr(a: u64, b: u64) -> u64 {
        spec_clmulr64(a, b, 64)
    }

    open spec fn spec_orcb(a: u64) -> u64 {
        spec_u64_orcb(a)
    }

    open spec fn spec_rev8(a: u64) -> u64 {
        spec_u64_rev8(a)
    }

    open spec fn spec_signed_shl(a: u64, b: u64) -> u64 {
        ((a as i64) << (b & 63)) as u64
    }

    open spec fn spec_signed_shr(a: u64, b: u64) -> u64 {
        ((a as i64) >> (b & 63)) as u64
    }

    open spec fn spec_rol(a: u64, b: u64) -> u64 {
        spec_u64_rol(a, b)
    }

    open spec fn spec_ror(a: u64, b: u64) -> u64 {
        spec_u64_ror(a, b)
    }

    open spec fn spec_zero_extend(a: u64, start_bit: u64) -> u64 {
        spec_u64_zero_extend(a, start_bit)
    }

    open spec fn spec_sign_extend(a: u64, start_bit: u64) -> u64 {
        spec_u64_sign_extend(a, start_bit)
    }

    open spec fn spec_not(a: u64) -> u64 {
        !a
    }

    open spec fn spec_bitand(a: u64, b: u64) -> u64 {
        a & b
    }

    open spec fn spec_bitor(a: u64, b: u64) -> u64 {
        a | b
    }

    open spec fn spec_bitxor(a: u64, b: u64) -> u64 {
        a ^ b
    }

    open spec fn spec_shl(a: u64, b: u64) -> u64 {
        a << (b & 63)
    }

    open spec fn spec_shr(a: u64, b: u64) -> u64 {
        a >> (b & 63)
    }

    open spec fn spec_to_i8(a: u64) -> i8 {
        a as i8
    }

    open spec fn spec_to_i16(a: u64) -> i16 {
        a as i16
    }

    open spec fn spec_to_i32(a: u64) -> i32 {
        a as i32
    }

    open spec fn spec_to_i64(a: u64) -> i64 {
        a as i64
    }

    open spec fn spec_to_u8(a: u64) -> u8 {
        a as u8
    }

    open spec fn spec_to_u16(a: u64) -> u16 {
        a as u16
    }

    open spec fn spec_to_u32(a: u64) -> u32 {
        a as u32
    }

    open spec fn spec_to_u64(a: u64) -> u64 {
        a
    }

    open spec fn spec_from_i8(v: i8) -> u64 {
        v as u64
    }

    open spec fn spec_from_i16(v: i16) -> u64 {
        v as u64
    }

    open spec fn spec_from_i32(v: i32) -> u64 {
        v as u64
    }

    open spec fn spec_from_i64(v: i64) -> u64 {
        v as u64
    }

    open spec fn spec_from_u8(v: u8) -> u64 {
        v as u64
    }

    open spec fn spec_from_u16(v: u16) -> u64 {
        v as u64
    }

    open spec fn spec_from_u32(v: u32) -> u64 {
        v as u64
    }

    open spec fn spec_from_u64(v: u64) -> u64 {
        v
    }

    fn zero() -> u64 {
        0
    }

    fn one() -> u64 {
        1
    }

    fn min_value() -> u64 {
        u64::MIN
    }

    fn max_value() -> u64 {
        u64::MAX
    }

    fn eq(&self, other: &u64) -> u64 {
        if *self == *other { 1 } else { 0 }
    }

    fn lt(&self, other: &u64) -> u64 {
        if *self < *other { 1 } else { 0 }
    }

    fn lt_s(&self, other: &u64) -> u64 {
        if (*self as i64) < (*other as i64) { 1 } else { 0 }
    }

    fn logical_not(&self) -> u64 {
        if *self != 1 { 1 } else { 0 }
    }

    fn cond(&self, true_value: &u64, false_value: &u64) -> u64 {
        if *self == 1 {
            *true_value
        } else {
            *false_value
        }
    }

    fn overflowing_add(&self, rhs: &u64) -> u64 {
        proof {
            lemma_wrap64_small(*self + *rhs);
        }
        self.wrapping_add(*rhs)
    }

    fn overflowing_sub(&self, rhs: &u64) -> u64 {
        proof {
            lemma_wrap64_small(*self - *rhs);
        }
        self.wrapping_sub(*rhs)
    }

    fn overflowing_mul(&self, rhs: &u64) -> u64 {
        self.wrapping_mul(*rhs)
    }

    fn overflowing_div(&self, rhs: &u64) -> u64 {
        if *rhs == 0 {
            u64::MAX
        } else {
            *self / *rhs
        }
    }

    fn overflowing_rem(&self, rhs: &u64) -> u64 {
        if *rhs == 0 {
            *self
        } else {
            *self % *rhs
        }
    }

    fn overflowing_div_signed(&self, rhs: &u64) -> u64 {
        let a: u64 = *self;
        let b: u64 = *rhs;
        if b == 0 {
            // Division by zero gives -1.
            return u64::MAX;
        }
        if a == 0x8000_0000_0000_0000 && b == u64::MAX {
            // Overflow gives -2**(L-1).
            return a;
        }
        let an: bool = a >= 0x8000_0000_0000_0000;
        let bn: bool = b >= 0x8000_0000_0000_0000;
        let am: u64 = if an { 0u64.wrapping_sub(a) } else { a };
        let bm: u64 = if bn { 0u64.wrapping_sub(b) } else { b };
        let q: u64 = am / bm;
        proof {
            assert(am as int == vstd::math::abs(signed64(a)));
            assert(bm as int == vstd::math::abs(signed64(b)));
            if an != bn {
                lemma_wrap64_small(-(q as int));
            } else {
                lemma_wrap64_small(q as int);
            }
        }
        if an != bn {
            0u64.wrapping_sub(q)
        } else {
            q
        }
    }

    fn overflowing_rem_signed(&self, rhs: &u64) -> u64 {
        let a: u64 = *self;
        let b: u64 = *rhs;
        if b == 0 {
            return a;
        }
        if a == 0x8000_0000_0000_0000 && b == u64::MAX {
            return 0;
        }
        let an: bool = a >= 0x8000_0000_0000_0000;
        let bn: bool = b >= 0x8000_0000_0000_0000;
        let am: u64 = if an { 0u64.wrapping_sub(a) } else { a };
        let bm: u64 = if bn { 0u64.wrapping_sub(b) } else { b };
        let r: u64 = am % bm;
        proof {
            let sa: int = signed64(a);
            let sb: int = signed64(b);
            assert(am as int == vstd::math::abs(sa));
            assert(bm as int == vstd::math::abs(sb));
            let q: int = (am / bm) as int;
            vstd::arithmetic::div_mod::lemma_fundamental_div_mod(am as int, bm as int);
            assert(am == bm * q + r);
            let t: int = spec_trunc_div(sa, sb);
            if an {
                assert(sb * t == -(bm * q)) by (nonlinear_arith)
                    requires
                        (bn ==> sb == -(bm as int) && t == q),
                        (!bn ==> sb == bm && t == -q),
                ;
                assert(spec_trunc_rem(sa, sb) == -(r as int));
                lemma_wrap64_small(-(r as int));
            } else {
                assert(sb * t == bm * q) by (nonlinear_arith)
                    requires
                        (bn ==> sb == -(bm as int) && t == -q),
                        (!bn ==> sb == bm && t == q),
                ;
                assert(spec_trunc_rem(sa, sb) == r as int);
                lemma_wrap64_small(r as int);
            }
        }
        if an {
            0u64.wrapping_sub(r)
        } else {
            r
        }
    }

    fn overflowing_mul_high_signed(&self, rhs: &u64) -> u64 {
        let sa: i128 = if *self >= 0x8000_0000_0000_0000 {
            *self as i128 - 0x1_0000_0000_0000_0000
        } else {
            *self as i128
        };
        let sb: i128 = if *rhs >= 0x8000_0000_0000_0000 {
            *rhs as i128 - 0x1_0000_0000_0000_0000
        } else {
            *rhs as i128
        };
        assert(-0x4000_0000_0000_0000_0000_0000_0000_0000int <= sa * sb <= 0x4000_0000_0000_0000_0000_0000_0000_0000int)
            by (nonlinear_arith)
            requires
                -0x8000_0000_0000_0000int <= sa <= 0x8000_0000_0000_0000int,
                -0x8000_0000_0000_0000int <= sb <= 0x8000_0000_0000_0000int,
        ;
        let p: i128 = sa * sb;
        let h: i128 = floor_div_2_64(p);
        proof {
            assert(-0x4000_0000_0000_0000int <= h <= 0x4000_0000_0000_0000int) by {
                vstd::arithmetic::div_mod::lemma_div_is_ordered(
                    -0x4000_0000_0000_0000_0000_0000_0000_0000int,
                    p as int,
                    0x1_0000_0000_0000_0000int,
                );
                vstd::arithmetic::div_mod::lemma_div_is_ordered(
                    p as int,
                    0x4000_0000_0000_0000_0000_0000_0000_0000int,
                    0x1_0000_0000_0000_0000int,
                );
            }
            lemma_wrap64_small(h as int);
        }
        if h < 0 {
            (h + 0x1_0000_0000_0000_0000) as u64
        } else {
            h as u64
        }
    }

    fn overflowing_mul_high_unsigned(&self, rhs: &u64) -> u64 {
        assert(*self * *rhs <= 0xffff_ffff_ffff_ffff * 0xffff_ffff_ffff_ffff) by (nonlinear_arith);
        let p: u128 = (*self as u128) * (*rhs as u128);
        let h: u128 = p / 0x1_0000_0000_0000_0000;
        proof {
            vstd::arithmetic::div_mod::lemma_div_is_ordered(
                p as int,
                0xffff_ffff_ffff_ffffint * 0xffff_ffff_ffff_ffffint,
                0x1_0000_0000_0000_0000int,
            );
            lemma_wrap64_small(h as int);
        }
        h as u64
    }

    fn overflowing_mul_high_signed_unsigned(&self, rhs: &u64) -> u64 {
        let sa: i128 = if *self >= 0x8000_0000_0000_0000 {
            *self as i128 - 0x1_0000_0000_0000_0000
        } else {
            *self as i128
        };
        let b: i128 = *rhs as i128;
        assert(-0x8000_0000_0000_0000 * 0xffff_ffff_ffff_ffff <= sa * b <= 0x7fff_ffff_ffff_ffff
            * 0xffff_ffff_ffff_ffff) by (nonlinear_arith)
            requires
                -0x8000_0000_0000_0000int <= sa <= 0x7fff_ffff_ffff_ffffint,
                0 <= b <= 0xffff_ffff_ffff_ffffint,
        ;
        let p: i128 = sa * b;
        let h: i128 = floor_div_2_64(p);
        proof {
            assert(-0x8000_0000_0000_0000int <= h < 0x8000_0000_0000_0000int) by {
                vstd::arithmetic::div_mod::lemma_div_is_ordered(
                    -0x8000_0000_0000_0000 * 0xffff_ffff_ffff_ffff,
                    p as int,
                    0x1_0000_0000_0000_0000int,
                );
                vstd::arithmetic::div_mod::lemma_div_is_ordered(
                    p as int,
                    0x7fff_ffff_ffff_ffffint * 0xffff_ffff_ffff_ffffint,
                    0x1_0000_0000_0000_0000int,
                );
            }
            lemma_wrap64_small(h as int);
        }
        if h < 0 {
            (h + 0x1_0000_0000_0000_0000) as u64
        } else {
            h as u64
        }
    }

    fn clz(&self) -> u64 {
        self.leading_zeros() as u64
    }

    fn ctz(&self) -> u64 {
        self.trailing_zeros() as u64
    }

    fn cpop(&self) -> u64 {
        let mut n: u64 = 0;
        let mut i: u64 = 0;
        while i < 64
            invariant
                i <= 64,
                n == spec_popcount(*self, i as nat),
                n <= i,
            decreases 64 - i,
        {
            if (*self >> i) & 1 == 1 {
                n = n + 1;
            }
            i = i + 1;
        }
        n
    }

    fn clmul(&self, rhs: &u64) -> u64 {
        let mut x: u64 = 0;
        let mut i: u64 = 0;
        while i < 64
            invariant
                i <= 64,
                x == spec_clmul64(*self, *rhs, i as nat),
            decreases 64 - i,
        {
            if ((*rhs >> i) & 1) != 0 {
                x = x ^ (*self << i);
            }
            i = i + 1;
        }
        x
    }

    fn clmulh(&self, rhs: &u64) -> u64 {
        let mut x: u64 = 0;
        let mut i: u64 = 1;
        while i < 64
            invariant
                1 <= i <= 64,
                x == spec_clmulh64(*self, *rhs, i as nat),
            decreases 64 - i,
        {
            if ((*rhs >> i) & 1) != 0 {
                x = x ^ (*self >> (64 - i));
            }
            i = i + 1;
        }
        x
    }

    fn clmulr(&self, rhs: &u64) -> u64 {
        let mut x: u64 = 0;
        let mut i: u64 = 0;
        while i < 64
            invariant
                i <= 64,
                x == spec_clmulr64(*self, *rhs, i as nat),
            decreases 64 - i,
        {
            if ((*rhs >> i) & 1) != 0 {
                x = x ^ (*self >> (63 - i));
            }
            i = i + 1;
        }
        x
    }

    fn orcb(&self) -> u64 {
        let b0: u64 = if *self & 0x00000000000000ff != 0 { 0x00000000000000ff } else { 0 };
        let b1: u64 = if *self & 0x000000000000ff00 != 0 { 0x000000000000ff00 } else { 0 };
        let b2: u64 = if *self & 0x0000000000ff0000 != 0 { 0x0000000000ff0000 } else { 0 };
        let b3: u64 = if *self & 0x00000000ff000000 != 0 { 0x00000000ff000000 } else { 0 };
        let b4: u64 = if *self & 0x000000ff00000000 != 0 { 0x000000ff00000000 } else { 0 };
        let b5: u64 = if *self & 0x0000ff0000000000 != 0 { 0x0000ff0000000000 } else { 0 };
        let b6: u64 = if *self & 0x00ff000000000000 != 0 { 0x00ff000000000000 } else { 0 };
        let b7: u64 = if *self & 0xff00000000000000 != 0 { 0xff00000000000000 } else { 0 };
        b0 | b1 | b2 | b3 | b4 | b5 | b6 | b7
    }

    fn rev8(&self) -> u64 {
        let mut r: u64 = 0;
        let a: u64 = *self & 0x00000000000000ff;
        r = r | (a << 56);
        let a: u64 = *self & 0x000000000000ff00;
        r = r | (a << 40);
        let a: u64 = *self & 0x0000000000ff0000;
        r = r | (a << 24);
        let a: u64 = *self & 0x00000000ff000000;
        r = r | (a << 8);
        let a: u64 = *self & 0x000000ff00000000;
        r = r | (a >> 8);
        let a: u64 = *self & 0x0000ff0000000000;
        r = r | (a >> 24);
        let a: u64 = *self & 0x00ff000000000000;
        r = r | (a >> 40);
        let a: u64 = *self & 0xff00000000000000;
        r = r | (a >> 56);
        assert(r == spec_u64_rev8(*self)) by (bit_vector)
            requires
                r == 0 | ((*self & 0x00000000000000ff) << 56u64) | ((*self & 0x000000000000ff00) << 40u64)
                    | ((*self & 0x0000000000ff0000) << 24u64) | ((*self & 0x00000000ff000000) << 8u64)
                    | ((*self & 0x000000ff00000000) >> 8u64) | ((*self & 0x0000ff0000000000) >> 24u64)
                    | ((*self & 0x00ff000000000000) >> 40u64) | ((*self & 0xff00000000000000) >> 56u64),
        ;
        r
    }

    fn signed_shl(&self, rhs: &u64) -> u64 {
        let s: u64 = *rhs & 63;
        proof {
            lemma_and_63(*rhs);
        }
        ((*self as i64) << s) as u64
    }

    fn signed_shr(&self, rhs: &u64) -> u64 {
        let s: u64 = *rhs & 63;
        proof {
            lemma_and_63(*rhs);
        }
        ((*self as i64) >> s) as u64
    }

    fn rol(&self, rhs: &u64) -> u64 {
        let s: u64 = *rhs & 63;
        proof {
            lemma_and_63(*rhs);
        }
        if s == 0 {
            *self
        } else {
            (*self << s) | (*self >> (64 - s))
        }
    }

    fn ror(&self, rhs: &u64) -> u64 {
        let s: u64 = *rhs & 63;
        proof {
            lemma_and_63(*rhs);
        }
        if s == 0 {
            *self
        } else {
            (*self >> s) | (*self << (64 - s))
        }
    }

    fn zero_extend(&self, start_bit: &u64) -> u64 {
        let s: u64 = if *start_bit < 64 { *start_bit } else { 64 };
        if s == 0 {
            *self
        } else {
            (*self << (64 - s)) >> (64 - s)
        }
    }

    fn sign_extend(&self, start_bit: &u64) -> u64 {
        let s: u64 = if *start_bit < 64 { *start_bit } else { 64 };
        if s == 0 {
            *self
        } else {
            (((*self << (64 - s)) as i64) >> (64 - s)) as u64
        }
    }

    fn not(&self) -> u64 {
        !*self
    }

    fn bitand(&self, rhs: &u64) -> u64 {
        *self & *rhs
    }

    fn bitor(&self, rhs: &u64) -> u64 {
        *self | *rhs
    }

    fn bitxor(&self, rhs: &u64) -> u64 {
        *self ^ *rhs
    }

    fn shl(&self, rhs: &u64) -> u64 {
        proof {
            lemma_and_63(*rhs);
        }
        *self << (*rhs & 63)
    }

    fn shr(&self, rhs: &u64) -> u64 {
        proof {
            lemma_and_63(*rhs);
        }
        *self >> (*rhs & 63)
    }

    fn to_i8(&self) -> i8 {
        *self as i8
    }

    fn to_i16(&self) -> i16 {
        *self as i16
    }

    fn to_i32(&self) -> i32 {
        *self as i32
    }

    fn to_i64(&self) -> i64 {
        *self as i64
    }

    fn to_u8(&self) -> u8 {
        *self as u8
    }

    fn to_u16(&self) -> u16 {
        *self as u16
    }

    fn to_u32(&self) -> u32 {
        *self as u32
    }

    fn to_u64(&self) -> u64 {
        *self
    }

    fn from_i8(v: i8) -> u64 {
        v as u64
    }

    fn from_i16(v: i16) -> u64 {
        v as u64
    }

    fn from_i32(v: i32) -> u64 {
        v as u64
    }

    fn from_i64(v: i64) -> u64 {
        v as u64
    }

    fn from_u8(v: u8) -> u64 {
        v as u64
    }

    fn from_u16(v: u16) -> u64 {
        v as u64
    }

    fn from_u32(v: u32) -> u64 {
        v as u64
    }

    fn from_u64(v: u64) -> u64 {
        v
    }
}

/// Carry-less product of 32 bit values, as `spec_clmul64`.
pub open spec fn spec_clmul32(a: u32, b: u32, n: nat) -> u32
    decreases n,
{
    if n == 0 {
        0
    } else {
        let i: u32 = (n - 1) as u32;
        let prev: u32 = spec_clmul32(a, b, (n - 1) as nat);
        if (b >> i) & 1 != 0 {
            prev ^ (a << i)
        } else {
            prev
        }
    }
}

/// High half of the carry-less product of 32 bit values, as `spec_clmulh64`.
pub open spec fn spec_clmulh32(a: u32, b: u32, n: nat) -> u32
    decreases n,
{
    if n <= 1 {
        0
    } else {
        let i: u32 = (n - 1) as u32;
        let prev: u32 = spec_clmulh32(a, b, (n - 1) as nat);
        if (b >> i) & 1 != 0 {
            prev ^ (a >> ((32 - i) as u32))
        } else {
            prev
        }
    }
}

/// Reversed carry-less product of 32 bit values, as `spec_clmulr64`.
pub open spec fn spec_clmulr32(a: u32, b: u32, n: nat) -> u32
    decreases n,
{
    if n == 0 {
        0
    } else {
        let i: u32 = (n - 1) as u32;
        let prev: u32 = spec_clmulr32(a, b, (n - 1) as nat);
        if (b >> i) & 1 != 0 {
            prev ^ (a >> ((31 - i) as u32))
        } else {
            prev
        }
    }
}

pub open spec fn spec_u32_div_signed(a: u32, b: u32) -> u32 {
    if b == 0 {
        0xffff_ffff
    } else if a == 0x8000_0000 && b == 0xffff_ffff {
        a
    } else {
        wrap32(spec_trunc_div(signed32(a), signed32(b)))
    }
}

pub open spec fn spec_u32_rem_signed(a: u32, b: u32) -> u32 {
    if b == 0 {
        a
    } else if a == 0x8000_0000 && b == 0xffff_ffff {
        0
    } else {
        wrap32(spec_trunc_rem(signed32(a), signed32(b)))
    }
}

pub open spec fn spec_u32_orcb(a: u32) -> u32 {
    (if a & 0x000000ff != 0 { 0x000000ffu32 } else { 0 })
        | (if a & 0x0000ff00 != 0 { 0x0000ff00u32 } else { 0 })
        | (if a & 0x00ff0000 != 0 { 0x00ff0000u32 } else { 0 })
        | (if a & 0xff000000 != 0 { 0xff000000u32 } else { 0 })
}

pub open spec fn spec_u32_rev8(a: u32) -> u32 {
    ((a & 0x000000ff) << 24u32) | ((a & 0x0000ff00) << 8u32) | ((a & 0x00ff0000) >> 8u32) | ((a
        & 0xff000000) >> 24u32)
}

/// Rotation left by `b` modulo 32.
pub open spec fn spec_u32_rol(a: u32, b: u32) -> u32 {
    let s: u32 = b & 31;
    if s == 0 {
        a
    } else {
        (a << s) | (a >> ((32 - s) as u32))
    }
}

/// Rotation right by `b` modulo 32.
pub open spec fn spec_u32_ror(a: u32, b: u32) -> u32 {
    let s: u32 = b & 31;
    if s == 0 {
        a
    } else {
        (a >> s) | (a << ((32 - s) as u32))
    }
}

pub open spec fn spec_u32_zero_extend(a: u32, start_bit: u32) -> u32 {
    let s: u32 = if start_bit < 32 { start_bit } else { 32 };
    if s == 0 {
        a
    } else {
        (a << ((32 - s) as u32)) >> ((32 - s) as u32)
    }
}

pub open spec fn spec_u32_sign_extend(a: u32, start_bit: u32) -> u32 {
    let s: u32 = if start_bit < 32 { start_bit } else { 32 };
    if s == 0 {
        a
    } else {
        (((a << ((32 - s) as u32)) as i32) >> ((32 - s) as u32)) as u32
    }
}

impl Register for u32 {
    const BITS: u8 = 32;

    /// These registers are 32 bits wide.
    proof fn lemma_bits()
        ensures
            Self::BITS == 32,
    {
    }

    const SHIFT_MASK: u8 = 0x1F;

    open spec fn spec_zero() -> u32 {
        0
    }

    open spec fn spec_one() -> u32 {
        1
    }

    open spec fn spec_min_value() -> u32 {
        0
    }

    open spec fn spec_max_value() -> u32 {
        0xffff_ffff
    }

    open spec fn spec_eq(a: u32, b: u32) -> u32 {
        if a == b { 1 } else { 0 }
    }

    open spec fn spec_lt(a: u32, b: u32) -> u32 {
        if a < b { 1 } else { 0 }
    }

    open spec fn spec_lt_s(a: u32, b: u32) -> u32 {
        if (a as i32) < (b as i32) { 1 } else { 0 }
    }

    open spec fn spec_logical_not(a: u32) -> u32 {
        if a != 1 { 1 } else { 0 }
    }

    open spec fn spec_cond(c: u32, t: u32, f: u32) -> u32 {
        if c == 1 { t } else { f }
    }

    open spec fn spec_overflowing_add(a: u32, b: u32) -> u32 {
        wrap32(a + b)
    }

    open spec fn spec_overflowing_sub(a: u32, b: u32) -> u32 {
        wrap32(a - b)
    }

    open spec fn spec_overflowing_mul(a: u32, b: u32) -> u32 {
        wrap32(a * b)
    }

    open spec fn spec_overflowing_div(a: u32, b: u32) -> u32 {
        if b == 0 { 0xffff_ffff } else { a / b }
    }

    open spec fn spec_overflowing_rem(a: u32, b: u32) -> u32 {
        if b == 0 { a } else { a % b }
    }

    open spec fn spec_overflowing_div_signed(a: u32, b: u32) -> u32 {
        spec_u32_div_signed(a, b)
    }

    open spec fn spec_overflowing_rem_signed(a: u32, b: u32) -> u32 {
        spec_u32_rem_signed(a, b)
    }

    open spec fn spec_overflowing_mul_high_signed(a: u32, b: u32) -> u32 {
        wrap32((signed32(a) * signed32(b)) / 0x1_0000_0000int)
    }

    open spec fn spec_overflowing_mul_high_unsigned(a: u32, b: u32) -> u32 {
        wrap32((a * b) / 0x1_0000_0000int)
    }

    open spec fn spec_overflowing_mul_high_signed_unsigned(a: u32, b: u32) -> u32 {
        wrap32((signed32(a) * b) / 0x1_0000_0000int)
    }

    open spec fn spec_clz(a: u32) -> u32 {
        vstd::std_specs::bits::u32_leading_zeros(a)
    }

    open spec fn spec_ctz(a: u32) -> u32 {
        vstd::std_specs::bits::u32_trailing_zeros(a)
    }

    open spec fn spec_cpop(a: u32) -> u32 {
        spec_popcount(a as u64, 32) as u32
    }

    open spec fn spec_clmul(a: u32, b: u32) -> u32 {
        spec_clmul32(a, b, 32)
    }

    open spec fn spec_clmulh(a: u32, b: u32) -> u32 {
        spec_clmulh32(a, b, 32)
    }

    open spec fn spec_clmulr(a: u32, b: u32) -> u32 {
        spec_clmulr32(a, b, 32)
    }

    open spec fn spec_orcb(a: u32) -> u32 {
        spec_u32_orcb(a)
    }

    open spec fn spec_rev8(a: u32) -> u32 {
        spec_u32_rev8(a)
    }

    open spec fn spec_signed_shl(a: u32, b: u32) -> u32 {
        ((a as i32) << (b & 31)) as u32
    }

    open spec fn spec_signed_shr(a: u32, b: u32) -> u32 {
        ((a as i32) >> (b & 31)) as u32
    }

    open spec fn spec_rol(a: u32, b: u32) -> u32 {
        spec_u32_rol(a, b)
    }

    open spec fn spec_ror(a: u32, b: u32) -> u32 {
        spec_u32_ror(a, b)
    }

    open spec fn spec_zero_extend(a: u32, start_bit: u32) -> u32 {
        spec_u32_zero_extend(a, start_bit)
    }

    open spec fn spec_sign_extend(a: u32, start_bit: u32) -> u32 {
        spec_u32_sign_extend(a, start_bit)
    }

    open spec fn spec_not(a: u32) -> u32 {
        !a
    }

    open spec fn spec_bitand(a: u32, b: u32) -> u32 {
        a & b
    }

    open spec fn spec_bitor(a: u32, b: u32) -> u32 {
        a | b
    }

    open spec fn spec_bitxor(a: u32, b: u32) -> u32 {
        a ^ b
    }

    open spec fn spec_shl(a: u32, b: u32) -> u32 {
        a << (b & 31)
    }

    open spec fn spec_shr(a: u32, b: u32) -> u32 {
        a >> (b & 31)
    }

    open spec fn spec_to_i8(a: u32) -> i8 {
        a as i8
    }

    open spec fn spec_to_i16(a: u32) -> i16 {
        a as i16
    }

    open spec fn spec_to_i32(a: u32) -> i32 {
        a as i32
    }

    open spec fn spec_to_i64(a: u32) -> i64 {
        (a as i32) as i64
    }

    open spec fn spec_to_u8(a: u32) -> u8 {
        a as u8
    }

    open spec fn spec_to_u16(a: u32) -> u16 {
        a as u16
    }

    open spec fn spec_to_u32(a: u32) -> u32 {
        a
    }

    open spec fn spec_to_u64(a: u32) -> u64 {
        a as u64
    }

    open spec fn spec_from_i8(v: i8) -> u32 {
        v as u32
    }

    open spec fn spec_from_i16(v: i16) -> u32 {
        v as u32
    }

    open spec fn spec_from_i32(v: i32) -> u32 {
        v as u32
    }

    open spec fn spec_from_i64(v: i64) -> u32 {
        v as u32
    }

    open spec fn spec_from_u8(v: u8) -> u32 {
        v as u32
    }

    open spec fn spec_from_u16(v: u16) -> u32 {
        v as u32
    }

    open spec fn spec_from_u32(v: u32) -> u32 {
        v
    }

    open spec fn spec_from_u64(v: u64) -> u32 {
        v as u32
    }

    fn zero() -> u32 {
        0
    }

    fn one() -> u32 {
        1
    }

    fn min_value() -> u32 {
        u32::MIN
    }

    fn max_value() -> u32 {
        u32::MAX
    }

    fn eq(&self, other: &u32) -> u32 {
        if *self == *other { 1 } else { 0 }
    }

    fn lt(&self, other: &u32) -> u32 {
        if *self < *other { 1 } else { 0 }
    }

    fn lt_s(&self, other: &u32) -> u32 {
        if (*self as i32) < (*other as i32) { 1 } else { 0 }
    }

    fn logical_not(&self) -> u32 {
        if *self != 1 { 1 } else { 0 }
    }

    fn cond(&self, true_value: &u32, false_value: &u32) -> u32 {
        if *self == 1 {
            *true_value
        } else {
            *false_value
        }
    }

    fn overflowing_add(&self, rhs: &u32) -> u32 {
        proof {
            lemma_wrap32_small(*self + *rhs);
        }
        self.wrapping_add(*rhs)
    }

    fn overflowing_sub(&self, rhs: &u32) -> u32 {
        proof {
            lemma_wrap32_small(*self - *rhs);
        }
        self.wrapping_sub(*rhs)
    }

    fn overflowing_mul(&self, rhs: &u32) -> u32 {
        self.wrapping_mul(*rhs)
    }

    fn overflowing_div(&self, rhs: &u32) -> u32 {
        if *rhs == 0 {
            u32::MAX
        } else {
            *self / *rhs
        }
    }

    fn overflowing_rem(&self, rhs: &u32) -> u32 {
        if *rhs == 0 {
            *self
        } else {
            *self % *rhs
        }
    }

    fn overflowing_div_signed(&self, rhs: &u32) -> u32 {
        let a: u32 = *self;
        let b: u32 = *rhs;
        if b == 0 {
            // Division by zero gives -1.
            return u32::MAX;
        }
        if a == 0x8000_0000 && b == u32::MAX {
            // Overflow gives -2**(L-1).
            return a;
        }
        let an: bool = a >= 0x8000_0000;
        let bn: bool = b >= 0x8000_0000;
        let am: u32 = if an { 0u32.wrapping_sub(a) } else { a };
        let bm: u32 = if bn { 0u32.wrapping_sub(b) } else { b };
        let q: u32 = am / bm;
        proof {
            assert(am as int == vstd::math::abs(signed32(a)));
            assert(bm as int == vstd::math::abs(signed32(b)));
            if an != bn {
                lemma_wrap32_small(-(q as int));
            } else {
                lemma_wrap32_small(q as int);
            }
        }
        if an != bn {
            0u32.wrapping_sub(q)
        } else {
            q
        }
    }

    fn overflowing_rem_signed(&self, rhs: &u32) -> u32 {
        let a: u32 = *self;
        let b: u32 = *rhs;
        if b == 0 {
            return a;
        }
        if a == 0x8000_0000 && b == u32::MAX {
            return 0;
        }
        let an: bool = a >= 0x8000_0000;
        let bn: bool = b >= 0x8000_0000;
        let am: u32 = if an { 0u32.wrapping_sub(a) } else { a };
        let bm: u32 = if bn { 0u32.wrapping_sub(b) } else { b };
        let r: u32 = am % bm;
        proof {
            let sa: int = signed32(a);
            let sb: int = signed32(b);
            assert(am as int == vstd::math::abs(sa));
            assert(bm as int == vstd::math::abs(sb));
            let q: int = (am / bm) as int;
            vstd::arithmetic::div_mod::lemma_fundamental_div_mod(am as int, bm as int);
            assert(am == bm * q + r);
            let t: int = spec_trunc_div(sa, sb);
            if an {
                assert(sb * t == -(bm * q)) by (nonlinear_arith)
                    requires
                        (bn ==> sb == -(bm as int) && t == q),
                        (!bn ==> sb == bm && t == -q),
                ;
                assert(spec_trunc_rem(sa, sb) == -(r as int));
                lemma_wrap32_small(-(r as int));
            } else {
                assert(sb * t == bm * q) by (nonlinear_arith)
                    requires
                        (bn ==> sb == -(bm as int) && t == -q),
                        (!bn ==> sb == bm && t == q),
                ;
                assert(spec_trunc_rem(sa, sb) == r as int);
                lemma_wrap32_small(r as int);
            }
        }
        if an {
            0u32.wrapping_sub(r)
        } else {
            r
        }
    }

    fn overflowing_mul_high_signed(&self, rhs: &u32) -> u32 {
        let sa: i64 = if *self >= 0x8000_0000 {
            *self as i64 - 0x1_0000_0000
        } else {
            *self as i64
        };
        let sb: i64 = if *rhs >= 0x8000_0000 {
            *rhs as i64 - 0x1_0000_0000
        } else {
            *rhs as i64
        };
        assert(-0x4000_0000_0000_0000int <= sa * sb <= 0x4000_0000_0000_0000int) by (nonlinear_arith)
            requires
                -0x8000_0000int <= sa <= 0x8000_0000int,
                -0x8000_0000int <= sb <= 0x8000_0000int,
        ;
        let p: i64 = sa * sb;
        let h: i64 = floor_div_2_32(p);
        proof {
            assert(-0x4000_0000int <= h <= 0x4000_0000int) by {
                vstd::arithmetic::div_mod::lemma_div_is_ordered(
                    -0x4000_0000_0000_0000int,
                    p as int,
                    0x1_0000_0000int,
                );
                vstd::arithmetic::div_mod::lemma_div_is_ordered(
                    p as int,
                    0x4000_0000_0000_0000int,
                    0x1_0000_0000int,
                );
            }
            lemma_wrap32_small(h as int);
        }
        if h < 0 {
            (h + 0x1_0000_0000) as u32
        } else {
            h as u32
        }
    }

    fn overflowing_mul_high_unsigned(&self, rhs: &u32) -> u32 {
        assert(*self * *rhs <= 0xffff_ffff * 0xffff_ffff) by (nonlinear_arith);
        let p: u64 = (*self as u64) * (*rhs as u64);
        let h: u64 = p / 0x1_0000_0000;
        proof {
            vstd::arithmetic::div_mod::lemma_div_is_ordered(
                p as int,
                0xffff_ffffint * 0xffff_ffffint,
                0x1_0000_0000int,
            );
            lemma_wrap32_small(h as int);
        }
        h as u32
    }

    fn overflowing_mul_high_signed_unsigned(&self, rhs: &u32) -> u32 {
        let sa: i64 = if *self >= 0x8000_0000 {
            *self as i64 - 0x1_0000_0000
        } else {
            *self as i64
        };
        let b: i64 = *rhs as i64;
        assert(-0x8000_0000 * 0xffff_ffff <= sa * b <= 0x7fff_ffff * 0xffff_ffff) by (nonlinear_arith)
            requires
                -0x8000_0000int <= sa <= 0x7fff_ffffint,
                0 <= b <= 0xffff_ffffint,
        ;
        let p: i64 = sa * b;
        let h: i64 = floor_div_2_32(p);
        proof {
            assert(-0x8000_0000int <= h < 0x8000_0000int) by {
                vstd::arithmetic::div_mod::lemma_div_is_ordered(
                    -0x8000_0000int * 0xffff_ffffint,
                    p as int,
                    0x1_0000_0000int,
                );
                vstd::arithmetic::div_mod::lemma_div_is_ordered(
                    p as int,
                    0x7fff_ffffint * 0xffff_ffffint,
                    0x1_0000_0000int,
                );
            }
            lemma_wrap32_small(h as int);
        }
        if h < 0 {
            (h + 0x1_0000_0000) as u32
        } else {
            h as u32
        }
    }

    fn clz(&self) -> u32 {
        self.leading_zeros()
    }

    fn ctz(&self) -> u32 {
        self.trailing_zeros()
    }

    fn cpop(&self) -> u32 {
        let a: u64 = *self as u64;
        let mut n: u32 = 0;
        let mut i: u64 = 0;
        while i < 32
            invariant
                i <= 32,
                a == *self as u64,
                n == spec_popcount(a, i as nat),
                n <= i,
            decreases 32 - i,
        {
            if (a >> i) & 1 == 1 {
                n = n + 1;
            }
            i = i + 1;
        }
        n
    }

    fn clmul(&self, rhs: &u32) -> u32 {
        let mut x: u32 = 0;
        let mut i: u32 = 0;
        while i < 32
            invariant
                i <= 32,
                x == spec_clmul32(*self, *rhs, i as nat),
            decreases 32 - i,
        {
            if ((*rhs >> i) & 1) != 0 {
                x = x ^ (*self << i);
            }
            i = i + 1;
        }
        x
    }

    fn clmulh(&self, rhs: &u32) -> u32 {
        let mut x: u32 = 0;
        let mut i: u32 = 1;
        while i < 32
            invariant
                1 <= i <= 32,
                x == spec_clmulh32(*self, *rhs, i as nat),
            decreases 32 - i,
        {
            if ((*rhs >> i) & 1) != 0 {
                x = x ^ (*self >> (32 - i));
            }
            i = i + 1;
        }
        x
    }

    fn clmulr(&self, rhs: &u32) -> u32 {
        let mut x: u32 = 0;
        let mut i: u32 = 0;
        while i < 32
            invariant
                i <= 32,
                x == spec_clmulr32(*self, *rhs, i as nat),
            decreases 32 - i,
        {
            if ((*rhs >> i) & 1) != 0 {
                x = x ^ (*self >> (31 - i));
            }
            i = i + 1;
        }
        x
    }

    fn orcb(&self) -> u32 {
        let b0: u32 = if *self & 0x000000ff != 0 { 0x000000ff } else { 0 };
        let b1: u32 = if *self & 0x0000ff00 != 0 { 0x0000ff00 } else { 0 };
        let b2: u32 = if *self & 0x00ff0000 != 0 { 0x00ff0000 } else { 0 };
        let b3: u32 = if *self & 0xff000000 != 0 { 0xff000000 } else { 0 };
        b0 | b1 | b2 | b3
    }

    fn rev8(&self) -> u32 {
        let mut r: u32 = 0;
        let a: u32 = *self & 0x000000ff;
        r = r | (a << 24);
        let a: u32 = *self & 0x0000ff00;
        r = r | (a << 8);
        let a: u32 = *self & 0x00ff0000;
        r = r | (a >> 8);
        let a: u32 = *self & 0xff000000;
        r = r | (a >> 24);
        assert(r == spec_u32_rev8(*self)) by (bit_vector)
            requires
                r == 0 | ((*self & 0x000000ff) << 24u32) | ((*self & 0x0000ff00) << 8u32) | ((*self
                    & 0x00ff0000) >> 8u32) | ((*self & 0xff000000) >> 24u32),
        ;
        r
    }

    fn signed_shl(&self, rhs: &u32) -> u32 {
        let s: u32 = *rhs & 31;
        proof {
            lemma_and_31(*rhs);
        }
        ((*self as i32) << s) as u32
    }

    fn signed_shr(&self, rhs: &u32) -> u32 {
        let s: u32 = *rhs & 31;
        proof {
            lemma_and_31(*rhs);
        }
        ((*self as i32) >> s) as u32
    }

    fn rol(&self, rhs: &u32) -> u32 {
        let s: u32 = *rhs & 31;
        proof {
            lemma_and_31(*rhs);
        }
        if s == 0 {
            *self
        } else {
            (*self << s) | (*self >> (32 - s))
        }
    }

    fn ror(&self, rhs: &u32) -> u32 {
        let s: u32 = *rhs & 31;
        proof {
            lemma_and_31(*rhs);
        }
        if s == 0 {
            *self
        } else {
            (*self >> s) | (*self << (32 - s))
        }
    }

    fn zero_extend(&self, start_bit: &u32) -> u32 {
        let s: u32 = if *start_bit < 32 { *start_bit } else { 32 };
        if s == 0 {
            *self
        } else {
            (*self << (32 - s)) >> (32 - s)
        }
    }

    fn sign_extend(&self, start_bit: &u32) -> u32 {
        let s: u32 = if *start_bit < 32 { *start_bit } else { 32 };
        if s == 0 {
            *self
        } else {
            (((*self << (32 - s)) as i32) >> (32 - s)) as u32
        }
    }

    fn not(&self) -> u32 {
        !*self
    }

    fn bitand(&self, rhs: &u32) -> u32 {
        *self & *rhs
    }

    fn bitor(&self, rhs: &u32) -> u32 {
        *self | *rhs
    }

    fn bitxor(&self, rhs: &u32) -> u32 {
        *self ^ *rhs
    }

    fn shl(&self, rhs: &u32) -> u32 {
        proof {
            lemma_and_31(*rhs);
        }
        *self << (*rhs & 31)
    }

    fn shr(&self, rhs: &u32) -> u32 {
        proof {
            lemma_and_31(*rhs);
        }
        *self >> (*rhs & 31)
    }

    fn to_i8(&self) -> i8 {
        *self as i8
    }

    fn to_i16(&self) -> i16 {
        *self as i16
    }

    fn to_i32(&self) -> i32 {
        *self as i32
    }

    fn to_i64(&self) -> i64 {
        (*self as i32) as i64
    }

    fn to_u8(&self) -> u8 {
        *self as u8
    }

    fn to_u16(&self) -> u16 {
        *self as u16
    }

    fn to_u32(&self) -> u32 {
        *self
    }

    fn to_u64(&self) -> u64 {
        *self as u64
    }

    fn from_i8(v: i8) -> u32 {
        v as u32
    }

    fn from_i16(v: i16) -> u32 {
        v as u32
    }

    fn from_i32(v: i32) -> u32 {
        v as u32
    }

    fn from_i64(v: i64) -> u32 {
        v as u32
    }

    fn from_u8(v: u8) -> u32 {
        v as u32
    }

    fn from_u16(v: u16) -> u32 {
        v as u32
    }

    fn from_u32(v: u32) -> u32 {
        v
    }

    fn from_u64(v: u64) -> u32 {
        v as u32
    }
}

/// Unsigned division by a non-zero divisor: quotient and remainder rebuild
/// the dividend, and the remainder is below the divisor.
pub proof fn lemma_u64_div_rem(a: u64, b: u64)
    requires
        b != 0,
    ensures
        <u64 as Register>::spec_overflowing_div(a, b) * b + <u64 as Register>::spec_overflowing_rem(
            a,
            b,
        ) == a,
        <u64 as Register>::spec_overflowing_rem(a, b) < b,
{
    vstd::arithmetic::div_mod::lemma_fundamental_div_mod(a as int, b as int);
    assert((a / b) * b == b * (a / b)) by (nonlinear_arith);
}

/// Division by zero and signed overflow follow the RISC-V rules: DIVU gives
/// all ones, REMU and REM give the dividend, DIV gives -1; the most negative
/// value divided by -1 gives itself, with remainder 0.
pub proof fn lemma_u64_division_edge_cases(a: u64)
    ensures
        <u64 as Register>::spec_overflowing_div(a, 0) == u64::MAX,
        <u64 as Register>::spec_overflowing_rem(a, 0) == a,
        <u64 as Register>::spec_overflowing_div_signed(a, 0) == u64::MAX,
        <u64 as Register>::spec_overflowing_rem_signed(a, 0) == a,
        <u64 as Register>::spec_overflowing_div_signed(0x8000_0000_0000_0000, u64::MAX)
            == 0x8000_0000_0000_0000,
        <u64 as Register>::spec_overflowing_rem_signed(0x8000_0000_0000_0000, u64::MAX) == 0,
{
}

/// Signed division of 64 bit registers, away from the edge cases, rounds
/// toward zero: the quotient and remainder rebuild the dividend modulo
/// 2^64, and the remainder is smaller than the divisor in magnitude and
/// never of the opposite sign to the dividend.
pub proof fn lemma_u64_signed_div_rem(a: u64, b: u64)
    requires
        b != 0,
        !(a == 0x8000_0000_0000_0000 && b == u64::MAX),
    ensures
        ({
            let q = spec_trunc_div(signed64(a), signed64(b));
            let r = spec_trunc_rem(signed64(a), signed64(b));
            &&& q * signed64(b) + r == signed64(a)
            &&& vstd::math::abs(r) < vstd::math::abs(signed64(b))
            &&& (r == 0 || (r < 0) == (signed64(a) < 0))
            &&& <u64 as Register>::spec_overflowing_div_signed(a, b) == wrap64(q)
            &&& <u64 as Register>::spec_overflowing_rem_signed(a, b) == wrap64(r)
        }),
{
    let sa: int = signed64(a);
    let sb: int = signed64(b);
    let am: int = vstd::math::abs(sa) as int;
    let bm: int = vstd::math::abs(sb) as int;
    let qm: int = am / bm;
    vstd::arithmetic::div_mod::lemma_fundamental_div_mod(am, bm);
    let rm: int = am % bm;
    let q: int = spec_trunc_div(sa, sb);
    let r: int = spec_trunc_rem(sa, sb);
    assert(q * sb == sb * q) by (nonlinear_arith);
    if sa < 0 {
        assert(sb * q == -(bm * qm)) by (nonlinear_arith)
            requires
                (sb < 0 ==> sb == -bm && q == qm),
                (sb >= 0 ==> sb == bm && q == -qm),
        ;
        assert(r == -rm);
    } else {
        assert(sb * q == bm * qm) by (nonlinear_arith)
            requires
                (sb < 0 ==> sb == -bm && q == -qm),
                (sb >= 0 ==> sb == bm && q == qm),
        ;
        assert(r == rm);
    }
}

/// The low and high halves of a 64 bit product rebuild the full product.
pub proof fn lemma_u64_wide_mul(a: u64, b: u64)
    ensures
        <u64 as Register>::spec_overflowing_mul_high_unsigned(a, b) * 0x1_0000_0000_0000_0000int
            + <u64 as Register>::spec_overflowing_mul(a, b) == a * b,
{
    let d: int = 0x1_0000_0000_0000_0000int;
    let p: int = a * b;
    assert(0 <= p <= 0xffff_ffff_ffff_ffffint * 0xffff_ffff_ffff_ffffint) by (nonlinear_arith)
        requires
            p == a * b,
            0 <= a <= 0xffff_ffff_ffff_ffffint,
            0 <= b <= 0xffff_ffff_ffff_ffffint,
    ;
    vstd::arithmetic::div_mod::lemma_fundamental_div_mod(p, d);
    vstd::arithmetic::div_mod::lemma_div_is_ordered(p, 0xffff_ffff_ffff_ffffint * 0xffff_ffff_ffff_ffffint, d);
    let h: int = p / d;
    assert(0 <= h < d);
    vstd::arithmetic::div_mod::lemma_small_mod(h as nat, d as nat);
    assert(wrap64(h) == h);
    assert(wrap64(p) == p % d);
    assert(h * d == d * h) by (nonlinear_arith);
}

/// REV8 reverses the order of the bytes.
pub proof fn lemma_u64_rev8_reverses_bytes(a: u64)
    ensures
        forall|i: u64|
            i < 8 ==> (#[trigger] (spec_u64_rev8(a) >> (8 * i))) & 0xff == (a >> (8 * (7 - i)))
                & 0xff,
{
    assert forall|i: u64| i < 8 implies (#[trigger] (spec_u64_rev8(a) >> (8 * i))) & 0xff == (a >> (
    8 * (7 - i))) & 0xff by {
        assert(i < 8 ==> (spec_u64_rev8(a) >> ((8 * i) as u64)) & 0xff == (a >> ((8 * (7 - i)) as u64))
            & 0xff) by (bit_vector);
    }
}

/// ORC.B turns each non-zero byte into all ones and each zero byte into zero.
pub proof fn lemma_u64_orcb_bytes(a: u64)
    ensures
        forall|i: u64|
            i < 8 ==> (#[trigger] (spec_u64_orcb(a) >> (8 * i))) & 0xff == (if (a >> (8 * i)) & 0xff
                == 0 {
                0u64
            } else {
                0xffu64
            }),
{
    assert forall|i: u64| i < 8 implies (#[trigger] (spec_u64_orcb(a) >> (8 * i))) & 0xff == (if (a
        >> (8 * i)) & 0xff == 0 {
        0u64
    } else {
        0xffu64
    }) by {
        assert(i < 8 ==> (spec_u64_orcb(a) >> ((8 * i) as u64)) & 0xff == (if (a >> ((8 * i) as u64))
            & 0xff == 0 {
            0u64
        } else {
            0xffu64
        })) by (bit_vector);
    }
}

/// Extending from bit 32 keeps the low word and fills the high word with
/// zeros, or with copies of bit 31.
pub proof fn lemma_u64_extend_word(a: u64)
    ensures
        spec_u64_zero_extend(a, 32) == a & 0xffff_ffff,
        spec_u64_sign_extend(a, 32) == (a as u32 as i32) as i64 as u64,
        spec_u64_sign_extend(a, 32) & 0xffff_ffff == a & 0xffff_ffff,
{
    assert(((a << 32u64) >> 32u64 == a & 0xffff_ffff) && ((((a << 32u64) as i64) >> 32u64) as u64 == (a as u32 as i32) as i64 as u64)) by (bit_vector);
    assert(((((a << 32u64) as i64) >> 32u64) as u64) & 0xffff_ffff == a & 0xffff_ffff) by (bit_vector);
}


/// Registers of type `u64` are 64 bits wide: a machine over them decodes
/// the instructions of the 64 bit base set.
pub proof fn lemma_u64_bits()
    ensures
        <u64 as Register>::BITS == 64,
        <u64 as Register>::SHIFT_MASK == 0x3F,
{
    <u64 as Register>::lemma_bits();
}

/// Registers of type `u32` are 32 bits wide.
pub proof fn lemma_u32_bits()
    ensures
        <u32 as Register>::BITS == 32,
        <u32 as Register>::SHIFT_MASK == 0x1F,
{
    <u32 as Register>::lemma_bits();
}


/// Rotations on 64 bits, on bits: rotating left by `s` moves bit `i` to bit
/// `(i + s) mod 64`, rotating right moves it to `(i - s) mod 64`, and a
/// rotation right undoes the same rotation left; the amount counts modulo
/// 64.
proof fn lemma_u64_rotation_bits(a: u64, s: u64, i: u64)
    by (bit_vector)
    requires
        i < 64,
    ensures
        (spec_u64_rol(a, s) >> ((i + (s % 64)) % 64)) & 1 == (a >> i) & 1,
        (spec_u64_ror(a, s) >> i) & 1 == (a >> ((i + (s % 64)) % 64)) & 1,
        spec_u64_ror(spec_u64_rol(a, s), s) == a,
{
}

/// Rotations on 32 bits, on bits: rotating left by `s` moves bit `i` to bit
/// `(i + s) mod 32`, rotating right moves it to `(i - s) mod 32`, and a
/// rotation right undoes the same rotation left; the amount counts modulo
/// 32.
proof fn lemma_u32_rotation_bits(a: u32, s: u32, i: u32)
    by (bit_vector)
    requires
        i < 32,
    ensures
        (spec_u32_rol(a, s) >> ((i + (s % 32)) % 32)) & 1 == (a >> i) & 1,
        (spec_u32_ror(a, s) >> i) & 1 == (a >> ((i + (s % 32)) % 32)) & 1,
        spec_u32_ror(spec_u32_rol(a, s), s) == a,
{
}


/// Rotations of 64 bit registers: rotating left by `s` moves bit `i` to
/// bit `(i + s) mod 64`, rotating right moves it to `(i - s) mod 64`,
/// and a rotation right undoes the same rotation left; the amount counts
/// modulo 64.
pub proof fn lemma_u64_rotations(a: u64, s: u64, i: u64)
    requires
        i < 64,
    ensures
        (<u64 as Register>::spec_rol(a, s) >> ((i + (s % 64)) % 64)) & 1 == (a >> i) & 1,
        (<u64 as Register>::spec_ror(a, s) >> i) & 1 == (a >> ((i + (s % 64)) % 64)) & 1,
        <u64 as Register>::spec_ror(<u64 as Register>::spec_rol(a, s), s) == a,
{
    lemma_u64_rotation_bits(a, s, i);
}

/// Rotations of 32 bit registers: rotating left by `s` moves bit `i` to
/// bit `(i + s) mod 32`, rotating right moves it to `(i - s) mod 32`,
/// and a rotation right undoes the same rotation left; the amount counts
/// modulo 32.
pub proof fn lemma_u32_rotations(a: u32, s: u32, i: u32)
    requires
        i < 32,
    ensures
        (<u32 as Register>::spec_rol(a, s) >> ((i + (s % 32)) % 32)) & 1 == (a >> i) & 1,
        (<u32 as Register>::spec_ror(a, s) >> i) & 1 == (a >> ((i + (s % 32)) % 32)) & 1,
        <u32 as Register>::spec_ror(<u32 as Register>::spec_rol(a, s), s) == a,
{
    lemma_u32_rotation_bits(a, s, i);
}

} // verus!
