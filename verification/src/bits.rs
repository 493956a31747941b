//! Rounding to powers of two.
use vstd::prelude::*;
use vstd::arithmetic::power2::pow2;

verus! {

/// `n` is a power of two below 2^64.
pub open spec fn is_power_of_two(n: u64) -> bool {
    n != 0 && exists|k: nat| k < 64 && #[trigger] pow2(k) == n
}

/// Rounds `x` up to a multiple of `round`, wrapping around at 2^64.
pub fn roundup(x: u64, round: u64) -> (r: u64)
    requires
        is_power_of_two(round),
    ensures
        r == ((x + round - 1) / (round as int) * round) % 0x1_0000_0000_0000_0000,
        r % round == 0,
{
    let m: u64 = round.wrapping_sub(1);
    let r: u64 = x.wrapping_add((!x).wrapping_add(1) & m);
    proof {
        lemma_roundup(x, round, m, r);
    }
    r
}

/// Rounds `x` down to a multiple of `round`.
pub fn rounddown(x: u64, round: u64) -> (r: u64)
    requires
        is_power_of_two(round),
    ensures
        r == x / round * round,
        r % round == 0,
        r <= x,
{
    let m: u64 = round.wrapping_sub(1);
    let r: u64 = x & !m;
    proof {
        lemma_rounddown(x, round, m, r);
    }
    r
}

/// The facts about a power of two that the rounding functions rest on.
proof fn lemma_power_of_two_mask(x: u64, round: u64, m: u64) -> (k: u64)
    requires
        is_power_of_two(round),
        m == round - 1,
    ensures
        k < 64,
        round == 1u64 << k,
        x & m == x % round,
        0x1_0000_0000_0000_0000int % (round as int) == 0,
{
    let kn: nat = choose|k: nat| k < 64 && #[trigger] pow2(k) == round;
    let k: u64 = kn as u64;
    vstd::bits::lemma_u64_shl_is_mul(1, k);
    vstd::bits::lemma_u64_pow2_no_overflow(kn);
    vstd::bits::lemma_u64_low_bits_mask_is_mod(x, kn);
    assert(vstd::bits::low_bits_mask(kn) == pow2(kn) - 1);
    vstd::arithmetic::power2::lemma_pow2_adds((64 - kn) as nat, kn);
    vstd::arithmetic::power2::lemma2_to64_rest();
    vstd::arithmetic::power2::lemma_pow2_pos(kn);
    vstd::arithmetic::div_mod::lemma_mod_multiples_basic(pow2((64 - kn) as nat) as int, pow2(kn) as int);
    k
}

proof fn lemma_rounddown(x: u64, round: u64, m: u64, r: u64)
    requires
        is_power_of_two(round),
        m == round - 1,
        r == x & !m,
    ensures
        r == x / round * round,
        r % round == 0,
        r <= x,
{
    let k: u64 = lemma_power_of_two_mask(x, round, m);
    assert(x & !m == ((x - (x & m)) as u64)) by (bit_vector);
    assert(x == round * (x / round) + x % round) by {
        vstd::arithmetic::div_mod::lemma_fundamental_div_mod(x as int, round as int);
    }
    assert(x / round * round == round * (x / round)) by (nonlinear_arith);
    assert((x / round * round) % (round as int) == 0) by {
        vstd::arithmetic::div_mod::lemma_mod_multiples_basic((x / round) as int, round as int);
    }
}

proof fn lemma_roundup(x: u64, round: u64, m: u64, r: u64)
    requires
        is_power_of_two(round),
        m == round - 1,
        r == vstd::wrapping::u64_specs::wrapping_add(
            x,
            vstd::wrapping::u64_specs::wrapping_add(!x, 1) & m,
        ),
    ensures
        r == ((x + round - 1) / (round as int) * round) % 0x1_0000_0000_0000_0000,
        r % round == 0,
{
    let k: u64 = lemma_power_of_two_mask(x, round, m);
    let a: u64 = x & m;
    let neg: u64 = vstd::wrapping::u64_specs::wrapping_add(!x, 1);
    assert(neg == (((!x) as int + 1) as u64)) by (bit_vector)
        requires
            neg == vstd::wrapping::u64_specs::wrapping_add(!x, 1),
    ;
    assert(k < 64 ==> ((((!x) as int + 1) as u64) & (((1u64 << k) - 1) as u64)) == (if x & (((1u64
        << k) - 1) as u64) == 0 {
        0
    } else {
        (((1u64 << k) - (x & (((1u64 << k) - 1) as u64))) as u64)
    })) by (bit_vector);
    let q: int = (x / round) as int;
    assert(x == round * q + a) by {
        vstd::arithmetic::div_mod::lemma_fundamental_div_mod(x as int, round as int);
    }
    assert(0 <= a < round);
    assert(round * q == q * round) by (nonlinear_arith);
    if a == 0 {
        assert((x + round - 1) / (round as int) == q) by {
            vstd::arithmetic::div_mod::lemma_fundamental_div_mod_converse(
                x + round - 1,
                round as int,
                q,
                round - 1,
            );
        }
        assert(r == x);
        vstd::arithmetic::div_mod::lemma_mod_multiples_basic(q, round as int);
    } else {
        assert((q + 1) * round == q * round + round) by (nonlinear_arith);
        assert((x + round - 1) / (round as int) == q + 1) by {
            vstd::arithmetic::div_mod::lemma_fundamental_div_mod_converse(
                x + round - 1,
                round as int,
                q + 1,
                a - 1,
            );
        }
        assert((q + 1) * round == q * round + round) by (nonlinear_arith);
        assert(r == (x + (round - a)) % 0x1_0000_0000_0000_0000);
        let t: int = (q + 1) * round;
        vstd::arithmetic::div_mod::lemma_mod_multiples_basic(q + 1, round as int);
        lemma_mod_of_mod_multiple(t, 0x1_0000_0000_0000_0000int, round as int);
    }
}

proof fn lemma_mod_of_mod_multiple(t: int, big: int, round: int)
    requires
        round > 0,
        big > 0,
        t % round == 0,
        big % round == 0,
    ensures
        (t % big) % round == 0,
{
    vstd::arithmetic::div_mod::lemma_fundamental_div_mod(t, big);
    let k: int = t / big;
    vstd::arithmetic::div_mod::lemma_fundamental_div_mod(big, round);
    let bq: int = big / round;
    vstd::arithmetic::div_mod::lemma_fundamental_div_mod(t, round);
    let tq: int = t / round;
    assert(t - big * k == (tq - bq * k) * round) by (nonlinear_arith)
        requires
            t == round * tq + 0,
            big == round * bq + 0,
    ;
    vstd::arithmetic::div_mod::lemma_mod_multiples_basic(tq - bq * k, round);
}

} // verus!
