//! PCG64-DXSM generator: a 128-bit linear congruential state with a
//! double-xorshift-multiply output function. The state is plain integers, so a
//! given `(seed, stream)` pair yields the same sequence on every platform.

use vstd::prelude::*;

verus! {

/// Multiplier of the 128-bit linear congruential step.
pub const PCG_MULTIPLIER: u128 = 0x2360_ED05_1FC6_5DA4_4385_DF64_9FCC_F645u128;

/// Multiplier of the DXSM output permutation.
pub const DXSM_MULTIPLIER: u64 = 0xDA94_2042_E4DD_58B5u64;

/// 2^128, the modulus of the state.
pub open spec fn state_modulus() -> nat {
    0x1_0000_0000_0000_0000_0000_0000_0000_0000nat
}

/// 2^64, the modulus of the output arithmetic.
pub open spec fn word_modulus() -> nat {
    0x1_0000_0000_0000_0000nat
}

/// 2^53: every mantissa handed out by `next_u53` lies below it.
pub open spec fn mantissa_bound() -> nat {
    0x20_0000_0000_0000nat
}

/// One step of the linear congruential recurrence: `(state * M + inc) mod 2^128`.
pub open spec fn lcg_step(state: u128, inc: u128) -> u128 {
    ((state as nat * PCG_MULTIPLIER as nat + inc as nat) % state_modulus()) as u128
}

/// Product of two words modulo 2^64.
pub open spec fn mul_mod_word(a: u64, b: u64) -> u64 {
    ((a as nat * b as nat) % word_modulus()) as u64
}

/// The stream selector turned into the (odd) increment: `2 * stream + 1`.
pub open spec fn stream_increment(stream: u64) -> u128 {
    (2 * stream + 1) as u128
}

/// State right after seeding: step from zero, add the seed, step again.
pub open spec fn seeded_state(seed: u64, stream: u64) -> u128 {
    let inc = stream_increment(stream);
    lcg_step(((lcg_step(0, inc) as nat + seed as nat) % state_modulus()) as u128, inc)
}

/// DXSM output of a state: the high half is folded, multiplied, folded again and
/// multiplied by the low half forced odd.
pub open spec fn dxsm_output(state: u128) -> u64 {
    let hi = (state / (word_modulus() as u128)) as u64;
    let lo = ((state % (word_modulus() as u128)) as u64) | 1u64;
    let x1 = hi ^ (hi >> 32u64);
    let x2 = mul_mod_word(x1, DXSM_MULTIPLIER);
    let x3 = x2 ^ (x2 >> 48u64);
    mul_mod_word(x3, lo)
}

/// State after `n` draws from a freshly seeded generator.
pub open spec fn state_after(seed: u64, stream: u64, n: nat) -> u128
    decreases n,
{
    if n == 0 {
        seeded_state(seed, stream)
    } else {
        lcg_step(state_after(seed, stream, (n - 1) as nat), stream_increment(stream))
    }
}

/// The `n`-th value (counting from 1) that `next_u64` returns after seeding.
pub open spec fn nth_output(seed: u64, stream: u64, n: nat) -> u64 {
    dxsm_output(state_after(seed, stream, n))
}

pub struct Pcg64 {
    state: u128,
    inc: u128,
}

impl Pcg64 {
    /// Current 128-bit state.
    pub closed spec fn spec_state(&self) -> u128 {
        self.state
    }

    /// Increment of the recurrence (selects the stream).
    pub closed spec fn spec_inc(&self) -> u128 {
        self.inc
    }

    #[verifier::type_invariant]
    closed spec fn increment_is_odd(&self) -> bool {
        self.inc % 2 == 1
    }

    /// Generator for `seed` on stream `stream`.
    pub fn new(seed: u64, stream: u64) -> (rng: Self)
        ensures
            rng.spec_inc() == stream_increment(stream),
            rng.spec_state() == seeded_state(seed, stream),
    {
        let inc = ((stream as u128) << 1u32) | 1u128;
        assert(inc == 2 * (stream as u128) + 1) by (bit_vector)
            requires
                inc == ((stream as u128) << 1u32) | 1u128,
        ;
        let mut rng = Pcg64 { state: 0, inc };
        rng.step();
        let ghost stepped = rng.state;
        rng.state = rng.state.wrapping_add(seed as u128);
        assert(rng.state == ((stepped as nat + seed as nat) % state_modulus()) as u128);
        rng.step();
        rng
    }

    fn step(&mut self)
        ensures
            final(self).spec_inc() == old(self).spec_inc(),
            final(self).spec_state() == lcg_step(old(self).spec_state(), old(self).spec_inc()),
    {
        proof {
            use_type_invariant(&*self);
        }
        self.state = self.state.wrapping_mul(PCG_MULTIPLIER).wrapping_add(self.inc);
        proof {
            vstd::arithmetic::div_mod::lemma_add_mod_noop(
                (old(self).state as nat * PCG_MULTIPLIER as nat) as int,
                old(self).inc as int,
                state_modulus() as int,
            );
        }
    }

    /// Advance one step and return the DXSM output of the new state.
    pub fn next_u64(&mut self) -> (x: u64)
        ensures
            final(self).spec_inc() == old(self).spec_inc(),
            final(self).spec_state() == lcg_step(old(self).spec_state(), old(self).spec_inc()),
            x == dxsm_output(final(self).spec_state()),
    {
        self.step();
        let s = self.state;
        let hi = (s >> 64u32) as u64;
        let lo = (s as u64) | 1u64;
        assert(hi == (s / (word_modulus() as u128)) as u64) by (bit_vector)
            requires
                hi == (s >> 64u32) as u64,
        ;
        assert(s as u64 == (s % (word_modulus() as u128)) as u64) by (bit_vector);
        let mut x = hi ^ (hi >> 32u32);
        x = x.wrapping_mul(DXSM_MULTIPLIER);
        x ^= x >> 48u32;
        x.wrapping_mul(lo)
    }

    /// Advance one step and return the top 53 bits of the output, the mantissa
    /// from which a uniform draw in (0, 1) is formed.
    pub fn next_u53(&mut self) -> (m: u64)
        ensures
            final(self).spec_inc() == old(self).spec_inc(),
            final(self).spec_state() == lcg_step(old(self).spec_state(), old(self).spec_inc()),
            m == dxsm_output(final(self).spec_state()) >> 11u64,
            m < mantissa_bound(),
    {
        let x = self.next_u64();
        assert(x >> 11u64 < 0x20_0000_0000_0000u64) by (bit_vector);
        x >> 11u32
    }
}

/// Reproducibility: a generator seeded with `(seed, stream)` holds
/// `state_after(seed, stream, n)` after `n` draws, so its next draw is
/// `nth_output(seed, stream, n + 1)` whatever the platform or the instance.
pub proof fn lemma_draws_reproducible(rng: Pcg64, seed: u64, stream: u64, n: nat)
    requires
        rng.spec_inc() == stream_increment(stream),
        rng.spec_state() == state_after(seed, stream, n),
    ensures
        lcg_step(rng.spec_state(), rng.spec_inc()) == state_after(seed, stream, n + 1),
        dxsm_output(lcg_step(rng.spec_state(), rng.spec_inc())) == nth_output(seed, stream, n + 1),
{
}

/// Every stream has an odd increment (the condition for the full period of
/// the recurrence) and distinct streams have distinct increments, so they
/// follow distinct recurrences.
pub proof fn lemma_streams_distinct(a: u64, b: u64)
    ensures
        stream_increment(a) % 2 == 1,
        a != b ==> stream_increment(a) != stream_increment(b),
{
}

/// Inverse of the multiplier modulo 2^128.
pub open spec fn multiplier_inverse() -> nat {
    0x07dd_a22b_9397_9860_98ab_c8b0_716e_ac8dnat
}

/// One step of the recurrence run backwards: `(state - inc) * M^-1 mod 2^128`.
pub open spec fn lcg_unstep(state: u128, inc: u128) -> u128 {
    (((state as int - inc as int) * multiplier_inverse()) % (state_modulus() as int)) as u128
}

/// The step of the recurrence is a permutation of the states: running it
/// backwards recovers the previous state, so two states never merge into one
/// and every state lies on a cycle.
pub proof fn lemma_step_reversible(s: u128, t: u128, inc: u128)
    ensures
        lcg_unstep(lcg_step(s, inc), inc) == s,
        lcg_step(s, inc) == lcg_step(t, inc) ==> s == t,
{
    lemma_unstep_inverts(s, inc);
    lemma_unstep_inverts(t, inc);
}

proof fn lemma_unstep_inverts(s: u128, inc: u128)
    ensures
        lcg_unstep(lcg_step(s, inc), inc) == s,
{
    let r: int = state_modulus() as int;
    let m: int = PCG_MULTIPLIER as int;
    let mi: int = multiplier_inverse() as int;
    let k: int = 0x0116_4791_1cf5_841a_d7ac_7dc5_6283_2432int;
    assert(m * mi == 1 + r * k);
    let x: int = s as int * m + inc as int;
    let q: int = x / r;
    vstd::arithmetic::div_mod::lemma_fundamental_div_mod(x, r);
    let step: int = x % r;
    assert(step == x - r * q);
    assert((step - inc as int) * mi == s as int + r * (s as int * k - q * mi)) by (nonlinear_arith)
        requires
            step == x - r * q,
            x == s as int * m + inc as int,
            m * mi == 1 + r * k,
    ;
    vstd::arithmetic::div_mod::lemma_mod_multiples_vanish(s as int * k - q * mi, s as int, r);
    vstd::arithmetic::div_mod::lemma_small_mod(s as nat, r as nat);
    assert(lcg_step(s, inc) as int == step);
}

} // verus!
