//! Integer randomness of the visualizer's particle field: a xorshift32
//! generator for scatter and a hash of lattice points for value noise.

use vstd::prelude::*;

verus! {

/// One step of xorshift32: `x ^= x << 13; x ^= x >> 17; x ^= x << 5`.
pub open spec fn xorshift_step(x: u32) -> u32 {
    let a = x ^ (x << 13u32);
    let b = a ^ (a >> 17u32);
    b ^ (b << 5u32)
}

/// A tiny xorshift32 generator: fast, deterministic, for visual scatter
/// only.
pub struct XorShift32 {
    state: u32,
}

impl XorShift32 {
    /// The generator's state.
    pub closed spec fn state(&self) -> u32 {
        self.state
    }

    /// A generator seeded with `seed`; the low bit is forced on so that the
    /// state is never zero (zero is a fixed point of xorshift).
    pub fn new(seed: u32) -> (r: Self)
        ensures
            r.state() == seed | 1,
            r.state() != 0,
    {
        proof {
            assert(seed | 1u32 != 0) by (bit_vector);
        }
        XorShift32 { state: seed | 1 }
    }

    /// Advances the generator and returns the new state.
    pub fn next_u32(&mut self) -> (r: u32)
        ensures
            r == xorshift_step(old(self).state()),
            final(self).state() == r,
    {
        let mut x = self.state;
        x ^= x << 13;
        x ^= x >> 17;
        x ^= x << 5;
        self.state = x;
        x
    }
}

/// A nonzero state stays nonzero: xorshift32 never reaches its fixed point
/// from a seeded generator, so it never gets stuck.
pub proof fn law_xorshift_never_zero(x: u32)
    requires
        x != 0,
    ensures
        xorshift_step(x) != 0,
{
    let a = x ^ (x << 13u32);
    let b = a ^ (a >> 17u32);
    let c = b ^ (b << 5u32);
    assert(x != 0 ==> x ^ (x << 13u32) != 0) by (bit_vector);
    assert(a != 0 ==> a ^ (a >> 17u32) != 0) by (bit_vector);
    assert(b != 0 ==> b ^ (b << 5u32) != 0) by (bit_vector);
}

/// The 24-bit hash of lattice point (x, y) used by the value noise (the
/// noise divides it by 2^24); all products and sums wrap around.
pub open spec fn lattice_hash_spec(x: i32, y: i32) -> u32 {
    let xm = vstd::wrapping::i32_specs::wrapping_mul(x, 374_761_393);
    let ym = vstd::wrapping::i32_specs::wrapping_mul(y, 668_265_263);
    let h0 = vstd::wrapping::i32_specs::wrapping_add(xm, ym) as u32;
    let h1 = vstd::wrapping::u32_specs::wrapping_mul(h0 ^ (h0 >> 13u32), 1_274_126_177);
    let h2 = h1 ^ (h1 >> 16u32);
    h2 >> 8u32
}

/// Hashes lattice point (x, y) to 24 bits (see [`lattice_hash_spec`]).
pub fn lattice_hash(x: i32, y: i32) -> (r: u32)
    ensures
        r == lattice_hash_spec(x, y),
        r < 0x100_0000,
{
    let h0 = (x.wrapping_mul(374_761_393).wrapping_add(y.wrapping_mul(668_265_263))) as u32;
    let h1 = (h0 ^ (h0 >> 13)).wrapping_mul(1_274_126_177);
    let h2 = h1 ^ (h1 >> 16);
    let r = h2 >> 8;
    proof {
        assert(h2 >> 8u32 < 0x100_0000) by (bit_vector);
    }
    r
}

/// The generator is Marsaglia's xorshift32 with shifts 13, 17 and 5, and
/// the lattice hash mixes with the primes 374761393 and 668265263 and the
/// multiplier 1274126177 before keeping the top 24 bits.
pub proof fn law_generator_constants(x: u32, px: i32, py: i32)
    ensures
        xorshift_step(x) == ({
            let a = x ^ (x << 13u32);
            let b = a ^ (a >> 17u32);
            b ^ (b << 5u32)
        }),
        lattice_hash_spec(px, py) == ({
            let h0 = vstd::wrapping::i32_specs::wrapping_add(
                vstd::wrapping::i32_specs::wrapping_mul(px, 374_761_393),
                vstd::wrapping::i32_specs::wrapping_mul(py, 668_265_263),
            ) as u32;
            let h1 = vstd::wrapping::u32_specs::wrapping_mul(h0 ^ (h0 >> 13u32), 1_274_126_177);
            (h1 ^ (h1 >> 16u32)) >> 8u32
        }),
{
}

} // verus!
