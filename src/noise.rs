//! Integer part of the cell noise: seed mixing and cell seeds.
use vstd::prelude::*;

verus! {

/// Number of distinct `u32` values; 32-bit wrapping arithmetic works modulo it.
pub const WORD: u64 = 0x1_0000_0000;

/// Multiplier of the avalanche step.
pub const MIX_MUL: u32 = 0x27d4eb2d;

/// Primes that combine the three cell coordinates into one seed.
pub const PRIME_X: u32 = 73856093;
pub const PRIME_Y: u32 = 19349663;
pub const PRIME_Z: u32 = 83492791;

/// Sum of two words, wrapped to 32 bits.
pub open spec fn add32(a: u32, b: u32) -> u32 {
    ((a as int + b as int) % (WORD as int)) as u32
}

/// Product of two words, wrapped to 32 bits.
pub open spec fn mul32(a: u32, b: u32) -> u32 {
    ((a as int * b as int) % (WORD as int)) as u32
}

/// The avalanche mix of a seed: xor with 61 plus eight times the seed, fold the
/// high nibble down, multiply by `MIX_MUL`, fold bit 15 and up down.
pub open spec fn mix_spec(n: u32) -> u32 {
    let a = add32(n ^ 61u32, mul32(n, 8));
    let b = a ^ (a >> 4u32);
    let c = mul32(b, MIX_MUL);
    c ^ (c >> 15u32)
}

/// The seed of the noise cell with integer coordinates `(xi, yi, zi)`: each
/// coordinate, read as a `u32` in two's complement, times its prime, all xored.
pub open spec fn cell_seed_spec(xi: i32, yi: i32, zi: i32) -> u32 {
    mul32(xi as u32, PRIME_X) ^ mul32(yi as u32, PRIME_Y) ^ mul32(zi as u32, PRIME_Z)
}

proof fn lemma_wrapping_add(a: u32, b: u32)
    ensures
        vstd::wrapping::u32_specs::wrapping_add(a, b) == add32(a, b),
{
}

proof fn lemma_wrapping_mul(a: u32, b: u32)
    ensures
        vstd::wrapping::u32_specs::wrapping_mul(a, b) == mul32(a, b),
{
}

proof fn lemma_shl3(n: u32)
    ensures
        n << 3u32 == mul32(n, 8),
{
    assert(n << 3u32 == ((n as int * 8) % 0x1_0000_0000) as u32) by (bit_vector);
}

/// Deterministic avalanche mix of a 32-bit seed; the same seed always gives
/// the same word. Scaled to `[0, 1]` it is the noise value of a cell.
pub fn hash_mix(n: u32) -> (r: u32)
    ensures
        r == mix_spec(n),
{
    proof {
        lemma_shl3(n);
        lemma_wrapping_add(n ^ 61u32, n << 3u32);
    }
    let a = (n ^ 61).wrapping_add(n << 3);
    let b = a ^ (a >> 4);
    proof {
        lemma_wrapping_mul(b, MIX_MUL);
    }
    let c = b.wrapping_mul(MIX_MUL);
    c ^ (c >> 15)
}

/// Seed of the noise cell `(xi, yi, zi)`.
pub fn cell_seed(xi: i32, yi: i32, zi: i32) -> (r: u32)
    ensures
        r == cell_seed_spec(xi, yi, zi),
{
    let x = xi as u32;
    let y = yi as u32;
    let z = zi as u32;
    proof {
        lemma_wrapping_mul(x, PRIME_X);
        lemma_wrapping_mul(y, PRIME_Y);
        lemma_wrapping_mul(z, PRIME_Z);
    }
    x.wrapping_mul(PRIME_X) ^ y.wrapping_mul(PRIME_Y) ^ z.wrapping_mul(PRIME_Z)
}

} // verus!
