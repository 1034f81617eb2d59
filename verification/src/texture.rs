//! The tileable noise texture and its mirrored-repeat addressing.
//!
//! The synthesizer samples a coherent noise function once per texel at
//! startup; that sampling is floating-point work done by the host, which
//! hands the finished byte grid to `NoiseTexture::from_samples`.  The texture
//! is immutable afterwards and shared read-only by every derived material.
//! Addressing is mirrored-repeat on both axes: coordinates reflect at every
//! tile boundary, so tiling the texture over a large ground plane introduces
//! no visible seam.

use vstd::prelude::*;
use vstd::arithmetic::div_mod::{
    lemma_fundamental_div_mod, lemma_fundamental_div_mod_converse_mod,
    lemma_mod_add_multiples_vanish, lemma_mod_division_less_than_divisor, lemma_small_mod,
};

verus! {

/// A shared reference to the process-wide noise texture, as the plain id
/// under which the host stores it.
#[derive(Clone, Copy, Debug, PartialEq, Eq, Structural)]
pub struct TextureHandle(pub usize);

/// The host resource slot holding the handle of the synthesized noise
/// texture.
#[derive(Clone, Copy, Debug, PartialEq, Eq, Structural)]
pub struct WindTexture(pub TextureHandle);

/// A texel coordinate reflected into `[0, size)` by mirrored-repeat
/// addressing: the texture tiles with period `2 * size`, and the second half
/// of each period walks the texels in reverse.
pub open spec fn spec_mirror(c: int, size: int) -> int
    recommends
        1 <= size,
{
    let m = c % (2 * size);
    if m < size {
        m
    } else {
        2 * size - 1 - m
    }
}

/// The owned 2D single-channel noise image: a `size` x `size` grid of 8-bit
/// texels in row-major order, sampled with mirrored-repeat addressing on both
/// axes.  Generated once per process and immutable afterwards.
pub struct NoiseTexture {
    size: u32,
    pixels: Vec<u8>,
}

impl NoiseTexture {
    /// The side length of the square texel grid.
    pub closed spec fn spec_size(&self) -> u32 {
        self.size
    }

    /// The texel bytes in row-major order.
    pub closed spec fn spec_pixels(&self) -> Seq<u8> {
        self.pixels@
    }

    /// Well-formedness: a positive side length small enough that the texel
    /// count fits comfortably in `usize`, and exactly one byte per texel.
    pub open spec fn wf(&self) -> bool {
        &&& 1 <= self.spec_size() <= 0x8000
        &&& self.spec_pixels().len() == self.spec_size() * self.spec_size()
    }

    /// The texel read at an arbitrary integer coordinate, after both axes are
    /// reflected into range by mirrored-repeat addressing.
    pub open spec fn spec_sample(&self, x: int, y: int) -> u8 {
        self.spec_pixels()[spec_mirror(y, self.spec_size() as int) * self.spec_size()
            + spec_mirror(x, self.spec_size() as int)]
    }

    /// Wraps a finished texel grid as the process's noise texture.  The bytes
    /// are taken verbatim, so the texture is a pure function of its inputs:
    /// synthesizing twice from the same samples yields byte-identical
    /// textures.  A non-positive or oversized `size`, or a grid of the wrong
    /// length, is a caller error and is excluded here.
    pub fn from_samples(size: u32, samples: Vec<u8>) -> (t: NoiseTexture)
        requires
            1 <= size <= 0x8000,
            samples@.len() == size * size,
        ensures
            t.wf(),
            t.spec_size() == size,
            t.spec_pixels() == samples@,
    {
        NoiseTexture { size, pixels: samples }
    }

    /// The side length of the texel grid.
    pub fn size(&self) -> (s: u32)
        ensures
            s == self.spec_size(),
    {
        self.size
    }

    /// Reads the texel at an arbitrary integer coordinate, mirroring both
    /// axes into range.
    pub fn sample(&self, x: i64, y: i64) -> (v: u8)
        requires
            self.wf(),
        ensures
            v == self.spec_sample(x as int, y as int),
    {
        let mx = mirror_index(x, self.size);
        let my = mirror_index(y, self.size);
        proof {
            assert((my as int) * (self.size as int) + (mx as int) < (self.size as int) * (
            self.size as int)) by (nonlinear_arith)
                requires
                    mx < self.size,
                    my < self.size,
            ;
            assert((my as int) * (self.size as int) + (mx as int) < 0x4000_0000)
                by (nonlinear_arith)
                requires
                    mx < self.size,
                    my < self.size,
                    self.size <= 0x8000,
            ;
        }
        let idx: usize = (my as usize) * (self.size as usize) + (mx as usize);
        self.pixels[idx]
    }
}

/// Reflects an arbitrary integer coordinate into `[0, size)` by
/// mirrored-repeat addressing.
pub fn mirror_index(c: i64, size: u32) -> (r: u32)
    requires
        1 <= size <= 0x8000,
    ensures
        r == spec_mirror(c as int, size as int),
        r < size,
{
    let p: u64 = 2 * (size as u64);
    let m: u64 = if c >= 0 {
        (c as u64) % p
    } else {
        let y: u64 = (-(c + 1)) as u64;
        proof {
            lemma_mod_reflect(y as int, p as int);
            lemma_mod_division_less_than_divisor(y as int, p as int);
        }
        p - 1 - (y % p)
    };
    proof {
        lemma_mod_division_less_than_divisor(c as int, p as int);
    }
    let r: u64 = if m < size as u64 {
        m
    } else {
        p - 1 - m
    };
    r as u32
}

/// The remainders of a coordinate and of its reflection about `-1/2` add up
/// to `p - 1`: reflecting a coordinate reflects its remainder.
proof fn lemma_mod_reflect(c: int, p: int)
    requires
        0 < p,
    ensures
        (-1 - c) % p == p - 1 - (c % p),
{
    let q = c / p;
    let r = c % p;
    lemma_fundamental_div_mod(c, p);
    lemma_mod_division_less_than_divisor(c, p);
    assert(-1 - c == (-q - 1) * p + (p - 1 - r)) by (nonlinear_arith)
        requires
            c == p * q + r,
    ;
    lemma_fundamental_div_mod_converse_mod(-1 - c, p, -q - 1, p - 1 - r);
}

/// Mirrored-repeat addressing lands every coordinate on a real texel.
pub proof fn lemma_mirror_in_range(c: int, size: int)
    requires
        1 <= size,
    ensures
        0 <= spec_mirror(c, size) < size,
{
    lemma_mod_division_less_than_divisor(c, 2 * size);
}

/// Mirrored-repeat addressing repeats with period twice the side length.
pub proof fn lemma_mirror_periodic(c: int, size: int)
    requires
        1 <= size,
    ensures
        spec_mirror(c + 2 * size, size) == spec_mirror(c, size),
{
    lemma_mod_add_multiples_vanish(c, 2 * size);
}

/// Mirrored-repeat addressing is symmetric about every tile boundary: the
/// coordinates `c` and `-1 - c` (the reflection across the boundary between
/// tile 0 and tile -1) read the same texel.
pub proof fn lemma_mirror_reflect(c: int, size: int)
    requires
        1 <= size,
    ensures
        spec_mirror(-1 - c, size) == spec_mirror(c, size),
{
    lemma_mod_reflect(c, 2 * size);
    lemma_mod_division_less_than_divisor(c, 2 * size);
}

/// Tiling continuity: reading across any edge of the texture meets the same
/// texels again in mirror order, so a tiled ground plane shows no seam.  At
/// the left edge, the column just outside (`x = -1`) equals column `0`; at
/// the right edge, the column just outside (`x = size`) equals column
/// `size - 1`; likewise for the top and bottom rows.
pub proof fn lemma_tiling_continuity(t: &NoiseTexture, x: int, y: int)
    requires
        t.wf(),
    ensures
        t.spec_sample(-1, y) == t.spec_sample(0, y),
        t.spec_sample(t.spec_size() as int, y) == t.spec_sample(t.spec_size() - 1, y),
        t.spec_sample(x, -1) == t.spec_sample(x, 0),
        t.spec_sample(x, t.spec_size() as int) == t.spec_sample(x, t.spec_size() - 1),
{
    let size = t.spec_size() as int;
    lemma_mirror_reflect(0, size);
    lemma_mirror_reflect(size - 1, size);
    lemma_small_mod(size as nat, (2 * size) as nat);
    lemma_small_mod((size - 1) as nat, (2 * size) as nat);
    lemma_mod_division_less_than_divisor(-1, 2 * size);
    lemma_mod_division_less_than_divisor(size, 2 * size);
    lemma_mod_division_less_than_divisor(size - 1, 2 * size);
    lemma_mod_division_less_than_divisor(0, 2 * size);
}

/// Inside the base tile, addressing is the identity: the sample at an
/// in-range coordinate is the row-major texel byte itself, so the image that
/// `from_samples` stores is exactly the image sampling observes.
pub proof fn lemma_sample_in_range(t: &NoiseTexture, x: int, y: int)
    requires
        t.wf(),
        0 <= x < t.spec_size(),
        0 <= y < t.spec_size(),
    ensures
        t.spec_sample(x, y) == t.spec_pixels()[y * t.spec_size() + x],
{
    let size = t.spec_size() as int;
    lemma_small_mod(x as nat, (2 * size) as nat);
    lemma_small_mod(y as nat, (2 * size) as nat);
}

/// Determinism of sampling: two well-formed textures of the same size with
/// byte-identical images read the same texel at every coordinate.
pub proof fn lemma_sample_deterministic(t1: &NoiseTexture, t2: &NoiseTexture)
    requires
        t1.wf(),
        t2.wf(),
        t1.spec_size() == t2.spec_size(),
        t1.spec_pixels() == t2.spec_pixels(),
    ensures
        forall|x: int, y: int| t1.spec_sample(x, y) == t2.spec_sample(x, y),
{
}

} // verus!
