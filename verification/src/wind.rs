//! The parametric wind model and its GPU-facing uniform encoding.
//!
//! `Wind` is the authoritative, host-mutated configuration; `WindUniform` is
//! its byte-exact transform for GPU consumption.  Scalar fields hold IEEE-754
//! single-precision bit patterns as raw 32-bit words: the shader is the sole
//! consumer of these values and tolerates any finite value, so the pipeline
//! moves the words verbatim and never interprets them numerically.

use vstd::prelude::*;

verus! {

/// The authoritative wind configuration.
///
/// `direction_x`/`direction_y` form a 2D unit-ish vector (callers should
/// supply a normalized one; the model never renormalizes).  All scalars are
/// raw single-precision bit patterns; the two `enable_*` flags are shader
/// feature toggles.
#[derive(Clone, Copy, Debug, PartialEq, Eq, Structural)]
pub struct Wind {
    pub direction_x: u32,
    pub direction_y: u32,
    pub strength: u32,
    pub noise_scale: u32,
    pub scroll_speed: u32,
    pub bend_exponent: u32,
    pub round_exponent: u32,
    pub micro_strength: u32,
    pub micro_noise_scale: u32,
    pub micro_scroll_speed: u32,
    pub s_curve_speed: u32,
    pub s_curve_strength: u32,
    pub s_curve_frequency: u32,
    pub bop_speed: u32,
    pub bop_strength: u32,
    pub twist_strength: u32,
    pub enable_billboarding: bool,
    pub enable_edge_correction: bool,
    pub lod_threshold: u32,
}

/// The fixed-layout structure the shader program reads as its uniform block.
///
/// Field order and types are the wire contract with the shader: identical to
/// `Wind` except that the boolean toggles become 32-bit integers (`true` is
/// `1`, `false` is `0`).
#[derive(Clone, Copy, Debug, PartialEq, Eq, Structural)]
pub struct WindUniform {
    pub direction_x: u32,
    pub direction_y: u32,
    pub strength: u32,
    pub noise_scale: u32,
    pub scroll_speed: u32,
    pub bend_exponent: u32,
    pub round_exponent: u32,
    pub micro_strength: u32,
    pub micro_noise_scale: u32,
    pub micro_scroll_speed: u32,
    pub s_curve_speed: u32,
    pub s_curve_strength: u32,
    pub s_curve_frequency: u32,
    pub bop_speed: u32,
    pub bop_strength: u32,
    pub twist_strength: u32,
    pub enable_billboarding: u32,
    pub enable_edge_correction: u32,
    pub lod_threshold: u32,
}

/// What `WindUniform::encode` returns: every field copied in value and
/// position, booleans mapped to `1`/`0`.
pub open spec fn spec_encode(w: Wind) -> WindUniform {
    WindUniform {
        direction_x: w.direction_x,
        direction_y: w.direction_y,
        strength: w.strength,
        noise_scale: w.noise_scale,
        scroll_speed: w.scroll_speed,
        bend_exponent: w.bend_exponent,
        round_exponent: w.round_exponent,
        micro_strength: w.micro_strength,
        micro_noise_scale: w.micro_noise_scale,
        micro_scroll_speed: w.micro_scroll_speed,
        s_curve_speed: w.s_curve_speed,
        s_curve_strength: w.s_curve_strength,
        s_curve_frequency: w.s_curve_frequency,
        bop_speed: w.bop_speed,
        bop_strength: w.bop_strength,
        twist_strength: w.twist_strength,
        enable_billboarding: if w.enable_billboarding { 1 } else { 0 },
        enable_edge_correction: if w.enable_edge_correction { 1 } else { 0 },
        lod_threshold: w.lod_threshold,
    }
}

impl WindUniform {
    /// Pure, total encoder from the wind model to the uniform block: an exact
    /// field-for-field copy with no rounding, clamping, or validation.  Called
    /// once per promotion to seed a new derived material and once per
    /// broadcast update per derived material; it cannot fail.
    pub fn encode(wind: &Wind) -> (r: WindUniform)
        ensures
            r == spec_encode(*wind),
    {
        WindUniform {
            direction_x: wind.direction_x,
            direction_y: wind.direction_y,
            strength: wind.strength,
            noise_scale: wind.noise_scale,
            scroll_speed: wind.scroll_speed,
            bend_exponent: wind.bend_exponent,
            round_exponent: wind.round_exponent,
            micro_strength: wind.micro_strength,
            micro_noise_scale: wind.micro_noise_scale,
            micro_scroll_speed: wind.micro_scroll_speed,
            s_curve_speed: wind.s_curve_speed,
            s_curve_strength: wind.s_curve_strength,
            s_curve_frequency: wind.s_curve_frequency,
            bop_speed: wind.bop_speed,
            bop_strength: wind.bop_strength,
            twist_strength: wind.twist_strength,
            enable_billboarding: if wind.enable_billboarding { 1 } else { 0 },
            enable_edge_correction: if wind.enable_edge_correction { 1 } else { 0 },
            lod_threshold: wind.lod_threshold,
        }
    }
}

/// The four little-endian bytes of one 32-bit word.
pub open spec fn spec_u32_le(v: u32) -> Seq<u8> {
    seq![
        (v % 0x100) as u8,
        ((v / 0x100) % 0x100) as u8,
        ((v / 0x10000) % 0x100) as u8,
        ((v / 0x1000000) % 0x100) as u8,
    ]
}

/// The uniform block as the shader program reads it from memory: nineteen
/// 32-bit words in declaration order, each little endian, 76 bytes in all.
pub open spec fn spec_uniform_bytes(u: WindUniform) -> Seq<u8> {
    spec_u32_le(u.direction_x) + spec_u32_le(u.direction_y) + spec_u32_le(u.strength)
        + spec_u32_le(u.noise_scale) + spec_u32_le(u.scroll_speed) + spec_u32_le(u.bend_exponent)
        + spec_u32_le(u.round_exponent) + spec_u32_le(u.micro_strength) + spec_u32_le(
        u.micro_noise_scale,
    ) + spec_u32_le(u.micro_scroll_speed) + spec_u32_le(u.s_curve_speed) + spec_u32_le(
        u.s_curve_strength,
    ) + spec_u32_le(u.s_curve_frequency) + spec_u32_le(u.bop_speed) + spec_u32_le(u.bop_strength)
        + spec_u32_le(u.twist_strength) + spec_u32_le(u.enable_billboarding) + spec_u32_le(
        u.enable_edge_correction,
    ) + spec_u32_le(u.lod_threshold)
}

/// Appends one 32-bit word to the buffer, least-significant byte first.
fn push_word(buf: &mut Vec<u8>, v: u32)
    ensures
        final(buf)@ == old(buf)@ + spec_u32_le(v),
{
    buf.push((v % 0x100) as u8);
    buf.push(((v / 0x100) % 0x100) as u8);
    buf.push(((v / 0x10000) % 0x100) as u8);
    buf.push(((v / 0x1000000) % 0x100) as u8);
    proof {
        assert(buf@ =~= old(buf)@ + spec_u32_le(v));
    }
}

impl WindUniform {
    /// Serializes the uniform block to the exact bytes the shader expects:
    /// every field in declaration order, four little-endian bytes each.
    #[verifier::rlimit(40)]
    pub fn to_bytes(&self) -> (r: Vec<u8>)
        ensures
            r@ == spec_uniform_bytes(*self),
            r@.len() == 76,
    {
        let mut buf: Vec<u8> = Vec::new();
        push_word(&mut buf, self.direction_x);
        push_word(&mut buf, self.direction_y);
        push_word(&mut buf, self.strength);
        push_word(&mut buf, self.noise_scale);
        push_word(&mut buf, self.scroll_speed);
        push_word(&mut buf, self.bend_exponent);
        push_word(&mut buf, self.round_exponent);
        push_word(&mut buf, self.micro_strength);
        push_word(&mut buf, self.micro_noise_scale);
        push_word(&mut buf, self.micro_scroll_speed);
        push_word(&mut buf, self.s_curve_speed);
        push_word(&mut buf, self.s_curve_strength);
        push_word(&mut buf, self.s_curve_frequency);
        push_word(&mut buf, self.bop_speed);
        push_word(&mut buf, self.bop_strength);
        push_word(&mut buf, self.twist_strength);
        push_word(&mut buf, self.enable_billboarding);
        push_word(&mut buf, self.enable_edge_correction);
        push_word(&mut buf, self.lod_threshold);
        proof {
            assert(buf@ =~= spec_uniform_bytes(*self));
        }
        buf
    }
}

/// The baseline wind configuration: `strength` 0.5, `direction` the
/// normalization of (1.0, 0.5), `lod_threshold` 75.0, and the remaining
/// scalars at their stock tuning values.  Each literal is the bit pattern of
/// the corresponding single-precision value.
pub open spec fn spec_default_wind() -> Wind {
    Wind {
        direction_x: 0x3F64F92E,         // 0.8944272
        direction_y: 0x3EE4F92E,         // 0.4472136
        strength: 0x3F000000,            // 0.5
        noise_scale: 0x3CA3D70A,         // 0.02
        scroll_speed: 0x3E4CCCCD,        // 0.2
        bend_exponent: 0x40000000,       // 2.0
        round_exponent: 0x40000000,      // 2.0
        micro_strength: 0x3DCCCCCD,      // 0.1
        micro_noise_scale: 0x3F800000,   // 1.0
        micro_scroll_speed: 0x3DCCCCCD,  // 0.1
        s_curve_speed: 0x41000000,       // 8.0
        s_curve_strength: 0x3DCCCCCD,    // 0.1
        s_curve_frequency: 0x42490FDB,   // 8 * tau = 50.265484
        bop_speed: 0x42C80000,           // 100.0
        bop_strength: 0x3C23D70A,        // 0.01
        twist_strength: 0x3DCCCCCD,      // 0.1
        enable_billboarding: false,
        enable_edge_correction: false,
        lod_threshold: 0x42960000,       // 75.0
    }
}

impl Default for Wind {
    /// Returns the baseline wind configuration.
    fn default() -> (r: Wind)
        ensures
            r == spec_default_wind(),
    {
        Wind {
            direction_x: 0x3F64F92E,
            direction_y: 0x3EE4F92E,
            strength: 0x3F000000,
            noise_scale: 0x3CA3D70A,
            scroll_speed: 0x3E4CCCCD,
            bend_exponent: 0x40000000,
            round_exponent: 0x40000000,
            micro_strength: 0x3DCCCCCD,
            micro_noise_scale: 0x3F800000,
            micro_scroll_speed: 0x3DCCCCCD,
            s_curve_speed: 0x41000000,
            s_curve_strength: 0x3DCCCCCD,
            s_curve_frequency: 0x42490FDB,
            bop_speed: 0x42C80000,
            bop_strength: 0x3C23D70A,
            twist_strength: 0x3DCCCCCD,
            enable_billboarding: false,
            enable_edge_correction: false,
            lod_threshold: 0x42960000,
        }
    }
}

} // verus!
