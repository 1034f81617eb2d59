use wind_material::wind::{Wind, WindUniform};

fn sample_wind() -> Wind {
    Wind {
        direction_x: 0.6f32.to_bits(),
        direction_y: 0.8f32.to_bits(),
        strength: 1.25f32.to_bits(),
        noise_scale: 0.03f32.to_bits(),
        scroll_speed: 0.4f32.to_bits(),
        bend_exponent: 3.0f32.to_bits(),
        round_exponent: 1.5f32.to_bits(),
        micro_strength: 0.2f32.to_bits(),
        micro_noise_scale: 2.0f32.to_bits(),
        micro_scroll_speed: 0.05f32.to_bits(),
        s_curve_speed: 7.0f32.to_bits(),
        s_curve_strength: 0.15f32.to_bits(),
        s_curve_frequency: 44.0f32.to_bits(),
        bop_speed: 90.0f32.to_bits(),
        bop_strength: 0.02f32.to_bits(),
        twist_strength: 0.3f32.to_bits(),
        enable_billboarding: true,
        enable_edge_correction: false,
        lod_threshold: 60.0f32.to_bits(),
    }
}

#[test]
fn default_wind_matches_baseline() {
    let w = Wind::default();
    assert_eq!(w.strength, 0.5f32.to_bits());
    assert_eq!(w.lod_threshold, 75.0f32.to_bits());
    assert_eq!(w.noise_scale, 0.02f32.to_bits());
    assert_eq!(w.scroll_speed, 0.2f32.to_bits());
    assert_eq!(w.bend_exponent, 2.0f32.to_bits());
    assert_eq!(w.round_exponent, 2.0f32.to_bits());
    assert_eq!(w.micro_strength, 0.1f32.to_bits());
    assert_eq!(w.micro_noise_scale, 1.0f32.to_bits());
    assert_eq!(w.micro_scroll_speed, 0.1f32.to_bits());
    assert_eq!(w.s_curve_speed, 8.0f32.to_bits());
    assert_eq!(w.s_curve_strength, 0.1f32.to_bits());
    assert_eq!(w.bop_speed, 100.0f32.to_bits());
    assert_eq!(w.bop_strength, 0.01f32.to_bits());
    assert_eq!(w.twist_strength, 0.1f32.to_bits());
    assert!(!w.enable_billboarding);
    assert!(!w.enable_edge_correction);
    // direction is the normalization of (1.0, 0.5)
    let dx = f32::from_bits(w.direction_x);
    let dy = f32::from_bits(w.direction_y);
    assert!((dx - 0.894427).abs() < 1e-5);
    assert!((dy - 0.447214).abs() < 1e-5);
    assert!((dx * dx + dy * dy - 1.0).abs() < 1e-5);
    let tau = core::f32::consts::TAU;
    assert_eq!(w.s_curve_frequency, (tau * 8.0).to_bits());
}

#[test]
fn encode_copies_every_field() {
    let w = sample_wind();
    let u = WindUniform::encode(&w);
    assert_eq!(u.direction_x, w.direction_x);
    assert_eq!(u.direction_y, w.direction_y);
    assert_eq!(u.strength, w.strength);
    assert_eq!(u.noise_scale, w.noise_scale);
    assert_eq!(u.scroll_speed, w.scroll_speed);
    assert_eq!(u.bend_exponent, w.bend_exponent);
    assert_eq!(u.round_exponent, w.round_exponent);
    assert_eq!(u.micro_strength, w.micro_strength);
    assert_eq!(u.micro_noise_scale, w.micro_noise_scale);
    assert_eq!(u.micro_scroll_speed, w.micro_scroll_speed);
    assert_eq!(u.s_curve_speed, w.s_curve_speed);
    assert_eq!(u.s_curve_strength, w.s_curve_strength);
    assert_eq!(u.s_curve_frequency, w.s_curve_frequency);
    assert_eq!(u.bop_speed, w.bop_speed);
    assert_eq!(u.bop_strength, w.bop_strength);
    assert_eq!(u.twist_strength, w.twist_strength);
    assert_eq!(u.lod_threshold, w.lod_threshold);
}

#[test]
fn encode_maps_true_to_one_and_false_to_zero() {
    let mut w = sample_wind();
    w.enable_billboarding = true;
    w.enable_edge_correction = false;
    let u = WindUniform::encode(&w);
    assert_eq!(u.enable_billboarding, 1);
    assert_eq!(u.enable_edge_correction, 0);

    w.enable_billboarding = false;
    w.enable_edge_correction = true;
    let u = WindUniform::encode(&w);
    assert_eq!(u.enable_billboarding, 0);
    assert_eq!(u.enable_edge_correction, 1);
}

#[test]
fn uniform_bytes_follow_the_wire_layout() {
    let w = sample_wind();
    let u = WindUniform::encode(&w);
    let bytes = u.to_bytes();
    assert_eq!(bytes.len(), 76);
    assert_eq!(&bytes[0..4], &w.direction_x.to_le_bytes());
    assert_eq!(&bytes[4..8], &w.direction_y.to_le_bytes());
    assert_eq!(&bytes[8..12], &1.25f32.to_le_bytes());
    assert_eq!(&bytes[60..64], &w.twist_strength.to_le_bytes());
    assert_eq!(&bytes[64..68], &1u32.to_le_bytes());
    assert_eq!(&bytes[68..72], &0u32.to_le_bytes());
    assert_eq!(&bytes[72..76], &60.0f32.to_le_bytes());
}
