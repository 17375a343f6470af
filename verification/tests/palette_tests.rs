use ramp_generator::color::Color;
use ramp_generator::config::Config;
use ramp_generator::error::ConfigError;
use ramp_generator::generator::{generate, Palette};

fn color(hue: u32, sat: u32, val: u32) -> Color {
    Color::new(hue, sat, val).unwrap()
}

fn default_palette() -> Palette {
    generate(&Config::default()).unwrap()
}

fn assert_cell(c: &Color, hue: u32, sat: u32, val: u32) {
    assert_eq!(c.hue(), hue);
    assert_eq!(c.saturation(), sat);
    assert_eq!(c.value(), val);
}

/// The stock configuration carries the expected field values.
#[test]
fn default_config_shape() {
    let cfg = Config::default();
    assert_eq!(cfg.colors_per_ramp, 9);
    assert_eq!(cfg.ramps_per_palette, 8);
    assert_cell(&cfg.base_color, 180_000, 870, 700);
    assert_eq!(
        cfg.saturation_deltas,
        vec![-170, -200, -110, -50, 0, -150, -150, -150, -150]
    );
    assert_eq!(
        cfg.brightness_deltas,
        vec![-140, -140, -160, -160, 0, 100, 100, 50, 50]
    );
    assert_eq!(cfg.hue_step_per_index, 20_000);
    assert_eq!(cfg.mirror_desaturation, 700);
}

/// Palette dimensions: `ramps_per_palette + 1` ramps, each of length
/// `2 * colors_per_ramp - 2`.
#[test]
fn palette_dimensions_default() {
    let p = default_palette();
    assert_eq!(p.num_ramps(), 9);
    assert_eq!(p.ramps.len(), 9);
    for ramp in &p.ramps {
        assert_eq!(ramp.len(), 16);
    }
}

/// Dimensions hold for a small configuration too.
#[test]
fn palette_dimensions_small() {
    let cfg = Config::new(
        color(90_000, 500, 500),
        5,
        3,
        vec![-100, -50, 0, 50, 100],
        vec![-80, -40, 0, 40, 80],
        20_000,
        700,
    )
    .unwrap();
    let p = generate(&cfg).unwrap();
    assert_eq!(p.ramps.len(), 4);
    for ramp in &p.ramps {
        assert_eq!(ramp.len(), 8);
    }
}

/// The grayscale ramp (row 0) has saturation zero at every cell, with
/// hue and value carried over from the mirrored base ramp.
#[test]
fn grayscale_ramp_fully_desaturated() {
    let p = default_palette();
    for c in &p.ramps[0] {
        assert_eq!(c.saturation(), 0);
    }
    assert_cell(&p.ramps[0][0], 100_000, 0, 100);
    assert_cell(&p.ramps[0][4], 180_000, 0, 700);
    assert_cell(&p.ramps[0][8], 260_000, 0, 1000);
}

/// The row at the base position (`ramps_per_palette / 2` within the
/// rotated group, row 5 of the default palette) is the mirrored base
/// ramp with no hue rotation: every cell has its exactly accumulated
/// and clamped channels.
#[test]
fn base_row_exact_cells() {
    let p = default_palette();
    let base_row = &p.ramps[5];
    let expected: [(u32, u32, u32); 16] = [
        (100_000, 340, 100),
        (120_000, 510, 240),
        (140_000, 710, 380),
        (160_000, 820, 540),
        (180_000, 870, 700),
        (200_000, 720, 800),
        (220_000, 570, 900),
        (240_000, 420, 950),
        (260_000, 270, 1000),
        (240_000, 0, 950),
        (220_000, 0, 900),
        (200_000, 20, 800),
        (180_000, 170, 700),
        (160_000, 120, 540),
        (140_000, 10, 380),
        (120_000, 0, 240),
    ];
    for (cell, (h, s, v)) in base_row.iter().zip(expected.iter()) {
        assert_cell(cell, *h, *s, *v);
    }
}

/// The middle cell of the base ramp is the base color unchanged.
#[test]
fn middle_cell_is_base_color() {
    let p = default_palette();
    assert_eq!(p.ramps[5][4], Color::new(180_000, 870, 700).unwrap());

    // With an odd ramp count the base row sits at the exact middle of
    // the rotated group: position 3 / 2 == 1, palette row 2.
    let cfg = Config::new(
        color(45_000, 600, 400),
        3,
        3,
        vec![-100, 0, 100],
        vec![-50, 0, 50],
        20_000,
        700,
    )
    .unwrap();
    let p2 = generate(&cfg).unwrap();
    assert_eq!(p2.ramps[2][1], cfg.base_color);
}

/// Mirror symmetry: cell `i` and cell `16 - i` of the mirrored base
/// ramp share hue and value, and the mirrored cell's saturation is the
/// source saturation lowered by 700 thousandths, floored at zero.
#[test]
fn mirror_symmetry() {
    let p = default_palette();
    let row = &p.ramps[5];
    let len = row.len();
    for i in 1..8 {
        let src = &row[i];
        let mirrored = &row[len - i];
        assert_eq!(mirrored.hue(), src.hue());
        assert_eq!(mirrored.value(), src.value());
        assert_eq!(mirrored.saturation(), src.saturation().saturating_sub(700));
    }
}

/// Hues always stay inside [0, 360) degrees; rotating past either end
/// of the circle wraps instead of overflowing.
#[test]
fn hue_wraps_into_range() {
    let c = color(350_000, 500, 500);
    assert_eq!(c.rotate_hue(20_000).hue(), 10_000);
    assert_eq!(c.rotate_hue(-360_000).hue(), 350_000);
    assert_eq!(c.rotate_hue(720_000).hue(), 350_000);
    assert_eq!(color(10_000, 500, 500).rotate_hue(-20_000).hue(), 350_000);

    let p = default_palette();
    for ramp in &p.ramps {
        for cell in ramp {
            assert!(cell.hue() < 360_000);
        }
    }
    // Row 1 is shifted by -180 degrees from the base row: its first
    // cell's hue 100 degrees wraps to 280 degrees.
    assert_eq!(p.ramps[1][0].hue(), 280_000);
    assert_eq!(p.ramps[1][0].saturation(), 340);
    // Row 6 is shifted by +45 degrees.
    assert_eq!(p.ramps[6][0].hue(), 145_000);
}

/// Generation is deterministic: the same configuration yields an
/// identical palette, cell for cell.
#[test]
fn generate_is_deterministic() {
    let first = generate(&Config::default()).unwrap();
    let second = generate(&Config::default()).unwrap();
    assert_eq!(first.ramps, second.ramps);
}

/// Saturation and value clamp silently at the ends of their range
/// instead of wrapping or failing.
#[test]
fn channels_clamp_at_bounds() {
    let c = color(0, 900, 100);
    assert_eq!(c.with_saturation_offset(500).saturation(), 1000);
    assert_eq!(c.with_saturation_offset(-2_000_000).saturation(), 0);
    assert_eq!(c.with_value_offset(2_000_000).value(), 1000);
    assert_eq!(c.with_value_offset(-150).value(), 0);
    assert_eq!(c.desaturate_by(950).saturation(), 0);
    assert_eq!(c.desaturate_by(300).saturation(), 600);
    assert_eq!(c.to_grayscale().saturation(), 0);
    assert_eq!(c.to_grayscale().hue(), 0);
    assert_eq!(c.to_grayscale().value(), 100);
}

/// An even `colors_per_ramp` is rejected with a configuration error,
/// not a crash.
#[test]
fn rejects_even_colors_per_ramp() {
    let r = Config::new(
        color(180_000, 870, 700),
        8,
        8,
        vec![-170, -200, -110, -50, 0, -150, -150, -150],
        vec![-140, -140, -160, -160, 0, 100, 100, 50],
        20_000,
        700,
    );
    assert_eq!(r.unwrap_err(), ConfigError::ColorsPerRampEven);
}

/// A delta table whose length does not match `colors_per_ramp` is
/// rejected with a configuration error, not a crash.
#[test]
fn rejects_wrong_delta_length() {
    let r = Config::new(
        color(180_000, 870, 700),
        9,
        8,
        vec![-170, -200, -110, 0, -150, -150, -150],
        vec![-140, -140, -160, -160, 0, 100, 100, 50, 50],
        20_000,
        700,
    );
    assert_eq!(r.unwrap_err(), ConfigError::SaturationDeltasWrongLength);

    let r2 = Config::new(
        color(180_000, 870, 700),
        9,
        8,
        vec![-170, -200, -110, -50, 0, -150, -150, -150, -150],
        vec![-140, -140, -160, 0, 100, 100, 50],
        20_000,
        700,
    );
    assert_eq!(r2.unwrap_err(), ConfigError::BrightnessDeltasWrongLength);
}

/// The remaining structural faults each surface as their own error.
#[test]
fn rejects_other_malformed_configs() {
    let base = color(180_000, 870, 700);
    assert_eq!(
        Config::new(base, 1, 8, vec![0], vec![0], 20_000, 700).unwrap_err(),
        ConfigError::ColorsPerRampTooSmall
    );
    assert_eq!(
        Config::new(base, 3, 0, vec![-10, 0, 10], vec![-10, 0, 10], 20_000, 700).unwrap_err(),
        ConfigError::RampsPerPaletteZero
    );
    assert_eq!(
        Config::new(base, 3, 8, vec![-10, 5, 10], vec![-10, 0, 10], 20_000, 700).unwrap_err(),
        ConfigError::SaturationDeltaAtMiddleNonzero
    );
    assert_eq!(
        Config::new(base, 3, 8, vec![-10, 0, 10], vec![-10, -5, 10], 20_000, 700).unwrap_err(),
        ConfigError::BrightnessDeltaAtMiddleNonzero
    );
}

/// `generate` itself validates: it reports the same fault instead of
/// indexing out of bounds.
#[test]
fn generate_rejects_invalid_config() {
    let mut cfg = Config::default();
    cfg.colors_per_ramp = 8;
    assert_eq!(generate(&cfg).unwrap_err(), ConfigError::ColorsPerRampEven);

    let mut cfg2 = Config::default();
    cfg2.saturation_deltas.pop();
    assert_eq!(
        generate(&cfg2).unwrap_err(),
        ConfigError::SaturationDeltasWrongLength
    );
}

/// The smallest ramp count: one rotated ramp beside the grayscale
/// ramp. It stands at the base position itself, so it is unrotated,
/// and out-of-range channels clamp at full scale.
#[test]
fn single_rotated_ramp() {
    let cfg = Config::new(
        color(300_000, 1000, 1000),
        3,
        1,
        vec![-500, 0, 500],
        vec![500, 0, -500],
        20_000,
        700,
    )
    .unwrap();
    let p = generate(&cfg).unwrap();
    assert_eq!(p.ramps.len(), 2);
    for ramp in &p.ramps {
        assert_eq!(ramp.len(), 4);
    }
    assert_cell(&p.ramps[1][0], 280_000, 500, 1000);
    assert_cell(&p.ramps[1][1], 300_000, 1000, 1000);
    assert_cell(&p.ramps[1][2], 320_000, 1000, 500);
    assert_cell(&p.ramps[1][3], 300_000, 300, 1000);
    assert_cell(&p.ramps[0][1], 300_000, 0, 1000);
}

/// Raw color channels outside their declared ranges are rejected on
/// construction.
#[test]
fn rejects_out_of_range_color() {
    assert_eq!(Color::new(360_000, 0, 0).unwrap_err(), ConfigError::HueOutOfRange);
    assert_eq!(Color::new(0, 1001, 0).unwrap_err(), ConfigError::SaturationOutOfRange);
    assert_eq!(Color::new(0, 0, 1001).unwrap_err(), ConfigError::ValueOutOfRange);
    assert_eq!(Color::new(359_999, 1000, 1000).is_ok(), true);
}
