use vstd::prelude::*;

verus! {

/// Why a palette configuration, or a raw color, was rejected.
///
/// Validation is eager: a malformed input is reported before any
/// generation work begins, instead of failing mid-computation.
#[derive(Clone, Copy, Debug, PartialEq, Eq, Structural)]
pub enum ConfigError {
    /// `colors_per_ramp` is below the minimum of 3.
    ColorsPerRampTooSmall,
    /// `colors_per_ramp` is even, so no single middle cell exists.
    ColorsPerRampEven,
    /// `saturation_deltas` does not hold exactly `colors_per_ramp` entries.
    SaturationDeltasWrongLength,
    /// `brightness_deltas` does not hold exactly `colors_per_ramp` entries.
    BrightnessDeltasWrongLength,
    /// The saturation delta at the middle index is not zero.
    SaturationDeltaAtMiddleNonzero,
    /// The brightness delta at the middle index is not zero.
    BrightnessDeltaAtMiddleNonzero,
    /// `ramps_per_palette` is zero; at least one rotated ramp is required.
    RampsPerPaletteZero,
    /// A raw hue lies outside `[0, 360000)` thousandths of a degree.
    HueOutOfRange,
    /// A raw saturation lies outside `[0, 1000]` thousandths.
    SaturationOutOfRange,
    /// A raw value (brightness) lies outside `[0, 1000]` thousandths.
    ValueOutOfRange,
}

} // verus!
