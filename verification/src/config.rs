use vstd::prelude::*;

use crate::color::{Color, ColorModel};
use crate::error::ConfigError;

verus! {

/// Immutable input to palette generation.
///
/// Saturation and brightness deltas are signed offsets in thousandths of
/// full scale (10 units are one percentage point), one entry per ramp
/// index, zero at the middle index by convention. `hue_step_per_index`
/// is in thousandths of a degree; `mirror_desaturation` in thousandths
/// of full scale.
#[derive(Debug)]
pub struct Config {
    /// The color at the horizontal middle of the base ramp; it anchors
    /// the whole palette.
    pub base_color: Color,
    /// How many colors span light-to-dark before mirroring; odd, at
    /// least 3, so a single unambiguous middle index exists.
    pub colors_per_ramp: u8,
    /// How many hue-rotated ramps the palette holds (the grayscale ramp
    /// comes on top of these); at least 1.
    pub ramps_per_palette: u8,
    /// Per-index saturation offsets relative to the base color.
    pub saturation_deltas: Vec<i32>,
    /// Per-index value offsets relative to the base color.
    pub brightness_deltas: Vec<i32>,
    /// How far hue drifts per index away from the middle of a ramp.
    pub hue_step_per_index: u32,
    /// How much saturation the mirrored half of a ramp loses.
    pub mirror_desaturation: u32,
}

/// The middle index of a ramp with `colors_per_ramp` cells.
pub open spec fn mid_index(cfg: Config) -> int {
    cfg.colors_per_ramp as int / 2
}

/// A configuration the generator accepts: an odd ramp width of at least
/// 3, delta tables of exactly that length with zero middle entries, and
/// at least one rotated ramp.
pub open spec fn config_valid(cfg: Config) -> bool {
    &&& cfg.colors_per_ramp >= 3
    &&& cfg.colors_per_ramp as int % 2 == 1
    &&& cfg.saturation_deltas@.len() == cfg.colors_per_ramp as int
    &&& cfg.brightness_deltas@.len() == cfg.colors_per_ramp as int
    &&& cfg.saturation_deltas@[mid_index(cfg)] == 0
    &&& cfg.brightness_deltas@[mid_index(cfg)] == 0
    &&& cfg.ramps_per_palette >= 1
}

/// The first fault validation reports for a configuration, `None` when
/// the configuration is accepted. This fixes the order in which faults
/// are checked.
pub open spec fn first_config_fault(cfg: Config) -> Option<ConfigError> {
    if cfg.colors_per_ramp < 3 {
        Some(ConfigError::ColorsPerRampTooSmall)
    } else if cfg.colors_per_ramp as int % 2 == 0 {
        Some(ConfigError::ColorsPerRampEven)
    } else if cfg.saturation_deltas@.len() != cfg.colors_per_ramp as int {
        Some(ConfigError::SaturationDeltasWrongLength)
    } else if cfg.brightness_deltas@.len() != cfg.colors_per_ramp as int {
        Some(ConfigError::BrightnessDeltasWrongLength)
    } else if cfg.saturation_deltas@[mid_index(cfg)] != 0 {
        Some(ConfigError::SaturationDeltaAtMiddleNonzero)
    } else if cfg.brightness_deltas@[mid_index(cfg)] != 0 {
        Some(ConfigError::BrightnessDeltaAtMiddleNonzero)
    } else if cfg.ramps_per_palette == 0 {
        Some(ConfigError::RampsPerPaletteZero)
    } else {
        None
    }
}

/// Validation accepts a configuration exactly when it is valid.
pub proof fn lemma_fault_free_is_valid(cfg: Config)
    ensures
        first_config_fault(cfg) is None <==> config_valid(cfg),
{
}

impl Config {
    /// Checks every structural requirement eagerly, reporting the first
    /// fault instead of letting generation fail midway.
    pub fn validate(&self) -> (r: Result<(), ConfigError>)
        ensures
            r is Ok <==> config_valid(*self),
            r is Ok <==> first_config_fault(*self) is None,
            r is Err ==> Some(r->Err_0) == first_config_fault(*self),
    {
        if self.colors_per_ramp < 3 {
            return Err(ConfigError::ColorsPerRampTooSmall);
        }
        if self.colors_per_ramp % 2 == 0 {
            return Err(ConfigError::ColorsPerRampEven);
        }
        let n: usize = self.colors_per_ramp as usize;
        if self.saturation_deltas.len() != n {
            return Err(ConfigError::SaturationDeltasWrongLength);
        }
        if self.brightness_deltas.len() != n {
            return Err(ConfigError::BrightnessDeltasWrongLength);
        }
        let m: usize = n / 2;
        if self.saturation_deltas[m] != 0 {
            return Err(ConfigError::SaturationDeltaAtMiddleNonzero);
        }
        if self.brightness_deltas[m] != 0 {
            return Err(ConfigError::BrightnessDeltaAtMiddleNonzero);
        }
        if self.ramps_per_palette == 0 {
            return Err(ConfigError::RampsPerPaletteZero);
        }
        Ok(())
    }

    /// Assembles a configuration and validates it eagerly: the result
    /// is the assembled configuration exactly when it is valid, and the
    /// first fault otherwise.
    pub fn new(
        base_color: Color,
        colors_per_ramp: u8,
        ramps_per_palette: u8,
        saturation_deltas: Vec<i32>,
        brightness_deltas: Vec<i32>,
        hue_step_per_index: u32,
        mirror_desaturation: u32,
    ) -> (r: Result<Config, ConfigError>)
        ensures
            ({
                let assembled = Config {
                    base_color,
                    colors_per_ramp,
                    ramps_per_palette,
                    saturation_deltas,
                    brightness_deltas,
                    hue_step_per_index,
                    mirror_desaturation,
                };
                match r {
                    Ok(cfg) => config_valid(assembled) && cfg == assembled,
                    Err(e) => Some(e) == first_config_fault(assembled),
                }
            }),
    {
        let cfg = Config {
            base_color,
            colors_per_ramp,
            ramps_per_palette,
            saturation_deltas,
            brightness_deltas,
            hue_step_per_index,
            mirror_desaturation,
        };
        match cfg.validate() {
            Ok(()) => Ok(cfg),
            Err(e) => Err(e),
        }
    }
}

impl Default for Config {
    /// The stock configuration: a teal base color at HSV
    /// (180 degrees, 0.87, 0.70), nine colors per ramp, eight rotated
    /// ramps, the stock delta tables, a 20 degree hue step and a 70
    /// point mirror desaturation.
    fn default() -> (r: Config)
        ensures
            config_valid(r),
            r.base_color.wf(),
            r.base_color@ == (ColorModel { hue: 180_000int, sat: 870int, val: 700int }),
            r.colors_per_ramp == 9,
            r.ramps_per_palette == 8,
            r.saturation_deltas@ == seq![-170i32, -200i32, -110i32, -50i32, 0i32, -150i32, -150i32, -150i32, -150i32],
            r.brightness_deltas@ == seq![-140i32, -140i32, -160i32, -160i32, 0i32, 100i32, 100i32, 50i32, 50i32],
            r.hue_step_per_index == 20_000,
            r.mirror_desaturation == 700,
    {
        let base_color = match Color::new(180_000, 870, 700) {
            Ok(c) => c,
            Err(_) => vstd::pervasive::unreached(),
        };
        let mut saturation_deltas: Vec<i32> = Vec::new();
        saturation_deltas.push(-170);
        saturation_deltas.push(-200);
        saturation_deltas.push(-110);
        saturation_deltas.push(-50);
        saturation_deltas.push(0);
        saturation_deltas.push(-150);
        saturation_deltas.push(-150);
        saturation_deltas.push(-150);
        saturation_deltas.push(-150);
        let mut brightness_deltas: Vec<i32> = Vec::new();
        brightness_deltas.push(-140);
        brightness_deltas.push(-140);
        brightness_deltas.push(-160);
        brightness_deltas.push(-160);
        brightness_deltas.push(0);
        brightness_deltas.push(100);
        brightness_deltas.push(100);
        brightness_deltas.push(50);
        brightness_deltas.push(50);
        proof {
            assert(saturation_deltas@ =~= seq![-170i32, -200i32, -110i32, -50i32, 0i32, -150i32, -150i32, -150i32, -150i32]);
            assert(brightness_deltas@ =~= seq![-140i32, -140i32, -160i32, -160i32, 0i32, 100i32, 100i32, 50i32, 50i32]);
        }
        Config {
            base_color,
            colors_per_ramp: 9,
            ramps_per_palette: 8,
            saturation_deltas,
            brightness_deltas,
            hue_step_per_index: 20_000,
            mirror_desaturation: 700,
        }
    }
}

} // verus!
