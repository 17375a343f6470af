use vstd::prelude::*;
use vstd::arithmetic::div_mod::{
    lemma_add_mod_noop_right, lemma_mod_bound, lemma_mod_multiples_vanish,
    lemma_mod_sub_multiples_vanish, lemma_small_mod,
};

use crate::error::ConfigError;

verus! {

/// One full hue turn (360 degrees) in thousandths of a degree.
pub const HUE_FULL_TURN: u32 = 360_000;

/// Full scale (1.0) for saturation and value, in thousandths.
pub const CHANNEL_MAX: u32 = 1000;

/// A nonnegative multiple of `HUE_FULL_TURN` that is at least `2^63`.
/// Adding it to any `i64` hue shift lifts the shift into nonnegative
/// range without changing its remainder modulo a full turn.
pub const HUE_LIFT: i128 = 25_620_477_880_153 * 360_000;

/// The mathematical value of a color: hue in thousandths of a degree,
/// saturation and value in thousandths of full scale.
pub struct ColorModel {
    pub hue: int,
    pub sat: int,
    pub val: int,
}

/// A hue angle reduced into `[0, HUE_FULL_TURN)` (Euclidean remainder).
pub open spec fn wrap_hue(h: int) -> int {
    h % (HUE_FULL_TURN as int)
}

/// A saturation or value channel clamped into `[0, CHANNEL_MAX]`.
pub open spec fn clamp_channel(x: int) -> int {
    if x < 0 {
        0
    } else if x > CHANNEL_MAX as int {
        CHANNEL_MAX as int
    } else {
        x
    }
}

/// Channel ranges every well-formed color satisfies.
pub open spec fn color_wf(c: ColorModel) -> bool {
    &&& 0 <= c.hue < HUE_FULL_TURN as int
    &&& 0 <= c.sat <= CHANNEL_MAX as int
    &&& 0 <= c.val <= CHANNEL_MAX as int
}

/// The color with its hue rotated by `shift`, wrapped into one turn.
pub open spec fn rotated(c: ColorModel, shift: int) -> ColorModel {
    ColorModel { hue: wrap_hue(c.hue + shift), sat: c.sat, val: c.val }
}

/// The color with `delta` added to its saturation, clamped.
pub open spec fn sat_shifted(c: ColorModel, delta: int) -> ColorModel {
    ColorModel { hue: c.hue, sat: clamp_channel(c.sat + delta), val: c.val }
}

/// The color with `delta` added to its value, clamped.
pub open spec fn val_shifted(c: ColorModel, delta: int) -> ColorModel {
    ColorModel { hue: c.hue, sat: c.sat, val: clamp_channel(c.val + delta) }
}

/// The color with its saturation lowered by `amount`, floored at zero.
pub open spec fn desaturated(c: ColorModel, amount: int) -> ColorModel {
    ColorModel {
        hue: c.hue,
        sat: if c.sat - amount < 0 { 0 } else { c.sat - amount },
        val: c.val,
    }
}

/// The color with its saturation removed entirely.
pub open spec fn grayed(c: ColorModel) -> ColorModel {
    ColorModel { hue: c.hue, sat: 0, val: c.val }
}

/// An immutable HSV color in fixed-point form: hue in thousandths of a
/// degree within `[0, 360000)`, saturation and value in thousandths of
/// full scale within `[0, 1000]`. Every transform returns a new color.
#[derive(Clone, Copy, Debug, PartialEq, Eq, Structural)]
pub struct Color {
    hue: u32,
    sat: u32,
    val: u32,
}

impl View for Color {
    type V = ColorModel;

    closed spec fn view(&self) -> ColorModel {
        ColorModel { hue: self.hue as int, sat: self.sat as int, val: self.val as int }
    }
}

impl Color {
    /// The channel ranges hold; every constructor establishes this and
    /// every transform preserves it.
    pub open spec fn wf(&self) -> bool {
        color_wf(self@)
    }

    /// Builds a color from raw channels, rejecting out-of-range input.
    /// Hue is in thousandths of a degree, saturation and value in
    /// thousandths of full scale.
    pub fn new(hue: u32, sat: u32, val: u32) -> (r: Result<Color, ConfigError>)
        ensures
            r is Ok <==> (hue < HUE_FULL_TURN && sat <= CHANNEL_MAX && val <= CHANNEL_MAX),
            r is Ok ==> r->Ok_0.wf() && r->Ok_0@ == (ColorModel {
                hue: hue as int,
                sat: sat as int,
                val: val as int,
            }),
            hue >= HUE_FULL_TURN ==> r == Err::<Color, ConfigError>(ConfigError::HueOutOfRange),
            hue < HUE_FULL_TURN && sat > CHANNEL_MAX ==> r == Err::<Color, ConfigError>(
                ConfigError::SaturationOutOfRange,
            ),
            hue < HUE_FULL_TURN && sat <= CHANNEL_MAX && val > CHANNEL_MAX ==> r == Err::<
                Color,
                ConfigError,
            >(ConfigError::ValueOutOfRange),
    {
        if hue >= HUE_FULL_TURN {
            Err(ConfigError::HueOutOfRange)
        } else if sat > CHANNEL_MAX {
            Err(ConfigError::SaturationOutOfRange)
        } else if val > CHANNEL_MAX {
            Err(ConfigError::ValueOutOfRange)
        } else {
            Ok(Color { hue, sat, val })
        }
    }

    /// The hue channel, in thousandths of a degree.
    pub fn hue(&self) -> (r: u32)
        ensures
            r as int == self@.hue,
    {
        self.hue
    }

    /// The saturation channel, in thousandths of full scale.
    pub fn saturation(&self) -> (r: u32)
        ensures
            r as int == self@.sat,
    {
        self.sat
    }

    /// The value (brightness) channel, in thousandths of full scale.
    pub fn value(&self) -> (r: u32)
        ensures
            r as int == self@.val,
    {
        self.val
    }

    /// Rotates the hue by a signed shift in thousandths of a degree,
    /// wrapping the result into `[0, 360000)`.
    pub fn rotate_hue(&self, shift: i64) -> (r: Color)
        requires
            self.wf(),
        ensures
            r.wf(),
            r@ == rotated(self@, shift as int),
    {
        let turn: u128 = HUE_FULL_TURN as u128;
        let lifted: i128 = shift as i128 + HUE_LIFT;
        let rem: u128 = (lifted as u128) % turn;
        proof {
            lemma_mod_multiples_vanish(25_620_477_880_153int, shift as int, HUE_FULL_TURN as int);
            lemma_mod_bound(lifted as int, HUE_FULL_TURN as int);
            assert(rem as int == wrap_hue(shift as int));
        }
        let h: u128 = self.hue as u128 + rem;
        let wrapped: u128 = if h >= turn {
            h - turn
        } else {
            h
        };
        proof {
            lemma_add_mod_noop_right(self@.hue, shift as int, HUE_FULL_TURN as int);
            if h >= turn {
                lemma_mod_sub_multiples_vanish(h as int, HUE_FULL_TURN as int);
                lemma_small_mod((h - turn) as nat, HUE_FULL_TURN as nat);
            } else {
                lemma_small_mod(h as nat, HUE_FULL_TURN as nat);
            }
            assert(wrapped as int == wrap_hue(self@.hue + shift as int));
        }
        Color { hue: wrapped as u32, sat: self.sat, val: self.val }
    }

    /// Adds a signed offset (thousandths of full scale) to the
    /// saturation, clamping the result into `[0, 1000]`.
    pub fn with_saturation_offset(&self, delta: i64) -> (r: Color)
        requires
            self.wf(),
        ensures
            r.wf(),
            r@ == sat_shifted(self@, delta as int),
    {
        let cap: i64 = CHANNEL_MAX as i64;
        let new_sat: i64 = if delta > cap {
            cap
        } else if delta < -cap {
            0
        } else {
            let s: i64 = self.sat as i64 + delta;
            if s < 0 {
                0
            } else if s > cap {
                cap
            } else {
                s
            }
        };
        Color { hue: self.hue, sat: new_sat as u32, val: self.val }
    }

    /// Adds a signed offset (thousandths of full scale) to the value,
    /// clamping the result into `[0, 1000]`.
    pub fn with_value_offset(&self, delta: i64) -> (r: Color)
        requires
            self.wf(),
        ensures
            r.wf(),
            r@ == val_shifted(self@, delta as int),
    {
        let cap: i64 = CHANNEL_MAX as i64;
        let new_val: i64 = if delta > cap {
            cap
        } else if delta < -cap {
            0
        } else {
            let v: i64 = self.val as i64 + delta;
            if v < 0 {
                0
            } else if v > cap {
                cap
            } else {
                v
            }
        };
        Color { hue: self.hue, sat: self.sat, val: new_val as u32 }
    }

    /// Lowers the saturation by `amount` (thousandths of full scale),
    /// flooring the result at zero.
    pub fn desaturate_by(&self, amount: u32) -> (r: Color)
        requires
            self.wf(),
        ensures
            r.wf(),
            r@ == desaturated(self@, amount as int),
    {
        let sat: u32 = if self.sat >= amount {
            self.sat - amount
        } else {
            0
        };
        Color { hue: self.hue, sat, val: self.val }
    }

    /// The same hue and value with the saturation removed entirely.
    pub fn to_grayscale(&self) -> (r: Color)
        requires
            self.wf(),
        ensures
            r.wf(),
            r@ == grayed(self@),
    {
        Color { hue: self.hue, sat: 0, val: self.val }
    }
}

/// A wrapped hue always lies within one turn.
pub proof fn lemma_wrap_hue_range(h: int)
    ensures
        0 <= wrap_hue(h) < HUE_FULL_TURN as int,
{
    lemma_mod_bound(h, HUE_FULL_TURN as int);
}

/// Wrapping leaves a hue that is already within one turn unchanged.
pub proof fn lemma_wrap_hue_identity(h: int)
    requires
        0 <= h < HUE_FULL_TURN as int,
    ensures
        wrap_hue(h) == h,
{
    lemma_small_mod(h as nat, HUE_FULL_TURN as nat);
}

} // verus!
