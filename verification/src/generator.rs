use vstd::prelude::*;

use crate::color::{
    clamp_channel, color_wf, desaturated, grayed, lemma_wrap_hue_identity, lemma_wrap_hue_range,
    rotated, sat_shifted, val_shifted, Color, ColorModel, HUE_FULL_TURN,
};
use crate::config::{config_valid, first_config_fault, mid_index, Config};
use crate::error::ConfigError;

verus! {

/// Cumulative delta for an index below the middle: the sum of the
/// deltas from that index up to (excluding) the middle, accumulated
/// walking from the middle downward.
pub open spec fn cum_below(deltas: Seq<i32>, m: int, i: int) -> int
    decreases m - i,
{
    if i >= m {
        0
    } else {
        cum_below(deltas, m, i + 1) + deltas[i]
    }
}

/// Cumulative delta for an index above the middle: the sum of the
/// deltas from just past the middle up to that index, accumulated
/// walking from the middle upward.
pub open spec fn cum_above(deltas: Seq<i32>, m: int, i: int) -> int
    decreases i - m,
{
    if i <= m {
        0
    } else {
        cum_above(deltas, m, i - 1) + deltas[i]
    }
}

/// Cumulative delta at index `i` relative to the middle index `m`:
/// zero at the middle itself.
pub open spec fn cum_offset(deltas: Seq<i32>, m: int, i: int) -> int {
    if i < m {
        cum_below(deltas, m, i)
    } else {
        cum_above(deltas, m, i)
    }
}

/// Signed hue drift at index `i` of the base ramp: one hue step per
/// index away from the middle, negative below it.
pub open spec fn hue_offset(cfg: Config, i: int) -> int {
    (i - mid_index(cfg)) * cfg.hue_step_per_index as int
}

/// Cell `i` of the base ramp: the base color rotated by the cumulative
/// hue drift, then saturation-shifted, then value-shifted, each clamped.
pub open spec fn base_ramp_cell(cfg: Config, i: int) -> ColorModel {
    val_shifted(
        sat_shifted(
            rotated(cfg.base_color@, hue_offset(cfg, i)),
            cum_offset(cfg.saturation_deltas@, mid_index(cfg), i),
        ),
        cum_offset(cfg.brightness_deltas@, mid_index(cfg), i),
    )
}

/// Length of the mirrored base ramp: the interior of the base ramp is
/// appended in reverse, endpoints excluded.
pub open spec fn mirrored_len(cfg: Config) -> int {
    2 * cfg.colors_per_ramp as int - 2
}

/// Cell `i` of the mirrored base ramp: the base ramp itself, followed
/// by its desaturated interior in reverse order.
pub open spec fn mirrored_cell(cfg: Config, i: int) -> ColorModel {
    if i < cfg.colors_per_ramp as int {
        base_ramp_cell(cfg, i)
    } else {
        desaturated(base_ramp_cell(cfg, mirrored_len(cfg) - i), cfg.mirror_desaturation as int)
    }
}

/// The mirrored base ramp as a sequence.
pub open spec fn mirrored_ramp(cfg: Config) -> Seq<ColorModel> {
    Seq::new(mirrored_len(cfg) as nat, |i: int| mirrored_cell(cfg, i))
}

/// Where the unrotated base ramp sits among the rotated ramps. With an
/// even ramp count this is the top of the lower half, not the exact
/// middle; that placement is deliberate.
pub open spec fn base_ramp_position(cfg: Config) -> int {
    cfg.ramps_per_palette as int / 2
}

/// Hue distance between neighbouring ramps: a full turn divided evenly
/// (rounding down) over the rotated ramps.
pub open spec fn hue_shift_per_ramp(cfg: Config) -> int {
    HUE_FULL_TURN as int / cfg.ramps_per_palette as int
}

/// Signed hue shift of rotated ramp `r`: one per-ramp step for each
/// position away from the base ramp, negative above it.
pub open spec fn ramp_hue_shift(cfg: Config, r: int) -> int {
    (r - base_ramp_position(cfg)) * hue_shift_per_ramp(cfg)
}

/// Cell `j` of palette row `r`: the grayscale ramp first, then each
/// rotated copy of the mirrored base ramp.
pub open spec fn palette_cell(cfg: Config, r: int, j: int) -> ColorModel {
    if r == 0 {
        grayed(mirrored_cell(cfg, j))
    } else {
        rotated(mirrored_cell(cfg, j), ramp_hue_shift(cfg, r - 1))
    }
}

/// The whole palette: `ramps_per_palette + 1` rows of `2*colors_per_ramp - 2`
/// cells each.
pub open spec fn palette_model(cfg: Config) -> Seq<Seq<ColorModel>> {
    Seq::new(
        (cfg.ramps_per_palette + 1) as nat,
        |r: int| Seq::new(mirrored_len(cfg) as nat, |j: int| palette_cell(cfg, r, j)),
    )
}

/// An ordered grid of color ramps: one grayscale ramp followed by the
/// hue-rotated ramps, freshly allocated and independent of the
/// configuration it came from.
#[derive(Debug)]
pub struct Palette {
    /// The rows of the grid, outer top-to-bottom, inner left-to-right.
    pub ramps: Vec<Vec<Color>>,
}

impl View for Palette {
    type V = Seq<Seq<ColorModel>>;

    open spec fn view(&self) -> Seq<Seq<ColorModel>> {
        Seq::new(
            self.ramps@.len(),
            |r: int| Seq::new(self.ramps@[r]@.len(), |j: int| self.ramps@[r]@[j]@),
        )
    }
}

impl Palette {
    /// How many ramps the palette holds.
    pub fn num_ramps(&self) -> (r: usize)
        ensures
            r == self@.len(),
    {
        self.ramps.len()
    }
}

/// A fresh copy of a ramp with every color's hue rotated by `shift`.
fn rotate_ramp(ramp: &Vec<Color>, shift: i64) -> (r: Vec<Color>)
    requires
        forall|j: int| 0 <= j < ramp@.len() ==> (#[trigger] ramp@[j]).wf(),
    ensures
        r@.len() == ramp@.len(),
        forall|j: int| 0 <= j < r@.len() ==> (#[trigger] r@[j])@ == rotated(
            ramp@[j]@,
            shift as int,
        ) && r@[j].wf(),
{
    let mut out: Vec<Color> = Vec::new();
    let mut j: usize = 0;
    while j < ramp.len()
        invariant
            j <= ramp@.len(),
            out@.len() == j,
            forall|k: int| 0 <= k < ramp@.len() ==> (#[trigger] ramp@[k]).wf(),
            forall|k: int| 0 <= k < j ==> (#[trigger] out@[k])@ == rotated(
                ramp@[k]@,
                shift as int,
            ) && out@[k].wf(),
        decreases ramp@.len() - j,
    {
        let c = ramp[j].rotate_hue(shift);
        out.push(c);
        j += 1;
    }
    out
}

/// Generates the palette for a configuration: validates eagerly, then
/// builds the base ramp from cumulative deltas, mirrors its interior,
/// derives the grayscale ramp, and fills the grid with hue-rotated
/// copies. Pure and deterministic: the result is pinned cell by cell
/// to `palette_model`.
pub fn generate(cfg: &Config) -> (r: Result<Palette, ConfigError>)
    requires
        cfg.base_color.wf(),
    ensures
        r is Ok <==> config_valid(*cfg),
        r is Ok ==> r->Ok_0@ == palette_model(*cfg),
        r is Err ==> Some(r->Err_0) == first_config_fault(*cfg),
{
    if let Err(e) = cfg.validate() {
        return Err(e);
    }
    let n: usize = cfg.colors_per_ramp as usize;
    let m: usize = n / 2;
    let ghost sd = cfg.saturation_deltas@;
    let ghost bd = cfg.brightness_deltas@;

    // Cumulative saturation and brightness offsets around the middle index.
    let mut sat_off: Vec<i64> = Vec::new();
    let mut bri_off: Vec<i64> = Vec::new();
    let mut k: usize = 0;
    while k < n
        invariant
            k <= n,
            sat_off@.len() == k,
            bri_off@.len() == k,
            forall|j: int| 0 <= j < k ==> sat_off@[j] == 0 && bri_off@[j] == 0,
        decreases n - k,
    {
        sat_off.push(0);
        bri_off.push(0);
        k += 1;
    }

    // Walk from the middle downward, accumulating each delta.
    let mut i: usize = m;
    while i > 0
        invariant
            i <= m,
            3 <= n <= 255,
            m == n / 2,
            sat_off@.len() == n,
            bri_off@.len() == n,
            sd.len() == n,
            bd.len() == n,
            sd == cfg.saturation_deltas@,
            bd == cfg.brightness_deltas@,
            forall|j: int| i <= j <= m ==> sat_off@[j] == cum_offset(sd, m as int, j),
            forall|j: int| i <= j <= m ==> bri_off@[j] == cum_offset(bd, m as int, j),
            forall|j: int| i <= j <= m ==> -((m - j) * 0x8000_0000) <= #[trigger] sat_off@[j]
                <= (m - j) * 0x8000_0000,
            forall|j: int| i <= j <= m ==> -((m - j) * 0x8000_0000) <= #[trigger] bri_off@[j]
                <= (m - j) * 0x8000_0000,
        decreases i,
    {
        let idx = i - 1;
        let s: i64 = sat_off[i] + cfg.saturation_deltas[idx] as i64;
        let b: i64 = bri_off[i] + cfg.brightness_deltas[idx] as i64;
        sat_off[idx] = s;
        bri_off[idx] = b;
        proof {
            assert(cum_offset(sd, m as int, idx as int) == cum_below(sd, m as int, idx as int));
            assert(cum_below(sd, m as int, idx as int) == cum_below(sd, m as int, idx as int + 1)
                + sd[idx as int]);
            assert(cum_offset(bd, m as int, idx as int) == cum_below(bd, m as int, idx as int));
            assert(cum_below(bd, m as int, idx as int) == cum_below(bd, m as int, idx as int + 1)
                + bd[idx as int]);
            if idx + 1 < m {
                assert(cum_below(sd, m as int, idx as int + 1) == cum_offset(sd, m as int, idx as int + 1));
                assert(cum_below(bd, m as int, idx as int + 1) == cum_offset(bd, m as int, idx as int + 1));
            } else {
                assert(cum_below(sd, m as int, m as int) == 0);
                assert(cum_below(bd, m as int, m as int) == 0);
                assert(cum_offset(sd, m as int, m as int) == cum_above(sd, m as int, m as int));
            }
        }
        i = idx;
    }

    // Walk from the middle upward, accumulating each delta.
    let mut u: usize = m + 1;
    while u < n
        invariant
            m + 1 <= u <= n,
            3 <= n <= 255,
            m == n / 2,
            sat_off@.len() == n,
            bri_off@.len() == n,
            sd.len() == n,
            bd.len() == n,
            sd == cfg.saturation_deltas@,
            bd == cfg.brightness_deltas@,
            forall|j: int| 0 <= j <= m ==> sat_off@[j] == cum_offset(sd, m as int, j),
            forall|j: int| 0 <= j <= m ==> bri_off@[j] == cum_offset(bd, m as int, j),
            forall|j: int| m < j < u ==> sat_off@[j] == cum_offset(sd, m as int, j),
            forall|j: int| m < j < u ==> bri_off@[j] == cum_offset(bd, m as int, j),
            forall|j: int| 0 <= j <= m ==> -((m - j) * 0x8000_0000) <= #[trigger] sat_off@[j]
                <= (m - j) * 0x8000_0000,
            forall|j: int| 0 <= j <= m ==> -((m - j) * 0x8000_0000) <= #[trigger] bri_off@[j]
                <= (m - j) * 0x8000_0000,
            forall|j: int| m < j < u ==> -((j - m) * 0x8000_0000) <= #[trigger] sat_off@[j]
                <= (j - m) * 0x8000_0000,
            forall|j: int| m < j < u ==> -((j - m) * 0x8000_0000) <= #[trigger] bri_off@[j]
                <= (j - m) * 0x8000_0000,
        decreases n - u,
    {
        let s: i64 = sat_off[u - 1] + cfg.saturation_deltas[u] as i64;
        let b: i64 = bri_off[u - 1] + cfg.brightness_deltas[u] as i64;
        sat_off[u] = s;
        bri_off[u] = b;
        proof {
            assert(cum_offset(sd, m as int, u as int) == cum_above(sd, m as int, u as int));
            assert(cum_above(sd, m as int, u as int) == cum_above(sd, m as int, u as int - 1)
                + sd[u as int]);
            assert(cum_offset(bd, m as int, u as int) == cum_above(bd, m as int, u as int));
            assert(cum_above(bd, m as int, u as int) == cum_above(bd, m as int, u as int - 1)
                + bd[u as int]);
            if u - 1 > m {
                assert(cum_above(sd, m as int, u as int - 1) == cum_offset(sd, m as int, u as int - 1));
                assert(cum_above(bd, m as int, u as int - 1) == cum_offset(bd, m as int, u as int - 1));
            } else {
                assert(cum_above(sd, m as int, m as int) == 0);
                assert(cum_above(bd, m as int, m as int) == 0);
            }
        }
        u += 1;
    }

    // Base ramp: transform the base color cell by cell.
    let step: i64 = cfg.hue_step_per_index as i64;
    let mut base: Vec<Color> = Vec::new();
    let mut bi: usize = 0;
    while bi < n
        invariant
            bi <= n,
            3 <= n <= 255,
            m == n / 2,
            n == cfg.colors_per_ramp as int,
            m as int == mid_index(*cfg),
            cfg.base_color.wf(),
            step == cfg.hue_step_per_index as int,
            0 <= step <= 0xFFFF_FFFFi64,
            sat_off@.len() == n,
            bri_off@.len() == n,
            forall|j: int| 0 <= j < n ==> sat_off@[j] == cum_offset(
                cfg.saturation_deltas@,
                m as int,
                j,
            ),
            forall|j: int| 0 <= j < n ==> bri_off@[j] == cum_offset(
                cfg.brightness_deltas@,
                m as int,
                j,
            ),
            base@.len() == bi,
            forall|j: int| 0 <= j < bi ==> (#[trigger] base@[j])@ == base_ramp_cell(*cfg, j)
                && base@[j].wf(),
        decreases n - bi,
    {
        let diff: i64 = bi as i64 - m as i64;
        proof {
            assert(-(256i64 * 0x1_0000_0000i64) <= diff * step <= 256i64 * 0x1_0000_0000i64)
                by (nonlinear_arith)
                requires
                    -256 <= diff <= 256,
                    0 <= step <= 0xFFFF_FFFFi64,
            ;
        }
        let shift: i64 = diff * step;
        let c = cfg
            .base_color
            .rotate_hue(shift)
            .with_saturation_offset(sat_off[bi])
            .with_value_offset(bri_off[bi]);
        base.push(c);
        bi += 1;
    }

    // Mirror: append the desaturated interior of the base ramp in
    // reverse order, endpoints excluded.
    let mut mi: usize = n - 2;
    while mi > 0
        invariant
            mi <= n - 2,
            3 <= n <= 255,
            base@.len() == n + (n - 2 - mi),
            forall|j: int| 0 <= j < n ==> (#[trigger] base@[j])@ == base_ramp_cell(*cfg, j)
                && base@[j].wf(),
            forall|j: int| n <= j < base@.len() ==> (#[trigger] base@[j])@ == mirrored_cell(*cfg, j)
                && base@[j].wf(),
            n == cfg.colors_per_ramp as int,
        decreases mi,
    {
        let c = base[mi].desaturate_by(cfg.mirror_desaturation);
        base.push(c);
        mi -= 1;
    }
    proof {
        assert(base@.len() == mirrored_len(*cfg));
        assert(forall|j: int| 0 <= j < n ==> (#[trigger] base@[j])@ == mirrored_cell(*cfg, j));
    }

    // Grayscale ramp: the mirrored ramp with saturation removed.
    let mirror_count: usize = base.len();
    let mut gray: Vec<Color> = Vec::new();
    let mut gi: usize = 0;
    while gi < mirror_count
        invariant
            gi <= mirror_count,
            mirror_count == base@.len(),
            base@.len() == mirrored_len(*cfg),
            forall|j: int| 0 <= j < base@.len() ==> (#[trigger] base@[j])@ == mirrored_cell(
                *cfg,
                j,
            ) && base@[j].wf(),
            gray@.len() == gi,
            forall|j: int| 0 <= j < gi ==> (#[trigger] gray@[j])@ == grayed(mirrored_cell(*cfg, j))
                && gray@[j].wf(),
        decreases mirror_count - gi,
    {
        let c = base[gi].to_grayscale();
        gray.push(c);
        gi += 1;
    }

    // Assemble the grid: grayscale first, then each rotated copy.
    let rpp: usize = cfg.ramps_per_palette as usize;
    let base_pos: usize = rpp / 2;
    let shift_unit: i64 = (HUE_FULL_TURN / cfg.ramps_per_palette as u32) as i64;
    let mut ramps: Vec<Vec<Color>> = Vec::new();
    ramps.push(gray);
    let mut r: usize = 0;
    while r < rpp
        invariant
            r <= rpp,
            1 <= rpp <= 255,
            rpp == cfg.ramps_per_palette as int,
            base_pos == base_ramp_position(*cfg),
            shift_unit == hue_shift_per_ramp(*cfg),
            0 <= shift_unit <= HUE_FULL_TURN as int,
            base@.len() == mirrored_len(*cfg),
            forall|j: int| 0 <= j < base@.len() ==> (#[trigger] base@[j])@ == mirrored_cell(
                *cfg,
                j,
            ) && base@[j].wf(),
            ramps@.len() == r + 1,
            ramps@[0]@.len() == mirrored_len(*cfg),
            forall|j: int| 0 <= j < mirrored_len(*cfg) ==> (#[trigger] ramps@[0]@[j])@ == grayed(
                mirrored_cell(*cfg, j),
            ),
            forall|q: int| 1 <= q <= r ==> (#[trigger] ramps@[q])@.len() == mirrored_len(*cfg),
            forall|q: int, j: int|
                1 <= q <= r && 0 <= j < mirrored_len(*cfg) ==> (#[trigger] ramps@[q]@[j])@
                    == rotated(mirrored_cell(*cfg, j), ramp_hue_shift(*cfg, q - 1)),
        decreases rpp - r,
    {
        let diff: i64 = r as i64 - base_pos as i64;
        proof {
            assert(-(256i64 * 360_000i64) <= diff * shift_unit <= 256i64 * 360_000i64)
                by (nonlinear_arith)
                requires
                    -256 <= diff <= 256,
                    0 <= shift_unit <= 360_000i64,
            ;
        }
        let shift: i64 = diff * shift_unit;
        let ramp = rotate_ramp(&base, shift);
        ramps.push(ramp);
        r += 1;
    }

    let p = Palette { ramps };
    proof {
        assert(p@.len() == palette_model(*cfg).len());
        assert forall|q: int| 0 <= q < p@.len() implies p@[q] =~= palette_model(*cfg)[q] by {
            assert(p.ramps@[q]@.len() == mirrored_len(*cfg));
        }
        assert(p@ =~~= palette_model(*cfg));
    }
    Ok(p)
}

/// Law: a palette holds `ramps_per_palette + 1` ramps, and every ramp
/// holds `2 * colors_per_ramp - 2` colors.
pub proof fn lemma_palette_dimensions(cfg: Config)
    requires
        config_valid(cfg),
    ensures
        palette_model(cfg).len() == cfg.ramps_per_palette as int + 1,
        forall|r: int| 0 <= r < palette_model(cfg).len() ==> (#[trigger] palette_model(cfg)[r]).len()
            == 2 * cfg.colors_per_ramp as int - 2,
{
}

/// Law: every cell of the grayscale ramp (row zero) has saturation
/// zero, whatever the configuration.
pub proof fn lemma_grayscale_ramp_desaturated(cfg: Config)
    requires
        config_valid(cfg),
    ensures
        forall|j: int| 0 <= j < mirrored_len(cfg) ==> (#[trigger] palette_model(cfg)[0][j]).sat
            == 0,
{
}

/// Law: the rotated ramp standing at the base position is the mirrored
/// base ramp unchanged; a hue shift of zero is a no-op.
pub proof fn lemma_base_position_unrotated(cfg: Config)
    requires
        config_valid(cfg),
    ensures
        palette_model(cfg)[base_ramp_position(cfg) + 1] == mirrored_ramp(cfg),
{
    let row = base_ramp_position(cfg) + 1;
    assert(1 <= row <= cfg.ramps_per_palette as int);
    let d = row - 1 - base_ramp_position(cfg);
    let s = hue_shift_per_ramp(cfg);
    assert(d == 0);
    assert(d * s == 0) by (nonlinear_arith)
        requires
            d == 0,
    ;
    assert(ramp_hue_shift(cfg, row - 1) == d * s);
    assert forall|j: int| 0 <= j < mirrored_len(cfg) implies palette_model(cfg)[row][j]
        == mirrored_cell(cfg, j) by {
        let c = mirrored_cell(cfg, j);
        lemma_wrap_hue_range(cfg.base_color@.hue + hue_offset(cfg, if j < cfg.colors_per_ramp as int { j } else { mirrored_len(cfg) - j }));
        assert(0 <= c.hue < HUE_FULL_TURN as int);
        lemma_wrap_hue_identity(c.hue);
        assert(rotated(c, 0) == c);
    }
    assert(palette_model(cfg)[row] =~= mirrored_ramp(cfg));
}

/// Law: the mirrored base ramp is symmetric. For an interior index
/// `i`, the cell mirrored across the ramp shares its hue and value and
/// has its saturation lowered by the mirror desaturation, floored at
/// zero.
pub proof fn lemma_mirror_symmetry(cfg: Config, i: int)
    requires
        config_valid(cfg),
        1 <= i < cfg.colors_per_ramp as int - 1,
    ensures
        mirrored_ramp(cfg)[mirrored_len(cfg) - i] == desaturated(
            mirrored_ramp(cfg)[i],
            cfg.mirror_desaturation as int,
        ),
        mirrored_ramp(cfg)[mirrored_len(cfg) - i].hue == mirrored_ramp(cfg)[i].hue,
        mirrored_ramp(cfg)[mirrored_len(cfg) - i].val == mirrored_ramp(cfg)[i].val,
{
    let n = cfg.colors_per_ramp as int;
    assert(n <= mirrored_len(cfg) - i < mirrored_len(cfg));
    assert(mirrored_cell(cfg, mirrored_len(cfg) - i) == desaturated(
        base_ramp_cell(cfg, i),
        cfg.mirror_desaturation as int,
    ));
    assert(mirrored_cell(cfg, i) == base_ramp_cell(cfg, i));
}

/// Law: every hue anywhere in the palette lies within `[0, 360)`
/// degrees, however large the cumulative shifts grew.
pub proof fn lemma_hues_normalized(cfg: Config)
    requires
        config_valid(cfg),
    ensures
        forall|r: int, j: int|
            0 <= r < palette_model(cfg).len() && 0 <= j < palette_model(cfg)[r].len() ==> 0 <= (
            #[trigger] palette_model(cfg)[r][j]).hue < HUE_FULL_TURN as int,
{
    assert forall|r: int, j: int|
        0 <= r < palette_model(cfg).len() && 0 <= j < palette_model(cfg)[r].len() implies 0 <= (
    #[trigger] palette_model(cfg)[r][j]).hue < HUE_FULL_TURN as int by {
        let src = if j < cfg.colors_per_ramp as int {
            j
        } else {
            mirrored_len(cfg) - j
        };
        lemma_wrap_hue_range(cfg.base_color@.hue + hue_offset(cfg, src));
        assert(0 <= mirrored_cell(cfg, j).hue < HUE_FULL_TURN as int);
        if r > 0 {
            lemma_wrap_hue_range(mirrored_cell(cfg, j).hue + ramp_hue_shift(cfg, r - 1));
        }
    }
}

/// Law: every cell of the palette is a well-formed color: its hue lies
/// within one turn and its saturation and value within full scale,
/// since every channel passes through wrapping or clamping.
pub proof fn lemma_palette_colors_wf(cfg: Config)
    requires
        config_valid(cfg),
    ensures
        forall|r: int, j: int|
            0 <= r < palette_model(cfg).len() && 0 <= j < palette_model(cfg)[r].len()
                ==> color_wf(#[trigger] palette_model(cfg)[r][j]),
{
    assert forall|r: int, j: int|
        0 <= r < palette_model(cfg).len() && 0 <= j < palette_model(cfg)[r].len() implies color_wf(
        #[trigger] palette_model(cfg)[r][j],
    ) by {
        let src = if j < cfg.colors_per_ramp as int {
            j
        } else {
            mirrored_len(cfg) - j
        };
        lemma_wrap_hue_range(cfg.base_color@.hue + hue_offset(cfg, src));
        assert(color_wf(mirrored_cell(cfg, j)));
        if r > 0 {
            lemma_wrap_hue_range(mirrored_cell(cfg, j).hue + ramp_hue_shift(cfg, r - 1));
        }
    }
}

/// Law: generation is deterministic. Any two palettes produced for the
/// same configuration are equal, since each is pinned to the model.
pub proof fn lemma_generate_deterministic(
    cfg: Config,
    first: Seq<Seq<ColorModel>>,
    second: Seq<Seq<ColorModel>>,
)
    requires
        first == palette_model(cfg),
        second == palette_model(cfg),
    ensures
        first == second,
{
}

/// Law: the middle cell of the base ramp is the base color unchanged;
/// all three cumulative offsets vanish there.
pub proof fn lemma_middle_cell_is_base(cfg: Config)
    requires
        config_valid(cfg),
        color_wf(cfg.base_color@),
    ensures
        base_ramp_cell(cfg, mid_index(cfg)) == cfg.base_color@,
{
    let m = mid_index(cfg);
    assert(hue_offset(cfg, m) == 0);
    assert(cum_offset(cfg.saturation_deltas@, m, m) == 0);
    assert(cum_offset(cfg.brightness_deltas@, m, m) == 0);
    lemma_wrap_hue_identity(cfg.base_color@.hue);
    assert(rotated(cfg.base_color@, 0) == cfg.base_color@);
    assert(clamp_channel(cfg.base_color@.sat + 0) == cfg.base_color@.sat);
    assert(clamp_channel(cfg.base_color@.val + 0) == cfg.base_color@.val);
}

} // verus!
