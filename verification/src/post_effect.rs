//! The post-processing configuration record: set once at startup, then
//! selectively overwritten each frame for exactly two fields — the blur
//! radius (held E selects the small radius) and the scanline amount (held Q
//! turns scanlines off).
//!
//! The engine takes fractional amounts; this record stores each of them in
//! hundredths, so a stored 4 stands for an amount of 0.04. Whole-unit
//! fields (the blur radius and the scanline count) are stored as they are.

use vstd::prelude::*;

use crate::input::{InputSnapshot, Key};

verus! {

/// Blur radius while E is held.
pub const BLUR_RADIUS_FINE: u32 = 3;

/// Blur radius while E is not held.
pub const BLUR_RADIUS_COARSE: u32 = 6;

/// Scanline amount, in hundredths, while Q is held.
pub const SCANLINE_OFF_CENTI: u32 = 0;

/// Scanline amount, in hundredths, while Q is not held.
pub const SCANLINE_ON_CENTI: u32 = 4;

/// A red-green-blue-alpha quadruple, each channel in hundredths.
#[derive(Clone, Copy, PartialEq, Eq, Structural, Debug)]
pub struct RgbaCenti {
    /// Red channel, in hundredths.
    pub r: u32,
    /// Green channel, in hundredths.
    pub g: u32,
    /// Blue channel, in hundredths.
    pub b: u32,
    /// Alpha channel, in hundredths.
    pub a: u32,
}

/// The parameters of the full-screen post-processing pass. Fractional
/// amounts are stored in hundredths.
#[derive(Clone, Copy, PartialEq, Eq, Structural, Debug)]
pub struct PostEffectParams {
    /// Chromatic aberration amount, in hundredths.
    pub chrom_amt_centi: u32,
    /// Blur amount, in hundredths.
    pub blur_amt_centi: u32,
    /// Blur radius, in whole units.
    pub blur_radius: u32,
    /// Whether the bokeh pass is on.
    pub bokeh: bool,
    /// Bokeh focal depth, in hundredths.
    pub bokeh_focal_depth_centi: u32,
    /// Bokeh focal width, in hundredths.
    pub bokeh_focal_width_centi: u32,
    /// Color offset, each channel in hundredths.
    pub color_offset_centi: RgbaCenti,
    /// Noise amount, in hundredths.
    pub noise_centi: u32,
    /// Scanline amount, in hundredths.
    pub scanline_centi: u32,
    /// Number of scanlines.
    pub scanline_count: i32,
}

/// The configuration the scene starts with.
pub open spec fn spec_startup_post_effect() -> PostEffectParams {
    PostEffectParams {
        chrom_amt_centi: 100,
        blur_amt_centi: 200,
        blur_radius: 6,
        bokeh: true,
        bokeh_focal_depth_centi: 45,
        bokeh_focal_width_centi: 40,
        color_offset_centi: RgbaCenti { r: 100, g: 80, b: 100, a: 100 },
        noise_centi: 30,
        scanline_centi: 4,
        scanline_count: 200,
    }
}

/// Builds the startup configuration.
pub fn startup_post_effect() -> (p: PostEffectParams)
    ensures
        p == spec_startup_post_effect(),
{
    PostEffectParams {
        chrom_amt_centi: 100,
        blur_amt_centi: 200,
        blur_radius: 6,
        bokeh: true,
        bokeh_focal_depth_centi: 45,
        bokeh_focal_width_centi: 40,
        color_offset_centi: RgbaCenti { r: 100, g: 80, b: 100, a: 100 },
        noise_centi: 30,
        scanline_centi: 4,
        scanline_count: 200,
    }
}

/// The blur radius a frame with input `input` selects.
pub open spec fn spec_blur_radius(input: InputSnapshot) -> u32 {
    if input.down().contains(Key::E) {
        BLUR_RADIUS_FINE
    } else {
        BLUR_RADIUS_COARSE
    }
}

/// The scanline amount, in hundredths, a frame with input `input` selects.
pub open spec fn spec_scanline_centi(input: InputSnapshot) -> u32 {
    if input.down().contains(Key::Q) {
        SCANLINE_OFF_CENTI
    } else {
        SCANLINE_ON_CENTI
    }
}

/// The parameters after one frame with input `input`: only the blur radius
/// and the scanline amount move, both functions of the input alone.
pub open spec fn spec_tweaked(p: PostEffectParams, input: InputSnapshot) -> PostEffectParams {
    PostEffectParams {
        blur_radius: spec_blur_radius(input),
        scanline_centi: spec_scanline_centi(input),
        ..p
    }
}

impl PostEffectParams {
    /// Applies one frame's tweaks in place: blur radius from E, scanline
    /// amount from Q, every other field untouched.
    pub fn apply_frame_tweaks(&mut self, input: &InputSnapshot)
        ensures
            *final(self) == spec_tweaked(*old(self), *input),
    {
        self.blur_radius = if input.is_down(Key::E) {
            BLUR_RADIUS_FINE
        } else {
            BLUR_RADIUS_COARSE
        };
        self.scanline_centi = if input.is_down(Key::Q) {
            SCANLINE_OFF_CENTI
        } else {
            SCANLINE_ON_CENTI
        };
    }
}

/// The parameters after a whole run of frames, oldest input first.
pub open spec fn spec_tweaked_frames(p: PostEffectParams, inputs: Seq<InputSnapshot>) -> PostEffectParams
    decreases inputs.len(),
{
    if inputs.len() == 0 {
        p
    } else {
        spec_tweaked_frames(spec_tweaked(p, inputs[0]), inputs.drop_first())
    }
}

/// Law: one frame sets the blur radius to exactly 3 or 6 and the scanline
/// amount to exactly 0 or 0.04 (stored as hundredths), each decided solely
/// by whether E, respectively Q, is held — the prior parameters play no
/// part.
pub proof fn lemma_tweaks_exact(p: PostEffectParams, input: InputSnapshot)
    ensures
        spec_tweaked(p, input).blur_radius == BLUR_RADIUS_FINE <==> input.down().contains(Key::E),
        spec_tweaked(p, input).blur_radius == BLUR_RADIUS_COARSE <==> !input.down().contains(Key::E),
        spec_tweaked(p, input).scanline_centi == SCANLINE_OFF_CENTI <==> input.down().contains(Key::Q),
        spec_tweaked(p, input).scanline_centi == SCANLINE_ON_CENTI <==> !input.down().contains(Key::Q),
        forall|q: PostEffectParams| spec_tweaked(p, input).blur_radius == #[trigger] spec_tweaked(q, input).blur_radius,
        forall|q: PostEffectParams| spec_tweaked(p, input).scanline_centi == #[trigger] spec_tweaked(q, input).scanline_centi,
{
}

/// Law: across any run of frames, every post-effect field other than the
/// blur radius and the scanline amount keeps its startup value.
pub proof fn lemma_frames_touch_only_blur_and_scanline(p: PostEffectParams, inputs: Seq<InputSnapshot>)
    ensures
        spec_tweaked_frames(p, inputs).chrom_amt_centi == p.chrom_amt_centi,
        spec_tweaked_frames(p, inputs).blur_amt_centi == p.blur_amt_centi,
        spec_tweaked_frames(p, inputs).bokeh == p.bokeh,
        spec_tweaked_frames(p, inputs).bokeh_focal_depth_centi == p.bokeh_focal_depth_centi,
        spec_tweaked_frames(p, inputs).bokeh_focal_width_centi == p.bokeh_focal_width_centi,
        spec_tweaked_frames(p, inputs).color_offset_centi == p.color_offset_centi,
        spec_tweaked_frames(p, inputs).noise_centi == p.noise_centi,
        spec_tweaked_frames(p, inputs).scanline_count == p.scanline_count,
    decreases inputs.len(),
{
    if inputs.len() > 0 {
        lemma_frames_touch_only_blur_and_scanline(spec_tweaked(p, inputs[0]), inputs.drop_first());
    }
}

/// Law: after at least one frame, the blur radius and the scanline amount
/// are pinned by the last frame's input alone.
pub proof fn lemma_frames_last_input_decides(p: PostEffectParams, inputs: Seq<InputSnapshot>)
    requires
        inputs.len() > 0,
    ensures
        spec_tweaked_frames(p, inputs).blur_radius == spec_blur_radius(inputs.last()),
        spec_tweaked_frames(p, inputs).scanline_centi == spec_scanline_centi(inputs.last()),
    decreases inputs.len(),
{
    if inputs.len() == 1 {
        assert(inputs.drop_first().len() == 0);
        assert(spec_tweaked_frames(spec_tweaked(p, inputs[0]), inputs.drop_first())
            == spec_tweaked(p, inputs[0]));
        assert(inputs.last() == inputs[0]);
    } else {
        lemma_frames_last_input_decides(spec_tweaked(p, inputs[0]), inputs.drop_first());
        assert(inputs.drop_first().last() == inputs.last());
    }
}

} // verus!
