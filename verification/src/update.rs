//! The frame update procedure's decision core.
//!
//! The engine owns the loop and calls the update once per frame with the
//! elapsed time and an input snapshot. Everything the update decides
//! discretely — scale multipliers, shader choice, post-effect values,
//! capture requests, the debug latch, mouse visibility, and the
//! continue/finish signal — is computed here as a pure function of the
//! snapshot and the one value that survives between frames, the latched
//! debug flag. The host loop applies the decision: it feeds the scale
//! multipliers and the elapsed time into the floating-point instance
//! animation, reassigns the material's shader name, writes the post-effect
//! fields, fires the capture requests, and stops when told to.

use vstd::prelude::*;

use crate::input::{InputSnapshot, Key};
use crate::post_effect::{
    spec_blur_radius, spec_scanline_centi, spec_tweaked, PostEffectParams, BLUR_RADIUS_COARSE,
    BLUR_RADIUS_FINE, SCANLINE_OFF_CENTI, SCANLINE_ON_CENTI,
};
use crate::shaders::{lemma_shader_names_distinct, spec_shader_name, ShaderChoice};

verus! {

/// What the update tells the engine's loop to do next.
#[derive(Clone, Copy, PartialEq, Eq, Structural, Debug)]
pub enum UpdateStatus {
    /// Render this frame and call again.
    Continue,
    /// Stop the loop after this frame.
    Finish,
}

/// The scale multipliers a frame selects: held S beats held A beats held D.
pub open spec fn spec_scale_multipliers(input: InputSnapshot) -> (u32, u32) {
    if input.down().contains(Key::S) {
        (5u32, 5u32)
    } else if input.down().contains(Key::A) {
        (5u32, 1u32)
    } else if input.down().contains(Key::D) {
        (1u32, 5u32)
    } else {
        (1u32, 1u32)
    }
}

/// The shader a frame selects: the colored contours while W is held.
pub open spec fn spec_shader_choice(input: InputSnapshot) -> ShaderChoice {
    if input.down().contains(Key::W) {
        ShaderChoice::ContoursCol
    } else {
        ShaderChoice::Contours
    }
}

/// The debug flag after a frame: while LShift is held, L latches it on and
/// K latches it off — K wins when both are held — and without LShift it
/// keeps its prior value.
pub open spec fn spec_debug_after(prev: bool, input: InputSnapshot) -> bool {
    if input.down().contains(Key::LShift) {
        if input.down().contains(Key::K) {
            false
        } else if input.down().contains(Key::L) {
            true
        } else {
            prev
        }
    } else {
        prev
    }
}

/// The signal a frame returns: finish exactly while Escape is held.
pub open spec fn spec_status(input: InputSnapshot) -> UpdateStatus {
    if input.down().contains(Key::Escape) {
        UpdateStatus::Finish
    } else {
        UpdateStatus::Continue
    }
}

/// Every discrete output of one frame's update.
#[derive(Clone, Copy, PartialEq, Eq, Structural, Debug)]
pub struct FrameDecision {
    /// Multiplier on every instance's x scale.
    pub scale_mul_x: u32,
    /// Multiplier on every instance's y scale.
    pub scale_mul_y: u32,
    /// Which contour shader the material uses this frame.
    pub shader: ShaderChoice,
    /// Blur radius of the post-effect pass.
    pub blur_radius: u32,
    /// Scanline amount of the post-effect pass, in hundredths.
    pub scanline_centi: u32,
    /// Append this frame to the capture GIF.
    pub capture_gif: bool,
    /// Write a screenshot of this frame.
    pub capture_screenshot: bool,
    /// The latched debug flag after this frame; carried into the next call.
    pub debug: bool,
    /// Whether the engine's editor overlay shows; mirrors `debug`.
    pub show_editor: bool,
    /// Whether the mouse cursor is hidden.
    pub hide_mouse: bool,
    /// Whether the loop goes on.
    pub status: UpdateStatus,
}

/// Selects the scale multipliers for one frame.
pub fn scale_multipliers(input: &InputSnapshot) -> (m: (u32, u32))
    ensures
        m == spec_scale_multipliers(*input),
{
    if input.is_down(Key::S) {
        (5, 5)
    } else if input.is_down(Key::A) {
        (5, 1)
    } else if input.is_down(Key::D) {
        (1, 5)
    } else {
        (1, 1)
    }
}

/// Selects the shader for one frame.
pub fn shader_choice(input: &InputSnapshot) -> (c: ShaderChoice)
    ensures
        c == spec_shader_choice(*input),
{
    if input.is_down(Key::W) {
        ShaderChoice::ContoursCol
    } else {
        ShaderChoice::Contours
    }
}

/// Advances the latched debug flag by one frame.
pub fn update_debug(prev: bool, input: &InputSnapshot) -> (d: bool)
    ensures
        d == spec_debug_after(prev, *input),
{
    let mut debug = prev;
    if input.is_down(Key::LShift) {
        if input.is_down(Key::L) {
            debug = true;
        }
        if input.is_down(Key::K) {
            debug = false;
        }
    }
    debug
}

/// Decides every discrete output of one frame from the input snapshot and
/// the latched debug flag carried over from the previous frame.
pub fn frame_decision(input: &InputSnapshot, prev_debug: bool) -> (d: FrameDecision)
    ensures
        d == spec_frame_decision(*input, prev_debug),
        (d.scale_mul_x, d.scale_mul_y) == spec_scale_multipliers(*input),
        d.shader == spec_shader_choice(*input),
        d.blur_radius == spec_blur_radius(*input),
        d.scanline_centi == spec_scanline_centi(*input),
        d.capture_gif == input.pressed().contains(Key::O),
        d.capture_screenshot == input.pressed().contains(Key::P),
        d.debug == spec_debug_after(prev_debug, *input),
        d.show_editor == d.debug,
        d.hide_mouse == !input.down().contains(Key::M),
        d.status == spec_status(*input),
        d.status is Finish <==> input.down().contains(Key::Escape),
{
    let (scale_mul_x, scale_mul_y) = scale_multipliers(input);
    let shader = shader_choice(input);
    let blur_radius: u32 = if input.is_down(Key::E) {
        BLUR_RADIUS_FINE
    } else {
        BLUR_RADIUS_COARSE
    };
    let scanline_centi: u32 = if input.is_down(Key::Q) {
        SCANLINE_OFF_CENTI
    } else {
        SCANLINE_ON_CENTI
    };
    let debug = update_debug(prev_debug, input);
    let status = if input.is_down(Key::Escape) {
        UpdateStatus::Finish
    } else {
        UpdateStatus::Continue
    };
    FrameDecision {
        scale_mul_x,
        scale_mul_y,
        shader,
        blur_radius,
        scanline_centi,
        capture_gif: input.is_pressed(Key::O),
        capture_screenshot: input.is_pressed(Key::P),
        debug,
        show_editor: debug,
        hide_mouse: !input.is_down(Key::M),
        status,
    }
}

/// One whole frame of the update procedure's decisions: tweaks the
/// post-effect parameters in place and returns the rest. The caller keeps
/// `d.debug` for the next frame and stops the loop when `d.status` is
/// `Finish`.
pub fn update_frame(input: &InputSnapshot, prev_debug: bool, post: &mut PostEffectParams) -> (d: FrameDecision)
    ensures
        d == spec_frame_decision(*input, prev_debug),
        *final(post) == spec_tweaked(*old(post), *input),
        final(post).blur_radius == d.blur_radius,
        final(post).scanline_centi == d.scanline_centi,
{
    post.apply_frame_tweaks(input);
    frame_decision(input, prev_debug)
}

/// The decision a frame with input `input` and prior debug flag
/// `prev_debug` produces.
pub open spec fn spec_frame_decision(input: InputSnapshot, prev_debug: bool) -> FrameDecision {
    FrameDecision {
        scale_mul_x: spec_scale_multipliers(input).0,
        scale_mul_y: spec_scale_multipliers(input).1,
        shader: spec_shader_choice(input),
        blur_radius: spec_blur_radius(input),
        scanline_centi: spec_scanline_centi(input),
        capture_gif: input.pressed().contains(Key::O),
        capture_screenshot: input.pressed().contains(Key::P),
        debug: spec_debug_after(prev_debug, input),
        show_editor: spec_debug_after(prev_debug, input),
        hide_mouse: !input.down().contains(Key::M),
        status: spec_status(input),
    }
}

/// Law: the scale-multiplier keys are priority-ordered and mutually
/// exclusive — held S always selects (5, 5) whatever else is held, held A
/// selects (5, 1) whenever S is not held, held D selects (1, 5) whenever
/// neither S nor A is held, and (1, 1) stands otherwise.
pub proof fn lemma_scale_priority(input: InputSnapshot)
    ensures
        input.down().contains(Key::S) ==> spec_scale_multipliers(input) == (5u32, 5u32),
        !input.down().contains(Key::S) && input.down().contains(Key::A)
            ==> spec_scale_multipliers(input) == (5u32, 1u32),
        !input.down().contains(Key::S) && !input.down().contains(Key::A)
            && input.down().contains(Key::D) ==> spec_scale_multipliers(input) == (1u32, 5u32),
        !input.down().contains(Key::S) && !input.down().contains(Key::A)
            && !input.down().contains(Key::D) ==> spec_scale_multipliers(input) == (1u32, 1u32),
{
}

/// Law: the shader name is the colored contours' exactly while W is held,
/// and the plain contours' otherwise.
pub proof fn lemma_shader_iff_w(input: InputSnapshot)
    ensures
        spec_shader_name(spec_shader_choice(input)) == spec_shader_name(ShaderChoice::ContoursCol)
            <==> input.down().contains(Key::W),
        spec_shader_name(spec_shader_choice(input)) == spec_shader_name(ShaderChoice::Contours)
            <==> !input.down().contains(Key::W),
{
    lemma_shader_names_distinct();
}

/// Law: the debug flag is a latch. A frame holding LShift and L (and not
/// K) turns it on whatever it was; a frame holding LShift and K turns it
/// off whatever it was; a frame without LShift leaves any value unchanged.
pub proof fn lemma_debug_latch(prev: bool, set_frame: InputSnapshot, clear_frame: InputSnapshot, idle_frame: InputSnapshot)
    requires
        set_frame.down().contains(Key::LShift),
        set_frame.down().contains(Key::L),
        !set_frame.down().contains(Key::K),
        clear_frame.down().contains(Key::LShift),
        clear_frame.down().contains(Key::K),
        !idle_frame.down().contains(Key::LShift),
    ensures
        spec_debug_after(prev, set_frame),
        !spec_debug_after(spec_debug_after(prev, set_frame), clear_frame),
        forall|d: bool| #[trigger] spec_debug_after(d, idle_frame) == d,
{
}

/// Law: the update finishes exactly on the frames where Escape is held,
/// whatever else the snapshot holds and whatever the debug flag was.
pub proof fn lemma_finish_iff_escape(input: InputSnapshot)
    ensures
        spec_status(input) is Finish <==> input.down().contains(Key::Escape),
        spec_status(input) is Continue <==> !input.down().contains(Key::Escape),
{
}

} // verus!
