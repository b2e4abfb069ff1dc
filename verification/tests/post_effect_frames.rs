use contour_scene::input::{InputSnapshot, Key};
use contour_scene::post_effect::{startup_post_effect, PostEffectParams, RgbaCenti};
use contour_scene::update::update_frame;

#[test]
fn startup_values() {
    let p = startup_post_effect();
    assert_eq!(p.chrom_amt_centi, 100);
    assert_eq!(p.blur_amt_centi, 200);
    assert_eq!(p.blur_radius, 6);
    assert!(p.bokeh);
    assert_eq!(p.bokeh_focal_depth_centi, 45);
    assert_eq!(p.bokeh_focal_width_centi, 40);
    assert_eq!(p.color_offset_centi, RgbaCenti { r: 100, g: 80, b: 100, a: 100 });
    assert_eq!(p.noise_centi, 30);
    assert_eq!(p.scanline_centi, 4);
    assert_eq!(p.scanline_count, 200);
}

#[test]
fn blur_and_scanline_follow_e_and_q() {
    let mut p = startup_post_effect();
    let with_e = InputSnapshot { keys_down: vec![Key::E], keys_pressed: vec![] };
    p.apply_frame_tweaks(&with_e);
    assert_eq!(p.blur_radius, 3);
    assert_eq!(p.scanline_centi, 4);
    let with_q = InputSnapshot { keys_down: vec![Key::Q], keys_pressed: vec![] };
    p.apply_frame_tweaks(&with_q);
    assert_eq!(p.blur_radius, 6);
    assert_eq!(p.scanline_centi, 0);
    let with_both = InputSnapshot { keys_down: vec![Key::E, Key::Q], keys_pressed: vec![] };
    p.apply_frame_tweaks(&with_both);
    assert_eq!(p.blur_radius, 3);
    assert_eq!(p.scanline_centi, 0);
}

/// A small linear-congruential generator, so the thousand-frame run below
/// is random-looking but reproducible.
struct Lcg(u64);

impl Lcg {
    fn next(&mut self) -> u64 {
        self.0 = self.0.wrapping_mul(6364136223846793005).wrapping_add(1442695040888963407);
        self.0 >> 33
    }
}

fn random_snapshot(rng: &mut Lcg) -> InputSnapshot {
    let all = [
        Key::S,
        Key::A,
        Key::D,
        Key::W,
        Key::E,
        Key::Q,
        Key::O,
        Key::P,
        Key::LShift,
        Key::L,
        Key::K,
        Key::M,
    ];
    let mut down = Vec::new();
    let mut pressed = Vec::new();
    for k in all {
        if rng.next() % 2 == 0 {
            down.push(k);
        }
        if rng.next() % 8 == 0 {
            pressed.push(k);
        }
    }
    InputSnapshot { keys_down: down, keys_pressed: pressed }
}

fn other_fields_match(a: &PostEffectParams, b: &PostEffectParams) -> bool {
    a.chrom_amt_centi == b.chrom_amt_centi
        && a.blur_amt_centi == b.blur_amt_centi
        && a.bokeh == b.bokeh
        && a.bokeh_focal_depth_centi == b.bokeh_focal_depth_centi
        && a.bokeh_focal_width_centi == b.bokeh_focal_width_centi
        && a.color_offset_centi == b.color_offset_centi
        && a.noise_centi == b.noise_centi
        && a.scanline_count == b.scanline_count
}

#[test]
fn thousand_random_frames_touch_only_blur_and_scanline() {
    let startup = startup_post_effect();
    let mut p = startup;
    let mut debug = false;
    let mut rng = Lcg(42);
    for _ in 0..1000 {
        let input = random_snapshot(&mut rng);
        let d = update_frame(&input, debug, &mut p);
        debug = d.debug;
        let e_held = input.is_down(Key::E);
        let q_held = input.is_down(Key::Q);
        assert_eq!(p.blur_radius, if e_held { 3 } else { 6 });
        assert_eq!(p.scanline_centi, if q_held { 0 } else { 4 });
        assert_eq!(d.blur_radius, p.blur_radius);
        assert_eq!(d.scanline_centi, p.scanline_centi);
        assert!(other_fields_match(&p, &startup));
    }
}
