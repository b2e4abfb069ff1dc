use contour_scene::scene::{camera_orbit, instance_grid_positions, GRID_SPACING, GRID_WIDTH, INSTANCE_COUNT};
use contour_scene::shaders::{custom_shader_programs, ShaderChoice};

#[test]
fn grid_has_two_hundred_instances() {
    let v = instance_grid_positions(INSTANCE_COUNT);
    assert_eq!(v.len(), 200);
    assert_eq!(GRID_WIDTH, 10);
    assert_eq!(GRID_SPACING, 2);
}

#[test]
fn grid_positions_exact() {
    let v = instance_grid_positions(INSTANCE_COUNT);
    assert_eq!(v[0], (0, 0));
    assert_eq!(v[9], (0, 18));
    assert_eq!(v[10], (2, 0));
    assert_eq!(v[13], (2, 6));
    assert_eq!(v[199], (38, 18));
    for (i, &(x, y)) in v.iter().enumerate() {
        assert_eq!(x as usize, 2 * (i / 10));
        assert_eq!(y as usize, 2 * (i % 10));
    }
}

#[test]
fn instance_heights_zero_at_time_zero() {
    // Every instance's animated height is sin(x/5)·cos(y/5)·sin(t)·2; at
    // t = 0 the sin(t) factor makes it 0 for every grid position.
    let t: f64 = 0.0;
    for &(x, y) in instance_grid_positions(INSTANCE_COUNT).iter() {
        let height = (x as f64 / 5.0).sin() * (y as f64 / 5.0).cos() * t.sin() * 2.0;
        assert_eq!(height, 0.0);
    }
}

#[test]
fn camera_orbit_constants() {
    let c = camera_orbit();
    assert_eq!(c.center_x, 20);
    assert_eq!(c.center_y, 10);
    assert_eq!(c.center_z, 25);
    assert_eq!(c.radius, 5);
    assert_eq!(c.pitch_denominator, 16);
}

#[test]
fn camera_rides_circle_of_radius_five() {
    // The engine places the camera at
    // (cx + r·sin t, cy, cz + r·cos t): for any t the XZ distance from the
    // centre is r, so (x−20)² + (z−25)² = 25 within floating-point error.
    let c = camera_orbit();
    let mut t: f64 = 0.0;
    while t < 20.0 {
        let x = c.center_x as f64 + c.radius as f64 * t.sin();
        let y = c.center_y as f64;
        let z = c.center_z as f64 + c.radius as f64 * t.cos();
        let d2 = (x - 20.0) * (x - 20.0) + (z - 25.0) * (z - 25.0);
        assert!((d2 - 25.0).abs() < 1e-9);
        assert_eq!(y, 10.0);
        t += 0.37;
    }
}

#[test]
fn camera_pitch_amplitude() {
    // Pitch is (π/16)·sin t; yaw and roll stay 0.
    let c = camera_orbit();
    let amplitude = std::f64::consts::PI / c.pitch_denominator as f64;
    let mut t: f64 = -10.0;
    while t < 10.0 {
        let pitch = amplitude * t.sin();
        assert!(pitch.abs() <= std::f64::consts::PI / 16.0 + 1e-12);
        assert_eq!(pitch, std::f64::consts::PI / 16.0 * t.sin());
        t += 0.53;
    }
}

#[test]
fn both_shaders_registered_with_distinct_names() {
    let programs = custom_shader_programs();
    assert_eq!(programs.len(), 2);
    assert_eq!(programs[0].name, "contours");
    assert_eq!(programs[1].name, "contours_col");
    assert_ne!(programs[0].name, programs[1].name);
    // The two programs share every stage but the fragment shader.
    assert_ne!(programs[0].fragment, programs[1].fragment);
    assert_eq!(programs[0].geometry, programs[1].geometry);
    assert_eq!(programs[0].tess_control, programs[1].tess_control);
    assert_eq!(programs[0].tess_eval, programs[1].tess_eval);
    // Every choice's name is among the registered ones.
    for choice in [ShaderChoice::Contours, ShaderChoice::ContoursCol] {
        assert!(programs.iter().any(|p| p.name == choice.name()));
    }
}
