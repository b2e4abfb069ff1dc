//! One-time scene layout: the grid the 200 sphere instances start on, and
//! the constants of the camera orbit.
//!
//! The engine works in floating-point world units; everything this module
//! decides is exact (grid coordinates, orbit centre and radius), so it is
//! stated and proved over integers and converted at the engine boundary.

use vstd::prelude::*;

verus! {

/// How many sphere instances the scene holds.
pub const INSTANCE_COUNT: u32 = 200;

/// How many instances stand in one grid row.
pub const GRID_WIDTH: u32 = 10;

/// World units between neighbouring instances.
pub const GRID_SPACING: u32 = 2;

/// The starting x coordinate of instance `i`: the grid walks rows of
/// `GRID_WIDTH`, one `GRID_SPACING` step per row.
pub open spec fn spec_grid_x(i: int) -> int {
    GRID_SPACING * (i / (GRID_WIDTH as int))
}

/// The starting y coordinate of instance `i`: its place in the row, one
/// `GRID_SPACING` step per instance.
pub open spec fn spec_grid_y(i: int) -> int {
    GRID_SPACING * (i % (GRID_WIDTH as int))
}

/// Lays `count` instances out on the grid, in instance order. Every
/// instance starts at height zero; the frame update animates the height and
/// never moves x or y again.
pub fn instance_grid_positions(count: u32) -> (v: Vec<(u32, u32)>)
    ensures
        v@.len() == count,
        forall|i: int| 0 <= i < count ==> (#[trigger] v@[i]).0 == spec_grid_x(i),
        forall|i: int| 0 <= i < count ==> (#[trigger] v@[i]).1 == spec_grid_y(i),
{
    let mut v: Vec<(u32, u32)> = Vec::new();
    let mut i: u32 = 0;
    while i < count
        invariant
            i <= count,
            v@.len() == i,
            forall|j: int| 0 <= j < i ==> (#[trigger] v@[j]).0 == spec_grid_x(j),
            forall|j: int| 0 <= j < i ==> (#[trigger] v@[j]).1 == spec_grid_y(j),
        decreases count - i,
    {
        let x = GRID_SPACING * (i / GRID_WIDTH);
        let y = GRID_SPACING * (i % GRID_WIDTH);
        v.push((x, y));
        i = i + 1;
    }
    v
}

/// The camera's circular dolly. Each frame the engine places the camera at
/// `(center_x + radius·sin t, center_y, center_z + radius·cos t)` with a
/// pitch of `π / pitch_denominator · sin t` and zero yaw and roll, so the
/// camera rides a circle of `radius` in the XZ plane around the centre,
/// with a gentle tilt, period 2π seconds.
#[derive(Clone, Copy, PartialEq, Eq, Structural, Debug)]
pub struct CameraOrbit {
    /// X of the orbit centre.
    pub center_x: u32,
    /// Y of the orbit centre: the camera's constant height.
    pub center_y: u32,
    /// Z of the orbit centre.
    pub center_z: u32,
    /// Radius of the circle, in world units.
    pub radius: u32,
    /// The pitch amplitude is π divided by this.
    pub pitch_denominator: u32,
}

/// The orbit this scene uses: a circle of radius 5 around (20, 10, 25),
/// pitch amplitude π/16.
pub fn camera_orbit() -> (c: CameraOrbit)
    ensures
        c.center_x == 20,
        c.center_y == 10,
        c.center_z == 25,
        c.radius == 5,
        c.pitch_denominator == 16,
{
    CameraOrbit { center_x: 20, center_y: 10, center_z: 25, radius: 5, pitch_denominator: 16 }
}

} // verus!
