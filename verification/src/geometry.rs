//! Poses, points and frames, carried as IEEE-754 bit patterns.

use vstd::prelude::*;

verus! {

/// A 3D point or translation. Each coordinate is the bit pattern of a single
/// precision number.
#[derive(Clone, Copy, PartialEq, Eq, Debug, Structural)]
pub struct Point3 {
    pub x: u32,
    pub y: u32,
    pub z: u32,
}

/// A rigid-body pose: a translation and a unit quaternion `(qx, qy, qz, qw)`,
/// each scalar the bit pattern of a single precision number.
#[derive(Clone, Copy, PartialEq, Eq, Debug, Structural)]
pub struct Pose {
    pub translation: Point3,
    pub qx: u32,
    pub qy: u32,
    pub qz: u32,
    pub qw: u32,
}

/// What the tracker reports of a tracked frame: its timestamp (the bit
/// pattern of a double precision number) and the camera pose.
#[derive(Clone, Copy, PartialEq, Eq, Debug, Structural)]
pub struct Frame {
    pub timestamp: u64,
    pub pose: Pose,
}

/// The `k`-th coordinate of `p`, for `k` in `0..3`.
pub open spec fn coordinate(p: Point3, k: int) -> u32 {
    if k == 0 {
        p.x
    } else if k == 1 {
        p.y
    } else {
        p.z
    }
}

/// The coordinates of `points` laid out one after the other: `x0 y0 z0 x1 ..`.
pub open spec fn flatten(points: Seq<Point3>) -> Seq<u32> {
    Seq::new(3 * points.len(), |i: int| coordinate(points[i / 3], i % 3))
}

} // verus!
