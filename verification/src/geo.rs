//! Geographic coordinates, held in the fixed-point precision of the path
//! encoding.
//!
//! A coordinate stores longitude and latitude in units of 1e-5 degree, the
//! precision at which paths are encoded and below which the pipeline never
//! distinguishes two positions. `38.89037` degrees is stored as `3889037`.

use vstd::prelude::*;

verus! {

/// Degrees are held in units of 1e-5 degree: `COORD_SCALE` units make one
/// degree.
pub const COORD_SCALE: i64 = 100000;

/// Greatest latitude, in 1e-5 degree units (90 degrees).
pub const LAT_MAX_E5: i64 = 9000000;

/// Greatest longitude magnitude, in 1e-5 degree units (180 degrees).
pub const LON_MAX_E5: i64 = 18000000;

/// One position on the globe. `x` is the longitude and `y` the latitude,
/// both in 1e-5 degree units.
#[derive(Clone, Copy, Debug, PartialEq, Eq, Structural)]
pub struct Coordinate {
    /// Longitude in 1e-5 degree units.
    pub x: i64,
    /// Latitude in 1e-5 degree units.
    pub y: i64,
}

/// A coordinate that lies on the globe: latitude within 90 degrees,
/// longitude within 180 degrees.
pub open spec fn coordinate_on_globe(c: Coordinate) -> bool {
    &&& -LAT_MAX_E5 <= c.y <= LAT_MAX_E5
    &&& -LON_MAX_E5 <= c.x <= LON_MAX_E5
}

/// Every coordinate of the path lies on the globe.
pub open spec fn path_on_globe(path: Seq<Coordinate>) -> bool {
    forall|i: int| 0 <= i < path.len() ==> coordinate_on_globe(#[trigger] path[i])
}

impl Coordinate {
    /// Whether this coordinate lies on the globe, as `coordinate_on_globe`
    /// states.
    pub fn on_globe(&self) -> (r: bool)
        ensures
            r == coordinate_on_globe(*self),
    {
        -LAT_MAX_E5 <= self.y && self.y <= LAT_MAX_E5 && -LON_MAX_E5 <= self.x && self.x
            <= LON_MAX_E5
    }
}

} // verus!
