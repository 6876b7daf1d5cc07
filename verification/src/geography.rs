//! Geographic points in degrees, minutes and seconds.

use vstd::prelude::*;

verus! {

/// A spherical coordinate in degrees, minutes, seconds.
#[derive(Debug, Clone, Copy, PartialEq, Eq, Structural)]
pub struct DMS {
    pub degrees: i32,
    pub minutes: i32,
    pub seconds: i32,
}

impl DMS {
    pub fn new(d: i32, m: i32, s: i32) -> (r: Self)
        ensures
            r.degrees == d,
            r.minutes == m,
            r.seconds == s,
    {
        Self { degrees: d, minutes: m, seconds: s }
    }

    /// The coordinate as a whole number of arcseconds: one 3600th of a degree.
    pub open spec fn spec_arcseconds(self) -> int {
        self.degrees * 3600 + self.minutes * 60 + self.seconds
    }

    /// The coordinate in arcseconds. Dividing the result by 3600 gives decimal
    /// degrees.
    pub fn arcseconds(&self) -> (r: i64)
        ensures
            r == self.spec_arcseconds(),
    {
        let d: i64 = self.degrees as i64;
        let m: i64 = self.minutes as i64;
        let s: i64 = self.seconds as i64;
        d * 3600 + m * 60 + s
    }
}

/// A point on the surface of the earth, in degrees, minutes, seconds.
/// For west and south, all terms are negative.
#[derive(Debug, Clone, Copy, PartialEq, Eq, Structural)]
pub struct DmsGpsPoint {
    pub latitude: DMS,
    pub longitude: DMS,
}

impl DmsGpsPoint {
    pub fn new(lat: DMS, lon: DMS) -> (r: Self)
        ensures
            r.latitude == lat,
            r.longitude == lon,
    {
        Self { latitude: lat, longitude: lon }
    }
}

} // verus!
