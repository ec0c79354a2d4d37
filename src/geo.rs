//! Geographic points and the conversion of metric offsets into degrees.
//!
//! Latitudes and longitudes are fixed-point numbers in units of 1e-7 degree
//! (so 47.3977419 degrees is held as 473977419). Horizontal offsets are in
//! millimetres, and direction cosines in millionths.
use vstd::prelude::*;

verus! {

/// Metres covered by one degree of latitude.
pub const METERS_PER_DEGREE: u64 = 111111;

/// Fixed-point one for direction cosines and the longitude scale.
pub const UNIT: i64 = 1000000;

/// Largest horizontal offset, in millimetres, that `displace` accepts (100 km).
pub const MAX_OFFSET_MM: i64 = 100000000;

/// A waypoint: position in 1e-7 degree, altitude in metres, hold time in seconds.
#[derive(Clone, Copy, Debug, PartialEq, Eq, Structural)]
pub struct Point {
    pub lat: i64,
    pub lon: i64,
    pub alt: u8,
    pub hold_sec: u8,
}

impl Point {
    pub fn new(lat: i64, lon: i64, alt: u8, hold_sec: u8) -> (r: Point)
        ensures
            r == (Point { lat, lon, alt, hold_sec }),
    {
        Point { lat, lon, alt, hold_sec }
    }
}

/// A horizontal displacement from a point, in millimetres.
#[derive(Clone, Copy, Debug, PartialEq, Eq, Structural)]
pub struct Offset {
    pub north_mm: i64,
    pub east_mm: i64,
}

/// A unit direction given by its cosine and sine in millionths.
#[derive(Clone, Copy, Debug, PartialEq, Eq, Structural)]
pub struct Direction {
    pub cos: i32,
    pub sin: i32,
}

impl Direction {
    pub open spec fn wf(self) -> bool {
        -UNIT <= self.cos <= UNIT && -UNIT <= self.sin <= UNIT
    }
}

/// Integer division that rounds toward zero, so that opposite offsets stay opposite.
pub open spec fn div_toward_zero(n: int, d: int) -> int {
    if n >= 0 {
        n / d
    } else {
        -((-n) / d)
    }
}

/// Millimetres times a fixed-point factor in millionths, rounded toward zero.
pub open spec fn scaled_mm(mm: int, factor: int) -> int {
    div_toward_zero(mm * factor, UNIT as int)
}

/// Latitude change, in 1e-7 degree, of a move `north_mm` to the north.
pub open spec fn lat_shift(north_mm: int) -> int {
    div_toward_zero(north_mm * 10000, METERS_PER_DEGREE as int)
}

/// Longitude change, in 1e-7 degree, of a move `east_mm` to the east, where
/// `lon_scale` is the cosine of the latitude in millionths.
pub open spec fn lon_shift(east_mm: int, lon_scale: int) -> int {
    div_toward_zero(east_mm * 10000000000, METERS_PER_DEGREE as int * lon_scale)
}

pub open spec fn coord_in_range(x: i64) -> bool {
    -0x8000_0000 <= x <= 0x7fff_ffff
}

pub open spec fn offset_in_range(off: Offset) -> bool {
    -MAX_OFFSET_MM <= off.north_mm <= MAX_OFFSET_MM && -MAX_OFFSET_MM <= off.east_mm
        <= MAX_OFFSET_MM
}

/// The point reached from `center` by `off`, at the center's altitude, holding `hold_sec`.
pub open spec fn displaced(center: Point, off: Offset, lon_scale: int, hold_sec: u8) -> Point {
    Point {
        lat: (center.lat + lat_shift(off.north_mm as int)) as i64,
        lon: (center.lon + lon_shift(off.east_mm as int, lon_scale)) as i64,
        alt: center.alt,
        hold_sec,
    }
}

/// `n * num / den`, rounded toward zero.
fn mul_div_toward_zero(n: i64, num: u64, den: u64) -> (r: i64)
    requires
        den > 0,
        -MAX_OFFSET_MM <= n <= MAX_OFFSET_MM,
        num <= 10000000000,
    ensures
        r == div_toward_zero(n * num, den as int),
{
    let mag: u64 = if n >= 0 {
        n as u64
    } else {
        (-n) as u64
    };
    assert(mag * num <= 100000000 * 10000000000) by (nonlinear_arith)
        requires
            mag <= 100000000,
            num <= 10000000000,
    ;
    let q: u64 = mag * num / den;
    assert(q <= mag * num) by (nonlinear_arith)
        requires
            den > 0,
            q == (mag * num) as int / den as int,
    ;
    if n >= 0 {
        q as i64
    } else {
        assert((-n) * num == -(n * num)) by (nonlinear_arith);
        -(q as i64)
    }
}

/// A distance in whole millimetres times a factor in millionths, rounded toward zero.
pub fn scale_mm(mm: i64, factor: i32) -> (r: i64)
    requires
        -MAX_OFFSET_MM <= mm <= MAX_OFFSET_MM,
        -UNIT <= factor <= UNIT,
    ensures
        r == scaled_mm(mm as int, factor as int),
        -MAX_OFFSET_MM <= r <= MAX_OFFSET_MM,
{
    let f_mag: u64 = if factor >= 0 {
        factor as u64
    } else {
        (-(factor as i64)) as u64
    };
    let m: i64 = mul_div_toward_zero(mm, f_mag, UNIT as u64);
    proof {
        let a = mm as int;
        let b = factor as int;
        if b < 0 {
            assert(a * f_mag == -(a * b)) by (nonlinear_arith)
                requires
                    f_mag == -b,
            ;
        } else {
            assert(a * f_mag == a * b);
        }
        assert(-MAX_OFFSET_MM * UNIT <= a * b <= MAX_OFFSET_MM * UNIT) by (nonlinear_arith)
            requires
                -MAX_OFFSET_MM <= a <= MAX_OFFSET_MM,
                -UNIT <= b <= UNIT,
        ;
    }
    if factor >= 0 {
        m
    } else {
        -m
    }
}

/// Moves `center` by `off`, converting millimetres into degrees.
pub fn displace(center: Point, off: Offset, lon_scale: u32, hold_sec: u8) -> (r: Point)
    requires
        coord_in_range(center.lat),
        coord_in_range(center.lon),
        offset_in_range(off),
        1 <= lon_scale <= UNIT,
    ensures
        r == displaced(center, off, lon_scale as int, hold_sec),
{
    let dlat: i64 = mul_div_toward_zero(off.north_mm, 10000, METERS_PER_DEGREE);
    let dlon: i64 = mul_div_toward_zero(
        off.east_mm,
        10000000000,
        METERS_PER_DEGREE * (lon_scale as u64),
    );
    Point { lat: center.lat + dlat, lon: center.lon + dlon, alt: center.alt, hold_sec }
}

} // verus!
