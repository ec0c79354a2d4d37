//! Formation shapes (line, square, circle) and the per-vehicle missions that
//! place each vehicle on its slot of the shape around a target point.
//!
//! Every shape is described first by one metric offset per vehicle, relative
//! to the target; each offset then becomes a three-point mission: the start
//! location, the target, and the target moved by the offset.
use vstd::prelude::*;
use crate::geo::{
    coord_in_range, displace, displaced, offset_in_range, scale_mm, scaled_mm, Direction, Offset,
    Point, UNIT,
};
use crate::plan::{generate_plan, plan_items, PlanDocument};

verus! {

/// Where a formation is flown: the vehicles' start location, the target at the
/// center of the shape, how long to hold the shape, and the cosine of the
/// target latitude in millionths, which scales east-west distances.
#[derive(Clone, Copy, Debug)]
pub struct Placement {
    pub start: Point,
    pub target_location: Point,
    pub hold_sec: u8,
    pub lon_scale: u32,
}

impl Placement {
    pub open spec fn new_spec(
        start_lat: i32,
        start_lon: i32,
        target_lat: i32,
        target_lon: i32,
        target_alt: u8,
        hold_sec: u8,
        lon_scale: u32,
    ) -> Placement {
        Placement {
            start: Point { lat: start_lat as i64, lon: start_lon as i64, alt: 0, hold_sec: 0 },
            target_location: Point {
                lat: target_lat as i64,
                lon: target_lon as i64,
                alt: target_alt,
                hold_sec: 0,
            },
            hold_sec,
            lon_scale,
        }
    }

    pub open spec fn wf(&self) -> bool {
        &&& coord_in_range(self.target_location.lat)
        &&& coord_in_range(self.target_location.lon)
        &&& 1 <= self.lon_scale <= UNIT
    }

    /// A placement from coordinates in 1e-7 degree; the start is on the ground and
    /// holds for no time, the target is at `target_alt` metres.
    pub fn new(
        start_lat: i32,
        start_lon: i32,
        target_lat: i32,
        target_lon: i32,
        target_alt: u8,
        hold_sec: u8,
        lon_scale: u32,
    ) -> (r: Placement)
        requires
            1 <= lon_scale <= UNIT,
        ensures
            r.wf(),
            r == Placement::new_spec(
                start_lat,
                start_lon,
                target_lat,
                target_lon,
                target_alt,
                hold_sec,
                lon_scale,
            ),
    {
        Placement {
            start: Point::new(start_lat as i64, start_lon as i64, 0, 0),
            target_location: Point::new(target_lat as i64, target_lon as i64, target_alt, 0),
            hold_sec,
            lon_scale,
        }
    }
}

/// The mission of the vehicle whose slot is `off`.
pub open spec fn mission_for(p: Placement, off: Offset) -> Seq<Point> {
    seq![p.start, p.target_location, displaced(p.target_location, off, p.lon_scale as int, p.hold_sec)]
}

/// One mission per offset, in the offsets' order.
pub open spec fn missions_for(p: Placement, offs: Seq<Offset>) -> Seq<Seq<Point>> {
    offs.map_values(|off: Offset| mission_for(p, off))
}

pub open spec fn offsets_in_range(offs: Seq<Offset>) -> bool {
    forall|i: int| 0 <= i < offs.len() ==> offset_in_range(#[trigger] offs[i])
}

/// Builds one three-point mission per offset.
pub fn missions_from_offsets(p: &Placement, offs: &Vec<Offset>) -> (r: Vec<Vec<Point>>)
    requires
        p.wf(),
        offsets_in_range(offs@),
    ensures
        r@.map_values(|m: Vec<Point>| m@) == missions_for(*p, offs@),
{
    let mut ret: Vec<Vec<Point>> = Vec::new();
    let mut i: usize = 0;
    while i < offs.len()
        invariant
            p.wf(),
            offsets_in_range(offs@),
            i <= offs@.len(),
            ret@.len() == i,
            forall|j: int|
                0 <= j < i ==> (#[trigger] ret@[j])@ == mission_for(*p, offs@[j]),
        decreases offs@.len() - i,
    {
        let off = offs[i];
        let mut mission: Vec<Point> = Vec::new();
        mission.push(p.start);
        mission.push(p.target_location);
        mission.push(displace(p.target_location, off, p.lon_scale, p.hold_sec));
        assert(mission@ =~= mission_for(*p, off));
        ret.push(mission);
        i = i + 1;
    }
    assert(ret@.map_values(|m: Vec<Point>| m@) =~= missions_for(*p, offs@));
    ret
}

/// A shape flown by several vehicles.
pub trait ShapeMission {
    spec fn wf(&self) -> bool;

    /// One offset from the target per vehicle, in millimetres.
    spec fn formation(&self) -> Seq<Offset>;

    spec fn placement_spec(&self) -> Placement;

    fn offsets(&self) -> (r: Vec<Offset>)
        requires
            self.wf(),
        ensures
            r@ == self.formation(),
            offsets_in_range(r@),
    ;

    fn placement(&self) -> (r: Placement)
        requires
            self.wf(),
        ensures
            r == self.placement_spec(),
            r.wf(),
    ;

    /// One mission per vehicle: its start, the target, and its slot of the shape.
    fn generate_missions(&self) -> (r: Vec<Vec<Point>>)
        requires
            self.wf(),
        ensures
            r@.map_values(|m: Vec<Point>| m@) == missions_for(
                self.placement_spec(),
                self.formation(),
            ),
            r@.len() == self.formation().len(),
            forall|i: int| 0 <= i < r@.len() ==> (#[trigger] r@[i])@.len() == 3,
    {
        let p = self.placement();
        let offs = self.offsets();
        let r = missions_from_offsets(&p, &offs);
        let ghost views = r@.map_values(|m: Vec<Point>| m@);
        assert(views.len() == r@.len());
        assert(missions_for(p, offs@).len() == offs@.len());
        assert forall|i: int| 0 <= i < r@.len() implies (#[trigger] r@[i])@.len() == 3 by {
            assert(views[i] == r@[i]@);
            assert(missions_for(p, offs@)[i] == mission_for(p, offs@[i]));
        }
        r
    }

    /// The plan that flies `waypoints`.
    fn generate_plan(&self, waypoints: &Vec<Point>) -> (r: PlanDocument)
        requires
            waypoints@.len() >= 1,
            waypoints@.len() < usize::MAX - 1,
        ensures
            r.has_standard_header(),
            r.items@ == plan_items(waypoints@),
    {
        generate_plan(waypoints)
    }

    /// The plan of each vehicle's mission, in the order of `generate_missions`;
    /// plan `i` is the one saved as the `i`-th plan file.
    fn mission_plans(&self) -> (r: Vec<PlanDocument>)
        requires
            self.wf(),
        ensures
            r@.len() == self.formation().len(),
            forall|i: int|
                0 <= i < r@.len() ==> {
                    &&& (#[trigger] r@[i]).has_standard_header()
                    &&& r@[i].items@ == plan_items(
                        missions_for(self.placement_spec(), self.formation())[i],
                    )
                },
    {
        let missions = self.generate_missions();
        let ghost ms = missions_for(self.placement_spec(), self.formation());
        assert(missions@.map_values(|m: Vec<Point>| m@).len() == missions@.len());
        let mut plans: Vec<PlanDocument> = Vec::new();
        let mut i: usize = 0;
        while i < missions.len()
            invariant
                missions@.map_values(|m: Vec<Point>| m@) == ms,
                ms.len() == self.formation().len(),
                ms == missions_for(self.placement_spec(), self.formation()),
                i <= missions@.len(),
                plans@.len() == i,
                forall|j: int|
                    0 <= j < i ==> {
                        &&& (#[trigger] plans@[j]).has_standard_header()
                        &&& plans@[j].items@ == plan_items(ms[j])
                    },
            decreases missions@.len() - i,
        {
            assert(missions@[i as int]@ == ms[i as int]);
            assert(ms[i as int].len() == 3);
            let plan = self.generate_plan(&missions[i]);
            plans.push(plan);
            i = i + 1;
        }
        plans
    }
}

/// Half of `width` metres, in millimetres.
pub open spec fn half_width_mm(width: u8) -> int {
    width as int * 500
}

/// Line slots: the two ends at half the width on either side of the target
/// along `dir` (north by its sine, east by its cosine), then the center.
pub open spec fn line_offsets(width: u8, dir: Direction) -> Seq<Offset> {
    let dy = scaled_mm(half_width_mm(width), dir.sin as int);
    let dx = scaled_mm(half_width_mm(width), dir.cos as int);
    let (pdy, pdx, ndy, ndx) = (dy as i64, dx as i64, (-dy) as i64, (-dx) as i64);
    seq![
        Offset { north_mm: pdy, east_mm: pdx },
        Offset { north_mm: ndy, east_mm: ndx },
        Offset { north_mm: 0, east_mm: 0 },
    ]
}

/// Square corners at half the side from the target on both axes, as
/// (east, north) signs (+,+), (-,+), (-,-), (+,-).
pub open spec fn square_offsets(width: u8) -> Seq<Offset> {
    let (h, nh) = (half_width_mm(width) as i64, (-half_width_mm(width)) as i64);
    seq![
        Offset { north_mm: h, east_mm: h },
        Offset { north_mm: h, east_mm: nh },
        Offset { north_mm: nh, east_mm: nh },
        Offset { north_mm: nh, east_mm: h },
    ]
}

/// Circle slots: vehicle `i` at `radius` metres from the target in direction `ring[i]`.
pub open spec fn circle_offsets(radius: u8, ring: Seq<Direction>) -> Seq<Offset> {
    ring.map_values(
        |d: Direction|
            Offset {
                north_mm: scaled_mm(radius as int * 1000, d.sin as int) as i64,
                east_mm: scaled_mm(radius as int * 1000, d.cos as int) as i64,
            },
    )
}

/// (east, north) signs of the square's corners, in the order they are flown.
pub open spec fn corner_signs() -> Seq<(int, int)> {
    seq![(1int, 1int), (-1int, 1int), (-1int, -1int), (1int, -1int)]
}

/// A square of side `width` is flown by exactly four vehicles, one per corner;
/// each corner is half the side from the target along both axes, and the
/// corners take each of the four sign pairs once.
pub proof fn lemma_square_corners(p: Placement, width: u8)
    ensures
        square_offsets(width).len() == 4,
        missions_for(p, square_offsets(width)).len() == 4,
        forall|i: int| 0 <= i < 4 ==> (#[trigger] missions_for(p, square_offsets(width))[i]).len() == 3,
        forall|i: int|
            0 <= i < 4 ==> {
                &&& (#[trigger] square_offsets(width)[i]).east_mm == corner_signs()[i].0
                    * half_width_mm(width)
                &&& square_offsets(width)[i].north_mm == corner_signs()[i].1 * half_width_mm(width)
            },
        corner_signs().to_set() == set![(1int, 1int), (-1int, 1int), (-1int, -1int), (1int, -1int)],
        corner_signs().no_duplicates(),
{
    let s = corner_signs();
    let offs = square_offsets(width);
    let h = half_width_mm(width);
    assert forall|i: int| 0 <= i < 4 implies {
        &&& (#[trigger] offs[i]).east_mm == s[i].0 * h
        &&& offs[i].north_mm == s[i].1 * h
    } by {
        assert(0 <= h <= 127500);
        if i == 0 {
            assert(s[0] == (1int, 1int));
            assert(offs[0].north_mm == h && offs[0].east_mm == h);
            assert(s[0].0 * h == h) by (nonlinear_arith)
                requires
                    s[0].0 == 1,
            ;
            assert(s[0].1 * h == h) by (nonlinear_arith)
                requires
                    s[0].1 == 1,
            ;
        } else if i == 1 {
            assert(s[1] == (-1int, 1int));
            assert(offs[1].north_mm == h && offs[1].east_mm == -h);
            assert(s[1].0 * h == -h) by (nonlinear_arith)
                requires
                    s[1].0 == -1,
            ;
            assert(s[1].1 * h == h) by (nonlinear_arith)
                requires
                    s[1].1 == 1,
            ;
        } else if i == 2 {
            assert(s[2] == (-1int, -1int));
            assert(offs[2].north_mm == -h && offs[2].east_mm == -h);
            assert(s[2].0 * h == -h) by (nonlinear_arith)
                requires
                    s[2].0 == -1,
            ;
            assert(s[2].1 * h == -h) by (nonlinear_arith)
                requires
                    s[2].1 == -1,
            ;
        } else {
            assert(s[3] == (1int, -1int));
            assert(offs[3].north_mm == -h && offs[3].east_mm == h);
            assert(s[3].0 * h == h) by (nonlinear_arith)
                requires
                    s[3].0 == 1,
            ;
            assert(s[3].1 * h == -h) by (nonlinear_arith)
                requires
                    s[3].1 == -1,
            ;
        }
    }
    assert(s.to_set() =~= set![(1int, 1int), (-1int, 1int), (-1int, -1int), (1int, -1int)]) by {
        assert forall|x: (int, int)| s.to_set().contains(x) implies set![(1int, 1int), (-1int, 1int), (-1int, -1int), (1int, -1int)].contains(x) by {
            assert(s.contains(x));
        }
        assert(s[0] == (1int, 1int));
        assert(s[1] == (-1int, 1int));
        assert(s[2] == (-1int, -1int));
        assert(s[3] == (1int, -1int));
    }
}

/// A line at angle zero (cosine one, sine zero) is flown by exactly three
/// vehicles: two at half the width east and west of the target, one on it.
pub proof fn lemma_line_at_zero_angle(p: Placement, width: u8)
    ensures
        missions_for(p, line_offsets(width, Direction { cos: 1000000, sin: 0 })).len() == 3,
        line_offsets(width, Direction { cos: 1000000, sin: 0 }).len() == 3,
        line_offsets(width, Direction { cos: 1000000, sin: 0 })[0].north_mm == 0,
        line_offsets(width, Direction { cos: 1000000, sin: 0 })[0].east_mm == half_width_mm(width),
        line_offsets(width, Direction { cos: 1000000, sin: 0 })[1].north_mm == 0,
        line_offsets(width, Direction { cos: 1000000, sin: 0 })[1].east_mm == -half_width_mm(width),
        line_offsets(width, Direction { cos: 1000000, sin: 0 })[2] == (Offset { north_mm: 0, east_mm: 0 }),
{
    let h = half_width_mm(width);
    assert(h * 1000000 / 1000000 == h) by (nonlinear_arith)
        requires
            h >= 0,
    ;
}

/// The plan saved for each vehicle has one item more than that vehicle's
/// mission has points: the closing return to launch.
pub proof fn lemma_plan_per_mission(p: Placement, offs: Seq<Offset>, i: int)
    requires
        0 <= i < offs.len(),
    ensures
        missions_for(p, offs)[i].len() == 3,
        plan_items(missions_for(p, offs)[i]).len() == missions_for(p, offs)[i].len() + 1,
{
}

/// Three vehicles in a line of `width` metres at an angle to the latitude axis.
pub struct LineMission {
    width: u8,
    angle: Direction,
    placement: Placement,
}

impl LineMission {
    /// `angle` holds the cosine and sine of the line's angle; coordinates are in
    /// 1e-7 degree and `lon_scale` is the cosine of `target_lat` in millionths.
    pub fn new(
        width: u8,
        angle: Direction,
        start_lat: i32,
        start_lon: i32,
        target_lat: i32,
        target_lon: i32,
        target_alt: u8,
        hold_sec: u8,
        lon_scale: u32,
    ) -> (r: LineMission)
        requires
            angle.wf(),
            1 <= lon_scale <= UNIT,
        ensures
            r.wf(),
            r.formation() == line_offsets(width, angle),
            r.formation().len() == 3,
            r.placement_spec() == Placement::new_spec(
                start_lat,
                start_lon,
                target_lat,
                target_lon,
                target_alt,
                hold_sec,
                lon_scale,
            ),
    {
        LineMission {
            width,
            angle,
            placement: Placement::new(
                start_lat,
                start_lon,
                target_lat,
                target_lon,
                target_alt,
                hold_sec,
                lon_scale,
            ),
        }
    }
}

impl ShapeMission for LineMission {
    closed spec fn wf(&self) -> bool {
        self.angle.wf() && self.placement.wf()
    }

    closed spec fn formation(&self) -> Seq<Offset> {
        line_offsets(self.width, self.angle)
    }

    closed spec fn placement_spec(&self) -> Placement {
        self.placement
    }

    fn offsets(&self) -> (r: Vec<Offset>) {
        let half: i64 = self.width as i64 * 500;
        let dy = scale_mm(half, self.angle.sin);
        let dx = scale_mm(half, self.angle.cos);
        let ndy: i64 = -dy;
        let ndx: i64 = -dx;
        let r = vec![
            Offset { north_mm: dy, east_mm: dx },
            Offset { north_mm: ndy, east_mm: ndx },
            Offset { north_mm: 0, east_mm: 0 },
        ];
        assert(r@ =~= line_offsets(self.width, self.angle));
        r
    }

    fn placement(&self) -> (r: Placement) {
        self.placement
    }
}

/// Four vehicles on the corners of a square with sides of `width` metres.
pub struct SquareMission {
    width: u8,
    placement: Placement,
}

impl SquareMission {
    /// Coordinates are in 1e-7 degree; `lon_scale` is the cosine of `target_lat`
    /// in millionths.
    pub fn new(
        width: u8,
        start_lat: i32,
        start_lon: i32,
        target_lat: i32,
        target_lon: i32,
        target_alt: u8,
        hold_sec: u8,
        lon_scale: u32,
    ) -> (r: SquareMission)
        requires
            1 <= lon_scale <= UNIT,
        ensures
            r.wf(),
            r.formation() == square_offsets(width),
            r.formation().len() == 4,
            r.placement_spec() == Placement::new_spec(
                start_lat,
                start_lon,
                target_lat,
                target_lon,
                target_alt,
                hold_sec,
                lon_scale,
            ),
    {
        SquareMission {
            width,
            placement: Placement::new(
                start_lat,
                start_lon,
                target_lat,
                target_lon,
                target_alt,
                hold_sec,
                lon_scale,
            ),
        }
    }
}

impl ShapeMission for SquareMission {
    closed spec fn wf(&self) -> bool {
        self.placement.wf()
    }

    closed spec fn formation(&self) -> Seq<Offset> {
        square_offsets(self.width)
    }

    closed spec fn placement_spec(&self) -> Placement {
        self.placement
    }

    fn offsets(&self) -> (r: Vec<Offset>) {
        let h: i64 = self.width as i64 * 500;
        let nh: i64 = -h;
        let r = vec![
            Offset { north_mm: h, east_mm: h },
            Offset { north_mm: h, east_mm: nh },
            Offset { north_mm: nh, east_mm: nh },
            Offset { north_mm: nh, east_mm: h },
        ];
        assert(r@ =~= square_offsets(self.width));
        r
    }

    fn placement(&self) -> (r: Placement) {
        self.placement
    }
}

/// `count` vehicles evenly spread on a circle of `radius` metres.
pub struct CircleMission {
    radius: u8,
    count: u8,
    ring: Vec<Direction>,
    placement: Placement,
}

/// Bearing of slot `i` of `count`, in millionths of a degree from the
/// latitude axis: the angle 2*pi*i/count, rounded down.
pub open spec fn bearing_udeg(i: int, count: int) -> int {
    360000000 * i / count
}

/// The bearing of slot `i` of a circle of `count` vehicles; the direction of
/// slot `i` handed to `CircleMission::new` is the cosine and sine of it.
pub fn circle_bearing(i: u8, count: u8) -> (r: u32)
    requires
        i < count,
    ensures
        r == bearing_udeg(i as int, count as int),
        r < 360000000,
{
    assert(360000000 * (i as int) / (count as int) < 360000000) by (nonlinear_arith)
        requires
            0 <= i < count,
    ;
    (360000000u64 * i as u64 / count as u64) as u32
}

impl CircleMission {
    /// `ring[i]` holds the cosine and sine of `circle_bearing(i, count)`;
    /// coordinates are in 1e-7 degree and `lon_scale` is the cosine of
    /// `target_lat` in millionths.
    pub fn new(
        count: u8,
        radius: u8,
        start_lat: i32,
        start_lon: i32,
        target_lat: i32,
        target_lon: i32,
        target_alt: u8,
        hold_sec: u8,
        lon_scale: u32,
        ring: Vec<Direction>,
    ) -> (r: CircleMission)
        requires
            ring@.len() == count,
            forall|i: int| 0 <= i < ring@.len() ==> (#[trigger] ring@[i]).wf(),
            1 <= lon_scale <= UNIT,
        ensures
            r.wf(),
            r.formation() == circle_offsets(radius, ring@),
            r.formation().len() == count,
            r.placement_spec() == Placement::new_spec(
                start_lat,
                start_lon,
                target_lat,
                target_lon,
                target_alt,
                hold_sec,
                lon_scale,
            ),
    {
        CircleMission {
            radius,
            count,
            ring,
            placement: Placement::new(
                start_lat,
                start_lon,
                target_lat,
                target_lon,
                target_alt,
                hold_sec,
                lon_scale,
            ),
        }
    }
}

impl ShapeMission for CircleMission {
    closed spec fn wf(&self) -> bool {
        &&& self.ring@.len() == self.count
        &&& forall|i: int| 0 <= i < self.ring@.len() ==> (#[trigger] self.ring@[i]).wf()
        &&& self.placement.wf()
    }

    closed spec fn formation(&self) -> Seq<Offset> {
        circle_offsets(self.radius, self.ring@)
    }

    closed spec fn placement_spec(&self) -> Placement {
        self.placement
    }

    fn offsets(&self) -> (r: Vec<Offset>) {
        let reach: i64 = self.radius as i64 * 1000;
        let mut r: Vec<Offset> = Vec::new();
        let mut i: usize = 0;
        while i < self.ring.len()
            invariant
                self.wf(),
                reach == self.radius as int * 1000,
                i <= self.ring@.len(),
                r@ =~= circle_offsets(self.radius, self.ring@).take(i as int),
                offsets_in_range(r@),
            decreases self.ring@.len() - i,
        {
            let d = self.ring[i];
            assert(d.wf());
            r.push(
                Offset { north_mm: scale_mm(reach, d.sin), east_mm: scale_mm(reach, d.cos) },
            );
            i = i + 1;
        }
        assert(circle_offsets(self.radius, self.ring@).take(self.ring@.len() as int)
            =~= circle_offsets(self.radius, self.ring@));
        r
    }

    fn placement(&self) -> (r: Placement) {
        self.placement
    }
}

} // verus!
