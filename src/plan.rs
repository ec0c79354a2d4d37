//! The ground-station plan document: a fixed header and an ordered list of
//! mission items (take off, fly to each waypoint, return to launch).
use vstd::prelude::*;
use crate::geo::Point;

verus! {

pub const FILE_TYPE: &'static str = "Plan";

pub const GROUND_STATION: &'static str = "QGroundControl";

pub const ITEM_TYPE: &'static str = "SimpleItem";

/// Altitude, in metres, written into the take-off and waypoint items.
pub const ITEM_ALTITUDE: u8 = 50;

/// The kind of a mission item.
#[derive(Clone, Copy, Debug, PartialEq, Eq, Structural)]
pub enum Command {
    Takeoff,
    Waypoint,
    ReturnToLaunch,
}

pub open spec fn command_code(c: Command) -> u16 {
    match c {
        Command::Takeoff => 22,
        Command::Waypoint => 16,
        Command::ReturnToLaunch => 20,
    }
}

pub open spec fn command_frame(c: Command) -> u8 {
    match c {
        Command::ReturnToLaunch => 2,
        _ => 3,
    }
}

impl Command {
    /// The MAVLink command number of this item kind.
    pub fn code(&self) -> (r: u16)
        ensures
            r == command_code(*self),
    {
        match self {
            Command::Takeoff => 22,
            Command::Waypoint => 16,
            Command::ReturnToLaunch => 20,
        }
    }

    /// The coordinate frame: relative altitude for flown items, mission frame for the return.
    pub fn frame(&self) -> (r: u8)
        ensures
            r == command_frame(*self),
    {
        match self {
            Command::ReturnToLaunch => 2,
            _ => 3,
        }
    }
}

/// One item of a plan. `hold_sec` is the first parameter; `lat`, `lon`
/// (1e-7 degree) and `alt` are the fifth to seventh. A return item carries zeros.
#[derive(Clone, Copy, Debug, PartialEq, Eq, Structural)]
pub struct MissionItem {
    pub command: Command,
    pub jump_id: usize,
    pub hold_sec: u8,
    pub lat: i64,
    pub lon: i64,
    pub alt: u8,
}

pub open spec fn takeoff_item(p: Point) -> MissionItem {
    MissionItem {
        command: Command::Takeoff,
        jump_id: 1,
        hold_sec: 0,
        lat: p.lat,
        lon: p.lon,
        alt: p.alt,
    }
}

pub open spec fn waypoint_item(p: Point, jump_id: usize) -> MissionItem {
    MissionItem {
        command: Command::Waypoint,
        jump_id,
        hold_sec: p.hold_sec,
        lat: p.lat,
        lon: p.lon,
        alt: p.alt,
    }
}

pub open spec fn return_item(jump_id: usize) -> MissionItem {
    MissionItem {
        command: Command::ReturnToLaunch,
        jump_id,
        hold_sec: 0,
        lat: 0,
        lon: 0,
        alt: 0,
    }
}

/// Item `i` of the plan for `w`: take off at the first point, fly to each
/// following point, then return; jump ids count from 1.
pub open spec fn plan_item(w: Seq<Point>, i: int) -> MissionItem {
    if i == 0 {
        takeoff_item(w[0])
    } else if i == w.len() {
        return_item((i + 1) as usize)
    } else {
        waypoint_item(w[i], (i + 1) as usize)
    }
}

pub open spec fn plan_items(w: Seq<Point>) -> Seq<MissionItem> {
    Seq::new(w.len() + 1, |i: int| plan_item(w, i))
}

/// A take-off item at `p`, the first of every plan.
pub fn new_takeoff(p: Point) -> (r: MissionItem)
    ensures
        r == takeoff_item(p),
{
    MissionItem { command: Command::Takeoff, jump_id: 1, hold_sec: 0, lat: p.lat, lon: p.lon, alt: p.alt }
}

/// A waypoint item that flies to `p` and holds there for its hold time.
pub fn new_waypoint(p: Point, jump_id: usize) -> (r: MissionItem)
    ensures
        r == waypoint_item(p, jump_id),
{
    MissionItem {
        command: Command::Waypoint,
        jump_id,
        hold_sec: p.hold_sec,
        lat: p.lat,
        lon: p.lon,
        alt: p.alt,
    }
}

/// The closing return-to-launch item.
pub fn new_return(jump_id: usize) -> (r: MissionItem)
    ensures
        r == return_item(jump_id),
{
    MissionItem { command: Command::ReturnToLaunch, jump_id, hold_sec: 0, lat: 0, lon: 0, alt: 0 }
}

/// A plan document. The header values are those a ground station expects of a
/// multirotor plan; the planned home is (lat, lon, alt) in 1e-7 degree and metres.
pub struct PlanDocument {
    pub version: u8,
    pub geofence_version: u8,
    pub cruise_speed: u8,
    pub firmware_type: u8,
    pub global_plan_altitude_mode: u8,
    pub hover_speed: u8,
    pub planned_home: (i64, i64, u8),
    pub vehicle_type: u8,
    pub mission_version: u8,
    pub rally_version: u8,
    pub items: Vec<MissionItem>,
}

impl PlanDocument {
    pub open spec fn has_standard_header(&self) -> bool {
        &&& self.version == 1
        &&& self.geofence_version == 2
        &&& self.cruise_speed == 15
        &&& self.firmware_type == 12
        &&& self.global_plan_altitude_mode == 1
        &&& self.hover_speed == 5
        &&& self.planned_home == (0i64, 0i64, 50u8)
        &&& self.vehicle_type == 2
        &&& self.mission_version == 2
        &&& self.rally_version == 2
    }
}

/// An empty plan with the standard header.
pub fn new_qgc_plan() -> (r: PlanDocument)
    ensures
        r.has_standard_header(),
        r.items@.len() == 0,
{
    PlanDocument {
        version: 1,
        geofence_version: 2,
        cruise_speed: 15,
        firmware_type: 12,
        global_plan_altitude_mode: 1,
        hover_speed: 5,
        planned_home: (0, 0, 50),
        vehicle_type: 2,
        mission_version: 2,
        rally_version: 2,
        items: Vec::new(),
    }
}

/// The plan that flies `waypoints`: a take-off at the first, a waypoint item
/// for each of the others, and a return to launch.
pub fn generate_plan(waypoints: &Vec<Point>) -> (r: PlanDocument)
    requires
        waypoints@.len() >= 1,
        waypoints@.len() < usize::MAX - 1,
    ensures
        r.has_standard_header(),
        r.items@ == plan_items(waypoints@),
{
    let mut plan = new_qgc_plan();
    let n = waypoints.len();
    let mut i: usize = 0;
    while i <= n
        invariant
            n == waypoints@.len(),
            1 <= n < usize::MAX - 1,
            i <= n + 1,
            plan.has_standard_header(),
            plan.items@ =~= plan_items(waypoints@).take(i as int),
        decreases n + 1 - i,
    {
        let item = if i == 0 {
            new_takeoff(waypoints[0])
        } else if i == n {
            new_return(i + 1)
        } else {
            new_waypoint(waypoints[i], i + 1)
        };
        plan.items.push(item);
        proof {
            assert(plan_items(waypoints@).take(i + 1) =~= plan_items(waypoints@).take(
                i as int,
            ).push(plan_item(waypoints@, i as int)));
        }
        i = i + 1;
    }
    assert(plan_items(waypoints@).take(n + 1) =~= plan_items(waypoints@));
    plan
}

/// A plan for `n` waypoints has `n + 1` items: a take-off (command 22) first,
/// a return to launch (command 20) last, waypoints (command 16) in between,
/// and jump ids that start at 1 and strictly increase.
pub proof fn lemma_plan_layout(w: Seq<Point>)
    requires
        w.len() >= 1,
        w.len() < usize::MAX - 1,
    ensures
        plan_items(w).len() == w.len() + 1,
        command_code(plan_items(w)[0].command) == 22,
        command_code(plan_items(w)[w.len() as int].command) == 20,
        forall|i: int| 1 <= i < w.len() ==> command_code(#[trigger] plan_items(w)[i].command) == 16,
        plan_items(w)[0].jump_id == 1,
        forall|i: int, j: int|
            0 <= i < j <= w.len() ==> #[trigger] plan_items(w)[i].jump_id
                < #[trigger] plan_items(w)[j].jump_id,
{
}

} // verus!
