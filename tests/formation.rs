use flightctl::formation::{circle_bearing, CircleMission, LineMission, ShapeMission, SquareMission};
use flightctl::geo::{displace, scale_mm, Direction, Offset, Point};

fn direction_of(bearing_udeg: u32) -> Direction {
    let rad = (bearing_udeg as f64 / 1_000_000.0).to_radians();
    Direction {
        cos: (rad.cos() * 1_000_000.0).round() as i32,
        sin: (rad.sin() * 1_000_000.0).round() as i32,
    }
}

fn ring(count: u8) -> Vec<Direction> {
    (0..count).map(|i| direction_of(circle_bearing(i, count))).collect()
}

#[test]
fn circle_of_four_around_origin() {
    let mission = CircleMission::new(4, 100, 10, 20, 0, 0, 30, 5, 1_000_000, ring(4));
    let missions = mission.generate_missions();
    assert_eq!(missions.len(), 4);
    let target = Point::new(0, 0, 30, 0);
    let mut angles = Vec::new();
    for m in &missions {
        assert_eq!(m.len(), 3);
        assert_eq!(m[0], Point::new(10, 20, 0, 0));
        assert_eq!(m[1], target);
        let slot = m[2];
        assert_eq!(slot.alt, 30);
        assert_eq!(slot.hold_sec, 5);
        let north_m = slot.lat as f64 * 1e-7 * 111_111.0;
        let east_m = slot.lon as f64 * 1e-7 * 111_111.0;
        let dist = (north_m * north_m + east_m * east_m).sqrt();
        assert!((dist - 100.0).abs() < 0.01, "distance {}", dist);
        angles.push(north_m.atan2(east_m).to_degrees());
    }
    for w in angles.windows(2) {
        let step = (w[1] - w[0]).rem_euclid(360.0);
        assert!((step - 90.0).abs() < 1e-6, "step {}", step);
    }
    assert_eq!(missions[0][2], Point::new(0, 9000, 30, 5));
    assert_eq!(missions[1][2], Point::new(9000, 0, 30, 5));
    assert_eq!(missions[2][2], Point::new(0, -9000, 30, 5));
    assert_eq!(missions[3][2], Point::new(-9000, 0, 30, 5));
}

#[test]
fn circle_bearings_split_the_turn() {
    assert_eq!(circle_bearing(0, 4), 0);
    assert_eq!(circle_bearing(1, 4), 90_000_000);
    assert_eq!(circle_bearing(3, 4), 270_000_000);
    assert_eq!(circle_bearing(1, 3), 120_000_000);
    assert_eq!(circle_bearing(1, 7), 51_428_571);
}

#[test]
fn circle_of_none_has_no_missions() {
    let mission = CircleMission::new(0, 50, 0, 0, 0, 0, 10, 1, 1_000_000, Vec::new());
    assert!(mission.generate_missions().is_empty());
    assert!(mission.mission_plans().is_empty());
}

#[test]
fn square_corners_take_every_sign_pair() {
    let width: u8 = 20;
    let mission = SquareMission::new(width, 0, 0, 473_977_419, 85_455_938, 40, 3, 674_000);
    let offsets = mission.offsets();
    assert_eq!(offsets.len(), 4);
    let signs: Vec<(i64, i64)> = offsets.iter().map(|o| (o.east_mm.signum(), o.north_mm.signum())).collect();
    assert_eq!(signs, vec![(1, 1), (-1, 1), (-1, -1), (1, -1)]);
    for o in &offsets {
        assert_eq!(o.east_mm.abs(), 10_000);
        assert_eq!(o.north_mm.abs(), 10_000);
    }
    let missions = mission.generate_missions();
    assert_eq!(missions.len(), 4);
    // 10 m north is 900 units of 1e-7 degree; 10 m east at a scale of 0.674 is 1335.
    assert_eq!(missions[0][2], Point::new(473_977_419 + 900, 85_455_938 + 1335, 40, 3));
    assert_eq!(missions[2][2], Point::new(473_977_419 - 900, 85_455_938 - 1335, 40, 3));
}

#[test]
fn line_at_zero_angle_spreads_east_and_west() {
    let width: u8 = 30;
    let mission = LineMission::new(width, Direction { cos: 1_000_000, sin: 0 }, 0, 0, 0, 0, 25, 4, 1_000_000);
    let offsets = mission.offsets();
    assert_eq!(
        offsets,
        vec![
            Offset { north_mm: 0, east_mm: 15_000 },
            Offset { north_mm: 0, east_mm: -15_000 },
            Offset { north_mm: 0, east_mm: 0 },
        ]
    );
    let missions = mission.generate_missions();
    assert_eq!(missions.len(), 3);
    assert_eq!(missions[0][2], Point::new(0, 1350, 25, 4));
    assert_eq!(missions[1][2], Point::new(0, -1350, 25, 4));
    assert_eq!(missions[2][2], Point::new(0, 0, 25, 4));
}

#[test]
fn line_at_right_angle_spreads_north_and_south() {
    let mission = LineMission::new(10, Direction { cos: 0, sin: 1_000_000 }, 0, 0, 0, 0, 25, 4, 1_000_000);
    let offsets = mission.offsets();
    assert_eq!(offsets[0], Offset { north_mm: 5_000, east_mm: 0 });
    assert_eq!(offsets[1], Offset { north_mm: -5_000, east_mm: 0 });
}

#[test]
fn displacement_converts_metres_to_degrees() {
    let center = Point::new(0, 0, 12, 0);
    let p = displace(center, Offset { north_mm: 100_000, east_mm: 0 }, 1_000_000, 7);
    assert_eq!(p, Point::new(9000, 0, 12, 7));
    // at 60 degrees of latitude a metre east spans twice the longitude
    let q = displace(center, Offset { north_mm: 0, east_mm: 100_000 }, 500_000, 7);
    assert_eq!(q, Point::new(0, 18_000, 12, 7));
    let r = displace(center, Offset { north_mm: -100_000, east_mm: -100_000 }, 1_000_000, 0);
    assert_eq!(r, Point::new(-9000, -9000, 12, 0));
}

#[test]
fn scaling_rounds_toward_zero() {
    assert_eq!(scale_mm(1_000, 500_000), 500);
    assert_eq!(scale_mm(3, 500_000), 1);
    assert_eq!(scale_mm(3, -500_000), -1);
    assert_eq!(scale_mm(-3, 500_000), -1);
}

#[test]
fn mission_plans_follow_missions() {
    let mission = SquareMission::new(8, 1, 2, 3, 4, 20, 6, 1_000_000);
    let missions = mission.generate_missions();
    let plans = mission.mission_plans();
    assert_eq!(plans.len(), missions.len());
    for (plan, m) in plans.iter().zip(missions.iter()) {
        assert_eq!(plan.items.len(), m.len() + 1);
        assert_eq!(plan.items[1].lat, m[1].lat);
        assert_eq!(plan.items[2].lat, m[2].lat);
        assert_eq!(plan.items[2].hold_sec, 6);
    }
}
