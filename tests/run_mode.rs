use flightctl::app::Key;
use flightctl::run_mode::{
    pair_vehicles_with_plans, progress_ratio, start_workers, RunApp, RunAppState, RunError, RunEvent,
};

#[test]
fn progress_with_no_steps_is_zero() {
    assert_eq!(progress_ratio(0, 0), 0);
    assert_eq!(progress_ratio(5, 0), 0);
    assert_eq!(progress_ratio(3, -2), 0);
}

#[test]
fn progress_ratio_in_millionths() {
    assert_eq!(progress_ratio(1, 4), 250_000);
    assert_eq!(progress_ratio(1, 3), 333_333);
    assert_eq!(progress_ratio(4, 4), 1_000_000);
    assert_eq!(progress_ratio(9, 4), 1_000_000);
    assert_eq!(progress_ratio(-1, 4), 0);
    assert_eq!(progress_ratio(i32::MAX - 1, i32::MAX), 999_999);
}

#[test]
fn pairing_needs_equal_counts() {
    let v = vec!["udp://:14540".to_string(), "udp://:14541".to_string()];
    let p = vec!["plan_0.plan".to_string()];
    assert_eq!(
        pair_vehicles_with_plans(v, p).unwrap_err(),
        RunError::CountMismatch { vehicles: 2, plans: 1 }
    );
}

#[test]
fn pairing_and_worker_ids() {
    let v = vec!["udp://:14540".to_string(), "udp://:14541".to_string()];
    let p = vec!["a.plan".to_string(), "b.plan".to_string()];
    let pairs = pair_vehicles_with_plans(v, p).unwrap();
    assert_eq!(pairs[1], ("udp://:14541".to_string(), "b.plan".to_string()));
    let workers = start_workers(&pairs);
    assert_eq!(workers.len(), 2);
    assert_eq!(workers[0].id, 0);
    assert_eq!(workers[1].id, 1);
    assert_eq!(workers[1].endpoint, "udp://:14541");
    assert_eq!(workers[1].plan_path, "b.plan");
    assert_eq!(workers[1].check_plan(false), Err(RunError::PlanNotFound { worker: 1 }));
    assert_eq!(workers[0].check_plan(true), Ok(()));
}

#[test]
fn events_update_the_shared_state() {
    let mut state = RunAppState::new(3);
    assert_eq!(state.progress, vec![0, 0, 0]);
    assert_eq!(state.logs, vec![(0, "Loading Mavsdk".to_string())]);
    assert!(!state.apply(1, RunEvent::Progress { current: 1, total: 2 }));
    assert_eq!(state.progress, vec![0, 500_000, 0]);
    assert!(!state.apply(2, RunEvent::Log("armed".to_string())));
    assert_eq!(state.logs[1], (2, "armed".to_string()));
    assert!(!state.apply(2, RunEvent::Position { lat: 1, lon: 2, alt_mm: 3 }));
    assert_eq!(state.progress, vec![0, 500_000, 0]);
    assert_eq!(state.logs.len(), 2);
    assert!(state.apply(1, RunEvent::Complete));
    state.save_progress(0, 0, 0);
    assert_eq!(state.progress[0], 0);
}

#[test]
fn run_app_keys() {
    let mut app = RunApp::new("FlightCTL", true);
    assert_eq!(app.tabs.titles, vec!["Overview", "Connections"]);
    app.on_event(Key::Right);
    assert_eq!(app.tabs.index, 1);
    app.on_event(Key::Right);
    assert_eq!(app.tabs.index, 0);
    app.on_event(Key::Left);
    assert_eq!(app.tabs.index, 1);
    app.on_left();
    assert_eq!(app.tabs.index, 0);
    app.on_right();
    assert_eq!(app.tabs.index, 1);
    app.on_key('x');
    assert!(!app.should_quit);
    app.on_event(Key::Char('q'));
    assert!(app.should_quit);
}
