use flightctl::manager::{ConnectionError, Manager, TargetStatus};

#[test]
fn manager_it_works() {
    let result = 2 + 2;
    assert_eq!(result, 4);
}

#[test]
fn manager_constructor() {
    let mgr: Manager<u32> = Manager::new();
    assert!(mgr.targets.is_empty());
}

#[test]
fn manager_add_target() {
    let mut mgr: Manager<u32> = Manager::new();
    mgr.add_target("somewhere", Ok(7)).unwrap();

    let t = mgr.targets.get(0).unwrap();
    assert_eq!(t.url, "somewhere");
    assert_eq!(t.connection, 7);
    assert_eq!(t.status, TargetStatus::Connected);
}

#[test]
fn failed_single_dial_is_reported() {
    let mut mgr: Manager<u32> = Manager::new();
    let err = ConnectionError { reason: "refused".to_string() };
    assert_eq!(mgr.add_target("udp://:14540", Err(err.clone())), Err(err));
    assert!(mgr.targets.is_empty());
}

fn outcomes(order: &[usize]) -> Vec<(String, Result<u32, ConnectionError>)> {
    let all = vec![
        ("udp://:14540".to_string(), Ok(40)),
        ("udp://:14541".to_string(), Err(ConnectionError { reason: "timeout".to_string() })),
        ("udp://:14542".to_string(), Ok(42)),
        ("udp://:14543".to_string(), Ok(43)),
        ("udp://:14544".to_string(), Err(ConnectionError { reason: "refused".to_string() })),
    ];
    order.iter().map(|&i| all[i].clone()).collect()
}

#[test]
fn batch_keeps_exactly_the_successes() {
    let mut mgr: Manager<u32> = Manager::new();
    let failures = mgr.add_targets(outcomes(&[0, 1, 2, 3, 4]));
    assert_eq!(mgr.targets.len(), 3);
    let urls: Vec<&str> = mgr.targets.iter().map(|t| t.url.as_str()).collect();
    assert_eq!(urls, vec!["udp://:14540", "udp://:14542", "udp://:14543"]);
    let ids: Vec<usize> = mgr.targets.iter().map(|t| t.id).collect();
    assert_eq!(ids, vec![0, 1, 2]);
    assert_eq!(failures.len(), 2);
    assert_eq!(failures[0].0, "udp://:14541");
    assert_eq!(failures[1].1.reason, "refused");
}

#[test]
fn batch_result_does_not_depend_on_completion_order() {
    let mut a: Manager<u32> = Manager::new();
    let mut b: Manager<u32> = Manager::new();
    a.add_targets(outcomes(&[0, 1, 2, 3, 4]));
    b.add_targets(outcomes(&[4, 3, 2, 1, 0]));
    assert_eq!(a.targets.len(), b.targets.len());
    let mut ua: Vec<String> = a.targets.iter().map(|t| t.url.clone()).collect();
    let mut ub: Vec<String> = b.targets.iter().map(|t| t.url.clone()).collect();
    ua.sort();
    ub.sort();
    assert_eq!(ua, ub);
}

#[test]
fn batch_appends_after_existing_and_keeps_duplicates() {
    let mut mgr: Manager<u32> = Manager::new();
    mgr.add_target("udp://:14540", Ok(1)).unwrap();
    mgr.add_targets(vec![
        ("udp://:14540".to_string(), Ok(2)),
        ("udp://:14540".to_string(), Ok(3)),
    ]);
    assert_eq!(mgr.targets.len(), 3);
    assert_eq!(mgr.targets[2].id, 2);
    assert_eq!(mgr.targets[2].connection, 3);
    assert_eq!(mgr.targets[1].url, "udp://:14540");
}

#[test]
fn empty_batch_changes_nothing() {
    let mut mgr: Manager<u32> = Manager::new();
    assert!(mgr.add_targets(Vec::new()).is_empty());
    assert!(mgr.targets.is_empty());
}
