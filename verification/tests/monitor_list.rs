use streamer::monitors::MonitorInfo;

#[test]
fn monitor_is_identified_by_its_position_from_zero() {
    let first = MonitorInfo::describe(0, Some("DELL U2720Q".to_string()), 0, 0, 3840, 2160);
    assert_eq!(
        first,
        MonitorInfo {
            id: "monitor-0".to_string(),
            name: "DELL U2720Q".to_string(),
            x: 0,
            y: 0,
            width: 3840,
            height: 2160,
        }
    );
    let twelfth = MonitorInfo::describe(11, Some("x".to_string()), -1920, 40, 1920, 1080);
    assert_eq!(twelfth.id, "monitor-11");
    assert_eq!(twelfth.x, -1920);
    assert_eq!(twelfth.y, 40);
}

#[test]
fn unnamed_monitor_is_numbered_from_one() {
    assert_eq!(MonitorInfo::describe(0, None, 0, 0, 1, 1).name, "Monitor 1");
    assert_eq!(MonitorInfo::describe(9, None, 0, 0, 1, 1).name, "Monitor 10");
    assert_eq!(MonitorInfo::describe(9, None, 0, 0, 1, 1).id, "monitor-9");
    assert_eq!(
        MonitorInfo::describe(usize::MAX - 1, None, 0, 0, 1, 1).name,
        format!("Monitor {}", usize::MAX)
    );
}

#[test]
fn reported_name_is_kept_even_when_empty() {
    assert_eq!(MonitorInfo::describe(3, Some(String::new()), 0, 0, 1, 1).name, "");
}
