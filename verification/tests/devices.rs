use quillspeak::devices::{chars_less, DeviceIdentity, DeviceSetSnapshot};

fn identity(path: &str, name: &str) -> DeviceIdentity {
    DeviceIdentity { path: path.to_string(), name: name.to_string() }
}

#[test]
fn device_set_snapshot_is_order_independent() {
    let devices = [
        identity("/dev/input/event2", "Second"),
        identity("/dev/input/event1", "First"),
    ];
    let unsorted = devices.to_vec();
    let mut reversed = devices.to_vec();
    reversed.reverse();

    let first = DeviceSetSnapshot::from_devices(&unsorted);
    let second = DeviceSetSnapshot::from_devices(&reversed);

    assert_eq!(first, second);
    assert_eq!(first.devices[0].path, "/dev/input/event1");
    assert_eq!(first.devices[1].path, "/dev/input/event2");
}

#[test]
fn snapshot_keeps_scan_order_for_equal_paths() {
    let devices = vec![
        identity("/dev/input/event3", "B"),
        identity("/dev/input/event1", "A"),
        identity("/dev/input/event3", "C"),
    ];
    let snapshot = DeviceSetSnapshot::from_devices(&devices);
    let names: Vec<&str> = snapshot.devices.iter().map(|d| d.name.as_str()).collect();
    assert_eq!(names, vec!["A", "B", "C"]);
}

#[test]
fn snapshot_orders_by_code_point() {
    let devices = vec![
        identity("/dev/input/event2", "two"),
        identity("/dev/input/event10", "ten"),
        identity("/dev/input/event", "bare"),
    ];
    let snapshot = DeviceSetSnapshot::from_devices(&devices);
    let names: Vec<&str> = snapshot.devices.iter().map(|d| d.name.as_str()).collect();
    assert_eq!(names, vec!["bare", "ten", "two"]);
}

#[test]
fn display_label_lists_devices_or_none() {
    let empty = DeviceSetSnapshot::from_devices(&Vec::new());
    assert_eq!(empty.display_label(), "none");

    let snapshot = DeviceSetSnapshot::from_devices(&vec![
        identity("/dev/input/event4", "Keyboard B"),
        identity("/dev/input/event1", "Keyboard A"),
    ]);
    assert_eq!(
        snapshot.display_label(),
        "Keyboard A (/dev/input/event1), Keyboard B (/dev/input/event4)"
    );
}

#[test]
fn chars_less_is_strict_lexicographic_order() {
    let a: Vec<char> = "abc".chars().collect();
    let b: Vec<char> = "abd".chars().collect();
    let prefix: Vec<char> = "ab".chars().collect();
    assert!(chars_less(&a, &b));
    assert!(!chars_less(&b, &a));
    assert!(chars_less(&prefix, &a));
    assert!(!chars_less(&a, &prefix));
    assert!(!chars_less(&a, &a));
}
