use scrcpy_gui_lib::commands::device::{
    answers_queries, describe, forget, is_wireless_serial, merge_devices, merge_devices_at,
    parse_adb_output, read_battery_level, register, AdbDevice, DeviceInfo,
};

#[test]
fn wireless_detection_by_serial() {
    let usb_serial = "abc123";
    let wireless_serial = "192.168.1.100:5555";
    assert!(!is_wireless_serial(usb_serial));
    assert!(is_wireless_serial(wireless_serial));
}

#[test]
fn parse_adb_output_parses_standard_output() {
    let output = "List of devices attached\nabc123\tdevice\n192.168.1.5:5555\tdevice\n\n";
    let devices = parse_adb_output(output);
    assert_eq!(devices.len(), 2);
    assert_eq!(devices[0].serial, "abc123");
    assert_eq!(devices[0].status, "device");
    assert_eq!(devices[1].serial, "192.168.1.5:5555");
}

#[test]
fn parse_adb_output_handles_empty() {
    let output = "List of devices attached\n\n";
    let devices = parse_adb_output(output);
    assert_eq!(devices.len(), 0);
}

#[test]
fn merge_adds_new_device_from_adb() {
    let registry = Vec::new();
    let adb = vec![AdbDevice {
        serial: "abc123".to_string(),
        status: "device".to_string(),
    }];
    let (devices, needs_props) = merge_devices(registry, &adb);
    assert_eq!(devices.len(), 1);
    assert_eq!(devices[0].serial, "abc123");
    assert_eq!(devices[0].status, "device");
    assert!(devices[0].last_seen.is_some());
    assert!(!devices[0].first_seen.is_empty());
    assert!(needs_props.contains(&"abc123".to_string()));
}

#[test]
fn merge_marks_missing_device_as_disconnected() {
    let registry = vec![DeviceInfo {
        serial: "abc123".to_string(),
        status: "device".to_string(),
        model: Some("Pixel 7".to_string()),
        android_version: Some("14".to_string()),
        battery_level: Some(80),
        is_wireless: false,
        last_seen: Some("2026-01-10T08:00:00+00:00".to_string()),
        first_seen: "2026-01-01T00:00:00+00:00".to_string(),
    }];
    let adb: Vec<AdbDevice> = Vec::new();
    let (devices, needs_props) = merge_devices(registry, &adb);
    assert_eq!(devices.len(), 1);
    assert_eq!(devices[0].status, "disconnected");
    // Cached metadata preserved
    assert_eq!(devices[0].model, Some("Pixel 7".to_string()));
    assert_eq!(devices[0].android_version, Some("14".to_string()));
    assert_eq!(devices[0].battery_level, Some(80));
    assert!(needs_props.is_empty());
}

#[test]
fn merge_reconnects_disconnected_device() {
    let registry = vec![DeviceInfo {
        serial: "abc123".to_string(),
        status: "disconnected".to_string(),
        model: Some("Pixel 7".to_string()),
        android_version: Some("14".to_string()),
        battery_level: Some(80),
        is_wireless: false,
        last_seen: Some("2026-01-10T08:00:00+00:00".to_string()),
        first_seen: "2026-01-01T00:00:00+00:00".to_string(),
    }];
    let adb = vec![AdbDevice {
        serial: "abc123".to_string(),
        status: "device".to_string(),
    }];
    let (devices, needs_props) = merge_devices(registry, &adb);
    assert_eq!(devices.len(), 1);
    assert_eq!(devices[0].status, "device");
    // Props should be re-fetched for reconnected device
    assert!(needs_props.contains(&"abc123".to_string()));
    // first_seen preserved
    assert_eq!(devices[0].first_seen, "2026-01-01T00:00:00+00:00");
}

#[test]
fn merge_preserves_metadata_for_disconnected() {
    let registry = vec![DeviceInfo {
        serial: "abc123".to_string(),
        status: "device".to_string(),
        model: Some("Pixel 7".to_string()),
        android_version: Some("14".to_string()),
        battery_level: Some(55),
        is_wireless: false,
        last_seen: Some("2026-01-10T08:00:00+00:00".to_string()),
        first_seen: "2026-01-01T00:00:00+00:00".to_string(),
    }];
    let adb: Vec<AdbDevice> = Vec::new();
    let (devices, _) = merge_devices(registry, &adb);
    // All cached fields preserved when disconnected
    assert_eq!(devices[0].model, Some("Pixel 7".to_string()));
    assert_eq!(devices[0].battery_level, Some(55));
    assert_eq!(devices[0].first_seen, "2026-01-01T00:00:00+00:00");
    // last_seen NOT updated when disconnected
    assert_eq!(
        devices[0].last_seen,
        Some("2026-01-10T08:00:00+00:00".to_string())
    );
}

#[test]
fn merge_handles_unauthorized_device() {
    let registry = Vec::new();
    let adb = vec![AdbDevice {
        serial: "abc456".to_string(),
        status: "unauthorized".to_string(),
    }];
    let (devices, needs_props) = merge_devices(registry, &adb);
    assert_eq!(devices.len(), 1);
    assert_eq!(devices[0].status, "unauthorized");
    // unauthorized devices don't need prop fetch
    assert!(needs_props.is_empty());
}

fn known(serial: &str, status: &str, model: Option<&str>) -> DeviceInfo {
    DeviceInfo {
        serial: serial.to_string(),
        status: status.to_string(),
        model: model.map(|m| m.to_string()),
        android_version: None,
        battery_level: None,
        is_wireless: false,
        last_seen: None,
        first_seen: "then".to_string(),
    }
}

fn listed(serial: &str, status: &str) -> AdbDevice {
    AdbDevice { serial: serial.to_string(), status: status.to_string() }
}

#[test]
fn merge_at_a_given_time_stamps_what_adb_shows() {
    let registry = vec![known("a", "device", Some("Pixel")), known("b", "offline", Some("Nexus"))];
    let adb = vec![listed("b", "device"), listed("c:5555", "device"), listed("d", "offline")];
    let (devices, needs_props) = merge_devices_at(registry, &adb, "now");
    assert_eq!(devices.len(), 4);
    assert_eq!(devices[0].serial, "a");
    assert_eq!(devices[0].status, "disconnected");
    assert_eq!(devices[0].last_seen, None);
    assert_eq!(devices[1].serial, "b");
    assert_eq!(devices[1].status, "device");
    assert_eq!(devices[1].last_seen, Some("now".to_string()));
    assert_eq!(devices[1].first_seen, "then");
    assert_eq!(devices[2].serial, "c:5555");
    assert!(devices[2].is_wireless);
    assert_eq!(devices[2].first_seen, "now");
    assert_eq!(devices[2].last_seen, Some("now".to_string()));
    assert_eq!(devices[2].model, None);
    assert_eq!(devices[3].serial, "d");
    assert!(!devices[3].is_wireless);
    assert_eq!(needs_props, vec!["b".to_string(), "c:5555".to_string()]);
}

#[test]
fn merge_fetches_props_only_when_needed() {
    // Connected before and of known model: nothing to fetch.
    let (_, needs) = merge_devices_at(
        vec![known("a", "device", Some("Pixel"))],
        &[listed("a", "device")],
        "now",
    );
    assert!(needs.is_empty());
    // Of unknown model: fetch.
    let (_, needs) =
        merge_devices_at(vec![known("a", "device", None)], &[listed("a", "device")], "now");
    assert_eq!(needs, vec!["a".to_string()]);
    // Was unauthorized: fetch.
    let (_, needs) = merge_devices_at(
        vec![known("a", "unauthorized", Some("Pixel"))],
        &[listed("a", "device")],
        "now",
    );
    assert_eq!(needs, vec!["a".to_string()]);
    // Still not usable: nothing to fetch.
    let (devices, needs) = merge_devices_at(
        vec![known("a", "offline", None)],
        &[listed("a", "unauthorized")],
        "now",
    );
    assert_eq!(devices[0].status, "unauthorized");
    assert!(needs.is_empty());
}

#[test]
fn merge_takes_the_last_listing_of_a_serial() {
    let adb = vec![listed("a", "offline"), listed("a", "device"), listed("n", "offline"), listed("n", "device")];
    let (devices, needs) = merge_devices_at(vec![known("a", "device", Some("P"))], &adb, "now");
    assert_eq!(devices.len(), 2);
    assert_eq!(devices[0].status, "device");
    assert_eq!(devices[1].serial, "n");
    assert_eq!(devices[1].status, "device");
    assert_eq!(needs, vec!["n".to_string()]);
}

#[test]
fn merge_gives_a_listing_to_the_first_of_two_registered_twins() {
    let registry = vec![known("a", "offline", Some("P")), known("a", "device", Some("P"))];
    let (devices, needs) = merge_devices_at(registry, &[listed("a", "device")], "now");
    assert_eq!(devices.len(), 2);
    assert_eq!(devices[0].status, "device");
    assert_eq!(devices[1].status, "disconnected");
    assert_eq!(needs, vec!["a".to_string()]);
}

#[test]
fn parse_adb_output_reads_words_and_skips_short_lines() {
    let output = "List of devices attached\r\n  emulator-5554\tdevice product:x\r\nlonely\n\nABC123   unauthorized\n";
    let devices = parse_adb_output(output);
    assert_eq!(devices.len(), 2);
    assert_eq!(devices[0].serial, "emulator-5554");
    assert_eq!(devices[0].status, "device");
    assert_eq!(devices[1].serial, "ABC123");
    assert_eq!(devices[1].status, "unauthorized");
    assert_eq!(parse_adb_output("").len(), 0);
    assert_eq!(parse_adb_output("abc device").len(), 0);
    assert_eq!(parse_adb_output("heading\nabc device").len(), 1);
}

#[test]
fn battery_level_is_read_from_the_line_that_names_it() {
    assert_eq!(read_battery_level("  status: 2\n  level: 85\n  scale: 100\n"), Ok(85));
    assert_eq!(read_battery_level("level:-3"), Ok(-3));
    assert_eq!(
        read_battery_level("level: high\nlevel: 5"),
        Err("Parse error".to_string())
    );
    assert_eq!(read_battery_level("level:"), Err("Parse error".to_string()));
    // A line with a second colon is passed over.
    assert_eq!(read_battery_level("level: 1:2\nlevel: 7"), Ok(7));
    assert_eq!(read_battery_level("a: level: 1"), Err("Level not found".to_string()));
    assert_eq!(read_battery_level("scale: 100"), Err("Level not found".to_string()));
    assert_eq!(read_battery_level(""), Err("Level not found".to_string()));
}

#[test]
fn a_listed_device_is_described_with_what_was_fetched() {
    assert!(answers_queries(&listed("a", "device")));
    assert!(!answers_queries(&listed("a", "offline")));
    let device = describe(
        listed("10.0.0.5:5555", "device"),
        Some("Pixel 7".to_string()),
        None,
        Some(85),
        "2026-01-15T10:30:00+00:00",
    );
    assert_eq!(device.serial, "10.0.0.5:5555");
    assert_eq!(device.status, "device");
    assert_eq!(device.model, Some("Pixel 7".to_string()));
    assert_eq!(device.android_version, None);
    assert_eq!(device.battery_level, Some(85));
    assert!(device.is_wireless);
    assert_eq!(device.last_seen, Some("2026-01-15T10:30:00+00:00".to_string()));
    assert_eq!(device.first_seen, "2026-01-15T10:30:00+00:00");
}

fn shown(serial: &str, status: &str, model: Option<&str>) -> DeviceInfo {
    DeviceInfo {
        serial: serial.to_string(),
        status: status.to_string(),
        model: model.map(|m| m.to_string()),
        android_version: Some("14".to_string()),
        battery_level: Some(60),
        is_wireless: true,
        last_seen: Some("seen".to_string()),
        first_seen: "seen".to_string(),
    }
}

#[test]
fn registering_a_new_device_enters_it_as_adb_shows_it() {
    let registry = vec![known("a", "device", Some("P"))];
    let (device, changed) = register(
        registry,
        "b",
        Ok(vec![shown("a", "device", None), shown("b", "device", Some("Nexus"))]),
        "now",
    )
    .unwrap();
    assert_eq!(device.serial, "b");
    assert_eq!(device.model, Some("Nexus".to_string()));
    assert_eq!(device.first_seen, "now");
    assert_eq!(device.last_seen, Some("now".to_string()));
    let registry = changed.unwrap();
    assert_eq!(registry.len(), 2);
    assert_eq!(registry[0].serial, "a");
    assert_eq!(registry[1].serial, "b");
    assert_eq!(registry[1].first_seen, "now");
}

#[test]
fn registering_a_new_device_fails_when_adb_does_not_show_it() {
    assert_eq!(
        register(Vec::new(), "b", Ok(vec![shown("a", "device", None)]), "now").unwrap_err(),
        "Device not found in adb devices"
    );
    assert_eq!(
        register(Vec::new(), "b", Err("adb devices command failed".to_string()), "now")
            .unwrap_err(),
        "adb devices command failed"
    );
}

#[test]
fn registering_a_known_device_brings_it_up_to_date() {
    // Of known model: the properties stay.
    let registry = vec![known("x", "device", None), known("a", "offline", Some("Pixel"))];
    let (device, changed) =
        register(registry, "a", Ok(vec![shown("a", "device", Some("Other"))]), "now").unwrap();
    assert_eq!(device.status, "device");
    assert_eq!(device.model, Some("Pixel".to_string()));
    assert_eq!(device.android_version, None);
    assert_eq!(device.battery_level, None);
    assert!(device.is_wireless);
    assert_eq!(device.last_seen, Some("seen".to_string()));
    assert_eq!(device.first_seen, "then");
    let registry = changed.unwrap();
    assert_eq!(registry.len(), 2);
    assert_eq!(registry[0].serial, "x");
    assert_eq!(registry[1].status, "device");
    // Of unknown model: the properties are taken over.
    let registry = vec![known("a", "offline", None)];
    let (device, _) =
        register(registry, "a", Ok(vec![shown("a", "device", Some("Other"))]), "now").unwrap();
    assert_eq!(device.model, Some("Other".to_string()));
    assert_eq!(device.android_version, Some("14".to_string()));
    assert_eq!(device.battery_level, Some(60));
    assert_eq!(device.first_seen, "then");
}

#[test]
fn registering_a_known_device_that_adb_does_not_show_changes_nothing() {
    let registry = vec![known("a", "offline", Some("Pixel"))];
    let (device, changed) = register(registry, "a", Ok(Vec::new()), "now").unwrap();
    assert_eq!(device.status, "offline");
    assert!(changed.is_none());
    let registry = vec![known("a", "offline", Some("Pixel"))];
    let (device, changed) = register(registry, "a", Err("no adb".to_string()), "now").unwrap();
    assert_eq!(device.serial, "a");
    assert!(changed.is_none());
}

#[test]
fn forgetting_takes_every_device_with_the_serial_out() {
    let registry = vec![
        known("a", "device", None),
        known("b", "device", None),
        known("a", "offline", None),
        known("c", "device", None),
    ];
    let kept = forget(registry, "a");
    assert_eq!(kept.len(), 2);
    assert_eq!(kept[0].serial, "b");
    assert_eq!(kept[1].serial, "c");
    assert_eq!(forget(kept, "z").len(), 2);
    assert!(forget(Vec::new(), "a").is_empty());
}
