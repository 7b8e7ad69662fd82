use scrcpy_gui_lib::commands::health::{get_device_health, start_health_polling, stop_health_polling};
use scrcpy_gui_lib::services::adb_health_provider::ShellReport;
use scrcpy_gui_lib::services::health_poller::ErrorType;
use scrcpy_gui_lib::services::polling::{CycleStep, HealthPollingService};
use scrcpy_gui_lib::types::{
    BatteryInfo, ConnectionType, DeviceHealth, DeviceInfo, DeviceState, ErrorCode,
    HealthPollingConfig, HealthUpdateReason, PollingStopReason, QualityLevel, StalenessLevel,
    StorageInfo,
};

#[test]
fn test_derive_quality_excellent() {
    assert_eq!(
        HealthPollingService::derive_quality_level(25),
        QualityLevel::Excellent
    );
}

#[test]
fn test_derive_quality_good() {
    assert_eq!(
        HealthPollingService::derive_quality_level(75),
        QualityLevel::Good
    );
}

#[test]
fn test_derive_quality_fair() {
    assert_eq!(
        HealthPollingService::derive_quality_level(150),
        QualityLevel::Fair
    );
}

#[test]
fn test_derive_quality_poor() {
    assert_eq!(
        HealthPollingService::derive_quality_level(300),
        QualityLevel::Poor
    );
}

#[test]
fn quality_bands_are_exact_at_their_bounds() {
    assert_eq!(HealthPollingService::derive_quality_level(0), QualityLevel::Excellent);
    assert_eq!(HealthPollingService::derive_quality_level(49), QualityLevel::Excellent);
    assert_eq!(HealthPollingService::derive_quality_level(50), QualityLevel::Good);
    assert_eq!(HealthPollingService::derive_quality_level(99), QualityLevel::Good);
    assert_eq!(HealthPollingService::derive_quality_level(100), QualityLevel::Fair);
    assert_eq!(HealthPollingService::derive_quality_level(199), QualityLevel::Fair);
    assert_eq!(HealthPollingService::derive_quality_level(200), QualityLevel::Poor);
    assert_eq!(HealthPollingService::derive_quality_level(u32::MAX), QualityLevel::Poor);
}

fn ids(names: &[&str]) -> Vec<String> {
    names.iter().map(|n| n.to_string()).collect()
}

#[test]
fn start_polling_twice_is_rejected_the_second_time() {
    let mut service = HealthPollingService::new();
    assert!(!service.is_running());
    assert_eq!(service.start_polling(ids(&["ABC123"]), HealthPollingConfig::default()), Ok(()));
    assert!(service.is_running());
    assert_eq!(
        service.start_polling(ids(&["other"]), HealthPollingConfig::default()),
        Err("Polling already running".to_string())
    );
    // The rejected request changed nothing.
    assert!(service.get_device_health("ABC123").is_some());
    assert!(service.get_device_health("other").is_none());
    // After a stop the session starts again.
    assert_eq!(service.stop_polling(), Ok(()));
    assert!(!service.is_running());
    assert_eq!(service.start_polling(ids(&["other"]), HealthPollingConfig::default()), Ok(()));
    assert!(service.get_device_health("ABC123").is_none());
    assert!(service.get_device_health("other").is_some());
}

#[test]
fn start_polling_rejects_an_invalid_configuration_and_stays_idle() {
    let mut service = HealthPollingService::new();
    let config = HealthPollingConfig { query_timeout: 100, ..Default::default() };
    assert_eq!(
        service.start_polling_at(ids(&["ABC123"]), config, 7),
        Err("query_timeout must be >= 200ms".to_string())
    );
    assert!(!service.is_running());
    assert!(service.get_device_health("ABC123").is_none());
    // A running session rejects even an invalid request for running.
    assert_eq!(service.start_polling_at(ids(&["ABC123"]), HealthPollingConfig::default(), 7), Ok(()));
    assert_eq!(
        service.start_polling_at(ids(&["ABC123"]), config, 8),
        Err("Polling already running".to_string())
    );
}

#[test]
fn start_polling_seeds_one_record_for_each_device() {
    let mut service = HealthPollingService::new();
    service
        .start_polling_at(ids(&["a", "b", "a"]), HealthPollingConfig::default(), 1234)
        .unwrap();
    for id in ["a", "b"] {
        let health = service.get_device_health(id).unwrap();
        assert_eq!(health.device_id, id);
        assert_eq!(health.state, DeviceState::Connecting);
        assert_eq!(health.staleness, StalenessLevel::Offline);
        assert_eq!(health.last_seen, 1234);
        assert_eq!(health.last_updated, 1234);
        assert!(health.battery.is_none());
        assert!(health.storage.is_none());
        assert!(health.connection.is_none());
        assert!(health.device.is_none());
        assert_eq!(health.error_reason, None);
    }
    assert!(service.get_device_health("c").is_none());
}

#[test]
fn stop_polling_always_succeeds() {
    let mut service = HealthPollingService::new();
    assert_eq!(service.stop_polling(), Ok(()));
    assert_eq!(service.stop_polling(), Ok(()));
    service.start_polling(ids(&["a"]), HealthPollingConfig::default()).unwrap();
    assert_eq!(service.stop_polling(), Ok(()));
    assert!(!service.is_running());
    assert!(service.get_device_health("a").is_none());
}

#[test]
fn next_cycle_polls_while_running_and_stops_after() {
    let mut service = HealthPollingService::new();
    let config = HealthPollingConfig {
        polling_interval_usb: 250,
        polling_interval_wireless: 900,
        ..Default::default()
    };
    service.start_polling(ids(&["a", "b"]), config).unwrap();
    match service.next_cycle() {
        CycleStep::Poll { wait_ms, device_ids } => {
            assert_eq!(wait_ms, 250);
            assert_eq!(device_ids, ids(&["a", "b"]));
        }
        CycleStep::Stop { .. } => panic!("stopped"),
    }
    service.stop_polling().unwrap();
    match service.next_cycle() {
        CycleStep::Stop { notification } => assert_eq!(notification.reason, PollingStopReason::User),
        CycleStep::Poll { .. } => panic!("still polling"),
    }
    service.start_polling(ids(&["a"]), config).unwrap();
    service.shutdown();
    match service.next_cycle() {
        CycleStep::Stop { notification } => {
            assert_eq!(notification.reason, PollingStopReason::AppShutdown)
        }
        CycleStep::Poll { .. } => panic!("still polling"),
    }
}

fn battery() -> BatteryInfo {
    BatteryInfo { percentage: 85, temperature: Some(28), is_charging: Some(false), health: None }
}

fn storage() -> StorageInfo {
    StorageInfo { used: 10, total: 30, free: 20 }
}

#[test]
fn assemble_health_is_fresh_only_with_battery_and_storage() {
    let device = DeviceInfo {
        model_name: "Pixel 6".to_string(),
        android_version: "14".to_string(),
        build_number: "TP1A".to_string(),
    };
    let full = HealthPollingService::assemble_health(
        "a",
        Some(battery()),
        Some(storage()),
        Some(device),
        Some(50),
        99,
    );
    assert_eq!(full.device_id, "a");
    assert_eq!(full.state, DeviceState::Online);
    assert_eq!(full.staleness, StalenessLevel::Fresh);
    assert_eq!(full.last_seen, 99);
    assert_eq!(full.last_updated, 99);
    assert_eq!(full.error_reason, None);
    assert_eq!(full.device.unwrap().model_name, "Pixel 6");
    let connection = full.connection.unwrap();
    assert_eq!(connection.connection_type, ConnectionType::Usb);
    assert_eq!(connection.latency, 50);
    assert_eq!(connection.quality_level, QualityLevel::Good);
    assert_eq!(connection.signal_strength, None);
    assert_eq!(connection.estimated_bandwidth, None);

    let no_storage = HealthPollingService::assemble_health("a", Some(battery()), None, None, None, 99);
    assert_eq!(no_storage.staleness, StalenessLevel::Stale);
    assert_eq!(no_storage.state, DeviceState::Online);
    assert!(no_storage.connection.is_none());
    let no_battery = HealthPollingService::assemble_health("a", None, Some(storage()), None, Some(1), 99);
    assert_eq!(no_battery.staleness, StalenessLevel::Stale);
    let nothing = HealthPollingService::assemble_health("a", None, None, None, None, 99);
    assert_eq!(nothing.staleness, StalenessLevel::Stale);
}

fn polled(id: &str, now: u64) -> DeviceHealth {
    HealthPollingService::assemble_health(id, Some(battery()), Some(storage()), None, Some(10), now)
}

#[test]
fn record_success_caches_and_announces() {
    let mut service = HealthPollingService::new();
    service
        .start_polling_at(ids(&["a"]), HealthPollingConfig::default(), 100)
        .unwrap();
    let event = service.record_success(polled("a", 200), 201).unwrap();
    assert_eq!(event.device_id, "a");
    assert_eq!(event.reason, HealthUpdateReason::Poll);
    assert_eq!(event.timestamp, 201);
    assert_eq!(event.health.last_updated, 200);
    let cached = service.get_device_health("a").unwrap();
    assert_eq!(cached.state, DeviceState::Online);
    assert_eq!(cached.staleness, StalenessLevel::Fresh);
    assert_eq!(cached.last_seen, 200);
    assert_eq!(cached.battery.unwrap().percentage, 85);
}

#[test]
fn record_success_ignores_what_the_session_does_not_await() {
    let mut service = HealthPollingService::new();
    // Idle.
    assert!(service.record_success(polled("a", 200), 201).is_none());
    service
        .start_polling_at(ids(&["a"]), HealthPollingConfig::default(), 100)
        .unwrap();
    // Of a device that the session does not know.
    assert!(service.record_success(polled("b", 200), 201).is_none());
    assert!(service.get_device_health("b").is_none());
    // Older than what is cached.
    assert!(service.record_success(polled("a", 300), 301).is_some());
    assert!(service.record_success(polled("a", 250), 302).is_none());
    assert_eq!(service.get_device_health("a").unwrap().last_updated, 300);
    // As old as what is cached.
    assert!(service.record_success(polled("a", 300), 303).is_some());
    // After the stop.
    service.stop_polling().unwrap();
    assert!(service.record_success(polled("a", 400), 401).is_none());
    assert!(service.get_device_health("a").is_none());
}

#[test]
fn record_failure_marks_the_device_and_announces_unreachable_ones() {
    let mut service = HealthPollingService::new();
    service
        .start_polling_at(ids(&["a"]), HealthPollingConfig { max_retries: 4, ..Default::default() }, 100)
        .unwrap();
    service.record_success(polled("a", 200), 200).unwrap();

    let event = service.record_failure("a", "Device offline", 300).unwrap();
    assert_eq!(event.device_id, "a");
    assert_eq!(event.error.code, ErrorCode::Offline);
    assert_eq!(event.error.message, "Device offline");
    assert_eq!(event.attempt, 1);
    assert_eq!(event.max_attempts, 4);
    assert_eq!(event.next_retry_at, Some(800));
    assert!(event.will_retry);
    let cached = service.get_device_health("a").unwrap();
    assert_eq!(cached.state, DeviceState::Offline);
    assert_eq!(cached.staleness, StalenessLevel::Offline);
    assert_eq!(cached.error_reason, Some("Device not responding to ADB".to_string()));
    assert_eq!(cached.last_seen, 300);
    assert_eq!(cached.last_updated, 200);
    // What was known of the device stays.
    assert_eq!(cached.battery.unwrap().percentage, 85);
}

#[test]
fn record_failure_swallows_failures_that_are_not_of_reachability() {
    let mut service = HealthPollingService::new();
    service
        .start_polling_at(ids(&["a"]), HealthPollingConfig::default(), 100)
        .unwrap();
    service.record_success(polled("a", 200), 200).unwrap();
    assert!(service.record_failure("a", "connection reset", 300).is_none());
    let cached = service.get_device_health("a").unwrap();
    assert_eq!(cached.state, DeviceState::Error);
    assert_eq!(cached.staleness, StalenessLevel::Stale);
    assert_eq!(cached.error_reason, Some("connection reset".to_string()));
    assert!(service.record_failure("a", "permission denied", 310).is_none());
    assert_eq!(
        service.get_device_health("a").unwrap().error_reason,
        Some("permission denied".to_string())
    );
    let event = service.record_failure("a", "Command timeout: took 9ms (limit 5ms)", 320).unwrap();
    assert_eq!(event.error.code, ErrorCode::Timeout);
    assert_eq!(service.get_device_health("a").unwrap().state, DeviceState::Error);
    // By the kind that the caller gives.
    assert!(service
        .record_failure_of_kind("a", "whatever", ErrorType::NetworkError, 330)
        .is_none());
    assert!(service
        .record_failure_of_kind("a", "whatever", ErrorType::Offline, u64::MAX)
        .is_some_and(|e| e.next_retry_at == Some(u64::MAX)));
}

#[test]
fn record_failure_ignores_what_the_session_does_not_await() {
    let mut service = HealthPollingService::new();
    assert!(service.record_failure("a", "Device offline", 300).is_none());
    service
        .start_polling_at(ids(&["a"]), HealthPollingConfig::default(), 100)
        .unwrap();
    assert!(service.record_failure("b", "Device offline", 300).is_none());
    assert!(service.get_device_health("b").is_none());
    // An earlier time does not move the record back.
    assert!(service.record_failure("a", "Device offline", 50).is_some());
    assert_eq!(service.get_device_health("a").unwrap().last_seen, 100);
}

fn finished(stdout: &str) -> ShellReport {
    ShellReport::Finished { success: true, stdout: stdout.to_string(), stderr: String::new() }
}

fn failed(stderr: &str) -> ShellReport {
    ShellReport::Finished { success: false, stdout: String::new(), stderr: stderr.to_string() }
}

#[test]
fn poll_single_device_fails_at_once_when_the_probe_fails() {
    let config = HealthPollingConfig { query_timeout: 60_000, ..Default::default() };
    let dead = |_: &str, _: &str| -> ShellReport { failed("error: device offline") };
    assert_eq!(
        HealthPollingService::poll_single_device("a", &config, &dead).unwrap_err(),
        "Device offline"
    );
    let missing = |_: &str, _: &str| -> ShellReport {
        ShellReport::NotStarted { reason: "adb missing".to_string() }
    };
    assert_eq!(
        HealthPollingService::poll_single_device("a", &config, &missing).unwrap_err(),
        "Device offline"
    );
}

#[test]
fn poll_single_device_tolerates_queries_that_fail() {
    let config = HealthPollingConfig { query_timeout: 60_000, ..Default::default() };
    let partial = |_: &str, cmd: &str| -> ShellReport {
        match cmd {
            "echo ok" => finished("ok"),
            "dumpsys battery" => finished("level: 64"),
            "getprop ro.product.model" => finished("Pixel 6"),
            _ => failed("nope"),
        }
    };
    let health = HealthPollingService::poll_single_device("a", &config, &partial).unwrap();
    assert_eq!(health.device_id, "a");
    assert_eq!(health.state, DeviceState::Online);
    assert_eq!(health.staleness, StalenessLevel::Stale);
    assert_eq!(health.battery.unwrap().percentage, 64);
    assert!(health.storage.is_none());
    assert!(health.device.is_none());
    assert!(health.connection.is_some());
    assert_eq!(health.last_seen, health.last_updated);
    assert_eq!(health.error_reason, None);
}

#[test]
fn the_control_surface_starts_stops_and_reads() {
    let mut service = HealthPollingService::new();
    assert_eq!(
        start_health_polling(&mut service, Vec::new(), None).unwrap_err(),
        "No device IDs provided"
    );
    let invalid = HealthPollingConfig { max_retries: 0, ..Default::default() };
    assert_eq!(
        start_health_polling(&mut service, ids(&["a"]), Some(invalid)).unwrap_err(),
        "max_retries must be between 1 and 10"
    );
    assert!(!service.is_running());
    let response = start_health_polling(&mut service, ids(&["a", "b"]), None).unwrap();
    assert!(response.success);
    assert_eq!(response.message, Some("Started polling for 2 device(s)".to_string()));
    assert_eq!(
        start_health_polling(&mut service, ids(&["a"]), None).unwrap_err(),
        "Polling already running"
    );
    // An invalid configuration is rejected for itself, also by a running session.
    assert_eq!(
        start_health_polling(&mut service, ids(&["a"]), Some(invalid)).unwrap_err(),
        "max_retries must be between 1 and 10"
    );
    let read = get_device_health(&service, "b".to_string()).unwrap();
    assert!(read.is_cached);
    assert_eq!(read.health.unwrap().device_id, "b");
    let read = get_device_health(&service, "c".to_string()).unwrap();
    assert!(read.is_cached);
    assert!(read.health.is_none());
    let response = stop_health_polling(&mut service).unwrap();
    assert!(response.success);
    assert_eq!(response.message, Some("Polling stopped".to_string()));
    assert!(!service.is_running());
}

#[test]
fn a_stop_is_announced_with_its_time_and_reason() {
    let mut service = HealthPollingService::new();
    match service.next_cycle_at(41) {
        CycleStep::Stop { notification } => {
            assert_eq!(notification.timestamp, 41);
            assert_eq!(notification.reason, PollingStopReason::User);
        }
        CycleStep::Poll { .. } => panic!("polling while idle"),
    }
    let config = HealthPollingConfig { polling_interval_usb: 700, ..Default::default() };
    service.start_polling_at(ids(&["a", "b"]), config, 50).unwrap();
    assert_eq!(service.config().polling_interval_usb, 700);
    match service.next_cycle_at(60) {
        CycleStep::Poll { wait_ms, device_ids } => {
            assert_eq!(wait_ms, 700);
            assert_eq!(device_ids, ids(&["a", "b"]));
        }
        CycleStep::Stop { .. } => panic!("stopped while running"),
    }
    service.shutdown();
    match service.next_cycle_at(70) {
        CycleStep::Stop { notification } => {
            assert_eq!(notification.timestamp, 70);
            assert_eq!(notification.reason, PollingStopReason::AppShutdown);
        }
        CycleStep::Poll { .. } => panic!("polling after shutdown"),
    }
}

#[test]
fn health_is_held_for_exactly_the_tracked_devices() {
    let mut service = HealthPollingService::new();
    assert!(service.get_device_health("a").is_none());
    service
        .start_polling_at(ids(&["a", "b"]), HealthPollingConfig::default(), 100)
        .unwrap();
    // Whatever the polls come to, the tracked devices keep their records and no other gets one.
    service.record_success(polled("a", 200), 200);
    service.record_success(polled("c", 200), 200);
    service.record_failure("b", "Device offline", 210);
    service.record_failure("d", "Device offline", 210);
    service.record_failure("a", "permission denied", 220);
    for known in ["a", "b"] {
        assert!(service.get_device_health(known).is_some());
    }
    for other in ["c", "d", "", "A"] {
        assert!(service.get_device_health(other).is_none());
    }
    service.stop_polling().unwrap();
    for any in ["a", "b", "c", "d"] {
        assert!(service.get_device_health(any).is_none());
    }
}
