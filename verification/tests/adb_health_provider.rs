use scrcpy_gui_lib::services::adb_health_provider::{AdbHealthProvider, ShellReport};
use scrcpy_gui_lib::types::{BatteryHealth, QualityLevel};

#[test]
fn test_parse_battery_percentage() {
    let provider = AdbHealthProvider::new(500);
    let output = r#"Current Battery Service state:
  AC powered: false
  USB powered: true
  Wireless powered: false
  Max charging current: 500000
  Max charging voltage: 5000000
  Charge counter: 2816840000
  status: 2
  health: 2
  present: true
  level: 75
  scale: 100
  temperature: 280
  technology: Li-ion"#;

    let percentage = provider.parse_battery_percentage(output).unwrap();
    assert_eq!(percentage, 75);
}

#[test]
fn test_parse_battery_percentage_invalid() {
    let provider = AdbHealthProvider::new(500);
    let output = "no battery info here";
    assert!(provider.parse_battery_percentage(output).is_err());
}

#[test]
fn test_parse_battery_temperature() {
    let provider = AdbHealthProvider::new(500);
    let output = "temperature: 280";
    let temp = provider.parse_battery_temperature(output).unwrap();
    assert_eq!(temp, 28); // 280 / 10
}

#[test]
fn test_parse_storage_info() {
    let provider = AdbHealthProvider::new(500);
    let output = r#"Filesystem             Size Used Avail Use% Mounted on
/dev/block/mmcblk0p30 107520 85256 22264  79% /data"#;

    let info = provider.parse_storage_info(output).unwrap();
    assert_eq!(info.total, 107520 * 1024);
    assert_eq!(info.used, 85256 * 1024);
}

#[test]
fn test_derive_quality_level() {
    let provider = AdbHealthProvider::new(500);

    assert_eq!(provider.derive_quality_level(30), QualityLevel::Excellent);
    assert_eq!(provider.derive_quality_level(75), QualityLevel::Good);
    assert_eq!(provider.derive_quality_level(150), QualityLevel::Fair);
    assert_eq!(provider.derive_quality_level(300), QualityLevel::Poor);
}

#[test]
fn storage_used_and_free_add_up_to_total() {
    let provider = AdbHealthProvider::new(500);
    let output = "Filesystem Size Used Avail Use% Mounted on\n/dev/block/x 107520 85256 22264 79% /data";
    let info = provider.parse_storage_info(output).unwrap();
    assert_eq!(info.free, (107520 - 85256) * 1024);
    assert_eq!(info.used + info.free, info.total);
}

#[test]
fn storage_with_more_used_than_there_is_has_nothing_free() {
    let provider = AdbHealthProvider::new(500);
    let info = provider.parse_storage_info("heading\n/dev 100 200 0 0% /data").unwrap();
    assert_eq!(info.total, 100 * 1024);
    assert_eq!(info.used, 200 * 1024);
    assert_eq!(info.free, 0);
}

#[test]
fn storage_failures_name_what_is_wrong() {
    let provider = AdbHealthProvider::new(500);
    assert_eq!(
        provider.parse_storage_info("").unwrap_err(),
        "Unexpected df output format"
    );
    assert_eq!(
        provider.parse_storage_info("only a heading\n").unwrap_err(),
        "Unexpected df output format"
    );
    assert_eq!(
        provider.parse_storage_info("heading\n/dev 100").unwrap_err(),
        "Could not parse df output"
    );
    assert_eq!(
        provider.parse_storage_info("heading\n\nanother").unwrap_err(),
        "Could not parse df output"
    );
    assert_eq!(
        provider.parse_storage_info("heading\n/dev 1.5G 100 7").unwrap_err(),
        "Invalid total size"
    );
    assert_eq!(
        provider.parse_storage_info("heading\n/dev 100 -5 7").unwrap_err(),
        "Invalid used size"
    );
}

#[test]
fn storage_sizes_that_do_not_fit_in_bytes_are_invalid() {
    let provider = AdbHealthProvider::new(500);
    // The largest number of kilobytes whose bytes fit 64 bits.
    let info = provider
        .parse_storage_info("h\n/dev 18014398509481983 18014398509481983 0")
        .unwrap();
    assert_eq!(info.total, 18014398509481983 * 1024);
    assert_eq!(info.free, 0);
    assert_eq!(
        provider
            .parse_storage_info("h\n/dev 18014398509481984 1 0")
            .unwrap_err(),
        "Invalid total size"
    );
    assert_eq!(
        provider
            .parse_storage_info("h\n/dev 1 18446744073709551616 0")
            .unwrap_err(),
        "Invalid used size"
    );
}

#[test]
fn battery_percentage_failures() {
    let provider = AdbHealthProvider::new(500);
    assert_eq!(
        provider.parse_battery_percentage("scale: 100").unwrap_err(),
        "Battery level not found in dumpsys output"
    );
    assert_eq!(
        provider.parse_battery_percentage("level: high").unwrap_err(),
        "Invalid battery percentage format"
    );
    assert_eq!(
        provider.parse_battery_percentage("level: -1").unwrap_err(),
        "Invalid battery percentage format"
    );
    assert_eq!(
        provider.parse_battery_percentage("level:").unwrap_err(),
        "Invalid battery percentage format"
    );
    assert_eq!(
        provider.parse_battery_percentage("level: 101").unwrap_err(),
        "Battery percentage out of range (>100)"
    );
    assert_eq!(
        provider.parse_battery_percentage("level: 4294967296").unwrap_err(),
        "Invalid battery percentage format"
    );
}

#[test]
fn battery_percentage_bounds_and_forms() {
    let provider = AdbHealthProvider::new(500);
    assert_eq!(provider.parse_battery_percentage("level: 0"), Ok(0));
    assert_eq!(provider.parse_battery_percentage("level: 100"), Ok(100));
    assert_eq!(provider.parse_battery_percentage("  level:+007  \r\n"), Ok(7));
    // The first line with the key decides.
    assert_eq!(provider.parse_battery_percentage("level: 5\nlevel: 50"), Ok(5));
    // What follows a second occurrence of the key in the line is not read.
    assert_eq!(provider.parse_battery_percentage("level: 42 level: 43"), Ok(42));
    assert_eq!(
        provider.parse_battery_percentage("battery level: 42 %").unwrap_err(),
        "Invalid battery percentage format"
    );
}

#[test]
fn battery_temperature_rounds_towards_zero() {
    let provider = AdbHealthProvider::new(500);
    assert_eq!(provider.parse_battery_temperature("temperature: 289"), Ok(28));
    assert_eq!(provider.parse_battery_temperature("temperature: 9"), Ok(0));
    assert_eq!(provider.parse_battery_temperature("temperature: -15"), Ok(-1));
    assert_eq!(provider.parse_battery_temperature("temperature: -9"), Ok(0));
    assert_eq!(
        provider.parse_battery_temperature("temperature: 2147483647"),
        Ok(214748364)
    );
    assert_eq!(
        provider.parse_battery_temperature("temperature: -2147483648"),
        Ok(-214748364)
    );
    assert_eq!(
        provider.parse_battery_temperature("temperature: 2147483648").unwrap_err(),
        "Invalid temperature format"
    );
    assert_eq!(
        provider.parse_battery_temperature("temperature: warm").unwrap_err(),
        "Invalid temperature format"
    );
    assert_eq!(
        provider.parse_battery_temperature("level: 3").unwrap_err(),
        "Temperature not found"
    );
}

#[test]
fn battery_charging_status() {
    let provider = AdbHealthProvider::new(500);
    assert_eq!(provider.parse_battery_charging_status("status: 2"), Ok(false));
    assert_eq!(
        provider.parse_battery_charging_status("status: Discharging"),
        Ok(false)
    );
    assert_eq!(provider.parse_battery_charging_status("status: 5"), Ok(true));
    assert_eq!(provider.parse_battery_charging_status("status: Charging"), Ok(true));
    assert_eq!(provider.parse_battery_charging_status("status:"), Ok(true));
    assert_eq!(
        provider.parse_battery_charging_status("level: 3").unwrap_err(),
        "Charging status not found"
    );
}

#[test]
fn battery_health_codes() {
    let provider = AdbHealthProvider::new(500);
    assert_eq!(provider.parse_battery_health("health: 2"), Ok(BatteryHealth::Good));
    assert_eq!(provider.parse_battery_health("health: Good"), Ok(BatteryHealth::Good));
    assert_eq!(provider.parse_battery_health("health: 3"), Ok(BatteryHealth::Overheat));
    assert_eq!(
        provider.parse_battery_health("health: Overheat"),
        Ok(BatteryHealth::Overheat)
    );
    assert_eq!(provider.parse_battery_health("health: Warm"), Ok(BatteryHealth::Good));
    assert_eq!(provider.parse_battery_health("health: 7"), Ok(BatteryHealth::Good));
    assert_eq!(
        provider.parse_battery_health("level: 3").unwrap_err(),
        "Battery health not found"
    );
}

#[test]
fn battery_info_leaves_out_what_cannot_be_read() {
    let provider = AdbHealthProvider::new(500);
    let info = provider
        .read_battery_info("level: 85\ntemperature: hot\nhealth: 3")
        .unwrap();
    assert_eq!(info.percentage, 85);
    assert_eq!(info.temperature, None);
    assert_eq!(info.is_charging, None);
    assert_eq!(info.health, Some(BatteryHealth::Overheat));
    assert_eq!(
        provider.read_battery_info("temperature: 280").unwrap_err(),
        "Battery level not found in dumpsys output"
    );
}

fn finished(stdout: &str) -> ShellReport {
    ShellReport::Finished {
        success: true,
        stdout: stdout.to_string(),
        stderr: String::new(),
    }
}

#[test]
fn judge_command_holds_the_time_against_the_timeout() {
    let provider = AdbHealthProvider::new(500);
    let report = finished("  ok \n");
    // Exactly the timeout is in time.
    assert_eq!(provider.judge_command(500_000_000, &report), Ok("ok".to_string()));
    // One nanosecond more is too late, even though the command printed its output.
    assert_eq!(
        provider.judge_command(500_000_001, &report),
        Err("Command timeout: took 500ms (limit 500ms)".to_string())
    );
    assert_eq!(
        provider.judge_command(1_234_567_890, &report),
        Err("Command timeout: took 1234ms (limit 500ms)".to_string())
    );
}

#[test]
fn judge_command_reports_failures_with_their_text() {
    let provider = AdbHealthProvider::new(500);
    let failed = ShellReport::Finished {
        success: false,
        stdout: "ignored".to_string(),
        stderr: "error: device offline\n".to_string(),
    };
    assert_eq!(
        provider.judge_command(1, &failed),
        Err("ADB command failed: error: device offline\n".to_string())
    );
    // A failed command that was also too slow is a timeout.
    assert_eq!(
        provider.judge_command(600_000_000, &failed),
        Err("Command timeout: took 600ms (limit 500ms)".to_string())
    );
    let not_started = ShellReport::NotStarted { reason: "No such file or directory".to_string() };
    assert_eq!(
        provider.judge_command(900_000_000, &not_started),
        Err("Failed to execute ADB command: No such file or directory".to_string())
    );
}

#[test]
fn judge_command_trims_unicode_whitespace() {
    let provider = AdbHealthProvider::new(500);
    let report = finished("\u{3000}\t Pixel 6\u{a0}\r\n");
    assert_eq!(provider.judge_command(0, &report), Ok("Pixel 6".to_string()));
    assert_eq!(provider.judge_command(0, &finished(" \n ")), Ok(String::new()));
    assert_eq!(provider.judge_command(0, &finished("")), Ok(String::new()));
}

#[test]
fn latency_is_whole_milliseconds() {
    assert_eq!(AdbHealthProvider::latency_from_nanos(0), 0);
    assert_eq!(AdbHealthProvider::latency_from_nanos(999_999), 0);
    assert_eq!(AdbHealthProvider::latency_from_nanos(1_000_000), 1);
    assert_eq!(AdbHealthProvider::latency_from_nanos(49_999_999), 49);
    // What does not fit 32 bits is cut off.
    assert_eq!(
        AdbHealthProvider::latency_from_nanos(4_294_967_296u128 * 1_000_000 + 7_000_000),
        7
    );
}

fn mock_shell(_device: &str, cmd: &str) -> ShellReport {
    match cmd {
        "dumpsys battery" => finished("  level: 85\n  status: 2\n  health: 2\n  temperature: 280\n"),
        "df /data" => finished("Filesystem Size Used Avail Use% Mounted on\n/dev/x 107520 45256 62264 42% /data\n"),
        "getprop ro.product.model" => finished("Pixel 6\n"),
        "getprop ro.build.version.release" => finished("14\n"),
        "getprop ro.build.id" => finished("TP1A.220624.014\n"),
        "echo ok" => finished("ok\n"),
        _ => ShellReport::Finished {
            success: false,
            stdout: String::new(),
            stderr: "unknown command".to_string(),
        },
    }
}

#[test]
fn queries_send_their_commands_and_read_the_answers() {
    let provider = AdbHealthProvider::new(60_000);
    let battery = provider.get_battery_info("ABC123", &mock_shell).unwrap();
    assert_eq!(battery.percentage, 85);
    assert_eq!(battery.temperature, Some(28));
    assert_eq!(battery.is_charging, Some(false));
    assert_eq!(battery.health, Some(BatteryHealth::Good));
    let storage = provider.get_storage_info("ABC123", &mock_shell).unwrap();
    assert_eq!(storage.total, 107520 * 1024);
    assert_eq!(storage.used, 45256 * 1024);
    assert_eq!(storage.free, 62264 * 1024);
    let device = provider.get_device_info("ABC123", &mock_shell).unwrap();
    assert_eq!(device.model_name, "Pixel 6");
    assert_eq!(device.android_version, "14");
    assert_eq!(device.build_number, "TP1A.220624.014");
    assert!(provider.get_latency("ABC123", &mock_shell).is_ok());
    assert_eq!(
        provider.run_adb_command("ABC123", "reboot", &mock_shell),
        Err("ADB command failed: unknown command".to_string())
    );
}

#[test]
fn device_info_fails_with_the_first_query_that_fails() {
    let provider = AdbHealthProvider::new(60_000);
    let shell = |device: &str, cmd: &str| -> ShellReport {
        if cmd == "getprop ro.build.version.release" {
            ShellReport::Finished {
                success: false,
                stdout: String::new(),
                stderr: "no such property".to_string(),
            }
        } else {
            mock_shell(device, cmd)
        }
    };
    assert_eq!(
        provider.get_device_info("ABC123", &shell).unwrap_err(),
        "ADB command failed: no such property"
    );
    let none = |_: &str, _: &str| -> ShellReport {
        ShellReport::NotStarted { reason: "adb missing".to_string() }
    };
    assert_eq!(
        provider.get_device_info("ABC123", &none).unwrap_err(),
        "Failed to execute ADB command: adb missing"
    );
    assert_eq!(
        provider.get_battery_info("ABC123", &none).unwrap_err(),
        "Failed to execute ADB command: adb missing"
    );
    assert_eq!(
        provider.get_latency("ABC123", &none).unwrap_err(),
        "Failed to execute ADB command: adb missing"
    );
}

#[test]
fn a_timeout_of_zero_fails_every_query_that_takes_time() {
    let provider = AdbHealthProvider::new(0);
    let slow = |device: &str, cmd: &str| -> ShellReport {
        let start = std::time::Instant::now();
        while start.elapsed() < std::time::Duration::from_millis(2) {}
        mock_shell(device, cmd)
    };
    let failure = provider.get_storage_info("ABC123", &slow).unwrap_err();
    assert!(failure.starts_with("Command timeout: took "));
    assert!(failure.ends_with("ms (limit 0ms)"));
}
