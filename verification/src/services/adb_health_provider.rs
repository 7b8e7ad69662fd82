//! The device health data source.
//!
//! Health facts are read from the text that device-shell commands print.
//! The commands themselves are run by the caller's shell function, which
//! takes a device id and a command and reports what became of it; this
//! module decides which commands to send, judges each report against the
//! query timeout, and parses the output.

use crate::text::{
    chars_of, contains, decimal, find, find_in, is_text, lemma_find_is_first_occurrence,
    line_bounds, lines, parse_i32, parse_unsigned, push_decimal, signed_of, split_lines,
    split_words, trim, trimmed, unsigned_of, words, bounds_view, bounds_within,
};
use crate::types::health::{
    derive_quality_level, quality_band, BatteryHealth, BatteryInfo, DeviceInfo, DeviceInfoView,
    QualityLevel, StorageInfo,
};
use vstd::prelude::*;

verus! {

// ----------------------------------------------------------------------------
// Reports of shell commands
// ----------------------------------------------------------------------------

/// What became of one shell command on a device.
#[derive(Debug, Clone)]
pub enum ShellReport {
    /// The command could not be run at all.
    NotStarted { reason: String },
    /// The command ran to its end.
    Finished { success: bool, stdout: String, stderr: String },
}

pub enum ShellReportView {
    NotStarted { reason: Seq<char> },
    Finished { success: bool, stdout: Seq<char>, stderr: Seq<char> },
}

impl View for ShellReport {
    type V = ShellReportView;

    open spec fn view(&self) -> ShellReportView {
        match self {
            ShellReport::NotStarted { reason } => ShellReportView::NotStarted { reason: reason@ },
            ShellReport::Finished { success, stdout, stderr } => ShellReportView::Finished {
                success: *success,
                stdout: stdout@,
                stderr: stderr@,
            },
        }
    }
}

/// An outcome and its model agree: the same value, or the same message.
pub open spec fn agrees<T>(outcome: Result<T, String>, model: Result<T, Seq<char>>) -> bool {
    match outcome {
        Ok(value) => model == Ok::<T, Seq<char>>(value),
        Err(message) => model == Err::<T, Seq<char>>(message@),
    }
}

/// A text outcome and its model agree.
pub open spec fn text_agrees(
    outcome: Result<String, String>,
    model: Result<Seq<char>, Seq<char>>,
) -> bool {
    match outcome {
        Ok(text) => model == Ok::<Seq<char>, Seq<char>>(text@),
        Err(message) => model == Err::<Seq<char>, Seq<char>>(message@),
    }
}

pub const NANOS_PER_MILLI: u128 = 1000000;

/// The failure of a command that ran longer than the timeout allows.
pub open spec fn timeout_message(elapsed_nanos: u128, timeout_ms: u32) -> Seq<char> {
    "Command timeout: took "@ + decimal((elapsed_nanos / NANOS_PER_MILLI) as nat) + "ms (limit "@
        + decimal(timeout_ms as nat) + "ms)"@
}

/// The result of a query, given how long its command took and what became
/// of it. A command that ran longer than the timeout fails even if it
/// printed its output; one that ended in failure fails with what it wrote to
/// its error stream; one that succeeded gives its output, trimmed.
pub open spec fn command_result(
    timeout_ms: u32,
    elapsed_nanos: u128,
    report: ShellReportView,
) -> Result<Seq<char>, Seq<char>> {
    match report {
        ShellReportView::NotStarted { reason } => Err("Failed to execute ADB command: "@ + reason),
        ShellReportView::Finished { success, stdout, stderr } => if elapsed_nanos > timeout_ms
            * NANOS_PER_MILLI {
            Err(timeout_message(elapsed_nanos, timeout_ms))
        } else if !success {
            Err("ADB command failed: "@ + stderr)
        } else {
            Ok(trimmed(stdout))
        },
    }
}

// ----------------------------------------------------------------------------
// Fields of a report in lines
// ----------------------------------------------------------------------------

/// The first line at or after index `from` that contains `key`.
pub open spec fn first_with(lines: Seq<Seq<char>>, key: Seq<char>, from: int) -> Option<
    Seq<char>,
>
    decreases lines.len() - from,
{
    if from < 0 || from >= lines.len() {
        None
    } else if contains(lines[from], key) {
        Some(lines[from])
    } else {
        first_with(lines, key, from + 1)
    }
}

/// What stands in a line between the first occurrence of `key` and the
/// next one, or the end of the line.
pub open spec fn after_key(line: Seq<char>, key: Seq<char>) -> Seq<char> {
    match find(line, key) {
        Some(at) => {
            let rest = line.skip(at + key.len());
            match find(rest, key) {
                Some(next) => rest.take(next),
                None => rest,
            }
        },
        None => Seq::empty(),
    }
}

/// The value of the field `key` in a report: what follows the key in the
/// first line that contains it, trimmed. `None` when no line contains the
/// key.
pub open spec fn field_value(output: Seq<char>, key: Seq<char>) -> Option<Seq<char>> {
    match first_with(lines(output), key, 0) {
        Some(line) => Some(trimmed(after_key(line, key))),
        None => None,
    }
}

/// The value of the field `key` in a report.
pub fn read_field<'a>(output: &'a [char], key: &str) -> (value: Option<&'a [char]>)
    ensures
        match value {
            Some(text) => field_value(output@, key@) == Some(text@),
            None => field_value(output@, key@) is None,
        },
{
    let pattern = chars_of(key);
    let bounds = split_lines(output);
    let mut i: usize = 0;
    while i < bounds.len()
        invariant
            i <= bounds@.len(),
            pattern@ == key@,
            bounds_view(bounds@) == line_bounds(output@),
            bounds_within(bounds@, output@.len()),
            first_with(lines(output@), key@, 0) == first_with(lines(output@), key@, i as int),
        decreases bounds@.len() - i,
    {
        let (a, b) = bounds[i];
        assert(bounds_view(bounds@)[i as int] == (a as int, b as int));
        let line = &output[a..b];
        assert(line@ == lines(output@)[i as int]);
        proof {
            lemma_find_is_first_occurrence(line@, key@);
        }
        match find_in(line, pattern.as_slice()) {
            Some(at) => {
                let rest = &line[at + pattern.len()..line.len()];
                assert(rest@ == line@.skip(at + key@.len()));
                let end = match find_in(rest, pattern.as_slice()) {
                    Some(next) => {
                        proof {
                            lemma_find_is_first_occurrence(rest@, key@);
                        }
                        next
                    },
                    None => rest.len(),
                };
                let piece = &rest[0..end];
                assert(piece@ =~= after_key(line@, key@));
                let (start, stop) = trim(piece);
                return Some(&piece[start..stop]);
            },
            None => {},
        }
        i += 1;
    }
    None
}

// ----------------------------------------------------------------------------
// Battery
// ----------------------------------------------------------------------------

/// The charge in percent that a battery report states. A level above 100
/// is a failure.
pub open spec fn battery_percentage_of(output: Seq<char>) -> Result<u32, Seq<char>> {
    match field_value(output, "level:"@) {
        None => Err("Battery level not found in dumpsys output"@),
        Some(text) => match unsigned_of(text, u32::MAX as nat) {
            None => Err("Invalid battery percentage format"@),
            Some(level) => if level > 100 {
                Err("Battery percentage out of range (>100)"@)
            } else {
                Ok(level as u32)
            },
        },
    }
}

/// Tenths of a degree as whole degrees, rounded towards zero.
pub open spec fn whole_degrees(tenths: int) -> int {
    if tenths >= 0 {
        tenths / 10
    } else {
        -((-tenths) / 10)
    }
}

/// The temperature in whole degrees Celsius that a battery report states
/// in tenths of a degree.
pub open spec fn battery_temperature_of(output: Seq<char>) -> Result<i32, Seq<char>> {
    match field_value(output, "temperature:"@) {
        None => Err("Temperature not found"@),
        Some(text) => match signed_of(text, i32::MIN as int, i32::MAX as int) {
            None => Err("Invalid temperature format"@),
            Some(tenths) => Ok(whole_degrees(tenths) as i32),
        },
    }
}

/// Whether the battery is charging according to a battery report: it is,
/// unless the status is `2` or `Discharging`.
pub open spec fn battery_charging_of(output: Seq<char>) -> Result<bool, Seq<char>> {
    match field_value(output, "status:"@) {
        None => Err("Charging status not found"@),
        Some(text) => Ok(text != "2"@ && text != "Discharging"@),
    }
}

/// The health that a battery report states: overheated for `3` or
/// `Overheat`, good for everything else.
pub open spec fn battery_health_of(output: Seq<char>) -> Result<BatteryHealth, Seq<char>> {
    match field_value(output, "health:"@) {
        None => Err("Battery health not found"@),
        Some(text) => if text == "3"@ || text == "Overheat"@ {
            Ok(BatteryHealth::Overheat)
        } else {
            Ok(BatteryHealth::Good)
        },
    }
}

/// What is known only if its part of the report could be read.
pub open spec fn known<T>(reading: Result<T, Seq<char>>) -> Option<T> {
    match reading {
        Ok(value) => Some(value),
        Err(_) => None,
    }
}

/// The battery facts of a battery report. The charge is required; each of
/// the other facts is left out when it cannot be read.
pub open spec fn battery_info_of(output: Seq<char>) -> Result<BatteryInfo, Seq<char>> {
    match battery_percentage_of(output) {
        Err(message) => Err(message),
        Ok(percentage) => Ok(
            BatteryInfo {
                percentage,
                temperature: known(battery_temperature_of(output)),
                is_charging: known(battery_charging_of(output)),
                health: known(battery_health_of(output)),
            },
        ),
    }
}

// ----------------------------------------------------------------------------
// Storage
// ----------------------------------------------------------------------------

/// The largest number of kilobytes whose number of bytes fits 64 bits.
pub const MAX_KILOBYTES: u64 = 18014398509481983;

/// Storage figures in bytes from a total and a used amount in kilobytes.
/// Free space is what the total leaves over the used amount, and nothing
/// when more is used than there is.
pub open spec fn storage_from_kilobytes(total_kb: nat, used_kb: nat) -> StorageInfo {
    StorageInfo {
        used: (used_kb * 1024) as u64,
        total: (total_kb * 1024) as u64,
        free: if total_kb >= used_kb {
            ((total_kb - used_kb) * 1024) as u64
        } else {
            0
        },
    }
}

/// The storage figures of a filesystem-usage report: the second line holds
/// the total in its second column and the used amount in its third, both in
/// kilobytes.
pub open spec fn storage_info_of(output: Seq<char>) -> Result<StorageInfo, Seq<char>> {
    let all = lines(output);
    if all.len() < 2 {
        Err("Unexpected df output format"@)
    } else {
        let columns = words(all[1]);
        if columns.len() < 3 {
            Err("Could not parse df output"@)
        } else {
            match unsigned_of(columns[1], MAX_KILOBYTES as nat) {
                None => Err("Invalid total size"@),
                Some(total_kb) => match unsigned_of(columns[2], MAX_KILOBYTES as nat) {
                    None => Err("Invalid used size"@),
                    Some(used_kb) => Ok(storage_from_kilobytes(total_kb, used_kb)),
                },
            }
        }
    }
}

/// Wherever no more is used than there is, used and free space add up to
/// the total.
pub proof fn lemma_storage_adds_up(total_kb: nat, used_kb: nat)
    requires
        used_kb <= total_kb <= MAX_KILOBYTES,
    ensures
        storage_from_kilobytes(total_kb, used_kb).consistent(),
{
}

// ----------------------------------------------------------------------------
// The provider
// ----------------------------------------------------------------------------

/// Collects device health facts. Every query is held against the timeout
/// the provider was made with.
pub struct AdbHealthProvider {
    query_timeout_ms: u32,
}

impl AdbHealthProvider {
    pub closed spec fn timeout_ms(&self) -> u32 {
        self.query_timeout_ms
    }

    pub fn new(query_timeout_ms: u32) -> (provider: AdbHealthProvider)
        ensures
            provider.timeout_ms() == query_timeout_ms,
    {
        AdbHealthProvider { query_timeout_ms }
    }

    /// Judges one shell command by the time it took and by what became of
    /// it.
    pub fn judge_command(&self, elapsed_nanos: u128, report: &ShellReport) -> (result: Result<
        String,
        String,
    >)
        ensures
            text_agrees(result, command_result(self.timeout_ms(), elapsed_nanos, report@)),
    {
        match report {
            ShellReport::NotStarted { reason } => {
                let mut message = "Failed to execute ADB command: ".to_owned();
                message.append(reason.as_str());
                Err(message)
            },
            ShellReport::Finished { success, stdout, stderr } => {
                if elapsed_nanos > (self.query_timeout_ms as u128) * NANOS_PER_MILLI {
                    let mut message = "Command timeout: took ".to_owned();
                    push_decimal(&mut message, elapsed_nanos / NANOS_PER_MILLI);
                    message.append("ms (limit ");
                    push_decimal(&mut message, self.query_timeout_ms as u128);
                    message.append("ms)");
                    Err(message)
                } else if !*success {
                    let mut message = "ADB command failed: ".to_owned();
                    message.append(stderr.as_str());
                    Err(message)
                } else {
                    let text = chars_of(stdout.as_str());
                    let (start, stop) = trim(text.as_slice());
                    Ok(stdout.as_str().substring_char(start, stop).to_owned())
                }
            },
        }
    }

    /// Parse battery percentage from a battery report.
    pub fn parse_battery_percentage(&self, output: &str) -> (level: Result<u32, String>)
        ensures
            agrees(level, battery_percentage_of(output@)),
    {
        let text = chars_of(output);
        match read_field(text.as_slice(), "level:") {
            None => Err("Battery level not found in dumpsys output".to_owned()),
            Some(value) => match parse_unsigned(value, 4294967295) {
                None => Err("Invalid battery percentage format".to_owned()),
                Some(level) => {
                    if level > 100 {
                        Err("Battery percentage out of range (>100)".to_owned())
                    } else {
                        Ok(level as u32)
                    }
                },
            },
        }
    }

    /// Parse battery temperature from a battery report, which states it in
    /// tenths of a degree.
    pub fn parse_battery_temperature(&self, output: &str) -> (degrees: Result<i32, String>)
        ensures
            agrees(degrees, battery_temperature_of(output@)),
    {
        let text = chars_of(output);
        match read_field(text.as_slice(), "temperature:") {
            None => Err("Temperature not found".to_owned()),
            Some(value) => match parse_i32(value) {
                None => Err("Invalid temperature format".to_owned()),
                Some(tenths) => {
                    let wide: i64 = tenths as i64;
                    let whole: i64 = if wide >= 0 {
                        wide / 10
                    } else {
                        -((-wide) / 10)
                    };
                    Ok(whole as i32)
                },
            },
        }
    }

    /// Parse battery charging status from a battery report.
    pub fn parse_battery_charging_status(&self, output: &str) -> (charging: Result<bool, String>)
        ensures
            agrees(charging, battery_charging_of(output@)),
    {
        let text = chars_of(output);
        match read_field(text.as_slice(), "status:") {
            None => Err("Charging status not found".to_owned()),
            Some(value) => Ok(!is_text(value, "2") && !is_text(value, "Discharging")),
        }
    }

    /// Parse battery health from a battery report.
    pub fn parse_battery_health(&self, output: &str) -> (health: Result<BatteryHealth, String>)
        ensures
            agrees(health, battery_health_of(output@)),
    {
        let text = chars_of(output);
        match read_field(text.as_slice(), "health:") {
            None => Err("Battery health not found".to_owned()),
            Some(value) => {
                if is_text(value, "3") || is_text(value, "Overheat") {
                    Ok(BatteryHealth::Overheat)
                } else {
                    Ok(BatteryHealth::Good)
                }
            },
        }
    }

    /// Reads the battery facts from a battery report.
    pub fn read_battery_info(&self, output: &str) -> (info: Result<BatteryInfo, String>)
        ensures
            agrees(info, battery_info_of(output@)),
    {
        let percentage = match self.parse_battery_percentage(output) {
            Ok(level) => level,
            Err(message) => {
                return Err(message);
            },
        };
        let temperature = match self.parse_battery_temperature(output) {
            Ok(degrees) => Some(degrees),
            Err(_) => None,
        };
        let is_charging = match self.parse_battery_charging_status(output) {
            Ok(charging) => Some(charging),
            Err(_) => None,
        };
        let health = match self.parse_battery_health(output) {
            Ok(health) => Some(health),
            Err(_) => None,
        };
        Ok(BatteryInfo { percentage, temperature, is_charging, health })
    }

    /// Parse storage info from a filesystem-usage report.
    pub fn parse_storage_info(&self, output: &str) -> (info: Result<StorageInfo, String>)
        ensures
            agrees(info, storage_info_of(output@)),
            info matches Ok(storage) ==> storage.used <= storage.total ==> storage.consistent(),
    {
        let text = chars_of(output);
        let all = split_lines(text.as_slice());
        if all.len() < 2 {
            return Err("Unexpected df output format".to_owned());
        }
        let (a, b) = all[1];
        assert(bounds_view(all@)[1] == (a as int, b as int));
        let line = &text.as_slice()[a..b];
        assert(line@ == lines(output@)[1]);
        let columns = split_words(line);
        if columns.len() < 3 {
            return Err("Could not parse df output".to_owned());
        }
        let (a1, b1) = columns[1];
        let (a2, b2) = columns[2];
        assert(bounds_view(columns@)[1] == (a1 as int, b1 as int));
        assert(bounds_view(columns@)[2] == (a2 as int, b2 as int));
        let total_text = &line[a1..b1];
        let used_text = &line[a2..b2];
        assert(total_text@ == words(line@)[1]);
        assert(used_text@ == words(line@)[2]);
        let total_kb = match parse_unsigned(total_text, MAX_KILOBYTES) {
            Some(n) => n,
            None => {
                return Err("Invalid total size".to_owned());
            },
        };
        let used_kb = match parse_unsigned(used_text, MAX_KILOBYTES) {
            Some(n) => n,
            None => {
                return Err("Invalid used size".to_owned());
            },
        };
        let total: u64 = total_kb * 1024;
        let used: u64 = used_kb * 1024;
        let free: u64 = if total >= used {
            total - used
        } else {
            0
        };
        Ok(StorageInfo { used, total, free })
    }

    /// Derive quality level from latency.
    pub fn derive_quality_level(&self, latency: u32) -> (level: QualityLevel)
        ensures
            level == quality_band(latency),
    {
        derive_quality_level(latency)
    }
}

// ----------------------------------------------------------------------------
// Queries
// ----------------------------------------------------------------------------

/// `std::time::Instant`, a reading of the monotonic clock. Nothing is known
/// of what a value holds.
#[verifier::external_type_specification]
#[verifier::external_body]
pub struct ExInstant(std::time::Instant);

/// Reads the monotonic clock with `std::time::Instant::now`.
#[verifier::external_body]
fn stopwatch_start() -> (start: std::time::Instant) {
    std::time::Instant::now()
}

/// The time since `start` in nanoseconds, by `std::time::Instant::elapsed`
/// and `std::time::Duration::as_nanos`. Nothing is claimed of the number.
#[verifier::external_body]
fn stopwatch_nanos(start: &std::time::Instant) -> (nanos: u128) {
    start.elapsed().as_nanos()
}

/// The model of a text outcome.
pub open spec fn text_model(answer: Result<String, String>) -> Result<Seq<char>, Seq<char>> {
    match answer {
        Ok(text) => Ok(text@),
        Err(message) => Err(message@),
    }
}

/// The battery facts that follow from the answer to the battery query.
pub open spec fn battery_info_after(answer: Result<String, String>) -> Result<
    BatteryInfo,
    Seq<char>,
> {
    match answer {
        Ok(output) => battery_info_of(output@),
        Err(message) => Err(message@),
    }
}

/// The storage figures that follow from the answer to the storage query.
pub open spec fn storage_info_after(answer: Result<String, String>) -> Result<
    StorageInfo,
    Seq<char>,
> {
    match answer {
        Ok(output) => storage_info_of(output@),
        Err(message) => Err(message@),
    }
}

/// A latency in milliseconds from a time in nanoseconds, as far as it fits
/// 32 bits: what is above them is cut off.
pub open spec fn latency_of(elapsed_nanos: u128) -> u32 {
    ((elapsed_nanos / NANOS_PER_MILLI) % 0x1_0000_0000) as u32
}

/// The latency that follows from the answer to the no-op query and the time
/// that the query took.
pub open spec fn latency_after(answer: Result<String, String>, elapsed_nanos: u128) -> Result<
    u32,
    Seq<char>,
> {
    match answer {
        Ok(_) => Ok(latency_of(elapsed_nanos)),
        Err(message) => Err(message@),
    }
}

/// The device facts, or the failure of the first of the three property
/// queries that failed.
pub open spec fn device_info_agrees(
    info: Result<DeviceInfo, String>,
    model: Result<DeviceInfoView, Seq<char>>,
) -> bool {
    match info {
        Ok(facts) => model == Ok::<DeviceInfoView, Seq<char>>(facts@),
        Err(message) => model == Err::<DeviceInfoView, Seq<char>>(message@),
    }
}

/// `answer` is a result that the query `cmd` on the device may have under
/// the given timeout: the shell reported something of the command, the
/// command took some time, and `answer` is what the two come to.
pub open spec fn may_give<S: Fn(&str, &str) -> ShellReport>(
    shell: &S,
    timeout_ms: u32,
    device_id: &str,
    cmd: &str,
    answer: Result<String, String>,
) -> bool {
    exists|report: ShellReport, elapsed_nanos: u128|
        #![trigger command_result(timeout_ms, elapsed_nanos, report@)]
        shell.ensures((device_id, cmd), report) && text_agrees(
            answer,
            command_result(timeout_ms, elapsed_nanos, report@),
        )
}

/// `info` is what the battery query on the device may come to: the battery
/// facts of some answer that the query may have.
pub open spec fn battery_query_gives<S: Fn(&str, &str) -> ShellReport>(
    shell: &S,
    timeout_ms: u32,
    device_id: &str,
    info: Result<BatteryInfo, String>,
) -> bool {
    exists|answer: Result<String, String>| #[trigger]
        may_give(shell, timeout_ms, device_id, "dumpsys battery", answer) && agrees(
            info,
            battery_info_after(answer),
        )
}

/// `info` is what the storage query on the device may come to.
pub open spec fn storage_query_gives<S: Fn(&str, &str) -> ShellReport>(
    shell: &S,
    timeout_ms: u32,
    device_id: &str,
    info: Result<StorageInfo, String>,
) -> bool {
    exists|answer: Result<String, String>| #[trigger]
        may_give(shell, timeout_ms, device_id, "df /data", answer) && agrees(
            info,
            storage_info_after(answer),
        )
}

/// `info` is what the three property queries on the device may come to:
/// the three answers together, or the failure of the first that failed.
pub open spec fn device_query_gives<S: Fn(&str, &str) -> ShellReport>(
    shell: &S,
    timeout_ms: u32,
    device_id: &str,
    info: Result<DeviceInfo, String>,
) -> bool {
    exists|model: Result<String, String>| #[trigger]
        may_give(shell, timeout_ms, device_id, "getprop ro.product.model", model) && match model {
            Err(message) => device_info_agrees(info, Err(message@)),
            Ok(model_name) => exists|version: Result<String, String>| #[trigger]
                may_give(shell, timeout_ms, device_id, "getprop ro.build.version.release", version)
                    && match version {
                    Err(message) => device_info_agrees(info, Err(message@)),
                    Ok(android_version) => exists|build: Result<String, String>| #[trigger]
                        may_give(shell, timeout_ms, device_id, "getprop ro.build.id", build)
                            && match build {
                            Err(message) => device_info_agrees(info, Err(message@)),
                            Ok(build_number) => device_info_agrees(
                                info,
                                Ok(
                                    DeviceInfoView {
                                        model_name: model_name@,
                                        android_version: android_version@,
                                        build_number: build_number@,
                                    },
                                ),
                            ),
                        },
                },
        }
}

/// `latency` is what the latency measurement on the device may come to: the
/// failure of the no-op query, or some time in milliseconds.
pub open spec fn latency_query_gives<S: Fn(&str, &str) -> ShellReport>(
    shell: &S,
    timeout_ms: u32,
    device_id: &str,
    latency: Result<u32, String>,
) -> bool {
    exists|answer: Result<String, String>, elapsed_nanos: u128|
        #![trigger may_give(shell, timeout_ms, device_id, "echo ok", answer), latency_after(answer, elapsed_nanos)]
        may_give(shell, timeout_ms, device_id, "echo ok", answer) && agrees(
            latency,
            latency_after(answer, elapsed_nanos),
        )
}

impl AdbHealthProvider {
    /// Execute a device-shell command through `shell` and hold the time it
    /// takes against the timeout.
    pub fn run_adb_command<S: Fn(&str, &str) -> ShellReport>(
        &self,
        device_id: &str,
        cmd: &str,
        shell: &S,
    ) -> (answer: Result<String, String>)
        requires
            forall|d: &str, c: &str| shell.requires((d, c)),
        ensures
            may_give(shell, self.timeout_ms(), device_id, cmd, answer),
    {
        let start = stopwatch_start();
        let report = shell(device_id, cmd);
        let elapsed_nanos = stopwatch_nanos(&start);
        let answer = self.judge_command(elapsed_nanos, &report);
        assert(text_agrees(answer, command_result(self.timeout_ms(), elapsed_nanos, report@)));
        answer
    }

    /// Get battery information from device: the battery facts of what the
    /// battery query prints.
    pub fn get_battery_info<S: Fn(&str, &str) -> ShellReport>(
        &self,
        device_id: &str,
        shell: &S,
    ) -> (info: Result<BatteryInfo, String>)
        requires
            forall|d: &str, c: &str| shell.requires((d, c)),
        ensures
            battery_query_gives(shell, self.timeout_ms(), device_id, info),
    {
        let answer = self.run_adb_command(device_id, "dumpsys battery", shell);
        let info = match &answer {
            Ok(output) => self.read_battery_info(output.as_str()),
            Err(message) => Err(message.clone()),
        };
        assert(may_give(shell, self.timeout_ms(), device_id, "dumpsys battery", answer) && agrees(
            info,
            battery_info_after(answer),
        ));
        info
    }

    /// Get storage information from device: the storage figures of what the
    /// storage query prints.
    pub fn get_storage_info<S: Fn(&str, &str) -> ShellReport>(
        &self,
        device_id: &str,
        shell: &S,
    ) -> (info: Result<StorageInfo, String>)
        requires
            forall|d: &str, c: &str| shell.requires((d, c)),
        ensures
            storage_query_gives(shell, self.timeout_ms(), device_id, info),
    {
        let answer = self.run_adb_command(device_id, "df /data", shell);
        let info = match &answer {
            Ok(output) => self.parse_storage_info(output.as_str()),
            Err(message) => Err(message.clone()),
        };
        assert(may_give(shell, self.timeout_ms(), device_id, "df /data", answer) && agrees(
            info,
            storage_info_after(answer),
        ));
        info
    }

    /// Get device information (model, Android version, build number) by
    /// three property queries. The first that fails fails the whole call,
    /// and the queries after it are not made.
    pub fn get_device_info<S: Fn(&str, &str) -> ShellReport>(
        &self,
        device_id: &str,
        shell: &S,
    ) -> (info: Result<DeviceInfo, String>)
        requires
            forall|d: &str, c: &str| shell.requires((d, c)),
        ensures
            device_query_gives(shell, self.timeout_ms(), device_id, info),
    {
        let timeout = Ghost(self.timeout_ms());
        let model = self.run_adb_command(device_id, "getprop ro.product.model", shell);
        let model_name = match &model {
            Ok(text) => text.clone(),
            Err(message) => {
                let info = Err(message.clone());
                assert(may_give(shell, timeout@, device_id, "getprop ro.product.model", model)
                    && device_info_agrees(info, Err(message@)));
                return info;
            },
        };
        let version = self.run_adb_command(device_id, "getprop ro.build.version.release", shell);
        let android_version = match &version {
            Ok(text) => text.clone(),
            Err(message) => {
                let info = Err(message.clone());
                assert(may_give(
                    shell,
                    timeout@,
                    device_id,
                    "getprop ro.build.version.release",
                    version,
                ) && device_info_agrees(info, Err(message@)));
                assert(may_give(shell, timeout@, device_id, "getprop ro.product.model", model));
                return info;
            },
        };
        let build = self.run_adb_command(device_id, "getprop ro.build.id", shell);
        let build_number = match &build {
            Ok(text) => text.clone(),
            Err(message) => {
                let info = Err(message.clone());
                assert(may_give(shell, timeout@, device_id, "getprop ro.build.id", build)
                    && device_info_agrees(info, Err(message@)));
                assert(may_give(
                    shell,
                    timeout@,
                    device_id,
                    "getprop ro.build.version.release",
                    version,
                ));
                assert(may_give(shell, timeout@, device_id, "getprop ro.product.model", model));
                return info;
            },
        };
        let info = Ok(DeviceInfo { model_name, android_version, build_number });
        assert(may_give(shell, timeout@, device_id, "getprop ro.build.id", build));
        assert(may_give(shell, timeout@, device_id, "getprop ro.build.version.release", version));
        assert(may_give(shell, timeout@, device_id, "getprop ro.product.model", model));
        info
    }

    /// The latency in milliseconds that a time in nanoseconds comes to.
    pub fn latency_from_nanos(elapsed_nanos: u128) -> (latency: u32)
        ensures
            latency == latency_of(elapsed_nanos),
    {
        ((elapsed_nanos / NANOS_PER_MILLI) % 0x1_0000_0000) as u32
    }

    /// Measure latency to device: the time that the cheapest query takes,
    /// in milliseconds.
    pub fn get_latency<S: Fn(&str, &str) -> ShellReport>(&self, device_id: &str, shell: &S) -> (latency:
        Result<u32, String>)
        requires
            forall|d: &str, c: &str| shell.requires((d, c)),
        ensures
            latency_query_gives(shell, self.timeout_ms(), device_id, latency),
    {
        let start = stopwatch_start();
        let answer = self.run_adb_command(device_id, "echo ok", shell);
        let elapsed_nanos = stopwatch_nanos(&start);
        let latency = match &answer {
            Ok(_) => Ok(AdbHealthProvider::latency_from_nanos(elapsed_nanos)),
            Err(message) => Err(message.clone()),
        };
        assert(may_give(shell, self.timeout_ms(), device_id, "echo ok", answer) && agrees(
            latency,
            latency_after(answer, elapsed_nanos),
        ));
        latency
    }
}

} // verus!
