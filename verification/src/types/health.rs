//! Health records, polling configuration, and the payloads exchanged with the
//! user interface.
//!
//! Records that hold text have a view in which each text is a `Seq<char>`;
//! contracts speak of those views.

use crate::clock::now_millis;
use vstd::prelude::*;

verus! {

// ----------------------------------------------------------------------------
// Enumerations
// ----------------------------------------------------------------------------

/// Lifecycle stage of a tracked device.
#[derive(Debug, Clone, Copy, PartialEq, Eq, Structural)]
pub enum DeviceState {
    Online,
    Offline,
    Connecting,
    Error,
}

/// Qualitative age of cached health data.
#[derive(Debug, Clone, Copy, PartialEq, Eq, Structural)]
pub enum StalenessLevel {
    Fresh,
    Stale,
    Offline,
}

#[derive(Debug, Clone, Copy, PartialEq, Eq, Structural)]
pub enum ConnectionType {
    Usb,
    Wireless,
}

/// Coarse connection-speed classification derived from round-trip latency.
#[derive(Debug, Clone, Copy, PartialEq, Eq, Structural)]
pub enum QualityLevel {
    Excellent,
    Good,
    Fair,
    Poor,
}

#[derive(Debug, Clone, Copy, PartialEq, Eq, Structural)]
pub enum HealthUpdateReason {
    Poll,
    Retry,
    ManualRefresh,
}

#[derive(Debug, Clone, Copy, PartialEq, Eq, Structural)]
pub enum BatteryHealth {
    Good,
    Warm,
    Overheat,
}

#[derive(Debug, Clone, Copy, PartialEq, Eq, Structural)]
pub enum ErrorCode {
    Offline,
    Timeout,
    PermissionDenied,
    AdbError,
    ParseError,
}

#[derive(Debug, Clone, Copy, PartialEq, Eq, Structural)]
pub enum PollingStopReason {
    User,
    AppShutdown,
    Error,
}

// ----------------------------------------------------------------------------
// Health facts of one device
// ----------------------------------------------------------------------------

#[derive(Debug, Clone, Copy)]
pub struct BatteryInfo {
    /// 0 to 100.
    pub percentage: u32,
    /// Whole degrees Celsius.
    pub temperature: Option<i32>,
    pub is_charging: Option<bool>,
    pub health: Option<BatteryHealth>,
}

/// Storage figures in bytes.
#[derive(Debug, Clone, Copy)]
pub struct StorageInfo {
    pub used: u64,
    pub total: u64,
    pub free: u64,
}

impl StorageInfo {
    /// Used and free space add up to the total.
    pub open spec fn consistent(&self) -> bool {
        self.used + self.free == self.total
    }
}

#[derive(Debug, Clone, Copy)]
pub struct ConnectionMetrics {
    pub connection_type: ConnectionType,
    /// Milliseconds.
    pub latency: u32,
    pub signal_strength: Option<i32>,
    pub quality_level: QualityLevel,
    /// Mbps.
    pub estimated_bandwidth: Option<u32>,
}

#[derive(Debug, Clone)]
pub struct DeviceInfo {
    pub model_name: String,
    pub android_version: String,
    pub build_number: String,
}

pub struct DeviceInfoView {
    pub model_name: Seq<char>,
    pub android_version: Seq<char>,
    pub build_number: Seq<char>,
}

impl View for DeviceInfo {
    type V = DeviceInfoView;

    open spec fn view(&self) -> DeviceInfoView {
        DeviceInfoView {
            model_name: self.model_name@,
            android_version: self.android_version@,
            build_number: self.build_number@,
        }
    }
}

impl DeviceInfo {
    /// A copy with the same texts.
    pub fn duplicate(&self) -> (copy: DeviceInfo)
        ensures
            copy@ == self@,
    {
        DeviceInfo {
            model_name: self.model_name.clone(),
            android_version: self.android_version.clone(),
            build_number: self.build_number.clone(),
        }
    }
}

/// The cached health of one tracked device.
#[derive(Debug, Clone)]
pub struct DeviceHealth {
    pub device_id: String,
    pub state: DeviceState,
    /// Milliseconds since the Unix epoch.
    pub last_seen: u64,
    /// Milliseconds since the Unix epoch.
    pub last_updated: u64,
    pub battery: Option<BatteryInfo>,
    pub storage: Option<StorageInfo>,
    pub connection: Option<ConnectionMetrics>,
    pub device: Option<DeviceInfo>,
    pub staleness: StalenessLevel,
    pub error_reason: Option<String>,
}

pub struct DeviceHealthView {
    pub device_id: Seq<char>,
    pub state: DeviceState,
    pub last_seen: u64,
    pub last_updated: u64,
    pub battery: Option<BatteryInfo>,
    pub storage: Option<StorageInfo>,
    pub connection: Option<ConnectionMetrics>,
    pub device: Option<DeviceInfoView>,
    pub staleness: StalenessLevel,
    pub error_reason: Option<Seq<char>>,
}

/// The later of two timestamps.
pub open spec fn later(a: u64, b: u64) -> u64 {
    if a >= b {
        a
    } else {
        b
    }
}

impl DeviceHealthView {
    /// The record of a device that was just added to the tracked set and has
    /// not been polled yet.
    pub open spec fn created(device_id: Seq<char>, now: u64) -> DeviceHealthView {
        DeviceHealthView {
            device_id,
            state: DeviceState::Connecting,
            last_seen: now,
            last_updated: 0,
            battery: None,
            storage: None,
            connection: None,
            device: None,
            staleness: StalenessLevel::Offline,
            error_reason: None,
        }
    }

    /// The record after the device was found online at `now`. Timestamps
    /// never move backwards.
    pub open spec fn marked_online(self, now: u64) -> DeviceHealthView {
        DeviceHealthView {
            state: DeviceState::Online,
            last_updated: later(self.last_updated, now),
            staleness: StalenessLevel::Fresh,
            error_reason: None,
            ..self
        }
    }

    /// The record after the device failed to answer at `now`.
    pub open spec fn marked_offline(self, now: u64) -> DeviceHealthView {
        DeviceHealthView {
            state: DeviceState::Offline,
            last_seen: later(self.last_seen, now),
            staleness: StalenessLevel::Offline,
            error_reason: Some("Device not responding to ADB"@),
            ..self
        }
    }

    /// The record after a failure with the given reason at `now`.
    pub open spec fn marked_error(self, now: u64, reason: Seq<char>) -> DeviceHealthView {
        DeviceHealthView {
            state: DeviceState::Error,
            last_seen: later(self.last_seen, now),
            error_reason: Some(reason),
            ..self
        }
    }

    /// An online record carries no error reason.
    pub open spec fn coherent(self) -> bool {
        self.state == DeviceState::Online ==> self.error_reason is None
    }

    /// A fresh record holds both battery and storage facts.
    pub open spec fn fresh_is_complete(self) -> bool {
        self.staleness == StalenessLevel::Fresh ==> self.battery is Some && self.storage is Some
    }

    /// Neither timestamp of `self` lies before that of `earlier`.
    pub open spec fn not_before(self, earlier: DeviceHealthView) -> bool {
        self.last_seen >= earlier.last_seen && self.last_updated >= earlier.last_updated
    }
}

impl View for DeviceHealth {
    type V = DeviceHealthView;

    open spec fn view(&self) -> DeviceHealthView {
        DeviceHealthView {
            device_id: self.device_id@,
            state: self.state,
            last_seen: self.last_seen,
            last_updated: self.last_updated,
            battery: self.battery,
            storage: self.storage,
            connection: self.connection,
            device: match self.device {
                Some(d) => Some(d@),
                None => None,
            },
            staleness: self.staleness,
            error_reason: match self.error_reason {
                Some(r) => Some(r@),
                None => None,
            },
        }
    }
}

impl DeviceHealth {
    /// Create the record of a device that was just added, stamped with the
    /// current time.
    pub fn new(device_id: String) -> (health: DeviceHealth)
        ensures
            health@ == DeviceHealthView::created(device_id@, health.last_seen),
    {
        let now = now_millis();
        DeviceHealth::created_at(device_id, now)
    }

    /// Create the record of a device that was added at `now`.
    pub fn created_at(device_id: String, now: u64) -> (health: DeviceHealth)
        ensures
            health@ == DeviceHealthView::created(device_id@, now),
    {
        DeviceHealth {
            device_id,
            state: DeviceState::Connecting,
            last_seen: now,
            last_updated: 0,
            battery: None,
            storage: None,
            connection: None,
            device: None,
            staleness: StalenessLevel::Offline,
            error_reason: None,
        }
    }

    /// Mark device as online with updated health data.
    pub fn mark_online(&mut self, now: u64)
        ensures
            final(self)@ == old(self)@.marked_online(now),
    {
        self.state = DeviceState::Online;
        if now > self.last_updated {
            self.last_updated = now;
        }
        self.staleness = StalenessLevel::Fresh;
        self.error_reason = None;
    }

    /// Mark device as offline.
    pub fn mark_offline(&mut self, now: u64)
        ensures
            final(self)@ == old(self)@.marked_offline(now),
    {
        self.state = DeviceState::Offline;
        if now > self.last_seen {
            self.last_seen = now;
        }
        self.staleness = StalenessLevel::Offline;
        self.error_reason = Some("Device not responding to ADB".to_owned());
    }

    /// Mark as error state with reason.
    pub fn mark_error(&mut self, now: u64, reason: String)
        ensures
            final(self)@ == old(self)@.marked_error(now, reason@),
    {
        self.state = DeviceState::Error;
        if now > self.last_seen {
            self.last_seen = now;
        }
        self.error_reason = Some(reason);
    }

    /// A copy of the record, for handing out of a cache.
    pub fn snapshot(&self) -> (copy: DeviceHealth)
        ensures
            copy@ == self@,
    {
        DeviceHealth {
            device_id: self.device_id.clone(),
            state: self.state,
            last_seen: self.last_seen,
            last_updated: self.last_updated,
            battery: self.battery,
            storage: self.storage,
            connection: self.connection,
            device: match &self.device {
                Some(d) => Some(d.duplicate()),
                None => None,
            },
            staleness: self.staleness,
            error_reason: match &self.error_reason {
                Some(r) => Some(r.clone()),
                None => None,
            },
        }
    }
}

/// Each of the three marks leaves both timestamps where they were or moves
/// them forward, whatever time it is given.
pub proof fn lemma_marks_keep_timestamps_monotonic(h: DeviceHealthView, now: u64, reason: Seq<char>)
    ensures
        h.marked_online(now).not_before(h),
        h.marked_offline(now).not_before(h),
        h.marked_error(now, reason).not_before(h),
{
}

/// A record is coherent when created and after each of the three marks: an
/// online record never carries an error reason.
pub proof fn lemma_marks_keep_coherence(
    h: DeviceHealthView,
    device_id: Seq<char>,
    now: u64,
    reason: Seq<char>,
)
    ensures
        DeviceHealthView::created(device_id, now).coherent(),
        h.marked_online(now).coherent(),
        h.marked_offline(now).coherent(),
        h.marked_error(now, reason).coherent(),
{
}

// ----------------------------------------------------------------------------
// Quality banding
// ----------------------------------------------------------------------------

/// The band a latency in milliseconds falls into: below 50 is excellent,
/// below 100 good, below 200 fair, everything else poor.
pub open spec fn quality_band(latency: u32) -> QualityLevel {
    if latency < 50 {
        QualityLevel::Excellent
    } else if latency < 100 {
        QualityLevel::Good
    } else if latency < 200 {
        QualityLevel::Fair
    } else {
        QualityLevel::Poor
    }
}

/// Derive quality level from latency in milliseconds.
pub fn derive_quality_level(latency: u32) -> (level: QualityLevel)
    ensures
        level == quality_band(latency),
{
    if latency < 50 {
        QualityLevel::Excellent
    } else if latency < 100 {
        QualityLevel::Good
    } else if latency < 200 {
        QualityLevel::Fair
    } else {
        QualityLevel::Poor
    }
}

// ----------------------------------------------------------------------------
// Polling configuration
// ----------------------------------------------------------------------------

/// A non-negative factor held exactly, in thousandths: 1500 stands for 1.5.
#[derive(Debug, Clone, Copy, PartialEq, Eq, Structural)]
pub struct Multiplier {
    pub thousandths: u32,
}

/// Configuration of one polling session. Durations are in milliseconds.
#[derive(Debug, Clone, Copy)]
pub struct HealthPollingConfig {
    pub polling_interval_usb: u32,
    pub polling_interval_wireless: u32,
    pub offline_threshold: u32,
    pub stale_threshold: u32,
    pub max_retries: u32,
    pub retry_backoff_ms: u32,
    pub retry_backoff_multiplier: Multiplier,
    pub enabled: bool,
    pub collect_battery: bool,
    pub collect_storage: bool,
    pub collect_connection_metrics: bool,
    pub collect_device_info: bool,
    pub batch_size: u32,
    pub query_timeout: u32,
}

impl HealthPollingConfig {
    /// The configuration a session runs with when none is given.
    pub open spec fn standard() -> HealthPollingConfig {
        HealthPollingConfig {
            polling_interval_usb: 1000,
            polling_interval_wireless: 3000,
            offline_threshold: 5000,
            stale_threshold: 30000,
            max_retries: 5,
            retry_backoff_ms: 500,
            retry_backoff_multiplier: Multiplier { thousandths: 2000 },
            enabled: true,
            collect_battery: true,
            collect_storage: true,
            collect_connection_metrics: true,
            collect_device_info: true,
            batch_size: 1,
            query_timeout: 500,
        }
    }

    /// Every constraint on the fields holds.
    pub open spec fn is_valid(&self) -> bool {
        &&& self.polling_interval_usb >= 100
        &&& self.polling_interval_wireless >= 100
        &&& 1 <= self.max_retries <= 10
        &&& self.retry_backoff_ms >= 100
        &&& self.query_timeout >= 200
    }

    /// The complaint about the first constraint that fails, in the order in
    /// which the fields are checked; `None` when all hold.
    pub open spec fn first_complaint(&self) -> Option<Seq<char>> {
        if self.polling_interval_usb < 100 {
            Some("polling_interval_usb must be >= 100ms"@)
        } else if self.polling_interval_wireless < 100 {
            Some("polling_interval_wireless must be >= 100ms"@)
        } else if self.max_retries < 1 || self.max_retries > 10 {
            Some("max_retries must be between 1 and 10"@)
        } else if self.retry_backoff_ms < 100 {
            Some("retry_backoff_ms must be >= 100ms"@)
        } else if self.query_timeout < 200 {
            Some("query_timeout must be >= 200ms"@)
        } else {
            None
        }
    }

    /// The polling interval that belongs to a kind of connection.
    pub open spec fn interval_for(&self, connection_type: ConnectionType) -> u32 {
        match connection_type {
            ConnectionType::Usb => self.polling_interval_usb,
            ConnectionType::Wireless => self.polling_interval_wireless,
        }
    }

    pub fn get_polling_interval(&self, connection_type: ConnectionType) -> (interval: u32)
        ensures
            interval == self.interval_for(connection_type),
    {
        match connection_type {
            ConnectionType::Usb => self.polling_interval_usb,
            ConnectionType::Wireless => self.polling_interval_wireless,
        }
    }

    /// Accepts the configuration exactly when it is valid; otherwise names
    /// the first constraint that fails.
    pub fn validate(&self) -> (checked: Result<(), String>)
        ensures
            checked is Ok <==> self.is_valid(),
            match checked {
                Ok(_) => self.first_complaint() is None,
                Err(complaint) => self.first_complaint() == Some(complaint@),
            },
    {
        if self.polling_interval_usb < 100 {
            return Err("polling_interval_usb must be >= 100ms".to_owned());
        }
        if self.polling_interval_wireless < 100 {
            return Err("polling_interval_wireless must be >= 100ms".to_owned());
        }
        if self.max_retries < 1 || self.max_retries > 10 {
            return Err("max_retries must be between 1 and 10".to_owned());
        }
        if self.retry_backoff_ms < 100 {
            return Err("retry_backoff_ms must be >= 100ms".to_owned());
        }
        if self.query_timeout < 200 {
            return Err("query_timeout must be >= 200ms".to_owned());
        }
        Ok(())
    }
}

impl Default for HealthPollingConfig {
    fn default() -> (config: HealthPollingConfig)
        ensures
            config == HealthPollingConfig::standard(),
            config.is_valid(),
    {
        HealthPollingConfig {
            polling_interval_usb: 1000,
            polling_interval_wireless: 3000,
            offline_threshold: 5000,
            stale_threshold: 30000,
            max_retries: 5,
            retry_backoff_ms: 500,
            retry_backoff_multiplier: Multiplier { thousandths: 2000 },
            enabled: true,
            collect_battery: true,
            collect_storage: true,
            collect_connection_metrics: true,
            collect_device_info: true,
            batch_size: 1,
            query_timeout: 500,
        }
    }
}

// ----------------------------------------------------------------------------
// Reconnection state
// ----------------------------------------------------------------------------

#[derive(Debug, Clone)]
pub struct ErrorInfo {
    pub code: ErrorCode,
    pub message: String,
}

pub struct ErrorInfoView {
    pub code: ErrorCode,
    pub message: Seq<char>,
}

impl View for ErrorInfo {
    type V = ErrorInfoView;

    open spec fn view(&self) -> ErrorInfoView {
        ErrorInfoView { code: self.code, message: self.message@ }
    }
}

/// The state of one retry sequence in flight for one device.
#[derive(Debug, Clone)]
pub struct ReconnectionState {
    pub device_id: String,
    pub attempt: u32,
    pub max_attempts: u32,
    /// Milliseconds since the Unix epoch.
    pub next_retry_at: u64,
    pub last_error: ErrorInfo,
    /// Milliseconds since the Unix epoch.
    pub started_at: u64,
}

// ----------------------------------------------------------------------------
// Requests and answers of the control surface
// ----------------------------------------------------------------------------

#[derive(Debug)]
pub struct StartHealthPollingRequest {
    pub config: HealthPollingConfig,
    pub devices: Vec<StartPollingDevice>,
}

#[derive(Debug)]
pub struct StartPollingDevice {
    pub device_id: String,
    pub connection_type: ConnectionType,
}

#[derive(Debug)]
pub struct HealthCommandResult {
    pub success: bool,
    pub error: Option<ErrorInfo>,
}

#[derive(Debug)]
pub struct GetDeviceHealthResponse {
    pub health: Option<DeviceHealth>,
    pub is_cached: bool,
    /// Milliseconds.
    pub cache_age: u64,
}

// ----------------------------------------------------------------------------
// Event payloads
// ----------------------------------------------------------------------------

#[derive(Debug, Clone)]
pub struct DeviceHealthUpdateEvent {
    pub device_id: String,
    pub health: DeviceHealth,
    pub reason: HealthUpdateReason,
    pub timestamp: u64,
}

pub struct DeviceHealthUpdateEventView {
    pub device_id: Seq<char>,
    pub health: DeviceHealthView,
    pub reason: HealthUpdateReason,
    pub timestamp: u64,
}

impl View for DeviceHealthUpdateEvent {
    type V = DeviceHealthUpdateEventView;

    open spec fn view(&self) -> DeviceHealthUpdateEventView {
        DeviceHealthUpdateEventView {
            device_id: self.device_id@,
            health: self.health@,
            reason: self.reason,
            timestamp: self.timestamp,
        }
    }
}

#[derive(Debug, Clone)]
pub struct PollingErrorEvent {
    pub device_id: String,
    pub error: ErrorInfo,
    pub attempt: u32,
    pub max_attempts: u32,
    pub next_retry_at: Option<u64>,
    pub will_retry: bool,
}

pub struct PollingErrorEventView {
    pub device_id: Seq<char>,
    pub error: ErrorInfoView,
    pub attempt: u32,
    pub max_attempts: u32,
    pub next_retry_at: Option<u64>,
    pub will_retry: bool,
}

impl View for PollingErrorEvent {
    type V = PollingErrorEventView;

    open spec fn view(&self) -> PollingErrorEventView {
        PollingErrorEventView {
            device_id: self.device_id@,
            error: self.error@,
            attempt: self.attempt,
            max_attempts: self.max_attempts,
            next_retry_at: self.next_retry_at,
            will_retry: self.will_retry,
        }
    }
}

#[derive(Debug, Clone)]
pub struct PollingStartedEvent {
    pub timestamp: u64,
    pub config: HealthPollingConfig,
}

#[derive(Debug, Clone)]
pub struct PollingStoppedEvent {
    pub timestamp: u64,
    pub reason: PollingStopReason,
}

} // verus!
