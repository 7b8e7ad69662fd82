//! The health polling session.
//!
//! A session is idle or running. While it runs it tracks a set of devices
//! and holds one health record for each. The session does not poll by
//! itself: its owner asks it what the next cycle is, polls each device, and
//! hands every outcome back. The session decides what is cached and what is
//! announced.

use crate::clock::now_millis;
use crate::services::adb_health_provider::{
    battery_query_gives, device_query_gives, latency_query_gives, storage_query_gives,
    AdbHealthProvider, ShellReport, ShellReportView,
};
use crate::services::health_cache::HealthCache;
use crate::services::health_poller::{classify_error, error_kind, ErrorType};
use crate::text::texts;
use crate::types::health::{
    derive_quality_level, quality_band, BatteryInfo, ConnectionMetrics,
    ConnectionType, DeviceHealth, DeviceHealthUpdateEvent, DeviceHealthUpdateEventView,
    DeviceHealthView, DeviceInfo, DeviceInfoView, DeviceState, ErrorCode, ErrorInfo,
    ErrorInfoView, HealthPollingConfig, HealthUpdateReason, PollingErrorEvent,
    PollingErrorEventView, PollingStopReason, PollingStoppedEvent, QualityLevel, StalenessLevel,
    StorageInfo,
};
use vstd::prelude::*;

verus! {

/// The delay in milliseconds after which a failed cycle is announced to be
/// tried again.
pub const INITIAL_RETRY_DELAY_MS: u64 = 500;

// ----------------------------------------------------------------------------
// The model of a session
// ----------------------------------------------------------------------------

/// The state of a polling session.
pub struct SessionView {
    pub running: bool,
    /// Why the session stopped last.
    pub stop_reason: PollingStopReason,
    /// The tracked devices. Empty while the session is idle.
    pub devices: Seq<Seq<char>>,
    pub config: HealthPollingConfig,
    /// The health records. Empty while the session is idle.
    pub cache: Map<Seq<char>, DeviceHealthView>,
}

/// The record that a device gets when a session starts at `now`.
pub open spec fn seed_entry(device_id: Seq<char>, now: u64) -> DeviceHealthView {
    DeviceHealthView { last_updated: now, ..DeviceHealthView::created(device_id, now) }
}

/// One seed record for each of the devices.
pub open spec fn seeded(ids: Seq<Seq<char>>, now: u64) -> Map<Seq<char>, DeviceHealthView> {
    Map::new(|id: Seq<char>| ids.contains(id), |id: Seq<char>| seed_entry(id, now))
}

/// The record of a device after a poll of it failed at `now` with a failure
/// of the given kind. A device that is unreachable is marked offline; any
/// other failure is recorded as an error. Either way the record is no longer
/// fresh.
pub open spec fn after_failed_poll(
    entry: DeviceHealthView,
    kind: ErrorType,
    message: Seq<char>,
    now: u64,
) -> DeviceHealthView {
    if kind == ErrorType::Offline {
        entry.marked_offline(now)
    } else {
        let marked = entry.marked_error(now, message);
        DeviceHealthView {
            staleness: if marked.staleness == StalenessLevel::Fresh {
                StalenessLevel::Stale
            } else {
                marked.staleness
            },
            ..marked
        }
    }
}

/// The code under which a failure of a cycle is announced.
pub open spec fn code_of(kind: ErrorType) -> ErrorCode {
    match kind {
        ErrorType::Offline => ErrorCode::Offline,
        ErrorType::Timeout => ErrorCode::Timeout,
        ErrorType::NetworkError => ErrorCode::AdbError,
        ErrorType::Permanent => ErrorCode::AdbError,
    }
}

/// Whether a failure of a cycle is announced: only that of a device that
/// did not answer in time or at all.
pub open spec fn is_announced(kind: ErrorType) -> bool {
    kind == ErrorType::Offline || kind == ErrorType::Timeout
}

/// A time and a delay added up, as far as 64 bits go.
pub open spec fn time_after(now: u64, delay: u64) -> u64 {
    if now + delay <= u64::MAX {
        (now + delay) as u64
    } else {
        u64::MAX
    }
}

impl SessionView {
    /// The session holds a record for each device that it tracks and for no
    /// other, and an idle session tracks none.
    pub open spec fn holds_what_it_tracks(self) -> bool {
        &&& forall|id: Seq<char>| self.cache.contains_key(id) <==> self.devices.contains(id)
        &&& !self.running ==> self.devices.len() == 0
    }

    /// A session that has not run yet.
    pub open spec fn idle() -> SessionView {
        SessionView {
            running: false,
            stop_reason: PollingStopReason::User,
            devices: Seq::empty(),
            config: HealthPollingConfig::standard(),
            cache: Map::empty(),
        }
    }

    /// The answer to a request to start with the given configuration: a
    /// running session rejects it, an idle one rejects a configuration that
    /// is not valid.
    pub open spec fn start_response(self, config: HealthPollingConfig) -> Result<(), Seq<char>> {
        if self.running {
            Err("Polling already running"@)
        } else {
            match config.first_complaint() {
                Some(complaint) => Err(complaint),
                None => Ok(()),
            }
        }
    }

    /// The session after a request to start at `now`. A request that is
    /// rejected changes nothing.
    pub open spec fn started(
        self,
        ids: Seq<Seq<char>>,
        config: HealthPollingConfig,
        now: u64,
    ) -> SessionView {
        if self.start_response(config) is Ok {
            SessionView {
                running: true,
                stop_reason: self.stop_reason,
                devices: ids,
                config,
                cache: seeded(ids, now),
            }
        } else {
            self
        }
    }

    /// The session after it was stopped for the given reason.
    pub open spec fn stopped(self, reason: PollingStopReason) -> SessionView {
        SessionView {
            running: false,
            stop_reason: reason,
            devices: Seq::empty(),
            config: self.config,
            cache: Map::empty(),
        }
    }

    /// Whether the record of a finished poll is taken into the cache: the
    /// session runs, tracks the device, and holds no later record of it.
    pub open spec fn accepts(self, health: DeviceHealthView) -> bool {
        &&& self.running
        &&& self.devices.contains(health.device_id)
        &&& self.cache.contains_key(health.device_id) ==> health.not_before(
            self.cache[health.device_id],
        )
    }

    /// The session after a poll gave the record `health`.
    pub open spec fn with_success(self, health: DeviceHealthView) -> SessionView {
        if self.accepts(health) {
            SessionView { cache: self.cache.insert(health.device_id, health), ..self }
        } else {
            self
        }
    }

    /// Whether the failure of a poll concerns the session: it runs and holds
    /// a record of the device.
    pub open spec fn concerns(self, device_id: Seq<char>) -> bool {
        self.running && self.devices.contains(device_id) && self.cache.contains_key(device_id)
    }

    /// The session after a poll of a device failed at `now`.
    pub open spec fn with_failure(
        self,
        device_id: Seq<char>,
        kind: ErrorType,
        message: Seq<char>,
        now: u64,
    ) -> SessionView {
        if self.concerns(device_id) {
            SessionView {
                cache: self.cache.insert(
                    device_id,
                    after_failed_poll(self.cache[device_id], kind, message, now),
                ),
                ..self
            }
        } else {
            self
        }
    }

    /// What is announced after a poll of a device failed at `now`.
    pub open spec fn failure_notice(
        self,
        device_id: Seq<char>,
        kind: ErrorType,
        message: Seq<char>,
        now: u64,
    ) -> Option<PollingErrorEventView> {
        if self.concerns(device_id) && is_announced(kind) {
            Some(
                PollingErrorEventView {
                    device_id,
                    error: ErrorInfoView { code: code_of(kind), message },
                    attempt: 1,
                    max_attempts: self.config.max_retries,
                    next_retry_at: Some(time_after(now, INITIAL_RETRY_DELAY_MS)),
                    will_retry: true,
                },
            )
        } else {
            None
        }
    }
}

/// The record that a poll of a reachable device at `now` comes to. Each
/// fact that could not be had is absent. The record is fresh when it holds
/// both battery and storage facts, and stale otherwise.
pub open spec fn assembled(
    device_id: Seq<char>,
    battery: Option<BatteryInfo>,
    storage: Option<StorageInfo>,
    device: Option<DeviceInfoView>,
    latency: Option<u32>,
    now: u64,
) -> DeviceHealthView {
    DeviceHealthView {
        device_id,
        state: DeviceState::Online,
        last_seen: now,
        last_updated: now,
        battery,
        storage,
        connection: match latency {
            Some(millis) => Some(
                ConnectionMetrics {
                    connection_type: ConnectionType::Usb,
                    latency: millis,
                    signal_strength: None,
                    quality_level: quality_band(millis),
                    estimated_bandwidth: None,
                },
            ),
            None => None,
        },
        device,
        staleness: if battery is Some && storage is Some {
            StalenessLevel::Fresh
        } else {
            StalenessLevel::Stale
        },
        error_reason: None,
    }
}

/// Whether a device answered the probe.
pub open spec fn answered(probe: ShellReportView) -> bool {
    probe matches ShellReportView::Finished { success, .. } && success
}

/// What is had of a query: its value, or nothing when it failed.
pub open spec fn had<T>(outcome: Result<T, String>) -> Option<T> {
    match outcome {
        Ok(value) => Some(value),
        Err(_) => None,
    }
}

/// The device facts that are had of the device query.
pub open spec fn had_device(outcome: Result<DeviceInfo, String>) -> Option<DeviceInfoView> {
    match outcome {
        Ok(facts) => Some(facts@),
        Err(_) => None,
    }
}

/// The four outcomes are what the four queries on the device may come to.
pub open spec fn gathered<S: Fn(&str, &str) -> ShellReport>(
    shell: &S,
    timeout_ms: u32,
    device_id: &str,
    battery: Result<BatteryInfo, String>,
    storage: Result<StorageInfo, String>,
    device: Result<DeviceInfo, String>,
    latency: Result<u32, String>,
) -> bool {
    &&& battery_query_gives(shell, timeout_ms, device_id, battery)
    &&& storage_query_gives(shell, timeout_ms, device_id, storage)
    &&& device_query_gives(shell, timeout_ms, device_id, device)
    &&& latency_query_gives(shell, timeout_ms, device_id, latency)
}

// ----------------------------------------------------------------------------
// What a session tells its owner
// ----------------------------------------------------------------------------

/// What the owner of a session does next.
#[derive(Debug, Clone)]
pub enum CycleStep {
    /// The session was stopped: announce it and end the loop.
    Stop { notification: PollingStoppedEvent },
    /// Wait, then poll each of the devices.
    Poll { wait_ms: u64, device_ids: Vec<String> },
}

/// `step` is what the owner of a session in the given state does next at
/// `now`: a stopped session has it announce the stop, with the reason and
/// the time; a running one has it wait for the polling interval and poll
/// each tracked device.
pub open spec fn is_step_of(step: CycleStep, session: SessionView, now: u64) -> bool {
    match step {
        CycleStep::Stop { notification } => !session.running && notification.reason
            == session.stop_reason && notification.timestamp == now,
        CycleStep::Poll { wait_ms, device_ids } => session.running && wait_ms
            == session.config.polling_interval_usb && texts(device_ids@) == session.devices,
    }
}

// ----------------------------------------------------------------------------
// The session
// ----------------------------------------------------------------------------

pub struct HealthPollingService {
    running: bool,
    stop_reason: PollingStopReason,
    device_ids: Vec<String>,
    config: HealthPollingConfig,
    cache: HealthCache,
}

impl View for HealthPollingService {
    type V = SessionView;

    closed spec fn view(&self) -> SessionView {
        SessionView {
            running: self.running,
            stop_reason: self.stop_reason,
            devices: texts(self.device_ids@),
            config: self.config,
            cache: self.cache@,
        }
    }
}

fn copy_ids(ids: &Vec<String>) -> (copy: Vec<String>)
    ensures
        texts(copy@) == texts(ids@),
{
    let mut copy: Vec<String> = Vec::new();
    let mut i: usize = 0;
    while i < ids.len()
        invariant
            i <= ids@.len(),
            copy@.len() == i,
            forall|j: int| 0 <= j < i ==> copy@[j]@ == ids@[j]@,
        decreases ids@.len() - i,
    {
        copy.push(ids[i].clone());
        i += 1;
    }
    assert(texts(copy@) =~= texts(ids@));
    copy
}

fn lists(ids: &Vec<String>, device_id: &str) -> (listed: bool)
    ensures
        listed == texts(ids@).contains(device_id@),
{
    let wanted = device_id.to_owned();
    let mut i: usize = 0;
    while i < ids.len()
        invariant
            i <= ids@.len(),
            wanted@ == device_id@,
            forall|j: int| 0 <= j < i ==> texts(ids@)[j] != device_id@,
        decreases ids@.len() - i,
    {
        if ids[i] == wanted {
            assert(texts(ids@)[i as int] == device_id@);
            return true;
        }
        i += 1;
    }
    false
}

impl HealthPollingService {
    /// The invariant of a session: its cache is well formed, and it holds
    /// a record for exactly the devices that it tracks.
    pub closed spec fn wf(&self) -> bool {
        self.cache.wf() && self@.holds_what_it_tracks()
    }

    /// A well-formed session holds a record for exactly the devices that it
    /// tracks.
    pub proof fn lemma_wf_holds_what_it_tracks(&self)
        requires
            self.wf(),
        ensures
            self@.holds_what_it_tracks(),
    {
    }

    /// The configuration of the session.
    pub fn config(&self) -> (config: HealthPollingConfig)
        ensures
            config == self@.config,
    {
        self.config
    }

    /// Create a new polling service, idle and without records.
    pub fn new() -> (service: HealthPollingService)
        ensures
            service.wf(),
            service@ == SessionView::idle(),
    {
        let service = HealthPollingService {
            running: false,
            stop_reason: PollingStopReason::User,
            device_ids: Vec::new(),
            config: HealthPollingConfig::default(),
            cache: HealthCache::new(),
        };
        assert(texts(service.device_ids@) =~= Seq::<Seq<char>>::empty());
        service
    }

    pub fn is_running(&self) -> (running: bool)
        ensures
            running == self@.running,
    {
        self.running
    }

    /// Start polling for the given device ids at `now`. A running session
    /// rejects the request, an idle one rejects a configuration that is not
    /// valid; a rejected request changes nothing. Otherwise the session
    /// runs, with one seed record for each device.
    pub fn start_polling_at(
        &mut self,
        device_ids: Vec<String>,
        config: HealthPollingConfig,
        now: u64,
    ) -> (response: Result<(), String>)
        requires
            old(self).wf(),
        ensures
            final(self).wf(),
            match response {
                Ok(_) => old(self)@.start_response(config) is Ok,
                Err(message) => old(self)@.start_response(config) == Err::<(), Seq<char>>(message@),
            },
            final(self)@ == old(self)@.started(texts(device_ids@), config, now),
    {
        if self.running {
            return Err("Polling already running".to_owned());
        }
        match config.validate() {
            Ok(_) => {},
            Err(complaint) => {
                return Err(complaint);
            },
        }
        let mut cache = HealthCache::new();
        let mut i: usize = 0;
        assert(cache@ =~= seeded(texts(device_ids@).take(0), now));
        while i < device_ids.len()
            invariant
                i <= device_ids@.len(),
                cache.wf(),
                cache@ == seeded(texts(device_ids@).take(i as int), now),
            decreases device_ids@.len() - i,
        {
            let mut entry = DeviceHealth::created_at(device_ids[i].clone(), now);
            entry.last_updated = now;
            let ghost before = texts(device_ids@).take(i as int);
            let ghost after = texts(device_ids@).take(i + 1);
            cache.insert(entry);
            proof {
                let id = device_ids@[i as int]@;
                assert(after =~= before.push(id));
                assert forall|k: Seq<char>| after.contains(k) == (before.contains(k) || k == id) by {
                    if before.contains(k) {
                        let j = choose|j: int| 0 <= j < before.len() && before[j] == k;
                        assert(after[j] == k);
                    }
                    if k == id {
                        assert(after[i as int] == k);
                    }
                }
                assert(cache@ =~= seeded(after, now));
            }
            i += 1;
        }
        assert(texts(device_ids@).take(i as int) =~= texts(device_ids@));
        self.running = true;
        self.device_ids = device_ids;
        self.config = config;
        self.cache = cache;
        Ok(())
    }

    /// Start polling for the given device ids, at the time that the clock
    /// shows.
    pub fn start_polling(&mut self, device_ids: Vec<String>, config: HealthPollingConfig) -> (response:
        Result<(), String>)
        requires
            old(self).wf(),
        ensures
            final(self).wf(),
            match response {
                Ok(_) => old(self)@.start_response(config) is Ok,
                Err(message) => old(self)@.start_response(config) == Err::<(), Seq<char>>(message@),
            },
            exists|now: u64| final(self)@ == #[trigger] old(self)@.started(
                texts(device_ids@),
                config,
                now,
            ),
    {
        let now = now_millis();
        self.start_polling_at(device_ids, config, now)
    }

    /// Stop the polling service. Always succeeds; the session is idle
    /// afterwards and holds no records.
    pub fn stop_polling(&mut self) -> (response: Result<(), String>)
        requires
            old(self).wf(),
        ensures
            final(self).wf(),
            response is Ok,
            final(self)@ == old(self)@.stopped(PollingStopReason::User),
    {
        self.halt(PollingStopReason::User);
        Ok(())
    }

    /// Stops the session because the application shuts down.
    pub fn shutdown(&mut self)
        requires
            old(self).wf(),
        ensures
            final(self).wf(),
            final(self)@ == old(self)@.stopped(PollingStopReason::AppShutdown),
    {
        self.halt(PollingStopReason::AppShutdown);
    }

    fn halt(&mut self, reason: PollingStopReason)
        requires
            old(self).wf(),
        ensures
            final(self).wf(),
            final(self)@ == old(self)@.stopped(reason),
    {
        self.running = false;
        self.stop_reason = reason;
        self.device_ids = Vec::new();
        self.cache = HealthCache::new();
        assert(texts(self.device_ids@) =~= Seq::<Seq<char>>::empty());
    }

    /// Get current health for a device: a copy of its record, or `None`
    /// exactly when the session does not track the device.
    pub fn get_device_health(&self, device_id: &str) -> (health: Option<DeviceHealth>)
        requires
            self.wf(),
        ensures
            health is Some <==> self@.devices.contains(device_id@),
            match health {
                Some(record) => self@.cache.contains_key(device_id@) && self@.cache[device_id@]
                    == record@,
                None => !self@.cache.contains_key(device_id@),
            },
    {
        self.cache.get(device_id)
    }

    /// What the owner of the session does next at `now`: end the loop once
    /// the session is stopped, and otherwise wait for the polling interval
    /// and poll each tracked device.
    pub fn next_cycle_at(&self, now: u64) -> (step: CycleStep)
        ensures
            is_step_of(step, self@, now),
    {
        if !self.running {
            CycleStep::Stop {
                notification: PollingStoppedEvent { timestamp: now, reason: self.stop_reason },
            }
        } else {
            CycleStep::Poll {
                wait_ms: self.config.polling_interval_usb as u64,
                device_ids: copy_ids(&self.device_ids),
            }
        }
    }

    /// What the owner of the session does next, at the time that the clock
    /// shows.
    pub fn next_cycle(&self) -> (step: CycleStep)
        ensures
            exists|now: u64| is_step_of(step, self@, now),
    {
        let now = now_millis();
        let step = self.next_cycle_at(now);
        assert(is_step_of(step, self@, now));
        step
    }

    /// Takes the record of a finished poll into the cache, unless the
    /// session no longer runs or tracks the device, or holds a later record
    /// of it. Returns the update to announce, if the record was taken.
    pub fn record_success(&mut self, health: DeviceHealth, now: u64) -> (notice: Option<
        DeviceHealthUpdateEvent,
    >)
        requires
            old(self).wf(),
        ensures
            final(self).wf(),
            final(self)@ == old(self)@.with_success(health@),
            match notice {
                Some(event) => old(self)@.accepts(health@) && event@ == (
                DeviceHealthUpdateEventView {
                    device_id: health@.device_id,
                    health: health@,
                    reason: HealthUpdateReason::Poll,
                    timestamp: now,
                }),
                None => !old(self)@.accepts(health@),
            },
    {
        if !self.running || !lists(&self.device_ids, health.device_id.as_str()) {
            return None;
        }
        match self.cache.get(health.device_id.as_str()) {
            Some(cached) => {
                if health.last_seen < cached.last_seen || health.last_updated
                    < cached.last_updated {
                    return None;
                }
            },
            None => {},
        }
        let event = DeviceHealthUpdateEvent {
            device_id: health.device_id.clone(),
            health: health.snapshot(),
            reason: HealthUpdateReason::Poll,
            timestamp: now,
        };
        self.cache.insert(health);
        Some(event)
    }

    /// Records that a poll of a device failed at `now` with a failure of
    /// the given kind, and returns what to announce.
    pub fn record_failure_of_kind(
        &mut self,
        device_id: &str,
        message: &str,
        kind: ErrorType,
        now: u64,
    ) -> (notice: Option<PollingErrorEvent>)
        requires
            old(self).wf(),
        ensures
            final(self).wf(),
            final(self)@ == old(self)@.with_failure(device_id@, kind, message@, now),
            match notice {
                Some(event) => old(self)@.failure_notice(device_id@, kind, message@, now) == Some(
                    event@,
                ),
                None => old(self)@.failure_notice(device_id@, kind, message@, now) is None,
            },
    {
        if !self.running || !lists(&self.device_ids, device_id) {
            return None;
        }
        let mut entry = match self.cache.get(device_id) {
            Some(entry) => entry,
            None => {
                return None;
            },
        };
        match kind {
            ErrorType::Offline => {
                entry.mark_offline(now);
            },
            _ => {
                entry.mark_error(now, message.to_owned());
                match entry.staleness {
                    StalenessLevel::Fresh => {
                        entry.staleness = StalenessLevel::Stale;
                    },
                    _ => {},
                }
            },
        }
        self.cache.insert(entry);
        let code = match kind {
            ErrorType::Offline => ErrorCode::Offline,
            ErrorType::Timeout => ErrorCode::Timeout,
            _ => {
                return None;
            },
        };
        let next_retry_at = if now <= u64::MAX - INITIAL_RETRY_DELAY_MS {
            now + INITIAL_RETRY_DELAY_MS
        } else {
            u64::MAX
        };
        Some(
            PollingErrorEvent {
                device_id: device_id.to_owned(),
                error: ErrorInfo { code, message: message.to_owned() },
                attempt: 1,
                max_attempts: self.config.max_retries,
                next_retry_at: Some(next_retry_at),
                will_retry: true,
            },
        )
    }

    /// Records that a poll of a device failed at `now` with the given
    /// message, and returns what to announce.
    pub fn record_failure(&mut self, device_id: &str, message: &str, now: u64) -> (notice: Option<
        PollingErrorEvent,
    >)
        requires
            old(self).wf(),
        ensures
            final(self).wf(),
            final(self)@ == old(self)@.with_failure(
                device_id@,
                error_kind(message@),
                message@,
                now,
            ),
            match notice {
                Some(event) => old(self)@.failure_notice(
                    device_id@,
                    error_kind(message@),
                    message@,
                    now,
                ) == Some(event@),
                None => old(self)@.failure_notice(device_id@, error_kind(message@), message@, now)
                    is None,
            },
    {
        let kind = classify_error(message);
        self.record_failure_of_kind(device_id, message, kind, now)
    }

    /// Puts the facts of one poll of a reachable device together.
    pub fn assemble_health(
        device_id: &str,
        battery: Option<BatteryInfo>,
        storage: Option<StorageInfo>,
        device: Option<DeviceInfo>,
        latency: Option<u32>,
        now: u64,
    ) -> (health: DeviceHealth)
        ensures
            health@ == assembled(
                device_id@,
                battery,
                storage,
                match device {
                    Some(facts) => Some(facts@),
                    None => None,
                },
                latency,
                now,
            ),
    {
        let connection = match latency {
            Some(millis) => Some(
                ConnectionMetrics {
                    connection_type: ConnectionType::Usb,
                    latency: millis,
                    signal_strength: None,
                    quality_level: derive_quality_level(millis),
                    estimated_bandwidth: None,
                },
            ),
            None => None,
        };
        let staleness = if battery.is_some() && storage.is_some() {
            StalenessLevel::Fresh
        } else {
            StalenessLevel::Stale
        };
        DeviceHealth {
            device_id: device_id.to_owned(),
            state: DeviceState::Online,
            last_seen: now,
            last_updated: now,
            battery,
            storage,
            connection,
            device,
            staleness,
            error_reason: None,
        }
    }

    /// Poll a single device for health metrics. The device is probed
    /// first; one that does not answer fails the poll at once. Of one that
    /// answers, battery, storage, device facts and latency are asked in
    /// turn, and each that fails is left out of the record.
    pub fn poll_single_device<S: Fn(&str, &str) -> ShellReport>(
        device_id: &str,
        config: &HealthPollingConfig,
        shell: &S,
    ) -> (outcome: Result<DeviceHealth, String>)
        requires
            forall|d: &str, c: &str| shell.requires((d, c)),
        ensures
            match outcome {
                Err(message) => message@ == "Device offline"@ && exists|probe: ShellReport|
                    #[trigger] shell.ensures((device_id, "echo ok"), probe) && !answered(probe@),
                Ok(health) => (exists|probe: ShellReport| #[trigger]
                    shell.ensures((device_id, "echo ok"), probe) && answered(probe@)) && exists|
                    battery: Result<BatteryInfo, String>,
                    storage: Result<StorageInfo, String>,
                    device: Result<DeviceInfo, String>,
                    latency: Result<u32, String>,
                | #[trigger]
                    gathered(
                        shell,
                        config.query_timeout,
                        device_id,
                        battery,
                        storage,
                        device,
                        latency,
                    ) && health@ == assembled(
                        device_id@,
                        had(battery),
                        had(storage),
                        had_device(device),
                        had(latency),
                        health.last_seen,
                    ),
            },
    {
        let now = now_millis();
        let probe = shell(device_id, "echo ok");
        let is_online = match &probe {
            ShellReport::Finished { success, .. } => *success,
            ShellReport::NotStarted { .. } => false,
        };
        if !is_online {
            assert(shell.ensures((device_id, "echo ok"), probe) && !answered(probe@));
            return Err("Device offline".to_owned());
        }
        assert(shell.ensures((device_id, "echo ok"), probe) && answered(probe@));
        let provider = AdbHealthProvider::new(config.query_timeout);
        let battery = provider.get_battery_info(device_id, shell);
        let storage = provider.get_storage_info(device_id, shell);
        let device = provider.get_device_info(device_id, shell);
        let latency = provider.get_latency(device_id, shell);
        assert(gathered(shell, config.query_timeout, device_id, battery, storage, device, latency));
        let health = HealthPollingService::assemble_health(
            device_id,
            match &battery {
                Ok(info) => Some(*info),
                Err(_) => None,
            },
            match &storage {
                Ok(info) => Some(*info),
                Err(_) => None,
            },
            match &device {
                Ok(info) => Some(info.duplicate()),
                Err(_) => None,
            },
            match &latency {
                Ok(millis) => Some(*millis),
                Err(_) => None,
            },
            now,
        );
        Ok(health)
    }

    /// Derive connection quality from latency.
    pub fn derive_quality_level(latency: u32) -> (level: QualityLevel)
        ensures
            level == quality_band(latency),
    {
        derive_quality_level(latency)
    }
}

// ----------------------------------------------------------------------------
// Laws of the session
// ----------------------------------------------------------------------------

/// A session that has not run yet holds a record for exactly the devices
/// that it tracks, and so does every session that comes of one that does by
/// a start, a stop, or the record of a poll.
pub proof fn lemma_sessions_hold_what_they_track(
    session: SessionView,
    ids: Seq<Seq<char>>,
    config: HealthPollingConfig,
    reason: PollingStopReason,
    health: DeviceHealthView,
    device_id: Seq<char>,
    kind: ErrorType,
    message: Seq<char>,
    now: u64,
)
    requires
        session.holds_what_it_tracks(),
    ensures
        SessionView::idle().holds_what_it_tracks(),
        session.started(ids, config, now).holds_what_it_tracks(),
        session.stopped(reason).holds_what_it_tracks(),
        session.with_success(health).holds_what_it_tracks(),
        session.with_failure(device_id, kind, message, now).holds_what_it_tracks(),
{
}

/// After a request to start was accepted, any further request to start is
/// rejected, whatever it asks for, until the session is stopped.
pub proof fn lemma_second_start_is_rejected(
    session: SessionView,
    ids: Seq<Seq<char>>,
    config: HealthPollingConfig,
    now: u64,
    next_config: HealthPollingConfig,
)
    requires
        session.start_response(config) is Ok,
    ensures
        session.started(ids, config, now).start_response(next_config) == Err::<(), Seq<char>>(
            "Polling already running"@,
        ),
{
}

/// A request to start that is rejected leaves the session as it was; one
/// that is accepted is one that an idle session got with a valid
/// configuration.
pub proof fn lemma_start_is_atomic(
    session: SessionView,
    ids: Seq<Seq<char>>,
    config: HealthPollingConfig,
    now: u64,
)
    ensures
        session.start_response(config) is Err ==> session.started(ids, config, now) == session,
        session.start_response(config) is Ok <==> !session.running && config.is_valid(),
{
}

/// Stopping always leads to an idle session without records, from which a
/// valid request to start is accepted again; stopping twice is the same as
/// stopping once.
pub proof fn lemma_stop_returns_to_idle(
    session: SessionView,
    reason: PollingStopReason,
    config: HealthPollingConfig,
)
    ensures
        !session.stopped(reason).running,
        session.stopped(reason).cache == Map::<Seq<char>, DeviceHealthView>::empty(),
        session.stopped(reason).stopped(reason) == session.stopped(reason),
        config.is_valid() ==> session.stopped(reason).start_response(config) is Ok,
{
}

/// A session that starts holds one record for each of its devices and for
/// no other: connecting, not yet fresh, and stamped with the time of the
/// start.
pub proof fn lemma_start_seeds_every_device(
    session: SessionView,
    ids: Seq<Seq<char>>,
    config: HealthPollingConfig,
    now: u64,
    device_id: Seq<char>,
)
    requires
        session.start_response(config) is Ok,
    ensures
        session.started(ids, config, now).cache.contains_key(device_id) <==> ids.contains(
            device_id,
        ),
        ids.contains(device_id) ==> session.started(ids, config, now).cache[device_id]
            == seed_entry(device_id, now),
        seed_entry(device_id, now).state == DeviceState::Connecting,
        seed_entry(device_id, now).staleness == StalenessLevel::Offline,
        seed_entry(device_id, now).last_seen == now && seed_entry(device_id, now).last_updated
            == now,
{
}

/// Whatever a poll comes to, no timestamp of a cached record moves
/// backwards, and no record is lost.
pub proof fn lemma_polls_keep_timestamps_monotonic(
    session: SessionView,
    health: DeviceHealthView,
    device_id: Seq<char>,
    kind: ErrorType,
    message: Seq<char>,
    now: u64,
    any: Seq<char>,
)
    requires
        session.cache.contains_key(any),
    ensures
        session.with_success(health).cache.contains_key(any),
        session.with_success(health).cache[any].not_before(session.cache[any]),
        session.with_failure(device_id, kind, message, now).cache.contains_key(any),
        session.with_failure(device_id, kind, message, now).cache[any].not_before(
            session.cache[any],
        ),
{
}

/// The record of a poll is fresh only if it holds both battery and storage
/// facts, and it is online without an error reason; the record of a failed
/// poll is never fresh.
pub proof fn lemma_fresh_only_after_a_full_poll(
    device_id: Seq<char>,
    battery: Option<BatteryInfo>,
    storage: Option<StorageInfo>,
    device: Option<DeviceInfoView>,
    latency: Option<u32>,
    now: u64,
    entry: DeviceHealthView,
    kind: ErrorType,
    message: Seq<char>,
)
    ensures
        assembled(device_id, battery, storage, device, latency, now).fresh_is_complete(),
        assembled(device_id, battery, storage, device, latency, now).coherent(),
        assembled(device_id, battery, storage, device, latency, now).staleness
            == StalenessLevel::Fresh <==> battery is Some && storage is Some,
        after_failed_poll(entry, kind, message, now).staleness != StalenessLevel::Fresh,
        after_failed_poll(entry, kind, message, now).coherent(),
{
}

/// Only the failure of a device that did not answer in time or at all is
/// announced, and only while the session runs and holds a record of the
/// device.
pub proof fn lemma_only_unreachable_devices_are_announced(
    session: SessionView,
    device_id: Seq<char>,
    kind: ErrorType,
    message: Seq<char>,
    now: u64,
)
    ensures
        session.failure_notice(device_id, kind, message, now) is Some <==> session.concerns(
            device_id,
        ) && (kind == ErrorType::Offline || kind == ErrorType::Timeout),
{
}

} // verus!
