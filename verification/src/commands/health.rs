//! The control surface of the health polling session: start, stop, and the
//! reading of one device's health.

use crate::services::polling::{HealthPollingService, SessionView};
use crate::text::{decimal, push_decimal, texts};
use crate::types::health::{DeviceHealth, HealthPollingConfig, PollingStopReason};
use vstd::prelude::*;

verus! {

#[derive(Debug)]
pub struct CommandResultResponse {
    pub success: bool,
    pub message: Option<String>,
}

#[derive(Debug)]
pub struct GetDeviceHealthResponse {
    pub health: Option<DeviceHealth>,
    pub is_cached: bool,
}

/// The configuration that a request to start asks for: the given one, or
/// the standard one when none is given.
pub open spec fn requested(config: Option<HealthPollingConfig>) -> HealthPollingConfig {
    match config {
        Some(given) => given,
        None => HealthPollingConfig::standard(),
    }
}

/// What is said of a session that started for a number of devices.
pub open spec fn started_message(devices: nat) -> Seq<char> {
    "Started polling for "@ + decimal(devices) + " device(s)"@
}

/// The answer to a request to start polling the given devices: the message
/// of success, or the reason for which the request is rejected. A request
/// without devices is rejected first, then one with a configuration that is
/// not valid, then one to a session that runs already.
pub open spec fn start_answer(
    session: SessionView,
    ids: Seq<Seq<char>>,
    config: Option<HealthPollingConfig>,
) -> Result<Seq<char>, Seq<char>> {
    if ids.len() == 0 {
        Err("No device IDs provided"@)
    } else {
        match requested(config).first_complaint() {
            Some(complaint) => Err(complaint),
            None => match session.start_response(requested(config)) {
                Err(reason) => Err(reason),
                Ok(_) => Ok(started_message(ids.len())),
            },
        }
    }
}

/// Start health polling for the given devices. A request that is rejected
/// leaves the session as it was; one that is accepted starts it.
pub fn start_health_polling(
    service: &mut HealthPollingService,
    device_ids: Vec<String>,
    config: Option<HealthPollingConfig>,
) -> (answer: Result<CommandResultResponse, String>)
    requires
        old(service).wf(),
    ensures
        final(service).wf(),
        match answer {
            Ok(response) => response.success && response.message is Some && start_answer(
                old(service)@,
                texts(device_ids@),
                config,
            ) == Ok::<Seq<char>, Seq<char>>(response.message->Some_0@) && exists|now: u64|
                final(service)@ == #[trigger] old(service)@.started(
                    texts(device_ids@),
                    requested(config),
                    now,
                ),
            Err(reason) => start_answer(old(service)@, texts(device_ids@), config) == Err::<
                Seq<char>,
                Seq<char>,
            >(reason@) && final(service)@ == old(service)@,
        },
{
    if device_ids.len() == 0 {
        return Err("No device IDs provided".to_owned());
    }
    let config = match config {
        Some(given) => given,
        None => HealthPollingConfig::default(),
    };
    match config.validate() {
        Ok(_) => {},
        Err(complaint) => {
            return Err(complaint);
        },
    }
    let count = device_ids.len();
    match service.start_polling(device_ids, config) {
        Ok(_) => {},
        Err(reason) => {
            return Err(reason);
        },
    }
    let mut message = "Started polling for ".to_owned();
    push_decimal(&mut message, count as u128);
    message.append(" device(s)");
    Ok(CommandResultResponse { success: true, message: Some(message) })
}

/// Stop health polling. Always succeeds.
pub fn stop_health_polling(service: &mut HealthPollingService) -> (answer: Result<
    CommandResultResponse,
    String,
>)
    requires
        old(service).wf(),
    ensures
        final(service).wf(),
        final(service)@ == old(service)@.stopped(PollingStopReason::User),
        answer matches Ok(response) && response.success && response.message is Some
            && response.message->Some_0@ == "Polling stopped"@,
{
    match service.stop_polling() {
        Ok(_) => {},
        Err(reason) => {
            return Err(reason);
        },
    }
    Ok(CommandResultResponse { success: true, message: Some("Polling stopped".to_owned()) })
}

/// Get current cached health for a device: a copy of its record, if the
/// session holds one.
pub fn get_device_health(service: &HealthPollingService, device_id: String) -> (answer: Result<
    GetDeviceHealthResponse,
    String,
>)
    requires
        service.wf(),
    ensures
        answer matches Ok(response) && response.is_cached && match response.health {
            Some(record) => service@.cache.contains_key(device_id@) && service@.cache[device_id@]
                == record@,
            None => !service@.cache.contains_key(device_id@),
        },
{
    let health = service.get_device_health(device_id.as_str());
    Ok(GetDeviceHealthResponse { health, is_cached: true })
}

} // verus!
