//! Failure classification and retry rules.
//!
//! A failure message is sorted into one of four kinds. Three of them are
//! worth another attempt; the fourth ends a retry sequence at once.

use crate::services::backoff::{at_most, capped_growth, grown, power, MAX_BACKOFF_MS};
use crate::text::{chars_of, contains, decimal, has, push_decimal};
use crate::types::health::HealthPollingConfig;
use vstd::arithmetic::div_mod::lemma_div_multiples_vanish;
use vstd::prelude::*;

verus! {

/// The kind of a failure.
#[derive(Debug, Clone, Copy, PartialEq, Eq, Structural)]
pub enum ErrorType {
    /// Device is offline or unreachable.
    Offline,
    /// A query took too long, or its output could not be read.
    Timeout,
    /// Network connection issue.
    NetworkError,
    /// Anything else. Not worth another attempt.
    Permanent,
}

impl ErrorType {
    /// Whether another attempt may succeed after a failure of this kind.
    pub open spec fn is_retryable(self) -> bool {
        self != ErrorType::Permanent
    }

    /// The name of the kind, as it is written in notifications.
    pub open spec fn label(self) -> Seq<char> {
        match self {
            ErrorType::Offline => "Offline"@,
            ErrorType::Timeout => "Timeout"@,
            ErrorType::NetworkError => "NetworkError"@,
            ErrorType::Permanent => "Permanent"@,
        }
    }

    pub fn should_retry(&self) -> (retry: bool)
        ensures
            retry == self.is_retryable(),
    {
        match self {
            ErrorType::Permanent => false,
            _ => true,
        }
    }

    pub fn name(&self) -> (name: &'static str)
        ensures
            name@ == self.label(),
    {
        match self {
            ErrorType::Offline => "Offline",
            ErrorType::Timeout => "Timeout",
            ErrorType::NetworkError => "NetworkError",
            ErrorType::Permanent => "Permanent",
        }
    }
}

/// The lowercase equivalent of a text, as `str::to_lowercase` gives it.
pub uninterp spec fn lowercase_of(text: Seq<char>) -> Seq<char>;

/// Calls `str::to_lowercase`, which maps each character to its lowercase
/// equivalent by the Unicode tables and depends on the text alone. The
/// result is known by name only.
#[verifier::external_body]
fn to_lowercase(text: &str) -> (lower: String)
    ensures
        lower@ == lowercase_of(text@),
{
    text.to_lowercase()
}

/// The kind of a failure whose message, in lower case, is `lower`. The first
/// group of phrases of which one stands in the message decides.
pub open spec fn kind_of_lowercase(lower: Seq<char>) -> ErrorType {
    if contains(lower, "offline"@) || contains(lower, "not found"@) || contains(
        lower,
        "device not found"@,
    ) {
        ErrorType::Offline
    } else if contains(lower, "timeout"@) || contains(lower, "timed out"@) {
        ErrorType::Timeout
    } else if contains(lower, "connection"@) || contains(lower, "network"@) {
        ErrorType::NetworkError
    } else if contains(lower, "parsing"@) || contains(lower, "format"@) || contains(
        lower,
        "not found in output"@,
    ) {
        ErrorType::Timeout
    } else {
        ErrorType::Permanent
    }
}

/// The kind of a failure with the given message, whatever its case.
pub open spec fn error_kind(message: Seq<char>) -> ErrorType {
    kind_of_lowercase(lowercase_of(message))
}

fn mentions(text: &Vec<char>, phrase: &str) -> (b: bool)
    ensures
        b == contains(text@, phrase@),
{
    let pattern = chars_of(phrase);
    has(text.as_slice(), pattern.as_slice())
}

/// Classifies a failure message that is already in lower case.
pub fn classify_lowercase(lower: &str) -> (kind: ErrorType)
    ensures
        kind == kind_of_lowercase(lower@),
{
    let text = chars_of(lower);
    if mentions(&text, "offline") || mentions(&text, "not found") || mentions(
        &text,
        "device not found",
    ) {
        ErrorType::Offline
    } else if mentions(&text, "timeout") || mentions(&text, "timed out") {
        ErrorType::Timeout
    } else if mentions(&text, "connection") || mentions(&text, "network") {
        ErrorType::NetworkError
    } else if mentions(&text, "parsing") || mentions(&text, "format") || mentions(
        &text,
        "not found in output",
    ) {
        ErrorType::Timeout
    } else {
        ErrorType::Permanent
    }
}

/// Determine if an error is transient (should retry) or permanent.
pub fn classify_error(error: &str) -> (kind: ErrorType)
    ensures
        kind == error_kind(error@),
{
    let lower = to_lowercase(error);
    classify_lowercase(lower.as_str())
}

// ----------------------------------------------------------------------------
// Backoff
// ----------------------------------------------------------------------------

/// The delay in milliseconds before the attempt that follows attempt number
/// `attempt`: the base delay times the multiplier to the power of
/// `attempt - 1`, rounded down, and never more than the ceiling. Attempt 0
/// has no delay.
pub open spec fn backoff_ms(attempt: u32, config: HealthPollingConfig) -> nat {
    if attempt == 0 {
        0
    } else {
        at_most(
            grown(
                config.retry_backoff_ms as nat,
                config.retry_backoff_multiplier.thousandths as nat,
                (attempt - 1) as nat,
            ),
            MAX_BACKOFF_MS as nat,
        )
    }
}

/// Calculate exponential backoff duration, in milliseconds.
pub fn calculate_backoff(attempt: u32, config: &HealthPollingConfig) -> (delay: u64)
    ensures
        delay == backoff_ms(attempt, *config),
        delay <= MAX_BACKOFF_MS,
{
    if attempt == 0 {
        return 0;
    }
    capped_growth(config.retry_backoff_ms, config.retry_backoff_multiplier.thousandths, attempt - 1)
}

/// No delay exceeds the ceiling, whatever the attempt and the
/// configuration.
pub proof fn lemma_backoff_never_exceeds_ceiling(attempt: u32, config: HealthPollingConfig)
    ensures
        backoff_ms(attempt, config) <= MAX_BACKOFF_MS,
{
}

proof fn lemma_power_of_product(a: nat, b: nat, exponent: nat)
    ensures
        power(a * b, exponent) == power(a, exponent) * power(b, exponent),
    decreases exponent,
{
    if exponent > 0 {
        let e = (exponent - 1) as nat;
        lemma_power_of_product(a, b, e);
        assert(power(a * b, exponent) == (a * b) * power(a * b, e));
        assert(power(a, exponent) == a * power(a, e));
        assert(power(b, exponent) == b * power(b, e));
        assert((a * b) * (power(a, e) * power(b, e)) == (a * power(a, e)) * (b * power(b, e)))
            by (nonlinear_arith);
    } else {
        assert(power(a, 0) * power(b, 0) == 1) by (nonlinear_arith)
            requires
                power(a, 0) == 1,
                power(b, 0) == 1,
        ;
    }
}

/// With a whole multiplier the growth is the plain geometric sequence:
/// a base of `b` and a multiplier of `m` give `b × m^k` after `k` steps.
pub proof fn lemma_whole_multiplier_growth(base: nat, multiplier: nat, steps: nat)
    ensures
        grown(base, 1000 * multiplier, steps) == base * power(multiplier, steps),
{
    let unit = power(1000, steps);
    let product = base * power(multiplier, steps);
    lemma_power_of_product(1000, multiplier, steps);
    assert(unit > 0) by {
        lemma_thousand_power_positive(steps);
    }
    assert(base * (unit * power(multiplier, steps)) == unit * product) by (nonlinear_arith)
        requires
            product == base * power(multiplier, steps),
    ;
    lemma_div_multiples_vanish(product as int, unit as int);
}

proof fn lemma_thousand_power_positive(exponent: nat)
    ensures
        power(1000, exponent) > 0,
    decreases exponent,
{
    if exponent > 0 {
        lemma_thousand_power_positive((exponent - 1) as nat);
    }
}

// ----------------------------------------------------------------------------
// Retry notifications
// ----------------------------------------------------------------------------

/// Error information of a retry notification.
#[derive(Debug, Clone)]
pub struct ErrorInfo {
    pub code: String,
    pub message: String,
}

pub struct ErrorInfoView {
    pub code: Seq<char>,
    pub message: Seq<char>,
}

impl View for ErrorInfo {
    type V = ErrorInfoView;

    open spec fn view(&self) -> ErrorInfoView {
        ErrorInfoView { code: self.code@, message: self.message@ }
    }
}

/// Error event emitted during polling retries.
#[derive(Debug, Clone)]
pub struct PollingErrorEvent {
    pub device_id: String,
    pub error: ErrorInfo,
    pub attempt: u32,
    pub max_attempts: u32,
    pub next_retry_at: Option<u64>,
    pub will_retry: bool,
}

pub struct PollingErrorEventView {
    pub device_id: Seq<char>,
    pub error: ErrorInfoView,
    pub attempt: u32,
    pub max_attempts: u32,
    pub next_retry_at: Option<u64>,
    pub will_retry: bool,
}

impl View for PollingErrorEvent {
    type V = PollingErrorEventView;

    open spec fn view(&self) -> PollingErrorEventView {
        PollingErrorEventView {
            device_id: self.device_id@,
            error: self.error@,
            attempt: self.attempt,
            max_attempts: self.max_attempts,
            next_retry_at: self.next_retry_at,
            will_retry: self.will_retry,
        }
    }
}

// ----------------------------------------------------------------------------
// The retry rule
// ----------------------------------------------------------------------------

/// What follows a failed attempt.
#[derive(Debug, Clone)]
pub enum RetryDecision {
    /// Emit the notification, wait for the delay, then try again.
    Retry { notification: PollingErrorEvent, delay_ms: u64 },
    /// Report the failure. Nothing is emitted.
    GiveUp { message: String },
}

pub enum RetryDecisionView {
    Retry { notification: PollingErrorEventView, delay_ms: u64 },
    GiveUp { message: Seq<char> },
}

impl View for RetryDecision {
    type V = RetryDecisionView;

    open spec fn view(&self) -> RetryDecisionView {
        match self {
            RetryDecision::Retry { notification, delay_ms } => RetryDecisionView::Retry {
                notification: notification@,
                delay_ms: *delay_ms,
            },
            RetryDecision::GiveUp { message } => RetryDecisionView::GiveUp { message: message@ },
        }
    }
}

/// The failure that is reported when attempt number `attempt` was the last.
pub open spec fn failure_message(attempt: u32, error: Seq<char>) -> Seq<char> {
    "Failed after "@ + decimal(attempt as nat) + " attempts: "@ + error
}

/// The failure that is reported when the budget allows no attempt at all.
pub open spec fn no_attempt_message(max_attempts: u32) -> Seq<char> {
    "Failed to complete operation after "@ + decimal(max_attempts as nat) + " retries"@
}

/// Whether a failure of the given kind at attempt number `attempt` ends the
/// sequence: the budget is spent, or another attempt is not worth it.
pub open spec fn is_final(attempt: u32, config: HealthPollingConfig, kind: ErrorType) -> bool {
    attempt >= config.max_retries || kind == ErrorType::Permanent
}

/// The notification that announces the retry after attempt number `attempt`.
pub open spec fn retry_notification(
    device_id: Seq<char>,
    config: HealthPollingConfig,
    attempt: u32,
    error: Seq<char>,
    kind: ErrorType,
) -> PollingErrorEventView {
    PollingErrorEventView {
        device_id,
        error: ErrorInfoView { code: kind.label(), message: error },
        attempt,
        max_attempts: config.max_retries,
        next_retry_at: None,
        will_retry: true,
    }
}

/// What follows the failure of attempt number `attempt` with the message
/// `error` of the given kind.
pub open spec fn retry_decision(
    device_id: Seq<char>,
    config: HealthPollingConfig,
    attempt: u32,
    error: Seq<char>,
    kind: ErrorType,
) -> RetryDecisionView {
    if is_final(attempt, config, kind) {
        RetryDecisionView::GiveUp { message: failure_message(attempt, error) }
    } else {
        RetryDecisionView::Retry {
            notification: retry_notification(device_id, config, attempt, error, kind),
            delay_ms: backoff_ms(attempt, config) as u64,
        }
    }
}

/// The number of the first attempt, or the failure to report when the
/// budget allows none.
pub fn first_attempt(config: &HealthPollingConfig) -> (first: Result<u32, String>)
    ensures
        match first {
            Ok(attempt) => config.max_retries >= 1 && attempt == 1,
            Err(message) => config.max_retries == 0 && message@ == no_attempt_message(
                config.max_retries,
            ),
        },
{
    if config.max_retries >= 1 {
        Ok(1)
    } else {
        let mut message = "Failed to complete operation after ".to_owned();
        push_decimal(&mut message, config.max_retries as u128);
        message.append(" retries");
        Err(message)
    }
}

/// Decides what follows the failure of attempt number `attempt`, given the
/// kind of the failure.
pub fn decide_retry(
    device_id: &str,
    config: &HealthPollingConfig,
    attempt: u32,
    error: &str,
    kind: ErrorType,
) -> (decision: RetryDecision)
    ensures
        decision@ == retry_decision(device_id@, *config, attempt, error@, kind),
{
    if attempt >= config.max_retries || !kind.should_retry() {
        let mut message = "Failed after ".to_owned();
        push_decimal(&mut message, attempt as u128);
        message.append(" attempts: ");
        message.append(error);
        RetryDecision::GiveUp { message }
    } else {
        let notification = PollingErrorEvent {
            device_id: device_id.to_owned(),
            error: ErrorInfo { code: kind.name().to_owned(), message: error.to_owned() },
            attempt,
            max_attempts: config.max_retries,
            next_retry_at: None,
            will_retry: true,
        };
        RetryDecision::Retry { notification, delay_ms: calculate_backoff(attempt, config) }
    }
}

/// Classifies the failure of attempt number `attempt` and decides what
/// follows it.
pub fn after_failed_attempt(
    device_id: &str,
    config: &HealthPollingConfig,
    attempt: u32,
    error: &str,
) -> (decision: RetryDecision)
    ensures
        decision@ == retry_decision(device_id@, *config, attempt, error@, error_kind(error@)),
{
    let kind = classify_error(error);
    decide_retry(device_id, config, attempt, error, kind)
}

/// A permanent failure ends the sequence at the attempt at which it occurs,
/// with the failure that names that attempt and without a notification;
/// at the first attempt, after exactly one attempt.
pub proof fn lemma_permanent_failure_is_final(
    device_id: Seq<char>,
    config: HealthPollingConfig,
    attempt: u32,
    error: Seq<char>,
)
    ensures
        retry_decision(device_id, config, attempt, error, ErrorType::Permanent)
            == (RetryDecisionView::GiveUp { message: failure_message(attempt, error) }),
{
}

/// A failure that is worth another attempt is retried exactly while the
/// budget lasts: before attempt number `max_retries` a notification that
/// carries the attempt's number is emitted, at that attempt the failure that
/// names it is reported, without a notification.
pub proof fn lemma_transient_failure_is_retried_within_budget(
    device_id: Seq<char>,
    config: HealthPollingConfig,
    attempt: u32,
    error: Seq<char>,
    kind: ErrorType,
)
    requires
        kind.is_retryable(),
    ensures
        attempt < config.max_retries ==> retry_decision(device_id, config, attempt, error, kind)
            == (RetryDecisionView::Retry {
            notification: retry_notification(device_id, config, attempt, error, kind),
            delay_ms: backoff_ms(attempt, config) as u64,
        }),
        attempt >= config.max_retries ==> retry_decision(device_id, config, attempt, error, kind)
            == (RetryDecisionView::GiveUp { message: failure_message(attempt, error) }),
{
}

/// The number of notifications that attempts 1 to `attempts` emit when each
/// of them fails with the given kind.
pub open spec fn notifications_through(
    config: HealthPollingConfig,
    kind: ErrorType,
    attempts: u32,
) -> nat
    decreases attempts,
{
    if attempts == 0 {
        0
    } else {
        notifications_through(config, kind, (attempts - 1) as u32) + if is_final(
            attempts,
            config,
            kind,
        ) {
            0nat
        } else {
            1nat
        }
    }
}

/// When every attempt fails with a kind that is worth another attempt, a
/// budget of `max_retries` attempts emits `max_retries - 1` notifications:
/// one after each attempt but the last.
pub proof fn lemma_notifications_in_an_exhausted_run(
    config: HealthPollingConfig,
    kind: ErrorType,
    attempts: u32,
)
    requires
        kind.is_retryable(),
        attempts <= config.max_retries,
    ensures
        notifications_through(config, kind, attempts) == if attempts == config.max_retries
            && attempts > 0 {
            attempts - 1
        } else {
            attempts as int
        },
    decreases attempts,
{
    if attempts > 0 {
        lemma_notifications_in_an_exhausted_run(config, kind, (attempts - 1) as u32);
    }
}

} // verus!
