//! Warning thresholds for battery charge and free storage.

use vstd::prelude::*;

verus! {

pub const BATTERY_CRITICAL: u32 = 5;

pub const BATTERY_WARNING: u32 = 10;

pub const BATTERY_LOW: u32 = 20;

/// 200 MiB.
pub const STORAGE_CRITICAL_BYTES: u64 = 209715200;

/// 500 MiB.
pub const STORAGE_WARNING_BYTES: u64 = 524288000;

/// The warning label of a battery percentage: the first of the three
/// thresholds that the percentage does not exceed, or `"none"`.
pub open spec fn battery_warning_label(percentage: u32) -> Seq<char> {
    if percentage <= BATTERY_CRITICAL {
        "critical"@
    } else if percentage <= BATTERY_WARNING {
        "warning"@
    } else if percentage <= BATTERY_LOW {
        "low"@
    } else {
        "none"@
    }
}

/// The warning label of an amount of free storage in bytes: the first of the
/// two thresholds that it stays strictly below, or `"none"`.
pub open spec fn storage_warning_label(free: u64) -> Seq<char> {
    if free < STORAGE_CRITICAL_BYTES {
        "critical"@
    } else if free < STORAGE_WARNING_BYTES {
        "warning"@
    } else {
        "none"@
    }
}

pub fn battery_warning_level(percentage: u32) -> (label: &'static str)
    ensures
        label@ == battery_warning_label(percentage),
{
    if percentage <= BATTERY_CRITICAL {
        "critical"
    } else if percentage <= BATTERY_WARNING {
        "warning"
    } else if percentage <= BATTERY_LOW {
        "low"
    } else {
        "none"
    }
}

pub fn storage_warning_level(free: u64) -> (label: &'static str)
    ensures
        label@ == storage_warning_label(free),
{
    if free < STORAGE_CRITICAL_BYTES {
        "critical"
    } else if free < STORAGE_WARNING_BYTES {
        "warning"
    } else {
        "none"
    }
}

} // verus!
