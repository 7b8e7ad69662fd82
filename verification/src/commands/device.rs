//! The device registry: reading the device list that adb prints and merging
//! it into the registry of known devices.

use crate::clock::now_rfc3339;
use crate::text::{
    bounds_view, bounds_within, chars_of, contains, has, is_text, line_bounds, lines, next_char,
    optional_text, parse_i32, scan_to_char, signed_of, split_lines, split_words, texts, trim,
    trimmed, words,
};
use vstd::prelude::*;

verus! {

// ----------------------------------------------------------------------------
// Records
// ----------------------------------------------------------------------------

/// A device of the registry.
#[derive(Debug, Clone)]
pub struct DeviceInfo {
    pub serial: String,
    pub status: String,
    pub model: Option<String>,
    pub android_version: Option<String>,
    pub battery_level: Option<i32>,
    pub is_wireless: bool,
    pub last_seen: Option<String>,
    pub first_seen: String,
}

pub struct DeviceInfoView {
    pub serial: Seq<char>,
    pub status: Seq<char>,
    pub model: Option<Seq<char>>,
    pub android_version: Option<Seq<char>>,
    pub battery_level: Option<i32>,
    pub is_wireless: bool,
    pub last_seen: Option<Seq<char>>,
    pub first_seen: Seq<char>,
}

impl View for DeviceInfo {
    type V = DeviceInfoView;

    open spec fn view(&self) -> DeviceInfoView {
        DeviceInfoView {
            serial: self.serial@,
            status: self.status@,
            model: optional_text(self.model),
            android_version: optional_text(self.android_version),
            battery_level: self.battery_level,
            is_wireless: self.is_wireless,
            last_seen: optional_text(self.last_seen),
            first_seen: self.first_seen@,
        }
    }
}

/// A device as adb lists it.
#[derive(Debug, Clone)]
pub struct AdbDevice {
    pub serial: String,
    pub status: String,
}

pub struct AdbDeviceView {
    pub serial: Seq<char>,
    pub status: Seq<char>,
}

impl View for AdbDevice {
    type V = AdbDeviceView;

    open spec fn view(&self) -> AdbDeviceView {
        AdbDeviceView { serial: self.serial@, status: self.status@ }
    }
}

/// The devices of a list, as their views.
pub open spec fn registry_view(devices: Seq<DeviceInfo>) -> Seq<DeviceInfoView> {
    Seq::new(devices.len(), |i: int| devices[i]@)
}

/// The devices of an adb listing, as their views.
pub open spec fn listing_view(devices: Seq<AdbDevice>) -> Seq<AdbDeviceView> {
    Seq::new(devices.len(), |i: int| devices[i]@)
}

fn copy_text(text: &Option<String>) -> (copy: Option<String>)
    ensures
        optional_text(copy) == optional_text(*text),
{
    match text {
        Some(t) => Some(t.clone()),
        None => None,
    }
}

// ----------------------------------------------------------------------------
// The device list of adb
// ----------------------------------------------------------------------------

/// A serial with a colon in it is a network address: the device is
/// connected without a cable.
pub open spec fn is_wireless(serial: Seq<char>) -> bool {
    contains(serial, ":"@)
}

/// Whether a device with this serial is connected without a cable.
pub fn is_wireless_serial(serial: &str) -> (wireless: bool)
    ensures
        wireless == is_wireless(serial@),
{
    let text = chars_of(serial);
    let colon = chars_of(":");
    has(text.as_slice(), colon.as_slice())
}

/// The device that a line of the list names: its first word is the serial,
/// its second the status. A line of fewer words names none.
pub open spec fn listed_device(line: Seq<char>) -> Option<AdbDeviceView> {
    let columns = words(line);
    if columns.len() >= 2 {
        Some(AdbDeviceView { serial: columns[0], status: columns[1] })
    } else {
        None
    }
}

/// The devices that the lines before index `upto` name, the first line, a
/// heading, left aside.
pub open spec fn devices_in(lines: Seq<Seq<char>>, upto: int) -> Seq<AdbDeviceView>
    decreases upto,
{
    if upto <= 1 {
        Seq::empty()
    } else {
        match listed_device(lines[upto - 1]) {
            Some(device) => devices_in(lines, upto - 1).push(device),
            None => devices_in(lines, upto - 1),
        }
    }
}

/// The devices that a device list names.
pub open spec fn adb_devices_of(stdout: Seq<char>) -> Seq<AdbDeviceView> {
    devices_in(lines(stdout), lines(stdout).len() as int)
}

/// Parse the device list of adb.
pub fn parse_adb_output(stdout: &str) -> (devices: Vec<AdbDevice>)
    ensures
        listing_view(devices@) == adb_devices_of(stdout@),
{
    let text = chars_of(stdout);
    let all = split_lines(text.as_slice());
    let mut devices: Vec<AdbDevice> = Vec::new();
    let mut i: usize = 1;
    assert(listing_view(devices@) =~= devices_in(lines(stdout@), 1));
    while i < all.len()
        invariant
            1 <= i,
            text@ == stdout@,
            bounds_view(all@) == line_bounds(stdout@),
            bounds_within(all@, stdout@.len()),
            i <= all@.len() || i == 1,
            listing_view(devices@) == devices_in(lines(stdout@), i as int),
        decreases all@.len() - i,
    {
        let (a, b) = all[i];
        assert(bounds_view(all@)[i as int] == (a as int, b as int));
        let line = &text.as_slice()[a..b];
        assert(line@ == lines(stdout@)[i as int]);
        let columns = split_words(line);
        if columns.len() >= 2 {
            let (a0, b0) = columns[0];
            let (a1, b1) = columns[1];
            assert(bounds_view(columns@)[0] == (a0 as int, b0 as int));
            assert(bounds_view(columns@)[1] == (a1 as int, b1 as int));
            let serial = stdout.substring_char(a + a0, a + b0).to_owned();
            let status = stdout.substring_char(a + a1, a + b1).to_owned();
            assert(serial@ =~= words(line@)[0]);
            assert(status@ =~= words(line@)[1]);
            let ghost before = listing_view(devices@);
            devices.push(AdbDevice { serial, status });
            assert(listing_view(devices@) =~= before.push(listed_device(line@)->Some_0));
        }
        i += 1;
    }
    devices
}

// ----------------------------------------------------------------------------
// Merging
// ----------------------------------------------------------------------------

/// The status under which the first `upto` entries of an adb listing show
/// a serial: that of the last entry with the serial.
pub open spec fn listed_status(adb: Seq<AdbDeviceView>, serial: Seq<char>, upto: int) -> Option<
    Seq<char>,
>
    decreases upto,
{
    if upto <= 0 || upto > adb.len() {
        None
    } else if adb[upto - 1].serial == serial {
        Some(adb[upto - 1].status)
    } else {
        listed_status(adb, serial, upto - 1)
    }
}

/// One of the first `upto` devices of the registry has the serial.
pub open spec fn registered_before(registry: Seq<DeviceInfoView>, serial: Seq<char>, upto: int) -> bool {
    exists|j: int| 0 <= j < upto && j < registry.len() && registry[j].serial == serial
}

/// The status under which adb shows the device at index `i` of the
/// registry. Where two devices of the registry share a serial, only the
/// first is taken to be the one that adb shows.
pub open spec fn current_status(
    registry: Seq<DeviceInfoView>,
    adb: Seq<AdbDeviceView>,
    i: int,
) -> Option<Seq<char>> {
    if registered_before(registry, registry[i].serial, i) {
        None
    } else {
        listed_status(adb, registry[i].serial, adb.len() as int)
    }
}

/// A status under which a device was not usable.
pub open spec fn was_away(status: Seq<char>) -> bool {
    status == "disconnected"@ || status == "offline"@ || status == "unauthorized"@
}

/// The device at index `i` of the registry after the merge at `now`: shown
/// by adb, it takes the status that adb gives it and was seen now;
/// otherwise it is disconnected, and everything else that is known of it
/// stays.
pub open spec fn merged_known(
    registry: Seq<DeviceInfoView>,
    adb: Seq<AdbDeviceView>,
    i: int,
    now: Seq<char>,
) -> DeviceInfoView {
    match current_status(registry, adb, i) {
        Some(status) => DeviceInfoView { status, last_seen: Some(now), ..registry[i] },
        None => DeviceInfoView { status: "disconnected"@, ..registry[i] },
    }
}

/// Whether the properties of the device at index `i` of the registry are
/// to be fetched: it is usable now, and was away or is of unknown model.
pub open spec fn known_needs_props(
    registry: Seq<DeviceInfoView>,
    adb: Seq<AdbDeviceView>,
    i: int,
) -> bool {
    current_status(registry, adb, i) == Some("device"@) && (was_away(registry[i].status)
        || registry[i].model is None)
}

/// Whether the entry at index `k` of an adb listing is a device that the
/// registry does not know: no device of the registry has its serial, and
/// it is the last entry with that serial.
pub open spec fn is_new(registry: Seq<DeviceInfoView>, adb: Seq<AdbDeviceView>, k: int) -> bool {
    !registered_before(registry, adb[k].serial, registry.len() as int) && forall|later: int|
        k < later < adb.len() ==> adb[later].serial != adb[k].serial
}

/// The registry entry of a device that adb shows for the first time at
/// `now`.
pub open spec fn new_device(entry: AdbDeviceView, now: Seq<char>) -> DeviceInfoView {
    DeviceInfoView {
        serial: entry.serial,
        status: entry.status,
        model: None,
        android_version: None,
        battery_level: None,
        is_wireless: is_wireless(entry.serial),
        last_seen: Some(now),
        first_seen: now,
    }
}

/// The merged devices that come of the first `upto` devices of the
/// registry.
pub open spec fn known_part(
    registry: Seq<DeviceInfoView>,
    adb: Seq<AdbDeviceView>,
    now: Seq<char>,
    upto: int,
) -> Seq<DeviceInfoView>
    decreases upto,
{
    if upto <= 0 {
        Seq::empty()
    } else {
        known_part(registry, adb, now, upto - 1).push(merged_known(registry, adb, upto - 1, now))
    }
}

/// The merged devices that come of the first `upto` entries of the adb
/// listing: the devices that the registry does not know.
pub open spec fn new_part(
    registry: Seq<DeviceInfoView>,
    adb: Seq<AdbDeviceView>,
    now: Seq<char>,
    upto: int,
) -> Seq<DeviceInfoView>
    decreases upto,
{
    if upto <= 0 {
        Seq::empty()
    } else if is_new(registry, adb, upto - 1) {
        new_part(registry, adb, now, upto - 1).push(new_device(adb[upto - 1], now))
    } else {
        new_part(registry, adb, now, upto - 1)
    }
}

/// The serials among the first `upto` devices of the registry whose
/// properties are to be fetched.
pub open spec fn known_props(
    registry: Seq<DeviceInfoView>,
    adb: Seq<AdbDeviceView>,
    upto: int,
) -> Seq<Seq<char>>
    decreases upto,
{
    if upto <= 0 {
        Seq::empty()
    } else if known_needs_props(registry, adb, upto - 1) {
        known_props(registry, adb, upto - 1).push(registry[upto - 1].serial)
    } else {
        known_props(registry, adb, upto - 1)
    }
}

/// The serials among the first `upto` entries of the adb listing that
/// belong to new devices that are usable.
pub open spec fn new_props(
    registry: Seq<DeviceInfoView>,
    adb: Seq<AdbDeviceView>,
    upto: int,
) -> Seq<Seq<char>>
    decreases upto,
{
    if upto <= 0 {
        Seq::empty()
    } else if is_new(registry, adb, upto - 1) && adb[upto - 1].status == "device"@ {
        new_props(registry, adb, upto - 1).push(adb[upto - 1].serial)
    } else {
        new_props(registry, adb, upto - 1)
    }
}

/// The registry after the merge with an adb listing at `now`: its devices
/// in their order, then the devices that adb shows and the registry did not
/// know, in the order of the listing.
pub open spec fn merged(
    registry: Seq<DeviceInfoView>,
    adb: Seq<AdbDeviceView>,
    now: Seq<char>,
) -> Seq<DeviceInfoView> {
    known_part(registry, adb, now, registry.len() as int) + new_part(
        registry,
        adb,
        now,
        adb.len() as int,
    )
}

/// The serials of the devices whose properties are to be fetched after the
/// merge, in the order of the merged devices.
pub open spec fn props_to_fetch(registry: Seq<DeviceInfoView>, adb: Seq<AdbDeviceView>) -> Seq<
    Seq<char>,
> {
    known_props(registry, adb, registry.len() as int) + new_props(registry, adb, adb.len() as int)
}

fn find_status<'a>(adb: &'a [AdbDevice], serial: &String) -> (status: Option<&'a String>)
    ensures
        match status {
            Some(text) => listed_status(listing_view(adb@), serial@, adb@.len() as int) == Some(
                text@,
            ),
            None => listed_status(listing_view(adb@), serial@, adb@.len() as int) is None,
        },
{
    let mut k: usize = adb.len();
    while k > 0
        invariant
            k <= adb@.len(),
            listed_status(listing_view(adb@), serial@, adb@.len() as int) == listed_status(
                listing_view(adb@),
                serial@,
                k as int,
            ),
        decreases k,
    {
        if adb[k - 1].serial == *serial {
            return Some(&adb[k - 1].status);
        }
        k -= 1;
    }
    None
}

fn is_registered(registry: &Vec<DeviceInfo>, serial: &String, upto: usize) -> (found: bool)
    requires
        upto <= registry@.len(),
    ensures
        found == registered_before(registry_view(registry@), serial@, upto as int),
{
    let mut j: usize = 0;
    while j < upto
        invariant
            j <= upto <= registry@.len(),
            forall|e: int| 0 <= e < j ==> registry_view(registry@)[e].serial != serial@,
        decreases upto - j,
    {
        if registry[j].serial == *serial {
            assert(registry_view(registry@)[j as int].serial == serial@);
            return true;
        }
        j += 1;
    }
    false
}

fn is_listed_later(adb: &[AdbDevice], k: usize) -> (found: bool)
    requires
        k < adb@.len(),
    ensures
        found == !(forall|later: int|
            k < later < adb@.len() ==> listing_view(adb@)[later].serial != listing_view(
                adb@,
            )[k as int].serial),
{
    let count: usize = adb.len();
    let mut j: usize = k + 1;
    while j < count
        invariant
            k < j <= adb@.len(),
            count == adb@.len(),
            forall|later: int|
                k < later < j ==> listing_view(adb@)[later].serial != listing_view(
                    adb@,
                )[k as int].serial,
        decreases adb@.len() - j,
    {
        if adb[j].serial == adb[k].serial {
            assert(listing_view(adb@)[j as int].serial == listing_view(adb@)[k as int].serial);
            return true;
        }
        j += 1;
    }
    false
}

fn away(status: &String) -> (b: bool)
    ensures
        b == was_away(status@),
{
    let text = chars_of(status.as_str());
    is_text(text.as_slice(), "disconnected") || is_text(text.as_slice(), "offline") || is_text(
        text.as_slice(),
        "unauthorized",
    )
}

fn usable(status: &String) -> (b: bool)
    ensures
        b == (status@ == "device"@),
{
    let text = chars_of(status.as_str());
    is_text(text.as_slice(), "device")
}

/// Merge the registry with the adb listing at the time `now`. Returns the
/// merged devices and the serials of those whose properties are to be
/// fetched.
pub fn merge_devices_at(registry: Vec<DeviceInfo>, adb_devices: &[AdbDevice], now: &str) -> (result:
    (Vec<DeviceInfo>, Vec<String>))
    ensures
        registry_view(result.0@) == merged(
            registry_view(registry@),
            listing_view(adb_devices@),
            now@,
        ),
        texts(result.1@) == props_to_fetch(
            registry_view(registry@),
            listing_view(adb_devices@),
        ),
{
    let ghost known = registry_view(registry@);
    let ghost listing = listing_view(adb_devices@);
    let mut devices: Vec<DeviceInfo> = Vec::new();
    let mut needs_props: Vec<String> = Vec::new();
    let mut i: usize = 0;
    assert(registry_view(devices@) =~= known_part(known, listing, now@, 0));
    assert(texts(needs_props@) =~= known_props(known, listing, 0));
    while i < registry.len()
        invariant
            i <= registry@.len(),
            known == registry_view(registry@),
            listing == listing_view(adb_devices@),
            registry_view(devices@) == known_part(known, listing, now@, i as int),
            texts(needs_props@) == known_props(known, listing, i as int),
        decreases registry@.len() - i,
    {
        let device = &registry[i];
        assert(known[i as int] == device@);
        let status = if is_registered(&registry, &device.serial, i) {
            None
        } else {
            find_status(adb_devices, &device.serial)
        };
        let ghost before = registry_view(devices@);
        let ghost props_before = texts(needs_props@);
        match status {
            Some(adb_status) => {
                if usable(adb_status) && (away(&device.status) || device.model.is_none()) {
                    needs_props.push(device.serial.clone());
                    assert(texts(needs_props@) =~= props_before.push(device.serial@));
                }
                devices.push(
                    DeviceInfo {
                        serial: device.serial.clone(),
                        status: adb_status.clone(),
                        model: copy_text(&device.model),
                        android_version: copy_text(&device.android_version),
                        battery_level: device.battery_level,
                        is_wireless: device.is_wireless,
                        last_seen: Some(now.to_owned()),
                        first_seen: device.first_seen.clone(),
                    },
                );
            },
            None => {
                devices.push(
                    DeviceInfo {
                        serial: device.serial.clone(),
                        status: "disconnected".to_owned(),
                        model: copy_text(&device.model),
                        android_version: copy_text(&device.android_version),
                        battery_level: device.battery_level,
                        is_wireless: device.is_wireless,
                        last_seen: copy_text(&device.last_seen),
                        first_seen: device.first_seen.clone(),
                    },
                );
            },
        }
        assert(registry_view(devices@) =~= before.push(merged_known(known, listing, i as int, now@)));
        i += 1;
    }
    let ghost known_devices = registry_view(devices@);
    let ghost known_serials = texts(needs_props@);
    let mut k: usize = 0;
    assert(registry_view(devices@) =~= known_devices + new_part(known, listing, now@, 0));
    assert(texts(needs_props@) =~= known_serials + new_props(known, listing, 0));
    while k < adb_devices.len()
        invariant
            k <= adb_devices@.len(),
            known == registry_view(registry@),
            listing == listing_view(adb_devices@),
            registry_view(devices@) == known_devices + new_part(known, listing, now@, k as int),
            texts(needs_props@) == known_serials + new_props(known, listing, k as int),
        decreases adb_devices@.len() - k,
    {
        let entry = &adb_devices[k];
        assert(listing[k as int] == entry@);
        let ghost before = registry_view(devices@);
        let ghost props_before = texts(needs_props@);
        if !is_registered(&registry, &entry.serial, registry.len()) && !is_listed_later(
            adb_devices,
            k,
        ) {
            assert(is_new(known, listing, k as int));
            if usable(&entry.status) {
                needs_props.push(entry.serial.clone());
                assert(texts(needs_props@) =~= props_before.push(entry.serial@));
            }
            devices.push(
                DeviceInfo {
                    serial: entry.serial.clone(),
                    status: entry.status.clone(),
                    model: None,
                    android_version: None,
                    battery_level: None,
                    is_wireless: is_wireless_serial(entry.serial.as_str()),
                    last_seen: Some(now.to_owned()),
                    first_seen: now.to_owned(),
                },
            );
            assert(registry_view(devices@) =~= before.push(new_device(listing[k as int], now@)));
            assert(before.push(new_device(listing[k as int], now@)) =~= known_devices + new_part(
                known,
                listing,
                now@,
                k as int,
            ).push(new_device(listing[k as int], now@)));
            assert(props_before.push(entry.serial@) =~= known_serials + new_props(
                known,
                listing,
                k as int,
            ).push(entry.serial@));
        } else {
            assert(!is_new(known, listing, k as int));
        }
        k += 1;
    }
    (devices, needs_props)
}

/// Merge the registry with the adb listing, at the time that the clock
/// shows.
pub fn merge_devices(registry: Vec<DeviceInfo>, adb_devices: &[AdbDevice]) -> (result: (
    Vec<DeviceInfo>,
    Vec<String>,
))
    ensures
        exists|now: Seq<char>| #[trigger]
            merged(registry_view(registry@), listing_view(adb_devices@), now) == registry_view(
                result.0@,
            ),
        texts(result.1@) == props_to_fetch(
            registry_view(registry@),
            listing_view(adb_devices@),
        ),
{
    let now = now_rfc3339();
    merge_devices_at(registry, adb_devices, now.as_str())
}

// ----------------------------------------------------------------------------
// The battery level of a device
// ----------------------------------------------------------------------------

/// What follows the colon in a line that holds exactly one colon.
pub open spec fn after_only_colon(line: Seq<char>) -> Option<Seq<char>> {
    let colon = next_char(line, ':', 0);
    if 0 <= colon < line.len() && next_char(line, ':', colon + 1) >= line.len() {
        Some(line.skip(colon + 1))
    } else {
        None
    }
}

/// The battery level that the lines at or after index `from` of a battery
/// report state: the number in the first line that names the level and
/// holds one colon only.
pub open spec fn level_in(lines: Seq<Seq<char>>, from: int) -> Result<i32, Seq<char>>
    decreases lines.len() - from,
{
    if from < 0 || from >= lines.len() {
        Err("Level not found"@)
    } else if contains(lines[from], "level:"@) && after_only_colon(lines[from]) is Some {
        match signed_of(
            trimmed(after_only_colon(lines[from])->Some_0),
            i32::MIN as int,
            i32::MAX as int,
        ) {
            Some(level) => Ok(level as i32),
            None => Err("Parse error"@),
        }
    } else {
        level_in(lines, from + 1)
    }
}

/// The battery level that a battery report states.
pub open spec fn battery_level_of(stdout: Seq<char>) -> Result<i32, Seq<char>> {
    level_in(lines(stdout), 0)
}

/// Reads the battery level from a battery report.
pub fn read_battery_level(stdout: &str) -> (level: Result<i32, String>)
    ensures
        match level {
            Ok(n) => battery_level_of(stdout@) == Ok::<i32, Seq<char>>(n),
            Err(message) => battery_level_of(stdout@) == Err::<i32, Seq<char>>(message@),
        },
{
    let text = chars_of(stdout);
    let key = chars_of("level:");
    let all = split_lines(text.as_slice());
    let mut i: usize = 0;
    while i < all.len()
        invariant
            i <= all@.len(),
            text@ == stdout@,
            key@ == "level:"@,
            bounds_view(all@) == line_bounds(stdout@),
            bounds_within(all@, stdout@.len()),
            battery_level_of(stdout@) == level_in(lines(stdout@), i as int),
        decreases all@.len() - i,
    {
        let (a, b) = all[i];
        assert(bounds_view(all@)[i as int] == (a as int, b as int));
        let line = &text.as_slice()[a..b];
        assert(line@ == lines(stdout@)[i as int]);
        if has(line, key.as_slice()) {
            let colon = scan_to_char(line, ':', 0);
            if colon < line.len() && scan_to_char(line, ':', colon + 1) >= line.len() {
                let rest = &line[colon + 1..line.len()];
                assert(rest@ =~= line@.skip(colon + 1));
                let (start, stop) = trim(rest);
                return match parse_i32(&rest[start..stop]) {
                    Some(level) => Ok(level),
                    None => Err("Parse error".to_owned()),
                };
            }
        }
        i += 1;
    }
    Err("Level not found".to_owned())
}

// ----------------------------------------------------------------------------
// Registering and forgetting devices
// ----------------------------------------------------------------------------

impl DeviceInfo {
    /// A copy with the same contents.
    pub fn duplicate(&self) -> (copy: DeviceInfo)
        ensures
            copy@ == self@,
    {
        DeviceInfo {
            serial: self.serial.clone(),
            status: self.status.clone(),
            model: copy_text(&self.model),
            android_version: copy_text(&self.android_version),
            battery_level: self.battery_level,
            is_wireless: self.is_wireless,
            last_seen: copy_text(&self.last_seen),
            first_seen: self.first_seen.clone(),
        }
    }
}

/// The registry entry of a device that adb lists at `now`, with the
/// properties that were fetched of it.
pub open spec fn described(
    entry: AdbDeviceView,
    model: Option<Seq<char>>,
    android_version: Option<Seq<char>>,
    battery_level: Option<i32>,
    now: Seq<char>,
) -> DeviceInfoView {
    DeviceInfoView { model, android_version, battery_level, ..new_device(entry, now) }
}

/// Whether the properties of a listed device are fetched: only a usable
/// device answers.
pub fn answers_queries(entry: &AdbDevice) -> (usable_now: bool)
    ensures
        usable_now == (entry@.status == "device"@),
{
    usable(&entry.status)
}

/// Makes the registry entry of a device that adb lists at `now`.
pub fn describe(
    entry: AdbDevice,
    model: Option<String>,
    android_version: Option<String>,
    battery_level: Option<i32>,
    now: &str,
) -> (device: DeviceInfo)
    ensures
        device@ == described(
            entry@,
            optional_text(model),
            optional_text(android_version),
            battery_level,
            now@,
        ),
{
    let is_wireless = is_wireless_serial(entry.serial.as_str());
    DeviceInfo {
        serial: entry.serial,
        status: entry.status,
        model,
        android_version,
        battery_level,
        is_wireless,
        last_seen: Some(now.to_owned()),
        first_seen: now.to_owned(),
    }
}

/// The first index at or after `from` of a device with the serial.
pub open spec fn position_of(devices: Seq<DeviceInfoView>, serial: Seq<char>, from: int) -> Option<
    int,
>
    decreases devices.len() - from,
{
    if from < 0 || from >= devices.len() {
        None
    } else if devices[from].serial == serial {
        Some(from)
    } else {
        position_of(devices, serial, from + 1)
    }
}

/// A registered device brought up to date by what adb shows of it: status,
/// time and kind of connection are taken over, the properties only where
/// the model was not known.
pub open spec fn refreshed(existing: DeviceInfoView, shown: DeviceInfoView) -> DeviceInfoView {
    if existing.model is None {
        DeviceInfoView {
            status: shown.status,
            last_seen: shown.last_seen,
            is_wireless: shown.is_wireless,
            model: shown.model,
            android_version: shown.android_version,
            battery_level: shown.battery_level,
            ..existing
        }
    } else {
        DeviceInfoView {
            status: shown.status,
            last_seen: shown.last_seen,
            is_wireless: shown.is_wireless,
            ..existing
        }
    }
}

/// A device as it enters the registry at `now`.
pub open spec fn entered(shown: DeviceInfoView, now: Seq<char>) -> DeviceInfoView {
    DeviceInfoView { first_seen: now, last_seen: Some(now), ..shown }
}

/// What registering a serial comes to, given the registry and what adb
/// shows or why it shows nothing: the device, and the registry to save if
/// it changed. A device that is registered already is brought up to date if
/// adb shows it and returned as it is otherwise; one that is not enters the
/// registry, and it is a failure if adb does not show it.
pub open spec fn registered(
    registry: Seq<DeviceInfoView>,
    serial: Seq<char>,
    listing: Result<Seq<DeviceInfoView>, Seq<char>>,
    now: Seq<char>,
) -> Result<(DeviceInfoView, Option<Seq<DeviceInfoView>>), Seq<char>> {
    match position_of(registry, serial, 0) {
        Some(index) => match listing {
            Ok(shown) => match position_of(shown, serial, 0) {
                Some(k) => Ok(
                    (
                        refreshed(registry[index], shown[k]),
                        Some(registry.update(index, refreshed(registry[index], shown[k]))),
                    ),
                ),
                None => Ok((registry[index], None)),
            },
            Err(_) => Ok((registry[index], None)),
        },
        None => match listing {
            Err(reason) => Err(reason),
            Ok(shown) => match position_of(shown, serial, 0) {
                Some(k) => Ok((entered(shown[k], now), Some(registry.push(entered(shown[k], now))))),
                None => Err("Device not found in adb devices"@),
            },
        },
    }
}

/// The listing that a call got, as its view.
pub open spec fn listing_result_view(listing: Result<Vec<DeviceInfo>, String>) -> Result<
    Seq<DeviceInfoView>,
    Seq<char>,
> {
    match listing {
        Ok(shown) => Ok(registry_view(shown@)),
        Err(reason) => Err(reason@),
    }
}

/// What a registration gave, as its view.
pub open spec fn registration_view(
    outcome: Result<(DeviceInfo, Option<Vec<DeviceInfo>>), String>,
) -> Result<(DeviceInfoView, Option<Seq<DeviceInfoView>>), Seq<char>> {
    match outcome {
        Ok((device, changed)) => Ok(
            (
                device@,
                match changed {
                    Some(devices) => Some(registry_view(devices@)),
                    None => None,
                },
            ),
        ),
        Err(reason) => Err(reason@),
    }
}

fn find_serial(devices: &Vec<DeviceInfo>, serial: &str) -> (at: Option<usize>)
    ensures
        match at {
            Some(i) => position_of(registry_view(devices@), serial@, 0) == Some(i as int) && i
                < devices@.len(),
            None => position_of(registry_view(devices@), serial@, 0) is None,
        },
{
    let wanted = serial.to_owned();
    let mut i: usize = 0;
    while i < devices.len()
        invariant
            i <= devices@.len(),
            wanted@ == serial@,
            position_of(registry_view(devices@), serial@, 0) == position_of(
                registry_view(devices@),
                serial@,
                i as int,
            ),
        decreases devices@.len() - i,
    {
        if devices[i].serial == wanted {
            return Some(i);
        }
        i += 1;
    }
    None
}

/// Registers a serial, given the registry and what adb shows or why it
/// shows nothing. Returns the device and, if the registry changed, the
/// registry to save.
pub fn register(
    registry: Vec<DeviceInfo>,
    serial: &str,
    listing: Result<Vec<DeviceInfo>, String>,
    now: &str,
) -> (outcome: Result<(DeviceInfo, Option<Vec<DeviceInfo>>), String>)
    ensures
        registration_view(outcome) == registered(
            registry_view(registry@),
            serial@,
            listing_result_view(listing),
            now@,
        ),
{
    let ghost known = registry_view(registry@);
    let mut registry = registry;
    match find_serial(&registry, serial) {
        Some(index) => {
            let existing = registry[index].duplicate();
            assert(existing@ == known[index as int]);
            let shown = match listing {
                Ok(shown) => shown,
                Err(_) => {
                    return Ok((existing, None));
                },
            };
            let k = match find_serial(&shown, serial) {
                Some(k) => k,
                None => {
                    return Ok((existing, None));
                },
            };
            let seen = &shown[k];
            assert(registry_view(shown@)[k as int] == seen@);
            let device = if existing.model.is_none() {
                DeviceInfo {
                    serial: existing.serial,
                    status: seen.status.clone(),
                    model: copy_text(&seen.model),
                    android_version: copy_text(&seen.android_version),
                    battery_level: seen.battery_level,
                    is_wireless: seen.is_wireless,
                    last_seen: copy_text(&seen.last_seen),
                    first_seen: existing.first_seen,
                }
            } else {
                DeviceInfo {
                    serial: existing.serial,
                    status: seen.status.clone(),
                    model: existing.model,
                    android_version: existing.android_version,
                    battery_level: existing.battery_level,
                    is_wireless: seen.is_wireless,
                    last_seen: copy_text(&seen.last_seen),
                    first_seen: existing.first_seen,
                }
            };
            registry.set(index, device.duplicate());
            assert(registry_view(registry@) =~= known.update(index as int, device@));
            Ok((device, Some(registry)))
        },
        None => {
            let shown = match listing {
                Ok(shown) => shown,
                Err(reason) => {
                    return Err(reason);
                },
            };
            let k = match find_serial(&shown, serial) {
                Some(k) => k,
                None => {
                    return Err("Device not found in adb devices".to_owned());
                },
            };
            let seen = &shown[k];
            assert(registry_view(shown@)[k as int] == seen@);
            let device = DeviceInfo {
                serial: seen.serial.clone(),
                status: seen.status.clone(),
                model: copy_text(&seen.model),
                android_version: copy_text(&seen.android_version),
                battery_level: seen.battery_level,
                is_wireless: seen.is_wireless,
                last_seen: Some(now.to_owned()),
                first_seen: now.to_owned(),
            };
            registry.push(device.duplicate());
            assert(registry_view(registry@) =~= known.push(device@));
            Ok((device, Some(registry)))
        },
    }
}

/// The first `upto` devices of a registry without those of the given
/// serial.
pub open spec fn without(registry: Seq<DeviceInfoView>, serial: Seq<char>, upto: int) -> Seq<
    DeviceInfoView,
>
    decreases upto,
{
    if upto <= 0 {
        Seq::empty()
    } else if registry[upto - 1].serial == serial {
        without(registry, serial, upto - 1)
    } else {
        without(registry, serial, upto - 1).push(registry[upto - 1])
    }
}

/// Takes every device with the serial out of the registry.
pub fn forget(registry: Vec<DeviceInfo>, serial: &str) -> (kept: Vec<DeviceInfo>)
    ensures
        registry_view(kept@) == without(registry_view(registry@), serial@, registry@.len() as int),
{
    let wanted = serial.to_owned();
    let mut kept: Vec<DeviceInfo> = Vec::new();
    let mut i: usize = 0;
    assert(registry_view(kept@) =~= without(registry_view(registry@), serial@, 0));
    while i < registry.len()
        invariant
            i <= registry@.len(),
            wanted@ == serial@,
            registry_view(kept@) == without(registry_view(registry@), serial@, i as int),
        decreases registry@.len() - i,
    {
        assert(registry_view(registry@)[i as int] == registry@[i as int]@);
        if registry[i].serial != wanted {
            let ghost before = registry_view(kept@);
            kept.push(registry[i].duplicate());
            assert(registry_view(kept@) =~= before.push(registry@[i as int]@));
        }
        i += 1;
    }
    kept
}

} // verus!
