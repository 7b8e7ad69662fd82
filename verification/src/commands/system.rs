//! Versions of the mirroring tool.

use crate::text::{
    bounds_view, chars_of, comes_before, lemma_precedes_is_irreflexive,
    lemma_precedes_is_transitive, lines, next_char, occurs_at, parse_unsigned, precedes,
    scan_to_char, split_lines, split_words, starts_at, texts, trim, trimmed, unsigned_of, words,
};
use vstd::prelude::*;
use vstd::seq_lib::to_multiset_remove;

verus! {

#[derive(Debug, Clone, Copy)]
pub struct Dependencies {
    pub adb: bool,
    pub scrcpy: bool,
}

#[derive(Debug, Clone)]
pub struct ScrcpyVersionInfo {
    pub major: u32,
    pub minor: u32,
    pub patch: u32,
    pub raw: String,
}

/// Where the part of a text that starts at `from` ends: before the next
/// dot, or with the text.
pub open spec fn part_end(s: Seq<char>, from: int) -> int {
    next_char(s, '.', from)
}

/// The number that a part of a version stands for, and 0 when it stands
/// for none.
pub open spec fn part_value(part: Seq<char>) -> u32 {
    match unsigned_of(part, u32::MAX as nat) {
        Some(n) => n as u32,
        None => 0,
    }
}

/// The number of the part of a version that starts at `from`; 0 when
/// there is no such part.
pub open spec fn part_at(s: Seq<char>, from: Option<int>) -> u32 {
    match from {
        Some(start) => part_value(s.subrange(start, part_end(s, start))),
        None => 0,
    }
}

/// Where the part after the one that starts at `from` starts: behind the
/// dot that ends it, if there is such a dot.
pub open spec fn next_part(s: Seq<char>, from: Option<int>) -> Option<int> {
    match from {
        Some(start) => if part_end(s, start) < s.len() {
            Some(part_end(s, start) + 1)
        } else {
            None
        },
        None => None,
    }
}

/// The first three dot-separated parts of a version as numbers. A part
/// that is missing or no number counts as 0.
pub open spec fn version_parts(token: Seq<char>) -> (u32, u32, u32) {
    let second = next_part(token, Some(0));
    let third = next_part(token, second);
    (part_at(token, Some(0)), part_at(token, second), part_at(token, third))
}

/// A position in machine integers, as a mathematical integer.
pub open spec fn position(from: Option<usize>) -> Option<int> {
    match from {
        Some(start) => Some(start as int),
        None => None,
    }
}

fn read_part(s: &[char], from: Option<usize>) -> (part: (u32, Option<usize>))
    requires
        from matches Some(start) ==> start <= s@.len(),
    ensures
        part.0 == part_at(s@, position(from)),
        position(part.1) == next_part(s@, position(from)),
        part.1 matches Some(start) ==> start <= s@.len(),
{
    match from {
        None => (0, None),
        Some(start) => {
            let end = scan_to_char(s, '.', start);
            let value = match parse_unsigned(&s[start..end], 4294967295) {
                Some(n) => n as u32,
                None => 0,
            };
            if end < s.len() {
                (value, Some(end + 1))
            } else {
                (value, None)
            }
        },
    }
}

/// Parse a version string like "3.3.4" into (major, minor, patch).
/// Returns 0 for each part that cannot be read.
pub fn parse_version_parts(version_token: &str) -> (parts: (u32, u32, u32))
    ensures
        parts == version_parts(version_token@),
{
    let text = chars_of(version_token);
    let (major, second) = read_part(text.as_slice(), Some(0));
    let (minor, third) = read_part(text.as_slice(), second);
    let (patch, _) = read_part(text.as_slice(), third);
    (major, minor, patch)
}

// ----------------------------------------------------------------------------
// The version that the mirroring tool prints
// ----------------------------------------------------------------------------

pub struct ScrcpyVersionInfoView {
    pub major: u32,
    pub minor: u32,
    pub patch: u32,
    pub raw: Seq<char>,
}

impl View for ScrcpyVersionInfo {
    type V = ScrcpyVersionInfoView;

    open spec fn view(&self) -> ScrcpyVersionInfoView {
        ScrcpyVersionInfoView {
            major: self.major,
            minor: self.minor,
            patch: self.patch,
            raw: self.raw@,
        }
    }
}

/// The stream in which the tool printed its version: standard output,
/// unless that holds nothing but whitespace.
pub open spec fn version_source(stdout: Seq<char>, stderr: Seq<char>) -> Seq<char> {
    if trimmed(stdout).len() > 0 {
        stdout
    } else {
        stderr
    }
}

/// The first line of a text; empty when the text has no line.
pub open spec fn first_line(text: Seq<char>) -> Seq<char> {
    if lines(text).len() > 0 {
        lines(text)[0]
    } else {
        Seq::empty()
    }
}

/// The version that the tool printed: the second word of the first line,
/// and its parts as numbers. A first line of fewer words is a failure that
/// quotes the line.
pub open spec fn scrcpy_version_of(stdout: Seq<char>, stderr: Seq<char>) -> Result<
    ScrcpyVersionInfoView,
    Seq<char>,
> {
    let line = first_line(version_source(stdout, stderr));
    if words(line).len() >= 2 {
        let token = words(line)[1];
        Ok(
            ScrcpyVersionInfoView {
                major: version_parts(token).0,
                minor: version_parts(token).1,
                patch: version_parts(token).2,
                raw: token,
            },
        )
    } else {
        Err("Cannot parse version from: "@ + line)
    }
}

/// Reads the version out of what the tool printed when asked for it.
pub fn read_scrcpy_version(stdout: &str, stderr: &str) -> (version: Result<ScrcpyVersionInfo, String>)
    ensures
        match version {
            Ok(info) => scrcpy_version_of(stdout@, stderr@) == Ok::<
                ScrcpyVersionInfoView,
                Seq<char>,
            >(info@),
            Err(message) => scrcpy_version_of(stdout@, stderr@) == Err::<
                ScrcpyVersionInfoView,
                Seq<char>,
            >(message@),
        },
{
    let printed = chars_of(stdout);
    let (start, stop) = trim(printed.as_slice());
    let source: &str = if stop > start {
        stdout
    } else {
        stderr
    };
    assert(source@ == version_source(stdout@, stderr@));
    let text = chars_of(source);
    let all = split_lines(text.as_slice());
    let (a, b) = if all.len() > 0 {
        let first = all[0];
        assert(bounds_view(all@)[0] == (first.0 as int, first.1 as int));
        first
    } else {
        (0, 0)
    };
    let line = &text.as_slice()[a..b];
    assert(line@ =~= first_line(source@));
    let columns = split_words(line);
    if columns.len() >= 2 {
        let (a1, b1) = columns[1];
        assert(bounds_view(columns@)[1] == (a1 as int, b1 as int));
        let raw = source.substring_char(a + a1, a + b1).to_owned();
        assert(raw@ =~= words(line@)[1]);
        let (major, minor, patch) = parse_version_parts(raw.as_str());
        Ok(ScrcpyVersionInfo { major, minor, patch, raw })
    } else {
        let mut message = "Cannot parse version from: ".to_owned();
        message.append(source.substring_char(a, b));
        Err(message)
    }
}

// ----------------------------------------------------------------------------
// Video devices
// ----------------------------------------------------------------------------

/// The name of a video device starts with `video`.
pub open spec fn is_video_name(name: Seq<char>) -> bool {
    occurs_at(name, "video"@, 0)
}

/// The path of a device under `/dev`.
pub open spec fn device_path(name: Seq<char>) -> Seq<char> {
    "/dev/"@ + name
}

/// The paths of the video devices among the first `upto` names, in the
/// order of the names.
pub open spec fn video_paths(names: Seq<Seq<char>>, upto: int) -> Seq<Seq<char>>
    decreases upto,
{
    if upto <= 0 {
        Seq::empty()
    } else if is_video_name(names[upto - 1]) {
        video_paths(names, upto - 1).push(device_path(names[upto - 1]))
    } else {
        video_paths(names, upto - 1)
    }
}

/// No text of the list comes before one that stands earlier in the list.
pub open spec fn ordered(list: Seq<Seq<char>>) -> bool {
    forall|i: int, j: int| 0 <= i < j < list.len() ==> !precedes(list[j], list[i])
}

fn insert_in_order(sorted: &mut Vec<String>, item: String)
    requires
        ordered(texts(old(sorted)@)),
    ensures
        ordered(texts(final(sorted)@)),
        texts(final(sorted)@).to_multiset() == texts(old(sorted)@).to_multiset().insert(
            item@,
        ),
{
    let wanted = chars_of(item.as_str());
    let mut at: usize = 0;
    let mut found = false;
    while at < sorted.len() && !found
        invariant
            at <= sorted@.len(),
            wanted@ == item@,
            sorted@ == old(sorted)@,
            forall|i: int| 0 <= i < at ==> !precedes(item@, texts(sorted@)[i]),
            found ==> at < sorted@.len() && precedes(item@, texts(sorted@)[at as int]),
        decreases sorted@.len() - at + if found { 0int } else { 1int },
    {
        let here = chars_of(sorted[at].as_str());
        assert(here@ == texts(sorted@)[at as int]);
        if comes_before(wanted.as_slice(), here.as_slice()) {
            found = true;
        } else {
            at += 1;
        }
    }
    let ghost before = texts(sorted@);
    sorted.insert(at, item);
    let ghost after = texts(sorted@);
    proof {
        assert(after =~= before.insert(at as int, item@));
        assert forall|i: int, j: int| 0 <= i < j < after.len() implies !precedes(
            after[j],
            after[i],
        ) by {
            if j == at {
                assert(after[i] == before[i]);
            } else if i == at {
                assert(after[j] == before[j - 1]);
                if precedes(after[j], item@) {
                    lemma_precedes_is_transitive(after[j], item@, before[at as int]);
                    if j - 1 == at {
                        lemma_precedes_is_irreflexive(before[at as int]);
                    }
                }
            } else {
                let bi = if i < at {
                    i
                } else {
                    i - 1
                };
                let bj = if j < at {
                    j
                } else {
                    j - 1
                };
                assert(after[i] == before[bi]);
                assert(after[j] == before[bj]);
            }
        }
        assert(after.remove(at as int) =~= before);
        to_multiset_remove(after, at as int);
        assert(after.to_multiset().count(item@) > 0) by {
            assert(after[at as int] == item@);
            after.to_multiset_ensures();
        }
        assert(after.to_multiset() =~= before.to_multiset().insert(item@));
    }
}

/// The video devices among the names of the entries of `/dev`: the path of
/// each entry whose name starts with `video`, in the order of texts.
pub fn list_v4l2_devices_impl(names: &Vec<String>) -> (devices: Vec<String>)
    ensures
        ordered(texts(devices@)),
        texts(devices@).to_multiset() == video_paths(
            texts(names@),
            names@.len() as int,
        ).to_multiset(),
{
    let prefix = chars_of("video");
    let mut devices: Vec<String> = Vec::new();
    let mut i: usize = 0;
    assert(texts(devices@) =~= video_paths(texts(names@), 0));
    while i < names.len()
        invariant
            i <= names@.len(),
            prefix@ == "video"@,
            ordered(texts(devices@)),
            texts(devices@).to_multiset() == video_paths(
                texts(names@),
                i as int,
            ).to_multiset(),
        decreases names@.len() - i,
    {
        let name = chars_of(names[i].as_str());
        assert(name@ == texts(names@)[i as int]);
        if prefix.len() <= name.len() && starts_at(name.as_slice(), prefix.as_slice(), 0) {
            let mut path = "/dev/".to_owned();
            path.append(names[i].as_str());
            proof {
                video_paths(texts(names@), i as int).to_multiset_ensures();
            }
            insert_in_order(&mut devices, path);
        }
        i += 1;
    }
    devices
}

} // verus!
