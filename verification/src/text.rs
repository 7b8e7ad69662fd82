//! Text as sequences of characters: searching, trimming, splitting into lines
//! and words, and decimal numbers.
//!
//! Every operation is defined on `Seq<char>` and computed on `&[char]`.
//! An operation that selects a part of its input returns the bounds of that
//! part, so that a caller can cut it out of the string it started from.

use vstd::prelude::*;

verus! {

// ----------------------------------------------------------------------------
// Strings as texts
// ----------------------------------------------------------------------------

/// The strings of a list, as texts.
pub open spec fn texts(list: Seq<String>) -> Seq<Seq<char>> {
    Seq::new(list.len(), |i: int| list[i]@)
}

/// An optional string, as an optional text.
pub open spec fn optional_text(text: Option<String>) -> Option<Seq<char>> {
    match text {
        Some(t) => Some(t@),
        None => None,
    }
}

// ----------------------------------------------------------------------------
// Characters
// ----------------------------------------------------------------------------

/// The characters that carry the Unicode property `White_Space`.
pub open spec fn is_whitespace(c: char) -> bool {
    let n = c as u32;
    ||| 0x09 <= n <= 0x0D
    ||| n == 0x20
    ||| n == 0x85
    ||| n == 0xA0
    ||| n == 0x1680
    ||| 0x2000 <= n <= 0x200A
    ||| n == 0x2028
    ||| n == 0x2029
    ||| n == 0x202F
    ||| n == 0x205F
    ||| n == 0x3000
}

/// The decimal digits `0` to `9`.
pub open spec fn is_digit(c: char) -> bool {
    48 <= c as u32 <= 57
}

/// The number that a decimal digit stands for.
pub open spec fn digit_value(c: char) -> nat {
    (c as u32 - 48) as nat
}

pub fn is_space(c: char) -> (b: bool)
    ensures
        b == is_whitespace(c),
{
    let n: u32 = c as u32;
    (0x09 <= n && n <= 0x0D) || n == 0x20 || n == 0x85 || n == 0xA0 || n == 0x1680 || (0x2000 <= n
        && n <= 0x200A) || n == 0x2028 || n == 0x2029 || n == 0x202F || n == 0x205F || n == 0x3000
}

/// The characters of a string, in order.
pub fn chars_of(s: &str) -> (v: Vec<char>)
    ensures
        v@ == s@,
{
    let mut v: Vec<char> = Vec::new();
    for c in it: s.chars()
        invariant
            v@ == it.seq().take(it.index() as int),
            it.seq() == s@,
    {
        v.push(c);
    }
    v
}

// ----------------------------------------------------------------------------
// Searching
// ----------------------------------------------------------------------------

/// `pat` stands in `s` at index `i`.
pub open spec fn occurs_at(s: Seq<char>, pat: Seq<char>, i: int) -> bool {
    &&& 0 <= i
    &&& i + pat.len() <= s.len()
    &&& s.subrange(i, i + pat.len()) == pat
}

/// `pat` stands somewhere in `s`. The empty pattern stands in every text.
pub open spec fn contains(s: Seq<char>, pat: Seq<char>) -> bool {
    exists|i: int| occurs_at(s, pat, i)
}

/// The first index at or after `from` at which `pat` stands in `s`.
pub open spec fn find_from(s: Seq<char>, pat: Seq<char>, from: int) -> Option<int>
    decreases s.len() + 1 - from,
{
    if from < 0 || from + pat.len() > s.len() {
        None
    } else if occurs_at(s, pat, from) {
        Some(from)
    } else {
        find_from(s, pat, from + 1)
    }
}

/// The first index at which `pat` stands in `s`.
pub open spec fn find(s: Seq<char>, pat: Seq<char>) -> Option<int> {
    find_from(s, pat, 0)
}

/// `find_from` returns the least index at or after `from` at which the
/// pattern stands, and `None` exactly when there is none.
pub proof fn lemma_find_from_is_least(s: Seq<char>, pat: Seq<char>, from: int)
    requires
        0 <= from,
    ensures
        match find_from(s, pat, from) {
            Some(i) => from <= i && occurs_at(s, pat, i) && forall|j: int|
                from <= j < i ==> !occurs_at(s, pat, j),
            None => forall|j: int| from <= j ==> !occurs_at(s, pat, j),
        },
    decreases s.len() + 1 - from,
{
    if from + pat.len() > s.len() {
    } else if occurs_at(s, pat, from) {
    } else {
        lemma_find_from_is_least(s, pat, from + 1);
    }
}

/// `find` succeeds exactly on the texts that contain the pattern, and then
/// gives its first occurrence.
pub proof fn lemma_find_is_first_occurrence(s: Seq<char>, pat: Seq<char>)
    ensures
        find(s, pat) is Some <==> contains(s, pat),
        find(s, pat) matches Some(i) ==> occurs_at(s, pat, i) && forall|j: int|
            0 <= j < i ==> !occurs_at(s, pat, j),
{
    lemma_find_from_is_least(s, pat, 0);
}

/// Whether `pat` stands in `s` at index `i`.
pub fn starts_at(s: &[char], pat: &[char], i: usize) -> (b: bool)
    requires
        i + pat@.len() <= s@.len(),
    ensures
        b == occurs_at(s@, pat@, i as int),
{
    let n: usize = s.len();
    let mut k: usize = 0;
    while k < pat.len()
        invariant
            k <= pat@.len(),
            i + pat@.len() <= s@.len(),
            s@.len() == n,
            forall|j: int| 0 <= j < k ==> s@[i + j] == pat@[j],
        decreases pat@.len() - k,
    {
        if s[i + k] != pat[k] {
            assert(s@.subrange(i as int, i + pat@.len())[k as int] == s@[i + k]);
            return false;
        }
        k += 1;
    }
    assert(s@.subrange(i as int, i + pat@.len()) =~= pat@);
    true
}

/// The first index at which `pat` stands in `s`.
pub fn find_in(s: &[char], pat: &[char]) -> (found: Option<usize>)
    ensures
        match found {
            Some(i) => find(s@, pat@) == Some(i as int),
            None => find(s@, pat@) is None,
        },
{
    if pat.len() > s.len() {
        return None;
    }
    let last: usize = s.len() - pat.len();
    let mut i: usize = 0;
    loop
        invariant
            i <= last,
            last == s@.len() - pat@.len(),
            find(s@, pat@) == find_from(s@, pat@, i as int),
        decreases last - i,
    {
        if starts_at(s, pat, i) {
            return Some(i);
        }
        if i == last {
            return None;
        }
        i += 1;
    }
}

/// Whether `pat` stands somewhere in `s`.
pub fn has(s: &[char], pat: &[char]) -> (b: bool)
    ensures
        b == contains(s@, pat@),
{
    proof {
        lemma_find_is_first_occurrence(s@, pat@);
    }
    find_in(s, pat).is_some()
}

/// Whether two texts are the same.
pub fn same_text(a: &[char], b: &[char]) -> (same: bool)
    ensures
        same == (a@ == b@),
{
    if a.len() != b.len() {
        return false;
    }
    let mut i: usize = 0;
    while i < a.len()
        invariant
            i <= a@.len(),
            a@.len() == b@.len(),
            forall|j: int| 0 <= j < i ==> a@[j] == b@[j],
        decreases a@.len() - i,
    {
        if a[i] != b[i] {
            return false;
        }
        i += 1;
    }
    assert(a@ =~= b@);
    true
}

/// Whether a text is the given string.
pub fn is_text(a: &[char], b: &str) -> (same: bool)
    ensures
        same == (a@ == b@),
{
    let other = chars_of(b);
    same_text(a, other.as_slice())
}

// ----------------------------------------------------------------------------
// Scanning
// ----------------------------------------------------------------------------

/// The first index at or after `from` that holds `c`, or the length of `s`.
pub open spec fn next_char(s: Seq<char>, c: char, from: int) -> int
    decreases s.len() - from,
{
    if from < 0 || from >= s.len() {
        s.len() as int
    } else if s[from] == c {
        from
    } else {
        next_char(s, c, from + 1)
    }
}

/// The first index at or after `from` that holds whitespace, or the length
/// of `s`.
pub open spec fn next_space(s: Seq<char>, from: int) -> int
    decreases s.len() - from,
{
    if from < 0 || from >= s.len() {
        s.len() as int
    } else if is_whitespace(s[from]) {
        from
    } else {
        next_space(s, from + 1)
    }
}

/// The first index at or after `from` that holds no whitespace, or the
/// length of `s`.
pub open spec fn next_non_space(s: Seq<char>, from: int) -> int
    decreases s.len() - from,
{
    if from < 0 || from >= s.len() {
        s.len() as int
    } else if !is_whitespace(s[from]) {
        from
    } else {
        next_non_space(s, from + 1)
    }
}

/// The end of `s.take(to)` once the whitespace at its end is taken off.
pub open spec fn back_over_space(s: Seq<char>, to: int) -> int
    decreases to,
{
    if to <= 0 || to > s.len() || !is_whitespace(s[to - 1]) {
        to
    } else {
        back_over_space(s, to - 1)
    }
}

pub proof fn lemma_next_space_bounds(s: Seq<char>, from: int)
    requires
        0 <= from <= s.len(),
    ensures
        from <= next_space(s, from) <= s.len(),
        from < s.len() && !is_whitespace(s[from]) ==> from < next_space(s, from),
    decreases s.len() - from,
{
    if from < s.len() && !is_whitespace(s[from]) {
        lemma_next_space_bounds(s, from + 1);
    }
}

pub fn scan_to_char(s: &[char], c: char, from: usize) -> (at: usize)
    requires
        from <= s@.len(),
    ensures
        at == next_char(s@, c, from as int),
        from <= at <= s@.len(),
{
    let mut i: usize = from;
    while i < s.len() && s[i] != c
        invariant
            from <= i <= s@.len(),
            next_char(s@, c, from as int) == next_char(s@, c, i as int),
        decreases s@.len() - i,
    {
        i += 1;
    }
    i
}

pub fn scan_to_space(s: &[char], from: usize) -> (at: usize)
    requires
        from <= s@.len(),
    ensures
        at == next_space(s@, from as int),
        from <= at <= s@.len(),
{
    let mut i: usize = from;
    while i < s.len() && !is_space(s[i])
        invariant
            from <= i <= s@.len(),
            next_space(s@, from as int) == next_space(s@, i as int),
        decreases s@.len() - i,
    {
        i += 1;
    }
    i
}

pub fn scan_over_space(s: &[char], from: usize) -> (at: usize)
    requires
        from <= s@.len(),
    ensures
        at == next_non_space(s@, from as int),
        from <= at <= s@.len(),
{
    let mut i: usize = from;
    while i < s.len() && is_space(s[i])
        invariant
            from <= i <= s@.len(),
            next_non_space(s@, from as int) == next_non_space(s@, i as int),
        decreases s@.len() - i,
    {
        i += 1;
    }
    i
}

pub fn scan_back_over_space(s: &[char], to: usize) -> (at: usize)
    requires
        to <= s@.len(),
    ensures
        at == back_over_space(s@, to as int),
        at <= to,
{
    let mut i: usize = to;
    while i > 0 && is_space(s[i - 1])
        invariant
            i <= to <= s@.len(),
            back_over_space(s@, to as int) == back_over_space(s@, i as int),
        decreases i,
    {
        i -= 1;
    }
    i
}

// ----------------------------------------------------------------------------
// Trimming
// ----------------------------------------------------------------------------

/// Where the text starts and ends once the whitespace at both ends is taken
/// off. A text of whitespace alone gives an empty range.
pub open spec fn trim_bounds(s: Seq<char>) -> (int, int) {
    let start = next_non_space(s, 0);
    let end = back_over_space(s, s.len() as int);
    if start <= end {
        (start, end)
    } else {
        (start, start)
    }
}

/// The text without the whitespace at its two ends.
pub open spec fn trimmed(s: Seq<char>) -> Seq<char> {
    s.subrange(trim_bounds(s).0, trim_bounds(s).1)
}

/// The bounds of the trimmed text within `s`.
pub fn trim(s: &[char]) -> (bounds: (usize, usize))
    ensures
        (bounds.0 as int, bounds.1 as int) == trim_bounds(s@),
        bounds.0 <= bounds.1 <= s@.len(),
        s@.subrange(bounds.0 as int, bounds.1 as int) == trimmed(s@),
{
    let start = scan_over_space(s, 0);
    let end = scan_back_over_space(s, s.len());
    if start <= end {
        (start, end)
    } else {
        (start, start)
    }
}

// ----------------------------------------------------------------------------
// Lines and words
// ----------------------------------------------------------------------------

/// The bounds of the lines of `s` that start at or after `from`, which is
/// the start of a line. A line ends before a line feed, or before a carriage
/// return and a line feed; the last line may end with the text. A carriage
/// return that no line feed follows belongs to its line.
pub open spec fn line_bounds_from(s: Seq<char>, from: int) -> Seq<(int, int)>
    decreases s.len() - from,
{
    if from < 0 || from >= s.len() {
        Seq::empty()
    } else {
        let feed = next_char(s, '\n', from);
        if from <= feed < s.len() {
            let end = if feed > from && s[feed - 1] == '\r' {
                feed - 1
            } else {
                feed
            };
            seq![(from, end)] + line_bounds_from(s, feed + 1)
        } else {
            seq![(from, s.len() as int)]
        }
    }
}

/// The bounds of the lines of `s`. A text that ends with a line feed has no
/// empty line after it.
pub open spec fn line_bounds(s: Seq<char>) -> Seq<(int, int)> {
    line_bounds_from(s, 0)
}

/// The bounds of the words of `s` at or after `from`: the longest runs of
/// characters that are not whitespace.
pub open spec fn word_bounds_from(s: Seq<char>, from: int) -> Seq<(int, int)>
    decreases s.len() - from,
{
    let start = next_non_space(s, from);
    if from < 0 || start < from || start >= s.len() {
        Seq::empty()
    } else {
        let end = next_space(s, start);
        if start < end <= s.len() {
            seq![(start, end)] + word_bounds_from(s, end)
        } else {
            Seq::empty()
        }
    }
}

/// The bounds of the words of `s`.
pub open spec fn word_bounds(s: Seq<char>) -> Seq<(int, int)> {
    word_bounds_from(s, 0)
}

/// The parts of `s` that a sequence of bounds cuts out.
pub open spec fn pieces(s: Seq<char>, bounds: Seq<(int, int)>) -> Seq<Seq<char>> {
    Seq::new(bounds.len(), |i: int| s.subrange(bounds[i].0, bounds[i].1))
}

/// The lines of `s`.
pub open spec fn lines(s: Seq<char>) -> Seq<Seq<char>> {
    pieces(s, line_bounds(s))
}

/// The words of `s`.
pub open spec fn words(s: Seq<char>) -> Seq<Seq<char>> {
    pieces(s, word_bounds(s))
}

/// Bounds held in machine integers, as mathematical integers.
pub open spec fn bounds_view(bounds: Seq<(usize, usize)>) -> Seq<(int, int)> {
    Seq::new(bounds.len(), |i: int| (bounds[i].0 as int, bounds[i].1 as int))
}

/// Every pair of bounds is a range within a text of length `len`.
pub open spec fn bounds_within(bounds: Seq<(usize, usize)>, len: nat) -> bool {
    forall|i: int| 0 <= i < bounds.len() ==> (#[trigger] bounds[i]).0 <= bounds[i].1 <= len
}

/// The bounds of the lines of `s`.
pub fn split_lines(s: &[char]) -> (bounds: Vec<(usize, usize)>)
    ensures
        bounds_view(bounds@) == line_bounds(s@),
        bounds_within(bounds@, s@.len()),
{
    let mut out: Vec<(usize, usize)> = Vec::new();
    let mut pos: usize = 0;
    assert(bounds_view(out@) + line_bounds_from(s@, 0) =~= line_bounds(s@));
    while pos < s.len()
        invariant
            pos <= s@.len(),
            bounds_within(out@, s@.len()),
            bounds_view(out@) + line_bounds_from(s@, pos as int) == line_bounds(s@),
        decreases s@.len() - pos,
    {
        let feed = scan_to_char(s, '\n', pos);
        let ghost before = out@;
        if feed < s.len() {
            let end = if feed > pos && s[feed - 1] == '\r' {
                feed - 1
            } else {
                feed
            };
            out.push((pos, end));
            assert(bounds_view(out@) =~= bounds_view(before) + seq![(pos as int, end as int)]);
            assert(bounds_view(out@) + line_bounds_from(s@, feed + 1) =~= bounds_view(before) + (
            seq![(pos as int, end as int)] + line_bounds_from(s@, feed + 1)));
            pos = feed + 1;
        } else {
            out.push((pos, feed));
            assert(bounds_view(out@) =~= bounds_view(before) + seq![(pos as int, feed as int)]);
            assert(line_bounds_from(s@, feed as int) =~= Seq::empty());
            assert(bounds_view(out@) + line_bounds_from(s@, feed as int) =~= bounds_view(before)
                + seq![(pos as int, feed as int)]);
            pos = feed;
        }
    }
    assert(line_bounds_from(s@, pos as int) =~= Seq::empty());
    assert(bounds_view(out@) + line_bounds_from(s@, pos as int) =~= bounds_view(out@));
    out
}

/// The bounds of the words of `s`.
pub fn split_words(s: &[char]) -> (bounds: Vec<(usize, usize)>)
    ensures
        bounds_view(bounds@) == word_bounds(s@),
        bounds_within(bounds@, s@.len()),
{
    let mut out: Vec<(usize, usize)> = Vec::new();
    let mut pos: usize = 0;
    assert(bounds_view(out@) + word_bounds_from(s@, 0) =~= word_bounds(s@));
    loop
        invariant
            pos <= s@.len(),
            bounds_within(out@, s@.len()),
            bounds_view(out@) + word_bounds_from(s@, pos as int) == word_bounds(s@),
        decreases s@.len() - pos,
    {
        let start = scan_over_space(s, pos);
        if start >= s.len() {
            assert(word_bounds_from(s@, pos as int) =~= Seq::empty());
            assert(bounds_view(out@) + word_bounds_from(s@, pos as int) =~= bounds_view(out@));
            return out;
        }
        let end = scan_to_space(s, start);
        proof {
            lemma_next_space_bounds(s@, start as int);
            lemma_next_non_space_is_not_space(s@, pos as int);
        }
        let ghost before = out@;
        out.push((start, end));
        assert(bounds_view(out@) =~= bounds_view(before) + seq![(start as int, end as int)]);
        assert(bounds_view(out@) + word_bounds_from(s@, end as int) =~= bounds_view(before) + (
        seq![(start as int, end as int)] + word_bounds_from(s@, end as int)));
        pos = end;
    }
}

/// Where `next_non_space` stops short of the end, it stands on a character
/// that is no whitespace.
pub proof fn lemma_next_non_space_is_not_space(s: Seq<char>, from: int)
    requires
        0 <= from <= s.len(),
    ensures
        next_non_space(s, from) < s.len() ==> !is_whitespace(s[next_non_space(s, from)]),
    decreases s.len() - from,
{
    if from < s.len() && is_whitespace(s[from]) {
        lemma_next_non_space_is_not_space(s, from + 1);
    }
}

// ----------------------------------------------------------------------------
// Decimal numbers
// ----------------------------------------------------------------------------

/// Every character is a decimal digit.
pub open spec fn all_digits(s: Seq<char>) -> bool {
    forall|i: int| 0 <= i < s.len() ==> is_digit(#[trigger] s[i])
}

/// The number that a run of decimal digits stands for.
pub open spec fn digits_value(s: Seq<char>) -> nat
    decreases s.len(),
{
    if s.len() == 0 {
        0
    } else {
        digits_value(s.drop_last()) * 10 + digit_value(s.last())
    }
}

/// The text after its sign, if it starts with one of the two signs given.
pub open spec fn after_sign(s: Seq<char>, plus: bool, minus: bool) -> Seq<char> {
    if s.len() > 0 && ((plus && s[0] == '+') || (minus && s[0] == '-')) {
        s.skip(1)
    } else {
        s
    }
}

/// The number that `s` denotes as an unsigned decimal of at most `max`: an
/// optional `+` and then one digit or more, nothing else. Leading zeros
/// are allowed.
pub open spec fn unsigned_of(s: Seq<char>, max: nat) -> Option<nat> {
    let body = after_sign(s, true, false);
    if body.len() > 0 && all_digits(body) && digits_value(body) <= max {
        Some(digits_value(body))
    } else {
        None
    }
}

/// The number that `s` denotes as a signed decimal between `min` and `max`:
/// an optional `+` or `-` and then one digit or more, nothing else.
pub open spec fn signed_of(s: Seq<char>, min: int, max: int) -> Option<int> {
    let body = after_sign(s, true, true);
    let magnitude = digits_value(body) as int;
    let value = if s.len() > 0 && s[0] == '-' {
        -magnitude
    } else {
        magnitude
    };
    if body.len() > 0 && all_digits(body) && min <= value <= max {
        Some(value)
    } else {
        None
    }
}

/// The digits up to an index never stand for more than the whole run does.
pub proof fn lemma_digits_value_of_prefix(s: Seq<char>, n: int)
    requires
        0 <= n <= s.len(),
    ensures
        digits_value(s.take(n)) <= digits_value(s),
    decreases s.len() - n,
{
    if n == s.len() {
        assert(s.take(n) =~= s);
    } else {
        lemma_digits_value_of_prefix(s, n + 1);
        assert(s.take(n + 1).drop_last() =~= s.take(n));
    }
}

/// The value of the digits of `s` from `from` on, if they are digits all,
/// at least one, and stand for at most `max`.
fn parse_digits(s: &[char], from: usize, max: u64) -> (value: Option<u64>)
    requires
        from <= s@.len(),
    ensures
        ({
            let body = s@.skip(from as int);
            if body.len() > 0 && all_digits(body) && digits_value(body) <= max {
                value == Some(digits_value(body) as u64)
            } else {
                value is None
            }
        }),
{
    let ghost body = s@.skip(from as int);
    if from == s.len() {
        return None;
    }
    let mut acc: u64 = 0;
    let mut i: usize = from;
    assert(body.take(0) =~= Seq::<char>::empty());
    while i < s.len()
        invariant
            from <= i <= s@.len(),
            body == s@.skip(from as int),
            all_digits(body.take(i - from)),
            acc == digits_value(body.take(i - from)),
            acc <= max,
        decreases s@.len() - i,
    {
        let c = s[i];
        let n: u32 = c as u32;
        assert(body[i - from] == c);
        if n < 48 || n > 57 {
            return None;
        }
        let d: u64 = (n - 48) as u64;
        proof {
            assert(body.take(i - from + 1).drop_last() =~= body.take(i - from));
            assert(body.take(i - from + 1).last() == c);
            lemma_digits_value_of_prefix(body, i - from + 1);
        }
        if d > max || acc > (max - d) / 10 {
            assert(acc * 10 + d > max);
            return None;
        }
        acc = acc * 10 + d;
        i += 1;
    }
    assert(body.take(i - from) =~= body);
    Some(acc)
}

/// Reads an unsigned decimal of at most `max`.
pub fn parse_unsigned(s: &[char], max: u64) -> (value: Option<u64>)
    ensures
        match value {
            Some(n) => unsigned_of(s@, max as nat) == Some(n as nat),
            None => unsigned_of(s@, max as nat) is None,
        },
{
    if s.len() > 0 && s[0] == '+' {
        parse_digits(s, 1, max)
    } else {
        assert(s@.skip(0) =~= s@);
        parse_digits(s, 0, max)
    }
}

/// Reads a signed decimal that fits 32 bits.
pub fn parse_i32(s: &[char]) -> (value: Option<i32>)
    ensures
        match value {
            Some(n) => signed_of(s@, i32::MIN as int, i32::MAX as int) == Some(n as int),
            None => signed_of(s@, i32::MIN as int, i32::MAX as int) is None,
        },
{
    if s.len() > 0 && s[0] == '-' {
        match parse_digits(s, 1, 2147483648) {
            Some(m) => {
                if m == 2147483648 {
                    Some(i32::MIN)
                } else {
                    Some(-(m as i32))
                }
            },
            None => None,
        }
    } else if s.len() > 0 && s[0] == '+' {
        match parse_digits(s, 1, 2147483647) {
            Some(m) => Some(m as i32),
            None => None,
        }
    } else {
        assert(s@.skip(0) =~= s@);
        match parse_digits(s, 0, 2147483647) {
            Some(m) => Some(m as i32),
            None => None,
        }
    }
}

/// The character of a decimal digit.
pub open spec fn digit_char(d: nat) -> char {
    if d == 0 {
        '0'
    } else if d == 1 {
        '1'
    } else if d == 2 {
        '2'
    } else if d == 3 {
        '3'
    } else if d == 4 {
        '4'
    } else if d == 5 {
        '5'
    } else if d == 6 {
        '6'
    } else if d == 7 {
        '7'
    } else if d == 8 {
        '8'
    } else {
        '9'
    }
}

/// The decimal digits of a number, without leading zeros.
pub open spec fn decimal(n: nat) -> Seq<char>
    decreases n,
{
    if n < 10 {
        seq![digit_char(n)]
    } else {
        decimal(n / 10).push(digit_char(n % 10))
    }
}

fn digit_text(d: u128) -> (text: &'static str)
    requires
        d < 10,
    ensures
        text@ == seq![digit_char(d as nat)],
{
    proof {
        reveal_strlit("0");
        reveal_strlit("1");
        reveal_strlit("2");
        reveal_strlit("3");
        reveal_strlit("4");
        reveal_strlit("5");
        reveal_strlit("6");
        reveal_strlit("7");
        reveal_strlit("8");
        reveal_strlit("9");
    }
    let text = if d == 0 {
        "0"
    } else if d == 1 {
        "1"
    } else if d == 2 {
        "2"
    } else if d == 3 {
        "3"
    } else if d == 4 {
        "4"
    } else if d == 5 {
        "5"
    } else if d == 6 {
        "6"
    } else if d == 7 {
        "7"
    } else if d == 8 {
        "8"
    } else {
        "9"
    };
    assert(text@ =~= seq![digit_char(d as nat)]);
    text
}

/// Writes the decimal digits of `n` at the end of `out`.
pub fn push_decimal(out: &mut String, n: u128)
    ensures
        final(out)@ == old(out)@ + decimal(n as nat),
    decreases n,
{
    if n >= 10 {
        push_decimal(out, n / 10);
    }
    out.append(digit_text(n % 10));
    assert(final(out)@ =~= old(out)@ + decimal(n as nat)) by {
        if n >= 10 {
            assert(old(out)@ + decimal((n / 10) as nat) + seq![digit_char((n % 10) as nat)]
                =~= old(out)@ + decimal((n / 10) as nat).push(digit_char((n % 10) as nat)));
        }
    }
}

// ----------------------------------------------------------------------------
// Order
// ----------------------------------------------------------------------------

/// `a` comes before `b` in the order of texts: at the first place where
/// the two differ `a` has the lower character, or `a` has ended there and
/// `b` has not. This is the order of strings.
pub open spec fn precedes(a: Seq<char>, b: Seq<char>) -> bool
    decreases a.len(),
{
    if b.len() == 0 {
        false
    } else if a.len() == 0 {
        true
    } else if a[0] != b[0] {
        (a[0] as int) < (b[0] as int)
    } else {
        precedes(a.skip(1), b.skip(1))
    }
}

/// No text comes before itself.
pub proof fn lemma_precedes_is_irreflexive(a: Seq<char>)
    ensures
        !precedes(a, a),
    decreases a.len(),
{
    if a.len() > 0 {
        lemma_precedes_is_irreflexive(a.skip(1));
    }
}

/// What comes before a text comes before everything that the text comes
/// before.
pub proof fn lemma_precedes_is_transitive(a: Seq<char>, b: Seq<char>, c: Seq<char>)
    requires
        precedes(a, b),
        precedes(b, c),
    ensures
        precedes(a, c),
    decreases a.len(),
{
    if a.len() > 0 && a[0] == b[0] && b[0] == c[0] {
        lemma_precedes_is_transitive(a.skip(1), b.skip(1), c.skip(1));
    }
}

/// Of two different texts one comes before the other.
pub proof fn lemma_precedes_is_total(a: Seq<char>, b: Seq<char>)
    ensures
        a == b || precedes(a, b) || precedes(b, a),
    decreases a.len(),
{
    if a.len() > 0 && b.len() > 0 && a[0] == b[0] {
        lemma_precedes_is_total(a.skip(1), b.skip(1));
        if a.skip(1) == b.skip(1) {
            assert(a =~= seq![a[0]] + a.skip(1));
            assert(b =~= seq![b[0]] + b.skip(1));
            assert(a =~= b);
        }
    } else if a.len() == 0 && b.len() == 0 {
        assert(a =~= b);
    } else if a.len() > 0 && b.len() > 0 {
        assert(a[0] as int != b[0] as int);
    }
}

/// Whether `a` comes before `b` in the order of texts.
pub fn comes_before(a: &[char], b: &[char]) -> (before: bool)
    ensures
        before == precedes(a@, b@),
{
    let mut i: usize = 0;
    assert(a@.skip(0) =~= a@);
    assert(b@.skip(0) =~= b@);
    loop
        invariant
            i <= a@.len(),
            i <= b@.len(),
            precedes(a@, b@) == precedes(a@.skip(i as int), b@.skip(i as int)),
        decreases a@.len() - i,
    {
        if i == b.len() {
            return false;
        }
        if i == a.len() {
            return true;
        }
        assert(a@.skip(i as int)[0] == a@[i as int]);
        assert(b@.skip(i as int)[0] == b@[i as int]);
        if a[i] != b[i] {
            let x: char = a[i];
            let y: char = b[i];
            return x < y;
        }
        assert(a@.skip(i as int).skip(1) =~= a@.skip(i + 1));
        assert(b@.skip(i as int).skip(1) =~= b@.skip(i + 1));
        i += 1;
    }
}

} // verus!
