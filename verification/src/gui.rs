//! The state and message handling of the graphical frontend: each panel's
//! fields, what a message does to them, and which background work it asks
//! for. Rendering is not part of the library.
use vstd::prelude::*;

use crate::clock::now_secs;
use crate::text::{concat2, decimal, u64_to_decimal};

pub mod app;
pub mod eject;
pub mod inject;
pub mod log_strip;
pub mod nav;
pub mod processes;
pub mod profiles;
pub mod sidebar;
pub mod status;

verus! {

/// The text of an input field as an optional value: an empty field is unset.
pub open spec fn non_empty_spec(s: Seq<char>) -> Option<Seq<char>> {
    if s.len() == 0 {
        None
    } else {
        Some(s)
    }
}

/// Converts an empty string slice to `None`, preserving non-empty strings as `Some`.
pub fn non_empty(s: &str) -> (r: Option<String>)
    ensures
        crate::operations::opt_seq(r) == non_empty_spec(s@),
{
    let chars = crate::text::chars_of(s);
    if chars.len() == 0 {
        None
    } else {
        Some(crate::text::string_of(chars.as_slice()))
    }
}

/// `name (pid)`, the label of a process in input fields.
pub open spec fn process_label_spec(name: Seq<char>, pid: u32) -> Seq<char> {
    name + " ("@ + decimal(pid as nat) + ")"@
}

/// Formats a process as `"name (pid)"` for display in process input fields.
pub fn format_process_label(name: &str, pid: u32) -> (r: String)
    ensures
        r@ == process_label_spec(name@, pid),
{
    let a = concat2(name, " (");
    let digits = u64_to_decimal(pid as u64);
    let b = concat2(a.as_str(), digits.as_str());
    concat2(b.as_str(), ")")
}

/// How long ago something happened, in the largest whole unit among
/// seconds (under a minute), minutes (under an hour) and hours.
pub open spec fn relative_text(elapsed: nat) -> Seq<char> {
    if elapsed < 60 {
        decimal(elapsed) + "s ago"@
    } else if elapsed < 3600 {
        decimal(elapsed / 60) + "m ago"@
    } else {
        decimal(elapsed / 3600) + "h ago"@
    }
}

/// Seconds from `then` to `now`, zero when `then` is later.
pub open spec fn elapsed_secs(now: u64, then: u64) -> nat {
    if now >= then {
        (now - then) as nat
    } else {
        0
    }
}

/// The relative description of a Unix timestamp seen at time `now`.
pub fn relative_time_at(now: u64, unix_secs: u64) -> (r: String)
    ensures
        r@ == relative_text(elapsed_secs(now, unix_secs)),
{
    let elapsed = now.saturating_sub(unix_secs);
    if elapsed < 60 {
        let d = u64_to_decimal(elapsed);
        concat2(d.as_str(), "s ago")
    } else if elapsed < 3600 {
        let d = u64_to_decimal(elapsed / 60);
        concat2(d.as_str(), "m ago")
    } else {
        let d = u64_to_decimal(elapsed / 3600);
        concat2(d.as_str(), "h ago")
    }
}

/// Formats a Unix timestamp as a human-readable relative duration like `"3m ago"`.
pub fn relative_time(unix_secs: u64) -> (r: String)
    ensures
        exists|now: u64| r@ == relative_text(elapsed_secs(now, unix_secs)),
{
    let now = now_secs();
    relative_time_at(now, unix_secs)
}

/// A decimal number no larger than `max` typed into a field, read as
/// `str::parse` reads unsigned integers.
pub fn parse_number(s: &str, max: u64) -> (r: Option<u64>)
    ensures
        r matches Some(v) ==> crate::text::parse_bounded(s@, 10, max as nat) == Some(v as nat),
        r is None ==> crate::text::parse_bounded(s@, 10, max as nat) is None,
{
    let chars = crate::text::chars_of(s);
    crate::text::parse_radix(chars.as_slice(), 10, max)
}

/// A path separator as Windows paths write them.
pub open spec fn is_path_separator(c: char) -> bool {
    c == '\\' || c == '/'
}

/// A drive letter, as in `C:`.
pub open spec fn is_drive_letter(c: char) -> bool {
    ('a' <= c && c <= 'z') || ('A' <= c && c <= 'Z')
}

/// The path without a leading drive such as `C:`.
pub open spec fn without_drive(s: Seq<char>) -> Seq<char> {
    if s.len() >= 2 && s[1] == ':' && is_drive_letter(s[0]) {
        s.subrange(2, s.len() as int)
    } else {
        s
    }
}

/// The path without its trailing separators and trailing `.` components.
pub open spec fn trim_trailing(s: Seq<char>) -> Seq<char>
    decreases s.len(),
{
    if s.len() == 0 {
        s
    } else if is_path_separator(s.last()) {
        trim_trailing(s.drop_last())
    } else if s.last() == '.' && s.len() >= 2 && is_path_separator(s[s.len() - 2]) {
        trim_trailing(s.drop_last())
    } else {
        s
    }
}

/// The characters after the last separator.
pub open spec fn last_component(s: Seq<char>) -> Seq<char>
    decreases s.len(),
{
    if s.len() == 0 {
        Seq::empty()
    } else if is_path_separator(s.last()) {
        Seq::empty()
    } else {
        last_component(s.drop_last()).push(s.last())
    }
}

/// The file name of a Windows path: after a leading drive, the last
/// component, trailing separators and trailing `.` components ignored; none
/// when that component is empty, `.` or `..`.
pub open spec fn file_name_spec(path: Seq<char>) -> Option<Seq<char>> {
    let c = last_component(trim_trailing(without_drive(path)));
    if c.len() == 0 || c == seq!['.'] || c == seq!['.', '.'] {
        None
    } else {
        Some(c)
    }
}

/// The file name of a path, as shown beside a typed path and in the table
/// of remembered injections.
pub fn file_name(path: &str) -> (r: Option<String>)
    ensures
        match file_name_spec(path@) {
            Some(n) => r matches Some(t) && t@ == n,
            None => r is None,
        },
{
    let chars = crate::text::chars_of(path);
    let n = chars.len();
    let lo: usize = if n >= 2 && chars[1] == ':' && (('a' <= chars[0] && chars[0] <= 'z') || ('A' <= chars[0]
        && chars[0] <= 'Z')) {
        2
    } else {
        0
    };
    assert(chars@.subrange(lo as int, n as int) =~= without_drive(path@));
    let mut end: usize = n;
    while end > lo && (chars[end - 1] == '\\' || chars[end - 1] == '/' || (chars[end - 1] == '.' && end - lo >= 2
        && (chars[end - 2] == '\\' || chars[end - 2] == '/')))
        invariant
            lo <= end <= n == chars@.len(),
            chars@ == path@,
            trim_trailing(chars@.subrange(lo as int, end as int)) == trim_trailing(without_drive(path@)),
        decreases end,
    {
        assert(chars@.subrange(lo as int, end as int).drop_last() =~= chars@.subrange(lo as int, end - 1));
        end = end - 1;
    }
    let ghost trimmed = chars@.subrange(lo as int, end as int);
    assert(trim_trailing(trimmed) == trimmed);
    let mut start: usize = lo;
    let mut i: usize = lo;
    while i < end
        invariant
            lo <= start <= i <= end <= chars.len(),
            trimmed == chars@.subrange(lo as int, end as int),
            last_component(trimmed.take(i - lo)) == chars@.subrange(start as int, i as int),
        decreases end - i,
    {
        assert(trimmed.take(i - lo + 1).drop_last() =~= trimmed.take(i - lo));
        assert(trimmed.take(i - lo + 1).last() == chars@[i as int]);
        if chars[i] == '\\' || chars[i] == '/' {
            start = i + 1;
            assert(chars@.subrange(start as int, i + 1) =~= Seq::<char>::empty());
        } else {
            assert(chars@.subrange(start as int, i + 1) =~= chars@.subrange(start as int, i as int).push(chars@[i as int]));
        }
        i = i + 1;
    }
    assert(trimmed.take(end - lo) =~= trimmed);
    let mut name: Vec<char> = Vec::new();
    let mut j: usize = start;
    while j < end
        invariant
            start <= j <= end <= chars.len(),
            name@ == chars@.subrange(start as int, j as int),
        decreases end - j,
    {
        name.push(chars[j]);
        assert(name@ =~= chars@.subrange(start as int, j + 1));
        j = j + 1;
    }
    let ghost component = name@;
    if name.len() == 0 || (name.len() == 1 && name[0] == '.') || (name.len() == 2 && name[0] == '.' && name[1] == '.') {
        proof {
            if name.len() == 2 && component[0] == '.' && component[1] == '.' {
                assert(component =~= seq!['.', '.']);
            }
            if name.len() == 1 && component[0] == '.' {
                assert(component =~= seq!['.']);
            }
        }
        None
    } else {
        proof {
            if component == seq!['.', '.'] {
                assert(component[0] == '.' && component[1] == '.');
            }
            if component == seq!['.'] {
                assert(component[0] == '.');
            }
        }
        Some(crate::text::string_of(name.as_slice()))
    }
}

/// What `humantime::parse_duration` reads from a text: whole seconds and
/// nanoseconds, or `None` where it reports an error.
pub uninterp spec fn humantime_duration(text: Seq<char>) -> Option<(u64, u32)>;

/// The most significant digits a duration field may hold. The zeros that
/// come before the text's first non-zero digit add nothing to any number
/// that `humantime::parse_duration` reads; with at most eleven digits from
/// there on, the numbers it reads add up to below 10^11 units (and fractions
/// to below one unit each), so the seconds it sums stay below 3.2 * 10^18
/// (a year is 31 557 600 seconds), far from the `u64` overflow on which it
/// panics.
pub const MAX_DURATION_DIGITS: usize = 11;

/// Whether a character is an ASCII decimal digit.
pub open spec fn is_decimal_digit(c: char) -> bool {
    '0' <= c && c <= '9'
}

/// How many ASCII decimal digits a text holds.
pub open spec fn digit_count(s: Seq<char>) -> nat
    decreases s.len(),
{
    if s.len() == 0 {
        0
    } else {
        digit_count(s.drop_last()) + if is_decimal_digit(s.last()) { 1nat } else { 0nat }
    }
}

/// Counts the ASCII decimal digits of a text.
pub fn count_digits(s: &str) -> (r: usize)
    ensures
        r == digit_count(s@),
{
    let chars = crate::text::chars_of(s);
    let mut count: usize = 0;
    let mut i: usize = 0;
    while i < chars.len()
        invariant
            i <= chars.len(),
            chars@ == s@,
            count == digit_count(chars@.take(i as int)),
            count <= i,
        decreases chars.len() - i,
    {
        assert(chars@.take(i as int + 1).drop_last() =~= chars@.take(i as int));
        let c = chars[i];
        if '0' <= c && c <= '9' {
            count = count + 1;
        }
        i = i + 1;
    }
    assert(chars@.take(chars.len() as int) =~= chars@);
    count
}

/// How many ASCII decimal digits a text holds from its first non-zero digit
/// on.
pub open spec fn significant_digits(s: Seq<char>) -> nat
    decreases s.len(),
{
    if s.len() == 0 {
        0
    } else if '1' <= s[0] && s[0] <= '9' {
        digit_count(s)
    } else {
        significant_digits(s.drop_first())
    }
}

/// Counts the ASCII decimal digits of a text from its first non-zero digit on.
pub fn count_significant_digits(s: &str) -> (r: usize)
    ensures
        r == significant_digits(s@),
{
    let chars = crate::text::chars_of(s);
    let n = chars.len();
    let mut i: usize = 0;
    assert(chars@.subrange(0, n as int) =~= s@);
    while i < n && !('1' <= chars[i] && chars[i] <= '9')
        invariant
            i <= n == chars@.len(),
            chars@ == s@,
            significant_digits(chars@.subrange(i as int, n as int)) == significant_digits(s@),
        decreases n - i,
    {
        assert(chars@.subrange(i as int, n as int).drop_first() =~= chars@.subrange(i + 1, n as int));
        i = i + 1;
    }
    if i == n {
        return 0;
    }
    let mut count: usize = 0;
    let mut j: usize = i;
    while j < n
        invariant
            i <= j <= n == chars@.len(),
            count == digit_count(chars@.subrange(i as int, j as int)),
            count <= j - i,
        decreases n - j,
    {
        assert(chars@.subrange(i as int, j + 1).drop_last() =~= chars@.subrange(i as int, j as int));
        let c = chars[j];
        if '0' <= c && c <= '9' {
            count = count + 1;
        }
        j = j + 1;
    }
    count
}

/// Reads a human-friendly duration such as `120s` or `1000ms`.
///
/// Trusted: `humantime::parse_duration`; its result, taken apart with
/// `Duration::as_secs` and `Duration::subsec_nanos`, is a function of the
/// text named [`humantime_duration`]. Stated beyond the name: the text `0`
/// reads as zero (the function's first test), and the nanoseconds are below
/// one billion (a property of every `Duration`). The parser panics when the
/// seconds it adds up carry past `u64::MAX`, so the text is limited to
/// [`MAX_DURATION_DIGITS`] significant digits, under which no sum comes near
/// that.
#[verifier::external_body]
fn human_duration(text: &str) -> (r: Option<(u64, u32)>)
    requires
        significant_digits(text@) <= MAX_DURATION_DIGITS,
    ensures
        r == humantime_duration(text@),
        text@ == "0"@ ==> r == Some((0u64, 0u32)),
        r matches Some((_, nanos)) ==> nanos < 1_000_000_000,
{
    match humantime::parse_duration(text) {
        Ok(d) => Some((d.as_secs(), d.subsec_nanos())),
        Err(_) => None,
    }
}

/// Whole milliseconds of a duration given as seconds and nanoseconds,
/// saturating at the largest `u64`.
pub open spec fn duration_millis(secs: u64, nanos: u32) -> nat {
    let ms = secs * 1000 + nanos / 1_000_000;
    if ms <= u64::MAX { ms as nat } else { u64::MAX as nat }
}

/// The milliseconds that a duration field gives: the parsed duration, or
/// the default when the text does not read as one or holds more than
/// [`MAX_DURATION_DIGITS`] significant digits.
pub open spec fn duration_field_ms(text: Seq<char>, default_ms: u64) -> nat {
    if significant_digits(text) > MAX_DURATION_DIGITS {
        default_ms as nat
    } else {
        match humantime_duration(text) {
            Some((secs, nanos)) => duration_millis(secs, nanos),
            None => default_ms as nat,
        }
    }
}

/// Milliseconds of a duration typed into a field, with a default for text
/// that does not read as a duration or that holds more than
/// [`MAX_DURATION_DIGITS`] significant digits.
pub fn parse_dur(s: &str, default_ms: u64) -> (r: u64)
    ensures
        r == duration_field_ms(s@, default_ms),
{
    if count_significant_digits(s) > MAX_DURATION_DIGITS {
        return default_ms;
    }
    match human_duration(s) {
        Some((secs, nanos)) => {
            let ms: u128 = (secs as u128) * 1000 + (nanos as u128) / 1_000_000;
            crate::operations::duration_ms(ms)
        },
        None => default_ms,
    }
}

} // verus!
