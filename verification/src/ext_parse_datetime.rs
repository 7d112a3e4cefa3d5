//! What the library takes from `parse_datetime`.
use vstd::prelude::*;
use chrono::{TimeZone, Timelike};
use crate::ext_chrono::Instant;
use crate::numbers::{digits_value, is_digit};
use crate::text::chars_of;

verus! {

/// A blank that a regular expression's `\s` matches, among ASCII characters.
pub open spec fn is_ascii_blank(c: char) -> bool {
    c == ' ' || c == '\t' || c == '\n' || c == '\r' || c == '\x0B' || c == '\x0C'
}

pub open spec fn is_ascii_letter(c: char) -> bool {
    ('a' <= c && c <= 'z') || ('A' <= c && c <= 'Z')
}

/// What follows a run of digits cannot make it an amount of time: after any
/// ASCII blanks comes the end of the text, or an ASCII character that is not
/// a letter (every unit of time is written with letters).
pub open spec fn no_unit_follows(t: Seq<char>) -> bool
    decreases t.len(),
{
    if t.len() == 0 {
        true
    } else if is_ascii_blank(t[0]) {
        no_unit_follows(t.drop_first())
    } else {
        (t[0] as u32) < 128 && !is_ascii_letter(t[0])
    }
}

/// How many decimal digits `s` starts with.
pub open spec fn leading_digits(s: Seq<char>) -> nat
    decreases s.len(),
{
    if s.len() > 0 && is_digit(s[0]) {
        leading_digits(s.drop_first()) + 1
    } else {
        0
    }
}

/// The largest sum of amounts of time that a moment may carry.
pub const MAX_AMOUNT_WEIGHT: u64 = 280_000_000;

/// The longest moment, in characters, that is read.
pub const MAX_MOMENT_CHARS: usize = 40_000_000;

/// The latest second at which a weekday name is read: a week and a day
/// before the last second that `chrono` can represent.
pub const LATEST_WEEKDAY_BASE: i64 = 8_210_266_185_599;

/// The value of a run of digits is at least that of any of its beginnings.
pub proof fn lemma_digits_value_prefix(s: Seq<char>, k: int)
    requires
        0 <= k <= s.len(),
    ensures
        digits_value(s.take(k)) <= digits_value(s),
    decreases s.len(),
{
    if k < s.len() {
        lemma_digits_value_prefix(s.drop_last(), k);
        assert(s.drop_last().take(k) =~= s.take(k));
    } else {
        assert(s.take(k) =~= s);
    }
}

/// A run of digits has at most as many digits as the text has characters,
/// and at least one where the text starts with a digit.
pub proof fn lemma_leading_digits_bounds(s: Seq<char>)
    ensures
        leading_digits(s) <= s.len(),
        s.len() > 0 && is_digit(s[0]) ==> leading_digits(s) >= 1,
    decreases s.len(),
{
    if s.len() > 0 && is_digit(s[0]) {
        lemma_leading_digits_bounds(s.drop_first());
    }
}

/// The sum of the amounts of time that `s` may write: the values of the
/// whole runs of ASCII digits after which a unit of time may follow.
pub open spec fn amount_weight(s: Seq<char>) -> nat
    decreases s.len(),
{
    if s.len() == 0 {
        0
    } else if is_digit(s[0]) {
        let d = leading_digits(s);
        proof {
            lemma_leading_digits_bounds(s);
        }
        (if no_unit_follows(s.skip(d as int)) { 0 } else { digits_value(s.take(d as int)) }) + amount_weight(
            s.skip(d as int),
        )
    } else {
        amount_weight(s.drop_first())
    }
}

/// Every span of time that a moment of this text may add up stays far
/// within what `chrono::TimeDelta` holds: the text is not too long, and its
/// amounts of time do not weigh too much.
pub open spec fn spans_in_range(s: Seq<char>) -> bool {
    s.len() <= MAX_MOMENT_CHARS && amount_weight(s) <= MAX_AMOUNT_WEIGHT
}

/// Where the run of digits that starts at `i` ends.
fn digits_end(chars: &Vec<char>, i: usize) -> (j: usize)
    requires
        i <= chars@.len(),
    ensures
        i <= j <= chars@.len(),
        j - i == leading_digits(chars@.skip(i as int)),
        forall|k: int| i <= k < j ==> is_digit(#[trigger] chars@[k]),
{
    let n = chars.len();
    let mut j: usize = i;
    while j < n && '0' <= chars[j] && chars[j] <= '9'
        invariant
            i <= j <= n,
            n == chars@.len(),
            leading_digits(chars@.skip(i as int)) == (j - i) + leading_digits(chars@.skip(j as int)),
            forall|k: int| i <= k < j ==> is_digit(#[trigger] chars@[k]),
        decreases n - j,
    {
        assert(chars@.skip(j as int).drop_first() =~= chars@.skip(j + 1));
        j = j + 1;
    }
    j
}

/// The value of the digits `chars[i..j]`, or `None` where it is above `cap`.
fn digits_value_capped(chars: &Vec<char>, i: usize, j: usize, cap: u64) -> (r: Option<u64>)
    requires
        i <= j <= chars@.len(),
        cap <= MAX_AMOUNT_WEIGHT,
        forall|k: int| i <= k < j ==> is_digit(#[trigger] chars@[k]),
    ensures
        r matches Some(v) ==> v == digits_value(chars@.subrange(i as int, j as int)) && v <= cap,
        r is None ==> digits_value(chars@.subrange(i as int, j as int)) > cap,
{
    let mut acc: u64 = 0;
    let mut k: usize = i;
    assert(chars@.subrange(i as int, i as int) =~= Seq::<char>::empty());
    while k < j
        invariant
            i <= k <= j <= chars@.len(),
            cap <= MAX_AMOUNT_WEIGHT,
            forall|m: int| i <= m < j ==> is_digit(#[trigger] chars@[m]),
            acc == digits_value(chars@.subrange(i as int, k as int)),
            acc <= cap,
        decreases j - k,
    {
        let c = chars[k];
        assert(is_digit(chars@[k as int]));
        assert(chars@.subrange(i as int, k + 1).drop_last() =~= chars@.subrange(i as int, k as int));
        let next = acc * 10 + ((c as u32) - 48) as u64;
        k = k + 1;
        if next > cap {
            proof {
                lemma_digits_value_prefix(chars@.subrange(i as int, j as int), k - i);
                assert(chars@.subrange(i as int, j as int).take(k - i) =~= chars@.subrange(i as int, k as int));
            }
            return None;
        }
        acc = next;
    }
    Some(acc)
}

/// Whether a unit of time may follow position `j`: after any ASCII blanks
/// comes an ASCII letter or a character that is not ASCII.
fn unit_may_follow(chars: &Vec<char>, j: usize) -> (r: bool)
    requires
        j <= chars@.len(),
    ensures
        r == !no_unit_follows(chars@.skip(j as int)),
{
    let n = chars.len();
    let mut k: usize = j;
    while k < n && (chars[k] == ' ' || chars[k] == '\t' || chars[k] == '\n' || chars[k] == '\r' || chars[k] == '\x0B'
        || chars[k] == '\x0C')
        invariant
            j <= k <= n,
            n == chars@.len(),
            no_unit_follows(chars@.skip(j as int)) == no_unit_follows(chars@.skip(k as int)),
        decreases n - k,
    {
        assert(chars@.skip(k as int).drop_first() =~= chars@.skip(k + 1));
        k = k + 1;
    }
    if k == n {
        false
    } else {
        let c = chars[k];
        let letter = ('a' <= c && c <= 'z') || ('A' <= c && c <= 'Z');
        !((c as u32) < 128 && !letter)
    }
}

/// Whether every span of time that a moment of `text` may add up stays in
/// range ([`spans_in_range`]).
pub fn has_spans_in_range(text: &str) -> (r: bool)
    ensures
        r == spans_in_range(text@),
{
    let chars = chars_of(text);
    let n = chars.len();
    if n > MAX_MOMENT_CHARS {
        return false;
    }
    let mut i: usize = 0;
    let mut weight: u64 = 0;
    assert(chars@.skip(0) =~= chars@);
    while i < n
        invariant
            i <= n,
            n == chars@.len(),
            chars@ == text@,
            n <= MAX_MOMENT_CHARS,
            weight <= MAX_AMOUNT_WEIGHT,
            weight + amount_weight(chars@.skip(i as int)) == amount_weight(chars@),
        decreases n - i,
    {
        let ghost rest = chars@.skip(i as int);
        let c = chars[i];
        if '0' <= c && c <= '9' {
            let j = digits_end(&chars, i);
            proof {
                lemma_leading_digits_bounds(rest);
            }
            assert(rest.skip((j - i) as int) =~= chars@.skip(j as int));
            if unit_may_follow(&chars, j) {
                assert(rest.take((j - i) as int) =~= chars@.subrange(i as int, j as int));
                match digits_value_capped(&chars, i, j, MAX_AMOUNT_WEIGHT - weight) {
                    Some(v) => {
                        weight = weight + v;
                    },
                    None => {
                        return false;
                    },
                }
            }
            i = j;
        } else {
            assert(rest.drop_first() =~= chars@.skip(i + 1));
            i = i + 1;
        }
    }
    assert(chars@.skip(n as int) =~= Seq::<char>::empty());
    true
}

/// A character that `str::trim` may take off the ends of a text: an ASCII
/// blank, or any character outside ASCII (among which Unicode's other white
/// space).
pub open spec fn trimmable(c: char) -> bool {
    is_ascii_blank(c) || (c as u32) >= 128
}

/// `s` without the trimmable characters at either end.
pub open spec fn trimmed(s: Seq<char>) -> Seq<char>
    decreases s.len(),
{
    if s.len() == 0 {
        s
    } else if trimmable(s[0]) {
        trimmed(s.drop_first())
    } else if trimmable(s.last()) {
        trimmed(s.drop_last())
    } else {
        s
    }
}

/// `a`, written in either case, is the lowercase ASCII letter `b`.
pub open spec fn same_letter(a: char, b: char) -> bool {
    a == b || ('A' <= a && a <= 'Z' && (a as u32) + 32 == (b as u32))
}

/// `t` is the lowercase word `name`, written in either case.
pub open spec fn same_word(t: Seq<char>, name: Seq<char>) -> bool {
    t.len() == name.len() && forall|i: int| 0 <= i < t.len() ==> same_letter(#[trigger] t[i], name[i])
}

/// The names of the days of the week that `parse_datetime` reads, from
/// `0` to `17`.
pub open spec fn weekday_name(k: int) -> Seq<char> {
    if k == 0 {
        "monday"@
    } else if k == 1 {
        "mon"@
    } else if k == 2 {
        "tuesday"@
    } else if k == 3 {
        "tues"@
    } else if k == 4 {
        "tue"@
    } else if k == 5 {
        "wednesday"@
    } else if k == 6 {
        "wednes"@
    } else if k == 7 {
        "wed"@
    } else if k == 8 {
        "thursday"@
    } else if k == 9 {
        "thurs"@
    } else if k == 10 {
        "thur"@
    } else if k == 11 {
        "thu"@
    } else if k == 12 {
        "friday"@
    } else if k == 13 {
        "fri"@
    } else if k == 14 {
        "saturday"@
    } else if k == 15 {
        "sat"@
    } else if k == 16 {
        "sunday"@
    } else {
        "sun"@
    }
}

/// The name of [`weekday_name`] `k`.
fn weekday_name_str(k: usize) -> (r: &'static str)
    requires
        k < 18,
    ensures
        r@ == weekday_name(k as int),
{
    match k {
        0 => "monday",
        1 => "mon",
        2 => "tuesday",
        3 => "tues",
        4 => "tue",
        5 => "wednesday",
        6 => "wednes",
        7 => "wed",
        8 => "thursday",
        9 => "thurs",
        10 => "thur",
        11 => "thu",
        12 => "friday",
        13 => "fri",
        14 => "saturday",
        15 => "sat",
        16 => "sunday",
        _ => "sun",
    }
}

/// The text may name a day of the week: without trimmable characters at its
/// ends, it is one of the names of [`weekday_name`] in either case. Every text that
/// `parse_datetime` reads as a weekday (after `trim` and `to_lowercase`) is
/// one of these, as no character outside ASCII lowercases into a weekday's
/// letters.
pub open spec fn weekday_text(s: Seq<char>) -> bool {
    exists|k: int| 0 <= k < 18 && same_word(trimmed(s), #[trigger] weekday_name(k))
}

/// Whether `chars[start..end]` is the lowercase word `name` in either case.
fn same_word_at(chars: &Vec<char>, start: usize, end: usize, name: &str) -> (r: bool)
    requires
        start <= end <= chars@.len(),
    ensures
        r == same_word(chars@.subrange(start as int, end as int), name@),
{
    let name_chars = chars_of(name);
    if end - start != name_chars.len() {
        return false;
    }
    let ghost t = chars@.subrange(start as int, end as int);
    let mut i: usize = 0;
    while i < name_chars.len()
        invariant
            i <= name_chars@.len(),
            name_chars@ == name@,
            end - start == name_chars@.len(),
            start <= end <= chars@.len(),
            t == chars@.subrange(start as int, end as int),
            forall|k: int| 0 <= k < i ==> same_letter(#[trigger] t[k], name_chars@[k]),
        decreases name_chars@.len() - i,
    {
        let a = chars[start + i];
        let b = name_chars[i];
        assert(t[i as int] == a);
        if !(a == b || ('A' <= a && a <= 'Z' && (a as u32) + 32 == (b as u32))) {
            return false;
        }
        i = i + 1;
    }
    true
}

/// Where the text starts and ends once the trimmable characters at its ends
/// are taken off.
fn trimmed_bounds(chars: &Vec<char>) -> (r: (usize, usize))
    ensures
        r.0 <= r.1 <= chars@.len(),
        trimmed(chars@) == chars@.subrange(r.0 as int, r.1 as int),
{
    let n = chars.len();
    let mut start: usize = 0;
    let mut end: usize = n;
    assert(chars@.subrange(0, n as int) =~= chars@);
    while start < end && ((chars[start] as u32) >= 128 || chars[start] == ' ' || chars[start] == '\t'
        || chars[start] == '\n' || chars[start] == '\r' || chars[start] == '\x0B' || chars[start] == '\x0C')
        invariant
            start <= end == n == chars@.len(),
            trimmed(chars@) == trimmed(chars@.subrange(start as int, end as int)),
        decreases end - start,
    {
        let ghost t = chars@.subrange(start as int, end as int);
        assert(t.drop_first() =~= chars@.subrange(start + 1, end as int));
        start = start + 1;
    }
    while start < end && ((chars[end - 1] as u32) >= 128 || chars[end - 1] == ' ' || chars[end - 1] == '\t'
        || chars[end - 1] == '\n' || chars[end - 1] == '\r' || chars[end - 1] == '\x0B' || chars[end - 1] == '\x0C')
        invariant
            start <= end <= n == chars@.len(),
            start < end ==> !trimmable(chars@[start as int]),
            trimmed(chars@) == trimmed(chars@.subrange(start as int, end as int)),
        decreases end - start,
    {
        let ghost t = chars@.subrange(start as int, end as int);
        assert(t.drop_last() =~= chars@.subrange(start as int, end - 1));
        end = end - 1;
    }
    (start, end)
}

/// Whether `text` may name a day of the week ([`weekday_text`]).
pub fn is_weekday_text(text: &str) -> (r: bool)
    ensures
        r == weekday_text(text@),
{
    let chars = chars_of(text);
    let (start, end) = trimmed_bounds(&chars);
    let ghost t = trimmed(text@);
    let mut k: usize = 0;
    while k < 18
        invariant
            k <= 18,
            chars@ == text@,
            start <= end <= chars@.len(),
            t == chars@.subrange(start as int, end as int),
            t == trimmed(text@),
            forall|m: int| 0 <= m < k ==> !same_word(t, #[trigger] weekday_name(m)),
        decreases 18 - k,
    {
        if same_word_at(&chars, start, end, weekday_name_str(k)) {
            assert(same_word(t, weekday_name(k as int)));
            return true;
        }
        k = k + 1;
    }
    false
}

/// The knowledge that midnight of the local day of an instant exists, as a
/// single moment, in the machine's time zone.
pub struct LocalMidnight {
    now: Instant,
}

impl LocalMidnight {
    /// The instant whose day it is the midnight of.
    pub closed spec fn instant(self) -> Instant {
        self.now
    }
}

/// Asks `chrono` for midnight of the local day of `now`:
/// `Local.timestamp_opt(..).single()`, then `with_hour(0)`, `with_minute(0)`,
/// `with_second(0)` and `with_nanosecond(0)`, each of which gives `None`
/// where the local time it makes does not exist or happens twice. Whether it
/// does rests on the machine's time zone, so only this is promised: what
/// comes back is about `now`.
#[verifier::external_body]
pub(crate) fn local_midnight(now: Instant) -> (r: Option<LocalMidnight>)
    ensures
        r matches Some(m) ==> m.instant() == now,
{
    let date = chrono::Local.timestamp_opt(now.secs, now.nanos).single()?;
    date.with_hour(0)?.with_minute(0)?.with_second(0)?.with_nanosecond(0)?;
    Some(LocalMidnight { now })
}

/// `parse_datetime::parse_datetime_at_date(now, text)`, where `now` is the
/// given instant in the local time zone: the moment that `text` names (a
/// date, a time, a weekday, or a span such as "in 3 hours"), or `None` where
/// it names none. The answer depends on the local time zone of the machine,
/// so nothing more is promised of it.
///
/// The source panics on some inputs, which `requires` leaves out:
/// - a span is built with `TimeDelta::days`, `TimeDelta::weeks` and the
///   like from amounts multiplied in `i64`, and the spans are added up with
///   a check, but the last addition of a day at most is not checked:
///   [`spans_in_range`] keeps every amount, every product and the whole sum
///   within range (the amounts add up to at most 280 million, a year of
///   31,536,000 seconds is the largest unit, and no unit without an amount
///   counts more than a year for four characters, so the spans stay below
///   9.15e15 seconds where `TimeDelta` holds 9.22e15);
/// - for a weekday name it sets the local time to midnight and unwraps, and
///   then adds up to six days without a check: `midnight` must show that the
///   midnight of `now` existed when [`local_midnight`] was asked, and `now`
///   must lie a week and a day before the end of `chrono`'s range. Should the
///   machine's time zone change between the two calls, the source may still
///   panic; nothing here can rule that out.
#[verifier::external_body]
pub(crate) fn parse_datetime_at(now: Instant, text: &str, midnight: Option<LocalMidnight>) -> (r: Option<Instant>)
    requires
        spans_in_range(text@),
        weekday_text(text@) ==> (midnight matches Some(m) && m.instant() == now && now.secs <= LATEST_WEEKDAY_BASE),
{
    let _ = midnight;
    let now = chrono::Local.timestamp_opt(now.secs, now.nanos).single()?;
    let moment = parse_datetime::parse_datetime_at_date(now, text).ok()?;
    Some(Instant { secs: moment.timestamp(), nanos: moment.timestamp_subsec_nanos() })
}

} // verus!
