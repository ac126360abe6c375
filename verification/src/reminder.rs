//! When a reminder set for a time of day is to fire.
//!
//! A reminder fires in the five minutes that begin at its time of day, and
//! once on any calendar day. The five minutes never run over the end of the
//! hour: a reminder set for 10:58 can fire at 10:58 and 10:59 and at no
//! other minute.

use crate::text::{ascii_bytes, read_unsigned, spells, unsigned_decimal};
use vstd::prelude::*;
use vstd::utf8::*;

verus! {

/// The minutes during which a reminder may fire, counted from its time of day.
pub const FIRING_WINDOW_MINUTES: u32 = 5;

/// A day of the week.
#[derive(Clone, Copy, Debug, PartialEq, Eq, Structural)]
pub enum Weekday {
    Mon,
    Tue,
    Wed,
    Thu,
    Fri,
    Sat,
    Sun,
}

/// The only colon of `s` stands at `i`.
pub open spec fn sole_colon(s: Seq<char>, i: int) -> bool {
    &&& 0 <= i < s.len()
    &&& s[i] == ':'
    &&& forall|j: int| 0 <= j < s.len() && j != i ==> s[j] != ':'
}

/// The hour and minute that a text of the form `HH:MM` names: two unsigned
/// decimal numbers with one colon between them. Neither number is held to a
/// range, so `25:99` names hour 25 and minute 99, which no clock shows.
pub open spec fn time_of_day(s: Seq<char>) -> Option<(u32, u32)> {
    if exists|i: int| sole_colon(s, i) {
        let i = choose|i: int| sole_colon(s, i);
        match (unsigned_decimal(s.take(i)), unsigned_decimal(s.skip(i + 1))) {
            (Some(hour), Some(minute)) => Some((hour, minute)),
            _ => None,
        }
    } else {
        None
    }
}

/// A text that names a time of day is ASCII throughout.
pub proof fn lemma_time_of_day_is_ascii(s: Seq<char>)
    requires
        time_of_day(s) is Some,
    ensures
        is_ascii_chars(s),
{
    let i = choose|i: int| sole_colon(s, i);
    let hour = s.take(i);
    let minute = s.skip(i + 1);
    assert forall|j: int| 0 <= j < s.len() implies '\0' <= #[trigger] s[j] <= '\u{7f}' by {
        if j < i {
            assert(s[j] == hour[j]);
            if hour[0] == '+' {
                if j > 0 {
                    assert(hour.skip(1)[j - 1] == hour[j]);
                }
            }
        } else if j > i {
            assert(s[j] == minute[j - i - 1]);
            if minute[0] == '+' {
                if j > i + 1 {
                    assert(minute.skip(1)[j - i - 2] == minute[j - i - 1]);
                }
            }
        }
    }
}

/// Reads a time of day from a text of the form `HH:MM`.
pub fn parse_time(time_str: &str) -> (r: Option<(u32, u32)>)
    ensures
        r == time_of_day(time_str@),
{
    let ghost s = time_str@;
    let bytes = match ascii_bytes(time_str) {
        Some(bytes) => bytes,
        None => {
            proof {
                if time_of_day(s) is Some {
                    lemma_time_of_day_is_ascii(s);
                }
            }
            return None;
        },
    };
    let n: usize = bytes.len();
    let mut i: usize = 0;
    while i < n && bytes[i] != 58u8
        invariant
            spells(bytes@, s),
            n == bytes@.len(),
            i <= n,
            forall|j: int| 0 <= j < i ==> s[j] != ':',
        decreases n - i,
    {
        i = i + 1;
    }
    if i == n {
        return None;
    }
    assert(s[i as int] == ':');
    let mut k: usize = i + 1;
    while k < n
        invariant
            spells(bytes@, s),
            n == bytes@.len(),
            i < k <= n,
            s == time_str@,
            s[i as int] == ':',
            forall|j: int| 0 <= j < i ==> s[j] != ':',
            forall|j: int| i < j < k ==> s[j] != ':',
        decreases n - k,
    {
        if bytes[k] == 58u8 {
            assert(s[k as int] == ':');
            assert(forall|c: int| !sole_colon(s, c));
            return None;
        }
        k = k + 1;
    }
    proof {
        assert(sole_colon(s, i as int));
        let c = choose|c: int| sole_colon(s, c);
        assert(c == i);
        assert(s.take(i as int) =~= s.subrange(0, i as int));
        assert(s.skip(i + 1) =~= s.subrange(i + 1, n as int));
    }
    let hour = read_unsigned(bytes, 0, i, Ghost(s));
    let minute = read_unsigned(bytes, i + 1, n, Ghost(s));
    match (hour, minute) {
        (Some(hour), Some(minute)) => Some((hour, minute)),
        _ => None,
    }
}

/// The small letter of a capital ASCII letter, and any other character as it is.
pub open spec fn lowered(c: char) -> char {
    if 'A' <= c <= 'Z' {
        ((c as int) + 32) as char
    } else {
        c
    }
}

/// `s` is `word` but for the case of its ASCII letters. `word` is in small letters.
pub open spec fn reads_as(s: Seq<char>, word: Seq<char>) -> bool {
    &&& s.len() == word.len()
    &&& forall|i: int| 0 <= i < s.len() ==> lowered(#[trigger] s[i]) == word[i]
}

/// The day of the week that a text names. The seven English names count,
/// written in full and in capital or small letters; any other text names no
/// day.
pub open spec fn named_day(s: Seq<char>) -> Option<Weekday> {
    if reads_as(s, "monday"@) {
        Some(Weekday::Mon)
    } else if reads_as(s, "tuesday"@) {
        Some(Weekday::Tue)
    } else if reads_as(s, "wednesday"@) {
        Some(Weekday::Wed)
    } else if reads_as(s, "thursday"@) {
        Some(Weekday::Thu)
    } else if reads_as(s, "friday"@) {
        Some(Weekday::Fri)
    } else if reads_as(s, "saturday"@) {
        Some(Weekday::Sat)
    } else if reads_as(s, "sunday"@) {
        Some(Weekday::Sun)
    } else {
        None
    }
}

/// The English name of a day of the week, in small letters.
pub open spec fn day_name(day: Weekday) -> Seq<char> {
    match day {
        Weekday::Mon => "monday"@,
        Weekday::Tue => "tuesday"@,
        Weekday::Wed => "wednesday"@,
        Weekday::Thu => "thursday"@,
        Weekday::Fri => "friday"@,
        Weekday::Sat => "saturday"@,
        Weekday::Sun => "sunday"@,
    }
}

/// Day names are matched exactly: a text names a day if and only if it is
/// that day's name but for the case of its letters.
pub proof fn law_day_name_is_exact(s: Seq<char>, day: Weekday)
    ensures
        named_day(s) == Some(day) <==> reads_as(s, day_name(day)),
{
    reveal_strlit("monday");
    reveal_strlit("tuesday");
    reveal_strlit("wednesday");
    reveal_strlit("thursday");
    reveal_strlit("friday");
    reveal_strlit("saturday");
    reveal_strlit("sunday");
    assert("monday"@.len() == 6 && "monday"@[0] == 'm');
    assert("tuesday"@.len() == 7 && "tuesday"@[0] == 't');
    assert("wednesday"@.len() == 9 && "wednesday"@[0] == 'w');
    assert("thursday"@.len() == 8 && "thursday"@[0] == 't');
    assert("friday"@.len() == 6 && "friday"@[0] == 'f');
    assert("saturday"@.len() == 8 && "saturday"@[0] == 's');
    assert("sunday"@.len() == 6 && "sunday"@[0] == 's' && "sunday"@[1] == 'u');
    assert("saturday"@[1] == 'a');
    if s.len() > 1 {
        let first = lowered(s[0]);
        let second = lowered(s[1]);
        assert(reads_as(s, "monday"@) ==> first == 'm');
        assert(reads_as(s, "friday"@) ==> first == 'f');
        assert(reads_as(s, "sunday"@) ==> first == 's');
        assert(reads_as(s, "thursday"@) ==> first == 't');
        assert(reads_as(s, "saturday"@) ==> first == 's');
    }
}

/// Day names are matched without regard to case: two texts that differ in
/// nothing but the case of their ASCII letters name the same day, or both none.
pub proof fn law_day_name_ignores_case(a: Seq<char>, b: Seq<char>)
    requires
        a.len() == b.len(),
        forall|i: int| 0 <= i < a.len() ==> lowered(a[i]) == lowered(b[i]),
    ensures
        named_day(a) == named_day(b),
{
    assert forall|word: Seq<char>| reads_as(a, word) == reads_as(b, word) by {
        if reads_as(a, word) {
            assert forall|i: int| 0 <= i < b.len() implies lowered(#[trigger] b[i]) == word[i] by {
                assert(lowered(a[i]) == word[i]);
            }
        }
        if reads_as(b, word) {
            assert forall|i: int| 0 <= i < a.len() implies lowered(#[trigger] a[i]) == word[i] by {
                assert(lowered(b[i]) == word[i]);
            }
        }
    }
}

/// A text that reads as an ASCII word is ASCII itself.
pub proof fn lemma_reads_as_ascii(s: Seq<char>, word: Seq<char>)
    requires
        reads_as(s, word),
        is_ascii_chars(word),
    ensures
        is_ascii_chars(s),
{
    assert forall|i: int| 0 <= i < s.len() implies '\0' <= #[trigger] s[i] <= '\u{7f}' by {
        assert(lowered(s[i]) == word[i]);
    }
}

/// Whether `chars` is `word` but for the case of its letters.
fn is_word(bytes: &[u8], word: &str, Ghost(chars): Ghost<Seq<char>>) -> (r: bool)
    requires
        spells(bytes@, chars),
        is_ascii_chars(word@),
    ensures
        r == reads_as(chars, word@),
{
    let letters = match ascii_bytes(word) {
        Some(letters) => letters,
        None => {
            return false;
        },
    };
    let n: usize = bytes.len();
    if n != letters.len() {
        return false;
    }
    let mut i: usize = 0;
    while i < n
        invariant
            spells(bytes@, chars),
            spells(letters@, word@),
            n == bytes@.len(),
            n == letters@.len(),
            i <= n,
            forall|j: int| 0 <= j < i ==> lowered(#[trigger] chars[j]) == word@[j],
        decreases n - i,
    {
        let b: u8 = bytes[i];
        let small: u8 = if 65u8 <= b && b <= 90u8 {
            b + 32u8
        } else {
            b
        };
        assert(lowered(chars[i as int]) as int == small as int);
        assert(word@[i as int] as int == letters@[i as int] as int);
        if small != letters[i] {
            assert(lowered(chars[i as int]) != word@[i as int]);
            return false;
        }
        i = i + 1;
    }
    true
}

/// The day of the week that a text names, if it names one.
pub fn day_of(name: &str) -> (r: Option<Weekday>)
    ensures
        r == named_day(name@),
{
    proof {
        reveal_strlit("monday");
        reveal_strlit("tuesday");
        reveal_strlit("wednesday");
        reveal_strlit("thursday");
        reveal_strlit("friday");
        reveal_strlit("saturday");
        reveal_strlit("sunday");
    }
    let ghost s = name@;
    let bytes = match ascii_bytes(name) {
        Some(bytes) => bytes,
        None => {
            proof {
                if named_day(s) is Some {
                    let word = if reads_as(s, "monday"@) {
                        "monday"@
                    } else if reads_as(s, "tuesday"@) {
                        "tuesday"@
                    } else if reads_as(s, "wednesday"@) {
                        "wednesday"@
                    } else if reads_as(s, "thursday"@) {
                        "thursday"@
                    } else if reads_as(s, "friday"@) {
                        "friday"@
                    } else if reads_as(s, "saturday"@) {
                        "saturday"@
                    } else {
                        "sunday"@
                    };
                    lemma_reads_as_ascii(s, word);
                }
            }
            return None;
        },
    };
    if is_word(bytes, "monday", Ghost(s)) {
        Some(Weekday::Mon)
    } else if is_word(bytes, "tuesday", Ghost(s)) {
        Some(Weekday::Tue)
    } else if is_word(bytes, "wednesday", Ghost(s)) {
        Some(Weekday::Wed)
    } else if is_word(bytes, "thursday", Ghost(s)) {
        Some(Weekday::Thu)
    } else if is_word(bytes, "friday", Ghost(s)) {
        Some(Weekday::Fri)
    } else if is_word(bytes, "saturday", Ghost(s)) {
        Some(Weekday::Sat)
    } else if is_word(bytes, "sunday", Ghost(s)) {
        Some(Weekday::Sun)
    } else {
        None
    }
}

/// Whether a text names the given day of the week.
pub fn day_matches(day_str: &str, weekday: Weekday) -> (r: bool)
    ensures
        r == (named_day(day_str@) == Some(weekday)),
{
    match day_of(day_str) {
        Some(day) => day == weekday,
        None => false,
    }
}

/// The clock shows a minute in which a reminder set for `target_hour` and
/// `target_minute` may fire.
pub open spec fn in_firing_window(hour: int, minute: int, target_hour: int, target_minute: int) -> bool {
    hour == target_hour && target_minute <= minute < target_minute + FIRING_WINDOW_MINUTES
}

/// Whether the clock shows a minute in which a reminder set for the target
/// time may fire.
pub fn within_firing_window(hour: u32, minute: u32, target_hour: u32, target_minute: u32) -> (r:
    bool)
    ensures
        r == in_firing_window(hour as int, minute as int, target_hour as int, target_minute as int),
{
    hour == target_hour && minute >= target_minute && minute - target_minute
        < FIRING_WINDOW_MINUTES
}

} // verus!
