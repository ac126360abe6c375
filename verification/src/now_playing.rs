//! Reading what the music player says it plays.
//!
//! The player answers on one line: title, artist, album, year, duration and
//! position, with three bars between each two. Any other answer means that
//! nothing plays.

use crate::text::{chars_of, parse_unsigned, unsigned_decimal};
use vstd::prelude::*;
use vstd::string::*;

verus! {

/// White space as Unicode defines it.
pub open spec fn is_space(c: char) -> bool {
    let code = c as u32;
    ||| 0x09 <= code <= 0x0d
    ||| code == 0x20
    ||| code == 0x85
    ||| code == 0xa0
    ||| code == 0x1680
    ||| 0x2000 <= code <= 0x200a
    ||| code == 0x2028
    ||| code == 0x2029
    ||| code == 0x202f
    ||| code == 0x205f
    ||| code == 0x3000
}

/// Whether the character is white space.
pub fn is_whitespace(c: char) -> (r: bool)
    ensures
        r == is_space(c),
{
    let code: u32 = c as u32;
    (0x09 <= code && code <= 0x0d) || code == 0x20 || code == 0x85 || code == 0xa0 || code
        == 0x1680 || (0x2000 <= code && code <= 0x200a) || code == 0x2028 || code == 0x2029
        || code == 0x202f || code == 0x205f || code == 0x3000
}

/// Where the text begins once the white space from `i` on is passed over.
pub open spec fn text_start(s: Seq<char>, i: int) -> int
    decreases s.len() - i,
{
    if 0 <= i < s.len() && is_space(s[i]) {
        text_start(s, i + 1)
    } else {
        i
    }
}

/// Where the text that begins at `from` ends once the white space before `j`
/// is passed over.
pub open spec fn text_end(s: Seq<char>, from: int, j: int) -> int
    decreases j - from,
{
    if from < j <= s.len() && is_space(s[j - 1]) {
        text_end(s, from, j - 1)
    } else {
        j
    }
}

/// The text without the white space at its beginning and at its end.
pub open spec fn trimmed(s: Seq<char>) -> Seq<char> {
    let from = text_start(s, 0);
    s.subrange(from, text_end(s, from, s.len() as int))
}

/// Three bars stand at `i`.
pub open spec fn bars_at(s: Seq<char>, i: int) -> bool {
    &&& 0 <= i
    &&& i + 3 <= s.len()
    &&& s[i] == '|'
    &&& s[i + 1] == '|'
    &&& s[i + 2] == '|'
}

/// The fields of `s` from the one that begins at `start`, no three bars
/// standing between `start` and `i`.
pub open spec fn fields_from(s: Seq<char>, start: int, i: int) -> Seq<Seq<char>>
    decreases s.len() - i,
{
    if i < 0 || i + 3 > s.len() {
        seq![s.subrange(start, s.len() as int)]
    } else if bars_at(s, i) {
        seq![s.subrange(start, i)] + fields_from(s, i + 3, i + 3)
    } else {
        fields_from(s, start, i + 1)
    }
}

/// The fields of a line: what stands between its groups of three bars, the
/// groups taken from the left.
pub open spec fn fields(s: Seq<char>) -> Seq<Seq<char>> {
    fields_from(s, 0, 0)
}

/// The year that a field writes, where it writes one after year zero.
pub open spec fn year_of(field: Seq<char>) -> Option<i32> {
    match unsigned_decimal(field) {
        Some(year) => if 0 < year <= i32::MAX {
            Some(year as i32)
        } else {
            None
        },
        None => None,
    }
}

/// What plays.
#[derive(Debug, Clone, PartialEq, Eq)]
pub struct Track {
    pub title: String,
    pub artist: String,
    pub album: String,
    pub album_year: Option<i32>,
    /// The length of the track in seconds, as the player wrote it.
    pub duration: String,
    /// The position in the track in seconds, as the player wrote it.
    pub position: String,
}

/// What plays, as plain values.
pub struct TrackView {
    pub title: Seq<char>,
    pub artist: Seq<char>,
    pub album: Seq<char>,
    pub album_year: Option<i32>,
    pub duration: Seq<char>,
    pub position: Seq<char>,
}

impl View for Track {
    type V = TrackView;

    open spec fn view(&self) -> TrackView {
        TrackView {
            title: self.title@,
            artist: self.artist@,
            album: self.album@,
            album_year: self.album_year,
            duration: self.duration@,
            position: self.position@,
        }
    }
}

/// What the player's answer says: a track where the answer, white space at
/// its ends apart, has six fields or more, and nothing otherwise. Fields
/// after the sixth are not looked at.
pub open spec fn track_of(answer: Seq<char>) -> Option<TrackView> {
    let parts = fields(trimmed(answer));
    if parts.len() >= 6 {
        Some(
            TrackView {
                title: parts[0],
                artist: parts[1],
                album: parts[2],
                album_year: year_of(parts[3]),
                duration: parts[4],
                position: parts[5],
            },
        )
    } else {
        None
    }
}

/// The view of a track that may be absent.
pub open spec fn track_view(track: Option<Track>) -> Option<TrackView> {
    match track {
        Some(track) => Some(track@),
        None => None,
    }
}

/// A line has one field at least.
pub proof fn lemma_fields_from_nonempty(s: Seq<char>, start: int, i: int)
    ensures
        fields_from(s, start, i).len() >= 1,
    decreases s.len() - i,
{
    if i < 0 || i + 3 > s.len() {
    } else if bars_at(s, i) {
    } else {
        lemma_fields_from_nonempty(s, start, i + 1);
    }
}

/// The year that a field writes, where it writes one after year zero.
pub fn parse_year(field: &str) -> (r: Option<i32>)
    ensures
        r == year_of(field@),
{
    match parse_unsigned(field) {
        Some(year) => if 0 < year && year <= 2147483647u32 {
            Some(year as i32)
        } else {
            None
        },
        None => None,
    }
}

/// Reads the player's answer.
pub fn parse_now_playing(answer: &str) -> (r: Option<Track>)
    ensures
        track_view(r) == track_of(answer@),
{
    let ghost s = answer@;
    let chars = chars_of(answer);
    let n: usize = chars.len();
    let mut from: usize = 0;
    while from < n && is_whitespace(chars[from])
        invariant
            chars@ == s,
            n == s.len(),
            from <= n,
            text_start(s, 0) == text_start(s, from as int),
        decreases n - from,
    {
        from = from + 1;
    }
    let mut to: usize = n;
    while from < to && is_whitespace(chars[to - 1])
        invariant
            chars@ == s,
            n == s.len(),
            from <= to <= n,
            text_end(s, from as int, n as int) == text_end(s, from as int, to as int),
        decreases to,
    {
        to = to - 1;
    }
    let ghost line = s.subrange(from as int, to as int);
    assert(line == trimmed(s));
    let mut bounds: Vec<(usize, usize)> = Vec::new();
    let mut start: usize = from;
    let mut i: usize = from;
    let ghost mut done: Seq<Seq<char>> = Seq::empty();
    assert(done + fields_from(line, 0, 0) =~= fields(line));
    while bounds.len() < 6 && to - i >= 3
        invariant
            chars@ == s,
            n == s.len(),
            from <= start <= i <= to <= n,
            line == s.subrange(from as int, to as int),
            bounds@.len() == done.len(),
            bounds@.len() <= 6,
            fields(line) == done + fields_from(line, start - from, i - from),
            forall|k: int|
                0 <= k < bounds@.len() ==> from <= (#[trigger] bounds@[k]).0 <= bounds@[k].1 <= to
                    && done[k] == s.subrange(bounds@[k].0 as int, bounds@[k].1 as int),
        decreases to - i,
    {
        assert(line[i - from] == s[i as int]);
        assert(line[i - from + 1] == s[i + 1]);
        assert(line[i - from + 2] == s[i + 2]);
        if chars[i] == '|' && chars[i + 1] == '|' && chars[i + 2] == '|' {
            proof {
                let field = line.subrange(start - from, i - from);
                assert(field =~= s.subrange(start as int, i as int));
                assert(done + (seq![field] + fields_from(line, i + 3 - from, i + 3 - from))
                    =~= done.push(field) + fields_from(line, i + 3 - from, i + 3 - from));
                done = done.push(field);
            }
            bounds.push((start, i));
            start = i + 3;
            i = i + 3;
        } else {
            i = i + 1;
        }
    }
    if bounds.len() < 6 {
        proof {
            let field = line.subrange(start - from, line.len() as int);
            assert(field =~= s.subrange(start as int, to as int));
            assert(fields_from(line, start - from, i - from) =~= seq![field]);
            assert(done + seq![field] =~= done.push(field));
            done = done.push(field);
        }
        bounds.push((start, to));
        assert(fields(line) == done);
    } else {
        proof {
            lemma_fields_from_nonempty(line, start - from, i - from);
        }
    }
    if bounds.len() < 6 {
        return None;
    }
    assert(fields(line).len() >= 6);
    assert(forall|k: int| 0 <= k < 6 ==> fields(line)[k] == done[k]);
    let title = answer.substring_char(bounds[0].0, bounds[0].1).to_owned();
    let artist = answer.substring_char(bounds[1].0, bounds[1].1).to_owned();
    let album = answer.substring_char(bounds[2].0, bounds[2].1).to_owned();
    let album_year = parse_year(answer.substring_char(bounds[3].0, bounds[3].1));
    let duration = answer.substring_char(bounds[4].0, bounds[4].1).to_owned();
    let position = answer.substring_char(bounds[5].0, bounds[5].1).to_owned();
    Some(Track { title, artist, album, album_year, duration, position })
}

} // verus!
