//! Reading plain text: decimal numbers, letters without regard to case,
//! prefixes, and the order in which names sort.

use vstd::prelude::*;
use vstd::string::*;
use vstd::utf8::*;

verus! {

/// `bytes` spells `chars`: one byte for each character, of the same value.
pub open spec fn spells(bytes: Seq<u8>, chars: Seq<char>) -> bool {
    &&& bytes.len() == chars.len()
    &&& forall|i: int| 0 <= i < chars.len() ==> (#[trigger] chars[i]) as int == bytes[i] as int
}

/// The bytes of a text that is ASCII throughout, and nothing for any other text.
pub fn ascii_bytes(text: &str) -> (r: Option<&[u8]>)
    ensures
        r is Some <==> is_ascii_chars(text@),
        r matches Some(bytes) ==> spells(bytes@, text@),
{
    if text.is_ascii() {
        let bytes = text.as_bytes();
        proof {
            is_ascii_chars_encode_utf8(text@);
            is_ascii_chars_nat_bound(text@);
            assert forall|i: int| 0 <= i < text@.len() implies (#[trigger] text@[i]) as int
                == bytes@[i] as int by {
                assert(text@[i] as u8 == encode_utf8(text@)[i]);
                assert((text@.index(i) as nat) < 128);
            }
        }
        Some(bytes)
    } else {
        None
    }
}

/// Whether two texts hold the same characters.
pub fn same_text(a: &str, b: &str) -> (r: bool)
    ensures
        r == (a@ == b@),
{
    let left = a.as_bytes();
    let right = b.as_bytes();
    proof {
        encode_utf8_decode_utf8(a@);
        encode_utf8_decode_utf8(b@);
    }
    let n: usize = left.len();
    if n != right.len() {
        return false;
    }
    let mut i: usize = 0;
    while i < n
        invariant
            left@ == encode_utf8(a@),
            right@ == encode_utf8(b@),
            n == left@.len(),
            n == right@.len(),
            i <= n,
            forall|j: int| 0 <= j < i ==> left@[j] == right@[j],
        decreases n - i,
    {
        if left[i] != right[i] {
            return false;
        }
        i = i + 1;
    }
    assert(left@ =~= right@);
    true
}

/// `text` begins with `prefix`.
pub open spec fn begins_with(text: Seq<char>, prefix: Seq<char>) -> bool {
    &&& prefix.len() <= text.len()
    &&& forall|i: int| 0 <= i < prefix.len() ==> text[i] == prefix[i]
}

/// Whether `text` begins with `prefix`.
pub fn has_prefix(text: &str, prefix: &str) -> (r: bool)
    ensures
        r == begins_with(text@, prefix@),
{
    let n: usize = prefix.unicode_len();
    if text.unicode_len() < n {
        return false;
    }
    let mut i: usize = 0;
    while i < n
        invariant
            n == prefix@.len(),
            n <= text@.len(),
            i <= n,
            forall|j: int| 0 <= j < i ==> text@[j] == prefix@[j],
        decreases n - i,
    {
        if text.get_char(i) != prefix.get_char(i) {
            return false;
        }
        i = i + 1;
    }
    true
}

/// `text` ends with `suffix`.
pub open spec fn ends_with(text: Seq<char>, suffix: Seq<char>) -> bool {
    &&& suffix.len() <= text.len()
    &&& forall|i: int|
        0 <= i < suffix.len() ==> text[text.len() - suffix.len() + i] == suffix[i]
}

/// Whether `text` ends with `suffix`.
pub fn has_suffix(text: &str, suffix: &str) -> (r: bool)
    ensures
        r == ends_with(text@, suffix@),
{
    let n: usize = text.unicode_len();
    let m: usize = suffix.unicode_len();
    if n < m {
        return false;
    }
    let start: usize = n - m;
    let mut i: usize = 0;
    while i < m
        invariant
            n == text@.len(),
            m == suffix@.len(),
            start == n - m,
            i <= m,
            forall|j: int| 0 <= j < i ==> text@[start + j] == suffix@[j],
        decreases m - i,
    {
        if text.get_char(start + i) != suffix.get_char(i) {
            return false;
        }
        i = i + 1;
    }
    true
}

/// `a` and `b` agree on their first `k` bytes, and there `a` ends while `b`
/// goes on, or `a` has the lesser byte.
pub open spec fn parts_before(a: Seq<u8>, b: Seq<u8>, k: int) -> bool {
    &&& 0 <= k <= a.len()
    &&& k < b.len()
    &&& forall|i: int| 0 <= i < k ==> a[i] == b[i]
    &&& (k == a.len() || a[k] < b[k])
}

/// `a` sorts before `b`, byte by byte.
pub open spec fn sorts_before(a: Seq<u8>, b: Seq<u8>) -> bool {
    exists|k: int| parts_before(a, b, k)
}

/// The text `a` sorts before the text `b`: the order of their UTF-8 bytes,
/// which is the order in which the standard library sorts strings.
pub open spec fn text_before(a: Seq<char>, b: Seq<char>) -> bool {
    sorts_before(encode_utf8(a), encode_utf8(b))
}

/// Nothing sorts before itself.
pub proof fn lemma_sorts_before_irreflexive(a: Seq<u8>)
    ensures
        !sorts_before(a, a),
{
}

/// What sorts before a thing that sorts before a third sorts before the third.
pub proof fn lemma_sorts_before_transitive(a: Seq<u8>, b: Seq<u8>, c: Seq<u8>)
    requires
        sorts_before(a, b),
        sorts_before(b, c),
    ensures
        sorts_before(a, c),
{
    let k1 = choose|k: int| parts_before(a, b, k);
    let k2 = choose|k: int| parts_before(b, c, k);
    let k = if k1 <= k2 {
        k1
    } else {
        k2
    };
    assert(parts_before(a, c, k));
}

/// Of two byte strings that differ, one sorts before the other.
pub proof fn lemma_sorts_before_total(a: Seq<u8>, b: Seq<u8>)
    ensures
        sorts_before(a, b) || sorts_before(b, a) || a == b,
    decreases a.len(),
{
    if a.len() == 0 {
        if b.len() > 0 {
            assert(parts_before(a, b, 0));
        } else {
            assert(a =~= b);
        }
    } else if b.len() == 0 {
        assert(parts_before(b, a, 0));
    } else if a[0] < b[0] {
        assert(parts_before(a, b, 0));
    } else if b[0] < a[0] {
        assert(parts_before(b, a, 0));
    } else {
        let x = a.skip(1);
        let y = b.skip(1);
        lemma_sorts_before_total(x, y);
        if sorts_before(x, y) {
            let k = choose|k: int| parts_before(x, y, k);
            assert forall|i: int| 0 <= i < k + 1 implies a[i] == b[i] by {
                if i > 0 {
                    assert(x[i - 1] == y[i - 1]);
                }
            }
            if k < x.len() {
                assert(x[k] == a[k + 1] && y[k] == b[k + 1]);
            }
            assert(parts_before(a, b, k + 1));
        } else if sorts_before(y, x) {
            let k = choose|k: int| parts_before(y, x, k);
            assert forall|i: int| 0 <= i < k + 1 implies b[i] == a[i] by {
                if i > 0 {
                    assert(y[i - 1] == x[i - 1]);
                }
            }
            if k < y.len() {
                assert(y[k] == b[k + 1] && x[k] == a[k + 1]);
            }
            assert(parts_before(b, a, k + 1));
        } else {
            assert(a =~= seq![a[0]] + x);
            assert(b =~= seq![b[0]] + y);
        }
    }
}

/// Whether the text `a` sorts before the text `b`.
pub fn comes_before(a: &str, b: &str) -> (r: bool)
    ensures
        r == text_before(a@, b@),
{
    let left = a.as_bytes();
    let right = b.as_bytes();
    let n: usize = left.len();
    let m: usize = right.len();
    let mut i: usize = 0;
    while i < n && i < m
        invariant
            left@ == encode_utf8(a@),
            right@ == encode_utf8(b@),
            n == left@.len(),
            m == right@.len(),
            i <= n,
            i <= m,
            forall|j: int| 0 <= j < i ==> left@[j] == right@[j],
        decreases n - i,
    {
        if left[i] != right[i] {
            let less: bool = left[i] < right[i];
            proof {
                if less {
                    assert(parts_before(left@, right@, i as int));
                } else {
                    assert forall|k: int| !parts_before(left@, right@, k) by {
                        if parts_before(left@, right@, k) {
                            if k > i {
                                assert(left@[i as int] == right@[i as int]);
                            }
                        }
                    }
                }
            }
            return less;
        }
        i = i + 1;
    }
    proof {
        if n < m {
            assert(parts_before(left@, right@, n as int));
        } else {
            assert forall|k: int| !parts_before(left@, right@, k) by {
                if parts_before(left@, right@, k) {
                    assert(k < m);
                    assert(left@[k] == right@[k]);
                }
            }
        }
    }
    n < m
}

/// The characters of a text, one by one.
pub fn chars_of(text: &str) -> (r: Vec<char>)
    ensures
        r@ == text@,
{
    broadcast use vstd::string::group_string_axioms;

    let mut all: Vec<char> = Vec::new();
    for c in it: text.chars()
        invariant
            it.seq() == text@,
            all@ == text@.take(it.index()),
    {
        all.push(c);
        assert(text@.take(it.index() + 1) =~= text@.take(it.index()).push(c));
    }
    assert(text@.take(text@.len() as int) =~= text@);
    all
}

/// A decimal digit, `0` to `9`.
pub open spec fn is_digit(c: char) -> bool {
    '0' <= c <= '9'
}

/// What a decimal digit counts for.
pub open spec fn digit_value(c: char) -> nat {
    (c as int - '0' as int) as nat
}

/// Every character is a decimal digit.
pub open spec fn all_digits(s: Seq<char>) -> bool {
    forall|i: int| 0 <= i < s.len() ==> is_digit(#[trigger] s[i])
}

/// The number that a run of decimal digits writes, most significant digit first.
pub open spec fn decimal(digits: Seq<char>) -> nat
    decreases digits.len(),
{
    if digits.len() == 0 {
        0
    } else {
        decimal(digits.drop_last()) * 10 + digit_value(digits.last())
    }
}

/// The text without one leading plus sign.
pub open spec fn unsigned_digits(s: Seq<char>) -> Seq<char> {
    if s.len() > 0 && s[0] == '+' {
        s.skip(1)
    } else {
        s
    }
}

/// The number that a text writes: an optional plus sign, then one or more
/// decimal digits and nothing else, with a value that a `u32` holds.
pub open spec fn unsigned_decimal(s: Seq<char>) -> Option<u32> {
    let digits = unsigned_digits(s);
    if digits.len() > 0 && all_digits(digits) && decimal(digits) <= u32::MAX {
        Some(decimal(digits) as u32)
    } else {
        None
    }
}

/// A text that writes a number is ASCII throughout.
pub proof fn lemma_unsigned_decimal_is_ascii(s: Seq<char>)
    requires
        unsigned_decimal(s) is Some,
    ensures
        is_ascii_chars(s),
{
    let digits = unsigned_digits(s);
    assert forall|i: int| 0 <= i < s.len() implies '\0' <= #[trigger] s[i] <= '\u{7f}' by {
        if s[0] == '+' {
            if i > 0 {
                assert(digits[i - 1] == s[i]);
                assert(is_digit(digits[i - 1]));
            }
        } else {
            assert(digits[i] == s[i]);
            assert(is_digit(digits[i]));
        }
    }
}

/// Reads an unsigned decimal number: an optional plus sign, then digits.
pub fn parse_unsigned(text: &str) -> (r: Option<u32>)
    ensures
        r == unsigned_decimal(text@),
{
    match ascii_bytes(text) {
        Some(bytes) => {
            assert(text@.subrange(0, text@.len() as int) =~= text@);
            read_unsigned(bytes, 0, bytes.len(), Ghost(text@))
        },
        None => {
            proof {
                if unsigned_decimal(text@) is Some {
                    lemma_unsigned_decimal_is_ascii(text@);
                }
            }
            None
        },
    }
}

/// A run of digits writes no less than any of its beginnings.
pub proof fn lemma_decimal_grows(digits: Seq<char>, k: int)
    requires
        all_digits(digits),
        0 <= k <= digits.len(),
    ensures
        decimal(digits.take(k)) <= decimal(digits),
    decreases digits.len() - k,
{
    if k == digits.len() {
        assert(digits.take(k) =~= digits);
    } else {
        lemma_decimal_grows(digits, k + 1);
        assert(digits.take(k + 1).drop_last() =~= digits.take(k));
    }
}

/// Reads `chars[from..to]` as an unsigned decimal number.
pub(crate) fn read_unsigned(
    bytes: &[u8],
    from: usize,
    to: usize,
    Ghost(chars): Ghost<Seq<char>>,
) -> (r: Option<u32>)
    requires
        spells(bytes@, chars),
        from <= to <= bytes@.len(),
    ensures
        r == unsigned_decimal(chars.subrange(from as int, to as int)),
{
    let ghost whole = chars.subrange(from as int, to as int);
    let mut start: usize = from;
    if start < to && bytes[start] == 43u8 {
        assert(whole[0] == chars[from as int]);
        start = start + 1;
    } else if start < to {
        assert(whole[0] == chars[from as int]);
    }
    let ghost digits = chars.subrange(start as int, to as int);
    assert(digits =~= unsigned_digits(whole));
    if start == to {
        return None;
    }
    let mut value: u32 = 0;
    let mut i: usize = start;
    while i < to
        invariant
            spells(bytes@, chars),
            from <= start <= i <= to <= bytes@.len(),
            digits == chars.subrange(start as int, to as int),
            digits == unsigned_digits(chars.subrange(from as int, to as int)),
            all_digits(digits.take(i - start)),
            value == decimal(digits.take(i - start)),
        decreases to - i,
    {
        let b: u8 = bytes[i];
        assert(digits[i - start] == chars[i as int]);
        if b < 48u8 || b > 57u8 {
            assert(!is_digit(digits[i - start]));
            return None;
        }
        let d: u32 = (b - 48u8) as u32;
        proof {
            let before = digits.take(i - start);
            let after = digits.take(i - start + 1);
            assert(after.drop_last() =~= before);
            assert(after.last() == digits[i - start]);
            assert(decimal(after) == value * 10 + d);
            assert forall|j: int| 0 <= j < after.len() implies is_digit(#[trigger] after[j]) by {
                if j < before.len() {
                    assert(after[j] == before[j]);
                }
            }
            if all_digits(digits) {
                lemma_decimal_grows(digits, i - start + 1);
            }
        }
        if value > 429496729u32 || (value == 429496729u32 && d > 5u32) {
            return None;
        }
        value = value * 10 + d;
        i = i + 1;
    }
    assert(digits.take(i - start) =~= digits);
    Some(value)
}

} // verus!
