//! Decimal numbers in argument text, and the brightness range.

use vstd::prelude::*;

verus! {

/// The largest brightness level a display is asked to take.
pub const MAX_BRIGHTNESS: u16 = 100;

pub open spec fn is_digit(c: char) -> bool {
    '0' <= c && c <= '9'
}

/// A non-empty run of ASCII digits.
pub open spec fn all_digits(s: Seq<char>) -> bool {
    s.len() > 0 && forall|i: int| 0 <= i < s.len() ==> is_digit(#[trigger] s[i])
}

/// The value of a run of digits, most significant first.
pub open spec fn digits_value(s: Seq<char>) -> int
    decreases s.len(),
{
    if s.len() == 0 {
        0
    } else {
        digits_value(s.drop_last()) * 10 + (s.last() as int - '0' as int)
    }
}

/// `v` limited to the brightness range.
pub open spec fn clamp_level(v: int) -> int {
    if v < 0 {
        0
    } else if v > MAX_BRIGHTNESS as int {
        MAX_BRIGHTNESS as int
    } else {
        v
    }
}

/// The level that results from moving `current` by `delta`, kept within
/// `0..=100`.
pub fn adjusted(current: u16, delta: i16) -> (r: u16)
    ensures
        r as int == clamp_level(current as int + delta as int),
        r <= MAX_BRIGHTNESS,
{
    let sum: i32 = current as i32 + delta as i32;
    if sum < 0 {
        0
    } else if sum > MAX_BRIGHTNESS as i32 {
        MAX_BRIGHTNESS
    } else {
        sum as u16
    }
}

/// A longer run of digits is worth at least as much as its prefix.
pub proof fn lemma_prefix_value_le(s: Seq<char>, k: int)
    requires
        all_digits(s),
        0 <= k <= s.len(),
    ensures
        digits_value(s.take(k)) <= digits_value(s),
    decreases s.len(),
{
    if k < s.len() {
        let t = s.drop_last();
        assert(t.take(k) =~= s.take(k));
        if t.len() > 0 {
            assert forall|i: int| 0 <= i < t.len() implies is_digit(#[trigger] t[i]) by {
                assert(t[i] == s[i]);
            }
            lemma_prefix_value_le(t, k);
        } else {
            assert(s.take(k) =~= Seq::<char>::empty());
        }
        assert(is_digit(s[s.len() - 1]));
        lemma_value_nonneg(t);
    } else {
        assert(s.take(k) =~= s);
    }
}

/// The value of a run of digits is never negative.
pub proof fn lemma_value_nonneg(s: Seq<char>)
    requires
        forall|i: int| 0 <= i < s.len() ==> is_digit(#[trigger] s[i]),
    ensures
        digits_value(s) >= 0,
    decreases s.len(),
{
    if s.len() > 0 {
        let t = s.drop_last();
        assert forall|i: int| 0 <= i < t.len() implies is_digit(#[trigger] t[i]) by {
            assert(t[i] == s[i]);
        }
        lemma_value_nonneg(t);
        assert(is_digit(s[s.len() - 1]));
    }
}

/// Reads the characters of `s` from `start` to its end as a decimal number
/// no greater than `limit`.
///
/// Returns `None` when that text is empty, holds anything but digits, or is
/// worth more than `limit`.
pub fn read_digits(s: &str, start: usize, limit: u32) -> (r: Option<u32>)
    requires
        start <= s@.len(),
        limit <= 1_000_000,
    ensures
        match r {
            Some(v) => all_digits(s@.skip(start as int)) && v as int == digits_value(
                s@.skip(start as int),
            ) && v <= limit,
            None => !(all_digits(s@.skip(start as int)) && digits_value(s@.skip(start as int))
                <= limit as int),
        },
{
    let len = s.unicode_len();
    if start == len {
        return None;
    }
    let ghost rest = s@.skip(start as int);
    let mut i: usize = start;
    let mut acc: u32 = 0;
    while i < len
        invariant
            start < len,
            len == s@.len(),
            rest == s@.skip(start as int),
            limit <= 1_000_000,
            start <= i <= len,
            acc <= limit,
            acc as int == digits_value(rest.take(i - start)),
            forall|j: int| 0 <= j < i - start ==> is_digit(#[trigger] rest[j]),
        decreases len - i,
    {
        let c = s.get_char(i);
        assert(c == rest[i - start]);
        if c < '0' || c > '9' {
            assert(!all_digits(rest));
            return None;
        }
        let d: u32 = (c as u32) - ('0' as u32);
        let next: u32 = acc * 10 + d;
        let ghost k = i - start;
        assert(rest.take(k + 1).drop_last() =~= rest.take(k));
        assert(next as int == digits_value(rest.take(k + 1)));
        if next > limit {
            proof {
                if all_digits(rest) {
                    lemma_prefix_value_le(rest, k + 1);
                }
            }
            return None;
        }
        acc = next;
        i = i + 1;
    }
    assert(rest.take(len - start) =~= rest);
    Some(acc)
}

/// The value of an optionally signed decimal text: a `+` or a `-`, or no
/// sign, then one or more digits.
pub open spec fn signed_text_value(s: Seq<char>) -> Option<int> {
    if s.len() > 0 && s[0] == '+' && all_digits(s.skip(1)) {
        Some(digits_value(s.skip(1)))
    } else if s.len() > 0 && s[0] == '-' && all_digits(s.skip(1)) {
        Some(-digits_value(s.skip(1)))
    } else if all_digits(s) {
        Some(digits_value(s))
    } else {
        None
    }
}

/// The value of a decimal text without a minus sign: an optional `+`, then
/// one or more digits.
pub open spec fn unsigned_text_value(s: Seq<char>) -> Option<int> {
    if s.len() > 0 && s[0] == '+' && all_digits(s.skip(1)) {
        Some(digits_value(s.skip(1)))
    } else if all_digits(s) {
        Some(digits_value(s))
    } else {
        None
    }
}

/// The signed 16-bit number that `s` spells, if any.
pub open spec fn delta_of(s: Seq<char>) -> Option<i16> {
    match signed_text_value(s) {
        Some(v) => if i16::MIN <= v <= i16::MAX {
            Some(v as i16)
        } else {
            None
        },
        None => None,
    }
}

/// The unsigned 16-bit number that `s` spells, if any.
pub open spec fn level_of(s: Seq<char>) -> Option<u16> {
    match unsigned_text_value(s) {
        Some(v) => if v <= u16::MAX {
            Some(v as u16)
        } else {
            None
        },
        None => None,
    }
}

/// Reads a signed brightness change such as `+10` or `-5`.
pub fn parse_delta(s: &str) -> (r: Option<i16>)
    ensures
        r == delta_of(s@),
{
    let len = s.unicode_len();
    if len == 0 {
        return None;
    }
    let first = s.get_char(0);
    if first == '+' {
        let r = read_digits(s, 1, 32767);
        proof {
            lemma_value_nonneg_if_digits(s@.skip(1));
        }
        match r {
            Some(v) => Some(v as i16),
            None => None,
        }
    } else if first == '-' {
        let r = read_digits(s, 1, 32768);
        proof {
            lemma_value_nonneg_if_digits(s@.skip(1));
        }
        match r {
            Some(v) => Some((0 - v as i32) as i16),
            None => None,
        }
    } else {
        let r = read_digits(s, 0, 32767);
        assert(s@.skip(0) =~= s@);
        proof {
            lemma_value_nonneg_if_digits(s@);
        }
        match r {
            Some(v) => Some(v as i16),
            None => None,
        }
    }
}

/// Reads an unsigned 16-bit number such as `50` or `+50`.
pub fn parse_level(s: &str) -> (r: Option<u16>)
    ensures
        r == level_of(s@),
{
    let len = s.unicode_len();
    if len == 0 {
        return None;
    }
    let first = s.get_char(0);
    if first == '+' {
        let r = read_digits(s, 1, 65535);
        proof {
            lemma_value_nonneg_if_digits(s@.skip(1));
        }
        match r {
            Some(v) => Some(v as u16),
            None => None,
        }
    } else {
        let r = read_digits(s, 0, 65535);
        assert(s@.skip(0) =~= s@);
        proof {
            lemma_value_nonneg_if_digits(s@);
        }
        match r {
            Some(v) => Some(v as u16),
            None => None,
        }
    }
}

proof fn lemma_value_nonneg_if_digits(s: Seq<char>)
    ensures
        all_digits(s) ==> digits_value(s) >= 0,
{
    if all_digits(s) {
        lemma_value_nonneg(s);
    }
}

} // verus!
