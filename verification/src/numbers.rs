//! Decimal parsing of numeric settings.
//!
//! Configuration values arrive as text; the parsers here accept exactly the
//! strings the standard decimal syntax admits — an optional sign followed by
//! digits, within the target type's range — and state the value they yield.

use vstd::prelude::*;

verus! {

/// The numeric value of a decimal digit character, if it is one.
pub open spec fn digit_value(c: char) -> Option<nat> {
    if '0' <= c && c <= '9' {
        Some((c as int - '0' as int) as nat)
    } else {
        None
    }
}

/// The value of an all-digit character sequence, most significant first;
/// nothing if the sequence is empty or holds a non-digit.
pub open spec fn digits_value(s: Seq<char>) -> Option<nat>
    decreases s.len(),
{
    if s.len() == 0 {
        None
    } else if s.len() == 1 {
        digit_value(s[0])
    } else {
        match (digits_value(s.drop_last()), digit_value(s.last())) {
            (Some(high), Some(low)) => Some(high * 10 + low),
            _ => None,
        }
    }
}

/// What an unsigned decimal parse yields: the digits' value, after an
/// optional leading plus, when it does not exceed `max`.
pub open spec fn parse_decimal(s: Seq<char>, max: nat) -> Option<nat> {
    let digits = if s.len() > 0 && s[0] == '+' {
        s.drop_first()
    } else {
        s
    };
    match digits_value(digits) {
        Some(v) => if v <= max {
            Some(v)
        } else {
            None
        },
        None => None,
    }
}

/// What a 32-bit signed decimal parse yields: the digits' value, after an
/// optional sign, when it lies in the type's range.
pub open spec fn parse_i32_value(s: Seq<char>) -> Option<int> {
    if s.len() > 0 && s[0] == '-' {
        match digits_value(s.drop_first()) {
            Some(v) => if v <= 0x8000_0000 {
                Some(-(v as int))
            } else {
                None
            },
            None => None,
        }
    } else {
        match parse_decimal(s, 0x7fff_ffff) {
            Some(v) => Some(v as int),
            None => None,
        }
    }
}

proof fn lemma_digits_value_none_at(s: Seq<char>, j: int)
    requires
        0 <= j < s.len(),
        digit_value(s[j]) is None,
    ensures
        digits_value(s) is None,
    decreases s.len(),
{
    if s.len() > 1 && j < s.len() - 1 {
        lemma_digits_value_none_at(s.drop_last(), j);
    }
}

proof fn lemma_digits_value_grows(s: Seq<char>, i: int, j: int, v: nat)
    requires
        0 <= i <= j <= s.len(),
        digits_value(s.take(i)) == Some(v),
    ensures
        digits_value(s.take(j)) matches Some(w) ==> w >= v,
    decreases j - i,
{
    if i < j {
        let prev = s.take(j - 1);
        assert(s.take(j).drop_last() =~= prev);
        lemma_digits_value_grows(s, i, j - 1, v);
    }
}

fn parse_digits(s: &str, start: usize, max: u64) -> (r: Option<u64>)
    requires
        start <= s@.len(),
        max <= 0xffff_ffff,
    ensures
        r matches Some(v) ==> digits_value(s@.skip(start as int)) == Some(v as nat) && v <= max,
        r is None ==> (digits_value(s@.skip(start as int)) is None || (digits_value(
            s@.skip(start as int),
        ) matches Some(v) && v > max)),
{
    let ghost tail = s@.skip(start as int);
    let len = s.unicode_len();
    let mut i: usize = start;
    let mut acc: u64 = 0;
    while i < len
        invariant
            start <= i <= len,
            len == s@.len(),
            tail == s@.skip(start as int),
            max <= 0xffff_ffff,
            acc <= max,
            i == start ==> acc == 0,
            i > start ==> digits_value(tail.take(i - start as int)) == Some(acc as nat),
        decreases len - i,
    {
        let c = s.get_char(i);
        let ghost j = i - start as int;
        proof {
            assert(tail[j] == s@[i as int]);
            assert(tail.take(j + 1).drop_last() =~= tail.take(j));
            assert(tail.take(j + 1).last() == tail[j]);
        }
        if c < '0' || c > '9' {
            proof {
                lemma_digits_value_none_at(tail, j);
            }
            return None;
        }
        let d = (c as u32 - '0' as u32) as u64;
        let next = acc * 10 + d;
        proof {
            assert(digit_value(tail[j]) == Some(d as nat));
            let t1 = tail.take(j + 1);
            assert(t1.len() == j + 1);
            if j == 0 {
                assert(t1 =~= seq![tail[0]]);
                assert(t1[0] == tail[0]);
                assert(digits_value(t1) == digit_value(tail[0]));
            } else {
                assert(t1.drop_last() =~= tail.take(j));
                assert(t1.last() == tail[j]);
                assert(digits_value(t1.drop_last()) == Some(acc as nat));
                assert(digit_value(t1.last()) == Some(d as nat));
                assert(digits_value(t1) == Some((acc as nat) * 10 + (d as nat)));
            }
            assert(digits_value(t1) == Some(next as nat));
        }
        if next > max {
            proof {
                lemma_digits_value_grows(tail, j + 1, tail.len() as int, next as nat);
                assert(tail.take(tail.len() as int) =~= tail);
            }
            return None;
        }
        acc = next;
        i = i + 1;
    }
    if i == start {
        // No digits at all.
        return None;
    }
    proof {
        assert(tail.take(i - start as int) =~= tail);
    }
    Some(acc)
}

/// Parses an unsigned 16-bit decimal value, as a listening port is given.
pub fn parse_u16(s: &str) -> (r: Option<u16>)
    ensures
        r matches Some(v) ==> parse_decimal(s@, u16::MAX as nat) == Some(v as nat),
        r is None ==> parse_decimal(s@, u16::MAX as nat) is None,
{
    let len = s.unicode_len();
    let start: usize = if len > 0 && s.get_char(0) == '+' {
        1
    } else {
        0
    };
    proof {
        if start == 1 {
            assert(s@.skip(1) =~= s@.drop_first());
        } else {
            assert(s@.skip(0) =~= s@);
        }
    }
    match parse_digits(s, start, 65535) {
        Some(v) => Some(v as u16),
        None => None,
    }
}

/// Parses a signed 32-bit decimal value, as a replication factor is given.
pub fn parse_i32(s: &str) -> (r: Option<i32>)
    ensures
        r matches Some(v) ==> parse_i32_value(s@) == Some(v as int),
        r is None ==> parse_i32_value(s@) is None,
{
    let len = s.unicode_len();
    if len > 0 && s.get_char(0) == '-' {
        proof {
            assert(s@.skip(1) =~= s@.drop_first());
        }
        match parse_digits(s, 1, 0x8000_0000) {
            Some(v) => Some((-(v as i64)) as i32),
            None => None,
        }
    } else {
        let start: usize = if len > 0 && s.get_char(0) == '+' {
            1
        } else {
            0
        };
        proof {
            if start == 1 {
                assert(s@.skip(1) =~= s@.drop_first());
            } else {
                assert(s@.skip(0) =~= s@);
            }
        }
        match parse_digits(s, start, 0x7fff_ffff) {
            Some(v) => Some(v as i32),
            None => None,
        }
    }
}

} // verus!
