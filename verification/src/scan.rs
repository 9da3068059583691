//! In-place parsing of the textual attribute records the process
//! pseudo-files hold. The scanner reads each record into a caller-owned
//! scratch buffer and hands the bytes here; parsing makes one left-to-right
//! pass and allocates nothing, by design, since it runs exactly when memory
//! is scarce. A malformed record parses to `None` and makes the scanner drop
//! the whole entry, never abort the scan.

use vstd::prelude::*;
use vstd::slice::slice_subrange;

verus! {

/// An ASCII decimal digit.
pub open spec fn is_ascii_digit(b: u8) -> bool {
    0x30 <= b <= 0x39
}

/// Every byte of `s` is an ASCII decimal digit.
pub open spec fn all_digits(s: Seq<u8>) -> bool {
    forall|i: int| 0 <= i < s.len() ==> is_ascii_digit(s[i])
}

/// The number a digit sequence denotes, most significant digit first.
pub open spec fn digits_value(s: Seq<u8>) -> int
    decreases s.len(),
{
    if s.len() == 0 {
        0
    } else {
        digits_value(s.drop_last()) * 10 + (s.last() - 0x30)
    }
}

/// What an unsigned decimal record denotes: defined exactly for a nonempty
/// sequence of digits.
pub open spec fn decimal_value(s: Seq<u8>) -> Option<int> {
    if s.len() > 0 && all_digits(s) {
        Some(digits_value(s))
    } else {
        None
    }
}

/// What a signed decimal record denotes: an optional leading minus sign
/// (the byte `0x2d`), then a nonempty sequence of digits.
pub open spec fn signed_decimal_value(s: Seq<u8>) -> Option<int> {
    if s.len() > 0 && s[0] == 0x2d {
        match decimal_value(s.skip(1)) {
            Some(v) => Some(-v),
            None => None,
        }
    } else {
        decimal_value(s)
    }
}

proof fn lemma_digits_value_nonneg(s: Seq<u8>)
    requires
        all_digits(s),
    ensures
        digits_value(s) >= 0,
    decreases s.len(),
{
    if s.len() > 0 {
        assert(forall|i: int| 0 <= i < s.drop_last().len() ==> s.drop_last()[i] == s[i]);
        lemma_digits_value_nonneg(s.drop_last());
    }
}

proof fn lemma_digits_value_monotonic(s: Seq<u8>, i: int, j: int)
    requires
        0 <= i <= j <= s.len(),
        all_digits(s),
    ensures
        digits_value(s.take(i)) <= digits_value(s.take(j)),
    decreases j - i,
{
    if i < j {
        lemma_digits_value_monotonic(s, i, j - 1);
        assert(s.take(j).drop_last() =~= s.take(j - 1));
        assert(forall|m: int| 0 <= m < j ==> s.take(j)[m] == s[m]);
        assert(all_digits(s.take(j - 1)));
        lemma_digits_value_nonneg(s.take(j - 1));
        assert(s.take(j).last() == s[j - 1]);
    }
}

/// Parses an unsigned decimal attribute record in place. `None` for an
/// empty record, a record with any non-digit byte, and a value that does
/// not fit the word.
pub fn parse_decimal_u64(buf: &[u8]) -> (r: Option<u64>)
    ensures
        match decimal_value(buf@) {
            Some(v) => if v <= u64::MAX {
                r == Some(v as u64)
            } else {
                r is None
            },
            None => r is None,
        },
{
    if buf.len() == 0 {
        return None;
    }
    let mut acc: u64 = 0;
    let mut i: usize = 0;
    while i < buf.len()
        invariant
            i <= buf@.len(),
            all_digits(buf@.take(i as int)),
            acc == digits_value(buf@.take(i as int)),
        decreases buf@.len() - i,
    {
        let b = buf[i];
        if b < 0x30 || b > 0x39 {
            proof {
                assert(!is_ascii_digit(buf@[i as int]));
                assert(!all_digits(buf@));
            }
            return None;
        }
        let d: u64 = (b - 0x30) as u64;
        proof {
            assert(buf@.take(i as int + 1).drop_last() =~= buf@.take(i as int));
            assert(buf@.take(i as int + 1).last() == buf@[i as int]);
        }
        let wide: u128 = acc as u128 * 10 + d as u128;
        if wide > u64::MAX as u128 {
            proof {
                if all_digits(buf@) {
                    lemma_digits_value_monotonic(buf@, i as int + 1, buf@.len() as int);
                    assert(buf@.take(buf@.len() as int) =~= buf@);
                }
            }
            return None;
        }
        acc = wide as u64;
        i = i + 1;
    }
    proof {
        assert(buf@.take(buf@.len() as int) =~= buf@);
    }
    Some(acc)
}

/// Parses a signed decimal attribute record in place: an optional leading
/// minus sign, then digits. `None` for a malformed record and for a value
/// outside the 32-bit signed range.
pub fn parse_decimal_i32(buf: &[u8]) -> (r: Option<i32>)
    ensures
        match signed_decimal_value(buf@) {
            Some(v) => if i32::MIN <= v <= i32::MAX {
                r == Some(v as i32)
            } else {
                r is None
            },
            None => r is None,
        },
{
    if buf.len() > 0 && buf[0] == 0x2d {
        let rest = slice_subrange(buf, 1, buf.len());
        let parsed = parse_decimal_u64(rest);
        proof {
            assert(rest@ =~= buf@.skip(1));
            if decimal_value(buf@.skip(1)) is Some {
                lemma_digits_value_nonneg(buf@.skip(1));
            }
        }
        match parsed {
            Some(magnitude) => {
                if magnitude > 2147483648u64 {
                    None
                } else {
                    let n: i64 = -(magnitude as i64);
                    Some(n as i32)
                }
            },
            None => None,
        }
    } else {
        let parsed = parse_decimal_u64(buf);
        proof {
            if decimal_value(buf@) is Some {
                lemma_digits_value_nonneg(buf@);
            }
        }
        match parsed {
            Some(magnitude) => {
                if magnitude > 2147483647u64 {
                    None
                } else {
                    Some(magnitude as i32)
                }
            },
            None => None,
        }
    }
}

} // verus!
