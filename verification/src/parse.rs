//! Verified decimal parsing for the numeric command-line selections: the
//! history depth (a signed 32-bit number) and the domain identifier (an
//! unsigned 16-bit number, defaulting to zero when absent or malformed).

use vstd::prelude::*;

verus! {

/// A decimal digit, `'0'` through `'9'`.
pub open spec fn is_dec_digit(c: char) -> bool {
    48 <= c as int <= 57
}

/// The value of one decimal digit.
pub open spec fn digit_val(c: char) -> int {
    c as int - 48
}

/// Every character of `s` is a decimal digit.
pub open spec fn all_dec_digits(s: Seq<char>) -> bool {
    forall|i: int| 0 <= i < s.len() ==> is_dec_digit(s[i])
}

/// The value of a digit string read most-significant first.
pub open spec fn digits_val(s: Seq<char>) -> int
    decreases s.len(),
{
    if s.len() == 0 {
        0
    } else {
        digits_val(s.drop_last()) * 10 + digit_val(s.last())
    }
}

/// A digit string's value is never negative.
pub proof fn lemma_digits_val_nonneg(s: Seq<char>)
    requires
        all_dec_digits(s),
    ensures
        digits_val(s) >= 0,
    decreases s.len(),
{
    if s.len() > 0 {
        assert(all_dec_digits(s.drop_last()));
        lemma_digits_val_nonneg(s.drop_last());
    }
}

/// What parsing a signed 32-bit decimal returns: an optional single leading
/// sign, then at least one digit and nothing else, and a value within the
/// `i32` range; any other input is rejected.
pub open spec fn parse_i32_spec(s: Seq<char>) -> Option<i32> {
    let signed = s.len() > 0 && (s[0] == '-' || s[0] == '+');
    let neg = s.len() > 0 && s[0] == '-';
    let digits = if signed {
        s.subrange(1, s.len() as int)
    } else {
        s
    };
    if digits.len() == 0 || !all_dec_digits(digits) {
        None
    } else {
        let v = if neg {
            -digits_val(digits)
        } else {
            digits_val(digits)
        };
        if v < i32::MIN || v > i32::MAX {
            None
        } else {
            Some(v as i32)
        }
    }
}

/// What parsing an unsigned 16-bit decimal returns: an optional single
/// leading `'+'`, then at least one digit and nothing else, and a value at
/// most `u16::MAX`; any other input is rejected.
pub open spec fn parse_u16_spec(s: Seq<char>) -> Option<u16> {
    let digits = if s.len() > 0 && s[0] == '+' {
        s.subrange(1, s.len() as int)
    } else {
        s
    };
    if digits.len() == 0 || !all_dec_digits(digits) {
        None
    } else if digits_val(digits) > u16::MAX {
        None
    } else {
        Some(digits_val(digits) as u16)
    }
}

/// Scan the tail of `s` from `start` on: if it is one or more decimal digits
/// and nothing else, give their value, exact up to `u32::MAX` and merely
/// known to be above `u32::MAX` beyond that; otherwise report the rejection.
fn scan_digits(s: &str, start: usize) -> (r: Option<u64>)
    requires
        start <= s@.len(),
    ensures
        ({
            let digits = s@.subrange(start as int, s@.len() as int);
            match r {
                Option::None => digits.len() == 0 || !all_dec_digits(digits),
                Option::Some(acc) => digits.len() > 0 && all_dec_digits(digits) && (digits_val(
                    digits,
                ) <= u32::MAX ==> acc == digits_val(digits)) && (digits_val(digits) > u32::MAX
                    ==> acc > u32::MAX),
            }
        }),
{
    let n = s.unicode_len();
    if start == n {
        return None;
    }
    let mut i: usize = start;
    let mut acc: u64 = 0;
    while i < n
        invariant
            start <= i <= n == s@.len(),
            all_dec_digits(s@.subrange(start as int, i as int)),
            acc <= 0x28_0000_0005,
            digits_val(s@.subrange(start as int, i as int)) <= u32::MAX ==> acc == digits_val(
                s@.subrange(start as int, i as int),
            ),
            digits_val(s@.subrange(start as int, i as int)) > u32::MAX ==> acc > u32::MAX,
        decreases n - i,
    {
        let c = s.get_char(i);
        let u = c as u32;
        if u < 48 || u > 57 {
            proof {
                let digits = s@.subrange(start as int, s@.len() as int);
                assert(digits[i - start] == s@[i as int]);
                assert(!is_dec_digit(digits[i - start]));
            }
            return None;
        }
        let d: u64 = (u - 48) as u64;
        proof {
            let pre = s@.subrange(start as int, i as int);
            let pre2 = s@.subrange(start as int, i + 1);
            assert(pre2.drop_last() =~= pre);
            assert(pre2.last() == s@[i as int]);
            assert forall|k: int| 0 <= k < pre2.len() implies is_dec_digit(pre2[k]) by {
                if k < pre.len() {
                    assert(pre2[k] == pre[k]);
                } else {
                    assert(pre2[k] == s@[i as int]);
                }
            }
            lemma_digits_val_nonneg(pre);
        }
        if acc <= 0xFFFF_FFFF {
            acc = acc * 10 + d;
        }
        i += 1;
    }
    proof {
        assert(s@.subrange(start as int, i as int) =~= s@.subrange(start as int, s@.len() as int));
    }
    Some(acc)
}

/// Parse a signed 32-bit decimal number, exactly as the history-depth
/// argument is parsed: `Some` on a well-formed in-range number, `None` on
/// anything else.
pub fn parse_i32(s: &str) -> (r: Option<i32>)
    ensures
        r == parse_i32_spec(s@),
{
    let n = s.unicode_len();
    if n == 0 {
        return None;
    }
    let first = s.get_char(0);
    let neg = first == '-';
    let start: usize = if first == '-' || first == '+' {
        1
    } else {
        0
    };
    proof {
        if start == 0 {
            assert(s@.subrange(0, s@.len() as int) =~= s@);
        }
    }
    match scan_digits(s, start) {
        Option::None => None,
        Option::Some(acc) => {
            proof {
                lemma_digits_val_nonneg(s@.subrange(start as int, s@.len() as int));
            }
            if neg {
                if acc <= 0x8000_0000 {
                    if acc == 0x8000_0000 {
                        Some(i32::MIN)
                    } else {
                        Some(-(acc as i32))
                    }
                } else {
                    None
                }
            } else {
                if acc <= 0x7FFF_FFFF {
                    Some(acc as i32)
                } else {
                    None
                }
            }
        },
    }
}

/// Parse an unsigned 16-bit decimal number, exactly as the domain identifier
/// is parsed: `Some` on a well-formed in-range number, `None` on anything
/// else.
pub fn parse_u16(s: &str) -> (r: Option<u16>)
    ensures
        r == parse_u16_spec(s@),
{
    let n = s.unicode_len();
    let start: usize = if n > 0 && s.get_char(0) == '+' {
        1
    } else {
        0
    };
    proof {
        if start == 0 {
            assert(s@.subrange(0, s@.len() as int) =~= s@);
        }
    }
    match scan_digits(s, start) {
        Option::None => None,
        Option::Some(acc) => {
            proof {
                lemma_digits_val_nonneg(s@.subrange(start as int, s@.len() as int));
            }
            if acc <= 65535 {
                Some(acc as u16)
            } else {
                None
            }
        },
    }
}

/// The domain identifier a command line selects: the parsed value of the
/// argument, with 0 both for an absent argument and for one that does not
/// parse as an unsigned 16-bit number.
pub open spec fn domain_id_spec(arg: Option<Seq<char>>) -> u16 {
    match arg {
        Option::None => 0u16,
        Option::Some(s) => match parse_u16_spec(s) {
            Option::None => 0u16,
            Option::Some(d) => d,
        },
    }
}

/// Resolve the domain identifier from the optional command-line argument,
/// silently falling back to 0 when it is absent or malformed.
pub fn parse_domain_id(arg: Option<&str>) -> (id: u16)
    ensures
        id == domain_id_spec(match arg {
            Option::None => Option::None,
            Option::Some(s) => Option::Some(s@),
        }),
{
    match arg {
        Option::None => 0,
        Option::Some(s) => match parse_u16(s) {
            Option::None => 0,
            Option::Some(d) => d,
        },
    }
}

} // verus!
