use vstd::prelude::*;

use crate::account::fits;

verus! {

/// Ten-thousandths in one currency unit: amounts carry four fractional digits.
pub const SCALE: i64 = 10_000;

pub const ASCII_ZERO: u8 = 0x30;

pub const ASCII_NINE: u8 = 0x39;

pub const ASCII_POINT: u8 = 0x2e;

pub const ASCII_MINUS: u8 = 0x2d;

pub open spec fn is_digit(b: u8) -> bool {
    ASCII_ZERO <= b <= ASCII_NINE
}

pub open spec fn all_digits(s: Seq<u8>) -> bool {
    forall|i: int| 0 <= i < s.len() ==> is_digit(#[trigger] s[i])
}

/// The number that a run of decimal digits writes.
pub open spec fn digits_value(s: Seq<u8>) -> nat
    decreases s.len(),
{
    if s.len() == 0 {
        0
    } else {
        digits_value(s.drop_last()) * 10 + (s.last() - ASCII_ZERO) as nat
    }
}

/// Ten-thousandths in one unit of the last of `n` fractional digits.
pub open spec fn fraction_scale(n: int) -> int {
    if n == 1 {
        1000
    } else if n == 2 {
        100
    } else if n == 3 {
        10
    } else {
        1
    }
}

/// `s` has a point at `k`, one or more digits before it and one to four after it.
pub open spec fn is_point_at(s: Seq<u8>, k: int) -> bool {
    &&& 0 < k
    &&& k + 1 < s.len() <= k + 5
    &&& s[k] == ASCII_POINT
    &&& all_digits(s.take(k))
    &&& all_digits(s.skip(k + 1))
}

/// The value in ten-thousandths of an unsigned decimal: digits, optionally followed
/// by a point and one to four fractional digits.
pub open spec fn unsigned_amount(s: Seq<u8>) -> Option<int> {
    if 0 < s.len() && all_digits(s) {
        Some(digits_value(s) * SCALE)
    } else if exists|k: int| is_point_at(s, k) {
        let k = choose|k: int| is_point_at(s, k);
        Some(
            digits_value(s.take(k)) * SCALE + digits_value(s.skip(k + 1)) * fraction_scale(
                s.len() - k - 1,
            ),
        )
    } else {
        None
    }
}

/// The value in ten-thousandths of a decimal amount, with an optional leading minus
/// sign.
pub open spec fn amount_value(s: Seq<u8>) -> Option<int> {
    if 0 < s.len() && s[0] == ASCII_MINUS {
        match unsigned_amount(s.skip(1)) {
            Some(v) => Some(-v),
            None => None,
        }
    } else {
        unsigned_amount(s)
    }
}

pub open spec fn pow10(n: nat) -> nat
    decreases n,
{
    if n == 0 {
        1
    } else {
        10 * pow10((n - 1) as nat)
    }
}

proof fn lemma_digits_value_bound(s: Seq<u8>)
    requires
        all_digits(s),
    ensures
        digits_value(s) < pow10(s.len()),
    decreases s.len(),
{
    if s.len() > 0 {
        assert(all_digits(s.drop_last())) by {
            assert forall|i: int| 0 <= i < s.drop_last().len() implies is_digit(
                #[trigger] s.drop_last()[i],
            ) by {
                assert(s.drop_last()[i] == s[i]);
            }
        }
        lemma_digits_value_bound(s.drop_last());
        assert(is_digit(s[s.len() - 1]));
    }
}

/// Where the leading digits of `b` end at `k`, the only place a point can stand
/// is `k`, and the value of `b` is decided by what follows them.
proof fn lemma_unsigned_amount_at(b: Seq<u8>, k: int)
    requires
        0 <= k <= b.len(),
        all_digits(b.take(k)),
        k == b.len() || !is_digit(b[k]),
    ensures
        unsigned_amount(b) == if k == 0 {
            None
        } else if k == b.len() {
            Some(digits_value(b) * SCALE)
        } else if is_point_at(b, k) {
            Some(
                digits_value(b.take(k)) * SCALE + digits_value(b.skip(k + 1)) * fraction_scale(
                    b.len() - k - 1,
                ),
            )
        } else {
            None
        },
{
    assert forall|j: int| #[trigger] is_point_at(b, j) implies j == k by {
        if j < k {
            assert(b.take(k)[j] == b[j]);
        } else if j > k {
            assert(b.take(j)[k] == b[k]);
        }
    }
    if k < b.len() {
        assert(!all_digits(b));
    } else {
        assert(b.take(k) =~= b);
    }
    if k == 0 && b.len() > 0 {
        assert(!is_digit(b[0]));
    }
}

/// Reads the digits of `text` from `start` up to the first byte that is not a digit.
/// Returns where the run ends and its value, or `limit + 1` for a value above
/// `limit`.
fn digit_run(text: &[u8], start: usize, limit: u64) -> (r: (usize, u64))
    requires
        start <= text@.len(),
        limit < 0x1000_0000_0000_0000,
    ensures
        start <= r.0 <= text@.len(),
        all_digits(text@.subrange(start as int, r.0 as int)),
        r.0 == text@.len() || !is_digit(text@[r.0 as int]),
        r.1 == if digits_value(text@.subrange(start as int, r.0 as int)) <= limit {
            digits_value(text@.subrange(start as int, r.0 as int)) as int
        } else {
            limit + 1
        },
{
    let mut i: usize = start;
    let mut v: u64 = 0;
    while i < text.len() && ASCII_ZERO <= text[i] && text[i] <= ASCII_NINE
        invariant
            start <= i <= text@.len(),
            all_digits(text@.subrange(start as int, i as int)),
            v == if digits_value(text@.subrange(start as int, i as int)) <= limit {
                digits_value(text@.subrange(start as int, i as int)) as int
            } else {
                limit + 1
            },
            limit < 0x1000_0000_0000_0000,
        decreases text@.len() - i,
    {
        let d = text[i] - ASCII_ZERO;
        assert(text@.subrange(start as int, i + 1).drop_last() =~= text@.subrange(
            start as int,
            i as int,
        ));
        if v <= limit {
            let next: u64 = v * 10 + d as u64;
            v = if next <= limit {
                next
            } else {
                limit + 1
            };
        }
        i = i + 1;
    }
    (i, v)
}

/// Largest whole part whose value in ten-thousandths can fit a balance.
const WHOLE_LIMIT: u64 = 922_337_203_685_477;

/// Parses a decimal amount such as `12`, `-3.5` or `0.0001` into ten-thousandths:
/// an optional minus sign, one or more digits, and optionally a point followed by
/// one to four digits. Returns `None` for any other text, and for a value that a
/// balance cannot hold.
pub fn parse_amount(text: &[u8]) -> (r: Option<i64>)
    ensures
        r is Some <==> (amount_value(text@) is Some && fits(amount_value(text@)->0)),
        r is Some ==> r->0 == amount_value(text@)->0,
{
    let negative = text.len() > 0 && text[0] == ASCII_MINUS;
    let start: usize = if negative {
        1
    } else {
        0
    };
    let ghost b = text@.skip(start as int);
    proof {
        if !negative {
            assert(b =~= text@);
        }
    }
    let (k, whole) = digit_run(text, start, WHOLE_LIMIT);
    let ghost kb = k - start;
    proof {
        assert(b.take(kb) =~= text@.subrange(start as int, k as int));
        lemma_unsigned_amount_at(b, kb);
    }
    if k == start {
        return None;
    }
    if whole > WHOLE_LIMIT {
        proof {
            let w = digits_value(b.take(kb));
            assert(w > WHOLE_LIMIT);
            if kb == b.len() {
                assert(b.take(kb) =~= b);
            }
            assert(w * SCALE > 0x8000_0000_0000_0000) by (nonlinear_arith)
                requires
                    w > WHOLE_LIMIT,
            ;
        }
        return None;
    }
    let value: i128 = if k == text.len() {
        proof {
            assert(b.take(kb) =~= b);
        }
        whole as i128 * SCALE as i128
    } else {
        if text[k] != ASCII_POINT || text.len() - k < 2 || text.len() - k > 5 {
            return None;
        }
        let (e, fraction) = digit_run(text, k + 1, 9999);
        proof {
            assert(b.skip(kb + 1) =~= text@.subrange(k + 1, text@.len() as int));
        }
        if e != text.len() {
            proof {
                assert(b.skip(kb + 1)[e - k - 1] == text@[e as int]);
            }
            return None;
        }
        proof {
            lemma_digits_value_bound(text@.subrange(k + 1, e as int));
            assert(pow10(0) == 1);
            assert(pow10(1) == 10);
            assert(pow10(2) == 100);
            assert(pow10(3) == 1000);
            assert(pow10(4) == 10000);
        }
        let scale: i128 = if e - k - 1 == 1 {
            1000
        } else if e - k - 1 == 2 {
            100
        } else if e - k - 1 == 3 {
            10
        } else {
            1
        };
        whole as i128 * SCALE as i128 + fraction as i128 * scale
    };
    let signed: i128 = if negative {
        -value
    } else {
        value
    };
    if signed < i64::MIN as i128 || signed > i64::MAX as i128 {
        return None;
    }
    Some(signed as i64)
}

} // verus!
