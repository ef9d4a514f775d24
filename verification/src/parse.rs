//! Decimal parsing of the numeric attribute strings that binding files and
//! launch arguments carry, specified exactly over byte sequences.

use vstd::prelude::*;

verus! {

/// ASCII codes the parser cares about.
pub const ASCII_ZERO: u8 = 48;

pub const ASCII_NINE: u8 = 57;

pub const ASCII_MINUS: u8 = 45;

pub const ASCII_PLUS: u8 = 43;

/// Every byte is a decimal digit.
pub open spec fn all_digits(b: Seq<u8>) -> bool {
    forall|i: int| 0 <= i < b.len() ==> ASCII_ZERO <= #[trigger] b[i] <= ASCII_NINE
}

/// The value of a digit string, most significant digit first.
pub open spec fn digits_value(b: Seq<u8>) -> int
    decreases b.len(),
{
    if b.len() == 0 {
        0
    } else {
        digits_value(b.drop_last()) * 10 + (b.last() - ASCII_ZERO)
    }
}

/// What a signed decimal string denotes: an optional sign, then at least one
/// digit. Anything else denotes nothing.
pub open spec fn spec_parse_int(b: Seq<u8>) -> Option<int> {
    if b.len() > 0 && (b[0] == ASCII_MINUS || b[0] == ASCII_PLUS) {
        let d = b.drop_first();
        if d.len() > 0 && all_digits(d) {
            if b[0] == ASCII_MINUS {
                Some(-digits_value(d))
            } else {
                Some(digits_value(d))
            }
        } else {
            None
        }
    } else if b.len() > 0 && all_digits(b) {
        Some(digits_value(b))
    } else {
        None
    }
}

/// What an unsigned decimal string denotes: an optional plus, then at least
/// one digit.
pub open spec fn spec_parse_uint(b: Seq<u8>) -> Option<int> {
    if b.len() > 0 && b[0] == ASCII_PLUS {
        let d = b.drop_first();
        if d.len() > 0 && all_digits(d) {
            Some(digits_value(d))
        } else {
            None
        }
    } else if b.len() > 0 && all_digits(b) {
        Some(digits_value(b))
    } else {
        None
    }
}

/// A digit string's value is never negative.
pub proof fn lemma_digits_value_nonneg(b: Seq<u8>)
    requires
        all_digits(b),
    ensures
        digits_value(b) >= 0,
    decreases b.len(),
{
    if b.len() > 0 {
        assert(all_digits(b.drop_last()));
        lemma_digits_value_nonneg(b.drop_last());
    }
}

/// A digit string is worth at least any of its prefixes.
pub proof fn lemma_digits_value_prefix(b: Seq<u8>, j: int)
    requires
        all_digits(b),
        0 <= j <= b.len(),
    ensures
        digits_value(b) >= digits_value(b.take(j)),
    decreases b.len() - j,
{
    if j < b.len() {
        lemma_digits_value_prefix(b, j + 1);
        assert(b.take(j + 1).drop_last() =~= b.take(j));
        assert(all_digits(b.take(j)));
        lemma_digits_value_nonneg(b.take(j));
        assert(digits_value(b.take(j + 1)) == digits_value(b.take(j)) * 10 + (b[j] - ASCII_ZERO));
        assert(digits_value(b.take(j)) * 10 >= digits_value(b.take(j))) by (nonlinear_arith)
            requires
                digits_value(b.take(j)) >= 0,
        ;
    } else {
        assert(b.take(j) =~= b);
    }
}

/// Parse the digits of `b` starting at `start`, accumulating until the value
/// can no longer fit any 32-bit quantity; `None` reports a non-digit or an
/// overflow past the cap.
fn parse_digits(b: &[u8], start: usize) -> (r: Option<i64>)
    requires
        start <= b@.len(),
    ensures
        ({
            let d = b@.skip(start as int);
            match r {
                Some(v) => d.len() > 0 && all_digits(d) && v == digits_value(d) && 0 <= v
                    <= 0x1_0000_0000,
                None => d.len() == 0 || !all_digits(d) || digits_value(d) > 0x1_0000_0000,
            }
        }),
{
    let ghost d = b@.skip(start as int);
    let n = b.len();
    if start >= n {
        return None;
    }
    let mut acc: i64 = 0;
    let mut i: usize = start;
    while i < n
        invariant
            start <= i <= n,
            n == b@.len(),
            d == b@.skip(start as int),
            all_digits(b@.subrange(start as int, i as int)),
            acc == digits_value(b@.subrange(start as int, i as int)),
            0 <= acc <= 0x1_0000_0000,
        decreases n - i,
    {
        let c = b[i];
        if c < ASCII_ZERO || c > ASCII_NINE {
            proof {
                assert(d[i - start] == b@[i as int]);
                assert(!all_digits(d));
            }
            return None;
        }
        proof {
            assert(b@.subrange(start as int, i as int + 1).drop_last() =~= b@.subrange(
                start as int,
                i as int,
            ));
            assert(b@.subrange(start as int, i as int + 1).last() == b@[i as int]);
        }
        acc = acc * 10 + ((c - ASCII_ZERO) as i64);
        i = i + 1;
        if acc > 0x1_0000_0000 {
            proof {
                assert(d =~= b@.subrange(start as int, n as int));
                if all_digits(d) {
                    assert(b@.subrange(start as int, i as int) =~= d.take(i - start));
                    lemma_digits_value_prefix(d, i - start);
                }
            }
            return None;
        }
    }
    proof {
        assert(b@.subrange(start as int, n as int) =~= d);
        assert(d.len() > 0);
    }
    Some(acc)
}

/// Parse a signed 32-bit integer from a byte string, exactly as the decimal
/// grammar above reads it; values outside the `i32` range parse to nothing.
pub fn parse_i32_bytes(b: &[u8]) -> (r: Option<i32>)
    ensures
        ({
            match r {
                Some(v) => spec_parse_int(b@) == Some(v as int),
                None => spec_parse_int(b@) is None || (spec_parse_int(b@) matches Some(x)
                    && !(i32::MIN <= x <= i32::MAX)),
            }
        }),
{
    if b.len() == 0 {
        return None;
    }
    let c0 = b[0];
    let negative = c0 == ASCII_MINUS;
    let signed = negative || c0 == ASCII_PLUS;
    let start: usize = if signed {
        1
    } else {
        0
    };
    let ghost d = if signed {
        b@.drop_first()
    } else {
        b@
    };
    proof {
        assert(b@.skip(start as int) =~= d);
    }
    let v = match parse_digits(b, start) {
        Some(v) => v,
        None => {
            return None;
        },
    };
    if negative {
        if v <= 0x8000_0000 {
            Some((-v) as i32)
        } else {
            None
        }
    } else {
        if v <= 0x7fff_ffff {
            Some(v as i32)
        } else {
            None
        }
    }
}

/// Parse an unsigned 16-bit integer from a byte string; a leading minus or a
/// value above `u16::MAX` parses to nothing.
pub fn parse_u16_bytes(b: &[u8]) -> (r: Option<u16>)
    ensures
        ({
            match r {
                Some(v) => spec_parse_uint(b@) == Some(v as int),
                None => spec_parse_uint(b@) is None || (spec_parse_uint(b@) matches Some(x) && x
                    > u16::MAX),
            }
        }),
{
    if b.len() == 0 {
        return None;
    }
    let c0 = b[0];
    let start: usize = if c0 == ASCII_PLUS {
        1
    } else {
        0
    };
    let ghost d = if c0 == ASCII_PLUS {
        b@.drop_first()
    } else {
        b@
    };
    proof {
        assert(b@.skip(start as int) =~= d);
    }
    let v = match parse_digits(b, start) {
        Some(v) => v,
        None => {
            return None;
        },
    };
    if v <= 0xffff {
        Some(v as u16)
    } else {
        None
    }
}

} // verus!
