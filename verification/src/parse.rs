use vstd::prelude::*;

use crate::data::IngestError;

verus! {

/// The ASCII characters that count as surrounding whitespace: space, tab,
/// line feed, vertical tab, form feed, carriage return.
pub open spec fn is_ascii_space(b: u8) -> bool {
    b == 32 || b == 9 || b == 10 || b == 11 || b == 12 || b == 13
}

/// An ASCII decimal digit.
pub open spec fn is_ascii_digit(b: u8) -> bool {
    48 <= b <= 57
}

pub open spec fn strip_leading_space(s: Seq<u8>) -> Seq<u8>
    decreases s.len(),
{
    if s.len() > 0 && is_ascii_space(s[0]) {
        strip_leading_space(s.drop_first())
    } else {
        s
    }
}

pub open spec fn strip_trailing_space(s: Seq<u8>) -> Seq<u8>
    decreases s.len(),
{
    if s.len() > 0 && is_ascii_space(s.last()) {
        strip_trailing_space(s.drop_last())
    } else {
        s
    }
}

/// The text with ASCII whitespace removed from both ends.
pub open spec fn trimmed(s: Seq<u8>) -> Seq<u8> {
    strip_trailing_space(strip_leading_space(s))
}

/// The digit run of a trimmed integer text: everything after an optional
/// leading `+` (43) or `-` (45).
pub open spec fn unsigned_part(t: Seq<u8>) -> Seq<u8> {
    if t.len() > 0 && (t[0] == 43 || t[0] == 45) {
        t.drop_first()
    } else {
        t
    }
}

pub open spec fn is_negative_text(t: Seq<u8>) -> bool {
    t.len() > 0 && t[0] == 45
}

pub open spec fn all_digits(s: Seq<u8>) -> bool {
    forall|i: int| 0 <= i < s.len() ==> is_ascii_digit(s[i])
}

/// The value of a run of decimal digits, most significant first.
pub open spec fn digits_value(s: Seq<u8>) -> int
    decreases s.len(),
{
    if s.len() == 0 {
        0
    } else {
        digits_value(s.drop_last()) * 10 + (s.last() - 48)
    }
}

/// Whether the text is an integer literal as the standard parser accepts it:
/// optional surrounding whitespace is ignored, then an optional sign must be
/// followed by at least one digit and nothing else.
pub open spec fn is_integer_text(s: Seq<u8>) -> bool {
    let d = unsigned_part(trimmed(s));
    d.len() > 0 && all_digits(d)
}

/// The signed value of an integer text.
pub open spec fn integer_text_value(s: Seq<u8>) -> int {
    if is_negative_text(trimmed(s)) {
        -digits_value(unsigned_part(trimmed(s)))
    } else {
        digits_value(unsigned_part(trimmed(s)))
    }
}

/// Whether the text denotes an integer that fits in `i64`.
pub open spec fn parses_as_i64(s: Seq<u8>) -> bool {
    is_integer_text(s) && i64::MIN <= integer_text_value(s) <= i64::MAX
}

proof fn lemma_digits_value_nonneg(s: Seq<u8>)
    requires
        all_digits(s),
    ensures
        digits_value(s) >= 0,
    decreases s.len(),
{
    if s.len() > 0 {
        assert(all_digits(s.drop_last()));
        lemma_digits_value_nonneg(s.drop_last());
    }
}

/// Appending further digits never shrinks the value of a digit run.
proof fn lemma_digits_value_prefix_le(s: Seq<u8>, k: int)
    requires
        all_digits(s),
        0 <= k <= s.len(),
    ensures
        digits_value(s.subrange(0, k)) <= digits_value(s),
    decreases s.len() - k,
{
    if k == s.len() {
        assert(s.subrange(0, k) =~= s);
    } else {
        let p = s.subrange(0, k);
        let q = s.subrange(0, k + 1);
        assert(q.drop_last() =~= p);
        assert(all_digits(p));
        lemma_digits_value_nonneg(p);
        assert(digits_value(q) == digits_value(p) * 10 + (q.last() - 48));
        assert(digits_value(p) * 10 >= digits_value(p)) by {
            lemma_digits_value_nonneg(p);
            assert(digits_value(p) >= 0);
        };
        lemma_digits_value_prefix_le(s, k + 1);
    }
}

fn is_space_at(text: &[u8], i: usize) -> (r: bool)
    requires
        i < text@.len(),
    ensures
        r == is_ascii_space(text@[i as int]),
{
    let b = text[i];
    b == 32 || b == 9 || b == 10 || b == 11 || b == 12 || b == 13
}

/// Parses the chain-tip-height reply: a plain-text decimal integer, possibly
/// signed, with surrounding whitespace allowed. Succeeds exactly on texts that
/// denote an integer in the range of `i64`; everything else is a decode
/// failure.
///
/// Only the ASCII whitespace set is ignored here: a caller whose transport
/// may pad the body with non-ASCII whitespace trims the text first (the
/// process edge does, with `str::trim`).
pub fn parse_tip_height(text: &[u8]) -> (r: Result<i64, IngestError>)
    ensures
        r is Ok <==> parses_as_i64(text@),
        r matches Ok(h) ==> h as int == integer_text_value(text@),
        r is Err ==> r == Err::<i64, IngestError>(IngestError::Decode),
{
    let n = text.len();
    proof {
        assert(text@.subrange(0, n as int) =~= text@);
    }
    let mut lo: usize = 0;
    while lo < n && is_space_at(text, lo)
        invariant
            lo <= n,
            n == text@.len(),
            strip_leading_space(text@) == strip_leading_space(text@.subrange(lo as int, n as int)),
        decreases n - lo,
    {
        proof {
            assert(text@.subrange(lo as int, n as int).drop_first() =~= text@.subrange(
                lo as int + 1,
                n as int,
            ));
        }
        lo += 1;
    }
    proof {
        assert(strip_leading_space(text@) =~= text@.subrange(lo as int, n as int));
    }
    let mut hi: usize = n;
    while hi > lo && is_space_at(text, hi - 1)
        invariant
            lo <= hi <= n,
            n == text@.len(),
            strip_leading_space(text@) == text@.subrange(lo as int, n as int),
            trimmed(text@) == strip_trailing_space(text@.subrange(lo as int, hi as int)),
        decreases hi,
    {
        proof {
            assert(text@.subrange(lo as int, hi as int).drop_last() =~= text@.subrange(
                lo as int,
                hi as int - 1,
            ));
        }
        hi -= 1;
    }
    proof {
        assert(trimmed(text@) =~= text@.subrange(lo as int, hi as int));
    }
    let ghost t = text@.subrange(lo as int, hi as int);
    let mut i: usize = lo;
    let mut neg = false;
    if i < hi && (text[i] == 43 || text[i] == 45) {
        neg = text[i] == 45;
        i += 1;
        proof {
            assert(t.drop_first() =~= text@.subrange(i as int, hi as int));
        }
    }
    let ghost digits = text@.subrange(i as int, hi as int);
    proof {
        assert(unsigned_part(t) =~= digits);
        assert(is_negative_text(t) == neg);
    }
    if i == hi {
        // no digits at all
        return Err(IngestError::Decode);
    }
    let mut acc: u64 = 0;
    let mut j: usize = i;
    while j < hi
        invariant
            lo <= i <= j <= hi <= n,
            n == text@.len(),
            digits == text@.subrange(i as int, hi as int),
            all_digits(text@.subrange(i as int, j as int)),
            acc as int == digits_value(text@.subrange(i as int, j as int)),
            is_integer_text(text@) == all_digits(digits),
            integer_text_value(text@) == if neg {
                -digits_value(digits)
            } else {
                digits_value(digits)
            },
            i < hi,
        decreases hi - j,
    {
        let b = text[j];
        if b < 48 || b > 57 {
            proof {
                assert(digits[j as int - i as int] == text@[j as int]);
                assert(!is_ascii_digit(digits[j as int - i as int]));
            }
            return Err(IngestError::Decode);
        }
        let d: u64 = (b - 48) as u64;
        if acc > (0xffff_ffff_ffff_ffffu64 - d) / 10 {
            // The run up to and including this digit already exceeds u64::MAX,
            // so the full value cannot fit in i64 either way.
            proof {
                let part = text@.subrange(i as int, j as int + 1);
                assert(part.drop_last() =~= text@.subrange(i as int, j as int));
                assert(part.last() == b);
                let cap = 0xffff_ffff_ffff_ffff as int;
                assert(10 * ((cap - d) / 10) + (cap - d) % 10 == cap - d);
                assert(digits_value(part) == acc * 10 + d);
                assert(digits_value(part) > cap);
                if all_digits(digits) {
                    assert(digits.subrange(0, j - i + 1) =~= part);
                    lemma_digits_value_prefix_le(digits, j - i + 1);
                    assert(digits_value(digits) > cap);
                }
            }
            return Err(IngestError::Decode);
        }
        proof {
            let cap = 0xffff_ffff_ffff_ffff as int;
            assert(10 * ((cap - d) / 10) + (cap - d) % 10 == cap - d);
            assert(acc * 10 + d <= cap);
            assert(text@.subrange(i as int, j as int + 1).drop_last() =~= text@.subrange(
                i as int,
                j as int,
            ));
        }
        acc = acc * 10 + d;
        j += 1;
    }
    proof {
        assert(text@.subrange(i as int, j as int) =~= digits);
        assert(all_digits(digits));
        assert(is_integer_text(text@));
    }
    if neg {
        if acc > 0x8000_0000_0000_0000u64 {
            return Err(IngestError::Decode);
        }
        if acc == 0x8000_0000_0000_0000u64 {
            Ok(i64::MIN)
        } else {
            Ok(-(acc as i64))
        }
    } else {
        if acc > 0x7fff_ffff_ffff_ffffu64 {
            return Err(IngestError::Decode);
        }
        Ok(acc as i64)
    }
}

} // verus!
