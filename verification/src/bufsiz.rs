//! Parsing the driver's buffer-size parameter from its textual form.
//!
//! The operating system exposes the parameter as plain text at a
//! well-known location. The application reads the raw bytes and this
//! module decides what value they denote: only the first five bytes are
//! considered (a 16-bit value has at most five digits), surrounding
//! whitespace is trimmed, and what remains must be a non-empty run of
//! decimal digits whose value fits in sixteen bits.

use vstd::prelude::*;

verus! {

/// The most bytes of the parameter text ever considered: a 16-bit value
/// has at most five decimal digits.
pub const BUFSIZ_TEXT_LIMIT: usize = 5;

/// Whether `b` is an ASCII whitespace byte (the bytes trimmed around the
/// parameter's digits).
pub open spec fn is_ascii_space(b: u8) -> bool {
    b == 32 || b == 9 || b == 10 || b == 11 || b == 12 || b == 13
}

/// Whether `b` is an ASCII decimal digit.
pub open spec fn is_ascii_digit(b: u8) -> bool {
    48 <= b <= 57
}

/// `s` without its leading whitespace bytes.
pub open spec fn trim_start(s: Seq<u8>) -> Seq<u8>
    decreases s.len(),
{
    if s.len() > 0 && is_ascii_space(s[0]) {
        trim_start(s.drop_first())
    } else {
        s
    }
}

/// `s` without its trailing whitespace bytes.
pub open spec fn trim_end(s: Seq<u8>) -> Seq<u8>
    decreases s.len(),
{
    if s.len() > 0 && is_ascii_space(s.last()) {
        trim_end(s.drop_last())
    } else {
        s
    }
}

/// `s` without leading and trailing whitespace bytes.
pub open spec fn spec_trim(s: Seq<u8>) -> Seq<u8> {
    trim_end(trim_start(s))
}

/// Whether every byte of `s` is a decimal digit.
pub open spec fn all_digits(s: Seq<u8>) -> bool {
    forall|i: int| 0 <= i < s.len() ==> is_ascii_digit(s[i])
}

/// The number denoted by a run of decimal digits, most significant first.
pub open spec fn digits_value(s: Seq<u8>) -> int
    decreases s.len(),
{
    if s.len() == 0 {
        0
    } else {
        digits_value(s.drop_last()) * 10 + (s.last() - 48)
    }
}

/// At most the first [`BUFSIZ_TEXT_LIMIT`] bytes of `s`.
pub open spec fn clip(s: Seq<u8>) -> Seq<u8> {
    if s.len() <= BUFSIZ_TEXT_LIMIT {
        s
    } else {
        s.take(BUFSIZ_TEXT_LIMIT as int)
    }
}

/// The value the parameter text denotes: clip, trim, then a non-empty
/// all-digit run whose value fits in sixteen bits — anything else is no
/// valid parameter.
pub open spec fn spec_parse_bufsiz(raw: Seq<u8>) -> Option<u16> {
    let t = spec_trim(clip(raw));
    if t.len() > 0 && all_digits(t) && digits_value(t) <= u16::MAX {
        Some(digits_value(t) as u16)
    } else {
        None
    }
}

/// Skipping a fully-whitespace prefix is exactly what `trim_start` does.
proof fn lemma_trim_start_skip(s: Seq<u8>, i: int)
    requires
        0 <= i <= s.len(),
        forall|k: int| 0 <= k < i ==> is_ascii_space(s[k]),
        i == s.len() || !is_ascii_space(s[i]),
    ensures
        trim_start(s) == s.subrange(i, s.len() as int),
    decreases i,
{
    if i == 0 {
        assert(s.subrange(0, s.len() as int) =~= s);
    } else {
        let s1 = s.drop_first();
        lemma_trim_start_skip(s1, i - 1);
        assert(s1.subrange(i - 1, s1.len() as int) =~= s.subrange(i, s.len() as int));
    }
}

/// Dropping a fully-whitespace suffix is exactly what `trim_end` does.
proof fn lemma_trim_end_skip(s: Seq<u8>, j: int)
    requires
        0 <= j <= s.len(),
        forall|k: int| j <= k < s.len() ==> is_ascii_space(s[k]),
        j == 0 || !is_ascii_space(s[j - 1]),
    ensures
        trim_end(s) == s.subrange(0, j),
    decreases s.len() - j,
{
    if j == s.len() {
        assert(s.subrange(0, s.len() as int) =~= s);
    } else {
        let s1 = s.drop_last();
        lemma_trim_end_skip(s1, j);
        assert(s1.subrange(0, j) =~= s.subrange(0, j));
    }
}

/// Appending digits to a non-negatively-valued prefix never shrinks the
/// denoted value.
proof fn lemma_digits_value_extend(s: Seq<u8>, k: int)
    requires
        0 <= k <= s.len(),
        digits_value(s.take(k)) >= 0,
        forall|j: int| k <= j < s.len() ==> is_ascii_digit(s[j]),
    ensures
        digits_value(s) >= digits_value(s.take(k)),
    decreases s.len() - k,
{
    if k == s.len() {
        assert(s.take(k) =~= s);
    } else {
        assert(s.take(k + 1).drop_last() =~= s.take(k));
        assert(s.take(k + 1).last() == s[k]);
        assert(digits_value(s.take(k + 1)) == digits_value(s.take(k)) * 10 + (s[k] - 48));
        lemma_digits_value_extend(s, k + 1);
    }
}

/// Whether `b` is an ASCII whitespace byte.
fn is_space_byte(b: u8) -> (r: bool)
    ensures
        r == is_ascii_space(b),
{
    b == 32 || b == 9 || b == 10 || b == 11 || b == 12 || b == 13
}

/// Parses the raw bytes of the parameter file.
///
/// Returns the denoted value exactly when, after clipping to the first
/// five bytes and trimming whitespace, the text is a non-empty run of
/// decimal digits denoting a value within 16-bit range; `None` otherwise.
pub fn parse_bufsiz(raw: &Vec<u8>) -> (r: Option<u16>)
    ensures
        r == spec_parse_bufsiz(raw@),
{
    let n: usize = if raw.len() <= BUFSIZ_TEXT_LIMIT {
        raw.len()
    } else {
        BUFSIZ_TEXT_LIMIT
    };
    let ghost c: Seq<u8> = clip(raw@);
    proof {
        assert(c =~= raw@.subrange(0, n as int));
    }

    let mut start: usize = 0;
    while start < n && is_space_byte(raw[start])
        invariant
            0 <= start <= n <= raw.len(),
            c == clip(raw@),
            c =~= raw@.subrange(0, n as int),
            forall|k: int| 0 <= k < start ==> is_ascii_space(c[k]),
        decreases n - start,
    {
        start = start + 1;
    }

    let mut end: usize = n;
    while end > start && is_space_byte(raw[end - 1])
        invariant
            0 <= start <= end <= n <= raw.len(),
            c == clip(raw@),
            c =~= raw@.subrange(0, n as int),
            forall|k: int| end <= k < n ==> is_ascii_space(c[k]),
            start == n || !is_ascii_space(c[start as int]),
        decreases end,
    {
        end = end - 1;
    }

    let ghost t: Seq<u8> = spec_trim(clip(raw@));
    proof {
        lemma_trim_start_skip(c, start as int);
        let mid = c.subrange(start as int, c.len() as int);
        lemma_trim_end_skip(mid, end - start);
        assert(mid.subrange(0, end - start) =~= c.subrange(start as int, end as int));
        assert(t == c.subrange(start as int, end as int));
    }

    if start == end {
        proof {
            assert(t.len() == 0);
        }
        return None;
    }

    let mut acc: u32 = 0;
    let mut i: usize = start;
    while i < end
        invariant
            0 <= start <= i <= end <= n <= raw.len(),
            start < end,
            c == clip(raw@),
            c =~= raw@.subrange(0, n as int),
            t == spec_trim(clip(raw@)),
            t == c.subrange(start as int, end as int),
            forall|k: int| start <= k < i ==> is_ascii_digit(c[k]),
            acc <= 65535,
            acc == digits_value(c.subrange(start as int, i as int)),
        decreases end - i,
    {
        let b = raw[i];
        if b < 48 || b > 57 {
            proof {
                assert(t[i - start] == c[i as int]);
                assert(!all_digits(t));
            }
            return None;
        }
        let d: u32 = (b - 48) as u32;
        let next: u32 = acc * 10 + d;
        proof {
            let pre = c.subrange(start as int, i as int);
            let ext = c.subrange(start as int, i + 1);
            assert(ext.drop_last() =~= pre);
            assert(ext.last() == c[i as int]);
            assert(digits_value(ext) == digits_value(pre) * 10 + (c[i as int] - 48));
        }
        if next > 65535 {
            proof {
                let k = i + 1 - start;
                assert(t.take(k) =~= c.subrange(start as int, i + 1));
                if all_digits(t) {
                    assert(digits_value(t.take(k)) == next);
                    lemma_digits_value_extend(t, k);
                    assert(digits_value(t) > u16::MAX);
                }
            }
            return None;
        }
        acc = next;
        i = i + 1;
    }

    proof {
        assert(forall|k: int| 0 <= k < t.len() ==> t[k] == c[start + k]);
        assert(all_digits(t));
        assert(acc == digits_value(t));
    }
    Some(acc as u16)
}

} // verus!
