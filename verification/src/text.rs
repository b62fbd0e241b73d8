//! Character-level helpers: exact string comparison, ascii-case-blind
//! comparison, and decimal parsing for the configuration surface.

use vstd::prelude::*;

verus! {

/// The code point of a character after ascii lower-casing.
pub open spec fn lower_code(c: char) -> u32 {
    if 65 <= c as u32 && c as u32 <= 90 {
        (c as u32 + 32) as u32
    } else {
        c as u32
    }
}

/// Two character sequences are equal once both are ascii lower-cased.
pub open spec fn eq_lowered(a: Seq<char>, b: Seq<char>) -> bool {
    a.len() == b.len() && forall|i: int| 0 <= i < a.len() ==> lower_code(a[i]) == lower_code(b[i])
}

/// Exact equality of two string slices.
pub fn str_eq(a: &str, b: &str) -> (r: bool)
    ensures
        r == (a@ == b@),
{
    let an: usize = a.unicode_len();
    let bn: usize = b.unicode_len();
    if an != bn {
        assert(a@ != b@);
        return false;
    }
    let mut i: usize = 0;
    while i < an
        invariant
            i <= an,
            an == a@.len(),
            an == b@.len(),
            forall|j: int| 0 <= j < i ==> a@[j] == b@[j],
        decreases an - i,
    {
        if a.get_char(i) != b.get_char(i) {
            assert(a@ != b@);
            return false;
        }
        i = i + 1;
    }
    assert(a@ =~= b@);
    true
}

/// Equality of two string slices, blind to ascii case.
pub fn eq_ignore_ascii_case(a: &str, b: &str) -> (r: bool)
    ensures
        r == eq_lowered(a@, b@),
{
    let an: usize = a.unicode_len();
    let bn: usize = b.unicode_len();
    if an != bn {
        return false;
    }
    let mut i: usize = 0;
    while i < an
        invariant
            i <= an,
            an == a@.len(),
            an == b@.len(),
            forall|j: int| 0 <= j < i ==> lower_code(a@[j]) == lower_code(b@[j]),
        decreases an - i,
    {
        let ca = a.get_char(i) as u32;
        let cb = b.get_char(i) as u32;
        let la: u32 = if 65 <= ca && ca <= 90 {
            ca + 32
        } else {
            ca
        };
        let lb: u32 = if 65 <= cb && cb <= 90 {
            cb + 32
        } else {
            cb
        };
        if la != lb {
            return false;
        }
        i = i + 1;
    }
    true
}

/// Whether the character is a decimal digit.
pub open spec fn is_digit(c: char) -> bool {
    48 <= c as u32 && c as u32 <= 57
}

/// The value of a decimal digit character.
pub open spec fn digit_val(c: char) -> int {
    c as u32 - 48
}

/// The number written by a sequence of decimal digits, most significant first.
pub open spec fn digits_val(s: Seq<char>) -> int
    decreases s.len(),
{
    if s.len() == 0 {
        0
    } else {
        digits_val(s.drop_last()) * 10 + digit_val(s.last())
    }
}

/// The digit part of a written number: everything after an optional leading
/// plus sign.
pub open spec fn digits_part(s: Seq<char>) -> Seq<char> {
    if s.len() > 0 && s[0] == '+' {
        s.drop_first()
    } else {
        s
    }
}

/// Whether the sequence is a well-formed unsigned decimal numeral: an
/// optional plus sign, then at least one digit.
pub open spec fn is_numeral(s: Seq<char>) -> bool {
    &&& digits_part(s).len() > 0
    &&& forall|i: int| 0 <= i < digits_part(s).len() ==> is_digit(digits_part(s)[i])
}

/// Extending a digit string multiplies its value by ten; the value never
/// shrinks as digits are appended.
proof fn lemma_digits_val_monotone(s: Seq<char>, i: int)
    requires
        0 <= i <= s.len(),
        forall|j: int| 0 <= j < s.len() ==> is_digit(#[trigger] s[j]),
    ensures
        digits_val(s) >= digits_val(s.take(i)),
        digits_val(s) >= 0,
    decreases s.len() - i,
{
    if i < s.len() {
        assert(s.take(i + 1).drop_last() =~= s.take(i));
        assert(s.take(i + 1).last() == s[i]);
        assert(digits_val(s.take(i)) >= 0 ==> digits_val(s.take(i + 1)) >= digits_val(
            s.take(i),
        )) by {
            if digits_val(s.take(i)) >= 0 {
                assert(digit_val(s[i]) >= 0);
            }
        }
        lemma_digits_val_nonneg(s.take(i));
        lemma_digits_val_monotone(s, i + 1);
    } else {
        assert(s.take(i) =~= s);
        lemma_digits_val_nonneg(s);
    }
}

/// A digit string writes a non-negative number.
proof fn lemma_digits_val_nonneg(s: Seq<char>)
    requires
        forall|j: int| 0 <= j < s.len() ==> is_digit(#[trigger] s[j]),
    ensures
        digits_val(s) >= 0,
    decreases s.len(),
{
    if s.len() > 0 {
        lemma_digits_val_nonneg(s.drop_last());
    }
}

/// The non-empty lines of `s`, folded left to right: `cur` holds the
/// characters of the line being read, `acc` the finished lines.
pub open spec fn lines_acc(s: Seq<char>, cur: Seq<char>, acc: Seq<Seq<char>>) -> Seq<Seq<char>>
    decreases s.len(),
{
    if s.len() == 0 {
        if cur.len() == 0 {
            acc
        } else {
            acc.push(cur)
        }
    } else if s[0] == '\n' {
        if cur.len() == 0 {
            lines_acc(s.drop_first(), Seq::empty(), acc)
        } else {
            lines_acc(s.drop_first(), Seq::empty(), acc.push(cur))
        }
    } else {
        lines_acc(s.drop_first(), cur.push(s[0]), acc)
    }
}

/// The text split at line breaks, empty lines dropped.
pub open spec fn nonempty_lines(s: Seq<char>) -> Seq<Seq<char>> {
    lines_acc(s, Seq::empty(), Seq::empty())
}

/// The view of a vector of strings.
pub open spec fn strings_view(v: Seq<String>) -> Seq<Seq<char>> {
    v.map_values(|x: String| x@)
}

/// Splits the text at line breaks, dropping empty lines.
pub fn split_nonempty_lines(s: &str) -> (r: Vec<String>)
    ensures
        strings_view(r@) == nonempty_lines(s@),
{
    let n: usize = s.unicode_len();
    let mut r: Vec<String> = Vec::new();
    let mut seg_start: usize = 0;
    let mut i: usize = 0;
    proof {
        assert(s@.subrange(0, 0) =~= Seq::<char>::empty());
        assert(s@.skip(0) =~= s@);
        assert(strings_view(r@) =~= Seq::<Seq<char>>::empty());
    }
    while i < n
        invariant
            seg_start <= i <= n,
            n == s@.len(),
            lines_acc(s@.skip(i as int), s@.subrange(seg_start as int, i as int), strings_view(r@))
                == nonempty_lines(s@),
        decreases n - i,
    {
        proof {
            assert(s@.skip(i as int)[0] == s@[i as int]);
            assert(s@.skip(i as int).drop_first() =~= s@.skip(i + 1 as int));
        }
        let c = s.get_char(i);
        if c == '\n' {
            if i > seg_start {
                let line = s.substring_char(seg_start, i).to_owned();
                let ghost prev = strings_view(r@);
                r.push(line);
                proof {
                    assert(strings_view(r@) =~= prev.push(s@.subrange(seg_start as int, i as int)));
                }
            }
            seg_start = i + 1;
            proof {
                assert(s@.subrange(seg_start as int, seg_start as int) =~= Seq::<char>::empty());
            }
        } else {
            proof {
                assert(s@.subrange(seg_start as int, i + 1 as int) =~= s@.subrange(
                    seg_start as int,
                    i as int,
                ).push(s@[i as int]));
            }
        }
        i = i + 1;
    }
    proof {
        assert(s@.skip(n as int) =~= Seq::<char>::empty());
    }
    if n > seg_start {
        let line = s.substring_char(seg_start, n).to_owned();
        let ghost prev = strings_view(r@);
        r.push(line);
        proof {
            assert(strings_view(r@) =~= prev.push(s@.subrange(seg_start as int, n as int)));
        }
    }
    r
}

/// Parses an unsigned decimal numeral. Returns the written number exactly
/// when the text is a well-formed numeral whose value fits in a `u64`.
pub fn parse_u64(s: &str) -> (r: Option<u64>)
    ensures
        match r {
            Some(v) => is_numeral(s@) && digits_val(digits_part(s@)) == v,
            None => !(is_numeral(s@) && digits_val(digits_part(s@)) <= u64::MAX),
        },
{
    let n: usize = s.unicode_len();
    let mut start: usize = 0;
    if n > 0 && s.get_char(0) == '+' {
        start = 1;
    }
    let ghost digits = digits_part(s@);
    assert(digits =~= s@.subrange(start as int, n as int));
    if start >= n {
        return None;
    }
    let mut acc: u64 = 0;
    let mut i: usize = start;
    while i < n
        invariant
            start <= i <= n,
            n == s@.len(),
            start < n,
            digits == digits_part(s@),
            digits =~= s@.subrange(start as int, n as int),
            forall|j: int| 0 <= j < i - start ==> is_digit(#[trigger] digits[j]),
            acc == digits_val(digits.take(i - start)),
        decreases n - i,
    {
        let c = s.get_char(i);
        let cu = c as u32;
        if !(48 <= cu && cu <= 57) {
            assert(!is_digit(digits[i - start]));
            return None;
        }
        let d: u64 = (cu - 48) as u64;
        if acc > 1844674407370955161 || (acc == 1844674407370955161 && d > 5) {
            // the next digit would push the value past u64::MAX
            assert(digits.take(i - start + 1).drop_last() =~= digits.take(i - start));
            assert(digits.take(i - start + 1).last() == digits[i - start]);
            assert(digits_val(digits.take(i - start + 1)) > u64::MAX);
            proof {
                if forall|j: int| 0 <= j < digits.len() ==> is_digit(#[trigger] digits[j]) {
                    lemma_digits_val_monotone(digits, i - start + 1);
                }
            }
            return None;
        }
        assert(digits.take(i - start + 1).drop_last() =~= digits.take(i - start));
        assert(digits.take(i - start + 1).last() == digits[i - start]);
        acc = acc * 10 + d;
        i = i + 1;
    }
    assert(digits.take(n - start) =~= digits);
    Some(acc)
}

/// Parses an unsigned decimal numeral into a `u8`. Returns the written
/// number exactly when the text is well formed and the value fits.
pub fn parse_u8(s: &str) -> (r: Option<u8>)
    ensures
        match r {
            Some(v) => is_numeral(s@) && digits_val(digits_part(s@)) == v,
            None => !(is_numeral(s@) && digits_val(digits_part(s@)) <= u8::MAX),
        },
{
    match parse_u64(s) {
        Some(v) => if v <= 255 {
            Some(v as u8)
        } else {
            None
        },
        None => None,
    }
}

/// Parses an unsigned decimal numeral into a `u16`. Returns the written
/// number exactly when the text is well formed and the value fits.
pub fn parse_u16(s: &str) -> (r: Option<u16>)
    ensures
        match r {
            Some(v) => is_numeral(s@) && digits_val(digits_part(s@)) == v,
            None => !(is_numeral(s@) && digits_val(digits_part(s@)) <= u16::MAX),
        },
{
    match parse_u64(s) {
        Some(v) => if v <= 65535 {
            Some(v as u16)
        } else {
            None
        },
        None => None,
    }
}

} // verus!
