//! Verified text helpers: trimming, reading a `u32` from decimal text,
//! and writing one back.

use vstd::prelude::*;
use vstd::string::StrSliceExecFns;

verus! {

/// The whitespace characters that `trim` removes at either end: the
/// characters with the White_Space property.
pub open spec fn is_space(c: char) -> bool {
    c == ' ' || c == '\t' || c == '\n' || c == '\u{0B}' || c == '\u{0C}' || c == '\r' || c
        == '\u{85}' || c == '\u{A0}' || c == '\u{1680}' || ('\u{2000}' as int <= c as int && c as int
        <= '\u{200A}' as int) || c == '\u{2028}' || c == '\u{2029}' || c == '\u{202F}' || c
        == '\u{205F}' || c == '\u{3000}'
}

/// `s` without its leading whitespace.
pub open spec fn spec_trim_start(s: Seq<char>) -> Seq<char>
    decreases s.len(),
{
    if s.len() > 0 && is_space(s[0]) {
        spec_trim_start(s.drop_first())
    } else {
        s
    }
}

/// `s` without its trailing whitespace.
pub open spec fn spec_trim_end(s: Seq<char>) -> Seq<char>
    decreases s.len(),
{
    if s.len() > 0 && is_space(s.last()) {
        spec_trim_end(s.drop_last())
    } else {
        s
    }
}

/// `s` without whitespace at either end.
pub open spec fn spec_trim(s: Seq<char>) -> Seq<char> {
    spec_trim_end(spec_trim_start(s))
}

#[verifier::when_used_as_spec(is_space)]
fn is_space_char(c: char) -> (r: bool)
    ensures
        r == is_space(c),
{
    let u = c as u32;
    u == ' ' as u32 || u == '\t' as u32 || u == '\n' as u32 || u == 0xB || u == 0xC || u
        == '\r' as u32 || u == 0x85 || u == 0xA0 || u == 0x1680 || (0x2000 <= u && u <= 0x200A)
        || u == 0x2028 || u == 0x2029 || u == 0x202F || u == 0x205F || u == 0x3000
}

proof fn lemma_trim_start_prefix(s: Seq<char>, k: int)
    requires
        0 <= k <= s.len(),
        forall|i: int| 0 <= i < k ==> is_space(s[i]),
        k == s.len() || !is_space(s[k]),
    ensures
        spec_trim_start(s) == s.subrange(k, s.len() as int),
    decreases k,
{
    if k == 0 {
        assert(spec_trim_start(s) == s.subrange(0, s.len() as int)) by {
            assert(s.subrange(0, s.len() as int) =~= s);
        }
    } else {
        let t = s.drop_first();
        assert(forall|i: int| 0 <= i < k - 1 ==> is_space(t[i]));
        lemma_trim_start_prefix(t, k - 1);
        assert(t.subrange(k - 1, t.len() as int) =~= s.subrange(k, s.len() as int));
    }
}

proof fn lemma_trim_end_suffix(s: Seq<char>, k: int)
    requires
        0 <= k <= s.len(),
        forall|i: int| k <= i < s.len() ==> is_space(s[i]),
        k == 0 || !is_space(s[k - 1]),
    ensures
        spec_trim_end(s) == s.subrange(0, k),
    decreases s.len() - k,
{
    if k == s.len() {
        assert(spec_trim_end(s) == s.subrange(0, k)) by {
            assert(s.subrange(0, k) =~= s);
        }
    } else {
        let t = s.drop_last();
        assert(forall|i: int| k <= i < t.len() ==> is_space(t[i]));
        lemma_trim_end_suffix(t, k);
        assert(t.subrange(0, k) =~= s.subrange(0, k));
    }
}

/// Removes whitespace from both ends.
pub fn trim(s: &str) -> (r: &str)
    ensures
        r@ == spec_trim(s@),
{
    let len = s.unicode_len();
    let mut start: usize = 0;
    loop
        invariant
            0 <= start <= len,
            len == s@.len(),
            forall|i: int| 0 <= i < start ==> is_space(s@[i]),
        ensures
            0 <= start <= len,
            forall|i: int| 0 <= i < start ==> is_space(s@[i]),
            start == len || !is_space(s@[start as int]),
        decreases len - start,
    {
        if start >= len {
            break;
        }
        if !is_space_char(s.get_char(start)) {
            break;
        }
        start = start + 1;
    }
    let mut end: usize = len;
    loop
        invariant
            start <= end <= len,
            len == s@.len(),
            forall|i: int| end <= i < len ==> is_space(s@[i]),
        ensures
            start <= end <= len,
            forall|i: int| end <= i < len ==> is_space(s@[i]),
            end == start || !is_space(s@[end - 1]),
        decreases end,
    {
        if end <= start {
            break;
        }
        if !is_space_char(s.get_char(end - 1)) {
            break;
        }
        end = end - 1;
    }
    proof {
        lemma_trim_start_prefix(s@, start as int);
        let t = s@.subrange(start as int, len as int);
        assert(forall|i: int| end - start <= i < t.len() ==> is_space(t[i]));
        assert(end - start == 0 || !is_space(t[end - start - 1]));
        lemma_trim_end_suffix(t, end - start);
        assert(t.subrange(0, end - start) =~= s@.subrange(start as int, end as int));
    }
    s.substring_char(start, end)
}

/// A decimal digit.
pub open spec fn is_digit(c: char) -> bool {
    '0' as int <= c as int && c as int <= '9' as int
}

/// The value of a decimal digit.
pub open spec fn digit_val(c: char) -> int {
    c as int - '0' as int
}

/// Why reading an integer out of text failed.
#[derive(Clone, Copy, Debug, PartialEq, Eq)]
pub enum IntErrorKind {
    Empty,
    InvalidDigit,
    PosOverflow,
}

/// An error from reading an integer out of text.
#[derive(Clone, Copy, Debug, PartialEq, Eq)]
pub struct ParseIntError {
    pub kind: IntErrorKind,
}

/// Reads decimal digits left to right into `acc`, stopping at the first
/// character that is no digit and at the first value past `u32::MAX`.
pub open spec fn spec_parse_digits(s: Seq<char>, acc: int) -> Result<int, IntErrorKind>
    decreases s.len(),
{
    if s.len() == 0 {
        Ok(acc)
    } else if !is_digit(s[0]) {
        Err(IntErrorKind::InvalidDigit)
    } else if acc * 10 + digit_val(s[0]) > u32::MAX {
        Err(IntErrorKind::PosOverflow)
    } else {
        spec_parse_digits(s.drop_first(), acc * 10 + digit_val(s[0]))
    }
}

/// What `parse_u32` returns: an optional leading `+`, then digits.
pub open spec fn spec_parse_u32(s: Seq<char>) -> Result<int, IntErrorKind> {
    if s.len() == 0 {
        Err(IntErrorKind::Empty)
    } else {
        let body = if s[0] == '+' {
            s.drop_first()
        } else {
            s
        };
        if body.len() == 0 {
            Err(IntErrorKind::InvalidDigit)
        } else {
            spec_parse_digits(body, 0)
        }
    }
}

/// Reads a `u32` out of decimal text, as `spec_parse_u32` says.
pub fn parse_u32(s: &str) -> (r: Result<u32, ParseIntError>)
    ensures
        (match (spec_parse_u32(s@), r) {
            (Ok(n), Ok(m)) => m == n,
            (Err(k), Err(e)) => e.kind == k,
            _ => false,
        }),
{
    let len = s.unicode_len();
    if len == 0 {
        return Err(ParseIntError { kind: IntErrorKind::Empty });
    }
    let first = s.get_char(0);
    let start: usize = if first == '+' {
        1
    } else {
        0
    };
    if len == start {
        return Err(ParseIntError { kind: IntErrorKind::InvalidDigit });
    }
    let ghost body = if s@[0] == '+' {
        s@.drop_first()
    } else {
        s@
    };
    let mut i: usize = start;
    let mut acc: u32 = 0;
    proof {
        assert(body =~= s@.subrange(start as int, len as int));
    }
    while i < len
        invariant
            start <= i <= len,
            len == s@.len(),
            body == s@.subrange(start as int, len as int),
            body.len() > 0,
            spec_parse_u32(s@) == spec_parse_digits(body, 0),
            spec_parse_digits(body, 0) == spec_parse_digits(
                s@.subrange(i as int, len as int),
                acc as int,
            ),
        decreases len - i,
    {
        let ghost rest = s@.subrange(i as int, len as int);
        let c = s.get_char(i);
        proof {
            assert(rest[0] == s@[i as int]);
        }
        let cu = c as u32;
        if cu < '0' as u32 || cu > '9' as u32 {
            proof {
                assert(!is_digit(rest[0]));
                assert(spec_parse_digits(rest, acc as int) == Err::<int, IntErrorKind>(
                    IntErrorKind::InvalidDigit,
                ));
            }
            return Err(ParseIntError { kind: IntErrorKind::InvalidDigit });
        }
        let d = cu - ('0' as u32);
        if acc > u32::MAX / 10 || (acc == u32::MAX / 10 && d > u32::MAX % 10) {
            proof {
                assert(acc * 10 + digit_val(rest[0]) > u32::MAX) by (nonlinear_arith)
                    requires
                        acc as int >= 0,
                        d == digit_val(rest[0]),
                        d < 10,
                        acc > u32::MAX / 10 || (acc == u32::MAX / 10 && d > u32::MAX % 10),
                ;
                assert(is_digit(rest[0]));
                assert(spec_parse_digits(rest, acc as int) == Err::<int, IntErrorKind>(
                    IntErrorKind::PosOverflow,
                ));
            }
            return Err(ParseIntError { kind: IntErrorKind::PosOverflow });
        }
        proof {
            assert(acc * 10 + digit_val(rest[0]) <= u32::MAX) by (nonlinear_arith)
                requires
                    acc as int >= 0,
                    d == digit_val(rest[0]),
                    0 <= d < 10,
                    !(acc > u32::MAX / 10 || (acc == u32::MAX / 10 && d > u32::MAX % 10)),
            ;
            assert(rest.drop_first() =~= s@.subrange(i + 1, len as int));
        }
        acc = acc * 10 + d;
        i = i + 1;
    }
    proof {
        assert(s@.subrange(len as int, len as int) =~= Seq::<char>::empty());
    }
    Ok(acc)
}

/// The character of one decimal digit.
pub open spec fn spec_digit_char(d: int) -> char {
    if d == 0 {
        '0'
    } else if d == 1 {
        '1'
    } else if d == 2 {
        '2'
    } else if d == 3 {
        '3'
    } else if d == 4 {
        '4'
    } else if d == 5 {
        '5'
    } else if d == 6 {
        '6'
    } else if d == 7 {
        '7'
    } else if d == 8 {
        '8'
    } else {
        '9'
    }
}

/// The decimal digits of `n`, most significant first.
pub open spec fn spec_u32_dec(n: int) -> Seq<char>
    decreases n,
{
    if n < 0 {
        Seq::empty()
    } else if n < 10 {
        seq![spec_digit_char(n)]
    } else {
        spec_u32_dec(n / 10).push(spec_digit_char(n % 10))
    }
}

fn push_digit(s: &mut String, d: u32)
    requires
        d < 10,
    ensures
        final(s)@ == old(s)@.push(spec_digit_char(d as int)),
{
    proof {
        reveal_strlit("0");
        reveal_strlit("1");
        reveal_strlit("2");
        reveal_strlit("3");
        reveal_strlit("4");
        reveal_strlit("5");
        reveal_strlit("6");
        reveal_strlit("7");
        reveal_strlit("8");
        reveal_strlit("9");
    }
    if d == 0 {
        s.append("0");
    } else if d == 1 {
        s.append("1");
    } else if d == 2 {
        s.append("2");
    } else if d == 3 {
        s.append("3");
    } else if d == 4 {
        s.append("4");
    } else if d == 5 {
        s.append("5");
    } else if d == 6 {
        s.append("6");
    } else if d == 7 {
        s.append("7");
    } else if d == 8 {
        s.append("8");
    } else {
        s.append("9");
    }
    proof {
        assert(s@ =~= old(s)@.push(spec_digit_char(d as int)));
    }
}

/// Appends the decimal digits of `n`.
pub fn append_u32_dec(s: &mut String, n: u32)
    ensures
        final(s)@ == old(s)@ + spec_u32_dec(n as int),
    decreases n,
{
    if n < 10 {
        push_digit(s, n);
        proof {
            assert(s@ =~= old(s)@ + spec_u32_dec(n as int));
        }
    } else {
        append_u32_dec(s, n / 10);
        push_digit(s, n % 10);
        proof {
            assert(s@ =~= old(s)@ + spec_u32_dec(n as int));
        }
    }
}

} // verus!
