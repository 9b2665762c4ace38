//! Character-level building blocks for the JSON texts this crate emits:
//! decimal renderings of integers and the escaping used inside JSON string
//! literals.

use vstd::prelude::*;

verus! {

/// Relies on `String::push`: appends exactly the given character.
#[verifier::external_body]
pub fn push_char(s: &mut String, c: char)
    ensures
        final(s)@ == old(s)@.push(c),
{
    s.push(c);
}

/// The character for a single decimal digit.
pub open spec fn spec_digit_char(d: nat) -> char {
    if d == 0 {
        '0'
    } else if d == 1 {
        '1'
    } else if d == 2 {
        '2'
    } else if d == 3 {
        '3'
    } else if d == 4 {
        '4'
    } else if d == 5 {
        '5'
    } else if d == 6 {
        '6'
    } else if d == 7 {
        '7'
    } else if d == 8 {
        '8'
    } else {
        '9'
    }
}

/// The decimal rendering of a natural number, most significant digit first,
/// with no leading zeros (zero itself is rendered as `0`).
pub open spec fn spec_dec_nat(n: nat) -> Seq<char>
    decreases n,
{
    if n < 10 {
        seq![spec_digit_char(n)]
    } else {
        spec_dec_nat(n / 10) + seq![spec_digit_char(n % 10)]
    }
}

/// The decimal rendering of an integer: a minus sign before the magnitude
/// for negative values.
pub open spec fn spec_dec_int(n: int) -> Seq<char> {
    if n < 0 {
        seq!['-'] + spec_dec_nat((-n) as nat)
    } else {
        spec_dec_nat(n as nat)
    }
}

fn digit_char(d: u64) -> (c: char)
    requires
        d < 10,
    ensures
        c == spec_digit_char(d as nat),
{
    if d == 0 {
        '0'
    } else if d == 1 {
        '1'
    } else if d == 2 {
        '2'
    } else if d == 3 {
        '3'
    } else if d == 4 {
        '4'
    } else if d == 5 {
        '5'
    } else if d == 6 {
        '6'
    } else if d == 7 {
        '7'
    } else if d == 8 {
        '8'
    } else {
        '9'
    }
}

/// How one character is written inside a JSON string literal: quotes,
/// backslashes and the common control characters take a two-character
/// escape, every other character stands for itself.
pub open spec fn spec_escape_char(c: char) -> Seq<char> {
    if c == '"' {
        seq!['\\', '"']
    } else if c == '\\' {
        seq!['\\', '\\']
    } else if c == '\n' {
        seq!['\\', 'n']
    } else if c == '\r' {
        seq!['\\', 'r']
    } else if c == '\t' {
        seq!['\\', 't']
    } else {
        seq![c]
    }
}

/// The body of a JSON string literal holding the text `s`.
pub open spec fn spec_escape(s: Seq<char>) -> Seq<char>
    decreases s.len(),
{
    if s.len() == 0 {
        Seq::empty()
    } else {
        spec_escape(s.drop_last()) + spec_escape_char(s.last())
    }
}

/// A JSON string literal holding the text `s`, quotes included.
pub open spec fn spec_quoted(s: Seq<char>) -> Seq<char> {
    seq!['"'] + spec_escape(s) + seq!['"']
}

/// Appends the escaped form of `t` (without surrounding quotes) to `s`.
pub fn push_escaped(s: &mut String, t: &str)
    ensures
        final(s)@ == old(s)@ + spec_escape(t@),
{
    let n = t.unicode_len();
    let mut i: usize = 0;
    while i < n
        invariant
            n == t@.len(),
            i <= n,
            s@ == old(s)@ + spec_escape(t@.subrange(0, i as int)),
        decreases n - i,
    {
        let c = t.get_char(i);
        if c == '"' {
            proof {
                reveal_strlit("\\\"");
            }
            s.append("\\\"");
        } else if c == '\\' {
            proof {
                reveal_strlit("\\\\");
            }
            s.append("\\\\");
        } else if c == '\n' {
            proof {
                reveal_strlit("\\n");
            }
            s.append("\\n");
        } else if c == '\r' {
            proof {
                reveal_strlit("\\r");
            }
            s.append("\\r");
        } else if c == '\t' {
            proof {
                reveal_strlit("\\t");
            }
            s.append("\\t");
        } else {
            push_char(s, c);
        }
        proof {
            let pre = t@.subrange(0, i as int);
            let cur = t@.subrange(0, i as int + 1);
            assert(cur.drop_last() =~= pre);
            assert(cur.last() == t@[i as int]);
            assert(s@ =~= old(s)@ + spec_escape(cur));
        }
        i = i + 1;
    }
    proof {
        assert(t@.subrange(0, n as int) =~= t@);
    }
}

/// Appends the quoted, escaped form of `t` to `s`.
pub fn push_quoted(s: &mut String, t: &str)
    ensures
        final(s)@ == old(s)@ + spec_quoted(t@),
{
    push_char(s, '"');
    push_escaped(s, t);
    push_char(s, '"');
    assert(s@ =~= old(s)@ + spec_quoted(t@));
}

/// Appends the decimal rendering of `n` to `s`.
pub fn push_dec_u64(s: &mut String, n: u64)
    ensures
        final(s)@ == old(s)@ + spec_dec_nat(n as nat),
    decreases n,
{
    if n < 10 {
        push_char(s, digit_char(n));
        assert(s@ =~= old(s)@ + spec_dec_nat(n as nat));
    } else {
        push_dec_u64(s, n / 10);
        push_char(s, digit_char(n % 10));
        assert(s@ =~= old(s)@ + spec_dec_nat(n as nat));
    }
}

/// Matches the literal `lit` inside `s` at position `i`: on success the
/// returned index sits just past the literal; on failure the literal does
/// not occur at that position.
pub(crate) fn match_lit(s: &str, i: usize, lit: &str) -> (r: Option<usize>)
    requires
        i <= s@.len(),
    ensures
        r matches Some(j) ==> j == i + lit@.len() && j <= s@.len() && s@.subrange(
            i as int,
            j as int,
        ) == lit@,
        r is None ==> !(i + lit@.len() <= s@.len() && s@.subrange(
            i as int,
            i + lit@.len(),
        ) == lit@),
{
    let sn = s.unicode_len();
    let ln = lit.unicode_len();
    if ln > sn - i {
        return None;
    }
    let mut k: usize = 0;
    while k < ln
        invariant
            sn == s@.len(),
            ln == lit@.len(),
            i + ln <= sn,
            k <= ln,
            forall|t: int| 0 <= t < k ==> s@[i + t] == lit@[t],
        decreases ln - k,
    {
        if s.get_char(i + k) != lit.get_char(k) {
            proof {
                assert(s@.subrange(i as int, i + lit@.len())[k as int] == s@[i + k]);
            }
            return None;
        }
        k = k + 1;
    }
    proof {
        assert(s@.subrange(i as int, (i + ln) as int) =~= lit@);
    }
    Some(i + ln)
}

/// Appends the decimal rendering of `n` to `s`, with a leading minus sign
/// when `n` is negative.
pub fn push_dec_i64(s: &mut String, n: i64)
    ensures
        final(s)@ == old(s)@ + spec_dec_int(n as int),
{
    if n < 0 {
        push_char(s, '-');
        let mag: u64 = ((-(n + 1)) as u64) + 1;
        assert(mag as int == -(n as int));
        push_dec_u64(s, mag);
        assert(s@ =~= old(s)@ + spec_dec_int(n as int));
    } else {
        push_dec_u64(s, n as u64);
        assert(s@ =~= old(s)@ + spec_dec_int(n as int));
    }
}

} // verus!
