//! The JSON-RPC response envelope: its shape, the decision that turns an
//! envelope into the caller's result or a structured error, and a parser
//! for the textual form of the envelope.
//!
//! The language the parser accepts is defined by the specification-level
//! parser [`spec_parse_response`]: the member order the engine emits
//! (`jsonrpc`, `id`, then `result` or `error`, the error body carrying
//! `code`, `message` and an optional `data` member), with the full set of
//! JSON string escapes the engine's serializer produces (the named escapes
//! and `\u00..` for control characters). The executable parser's contract
//! equates it with that definition on every input, in both directions: it
//! accepts exactly the defined language and returns exactly the defined
//! fields.

use vstd::prelude::*;

use crate::error::{Error, RpcError};
use crate::jsonstr::{match_lit, push_char};

verus! {

/// A parsed JSON-RPC response envelope.
///
/// Exactly one of `result` and `error` is normally present; a response with
/// neither signals failure without a structured error body.
#[derive(Debug, Clone)]
pub struct JsonRpcResponse<R> {
    pub id: String,
    pub jsonrpc: String,
    pub result: Option<R>,
    pub error: Option<RpcError>,
}

impl<R> JsonRpcResponse<R> {
    /// The decision at the heart of every typed request: a present `result`
    /// decodes to success; an absent `result` decodes to the envelope's
    /// structured error, or to the default "no matched rpc error" error
    /// when the envelope carries no error body either.
    pub fn into_result(self) -> (r: Result<R, Error>)
        ensures
            self.result matches Some(v) ==> r == Ok::<R, Error>(v),
            self.result is None ==> (self.error matches Some(e) ==> r == Err::<R, Error>(
                Error::JsonRpcError(e),
            )),
            self.result is None && self.error is None ==> (match r {
                Err(Error::JsonRpcError(re)) => re.code == 0 && re.message@
                    == "No matched rpc error"@,
                _ => false,
            }),
    {
        match self.result {
            Some(v) => Ok(v),
            None => match self.error {
                Some(e) => Err(Error::JsonRpcError(e)),
                None => Err(Error::JsonRpcError(RpcError::default())),
            },
        }
    }
}

/// The fields read off a response envelope's `error` member. The raw text
/// of an optional `data` member is kept here; the envelope decision ignores
/// it.
pub struct ErrorModel {
    pub code: int,
    pub message: Seq<char>,
    pub data: Option<Seq<char>>,
}

/// The fields read off a response envelope.
pub struct ResponseModel {
    pub jsonrpc: Seq<char>,
    pub id: Seq<char>,
    pub result: Option<Seq<char>>,
    pub error: Option<ErrorModel>,
}

/// Whether the literal `lit` occurs in `s` at position `i`.
pub open spec fn spec_starts_at(s: Seq<char>, i: int, lit: Seq<char>) -> bool {
    0 <= i && i + lit.len() <= s.len() && s.subrange(i, i + lit.len()) == lit
}

/// The value of a hexadecimal digit, or `-1`.
pub open spec fn spec_hex_val(c: char) -> int {
    if c == '0' {
        0
    } else if c == '1' {
        1
    } else if c == '2' {
        2
    } else if c == '3' {
        3
    } else if c == '4' {
        4
    } else if c == '5' {
        5
    } else if c == '6' {
        6
    } else if c == '7' {
        7
    } else if c == '8' {
        8
    } else if c == '9' {
        9
    } else if c == 'a' || c == 'A' {
        10
    } else if c == 'b' || c == 'B' {
        11
    } else if c == 'c' || c == 'C' {
        12
    } else if c == 'd' || c == 'D' {
        13
    } else if c == 'e' || c == 'E' {
        14
    } else if c == 'f' || c == 'F' {
        15
    } else {
        -1
    }
}

/// The character a single-letter JSON escape stands for, if the letter is
/// one.
pub open spec fn spec_escape_decode(c: char) -> Option<char> {
    if c == '"' {
        Some('"')
    } else if c == '\\' {
        Some('\\')
    } else if c == '/' {
        Some('/')
    } else if c == 'b' {
        Some('\u{0008}')
    } else if c == 'f' {
        Some('\u{000C}')
    } else if c == 'n' {
        Some('\n')
    } else if c == 'r' {
        Some('\r')
    } else if c == 't' {
        Some('\t')
    } else {
        None
    }
}

/// JSON requires control characters inside strings to be escaped.
pub open spec fn spec_is_control(c: char) -> bool {
    (c as u32) < 0x20
}

/// Parses the body of a JSON string literal starting at `i` (just past the
/// opening quote): the decoded content, and the index just past the closing
/// quote. Accepts the named escapes, `\u00..` escapes below `0x80` (the
/// serializer escapes only control characters), and every unescaped
/// non-control character.
pub open spec fn spec_parse_string_body(s: Seq<char>, i: int) -> Option<(Seq<char>, int)>
    decreases s.len() - i,
{
    if i < 0 || i >= s.len() {
        None
    } else if s[i] == '"' {
        Some((Seq::<char>::empty(), i + 1))
    } else if s[i] == '\\' {
        if i + 1 < s.len() {
            if spec_escape_decode(s[i + 1]) is Some {
                match spec_parse_string_body(s, i + 2) {
                    Some(p) => Some((seq![spec_escape_decode(s[i + 1])->Some_0] + p.0, p.1)),
                    None => None,
                }
            } else if s[i + 1] == 'u' && i + 6 <= s.len() && s[i + 2] == '0' && s[i + 3] == '0'
                && spec_hex_val(s[i + 4]) >= 0 && spec_hex_val(s[i + 5]) >= 0 && spec_hex_val(
                s[i + 4],
            ) * 16 + spec_hex_val(s[i + 5]) < 0x80 {
                match spec_parse_string_body(s, i + 6) {
                    Some(p) => Some(
                        (
                            seq![
                                (((spec_hex_val(s[i + 4]) * 16 + spec_hex_val(s[i + 5])) as u8) as char),
                            ] + p.0,
                            p.1,
                        ),
                    ),
                    None => None,
                }
            } else {
                None
            }
        } else {
            None
        }
    } else if spec_is_control(s[i]) {
        None
    } else {
        match spec_parse_string_body(s, i + 1) {
            Some(p) => Some((seq![s[i]] + p.0, p.1)),
            None => None,
        }
    }
}

/// Parses a whole JSON string literal at position `i`, quotes included.
pub open spec fn spec_parse_quoted(s: Seq<char>, i: int) -> Option<(Seq<char>, int)> {
    if 0 <= i < s.len() && s[i] == '"' {
        spec_parse_string_body(s, i + 1)
    } else {
        None
    }
}

/// The value of a decimal digit, or `-1`.
pub open spec fn spec_digit_val(c: char) -> int {
    if c == '0' {
        0
    } else if c == '1' {
        1
    } else if c == '2' {
        2
    } else if c == '3' {
        3
    } else if c == '4' {
        4
    } else if c == '5' {
        5
    } else if c == '6' {
        6
    } else if c == '7' {
        7
    } else if c == '8' {
        8
    } else if c == '9' {
        9
    } else {
        -1
    }
}

pub open spec fn spec_is_digit(c: char) -> bool {
    spec_digit_val(c) >= 0
}

/// The first position at or after `i` that does not hold a digit.
pub open spec fn spec_digit_run_end(s: Seq<char>, i: int) -> int
    decreases s.len() - i,
{
    if i < 0 || i >= s.len() || !spec_is_digit(s[i]) {
        i
    } else {
        spec_digit_run_end(s, i + 1)
    }
}

/// The value of the digits `s[i..j]`, most significant first.
pub open spec fn spec_digits_value(s: Seq<char>, i: int, j: int) -> int
    decreases j - i,
{
    if j <= i {
        0
    } else {
        spec_digits_value(s, i, j - 1) * 10 + spec_digit_val(s[j - 1])
    }
}

/// Parses a JSON integer (an error code) at position `i`: an optional
/// minus sign and digits without leading zeros, restricted to the values an
/// `i128` can carry.
pub open spec fn spec_parse_code(s: Seq<char>, i: int) -> Option<(int, int)> {
    if i < 0 {
        None
    } else {
        let neg = i < s.len() && s[i] == '-';
        let d0 = if neg {
            i + 1
        } else {
            i
        };
        if d0 < s.len() && spec_is_digit(s[d0]) {
            let j = spec_digit_run_end(s, d0);
            if s[d0] == '0' && (neg || j != d0 + 1) {
                None
            } else {
                let v = spec_digits_value(s, d0, j);
                let sv = if neg {
                    -v
                } else {
                    v
                };
                if i128::MIN <= sv <= i128::MAX {
                    Some((sv, j))
                } else {
                    None
                }
            }
        } else {
            None
        }
    }
}

/// The tail of an envelope after the `id` member: the closing brace alone,
/// a `result` member whose raw text runs to the closing brace, or an
/// `error` member.
pub open spec fn spec_parse_tail(raw: Seq<char>, i: int, jsonrpc: Seq<char>, id: Seq<char>) -> Option<
    ResponseModel,
> {
    if i == raw.len() - 1 && 0 <= i && raw[i] == '}' {
        Some(ResponseModel { jsonrpc, id, result: None, error: None })
    } else if spec_starts_at(raw, i, ",\"result\":"@) {
        let ir = i + ",\"result\":"@.len();
        if ir <= raw.len() - 1 && raw[raw.len() - 1] == '}' {
            Some(
                ResponseModel {
                    jsonrpc,
                    id,
                    result: Some(raw.subrange(ir, raw.len() - 1)),
                    error: None,
                },
            )
        } else {
            None
        }
    } else if spec_starts_at(raw, i, ",\"error\":{\"code\":"@) {
        match spec_parse_code(raw, i + ",\"error\":{\"code\":"@.len()) {
            Some(pc) => {
                if spec_starts_at(raw, pc.1, ",\"message\":"@) {
                    match spec_parse_quoted(raw, pc.1 + ",\"message\":"@.len()) {
                        Some(pm) => spec_parse_error_end(raw, pm.1, jsonrpc, id, pc.0, pm.0),
                        None => None,
                    }
                } else {
                    None
                }
            },
            None => None,
        }
    } else {
        None
    }
}

/// The end of an `error` member after its `message`: the two closing
/// braces, or a `data` member whose raw text runs to them.
pub open spec fn spec_parse_error_end(
    raw: Seq<char>,
    i: int,
    jsonrpc: Seq<char>,
    id: Seq<char>,
    code: int,
    message: Seq<char>,
) -> Option<ResponseModel> {
    if i + 2 == raw.len() && spec_starts_at(raw, i, "}}"@) {
        Some(
            ResponseModel {
                jsonrpc,
                id,
                result: None,
                error: Some(ErrorModel { code, message, data: None }),
            },
        )
    } else if spec_starts_at(raw, i, ",\"data\":"@) {
        let idd = i + ",\"data\":"@.len();
        if idd <= raw.len() - 2 && spec_starts_at(raw, raw.len() - 2, "}}"@) {
            Some(
                ResponseModel {
                    jsonrpc,
                    id,
                    result: None,
                    error: Some(
                        ErrorModel { code, message, data: Some(raw.subrange(idd, raw.len() - 2)) },
                    ),
                },
            )
        } else {
            None
        }
    } else {
        None
    }
}

/// The definition of the accepted response-envelope language: the member
/// order the engine emits, with `jsonrpc` and `id` as string literals.
pub open spec fn spec_parse_response(raw: Seq<char>) -> Option<ResponseModel> {
    if spec_starts_at(raw, 0, "{\"jsonrpc\":"@) {
        match spec_parse_quoted(raw, "{\"jsonrpc\":"@.len() as int) {
            Some(pj) => {
                if spec_starts_at(raw, pj.1, ",\"id\":"@) {
                    match spec_parse_quoted(raw, pj.1 + ",\"id\":"@.len()) {
                        Some(pi) => spec_parse_tail(raw, pi.1, pj.0, pi.0),
                        None => None,
                    }
                } else {
                    None
                }
            },
            None => None,
        }
    } else {
        None
    }
}

/// How an executable envelope relates to the parsed fields: the same
/// strings, the same presence and text of `result`, and the same error
/// code and message. The raw text of an error's `data` member is read past
/// and not kept: the envelope decision never consults it.
pub open spec fn env_matches_model(env: JsonRpcResponse<String>, m: ResponseModel) -> bool {
    &&& env.jsonrpc@ == m.jsonrpc
    &&& env.id@ == m.id
    &&& match (env.result, m.result) {
        (Some(t), Some(ms)) => t@ == ms,
        (None, None) => true,
        _ => false,
    }
    &&& match (env.error, m.error) {
        (Some(e), Some(me)) => e.code as int == me.code && e.message@ == me.message,
        (None, None) => true,
        _ => false,
    }
}

/// The decimal digit a character stands for, if any.
fn digit_of(c: char) -> (r: Option<u64>)
    ensures
        r matches Some(d) ==> d < 10 && d as int == spec_digit_val(c),
        r is None ==> !spec_is_digit(c),
{
    if c == '0' {
        Some(0)
    } else if c == '1' {
        Some(1)
    } else if c == '2' {
        Some(2)
    } else if c == '3' {
        Some(3)
    } else if c == '4' {
        Some(4)
    } else if c == '5' {
        Some(5)
    } else if c == '6' {
        Some(6)
    } else if c == '7' {
        Some(7)
    } else if c == '8' {
        Some(8)
    } else if c == '9' {
        Some(9)
    } else {
        None
    }
}

/// The hexadecimal digit a character stands for, if any.
fn hex_of(c: char) -> (r: Option<u8>)
    ensures
        r matches Some(d) ==> d < 16 && d as int == spec_hex_val(c),
        r is None ==> spec_hex_val(c) < 0,
{
    if c == '0' {
        Some(0)
    } else if c == '1' {
        Some(1)
    } else if c == '2' {
        Some(2)
    } else if c == '3' {
        Some(3)
    } else if c == '4' {
        Some(4)
    } else if c == '5' {
        Some(5)
    } else if c == '6' {
        Some(6)
    } else if c == '7' {
        Some(7)
    } else if c == '8' {
        Some(8)
    } else if c == '9' {
        Some(9)
    } else if c == 'a' || c == 'A' {
        Some(10)
    } else if c == 'b' || c == 'B' {
        Some(11)
    } else if c == 'c' || c == 'C' {
        Some(12)
    } else if c == 'd' || c == 'D' {
        Some(13)
    } else if c == 'e' || c == 'E' {
        Some(14)
    } else if c == 'f' || c == 'F' {
        Some(15)
    } else {
        None
    }
}

/// The character a single-letter JSON escape stands for, if the letter is
/// one.
fn escape_decode(c: char) -> (r: Option<char>)
    ensures
        r == spec_escape_decode(c),
{
    if c == '"' {
        Some('"')
    } else if c == '\\' {
        Some('\\')
    } else if c == '/' {
        Some('/')
    } else if c == 'b' {
        Some('\u{0008}')
    } else if c == 'f' {
        Some('\u{000C}')
    } else if c == 'n' {
        Some('\n')
    } else if c == 'r' {
        Some('\r')
    } else if c == 't' {
        Some('\t')
    } else {
        None
    }
}

/// Parses a string-literal body exactly as [`spec_parse_string_body`]
/// defines it.
fn parse_string_body(s: &str, i: usize, n: usize) -> (r: Option<(String, usize)>)
    requires
        n == s@.len(),
        i <= n,
    ensures
        match (r, spec_parse_string_body(s@, i as int)) {
            (None, None) => true,
            (Some(p), Some(sp)) => p.0@ == sp.0 && p.1 as int == sp.1 && i < p.1 <= n,
            _ => false,
        },
    decreases n - i,
{
    if i >= n {
        return None;
    }
    let c = s.get_char(i);
    if c == '"' {
        return Some((String::new(), i + 1));
    }
    if c == '\\' {
        if i + 1 >= n {
            return None;
        }
        let e = s.get_char(i + 1);
        match escape_decode(e) {
            Some(d) => {
                match parse_string_body(s, i + 2, n) {
                    Some((rest, j)) => {
                        let mut out = String::new();
                        push_char(&mut out, d);
                        out.append(rest.as_str());
                        proof {
                            assert(out@ =~= seq![d] + rest@);
                        }
                        Some((out, j))
                    },
                    None => None,
                }
            },
            None => {
                if e == 'u' && n - i >= 6 && s.get_char(i + 2) == '0' && s.get_char(i + 3) == '0' {
                    let h3 = match hex_of(s.get_char(i + 4)) {
                        Some(h) => h,
                        None => {
                            return None;
                        },
                    };
                    let h4 = match hex_of(s.get_char(i + 5)) {
                        Some(h) => h,
                        None => {
                            return None;
                        },
                    };
                    let v: u8 = h3 * 16 + h4;
                    if v >= 0x80 {
                        return None;
                    }
                    let d = v as char;
                    match parse_string_body(s, i + 6, n) {
                        Some((rest, j)) => {
                            let mut out = String::new();
                            push_char(&mut out, d);
                            out.append(rest.as_str());
                            proof {
                                assert(out@ =~= seq![d] + rest@);
                            }
                            Some((out, j))
                        },
                        None => None,
                    }
                } else {
                    None
                }
            },
        }
    } else {
        if (c as u32) < 0x20 {
            return None;
        }
        match parse_string_body(s, i + 1, n) {
            Some((rest, j)) => {
                let mut out = String::new();
                push_char(&mut out, c);
                out.append(rest.as_str());
                proof {
                    assert(out@ =~= seq![c] + rest@);
                }
                Some((out, j))
            },
            None => None,
        }
    }
}

/// Parses a whole string literal exactly as [`spec_parse_quoted`] defines
/// it.
fn parse_quoted(s: &str, i: usize, n: usize) -> (r: Option<(String, usize)>)
    requires
        n == s@.len(),
        i <= n,
    ensures
        match (r, spec_parse_quoted(s@, i as int)) {
            (None, None) => true,
            (Some(p), Some(sp)) => p.0@ == sp.0 && p.1 as int == sp.1 && i < p.1 <= n,
            _ => false,
        },
{
    if i >= n || s.get_char(i) != '"' {
        return None;
    }
    parse_string_body(s, i + 1, n)
}

/// The digits of a run are exactly the positions before its end.
proof fn lemma_digit_run_end(s: Seq<char>, i: int)
    requires
        0 <= i <= s.len(),
    ensures
        i <= spec_digit_run_end(s, i) <= s.len(),
        forall|t: int| i <= t < spec_digit_run_end(s, i) ==> spec_is_digit(#[trigger] s[t]),
        spec_digit_run_end(s, i) == s.len() || !spec_is_digit(s[spec_digit_run_end(s, i)]),
    decreases s.len() - i,
{
    if i < s.len() && spec_is_digit(s[i]) {
        lemma_digit_run_end(s, i + 1);
    }
}

/// A position with all digits before it and a non-digit (or the end) at it
/// is the run's end.
proof fn lemma_digit_run_end_is(s: Seq<char>, i: int, k: int)
    requires
        0 <= i <= k <= s.len(),
        forall|t: int| i <= t < k ==> spec_is_digit(#[trigger] s[t]),
        k == s.len() || !spec_is_digit(s[k]),
    ensures
        spec_digit_run_end(s, i) == k,
    decreases k - i,
{
    if i < k {
        lemma_digit_run_end_is(s, i + 1, k);
    }
}

/// The value of a digit run is non-negative.
proof fn lemma_digits_value_nonneg(s: Seq<char>, i: int, j: int)
    requires
        0 <= i <= j,
        forall|t: int| i <= t < j ==> spec_is_digit(#[trigger] s[t]),
    ensures
        0 <= spec_digits_value(s, i, j),
    decreases j - i,
{
    if j > i {
        lemma_digits_value_nonneg(s, i, j - 1);
    }
}

/// The value of a digit run grows with the run.
proof fn lemma_digits_value_mono(s: Seq<char>, i: int, k: int, j: int)
    requires
        0 <= i <= k <= j,
        forall|t: int| i <= t < j ==> spec_is_digit(#[trigger] s[t]),
    ensures
        spec_digits_value(s, i, k) <= spec_digits_value(s, i, j),
    decreases j - k,
{
    if j > k {
        lemma_digits_value_mono(s, i, k, j - 1);
        lemma_digits_value_nonneg(s, i, j - 1);
    }
}

/// Parses a JSON integer exactly as [`spec_parse_code`] defines it.
fn parse_code(s: &str, i: usize, n: usize) -> (r: Option<(i128, usize)>)
    requires
        n == s@.len(),
        i <= n,
    ensures
        match (r, spec_parse_code(s@, i as int)) {
            (None, None) => true,
            (Some(p), Some(sp)) => p.0 as int == sp.0 && p.1 as int == sp.1 && i < p.1 <= n,
            _ => false,
        },
{
    let mut k: usize = i;
    let mut neg = false;
    if k < n && s.get_char(k) == '-' {
        neg = true;
        k = k + 1;
    }
    if k >= n {
        return None;
    }
    let d0 = match digit_of(s.get_char(k)) {
        Some(d) => d,
        None => {
            return None;
        },
    };
    let ghost dstart = k as int;
    let mut mag: u128 = d0 as u128;
    k = k + 1;
    proof {
        assert(spec_digits_value(s@, dstart, dstart) == 0);
        assert(mag as int == spec_digits_value(s@, dstart, dstart + 1));
    }
    let mut overflowed = false;
    while k < n && digit_of(s.get_char(k)).is_some()
        invariant
            n == s@.len(),
            0 <= dstart < k <= n,
            forall|t: int| dstart <= t < k ==> spec_is_digit(#[trigger] s@[t]),
            !overflowed ==> mag as int == spec_digits_value(s@, dstart, k as int),
            overflowed ==> spec_digits_value(s@, dstart, k as int) > i128::MAX as int
                + 1,
        decreases n - k,
    {
        let d = match digit_of(s.get_char(k)) {
            Some(d) => d,
            None => {
                proof {
                    assert(false);
                }
                0
            },
        };
        proof {
            lemma_digits_value_nonneg(s@, dstart, k as int);
            assert(spec_digits_value(s@, dstart, k as int + 1) == spec_digits_value(
                s@,
                dstart,
                k as int,
            ) * 10 + spec_digit_val(s@[k as int]));
        }
        if !overflowed {
            if mag > (u128::MAX - 9) / 10 {
                overflowed = true;
                proof {
                    assert(spec_digits_value(s@, dstart, k as int + 1) > i128::MAX as int + 1);
                }
            } else {
                mag = mag * 10 + (d as u128);
            }
        } else {
            proof {
                assert(spec_digits_value(s@, dstart, k as int + 1) > i128::MAX as int + 1);
            }
        }
        k = k + 1;
    }
    proof {
        lemma_digit_run_end_is(s@, dstart, k as int);
    }
    if d0 == 0 {
        if neg || k != i + 1 {
            return None;
        }
        return Some((0, k));
    }
    if overflowed {
        return None;
    }
    proof {
        lemma_digits_value_nonneg(s@, dstart, k as int);
    }
    if neg {
        if mag > (i128::MAX as u128) + 1 {
            return None;
        }
        if mag == (i128::MAX as u128) + 1 {
            return Some((i128::MIN, k));
        }
        Some((-(mag as i128), k))
    } else {
        if mag > i128::MAX as u128 {
            return None;
        }
        Some((mag as i128, k))
    }
}

/// Parses a response envelope exactly as [`spec_parse_response`] defines
/// it: the two contracts together say that the parser accepts a text if
/// and only if it lies in the accepted language, and then returns exactly
/// the fields the definition reads off it.
pub fn parse_response(raw: &str) -> (r: Option<JsonRpcResponse<String>>)
    ensures
        (r is None) == (spec_parse_response(raw@) is None),
        r matches Some(env) ==> (spec_parse_response(raw@) matches Some(m) && env_matches_model(
            env,
            m,
        )),
{
    let n = raw.unicode_len();
    proof {
        reveal_strlit("{\"jsonrpc\":");
        reveal_strlit(",\"id\":");
        reveal_strlit(",\"result\":");
        reveal_strlit(",\"error\":{\"code\":");
        reveal_strlit(",\"message\":");
        reveal_strlit(",\"data\":");
        reveal_strlit("}}");
    }
    let i1 = match match_lit(raw, 0, "{\"jsonrpc\":") {
        Some(j) => j,
        None => {
            return None;
        },
    };
    let (jsonrpc, i2) = match parse_quoted(raw, i1, n) {
        Some(p) => p,
        None => {
            return None;
        },
    };
    let i3 = match match_lit(raw, i2, ",\"id\":") {
        Some(j) => j,
        None => {
            return None;
        },
    };
    let (id, i4) = match parse_quoted(raw, i3, n) {
        Some(p) => p,
        None => {
            return None;
        },
    };
    if i4 < n && i4 + 1 == n && raw.get_char(i4) == '}' {
        let env = JsonRpcResponse::<String> { id, jsonrpc, result: None, error: None };
        return Some(env);
    }
    match match_lit(raw, i4, ",\"result\":") {
        Some(ir) => {
            if ir <= n - 1 && raw.get_char(n - 1) == '}' {
                let res = String::from_str(raw.substring_char(ir, n - 1));
                let env = JsonRpcResponse::<String> { id, jsonrpc, result: Some(res), error: None };
                return Some(env);
            }
            return None;
        },
        None => {},
    }
    let ie = match match_lit(raw, i4, ",\"error\":{\"code\":") {
        Some(j) => j,
        None => {
            return None;
        },
    };
    let (code, ic) = match parse_code(raw, ie, n) {
        Some(p) => p,
        None => {
            return None;
        },
    };
    let im = match match_lit(raw, ic, ",\"message\":") {
        Some(j) => j,
        None => {
            return None;
        },
    };
    let (msg, imsg) = match parse_quoted(raw, im, n) {
        Some(p) => p,
        None => {
            return None;
        },
    };
    if n - imsg == 2 && match_lit(raw, imsg, "}}").is_some() {
        let env = JsonRpcResponse::<String> {
            id,
            jsonrpc,
            result: None,
            error: Some(RpcError { code, message: msg }),
        };
        return Some(env);
    }
    match match_lit(raw, imsg, ",\"data\":") {
        Some(idd) => {
            if idd <= n - 2 && match_lit(raw, n - 2, "}}").is_some() {
                let env = JsonRpcResponse::<String> {
                    id,
                    jsonrpc,
                    result: None,
                    error: Some(RpcError { code, message: msg }),
                };
                return Some(env);
            }
            None
        },
        None => None,
    }
}

/// Parses a raw reply and applies the envelope decision, for every input:
/// a reply in the accepted language decodes to its raw `result` text when
/// one is present, to its structured error when only an `error` member is
/// present, and to the default "no matched rpc error" error when neither
/// is; a reply outside the language is a deserialization failure.
pub fn decode_response(raw: &str) -> (r: Result<String, Error>)
    ensures
        match spec_parse_response(raw@) {
            None => r matches Err(e) && e is SerdeJson,
            Some(m) => match m.result {
                Some(t) => r matches Ok(res) && res@ == t,
                None => match m.error {
                    Some(me) => (r matches Err(e) && (e matches Error::JsonRpcError(re)
                        && re.code as int == me.code && re.message@ == me.message)),
                    None => (r matches Err(e) && (e matches Error::JsonRpcError(re) && re.code == 0
                        && re.message@ == "No matched rpc error"@)),
                },
            },
        },
{
    match parse_response(raw) {
        None => Err(Error::SerdeJson(String::from_str("invalid JSON-RPC response envelope"))),
        Some(env) => env.into_result(),
    }
}

} // verus!
