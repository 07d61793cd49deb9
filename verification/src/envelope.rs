//! The tool-call wire format: a single object with one `tool_call` member
//! whose value is an object with one `name` member holding a string.
//!
//! The grammar is the JSON subset those envelopes inhabit: member keys and
//! values are JSON strings with the standard escapes (including `\uXXXX`
//! with surrogate pairs), tokens may be separated by JSON whitespace, and
//! nothing may precede or follow the envelope. Anything outside the grammar
//! is not an envelope.

use vstd::prelude::*;

use crate::text::char_of_u32;
use crate::text::chars_eq;

verus! {

/// JSON whitespace: space, tab, line feed, carriage return.
pub open spec fn is_json_ws(c: char) -> bool {
    c == ' ' || c == '\t' || c == '\n' || c == '\r'
}

fn json_ws(c: char) -> (b: bool)
    ensures
        b == is_json_ws(c),
{
    c == ' ' || c == '\t' || c == '\n' || c == '\r'
}

/// The first index at or after `i` holding a character that is not JSON
/// whitespace, or the length if none is.
pub open spec fn jws_from(s: Seq<char>, i: int) -> int
    decreases s.len() - i,
{
    if i < 0 || i >= s.len() {
        s.len() as int
    } else if is_json_ws(s[i]) {
        jws_from(s, i + 1)
    } else {
        i
    }
}

proof fn lemma_jws_from_range(s: Seq<char>, i: int)
    requires
        0 <= i <= s.len(),
    ensures
        i <= jws_from(s, i) <= s.len(),
    decreases s.len() - i,
{
    if i < s.len() && is_json_ws(s[i]) {
        lemma_jws_from_range(s, i + 1);
    }
}

fn skip_json_ws(v: &Vec<char>, i: usize) -> (r: usize)
    requires
        i <= v@.len(),
    ensures
        r as int == jws_from(v@, i as int),
        i <= r <= v@.len(),
{
    let mut j = i;
    while j < v.len() && json_ws(v[j])
        invariant
            i <= j <= v@.len(),
            jws_from(v@, i as int) == jws_from(v@, j as int),
        decreases v@.len() - j,
    {
        proof {
            assert(jws_from(v@, j as int) == jws_from(v@, j + 1));
        }
        j = j + 1;
    }
    j
}

/// The value of one hexadecimal digit, upper or lower case.
pub open spec fn hex_digit(c: char) -> Option<nat> {
    let u = c as u32;
    if 48 <= u <= 57 {
        Some((u - 48) as nat)
    } else if 97 <= u <= 102 {
        Some((u - 87) as nat)
    } else if 65 <= u <= 70 {
        Some((u - 55) as nat)
    } else {
        None
    }
}

fn read_hex_digit(c: char) -> (r: Option<u32>)
    ensures
        r is Some <==> hex_digit(c) is Some,
        r is Some ==> r->0 as nat == hex_digit(c)->0 && r->0 < 16,
{
    let u = c as u32;
    if 48 <= u && u <= 57 {
        Some(u - 48)
    } else if 97 <= u && u <= 102 {
        Some(u - 87)
    } else if 65 <= u && u <= 70 {
        Some(u - 55)
    } else {
        None
    }
}

/// The value of four hexadecimal digits starting at `i`.
pub open spec fn hex4(s: Seq<char>, i: int) -> Option<nat> {
    if 0 <= i && i + 4 <= s.len() && hex_digit(s[i]) is Some && hex_digit(s[i + 1]) is Some
        && hex_digit(s[i + 2]) is Some && hex_digit(s[i + 3]) is Some {
        Some(
            hex_digit(s[i])->0 * 0x1000 + hex_digit(s[i + 1])->0 * 0x100 + hex_digit(s[i + 2])->0
                * 0x10 + hex_digit(s[i + 3])->0,
        )
    } else {
        None
    }
}

fn read_hex4(v: &Vec<char>, i: usize) -> (r: Option<u32>)
    ensures
        r is Some <==> hex4(v@, i as int) is Some,
        r is Some ==> r->0 as nat == hex4(v@, i as int)->0 && r->0 <= 0xFFFF,
{
    if v.len() < 4 || i > v.len() - 4 {
        return None;
    }
    let d0 = read_hex_digit(v[i]);
    let d1 = read_hex_digit(v[i + 1]);
    let d2 = read_hex_digit(v[i + 2]);
    let d3 = read_hex_digit(v[i + 3]);
    match (d0, d1, d2, d3) {
        (Some(a), Some(b), Some(c), Some(d)) => Some(a * 0x1000 + b * 0x100 + c * 0x10 + d),
        _ => None,
    }
}

/// The character a two-character escape stands for, if the second character
/// makes one (`\u` is handled separately).
pub open spec fn simple_escape(c: char) -> Option<char> {
    if c == '"' {
        Some('"')
    } else if c == '\\' {
        Some('\\')
    } else if c == '/' {
        Some('/')
    } else if c == 'b' {
        Some('\u{0008}')
    } else if c == 'f' {
        Some('\u{000C}')
    } else if c == 'n' {
        Some('\n')
    } else if c == 'r' {
        Some('\r')
    } else if c == 't' {
        Some('\t')
    } else {
        None
    }
}

fn read_simple_escape(c: char) -> (r: Option<char>)
    ensures
        r == simple_escape(c),
{
    if c == '"' {
        Some('"')
    } else if c == '\\' {
        Some('\\')
    } else if c == '/' {
        Some('/')
    } else if c == 'b' {
        Some('\u{0008}')
    } else if c == 'f' {
        Some('\u{000C}')
    } else if c == 'n' {
        Some('\n')
    } else if c == 'r' {
        Some('\r')
    } else if c == 't' {
        Some('\t')
    } else {
        None
    }
}

/// `r` with `c` put in front of its decoded text.
pub open spec fn cons_decoded(c: char, r: Option<(Seq<char>, int)>) -> Option<(Seq<char>, int)> {
    match r {
        None => None,
        Some((t, e)) => Some((seq![c] + t, e)),
    }
}

/// The decoded text of a JSON string body starting at `i` (just after the
/// opening quote), with the index just after the closing quote.
pub open spec fn str_body(s: Seq<char>, i: int) -> Option<(Seq<char>, int)>
    decreases s.len() - i,
{
    if i < 0 || i >= s.len() {
        None
    } else if s[i] == '"' {
        Some((Seq::empty(), i + 1))
    } else if s[i] == '\\' {
        if i + 2 > s.len() {
            None
        } else if s[i + 1] == 'u' {
            match hex4(s, i + 2) {
                None => None,
                Some(hi) => if 0xD800 <= hi < 0xDC00 {
                    if i + 8 <= s.len() && s[i + 6] == '\\' && s[i + 7] == 'u' {
                        match hex4(s, i + 8) {
                            None => None,
                            Some(lo) => if 0xDC00 <= lo < 0xE000 {
                                cons_decoded(
                                    (((0x10000 + (hi - 0xD800) * 0x400 + (lo - 0xDC00)) as u32)
                                        as char),
                                    str_body(s, i + 12),
                                )
                            } else {
                                None
                            },
                        }
                    } else {
                        None
                    }
                } else if 0xDC00 <= hi < 0xE000 {
                    None
                } else {
                    cons_decoded(((hi as u32) as char), str_body(s, i + 6))
                },
            }
        } else {
            match simple_escape(s[i + 1]) {
                None => None,
                Some(d) => cons_decoded(d, str_body(s, i + 2)),
            }
        }
    } else if (s[i] as u32) < 0x20 {
        None
    } else {
        cons_decoded(s[i], str_body(s, i + 1))
    }
}

/// `r` with the already decoded prefix `p` put in front.
pub open spec fn prefixed(p: Seq<char>, r: Option<(Seq<char>, int)>) -> Option<(Seq<char>, int)> {
    match r {
        None => None,
        Some((t, e)) => Some((p + t, e)),
    }
}

proof fn lemma_str_body_end(s: Seq<char>, i: int)
    requires
        str_body(s, i) is Some,
    ensures
        i < (str_body(s, i)->0).1 <= s.len(),
    decreases s.len() - i,
{
    if s[i] == '"' {
    } else if s[i] == '\\' {
        if s[i + 1] == 'u' {
            let hi = hex4(s, i + 2)->0;
            if 0xD800 <= hi < 0xDC00 {
                lemma_str_body_end(s, i + 12);
            } else {
                lemma_str_body_end(s, i + 6);
            }
        } else {
            lemma_str_body_end(s, i + 2);
        }
    } else {
        lemma_str_body_end(s, i + 1);
    }
}

/// Reads a JSON string body from just after the opening quote, returning
/// the decoded text and the index just after the closing quote.
fn read_str_body(v: &Vec<char>, start: usize) -> (r: Option<(Vec<char>, usize)>)
    requires
        start <= v@.len(),
    ensures
        r is Some <==> str_body(v@, start as int) is Some,
        r is Some ==> (r->0).0@ == (str_body(v@, start as int)->0).0 && (r->0).1 as int == (
        str_body(v@, start as int)->0).1 && start < (r->0).1 <= v@.len(),
{
    let ghost s = v@;
    let mut out: Vec<char> = Vec::new();
    let mut cur: usize = start;
    loop
        invariant
            v@ == s,
            start <= cur <= s.len(),
            str_body(s, start as int) == prefixed(out@, str_body(s, cur as int)),
        decreases s.len() - cur,
    {
        if cur == v.len() {
            return None;
        }
        let c = v[cur];
        if c == '"' {
            proof {
                assert(str_body(s, cur as int) == Some((Seq::<char>::empty(), cur + 1 as int)));
                assert(out@ + Seq::<char>::empty() =~= out@);
                lemma_str_body_end(s, start as int);
            }
            return Some((out, cur + 1));
        }
        if c == '\\' {
            if v.len() - cur < 2 {
                return None;
            }
            let e = v[cur + 1];
            if e == 'u' {
                let hi = match read_hex4(v, cur + 2) {
                    None => {
                        return None;
                    },
                    Some(x) => x,
                };
                if 0xD800 <= hi && hi < 0xDC00 {
                    if !(v.len() - cur >= 8 && v[cur + 6] == '\\' && v[cur + 7] == 'u') {
                        return None;
                    }
                    let lo = match read_hex4(v, cur + 8) {
                        None => {
                            return None;
                        },
                        Some(x) => x,
                    };
                    if !(0xDC00 <= lo && lo < 0xE000) {
                        return None;
                    }
                    let scalar: u32 = 0x10000 + (hi - 0xD800) * 0x400 + (lo - 0xDC00);
                    let d = char_of_u32(scalar);
                    let ghost prev = out@;
                    out.push(d);
                    proof {
                        lemma_prefix_step(s, start as int, cur as int, prev, d, cur + 12);
                    }
                    cur = cur + 12;
                } else if 0xDC00 <= hi && hi < 0xE000 {
                    return None;
                } else {
                    let d = char_of_u32(hi);
                    let ghost prev = out@;
                    out.push(d);
                    proof {
                        lemma_prefix_step(s, start as int, cur as int, prev, d, cur + 6);
                    }
                    cur = cur + 6;
                }
            } else {
                let d = match read_simple_escape(e) {
                    None => {
                        return None;
                    },
                    Some(x) => x,
                };
                let ghost prev = out@;
                out.push(d);
                proof {
                    lemma_prefix_step(s, start as int, cur as int, prev, d, cur + 2);
                }
                cur = cur + 2;
            }
        } else if (c as u32) < 0x20 {
            return None;
        } else {
            let ghost prev = out@;
            out.push(c);
            proof {
                lemma_prefix_step(s, start as int, cur as int, prev, c, cur + 1);
            }
            cur = cur + 1;
        }
    }
}

/// One decoding step: if the body at `cur` denotes `d` followed by the body
/// at `next`, the accumulated prefix absorbs `d`.
proof fn lemma_prefix_step(s: Seq<char>, start: int, cur: int, prev: Seq<char>, d: char, next: int)
    requires
        str_body(s, start) == prefixed(prev, str_body(s, cur)),
        str_body(s, cur) == cons_decoded(d, str_body(s, next)),
    ensures
        str_body(s, start) == prefixed(prev.push(d), str_body(s, next)),
        str_body(s, next) is Some ==> next <= s.len(),
{
    if str_body(s, next) is Some {
        let (t, e) = (str_body(s, next)->0);
        assert(prev + (seq![d] + t) =~= prev.push(d) + t);
        lemma_str_body_end(s, next);
    }
}

/// The decoded text of a JSON string starting at `i` (at the opening
/// quote), with the index just after the closing quote.
pub open spec fn jstring(s: Seq<char>, i: int) -> Option<(Seq<char>, int)> {
    if 0 <= i < s.len() && s[i] == '"' {
        str_body(s, i + 1)
    } else {
        None
    }
}

fn read_jstring(v: &Vec<char>, i: usize) -> (r: Option<(Vec<char>, usize)>)
    requires
        i <= v@.len(),
    ensures
        r is Some <==> jstring(v@, i as int) is Some,
        r is Some ==> (r->0).0@ == (jstring(v@, i as int)->0).0 && (r->0).1 as int == (
        jstring(v@, i as int)->0).1 && i < (r->0).1 <= v@.len(),
{
    if i < v.len() && v[i] == '"' {
        read_str_body(v, i + 1)
    } else {
        None
    }
}

/// After `i`: whitespace, a JSON string decoding to exactly `key`,
/// whitespace and a colon; the result is the index just after the colon.
pub open spec fn member_key(s: Seq<char>, i: int, key: Seq<char>) -> Option<int> {
    let j = jws_from(s, i);
    match jstring(s, j) {
        None => None,
        Some((k, j2)) => if k == key {
            let j3 = jws_from(s, j2);
            if j3 < s.len() && s[j3] == ':' {
                Some(j3 + 1)
            } else {
                None
            }
        } else {
            None
        },
    }
}

fn read_member_key(v: &Vec<char>, i: usize, key: &str) -> (r: Option<usize>)
    requires
        i <= v@.len(),
    ensures
        r is Some <==> member_key(v@, i as int, key@) is Some,
        r is Some ==> r->0 as int == member_key(v@, i as int, key@)->0 && i < r->0 <= v@.len(),
{
    let j = skip_json_ws(v, i);
    let (k, j2) = match read_jstring(v, j) {
        None => {
            return None;
        },
        Some(x) => x,
    };
    if !chars_eq(&k, key) {
        return None;
    }
    let j3 = skip_json_ws(v, j2);
    if j3 < v.len() && v[j3] == ':' {
        proof {
            lemma_jws_from_range(v@, i as int);
        }
        Some(j3 + 1)
    } else {
        None
    }
}

/// The inner object: `{ "name" : <string> }`, entered at its opening
/// brace; the result is the raw decoded name and the index just after the
/// closing brace.
pub open spec fn payload(s: Seq<char>, i: int) -> Option<(Seq<char>, int)> {
    if 0 <= i < s.len() && s[i] == '{' {
        match member_key(s, i + 1, "name"@) {
            None => None,
            Some(j) => {
                let j2 = jws_from(s, j);
                match jstring(s, j2) {
                    None => None,
                    Some((name, j3)) => {
                        let j4 = jws_from(s, j3);
                        if j4 < s.len() && s[j4] == '}' {
                            Some((name, j4 + 1))
                        } else {
                            None
                        }
                    },
                }
            },
        }
    } else {
        None
    }
}

fn read_payload(v: &Vec<char>, i: usize) -> (r: Option<(Vec<char>, usize)>)
    requires
        i <= v@.len(),
    ensures
        r is Some <==> payload(v@, i as int) is Some,
        r is Some ==> (r->0).0@ == (payload(v@, i as int)->0).0 && (r->0).1 as int == (
        payload(v@, i as int)->0).1 && i < (r->0).1 <= v@.len(),
{
    if !(i < v.len() && v[i] == '{') {
        return None;
    }
    let j = match read_member_key(v, i + 1, "name") {
        None => {
            return None;
        },
        Some(x) => x,
    };
    let j2 = skip_json_ws(v, j);
    let (name, j3) = match read_jstring(v, j2) {
        None => {
            return None;
        },
        Some(x) => x,
    };
    let j4 = skip_json_ws(v, j3);
    if j4 < v.len() && v[j4] == '}' {
        Some((name, j4 + 1))
    } else {
        None
    }
}

/// A complete envelope: `{ "tool_call" : { "name" : <string> } }`, spanning
/// all of `s`; the result is the raw decoded name.
pub open spec fn envelope_name(s: Seq<char>) -> Option<Seq<char>> {
    if s.len() > 0 && s[0] == '{' {
        match member_key(s, 1, "tool_call"@) {
            None => None,
            Some(j) => {
                let j2 = jws_from(s, j);
                match payload(s, j2) {
                    None => None,
                    Some((name, j3)) => {
                        let j4 = jws_from(s, j3);
                        if j4 < s.len() && s[j4] == '}' && jws_from(s, j4 + 1) == s.len() {
                            Some(name)
                        } else {
                            None
                        }
                    },
                }
            },
        }
    } else {
        None
    }
}

/// Reads a complete envelope out of `v`, which must hold nothing else.
pub fn read_envelope(v: &Vec<char>) -> (r: Option<Vec<char>>)
    ensures
        r is Some <==> envelope_name(v@) is Some,
        r is Some ==> r->0@ == envelope_name(v@)->0,
{
    if !(v.len() > 0 && v[0] == '{') {
        return None;
    }
    let j = match read_member_key(v, 1, "tool_call") {
        None => {
            return None;
        },
        Some(x) => x,
    };
    let j2 = skip_json_ws(v, j);
    let (name, j3) = match read_payload(v, j2) {
        None => {
            return None;
        },
        Some(x) => x,
    };
    let j4 = skip_json_ws(v, j3);
    if j4 < v.len() && v[j4] == '}' {
        let j5 = skip_json_ws(v, j4 + 1);
        if j5 == v.len() {
            return Some(name);
        }
    }
    None
}

} // verus!
