//! Character-level text helpers shared by the parsers and formatters.

use vstd::prelude::*;
use vstd::string::StrSliceExecFns;
use vstd::string::StringExecFns;

verus! {

/// A character with the Unicode `White_Space` property.
pub open spec fn is_unicode_ws(c: char) -> bool {
    let u = c as u32;
    u == 0x09 || u == 0x0A || u == 0x0B || u == 0x0C || u == 0x0D || u == 0x20 || u == 0x85
        || u == 0xA0 || u == 0x1680 || (0x2000 <= u && u <= 0x200A) || u == 0x2028 || u == 0x2029
        || u == 0x202F || u == 0x205F || u == 0x3000
}

pub fn unicode_ws(c: char) -> (b: bool)
    ensures
        b == is_unicode_ws(c),
{
    let u = c as u32;
    u == 0x09 || u == 0x0A || u == 0x0B || u == 0x0C || u == 0x0D || u == 0x20 || u == 0x85
        || u == 0xA0 || u == 0x1680 || (0x2000 <= u && u <= 0x200A) || u == 0x2028 || u == 0x2029
        || u == 0x202F || u == 0x205F || u == 0x3000
}

/// The first index at or after `i` holding a character that is not
/// Unicode whitespace, or the length if none is.
pub open spec fn ws_from(s: Seq<char>, i: int) -> int
    decreases s.len() - i,
{
    if i < 0 || i >= s.len() {
        s.len() as int
    } else if is_unicode_ws(s[i]) {
        ws_from(s, i + 1)
    } else {
        i
    }
}

/// The end of `s` once trailing Unicode whitespace before index `j` is
/// dropped.
pub open spec fn ws_back(s: Seq<char>, j: int) -> int
    decreases j,
{
    if j <= 0 {
        0
    } else if 0 <= j - 1 < s.len() && is_unicode_ws(s[j - 1]) {
        ws_back(s, j - 1)
    } else {
        j
    }
}

/// `s` with leading and trailing Unicode whitespace removed.
pub open spec fn trim_spec(s: Seq<char>) -> Seq<char> {
    let lo = ws_from(s, 0);
    let hi = ws_back(s, s.len() as int);
    if lo <= hi {
        s.subrange(lo, hi)
    } else {
        Seq::empty()
    }
}

/// The characters of `s` as a vector.
pub fn str_chars(s: &str) -> (v: Vec<char>)
    ensures
        v@ == s@,
{
    let n = s.unicode_len();
    let mut v: Vec<char> = Vec::new();
    let mut i: usize = 0;
    while i < n
        invariant
            n == s@.len(),
            i <= n,
            v@ == s@.subrange(0, i as int),
        decreases n - i,
    {
        v.push(s.get_char(i));
        i = i + 1;
        proof {
            assert(v@ =~= s@.subrange(0, i as int));
        }
    }
    proof {
        assert(v@ =~= s@);
    }
    v
}

/// Relies on `String::push`: appends one character at the end of the string.
#[verifier::external_body]
pub fn push_char(s: &mut String, c: char)
    ensures
        final(s)@ == old(s)@.push(c),
{
    s.push(c);
}

/// The characters of `v` as a freshly built string.
pub fn chars_string(v: &Vec<char>) -> (r: String)
    ensures
        r@ == v@,
{
    let mut r = String::new();
    let mut i: usize = 0;
    while i < v.len()
        invariant
            i <= v@.len(),
            r@ == v@.subrange(0, i as int),
        decreases v@.len() - i,
    {
        push_char(&mut r, v[i]);
        i = i + 1;
        proof {
            assert(r@ =~= v@.subrange(0, i as int));
        }
    }
    proof {
        assert(r@ =~= v@);
    }
    r
}

/// `v` with leading and trailing Unicode whitespace removed.
pub fn trim_chars(v: &Vec<char>) -> (r: Vec<char>)
    ensures
        r@ == trim_spec(v@),
{
    let ghost s = v@;
    let n = v.len();
    let mut lo: usize = 0;
    while lo < n && unicode_ws(v[lo])
        invariant
            v@ == s,
            n == s.len(),
            lo <= n,
            ws_from(s, 0) == ws_from(s, lo as int),
        decreases n - lo,
    {
        proof {
            assert(ws_from(s, lo as int) == ws_from(s, lo + 1));
        }
        lo = lo + 1;
    }
    proof {
        assert(ws_from(s, 0) == lo as int);
    }
    let mut hi: usize = n;
    while hi > 0 && unicode_ws(v[hi - 1])
        invariant
            v@ == s,
            n == s.len(),
            hi <= n,
            ws_back(s, n as int) == ws_back(s, hi as int),
        decreases hi,
    {
        proof {
            assert(ws_back(s, hi as int) == ws_back(s, hi - 1));
        }
        hi = hi - 1;
    }
    proof {
        assert(ws_back(s, s.len() as int) == hi as int);
    }
    let mut r: Vec<char> = Vec::new();
    if lo <= hi {
        let mut i: usize = lo;
        while i < hi
            invariant
                v@ == s,
                lo <= i <= hi <= n == s.len(),
                r@ == s.subrange(lo as int, i as int),
            decreases hi - i,
        {
            r.push(v[i]);
            i = i + 1;
            proof {
                assert(r@ =~= s.subrange(lo as int, i as int));
            }
        }
        proof {
            assert(r@ =~= trim_spec(s));
        }
    } else {
        proof {
            assert(r@ =~= trim_spec(s));
        }
    }
    r
}

/// `s` with leading and trailing Unicode whitespace removed, as a string.
pub fn trim_str(s: &str) -> (r: String)
    ensures
        r@ == trim_spec(s@),
{
    let v = str_chars(s);
    let t = trim_chars(&v);
    chars_string(&t)
}

/// Whether `s` is empty or all Unicode whitespace.
pub fn is_blank(s: &str) -> (b: bool)
    ensures
        b == (trim_spec(s@).len() == 0),
{
    let v = str_chars(s);
    let t = trim_chars(&v);
    t.len() == 0
}

/// An upper-case ASCII letter mapped to its lower-case form; any other
/// character kept as it is.
pub open spec fn lower_char(c: char) -> char {
    if 65 <= c as u32 <= 90 {
        ((c as u32) + 32) as char
    } else {
        c
    }
}

/// `s` with upper-case ASCII letters mapped to lower case.
pub open spec fn lower_ascii(s: Seq<char>) -> Seq<char> {
    s.map_values(|c: char| lower_char(c))
}

/// Relies on `char::from_u32`: `Some` exactly on Unicode scalar values,
/// returning the character with that value.
pub assume_specification[ char::from_u32 ](u: u32) -> (r: Option<char>)
    ensures
        r is Some <==> (u < 0xD800 || (0xE000 <= u && u <= 0x10FFFF)),
        r is Some ==> r->0 as u32 == u,
;

/// The character with scalar value `u`.
pub fn char_of_u32(u: u32) -> (c: char)
    requires
        u < 0xD800 || (0xE000 <= u && u <= 0x10FFFF),
    ensures
        c as u32 == u,
{
    match char::from_u32(u) {
        Some(c) => c,
        None => ' ',
    }
}

pub fn lower_chars(v: &Vec<char>) -> (r: Vec<char>)
    ensures
        r@ == lower_ascii(v@),
{
    let mut r: Vec<char> = Vec::new();
    let mut i: usize = 0;
    while i < v.len()
        invariant
            i <= v@.len(),
            r@ == lower_ascii(v@.subrange(0, i as int)),
        decreases v@.len() - i,
    {
        let c = v[i];
        let u = c as u32;
        if 65 <= u && u <= 90 {
            r.push(char_of_u32(u + 32));
        } else {
            r.push(c);
        }
        i = i + 1;
        proof {
            assert(r@ =~= lower_ascii(v@.subrange(0, i as int)));
        }
    }
    proof {
        assert(r@ =~= lower_ascii(v@));
    }
    r
}

/// `s` trimmed of Unicode whitespace and folded to lower-case ASCII: the
/// normal form the keyword parsers compare against.
pub open spec fn norm_spec(s: Seq<char>) -> Seq<char> {
    lower_ascii(trim_spec(s))
}

pub fn normalized_chars(s: &str) -> (v: Vec<char>)
    ensures
        v@ == norm_spec(s@),
{
    let v = str_chars(s);
    let t = trim_chars(&v);
    lower_chars(&t)
}

/// An ASCII decimal digit.
pub open spec fn is_digit(c: char) -> bool {
    48 <= c as u32 <= 57
}

/// The numeric value of an ASCII decimal digit.
pub open spec fn digit_val(c: char) -> nat {
    (c as u32 - 48) as nat
}

pub open spec fn all_digits(s: Seq<char>) -> bool {
    forall|i: int| 0 <= i < s.len() ==> is_digit(#[trigger] s[i])
}

/// The value of a sequence of ASCII decimal digits, most significant first.
pub open spec fn digits_val(s: Seq<char>) -> nat
    decreases s.len(),
{
    if s.len() == 0 {
        0
    } else {
        digits_val(s.drop_last()) * 10 + digit_val(s.last())
    }
}

/// A digit sequence is worth at least any of its prefixes.
proof fn lemma_digits_val_prefix_le(s: Seq<char>, i: int)
    requires
        0 <= i <= s.len(),
    ensures
        digits_val(s.subrange(0, i)) <= digits_val(s),
    decreases s.len() - i,
{
    if i == s.len() {
        assert(s.subrange(0, i) =~= s);
    } else {
        let p = s.subrange(0, i + 1);
        assert(p.drop_last() =~= s.subrange(0, i));
        assert(digits_val(p) == digits_val(s.subrange(0, i)) * 10 + digit_val(p.last()));
        lemma_digits_val_prefix_le(s, i + 1);
    }
}

/// The value `u64::from_str` reads from `s`: an optional leading `+`,
/// then one or more decimal digits whose value fits in a `u64`.
pub open spec fn parse_u64_spec(s: Seq<char>) -> Option<u64> {
    let t = if s.len() > 0 && s[0] == '+' {
        s.subrange(1, s.len() as int)
    } else {
        s
    };
    if t.len() > 0 && all_digits(t) && digits_val(t) <= u64::MAX {
        Some(digits_val(t) as u64)
    } else {
        None
    }
}

/// Reads a `u64` written in decimal, exactly as `u64::from_str` would.
#[verifier::rlimit(80)]
pub fn parse_u64_chars(v: &Vec<char>) -> (r: Option<u64>)
    ensures
        r == parse_u64_spec(v@),
{
    let ghost s = v@;
    let start: usize = if v.len() > 0 && v[0] == '+' {
        1
    } else {
        0
    };
    let ghost t = if s.len() > 0 && s[0] == '+' {
        s.subrange(1, s.len() as int)
    } else {
        s
    };
    proof {
        assert(t =~= s.subrange(start as int, s.len() as int));
    }
    if start == v.len() {
        return None;
    }
    let mut acc: u64 = 0;
    let mut i: usize = start;
    while i < v.len()
        invariant
            v@ == s,
            t == (if s.len() > 0 && s[0] == '+' {
                s.subrange(1, s.len() as int)
            } else {
                s
            }),
            t == s.subrange(start as int, s.len() as int),
            start <= i <= s.len(),
            start < s.len(),
            all_digits(t.subrange(0, i - start)),
            acc == digits_val(t.subrange(0, i - start)),
        decreases s.len() - i,
    {
        let c = v[i];
        let u = c as u32;
        if !(48 <= u && u <= 57) {
            proof {
                assert(t[i - start] == s[i as int]);
                assert(!all_digits(t)) by {
                    assert(!is_digit(t[i - start]));
                }
            }
            return None;
        }
        let d: u64 = (u - 48) as u64;
        let ghost p = t.subrange(0, i - start + 1);
        proof {
            assert(p.drop_last() =~= t.subrange(0, i - start));
            assert(p.last() == s[i as int]);
            assert(digits_val(p) == acc * 10 + d);
        }
        let step = match acc.checked_mul(10) {
            Some(x) => x.checked_add(d),
            None => None,
        };
        match step {
            Some(x) => {
                acc = x;
            },
            None => {
                proof {
                    assert(digits_val(p) > u64::MAX);
                    lemma_digits_val_prefix_le(t, i - start + 1);
                    assert(digits_val(t) > u64::MAX);
                }
                return None;
            },
        }
        i = i + 1;
        proof {
            assert(forall|j: int|
                0 <= j < i - start ==> is_digit(#[trigger] t.subrange(0, i - start)[j]));
        }
    }
    proof {
        assert(t.subrange(0, i - start) =~= t);
    }
    Some(acc)
}

/// The character for the decimal digit `d`.
pub open spec fn digit_char(d: nat) -> char {
    ((d + 48) as u32) as char
}

/// The decimal digits of `n`, most significant first, with no sign and no
/// leading zero.
pub open spec fn dec_digits(n: nat) -> Seq<char>
    decreases n,
{
    if n < 10 {
        seq![digit_char(n)]
    } else {
        dec_digits(n / 10).push(digit_char(n % 10))
    }
}

/// The character for the low decimal digit of `m`.
fn low_digit_char(m: u64) -> (c: char)
    ensures
        c == digit_char((m % 10) as nat),
{
    char_of_u32((m % 10) as u32 + 48)
}

/// `n` written in decimal.
pub fn u64_string(n: u64) -> (r: String)
    ensures
        r@ == dec_digits(n as nat),
{
    let mut rev: Vec<char> = Vec::new();
    let mut m: u64 = n;
    rev.push(low_digit_char(m));
    proof {
        assert(rev@.reverse() =~= seq![digit_char((m % 10) as nat)]);
        if n < 10 {
            assert(dec_digits(n as nat) =~= rev@.reverse());
        } else {
            assert(dec_digits(n as nat) =~= dec_digits((n / 10) as nat) + rev@.reverse());
        }
    }
    m = m / 10;
    while m > 0
        invariant
            m > 0 ==> dec_digits(n as nat) =~= dec_digits(m as nat) + rev@.reverse(),
            m == 0 ==> dec_digits(n as nat) =~= rev@.reverse(),
        decreases m,
    {
        let ghost old_rev = rev@;
        let ghost om = m as nat;
        rev.push(low_digit_char(m));
        proof {
            assert(rev@.reverse() =~= seq![digit_char(om % 10)] + old_rev.reverse());
        }
        m = m / 10;
        proof {
            if om < 10 {
                assert(dec_digits(om) =~= seq![digit_char(om)]);
                assert(om % 10 == om);
                assert(dec_digits(n as nat) =~= rev@.reverse());
            } else {
                assert(dec_digits(om) =~= dec_digits(om / 10).push(digit_char(om % 10)));
                assert(dec_digits(om) =~= dec_digits(om / 10) + seq![digit_char(om % 10)]);
                assert(dec_digits(n as nat) =~= dec_digits(m as nat) + rev@.reverse());
            }
        }
    }
    let mut out: Vec<char> = Vec::new();
    let len = rev.len();
    let mut i: usize = 0;
    while i < len
        invariant
            len == rev@.len(),
            i <= len,
            out@ == rev@.reverse().subrange(0, i as int),
        decreases len - i,
    {
        out.push(rev[len - 1 - i]);
        i = i + 1;
        proof {
            assert(out@ =~= rev@.reverse().subrange(0, i as int));
        }
    }
    proof {
        assert(out@ =~= rev@.reverse());
    }
    chars_string(&out)
}

/// Whether `n` occurs in `h` as a contiguous run.
pub open spec fn contains_seq(h: Seq<char>, n: Seq<char>) -> bool {
    exists|i: int| 0 <= i && i + n.len() <= h.len() && #[trigger] h.subrange(i, i + n.len()) == n
}

/// Whether the characters of `needle` occur contiguously in `v`.
pub fn contains_chars(v: &Vec<char>, needle: &str) -> (b: bool)
    ensures
        b == contains_seq(v@, needle@),
{
    let nv = str_chars(needle);
    let nlen = nv.len();
    if nlen > v.len() {
        return false;
    }
    if nlen == 0 {
        proof {
            assert(v@.subrange(0, 0 + needle@.len() as int) =~= needle@);
        }
        return true;
    }
    let last_start = v.len() - nlen;
    let mut i: usize = 0;
    while i <= last_start
        invariant
            nv@ == needle@,
            nlen == nv@.len(),
            1 <= nlen <= v@.len(),
            v@.len() <= usize::MAX,
            last_start == v@.len() - nlen,
            i <= last_start + 1,
            forall|ii: int|
                0 <= ii < i ==> #[trigger] v@.subrange(ii, ii + nlen as int) != needle@,
        decreases last_start + 1 - i,
    {
        let mut j: usize = 0;
        let mut hit = true;
        while j < nlen
            invariant
                nv@ == needle@,
                nlen == nv@.len(),
                i + nlen <= v@.len(),
                v@.len() <= usize::MAX,
                j <= nlen,
                hit ==> forall|k: int| 0 <= k < j ==> v@[i + k] == needle@[k],
                !hit ==> v@.subrange(i as int, i + nlen as int) != needle@,
            decreases nlen - j,
        {
            if v[i + j] != nv[j] {
                proof {
                    assert(v@.subrange(i as int, i + nlen as int)[j as int] != needle@[j as int]);
                }
                hit = false;
                j = nlen;
            } else {
                j = j + 1;
            }
        }
        if hit {
            proof {
                assert(v@.subrange(i as int, i + nlen as int) =~= needle@);
            }
            return true;
        }
        i = i + 1;
    }
    false
}

/// Whether `s` begins with `p`.
pub open spec fn has_prefix(s: Seq<char>, p: Seq<char>) -> bool {
    p.len() <= s.len() && s.subrange(0, p.len() as int) == p
}

/// Whether `s` ends with `p`.
pub open spec fn has_suffix(s: Seq<char>, p: Seq<char>) -> bool {
    p.len() <= s.len() && s.subrange(s.len() - p.len(), s.len() as int) == p
}

/// A run contained in the left part of a concatenation is contained in the
/// whole.
pub proof fn lemma_contains_left(a: Seq<char>, b: Seq<char>, n: Seq<char>)
    requires
        contains_seq(a, n),
    ensures
        contains_seq(a + b, n),
{
    let i = choose|i: int| 0 <= i && i + n.len() <= a.len() && #[trigger] a.subrange(
        i,
        i + n.len(),
    ) == n;
    assert((a + b).subrange(i, i + n.len() as int) =~= a.subrange(i, i + n.len() as int));
}

/// Whether the characters of `v` spell exactly `s`.
pub fn chars_eq(v: &Vec<char>, s: &str) -> (b: bool)
    ensures
        b == (v@ == s@),
{
    let n = s.unicode_len();
    if v.len() != n {
        return false;
    }
    let mut i: usize = 0;
    while i < n
        invariant
            n == s@.len() == v@.len(),
            i <= n,
            forall|j: int| 0 <= j < i ==> v@[j] == s@[j],
        decreases n - i,
    {
        if v[i] != s.get_char(i) {
            return false;
        }
        i = i + 1;
    }
    proof {
        assert(v@ =~= s@);
    }
    true
}

} // verus!
