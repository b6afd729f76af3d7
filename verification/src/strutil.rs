//! Character- and string-level helpers: ASCII lower-casing, header name and
//! value validity, decimal rendering of integers, and UTF-8 decoding of
//! opaque body bytes.

use vstd::prelude::*;

verus! {

/// ASCII lower-casing of one character: `'A'..='Z'` map to `'a'..='z'`,
/// every other character is unchanged.
pub open spec fn lower_char(c: char) -> char {
    if 65 <= c as u32 && c as u32 <= 90 {
        ((c as u32 + 32) as u32) as char
    } else {
        c
    }
}

/// ASCII lower-casing of a character sequence, pointwise.
pub open spec fn lower(s: Seq<char>) -> Seq<char> {
    s.map_values(|c: char| lower_char(c))
}

/// The characters legal in a header name once lower-cased: the HTTP token
/// characters without the upper-case letters.
pub open spec fn is_header_name_char(c: char) -> bool {
    let u = c as u32;
    (97 <= u && u <= 122) || (48 <= u && u <= 57) || u == 33 || u == 35 || u == 36 || u == 37
        || u == 38 || u == 39 || u == 42 || u == 43 || u == 45 || u == 46 || u == 94 || u == 95
        || u == 96 || u == 124 || u == 126
}

/// A well-formed stored header name: non-empty and made of lower-case token
/// characters only.
pub open spec fn valid_header_name(s: Seq<char>) -> bool {
    s.len() > 0 && forall|i: int| 0 <= i < s.len() ==> is_header_name_char(#[trigger] s[i])
}

/// The characters legal in a header value: horizontal tab and everything at
/// or above the space, except delete.
pub open spec fn is_header_value_char(c: char) -> bool {
    c as u32 == 9 || (32 <= c as u32 && c as u32 != 127)
}

/// A well-formed header value (the empty value is legal).
pub open spec fn valid_header_value(s: Seq<char>) -> bool {
    forall|i: int| 0 <= i < s.len() ==> is_header_value_char(#[trigger] s[i])
}

/// Appends the lower-cased form of `s[i]` to `r`.
fn append_lower_char(r: &mut String, s: &str, i: usize)
    requires
        i < s@.len(),
        s@.len() <= usize::MAX,
    ensures
        final(r)@ == old(r)@ + seq![lower_char(s@[i as int])],
{
    let c = s.get_char(i);
    if c == 'A' {
        proof { reveal_strlit("a"); }
        r.append("a");
    } else if c == 'B' {
        proof { reveal_strlit("b"); }
        r.append("b");
    } else if c == 'C' {
        proof { reveal_strlit("c"); }
        r.append("c");
    } else if c == 'D' {
        proof { reveal_strlit("d"); }
        r.append("d");
    } else if c == 'E' {
        proof { reveal_strlit("e"); }
        r.append("e");
    } else if c == 'F' {
        proof { reveal_strlit("f"); }
        r.append("f");
    } else if c == 'G' {
        proof { reveal_strlit("g"); }
        r.append("g");
    } else if c == 'H' {
        proof { reveal_strlit("h"); }
        r.append("h");
    } else if c == 'I' {
        proof { reveal_strlit("i"); }
        r.append("i");
    } else if c == 'J' {
        proof { reveal_strlit("j"); }
        r.append("j");
    } else if c == 'K' {
        proof { reveal_strlit("k"); }
        r.append("k");
    } else if c == 'L' {
        proof { reveal_strlit("l"); }
        r.append("l");
    } else if c == 'M' {
        proof { reveal_strlit("m"); }
        r.append("m");
    } else if c == 'N' {
        proof { reveal_strlit("n"); }
        r.append("n");
    } else if c == 'O' {
        proof { reveal_strlit("o"); }
        r.append("o");
    } else if c == 'P' {
        proof { reveal_strlit("p"); }
        r.append("p");
    } else if c == 'Q' {
        proof { reveal_strlit("q"); }
        r.append("q");
    } else if c == 'R' {
        proof { reveal_strlit("r"); }
        r.append("r");
    } else if c == 'S' {
        proof { reveal_strlit("s"); }
        r.append("s");
    } else if c == 'T' {
        proof { reveal_strlit("t"); }
        r.append("t");
    } else if c == 'U' {
        proof { reveal_strlit("u"); }
        r.append("u");
    } else if c == 'V' {
        proof { reveal_strlit("v"); }
        r.append("v");
    } else if c == 'W' {
        proof { reveal_strlit("w"); }
        r.append("w");
    } else if c == 'X' {
        proof { reveal_strlit("x"); }
        r.append("x");
    } else if c == 'Y' {
        proof { reveal_strlit("y"); }
        r.append("y");
    } else if c == 'Z' {
        proof { reveal_strlit("z"); }
        r.append("z");
    } else {
        let one = s.substring_char(i, i + 1);
        assert(one@ =~= seq![s@[i as int]]);
        r.append(one);
    }
}

/// The ASCII lower-cased copy of a string.
pub fn ascii_lower(s: &str) -> (r: String)
    ensures
        r@ == lower(s@),
{
    let n = s.unicode_len();
    let mut r = String::new();
    let mut i: usize = 0;
    while i < n
        invariant
            n == s@.len(),
            i <= n,
            r@ == lower(s@.take(i as int)),
        decreases n - i,
    {
        append_lower_char(&mut r, s, i);
        proof {
            assert(lower(s@.take(i + 1)) =~= lower(s@.take(i as int)) + seq![
                lower_char(s@[i as int]),
            ]);
        }
        i = i + 1;
    }
    proof {
        assert(s@.take(n as int) =~= s@);
    }
    r
}

/// Whether every character of `s` is a legal lower-case header name
/// character, and `s` is non-empty.
pub fn check_header_name(s: &str) -> (r: bool)
    ensures
        r == valid_header_name(s@),
{
    let n = s.unicode_len();
    if n == 0 {
        return false;
    }
    let mut i: usize = 0;
    while i < n
        invariant
            n == s@.len(),
            i <= n,
            forall|j: int| 0 <= j < i ==> is_header_name_char(#[trigger] s@[j]),
        decreases n - i,
    {
        let u = s.get_char(i) as u32;
        let ok = (97 <= u && u <= 122) || (48 <= u && u <= 57) || u == 33 || u == 35 || u == 36
            || u == 37 || u == 38 || u == 39 || u == 42 || u == 43 || u == 45 || u == 46 || u == 94
            || u == 95 || u == 96 || u == 124 || u == 126;
        if !ok {
            return false;
        }
        i = i + 1;
    }
    true
}

/// Whether every character of `s` is a legal header value character.
pub fn check_header_value(s: &str) -> (r: bool)
    ensures
        r == valid_header_value(s@),
{
    let n = s.unicode_len();
    let mut i: usize = 0;
    while i < n
        invariant
            n == s@.len(),
            i <= n,
            forall|j: int| 0 <= j < i ==> is_header_value_char(#[trigger] s@[j]),
        decreases n - i,
    {
        let u = s.get_char(i) as u32;
        if !(u == 9 || (32 <= u && u != 127)) {
            return false;
        }
        i = i + 1;
    }
    true
}

/// The decimal digit character for `d`.
pub open spec fn digit_char(d: nat) -> char
    recommends
        d < 10,
{
    ((48 + d) as u32) as char
}

/// The decimal rendering of `n`, most significant digit first, without
/// leading zeros (a single `'0'` for zero).
pub open spec fn dec_digits(n: nat) -> Seq<char>
    decreases n,
{
    if n < 10 {
        seq![digit_char(n)]
    } else {
        dec_digits(n / 10) + seq![digit_char(n % 10)]
    }
}

/// Appends the digit character for `d` to `r`.
fn append_digit(r: &mut String, d: u64)
    requires
        d < 10,
    ensures
        final(r)@ == old(r)@ + seq![digit_char(d as nat)],
{
    if d == 0 {
        proof { reveal_strlit("0"); }
        r.append("0");
    } else if d == 1 {
        proof { reveal_strlit("1"); }
        r.append("1");
    } else if d == 2 {
        proof { reveal_strlit("2"); }
        r.append("2");
    } else if d == 3 {
        proof { reveal_strlit("3"); }
        r.append("3");
    } else if d == 4 {
        proof { reveal_strlit("4"); }
        r.append("4");
    } else if d == 5 {
        proof { reveal_strlit("5"); }
        r.append("5");
    } else if d == 6 {
        proof { reveal_strlit("6"); }
        r.append("6");
    } else if d == 7 {
        proof { reveal_strlit("7"); }
        r.append("7");
    } else if d == 8 {
        proof { reveal_strlit("8"); }
        r.append("8");
    } else {
        proof { reveal_strlit("9"); }
        r.append("9");
    }
}

/// The decimal rendering of `n` as a `String`.
pub fn u64_to_dec(n: u64) -> (s: String)
    ensures
        s@ == dec_digits(n as nat),
    decreases n,
{
    if n < 10 {
        let mut s = String::new();
        append_digit(&mut s, n);
        s
    } else {
        let mut s = u64_to_dec(n / 10);
        append_digit(&mut s, n % 10);
        s
    }
}

/// Decodes body bytes as UTF-8.
///
/// Relies on `std::str::from_utf8`: it returns `Ok` exactly when the bytes
/// are a valid UTF-8 encoding, and then the string's characters are the
/// decoded scalar values.
#[verifier::external_body]
pub fn bytes_to_string(b: &Vec<u8>) -> (r: Option<String>)
    ensures
        r is Some <==> vstd::utf8::valid_utf8(b@),
        r matches Some(s) ==> s@ == vstd::utf8::decode_utf8(b@),
{
    match std::str::from_utf8(b.as_slice()) {
        Ok(s) => Some(s.to_string()),
        Err(_) => None,
    }
}

/// The UTF-8 encoding of a string, as owned bytes.
pub fn string_to_bytes(s: &str) -> (r: Vec<u8>)
    ensures
        r@ == vstd::utf8::encode_utf8(s@),
{
    s.as_bytes_vec()
}

} // verus!

verus! {

/// The index just past the first `"://"` in `u` at or after `i`, if any.
pub open spec fn scheme_sep(u: Seq<char>, i: int) -> Option<int>
    decreases u.len() - i,
    when 0 <= i
{
    if i + 3 > u.len() {
        None
    } else if u[i] == ':' && u[i + 1] == '/' && u[i + 2] == '/' {
        Some(i + 3)
    } else {
        scheme_sep(u, i + 1)
    }
}

/// The index of the first `'/'` in `u` at or after `i`, or `u.len()`.
pub open spec fn slash_from(u: Seq<char>, i: int) -> int
    decreases u.len() - i,
    when 0 <= i <= u.len()
{
    if i >= u.len() {
        u.len() as int
    } else if u[i] == '/' {
        i
    } else {
        slash_from(u, i + 1)
    }
}

/// The path-and-query part of a request URI: an origin-form URI (starting
/// with `'/'`) is kept whole; in an absolute-form URI everything from the
/// first `'/'` after the scheme separator is kept; a URI with no path at all
/// maps to `"/"`.
pub open spec fn path_and_query(u: Seq<char>) -> Seq<char> {
    if u.len() > 0 && u[0] == '/' {
        u
    } else {
        match scheme_sep(u, 0) {
            Some(a) => {
                let p = slash_from(u, a);
                if p == u.len() {
                    seq!['/']
                } else {
                    u.subrange(p, u.len() as int)
                }
            },
            None => seq!['/'],
        }
    }
}

/// Extracts the path-and-query part of a request URI.
pub fn extract_path_and_query(u: &str) -> (r: String)
    ensures
        r@ == path_and_query(u@),
{
    let n = u.unicode_len();
    if n > 0 && u.get_char(0) == '/' {
        return u.to_owned();
    }
    // look for "://"
    let mut i: usize = 0;
    let mut found: bool = false;
    while !found && n >= 3 && i <= n - 3
        invariant
            n == u@.len(),
            i <= n,
            found ==> scheme_sep(u@, 0) == Some(i + 3),
            found ==> i + 3 <= n,
            !found ==> scheme_sep(u@, 0) == scheme_sep(u@, i as int),
        decreases n - i + (if found { 0int } else { 1int }),
    {
        if u.get_char(i) == ':' && u.get_char(i + 1) == '/' && u.get_char(i + 2) == '/' {
            found = true;
        } else {
            i = i + 1;
        }
    }
    proof { reveal_strlit("/"); }
    if !found {
        assert(scheme_sep(u@, 0) is None);
        let r = String::from_str("/");
        assert(r@ =~= seq!['/']);
        r
    } else {
        let a = i + 3;
        let mut p: usize = a;
        let mut slash: bool = false;
        while !slash && p < n
            invariant
                n == u@.len(),
                a <= p <= n,
                slash ==> (p < n && slash_from(u@, a as int) == p),
                !slash ==> slash_from(u@, a as int) == slash_from(u@, p as int),
            decreases n - p + (if slash { 0int } else { 1int }),
        {
            if u.get_char(p) == '/' {
                slash = true;
            } else {
                p = p + 1;
            }
        }
        if !slash {
            assert(slash_from(u@, a as int) == n);
            let r = String::from_str("/");
            assert(r@ =~= seq!['/']);
            r
        } else {
            let tail = u.substring_char(p, n);
            tail.to_owned()
        }
    }
}

/// The outbound backend URL: the configured base followed by the inbound
/// request's path and query.
pub fn backend_url(base: &str, uri: &str) -> (r: String)
    ensures
        r@ == base@ + path_and_query(uri@),
{
    let mut r = base.to_owned();
    let pq = extract_path_and_query(uri);
    r.append(pq.as_str());
    r
}

} // verus!
