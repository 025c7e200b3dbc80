//! Splitting a request line into whitespace-delimited tokens.
//!
//! A CONNECT request is accepted leniently: any text whose second
//! whitespace-delimited token exists names the target authority
//! (`host:port`). Nothing else in the line is interpreted.

use vstd::prelude::*;

verus! {

/// The characters that `char::is_whitespace` reports as whitespace:
/// the Unicode `White_Space` property, written out code point by code point.
pub open spec fn is_space_char(c: char) -> bool {
    let u = c as u32;
    ||| u == 0x09
    ||| u == 0x0A
    ||| u == 0x0B
    ||| u == 0x0C
    ||| u == 0x0D
    ||| u == 0x20
    ||| u == 0x85
    ||| u == 0xA0
    ||| u == 0x1680
    ||| (0x2000 <= u && u <= 0x200A)
    ||| u == 0x2028
    ||| u == 0x2029
    ||| u == 0x202F
    ||| u == 0x205F
    ||| u == 0x3000
}

/// Whitespace test on one character, exactly `is_space_char`.
pub fn is_space(c: char) -> (r: bool)
    ensures
        r == is_space_char(c),
{
    let u = c as u32;
    u == 0x09 || u == 0x0A || u == 0x0B || u == 0x0C || u == 0x0D || u == 0x20 || u == 0x85
        || u == 0xA0 || u == 0x1680 || (0x2000 <= u && u <= 0x200A) || u == 0x2028 || u == 0x2029
        || u == 0x202F || u == 0x205F || u == 0x3000
}

/// Index of the first non-whitespace character at or after `i`
/// (or the end of the text).
pub open spec fn skip_spaces(s: Seq<char>, i: int) -> int
    decreases s.len() - i,
{
    if 0 <= i < s.len() && is_space_char(s[i]) {
        skip_spaces(s, i + 1)
    } else {
        i
    }
}

/// Index of the first whitespace character at or after `i`
/// (or the end of the text): the end of the token starting at `i`.
pub open spec fn skip_token(s: Seq<char>, i: int) -> int
    decreases s.len() - i,
{
    if 0 <= i < s.len() && !is_space_char(s[i]) {
        skip_token(s, i + 1)
    } else {
        i
    }
}

/// The second whitespace-delimited token of `s`, if `s` has at least two
/// tokens; `None` otherwise. In a CONNECT request line this token is the
/// target authority.
pub open spec fn second_token(s: Seq<char>) -> Option<Seq<char>> {
    let first_start = skip_spaces(s, 0);
    let first_end = skip_token(s, first_start);
    let second_start = skip_spaces(s, first_end);
    if second_start < s.len() {
        Some(s.subrange(second_start, skip_token(s, second_start)))
    } else {
        None
    }
}

/// Extracts the second whitespace-delimited token, exactly as
/// `second_token` describes it.
pub fn second_token_of(chars: &Vec<char>) -> (r: Option<Vec<char>>)
    ensures
        r is Some <==> second_token(chars@) is Some,
        r matches Some(t) ==> second_token(chars@) == Some(t@),
{
    let ghost s: Seq<char> = chars@;
    let n: usize = chars.len();

    let mut i: usize = 0;
    while i < n && is_space(chars[i])
        invariant
            s == chars@,
            n == s.len(),
            0 <= i <= n,
            skip_spaces(s, 0) == skip_spaces(s, i as int),
        decreases n - i,
    {
        assert(skip_spaces(s, i as int) == skip_spaces(s, i + 1));
        i = i + 1;
    }
    assert(skip_spaces(s, 0) == i as int);
    let first_start: usize = i;

    let mut j: usize = first_start;
    while j < n && !is_space(chars[j])
        invariant
            s == chars@,
            n == s.len(),
            first_start <= j <= n,
            skip_token(s, first_start as int) == skip_token(s, j as int),
        decreases n - j,
    {
        assert(skip_token(s, j as int) == skip_token(s, j + 1));
        j = j + 1;
    }
    assert(skip_token(s, first_start as int) == j as int);
    let first_end: usize = j;

    let mut k: usize = first_end;
    while k < n && is_space(chars[k])
        invariant
            s == chars@,
            n == s.len(),
            first_end <= k <= n,
            skip_spaces(s, first_end as int) == skip_spaces(s, k as int),
        decreases n - k,
    {
        assert(skip_spaces(s, k as int) == skip_spaces(s, k + 1));
        k = k + 1;
    }
    assert(skip_spaces(s, first_end as int) == k as int);
    let second_start: usize = k;

    if second_start >= n {
        return None;
    }

    let mut m: usize = second_start;
    while m < n && !is_space(chars[m])
        invariant
            s == chars@,
            n == s.len(),
            second_start <= m <= n,
            skip_token(s, second_start as int) == skip_token(s, m as int),
        decreases n - m,
    {
        assert(skip_token(s, m as int) == skip_token(s, m + 1));
        m = m + 1;
    }
    assert(skip_token(s, second_start as int) == m as int);
    let second_end: usize = m;

    let mut token: Vec<char> = Vec::new();
    let mut p: usize = second_start;
    while p < second_end
        invariant
            s == chars@,
            n == s.len(),
            second_start <= p <= second_end <= n,
            token@ == s.subrange(second_start as int, p as int),
        decreases second_end - p,
    {
        token.push(chars[p]);
        assert(s.subrange(second_start as int, p + 1) =~= s.subrange(
            second_start as int,
            p as int,
        ).push(s[p as int]));
        p = p + 1;
    }
    assert(token@ == s.subrange(second_start as int, second_end as int));
    Some(token)
}

} // verus!
