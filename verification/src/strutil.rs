//! Small verified string helpers shared across the library: equality and
//! prefix tests over `&str`, ASCII case folding, and decimal rendering of
//! integers.

use vstd::prelude::*;

verus! {

use vstd::string::*;

/// Appends one character to a string.
///
/// Relies on `String::push`, which appends exactly the given character.
#[verifier::external_body]
pub fn push_char(s: &mut String, c: char)
    ensures
        final(s)@ == old(s)@ + seq![c],
{
    s.push(c)
}

/// Character-wise equality of two string slices.
pub fn str_eq(a: &str, b: &str) -> (r: bool)
    ensures
        r == (a@ == b@),
{
    let a_len = a.unicode_len();
    let b_len = b.unicode_len();
    if a_len != b_len {
        assert(a@ != b@);
        return false;
    }
    for i in 0..a_len
        invariant
            a_len == a@.len(),
            b_len == b@.len(),
            a_len == b_len,
            forall|j: int| 0 <= j < i ==> a@[j] == b@[j],
    {
        if a.get_char(i) != b.get_char(i) {
            return false;
        }
    }
    assert(a@ =~= b@);
    true
}

/// `p` is a prefix of `s`.
pub open spec fn spec_starts_with(s: Seq<char>, p: Seq<char>) -> bool {
    p.len() <= s.len() && s.subrange(0, p.len() as int) == p
}

/// Whether `s` starts with the prefix `p`.
pub fn starts_with(s: &str, p: &str) -> (r: bool)
    ensures
        r == spec_starts_with(s@, p@),
{
    let s_len = s.unicode_len();
    let p_len = p.unicode_len();
    if p_len > s_len {
        return false;
    }
    for i in 0..p_len
        invariant
            s_len == s@.len(),
            p_len == p@.len(),
            p_len <= s_len,
            forall|j: int| 0 <= j < i ==> s@[j] == p@[j],
    {
        if s.get_char(i) != p.get_char(i) {
            assert(!spec_starts_with(s@, p@)) by {
                if spec_starts_with(s@, p@) {
                    assert(s@.subrange(0, p@.len() as int)[i as int] == p@[i as int]);
                }
            }
            return false;
        }
    }
    assert(s@.subrange(0, p@.len() as int) =~= p@);
    true
}

/// ASCII case folding of a single character; anything outside `A..=Z` is kept.
pub open spec fn lower_char(c: char) -> char {
    match c {
        'A' => 'a',
        'B' => 'b',
        'C' => 'c',
        'D' => 'd',
        'E' => 'e',
        'F' => 'f',
        'G' => 'g',
        'H' => 'h',
        'I' => 'i',
        'J' => 'j',
        'K' => 'k',
        'L' => 'l',
        'M' => 'm',
        'N' => 'n',
        'O' => 'o',
        'P' => 'p',
        'Q' => 'q',
        'R' => 'r',
        'S' => 's',
        'T' => 't',
        'U' => 'u',
        'V' => 'v',
        'W' => 'w',
        'X' => 'x',
        'Y' => 'y',
        'Z' => 'z',
        _ => c,
    }
}

/// ASCII case folding of a sequence of characters.
pub open spec fn lower_seq(s: Seq<char>) -> Seq<char> {
    s.map_values(|c: char| lower_char(c))
}

/// Computes [`lower_char`].
pub fn to_lower_char(c: char) -> (r: char)
    ensures
        r == lower_char(c),
{
    match c {
        'A' => 'a',
        'B' => 'b',
        'C' => 'c',
        'D' => 'd',
        'E' => 'e',
        'F' => 'f',
        'G' => 'g',
        'H' => 'h',
        'I' => 'i',
        'J' => 'j',
        'K' => 'k',
        'L' => 'l',
        'M' => 'm',
        'N' => 'n',
        'O' => 'o',
        'P' => 'p',
        'Q' => 'q',
        'R' => 'r',
        'S' => 's',
        'T' => 't',
        'U' => 'u',
        'V' => 'v',
        'W' => 'w',
        'X' => 'x',
        'Y' => 'y',
        'Z' => 'z',
        _ => c,
    }
}

/// ASCII-case-insensitive comparison of `s` against an already lower-case
/// pattern `lit`.
pub fn eq_ignore_ascii_case(s: &str, lit: &str) -> (r: bool)
    ensures
        r == (lower_seq(s@) == lit@),
{
    let s_len = s.unicode_len();
    let l_len = lit.unicode_len();
    if s_len != l_len {
        assert(lower_seq(s@).len() == s@.len());
        return false;
    }
    for i in 0..s_len
        invariant
            s_len == s@.len(),
            l_len == lit@.len(),
            s_len == l_len,
            forall|j: int| 0 <= j < i ==> lower_char(s@[j]) == lit@[j],
    {
        if to_lower_char(s.get_char(i)) != lit.get_char(i) {
            assert(lower_seq(s@)[i as int] != lit@[i as int]);
            return false;
        }
    }
    assert(lower_seq(s@) =~= lit@);
    true
}

/// Whether `pat` occurs in `s` at offset `i`.
pub fn match_at(s: &str, pat: &str, i: usize) -> (r: bool)
    requires
        i <= s@.len(),
    ensures
        r == spec_starts_with(s@.skip(i as int), pat@),
{
    let s_len = s.unicode_len();
    let p_len = pat.unicode_len();
    if p_len > s_len - i {
        return false;
    }
    for j in 0..p_len
        invariant
            s_len == s@.len(),
            p_len == pat@.len(),
            i + p_len <= s_len,
            forall|k: int| 0 <= k < j ==> s@[i + k] == pat@[k],
    {
        if s.get_char(i + j) != pat.get_char(j) {
            proof {
                assert(s@.skip(i as int)[j as int] == s@[i + j]);
                assert(!spec_starts_with(s@.skip(i as int), pat@)) by {
                    if spec_starts_with(s@.skip(i as int), pat@) {
                        assert(s@.skip(i as int).subrange(0, pat@.len() as int)[j as int]
                            == pat@[j as int]);
                    }
                }
            }
            return false;
        }
    }
    proof {
        assert(s@.skip(i as int).subrange(0, pat@.len() as int) =~= pat@);
    }
    true
}

/// `s` with every occurrence of `pat` replaced by `rep`, scanning left to
/// right without overlap; an empty pattern replaces nothing.
pub open spec fn spec_replace(s: Seq<char>, pat: Seq<char>, rep: Seq<char>) -> Seq<char>
    decreases s.len(),
{
    if pat.len() == 0 {
        s
    } else if s.len() < pat.len() {
        s
    } else if spec_starts_with(s, pat) {
        rep + spec_replace(s.skip(pat.len() as int), pat, rep)
    } else {
        seq![s[0]] + spec_replace(s.drop_first(), pat, rep)
    }
}

/// Computes [`spec_replace`].
pub fn replace_all(s: &str, pat: &str, rep: &str) -> (r: String)
    ensures
        r@ == spec_replace(s@, pat@, rep@),
{
    let s_len = s.unicode_len();
    let p_len = pat.unicode_len();
    if p_len == 0 {
        return s.to_owned();
    }
    let mut out = String::new();
    let mut i: usize = 0;
    proof {
        assert(s@.skip(0) =~= s@);
    }
    while i < s_len
        invariant
            s_len == s@.len(),
            p_len == pat@.len(),
            p_len > 0,
            i <= s_len,
            spec_replace(s@, pat@, rep@) == out@ + spec_replace(s@.skip(i as int), pat@, rep@),
        decreases s_len - i,
    {
        let ghost rest = s@.skip(i as int);
        if p_len <= s_len - i && match_at(s, pat, i) {
            out.append(rep);
            proof {
                assert(rest.skip(pat@.len() as int) =~= s@.skip(i + p_len));
            }
            i = i + p_len;
        } else {
            push_char(&mut out, s.get_char(i));
            proof {
                assert(rest[0] == s@[i as int]);
                assert(rest.drop_first() =~= s@.skip(i + 1));
                if rest.len() < pat@.len() {
                    assert(spec_replace(rest, pat@, rep@) =~= rest);
                    assert(spec_replace(s@.skip(i + 1), pat@, rep@) =~= s@.skip(i + 1));
                    assert(rest =~= seq![rest[0]] + rest.drop_first());
                }
            }
            i = i + 1;
        }
        proof {
            assert(spec_replace(s@, pat@, rep@) =~= out@ + spec_replace(
                s@.skip(i as int),
                pat@,
                rep@,
            ));
        }
    }
    proof {
        assert(s@.skip(s_len as int) =~= Seq::<char>::empty());
        assert(spec_replace(s@, pat@, rep@) =~= out@);
    }
    out
}

/// The character of one decimal digit.
pub open spec fn spec_digit(d: int) -> char {
    if d == 0 {
        '0'
    } else if d == 1 {
        '1'
    } else if d == 2 {
        '2'
    } else if d == 3 {
        '3'
    } else if d == 4 {
        '4'
    } else if d == 5 {
        '5'
    } else if d == 6 {
        '6'
    } else if d == 7 {
        '7'
    } else if d == 8 {
        '8'
    } else {
        '9'
    }
}

/// Computes [`spec_digit`].
fn digit_char(d: u64) -> (c: char)
    requires
        d < 10,
    ensures
        c == spec_digit(d as int),
{
    if d == 0 {
        '0'
    } else if d == 1 {
        '1'
    } else if d == 2 {
        '2'
    } else if d == 3 {
        '3'
    } else if d == 4 {
        '4'
    } else if d == 5 {
        '5'
    } else if d == 6 {
        '6'
    } else if d == 7 {
        '7'
    } else if d == 8 {
        '8'
    } else {
        '9'
    }
}

/// The decimal rendering of a non-negative integer, most significant digit
/// first, with no leading zeroes (and `"0"` for zero).
pub open spec fn spec_dec(n: int) -> Seq<char>
    decreases n,
{
    if n < 10 {
        seq![spec_digit(n)]
    } else {
        spec_dec(n / 10) + seq![spec_digit(n % 10)]
    }
}

/// Renders `n` in decimal.
pub fn u64_to_string(n: u64) -> (s: String)
    ensures
        s@ == spec_dec(n as int),
{
    let mut rev: Vec<char> = Vec::new();
    let mut m: u64 = n;
    while m >= 10
        invariant
            spec_dec(n as int) == spec_dec(m as int) + rev@.reverse(),
        decreases m,
    {
        let ghost rev0 = rev@;
        rev.push(digit_char(m % 10));
        proof {
            assert(rev@.reverse() =~= seq![spec_digit(m as int % 10)] + rev0.reverse());
            assert(spec_dec(m as int) == spec_dec(m as int / 10) + seq![spec_digit(m as int % 10)]);
            assert(spec_dec(m as int) + rev0.reverse() =~= spec_dec(m as int / 10) + rev@.reverse());
        }
        m = m / 10;
    }
    let ghost rev1 = rev@;
    rev.push(digit_char(m));
    proof {
        assert(m as int % 10 == m as int);
        assert(spec_dec(m as int) == seq![spec_digit(m as int)]);
        assert(rev@.reverse() =~= seq![spec_digit(m as int)] + rev1.reverse());
        assert(spec_dec(n as int) =~= rev@.reverse());
    }
    let mut s = String::new();
    let count = rev.len();
    for i in 0..count
        invariant
            count == rev@.len(),
            s@ == rev@.reverse().subrange(0, i as int),
    {
        let c = rev[count - 1 - i];
        push_char(&mut s, c);
        assert(s@ =~= rev@.reverse().subrange(0, i + 1 as int));
    }
    assert(s@ =~= rev@.reverse());
    s
}

} // verus!
