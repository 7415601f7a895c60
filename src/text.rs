use vstd::prelude::*;

use crate::config::{is_white_space, white_space};

verus! {

/// Number of leading white-space characters.
pub open spec fn lead_ws(s: Seq<char>) -> nat
    decreases s.len(),
{
    if s.len() > 0 && white_space(s[0]) {
        1 + lead_ws(s.drop_first())
    } else {
        0
    }
}

/// Number of trailing white-space characters.
pub open spec fn trail_ws(s: Seq<char>) -> nat
    decreases s.len(),
{
    if s.len() > 0 && white_space(s.last()) {
        1 + trail_ws(s.drop_last())
    } else {
        0
    }
}

/// `s` without trailing white space.
pub open spec fn trim_end(s: Seq<char>) -> Seq<char> {
    s.subrange(0, s.len() - trail_ws(s))
}

/// `s` without leading or trailing white space.
pub open spec fn trim(s: Seq<char>) -> Seq<char> {
    let t = trim_end(s);
    t.subrange(lead_ws(t) as int, t.len() as int)
}

/// `s` without any white-space character.
pub open spec fn strip_ws(s: Seq<char>) -> Seq<char> {
    s.filter(|c: char| !white_space(c))
}

/// `s` without the character `x`.
pub open spec fn without(s: Seq<char>, x: char) -> Seq<char> {
    s.filter(|c: char| c != x)
}

/// `pat` occurs in `s` starting at `i`.
pub open spec fn occurs_at(s: Seq<char>, pat: Seq<char>, i: int) -> bool {
    0 <= i && i + pat.len() <= s.len() && s.subrange(i, i + pat.len()) == pat
}

pub open spec fn contains_seq(s: Seq<char>, pat: Seq<char>) -> bool {
    exists|i: int| occurs_at(s, pat, i)
}

/// Number of characters before the first white-space character.
pub open spec fn word_len(s: Seq<char>) -> nat
    decreases s.len(),
{
    if s.len() > 0 && !white_space(s[0]) {
        1 + word_len(s.drop_first())
    } else {
        0
    }
}

/// The first white-space separated word of `s`, if any.
pub open spec fn first_word(s: Seq<char>) -> Option<Seq<char>> {
    let rest = s.subrange(lead_ws(s) as int, s.len() as int);
    if rest.len() == 0 {
        None
    } else {
        Some(rest.subrange(0, word_len(rest) as int))
    }
}

pub open spec fn is_digit(c: char) -> bool {
    '0' <= c && c <= '9'
}

/// The value of a string of decimal digits.
pub open spec fn digits_value(s: Seq<char>) -> nat
    decreases s.len(),
{
    if s.len() == 0 {
        0
    } else {
        digits_value(s.drop_last()) * 10 + (s.last() as nat - '0' as nat) as nat
    }
}

/// The value of a nonempty string of decimal digits, when it fits in a `u64`.
pub open spec fn digits_u64(d: Seq<char>) -> Option<u64> {
    if d.len() > 0 && (forall|i: int| 0 <= i < d.len() ==> is_digit(#[trigger] d[i])) && digits_value(d)
        <= u64::MAX {
        Some(digits_value(d) as u64)
    } else {
        None
    }
}

/// What parsing `s` as a `u64` gives: an optional `+`, then one or more
/// decimal digits whose value fits.
pub open spec fn u64_of(s: Seq<char>) -> Option<u64> {
    if s.len() > 0 && s[0] == '+' {
        digits_u64(s.drop_first())
    } else {
        digits_u64(s)
    }
}

/// Index of the first non-white-space character at or after `from`.
fn skip_ws(s: &str, n: usize, from: usize) -> (r: usize)
    requires
        n == s@.len(),
        from <= n,
    ensures
        from <= r <= n,
        r == from + lead_ws(s@.subrange(from as int, n as int)),
    decreases n - from,
{
    if from < n && is_white_space(s.get_char(from)) {
        let ghost t = s@.subrange(from as int, n as int);
        assert(t.drop_first() =~= s@.subrange(from + 1, n as int));
        skip_ws(s, n, from + 1)
    } else {
        from
    }
}

/// Length of `s` once trailing white space below `to` is dropped.
fn end_without_ws(s: &str, to: usize) -> (r: usize)
    requires
        to <= s@.len(),
    ensures
        r <= to,
        r == to - trail_ws(s@.subrange(0, to as int)),
    decreases to,
{
    if to > 0 && is_white_space(s.get_char(to - 1)) {
        let ghost t = s@.subrange(0, to as int);
        assert(t.drop_last() =~= s@.subrange(0, to - 1));
        end_without_ws(s, to - 1)
    } else {
        to
    }
}

/// `s` without trailing white space.
pub fn trim_end_str(s: &str) -> (r: String)
    ensures
        r@ == trim_end(s@),
{
    let n = s.unicode_len();
    let e = end_without_ws(s, n);
    assert(s@.subrange(0, n as int) =~= s@);
    s.substring_char(0, e).to_owned()
}

/// `s` without leading or trailing white space.
pub fn trim_str(s: &str) -> (r: String)
    ensures
        r@ == trim(s@),
{
    let t = trim_end_str(s);
    let n = t.as_str().unicode_len();
    let b = skip_ws(t.as_str(), n, 0);
    assert(t@.subrange(0, n as int) =~= t@);
    t.as_str().substring_char(b, n).to_owned()
}

/// `s` without its white-space characters when `ws` holds, otherwise
/// without the character `x`.
fn remove_chars(s: &str, ws: bool, x: char) -> (r: String)
    ensures
        ws ==> r@ == strip_ws(s@),
        !ws ==> r@ == without(s@, x),
{
    let n = s.unicode_len();
    let mut out = String::new();
    let mut i: usize = 0;
    while i < n
        invariant
            n == s@.len(),
            i <= n,
            ws ==> out@ == strip_ws(s@.subrange(0, i as int)),
            !ws ==> out@ == without(s@.subrange(0, i as int), x),
        decreases n - i,
    {
        let c = s.get_char(i);
        let drop = if ws {
            is_white_space(c)
        } else {
            c == x
        };
        proof {
            reveal(Seq::filter);
            assert(s@.subrange(0, i + 1).drop_last() =~= s@.subrange(0, i as int));
            assert(s@.subrange(0, i + 1).last() == c);
        }
        if !drop {
            let piece = s.substring_char(i, i + 1);
            proof {
                assert(piece@ =~= seq![c]);
            }
            out.append(piece);
        }
        i = i + 1;
    }
    assert(s@.subrange(0, n as int) =~= s@);
    out
}

/// `s` without any white-space character.
pub fn strip_white_space(s: &str) -> (r: String)
    ensures
        r@ == strip_ws(s@),
{
    remove_chars(s, true, ' ')
}

/// `s` without the character `x`.
pub fn remove_char(s: &str, x: char) -> (r: String)
    ensures
        r@ == without(s@, x),
{
    remove_chars(s, false, x)
}

/// Whether `pat` occurs in `s`.
pub fn contains_str(s: &str, pat: &str) -> (r: bool)
    ensures
        r == contains_seq(s@, pat@),
{
    let n = s.unicode_len();
    let m = pat.unicode_len();
    if m > n {
        return false;
    }
    let mut i: usize = 0;
    while i <= n - m
        invariant
            n == s@.len(),
            m == pat@.len(),
            m <= n,
            i <= n - m + 1,
            forall|j: int| 0 <= j < i ==> !occurs_at(s@, pat@, j),
        decreases n - m + 1 - i,
    {
        let mut k: usize = 0;
        let mut same = true;
        while k < m
            invariant
                n == s@.len(),
                m == pat@.len(),
                i + m <= n,
                k <= m,
                same == (forall|j: int| 0 <= j < k ==> s@[i + j] == pat@[j]),
            decreases m - k,
        {
            if s.get_char(i + k) != pat.get_char(k) {
                same = false;
            }
            k = k + 1;
        }
        if same {
            assert(s@.subrange(i as int, i + m) =~= pat@);
            assert(occurs_at(s@, pat@, i as int));
            return true;
        }
        assert(!(s@.subrange(i as int, i + m) =~= pat@));
        i = i + 1;
    }
    assert forall|j: int| !occurs_at(s@, pat@, j) by {
        if 0 <= j && j + m <= n {
            assert(j < i);
        }
    }
    false
}

/// The first white-space separated word of `s`.
pub fn first_word_str(s: &str) -> (r: Option<String>)
    ensures
        r matches Some(w) ==> first_word(s@) == Some(w@),
        r is None ==> first_word(s@) is None,
{
    let n = s.unicode_len();
    let b = skip_ws(s, n, 0);
    assert(s@.subrange(0, n as int) =~= s@);
    if b == n {
        return None;
    }
    let rest = s.substring_char(b, n);
    let m = n - b;
    let mut k: usize = 0;
    assert(rest@.subrange(0, m as int) =~= rest@);
    while k < m && !is_white_space(rest.get_char(k))
        invariant
            n == s@.len(),
            b <= n,
            rest@ == s@.subrange(b as int, n as int),
            m == rest@.len(),
            k <= m,
            word_len(rest@) == k + word_len(rest@.subrange(k as int, m as int)),
        decreases m - k,
    {
        assert(rest@.subrange(k as int, m as int).drop_first() =~= rest@.subrange(k + 1, m as int));
        k = k + 1;
    }
    assert(word_len(rest@.subrange(k as int, m as int)) == 0);
    Some(rest.substring_char(0, k).to_owned())
}

proof fn lemma_digits_value_step(s: Seq<char>, i: int)
    requires
        0 <= i < s.len(),
    ensures
        digits_value(s.subrange(0, i + 1)) == digits_value(s.subrange(0, i)) * 10 + (s[i] as nat - '0' as nat) as nat,
{
    assert(s.subrange(0, i + 1).drop_last() =~= s.subrange(0, i));
}

fn parse_digits(s: &str, start: usize) -> (r: Option<u64>)
    requires
        start <= s@.len(),
    ensures
        r == digits_u64(s@.subrange(start as int, s@.len() as int)),
{
    let n = s.unicode_len();
    let ghost d = s@.subrange(start as int, n as int);
    if start == n {
        return None;
    }
    let mut value: u64 = 0;
    let mut i: usize = start;
    let mut fits = true;
    while i < n
        invariant
            n == s@.len(),
            start <= i <= n,
            d == s@.subrange(start as int, n as int),
            forall|j: int| 0 <= j < i - start ==> is_digit(#[trigger] d[j]),
            fits ==> value == digits_value(d.subrange(0, i - start)),
            !fits ==> digits_value(d.subrange(0, i - start)) > u64::MAX,
        decreases n - i,
    {
        let c = s.get_char(i);
        if !('0' <= c && c <= '9') {
            assert(!is_digit(d[i - start]));
            return None;
        }
        proof {
            lemma_digits_value_step(d, i - start);
        }
        let digit = (c as u32 - '0' as u32) as u64;
        if fits {
            if value > (u64::MAX - digit) / 10 {
                fits = false;
            } else {
                value = value * 10 + digit;
            }
        }
        i = i + 1;
    }
    assert(d.subrange(0, n - start) =~= d);
    if fits {
        Some(value)
    } else {
        None
    }
}

/// Parses `s` as a `u64` the way `str::parse` does.
pub fn parse_u64(s: &str) -> (r: Option<u64>)
    ensures
        r == u64_of(s@),
{
    let n = s.unicode_len();
    if n > 0 && s.get_char(0) == '+' {
        assert(s@.subrange(1, n as int) =~= s@.drop_first());
        parse_digits(s, 1)
    } else {
        assert(s@.subrange(0, n as int) =~= s@);
        parse_digits(s, 0)
    }
}

} // verus!
