use vstd::prelude::*;

use crate::model::{opt_view, str_eq, Repo};
use crate::text::{trim, trim_end, trim_end_str, trim_str};

verus! {

/// How the merged records are shown.
#[derive(Clone, Copy, Debug, PartialEq, Eq, Structural)]
pub enum OutputFormat {
    Motd,
    Json,
}

/// Index of the last occurrence of `c` in `s`.
pub open spec fn last_index(s: Seq<char>, c: char) -> Option<int>
    decreases s.len(),
{
    if s.len() == 0 {
        None
    } else if s.last() == c {
        Some(s.len() - 1)
    } else {
        last_index(s.drop_last(), c)
    }
}

/// `s` without an unfinished link at its end: from the last `[` on, when no
/// `]` follows it, or a `]` and a `(` follow it but no `)`.
pub open spec fn cut_open_bracket(s: Seq<char>) -> Seq<char> {
    match last_index(s, '[') {
        Some(b) => {
            let t = s.subrange(b, s.len() as int);
            if !t.contains(']') || (t.contains('(') && !t.contains(')')) {
                s.subrange(0, b)
            } else {
                s
            }
        },
        None => s,
    }
}

/// `s` without an unclosed parenthesis at its end: from the last `(` on,
/// when no `)` follows it.
pub open spec fn cut_open_paren(s: Seq<char>) -> Seq<char> {
    match last_index(s, '(') {
        Some(p) => if !s.subrange(p, s.len() as int).contains(')') {
            s.subrange(0, p)
        } else {
            s
        },
        None => s,
    }
}

/// A truncated text without unfinished markup at its end and without
/// trailing white space.
pub open spec fn cleaned_truncated(s: Seq<char>) -> Seq<char> {
    trim_end(cut_open_paren(cut_open_bracket(s)))
}

proof fn lemma_last_index(s: Seq<char>, c: char)
    ensures
        last_index(s, c) matches Some(i) ==> 0 <= i < s.len() && s[i] == c,
    decreases s.len(),
{
    if s.len() > 0 && s.last() != c {
        lemma_last_index(s.drop_last(), c);
    }
}

/// The index of the last `c` in `s`.
fn rfind_char(s: &str, c: char) -> (r: Option<usize>)
    ensures
        r matches Some(i) ==> last_index(s@, c) == Some(i as int),
        r is None ==> last_index(s@, c) is None,
{
    let n = s.unicode_len();
    let mut k: usize = n;
    assert(s@.subrange(0, n as int) =~= s@);
    while k > 0
        invariant
            n == s@.len(),
            k <= n,
            last_index(s@, c) == last_index(s@.subrange(0, k as int), c),
        decreases k,
    {
        let ghost t = s@.subrange(0, k as int);
        assert(t.drop_last() =~= s@.subrange(0, k - 1));
        if s.get_char(k - 1) == c {
            return Some(k - 1);
        }
        k = k - 1;
    }
    None
}

/// Whether `c` occurs in `s` at or after `from`.
fn has_char_from(s: &str, from: usize, c: char) -> (r: bool)
    requires
        from <= s@.len(),
    ensures
        r == s@.subrange(from as int, s@.len() as int).contains(c),
{
    let n = s.unicode_len();
    let ghost t = s@.subrange(from as int, n as int);
    let mut i: usize = from;
    while i < n
        invariant
            n == s@.len(),
            from <= i <= n,
            t == s@.subrange(from as int, n as int),
            forall|j: int| 0 <= j < i - from ==> t[j] != c,
        decreases n - i,
    {
        if s.get_char(i) == c {
            assert(t[i - from] == c);
            return true;
        }
        i = i + 1;
    }
    false
}

/// Cleans the end of a text that was cut short: drops an unfinished link or
/// parenthesis and trailing white space.
pub fn clean_truncated_text(text: &str) -> (r: String)
    ensures
        r@ == cleaned_truncated(text@),
{
    let n = text.unicode_len();
    let mut end: usize = n;
    proof {
        lemma_last_index(text@, '[');
    }
    match rfind_char(text, '[') {
        Some(b) => {
            let close = has_char_from(text, b, ']');
            let open = has_char_from(text, b, '(');
            let shut = has_char_from(text, b, ')');
            if !close || (close && open && !shut) {
                end = b;
            }
        },
        None => {},
    }
    let first = text.substring_char(0, end);
    proof {
        if end == n {
            assert(first@ =~= text@);
        }
        assert(first@ == cut_open_bracket(text@));
        lemma_last_index(first@, '(');
    }
    let mut end2: usize = end;
    match rfind_char(first, '(') {
        Some(p) => {
            if !has_char_from(first, p, ')') {
                end2 = p;
            }
        },
        None => {},
    }
    let second = first.substring_char(0, end2);
    proof {
        if end2 == end {
            assert(second@ =~= first@);
        }
    }
    trim_end_str(second)
}

/// The decimal digit `d` as a character.
pub open spec fn digit_char(d: nat) -> char {
    "0123456789"@[d as int]
}

/// The decimal notation of `n`, without leading zeros.
pub open spec fn decimal(n: nat) -> Seq<char>
    decreases n,
{
    if n < 10 {
        seq![digit_char(n)]
    } else {
        decimal(n / 10) + seq![digit_char(n % 10)]
    }
}

/// The decimal notation of `n`.
pub fn decimal_text(n: u64) -> (r: String)
    ensures
        r@ == decimal(n as nat),
    decreases n,
{
    let d = (n % 10) as usize;
    proof {
        reveal_strlit("0123456789");
    }
    let digit = "0123456789".substring_char(d, d + 1);
    assert(digit@ =~= seq![digit_char(d as nat)]);
    if n < 10 {
        digit.to_owned()
    } else {
        decimal_text(n / 10).concat(digit)
    }
}

const DAY: i128 = 86400;

/// How long ago a record was last active, seen at `now`: under a day is
/// today, under two days yesterday, then whole days under a week, whole
/// weeks under thirty days, and whole thirty-day months beyond.
pub open spec fn recency(last_activity: Option<i64>, now: i64) -> Seq<char> {
    match last_activity {
        None => "unknown"@,
        Some(t) => {
            let d: int = now as int - t as int;
            let day: int = 86400;
            if d < day {
                "today"@
            } else if d < 2 * day {
                "yesterday"@
            } else if d < 7 * day {
                decimal((d / day) as nat) + "d ago"@
            } else if d < 30 * day {
                decimal((d / (7 * day)) as nat) + "w ago"@
            } else {
                decimal((d / day / 30) as nat) + "mo ago"@
            }
        },
    }
}

/// The recency label of a record.
pub fn format_recency(repo: &Repo, now: i64) -> (r: String)
    ensures
        r@ == recency(repo.last_activity, now),
{
    match repo.last_activity {
        None => "unknown".to_owned(),
        Some(t) => {
            let d: i128 = now as i128 - t as i128;
            if d < DAY {
                "today".to_owned()
            } else if d < 2 * DAY {
                "yesterday".to_owned()
            } else if d < 7 * DAY {
                decimal_text((d / DAY) as u64).concat("d ago")
            } else if d < 30 * DAY {
                decimal_text((d / (7 * DAY)) as u64).concat("w ago")
            } else {
                decimal_text((d / DAY / 30) as u64).concat("mo ago")
            }
        },
    }
}

/// `s` with every non-overlapping occurrence of `pat`, found left to right,
/// removed.
pub open spec fn removed(s: Seq<char>, pat: Seq<char>) -> Seq<char>
    decreases s.len(),
{
    if pat.len() == 0 || s.len() < pat.len() {
        s
    } else if s.subrange(0, pat.len() as int) == pat {
        removed(s.subrange(pat.len() as int, s.len() as int), pat)
    } else {
        seq![s[0]] + removed(s.drop_first(), pat)
    }
}

/// Removes every occurrence of `pat` from `s`, as `str::replace` with an
/// empty replacement does.
pub fn remove_all(s: &str, pat: &str) -> (r: String)
    ensures
        r@ == removed(s@, pat@),
{
    let n = s.unicode_len();
    let m = pat.unicode_len();
    let mut out = String::new();
    if m == 0 {
        return s.to_owned();
    }
    let mut i: usize = 0;
    assert(s@.subrange(0, n as int) =~= s@);
    while i < n
        invariant
            n == s@.len(),
            m == pat@.len(),
            m > 0,
            i <= n,
            out@ + removed(s@.subrange(i as int, n as int), pat@) == removed(s@, pat@),
        decreases n - i,
    {
        let ghost t = s@.subrange(i as int, n as int);
        let here = m <= n - i && str_eq(s.substring_char(i, i + m), pat);
        if here {
            proof {
                assert(t.subrange(0, m as int) =~= s@.subrange(i as int, i + m));
                assert(t.subrange(m as int, t.len() as int) =~= s@.subrange(i + m, n as int));
            }
            i = i + m;
        } else {
            let piece = s.substring_char(i, i + 1);
            proof {
                if t.len() >= m {
                    assert(t.subrange(0, m as int) =~= s@.subrange(i as int, i + m));
                }
                assert(t.drop_first() =~= s@.subrange(i + 1, n as int));
                assert(piece@ =~= seq![t[0]]);
                assert(out@ + piece@ + removed(t.drop_first(), pat@) =~= out@ + removed(t, pat@));
            }
            out.append(piece);
            i = i + 1;
        }
    }
    assert(removed(s@.subrange(n as int, n as int), pat@) =~= Seq::<char>::empty());
    assert(out@ + Seq::<char>::empty() =~= out@);
    out
}

/// What replacing every match of a regular expression gives: `None` when
/// the pattern does not compile, otherwise the text with each
/// non-overlapping match, leftmost first, replaced (`$1` standing for the
/// first group).
pub uninterp spec fn regex_replaced(pattern: Seq<char>, text: Seq<char>, replacement: Seq<char>) -> Option<Seq<char>>;

/// Relies on the regex crate (`Regex::new`, then `Regex::replace_all`):
/// compiling fails on a malformed pattern or one too large to compile, and
/// whether it fails and what the replaced text is depend on the three texts
/// alone.
#[verifier::external_body]
fn regex_replace_all(pattern: &str, text: &str, replacement: &str) -> (r: Option<String>)
    ensures
        opt_view(r) == regex_replaced(pattern@, text@, replacement@),
{
    regex::Regex::new(pattern).ok().map(|re| re.replace_all(text, replacement).into_owned())
}

/// A description with markdown images and link targets removed, bold and
/// italic markers dropped, white space runs collapsed to one space, and
/// trimmed; `None` if one of the patterns did not compile.
pub open spec fn cleaned_description(d: Seq<char>) -> Option<Seq<char>> {
    match regex_replaced(r"!\[[^\]]*\]\([^)]*\)"@, d, ""@) {
        None => None,
        Some(a) => match regex_replaced(r"\[([^\]]+)\]\([^)]+\)"@, a, "$1"@) {
            None => None,
            Some(b) => match regex_replaced(r"\[[^\]]*\]\([^)]*$"@, b, ""@) {
                None => None,
                Some(c) => match regex_replaced(r"\s+"@, removed(removed(c, "**"@), "__"@), " "@) {
                    None => None,
                    Some(e) => Some(trim(e)),
                },
            },
        },
    }
}

/// Simplifies the markdown of a description for a one-line display; the
/// text is returned as it is if a pattern does not compile.
pub fn clean_description(desc: &str) -> (r: String)
    ensures
        r@ == match cleaned_description(desc@) {
            Some(c) => c,
            None => desc@,
        },
{
    let a = match regex_replace_all(r"!\[[^\]]*\]\([^)]*\)", desc, "") {
        Some(x) => x,
        None => return desc.to_owned(),
    };
    let b = match regex_replace_all(r"\[([^\]]+)\]\([^)]+\)", a.as_str(), "$1") {
        Some(x) => x,
        None => return desc.to_owned(),
    };
    let c = match regex_replace_all(r"\[[^\]]*\]\([^)]*$", b.as_str(), "") {
        Some(x) => x,
        None => return desc.to_owned(),
    };
    let d = remove_all(c.as_str(), "**");
    let d = remove_all(d.as_str(), "__");
    let e = match regex_replace_all(r"\s+", d.as_str(), " ") {
        Some(x) => x,
        None => return desc.to_owned(),
    };
    trim_str(e.as_str())
}

/// Text cut to `width` characters with `..` standing for the cut part; a
/// width under two keeps the whole text before the `..`.
pub open spec fn fitted(t: Seq<char>, width: nat) -> Seq<char> {
    if t.len() > width {
        (if width >= 2 {
            t.subrange(0, width - 2)
        } else {
            t
        }) + ".."@
    } else {
        t
    }
}

/// Text followed by spaces up to `width` characters.
pub open spec fn padded(t: Seq<char>, width: nat) -> Seq<char> {
    if t.len() < width {
        t + Seq::new((width - t.len()) as nat, |i: int| ' ')
    } else {
        t
    }
}

/// Cuts a text to a column's width.
pub fn fit(text: &str, width: usize) -> (r: String)
    ensures
        r@ == fitted(text@, width as nat),
{
    let n = text.unicode_len();
    if n > width {
        let kept = if width >= 2 {
            text.substring_char(0, width - 2)
        } else {
            proof {
                assert(text@.subrange(0, n as int) =~= text@);
            }
            text.substring_char(0, n)
        };
        kept.to_owned().concat("..")
    } else {
        text.to_owned()
    }
}

/// Pads a text with spaces to a column's width.
pub fn pad(text: &str, width: usize) -> (r: String)
    ensures
        r@ == padded(text@, width as nat),
{
    let n = text.unicode_len();
    let mut out = text.to_owned();
    if n >= width {
        return out;
    }
    let mut k: usize = n;
    while k < width
        invariant
            n <= k <= width,
            n == text@.len(),
            out@ == text@ + Seq::new((k - n) as nat, |i: int| ' '),
        decreases width - k,
    {
        out.append(" ");
        proof {
            reveal_strlit(" ");
            assert(out@ =~= text@ + Seq::new((k + 1 - n) as nat, |i: int| ' '));
        }
        k = k + 1;
    }
    out
}

/// The longest name, in characters.
pub open spec fn longest_name(repos: Seq<Repo>) -> nat
    decreases repos.len(),
{
    if repos.len() == 0 {
        0
    } else {
        let rest = longest_name(repos.drop_last());
        let n = repos.last().name@.len();
        if n > rest {
            n
        } else {
            rest
        }
    }
}

/// The longest language label, in characters; records without one do not count.
pub open spec fn longest_language(repos: Seq<Repo>) -> nat
    decreases repos.len(),
{
    if repos.len() == 0 {
        0
    } else {
        let rest = longest_language(repos.drop_last());
        let n = match repos.last().language {
            Some(l) => l@.len(),
            None => 0,
        };
        if n > rest {
            n
        } else {
            rest
        }
    }
}

pub open spec fn at_most(n: nat, cap: nat) -> nat {
    if n < cap {
        n
    } else {
        cap
    }
}

/// The widths of the name and language columns: the longest entry, capped
/// at 40 and 15 characters.
pub fn column_widths(repos: &Vec<Repo>) -> (r: (usize, usize))
    ensures
        r.0 == at_most(longest_name(repos@), 40),
        r.1 == at_most(longest_language(repos@), 15),
{
    let mut name_w: usize = 0;
    let mut lang_w: usize = 0;
    let mut i: usize = 0;
    while i < repos.len()
        invariant
            i <= repos@.len(),
            name_w == at_most(longest_name(repos@.subrange(0, i as int)), 40),
            lang_w == at_most(longest_language(repos@.subrange(0, i as int)), 15),
        decreases repos@.len() - i,
    {
        let r = &repos[i];
        proof {
            assert(repos@.subrange(0, i + 1).drop_last() =~= repos@.subrange(0, i as int));
        }
        let n = r.name.as_str().unicode_len();
        if n > name_w {
            name_w = if n < 40 { n } else { 40 };
        }
        match &r.language {
            Some(l) => {
                let m = l.as_str().unicode_len();
                if m > lang_w {
                    lang_w = if m < 15 { m } else { 15 };
                }
            },
            None => {},
        }
        i = i + 1;
    }
    assert(repos@.subrange(0, i as int) =~= repos@);
    (name_w, lang_w)
}

/// The star column: the daily count when known, otherwise the total, each
/// after a star sign; blank when neither is known.
pub open spec fn stars_column(stars_today: Option<u64>, stars_total: Option<u64>) -> Seq<char> {
    match stars_today {
        Some(n) => "★"@ + padded(decimal(n as nat), 4) + " today"@,
        None => match stars_total {
            Some(n) => "★"@ + padded(decimal(n as nat), 10),
            None => padded(Seq::empty(), 11),
        },
    }
}

/// The description column: the cleaned description, cut at 42 characters
/// (with unfinished markup dropped) and marked `...` when longer than 45.
pub open spec fn description_column(cleaned: Option<Seq<char>>) -> Seq<char> {
    match cleaned {
        Some(c) => if c.len() > 45 {
            cleaned_truncated(c.subrange(0, 42)) + "..."@
        } else {
            c
        },
        None => Seq::empty(),
    }
}

/// The columns of one line of the message of the day, before coloring.
#[derive(Clone, Debug)]
pub struct MotdRow {
    pub icon: String,
    pub name: String,
    pub language: String,
    pub stars: String,
    pub recency: String,
    pub description: String,
}

/// Lays out one record's line for the given column widths, seen at `now`.
pub fn motd_row(repo: &Repo, name_width: usize, lang_width: usize, now: i64) -> (r: MotdRow)
    ensures
        r.icon@ == repo.icon@,
        r.name@ == padded(fitted(repo.name@, name_width as nat), name_width as nat),
        r.language@ == padded(
            fitted(
                match repo.language {
                    Some(l) => l@,
                    None => "-"@,
                },
                lang_width as nat,
            ),
            lang_width as nat,
        ),
        r.stars@ == stars_column(repo.stars_today, repo.stars_total),
        r.recency@ == padded(recency(repo.last_activity, now), 10),
        r.description@ == description_column(
            match repo.description {
                Some(d) => Some(
                    match cleaned_description(d@) {
                        Some(c) => c,
                        None => d@,
                    },
                ),
                None => None,
            },
        ),
{
    let name = pad(fit(repo.name.as_str(), name_width).as_str(), name_width);
    let lang_text = match &repo.language {
        Some(l) => l.as_str(),
        None => "-",
    };
    let language = pad(fit(lang_text, lang_width).as_str(), lang_width);
    let stars = match repo.stars_today {
        Some(n) => "★".to_owned().concat(pad(decimal_text(n).as_str(), 4).as_str()).concat(" today"),
        None => match repo.stars_total {
            Some(n) => "★".to_owned().concat(pad(decimal_text(n).as_str(), 10).as_str()),
            None => pad("", 11),
        },
    };
    let recency_text = pad(format_recency(repo, now).as_str(), 10);
    let description = match &repo.description {
        Some(d) => {
            let cleaned = clean_description(d.as_str());
            if cleaned.as_str().unicode_len() > 45 {
                let head = cleaned.as_str().substring_char(0, 42);
                clean_truncated_text(head).concat("...")
            } else {
                cleaned
            }
        },
        None => String::new(),
    };
    proof {
        reveal_strlit("");
        assert(""@ =~= Seq::<char>::empty());
    }
    MotdRow { icon: repo.icon.clone(), name, language, stars, recency: recency_text, description }
}

} // verus!
