use vstd::prelude::*;

verus! {

/// The ASCII case fold of one character, as a code point.
pub open spec fn ascii_fold(c: char) -> u32 {
    let x = c as u32;
    if 65 <= x && x <= 90 {
        (x + 32) as u32
    } else {
        x
    }
}

/// Two character sequences are equal once ASCII letters are folded to lower case.
pub open spec fn ascii_ci_eq(a: Seq<char>, b: Seq<char>) -> bool {
    &&& a.len() == b.len()
    &&& forall|i: int| 0 <= i < a.len() ==> ascii_fold(#[trigger] a[i]) == ascii_fold(b[i])
}

/// Some entry of `set` is an ASCII case-insensitive match of `s`.
pub open spec fn ci_member(set: Seq<Seq<char>>, s: Seq<char>) -> bool {
    exists|i: int| 0 <= i < set.len() && ascii_ci_eq(s, #[trigger] set[i])
}

/// The views of a vector of strings.
pub open spec fn strings_view(v: Seq<String>) -> Seq<Seq<char>> {
    v.map_values(|s: String| s@)
}

pub open spec fn opt_view(o: Option<String>) -> Option<Seq<char>> {
    match o {
        Some(s) => Some(s@),
        None => None,
    }
}

/// What the language filter accepts: everything when no language is configured,
/// otherwise a present language that matches a configured one.
pub open spec fn language_matches(filters: Seq<Seq<char>>, language: Option<Seq<char>>) -> bool {
    filters.len() == 0 || (language is Some && ci_member(filters, language->Some_0))
}

fn fold_char(c: char) -> (r: u32)
    ensures
        r == ascii_fold(c),
{
    let x = c as u32;
    if 65 <= x && x <= 90 {
        x + 32
    } else {
        x
    }
}

/// ASCII case-insensitive equality of two strings.
pub fn eq_ignore_ascii_case(a: &str, b: &str) -> (r: bool)
    ensures
        r == ascii_ci_eq(a@, b@),
{
    let n = a.unicode_len();
    if n != b.unicode_len() {
        return false;
    }
    let mut i: usize = 0;
    while i < n
        invariant
            n == a@.len(),
            n == b@.len(),
            i <= n,
            forall|j: int| 0 <= j < i ==> ascii_fold(#[trigger] a@[j]) == ascii_fold(b@[j]),
        decreases n - i,
    {
        if fold_char(a.get_char(i)) != fold_char(b.get_char(i)) {
            return false;
        }
        i = i + 1;
    }
    true
}

/// Equality of two strings, character by character.
pub fn str_eq(a: &str, b: &str) -> (r: bool)
    ensures
        r == (a@ == b@),
{
    let n = a.unicode_len();
    if n != b.unicode_len() {
        return false;
    }
    let mut i: usize = 0;
    while i < n
        invariant
            n == a@.len(),
            n == b@.len(),
            i <= n,
            forall|j: int| 0 <= j < i ==> a@[j] == b@[j],
        decreases n - i,
    {
        if a.get_char(i) != b.get_char(i) {
            return false;
        }
        i = i + 1;
    }
    assert(a@ =~= b@);
    true
}

/// Whether some entry of `set` matches `s` without regard to ASCII case.
pub fn contains_ignore_ascii_case(set: &Vec<String>, s: &str) -> (r: bool)
    ensures
        r == ci_member(strings_view(set@), s@),
{
    let mut i: usize = 0;
    while i < set.len()
        invariant
            i <= set@.len(),
            forall|j: int| 0 <= j < i ==> !ascii_ci_eq(s@, #[trigger] set@[j]@),
        decreases set@.len() - i,
    {
        if eq_ignore_ascii_case(s, set[i].as_str()) {
            assert(ascii_ci_eq(s@, strings_view(set@)[i as int]));
            return true;
        }
        i = i + 1;
    }
    assert forall|j: int| 0 <= j < strings_view(set@).len() implies !ascii_ci_eq(s@, #[trigger] strings_view(set@)[j]) by {
        assert(strings_view(set@)[j] == set@[j]@);
    }
    false
}

/// A copy of an optional string.
pub fn clone_opt(o: &Option<String>) -> (r: Option<String>)
    ensures
        opt_view(r) == opt_view(*o),
{
    match o {
        Some(s) => Some(s.clone()),
        None => None,
    }
}

/// A copy of a vector of strings.
pub fn clone_strings(v: &Vec<String>) -> (r: Vec<String>)
    ensures
        strings_view(r@) == strings_view(v@),
{
    let mut r: Vec<String> = Vec::new();
    let mut i: usize = 0;
    while i < v.len()
        invariant
            i <= v@.len(),
            r@.len() == i,
            forall|j: int| 0 <= j < i ==> (#[trigger] r@[j])@ == v@[j]@,
        decreases v@.len() - i,
    {
        r.push(v[i].clone());
        i = i + 1;
    }
    assert(strings_view(r@) =~= strings_view(v@));
    r
}

/// The instant an RFC 3339 timestamp denotes, in seconds since the Unix
/// epoch, or `None` when the text is not such a timestamp.
pub uninterp spec fn rfc3339_seconds(s: Seq<char>) -> Option<i64>;

/// Relies on chrono's `DateTime::parse_from_rfc3339` (and `timestamp` on its
/// result): whether the text parses, and to which instant, depends on the
/// text alone.
#[verifier::external_body]
fn parse_rfc3339(s: &str) -> (r: Option<i64>)
    ensures
        r == rfc3339_seconds(s@),
{
    chrono::DateTime::parse_from_rfc3339(s).ok().map(|d| d.timestamp())
}

/// The activity time of an optional upstream timestamp: absent when the
/// timestamp is absent or does not parse.
pub open spec fn activity(t: Option<String>) -> Option<i64> {
    match t {
        Some(s) => rfc3339_seconds(s@),
        None => None,
    }
}

/// Reads an optional RFC 3339 timestamp as seconds since the Unix epoch.
pub fn parse_activity(t: &Option<String>) -> (r: Option<i64>)
    ensures
        r == activity(*t),
{
    match t {
        Some(s) => parse_rfc3339(s.as_str()),
        None => None,
    }
}

/// A missing star count counts as zero.
pub open spec fn stars_or_zero(s: Option<u64>) -> u64 {
    match s {
        Some(n) => n,
        None => 0,
    }
}

/// A repository record in the shape that every provider produces.
#[derive(Clone, Debug)]
pub struct Repo {
    pub provider: String,
    pub icon: String,
    pub name: String,
    pub language: Option<String>,
    pub description: Option<String>,
    pub url: String,
    pub stars_today: Option<u64>,
    pub stars_total: Option<u64>,
    /// Most recent activity, in seconds since the Unix epoch.
    pub last_activity: Option<i64>,
    pub topics: Vec<String>,
}

/// Per-call settings handed to a provider.
#[derive(Clone, Debug)]
pub struct ProviderCfg {
    pub timeout_secs: u64,
    pub token: Option<String>,
    pub base_url: Option<String>,
    pub exclude_topics: Vec<String>,
}

/// A set of languages, compared without regard to ASCII case; empty accepts all.
#[derive(Clone, Debug)]
pub struct LanguageFilter {
    pub languages: Vec<String>,
}

impl View for LanguageFilter {
    type V = Seq<Seq<char>>;

    open spec fn view(&self) -> Seq<Seq<char>> {
        strings_view(self.languages@)
    }
}

impl LanguageFilter {
    pub fn new(languages: Vec<String>) -> (r: Self)
        ensures
            r.languages == languages,
    {
        LanguageFilter { languages }
    }

    pub fn matches(&self, language: Option<&String>) -> (r: bool)
        ensures
            r == language_matches(self@, match language {
                Some(l) => Some(l@),
                None => None,
            }),
    {
        if self.languages.len() == 0 {
            return true;
        }
        match language {
            Some(lang) => contains_ignore_ascii_case(&self.languages, lang.as_str()),
            None => false,
        }
    }
}

/// The language filter accepts everything when it is empty, rejects a missing
/// language otherwise, treats languages that differ only in ASCII case alike,
/// and never accepts a language whose length differs from every entry, so that
/// a longer word that merely starts with a configured one is not accepted.
pub proof fn lemma_language_filter(filters: Seq<Seq<char>>, a: Seq<char>, b: Seq<char>)
    ensures
        filters.len() == 0 ==> language_matches(filters, None) && language_matches(filters, Some(a)),
        filters.len() > 0 ==> !language_matches(filters, None),
        ascii_ci_eq(a, b) ==> language_matches(filters, Some(a)) == language_matches(filters, Some(b)),
        filters.len() > 0 && (forall|i: int| 0 <= i < filters.len() ==> (#[trigger] filters[i]).len() != a.len())
            ==> !language_matches(filters, Some(a)),
{
    if ascii_ci_eq(a, b) {
        if ci_member(filters, a) {
            let i = choose|i: int| 0 <= i < filters.len() && ascii_ci_eq(a, #[trigger] filters[i]);
            assert(forall|k: int| 0 <= k < b.len() ==> ascii_fold(#[trigger] b[k]) == ascii_fold(a[k]));
            assert(ascii_ci_eq(b, filters[i]));
        }
        if ci_member(filters, b) {
            let i = choose|i: int| 0 <= i < filters.len() && ascii_ci_eq(b, #[trigger] filters[i]);
            assert(forall|k: int| 0 <= k < a.len() ==> ascii_fold(#[trigger] a[k]) == ascii_fold(b[k]));
            assert(ascii_ci_eq(a, filters[i]));
        }
    }
}

} // verus!
