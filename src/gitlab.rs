use vstd::prelude::*;

use crate::model::{
    activity, language_matches, opt_view, parse_activity, stars_or_zero, str_eq, strings_view,
    LanguageFilter, Repo,
};
use crate::select::{lemma_filter_prefix, lemma_selected, selected};

verus! {

/// A project as the GitLab projects listing describes it.
#[derive(Clone, Debug)]
pub struct GitLabProject {
    pub name: String,
    pub path_with_namespace: String,
    pub description: Option<String>,
    pub star_count: Option<u64>,
    pub web_url: String,
    pub topics: Vec<String>,
    pub last_activity_at: Option<String>,
}

/// The GitLab adapter's own logic.
#[derive(Clone, Copy, Debug)]
pub struct GitLab;

/// The Unicode lower-case mapping of a string.
pub uninterp spec fn lowercase(s: Seq<char>) -> Seq<char>;

/// Relies on `str::to_lowercase`: the result depends on the characters alone.
#[verifier::external_body]
fn to_lowercase(s: &str) -> (r: String)
    ensures
        r@ == lowercase(s@),
{
    s.to_lowercase()
}

/// The Unicode upper-case mapping of one character (one to three characters).
pub uninterp spec fn uppercase(c: char) -> Seq<char>;

/// Relies on `char::to_uppercase`: the characters it yields depend on `c` alone.
#[verifier::external_body]
fn char_to_uppercase(c: char) -> (r: String)
    ensures
        r@ == uppercase(c),
{
    c.to_uppercase().collect()
}

/// The lower-case topics that name a programming language.
pub open spec fn language_word(w: Seq<char>) -> bool {
    w == "rust"@ || w == "go"@ || w == "golang"@ || w == "python"@ || w == "javascript"@ || w
        == "typescript"@ || w == "java"@ || w == "c"@ || w == "cpp"@ || w == "c++"@ || w == "csharp"@
        || w == "c#"@ || w == "ruby"@ || w == "php"@ || w == "swift"@ || w == "kotlin"@ || w
        == "scala"@ || w == "haskell"@ || w == "elixir"@ || w == "erlang"@
}

/// How a language topic is shown: fixed names for `golang`, `c++` and `c#`,
/// otherwise the topic with its first character in upper case.
pub open spec fn language_label(topic: Seq<char>, lower: Seq<char>) -> Seq<char> {
    if lower == "golang"@ {
        "Go"@
    } else if lower == "c++"@ {
        "C++"@
    } else if lower == "c#"@ {
        "C#"@
    } else if topic.len() == 0 {
        Seq::empty()
    } else {
        uppercase(topic[0]) + topic.drop_first()
    }
}

/// The language of the first topic that names one.
pub open spec fn topic_language(topics: Seq<Seq<char>>) -> Option<Seq<char>>
    decreases topics.len(),
{
    if topics.len() == 0 {
        None
    } else if language_word(lowercase(topics[0])) {
        Some(language_label(topics[0], lowercase(topics[0])))
    } else {
        topic_language(topics.drop_first())
    }
}

/// Projects with fewer than ten stars (a missing count being zero) are left out.
pub open spec fn gitlab_popular(p: GitLabProject) -> bool {
    stars_or_zero(p.star_count) >= 10
}

pub open spec fn gitlab_keeps(langs: Seq<Seq<char>>) -> spec_fn(GitLabProject) -> bool {
    |p: GitLabProject|
        p.path_with_namespace@.len() > 0 && p.web_url@.len() > 0 && gitlab_popular(p) && language_matches(
            langs,
            topic_language(strings_view(p.topics@)),
        )
}

/// The record made from a project.
pub open spec fn gitlab_record(r: Repo, p: GitLabProject) -> bool {
    &&& r.provider@ == "gitlab"@
    &&& r.icon@ == "[GL]"@
    &&& r.name == p.path_with_namespace
    &&& opt_view(r.language) == topic_language(strings_view(p.topics@))
    &&& r.description == p.description
    &&& r.url == p.web_url
    &&& r.stars_today is None
    &&& r.stars_total == p.star_count
    &&& r.last_activity == activity(p.last_activity_at)
    &&& r.topics == p.topics
}

/// What the GitLab adapter returns for the listed projects.
pub open spec fn gitlab_top(projects: Seq<GitLabProject>, limit: nat, langs: Seq<Seq<char>>, out: Seq<Repo>) -> bool {
    selected(projects, gitlab_keeps(langs), limit, out, |r: Repo, p: GitLabProject| gitlab_record(r, p))
}

impl GitLab {
    pub fn id(&self) -> (r: &'static str)
        ensures
            r@ == "gitlab"@,
    {
        "gitlab"
    }

    pub fn icon(&self) -> (r: &'static str)
        ensures
            r@ == "[GL]"@,
    {
        "[GL]"
    }

    /// The listing of the projects active since `since` (an RFC 3339 instant),
    /// most recently active first.
    pub fn projects_url(since: &str) -> (r: String)
        ensures
            r@ == "https://gitlab.com/api/v4/projects?order_by=last_activity_at&sort=desc&last_activity_after="@
                + since@ + "&per_page=100"@,
    {
        "https://gitlab.com/api/v4/projects?order_by=last_activity_at&sort=desc&last_activity_after=".to_owned().concat(
            since,
        ).concat("&per_page=100")
    }

    /// Whether a lower-case topic names a language.
    pub fn is_language_word(w: &str) -> (r: bool)
        ensures
            r == language_word(w@),
    {
        str_eq(w, "rust") || str_eq(w, "go") || str_eq(w, "golang") || str_eq(w, "python") || str_eq(
            w,
            "javascript",
        ) || str_eq(w, "typescript") || str_eq(w, "java") || str_eq(w, "c") || str_eq(w, "cpp")
            || str_eq(w, "c++") || str_eq(w, "csharp") || str_eq(w, "c#") || str_eq(w, "ruby")
            || str_eq(w, "php") || str_eq(w, "swift") || str_eq(w, "kotlin") || str_eq(w, "scala")
            || str_eq(w, "haskell") || str_eq(w, "elixir") || str_eq(w, "erlang")
    }

    /// The language a topic names, given the topic and its lower-case form.
    pub fn language_from(topic: &str, lower: &str) -> (r: Option<String>)
        ensures
            opt_view(r) == if language_word(lower@) {
                Some(language_label(topic@, lower@))
            } else {
                None
            },
    {
        if !Self::is_language_word(lower) {
            return None;
        }
        if str_eq(lower, "golang") {
            Some("Go".to_owned())
        } else if str_eq(lower, "c++") {
            Some("C++".to_owned())
        } else if str_eq(lower, "c#") {
            Some("C#".to_owned())
        } else {
            let n = topic.unicode_len();
            if n == 0 {
                Some(String::new())
            } else {
                let first = char_to_uppercase(topic.get_char(0));
                let rest = topic.substring_char(1, n);
                assert(rest@ =~= topic@.drop_first());
                Some(first.concat(rest))
            }
        }
    }

    /// The language named by the first topic that names one.
    pub fn extract_language(topics: &[String]) -> (r: Option<String>)
        ensures
            opt_view(r) == topic_language(strings_view(topics@)),
    {
        let ghost all = strings_view(topics@);
        let n = topics.len();
        let mut i: usize = 0;
        assert(all.subrange(0, n as int) =~= all);
        while i < n
            invariant
                n == topics@.len(),
                all == strings_view(topics@),
                i <= n,
                topic_language(all) == topic_language(all.subrange(i as int, n as int)),
            decreases n - i,
        {
            let topic = topics[i].as_str();
            let lower = to_lowercase(topic);
            let found = Self::language_from(topic, lower.as_str());
            proof {
                let t = all.subrange(i as int, n as int);
                assert(t[0] == topic@);
                assert(t.drop_first() =~= all.subrange(i + 1, n as int));
            }
            if found.is_some() {
                return found;
            }
            i = i + 1;
        }
        None
    }

    /// The candidates that the adapter keeps: with a path and an address,
    /// popular enough, and in one of the filter's languages.
    fn keeps(p: &GitLabProject, langs: &LanguageFilter, language: &Option<String>) -> (r: bool)
        requires
            opt_view(*language) == topic_language(strings_view(p.topics@)),
        ensures
            r == gitlab_keeps(langs@)(*p),
    {
        let stars: u64 = match p.star_count {
            Some(n) => n,
            None => 0,
        };
        p.path_with_namespace.as_str().unicode_len() > 0 && p.web_url.as_str().unicode_len() > 0 && stars >= 10
            && langs.matches(language.as_ref())
    }

    /// The records for the projects that the listing returned: projects with
    /// a path and an address, at least ten stars whose topic language passes the filter, the first
    /// `limit` of them in listing order.
    pub fn top_today(projects: Vec<GitLabProject>, limit: usize, langs: &LanguageFilter) -> (r: Vec<Repo>)
        ensures
            gitlab_top(projects@, limit as nat, langs@, r@),
    {
        let ghost orig = projects@;
        let ghost keep = gitlab_keeps(langs@);
        let mut rest = projects;
        let mut out: Vec<Repo> = Vec::new();
        let ghost mut i: int = 0;
        while rest.len() > 0 && out.len() < limit
            invariant
                keep == gitlab_keeps(langs@),
                0 <= i <= orig.len(),
                rest@ == orig.subrange(i, orig.len() as int),
                out@.len() == orig.subrange(0, i).filter(keep).len(),
                out@.len() <= limit,
                forall|j: int| 0 <= j < out@.len() ==> gitlab_record(#[trigger] out@[j], orig.subrange(0, i).filter(keep)[j]),
            decreases rest@.len(),
        {
            let p = rest.remove(0);
            let language = Self::extract_language(p.topics.as_slice());
            let k = Self::keeps(&p, langs, &language);
            proof {
                reveal(Seq::filter);
                assert(orig.subrange(0, i + 1).drop_last() =~= orig.subrange(0, i));
                assert(orig[i] == p);
            }
            if k {
                let last_activity = parse_activity(&p.last_activity_at);
                let repo = Repo {
                    provider: "gitlab".to_owned(),
                    icon: "[GL]".to_owned(),
                    name: p.path_with_namespace,
                    language,
                    description: p.description,
                    url: p.web_url,
                    stars_today: None,
                    stars_total: p.star_count,
                    last_activity,
                    topics: p.topics,
                };
                out.push(repo);
            }
            proof {
                i = i + 1;
                assert(rest@ =~= orig.subrange(i, orig.len() as int));
            }
        }
        proof {
            lemma_filter_prefix(orig, keep, i);
            if rest@.len() == 0 {
                assert(orig.subrange(0, i) =~= orig);
            }
        }
        out
    }
}

/// The GitLab adapter returns at most `limit` records, each with a nonempty
/// name and url, at least ten stars and a language that passes the filter.
pub proof fn lemma_gitlab_limit(projects: Seq<GitLabProject>, limit: nat, langs: Seq<Seq<char>>, out: Seq<Repo>)
    requires
        gitlab_top(projects, limit, langs, out),
    ensures
        out.len() <= limit,
        forall|i: int| 0 <= i < out.len() ==> {
            &&& language_matches(langs, opt_view((#[trigger] out[i]).language))
            &&& stars_or_zero(out[i].stars_total) >= 10
            &&& out[i].provider@ == "gitlab"@
            &&& out[i].icon@ == "[GL]"@
            &&& out[i].name@.len() > 0
            &&& out[i].url@.len() > 0
        },
{
    if out.len() > 0 {
        lemma_selected(projects, gitlab_keeps(langs), limit, out, |r: Repo, p: GitLabProject| gitlab_record(r, p), 0);
    }
    assert forall|i: int| 0 <= i < out.len() implies {
        &&& language_matches(langs, opt_view((#[trigger] out[i]).language))
        &&& stars_or_zero(out[i].stars_total) >= 10
        &&& out[i].provider@ == "gitlab"@
        &&& out[i].icon@ == "[GL]"@
        &&& out[i].name@.len() > 0
        &&& out[i].url@.len() > 0
    } by {
        let p = lemma_selected(projects, gitlab_keeps(langs), limit, out, |r: Repo, p: GitLabProject| gitlab_record(r, p), i);
    }
}

} // verus!
