use vstd::prelude::*;

use crate::model::{activity, language_matches, opt_view, parse_activity, stars_or_zero, LanguageFilter, ProviderCfg, Repo};
use crate::select::{lemma_filter_prefix, lemma_selected, selected};

verus! {

/// A repository as a Gitea instance's repository search describes it.
#[derive(Clone, Debug)]
pub struct GiteaRepository {
    pub full_name: String,
    pub description: Option<String>,
    pub html_url: String,
    pub stars_count: Option<u64>,
    pub language: Option<String>,
    pub updated_at: Option<String>,
}

/// The Gitea adapter's own logic.
#[derive(Clone, Copy, Debug)]
pub struct Gitea;

pub open spec fn gitea_keeps(langs: Seq<Seq<char>>) -> spec_fn(GiteaRepository) -> bool {
    |g: GiteaRepository|
        g.full_name@.len() > 0 && g.html_url@.len() > 0 && stars_or_zero(g.stars_count) >= 1 && language_matches(
            langs,
            opt_view(g.language),
        )
}

/// The record made from a search result.
pub open spec fn gitea_record(r: Repo, g: GiteaRepository) -> bool {
    &&& r.provider@ == "gitea"@
    &&& r.icon@ == "[GE]"@
    &&& r.name == g.full_name
    &&& r.language == g.language
    &&& r.description == g.description
    &&& r.url == g.html_url
    &&& r.stars_today is None
    &&& r.stars_total == g.stars_count
    &&& r.last_activity == activity(g.updated_at)
    &&& r.topics@.len() == 0
}

/// What the Gitea adapter returns for the search results.
pub open spec fn gitea_top(found: Seq<GiteaRepository>, limit: nat, langs: Seq<Seq<char>>, out: Seq<Repo>) -> bool {
    selected(found, gitea_keeps(langs), limit, out, |r: Repo, g: GiteaRepository| gitea_record(r, g))
}

/// The search address under an instance's base URL.
pub open spec fn gitea_search_url(base: Seq<char>) -> Seq<char> {
    base + "/api/v1/repos/search?sort=updated&order=desc&limit=100"@
}

impl Gitea {
    pub fn id(&self) -> (r: &'static str)
        ensures
            r@ == "gitea"@,
    {
        "gitea"
    }

    pub fn icon(&self) -> (r: &'static str)
        ensures
            r@ == "[GE]"@,
    {
        "[GE]"
    }

    /// The repository search address for the configured instance, the
    /// public instance when none is configured.
    pub fn search_url(cfg: &ProviderCfg) -> (r: String)
        ensures
            r@ == gitea_search_url(
                match cfg.base_url {
                    Some(b) => b@,
                    None => "https://gitea.com"@,
                },
            ),
    {
        let base = match &cfg.base_url {
            Some(b) => b.clone(),
            None => "https://gitea.com".to_owned(),
        };
        base.concat("/api/v1/repos/search?sort=updated&order=desc&limit=100")
    }

    /// The records for the search results: repositories with a name and an
    /// address, at least one star whose language passes the filter, the first `limit` of them in
    /// search order.
    pub fn top_today(found: Vec<GiteaRepository>, limit: usize, langs: &LanguageFilter) -> (r: Vec<Repo>)
        ensures
            gitea_top(found@, limit as nat, langs@, r@),
    {
        let ghost orig = found@;
        let ghost keep = gitea_keeps(langs@);
        let mut rest = found;
        let mut out: Vec<Repo> = Vec::new();
        let ghost mut i: int = 0;
        while rest.len() > 0 && out.len() < limit
            invariant
                keep == gitea_keeps(langs@),
                0 <= i <= orig.len(),
                rest@ == orig.subrange(i, orig.len() as int),
                out@.len() == orig.subrange(0, i).filter(keep).len(),
                out@.len() <= limit,
                forall|j: int| 0 <= j < out@.len() ==> gitea_record(#[trigger] out@[j], orig.subrange(0, i).filter(keep)[j]),
            decreases rest@.len(),
        {
            let g = rest.remove(0);
            let stars: u64 = match g.stars_count {
                Some(n) => n,
                None => 0,
            };
            let k = g.full_name.as_str().unicode_len() > 0 && g.html_url.as_str().unicode_len() > 0 && stars >= 1
                && langs.matches(g.language.as_ref());
            proof {
                reveal(Seq::filter);
                assert(orig.subrange(0, i + 1).drop_last() =~= orig.subrange(0, i));
                assert(orig[i] == g);
            }
            if k {
                let last_activity = parse_activity(&g.updated_at);
                let repo = Repo {
                    provider: "gitea".to_owned(),
                    icon: "[GE]".to_owned(),
                    name: g.full_name,
                    language: g.language,
                    description: g.description,
                    url: g.html_url,
                    stars_today: None,
                    stars_total: g.stars_count,
                    last_activity,
                    topics: Vec::new(),
                };
                out.push(repo);
            }
            proof {
                i = i + 1;
                assert(rest@ =~= orig.subrange(i, orig.len() as int));
            }
        }
        proof {
            lemma_filter_prefix(orig, keep, i);
            if rest@.len() == 0 {
                assert(orig.subrange(0, i) =~= orig);
            }
        }
        out
    }
}

/// The Gitea adapter returns at most `limit` records, each with a nonempty
/// name and url, at least one star and a language that passes the filter.
pub proof fn lemma_gitea_limit(found: Seq<GiteaRepository>, limit: nat, langs: Seq<Seq<char>>, out: Seq<Repo>)
    requires
        gitea_top(found, limit, langs, out),
    ensures
        out.len() <= limit,
        forall|i: int| 0 <= i < out.len() ==> {
            &&& language_matches(langs, opt_view((#[trigger] out[i]).language))
            &&& stars_or_zero(out[i].stars_total) >= 1
            &&& out[i].provider@ == "gitea"@
            &&& out[i].icon@ == "[GE]"@
            &&& out[i].name@.len() > 0
            &&& out[i].url@.len() > 0
        },
{
    if out.len() > 0 {
        lemma_selected(found, gitea_keeps(langs), limit, out, |r: Repo, g: GiteaRepository| gitea_record(r, g), 0);
    }
    assert forall|i: int| 0 <= i < out.len() implies {
        &&& language_matches(langs, opt_view((#[trigger] out[i]).language))
        &&& stars_or_zero(out[i].stars_total) >= 1
        &&& out[i].provider@ == "gitea"@
        &&& out[i].icon@ == "[GE]"@
        &&& out[i].name@.len() > 0
        &&& out[i].url@.len() > 0
    } by {
        let g = lemma_selected(found, gitea_keeps(langs), limit, out, |r: Repo, g: GiteaRepository| gitea_record(r, g), i);
    }
}

} // verus!
