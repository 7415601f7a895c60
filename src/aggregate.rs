use vstd::prelude::*;

use crate::config::{max_entries, AuthConfig, Config};
use crate::model::{clone_opt, clone_strings, opt_view, str_eq, strings_view, ProviderCfg, Repo};

verus! {

/// The records, in order, that pass the filters.
pub open spec fn kept(repos: Seq<Repo>, ascii_only: bool, min_stars: Option<u32>) -> Seq<Repo> {
    repos.filter(|x: Repo| keeps(x, ascii_only, min_stars))
}

/// Number of ASCII characters in `s`.
pub open spec fn ascii_count(s: Seq<char>) -> nat
    decreases s.len(),
{
    if s.len() == 0 {
        0
    } else {
        ascii_count(s.drop_last()) + if (s.last() as u32) < 128 {
            1nat
        } else {
            0nat
        }
    }
}

/// The share of ASCII characters in `s` is at least `num / den`; an empty
/// string counts as entirely ASCII.
pub open spec fn ascii_share_at_least(s: Seq<char>, num: nat, den: nat) -> bool {
    s.len() == 0 || den * ascii_count(s) >= num * s.len()
}

/// A name at least four fifths ASCII and, when present, a description at
/// least seven tenths ASCII.
pub open spec fn mostly_ascii(name: Seq<char>, description: Option<Seq<char>>) -> bool {
    &&& ascii_share_at_least(name, 4, 5)
    &&& match description {
        Some(d) => ascii_share_at_least(d, 7, 10),
        None => true,
    }
}

/// A missing star count counts as zero against the threshold.
pub open spec fn meets_min_stars(stars_total: Option<u64>, min_stars: Option<u32>) -> bool {
    match min_stars {
        None => true,
        Some(m) => match stars_total {
            Some(s) => s >= m,
            None => 0 >= m,
        },
    }
}

/// Whether a record survives the filters applied to the merged list.
pub open spec fn keeps(r: Repo, ascii_only: bool, min_stars: Option<u32>) -> bool {
    &&& (ascii_only ==> mostly_ascii(r.name@, opt_view(r.description)))
    &&& meets_min_stars(r.stars_total, min_stars)
}

fn count_ascii(s: &str) -> (r: usize)
    ensures
        r == ascii_count(s@),
        r <= s@.len(),
{
    let n = s.unicode_len();
    let mut count: usize = 0;
    let mut i: usize = 0;
    while i < n
        invariant
            n == s@.len(),
            i <= n,
            count == ascii_count(s@.subrange(0, i as int)),
            count <= i,
        decreases n - i,
    {
        let c = s.get_char(i);
        assert(s@.subrange(0, i as int + 1).drop_last() =~= s@.subrange(0, i as int));
        if (c as u32) < 128 {
            count = count + 1;
        }
        i = i + 1;
    }
    assert(s@.subrange(0, n as int) =~= s@);
    count
}

fn share_at_least(s: &str, num: u128, den: u128) -> (r: bool)
    requires
        num <= 10,
        den <= 10,
    ensures
        r == ascii_share_at_least(s@, num as nat, den as nat),
{
    let n = s.unicode_len();
    if n == 0 {
        return true;
    }
    let c = count_ascii(s);
    assert((den as nat) * (c as nat) <= 10 * (n as nat)) by (nonlinear_arith)
        requires den <= 10, c <= n;
    assert((num as nat) * (n as nat) <= 10 * (n as nat)) by (nonlinear_arith)
        requires num <= 10;
    den * (c as u128) >= num * (n as u128)
}

/// Whether a record's text is mostly ASCII.
pub fn is_mostly_ascii(repo: &Repo) -> (r: bool)
    ensures
        r == mostly_ascii(repo.name@, opt_view(repo.description)),
{
    if !share_at_least(repo.name.as_str(), 4, 5) {
        return false;
    }
    match &repo.description {
        Some(d) => share_at_least(d.as_str(), 7, 10),
        None => true,
    }
}

/// Whether a record has at least `min_stars` stars, a missing count being zero.
pub fn has_min_stars(repo: &Repo, min_stars: Option<u32>) -> (r: bool)
    ensures
        r == meets_min_stars(repo.stars_total, min_stars),
{
    match min_stars {
        None => true,
        Some(m) => {
            let stars: u64 = match repo.stars_total {
                Some(s) => s,
                None => 0,
            };
            stars >= m as u64
        },
    }
}

/// Keeps, in order, the records that pass the ASCII filter (when enabled) and
/// the minimum-star filter (when set).
pub fn apply_filters(repos: Vec<Repo>, ascii_only: bool, min_stars: Option<u32>) -> (r: Vec<Repo>)
    ensures
        r@ == kept(repos@, ascii_only, min_stars),
{
    let ghost orig = repos@;
    let mut rest = repos;
    let mut out: Vec<Repo> = Vec::new();
    let ghost mut i: int = 0;
    while rest.len() > 0
        invariant
            0 <= i <= orig.len(),
            rest@ == orig.subrange(i, orig.len() as int),
            out@ == orig.subrange(0, i).filter(|x: Repo| keeps(x, ascii_only, min_stars)),
        decreases rest@.len(),
    {
        let r = rest.remove(0);
        proof {
            assert(orig.subrange(0, i + 1).drop_last() =~= orig.subrange(0, i));
            assert(orig[i] == r);
            reveal(Seq::filter);
        }
        let keep = (!ascii_only || is_mostly_ascii(&r)) && has_min_stars(&r, min_stars);
        proof {
            reveal(Seq::filter);
            assert(keep == keeps(r, ascii_only, min_stars));
            assert(orig.subrange(0, i + 1).filter(|x: Repo| keeps(x, ascii_only, min_stars)) == orig.subrange(0, i).filter(|x: Repo| keeps(x, ascii_only, min_stars)) + if keeps(r, ascii_only, min_stars) {
                seq![r]
            } else {
                Seq::empty()
            });
        }
        if keep {
            out.push(r);
        }
        proof {
            i = i + 1;
            assert(rest@ =~= orig.subrange(i, orig.len() as int));
            assert(out@ =~= orig.subrange(0, i).filter(|x: Repo| keeps(x, ascii_only, min_stars)));
        }
    }
    assert(orig.subrange(0, i) =~= orig);
    out
}

/// The records of the providers that answered, in the order of the outcomes.
pub open spec fn fetched(outcomes: Seq<Result<Vec<Repo>, String>>) -> Seq<Repo>
    decreases outcomes.len(),
{
    if outcomes.len() == 0 {
        Seq::empty()
    } else {
        fetched(outcomes.drop_last()) + match outcomes.last() {
            Ok(v) => v@,
            Err(_) => Seq::empty(),
        }
    }
}

/// The error messages of the providers that failed, in the order of the outcomes.
pub open spec fn failures(outcomes: Seq<Result<Vec<Repo>, String>>) -> Seq<String>
    decreases outcomes.len(),
{
    if outcomes.len() == 0 {
        Seq::empty()
    } else {
        failures(outcomes.drop_last()) + match outcomes.last() {
            Ok(_) => Seq::empty(),
            Err(e) => seq![e],
        }
    }
}

/// The invocation fails when no record came back and some provider failed.
pub open spec fn gather_fails(outcomes: Seq<Result<Vec<Repo>, String>>) -> bool {
    fetched(outcomes).len() == 0 && failures(outcomes).len() > 0
}

/// The merged records of one invocation, with the providers' errors as warnings.
pub struct Gathered {
    pub repos: Vec<Repo>,
    pub warnings: Vec<String>,
}

/// Every provider that was asked failed, and no record came back.
pub struct AllProvidersFailed {
    pub errors: Vec<String>,
}

/// Merges the providers' outcomes: the records of those that answered, in
/// order, and the messages of those that failed. Fails only when no record
/// came back and at least one provider failed.
pub fn gather(outcomes: Vec<Result<Vec<Repo>, String>>) -> (r: Result<Gathered, AllProvidersFailed>)
    ensures
        r is Err <==> gather_fails(outcomes@),
        r matches Ok(g) ==> g.repos@ == fetched(outcomes@) && g.warnings@ == failures(outcomes@),
        r matches Err(e) ==> e.errors@ == failures(outcomes@),
{
    let ghost orig = outcomes@;
    let mut rest = outcomes;
    let mut repos: Vec<Repo> = Vec::new();
    let mut errors: Vec<String> = Vec::new();
    let ghost mut i: int = 0;
    while rest.len() > 0
        invariant
            0 <= i <= orig.len(),
            rest@ == orig.subrange(i, orig.len() as int),
            repos@ == fetched(orig.subrange(0, i)),
            errors@ == failures(orig.subrange(0, i)),
        decreases rest@.len(),
    {
        let o = rest.remove(0);
        proof {
            assert(orig.subrange(0, i + 1).drop_last() =~= orig.subrange(0, i));
            assert(orig[i] == o);
        }
        match o {
            Ok(mut v) => {
                repos.append(&mut v);
            },
            Err(e) => {
                errors.push(e);
            },
        }
        proof {
            i = i + 1;
            assert(rest@ =~= orig.subrange(i, orig.len() as int));
            assert(repos@ =~= fetched(orig.subrange(0, i)));
            assert(errors@ =~= failures(orig.subrange(0, i)));
        }
    }
    assert(orig.subrange(0, i) =~= orig);
    if repos.len() == 0 && errors.len() > 0 {
        Err(AllProvidersFailed { errors })
    } else {
        Ok(Gathered { repos, warnings: errors })
    }
}

/// Every record of every provider that answered is in the merged list, and
/// the invocation does not fail as soon as one provider answered with at
/// least one record, whatever the others did.
pub proof fn lemma_partial_failure(outcomes: Seq<Result<Vec<Repo>, String>>)
    ensures
        forall|i: int, k: int|
            0 <= i < outcomes.len() && outcomes[i] is Ok && 0 <= k < outcomes[i]->Ok_0@.len()
                ==> fetched(outcomes).contains(#[trigger] outcomes[i]->Ok_0@[k]),
        (exists|i: int| 0 <= i < outcomes.len() && outcomes[i] is Ok && (#[trigger] outcomes[i])->Ok_0@.len() > 0)
            ==> !gather_fails(outcomes),
    decreases outcomes.len(),
{
    if outcomes.len() > 0 {
        let init = outcomes.drop_last();
        lemma_partial_failure(init);
        let tail = match outcomes.last() {
            Ok(v) => v@,
            Err(_) => Seq::<Repo>::empty(),
        };
        assert(fetched(outcomes) == fetched(init) + tail);
        assert forall|i: int, k: int|
            0 <= i < outcomes.len() && outcomes[i] is Ok && 0 <= k < outcomes[i]->Ok_0@.len()
                implies fetched(outcomes).contains(#[trigger] outcomes[i]->Ok_0@[k]) by {
            if i < init.len() {
                assert(init[i] == outcomes[i]);
                let j = choose|j: int| 0 <= j < fetched(init).len() && fetched(init)[j] == outcomes[i]->Ok_0@[k];
                assert(fetched(outcomes)[j] == outcomes[i]->Ok_0@[k]);
            } else {
                assert(fetched(outcomes)[fetched(init).len() + k] == outcomes[i]->Ok_0@[k]);
            }
        }
        if exists|i: int| 0 <= i < outcomes.len() && outcomes[i] is Ok && (#[trigger] outcomes[i])->Ok_0@.len() > 0 {
            let i = choose|i: int| 0 <= i < outcomes.len() && outcomes[i] is Ok && (#[trigger] outcomes[i])->Ok_0@.len() > 0;
            assert(fetched(outcomes).contains(outcomes[i]->Ok_0@[0]));
        }
    }
}

/// When every provider that was asked failed, the invocation fails.
pub proof fn lemma_total_failure(outcomes: Seq<Result<Vec<Repo>, String>>)
    requires
        outcomes.len() > 0,
        forall|i: int| 0 <= i < outcomes.len() ==> (#[trigger] outcomes[i]) is Err,
    ensures
        gather_fails(outcomes),
        failures(outcomes).len() == outcomes.len(),
{
    lemma_all_failed(outcomes);
}

proof fn lemma_all_failed(outcomes: Seq<Result<Vec<Repo>, String>>)
    requires
        forall|i: int| 0 <= i < outcomes.len() ==> (#[trigger] outcomes[i]) is Err,
    ensures
        fetched(outcomes).len() == 0,
        failures(outcomes).len() == outcomes.len(),
    decreases outcomes.len(),
{
    if outcomes.len() > 0 {
        let init = outcomes.drop_last();
        assert forall|i: int| 0 <= i < init.len() implies (#[trigger] init[i]) is Err by {
            assert(init[i] == outcomes[i]);
        }
        lemma_all_failed(init);
        assert(outcomes.last() is Err);
    }
}

/// Under a minimum-star threshold, a record with fewer stars is dropped, and
/// a record without a star count is dropped whenever the threshold is
/// positive; what the filters keep always meets the threshold.
pub proof fn lemma_min_stars(repos: Seq<Repo>, r: Repo, ascii_only: bool, min_stars: u32)
    ensures
        (match r.stars_total {
            Some(s) => s < min_stars,
            None => min_stars > 0,
        }) ==> !keeps(r, ascii_only, Some(min_stars)),
        forall|i: int| 0 <= i < kept(repos, ascii_only, Some(min_stars)).len()
            ==> meets_min_stars(
                (#[trigger] kept(repos, ascii_only, Some(min_stars))[i]).stars_total,
                Some(min_stars),
            ),
{
    assert forall|i: int| 0 <= i < kept(repos, ascii_only, Some(min_stars)).len()
        implies meets_min_stars(
            (#[trigger] kept(repos, ascii_only, Some(min_stars))[i]).stars_total,
            Some(min_stars),
        ) by {
        repos.lemma_filter_pred(|x: Repo| keeps(x, ascii_only, Some(min_stars)), i);
        assert(keeps(kept(repos, ascii_only, Some(min_stars))[i], ascii_only, Some(min_stars)));
    }
}

/// The provider id that a name given on the command line stands for: `gh`,
/// `gl` and `ge` are short for github, gitlab and gitea; any other name is
/// taken as it is.
pub open spec fn provider_id_of(name: Seq<char>) -> Seq<char> {
    if name == "gh"@ {
        "github"@
    } else if name == "gl"@ {
        "gitlab"@
    } else if name == "ge"@ {
        "gitea"@
    } else {
        name
    }
}

/// Expands a short provider name.
pub fn resolve_provider(name: &str) -> (r: String)
    ensures
        r@ == provider_id_of(name@),
{
    if str_eq(name, "gh") {
        "github".to_owned()
    } else if str_eq(name, "gl") {
        "gitlab".to_owned()
    } else if str_eq(name, "ge") {
        "gitea".to_owned()
    } else {
        name.to_owned()
    }
}

/// The configured token of a provider; an unknown id has none.
pub open spec fn token_for(auth: AuthConfig, provider: Seq<char>) -> Option<Seq<char>> {
    if provider == "github"@ {
        opt_view(auth.github_token)
    } else if provider == "gitlab"@ {
        opt_view(auth.gitlab_token)
    } else if provider == "gitea"@ {
        opt_view(auth.gitea_token)
    } else {
        None
    }
}

/// The settings handed to one provider: the global timeout, the provider's
/// token, the base URL for gitea only and the excluded topics for github only.
pub open spec fn settings_for(config: Config, provider: Seq<char>, cfg: ProviderCfg) -> bool {
    &&& cfg.timeout_secs == config.general.timeout_secs
    &&& opt_view(cfg.token) == token_for(config.auth, provider)
    &&& opt_view(cfg.base_url) == if provider == "gitea"@ {
        Some(config.gitea.base_url@)
    } else {
        None
    }
    &&& strings_view(cfg.exclude_topics@) == if provider == "github"@ {
        strings_view(config.github.exclude_topics@)
    } else {
        Seq::empty()
    }
}

/// Builds the settings handed to one provider.
pub fn provider_cfg(config: &Config, provider: &str) -> (r: ProviderCfg)
    ensures
        settings_for(*config, provider@, r),
{
    let is_github = str_eq(provider, "github");
    let is_gitlab = str_eq(provider, "gitlab");
    let is_gitea = str_eq(provider, "gitea");
    let token = if is_github {
        clone_opt(&config.auth.github_token)
    } else if is_gitlab {
        clone_opt(&config.auth.gitlab_token)
    } else if is_gitea {
        clone_opt(&config.auth.gitea_token)
    } else {
        None
    };
    let base_url = if is_gitea {
        Some(config.gitea.base_url.clone())
    } else {
        None
    };
    let exclude_topics = if is_github {
        clone_strings(&config.github.exclude_topics)
    } else {
        let v: Vec<String> = Vec::new();
        assert(strings_view(v@) =~= Seq::empty());
        v
    };
    ProviderCfg { timeout_secs: config.general.timeout_secs, token, base_url, exclude_topics }
}

/// What a provider's task does once the cache was consulted.
pub enum FetchPlan {
    /// The cache held fresh records: use them, without a network call.
    UseCached(Vec<Repo>),
    /// Ask the provider for at most `limit` records with these settings.
    Fetch { cfg: ProviderCfg, limit: usize },
}

/// Decides a provider's task: cached records when the cache had them (`None`
/// when caching is off or missed), otherwise a fetch with the provider's
/// settings and entry limit.
pub fn plan_fetch(config: &Config, provider: &str, cached: Option<Vec<Repo>>) -> (r: FetchPlan)
    ensures
        cached matches Some(v) ==> r == FetchPlan::UseCached(v),
        cached is None ==> (r matches FetchPlan::Fetch { cfg, limit } && limit == max_entries(
            config.general,
            provider@,
        ) && settings_for(*config, provider@, cfg)),
{
    match cached {
        Some(v) => FetchPlan::UseCached(v),
        None => FetchPlan::Fetch { cfg: provider_cfg(config, provider), limit: config.get_max_entries(provider) },
    }
}

} // verus!
