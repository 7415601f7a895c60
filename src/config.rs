use vstd::prelude::*;

use crate::model::str_eq;

verus! {

/// The resolved settings of one invocation.
#[derive(Clone, Debug)]
pub struct Config {
    pub general: GeneralConfig,
    pub providers: ProvidersConfig,
    pub auth: AuthConfig,
    pub gitea: GiteaConfig,
    pub github: GitHubConfig,
}

#[derive(Clone, Debug)]
pub struct GeneralConfig {
    pub max_per_provider: usize,
    pub github_max_entries: Option<usize>,
    pub gitlab_max_entries: Option<usize>,
    pub gitea_max_entries: Option<usize>,
    pub timeout_secs: u64,
    pub cache_ttl_mins: u64,
    pub language_filter: Vec<String>,
    pub github_timeout_secs: u64,
    pub gitlab_timeout_secs: u64,
    pub gitea_timeout_secs: u64,
    pub ascii_only: bool,
    pub min_stars: Option<u32>,
}

/// Which providers are enabled.
#[derive(Clone, Debug)]
pub struct ProvidersConfig {
    pub github: bool,
    pub gitlab: bool,
    pub gitea: bool,
}

/// Bearer tokens, one per provider.
#[derive(Clone, Debug)]
pub struct AuthConfig {
    pub github_token: Option<String>,
    pub gitlab_token: Option<String>,
    pub gitea_token: Option<String>,
}

#[derive(Clone, Debug)]
pub struct GiteaConfig {
    pub base_url: String,
}

#[derive(Clone, Debug)]
pub struct GitHubConfig {
    pub exclude_topics: Vec<String>,
}

fn default_max_per_provider() -> (r: usize)
    ensures
        r == 2,
{
    2
}

fn default_timeout_secs() -> (r: u64)
    ensures
        r == 6,
{
    6
}

fn default_github_timeout_secs() -> (r: u64)
    ensures
        r == 15,
{
    15
}

fn default_gitlab_timeout_secs() -> (r: u64)
    ensures
        r == 10,
{
    10
}

fn default_gitea_timeout_secs() -> (r: u64)
    ensures
        r == 10,
{
    10
}

fn default_cache_ttl_mins() -> (r: u64)
    ensures
        r == 60,
{
    60
}

fn default_gitea_url() -> (r: String)
    ensures
        r@ == "https://gitea.com"@,
{
    "https://gitea.com".to_owned()
}

fn default_true() -> (r: bool)
    ensures
        r,
{
    true
}

impl Default for GeneralConfig {
    fn default() -> (r: Self)
        ensures
            r.max_per_provider == 2,
            r.github_max_entries is None,
            r.gitlab_max_entries is None,
            r.gitea_max_entries is None,
            r.timeout_secs == 6,
            r.cache_ttl_mins == 60,
            r.language_filter@.len() == 0,
            r.github_timeout_secs == 15,
            r.gitlab_timeout_secs == 10,
            r.gitea_timeout_secs == 10,
            !r.ascii_only,
            r.min_stars is None,
    {
        GeneralConfig {
            max_per_provider: default_max_per_provider(),
            github_max_entries: None,
            gitlab_max_entries: None,
            gitea_max_entries: None,
            timeout_secs: default_timeout_secs(),
            cache_ttl_mins: default_cache_ttl_mins(),
            language_filter: Vec::new(),
            github_timeout_secs: default_github_timeout_secs(),
            gitlab_timeout_secs: default_gitlab_timeout_secs(),
            gitea_timeout_secs: default_gitea_timeout_secs(),
            ascii_only: false,
            min_stars: None,
        }
    }
}

impl Default for ProvidersConfig {
    fn default() -> (r: Self)
        ensures
            r.github && r.gitlab && r.gitea,
    {
        ProvidersConfig { github: default_true(), gitlab: default_true(), gitea: default_true() }
    }
}

impl Default for AuthConfig {
    fn default() -> (r: Self)
        ensures
            r.github_token is None && r.gitlab_token is None && r.gitea_token is None,
    {
        AuthConfig { github_token: None, gitlab_token: None, gitea_token: None }
    }
}

impl Default for GiteaConfig {
    fn default() -> (r: Self)
        ensures
            r.base_url@ == "https://gitea.com"@,
    {
        GiteaConfig { base_url: default_gitea_url() }
    }
}

impl Default for GitHubConfig {
    fn default() -> (r: Self)
        ensures
            r.exclude_topics@.len() == 0,
    {
        GitHubConfig { exclude_topics: Vec::new() }
    }
}

impl Default for Config {
    fn default() -> (r: Self)
        ensures
            r.general.max_per_provider == 2,
            r.general.github_max_entries is None,
            r.general.gitlab_max_entries is None,
            r.general.gitea_max_entries is None,
            r.general.timeout_secs == 6,
            r.general.cache_ttl_mins == 60,
            r.general.language_filter@.len() == 0,
            r.general.github_timeout_secs == 15,
            r.general.gitlab_timeout_secs == 10,
            r.general.gitea_timeout_secs == 10,
            !r.general.ascii_only,
            r.general.min_stars is None,
            r.providers.github && r.providers.gitlab && r.providers.gitea,
            r.auth.github_token is None && r.auth.gitlab_token is None && r.auth.gitea_token is None,
            r.gitea.base_url@ == "https://gitea.com"@,
            r.github.exclude_topics@.len() == 0,
    {
        Config {
            general: GeneralConfig::default(),
            providers: ProvidersConfig::default(),
            auth: AuthConfig::default(),
            gitea: GiteaConfig::default(),
            github: GitHubConfig::default(),
        }
    }
}

/// The characters that carry the Unicode `White_Space` property.
pub open spec fn white_space(c: char) -> bool {
    let x = c as u32;
    (0x09 <= x && x <= 0x0d) || x == 0x20 || x == 0x85 || x == 0xa0 || x == 0x1680 || (0x2000 <= x
        && x <= 0x200a) || x == 0x2028 || x == 0x2029 || x == 0x202f || x == 0x205f || x == 0x3000
}

/// A string made of white space only (the empty string included).
pub open spec fn blank(s: Seq<char>) -> bool {
    forall|i: int| 0 <= i < s.len() ==> white_space(#[trigger] s[i])
}

/// Whether `c` carries the Unicode `White_Space` property.
pub fn is_white_space(c: char) -> (r: bool)
    ensures
        r == white_space(c),
{
    let x = c as u32;
    (0x09 <= x && x <= 0x0d) || x == 0x20 || x == 0x85 || x == 0xa0 || x == 0x1680 || (0x2000 <= x
        && x <= 0x200a) || x == 0x2028 || x == 0x2029 || x == 0x202f || x == 0x205f || x == 0x3000
}

/// Whether `s` holds white space only.
pub fn is_blank(s: &str) -> (r: bool)
    ensures
        r == blank(s@),
{
    let n = s.unicode_len();
    let mut i: usize = 0;
    while i < n
        invariant
            n == s@.len(),
            i <= n,
            forall|j: int| 0 <= j < i ==> white_space(#[trigger] s@[j]),
        decreases n - i,
    {
        if !is_white_space(s.get_char(i)) {
            return false;
        }
        i = i + 1;
    }
    true
}

/// A token made of white space only counts as no token.
pub open spec fn normalized_token(t: Option<String>) -> Option<String> {
    match t {
        Some(s) => if blank(s@) {
            None
        } else {
            Some(s)
        },
        None => None,
    }
}

fn normalize_token(t: Option<String>) -> (r: Option<String>)
    ensures
        r == normalized_token(t),
{
    match t {
        Some(s) => if is_blank(s.as_str()) {
            None
        } else {
            Some(s)
        },
        None => None,
    }
}

/// The ids of the enabled providers, in the order github, gitlab, gitea.
pub open spec fn enabled_ids(p: ProvidersConfig) -> Seq<Seq<char>> {
    (if p.github {
        seq!["github"@]
    } else {
        Seq::empty()
    }) + (if p.gitlab {
        seq!["gitlab"@]
    } else {
        Seq::empty()
    }) + (if p.gitea {
        seq!["gitea"@]
    } else {
        Seq::empty()
    })
}

/// The entry limit of a provider: its own override when set, otherwise the
/// global limit; an unknown id gets the global limit.
pub open spec fn max_entries(g: GeneralConfig, provider: Seq<char>) -> usize {
    if provider == "github"@ {
        match g.github_max_entries {
            Some(n) => n,
            None => g.max_per_provider,
        }
    } else if provider == "gitlab"@ {
        match g.gitlab_max_entries {
            Some(n) => n,
            None => g.max_per_provider,
        }
    } else if provider == "gitea"@ {
        match g.gitea_max_entries {
            Some(n) => n,
            None => g.max_per_provider,
        }
    } else {
        g.max_per_provider
    }
}

impl Config {
    /// Turns tokens made of white space only into no token.
    pub fn normalize_tokens(&mut self)
        ensures
            final(self).auth.github_token == normalized_token(old(self).auth.github_token),
            final(self).auth.gitlab_token == normalized_token(old(self).auth.gitlab_token),
            final(self).auth.gitea_token == normalized_token(old(self).auth.gitea_token),
            final(self).general == old(self).general,
            final(self).providers == old(self).providers,
            final(self).gitea == old(self).gitea,
            final(self).github == old(self).github,
    {
        let t = self.auth.github_token.take();
        self.auth.github_token = normalize_token(t);
        let t = self.auth.gitlab_token.take();
        self.auth.gitlab_token = normalize_token(t);
        let t = self.auth.gitea_token.take();
        self.auth.gitea_token = normalize_token(t);
    }

    /// The ids of the enabled providers.
    pub fn enabled_providers(&self) -> (r: Vec<&'static str>)
        ensures
            r@.map_values(|s: &str| s@) == enabled_ids(self.providers),
    {
        let mut providers: Vec<&'static str> = Vec::new();
        if self.providers.github {
            providers.push("github");
        }
        if self.providers.gitlab {
            providers.push("gitlab");
        }
        if self.providers.gitea {
            providers.push("gitea");
        }
        assert(providers@.map_values(|s: &str| s@) =~= enabled_ids(self.providers));
        providers
    }

    /// The maximum number of records to ask of a provider.
    pub fn get_max_entries(&self, provider: &str) -> (r: usize)
        ensures
            r == max_entries(self.general, provider@),
    {
        if str_eq(provider, "github") {
            match self.general.github_max_entries {
                Some(n) => n,
                None => self.general.max_per_provider,
            }
        } else if str_eq(provider, "gitlab") {
            match self.general.gitlab_max_entries {
                Some(n) => n,
                None => self.general.max_per_provider,
            }
        } else if str_eq(provider, "gitea") {
            match self.general.gitea_max_entries {
                Some(n) => n,
                None => self.general.max_per_provider,
            }
        } else {
            self.general.max_per_provider
        }
    }
}

} // verus!
