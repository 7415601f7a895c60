use trotd::gitea::{Gitea, GiteaRepository};
use trotd::github::{ArticleParts, GitHub, GitHubFetch, GitHubRepository, TrendingPageError, TrendingRepo};
use trotd::gitlab::{GitLab, GitLabProject};
use trotd::model::{LanguageFilter, ProviderCfg};

fn project(path: &str, stars: Option<u64>, topics: &[&str]) -> GitLabProject {
    GitLabProject {
        name: path.to_string(),
        path_with_namespace: path.to_string(),
        description: None,
        star_count: stars,
        web_url: format!("https://gitlab.com/{path}"),
        topics: topics.iter().map(|t| t.to_string()).collect(),
        last_activity_at: Some("2024-05-01T12:00:00Z".to_string()),
    }
}

fn gitea_repo(name: &str, stars: Option<u64>, language: Option<&str>) -> GiteaRepository {
    GiteaRepository {
        full_name: name.to_string(),
        description: Some("d".to_string()),
        html_url: format!("https://gitea.com/{name}"),
        stars_count: stars,
        language: language.map(|l| l.to_string()),
        updated_at: Some("not a date".to_string()),
    }
}

fn article(title: Option<&str>, href: Option<&str>, stars: &[&str]) -> ArticleParts {
    ArticleParts {
        title: title.map(|t| t.to_string()),
        href: href.map(|h| h.to_string()),
        description: Some("  A tool \n".to_string()),
        language: Some(" Rust ".to_string()),
        stars: stars.iter().map(|s| s.to_string()).collect(),
    }
}

#[test]
fn test_gitlab_provider_metadata() {
    let gitlab = GitLab;
    assert_eq!(gitlab.id(), "gitlab");
    assert_eq!(gitlab.icon(), "[GL]");
}

#[test]
fn test_github_provider_metadata() {
    let github = GitHub;
    assert_eq!(github.id(), "github");
    assert_eq!(github.icon(), "[GH]");
}

#[test]
fn test_gitea_provider_metadata() {
    let gitea = Gitea;
    assert_eq!(gitea.id(), "gitea");
    assert_eq!(gitea.icon(), "[GE]");
}

#[test]
fn test_extract_language() {
    assert_eq!(
        GitLab::extract_language(&["rust".to_string(), "cli".to_string()]),
        Some("Rust".to_string())
    );
    assert_eq!(
        GitLab::extract_language(&["web".to_string(), "python".to_string()]),
        Some("Python".to_string())
    );
    assert_eq!(GitLab::extract_language(&["web".to_string()]), None);
}

#[test]
fn extract_language_special_names() {
    assert_eq!(GitLab::extract_language(&["Golang".to_string()]), Some("Go".to_string()));
    assert_eq!(GitLab::extract_language(&["C++".to_string()]), Some("C++".to_string()));
    assert_eq!(GitLab::extract_language(&["c#".to_string()]), Some("C#".to_string()));
    assert_eq!(GitLab::extract_language(&["RUST".to_string()]), Some("RUST".to_string()));
    assert_eq!(GitLab::extract_language(&[]), None);
}

#[test]
fn gitlab_keeps_popular_matching_projects_up_to_limit() {
    let projects = vec![
        project("a/few", Some(9), &["rust"]),
        project("a/none", None, &["rust"]),
        project("a/py", Some(50), &["python"]),
        project("a/one", Some(10), &["cli", "rust"]),
        project("a/two", Some(11), &["Rust"]),
        project("a/three", Some(12), &["rust"]),
    ];
    let filter = LanguageFilter::new(vec!["rust".to_string()]);
    let repos = GitLab::top_today(projects, 2, &filter);
    assert_eq!(repos.len(), 2);
    assert_eq!(repos[0].name, "a/one");
    assert_eq!(repos[0].provider, "gitlab");
    assert_eq!(repos[0].icon, "[GL]");
    assert_eq!(repos[0].language, Some("Rust".to_string()));
    assert_eq!(repos[0].stars_total, Some(10));
    assert_eq!(repos[0].last_activity, Some(1714564800));
    assert_eq!(repos[0].topics, vec!["cli".to_string(), "rust".to_string()]);
    assert_eq!(repos[1].name, "a/two");
}

#[test]
fn gitlab_limit_zero_gives_nothing() {
    let projects = vec![project("a/b", Some(100), &[])];
    let repos = GitLab::top_today(projects, 0, &LanguageFilter::new(vec![]));
    assert!(repos.is_empty());
}

#[test]
fn gitea_keeps_starred_matching_repositories() {
    let found = vec![
        gitea_repo("o/zero", Some(0), Some("Go")),
        gitea_repo("o/none", None, Some("Go")),
        gitea_repo("o/go", Some(1), Some("go")),
        gitea_repo("o/rs", Some(5), Some("Rust")),
    ];
    let repos = Gitea::top_today(found, 5, &LanguageFilter::new(vec!["Go".to_string()]));
    assert_eq!(repos.len(), 1);
    assert_eq!(repos[0].name, "o/go");
    assert_eq!(repos[0].provider, "gitea");
    assert_eq!(repos[0].icon, "[GE]");
    assert_eq!(repos[0].last_activity, None);
    assert!(repos[0].topics.is_empty());
}

#[test]
fn gitea_search_url_defaults_to_public_instance() {
    let mut cfg = ProviderCfg { timeout_secs: 10, token: None, base_url: None, exclude_topics: vec![] };
    assert_eq!(
        Gitea::search_url(&cfg),
        "https://gitea.com/api/v1/repos/search?sort=updated&order=desc&limit=100"
    );
    cfg.base_url = Some("https://codeberg.org".to_string());
    assert_eq!(
        Gitea::search_url(&cfg),
        "https://codeberg.org/api/v1/repos/search?sort=updated&order=desc&limit=100"
    );
}

#[test]
fn github_reads_trending_blocks() {
    let articles = vec![
        article(None, Some("/x/y"), &[]),
        article(Some("a / b"), None, &[]),
        article(Some("\n  owner /\n   name  "), Some("/owner/name"), &["1,234", "56 stars today"]),
    ];
    let repos = GitHub::parse_trending(articles).unwrap();
    assert_eq!(repos.len(), 1);
    assert_eq!(repos[0].name, "owner/name");
    assert_eq!(repos[0].url, "https://github.com/owner/name");
    assert_eq!(repos[0].description, Some("A tool".to_string()));
    assert_eq!(repos[0].language, Some("Rust".to_string()));
    assert_eq!(repos[0].stars_total, Some(1234));
    assert_eq!(repos[0].stars_today, Some(56));
}

#[test]
fn github_empty_trending_page_is_an_error() {
    let articles = vec![article(None, None, &["1"])];
    assert_eq!(GitHub::parse_trending(articles).unwrap_err(), TrendingPageError::NoRepositories);
}

#[test]
fn github_star_counts() {
    let texts = vec![" 2,500 stars today ".to_string(), " 12,000 ".to_string()];
    assert_eq!(GitHub::star_counts(&texts), (Some(12000), Some(2500)));
    assert_eq!(GitHub::star_counts(&vec!["lots".to_string()]), (None, None));
}

#[test]
fn github_search_excludes_topics_case_insensitively() {
    let item = |name: &str, topics: &[&str]| GitHubRepository {
        full_name: name.to_string(),
        description: None,
        html_url: format!("https://github.com/{name}"),
        stargazers_count: 7,
        language: Some("Rust".to_string()),
        topics: topics.iter().map(|t| t.to_string()).collect(),
        updated_at: "2024-05-01T12:00:00+02:00".to_string(),
    };
    let found = vec![item("a/crypto", &["Crypto"]), item("a/ok", &["cli"]), item("a/ok2", &[])];
    let exclude = vec!["crypto".to_string()];
    let repos = GitHub::top_from_search(found, 5, &LanguageFilter::new(vec![]), &exclude);
    assert_eq!(repos.len(), 2);
    assert_eq!(repos[0].name, "a/ok");
    assert_eq!(repos[0].stars_total, Some(7));
    assert_eq!(repos[0].last_activity, Some(1714557600));
    assert_eq!(repos[1].name, "a/ok2");
}

#[test]
fn github_trending_selection_marks_activity_now() {
    let t = |name: &str, lang: Option<&str>| TrendingRepo {
        name: name.to_string(),
        description: None,
        language: lang.map(|l| l.to_string()),
        stars_today: Some(3),
        stars_total: None,
        url: format!("https://github.com/{name}"),
        topics: vec![],
    };
    let found = vec![t("a/go", Some("Go")), t("a/none", None), t("a/rs", Some("Rust"))];
    let repos = GitHub::top_from_trending(found, 3, &LanguageFilter::new(vec!["rust".to_string()]), &vec![], 99);
    assert_eq!(repos.len(), 1);
    assert_eq!(repos[0].name, "a/rs");
    assert_eq!(repos[0].last_activity, Some(99));
    assert_eq!(repos[0].stars_today, Some(3));
}

#[test]
fn github_request_planning() {
    let mut cfg = ProviderCfg { timeout_secs: 10, token: None, base_url: None, exclude_topics: vec![] };
    assert!(!GitHub::uses_search(&cfg));
    cfg.exclude_topics.push("x".to_string());
    assert!(GitHub::uses_search(&cfg));
    assert_eq!(
        GitHub::trending_urls(&LanguageFilter::new(vec![])),
        vec!["https://github.com/trending?since=daily".to_string()]
    );
    assert_eq!(
        GitHub::trending_urls(&LanguageFilter::new(vec!["rust".to_string(), "go".to_string()])),
        vec![
            "https://github.com/trending/rust?since=daily".to_string(),
            "https://github.com/trending/go?since=daily".to_string()
        ]
    );
    assert_eq!(
        GitHub::search_url("2024-05-01"),
        "https://api.github.com/search/repositories?q=created:>=2024-05-01&sort=stars&order=desc&per_page=100"
    );
}

fn trending(name: &str, lang: Option<&str>) -> TrendingRepo {
    TrendingRepo {
        name: name.to_string(),
        description: None,
        language: lang.map(|l| l.to_string()),
        stars_today: None,
        stars_total: None,
        url: format!("https://github.com/{name}"),
        topics: vec![],
    }
}

#[test]
fn github_per_language_failures_are_skipped() {
    let all = GitHub::gather_trending(vec![
        Ok(vec![trending("a", None)]),
        Err("HTTP 500".to_string()),
        Ok(vec![trending("b", None), trending("c", None)]),
    ])
    .unwrap();
    let names: Vec<String> = all.into_iter().map(|r| r.name).collect();
    assert_eq!(names, vec!["a", "b", "c"]);
}

#[test]
fn github_all_trending_fetches_failing_is_an_error() {
    let r = GitHub::gather_trending(vec![Err("e1".to_string()), Err("e2".to_string())]);
    assert_eq!(r.unwrap_err(), vec!["e1".to_string(), "e2".to_string()]);
    let cfg = ProviderCfg { timeout_secs: 10, token: None, base_url: None, exclude_topics: vec![] };
    let langs = LanguageFilter::new(vec!["rust".to_string()]);
    let r = GitHub::top_today(&cfg, 5, &langs, GitHubFetch::Trending(vec![Err("e".to_string())]), 0);
    assert!(r.is_err());
    let ok = GitHub::top_today(&cfg, 5, &langs, GitHubFetch::Trending(vec![Ok(vec![])]), 0);
    assert!(ok.unwrap().is_empty());
}

#[test]
fn github_top_today_drops_records_without_name_or_url() {
    let cfg = ProviderCfg { timeout_secs: 10, token: None, base_url: None, exclude_topics: vec![] };
    let langs = LanguageFilter::new(vec![]);
    let mut no_url = trending("x/y", None);
    no_url.url = String::new();
    let fetched = GitHubFetch::Trending(vec![Ok(vec![trending("", None), no_url, trending("a/b", None)])]);
    let repos = GitHub::top_today(&cfg, 5, &langs, fetched, 7).unwrap();
    assert_eq!(repos.len(), 1);
    assert_eq!(repos[0].name, "a/b");
    assert_eq!(repos[0].icon, "[GH]");
    let item = GitHubRepository {
        full_name: String::new(),
        description: None,
        html_url: "https://github.com/x".to_string(),
        stargazers_count: 1,
        language: None,
        topics: vec![],
        updated_at: String::new(),
    };
    let repos = GitHub::top_today(&cfg, 5, &langs, GitHubFetch::Search(vec![item]), 7).unwrap();
    assert!(repos.is_empty());
}

#[test]
fn gitlab_and_gitea_drop_records_without_name_or_url() {
    let mut p = project("", Some(50), &[]);
    p.web_url = "https://gitlab.com/x".to_string();
    let mut q = project("a/b", Some(50), &[]);
    q.web_url = String::new();
    assert!(GitLab::top_today(vec![p, q], 5, &LanguageFilter::new(vec![])).is_empty());
    let mut g = gitea_repo("o/r", Some(3), None);
    g.html_url = String::new();
    let repos = Gitea::top_today(vec![g, gitea_repo("", Some(3), None), gitea_repo("o/k", Some(3), None)], 5, &LanguageFilter::new(vec![]));
    assert_eq!(repos.len(), 1);
    assert_eq!(repos[0].name, "o/k");
}

#[test]
fn gitlab_projects_url() {
    assert_eq!(
        GitLab::projects_url("2024-05-01T00:00:00Z"),
        "https://gitlab.com/api/v4/projects?order_by=last_activity_at&sort=desc&last_activity_after=2024-05-01T00:00:00Z&per_page=100"
    );
}

#[test]
fn github_parses_trending_html() {
    let html = r#"<html><body>
        <article class="Box-row">
          <h2 class="h3"><a href="/rust-lang/rust">
            rust-lang /
            rust </a></h2>
          <p class="col-9"> Empowering everyone </p>
          <span itemprop="programmingLanguage">Rust</span>
          <span class="d-inline-block float-sm-right"> 1,024 stars today </span>
          <a class="Link">98,765</a>
        </article>
        <article class="Box-row">
          <h2><span>no link</span></h2>
        </article>
        <article class="Box-row">
          <h2><a href="/a/b">a / b</a></h2>
          <p>   </p>
        </article>
    </body></html>"#;
    let repos = GitHub::parse_trending_html(html).unwrap();
    assert_eq!(repos.len(), 2);
    assert_eq!(repos[0].name, "rust-lang/rust");
    assert_eq!(repos[0].url, "https://github.com/rust-lang/rust");
    assert_eq!(repos[0].description, Some("Empowering everyone".to_string()));
    assert_eq!(repos[0].language, Some("Rust".to_string()));
    assert_eq!(repos[0].stars_today, Some(1024));
    assert_eq!(repos[0].stars_total, None);
    assert_eq!(repos[1].name, "a/b");
    assert_eq!(repos[1].description, None);
    assert_eq!(repos[1].language, None);
}

#[test]
fn github_trending_html_without_blocks_is_an_error() {
    let html = "<html><body><p>nothing trending</p></body></html>";
    assert_eq!(GitHub::parse_trending_html(html).unwrap_err(), TrendingPageError::NoRepositories);
}

#[test]
fn github_trending_path_also_excludes_topics() {
    let mut tagged = trending("a/c", None);
    tagged.topics = vec!["CRYPTO".to_string()];
    let repos = GitHub::top_from_trending(vec![tagged, trending("a/d", None)], 5, &LanguageFilter::new(vec![]), &vec!["crypto".to_string()], 0);
    assert_eq!(repos.len(), 1);
    assert_eq!(repos[0].name, "a/d");
}
