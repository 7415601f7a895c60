use trotd::aggregate::{apply_filters, gather, is_mostly_ascii, plan_fetch, provider_cfg, resolve_provider, FetchPlan};
use trotd::config::Config;
use trotd::model::Repo;

fn repo(name: &str, stars: Option<u64>) -> Repo {
    Repo {
        provider: "github".to_string(),
        icon: "[GH]".to_string(),
        name: name.to_string(),
        language: None,
        description: None,
        url: format!("https://example.com/{name}"),
        stars_today: None,
        stars_total: stars,
        last_activity: None,
        topics: vec![],
    }
}

fn names(v: &[Repo]) -> Vec<String> {
    v.iter().map(|r| r.name.clone()).collect()
}

#[test]
fn partial_failure_returns_union() {
    let outcomes = vec![
        Ok(vec![repo("a/1", None), repo("a/2", None)]),
        Err("gitlab: HTTP 500".to_string()),
        Ok(vec![repo("b/1", None)]),
    ];
    let g = gather(outcomes).ok().unwrap();
    assert_eq!(names(&g.repos), vec!["a/1", "a/2", "b/1"]);
    assert_eq!(g.warnings, vec!["gitlab: HTTP 500".to_string()]);
}

#[test]
fn total_failure_is_fatal() {
    let e = gather(vec![Err("github: timed out".to_string())]).err().unwrap();
    assert_eq!(e.errors, vec!["github: timed out".to_string()]);
}

#[test]
fn empty_answers_without_errors_succeed() {
    let g = gather(vec![Ok(vec![]), Ok(vec![])]).ok().unwrap();
    assert!(g.repos.is_empty());
    assert!(gather(vec![]).is_ok());
    assert!(gather(vec![Ok(vec![]), Err("x".to_string())]).is_err());
}

#[test]
fn min_star_threshold() {
    let repos = vec![repo("five", Some(5)), repo("none", None), repo("ten", Some(10)), repo("big", Some(11))];
    let kept = apply_filters(repos, false, Some(10));
    assert_eq!(names(&kept), vec!["ten", "big"]);
    let kept = apply_filters(vec![repo("none", None)], false, Some(1));
    assert!(kept.is_empty());
    let kept = apply_filters(vec![repo("none", None)], false, Some(0));
    assert_eq!(kept.len(), 1);
}

#[test]
fn ascii_only_filter() {
    let repos = vec![repo("测试/repo", None), repo("my-repo", None)];
    let kept = apply_filters(repos, true, None);
    assert_eq!(names(&kept), vec!["my-repo"]);
    let kept = apply_filters(vec![repo("测试/repo", None)], false, None);
    assert_eq!(kept.len(), 1);
}

#[test]
fn ascii_share_thresholds() {
    assert!(is_mostly_ascii(&repo("abcd测", None)));
    assert!(!is_mostly_ascii(&repo("abc测", None)));
    let mut r = repo("ok", None);
    r.description = Some("abcdefg测试测".to_string());
    assert!(is_mostly_ascii(&r));
    r.description = Some("abcdef测试测".to_string());
    assert!(!is_mostly_ascii(&r));
    assert!(is_mostly_ascii(&repo("", None)));
}

#[test]
fn provider_settings() {
    let mut config = Config::default();
    config.auth.github_token = Some("gh-token".to_string());
    config.auth.gitea_token = Some("ge-token".to_string());
    config.github.exclude_topics = vec!["crypto".to_string()];
    let gh = provider_cfg(&config, "github");
    assert_eq!(gh.timeout_secs, 6);
    assert_eq!(gh.token, Some("gh-token".to_string()));
    assert_eq!(gh.base_url, None);
    assert_eq!(gh.exclude_topics, vec!["crypto".to_string()]);
    let ge = provider_cfg(&config, "gitea");
    assert_eq!(ge.token, Some("ge-token".to_string()));
    assert_eq!(ge.base_url, Some("https://gitea.com".to_string()));
    assert!(ge.exclude_topics.is_empty());
    let gl = provider_cfg(&config, "gitlab");
    assert_eq!(gl.token, None);
    assert_eq!(provider_cfg(&config, "other").token, None);
}

#[test]
fn short_provider_names() {
    assert_eq!(resolve_provider("gh"), "github");
    assert_eq!(resolve_provider("gl"), "gitlab");
    assert_eq!(resolve_provider("ge"), "gitea");
    assert_eq!(resolve_provider("gitea"), "gitea");
}

#[test]
fn cached_records_skip_the_fetch() {
    let mut config = Config::default();
    config.general.gitlab_max_entries = Some(4);
    match plan_fetch(&config, "gitlab", Some(vec![repo("c/1", None)])) {
        FetchPlan::UseCached(v) => assert_eq!(names(&v), vec!["c/1"]),
        FetchPlan::Fetch { .. } => panic!("a cache hit must not fetch"),
    }
    match plan_fetch(&config, "gitlab", None) {
        FetchPlan::Fetch { cfg, limit } => {
            assert_eq!(limit, 4);
            assert_eq!(cfg.timeout_secs, 6);
            assert_eq!(cfg.base_url, None);
        }
        FetchPlan::UseCached(_) => panic!("a miss must fetch"),
    }
}
