use trotd::config::{is_blank, Config};

#[test]
fn test_default_config() {
    let config = Config::default();
    assert_eq!(config.general.max_per_provider, 2);
    assert_eq!(config.general.timeout_secs, 6);
    assert_eq!(config.general.cache_ttl_mins, 60);
    assert!(config.providers.github);
    assert!(config.providers.gitlab);
    assert!(config.providers.gitea);
    assert_eq!(config.gitea.base_url, "https://gitea.com");
}

#[test]
fn test_enabled_providers() {
    let mut config = Config::default();
    config.providers.gitlab = false;
    let enabled = config.enabled_providers();
    assert_eq!(enabled, vec!["github", "gitea"]);
}

#[test]
fn test_get_max_entries_defaults() {
    let config = Config::default();
    assert_eq!(config.get_max_entries("github"), 2);
    assert_eq!(config.get_max_entries("gitlab"), 2);
    assert_eq!(config.get_max_entries("gitea"), 2);
    assert_eq!(config.get_max_entries("unknown"), 2);
}

#[test]
fn test_get_max_entries_overrides() {
    let mut config = Config::default();
    config.general.max_per_provider = 2;
    config.general.github_max_entries = Some(3);
    config.general.gitlab_max_entries = Some(1);

    assert_eq!(config.get_max_entries("github"), 3);
    assert_eq!(config.get_max_entries("gitlab"), 1);
    assert_eq!(config.get_max_entries("gitea"), 2);
    assert_eq!(config.get_max_entries("unknown"), 2);
}

#[test]
fn default_timeouts_per_provider() {
    let config = Config::default();
    assert_eq!(config.general.github_timeout_secs, 15);
    assert_eq!(config.general.gitlab_timeout_secs, 10);
    assert_eq!(config.general.gitea_timeout_secs, 10);
    assert!(!config.general.ascii_only);
    assert_eq!(config.general.min_stars, None);
}

#[test]
fn no_provider_enabled() {
    let mut config = Config::default();
    config.providers.github = false;
    config.providers.gitlab = false;
    config.providers.gitea = false;
    assert!(config.enabled_providers().is_empty());
}

#[test]
fn blank_tokens_become_none() {
    let mut config = Config::default();
    config.auth.github_token = Some("  \t".to_string());
    config.auth.gitlab_token = Some(" abc ".to_string());
    config.auth.gitea_token = Some(String::new());
    config.normalize_tokens();
    assert_eq!(config.auth.github_token, None);
    assert_eq!(config.auth.gitlab_token, Some(" abc ".to_string()));
    assert_eq!(config.auth.gitea_token, None);
}

#[test]
fn unicode_white_space_is_blank() {
    assert!(is_blank("\u{3000}\u{a0}\n"));
    assert!(!is_blank("\u{200b}"));
}
