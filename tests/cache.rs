use trotd::cache::Cache;
use trotd::model::Repo;

fn sample() -> Vec<Repo> {
    vec![Repo {
        provider: "github".to_string(),
        icon: "[GH]".to_string(),
        name: "test/repo".to_string(),
        language: Some("Rust".to_string()),
        description: Some("Test repository".to_string()),
        url: "https://github.com/test/repo".to_string(),
        stars_today: Some(10),
        stars_total: Some(100),
        last_activity: Some(1_700_000_000),
        topics: vec!["rust".to_string(), "cli".to_string()],
    }]
}

#[test]
fn cache_lookup_round_trip() {
    let cache = Cache::with_dir("/tmp/trotd-test".to_string(), 60);
    assert_eq!(cache.ttl_secs, 3600);
    let entry = Cache::entry_at(sample(), 1000);
    let got = cache.lookup(Some(entry), 1000 + 3600).unwrap();
    assert_eq!(got.len(), 1);
    assert_eq!(got[0].name, "test/repo");
    assert_eq!(got[0].topics, vec!["rust".to_string(), "cli".to_string()]);
}

#[test]
fn cache_lookup_expired_or_missing() {
    let cache = Cache::with_dir("/tmp/trotd-test".to_string(), 0);
    assert!(cache.lookup(Some(Cache::entry_at(sample(), 1000)), 1001).is_none());
    assert!(cache.lookup(Some(Cache::entry_at(sample(), 1000)), 1000).is_some());
    assert!(cache.lookup(None, 1000).is_none());
}

#[test]
fn cache_clock_skew_counts_as_fresh() {
    let cache = Cache::with_dir("/tmp/trotd-test".to_string(), 1);
    assert!(cache.is_fresh(2000, 1000));
    assert!(cache.is_fresh(1000, 1060));
    assert!(!cache.is_fresh(1000, 1061));
}

#[test]
fn cache_file_names() {
    let cache = Cache::with_dir("/var/cache/trotd".to_string(), 5);
    assert_eq!(cache.cache_file("gitlab"), "/var/cache/trotd/gitlab.json");
}

#[test]
fn new_entry_is_stamped_now() {
    let before = std::time::SystemTime::now()
        .duration_since(std::time::UNIX_EPOCH)
        .unwrap()
        .as_secs();
    let e = Cache::new_entry(sample());
    assert!(e.timestamp >= before);
    assert_eq!(e.repos.len(), 1);
    let cache = Cache::with_dir("/tmp/trotd-test".to_string(), 60);
    let got = cache.check(Some(e)).unwrap();
    assert_eq!(got[0].name, "test/repo");
    assert!(cache.check(None).is_none());
    assert!(cache.check(Some(Cache::entry_at(sample(), 0))).is_none());
}

#[test]
fn cache_under_base_directory() {
    let cache = Cache::under("/home/u/.cache".to_string(), 2);
    assert_eq!(cache.cache_dir, "/home/u/.cache/trotd");
    assert_eq!(cache.ttl_secs, 120);
}

#[test]
fn entry_valid_past_the_clock_range_is_fresh() {
    let cache = Cache::with_dir("/tmp/trotd-test".to_string(), 1);
    let got = cache.check(Some(Cache::entry_at(sample(), u64::MAX - 30)));
    assert_eq!(got.unwrap().len(), 1);
}
