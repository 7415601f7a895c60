use trotd::model::{eq_ignore_ascii_case, str_eq, LanguageFilter};

#[test]
fn test_language_filter_empty() {
    let filter = LanguageFilter::new(vec![]);
    assert!(filter.matches(Some(&"Rust".to_string())));
    assert!(filter.matches(Some(&"Go".to_string())));
    assert!(filter.matches(None));
}

#[test]
fn test_language_filter_case_insensitive() {
    let filter = LanguageFilter::new(vec!["rust".to_string(), "go".to_string()]);
    assert!(filter.matches(Some(&"Rust".to_string())));
    assert!(filter.matches(Some(&"RUST".to_string())));
    assert!(filter.matches(Some(&"Go".to_string())));
    assert!(!filter.matches(Some(&"Python".to_string())));
    assert!(!filter.matches(None));
}

#[test]
fn language_filter_needs_exact_membership() {
    let filter = LanguageFilter::new(vec!["python".to_string()]);
    assert!(!filter.matches(Some(&"Pythonic".to_string())));
    assert!(!filter.matches(Some(&"pytho".to_string())));
    assert!(filter.matches(Some(&"PyThOn".to_string())));
}

#[test]
fn language_filter_folds_ascii_only() {
    let filter = LanguageFilter::new(vec!["é".to_string()]);
    assert!(filter.matches(Some(&"é".to_string())));
    assert!(!filter.matches(Some(&"É".to_string())));
}

#[test]
fn ascii_case_comparison() {
    assert!(eq_ignore_ascii_case("C++", "c++"));
    assert!(!eq_ignore_ascii_case("rust", "rusty"));
    assert!(eq_ignore_ascii_case("", ""));
    assert!(str_eq("gitea", "gitea"));
    assert!(!str_eq("gitea", "Gitea"));
}
