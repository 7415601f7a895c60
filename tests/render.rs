use trotd::model::Repo;
use trotd::render::{
    clean_description, clean_truncated_text, column_widths, decimal_text, fit, format_recency, motd_row, pad,
    remove_all,
};

#[test]
fn test_clean_truncated_incomplete_link() {
    let text = "Check out [README](h";
    let result = clean_truncated_text(text);
    assert_eq!(result, "Check out");
}

#[test]
fn test_clean_truncated_incomplete_bracket() {
    let text = "See the [docs";
    let result = clean_truncated_text(text);
    assert_eq!(result, "See the");
}

#[test]
fn test_clean_truncated_incomplete_paren() {
    let text = "Some text (partial";
    let result = clean_truncated_text(text);
    assert_eq!(result, "Some text");
}

#[test]
fn test_clean_truncated_complete_link() {
    let text = "Check [docs](url) here";
    let result = clean_truncated_text(text);
    assert_eq!(result, "Check [docs](url) here");
}

#[test]
fn clean_truncated_keeps_plain_text_but_trailing_space() {
    assert_eq!(clean_truncated_text("plain words   "), "plain words");
    assert_eq!(clean_truncated_text(""), "");
    assert_eq!(clean_truncated_text("a [b] c"), "a [b] c");
}

#[test]
fn recency_labels() {
    let mut r = Repo {
        provider: "github".to_string(),
        icon: "[GH]".to_string(),
        name: "a/b".to_string(),
        language: None,
        description: None,
        url: "u".to_string(),
        stars_today: None,
        stars_total: None,
        last_activity: None,
        topics: vec![],
    };
    let now: i64 = 1_000_000_000;
    assert_eq!(format_recency(&r, now), "unknown");
    let cases: [(i64, &str); 8] = [
        (0, "today"),
        (86_399, "today"),
        (86_400, "yesterday"),
        (3 * 86_400 + 5, "3d ago"),
        (7 * 86_400, "1w ago"),
        (29 * 86_400, "4w ago"),
        (95 * 86_400, "3mo ago"),
        (-500, "today"),
    ];
    for (age, label) in cases {
        r.last_activity = Some(now - age);
        assert_eq!(format_recency(&r, now), label);
    }
}

#[test]
fn decimal_notation() {
    assert_eq!(decimal_text(0), "0");
    assert_eq!(decimal_text(7), "7");
    assert_eq!(decimal_text(1234567890), "1234567890");
    assert_eq!(decimal_text(u64::MAX), u64::MAX.to_string());
}

#[test]
fn test_clean_description_markdown_links() {
    let desc = "Check out [README](https://example.com) for more info";
    let cleaned = clean_description(desc);
    assert_eq!(cleaned, "Check out README for more info");
}

#[test]
fn test_clean_description_multiple_links() {
    let desc = "See [docs](url1) and [API](url2) for details";
    let cleaned = clean_description(desc);
    assert_eq!(cleaned, "See docs and API for details");
}

#[test]
fn test_clean_description_bold_italic() {
    let desc = "This is **bold** and __also bold__ text";
    let cleaned = clean_description(desc);
    assert_eq!(cleaned, "This is bold and also bold text");
}

#[test]
fn test_clean_description_images() {
    let desc = "Project logo ![logo](image.png) here";
    let cleaned = clean_description(desc);
    assert_eq!(cleaned, "Project logo here");
}

#[test]
fn clean_description_collapses_white_space() {
    assert_eq!(clean_description("  a\n\t b  [broken](http"), "a b");
}

#[test]
fn remove_all_occurrences() {
    assert_eq!(remove_all("a***b", "**"), "a*b");
    assert_eq!(remove_all("____", "__"), "");
    assert_eq!(remove_all("abc", ""), "abc");
    assert_eq!(remove_all("", "x"), "");
}

fn sample(name: &str, language: Option<&str>) -> Repo {
    Repo {
        provider: "gitlab".to_string(),
        icon: "[GL]".to_string(),
        name: name.to_string(),
        language: language.map(|l| l.to_string()),
        description: None,
        url: "u".to_string(),
        stars_today: None,
        stars_total: None,
        last_activity: None,
        topics: vec![],
    }
}

#[test]
fn fit_and_pad_columns() {
    assert_eq!(fit("abcdef", 4), "ab..");
    assert_eq!(fit("abc", 4), "abc");
    assert_eq!(fit("-", 0), "-..");
    assert_eq!(pad("ab", 4), "ab  ");
    assert_eq!(pad("abcde", 4), "abcde");
    assert_eq!(pad("é", 3), "é  ");
}

#[test]
fn column_widths_are_capped() {
    let long = "x".repeat(50);
    let repos = vec![sample("a/b", Some("Rust")), sample(&long, None), sample("c", Some("VeryLongLanguageName"))];
    assert_eq!(column_widths(&repos), (40, 15));
    assert_eq!(column_widths(&vec![sample("a/b", None)]), (3, 0));
    assert_eq!(column_widths(&vec![]), (0, 0));
}

#[test]
fn motd_row_layout() {
    let mut r = sample("group/project", Some("Rust"));
    r.stars_total = Some(1500);
    r.last_activity = Some(1000);
    r.description = Some("A **fast** tool, see [docs](https://x.y) for the details of it all and more".to_string());
    let row = motd_row(&r, 15, 6, 1000 + 3 * 86400);
    assert_eq!(row.icon, "[GL]");
    assert_eq!(row.name, "group/project  ");
    assert_eq!(row.language, "Rust  ");
    assert_eq!(row.stars, "★1500      ");
    assert_eq!(row.recency, "3d ago    ");
    assert_eq!(row.description, "A fast tool, see docs for the details of i...");
    r.stars_today = Some(7);
    r.description = None;
    r.language = None;
    let row = motd_row(&r, 5, 0, 1000);
    assert_eq!(row.name, "gro..");
    assert_eq!(row.language, "-..");
    assert_eq!(row.stars, "★7    today");
    assert_eq!(row.recency, "today     ");
    assert_eq!(row.description, "");
}
