use twir_scraper::collect::{collect_articles, FetchError};

/// Issue page markup whose first list holds the given articles.
fn issue_page(entries: &[(&str, &str)]) -> String {
    let mut page = String::new();
    page.push_str("<html><body><div id=\"news-blog-posts\"><ul>");
    for (title, url) in entries {
        page.push_str(&format!("<li><a href=\"{}\">{}</a></li>", url, title));
    }
    page.push_str("</ul></div></body></html>");
    page
}

#[test]
fn test_collect_merges_in_issue_order() {
    let page_a = issue_page(&[("Alpha", "https://example.org/alpha"), ("Beta", "https://example.org/beta")]);
    let page_b = issue_page(&[("Gamma", "https://example.org/gamma")]);
    let outcomes = vec![Ok(page_a), Ok(page_b)];

    let articles = collect_articles(outcomes);
    assert_eq!(articles.len(), 3);
    assert_eq!(articles[0].title, "Alpha".to_owned());
    assert_eq!(articles[0].url, "https://example.org/alpha".to_owned());
    assert_eq!(articles[1].title, "Beta".to_owned());
    assert_eq!(articles[2].title, "Gamma".to_owned());
}

#[test]
fn test_collect_failed_fetch_contributes_nothing() {
    let page_a = issue_page(&[("Alpha", "https://example.org/alpha")]);
    let page_b = issue_page(&[("Beta", "https://example.org/beta"), ("Gamma", "https://example.org/gamma")]);
    let outcomes = vec![
        Ok(page_a),
        Err(FetchError { message: String::from("connection refused") }),
        Ok(page_b),
    ];

    let articles = collect_articles(outcomes);
    assert_eq!(articles.len(), 3);
    assert_eq!(articles[0].title, "Alpha".to_owned());
    assert_eq!(articles[1].title, "Beta".to_owned());
    assert_eq!(articles[2].title, "Gamma".to_owned());
}

#[test]
fn test_collect_all_fetches_failed() {
    let outcomes: Vec<Result<String, FetchError>> = vec![
        Err(FetchError { message: String::from("timeout") }),
        Err(FetchError { message: String::from("bad status") }),
    ];

    let articles = collect_articles(outcomes);
    assert!(articles.is_empty());
}

#[test]
fn test_collect_no_issues() {
    let outcomes: Vec<Result<String, FetchError>> = Vec::new();

    let articles = collect_articles(outcomes);
    assert!(articles.is_empty());
}

#[test]
fn test_collect_counts_sum_per_page() {
    let page_a = issue_page(&[
        ("One", "https://example.org/1"),
        ("Two", "https://example.org/2"),
        ("Three", "https://example.org/3"),
    ]);
    let page_b = issue_page(&[]);
    let page_c = issue_page(&[("Four", "https://example.org/4")]);
    let outcomes = vec![Ok(page_a), Ok(page_b), Ok(page_c)];

    let articles = collect_articles(outcomes);
    assert_eq!(articles.len(), 4);
    assert_eq!(articles[3].title, "Four".to_owned());
}
