use crawler_core::registry::DomainRegistry;
use crawler_core::scrape::calculate_seo_score;
use crawler_core::scrape::is_denied_href;
use crawler_core::scrape::scrape_page;
use crawler_core::scrape::ScrapedPage;
use crawler_core::store::Store;
use crawler_core::visited::VisitedSet;
use crawler_core::website::CrawlDecision;
use crawler_core::worker::classify_head;
use crawler_core::worker::get_content_type;
use crawler_core::worker::handle_net_error;
use crawler_core::worker::handle_redirect;
use crawler_core::worker::make_task;
use crawler_core::worker::process_body;
use crawler_core::worker::save_to_queue;
use crawler_core::worker::HeadDecision;
use crawler_core::worker::NetError;
use crawler_core::worker::Task;

const PAGE: &str = "<html><head>\n\
<title> The Example Page </title>\n\
<meta name=\"description\" content=\" A page about examples. \">\n\
<meta property=\"og:image\" content=\"https://a.com/img/preview.png\">\n\
<meta name=\"theme-color\" content=\"#a1b2c3d4\">\n\
<link rel=\"icon\" href=\"/favicon.png\">\n\
</head><body>\n\
<h1>Examples</h1>\n\
<p>HELLO World 42 this IS text</p>\n\
<script>var x = 0;</script>\n\
<a href=\"/one\">one</a>\n\
<a href=\"/one#frag\">one again</a>\n\
<a href=\"https://b.com/two?q=1\">two</a>\n\
<a href=\"/pic.jpg\">a picture</a>\n\
<a href=\"/archive.tar.gz\">an archive</a>\n\
</body></html>";

#[test]
fn scrape_extracts_links_without_denied_extensions() {
    let page = scrape_page("a.com".into(), "https://a.com/".into(), PAGE.into());
    assert_eq!(
        page.links,
        vec![
            "https://a.com/one".to_string(),
            "https://b.com/two".to_string(),
        ]
    );
    assert!(page.has_h1);
    assert_eq!(page.title.as_deref(), Some("The Example Page"));
    assert_eq!(page.favicon_url.as_deref(), Some("https://a.com/favicon.png"));
    assert_eq!(
        page.meta_description.as_deref(),
        Some("A page about examples.")
    );
    assert_eq!(page.meta_keywords, None);
    assert_eq!(page.meta_theme_color.as_deref(), Some("#a1b2c3d4"));
    assert_eq!(
        page.meta_og_image.as_deref(),
        Some("https://a.com/img/preview.png")
    );
    assert!(page.html_length > 0);
    assert_eq!(page.html, None);
    let content = page.content.unwrap();
    assert!(content.starts_with("examples hello world this is text"));
    assert!(!content.contains("42"));
    assert!(!content.contains("script"));
}

#[test]
fn scrape_is_pure() {
    let a = scrape_page("a.com".into(), "https://a.com/".into(), PAGE.into());
    let b = scrape_page("a.com".into(), "https://a.com/".into(), PAGE.into());
    assert_eq!(a.title, b.title);
    assert_eq!(a.favicon_url, b.favicon_url);
    assert_eq!(a.content, b.content);
    assert_eq!(a.html_length, b.html_length);
    assert_eq!(a.links, b.links);
    assert_eq!(a.has_h1, b.has_h1);
    assert_eq!(a.meta_description, b.meta_description);
    assert_eq!(a.meta_keywords, b.meta_keywords);
    assert_eq!(a.meta_theme_color, b.meta_theme_color);
    assert_eq!(a.meta_og_image, b.meta_og_image);
}

#[test]
fn absolute_favicon_links_are_kept_as_is() {
    let html = "<html><head><link rel=\"shortcut icon\" href=\"http://cdn.a.com/i.png\"></head><body></body></html>";
    let page = scrape_page("a.com".into(), "https://a.com/".into(), html.into());
    assert_eq!(page.favicon_url.as_deref(), Some("http://cdn.a.com/i.png"));
}

#[test]
fn denied_extension_test_is_a_raw_suffix_match() {
    assert!(is_denied_href("/pic.jpg"));
    assert!(is_denied_href("movie.webm"));
    assert!(is_denied_href("/a/b/archive.tar.gz"));
    assert!(!is_denied_href("/pic.jpg?x=1"));
    assert!(!is_denied_href("/pic.JPG"));
    assert!(!is_denied_href("/page.html"));
}

fn scraped(
    title: Option<&str>,
    description: Option<String>,
    keywords: Option<&str>,
    og_image: Option<&str>,
    has_h1: bool,
    links: usize,
) -> ScrapedPage {
    ScrapedPage {
        title: title.map(String::from),
        favicon_url: None,
        content: None,
        html: None,
        html_length: 0,
        links: (0..links).map(|i| format!("https://a.com/{i}")).collect(),
        has_h1,
        meta_description: description,
        meta_keywords: keywords.map(String::from),
        meta_theme_color: None,
        meta_og_image: og_image.map(String::from),
    }
}

#[test]
fn seo_score_adds_up_and_is_clamped() {
    // title + description of length 100 + h1 + 6 links
    let p = scraped(Some("t"), Some("d".repeat(100)), None, None, true, 6);
    assert_eq!(calculate_seo_score(&p), 25 + 20 + 5 + 10 + 10);
    // nothing at all
    let p = scraped(None, None, None, None, false, 0);
    assert_eq!(calculate_seo_score(&p), 0);
    // everything: 25 + 25 + 20 + 10 + 10 + 10 == 100
    let p = scraped(
        Some("t"),
        Some("d".repeat(60)),
        Some("k"),
        Some("o"),
        true,
        5,
    );
    assert_eq!(calculate_seo_score(&p), 100);
    // a short description earns no length bonus
    let p = scraped(None, Some("d".repeat(49)), None, None, false, 0);
    assert_eq!(calculate_seo_score(&p), 20);
    // a long one neither
    let p = scraped(None, Some("d".repeat(161)), None, None, false, 0);
    assert_eq!(calculate_seo_score(&p), 20);
}

#[test]
fn make_task_canonicalizes_and_filters_schemes() {
    let t = make_task(7, "https://a.com/x?q=1#f").unwrap();
    assert_eq!(t.id, 7);
    assert_eq!(t.domain, "a.com");
    assert_eq!(t.url, "https://a.com/x");
    assert!(make_task(1, "ftp://a.com/x").is_none());
    assert!(make_task(1, "not a url").is_none());
    assert!(make_task(1, "https://127.0.0.1/x").is_none());
}

#[test]
fn content_type_gate() {
    assert_eq!(
        get_content_type(Some("text/html; charset=utf-8"), "https://a.com/x").as_deref(),
        Some("text/html")
    );
    assert_eq!(
        get_content_type(Some(" text/html "), "https://a.com/x").as_deref(),
        Some("text/html")
    );
    assert_eq!(
        get_content_type(Some("application/json"), "https://a.com/x"),
        None
    );
    assert_eq!(
        get_content_type(None, "https://a.com/page.html").as_deref(),
        Some("text/html")
    );
    assert_eq!(
        get_content_type(None, "https://a.com/page.htm").as_deref(),
        Some("text/html")
    );
    assert_eq!(get_content_type(None, "https://a.com/page"), None);
}

#[test]
fn head_classification_follows_the_outcome_table() {
    let u = "https://a.com/x";
    assert!(matches!(
        classify_head(u, 503, u, Some("text/html")),
        HeadDecision::ServerError
    ));
    assert!(matches!(
        classify_head(u, 404, u, Some("text/html")),
        HeadDecision::NotCrawlable
    ));
    assert!(matches!(
        classify_head(u, 200, u, Some("text/html")),
        HeadDecision::ReadBody
    ));
    assert!(matches!(
        classify_head(u, 200, u, Some("image/png")),
        HeadDecision::NotHtml
    ));
    match classify_head("http://a.com/x", 200, "https://a.com/x", Some("text/html")) {
        HeadDecision::Redirect { domain, url } => {
            assert_eq!(domain, "a.com");
            assert_eq!(url, "https://a.com/x");
        }
        other => panic!("expected a redirect, got {other:?}"),
    }
}

fn task(id: i32, domain: &str, url: &str) -> Task {
    Task {
        id,
        domain: domain.into(),
        url: url.into(),
    }
}

#[test]
fn redirect_discovery_enqueues_the_new_url_only() {
    let mut visited = VisitedSet::new();
    let mut store = Store::new();
    visited.insert("http://a.com/x".into());
    let queued = handle_redirect(
        &mut visited,
        &mut store,
        "a.com".into(),
        "https://a.com/x".into(),
        1_000,
    );
    assert!(queued);
    assert_eq!(store.pages.len(), 0);
    assert_eq!(store.queue.len(), 1);
    assert_eq!(store.queue[0].url, "https://a.com/x");
    assert_eq!(store.queue[0].domain, "a.com");
    // the redirected-from URL stays visited
    assert!(visited.contains("http://a.com/x"));
    // an already-visited target is not enqueued again
    let queued = handle_redirect(
        &mut visited,
        &mut store,
        "a.com".into(),
        "http://a.com/x".into(),
        2_000,
    );
    assert!(!queued);
    assert_eq!(store.queue.len(), 1);
}

#[test]
fn timeouts_retry_and_other_net_errors_drop() {
    let mut visited = VisitedSet::new();
    let mut store = Store::new();
    let t = task(1, "a.com", "https://a.com/x");
    visited.insert(t.url.clone());
    assert!(!handle_net_error(
        &mut visited,
        &mut store,
        &t,
        NetError::Connect,
        1_000
    ));
    assert!(visited.contains(&t.url));
    assert_eq!(store.queue.len(), 0);
    assert!(handle_net_error(
        &mut visited,
        &mut store,
        &t,
        NetError::Timeout,
        2_000
    ));
    assert!(!visited.contains(&t.url));
    assert_eq!(store.queue.len(), 1);
    assert_eq!(store.queue[0].url, "https://a.com/x");
    assert_eq!(store.queue[0].timestamp, 2_000);
}

#[test]
fn save_to_queue_inserts_at_most_one_row_per_url() {
    let mut visited = VisitedSet::new();
    let mut store = Store::new();
    for now in [1_000, 2_000, 3_000] {
        save_to_queue(
            &mut visited,
            &mut store,
            "a.com".into(),
            "https://a.com/x".into(),
            now,
        );
    }
    assert_eq!(store.queue.len(), 1);
    assert_eq!(store.queue[0].timestamp, 1_000);
    save_to_queue(
        &mut visited,
        &mut store,
        "a.com".into(),
        "https://a.com/y".into(),
        4_000,
    );
    assert_eq!(store.queue.len(), 2);
}

#[test]
fn politeness_cooldown_reenqueues_the_second_task() {
    let mut registry = DomainRegistry::new();
    let mut visited = VisitedSet::new();
    let mut store = Store::new();
    let mut fetches = 0;

    for (url, now) in [("https://a.com/1", 1_000i64), ("https://a.com/2", 5_000)] {
        let i = registry.get_or_insert("a.com".into());
        match registry.decide_crawl_at(i, "ua", url, now) {
            CrawlDecision::Proceed => fetches += 1,
            CrawlDecision::Cooldown => {
                save_to_queue(&mut visited, &mut store, "a.com".into(), url.into(), now);
            }
            CrawlDecision::RobotsDenied => panic!("no robots body was set"),
        }
    }
    // exactly one fetch; the second task is back in the persistent queue
    assert_eq!(fetches, 1);
    assert_eq!(store.queue.len(), 1);
    assert_eq!(store.queue[0].url, "https://a.com/2");
}

#[test]
fn successful_fetch_persists_page_favicon_and_links() {
    let mut visited = VisitedSet::new();
    let mut store = Store::new();
    let t = task(1, "a.com", "https://a.com/");
    visited.insert("https://b.com/two".into());

    let stored = process_body(&visited, &mut store, &t, PAGE.into(), 200, 35, 9_000);
    assert!(stored);

    assert_eq!(store.pages.len(), 1);
    let row = &store.pages[0];
    assert_eq!(row.data.url, "https://a.com/");
    assert_eq!(row.data.domain, "a.com");
    assert_eq!(row.data.title.as_deref(), Some("The Example Page"));
    assert_eq!(row.data.content_type, "text/html");
    assert_eq!(row.data.status_code, 200);
    assert_eq!(row.data.response_time, 35);
    assert_eq!(row.data.last_crawled, 9_000);
    assert_eq!(row.data.last_indexed, None);
    assert_eq!(row.data.body, None);
    assert!(row.data.body_length > 0);
    // the leading '#' of the theme color is stripped and capped at 6 bytes
    assert_eq!(row.data.meta_theme_color.as_deref(), Some("a1b2c3"));
    // title + description + h1: no keyword, og:image yes, fewer than 5 links
    assert_eq!(row.data.seo_score, 25 + 20 + 10 + 10);

    // the favicon was upserted and the page points at it
    assert_eq!(store.favicons.len(), 1);
    assert_eq!(store.favicons[0].url, "https://a.com/favicon.png");
    assert_eq!(row.data.favicon_id, store.favicons[0].id);

    // only the unvisited link was enqueued
    assert_eq!(store.queue.len(), 1);
    assert_eq!(store.queue[0].url, "https://a.com/one");
    assert_eq!(store.queue[0].domain, "a.com");
    assert_eq!(store.queue[0].timestamp, 9_000);

    // a second page with the same favicon URL reuses the favicon row
    let t2 = task(2, "a.com", "https://a.com/one");
    let stored = process_body(&visited, &mut store, &t2, PAGE.into(), 200, 12, 20_000);
    assert!(stored);
    assert_eq!(store.favicons.len(), 1);
    assert_eq!(store.pages.len(), 2);
    // conflicting queue URLs stay untouched
    assert_eq!(store.queue.len(), 1);
    assert_eq!(store.queue[0].timestamp, 9_000);
}

#[test]
fn long_favicon_urls_fall_back_to_the_default() {
    let long = format!(
        "<html><head><link rel=\"icon\" href=\"https://a.com/{}.png\"></head><body></body></html>",
        "x".repeat(2100)
    );
    let visited = VisitedSet::new();
    let mut store = Store::new();
    let t = task(1, "a.com", "https://a.com/");
    let stored = process_body(&visited, &mut store, &t, long, 200, 1, 1_000);
    assert!(stored);
    assert_eq!(store.favicons[0].url, "https://a.com/favicon.ico");
}

#[test]
fn overlong_links_are_skipped_by_save_page() {
    let long_path = "y".repeat(2100);
    let html = format!(
        "<html><body><a href=\"/ok\">a</a><a href=\"/{long_path}\">b</a></body></html>"
    );
    let visited = VisitedSet::new();
    let mut store = Store::new();
    let t = task(1, "a.com", "https://a.com/");
    assert!(process_body(&visited, &mut store, &t, html, 200, 1, 1_000));
    assert_eq!(store.queue.len(), 1);
    assert_eq!(store.queue[0].url, "https://a.com/ok");
}

#[test]
fn dequeue_batch_drains_newest_first() {
    let mut store = Store::new();
    let mut visited = VisitedSet::new();
    for (domain, url, now) in [
        ("a.com", "https://a.com/1", 1_000i64),
        ("a.com", "https://a.com/2", 3_000),
        ("b.com", "https://b.com/1", 2_000),
    ] {
        save_to_queue(
            &mut visited,
            &mut store,
            domain.into(),
            url.into(),
            now,
        );
    }
    let batch = store.dequeue_batch();
    assert_eq!(batch.len(), 3);
    assert_eq!(store.queue.len(), 0);
    let stamps: Vec<i64> = batch.iter().map(|r| r.timestamp).collect();
    assert_eq!(stamps, vec![3_000, 2_000, 1_000]);
    // a drained queue yields an empty batch
    assert!(store.dequeue_batch().is_empty());
}

#[test]
fn favicon_upsert_keeps_urls_unique() {
    let mut store = Store::new();
    let visited = VisitedSet::new();
    let html = "<html><head><link rel=\"icon\" href=\"https://cdn.a.com/i.png\"></head><body></body></html>";
    for (id, url) in [(1, "https://a.com/"), (2, "https://a.com/x")] {
        let t = task(id, "a.com", url);
        assert!(process_body(
            &visited,
            &mut store,
            &t,
            html.into(),
            200,
            1,
            1_000
        ));
    }
    assert_eq!(store.favicons.len(), 1);
    assert_eq!(store.pages.len(), 2);
    assert_eq!(store.pages[0].data.favicon_id, store.pages[1].data.favicon_id);
}

#[test]
fn store_reports_queued_urls_and_seeds() {
    let mut visited = VisitedSet::new();
    let mut store = Store::new();
    save_to_queue(
        &mut visited,
        &mut store,
        "a.com".into(),
        "https://a.com/x".into(),
        1_000,
    );
    assert!(store.queue_contains_url("https://a.com/x"));
    assert!(!store.queue_contains_url("https://a.com/y"));
    let t = task(1, "a.com", "https://a.com/x");
    let page = "<html><body><p>some words here</p></body></html>".to_string();
    assert!(process_body(&visited, &mut store, &t, page, 200, 1, 2_000));
    assert_eq!(store.load_visited_urls(), vec!["https://a.com/x".to_string()]);
}
