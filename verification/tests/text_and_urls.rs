use crawler_core::text::extract_words;
use crawler_core::text::safe_slice;
use crawler_core::urls::is_crawlable_url;
use crawler_core::urls::normalize_href;
use crawler_core::urls::normalize_url;
use crawler_core::urls::UrlError;

#[test]
fn test_is_crawlable_url() {
    assert_eq!(is_crawlable_url("https://google.com"), true);
    assert_eq!(is_crawlable_url("http://google.com"), true);
    assert_eq!(is_crawlable_url("https://google.com/hello"), true);
    assert_eq!(is_crawlable_url("sftp://google.com"), false);
    assert_eq!(is_crawlable_url("ws://google.com"), false);
    assert_eq!(is_crawlable_url("wss://google.com"), false);
}

#[test]
fn test_extract_words() {
    assert_eq!(extract_words("a b c 1 2 3").unwrap(), Vec::<String>::new());
    assert_eq!(extract_words("aa b c 1 2 3456").unwrap(), vec!["aa"]);
    assert_eq!(
        extract_words("Hello my friend!").unwrap(),
        vec!["my", "friend"]
    );
    assert_eq!(extract_words("t1a2b3").unwrap(), Vec::<String>::new());
    assert_eq!(
        extract_words("This1 is2 very strange3").unwrap(),
        vec!["very"]
    );
    assert_eq!(
        extract_words("Wii sports resort is the BEST game ever!").unwrap(),
        vec!["sports", "resort", "is", "the", "game", "ever"]
    );
    assert_eq!(
        extract_words("This, should. work, i. think!").unwrap(),
        vec!["should", "work", "think"]
    );
}

#[test]
fn test_safe_slice() {
    assert_eq!(safe_slice("abc123", 6), "abc123");
    assert_eq!(safe_slice("", 6), "");
    assert_eq!(safe_slice("abc123", 5), "abc12");
    assert_eq!(safe_slice("abc123", 7), "abc123");
    assert_eq!(safe_slice("abc123def", 6), "abc123");
    assert_eq!(safe_slice("abc123def", 0), "");
    assert_eq!(safe_slice("", 0), "");
    assert_eq!(safe_slice("abc12é", 6), "abc12");
    assert_eq!(safe_slice("éééééé", 6), "ééé");
}

#[test]
fn test_normalize_url() {
    assert_eq!(normalize_url("google").is_none(), true);
    assert_eq!(normalize_url("google.com").is_none(), true);
    assert_eq!(normalize_url("/google.com").is_none(), true);
    assert_eq!(normalize_url("//google.com").is_none(), true);
    assert_eq!(
        normalize_url("https://google.com").unwrap().0,
        "https://google.com/"
    );
    assert_eq!(
        normalize_url("https://google.com/about#cc?a=0").unwrap().0,
        "https://google.com/about"
    );
    assert_eq!(
        normalize_url("https://google.com/about?a").unwrap().0,
        "https://google.com/about"
    );
}

#[test]
fn test_normalize_href() {
    assert_eq!(
        normalize_href("https://google.com", "/about").unwrap(),
        "https://google.com/about"
    );
    assert_eq!(
        normalize_href("https://google.com", "https://wikipedia.org").unwrap(),
        "https://wikipedia.org/"
    );
    assert_eq!(
        normalize_href("https://sub.google.com", "hello").unwrap(),
        "https://sub.google.com/hello"
    );
    assert_eq!(
        normalize_href("https://google.com", "#a").unwrap(),
        "https://google.com/"
    );
    assert_eq!(
        normalize_href("https://google.com", "sftp://example.com").unwrap(),
        "sftp://example.com"
    );
}

#[test]
fn canonicalization_returns_url_and_domain() {
    let (url, domain) = normalize_url("https://google.com/about#cc?a=0").unwrap();
    assert_eq!(url, "https://google.com/about");
    assert_eq!(domain, "google.com");
}

#[test]
fn canonicalization_is_idempotent() {
    for raw in [
        "https://google.com/about#cc?a=0",
        "http://sub.example.org/a/b?q=1",
        "https://a.com",
        "https://a.com/x/../y",
    ] {
        let (once, d1) = normalize_url(raw).unwrap();
        let (twice, d2) = normalize_url(&once).unwrap();
        assert_eq!(once, twice);
        assert_eq!(d1, d2);
    }
}

#[test]
fn normalize_href_rejects_unresolvable_links() {
    assert_eq!(
        normalize_href("not a url", "relative/path"),
        Err(UrlError::Parse)
    );
}

#[test]
fn ip_hosts_have_no_domain() {
    assert!(normalize_url("https://127.0.0.1/x").is_none());
}
