use crawler_core::clock::get_sql_timestamp;
use crawler_core::clock::get_timestamp;
use crawler_core::registry::DomainRegistry;
use crawler_core::types::StatisticType;
use crawler_core::types::VoteType;
use crawler_core::visited::VisitedSet;
use crawler_core::website::accept_robots_body;
use crawler_core::website::CrawlDecision;
use crawler_core::website::Website;

#[test]
fn test_is_crawlable() {
    let mut website = Website::new("google.com".into());

    website.robots =
        Some("User-agent: *\nDisallow: /api\n\nSitemap: https://google.com/sitemap.xml".into());
    assert_eq!(website.is_crawlable("Epsilon", "/"), true);
    assert_eq!(website.is_crawlable("Epsilon", "/hello"), true);
    assert_eq!(website.is_crawlable("Epsilon", "/api"), false);
    assert_eq!(website.is_crawlable("Epsilon", "/api/v0"), false);

    website.robots = Some("User-agent: *\nDisallow: /api\n\nUser-agent: Epsilon\nDisallow: /home\n\nSitemap: https://google.com/sitemap.xml".into());
    assert_eq!(website.is_crawlable("Other", "/"), true);
    assert_eq!(website.is_crawlable("Other", "/home"), true);
    assert_eq!(website.is_crawlable("Other", "/api"), false);
    assert_eq!(website.is_crawlable("Epsilon", "/"), true);
    assert_eq!(website.is_crawlable("Epsilon", "/home"), false);
    assert_eq!(website.is_crawlable("Epsilon", "/api"), true);
}

#[test]
fn robots_refresh_is_due_once_per_day() {
    let mut website = Website::new("a.com".into());
    assert!(website.should_fetch_robots(1_000));
    website.set_robots(Some("User-agent: *\nAllow: /".into()), 1_000);
    assert!(!website.should_fetch_robots(1_001));
    assert!(!website.should_fetch_robots(1_000 + 86_400_000 - 1));
    assert!(website.should_fetch_robots(1_000 + 86_400_000));
}

#[test]
fn robots_body_kept_only_on_success_and_plain_text() {
    assert_eq!(
        accept_robots_body(200, "User-agent: *\nDisallow:".into()),
        Some("User-agent: *\nDisallow:".to_string())
    );
    assert_eq!(accept_robots_body(200, "<html>oops</html>".into()), None);
    assert_eq!(accept_robots_body(404, "User-agent: *".into()), None);
    assert_eq!(accept_robots_body(500, "".into()), None);
    assert_eq!(accept_robots_body(204, "".into()), Some(String::new()));
}

#[test]
fn crawl_cooldown_spaces_out_same_domain_fetches() {
    let mut website = Website::new("a.com".into());
    assert!(matches!(
        website.decide_crawl("ua", "https://a.com/1", 1_000),
        CrawlDecision::Proceed
    ));
    assert!(matches!(
        website.decide_crawl("ua", "https://a.com/2", 5_000),
        CrawlDecision::Cooldown
    ));
    assert!(matches!(
        website.decide_crawl("ua", "https://a.com/2", 10_999),
        CrawlDecision::Cooldown
    ));
    assert!(matches!(
        website.decide_crawl("ua", "https://a.com/2", 11_000),
        CrawlDecision::Proceed
    ));
}

#[test]
fn robots_denial_drops_before_cooldown() {
    let mut website = Website::new("a.com".into());
    website.robots = Some("User-agent: *\nDisallow: /api".into());
    assert!(matches!(
        website.decide_crawl("ua", "/api/v1", 1_000),
        CrawlDecision::RobotsDenied
    ));
    // a denied task does not stamp the cooldown
    assert!(matches!(
        website.decide_crawl("ua", "/ok", 1_001),
        CrawlDecision::Proceed
    ));
}

#[test]
fn visited_set_claims_each_url_once() {
    let mut visited = VisitedSet::new();
    assert!(!visited.contains("https://a.com/x"));
    assert!(visited.try_claim("https://a.com/x".into()));
    assert!(!visited.try_claim("https://a.com/x".into()));
    assert!(visited.contains("https://a.com/x"));
    visited.remove("https://a.com/x");
    assert!(!visited.contains("https://a.com/x"));
    assert!(visited.try_claim("https://a.com/x".into()));
}

#[test]
fn visited_set_seeds_from_persisted_urls() {
    let visited = VisitedSet::seeded(vec!["https://a.com/".into(), "https://b.com/".into()]);
    assert!(visited.contains("https://a.com/"));
    assert!(visited.contains("https://b.com/"));
    assert!(!visited.contains("https://c.com/"));
}

#[test]
fn registry_keeps_one_state_per_domain() {
    let mut registry = DomainRegistry::new();
    let i = registry.get_or_insert("a.com".into());
    let j = registry.get_or_insert("b.com".into());
    let k = registry.get_or_insert("a.com".into());
    assert_eq!(i, k);
    assert_ne!(i, j);
    assert_eq!(registry.len(), 2);
    assert_eq!(registry.site_at(i).domain, "a.com");
    assert!(registry.should_fetch_robots_at(i, 0));
    registry.set_robots_at(i, Some("User-agent: *\nAllow: /".into()), 500);
    assert!(!registry.should_fetch_robots_at(i, 600));
    assert!(registry.should_fetch_robots_at(j, 600));
}

#[test]
fn vote_and_statistic_codes_round_trip() {
    assert_eq!(VoteType::Like.code(), 1);
    assert_eq!(VoteType::Dislike.code(), 2);
    assert_eq!(VoteType::try_from(1), Ok(VoteType::Like));
    assert_eq!(VoteType::try_from(2), Ok(VoteType::Dislike));
    assert_eq!(VoteType::try_from(3), Err(3));
    assert_eq!(StatisticType::CrawledPageCount.code(), 1);
    assert_eq!(StatisticType::FaviconsCount.code(), 11);
    assert_eq!(StatisticType::try_from(8), Ok(StatisticType::QueueSize));
    assert_eq!(StatisticType::try_from(0), Err(0));
    assert_eq!(StatisticType::try_from(12), Err(12));
}

#[test]
fn clock_reads_a_present_day_instant() {
    let t = get_sql_timestamp();
    // well after 2020-09-13 in Unix milliseconds
    assert!(t > 1_600_000_000_000);
    let d = get_timestamp();
    assert!(d.as_millis() > 1_600_000_000_000);
}
