//! Per-domain policy state: cached robots.txt, robots refresh cooldown, and
//! the per-domain crawl cooldown.
use crate::DOMAIN_CRAWL_COOLDOWN;
use crate::ROBOTS_FETCH_COOLDOWN;
use vstd::prelude::*;
use vstd::string::StrSliceExecFns;

verus! {

/// What `robotstxt::DefaultMatcher::one_agent_allowed_by_robots` decides for
/// a robots.txt body, a user agent and a URL; a fresh matcher decides from
/// these three alone.
pub uninterp spec fn robots_allowed(robots: Seq<char>, user_agent: Seq<char>, url: Seq<char>) -> bool;

/// Relies on `robotstxt::DefaultMatcher::one_agent_allowed_by_robots`: a
/// fresh matcher decides from the robots body, the agent and the URL alone.
#[verifier::external_body]
fn robots_check(robots: &str, user_agent: &str, url: &str) -> (r: bool)
    ensures
        r == robots_allowed(robots@, user_agent@, url@),
{
    let mut matcher = robotstxt::DefaultMatcher::default();
    matcher.one_agent_allowed_by_robots(robots, user_agent, url)
}

/// The policy state kept for one domain. Instants are Unix milliseconds.
pub struct Website {
    /// The domain this state belongs to.
    pub domain: String,
    /// The cached robots.txt body; `None` means not fetched, fetch failed, or
    /// the origin served no usable robots file.
    pub robots: Option<String>,
    /// When a robots.txt fetch attempt last completed.
    pub last_robots_fetch: Option<i64>,
    /// When a crawl of this domain last began.
    pub last_crawl: Option<i64>,
}

/// The outcome of the politeness check for one task.
#[derive(PartialEq, Eq, Structural, Clone, Copy, Debug)]
pub enum CrawlDecision {
    /// Robots.txt disallows the URL: drop the task.
    RobotsDenied,
    /// The domain was crawled less than the cooldown ago: re-enqueue the task.
    Cooldown,
    /// The crawl may proceed; the last-crawl instant has been taken.
    Proceed,
}

impl Website {
    /// Recorded instants are non-negative and not in the future of `now`.
    pub open spec fn inv_at(self, now: i64) -> bool {
        &&& match self.last_robots_fetch {
            Some(t) => 0 <= t <= now,
            None => true,
        }
        &&& match self.last_crawl {
            Some(t) => 0 <= t <= now,
            None => true,
        }
    }

    /// Whether robots.txt is due to be fetched at `now`: it never was, or the
    /// last attempt completed at least the refresh cooldown ago.
    pub open spec fn spec_should_fetch_robots(self, now: i64) -> bool {
        match self.last_robots_fetch {
            None => true,
            Some(t) => now - t >= ROBOTS_FETCH_COOLDOWN,
        }
    }

    /// Whether the cached robots.txt allows `user_agent` to fetch `url`;
    /// a domain without a cached body is allowed.
    pub open spec fn spec_is_crawlable(self, user_agent: Seq<char>, url: Seq<char>) -> bool {
        match self.robots {
            Some(robots) => robots_allowed(robots@, user_agent, url),
            None => true,
        }
    }

    /// What the politeness check decides at `now`.
    pub open spec fn spec_decision(self, user_agent: Seq<char>, url: Seq<char>, now: i64) -> CrawlDecision {
        if !self.spec_is_crawlable(user_agent, url) {
            CrawlDecision::RobotsDenied
        } else {
            match self.last_crawl {
                Some(t) => if now - t < DOMAIN_CRAWL_COOLDOWN {
                    CrawlDecision::Cooldown
                } else {
                    CrawlDecision::Proceed
                },
                None => CrawlDecision::Proceed,
            }
        }
    }

    /// Fresh state for a domain: nothing fetched, nothing crawled.
    pub fn new(domain: String) -> (w: Website)
        ensures
            w.domain == domain,
            w.robots is None,
            w.last_robots_fetch is None,
            w.last_crawl is None,
    {
        Website { domain, robots: None, last_robots_fetch: None, last_crawl: None }
    }

    /// Whether robots.txt should be fetched (again) at `now`.
    pub fn should_fetch_robots(&self, now: i64) -> (r: bool)
        requires
            self.inv_at(now),
        ensures
            r == self.spec_should_fetch_robots(now),
    {
        match &self.last_robots_fetch {
            Some(t) => now - *t >= ROBOTS_FETCH_COOLDOWN,
            None => true,
        }
    }

    /// Record that a robots.txt fetch attempt completed at `now` with the
    /// given body (`None` when the origin served none).
    pub fn set_robots(&mut self, text: Option<String>, now: i64)
        ensures
            final(self).domain == old(self).domain,
            final(self).robots == text,
            final(self).last_robots_fetch == Some(now),
            final(self).last_crawl == old(self).last_crawl,
    {
        self.last_robots_fetch = Some(now);
        self.robots = text;
    }

    /// Whether the cached robots.txt allows `user_agent` to fetch `url`.
    pub fn is_crawlable(&self, user_agent: &str, url: &str) -> (r: bool)
        ensures
            r == self.spec_is_crawlable(user_agent@, url@),
    {
        match &self.robots {
            Some(robots) => robots_check(robots.as_str(), user_agent, url),
            None => true,
        }
    }

    /// The politeness check for one task at `now`: robots.txt first, then the
    /// per-domain crawl cooldown. On `Proceed` the last-crawl instant is set
    /// to `now`; otherwise the state is unchanged.
    pub fn decide_crawl(&mut self, user_agent: &str, url: &str, now: i64) -> (d: CrawlDecision)
        requires
            old(self).inv_at(now),
            now >= 0,
        ensures
            d == old(self).spec_decision(user_agent@, url@, now),
            final(self).domain == old(self).domain,
            final(self).robots == old(self).robots,
            final(self).last_robots_fetch == old(self).last_robots_fetch,
            d is Proceed ==> final(self).last_crawl == Some(now),
            !(d is Proceed) ==> final(self).last_crawl == old(self).last_crawl,
            final(self).inv_at(now),
    {
        if !self.is_crawlable(user_agent, url) {
            return CrawlDecision::RobotsDenied;
        }
        match &self.last_crawl {
            Some(t) => {
                if now - *t < DOMAIN_CRAWL_COOLDOWN {
                    return CrawlDecision::Cooldown;
                }
            },
            None => {},
        }
        self.last_crawl = Some(now);
        CrawlDecision::Proceed
    }
}

/// Decide what to keep of a completed robots.txt fetch: only a successful
/// response is kept, and a body that begins with `<` (the origin answered
/// with HTML) is discarded.
pub fn accept_robots_body(status: u16, body: String) -> (r: Option<String>)
    ensures
        r == (if 200 <= status < 300 && !(body@.len() > 0 && body@[0] == '<') {
            Some(body)
        } else {
            Option::<String>::None
        }),
{
    if !(200 <= status && status < 300) {
        return None;
    }
    let s = body.as_str();
    if s.unicode_len() > 0 && s.get_char(0) == '<' {
        return None;
    }
    Some(body)
}

} // verus!
