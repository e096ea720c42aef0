//! The crawler's global guarantees, stated over the spec functions that the
//! public contracts use.
//!
//! Canonicalization idempotence and the scheme restriction are ensured
//! directly on `normalize_url` and `make_task`; scraping purity is ensured on
//! `scrape_page`, whose every field is a function of its inputs. What relates
//! several functions or calls is proved here.
use crate::DOMAIN_CRAWL_COOLDOWN;
use crate::ROBOTS_FETCH_COOLDOWN;
use crate::scrape::collect_links;
use crate::scrape::href_canon_of_page;
use crate::scrape::sel_attr_list;
use crate::scrape::spec_denied_href;
use crate::scrape::spec_links;
use crate::store::Store;
use crate::store::favicon_id_exists;
use crate::store::queue_count_url;
use crate::store::QueueRow;
use crate::urls::href_canon;
use crate::website::Website;
use vstd::prelude::*;

verus! {

/// Law: the visited set guards dispatch. A worker fetches a URL only after
/// claiming it, a claim succeeds only when the URL is absent, and a claim
/// leaves the URL present; so after one successful claim, a second claim of
/// the same URL fails until the URL is removed, and no two workers fetch the
/// same URL concurrently.
pub proof fn lemma_visited_guards_dispatch(
    before: Set<Seq<char>>,
    url: Seq<char>,
    first_claimed: bool,
    second_claimed: bool,
)
    requires
        first_claimed == !before.contains(url),
        second_claimed == !before.insert(url).contains(url),
    ensures
        !second_claimed,
{
}

/// Law: between any two crawls of the same domain that the politeness check
/// lets proceed, at least the domain crawl cooldown elapses. The first
/// proceeding check stamps its instant into the state; the second proceeds
/// only once the cooldown has passed that stamp.
pub proof fn lemma_domain_crawl_cooldown(
    w: Website,
    user_agent1: Seq<char>,
    url1: Seq<char>,
    user_agent2: Seq<char>,
    url2: Seq<char>,
    t1: i64,
    t2: i64,
)
    requires
        w.inv_at(t1),
        0 <= t1 <= t2,
        w.spec_decision(user_agent1, url1, t1) is Proceed,
        (Website { last_crawl: Some(t1), ..w }).spec_decision(user_agent2, url2, t2) is Proceed,
    ensures
        t2 - t1 >= DOMAIN_CRAWL_COOLDOWN,
{
}

/// Law: robots.txt is fetched at most once per refresh cooldown per domain.
/// A fetch is permitted only when the check says it is due, and a completed
/// fetch stamps its instant; a second fetch is due only once the refresh
/// cooldown has passed that stamp. (A fetch that fails at the network level
/// records nothing, so a hard-down robots host may be probed again sooner;
/// this law covers completed attempts.)
pub proof fn lemma_robots_fetch_cooldown(w: Website, body: Option<String>, t1: i64, t2: i64)
    requires
        w.inv_at(t1),
        0 <= t1 <= t2,
        w.spec_should_fetch_robots(t1),
        (Website { robots: body, last_robots_fetch: Some(t1), ..w }).spec_should_fetch_robots(t2),
    ensures
        t2 - t1 >= ROBOTS_FETCH_COOLDOWN,
{
}

proof fn lemma_collect_links_sources(url: Seq<char>, hrefs: Seq<Seq<char>>, acc: Seq<Seq<char>>)
    ensures
        forall|i: int|
            0 <= i < collect_links(url, hrefs, acc).len() ==> acc.contains(
                #[trigger] collect_links(url, hrefs, acc)[i],
            ) || href_canon_of_page(collect_links(url, hrefs, acc)[i], url, hrefs),
    decreases hrefs.len(),
{
    if hrefs.len() > 0 {
        let h = hrefs[0];
        let step = if !spec_denied_href(h) {
            match href_canon(url, h) {
                Some(u) => if acc.contains(u) {
                    acc
                } else {
                    acc.push(u)
                },
                None => acc,
            }
        } else {
            acc
        };
        lemma_collect_links_sources(url, hrefs.drop_first(), step);
        let res = collect_links(url, hrefs, acc);
        assert(res == collect_links(url, hrefs.drop_first(), step));
        assert forall|i: int|
            0 <= i < res.len() implies acc.contains(#[trigger] res[i]) || href_canon_of_page(
            res[i],
            url,
            hrefs,
        ) by {
            let l = res[i];
            assert(collect_links(url, hrefs.drop_first(), step)[i] == l);
            if step.contains(l) {
                if !acc.contains(l) {
                    let m = choose|m: int| 0 <= m < step.len() && step[m] == l;
                    if m < acc.len() {
                        assert(acc[m] == l);
                    } else {
                        assert(!spec_denied_href(hrefs[0]) && href_canon(url, hrefs[0]) == Some(l));
                    }
                }
            } else {
                assert(href_canon_of_page(l, url, hrefs.drop_first()));
                let k = choose|k: int|
                    0 <= k < hrefs.drop_first().len() && !spec_denied_href(
                        #[trigger] hrefs.drop_first()[k],
                    ) && href_canon(url, hrefs.drop_first()[k]) == Some(l);
                assert(hrefs[k + 1] == hrefs.drop_first()[k]);
            }
        }
    }
}

/// Law: no queue row is ever created by `save_page` for an href on the
/// extension deny-list. Every link a scrape collects is the resolution of
/// some href of the page that is not denied, and `save_page` enqueues rows
/// only for the collected links.
pub proof fn lemma_denied_hrefs_never_collected(url: Seq<char>, page: Seq<char>)
    ensures
        forall|i: int|
            0 <= i < spec_links(url, page).len() ==> href_canon_of_page(
                #[trigger] spec_links(url, page)[i],
                url,
                sel_attr_list(page, "a[href]"@, "href"@),
            ),
{
    lemma_collect_links_sources(url, sel_attr_list(page, "a[href]"@, "href"@), Seq::empty());
}

proof fn lemma_count_url_zero(q: Seq<QueueRow>, u: Seq<char>)
    requires
        forall|i: int| 0 <= i < q.len() ==> (#[trigger] q[i]).url@ != u,
    ensures
        queue_count_url(q, u) == 0,
    decreases q.len(),
{
    if q.len() > 0 {
        assert forall|i: int| 0 <= i < q.drop_first().len() implies (
        #[trigger] q.drop_first()[i]).url@ != u by {
            assert(q.drop_first()[i] == q[i + 1]);
        }
        lemma_count_url_zero(q.drop_first(), u);
    }
}

/// Law: however many times `save_to_queue` is called for a URL, the queue
/// holds at most one row for it: a well-formed store never repeats a queue
/// URL, and every store operation preserves well-formedness.
pub proof fn lemma_queue_row_unique(s: Store, u: Seq<char>)
    requires
        s.wf(),
    ensures
        queue_count_url(s.queue@, u) <= 1,
{
    lemma_unique_count(s.queue@, u);
}

proof fn lemma_unique_count(q: Seq<QueueRow>, u: Seq<char>)
    requires
        forall|i: int, j: int| 0 <= i < j < q.len() ==> q[i].url@ != q[j].url@,
    ensures
        queue_count_url(q, u) <= 1,
    decreases q.len(),
{
    if q.len() > 0 {
        let rest = q.drop_first();
        assert forall|i: int, j: int| 0 <= i < j < rest.len() implies rest[i].url@
            != rest[j].url@ by {
            assert(rest[i] == q[i + 1] && rest[j] == q[j + 1]);
        }
        if q[0].url@ == u {
            assert forall|i: int| 0 <= i < rest.len() implies (#[trigger] rest[i]).url@ != u by {
                assert(rest[i] == q[i + 1]);
            }
            lemma_count_url_zero(rest, u);
        } else {
            lemma_unique_count(rest, u);
        }
    }
}

/// Law: every page row of a well-formed store refers to a favicon row that
/// exists; `save_page` establishes this for the row it inserts and preserves
/// it for the rest.
pub proof fn lemma_page_favicon_integrity(s: Store, i: int)
    requires
        s.wf(),
        0 <= i < s.pages@.len(),
    ensures
        favicon_id_exists(s.favicons@, s.pages@[i].data.favicon_id),
{
}

} // verus!

