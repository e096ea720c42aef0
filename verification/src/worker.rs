//! The worker's decisions: building tasks from queue rows, classifying HTTP
//! outcomes, preparing page rows, and the steps around fetching. The fetch
//! itself is I/O and lives outside the library; each step here is a function
//! from state and outcome to state and action.
use crate::scrape::ScrapedPage;
use crate::scrape::calculate_seo_score;
use crate::scrape::doc_html_len;
use crate::scrape::scrape_page;
use crate::scrape::sel_first_text;
use crate::scrape::seq_ends_with;
use crate::scrape::spec_content;
use crate::scrape::spec_favicon;
use crate::scrape::spec_links;
use crate::scrape::spec_meta;
use crate::scrape::spec_seo_score;
use crate::scrape::spec_title;
use crate::scrape::str_ends_with;
use crate::store::NewFavicon;
use crate::store::NewPage;
use crate::store::QueueRow;
use crate::store::Store;
use crate::store::favicon_id_exists;
use crate::store::favicon_index;
use crate::store::byte_len;
use crate::store::saved_to_queue;
use crate::text::safe_slice;
use crate::text::spec_safe_slice;
use crate::text::trimmed;
use crate::text::trim_str;
use crate::urls::normalize_url;
use crate::urls::is_crawlable_url;
use crate::urls::spec_is_crawlable_url;
use crate::urls::url_canon;
use crate::visited::VisitedSet;
use vstd::assert_by_contradiction;
use vstd::prelude::*;
use vstd::string::StrSliceExecFns;
use vstd::string::StringExecFns;
use vstd::utf8::encode_utf8;

verus! {

/// One unit of work: a queue row whose URL is canonical and crawlable.
#[derive(Clone)]
pub struct Task {
    /// The queue row the task came from.
    pub id: i32,
    /// The domain of the URL.
    pub domain: String,
    /// The canonical URL to fetch.
    pub url: String,
}

/// Build a task from a queue row: canonicalize the URL and reject any whose
/// scheme is not `http` or `https`. A task's URL is always its own canonical
/// form, so no URL is ever dispatched in a non-canonical form.
pub fn make_task(id: i32, raw_url: &str) -> (t: Option<Task>)
    ensures
        match t {
            Some(task) => {
                &&& task.id == id
                &&& url_canon(raw_url@) == Some((task.url@, task.domain@))
                &&& url_canon(task.url@) == Some((task.url@, task.domain@))
                &&& spec_is_crawlable_url(task.url@)
            },
            None => match url_canon(raw_url@) {
                Some(p) => !spec_is_crawlable_url(p.0),
                None => true,
            },
        },
{
    match normalize_url(raw_url) {
        Some((url, domain)) => {
            if is_crawlable_url(url.as_str()) {
                Some(Task { id, domain, url })
            } else {
                None
            }
        },
        None => None,
    }
}

/// The prefix of `h` before its first `;`, or all of `h` when it has none.
pub open spec fn prefix_to_semi(h: Seq<char>) -> Seq<char>
    decreases h.len(),
{
    if h.len() == 0 {
        h
    } else if h[0] == ';' {
        Seq::empty()
    } else {
        seq![h[0]] + prefix_to_semi(h.drop_first())
    }
}

proof fn lemma_prefix_to_semi_take(h: Seq<char>, k: int)
    requires
        0 <= k <= h.len(),
        forall|j: int| 0 <= j < k ==> h[j] != ';',
        k < h.len() ==> h[k] == ';',
    ensures
        prefix_to_semi(h) == h.take(k),
    decreases h.len(),
{
    if h.len() == 0 {
        assert(prefix_to_semi(h) =~= h.take(k));
    } else if h[0] == ';' {
        assert(k == 0);
        assert(prefix_to_semi(h) =~= h.take(0));
    } else {
        assert(k >= 1);
        lemma_prefix_to_semi_take(h.drop_first(), k - 1);
        assert(seq![h[0]] + h.drop_first().take(k - 1) =~= h.take(k));
    }
}

/// Whether a response with this `Content-Type` header (or none) counts as
/// HTML: a present header counts by its media type before any `;`, trimmed;
/// an absent header counts only when the URL ends in `.html` or `.htm`.
pub open spec fn spec_is_html(header: Option<Seq<char>>, url: Seq<char>) -> bool {
    match header {
        Some(h) => trimmed(prefix_to_semi(h)) == "text/html"@,
        None => seq_ends_with(url, ".html"@) || seq_ends_with(url, ".htm"@),
    }
}

/// The effective content type of a response: `text/html` when the header (or
/// the URL's extension, when no header came) says so, else nothing.
pub fn get_content_type(header: Option<&str>, url: &str) -> (r: Option<String>)
    ensures
        r is Some <==> spec_is_html(header.deep_view(), url@),
        match r {
            Some(s) => s@ == "text/html"@,
            None => true,
        },
{
    match header {
        Some(h) => {
            let n = h.unicode_len();
            let mut k: usize = 0;
            while k < n && h.get_char(k) != ';'
                invariant
                    n == h@.len(),
                    0 <= k <= n,
                    forall|j: int| 0 <= j < k ==> h@[j] != ';',
                decreases n - k,
            {
                k = k + 1;
            }
            proof {
                lemma_prefix_to_semi_take(h@, k as int);
            }
            let clean = trim_str(h.substring_char(0, k));
            if clean == String::from_str("text/html") {
                Some(clean)
            } else {
                None
            }
        },
        None => {
            if str_ends_with(url, ".html") || str_ends_with(url, ".htm") {
                Some(String::from_str("text/html"))
            } else {
                None
            }
        },
    }
}

/// What the headers of a response mean for the task, before the body is read.
#[derive(Debug)]
pub enum HeadDecision {
    /// The server answered 5xx: re-enqueue the task.
    ServerError,
    /// The response is unusable (non-2xx non-5xx status, or a final URL that
    /// does not canonicalize): drop the task.
    NotCrawlable,
    /// The response came from another canonical URL than the one asked for:
    /// enqueue that URL under its domain and persist no page row.
    Redirect {
        /// The domain of the URL the response came from.
        domain: String,
        /// The canonical URL the response came from.
        url: String,
    },
    /// The response is not HTML: drop the task.
    NotHtml,
    /// The response is an HTML success for the requested URL: read the body.
    ReadBody,
}

/// Classify a response from its status line and headers, in the order the
/// worker applies: 5xx, then non-success, then redirect discovery (the final
/// URL differs from the requested one after canonicalization), then the
/// content type.
pub fn classify_head(
    task_url: &str,
    status: u16,
    final_url: &str,
    content_type: Option<&str>,
) -> (d: HeadDecision)
    ensures
        (d is ServerError) <==> 500 <= status <= 599,
        (d is NotCrawlable) <==> !(500 <= status <= 599) && (!(200 <= status <= 299) || url_canon(
            final_url@,
        ) is None),
        (d is Redirect) <==> (200 <= status <= 299 && match url_canon(final_url@) {
            Some(p) => p.0 != task_url@,
            None => false,
        }),
        d matches HeadDecision::Redirect { domain, url } ==> url_canon(final_url@) == Some(
            (url@, domain@),
        ) && url@ != task_url@ && url_canon(url@) == Some((url@, domain@)),
        (d is ReadBody) <==> (200 <= status <= 299 && match url_canon(final_url@) {
            Some(p) => p.0 == task_url@ && spec_is_html(content_type.deep_view(), task_url@),
            None => false,
        }),
        (d is NotHtml) <==> (200 <= status <= 299 && match url_canon(final_url@) {
            Some(p) => p.0 == task_url@ && !spec_is_html(content_type.deep_view(), task_url@),
            None => false,
        }),
{
    if 500 <= status && status <= 599 {
        return HeadDecision::ServerError;
    }
    if !(200 <= status && status <= 299) {
        return HeadDecision::NotCrawlable;
    }
    match normalize_url(final_url) {
        Some((url, domain)) => {
            let task_url_string = String::from_str(task_url);
            if url != task_url_string {
                return HeadDecision::Redirect { domain, url };
            }
        },
        None => {
            return HeadDecision::NotCrawlable;
        },
    }
    match get_content_type(content_type, task_url) {
        Some(_) => HeadDecision::ReadBody,
        None => HeadDecision::NotHtml,
    }
}

/// Put a URL back into the persistent queue and release it from the visited
/// set so it can be dispatched again.
pub fn save_to_queue(
    visited: &mut VisitedSet,
    store: &mut Store,
    domain: String,
    url: String,
    now: i64,
)
    requires
        old(store).wf(),
        old(store).ids_ok(),
    ensures
        final(visited)@ == old(visited)@.remove(url@),
        saved_to_queue(*old(store), *final(store), domain, url, now),
{
    visited.remove(url.as_str());
    store.save_to_queue(domain, url, now);
}

/// How a failed request or body read is classified.
pub enum NetError {
    /// The request timed out: transient, re-enqueue.
    Timeout,
    /// The redirect limit was hit: drop.
    RedirectLoop,
    /// The connection failed: drop.
    Connect,
    /// The request was malformed or rejected before a response: drop.
    Request,
    /// Anything else: drop.
    Other,
}

/// Handle a network error for a task: a timeout is transient, so the task is
/// re-enqueued and released from the visited set; every other error drops the
/// task, which stays visited so it is not retried before a restart.
pub fn handle_net_error(
    visited: &mut VisitedSet,
    store: &mut Store,
    task: &Task,
    err: NetError,
    now: i64,
) -> (retried: bool)
    requires
        old(store).wf(),
        old(store).ids_ok(),
    ensures
        retried == (err is Timeout),
        final(store).wf(),
        if err is Timeout {
            final(visited)@ == old(visited)@.remove(task.url@) && saved_to_queue(
                *old(store),
                *final(store),
                task.domain,
                task.url,
                now,
            )
        } else {
            final(visited)@ == old(visited)@ && *final(store) == *old(store)
        },
{
    match err {
        NetError::Timeout => {
            save_to_queue(visited, store, task.domain.clone(), task.url.clone(), now);
            true
        },
        _ => false,
    }
}

/// Handle redirect discovery: the response came from `url` (canonical, under
/// `domain`) instead of the task's URL. A URL not yet visited is enqueued;
/// the task's own URL stays visited so it is not fetched again.
pub fn handle_redirect(
    visited: &mut VisitedSet,
    store: &mut Store,
    domain: String,
    url: String,
    now: i64,
) -> (queued: bool)
    requires
        old(store).wf(),
        old(store).ids_ok(),
    ensures
        final(store).wf(),
        queued == !old(visited)@.contains(url@),
        if queued {
            final(visited)@ == old(visited)@.remove(url@) && saved_to_queue(
                *old(store),
                *final(store),
                domain,
                url,
                now,
            )
        } else {
            final(visited)@ == old(visited)@ && *final(store) == *old(store)
        },
{
    if visited.contains(url.as_str()) {
        return false;
    }
    save_to_queue(visited, store, domain, url, now);
    true
}

/// The favicon URL saved with a page: the scraped one when it exists and is
/// at most 2048 bytes, else `https://{domain}/favicon.ico`.
pub open spec fn spec_favicon_choice(favicon_url: Option<Seq<char>>, domain: Seq<char>) -> Seq<
    char,
> {
    match favicon_url {
        Some(u) => if byte_len(u) <= 2048 {
            u
        } else {
            "https://"@ + domain + "/favicon.ico"@
        },
        None => "https://"@ + domain + "/favicon.ico"@,
    }
}

/// Choose the favicon row to upsert for a page of `domain`.
pub fn choose_favicon_url(favicon_url: &Option<String>, domain: &str) -> (r: NewFavicon)
    ensures
        r.url@ == spec_favicon_choice(favicon_url.deep_view(), domain@),
{
    match favicon_url {
        Some(u) => {
            if u.as_str().len() <= 2048 {
                return NewFavicon { url: u.clone() };
            }
        },
        None => {},
    }
    let mut url = String::from_str("https://");
    url.append(domain);
    url.append("/favicon.ico");
    NewFavicon { url }
}

/// Each string capped to `cap` bytes on a character boundary.
pub open spec fn spec_opt_cap(v: Option<Seq<char>>, cap: int) -> Option<Seq<char>> {
    match v {
        Some(s) => Some(spec_safe_slice(s, cap)),
        None => None,
    }
}

/// The stored theme color: a single leading `#` stripped, then capped to 6
/// bytes.
pub open spec fn spec_theme_color(v: Option<Seq<char>>) -> Option<Seq<char>> {
    match v {
        Some(s) => Some(
            spec_safe_slice(
                if s.len() >= 1 && s[0] == '#' {
                    s.subrange(1, s.len() as int)
                } else {
                    s
                },
                6,
            ),
        ),
        None => None,
    }
}

fn cap_opt(v: &Option<String>, cap: usize) -> (r: Option<String>)
    ensures
        r.deep_view() == spec_opt_cap(v.deep_view(), cap as int),
{
    match v {
        Some(s) => Some(safe_slice(s.as_str(), cap)),
        None => None,
    }
}

fn clone_opt_string(v: &Option<String>) -> (r: Option<String>)
    ensures
        r == *v,
{
    match v {
        Some(s) => Some(s.clone()),
        None => None,
    }
}

/// The document length as the `body_length` column holds it: capped at the
/// column type's maximum.
pub open spec fn spec_body_length(len: nat) -> i32 {
    if len <= i32::MAX {
        len as i32
    } else {
        i32::MAX
    }
}

/// Build the page row for a successful HTML fetch: the scraped fields with
/// the column caps applied (title 100, descriptions and keywords 200,
/// og:image 512, theme color 6 after stripping a leading `#`), the fetch
/// metadata, and the SEO score. The favicon key is left unset for
/// `save_page` to fill.
pub fn build_new_page(
    task: &Task,
    scraped: &ScrapedPage,
    response_time: i32,
    status: u16,
    now: i64,
) -> (p: NewPage)
    ensures
        p.domain == task.domain,
        p.url == task.url,
        p.title.deep_view() == spec_opt_cap(scraped.title.deep_view(), 100),
        p.favicon_id == -1,
        p.content == scraped.content,
        p.body == scraped.html,
        p.body_length == spec_body_length(scraped.html_length as nat),
        p.content_type@ == "text/html"@,
        p.response_time == response_time,
        p.status_code == status as i32,
        p.last_crawled == now,
        p.last_indexed is None,
        p.seo_score == spec_seo_score(*scraped),
        p.meta_description.deep_view() == spec_opt_cap(scraped.meta_description.deep_view(), 200),
        p.meta_keywords.deep_view() == spec_opt_cap(scraped.meta_keywords.deep_view(), 200),
        p.meta_theme_color.deep_view() == spec_theme_color(scraped.meta_theme_color.deep_view()),
        p.meta_og_image.deep_view() == spec_opt_cap(scraped.meta_og_image.deep_view(), 512),
{
    let seo_score = calculate_seo_score(scraped);
    let meta_theme_color = match &scraped.meta_theme_color {
        Some(x) => {
            let s = x.as_str();
            let n = s.unicode_len();
            let stripped = if n >= 1 && s.get_char(0) == '#' {
                s.substring_char(1, n)
            } else {
                s
            };
            Some(safe_slice(stripped, 6))
        },
        None => None,
    };
    let body_length = if scraped.html_length <= i32::MAX as usize {
        scraped.html_length as i32
    } else {
        i32::MAX
    };
    NewPage {
        domain: task.domain.clone(),
        url: task.url.clone(),
        title: cap_opt(&scraped.title, 100),
        favicon_id: -1,
        content: clone_opt_string(&scraped.content),
        body: clone_opt_string(&scraped.html),
        body_length,
        content_type: String::from_str("text/html"),
        response_time,
        status_code: status as i32,
        last_crawled: now,
        last_indexed: None,
        seo_score,
        meta_description: cap_opt(&scraped.meta_description, 200),
        meta_keywords: cap_opt(&scraped.meta_keywords, 200),
        meta_theme_color,
        meta_og_image: cap_opt(&scraped.meta_og_image, 512),
    }
}

/// Some pair in `pairs` carries the URL `u`.
pub open spec fn pairs_contain_url(pairs: Seq<(Seq<char>, Seq<char>)>, u: Seq<char>) -> bool {
    exists|i: int| 0 <= i < pairs.len() && (#[trigger] pairs[i]).1 == u
}

/// The views of a vector of `(domain, url)` pairs.
pub open spec fn pair_views(v: Seq<(String, String)>) -> Seq<(Seq<char>, Seq<char>)> {
    v.map_values(|p: (String, String)| (p.0@, p.1@))
}

/// The `(domain, url)` pairs enqueued for the links of a page: each link that
/// canonicalizes, is not yet visited, and was not already collected.
pub open spec fn collect_new_links(
    ls: Seq<Seq<char>>,
    visited: Set<Seq<char>>,
    acc: Seq<(Seq<char>, Seq<char>)>,
) -> Seq<(Seq<char>, Seq<char>)>
    decreases ls.len(),
{
    if ls.len() == 0 {
        acc
    } else {
        let step = match url_canon(ls[0]) {
            Some(p) => if visited.contains(p.0) || pairs_contain_url(acc, p.0) {
                acc
            } else {
                acc.push((p.1, p.0))
            },
            None => acc,
        };
        collect_new_links(ls.drop_first(), visited, step)
    }
}

fn pairs_contains_url(v: &Vec<(String, String)>, u: &String) -> (r: bool)
    ensures
        r == pairs_contain_url(pair_views(v@), u@),
{
    let n = v.len();
    let mut i: usize = 0;
    while i < n
        invariant
            n == v@.len(),
            0 <= i <= n,
            forall|j: int| 0 <= j < i ==> (#[trigger] pair_views(v@)[j]).1 != u@,
        decreases n - i,
    {
        if v[i].1 == *u {
            proof {
                assert((pair_views(v@)[i as int]).1 == u@);
            }
            return true;
        }
        proof {
            assert((pair_views(v@)[i as int]).1 == v@[i as int].1@);
        }
        i = i + 1;
    }
    proof {
        assert_by_contradiction!(!pairs_contain_url(pair_views(v@), u@), {
            let k = choose|k: int|
                0 <= k < pair_views(v@).len() && (#[trigger] pair_views(v@)[k]).1 == u@;
        });
    }
    false
}

/// Re-canonicalize the links of a scraped page and keep, as `(domain, url)`
/// pairs, those not yet visited, without duplicates.
pub fn process_links(links: &Vec<String>, visited: &VisitedSet) -> (r: Vec<(String, String)>)
    ensures
        pair_views(r@) == collect_new_links(links.deep_view(), visited@, Seq::empty()),
{
    let ghost ls = links.deep_view();
    let n = links.len();
    let mut r: Vec<(String, String)> = Vec::new();
    let mut i: usize = 0;
    proof {
        assert(ls.skip(0) =~= ls);
        assert(pair_views(r@) =~= Seq::<(Seq<char>, Seq<char>)>::empty());
    }
    while i < n
        invariant
            n == links@.len(),
            ls == links.deep_view(),
            ls.len() == n,
            0 <= i <= n,
            collect_new_links(ls, visited@, Seq::empty()) == collect_new_links(
                ls.skip(i as int),
                visited@,
                pair_views(r@),
            ),
        decreases n - i,
    {
        let link: &String = &links[i];
        proof {
            assert(ls[i as int] == links@[i as int]@);
            assert(ls.skip(i as int)[0] == ls[i as int]);
            assert(ls.skip(i as int).drop_first() =~= ls.skip(i as int + 1));
        }
        let ghost r0 = pair_views(r@);
        match normalize_url(link.as_str()) {
            Some((url, domain)) => {
                if !visited.contains(url.as_str()) && !pairs_contains_url(&r, &url) {
                    let ghost pair = (domain@, url@);
                    r.push((domain, url));
                    proof {
                        assert(pair_views(r@) =~= r0.push(pair));
                    }
                }
            },
            None => {},
        }
        i = i + 1;
    }
    proof {
        assert(ls.skip(n as int).len() == 0);
    }
    r
}

/// The SEO score of the page served at `url` with HTML text `body`.
pub open spec fn spec_scrape_seo(url: Seq<char>, body: Seq<char>) -> int {
    let points = (if spec_title(body) is Some {
        25int
    } else {
        0int
    }) + (match spec_meta(body, "meta[name=\"description\"], meta[property=\"description\"]"@) {
        Some(d) => 20int + (if 50 <= (encode_utf8(d).len() as usize) <= 160 {
            5int
        } else {
            0int
        }),
        None => 0int,
    }) + (if spec_meta(body, "meta[name=\"keywords\"], meta[property=\"keywords\"]"@) is Some {
        20int
    } else {
        0int
    }) + (if spec_meta(body, "meta[name=\"og:image\"], meta[property=\"og:image\"]"@) is Some {
        10int
    } else {
        0int
    }) + (if sel_first_text(body, "h1"@) is Some {
        10int
    } else {
        0int
    }) + (if spec_links(url, body).len() >= 5 {
        10int
    } else {
        0int
    });
    if points > 100 {
        100int
    } else if points < 0 {
        0int
    } else {
        points
    }
}

/// `row` carries one of the `(domain, url)` pairs and the fresh timestamp.
pub open spec fn link_row(row: QueueRow, pairs: Seq<(Seq<char>, Seq<char>)>, now: i64) -> bool {
    exists|k: int|
        0 <= k < pairs.len() && row.url@ == (#[trigger] pairs[k]).1 && row.domain@ == pairs[k].0
            && row.timestamp == now
}

/// What a successful HTML fetch leaves in the store: one new page row holding
/// the scraped and capped columns of `body`, a favicon row upserted by URL,
/// and one queue row per newly discovered link, appended in order.
pub open spec fn page_persisted(
    pre: Store,
    post: Store,
    task: Task,
    body: Seq<char>,
    visited: Set<Seq<char>>,
    status: u16,
    response_time: i32,
    now: i64,
) -> bool {
    let pairs = collect_new_links(spec_links(task.url@, body), visited, Seq::empty());
    let fav_url = spec_favicon_choice(spec_favicon(task.domain@, body), task.domain@);
    let pd = post.pages@.last().data;
    &&& post.wf()
    &&& post.pages@.len() == pre.pages@.len() + 1
    &&& post.pages@.take(pre.pages@.len() as int) == pre.pages@
    &&& post.next_page_id == pre.next_page_id + 1
    &&& post.pages@.last().id == pre.next_page_id
    &&& pd.domain == task.domain
    &&& pd.url == task.url
    &&& pd.title.deep_view() == spec_opt_cap(spec_title(body), 100)
    &&& pd.content.deep_view() == Some(spec_content(body))
    &&& pd.body is None
    &&& pd.body_length == spec_body_length(doc_html_len(body))
    &&& pd.content_type@ == "text/html"@
    &&& pd.response_time == response_time
    &&& pd.status_code == status as i32
    &&& pd.last_crawled == now
    &&& pd.last_indexed is None
    &&& pd.seo_score == spec_scrape_seo(task.url@, body)
    &&& pd.meta_description.deep_view() == spec_opt_cap(
        spec_meta(body, "meta[name=\"description\"], meta[property=\"description\"]"@),
        200,
    )
    &&& pd.meta_keywords.deep_view() == spec_opt_cap(
        spec_meta(body, "meta[name=\"keywords\"], meta[property=\"keywords\"]"@),
        200,
    )
    &&& pd.meta_theme_color.deep_view() == spec_theme_color(
        spec_meta(body, "meta[name=\"theme-color\"], meta[property=\"theme-color\"]"@),
    )
    &&& pd.meta_og_image.deep_view() == spec_opt_cap(
        spec_meta(body, "meta[name=\"og:image\"], meta[property=\"og:image\"]"@),
        512,
    )
    &&& favicon_id_exists(post.favicons@, pd.favicon_id)
    &&& match favicon_index(pre.favicons@, fav_url) {
        Some(j) => post.favicons@ == pre.favicons@ && pd.favicon_id == pre.favicons@[j].id
            && post.next_favicon_id == pre.next_favicon_id,
        None => post.favicons@.len() == pre.favicons@.len() + 1 && post.favicons@.take(
            pre.favicons@.len() as int,
        ) == pre.favicons@ && post.favicons@.last().id == pre.next_favicon_id
            && post.favicons@.last().url@ == fav_url && pd.favicon_id == pre.next_favicon_id
            && post.next_favicon_id == pre.next_favicon_id + 1,
    }
    &&& post.queue@.len() >= pre.queue@.len()
    &&& post.queue@.take(pre.queue@.len() as int) == pre.queue@
    &&& forall|i: int|
        pre.queue@.len() <= i < post.queue@.len() ==> link_row(#[trigger] post.queue@[i], pairs, now)
    &&& post.next_queue_id == pre.next_queue_id + post.queue@.len() - pre.queue@.len()
}

/// Everything the worker does once it has read an HTML body for a task:
/// scrape it, build the page and favicon rows, gather the newly discovered
/// links that are not yet visited, and persist all of it. Returns false, and
/// leaves the store alone, only when a table's serial keys have no room left
/// for the new rows.
pub fn process_body(
    visited: &VisitedSet,
    store: &mut Store,
    task: &Task,
    body: String,
    status: u16,
    response_time: i32,
    now: i64,
) -> (stored: bool)
    requires
        old(store).wf(),
    ensures
        final(store).wf(),
        stored == (old(store).next_page_id < i32::MAX && old(store).next_favicon_id < i32::MAX
            && old(store).next_queue_id + collect_new_links(
            spec_links(task.url@, body@),
            visited@,
            Seq::empty(),
        ).len() < i32::MAX),
        !stored ==> *final(store) == *old(store),
        stored ==> page_persisted(
            *old(store),
            *final(store),
            *task,
            body@,
            visited@,
            status,
            response_time,
            now,
        ),
{
    let scraped = scrape_page(task.domain.clone(), task.url.clone(), body);
    let favicon = choose_favicon_url(&scraped.favicon_url, task.domain.as_str());
    let page = build_new_page(task, &scraped, response_time, status, now);
    let links = process_links(&scraped.links, visited);
    let ghost pairs = collect_new_links(spec_links(task.url@, body@), visited@, Seq::empty());
    proof {
        assert(links@.len() == pair_views(links@).len());
    }
    if !(store.next_page_id < i32::MAX && store.next_favicon_id < i32::MAX) {
        return false;
    }
    if links.len() >= (i32::MAX - store.next_queue_id) as usize {
        return false;
    }
    let ghost pre = *store;
    let ghost link_vals = links@;
    proof {
        assert(page.seo_score == spec_scrape_seo(task.url@, body@));
    }
    store.save_page(page, favicon, links, now);
    proof {
        assert(store.pages@.take(pre.pages@.len() as int) =~= pre.pages@);
        let fav_url = spec_favicon_choice(spec_favicon(task.domain@, body@), task.domain@);
        if favicon_index(pre.favicons@, fav_url) is None {
            assert(store.favicons@.take(pre.favicons@.len() as int) =~= pre.favicons@);
        }
        crate::store::lemma_bulk_enqueue_shape(
            pre.queue@,
            pre.next_queue_id as int,
            link_vals,
            now,
        );
        assert forall|i: int|
            pre.queue@.len() <= i < store.queue@.len() implies link_row(
            #[trigger] store.queue@[i],
            pairs,
            now,
        ) by {
            let k = choose|k: int|
                0 <= k < link_vals.len() && store.queue@[i].url@ == (#[trigger] link_vals[k]).1@
                    && store.queue@[i].domain@ == link_vals[k].0@ && store.queue@[i].timestamp
                    == now;
            assert(pair_views(link_vals)[k] == (link_vals[k].0@, link_vals[k].1@));
        }
    }
    true
}

} // verus!
