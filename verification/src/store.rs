//! A model of the persistent store the crawler writes to: the URL queue,
//! the pages table and the favicons table, with the contracts the crawler
//! relies on (unique queue and favicon URLs, favicon upsert, conflict-free
//! enqueue). The relational database implements this model; tests run it
//! directly.
use vstd::prelude::*;
use vstd::string::StringExecFns;
use vstd::utf8::encode_utf8;

verus! {

/// One row of the queue table.
pub struct QueueRow {
    /// The serial key.
    pub id: i32,
    /// The domain of the URL.
    pub domain: String,
    /// The canonical URL; unique in the queue.
    pub url: String,
    /// Unix milliseconds of the insert.
    pub timestamp: i64,
}

/// One row of the favicons table.
pub struct FaviconRow {
    /// The serial key.
    pub id: i32,
    /// The favicon URL; unique in the table.
    pub url: String,
}

/// A favicon to upsert.
pub struct NewFavicon {
    /// The favicon URL.
    pub url: String,
}

/// A page to insert, with the column caps applied.
pub struct NewPage {
    /// The domain of the page.
    pub domain: String,
    /// The canonical URL of the page.
    pub url: String,
    /// The page title, at most 100 bytes.
    pub title: Option<String>,
    /// The key of the favicon row this page refers to.
    pub favicon_id: i32,
    /// The extracted text content.
    pub content: Option<String>,
    /// The HTML body; not populated by the crawler.
    pub body: Option<String>,
    /// The byte length of the HTML document.
    pub body_length: i32,
    /// The media type the page was served with.
    pub content_type: String,
    /// The GET latency in milliseconds.
    pub response_time: i32,
    /// The HTTP status code.
    pub status_code: i32,
    /// Unix milliseconds of the crawl.
    pub last_crawled: i64,
    /// Unix milliseconds of the last indexing; never set by the crawler.
    pub last_indexed: Option<i64>,
    /// The SEO score in [0, 100].
    pub seo_score: i32,
    /// The meta description, at most 200 bytes.
    pub meta_description: Option<String>,
    /// The meta keywords, at most 200 bytes.
    pub meta_keywords: Option<String>,
    /// The meta theme color, `#` stripped, at most 6 bytes.
    pub meta_theme_color: Option<String>,
    /// The meta og:image URL, at most 512 bytes.
    pub meta_og_image: Option<String>,
}

/// One row of the pages table.
pub struct PageRow {
    /// The serial key.
    pub id: i32,
    /// The columns of the row.
    pub data: NewPage,
}

/// The store: the three tables the crawler touches and their next serial
/// keys.
pub struct Store {
    /// The queue table.
    pub queue: Vec<QueueRow>,
    /// The pages table.
    pub pages: Vec<PageRow>,
    /// The favicons table.
    pub favicons: Vec<FaviconRow>,
    /// The next serial key of the queue table.
    pub next_queue_id: i32,
    /// The next serial key of the pages table.
    pub next_page_id: i32,
    /// The next serial key of the favicons table.
    pub next_favicon_id: i32,
}

/// How many rows of `q` hold the URL `u`.
pub open spec fn queue_count_url(q: Seq<QueueRow>, u: Seq<char>) -> int
    decreases q.len(),
{
    if q.len() == 0 {
        0
    } else {
        (if q[0].url@ == u {
            1int
        } else {
            0int
        }) + queue_count_url(q.drop_first(), u)
    }
}

/// Whether some row of `q` holds the URL `u`.
pub open spec fn queue_has_url(q: Seq<QueueRow>, u: Seq<char>) -> bool {
    exists|i: int| 0 <= i < q.len() && q[i].url@ == u
}

/// Every row of `q` is at most as recent as `ts`.
pub open spec fn freshest_ts(q: Seq<QueueRow>, ts: i64) -> bool {
    forall|m: int| 0 <= m < q.len() ==> (#[trigger] q[m]).timestamp <= ts
}

/// Some row of `q` under the domain `dom` is as recent as any row of `q`.
pub open spec fn domain_has_freshest(q: Seq<QueueRow>, dom: Seq<char>) -> bool {
    exists|k: int|
        0 <= k < q.len() && (#[trigger] q[k]).domain@ == dom && freshest_ts(q, q[k].timestamp)
}

/// The byte length of a string, as the machine reports it.
pub open spec fn byte_len(s: Seq<char>) -> usize {
    encode_utf8(s).len() as usize
}

/// What the bulk insert of `save_page` does to the queue and its next serial
/// key: each `(domain, url)` link in turn adds one row, skipping URLs already
/// queued (conflict does nothing) and URLs longer than 2048 bytes.
pub open spec fn spec_bulk_enqueue(
    q: Seq<QueueRow>,
    next_id: int,
    links: Seq<(String, String)>,
    now: i64,
) -> (Seq<QueueRow>, int)
    decreases links.len(),
{
    if links.len() == 0 {
        (q, next_id)
    } else {
        let step = if queue_has_url(q, links[0].1@) || byte_len(links[0].1@) > 2048 {
            (q, next_id)
        } else {
            (
                q.push(
                    QueueRow {
                        id: next_id as i32,
                        domain: links[0].0,
                        url: links[0].1,
                        timestamp: now,
                    },
                ),
                next_id + 1,
            )
        };
        spec_bulk_enqueue(step.0, step.1, links.drop_first(), now)
    }
}

/// `row` carries the URL, domain and timestamp of one of the links.
pub open spec fn row_from_links(row: QueueRow, links: Seq<(String, String)>, now: i64) -> bool {
    exists|k: int|
        0 <= k < links.len() && row.url@ == (#[trigger] links[k]).1@ && row.domain@ == links[k].0@
            && row.timestamp == now
}

/// The bulk insert only appends: the old queue stays a prefix, every appended
/// row carries one of the links with the fresh timestamp, and the next serial
/// key advances by the number of appended rows.
pub proof fn lemma_bulk_enqueue_shape(q: Seq<QueueRow>, n: int, links: Seq<(String, String)>, now: i64)
    ensures
        ({
            let post = spec_bulk_enqueue(q, n, links, now);
            &&& q.len() <= post.0.len()
            &&& post.0.take(q.len() as int) == q
            &&& forall|i: int|
                q.len() <= i < post.0.len() ==> row_from_links(#[trigger] post.0[i], links, now)
            &&& post.1 == n + post.0.len() - q.len()
        }),
    decreases links.len(),
{
    if links.len() > 0 {
        let post = spec_bulk_enqueue(q, n, links, now);
        let rest = links.drop_first();
        if queue_has_url(q, links[0].1@) || byte_len(links[0].1@) > 2048 {
            lemma_bulk_enqueue_shape(q, n, rest, now);
            assert forall|i: int|
                q.len() <= i < post.0.len() implies row_from_links(
                #[trigger] post.0[i],
                links,
                now,
            ) by {
                let k = choose|k: int|
                    0 <= k < rest.len() && post.0[i].url@ == (#[trigger] rest[k]).1@
                        && post.0[i].domain@ == rest[k].0@ && post.0[i].timestamp == now;
                assert(links[k + 1] == rest[k]);
            }
        } else {
            let row = QueueRow { id: n as i32, domain: links[0].0, url: links[0].1, timestamp: now };
            let q1 = q.push(row);
            lemma_bulk_enqueue_shape(q1, n + 1, rest, now);
            assert(post.0.take(q.len() as int) =~= post.0.take(q1.len() as int).take(
                q.len() as int,
            ));
            assert forall|i: int|
                q.len() <= i < post.0.len() implies row_from_links(
                #[trigger] post.0[i],
                links,
                now,
            ) by {
                if i < q1.len() {
                    assert(post.0.take(q1.len() as int)[i] == post.0[i]);
                    assert(post.0[i] == q1[i]);
                    assert(q1[i] == row);
                    assert(links[0] == (row.domain, row.url));
                } else {
                    let k = choose|k: int|
                        0 <= k < rest.len() && post.0[i].url@ == (#[trigger] rest[k]).1@
                            && post.0[i].domain@ == rest[k].0@ && post.0[i].timestamp == now;
                    assert(links[k + 1] == rest[k]);
                }
            }
        }
    } else {
        let post = spec_bulk_enqueue(q, n, links, now);
        assert(post.0.take(q.len() as int) =~= q);
    }
}

/// Some favicon row in `fs` has the key `fid`.
pub open spec fn favicon_id_exists(fs: Seq<FaviconRow>, fid: i32) -> bool {
    exists|j: int| 0 <= j < fs.len() && fs[j].id == fid
}

/// The index of the favicon row holding `url`, if one exists.
pub open spec fn favicon_index(fs: Seq<FaviconRow>, url: Seq<char>) -> Option<int> {
    if exists|i: int| 0 <= i < fs.len() && fs[i].url@ == url {
        Some(choose|i: int| 0 <= i < fs.len() && fs[i].url@ == url)
    } else {
        None
    }
}

/// What `Store::save_to_queue` leaves behind: the other tables untouched and
/// the URL queued, by a fresh row exactly when it was not queued before.
pub open spec fn saved_to_queue(pre: Store, post: Store, domain: String, url: String, now: i64) -> bool {
    &&& post.wf()
    &&& post.pages == pre.pages
    &&& post.favicons == pre.favicons
    &&& post.next_page_id == pre.next_page_id
    &&& post.next_favicon_id == pre.next_favicon_id
    &&& queue_has_url(post.queue@, url@)
    &&& if queue_has_url(pre.queue@, url@) {
        post.queue == pre.queue && post.next_queue_id == pre.next_queue_id
    } else {
        post.queue@ == pre.queue@.push(
            QueueRow { id: pre.next_queue_id, domain, url, timestamp: now },
        ) && post.next_queue_id == pre.next_queue_id + 1
    }
}

impl Store {
    /// The queue never holds two rows with the same URL, the favicons table
    /// never holds two rows with the same URL or the same key, every page
    /// refers to a favicon row that exists, and every key is below its
    /// table's next serial key.
    pub open spec fn wf(self) -> bool {
        &&& forall|i: int, j: int|
            0 <= i < j < self.queue@.len() ==> self.queue@[i].url@ != self.queue@[j].url@
        &&& forall|i: int, j: int|
            0 <= i < j < self.favicons@.len() ==> self.favicons@[i].url@ != self.favicons@[j].url@
        &&& forall|i: int, j: int|
            0 <= i < j < self.favicons@.len() ==> self.favicons@[i].id != self.favicons@[j].id
        &&& forall|i: int|
            0 <= i < self.pages@.len() ==> favicon_id_exists(
                self.favicons@,
                #[trigger] self.pages@[i].data.favicon_id,
            )
        &&& forall|i: int| 0 <= i < self.queue@.len() ==> #[trigger] self.queue@[i].id < self.next_queue_id
        &&& forall|i: int|
            0 <= i < self.favicons@.len() ==> #[trigger] self.favicons@[i].id < self.next_favicon_id
        &&& forall|i: int| 0 <= i < self.pages@.len() ==> #[trigger] self.pages@[i].id < self.next_page_id
        &&& self.next_queue_id >= 0
        &&& self.next_page_id >= 0
        &&& self.next_favicon_id >= 0
    }

    /// The serial keys have room for another insert.
    pub open spec fn ids_ok(self) -> bool {
        self.next_queue_id < i32::MAX && self.next_page_id < i32::MAX && self.next_favicon_id
            < i32::MAX
    }

    /// An empty store.
    pub fn new() -> (s: Store)
        ensures
            s.wf(),
            s.queue@.len() == 0,
            s.pages@.len() == 0,
            s.favicons@.len() == 0,
            s.ids_ok(),
    {
        Store {
            queue: Vec::new(),
            pages: Vec::new(),
            favicons: Vec::new(),
            next_queue_id: 1,
            next_page_id: 1,
            next_favicon_id: 1,
        }
    }

    /// Insert one URL into the queue with a fresh timestamp; a URL already
    /// queued is left alone (conflict does nothing).
    pub fn save_to_queue(&mut self, domain: String, url: String, now: i64)
        requires
            old(self).wf(),
            old(self).ids_ok(),
        ensures
            saved_to_queue(*old(self), *final(self), domain, url, now),
    {
        if self.queue_contains_url(url.as_str()) {
            return ;
        }
        let row = QueueRow { id: self.next_queue_id, domain, url, timestamp: now };
        proof {
            assert(self.queue@.push(row)[self.queue@.len() as int].url@ == row.url@);
        }
        self.queue.push(row);
        self.next_queue_id = self.next_queue_id + 1;
    }

    /// Whether the queue holds a row for this URL.
    pub fn queue_contains_url(&self, url: &str) -> (r: bool)
        ensures
            r == queue_has_url(self.queue@, url@),
    {
        let n = self.queue.len();
        let mut i: usize = 0;
        let key = String::from_str(url);
        while i < n
            invariant
                n == self.queue@.len(),
                0 <= i <= n,
                key@ == url@,
                forall|j: int| 0 <= j < i ==> self.queue@[j].url@ != url@,
            decreases n - i,
        {
            if self.queue[i].url == key {
                return true;
            }
            i = i + 1;
        }
        false
    }

    fn find_favicon(&self, url: &str) -> (r: Option<(usize, i32)>)
        requires
            self.wf(),
        ensures
            match r {
                Some(p) => {
                    &&& favicon_index(self.favicons@, url@) == Some(p.0 as int)
                    &&& p.0 < self.favicons@.len()
                    &&& self.favicons@[p.0 as int].url@ == url@
                    &&& self.favicons@[p.0 as int].id == p.1
                },
                None => favicon_index(self.favicons@, url@) is None,
            },
    {
        let n = self.favicons.len();
        let mut i: usize = 0;
        let key = String::from_str(url);
        while i < n
            invariant
                self.wf(),
                n == self.favicons@.len(),
                0 <= i <= n,
                key@ == url@,
                forall|j: int| 0 <= j < i ==> self.favicons@[j].url@ != url@,
            decreases n - i,
        {
            if self.favicons[i].url == key {
                proof {
                    let j = choose|j: int|
                        0 <= j < self.favicons@.len() && self.favicons@[j].url@ == url@;
                    assert(j == i as int);
                }
                return Some((i, self.favicons[i].id));
            }
            i = i + 1;
        }
        None
    }

    /// Persist one crawled page: upsert the favicon by URL and return its
    /// key, insert the page with that key, and bulk-insert the discovered
    /// links into the queue, skipping conflicts and URLs longer than 2048
    /// bytes.
    pub fn save_page(&mut self, page: NewPage, favicon: NewFavicon, links: Vec<(String, String)>, now: i64) -> (fid: i32)
        requires
            old(self).wf(),
            old(self).ids_ok(),
            old(self).next_queue_id + links@.len() < i32::MAX,
        ensures
            final(self).wf(),
            match favicon_index(old(self).favicons@, favicon.url@) {
                Some(j) => {
                    &&& final(self).favicons@ == old(self).favicons@
                    &&& fid == old(self).favicons@[j].id
                    &&& final(self).next_favicon_id == old(self).next_favicon_id
                },
                None => {
                    &&& final(self).favicons@ == old(self).favicons@.push(
                        FaviconRow { id: old(self).next_favicon_id, url: favicon.url },
                    )
                    &&& fid == old(self).next_favicon_id
                    &&& final(self).next_favicon_id == old(self).next_favicon_id + 1
                },
            },
            final(self).pages@ == old(self).pages@.push(
                PageRow { id: old(self).next_page_id, data: NewPage { favicon_id: fid, ..page } },
            ),
            final(self).next_page_id == old(self).next_page_id + 1,
            (final(self).queue@, final(self).next_queue_id as int) == spec_bulk_enqueue(
                old(self).queue@,
                old(self).next_queue_id as int,
                links@,
                now,
            ),
    {
        let ghost q0 = self.queue@;
        let ghost n0 = self.next_queue_id as int;
        let ghost ls = links@;
        // favicon upsert by URL
        let fid = match self.find_favicon(favicon.url.as_str()) {
            Some((_, id)) => id,
            None => {
                let ghost favs0 = self.favicons@;
                let id = self.next_favicon_id;
                let row = FaviconRow { id, url: favicon.url };
                self.favicons.push(row);
                self.next_favicon_id = self.next_favicon_id + 1;
                proof {
                    assert(self.favicons@[favs0.len() as int].id == id);
                    assert forall|i: int| 0 <= i < self.pages@.len() implies favicon_id_exists(
                        self.favicons@,
                        #[trigger] self.pages@[i].data.favicon_id,
                    ) by {
                        let fid0 = self.pages@[i].data.favicon_id;
                        let j = choose|j: int| 0 <= j < favs0.len() && favs0[j].id == fid0;
                        assert(self.favicons@[j].id == fid0);
                    }
                    assert(self.wf());
                }
                id
            },
        };
        proof {
            assert(favicon_id_exists(self.favicons@, fid));
        }
        // page insert with the favicon key
        let row = PageRow { id: self.next_page_id, data: NewPage { favicon_id: fid, ..page } };
        let ghost pages0 = self.pages@;
        self.pages.push(row);
        self.next_page_id = self.next_page_id + 1;
        proof {
            assert(self.pages@[pages0.len() as int] == row);
            assert forall|i: int| 0 <= i < self.pages@.len() implies favicon_id_exists(
                self.favicons@,
                #[trigger] self.pages@[i].data.favicon_id,
            ) by {
                if i < pages0.len() {
                    assert(self.pages@[i] == pages0[i]);
                }
            }
            assert(self.wf());
        }
        // bulk insert of the discovered links
        let ghost pages1 = self.pages@;
        let ghost favicons1 = self.favicons@;
        let ghost next_page_1 = self.next_page_id;
        let ghost next_favicon_1 = self.next_favicon_id;
        let m = links.len();
        let mut k: usize = 0;
        proof {
            assert(ls.skip(0) =~= ls);
        }
        while k < m
            invariant
                m == links@.len(),
                ls == links@,
                0 <= k <= m,
                self.wf(),
                self.next_queue_id as int >= n0,
                self.next_queue_id as int <= n0 + k,
                n0 + ls.len() < i32::MAX,
                spec_bulk_enqueue(q0, n0, ls, now) == spec_bulk_enqueue(
                    self.queue@,
                    self.next_queue_id as int,
                    ls.skip(k as int),
                    now,
                ),
                self.pages@ == pages1,
                self.favicons@ == favicons1,
                self.next_page_id == next_page_1,
                self.next_favicon_id == next_favicon_1,
            decreases m - k,
        {
            proof {
                assert(ls.skip(k as int)[0] == ls[k as int]);
                assert(ls.skip(k as int).drop_first() =~= ls.skip(k as int + 1));
            }
            let link: &(String, String) = &links[k];
            if link.1.as_str().len() <= 2048 {
                if !self.queue_contains_url(link.1.as_str()) {
                    let row = QueueRow {
                        id: self.next_queue_id,
                        domain: link.0.clone(),
                        url: link.1.clone(),
                        timestamp: now,
                    };
                    proof {
                        assert(self.queue@.push(row)[self.queue@.len() as int].url@ == row.url@);
                    }
                    self.queue.push(row);
                    self.next_queue_id = self.next_queue_id + 1;
                }
            }
            k = k + 1;
        }
        proof {
            assert(ls.skip(m as int).len() == 0);
        }
        fid
    }

    fn best_queue_index(&self, domains: &Vec<String>) -> (r: Option<usize>)
        ensures
            match r {
                Some(b) => {
                    &&& b < self.queue@.len()
                    &&& domains.deep_view().contains(self.queue@[b as int].domain@)
                    &&& forall|k: int|
                        0 <= k < self.queue@.len() && domains.deep_view().contains(
                            (#[trigger] self.queue@[k]).domain@,
                        ) ==> self.queue@[k].timestamp <= self.queue@[b as int].timestamp
                },
                None => forall|k: int|
                    0 <= k < self.queue@.len() ==> !domains.deep_view().contains(
                        (#[trigger] self.queue@[k]).domain@,
                    ),
            },
    {
        let n = self.queue.len();
        let mut best: Option<usize> = None;
        let mut j: usize = 0;
        while j < n
            invariant
                n == self.queue@.len(),
                0 <= j <= n,
                match best {
                    Some(b) => {
                        &&& b < j
                        &&& domains.deep_view().contains(self.queue@[b as int].domain@)
                        &&& forall|k: int|
                            0 <= k < j && domains.deep_view().contains(
                                (#[trigger] self.queue@[k]).domain@,
                            ) ==> self.queue@[k].timestamp <= self.queue@[b as int].timestamp
                    },
                    None => forall|k: int|
                        0 <= k < j ==> !domains.deep_view().contains(
                            (#[trigger] self.queue@[k]).domain@,
                        ),
                },
            decreases n - j,
        {
            if crate::scrape::vec_contains(domains, &self.queue[j].domain) {
                match best {
                    Some(b) => {
                        if self.queue[j].timestamp > self.queue[b].timestamp {
                            best = Some(j);
                        }
                    },
                    None => {
                        best = Some(j);
                    },
                }
            }
            j = j + 1;
        }
        best
    }


    fn best_new_domain_index(&self, domains: &Vec<String>) -> (r: Option<usize>)
        ensures
            match r {
                Some(b) => {
                    &&& b < self.queue@.len()
                    &&& !domains.deep_view().contains(self.queue@[b as int].domain@)
                    &&& forall|k: int|
                        0 <= k < self.queue@.len() && !domains.deep_view().contains(
                            (#[trigger] self.queue@[k]).domain@,
                        ) ==> self.queue@[k].timestamp <= self.queue@[b as int].timestamp
                },
                None => forall|k: int|
                    0 <= k < self.queue@.len() ==> domains.deep_view().contains(
                        (#[trigger] self.queue@[k]).domain@,
                    ),
            },
    {
        let n = self.queue.len();
        let mut best: Option<usize> = None;
        let mut j: usize = 0;
        while j < n
            invariant
                n == self.queue@.len(),
                0 <= j <= n,
                match best {
                    Some(b) => {
                        &&& b < j
                        &&& !domains.deep_view().contains(self.queue@[b as int].domain@)
                        &&& forall|k: int|
                            0 <= k < j && !domains.deep_view().contains(
                                (#[trigger] self.queue@[k]).domain@,
                            ) ==> self.queue@[k].timestamp <= self.queue@[b as int].timestamp
                    },
                    None => forall|k: int|
                        0 <= k < j ==> domains.deep_view().contains(
                            (#[trigger] self.queue@[k]).domain@,
                        ),
                },
            decreases n - j,
        {
            if !crate::scrape::vec_contains(domains, &self.queue[j].domain) {
                match best {
                    Some(b) => {
                        if self.queue[j].timestamp > self.queue[b].timestamp {
                            best = Some(j);
                        }
                    },
                    None => {
                        best = Some(j);
                    },
                }
            }
            j = j + 1;
        }
        best
    }

    /// Atomically remove and return a batch of up to 100 queue rows, biased
    /// toward the 10 domains whose rows were inserted most recently, and
    /// within those domains newest first: the returned rows leave the queue,
    /// nothing else changes, the batch is ordered by descending timestamp,
    /// its first row is as recent as anything the queue held, it spans at
    /// most 10 domains, it is empty only when the queue was, and when it is
    /// shorter than 100 rows the queue keeps no row of any domain it spans.
    pub fn dequeue_batch(&mut self) -> (batch: Vec<QueueRow>)
        requires
            old(self).wf(),
        ensures
            final(self).wf(),
            final(self).pages@ == old(self).pages@,
            final(self).favicons@ == old(self).favicons@,
            final(self).next_queue_id == old(self).next_queue_id,
            final(self).next_page_id == old(self).next_page_id,
            final(self).next_favicon_id == old(self).next_favicon_id,
            final(self).queue@.to_multiset().add(batch@.to_multiset()) == old(
                self,
            ).queue@.to_multiset(),
            batch@.len() <= 100,
            forall|i: int, j: int|
                0 <= i < j < batch@.len() ==> batch@[i].timestamp >= batch@[j].timestamp,
            exists|ds: Set<Seq<char>>|
                ds.finite() && ds.len() <= 10 && forall|i: int|
                    0 <= i < batch@.len() ==> ds.contains((#[trigger] batch@[i]).domain@),
            old(self).queue@.len() > 0 ==> batch@.len() > 0 && freshest_ts(
                old(self).queue@,
                batch@[0].timestamp,
            ),
            batch@.len() < 100 ==> forall|i: int, j: int|
                0 <= i < final(self).queue@.len() && 0 <= j < batch@.len() ==> (
                #[trigger] final(self).queue@[i]).domain@ != (#[trigger] batch@[j]).domain@,
    {
        broadcast use vstd::seq_lib::group_to_multiset_ensures;

        let ghost q0 = self.queue@;
        // the domain of the most recently inserted row, if the queue holds any
        let mut domains: Vec<String> = Vec::new();
        let ghost mut dom0: Seq<char> = Seq::empty();
        match self.best_new_domain_index(&domains) {
            Some(b) => {
                proof {
                    dom0 = self.queue@[b as int].domain@;
                }
                let dom = self.queue[b].domain.clone();
                domains.push(dom);
                proof {
                    assert(domains.deep_view() =~= seq![dom0]);
                    assert(freshest_ts(q0, q0[b as int].timestamp));
                    assert(domain_has_freshest(q0, dom0));
                }
            },
            None => {
                proof {
                    if self.queue@.len() > 0 {
                        assert(domains.deep_view().contains(self.queue@[0].domain@));
                        assert(false);
                    }
                }
            },
        }
        // up to 9 more domains, each the most recent outside those chosen
        let mut d: usize = 1;
        while d < 10
            invariant
                self == old(self),
                q0 == self.queue@,
                1 <= d <= 10,
                domains@.len() <= d,
                q0.len() > 0 ==> domains@.len() >= 1 && domains.deep_view()[0] == dom0,
            decreases 10 - d,
        {
            match self.best_new_domain_index(&domains) {
                Some(b) => {
                    let ghost dvpre = domains.deep_view();
                    let dom = self.queue[b].domain.clone();
                    domains.push(dom);
                    proof {
                        assert(domains.deep_view() =~= dvpre.push(self.queue@[b as int].domain@));
                    }
                },
                None => {},
            }
            d = d + 1;
        }
        let ghost dset = domains.deep_view().to_set();
        proof {
            domains.deep_view().lemma_cardinality_of_set();
        }
        // drain the newest rows of those domains, newest first
        let mut batch: Vec<QueueRow> = Vec::new();
        let ghost pages1 = self.pages@;
        let ghost favicons1 = self.favicons@;
        let mut t: usize = 0;
        while t < 100
            invariant
                0 <= t <= 100,
                batch@.len() == t,
                self.wf(),
                self.pages@ == pages1,
                self.favicons@ == favicons1,
                self.next_queue_id == old(self).next_queue_id,
                self.next_page_id == old(self).next_page_id,
                self.next_favicon_id == old(self).next_favicon_id,
                self.queue@.to_multiset().add(batch@.to_multiset()) == q0.to_multiset(),
                forall|i: int, j: int|
                    0 <= i < j < batch@.len() ==> batch@[i].timestamp >= batch@[j].timestamp,
                dset == domains.deep_view().to_set(),
                q0.len() > 0 ==> domains.deep_view().len() >= 1 && domains.deep_view()[0] == dom0
                    && domain_has_freshest(q0, dom0),
                batch@.len() == 0 ==> self.queue@ == q0,
                batch@.len() > 0 ==> freshest_ts(q0, batch@[0].timestamp),
                forall|i: int|
                    0 <= i < batch@.len() ==> dset.contains((#[trigger] batch@[i]).domain@),
                batch@.len() > 0 ==> forall|k: int|
                    0 <= k < self.queue@.len() && domains.deep_view().contains(
                        (#[trigger] self.queue@[k]).domain@,
                    ) ==> self.queue@[k].timestamp <= batch@.last().timestamp,
            ensures
                batch@.len() < 100 ==> forall|k: int|
                    0 <= k < self.queue@.len() ==> !domains.deep_view().contains(
                        (#[trigger] self.queue@[k]).domain@,
                    ),
            decreases 100 - t,
        {
            match self.best_queue_index(&domains) {
                Some(b) => {
                    let ghost qpre = self.queue@;
                    let ghost bpre = batch@;
                    let row = self.queue.remove(b);
                    batch.push(row);
                    proof {
                        broadcast use vstd::seq_lib::group_to_multiset_ensures;
                        broadcast use vstd::set::group_set_axioms;

                        if bpre.len() == 0 {
                            assert(batch@[0] == row);
                            let k = choose|k: int|
                                0 <= k < q0.len() && (#[trigger] q0[k]).domain@ == dom0
                                    && freshest_ts(q0, q0[k].timestamp);
                            assert(domains.deep_view().contains(qpre[k].domain@));
                            assert(qpre[k].timestamp <= row.timestamp);
                        } else {
                            assert(batch@[0] == bpre[0]);
                        }

                        assert(qpre.remove(b as int).to_multiset() == qpre.to_multiset().remove(
                            qpre[b as int],
                        ));
                        assert(self.queue@.to_multiset().add(batch@.to_multiset())
                            =~= qpre.to_multiset().add(bpre.to_multiset()));
                        assert forall|i: int, j: int|
                            0 <= i < j < self.queue@.len() implies self.queue@[i].url@
                            != self.queue@[j].url@ by {
                            assert(self.queue@[i] == if i < b as int {
                                qpre[i]
                            } else {
                                qpre[i + 1]
                            });
                            assert(self.queue@[j] == if j < b as int {
                                qpre[j]
                            } else {
                                qpre[j + 1]
                            });
                        }
                        assert forall|i: int|
                            0 <= i < self.queue@.len() implies (#[trigger] self.queue@[i]).id
                            < self.next_queue_id by {
                            assert(self.queue@[i] == if i < b as int {
                                qpre[i]
                            } else {
                                qpre[i + 1]
                            });
                        }
                        assert(dset.contains(row.domain@));
                        assert forall|k: int|
                            0 <= k < self.queue@.len() && domains.deep_view().contains(
                                (#[trigger] self.queue@[k]).domain@,
                            ) implies self.queue@[k].timestamp <= batch@.last().timestamp by {
                            assert(self.queue@[k] == if k < b as int {
                                qpre[k]
                            } else {
                                qpre[k + 1]
                            });
                        }
                    }
                },
                None => {
                    break ;
                },
            }
            t = t + 1;
        }
        proof {
            broadcast use vstd::seq_lib::group_to_multiset_ensures;
            broadcast use vstd::set::group_set_axioms;
            broadcast use vstd::seq_lib::seq_to_set_is_finite;

            assert(dset.finite() && dset.len() <= 10 && (forall|i: int|
                0 <= i < batch@.len() ==> dset.contains((#[trigger] batch@[i]).domain@)));
            if q0.len() > 0 && batch@.len() == 0 {
                let k = choose|k: int|
                    0 <= k < q0.len() && (#[trigger] q0[k]).domain@ == dom0 && freshest_ts(
                        q0,
                        q0[k].timestamp,
                    );
                assert(domains.deep_view().contains(self.queue@[k].domain@));
                assert(false);
            }
            if batch@.len() < 100 {
                assert forall|i: int, j: int|
                    0 <= i < self.queue@.len() && 0 <= j < batch@.len() implies (
                #[trigger] self.queue@[i]).domain@ != (#[trigger] batch@[j]).domain@ by {
                    assert(dset.contains(batch@[j].domain@));
                    assert(domains.deep_view().contains(batch@[j].domain@));
                    assert(!domains.deep_view().contains(self.queue@[i].domain@));
                }
            }
        }
        batch
    }

    /// The URLs of every persisted page, for seeding the visited set.
    pub fn load_visited_urls(&self) -> (r: Vec<String>)
        ensures
            r@.len() == self.pages@.len(),
            forall|i: int| 0 <= i < r@.len() ==> r@[i]@ == #[trigger] self.pages@[i].data.url@,
    {
        let n = self.pages.len();
        let mut r: Vec<String> = Vec::new();
        let mut i: usize = 0;
        while i < n
            invariant
                n == self.pages@.len(),
                0 <= i <= n,
                r@.len() == i,
                forall|j: int| 0 <= j < i ==> r@[j]@ == #[trigger] self.pages@[j].data.url@,
            decreases n - i,
        {
            r.push(self.pages[i].data.url.clone());
            i = i + 1;
        }
        r
    }
}

} // verus!
