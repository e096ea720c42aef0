//! The shared domain registry: one `Website` policy state per domain,
//! created on first touch and kept for the process lifetime.
use crate::website::CrawlDecision;
use crate::website::Website;
use vstd::prelude::*;
use vstd::string::StringExecFns;

verus! {

/// The registry of per-domain policy states.
pub struct DomainRegistry {
    /// One policy state per domain, in order of first touch.
    pub sites: Vec<Website>,
}

impl DomainRegistry {
    /// The per-domain states, in order of first touch.
    pub open spec fn sites(self) -> Seq<Website> {
        self.sites@
    }

    /// No two entries belong to the same domain.
    pub open spec fn wf(self) -> bool {
        forall|i: int, j: int|
            0 <= i < j < self.sites@.len() ==> self.sites@[i].domain@ != self.sites@[j].domain@
    }

    /// All recorded instants lie at or before `now`.
    pub open spec fn inv_at(self, now: i64) -> bool {
        forall|i: int| 0 <= i < self.sites@.len() ==> #[trigger] self.sites@[i].inv_at(now)
    }

    /// The index of the entry for `domain`, if one exists.
    pub open spec fn spec_index_of(self, domain: Seq<char>) -> Option<int> {
        if exists|i: int| 0 <= i < self.sites@.len() && self.sites@[i].domain@ == domain {
            Some(choose|i: int| 0 <= i < self.sites@.len() && self.sites@[i].domain@ == domain)
        } else {
            None
        }
    }

    /// An empty registry.
    pub fn new() -> (r: DomainRegistry)
        ensures
            r.wf(),
            r.sites().len() == 0,
    {
        DomainRegistry { sites: Vec::new() }
    }

    /// The number of domains registered.
    pub fn len(&self) -> (n: usize)
        ensures
            n == self.sites().len(),
    {
        self.sites.len()
    }

    /// A copy of the state at `i`.
    pub fn site_at(&self, i: usize) -> (w: Website)
        requires
            i < self.sites().len(),
        ensures
            w == self.sites()[i as int],
    {
        let site = &self.sites[i];
        Website {
            domain: site.domain.clone(),
            robots: site.robots.clone(),
            last_robots_fetch: site.last_robots_fetch,
            last_crawl: site.last_crawl,
        }
    }

    fn find(&self, domain: &str) -> (r: Option<usize>)
        ensures
            match r {
                Some(i) => i < self.sites().len() && self.sites()[i as int].domain@ == domain@,
                None => forall|i: int|
                    0 <= i < self.sites().len() ==> self.sites()[i].domain@ != domain@,
            },
    {
        let n = self.sites.len();
        let mut i: usize = 0;
        let key = String::from_str(domain);
        while i < n
            invariant
                n == self.sites@.len(),
                0 <= i <= n,
                key@ == domain@,
                forall|j: int| 0 <= j < i ==> self.sites@[j].domain@ != domain@,
            decreases n - i,
        {
            if self.sites[i].domain == key {
                return Some(i);
            }
            i = i + 1;
        }
        None
    }

    /// The index of the entry for `domain`, creating a fresh one on first
    /// touch.
    pub fn get_or_insert(&mut self, domain: String) -> (i: usize)
        requires
            old(self).wf(),
        ensures
            final(self).wf(),
            i < final(self).sites().len(),
            final(self).sites()[i as int].domain@ == domain@,
            final(self).spec_index_of(domain@) == Some(i as int),
            match old(self).spec_index_of(domain@) {
                Some(j) => final(self).sites() == old(self).sites() && i == j,
                None => final(self).sites() == old(self).sites().push(
                    Website { domain, robots: None, last_robots_fetch: None, last_crawl: None },
                ),
            },
    {
        match self.find(domain.as_str()) {
            Some(i) => {
                proof {
                    let j = choose|j: int|
                        0 <= j < self.sites@.len() && self.sites@[j].domain@ == domain@;
                    assert(j == i as int);
                }
                i
            },
            None => {
                let i = self.sites.len();
                self.sites.push(Website::new(domain));
                proof {
                    assert(self.sites@[i as int].domain@ == domain@);
                    let j = choose|j: int|
                        0 <= j < self.sites@.len() && self.sites@[j].domain@ == domain@;
                    assert(j == i as int);
                }
                i
            },
        }
    }

    /// Whether robots.txt is due for the domain at `i`.
    pub fn should_fetch_robots_at(&self, i: usize, now: i64) -> (r: bool)
        requires
            i < self.sites().len(),
            self.inv_at(now),
        ensures
            r == self.sites()[i as int].spec_should_fetch_robots(now),
    {
        self.sites[i].should_fetch_robots(now)
    }

    /// Record a completed robots.txt fetch for the domain at `i`.
    pub fn set_robots_at(&mut self, i: usize, text: Option<String>, now: i64)
        requires
            i < old(self).sites().len(),
            old(self).wf(),
        ensures
            final(self).wf(),
            final(self).sites().len() == old(self).sites().len(),
            final(self).sites()[i as int].domain == old(self).sites()[i as int].domain,
            final(self).sites()[i as int].robots == text,
            final(self).sites()[i as int].last_robots_fetch == Some(now),
            final(self).sites()[i as int].last_crawl == old(self).sites()[i as int].last_crawl,
            forall|j: int|
                0 <= j < old(self).sites().len() && j != i ==> final(self).sites()[j] == old(
                    self,
                ).sites()[j],
    {
        let site = &mut self.sites[i];
        site.set_robots(text, now);
    }

    /// Run the politeness check for the domain at `i`.
    pub fn decide_crawl_at(&mut self, i: usize, user_agent: &str, url: &str, now: i64) -> (d:
        CrawlDecision)
        requires
            i < old(self).sites().len(),
            old(self).wf(),
            old(self).inv_at(now),
            now >= 0,
        ensures
            final(self).wf(),
            final(self).inv_at(now),
            final(self).sites().len() == old(self).sites().len(),
            d == old(self).sites()[i as int].spec_decision(user_agent@, url@, now),
            final(self).sites()[i as int].domain == old(self).sites()[i as int].domain,
            final(self).sites()[i as int].robots == old(self).sites()[i as int].robots,
            final(self).sites()[i as int].last_robots_fetch == old(self).sites()[
                i as int
            ].last_robots_fetch,
            d is Proceed ==> final(self).sites()[i as int].last_crawl == Some(now),
            !(d is Proceed) ==> final(self).sites()[i as int] == old(self).sites()[i as int],
            forall|j: int|
                0 <= j < old(self).sites().len() && j != i ==> final(self).sites()[j] == old(
                    self,
                ).sites()[j],
    {
        let site = &mut self.sites[i];
        site.decide_crawl(user_agent, url, now)
    }
}

} // verus!
