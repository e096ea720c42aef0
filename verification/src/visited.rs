//! The process-wide visited set: canonical URLs already dispatched to a
//! worker or already persisted. Backed by `dashmap::DashSet`, which the
//! workers can share; here it is presented through exclusive references.
use vstd::prelude::*;

verus! {

#[verifier::external_type_specification]
#[verifier::external_body]
#[verifier::reject_recursive_types(K)]
#[verifier::reject_recursive_types(S)]
pub struct ExDashSet<K, S>(dashmap::DashSet<K, S>);

/// The URLs a `dashmap::DashSet<String>` holds.
pub uninterp spec fn dashset_urls(s: dashmap::DashSet<String>) -> Set<Seq<char>>;

/// Relies on `dashmap::DashSet::new`: the new set is empty.
#[verifier::external_body]
fn dashset_new() -> (s: dashmap::DashSet<String>)
    ensures
        dashset_urls(s) == Set::<Seq<char>>::empty(),
{
    dashmap::DashSet::new()
}

/// Relies on `dashmap::DashSet::contains`.
#[verifier::external_body]
fn dashset_contains(s: &dashmap::DashSet<String>, url: &str) -> (r: bool)
    ensures
        r == dashset_urls(*s).contains(url@),
{
    s.contains(url)
}

/// Relies on `dashmap::DashSet::insert`: adds the key and returns true when
/// the key was not already present.
#[verifier::external_body]
fn dashset_insert(s: &mut dashmap::DashSet<String>, url: String) -> (r: bool)
    ensures
        dashset_urls(*final(s)) == dashset_urls(*old(s)).insert(url@),
        r == !dashset_urls(*old(s)).contains(url@),
{
    s.insert(url)
}

/// Relies on `dashmap::DashSet::remove`.
#[verifier::external_body]
fn dashset_remove(s: &mut dashmap::DashSet<String>, url: &str)
    ensures
        dashset_urls(*final(s)) == dashset_urls(*old(s)).remove(url@),
{
    s.remove(url);
}

/// The set of canonical URLs already dispatched or persisted.
pub struct VisitedSet {
    set: dashmap::DashSet<String>,
}

impl View for VisitedSet {
    type V = Set<Seq<char>>;

    closed spec fn view(&self) -> Set<Seq<char>> {
        dashset_urls(self.set)
    }
}

impl VisitedSet {
    /// An empty visited set.
    pub fn new() -> (v: VisitedSet)
        ensures
            v@ == Set::<Seq<char>>::empty(),
    {
        VisitedSet { set: dashset_new() }
    }

    /// The visited set seeded with the URLs already persisted.
    pub fn seeded(urls: Vec<String>) -> (v: VisitedSet)
        ensures
            forall|u: Seq<char>| v@.contains(u) <==> urls.deep_view().contains(u),
    {
        let ghost us = urls.deep_view();
        let mut v = VisitedSet::new();
        let n = urls.len();
        let mut i: usize = 0;
        while i < n
            invariant
                n == urls@.len(),
                us == urls.deep_view(),
                0 <= i <= n,
                forall|u: Seq<char>| v@.contains(u) <==> us.take(i as int).contains(u),
            decreases n - i,
        {
            let url: &String = &urls[i];
            v.insert(url.clone());
            proof {
                assert(us[i as int] == urls@[i as int]@);
                assert forall|u: Seq<char>| #[trigger]
                    us.take(i as int + 1).contains(u) implies us.take(i as int).contains(u) || u
                    == us[i as int] by {
                    let k = choose|k: int|
                        0 <= k < i + 1 && (#[trigger] us.take(i as int + 1)[k]) == u;
                    if k < i {
                        assert(us.take(i as int)[k] == u);
                    }
                }
                assert forall|u: Seq<char>|
                    us.take(i as int).contains(u) || u == us[i as int] implies #[trigger] us.take(
                    i as int + 1,
                ).contains(u) by {
                    if us.take(i as int).contains(u) {
                        let k = choose|k: int|
                            0 <= k < i && (#[trigger] us.take(i as int)[k]) == u;
                        assert(us.take(i as int + 1)[k] == u);
                    } else {
                        assert(us.take(i as int + 1)[i as int] == u);
                    }
                }
            }
            i = i + 1;
        }
        proof {
            assert(us.take(n as int) =~= us);
        }
        v
    }

    /// Whether the URL has been dispatched or persisted.
    pub fn contains(&self, url: &str) -> (r: bool)
        ensures
            r == self@.contains(url@),
    {
        dashset_contains(&self.set, url)
    }

    /// Mark the URL as visited.
    pub fn insert(&mut self, url: String)
        ensures
            final(self)@ == old(self)@.insert(url@),
    {
        dashset_insert(&mut self.set, url);
    }

    /// Mark the URL as visited, reporting whether this call claimed it:
    /// a worker may fetch the URL only when its claim succeeded.
    pub fn try_claim(&mut self, url: String) -> (claimed: bool)
        ensures
            final(self)@ == old(self)@.insert(url@),
            claimed == !old(self)@.contains(url@),
    {
        dashset_insert(&mut self.set, url)
    }

    /// Remove the URL so it can be dispatched again.
    pub fn remove(&mut self, url: &str)
        ensures
            final(self)@ == old(self)@.remove(url@),
    {
        dashset_remove(&mut self.set, url)
    }
}

} // verus!
