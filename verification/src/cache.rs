//! A bounded least-recently-used cache from image URLs to raw bytes.
//!
//! The storage itself is `lru::LruCache`; its behaviour is taken on trust
//! through the wrappers below, each stated against the crate's source. The
//! `ImageCache` methods then prove that the cache is always well formed: the
//! recency list holds each key once, it agrees with the entry map, and it
//! never grows beyond the capacity fixed at construction.

use std::num::NonZeroUsize;
use vstd::prelude::*;

verus! {

/// The number of images the feed fetcher keeps, fixed at construction.
pub const CACHE_CAPACITY: usize = 10;

#[verifier::external_body]
struct LruStore {
    inner: lru::LruCache<String, Vec<u8>>,
}

/// The key/value pairs the underlying store currently holds.
pub uninterp spec fn lru_entries(c: LruStore) -> Map<Seq<char>, Seq<u8>>;

/// The keys of the underlying store, most recently used first.
pub uninterp spec fn lru_order(c: LruStore) -> Seq<Seq<char>>;

/// The capacity the underlying store was created with.
pub uninterp spec fn lru_capacity(c: LruStore) -> nat;

/// Relies on `lru::LruCache::new`: an empty cache that holds at most `cap`
/// entries (`cap` is nonzero, so the `NonZeroUsize` conversion succeeds).
#[verifier::external_body]
fn lru_new(cap: usize) -> (c: LruStore)
    requires
        1 <= cap,
    ensures
        lru_entries(c).dom() == Set::<Seq<char>>::empty(),
        lru_order(c) == Seq::<Seq<char>>::empty(),
        lru_capacity(c) == cap as nat,
{
    LruStore { inner: lru::LruCache::new(NonZeroUsize::new(cap).unwrap()) }
}

/// Relies on `lru::LruCache::get`: returns the stored value for the key and
/// moves the key to the most-recently-used position; a miss leaves the cache
/// unchanged.
#[verifier::external_body]
fn lru_get(c: &mut LruStore, key: &String) -> (r: Option<Vec<u8>>)
    ensures
        lru_capacity(*final(c)) == lru_capacity(*old(c)),
        lru_entries(*final(c)) == lru_entries(*old(c)),
        lru_entries(*old(c)).dom().contains(key@) ==> {
            &&& r matches Some(v) && v@ == lru_entries(*old(c))[key@]
            &&& lru_order(*final(c)) == seq![key@] + lru_order(*old(c)).remove_value(key@)
        },
        !lru_entries(*old(c)).dom().contains(key@) ==> {
            &&& r is None
            &&& lru_order(*final(c)) == lru_order(*old(c))
        },
{
    match c.inner.get(key) {
        Some(v) => Some(v.clone()),
        None => None,
    }
}

/// Relies on `lru::LruCache::put`: an existing key is updated in place and
/// becomes the most recently used; a new key is inserted at the
/// most-recently-used position, and when the cache is full the entry at the
/// least-recently-used position is evicted first.
#[verifier::external_body]
fn lru_put(c: &mut LruStore, key: String, value: Vec<u8>)
    ensures
        lru_capacity(*final(c)) == lru_capacity(*old(c)),
        lru_entries(*old(c)).dom().contains(key@) ==> {
            &&& lru_entries(*final(c)) == lru_entries(*old(c)).insert(key@, value@)
            &&& lru_order(*final(c)) == seq![key@] + lru_order(*old(c)).remove_value(key@)
        },
        !lru_entries(*old(c)).dom().contains(key@) && lru_order(*old(c)).len() != lru_capacity(
            *old(c),
        ) ==> {
            &&& lru_entries(*final(c)) == lru_entries(*old(c)).insert(key@, value@)
            &&& lru_order(*final(c)) == seq![key@] + lru_order(*old(c))
        },
        !lru_entries(*old(c)).dom().contains(key@) && lru_order(*old(c)).len() == lru_capacity(
            *old(c),
        ) ==> {
            &&& lru_entries(*final(c)) == lru_entries(*old(c)).remove(
                lru_order(*old(c)).last(),
            ).insert(key@, value@)
            &&& lru_order(*final(c)) == seq![key@] + lru_order(*old(c)).drop_last()
        },
{
    c.inner.put(key, value);
}

/// Relies on `lru::LruCache::len`: the number of entries, which equals the
/// length of the recency list since the crate keeps its map and its list in
/// step.
#[verifier::external_body]
fn lru_len(c: &LruStore) -> (n: usize)
    ensures
        n as nat == lru_order(*c).len(),
{
    c.inner.len()
}

/// A bounded LRU map from image URLs to image bytes.
pub struct ImageCache {
    store: LruStore,
}

impl ImageCache {
    /// The entries currently held, keyed by URL.
    pub closed spec fn entries(self) -> Map<Seq<char>, Seq<u8>> {
        lru_entries(self.store)
    }

    /// The keys currently held, most recently touched first.
    pub closed spec fn order(self) -> Seq<Seq<char>> {
        lru_order(self.store)
    }

    /// The fixed capacity.
    pub closed spec fn capacity(self) -> nat {
        lru_capacity(self.store)
    }

    pub open spec fn spec_contains(self, url: Seq<char>) -> bool {
        self.entries().dom().contains(url)
    }

    /// The cache is well formed: the recency list repeats no key, lists
    /// exactly the keys of the entry map, and stays within capacity.
    pub open spec fn wf(self) -> bool {
        &&& self.order().no_duplicates()
        &&& self.entries().dom() == self.order().to_set()
        &&& self.order().len() <= self.capacity()
        &&& 1 <= self.capacity()
    }

    pub fn new(cap: usize) -> (c: ImageCache)
        requires
            1 <= cap,
        ensures
            c.wf(),
            c.entries().dom() == Set::<Seq<char>>::empty(),
            c.order() == Seq::<Seq<char>>::empty(),
            c.capacity() == cap as nat,
    {
        let c = ImageCache { store: lru_new(cap) };
        proof {
            assert(c.entries().dom() =~= c.order().to_set());
        }
        c
    }

    pub fn len(&self) -> (n: usize)
        ensures
            n as nat == self.order().len(),
    {
        lru_len(&self.store)
    }

    /// Looks a URL up. A hit returns the stored bytes and refreshes the key's
    /// recency; a miss changes nothing. The entry map is never changed.
    pub fn get(&mut self, url: &String) -> (r: Option<Vec<u8>>)
        requires
            old(self).wf(),
        ensures
            final(self).wf(),
            final(self).capacity() == old(self).capacity(),
            final(self).entries() == old(self).entries(),
            r matches Some(v) ==> old(self).spec_contains(url@) && v@ == old(self).entries()[url@],
            r is None ==> !old(self).spec_contains(url@),
            old(self).spec_contains(url@) ==> final(self).order() == seq![url@] + old(
                self,
            ).order().remove_value(url@),
            !old(self).spec_contains(url@) ==> final(self).order() == old(self).order(),
    {
        let ghost pre = *self;
        let r = lru_get(&mut self.store, url);
        proof {
            if pre.spec_contains(url@) {
                lemma_remove_value_facts(pre.order(), url@);
                lemma_prepend_facts(pre.order().remove_value(url@), url@);
                assert(self.entries().dom() =~= self.order().to_set());
            }
        }
        r
    }

    /// Stores bytes under a URL. The URL becomes the most recently used key.
    /// A URL already present is updated in place; a new URL at capacity first
    /// evicts the least recently touched key, the last of the recency list.
    pub fn put(&mut self, url: String, bytes: Vec<u8>)
        requires
            old(self).wf(),
        ensures
            final(self).wf(),
            final(self).capacity() == old(self).capacity(),
            final(self).spec_contains(url@),
            final(self).entries()[url@] == bytes@,
            old(self).spec_contains(url@) ==> {
                &&& final(self).entries() == old(self).entries().insert(url@, bytes@)
                &&& final(self).order() == seq![url@] + old(self).order().remove_value(url@)
            },
            !old(self).spec_contains(url@) && old(self).order().len() < old(self).capacity()
                ==> {
                &&& final(self).entries() == old(self).entries().insert(url@, bytes@)
                &&& final(self).order() == seq![url@] + old(self).order()
            },
            !old(self).spec_contains(url@) && old(self).order().len() == old(self).capacity()
                ==> {
                &&& final(self).entries() == old(self).entries().remove(
                    old(self).order().last(),
                ).insert(url@, bytes@)
                &&& final(self).order() == seq![url@] + old(self).order().drop_last()
            },
    {
        let ghost pre = *self;
        lru_put(&mut self.store, url, bytes);
        proof {
            if pre.spec_contains(url@) {
                lemma_remove_value_facts(pre.order(), url@);
                lemma_prepend_facts(pre.order().remove_value(url@), url@);
                assert(self.entries().dom() =~= self.order().to_set());
            } else if pre.order().len() != pre.capacity() {
                lemma_prepend_facts(pre.order(), url@);
                assert(!pre.order().to_set().contains(url@));
                assert(self.entries().dom() =~= self.order().to_set());
            } else {
                lemma_drop_last_facts(pre.order());
                lemma_prepend_facts(pre.order().drop_last(), url@);
                assert(!pre.order().drop_last().contains(url@));
                assert(self.entries().dom() =~= self.order().to_set());
            }
        }
    }
}

/// Removing the first occurrence of a value from a duplicate-free sequence
/// that contains it shortens it by one, keeps it duplicate-free, and removes
/// exactly that value from its set of elements.
proof fn lemma_remove_value_facts(s: Seq<Seq<char>>, k: Seq<char>)
    requires
        s.no_duplicates(),
        s.contains(k),
    ensures
        s.remove_value(k).len() == s.len() - 1,
        s.remove_value(k).no_duplicates(),
        !s.remove_value(k).contains(k),
        s.remove_value(k).to_set() == s.to_set().remove(k),
{
    s.index_of_first_ensures(k);
    let i = s.index_of_first(k)->Some_0;
    s.remove_ensures(i);
    let t = s.remove(i);
    assert forall|x: Seq<char>| t.contains(x) implies s.contains(x) && x != k by {
        let j = choose|j: int| 0 <= j < t.len() && t[j] == x;
        if j < i {
            assert(s[j] == x);
        } else {
            assert(s[j + 1] == x);
        }
    }
    assert forall|x: Seq<char>| s.contains(x) && x != k implies t.contains(x) by {
        let j = choose|j: int| 0 <= j < s.len() && s[j] == x;
        if j < i {
            assert(t[j] == x);
        } else {
            assert(j > i);
            assert(t[j - 1] == x);
        }
    }
    assert(t.to_set() =~= s.to_set().remove(k));
}

/// Prepending a value not already present keeps a duplicate-free sequence
/// duplicate-free and adds exactly that value to its set of elements.
proof fn lemma_prepend_facts(t: Seq<Seq<char>>, k: Seq<char>)
    requires
        t.no_duplicates(),
        !t.contains(k),
    ensures
        (seq![k] + t).no_duplicates(),
        (seq![k] + t).to_set() == t.to_set().insert(k),
        (seq![k] + t).len() == t.len() + 1,
{
    let u = seq![k] + t;
    assert forall|x: Seq<char>| u.contains(x) implies t.to_set().insert(k).contains(x) by {
        let j = choose|j: int| 0 <= j < u.len() && u[j] == x;
        if j > 0 {
            assert(t[j - 1] == x);
        }
    }
    assert forall|x: Seq<char>| t.to_set().insert(k).contains(x) implies u.contains(x) by {
        if x == k {
            assert(u[0] == x);
        } else {
            let j = choose|j: int| 0 <= j < t.len() && t[j] == x;
            assert(u[j + 1] == x);
        }
    }
    assert(u.to_set() =~= t.to_set().insert(k));
}

/// Dropping the last element of a duplicate-free, non-empty sequence removes
/// exactly that element from its set of elements.
proof fn lemma_drop_last_facts(s: Seq<Seq<char>>)
    requires
        s.no_duplicates(),
        s.len() >= 1,
    ensures
        s.drop_last().no_duplicates(),
        !s.drop_last().contains(s.last()),
        s.drop_last().to_set() == s.to_set().remove(s.last()),
{
    let t = s.drop_last();
    assert forall|x: Seq<char>| s.to_set().remove(s.last()).contains(x) implies t.contains(x) by {
        let j = choose|j: int| 0 <= j < s.len() && s[j] == x;
        assert(j != s.len() - 1);
        assert(t[j] == x);
    }
    assert(t.to_set() =~= s.to_set().remove(s.last()));
}

/// What a store of a new URL into a full cache evicts: exactly the least
/// recently touched key — the last of the recency list — while every other
/// key survives and the new URL is present. The hypotheses are what `put`
/// ensures in that case.
pub proof fn lemma_put_evicts_least_recent(
    pre: ImageCache,
    post: ImageCache,
    url: Seq<char>,
    bytes: Seq<u8>,
)
    requires
        pre.wf(),
        !pre.spec_contains(url),
        pre.order().len() == pre.capacity(),
        post.entries() == pre.entries().remove(pre.order().last()).insert(url, bytes),
        post.order() == seq![url] + pre.order().drop_last(),
    ensures
        post.spec_contains(url),
        !post.spec_contains(pre.order().last()),
        forall|k: Seq<char>|
            pre.spec_contains(k) && k != pre.order().last() ==> #[trigger] post.spec_contains(k),
        post.order().len() == pre.capacity(),
{
    assert(pre.order().to_set().contains(pre.order().last()));
    assert(pre.spec_contains(pre.order().last()));
    assert(url != pre.order().last());
}

/// A well-formed cache never holds more entries than its capacity, whatever
/// sequence of lookups and stores produced it.
pub proof fn lemma_cache_bounded(c: ImageCache)
    requires
        c.wf(),
    ensures
        c.order().len() <= c.capacity(),
        c.entries().dom().finite(),
        c.entries().dom().len() <= c.capacity(),
{
    c.order().unique_seq_to_set();
}

} // verus!
