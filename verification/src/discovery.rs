//! The discovery server's store of advertisements, keyed by the peer that
//! placed them.
use vstd::prelude::*;
use crate::structures::{DiscoveryRequest, DiscoveryRequestView};

verus! {

/// A discovery request kept by the server for a while.
#[derive(Debug)]
pub struct Advertisement {
    /// The request this advertisement was made from.
    pub discovery: DiscoveryRequest,
    /// When it was placed, in milliseconds since the Unix epoch.
    pub created_at: u64,
    /// How long it stays valid, in milliseconds.
    pub expires_in: u64,
}

/// The mathematical value of an [`Advertisement`].
pub struct AdvertisementView {
    pub discovery: DiscoveryRequestView,
    pub created_at: u64,
    pub expires_in: u64,
}

impl View for Advertisement {
    type V = AdvertisementView;

    open spec fn view(&self) -> AdvertisementView {
        AdvertisementView {
            discovery: self.discovery@,
            created_at: self.created_at,
            expires_in: self.expires_in,
        }
    }
}

/// An advertisement has expired once its lifetime has fully elapsed.
pub open spec fn expired(a: AdvertisementView, now: u64) -> bool {
    a.created_at + a.expires_in <= now
}

impl Advertisement {
    /// Has this advertisement expired at time `now` (milliseconds since the
    /// Unix epoch)?
    pub fn is_expired(&self, now: u64) -> (r: bool)
        ensures
            r == expired(self@, now),
    {
        (self.created_at as u128) + (self.expires_in as u128) <= now as u128
    }
}

/// One stored advertisement and the key it is stored under.
#[derive(Debug)]
pub struct QueueEntry {
    pub key: String,
    pub advert: Advertisement,
}

/// No two entries share a key.
pub open spec fn keys_distinct(s: Seq<QueueEntry>) -> bool {
    forall|i: int, j: int| 0 <= i < s.len() && 0 <= j < s.len() && i != j ==> #[trigger] s[i].key@ != #[trigger] s[j].key@
}

/// Some entry has key `k`.
pub open spec fn has_key(s: Seq<QueueEntry>, k: Seq<char>) -> bool {
    exists|i: int| 0 <= i < s.len() && #[trigger] s[i].key@ == k
}

/// The position of an entry with key `k`.
pub open spec fn key_pos(s: Seq<QueueEntry>, k: Seq<char>) -> int {
    choose|i: int| 0 <= i < s.len() && #[trigger] s[i].key@ == k
}

/// The map from keys to advertisements that a list of entries stands for.
pub open spec fn entries_map(s: Seq<QueueEntry>) -> Map<Seq<char>, AdvertisementView> {
    Map::new(|k: Seq<char>| has_key(s, k), |k: Seq<char>| s[key_pos(s, k)].advert@)
}

/// The store without the advertisements that have expired at `now`.
pub open spec fn cleaned(q: Map<Seq<char>, AdvertisementView>, now: u64) -> Map<Seq<char>, AdvertisementView> {
    Map::new(|k: Seq<char>| q.contains_key(k) && !expired(q[k], now), |k: Seq<char>| q[k])
}

proof fn lemma_pos_unique(s: Seq<QueueEntry>, i: int)
    requires
        keys_distinct(s),
        0 <= i < s.len(),
    ensures
        has_key(s, s[i].key@),
        key_pos(s, s[i].key@) == i,
        entries_map(s).contains_key(s[i].key@),
        entries_map(s)[s[i].key@] == s[i].advert@,
{
    let k = s[i].key@;
    assert(has_key(s, k));
    let j = key_pos(s, k);
    assert(s[j].key@ == k);
}

proof fn lemma_map_len(s: Seq<QueueEntry>)
    requires
        keys_distinct(s),
    ensures
        entries_map(s).dom().finite(),
        entries_map(s).len() == s.len(),
{
    let ks = s.map_values(|e: QueueEntry| e.key@);
    assert(ks.no_duplicates()) by {
        assert forall|i: int, j: int| 0 <= i < ks.len() && 0 <= j < ks.len() && i != j implies ks[i] != ks[j] by {
            assert(ks[i] == s[i].key@);
            assert(ks[j] == s[j].key@);
        }
    }
    assert(entries_map(s).dom() =~= ks.to_set()) by {
        assert forall|k: Seq<char>| entries_map(s).dom().contains(k) implies ks.to_set().contains(k) by {
            let i = key_pos(s, k);
            assert(ks[i] == k);
        }
        assert forall|k: Seq<char>| ks.to_set().contains(k) implies entries_map(s).dom().contains(k) by {
            let i = choose|i: int| 0 <= i < ks.len() && ks[i] == k;
            assert(s[i].key@ == k);
        }
    }
    ks.unique_seq_to_set();
}

/// The advertisements placed with the discovery server, each under the name
/// of the peer that placed it.
#[derive(Debug)]
pub struct DiscoveryQueue {
    entries: Vec<QueueEntry>,
}

impl View for DiscoveryQueue {
    type V = Map<Seq<char>, AdvertisementView>;

    closed spec fn view(&self) -> Map<Seq<char>, AdvertisementView> {
        entries_map(self.entries@)
    }
}

impl DiscoveryQueue {
    #[verifier::type_invariant]
    spec fn inv(self) -> bool {
        keys_distinct(self.entries@)
    }

    /// An empty store.
    pub fn new() -> (q: Self)
        ensures
            q@ == Map::<Seq<char>, AdvertisementView>::empty(),
    {
        let q = DiscoveryQueue { entries: Vec::new() };
        assert(q@ =~= Map::<Seq<char>, AdvertisementView>::empty());
        q
    }

    /// The number of stored advertisements.
    pub fn len(&self) -> (n: usize)
        ensures
            n == self@.len(),
    {
        proof {
            use_type_invariant(self);
            lemma_map_len(self.entries@);
        }
        self.entries.len()
    }

    /// The advertisement stored under `key`, if any.
    pub fn get(&self, key: &String) -> (r: Option<&Advertisement>)
        ensures
            r is None <==> !self@.contains_key(key@),
            r matches Some(a) ==> a@ == self@[key@],
    {
        proof {
            use_type_invariant(self);
        }
        let n = self.entries.len();
        let mut i: usize = 0;
        while i < n
            invariant
                n == self.entries@.len(),
                i <= n,
                keys_distinct(self.entries@),
                forall|j: int| 0 <= j < i ==> #[trigger] self.entries@[j].key@ != key@,
            decreases n - i,
        {
            if self.entries[i].key == *key {
                proof {
                    lemma_pos_unique(self.entries@, i as int);
                }
                return Some(&self.entries[i].advert);
            }
            i = i + 1;
        }
        proof {
            if has_key(self.entries@, key@) {
                let j = key_pos(self.entries@, key@);
                assert(self.entries@[j].key@ == key@);
            }
        }
        None
    }

    /// Is an advertisement stored under `key`?
    pub fn contains_key(&self, key: &String) -> (r: bool)
        ensures
            r == self@.contains_key(key@),
    {
        self.get(key).is_some()
    }

    /// Stores `advert` under `key`, replacing what was stored there before.
    pub fn insert(&mut self, key: String, advert: Advertisement)
        ensures
            final(self)@ == old(self)@.insert(key@, advert@),
    {
        proof {
            use_type_invariant(&*self);
        }
        let ghost k = key@;
        let ghost v = advert@;
        let mut entries: Vec<QueueEntry> = Vec::new();
        std::mem::swap(&mut entries, &mut self.entries);
        let ghost s = entries@;
        assert(entries_map(s) == old(self)@);
        let n = entries.len();
        let mut i: usize = 0;
        while i < n
            invariant
                n == entries@.len(),
                entries@ == s,
                key@ == k,
                advert@ == v,
                entries_map(s) == old(self)@,
                i <= n,
                keys_distinct(s),
                forall|j: int| 0 <= j < i ==> #[trigger] s[j].key@ != k,
            decreases n - i,
        {
            if entries[i].key == key {
                entries.set(i, QueueEntry { key, advert });
                proof {
                    let s2 = entries@;
                    assert(s2 == s.update(i as int, s2[i as int]));
                    assert(keys_distinct(s2)) by {
                        assert forall|a: int, b: int| 0 <= a < s2.len() && 0 <= b < s2.len() && a != b implies #[trigger] s2[a].key@ != #[trigger] s2[b].key@ by {
                            assert(s[a].key@ != s[b].key@);
                        }
                    }
                    lemma_entries_update(s, i as int, s2);
                }
                self.entries = entries;
                return;
            }
            i = i + 1;
        }
        entries.push(QueueEntry { key, advert });
        proof {
            let s2 = entries@;
            assert(!has_key(s, k)) by {
                if has_key(s, k) {
                    let j = key_pos(s, k);
                    assert(s[j].key@ == k);
                }
            }
            assert(keys_distinct(s2)) by {
                assert forall|a: int, b: int| 0 <= a < s2.len() && 0 <= b < s2.len() && a != b implies #[trigger] s2[a].key@ != #[trigger] s2[b].key@ by {
                    if a < s.len() && b < s.len() {
                        assert(s2[a] == s[a] && s2[b] == s[b]);
                    } else if a < s.len() {
                        assert(s2[a] == s[a]);
                    } else {
                        assert(s2[b] == s[b]);
                    }
                }
            }
            lemma_entries_push(s, s2);
        }
        self.entries = entries;
    }
}

impl DiscoveryQueue {
    /// Removes every advertisement that has expired at `now` (milliseconds
    /// since the Unix epoch) and returns how many were removed.
    pub fn remove_expired(&mut self, now: u64) -> (removed: usize)
        ensures
            final(self)@ == cleaned(old(self)@, now),
            removed as int == old(self)@.len() - final(self)@.len(),
            removed as int == old(self)@.dom().filter(|k: Seq<char>| expired(old(self)@[k], now)).len(),
    {
        proof {
            use_type_invariant(&*self);
        }
        let mut entries: Vec<QueueEntry> = Vec::new();
        std::mem::swap(&mut entries, &mut self.entries);
        let ghost s = entries@;
        let n = entries.len();
        let mut kept: Vec<QueueEntry> = Vec::new();
        let ghost mut origin: Seq<int> = Seq::empty();
        let mut i: usize = n;
        while i > 0
            invariant
                n == s.len(),
                i <= n,
                keys_distinct(s),
                entries@ == s.take(i as int),
                keys_distinct(kept@),
                origin.len() == kept@.len(),
                kept@.len() <= n - i,
                forall|t: int| 0 <= t < origin.len() ==> i <= #[trigger] origin[t] < n && s[origin[t]] == kept@[t] && !expired(s[origin[t]].advert@, now),
                forall|j: int| i <= j < n && !expired(#[trigger] s[j].advert@, now) ==> exists|t: int| 0 <= t < kept@.len() && kept@[t] == s[j],
            decreases i,
        {
            let e = entries.pop().unwrap();
            i = i - 1;
            proof {
                assert(e == s[i as int]);
                assert(entries@ =~= s.take(i as int));
            }
            if !e.advert.is_expired(now) {
                let ghost before = kept@;
                let ghost before_origin = origin;
                kept.push(e);
                proof {
                    origin = origin.push(i as int);
                    let k2 = kept@;
                    assert forall|a: int, b: int| 0 <= a < k2.len() && 0 <= b < k2.len() && a != b implies #[trigger] k2[a].key@ != #[trigger] k2[b].key@ by {
                        if a < before.len() && b < before.len() {
                            assert(k2[a] == before[a] && k2[b] == before[b]);
                        } else if a < before.len() {
                            assert(k2[a] == before[a]);
                            assert(before_origin[a] == origin[a]);
                            assert(s[origin[a]].key@ != s[i as int].key@);
                        } else {
                            assert(k2[b] == before[b]);
                            assert(before_origin[b] == origin[b]);
                            assert(s[origin[b]].key@ != s[i as int].key@);
                        }
                    }
                    assert forall|t: int| 0 <= t < origin.len() implies i <= #[trigger] origin[t] < n && s[origin[t]] == k2[t] && !expired(s[origin[t]].advert@, now) by {
                        if t < before.len() {
                            assert(before_origin[t] == origin[t]);
                            assert(k2[t] == before[t]);
                        }
                    }
                    assert forall|j: int| i <= j < n && !expired(#[trigger] s[j].advert@, now) implies exists|t: int| 0 <= t < k2.len() && k2[t] == s[j] by {
                        if j == i {
                            assert(k2[before.len() as int] == s[j]);
                        } else {
                            let t = choose|t: int| 0 <= t < before.len() && before[t] == s[j];
                            assert(k2[t] == s[j]);
                        }
                    }
                }
            }
        }
        let removed = n - kept.len();
        proof {
            lemma_kept_is_cleaned(s, kept@, origin, now);
            lemma_map_len(s);
            lemma_map_len(kept@);
            lemma_removed_count(entries_map(s), now);
        }
        self.entries = kept;
        removed
    }
}

proof fn lemma_removed_count(q: Map<Seq<char>, AdvertisementView>, now: u64)
    requires
        q.dom().finite(),
    ensures
        q.len() - cleaned(q, now).len() == q.dom().filter(|k: Seq<char>| expired(q[k], now)).len(),
{
    let gone = q.dom().filter(|k: Seq<char>| expired(q[k], now));
    let stay = q.dom().filter(|k: Seq<char>| !expired(q[k], now));
    q.dom().lemma_len_filter(|k: Seq<char>| expired(q[k], now));
    q.dom().lemma_len_filter(|k: Seq<char>| !expired(q[k], now));
    assert(cleaned(q, now).dom() =~= stay);
    assert(stay + gone =~= q.dom());
    assert(stay.disjoint(gone));
    vstd::set_lib::lemma_set_disjoint_lens(stay, gone);
}

proof fn lemma_kept_is_cleaned(s: Seq<QueueEntry>, k: Seq<QueueEntry>, origin: Seq<int>, now: u64)
    requires
        keys_distinct(s),
        keys_distinct(k),
        origin.len() == k.len(),
        forall|t: int| 0 <= t < origin.len() ==> 0 <= #[trigger] origin[t] < s.len() && s[origin[t]] == k[t] && !expired(s[origin[t]].advert@, now),
        forall|j: int| 0 <= j < s.len() && !expired(#[trigger] s[j].advert@, now) ==> exists|t: int| 0 <= t < k.len() && k[t] == s[j],
    ensures
        entries_map(k) == cleaned(entries_map(s), now),
{
    let m = cleaned(entries_map(s), now);
    assert forall|q: Seq<char>| #[trigger] entries_map(k).contains_key(q) <==> m.contains_key(q) by {
        if has_key(k, q) {
            let t = key_pos(k, q);
            let j = origin[t];
            lemma_pos_unique(s, j);
        }
        if m.contains_key(q) {
            let j = key_pos(s, q);
            lemma_pos_unique(s, j);
            let t = choose|t: int| 0 <= t < k.len() && k[t] == s[j];
            assert(k[t].key@ == q);
        }
    }
    assert forall|q: Seq<char>| entries_map(k).contains_key(q) implies entries_map(k)[q] == m[q] by {
        let t = key_pos(k, q);
        lemma_pos_unique(k, t);
        let j = origin[t];
        lemma_pos_unique(s, j);
    }
    assert(entries_map(k) =~= m);
}

proof fn lemma_entries_update(s: Seq<QueueEntry>, i: int, s2: Seq<QueueEntry>)
    requires
        keys_distinct(s),
        keys_distinct(s2),
        0 <= i < s.len(),
        s2 == s.update(i, s2[i]),
        s2[i].key@ == s[i].key@,
    ensures
        entries_map(s2) == entries_map(s).insert(s2[i].key@, s2[i].advert@),
{
    let k = s2[i].key@;
    let m = entries_map(s).insert(k, s2[i].advert@);
    assert forall|q: Seq<char>| #[trigger] entries_map(s2).contains_key(q) <==> m.contains_key(q) by {
        if has_key(s2, q) {
            let j = key_pos(s2, q);
            if j != i {
                assert(s[j] == s2[j]);
                assert(has_key(s, q));
            }
        }
        if has_key(s, q) {
            let j = key_pos(s, q);
            if j != i {
                assert(s[j] == s2[j]);
            }
            assert(has_key(s2, q));
        }
        if q == k {
            assert(has_key(s2, q));
        }
    }
    assert forall|q: Seq<char>| entries_map(s2).contains_key(q) implies entries_map(s2)[q] == m[q] by {
        let j = key_pos(s2, q);
        lemma_pos_unique(s2, j);
        if j != i {
            assert(s[j] == s2[j]);
            lemma_pos_unique(s, j);
        }
    }
    assert(entries_map(s2) =~= m);
}

proof fn lemma_entries_push(s: Seq<QueueEntry>, s2: Seq<QueueEntry>)
    requires
        keys_distinct(s),
        keys_distinct(s2),
        s2.len() == s.len() + 1,
        forall|j: int| 0 <= j < s.len() ==> s2[j] == s[j],
        !has_key(s, s2[s.len() as int].key@),
    ensures
        entries_map(s2) == entries_map(s).insert(s2[s.len() as int].key@, s2[s.len() as int].advert@),
{
    let n = s.len() as int;
    let k = s2[n].key@;
    let m = entries_map(s).insert(k, s2[n].advert@);
    assert forall|q: Seq<char>| #[trigger] entries_map(s2).contains_key(q) <==> m.contains_key(q) by {
        if has_key(s2, q) {
            let j = key_pos(s2, q);
            if j != n {
                assert(s[j] == s2[j]);
                assert(has_key(s, q));
            }
        }
        if has_key(s, q) {
            let j = key_pos(s, q);
            assert(s[j] == s2[j]);
            assert(has_key(s2, q));
        }
        if q == k {
            assert(has_key(s2, q));
        }
    }
    assert forall|q: Seq<char>| entries_map(s2).contains_key(q) implies entries_map(s2)[q] == m[q] by {
        let j = key_pos(s2, q);
        lemma_pos_unique(s2, j);
        if j != n {
            assert(s[j] == s2[j]);
            lemma_pos_unique(s, j);
        }
    }
    assert(entries_map(s2) =~= m);
}

} // verus!
