//! Core of a small weather-forecast service: a TTL cache for fetched
//! forecast snapshots, the unit-tagged measurement model those snapshots are
//! built from, and the schedule logic of the background janitor that evicts
//! stale entries.
//!
//! Network I/O (the upstream fetch), HTTP routing and templating live outside
//! this crate; the cache receives the fetch collaborator as a function value
//! and the current time as an argument.

use vstd::prelude::*;

pub mod calendar;
pub mod config;
pub mod janitor;
pub mod render;
pub mod request;
pub mod weather;

use crate::weather::{OneCall, OneCallV, UnixTimestamp};

verus! {

/// Why a forecast fetch failed: the upstream provider could not be reached,
/// or its response did not decode into a forecast snapshot.
#[derive(Clone, Copy, Debug, PartialEq, Eq, Structural)]
pub enum FetchError {
    NetworkError,
    DecodeError,
}

/// How long a stored snapshot stays fresh: ten minutes.
pub const TTL_SECONDS: i64 = 600;

/// Whether a snapshot is stale at `now`: its age, measured from the
/// provider's own observation time, strictly exceeds the TTL. An age of
/// exactly the TTL is still fresh (the boundary is inclusive on the fresh
/// side).
pub open spec fn spec_stale(s: OneCallV, now: int) -> bool {
    now - s.current.dt@ > TTL_SECONDS
}

impl OneCall {
    /// Whether this snapshot is stale at `now`.
    pub fn stale(&self, now: &UnixTimestamp) -> (b: bool)
        ensures
            b == spec_stale(self@, now@),
    {
        (now.value() as i128) - (self.current.dt.value() as i128) > TTL_SECONDS as i128
    }

    /// Whether this snapshot is still fresh at `now`.
    pub fn fresh(&self, now: &UnixTimestamp) -> (b: bool)
        ensures
            b == !spec_stale(self@, now@),
    {
        !self.stale(now)
    }
}

/// One stored forecast: the upstream request URL that keys it, and the
/// snapshot last fetched for it.
pub struct CacheEntry {
    pub key: String,
    pub value: OneCall,
}

/// Whether no two entries share a key.
pub open spec fn keys_distinct(s: Seq<CacheEntry>) -> bool {
    forall|i: int, j: int| 0 <= i < j < s.len() ==> s[i].key@ != s[j].key@
}

/// The key-to-snapshot map held by a sequence of entries.
pub open spec fn as_map(s: Seq<CacheEntry>) -> Map<Seq<char>, OneCallV>
    decreases s.len(),
{
    if s.len() == 0 {
        Map::empty()
    } else {
        as_map(s.drop_last()).insert(s.last().key@, s.last().value@)
    }
}

/// A key is in the map exactly when some entry carries it.
pub proof fn lemma_as_map_contains(s: Seq<CacheEntry>, k: Seq<char>)
    ensures
        as_map(s).contains_key(k) <==> exists|i: int| 0 <= i < s.len() && s[i].key@ == k,
    decreases s.len(),
{
    if s.len() > 0 {
        lemma_as_map_contains(s.drop_last(), k);
        if s.last().key@ == k {
            assert(s[s.len() - 1].key@ == k);
        } else if as_map(s).contains_key(k) {
            let i = choose|i: int| 0 <= i < s.drop_last().len() && s.drop_last()[i].key@ == k;
            assert(s[i].key@ == k);
        } else if exists|i: int| 0 <= i < s.len() && s[i].key@ == k {
            let i = choose|i: int| 0 <= i < s.len() && s[i].key@ == k;
            assert(s.drop_last()[i].key@ == k);
        }
    }
}

/// With distinct keys, each entry's key maps to that entry's snapshot.
pub proof fn lemma_as_map_index(s: Seq<CacheEntry>, i: int)
    requires
        keys_distinct(s),
        0 <= i < s.len(),
    ensures
        as_map(s).contains_key(s[i].key@),
        as_map(s)[s[i].key@] == s[i].value@,
    decreases s.len(),
{
    if i < s.len() - 1 {
        assert(keys_distinct(s.drop_last())) by {
            assert(forall|x: int, y: int|
                0 <= x < y < s.drop_last().len() ==> s.drop_last()[x].key@
                    != s.drop_last()[y].key@) by {
                assert(forall|x: int|
                    0 <= x < s.drop_last().len() ==> s.drop_last()[x] == s[x]);
            }
        }
        lemma_as_map_index(s.drop_last(), i);
        assert(s[i].key@ != s.last().key@);
    }
}

/// With distinct keys, removing an entry removes exactly its key, and the
/// keys stay distinct.
pub proof fn lemma_as_map_remove(s: Seq<CacheEntry>, i: int)
    requires
        keys_distinct(s),
        0 <= i < s.len(),
    ensures
        as_map(s.remove(i)) == as_map(s).remove(s[i].key@),
        keys_distinct(s.remove(i)),
    decreases s.len(),
{
    assert(keys_distinct(s.remove(i))) by {
        assert(forall|x: int, y: int|
            0 <= x < y < s.remove(i).len() ==> s.remove(i)[x].key@ != s.remove(i)[y].key@) by {
            assert(forall|x: int|
                0 <= x < s.remove(i).len() ==> s.remove(i)[x] == (if x < i {
                    s[x]
                } else {
                    s[x + 1]
                }));
        }
    }
    assert(keys_distinct(s.drop_last())) by {
        assert(forall|x: int| 0 <= x < s.drop_last().len() ==> s.drop_last()[x] == s[x]);
    }
    if i == s.len() - 1 {
        assert(s.remove(i) =~= s.drop_last());
        lemma_as_map_contains(s.drop_last(), s[i].key@);
        assert(!as_map(s.drop_last()).contains_key(s[i].key@)) by {
            if exists|j: int| 0 <= j < s.drop_last().len() && s.drop_last()[j].key@ == s[i].key@ {
                let j = choose|j: int|
                    0 <= j < s.drop_last().len() && s.drop_last()[j].key@ == s[i].key@;
                assert(s[j].key@ == s[i].key@);
            }
        }
        assert(as_map(s.remove(i)) =~= as_map(s).remove(s[i].key@));
    } else {
        lemma_as_map_remove(s.drop_last(), i);
        assert(s.remove(i).drop_last() =~= s.drop_last().remove(i));
        assert(s.remove(i).last() == s.last());
        assert(as_map(s.remove(i)) == as_map(s.drop_last().remove(i)).insert(
            s.last().key@,
            s.last().value@,
        ));
        assert(s[i].key@ != s.last().key@);
        assert(as_map(s.remove(i)) =~= as_map(s).remove(s[i].key@));
    }
}

/// Whether the store holds a fresh entry for `k` at `now`.
pub open spec fn spec_hit(m: Map<Seq<char>, OneCallV>, k: Seq<char>, now: int) -> bool {
    m.contains_key(k) && !spec_stale(m[k], now)
}

/// The store after a fetch outcome for key `k` is applied: a successful
/// snapshot is inserted, replacing any previous entry for the key; a
/// failure leaves the store exactly as it was.
pub open spec fn spec_store_after(
    m: Map<Seq<char>, OneCallV>,
    k: Seq<char>,
    fr: Result<OneCall, FetchError>,
) -> Map<Seq<char>, OneCallV> {
    match fr {
        Ok(v) => m.insert(k, v@),
        Err(_) => m,
    }
}

/// The ghost value of a fetch outcome.
pub open spec fn spec_fetch_view(fr: Result<OneCall, FetchError>) -> Result<
    OneCallV,
    FetchError,
> {
    match fr {
        Ok(v) => Ok(v@),
        Err(e) => Err(e),
    }
}

/// The store after one `get_or_fetch` step for key `k` at `now`, where
/// `fr` is what the fetch collaborator would return if consulted: on a
/// fresh hit the store is untouched and the fetch plays no part.
pub open spec fn spec_step_store(
    m: Map<Seq<char>, OneCallV>,
    k: Seq<char>,
    now: int,
    fr: Result<OneCallV, FetchError>,
) -> Map<Seq<char>, OneCallV> {
    if spec_hit(m, k, now) {
        m
    } else {
        match fr {
            Ok(s) => m.insert(k, s),
            Err(_) => m,
        }
    }
}

/// The result of one `get_or_fetch` step for key `k` at `now`, where `fr`
/// is what the fetch collaborator would return if consulted.
pub open spec fn spec_step_result(
    m: Map<Seq<char>, OneCallV>,
    k: Seq<char>,
    now: int,
    fr: Result<OneCallV, FetchError>,
) -> Result<OneCallV, FetchError> {
    if spec_hit(m, k, now) {
        Ok(m[k])
    } else {
        fr
    }
}

/// The forecast store: one entry per upstream request URL. The host
/// process serializes access to it (one exclusive lock around the whole
/// store) and supplies the fetch collaborator and the current time.
pub struct WeatherCache {
    pub entries: Vec<CacheEntry>,
}

impl View for WeatherCache {
    type V = Map<Seq<char>, OneCallV>;

    open spec fn view(&self) -> Map<Seq<char>, OneCallV> {
        as_map(self.entries@)
    }
}

impl WeatherCache {
    /// The store's invariant: no two entries share a key.
    pub open spec fn wf(&self) -> bool {
        keys_distinct(self.entries@)
    }

    /// An empty store.
    pub fn new() -> (c: WeatherCache)
        ensures
            c.wf(),
            c@ == Map::<Seq<char>, OneCallV>::empty(),
    {
        WeatherCache { entries: Vec::new() }
    }

    /// The index of the entry for `url`, if the store has one.
    fn find(&self, url: &String) -> (r: Option<usize>)
        ensures
            match r {
                Some(i) => i < self.entries@.len() && self.entries@[i as int].key@ == url@,
                None => forall|i: int| 0 <= i < self.entries@.len() ==> self.entries@[i].key@
                    != url@,
            },
    {
        let mut i: usize = 0;
        while i < self.entries.len()
            invariant
                i <= self.entries@.len(),
                forall|j: int| 0 <= j < i ==> self.entries@[j].key@ != url@,
            decreases self.entries@.len() - i,
        {
            if self.entries[i].key == *url {
                return Some(i);
            }
            i = i + 1;
        }
        None
    }

    /// Returns the stored snapshot for `url` if it is fresh at `now`;
    /// otherwise consults the fetch collaborator once: on success the new
    /// snapshot replaces (or creates) the entry and is returned, on failure
    /// the store — including any stale entry — is left exactly as it was
    /// and the error is surfaced.
    pub fn get_or_fetch<F: FnOnce(&String) -> Result<OneCall, FetchError>>(
        &mut self,
        url: String,
        now: UnixTimestamp,
        fetch: F,
    ) -> (r: Result<OneCall, FetchError>)
        requires
            old(self).wf(),
            call_requires(fetch, (&url,)),
        ensures
            final(self).wf(),
            spec_hit(old(self)@, url@, now@) ==> final(self)@ == old(self)@ && (r matches Ok(v)
                && v@ == old(self)@[url@]),
            !spec_hit(old(self)@, url@, now@) ==> exists|fr: Result<OneCall, FetchError>|
                {
                    &&& #[trigger] call_ensures(fetch, (&url,), fr)
                    &&& final(self)@ == spec_store_after(old(self)@, url@, fr)
                    &&& r == fr
                },
    {
        match self.find(&url) {
            Some(i) => {
                proof {
                    lemma_as_map_index(self.entries@, i as int);
                }
                if self.entries[i].value.stale(&now) {
                    // Stale: refresh the entry, or keep it on failure.
                    let fetched = fetch(&url);
                    match fetched {
                        Ok(v) => {
                            let stored = v.duplicate();
                            proof {
                                lemma_as_map_remove(self.entries@, i as int);
                            }
                            self.entries.remove(i);
                            let ghost removed = self.entries@;
                            proof {
                                lemma_as_map_contains(removed, url@);
                            }
                            self.entries.push(CacheEntry { key: url, value: stored });
                            proof {
                                assert(self.entries@.drop_last() =~= removed);
                                assert(forall|x: int|
                                    0 <= x < removed.len() ==> self.entries@[x] == removed[x]);
                                assert(self@ =~= spec_store_after(old(self)@, url@, Ok(v)));
                            }
                            Ok(v)
                        },
                        Err(e) => Err(e),
                    }
                } else {
                    // Fresh enough: hand out a copy, never touch the fetch.
                    Ok(self.entries[i].value.duplicate())
                }
            },
            None => {
                // Miss: fetch, and create the entry only on success.
                proof {
                    lemma_as_map_contains(self.entries@, url@);
                }
                let fetched = fetch(&url);
                match fetched {
                    Ok(v) => {
                        let stored = v.duplicate();
                        let ghost before = self.entries@;
                        self.entries.push(CacheEntry { key: url, value: stored });
                        proof {
                            assert(self.entries@.drop_last() =~= before);
                            assert(forall|x: int|
                                0 <= x < before.len() ==> self.entries@[x] == before[x]);
                            assert(self@ =~= spec_store_after(old(self)@, url@, Ok(v)));
                        }
                        Ok(v)
                    },
                    Err(e) => Err(e),
                }
            },
        }
    }

    /// Removes every entry that is stale at `now`; fresh entries are kept
    /// unchanged. Never fails, and never touches a fresh entry.
    pub fn clean(&mut self, now: UnixTimestamp)
        requires
            old(self).wf(),
        ensures
            final(self).wf(),
            forall|k: Seq<char>| #[trigger] final(self)@.contains_key(k) <==> (old(
                self,
            )@.contains_key(k) && !spec_stale(old(self)@[k], now@)),
            forall|k: Seq<char>| #[trigger] final(self)@.contains_key(k) ==> final(self)@[k]
                == old(self)@[k],
    {
        let ghost m0 = old(self)@;
        let mut i: usize = 0;
        while i < self.entries.len()
            invariant
                keys_distinct(self.entries@),
                i <= self.entries@.len(),
                forall|j: int| 0 <= j < i ==> !spec_stale(
                    #[trigger] self.entries@[j].value@,
                    now@,
                ),
                forall|k: Seq<char>| #[trigger] as_map(self.entries@).contains_key(k)
                    ==> m0.contains_key(k) && as_map(self.entries@)[k] == m0[k],
                forall|k: Seq<char>| #[trigger] m0.contains_key(k) && !as_map(
                    self.entries@,
                ).contains_key(k) ==> spec_stale(m0[k], now@),
            decreases self.entries@.len() - i,
        {
            if self.entries[i].value.stale(&now) {
                proof {
                    lemma_as_map_index(self.entries@, i as int);
                    lemma_as_map_remove(self.entries@, i as int);
                }
                self.entries.remove(i);
            } else {
                i = i + 1;
            }
        }
        proof {
            assert forall|k: Seq<char>| #[trigger] self@.contains_key(k) implies !spec_stale(
                m0[k],
                now@,
            ) by {
                lemma_as_map_contains(self.entries@, k);
                let j = choose|j: int|
                    0 <= j < self.entries@.len() && self.entries@[j].key@ == k;
                lemma_as_map_index(self.entries@, j);
            }
        }
    }
}

/// At most one entry per key: in a well-formed store, two entries that
/// share a key are one and the same entry.
pub proof fn lemma_at_most_one_entry_per_key(c: &WeatherCache, i: int, j: int)
    requires
        c.wf(),
        0 <= i < c.entries@.len(),
        0 <= j < c.entries@.len(),
        c.entries@[i].key@ == c.entries@[j].key@,
    ensures
        i == j,
{
}

/// Idempotence of `get_or_fetch`: once a step for key `k` returns a
/// snapshot, a second step for the same key — at any later moment `now2` at
/// which that snapshot is still within its TTL — returns the same snapshot
/// and leaves the store unchanged. Whatever outcome `fr2` a second fetch
/// would have had, it plays no part: the collaborator is not consulted.
pub proof fn lemma_get_or_fetch_idempotent(
    m: Map<Seq<char>, OneCallV>,
    k: Seq<char>,
    now1: int,
    now2: int,
    fr1: Result<OneCallV, FetchError>,
    fr2: Result<OneCallV, FetchError>,
)
    requires
        spec_step_result(m, k, now1, fr1) matches Ok(s) && !spec_stale(s, now2),
    ensures
        spec_step_store(spec_step_store(m, k, now1, fr1), k, now2, fr2) == spec_step_store(
            m,
            k,
            now1,
            fr1,
        ),
        spec_step_result(spec_step_store(m, k, now1, fr1), k, now2, fr2) == spec_step_result(
            m,
            k,
            now1,
            fr1,
        ),
{
}

/// `get_or_fetch`'s contract refines the spec-level step: outside a fresh
/// hit, the store it promises (`spec_store_after` of the fetch outcome) is
/// exactly `spec_step_store` of that outcome's ghost value, and the result
/// it promises is `spec_step_result`. Together with the idempotence lemma
/// this carries the two-call argument over to the executable cache.
pub proof fn lemma_contract_refines_step(
    m: Map<Seq<char>, OneCallV>,
    k: Seq<char>,
    now: int,
    fr: Result<OneCall, FetchError>,
)
    requires
        !spec_hit(m, k, now),
    ensures
        spec_store_after(m, k, fr) == spec_step_store(m, k, now, spec_fetch_view(fr)),
        spec_fetch_view(fr) == spec_step_result(m, k, now, spec_fetch_view(fr)),
{
}

/// The freshness boundary is inclusive: an entry whose age is exactly the
/// TTL is still fresh, so a read returns it and a sweep keeps it.
pub proof fn lemma_ttl_boundary_is_fresh(s: OneCallV, now: int)
    requires
        now - s.current.dt@ == TTL_SECONDS,
    ensures
        !spec_stale(s, now),
{
}

} // verus!

