//! The resolution cache: one slot per identifier, claimed by the first caller
//! that finds none, and filled or cleared when its resolution ends.
//!
//! Each method is one atomic step on the shared map. A caller holds the lock
//! only for a step, never across the resolution itself: it calls `lookup`,
//! sleeps and calls it again while the answer is `Wait`, and after a
//! `Resolve` runs the resolver unlocked and reports with `finish`.

use vstd::hash_map::StringHashMap;
use vstd::prelude::*;

use crate::expiry::{default_expiry, expires_at, expiry_of, marker_seconds, DEFAULT_TTL_SECS};
use crate::pattern::opt_view;

verus! {

/// A resolved media URL and the epoch second from which it is expired.
#[derive(Clone, Debug)]
pub struct CachedVideo {
    pub exp: u64,
    pub url: String,
}

/// What the cache holds for an identifier that has an entry.
#[derive(Clone, Debug)]
pub enum Slot {
    /// A resolution is in flight and has no data yet.
    Pending,
    /// A resolution succeeded.
    Resolved(CachedVideo),
}

/// The model of a slot.
pub ghost enum Entry {
    Pending,
    Resolved { url: Seq<char>, expires_at: u64 },
}

impl View for Slot {
    type V = Entry;

    open spec fn view(&self) -> Entry {
        match self {
            Slot::Pending => Entry::Pending,
            Slot::Resolved(v) => Entry::Resolved { url: v.url@, expires_at: v.exp },
        }
    }
}

/// What a caller is to do after a lookup.
#[derive(Clone, Debug, PartialEq, Eq)]
pub enum Lookup {
    /// Redirect to this URL, which is valid now.
    Hit(String),
    /// Another caller is resolving this identifier: sleep, then look again.
    Wait,
    /// This caller has claimed the identifier: resolve it, then call `finish`.
    Resolve,
}

/// The model of a lookup's answer.
pub ghost enum Poll {
    Hit(Seq<char>),
    Wait,
    Resolve,
}

impl View for Lookup {
    type V = Poll;

    open spec fn view(&self) -> Poll {
        match self {
            Lookup::Hit(url) => Poll::Hit(url@),
            Lookup::Wait => Poll::Wait,
            Lookup::Resolve => Poll::Resolve,
        }
    }
}

/// Why a request gets no redirect.
#[derive(Clone, Copy, Debug, PartialEq, Eq, Structural)]
pub enum ResolveError {
    /// The request does not name a video identifier.
    NoMatch,
    /// The resolver produced no URL.
    ResolutionFailed,
}

impl ResolveError {
    /// The error's message.
    pub fn message(&self) -> (r: String)
        ensures
            r@ == match self {
                ResolveError::NoMatch => "Unable to capture video id from request uri with regex"@,
                ResolveError::ResolutionFailed => "Unable to proxy video with yt-dlp"@,
            },
    {
        match self {
            ResolveError::NoMatch => "Unable to capture video id from request uri with regex".to_owned(),
            ResolveError::ResolutionFailed => "Unable to proxy video with yt-dlp".to_owned(),
        }
    }
}

/// The model of the whole cache: identifier to entry.
pub type CacheModel = Map<Seq<char>, Entry>;

/// The answer to a lookup of `id` at `now`.
pub open spec fn lookup_answer(m: CacheModel, id: Seq<char>, now: u64) -> Poll {
    if m.contains_key(id) {
        match m[id] {
            Entry::Pending => Poll::Wait,
            Entry::Resolved { url, expires_at } => if now < expires_at {
                Poll::Hit(url)
            } else {
                Poll::Resolve
            },
        }
    } else {
        Poll::Resolve
    }
}

/// The cache after a lookup of `id` at `now`: a caller that is told to
/// resolve leaves a pending entry, in place of none or of an expired one.
pub open spec fn after_lookup(m: CacheModel, id: Seq<char>, now: u64) -> CacheModel {
    if lookup_answer(m, id, now) is Resolve {
        m.insert(id, Entry::Pending)
    } else {
        m
    }
}

/// The cache after the resolution of `id` ends at `now` with `url`, or with
/// none: the entry is replaced whole, or removed.
pub open spec fn after_finish(
    m: CacheModel,
    id: Seq<char>,
    url: Option<Seq<char>>,
    now: u64,
) -> CacheModel {
    match url {
        Some(u) => m.insert(id, Entry::Resolved { url: u, expires_at: expiry_of(u, now) }),
        None => m.remove(id),
    }
}

/// The shared map from identifier to slot.
pub struct ResolutionCache {
    slots: StringHashMap<Slot>,
}

impl View for ResolutionCache {
    type V = CacheModel;

    closed spec fn view(&self) -> CacheModel {
        self.slots@.map_values(|s: Slot| s@)
    }
}

/// The answers that lookups of `id` at `times`, made one after another from
/// `m`, get.
pub open spec fn lookup_answers(m: CacheModel, id: Seq<char>, times: Seq<u64>) -> Seq<Poll>
    decreases times.len(),
{
    if times.len() == 0 {
        Seq::empty()
    } else {
        seq![lookup_answer(m, id, times[0])] + lookup_answers(
            after_lookup(m, id, times[0]),
            id,
            times.drop_first(),
        )
    }
}

/// The cache after lookups of `id` at `times`, made one after another from `m`.
pub open spec fn after_lookups(m: CacheModel, id: Seq<char>, times: Seq<u64>) -> CacheModel
    decreases times.len(),
{
    if times.len() == 0 {
        m
    } else {
        after_lookups(after_lookup(m, id, times[0]), id, times.drop_first())
    }
}

/// Whether two caches hold the same entry, or none, for `k`.
pub open spec fn same_entry(m1: CacheModel, m2: CacheModel, k: Seq<char>) -> bool {
    &&& m1.contains_key(k) == m2.contains_key(k)
    &&& m1.contains_key(k) ==> m1[k] == m2[k]
}

/// While `id` is pending, every lookup of it is told to wait and changes nothing.
proof fn lemma_pending_waits(m: CacheModel, id: Seq<char>, times: Seq<u64>)
    requires
        m.contains_key(id),
        m[id] == Entry::Pending,
    ensures
        lookup_answers(m, id, times).len() == times.len(),
        forall|i: int| 0 <= i < times.len() ==> lookup_answers(m, id, times)[i] == Poll::Wait,
        after_lookups(m, id, times) == m,
    decreases times.len(),
{
    if times.len() > 0 {
        lemma_pending_waits(m, id, times.drop_first());
        let rest = lookup_answers(m, id, times.drop_first());
        assert forall|i: int| 0 <= i < times.len() implies lookup_answers(m, id, times)[i]
            == Poll::Wait by {
            if i > 0 {
                assert(lookup_answers(m, id, times)[i] == rest[i - 1]);
            }
        }
    }
}

/// While `url` is valid for `id`, every lookup of it is redirected there and
/// changes nothing.
proof fn lemma_valid_hits(m: CacheModel, id: Seq<char>, url: Seq<char>, exp: u64, times: Seq<u64>)
    requires
        m.contains_key(id),
        m[id] == (Entry::Resolved { url, expires_at: exp }),
        forall|i: int| 0 <= i < times.len() ==> times[i] < exp,
    ensures
        lookup_answers(m, id, times).len() == times.len(),
        forall|i: int| 0 <= i < times.len() ==> lookup_answers(m, id, times)[i] == Poll::Hit(url),
        after_lookups(m, id, times) == m,
    decreases times.len(),
{
    if times.len() > 0 {
        assert(times[0] < exp);
        let tail = times.drop_first();
        assert forall|i: int| 0 <= i < tail.len() implies tail[i] < exp by {
            assert(tail[i] == times[i + 1]);
        }
        lemma_valid_hits(m, id, url, exp, tail);
        let rest = lookup_answers(m, id, tail);
        assert forall|i: int| 0 <= i < times.len() implies lookup_answers(m, id, times)[i]
            == Poll::Hit(url) by {
            if i > 0 {
                assert(lookup_answers(m, id, times)[i] == rest[i - 1]);
            }
        }
    }
}

/// Coalescing: of requests for an identifier that has no entry, made at
/// `times` while its resolution is in flight, the first is told to resolve
/// and every other to wait, so the resolver runs once. When that resolution
/// ends at `done` with `url`, every request at `later` times, before the URL
/// expires, is redirected to that same URL and none resolves again.
pub proof fn lemma_coalescing(
    m: CacheModel,
    id: Seq<char>,
    times: Seq<u64>,
    url: Seq<char>,
    done: u64,
    later: Seq<u64>,
)
    requires
        !m.contains_key(id),
        times.len() > 0,
        forall|i: int| 0 <= i < later.len() ==> later[i] < expiry_of(url, done),
    ensures
        lookup_answers(m, id, times).len() == times.len(),
        lookup_answers(m, id, times)[0] == Poll::Resolve,
        forall|i: int| 1 <= i < times.len() ==> lookup_answers(m, id, times)[i] == Poll::Wait,
        after_lookups(m, id, times) == m.insert(id, Entry::Pending),
        forall|i: int|
            0 <= i < later.len() ==> lookup_answers(
                after_finish(after_lookups(m, id, times), id, Some(url), done),
                id,
                later,
            )[i] == Poll::Hit(url),
{
    let m1 = m.insert(id, Entry::Pending);
    assert(after_lookup(m, id, times[0]) == m1);
    lemma_pending_waits(m1, id, times.drop_first());
    let rest = lookup_answers(m1, id, times.drop_first());
    assert forall|i: int| 1 <= i < times.len() implies lookup_answers(m, id, times)[i]
        == Poll::Wait by {
        assert(lookup_answers(m, id, times)[i] == rest[i - 1]);
    }
    let m2 = after_finish(m1, id, Some(url), done);
    lemma_valid_hits(m2, id, url, expiry_of(url, done), later);
}

/// Expiry by marker: once `url`, whose first expiration marker reads as the
/// epoch second `t`, is resolved for `id`, a request at `now` before `t` is
/// redirected to it and changes nothing, and one at or after `t` claims `id`
/// for a fresh resolution.
pub proof fn lemma_marker_expiry(
    m: CacheModel,
    id: Seq<char>,
    url: Seq<char>,
    done: u64,
    now: u64,
    t: u64,
)
    requires
        marker_seconds(url) == Some(t),
    ensures
        now < t ==> lookup_answer(after_finish(m, id, Some(url), done), id, now) == Poll::Hit(url),
        now < t ==> after_lookup(after_finish(m, id, Some(url), done), id, now) == after_finish(
            m,
            id,
            Some(url),
            done,
        ),
        t <= now ==> lookup_answer(after_finish(m, id, Some(url), done), id, now)
            == Poll::Resolve,
        t <= now ==> after_lookup(after_finish(m, id, Some(url), done), id, now) == m.insert(
            id,
            Entry::Pending,
        ),
{
    assert(expiry_of(url, done) == t);
    assert(m.insert(id, Entry::Resolved { url, expires_at: t }).insert(id, Entry::Pending)
        =~= m.insert(id, Entry::Pending));
}

/// Default window: once `url`, which has no expiration marker that reads as
/// a number, is resolved for `id` at `done`, requests are redirected to it for
/// exactly `DEFAULT_TTL_SECS` seconds, and from then on claim `id` afresh.
pub proof fn lemma_default_expiry(m: CacheModel, id: Seq<char>, url: Seq<char>, done: u64, now: u64)
    requires
        marker_seconds(url) is None,
        done + DEFAULT_TTL_SECS <= u64::MAX,
    ensures
        expiry_of(url, done) == done + DEFAULT_TTL_SECS,
        now < done + DEFAULT_TTL_SECS ==> lookup_answer(
            after_finish(m, id, Some(url), done),
            id,
            now,
        ) == Poll::Hit(url),
        done + DEFAULT_TTL_SECS <= now ==> lookup_answer(
            after_finish(m, id, Some(url), done),
            id,
            now,
        ) == Poll::Resolve,
{
    assert(expiry_of(url, done) == default_expiry(done));
}

/// No negative caching: after a resolution of `id` fails, the next request
/// for `id` claims it for a new resolution.
pub proof fn lemma_failure_not_cached(m: CacheModel, id: Seq<char>, done: u64, now: u64)
    ensures
        lookup_answer(after_finish(m, id, None, done), id, now) == Poll::Resolve,
        after_lookup(after_finish(m, id, None, done), id, now) == m.insert(id, Entry::Pending),
{
    assert(m.remove(id).insert(id, Entry::Pending) =~= m.insert(id, Entry::Pending));
}

/// Key isolation: no step on identifier `a` changes the entry of another
/// identifier `b`, and what a lookup of `b` answers and leaves for `b` depends
/// on `b`'s entry alone, whatever is pending or resolved for other keys.
pub proof fn lemma_key_isolation(
    m: CacheModel,
    other: CacheModel,
    a: Seq<char>,
    b: Seq<char>,
    url: Option<Seq<char>>,
    now: u64,
)
    requires
        a != b,
    ensures
        same_entry(after_lookup(m, a, now), m, b),
        same_entry(after_finish(m, a, url, now), m, b),
        same_entry(m, other, b) ==> lookup_answer(m, b, now) == lookup_answer(other, b, now),
        same_entry(m, other, b) ==> same_entry(
            after_lookup(m, b, now),
            after_lookup(other, b, now),
            b,
        ),
{
}

impl ResolutionCache {
    /// An empty cache.
    pub fn new() -> (r: Self)
        ensures
            r@ == Map::<Seq<char>, Entry>::empty(),
    {
        let r = ResolutionCache { slots: StringHashMap::new() };
        assert(r@ =~= Map::<Seq<char>, Entry>::empty());
        r
    }

    /// One step of a request for `id` at `now`: a valid URL is returned as is;
    /// a pending entry means wait; otherwise (no entry, or an expired one) the
    /// caller claims the identifier with a pending entry and must resolve it.
    pub fn lookup(&mut self, id: &str, now: u64) -> (r: Lookup)
        ensures
            r@ == lookup_answer(old(self)@, id@, now),
            final(self)@ == after_lookup(old(self)@, id@, now),
    {
        let answer = match self.slots.get(id) {
            Some(Slot::Pending) => Lookup::Wait,
            Some(Slot::Resolved(v)) => if now < v.exp {
                Lookup::Hit(v.url.clone())
            } else {
                Lookup::Resolve
            },
            None => Lookup::Resolve,
        };
        if let Lookup::Resolve = answer {
            self.slots.insert(id.to_owned(), Slot::Pending);
            assert(self@ =~= old(self)@.insert(id@, Entry::Pending));
        }
        answer
    }

    /// Ends the resolution of `id` at `now`: with a URL, the entry becomes
    /// resolved with the URL's expiry and the URL is returned; with none, the
    /// entry is removed so that the next request resolves afresh.
    pub fn finish(&mut self, id: &str, resolved: Option<String>, now: u64) -> (r: Result<
        String,
        ResolveError,
    >)
        ensures
            final(self)@ == after_finish(old(self)@, id@, opt_view(resolved), now),
            r == match resolved {
                Some(u) => Ok(u),
                None => Err(ResolveError::ResolutionFailed),
            },
    {
        match resolved {
            Some(url) => {
                let exp = expires_at(url.as_str(), now);
                let slot = Slot::Resolved(CachedVideo { exp, url: url.clone() });
                self.slots.insert(id.to_owned(), slot);
                assert(self@ =~= after_finish(old(self)@, id@, opt_view(resolved), now));
                Ok(url)
            },
            None => {
                self.slots.remove(id);
                assert(self@ =~= old(self)@.remove(id@));
                Err(ResolveError::ResolutionFailed)
            },
        }
    }
}

} // verus!
