//! The time-to-live cache over the collector registry, and routing of one
//! signal to the collectors that receive it.

use vstd::prelude::*;
use crate::collector::{
    Collector, CollectorView, CollectorsError, MAX_URL_CHARS, is_excluded, signal_endpoint,
    with_endpoint,
};
use crate::outside::{url_parses, url_path, url_with_path};
use crate::paths::{joined_path, trim_leading_slashes, with_trailing_slash};

verus! {

/// The views of a sequence of collectors.
pub open spec fn views(s: Seq<Collector>) -> Seq<CollectorView> {
    s.map_values(|c: Collector| c@)
}

/// The collectors that receive a signal first sent to `original` from
/// `source`, in registry order, each with its signal endpoint; or the first
/// error met, in registry order, while building an endpoint.
pub open spec fn routed(items: Seq<CollectorView>, original: Seq<char>, source: Seq<char>) -> Result<
    Seq<CollectorView>,
    CollectorsError,
>
    decreases items.len(),
{
    if items.len() == 0 {
        Ok(Seq::empty())
    } else {
        match routed(items.drop_last(), original, source) {
            Err(e) => Err(e),
            Ok(prev) => {
                let c = items.last();
                if is_excluded(c, source) {
                    Ok(prev)
                } else {
                    match signal_endpoint(c.endpoint, original) {
                        Err(e) => Err(e),
                        Ok(ep) => Ok(prev.push(with_endpoint(c, ep))),
                    }
                }
            },
        }
    }
}

/// The content of a [`CollectorsCache`]: one registry snapshot, the clock
/// reading (milliseconds) at which it was fetched, and its time-to-live in
/// seconds.
pub struct CacheView {
    pub items: Seq<CollectorView>,
    pub last_refresh: u64,
    pub ttl_seconds: u64,
}

/// Milliseconds elapsed from `from` to `now`; zero when the clock reads
/// earlier than `from`.
pub open spec fn elapsed_ms(from: u64, now: u64) -> int {
    if now >= from {
        now - from
    } else {
        0
    }
}

/// Whether the snapshot has outlived its time-to-live at clock reading `now`.
pub open spec fn stale_at(c: CacheView, now: u64) -> bool {
    elapsed_ms(c.last_refresh, now) >= c.ttl_seconds * 1000
}

/// One registry snapshot with the time it was fetched. The registry is never
/// changed in place: a refresh builds a new cache.
#[derive(Debug)]
pub struct CollectorsCache {
    items: Vec<Collector>,
    last_refresh: u64,
    ttl_seconds: u64,
}

impl View for CollectorsCache {
    type V = CacheView;

    closed spec fn view(&self) -> CacheView {
        CacheView {
            items: views(self.items@),
            last_refresh: self.last_refresh,
            ttl_seconds: self.ttl_seconds,
        }
    }
}

impl CollectorsCache {
    /// A cache holding `items`, fetched at clock reading `now` (milliseconds),
    /// valid for `ttl_seconds`.
    pub fn new(items: Vec<Collector>, now: u64, ttl_seconds: u64) -> (r: Self)
        ensures
            r@ == (CacheView { items: views(items@), last_refresh: now, ttl_seconds }),
    {
        CollectorsCache { items, last_refresh: now, ttl_seconds }
    }

    /// Whether the time-to-live has run out at clock reading `now`.
    pub fn is_stale(&self, now: u64) -> (r: bool)
        ensures
            r == stale_at(self@, now),
    {
        let elapsed: u64 = if now >= self.last_refresh {
            now - self.last_refresh
        } else {
            0
        };
        (elapsed as u128) >= (self.ttl_seconds as u128) * 1000
    }

    /// The collectors of this snapshot, in registry order.
    pub fn items(&self) -> (r: &Vec<Collector>)
        ensures
            views(r@) == self@.items,
    {
        &self.items
    }
}

/// The result of routing against the cell's content: `NotInitialized` while
/// nothing has been loaded.
pub open spec fn signal_endpoints_of(
    state: Option<CacheView>,
    original: Seq<char>,
    source: Seq<char>,
) -> Result<Seq<CollectorView>, CollectorsError> {
    match state {
        None => Err(CollectorsError::NotInitialized),
        Some(c) => routed(c.items, original, source),
    }
}

/// Whether the cell must be (re)loaded at clock reading `now`.
pub open spec fn needs_refresh_at(state: Option<CacheView>, now: u64) -> bool {
    match state {
        None => true,
        Some(c) => stale_at(c, now),
    }
}

/// The cell that holds the process's current registry snapshot.
///
/// Loading is split in two: [`Collectors::needs_refresh`] says whether the
/// caller should fetch definitions now, and [`Collectors::init`] installs
/// what the fetch produced. A fetch that fails leaves the snapshot held so
/// far in place, and a late fetch finished after another one was installed is
/// dropped, so the first installed snapshot stays canonical until it is stale.
#[derive(Debug)]
pub struct Collectors {
    cache: Option<CollectorsCache>,
}

impl View for Collectors {
    type V = Option<CacheView>;

    closed spec fn view(&self) -> Option<CacheView> {
        match self.cache {
            Some(c) => Some(c@),
            None => None,
        }
    }
}

impl Collectors {
    /// An empty cell: nothing loaded yet.
    pub fn new() -> (r: Self)
        ensures
            r@ == None::<CacheView>,
    {
        Collectors { cache: None }
    }

    /// Whether a registry has been loaded.
    pub fn is_initialized(&self) -> (r: bool)
        ensures
            r == self@.is_some(),
    {
        self.cache.is_some()
    }

    /// Whether the caller should fetch collector definitions at clock
    /// reading `now`: nothing loaded yet, or the snapshot is stale.
    pub fn needs_refresh(&self, now: u64) -> (r: bool)
        ensures
            r == needs_refresh_at(self@, now),
    {
        match &self.cache {
            None => true,
            Some(c) => c.is_stale(now),
        }
    }

    /// Installs the outcome of a fetch made at clock reading `now`.
    ///
    /// While the held snapshot is fresh nothing changes. Otherwise a
    /// successful fetch replaces it with a new snapshot valid for
    /// `ttl_seconds`, and a failed one is returned as the error with the
    /// held snapshot, if any, kept.
    pub fn init(
        &mut self,
        fetched: Result<Vec<Collector>, CollectorsError>,
        now: u64,
        ttl_seconds: u64,
    ) -> (r: Result<(), CollectorsError>)
        ensures
            !needs_refresh_at(old(self)@, now) ==> r is Ok && final(self)@ == old(self)@,
            needs_refresh_at(old(self)@, now) ==> match fetched {
                Ok(items) => r is Ok && final(self)@ == Some(
                    CacheView { items: views(items@), last_refresh: now, ttl_seconds },
                ),
                Err(e) => r == Err::<(), CollectorsError>(e) && final(self)@ == old(self)@,
            },
    {
        if !self.needs_refresh(now) {
            return Ok(());
        }
        match fetched {
            Ok(items) => {
                self.cache = Some(CollectorsCache::new(items, now, ttl_seconds));
                Ok(())
            },
            Err(e) => Err(e),
        }
    }

    /// The current registry snapshot.
    pub fn current(&self) -> (r: Result<&CollectorsCache, CollectorsError>)
        ensures
            match self@ {
                None => r == Err::<&CollectorsCache, CollectorsError>(
                    CollectorsError::NotInitialized,
                ),
                Some(c) => r matches Ok(h) && h@ == c,
            },
    {
        match &self.cache {
            Some(c) => Ok(c),
            None => Err(CollectorsError::NotInitialized),
        }
    }

    /// The collectors that receive a signal sent to `original_endpoint` from
    /// `source`, in registry order, each carrying the endpoint for this
    /// signal. Excluded collectors are left out; an endpoint that cannot be
    /// built fails the whole call.
    pub fn get_signal_endpoints(&self, original_endpoint: &str, source: &str) -> (r: Result<
        Vec<Collector>,
        CollectorsError,
    >)
        ensures
            match r {
                Ok(v) => signal_endpoints_of(self@, original_endpoint@, source@) == Ok::<
                    Seq<CollectorView>,
                    CollectorsError,
                >(views(v@)),
                Err(e) => signal_endpoints_of(self@, original_endpoint@, source@) == Err::<
                    Seq<CollectorView>,
                    CollectorsError,
                >(e),
            },
    {
        match &self.cache {
            None => Err(CollectorsError::NotInitialized),
            Some(cache) => route(&cache.items, original_endpoint, source),
        }
    }
}

/// Routes one signal over the collectors of a snapshot (see [`routed`]).
fn route(items: &Vec<Collector>, original_endpoint: &str, source: &str) -> (r: Result<
    Vec<Collector>,
    CollectorsError,
>)
    ensures
        match r {
            Ok(v) => routed(views(items@), original_endpoint@, source@) == Ok::<
                Seq<CollectorView>,
                CollectorsError,
            >(views(v@)),
            Err(e) => routed(views(items@), original_endpoint@, source@) == Err::<
                Seq<CollectorView>,
                CollectorsError,
            >(e),
        },
{
    let mut out: Vec<Collector> = Vec::new();
    let mut i: usize = 0;
    assert(items@.take(0) =~= Seq::<Collector>::empty());
    assert(views(out@) =~= Seq::<CollectorView>::empty());
    while i < items.len()
        invariant
            i <= items@.len(),
            routed(views(items@.take(i as int)), original_endpoint@, source@) == Ok::<
                Seq<CollectorView>,
                CollectorsError,
            >(views(out@)),
        decreases items@.len() - i,
    {
        let c = &items[i];
        let ghost prefix = views(items@.take(i as int));
        let ghost next = views(items@.take(i + 1));
        assert(next.drop_last() =~= prefix);
        assert(next.last() == c@);
        if !c.should_exclude(source) {
            match c.construct_signal_endpoint(original_endpoint) {
                Ok(endpoint) => {
                    let resolved = c.with_signal_endpoint(endpoint);
                    let ghost before = out@;
                    out.push(resolved);
                    assert(views(out@) =~= views(before).push(resolved@));
                },
                Err(e) => {
                    proof {
                        assert(views(items@).take(i + 1) =~= next);
                        assert(routed(next, original_endpoint@, source@) == Err::<
                            Seq<CollectorView>,
                            CollectorsError,
                        >(e));
                        lemma_routed_error_sticks(
                            views(items@),
                            i as int + 1,
                            original_endpoint@,
                            source@,
                        );
                    }
                    return Err(e);
                },
            }
        }
        i = i + 1;
    }
    assert(items@.take(i as int) =~= items@);
    assert(views(items@.take(i as int)) == views(items@));
    Ok(out)
}

/// Once routing a prefix fails, routing every longer prefix fails the same way.
proof fn lemma_routed_error_sticks(
    items: Seq<CollectorView>,
    k: int,
    original: Seq<char>,
    source: Seq<char>,
)
    requires
        0 <= k <= items.len(),
        routed(items.take(k), original, source) is Err,
    ensures
        routed(items, original, source) == routed(items.take(k), original, source),
    decreases items.len() - k,
{
    if k < items.len() {
        assert(items.take(k + 1).drop_last() =~= items.take(k));
        lemma_routed_error_sticks(items, k + 1, original, source);
    } else {
        assert(items.take(k) =~= items);
    }
}

} // verus!

verus! {

/// Routing over one collector that does not exclude the source, with both
/// URLs valid, gives exactly that collector, whose endpoint is its base URL
/// with the path replaced by the base path ending in one `/` followed by the
/// signal path without leading `/`.
pub proof fn lemma_single_collector_route(c: CollectorView, original: Seq<char>, source: Seq<char>)
    requires
        !is_excluded(c, source),
        url_parses(original),
        url_parses(c.endpoint),
        original.len() <= MAX_URL_CHARS,
        c.endpoint.len() <= MAX_URL_CHARS,
        joined_path(url_path(c.endpoint), url_path(original)).len() <= MAX_URL_CHARS,
    ensures
        routed(seq![c], original, source) == Ok::<Seq<CollectorView>, CollectorsError>(
            seq![
                with_endpoint(
                    c,
                    url_with_path(
                        c.endpoint,
                        with_trailing_slash(url_path(c.endpoint)) + trim_leading_slashes(
                            url_path(original),
                        ),
                    ),
                ),
            ],
        ),
{
    assert(seq![c].drop_last() =~= Seq::<CollectorView>::empty());
    assert(routed(Seq::<CollectorView>::empty(), original, source) == Ok::<
        Seq<CollectorView>,
        CollectorsError,
    >(Seq::empty()));
}

/// When every collector excludes the source, routing succeeds with no
/// destination at all.
pub proof fn lemma_all_excluded_routes_nowhere(
    items: Seq<CollectorView>,
    original: Seq<char>,
    source: Seq<char>,
)
    requires
        forall|i: int| 0 <= i < items.len() ==> is_excluded(#[trigger] items[i], source),
    ensures
        routed(items, original, source) == Ok::<Seq<CollectorView>, CollectorsError>(
            Seq::empty(),
        ),
    decreases items.len(),
{
    if items.len() > 0 {
        let rest = items.drop_last();
        assert forall|i: int| 0 <= i < rest.len() implies is_excluded(#[trigger] rest[i], source) by {
            assert(rest[i] == items[i]);
        }
        lemma_all_excluded_routes_nowhere(rest, original, source);
        assert(is_excluded(items[items.len() - 1], source));
    }
}

/// Before anything is loaded, routing fails with `NotInitialized`, whatever
/// the signal.
pub proof fn lemma_routing_before_load(original: Seq<char>, source: Seq<char>)
    ensures
        signal_endpoints_of(None, original, source) == Err::<Seq<CollectorView>, CollectorsError>(
            CollectorsError::NotInitialized,
        ),
{
}

/// A snapshot is fresh when it has just been fetched (for a positive
/// time-to-live), stays fresh until its time-to-live has elapsed, and is
/// stale from then on.
pub proof fn lemma_staleness(items: Seq<CollectorView>, fetched: u64, ttl_seconds: u64, now: u64)
    ensures
        ttl_seconds > 0 ==> !stale_at(
            CacheView { items, last_refresh: fetched, ttl_seconds },
            fetched,
        ),
        now >= fetched + ttl_seconds * 1000 ==> stale_at(
            CacheView { items, last_refresh: fetched, ttl_seconds },
            now,
        ),
        ttl_seconds > 0 && now < fetched + ttl_seconds * 1000 ==> !stale_at(
            CacheView { items, last_refresh: fetched, ttl_seconds },
            now,
        ),
{
}

} // verus!
