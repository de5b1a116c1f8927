//! Settings and the batch load of collector definitions.

use vstd::prelude::*;
use crate::collector::{Collector, CollectorView, CollectorsError};
use crate::outside::{parse_u64, parsed_u64};
use crate::registry::views;

verus! {

/// Time-to-live of the registry snapshot when no setting overrides it.
pub const DEFAULT_CACHE_TTL_SECONDS: u64 = 300;

/// The time-to-live for a setting's text: its value as a whole number of
/// seconds, or the default when it is unset or not such a number.
pub open spec fn ttl_for_setting(setting: Option<Seq<char>>) -> u64 {
    match setting {
        Some(s) => match parsed_u64(s) {
            Some(n) => n,
            None => DEFAULT_CACHE_TTL_SECONDS,
        },
        None => DEFAULT_CACHE_TTL_SECONDS,
    }
}

/// Reads the cache time-to-live (seconds) from its setting.
pub fn cache_ttl_seconds(setting: Option<&str>) -> (r: u64)
    ensures
        r == ttl_for_setting(
            match setting {
                Some(s) => Some(s@),
                None => None,
            },
        ),
{
    match setting {
        Some(s) => match parse_u64(s) {
            Some(n) => n,
            None => DEFAULT_CACHE_TTL_SECONDS,
        },
        None => DEFAULT_CACHE_TTL_SECONDS,
    }
}

/// The name prefix of the secrets that hold collector definitions; its
/// absence is a configuration error.
pub fn secrets_prefix(setting: Option<String>) -> (r: Result<String, CollectorsError>)
    ensures
        match setting {
            Some(s) => r matches Ok(p) && p@ == s@,
            None => r == Err::<String, CollectorsError>(CollectorsError::MissingSecretsPrefix),
        },
{
    match setting {
        Some(s) => Ok(s),
        None => Err(CollectorsError::MissingSecretsPrefix),
    }
}

/// The definitions present in a sequence of per-secret parse outcomes, in
/// order.
pub open spec fn present(s: Seq<Option<CollectorView>>) -> Seq<CollectorView>
    decreases s.len(),
{
    if s.len() == 0 {
        Seq::empty()
    } else {
        match s.last() {
            Some(c) => present(s.drop_last()).push(c),
            None => present(s.drop_last()),
        }
    }
}

/// The views of a sequence of per-secret parse outcomes.
pub open spec fn outcome_views(s: Seq<Option<Collector>>) -> Seq<Option<CollectorView>> {
    s.map_values(
        |o: Option<Collector>|
            match o {
                Some(c) => Some(c@),
                None => None,
            },
    )
}

/// The outcome of one batch fetch: `failed_items` is the number of
/// per-secret errors the store reported, `parsed` holds one entry per
/// returned secret, `None` where it held no usable definition.
pub open spec fn loaded(failed_items: nat, parsed: Seq<Option<CollectorView>>) -> Result<
    Seq<CollectorView>,
    CollectorsError,
> {
    if failed_items > 0 && parsed.len() == 0 {
        Err(CollectorsError::NoSecretsFetched)
    } else if present(parsed).len() == 0 {
        Err(CollectorsError::NoValidCollectors)
    } else {
        Ok(present(parsed))
    }
}

/// Folds the outcome of one batch fetch into the list of collectors: the
/// usable definitions in arrival order, or an error when there is none.
/// Per-item failures are tolerated as long as one definition is usable.
pub fn collect_fetched(failed_items: usize, parsed: Vec<Option<Collector>>) -> (r: Result<
    Vec<Collector>,
    CollectorsError,
>)
    ensures
        match r {
            Ok(v) => loaded(failed_items as nat, outcome_views(parsed@)) == Ok::<
                Seq<CollectorView>,
                CollectorsError,
            >(views(v@)),
            Err(e) => loaded(failed_items as nat, outcome_views(parsed@)) == Err::<
                Seq<CollectorView>,
                CollectorsError,
            >(e),
        },
{
    if failed_items > 0 && parsed.len() == 0 {
        return Err(CollectorsError::NoSecretsFetched);
    }
    let ghost all = outcome_views(parsed@);
    let mut out: Vec<Collector> = Vec::new();
    let mut rest = parsed;
    let mut taken: usize = 0;
    let n = rest.len();
    assert(all.subrange(0, n as int) =~= all);
    assert(outcome_views(rest@) == all);
    assert(all.take(0) =~= Seq::<Option<CollectorView>>::empty());
    assert(views(out@) =~= Seq::<CollectorView>::empty());
    while taken < n
        invariant
            n == all.len(),
            taken <= n,
            rest@.len() == n - taken,
            outcome_views(rest@) == all.subrange(taken as int, n as int),
            views(out@) == present(all.take(taken as int)),
        decreases n - taken,
    {
        let ghost before = out@;
        let ghost tail = rest@;
        assert(outcome_views(tail)[0] == all[taken as int]);
        let item = rest.remove(0);
        assert forall|j: int| 0 <= j < rest@.len() implies #[trigger] outcome_views(rest@)[j]
            == all[taken + 1 + j] by {
            assert(rest@[j] == tail[j + 1]);
            assert(outcome_views(tail)[j + 1] == all.subrange(taken as int, n as int)[j + 1]);
        }
        assert(outcome_views(rest@) =~= all.subrange(taken + 1, n as int));
        assert(all.take(taken + 1).drop_last() =~= all.take(taken as int));
        assert(all.take(taken + 1).last() == all[taken as int]);
        match item {
            Some(c) => {
                out.push(c);
                assert(views(out@) =~= views(before).push(c@));
            },
            None => {},
        }
        taken = taken + 1;
    }
    assert(all.take(n as int) =~= all);
    if out.len() == 0 {
        return Err(CollectorsError::NoValidCollectors);
    }
    Ok(out)
}

} // verus!
