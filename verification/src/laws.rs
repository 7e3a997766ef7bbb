//! What holds of the cache whatever the issuer answers.
//!
//! Each statement here is about the state machine of [`crate::model`], over
//! which the provider's functions state their results.

use crate::model::{Attempt, CacheView};
use crate::issuer::{issued, IssuerResponseView};
use vstd::prelude::*;

verus! {

/// An attempt on an empty cache calls the issuer exactly once, whatever the
/// time, and returns what that call amounts to.
pub proof fn empty_cache_calls_issuer_once(cache: CacheView, now: int, response: IssuerResponseView)
    requires
        cache.slot is None,
    ensures
        cache.obtain(now, response).issuer_calls == 1,
        cache.obtain(now, response).result == issued(response),
{
}

/// An attempt whose call to the issuer fails leaves the cache empty, whatever
/// it held before, and returns the failure.
pub proof fn failed_issuer_call_empties_cache(
    cache: CacheView,
    now: int,
    response: IssuerResponseView,
)
    requires
        issued(response) is Err,
    ensures
        cache.refresh(response).cache.slot is None,
        cache.refresh(response).result == issued(response),
        cache.obtain(now, response).issuer_calls == 1 ==> {
            &&& cache.obtain(now, response).cache.slot is None
            &&& cache.obtain(now, response).result == issued(response)
        },
{
}

/// Two attempts that both find the cache empty and both reach an issuer that
/// succeeds: each returns the credential of its own call, and once both have
/// written, the cache holds the credential of the one that wrote last, whole,
/// with nothing else changed. Exchanging the two attempts gives the other
/// order of writing.
pub proof fn racing_refreshes_keep_one_credential(
    cache: CacheView,
    now_first: int,
    now_second: int,
    response_first: IssuerResponseView,
    response_second: IssuerResponseView,
)
    requires
        cache.slot is None,
        issued(response_first) is Ok,
        issued(response_second) is Ok,
    ensures
        cache.fresh_at(now_first) is None,
        cache.fresh_at(now_second) is None,
        cache.refresh(response_first).result == issued(response_first),
        cache.refresh(response_first).cache.refresh(response_second).result == issued(
            response_second,
        ),
        cache.refresh(response_first).cache.refresh(response_second).cache == cache.with_slot(
            Some(issued(response_second)->Ok_0),
        ),
{
}

/// While the cached credential is fresh, attempts make no call to the
/// issuer, however many they are, and leave the cache as it is.
pub proof fn fresh_cache_makes_no_issuer_call(cache: CacheView, attempts: Seq<Attempt>)
    requires
        forall|i: int| 0 <= i < attempts.len() ==> cache.fresh_at(#[trigger] attempts[i].now) is Some,
    ensures
        cache.run(attempts).issuer_calls == 0,
        cache.run(attempts).cache == cache,
        forall|i: int|
            0 <= i < attempts.len() ==> (#[trigger] cache.obtain(
                attempts[i].now,
                attempts[i].response,
            )).result == Ok::<_, crate::error::IssuerErrorView>(cache.slot->Some_0),
    decreases attempts.len(),
{
    if attempts.len() > 0 {
        let rest = attempts.skip(1);
        assert(cache.fresh_at(attempts[0].now) is Some);
        assert forall|i: int| 0 <= i < rest.len() implies cache.fresh_at(
            #[trigger] rest[i].now,
        ) is Some by {
            assert(rest[i] == attempts[i + 1]);
        }
        fresh_cache_makes_no_issuer_call(cache, rest);
    }
}

/// An attempt followed by any number of attempts at which the credential it
/// left in the cache is fresh calls the issuer as often as the first attempt
/// alone did: at most once, and never a second time.
pub proof fn repeated_attempts_call_issuer_at_most_once(
    cache: CacheView,
    first: Attempt,
    later: Seq<Attempt>,
)
    requires
        forall|i: int|
            0 <= i < later.len() ==> cache.obtain(first.now, first.response).cache.fresh_at(
                #[trigger] later[i].now,
            ) is Some,
    ensures
        cache.run(seq![first] + later).issuer_calls == cache.obtain(
            first.now,
            first.response,
        ).issuer_calls,
        cache.run(seq![first] + later).issuer_calls <= 1,
        cache.run(seq![first] + later).cache == cache.obtain(first.now, first.response).cache,
{
    let attempts = seq![first] + later;
    assert(attempts[0] == first);
    assert(attempts.skip(1) =~= later);
    fresh_cache_makes_no_issuer_call(cache.obtain(first.now, first.response).cache, later);
}

} // verus!
