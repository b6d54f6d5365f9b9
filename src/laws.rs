//! Properties of issuing and verifying that hold across calls.
use crate::authority::{age, cache_holds, claim, is_live, request_authorized, sweep, TimeAuthorityImpl};
use crate::client::TimeClient;
use crate::crypto::signature_encoding_ok;
use crate::models::{timestamp_verifies, TimestampRequest, TimestampResponse, TimestampStatus};
use crate::time::UtcTime;
use vstd::prelude::*;

verus! {

/// Sweeping a cache with one more entry sweeps the rest and keeps the entry
/// only if it is live.
proof fn lemma_sweep_push(cache: Seq<(Seq<char>, int)>, x: (Seq<char>, int), now: int, expiry: int)
    ensures
        sweep(cache.push(x), now, expiry) == if is_live(x, now, expiry) {
            sweep(cache, now, expiry).push(x)
        } else {
            sweep(cache, now, expiry)
        },
{
    reveal(Seq::filter);
    assert(cache.push(x).drop_last() =~= cache);
}

/// A sweep keeps every live entry.
proof fn lemma_sweep_keeps(cache: Seq<(Seq<char>, int)>, x: (Seq<char>, int), now: int, expiry: int)
    requires
        cache.contains(x),
        is_live(x, now, expiry),
    ensures
        sweep(cache, now, expiry).contains(x),
{
    let i = choose|i: int| 0 <= i < cache.len() && cache[i] == x;
    cache.lemma_filter_contains(|e: (Seq<char>, int)| is_live(e, now, expiry), i);
}

/// A sweep adds no nonce.
proof fn lemma_sweep_adds_nothing(cache: Seq<(Seq<char>, int)>, nonce: Seq<char>, now: int, expiry: int)
    requires
        !cache_holds(cache, nonce),
    ensures
        !cache_holds(sweep(cache, now, expiry), nonce),
    decreases cache.len(),
{
    if cache.len() > 0 {
        let rest = cache.drop_last();
        assert(rest.push(cache.last()) =~= cache);
        assert forall|i: int| 0 <= i < rest.len() implies rest[i].0 != nonce by {
            assert(cache[i] == rest[i]);
        }
        lemma_sweep_adds_nothing(rest, nonce, now, expiry);
        lemma_sweep_push(rest, cache.last(), now, expiry);
        assert(cache[cache.len() - 1] == cache.last());
    } else {
        reveal(Seq::filter);
    }
}

/// A request that was not refused as a replay leaves its nonce in the cache,
/// claimed at the time of the request.
proof fn lemma_claimed(a: TimeAuthorityImpl, after: TimeAuthorityImpl, req: TimestampRequest, now: UtcTime, resp: TimestampResponse)
    requires
        a.issues(after, req, now, resp),
        resp.status != TimestampStatus::RateLimitExceeded,
    ensures
        after.cache() == sweep(a.cache(), now.total_nanos(), a.expiry()).push((req.nonce@, now.total_nanos())),
        !cache_holds(sweep(a.cache(), now.total_nanos(), a.expiry()), req.nonce@),
{
}

/// Round trip: a timestamp issued with `Success` verifies under the issuing
/// authority's key, both for the authority itself and for any client that
/// trusts that key for the authority's identifier.
pub proof fn lemma_issued_timestamp_verifies(
    a: TimeAuthorityImpl,
    after: TimeAuthorityImpl,
    req: TimestampRequest,
    now: UtcTime,
    resp: TimestampResponse,
    verifier: TimeClient,
)
    requires
        a.issues(after, req, now, resp),
        resp.status == TimestampStatus::Success,
        verifier.authorities().key_of(a.spec_id()) == Some(a.public_key()),
    ensures
        resp.timestamp.authority_id@ == after.spec_id(),
        timestamp_verifies(after.public_key(), resp.timestamp),
        verifier.authorities().key_of(resp.timestamp.authority_id@) matches Some(key)
            && signature_encoding_ok(resp.timestamp.signature@)
            && timestamp_verifies(key, resp.timestamp),
{
}

/// Independent verification: a verifier that knows nothing but the key it
/// was given for the authority's identifier accepts the authority's
/// successful timestamps, and holds no key for any other identifier.
pub proof fn lemma_fresh_verifier_accepts(
    a: TimeAuthorityImpl,
    after: TimeAuthorityImpl,
    req: TimestampRequest,
    now: UtcTime,
    resp: TimestampResponse,
    fresh: TimeClient,
    verifier: TimeClient,
    other_id: Seq<char>,
)
    requires
        a.issues(after, req, now, resp),
        resp.status == TimestampStatus::Success,
        forall|x: Seq<char>| #[trigger] fresh.authorities().key_of(x) is None,
        forall|x: Seq<char>|
            #[trigger] verifier.authorities().key_of(x) == if x == a.spec_id() {
                Some(a.public_key())
            } else {
                fresh.authorities().key_of(x)
            },
        other_id != a.spec_id(),
    ensures
        verifier.authorities().key_of(resp.timestamp.authority_id@) == Some(a.public_key()),
        signature_encoding_ok(resp.timestamp.signature@),
        timestamp_verifies(a.public_key(), resp.timestamp),
        verifier.authorities().key_of(other_id) is None,
{
    assert(fresh.authorities().key_of(other_id) is None);
    assert(verifier.authorities().key_of(other_id) == fresh.authorities().key_of(other_id));
}

/// Replay: once a request for a nonce succeeded, a request for the same nonce
/// made before the expiry has passed is refused, with an empty signature.
pub proof fn lemma_replay_refused(
    a0: TimeAuthorityImpl,
    a1: TimeAuthorityImpl,
    a2: TimeAuthorityImpl,
    req1: TimestampRequest,
    req2: TimestampRequest,
    t1: UtcTime,
    t2: UtcTime,
    r1: TimestampResponse,
    r2: TimestampResponse,
)
    requires
        a0.issues(a1, req1, t1, r1),
        a1.issues(a2, req2, t2, r2),
        r1.status == TimestampStatus::Success,
        req2.nonce@ == req1.nonce@,
        age(t1.total_nanos(), t2.total_nanos()) < a0.expiry(),
    ensures
        r2.status == TimestampStatus::RateLimitExceeded,
        r2.timestamp.signature@.len() == 0,
{
    lemma_claimed(a0, a1, req1, t1, r1);
    let x = (req1.nonce@, t1.total_nanos());
    assert(a1.cache()[a1.cache().len() - 1] == x);
    lemma_sweep_keeps(a1.cache(), x, t2.total_nanos(), a1.expiry());
    let swept = sweep(a1.cache(), t2.total_nanos(), a1.expiry());
    let i = choose|i: int| 0 <= i < swept.len() && swept[i] == x;
    assert(swept[i].0 == req2.nonce@);
}

/// Expiry: once the expiry has passed since a nonce was claimed with
/// `Success`, an authorized request for the same nonce succeeds again.
pub proof fn lemma_expired_nonce_accepted(
    a0: TimeAuthorityImpl,
    a1: TimeAuthorityImpl,
    a2: TimeAuthorityImpl,
    req1: TimestampRequest,
    req2: TimestampRequest,
    t1: UtcTime,
    t2: UtcTime,
    r1: TimestampResponse,
    r2: TimestampResponse,
)
    requires
        a0.issues(a1, req1, t1, r1),
        a1.issues(a2, req2, t2, r2),
        r1.status == TimestampStatus::Success,
        req2.nonce@ == req1.nonce@,
        age(t1.total_nanos(), t2.total_nanos()) >= a0.expiry(),
        request_authorized(a0.clients(), req2),
    ensures
        r2.status == TimestampStatus::Success,
{
    lemma_claimed(a0, a1, req1, t1, r1);
    let swept1 = sweep(a0.cache(), t1.total_nanos(), a0.expiry());
    let x = (req1.nonce@, t1.total_nanos());
    lemma_sweep_push(swept1, x, t2.total_nanos(), a0.expiry());
    lemma_sweep_adds_nothing(swept1, req1.nonce@, t2.total_nanos(), a0.expiry());
}

/// Lock-in: an authority with a client table refuses every request that
/// lacks a client id or signature, and keeps its table after each request.
pub proof fn lemma_restricted_mode_refuses_anonymous(
    a: TimeAuthorityImpl,
    after: TimeAuthorityImpl,
    req: TimestampRequest,
    now: UtcTime,
    resp: TimestampResponse,
)
    requires
        a.clients() is Some,
        req.client_id is None || req.client_signature is None,
        a.issues(after, req, now, resp),
    ensures
        resp.status != TimestampStatus::Success,
        resp.timestamp.signature@.len() == 0,
        after.clients() is Some,
        !cache_holds(sweep(a.cache(), now.total_nanos(), a.expiry()), req.nonce@)
            ==> resp.status == TimestampStatus::AuthenticationFailed,
{
}

/// One step of a run keeps a live claim in the cache.
proof fn lemma_claim_persists(
    a: TimeAuthorityImpl,
    after: TimeAuthorityImpl,
    req: TimestampRequest,
    now: UtcTime,
    resp: TimestampResponse,
    x: (Seq<char>, int),
)
    requires
        a.issues(after, req, now, resp),
        a.cache().contains(x),
        is_live(x, now.total_nanos(), a.expiry()),
    ensures
        after.cache().contains(x),
{
    lemma_sweep_keeps(a.cache(), x, now.total_nanos(), a.expiry());
    let swept = sweep(a.cache(), now.total_nanos(), a.expiry());
    if !cache_holds(swept, req.nonce@) {
        let i = choose|i: int| 0 <= i < swept.len() && swept[i] == x;
        assert(swept.push((req.nonce@, now.total_nanos()))[i] == x);
    }
}

/// Requests leave the expiry as it was.
proof fn lemma_expiry_kept(
    states: Seq<TimeAuthorityImpl>,
    reqs: Seq<TimestampRequest>,
    times: Seq<UtcTime>,
    resps: Seq<TimestampResponse>,
    m: int,
)
    requires
        states.len() == reqs.len() + 1,
        times.len() == reqs.len(),
        resps.len() == reqs.len(),
        forall|i: int|
            0 <= i < reqs.len() ==> #[trigger] states[i].issues(
                states[i + 1],
                reqs[i],
                times[i],
                resps[i],
            ),
        0 <= m <= reqs.len(),
    ensures
        states[m].expiry() == states[0].expiry(),
    decreases m,
{
    if m > 0 {
        let p = m - 1;
        assert(states[p].issues(states[p + 1], reqs[p], times[p], resps[p]));
        lemma_expiry_kept(states, reqs, times, resps, m - 1);
    }
}

/// A claim stays in the cache through every step at which it is live.
proof fn lemma_claim_held(
    states: Seq<TimeAuthorityImpl>,
    reqs: Seq<TimestampRequest>,
    times: Seq<UtcTime>,
    resps: Seq<TimestampResponse>,
    x: (Seq<char>, int),
    from: int,
    to: int,
)
    requires
        states.len() == reqs.len() + 1,
        times.len() == reqs.len(),
        resps.len() == reqs.len(),
        forall|m: int|
            0 <= m < reqs.len() ==> #[trigger] states[m].issues(
                states[m + 1],
                reqs[m],
                times[m],
                resps[m],
            ),
        0 <= from <= to <= reqs.len(),
        states[from].cache().contains(x),
        forall|m: int| from <= m < to ==> is_live(x, #[trigger] times[m].total_nanos(), states[from].expiry()),
    ensures
        states[to].cache().contains(x),
        states[to].expiry() == states[from].expiry(),
    decreases to - from,
{
    if from < to {
        assert(states[from].issues(states[from + 1], reqs[from], times[from], resps[from]));
        assert(is_live(x, times[from].total_nanos(), states[from].expiry()));
        lemma_claim_persists(states[from], states[from + 1], reqs[from], times[from], resps[from], x);
        lemma_claim_held(states, reqs, times, resps, x, from + 1, to);
    }
}

/// In a run of requests for one nonce, all made within the expiry of each
/// other, every request after one that claimed the nonce is refused as a
/// replay, with an empty signature.
pub proof fn lemma_refused_after_claim(
    states: Seq<TimeAuthorityImpl>,
    reqs: Seq<TimestampRequest>,
    times: Seq<UtcTime>,
    resps: Seq<TimestampResponse>,
    nonce: Seq<char>,
    j: int,
    k: int,
)
    requires
        states.len() == reqs.len() + 1,
        times.len() == reqs.len(),
        resps.len() == reqs.len(),
        forall|m: int|
            0 <= m < reqs.len() ==> #[trigger] states[m].issues(
                states[m + 1],
                reqs[m],
                times[m],
                resps[m],
            ),
        forall|m: int| 0 <= m < reqs.len() ==> #[trigger] reqs[m].nonce@ == nonce,
        forall|m: int, n: int|
            0 <= m < reqs.len() && 0 <= n < reqs.len() ==> age(
                #[trigger] times[m].total_nanos(),
                #[trigger] times[n].total_nanos(),
            ) < states[0].expiry(),
        0 <= j < k < reqs.len(),
        resps[j].status != TimestampStatus::RateLimitExceeded,
    ensures
        resps[k].status == TimestampStatus::RateLimitExceeded,
        resps[k].timestamp.signature@.len() == 0,
{
    let x = (nonce, times[j].total_nanos());
    assert(states[j].issues(states[j + 1], reqs[j], times[j], resps[j]));
    lemma_claimed(states[j], states[j + 1], reqs[j], times[j], resps[j]);
    assert(states[j + 1].cache()[states[j + 1].cache().len() - 1] == x);
    lemma_expiry_kept(states, reqs, times, resps, j + 1);
    lemma_expiry_kept(states, reqs, times, resps, k);
    assert forall|m: int| j + 1 <= m < k implies is_live(
        x,
        #[trigger] times[m].total_nanos(),
        states[j + 1].expiry(),
    ) by {
        assert(age(times[j].total_nanos(), times[m].total_nanos()) < states[0].expiry());
    }
    lemma_claim_held(states, reqs, times, resps, x, j + 1, k);
    assert(states[k].issues(states[k + 1], reqs[k], times[k], resps[k]));
    assert(age(times[j].total_nanos(), times[k].total_nanos()) < states[0].expiry());
    lemma_sweep_keeps(states[k].cache(), x, times[k].total_nanos(), states[k].expiry());
    let swept = sweep(states[k].cache(), times[k].total_nanos(), states[k].expiry());
    let i = choose|i: int| 0 <= i < swept.len() && swept[i] == x;
    assert(swept[i].0 == reqs[k].nonce@);
}

/// At most one success per nonce: in a run of requests for one nonce, all
/// made within the expiry of each other, no two succeed.
pub proof fn lemma_single_success(
    states: Seq<TimeAuthorityImpl>,
    reqs: Seq<TimestampRequest>,
    times: Seq<UtcTime>,
    resps: Seq<TimestampResponse>,
    nonce: Seq<char>,
    j: int,
    k: int,
)
    requires
        states.len() == reqs.len() + 1,
        times.len() == reqs.len(),
        resps.len() == reqs.len(),
        forall|m: int|
            0 <= m < reqs.len() ==> #[trigger] states[m].issues(
                states[m + 1],
                reqs[m],
                times[m],
                resps[m],
            ),
        forall|m: int| 0 <= m < reqs.len() ==> #[trigger] reqs[m].nonce@ == nonce,
        forall|m: int, n: int|
            0 <= m < reqs.len() && 0 <= n < reqs.len() ==> age(
                #[trigger] times[m].total_nanos(),
                #[trigger] times[n].total_nanos(),
            ) < states[0].expiry(),
        0 <= j < k < reqs.len(),
    ensures
        !(resps[j].status == TimestampStatus::Success && resps[k].status
            == TimestampStatus::Success),
{
    if resps[j].status == TimestampStatus::Success {
        lemma_refused_after_claim(states, reqs, times, resps, nonce, j, k);
    }
}

/// Exactly one success: when an open authority does not hold the nonce at the
/// first request of such a run, the first request succeeds and every later
/// one is refused as a replay.
pub proof fn lemma_exactly_one_success(
    states: Seq<TimeAuthorityImpl>,
    reqs: Seq<TimestampRequest>,
    times: Seq<UtcTime>,
    resps: Seq<TimestampResponse>,
    nonce: Seq<char>,
)
    requires
        states.len() == reqs.len() + 1,
        times.len() == reqs.len(),
        resps.len() == reqs.len(),
        forall|m: int|
            0 <= m < reqs.len() ==> #[trigger] states[m].issues(
                states[m + 1],
                reqs[m],
                times[m],
                resps[m],
            ),
        forall|m: int| 0 <= m < reqs.len() ==> #[trigger] reqs[m].nonce@ == nonce,
        forall|m: int, n: int|
            0 <= m < reqs.len() && 0 <= n < reqs.len() ==> age(
                #[trigger] times[m].total_nanos(),
                #[trigger] times[n].total_nanos(),
            ) < states[0].expiry(),
        reqs.len() >= 1,
        states[0].clients() is None,
        !cache_holds(sweep(states[0].cache(), times[0].total_nanos(), states[0].expiry()), nonce),
    ensures
        resps[0].status == TimestampStatus::Success,
        forall|k: int|
            1 <= k < reqs.len() ==> #[trigger] resps[k].status
                == TimestampStatus::RateLimitExceeded && resps[k].timestamp.signature@.len() == 0,
{
    let z: int = 0;
    assert(states[z].issues(states[z + 1], reqs[z], times[z], resps[z]));
    assert(reqs[z].nonce@ == nonce);
    assert forall|k: int| 1 <= k < reqs.len() implies #[trigger] resps[k].status
        == TimestampStatus::RateLimitExceeded && resps[k].timestamp.signature@.len() == 0 by {
        lemma_refused_after_claim(states, reqs, times, resps, nonce, 0, k);
    }
}

} // verus!
