//! The authority: replay cache, client authorization, and signing.
use crate::crypto::{
    ed25519_signature_of, ed25519_verifies, signature_encoding_ok, signature_well_formed, KeyPair,
    VerifyingKey,
};
use crate::error::TimeServiceError;
use crate::models::{
    canonical_message, timestamp_verifies, AuthenticTimestamp, TimestampRequest,
    TimestampResponse, TimestampStatus,
};
use crate::time::UtcTime;
use crate::trust::TrustStore;
use vstd::prelude::*;
use vstd::string::*;

verus! {

/// How long a nonce stays in the replay cache unless changed: five minutes.
pub const DEFAULT_NONCE_EXPIRY_NANOS: u64 = 300_000_000_000;

/// How long ago `inserted` was at `now`, in nanoseconds; a clock that went
/// back counts as no time.
pub open spec fn age(inserted: int, now: int) -> int {
    if now > inserted {
        now - inserted
    } else {
        0
    }
}

/// Whether a cache entry survives a sweep at `now`.
pub open spec fn is_live(entry: (Seq<char>, int), now: int, expiry: int) -> bool {
    age(entry.1, now) < expiry
}

/// The cache after removing every entry whose age has reached the expiry.
pub open spec fn sweep(cache: Seq<(Seq<char>, int)>, now: int, expiry: int) -> Seq<(Seq<char>, int)> {
    cache.filter(|e: (Seq<char>, int)| is_live(e, now, expiry))
}

pub open spec fn cache_holds(cache: Seq<(Seq<char>, int)>, nonce: Seq<char>) -> bool {
    exists|i: int| 0 <= i < cache.len() && #[trigger] cache[i].0 == nonce
}

/// The cache after a request for `nonce` at `now`: swept, and the nonce
/// claimed unless it was already there.
pub open spec fn claim(cache: Seq<(Seq<char>, int)>, nonce: Seq<char>, now: int, expiry: int) -> Seq<
    (Seq<char>, int),
> {
    let swept = sweep(cache, now, expiry);
    if cache_holds(swept, nonce) {
        swept
    } else {
        swept.push((nonce, now))
    }
}

/// Whether the authority takes `req` from this client: always in open mode;
/// in restricted mode only with a registered client id and a parsable
/// signature of the nonce under that client's key.
pub open spec fn request_authorized(clients: Option<TrustStore>, req: TimestampRequest) -> bool {
    match clients {
        None => true,
        Some(table) => match (req.client_id, req.client_signature) {
            (Some(id), Some(sig)) => match table.key_of(id@) {
                Some(key) => signature_encoding_ok(sig@) && ed25519_verifies(key, req.nonce@, sig@),
                None => false,
            },
            _ => false,
        },
    }
}

pub open spec fn entry_view(e: (String, UtcTime)) -> (Seq<char>, int) {
    (e.0@, e.1.total_nanos())
}

pub open spec fn entries_view(v: Seq<(String, UtcTime)>) -> Seq<(Seq<char>, int)> {
    v.map_values(|e: (String, UtcTime)| entry_view(e))
}

/// What any authority offers: its identity, issuing, checking, and its key.
pub trait TimeAuthority {
    spec fn authority_id(&self) -> Seq<char>;

    spec fn verification_key(&self) -> Seq<u8>;

    /// The status that `req` gets when it arrives at `now`.
    spec fn answer(&self, req: TimestampRequest, now: UtcTime) -> TimestampStatus;

    fn get_id(&self) -> (r: String)
        ensures
            r@ == self.authority_id(),
    ;

    /// Answers `request`, never with an error; the status is `answer` at the
    /// response's time; a success carries a signature that verifies under the
    /// authority's key, any other status an empty one.
    fn issue_timestamp(&mut self, request: TimestampRequest) -> (r: Result<
        TimestampResponse,
        TimeServiceError,
    >)
        ensures
            final(self).authority_id() == old(self).authority_id(),
            final(self).verification_key() == old(self).verification_key(),
            r is Ok,
            r matches Ok(resp) ==> {
                &&& resp.status == old(self).answer(request, resp.timestamp.timestamp)
                &&& resp.timestamp.nonce@ == request.nonce@
                &&& resp.timestamp.authority_id@ == old(self).authority_id()
                &&& resp.status == TimestampStatus::Success ==> timestamp_verifies(
                    old(self).verification_key(),
                    resp.timestamp,
                )
                &&& resp.status != TimestampStatus::Success ==> resp.timestamp.signature@.len()
                    == 0
            },
    ;

    /// Whether `ts` names this authority and verifies under its key.
    fn verify_timestamp(&self, ts: &AuthenticTimestamp) -> (r: bool)
        ensures
            r == (ts.authority_id@ == self.authority_id() && timestamp_verifies(
                self.verification_key(),
                *ts,
            )),
    ;

    fn get_public_key(&self) -> (r: Vec<u8>)
        ensures
            r@ == self.verification_key(),
    ;
}

/// An authority that issues signed timestamps under its identifier.
///
/// The replay cache is swept only when a request arrives: while none does,
/// it keeps every nonce it holds, however old, and it grows by one entry for
/// each fresh nonce.
pub struct TimeAuthorityImpl {
    id: String,
    keypair: KeyPair,
    recent_requests: Vec<(String, UtcTime)>,
    nonce_expiry: u64,
    trusted_clients: Option<TrustStore>,
}

impl TimeAuthorityImpl {
    pub closed spec fn spec_id(self) -> Seq<char> {
        self.id@
    }

    pub closed spec fn secret_key(self) -> Seq<u8> {
        self.keypair.secret_view()
    }

    pub open spec fn public_key(self) -> Seq<u8> {
        crate::crypto::ed25519_public_of(self.secret_key())
    }

    /// Nonces seen, with the time each was claimed, in nanoseconds.
    pub closed spec fn cache(self) -> Seq<(Seq<char>, int)> {
        entries_view(self.recent_requests@)
    }

    pub closed spec fn expiry(self) -> int {
        self.nonce_expiry as int
    }

    /// The registered clients; `None` while the authority is open to all.
    pub closed spec fn clients(self) -> Option<TrustStore> {
        self.trusted_clients
    }

    /// The status a request gets at `now`.
    pub open spec fn status_for(self, req: TimestampRequest, now: UtcTime) -> TimestampStatus {
        if cache_holds(sweep(self.cache(), now.total_nanos(), self.expiry()), req.nonce@) {
            TimestampStatus::RateLimitExceeded
        } else if request_authorized(self.clients(), req) {
            TimestampStatus::Success
        } else {
            TimestampStatus::AuthenticationFailed
        }
    }

    /// Everything but the replay cache is kept.
    pub open spec fn same_configuration(self, other: TimeAuthorityImpl) -> bool {
        &&& other.spec_id() == self.spec_id()
        &&& other.secret_key() == self.secret_key()
        &&& other.expiry() == self.expiry()
        &&& other.clients() == self.clients()
    }

    /// `after` and `resp` are what handling `req` at `now` makes of `self`.
    pub open spec fn issues(
        self,
        after: TimeAuthorityImpl,
        req: TimestampRequest,
        now: UtcTime,
        resp: TimestampResponse,
    ) -> bool {
        let ts = resp.timestamp;
        &&& self.same_configuration(after)
        &&& after.cache() == claim(self.cache(), req.nonce@, now.total_nanos(), self.expiry())
        &&& resp.status == self.status_for(req, now)
        &&& ts.timestamp == now
        &&& ts.nonce@ == req.nonce@
        &&& ts.authority_id@ == self.spec_id()
        &&& if resp.status == TimestampStatus::Success {
            &&& ts.signature@ == ed25519_signature_of(
                self.secret_key(),
                canonical_message(now, req.nonce@),
            )
            &&& timestamp_verifies(self.public_key(), ts)
        } else {
            ts.signature@.len() == 0
        }
    }

    /// A new authority under `id` with a freshly generated key pair.
    pub fn new(id: String) -> (r: TimeAuthorityImpl)
        ensures
            r.spec_id() == id@,
            r.cache().len() == 0,
            r.expiry() == DEFAULT_NONCE_EXPIRY_NANOS,
            r.clients() is None,
    {
        TimeAuthorityImpl::with_keypair(id, KeyPair::generate())
    }

    /// A new authority under `id` that signs with `keypair`.
    pub fn with_keypair(id: String, keypair: KeyPair) -> (r: TimeAuthorityImpl)
        ensures
            r.spec_id() == id@,
            r.secret_key() == keypair.secret_view(),
            r.cache().len() == 0,
            r.expiry() == DEFAULT_NONCE_EXPIRY_NANOS,
            r.clients() is None,
    {
        let r = TimeAuthorityImpl {
            id,
            keypair,
            recent_requests: Vec::new(),
            nonce_expiry: DEFAULT_NONCE_EXPIRY_NANOS,
            trusted_clients: None,
        };
        assert(r.cache().len() == 0);
        r
    }

    /// Sets how long, in nanoseconds, a nonce is remembered.
    pub fn set_nonce_expiry(&mut self, expiry_nanos: u64)
        ensures
            final(self).expiry() == expiry_nanos,
            final(self).spec_id() == old(self).spec_id(),
            final(self).secret_key() == old(self).secret_key(),
            final(self).cache() == old(self).cache(),
            final(self).clients() == old(self).clients(),
    {
        self.nonce_expiry = expiry_nanos;
    }

    /// Registers a client; from then on only registered clients are served.
    pub fn add_trusted_client(&mut self, client_id: String, client_pubkey: VerifyingKey)
        ensures
            final(self).clients() matches Some(table) && forall|x: Seq<char>|
                #[trigger] table.key_of(x) == if x == client_id@ {
                    Some(client_pubkey@)
                } else {
                    match old(self).clients() {
                        Some(t) => t.key_of(x),
                        None => None,
                    }
                },
            final(self).spec_id() == old(self).spec_id(),
            final(self).secret_key() == old(self).secret_key(),
            final(self).expiry() == old(self).expiry(),
            final(self).cache() == old(self).cache(),
    {
        let mut table = match self.trusted_clients.take() {
            Some(t) => t,
            None => TrustStore::new(),
        };
        table.insert(client_id, client_pubkey);
        self.trusted_clients = Some(table);
    }

    /// Removes the nonces whose age at `now` has reached the expiry.
    fn clean_expired_nonces(&mut self, now: UtcTime)
        ensures
            final(self).cache() == sweep(old(self).cache(), now.total_nanos(), old(self).expiry()),
            old(self).same_configuration(*final(self)),
    {
        let now_nanos = now.as_nanos();
        let expiry = self.nonce_expiry as i128;
        let ghost all = self.cache();
        let mut kept: Vec<(String, UtcTime)> = Vec::new();
        let mut i: usize = 0;
        while i < self.recent_requests.len()
            invariant
                i <= self.recent_requests.len(),
                all == entries_view(self.recent_requests@),
                entries_view(kept@) == sweep(
                    all.subrange(0, i as int),
                    now.total_nanos(),
                    expiry as int,
                ),
                expiry == self.nonce_expiry,
                now_nanos == now.total_nanos(),
            decreases self.recent_requests.len() - i,
        {
            let ghost before = kept@;
            assert(all[i as int] == entry_view(self.recent_requests@[i as int]));
            let seen = self.recent_requests[i].1.as_nanos();
            let elapsed: i128 = if now_nanos > seen {
                now_nanos - seen
            } else {
                0
            };
            if elapsed < expiry {
                let nonce = self.recent_requests[i].0.clone();
                kept.push((nonce, self.recent_requests[i].1));
                assert(entries_view(kept@) =~= entries_view(before).push(all[i as int]));
            } else {
                assert(entries_view(kept@) =~= entries_view(before));
            }
            assert(is_live(all[i as int], now.total_nanos(), expiry as int) == (elapsed < expiry));
            assert(all.subrange(0, i + 1).drop_last() =~= all.subrange(0, i as int));
            assert(all.subrange(0, i + 1).last() == all[i as int]);
            proof {
                reveal(Seq::filter);
            }
            i = i + 1;
        }
        assert(all.subrange(0, i as int) =~= all);
        self.recent_requests = kept;
    }

    /// Whether `nonce` is in the replay cache.
    fn nonce_seen(&self, nonce: &String) -> (r: bool)
        ensures
            r == cache_holds(self.cache(), nonce@),
    {
        let mut i: usize = 0;
        while i < self.recent_requests.len()
            invariant
                i <= self.recent_requests.len(),
                forall|j: int| 0 <= j < i ==> #[trigger] self.cache()[j].0 != nonce@,
            decreases self.recent_requests.len() - i,
        {
            if self.recent_requests[i].0 == *nonce {
                assert(self.cache()[i as int].0 == nonce@);
                return true;
            }
            i = i + 1;
        }
        false
    }

    /// Whether the authority takes `request` from its client.
    fn is_client_authorized(&self, request: &TimestampRequest) -> (r: bool)
        ensures
            r == request_authorized(self.clients(), *request),
    {
        match &self.trusted_clients {
            None => true,
            Some(table) => match (&request.client_id, &request.client_signature) {
                (Some(id), Some(sig)) => match table.get(id) {
                    Some(key) => {
                        if signature_well_formed(sig.as_slice()) {
                            key.verify(request.nonce.as_str(), sig.as_slice())
                        } else {
                            false
                        }
                    },
                    None => false,
                },
                _ => false,
            },
        }
    }

    pub fn get_id(&self) -> (r: String)
        ensures
            r@ == self.spec_id(),
    {
        self.id.clone()
    }

    /// The authority's public key, for handing to verifiers.
    pub fn get_public_key(&self) -> (r: Vec<u8>)
        ensures
            r@ == self.public_key(),
            r@.len() == 32,
            crate::crypto::public_key_accepted(r@),
    {
        self.keypair.public_key().to_bytes()
    }

    /// Decides `request` at `now`: sweeps the cache, refuses a nonce it still
    /// holds, otherwise claims the nonce and checks the client. Only this step
    /// needs exclusive access; the check and the claim happen in one call.
    pub fn decide(&mut self, request: &TimestampRequest, now: UtcTime) -> (r: TimestampStatus)
        ensures
            r == old(self).status_for(*request, now),
            final(self).cache() == claim(
                old(self).cache(),
                request.nonce@,
                now.total_nanos(),
                old(self).expiry(),
            ),
            old(self).same_configuration(*final(self)),
    {
        self.clean_expired_nonces(now);
        let ghost swept = self.cache();
        if self.nonce_seen(&request.nonce) {
            return TimestampStatus::RateLimitExceeded;
        }
        let claimed = request.nonce.clone();
        self.recent_requests.push((claimed, now));
        assert(self.cache() =~= swept.push((request.nonce@, now.total_nanos())));
        if self.is_client_authorized(request) {
            TimestampStatus::Success
        } else {
            TimestampStatus::AuthenticationFailed
        }
    }

    /// The response for a decided request: signed on `Success`, with an empty
    /// signature otherwise. Needs no exclusive access.
    pub fn respond(&self, request: TimestampRequest, now: UtcTime, status: TimestampStatus) -> (r:
        TimestampResponse)
        ensures
            r.status == status,
            r.timestamp.timestamp == now,
            r.timestamp.nonce@ == request.nonce@,
            r.timestamp.authority_id@ == self.spec_id(),
            if status == TimestampStatus::Success {
                &&& r.timestamp.signature@ == ed25519_signature_of(
                    self.secret_key(),
                    canonical_message(now, request.nonce@),
                )
                &&& timestamp_verifies(self.public_key(), r.timestamp)
            } else {
                r.timestamp.signature@.len() == 0
            },
    {
        let signature = if status == TimestampStatus::Success {
            let message = now.to_rfc3339().concat(request.nonce.as_str());
            self.keypair.sign(message.as_str())
        } else {
            Vec::new()
        };
        TimestampResponse {
            timestamp: AuthenticTimestamp {
                timestamp: now,
                nonce: request.nonce,
                authority_id: self.id.clone(),
                signature,
            },
            status,
        }
    }

    /// Handles `request` at the instant `now`: `decide`, then `respond`.
    pub fn issue_timestamp_at(&mut self, request: TimestampRequest, now: UtcTime) -> (r: Result<
        TimestampResponse,
        TimeServiceError,
    >)
        ensures
            r matches Ok(resp) && old(self).issues(*final(self), request, now, resp),
    {
        let status = self.decide(&request, now);
        Ok(self.respond(request, now, status))
    }

    /// Handles `request` at the current time of the system clock.
    pub fn issue_timestamp(&mut self, request: TimestampRequest) -> (r: Result<
        TimestampResponse,
        TimeServiceError,
    >)
        ensures
            r matches Ok(resp) && old(self).issues(
                *final(self),
                request,
                resp.timestamp.timestamp,
                resp,
            ),
    {
        self.issue_timestamp_at(request, UtcTime::now())
    }

    /// Whether `ts` names this authority and carries its signature of the
    /// canonical message.
    pub fn verify_timestamp(&self, ts: &AuthenticTimestamp) -> (r: bool)
        ensures
            r == (ts.authority_id@ == self.spec_id() && timestamp_verifies(self.public_key(), *ts)),
    {
        if ts.authority_id != self.id {
            return false;
        }
        let message = ts.format_message();
        if !signature_well_formed(ts.signature.as_slice()) {
            return false;
        }
        self.keypair.public_key().verify(message.as_str(), ts.signature.as_slice())
    }
}

impl TimeAuthority for TimeAuthorityImpl {
    open spec fn authority_id(&self) -> Seq<char> {
        self.spec_id()
    }

    open spec fn verification_key(&self) -> Seq<u8> {
        self.public_key()
    }

    open spec fn answer(&self, req: TimestampRequest, now: UtcTime) -> TimestampStatus {
        self.status_for(req, now)
    }

    fn get_id(&self) -> (r: String) {
        TimeAuthorityImpl::get_id(self)
    }

    fn issue_timestamp(&mut self, request: TimestampRequest) -> (r: Result<
        TimestampResponse,
        TimeServiceError,
    >) {
        TimeAuthorityImpl::issue_timestamp(self, request)
    }

    fn verify_timestamp(&self, ts: &AuthenticTimestamp) -> (r: bool) {
        TimeAuthorityImpl::verify_timestamp(self, ts)
    }

    fn get_public_key(&self) -> (r: Vec<u8>) {
        TimeAuthorityImpl::get_public_key(self)
    }
}

} // verus!
