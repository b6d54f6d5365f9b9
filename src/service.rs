//! A process's time service: at most one authority and one client, with
//! requests to the local authority dispatched in process.
use crate::authority::{cache_holds, sweep, TimeAuthorityImpl, DEFAULT_NONCE_EXPIRY_NANOS};
use crate::client::TimeClient;
use crate::crypto::public_key_accepted;
use crate::error::TimeServiceError;
use crate::models::{
    status_name, timestamp_verifies, AuthenticTimestamp, TimestampRequest, TimestampResponse,
    TimestampStatus,
};
use crate::time::UtcTime;
use vstd::prelude::*;

verus! {

/// One authority (optional) and one client.
pub struct TspTimeService {
    authority: Option<TimeAuthorityImpl>,
    client: TimeClient,
    authority_endpoints: Vec<(String, String)>,
}

impl TspTimeService {
    pub closed spec fn spec_authority(self) -> Option<TimeAuthorityImpl> {
        self.authority
    }

    pub closed spec fn spec_client(self) -> TimeClient {
        self.client
    }

    /// Registered endpoints by authority identifier, oldest first.
    pub closed spec fn endpoints(self) -> Seq<(Seq<char>, Seq<char>)> {
        self.authority_endpoints@.map_values(|e: (String, String)| (e.0@, e.1@))
    }

    /// Whether the local authority answers to `authority_id`.
    pub open spec fn serves(self, authority_id: Seq<char>) -> bool {
        self.spec_authority() matches Some(a) && a.spec_id() == authority_id
    }

    /// A service that is no authority, with an anonymous client.
    pub fn new() -> (r: TspTimeService)
        ensures
            r.spec_authority() is None,
            r.spec_client().spec_id() is None,
            r.spec_client().secret_key() is None,
            forall|a: Seq<char>| r.spec_client().authorities().key_of(a) is None,
            r.endpoints().len() == 0,
    {
        let r = TspTimeService {
            authority: None,
            client: TimeClient::new_anonymous(),
            authority_endpoints: Vec::new(),
        };
        assert(r.endpoints().len() == 0);
        r
    }

    /// Makes this service an authority under `id`, with a fresh key pair.
    pub fn as_authority(&mut self, id: String)
        ensures
            final(self).spec_authority() matches Some(a) && a.spec_id() == id@
                && a.cache().len() == 0 && a.clients() is None && a.expiry()
                == DEFAULT_NONCE_EXPIRY_NANOS,
            final(self).spec_client() == old(self).spec_client(),
            final(self).endpoints() == old(self).endpoints(),
    {
        self.authority = Some(TimeAuthorityImpl::new(id));
    }

    /// Makes the client authenticated under `id`, with a fresh key pair.
    pub fn as_authenticated_client(&mut self, id: String)
        ensures
            final(self).spec_client().spec_id() == Some(id@),
            final(self).spec_client().secret_key() is Some,
            forall|a: Seq<char>| final(self).spec_client().authorities().key_of(a) is None,
            final(self).spec_authority() == old(self).spec_authority(),
            final(self).endpoints() == old(self).endpoints(),
    {
        self.client = TimeClient::new_authenticated(id);
    }

    /// Trusts `public_key` for `authority_id` in the client.
    pub fn add_authority_key(&mut self, authority_id: String, public_key: &[u8]) -> (r: Result<
        (),
        TimeServiceError,
    >)
        ensures
            r is Ok <==> public_key_accepted(public_key@),
            r matches Err(e) ==> e is InvalidSignature,
            r is Ok ==> forall|a: Seq<char>|
                #[trigger] final(self).spec_client().authorities().key_of(a) == if a
                    == authority_id@ {
                    Some(public_key@)
                } else {
                    old(self).spec_client().authorities().key_of(a)
                },
            final(self).spec_authority() == old(self).spec_authority(),
    {
        self.client.add_authority(authority_id, public_key)
    }

    /// Records where `authority_id` can be reached.
    pub fn add_authority_endpoint(&mut self, authority_id: String, endpoint: String)
        ensures
            final(self).endpoints() == old(self).endpoints().push((authority_id@, endpoint@)),
            final(self).spec_authority() == old(self).spec_authority(),
            final(self).spec_client() == old(self).spec_client(),
    {
        let ghost before = self.endpoints();
        let ghost entry = (authority_id@, endpoint@);
        self.authority_endpoints.push((authority_id, endpoint));
        assert(self.endpoints() =~= before.push(entry));
    }

    pub fn get_authority_public_key(&self) -> (r: Option<Vec<u8>>)
        ensures
            match self.spec_authority() {
                Some(a) => r matches Some(k) && k@ == a.public_key() && k@.len() == 32
                    && public_key_accepted(k@),
                None => r is None,
            },
    {
        match &self.authority {
            Some(a) => Some(a.get_public_key()),
            None => None,
        }
    }

    pub fn get_client_public_key(&self) -> (r: Option<Vec<u8>>)
        ensures
            match self.spec_client().secret_key() {
                Some(s) => r matches Some(k) && k@ == crate::crypto::ed25519_public_of(s)
                    && k@.len() == 32 && public_key_accepted(k@),
                None => r is None,
            },
    {
        self.client.get_public_key()
    }

    /// Hands `request` to the local authority if it answers to
    /// `authority_id`, as of `now`; a non-success status becomes
    /// `RequestRejected` with the status's name.
    pub fn dispatch_request(&mut self, authority_id: &str, request: TimestampRequest, now: UtcTime) -> (r:
        Result<AuthenticTimestamp, TimeServiceError>)
        ensures
            final(self).spec_client() == old(self).spec_client(),
            final(self).endpoints() == old(self).endpoints(),
            !old(self).serves(authority_id@) ==> {
                &&& r matches Err(TimeServiceError::AuthorityNotFound(a)) && a@ == authority_id@
                &&& final(self).spec_authority() == old(self).spec_authority()
            },
            old(self).serves(authority_id@) ==> exists|resp: TimestampResponse|
                {
                    &&& #[trigger] old(self).spec_authority()->0.issues(
                        final(self).spec_authority()->0,
                        request,
                        now,
                        resp,
                    )
                    &&& final(self).spec_authority() is Some
                    &&& if resp.status == TimestampStatus::Success {
                        r == Ok::<AuthenticTimestamp, TimeServiceError>(resp.timestamp)
                    } else {
                        r matches Err(TimeServiceError::RequestRejected(m)) && m@ == status_name(
                            resp.status,
                        )
                    }
                },
    {
        let wanted = authority_id.to_owned();
        let serves = match &self.authority {
            Some(a) => a.get_id() == wanted,
            None => false,
        };
        if !serves {
            return Err(TimeServiceError::AuthorityNotFound(wanted));
        }
        let mut authority = self.authority.take().unwrap();
        let ghost before = authority;
        let answer = authority.issue_timestamp_at(request, now);
        self.authority = Some(authority);
        let resp = match answer {
            Ok(resp) => resp,
            Err(e) => {
                return Err(e);
            },
        };
        assert(before.issues(self.spec_authority()->0, request, now, resp));
        if resp.status == TimestampStatus::Success {
            Ok(resp.timestamp)
        } else {
            Err(TimeServiceError::RequestRejected(resp.status.name()))
        }
    }

    /// Asks the authority `authority_id` for a timestamp over a fresh nonce
    /// from the client; only the local authority can be reached.
    pub fn request_timestamp(&mut self, authority_id: &str) -> (r: Result<
        AuthenticTimestamp,
        TimeServiceError,
    >)
        ensures
            final(self).spec_client() == old(self).spec_client(),
            !old(self).serves(authority_id@) ==> (r matches Err(
                TimeServiceError::AuthorityNotFound(a),
            ) && a@ == authority_id@),
            r matches Ok(ts) ==> (old(self).serves(authority_id@) && ts.authority_id@
                == authority_id@ && timestamp_verifies(
                old(self).spec_authority()->0.public_key(),
                ts,
            )),
            r matches Err(e) ==> e is AuthorityNotFound || e is RequestRejected,
            !old(self).serves(authority_id@) ==> final(self).spec_authority() == old(
                self,
            ).spec_authority(),
            old(self).serves(authority_id@) ==> exists|
                req: TimestampRequest,
                now: UtcTime,
                resp: TimestampResponse,
            |
                {
                    &&& old(self).spec_client().makes(req.nonce@, req)
                    &&& #[trigger] old(self).spec_authority()->0.issues(
                        final(self).spec_authority()->0,
                        req,
                        now,
                        resp,
                    )
                    &&& final(self).spec_authority() is Some
                    &&& if resp.status == TimestampStatus::Success {
                        r == Ok::<AuthenticTimestamp, TimeServiceError>(resp.timestamp)
                    } else {
                        r matches Err(TimeServiceError::RequestRejected(m)) && m@ == status_name(
                            resp.status,
                        )
                    }
                },
            old(self).spec_authority() matches Some(a) && a.spec_id() == authority_id@
                && a.clients() is None && a.cache().len() == 0 ==> r is Ok,
    {
        let request = self.client.create_request();
        let now = UtcTime::now();
        proof {
            reveal(Seq::filter);
        }
        let r = self.dispatch_request(authority_id, request, now);
        proof {
            if old(self).serves(authority_id@) {
                let resp = choose|resp: TimestampResponse|
                    #[trigger] old(self).spec_authority()->0.issues(
                        self.spec_authority()->0,
                        request,
                        now,
                        resp,
                    ) && self.spec_authority() is Some && if resp.status
                        == TimestampStatus::Success {
                        r == Ok::<AuthenticTimestamp, TimeServiceError>(resp.timestamp)
                    } else {
                        r matches Err(TimeServiceError::RequestRejected(m)) && m@ == status_name(
                            resp.status,
                        )
                    };
                let a = old(self).spec_authority()->0;
                if a.clients() is None && a.cache().len() == 0 {
                    assert(sweep(a.cache(), now.total_nanos(), a.expiry()).len() == 0);
                    assert(!cache_holds(sweep(a.cache(), now.total_nanos(), a.expiry()), request.nonce@));
                }
            }
        }
        r
    }

    /// Checks `ts` with the client's trusted keys.
    pub fn verify_timestamp(&self, ts: &AuthenticTimestamp) -> (r: Result<bool, TimeServiceError>)
        ensures
            match self.spec_client().authorities().key_of(ts.authority_id@) {
                None => r matches Err(TimeServiceError::AuthorityNotFound(a)) && a@
                    == ts.authority_id@,
                Some(key) => if crate::crypto::signature_encoding_ok(ts.signature@) {
                    r == Ok::<bool, TimeServiceError>(timestamp_verifies(key, *ts))
                } else {
                    r matches Err(e) && e is InvalidSignature
                },
            },
    {
        self.client.verify_timestamp(ts)
    }

    /// The authority's entry point for a request that arrived from outside.
    pub fn process_timestamp_request(&mut self, request: TimestampRequest) -> (r: Result<
        TimestampResponse,
        TimeServiceError,
    >)
        ensures
            final(self).spec_client() == old(self).spec_client(),
            match old(self).spec_authority() {
                None => r matches Err(TimeServiceError::Generic(m)) && m@
                    == "Not configured as an authority"@,
                Some(a) => r matches Ok(resp) && final(self).spec_authority() matches Some(b)
                    && a.issues(b, request, resp.timestamp.timestamp, resp),
            },
    {
        match &mut self.authority {
            Some(authority) => authority.issue_timestamp(request),
            None => Err(TimeServiceError::generic("Not configured as an authority")),
        }
    }
}

} // verus!
