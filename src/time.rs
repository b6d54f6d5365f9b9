//! Instants as plain values, and their fixed textual rendering.
use vstd::prelude::*;

verus! {

/// The last second that chrono can represent: +262142-12-31T23:59:59Z.
pub const MAX_UNIX_SECONDS: i64 = 8_210_266_876_799;

pub const NANOS_PER_SECOND: u32 = 1_000_000_000;

/// An instant at or after the Unix epoch, to the nanosecond.
#[derive(Clone, Copy, Debug, PartialEq, Eq)]
pub struct UtcTime {
    secs: i64,
    nanos: u32,
}

/// The text that chrono's `to_rfc3339` gives for the instant `secs`.`nanos`.
pub uninterp spec fn rfc3339_text(secs: i64, nanos: u32) -> Seq<char>;

/// Whether `secs`.`nanos` is an instant that `UtcTime` can hold.
pub open spec fn valid_instant(secs: i64, nanos: u32) -> bool {
    0 <= secs <= MAX_UNIX_SECONDS && nanos < NANOS_PER_SECOND
}

impl UtcTime {
    #[verifier::type_invariant]
    spec fn well_formed(self) -> bool {
        valid_instant(self.secs, self.nanos)
    }

    /// Whole seconds since the epoch.
    pub closed spec fn spec_secs(self) -> i64 {
        self.secs
    }

    /// Nanoseconds past the whole second.
    pub closed spec fn spec_nanos(self) -> u32 {
        self.nanos
    }

    /// Nanoseconds since the epoch.
    pub open spec fn total_nanos(self) -> int {
        self.spec_secs() as int * NANOS_PER_SECOND as int + self.spec_nanos() as int
    }

    /// The rendering that is signed for this instant.
    pub open spec fn rendering(self) -> Seq<char> {
        rfc3339_text(self.spec_secs(), self.spec_nanos())
    }

    /// The instant `secs` seconds and `nanos` nanoseconds after the epoch, if
    /// it lies in the representable range.
    pub fn new(secs: i64, nanos: u32) -> (r: Option<UtcTime>)
        ensures
            r is Some <==> valid_instant(secs, nanos),
            r matches Some(t) ==> t.spec_secs() == secs && t.spec_nanos() == nanos,
    {
        if 0 <= secs && secs <= MAX_UNIX_SECONDS && nanos < NANOS_PER_SECOND {
            Some(UtcTime { secs, nanos })
        } else {
            None
        }
    }

    pub fn secs(&self) -> (r: i64)
        ensures
            r == self.spec_secs(),
    {
        self.secs
    }

    pub fn nanos(&self) -> (r: u32)
        ensures
            r == self.spec_nanos(),
    {
        self.nanos
    }

    /// Nanoseconds since the epoch.
    pub fn as_nanos(&self) -> (r: i128)
        ensures
            r as int == self.total_nanos(),
            0 <= r < 10_000_000_000_000_000_000_000,
    {
        proof {
            use_type_invariant(self);
        }
        self.secs as i128 * 1_000_000_000i128 + self.nanos as i128
    }

    /// The current time of the system clock.
    pub fn now() -> (r: UtcTime) {
        let (secs, nanos) = utc_now_parts();
        UtcTime { secs, nanos }
    }

    /// The fixed rendering of this instant that is signed and verified.
    pub fn to_rfc3339(&self) -> (r: String)
        ensures
            r@ == self.rendering(),
    {
        proof {
            use_type_invariant(self);
        }
        render_rfc3339(self.secs, self.nanos)
    }
}

/// Relies on chrono::Utc::now, which panics before the epoch and otherwise
/// builds a `DateTime` from the clock's seconds and sub-second nanoseconds.
#[verifier::external_body]
fn utc_now_parts() -> (r: (i64, u32))
    ensures
        valid_instant(r.0, r.1),
{
    let t = chrono::Utc::now();
    (t.timestamp(), t.timestamp_subsec_nanos())
}

/// Relies on chrono::DateTime::<Utc>::to_rfc3339; `from_timestamp` accepts
/// every valid instant, so the `unwrap` cannot fail.
#[verifier::external_body]
fn render_rfc3339(secs: i64, nanos: u32) -> (r: String)
    requires
        valid_instant(secs, nanos),
    ensures
        r@ == rfc3339_text(secs, nanos),
{
    chrono::DateTime::from_timestamp(secs, nanos).unwrap().to_rfc3339()
}

} // verus!
