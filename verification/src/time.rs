//! UTC instants as plain seconds since the Unix epoch, bounded to the range
//! the gateway's timestamp format can carry.

use vstd::prelude::*;

verus! {

/// Earliest representable instant, in seconds since the Unix epoch.
pub const MIN_TIMESTAMP: i64 = -8_334_601_228_800;

/// Latest representable instant, in seconds since the Unix epoch.
pub const MAX_TIMESTAMP: i64 = 8_210_266_876_799;

/// A UTC instant, held as whole seconds since the Unix epoch.
///
/// Every value lies in `MIN_TIMESTAMP ..= MAX_TIMESTAMP`, so it always has a
/// UTC rendering with second precision and a literal `Z` suffix (the year
/// part carries a sign and more digits outside the years 0 to 9999).
#[derive(Clone, Copy, Debug)]
pub struct UtcTime {
    secs: i64,
}

/// `t + delta` in seconds, saturating at the latest representable instant.
pub open spec fn add_clamped(t: i64, delta: i64) -> i64 {
    if t + delta <= MAX_TIMESTAMP {
        (t + delta) as i64
    } else {
        MAX_TIMESTAMP
    }
}

impl UtcTime {
    #[verifier::type_invariant]
    spec fn in_range(self) -> bool {
        MIN_TIMESTAMP <= self.secs <= MAX_TIMESTAMP
    }

    /// The instant as seconds since the Unix epoch.
    pub closed spec fn spec_timestamp(self) -> i64 {
        self.secs
    }

    /// Builds an instant from seconds since the Unix epoch; `None` exactly
    /// when the value falls outside the representable range.
    pub fn from_timestamp(secs: i64) -> (r: Option<UtcTime>)
        ensures
            r is Some <==> MIN_TIMESTAMP <= secs <= MAX_TIMESTAMP,
            r matches Some(t) ==> t.spec_timestamp() == secs,
    {
        if MIN_TIMESTAMP <= secs && secs <= MAX_TIMESTAMP {
            Some(UtcTime { secs })
        } else {
            None
        }
    }

    /// Seconds since the Unix epoch; always within the representable range.
    pub fn timestamp(&self) -> (r: i64)
        ensures
            r == self.spec_timestamp(),
            MIN_TIMESTAMP <= r <= MAX_TIMESTAMP,
    {
        proof {
            use_type_invariant(self);
        }
        self.secs
    }

    /// The instant `delta` seconds later, saturating at the latest
    /// representable instant.
    pub fn plus_seconds(&self, delta: i64) -> (r: UtcTime)
        requires
            0 <= delta,
        ensures
            r.spec_timestamp() == add_clamped(self.spec_timestamp(), delta),
    {
        proof {
            use_type_invariant(self);
        }
        if delta <= MAX_TIMESTAMP - self.secs {
            UtcTime { secs: self.secs + delta }
        } else {
            UtcTime { secs: MAX_TIMESTAMP }
        }
    }
}

/// The `YYYY-MM-DDThh:mm:ssZ` rendering, as bytes, of an instant given in
/// seconds since the Unix epoch. The rendering is a function of the seconds
/// value alone; `format_timestamp` below produces it.
pub uninterp spec fn utc_timestamp(secs: i64) -> Seq<u8>;

/// Relies on chrono: `DateTime::<Utc>::from_timestamp` accepts every seconds
/// value in `MIN_TIMESTAMP ..= MAX_TIMESTAMP` (the bounds of chrono's
/// `NaiveDate` range, which every `UtcTime` lies in), and
/// `format("%Y-%m-%dT%H:%M:%SZ")` prints the instant from the seconds value
/// alone.
#[verifier::external_body]
pub(crate) fn format_timestamp(t: &UtcTime) -> (r: Vec<u8>)
    ensures
        r@ == utc_timestamp(t.spec_timestamp()),
{
    let dt = chrono::DateTime::<chrono::Utc>::from_timestamp(t.secs, 0)
        .expect("seconds within chrono's date range");
    dt.format("%Y-%m-%dT%H:%M:%SZ").to_string().into_bytes()
}

/// Relies on chrono: `Utc::now` either panics or returns a `DateTime` within
/// chrono's date range, so the seconds it carries lie in
/// `MIN_TIMESTAMP ..= MAX_TIMESTAMP`.
#[verifier::external_body]
pub(crate) fn now_utc() -> (r: UtcTime)
    ensures
        MIN_TIMESTAMP <= r.spec_timestamp() <= MAX_TIMESTAMP,
{
    UtcTime { secs: chrono::Utc::now().timestamp() }
}

} // verus!
