//! Instants in UTC, as the status and the log record them.

use vstd::prelude::*;

verus! {

/// The earliest second (a UNIX timestamp) that a UTC date-time can carry: -262143-01-01T00:00:00.
pub const MIN_TIMESTAMP: i64 = -8334601315200i64;

/// The latest second (a UNIX timestamp) that a UTC date-time can carry: 262142-12-31T23:59:59.
pub const MAX_TIMESTAMP: i64 = 8210266876799i64;

/// One second in nanoseconds.
pub const NANOS_PER_SEC: u32 = 1_000_000_000u32;

/// An instant in UTC: the UNIX timestamp in whole seconds and the nanoseconds
/// past that second. During a leap second `nanos` runs from one to two seconds.
/// Instants are ordered by `secs`, then by `nanos`.
#[derive(Clone, Copy, Debug, PartialEq, Eq, Structural)]
pub struct UtcInstant {
    pub secs: i64,
    pub nanos: u32,
}

impl UtcInstant {
    /// The instant names a date-time in the representable range; only the
    /// last second of a minute may carry a leap second.
    pub open spec fn valid(self) -> bool {
        &&& MIN_TIMESTAMP <= self.secs <= MAX_TIMESTAMP
        &&& self.nanos < 2 * NANOS_PER_SEC
        &&& self.nanos >= NANOS_PER_SEC ==> self.secs % 60 == 59
    }

    /// `self` is not later than `other`.
    pub open spec fn not_after(self, other: UtcInstant) -> bool {
        self.secs < other.secs || (self.secs == other.secs && self.nanos <= other.nanos)
    }

    /// `self` is not later than `other`.
    pub fn is_not_after(&self, other: &UtcInstant) -> (r: bool)
        ensures
            r == self.not_after(*other),
    {
        self.secs < other.secs || (self.secs == other.secs && self.nanos <= other.nanos)
    }

    /// The timestamp `minutes` whole minutes after `self` (before it when
    /// `minutes` is negative), as adding a time span to a date-time gives it:
    /// an instant within a leap second first leaves the leap second, forward to
    /// the start of the next second or back to the second after it.
    pub open spec fn shifted_secs(self, minutes: int) -> int {
        let delta = 60 * minutes;
        if self.nanos >= NANOS_PER_SEC && delta < 0 {
            self.secs + 1 + delta
        } else {
            self.secs + delta
        }
    }

    /// The instant `minutes` whole minutes after `self`; a leap second's
    /// fraction beyond one second is dropped when the instant moves.
    pub open spec fn plus_minutes(self, minutes: int) -> UtcInstant {
        UtcInstant {
            secs: self.shifted_secs(minutes) as i64,
            nanos: if self.nanos >= NANOS_PER_SEC && minutes != 0 {
                (self.nanos - NANOS_PER_SEC) as u32
            } else {
                self.nanos
            },
        }
    }
}

/// The number of minutes a mute of `minutes` is set for: at least one, taken
/// as a signed 64-bit number (so that values beyond `i64::MAX` wrap around to
/// negative ones).
pub open spec fn mute_minutes(minutes: u64) -> int {
    let m: int = if minutes == 0 {
        1
    } else {
        minutes as int
    };
    if m <= i64::MAX {
        m
    } else {
        m - 0x1_0000_0000_0000_0000
    }
}

/// The end of a mute of `minutes` minutes that starts at `now`.
pub fn mute_deadline(now: UtcInstant, minutes: u64) -> (r: UtcInstant)
    requires
        now.valid(),
        MIN_TIMESTAMP <= now.shifted_secs(mute_minutes(minutes)) <= MAX_TIMESTAMP,
    ensures
        r == now.plus_minutes(mute_minutes(minutes)),
        r.valid(),
{
    let m: u64 = if minutes == 0 { 1 } else { minutes };
    let signed: i64 = if m <= 0x7fff_ffff_ffff_ffffu64 {
        m as i64
    } else {
        -((u64::MAX - m) as i64) - 1
    };
    let ghost target = now.plus_minutes(mute_minutes(minutes));
    assert(signed == mute_minutes(minutes));
    if now.nanos >= NANOS_PER_SEC {
        let back: i64 = if signed > 0 { 0 } else { 1 };
        assert(MIN_TIMESTAMP <= now.secs + back + 60 * signed <= MAX_TIMESTAMP);
        assert(-20_000_000_000_000 <= 60 * signed <= 20_000_000_000_000) by (nonlinear_arith)
            requires
                MIN_TIMESTAMP <= now.secs + back + 60 * signed <= MAX_TIMESTAMP,
                MIN_TIMESTAMP <= now.secs <= MAX_TIMESTAMP,
                0 <= back <= 1,
        ;
        let secs = now.secs + back + 60 * signed;
        UtcInstant { secs, nanos: now.nanos - NANOS_PER_SEC }
    } else {
        assert(-20_000_000_000_000 <= 60 * signed <= 20_000_000_000_000) by (nonlinear_arith)
            requires
                MIN_TIMESTAMP <= now.secs + 60 * signed <= MAX_TIMESTAMP,
                MIN_TIMESTAMP <= now.secs <= MAX_TIMESTAMP,
        ;
        UtcInstant { secs: now.secs + 60 * signed, nanos: now.nanos }
    }
}


/// The text that chrono's `DateTime<Utc>` gives for the instant `secs`, `nanos`
/// under the pattern `%Y-%m-%d %H:%M:%S UTC`.
pub uninterp spec fn utc_seconds_text(secs: i64, nanos: u32) -> Seq<char>;

/// Formats an instant to the second, as `%Y-%m-%d %H:%M:%S UTC`, through chrono's
/// `DateTime::<Utc>::from_timestamp` and `DateTime::format`. Trusted: the result is
/// the text that chrono gives for these two numbers; `from_timestamp` returns a
/// date-time exactly for the instants that `valid` admits.
#[verifier::external_body]
pub(crate) fn format_utc_seconds(at: UtcInstant) -> (r: String)
    requires
        at.valid(),
    ensures
        r@ == utc_seconds_text(at.secs, at.nanos),
{
    chrono::DateTime::from_timestamp(at.secs, at.nanos)
        .unwrap()
        .format("%Y-%m-%d %H:%M:%S UTC")
        .to_string()
}

} // verus!
