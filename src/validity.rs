//! Points in time as Unix seconds, and the validity window of a self-signed
//! certificate.
use vstd::prelude::*;

verus! {

/// Seconds in one day.
pub const SECONDS_PER_DAY: i64 = 86400;

/// The earliest instant that a certificate date can hold:
/// 0000-01-01 00:00:00 UTC (GeneralizedTime has four year digits).
pub const MIN_UNIX_SECONDS: i64 = -62167219200;

/// The latest instant that a certificate date can hold:
/// 9999-12-31 23:59:59 UTC.
pub const MAX_UNIX_SECONDS: i64 = 253402300799;

/// An instant, counted in seconds from 1970-01-01 00:00:00 UTC.
#[derive(Debug, Clone, Copy, PartialEq, Eq, Structural)]
pub struct Timestamp {
    pub unix_seconds: i64,
}

impl Timestamp {
    /// The instant lies in the range of representable dates.
    pub open spec fn wf(self) -> bool {
        MIN_UNIX_SECONDS <= self.unix_seconds <= MAX_UNIX_SECONDS
    }

    /// The instant `unix_seconds`, when it lies in the range of
    /// representable dates.
    pub fn from_unix_seconds(unix_seconds: i64) -> (r: Option<Timestamp>)
        ensures
            r is Some <==> MIN_UNIX_SECONDS <= unix_seconds <= MAX_UNIX_SECONDS,
            r matches Some(t) ==> t.unix_seconds == unix_seconds && t.wf(),
    {
        if MIN_UNIX_SECONDS <= unix_seconds && unix_seconds <= MAX_UNIX_SECONDS {
            Some(Timestamp { unix_seconds })
        } else {
            None
        }
    }
}

/// The window in which a certificate is valid.
#[derive(Debug, Clone, Copy, PartialEq, Eq, Structural)]
pub struct ValidityPeriod {
    pub not_before: Timestamp,
    pub not_after: Timestamp,
}

/// The window that starts at `not_before` and lasts `days` whole days,
/// as integers.
pub open spec fn window_end(not_before: int, days: nat) -> int {
    not_before + days * SECONDS_PER_DAY
}

/// The window of a certificate whose validity starts at `not_before` and
/// lasts `days` days; `None` when its end lies past the last representable
/// date.
pub open spec fn spec_validity_from(not_before: Timestamp, days: nat) -> Option<ValidityPeriod> {
    if window_end(not_before.unix_seconds as int, days) <= MAX_UNIX_SECONDS {
        Some(
            ValidityPeriod {
                not_before,
                not_after: Timestamp {
                    unix_seconds: window_end(not_before.unix_seconds as int, days) as i64,
                },
            },
        )
    } else {
        None
    }
}

/// The start of the validity of a certificate issued at `birthdate`: one
/// day earlier, which absorbs clock skew between issuer and verifier.
pub open spec fn spec_backdated(birthdate: Timestamp) -> Option<Timestamp> {
    if birthdate.unix_seconds - SECONDS_PER_DAY >= MIN_UNIX_SECONDS {
        Some(Timestamp { unix_seconds: (birthdate.unix_seconds - SECONDS_PER_DAY) as i64 })
    } else {
        None
    }
}

/// The validity window that starts at `not_before` and lasts `days` days.
/// Fails with `None` when the end would lie past the last representable date.
pub fn validity_from(not_before: Timestamp, days: u32) -> (r: Option<ValidityPeriod>)
    requires
        not_before.wf(),
    ensures
        r == spec_validity_from(not_before, days as nat),
        r matches Some(v) ==> v.not_before.wf() && v.not_after.wf(),
{
    let span: i64 = days as i64 * SECONDS_PER_DAY;
    if not_before.unix_seconds <= MAX_UNIX_SECONDS - span {
        Some(
            ValidityPeriod {
                not_before,
                not_after: Timestamp { unix_seconds: not_before.unix_seconds + span },
            },
        )
    } else {
        None
    }
}

/// The instant one day before `birthdate`; `None` when that lies before the
/// first representable date.
pub fn backdated(birthdate: Timestamp) -> (r: Option<Timestamp>)
    requires
        birthdate.wf(),
    ensures
        r == spec_backdated(birthdate),
        r matches Some(t) ==> t.wf(),
{
    if birthdate.unix_seconds >= MIN_UNIX_SECONDS + SECONDS_PER_DAY {
        Some(Timestamp { unix_seconds: birthdate.unix_seconds - SECONDS_PER_DAY })
    } else {
        None
    }
}

/// A certificate issued at `birthdate` for `days` days is valid from exactly
/// one day before `birthdate` until exactly `days` days after that, to the
/// second, whenever both ends are representable dates.
pub proof fn lemma_validity_is_exact(birthdate: Timestamp, days: nat)
    requires
        birthdate.wf(),
        MIN_UNIX_SECONDS <= birthdate.unix_seconds - SECONDS_PER_DAY,
        birthdate.unix_seconds - SECONDS_PER_DAY + days * SECONDS_PER_DAY <= MAX_UNIX_SECONDS,
    ensures
        spec_backdated(birthdate) is Some,
        spec_backdated(birthdate)->Some_0.unix_seconds == birthdate.unix_seconds
            - SECONDS_PER_DAY,
        spec_validity_from(spec_backdated(birthdate)->Some_0, days) is Some,
        spec_validity_from(spec_backdated(birthdate)->Some_0, days)->Some_0.not_before
            == spec_backdated(birthdate)->Some_0,
        spec_validity_from(spec_backdated(birthdate)->Some_0, days)->Some_0.not_after.unix_seconds
            == birthdate.unix_seconds - SECONDS_PER_DAY + days * SECONDS_PER_DAY,
{
}

} // verus!
