//! The clock: points in time as the `time` crate holds them, and as seconds
//! since the Unix epoch.

use vstd::prelude::*;

verus! {

/// A point in time, carried through as the `time` crate holds it.
#[verifier::external_type_specification]
#[verifier::external_body]
pub struct ExOffsetDateTime(time::OffsetDateTime);

/// Trusted: `time::OffsetDateTime` is `Copy`, and its `clone` is the copy.
pub assume_specification[ <time::OffsetDateTime as Clone>::clone ](
    t: &time::OffsetDateTime,
) -> (r: time::OffsetDateTime)
    ensures
        r == *t,
;

/// The seconds of a moment as an unsigned number of the width of `usize`. A
/// moment that such a number holds is itself. A moment before the epoch
/// counts back from the end of the unsigned range, so that one second before
/// the epoch is `usize::MAX`. Every other moment is taken modulo the size of
/// the range.
pub open spec fn unsigned_seconds(now: i64) -> int {
    if 0 <= now <= usize::MAX {
        now as int
    } else if -(usize::MAX + 1) <= now < 0 {
        now + usize::MAX + 1
    } else {
        (now as int) % (usize::MAX + 1)
    }
}

/// Whether something that expires at `exp` has expired at `now`, both in
/// seconds since the Unix epoch: whether the present, taken as an unsigned
/// number, lies after the expiry.
pub open spec fn expired(now: i64, exp: usize) -> bool {
    unsigned_seconds(now) > exp
}

/// Trusted: calls `time::OffsetDateTime::now_utc`. Nothing is promised of the
/// time of day. On a machine whose clock stands beyond the years that the
/// `time` crate can hold the call panics.
#[verifier::external_body]
pub(crate) fn now_utc() -> time::OffsetDateTime {
    time::OffsetDateTime::now_utc()
}

/// Trusted: calls `time::OffsetDateTime::unix_timestamp`. Nothing is stated
/// of the number.
#[verifier::external_body]
pub(crate) fn unix_timestamp(t: &time::OffsetDateTime) -> i64 {
    t.unix_timestamp()
}

/// The seconds since the Unix epoch at this moment.
pub(crate) fn now_unix() -> i64 {
    let now = now_utc();
    unix_timestamp(&now)
}

/// The seconds of a moment as an unsigned number of the width of `usize`.
pub fn to_unsigned_seconds(now: i64) -> (r: usize)
    ensures
        r == unsigned_seconds(now),
{
    let shifted: u128 = (now as i128 + 0x1_0000_0000_0000_0000i128) as u128;
    let range: u128 = usize::MAX as u128 + 1;
    assert(usize::MAX == 0xffff_ffff || usize::MAX == 0xffff_ffff_ffff_ffff);
    let wrapped = shifted % range;
    assert(wrapped == unsigned_seconds(now)) by {
        let wide = now as int + 0x1_0000_0000_0000_0000int;
        if usize::MAX == 0xffff_ffff {
            assert(wide % 0x1_0000_0000int == (now as int) % 0x1_0000_0000int);
        } else {
            assert(wide % 0x1_0000_0000_0000_0000int == (now as int)
                % 0x1_0000_0000_0000_0000int);
        }
    }
    wrapped as usize
}

/// Whether something that expires at `exp` has expired at `now`.
pub fn is_expired(now: i64, exp: usize) -> (r: bool)
    ensures
        r == expired(now, exp),
{
    to_unsigned_seconds(now) > exp
}

} // verus!
