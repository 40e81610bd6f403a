//! Points in time, as `SystemTime` and as the seconds and nanoseconds of a
//! `timespec`.

use std::time::{Duration, SystemTime, SystemTimeError};

use vstd::prelude::*;

verus! {

/// Nanoseconds in a second.
pub const NANOS_PER_SEC: u32 = 1_000_000_000;

/// A point in time of the system clock.
#[verifier::external_type_specification]
#[verifier::external_body]
pub struct ExSystemTime(SystemTime);

/// The error of `SystemTime::duration_since`.
#[verifier::external_type_specification]
#[verifier::external_body]
pub struct ExSystemTimeError(SystemTimeError);

/// Nanoseconds from the Unix epoch to a point in time, negative before it.
pub uninterp spec fn epoch_nanos(t: SystemTime) -> int;

/// The length of a duration in nanoseconds.
pub uninterp spec fn duration_nanos(d: Duration) -> nat;

/// How far a time lay before the one that it was measured from.
pub uninterp spec fn error_nanos(e: SystemTimeError) -> nat;

/// Whether `SystemTime` can represent the point in time that lies this many
/// nanoseconds after the Unix epoch.
pub uninterp spec fn time_fits(nanos: int) -> bool;

/// Reads `std::time::UNIX_EPOCH`: the point from which `epoch_nanos` counts.
#[verifier::external_body]
pub(crate) fn unix_epoch() -> (t: SystemTime)
    ensures
        epoch_nanos(t) == 0,
{
    SystemTime::UNIX_EPOCH
}

/// `SystemTime::duration_since`: the time that passed since `earlier`, or, if
/// `earlier` is the later of the two, an error that says by how much. Going that
/// far from `earlier` leads to the time that was measured, which exists and so
/// can be represented.
pub assume_specification [ SystemTime::duration_since ](
    t: &SystemTime,
    earlier: SystemTime,
) -> (r: Result<Duration, SystemTimeError>)
    ensures
        r is Ok <==> epoch_nanos(earlier) <= epoch_nanos(*t),
        r matches Ok(d) ==> duration_nanos(d) == epoch_nanos(*t) - epoch_nanos(earlier)
            && time_fits(epoch_nanos(earlier) + duration_nanos(d)),
        r matches Err(e) ==> error_nanos(e) == epoch_nanos(earlier) - epoch_nanos(*t)
            && time_fits(epoch_nanos(earlier) - error_nanos(e)),
;

/// `SystemTimeError::duration`: how far the second time was ahead.
pub assume_specification [ SystemTimeError::duration ](e: &SystemTimeError) -> (d: Duration)
    ensures
        duration_nanos(d) == error_nanos(*e),
;

/// `SystemTime::checked_add`: the later time where it can be represented. That
/// it is exact holds where the clock counts nanoseconds, as on Linux and macOS.
pub assume_specification [ SystemTime::checked_add ](t: &SystemTime, d: Duration) -> (r: Option<
    SystemTime,
>)
    ensures
        r is Some <==> time_fits(epoch_nanos(*t) + duration_nanos(d)),
        r matches Some(u) ==> epoch_nanos(u) == epoch_nanos(*t) + duration_nanos(d),
;

/// `SystemTime::checked_sub`: the earlier time where it can be represented,
/// exact on the same systems.
pub assume_specification [ SystemTime::checked_sub ](t: &SystemTime, d: Duration) -> (r: Option<
    SystemTime,
>)
    ensures
        r is Some <==> time_fits(epoch_nanos(*t) - duration_nanos(d)),
        r matches Some(u) ==> epoch_nanos(u) == epoch_nanos(*t) - duration_nanos(d),
;

/// `Duration::as_secs`: the whole seconds of a duration.
pub assume_specification [ Duration::as_secs ](d: &Duration) -> (secs: u64)
    ensures
        secs == duration_nanos(*d) / NANOS_PER_SEC as nat,
;

/// `Duration::subsec_nanos`: what is left of a duration beside whole seconds.
pub assume_specification [ Duration::subsec_nanos ](d: &Duration) -> (nanos: u32)
    ensures
        nanos == duration_nanos(*d) % NANOS_PER_SEC as nat,
;

/// `Duration::new`: nanoseconds past a second carry over. It panics when that
/// carry overflows the seconds.
pub assume_specification [ Duration::new ](secs: u64, nanos: u32) -> (d: Duration)
    requires
        secs + nanos / NANOS_PER_SEC <= u64::MAX,
    ensures
        duration_nanos(d) == secs * NANOS_PER_SEC + nanos,
;

/// `Duration::from_secs`: whole seconds.
pub assume_specification [ Duration::from_secs ](secs: u64) -> (d: Duration)
    ensures
        duration_nanos(d) == secs * NANOS_PER_SEC,
;

/// The seconds field of a `timespec` for a point in time: the seconds since
/// the epoch rounded down, cut to 64 bits.
pub open spec fn secs_of(nanos: int) -> i64 {
    (nanos / NANOS_PER_SEC as int) as i64
}

/// The nanoseconds field of a `timespec`: never negative, below one second.
pub open spec fn nsecs_of(nanos: int) -> i64 {
    (nanos % NANOS_PER_SEC as int) as i64
}

/// The point in time that a `timespec` names, in nanoseconds since the epoch.
/// Of the nanoseconds field the low 32 bits count.
pub open spec fn timespec_nanos(secs: i64, nsecs: i64) -> int {
    secs * NANOS_PER_SEC + (nsecs as u32)
}

/// Whether the point in time that a `timespec` names can be represented.
pub open spec fn timespec_fits(secs: i64, nsecs: i64) -> bool {
    time_fits(timespec_nanos(secs, nsecs))
}

/// Whether the seconds of a point in time, rounded down, fit in a `timespec`.
pub open spec fn secs_fit(nanos: int) -> bool {
    i64::MIN <= nanos / NANOS_PER_SEC as int <= i64::MAX
}

/// Splits a `SystemTime` into seconds and nanoseconds relative to the Unix
/// epoch. A time before the epoch has negative seconds and still counts its
/// nanoseconds forward.
pub fn system_time_to_secs_nsecs(t: SystemTime) -> (r: (i64, i64))
    ensures
        r.0 == secs_of(epoch_nanos(t)),
        r.1 == nsecs_of(epoch_nanos(t)),
        secs_fit(epoch_nanos(t)) ==> timespec_nanos(r.0, r.1) == epoch_nanos(t) && timespec_fits(
            r.0,
            r.1,
        ),
{
    match t.duration_since(unix_epoch()) {
        Ok(d) => {
            let secs: u64 = d.as_secs();
            (#[verifier::truncate] (secs as i64), d.subsec_nanos() as i64)
        },
        Err(e) => {
            let d = e.duration();
            let secs: i128 = d.as_secs() as i128;
            let nsecs: i64 = d.subsec_nanos() as i64;
            if nsecs == 0 {
                (#[verifier::truncate] ((-secs) as i64), 0)
            } else {
                (#[verifier::truncate] ((-secs - 1) as i64), NANOS_PER_SEC as i64 - nsecs)
            }
        },
    }
}

/// Inverse of [`system_time_to_secs_nsecs`]: a time that was split is put
/// together again, and a `timespec` whose nanoseconds are below one second is
/// what the result splits into.
pub fn secs_nsecs_to_system_time(secs: i64, nsecs: i64) -> (t: SystemTime)
    requires
        timespec_fits(secs, nsecs),
    ensures
        epoch_nanos(t) == timespec_nanos(secs, nsecs),
        0 <= nsecs < NANOS_PER_SEC ==> secs_of(epoch_nanos(t)) == secs && nsecs_of(epoch_nanos(t))
            == nsecs,
{
    try_secs_nsecs_to_system_time(secs, nsecs).unwrap()
}

/// Like [`secs_nsecs_to_system_time`], with `None` for a point in time that
/// `SystemTime` cannot represent.
pub fn try_secs_nsecs_to_system_time(secs: i64, nsecs: i64) -> (r: Option<SystemTime>)
    ensures
        r is Some <==> timespec_fits(secs, nsecs),
        r matches Some(t) ==> epoch_nanos(t) == timespec_nanos(secs, nsecs),
{
    let nanos: u32 = #[verifier::truncate] (nsecs as u32);
    let since: i128 = secs as i128 * 1_000_000_000 + nanos as i128;
    if since >= 0 {
        unix_epoch().checked_add(duration_of_nanos(since as u128))
    } else {
        unix_epoch().checked_sub(duration_of_nanos((-since) as u128))
    }
}

/// The duration of some nanoseconds.
fn duration_of_nanos(nanos: u128) -> (d: Duration)
    requires
        nanos / NANOS_PER_SEC as u128 <= u64::MAX,
    ensures
        duration_nanos(d) == nanos,
{
    let whole: u64 = (nanos / NANOS_PER_SEC as u128) as u64;
    let rest: u32 = (nanos % NANOS_PER_SEC as u128) as u32;
    Duration::new(whole, rest)
}

/// Splitting a point in time and putting it together again gives the same
/// point in time, before the epoch as after it, as long as its seconds fit in
/// 64 bits.
pub proof fn law_time_round_trip(nanos: int)
    requires
        secs_fit(nanos),
    ensures
        timespec_nanos(secs_of(nanos), nsecs_of(nanos)) == nanos,
        0 <= nsecs_of(nanos) < NANOS_PER_SEC,
{
}

/// A `timespec` whose nanoseconds are below one second is what its point in
/// time splits into.
pub proof fn law_timespec_round_trip(secs: i64, nsecs: i64)
    requires
        0 <= nsecs < NANOS_PER_SEC,
    ensures
        secs_of(timespec_nanos(secs, nsecs)) == secs,
        nsecs_of(timespec_nanos(secs, nsecs)) == nsecs,
{
}

/// A point in time is split into whole seconds and the nanoseconds past them,
/// which count forward, before the epoch as after it.
pub proof fn law_time_is_split_exactly(t: SystemTime, r: (i64, i64))
    requires
        call_ensures(system_time_to_secs_nsecs, (t,), r),
        i64::MIN <= epoch_nanos(t) / 1_000_000_000 <= i64::MAX,
    ensures
        0 <= r.1 < 1_000_000_000,
        r.0 * 1_000_000_000 + r.1 == epoch_nanos(t),
{
}

/// What a `timespec` is put together to is the point in time that it names, where
/// there is one, of the nanoseconds the low 32 bits; and what was split is put
/// together to the same point.
pub proof fn law_time_is_put_together_exactly(
    secs: i64,
    nsecs: i64,
    r: Option<SystemTime>,
    u: SystemTime,
    t: SystemTime,
)
    ensures
        call_ensures(try_secs_nsecs_to_system_time, (secs, nsecs), r) ==> {
            &&& r is Some <==> time_fits(secs * 1_000_000_000 + (nsecs as u32))
            &&& r matches Some(u) ==> epoch_nanos(u) == secs * 1_000_000_000 + (nsecs as u32)
        },
        call_ensures(secs_nsecs_to_system_time, (secs, nsecs), u) ==> epoch_nanos(u) == secs
            * 1_000_000_000 + (nsecs as u32),
        call_ensures(system_time_to_secs_nsecs, (t,), (secs, nsecs)) && i64::MIN <= epoch_nanos(t)
            / 1_000_000_000 <= i64::MAX && call_ensures(
            try_secs_nsecs_to_system_time,
            (secs, nsecs),
            r,
        ) ==> (r matches Some(u) && epoch_nanos(u) == epoch_nanos(t)),
{
}

} // verus!
