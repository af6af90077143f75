//! Names made from the time of day.
use vstd::prelude::*;
use vstd::string::*;

use crate::error::NixError;
use crate::text::{decimal, format_decimal};

verus! {

/// The seconds and nanoseconds of a point in time, with a dot between them.
pub open spec fn timestamp(secs: u64, nanos: u32) -> Seq<char> {
    decimal(secs as nat).push('.') + decimal(nanos as nat)
}

/// `SystemTime::elapsed` on `UNIX_EPOCH`: whole seconds since the epoch and the
/// nanoseconds beyond them, or nothing where the clock stands before the epoch.
/// The time itself is the machine's; only the range of the nanoseconds is said.
#[verifier::external_body]
fn since_epoch() -> (r: Option<(u64, u32)>)
    ensures
        r matches Some(t) ==> t.1 < 1_000_000_000,
{
    std::time::UNIX_EPOCH.elapsed().ok().map(|d| (d.as_secs(), d.subsec_nanos()))
}

/// Writes a point in time as seconds, a dot, and nanoseconds.
pub fn format_timestamp(secs: u64, nanos: u32) -> (s: String)
    ensures
        s@ == timestamp(secs, nanos),
{
    let mut s = format_decimal(secs);
    s.push('.');
    s.append(format_decimal(nanos as u64).as_str());
    s
}

/// The name of the moment that lies this long after the epoch. A moment before the
/// epoch has none.
pub fn name_moment(elapsed: Option<(u64, u32)>) -> (r: Result<String, NixError>)
    ensures
        match (elapsed, r) {
            (Some((secs, nanos)), Ok(s)) => s@ == timestamp(secs, nanos),
            (None, Err(e)) => e is ClockBeforeEpoch,
            _ => false,
        },
{
    match elapsed {
        Some((secs, nanos)) => Ok(format_timestamp(secs, nanos)),
        None => Err(NixError::ClockBeforeEpoch),
    }
}

/// The name of the present moment. It is an error where the clock stands before
/// the epoch.
pub fn get_now_with_nanoseconds() -> (r: Result<String, NixError>)
    ensures
        match r {
            Ok(s) => exists|secs: u64, nanos: u32|
                nanos < 1_000_000_000 && s@ == #[trigger] timestamp(secs, nanos),
            Err(e) => e is ClockBeforeEpoch,
        },
{
    name_moment(since_epoch())
}

} // verus!
