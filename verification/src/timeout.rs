//! The time that an operation may still take.
//!
//! A timeout is a number of nanoseconds from the moment the operation began;
//! no timeout means that the operation may wait for ever. Every step of an
//! operation draws on the same allowance.
use vstd::prelude::*;
use std::time::Instant;
use crate::error::Error;

verus! {

/// `std::time::Instant`: a point in time of the monotonic clock. It is
/// carried to the clock and never looked into.
#[verifier::external_type_specification]
#[verifier::external_body]
pub struct ExInstant(Instant);

/// The time that is left of `timeout` when `elapsed` has gone by, both in
/// nanoseconds. No timeout means no limit. A timeout of which nothing is left
/// has run out.
pub open spec fn time_left_spec(elapsed: u128, timeout: Option<u128>) -> Result<
    Option<u128>,
    Error,
> {
    match timeout {
        None => Ok(None),
        Some(limit) => if elapsed >= limit {
            Err(Error::TimedOut)
        } else {
            Ok(Some((limit - elapsed) as u128))
        },
    }
}

/// A timeout runs out when it has elapsed and not before, and until then
/// what is left and what has elapsed make up the timeout. Without a timeout
/// time never runs out.
pub proof fn lemma_time_runs_out_on_time(elapsed: u128, limit: u128)
    ensures
        time_left_spec(elapsed, Some(limit)) is Err <==> elapsed >= limit,
        time_left_spec(elapsed, Some(limit)) is Err ==> time_left_spec(elapsed, Some(limit)) == Err::<
            Option<u128>,
            Error,
        >(Error::TimedOut),
        time_left_spec(elapsed, Some(limit)) matches Ok(left) ==> left matches Some(rest) && rest
            > 0 && rest + elapsed == limit,
        time_left_spec(elapsed, None) == Ok::<Option<u128>, Error>(None),
{
}

/// What is left of `timeout` after `elapsed` nanoseconds.
pub fn time_left(elapsed: u128, timeout: Option<u128>) -> (left: Result<Option<u128>, Error>)
    ensures
        left == time_left_spec(elapsed, timeout),
{
    match timeout {
        Some(limit) => {
            if elapsed >= limit {
                return Err(Error::TimedOut);
            }
            Ok(Some(limit - elapsed))
        },
        None => Ok(None),
    }
}

/// `std::time::Instant::elapsed`, in nanoseconds (`Duration::as_nanos`): the
/// time that has gone by since `start`. It depends on the clock, so nothing
/// is claimed of the number.
#[verifier::external_body]
fn elapsed_nanos(start: &Instant) -> u128 {
    start.elapsed().as_nanos()
}

/// What is left, now, of a `timeout` in nanoseconds that began at
/// `start_time`.
///
/// The clock decides how much has gone by, so the result is
/// [`time_left_spec`] of some elapsed time. In particular no timeout is never
/// exhausted, and what is left is more than nothing and no longer than the
/// timeout.
pub fn calc_timeout_left(start_time: &Instant, timeout: Option<u128>) -> (left: Result<
    Option<u128>,
    Error,
>)
    ensures
        exists|elapsed: u128| left == time_left_spec(elapsed, timeout),
        timeout is None ==> left == Ok::<Option<u128>, Error>(None),
        timeout is Some ==> left == Err::<Option<u128>, Error>(Error::TimedOut) || (left matches Ok(
            Some(rest),
        ) && 0 < rest <= timeout->0),
{
    let elapsed = elapsed_nanos(start_time);
    time_left(elapsed, timeout)
}

} // verus!
