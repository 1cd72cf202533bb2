//! How much of a body may be read.
use crate::body::{Arrival, BodyState};
use crate::error::IoError;
use crate::stream::{law_reads_deliver_stream, reads_run, stream};
use vstd::prelude::*;

verus! {

/// Whether a response of which `count` bytes were read is within its limit.
pub open spec fn within(limit: Option<usize>, count: int) -> bool {
    limit matches Some(l) ==> count <= l
}

/// The number of bytes that were read once one more read came to `res`.
pub open spec fn counted(count: int, res: Result<usize, IoError>) -> int {
    match res {
        Ok(n) => count + n,
        Err(_) => count,
    }
}

/// The number of bytes that were read once a series of reads came to `results`.
pub open spec fn counted_all(count: int, results: Seq<Result<usize, IoError>>) -> int
    decreases results.len(),
{
    if results.len() == 0 {
        count
    } else {
        counted_all(counted(count, results[0]), results.skip(1))
    }
}

/// How many of the bytes that a series of reads came to are handed to the
/// caller: those of the reads after which the count is within the limit.
pub open spec fn accepted(
    limit: Option<usize>,
    count: int,
    results: Seq<Result<usize, IoError>>,
) -> int
    decreases results.len(),
{
    if results.len() == 0 {
        0
    } else {
        let next = counted(count, results[0]);
        let now = if within(limit, next) {
            next - count
        } else {
            0
        };
        now + accepted(limit, next, results.skip(1))
    }
}

/// Reads only ever add to the count.
pub proof fn law_count_grows(count: int, results: Seq<Result<usize, IoError>>)
    ensures
        count <= counted_all(count, results),
    decreases results.len(),
{
    if results.len() > 0 {
        law_count_grows(counted(count, results[0]), results.skip(1));
    }
}

/// Once a response is over its limit it stays so: no later read is accepted.
pub proof fn law_over_limit_is_final(
    limit: Option<usize>,
    count: int,
    results: Seq<Result<usize, IoError>>,
)
    requires
        !within(limit, count),
    ensures
        !within(limit, counted_all(count, results)),
        accepted(limit, count, results) == 0,
    decreases results.len(),
{
    if results.len() > 0 {
        law_over_limit_is_final(limit, counted(count, results[0]), results.skip(1));
    }
}

/// What is handed to the caller, with what was read before, never exceeds the
/// limit, in however many reads it comes.
pub proof fn law_accepted_within_limit(
    limit: usize,
    count: int,
    results: Seq<Result<usize, IoError>>,
)
    requires
        within(Some(limit), count),
    ensures
        0 <= accepted(Some(limit), count, results) <= limit - count,
    decreases results.len(),
{
    if results.len() > 0 {
        let next = counted(count, results[0]);
        if within(Some(limit), next) {
            law_accepted_within_limit(limit, next, results.skip(1));
        } else {
            law_over_limit_is_final(Some(limit), next, results.skip(1));
        }
    }
}

/// As long as the count stays within the limit, every byte that was read is
/// handed to the caller. Without a limit that is always so.
pub proof fn law_all_accepted_below_limit(
    limit: Option<usize>,
    count: int,
    results: Seq<Result<usize, IoError>>,
)
    requires
        within(limit, counted_all(count, results)),
    ensures
        accepted(limit, count, results) == counted_all(count, results) - count,
    decreases results.len(),
{
    if results.len() > 0 {
        let next = counted(count, results[0]);
        law_count_grows(next, results.skip(1));
        law_all_accepted_below_limit(limit, next, results.skip(1));
    }
}

/// A body that is no larger than the limit is never refused, however its reads
/// are cut up.
pub proof fn law_small_body_is_never_refused(
    limit: usize,
    s: BodyState,
    rooms: Seq<nat>,
    arrivals: Seq<Arrival>,
)
    requires
        stream(s, arrivals).len() <= limit,
        reads_run(s, rooms, arrivals).all_done,
    ensures
        within(Some(limit), reads_run(s, rooms, arrivals).delivered.len() as int),
{
    law_reads_deliver_stream(s, rooms, arrivals);
}

} // verus!
