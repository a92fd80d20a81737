//! One pass over all servers: what the passes over the single servers add up
//! to.
//!
//! The passes run side by side and none of them waits for another. When all
//! have ended, their results are put together here. A pass that failed takes
//! nothing away from the others: every result is counted, and everything that
//! went wrong anywhere is kept, under the server it went wrong on.

use crate::reconcile::{AggregateError, ReconcileError};
use vstd::prelude::*;

verus! {

/// Something that went wrong on the server at place `server` of the
/// settings.
#[derive(Debug, Clone, Copy, PartialEq, Eq, Structural)]
pub struct CycleError {
    pub server: usize,
    pub error: ReconcileError,
}

/// What one pass over all servers came to. It is a report and nothing more:
/// whatever it holds, the next pass is made.
#[derive(Debug)]
pub struct CycleResult {
    /// Number of servers a pass was made over.
    pub servers_processed: usize,
    /// All that went wrong, server by server.
    pub errors: Vec<CycleError>,
}

/// What went wrong in one pass: nothing where it went through cleanly.
pub open spec fn report_of(result: Result<(), AggregateError>) -> Seq<ReconcileError> {
    match result {
        Ok(_) => Seq::empty(),
        Err(aggregate) => aggregate.errors@,
    }
}

/// What went wrong in each of the passes.
pub open spec fn reports_of(results: Seq<Result<(), AggregateError>>) -> Seq<Seq<ReconcileError>> {
    Seq::new(results.len(), |i: int| report_of(results[i]))
}

/// The errors of one server, each marked with the place of the server.
pub open spec fn marked(server: usize, errors: Seq<ReconcileError>) -> Seq<CycleError> {
    Seq::new(errors.len(), |k: int| CycleError { server, error: errors[k] })
}

/// The errors of all servers, in the order of the servers and, for each
/// server, in the order they were reported in.
pub open spec fn cycle_errors(reports: Seq<Seq<ReconcileError>>) -> Seq<CycleError>
    decreases reports.len(),
{
    if reports.len() == 0 {
        Seq::empty()
    } else {
        cycle_errors(reports.drop_last()) + marked(
            (reports.len() - 1) as usize,
            reports.last(),
        )
    }
}

/// Puts the results of the passes over the single servers together: counts
/// them and gathers what went wrong, leaving nothing out and stopping at
/// nothing.
pub fn cycle_result(results: &Vec<Result<(), AggregateError>>) -> (cycle: CycleResult)
    ensures
        cycle.servers_processed == results.len(),
        cycle.errors@ == cycle_errors(reports_of(results@)),
{
    let ghost reports = reports_of(results@);
    let mut errors: Vec<CycleError> = Vec::new();
    let mut i: usize = 0;
    while i < results.len()
        invariant
            i <= results.len(),
            reports == reports_of(results@),
            errors@ == cycle_errors(reports.take(i as int)),
        decreases results.len() - i,
    {
        let ghost before = errors@;
        assert(reports.take(i + 1).drop_last() =~= reports.take(i as int));
        match &results[i] {
            Ok(_) => {},
            Err(aggregate) => {
                let mut k: usize = 0;
                while k < aggregate.errors.len()
                    invariant
                        k <= aggregate.errors.len(),
                        errors@ == before + marked(i, aggregate.errors@.take(k as int)),
                    decreases aggregate.errors.len() - k,
                {
                    errors.push(CycleError { server: i, error: aggregate.errors[k] });
                    k += 1;
                }
            },
        }
        i += 1;
    }
    assert(reports.take(i as int) =~= reports);
    CycleResult { servers_processed: results.len(), errors }
}

/// What the result of a pass over all servers holds under a server is what
/// the pass over that server reported, no more and no less.
pub proof fn lemma_cycle_errors_are_exact(
    reports: Seq<Seq<ReconcileError>>,
    server: usize,
    error: ReconcileError,
)
    requires
        reports.len() <= usize::MAX,
    ensures
        cycle_errors(reports).contains(CycleError { server, error }) <==> (server < reports.len()
            && reports[server as int].contains(error)),
    decreases reports.len(),
{
    let wanted = CycleError { server, error };
    if reports.len() > 0 {
        let earlier = cycle_errors(reports.drop_last());
        let place = (reports.len() - 1) as usize;
        let added = marked(place, reports.last());
        lemma_cycle_errors_are_exact(reports.drop_last(), server, error);
        if (earlier + added).contains(wanted) {
            let k = choose|k: int| 0 <= k < (earlier + added).len() && (earlier + added)[k] == wanted;
            if k < earlier.len() {
                assert(earlier[k] == wanted);
            } else {
                assert(added[k - earlier.len()] == wanted);
                assert(reports.last()[k - earlier.len()] == error);
            }
        }
        if earlier.contains(wanted) {
            let k = choose|k: int| 0 <= k < earlier.len() && earlier[k] == wanted;
            assert((earlier + added)[k] == wanted);
        }
        if server == place && reports.last().contains(error) {
            let k = choose|k: int| 0 <= k < reports.last().len() && reports.last()[k] == error;
            assert(added[k] == wanted);
            assert((earlier + added)[earlier.len() + k] == wanted);
        }
    }
}

/// A server that failed does not keep another from being dealt with, and
/// does not show in what is reported of it: whatever is put in the place of
/// the report of one server, the result holds under every other server what
/// it held before.
pub proof fn lemma_failed_server_spares_others(
    reports: Seq<Seq<ReconcileError>>,
    failed: usize,
    report: Seq<ReconcileError>,
    other: usize,
    error: ReconcileError,
)
    requires
        reports.len() <= usize::MAX,
        failed < reports.len(),
        other < reports.len(),
        failed != other,
    ensures
        cycle_errors(reports.update(failed as int, report)).contains(
            CycleError { server: other, error },
        ) <==> reports[other as int].contains(error),
        cycle_errors(reports).contains(CycleError { server: other, error })
            <==> reports[other as int].contains(error),
{
    lemma_cycle_errors_are_exact(reports, other, error);
    lemma_cycle_errors_are_exact(reports.update(failed as int, report), other, error);
}

} // verus!
