use vstd::prelude::*;

use crate::outside::{
    build_count_plan, close_temp, collect_count, materialize_temp, parse_records,
    parse_records_path, path_exists, records_of, temp_path_string,
};
use crate::scan::{count_records, spec_stream_result, uniform_fields};
use crate::types::{
    eff_flexible, eff_quoting, AccelOutcome, CountError, CountResult, IndexProbe, Requested,
    Source, SourceConfig, Strategy,
};

verus! {

/// Whether the caller asked for the width beside the count.
pub open spec fn spec_wants_width(requested: Requested) -> bool {
    requested is CountAndWidth
}

/// The probe's "no index" and "probe failed" outcomes folded into one answer.
pub open spec fn folded_probe(probe: IndexProbe) -> Option<u64> {
    match probe {
        IndexProbe::Valid(count) => Some(count),
        IndexProbe::Missing => None,
        IndexProbe::Failed => None,
    }
}

/// The strategy the engine settles on, in the order the rules apply: a width
/// request or explicit field-count tolerance forces the streaming scan; then a
/// valid index answers outright; then the accelerated engine runs unless the
/// caller disabled it or the source format disqualifies it; else the stream.
pub open spec fn spec_strategy(
    want_width: bool,
    flexible: bool,
    probe: IndexProbe,
    disable_accel: bool,
    accel_unsupported: bool,
) -> Strategy {
    if want_width || flexible {
        Strategy::StreamOnly
    } else {
        match folded_probe(probe) {
            Some(count) => Strategy::IndexHit(count),
            None => if disable_accel || accel_unsupported {
                Strategy::StreamOnly
            } else {
                Strategy::Accelerated
            },
        }
    }
}

/// Folds the index probe into one non-fatal answer: an absent index and a
/// failed probe (an unreadable or stale index) alike merely degrade to a full
/// scan, they never abort the operation.
pub fn fold_probe(probe: IndexProbe) -> (r: Option<u64>)
    ensures
        r == folded_probe(probe),
{
    match probe {
        IndexProbe::Valid(count) => Some(count),
        IndexProbe::Missing => None,
        IndexProbe::Failed => None,
    }
}

/// Picks exactly one strategy for the given request and probe outcome.
pub fn select_strategy(
    want_width: bool,
    flexible: bool,
    probe: IndexProbe,
    disable_accel: bool,
    accel_unsupported: bool,
) -> (r: Strategy)
    ensures
        r == spec_strategy(want_width, flexible, probe, disable_accel, accel_unsupported),
{
    if want_width || flexible {
        Strategy::StreamOnly
    } else {
        match fold_probe(probe) {
            Some(count) => Strategy::IndexHit(count),
            None => {
                if disable_accel || accel_unsupported {
                    Strategy::StreamOnly
                } else {
                    Strategy::Accelerated
                }
            },
        }
    }
}

/// The accelerated engine's raw outcome as a tagged value.
pub open spec fn spec_classify(outcome: Result<Option<u64>, String>) -> AccelOutcome {
    match outcome {
        Ok(Some(count)) => AccelOutcome::Counted(count),
        Ok(None) => AccelOutcome::Empty,
        Err(message) => AccelOutcome::Failed(message),
    }
}

/// Tags the accelerated engine's outcome, keeping its two failure classes —
/// an empty result and a failed plan — distinguishable.
pub fn classify_accel(outcome: Result<Option<u64>, String>) -> (r: AccelOutcome)
    ensures
        r == spec_classify(outcome),
{
    match outcome {
        Ok(Some(count)) => AccelOutcome::Counted(count),
        Ok(None) => AccelOutcome::Empty,
        Err(message) => AccelOutcome::Failed(message),
    }
}

/// The streaming strategy: split the source into records, then run the single
/// counting pass over whatever came back. For an in-memory source the records
/// are a pure function of the bytes, so the outcome is pinned exactly; for a
/// file they are whatever the disk held when it was read.
pub fn count_input(cfg: &SourceConfig, source: &Source, want_width: bool) -> (r: Result<
    CountResult,
    CountError,
>)
    ensures
        !want_width && r is Ok ==> r->Ok_0.width == 0,
        r is Err ==> ((r->Err_0 matches CountError::ReadFailure { .. }) || (r->Err_0 matches
            CountError::MalformedRecord { .. })),
        source matches Source::Bytes(bytes) ==> ({
            let rs = records_of(bytes@, cfg.delimiter, eff_quoting(*cfg, want_width), cfg.comment);
            &&& (r is Ok <==> (eff_flexible(*cfg, want_width) || uniform_fields(rs)))
            &&& (r is Ok ==> r->Ok_0 == spec_stream_result(rs, cfg.no_headers, want_width))
            &&& (r is Err ==> r->Err_0 matches CountError::MalformedRecord { .. })
            &&& (bytes@.len() == 0 ==> r == Ok::<CountResult, CountError>(
                CountResult { count: 0, width: 0 },
            ))
        }),
{
    let flexible = cfg.flexible || want_width;
    let quoting = cfg.quoting && !want_width;
    let parsed = match source {
        Source::Bytes(bytes) => parse_records(bytes, cfg.delimiter, quoting, cfg.comment),
        Source::File(path) => parse_records_path(path, cfg.delimiter, quoting, cfg.comment),
    };
    match parsed {
        Ok(records) => count_records(&records, cfg.no_headers, want_width, flexible),
        Err(message) => Err(CountError::ReadFailure { message }),
    }
}

/// Builds and runs the accelerated engine's aggregation plan over the file.
fn run_count_plan(path: &String, cfg: &SourceConfig, low_memory: bool) -> Result<
    Option<u64>,
    String,
> {
    match build_count_plan(path, cfg.delimiter, cfg.comment, low_memory) {
        Ok(plan) => collect_count(plan),
        Err(message) => Err(message),
    }
}

/// What the operation answers for each outcome of the accelerated engine: a
/// count is the answer (the width is unsupported there and stays 0), an empty
/// result falls back transparently to a full streaming scan of the same source
/// (count only), and a failed plan is fatal.
pub fn finish_accelerated(cfg: &SourceConfig, source: &Source, outcome: Result<
    Option<u64>,
    String,
>) -> (r: Result<CountResult, CountError>)
    ensures
        r is Ok ==> r->Ok_0.width == 0,
        r is Err ==> ((r->Err_0 matches CountError::AcceleratedPlanFailure { .. }) || (r->Err_0
            matches CountError::ReadFailure { .. }) || (r->Err_0 matches
            CountError::MalformedRecord { .. })),
        spec_classify(outcome) matches AccelOutcome::Counted(count) ==> r == Ok::<
            CountResult,
            CountError,
        >(CountResult { count, width: 0 }),
        spec_classify(outcome) matches AccelOutcome::Failed(message) ==> r == Err::<
            CountResult,
            CountError,
        >(CountError::AcceleratedPlanFailure { message }),
        source matches Source::Bytes(bytes) ==> spec_classify(outcome) is Empty ==> ({
            let rs = records_of(bytes@, cfg.delimiter, cfg.quoting, cfg.comment);
            &&& (r is Ok <==> (cfg.flexible || uniform_fields(rs)))
            &&& (r is Ok ==> r->Ok_0 == spec_stream_result(rs, cfg.no_headers, false))
            &&& (r is Err ==> r->Err_0 matches CountError::MalformedRecord { .. })
            &&& (bytes@.len() == 0 ==> r == Ok::<CountResult, CountError>(
                CountResult { count: 0, width: 0 },
            ))
        }),
{
    match classify_accel(outcome) {
        AccelOutcome::Counted(count) => Ok(CountResult { count, width: 0 }),
        AccelOutcome::Empty => count_input(cfg, source, false),
        AccelOutcome::Failed(message) => Err(CountError::AcceleratedPlanFailure { message }),
    }
}

/// The accelerated strategy: hand the source to the parallel columnar engine.
/// A file that does not exist is a fatal error naming the path. A non-seekable
/// stream is first materialized into a temporary file, which is removed again
/// before the outcome is resolved, whatever the engine reported; a failure of
/// the removal itself does not change the outcome.
pub fn polars_count_input(cfg: &SourceConfig, source: &Source, low_memory: bool) -> (r: Result<
    CountResult,
    CountError,
>)
    ensures
        r is Ok ==> r->Ok_0.width == 0,
        r matches Err(CountError::SourceNotFound { path }) ==> (source matches Source::File(p)
            && path == p),
        source matches Source::Bytes(_) ==> (r is Err ==> ((r->Err_0 matches
            CountError::MaterializeFailure { .. }) || (r->Err_0 matches
            CountError::AcceleratedPlanFailure { .. }) || (r->Err_0 matches
            CountError::MalformedRecord { .. }))),
        source matches Source::File(_) ==> (r is Err ==> ((r->Err_0 matches
            CountError::SourceNotFound { .. }) || (r->Err_0 matches
            CountError::AcceleratedPlanFailure { .. }) || (r->Err_0 matches
            CountError::ReadFailure { .. }) || (r->Err_0 matches CountError::MalformedRecord {
            .. }))),
{
    match source {
        Source::File(path) => {
            if !path_exists(path) {
                return Err(CountError::SourceNotFound { path: path.clone() });
            }
            let outcome = run_count_plan(path, cfg, low_memory);
            finish_accelerated(cfg, source, outcome)
        },
        Source::Bytes(bytes) => {
            let temp = match materialize_temp(bytes) {
                Ok(temp) => temp,
                Err(message) => {
                    return Err(CountError::MaterializeFailure { message });
                },
            };
            let path = temp_path_string(&temp);
            let outcome = run_count_plan(&path, cfg, low_memory);
            let _ = close_temp(temp);
            finish_accelerated(cfg, source, outcome)
        },
    }
}

/// One counting operation: picks exactly one strategy — the index answer, the
/// single-pass streaming scan, or the accelerated columnar engine — runs it,
/// and reports the (count, width) pair. A valid index answers without reading
/// the data source at all; the accelerated engine falls back to the streaming
/// scan when its result is empty; the width stays at its sentinel 0 unless it
/// was both requested and supported by the strategy that ran.
pub fn compute(
    cfg: &SourceConfig,
    source: &Source,
    probe: IndexProbe,
    requested: Requested,
    disable_accel: bool,
    low_memory: bool,
) -> (r: Result<CountResult, CountError>)
    ensures
        ({
            let strategy = spec_strategy(
                spec_wants_width(requested),
                cfg.flexible,
                probe,
                disable_accel,
                cfg.accel_unsupported,
            );
            &&& (strategy matches Strategy::IndexHit(count) ==> r == Ok::<
                CountResult,
                CountError,
            >(CountResult { count, width: 0 }))
            &&& (strategy is Accelerated && r is Ok ==> r->Ok_0.width == 0)
            &&& (source matches Source::Bytes(bytes) ==> strategy is StreamOnly ==> ({
                let rs = records_of(
                    bytes@,
                    cfg.delimiter,
                    eff_quoting(*cfg, spec_wants_width(requested)),
                    cfg.comment,
                );
                &&& (r is Ok <==> (eff_flexible(*cfg, spec_wants_width(requested))
                    || uniform_fields(rs)))
                &&& (r is Ok ==> r->Ok_0 == spec_stream_result(
                    rs,
                    cfg.no_headers,
                    spec_wants_width(requested),
                ))
                &&& (r is Err ==> r->Err_0 matches CountError::MalformedRecord { .. })
                &&& (bytes@.len() == 0 ==> r == Ok::<CountResult, CountError>(
                    CountResult { count: 0, width: 0 },
                ))
            }))
        }),
        !spec_wants_width(requested) && r is Ok ==> r->Ok_0.width == 0,
{
    let want_width = match requested {
        Requested::CountAndWidth => true,
        Requested::CountOnly => false,
    };
    let strategy = select_strategy(
        want_width,
        cfg.flexible,
        probe,
        disable_accel,
        cfg.accel_unsupported,
    );
    match strategy {
        Strategy::IndexHit(count) => Ok(CountResult { count, width: 0 }),
        Strategy::StreamOnly => count_input(cfg, source, want_width),
        Strategy::Accelerated => polars_count_input(cfg, source, low_memory),
    }
}

} // verus!
