use vstd::prelude::*;

verus! {

/// Resolved settings of one counting operation. The value is built once by the
/// caller and stays unchanged for the whole operation.
pub struct SourceConfig {
    /// The byte that separates fields within a record.
    pub delimiter: u8,
    /// Whether quote characters are recognised when records are split.
    pub quoting: bool,
    /// Whether records with differing field counts are tolerated.
    pub flexible: bool,
    /// When set, the first record is counted as data instead of a header row.
    pub no_headers: bool,
    /// An optional prefix byte: lines starting with it are skipped entirely.
    pub comment: Option<u8>,
    /// The source is stored in a format the accelerated engine cannot parse,
    /// so the accelerated strategy is never eligible for it.
    pub accel_unsupported: bool,
}

/// The data to count: either the full contents of a non-seekable stream such
/// as standard input, already drained into memory, or the path of a file on
/// disk.
pub enum Source {
    Bytes(Vec<u8>),
    File(String),
}

/// Which outputs the caller asked for.
#[derive(Clone, Copy, PartialEq, Eq, Structural, Debug)]
pub enum Requested {
    CountOnly,
    CountAndWidth,
}

/// The outcome of a single validity probe of the precomputed index: a count
/// that corresponds to the current source contents, no index, or a probe that
/// failed (an unreadable or stale index). The last two are deliberately folded
/// into one non-fatal "no index" outcome by [`crate::engine::fold_probe`].
#[derive(Clone, Copy, PartialEq, Eq, Structural, Debug)]
pub enum IndexProbe {
    Valid(u64),
    Missing,
    Failed,
}

/// The strategy the engine settles on: answer from the index without reading
/// the data, a single-pass streaming scan, or the parallel columnar engine.
#[derive(Clone, Copy, PartialEq, Eq, Structural, Debug)]
pub enum Strategy {
    IndexHit(u64),
    StreamOnly,
    Accelerated,
}

/// The outcome of one counting operation: the number of data records and an
/// estimated serialized byte width of the longest record. A width of 0 means
/// the width was not computed (not requested, or not supported by the
/// strategy that produced the count).
#[derive(Clone, Copy, PartialEq, Eq, Structural, Debug)]
pub struct CountResult {
    pub count: u64,
    pub width: usize,
}

/// The fatal failures of a counting operation. An unusable index and an empty
/// accelerated result are absorbed internally and never surface here.
#[derive(PartialEq, Eq, Debug)]
pub enum CountError {
    /// Strict field validation found a record whose field count differs from
    /// the first record's; `record` is the position of the first such record.
    MalformedRecord { record: usize },
    /// The record stream itself could not be read or split into records.
    ReadFailure { message: String },
    /// The accelerated path was asked to read a file that does not exist.
    SourceNotFound { path: String },
    /// Building or executing the accelerated aggregation plan failed.
    AcceleratedPlanFailure { message: String },
    /// A non-seekable stream could not be copied into a temporary file for
    /// the accelerated engine.
    MaterializeFailure { message: String },
}

/// The accelerated engine's outcome, kept as a tagged value so that the two
/// failure classes stay distinguishable: a count, an empty result (triggers
/// the fallback to a full scan), or a hard failure (fatal).
#[derive(PartialEq, Eq, Debug)]
pub enum AccelOutcome {
    Counted(u64),
    Empty,
    Failed(String),
}

/// Whether field-count tolerance is in force for a scan: what the caller asked
/// for, or forced on whenever the width is computed, since a count/width
/// operation must not abort on irregular field counts.
pub open spec fn eff_flexible(cfg: SourceConfig, want_width: bool) -> bool {
    cfg.flexible || want_width
}

/// Whether quote recognition is in force for a scan: it is switched off when
/// the width is computed, so quote characters count as ordinary payload bytes
/// and the width stays a single-pass estimate.
pub open spec fn eff_quoting(cfg: SourceConfig, want_width: bool) -> bool {
    cfg.quoting && !want_width
}

} // verus!
