use std::io::Write;

use qsv_count::engine::{compute, count_input, fold_probe, select_strategy};
use qsv_count::scan::{count_records, RawRecord};
use qsv_count::types::{
    CountError, CountResult, IndexProbe, Requested, Source, SourceConfig, Strategy,
};

fn base_cfg() -> SourceConfig {
    SourceConfig {
        delimiter: b',',
        quoting: true,
        flexible: false,
        no_headers: false,
        comment: None,
        accel_unsupported: false,
    }
}

fn bytes(data: &str) -> Source {
    Source::Bytes(data.as_bytes().to_vec())
}

#[test]
fn stream_width_example() {
    // "name,age" sets the baseline: 7 payload bytes and 1 delimiter; "a,1"
    // (2 payload bytes) and "bb,22" (4) stay below it, so the estimate is
    // 7 + 1.
    let mut cfg = base_cfg();
    cfg.no_headers = true;
    let r = compute(
        &cfg,
        &bytes("name,age\na,1\nbb,22\n"),
        IndexProbe::Missing,
        Requested::CountAndWidth,
        true,
        false,
    );
    assert_eq!(r, Ok(CountResult { count: 3, width: 8 }));
}

#[test]
fn header_only_counts_zero() {
    let cfg = base_cfg();
    let r = compute(
        &cfg,
        &bytes("name,age\n"),
        IndexProbe::Missing,
        Requested::CountOnly,
        true,
        false,
    );
    assert_eq!(r, Ok(CountResult { count: 0, width: 0 }));
}

#[test]
fn empty_source_counts_zero() {
    let cfg = base_cfg();
    let r = compute(
        &cfg,
        &bytes(""),
        IndexProbe::Missing,
        Requested::CountOnly,
        true,
        false,
    );
    assert_eq!(r, Ok(CountResult { count: 0, width: 0 }));
}

#[test]
fn empty_source_zero_width_when_requested() {
    let cfg = base_cfg();
    let r = compute(
        &cfg,
        &bytes(""),
        IndexProbe::Missing,
        Requested::CountAndWidth,
        true,
        false,
    );
    assert_eq!(r, Ok(CountResult { count: 0, width: 0 }));
}

#[test]
fn index_hit_skips_source() {
    // A valid index answers outright: the named file is never opened, so a
    // nonexistent path still succeeds.
    let cfg = base_cfg();
    let r = compute(
        &cfg,
        &Source::File(String::from("this_file_does_not_exist.csv")),
        IndexProbe::Valid(10000),
        Requested::CountOnly,
        false,
        false,
    );
    assert_eq!(r, Ok(CountResult { count: 10000, width: 0 }));
}

#[test]
fn strict_mode_rejects_ragged() {
    let mut cfg = base_cfg();
    cfg.no_headers = true;
    let r = compute(
        &cfg,
        &bytes("a,b\nc\n"),
        IndexProbe::Missing,
        Requested::CountOnly,
        true,
        false,
    );
    assert_eq!(r, Err(CountError::MalformedRecord { record: 1 }));
}

#[test]
fn flexible_mode_tolerates_ragged() {
    let mut cfg = base_cfg();
    cfg.no_headers = true;
    cfg.flexible = true;
    let r = compute(
        &cfg,
        &bytes("a,b\nc\n"),
        IndexProbe::Missing,
        Requested::CountOnly,
        true,
        false,
    );
    assert_eq!(r, Ok(CountResult { count: 2, width: 0 }));
}

#[test]
fn width_request_forces_flexible() {
    // Width requested: ragged field counts must not abort. Baseline record
    // "a,b" has 2 payload bytes and 1 delimiter; "c" has 1 byte.
    let mut cfg = base_cfg();
    cfg.no_headers = true;
    let r = compute(
        &cfg,
        &bytes("a,b\nc\n"),
        IndexProbe::Missing,
        Requested::CountAndWidth,
        true,
        false,
    );
    assert_eq!(r, Ok(CountResult { count: 2, width: 3 }));
}

#[test]
fn runs_are_idempotent() {
    let cfg = base_cfg();
    let src = bytes("name,age\nJohn,30\nJane,25\n");
    let first = compute(
        &cfg,
        &src,
        IndexProbe::Missing,
        Requested::CountOnly,
        true,
        false,
    );
    let second = compute(
        &cfg,
        &src,
        IndexProbe::Missing,
        Requested::CountOnly,
        true,
        false,
    );
    assert_eq!(first, Ok(CountResult { count: 2, width: 0 }));
    assert_eq!(first, second);
}

#[test]
fn strategies_agree_on_count() {
    // The same data through the streaming scan (in memory and from disk) and
    // through the accelerated engine must yield one and the same count.
    let data = "name,age\nJohn,30\nJane,25\n";
    let mut file = tempfile::Builder::new().suffix(".csv").tempfile().unwrap();
    file.as_file_mut().write_all(data.as_bytes()).unwrap();
    let path = file.path().to_string_lossy().into_owned();
    let cfg = base_cfg();

    let stream_mem = compute(
        &cfg,
        &bytes(data),
        IndexProbe::Missing,
        Requested::CountOnly,
        true,
        false,
    );
    let stream_disk = compute(
        &cfg,
        &Source::File(path.clone()),
        IndexProbe::Missing,
        Requested::CountOnly,
        true,
        false,
    );
    let accelerated = compute(
        &cfg,
        &Source::File(path),
        IndexProbe::Missing,
        Requested::CountOnly,
        false,
        false,
    );
    assert_eq!(stream_mem, Ok(CountResult { count: 2, width: 0 }));
    assert_eq!(stream_mem, stream_disk);
    assert_eq!(stream_mem, accelerated);
}

#[test]
fn accelerated_low_memory_same_result() {
    let data = "a,b\n1,2\n3,4\n5,6\n";
    let mut file = tempfile::Builder::new().suffix(".csv").tempfile().unwrap();
    file.as_file_mut().write_all(data.as_bytes()).unwrap();
    let path = file.path().to_string_lossy().into_owned();
    let cfg = base_cfg();
    let r = compute(
        &cfg,
        &Source::File(path),
        IndexProbe::Missing,
        Requested::CountOnly,
        false,
        true,
    );
    assert_eq!(r, Ok(CountResult { count: 3, width: 0 }));
}

#[test]
fn accelerated_stdin_empty_falls_back() {
    // An empty stream through the accelerated path: the temporary file holds
    // no data, the aggregation comes back empty, and the fallback streaming
    // scan reports zero.
    let cfg = base_cfg();
    let r = compute(
        &cfg,
        &bytes(""),
        IndexProbe::Missing,
        Requested::CountOnly,
        false,
        false,
    );
    assert_eq!(r, Ok(CountResult { count: 0, width: 0 }));
}

#[test]
fn accelerated_stdin_counts() {
    let cfg = base_cfg();
    let r = compute(
        &cfg,
        &bytes("name,age\nJohn,30\nJane,25\n"),
        IndexProbe::Missing,
        Requested::CountOnly,
        false,
        false,
    );
    assert_eq!(r, Ok(CountResult { count: 2, width: 0 }));
}

#[test]
fn accelerated_missing_file_is_fatal() {
    let cfg = base_cfg();
    let r = compute(
        &cfg,
        &Source::File(String::from("no_such_file_anywhere.csv")),
        IndexProbe::Missing,
        Requested::CountOnly,
        false,
        false,
    );
    assert_eq!(
        r,
        Err(CountError::SourceNotFound { path: String::from("no_such_file_anywhere.csv") })
    );
}

#[test]
fn stream_missing_file_fails() {
    let cfg = base_cfg();
    let r = compute(
        &cfg,
        &Source::File(String::from("no_such_file_anywhere.csv")),
        IndexProbe::Missing,
        Requested::CountOnly,
        true,
        false,
    );
    assert!(matches!(r, Err(CountError::ReadFailure { .. })));
}

#[test]
fn failed_probe_degrades_to_scan() {
    // An unreadable or stale index is folded into "no index": the operation
    // still answers, from the streaming scan.
    let cfg = base_cfg();
    let r = compute(
        &cfg,
        &bytes("h\n1\n2\n3\n"),
        IndexProbe::Failed,
        Requested::CountOnly,
        true,
        false,
    );
    assert_eq!(r, Ok(CountResult { count: 3, width: 0 }));
}

#[test]
fn comment_lines_are_skipped() {
    let mut cfg = base_cfg();
    cfg.comment = Some(b'#');
    let r = compute(
        &cfg,
        &bytes("#note\nname,age\nJohn,30\n"),
        IndexProbe::Missing,
        Requested::CountOnly,
        true,
        false,
    );
    assert_eq!(r, Ok(CountResult { count: 1, width: 0 }));
}

#[test]
fn custom_delimiter_counts_fields() {
    let mut cfg = base_cfg();
    cfg.delimiter = b';';
    cfg.no_headers = true;
    let r = compute(
        &cfg,
        &bytes("a;b;c\nd;e;f\n"),
        IndexProbe::Missing,
        Requested::CountAndWidth,
        true,
        false,
    );
    // Each record serializes to 3 payload bytes; 2 delimiters come on top.
    assert_eq!(r, Ok(CountResult { count: 2, width: 5 }));
}

#[test]
fn quotes_are_payload_when_width_requested() {
    // With the width requested, quoting is off: the quote characters count as
    // ordinary bytes and the quoted comma splits a field.
    let mut cfg = base_cfg();
    cfg.no_headers = true;
    let r = compute(
        &cfg,
        &bytes("\"a,b\",c\n"),
        IndexProbe::Missing,
        Requested::CountAndWidth,
        true,
        false,
    );
    // Fields are `"a`, `b"`, `c`: 5 payload bytes plus 2 delimiters.
    assert_eq!(r, Ok(CountResult { count: 1, width: 7 }));
}

#[test]
fn quotes_group_fields_when_counting() {
    let mut cfg = base_cfg();
    cfg.no_headers = true;
    let r = count_input(&cfg, &bytes("\"a,b\",c\n\"d\ne\",f\n"), false);
    // The quoted newline stays inside one record: two records in all.
    assert_eq!(r, Ok(CountResult { count: 2, width: 0 }));
}

#[test]
fn select_strategy_orders_rules() {
    // Width or tolerance first, then the index, then the accelerated check.
    assert_eq!(
        select_strategy(true, false, IndexProbe::Valid(5), false, false),
        Strategy::StreamOnly
    );
    assert_eq!(
        select_strategy(false, true, IndexProbe::Valid(5), false, false),
        Strategy::StreamOnly
    );
    assert_eq!(
        select_strategy(false, false, IndexProbe::Valid(5), false, false),
        Strategy::IndexHit(5)
    );
    assert_eq!(
        select_strategy(false, false, IndexProbe::Missing, true, false),
        Strategy::StreamOnly
    );
    assert_eq!(
        select_strategy(false, false, IndexProbe::Failed, false, true),
        Strategy::StreamOnly
    );
    assert_eq!(
        select_strategy(false, false, IndexProbe::Missing, false, false),
        Strategy::Accelerated
    );
}

#[test]
fn fold_probe_absorbs_failures() {
    assert_eq!(fold_probe(IndexProbe::Valid(7)), Some(7));
    assert_eq!(fold_probe(IndexProbe::Missing), None);
    assert_eq!(fold_probe(IndexProbe::Failed), None);
}

#[test]
fn count_records_on_plain_records() {
    let records = vec![
        RawRecord { data: b"ab".to_vec(), n_fields: 2 },
        RawRecord { data: b"cdef".to_vec(), n_fields: 2 },
        RawRecord { data: b"g".to_vec(), n_fields: 2 },
    ];
    // All records are data; the widest holds 4 payload bytes plus 1 delimiter.
    let r = count_records(&records, true, true, false);
    assert_eq!(r, Ok(CountResult { count: 3, width: 5 }));
    // With a header row, two data records remain and the widest is unchanged.
    let r = count_records(&records, false, true, false);
    assert_eq!(r, Ok(CountResult { count: 2, width: 5 }));
}
