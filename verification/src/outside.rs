use vstd::prelude::*;

use std::io::Write;

use polars::prelude::{col, lit, LazyCsvReader, LazyFileListReader, LazyFrame, OptState, PolarsError};

use crate::scan::{views_of, RawRecord, RecordView};

verus! {

/// The record stream that splitting a byte sequence yields, under a delimiter,
/// a quoting switch and an optional comment prefix. Splitting bytes held in
/// memory depends on nothing else, so the result is a pure function of these
/// arguments; what the function is, only the splitter itself says.
pub uninterp spec fn records_of(data: Seq<u8>, delimiter: u8, quoting: bool, comment: Option<u8>) -> Seq<RecordView>;

#[verifier::external_type_specification]
#[verifier::external_body]
pub struct ExTempPath(tempfile::TempPath);

#[verifier::external_type_specification]
#[verifier::external_body]
pub struct ExLazyFrame(LazyFrame);

/// Relies on csv's ReaderBuilder and Reader::read_byte_record: splits the
/// given bytes into records under the given settings, with field-count
/// validation off and no header skipping, so every record comes back. A record
/// is handed over as its serialized field bytes plus its field count, exactly
/// as the reader reports them. Reading a byte slice cannot fail, and with
/// field-count validation off the reader raises no record-level error either,
/// so the split always succeeds; on empty input it yields no record at all.
#[verifier::external_body]
pub(crate) fn parse_records(data: &Vec<u8>, delimiter: u8, quoting: bool, comment: Option<u8>) -> (r: Result<
    Vec<RawRecord>,
    String,
>)
    ensures
        r is Ok,
        views_of(r->Ok_0@) == records_of(data@, delimiter, quoting, comment),
        data@.len() == 0 ==> r->Ok_0@.len() == 0,
{
    let mut rdr = csv::ReaderBuilder::new().delimiter(delimiter).quoting(quoting).comment(comment)
        .flexible(true).has_headers(false).from_reader(data.as_slice());
    let mut record = csv::ByteRecord::new();
    let mut out: Vec<RawRecord> = Vec::new();
    loop {
        match rdr.read_byte_record(&mut record) {
            Ok(true) => out.push(RawRecord { data: record.as_slice().to_vec(), n_fields: record.len() }),
            Ok(false) => return Ok(out),
            Err(e) => return Err(e.to_string()),
        }
    }
}

/// Relies on csv's ReaderBuilder::from_path and Reader::read_byte_record: the
/// same record splitting, reading the file at `path`. What comes back depends
/// on what is on disk at that moment, so nothing is assumed of it.
#[verifier::external_body]
pub(crate) fn parse_records_path(path: &String, delimiter: u8, quoting: bool, comment: Option<u8>) -> (r: Result<
    Vec<RawRecord>,
    String,
>)
{
    let built = csv::ReaderBuilder::new().delimiter(delimiter).quoting(quoting).comment(comment)
        .flexible(true).has_headers(false).from_path(path.as_str());
    let mut rdr = match built { Ok(rdr) => rdr, Err(e) => return Err(e.to_string()) };
    let mut record = csv::ByteRecord::new();
    let mut out: Vec<RawRecord> = Vec::new();
    loop {
        match rdr.read_byte_record(&mut record) {
            Ok(true) => out.push(RawRecord { data: record.as_slice().to_vec(), n_fields: record.len() }),
            Ok(false) => return Ok(out),
            Err(e) => return Err(e.to_string()),
        }
    }
}

/// Relies on polars' LazyCsvReader: a lazy scan of the file at `path` that
/// adds a constant column, groups by it, and sums it into one `row_count`
/// value — phrasing the count as the cheapest aggregation the planner knows
/// how to push down. Building the plan reads the file's header from disk, so
/// nothing is assumed of the result.
#[verifier::external_body]
pub(crate) fn build_count_plan(path: &String, delimiter: u8, comment: Option<u8>, low_memory: bool) -> (r: Result<
    LazyFrame,
    String,
>)
{
    let prefix = comment.map(|c| (c as char).to_string());
    let scan = LazyCsvReader::new(path.as_str()).with_separator(delimiter)
        .with_comment_prefix(prefix.as_deref()).with_low_memory(low_memory).finish();
    let opts = OptState { streaming: true, file_caching: true, ..OptState::default() };
    match scan {
        Ok(frame) => Ok(frame.with_column(lit(1i64).alias("constant"))
            .group_by([col("constant")])
            .agg([col("constant").sum().alias("row_count")])
            .select([col("row_count")])
            .with_optimizations(opts)),
        Err(e) => Err(e.to_string()),
    }
}

/// Relies on polars' LazyFrame::collect, DataFrame::column and
/// AnyValue::try_extract: runs the plan and extracts the single aggregated
/// value. `Ok(None)` reports an empty or unparseable result — a source with no
/// data rows, or an aggregate that does not extract as an integer — and `Err`
/// a plan that failed outright; which of these comes back depends on what is
/// on disk.
#[verifier::external_body]
pub(crate) fn collect_count(plan: LazyFrame) -> (r: Result<Option<u64>, String>) {
    let frame = match plan.collect() {
        Ok(frame) => frame,
        Err(e) => {
            let mut root: &PolarsError = &e;
            while let PolarsError::Context { error, .. } = root {
                root = error.as_ref();
            }
            return if matches!(root, PolarsError::NoData(_)) { Ok(None) } else { Err(e.to_string()) };
        },
    };
    match frame.column("row_count").map_err(|e| e.to_string())?.get(0) {
        Ok(value) => Ok(value.try_extract::<u64>().ok()),
        Err(_) => Ok(None),
    }
}

/// Relies on tempfile's Builder::tempfile and std's Write::write_all: creates
/// a fresh temporary file whose name carries the suffix the downstream reader
/// recognises, copies the drained stream into it verbatim, and hands back the
/// path-only handle; the file is removed when that handle is closed or
/// dropped.
#[verifier::external_body]
pub(crate) fn materialize_temp(data: &Vec<u8>) -> (r: Result<tempfile::TempPath, String>) {
    let mut file = match tempfile::Builder::new().suffix(".csv").tempfile() {
        Ok(file) => file,
        Err(e) => return Err(e.to_string()),
    };
    if let Err(e) = file.as_file_mut().write_all(data.as_slice()) {
        return Err(e.to_string());
    }
    Ok(file.into_temp_path())
}

/// Relies on tempfile's TempPath: where the temporary file lives, as a plain
/// string for the engine that opens it by name.
#[verifier::external_body]
pub(crate) fn temp_path_string(file: &tempfile::TempPath) -> (r: String) {
    file.to_string_lossy().into_owned()
}

/// Relies on tempfile's TempPath::close: removes the temporary file now,
/// reporting a failure of the removal itself.
#[verifier::external_body]
pub(crate) fn close_temp(file: tempfile::TempPath) -> (r: Result<(), String>) {
    file.close().map_err(|e| e.to_string())
}

/// Relies on std's Path::exists: whether the path points at an existing entity
/// on disk right now.
#[verifier::external_body]
pub(crate) fn path_exists(path: &String) -> (r: bool) {
    std::path::Path::new(path.as_str()).exists()
}

/// The field-by-field record stream that splitting a byte sequence yields
/// under a delimiter, with quotes recognised and every record kept. As with
/// `records_of`, splitting bytes held in memory is a pure function of the
/// arguments.
pub uninterp spec fn field_records_of(data: Seq<u8>, delimiter: u8) -> Seq<Seq<Seq<u8>>>;

/// Relies on csv's ReaderBuilder and Reader::read_byte_record: splits the
/// given bytes into records and each record into its fields, with field-count
/// validation off and no header skipping. On empty input the reader yields no
/// record at all.
#[verifier::external_body]
pub(crate) fn parse_field_records(data: &Vec<u8>, delimiter: u8) -> (r: Result<
    Vec<Vec<Vec<u8>>>,
    String,
>)
    ensures
        r is Ok ==> r->Ok_0.deep_view() == field_records_of(data@, delimiter),
        data@.len() == 0 ==> r is Ok && r->Ok_0@.len() == 0,
{
    let mut rdr = csv::ReaderBuilder::new().delimiter(delimiter).flexible(true)
        .has_headers(false).from_reader(data.as_slice());
    let mut record = csv::ByteRecord::new();
    let mut out: Vec<Vec<Vec<u8>>> = Vec::new();
    loop {
        match rdr.read_byte_record(&mut record) {
            Ok(true) => out.push(record.iter().map(|field| field.to_vec()).collect()),
            Ok(false) => return Ok(out),
            Err(e) => return Err(e.to_string()),
        }
    }
}

/// Relies on minijinja's Environment and Template::render, with the
/// minijinja-contrib filters, functions and python-method compatibility
/// registered: renders the template once over a context that binds each
/// column name to that row's value. A template may call `now()`, so what comes
/// back can depend on the clock, and nothing is assumed of it.
#[verifier::external_body]
pub(crate) fn render_template_row(template: &String, names: &Vec<Vec<u8>>, values: &Vec<Vec<u8>>) -> (r: Result<
    Vec<u8>,
    String,
>)
{
    let mut env = minijinja::Environment::new();
    minijinja_contrib::add_to_environment(&mut env);
    env.set_unknown_method_callback(minijinja_contrib::pycompat::unknown_method_callback);
    let context: std::collections::BTreeMap<String, String> = names.iter().zip(values.iter())
        .map(|(n, v)| (String::from_utf8_lossy(n).into_owned(), String::from_utf8_lossy(v).into_owned()))
        .collect();
    match env.render_named_str("template", template.as_str(), &context) {
        Ok(rendered) => Ok(rendered.into_bytes()),
        Err(e) => Err(e.to_string()),
    }
}

} // verus!
