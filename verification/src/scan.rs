use vstd::prelude::*;

use crate::types::{CountError, CountResult};

verus! {

/// One raw record as the scanner sees it: the bytes of all its fields laid end
/// to end, without the separators between them, and the number of fields.
pub struct RawRecord {
    pub data: Vec<u8>,
    pub n_fields: usize,
}

/// The mathematical shape of one record: its serialized field bytes and its
/// field count.
pub type RecordView = (Seq<u8>, int);

/// The records of a scan as mathematical values.
pub open spec fn views_of(s: Seq<RawRecord>) -> Seq<RecordView> {
    Seq::new(s.len(), |i: int| (s[i].data@, s[i].n_fields as int))
}

/// The largest serialized byte length among the records.
pub open spec fn max_serialized_width(rs: Seq<RecordView>) -> int
    decreases rs.len(),
{
    if rs.len() == 0 {
        0
    } else {
        let prev = max_serialized_width(rs.drop_last());
        let last = rs.last().0.len() as int;
        if last > prev {
            last
        } else {
            prev
        }
    }
}

/// How many separator bytes the width estimate adds back: one per delimiter of
/// the first record, taken as representative for the whole stream. A first
/// record with fewer fields than later ones therefore undercounts — a known
/// estimation bound of the single-pass width, kept deliberately.
pub open spec fn delimiter_allowance(rs: Seq<RecordView>) -> int {
    if rs.len() == 0 {
        0
    } else if rs[0].1 >= 1 {
        rs[0].1 - 1
    } else {
        0
    }
}

/// The estimated byte width of the longest record: its serialized field bytes
/// plus the first record's delimiter count, clamped to what a machine word
/// holds. A stream with no records has width 0.
pub open spec fn estimated_width(rs: Seq<RecordView>) -> int {
    if rs.len() == 0 {
        0
    } else {
        let w = max_serialized_width(rs) + delimiter_allowance(rs);
        if w > usize::MAX as int {
            usize::MAX as int
        } else {
            w
        }
    }
}

/// The records that count as data: all of them when the first row is data,
/// otherwise all but the header row.
pub open spec fn data_records(rs: Seq<RecordView>, no_headers: bool) -> Seq<RecordView> {
    if no_headers || rs.len() == 0 {
        rs
    } else {
        rs.drop_first()
    }
}

/// What one full streaming pass reports for a record stream: the number of
/// data records, and — only when asked for — the estimated width of the
/// longest data record.
pub open spec fn spec_stream_result(rs: Seq<RecordView>, no_headers: bool, want_width: bool) -> CountResult {
    let ds = data_records(rs, no_headers);
    CountResult {
        count: ds.len() as u64,
        width: if want_width {
            estimated_width(ds) as usize
        } else {
            0
        },
    }
}

/// Every record carries as many fields as the first one.
pub open spec fn uniform_fields(rs: Seq<RecordView>) -> bool {
    forall|i: int| 0 <= i < rs.len() ==> (#[trigger] rs[i]).1 == rs[0].1
}

/// A single pass over the records from `start` on: counts them and, when the
/// width is requested, tracks the largest serialized record length, reporting
/// it plus the first scanned record's delimiter count.
pub fn scan_records(records: &Vec<RawRecord>, start: usize, want_width: bool) -> (r: CountResult)
    requires
        start <= records@.len(),
    ensures
        r.count == records@.len() - start,
        r.width as int == (if want_width {
            estimated_width(views_of(records@).subrange(start as int, records@.len() as int))
        } else {
            0
        }),
{
    let ghost rv = views_of(records@);
    let n: usize = records.len();
    let count: u64 = (n - start) as u64;
    if !want_width || start == n {
        return CountResult { count, width: 0 };
    }
    let mut max_width: usize = records[start].data.len();
    let n_first: usize = records[start].n_fields;
    let delims: usize = if n_first >= 1 {
        n_first - 1
    } else {
        0
    };
    proof {
        let s1 = rv.subrange(start as int, start as int + 1);
        assert(s1.drop_last() =~= rv.subrange(start as int, start as int));
        assert(rv.subrange(start as int, start as int).len() == 0);
        assert(s1.last() == rv[start as int]);
        assert(max_serialized_width(rv.subrange(start as int, start as int)) == 0);
        assert(max_serialized_width(s1) == rv[start as int].0.len() as int);
    }
    let mut i: usize = start + 1;
    while i < n
        invariant
            start < i <= n,
            n == records@.len(),
            rv == views_of(records@),
            max_width as int == max_serialized_width(rv.subrange(start as int, i as int)),
        decreases n - i,
    {
        let w: usize = records[i].data.len();
        proof {
            assert(rv.subrange(start as int, i as int + 1).drop_last() =~= rv.subrange(
                start as int,
                i as int,
            ));
            assert(rv.subrange(start as int, i as int + 1).last() == rv[i as int]);
        }
        if w > max_width {
            max_width = w;
        }
        i = i + 1;
    }
    let width: usize = if max_width <= usize::MAX - delims {
        max_width + delims
    } else {
        usize::MAX
    };
    proof {
        let ds = rv.subrange(start as int, n as int);
        assert(ds.len() >= 1);
        assert(ds[0] == rv[start as int]);
        assert(delims as int == delimiter_allowance(ds));
        assert(max_width as int == max_serialized_width(ds));
    }
    CountResult { count, width }
}

/// Strict field validation: reports the first record whose field count differs
/// from the first record's, or confirms that all records agree.
pub fn check_field_counts(records: &Vec<RawRecord>) -> (r: Result<(), usize>)
    ensures
        r is Ok <==> uniform_fields(views_of(records@)),
        r matches Err(bad) ==> ({
            &&& 0 < bad < records@.len()
            &&& views_of(records@)[bad as int].1 != views_of(records@)[0].1
            &&& forall|j: int| 0 <= j < bad ==> (#[trigger] views_of(records@)[j]).1
                == views_of(records@)[0].1
        }),
{
    let ghost rv = views_of(records@);
    if records.len() == 0 {
        return Ok(());
    }
    let expected: usize = records[0].n_fields;
    let mut i: usize = 1;
    while i < records.len()
        invariant
            1 <= i <= records@.len(),
            rv == views_of(records@),
            expected == records@[0].n_fields,
            forall|j: int| 0 <= j < i ==> (#[trigger] rv[j]).1 == rv[0].1,
        decreases records@.len() - i,
    {
        if records[i].n_fields != expected {
            proof {
                assert(rv[i as int].1 != rv[0].1);
            }
            return Err(i);
        }
        i = i + 1;
    }
    Ok(())
}

/// The streaming strategy on an already-split record stream: optional strict
/// field validation, the header skip, then the single counting pass. This is
/// the whole behaviour of the scan for every value the record source can hand
/// back.
pub fn count_records(records: &Vec<RawRecord>, no_headers: bool, want_width: bool, flexible: bool) -> (r: Result<
    CountResult,
    CountError,
>)
    ensures
        r is Ok <==> (flexible || uniform_fields(views_of(records@))),
        r is Ok ==> r->Ok_0 == spec_stream_result(views_of(records@), no_headers, want_width),
        r is Err ==> !flexible && !uniform_fields(views_of(records@)),
        r is Err ==> (r->Err_0 matches CountError::MalformedRecord { record } && 0 < record
            < records@.len() && views_of(records@)[record as int].1 != views_of(records@)[0].1),
{
    if !flexible {
        match check_field_counts(records) {
            Ok(()) => {},
            Err(bad) => {
                return Err(CountError::MalformedRecord { record: bad });
            },
        }
    }
    let start: usize = if no_headers || records.len() == 0 {
        0
    } else {
        1
    };
    let out = scan_records(records, start, want_width);
    proof {
        let rv = views_of(records@);
        assert(data_records(rv, no_headers) =~= rv.subrange(start as int, records@.len() as int));
    }
    Ok(out)
}

/// The count a streaming pass reports is exactly the number of data records
/// the record stream yields, so an independent re-scan of the same records
/// reproduces the same integer.
pub proof fn lemma_count_matches_records(rs: Seq<RecordView>, no_headers: bool, want_width: bool)
    requires
        data_records(rs, no_headers).len() <= u64::MAX,
    ensures
        spec_stream_result(rs, no_headers, want_width).count == data_records(rs, no_headers).len(),
{
}

/// Running the operation twice on an unchanged record stream yields identical
/// (count, width) pairs.
pub proof fn lemma_count_idempotent(
    rs: Seq<RecordView>,
    no_headers: bool,
    want_width: bool,
    first_run: CountResult,
    second_run: CountResult,
)
    requires
        first_run == spec_stream_result(rs, no_headers, want_width),
        second_run == spec_stream_result(rs, no_headers, want_width),
    ensures
        first_run == second_run,
{
}

/// A source with no data records — nothing at all, or a header row alone —
/// counts as zero records with zero width.
pub proof fn lemma_empty_source(rs: Seq<RecordView>, no_headers: bool, want_width: bool)
    requires
        data_records(rs, no_headers).len() == 0,
    ensures
        spec_stream_result(rs, no_headers, want_width) == (CountResult { count: 0, width: 0 }),
{
}

/// The width stays at its "not computed" sentinel 0 whenever it was not
/// requested, and is never negative.
pub proof fn lemma_width_sentinel(rs: Seq<RecordView>, no_headers: bool, want_width: bool)
    ensures
        !want_width ==> spec_stream_result(rs, no_headers, want_width).width == 0,
        spec_stream_result(rs, no_headers, want_width).width >= 0,
{
}

} // verus!
