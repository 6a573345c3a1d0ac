use vstd::prelude::*;

use crate::outside::{field_records_of, parse_field_records, render_template_row};

verus! {

/// The decimal digits of `n`, most significant first, as ASCII bytes.
pub open spec fn spec_decimal(n: nat) -> Seq<u8>
    decreases n,
{
    if n < 10 {
        seq![(48 + n) as u8]
    } else {
        spec_decimal(n / 10).push((48 + n % 10) as u8)
    }
}

/// The positional column name handed to templates when the data carries no
/// header row: an underscore, a `c`, and the 1-based column number.
pub open spec fn spec_synth_name(index: int) -> Seq<u8> {
    seq![95u8, 99u8] + spec_decimal((index + 1) as nat)
}

/// The bytes with every trailing newline removed.
pub open spec fn trim_newlines(s: Seq<u8>) -> Seq<u8>
    decreases s.len(),
{
    if s.len() > 0 && s.last() == 10u8 {
        trim_newlines(s.drop_last())
    } else {
        s
    }
}

/// One block of output per rendered row, concatenated: each block is its
/// row's rendering with the trailing newlines normalised to exactly one.
pub open spec fn spec_concat_blocks(blocks: Seq<Seq<u8>>) -> Seq<u8>
    decreases blocks.len(),
{
    if blocks.len() == 0 {
        Seq::empty()
    } else {
        spec_concat_blocks(blocks.drop_last()) + trim_newlines(blocks.last()).push(10u8)
    }
}

/// How many data rows a record stream holds: every record when the first row
/// is data, all but the header row otherwise.
pub open spec fn spec_data_row_count(recs: Seq<Seq<Seq<u8>>>, no_headers: bool) -> int {
    if recs.len() == 0 {
        0
    } else if no_headers {
        recs.len() as int
    } else {
        recs.len() as int - 1
    }
}

/// The decimal digits of `n` as ASCII bytes.
fn decimal_bytes(n: usize) -> (r: Vec<u8>)
    ensures
        r@ == spec_decimal(n as nat),
    decreases n,
{
    if n < 10 {
        let mut digits: Vec<u8> = Vec::new();
        digits.push(48 + n as u8);
        digits
    } else {
        let mut digits = decimal_bytes(n / 10);
        digits.push(48 + (n % 10) as u8);
        digits
    }
}

/// The positional column names `_c1` to `_cN` for a record of `n` fields.
fn synth_names(n: usize) -> (r: Vec<Vec<u8>>)
    ensures
        r@.len() == n,
        forall|k: int| 0 <= k < n ==> (#[trigger] r@[k])@ == spec_synth_name(k),
{
    let mut names: Vec<Vec<u8>> = Vec::new();
    let mut j: usize = 0;
    while j < n
        invariant
            j <= n,
            names@.len() == j,
            forall|k: int| 0 <= k < j ==> (#[trigger] names@[k])@ == spec_synth_name(k),
        decreases n - j,
    {
        let mut name: Vec<u8> = Vec::new();
        name.push(95u8);
        name.push(99u8);
        let mut digits = decimal_bytes(j + 1);
        name.append(&mut digits);
        proof {
            assert(name@ =~= spec_synth_name(j as int));
        }
        names.push(name);
        j = j + 1;
    }
    names
}

/// Renders the template once per data row of the given record stream and
/// concatenates the blocks, each closed by exactly one newline. The first
/// record names the columns unless the stream carries no header row, in which
/// case positional `_c1`, `_c2`, ... names are bound and every record is a
/// data row. Whatever each rendering call hands back, the output is one
/// newline-terminated block per data row of the split; a failure to split the
/// records or to render a row is reported as the underlying message.
pub fn render_rows(data: &Vec<u8>, template: &String, no_headers: bool, delimiter: u8) -> (r: Result<
    Vec<u8>,
    String,
>)
    ensures
        data@.len() == 0 ==> r is Ok && r->Ok_0@.len() == 0,
        r is Ok ==> exists|blocks: Seq<Seq<u8>>|
            #![auto]
            blocks.len() == spec_data_row_count(field_records_of(data@, delimiter), no_headers)
                && r->Ok_0@ == spec_concat_blocks(blocks),
{
    let records = match parse_field_records(data, delimiter) {
        Ok(records) => records,
        Err(message) => {
            return Err(message);
        },
    };
    let ghost recs = records.deep_view();
    if records.len() == 0 {
        proof {
            assert(Seq::<u8>::empty() == spec_concat_blocks(Seq::<Seq<u8>>::empty()));
        }
        return Ok(Vec::new());
    }
    let synth = synth_names(records[0].len());
    let start: usize = if no_headers {
        0
    } else {
        1
    };
    let mut out: Vec<u8> = Vec::new();
    let ghost mut blocks = Seq::<Seq<u8>>::empty();
    let mut i: usize = start;
    while i < records.len()
        invariant
            start <= i <= records@.len(),
            records@.len() >= 1,
            data@.len() != 0,
            start == (if no_headers {
                0int
            } else {
                1int
            }),
            blocks.len() == i - start,
            out@ == spec_concat_blocks(blocks),
        decreases records@.len() - i,
    {
        let rendered = if no_headers {
            render_template_row(template, &synth, &records[i])
        } else {
            render_template_row(template, &records[0], &records[i])
        };
        let mut block = match rendered {
            Ok(block) => block,
            Err(message) => {
                return Err(message);
            },
        };
        let ghost block_full = block@;
        while block.len() > 0 && block[block.len() - 1] == 10u8
            invariant
                trim_newlines(block@) == trim_newlines(block_full),
            decreases block@.len(),
        {
            block.pop();
        }
        proof {
            assert(block@ == trim_newlines(block_full));
            assert(blocks.push(block_full).drop_last() =~= blocks);
        }
        let ghost out_before = out@;
        out.append(&mut block);
        out.push(10u8);
        proof {
            blocks = blocks.push(block_full);
            assert(out@ =~= out_before + (trim_newlines(block_full).push(10u8)));
        }
        i = i + 1;
    }
    proof {
        assert(blocks.len() == spec_data_row_count(recs, no_headers));
        assert(recs == field_records_of(data@, delimiter));
    }
    Ok(out)
}

} // verus!
