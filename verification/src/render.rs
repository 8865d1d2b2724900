//! The text form of a header.

use vstd::prelude::*;
use vstd::string::StringExecFns;

use crate::names::views;
use crate::schema::{schema_views, FieldSchema, FieldSchemaView};

verus! {

/// The declaring lines of `entries` in the namespace `kind`, each with its line end.
pub open spec fn schema_lines(entries: Seq<FieldSchemaView>, kind: Seq<char>) -> Seq<char>
    decreases entries.len(),
{
    if entries.len() == 0 {
        Seq::empty()
    } else {
        schema_lines(entries.drop_last(), kind) + entries.last().line(kind) + "\n"@
    }
}

/// The `##FILTER` lines of `entries`, each with its line end.
pub open spec fn filter_lines(entries: Seq<FieldSchemaView>) -> Seq<char>
    decreases entries.len(),
{
    if entries.len() == 0 {
        Seq::empty()
    } else {
        filter_lines(entries.drop_last()) + entries.last().filter_line() + "\n"@
    }
}

/// The `##contig` lines of `names`, each with its line end.
pub open spec fn contig_lines(names: Seq<Seq<char>>) -> Seq<char>
    decreases names.len(),
{
    if names.len() == 0 {
        Seq::empty()
    } else {
        contig_lines(names.drop_last()) + "##contig=<ID="@ + names.last() + ">\n"@
    }
}

/// One column per sample, each behind a tab.
pub open spec fn sample_columns(names: Seq<Seq<char>>) -> Seq<char>
    decreases names.len(),
{
    if names.len() == 0 {
        Seq::empty()
    } else {
        sample_columns(names.drop_last()) + "\t"@ + names.last()
    }
}

/// The line that names the columns of the records, with its line end. The
/// `FORMAT` column and the sample columns are there only where there are samples.
pub open spec fn column_line(samples: Seq<Seq<char>>) -> Seq<char> {
    if samples.len() == 0 {
        "#CHROM\tPOS\tID\tREF\tALT\tQUAL\tFILTER\tINFO"@ + "\n"@
    } else {
        "#CHROM\tPOS\tID\tREF\tALT\tQUAL\tFILTER\tINFO"@ + "\tFORMAT"@ + sample_columns(samples)
            + "\n"@
    }
}

/// Appends the declaring lines of `entries` in the namespace `kind`.
pub fn append_schema_lines(out: &mut String, entries: &Vec<FieldSchema>, kind: &str)
    ensures
        final(out)@ == old(out)@ + schema_lines(schema_views(entries@), kind@),
{
    let ghost all = schema_views(entries@);
    let mut i: usize = 0;
    while i < entries.len()
        invariant
            0 <= i <= entries.len(),
            all == schema_views(entries@),
            out@ == old(out)@ + schema_lines(all.subrange(0, i as int), kind@),
        decreases entries.len() - i,
    {
        let ghost before = out@;
        let line = entries[i].line(kind);
        out.append(line.as_str());
        out.append("\n");
        proof {
            let next = all.subrange(0, i as int + 1);
            assert(next.drop_last() =~= all.subrange(0, i as int));
            assert(next.last() == entries@[i as int]@);
            assert(out@ =~= old(out)@ + schema_lines(next, kind@));
        }
        i = i + 1;
    }
    proof {
        assert(all.subrange(0, i as int) =~= all);
    }
}

/// Appends the `##FILTER` lines of `entries`.
pub fn append_filter_lines(out: &mut String, entries: &Vec<FieldSchema>)
    ensures
        final(out)@ == old(out)@ + filter_lines(schema_views(entries@)),
{
    let ghost all = schema_views(entries@);
    let mut i: usize = 0;
    while i < entries.len()
        invariant
            0 <= i <= entries.len(),
            all == schema_views(entries@),
            out@ == old(out)@ + filter_lines(all.subrange(0, i as int)),
        decreases entries.len() - i,
    {
        let line = entries[i].filter_line();
        out.append(line.as_str());
        out.append("\n");
        proof {
            let next = all.subrange(0, i as int + 1);
            assert(next.drop_last() =~= all.subrange(0, i as int));
            assert(next.last() == entries@[i as int]@);
            assert(out@ =~= old(out)@ + filter_lines(next));
        }
        i = i + 1;
    }
    proof {
        assert(all.subrange(0, i as int) =~= all);
    }
}

/// Appends the `##contig` lines of `names`.
pub fn append_contig_lines(out: &mut String, names: &Vec<String>)
    ensures
        final(out)@ == old(out)@ + contig_lines(views(names@)),
{
    let ghost all = views(names@);
    let mut i: usize = 0;
    while i < names.len()
        invariant
            0 <= i <= names.len(),
            all == views(names@),
            out@ == old(out)@ + contig_lines(all.subrange(0, i as int)),
        decreases names.len() - i,
    {
        out.append("##contig=<ID=");
        out.append(names[i].as_str());
        out.append(">\n");
        proof {
            let next = all.subrange(0, i as int + 1);
            assert(next.drop_last() =~= all.subrange(0, i as int));
            assert(next.last() == names@[i as int]@);
            assert(out@ =~= old(out)@ + contig_lines(next));
        }
        i = i + 1;
    }
    proof {
        assert(all.subrange(0, i as int) =~= all);
    }
}

/// Appends the line that names the columns.
pub fn append_column_line(out: &mut String, samples: &Vec<String>)
    ensures
        final(out)@ == old(out)@ + column_line(views(samples@)),
{
    let ghost all = views(samples@);
    out.append("#CHROM\tPOS\tID\tREF\tALT\tQUAL\tFILTER\tINFO");
    if samples.len() > 0 {
        out.append("\tFORMAT");
        let ghost start = out@;
        let mut i: usize = 0;
        while i < samples.len()
            invariant
                0 <= i <= samples.len(),
                all == views(samples@),
                out@ == start + sample_columns(all.subrange(0, i as int)),
            decreases samples.len() - i,
        {
            out.append("\t");
            out.append(samples[i].as_str());
            proof {
                let next = all.subrange(0, i as int + 1);
                assert(next.drop_last() =~= all.subrange(0, i as int));
                assert(next.last() == samples@[i as int]@);
                assert(out@ =~= start + sample_columns(next));
            }
            i = i + 1;
        }
        proof {
            assert(all.subrange(0, i as int) =~= all);
        }
    }
    out.append("\n");
    assert(out@ =~= old(out)@ + column_line(all));
}

} // verus!
