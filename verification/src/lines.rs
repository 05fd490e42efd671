//! The text of the exposition format, stated as functions on character
//! sequences, and the emitters that append that text to the output buffer.
//!
//! Every line the encoder writes is one of three shapes: a `# HELP`
//! comment, a `# TYPE` comment, or a sample line
//! `name{label="value",...} value timestamp`. The spec functions here give
//! each shape exactly; the encoder's contracts are stated over them.

use vstd::prelude::*;

verus! {

use crate::numbers::dec_rep;
use crate::numbers::u64_to_dec;
use crate::value::MetricValue;
use crate::value::value_text;
use vstd::string::StringExecFns;

/// The views of a slice of borrowed (label name, label value) pairs.
pub open spec fn view_pairs(labels: Seq<(&str, &str)>) -> Seq<(Seq<char>, Seq<char>)> {
    labels.map_values(|p: (&str, &str)| (p.0@, p.1@))
}

/// One rendered label pair: `name="value"`.
pub open spec fn label_pair_text(name: Seq<char>, value: Seq<char>) -> Seq<char> {
    name + "=\""@ + value + "\""@
}

/// The comma-separated label pairs, in the order given, without braces.
pub open spec fn labels_body_text(pairs: Seq<(Seq<char>, Seq<char>)>) -> Seq<char>
    decreases pairs.len(),
{
    if pairs.len() == 0 {
        Seq::empty()
    } else if pairs.len() == 1 {
        label_pair_text(pairs[0].0, pairs[0].1)
    } else {
        labels_body_text(pairs.drop_last()) + ","@ + label_pair_text(
            pairs.last().0,
            pairs.last().1,
        )
    }
}

/// The rendered label set: braced pairs, or nothing at all when the set is
/// empty (no `{}`).
pub open spec fn labels_text(pairs: Seq<(Seq<char>, Seq<char>)>) -> Seq<char> {
    if pairs.len() == 0 {
        Seq::<char>::empty()
    } else {
        "{"@ + labels_body_text(pairs) + "}"@
    }
}

/// The `# HELP` comment line of a family.
pub open spec fn help_line_text(name: Seq<char>, help: Seq<char>) -> Seq<char> {
    "# HELP "@ + name + " "@ + help + "\n"@
}

/// The `# TYPE` comment line of a family.
pub open spec fn type_line_text(name: Seq<char>, mtype: Seq<char>) -> Seq<char> {
    "# TYPE "@ + name + " "@ + mtype + "\n"@
}

/// The two-line family header: `# HELP`, then `# TYPE`.
pub open spec fn header_text(name: Seq<char>, help: Seq<char>, mtype: Seq<char>) -> Seq<char> {
    help_line_text(name, help) + type_line_text(name, mtype)
}

/// One sample line: name, label set, value and timestamp, space-separated
/// and newline-terminated.
pub open spec fn sample_line_text(
    name: Seq<char>,
    pairs: Seq<(Seq<char>, Seq<char>)>,
    value: Seq<char>,
    timestamp_ms: nat,
) -> Seq<char> {
    name + labels_text(pairs) + " "@ + value + " "@ + dec_rep(timestamp_ms) + "\n"@
}

/// The sum of the per-bucket counts of a histogram bucket sequence: the
/// cumulative value after the last bucket, and the value of `_count`.
pub open spec fn count_sum(buckets: Seq<(MetricValue, u64)>) -> nat
    decreases buckets.len(),
{
    if buckets.len() == 0 {
        0
    } else {
        count_sum(buckets.drop_last()) + buckets.last().1 as nat
    }
}

/// The `_bucket` lines of a histogram: one per supplied bucket, in order,
/// each carrying the caller's labels, then `le` with the bucket's bound,
/// and the cumulative count through that bucket. No `+Inf` bucket is
/// synthesized: the lines are exactly the buckets supplied.
pub open spec fn bucket_lines_text(
    name: Seq<char>,
    pairs: Seq<(Seq<char>, Seq<char>)>,
    buckets: Seq<(MetricValue, u64)>,
    timestamp_ms: nat,
) -> Seq<char>
    decreases buckets.len(),
{
    if buckets.len() == 0 {
        Seq::<char>::empty()
    } else {
        bucket_lines_text(name, pairs, buckets.drop_last(), timestamp_ms) + sample_line_text(
            name + "_bucket"@,
            pairs.push(("le"@, value_text(buckets.last().0))),
            dec_rep(count_sum(buckets)),
            timestamp_ms,
        )
    }
}

/// A full histogram block: the `_bucket` lines, then `_sum` with the
/// caller's sum value, then `_count` with the cumulative total.
pub open spec fn histogram_block_text(
    name: Seq<char>,
    pairs: Seq<(Seq<char>, Seq<char>)>,
    buckets: Seq<(MetricValue, u64)>,
    sum: MetricValue,
    timestamp_ms: nat,
) -> Seq<char> {
    bucket_lines_text(name, pairs, buckets, timestamp_ms) + sample_line_text(
        name + "_sum"@,
        pairs,
        value_text(sum),
        timestamp_ms,
    ) + sample_line_text(name + "_count"@, pairs, dec_rep(count_sum(buckets)), timestamp_ms)
}

/// Appends one `name="value"` pair.
fn push_label_pair(out: &mut String, name: &str, value: &str)
    ensures
        final(out)@ == old(out)@ + label_pair_text(name@, value@),
{
    out.append(name);
    out.append("=\"");
    out.append(value);
    out.append("\"");
    proof {
        assert(out@ =~= old(out)@ + label_pair_text(name@, value@));
    }
}

/// Appends the rendered label set of `labels`, or nothing when it is empty.
pub(crate) fn push_labels(out: &mut String, labels: &[(&str, &str)])
    ensures
        final(out)@ == old(out)@ + labels_text(view_pairs(labels@)),
{
    let ghost pairs = view_pairs(labels@);
    if labels.len() == 0 {
        return ;
    }
    out.append("{");
    let mut i: usize = 0;
    while i < labels.len()
        invariant
            0 <= i <= labels@.len(),
            pairs == view_pairs(labels@),
            pairs.len() == labels@.len(),
            out@ == old(out)@ + "{"@ + labels_body_text(pairs.take(i as int)),
        decreases labels@.len() - i,
    {
        if i > 0 {
            out.append(",");
        }
        let pair = labels[i];
        push_label_pair(out, pair.0, pair.1);
        proof {
            assert(pairs[i as int] == (labels@[i as int].0@, labels@[i as int].1@));
            assert(pairs.take(i + 1).drop_last() =~= pairs.take(i as int));
            assert(pairs.take(i + 1).last() == pairs[i as int]);
            assert(out@ =~= old(out)@ + "{"@ + labels_body_text(pairs.take(i + 1)));
        }
        i += 1;
    }
    out.append("}");
    proof {
        assert(pairs.take(labels@.len() as int) =~= pairs);
        assert(out@ =~= old(out)@ + labels_text(pairs));
    }
}

/// Appends the rendered label set of `labels` with one more pair,
/// `extra_name="extra_value"`, after them; braces are always written since
/// the set is never empty.
pub(crate) fn push_labels_with_extra(
    out: &mut String,
    labels: &[(&str, &str)],
    extra_name: &str,
    extra_value: &str,
)
    ensures
        final(out)@ == old(out)@ + labels_text(
            view_pairs(labels@).push((extra_name@, extra_value@)),
        ),
{
    let ghost pairs = view_pairs(labels@);
    let ghost all = pairs.push((extra_name@, extra_value@));
    out.append("{");
    let mut i: usize = 0;
    while i < labels.len()
        invariant
            0 <= i <= labels@.len(),
            pairs == view_pairs(labels@),
            all == pairs.push((extra_name@, extra_value@)),
            pairs.len() == labels@.len(),
            out@ == old(out)@ + "{"@ + labels_body_text(pairs.take(i as int)),
        decreases labels@.len() - i,
    {
        if i > 0 {
            out.append(",");
        }
        let pair = labels[i];
        push_label_pair(out, pair.0, pair.1);
        proof {
            assert(pairs[i as int] == (labels@[i as int].0@, labels@[i as int].1@));
            assert(pairs.take(i + 1).drop_last() =~= pairs.take(i as int));
            assert(pairs.take(i + 1).last() == pairs[i as int]);
            assert(out@ =~= old(out)@ + "{"@ + labels_body_text(pairs.take(i + 1)));
        }
        i += 1;
    }
    if labels.len() > 0 {
        out.append(",");
    }
    push_label_pair(out, extra_name, extra_value);
    out.append("}");
    proof {
        assert(pairs.take(labels@.len() as int) =~= pairs);
        assert(all.drop_last() =~= pairs);
        assert(all.last() == (extra_name@, extra_value@));
        assert(out@ =~= old(out)@ + labels_text(all));
    }
}

/// Appends ` value timestamp\n`: the tail every sample line shares.
fn push_line_tail(out: &mut String, value: &str, timestamp_ms: u64)
    ensures
        final(out)@ == old(out)@ + " "@ + value@ + " "@ + dec_rep(timestamp_ms as nat) + "\n"@,
{
    out.append(" ");
    out.append(value);
    out.append(" ");
    let stamp = u64_to_dec(timestamp_ms);
    out.append(stamp.as_str());
    out.append("\n");
    proof {
        assert(out@ =~= old(out)@ + " "@ + value@ + " "@ + dec_rep(timestamp_ms as nat) + "\n"@);
    }
}

/// Appends one full sample line for `name` with the given label set.
pub(crate) fn push_sample_line(
    out: &mut String,
    name: &str,
    labels: &[(&str, &str)],
    value: &str,
    timestamp_ms: u64,
)
    ensures
        final(out)@ == old(out)@ + sample_line_text(
            name@,
            view_pairs(labels@),
            value@,
            timestamp_ms as nat,
        ),
{
    out.append(name);
    push_labels(out, labels);
    push_line_tail(out, value, timestamp_ms);
    proof {
        assert(out@ =~= old(out)@ + sample_line_text(
            name@,
            view_pairs(labels@),
            value@,
            timestamp_ms as nat,
        ));
    }
}

/// Appends one full sample line for `name` whose label set is `labels`
/// followed by the pair `extra_name="extra_value"`.
pub(crate) fn push_sample_line_with_extra(
    out: &mut String,
    name: &str,
    labels: &[(&str, &str)],
    extra_name: &str,
    extra_value: &str,
    value: &str,
    timestamp_ms: u64,
)
    ensures
        final(out)@ == old(out)@ + sample_line_text(
            name@,
            view_pairs(labels@).push((extra_name@, extra_value@)),
            value@,
            timestamp_ms as nat,
        ),
{
    out.append(name);
    push_labels_with_extra(out, labels, extra_name, extra_value);
    push_line_tail(out, value, timestamp_ms);
    proof {
        assert(out@ =~= old(out)@ + sample_line_text(
            name@,
            view_pairs(labels@).push((extra_name@, extra_value@)),
            value@,
            timestamp_ms as nat,
        ));
    }
}

/// Appends the two-line `# HELP` / `# TYPE` family header.
pub(crate) fn push_header(out: &mut String, name: &str, help: &str, mtype: &str)
    ensures
        final(out)@ == old(out)@ + header_text(name@, help@, mtype@),
{
    out.append("# HELP ");
    out.append(name);
    out.append(" ");
    out.append(help);
    out.append("\n");
    out.append("# TYPE ");
    out.append(name);
    out.append(" ");
    out.append(mtype);
    out.append("\n");
    proof {
        assert(out@ =~= old(out)@ + header_text(name@, help@, mtype@));
    }
}

} // verus!
