//! General properties of the encoding, stated and proved once over the
//! spec functions of `lines`: how many output lines an emission produces,
//! that histogram cumulation is a monotone running sum, and that the
//! encoding is deterministic.

use vstd::prelude::*;

verus! {

use crate::lines::bucket_lines_text;
use crate::lines::count_sum;
use crate::lines::header_text;
use crate::lines::histogram_block_text;
use crate::lines::label_pair_text;
use crate::lines::labels_body_text;
use crate::lines::labels_text;
use crate::lines::sample_line_text;
use crate::name::is_name_char;
use crate::name::is_valid_name;
use crate::numbers::dec_rep;
use crate::numbers::lemma_dec_rep_digits;
use crate::value::MetricValue;

/// The number of newline-terminated lines in `s`: its count of `'\n'`.
pub open spec fn line_count(s: Seq<char>) -> nat
    decreases s.len(),
{
    if s.len() == 0 {
        0
    } else {
        line_count(s.drop_last()) + if s.last() == '\n' {
            1nat
        } else {
            0nat
        }
    }
}

/// `s` contains no newline.
pub open spec fn newline_free(s: Seq<char>) -> bool {
    forall|i: int| 0 <= i < s.len() ==> s[i] != '\n'
}

/// Every label name and label value of `pairs` is newline-free.
pub open spec fn newline_free_pairs(pairs: Seq<(Seq<char>, Seq<char>)>) -> bool {
    forall|i: int|
        0 <= i < pairs.len() ==> newline_free(#[trigger] pairs[i].0) && newline_free(pairs[i].1)
}

/// Counting lines distributes over concatenation.
pub proof fn lemma_line_count_concat(a: Seq<char>, b: Seq<char>)
    ensures
        line_count(a + b) == line_count(a) + line_count(b),
    decreases b.len(),
{
    if b.len() == 0 {
        assert(a + b =~= a);
    } else {
        lemma_line_count_concat(a, b.drop_last());
        assert((a + b).drop_last() =~= a + b.drop_last());
        assert((a + b).last() == b.last());
    }
}

/// A newline-free text contains no line at all.
pub proof fn lemma_newline_free_count(s: Seq<char>)
    requires
        newline_free(s),
    ensures
        line_count(s) == 0,
    decreases s.len(),
{
    if s.len() > 0 {
        lemma_newline_free_count(s.drop_last());
    }
}

/// Concatenation preserves newline-freeness.
pub proof fn lemma_newline_free_concat(a: Seq<char>, b: Seq<char>)
    requires
        newline_free(a),
        newline_free(b),
    ensures
        newline_free(a + b),
{
    assert forall|i: int| 0 <= i < (a + b).len() implies (a + b)[i] != '\n' by {
        if i < a.len() {
            assert((a + b)[i] == a[i]);
        } else {
            assert((a + b)[i] == b[i - a.len()]);
        }
    }
}

/// The one-character text `"\n"` is one line.
proof fn lemma_one_newline()
    ensures
        line_count("\n"@) == 1,
        "\n"@.last() == '\n',
{
    reveal_strlit("\n");
    assert("\n"@.drop_last() =~= Seq::<char>::empty());
    lemma_newline_free_count("\n"@.drop_last());
}

/// A valid name is newline-free: every character of it is a letter, a
/// digit or an underscore.
pub proof fn lemma_valid_name_newline_free(s: Seq<char>)
    requires
        is_valid_name(s),
    ensures
        newline_free(s),
{
    assert forall|i: int| 0 <= i < s.len() implies s[i] != '\n' by {
        if i >= 1 {
            assert(is_name_char(s[i]));
        }
    }
}

/// A decimal representation is newline-free: it holds digits only.
pub proof fn lemma_dec_rep_newline_free(n: nat)
    ensures
        newline_free(dec_rep(n)),
{
    lemma_dec_rep_digits(n);
}

/// A rendered label set is newline-free when its names and values are.
pub proof fn lemma_labels_text_newline_free(pairs: Seq<(Seq<char>, Seq<char>)>)
    requires
        newline_free_pairs(pairs),
    ensures
        newline_free(labels_text(pairs)),
    decreases pairs.len(),
{
    reveal_strlit("{");
    reveal_strlit("}");
    reveal_strlit(",");
    reveal_strlit("=\"");
    reveal_strlit("\"");
    if pairs.len() > 0 {
        lemma_labels_body_newline_free(pairs);
        lemma_newline_free_concat("{"@, labels_body_text(pairs));
        lemma_newline_free_concat("{"@ + labels_body_text(pairs), "}"@);
    }
}

/// The brace-less joined label pairs are newline-free when the names and
/// values are.
proof fn lemma_labels_body_newline_free(pairs: Seq<(Seq<char>, Seq<char>)>)
    requires
        newline_free_pairs(pairs),
    ensures
        newline_free(labels_body_text(pairs)),
    decreases pairs.len(),
{
    reveal_strlit(",");
    reveal_strlit("=\"");
    reveal_strlit("\"");
    if pairs.len() == 0 {
    } else {
        let last = label_pair_text(pairs.last().0, pairs.last().1);
        lemma_newline_free_concat(pairs.last().0, "=\""@);
        lemma_newline_free_concat(pairs.last().0 + "=\""@, pairs.last().1);
        lemma_newline_free_concat(pairs.last().0 + "=\""@ + pairs.last().1, "\""@);
        if pairs.len() > 1 {
            lemma_labels_body_newline_free(pairs.drop_last());
            lemma_newline_free_concat(labels_body_text(pairs.drop_last()), ","@);
            lemma_newline_free_concat(labels_body_text(pairs.drop_last()) + ","@, last);
        }
    }
}

/// Every sample line is exactly one output line: its text contains one
/// newline, at its end. So the number of data lines a family carries
/// equals the number of samples emitted for it.
pub proof fn lemma_sample_line_one_line(
    name: Seq<char>,
    pairs: Seq<(Seq<char>, Seq<char>)>,
    value: Seq<char>,
    timestamp_ms: nat,
)
    requires
        newline_free(name),
        newline_free_pairs(pairs),
        newline_free(value),
    ensures
        line_count(sample_line_text(name, pairs, value, timestamp_ms)) == 1,
        sample_line_text(name, pairs, value, timestamp_ms).last() == '\n',
{
    reveal_strlit(" ");
    reveal_strlit("\n");
    lemma_labels_text_newline_free(pairs);
    lemma_dec_rep_newline_free(timestamp_ms);
    let body = name + labels_text(pairs) + " "@ + value + " "@ + dec_rep(timestamp_ms);
    assert(newline_free(body));
    lemma_newline_free_count(body);
    lemma_line_count_concat(body, "\n"@);
    assert(sample_line_text(name, pairs, value, timestamp_ms) == body + "\n"@);
    lemma_one_newline();
    assert((body + "\n"@).last() == '\n');
}

/// The family header is exactly two output lines: the `# HELP` comment and
/// the `# TYPE` comment, each newline-terminated.
pub proof fn lemma_header_two_lines(name: Seq<char>, help: Seq<char>, mtype: Seq<char>)
    requires
        newline_free(name),
        newline_free(help),
        newline_free(mtype),
    ensures
        line_count(header_text(name, help, mtype)) == 2,
{
    reveal_strlit("# HELP ");
    reveal_strlit("# TYPE ");
    reveal_strlit(" ");
    reveal_strlit("\n");
    let help_body = "# HELP "@ + name + " "@ + help;
    let type_body = "# TYPE "@ + name + " "@ + mtype;
    assert(newline_free(help_body));
    assert(newline_free(type_body));
    lemma_newline_free_count(help_body);
    lemma_newline_free_count(type_body);
    lemma_line_count_concat(help_body, "\n"@);
    lemma_line_count_concat(type_body, "\n"@);
    lemma_one_newline();
    lemma_line_count_concat(help_body + "\n"@, type_body + "\n"@);
}

/// The text of a family whose samples were emitted in the given order:
/// one sample line per `(label set, value text)` pair.
pub open spec fn samples_text(
    name: Seq<char>,
    samples: Seq<(Seq<(Seq<char>, Seq<char>)>, Seq<char>)>,
    timestamp_ms: nat,
) -> Seq<char>
    decreases samples.len(),
{
    if samples.len() == 0 {
        Seq::<char>::empty()
    } else {
        samples_text(name, samples.drop_last(), timestamp_ms) + sample_line_text(
            name,
            samples.last().0,
            samples.last().1,
            timestamp_ms,
        )
    }
}

/// A counter or gauge family of `n` emitted samples is exactly `2 + n`
/// output lines: one `# HELP` / `# TYPE` pair, then one data line per
/// `value` call.
pub proof fn lemma_family_line_count(
    name: Seq<char>,
    help: Seq<char>,
    mtype: Seq<char>,
    samples: Seq<(Seq<(Seq<char>, Seq<char>)>, Seq<char>)>,
    timestamp_ms: nat,
)
    requires
        is_valid_name(name),
        newline_free(help),
        newline_free(mtype),
        forall|i: int|
            0 <= i < samples.len() ==> newline_free_pairs(#[trigger] samples[i].0) && newline_free(
                samples[i].1,
            ),
    ensures
        line_count(header_text(name, help, mtype) + samples_text(name, samples, timestamp_ms))
            == 2 + samples.len(),
    decreases samples.len(),
{
    lemma_valid_name_newline_free(name);
    if samples.len() == 0 {
        assert(header_text(name, help, mtype) + samples_text(name, samples, timestamp_ms)
            =~= header_text(name, help, mtype));
        lemma_header_two_lines(name, help, mtype);
    } else {
        lemma_family_line_count(name, help, mtype, samples.drop_last(), timestamp_ms);
        let prefix = header_text(name, help, mtype) + samples_text(
            name,
            samples.drop_last(),
            timestamp_ms,
        );
        let last_line = sample_line_text(name, samples.last().0, samples.last().1, timestamp_ms);
        lemma_sample_line_one_line(name, samples.last().0, samples.last().1, timestamp_ms);
        lemma_line_count_concat(prefix, last_line);
        assert(header_text(name, help, mtype) + samples_text(name, samples, timestamp_ms)
            =~= prefix + last_line);
    }
}

/// The bucket line for the `i`-th supplied bucket carries the cumulative
/// count through that bucket: the running sum of the first `i + 1`
/// per-bucket counts, with the bucket's bound as the value of `le` after
/// the caller's labels.
pub proof fn lemma_bucket_line_cumulative(
    name: Seq<char>,
    pairs: Seq<(Seq<char>, Seq<char>)>,
    buckets: Seq<(MetricValue, u64)>,
    timestamp_ms: nat,
    i: int,
)
    requires
        0 <= i < buckets.len(),
    ensures
        bucket_lines_text(name, pairs, buckets.take(i + 1), timestamp_ms) == bucket_lines_text(
            name,
            pairs,
            buckets.take(i),
            timestamp_ms,
        ) + sample_line_text(
            name + "_bucket"@,
            pairs.push(("le"@, crate::value::value_text(buckets[i].0))),
            dec_rep(count_sum(buckets.take(i + 1))),
            timestamp_ms,
        ),
{
    assert(buckets.take(i + 1).drop_last() =~= buckets.take(i));
    assert(buckets.take(i + 1).last() == buckets[i]);
}

/// The cumulative bucket counts are monotonically non-decreasing in
/// emission order: taking more buckets never lowers the running total.
/// In particular the `_count` value, `count_sum` of the whole sequence,
/// is the largest cumulative value of the block.
pub proof fn lemma_cumulative_monotone(buckets: Seq<(MetricValue, u64)>, i: int, j: int)
    requires
        0 <= i <= j <= buckets.len(),
    ensures
        count_sum(buckets.take(i)) <= count_sum(buckets.take(j)),
    decreases j - i,
{
    if i < j {
        lemma_cumulative_monotone(buckets, i, j - 1);
        assert(buckets.take(j).drop_last() =~= buckets.take(j - 1));
    }
}

/// The `_count` value of a histogram block is the plain sum of the
/// supplied per-bucket counts, folded over the sequence in order.
pub proof fn lemma_count_is_bucket_sum(buckets: Seq<(MetricValue, u64)>)
    ensures
        count_sum(buckets) == buckets.fold_left(
            0int,
            |acc: int, bucket: (MetricValue, u64)| acc + bucket.1,
        ),
    decreases buckets.len(),
{
    if buckets.len() > 0 {
        lemma_count_is_bucket_sum(buckets.drop_last());
    }
}

/// Encoding is deterministic: the text of every emission is a function of
/// the inputs alone (no state but the inputs enters the spec functions),
/// so encoding the same inputs twice into two fresh encoders yields
/// byte-identical output. Stated here for the richest emission, a
/// histogram family block; the other emissions' texts are sub-terms of it.
pub proof fn lemma_encoding_deterministic(
    name_a: Seq<char>,
    name_b: Seq<char>,
    help_a: Seq<char>,
    help_b: Seq<char>,
    pairs_a: Seq<(Seq<char>, Seq<char>)>,
    pairs_b: Seq<(Seq<char>, Seq<char>)>,
    buckets_a: Seq<(MetricValue, u64)>,
    buckets_b: Seq<(MetricValue, u64)>,
    sum_a: MetricValue,
    sum_b: MetricValue,
    timestamp_a: nat,
    timestamp_b: nat,
)
    requires
        name_a == name_b,
        help_a == help_b,
        pairs_a == pairs_b,
        buckets_a == buckets_b,
        sum_a == sum_b,
        timestamp_a == timestamp_b,
    ensures
        header_text(name_a, help_a, "histogram"@) + histogram_block_text(
            name_a,
            pairs_a,
            buckets_a,
            sum_a,
            timestamp_a,
        ) == header_text(name_b, help_b, "histogram"@) + histogram_block_text(
            name_b,
            pairs_b,
            buckets_b,
            sum_b,
            timestamp_b,
        ),
{
}

} // verus!
