//! The encoder and its family cursors.
//!
//! A `MetricsEncoder` owns the output text and a fixed timestamp. Opening a
//! family (`counter_vec`, `gauge_vec`, `histogram_vec`) validates the
//! family name and writes its `# HELP` / `# TYPE` header once; the returned
//! cursor then emits one sample line (or one histogram block) per call,
//! all stamped with the encoder's timestamp.

use vstd::prelude::*;

verus! {

use crate::laws::lemma_cumulative_monotone;
use crate::lines::bucket_lines_text;
use crate::lines::count_sum;
use crate::lines::header_text;
use crate::lines::histogram_block_text;
use crate::lines::push_header;
use crate::lines::push_sample_line;
use crate::lines::push_sample_line_with_extra;
use crate::lines::sample_line_text;
use crate::lines::view_pairs;
use crate::name::is_name_error;
use crate::name::is_valid_name;
use crate::name::validate_prometheus_name;
use crate::name::MetricsError;
use crate::numbers::u64_to_dec;
use crate::value::value_text;
use crate::value::MetricValue;
use vstd::slice::slice_index_get;
use vstd::string::StringExecFns;

/// All label names of `labels` are valid Prometheus identifiers.
pub open spec fn labels_valid(labels: Seq<(&str, &str)>) -> bool {
    forall|i: int| 0 <= i < labels.len() ==> is_valid_name(#[trigger] labels[i].0@)
}

/// `e` reports the first invalid label name of `labels`.
pub open spec fn is_first_label_error(e: MetricsError, labels: Seq<(&str, &str)>) -> bool {
    exists|i: int|
        0 <= i < labels.len() && !is_valid_name(#[trigger] labels[i].0@) && is_name_error(
            e,
            labels[i].0@,
        ) && (forall|j: int| 0 <= j < i ==> is_valid_name(#[trigger] labels[j].0@))
}

/// Checks every label name, in order, and reports the first invalid one.
fn validate_labels(labels: &[(&str, &str)]) -> (r: Result<(), MetricsError>)
    ensures
        r is Ok <==> labels_valid(labels@),
        r matches Err(e) ==> is_first_label_error(e, labels@),
{
    let mut i: usize = 0;
    while i < labels.len()
        invariant
            0 <= i <= labels@.len(),
            forall|j: int| 0 <= j < i ==> is_valid_name(#[trigger] labels@[j].0@),
        decreases labels@.len() - i,
    {
        let pair = slice_index_get(labels, i);
        match validate_prometheus_name(pair.0) {
            Ok(()) => {},
            Err(e) => {
                return Err(e);
            },
        }
        i += 1;
    }
    Ok(())
}

/// The encoder: the output text accumulated so far, and the one timestamp
/// stamped onto every sample line.
pub struct MetricsEncoder {
    pub(crate) out: String,
    pub(crate) timestamp_ms: u64,
}

/// A cursor bound to a counter or gauge family whose header has been
/// written; each `value` call emits one sample line of that family.
pub struct FamilyCursor {
    pub(crate) name: String,
}

/// A cursor bound to a histogram family whose header has been written;
/// each `histogram` call emits one full bucket/sum/count block.
pub struct HistogramCursor {
    pub(crate) name: String,
}

impl MetricsEncoder {
    /// The output text accumulated so far.
    pub closed spec fn text(&self) -> Seq<char> {
        self.out@
    }

    /// The timestamp every sample line carries, in milliseconds.
    pub closed spec fn stamp(&self) -> nat {
        self.timestamp_ms as nat
    }

    /// A fresh encoder over `sink`, appending after any text already in
    /// it, stamping every sample with `timestamp_ms`.
    pub fn new(sink: String, timestamp_ms: u64) -> (enc: MetricsEncoder)
        ensures
            enc.text() == sink@,
            enc.stamp() == timestamp_ms as nat,
    {
        MetricsEncoder { out: sink, timestamp_ms }
    }

    /// Hands the accumulated output back to the caller.
    pub fn into_inner(self) -> (out: String)
        ensures
            out@ == self.text(),
    {
        self.out
    }

    /// Validates `name` and writes the family header; shared by the three
    /// family kinds.
    fn begin_family(&mut self, name: &str, help: &str, mtype: &str) -> (r: Result<
        String,
        MetricsError,
    >)
        ensures
            final(self).stamp() == old(self).stamp(),
            r is Ok <==> is_valid_name(name@),
            r matches Ok(owned) ==> owned@ == name@ && final(self).text() == old(self).text()
                + header_text(name@, help@, mtype@),
            r matches Err(e) ==> final(self).text() == old(self).text() && is_name_error(
                e,
                name@,
            ),
    {
        match validate_prometheus_name(name) {
            Err(e) => Err(e),
            Ok(()) => {
                push_header(&mut self.out, name, help, mtype);
                Ok(String::from_str(name))
            },
        }
    }

    /// Opens a counter family: validates `name`, writes its header with
    /// type `counter`, and returns the cursor that emits its samples.
    /// Fails, writing nothing, exactly when `name` is invalid.
    pub fn counter_vec(&mut self, name: &str, help: &str) -> (r: Result<
        FamilyCursor,
        MetricsError,
    >)
        ensures
            final(self).stamp() == old(self).stamp(),
            r is Ok <==> is_valid_name(name@),
            r matches Ok(cursor) ==> cursor.family() == name@ && final(self).text() == old(
                self,
            ).text() + header_text(name@, help@, "counter"@),
            r matches Err(e) ==> final(self).text() == old(self).text() && is_name_error(
                e,
                name@,
            ),
    {
        match self.begin_family(name, help, "counter") {
            Ok(owned) => Ok(FamilyCursor { name: owned }),
            Err(e) => Err(e),
        }
    }

    /// Opens a gauge family: as `counter_vec`, with type `gauge`.
    pub fn gauge_vec(&mut self, name: &str, help: &str) -> (r: Result<FamilyCursor, MetricsError>)
        ensures
            final(self).stamp() == old(self).stamp(),
            r is Ok <==> is_valid_name(name@),
            r matches Ok(cursor) ==> cursor.family() == name@ && final(self).text() == old(
                self,
            ).text() + header_text(name@, help@, "gauge"@),
            r matches Err(e) ==> final(self).text() == old(self).text() && is_name_error(
                e,
                name@,
            ),
    {
        match self.begin_family(name, help, "gauge") {
            Ok(owned) => Ok(FamilyCursor { name: owned }),
            Err(e) => Err(e),
        }
    }

    /// Opens a histogram family: as `counter_vec`, with type `histogram`;
    /// the cursor emits one full histogram block per label combination.
    pub fn histogram_vec(&mut self, name: &str, help: &str) -> (r: Result<
        HistogramCursor,
        MetricsError,
    >)
        ensures
            final(self).stamp() == old(self).stamp(),
            r is Ok <==> is_valid_name(name@),
            r matches Ok(cursor) ==> cursor.family() == name@ && final(self).text() == old(
                self,
            ).text() + header_text(name@, help@, "histogram"@),
            r matches Err(e) ==> final(self).text() == old(self).text() && is_name_error(
                e,
                name@,
            ),
    {
        match self.begin_family(name, help, "histogram") {
            Ok(owned) => Ok(HistogramCursor { name: owned }),
            Err(e) => Err(e),
        }
    }

    /// Encodes one unlabeled histogram in full: header, one `_bucket` line
    /// per supplied bucket with the cumulative count through it, then
    /// `_sum` and `_count`. `_count` is the sum of the supplied per-bucket
    /// counts; no `+Inf` bucket is synthesized when the caller omits one.
    /// Fails, writing nothing, exactly when `name` is invalid.
    pub fn encode_histogram(
        &mut self,
        name: &str,
        buckets: &[(MetricValue, u64)],
        sum: &MetricValue,
        help: &str,
    ) -> (r: Result<(), MetricsError>)
        requires
            count_sum(buckets@) <= u64::MAX,
        ensures
            final(self).stamp() == old(self).stamp(),
            r is Ok <==> is_valid_name(name@),
            r is Ok ==> final(self).text() == old(self).text() + header_text(
                name@,
                help@,
                "histogram"@,
            ) + histogram_block_text(
                name@,
                Seq::empty(),
                buckets@,
                *sum,
                old(self).stamp(),
            ),
            r matches Err(e) ==> final(self).text() == old(self).text() && is_name_error(
                e,
                name@,
            ),
    {
        let cursor = match self.histogram_vec(name, help) {
            Ok(cursor) => cursor,
            Err(e) => {
                return Err(e);
            },
        };
        let labels: [(&str, &str); 0] = [];
        proof {
            assert(view_pairs(labels@) =~= Seq::<(Seq<char>, Seq<char>)>::empty());
        }
        push_histogram_block(
            &mut self.out,
            cursor.name.as_str(),
            &labels,
            buckets,
            sum,
            self.timestamp_ms,
        );
        Ok(())
    }
}

impl FamilyCursor {
    /// The family name the cursor is bound to.
    pub closed spec fn family(&self) -> Seq<char> {
        self.name@
    }

    /// Emits one sample line of this family: the family name, `labels` in
    /// the order given, the value and the encoder's timestamp. Fails,
    /// writing nothing, exactly when some label name is invalid, and then
    /// reports the first such name.
    pub fn value(&self, enc: &mut MetricsEncoder, labels: &[(&str, &str)], value: &MetricValue)
        -> (r: Result<(), MetricsError>)
        ensures
            final(enc).stamp() == old(enc).stamp(),
            r is Ok <==> labels_valid(labels@),
            r is Ok ==> final(enc).text() == old(enc).text() + sample_line_text(
                self.family(),
                view_pairs(labels@),
                value_text(*value),
                old(enc).stamp(),
            ),
            r matches Err(e) ==> final(enc).text() == old(enc).text() && is_first_label_error(
                e,
                labels@,
            ),
    {
        match validate_labels(labels) {
            Err(e) => Err(e),
            Ok(()) => {
                let rendered = value.render();
                push_sample_line(
                    &mut enc.out,
                    self.name.as_str(),
                    labels,
                    rendered.as_str(),
                    enc.timestamp_ms,
                );
                Ok(())
            },
        }
    }
}

impl HistogramCursor {
    /// The family name the cursor is bound to.
    pub closed spec fn family(&self) -> Seq<char> {
        self.name@
    }

    /// Emits one full histogram block for one label combination: a
    /// `_bucket` line per supplied bucket carrying `labels` first and then
    /// `le` with the bucket's bound, the cumulative count through that
    /// bucket as value; then `_sum` and `_count` lines carrying `labels`.
    /// Fails, writing nothing, exactly when some label name is invalid,
    /// and then reports the first such name.
    pub fn histogram(
        &self,
        enc: &mut MetricsEncoder,
        labels: &[(&str, &str)],
        buckets: &[(MetricValue, u64)],
        sum: &MetricValue,
    ) -> (r: Result<(), MetricsError>)
        requires
            count_sum(buckets@) <= u64::MAX,
        ensures
            final(enc).stamp() == old(enc).stamp(),
            r is Ok <==> labels_valid(labels@),
            r is Ok ==> final(enc).text() == old(enc).text() + histogram_block_text(
                self.family(),
                view_pairs(labels@),
                buckets@,
                *sum,
                old(enc).stamp(),
            ),
            r matches Err(e) ==> final(enc).text() == old(enc).text() && is_first_label_error(
                e,
                labels@,
            ),
    {
        match validate_labels(labels) {
            Err(e) => Err(e),
            Ok(()) => {
                push_histogram_block(
                    &mut enc.out,
                    self.name.as_str(),
                    labels,
                    buckets,
                    sum,
                    enc.timestamp_ms,
                );
                Ok(())
            },
        }
    }
}

/// The total of the per-bucket counts, or `None` when it does not fit in
/// `u64`. `Some` establishes the bound the histogram emitters require of
/// their callers.
pub fn counts_total(buckets: &[(MetricValue, u64)]) -> (r: Option<u64>)
    ensures
        r is Some <==> count_sum(buckets@) <= u64::MAX,
        r matches Some(total) ==> total as nat == count_sum(buckets@),
{
    let mut total: u64 = 0;
    let mut i: usize = 0;
    proof {
        assert(buckets@.take(0) =~= Seq::<(MetricValue, u64)>::empty());
    }
    while i < buckets.len()
        invariant
            0 <= i <= buckets@.len(),
            total as nat == count_sum(buckets@.take(i as int)),
        decreases buckets@.len() - i,
    {
        let bucket = slice_index_get(buckets, i);
        proof {
            assert(buckets@.take(i + 1).drop_last() =~= buckets@.take(i as int));
            assert(buckets@.take(i + 1).last() == buckets@[i as int]);
        }
        if bucket.1 > u64::MAX - total {
            proof {
                lemma_cumulative_monotone(buckets@, i + 1, buckets@.len() as int);
                assert(buckets@.take(buckets@.len() as int) =~= buckets@);
            }
            return None;
        }
        total = total + bucket.1;
        i += 1;
    }
    proof {
        assert(buckets@.take(buckets@.len() as int) =~= buckets@);
    }
    Some(total)
}

/// Appends one histogram block: the `_bucket` lines with their cumulative
/// counts, then the `_sum` and `_count` lines.
fn push_histogram_block(
    out: &mut String,
    name: &str,
    labels: &[(&str, &str)],
    buckets: &[(MetricValue, u64)],
    sum: &MetricValue,
    timestamp_ms: u64,
)
    requires
        count_sum(buckets@) <= u64::MAX,
    ensures
        final(out)@ == old(out)@ + histogram_block_text(
            name@,
            view_pairs(labels@),
            buckets@,
            *sum,
            timestamp_ms as nat,
        ),
{
    let mut bucket_name = String::from_str(name);
    bucket_name.append("_bucket");
    let mut cumulative: u64 = 0;
    let mut i: usize = 0;
    proof {
        assert(buckets@.take(0) =~= Seq::<(MetricValue, u64)>::empty());
    }
    while i < buckets.len()
        invariant
            0 <= i <= buckets@.len(),
            count_sum(buckets@) <= u64::MAX,
            cumulative as nat == count_sum(buckets@.take(i as int)),
            bucket_name@ == name@ + "_bucket"@,
            out@ == old(out)@ + bucket_lines_text(
                name@,
                view_pairs(labels@),
                buckets@.take(i as int),
                timestamp_ms as nat,
            ),
        decreases buckets@.len() - i,
    {
        let bucket = slice_index_get(buckets, i);
        let bound = bucket.0.render();
        proof {
            assert(buckets@.take(i + 1).drop_last() =~= buckets@.take(i as int));
            assert(buckets@.take(i + 1).last() == buckets@[i as int]);
            lemma_cumulative_monotone(buckets@, i + 1, buckets@.len() as int);
            assert(buckets@.take(buckets@.len() as int) =~= buckets@);
        }
        cumulative = cumulative + bucket.1;
        let rendered = u64_to_dec(cumulative);
        push_sample_line_with_extra(
            out,
            bucket_name.as_str(),
            labels,
            "le",
            bound.as_str(),
            rendered.as_str(),
            timestamp_ms,
        );
        proof {
            assert(out@ =~= old(out)@ + bucket_lines_text(
                name@,
                view_pairs(labels@),
                buckets@.take(i + 1),
                timestamp_ms as nat,
            ));
        }
        i += 1;
    }
    proof {
        assert(buckets@.take(buckets@.len() as int) =~= buckets@);
    }
    let mut sum_name = String::from_str(name);
    sum_name.append("_sum");
    let sum_rendered = sum.render();
    push_sample_line(out, sum_name.as_str(), labels, sum_rendered.as_str(), timestamp_ms);
    let mut count_name = String::from_str(name);
    count_name.append("_count");
    let count_rendered = u64_to_dec(cumulative);
    push_sample_line(out, count_name.as_str(), labels, count_rendered.as_str(), timestamp_ms);
    proof {
        assert(out@ =~= old(out)@ + histogram_block_text(
            name@,
            view_pairs(labels@),
            buckets@,
            *sum,
            timestamp_ms as nat,
        ));
    }
}

/// The accumulated output as a `String`: hands the encoder's buffer on.
pub fn as_string(encoder: MetricsEncoder) -> (out: String)
    ensures
        out@ == encoder.text(),
{
    encoder.into_inner()
}

} // verus!
