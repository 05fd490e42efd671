//! The numeric values that appear on sample lines.
//!
//! The exposition format renders an IEEE-754 double either as `+Inf`,
//! `-Inf`, or as a shortest-round-trip decimal token in which an integral
//! value carries no trailing `.0`. The encoder works on that rendering: a
//! finite value arrives as its decimal token (produced by the caller's
//! float formatter), the two infinities as their own variants, so that the
//! rule mapping a value to its output text is stated and checked here.

use vstd::prelude::*;

verus! {

use crate::numbers::dec_rep;
use crate::numbers::u64_to_dec;
use vstd::string::StringExecFns;

/// A numeric sample value or histogram bucket bound, as it is rendered.
pub enum MetricValue {
    /// A finite value, held as its decimal token (`"1027"`, `"0.05"`).
    Finite(String),
    /// Positive infinity, rendered `+Inf`; the conventional bound of the
    /// last histogram bucket.
    PosInf,
    /// Negative infinity, rendered `-Inf`.
    NegInf,
}

/// The text a value puts on a sample line: the finite token verbatim,
/// `+Inf` and `-Inf` for the infinities.
pub open spec fn value_text(v: MetricValue) -> Seq<char> {
    match v {
        MetricValue::Finite(t) => t@,
        MetricValue::PosInf => "+Inf"@,
        MetricValue::NegInf => "-Inf"@,
    }
}

impl MetricValue {
    /// A finite integral value: rendered as its plain decimal digits,
    /// matching the convention that integral doubles carry no `.0`.
    pub fn integer(n: u64) -> (v: MetricValue)
        ensures
            value_text(v) == dec_rep(n as nat),
    {
        MetricValue::Finite(u64_to_dec(n))
    }

    /// The rendered form of this value.
    pub fn render(&self) -> (s: String)
        ensures
            s@ == value_text(*self),
    {
        match self {
            MetricValue::Finite(t) => t.clone(),
            MetricValue::PosInf => String::from_str("+Inf"),
            MetricValue::NegInf => String::from_str("-Inf"),
        }
    }
}

} // verus!
