//! Encoder for the Prometheus text exposition format.
//!
//! The encoder accumulates `# HELP` / `# TYPE` headers and labeled sample
//! lines for counter, gauge and histogram metric families into an owned
//! text buffer, stamping every sample with one fixed timestamp.

pub mod encoder;
pub mod laws;
pub mod lines;
pub mod name;
pub mod numbers;
pub mod value;

pub use encoder::as_string;
pub use encoder::counts_total;
pub use encoder::FamilyCursor;
pub use encoder::HistogramCursor;
pub use encoder::MetricsEncoder;
pub use name::validate_prometheus_name;
pub use name::MetricsError;
pub use value::MetricValue;
