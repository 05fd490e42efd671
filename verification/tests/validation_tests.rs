use prom_text::validate_prometheus_name;
use prom_text::MetricValue;
use prom_text::MetricsError;

#[test]
fn validate_empty_name() {
    let err = validate_prometheus_name("").unwrap_err();
    assert!(matches!(err, MetricsError::InvalidNameEmpty));
    assert_eq!("Empty names are not allowed", err.message());
}

#[test]
fn validate_unicode_name() {
    let err = validate_prometheus_name("⇒Γ").unwrap_err();
    assert_eq!(
        "Name '⇒Γ' does not match pattern [a-zA-Z_][a-zA-Z0-9_]*",
        err.message()
    );
}

#[test]
fn validate_rule_name() {
    let err = validate_prometheus_name("http:rule").unwrap_err();
    assert_eq!(
        "Name 'http:rule' does not match pattern [a-zA-Z_][a-zA-Z0-9_]*",
        err.message()
    );
}

#[test]
fn validate_accepts_well_formed_names() {
    assert!(validate_prometheus_name("http_requests_total").is_ok());
    assert!(validate_prometheus_name("_private").is_ok());
    assert!(validate_prometheus_name("A9_b").is_ok());
    assert!(validate_prometheus_name("x").is_ok());
}

#[test]
fn validate_rejects_leading_digit() {
    let err = validate_prometheus_name("9lives").unwrap_err();
    assert_eq!(
        "Name '9lives' does not match pattern [a-zA-Z_][a-zA-Z0-9_]*",
        err.message()
    );
}

#[test]
fn write_failure_message() {
    let err = MetricsError::WriteFailure;
    assert_eq!("Write to the underlying sink failed", err.message());
}

#[test]
fn bound_formatting_round_trip() {
    assert_eq!("1", MetricValue::Finite(format!("{}", 1.0f64)).render());
    assert_eq!("0.05", MetricValue::Finite(format!("{}", 0.05f64)).render());
    assert_eq!("+Inf", MetricValue::PosInf.render());
    assert_eq!("-Inf", MetricValue::NegInf.render());
}

#[test]
fn integer_values_render_as_decimal() {
    assert_eq!("0", MetricValue::integer(0).render());
    assert_eq!("1027", MetricValue::integer(1027).render());
    assert_eq!("144320", MetricValue::integer(144320).render());
    assert_eq!(
        "18446744073709551615",
        MetricValue::integer(u64::MAX).render()
    );
}
