use prom_text::as_string;
use prom_text::MetricValue;
use prom_text::MetricsEncoder;

fn value_of(x: f64) -> MetricValue {
    if x == f64::INFINITY {
        MetricValue::PosInf
    } else if x == f64::NEG_INFINITY {
        MetricValue::NegInf
    } else {
        MetricValue::Finite(format!("{}", x))
    }
}

#[test]
fn test_labeled_counter_metrics() {
    let mut encoder = MetricsEncoder::new(String::new(), 1395066363000);
    let cursor = encoder
        .counter_vec("http_requests_total", "The total number of HTTP requests.")
        .unwrap();
    cursor
        .value(
            &mut encoder,
            &[("method", "post"), ("code", "200")],
            &value_of(1027.0),
        )
        .unwrap();
    cursor
        .value(
            &mut encoder,
            &[("method", "post"), ("code", "400")],
            &value_of(3.0),
        )
        .unwrap();

    assert_eq!(
        r#"# HELP http_requests_total The total number of HTTP requests.
# TYPE http_requests_total counter
http_requests_total{method="post",code="200"} 1027 1395066363000
http_requests_total{method="post",code="400"} 3 1395066363000
"#,
        as_string(encoder)
    );
}

#[test]
fn test_labeled_gauge_metrics() {
    let mut encoder = MetricsEncoder::new(String::new(), 1395066363000);
    let cursor = encoder
        .gauge_vec("cpu_temperature", "CPU temperature in celsius.")
        .unwrap();
    cursor
        .value(&mut encoder, &[("core", "1")], &value_of(40.0))
        .unwrap();
    cursor
        .value(&mut encoder, &[("core", "2")], &value_of(43.0))
        .unwrap();

    assert_eq!(
        r#"# HELP cpu_temperature CPU temperature in celsius.
# TYPE cpu_temperature gauge
cpu_temperature{core="1"} 40 1395066363000
cpu_temperature{core="2"} 43 1395066363000
"#,
        as_string(encoder)
    );
}

#[test]
fn test_histogram() {
    let mut encoder = MetricsEncoder::new(String::new(), 1395066363000);
    encoder
        .encode_histogram(
            "http_request_duration_seconds",
            &[
                (value_of(0.05), 24054),
                (value_of(0.1), 33444 - 24054),
                (value_of(0.2), 100392 - 33444),
                (value_of(0.5), 129389 - 100392),
                (value_of(1.0), 133988 - 129389),
                (value_of(f64::INFINITY), 144320 - 133988),
            ],
            &value_of(53423.0),
            "A histogram of the request duration.",
        )
        .unwrap();

    assert_eq!(
        r#"# HELP http_request_duration_seconds A histogram of the request duration.
# TYPE http_request_duration_seconds histogram
http_request_duration_seconds_bucket{le="0.05"} 24054 1395066363000
http_request_duration_seconds_bucket{le="0.1"} 33444 1395066363000
http_request_duration_seconds_bucket{le="0.2"} 100392 1395066363000
http_request_duration_seconds_bucket{le="0.5"} 129389 1395066363000
http_request_duration_seconds_bucket{le="1"} 133988 1395066363000
http_request_duration_seconds_bucket{le="+Inf"} 144320 1395066363000
http_request_duration_seconds_sum 53423 1395066363000
http_request_duration_seconds_count 144320 1395066363000
"#,
        as_string(encoder)
    );
}

#[test]
fn test_histogram_no_infinity() {
    let mut encoder = MetricsEncoder::new(String::new(), 1395066363000);
    encoder
        .encode_histogram(
            "http_request_duration_seconds",
            &[
                (value_of(0.05), 24054),
                (value_of(0.1), 33444 - 24054),
                (value_of(0.2), 100392 - 33444),
                (value_of(0.5), 129389 - 100392),
                (value_of(1.0), 133988 - 129389),
                (value_of(2.0), 144320 - 133988),
            ],
            &value_of(53423.0),
            "A histogram of the request duration.",
        )
        .unwrap();

    // No +Inf bucket is synthesized when the caller omits one: the bucket
    // lines are exactly the supplied buckets, and _count is the cumulative
    // total through the last supplied bucket.
    assert_eq!(
        r#"# HELP http_request_duration_seconds A histogram of the request duration.
# TYPE http_request_duration_seconds histogram
http_request_duration_seconds_bucket{le="0.05"} 24054 1395066363000
http_request_duration_seconds_bucket{le="0.1"} 33444 1395066363000
http_request_duration_seconds_bucket{le="0.2"} 100392 1395066363000
http_request_duration_seconds_bucket{le="0.5"} 129389 1395066363000
http_request_duration_seconds_bucket{le="1"} 133988 1395066363000
http_request_duration_seconds_bucket{le="2"} 144320 1395066363000
http_request_duration_seconds_sum 53423 1395066363000
http_request_duration_seconds_count 144320 1395066363000
"#,
        as_string(encoder)
    );
}

#[test]
fn test_histogram_vec() {
    let mut encoder = MetricsEncoder::new(String::new(), 1395066363000);
    let cursor = encoder
        .histogram_vec(
            "http_request_duration_seconds",
            "A histogram of the request duration.",
        )
        .unwrap();
    cursor
        .histogram(
            &mut encoder,
            &[("backend", "canary")],
            &[
                (value_of(0.05), 24054),
                (value_of(0.1), 33444 - 24054),
                (value_of(0.2), 100392 - 33444),
                (value_of(0.5), 129389 - 100392),
                (value_of(1.0), 133988 - 129389),
                (value_of(f64::INFINITY), 144320 - 133988),
            ],
            &value_of(53423.0),
        )
        .unwrap();
    cursor
        .histogram(
            &mut encoder,
            &[("backend", "stable")],
            &[
                (value_of(0.05), 24054),
                (value_of(0.1), 33444 - 24054),
                (value_of(0.2), 100392 - 33444),
                (value_of(0.5), 129389 - 100392),
                (value_of(1.0), 133988 - 129389),
                (value_of(f64::INFINITY), 144320 - 133988),
            ],
            &value_of(53423.0),
        )
        .unwrap();

    assert_eq!(
        r#"# HELP http_request_duration_seconds A histogram of the request duration.
# TYPE http_request_duration_seconds histogram
http_request_duration_seconds_bucket{backend="canary",le="0.05"} 24054 1395066363000
http_request_duration_seconds_bucket{backend="canary",le="0.1"} 33444 1395066363000
http_request_duration_seconds_bucket{backend="canary",le="0.2"} 100392 1395066363000
http_request_duration_seconds_bucket{backend="canary",le="0.5"} 129389 1395066363000
http_request_duration_seconds_bucket{backend="canary",le="1"} 133988 1395066363000
http_request_duration_seconds_bucket{backend="canary",le="+Inf"} 144320 1395066363000
http_request_duration_seconds_sum{backend="canary"} 53423 1395066363000
http_request_duration_seconds_count{backend="canary"} 144320 1395066363000
http_request_duration_seconds_bucket{backend="stable",le="0.05"} 24054 1395066363000
http_request_duration_seconds_bucket{backend="stable",le="0.1"} 33444 1395066363000
http_request_duration_seconds_bucket{backend="stable",le="0.2"} 100392 1395066363000
http_request_duration_seconds_bucket{backend="stable",le="0.5"} 129389 1395066363000
http_request_duration_seconds_bucket{backend="stable",le="1"} 133988 1395066363000
http_request_duration_seconds_bucket{backend="stable",le="+Inf"} 144320 1395066363000
http_request_duration_seconds_sum{backend="stable"} 53423 1395066363000
http_request_duration_seconds_count{backend="stable"} 144320 1395066363000
"#,
        as_string(encoder)
    );
}

#[test]
fn encoding_twice_is_identical() {
    let mut outputs: Vec<String> = Vec::new();
    for _ in 0..2 {
        let mut encoder = MetricsEncoder::new(String::new(), 1395066363000);
        let cursor = encoder
            .counter_vec("http_requests_total", "The total number of HTTP requests.")
            .unwrap();
        cursor
            .value(
                &mut encoder,
                &[("method", "post"), ("code", "200")],
                &value_of(1027.0),
            )
            .unwrap();
        encoder
            .encode_histogram(
                "http_request_duration_seconds",
                &[(value_of(1.0), 3), (value_of(f64::INFINITY), 4)],
                &value_of(5.5),
                "A histogram of the request duration.",
            )
            .unwrap();
        outputs.push(as_string(encoder));
    }
    assert_eq!(outputs[0], outputs[1]);
    assert_eq!(outputs[0].as_bytes(), outputs[1].as_bytes());
}

#[test]
fn empty_label_set_omits_braces() {
    let mut encoder = MetricsEncoder::new(String::new(), 42);
    let cursor = encoder.counter_vec("requests", "Requests.").unwrap();
    cursor.value(&mut encoder, &[], &value_of(7.0)).unwrap();

    assert_eq!(
        r#"# HELP requests Requests.
# TYPE requests counter
requests 7 42
"#,
        as_string(encoder)
    );
}

#[test]
fn empty_bucket_sequence() {
    let mut encoder = MetricsEncoder::new(String::new(), 42);
    encoder
        .encode_histogram("latency", &[], &value_of(0.0), "Latency.")
        .unwrap();

    assert_eq!(
        r#"# HELP latency Latency.
# TYPE latency histogram
latency_sum 0 42
latency_count 0 42
"#,
        as_string(encoder)
    );
}

#[test]
fn invalid_family_name_writes_nothing() {
    let mut encoder = MetricsEncoder::new(String::new(), 42);
    assert!(encoder.counter_vec("2bad", "Help.").is_err());
    assert!(encoder.gauge_vec("", "Help.").is_err());
    assert!(encoder
        .encode_histogram("no:good", &[(value_of(1.0), 1)], &value_of(1.0), "Help.")
        .is_err());
    assert_eq!("", as_string(encoder));
}

#[test]
fn invalid_label_name_writes_nothing() {
    let mut encoder = MetricsEncoder::new(String::new(), 42);
    let cursor = encoder.counter_vec("requests", "Requests.").unwrap();
    let err = cursor
        .value(&mut encoder, &[("ok", "1"), ("bad-label", "2")], &value_of(1.0))
        .unwrap_err();
    assert_eq!(
        "Name 'bad-label' does not match pattern [a-zA-Z_][a-zA-Z0-9_]*",
        err.message()
    );
    // Only the family header stands; the rejected sample left no bytes.
    assert_eq!(
        r#"# HELP requests Requests.
# TYPE requests counter
"#,
        as_string(encoder)
    );
}

#[test]
fn counts_total_checks_the_sum() {
    assert_eq!(
        Some(144320),
        prom_text::counts_total(&[
            (value_of(1.0), 133988),
            (value_of(f64::INFINITY), 144320 - 133988),
        ])
    );
    assert_eq!(Some(0), prom_text::counts_total(&[]));
    assert_eq!(
        None,
        prom_text::counts_total(&[(value_of(1.0), u64::MAX), (value_of(2.0), 1)])
    );
}

#[test]
fn encoder_appends_to_existing_sink() {
    let mut encoder = MetricsEncoder::new(String::from("# earlier\n"), 7);
    let cursor = encoder.gauge_vec("up", "Whether up.").unwrap();
    cursor.value(&mut encoder, &[], &value_of(1.0)).unwrap();
    assert_eq!(
        "# earlier\n# HELP up Whether up.\n# TYPE up gauge\nup 1 7\n",
        as_string(encoder)
    );
}
