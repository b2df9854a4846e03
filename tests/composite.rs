use prometheus::{Histogram, HistogramOpts, Registry, TextEncoder};
use prometheus_macros::{Composite, Decl, Metric, MetricError, MetricKind, Opts};

fn parse_name(enc: &str) -> &str {
    enc.lines()
        .next()
        .expect("mutliple lines")
        .split(' ')
        .nth(2)
        .expect("description line")
}

fn parse_description(enc: &str) -> &str {
    enc.lines()
        .next()
        .expect("mutliple lines")
        .split(' ')
        .nth(3)
        .expect("description line")
}

fn parse_type(enc: &str) -> &str {
    enc.lines()
        .nth(1)
        .expect("mutliple lines")
        .split(' ')
        .nth(3)
        .expect("type line")
}

fn parse_labels(enc: &str) -> Vec<&str> {
    let (_, s) = enc
        .lines()
        .nth(2)
        .expect("mutliple lines")
        .split_once('{')
        .unwrap();
    let (s, _) = s.split_once('}').unwrap();
    s.split(',')
        .filter_map(|s| {
            let (l, _) = s.split_once('=')?;
            Some(l)
        })
        .collect()
}

fn encode(reg: &Registry) -> String {
    TextEncoder::new().encode_to_string(&reg.gather()).unwrap()
}

#[test]
fn compose_metric_and_encode() {
    let decls = vec![
        Decl::new("gauge_metric_1", Opts::new("example_gauge_1", "description"), MetricKind::Gauge),
        Decl::new("gauge_metric_2", Opts::new("example_gauge_2", "description"), MetricKind::Gauge),
    ];
    let mut reg = Registry::new();
    let metric = Composite::register(&mut reg, decls).unwrap();
    metric.gauge("gauge_metric_1").unwrap().handle.inc();
    metric.gauge("gauge_metric_2").unwrap().handle.inc();

    let enc = encode(&reg);

    assert_eq!(
        enc,
        r#"# HELP example_gauge_1 description
# TYPE example_gauge_1 gauge
example_gauge_1 1
# HELP example_gauge_2 description
# TYPE example_gauge_2 gauge
example_gauge_2 1
"#
    );
}

#[test]
fn with_name_desc() {
    let decls = vec![Decl::new(
        "gauge_metric",
        Opts::new("example_gauge", "description"),
        MetricKind::Gauge,
    )];
    let mut reg = Registry::new();
    let metric = Composite::register(&mut reg, decls).unwrap();
    metric.gauge("gauge_metric").unwrap().handle.inc();
    let enc = encode(&reg);

    assert_eq!(parse_name(&enc), "example_gauge");
    assert_eq!(parse_description(&enc), "description");
    assert_eq!(parse_type(&enc), "gauge");
}

#[test]
fn with_labels() {
    let decls = vec![Decl::new(
        "gauge_vec_metric",
        Opts::new("example_gauge_vec", "description").with_labels(&["label1", "label2"]),
        MetricKind::GaugeVec,
    )];
    let mut reg = Registry::new();
    let metric = Composite::register(&mut reg, decls).unwrap();
    metric
        .gauge_vec("gauge_vec_metric")
        .unwrap()
        .handle
        .with_label_values(&["a", "b"])
        .inc();
    let enc = encode(&reg);

    assert_eq!(parse_name(&enc), "example_gauge_vec");
    assert_eq!(parse_description(&enc), "description");
    assert_eq!(parse_type(&enc), "gauge");
    assert_eq!(parse_labels(&enc), vec!["label1", "label2"]);
}

#[test]
fn scalar_gauge_exposes_help_type_and_sample() {
    let decls = vec![Decl::new(
        "gauge_metric",
        Opts::new("example_gauge", "description"),
        MetricKind::Gauge,
    )];
    let mut reg = Registry::new();
    let metric = Composite::register(&mut reg, decls).unwrap();
    metric.gauge("gauge_metric").unwrap().handle.inc();
    let enc = encode(&reg);
    assert_eq!(
        enc,
        "# HELP example_gauge description\n# TYPE example_gauge gauge\nexample_gauge 1\n"
    );
}

#[test]
fn gauge_vec_sample_carries_label_values() {
    let decls = vec![Decl::new(
        "gauge_vec_metric",
        Opts::new("example_gauge_vec", "description").with_labels(&["label1", "label2"]),
        MetricKind::GaugeVec,
    )];
    let mut reg = Registry::new();
    let metric = Composite::register(&mut reg, decls).unwrap();
    metric
        .gauge_vec("gauge_vec_metric")
        .unwrap()
        .handle
        .with_label_values(&["a", "b"])
        .inc();
    let enc = encode(&reg);
    assert!(enc.contains("example_gauge_vec{label1=\"a\",label2=\"b\"} 1\n"));
}

#[test]
fn registers_every_declared_field() {
    let decls = vec![
        Decl::new("requests", Opts::new("requests_total", "requests seen"), MetricKind::Counter),
        Decl::new("inflight", Opts::new("inflight", "requests in flight"), MetricKind::IntGauge),
        Decl::new(
            "latency",
            Opts::new("latency_seconds", "request latency").with_labels(&["route"]),
            MetricKind::HistogramVec,
        ),
    ];
    let mut reg = Registry::new();
    let metric = Composite::register(&mut reg, decls).unwrap();
    assert_eq!(metric.len(), 3);
    metric
        .histogram_vec("latency")
        .unwrap()
        .handle
        .with_label_values(&["/"])
        .observe(0.2);
    let families = reg.gather();
    assert_eq!(families.len(), 3);
    let mut seen: Vec<(String, String)> = families
        .iter()
        .map(|f| (f.get_name().to_string(), f.get_help().to_string()))
        .collect();
    seen.sort();
    assert_eq!(
        seen,
        vec![
            ("inflight".to_string(), "requests in flight".to_string()),
            ("latency_seconds".to_string(), "request latency".to_string()),
            ("requests_total".to_string(), "requests seen".to_string()),
        ]
    );
}

#[test]
fn identical_declarations_start_identical() {
    let decls = || {
        vec![
            Decl::new("hits", Opts::new("hits_total", "hits"), MetricKind::Counter),
            Decl::new("size", Opts::new("size", "size"), MetricKind::Histogram),
            Decl::new("level", Opts::new("level", "level"), MetricKind::Gauge),
        ]
    };
    let mut first = Registry::new();
    let mut second = Registry::new();
    Composite::register(&mut first, decls()).unwrap();
    Composite::register(&mut second, decls()).unwrap();
    let enc = encode(&first);
    assert_eq!(enc, encode(&second));
    assert!(enc.contains("hits_total 0\n"));
    assert!(enc.contains("size_count 0\n"));
    assert!(enc.contains("level 0\n"));
}

#[test]
fn second_registration_is_refused() {
    let decls = || vec![Decl::new("g", Opts::new("twice", "description"), MetricKind::Gauge)];
    let mut reg = Registry::new();
    assert!(Composite::register(&mut reg, decls()).is_ok());
    assert!(matches!(
        Composite::register(&mut reg, decls()),
        Err(MetricError::Registration(_))
    ));
}

#[test]
fn first_failure_stops_without_rollback() {
    let decls = vec![
        Decl::new("a", Opts::new("first_gauge", "description"), MetricKind::Gauge),
        Decl::new("b", Opts::new("unlabeled_vec", "description"), MetricKind::CounterVec),
        Decl::new("c", Opts::new("third_gauge", "description"), MetricKind::Gauge),
    ];
    let mut reg = Registry::new();
    assert!(matches!(
        Composite::register(&mut reg, decls),
        Err(MetricError::MissingLabels)
    ));
    let families = reg.gather();
    assert_eq!(families.len(), 1);
    assert_eq!(families[0].get_name(), "first_gauge");
}

#[test]
fn invalid_name_fails_registration_with_construction_error() {
    let decls = vec![
        Decl::new("a", Opts::new("fine", "description"), MetricKind::Counter),
        Decl::new("b", Opts::new("not valid", "description"), MetricKind::Counter),
    ];
    let mut reg = Registry::new();
    assert!(matches!(
        Composite::register(&mut reg, decls),
        Err(MetricError::Construction(_))
    ));
}

#[test]
fn empty_declaration_list_gives_empty_composite() {
    let mut reg = Registry::new();
    let metric = Composite::register(&mut reg, Vec::new()).unwrap();
    assert_eq!(metric.len(), 0);
    assert!(metric.get("anything").is_none());
    assert!(reg.gather().is_empty());
}

#[test]
fn accessors_check_name_and_kind() {
    let decls = vec![
        Decl::new("count", Opts::new("count_total", "count"), MetricKind::Counter),
        Decl::new("level", Opts::new("level_now", "level"), MetricKind::IntGauge),
        Decl::new(
            "by_code",
            Opts::new("by_code_total", "by code").with_labels(&["code"]),
            MetricKind::IntCounterVec,
        ),
    ];
    let mut reg = Registry::new();
    let metric = Composite::register(&mut reg, decls).unwrap();
    assert!(metric.counter("count").is_some());
    assert!(metric.gauge("count").is_none());
    assert!(metric.counter("missing").is_none());
    assert!(matches!(metric.get("level"), Some(Metric::IntGauge(_))));
    assert_eq!(metric.get("by_code").map(|m| m.kind()), Some(MetricKind::IntCounterVec));
    metric.int_gauge("level").unwrap().handle.set(7);
    metric
        .int_counter_vec("by_code")
        .unwrap()
        .handle
        .with_label_values(&["200"])
        .inc_by(3);
    metric.counter("count").unwrap().handle.inc();
    let enc = encode(&reg);
    assert!(enc.contains("level_now 7\n"));
    assert!(enc.contains("by_code_total{code=\"200\"} 3\n"));
    assert!(enc.contains("count_total 1\n"));
}

#[test]
fn accessor_handle_shares_state_with_registry() {
    let decls = vec![Decl::new("g", Opts::new("shared_gauge", "description"), MetricKind::Gauge)];
    let mut reg = Registry::new();
    let metric = Composite::register(&mut reg, decls).unwrap();
    metric.gauge("g").unwrap().handle.set(2.5);
    assert!(encode(&reg).contains("shared_gauge 2.5\n"));
}

fn parse_buckets(enc: &str) -> Vec<&str> {
    enc.lines()
        .skip(2)
        .filter_map(|s| {
            let (_, s) = s.split_once("le=")?;
            let s = s.split('\"').nth(1)?;
            Some(s)
        })
        .collect()
}

#[test]
fn with_buckets() {
    let opts = HistogramOpts::new("example_hist", "description").buckets(vec![0.1, 0.5]);
    let decls = vec![Decl::made(
        "hist_metric",
        Metric::Histogram(Histogram::with_opts(opts).unwrap()),
    )];
    let mut reg = Registry::new();
    let metric = Composite::register(&mut reg, decls).unwrap();
    metric.histogram("hist_metric").unwrap().observe(0.1);
    let enc = encode(&reg);

    assert_eq!(parse_name(&enc), "example_hist");
    assert_eq!(parse_description(&enc), "description");
    assert_eq!(parse_type(&enc), "histogram");
    assert_eq!(parse_buckets(&enc), vec!["0.1", "0.5", "+Inf"]);
}

#[test]
fn made_and_declared_fields_register_together() {
    let hist = Histogram::with_opts(HistogramOpts::new("made_hist", "made")).unwrap();
    let decls = vec![
        Decl::new("count", Opts::new("declared_total", "declared"), MetricKind::Counter),
        Decl::made("hist", Metric::Histogram(hist)),
    ];
    let mut reg = Registry::new();
    let metric = Composite::register(&mut reg, decls).unwrap();
    assert_eq!(metric.len(), 2);
    assert_eq!(metric.get("hist").map(|m| m.kind()), Some(MetricKind::Histogram));
    assert_eq!(reg.gather().len(), 2);
}

#[test]
fn registry_names_follow_declarations_until_first_failure() {
    let mut reg = Registry::new();
    let taken = vec![Decl::new("x", Opts::new("taken", "description"), MetricKind::Gauge)];
    Composite::register(&mut reg, taken).unwrap();
    let decls = vec![
        Decl::new("a", Opts::new("before_clash", "description"), MetricKind::Counter),
        Decl::new("b", Opts::new("taken", "description"), MetricKind::Gauge),
        Decl::new("c", Opts::new("after_clash", "description"), MetricKind::Counter),
    ];
    assert!(matches!(
        Composite::register(&mut reg, decls),
        Err(MetricError::Registration(_))
    ));
    let mut names: Vec<String> = reg.gather().iter().map(|f| f.get_name().to_string()).collect();
    names.sort();
    assert_eq!(names, vec!["before_clash".to_string(), "taken".to_string()]);
}
