//! The metrics engine as this library uses it: the prometheus types it holds,
//! the rules by which prometheus accepts a metric description, and one
//! wrapper per prometheus call.
use vstd::prelude::*;

use crate::convert::{Metric, MetricKind};
use crate::opts::strings_view;

verus! {

#[verifier::external_type_specification]
#[verifier::external_body]
pub struct ExError(prometheus::Error);

#[verifier::external_type_specification]
#[verifier::external_body]
pub struct ExRegistry(prometheus::Registry);

#[verifier::external_type_specification]
#[verifier::external_body]
pub struct ExHistogram(prometheus::Histogram);

/// An ASCII letter or `_`.
pub open spec fn is_ident_start(c: char) -> bool {
    ('a' as u32 <= c as u32 && c as u32 <= 'z' as u32) || ('A' as u32 <= c as u32 && c as u32
        <= 'Z' as u32) || c == '_'
}

pub open spec fn is_ascii_digit(c: char) -> bool {
    '0' as u32 <= c as u32 && c as u32 <= '9' as u32
}

/// A non-empty identifier whose first character is a letter, `_` or (where
/// `colon` holds) `:`, and whose other characters may also be digits.
pub open spec fn is_valid_ident(s: Seq<char>, colon: bool) -> bool {
    &&& s.len() > 0
    &&& (is_ident_start(s[0]) || (colon && s[0] == ':'))
    &&& forall|i: int|
        1 <= i < s.len() ==> (is_ident_start(#[trigger] s[i]) || (colon && s[i] == ':')
            || is_ascii_digit(s[i]))
}

/// `[a-zA-Z_:][a-zA-Z0-9_:]*`
pub open spec fn is_valid_metric_name(s: Seq<char>) -> bool {
    is_valid_ident(s, true)
}

/// `[a-zA-Z_][a-zA-Z0-9_]*`
pub open spec fn is_valid_label_name(s: Seq<char>) -> bool {
    is_valid_ident(s, false)
}

/// Every label name is valid and no name occurs twice.
pub open spec fn labels_valid(labels: Seq<Seq<char>>) -> bool {
    &&& forall|i: int| 0 <= i < labels.len() ==> is_valid_label_name(#[trigger] labels[i])
    &&& forall|i: int, j: int|
        0 <= i < j < labels.len() ==> #[trigger] labels[i] != #[trigger] labels[j]
}

/// When prometheus accepts a metric with this name, help text and label
/// names: the help text is not empty, the name is a valid metric name and the
/// label names are valid and distinct.
pub open spec fn desc_valid(name: Seq<char>, help: Seq<char>, labels: Seq<Seq<char>>) -> bool {
    &&& help.len() > 0
    &&& is_valid_metric_name(name)
    &&& labels_valid(labels)
}

/// The name in the descriptor of a made metric (`Desc::fq_name`).
pub uninterp spec fn metric_name(m: Metric) -> Seq<char>;

/// The help text in the descriptor of a made metric (`Desc::help`).
pub uninterp spec fn metric_help(m: Metric) -> Seq<char>;

/// The label names, in order, in the descriptor of a made metric
/// (`Desc::variable_labels`).
pub uninterp spec fn metric_labels(m: Metric) -> Seq<Seq<char>>;

/// `m` is a metric of kind `k` described by this name, help text and labels.
pub open spec fn made_as(
    m: Metric,
    k: MetricKind,
    name: Seq<char>,
    help: Seq<char>,
    labels: Seq<Seq<char>>,
) -> bool {
    &&& m.kind() == k
    &&& metric_name(m) == name
    &&& metric_help(m) == help
    &&& metric_labels(m) == labels
}

// prometheus's counters and gauges are generic over its `Atomic` trait, and
// its labeled families over builder types that it does not export: Verus can
// declare neither, so each metric is held here opaquely. Its handle shares its
// state with every clone of it, such as the one given to a registry.

/// Holds a `prometheus::Counter`.
#[verifier::external_body]
pub struct CounterMetric {
    pub handle: prometheus::Counter,
}

/// Holds a `prometheus::Gauge`.
#[verifier::external_body]
pub struct GaugeMetric {
    pub handle: prometheus::Gauge,
}

/// Holds a `prometheus::IntGauge`.
#[verifier::external_body]
pub struct IntGaugeMetric {
    pub handle: prometheus::IntGauge,
}

/// Holds a labeled family of counters, a `prometheus::CounterVec`.
#[verifier::external_body]
pub struct CounterVecMetric {
    pub handle: prometheus::CounterVec,
}

/// Holds a labeled family of integer counters, a `prometheus::IntCounterVec`.
#[verifier::external_body]
pub struct IntCounterVecMetric {
    pub handle: prometheus::IntCounterVec,
}

/// Holds a labeled family of gauges, a `prometheus::GaugeVec`.
#[verifier::external_body]
pub struct GaugeVecMetric {
    pub handle: prometheus::GaugeVec,
}

/// Holds a labeled family of integer gauges, a `prometheus::IntGaugeVec`.
#[verifier::external_body]
pub struct IntGaugeVecMetric {
    pub handle: prometheus::IntGaugeVec,
}

/// Holds a labeled family of histograms, a `prometheus::HistogramVec`.
#[verifier::external_body]
pub struct HistogramVecMetric {
    pub handle: prometheus::HistogramVec,
}

/// Relies on `Counter::with_opts` (through `Desc::new`): it fails exactly when
/// the help text is empty or the name is not a valid metric name. The metric
/// is described by the name and help text, with no labels.
#[verifier::external_body]
pub(crate) fn new_counter(
    name: &str,
    help: &str,
) -> (r: Result<Metric, prometheus::Error>)
    ensures
        r is Ok <==> desc_valid(name@, help@, seq![]),
        r is Ok ==> r->Ok_0.kind() == MetricKind::Counter,
        r is Ok ==> metric_name(r->Ok_0) == name@,
        r is Ok ==> metric_help(r->Ok_0) == help@,
        r is Ok ==> metric_labels(r->Ok_0) == Seq::<Seq<char>>::empty(),
{
    prometheus::Counter::with_opts(prometheus::Opts::new(name, help)).map(
        |handle| Metric::Counter(CounterMetric { handle }),
    )
}

/// Relies on `Gauge::with_opts` (through `Desc::new`): it fails exactly when
/// the help text is empty or the name is not a valid metric name. The metric
/// is described by the name and help text, with no labels.
#[verifier::external_body]
pub(crate) fn new_gauge(
    name: &str,
    help: &str,
) -> (r: Result<Metric, prometheus::Error>)
    ensures
        r is Ok <==> desc_valid(name@, help@, seq![]),
        r is Ok ==> r->Ok_0.kind() == MetricKind::Gauge,
        r is Ok ==> metric_name(r->Ok_0) == name@,
        r is Ok ==> metric_help(r->Ok_0) == help@,
        r is Ok ==> metric_labels(r->Ok_0) == Seq::<Seq<char>>::empty(),
{
    prometheus::Gauge::with_opts(prometheus::Opts::new(name, help)).map(
        |handle| Metric::Gauge(GaugeMetric { handle }),
    )
}

/// Relies on `IntGauge::with_opts` (through `Desc::new`): it fails exactly when
/// the help text is empty or the name is not a valid metric name. The metric
/// is described by the name and help text, with no labels.
#[verifier::external_body]
pub(crate) fn new_int_gauge(
    name: &str,
    help: &str,
) -> (r: Result<Metric, prometheus::Error>)
    ensures
        r is Ok <==> desc_valid(name@, help@, seq![]),
        r is Ok ==> r->Ok_0.kind() == MetricKind::IntGauge,
        r is Ok ==> metric_name(r->Ok_0) == name@,
        r is Ok ==> metric_help(r->Ok_0) == help@,
        r is Ok ==> metric_labels(r->Ok_0) == Seq::<Seq<char>>::empty(),
{
    prometheus::IntGauge::with_opts(prometheus::Opts::new(name, help)).map(
        |handle| Metric::IntGauge(IntGaugeMetric { handle }),
    )
}

/// Relies on `Histogram::with_opts` with `HistogramOpts::new`, whose buckets
/// are `DEFAULT_BUCKETS`: it fails exactly when the help text is empty or the
/// name is not a valid metric name. The metric is described by the name and
/// help text, with no labels.
#[verifier::external_body]
pub(crate) fn new_histogram(
    name: &str,
    help: &str,
) -> (r: Result<Metric, prometheus::Error>)
    ensures
        r is Ok <==> desc_valid(name@, help@, seq![]),
        r is Ok ==> r->Ok_0.kind() == MetricKind::Histogram,
        r is Ok ==> metric_name(r->Ok_0) == name@,
        r is Ok ==> metric_help(r->Ok_0) == help@,
        r is Ok ==> metric_labels(r->Ok_0) == Seq::<Seq<char>>::empty(),
{
    let opts = prometheus::HistogramOpts::new(name, help);
    prometheus::Histogram::with_opts(opts).map(Metric::Histogram)
}

/// Relies on `CounterVec::new` (through `MetricVec::create` and `Desc::new`):
/// it fails exactly when the help text is empty, the name is not a valid
/// metric name, or a label name is invalid or repeated. The family is
/// described by the name, help text and label names in the given order.
#[verifier::external_body]
pub(crate) fn new_counter_vec(
    name: &str,
    help: &str,
    labels: &Vec<String>,
) -> (r: Result<Metric, prometheus::Error>)
    ensures
        r is Ok <==> desc_valid(name@, help@, strings_view(labels@)),
        r is Ok ==> r->Ok_0.kind() == MetricKind::CounterVec,
        r is Ok ==> metric_name(r->Ok_0) == name@,
        r is Ok ==> metric_help(r->Ok_0) == help@,
        r is Ok ==> metric_labels(r->Ok_0) == strings_view(labels@),
{
    let names: Vec<&str> = labels.iter().map(|s| s.as_str()).collect();
    let opts = prometheus::Opts::new(name, help);
    prometheus::CounterVec::new(opts, &names).map(
        |handle| Metric::CounterVec(CounterVecMetric { handle }),
    )
}

/// Relies on `IntCounterVec::new` (through `MetricVec::create` and `Desc::new`):
/// it fails exactly when the help text is empty, the name is not a valid
/// metric name, or a label name is invalid or repeated. The family is
/// described by the name, help text and label names in the given order.
#[verifier::external_body]
pub(crate) fn new_int_counter_vec(
    name: &str,
    help: &str,
    labels: &Vec<String>,
) -> (r: Result<Metric, prometheus::Error>)
    ensures
        r is Ok <==> desc_valid(name@, help@, strings_view(labels@)),
        r is Ok ==> r->Ok_0.kind() == MetricKind::IntCounterVec,
        r is Ok ==> metric_name(r->Ok_0) == name@,
        r is Ok ==> metric_help(r->Ok_0) == help@,
        r is Ok ==> metric_labels(r->Ok_0) == strings_view(labels@),
{
    let names: Vec<&str> = labels.iter().map(|s| s.as_str()).collect();
    let opts = prometheus::Opts::new(name, help);
    prometheus::IntCounterVec::new(opts, &names).map(
        |handle| Metric::IntCounterVec(IntCounterVecMetric { handle }),
    )
}

/// Relies on `GaugeVec::new` (through `MetricVec::create` and `Desc::new`):
/// it fails exactly when the help text is empty, the name is not a valid
/// metric name, or a label name is invalid or repeated. The family is
/// described by the name, help text and label names in the given order.
#[verifier::external_body]
pub(crate) fn new_gauge_vec(
    name: &str,
    help: &str,
    labels: &Vec<String>,
) -> (r: Result<Metric, prometheus::Error>)
    ensures
        r is Ok <==> desc_valid(name@, help@, strings_view(labels@)),
        r is Ok ==> r->Ok_0.kind() == MetricKind::GaugeVec,
        r is Ok ==> metric_name(r->Ok_0) == name@,
        r is Ok ==> metric_help(r->Ok_0) == help@,
        r is Ok ==> metric_labels(r->Ok_0) == strings_view(labels@),
{
    let names: Vec<&str> = labels.iter().map(|s| s.as_str()).collect();
    let opts = prometheus::Opts::new(name, help);
    prometheus::GaugeVec::new(opts, &names).map(
        |handle| Metric::GaugeVec(GaugeVecMetric { handle }),
    )
}

/// Relies on `IntGaugeVec::new` (through `MetricVec::create` and `Desc::new`):
/// it fails exactly when the help text is empty, the name is not a valid
/// metric name, or a label name is invalid or repeated. The family is
/// described by the name, help text and label names in the given order.
#[verifier::external_body]
pub(crate) fn new_int_gauge_vec(
    name: &str,
    help: &str,
    labels: &Vec<String>,
) -> (r: Result<Metric, prometheus::Error>)
    ensures
        r is Ok <==> desc_valid(name@, help@, strings_view(labels@)),
        r is Ok ==> r->Ok_0.kind() == MetricKind::IntGaugeVec,
        r is Ok ==> metric_name(r->Ok_0) == name@,
        r is Ok ==> metric_help(r->Ok_0) == help@,
        r is Ok ==> metric_labels(r->Ok_0) == strings_view(labels@),
{
    let names: Vec<&str> = labels.iter().map(|s| s.as_str()).collect();
    let opts = prometheus::Opts::new(name, help);
    prometheus::IntGaugeVec::new(opts, &names).map(
        |handle| Metric::IntGaugeVec(IntGaugeVecMetric { handle }),
    )
}

/// Relies on `HistogramVec::new` (through `MetricVec::create` and `Desc::new`):
/// it fails exactly when the help text is empty, the name is not a valid
/// metric name, or a label name is invalid or repeated. The family is
/// described by the name, help text and label names in the given order.
#[verifier::external_body]
pub(crate) fn new_histogram_vec(
    name: &str,
    help: &str,
    labels: &Vec<String>,
) -> (r: Result<Metric, prometheus::Error>)
    ensures
        r is Ok <==> desc_valid(name@, help@, strings_view(labels@)),
        r is Ok ==> r->Ok_0.kind() == MetricKind::HistogramVec,
        r is Ok ==> metric_name(r->Ok_0) == name@,
        r is Ok ==> metric_help(r->Ok_0) == help@,
        r is Ok ==> metric_labels(r->Ok_0) == strings_view(labels@),
{
    let names: Vec<&str> = labels.iter().map(|s| s.as_str()).collect();
    let opts = prometheus::HistogramOpts::new(name, help);
    prometheus::HistogramVec::new(opts, &names).map(
        |handle| Metric::HistogramVec(HistogramVecMetric { handle }),
    )
}

} // verus!
