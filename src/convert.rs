//! Conversion of a generic [`Opts`] into a concrete metric of a chosen kind.
use vstd::prelude::*;

use crate::engine::{
    desc_valid, made_as, new_counter, new_counter_vec, new_gauge, new_gauge_vec, new_histogram,
    new_histogram_vec, new_int_counter_vec, new_int_gauge, new_int_gauge_vec, CounterMetric,
    CounterVecMetric, GaugeMetric, GaugeVecMetric, HistogramVecMetric, IntCounterVecMetric,
    IntGaugeMetric, IntGaugeVecMetric,
};
use crate::opts::{strings_view, Opts, OptsView};

verus! {

/// The kinds of metric that an [`Opts`] can be converted into.
#[derive(Clone, Copy, PartialEq, Eq, Structural, Debug)]
pub enum MetricKind {
    Counter,
    Gauge,
    IntGauge,
    Histogram,
    CounterVec,
    IntCounterVec,
    GaugeVec,
    IntGaugeVec,
    HistogramVec,
}

impl MetricKind {
    /// Whether the kind is a labeled family of metrics.
    pub open spec fn spec_is_vector(&self) -> bool {
        match self {
            MetricKind::CounterVec | MetricKind::IntCounterVec | MetricKind::GaugeVec
            | MetricKind::IntGaugeVec | MetricKind::HistogramVec => true,
            _ => false,
        }
    }

    #[verifier::when_used_as_spec(spec_is_vector)]
    pub fn is_vector(&self) -> (r: bool)
        ensures
            r == self.spec_is_vector(),
    {
        match self {
            MetricKind::CounterVec | MetricKind::IntCounterVec | MetricKind::GaugeVec
            | MetricKind::IntGaugeVec | MetricKind::HistogramVec => true,
            _ => false,
        }
    }
}

/// A constructed metric of any kind.
pub enum Metric {
    Counter(CounterMetric),
    Gauge(GaugeMetric),
    IntGauge(IntGaugeMetric),
    Histogram(prometheus::Histogram),
    CounterVec(CounterVecMetric),
    IntCounterVec(IntCounterVecMetric),
    GaugeVec(GaugeVecMetric),
    IntGaugeVec(IntGaugeVecMetric),
    HistogramVec(HistogramVecMetric),
}

impl Metric {
    pub open spec fn spec_kind(&self) -> MetricKind {
        match self {
            Metric::Counter(_) => MetricKind::Counter,
            Metric::Gauge(_) => MetricKind::Gauge,
            Metric::IntGauge(_) => MetricKind::IntGauge,
            Metric::Histogram(_) => MetricKind::Histogram,
            Metric::CounterVec(_) => MetricKind::CounterVec,
            Metric::IntCounterVec(_) => MetricKind::IntCounterVec,
            Metric::GaugeVec(_) => MetricKind::GaugeVec,
            Metric::IntGaugeVec(_) => MetricKind::IntGaugeVec,
            Metric::HistogramVec(_) => MetricKind::HistogramVec,
        }
    }

    /// The kind of the metric.
    #[verifier::when_used_as_spec(spec_kind)]
    pub fn kind(&self) -> (r: MetricKind)
        ensures
            r == self.spec_kind(),
    {
        match self {
            Metric::Counter(_) => MetricKind::Counter,
            Metric::Gauge(_) => MetricKind::Gauge,
            Metric::IntGauge(_) => MetricKind::IntGauge,
            Metric::Histogram(_) => MetricKind::Histogram,
            Metric::CounterVec(_) => MetricKind::CounterVec,
            Metric::IntCounterVec(_) => MetricKind::IntCounterVec,
            Metric::GaugeVec(_) => MetricKind::GaugeVec,
            Metric::IntGaugeVec(_) => MetricKind::IntGaugeVec,
            Metric::HistogramVec(_) => MetricKind::HistogramVec,
        }
    }
}

/// Why a metric could not be made or registered.
#[derive(Debug)]
pub enum MetricError {
    /// A labeled kind was asked for, and the options carry no label list.
    MissingLabels,
    /// The engine refused the description (name, help text or labels).
    Construction(prometheus::Error),
    /// The registry refused the metric.
    Registration(prometheus::Error),
}

/// A labeled kind was asked for and the options carry no label list.
pub open spec fn lacks_labels(o: OptsView, k: MetricKind) -> bool {
    k.is_vector() && o.labels is None
}

/// The label names that the engine is handed for kind `k`: a scalar kind
/// ignores the options' labels.
pub open spec fn engine_labels(o: OptsView, k: MetricKind) -> Seq<Seq<char>> {
    if k.is_vector() && o.labels is Some {
        o.labels->Some_0
    } else {
        seq![]
    }
}

/// A metric of kind `k` can be made from the options.
pub open spec fn can_build(o: OptsView, k: MetricKind) -> bool {
    !lacks_labels(o, k) && desc_valid(o.name, o.desc, engine_labels(o, k))
}

/// `r` is what converting options `o` into kind `k` gives: success exactly
/// when the metric can be made, `MissingLabels` when a labeled kind has no
/// labels, and otherwise the engine's refusal.
pub open spec fn conversion_outcome<T>(
    r: Result<T, MetricError>,
    o: OptsView,
    k: MetricKind,
) -> bool {
    match r {
        Ok(_) => can_build(o, k),
        Err(MetricError::MissingLabels) => lacks_labels(o, k),
        Err(MetricError::Construction(_)) => !lacks_labels(o, k) && !can_build(o, k),
        Err(MetricError::Registration(_)) => false,
    }
}

/// `m` is the metric that options `o` give for kind `k`: it has that kind,
/// the options' name and help text, and the label names the engine was
/// handed.
pub open spec fn made_from(m: Metric, o: OptsView, k: MetricKind) -> bool {
    made_as(m, k, o.name, o.desc, engine_labels(o, k))
}

/// The text of a [`MetricError::MissingLabels`] error.
pub open spec fn missing_labels_text() -> Seq<char> {
    "vector requires one or more labels"@
}

impl MetricError {
    /// The message of a `MissingLabels` error; the engine's own errors carry
    /// their own text.
    pub fn missing_labels_message(&self) -> (r: Option<String>)
        ensures
            r is Some <==> self is MissingLabels,
            r is Some ==> r->Some_0@ == missing_labels_text(),
    {
        match self {
            MetricError::MissingLabels => {
                let text = "vector requires one or more labels".to_owned();
                proof {
                    reveal_strlit("vector requires one or more labels");
                }
                Some(text)
            },
            _ => None,
        }
    }
}

fn engine_result(r: Result<Metric, prometheus::Error>) -> (out: Result<Metric, MetricError>)
    ensures
        r is Ok ==> out == Ok::<Metric, MetricError>(r->Ok_0),
        r is Err ==> out == Err::<Metric, MetricError>(MetricError::Construction(r->Err_0)),
{
    match r {
        Ok(m) => Ok(m),
        Err(e) => Err(MetricError::Construction(e)),
    }
}

impl Opts {
    /// The label list that a labeled kind needs, or `MissingLabels`.
    pub fn required_labels(&self) -> (r: Result<&Vec<String>, MetricError>)
        ensures
            r is Err <==> self@.labels is None,
            r is Err ==> r->Err_0 is MissingLabels,
            r is Ok ==> self@.labels == Some(strings_view(r->Ok_0@)),
    {
        match self.labels() {
            None => Err(MetricError::MissingLabels),
            Some(l) => Ok(l),
        }
    }

    /// Converts into a counter; the labels, if any, are ignored.
    pub fn to_counter(&self) -> (r: Result<Metric, MetricError>)
        ensures
            conversion_outcome(r, self@, MetricKind::Counter),
            r is Ok ==> made_from(r->Ok_0, self@, MetricKind::Counter),
    {
        engine_result(new_counter(self.name().as_str(), self.desc().as_str()))
    }

    /// Converts into a gauge; the labels, if any, are ignored.
    pub fn to_gauge(&self) -> (r: Result<Metric, MetricError>)
        ensures
            conversion_outcome(r, self@, MetricKind::Gauge),
            r is Ok ==> made_from(r->Ok_0, self@, MetricKind::Gauge),
    {
        engine_result(new_gauge(self.name().as_str(), self.desc().as_str()))
    }

    /// Converts into an integer gauge; the labels, if any, are ignored.
    pub fn to_int_gauge(&self) -> (r: Result<Metric, MetricError>)
        ensures
            conversion_outcome(r, self@, MetricKind::IntGauge),
            r is Ok ==> made_from(r->Ok_0, self@, MetricKind::IntGauge),
    {
        engine_result(new_int_gauge(self.name().as_str(), self.desc().as_str()))
    }

    /// Converts into a histogram with the engine's default buckets; the
    /// labels, if any, are ignored.
    pub fn to_histogram(&self) -> (r: Result<Metric, MetricError>)
        ensures
            conversion_outcome(r, self@, MetricKind::Histogram),
            r is Ok ==> made_from(r->Ok_0, self@, MetricKind::Histogram),
    {
        engine_result(new_histogram(self.name().as_str(), self.desc().as_str()))
    }

    /// Converts into a family of counters, labeled by the options' label list.
    pub fn to_counter_vec(&self) -> (r: Result<Metric, MetricError>)
        ensures
            conversion_outcome(r, self@, MetricKind::CounterVec),
            r is Ok ==> made_from(r->Ok_0, self@, MetricKind::CounterVec),
    {
        match self.required_labels() {
            Err(e) => Err(e),
            Ok(l) => engine_result(new_counter_vec(self.name().as_str(), self.desc().as_str(), l)),
        }
    }

    /// Converts into a family of integer counters, labeled by the options' label list.
    pub fn to_int_counter_vec(&self) -> (r: Result<Metric, MetricError>)
        ensures
            conversion_outcome(r, self@, MetricKind::IntCounterVec),
            r is Ok ==> made_from(r->Ok_0, self@, MetricKind::IntCounterVec),
    {
        match self.required_labels() {
            Err(e) => Err(e),
            Ok(l) => engine_result(
                new_int_counter_vec(self.name().as_str(), self.desc().as_str(), l),
            ),
        }
    }

    /// Converts into a family of gauges, labeled by the options' label list.
    pub fn to_gauge_vec(&self) -> (r: Result<Metric, MetricError>)
        ensures
            conversion_outcome(r, self@, MetricKind::GaugeVec),
            r is Ok ==> made_from(r->Ok_0, self@, MetricKind::GaugeVec),
    {
        match self.required_labels() {
            Err(e) => Err(e),
            Ok(l) => engine_result(new_gauge_vec(self.name().as_str(), self.desc().as_str(), l)),
        }
    }

    /// Converts into a family of integer gauges, labeled by the options' label list.
    pub fn to_int_gauge_vec(&self) -> (r: Result<Metric, MetricError>)
        ensures
            conversion_outcome(r, self@, MetricKind::IntGaugeVec),
            r is Ok ==> made_from(r->Ok_0, self@, MetricKind::IntGaugeVec),
    {
        match self.required_labels() {
            Err(e) => Err(e),
            Ok(l) => engine_result(
                new_int_gauge_vec(self.name().as_str(), self.desc().as_str(), l),
            ),
        }
    }

    /// Converts into a family of histograms with the engine's default
    /// buckets, labeled by the options' label list.
    pub fn to_histogram_vec(&self) -> (r: Result<Metric, MetricError>)
        ensures
            conversion_outcome(r, self@, MetricKind::HistogramVec),
            r is Ok ==> made_from(r->Ok_0, self@, MetricKind::HistogramVec),
    {
        match self.required_labels() {
            Err(e) => Err(e),
            Ok(l) => engine_result(
                new_histogram_vec(self.name().as_str(), self.desc().as_str(), l),
            ),
        }
    }

    /// Converts into a metric of kind `kind`.
    pub fn build(&self, kind: MetricKind) -> (r: Result<Metric, MetricError>)
        ensures
            conversion_outcome(r, self@, kind),
            r is Ok ==> made_from(r->Ok_0, self@, kind),
    {
        match kind {
            MetricKind::Counter => self.to_counter(),
            MetricKind::Gauge => self.to_gauge(),
            MetricKind::IntGauge => self.to_int_gauge(),
            MetricKind::Histogram => self.to_histogram(),
            MetricKind::CounterVec => self.to_counter_vec(),
            MetricKind::IntCounterVec => self.to_int_counter_vec(),
            MetricKind::GaugeVec => self.to_gauge_vec(),
            MetricKind::IntGaugeVec => self.to_int_gauge_vec(),
            MetricKind::HistogramVec => self.to_histogram_vec(),
        }
    }
}

} // verus!
