//! A composite of declared metrics, built and registered as one batch and
//! read back by field name.
use vstd::prelude::*;

use crate::convert::{can_build, engine_labels, lacks_labels, Metric, MetricError, MetricKind};
use crate::engine::{
    metric_help, metric_labels, metric_name,
    CounterMetric, CounterVecMetric, GaugeMetric, GaugeVecMetric, HistogramVecMetric,
    IntCounterVecMetric, IntGaugeMetric, IntGaugeVecMetric,
};
use crate::opts::{Opts, OptsView};

verus! {

/// The model of a [`Source`].
pub enum SourceView {
    Build(OptsView, MetricKind),
    Made(Metric),
}

/// Where the metric of a field comes from: options and a kind to convert
/// them into, or a metric made beforehand (such as a histogram with buckets
/// of its own).
pub enum Source {
    Build(Opts, MetricKind),
    Made(Metric),
}

/// The model of a [`Decl`].
pub struct DeclView {
    pub field: Seq<char>,
    pub source: SourceView,
}

/// One declared field of a composite: its name and the source of its metric.
pub struct Decl {
    pub field: String,
    pub source: Source,
}

impl View for Decl {
    type V = DeclView;

    open spec fn view(&self) -> DeclView {
        DeclView {
            field: self.field@,
            source: match self.source {
                Source::Build(o, k) => SourceView::Build(o@, k),
                Source::Made(m) => SourceView::Made(m),
            },
        }
    }
}

impl Decl {
    /// A field whose metric is made from `opts` as a metric of kind `kind`.
    pub fn new(field: &str, opts: Opts, kind: MetricKind) -> (r: Decl)
        ensures
            r@ == (DeclView { field: field@, source: SourceView::Build(opts@, kind) }),
    {
        Decl { field: field.to_owned(), source: Source::Build(opts, kind) }
    }

    /// A field that holds a metric made beforehand.
    pub fn made(field: &str, metric: Metric) -> (r: Decl)
        ensures
            r@ == (DeclView { field: field@, source: SourceView::Made(metric) }),
    {
        Decl { field: field.to_owned(), source: Source::Made(metric) }
    }
}

/// The model of one field of a [`Composite`]: its name and what describes
/// its metric.
pub struct FieldView {
    pub field: Seq<char>,
    pub name: Seq<char>,
    pub desc: Seq<char>,
    pub labels: Seq<Seq<char>>,
    pub kind: MetricKind,
}

/// The model of a field that holds metric `m`.
pub open spec fn field_with(field: Seq<char>, m: Metric) -> FieldView {
    FieldView {
        field,
        name: metric_name(m),
        desc: metric_help(m),
        labels: metric_labels(m),
        kind: m.kind(),
    }
}

struct Field {
    field: String,
    metric: Metric,
}

impl View for Field {
    type V = FieldView;

    closed spec fn view(&self) -> FieldView {
        field_with(self.field@, self.metric)
    }
}

/// The field that a declaration becomes once its metric is made: a
/// converted metric carries the declared name, help text and label names.
pub open spec fn field_of(d: DeclView) -> FieldView {
    match d.source {
        SourceView::Build(o, k) => FieldView {
            field: d.field,
            name: o.name,
            desc: o.desc,
            labels: engine_labels(o, k),
            kind: k,
        },
        SourceView::Made(m) => field_with(d.field, m),
    }
}

pub open spec fn decls_view(ds: Seq<Decl>) -> Seq<DeclView> {
    ds.map_values(|d: Decl| d@)
}

/// The declaration's metric can be made (one made beforehand always can).
pub open spec fn decl_buildable(d: DeclView) -> bool {
    match d.source {
        SourceView::Build(o, k) => can_build(o, k),
        SourceView::Made(_) => true,
    }
}

/// The declaration asks for a labeled kind and its options carry no labels.
pub open spec fn decl_lacks_labels(d: DeclView) -> bool {
    match d.source {
        SourceView::Build(o, k) => lacks_labels(o, k),
        SourceView::Made(_) => false,
    }
}

/// Every declaration can be made into its metric.
pub open spec fn all_buildable(ds: Seq<DeclView>) -> bool {
    forall|i: int| 0 <= i < ds.len() ==> decl_buildable(#[trigger] ds[i])
}

/// Declaration `i` is the first one that cannot be made into its metric.
pub open spec fn first_unbuildable(ds: Seq<DeclView>, i: int) -> bool {
    0 <= i < ds.len() && all_buildable(ds.take(i)) && !decl_buildable(ds[i])
}

/// Field `i` is the first one named `name`.
pub open spec fn first_named(fs: Seq<FieldView>, name: Seq<char>, i: int) -> bool {
    &&& 0 <= i < fs.len()
    &&& fs[i].field == name
    &&& forall|j: int| 0 <= j < i ==> (#[trigger] fs[j]).field != name
}

/// The first field named `name` has kind `k`.
pub open spec fn named_kind(fs: Seq<FieldView>, name: Seq<char>, k: MetricKind) -> bool {
    exists|i: int| first_named(fs, name, i) && fs[i].kind == k
}

/// The names in the descriptors of the collectors that a registry holds.
pub uninterp spec fn registered_names(r: prometheus::Registry) -> Set<Seq<char>>;

/// Relies on `Registry::register` (`RegistryCore::register`), given a boxed
/// clone of the handle: on success the metric's descriptor, and so its name,
/// joins the registry; on failure the registered collectors are unchanged.
/// Which of the two happens depends on what the registry already holds.
#[verifier::external_body]
fn register_metric(
    registry: &mut prometheus::Registry,
    m: &Metric,
) -> (r: Result<(), prometheus::Error>)
    ensures
        r is Ok ==> registered_names(*final(registry)) == registered_names(*old(registry)).insert(
            metric_name(*m),
        ),
        r is Err ==> registered_names(*final(registry)) == registered_names(*old(registry)),
{
    registry.register(match m {
        Metric::Counter(x) => Box::new(x.handle.clone()),
        Metric::Gauge(x) => Box::new(x.handle.clone()),
        Metric::IntGauge(x) => Box::new(x.handle.clone()),
        Metric::Histogram(x) => Box::new(x.clone()),
        Metric::CounterVec(x) => Box::new(x.handle.clone()),
        Metric::IntCounterVec(x) => Box::new(x.handle.clone()),
        Metric::GaugeVec(x) => Box::new(x.handle.clone()),
        Metric::IntGaugeVec(x) => Box::new(x.handle.clone()),
        Metric::HistogramVec(x) => Box::new(x.handle.clone()),
    })
}

/// The metric names of the first `n` declarations.
pub open spec fn prefix_names(ds: Seq<DeclView>, n: int) -> Set<Seq<char>> {
    Set::new(|name: Seq<char>| exists|j: int| 0 <= j < n && #[trigger] field_of(ds[j]).name == name)
}

/// Metrics made from a fixed list of declarations, one per field.
pub struct Composite {
    fields: Vec<Field>,
}

impl View for Composite {
    type V = Seq<FieldView>;

    closed spec fn view(&self) -> Seq<FieldView> {
        self.fields@.map_values(|f: Field| f@)
    }
}

impl Composite {
    /// The metric of field `i`.
    pub closed spec fn metric_at(&self, i: int) -> Metric {
        self.fields@[i].metric
    }

    /// Makes the metric of each declaration in order and registers it with
    /// `registry`. The first failure ends the call and is returned: a
    /// conversion error as the converter gave it, or the registry's refusal.
    /// Metrics registered before it stay registered, and none after it is.
    pub fn register(registry: &mut prometheus::Registry, decls: Vec<Decl>) -> (r: Result<
        Composite,
        MetricError,
    >)
        ensures
            r is Ok ==> all_buildable(decls_view(decls@)),
            r is Ok ==> registered_names(*final(registry)) == registered_names(
                *old(registry),
            ).union(prefix_names(decls_view(decls@), decls@.len() as int)),
            r is Err ==> exists|k: int|
                {
                    &&& 0 <= k < decls@.len()
                    &&& registered_names(*final(registry)) == registered_names(
                        *old(registry),
                    ).union(#[trigger] prefix_names(decls_view(decls@), k))
                    &&& (first_unbuildable(decls_view(decls@), k) || (r->Err_0 is Registration
                        && all_buildable(decls_view(decls@).take(k + 1))))
                },
            r is Ok ==> r->Ok_0@ == decls_view(decls@).map_values(|d: DeclView| field_of(d)),
            !all_buildable(decls_view(decls@)) ==> r is Err,
            decls@.len() == 0 ==> r is Ok,
            (r matches Err(MetricError::MissingLabels)) ==> exists|i: int|
                first_unbuildable(decls_view(decls@), i) && decl_lacks_labels(
                    #[trigger] decls_view(decls@)[i],
                ),
            (r matches Err(MetricError::Construction(_))) ==> exists|i: int|
                first_unbuildable(decls_view(decls@), i) && !decl_lacks_labels(
                    #[trigger] decls_view(decls@)[i],
                ),
            (r matches Err(MetricError::Registration(_))) ==> exists|i: int|
                0 <= i < decls@.len() && #[trigger] all_buildable(
                    decls_view(decls@).take(i + 1),
                ),
    {
        let ghost ds = decls_view(decls@);
        let ghost names0 = registered_names(*registry);
        let n: usize = decls.len();
        let mut rest = decls;
        let mut fields: Vec<Field> = Vec::new();
        let mut i: usize = 0;
        while rest.len() > 0
            invariant
                ds.len() == decls@.len(),
                ds.len() == n,
                names0 == registered_names(*old(registry)),
                registered_names(*registry) == names0.union(prefix_names(ds, i as int)),
                ds == decls_view(decls@),
                i <= ds.len(),
                rest@.len() == ds.len() - i,
                decls_view(rest@) =~= ds.skip(i as int),
                fields@.len() == i,
                all_buildable(ds.take(i as int)),
                forall|j: int| 0 <= j < i ==> (#[trigger] fields@[j])@ == field_of(ds[j]),
            decreases rest@.len(),
        {
            let ghost before = rest@;
            let d = rest.remove(0);
            proof {
                assert(ds.skip(i as int)[0] == ds[i as int]);
                assert(decls_view(before)[0] == before[0]@);
                assert(d@ == ds[i as int]);
                assert forall|j: int| 0 <= j < rest@.len() implies decls_view(rest@)[j] == ds.skip(
                    i + 1,
                )[j] by {
                    assert(rest@[j] == before[j + 1]);
                    assert(decls_view(before)[j + 1] == ds.skip(i as int)[j + 1]);
                }
                assert(decls_view(rest@) =~= ds.skip(i + 1));
            }
            let Decl { field, source } = d;
            let made = match source {
                Source::Build(o, k) => {
                    match o.build(k) {
                        Err(e) => {
                            assert(first_unbuildable(ds, i as int));
                            assert(registered_names(*registry) == names0.union(
                                prefix_names(ds, i as int),
                            ));
                            return Err(e);
                        },
                        Ok(m) => m,
                    }
                },
                Source::Made(m) => m,
            };
            assert(ds.take(i + 1) =~= ds.take(i as int).push(ds[i as int]));
            assert(decl_buildable(ds[i as int]));
            assert(metric_name(made) == field_of(ds[i as int]).name);
            match register_metric(registry, &made) {
                Err(e) => {
                    assert(all_buildable(ds.take(i + 1)));
                    assert(registered_names(*registry) == names0.union(prefix_names(ds, i as int)));
                    return Err(MetricError::Registration(e));
                },
                Ok(()) => {
                    assert(prefix_names(ds, i + 1) =~= prefix_names(ds, i as int).insert(
                        field_of(ds[i as int]).name,
                    ));
                    assert(registered_names(*registry) =~= names0.union(
                        prefix_names(ds, i + 1),
                    ));
                    let f = Field { field, metric: made };
                    fields.push(f);
                },
            }
            i = i + 1;
        }
        assert(ds.take(i as int) =~= ds);
        let c = Composite { fields };
        assert(c@ =~= ds.map_values(|d: DeclView| field_of(d)));
        Ok(c)
    }

    /// The number of fields.
    pub fn len(&self) -> (r: usize)
        ensures
            r == self@.len(),
    {
        self.fields.len()
    }

    fn position(&self, field: &str) -> (r: Option<usize>)
        ensures
            r is None ==> forall|i: int|
                0 <= i < self@.len() ==> (#[trigger] self@[i]).field != field@,
            r is Some ==> first_named(self@, field@, r->Some_0 as int),
    {
        let key = field.to_owned();
        let mut i: usize = 0;
        while i < self.fields.len()
            invariant
                key@ == field@,
                i <= self@.len(),
                forall|j: int| 0 <= j < i ==> (#[trigger] self@[j]).field != field@,
            decreases self@.len() - i,
        {
            if self.fields[i].field == key {
                return Some(i);
            }
            i = i + 1;
        }
        None
    }

    /// The metric of the first field named `field`.
    pub fn get(&self, field: &str) -> (r: Option<&Metric>)
        ensures
            r is None <==> forall|i: int|
                0 <= i < self@.len() ==> (#[trigger] self@[i]).field != field@,
            r is Some ==> exists|i: int|
                first_named(self@, field@, i) && *r->Some_0 == #[trigger] self.metric_at(i),
    {
        match self.position(field) {
            None => None,
            Some(i) => {
                proof {
                    assert(first_named(self@, field@, i as int));
                    assert(self.metric_at(i as int) == self.fields@[i as int].metric);
                }
                Some(&self.fields[i].metric)
            },
        }
    }

    /// At most one field is the first one named `name`, and each field's kind
    /// is that of its metric.
    proof fn lemma_lookup(&self, name: Seq<char>)
        ensures
            forall|i: int, j: int|
                first_named(self@, name, i) && first_named(self@, name, j) ==> i == j,
            forall|i: int|
                0 <= i < self@.len() ==> self@[i].kind == #[trigger] self.metric_at(i).kind(),
    {
        assert forall|i: int, j: int|
            first_named(self@, name, i) && first_named(self@, name, j) implies i == j by {
            if i < j {
                assert(self@[i].field == name);
            }
            if j < i {
                assert(self@[j].field == name);
            }
        }
    }

    /// The counter of the first field named `field`, if that field is one.
    pub fn counter(&self, field: &str) -> (r: Option<&CounterMetric>)
        ensures
            r is Some <==> named_kind(self@, field@, MetricKind::Counter),
            r is Some ==> exists|i: int|
                first_named(self@, field@, i) && #[trigger] self.metric_at(i)
                    == Metric::Counter(*r->Some_0),
    {
        proof {
            self.lemma_lookup(field@);
        }
        match self.get(field) {
            Some(Metric::Counter(m)) => Some(m),
            _ => None,
        }
    }

    /// The gauge of the first field named `field`, if that field is one.
    pub fn gauge(&self, field: &str) -> (r: Option<&GaugeMetric>)
        ensures
            r is Some <==> named_kind(self@, field@, MetricKind::Gauge),
            r is Some ==> exists|i: int|
                first_named(self@, field@, i) && #[trigger] self.metric_at(i)
                    == Metric::Gauge(*r->Some_0),
    {
        proof {
            self.lemma_lookup(field@);
        }
        match self.get(field) {
            Some(Metric::Gauge(m)) => Some(m),
            _ => None,
        }
    }

    /// The integer gauge of the first field named `field`, if that field is one.
    pub fn int_gauge(&self, field: &str) -> (r: Option<&IntGaugeMetric>)
        ensures
            r is Some <==> named_kind(self@, field@, MetricKind::IntGauge),
            r is Some ==> exists|i: int|
                first_named(self@, field@, i) && #[trigger] self.metric_at(i)
                    == Metric::IntGauge(*r->Some_0),
    {
        proof {
            self.lemma_lookup(field@);
        }
        match self.get(field) {
            Some(Metric::IntGauge(m)) => Some(m),
            _ => None,
        }
    }

    /// The histogram of the first field named `field`, if that field is one.
    pub fn histogram(&self, field: &str) -> (r: Option<&prometheus::Histogram>)
        ensures
            r is Some <==> named_kind(self@, field@, MetricKind::Histogram),
            r is Some ==> exists|i: int|
                first_named(self@, field@, i) && #[trigger] self.metric_at(i)
                    == Metric::Histogram(*r->Some_0),
    {
        proof {
            self.lemma_lookup(field@);
        }
        match self.get(field) {
            Some(Metric::Histogram(m)) => Some(m),
            _ => None,
        }
    }

    /// The labeled counter family of the first field named `field`, if that field is one.
    pub fn counter_vec(&self, field: &str) -> (r: Option<&CounterVecMetric>)
        ensures
            r is Some <==> named_kind(self@, field@, MetricKind::CounterVec),
            r is Some ==> exists|i: int|
                first_named(self@, field@, i) && #[trigger] self.metric_at(i)
                    == Metric::CounterVec(*r->Some_0),
    {
        proof {
            self.lemma_lookup(field@);
        }
        match self.get(field) {
            Some(Metric::CounterVec(m)) => Some(m),
            _ => None,
        }
    }

    /// The labeled integer counter family of the first field named `field`, if that field is one.
    pub fn int_counter_vec(&self, field: &str) -> (r: Option<&IntCounterVecMetric>)
        ensures
            r is Some <==> named_kind(self@, field@, MetricKind::IntCounterVec),
            r is Some ==> exists|i: int|
                first_named(self@, field@, i) && #[trigger] self.metric_at(i)
                    == Metric::IntCounterVec(*r->Some_0),
    {
        proof {
            self.lemma_lookup(field@);
        }
        match self.get(field) {
            Some(Metric::IntCounterVec(m)) => Some(m),
            _ => None,
        }
    }

    /// The labeled gauge family of the first field named `field`, if that field is one.
    pub fn gauge_vec(&self, field: &str) -> (r: Option<&GaugeVecMetric>)
        ensures
            r is Some <==> named_kind(self@, field@, MetricKind::GaugeVec),
            r is Some ==> exists|i: int|
                first_named(self@, field@, i) && #[trigger] self.metric_at(i)
                    == Metric::GaugeVec(*r->Some_0),
    {
        proof {
            self.lemma_lookup(field@);
        }
        match self.get(field) {
            Some(Metric::GaugeVec(m)) => Some(m),
            _ => None,
        }
    }

    /// The labeled integer gauge family of the first field named `field`, if that field is one.
    pub fn int_gauge_vec(&self, field: &str) -> (r: Option<&IntGaugeVecMetric>)
        ensures
            r is Some <==> named_kind(self@, field@, MetricKind::IntGaugeVec),
            r is Some ==> exists|i: int|
                first_named(self@, field@, i) && #[trigger] self.metric_at(i)
                    == Metric::IntGaugeVec(*r->Some_0),
    {
        proof {
            self.lemma_lookup(field@);
        }
        match self.get(field) {
            Some(Metric::IntGaugeVec(m)) => Some(m),
            _ => None,
        }
    }

    /// The labeled histogram family of the first field named `field`, if that field is one.
    pub fn histogram_vec(&self, field: &str) -> (r: Option<&HistogramVecMetric>)
        ensures
            r is Some <==> named_kind(self@, field@, MetricKind::HistogramVec),
            r is Some ==> exists|i: int|
                first_named(self@, field@, i) && #[trigger] self.metric_at(i)
                    == Metric::HistogramVec(*r->Some_0),
    {
        proof {
            self.lemma_lookup(field@);
        }
        match self.get(field) {
            Some(Metric::HistogramVec(m)) => Some(m),
            _ => None,
        }
    }
}

} // verus!
