//! Properties that relate the converters and the composite registration.
use vstd::prelude::*;

use crate::composite::{
    all_buildable, decl_buildable, field_of, prefix_names, DeclView, FieldView,
};
use crate::convert::{
    can_build, conversion_outcome, lacks_labels, made_from, Metric, MetricError, MetricKind,
};
use crate::engine::{desc_valid, metric_labels};
use crate::opts::OptsView;

verus! {

/// A scalar kind ignores labels: attaching any label list to the options
/// changes nothing about whether the metric can be made or what it is made
/// with (its name, help text and an empty label list), and a scalar metric
/// with a valid name and help text is made whatever labels it carries.
pub proof fn lemma_scalar_ignores_labels(o: OptsView, labels: Seq<Seq<char>>, k: MetricKind)
    requires
        !k.is_vector(),
    ensures
        can_build(o.set_labels(labels), k) == can_build(o, k),
        !lacks_labels(o.set_labels(labels), k),
        desc_valid(o.name, o.desc, seq![]) ==> can_build(o.set_labels(labels), k),
        forall|r: Result<Metric, MetricError>|
            conversion_outcome(r, o.set_labels(labels), k) == conversion_outcome(r, o, k),
        forall|m: Metric| made_from(m, o.set_labels(labels), k) == made_from(m, o, k),
        forall|m: Metric|
            #[trigger] made_from(m, o.set_labels(labels), k) ==> metric_labels(m)
                == Seq::<Seq<char>>::empty(),
{
}

/// A labeled kind whose options carry no label list always fails with
/// `MissingLabels`, whatever the name and help text.
pub proof fn lemma_vector_requires_labels(o: OptsView, k: MetricKind)
    requires
        k.is_vector(),
        o.labels is None,
    ensures
        lacks_labels(o, k),
        !can_build(o, k),
        forall|r: Result<Metric, MetricError>|
            conversion_outcome(r, o, k) ==> (r matches Err(MetricError::MissingLabels)),
{
}

/// A successful registration of `n` declarations holds exactly `n` fields,
/// in the declared order, each with the declared field name; a field made
/// from options carries their name and help text, the declared kind, and (for
/// a labeled kind) the declared label names in order.
pub proof fn lemma_registered_fields(ds: Seq<DeclView>, fs: Seq<FieldView>)
    requires
        all_buildable(ds),
        fs == ds.map_values(|d: DeclView| field_of(d)),
    ensures
        fs.len() == ds.len(),
        forall|i: int| 0 <= i < ds.len() ==> (#[trigger] fs[i]).field == ds[i].field,
        forall|i: int|
            0 <= i < ds.len() && (#[trigger] ds[i]).source is Build ==> {
                let o = ds[i].source->Build_0;
                let k = ds[i].source->Build_1;
                &&& fs[i].name == o.name
                &&& fs[i].desc == o.desc
                &&& fs[i].kind == k
                &&& (k.is_vector() ==> fs[i].labels == o.labels->Some_0)
            },
{
    assert forall|i: int| 0 <= i < ds.len() implies (#[trigger] fs[i]).field == ds[i].field by {
        assert(fs[i] == field_of(ds[i]));
    }
    assert forall|i: int| 0 <= i < ds.len() && (#[trigger] ds[i]).source is Build implies {
        let o = ds[i].source->Build_0;
        let k = ds[i].source->Build_1;
        &&& fs[i].name == o.name
        &&& fs[i].desc == o.desc
        &&& fs[i].kind == k
        &&& (k.is_vector() ==> fs[i].labels == o.labels->Some_0)
    } by {
        assert(fs[i] == field_of(ds[i]));
        assert(decl_buildable(ds[i]));
    }
}

/// Two successful registrations of the same declarations, against any two
/// registries, give composites with the same fields.
pub proof fn lemma_same_declarations_same_fields(
    ds: Seq<DeclView>,
    first: Seq<FieldView>,
    second: Seq<FieldView>,
)
    requires
        first == ds.map_values(|d: DeclView| field_of(d)),
        second == ds.map_values(|d: DeclView| field_of(d)),
    ensures
        first == second,
{
}

/// Registering declarations with pairwise distinct metric names into a
/// registry that holds nothing leaves it holding exactly those names, one
/// per declaration.
pub proof fn lemma_registry_holds_declared_names(
    ds: Seq<DeclView>,
    before: Set<Seq<char>>,
    after: Set<Seq<char>>,
)
    requires
        before == Set::<Seq<char>>::empty(),
        after == before.union(prefix_names(ds, ds.len() as int)),
        forall|i: int, j: int|
            0 <= i < j < ds.len() ==> #[trigger] field_of(ds[i]).name != #[trigger] field_of(
                ds[j],
            ).name,
    ensures
        after.len() == ds.len(),
        forall|i: int| 0 <= i < ds.len() ==> after.contains(#[trigger] field_of(ds[i]).name),
        forall|name: Seq<char>|
            #[trigger] after.contains(name) ==> exists|i: int|
                0 <= i < ds.len() && field_of(ds[i]).name == name,
{
    let names = ds.map_values(|d: DeclView| field_of(d).name);
    assert forall|i: int| 0 <= i < ds.len() implies after.contains(
        #[trigger] field_of(ds[i]).name,
    ) by {
        assert(prefix_names(ds, ds.len() as int).contains(field_of(ds[i]).name));
    }
    assert(after =~= names.to_set()) by {
        assert forall|name: Seq<char>| after.contains(name) implies names.contains(name) by {
            let j = choose|j: int| 0 <= j < ds.len() && #[trigger] field_of(ds[j]).name == name;
            assert(names[j] == name);
        }
        assert forall|name: Seq<char>| names.contains(name) implies after.contains(name) by {
            let j = choose|j: int| 0 <= j < names.len() && names[j] == name;
            assert(field_of(ds[j]).name == name);
        }
    }
    assert(names.no_duplicates()) by {
        assert forall|i: int, j: int| 0 <= i < names.len() && 0 <= j < names.len() && i != j
            implies names[i] != names[j] by {
            if i < j {
                assert(field_of(ds[i]).name != field_of(ds[j]).name);
            } else {
                assert(field_of(ds[j]).name != field_of(ds[i]).name);
            }
        }
    }
    names.unique_seq_to_set();
}

} // verus!
