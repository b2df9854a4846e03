use vstd::prelude::*;

verus! {

/// The mathematical model of [`Opts`].
pub struct OptsView {
    pub name: Seq<char>,
    pub desc: Seq<char>,
    pub labels: Option<Seq<Seq<char>>>,
}

/// A generic description of one metric, for scalar and vector kinds alike.
pub struct Opts {
    name: String,
    desc: String,
    labels: Option<Vec<String>>,
}

/// The text of each string of a vector.
pub open spec fn strings_view(v: Seq<String>) -> Seq<Seq<char>> {
    v.map_values(|s: String| s@)
}

impl View for Opts {
    type V = OptsView;

    closed spec fn view(&self) -> OptsView {
        OptsView {
            name: self.name@,
            desc: self.desc@,
            labels: match self.labels {
                Some(v) => Some(strings_view(v@)),
                None => None,
            },
        }
    }
}

impl OptsView {
    /// The same options with the label list set to `labels`.
    pub open spec fn set_labels(self, labels: Seq<Seq<char>>) -> OptsView {
        OptsView { labels: Some(labels), ..self }
    }
}

/// Copies a list of string slices into owned strings.
pub fn owned_strings(items: &[&str]) -> (r: Vec<String>)
    ensures
        r@.len() == items@.len(),
        forall|i: int| 0 <= i < items@.len() ==> #[trigger] r@[i]@ == items@[i]@,
{
    let mut r: Vec<String> = Vec::new();
    let mut i: usize = 0;
    while i < items.len()
        invariant
            i <= items@.len(),
            r@.len() == i,
            forall|j: int| 0 <= j < i ==> #[trigger] r@[j]@ == items@[j]@,
        decreases items@.len() - i,
    {
        r.push(items[i].to_owned());
        i = i + 1;
    }
    r
}

impl Opts {
    /// Options with the given name and help text, and no labels.
    pub fn new(name: &str, desc: &str) -> (r: Opts)
        ensures
            r@ == (OptsView { name: name@, desc: desc@, labels: None }),
    {
        Opts { name: name.to_owned(), desc: desc.to_owned(), labels: None }
    }

    /// Attaches label names to the options; an earlier list is replaced.
    pub fn with_labels(self, labels: &[&str]) -> (r: Opts)
        ensures
            r@ == self@.set_labels(labels@.map_values(|s: &str| s@)),
    {
        let owned = owned_strings(labels);
        let r = Opts { labels: Some(owned), ..self };
        assert(strings_view(owned@) =~= labels@.map_values(|s: &str| s@));
        r
    }

    pub fn name(&self) -> (r: &String)
        ensures
            r@ == self@.name,
    {
        &self.name
    }

    pub fn desc(&self) -> (r: &String)
        ensures
            r@ == self@.desc,
    {
        &self.desc
    }

    pub fn labels(&self) -> (r: &Option<Vec<String>>)
        ensures
            r is Some <==> self@.labels is Some,
            r is Some ==> strings_view(r->Some_0@) == self@.labels->Some_0,
    {
        &self.labels
    }
}

} // verus!
