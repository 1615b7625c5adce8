//! A JSON tree as deep as the signaling messages go: a top-level object whose
//! values are scalars or objects of scalars. Anything else in a position is `Other`.
use vstd::prelude::*;

verus! {

#[derive(Debug)]
pub enum JsonScalar {
    Null,
    Bool(bool),
    Number(u64),
    Str(String),
    /// An array, a number that is not a `u64`, or an object nested too deep.
    Other,
}

#[derive(Debug)]
pub enum JsonValue {
    Scalar(JsonScalar),
    Object(Vec<(String, JsonScalar)>),
}

/// A top-level JSON object, its members in order.
#[derive(Debug)]
pub struct JsonObject {
    pub fields: Vec<(String, JsonValue)>,
}

pub ghost enum ScalarView {
    Null,
    Bool(bool),
    Number(u64),
    Str(Seq<char>),
    Other,
}

pub ghost enum ValueView {
    Scalar(ScalarView),
    Object(Seq<(Seq<char>, ScalarView)>),
}

pub type ObjectView = Seq<(Seq<char>, ValueView)>;

pub open spec fn pairs_view<V: View>(s: Seq<(String, V)>) -> Seq<(Seq<char>, V::V)> {
    s.map_values(|p: (String, V)| (p.0@, p.1@))
}

impl View for JsonScalar {
    type V = ScalarView;

    open spec fn view(&self) -> ScalarView {
        match self {
            JsonScalar::Null => ScalarView::Null,
            JsonScalar::Bool(b) => ScalarView::Bool(*b),
            JsonScalar::Number(n) => ScalarView::Number(*n),
            JsonScalar::Str(s) => ScalarView::Str(s@),
            JsonScalar::Other => ScalarView::Other,
        }
    }
}

impl View for JsonValue {
    type V = ValueView;

    open spec fn view(&self) -> ValueView {
        match self {
            JsonValue::Scalar(s) => ValueView::Scalar(s@),
            JsonValue::Object(f) => ValueView::Object(pairs_view(f@)),
        }
    }
}

impl View for JsonObject {
    type V = ObjectView;

    open spec fn view(&self) -> ObjectView {
        pairs_view(self.fields@)
    }
}

/// The value of the first member named `k`.
pub open spec fn lookup<V>(o: Seq<(Seq<char>, V)>, k: Seq<char>) -> Option<V>
    decreases o.len(),
{
    if o.len() == 0 {
        None
    } else if o[0].0 == k {
        Some(o[0].1)
    } else {
        lookup(o.drop_first(), k)
    }
}

pub proof fn lemma_lookup_first<V>(o: Seq<(Seq<char>, V)>, k: Seq<char>, i: int)
    requires
        0 <= i < o.len(),
        o[i].0 == k,
        forall|j: int| 0 <= j < i ==> o[j].0 != k,
    ensures
        lookup(o, k) == Some(o[i].1),
    decreases i,
{
    if i > 0 {
        assert(o[0].0 != k);
        lemma_lookup_first(o.drop_first(), k, i - 1);
    }
}

pub proof fn lemma_lookup_absent<V>(o: Seq<(Seq<char>, V)>, k: Seq<char>)
    requires
        forall|j: int| 0 <= j < o.len() ==> o[j].0 != k,
    ensures
        lookup(o, k) is None,
    decreases o.len(),
{
    if o.len() > 0 {
        lemma_lookup_absent(o.drop_first(), k);
    }
}

/// The first member named `key`.
pub fn find_field<'a, V: View>(fields: &'a Vec<(String, V)>, key: &String) -> (r: Option<&'a V>)
    ensures
        match r {
            Some(v) => lookup(pairs_view(fields@), key@) == Some(v@),
            None => lookup(pairs_view(fields@), key@) is None,
        },
{
    let ghost o = pairs_view(fields@);
    let mut i: usize = 0;
    while i < fields.len()
        invariant
            i <= fields@.len(),
            o == pairs_view(fields@),
            forall|j: int| 0 <= j < i ==> o[j].0 != key@,
        decreases fields@.len() - i,
    {
        if fields[i].0 == *key {
            proof { lemma_lookup_first(o, key@, i as int); }
            return Some(&fields[i].1);
        }
        i = i + 1;
    }
    proof { lemma_lookup_absent(o, key@); }
    None
}

} // verus!
