//! An edge of the graph, and when two edges count as the same one.

use crate::element::{element_name, ElementType};
use crate::table::{put_absent, Keyed, Modeled};
use crate::term::{clone_optional_term, same_optional_term, term_text, Term, TermView};
use vstd::prelude::*;
use vstd::string::*;

verus! {

#[derive(Clone, Debug)]
pub struct Edge {
    pub subject: Term,
    pub element_type: ElementType,
    pub object: Term,
    /// The predicate the edge was drawn from, for the kinds that have one.
    pub property: Option<Term>,
}

pub struct EdgeView {
    pub subject: TermView,
    pub element_type: ElementType,
    pub object: TermView,
    pub property: Option<TermView>,
}

/// Two edges are the same when kind and property agree and they join the
/// same ends: in the same direction, or for a symmetric kind in either.
pub open spec fn same_edge(a: EdgeView, b: EdgeView) -> bool {
    &&& a.element_type == b.element_type
    &&& a.property == b.property
    &&& if a.element_type.is_symmetric() {
        (a.subject == b.subject && a.object == b.object) || (a.subject == b.object && a.object
            == b.subject)
    } else {
        a.subject == b.subject && a.object == b.object
    }
}

/// The text an edge is written as in messages.
pub open spec fn edge_text(edge: EdgeView) -> Seq<char> {
    "Edge{ "@ + term_text(edge.subject) + " - "@ + element_name(edge.element_type) + " - "@
        + term_text(edge.object) + " }"@
}

impl Modeled for Edge {
    type Model = EdgeView;

    open spec fn model(&self) -> EdgeView {
        EdgeView {
            subject: self.subject@,
            element_type: self.element_type,
            object: self.object@,
            property: self.property.model(),
        }
    }
}

impl View for Edge {
    type V = EdgeView;

    open spec fn view(&self) -> EdgeView {
        self.model()
    }
}

impl Keyed for Edge {
    open spec fn same(a: EdgeView, b: EdgeView) -> bool {
        same_edge(a, b)
    }

    fn matches(&self, other: &Self) -> (out: bool) {
        if !(self.element_type == other.element_type) || !same_optional_term(
            &self.property,
            &other.property,
        ) {
            return false;
        }
        let forward = self.subject.matches(&other.subject) && self.object.matches(&other.object);
        if self.element_type.symmetric() {
            forward || (self.subject.matches(&other.object) && self.object.matches(&other.subject))
        } else {
            forward
        }
    }
}

impl Edge {
    pub fn new(subject: Term, element_type: ElementType, object: Term, property: Option<Term>) -> (out:
        Edge)
        ensures
            out@ == (EdgeView {
                subject: subject@,
                element_type,
                object: object@,
                property: property.model(),
            }),
    {
        Edge { subject, element_type, object, property }
    }

    pub fn duplicate(&self) -> (out: Edge)
        ensures
            out@ == self@,
    {
        Edge {
            subject: self.subject.duplicate(),
            element_type: self.element_type,
            object: self.object.duplicate(),
            property: clone_optional_term(&self.property),
        }
    }

    /// The edge as it is written in messages.
    pub fn text(&self) -> (out: String)
        ensures
            out@ == edge_text(self@),
    {
        let mut out = String::from_str("Edge{ ");
        let subject = self.subject.text();
        out.append(subject.as_str());
        out.append(" - ");
        out.append(self.element_type.name());
        out.append(" - ");
        let object = self.object.text();
        out.append(object.as_str());
        out.append(" }");
        out
    }
}

impl PartialEq for Edge {
    fn eq(&self, other: &Self) -> (out: bool) {
        self.matches(other)
    }
}

impl vstd::std_specs::cmp::PartialEqSpecImpl for Edge {
    open spec fn obeys_eq_spec() -> bool {
        true
    }

    open spec fn eq_spec(&self, other: &Self) -> bool {
        same_edge(self@, other@)
    }
}

impl Eq for Edge {

}

/// Being the same edge is an equivalence.
pub proof fn lemma_same_edge_equivalence(a: EdgeView, b: EdgeView, c: EdgeView)
    ensures
        same_edge(a, a),
        same_edge(a, b) ==> same_edge(b, a),
        same_edge(a, b) && same_edge(b, c) ==> same_edge(a, c),
{
}

/// An edge of a symmetric kind is the same edge with its ends swapped, and a
/// set that holds one of the two takes the other as already present.
pub proof fn lemma_symmetric_edges_collide(edge: EdgeView)
    requires
        edge.element_type.is_symmetric(),
    ensures
        same_edge(
            edge,
            EdgeView { subject: edge.object, object: edge.subject, ..edge },
        ),
        put_absent::<Edge, ()>(
            put_absent::<Edge, ()>(Seq::empty(), edge, ()),
            EdgeView { subject: edge.object, object: edge.subject, ..edge },
            (),
        ).len() == 1,
{
    let swapped = EdgeView { subject: edge.object, object: edge.subject, ..edge };
    let empty = Seq::<(EdgeView, ())>::empty();
    crate::table::lemma_no_match::<Edge, ()>(empty, edge);
    let one = put_absent::<Edge, ()>(empty, edge, ());
    assert(one =~= seq![(edge, ())]);
    crate::table::lemma_some_match::<Edge, ()>(one, swapped, 0);
}

/// An edge of a kind that is not symmetric differs from the edge with its
/// ends swapped, unless the two ends are one term; a set takes both.
pub proof fn lemma_directed_edges_differ(edge: EdgeView)
    requires
        !edge.element_type.is_symmetric(),
        edge.subject != edge.object,
    ensures
        !same_edge(
            edge,
            EdgeView { subject: edge.object, object: edge.subject, ..edge },
        ),
        put_absent::<Edge, ()>(
            put_absent::<Edge, ()>(Seq::empty(), edge, ()),
            EdgeView { subject: edge.object, object: edge.subject, ..edge },
            (),
        ).len() == 2,
{
    let swapped = EdgeView { subject: edge.object, object: edge.subject, ..edge };
    let empty = Seq::<(EdgeView, ())>::empty();
    crate::table::lemma_no_match::<Edge, ()>(empty, edge);
    let one = put_absent::<Edge, ()>(empty, edge, ());
    assert(one =~= seq![(edge, ())]);
    crate::table::lemma_no_match::<Edge, ()>(one, swapped);
}

} // verus!
