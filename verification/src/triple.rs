//! One row of the query: a subject, the term that classifies or relates it,
//! and the term it is related to, where there is one.

use crate::table::{Keyed, Modeled};
use crate::term::{clone_optional_term, same_optional_term, term_text, Term, TermView};
use vstd::prelude::*;
use vstd::string::*;

verus! {

#[derive(Clone, Debug, PartialEq, Eq, Hash)]
pub struct Triple {
    /// The subject.
    pub id: Term,
    /// The predicate, or the kind the subject is declared as.
    pub element_type: Term,
    /// The object.
    pub target: Option<Term>,
}

pub struct TripleView {
    pub id: TermView,
    pub element_type: TermView,
    pub target: Option<TermView>,
}

/// The text a row is written as in messages.
pub open spec fn triple_text(triple: TripleView) -> Seq<char> {
    "Triple{ "@ + term_text(triple.id) + " - "@ + term_text(triple.element_type) + " - "@ + (
    match triple.target {
        Some(target) => term_text(target),
        None => Seq::<char>::empty(),
    }) + "}"@
}

impl Modeled for Triple {
    type Model = TripleView;

    open spec fn model(&self) -> TripleView {
        TripleView {
            id: self.id@,
            element_type: self.element_type@,
            target: self.target.model(),
        }
    }
}

impl View for Triple {
    type V = TripleView;

    open spec fn view(&self) -> TripleView {
        self.model()
    }
}

impl Keyed for Triple {
    open spec fn same(a: TripleView, b: TripleView) -> bool {
        a == b
    }

    fn matches(&self, other: &Self) -> (out: bool) {
        self.id.matches(&other.id) && self.element_type.matches(&other.element_type)
            && same_optional_term(&self.target, &other.target)
    }
}

impl Triple {
    pub fn new(id: Term, element_type: Term, target: Option<Term>) -> (out: Triple)
        ensures
            out@ == (TripleView { id: id@, element_type: element_type@, target: target.model() }),
    {
        Triple { id, element_type, target }
    }

    pub fn duplicate(&self) -> (out: Triple)
        ensures
            out@ == self@,
    {
        Triple {
            id: self.id.duplicate(),
            element_type: self.element_type.duplicate(),
            target: clone_optional_term(&self.target),
        }
    }

    /// The row as it is written in messages.
    pub fn text(&self) -> (out: String)
        ensures
            out@ == triple_text(self@),
    {
        let mut out = String::from_str("Triple{ ");
        let id = self.id.text();
        out.append(id.as_str());
        out.append(" - ");
        let element_type = self.element_type.text();
        out.append(element_type.as_str());
        out.append(" - ");
        match &self.target {
            Some(target) => {
                let target = target.text();
                out.append(target.as_str());
            },
            None => {
                assert(out@ + Seq::<char>::empty() =~= out@);
            },
        }
        out.append("}");
        out
    }
}

} // verus!
