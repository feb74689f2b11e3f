//! The parts of an IRI that a label can be taken from.

use crate::table::Modeled;
use crate::term::{term_text, Term, TermView};
use crate::text::{last_segment, last_segment_spec, trim_tag_circumfix, trimmed_tag};
use vstd::prelude::*;
use vstd::string::*;

verus! {

/// The fragment and the path of a parsed IRI.
#[derive(Clone, Debug, PartialEq, Eq)]
pub struct IriParts {
    pub fragment: Option<String>,
    pub path: String,
}

pub struct IriPartsView {
    pub fragment: Option<Seq<char>>,
    pub path: Seq<char>,
}

impl Modeled for IriParts {
    type Model = IriPartsView;

    open spec fn model(&self) -> IriPartsView {
        IriPartsView { fragment: self.fragment.model(), path: self.path@ }
    }
}

/// What `fluent_uri` makes of a text: nothing where the text is no IRI, else
/// the IRI's fragment, if it has one, and its path.
pub uninterp spec fn parsed_iri(text: Seq<char>) -> Option<IriPartsView>;

/// Parses a text with `fluent_uri::Iri::parse` and hands back the fragment
/// and the path of the IRI as plain strings. What comes back is named, not
/// described: it depends on the text alone.
#[verifier::external_body]
pub(crate) fn parse_iri(text: &str) -> (out: Option<IriParts>)
    ensures
        out.model() == parsed_iri(text@),
{
    match fluent_uri::Iri::parse(text) {
        Ok(iri) => {
            let fragment = match iri.fragment() {
                Some(part) => Some(part.as_str().to_string()),
                None => None,
            };
            Some(IriParts { fragment, path: iri.path().as_str().to_string() })
        },
        Err(_) => None,
    }
}

/// The label that the parts of an IRI give: the fragment where there is
/// one, else what follows the last `/` of the path, else none.
pub open spec fn label_of_parts(parts: Option<IriPartsView>) -> Option<Seq<char>> {
    match parts {
        Some(parts) => match parts.fragment {
            Some(fragment) => Some(fragment),
            None => last_segment_spec(parts.path),
        },
        None => None,
    }
}

/// The label that a term's own identifier gives.
pub open spec fn inferred_label(term: TermView) -> Option<Seq<char>> {
    label_of_parts(parsed_iri(trimmed_tag(term_text(term))))
}

/// Takes a label from the parts of an IRI.
pub fn label_from_parts(parts: Option<IriParts>) -> (out: Option<String>)
    ensures
        out.model() == label_of_parts(parts.model()),
{
    match parts {
        Some(parts) => match parts.fragment {
            Some(fragment) => Some(fragment),
            None => last_segment(parts.path.as_str()),
        },
        None => None,
    }
}

/// Takes a label from a term's own identifier, where that is an IRI with a
/// fragment or with a path of more than one segment.
pub fn infer_label(term: &Term) -> (out: Option<String>)
    ensures
        out.model() == inferred_label(term@),
{
    let text = term.text();
    let clean = trim_tag_circumfix(&text);
    label_from_parts(parse_iri(clean.as_str()))
}

} // verus!
