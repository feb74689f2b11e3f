//! RDF terms as plain values: a named node, a blank node or a literal, with
//! the text each is written as.

use crate::table::{Keyed, Modeled};
use vstd::prelude::*;
use vstd::string::*;

verus! {

/// The datatype of a literal that has neither a language nor a datatype of
/// its own.
pub const XSD_STRING: &'static str = "http://www.w3.org/2001/XMLSchema#string";

/// A literal: its lexical value, its language tag where it has one, and the
/// IRI of its datatype.
#[derive(Clone, Debug, PartialEq, Eq, Hash)]
pub struct Literal {
    pub value: String,
    pub language: Option<String>,
    pub datatype: String,
}

#[derive(Clone, Debug, PartialEq, Eq, Hash)]
pub enum Term {
    /// An IRI, without angle brackets.
    NamedNode(String),
    /// A blank node's identifier, without the `_:` in front.
    BlankNode(String),
    Literal(Literal),
}

pub struct LiteralView {
    pub value: Seq<char>,
    pub language: Option<Seq<char>>,
    pub datatype: Seq<char>,
}

pub enum TermView {
    NamedNode(Seq<char>),
    BlankNode(Seq<char>),
    Literal(LiteralView),
}

/// The text that `oxrdf` writes a literal with a language as: the quoted
/// and escaped value, then `@` and the language.
pub uninterp spec fn tagged_literal_text(value: Seq<char>, language: Seq<char>) -> Seq<char>;

/// The text that `oxrdf` writes a literal without a language as: the quoted
/// and escaped value, then `^^` and the datatype between angle brackets
/// unless the datatype is the plain string type.
pub uninterp spec fn typed_literal_text(value: Seq<char>, datatype: Seq<char>) -> Seq<char>;

/// The text a literal is written as.
pub open spec fn rendered_literal(literal: LiteralView) -> Seq<char> {
    match literal.language {
        Some(language) => tagged_literal_text(literal.value, language),
        None => typed_literal_text(literal.value, literal.datatype),
    }
}

/// The text a term is written as: a named node between angle brackets, a
/// blank node after `_:`, a literal as `rendered_literal` has it.
pub open spec fn term_text(term: TermView) -> Seq<char> {
    match term {
        TermView::NamedNode(iri) => seq!['<'] + iri + seq!['>'],
        TermView::BlankNode(id) => seq!['_', ':'] + id,
        TermView::Literal(literal) => rendered_literal(literal),
    }
}

impl Modeled for Literal {
    type Model = LiteralView;

    open spec fn model(&self) -> LiteralView {
        LiteralView {
            value: self.value@,
            language: self.language.model(),
            datatype: self.datatype@,
        }
    }
}

impl Modeled for Term {
    type Model = TermView;

    open spec fn model(&self) -> TermView {
        match self {
            Term::NamedNode(iri) => TermView::NamedNode(iri@),
            Term::BlankNode(id) => TermView::BlankNode(id@),
            Term::Literal(literal) => TermView::Literal(literal.model()),
        }
    }
}

impl View for Term {
    type V = TermView;

    open spec fn view(&self) -> TermView {
        self.model()
    }
}

/// Builds a literal with a language by
/// `oxrdf::Literal::new_language_tagged_literal_unchecked` and writes it with
/// the formatter that `oxrdf` gives its literals. The text that comes back
/// is named, not described: it depends on the two arguments alone.
#[verifier::external_body]
fn write_tagged_literal(value: &str, language: &str) -> (out: String)
    ensures
        out@ == tagged_literal_text(value@, language@),
{
    oxrdf::Literal::new_language_tagged_literal_unchecked(value, language).to_string()
}

/// Builds a literal with a datatype by `oxrdf::Literal::new_typed_literal`
/// and writes it with the formatter that `oxrdf` gives its literals. The
/// text that comes back is named, not described: it depends on the two
/// arguments alone.
#[verifier::external_body]
fn write_typed_literal(value: &str, datatype: &str) -> (out: String)
    ensures
        out@ == typed_literal_text(value@, datatype@),
{
    oxrdf::Literal::new_typed_literal(value, oxrdf::NamedNode::new_unchecked(datatype)).to_string()
}

/// The error with which `oxrdf` refuses a text that is no IRI.
#[verifier::external_type_specification]
#[verifier::external_body]
pub struct ExIriParseError(oxrdf::IriParseError);

/// The error with which `oxrdf` refuses a text that is no blank node
/// identifier.
#[verifier::external_type_specification]
#[verifier::external_body]
pub struct ExBlankNodeIdParseError(oxrdf::BlankNodeIdParseError);

/// Whether `oxrdf` takes a text as the IRI of a named node, which it does
/// when the text parses as an absolute IRI.
pub uninterp spec fn is_named_node_iri(text: Seq<char>) -> bool;

/// Builds a named node with `oxrdf::NamedNode::new` and hands back its IRI.
/// The call succeeds exactly on the texts that `is_named_node_iri` names,
/// and the node keeps the text as it was given.
#[verifier::external_body]
pub(crate) fn parse_named_node(iri: &str) -> (out: Result<String, oxrdf::IriParseError>)
    ensures
        out is Ok <==> is_named_node_iri(iri@),
        out matches Ok(text) ==> text@ == iri@,
{
    match oxrdf::NamedNode::new(iri) {
        Ok(node) => Ok(node.into_string()),
        Err(error) => Err(error),
    }
}

/// Whether two optional strings hold the same text, or both none.
pub fn same_optional_text(a: &Option<String>, b: &Option<String>) -> (out: bool)
    ensures
        out == (a.model() == b.model()),
{
    match (a, b) {
        (Some(x), Some(y)) => *x == *y,
        (None, None) => true,
        _ => false,
    }
}

pub fn clone_optional_text(a: &Option<String>) -> (out: Option<String>)
    ensures
        out.model() == a.model(),
{
    match a {
        Some(x) => Some(x.clone()),
        None => None,
    }
}

impl Literal {
    /// The text this literal is written as.
    pub fn text(&self) -> (out: String)
        ensures
            out@ == rendered_literal(self.model()),
    {
        match &self.language {
            Some(language) => write_tagged_literal(self.value.as_str(), language.as_str()),
            None => write_typed_literal(self.value.as_str(), self.datatype.as_str()),
        }
    }

    pub fn duplicate(&self) -> (out: Literal)
        ensures
            out.model() == self.model(),
    {
        Literal {
            value: self.value.clone(),
            language: clone_optional_text(&self.language),
            datatype: self.datatype.clone(),
        }
    }

    pub fn matches(&self, other: &Literal) -> (out: bool)
        ensures
            out == (self.model() == other.model()),
    {
        self.value == other.value && same_optional_text(&self.language, &other.language)
            && self.datatype == other.datatype
    }
}

impl Term {
    /// The named node with this IRI. The IRI is taken as it is.
    pub fn named(iri: &str) -> (out: Term)
        ensures
            out@ == TermView::NamedNode(iri@),
    {
        Term::NamedNode(String::from_str(iri))
    }

    /// The blank node with this identifier.
    pub fn blank(id: &str) -> (out: Term)
        ensures
            out@ == TermView::BlankNode(id@),
    {
        Term::BlankNode(String::from_str(id))
    }

    /// The literal with this value, no language and the plain string type.
    pub fn simple_literal(value: &str) -> (out: Term)
        ensures
            out@ == TermView::Literal(
                LiteralView { value: value@, language: None, datatype: XSD_STRING@ },
            ),
    {
        Term::Literal(
            Literal {
                value: String::from_str(value),
                language: None,
                datatype: String::from_str(XSD_STRING),
            },
        )
    }

    pub fn is_named_node(&self) -> (out: bool)
        ensures
            out == (self@ is NamedNode),
    {
        match self {
            Term::NamedNode(_) => true,
            _ => false,
        }
    }

    pub fn is_blank_node(&self) -> (out: bool)
        ensures
            out == (self@ is BlankNode),
    {
        match self {
            Term::BlankNode(_) => true,
            _ => false,
        }
    }

    pub fn is_literal(&self) -> (out: bool)
        ensures
            out == (self@ is Literal),
    {
        match self {
            Term::Literal(_) => true,
            _ => false,
        }
    }

    pub fn duplicate(&self) -> (out: Term)
        ensures
            out@ == self@,
    {
        match self {
            Term::NamedNode(iri) => Term::NamedNode(iri.clone()),
            Term::BlankNode(id) => Term::BlankNode(id.clone()),
            Term::Literal(literal) => Term::Literal(literal.duplicate()),
        }
    }

    /// Whether this term is the named node with the given IRI.
    pub fn is_iri(&self, iri: &str) -> (out: bool)
        ensures
            out == (self@ == TermView::NamedNode(iri@)),
    {
        match self {
            Term::NamedNode(own) => {
                let other = String::from_str(iri);
                *own == other
            },
            _ => false,
        }
    }

    /// The text this term is written as.
    pub fn text(&self) -> (out: String)
        ensures
            out@ == term_text(self@),
    {
        match self {
            Term::NamedNode(iri) => {
                let mut out = String::from_str("<");
                out.append(iri.as_str());
                out.append(">");
                proof {
                    reveal_strlit("<");
                    reveal_strlit(">");
                    assert("<"@ =~= seq!['<']);
                    assert(">"@ =~= seq!['>']);
                }
                out
            },
            Term::BlankNode(id) => {
                let mut out = String::from_str("_:");
                out.append(id.as_str());
                proof {
                    reveal_strlit("_:");
                    assert("_:"@ =~= seq!['_', ':']);
                }
                out
            },
            Term::Literal(literal) => literal.text(),
        }
    }
}

impl Keyed for Term {
    open spec fn same(a: TermView, b: TermView) -> bool {
        a == b
    }

    fn matches(&self, other: &Self) -> (out: bool) {
        match (self, other) {
            (Term::NamedNode(a), Term::NamedNode(b)) => *a == *b,
            (Term::BlankNode(a), Term::BlankNode(b)) => *a == *b,
            (Term::Literal(a), Term::Literal(b)) => a.matches(b),
            _ => false,
        }
    }
}

/// Whether two optional terms are the same term, or both none.
pub fn same_optional_term(a: &Option<Term>, b: &Option<Term>) -> (out: bool)
    ensures
        out == (a.model() == b.model()),
{
    match (a, b) {
        (Some(x), Some(y)) => x.matches(y),
        (None, None) => true,
        _ => false,
    }
}

pub fn clone_optional_term(a: &Option<Term>) -> (out: Option<Term>)
    ensures
        out.model() == a.model(),
{
    match a {
        Some(x) => Some(x.duplicate()),
        None => None,
    }
}

} // verus!
