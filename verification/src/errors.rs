//! The two families of errors: those of the store, and those of the
//! serialization of single rows.

use crate::table::Modeled;
use crate::text::{debug_quoted, decimal, decimal_text, quote_for_debug};
use crate::triple::{triple_text, Triple, TripleView};
use vstd::prelude::*;
use vstd::string::*;

verus! {

/// Where an error was raised.
#[derive(Clone, Debug, PartialEq, Eq)]
pub struct SourceLocation {
    pub file: String,
    pub line: u32,
    pub column: u32,
}

pub struct SourceLocationView {
    pub file: Seq<char>,
    pub line: u32,
    pub column: u32,
}

/// A location as `file:line:column`.
pub open spec fn location_text(location: SourceLocationView) -> Seq<char> {
    location.file + ":"@ + decimal_text(location.line as nat) + ":"@ + decimal_text(
        location.column as nat,
    )
}

impl View for SourceLocation {
    type V = SourceLocationView;

    open spec fn view(&self) -> SourceLocationView {
        SourceLocationView { file: self.file@, line: self.line, column: self.column }
    }
}

impl SourceLocation {
    pub fn new(file: &str, line: u32, column: u32) -> (out: SourceLocation)
        ensures
            out@ == (SourceLocationView { file: file@, line, column }),
    {
        SourceLocation { file: String::from_str(file), line, column }
    }

    pub fn text(&self) -> (out: String)
        ensures
            out@ == location_text(self@),
    {
        let mut out = self.file.clone();
        out.append(":");
        let line = decimal(self.line as usize);
        out.append(line.as_str());
        out.append(":");
        let column = decimal(self.column as usize);
        out.append(column.as_str());
        out
    }
}

/// What went wrong in the store. Every kind but the first carries the text
/// of the failure that caused it.
#[derive(Clone, Debug, PartialEq, Eq)]
pub enum VOWLRStoreErrorKind {
    InvalidInput(String),
    HornedError(String),
    IOError(String),
    IriParseError(String),
    LoaderError(String),
    QueryEvaluationError(String),
    JoinError(String),
    StorageError(String),
}

pub enum VOWLRStoreErrorKindView {
    InvalidInput(Seq<char>),
    HornedError(Seq<char>),
    IOError(Seq<char>),
    IriParseError(Seq<char>),
    LoaderError(Seq<char>),
    QueryEvaluationError(Seq<char>),
    JoinError(Seq<char>),
    StorageError(Seq<char>),
}

impl View for VOWLRStoreErrorKind {
    type V = VOWLRStoreErrorKindView;

    open spec fn view(&self) -> VOWLRStoreErrorKindView {
        match self {
            VOWLRStoreErrorKind::InvalidInput(text) => VOWLRStoreErrorKindView::InvalidInput(text@),
            VOWLRStoreErrorKind::HornedError(text) => VOWLRStoreErrorKindView::HornedError(text@),
            VOWLRStoreErrorKind::IOError(text) => VOWLRStoreErrorKindView::IOError(text@),
            VOWLRStoreErrorKind::IriParseError(text) => VOWLRStoreErrorKindView::IriParseError(
                text@,
            ),
            VOWLRStoreErrorKind::LoaderError(text) => VOWLRStoreErrorKindView::LoaderError(text@),
            VOWLRStoreErrorKind::QueryEvaluationError(text) => {
                VOWLRStoreErrorKindView::QueryEvaluationError(text@)
            },
            VOWLRStoreErrorKind::JoinError(text) => VOWLRStoreErrorKindView::JoinError(text@),
            VOWLRStoreErrorKind::StorageError(text) => VOWLRStoreErrorKindView::StorageError(text@),
        }
    }
}

/// The name of a kind and the text it carries.
pub open spec fn kind_parts(kind: VOWLRStoreErrorKindView) -> (Seq<char>, Seq<char>) {
    match kind {
        VOWLRStoreErrorKindView::InvalidInput(text) => ("InvalidInput"@, text),
        VOWLRStoreErrorKindView::HornedError(text) => ("HornedError"@, text),
        VOWLRStoreErrorKindView::IOError(text) => ("IOError"@, text),
        VOWLRStoreErrorKindView::IriParseError(text) => ("IriParseError"@, text),
        VOWLRStoreErrorKindView::LoaderError(text) => ("LoaderError"@, text),
        VOWLRStoreErrorKindView::QueryEvaluationError(text) => ("QueryEvaluationError"@, text),
        VOWLRStoreErrorKindView::JoinError(text) => ("JoinError"@, text),
        VOWLRStoreErrorKindView::StorageError(text) => ("StorageError"@, text),
    }
}

/// A kind as it is written: its name, and between brackets its text as a
/// quoted string.
pub open spec fn kind_text(kind: VOWLRStoreErrorKindView) -> Seq<char> {
    kind_parts(kind).0 + "("@ + debug_quoted(kind_parts(kind).1) + ")"@
}

impl VOWLRStoreErrorKind {
    fn parts(&self) -> (out: (&'static str, &String))
        ensures
            (out.0@, out.1@) == kind_parts(self@),
    {
        match self {
            VOWLRStoreErrorKind::InvalidInput(text) => ("InvalidInput", text),
            VOWLRStoreErrorKind::HornedError(text) => ("HornedError", text),
            VOWLRStoreErrorKind::IOError(text) => ("IOError", text),
            VOWLRStoreErrorKind::IriParseError(text) => ("IriParseError", text),
            VOWLRStoreErrorKind::LoaderError(text) => ("LoaderError", text),
            VOWLRStoreErrorKind::QueryEvaluationError(text) => ("QueryEvaluationError", text),
            VOWLRStoreErrorKind::JoinError(text) => ("JoinError", text),
            VOWLRStoreErrorKind::StorageError(text) => ("StorageError", text),
        }
    }

    pub fn text(&self) -> (out: String)
        ensures
            out@ == kind_text(self@),
    {
        let (name, carried) = self.parts();
        let mut out = String::from_str(name);
        out.append("(");
        let quoted = quote_for_debug(carried.as_str());
        out.append(quoted.as_str());
        out.append(")");
        out
    }
}

/// An error of the store, with the place where it was raised.
#[derive(Clone, Debug, PartialEq, Eq)]
pub struct VOWLRStoreError {
    pub inner: VOWLRStoreErrorKind,
    pub location: SourceLocation,
}

pub struct VOWLRStoreErrorView {
    pub inner: VOWLRStoreErrorKindView,
    pub location: SourceLocationView,
}

impl View for VOWLRStoreError {
    type V = VOWLRStoreErrorView;

    open spec fn view(&self) -> VOWLRStoreErrorView {
        VOWLRStoreErrorView { inner: self.inner@, location: self.location@ }
    }
}

/// An error of the store as it is written: the kind, ` at `, the place.
pub open spec fn store_error_text(error: VOWLRStoreErrorView) -> Seq<char> {
    kind_text(error.inner) + " at "@ + location_text(error.location)
}

impl VOWLRStoreError {
    pub fn new(inner: VOWLRStoreErrorKind, location: SourceLocation) -> (out: VOWLRStoreError)
        ensures
            out@ == (VOWLRStoreErrorView { inner: inner@, location: location@ }),
    {
        VOWLRStoreError { inner, location }
    }

    /// The error of an input that is refused, with the message that says why.
    pub fn invalid_input(message: String, location: SourceLocation) -> (out: VOWLRStoreError)
        ensures
            out@ == (VOWLRStoreErrorView {
                inner: VOWLRStoreErrorKindView::InvalidInput(message@),
                location: location@,
            }),
    {
        VOWLRStoreError { inner: VOWLRStoreErrorKind::InvalidInput(message), location }
    }

    /// A serialization error taken over into the store's family: as invalid
    /// input that carries the error's text.
    pub fn from_serialization(error: &SerializationError, location: SourceLocation) -> (out:
        VOWLRStoreError)
        ensures
            out@.location == location@,
            out@.inner is InvalidInput,
            error_text_matches(error.kind_view(), out@.inner->InvalidInput_0),
    {
        VOWLRStoreError::invalid_input(error.text(), location)
    }

    pub fn text(&self) -> (out: String)
        ensures
            out@ == store_error_text(self@),
    {
        let mut out = self.inner.text();
        out.append(" at ");
        let place = self.location.text();
        out.append(place.as_str());
        out
    }
}

/// Gives the row an error is about.
pub trait SerializationErrorExt {
    spec fn offending(&self) -> Option<TripleView>;

    fn triple(&self) -> (out: Option<&Triple>)
        ensures
            out.model() == self.offending(),
    ;
}

#[derive(Debug)]
pub enum SerializationErrorKind {
    MissingObject(Option<Box<Triple>>, String),
    MissingSubject(Option<Box<Triple>>, String),
    SerializationFailed(Option<Box<Triple>>, String),
    IriParseError(Option<Box<Triple>>, Box<oxrdf::IriParseError>),
    BlankNodeParseError(Option<Box<Triple>>, Box<oxrdf::BlankNodeIdParseError>),
}

/// What a serialization error holds as plain values: its name, the row it
/// is about, and its message where it has one of its own.
pub struct SerializationErrorView {
    pub name: Seq<char>,
    pub triple: Option<TripleView>,
    pub message: Option<Seq<char>>,
}

pub open spec fn boxed_triple_view(triple: Option<Box<Triple>>) -> Option<TripleView> {
    match triple {
        Some(boxed) => Some((*boxed)@),
        None => None,
    }
}

impl SerializationErrorKind {
    pub open spec fn kind_view(&self) -> SerializationErrorView {
        match self {
            SerializationErrorKind::MissingObject(triple, message) => SerializationErrorView {
                name: "MissingObject"@,
                triple: boxed_triple_view(*triple),
                message: Some(message@),
            },
            SerializationErrorKind::MissingSubject(triple, message) => SerializationErrorView {
                name: "MissingSubject"@,
                triple: boxed_triple_view(*triple),
                message: Some(message@),
            },
            SerializationErrorKind::SerializationFailed(triple, message) => SerializationErrorView {
                name: "SerializationFailed"@,
                triple: boxed_triple_view(*triple),
                message: Some(message@),
            },
            SerializationErrorKind::IriParseError(triple, _) => SerializationErrorView {
                name: "IriParseError"@,
                triple: boxed_triple_view(*triple),
                message: None,
            },
            SerializationErrorKind::BlankNodeParseError(triple, _) => SerializationErrorView {
                name: "BlankNodeParseError"@,
                triple: boxed_triple_view(*triple),
                message: None,
            },
        }
    }
}

fn unboxed(triple: &Option<Box<Triple>>) -> (out: Option<&Triple>)
    ensures
        out.model() == boxed_triple_view(*triple),
{
    match triple {
        Some(boxed) => Some(&**boxed),
        None => None,
    }
}

impl SerializationErrorExt for SerializationErrorKind {
    open spec fn offending(&self) -> Option<TripleView> {
        self.kind_view().triple
    }

    fn triple(&self) -> (out: Option<&Triple>) {
        match self {
            SerializationErrorKind::MissingObject(triple, _) => unboxed(triple),
            SerializationErrorKind::MissingSubject(triple, _) => unboxed(triple),
            SerializationErrorKind::SerializationFailed(triple, _) => unboxed(triple),
            SerializationErrorKind::IriParseError(triple, _) => unboxed(triple),
            SerializationErrorKind::BlankNodeParseError(triple, _) => unboxed(triple),
        }
    }
}

#[derive(Debug)]
pub struct SerializationError {
    pub inner: SerializationErrorKind,
}

impl SerializationErrorExt for SerializationError {
    open spec fn offending(&self) -> Option<TripleView> {
        self.inner.kind_view().triple
    }

    fn triple(&self) -> (out: Option<&Triple>) {
        self.inner.triple()
    }
}

/// The text of an error with the given cause written in: the name, and
/// between brackets the row (or `None`) and the cause.
pub open spec fn error_text_with(error: SerializationErrorView, cause: Seq<char>) -> Seq<char> {
    "SerializationError: "@ + error.name + "("@ + (match error.triple {
        Some(triple) => triple_text(triple),
        None => "None"@,
    }) + ", "@ + cause + ")"@
}

/// Whether `text` is what the error is written as. An error with a message
/// of its own is written with that message as a quoted string; one that
/// wraps a parser's error is written with whatever the parser says.
pub open spec fn error_text_matches(error: SerializationErrorView, text: Seq<char>) -> bool {
    match error.message {
        Some(message) => text == error_text_with(error, debug_quoted(message)),
        None => exists|cause: Seq<char>| text == error_text_with(error, cause),
    }
}

/// What `oxrdf` says of a text that is no IRI. Nothing is claimed of it.
#[verifier::external_body]
fn iri_error_text(error: &oxrdf::IriParseError) -> (out: String) {
    error.to_string()
}

/// What `oxrdf` says of a text that is no blank node identifier. Nothing is
/// claimed of it.
#[verifier::external_body]
fn blank_node_error_text(error: &oxrdf::BlankNodeIdParseError) -> (out: String) {
    error.to_string()
}

impl From<SerializationErrorKind> for SerializationError {
    fn from(error: SerializationErrorKind) -> (out: Self) {
        SerializationError { inner: error }
    }
}

impl vstd::std_specs::convert::FromSpecImpl<SerializationErrorKind> for SerializationError {
    open spec fn obeys_from_spec() -> bool {
        true
    }

    open spec fn from_spec(error: SerializationErrorKind) -> Self {
        SerializationError { inner: error }
    }
}

impl From<oxrdf::IriParseError> for SerializationError {
    fn from(error: oxrdf::IriParseError) -> (out: Self) {
        SerializationError { inner: SerializationErrorKind::IriParseError(None, Box::new(error)) }
    }
}

impl vstd::std_specs::convert::FromSpecImpl<oxrdf::IriParseError> for SerializationError {
    open spec fn obeys_from_spec() -> bool {
        true
    }

    open spec fn from_spec(error: oxrdf::IriParseError) -> Self {
        SerializationError { inner: SerializationErrorKind::IriParseError(None, Box::new(error)) }
    }
}

impl From<oxrdf::BlankNodeIdParseError> for SerializationError {
    fn from(error: oxrdf::BlankNodeIdParseError) -> (out: Self) {
        SerializationError {
            inner: SerializationErrorKind::BlankNodeParseError(None, Box::new(error)),
        }
    }
}

impl vstd::std_specs::convert::FromSpecImpl<oxrdf::BlankNodeIdParseError> for SerializationError {
    open spec fn obeys_from_spec() -> bool {
        true
    }

    open spec fn from_spec(error: oxrdf::BlankNodeIdParseError) -> Self {
        SerializationError {
            inner: SerializationErrorKind::BlankNodeParseError(None, Box::new(error)),
        }
    }
}

impl SerializationError {
    pub open spec fn kind_view(&self) -> SerializationErrorView {
        self.inner.kind_view()
    }

    /// The error of a text that is no IRI, about no row.
    pub fn from_iri_error(error: oxrdf::IriParseError) -> (out: SerializationError)
        ensures
            out.inner == SerializationErrorKind::IriParseError(None, Box::new(error)),
            out.kind_view() == (SerializationErrorView {
                name: "IriParseError"@,
                triple: None,
                message: None,
            }),
    {
        SerializationError::from(error)
    }

    /// The error of a text that is no blank node identifier, about no row.
    pub fn from_blank_node_error(error: oxrdf::BlankNodeIdParseError) -> (out: SerializationError)
        ensures
            out.inner == SerializationErrorKind::BlankNodeParseError(None, Box::new(error)),
            out.kind_view() == (SerializationErrorView {
                name: "BlankNodeParseError"@,
                triple: None,
                message: None,
            }),
    {
        SerializationError::from(error)
    }

    /// The error as it is written.
    pub fn text(&self) -> (out: String)
        ensures
            error_text_matches(self.kind_view(), out@),
    {
        let (name, cause): (&'static str, String) = match &self.inner {
            SerializationErrorKind::MissingObject(_, message) => (
                "MissingObject",
                quote_for_debug(message.as_str()),
            ),
            SerializationErrorKind::MissingSubject(_, message) => (
                "MissingSubject",
                quote_for_debug(message.as_str()),
            ),
            SerializationErrorKind::SerializationFailed(_, message) => (
                "SerializationFailed",
                quote_for_debug(message.as_str()),
            ),
            SerializationErrorKind::IriParseError(_, error) => (
                "IriParseError",
                iri_error_text(&**error),
            ),
            SerializationErrorKind::BlankNodeParseError(_, error) => (
                "BlankNodeParseError",
                blank_node_error_text(&**error),
            ),
        };
        let mut out = String::from_str("SerializationError: ");
        out.append(name);
        out.append("(");
        match self.inner.triple() {
            Some(triple) => {
                let written = triple.text();
                out.append(written.as_str());
            },
            None => {
                out.append("None");
            },
        }
        out.append(", ");
        out.append(cause.as_str());
        out.append(")");
        assert(out@ == error_text_with(self.kind_view(), cause@));
        out
    }
}

} // verus!
