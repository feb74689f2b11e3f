//! What the store decides without touching a file or a session: which
//! format an input has, where an upload stands, which file a bundled
//! ontology is.

use crate::errors::{
    SourceLocation, SourceLocationView, VOWLRStoreError, VOWLRStoreErrorKindView,
    VOWLRStoreErrorView,
};
use crate::table::Modeled;
use crate::text::{extension_of, extension_spec};
use crate::vocab::text_is;
use vstd::prelude::*;
use vstd::string::*;

verus! {

/// The serializations an ontology can be read from.
#[derive(Clone, Copy, Debug, PartialEq, Eq, Structural)]
pub enum InputFormat {
    /// OWL functional syntax, `.ofn`.
    OwlFunctional,
    /// RDF/XML, `.owl`.
    RdfXml,
    /// Turtle, `.ttl`.
    Turtle,
    /// OWL/XML, `.owx`.
    OwlXml,
}

/// The serializations an export can be asked for.
#[derive(Clone, Copy, Debug, PartialEq, Eq, Structural)]
pub enum DataType {
    OWL,
    OFN,
    OWX,
    TTL,
}

/// The format that an extension stands for.
pub open spec fn format_of(extension: Seq<char>) -> Option<InputFormat> {
    if extension == "ofn"@ {
        Some(InputFormat::OwlFunctional)
    } else if extension == "owl"@ {
        Some(InputFormat::RdfXml)
    } else if extension == "ttl"@ {
        Some(InputFormat::Turtle)
    } else if extension == "owx"@ {
        Some(InputFormat::OwlXml)
    } else {
        None
    }
}

/// The extension of a path, or nothing where it has none.
pub open spec fn extension_or_empty(path: Seq<char>) -> Seq<char> {
    match extension_spec(path) {
        Some(extension) => extension,
        None => Seq::empty(),
    }
}

pub open spec fn unsupported_extension_message(extension: Seq<char>) -> Seq<char> {
    "Unsupported file extension: '"@ + extension + "'"@
}

pub open spec fn format_site() -> SourceLocationView {
    SourceLocationView { file: "src/store.rs"@, line: 0, column: 0 }
}

pub fn format_of_extension(extension: &str) -> (out: Option<InputFormat>)
    ensures
        out == format_of(extension@),
{
    let extension = String::from_str(extension);
    if text_is(&extension, "ofn") {
        Some(InputFormat::OwlFunctional)
    } else if text_is(&extension, "owl") {
        Some(InputFormat::RdfXml)
    } else if text_is(&extension, "ttl") {
        Some(InputFormat::Turtle)
    } else if text_is(&extension, "owx") {
        Some(InputFormat::OwlXml)
    } else {
        None
    }
}

/// Picks the parser for a file by the file's extension. Any extension but
/// the four that are supported is refused, and the error names it.
pub fn parser_from_format(path: &str) -> (out: Result<InputFormat, VOWLRStoreError>)
    ensures
        match out {
            Ok(format) => format_of(extension_or_empty(path@)) == Some(format),
            Err(error) => format_of(extension_or_empty(path@)) is None && error@
                == (VOWLRStoreErrorView {
                inner: VOWLRStoreErrorKindView::InvalidInput(
                    unsupported_extension_message(extension_or_empty(path@)),
                ),
                location: format_site(),
            }),
        },
{
    let extension = match extension_of(path) {
        Some(extension) => extension,
        None => String::new(),
    };
    match format_of_extension(extension.as_str()) {
        Some(format) => Ok(format),
        None => {
            let mut message = String::from_str("Unsupported file extension: '");
            message.append(extension.as_str());
            message.append("'");
            Err(VOWLRStoreError::invalid_input(message, SourceLocation::new("src/store.rs", 0, 0)))
        },
    }
}

pub open spec fn unsupported_export_message() -> Seq<char> {
    "Unsupported export format: only OWL functional syntax can be written"@
}

/// Picks the serializer of an export. Only the OWL target has one.
pub fn exporter_for(data_type: DataType) -> (out: Result<InputFormat, VOWLRStoreError>)
    ensures
        match out {
            Ok(format) => data_type == DataType::OWL && format == InputFormat::OwlFunctional,
            Err(error) => data_type != DataType::OWL && error@ == (VOWLRStoreErrorView {
                inner: VOWLRStoreErrorKindView::InvalidInput(unsupported_export_message()),
                location: format_site(),
            }),
        },
{
    match data_type {
        DataType::OWL => Ok(InputFormat::OwlFunctional),
        _ => Err(
            VOWLRStoreError::invalid_input(
                String::from_str(
                    "Unsupported export format: only OWL functional syntax can be written",
                ),
                SourceLocation::new("src/store.rs", 0, 0),
            ),
        ),
    }
}

/// The suffix of the temporary file of an upload: a dot and the extension
/// of the uploaded file's name, or `.owl` where the name has none.
pub open spec fn upload_suffix_spec(filename: Seq<char>) -> Seq<char> {
    "."@ + match extension_spec(filename) {
        Some(extension) => extension,
        None => "owl"@,
    }
}

pub fn upload_suffix(filename: &str) -> (out: String)
    ensures
        out@ == upload_suffix_spec(filename@),
{
    let mut out = String::from_str(".");
    match extension_of(filename) {
        Some(extension) => {
            out.append(extension.as_str());
        },
        None => {
            out.append("owl");
        },
    }
    out
}

/// Where an upload stands.
#[derive(Clone, Copy, Debug, PartialEq, Eq, Structural)]
pub enum UploadState {
    /// No upload is in progress.
    Idle,
    /// A temporary file is open and takes chunks.
    Uploading,
}

/// What is to be done with a chunk.
#[derive(Clone, Copy, Debug, PartialEq, Eq, Structural)]
pub enum ChunkAction {
    /// Append it to the temporary file.
    Append,
    /// No upload was started: warn, and do not fail.
    Ignore,
}

/// What is to be done when an upload is declared complete.
#[derive(Clone, Copy, Debug, PartialEq, Eq, Structural)]
pub enum CompleteAction {
    /// Flush the temporary file, load it strictly, and drop it whatever came
    /// of the load.
    LoadAndDiscard,
    /// No upload was started: nothing is done and nothing fails.
    Nothing,
}

impl UploadState {
    pub fn new() -> (out: UploadState)
        ensures
            out == UploadState::Idle,
    {
        UploadState::Idle
    }

    /// A temporary file was opened for a new upload. An upload that was in
    /// progress is dropped.
    pub fn start_upload(&mut self)
        ensures
            *final(self) == UploadState::Uploading,
    {
        *self = UploadState::Uploading;
    }

    /// A chunk arrived. The state stays as it is.
    pub fn upload_chunk(&self) -> (out: ChunkAction)
        ensures
            out == if *self == UploadState::Uploading {
                ChunkAction::Append
            } else {
                ChunkAction::Ignore
            },
    {
        match self {
            UploadState::Uploading => ChunkAction::Append,
            UploadState::Idle => ChunkAction::Ignore,
        }
    }

    /// The upload was declared complete. Whatever was in progress is over.
    pub fn complete_upload(&mut self) -> (out: CompleteAction)
        ensures
            *final(self) == UploadState::Idle,
            out == if *old(self) == UploadState::Uploading {
                CompleteAction::LoadAndDiscard
            } else {
                CompleteAction::Nothing
            },
    {
        let out = match self {
            UploadState::Uploading => CompleteAction::LoadAndDiscard,
            UploadState::Idle => CompleteAction::Nothing,
        };
        *self = UploadState::Idle;
        out
    }
}

pub const CLINICAL_TRIALS: &'static str = "Clinical Trials Ontology (CTO) (273 classes)";

pub const FRIEND_OF_A_FRIEND: &'static str = "Friend of a Friend (FOAF) vocabulary (22 classes)";

pub const BENCHMARK: &'static str = "VOWL-R Benchmark Ontology (2.5k nodes)";

pub const ENVIRONMENT: &'static str = "The Environment Ontology (6.9k classes)";

/// The file of each bundled ontology, by the name it is offered under.
pub open spec fn stored_path(name: Seq<char>) -> Option<Seq<char>> {
    if name == CLINICAL_TRIALS@ {
        Some("src/assets/data/ClinicalTrialOntology-merged.owl"@)
    } else if name == FRIEND_OF_A_FRIEND@ {
        Some("src/assets/data/foaf.ttl"@)
    } else if name == BENCHMARK@ {
        Some("src/assets/data/vowlr-benchmark-2500.ofn"@)
    } else if name == ENVIRONMENT@ {
        Some("src/assets/data/envo.owl"@)
    } else {
        None
    }
}

pub open spec fn unknown_ontology_message(name: Seq<char>) -> Seq<char> {
    "Unknown ontology: "@ + name
}

/// Finds the file of a bundled ontology. Any other name is refused, and the
/// error names it.
pub fn ontology_file_path(name: &str) -> (out: Result<&'static str, String>)
    ensures
        match out {
            Ok(path) => stored_path(name@) == Some(path@),
            Err(message) => stored_path(name@) is None && message@ == unknown_ontology_message(
                name@,
            ),
        },
{
    let owned = String::from_str(name);
    if text_is(&owned, CLINICAL_TRIALS) {
        Ok("src/assets/data/ClinicalTrialOntology-merged.owl")
    } else if text_is(&owned, FRIEND_OF_A_FRIEND) {
        Ok("src/assets/data/foaf.ttl")
    } else if text_is(&owned, BENCHMARK) {
        Ok("src/assets/data/vowlr-benchmark-2500.ofn")
    } else if text_is(&owned, ENVIRONMENT) {
        Ok("src/assets/data/envo.owl")
    } else {
        let mut message = String::from_str("Unknown ontology: ");
        message.append(name);
        Err(message)
    }
}

} // verus!
