use vowlr::errors::VOWLRStoreErrorKind;
use vowlr::store::{
    exporter_for, format_of_extension, ontology_file_path, parser_from_format, upload_suffix,
    ChunkAction, CompleteAction, DataType, InputFormat, UploadState,
};

#[test]
fn formats_by_extension() {
    assert_eq!(parser_from_format("a/b/onto.ofn").ok(), Some(InputFormat::OwlFunctional));
    assert_eq!(parser_from_format("onto.owl").ok(), Some(InputFormat::RdfXml));
    assert_eq!(parser_from_format("/tmp/x.ttl").ok(), Some(InputFormat::Turtle));
    assert_eq!(parser_from_format("x.y.owx").ok(), Some(InputFormat::OwlXml));
    assert_eq!(format_of_extension("TTL"), None);
    assert_eq!(format_of_extension(""), None);
}

#[test]
fn unsupported_extension_is_named() {
    let error = parser_from_format("notes.txt").unwrap_err();
    assert_eq!(
        error.inner,
        VOWLRStoreErrorKind::InvalidInput("Unsupported file extension: 'txt'".to_string())
    );
    let error = parser_from_format("README").unwrap_err();
    assert_eq!(
        error.inner,
        VOWLRStoreErrorKind::InvalidInput("Unsupported file extension: ''".to_string())
    );
    assert_eq!(
        error.text(),
        "InvalidInput(\"Unsupported file extension: ''\") at src/store.rs:0:0"
    );
}

#[test]
fn only_owl_can_be_exported() {
    assert_eq!(exporter_for(DataType::OWL).ok(), Some(InputFormat::OwlFunctional));
    for other in [DataType::OFN, DataType::OWX, DataType::TTL] {
        assert_eq!(
            exporter_for(other).unwrap_err().inner,
            VOWLRStoreErrorKind::InvalidInput(
                "Unsupported export format: only OWL functional syntax can be written".to_string()
            )
        );
    }
}

#[test]
fn upload_suffix_defaults_to_owl() {
    assert_eq!(upload_suffix("x.ttl"), ".ttl");
    assert_eq!(upload_suffix("upload"), ".owl");
    assert_eq!(upload_suffix("dir.d/upload"), ".owl");
    assert_eq!(upload_suffix("a.b.ofn"), ".ofn");
    assert_eq!(upload_suffix("weird.xyz"), ".xyz");
}

#[test]
fn upload_start_chunks_complete() {
    let mut state = UploadState::new();
    assert_eq!(state, UploadState::Idle);
    state.start_upload();
    assert_eq!(state, UploadState::Uploading);
    assert_eq!(state.upload_chunk(), ChunkAction::Append);
    assert_eq!(state.upload_chunk(), ChunkAction::Append);
    assert_eq!(state, UploadState::Uploading);
    assert_eq!(state.complete_upload(), CompleteAction::LoadAndDiscard);
    assert_eq!(state, UploadState::Idle);
}

#[test]
fn upload_steps_without_a_start_do_nothing() {
    let mut state = UploadState::new();
    assert_eq!(state.upload_chunk(), ChunkAction::Ignore);
    assert_eq!(state, UploadState::Idle);
    assert_eq!(state.complete_upload(), CompleteAction::Nothing);
    assert_eq!(state, UploadState::Idle);
    // a second start drops the first upload
    state.start_upload();
    state.start_upload();
    assert_eq!(state.complete_upload(), CompleteAction::LoadAndDiscard);
    assert_eq!(state.complete_upload(), CompleteAction::Nothing);
}

#[test]
fn bundled_ontologies() {
    assert_eq!(
        ontology_file_path("Clinical Trials Ontology (CTO) (273 classes)"),
        Ok("src/assets/data/ClinicalTrialOntology-merged.owl")
    );
    assert_eq!(
        ontology_file_path("Friend of a Friend (FOAF) vocabulary (22 classes)"),
        Ok("src/assets/data/foaf.ttl")
    );
    assert_eq!(
        ontology_file_path("VOWL-R Benchmark Ontology (2.5k nodes)"),
        Ok("src/assets/data/vowlr-benchmark-2500.ofn")
    );
    assert_eq!(
        ontology_file_path("The Environment Ontology (6.9k classes)"),
        Ok("src/assets/data/envo.owl")
    );
    assert_eq!(ontology_file_path("FOAF"), Err("Unknown ontology: FOAF".to_string()));
    assert_eq!(ontology_file_path(""), Err("Unknown ontology: ".to_string()));
}
