use vowlr::errors::{
    SerializationError, SerializationErrorExt, SerializationErrorKind, SourceLocation,
    VOWLRStoreError, VOWLRStoreErrorKind,
};
use vowlr::serializer::GraphDisplayDataSolutionSerializer;
use vowlr::term::Term;
use vowlr::triple::Triple;

fn sample() -> Triple {
    Triple::new(Term::named("s"), Term::named("p"), Some(Term::blank("o")))
}

#[test]
fn store_errors_name_their_place() {
    let error = VOWLRStoreError::invalid_input(
        "bad \"input\"".to_string(),
        SourceLocation::new("src/main.rs", 12, 5),
    );
    assert_eq!(error.text(), "InvalidInput(\"bad \\\"input\\\"\") at src/main.rs:12:5");
    let kinds = [
        (VOWLRStoreErrorKind::HornedError("h".to_string()), "HornedError(\"h\")"),
        (VOWLRStoreErrorKind::IOError("i".to_string()), "IOError(\"i\")"),
        (VOWLRStoreErrorKind::IriParseError("p".to_string()), "IriParseError(\"p\")"),
        (VOWLRStoreErrorKind::LoaderError("l".to_string()), "LoaderError(\"l\")"),
        (
            VOWLRStoreErrorKind::QueryEvaluationError("q".to_string()),
            "QueryEvaluationError(\"q\")",
        ),
        (VOWLRStoreErrorKind::JoinError("j".to_string()), "JoinError(\"j\")"),
        (VOWLRStoreErrorKind::StorageError("s".to_string()), "StorageError(\"s\")"),
    ];
    for (kind, text) in kinds {
        assert_eq!(kind.text(), text);
        let error = VOWLRStoreError::new(kind, SourceLocation::new("f", 1, 2));
        assert_eq!(error.text(), format!("{text} at f:1:2"));
    }
}

#[test]
fn serialization_errors_give_their_row() {
    let with_row = SerializationErrorKind::MissingObject(Some(Box::new(sample())), "m".to_string());
    assert_eq!(with_row.triple(), Some(&sample()));
    let error = SerializationError::from(with_row);
    assert_eq!(error.triple(), Some(&sample()));
    assert_eq!(
        error.text(),
        "SerializationError: MissingObject(Triple{ <s> - <p> - _:o}, \"m\")"
    );
    let error = SerializationError::from(SerializationErrorKind::MissingSubject(
        None,
        "no subject".to_string(),
    ));
    assert_eq!(error.triple(), None);
    assert_eq!(error.text(), "SerializationError: MissingSubject(None, \"no subject\")");
    let error = SerializationError::from(SerializationErrorKind::SerializationFailed(
        Some(Box::new(sample())),
        "f".to_string(),
    ));
    assert_eq!(
        error.text(),
        "SerializationError: SerializationFailed(Triple{ <s> - <p> - _:o}, \"f\")"
    );
}

#[test]
fn parser_errors_are_wrapped() {
    let serializer = GraphDisplayDataSolutionSerializer::new();
    let cause = serializer
        .create_node("no iri".to_string(), Term::named("t"), None)
        .unwrap_err();
    let said = cause.to_string();
    let error = SerializationError::from_iri_error(cause);
    assert_eq!(error.triple(), None);
    assert_eq!(error.text(), format!("SerializationError: IriParseError(None, {said})"));

    let cause = oxrdf::BlankNode::new("not valid").unwrap_err();
    let said = cause.to_string();
    let error = SerializationError::from_blank_node_error(cause);
    assert_eq!(error.triple(), None);
    assert_eq!(error.text(), format!("SerializationError: BlankNodeParseError(None, {said})"));

    let cause = oxrdf::NamedNode::new("x y").unwrap_err();
    let error = SerializationError::from(SerializationErrorKind::IriParseError(
        Some(Box::new(sample())),
        Box::new(cause),
    ));
    assert_eq!(error.triple(), Some(&sample()));
    assert!(error.text().starts_with("SerializationError: IriParseError(Triple{ <s> - <p> - _:o}, "));
}

#[test]
fn serialization_error_becomes_invalid_input() {
    let error = SerializationError::from(SerializationErrorKind::MissingObject(
        None,
        "gone".to_string(),
    ));
    let store = VOWLRStoreError::from_serialization(&error, SourceLocation::new("x.rs", 3, 4));
    assert_eq!(
        store.inner,
        VOWLRStoreErrorKind::InvalidInput(
            "SerializationError: MissingObject(None, \"gone\")".to_string()
        )
    );
    assert_eq!(store.location, SourceLocation::new("x.rs", 3, 4));
    assert_eq!(
        store.text(),
        "InvalidInput(\"SerializationError: MissingObject(None, \\\"gone\\\")\") at x.rs:3:4"
    );
}
