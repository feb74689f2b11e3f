use vowlr::iri::{infer_label, label_from_parts, IriParts};
use vowlr::table::Table;
use vowlr::term::{Literal, Term};
use vowlr::triple::Triple;
use vowlr::vocab::{classify, RowAction};
use vowlr::element::{ElementType, OwlNode, OwlType};

#[test]
fn terms_are_written_as_in_n_triples() {
    assert_eq!(Term::named("http://example.com#A").text(), "<http://example.com#A>");
    assert_eq!(Term::blank("b1").text(), "_:b1");
    assert_eq!(Term::simple_literal("plain").text(), "\"plain\"");
    assert_eq!(Term::simple_literal("a\"b\nc\\").text(), "\"a\\\"b\\nc\\\\\"");
    let tagged = Term::Literal(Literal {
        value: "chat".to_string(),
        language: Some("fr".to_string()),
        datatype: "http://www.w3.org/1999/02/22-rdf-syntax-ns#langString".to_string(),
    });
    assert_eq!(tagged.text(), "\"chat\"@fr");
    let typed = Term::Literal(Literal {
        value: "1".to_string(),
        language: None,
        datatype: "http://www.w3.org/2001/XMLSchema#integer".to_string(),
    });
    assert_eq!(typed.text(), "\"1\"^^<http://www.w3.org/2001/XMLSchema#integer>");
}

#[test]
fn terms_compare_by_what_they_hold() {
    let a = Term::named("x");
    assert!(a.is_named_node() && !a.is_blank_node() && !a.is_literal());
    assert!(Term::blank("x").is_blank_node());
    assert!(Term::simple_literal("x").is_literal());
    assert_ne!(Term::named("x"), Term::blank("x"));
    assert_ne!(Term::named("x"), Term::simple_literal("x"));
    assert_eq!(a.duplicate(), a);
    assert!(a.is_iri("x"));
    assert!(!a.is_iri("y"));
    assert!(!Term::blank("x").is_iri("x"));
    let mut table: Table<Term, usize> = Table::new();
    table.insert(Term::named("x"), 1);
    table.insert(Term::blank("x"), 2);
    table.insert(Term::named("x"), 3);
    assert_eq!(table.len(), 2);
    assert_eq!(table.get(&Term::named("x")), Some(&3));
    assert_eq!(table.get(&Term::blank("x")), Some(&2));
    assert_eq!(table.remove(&Term::named("x")), Some(3));
    assert_eq!(table.remove(&Term::named("x")), None);
    assert_eq!(table.len(), 1);
}

#[test]
fn triple_text() {
    let t = Triple::new(Term::named("a"), Term::named("b"), Some(Term::blank("c")));
    assert_eq!(t.text(), "Triple{ <a> - <b> - _:c}");
    let t = Triple::new(Term::named("a"), Term::named("b"), None);
    assert_eq!(t.text(), "Triple{ <a> - <b> - }");
    assert_eq!(t.duplicate(), t);
}

#[test]
fn labels_from_iris() {
    assert_eq!(
        infer_label(&Term::named("http://example.com/path/to#Frag")),
        Some("Frag".to_string())
    );
    assert_eq!(
        infer_label(&Term::named("http://example.com/path/to")),
        Some("to".to_string())
    );
    assert_eq!(infer_label(&Term::named("http://example.com")), None);
    assert_eq!(infer_label(&Term::named("http://example.com/")), Some("".to_string()));
    assert_eq!(infer_label(&Term::named("http://example.com/a#")), Some("".to_string()));
    assert_eq!(infer_label(&Term::blank("b")), None);
    assert_eq!(infer_label(&Term::simple_literal("x")), None);
    assert_eq!(infer_label(&Term::named("not an iri")), None);
}

#[test]
fn labels_from_parts() {
    assert_eq!(label_from_parts(None), None);
    assert_eq!(
        label_from_parts(Some(IriParts { fragment: Some("f".to_string()), path: "/a/b".to_string() })),
        Some("f".to_string())
    );
    assert_eq!(
        label_from_parts(Some(IriParts { fragment: None, path: "/a/b".to_string() })),
        Some("b".to_string())
    );
    assert_eq!(label_from_parts(Some(IriParts { fragment: None, path: "ab".to_string() })), None);
}

#[test]
fn dispatch_by_discriminator() {
    assert_eq!(classify(&Term::blank("x")), RowAction::IllegalBlank);
    assert_eq!(
        classify(&Term::simple_literal("blanknode")),
        RowAction::InsertNode(ElementType::Owl(OwlType::Node(OwlNode::AnonymousClass)))
    );
    assert_eq!(classify(&Term::simple_literal("Blanknode")), RowAction::UnsupportedLiteral);
    assert_eq!(
        classify(&Term::named("http://www.w3.org/2002/07/owl#equivalentClass")),
        RowAction::EquivalentClass
    );
    assert_eq!(
        classify(&Term::named("http://www.w3.org/2002/07/owl#Ontology")),
        RowAction::Ontology
    );
    assert_eq!(
        classify(&Term::named("http://www.w3.org/2002/07/owl#InverseFunctionalProperty")),
        RowAction::InverseFunctional
    );
    assert_eq!(
        classify(&Term::named("http://www.w3.org/2000/01/rdf-schema#domain")),
        RowAction::Ignored
    );
    assert_eq!(
        classify(&Term::named("http://www.w3.org/2002/07/owl#TransitiveProperty")),
        RowAction::PropertyRow
    );
    assert_eq!(classify(&Term::named("http://example.com#knows")), RowAction::PropertyRow);
}
