use vowlr::element::{
    Characteristic, ElementType, GenericEdge, GenericNode, GenericType, OwlEdge, OwlNode, OwlType,
    RdfEdge, RdfType, RdfsEdge, RdfsNode, RdfsType,
};
use vowlr::queries::{default_query, snippets_from_enum, Enumerated, QueryAssembler, SparqlSnippet};

#[test]
fn every_pattern_binds_the_discriminator() {
    let mut all: Vec<&'static str> = Vec::new();
    all.extend(snippets_from_enum::<OwlNode>());
    all.extend(snippets_from_enum::<OwlEdge>());
    all.extend(snippets_from_enum::<RdfEdge>());
    all.extend(snippets_from_enum::<RdfsNode>());
    all.extend(snippets_from_enum::<RdfsEdge>());
    all.extend(snippets_from_enum::<Characteristic>());
    assert_eq!(all.len(), 10 + 7 + 1 + 4 + 1 + 8);
    let mut empty = 0;
    for snippet in all {
        if snippet.is_empty() {
            empty += 1;
        } else {
            assert!(snippet.starts_with('{') && snippet.ends_with('}'));
            assert!(snippet.contains(" AS ?nodeType)"));
            assert!(snippet.contains("?id "));
        }
    }
    // only what is external has no pattern of its own
    assert_eq!(empty, 2);
    assert_eq!(OwlNode::ExternalClass.snippet(), "");
    assert_eq!(OwlEdge::ExternalProperty.snippet(), "");
}

#[test]
fn patterns_by_kind() {
    assert_eq!(
        OwlNode::AnonymousClass.snippet(),
        "{\n    ?id a owl:Class\n    FILTER(!isIRI(?id))\n    BIND(\"blanknode\" AS ?nodeType)\n}"
    );
    assert_eq!(
        RdfsEdge::SubclassOf.snippet(),
        "{\n    ?id rdfs:subClassOf ?target\n    BIND(rdfs:subClassOf AS ?nodeType)\n}"
    );
    assert_eq!(
        Characteristic::HasKey.snippet(),
        "{\n    ?id a owl:hasKey\n    BIND(owl:hasKey AS ?nodeType)\n}"
    );
    assert_eq!(ElementType::NoDraw.snippet(), "");
    assert_eq!(
        ElementType::Owl(OwlType::Node(OwlNode::Thing)).snippet(),
        OwlNode::Thing.snippet()
    );
    assert_eq!(
        ElementType::Owl(OwlType::Edge(OwlEdge::InverseOf)).snippet(),
        OwlEdge::InverseOf.snippet()
    );
    assert_eq!(
        ElementType::Rdfs(RdfsType::Node(RdfsNode::Resource)).snippet(),
        RdfsNode::Resource.snippet()
    );
    assert_eq!(
        ElementType::Rdfs(RdfsType::Edge(RdfsEdge::SubclassOf)).snippet(),
        RdfsEdge::SubclassOf.snippet()
    );
    assert_eq!(
        ElementType::Rdf(RdfType::Edge(RdfEdge::RdfProperty)).snippet(),
        "{\n    ?id rdf:Property ?target\n    BIND(rdf:Property AS ?nodeType)\n}"
    );
    assert_eq!(ElementType::Generic(GenericType::Node(GenericNode::Generic)).snippet(), "");
    assert_eq!(GenericType::Edge(GenericEdge::Generic).snippet(), "");
}

#[test]
fn lists_hold_every_value_once() {
    assert_eq!(OwlNode::all().len(), 10);
    assert_eq!(OwlEdge::all().len(), 7);
    assert_eq!(RdfsNode::all().len(), 4);
    assert_eq!(Characteristic::all().len(), 8);
    let nodes = OwlNode::all();
    for (i, a) in nodes.iter().enumerate() {
        for b in nodes.iter().skip(i + 1) {
            assert_ne!(a, b);
        }
    }
}

#[test]
fn assembled_query() {
    assert_eq!(
        QueryAssembler::assemble_query(vec!["PREFIX a: <b>", "PREFIX c: <d>"], vec!["{ X }", "", "{ Y }"]),
        "PREFIX a: <b>\nPREFIX c: <d>\nSELECT ?id ?nodeType ?target ?label\nWHERE {\n{ X }\nUNION\n{ Y }\n}\n"
    );
    assert_eq!(
        QueryAssembler::assemble_query(vec![], vec![]),
        "SELECT ?id ?nodeType ?target ?label\nWHERE {\n\n}\n"
    );
    assert_eq!(
        QueryAssembler::assemble_query(vec![], vec!["", "{ Z }", ""]),
        "SELECT ?id ?nodeType ?target ?label\nWHERE {\n{ Z }\n}\n"
    );
}

#[test]
fn default_query_holds_every_pattern() {
    let query = default_query();
    assert!(query.starts_with("PREFIX owl: <http://www.w3.org/2002/07/owl#>\n"));
    assert!(query.ends_with("\n}\n"));
    assert_eq!(query.matches("\nUNION\n").count(), 29 + 6 - 1);
    for kind in OwlNode::all() {
        assert!(query.contains(kind.snippet()));
    }
    for kind in Characteristic::all() {
        assert!(query.contains(kind.snippet()));
    }
    assert!(query.contains("?id a owl:Ontology"));
    assert!(query.contains("rdfs:label ?label"));
    assert_eq!(query, default_query());
}
