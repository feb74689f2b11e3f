use vowlr::buffer::SerializationDataBuffer;
use vowlr::display::GraphDisplayData;
use vowlr::edge::Edge;
use vowlr::element::{ElementType, OwlEdge, OwlNode, OwlType, RdfsEdge, RdfsNode, RdfsType};
use vowlr::errors::VOWLRStoreErrorKind;
use vowlr::serializer::{GraphDisplayDataSolutionSerializer, SolutionRow};
use vowlr::term::Term;
use vowlr::triple::Triple;

const OWL: &str = "http://www.w3.org/2002/07/owl#";
const RDFS: &str = "http://www.w3.org/2000/01/rdf-schema#";

fn owl(name: &str) -> Term {
    Term::named(&format!("{OWL}{name}"))
}

fn rdfs(name: &str) -> Term {
    Term::named(&format!("{RDFS}{name}"))
}

fn ex(name: &str) -> Term {
    Term::named(&format!("http://example.com#{name}"))
}

fn class(kind: OwlNode) -> ElementType {
    ElementType::Owl(OwlType::Node(kind))
}

fn write(
    serializer: &GraphDisplayDataSolutionSerializer,
    buffer: &mut SerializationDataBuffer,
    id: Term,
    kind: Term,
    target: Option<Term>,
) {
    serializer.write_node_triple(buffer, Triple::new(id, kind, target));
}

#[test]
fn blank_discriminator_is_a_failure() {
    let serializer = GraphDisplayDataSolutionSerializer::new();
    let mut buffer = SerializationDataBuffer::new();
    write(&serializer, &mut buffer, ex("A"), Term::blank("b0"), Some(ex("B")));
    assert_eq!(buffer.failed_buffer.len(), 1);
    let (triple, reason) = &buffer.failed_buffer[0];
    assert_eq!(
        triple.clone(),
        Some(Triple::new(ex("A"), Term::blank("b0"), Some(ex("B"))))
    );
    assert_eq!(reason, "Illegal blank node during serialization: '_:b0'");
    assert_eq!(buffer.node_element_buffer.len(), 0);
    assert_eq!(buffer.edge_element_buffer.len(), 0);
    assert_eq!(buffer.edge_buffer.len(), 0);
    assert_eq!(buffer.unknown_buffer.len(), 0);
}

#[test]
fn blanknode_literal_makes_an_anonymous_class() {
    let serializer = GraphDisplayDataSolutionSerializer::new();
    let mut buffer = SerializationDataBuffer::new();
    write(&serializer, &mut buffer, Term::blank("b1"), Term::simple_literal("blanknode"), None);
    assert_eq!(buffer.node_element_buffer.len(), 1);
    assert_eq!(
        buffer.node_element_buffer.get(&Term::blank("b1")),
        Some(&class(OwlNode::AnonymousClass))
    );
    // written twice, the node is there once
    write(&serializer, &mut buffer, Term::blank("b1"), Term::simple_literal("blanknode"), None);
    assert_eq!(buffer.node_element_buffer.len(), 1);
    assert!(buffer.failed_buffer.is_empty());
}

#[test]
fn other_literals_are_passed_over() {
    let serializer = GraphDisplayDataSolutionSerializer::new();
    let mut buffer = SerializationDataBuffer::new();
    write(&serializer, &mut buffer, ex("A"), Term::simple_literal("ValuesFrom"), Some(ex("B")));
    assert_eq!(buffer.node_element_buffer.len(), 0);
    assert_eq!(buffer.unknown_buffer.len(), 0);
    assert!(buffer.failed_buffer.is_empty());
}

#[test]
fn first_classification_wins() {
    let serializer = GraphDisplayDataSolutionSerializer::new();
    let mut buffer = SerializationDataBuffer::new();
    write(&serializer, &mut buffer, ex("A"), owl("Class"), None);
    write(&serializer, &mut buffer, ex("A"), rdfs("Class"), None);
    assert_eq!(buffer.node_element_buffer.len(), 1);
    assert_eq!(buffer.node_element_buffer.get(&ex("A")), Some(&class(OwlNode::Class)));
}

#[test]
fn document_base_is_set_once() {
    let serializer = GraphDisplayDataSolutionSerializer::new();
    let mut buffer = SerializationDataBuffer::new();
    assert_eq!(buffer.document_base, None);
    write(&serializer, &mut buffer, Term::named("http://example.com#"), owl("Ontology"), None);
    assert_eq!(buffer.document_base, Some("http://example.com#".to_string()));
    write(&serializer, &mut buffer, Term::named("http://other.org/"), owl("Ontology"), None);
    assert_eq!(buffer.document_base, Some("http://example.com#".to_string()));
    assert!(buffer.failed_buffer.is_empty());
}

#[test]
fn vocabulary_table_kinds() {
    let serializer = GraphDisplayDataSolutionSerializer::new();
    let mut buffer = SerializationDataBuffer::new();
    write(&serializer, &mut buffer, ex("A"), rdfs("Class"), None);
    write(&serializer, &mut buffer, ex("B"), rdfs("Datatype"), None);
    write(&serializer, &mut buffer, ex("C"), rdfs("Literal"), None);
    write(&serializer, &mut buffer, ex("D"), rdfs("Resource"), None);
    write(&serializer, &mut buffer, ex("E"), owl("DeprecatedClass"), None);
    write(&serializer, &mut buffer, ex("F"), owl("Thing"), None);
    write(&serializer, &mut buffer, ex("p"), owl("ObjectProperty"), None);
    write(&serializer, &mut buffer, ex("q"), owl("DatatypeProperty"), None);
    let node = |n| ElementType::Rdfs(RdfsType::Node(n));
    assert_eq!(buffer.node_element_buffer.get(&ex("A")), Some(&node(RdfsNode::Class)));
    assert_eq!(buffer.node_element_buffer.get(&ex("B")), Some(&node(RdfsNode::Datatype)));
    assert_eq!(buffer.node_element_buffer.get(&ex("C")), Some(&node(RdfsNode::Literal)));
    assert_eq!(buffer.node_element_buffer.get(&ex("D")), Some(&node(RdfsNode::Resource)));
    assert_eq!(buffer.node_element_buffer.get(&ex("E")), Some(&class(OwlNode::DeprecatedClass)));
    assert_eq!(buffer.node_element_buffer.get(&ex("F")), Some(&class(OwlNode::Thing)));
    assert_eq!(
        buffer.edge_element_buffer.get(&ex("p")),
        Some(&ElementType::Owl(OwlType::Edge(OwlEdge::ObjectProperty)))
    );
    assert_eq!(
        buffer.edge_element_buffer.get(&ex("q")),
        Some(&ElementType::Owl(OwlType::Edge(OwlEdge::DatatypeProperty)))
    );
    // rdfs:domain and rdfs:range rows are never bound by the query
    write(&serializer, &mut buffer, ex("p"), rdfs("domain"), Some(ex("A")));
    write(&serializer, &mut buffer, ex("p"), rdfs("range"), Some(ex("A")));
    assert_eq!(buffer.edge_buffer.len(), 0);
    assert_eq!(buffer.unknown_buffer.len(), 0);
}

#[test]
fn edge_waits_for_its_object_and_is_replayed() {
    let serializer = GraphDisplayDataSolutionSerializer::new();
    let mut buffer = SerializationDataBuffer::new();
    write(&serializer, &mut buffer, ex("A"), owl("Class"), None);
    write(&serializer, &mut buffer, ex("A"), rdfs("subClassOf"), Some(ex("B")));
    assert_eq!(buffer.edge_buffer.len(), 0);
    assert!(buffer.unknown_buffer.contains_key(&ex("B")));
    assert_eq!(buffer.unknown_buffer.get(&ex("B")).unwrap().len(), 1);
    write(&serializer, &mut buffer, ex("B"), owl("Class"), None);
    assert!(!buffer.unknown_buffer.contains_key(&ex("B")));
    let sub = ElementType::Rdfs(RdfsType::Edge(RdfsEdge::SubclassOf));
    let edge = Edge::new(ex("A"), sub, ex("B"), None);
    assert!(buffer.edge_buffer.contains_key(&edge));
    assert_eq!(buffer.edge_label_buffer.get(&edge), Some(&"SubclassOf".to_string()));
    assert!(buffer.edges_include_map.get(&ex("A")).unwrap().contains_key(&edge));
    assert!(buffer.edges_include_map.get(&ex("B")).unwrap().contains_key(&edge));
}

#[test]
fn edge_waits_for_its_subject_when_both_ends_are_missing() {
    let serializer = GraphDisplayDataSolutionSerializer::new();
    let mut buffer = SerializationDataBuffer::new();
    write(&serializer, &mut buffer, ex("A"), rdfs("subClassOf"), Some(ex("B")));
    assert!(buffer.unknown_buffer.contains_key(&ex("A")));
    assert!(!buffer.unknown_buffer.contains_key(&ex("B")));
    // the same row twice waits once
    write(&serializer, &mut buffer, ex("A"), rdfs("subClassOf"), Some(ex("B")));
    assert_eq!(buffer.unknown_buffer.get(&ex("A")).unwrap().len(), 1);
    write(&serializer, &mut buffer, ex("A"), owl("Class"), None);
    // replayed: now it waits for the object
    assert!(!buffer.unknown_buffer.contains_key(&ex("A")));
    assert!(buffer.unknown_buffer.contains_key(&ex("B")));
    write(&serializer, &mut buffer, ex("B"), owl("Class"), None);
    assert_eq!(buffer.unknown_buffer.len(), 0);
    assert_eq!(buffer.edge_buffer.len(), 1);
}

#[test]
fn edge_without_target_is_dropped_when_subject_resolves() {
    let serializer = GraphDisplayDataSolutionSerializer::new();
    let mut buffer = SerializationDataBuffer::new();
    write(&serializer, &mut buffer, ex("A"), owl("Class"), None);
    write(&serializer, &mut buffer, ex("A"), rdfs("subClassOf"), None);
    assert_eq!(buffer.edge_buffer.len(), 0);
    assert_eq!(buffer.unknown_buffer.len(), 0);
}

#[test]
fn external_edges_are_marked() {
    let serializer = GraphDisplayDataSolutionSerializer::new();
    let mut buffer = SerializationDataBuffer::new();
    let away = Term::named("http://elsewhere.org/X");
    // before the base is known nothing is external
    assert!(!serializer.is_external(&buffer, &away));
    write(&serializer, &mut buffer, Term::named("http://example.com#"), owl("Ontology"), None);
    assert!(serializer.is_external(&buffer, &away));
    assert!(!serializer.is_external(&buffer, &ex("A")));
    assert!(!serializer.is_external(&buffer, &Term::blank("b")));
    // reserved vocabulary is never external
    assert!(!serializer.is_external(&buffer, &owl("Thing")));
    assert!(!serializer.is_external(&buffer, &rdfs("subClassOf")));
    assert!(serializer.is_external(&buffer, &owl("Class")));

    write(&serializer, &mut buffer, away.clone(), owl("Class"), None);
    write(&serializer, &mut buffer, ex("B"), owl("Class"), None);
    write(&serializer, &mut buffer, away.clone(), rdfs("subClassOf"), Some(ex("B")));
    let external = ElementType::Owl(OwlType::Edge(OwlEdge::ExternalProperty));
    let edge = Edge::new(away.clone(), external, ex("B"), Some(rdfs("subClassOf")));
    assert!(buffer.edge_buffer.contains_key(&edge));
    assert_eq!(buffer.edge_label_buffer.get(&edge), Some(&"ExternalProperty".to_string()));
    // a link that is not drawn keeps its kind
    write(&serializer, &mut buffer, away.clone(), owl("unionOf"), Some(ex("B")));
    assert!(buffer
        .edge_buffer
        .contains_key(&Edge::new(away.clone(), ElementType::NoDraw, ex("B"), None)));
}

#[test]
fn operators_raise_plain_classes_only() {
    let serializer = GraphDisplayDataSolutionSerializer::new();
    let mut buffer = SerializationDataBuffer::new();
    write(&serializer, &mut buffer, ex("A"), owl("Class"), None);
    write(&serializer, &mut buffer, ex("B"), owl("Class"), None);
    write(&serializer, &mut buffer, ex("T"), owl("Thing"), None);
    write(&serializer, &mut buffer, ex("A"), owl("complementOf"), Some(ex("B")));
    assert_eq!(buffer.node_element_buffer.get(&ex("A")), Some(&class(OwlNode::Complement)));
    // raised once, it is not raised again
    write(&serializer, &mut buffer, ex("A"), owl("disjointUnionOf"), Some(ex("B")));
    assert_eq!(buffer.node_element_buffer.get(&ex("A")), Some(&class(OwlNode::Complement)));
    write(&serializer, &mut buffer, ex("B"), owl("intersectionOf"), Some(ex("T")));
    assert_eq!(buffer.node_element_buffer.get(&ex("B")), Some(&class(OwlNode::IntersectionOf)));
    // a thing is no plain class
    write(&serializer, &mut buffer, ex("T"), owl("unionOf"), Some(ex("A")));
    assert_eq!(buffer.node_element_buffer.get(&ex("T")), Some(&class(OwlNode::Thing)));
    // a complement without a target raises nothing
    write(&serializer, &mut buffer, ex("C"), owl("Class"), None);
    write(&serializer, &mut buffer, ex("C"), owl("complementOf"), None);
    assert_eq!(buffer.node_element_buffer.get(&ex("C")), Some(&class(OwlNode::Class)));
    // a complement whose target does not resolve still raises its subject
    write(&serializer, &mut buffer, ex("C"), owl("complementOf"), Some(ex("Z")));
    assert_eq!(buffer.node_element_buffer.get(&ex("C")), Some(&class(OwlNode::Complement)));
    // an intersection whose target does not resolve raises nothing
    write(&serializer, &mut buffer, ex("D"), owl("Class"), None);
    write(&serializer, &mut buffer, ex("D"), owl("intersectionOf"), Some(ex("Y")));
    assert_eq!(buffer.node_element_buffer.get(&ex("D")), Some(&class(OwlNode::Class)));
}

#[test]
fn equivalence_failures() {
    let serializer = GraphDisplayDataSolutionSerializer::new();
    let mut buffer = SerializationDataBuffer::new();
    write(&serializer, &mut buffer, ex("A"), owl("Class"), None);
    write(&serializer, &mut buffer, ex("A"), owl("equivalentClass"), None);
    write(&serializer, &mut buffer, ex("A"), owl("equivalentClass"), Some(Term::simple_literal("x")));
    write(&serializer, &mut buffer, ex("A"), owl("equivalentClass"), Some(ex("Nowhere")));
    let reasons: Vec<String> = buffer.failed_buffer.iter().map(|f| f.1.clone()).collect();
    assert_eq!(
        reasons,
        vec![
            "Subject of equivalence relation is missing an object".to_string(),
            "Visualization of equivalence relations between classes and literals is not supported"
                .to_string(),
            "Failed to merge object of equivalence relation into subject: object not found"
                .to_string(),
        ]
    );
    assert_eq!(buffer.node_element_buffer.get(&ex("A")), Some(&class(OwlNode::Class)));
}

#[test]
fn equivalence_moves_the_label_and_raises_the_subject() {
    let serializer = GraphDisplayDataSolutionSerializer::new();
    let mut buffer = SerializationDataBuffer::new();
    write(&serializer, &mut buffer, ex("A"), owl("Class"), None);
    write(&serializer, &mut buffer, ex("B"), owl("Class"), None);
    serializer.extract_label(&mut buffer, &None, &ex("A"));
    serializer.extract_label(&mut buffer, &None, &ex("B"));
    assert_eq!(buffer.label_buffer.get(&ex("A")), Some(&"A".to_string()));
    write(&serializer, &mut buffer, ex("A"), owl("equivalentClass"), Some(ex("B")));
    assert_eq!(buffer.label_buffer.get(&ex("A")), Some(&"A\nB".to_string()));
    assert_eq!(buffer.label_buffer.get(&ex("B")), None);
    assert_eq!(buffer.node_element_buffer.get(&ex("A")), Some(&class(OwlNode::EquivalentClass)));
    assert!(!buffer.node_element_buffer.contains_key(&ex("B")));
    assert_eq!(serializer.resolve(&buffer, ex("B")), Some(ex("A")));
}

#[test]
fn equivalence_discards_rows_that_waited_for_the_object() {
    let serializer = GraphDisplayDataSolutionSerializer::new();
    let mut buffer = SerializationDataBuffer::new();
    write(&serializer, &mut buffer, ex("A"), owl("Class"), None);
    write(&serializer, &mut buffer, ex("A"), rdfs("subClassOf"), Some(ex("B")));
    assert!(buffer.unknown_buffer.contains_key(&ex("B")));
    write(&serializer, &mut buffer, ex("A"), owl("equivalentClass"), Some(ex("B")));
    assert!(!buffer.unknown_buffer.contains_key(&ex("B")));
    assert!(buffer.failed_buffer.is_empty());
    assert_eq!(buffer.node_element_buffer.get(&ex("A")), Some(&class(OwlNode::EquivalentClass)));
    assert_eq!(buffer.edge_buffer.len(), 0);
}

#[test]
fn blank_equivalence_waits_while_the_subject_is_unknown() {
    let serializer = GraphDisplayDataSolutionSerializer::new();
    let mut buffer = SerializationDataBuffer::new();
    let blank = Term::blank("b");
    // neither end resolves: the row waits for the object
    write(&serializer, &mut buffer, ex("A"), owl("equivalentClass"), Some(blank.clone()));
    assert!(buffer.unknown_buffer.contains_key(&blank));
    assert!(!buffer.unknown_buffer.contains_key(&ex("A")));
    assert_eq!(buffer.edge_redirection.len(), 0);
    assert!(buffer.failed_buffer.is_empty());
}

#[test]
fn blank_equivalence_redirects_an_unknown_object() {
    let serializer = GraphDisplayDataSolutionSerializer::new();
    let mut buffer = SerializationDataBuffer::new();
    let blank = Term::blank("b");
    write(&serializer, &mut buffer, ex("A"), owl("Class"), None);
    // only the subject resolves: the object is redirected to it
    write(&serializer, &mut buffer, ex("A"), owl("equivalentClass"), Some(blank.clone()));
    assert_eq!(buffer.edge_redirection.get(&blank), Some(&ex("A")));
    assert_eq!(serializer.resolve(&buffer, blank.clone()), Some(ex("A")));
    assert_eq!(buffer.node_element_buffer.get(&ex("A")), Some(&class(OwlNode::Class)));
    // a node that was merged away is not inserted again
    write(&serializer, &mut buffer, blank.clone(), Term::simple_literal("blanknode"), None);
    assert!(!buffer.node_element_buffer.contains_key(&blank));
    assert!(buffer.failed_buffer.is_empty());
}

#[test]
fn redirection_in_a_circle_resolves_to_nothing() {
    let serializer = GraphDisplayDataSolutionSerializer::new();
    let mut buffer = SerializationDataBuffer::new();
    serializer.redirect_iri(&mut buffer, &ex("A"), &ex("B"));
    serializer.redirect_iri(&mut buffer, &ex("B"), &ex("A"));
    assert_eq!(serializer.resolve(&buffer, ex("A")), None);
    serializer.redirect_iri(&mut buffer, &ex("C"), &ex("C"));
    assert_eq!(serializer.resolve(&buffer, ex("C")), None);
    // a chain is walked to its end
    write(&serializer, &mut buffer, ex("Z"), owl("Class"), None);
    serializer.redirect_iri(&mut buffer, &ex("X"), &ex("Y"));
    serializer.redirect_iri(&mut buffer, &ex("Y"), &ex("Z"));
    assert_eq!(serializer.resolve(&buffer, ex("X")), Some(ex("Z")));
    assert_eq!(serializer.resolve(&buffer, ex("Z")), Some(ex("Z")));
    assert_eq!(serializer.resolve(&buffer, ex("Q")), None);
}

#[test]
fn characteristic_is_noted_on_the_resolved_subject() {
    let serializer = GraphDisplayDataSolutionSerializer::new();
    let mut buffer = SerializationDataBuffer::new();
    write(&serializer, &mut buffer, ex("p"), owl("InverseFunctionalProperty"), None);
    assert!(buffer.unknown_buffer.contains_key(&ex("p")));
    assert_eq!(buffer.node_characteristics.len(), 0);
    write(&serializer, &mut buffer, ex("p"), owl("Class"), None);
    assert_eq!(
        buffer.node_characteristics.get(&ex("p")),
        Some(&vec!["InverseFunctionalProperty".to_string()])
    );
    write(&serializer, &mut buffer, ex("p"), owl("InverseFunctionalProperty"), None);
    assert_eq!(buffer.node_characteristics.get(&ex("p")).unwrap().len(), 2);
}

#[test]
fn property_row_draws_an_edge_between_resolved_ends() {
    let serializer = GraphDisplayDataSolutionSerializer::new();
    let mut buffer = SerializationDataBuffer::new();
    write(&serializer, &mut buffer, ex("A"), owl("Class"), None);
    write(&serializer, &mut buffer, ex("B"), owl("Class"), None);
    write(&serializer, &mut buffer, ex("knows"), owl("ObjectProperty"), None);
    serializer.extract_label(&mut buffer, &Some(Term::simple_literal("knows well")), &ex("knows"));
    write(&serializer, &mut buffer, ex("A"), ex("knows"), Some(ex("B")));
    let kind = ElementType::Owl(OwlType::Edge(OwlEdge::ObjectProperty));
    let edge = Edge::new(ex("A"), kind, ex("B"), Some(ex("knows")));
    assert!(buffer.edge_buffer.contains_key(&edge));
    assert_eq!(buffer.edge_label_buffer.get(&edge), Some(&"\"knows well\"".to_string()));
    let key = "<http://example.com#knows>".to_string();
    assert_eq!(buffer.property_edge_map.get(&key), Some(&edge));
    assert!(buffer
        .property_domain_map
        .get(&key)
        .unwrap()
        .contains_key(&"<http://example.com#B>".to_string()));
    assert!(buffer
        .property_range_map
        .get(&key)
        .unwrap()
        .contains_key(&"<http://example.com#A>".to_string()));
    // the same ends with another property give another edge
    write(&serializer, &mut buffer, ex("likes"), owl("ObjectProperty"), None);
    write(&serializer, &mut buffer, ex("A"), ex("likes"), Some(ex("B")));
    assert_eq!(buffer.edge_buffer.len(), 2);
}

#[test]
fn property_row_waits_for_what_is_missing() {
    let serializer = GraphDisplayDataSolutionSerializer::new();
    let mut buffer = SerializationDataBuffer::new();
    write(&serializer, &mut buffer, ex("A"), owl("Class"), None);
    write(&serializer, &mut buffer, ex("B"), owl("Class"), None);
    // the property is unknown: the row waits for it
    write(&serializer, &mut buffer, ex("A"), ex("knows"), Some(ex("B")));
    assert!(buffer.unknown_buffer.contains_key(&ex("knows")));
    // no target: the row is dropped
    write(&serializer, &mut buffer, ex("A"), ex("other"), None);
    assert_eq!(buffer.unknown_buffer.len(), 1);
    write(&serializer, &mut buffer, ex("p"), owl("ObjectProperty"), None);
    // the target does not resolve and is no sentinel: the row waits for it
    write(&serializer, &mut buffer, ex("A"), ex("p"), Some(ex("C")));
    assert!(buffer.unknown_buffer.contains_key(&ex("C")));
    // nothing but the property resolves: the row is dropped
    write(&serializer, &mut buffer, ex("X"), ex("p"), Some(ex("Y")));
    assert!(!buffer.unknown_buffer.contains_key(&ex("X")));
    assert!(!buffer.unknown_buffer.contains_key(&ex("Y")));
    // nothing resolves at all: the row waits for its subject
    write(&serializer, &mut buffer, ex("X"), ex("r"), Some(ex("Y")));
    assert!(buffer.unknown_buffer.contains_key(&ex("X")));
    assert_eq!(buffer.edge_buffer.len(), 0);
    assert!(buffer.failed_buffer.is_empty());
}

#[test]
fn property_row_with_a_sentinel_and_no_valid_name_waits() {
    let serializer = GraphDisplayDataSolutionSerializer::new();
    let mut buffer = SerializationDataBuffer::new();
    write(&serializer, &mut buffer, ex("A"), owl("Class"), None);
    write(&serializer, &mut buffer, ex("p"), owl("ObjectProperty"), None);
    // the name made for the stand-in, "http://example.com#A>_thing", is no IRI
    write(&serializer, &mut buffer, ex("A"), ex("p"), Some(owl("Thing")));
    assert!(buffer.unknown_buffer.contains_key(&owl("Thing")));
    assert_eq!(buffer.node_element_buffer.len(), 1);
    assert_eq!(buffer.edge_buffer.len(), 0);
}

#[test]
fn create_node_checks_its_names() {
    let serializer = GraphDisplayDataSolutionSerializer::new();
    let made = serializer.create_node("http://example.com#n".to_string(), owl("Thing"), None);
    assert_eq!(
        made.ok(),
        Some(Triple::new(ex("n"), owl("Thing"), None))
    );
    let made = serializer.create_node(
        "http://example.com#n".to_string(),
        owl("Thing"),
        Some("http://example.com#o".to_string()),
    );
    assert_eq!(made.ok(), Some(Triple::new(ex("n"), owl("Thing"), Some(ex("o")))));
    assert!(serializer.create_node("not an iri".to_string(), owl("Thing"), None).is_err());
    assert!(serializer
        .create_node("http://example.com#A>_thing".to_string(), owl("Thing"), None)
        .is_err());
    assert!(serializer
        .create_node("http://example.com#n".to_string(), owl("Thing"), Some("x y".to_string()))
        .is_err());
}

#[test]
fn labels_first_writer_wins() {
    let serializer = GraphDisplayDataSolutionSerializer::new();
    let mut buffer = SerializationDataBuffer::new();
    serializer.extract_label(&mut buffer, &Some(Term::simple_literal("First")), &ex("A"));
    serializer.extract_label(&mut buffer, &Some(Term::simple_literal("Second")), &ex("A"));
    assert_eq!(buffer.label_buffer.get(&ex("A")), Some(&"\"First\"".to_string()));
    // from the fragment
    serializer.extract_label(&mut buffer, &None, &ex("Frag"));
    assert_eq!(buffer.label_buffer.get(&ex("Frag")), Some(&"Frag".to_string()));
    // from the last segment of the path
    let path = Term::named("http://example.com/a/b/Leaf");
    serializer.extract_label(&mut buffer, &None, &path);
    assert_eq!(buffer.label_buffer.get(&path), Some(&"Leaf".to_string()));
    // a blank node is no IRI: no label
    serializer.extract_label(&mut buffer, &None, &Term::blank("b"));
    assert_eq!(buffer.label_buffer.get(&Term::blank("b")), None);
    // an IRI without a slash in its path and without a fragment: no label
    let mail = Term::named("mailto:someone");
    serializer.extract_label(&mut buffer, &None, &mail);
    assert_eq!(buffer.label_buffer.get(&mail), None);
}

#[test]
fn check_all_unknowns_replays_once() {
    let serializer = GraphDisplayDataSolutionSerializer::new();
    let mut buffer = SerializationDataBuffer::new();
    write(&serializer, &mut buffer, ex("A"), rdfs("subClassOf"), Some(ex("B")));
    write(&serializer, &mut buffer, ex("p"), owl("InverseFunctionalProperty"), None);
    assert_eq!(buffer.unknown_buffer.len(), 2);
    serializer.check_all_unknowns(&mut buffer);
    // nothing resolved in between: both rows wait again
    assert_eq!(buffer.unknown_buffer.len(), 2);
    assert!(buffer.failed_buffer.is_empty());
}

fn row(id: Option<Term>, node_type: Option<Term>, target: Option<Term>, label: Option<Term>) -> SolutionRow {
    SolutionRow { id, node_type, target, label }
}

#[test]
fn serialize_a_small_ontology() {
    let serializer = GraphDisplayDataSolutionSerializer::new();
    let mut data = GraphDisplayData::new();
    let rows = vec![
        row(Some(Term::named("http://example.com#")), Some(owl("Ontology")), None, None),
        // the edge comes before its ends
        row(Some(ex("Mother")), Some(rdfs("subClassOf")), Some(ex("Parent")), None),
        row(Some(ex("Mother")), Some(owl("Class")), None, Some(Term::simple_literal("Mum"))),
        row(Some(ex("Parent")), Some(owl("Class")), None, None),
        // rows without subject or discriminator are passed over
        row(None, Some(owl("Class")), None, None),
        row(Some(ex("Ghost")), None, None, None),
    ];
    let result = serializer.serialize_nodes_stream(&mut data, rows);
    assert!(result.is_ok());
    assert_eq!(
        data.elements,
        vec![
            class(OwlNode::Class),
            class(OwlNode::Class),
            ElementType::Rdfs(RdfsType::Edge(RdfsEdge::SubclassOf)),
        ]
    );
    assert_eq!(
        data.labels,
        vec!["Mother".to_string(), "Parent".to_string(), "SubclassOf".to_string()]
    );
    assert_eq!(data.edges, vec![[0, 2, 1]]);
    assert!(data.characteristics.is_empty());
    assert!(data.cardinalities.is_empty());
}

#[test]
fn serialize_reports_every_failure() {
    let serializer = GraphDisplayDataSolutionSerializer::new();
    let mut data = GraphDisplayData::new();
    data.elements.push(ElementType::NoDraw);
    data.labels.push("kept".to_string());
    let rows = vec![
        row(Some(ex("A")), Some(owl("Class")), None, None),
        row(Some(ex("A")), Some(Term::blank("b")), None, None),
        row(Some(ex("A")), Some(owl("equivalentClass")), None, None),
    ];
    let error = serializer.serialize_nodes_stream(&mut data, rows).unwrap_err();
    assert_eq!(
        error.inner,
        VOWLRStoreErrorKind::InvalidInput(
            "Serialization failed (2 errors): [\n\tTriple{ <http://example.com#A> - _:b - } : Illegal blank node during serialization: '_:b'\n\tTriple{ <http://example.com#A> - <http://www.w3.org/2002/07/owl#equivalentClass> - } : Subject of equivalence relation is missing an object\n]"
                .to_string()
        )
    );
    // the graph is left as it was
    assert_eq!(data.elements, vec![ElementType::NoDraw]);
    assert_eq!(data.labels, vec!["kept".to_string()]);
}
