use vowlr::buffer::SerializationDataBuffer;
use vowlr::display::{join_lines, print_graph_display_data, GraphDisplayData};
use vowlr::edge::Edge;
use vowlr::element::{ElementType, OwlEdge, OwlNode, OwlType, RdfsEdge, RdfsType};
use vowlr::serializer::GraphDisplayDataSolutionSerializer;
use vowlr::term::Term;
use vowlr::triple::Triple;

fn ex(name: &str) -> Term {
    Term::named(&format!("http://example.com#{name}"))
}

fn owl(name: &str) -> Term {
    Term::named(&format!("http://www.w3.org/2002/07/owl#{name}"))
}

fn sample() -> SerializationDataBuffer {
    let serializer = GraphDisplayDataSolutionSerializer::new();
    let mut buffer = SerializationDataBuffer::new();
    for name in ["A", "B", "C"] {
        serializer.extract_label(&mut buffer, &None, &ex(name));
        serializer.write_node_triple(&mut buffer, Triple::new(ex(name), owl("Class"), None));
    }
    serializer.write_node_triple(
        &mut buffer,
        Triple::new(
            ex("A"),
            Term::named("http://www.w3.org/2000/01/rdf-schema#subClassOf"),
            Some(ex("B")),
        ),
    );
    serializer.write_node_triple(
        &mut buffer,
        Triple::new(ex("C"), owl("disjointWith"), Some(ex("A"))),
    );
    serializer.write_node_triple(
        &mut buffer,
        Triple::new(ex("B"), owl("InverseFunctionalProperty"), None),
    );
    serializer.write_node_triple(
        &mut buffer,
        Triple::new(ex("B"), owl("InverseFunctionalProperty"), None),
    );
    buffer
}

#[test]
fn graph_from_a_state() {
    let data = GraphDisplayData::from_buffer(sample());
    let class = ElementType::Owl(OwlType::Node(OwlNode::Class));
    assert_eq!(
        data.elements,
        vec![
            class,
            class,
            class,
            ElementType::Rdfs(RdfsType::Edge(RdfsEdge::SubclassOf)),
            ElementType::Owl(OwlType::Edge(OwlEdge::DisjointWith)),
        ]
    );
    assert_eq!(data.labels, vec!["A", "B", "C", "SubclassOf", "DisjointWith"]);
    assert_eq!(data.edges, vec![[0, 3, 1], [2, 4, 0]]);
    assert_eq!(data.elements.len(), data.labels.len());
    for edge in data.edges.iter() {
        for place in edge.iter() {
            assert!(*place < data.elements.len());
        }
    }
    assert_eq!(data.characteristics.len(), 1);
    assert_eq!(
        data.characteristics.get(&1),
        Some(&"InverseFunctionalProperty\nInverseFunctionalProperty".to_string())
    );
    assert!(data.cardinalities.is_empty());
}

#[test]
fn node_without_label_gets_the_name_of_its_kind() {
    let serializer = GraphDisplayDataSolutionSerializer::new();
    let mut buffer = SerializationDataBuffer::new();
    serializer.write_node_triple(&mut buffer, Triple::new(ex("A"), owl("Thing"), None));
    let data = GraphDisplayData::from_buffer(buffer);
    assert_eq!(data.labels, vec!["Thing"]);
}

#[test]
fn moved_edge_has_no_label_and_is_left_out() {
    let serializer = GraphDisplayDataSolutionSerializer::new();
    let mut buffer = SerializationDataBuffer::new();
    for name in ["A", "B", "C"] {
        serializer.write_node_triple(&mut buffer, Triple::new(ex(name), owl("Class"), None));
    }
    serializer.write_node_triple(
        &mut buffer,
        Triple::new(ex("C"), owl("disjointWith"), Some(ex("B"))),
    );
    serializer.write_node_triple(
        &mut buffer,
        Triple::new(ex("A"), owl("equivalentClass"), Some(ex("B"))),
    );
    let kind = ElementType::Owl(OwlType::Edge(OwlEdge::DisjointWith));
    assert!(buffer.edge_buffer.contains_key(&Edge::new(ex("C"), kind, ex("A"), None)));
    let data = GraphDisplayData::from_buffer(buffer);
    assert_eq!(data.elements.len(), 2);
    assert!(data.edges.is_empty());
}

#[test]
fn graph_as_text() {
    let data = GraphDisplayData::from_buffer(sample());
    assert_eq!(
        print_graph_display_data(&data),
        "--- Elements ---\n0: Class -> A\n1: Class -> B\n2: Class -> C\n3: SubclassOf -> SubclassOf\n4: DisjointWith -> DisjointWith\n--- Edges ---\nA -> SubclassOf -> B\nC -> DisjointWith -> A\n--- Characteristics ---\n1 -> \"InverseFunctionalProperty\\nInverseFunctionalProperty\"\n--- Cardinalities ---\n"
    );
    assert_eq!(
        print_graph_display_data(&GraphDisplayData::new()),
        "--- Elements ---\n--- Edges ---\n--- Characteristics ---\n--- Cardinalities ---\n"
    );
}

#[test]
fn well_formed_graphs() {
    let mut data = GraphDisplayData::from_buffer(sample());
    assert!(data.is_well_formed());
    assert!(GraphDisplayData::new().is_well_formed());
    data.edges.push([0, 1, 5]);
    assert!(!data.is_well_formed());
    data.edges.pop();
    data.edges.push([5, 1, 0]);
    assert!(!data.is_well_formed());
    data.edges.pop();
    data.edges.push([4, 4, 4]);
    assert!(data.is_well_formed());
    data.labels.pop();
    assert!(!data.is_well_formed());
}

#[test]
fn lines_are_joined() {
    assert_eq!(join_lines(&vec![]), "");
    assert_eq!(join_lines(&vec!["a".to_string()]), "a");
    assert_eq!(join_lines(&vec!["a".to_string(), "".to_string(), "c".to_string()]), "a\n\nc");
}

#[test]
fn state_as_text() {
    let serializer = GraphDisplayDataSolutionSerializer::new();
    let mut buffer = SerializationDataBuffer::new();
    assert_eq!(
        buffer.text(),
        "SerializationDataBuffer {\n\tdocument_base: \n\tnode_element_buffer:\n\tedge_element_buffer:\n\tedge_redirection:\n\tedges_include_map:\n\tlabel_buffer:\n\tedge_buffer:\n\tedge_characteristics:\n\tnode_characteristics:\n\tunknown_buffer:\n\tfailed_buffer:\n}\n"
    );
    serializer.write_node_triple(&mut buffer, Triple::new(Term::named("b"), owl("Ontology"), None));
    serializer.write_node_triple(&mut buffer, Triple::new(Term::named("bA"), owl("Class"), None));
    serializer.write_node_triple(&mut buffer, Triple::new(Term::named("bp"), owl("ObjectProperty"), None));
    serializer.extract_label(&mut buffer, &Some(Term::simple_literal("l")), &Term::named("bA"));
    serializer.write_node_triple(
        &mut buffer,
        Triple::new(Term::named("bA"), owl("disjointWith"), Some(Term::named("bA"))),
    );
    serializer.write_node_triple(
        &mut buffer,
        Triple::new(Term::named("bA"), owl("disjointWith"), Some(Term::named("bZ"))),
    );
    serializer.write_node_triple(
        &mut buffer,
        Triple::new(Term::named("bA"), owl("InverseFunctionalProperty"), None),
    );
    serializer.write_node_triple(&mut buffer, Triple::new(Term::named("bA"), Term::blank("x"), None));
    serializer.redirect_iri(&mut buffer, &Term::blank("o"), &Term::named("bA"));
    assert_eq!(
        buffer.text(),
        "SerializationDataBuffer {\n\tdocument_base: b\n\tnode_element_buffer:\n\t\t<bA> : Class\n\tedge_element_buffer:\n\t\t<bp> : ObjectProperty\n\tedge_redirection:\n\t\t_:o -> <bA>\n\tedges_include_map:\n\t\t<bA> : {\n\t\t\tEdge{ <bA> - DisjointWith - <bA> }\n\t\t}\n\tlabel_buffer:\n\t\t<bA> : \"l\"\n\tedge_buffer:\n\t\tEdge{ <bA> - DisjointWith - <bA> }\n\tedge_characteristics:\n\tnode_characteristics:\n\t\t<bA> : InverseFunctionalProperty\n\tunknown_buffer:\n\t\t<bZ> : {\n\t\t\tTriple{ <bA> - <http://www.w3.org/2002/07/owl#disjointWith> - <bZ>}\n\t\t}\n\tfailed_buffer:\n\t\tTriple{ <bA> - _:x - } : Illegal blank node during serialization: '_:x'\n}\n"
    );
}

#[test]
fn property_notes_are_kept_by_text() {
    let mut buffer = SerializationDataBuffer::new();
    let kind = ElementType::Owl(OwlType::Edge(OwlEdge::ObjectProperty));
    let edge = Edge::new(ex("A"), kind, ex("B"), Some(ex("p")));
    buffer.add_property_edge("p".to_string(), edge.duplicate());
    buffer.add_property_edge("p".to_string(), Edge::new(ex("B"), kind, ex("A"), Some(ex("p"))));
    assert_eq!(buffer.property_edge_map.len(), 1);
    assert_eq!(
        buffer.property_edge_map.get(&"p".to_string()).unwrap().subject,
        ex("B")
    );
    buffer.add_property_domain("p".to_string(), "d1".to_string());
    buffer.add_property_domain("p".to_string(), "d2".to_string());
    buffer.add_property_domain("p".to_string(), "d1".to_string());
    buffer.add_property_domain("q".to_string(), "d1".to_string());
    buffer.add_property_range("p".to_string(), "r".to_string());
    assert_eq!(buffer.property_domain_map.len(), 2);
    assert_eq!(buffer.property_domain_map.get(&"p".to_string()).unwrap().len(), 2);
    assert_eq!(buffer.property_domain_map.get(&"q".to_string()).unwrap().len(), 1);
    assert_eq!(buffer.property_range_map.get(&"p".to_string()).unwrap().len(), 1);
    assert!(buffer.property_range_map.get(&"q".to_string()).is_none());
}
