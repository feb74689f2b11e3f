use vowlr::buffer::SerializationDataBuffer;
use vowlr::edge::Edge;
use vowlr::element::ElementType;
use vowlr::serializer::GraphDisplayDataSolutionSerializer;
use vowlr::term::Term;
use vowlr::triple::Triple;

fn print_graph_display_data(data_buffer: &SerializationDataBuffer) {
    for index in 0..data_buffer.node_element_buffer.len() {
        let (label, element) = data_buffer.node_element_buffer.entry(index);
        println!("{index}: {} -> {element:?}", label.text());
    }
    for index in 0..data_buffer.edge_buffer.len() {
        let (edge, _) = data_buffer.edge_buffer.entry(index);
        println!(
            "{} -> {:?} -> {}",
            edge.subject.text(),
            edge.element_type,
            edge.object.text()
        );
    }
}

#[test]
fn test_replace_node() {
    let serializer = GraphDisplayDataSolutionSerializer::new();
    let mut data_buffer = SerializationDataBuffer::new();

    let example_com = Term::named("http://example.com#");
    let owl_ontology = Term::named("http://www.w3.org/2002/07/owl#Ontology");
    let example_parent = Term::named("http://example.com#Parent");
    let owl_class = Term::named("http://www.w3.org/2002/07/owl#Class");
    let example_mother = Term::named("http://example.com#Mother");
    let example_guardian = Term::named("http://example.com#Guardian");
    let example_warden = Term::named("http://example.com#Warden");
    let example_warden1 = Term::named("http://example.com#Warden1");
    let rdfs_subclass_of = Term::named("http://www.w3.org/2000/01/rdf-schema#subClassOf");
    let blanknode1 = Term::blank("e1013e66f734c508511575854b0c9396");

    serializer.write_node_triple(
        &mut data_buffer,
        Triple::new(example_com.clone(), owl_ontology.clone(), None),
    );
    serializer.write_node_triple(
        &mut data_buffer,
        Triple::new(example_parent.clone(), owl_class.clone(), None),
    );
    serializer.write_node_triple(
        &mut data_buffer,
        Triple::new(example_mother.clone(), owl_class.clone(), None),
    );
    serializer.write_node_triple(
        &mut data_buffer,
        Triple::new(example_guardian.clone(), owl_class.clone(), None),
    );
    serializer.write_node_triple(
        &mut data_buffer,
        Triple::new(example_warden.clone(), owl_class.clone(), None),
    );
    serializer.write_node_triple(
        &mut data_buffer,
        Triple::new(example_warden1.clone(), owl_class.clone(), None),
    );
    serializer.write_node_triple(
        &mut data_buffer,
        Triple::new(
            example_warden.clone(),
            rdfs_subclass_of.clone(),
            Some(example_guardian.clone()),
        ),
    );
    serializer.write_node_triple(
        &mut data_buffer,
        Triple::new(
            example_mother.clone(),
            rdfs_subclass_of.clone(),
            Some(example_parent.clone()),
        ),
    );
    serializer.write_node_triple(
        &mut data_buffer,
        Triple::new(blanknode1.clone(), Term::simple_literal("blanknode"), None),
    );
    serializer.write_node_triple(
        &mut data_buffer,
        Triple::new(
            example_warden1.clone(),
            Term::named("http://www.w3.org/2002/07/owl#unionOf"),
            Some(example_warden.clone()),
        ),
    );

    print_graph_display_data(&data_buffer);
    println!("--------------------------------");

    let triple = Triple::new(
        example_guardian.clone(),
        Term::named("http://www.w3.org/2002/07/owl#equivalentClass"),
        Some(example_warden.clone()),
    );
    serializer.write_node_triple(&mut data_buffer, triple);
    for index in 0..data_buffer.node_element_buffer.len() {
        let (k, v) = data_buffer.node_element_buffer.entry(index);
        println!("element_buffer: {} -> {}", k.text(), v.name());
    }
    for index in 0..data_buffer.edges_include_map.len() {
        let (k, v) = data_buffer.edges_include_map.entry(index);
        println!("edges_include_map: {} -> {:?}", k.text(), v.len());
    }
    for index in 0..data_buffer.edge_redirection.len() {
        let (k, v) = data_buffer.edge_redirection.entry(index);
        println!("edge_redirection: {} -> {}", k.text(), v.text());
    }
    assert!(data_buffer
        .node_element_buffer
        .contains_key(&example_guardian.clone()));
    assert!(!data_buffer.node_element_buffer.contains_key(&example_warden));
    assert!(data_buffer.node_element_buffer.contains_key(&example_warden1));
    assert!(data_buffer.edges_include_map.contains_key(&example_warden1));

    assert!(data_buffer.edge_buffer.contains_key(&Edge::new(
        example_warden1,
        ElementType::NoDraw,
        example_guardian.clone(),
        None
    )));
    assert!(data_buffer.edge_redirection.contains_key(&example_warden));
    assert_eq!(
        data_buffer
            .edge_redirection
            .get(&example_warden)
            .unwrap()
            .clone(),
        example_guardian
    );
    serializer.write_node_triple(
        &mut data_buffer,
        Triple::new(
            Term::named("http://example.com#Guardian"),
            Term::named("http://www.w3.org/2002/07/owl#equivalentClass"),
            Some(blanknode1.clone()),
        ),
    );
    let s = serializer.resolve(&data_buffer, blanknode1.clone());
    assert!(s.is_some());
    for index in 0..data_buffer.node_element_buffer.len() {
        let (k, v) = data_buffer.node_element_buffer.entry(index);
        println!("element_buffer: {} -> {}", k.text(), v.name());
    }
    for index in 0..data_buffer.edge_redirection.len() {
        let (k, v) = data_buffer.edge_redirection.entry(index);
        println!("edge_redirection: {} -> {}", k.text(), v.text());
    }
    assert!(s.unwrap() == example_guardian);
    assert!(!data_buffer.edges_include_map.contains_key(&blanknode1));
    assert!(!data_buffer.edges_include_map.contains_key(&example_warden));
    print_graph_display_data(&data_buffer);
    println!("data_buffer: {}", data_buffer.text());
}
