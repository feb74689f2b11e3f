use vowlr::edge::Edge;
use vowlr::element::{ElementType, OwlEdge, OwlType, RdfsEdge, RdfsType};
use vowlr::table::Table;
use vowlr::term::Term;

#[test]
fn test_disjoint_with_edge_symmetry() {
    // Create two edges with swapped subject and object
    let x = Term::blank("x");
    let y = Term::blank("y");
    assert_eq!(x.text(), "_:x");
    assert_eq!(y.text(), "_:y");
    let edge1 = Edge::new(
        x.clone(),
        ElementType::Owl(OwlType::Edge(OwlEdge::DisjointWith)),
        y.clone(),
        None,
    );
    let edge2 = Edge::new(
        y.clone(),
        ElementType::Owl(OwlType::Edge(OwlEdge::DisjointWith)),
        x.clone(),
        None,
    );

    // Test that they are equal
    assert_eq!(
        edge1, edge2,
        "DisjointWith edges should be equal regardless of subject/object order"
    );

    // Test that they collide to one entry of a set
    let mut edge_set: Table<Edge, ()> = Table::new();
    edge_set.insert_absent(edge1.clone(), ());
    edge_set.insert_absent(edge2.clone(), ());

    assert_eq!(
        edge_set.len(),
        1,
        "The set should only contain one edge when both are DisjointWith with swapped subject/object"
    );
}

#[test]
fn test_non_symmetric_edge_distinction() {
    // Create two edges with swapped subject and object for a non-symmetric relation
    let x = Term::blank("x");
    let y = Term::blank("y");
    let edge1 = Edge::new(
        x.clone(),
        ElementType::Owl(OwlType::Edge(OwlEdge::ObjectProperty)),
        y.clone(),
        Some(Term::named("prop1")),
    );
    let edge2 = Edge::new(
        y.clone(),
        ElementType::Owl(OwlType::Edge(OwlEdge::ObjectProperty)),
        x.clone(),
        Some(Term::named("prop1")),
    );

    // Test that they are NOT equal
    assert_ne!(
        edge1, edge2,
        "Non-symmetric edges should NOT be equal when subject/object are swapped"
    );

    // Test that they both appear in the set
    let mut edge_set: Table<Edge, ()> = Table::new();
    edge_set.insert_absent(edge1.clone(), ());
    edge_set.insert_absent(edge2.clone(), ());

    assert_eq!(
        edge_set.len(),
        2,
        "HashSet should contain both edges when they are non-symmetric"
    );
}

#[test]
fn edges_differ_by_kind_and_property() {
    let a = Term::named("http://example.com#A");
    let b = Term::named("http://example.com#B");
    let object = ElementType::Owl(OwlType::Edge(OwlEdge::ObjectProperty));
    let sub = ElementType::Rdfs(RdfsType::Edge(RdfsEdge::SubclassOf));
    let knows = Edge::new(a.clone(), object, b.clone(), Some(Term::named("http://example.com#knows")));
    let likes = Edge::new(a.clone(), object, b.clone(), Some(Term::named("http://example.com#likes")));
    let s = Edge::new(a.clone(), sub, b.clone(), None);
    assert_ne!(knows, likes);
    assert_ne!(knows, s);
    assert_eq!(knows, knows.duplicate());
    let looped = Edge::new(a.clone(), object, a.clone(), None);
    assert_eq!(looped, Edge::new(a.clone(), object, a.clone(), None));
}

#[test]
fn symmetric_set_keeps_the_first_form() {
    let x = Term::blank("x");
    let y = Term::blank("y");
    let kind = ElementType::Owl(OwlType::Edge(OwlEdge::DisjointWith));
    let mut set: Table<Edge, ()> = Table::new();
    assert!(set.insert_absent(Edge::new(x.clone(), kind, y.clone(), None), ()));
    assert!(!set.insert_absent(Edge::new(y.clone(), kind, x.clone(), None), ()));
    let (stored, _) = set.entry(0);
    assert_eq!(stored.subject, x);
    assert_eq!(stored.object, y);
    assert_eq!(stored.text(), "Edge{ _:x - DisjointWith - _:y }");
}
