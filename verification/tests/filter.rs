use vowlr::element::{
    ElementType, GenericEdge, GenericNode, GenericType, OwlEdge, OwlNode, OwlType, RdfEdge,
    RdfType, RdfsEdge, RdfsNode, RdfsType,
};
use vowlr::filter::{
    all_enabled, filter, group_rendered, group_title, group_total, is_owl_class, is_property,
    is_rdf_class, is_set_operator, toggle_group, ElementLegend,
};
use vowlr::table::Table;

fn every_kind() -> Vec<ElementType> {
    let mut kinds = vec![ElementType::NoDraw];
    for node in [
        OwlNode::AnonymousClass,
        OwlNode::Class,
        OwlNode::Complement,
        OwlNode::DeprecatedClass,
        OwlNode::ExternalClass,
        OwlNode::EquivalentClass,
        OwlNode::DisjointUnion,
        OwlNode::IntersectionOf,
        OwlNode::Thing,
        OwlNode::UnionOf,
    ] {
        kinds.push(ElementType::Owl(OwlType::Node(node)));
    }
    for edge in [
        OwlEdge::DatatypeProperty,
        OwlEdge::DisjointWith,
        OwlEdge::DeprecatedProperty,
        OwlEdge::ExternalProperty,
        OwlEdge::InverseOf,
        OwlEdge::ObjectProperty,
        OwlEdge::ValuesFrom,
    ] {
        kinds.push(ElementType::Owl(OwlType::Edge(edge)));
    }
    for node in [RdfsNode::Class, RdfsNode::Literal, RdfsNode::Resource, RdfsNode::Datatype] {
        kinds.push(ElementType::Rdfs(RdfsType::Node(node)));
    }
    kinds.push(ElementType::Rdfs(RdfsType::Edge(RdfsEdge::SubclassOf)));
    kinds.push(ElementType::Rdf(RdfType::Edge(RdfEdge::RdfProperty)));
    kinds.push(ElementType::Generic(GenericType::Node(GenericNode::Generic)));
    kinds.push(ElementType::Generic(GenericType::Edge(GenericEdge::Generic)));
    kinds
}

#[test]
fn groups_of_the_filter_menu() {
    let kinds = every_kind();
    assert_eq!(kinds.len(), 26);
    assert_eq!(kinds.iter().filter(|k| is_owl_class(**k)).count(), 6);
    assert_eq!(kinds.iter().filter(|k| is_set_operator(**k)).count(), 4);
    assert_eq!(kinds.iter().filter(|k| is_rdf_class(**k)).count(), 4);
    assert_eq!(kinds.iter().filter(|k| is_property(**k)).count(), 10);
    for kind in kinds {
        let groups = [is_owl_class(kind), is_set_operator(kind), is_rdf_class(kind), is_property(kind)];
        assert!(groups.iter().filter(|g| **g).count() <= 1);
    }
    assert!(is_set_operator(ElementType::Owl(OwlType::Node(OwlNode::UnionOf))));
    assert!(!is_owl_class(ElementType::Owl(OwlType::Node(OwlNode::UnionOf))));
    assert!(is_owl_class(ElementType::Owl(OwlType::Node(OwlNode::Thing))));
    assert!(!is_property(ElementType::NoDraw));
}

#[test]
fn filter_with_no_predicate_keeps_nothing() {
    let none: [fn(ElementType) -> bool; 0] = [];
    assert_eq!(filter(every_kind(), &none), Vec::<ElementType>::new());
    assert_eq!(filter(Vec::new(), &none), Vec::<ElementType>::new());
}

#[test]
fn filter_with_a_true_predicate_keeps_all() {
    let yes: [fn(ElementType) -> bool; 1] = [|_| true];
    assert_eq!(filter(every_kind(), &yes), every_kind());
    let mixed: [fn(ElementType) -> bool; 2] = [|_| false, |_| true];
    assert_eq!(filter(every_kind(), &mixed), every_kind());
}

#[test]
fn filter_keeps_what_some_predicate_accepts() {
    let groups: [fn(ElementType) -> bool; 2] = [is_rdf_class, is_set_operator];
    let kept = filter(every_kind(), &groups);
    assert_eq!(
        kept,
        vec![
            ElementType::Owl(OwlType::Node(OwlNode::Complement)),
            ElementType::Owl(OwlType::Node(OwlNode::DisjointUnion)),
            ElementType::Owl(OwlType::Node(OwlNode::IntersectionOf)),
            ElementType::Owl(OwlType::Node(OwlNode::UnionOf)),
            ElementType::Rdfs(RdfsType::Node(RdfsNode::Class)),
            ElementType::Rdfs(RdfsType::Node(RdfsNode::Literal)),
            ElementType::Rdfs(RdfsType::Node(RdfsNode::Resource)),
            ElementType::Rdfs(RdfsType::Node(RdfsNode::Datatype)),
        ]
    );
    let never: [fn(ElementType) -> bool; 1] = [|_| false];
    assert!(filter(every_kind(), &never).is_empty());
    // what occurs twice is kept twice
    let twice = vec![ElementType::NoDraw, ElementType::NoDraw];
    let yes: [fn(ElementType) -> bool; 1] = [|k| k == ElementType::NoDraw];
    assert_eq!(filter(twice.clone(), &yes), twice);
}

#[test]
fn legends() {
    assert_eq!(ElementType::NoDraw.legend(), None);
    assert_eq!(
        ElementType::Owl(OwlType::Node(OwlNode::IntersectionOf)).legend(),
        Some("/node_legends/Intersection.png".to_string())
    );
    assert_eq!(OwlNode::UnionOf.legend(), Some("/node_legends/Union.png".to_string()));
    assert_eq!(OwlNode::Class.legend(), Some("/node_legends/Class.png".to_string()));
    assert_eq!(OwlEdge::DisjointWith.legend(), Some("/node_legends/Disjoint.png".to_string()));
    assert_eq!(OwlEdge::ObjectProperty.legend(), None);
    assert_eq!(OwlEdge::InverseOf.legend(), None);
    assert_eq!(OwlEdge::ValuesFrom.legend(), None);
    assert_eq!(RdfsNode::Class.legend(), Some("/node_legends/RdfsClass.png".to_string()));
    assert_eq!(RdfsNode::Literal.legend(), Some("/node_legends/Literal.png".to_string()));
    assert_eq!(RdfsEdge::SubclassOf.legend(), Some("/node_legends/SubclassOf.png".to_string()));
    assert_eq!(RdfEdge::RdfProperty.legend(), None);
    assert_eq!(GenericNode::Generic.legend(), None);
    assert_eq!(GenericEdge::Generic.legend(), None);
    let with_legend = every_kind().into_iter().filter(|k| k.legend().is_some()).count();
    assert_eq!(with_legend, 10 + 4 + 4 + 1);
}

#[test]
fn group_counts_and_toggle() {
    let a = ElementType::Owl(OwlType::Node(OwlNode::Class));
    let b = ElementType::Owl(OwlType::Node(OwlNode::Thing));
    let c = ElementType::Owl(OwlType::Node(OwlNode::DeprecatedClass));
    let items = vec![a, b, c];
    let mut counts: Table<ElementType, usize> = Table::new();
    counts.insert(a, 5);
    counts.insert(b, 7);
    let mut checks: Table<ElementType, bool> = Table::new();
    assert_eq!(group_total(&items, &counts), 12);
    assert_eq!(group_rendered(&items, &checks, &counts), 12);
    assert!(all_enabled(&items, &checks));
    checks.insert(b, false);
    assert_eq!(group_rendered(&items, &checks, &counts), 5);
    assert!(!all_enabled(&items, &checks));
    assert_eq!(group_title("Classes", 5, 12), "Classes: (5/12)");
    // not all are shown: the checkbox shows all
    toggle_group(&items, &mut checks);
    assert_eq!(checks.get(&a), Some(&true));
    assert_eq!(checks.get(&b), Some(&true));
    assert_eq!(checks.get(&c), Some(&true));
    // all are shown: the checkbox hides all
    toggle_group(&items, &mut checks);
    assert_eq!(checks.get(&a), Some(&false));
    assert_eq!(checks.get(&b), Some(&false));
    assert_eq!(checks.get(&c), Some(&false));
    assert_eq!(group_rendered(&items, &checks, &counts), 0);
    assert_eq!(group_total(&Vec::new(), &counts), 0);
    assert!(all_enabled(&Vec::new(), &checks));
}
