//! The vocabulary terms the engine knows, and what a row's discriminator asks
//! the engine to do.

use crate::element::{
    ElementType, OwlEdge, OwlNode, OwlType, RdfEdge, RdfType, RdfsEdge, RdfsNode, RdfsType,
};
use crate::table::Table;
use crate::term::{Term, TermView};
use crate::text::{trim_tag_circumfix, trimmed_tag};
use vstd::prelude::*;
use vstd::string::*;

verus! {

pub const RDF_PROPERTY: &'static str = "http://www.w3.org/1999/02/22-rdf-syntax-ns#Property";

pub const RDF_XML_LITERAL: &'static str = "http://www.w3.org/1999/02/22-rdf-syntax-ns#XMLLiteral";

pub const RDFS_CLASS: &'static str = "http://www.w3.org/2000/01/rdf-schema#Class";

pub const RDFS_DATATYPE: &'static str = "http://www.w3.org/2000/01/rdf-schema#Datatype";

pub const RDFS_DOMAIN: &'static str = "http://www.w3.org/2000/01/rdf-schema#domain";

pub const RDFS_LITERAL: &'static str = "http://www.w3.org/2000/01/rdf-schema#Literal";

pub const RDFS_RANGE: &'static str = "http://www.w3.org/2000/01/rdf-schema#range";

pub const RDFS_RESOURCE: &'static str = "http://www.w3.org/2000/01/rdf-schema#Resource";

pub const RDFS_SUB_CLASS_OF: &'static str = "http://www.w3.org/2000/01/rdf-schema#subClassOf";

pub const RDFS_SUB_PROPERTY_OF: &'static str = "http://www.w3.org/2000/01/rdf-schema#subPropertyOf";

pub const OWL_ALL_DISJOINT_CLASSES: &'static str = "http://www.w3.org/2002/07/owl#AllDisjointClasses";

pub const OWL_ALL_DISJOINT_PROPERTIES: &'static str =
    "http://www.w3.org/2002/07/owl#AllDisjointProperties";

pub const OWL_CLASS: &'static str = "http://www.w3.org/2002/07/owl#Class";

pub const OWL_COMPLEMENT_OF: &'static str = "http://www.w3.org/2002/07/owl#complementOf";

pub const OWL_DATATYPE_COMPLEMENT_OF: &'static str =
    "http://www.w3.org/2002/07/owl#datatypeComplementOf";

pub const OWL_DATATYPE_PROPERTY: &'static str = "http://www.w3.org/2002/07/owl#DatatypeProperty";

pub const OWL_DEPRECATED: &'static str = "http://www.w3.org/2002/07/owl#deprecated";

pub const OWL_DEPRECATED_CLASS: &'static str = "http://www.w3.org/2002/07/owl#DeprecatedClass";

pub const OWL_DEPRECATED_PROPERTY: &'static str = "http://www.w3.org/2002/07/owl#DeprecatedProperty";

pub const OWL_DIFFERENT_FROM: &'static str = "http://www.w3.org/2002/07/owl#differentFrom";

pub const OWL_DISJOINT_UNION_OF: &'static str = "http://www.w3.org/2002/07/owl#disjointUnionOf";

pub const OWL_DISJOINT_WITH: &'static str = "http://www.w3.org/2002/07/owl#disjointWith";

pub const OWL_EQUIVALENT_CLASS: &'static str = "http://www.w3.org/2002/07/owl#equivalentClass";

pub const OWL_EQUIVALENT_PROPERTY: &'static str = "http://www.w3.org/2002/07/owl#equivalentProperty";

pub const OWL_INTERSECTION_OF: &'static str = "http://www.w3.org/2002/07/owl#intersectionOf";

pub const OWL_INVERSE_FUNCTIONAL_PROPERTY: &'static str =
    "http://www.w3.org/2002/07/owl#InverseFunctionalProperty";

pub const OWL_OBJECT_PROPERTY: &'static str = "http://www.w3.org/2002/07/owl#ObjectProperty";

pub const OWL_ONTOLOGY: &'static str = "http://www.w3.org/2002/07/owl#Ontology";

pub const OWL_THING: &'static str = "http://www.w3.org/2002/07/owl#Thing";

pub const OWL_UNION_OF: &'static str = "http://www.w3.org/2002/07/owl#unionOf";

/// The discriminator a query gives to a class without a name.
pub const BLANK_NODE_MARK: &'static str = "blanknode";

/// What one row asks for, by its discriminator alone.
#[derive(Clone, Copy, Debug, PartialEq, Eq, Structural)]
pub enum RowAction {
    /// A blank node as discriminator: never legal.
    IllegalBlank,
    /// A literal other than the mark of an anonymous class.
    UnsupportedLiteral,
    /// Insert the subject as a node of this kind.
    InsertNode(ElementType),
    /// Insert an edge of this kind from the subject to the target.
    InsertEdge(ElementType),
    /// Link subject and target without drawing, and where a target is given
    /// raise the subject to this kind.
    Operator(ElementType),
    /// Link subject and target without drawing, and where the link was made
    /// raise its subject to this kind.
    LinkedOperator(ElementType),
    /// Register the subject as a property of this kind; no edge yet.
    RegisterProperty(ElementType),
    /// Merge the target into the subject.
    EquivalentClass,
    /// Note the inverse-functional trait on the subject.
    InverseFunctional,
    /// Take the subject as the document's base.
    Ontology,
    /// A term that the query never binds: nothing is done.
    Ignored,
    /// Any other named term: the row gives a property with its two ends.
    PropertyRow,
}

pub open spec fn owl_node(node: OwlNode) -> ElementType {
    ElementType::Owl(OwlType::Node(node))
}

pub open spec fn owl_edge(edge: OwlEdge) -> ElementType {
    ElementType::Owl(OwlType::Edge(edge))
}

pub open spec fn rdfs_node(node: RdfsNode) -> ElementType {
    ElementType::Rdfs(RdfsType::Node(node))
}

/// The dispatch table of the engine, by discriminator.
pub open spec fn row_action(node_type: TermView) -> RowAction {
    match node_type {
        TermView::BlankNode(_) => RowAction::IllegalBlank,
        TermView::Literal(literal) => if literal.value == BLANK_NODE_MARK@ {
            RowAction::InsertNode(owl_node(OwlNode::AnonymousClass))
        } else {
            RowAction::UnsupportedLiteral
        },
        TermView::NamedNode(iri) => if iri == RDF_PROPERTY@ {
            RowAction::InsertEdge(ElementType::Rdf(RdfType::Edge(RdfEdge::RdfProperty)))
        } else if iri == RDFS_CLASS@ {
            RowAction::InsertNode(rdfs_node(RdfsNode::Class))
        } else if iri == RDFS_DATATYPE@ {
            RowAction::InsertNode(rdfs_node(RdfsNode::Datatype))
        } else if iri == RDFS_DOMAIN@ {
            RowAction::Ignored
        } else if iri == RDFS_LITERAL@ {
            RowAction::InsertNode(rdfs_node(RdfsNode::Literal))
        } else if iri == RDFS_RANGE@ {
            RowAction::Ignored
        } else if iri == RDFS_RESOURCE@ {
            RowAction::InsertNode(rdfs_node(RdfsNode::Resource))
        } else if iri == RDFS_SUB_CLASS_OF@ {
            RowAction::InsertEdge(ElementType::Rdfs(RdfsType::Edge(RdfsEdge::SubclassOf)))
        } else if iri == OWL_CLASS@ {
            RowAction::InsertNode(owl_node(OwlNode::Class))
        } else if iri == OWL_COMPLEMENT_OF@ {
            RowAction::Operator(owl_node(OwlNode::Complement))
        } else if iri == OWL_DATATYPE_PROPERTY@ {
            RowAction::RegisterProperty(owl_edge(OwlEdge::DatatypeProperty))
        } else if iri == OWL_DEPRECATED_CLASS@ {
            RowAction::InsertNode(owl_node(OwlNode::DeprecatedClass))
        } else if iri == OWL_DEPRECATED_PROPERTY@ {
            RowAction::InsertEdge(owl_edge(OwlEdge::DeprecatedProperty))
        } else if iri == OWL_DISJOINT_UNION_OF@ {
            RowAction::Operator(owl_node(OwlNode::DisjointUnion))
        } else if iri == OWL_DISJOINT_WITH@ {
            RowAction::InsertEdge(owl_edge(OwlEdge::DisjointWith))
        } else if iri == OWL_EQUIVALENT_CLASS@ {
            RowAction::EquivalentClass
        } else if iri == OWL_INTERSECTION_OF@ {
            RowAction::LinkedOperator(owl_node(OwlNode::IntersectionOf))
        } else if iri == OWL_INVERSE_FUNCTIONAL_PROPERTY@ {
            RowAction::InverseFunctional
        } else if iri == OWL_OBJECT_PROPERTY@ {
            RowAction::RegisterProperty(owl_edge(OwlEdge::ObjectProperty))
        } else if iri == OWL_ONTOLOGY@ {
            RowAction::Ontology
        } else if iri == OWL_THING@ {
            RowAction::InsertNode(owl_node(OwlNode::Thing))
        } else if iri == OWL_UNION_OF@ {
            RowAction::LinkedOperator(owl_node(OwlNode::UnionOf))
        } else {
            RowAction::PropertyRow
        },
    }
}

/// The terms of the dispatch table are all different, so each of them gets
/// the action that the table gives it.
pub proof fn lemma_dispatch_table()
    ensures
        row_action(TermView::NamedNode(RDF_PROPERTY@)) == RowAction::InsertEdge(
            ElementType::Rdf(RdfType::Edge(RdfEdge::RdfProperty)),
        ),
        row_action(TermView::NamedNode(RDFS_CLASS@)) == RowAction::InsertNode(
            rdfs_node(RdfsNode::Class),
        ),
        row_action(TermView::NamedNode(RDFS_DATATYPE@)) == RowAction::InsertNode(
            rdfs_node(RdfsNode::Datatype),
        ),
        row_action(TermView::NamedNode(RDFS_DOMAIN@)) == RowAction::Ignored,
        row_action(TermView::NamedNode(RDFS_LITERAL@)) == RowAction::InsertNode(
            rdfs_node(RdfsNode::Literal),
        ),
        row_action(TermView::NamedNode(RDFS_RANGE@)) == RowAction::Ignored,
        row_action(TermView::NamedNode(RDFS_RESOURCE@)) == RowAction::InsertNode(
            rdfs_node(RdfsNode::Resource),
        ),
        row_action(TermView::NamedNode(RDFS_SUB_CLASS_OF@)) == RowAction::InsertEdge(
            ElementType::Rdfs(RdfsType::Edge(RdfsEdge::SubclassOf)),
        ),
        row_action(TermView::NamedNode(OWL_CLASS@)) == RowAction::InsertNode(
            owl_node(OwlNode::Class),
        ),
        row_action(TermView::NamedNode(OWL_COMPLEMENT_OF@)) == RowAction::Operator(
            owl_node(OwlNode::Complement),
        ),
        row_action(TermView::NamedNode(OWL_DATATYPE_PROPERTY@)) == RowAction::RegisterProperty(
            owl_edge(OwlEdge::DatatypeProperty),
        ),
        row_action(TermView::NamedNode(OWL_DEPRECATED_CLASS@)) == RowAction::InsertNode(
            owl_node(OwlNode::DeprecatedClass),
        ),
        row_action(TermView::NamedNode(OWL_DEPRECATED_PROPERTY@)) == RowAction::InsertEdge(
            owl_edge(OwlEdge::DeprecatedProperty),
        ),
        row_action(TermView::NamedNode(OWL_DISJOINT_UNION_OF@)) == RowAction::Operator(
            owl_node(OwlNode::DisjointUnion),
        ),
        row_action(TermView::NamedNode(OWL_DISJOINT_WITH@)) == RowAction::InsertEdge(
            owl_edge(OwlEdge::DisjointWith),
        ),
        row_action(TermView::NamedNode(OWL_EQUIVALENT_CLASS@)) == RowAction::EquivalentClass,
        row_action(TermView::NamedNode(OWL_INTERSECTION_OF@)) == RowAction::LinkedOperator(
            owl_node(OwlNode::IntersectionOf),
        ),
        row_action(TermView::NamedNode(OWL_INVERSE_FUNCTIONAL_PROPERTY@))
            == RowAction::InverseFunctional,
        row_action(TermView::NamedNode(OWL_OBJECT_PROPERTY@)) == RowAction::RegisterProperty(
            owl_edge(OwlEdge::ObjectProperty),
        ),
        row_action(TermView::NamedNode(OWL_ONTOLOGY@)) == RowAction::Ontology,
        row_action(TermView::NamedNode(OWL_THING@)) == RowAction::InsertNode(
            owl_node(OwlNode::Thing),
        ),
        row_action(TermView::NamedNode(OWL_UNION_OF@)) == RowAction::LinkedOperator(
            owl_node(OwlNode::UnionOf),
        ),
{
    reveal_strlit("http://www.w3.org/1999/02/22-rdf-syntax-ns#Property");
    reveal_strlit("http://www.w3.org/2000/01/rdf-schema#Class");
    reveal_strlit("http://www.w3.org/2000/01/rdf-schema#Datatype");
    reveal_strlit("http://www.w3.org/2000/01/rdf-schema#domain");
    reveal_strlit("http://www.w3.org/2000/01/rdf-schema#Literal");
    reveal_strlit("http://www.w3.org/2000/01/rdf-schema#range");
    reveal_strlit("http://www.w3.org/2000/01/rdf-schema#Resource");
    reveal_strlit("http://www.w3.org/2000/01/rdf-schema#subClassOf");
    reveal_strlit("http://www.w3.org/2002/07/owl#Class");
    reveal_strlit("http://www.w3.org/2002/07/owl#complementOf");
    reveal_strlit("http://www.w3.org/2002/07/owl#DatatypeProperty");
    reveal_strlit("http://www.w3.org/2002/07/owl#DeprecatedClass");
    reveal_strlit("http://www.w3.org/2002/07/owl#DeprecatedProperty");
    reveal_strlit("http://www.w3.org/2002/07/owl#disjointUnionOf");
    reveal_strlit("http://www.w3.org/2002/07/owl#disjointWith");
    reveal_strlit("http://www.w3.org/2002/07/owl#equivalentClass");
    reveal_strlit("http://www.w3.org/2002/07/owl#intersectionOf");
    reveal_strlit("http://www.w3.org/2002/07/owl#InverseFunctionalProperty");
    reveal_strlit("http://www.w3.org/2002/07/owl#ObjectProperty");
    reveal_strlit("http://www.w3.org/2002/07/owl#Ontology");
    reveal_strlit("http://www.w3.org/2002/07/owl#Thing");
    reveal_strlit("http://www.w3.org/2002/07/owl#unionOf");
    assert(RDF_PROPERTY@.len() == 51);
    assert(RDFS_CLASS@.len() == 42);
    assert(RDFS_DATATYPE@.len() == 45);
    assert(RDFS_DOMAIN@.len() == 43);
    assert(RDFS_LITERAL@.len() == 44);
    assert(RDFS_RANGE@.len() == 42);
    assert(RDFS_RESOURCE@.len() == 45);
    assert(RDFS_SUB_CLASS_OF@.len() == 47);
    assert(OWL_CLASS@.len() == 35);
    assert(OWL_COMPLEMENT_OF@.len() == 42);
    assert(OWL_DATATYPE_PROPERTY@.len() == 46);
    assert(OWL_DEPRECATED_CLASS@.len() == 45);
    assert(OWL_DEPRECATED_PROPERTY@.len() == 48);
    assert(OWL_DISJOINT_UNION_OF@.len() == 45);
    assert(OWL_DISJOINT_WITH@.len() == 42);
    assert(OWL_EQUIVALENT_CLASS@.len() == 45);
    assert(OWL_INTERSECTION_OF@.len() == 44);
    assert(OWL_INVERSE_FUNCTIONAL_PROPERTY@.len() == 55);
    assert(OWL_OBJECT_PROPERTY@.len() == 44);
    assert(OWL_ONTOLOGY@.len() == 38);
    assert(OWL_THING@.len() == 35);
    assert(OWL_UNION_OF@.len() == 37);
    assert(RDFS_RANGE@[37] != RDFS_CLASS@[37]);
    assert(RDFS_RESOURCE@[37] != RDFS_DATATYPE@[37]);
    assert(OWL_COMPLEMENT_OF@[21] != RDFS_CLASS@[21]);
    assert(OWL_COMPLEMENT_OF@[21] != RDFS_RANGE@[21]);
    assert(OWL_DEPRECATED_CLASS@[21] != RDFS_DATATYPE@[21]);
    assert(OWL_DEPRECATED_CLASS@[21] != RDFS_RESOURCE@[21]);
    assert(OWL_DISJOINT_UNION_OF@[21] != RDFS_DATATYPE@[21]);
    assert(OWL_DISJOINT_UNION_OF@[21] != RDFS_RESOURCE@[21]);
    assert(OWL_DISJOINT_UNION_OF@[30] != OWL_DEPRECATED_CLASS@[30]);
    assert(OWL_DISJOINT_WITH@[21] != RDFS_CLASS@[21]);
    assert(OWL_DISJOINT_WITH@[21] != RDFS_RANGE@[21]);
    assert(OWL_DISJOINT_WITH@[30] != OWL_COMPLEMENT_OF@[30]);
    assert(OWL_EQUIVALENT_CLASS@[21] != RDFS_DATATYPE@[21]);
    assert(OWL_EQUIVALENT_CLASS@[21] != RDFS_RESOURCE@[21]);
    assert(OWL_EQUIVALENT_CLASS@[30] != OWL_DEPRECATED_CLASS@[30]);
    assert(OWL_EQUIVALENT_CLASS@[30] != OWL_DISJOINT_UNION_OF@[30]);
    assert(OWL_INTERSECTION_OF@[21] != RDFS_LITERAL@[21]);
    assert(OWL_OBJECT_PROPERTY@[21] != RDFS_LITERAL@[21]);
    assert(OWL_OBJECT_PROPERTY@[30] != OWL_INTERSECTION_OF@[30]);
    assert(OWL_THING@[30] != OWL_CLASS@[30]);
}

/// Whether a string holds exactly the given text.
pub fn text_is(s: &String, text: &str) -> (out: bool)
    ensures
        out == (s@ == text@),
{
    let other = String::from_str(text);
    *s == other
}

/// Decides what a row asks for.
pub fn classify(node_type: &Term) -> (out: RowAction)
    ensures
        out == row_action(node_type@),
{
    match node_type {
        Term::BlankNode(_) => RowAction::IllegalBlank,
        Term::Literal(literal) => if text_is(&literal.value, BLANK_NODE_MARK) {
            RowAction::InsertNode(ElementType::Owl(OwlType::Node(OwlNode::AnonymousClass)))
        } else {
            RowAction::UnsupportedLiteral
        },
        Term::NamedNode(iri) => if text_is(iri, RDF_PROPERTY) {
            RowAction::InsertEdge(ElementType::Rdf(RdfType::Edge(RdfEdge::RdfProperty)))
        } else if text_is(iri, RDFS_CLASS) {
            RowAction::InsertNode(ElementType::Rdfs(RdfsType::Node(RdfsNode::Class)))
        } else if text_is(iri, RDFS_DATATYPE) {
            RowAction::InsertNode(ElementType::Rdfs(RdfsType::Node(RdfsNode::Datatype)))
        } else if text_is(iri, RDFS_DOMAIN) {
            RowAction::Ignored
        } else if text_is(iri, RDFS_LITERAL) {
            RowAction::InsertNode(ElementType::Rdfs(RdfsType::Node(RdfsNode::Literal)))
        } else if text_is(iri, RDFS_RANGE) {
            RowAction::Ignored
        } else if text_is(iri, RDFS_RESOURCE) {
            RowAction::InsertNode(ElementType::Rdfs(RdfsType::Node(RdfsNode::Resource)))
        } else if text_is(iri, RDFS_SUB_CLASS_OF) {
            RowAction::InsertEdge(ElementType::Rdfs(RdfsType::Edge(RdfsEdge::SubclassOf)))
        } else if text_is(iri, OWL_CLASS) {
            RowAction::InsertNode(ElementType::Owl(OwlType::Node(OwlNode::Class)))
        } else if text_is(iri, OWL_COMPLEMENT_OF) {
            RowAction::Operator(ElementType::Owl(OwlType::Node(OwlNode::Complement)))
        } else if text_is(iri, OWL_DATATYPE_PROPERTY) {
            RowAction::RegisterProperty(ElementType::Owl(OwlType::Edge(OwlEdge::DatatypeProperty)))
        } else if text_is(iri, OWL_DEPRECATED_CLASS) {
            RowAction::InsertNode(ElementType::Owl(OwlType::Node(OwlNode::DeprecatedClass)))
        } else if text_is(iri, OWL_DEPRECATED_PROPERTY) {
            RowAction::InsertEdge(ElementType::Owl(OwlType::Edge(OwlEdge::DeprecatedProperty)))
        } else if text_is(iri, OWL_DISJOINT_UNION_OF) {
            RowAction::Operator(ElementType::Owl(OwlType::Node(OwlNode::DisjointUnion)))
        } else if text_is(iri, OWL_DISJOINT_WITH) {
            RowAction::InsertEdge(ElementType::Owl(OwlType::Edge(OwlEdge::DisjointWith)))
        } else if text_is(iri, OWL_EQUIVALENT_CLASS) {
            RowAction::EquivalentClass
        } else if text_is(iri, OWL_INTERSECTION_OF) {
            RowAction::LinkedOperator(ElementType::Owl(OwlType::Node(OwlNode::IntersectionOf)))
        } else if text_is(iri, OWL_INVERSE_FUNCTIONAL_PROPERTY) {
            RowAction::InverseFunctional
        } else if text_is(iri, OWL_OBJECT_PROPERTY) {
            RowAction::RegisterProperty(ElementType::Owl(OwlType::Edge(OwlEdge::ObjectProperty)))
        } else if text_is(iri, OWL_ONTOLOGY) {
            RowAction::Ontology
        } else if text_is(iri, OWL_THING) {
            RowAction::InsertNode(ElementType::Owl(OwlType::Node(OwlNode::Thing)))
        } else if text_is(iri, OWL_UNION_OF) {
            RowAction::LinkedOperator(ElementType::Owl(OwlType::Node(OwlNode::UnionOf)))
        } else {
            RowAction::PropertyRow
        },
    }
}

/// The vocabulary terms that are never taken for references into another
/// ontology, in the order they are listed.
pub open spec fn reserved_iris() -> Seq<Seq<char>> {
    seq![
        RDF_XML_LITERAL@,
        RDFS_DOMAIN@,
        RDFS_LITERAL@,
        RDFS_RANGE@,
        RDFS_RESOURCE@,
        RDFS_SUB_CLASS_OF@,
        RDFS_SUB_PROPERTY_OF@,
        OWL_ALL_DISJOINT_CLASSES@,
        OWL_ALL_DISJOINT_PROPERTIES@,
        OWL_COMPLEMENT_OF@,
        OWL_DATATYPE_COMPLEMENT_OF@,
        OWL_DEPRECATED@,
        OWL_DEPRECATED_CLASS@,
        OWL_DEPRECATED_PROPERTY@,
        OWL_DIFFERENT_FROM@,
        OWL_DISJOINT_UNION_OF@,
        OWL_DISJOINT_WITH@,
        OWL_EQUIVALENT_CLASS@,
        OWL_EQUIVALENT_PROPERTY@,
        OWL_INTERSECTION_OF@,
        OWL_THING@,
        OWL_UNION_OF@,
    ]
}

/// The set that holds each text of `texts`, trimmed of its angle brackets,
/// once: the first `n` of them.
pub open spec fn trimmed_set(texts: Seq<Seq<char>>, n: int) -> Seq<(Seq<char>, ())>
    decreases n,
{
    if n <= 0 {
        Seq::empty()
    } else {
        crate::table::put_absent::<String, ()>(
            trimmed_set(texts, n - 1),
            trimmed_tag(texts[n - 1]),
            (),
        )
    }
}

/// The reserved terms as a set of IRIs without angle brackets.
pub fn get_reserved_iris() -> (out: Table<String, ()>)
    ensures
        out@ == trimmed_set(reserved_iris(), reserved_iris().len() as int),
{
    let listed: [&'static str; 22] = [
        RDF_XML_LITERAL,
        RDFS_DOMAIN,
        RDFS_LITERAL,
        RDFS_RANGE,
        RDFS_RESOURCE,
        RDFS_SUB_CLASS_OF,
        RDFS_SUB_PROPERTY_OF,
        OWL_ALL_DISJOINT_CLASSES,
        OWL_ALL_DISJOINT_PROPERTIES,
        OWL_COMPLEMENT_OF,
        OWL_DATATYPE_COMPLEMENT_OF,
        OWL_DEPRECATED,
        OWL_DEPRECATED_CLASS,
        OWL_DEPRECATED_PROPERTY,
        OWL_DIFFERENT_FROM,
        OWL_DISJOINT_UNION_OF,
        OWL_DISJOINT_WITH,
        OWL_EQUIVALENT_CLASS,
        OWL_EQUIVALENT_PROPERTY,
        OWL_INTERSECTION_OF,
        OWL_THING,
        OWL_UNION_OF,
    ];
    let mut out: Table<String, ()> = Table::new();
    let mut i: usize = 0;
    while i < 22
        invariant
            i <= 22,
            listed@.len() == 22,
            forall|j: int| 0 <= j < 22 ==> (#[trigger] listed@[j])@ == reserved_iris()[j],
            out@ == trimmed_set(reserved_iris(), i as int),
        decreases 22 - i,
    {
        let text = String::from_str(listed[i]);
        let trimmed = trim_tag_circumfix(&text);
        out.insert_absent(trimmed, ());
        i += 1;
    }
    out
}

} // verus!
