//! The one query that drives the visualization, put together from a graph
//! pattern for each vocabulary term the engine can classify.

use crate::element::{
    Characteristic, ElementType, GenericEdge, GenericNode, GenericType, OwlEdge, OwlNode, OwlType,
    RdfEdge, RdfType, RdfsEdge, RdfsNode, RdfsType,
};
use vstd::prelude::*;
use vstd::string::*;

verus! {

pub const ANONYMOUS_CLASS: &'static str =
    "{\n    ?id a owl:Class\n    FILTER(!isIRI(?id))\n    BIND(\"blanknode\" AS ?nodeType)\n}";

pub const CLASS: &'static str =
    "{\n    ?id a owl:Class .\n    FILTER(isIRI(?id))\n    BIND(owl:Class AS ?nodeType)\n}";

pub const COMPLEMENT: &'static str =
    "{\n    ?id owl:complementOf ?target .\n    BIND(owl:complementOf AS ?nodeType)\n}";

pub const DEPRECATED_CLASS: &'static str =
    "{\n    ?id a owl:DeprecatedClass .\n    BIND(owl:DeprecatedClass AS ?nodeType)\n}";

pub const EQUIVALENT_CLASS: &'static str =
    "{\n    ?id owl:equivalentClass ?target\n    BIND(owl:equivalentClass AS ?nodeType)\n}";

pub const DISJOINT_UNION: &'static str =
    "{\n    ?id owl:disjointUnionOf ?target .\n    BIND(owl:disjointUnionOf AS ?nodeType)\n}";

pub const INTERSECTION_OF: &'static str =
    "{\n    ?id owl:intersectionOf ?target .\n    BIND(owl:intersectionOf AS ?nodeType)\n}";

pub const THING: &'static str = "{\n    ?id a owl:Thing .\n    BIND(owl:Thing AS ?nodeType)\n}";

pub const UNION_OF: &'static str =
    "{\n    ?id owl:unionOf ?list .\n    BIND(owl:unionOf AS ?nodeType)\n}";

pub const DATATYPE_PROPERTY: &'static str =
    "{\n    ?id a owl:DatatypeProperty .\n    BIND(owl:DatatypeProperty AS ?nodeType)\n}";

pub const DISJOINT_WITH: &'static str =
    "{\n    ?id owl:disjointWith ?target\n    BIND(owl:disjointWith AS ?nodeType)\n}";

pub const DEPRECATED_PROPERTY: &'static str =
    "{\n    ?id a owl:DeprecatedProperty .\n    BIND(owl:DeprecatedProperty AS ?nodeType)\n}";

pub const INVERSE_OF: &'static str =
    "{\n    ?id owl:inverseOf ?target .\n    BIND(owl:inverseOf AS ?nodeType)\n}";

pub const OBJECT_PROPERTY: &'static str =
    "{\n    ?id a owl:ObjectProperty\n    BIND(owl:ObjectProperty AS ?nodeType)\n}";

pub const VALUES_FROM: &'static str =
    "{\n    {\n        ?id owl:someValuesFrom ?target .\n    }\n    UNION\n    {\n        ?id owl:allValuesFrom ?target .\n    }\n    BIND(\"ValuesFrom\" AS ?nodeType)\n}";

pub const RDF_PROPERTY: &'static str =
    "{\n    ?id rdf:Property ?target\n    BIND(rdf:Property AS ?nodeType)\n}";

pub const RDFS_CLASS: &'static str =
    "{\n    ?id a rdfs:Class .\n    FILTER(?id != owl:Class)\n    BIND(rdfs:Class AS ?nodeType)\n}";

pub const RDFS_LITERAL: &'static str =
    "{\n    ?id a rdfs:Literal .\n    BIND(rdfs:Literal AS ?nodeType)\n}";

pub const RDFS_RESOURCE: &'static str =
    "{\n    ?id a rdfs:Resource .\n    FILTER(isIRI(?id) || isBlank(?id))\n    BIND(rdfs:Resource AS ?nodeType)\n}";

pub const RDFS_DATATYPE: &'static str =
    "{\n    ?id a rdfs:Datatype .\n    BIND(rdfs:Datatype AS ?nodeType)\n}";

pub const SUBCLASS_OF: &'static str =
    "{\n    ?id rdfs:subClassOf ?target\n    BIND(rdfs:subClassOf AS ?nodeType)\n}";

pub const TRANSITIVE: &'static str =
    "{\n    ?id a owl:TransitiveProperty\n    BIND(owl:TransitiveProperty AS ?nodeType)\n}";

pub const FUNCTIONAL: &'static str =
    "{\n    ?id a owl:FunctionalProperty\n    BIND(owl:FunctionalProperty AS ?nodeType)\n}";

pub const INVERSE_FUNCTIONAL: &'static str =
    "{\n    ?id a owl:InverseFunctionalProperty\n    BIND(owl:InverseFunctionalProperty AS ?nodeType)\n}";

pub const REFLEXIVE: &'static str =
    "{\n    ?id a owl:ReflexiveProperty\n    BIND(owl:ReflexiveProperty AS ?nodeType)\n}";

pub const IRREFLEXIVE: &'static str =
    "{\n    ?id a owl:IrreflexiveProperty\n    BIND(owl:IrreflexiveProperty AS ?nodeType)\n}";

pub const SYMMETRIC: &'static str =
    "{\n    ?id a owl:SymmetricProperty\n    BIND(owl:SymmetricProperty AS ?nodeType)\n}";

pub const ASYMMETRIC: &'static str =
    "{\n    ?id a owl:AsymmetricProperty\n    BIND(owl:AsymmetricProperty AS ?nodeType)\n}";

pub const HAS_KEY: &'static str = "{\n    ?id a owl:hasKey\n    BIND(owl:hasKey AS ?nodeType)\n}";

/// The declaration of the ontology, which gives the base of the document.
pub const ONTOLOGY: &'static str =
    "{\n    ?id a owl:Ontology .\n    BIND(owl:Ontology AS ?nodeType)\n}";

/// A base given with the document itself.
pub const XML_BASE: &'static str =
    "{\n    ?id xml:base ?base .\n    BIND(owl:Ontology AS ?nodeType)\n}";

/// The members of a collection, as flat links from the owner of the list.
pub const COLLECTIONS: &'static str =
    "{\n    ?id ?nodeType ?list .\n    ?list rdf:rest*/rdf:first ?target .\n    FILTER(?nodeType IN (owl:unionOf, owl:intersectionOf, owl:disjointUnionOf))\n}";

/// The two ends of a property, with a sentinel where an end is not given.
pub const DOMAIN_RANGES: &'static str =
    "{\n    ?nodeType a ?kind .\n    FILTER(?kind IN (owl:ObjectProperty, owl:DatatypeProperty))\n    OPTIONAL { ?nodeType rdfs:domain ?domain }\n    OPTIONAL { ?nodeType rdfs:range ?range }\n    BIND(COALESCE(?domain, owl:Thing) AS ?id)\n    BIND(COALESCE(?range, IF(?kind = owl:DatatypeProperty, rdfs:Literal, owl:Thing)) AS ?target)\n}";

/// What is flagged as deprecated.
pub const OWL_DEPRECATED: &'static str =
    "{\n    ?id owl:deprecated true .\n    ?id a ?kind .\n    BIND(IF(?kind = owl:Class, owl:DeprecatedClass, owl:DeprecatedProperty) AS ?nodeType)\n}";

/// The label of a subject, where it has one.
pub const LABEL: &'static str =
    "{\n    ?id rdfs:label ?label .\n    BIND(rdfs:label AS ?nodeType)\n}";

pub const PREFIX_OWL: &'static str = "PREFIX owl: <http://www.w3.org/2002/07/owl#>";

pub const PREFIX_RDF: &'static str = "PREFIX rdf: <http://www.w3.org/1999/02/22-rdf-syntax-ns#>";

pub const PREFIX_RDFS: &'static str = "PREFIX rdfs: <http://www.w3.org/2000/01/rdf-schema#>";

pub const PREFIX_XSD: &'static str = "PREFIX xsd: <http://www.w3.org/2001/XMLSchema#>";

pub const PREFIX_XML: &'static str = "PREFIX xml: <http://www.w3.org/XML/1998/namespace>";

pub const SELECT_HEAD: &'static str = "SELECT ?id ?nodeType ?target ?label\nWHERE {\n";

pub const UNION: &'static str = "\nUNION\n";

pub const SELECT_TAIL: &'static str = "\n}\n";

/// Gives the graph pattern that finds the subjects of a kind.
pub trait SparqlSnippet: Sized {
    /// The pattern; empty for a kind that no pattern finds.
    spec fn snippet_text(self) -> Seq<char>;

    /// Get the SPARQL snippet representing `self`.
    fn snippet(self) -> (out: &'static str)
        ensures
            out@ == self.snippet_text(),
    ;
}

/// A type whose values can all be listed.
pub trait Enumerated: Sized {
    spec fn all_values() -> Seq<Self>;

    fn all() -> (out: Vec<Self>)
        ensures
            out@ == Self::all_values(),
    ;
}

pub open spec fn owl_node_snippet(node: OwlNode) -> Seq<char> {
    match node {
        OwlNode::AnonymousClass => ANONYMOUS_CLASS@,
        OwlNode::Class => CLASS@,
        OwlNode::Complement => COMPLEMENT@,
        OwlNode::DeprecatedClass => DEPRECATED_CLASS@,
        OwlNode::ExternalClass => ""@,
        OwlNode::EquivalentClass => EQUIVALENT_CLASS@,
        OwlNode::DisjointUnion => DISJOINT_UNION@,
        OwlNode::IntersectionOf => INTERSECTION_OF@,
        OwlNode::Thing => THING@,
        OwlNode::UnionOf => UNION_OF@,
    }
}

impl SparqlSnippet for OwlNode {
    open spec fn snippet_text(self) -> Seq<char> {
        owl_node_snippet(self)
    }

    fn snippet(self) -> (out: &'static str) {
        match self {
            OwlNode::AnonymousClass => ANONYMOUS_CLASS,
            OwlNode::Class => CLASS,
            OwlNode::Complement => COMPLEMENT,
            OwlNode::DeprecatedClass => DEPRECATED_CLASS,
            // Whether a term is external is computed for every kind alike,
            // not matched by a pattern.
            OwlNode::ExternalClass => "",
            OwlNode::EquivalentClass => EQUIVALENT_CLASS,
            OwlNode::DisjointUnion => DISJOINT_UNION,
            OwlNode::IntersectionOf => INTERSECTION_OF,
            OwlNode::Thing => THING,
            OwlNode::UnionOf => UNION_OF,
        }
    }
}

impl Enumerated for OwlNode {
    open spec fn all_values() -> Seq<OwlNode> {
        seq![
            OwlNode::AnonymousClass,
            OwlNode::Class,
            OwlNode::Complement,
            OwlNode::DeprecatedClass,
            OwlNode::ExternalClass,
            OwlNode::EquivalentClass,
            OwlNode::DisjointUnion,
            OwlNode::IntersectionOf,
            OwlNode::Thing,
            OwlNode::UnionOf,
        ]
    }

    fn all() -> (out: Vec<OwlNode>) {
        vec![
            OwlNode::AnonymousClass,
            OwlNode::Class,
            OwlNode::Complement,
            OwlNode::DeprecatedClass,
            OwlNode::ExternalClass,
            OwlNode::EquivalentClass,
            OwlNode::DisjointUnion,
            OwlNode::IntersectionOf,
            OwlNode::Thing,
            OwlNode::UnionOf,
        ]
    }
}

pub open spec fn owl_edge_snippet(edge: OwlEdge) -> Seq<char> {
    match edge {
        OwlEdge::DatatypeProperty => DATATYPE_PROPERTY@,
        OwlEdge::DisjointWith => DISJOINT_WITH@,
        OwlEdge::DeprecatedProperty => DEPRECATED_PROPERTY@,
        OwlEdge::ExternalProperty => ""@,
        OwlEdge::InverseOf => INVERSE_OF@,
        OwlEdge::ObjectProperty => OBJECT_PROPERTY@,
        OwlEdge::ValuesFrom => VALUES_FROM@,
    }
}

impl SparqlSnippet for OwlEdge {
    open spec fn snippet_text(self) -> Seq<char> {
        owl_edge_snippet(self)
    }

    fn snippet(self) -> (out: &'static str) {
        match self {
            OwlEdge::DatatypeProperty => DATATYPE_PROPERTY,
            OwlEdge::DisjointWith => DISJOINT_WITH,
            OwlEdge::DeprecatedProperty => DEPRECATED_PROPERTY,
            OwlEdge::ExternalProperty => "",
            OwlEdge::InverseOf => INVERSE_OF,
            OwlEdge::ObjectProperty => OBJECT_PROPERTY,
            OwlEdge::ValuesFrom => VALUES_FROM,
        }
    }
}

impl Enumerated for OwlEdge {
    open spec fn all_values() -> Seq<OwlEdge> {
        seq![
            OwlEdge::DatatypeProperty,
            OwlEdge::DisjointWith,
            OwlEdge::DeprecatedProperty,
            OwlEdge::ExternalProperty,
            OwlEdge::InverseOf,
            OwlEdge::ObjectProperty,
            OwlEdge::ValuesFrom,
        ]
    }

    fn all() -> (out: Vec<OwlEdge>) {
        vec![
            OwlEdge::DatatypeProperty,
            OwlEdge::DisjointWith,
            OwlEdge::DeprecatedProperty,
            OwlEdge::ExternalProperty,
            OwlEdge::InverseOf,
            OwlEdge::ObjectProperty,
            OwlEdge::ValuesFrom,
        ]
    }
}

pub open spec fn rdfs_node_snippet(node: RdfsNode) -> Seq<char> {
    match node {
        RdfsNode::Class => RDFS_CLASS@,
        RdfsNode::Literal => RDFS_LITERAL@,
        RdfsNode::Resource => RDFS_RESOURCE@,
        RdfsNode::Datatype => RDFS_DATATYPE@,
    }
}

impl SparqlSnippet for RdfsNode {
    open spec fn snippet_text(self) -> Seq<char> {
        rdfs_node_snippet(self)
    }

    fn snippet(self) -> (out: &'static str) {
        match self {
            RdfsNode::Class => RDFS_CLASS,
            RdfsNode::Literal => RDFS_LITERAL,
            RdfsNode::Resource => RDFS_RESOURCE,
            RdfsNode::Datatype => RDFS_DATATYPE,
        }
    }
}

impl Enumerated for RdfsNode {
    open spec fn all_values() -> Seq<RdfsNode> {
        seq![RdfsNode::Class, RdfsNode::Literal, RdfsNode::Resource, RdfsNode::Datatype]
    }

    fn all() -> (out: Vec<RdfsNode>) {
        vec![RdfsNode::Class, RdfsNode::Literal, RdfsNode::Resource, RdfsNode::Datatype]
    }
}

impl SparqlSnippet for RdfsEdge {
    open spec fn snippet_text(self) -> Seq<char> {
        SUBCLASS_OF@
    }

    fn snippet(self) -> (out: &'static str) {
        match self {
            RdfsEdge::SubclassOf => SUBCLASS_OF,
        }
    }
}

impl Enumerated for RdfsEdge {
    open spec fn all_values() -> Seq<RdfsEdge> {
        seq![RdfsEdge::SubclassOf]
    }

    fn all() -> (out: Vec<RdfsEdge>) {
        vec![RdfsEdge::SubclassOf]
    }
}

impl SparqlSnippet for RdfEdge {
    open spec fn snippet_text(self) -> Seq<char> {
        RDF_PROPERTY@
    }

    fn snippet(self) -> (out: &'static str) {
        match self {
            RdfEdge::RdfProperty => RDF_PROPERTY,
        }
    }
}

impl Enumerated for RdfEdge {
    open spec fn all_values() -> Seq<RdfEdge> {
        seq![RdfEdge::RdfProperty]
    }

    fn all() -> (out: Vec<RdfEdge>) {
        vec![RdfEdge::RdfProperty]
    }
}

impl SparqlSnippet for GenericNode {
    open spec fn snippet_text(self) -> Seq<char> {
        ""@
    }

    fn snippet(self) -> (out: &'static str) {
        ""
    }
}

impl SparqlSnippet for GenericEdge {
    open spec fn snippet_text(self) -> Seq<char> {
        ""@
    }

    fn snippet(self) -> (out: &'static str) {
        ""
    }
}

impl SparqlSnippet for GenericType {
    open spec fn snippet_text(self) -> Seq<char> {
        ""@
    }

    fn snippet(self) -> (out: &'static str) {
        match self {
            GenericType::Node(node) => node.snippet(),
            GenericType::Edge(edge) => edge.snippet(),
        }
    }
}

pub open spec fn characteristic_snippet(characteristic: Characteristic) -> Seq<char> {
    match characteristic {
        Characteristic::Transitive => TRANSITIVE@,
        Characteristic::FunctionalProperty => FUNCTIONAL@,
        Characteristic::InverseFunctionalProperty => INVERSE_FUNCTIONAL@,
        Characteristic::ReflexiveProperty => REFLEXIVE@,
        Characteristic::IrreflexiveProperty => IRREFLEXIVE@,
        Characteristic::SymmetricProperty => SYMMETRIC@,
        Characteristic::AsymmetricProperty => ASYMMETRIC@,
        Characteristic::HasKey => HAS_KEY@,
    }
}

impl SparqlSnippet for Characteristic {
    open spec fn snippet_text(self) -> Seq<char> {
        characteristic_snippet(self)
    }

    fn snippet(self) -> (out: &'static str) {
        match self {
            Characteristic::Transitive => TRANSITIVE,
            Characteristic::FunctionalProperty => FUNCTIONAL,
            Characteristic::InverseFunctionalProperty => INVERSE_FUNCTIONAL,
            Characteristic::ReflexiveProperty => REFLEXIVE,
            Characteristic::IrreflexiveProperty => IRREFLEXIVE,
            Characteristic::SymmetricProperty => SYMMETRIC,
            Characteristic::AsymmetricProperty => ASYMMETRIC,
            Characteristic::HasKey => HAS_KEY,
        }
    }
}

impl Enumerated for Characteristic {
    open spec fn all_values() -> Seq<Characteristic> {
        seq![
            Characteristic::Transitive,
            Characteristic::FunctionalProperty,
            Characteristic::InverseFunctionalProperty,
            Characteristic::ReflexiveProperty,
            Characteristic::IrreflexiveProperty,
            Characteristic::SymmetricProperty,
            Characteristic::AsymmetricProperty,
            Characteristic::HasKey,
        ]
    }

    fn all() -> (out: Vec<Characteristic>) {
        vec![
            Characteristic::Transitive,
            Characteristic::FunctionalProperty,
            Characteristic::InverseFunctionalProperty,
            Characteristic::ReflexiveProperty,
            Characteristic::IrreflexiveProperty,
            Characteristic::SymmetricProperty,
            Characteristic::AsymmetricProperty,
            Characteristic::HasKey,
        ]
    }
}

/// The pattern of a kind is that of the node or edge it holds; what is not
/// drawn has none.
pub open spec fn element_snippet(element: ElementType) -> Seq<char> {
    match element {
        ElementType::NoDraw => ""@,
        ElementType::Rdf(RdfType::Edge(_)) => RDF_PROPERTY@,
        ElementType::Rdfs(RdfsType::Node(node)) => rdfs_node_snippet(node),
        ElementType::Rdfs(RdfsType::Edge(_)) => SUBCLASS_OF@,
        ElementType::Owl(OwlType::Node(node)) => owl_node_snippet(node),
        ElementType::Owl(OwlType::Edge(edge)) => owl_edge_snippet(edge),
        ElementType::Generic(_) => ""@,
    }
}

impl SparqlSnippet for ElementType {
    open spec fn snippet_text(self) -> Seq<char> {
        element_snippet(self)
    }

    fn snippet(self) -> (out: &'static str) {
        match self {
            ElementType::NoDraw => "",
            ElementType::Rdf(RdfType::Edge(edge)) => edge.snippet(),
            ElementType::Rdfs(RdfsType::Node(node)) => node.snippet(),
            ElementType::Rdfs(RdfsType::Edge(edge)) => edge.snippet(),
            ElementType::Owl(OwlType::Node(node)) => node.snippet(),
            ElementType::Owl(OwlType::Edge(edge)) => edge.snippet(),
            ElementType::Generic(GenericType::Node(node)) => node.snippet(),
            ElementType::Generic(GenericType::Edge(edge)) => edge.snippet(),
        }
    }
}

/// Every value of each listed type is in its list.
pub proof fn lemma_lists_are_complete(
    owl_node: OwlNode,
    owl_edge: OwlEdge,
    rdfs_node: RdfsNode,
    rdfs_edge: RdfsEdge,
    rdf_edge: RdfEdge,
    characteristic: Characteristic,
)
    ensures
        OwlNode::all_values().contains(owl_node),
        OwlEdge::all_values().contains(owl_edge),
        RdfsNode::all_values().contains(rdfs_node),
        RdfsEdge::all_values().contains(rdfs_edge),
        RdfEdge::all_values().contains(rdf_edge),
        Characteristic::all_values().contains(characteristic),
{
    let a = OwlNode::all_values();
    assert(a[0] == OwlNode::AnonymousClass && a[1] == OwlNode::Class && a[2] == OwlNode::Complement
        && a[3] == OwlNode::DeprecatedClass && a[4] == OwlNode::ExternalClass && a[5]
        == OwlNode::EquivalentClass && a[6] == OwlNode::DisjointUnion && a[7]
        == OwlNode::IntersectionOf && a[8] == OwlNode::Thing && a[9] == OwlNode::UnionOf);
    let b = OwlEdge::all_values();
    assert(b[0] == OwlEdge::DatatypeProperty && b[1] == OwlEdge::DisjointWith && b[2]
        == OwlEdge::DeprecatedProperty && b[3] == OwlEdge::ExternalProperty && b[4]
        == OwlEdge::InverseOf && b[5] == OwlEdge::ObjectProperty && b[6] == OwlEdge::ValuesFrom);
    let c = RdfsNode::all_values();
    assert(c[0] == RdfsNode::Class && c[1] == RdfsNode::Literal && c[2] == RdfsNode::Resource
        && c[3] == RdfsNode::Datatype);
    assert(RdfsEdge::all_values()[0] == RdfsEdge::SubclassOf);
    assert(RdfEdge::all_values()[0] == RdfEdge::RdfProperty);
    let d = Characteristic::all_values();
    assert(d[0] == Characteristic::Transitive && d[1] == Characteristic::FunctionalProperty && d[2]
        == Characteristic::InverseFunctionalProperty && d[3] == Characteristic::ReflexiveProperty
        && d[4] == Characteristic::IrreflexiveProperty && d[5] == Characteristic::SymmetricProperty
        && d[6] == Characteristic::AsymmetricProperty && d[7] == Characteristic::HasKey);
}

/// The texts of a list of patterns, place by place.
pub open spec fn texts(list: Seq<&'static str>) -> Seq<Seq<char>> {
    Seq::new(list.len(), |i: int| list[i]@)
}

/// The pattern of every value of a type, in the order of the type's list.
pub fn snippets_from_enum<T: SparqlSnippet + Enumerated + Copy>() -> (out: Vec<&'static str>)
    ensures
        texts(out@) == Seq::new(T::all_values().len(), |i: int| T::all_values()[i].snippet_text()),
{
    let values = T::all();
    let mut out: Vec<&'static str> = Vec::new();
    let mut i: usize = 0;
    while i < values.len()
        invariant
            i <= values@.len(),
            values@ == T::all_values(),
            out@.len() == i,
            forall|j: int| 0 <= j < i ==> (#[trigger] out@[j])@ == values@[j].snippet_text(),
        decreases values@.len() - i,
    {
        out.push(values[i].snippet());
        i += 1;
    }
    assert(texts(out@) =~= Seq::new(
        T::all_values().len(),
        |i: int| T::all_values()[i].snippet_text(),
    ));
    out
}

/// The first `n` lines, each closed by a line break.
pub open spec fn lines_text(lines: Seq<Seq<char>>, n: nat) -> Seq<char>
    decreases n,
{
    if n == 0 {
        Seq::empty()
    } else {
        lines_text(lines, (n - 1) as nat) + lines[n - 1] + "\n"@
    }
}

/// The first `n` patterns joined by `UNION`; empty patterns are passed
/// over.
pub open spec fn union_text(snippets: Seq<Seq<char>>, n: nat) -> Seq<char>
    decreases n,
{
    if n == 0 {
        Seq::empty()
    } else {
        let before = union_text(snippets, (n - 1) as nat);
        let snippet = snippets[n - 1];
        if snippet.len() == 0 {
            before
        } else if before.len() == 0 {
            snippet
        } else {
            before + UNION@ + snippet
        }
    }
}

/// The query: the prefixes line by line, then one `SELECT` over the union
/// of the patterns.
pub open spec fn query_text(prefixes: Seq<Seq<char>>, snippets: Seq<Seq<char>>) -> Seq<char> {
    lines_text(prefixes, prefixes.len()) + SELECT_HEAD@ + union_text(snippets, snippets.len())
        + SELECT_TAIL@
}

pub struct QueryAssembler {}

impl QueryAssembler {
    /// Puts a query together from its prefixes and its patterns.
    pub fn assemble_query(prefixes: Vec<&'static str>, snippets: Vec<&'static str>) -> (out: String)
        ensures
            out@ == query_text(texts(prefixes@), texts(snippets@)),
    {
        let mut out = String::new();
        let mut i: usize = 0;
        while i < prefixes.len()
            invariant
                i <= prefixes@.len(),
                out@ == lines_text(texts(prefixes@), i as nat),
            decreases prefixes@.len() - i,
        {
            out.append(prefixes[i]);
            out.append("\n");
            i += 1;
        }
        let mut union = String::new();
        let mut empty = true;
        let mut j: usize = 0;
        while j < snippets.len()
            invariant
                j <= snippets@.len(),
                union@ == union_text(texts(snippets@), j as nat),
                empty == (union@.len() == 0),
            decreases snippets@.len() - j,
        {
            let snippet = snippets[j];
            if snippet.unicode_len() != 0 {
                if !empty {
                    union.append(UNION);
                }
                union.append(snippet);
                empty = false;
            }
            j += 1;
        }
        out.append(SELECT_HEAD);
        out.append(union.as_str());
        out.append(SELECT_TAIL);
        out
    }
}

/// The prefixes that every query starts with.
pub open spec fn default_prefixes() -> Seq<Seq<char>> {
    seq![PREFIX_OWL@, PREFIX_RDF@, PREFIX_RDFS@, PREFIX_XSD@, PREFIX_XML@]
}

/// The patterns that every query holds, whatever it classifies.
pub open spec fn general_snippets() -> Seq<Seq<char>> {
    seq![ONTOLOGY@, XML_BASE@, COLLECTIONS@, DOMAIN_RANGES@, OWL_DEPRECATED@, LABEL@]
}

/// The pattern of every value of a type, in the order of the type's list.
pub open spec fn snippets_of<T: SparqlSnippet + Enumerated>() -> Seq<Seq<char>> {
    Seq::new(T::all_values().len(), |i: int| T::all_values()[i].snippet_text())
}

/// The patterns of the default query, in order.
pub open spec fn default_snippets() -> Seq<Seq<char>> {
    snippets_of::<OwlNode>() + snippets_of::<OwlEdge>() + snippets_of::<RdfEdge>() + snippets_of::<
        RdfsNode,
    >() + snippets_of::<RdfsEdge>() + snippets_of::<Characteristic>() + general_snippets()
}

/// Adds the patterns of `more` to `list`.
fn extend(list: &mut Vec<&'static str>, more: Vec<&'static str>)
    ensures
        texts(final(list)@) == texts(old(list)@) + texts(more@),
{
    let mut i: usize = 0;
    while i < more.len()
        invariant
            i <= more@.len(),
            texts(list@) == texts(old(list)@) + texts(more@).subrange(0, i as int),
        decreases more@.len() - i,
    {
        let ghost before = list@;
        list.push(more[i]);
        assert(texts(list@) =~= texts(before).push(more@[i as int]@));
        assert(texts(more@).subrange(0, i + 1) =~= texts(more@).subrange(0, i as int).push(
            more@[i as int]@,
        ));
        i += 1;
    }
    assert(texts(more@).subrange(0, more@.len() as int) =~= texts(more@));
}

/// The query that holds every class and property the engine supports.
pub fn default_query() -> (out: String)
    ensures
        out@ == query_text(default_prefixes(), default_snippets()),
{
    let prefixes: Vec<&'static str> = vec![
        PREFIX_OWL,
        PREFIX_RDF,
        PREFIX_RDFS,
        PREFIX_XSD,
        PREFIX_XML,
    ];
    assert(texts(prefixes@) =~= default_prefixes());
    let mut snippets: Vec<&'static str> = Vec::new();
    assert(texts(snippets@) =~= Seq::empty());
    extend(&mut snippets, snippets_from_enum::<OwlNode>());
    extend(&mut snippets, snippets_from_enum::<OwlEdge>());
    extend(&mut snippets, snippets_from_enum::<RdfEdge>());
    extend(&mut snippets, snippets_from_enum::<RdfsNode>());
    extend(&mut snippets, snippets_from_enum::<RdfsEdge>());
    extend(&mut snippets, snippets_from_enum::<Characteristic>());
    let general: Vec<&'static str> = vec![
        ONTOLOGY,
        XML_BASE,
        COLLECTIONS,
        DOMAIN_RANGES,
        OWL_DEPRECATED,
        LABEL,
    ];
    assert(texts(general@) =~= general_snippets());
    extend(&mut snippets, general);
    assert(texts(snippets@) =~= default_snippets());
    QueryAssembler::assemble_query(prefixes, snippets)
}

} // verus!
