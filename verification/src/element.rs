//! The closed taxonomy of visual element kinds: what a node or an edge of the
//! graph can be drawn as, and the name each kind is rendered with.

use vstd::prelude::*;

verus! {

#[derive(Clone, Copy, Debug, PartialEq, Eq, Hash, Structural)]
pub enum OwlNode {
    AnonymousClass,
    Class,
    Complement,
    DeprecatedClass,
    ExternalClass,
    EquivalentClass,
    DisjointUnion,
    IntersectionOf,
    Thing,
    UnionOf,
}

#[derive(Clone, Copy, Debug, PartialEq, Eq, Hash, Structural)]
pub enum OwlEdge {
    DatatypeProperty,
    DisjointWith,
    DeprecatedProperty,
    ExternalProperty,
    InverseOf,
    ObjectProperty,
    ValuesFrom,
}

#[derive(Clone, Copy, Debug, PartialEq, Eq, Hash, Structural)]
pub enum OwlType {
    Node(OwlNode),
    Edge(OwlEdge),
}

#[derive(Clone, Copy, Debug, PartialEq, Eq, Hash, Structural)]
pub enum RdfsNode {
    Class,
    Literal,
    Resource,
    Datatype,
}

#[derive(Clone, Copy, Debug, PartialEq, Eq, Hash, Structural)]
pub enum RdfsEdge {
    SubclassOf,
}

#[derive(Clone, Copy, Debug, PartialEq, Eq, Hash, Structural)]
pub enum RdfsType {
    Node(RdfsNode),
    Edge(RdfsEdge),
}

#[derive(Clone, Copy, Debug, PartialEq, Eq, Hash, Structural)]
pub enum RdfEdge {
    RdfProperty,
}

#[derive(Clone, Copy, Debug, PartialEq, Eq, Hash, Structural)]
pub enum RdfType {
    Edge(RdfEdge),
}

#[derive(Clone, Copy, Debug, PartialEq, Eq, Hash, Structural)]
pub enum GenericNode {
    Generic,
}

#[derive(Clone, Copy, Debug, PartialEq, Eq, Hash, Structural)]
pub enum GenericEdge {
    Generic,
}

#[derive(Clone, Copy, Debug, PartialEq, Eq, Hash, Structural)]
pub enum GenericType {
    Node(GenericNode),
    Edge(GenericEdge),
}

/// The kind of one visual element. Two kinds are equal exactly when they are
/// the same variant.
#[derive(Clone, Copy, Debug, PartialEq, Eq, Hash, Structural)]
pub enum ElementType {
    /// Structural only: recorded, never rendered.
    NoDraw,
    Rdf(RdfType),
    Rdfs(RdfsType),
    Owl(OwlType),
    Generic(GenericType),
}

/// A property trait that is shown as an annotation, not as an element.
#[derive(Clone, Copy, Debug, PartialEq, Eq, Hash, Structural)]
pub enum Characteristic {
    Transitive,
    FunctionalProperty,
    InverseFunctionalProperty,
    ReflexiveProperty,
    IrreflexiveProperty,
    SymmetricProperty,
    AsymmetricProperty,
    HasKey,
}

pub open spec fn owl_node_name(node: OwlNode) -> Seq<char> {
    match node {
        OwlNode::AnonymousClass => "AnonymousClass"@,
        OwlNode::Class => "Class"@,
        OwlNode::Complement => "Complement"@,
        OwlNode::DeprecatedClass => "DeprecatedClass"@,
        OwlNode::ExternalClass => "ExternalClass"@,
        OwlNode::EquivalentClass => "EquivalentClass"@,
        OwlNode::DisjointUnion => "DisjointUnion"@,
        OwlNode::IntersectionOf => "IntersectionOf"@,
        OwlNode::Thing => "Thing"@,
        OwlNode::UnionOf => "UnionOf"@,
    }
}

pub open spec fn owl_edge_name(edge: OwlEdge) -> Seq<char> {
    match edge {
        OwlEdge::DatatypeProperty => "DatatypeProperty"@,
        OwlEdge::DisjointWith => "DisjointWith"@,
        OwlEdge::DeprecatedProperty => "DeprecatedProperty"@,
        OwlEdge::ExternalProperty => "ExternalProperty"@,
        OwlEdge::InverseOf => "InverseOf"@,
        OwlEdge::ObjectProperty => "ObjectProperty"@,
        OwlEdge::ValuesFrom => "ValuesFrom"@,
    }
}

pub open spec fn rdfs_node_name(node: RdfsNode) -> Seq<char> {
    match node {
        RdfsNode::Class => "RdfsClass"@,
        RdfsNode::Literal => "Literal"@,
        RdfsNode::Resource => "RdfsResource"@,
        RdfsNode::Datatype => "Datatype"@,
    }
}

/// The name a kind is rendered with, used as a label where none is known.
pub open spec fn element_name(element: ElementType) -> Seq<char> {
    match element {
        ElementType::NoDraw => "NoDraw"@,
        ElementType::Rdf(RdfType::Edge(RdfEdge::RdfProperty)) => "RdfProperty"@,
        ElementType::Rdfs(RdfsType::Node(node)) => rdfs_node_name(node),
        ElementType::Rdfs(RdfsType::Edge(RdfsEdge::SubclassOf)) => "SubclassOf"@,
        ElementType::Owl(OwlType::Node(node)) => owl_node_name(node),
        ElementType::Owl(OwlType::Edge(edge)) => owl_edge_name(edge),
        ElementType::Generic(GenericType::Node(GenericNode::Generic)) => "GenericNode"@,
        ElementType::Generic(GenericType::Edge(GenericEdge::Generic)) => "GenericEdge"@,
    }
}

pub open spec fn characteristic_name(characteristic: Characteristic) -> Seq<char> {
    match characteristic {
        Characteristic::Transitive => "TransitiveProperty"@,
        Characteristic::FunctionalProperty => "FunctionalProperty"@,
        Characteristic::InverseFunctionalProperty => "InverseFunctionalProperty"@,
        Characteristic::ReflexiveProperty => "ReflexiveProperty"@,
        Characteristic::IrreflexiveProperty => "IrreflexiveProperty"@,
        Characteristic::SymmetricProperty => "SymmetricProperty"@,
        Characteristic::AsymmetricProperty => "AsymmetricProperty"@,
        Characteristic::HasKey => "HasKey"@,
    }
}

impl OwlNode {
    pub fn name(self) -> (out: &'static str)
        ensures
            out@ == owl_node_name(self),
    {
        match self {
            OwlNode::AnonymousClass => "AnonymousClass",
            OwlNode::Class => "Class",
            OwlNode::Complement => "Complement",
            OwlNode::DeprecatedClass => "DeprecatedClass",
            OwlNode::ExternalClass => "ExternalClass",
            OwlNode::EquivalentClass => "EquivalentClass",
            OwlNode::DisjointUnion => "DisjointUnion",
            OwlNode::IntersectionOf => "IntersectionOf",
            OwlNode::Thing => "Thing",
            OwlNode::UnionOf => "UnionOf",
        }
    }
}

impl OwlEdge {
    pub fn name(self) -> (out: &'static str)
        ensures
            out@ == owl_edge_name(self),
    {
        match self {
            OwlEdge::DatatypeProperty => "DatatypeProperty",
            OwlEdge::DisjointWith => "DisjointWith",
            OwlEdge::DeprecatedProperty => "DeprecatedProperty",
            OwlEdge::ExternalProperty => "ExternalProperty",
            OwlEdge::InverseOf => "InverseOf",
            OwlEdge::ObjectProperty => "ObjectProperty",
            OwlEdge::ValuesFrom => "ValuesFrom",
        }
    }
}

impl RdfsNode {
    pub fn name(self) -> (out: &'static str)
        ensures
            out@ == rdfs_node_name(self),
    {
        match self {
            RdfsNode::Class => "RdfsClass",
            RdfsNode::Literal => "Literal",
            RdfsNode::Resource => "RdfsResource",
            RdfsNode::Datatype => "Datatype",
        }
    }
}

impl ElementType {
    /// The rendered name of this kind.
    pub fn name(self) -> (out: &'static str)
        ensures
            out@ == element_name(self),
    {
        match self {
            ElementType::NoDraw => "NoDraw",
            ElementType::Rdf(RdfType::Edge(RdfEdge::RdfProperty)) => "RdfProperty",
            ElementType::Rdfs(RdfsType::Node(node)) => node.name(),
            ElementType::Rdfs(RdfsType::Edge(RdfsEdge::SubclassOf)) => "SubclassOf",
            ElementType::Owl(OwlType::Node(node)) => node.name(),
            ElementType::Owl(OwlType::Edge(edge)) => edge.name(),
            ElementType::Generic(GenericType::Node(GenericNode::Generic)) => "GenericNode",
            ElementType::Generic(GenericType::Edge(GenericEdge::Generic)) => "GenericEdge",
        }
    }

    /// Whether edges of this kind join their two ends without a direction.
    pub open spec fn is_symmetric(self) -> bool {
        self == ElementType::Owl(OwlType::Edge(OwlEdge::DisjointWith))
    }

    /// Whether an edge of this kind is drawn from an actual predicate term,
    /// which it then carries as its property.
    pub open spec fn carries_property(self) -> bool {
        self == ElementType::Owl(OwlType::Edge(OwlEdge::ObjectProperty))
            || self == ElementType::Owl(OwlType::Edge(OwlEdge::DatatypeProperty))
            || self == ElementType::Owl(OwlType::Edge(OwlEdge::DeprecatedProperty))
            || self == ElementType::Owl(OwlType::Edge(OwlEdge::ExternalProperty))
    }

    pub fn symmetric(self) -> (out: bool)
        ensures
            out == self.is_symmetric(),
    {
        self == ElementType::Owl(OwlType::Edge(OwlEdge::DisjointWith))
    }

    pub fn has_property(self) -> (out: bool)
        ensures
            out == self.carries_property(),
    {
        self == ElementType::Owl(OwlType::Edge(OwlEdge::ObjectProperty))
            || self == ElementType::Owl(OwlType::Edge(OwlEdge::DatatypeProperty))
            || self == ElementType::Owl(OwlType::Edge(OwlEdge::DeprecatedProperty))
            || self == ElementType::Owl(OwlType::Edge(OwlEdge::ExternalProperty))
    }
}

impl Characteristic {
    pub fn name(self) -> (out: &'static str)
        ensures
            out@ == characteristic_name(self),
    {
        match self {
            Characteristic::Transitive => "TransitiveProperty",
            Characteristic::FunctionalProperty => "FunctionalProperty",
            Characteristic::InverseFunctionalProperty => "InverseFunctionalProperty",
            Characteristic::ReflexiveProperty => "ReflexiveProperty",
            Characteristic::IrreflexiveProperty => "IrreflexiveProperty",
            Characteristic::SymmetricProperty => "SymmetricProperty",
            Characteristic::AsymmetricProperty => "AsymmetricProperty",
            Characteristic::HasKey => "HasKey",
        }
    }
}

impl View for ElementType {
    type V = ElementType;

    open spec fn view(&self) -> ElementType {
        *self
    }
}

impl crate::table::Modeled for ElementType {
    type Model = ElementType;

    open spec fn model(&self) -> ElementType {
        *self
    }
}

impl crate::table::Keyed for ElementType {
    open spec fn same(a: ElementType, b: ElementType) -> bool {
        a == b
    }

    fn matches(&self, other: &Self) -> (out: bool) {
        *self == *other
    }
}

impl crate::table::Modeled for bool {
    type Model = bool;

    open spec fn model(&self) -> bool {
        *self
    }
}

} // verus!
