//! The working state of one serialization run.

use crate::edge::Edge;
use crate::element::ElementType;
use crate::model::{
    add_property_domain_spec, add_property_edge_spec, add_property_range_spec, empty_buffer,
    with_text, BufferView,
};
use crate::table::{lemma_first_match_unique, lemma_no_match, Modeled, Table};
use crate::term::Term;
use crate::triple::Triple;
use vstd::prelude::*;

verus! {

pub struct SerializationDataBuffer {
    /// Every resolved node with its kind. A kind can be raised later, and a
    /// node can leave when it is merged into another.
    pub node_element_buffer: Table<Term, ElementType>,
    /// Every registered property with its kind.
    pub edge_element_buffer: Table<Term, ElementType>,
    /// For each term that was merged away, the term that stands for it now.
    pub edge_redirection: Table<Term, Term>,
    /// For each node, the edges that touch it, to move them when nodes merge.
    pub edges_include_map: Table<Term, Table<Edge, ()>>,
    /// The edge drawn for each property, by the property's text.
    pub property_edge_map: Table<String, Edge>,
    /// The domains noted for each property.
    pub property_domain_map: Table<String, Table<String, ()>>,
    /// The ranges noted for each property.
    pub property_range_map: Table<String, Table<String, ()>>,
    /// The label of each term; the first one written stays.
    pub label_buffer: Table<Term, String>,
    /// The label of each edge.
    pub edge_label_buffer: Table<Edge, String>,
    /// Every accepted edge, once.
    pub edge_buffer: Table<Edge, ()>,
    /// The traits noted for each edge.
    pub edge_characteristics: Table<Edge, Vec<String>>,
    /// The traits noted for each node.
    pub node_characteristics: Table<Term, Vec<String>>,
    /// The rows that wait, each under the term that could not be resolved:
    /// the subject where both ends could not.
    pub unknown_buffer: Table<Term, Table<Triple, ()>>,
    /// The rows that cannot be serialized, each with the reason.
    pub failed_buffer: Vec<(Option<Triple>, String)>,
    /// The base IRI of the document.
    pub document_base: Option<String>,
}

/// The models of the failed rows, place by place.
pub open spec fn failed_model(failed: Seq<(Option<Triple>, String)>) -> Seq<
    (Option<crate::triple::TripleView>, Seq<char>),
> {
    Seq::new(failed.len(), |i: int| (failed[i].0.model(), failed[i].1@))
}

impl View for SerializationDataBuffer {
    type V = BufferView;

    open spec fn view(&self) -> BufferView {
        BufferView {
            nodes: self.node_element_buffer@,
            edge_elements: self.edge_element_buffer@,
            redirection: self.edge_redirection@,
            edges_include: self.edges_include_map@,
            property_edges: self.property_edge_map@,
            property_domains: self.property_domain_map@,
            property_ranges: self.property_range_map@,
            labels: self.label_buffer@,
            edge_labels: self.edge_label_buffer@,
            edges: self.edge_buffer@,
            edge_characteristics: self.edge_characteristics@,
            node_characteristics: self.node_characteristics@,
            unknown: self.unknown_buffer@,
            failed: failed_model(self.failed_buffer@),
            document_base: self.document_base.model(),
        }
    }
}

/// Adds `text` to the set stored under `key`, which is made where there is
/// none yet.
pub fn add_to_text_set(map: &mut Table<String, Table<String, ()>>, key: String, text: String)
    ensures
        final(map)@ == crate::table::put::<String, Seq<(Seq<char>, ())>>(
            old(map)@,
            key@,
            with_text(crate::table::lookup::<String, Seq<(Seq<char>, ())>>(old(map)@, key@), text@),
        ),
{
    match map.find(&key) {
        Some(i) => {
            proof {
                lemma_first_match_unique::<String, Seq<(Seq<char>, ())>>(map@, key@, i as int);
            }
            let mut texts = map.set_value(i, Table::new());
            texts.insert_absent(text, ());
            map.set_value(i, texts);
            assert(map@ =~= old(map)@.update(i as int, (old(map)@[i as int].0, texts@)));
        },
        None => {
            let mut texts: Table<String, ()> = Table::new();
            proof {
                lemma_no_match::<String, ()>(texts@, text@);
            }
            texts.insert_absent(text, ());
            assert(texts@ =~= seq![(text@, ())]);
            map.insert(key, texts);
        },
    }
}

impl SerializationDataBuffer {
    pub fn new() -> (out: Self)
        ensures
            out@ == empty_buffer(),
    {
        let out = SerializationDataBuffer {
            node_element_buffer: Table::new(),
            edge_element_buffer: Table::new(),
            edge_redirection: Table::new(),
            edges_include_map: Table::new(),
            property_edge_map: Table::new(),
            property_domain_map: Table::new(),
            property_range_map: Table::new(),
            label_buffer: Table::new(),
            edge_label_buffer: Table::new(),
            edge_buffer: Table::new(),
            edge_characteristics: Table::new(),
            node_characteristics: Table::new(),
            unknown_buffer: Table::new(),
            failed_buffer: Vec::new(),
            document_base: None,
        };
        assert(failed_model(out.failed_buffer@) =~= Seq::empty());
        out
    }

    /// Notes the edge that was drawn for a property.
    pub fn add_property_edge(&mut self, property_iri: String, edge: Edge)
        ensures
            final(self)@ == add_property_edge_spec(old(self)@, property_iri@, edge@),
    {
        self.property_edge_map.insert(property_iri, edge);
    }

    /// Notes one more domain of a property.
    pub fn add_property_domain(&mut self, property_iri: String, domain: String)
        ensures
            final(self)@ == add_property_domain_spec(old(self)@, property_iri@, domain@),
    {
        add_to_text_set(&mut self.property_domain_map, property_iri, domain);
    }

    /// Notes one more range of a property.
    pub fn add_property_range(&mut self, property_iri: String, range: String)
        ensures
            final(self)@ == add_property_range_spec(old(self)@, property_iri@, range@),
    {
        add_to_text_set(&mut self.property_range_map, property_iri, range);
    }
}

impl Default for SerializationDataBuffer {
    fn default() -> (out: Self)
        ensures
            out@ == empty_buffer(),
    {
        Self::new()
    }
}

} // verus!
