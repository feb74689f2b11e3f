//! The engine: it takes the rows of the query one by one and builds the
//! working state from which the graph model is made.

use crate::buffer::{failed_model, SerializationDataBuffer};
use crate::edge::{Edge, EdgeView};
use crate::element::{ElementType, OwlEdge, OwlNode, OwlType, RdfsNode, RdfsType};
use crate::display::{display_of, well_formed, GraphDisplayData};
use crate::errors::{
    SourceLocation, SourceLocationView, VOWLRStoreError, VOWLRStoreErrorKindView,
    VOWLRStoreErrorView,
};
use crate::iri::infer_label;
use crate::model::{
    empty_buffer, extract_label_spec, failure_lines, failure_report, run_spec, take_rows, RowView,
    chase, characteristic_spec, check_all_spec, check_unknown_spec, classified, create_node_spec,
    draw_property_spec, equivalent_spec, extend_label_spec, fail, include_edge, insert_edge_spec,
    insert_node_spec, is_external_spec, lemma_park_grows, lemma_parked_without, merge_nodes_spec,
    move_label_spec, park, parked, placeholder_kind, placeholder_spec, property_row_spec,
    redirect_spec, replay_spec, resolve_spec, resolve_target, retarget_all, update_edges_spec,
    upgrade_spec, write_entries, write_row, write_rows, write_spec,
};
use crate::table::{
    lemma_first_match_unique, lemma_no_match, put_absent, without, Keyed, Modeled, Table,
};
use crate::term::{clone_optional_term, parse_named_node, Term};
use crate::text::{decimal, text_contains, trim_tag_circumfix};
use crate::triple::{Triple, TripleView};
use crate::vocab::{
    classify, get_reserved_iris, reserved_iris, trimmed_set, RowAction, OWL_THING, RDFS_LITERAL,
};
use vstd::prelude::*;
use vstd::string::*;

verus! {

pub struct GraphDisplayDataSolutionSerializer {
    /// The IRIs that are never taken for references into another ontology.
    pub resolvable_iris: Table<String, ()>,
}

impl GraphDisplayDataSolutionSerializer {
    pub fn new() -> (out: Self)
        ensures
            out.resolvable_iris@ == trimmed_set(reserved_iris(), reserved_iris().len() as int),
    {
        GraphDisplayDataSolutionSerializer { resolvable_iris: get_reserved_iris() }
    }

    /// Whether a term has a kind, as a node or as a property.
    fn is_classified(&self, data_buffer: &SerializationDataBuffer, x: &Term) -> (out: bool)
        ensures
            out == classified(data_buffer@, x@),
    {
        data_buffer.node_element_buffer.contains_key(x)
            || data_buffer.edge_element_buffer.contains_key(x)
    }

    /// The classified term that `x` stands for, if there is one.
    pub fn resolve(&self, data_buffer: &SerializationDataBuffer, x: Term) -> (out: Option<Term>)
        ensures
            out.model() == resolve_spec(data_buffer@, x@),
    {
        if self.is_classified(data_buffer, &x) {
            return Some(x);
        }
        let mut current = x;
        let mut steps = data_buffer.edge_redirection.len();
        while steps > 0
            invariant
                chase(data_buffer@, current@, steps as nat) == resolve_spec(data_buffer@, x@),
            decreases steps,
        {
            let next = match data_buffer.edge_redirection.get(&current) {
                Some(next) => next.duplicate(),
                None => {
                    return None;
                },
            };
            if self.is_classified(data_buffer, &next) {
                return Some(next);
            }
            current = next;
            steps -= 1;
        }
        None
    }

    /// The subject and the object of a row, each resolved.
    fn resolve_so(&self, data_buffer: &SerializationDataBuffer, triple: &Triple) -> (out: (
        Option<Term>,
        Option<Term>,
    ))
        ensures
            out.0.model() == resolve_spec(data_buffer@, triple@.id),
            out.1.model() == resolve_target(data_buffer@, triple@),
    {
        let resolved_subject = self.resolve(data_buffer, triple.id.duplicate());
        let resolved_object = match &triple.target {
            Some(target) => self.resolve(data_buffer, target.duplicate()),
            None => None,
        };
        (resolved_subject, resolved_object)
    }

    /// Gives the subject of a row its kind, unless it has one.
    fn add_to_element_buffer(
        &self,
        element_buffer: &mut Table<Term, ElementType>,
        triple: &Triple,
        element_type: ElementType,
    )
        ensures
            final(element_buffer)@ == put_absent::<Term, ElementType>(
                old(element_buffer)@,
                triple@.id,
                element_type,
            ),
    {
        element_buffer.insert_absent(triple.id.duplicate(), element_type);
    }

    /// Lets a row wait for a term.
    fn add_to_unknown_buffer(
        &self,
        data_buffer: &mut SerializationDataBuffer,
        element_iri: Term,
        triple: Triple,
    )
        ensures
            final(data_buffer)@ == park(old(data_buffer)@, element_iri@, triple@),
            parked(final(data_buffer)@.unknown) <= parked(old(data_buffer)@.unknown) + 1,
    {
        proof {
            lemma_park_grows(data_buffer@, element_iri@, triple@);
        }
        match data_buffer.unknown_buffer.find(&element_iri) {
            Some(i) => {
                proof {
                    lemma_first_match_unique::<Term, Seq<(TripleView, ())>>(
                        data_buffer@.unknown,
                        element_iri@,
                        i as int,
                    );
                }
                let mut rows = data_buffer.unknown_buffer.set_value(i, Table::new());
                rows.insert_absent(triple, ());
                data_buffer.unknown_buffer.set_value(i, rows);
                assert(data_buffer@.unknown =~= park(
                    old(data_buffer)@,
                    element_iri@,
                    triple@,
                ).unknown);
            },
            None => {
                let mut rows: Table<Triple, ()> = Table::new();
                proof {
                    lemma_no_match::<Triple, ()>(rows@, triple@);
                }
                rows.insert_absent(triple, ());
                assert(rows@ =~= seq![(triple@, ())]);
                data_buffer.unknown_buffer.insert(element_iri, rows);
            },
        }
    }

    /// Adds an edge to the edges that touch a term.
    fn insert_edge_include(
        &self,
        data_buffer: &mut SerializationDataBuffer,
        element_iri: &Term,
        edge: Edge,
    )
        ensures
            final(data_buffer)@ == include_edge(old(data_buffer)@, element_iri@, edge@),
    {
        match data_buffer.edges_include_map.find(element_iri) {
            Some(i) => {
                proof {
                    lemma_first_match_unique::<Term, Seq<(EdgeView, ())>>(
                        data_buffer@.edges_include,
                        element_iri@,
                        i as int,
                    );
                }
                let mut edges = data_buffer.edges_include_map.set_value(i, Table::new());
                edges.insert_absent(edge, ());
                data_buffer.edges_include_map.set_value(i, edges);
                assert(data_buffer@.edges_include =~= include_edge(
                    old(data_buffer)@,
                    element_iri@,
                    edge@,
                ).edges_include);
            },
            None => {
                let mut edges: Table<Edge, ()> = Table::new();
                proof {
                    lemma_no_match::<Edge, ()>(edges@, edge@);
                }
                edges.insert_absent(edge, ());
                assert(edges@ =~= seq![(edge@, ())]);
                data_buffer.edges_include_map.insert(element_iri.duplicate(), edges);
            },
        }
    }

    /// Whether a term points outside the document.
    pub fn is_external(&self, data_buffer: &SerializationDataBuffer, iri: &Term) -> (out: bool)
        ensures
            out == is_external_spec(data_buffer@, self.resolvable_iris@, iri@),
    {
        if iri.is_blank_node() {
            return false;
        }
        let text = iri.text();
        let clean_iri = trim_tag_circumfix(&text);
        match &data_buffer.document_base {
            Some(base) => !text_contains(clean_iri.as_str(), base.as_str())
                && !self.resolvable_iris.contains_key(&clean_iri),
            None => false,
        }
    }

    /// Inserts the edge that a row gives between its subject and its object.
    /// A row whose ends are not both resolved waits; it is never dropped.
    fn insert_edge(
        &self,
        data_buffer: &mut SerializationDataBuffer,
        triple: &Triple,
        edge_type: ElementType,
        label: Option<String>,
    ) -> (out: Option<Edge>)
        ensures
            (final(data_buffer)@, out.model()) == insert_edge_spec(
                old(data_buffer)@,
                self.resolvable_iris@,
                triple@,
                edge_type,
                label.model(),
            ),
            parked(final(data_buffer)@.unknown) <= parked(old(data_buffer)@.unknown) + 1,
    {
        let external = !(edge_type == ElementType::NoDraw) && self.is_external(
            data_buffer,
            &triple.id,
        );
        let new_type = if external {
            ElementType::Owl(OwlType::Edge(OwlEdge::ExternalProperty))
        } else {
            edge_type
        };
        let (subject, object) = self.resolve_so(data_buffer, triple);
        match (subject, object) {
            (Some(sub_iri), Some(obj_iri)) => {
                let property = if new_type.has_property() {
                    Some(triple.element_type.duplicate())
                } else {
                    None
                };
                let edge = Edge {
                    subject: sub_iri.duplicate(),
                    element_type: new_type,
                    object: obj_iri.duplicate(),
                    property,
                };
                data_buffer.edge_buffer.insert_absent(edge.duplicate(), ());
                self.insert_edge_include(data_buffer, &sub_iri, edge.duplicate());
                self.insert_edge_include(data_buffer, &obj_iri, edge.duplicate());
                let text = match label {
                    Some(text) => text,
                    None => String::from_str(new_type.name()),
                };
                data_buffer.edge_label_buffer.insert(edge.duplicate(), text);
                Some(edge)
            },
            (Some(_), None) => {
                match &triple.target {
                    Some(obj_iri) => {
                        self.add_to_unknown_buffer(
                            data_buffer,
                            obj_iri.duplicate(),
                            triple.duplicate(),
                        );
                    },
                    None => {},
                }
                None
            },
            (None, _) => {
                self.add_to_unknown_buffer(data_buffer, triple.id.duplicate(), triple.duplicate());
                None
            },
        }
    }

    /// Raises the kind of a node that is a plain class so far.
    fn upgrade_node_type(
        &self,
        data_buffer: &mut SerializationDataBuffer,
        iri: &Term,
        new_element: ElementType,
    )
        ensures
            final(data_buffer)@ == upgrade_spec(old(data_buffer)@, iri@, new_element),
    {
        let is_class = match data_buffer.node_element_buffer.get(iri) {
            Some(old_elem) => *old_elem == ElementType::Owl(OwlType::Node(OwlNode::Class)),
            None => false,
        };
        if is_class {
            data_buffer.node_element_buffer.insert(iri.duplicate(), new_element);
        }
    }

    /// Appends a text to a term's label on a new line.
    fn extend_element_label(
        &self,
        data_buffer: &mut SerializationDataBuffer,
        element: &Term,
        label_to_append: String,
    )
        ensures
            final(data_buffer)@ == extend_label_spec(old(data_buffer)@, element@, label_to_append@),
    {
        match data_buffer.label_buffer.find(element) {
            Some(i) => {
                proof {
                    lemma_first_match_unique::<Term, Seq<char>>(
                        data_buffer@.labels,
                        element@,
                        i as int,
                    );
                    reveal_strlit("\n");
                    assert("\n"@ =~= seq!['\n']);
                }
                let mut label = data_buffer.label_buffer.set_value(i, String::new());
                label.append("\n");
                label.append(label_to_append.as_str());
                data_buffer.label_buffer.set_value(i, label);
                assert(data_buffer@.labels =~= extend_label_spec(
                    old(data_buffer)@,
                    element@,
                    label_to_append@,
                ).labels);
            },
            None => {
                data_buffer.label_buffer.insert(element.duplicate(), label_to_append);
            },
        }
    }

    /// Moves every edge that touches `old_iri` over to `new_iri`.
    fn update_edges(
        &self,
        data_buffer: &mut SerializationDataBuffer,
        old_iri: &Term,
        new_iri: &Term,
    )
        ensures
            final(data_buffer)@ == update_edges_spec(old(data_buffer)@, old_iri@, new_iri@),
            final(data_buffer)@.unknown == old(data_buffer)@.unknown,
            final(data_buffer)@.nodes == old(data_buffer)@.nodes,
    {
        match data_buffer.edges_include_map.remove(old_iri) {
            Some(old_edges) => {
                let ghost start = data_buffer@;
                let count = old_edges.len();
                let mut i: usize = 0;
                while i < count
                    invariant
                        i <= count,
                        count == old_edges@.len(),
                        data_buffer@ == retarget_all(
                            start,
                            old_edges@,
                            old_iri@,
                            new_iri@,
                            i as int,
                        ),
                        data_buffer@.unknown == start.unknown,
                        data_buffer@.nodes == start.nodes,
                    decreases count - i,
                {
                    let (edge, _) = old_edges.entry(i);
                    data_buffer.edge_buffer.remove(edge);
                    let moved = Edge {
                        subject: if edge.subject.matches(old_iri) {
                            new_iri.duplicate()
                        } else {
                            edge.subject.duplicate()
                        },
                        element_type: edge.element_type,
                        object: if edge.object.matches(old_iri) {
                            new_iri.duplicate()
                        } else {
                            edge.object.duplicate()
                        },
                        property: clone_optional_term(&edge.property),
                    };
                    data_buffer.edge_buffer.insert_absent(moved.duplicate(), ());
                    self.insert_edge_include(data_buffer, new_iri, moved);
                    i += 1;
                }
            },
            None => {},
        }
    }

    /// Notes a trait on the subject of a row; the row waits while its
    /// subject does not resolve.
    fn insert_characteristic(
        &self,
        data_buffer: &mut SerializationDataBuffer,
        triple: Triple,
        arg: String,
    )
        ensures
            final(data_buffer)@ == characteristic_spec(old(data_buffer)@, triple@, arg@),
            parked(final(data_buffer)@.unknown) <= parked(old(data_buffer)@.unknown) + 1,
    {
        match self.resolve(data_buffer, triple.id.duplicate()) {
            Some(subject) => {
                match data_buffer.node_characteristics.find(&subject) {
                    Some(i) => {
                        proof {
                            lemma_first_match_unique::<Term, Seq<Seq<char>>>(
                                data_buffer@.node_characteristics,
                                subject@,
                                i as int,
                            );
                        }
                        let mut names = data_buffer.node_characteristics.set_value(i, Vec::new());
                        let ghost before = names.model();
                        names.push(arg);
                        assert(names.model() =~= before.push(arg@));
                        data_buffer.node_characteristics.set_value(i, names);
                        assert(data_buffer@.node_characteristics =~= characteristic_spec(
                            old(data_buffer)@,
                            triple@,
                            arg@,
                        ).node_characteristics);
                    },
                    None => {
                        let mut names: Vec<String> = Vec::new();
                        names.push(arg);
                        assert(names.model() =~= seq![arg@]);
                        data_buffer.node_characteristics.insert(subject, names);
                    },
                }
            },
            None => {
                self.add_to_unknown_buffer(data_buffer, triple.id.duplicate(), triple);
            },
        }
    }

    /// The row that declares a node of the engine's own making.
    pub fn create_node(&self, id: String, node_type: Term, object_iri: Option<String>) -> (out: Result<
        Triple,
        oxrdf::IriParseError,
    >)
        ensures
            match out {
                Ok(triple) => create_node_spec(id@, node_type@, object_iri.model()) == Some(
                    triple@,
                ),
                Err(_) => create_node_spec(id@, node_type@, object_iri.model()) is None,
            },
    {
        let subject = match parse_named_node(id.as_str()) {
            Ok(iri) => Term::NamedNode(iri),
            Err(error) => {
                return Err(error);
            },
        };
        let object = match object_iri {
            Some(iri) => match parse_named_node(iri.as_str()) {
                Ok(iri) => Some(Term::NamedNode(iri)),
                Err(error) => {
                    return Err(error);
                },
            },
            None => None,
        };
        Ok(Triple::new(subject, node_type, object))
    }

    /// Notes a row that can never be serialized.
    fn record_failure(&self, data_buffer: &mut SerializationDataBuffer, triple: Triple, reason: String)
        ensures
            final(data_buffer)@ == fail(old(data_buffer)@, triple@, reason@),
    {
        data_buffer.failed_buffer.push((Some(triple), reason));
        assert(failed_model(data_buffer.failed_buffer@) =~= failed_model(
            old(data_buffer).failed_buffer@,
        ).push((Some(triple@), reason@)));
    }

    /// Draws the edge of a property between the two ends of a row and
    /// notes the pair.
    fn draw_property(&self, data_buffer: &mut SerializationDataBuffer, edge_triple: &Triple)
        ensures
            final(data_buffer)@ == draw_property_spec(
                old(data_buffer)@,
                self.resolvable_iris@,
                edge_triple@,
            ),
            parked(final(data_buffer)@.unknown) <= parked(old(data_buffer)@.unknown) + 1,
    {
        let label = match data_buffer.label_buffer.get(&edge_triple.element_type) {
            Some(label) => Some(label.clone()),
            None => None,
        };
        let edge = self.insert_edge(
            data_buffer,
            edge_triple,
            ElementType::Owl(OwlType::Edge(OwlEdge::ObjectProperty)),
            label,
        );
        match (edge, &edge_triple.target) {
            (Some(edge), Some(target)) => {
                data_buffer.add_property_edge(edge_triple.element_type.text(), edge);
                data_buffer.add_property_domain(edge_triple.element_type.text(), target.text());
                data_buffer.add_property_range(
                    edge_triple.element_type.text(),
                    edge_triple.id.text(),
                );
            },
            _ => {},
        }
    }

    /// The node that stands in for a missing end, with its kind, where the
    /// target is a sentinel and the name made for the node is an IRI.
    fn make_placeholder(&self, target: &Term, thing_anchor: &Term, literal_anchor: &Term) -> (out:
        Option<(Triple, ElementType)>)
        ensures
            match out {
                Some((node, kind)) => placeholder_spec(target@, thing_anchor@, literal_anchor@)
                    == Some(node@) && placeholder_kind(target@) == Some(kind),
                None => placeholder_spec(target@, thing_anchor@, literal_anchor@) is None,
            },
    {
        if target.is_iri(OWL_THING) {
            let mut name = thing_anchor.text();
            name.append("_thing");
            let name = trim_tag_circumfix(&name);
            match self.create_node(name, Term::named(OWL_THING), None) {
                Ok(node) => Some((node, ElementType::Owl(OwlType::Node(OwlNode::Thing)))),
                Err(_) => None,
            }
        } else if target.is_iri(RDFS_LITERAL) {
            let mut name = literal_anchor.text();
            name.append("_literal");
            let name = trim_tag_circumfix(&name);
            match self.create_node(name, Term::named(RDFS_LITERAL), None) {
                Ok(node) => Some((node, ElementType::Rdfs(RdfsType::Node(RdfsNode::Literal)))),
                Err(_) => None,
            }
        } else {
            None
        }
    }

    /// Replays the rows that wait for `term`. `budget` is the room for
    /// replays that nest: at least as many as rows are waiting, and one
    /// fewer for each replay that is under way.
    fn check_unknown_inner(
        &self,
        data_buffer: &mut SerializationDataBuffer,
        term: &Term,
        Ghost(budget): Ghost<nat>,
    )
        requires
            parked(old(data_buffer)@.unknown) <= budget,
        ensures
            final(data_buffer)@ == check_unknown_spec(
                old(data_buffer)@,
                self.resolvable_iris@,
                term@,
                budget,
            ),
            parked(final(data_buffer)@.unknown) <= parked(old(data_buffer)@.unknown),
        decreases budget, 1nat, 0nat,
    {
        proof {
            lemma_parked_without(data_buffer@.unknown, term@);
        }
        match data_buffer.unknown_buffer.remove(term) {
            Some(rows) => {
                let ghost start = data_buffer@;
                let count = rows.len();
                let mut i: usize = 0;
                while i < count
                    invariant
                        i <= count,
                        count == rows@.len(),
                        count > 0 ==> budget > 0,
                        parked(data_buffer@.unknown) + (count - i) <= parked(
                            old(data_buffer)@.unknown,
                        ),
                        parked(old(data_buffer)@.unknown) <= budget,
                        data_buffer@ == replay_spec(
                            start,
                            self.resolvable_iris@,
                            rows@,
                            i as nat,
                            (budget - 1) as nat,
                        ),
                    decreases count - i,
                {
                    let (row, _) = rows.entry(i);
                    self.write_inner(data_buffer, row.duplicate(), Ghost((budget - 1) as nat));
                    i += 1;
                }
            },
            None => {},
        }
    }

    /// Redirects `old_iri` to `new_iri`, then replays what waited for
    /// `old_iri`.
    fn redirect_inner(
        &self,
        data_buffer: &mut SerializationDataBuffer,
        old_iri: &Term,
        new_iri: &Term,
        Ghost(budget): Ghost<nat>,
    )
        requires
            parked(old(data_buffer)@.unknown) <= budget,
        ensures
            final(data_buffer)@ == redirect_spec(
                old(data_buffer)@,
                self.resolvable_iris@,
                old_iri@,
                new_iri@,
                budget,
            ),
            parked(final(data_buffer)@.unknown) <= parked(old(data_buffer)@.unknown),
        decreases budget, 2nat, 0nat,
    {
        data_buffer.edge_redirection.insert(old_iri.duplicate(), new_iri.duplicate());
        self.check_unknown_inner(data_buffer, old_iri, Ghost(budget));
    }

    /// Merges node `old_iri` into `new_iri`: it leaves the nodes, its edges
    /// move over, and it is redirected.
    fn merge_nodes_inner(
        &self,
        data_buffer: &mut SerializationDataBuffer,
        old_iri: &Term,
        new_iri: &Term,
        Ghost(budget): Ghost<nat>,
    )
        requires
            parked(old(data_buffer)@.unknown) <= budget,
        ensures
            final(data_buffer)@ == merge_nodes_spec(
                old(data_buffer)@,
                self.resolvable_iris@,
                old_iri@,
                new_iri@,
                budget,
            ),
            parked(final(data_buffer)@.unknown) <= parked(old(data_buffer)@.unknown),
        decreases budget, 3nat, 0nat,
    {
        data_buffer.node_element_buffer.remove(old_iri);
        self.update_edges(data_buffer, old_iri, new_iri);
        self.redirect_inner(data_buffer, old_iri, new_iri, Ghost(budget));
    }

    /// Inserts the subject of a row as a node, unless it was merged away,
    /// then replays what waited for it.
    fn insert_node_inner(
        &self,
        data_buffer: &mut SerializationDataBuffer,
        triple: &Triple,
        node_type: ElementType,
        Ghost(budget): Ghost<nat>,
    )
        requires
            parked(old(data_buffer)@.unknown) <= budget,
        ensures
            final(data_buffer)@ == insert_node_spec(
                old(data_buffer)@,
                self.resolvable_iris@,
                triple@,
                node_type,
                budget,
            ),
            parked(final(data_buffer)@.unknown) <= parked(old(data_buffer)@.unknown),
        decreases budget, 3nat, 0nat,
    {
        if data_buffer.edge_redirection.contains_key(&triple.id) {
            return ;
        }
        self.add_to_element_buffer(&mut data_buffer.node_element_buffer, triple, node_type);
        self.check_unknown_inner(data_buffer, &triple.id, Ghost(budget));
    }

    /// Moves the label of `target` to the end of the label of `subject`.
    fn move_label(&self, data_buffer: &mut SerializationDataBuffer, subject: &Term, target: &Term)
        ensures
            final(data_buffer)@ == move_label_spec(old(data_buffer)@, subject@, target@),
    {
        match data_buffer.label_buffer.remove(target) {
            Some(label) => {
                self.extend_element_label(data_buffer, subject, label);
            },
            None => {},
        }
    }

    /// Takes a row that declares two classes equivalent.
    fn equivalent_inner(
        &self,
        data_buffer: &mut SerializationDataBuffer,
        triple: Triple,
        Ghost(budget): Ghost<nat>,
    )
        requires
            parked(old(data_buffer)@.unknown) <= budget,
        ensures
            final(data_buffer)@ == equivalent_spec(
                old(data_buffer)@,
                self.resolvable_iris@,
                triple@,
                budget,
            ),
            parked(final(data_buffer)@.unknown) <= parked(old(data_buffer)@.unknown) + 1,
        decreases budget, 4nat, 0nat,
    {
        let target = match &triple.target {
            Some(target) => target.duplicate(),
            None => {
                self.record_failure(
                    data_buffer,
                    triple,
                    String::from_str("Subject of equivalence relation is missing an object"),
                );
                return ;
            },
        };
        if target.is_named_node() {
            self.move_label(data_buffer, &triple.id, &target);
            if data_buffer.node_element_buffer.contains_key(&target) {
                self.merge_nodes_inner(data_buffer, &target, &triple.id, Ghost(budget));
            } else {
                proof {
                    lemma_parked_without(data_buffer@.unknown, target@);
                }
                match data_buffer.unknown_buffer.remove(&target) {
                    Some(_) => {},
                    None => {
                        self.record_failure(
                            data_buffer,
                            triple,
                            String::from_str(
                                "Failed to merge object of equivalence relation into subject: object not found",
                            ),
                        );
                        return ;
                    },
                }
            }
            self.upgrade_node_type(
                data_buffer,
                &triple.id,
                ElementType::Owl(OwlType::Node(OwlNode::EquivalentClass)),
            );
        } else if target.is_blank_node() {
            let (index_s, index_o) = self.resolve_so(data_buffer, &triple);
            match (index_s, index_o) {
                (Some(index_s), Some(index_o)) => {
                    self.merge_nodes_inner(data_buffer, &index_o, &index_s, Ghost(budget));
                },
                (Some(index_s), None) => {
                    self.redirect_inner(data_buffer, &target, &index_s, Ghost(budget));
                },
                (None, _) => {
                    self.add_to_unknown_buffer(data_buffer, target, triple);
                },
            }
        } else {
            self.record_failure(
                data_buffer,
                triple,
                String::from_str(
                    "Visualization of equivalence relations between classes and literals is not supported",
                ),
            );
        }
    }

    /// Takes a row that gives a property with its two ends.
    fn property_row_inner(
        &self,
        data_buffer: &mut SerializationDataBuffer,
        triple: Triple,
        Ghost(budget): Ghost<nat>,
    )
        requires
            parked(old(data_buffer)@.unknown) <= budget,
        ensures
            final(data_buffer)@ == property_row_spec(
                old(data_buffer)@,
                self.resolvable_iris@,
                triple@,
                budget,
            ),
            parked(final(data_buffer)@.unknown) <= parked(old(data_buffer)@.unknown) + 1,
        decreases budget, 4nat, 0nat,
    {
        let target = match &triple.target {
            Some(target) => target.duplicate(),
            None => {
                return ;
            },
        };
        let subject = self.resolve(data_buffer, triple.id.duplicate());
        let property = self.resolve(data_buffer, triple.element_type.duplicate());
        let object = self.resolve(data_buffer, target.duplicate());
        match (subject, property, object) {
            (Some(_), Some(_), Some(_)) => {
                self.draw_property(data_buffer, &triple);
            },
            (Some(domain), Some(property), None) => {
                match self.make_placeholder(&target, &domain, &property) {
                    Some((node, kind)) => {
                        self.insert_node_inner(data_buffer, &node, kind, Ghost(budget));
                        let edge_triple = Triple {
                            id: triple.id,
                            element_type: triple.element_type,
                            target: Some(node.id),
                        };
                        self.draw_property(data_buffer, &edge_triple);
                    },
                    None => {
                        self.add_to_unknown_buffer(data_buffer, target, triple);
                    },
                }
            },
            (None, Some(_), Some(range)) => {
                match self.make_placeholder(&target, &range, &range) {
                    Some((node, kind)) => {
                        self.insert_node_inner(data_buffer, &node, kind, Ghost(budget));
                        let edge_triple = Triple {
                            id: node.id,
                            element_type: triple.element_type,
                            target: triple.target,
                        };
                        self.draw_property(data_buffer, &edge_triple);
                    },
                    None => {
                        self.add_to_unknown_buffer(data_buffer, target, triple);
                    },
                }
            },
            (None, Some(_), None) => {},
            (Some(_), None, Some(_)) => {
                self.add_to_unknown_buffer(data_buffer, triple.element_type.duplicate(), triple);
            },
            _ => {
                self.add_to_unknown_buffer(data_buffer, triple.id.duplicate(), triple);
            },
        }
    }

    /// Takes one row into the state, by the action that its discriminator
    /// asks for.
    fn write_inner(
        &self,
        data_buffer: &mut SerializationDataBuffer,
        triple: Triple,
        Ghost(budget): Ghost<nat>,
    )
        requires
            parked(old(data_buffer)@.unknown) <= budget,
        ensures
            final(data_buffer)@ == write_spec(
                old(data_buffer)@,
                self.resolvable_iris@,
                triple@,
                budget,
            ),
            parked(final(data_buffer)@.unknown) <= parked(old(data_buffer)@.unknown) + 1,
        decreases budget, 5nat, 0nat,
    {
        match classify(&triple.element_type) {
            RowAction::IllegalBlank => {
                let mut reason = String::from_str("Illegal blank node during serialization: '");
                let written = triple.element_type.text();
                reason.append(written.as_str());
                reason.append("'");
                self.record_failure(data_buffer, triple, reason);
            },
            RowAction::UnsupportedLiteral => {},
            RowAction::InsertNode(kind) => {
                self.insert_node_inner(data_buffer, &triple, kind, Ghost(budget));
            },
            RowAction::InsertEdge(kind) => {
                self.insert_edge(data_buffer, &triple, kind, None);
            },
            RowAction::Operator(kind) => {
                self.insert_edge(data_buffer, &triple, ElementType::NoDraw, None);
                if triple.target.is_some() {
                    match self.resolve(data_buffer, triple.id.duplicate()) {
                        Some(index) => {
                            self.upgrade_node_type(data_buffer, &index, kind);
                        },
                        None => {},
                    }
                }
            },
            RowAction::LinkedOperator(kind) => {
                match self.insert_edge(data_buffer, &triple, ElementType::NoDraw, None) {
                    Some(edge) => {
                        self.upgrade_node_type(data_buffer, &edge.subject, kind);
                    },
                    None => {},
                }
            },
            RowAction::RegisterProperty(kind) => {
                self.add_to_element_buffer(&mut data_buffer.edge_element_buffer, &triple, kind);
            },
            RowAction::EquivalentClass => {
                self.equivalent_inner(data_buffer, triple, Ghost(budget));
            },
            RowAction::InverseFunctional => {
                self.insert_characteristic(
                    data_buffer,
                    triple,
                    String::from_str("InverseFunctionalProperty"),
                );
            },
            RowAction::Ontology => {
                if data_buffer.document_base.is_none() {
                    let text = triple.id.text();
                    data_buffer.document_base = Some(trim_tag_circumfix(&text));
                }
            },
            RowAction::Ignored => {},
            RowAction::PropertyRow => {
                self.property_row_inner(data_buffer, triple, Ghost(budget));
            },
        }
    }

    /// Redirects `old_iri` to `new_iri` and replays the rows that waited
    /// for `old_iri`.
    pub fn redirect_iri(
        &self,
        data_buffer: &mut SerializationDataBuffer,
        old_iri: &Term,
        new_iri: &Term,
    )
        ensures
            final(data_buffer)@ == redirect_spec(
                old(data_buffer)@,
                self.resolvable_iris@,
                old_iri@,
                new_iri@,
                parked(old(data_buffer)@.unknown),
            ),
    {
        let ghost budget = parked(data_buffer@.unknown);
        self.redirect_inner(data_buffer, old_iri, new_iri, Ghost(budget));
    }

    /// Replays the rows that wait for `term`, each once.
    pub fn check_unknown_buffer(&self, data_buffer: &mut SerializationDataBuffer, term: &Term)
        ensures
            final(data_buffer)@ == check_unknown_spec(
                old(data_buffer)@,
                self.resolvable_iris@,
                term@,
                parked(old(data_buffer)@.unknown),
            ),
    {
        let ghost budget = parked(data_buffer@.unknown);
        self.check_unknown_inner(data_buffer, term, Ghost(budget));
    }

    /// Inserts the subject of a row as a node of the given kind.
    pub fn insert_node(
        &self,
        data_buffer: &mut SerializationDataBuffer,
        triple: &Triple,
        node_type: ElementType,
    )
        ensures
            final(data_buffer)@ == insert_node_spec(
                old(data_buffer)@,
                self.resolvable_iris@,
                triple@,
                node_type,
                parked(old(data_buffer)@.unknown),
            ),
    {
        let ghost budget = parked(data_buffer@.unknown);
        self.insert_node_inner(data_buffer, triple, node_type, Ghost(budget));
    }

    /// Takes one row into the state.
    pub fn write_node_triple(&self, data_buffer: &mut SerializationDataBuffer, triple: Triple)
        ensures
            final(data_buffer)@ == write_row(old(data_buffer)@, self.resolvable_iris@, triple@),
    {
        let ghost budget = parked(data_buffer@.unknown);
        self.write_inner(data_buffer, triple, Ghost(budget));
    }

    /// The last pass: takes every row that still waits out and writes it
    /// once more.
    pub fn check_all_unknowns(&self, data_buffer: &mut SerializationDataBuffer)
        ensures
            final(data_buffer)@ == check_all_spec(old(data_buffer)@, self.resolvable_iris@),
    {
        let mut unknowns: Table<Term, Table<Triple, ()>> = Table::new();
        core::mem::swap(&mut data_buffer.unknown_buffer, &mut unknowns);
        let ghost start = data_buffer@;
        let entries = unknowns.len();
        let mut i: usize = 0;
        while i < entries
            invariant
                i <= entries,
                entries == unknowns@.len(),
                data_buffer@ == write_entries(start, self.resolvable_iris@, unknowns@, i as nat),
            decreases entries - i,
        {
            let (_, rows) = unknowns.entry(i);
            let ghost before = data_buffer@;
            let count = rows.len();
            let mut j: usize = 0;
            while j < count
                invariant
                    j <= count,
                    count == rows@.len(),
                    data_buffer@ == write_rows(before, self.resolvable_iris@, rows@, j as nat),
                decreases count - j,
            {
                let (row, _) = rows.entry(j);
                self.write_node_triple(data_buffer, row.duplicate());
                j += 1;
            }
            i += 1;
        }
    }

    /// Notes the label of a row until the row's subject has its kind.
    pub fn extract_label(
        &self,
        data_buffer: &mut SerializationDataBuffer,
        label: &Option<Term>,
        id_term: &Term,
    )
        ensures
            final(data_buffer)@ == extract_label_spec(old(data_buffer)@, label.model(), id_term@),
    {
        if data_buffer.label_buffer.contains_key(id_term) {
            return ;
        }
        match label {
            Some(label) => {
                let text = label.text();
                if text.as_str().unicode_len() != 0 {
                    data_buffer.label_buffer.insert(id_term.duplicate(), text);
                }
            },
            None => {
                match infer_label(id_term) {
                    Some(text) => {
                        data_buffer.label_buffer.insert(id_term.duplicate(), text);
                    },
                    None => {},
                }
            },
        }
    }

    /// Writes the report of the rows that failed.
    fn report_failures(&self, data_buffer: &SerializationDataBuffer) -> (out: String)
        ensures
            out@ == failure_report(data_buffer@.failed),
    {
        let total = data_buffer.failed_buffer.len();
        let mut error_log = String::from_str("[\n");
        let mut i: usize = 0;
        while i < total
            invariant
                i <= total,
                total == data_buffer.failed_buffer@.len(),
                error_log@ == failure_lines(data_buffer@.failed, i as nat),
            decreases total - i,
        {
            let entry = &data_buffer.failed_buffer[i];
            assert(data_buffer@.failed[i as int] == (entry.0.model(), entry.1@));
            match &entry.0 {
                Some(triple) => {
                    error_log.append("\t");
                    let written = triple.text();
                    error_log.append(written.as_str());
                    error_log.append(" : ");
                },
                None => {
                    error_log.append("\tNO TRIPLE : ");
                },
            }
            error_log.append(entry.1.as_str());
            error_log.append("\n");
            i += 1;
        }
        error_log.append("]");
        let mut out = String::from_str("Serialization failed (");
        let count = decimal(total);
        out.append(count.as_str());
        out.append(" errors): ");
        out.append(error_log.as_str());
        out
    }

    /// Runs the engine over the rows of a query, in the order they came, and
    /// makes the graph. Rows without a subject or a discriminator are passed
    /// over. Where any row failed for good, the graph is left as it was and
    /// the error lists every such row.
    pub fn serialize_nodes_stream(&self, data: &mut GraphDisplayData, rows: Vec<SolutionRow>) -> (out:
        Result<(), VOWLRStoreError>)
        ensures
            match out {
                Ok(_) => {
                    &&& run_spec(self.resolvable_iris@, rows.model()).failed.len() == 0
                    &&& final(data)@ == display_of(run_spec(self.resolvable_iris@, rows.model()))
                    &&& well_formed(final(data)@)
                },
                Err(error) => {
                    &&& run_spec(self.resolvable_iris@, rows.model()).failed.len() > 0
                    &&& final(data)@ == old(data)@
                    &&& error@ == (VOWLRStoreErrorView {
                        inner: VOWLRStoreErrorKindView::InvalidInput(
                            failure_report(run_spec(self.resolvable_iris@, rows.model()).failed),
                        ),
                        location: serialization_site(),
                    })
                },
            },
    {
        let mut data_buffer = SerializationDataBuffer::new();
        let count = rows.len();
        let mut i: usize = 0;
        while i < count
            invariant
                i <= count,
                count == rows@.len(),
                data_buffer@ == take_rows(
                    empty_buffer(),
                    self.resolvable_iris@,
                    rows.model(),
                    i as nat,
                ),
            decreases count - i,
        {
            let row = &rows[i];
            assert(rows.model()[i as int] == row.model());
            match (&row.id, &row.node_type) {
                (Some(id_term), Some(node_type_term)) => {
                    self.extract_label(&mut data_buffer, &row.label, id_term);
                    let triple = Triple {
                        id: id_term.duplicate(),
                        element_type: node_type_term.duplicate(),
                        target: clone_optional_term(&row.target),
                    };
                    self.write_node_triple(&mut data_buffer, triple);
                },
                _ => {},
            }
            i += 1;
        }
        self.check_all_unknowns(&mut data_buffer);
        if data_buffer.failed_buffer.len() > 0 {
            let report = self.report_failures(&data_buffer);
            return Err(
                VOWLRStoreError::invalid_input(report, SourceLocation::new("src/serializer.rs", 0, 0)),
            );
        }
        *data = GraphDisplayData::from_buffer(data_buffer);
        Ok(())
    }
}

impl Default for GraphDisplayDataSolutionSerializer {
    fn default() -> (out: Self)
        ensures
            out.resolvable_iris@ == trimmed_set(reserved_iris(), reserved_iris().len() as int),
    {
        Self::new()
    }
}

/// One row of the query as it arrives.
#[derive(Clone, Debug, PartialEq, Eq)]
pub struct SolutionRow {
    pub id: Option<Term>,
    pub node_type: Option<Term>,
    pub target: Option<Term>,
    pub label: Option<Term>,
}

impl Modeled for SolutionRow {
    type Model = RowView;

    open spec fn model(&self) -> RowView {
        RowView {
            id: self.id.model(),
            node_type: self.node_type.model(),
            target: self.target.model(),
            label: self.label.model(),
        }
    }
}

/// The place that the error of a failed run names.
pub open spec fn serialization_site() -> SourceLocationView {
    SourceLocationView { file: "src/serializer.rs"@, line: 0, column: 0 }
}

} // verus!
