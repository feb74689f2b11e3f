//! The engine as mathematics: the working state as sequences of entries, and
//! what each step makes of it.

use crate::edge::{Edge, EdgeView};
use crate::element::{element_name, ElementType, OwlEdge, OwlNode, RdfsNode};
use crate::table::{has_key, index_of, lookup, put, put_absent, without};
use crate::term::{is_named_node_iri, term_text, Term, TermView};
use crate::text::{contains_text, trimmed_tag};
use crate::triple::{triple_text, Triple, TripleView};
use crate::vocab::{owl_edge, owl_node, rdfs_node, row_action, RowAction, OWL_THING, RDFS_LITERAL};
use vstd::prelude::*;

verus! {

/// The working state of one run, table by table.
pub struct BufferView {
    /// The kind of each resolved node.
    pub nodes: Seq<(TermView, ElementType)>,
    /// The kind of each registered property.
    pub edge_elements: Seq<(TermView, ElementType)>,
    /// For each term that was merged away, the term it was merged into.
    pub redirection: Seq<(TermView, TermView)>,
    /// For each node, the edges that touch it.
    pub edges_include: Seq<(TermView, Seq<(EdgeView, ())>)>,
    pub property_edges: Seq<(Seq<char>, EdgeView)>,
    pub property_domains: Seq<(Seq<char>, Seq<(Seq<char>, ())>)>,
    pub property_ranges: Seq<(Seq<char>, Seq<(Seq<char>, ())>)>,
    pub labels: Seq<(TermView, Seq<char>)>,
    pub edge_labels: Seq<(EdgeView, Seq<char>)>,
    /// Every accepted edge, once.
    pub edges: Seq<(EdgeView, ())>,
    pub edge_characteristics: Seq<(EdgeView, Seq<Seq<char>>)>,
    pub node_characteristics: Seq<(TermView, Seq<Seq<char>>)>,
    /// The rows that wait for a term to be resolved, by that term.
    pub unknown: Seq<(TermView, Seq<(TripleView, ())>)>,
    /// The rows that can never be serialized, each with the reason.
    pub failed: Seq<(Option<TripleView>, Seq<char>)>,
    pub document_base: Option<Seq<char>>,
}

pub open spec fn empty_buffer() -> BufferView {
    BufferView {
        nodes: Seq::empty(),
        edge_elements: Seq::empty(),
        redirection: Seq::empty(),
        edges_include: Seq::empty(),
        property_edges: Seq::empty(),
        property_domains: Seq::empty(),
        property_ranges: Seq::empty(),
        labels: Seq::empty(),
        edge_labels: Seq::empty(),
        edges: Seq::empty(),
        edge_characteristics: Seq::empty(),
        node_characteristics: Seq::empty(),
        unknown: Seq::empty(),
        failed: Seq::empty(),
        document_base: None,
    }
}

/// How many rows wait in all.
pub open spec fn parked(unknown: Seq<(TermView, Seq<(TripleView, ())>)>) -> nat
    decreases unknown.len(),
{
    if unknown.len() == 0 {
        0
    } else {
        unknown.last().1.len() + parked(unknown.drop_last())
    }
}

/// Whether a term has a kind, as a node or as a property.
pub open spec fn classified(st: BufferView, x: TermView) -> bool {
    has_key::<Term, ElementType>(st.nodes, x) || has_key::<Term, ElementType>(st.edge_elements, x)
}

/// Follows the redirections from an unclassified `x` for at most `steps`
/// steps, up to the first classified term.
pub open spec fn chase(st: BufferView, x: TermView, steps: nat) -> Option<TermView>
    decreases steps,
{
    if steps == 0 {
        None
    } else {
        match lookup::<Term, TermView>(st.redirection, x) {
            None => None,
            Some(next) => if classified(st, next) {
                Some(next)
            } else {
                chase(st, next, (steps - 1) as nat)
            },
        }
    }
}

/// The classified term that `x` stands for: itself, or the first classified
/// term along its redirections. A chain longer than the number of
/// redirections runs in a circle and resolves to nothing.
pub open spec fn resolve_spec(st: BufferView, x: TermView) -> Option<TermView> {
    if classified(st, x) {
        Some(x)
    } else {
        chase(st, x, st.redirection.len())
    }
}

/// What a term resolves to has a kind.
pub proof fn lemma_resolved_is_classified(st: BufferView, x: TermView)
    ensures
        resolve_spec(st, x) matches Some(y) ==> classified(st, y),
{
    if !classified(st, x) {
        lemma_chase_ends_classified(st, x, st.redirection.len());
    }
}

pub proof fn lemma_chase_ends_classified(st: BufferView, x: TermView, steps: nat)
    ensures
        chase(st, x, steps) matches Some(y) ==> classified(st, y),
    decreases steps,
{
    if steps > 0 {
        match lookup::<Term, TermView>(st.redirection, x) {
            Some(next) => {
                if !classified(st, next) {
                    lemma_chase_ends_classified(st, next, (steps - 1) as nat);
                }
            },
            None => {},
        }
    }
}

pub open spec fn resolve_target(st: BufferView, t: TripleView) -> Option<TermView> {
    match t.target {
        Some(target) => resolve_spec(st, target),
        None => None,
    }
}

/// `set` with `triple` added unless it is there.
pub open spec fn with_row(set: Option<Seq<(TripleView, ())>>, triple: TripleView) -> Seq<
    (TripleView, ()),
> {
    match set {
        Some(rows) => put_absent::<Triple, ()>(rows, triple, ()),
        None => seq![(triple, ())],
    }
}

/// The state with `triple` waiting for `key`.
pub open spec fn park(st: BufferView, key: TermView, triple: TripleView) -> BufferView {
    BufferView {
        unknown: put::<Term, Seq<(TripleView, ())>>(
            st.unknown,
            key,
            with_row(lookup::<Term, Seq<(TripleView, ())>>(st.unknown, key), triple),
        ),
        ..st
    }
}

pub open spec fn with_edge(set: Option<Seq<(EdgeView, ())>>, edge: EdgeView) -> Seq<
    (EdgeView, ()),
> {
    match set {
        Some(edges) => put_absent::<Edge, ()>(edges, edge, ()),
        None => seq![(edge, ())],
    }
}

/// The state with `edge` among the edges that touch `key`.
pub open spec fn include_edge(st: BufferView, key: TermView, edge: EdgeView) -> BufferView {
    BufferView {
        edges_include: put::<Term, Seq<(EdgeView, ())>>(
            st.edges_include,
            key,
            with_edge(lookup::<Term, Seq<(EdgeView, ())>>(st.edges_include, key), edge),
        ),
        ..st
    }
}

/// The state with one more row that failed for good.
pub open spec fn fail(st: BufferView, triple: TripleView, reason: Seq<char>) -> BufferView {
    BufferView { failed: st.failed.push((Some(triple), reason)), ..st }
}

/// Whether a term points outside the document: never a blank node, never
/// while the base is unknown; else when its text without angle brackets
/// neither holds the base nor is reserved.
pub open spec fn is_external_spec(
    st: BufferView,
    reserved: Seq<(Seq<char>, ())>,
    term: TermView,
) -> bool {
    if term is BlankNode {
        false
    } else {
        match st.document_base {
            Some(base) => {
                let clean = trimmed_tag(term_text(term));
                !contains_text(clean, base) && !has_key::<String, ()>(reserved, clean)
            },
            None => false,
        }
    }
}

/// The kind an edge is drawn as: an external property where its own term is
/// external, unless it is not drawn at all.
pub open spec fn drawn_type(
    st: BufferView,
    reserved: Seq<(Seq<char>, ())>,
    triple: TripleView,
    edge_type: ElementType,
) -> ElementType {
    if edge_type != ElementType::NoDraw && is_external_spec(st, reserved, triple.id) {
        owl_edge(OwlEdge::ExternalProperty)
    } else {
        edge_type
    }
}

pub open spec fn text_or(label: Option<Seq<char>>, fallback: Seq<char>) -> Seq<char> {
    match label {
        Some(text) => text,
        None => fallback,
    }
}

/// The state with `edge` accepted and labelled.
pub open spec fn accept_edge(st: BufferView, edge: EdgeView, label: Seq<char>) -> BufferView {
    let st1 = BufferView { edges: put_absent::<Edge, ()>(st.edges, edge, ()), ..st };
    let st2 = include_edge(st1, edge.subject, edge);
    let st3 = include_edge(st2, edge.object, edge);
    BufferView { edge_labels: put::<Edge, Seq<char>>(st3.edge_labels, edge, label), ..st3 }
}

/// The edge that a row gives between two resolved ends.
pub open spec fn edge_of(
    triple: TripleView,
    subject: TermView,
    object: TermView,
    kind: ElementType,
) -> EdgeView {
    EdgeView {
        subject,
        element_type: kind,
        object,
        property: if kind.carries_property() {
            Some(triple.element_type)
        } else {
            None
        },
    }
}

/// Inserting an edge: with both ends resolved the edge is accepted;
/// otherwise the row waits for the end that is missing (for the subject
/// where both are).
pub open spec fn insert_edge_spec(
    st: BufferView,
    reserved: Seq<(Seq<char>, ())>,
    triple: TripleView,
    edge_type: ElementType,
    label: Option<Seq<char>>,
) -> (BufferView, Option<EdgeView>) {
    let kind = drawn_type(st, reserved, triple, edge_type);
    match (resolve_spec(st, triple.id), resolve_target(st, triple)) {
        (Some(subject), Some(object)) => {
            let edge = edge_of(triple, subject, object, kind);
            (accept_edge(st, edge, text_or(label, element_name(kind))), Some(edge))
        },
        (Some(_), None) => match triple.target {
            Some(object) => (park(st, object, triple), None),
            None => (st, None),
        },
        (None, _) => (park(st, triple.id, triple), None),
    }
}

/// Raising a node's kind: only a plain class is raised.
pub open spec fn upgrade_spec(st: BufferView, iri: TermView, kind: ElementType) -> BufferView {
    if lookup::<Term, ElementType>(st.nodes, iri) == Some(owl_node(OwlNode::Class)) {
        BufferView { nodes: put::<Term, ElementType>(st.nodes, iri, kind), ..st }
    } else {
        st
    }
}

/// Appending to a label on a new line, or setting it where there is none.
pub open spec fn extend_label_spec(st: BufferView, element: TermView, label: Seq<char>) -> BufferView {
    match lookup::<Term, Seq<char>>(st.labels, element) {
        Some(old) => BufferView {
            labels: put::<Term, Seq<char>>(st.labels, element, old + seq!['\n'] + label),
            ..st
        },
        None => BufferView { labels: put::<Term, Seq<char>>(st.labels, element, label), ..st },
    }
}

/// `edge` with each end that is `old` replaced by `new`.
pub open spec fn retargeted(edge: EdgeView, old: TermView, new: TermView) -> EdgeView {
    EdgeView {
        subject: if edge.subject == old {
            new
        } else {
            edge.subject
        },
        object: if edge.object == old {
            new
        } else {
            edge.object
        },
        ..edge
    }
}

/// One edge moved from `old` to `new`.
pub open spec fn retarget_one(st: BufferView, edge: EdgeView, old: TermView, new: TermView) -> BufferView {
    let moved = retargeted(edge, old, new);
    let st1 = BufferView {
        edges: put_absent::<Edge, ()>(without::<Edge, ()>(st.edges, edge), moved, ()),
        ..st
    };
    include_edge(st1, new, moved)
}

/// The first `n` of `edges` moved from `old` to `new`, in order.
pub open spec fn retarget_all(
    st: BufferView,
    edges: Seq<(EdgeView, ())>,
    old: TermView,
    new: TermView,
    n: int,
) -> BufferView
    decreases n,
{
    if n <= 0 {
        st
    } else {
        retarget_one(retarget_all(st, edges, old, new, n - 1), edges[n - 1].0, old, new)
    }
}

/// Every edge that touches `old` now touches `new` instead.
pub open spec fn update_edges_spec(st: BufferView, old: TermView, new: TermView) -> BufferView {
    match lookup::<Term, Seq<(EdgeView, ())>>(st.edges_include, old) {
        Some(edges) => retarget_all(
            BufferView {
                edges_include: without::<Term, Seq<(EdgeView, ())>>(st.edges_include, old),
                ..st
            },
            edges,
            old,
            new,
            edges.len() as int,
        ),
        None => st,
    }
}

/// Noting a trait on the subject once it resolves; until then the row waits.
pub open spec fn characteristic_spec(st: BufferView, t: TripleView, name: Seq<char>) -> BufferView {
    match resolve_spec(st, t.id) {
        Some(subject) => BufferView {
            node_characteristics: put::<Term, Seq<Seq<char>>>(
                st.node_characteristics,
                subject,
                match lookup::<Term, Seq<Seq<char>>>(st.node_characteristics, subject) {
                    Some(names) => names.push(name),
                    None => seq![name],
                },
            ),
            ..st
        },
        None => park(st, t.id, t),
    }
}

/// Taking the subject as the base of the document, unless one is set.
pub open spec fn ontology_spec(st: BufferView, t: TripleView) -> BufferView {
    if st.document_base is Some {
        st
    } else {
        BufferView { document_base: Some(trimmed_tag(term_text(t.id))), ..st }
    }
}

pub open spec fn with_text(set: Option<Seq<(Seq<char>, ())>>, text: Seq<char>) -> Seq<
    (Seq<char>, ()),
> {
    match set {
        Some(texts) => put_absent::<String, ()>(texts, text, ()),
        None => seq![(text, ())],
    }
}

pub open spec fn add_property_edge_spec(st: BufferView, property: Seq<char>, edge: EdgeView) -> BufferView {
    BufferView { property_edges: put::<String, EdgeView>(st.property_edges, property, edge), ..st }
}

pub open spec fn add_property_domain_spec(
    st: BufferView,
    property: Seq<char>,
    domain: Seq<char>,
) -> BufferView {
    BufferView {
        property_domains: put::<String, Seq<(Seq<char>, ())>>(
            st.property_domains,
            property,
            with_text(lookup::<String, Seq<(Seq<char>, ())>>(st.property_domains, property), domain),
        ),
        ..st
    }
}

pub open spec fn add_property_range_spec(
    st: BufferView,
    property: Seq<char>,
    range: Seq<char>,
) -> BufferView {
    BufferView {
        property_ranges: put::<String, Seq<(Seq<char>, ())>>(
            st.property_ranges,
            property,
            with_text(lookup::<String, Seq<(Seq<char>, ())>>(st.property_ranges, property), range),
        ),
        ..st
    }
}

/// Drawing the edge of a property between the two ends of `t`, labelled
/// with the property's own label, and noting the pair.
pub open spec fn draw_property_spec(
    st: BufferView,
    reserved: Seq<(Seq<char>, ())>,
    t: TripleView,
) -> BufferView {
    let (st1, edge) = insert_edge_spec(
        st,
        reserved,
        t,
        owl_edge(OwlEdge::ObjectProperty),
        lookup::<Term, Seq<char>>(st.labels, t.element_type),
    );
    match (edge, t.target) {
        (Some(edge), Some(target)) => {
            let property = term_text(t.element_type);
            add_property_range_spec(
                add_property_domain_spec(
                    add_property_edge_spec(st1, property, edge),
                    property,
                    term_text(target),
                ),
                property,
                term_text(t.id),
            )
        },
        _ => st1,
    }
}

/// The row that declares a named node of its own making, where the texts
/// are IRIs.
pub open spec fn create_node_spec(
    id: Seq<char>,
    node_type: TermView,
    object: Option<Seq<char>>,
) -> Option<TripleView> {
    if !is_named_node_iri(id) {
        None
    } else {
        match object {
            Some(iri) => if is_named_node_iri(iri) {
                Some(
                    TripleView {
                        id: TermView::NamedNode(id),
                        element_type: node_type,
                        target: Some(TermView::NamedNode(iri)),
                    },
                )
            } else {
                None
            },
            None => Some(
                TripleView { id: TermView::NamedNode(id), element_type: node_type, target: None },
            ),
        }
    }
}

/// The kind of the node that stands in for a missing end, by the sentinel
/// that the row names as its target.
pub open spec fn placeholder_kind(target: TermView) -> Option<ElementType> {
    if target == TermView::NamedNode(OWL_THING@) {
        Some(owl_node(OwlNode::Thing))
    } else if target == TermView::NamedNode(RDFS_LITERAL@) {
        Some(rdfs_node(RdfsNode::Literal))
    } else {
        None
    }
}

/// The row of the node that stands in for a missing end: a thing named
/// after `thing_anchor`, or a literal named after `literal_anchor`.
pub open spec fn placeholder_spec(
    target: TermView,
    thing_anchor: TermView,
    literal_anchor: TermView,
) -> Option<TripleView> {
    if target == TermView::NamedNode(OWL_THING@) {
        create_node_spec(
            trimmed_tag(term_text(thing_anchor) + "_thing"@),
            TermView::NamedNode(OWL_THING@),
            None,
        )
    } else if target == TermView::NamedNode(RDFS_LITERAL@) {
        create_node_spec(
            trimmed_tag(term_text(literal_anchor) + "_literal"@),
            TermView::NamedNode(RDFS_LITERAL@),
            None,
        )
    } else {
        None
    }
}

pub open spec fn illegal_blank_reason(node_type: TermView) -> Seq<char> {
    "Illegal blank node during serialization: '"@ + term_text(node_type) + "'"@
}

pub open spec fn missing_object_reason() -> Seq<char> {
    "Subject of equivalence relation is missing an object"@
}

pub open spec fn object_not_found_reason() -> Seq<char> {
    "Failed to merge object of equivalence relation into subject: object not found"@
}

pub open spec fn literal_equivalence_reason() -> Seq<char> {
    "Visualization of equivalence relations between classes and literals is not supported"@
}

/// Replaying the rows that wait for `term`. They leave the table first, so
/// each is tried once. `budget` bounds how deep replays may nest; with the
/// number of waiting rows as budget no replay is ever cut short.
pub open spec fn check_unknown_spec(
    st: BufferView,
    reserved: Seq<(Seq<char>, ())>,
    term: TermView,
    budget: nat,
) -> BufferView
    decreases budget, 1nat, 0nat,
{
    match lookup::<Term, Seq<(TripleView, ())>>(st.unknown, term) {
        None => st,
        Some(rows) => {
            let st1 = BufferView {
                unknown: without::<Term, Seq<(TripleView, ())>>(st.unknown, term),
                ..st
            };
            if rows.len() == 0 || budget == 0 {
                st1
            } else {
                replay_spec(st1, reserved, rows, rows.len(), (budget - 1) as nat)
            }
        },
    }
}

/// The first `n` of `rows` written in order.
pub open spec fn replay_spec(
    st: BufferView,
    reserved: Seq<(Seq<char>, ())>,
    rows: Seq<(TripleView, ())>,
    n: nat,
    budget: nat,
) -> BufferView
    decreases budget, 6nat, n,
{
    if n == 0 {
        st
    } else {
        write_spec(
            replay_spec(st, reserved, rows, (n - 1) as nat, budget),
            reserved,
            rows[n - 1].0,
            budget,
        )
    }
}

/// Redirecting `old` to `new`, then replaying what waited for `old`.
pub open spec fn redirect_spec(
    st: BufferView,
    reserved: Seq<(Seq<char>, ())>,
    old: TermView,
    new: TermView,
    budget: nat,
) -> BufferView
    decreases budget, 2nat, 0nat,
{
    check_unknown_spec(
        BufferView { redirection: put::<Term, TermView>(st.redirection, old, new), ..st },
        reserved,
        old,
        budget,
    )
}

/// Merging node `old` into `new`: `old` leaves the nodes, its edges move,
/// and it is redirected.
pub open spec fn merge_nodes_spec(
    st: BufferView,
    reserved: Seq<(Seq<char>, ())>,
    old: TermView,
    new: TermView,
    budget: nat,
) -> BufferView
    decreases budget, 3nat, 0nat,
{
    redirect_spec(
        update_edges_spec(
            BufferView { nodes: without::<Term, ElementType>(st.nodes, old), ..st },
            old,
            new,
        ),
        reserved,
        old,
        new,
        budget,
    )
}

/// Inserting a node: nothing for a subject that was merged away; else the
/// first kind given to it stays, and what waited for it is replayed.
pub open spec fn insert_node_spec(
    st: BufferView,
    reserved: Seq<(Seq<char>, ())>,
    t: TripleView,
    kind: ElementType,
    budget: nat,
) -> BufferView
    decreases budget, 3nat, 0nat,
{
    if has_key::<Term, TermView>(st.redirection, t.id) {
        st
    } else {
        check_unknown_spec(
            BufferView { nodes: put_absent::<Term, ElementType>(st.nodes, t.id, kind), ..st },
            reserved,
            t.id,
            budget,
        )
    }
}

/// The label of `target` moved to the end of the label of `subject`.
pub open spec fn move_label_spec(st: BufferView, subject: TermView, target: TermView) -> BufferView {
    match lookup::<Term, Seq<char>>(st.labels, target) {
        Some(label) => extend_label_spec(
            BufferView { labels: without::<Term, Seq<char>>(st.labels, target), ..st },
            subject,
            label,
        ),
        None => st,
    }
}

/// A row that declares two classes equivalent.
pub open spec fn equivalent_spec(
    st: BufferView,
    reserved: Seq<(Seq<char>, ())>,
    t: TripleView,
    budget: nat,
) -> BufferView
    decreases budget, 4nat, 0nat,
{
    match t.target {
        None => fail(st, t, missing_object_reason()),
        Some(target) => match target {
            TermView::NamedNode(_) => {
                let st1 = move_label_spec(st, t.id, target);
                if has_key::<Term, ElementType>(st1.nodes, target) {
                    upgrade_spec(
                        merge_nodes_spec(st1, reserved, target, t.id, budget),
                        t.id,
                        owl_node(OwlNode::EquivalentClass),
                    )
                } else if has_key::<Term, Seq<(TripleView, ())>>(st1.unknown, target) {
                    upgrade_spec(
                        BufferView {
                            unknown: without::<Term, Seq<(TripleView, ())>>(st1.unknown, target),
                            ..st1
                        },
                        t.id,
                        owl_node(OwlNode::EquivalentClass),
                    )
                } else {
                    fail(st1, t, object_not_found_reason())
                }
            },
            TermView::BlankNode(_) => match (resolve_spec(st, t.id), resolve_spec(st, target)) {
                (Some(subject), Some(object)) => merge_nodes_spec(
                    st,
                    reserved,
                    object,
                    subject,
                    budget,
                ),
                (Some(subject), None) => redirect_spec(st, reserved, target, subject, budget),
                (None, _) => park(st, target, t),
            },
            TermView::Literal(_) => fail(st, t, literal_equivalence_reason()),
        },
    }
}

/// A row that gives a property with its two ends. With all of subject,
/// property and target resolved the edge is drawn. With one end missing
/// and a sentinel as target, a node of the row's own making stands in
/// for it. Otherwise the row waits, or is dropped where both ends are missing.
pub open spec fn property_row_spec(
    st: BufferView,
    reserved: Seq<(Seq<char>, ())>,
    t: TripleView,
    budget: nat,
) -> BufferView
    decreases budget, 4nat, 0nat,
{
    match t.target {
        None => st,
        Some(target) => {
            let subject = resolve_spec(st, t.id);
            let property = resolve_spec(st, t.element_type);
            let object = resolve_spec(st, target);
            match (subject, property, object) {
                (Some(_), Some(_), Some(_)) => draw_property_spec(st, reserved, t),
                (Some(s), Some(p), None) => match (
                    placeholder_spec(target, s, p),
                    placeholder_kind(target),
                ) {
                    (Some(node), Some(kind)) => draw_property_spec(
                        insert_node_spec(st, reserved, node, kind, budget),
                        reserved,
                        TripleView { target: Some(node.id), ..t },
                    ),
                    _ => park(st, target, t),
                },
                (None, Some(_), Some(o)) => match (
                    placeholder_spec(target, o, o),
                    placeholder_kind(target),
                ) {
                    (Some(node), Some(kind)) => draw_property_spec(
                        insert_node_spec(st, reserved, node, kind, budget),
                        reserved,
                        TripleView { id: node.id, ..t },
                    ),
                    _ => park(st, target, t),
                },
                (None, Some(_), None) => st,
                (Some(_), None, Some(_)) => park(st, t.element_type, t),
                _ => park(st, t.id, t),
            }
        },
    }
}

/// A link that is not drawn, and the subject raised where a target is given.
pub open spec fn operator_spec(
    st: BufferView,
    reserved: Seq<(Seq<char>, ())>,
    t: TripleView,
    kind: ElementType,
) -> BufferView {
    let st1 = insert_edge_spec(st, reserved, t, ElementType::NoDraw, None).0;
    match (t.target, resolve_spec(st1, t.id)) {
        (Some(_), Some(subject)) => upgrade_spec(st1, subject, kind),
        _ => st1,
    }
}

/// A link that is not drawn, and its subject raised where the link was made.
pub open spec fn linked_operator_spec(
    st: BufferView,
    reserved: Seq<(Seq<char>, ())>,
    t: TripleView,
    kind: ElementType,
) -> BufferView {
    let (st1, edge) = insert_edge_spec(st, reserved, t, ElementType::NoDraw, None);
    match edge {
        Some(edge) => upgrade_spec(st1, edge.subject, kind),
        None => st1,
    }
}

/// What one row makes of the state.
pub open spec fn write_spec(
    st: BufferView,
    reserved: Seq<(Seq<char>, ())>,
    t: TripleView,
    budget: nat,
) -> BufferView
    decreases budget, 5nat, 0nat,
{
    match row_action(t.element_type) {
        RowAction::IllegalBlank => fail(st, t, illegal_blank_reason(t.element_type)),
        RowAction::UnsupportedLiteral => st,
        RowAction::InsertNode(kind) => insert_node_spec(st, reserved, t, kind, budget),
        RowAction::InsertEdge(kind) => insert_edge_spec(st, reserved, t, kind, None).0,
        RowAction::Operator(kind) => operator_spec(st, reserved, t, kind),
        RowAction::LinkedOperator(kind) => linked_operator_spec(st, reserved, t, kind),
        RowAction::RegisterProperty(kind) => BufferView {
            edge_elements: put_absent::<Term, ElementType>(st.edge_elements, t.id, kind),
            ..st
        },
        RowAction::EquivalentClass => equivalent_spec(st, reserved, t, budget),
        RowAction::InverseFunctional => characteristic_spec(
            st,
            t,
            "InverseFunctionalProperty"@,
        ),
        RowAction::Ontology => ontology_spec(st, t),
        RowAction::Ignored => st,
        RowAction::PropertyRow => property_row_spec(st, reserved, t, budget),
    }
}

/// What one row makes of the state, with as much room for replays as rows
/// are waiting.
pub open spec fn write_row(st: BufferView, reserved: Seq<(Seq<char>, ())>, t: TripleView) -> BufferView {
    write_spec(st, reserved, t, parked(st.unknown))
}

/// The first `n` of `rows` written in order, each as a row of its own.
pub open spec fn write_rows(
    st: BufferView,
    reserved: Seq<(Seq<char>, ())>,
    rows: Seq<(TripleView, ())>,
    n: nat,
) -> BufferView
    decreases n,
{
    if n == 0 {
        st
    } else {
        write_row(write_rows(st, reserved, rows, (n - 1) as nat), reserved, rows[n - 1].0)
    }
}

/// The rows of the first `n` entries written in order.
pub open spec fn write_entries(
    st: BufferView,
    reserved: Seq<(Seq<char>, ())>,
    entries: Seq<(TermView, Seq<(TripleView, ())>)>,
    n: nat,
) -> BufferView
    decreases n,
{
    if n == 0 {
        st
    } else {
        write_rows(
            write_entries(st, reserved, entries, (n - 1) as nat),
            reserved,
            entries[n - 1].1,
            entries[n - 1].1.len(),
        )
    }
}

/// The last pass: every row that still waits is taken out and written once
/// more.
pub open spec fn check_all_spec(st: BufferView, reserved: Seq<(Seq<char>, ())>) -> BufferView {
    write_entries(
        BufferView { unknown: Seq::empty(), ..st },
        reserved,
        st.unknown,
        st.unknown.len(),
    )
}

pub proof fn lemma_parked_push(
    unknown: Seq<(TermView, Seq<(TripleView, ())>)>,
    entry: (TermView, Seq<(TripleView, ())>),
)
    ensures
        parked(unknown.push(entry)) == parked(unknown) + entry.1.len(),
{
    assert(unknown.push(entry).drop_last() =~= unknown);
}

pub proof fn lemma_parked_update(
    unknown: Seq<(TermView, Seq<(TripleView, ())>)>,
    i: int,
    entry: (TermView, Seq<(TripleView, ())>),
)
    requires
        0 <= i < unknown.len(),
    ensures
        parked(unknown.update(i, entry)) + unknown[i].1.len() == parked(unknown) + entry.1.len(),
    decreases unknown.len(),
{
    let updated = unknown.update(i, entry);
    if i == unknown.len() - 1 {
        assert(updated.drop_last() =~= unknown.drop_last());
    } else {
        assert(updated.drop_last() =~= unknown.drop_last().update(i, entry));
        lemma_parked_update(unknown.drop_last(), i, entry);
    }
}

pub proof fn lemma_parked_remove(unknown: Seq<(TermView, Seq<(TripleView, ())>)>, i: int)
    requires
        0 <= i < unknown.len(),
    ensures
        parked(unknown.remove(i)) + unknown[i].1.len() == parked(unknown),
    decreases unknown.len(),
{
    let removed = unknown.remove(i);
    if i == unknown.len() - 1 {
        assert(removed =~= unknown.drop_last());
    } else {
        assert(removed.drop_last() =~= unknown.drop_last().remove(i));
        assert(removed.last() == unknown.last());
        lemma_parked_remove(unknown.drop_last(), i);
    }
}

/// Taking the rows of one term out leaves that many fewer waiting.
pub proof fn lemma_parked_without(unknown: Seq<(TermView, Seq<(TripleView, ())>)>, term: TermView)
    ensures
        match lookup::<Term, Seq<(TripleView, ())>>(unknown, term) {
            Some(rows) => parked(without::<Term, Seq<(TripleView, ())>>(unknown, term))
                + rows.len() == parked(unknown),
            None => without::<Term, Seq<(TripleView, ())>>(unknown, term) == unknown,
        },
{
    if has_key::<Term, Seq<(TripleView, ())>>(unknown, term) {
        let i = index_of::<Term, Seq<(TripleView, ())>>(unknown, term);
        lemma_parked_remove(unknown, i);
    }
}

/// A row that is made to wait adds at most one to the rows that wait.
pub proof fn lemma_park_grows(st: BufferView, key: TermView, triple: TripleView)
    ensures
        parked(park(st, key, triple).unknown) <= parked(st.unknown) + 1,
{
    let rows = with_row(lookup::<Term, Seq<(TripleView, ())>>(st.unknown, key), triple);
    if has_key::<Term, Seq<(TripleView, ())>>(st.unknown, key) {
        let i = index_of::<Term, Seq<(TripleView, ())>>(st.unknown, key);
        lemma_parked_update(st.unknown, i, (st.unknown[i].0, rows));
    } else {
        lemma_parked_push(st.unknown, (key, rows));
    }
}

/// Noting the label of a row before the row is classified. A label that is
/// set stays. A label given with the row is taken as it is written, unless
/// it is empty; without one, the subject's own identifier gives it.
pub open spec fn extract_label_spec(
    st: BufferView,
    label: Option<TermView>,
    id: TermView,
) -> BufferView {
    if has_key::<Term, Seq<char>>(st.labels, id) {
        st
    } else {
        match label {
            Some(label) => if term_text(label).len() != 0 {
                BufferView { labels: put::<Term, Seq<char>>(st.labels, id, term_text(label)), ..st }
            } else {
                st
            },
            None => match crate::iri::inferred_label(id) {
                Some(text) => BufferView {
                    labels: put::<Term, Seq<char>>(st.labels, id, text),
                    ..st
                },
                None => st,
            },
        }
    }
}

/// One row of the query as it arrives: any of its four bindings may be
/// missing.
pub struct RowView {
    pub id: Option<TermView>,
    pub node_type: Option<TermView>,
    pub target: Option<TermView>,
    pub label: Option<TermView>,
}

/// What one arriving row makes of the state: nothing where it lacks its
/// subject or its discriminator; else its label is noted and it is written.
pub open spec fn take_row(st: BufferView, reserved: Seq<(Seq<char>, ())>, row: RowView) -> BufferView {
    match (row.id, row.node_type) {
        (Some(id), Some(node_type)) => write_row(
            extract_label_spec(st, row.label, id),
            reserved,
            TripleView { id, element_type: node_type, target: row.target },
        ),
        _ => st,
    }
}

/// The first `n` arriving rows taken in order.
pub open spec fn take_rows(
    st: BufferView,
    reserved: Seq<(Seq<char>, ())>,
    rows: Seq<RowView>,
    n: nat,
) -> BufferView
    decreases n,
{
    if n == 0 {
        st
    } else {
        take_row(take_rows(st, reserved, rows, (n - 1) as nat), reserved, rows[n - 1])
    }
}

/// The state at the end of a run: every row taken in order from the empty
/// state, then the last pass.
pub open spec fn run_spec(reserved: Seq<(Seq<char>, ())>, rows: Seq<RowView>) -> BufferView {
    check_all_spec(take_rows(empty_buffer(), reserved, rows, rows.len()), reserved)
}

/// One failed row as a line of the report.
pub open spec fn failure_line(entry: (Option<TripleView>, Seq<char>)) -> Seq<char> {
    match entry.0 {
        Some(triple) => "\t"@ + triple_text(triple) + " : "@ + entry.1 + "\n"@,
        None => "\tNO TRIPLE : "@ + entry.1 + "\n"@,
    }
}

/// The opening bracket and the lines of the first `n` failed rows.
pub open spec fn failure_lines(failed: Seq<(Option<TripleView>, Seq<char>)>, n: nat) -> Seq<char>
    decreases n,
{
    if n == 0 {
        "[\n"@
    } else {
        failure_lines(failed, (n - 1) as nat) + failure_line(failed[n - 1])
    }
}

/// The message of a run that failed: how many rows failed, and each of
/// them with its reason.
pub open spec fn failure_report(failed: Seq<(Option<TripleView>, Seq<char>)>) -> Seq<char> {
    "Serialization failed ("@ + crate::text::decimal_text(failed.len()) + " errors): "@
        + failure_lines(failed, failed.len()) + "]"@
}

/// A row whose discriminator is a blank node is noted as failed, with the
/// blank node named in the reason, and changes nothing else: no node, no
/// edge, no label, no waiting row.
pub proof fn lemma_blank_discriminator_fails(
    st: BufferView,
    reserved: Seq<(Seq<char>, ())>,
    t: TripleView,
)
    requires
        t.element_type is BlankNode,
    ensures
        write_row(st, reserved, t) == (BufferView {
            failed: st.failed.push((Some(t), illegal_blank_reason(t.element_type))),
            ..st
        }),
{
}

/// A row whose discriminator is the mark of an anonymous class makes its
/// subject a node of that kind and changes nothing else, provided that the
/// subject was not merged away, has no other kind yet, and no row waits
/// for it.
pub proof fn lemma_anonymous_class_row(st: BufferView, reserved: Seq<(Seq<char>, ())>, t: TripleView)
    requires
        t.element_type is Literal,
        t.element_type->Literal_0.value == crate::vocab::BLANK_NODE_MARK@,
        !has_key::<Term, TermView>(st.redirection, t.id),
        !has_key::<Term, Seq<(TripleView, ())>>(st.unknown, t.id),
        lookup::<Term, ElementType>(st.nodes, t.id) is None || lookup::<Term, ElementType>(
            st.nodes,
            t.id,
        ) == Some(owl_node(OwlNode::AnonymousClass)),
    ensures
        write_row(st, reserved, t) == (BufferView {
            nodes: put_absent::<Term, ElementType>(
                st.nodes,
                t.id,
                owl_node(OwlNode::AnonymousClass),
            ),
            ..st
        }),
        lookup::<Term, ElementType>(write_row(st, reserved, t).nodes, t.id) == Some(
            owl_node(OwlNode::AnonymousClass),
        ),
{
    let kind = owl_node(OwlNode::AnonymousClass);
    let nodes = put_absent::<Term, ElementType>(st.nodes, t.id, kind);
    if !has_key::<Term, ElementType>(st.nodes, t.id) {
        crate::table::lemma_absent_everywhere::<Term, ElementType>(st.nodes, t.id);
        assert(crate::table::first_match::<Term, ElementType>(nodes, t.id, st.nodes.len() as int));
        crate::table::lemma_first_match_unique::<Term, ElementType>(
            nodes,
            t.id,
            st.nodes.len() as int,
        );
    }
}

/// A row that declares the ontology sets the base of the document where none
/// is set, to the subject's text without its angle brackets, and changes
/// nothing else. Where a base is set, the row changes nothing at all.
pub proof fn lemma_ontology_row(st: BufferView, reserved: Seq<(Seq<char>, ())>, t: TripleView)
    requires
        t.element_type == TermView::NamedNode(crate::vocab::OWL_ONTOLOGY@),
    ensures
        st.document_base is Some ==> write_row(st, reserved, t) == st,
        st.document_base is None ==> write_row(st, reserved, t) == (BufferView {
            document_base: Some(trimmed_tag(term_text(t.id))),
            ..st
        }),
{
    crate::vocab::lemma_dispatch_table();
}

/// Once a row has declared the ontology, a second such row never changes
/// the base, whatever its subject.
pub proof fn lemma_document_base_is_set_once(
    st: BufferView,
    reserved: Seq<(Seq<char>, ())>,
    first: TripleView,
    second: TripleView,
)
    requires
        first.element_type == TermView::NamedNode(crate::vocab::OWL_ONTOLOGY@),
        second.element_type == TermView::NamedNode(crate::vocab::OWL_ONTOLOGY@),
    ensures
        write_row(st, reserved, first).document_base is Some,
        write_row(write_row(st, reserved, first), reserved, second) == write_row(
            st,
            reserved,
            first,
        ),
{
    lemma_ontology_row(st, reserved, first);
    lemma_ontology_row(write_row(st, reserved, first), reserved, second);
}

} // verus!
