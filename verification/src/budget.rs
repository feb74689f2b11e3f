//! Why the number of waiting rows is room enough for every replay: a replay
//! takes rows out of the table before it writes them again, so nested
//! replays always find fewer rows waiting than the one that started them.

use crate::edge::EdgeView;
use crate::element::ElementType;
use crate::model::{
    check_unknown_spec, draw_property_spec, equivalent_spec, insert_edge_spec, insert_node_spec,
    lemma_park_grows, lemma_parked_without, merge_nodes_spec, move_label_spec, parked,
    placeholder_kind, placeholder_spec, property_row_spec, redirect_spec, replay_spec,
    resolve_spec, retarget_all, update_edges_spec, write_row, write_spec, BufferView,
};
use crate::table::{has_key, lookup, without};
use crate::term::{Term, TermView};
use crate::triple::TripleView;
use crate::vocab::{row_action, RowAction};
use vstd::prelude::*;

verus! {

/// Moving edges leaves the waiting rows alone.
pub proof fn lemma_retarget_keeps_unknown(
    st: BufferView,
    edges: Seq<(EdgeView, ())>,
    old_iri: TermView,
    new_iri: TermView,
    n: int,
)
    ensures
        retarget_all(st, edges, old_iri, new_iri, n).unknown == st.unknown,
    decreases n,
{
    if n > 0 {
        lemma_retarget_keeps_unknown(st, edges, old_iri, new_iri, n - 1);
    }
}

/// Inserting an edge makes at most one row wait.
pub proof fn lemma_insert_edge_parks_once(
    st: BufferView,
    reserved: Seq<(Seq<char>, ())>,
    t: TripleView,
    kind: ElementType,
    label: Option<Seq<char>>,
)
    ensures
        parked(insert_edge_spec(st, reserved, t, kind, label).0.unknown) <= parked(st.unknown) + 1,
{
    lemma_park_grows(st, t.id, t);
    if t.target is Some {
        lemma_park_grows(st, t.target->Some_0, t);
    }
}

/// Drawing a property makes at most one row wait.
pub proof fn lemma_draw_property_parks_once(
    st: BufferView,
    reserved: Seq<(Seq<char>, ())>,
    t: TripleView,
)
    ensures
        parked(draw_property_spec(st, reserved, t).unknown) <= parked(st.unknown) + 1,
{
    lemma_insert_edge_parks_once(
        st,
        reserved,
        t,
        crate::vocab::owl_edge(crate::element::OwlEdge::ObjectProperty),
        lookup::<Term, Seq<char>>(st.labels, t.element_type),
    );
}

/// With room for every waiting row, replaying the rows of a term comes out
/// the same whatever the room, and leaves no more rows waiting than before.
pub proof fn lemma_check_unknown_room(
    st: BufferView,
    reserved: Seq<(Seq<char>, ())>,
    term: TermView,
    a: nat,
    b: nat,
)
    requires
        parked(st.unknown) <= a,
        parked(st.unknown) <= b,
    ensures
        check_unknown_spec(st, reserved, term, a) == check_unknown_spec(st, reserved, term, b),
        parked(check_unknown_spec(st, reserved, term, a).unknown) <= parked(st.unknown),
    decreases a, 1nat, 0nat,
{
    lemma_parked_without(st.unknown, term);
    match lookup::<Term, Seq<(TripleView, ())>>(st.unknown, term) {
        None => {},
        Some(rows) => {
            let st1 = BufferView {
                unknown: without::<Term, Seq<(TripleView, ())>>(st.unknown, term),
                ..st
            };
            if rows.len() > 0 {
                lemma_replay_room(st1, reserved, rows, rows.len(), (a - 1) as nat, (b - 1) as nat);
            }
        },
    }
}

pub proof fn lemma_replay_room(
    st: BufferView,
    reserved: Seq<(Seq<char>, ())>,
    rows: Seq<(TripleView, ())>,
    n: nat,
    a: nat,
    b: nat,
)
    requires
        n <= rows.len(),
        parked(st.unknown) + n <= a + 1,
        parked(st.unknown) + n <= b + 1,
    ensures
        replay_spec(st, reserved, rows, n, a) == replay_spec(st, reserved, rows, n, b),
        parked(replay_spec(st, reserved, rows, n, a).unknown) <= parked(st.unknown) + n,
    decreases a, 6nat, n,
{
    if n > 0 {
        lemma_replay_room(st, reserved, rows, (n - 1) as nat, a, b);
        let mid = replay_spec(st, reserved, rows, (n - 1) as nat, a);
        lemma_write_room(mid, reserved, rows[n - 1].0, a, b);
    }
}

pub proof fn lemma_redirect_room(
    st: BufferView,
    reserved: Seq<(Seq<char>, ())>,
    old_iri: TermView,
    new_iri: TermView,
    a: nat,
    b: nat,
)
    requires
        parked(st.unknown) <= a,
        parked(st.unknown) <= b,
    ensures
        redirect_spec(st, reserved, old_iri, new_iri, a) == redirect_spec(
            st,
            reserved,
            old_iri,
            new_iri,
            b,
        ),
        parked(redirect_spec(st, reserved, old_iri, new_iri, a).unknown) <= parked(st.unknown),
    decreases a, 2nat, 0nat,
{
    lemma_check_unknown_room(
        BufferView {
            redirection: crate::table::put::<Term, TermView>(st.redirection, old_iri, new_iri),
            ..st
        },
        reserved,
        old_iri,
        a,
        b,
    );
}

pub proof fn lemma_merge_room(
    st: BufferView,
    reserved: Seq<(Seq<char>, ())>,
    old_iri: TermView,
    new_iri: TermView,
    a: nat,
    b: nat,
)
    requires
        parked(st.unknown) <= a,
        parked(st.unknown) <= b,
    ensures
        merge_nodes_spec(st, reserved, old_iri, new_iri, a) == merge_nodes_spec(
            st,
            reserved,
            old_iri,
            new_iri,
            b,
        ),
        parked(merge_nodes_spec(st, reserved, old_iri, new_iri, a).unknown) <= parked(st.unknown),
    decreases a, 3nat, 0nat,
{
    let st1 = BufferView { nodes: without::<Term, ElementType>(st.nodes, old_iri), ..st };
    match lookup::<Term, Seq<(EdgeView, ())>>(st1.edges_include, old_iri) {
        Some(edges) => {
            lemma_retarget_keeps_unknown(
                BufferView {
                    edges_include: without::<Term, Seq<(EdgeView, ())>>(
                        st1.edges_include,
                        old_iri,
                    ),
                    ..st1
                },
                edges,
                old_iri,
                new_iri,
                edges.len() as int,
            );
        },
        None => {},
    }
    lemma_redirect_room(update_edges_spec(st1, old_iri, new_iri), reserved, old_iri, new_iri, a, b);
}

pub proof fn lemma_insert_node_room(
    st: BufferView,
    reserved: Seq<(Seq<char>, ())>,
    t: TripleView,
    kind: ElementType,
    a: nat,
    b: nat,
)
    requires
        parked(st.unknown) <= a,
        parked(st.unknown) <= b,
    ensures
        insert_node_spec(st, reserved, t, kind, a) == insert_node_spec(st, reserved, t, kind, b),
        parked(insert_node_spec(st, reserved, t, kind, a).unknown) <= parked(st.unknown),
    decreases a, 3nat, 0nat,
{
    if !has_key::<Term, TermView>(st.redirection, t.id) {
        lemma_check_unknown_room(
            BufferView {
                nodes: crate::table::put_absent::<Term, ElementType>(st.nodes, t.id, kind),
                ..st
            },
            reserved,
            t.id,
            a,
            b,
        );
    }
}

pub proof fn lemma_equivalent_room(
    st: BufferView,
    reserved: Seq<(Seq<char>, ())>,
    t: TripleView,
    a: nat,
    b: nat,
)
    requires
        parked(st.unknown) <= a,
        parked(st.unknown) <= b,
    ensures
        equivalent_spec(st, reserved, t, a) == equivalent_spec(st, reserved, t, b),
        parked(equivalent_spec(st, reserved, t, a).unknown) <= parked(st.unknown) + 1,
    decreases a, 4nat, 0nat,
{
    match t.target {
        None => {},
        Some(target) => match target {
            TermView::NamedNode(_) => {
                let st1 = move_label_spec(st, t.id, target);
                assert(st1.unknown == st.unknown);
                if has_key::<Term, ElementType>(st1.nodes, target) {
                    lemma_merge_room(st1, reserved, target, t.id, a, b);
                } else {
                    lemma_parked_without(st1.unknown, target);
                }
            },
            TermView::BlankNode(_) => match (resolve_spec(st, t.id), resolve_spec(st, target)) {
                (Some(subject), Some(object)) => {
                    lemma_merge_room(st, reserved, object, subject, a, b);
                },
                (Some(subject), None) => {
                    lemma_redirect_room(st, reserved, target, subject, a, b);
                },
                (None, _) => {
                    lemma_park_grows(st, target, t);
                },
            },
            TermView::Literal(_) => {},
        },
    }
}

pub proof fn lemma_property_row_room(
    st: BufferView,
    reserved: Seq<(Seq<char>, ())>,
    t: TripleView,
    a: nat,
    b: nat,
)
    requires
        parked(st.unknown) <= a,
        parked(st.unknown) <= b,
    ensures
        property_row_spec(st, reserved, t, a) == property_row_spec(st, reserved, t, b),
        parked(property_row_spec(st, reserved, t, a).unknown) <= parked(st.unknown) + 1,
    decreases a, 4nat, 0nat,
{
    match t.target {
        None => {},
        Some(target) => {
            let subject = resolve_spec(st, t.id);
            let property = resolve_spec(st, t.element_type);
            let object = resolve_spec(st, target);
            lemma_park_grows(st, target, t);
            lemma_park_grows(st, t.element_type, t);
            lemma_park_grows(st, t.id, t);
            match (subject, property, object) {
                (Some(_), Some(_), Some(_)) => {
                    lemma_draw_property_parks_once(st, reserved, t);
                },
                (Some(s), Some(p), None) => match (
                    placeholder_spec(target, s, p),
                    placeholder_kind(target),
                ) {
                    (Some(node), Some(kind)) => {
                        lemma_insert_node_room(st, reserved, node, kind, a, b);
                        lemma_draw_property_parks_once(
                            insert_node_spec(st, reserved, node, kind, a),
                            reserved,
                            TripleView { target: Some(node.id), ..t },
                        );
                    },
                    _ => {},
                },
                (None, Some(_), Some(o)) => match (
                    placeholder_spec(target, o, o),
                    placeholder_kind(target),
                ) {
                    (Some(node), Some(kind)) => {
                        lemma_insert_node_room(st, reserved, node, kind, a, b);
                        lemma_draw_property_parks_once(
                            insert_node_spec(st, reserved, node, kind, a),
                            reserved,
                            TripleView { id: node.id, ..t },
                        );
                    },
                    _ => {},
                },
                _ => {},
            }
        },
    }
}

pub proof fn lemma_write_room(
    st: BufferView,
    reserved: Seq<(Seq<char>, ())>,
    t: TripleView,
    a: nat,
    b: nat,
)
    requires
        parked(st.unknown) <= a,
        parked(st.unknown) <= b,
    ensures
        write_spec(st, reserved, t, a) == write_spec(st, reserved, t, b),
        parked(write_spec(st, reserved, t, a).unknown) <= parked(st.unknown) + 1,
    decreases a, 5nat, 0nat,
{
    match row_action(t.element_type) {
        RowAction::InsertNode(kind) => {
            lemma_insert_node_room(st, reserved, t, kind, a, b);
        },
        RowAction::InsertEdge(kind) => {
            lemma_insert_edge_parks_once(st, reserved, t, kind, None);
        },
        RowAction::Operator(kind) => {
            lemma_insert_edge_parks_once(st, reserved, t, ElementType::NoDraw, None);
        },
        RowAction::LinkedOperator(kind) => {
            lemma_insert_edge_parks_once(st, reserved, t, ElementType::NoDraw, None);
        },
        RowAction::EquivalentClass => {
            lemma_equivalent_room(st, reserved, t, a, b);
        },
        RowAction::InverseFunctional => {
            lemma_park_grows(st, t.id, t);
        },
        RowAction::PropertyRow => {
            lemma_property_row_room(st, reserved, t, a, b);
        },
        _ => {},
    }
}

/// The number of waiting rows is room enough: with that much or more, a row
/// makes the same of the state.
pub proof fn lemma_room_is_enough(
    st: BufferView,
    reserved: Seq<(Seq<char>, ())>,
    t: TripleView,
    budget: nat,
)
    requires
        parked(st.unknown) <= budget,
    ensures
        write_spec(st, reserved, t, budget) == write_row(st, reserved, t),
        parked(write_row(st, reserved, t).unknown) <= parked(st.unknown) + 1,
{
    lemma_write_room(st, reserved, t, budget, parked(st.unknown));
    lemma_write_room(st, reserved, t, parked(st.unknown), parked(st.unknown));
}

} // verus!
