//! The graph model that a renderer takes, and how it is made from the
//! working state.

use crate::buffer::SerializationDataBuffer;
use crate::edge::{Edge, EdgeView};
use crate::element::{element_name, ElementType};
use crate::model::{text_or, BufferView};
use crate::table::{
    has_key, index_of, lemma_first_match_unique, lookup, put, Keyed, Modeled, Table,
};
use crate::term::{Term, TermView};
use crate::text::{debug_quoted, decimal, decimal_text, quote_for_debug};
use vstd::prelude::*;
use vstd::string::*;

verus! {

impl Modeled for usize {
    type Model = usize;

    open spec fn model(&self) -> usize {
        *self
    }
}

impl Keyed for usize {
    open spec fn same(a: usize, b: usize) -> bool {
        a == b
    }

    fn matches(&self, other: &Self) -> (out: bool) {
        *self == *other
    }
}

/// The graph as a renderer takes it. Element `i` carries label `i`. An edge
/// names three places among the elements: its subject, itself, its object.
pub struct GraphDisplayData {
    pub elements: Vec<ElementType>,
    pub labels: Vec<String>,
    pub edges: Vec<[usize; 3]>,
    /// The traits of an element, joined line by line, by the element's place.
    pub characteristics: Table<usize, String>,
    /// Kept for cardinalities; nothing fills it.
    pub cardinalities: Table<usize, String>,
}

pub struct DisplayView {
    pub elements: Seq<ElementType>,
    pub labels: Seq<Seq<char>>,
    pub edges: Seq<(int, int, int)>,
    pub characteristics: Seq<(usize, Seq<char>)>,
    pub cardinalities: Seq<(usize, Seq<char>)>,
}

impl View for GraphDisplayData {
    type V = DisplayView;

    open spec fn view(&self) -> DisplayView {
        DisplayView {
            elements: self.elements@,
            labels: self.labels.model(),
            edges: Seq::new(
                self.edges@.len(),
                |i: int|
                    (
                        self.edges@[i]@[0] as int,
                        self.edges@[i]@[1] as int,
                        self.edges@[i]@[2] as int,
                    ),
            ),
            characteristics: self.characteristics@,
            cardinalities: self.cardinalities@,
        }
    }
}

pub open spec fn empty_display() -> DisplayView {
    DisplayView {
        elements: Seq::empty(),
        labels: Seq::empty(),
        edges: Seq::empty(),
        characteristics: Seq::empty(),
        cardinalities: Seq::empty(),
    }
}

/// Every label has its element, and every edge names places that exist.
pub open spec fn well_formed(d: DisplayView) -> bool {
    &&& d.elements.len() == d.labels.len()
    &&& forall|k: int|
        0 <= k < d.edges.len() ==> {
            &&& 0 <= (#[trigger] d.edges[k]).0 < d.elements.len()
            &&& 0 <= d.edges[k].1 < d.elements.len()
            &&& 0 <= d.edges[k].2 < d.elements.len()
        }
}

/// The label of the node at place `i`: its own, or the name of its kind.
pub open spec fn node_label(st: BufferView, i: int) -> Seq<char> {
    text_or(lookup::<Term, Seq<char>>(st.labels, st.nodes[i].0), element_name(st.nodes[i].1))
}

/// The first `n` nodes as elements, in the order they entered the state.
pub open spec fn display_nodes(st: BufferView, n: int) -> DisplayView {
    DisplayView {
        elements: Seq::new(n as nat, |i: int| st.nodes[i].1),
        labels: Seq::new(n as nat, |i: int| node_label(st, i)),
        ..empty_display()
    }
}

/// The place of a node among the elements.
pub open spec fn place_of(st: BufferView, term: TermView) -> Option<int> {
    if has_key::<Term, ElementType>(st.nodes, term) {
        Some(index_of::<Term, ElementType>(st.nodes, term))
    } else {
        None
    }
}

/// One edge added to the graph: an element of its own and the three places,
/// but only where both its ends are nodes and it has a label.
pub open spec fn display_edge(d: DisplayView, st: BufferView, edge: EdgeView) -> DisplayView {
    match (
        place_of(st, edge.subject),
        place_of(st, edge.object),
        lookup::<Edge, Seq<char>>(st.edge_labels, edge),
    ) {
        (Some(subject), Some(object), Some(label)) => DisplayView {
            elements: d.elements.push(edge.element_type),
            labels: d.labels.push(label),
            edges: d.edges.push((subject, d.elements.len() as int, object)),
            ..d
        },
        _ => d,
    }
}

pub open spec fn display_edges(d: DisplayView, st: BufferView, n: nat) -> DisplayView
    decreases n,
{
    if n == 0 {
        d
    } else {
        display_edge(display_edges(d, st, (n - 1) as nat), st, st.edges[n - 1].0)
    }
}

/// The first `n` of `names`, one to a line.
pub open spec fn joined(names: Seq<Seq<char>>, n: nat) -> Seq<char>
    decreases n,
{
    if n == 0 {
        Seq::empty()
    } else if n == 1 {
        names[0]
    } else {
        joined(names, (n - 1) as nat) + seq!['\n'] + names[n - 1]
    }
}

/// The traits of one node attached to its place, where it has one.
pub open spec fn display_characteristic(
    d: DisplayView,
    st: BufferView,
    entry: (TermView, Seq<Seq<char>>),
) -> DisplayView {
    match place_of(st, entry.0) {
        Some(place) => DisplayView {
            characteristics: put::<usize, Seq<char>>(
                d.characteristics,
                place as usize,
                joined(entry.1, entry.1.len()),
            ),
            ..d
        },
        None => d,
    }
}

pub open spec fn display_characteristics(d: DisplayView, st: BufferView, n: nat) -> DisplayView
    decreases n,
{
    if n == 0 {
        d
    } else {
        display_characteristic(
            display_characteristics(d, st, (n - 1) as nat),
            st,
            st.node_characteristics[n - 1],
        )
    }
}

/// The graph that a state gives: its nodes, then its edges, then the traits
/// of its nodes.
pub open spec fn display_of(st: BufferView) -> DisplayView {
    display_characteristics(
        display_edges(display_nodes(st, st.nodes.len() as int), st, st.edges.len()),
        st,
        st.node_characteristics.len(),
    )
}

/// Joins names, one to a line.
pub fn join_lines(names: &Vec<String>) -> (out: String)
    ensures
        out@ == joined(names.model(), names@.len()),
{
    let mut out = String::new();
    let mut i: usize = 0;
    while i < names.len()
        invariant
            i <= names@.len(),
            out@ == joined(names.model(), i as nat),
        decreases names@.len() - i,
    {
        if i > 0 {
            proof {
                reveal_strlit("\n");
                assert("\n"@ =~= seq!['\n']);
            }
            out.append("\n");
        } else {
            assert(Seq::<char>::empty() + names@[0]@ =~= names@[0]@);
        }
        out.append(names[i].as_str());
        i += 1;
    }
    out
}

impl GraphDisplayData {
    pub fn new() -> (out: Self)
        ensures
            out@ == empty_display(),
    {
        let out = GraphDisplayData {
            elements: Vec::new(),
            labels: Vec::new(),
            edges: Vec::new(),
            characteristics: Table::new(),
            cardinalities: Table::new(),
        };
        assert(out@.labels =~= Seq::empty());
        assert(out@.edges =~= Seq::empty());
        out
    }

    /// Whether every label has its element and every edge names places
    /// that exist.
    pub fn is_well_formed(&self) -> (out: bool)
        ensures
            out == well_formed(self@),
    {
        if self.elements.len() != self.labels.len() {
            assert(self@.labels.len() == self.labels@.len());
            return false;
        }
        let count = self.elements.len();
        let mut k: usize = 0;
        while k < self.edges.len()
            invariant
                k <= self.edges@.len(),
                count == self@.elements.len(),
                self@.elements.len() == self@.labels.len(),
                forall|j: int|
                    0 <= j < k ==> {
                        &&& 0 <= (#[trigger] self@.edges[j]).0 < count
                        &&& 0 <= self@.edges[j].1 < count
                        &&& 0 <= self@.edges[j].2 < count
                    },
            decreases self.edges@.len() - k,
        {
            let edge = &self.edges[k];
            let inside = edge[0] < count && edge[1] < count && edge[2] < count;
            assert(self@.edges[k as int] == (edge@[0] as int, edge@[1] as int, edge@[2] as int));
            if !inside {
                return false;
            }
            k += 1;
        }
        true
    }

    /// Makes the graph from the state of a finished run.
    pub fn from_buffer(val: SerializationDataBuffer) -> (out: GraphDisplayData)
        ensures
            out@ == display_of(val@),
            well_formed(out@),
    {
        let mut display_data = GraphDisplayData::new();
        let ghost st = val@;
        let nodes = val.node_element_buffer.len();
        let mut i: usize = 0;
        assert(display_nodes(st, 0).elements =~= Seq::empty());
        assert(display_nodes(st, 0).labels =~= Seq::empty());
        while i < nodes
            invariant
                i <= nodes,
                nodes == st.nodes.len(),
                st == val@,
                display_data@ == display_nodes(st, i as int),
            decreases nodes - i,
        {
            let (iri, element) = val.node_element_buffer.entry(i);
            let label = match val.label_buffer.get(iri) {
                Some(label) => label.clone(),
                None => String::from_str(element.name()),
            };
            let ghost before = display_data@;
            display_data.labels.push(label);
            display_data.elements.push(*element);
            assert(display_data@.labels =~= before.labels.push(node_label(st, i as int)));
            assert(display_data@.labels =~= display_nodes(st, i + 1).labels);
            assert(display_data@.elements =~= display_nodes(st, i + 1).elements);
            assert(display_data@.edges =~= before.edges);
            i += 1;
        }
        let edges = val.edge_buffer.len();
        let ghost base = display_data@;
        let mut j: usize = 0;
        while j < edges
            invariant
                j <= edges,
                edges == st.edges.len(),
                st == val@,
                base == display_nodes(st, st.nodes.len() as int),
                display_data@ == display_edges(base, st, j as nat),
                well_formed(display_data@),
                display_data@.elements.len() >= st.nodes.len(),
            decreases edges - j,
        {
            let (edge, _) = val.edge_buffer.entry(j);
            let subject_idx = val.node_element_buffer.find(&edge.subject);
            let object_idx = val.node_element_buffer.find(&edge.object);
            let maybe_label = match val.edge_label_buffer.get(edge) {
                Some(label) => Some(label.clone()),
                None => None,
            };
            match (subject_idx, object_idx, maybe_label) {
                (Some(subject_idx), Some(object_idx), Some(label)) => {
                    proof {
                        lemma_first_match_unique::<Term, ElementType>(
                            st.nodes,
                            edge@.subject,
                            subject_idx as int,
                        );
                        lemma_first_match_unique::<Term, ElementType>(
                            st.nodes,
                            edge@.object,
                            object_idx as int,
                        );
                    }
                    let ghost before = display_data@;
                    let place = display_data.elements.len();
                    display_data.elements.push(edge.element_type);
                    display_data.labels.push(label);
                    display_data.edges.push([subject_idx, place, object_idx]);
                    assert(display_data@.labels =~= before.labels.push(label@));
                    assert(display_data@.edges =~= before.edges.push(
                        (subject_idx as int, place as int, object_idx as int),
                    ));
                },
                _ => {},
            }
            j += 1;
        }
        let traits = val.node_characteristics.len();
        let ghost drawn = display_data@;
        let mut k: usize = 0;
        while k < traits
            invariant
                k <= traits,
                traits == st.node_characteristics.len(),
                st == val@,
                drawn == display_edges(
                    display_nodes(st, st.nodes.len() as int),
                    st,
                    st.edges.len(),
                ),
                display_data@ == display_characteristics(drawn, st, k as nat),
                well_formed(display_data@),
            decreases traits - k,
        {
            let (iri, names) = val.node_characteristics.entry(k);
            match val.node_element_buffer.find(iri) {
                Some(idx) => {
                    proof {
                        lemma_first_match_unique::<Term, ElementType>(st.nodes, iri@, idx as int);
                    }
                    let ghost before = display_data@;
                    display_data.characteristics.insert(idx, join_lines(names));
                    assert(display_data@.labels =~= before.labels);
                    assert(display_data@.edges =~= before.edges);
                },
                None => {},
            }
            k += 1;
        }
        display_data
    }
}

pub open spec fn element_line(d: DisplayView, i: int) -> Seq<char> {
    decimal_text(i as nat) + ": "@ + element_name(d.elements[i]) + " -> "@ + d.labels[i] + "\n"@
}

pub open spec fn element_lines(d: DisplayView, n: nat) -> Seq<char>
    decreases n,
{
    if n == 0 {
        Seq::empty()
    } else {
        element_lines(d, (n - 1) as nat) + element_line(d, n - 1)
    }
}

pub open spec fn edge_line(d: DisplayView, edge: (int, int, int)) -> Seq<char> {
    d.labels[edge.0] + " -> "@ + element_name(d.elements[edge.1]) + " -> "@ + d.labels[edge.2]
        + "\n"@
}

pub open spec fn edge_lines(d: DisplayView, n: nat) -> Seq<char>
    decreases n,
{
    if n == 0 {
        Seq::empty()
    } else {
        edge_lines(d, (n - 1) as nat) + edge_line(d, d.edges[n - 1])
    }
}

pub open spec fn note_line(entry: (usize, Seq<char>)) -> Seq<char> {
    decimal_text(entry.0 as nat) + " -> "@ + debug_quoted(entry.1) + "\n"@
}

pub open spec fn note_lines(notes: Seq<(usize, Seq<char>)>, n: nat) -> Seq<char>
    decreases n,
{
    if n == 0 {
        Seq::empty()
    } else {
        note_lines(notes, (n - 1) as nat) + note_line(notes[n - 1])
    }
}

/// The graph as the diagnostic driver writes it: its elements with their
/// labels, its edges by the labels of their ends, then what is noted of
/// single elements.
pub open spec fn display_text(d: DisplayView) -> Seq<char> {
    "--- Elements ---\n"@ + element_lines(d, d.elements.len()) + "--- Edges ---\n"@ + edge_lines(
        d,
        d.edges.len(),
    ) + "--- Characteristics ---\n"@ + note_lines(d.characteristics, d.characteristics.len())
        + "--- Cardinalities ---\n"@ + note_lines(d.cardinalities, d.cardinalities.len())
}

fn write_notes(out: &mut String, notes: &Table<usize, String>)
    ensures
        final(out)@ == old(out)@ + note_lines(notes@, notes@.len()),
{
    let count = notes.len();
    let mut i: usize = 0;
    assert(out@ + Seq::<char>::empty() =~= out@);
    while i < count
        invariant
            i <= count,
            count == notes@.len(),
            out@ == old(out)@ + note_lines(notes@, i as nat),
        decreases count - i,
    {
        let (place, note) = notes.entry(i);
        let written = decimal(*place);
        out.append(written.as_str());
        out.append(" -> ");
        let quoted = quote_for_debug(note.as_str());
        out.append(quoted.as_str());
        out.append("\n");
        assert(out@ =~= old(out)@ + (note_lines(notes@, i as nat) + note_line(notes@[i as int])));
        i += 1;
    }
}

/// Writes a graph out for reading. The graph must be well formed: a graph
/// made by `from_buffer` is.
pub fn print_graph_display_data(data_buffer: &GraphDisplayData) -> (out: String)
    requires
        well_formed(data_buffer@),
    ensures
        out@ == display_text(data_buffer@),
{
    let ghost d = data_buffer@;
    let mut out = String::from_str("--- Elements ---\n");
    let ghost head = out@;
    let count = data_buffer.elements.len();
    let mut i: usize = 0;
    assert(out@ + Seq::<char>::empty() =~= out@);
    while i < count
        invariant
            i <= count,
            count == d.elements.len(),
            d == data_buffer@,
            well_formed(d),
            out@ == head + element_lines(d, i as nat),
        decreases count - i,
    {
        let written = decimal(i);
        out.append(written.as_str());
        out.append(": ");
        out.append(data_buffer.elements[i].name());
        out.append(" -> ");
        assert(d.labels[i as int] == data_buffer.labels@[i as int]@);
        out.append(data_buffer.labels[i].as_str());
        out.append("\n");
        assert(out@ =~= head + (element_lines(d, i as nat) + element_line(d, i as int)));
        i += 1;
    }
    out.append("--- Edges ---\n");
    let ghost head = out@;
    let count = data_buffer.edges.len();
    let mut j: usize = 0;
    assert(out@ + Seq::<char>::empty() =~= out@);
    while j < count
        invariant
            j <= count,
            count == d.edges.len(),
            d == data_buffer@,
            well_formed(d),
            out@ == head + edge_lines(d, j as nat),
        decreases count - j,
    {
        let edge = &data_buffer.edges[j];
        let subject: usize = edge[0];
        let element: usize = edge[1];
        let object: usize = edge[2];
        assert(d.edges[j as int] == (subject as int, element as int, object as int));
        assert(d.labels[subject as int] == data_buffer.labels@[subject as int]@);
        assert(d.labels[object as int] == data_buffer.labels@[object as int]@);
        out.append(data_buffer.labels[subject].as_str());
        out.append(" -> ");
        out.append(data_buffer.elements[element].name());
        out.append(" -> ");
        out.append(data_buffer.labels[object].as_str());
        out.append("\n");
        assert(out@ =~= head + (edge_lines(d, j as nat) + edge_line(d, d.edges[j as int])));
        j += 1;
    }
    out.append("--- Characteristics ---\n");
    write_notes(&mut out, &data_buffer.characteristics);
    out.append("--- Cardinalities ---\n");
    write_notes(&mut out, &data_buffer.cardinalities);
    out
}

} // verus!
