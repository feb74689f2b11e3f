//! The working state written out as text, for logs.

use crate::buffer::{failed_model, SerializationDataBuffer};
use crate::display::{join_lines, joined};
use crate::edge::{edge_text, Edge, EdgeView};
use crate::element::{element_name, ElementType};
use crate::model::BufferView;
use crate::table::{Modeled, Table};
use crate::term::{term_text, Term, TermView};
use crate::triple::{triple_text, Triple, TripleView};
use vstd::prelude::*;
use vstd::string::*;

verus! {

pub open spec fn element_line(entry: (TermView, ElementType)) -> Seq<char> {
    "\t\t"@ + term_text(entry.0) + " : "@ + element_name(entry.1) + "\n"@
}

/// The lines of the first `n` entries.
pub open spec fn element_lines(entries: Seq<(TermView, ElementType)>, n: nat) -> Seq<char>
    decreases n,
{
    if n == 0 {
        Seq::empty()
    } else {
        element_lines(entries, (n - 1) as nat) + element_line(entries[n - 1])
    }
}

fn write_element_lines(out: &mut String, table: &Table<Term, ElementType>)
    ensures
        final(out)@ == old(out)@ + element_lines(table@, table@.len()),
{
    let count = table.len();
    let mut i: usize = 0;
    assert(out@ + Seq::<char>::empty() =~= out@);
    while i < count
        invariant
            i <= count,
            count == table@.len(),
            out@ == old(out)@ + element_lines(table@, i as nat),
        decreases count - i,
    {
        let (key, value) = table.entry(i);
        let ghost before = out@;
        out.append("\t\t");
        let written = key.text();
        out.append(written.as_str());
        out.append(" : ");
        out.append(value.name());
        out.append("\n");
        assert(out@ =~= old(out)@ + (element_lines(table@, i as nat) + element_line(table@[i as int])));
        i += 1;
    }
}

pub open spec fn redirection_line(entry: (TermView, TermView)) -> Seq<char> {
    "\t\t"@ + term_text(entry.0) + " -> "@ + term_text(entry.1) + "\n"@
}

/// The lines of the first `n` entries.
pub open spec fn redirection_lines(entries: Seq<(TermView, TermView)>, n: nat) -> Seq<char>
    decreases n,
{
    if n == 0 {
        Seq::empty()
    } else {
        redirection_lines(entries, (n - 1) as nat) + redirection_line(entries[n - 1])
    }
}

fn write_redirection_lines(out: &mut String, table: &Table<Term, Term>)
    ensures
        final(out)@ == old(out)@ + redirection_lines(table@, table@.len()),
{
    let count = table.len();
    let mut i: usize = 0;
    assert(out@ + Seq::<char>::empty() =~= out@);
    while i < count
        invariant
            i <= count,
            count == table@.len(),
            out@ == old(out)@ + redirection_lines(table@, i as nat),
        decreases count - i,
    {
        let (key, value) = table.entry(i);
        let ghost before = out@;
        out.append("\t\t");
        let written = key.text();
        out.append(written.as_str());
        out.append(" -> ");
        let written = value.text();
        out.append(written.as_str());
        out.append("\n");
        assert(out@ =~= old(out)@ + (redirection_lines(table@, i as nat) + redirection_line(table@[i as int])));
        i += 1;
    }
}

pub open spec fn label_line(entry: (TermView, Seq<char>)) -> Seq<char> {
    "\t\t"@ + term_text(entry.0) + " : "@ + entry.1 + "\n"@
}

/// The lines of the first `n` entries.
pub open spec fn label_lines(entries: Seq<(TermView, Seq<char>)>, n: nat) -> Seq<char>
    decreases n,
{
    if n == 0 {
        Seq::empty()
    } else {
        label_lines(entries, (n - 1) as nat) + label_line(entries[n - 1])
    }
}

fn write_label_lines(out: &mut String, table: &Table<Term, String>)
    ensures
        final(out)@ == old(out)@ + label_lines(table@, table@.len()),
{
    let count = table.len();
    let mut i: usize = 0;
    assert(out@ + Seq::<char>::empty() =~= out@);
    while i < count
        invariant
            i <= count,
            count == table@.len(),
            out@ == old(out)@ + label_lines(table@, i as nat),
        decreases count - i,
    {
        let (key, value) = table.entry(i);
        let ghost before = out@;
        out.append("\t\t");
        let written = key.text();
        out.append(written.as_str());
        out.append(" : ");
        out.append(value.as_str());
        out.append("\n");
        assert(out@ =~= old(out)@ + (label_lines(table@, i as nat) + label_line(table@[i as int])));
        i += 1;
    }
}

pub open spec fn edge_line(entry: (EdgeView, ())) -> Seq<char> {
    "\t\t"@ + edge_text(entry.0) + "\n"@
}

/// The lines of the first `n` entries.
pub open spec fn edge_lines(entries: Seq<(EdgeView, ())>, n: nat) -> Seq<char>
    decreases n,
{
    if n == 0 {
        Seq::empty()
    } else {
        edge_lines(entries, (n - 1) as nat) + edge_line(entries[n - 1])
    }
}

fn write_edge_lines(out: &mut String, table: &Table<Edge, ()>)
    ensures
        final(out)@ == old(out)@ + edge_lines(table@, table@.len()),
{
    let count = table.len();
    let mut i: usize = 0;
    assert(out@ + Seq::<char>::empty() =~= out@);
    while i < count
        invariant
            i <= count,
            count == table@.len(),
            out@ == old(out)@ + edge_lines(table@, i as nat),
        decreases count - i,
    {
        let (key, value) = table.entry(i);
        let ghost before = out@;
        out.append("\t\t");
        let written = key.text();
        out.append(written.as_str());
        out.append("\n");
        assert(out@ =~= old(out)@ + (edge_lines(table@, i as nat) + edge_line(table@[i as int])));
        i += 1;
    }
}

pub open spec fn included_edge_line(entry: (EdgeView, ())) -> Seq<char> {
    "\t\t\t"@ + edge_text(entry.0) + "\n"@
}

/// The lines of the first `n` entries.
pub open spec fn included_edge_lines(entries: Seq<(EdgeView, ())>, n: nat) -> Seq<char>
    decreases n,
{
    if n == 0 {
        Seq::empty()
    } else {
        included_edge_lines(entries, (n - 1) as nat) + included_edge_line(entries[n - 1])
    }
}

fn write_included_edge_lines(out: &mut String, table: &Table<Edge, ()>)
    ensures
        final(out)@ == old(out)@ + included_edge_lines(table@, table@.len()),
{
    let count = table.len();
    let mut i: usize = 0;
    assert(out@ + Seq::<char>::empty() =~= out@);
    while i < count
        invariant
            i <= count,
            count == table@.len(),
            out@ == old(out)@ + included_edge_lines(table@, i as nat),
        decreases count - i,
    {
        let (key, value) = table.entry(i);
        let ghost before = out@;
        out.append("\t\t\t");
        let written = key.text();
        out.append(written.as_str());
        out.append("\n");
        assert(out@ =~= old(out)@ + (included_edge_lines(table@, i as nat) + included_edge_line(table@[i as int])));
        i += 1;
    }
}

pub open spec fn include_line(entry: (TermView, Seq<(EdgeView, ())>)) -> Seq<char> {
    "\t\t"@ + term_text(entry.0) + " : {\n"@ + included_edge_lines(entry.1, entry.1.len()) + "\t\t}\n"@
}

/// The lines of the first `n` entries.
pub open spec fn include_lines(entries: Seq<(TermView, Seq<(EdgeView, ())>)>, n: nat) -> Seq<char>
    decreases n,
{
    if n == 0 {
        Seq::empty()
    } else {
        include_lines(entries, (n - 1) as nat) + include_line(entries[n - 1])
    }
}

fn write_include_lines(out: &mut String, table: &Table<Term, Table<Edge, ()>>)
    ensures
        final(out)@ == old(out)@ + include_lines(table@, table@.len()),
{
    let count = table.len();
    let mut i: usize = 0;
    assert(out@ + Seq::<char>::empty() =~= out@);
    while i < count
        invariant
            i <= count,
            count == table@.len(),
            out@ == old(out)@ + include_lines(table@, i as nat),
        decreases count - i,
    {
        let (key, value) = table.entry(i);
        let ghost before = out@;
        out.append("\t\t");
        let written = key.text();
        out.append(written.as_str());
        out.append(" : {\n");
        write_included_edge_lines(out, value);
        out.append("\t\t}\n");
        assert(out@ =~= old(out)@ + (include_lines(table@, i as nat) + include_line(table@[i as int])));
        i += 1;
    }
}

pub open spec fn edge_trait_line(entry: (EdgeView, Seq<Seq<char>>)) -> Seq<char> {
    "\t\t"@ + edge_text(entry.0) + " : "@ + joined(entry.1, entry.1.len()) + "\n"@
}

/// The lines of the first `n` entries.
pub open spec fn edge_trait_lines(entries: Seq<(EdgeView, Seq<Seq<char>>)>, n: nat) -> Seq<char>
    decreases n,
{
    if n == 0 {
        Seq::empty()
    } else {
        edge_trait_lines(entries, (n - 1) as nat) + edge_trait_line(entries[n - 1])
    }
}

fn write_edge_trait_lines(out: &mut String, table: &Table<Edge, Vec<String>>)
    ensures
        final(out)@ == old(out)@ + edge_trait_lines(table@, table@.len()),
{
    let count = table.len();
    let mut i: usize = 0;
    assert(out@ + Seq::<char>::empty() =~= out@);
    while i < count
        invariant
            i <= count,
            count == table@.len(),
            out@ == old(out)@ + edge_trait_lines(table@, i as nat),
        decreases count - i,
    {
        let (key, value) = table.entry(i);
        let ghost before = out@;
        out.append("\t\t");
        let written = key.text();
        out.append(written.as_str());
        out.append(" : ");
        let names = join_lines(value);
        out.append(names.as_str());
        out.append("\n");
        assert(out@ =~= old(out)@ + (edge_trait_lines(table@, i as nat) + edge_trait_line(table@[i as int])));
        i += 1;
    }
}

pub open spec fn node_trait_line(entry: (TermView, Seq<Seq<char>>)) -> Seq<char> {
    "\t\t"@ + term_text(entry.0) + " : "@ + joined(entry.1, entry.1.len()) + "\n"@
}

/// The lines of the first `n` entries.
pub open spec fn node_trait_lines(entries: Seq<(TermView, Seq<Seq<char>>)>, n: nat) -> Seq<char>
    decreases n,
{
    if n == 0 {
        Seq::empty()
    } else {
        node_trait_lines(entries, (n - 1) as nat) + node_trait_line(entries[n - 1])
    }
}

fn write_node_trait_lines(out: &mut String, table: &Table<Term, Vec<String>>)
    ensures
        final(out)@ == old(out)@ + node_trait_lines(table@, table@.len()),
{
    let count = table.len();
    let mut i: usize = 0;
    assert(out@ + Seq::<char>::empty() =~= out@);
    while i < count
        invariant
            i <= count,
            count == table@.len(),
            out@ == old(out)@ + node_trait_lines(table@, i as nat),
        decreases count - i,
    {
        let (key, value) = table.entry(i);
        let ghost before = out@;
        out.append("\t\t");
        let written = key.text();
        out.append(written.as_str());
        out.append(" : ");
        let names = join_lines(value);
        out.append(names.as_str());
        out.append("\n");
        assert(out@ =~= old(out)@ + (node_trait_lines(table@, i as nat) + node_trait_line(table@[i as int])));
        i += 1;
    }
}

pub open spec fn waiting_row_line(entry: (TripleView, ())) -> Seq<char> {
    "\t\t\t"@ + triple_text(entry.0) + "\n"@
}

/// The lines of the first `n` entries.
pub open spec fn waiting_row_lines(entries: Seq<(TripleView, ())>, n: nat) -> Seq<char>
    decreases n,
{
    if n == 0 {
        Seq::empty()
    } else {
        waiting_row_lines(entries, (n - 1) as nat) + waiting_row_line(entries[n - 1])
    }
}

fn write_waiting_row_lines(out: &mut String, table: &Table<Triple, ()>)
    ensures
        final(out)@ == old(out)@ + waiting_row_lines(table@, table@.len()),
{
    let count = table.len();
    let mut i: usize = 0;
    assert(out@ + Seq::<char>::empty() =~= out@);
    while i < count
        invariant
            i <= count,
            count == table@.len(),
            out@ == old(out)@ + waiting_row_lines(table@, i as nat),
        decreases count - i,
    {
        let (key, value) = table.entry(i);
        let ghost before = out@;
        out.append("\t\t\t");
        let written = key.text();
        out.append(written.as_str());
        out.append("\n");
        assert(out@ =~= old(out)@ + (waiting_row_lines(table@, i as nat) + waiting_row_line(table@[i as int])));
        i += 1;
    }
}

pub open spec fn unknown_line(entry: (TermView, Seq<(TripleView, ())>)) -> Seq<char> {
    "\t\t"@ + term_text(entry.0) + " : {\n"@ + waiting_row_lines(entry.1, entry.1.len()) + "\t\t}\n"@
}

/// The lines of the first `n` entries.
pub open spec fn unknown_lines(entries: Seq<(TermView, Seq<(TripleView, ())>)>, n: nat) -> Seq<char>
    decreases n,
{
    if n == 0 {
        Seq::empty()
    } else {
        unknown_lines(entries, (n - 1) as nat) + unknown_line(entries[n - 1])
    }
}

fn write_unknown_lines(out: &mut String, table: &Table<Term, Table<Triple, ()>>)
    ensures
        final(out)@ == old(out)@ + unknown_lines(table@, table@.len()),
{
    let count = table.len();
    let mut i: usize = 0;
    assert(out@ + Seq::<char>::empty() =~= out@);
    while i < count
        invariant
            i <= count,
            count == table@.len(),
            out@ == old(out)@ + unknown_lines(table@, i as nat),
        decreases count - i,
    {
        let (key, value) = table.entry(i);
        let ghost before = out@;
        out.append("\t\t");
        let written = key.text();
        out.append(written.as_str());
        out.append(" : {\n");
        write_waiting_row_lines(out, value);
        out.append("\t\t}\n");
        assert(out@ =~= old(out)@ + (unknown_lines(table@, i as nat) + unknown_line(table@[i as int])));
        i += 1;
    }
}

/// One failed row as a line of the state's text.
pub open spec fn failed_line(entry: (Option<TripleView>, Seq<char>)) -> Seq<char> {
    match entry.0 {
        Some(triple) => "\t\t"@ + triple_text(triple) + " : "@ + entry.1 + "\n"@,
        None => "\t\tNO TRIPLE : "@ + entry.1 + "\n"@,
    }
}

pub open spec fn failed_lines(entries: Seq<(Option<TripleView>, Seq<char>)>, n: nat) -> Seq<char>
    decreases n,
{
    if n == 0 {
        Seq::empty()
    } else {
        failed_lines(entries, (n - 1) as nat) + failed_line(entries[n - 1])
    }
}

fn write_failed_lines(out: &mut String, failed: &Vec<(Option<Triple>, String)>)
    ensures
        final(out)@ == old(out)@ + failed_lines(failed_model(failed@), failed@.len()),
{
    let count = failed.len();
    let mut i: usize = 0;
    assert(out@ + Seq::<char>::empty() =~= out@);
    while i < count
        invariant
            i <= count,
            count == failed@.len(),
            out@ == old(out)@ + failed_lines(failed_model(failed@), i as nat),
        decreases count - i,
    {
        let entry = &failed[i];
        assert(failed_model(failed@)[i as int] == (entry.0.model(), entry.1@));
        match &entry.0 {
            Some(triple) => {
                out.append("\t\t");
                let written = triple.text();
                out.append(written.as_str());
                out.append(" : ");
            },
            None => {
                out.append("\t\tNO TRIPLE : ");
            },
        }
        out.append(entry.1.as_str());
        out.append("\n");
        assert(out@ =~= old(out)@ + (failed_lines(failed_model(failed@), i as nat) + failed_line(
            failed_model(failed@)[i as int],
        )));
        i += 1;
    }
}

/// The whole state as text, table by table, each entry on a line of its
/// own.
pub open spec fn buffer_text(st: BufferView) -> Seq<char> {
    "SerializationDataBuffer {\n\tdocument_base: "@ + (match st.document_base {
        Some(base) => base,
        None => Seq::empty(),
    }) + "\n\tnode_element_buffer:\n"@ + element_lines(st.nodes, st.nodes.len())
        + "\tedge_element_buffer:\n"@ + element_lines(st.edge_elements, st.edge_elements.len())
        + "\tedge_redirection:\n"@ + redirection_lines(st.redirection, st.redirection.len())
        + "\tedges_include_map:\n"@ + include_lines(st.edges_include, st.edges_include.len())
        + "\tlabel_buffer:\n"@ + label_lines(st.labels, st.labels.len()) + "\tedge_buffer:\n"@
        + edge_lines(st.edges, st.edges.len()) + "\tedge_characteristics:\n"@ + edge_trait_lines(
        st.edge_characteristics,
        st.edge_characteristics.len(),
    ) + "\tnode_characteristics:\n"@ + node_trait_lines(
        st.node_characteristics,
        st.node_characteristics.len(),
    ) + "\tunknown_buffer:\n"@ + unknown_lines(st.unknown, st.unknown.len())
        + "\tfailed_buffer:\n"@ + failed_lines(st.failed, st.failed.len()) + "}\n"@
}

impl SerializationDataBuffer {
    /// Writes the whole state as text.
    pub fn text(&self) -> (out: String)
        ensures
            out@ == buffer_text(self@),
    {
        let mut out = String::from_str("SerializationDataBuffer {\n\tdocument_base: ");
        match &self.document_base {
            Some(base) => {
                out.append(base.as_str());
            },
            None => {
                assert(out@ + Seq::<char>::empty() =~= out@);
            },
        }
        out.append("\n\tnode_element_buffer:\n");
        write_element_lines(&mut out, &self.node_element_buffer);
        out.append("\tedge_element_buffer:\n");
        write_element_lines(&mut out, &self.edge_element_buffer);
        out.append("\tedge_redirection:\n");
        write_redirection_lines(&mut out, &self.edge_redirection);
        out.append("\tedges_include_map:\n");
        write_include_lines(&mut out, &self.edges_include_map);
        out.append("\tlabel_buffer:\n");
        write_label_lines(&mut out, &self.label_buffer);
        out.append("\tedge_buffer:\n");
        write_edge_lines(&mut out, &self.edge_buffer);
        out.append("\tedge_characteristics:\n");
        write_edge_trait_lines(&mut out, &self.edge_characteristics);
        out.append("\tnode_characteristics:\n");
        write_node_trait_lines(&mut out, &self.node_characteristics);
        out.append("\tunknown_buffer:\n");
        write_unknown_lines(&mut out, &self.unknown_buffer);
        out.append("\tfailed_buffer:\n");
        write_failed_lines(&mut out, &self.failed_buffer);
        out.append("}\n");
        out
    }
}

} // verus!
