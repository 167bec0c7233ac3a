//! The mathematical model of descriptions and of the text they render to.
//!
//! Every renderer of the crate states its result as one of these functions,
//! applied to the views of its arguments.

use vstd::prelude::*;
use crate::constants::{ADDRESS, ASSOCIATED_DATA, LABEL, PORT_SEPARATOR, TYPE, VALUE};
use crate::util::html_encoded;

verus! {

/// How a value's inline content is shown.
pub enum Classification {
    /// Self-contained: shown as this text.
    Owned(Seq<char>),
    /// Stored elsewhere: shown as an arrow to the node with this identity.
    Referenced(Seq<char>),
    /// Nothing inline: the nested descriptions say it all.
    Absent,
}

/// What is known of one piece of data when it is drawn.
pub struct Description {
    /// The name under which the data is known, if it has one.
    pub label: Option<Seq<char>>,
    /// The token that names where the data lives.
    pub identity: Seq<char>,
    /// The name of the type of the data.
    pub type_text: Seq<char>,
    /// What the data shows inline.
    pub value: Classification,
    /// The descriptions of what the data holds, in their order. A leaf has
    /// none.
    pub nested: Seq<Description>,
}

/// The name of one cell of the table that shows the value with this identity.
pub open spec fn port_text(identity: Seq<char>, field: Seq<char>) -> Seq<char> {
    identity + PORT_SEPARATOR@ + field
}

/// One table cell, addressable under `port`.
pub open spec fn cell_text(port: Seq<char>, content: Seq<char>) -> Seq<char> {
    "<TD PORT=\""@ + port + "\">"@ + content + "</TD>"@
}

/// A table around the rows, or nothing at all where there is no row.
pub open spec fn table_text(rows: Seq<Seq<char>>) -> Seq<char> {
    if rows.len() == 0 {
        Seq::empty()
    } else {
        "<TABLE BORDER=\"0\" CELLBORDER=\"1\" CELLSPACING=\"0\">"@ + rows.flatten() + "</TABLE>"@
    }
}

/// The cell that shows the label: there is one only if there is a label.
/// The label stands in it as it is.
pub open spec fn label_cell(d: Description) -> Seq<char> {
    match d.label {
        Some(label) => cell_text(port_text(d.identity, LABEL@), label),
        None => Seq::empty(),
    }
}

/// The cell that shows the identity, in italics. Arrows to the node end
/// here.
pub open spec fn address_cell(d: Description) -> Seq<char> {
    cell_text(port_text(d.identity, ADDRESS@), "<I>"@ + d.identity + "</I>"@)
}

/// The cell that shows the name of the type, escaped and in bold.
pub open spec fn type_cell(d: Description) -> Seq<char> {
    cell_text(port_text(d.identity, TYPE@), "<B>"@ + html_encoded(d.type_text) + "</B>"@)
}

/// The cell that shows the inline value: the escaped text of an owned
/// value, nothing for a reference, and no cell at all for an absent value.
/// Arrows for a reference start here.
pub open spec fn value_cell(d: Description) -> Seq<char> {
    match d.value {
        Classification::Owned(text) => cell_text(port_text(d.identity, VALUE@), html_encoded(text)),
        Classification::Referenced(_) => cell_text(port_text(d.identity, VALUE@), Seq::empty()),
        Classification::Absent => Seq::empty(),
    }
}

/// The rows of the table nested in the row of `d`: one for each nested
/// description, in their order.
pub open spec fn nested_rows(d: Description) -> Seq<Seq<char>>
    decreases d, 0nat,
{
    Seq::new(
        d.nested.len(),
        |i: int|
            if 0 <= i < d.nested.len() {
                row_text(d.nested[i])
            } else {
                Seq::empty()
            },
    )
}

/// The cell that holds the nested table: there is one only if there are
/// nested descriptions.
pub open spec fn nested_cell(d: Description) -> Seq<char>
    decreases d, 1nat,
{
    if d.nested.len() == 0 {
        Seq::empty()
    } else {
        cell_text(port_text(d.identity, ASSOCIATED_DATA@), table_text(nested_rows(d)))
    }
}

/// The table row that shows `d`.
pub open spec fn row_text(d: Description) -> Seq<char>
    decreases d, 2nat,
{
    "<TR>"@ + label_cell(d) + address_cell(d) + type_cell(d) + value_cell(d) + nested_cell(d)
        + "</TR>"@
}

/// One arrow: from the value cell `cell` of the node `owner` to the address
/// cell of the node `target`.
pub open spec fn edge_line(owner: Seq<char>, cell: Seq<char>, target: Seq<char>) -> Seq<char> {
    "\""@ + owner + "\":\""@ + port_text(cell, VALUE@) + "\" -> \""@ + target + "\":\""@
        + port_text(target, ADDRESS@) + "\"\n"@
}

/// The arrow that `d` itself asks for, if any.
pub open spec fn own_edges(d: Description, owner: Seq<char>) -> Seq<Seq<char>> {
    match d.value {
        Classification::Referenced(target) => seq![edge_line(owner, d.identity, target)],
        _ => Seq::empty(),
    }
}

/// The arrows of the first `n` nested descriptions of `d`.
pub open spec fn nested_edges(d: Description, owner: Seq<char>, n: nat) -> Seq<Seq<char>>
    decreases d, n,
{
    if n == 0 || n > d.nested.len() {
        Seq::empty()
    } else {
        nested_edges(d, owner, (n - 1) as nat) + edge_lines(d.nested[n - 1], owner)
    }
}

/// Every arrow that leaves the node `owner` on account of `d`: its own, then
/// those of its nested descriptions, depth first and left to right.
pub open spec fn edge_lines(d: Description, owner: Seq<char>) -> Seq<Seq<char>>
    decreases d, d.nested.len() + 1,
{
    own_edges(d, owner) + nested_edges(d, owner, d.nested.len())
}

/// Whether `d` itself is a reference: 1 if so, else 0.
pub open spec fn own_reference_count(d: Description) -> nat {
    match d.value {
        Classification::Referenced(_) => 1,
        _ => 0,
    }
}

/// The number of references among the first `n` nested descriptions of `d`
/// and everything nested in them.
pub open spec fn nested_reference_count(d: Description, n: nat) -> nat
    decreases d, n,
{
    if n == 0 || n > d.nested.len() {
        0
    } else {
        nested_reference_count(d, (n - 1) as nat) + reference_count(d.nested[n - 1])
    }
}

/// The number of references that `d` holds: itself, if it is one, and those
/// nested in it at any depth.
pub open spec fn reference_count(d: Description) -> nat
    decreases d, d.nested.len() + 1,
{
    own_reference_count(d) + nested_reference_count(d, d.nested.len())
}

/// Whether `line` is an arrow that leaves the node `owner`.
pub open spec fn leaves(line: Seq<char>, owner: Seq<char>) -> bool {
    exists|cell: Seq<char>, target: Seq<char>| line == edge_line(owner, cell, target)
}

/// The node statement for `d`, followed by its arrows.
pub open spec fn node_text(d: Description) -> Seq<char> {
    "  node [shape=plaintext]\n    \""@ + d.identity + "\" [label=<"@ + table_text(seq![row_text(d)])
        + ">];\n    "@ + edge_lines(d, d.identity).flatten()
}

/// The whole document: the graph named `id` around the node fragments.
pub open spec fn graph_text(id: Seq<char>, nodes: Seq<Seq<char>>) -> Seq<char> {
    "digraph "@ + id + " {\n"@ + nodes.flatten() + "\n}"@
}

} // verus!
