//! What holds of every description and of every text.

use vstd::prelude::*;
use vstd::seq_lib::lemma_flatten_concat;
use crate::constants::{ADDRESS, ASSOCIATED_DATA, LABEL, TYPE, VALUE};
use crate::model::{
    address_cell, cell_text, edge_line, edge_lines, label_cell, leaves, nested_cell,
    nested_edges, nested_reference_count, nested_rows, node_text, own_edges, port_text,
    reference_count, row_text, table_text, type_cell, value_cell, Classification, Description,
};
use crate::address::Address;
use crate::data_description::{DataDescription, Value};
use crate::node::RenderedNode;
use crate::util::{escaped_char, html_encoded};

verus! {

/// Escaping goes character by character: the escaped text of two texts one
/// after the other is their escaped texts one after the other.
pub proof fn law_escaping_distributes(a: Seq<char>, b: Seq<char>)
    ensures
        html_encoded(a + b) == html_encoded(a) + html_encoded(b),
{
    let escape = |c: char| escaped_char(c);
    assert((a + b).map_values(escape) == a.map_values(escape) + b.map_values(escape));
    lemma_flatten_concat(a.map_values(escape), b.map_values(escape));
}

/// A single character is escaped to its entity if it is `&`, `<` or `>`,
/// and stays as it is otherwise.
pub proof fn law_escaping_of_one_character(c: char)
    ensures
        html_encoded(seq![c]) == escaped_char(c),
        c == '&' ==> escaped_char(c) == seq!['&', 'a', 'm', 'p', ';'],
        c == '<' ==> escaped_char(c) == seq!['&', 'l', 't', ';'],
        c == '>' ==> escaped_char(c) == seq!['&', 'g', 't', ';'],
        c != '&' && c != '<' && c != '>' ==> escaped_char(c) == seq![c],
{
    let escape = |c: char| escaped_char(c);
    assert(seq![c].map_values(escape) == seq![escaped_char(c)]);
    seq![escaped_char(c)].lemma_flatten_one_element();
}

/// Escaped text holds neither `<` nor `>`.
pub proof fn law_escaped_text_has_no_brackets(s: Seq<char>)
    ensures
        forall|i: int|
            0 <= i < html_encoded(s).len() ==> html_encoded(s)[i] != '<' && html_encoded(s)[i]
                != '>',
    decreases s.len(),
{
    if s.len() > 0 {
        law_escaped_text_has_no_brackets(s.drop_last());
        law_escaping_distributes(s.drop_last(), seq![s.last()]);
        law_escaping_of_one_character(s.last());
        assert(s == s.drop_last() + seq![s.last()]);
    } else {
        assert(s.map_values(|c: char| escaped_char(c)) == Seq::<Seq<char>>::empty());
    }
}

/// Text without `&`, `<` and `>` is not altered by escaping.
pub proof fn law_escaping_keeps_plain_text(s: Seq<char>)
    requires
        forall|i: int| 0 <= i < s.len() ==> s[i] != '&' && s[i] != '<' && s[i] != '>',
    ensures
        html_encoded(s) == s,
    decreases s.len(),
{
    if s.len() > 0 {
        law_escaping_keeps_plain_text(s.drop_last());
        law_escaping_distributes(s.drop_last(), seq![s.last()]);
        law_escaping_of_one_character(s.last());
        assert(s == s.drop_last() + seq![s.last()]);
    } else {
        assert(s.map_values(|c: char| escaped_char(c)) == Seq::<Seq<char>>::empty());
        assert(s == Seq::<char>::empty());
    }
}

/// Where there is no row there is no table, not even an empty one.
pub proof fn law_no_rows_no_table()
    ensures
        table_text(Seq::<Seq<char>>::empty()) == Seq::<char>::empty(),
{
}

/// Where there are rows there is one table around all of them, in their
/// order: each row stands between the rows before it and the rows after it.
pub proof fn law_table_wraps_rows_in_order(rows: Seq<Seq<char>>, i: int)
    requires
        0 <= i < rows.len(),
    ensures
        table_text(rows) == "<TABLE BORDER=\"0\" CELLBORDER=\"1\" CELLSPACING=\"0\">"@
            + rows.flatten() + "</TABLE>"@,
        rows.flatten() == rows.take(i).flatten() + rows[i] + rows.skip(i + 1).flatten(),
{
    lemma_rows_around(rows, i);
}

/// The texts one after the other are those before the `i`-th, the `i`-th,
/// and those after it.
proof fn lemma_rows_around(rows: Seq<Seq<char>>, i: int)
    requires
        0 <= i < rows.len(),
    ensures
        rows.flatten() == rows.take(i).flatten() + rows[i] + rows.skip(i + 1).flatten(),
{
    assert(rows == rows.take(i) + seq![rows[i]] + rows.skip(i + 1));
    lemma_flatten_concat(rows.take(i) + seq![rows[i]], rows.skip(i + 1));
    lemma_flatten_concat(rows.take(i), seq![rows[i]]);
    seq![rows[i]].lemma_flatten_one_element();
}

/// The five cells of one identity have five different names.
pub proof fn law_ports_differ(identity: Seq<char>)
    ensures
        port_text(identity, LABEL@) != port_text(identity, ADDRESS@),
        port_text(identity, LABEL@) != port_text(identity, TYPE@),
        port_text(identity, LABEL@) != port_text(identity, VALUE@),
        port_text(identity, LABEL@) != port_text(identity, ASSOCIATED_DATA@),
        port_text(identity, ADDRESS@) != port_text(identity, TYPE@),
        port_text(identity, ADDRESS@) != port_text(identity, VALUE@),
        port_text(identity, ADDRESS@) != port_text(identity, ASSOCIATED_DATA@),
        port_text(identity, TYPE@) != port_text(identity, VALUE@),
        port_text(identity, TYPE@) != port_text(identity, ASSOCIATED_DATA@),
        port_text(identity, VALUE@) != port_text(identity, ASSOCIATED_DATA@),
{
    reveal_strlit("-");
    reveal_strlit("label");
    reveal_strlit("type");
    reveal_strlit("address");
    reveal_strlit("value");
    reveal_strlit("associated-data");
    let at = identity.len() as int + 1;
    assert(port_text(identity, LABEL@)[at] == 'l');
    assert(port_text(identity, TYPE@)[at] == 't');
    assert(port_text(identity, ADDRESS@)[at] == 'a');
    assert(port_text(identity, VALUE@)[at] == 'v');
    assert(port_text(identity, ASSOCIATED_DATA@)[at] == 'a');
    assert(port_text(identity, ADDRESS@).len() == identity.len() + 8);
    assert(port_text(identity, ASSOCIATED_DATA@).len() == identity.len() + 16);
}

/// An owned value is shown in the value cell of its row, escaped, and in no
/// other cell; it asks for no arrow.
pub proof fn law_owned_value_is_shown_in_place(d: Description, text: Seq<char>, owner: Seq<char>)
    requires
        d.value == Classification::Owned(text),
    ensures
        value_cell(d) == cell_text(port_text(d.identity, VALUE@), html_encoded(text)),
        row_text(d) == "<TR>"@ + label_cell(d) + address_cell(d) + type_cell(d) + cell_text(
            port_text(d.identity, VALUE@),
            html_encoded(text),
        ) + nested_cell(d) + "</TR>"@,
        label_cell(d) == Seq::<char>::empty() || label_cell(d) == cell_text(
            port_text(d.identity, LABEL@),
            d.label->0,
        ),
        nested_cell(d) == Seq::<char>::empty() || nested_cell(d) == cell_text(
            port_text(d.identity, ASSOCIATED_DATA@),
            table_text(nested_rows(d)),
        ),
        own_edges(d, owner) == Seq::<Seq<char>>::empty(),
        d.nested.len() == 0 ==> edge_lines(d, owner) == Seq::<Seq<char>>::empty(),
{
}

/// A referenced value leaves its value cell empty and asks for exactly one
/// arrow: from that cell of the owner's node to the address cell of the
/// referent's node.
pub proof fn law_referenced_value_is_an_arrow(d: Description, target: Seq<char>, owner: Seq<char>)
    requires
        d.value == Classification::Referenced(target),
    ensures
        value_cell(d) == cell_text(port_text(d.identity, VALUE@), Seq::<char>::empty()),
        own_edges(d, owner) == seq![edge_line(owner, d.identity, target)],
        edge_line(owner, d.identity, target) == "\""@ + owner + "\":\""@ + (d.identity + "-"@
            + "value"@) + "\" -> \""@ + target + "\":\""@ + (target + "-"@ + "address"@)
            + "\"\n"@,
        d.nested.len() == 0 ==> edge_lines(d, owner) == seq![edge_line(owner, d.identity, target)],
{
}

/// A reference is drawn as an arrow and nothing more: the node of the
/// referent that it carries has no part in the row, the arrows or the node
/// of the description that holds it. The referent is drawn only where it is
/// added to the graph itself.
pub proof fn law_referent_is_not_followed(
    d: DataDescription,
    target: Address,
    one: RenderedNode,
    other: RenderedNode,
    owner: Seq<char>,
)
    ensures
        ({
            let with_one = DataDescription { value: Some(Value::Referenced(target, one)), ..d };
            let with_other = DataDescription { value: Some(Value::Referenced(target, other)), ..d };
            &&& row_text(with_one@) == row_text(with_other@)
            &&& edge_lines(with_one@, owner) == edge_lines(with_other@, owner)
            &&& node_text(with_one@) == node_text(with_other@)
        }),
{
    let with_one = DataDescription { value: Some(Value::Referenced(target, one)), ..d };
    let with_other = DataDescription { value: Some(Value::Referenced(target, other)), ..d };
    with_one.lemma_nested_view();
    with_other.lemma_nested_view();
    assert(with_one@.nested =~= with_other@.nested);
    assert(with_one@ == with_other@);
}

/// There is one arrow for each reference that a description holds, at
/// whatever depth.
pub proof fn law_one_arrow_for_each_reference(d: Description, owner: Seq<char>)
    ensures
        edge_lines(d, owner).len() == reference_count(d),
    decreases d, d.nested.len() + 1,
{
    lemma_nested_arrows_counted(d, owner, d.nested.len());
}

proof fn lemma_nested_arrows_counted(d: Description, owner: Seq<char>, n: nat)
    requires
        n <= d.nested.len(),
    ensures
        nested_edges(d, owner, n).len() == nested_reference_count(d, n),
    decreases d, n,
{
    if n > 0 {
        lemma_nested_arrows_counted(d, owner, (n - 1) as nat);
        law_one_arrow_for_each_reference(d.nested[n - 1], owner);
    }
}

/// Every arrow leaves the owner's node, however deep the description that
/// asks for it is nested.
pub proof fn law_arrows_leave_the_owner(d: Description, owner: Seq<char>)
    ensures
        forall|i: int|
            0 <= i < edge_lines(d, owner).len() ==> leaves(#[trigger] edge_lines(d, owner)[i], owner),
    decreases d, d.nested.len() + 1,
{
    lemma_nested_arrows_leave_the_owner(d, owner, d.nested.len());
    assert forall|i: int| 0 <= i < edge_lines(d, owner).len() implies leaves(
        #[trigger] edge_lines(d, owner)[i],
        owner,
    ) by {
        if i < own_edges(d, owner).len() {
            assert(edge_lines(d, owner)[i] == edge_line(owner, d.identity, d.value->Referenced_0));
        } else {
            assert(edge_lines(d, owner)[i] == nested_edges(d, owner, d.nested.len())[i
                - own_edges(d, owner).len()]);
        }
    }
}

proof fn lemma_nested_arrows_leave_the_owner(d: Description, owner: Seq<char>, n: nat)
    requires
        n <= d.nested.len(),
    ensures
        forall|i: int|
            0 <= i < nested_edges(d, owner, n).len() ==> leaves(
                #[trigger] nested_edges(d, owner, n)[i],
                owner,
            ),
    decreases d, n,
{
    if n > 0 {
        lemma_nested_arrows_leave_the_owner(d, owner, (n - 1) as nat);
        law_arrows_leave_the_owner(d.nested[n - 1], owner);
        let before = nested_edges(d, owner, (n - 1) as nat);
        let added = edge_lines(d.nested[n - 1], owner);
        assert forall|i: int| 0 <= i < nested_edges(d, owner, n).len() implies leaves(
            #[trigger] nested_edges(d, owner, n)[i],
            owner,
        ) by {
            if i < before.len() {
                assert(nested_edges(d, owner, n)[i] == before[i]);
            } else {
                assert(nested_edges(d, owner, n)[i] == added[i - before.len()]);
            }
        }
    }
}

/// The nested table has one row for each nested description, in their
/// order: the row of the `i`-th stands between the rows of those before it
/// and the rows of those after it.
pub proof fn law_nested_rows_keep_their_order(d: Description, i: int)
    requires
        0 <= i < d.nested.len(),
    ensures
        nested_rows(d).len() == d.nested.len(),
        nested_rows(d)[i] == row_text(d.nested[i]),
        nested_cell(d) == cell_text(
            port_text(d.identity, ASSOCIATED_DATA@),
            "<TABLE BORDER=\"0\" CELLBORDER=\"1\" CELLSPACING=\"0\">"@ + (nested_rows(d).take(
                i,
            ).flatten() + row_text(d.nested[i]) + nested_rows(d).skip(i + 1).flatten())
                + "</TABLE>"@,
        ),
{
    lemma_rows_around(nested_rows(d), i);
}

/// The arrows come depth first and left to right: those of the `i`-th
/// nested description follow those of all nested descriptions before it.
pub proof fn law_nested_arrows_keep_their_order(d: Description, owner: Seq<char>, i: int)
    requires
        0 <= i < d.nested.len(),
    ensures
        edge_lines(d, owner) == own_edges(d, owner) + nested_edges(d, owner, d.nested.len()),
        nested_edges(d, owner, 0) == Seq::<Seq<char>>::empty(),
        nested_edges(d, owner, (i + 1) as nat) == nested_edges(d, owner, i as nat) + edge_lines(
            d.nested[i],
            owner,
        ),
{
}

} // verus!
