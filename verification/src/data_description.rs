//! Descriptions of values, and the table rows and arrows they render to.

use vstd::prelude::*;
use vstd::seq_lib::lemma_flatten_concat;
use vstd::std_specs::convert::FromSpecImpl;
use vstd::std_specs::vec::axiom_vec_index_decreases;
use crate::address::Address;
use crate::model::{
    address_cell, cell_text, edge_line, edge_lines, label_cell, nested_cell, nested_edges,
    nested_rows, own_edges, row_text, type_cell, value_cell, Classification, Description,
};
use crate::node::RenderedNode;
use crate::util::{html_encode, render_table, texts, type_of};
use crate::visualize::{describes, Visualize};

verus! {

/// The inline value of a piece of data.
#[derive(Debug)]
pub enum Value {
    /// The data holds this value itself; it is shown as this text.
    Owned(String),
    /// The data points elsewhere; it is shown as an arrow to the node with
    /// this identity. The referent is drawn as a node of its own.
    Referenced(Address, RenderedNode),
}

impl Value {
    /// A reference, from anything that converts into its two parts.
    pub fn referenced<IntoAddress, IntoRenderedNode>(
        address: IntoAddress,
        rendered_node: IntoRenderedNode,
    ) -> (value: Value) where IntoAddress: Into<Address>, IntoRenderedNode: Into<RenderedNode>
        ensures
            value matches Value::Referenced(target, node) && call_ensures(
                IntoAddress::into,
                (address,),
                target,
            ) && call_ensures(IntoRenderedNode::into, (rendered_node,), node),
    {
        Value::Referenced(address.into(), rendered_node.into())
    }
}

impl Clone for Value {
    fn clone(&self) -> (copy: Value)
        ensures
            copy == *self,
    {
        match self {
            Value::Owned(text) => Value::Owned(text.clone()),
            Value::Referenced(target, node) => Value::Referenced(target.clone(), node.clone()),
        }
    }
}

/// How an optional value is classified.
pub open spec fn classification(value: Option<Value>) -> Classification {
    match value {
        Some(Value::Owned(text)) => Classification::Owned(text@),
        Some(Value::Referenced(target, _)) => Classification::Referenced(target@),
        None => Classification::Absent,
    }
}

/// What is needed to draw one piece of data.
#[derive(Debug)]
pub struct DataDescription {
    /// The name under which the data is known, such as a field name. Without
    /// one, the row has no label cell.
    pub label_string: Option<String>,
    /// Where the data lives.
    pub address: Address,
    /// The type of the data, for display.
    pub type_string: String,
    /// The inline value, if the data has one.
    pub value: Option<Value>,
    /// The descriptions of the data held inside, in their order.
    pub associated_data_descriptions: Option<Vec<DataDescription>>,
}

/// The description that `d` stands for.
pub open spec fn description_of(d: DataDescription) -> Description
    decreases d,
{
    Description {
        label: match d.label_string {
            Some(label) => Some(label@),
            None => None,
        },
        identity: d.address@,
        type_text: d.type_string@,
        value: classification(d.value),
        nested: match d.associated_data_descriptions {
            Some(nested) => Seq::new(
                nested@.len(),
                |i: int|
                    if 0 <= i < nested@.len() {
                        description_of(nested@[i])
                    } else {
                        arbitrary()
                    },
            ),
            None => Seq::empty(),
        },
    }
}

impl View for DataDescription {
    type V = Description;

    open spec fn view(&self) -> Description {
        description_of(*self)
    }
}

/// Whether the two descriptions hold the same in every field, at every
/// depth.
pub open spec fn same_description(a: DataDescription, b: DataDescription) -> bool
    decreases a,
{
    &&& a.label_string == b.label_string
    &&& a.address == b.address
    &&& a.type_string == b.type_string
    &&& a.value == b.value
    &&& match (a.associated_data_descriptions, b.associated_data_descriptions) {
        (Some(of_a), Some(of_b)) => {
            &&& of_a.len() == of_b.len()
            &&& forall|i: int| 0 <= i < of_a.len() ==> same_description(of_a[i], #[trigger] of_b[i])
        },
        (None, None) => true,
        _ => false,
    }
}

impl Clone for DataDescription {
    fn clone(&self) -> (copy: DataDescription)
        ensures
            same_description(*self, copy),
            copy@ == self@,
        decreases self,
    {
        let associated_data_descriptions = match &self.associated_data_descriptions {
            Some(nested) => {
                let mut copies: Vec<DataDescription> = Vec::new();
                let mut i: usize = 0;
                while i < nested.len()
                    invariant
                        i <= nested.len(),
                        self.associated_data_descriptions == Some(*nested),
                        copies.len() == i,
                        forall|j: int|
                            0 <= j < i ==> same_description(nested[j], #[trigger] copies[j])
                                && copies[j]@ == nested[j]@,
                    decreases nested.len() - i,
                {
                    proof {
                        self.lemma_nested_view();
                    }
                    copies.push(nested[i].clone());
                    i += 1;
                }
                Some(copies)
            },
            None => None,
        };
        let copy = DataDescription {
            label_string: match &self.label_string {
                Some(label) => Some(label.clone()),
                None => None,
            },
            address: self.address.clone(),
            type_string: self.type_string.clone(),
            value: match &self.value {
                Some(value) => Some(value.clone()),
                None => None,
            },
            associated_data_descriptions,
        };
        proof {
            self.lemma_nested_view();
            copy.lemma_nested_view();
            assert(copy@.nested == self@.nested);
        }
        copy
    }
}

impl Default for DataDescription {
    /// The description of nothing: no label, an empty identity and type,
    /// no value and nothing nested.
    fn default() -> (d: DataDescription)
        ensures
            d.label_string is None,
            d.address@ == Seq::<char>::empty(),
            d.type_string@ == Seq::<char>::empty(),
            d.value is None,
            d.associated_data_descriptions is None,
    {
        DataDescription {
            label_string: None,
            address: Address::default(),
            type_string: String::new(),
            value: None,
            associated_data_descriptions: None,
        }
    }
}

impl DataDescription {
    /// The nested descriptions of the view are the views of the nested
    /// descriptions, in their order, and each of them is smaller than the
    /// description that holds it.
    pub proof fn lemma_nested_view(&self)
        ensures
            match self.associated_data_descriptions {
                Some(nested) => {
                    &&& self@.nested.len() == nested.len()
                    &&& forall|i: int|
                        0 <= i < nested.len() ==> self@.nested[i] == (#[trigger] nested[i])@
                            && decreases_to!(*self => nested[i])
                },
                None => self@.nested.len() == 0,
            },
    {
        match self.associated_data_descriptions {
            Some(nested) => {
                assert forall|i: int| 0 <= i < nested.len() implies self@.nested[i] == (
                #[trigger] nested[i])@ && decreases_to!(*self => nested[i]) by {
                    axiom_vec_index_decreases(nested, i);
                }
            },
            None => {},
        }
    }

    /// Describes the value through its capability: where it lives, what its
    /// type is called, and what it shows of itself. The description has no
    /// label.
    pub fn describe<T: Visualize>(t: &T) -> (d: DataDescription)
        ensures
            describes(t, d),
    {
        DataDescription {
            label_string: None,
            address: Address::new(t),
            type_string: type_of(t),
            value: t.data(),
            associated_data_descriptions: t.associated_data(),
        }
    }

    /// The same description under the label that `label_string` converts
    /// into.
    pub fn with_label<T>(self, label_string: T) -> (labelled: Self) where T: Into<String>
        ensures
            labelled.label_string matches Some(label) && call_ensures(
                T::into,
                (label_string,),
                label,
            ),
            labelled.address == self.address,
            labelled.type_string == self.type_string,
            labelled.value == self.value,
            labelled.associated_data_descriptions == self.associated_data_descriptions,
    {
        self.labelled(label_string.into())
    }

    /// The same description under the given label.
    pub fn labelled(self, label: String) -> (labelled: Self)
        ensures
            labelled.label_string == Some(label),
            labelled.address == self.address,
            labelled.type_string == self.type_string,
            labelled.value == self.value,
            labelled.associated_data_descriptions == self.associated_data_descriptions,
    {
        DataDescription {
            label_string: Some(label),
            address: self.address,
            type_string: self.type_string,
            value: self.value,
            associated_data_descriptions: self.associated_data_descriptions,
        }
    }

    /// The arrow for this description alone, where its value is a reference.
    fn render_reference(&self, node_root_address: &Address) -> (edge: Option<String>)
        ensures
            match self@.value {
                Classification::Referenced(target) => edge matches Some(line) && line@
                    == edge_line(node_root_address@, self@.identity, target),
                _ => edge is None,
            },
    {
        match &self.value {
            Some(Value::Referenced(target, _)) => {
                let mut line = String::from_str("\"");
                line.append(node_root_address.to_string().as_str());
                line.append("\":\"");
                line.append(self.address.render_value_port().as_str());
                line.append("\" -> \"");
                line.append(target.to_string().as_str());
                line.append("\":\"");
                line.append(target.render_address_port().as_str());
                line.append("\"\n");
                Some(line)
            },
            _ => None,
        }
    }

    /// Every arrow that this description and the ones nested in it ask for,
    /// all leaving the node `node_root_address`.
    pub fn render_references(&self, node_root_address: &Address) -> (edges: String)
        ensures
            edges@ == edge_lines(self@, node_root_address@).flatten(),
        decreases self,
    {
        let mut edges = match self.render_reference(node_root_address) {
            Some(line) => line,
            None => String::new(),
        };
        proof {
            self.lemma_nested_view();
            own_edges(self@, node_root_address@).lemma_flatten_one_element();
            assert(own_edges(self@, node_root_address@) + nested_edges(
                self@,
                node_root_address@,
                0,
            ) == own_edges(self@, node_root_address@));
        }
        if let Some(nested) = &self.associated_data_descriptions {
            let mut i: usize = 0;
            while i < nested.len()
                invariant
                    i <= nested.len(),
                    self.associated_data_descriptions == Some(*nested),
                    edges@ == (own_edges(self@, node_root_address@) + nested_edges(
                        self@,
                        node_root_address@,
                        i as nat,
                    )).flatten(),
                decreases nested.len() - i,
            {
                proof {
                    self.lemma_nested_view();
                }
                let more = nested[i].render_references(node_root_address);
                proof {
                    let own = own_edges(self@, node_root_address@);
                    let before = nested_edges(self@, node_root_address@, i as nat);
                    let added = edge_lines(self@.nested[i as int], node_root_address@);
                    assert(nested_edges(self@, node_root_address@, (i + 1) as nat) == before
                        + added);
                    assert(own + (before + added) == (own + before) + added);
                    lemma_flatten_concat(own + before, added);
                }
                edges.append(more.as_str());
                i += 1;
            }
        }
        edges
    }

    fn render_label_table_data(&self) -> (cell: String)
        ensures
            cell@ == label_cell(self@),
    {
        match &self.label_string {
            Some(label_string) => render_cell(
                self.address.render_label_port().as_str(),
                label_string.as_str(),
            ),
            None => String::new(),
        }
    }

    fn render_hex_address_table_data(&self) -> (cell: String)
        ensures
            cell@ == address_cell(self@),
    {
        let mut content = String::from_str("<I>");
        content.append(self.address.to_string().as_str());
        content.append("</I>");
        render_cell(self.address.render_address_port().as_str(), content.as_str())
    }

    fn render_type_table_data(&self) -> (cell: String)
        ensures
            cell@ == type_cell(self@),
    {
        let mut content = String::from_str("<B>");
        content.append(html_encode(self.type_string.as_str()).as_str());
        content.append("</B>");
        render_cell(self.address.render_type_port().as_str(), content.as_str())
    }

    fn render_value_table_data(&self) -> (cell: String)
        ensures
            cell@ == value_cell(self@),
    {
        match &self.value {
            Some(Value::Owned(data)) => render_cell(
                self.address.render_value_port().as_str(),
                html_encode(data.as_str()).as_str(),
            ),
            Some(Value::Referenced(_, _)) => render_cell(
                self.address.render_value_port().as_str(),
                String::new().as_str(),
            ),
            None => String::new(),
        }
    }

    fn render_associated_data_table(&self) -> (cell: String)
        ensures
            cell@ == nested_cell(self@),
        decreases self, 0nat,
    {
        match &self.associated_data_descriptions {
            Some(nested) => {
                if nested.len() == 0 {
                    return String::new();
                }
                let mut rows: Vec<String> = Vec::new();
                let mut i: usize = 0;
                while i < nested.len()
                    invariant
                        i <= nested.len(),
                        self.associated_data_descriptions == Some(*nested),
                        rows.len() == i,
                        forall|j: int| 0 <= j < i ==> rows[j]@ == row_text(#[trigger] self@.nested[j]),
                    decreases nested.len() - i,
                {
                    proof {
                        self.lemma_nested_view();
                    }
                    rows.push(nested[i].render_table_row());
                    i += 1;
                }
                proof {
                    self.lemma_nested_view();
                    assert(texts(rows@) == nested_rows(self@));
                }
                render_cell(
                    self.address.render_associated_data_port().as_str(),
                    render_table(rows.as_slice()).as_str(),
                )
            },
            None => String::new(),
        }
    }

    /// The table row that shows this description: the label if it has one,
    /// the identity, the type, the value if it has one, and a table of the
    /// nested descriptions if it has any.
    pub fn render_table_row(&self) -> (row: String)
        ensures
            row@ == row_text(self@),
        decreases self, 1nat,
    {
        let mut row = String::from_str("<TR>");
        row.append(self.render_label_table_data().as_str());
        row.append(self.render_hex_address_table_data().as_str());
        row.append(self.render_type_table_data().as_str());
        row.append(self.render_value_table_data().as_str());
        row.append(self.render_associated_data_table().as_str());
        row.append("</TR>");
        row
    }
}

impl<'a, T: Visualize> From<&'a T> for DataDescription {
    /// Describes the value through its capability. The description has no
    /// label.
    fn from(t: &'a T) -> (d: DataDescription)
        ensures
            describes(t, d),
    {
        DataDescription::describe(t)
    }
}

/// What the conversion gives depends on where `t` lives, so no function of
/// `t` alone stands for it: the contract of `from` says what holds.
impl<'a, T: Visualize> FromSpecImpl<&'a T> for DataDescription {
    open spec fn obeys_from_spec() -> bool {
        false
    }

    open spec fn from_spec(t: &'a T) -> DataDescription {
        arbitrary()
    }
}

/// One table cell, addressable under `port`.
fn render_cell(port: &str, content: &str) -> (cell: String)
    ensures
        cell@ == cell_text(port@, content@),
{
    let mut cell = String::from_str("<TD PORT=\"");
    cell.append(port);
    cell.append("\">");
    cell.append(content);
    cell.append("</TD>");
    cell
}

} // verus!
