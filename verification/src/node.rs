//! One rendered graph node.

use vstd::prelude::*;
use vstd::std_specs::convert::FromSpecImpl;
use crate::data_description::DataDescription;
use crate::model::{node_text, row_text};
use crate::util::{render_table, texts};

verus! {

/// The DOT text of one node: its declaration and the arrows that leave it.
#[derive(Debug)]
pub struct RenderedNode(String);

impl View for RenderedNode {
    type V = Seq<char>;

    closed spec fn view(&self) -> Seq<char> {
        self.0@
    }
}

impl RenderedNode {
    /// The text of this node.
    pub fn inner(&self) -> (text: &str)
        ensures
            text@ == self@,
    {
        self.0.as_str()
    }

    /// Draws the description as a node of its own: a table of one row, then
    /// every arrow that the description or anything nested in it asks for.
    pub fn draw(data_description: &DataDescription) -> (node: RenderedNode)
        ensures
            node@ == node_text(data_description@),
    {
        let mut rows: Vec<String> = Vec::new();
        rows.push(data_description.render_table_row());
        proof {
            assert(texts(rows@) == seq![row_text(data_description@)]);
        }
        let table = render_table(rows.as_slice());
        let references = data_description.render_references(&data_description.address);
        let mut text = String::from_str("  node [shape=plaintext]\n    \"");
        text.append(data_description.address.to_string().as_str());
        text.append("\" [label=<");
        text.append(table.as_str());
        text.append(">];\n    ");
        text.append(references.as_str());
        RenderedNode(text)
    }

    /// The text of this node, as a string of its own.
    pub fn to_string(&self) -> (text: String)
        ensures
            text@ == self@,
    {
        self.0.clone()
    }
}

impl Clone for RenderedNode {
    fn clone(&self) -> (copy: RenderedNode)
        ensures
            copy == *self,
    {
        RenderedNode(self.0.clone())
    }
}

impl Default for RenderedNode {
    /// The node without text.
    fn default() -> (node: RenderedNode)
        ensures
            node@ == Seq::<char>::empty(),
    {
        RenderedNode(String::new())
    }
}

impl From<DataDescription> for RenderedNode {
    /// Draws the description as a node of its own.
    fn from(data_description: DataDescription) -> (node: RenderedNode)
        ensures
            node@ == node_text(data_description@),
    {
        RenderedNode::draw(&data_description)
    }
}

/// A node has no value in specifications but its text: the contract of
/// `from` gives that text, and no function stands for the node itself.
impl FromSpecImpl<DataDescription> for RenderedNode {
    open spec fn obeys_from_spec() -> bool {
        false
    }

    open spec fn from_spec(data_description: DataDescription) -> RenderedNode {
        arbitrary()
    }
}

impl From<String> for RenderedNode {
    /// Takes the text as it stands.
    fn from(text: String) -> (node: RenderedNode)
        ensures
            node@ == text@,
    {
        RenderedNode(text)
    }
}

/// As above: the contract of `from` gives the text of the node.
impl FromSpecImpl<String> for RenderedNode {
    open spec fn obeys_from_spec() -> bool {
        false
    }

    open spec fn from_spec(text: String) -> RenderedNode {
        arbitrary()
    }
}

} // verus!
