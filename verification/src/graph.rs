//! The graph that collects rendered nodes.

use vstd::prelude::*;
use vstd::std_specs::convert::FromSpecImpl;
use crate::model::graph_text;
use crate::node::RenderedNode;
use crate::visualize::Visualize;

verus! {

/// What a graph holds: its name, and the node fragments in the order in
/// which they were added.
pub struct GraphView {
    /// The name of the graph.
    pub id: Seq<char>,
    /// The text of each node, first added first.
    pub nodes: Seq<Seq<char>>,
}

/// A DOT graph in the making. Nodes are added one by one; none is ever
/// taken out or merged with another.
#[derive(Debug)]
pub struct Graph {
    /// The ID of the graph in the DOT grammar.
    id: String,
    /// The nodes added so far, first to last.
    nodes: Vec<RenderedNode>,
}

impl View for Graph {
    type V = GraphView;

    closed spec fn view(&self) -> GraphView {
        GraphView { id: self.id@, nodes: self.nodes@.map_values(|node: RenderedNode| node@) }
    }
}

impl Graph {
    /// An empty graph under the name `visualization`.
    pub fn new() -> (graph: Graph)
        ensures
            graph@.id == "visualization"@,
            graph@.nodes == Seq::<Seq<char>>::empty(),
    {
        Graph { id: String::from_str("visualization"), nodes: Vec::new() }
    }

    /// The same graph under the name that `new_id` converts into.
    pub fn set_id<S: Into<String>>(self, new_id: S) -> (graph: Graph)
        ensures
            graph@.nodes == self@.nodes,
            exists|id: String| call_ensures(S::into, (new_id,), id) && graph@.id == id@,
    {
        self.with_id(new_id.into())
    }

    /// The same graph under the name `id`.
    pub fn with_id(self, id: String) -> (graph: Graph)
        ensures
            graph@.id == id@,
            graph@.nodes == self@.nodes,
    {
        Graph { id, nodes: self.nodes }
    }

    /// The graph with the node of `node` added behind those it holds.
    pub fn add_node<V>(self, node: &V) -> (graph: Graph) where V: Visualize
        ensures
            graph@.id == self@.id,
            exists|rendered: RenderedNode|
                call_ensures(V::render_node, (node,), rendered) && graph@.nodes
                    == self@.nodes.push(rendered@),
    {
        let rendered = node.render_node();
        self.add_rendered_node(rendered)
    }

    /// The graph with `rendered` added behind the nodes it holds.
    pub fn add_rendered_node(self, rendered: RenderedNode) -> (graph: Graph)
        ensures
            graph@.id == self@.id,
            graph@.nodes == self@.nodes.push(rendered@),
    {
        let mut nodes = self.nodes;
        nodes.push(rendered);
        Graph { id: self.id, nodes }
    }

    /// The whole DOT document.
    pub fn render(&self) -> (text: String)
        ensures
            text@ == graph_text(self@.id, self@.nodes),
    {
        let mut text = String::from_str("digraph ");
        text.append(self.id.as_str());
        text.append(" {\n");
        let ghost opening = text@;
        let mut i: usize = 0;
        while i < self.nodes.len()
            invariant
                i <= self.nodes.len(),
                text@ == opening + self@.nodes.take(i as int).flatten(),
            decreases self.nodes.len() - i,
        {
            proof {
                let before = self@.nodes.take(i as int);
                assert(self@.nodes.take(i + 1) == before.push(self.nodes[i as int]@));
                before.lemma_flatten_push(self.nodes[i as int]@);
            }
            text.append(self.nodes[i].inner());
            i += 1;
        }
        proof {
            assert(self@.nodes.take(self@.nodes.len() as int) == self@.nodes);
        }
        text.append("\n}");
        text
    }
}

impl Clone for Graph {
    fn clone(&self) -> (copy: Graph)
        ensures
            copy@ == self@,
    {
        let mut nodes: Vec<RenderedNode> = Vec::new();
        let mut i: usize = 0;
        while i < self.nodes.len()
            invariant
                i <= self.nodes.len(),
                nodes@ == self.nodes@.take(i as int),
            decreases self.nodes.len() - i,
        {
            nodes.push(self.nodes[i].clone());
            i += 1;
        }
        proof {
            assert(self.nodes@.take(self.nodes@.len() as int) == self.nodes@);
        }
        Graph { id: self.id.clone(), nodes }
    }
}

impl<'a, V: Visualize> From<&'a V> for Graph {
    /// A graph under the name `visualization` that holds the node of `v`.
    fn from(v: &'a V) -> (graph: Graph)
        ensures
            graph@.id == "visualization"@,
            exists|rendered: RenderedNode|
                call_ensures(V::render_node, (v,), rendered) && graph@.nodes == seq![rendered@],
    {
        Graph::new().add_node(v)
    }
}

/// What the conversion gives depends on where `v` lives, so no function of
/// `v` alone stands for it: the contract of `from` says what holds.
impl<'a, V: Visualize> FromSpecImpl<&'a V> for Graph {
    open spec fn obeys_from_spec() -> bool {
        false
    }

    open spec fn from_spec(v: &'a V) -> Graph {
        arbitrary()
    }
}

impl Default for Graph {
    /// An empty graph under the name `visualization`.
    fn default() -> (graph: Graph)
        ensures
            graph@.id == "visualization"@,
            graph@.nodes == Seq::<Seq<char>>::empty(),
    {
        Graph::new()
    }
}

} // verus!
