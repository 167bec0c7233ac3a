//! Renders in-memory data structures as GraphViz DOT graph descriptions.
//!
//! A type opts in through [`Visualize`]: it says what its type is called,
//! what it shows inline and what it holds. A [`Graph`] collects the nodes of
//! the values added to it and renders them as one DOT document; a value
//! that another one refers to is drawn where it is added itself.
//!
//! ```
//! use vizz::Graph;
//!
//! let text = String::from("referred to");
//! let pair = (8u8, &text);
//! let document = Graph::new().set_id("g").add_node(&pair).add_node(&text).render();
//! assert!(document.starts_with("digraph g {"));
//! ```
//!
//! What each renderer returns is stated in [`model`], over the views of the
//! values; [`laws`] holds what follows for every description.

pub mod address;
pub mod constants;
pub mod data_description;
pub mod decimal;
pub mod graph;
pub mod impls;
pub mod laws;
pub mod model;
pub mod node;
pub mod util;
pub mod visualize;

pub use crate::address::Address;
pub use crate::data_description::DataDescription;
pub use crate::data_description::Value;
pub use crate::graph::Graph;
pub use crate::node::RenderedNode;
pub use crate::visualize::Visualize;
