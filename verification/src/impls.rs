//! How the built-in types show themselves.

pub mod collections;
pub mod numbers;
pub mod text;
pub mod tuples;

use vstd::prelude::*;
use crate::data_description::{DataDescription, Value};
use crate::model::node_text;
use crate::node::RenderedNode;
use crate::visualize::{describes, Visualize};

verus! {

/// Whether `value` is the inline text `text`.
pub open spec fn shows(value: Option<Value>, text: Seq<char>) -> bool {
    value matches Some(Value::Owned(shown)) && shown@ == text
}

/// Whether `value` is a reference to `t`: an arrow to the identity under
/// which `t` is described, together with the node that shows `t`.
pub open spec fn refers_to<T: Visualize>(t: &T, value: Value) -> bool {
    value matches Value::Referenced(target, node) && exists|d: DataDescription|
        describes(t, d) && target == d.address && node@ == node_text(d@)
}

/// Whether `nested` describes the items one by one, in their order.
pub open spec fn describes_each<T: Visualize>(items: Seq<T>, nested: Seq<DataDescription>) -> bool {
    &&& nested.len() == items.len()
    &&& forall|i: int| 0 <= i < items.len() ==> describes(&#[trigger] items[i], nested[i])
}

/// A reference to `t`.
pub fn reference_to<T: Visualize>(t: &T) -> (value: Value)
    ensures
        refers_to(t, value),
{
    let d = DataDescription::describe(t);
    let node = RenderedNode::draw(&d);
    Value::Referenced(d.address, node)
}

/// One description for each item, in their order.
pub fn describe_each<T: Visualize>(items: &[T]) -> (nested: Vec<DataDescription>)
    ensures
        describes_each(items@, nested@),
{
    let mut nested: Vec<DataDescription> = Vec::new();
    let mut i: usize = 0;
    while i < items.len()
        invariant
            i <= items.len(),
            nested.len() == i,
            forall|j: int| 0 <= j < i ==> describes(&#[trigger] items@[j], nested@[j]),
        decreases items.len() - i,
    {
        nested.push(DataDescription::describe(&items[i]));
        i += 1;
    }
    nested
}

} // verus!
