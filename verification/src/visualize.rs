//! The capability of being drawn.

use vstd::prelude::*;
use crate::address::Address;
use crate::data_description::{DataDescription, Value};
use crate::model::node_text;
use crate::node::RenderedNode;

verus! {

/// How a type shows itself. Every method but the name has a default, so an
/// implementation states only what differs.
pub trait Visualize: Sized {
    /// The name under which the type is shown, such as `u8` or
    /// `alloc::string::String`.
    fn type_string() -> (name: String);

    /// The inline value, if the type has one: its text where the value is
    /// held in place, a reference where it lives elsewhere.
    fn data(&self) -> (value: Option<Value>)
        default_ensures
            value is None,
    {
        None
    }

    /// The descriptions of what the value holds: one for each field or
    /// element, in their order.
    fn associated_data(&self) -> (nested: Option<Vec<DataDescription>>)
        default_ensures
            nested is None,
    {
        None
    }

    /// The node that shows this value: the node of its description, which
    /// has no label. It is of use only inside a graph.
    fn render_node(&self) -> (node: RenderedNode)
        default_ensures
            exists|d: DataDescription|
                {
                    &&& d.label_string is None
                    &&& call_ensures(Address::new::<Self>, (self,), d.address)
                    &&& call_ensures(Self::type_string, (), d.type_string)
                    &&& call_ensures(Self::data, (self,), d.value)
                    &&& call_ensures(Self::associated_data, (self,), d.associated_data_descriptions)
                    &&& node@ == node_text(d@)
                },
    {
        let d = DataDescription {
            label_string: None,
            address: Address::new(self),
            type_string: Self::type_string(),
            value: self.data(),
            associated_data_descriptions: self.associated_data(),
        };
        RenderedNode::draw(&d)
    }
}

/// Whether `text` is a name under which the type may show itself.
pub open spec fn names<T: Visualize>(text: Seq<char>) -> bool {
    exists|name: String| call_ensures(T::type_string, (), name) && name@ == text
}

/// Whether `d` is what the capability of `t` yields for it: no label, an
/// identity that `Address::new` gives for `t`, the name of its type, and a
/// value and nested descriptions that `t` may return.
pub open spec fn describes<T: Visualize>(t: &T, d: DataDescription) -> bool {
    &&& d.label_string is None
    &&& call_ensures(Address::new::<T>, (t,), d.address)
    &&& call_ensures(T::type_string, (), d.type_string)
    &&& call_ensures(T::data, (t,), d.value)
    &&& call_ensures(T::associated_data, (t,), d.associated_data_descriptions)
}

} // verus!
