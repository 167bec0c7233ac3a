//! The identity of a value: where it lives while it is drawn.

use vstd::prelude::*;
use vstd::std_specs::convert::FromSpecImpl;
use crate::constants::{ADDRESS, ASSOCIATED_DATA, LABEL, PORT_SEPARATOR, TYPE, VALUE};
use crate::model::port_text;

verus! {

/// A token that names a value's storage location, such as `0x7ffd5e0c`.
#[derive(Debug)]
pub struct Address(String);

impl View for Address {
    type V = Seq<char>;

    closed spec fn view(&self) -> Seq<char> {
        self.0@
    }
}

/// Formats the location that `t` points to, through `std::fmt::Pointer` for
/// a reference. The text depends on where the value happens to live, so the
/// contract promises nothing of it.
#[verifier::external_body]
fn location_text<T>(t: &T) -> String {
    format!("{:p}", t)
}

/// Whether `text` is what formatting the location of `t` may give. Which
/// text that is depends on where the value lives when it is asked for.
pub closed spec fn locates<T>(t: &T, text: Seq<char>) -> bool {
    exists|formatted: String| call_ensures(location_text::<T>, (t,), formatted) && formatted@ == text
}

impl Address {
    /// The identity of the value that `t` refers to: the text that
    /// formatting the location of `t` gives, as it stands.
    pub fn new<T>(t: &T) -> (address: Address)
        ensures
            locates(t, address@),
    {
        Address(location_text(t))
    }

    /// The identity as text.
    pub fn to_string(&self) -> (text: String)
        ensures
            text@ == self@,
    {
        self.0.clone()
    }

    fn render_port(&self, suffix: &str) -> (port: String)
        ensures
            port@ == port_text(self@, suffix@),
    {
        let mut port = self.0.clone();
        port.append(PORT_SEPARATOR);
        port.append(suffix);
        port
    }

    /// The name of the cell that holds the label.
    pub fn render_label_port(&self) -> (port: String)
        ensures
            port@ == port_text(self@, LABEL@),
    {
        self.render_port(LABEL)
    }

    /// The name of the cell that holds the type.
    pub fn render_type_port(&self) -> (port: String)
        ensures
            port@ == port_text(self@, TYPE@),
    {
        self.render_port(TYPE)
    }

    /// The name of the cell that holds the identity.
    pub fn render_address_port(&self) -> (port: String)
        ensures
            port@ == port_text(self@, ADDRESS@),
    {
        self.render_port(ADDRESS)
    }

    /// The name of the cell that holds the inline value.
    pub fn render_value_port(&self) -> (port: String)
        ensures
            port@ == port_text(self@, VALUE@),
    {
        self.render_port(VALUE)
    }

    /// The name of the cell that holds the nested table.
    pub fn render_associated_data_port(&self) -> (port: String)
        ensures
            port@ == port_text(self@, ASSOCIATED_DATA@),
    {
        self.render_port(ASSOCIATED_DATA)
    }
}

impl Clone for Address {
    fn clone(&self) -> (copy: Address)
        ensures
            copy == *self,
    {
        Address(self.0.clone())
    }
}

impl Default for Address {
    /// The empty identity.
    fn default() -> (address: Address)
        ensures
            address@ == Seq::<char>::empty(),
    {
        Address(String::new())
    }
}

impl<'a> From<&'a str> for Address {
    /// Takes the text as the identity, as it stands.
    fn from(address_string: &'a str) -> (address: Address)
        ensures
            address@ == address_string@,
    {
        Address(String::from_str(address_string))
    }
}

/// An address has no value in specifications but its text: the contract of
/// `from` gives that text, and no function stands for the address itself.
impl<'a> FromSpecImpl<&'a str> for Address {
    open spec fn obeys_from_spec() -> bool {
        false
    }

    open spec fn from_spec(address_string: &'a str) -> Address {
        arbitrary()
    }
}

} // verus!
