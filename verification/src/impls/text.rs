//! Truth values, characters and strings.

use vstd::prelude::*;
use crate::data_description::Value;
use crate::impls::{reference_to, refers_to, shows};
use crate::visualize::Visualize;

verus! {

/// How a truth value reads.
pub open spec fn bool_text(b: bool) -> Seq<char> {
    if b {
        "true"@
    } else {
        "false"@
    }
}

fn bool_string(b: bool) -> (text: String)
    ensures
        text@ == bool_text(b),
{
    if b {
        String::from_str("true")
    } else {
        String::from_str("false")
    }
}

fn char_string(c: char) -> (text: String)
    ensures
        text@ == seq![c],
{
    let mut text = String::new();
    text.push(c);
    text
}

impl Visualize for bool {
    fn type_string() -> (name: String)
        ensures
            name@ == "bool"@,
    {
        String::from_str("bool")
    }

    fn data(&self) -> (value: Option<Value>)
        ensures
            shows(value, bool_text(*self)),
    {
        Some(Value::Owned(bool_string(*self)))
    }
}

impl<'a> Visualize for &'a bool {
    fn type_string() -> (name: String)
        ensures
            name@ == "&bool"@,
    {
        String::from_str("&bool")
    }

    fn data(&self) -> (value: Option<Value>)
        ensures
            shows(value, bool_text(**self)),
    {
        Some(Value::Owned(bool_string(**self)))
    }
}

impl Visualize for char {
    fn type_string() -> (name: String)
        ensures
            name@ == "char"@,
    {
        String::from_str("char")
    }

    fn data(&self) -> (value: Option<Value>)
        ensures
            shows(value, seq![*self]),
    {
        Some(Value::Owned(char_string(*self)))
    }
}

impl<'a> Visualize for &'a char {
    fn type_string() -> (name: String)
        ensures
            name@ == "&char"@,
    {
        String::from_str("&char")
    }

    fn data(&self) -> (value: Option<Value>)
        ensures
            shows(value, seq![**self]),
    {
        Some(Value::Owned(char_string(**self)))
    }
}

impl<'a> Visualize for &'a str {
    fn type_string() -> (name: String)
        ensures
            name@ == "&str"@,
    {
        String::from_str("&str")
    }

    /// The content of the string, shown in place.
    fn data(&self) -> (value: Option<Value>)
        ensures
            shows(value, self@),
    {
        Some(Value::Owned(String::from_str(*self)))
    }
}

impl Visualize for String {
    fn type_string() -> (name: String)
        ensures
            name@ == "alloc::string::String"@,
    {
        String::from_str("alloc::string::String")
    }

    /// The content of the string, shown in place.
    fn data(&self) -> (value: Option<Value>)
        ensures
            shows(value, self@),
    {
        Some(Value::Owned(self.clone()))
    }
}

impl<'a> Visualize for &'a String {
    fn type_string() -> (name: String)
        ensures
            name@ == "&alloc::string::String"@,
    {
        String::from_str("&alloc::string::String")
    }

    /// An arrow to the string, unless the string is empty. The string is
    /// drawn where it is added to the graph itself.
    fn data(&self) -> (value: Option<Value>)
        ensures
            self@.len() == 0 ==> value is None,
            self@.len() > 0 ==> (value matches Some(reference) && refers_to::<String>(
                *self,
                reference,
            )),
    {
        if self.as_str().is_empty() {
            None
        } else {
            Some(reference_to::<String>(*self))
        }
    }
}

} // verus!
