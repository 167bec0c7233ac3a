//! Containers and indirections.

use vstd::prelude::*;
use crate::data_description::{DataDescription, Value};
use crate::decimal::{decimal_text, unsigned_text};
use crate::impls::{describe_each, describes_each, reference_to, refers_to, shows};
use crate::visualize::{describes, names, Visualize};

verus! {

/// The name of `T` between `opening` and `closing`.
fn wrapped_name<T: Visualize>(opening: &str, closing: &str) -> (name: String)
    ensures
        exists|inner: Seq<char>| names::<T>(inner) && name@ == opening@ + inner + closing@,
{
    let inner = T::type_string();
    let mut name = String::from_str(opening);
    name.append(inner.as_str());
    name.append(closing);
    proof {
        assert(names::<T>(inner@));
    }
    name
}

impl<V: Visualize, const N: usize> Visualize for [V; N] {
    fn type_string() -> (name: String)
        ensures
            exists|inner: Seq<char>|
                names::<V>(inner) && name@ == "["@ + inner + "; "@ + decimal_text(N as int) + "]"@,
    {
        let inner = V::type_string();
        let mut name = String::from_str("[");
        name.append(inner.as_str());
        name.append("; ");
        name.append(unsigned_text(N as u128).as_str());
        name.append("]");
        proof {
            assert(names::<V>(inner@));
        }
        name
    }

    /// One description for each element. An array without elements has no
    /// nested descriptions at all.
    fn associated_data(&self) -> (nested: Option<Vec<DataDescription>>)
        ensures
            N == 0 ==> nested is None,
            N > 0 ==> (nested matches Some(each) && describes_each(self@, each@)),
    {
        if N == 0 {
            None
        } else {
            Some(describe_each(self.as_slice()))
        }
    }
}

impl<'a, V: Visualize> Visualize for &'a [V] {
    fn type_string() -> (name: String)
        ensures
            exists|inner: Seq<char>| names::<V>(inner) && name@ == "&["@ + inner + "]"@,
    {
        wrapped_name::<V>("&[", "]")
    }

    /// An arrow to the first element, where there is one.
    fn data(&self) -> (value: Option<Value>)
        ensures
            self@.len() == 0 ==> value is None,
            self@.len() > 0 ==> (value matches Some(reference) && refers_to(&self@[0], reference)),
    {
        if self.len() > 0 {
            Some(reference_to(&self[0]))
        } else {
            None
        }
    }
}

impl Visualize for () {
    fn type_string() -> (name: String)
        ensures
            name@ == "()"@,
    {
        String::from_str("()")
    }
}

impl<T: Visualize> Visualize for Option<T> {
    fn type_string() -> (name: String)
        ensures
            exists|inner: Seq<char>|
                names::<T>(inner) && name@ == "core::option::Option<"@ + inner + ">"@,
    {
        wrapped_name::<T>("core::option::Option<", ">")
    }

    /// The name of the variant.
    fn data(&self) -> (value: Option<Value>)
        ensures
            self is Some ==> shows(value, "Some"@),
            self is None ==> shows(value, "None"@),
    {
        match self {
            Some(_) => Some(Value::Owned(String::from_str("Some"))),
            None => Some(Value::Owned(String::from_str("None"))),
        }
    }

    /// The description of what is inside, where there is something.
    fn associated_data(&self) -> (nested: Option<Vec<DataDescription>>)
        ensures
            match *self {
                Some(inner) => nested matches Some(each) && each.len() == 1 && describes(
                    &inner,
                    each[0],
                ),
                None => nested is None,
            },
    {
        match self {
            Some(inner) => {
                let mut each: Vec<DataDescription> = Vec::new();
                each.push(DataDescription::describe(inner));
                Some(each)
            },
            None => None,
        }
    }
}

impl<T: Visualize> Visualize for Vec<T> {
    fn type_string() -> (name: String)
        ensures
            exists|inner: Seq<char>| names::<T>(inner) && name@ == "alloc::vec::Vec<"@ + inner + ">"@,
    {
        wrapped_name::<T>("alloc::vec::Vec<", ">")
    }

    /// One description for each element.
    fn associated_data(&self) -> (nested: Option<Vec<DataDescription>>)
        ensures
            nested matches Some(each) && describes_each(self@, each@),
    {
        Some(describe_each(self.as_slice()))
    }
}

impl<T: Visualize> Visualize for Box<T> {
    fn type_string() -> (name: String)
        ensures
            exists|inner: Seq<char>|
                names::<T>(inner) && name@ == "alloc::boxed::Box<"@ + inner + ">"@,
    {
        wrapped_name::<T>("alloc::boxed::Box<", ">")
    }

    /// An arrow to what the box holds. That value is drawn where it is
    /// added to the graph itself.
    fn data(&self) -> (value: Option<Value>)
        ensures
            value matches Some(reference) && refers_to::<T>(&**self, reference),
    {
        Some(reference_to::<T>(&**self))
    }
}

} // verus!
