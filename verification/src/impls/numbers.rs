//! Whole numbers show their decimal text.

use vstd::prelude::*;
use crate::data_description::Value;
use crate::decimal::{decimal_text, signed_text, unsigned_text};
use crate::impls::shows;
use crate::visualize::Visualize;

verus! {

impl Visualize for u8 {
    fn type_string() -> (name: String)
        ensures
            name@ == "u8"@,
    {
        String::from_str("u8")
    }

    fn data(&self) -> (value: Option<Value>)
        ensures
            shows(value, decimal_text(*self as int)),
    {
        Some(Value::Owned(unsigned_text(*self as u128)))
    }
}

impl<'a> Visualize for &'a u8 {
    fn type_string() -> (name: String)
        ensures
            name@ == "&u8"@,
    {
        String::from_str("&u8")
    }

    fn data(&self) -> (value: Option<Value>)
        ensures
            shows(value, decimal_text(**self as int)),
    {
        Some(Value::Owned(unsigned_text(**self as u128)))
    }
}

impl Visualize for u16 {
    fn type_string() -> (name: String)
        ensures
            name@ == "u16"@,
    {
        String::from_str("u16")
    }

    fn data(&self) -> (value: Option<Value>)
        ensures
            shows(value, decimal_text(*self as int)),
    {
        Some(Value::Owned(unsigned_text(*self as u128)))
    }
}

impl<'a> Visualize for &'a u16 {
    fn type_string() -> (name: String)
        ensures
            name@ == "&u16"@,
    {
        String::from_str("&u16")
    }

    fn data(&self) -> (value: Option<Value>)
        ensures
            shows(value, decimal_text(**self as int)),
    {
        Some(Value::Owned(unsigned_text(**self as u128)))
    }
}

impl Visualize for u32 {
    fn type_string() -> (name: String)
        ensures
            name@ == "u32"@,
    {
        String::from_str("u32")
    }

    fn data(&self) -> (value: Option<Value>)
        ensures
            shows(value, decimal_text(*self as int)),
    {
        Some(Value::Owned(unsigned_text(*self as u128)))
    }
}

impl<'a> Visualize for &'a u32 {
    fn type_string() -> (name: String)
        ensures
            name@ == "&u32"@,
    {
        String::from_str("&u32")
    }

    fn data(&self) -> (value: Option<Value>)
        ensures
            shows(value, decimal_text(**self as int)),
    {
        Some(Value::Owned(unsigned_text(**self as u128)))
    }
}

impl Visualize for u64 {
    fn type_string() -> (name: String)
        ensures
            name@ == "u64"@,
    {
        String::from_str("u64")
    }

    fn data(&self) -> (value: Option<Value>)
        ensures
            shows(value, decimal_text(*self as int)),
    {
        Some(Value::Owned(unsigned_text(*self as u128)))
    }
}

impl<'a> Visualize for &'a u64 {
    fn type_string() -> (name: String)
        ensures
            name@ == "&u64"@,
    {
        String::from_str("&u64")
    }

    fn data(&self) -> (value: Option<Value>)
        ensures
            shows(value, decimal_text(**self as int)),
    {
        Some(Value::Owned(unsigned_text(**self as u128)))
    }
}

impl Visualize for u128 {
    fn type_string() -> (name: String)
        ensures
            name@ == "u128"@,
    {
        String::from_str("u128")
    }

    fn data(&self) -> (value: Option<Value>)
        ensures
            shows(value, decimal_text(*self as int)),
    {
        Some(Value::Owned(unsigned_text(*self)))
    }
}

impl<'a> Visualize for &'a u128 {
    fn type_string() -> (name: String)
        ensures
            name@ == "&u128"@,
    {
        String::from_str("&u128")
    }

    fn data(&self) -> (value: Option<Value>)
        ensures
            shows(value, decimal_text(**self as int)),
    {
        Some(Value::Owned(unsigned_text(**self)))
    }
}

impl Visualize for usize {
    fn type_string() -> (name: String)
        ensures
            name@ == "usize"@,
    {
        String::from_str("usize")
    }

    fn data(&self) -> (value: Option<Value>)
        ensures
            shows(value, decimal_text(*self as int)),
    {
        Some(Value::Owned(unsigned_text(*self as u128)))
    }
}

impl<'a> Visualize for &'a usize {
    fn type_string() -> (name: String)
        ensures
            name@ == "&usize"@,
    {
        String::from_str("&usize")
    }

    fn data(&self) -> (value: Option<Value>)
        ensures
            shows(value, decimal_text(**self as int)),
    {
        Some(Value::Owned(unsigned_text(**self as u128)))
    }
}

impl Visualize for i8 {
    fn type_string() -> (name: String)
        ensures
            name@ == "i8"@,
    {
        String::from_str("i8")
    }

    fn data(&self) -> (value: Option<Value>)
        ensures
            shows(value, decimal_text(*self as int)),
    {
        Some(Value::Owned(signed_text(*self as i128)))
    }
}

impl<'a> Visualize for &'a i8 {
    fn type_string() -> (name: String)
        ensures
            name@ == "&i8"@,
    {
        String::from_str("&i8")
    }

    fn data(&self) -> (value: Option<Value>)
        ensures
            shows(value, decimal_text(**self as int)),
    {
        Some(Value::Owned(signed_text(**self as i128)))
    }
}

impl Visualize for i16 {
    fn type_string() -> (name: String)
        ensures
            name@ == "i16"@,
    {
        String::from_str("i16")
    }

    fn data(&self) -> (value: Option<Value>)
        ensures
            shows(value, decimal_text(*self as int)),
    {
        Some(Value::Owned(signed_text(*self as i128)))
    }
}

impl<'a> Visualize for &'a i16 {
    fn type_string() -> (name: String)
        ensures
            name@ == "&i16"@,
    {
        String::from_str("&i16")
    }

    fn data(&self) -> (value: Option<Value>)
        ensures
            shows(value, decimal_text(**self as int)),
    {
        Some(Value::Owned(signed_text(**self as i128)))
    }
}

impl Visualize for i32 {
    fn type_string() -> (name: String)
        ensures
            name@ == "i32"@,
    {
        String::from_str("i32")
    }

    fn data(&self) -> (value: Option<Value>)
        ensures
            shows(value, decimal_text(*self as int)),
    {
        Some(Value::Owned(signed_text(*self as i128)))
    }
}

impl<'a> Visualize for &'a i32 {
    fn type_string() -> (name: String)
        ensures
            name@ == "&i32"@,
    {
        String::from_str("&i32")
    }

    fn data(&self) -> (value: Option<Value>)
        ensures
            shows(value, decimal_text(**self as int)),
    {
        Some(Value::Owned(signed_text(**self as i128)))
    }
}

impl Visualize for i64 {
    fn type_string() -> (name: String)
        ensures
            name@ == "i64"@,
    {
        String::from_str("i64")
    }

    fn data(&self) -> (value: Option<Value>)
        ensures
            shows(value, decimal_text(*self as int)),
    {
        Some(Value::Owned(signed_text(*self as i128)))
    }
}

impl<'a> Visualize for &'a i64 {
    fn type_string() -> (name: String)
        ensures
            name@ == "&i64"@,
    {
        String::from_str("&i64")
    }

    fn data(&self) -> (value: Option<Value>)
        ensures
            shows(value, decimal_text(**self as int)),
    {
        Some(Value::Owned(signed_text(**self as i128)))
    }
}

impl Visualize for i128 {
    fn type_string() -> (name: String)
        ensures
            name@ == "i128"@,
    {
        String::from_str("i128")
    }

    fn data(&self) -> (value: Option<Value>)
        ensures
            shows(value, decimal_text(*self as int)),
    {
        Some(Value::Owned(signed_text(*self)))
    }
}

impl<'a> Visualize for &'a i128 {
    fn type_string() -> (name: String)
        ensures
            name@ == "&i128"@,
    {
        String::from_str("&i128")
    }

    fn data(&self) -> (value: Option<Value>)
        ensures
            shows(value, decimal_text(**self as int)),
    {
        Some(Value::Owned(signed_text(**self)))
    }
}

impl Visualize for isize {
    fn type_string() -> (name: String)
        ensures
            name@ == "isize"@,
    {
        String::from_str("isize")
    }

    fn data(&self) -> (value: Option<Value>)
        ensures
            shows(value, decimal_text(*self as int)),
    {
        Some(Value::Owned(signed_text(*self as i128)))
    }
}

impl<'a> Visualize for &'a isize {
    fn type_string() -> (name: String)
        ensures
            name@ == "&isize"@,
    {
        String::from_str("&isize")
    }

    fn data(&self) -> (value: Option<Value>)
        ensures
            shows(value, decimal_text(**self as int)),
    {
        Some(Value::Owned(signed_text(**self as i128)))
    }
}

} // verus!
