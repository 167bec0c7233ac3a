use vizz::util::type_of;
use vizz::Visualize;

#[test]
fn the_names_of_whole_numbers() {
    assert_eq!(u8::type_string(), "u8");
    assert_eq!(u16::type_string(), "u16");
    assert_eq!(u32::type_string(), "u32");
    assert_eq!(u64::type_string(), "u64");
    assert_eq!(u128::type_string(), "u128");
    assert_eq!(usize::type_string(), "usize");
    assert_eq!(i8::type_string(), "i8");
    assert_eq!(i16::type_string(), "i16");
    assert_eq!(i32::type_string(), "i32");
    assert_eq!(i64::type_string(), "i64");
    assert_eq!(i128::type_string(), "i128");
    assert_eq!(isize::type_string(), "isize");
    assert_eq!(<&u8>::type_string(), "&u8");
    assert_eq!(<&i128>::type_string(), "&i128");
}

#[test]
fn the_names_of_text_types() {
    assert_eq!(bool::type_string(), "bool");
    assert_eq!(<&bool>::type_string(), "&bool");
    assert_eq!(char::type_string(), "char");
    assert_eq!(<&char>::type_string(), "&char");
    assert_eq!(<&str>::type_string(), "&str");
    assert_eq!(String::type_string(), "alloc::string::String");
    assert_eq!(<&String>::type_string(), "&alloc::string::String");
}

#[test]
fn the_names_of_containers() {
    assert_eq!(<()>::type_string(), "()");
    assert_eq!(<Option<u8>>::type_string(), "core::option::Option<u8>");
    assert_eq!(<Vec<String>>::type_string(), "alloc::vec::Vec<alloc::string::String>");
    assert_eq!(<Box<i64>>::type_string(), "alloc::boxed::Box<i64>");
    assert_eq!(<[u8; 0]>::type_string(), "[u8; 0]");
    assert_eq!(<[u8; 12]>::type_string(), "[u8; 12]");
    assert_eq!(<&[bool]>::type_string(), "&[bool]");
    assert_eq!(<(u8,)>::type_string(), "(u8,)");
    assert_eq!(<(u8, char)>::type_string(), "(u8, char)");
    assert_eq!(
        <Vec<Option<(u8, Box<&String>)>>>::type_string(),
        "alloc::vec::Vec<core::option::Option<(u8, alloc::boxed::Box<&alloc::string::String>)>>"
    );
}

#[test]
fn the_name_of_the_type_of_a_value() {
    assert_eq!(type_of(&3u8), "u8");
    assert_eq!(type_of(&String::from("s")), "alloc::string::String");
    assert_eq!(type_of(&vec![Some(1u16)]), "alloc::vec::Vec<core::option::Option<u16>>");
}
