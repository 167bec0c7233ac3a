use vizz::{Address, DataDescription, Value, Visualize};

fn owned_text(value: Option<Value>) -> String {
    match value {
        Some(Value::Owned(text)) => text,
        Some(Value::Referenced(..)) => panic!("an owned value was expected, not a reference"),
        None => panic!("an owned value was expected, not an absent one"),
    }
}

fn target_of(value: Option<Value>) -> (String, String) {
    match value {
        Some(Value::Referenced(target, node)) => (target.to_string(), node.to_string()),
        Some(Value::Owned(_)) => panic!("a reference was expected, not an owned value"),
        None => panic!("a reference was expected, not an absent value"),
    }
}

#[test]
fn whole_numbers_show_their_decimal_text() {
    assert_eq!(owned_text(0u8.data()), "0");
    assert_eq!(owned_text(255u8.data()), "255");
    assert_eq!(owned_text(65535u16.data()), "65535");
    assert_eq!(owned_text(4294967295u32.data()), "4294967295");
    assert_eq!(owned_text(u64::MAX.data()), "18446744073709551615");
    assert_eq!(owned_text(u128::MAX.data()), "340282366920938463463374607431768211455");
    assert_eq!(owned_text(12usize.data()), "12");
    assert_eq!(owned_text((-128i8).data()), "-128");
    assert_eq!(owned_text(127i8.data()), "127");
    assert_eq!(owned_text((-32768i16).data()), "-32768");
    assert_eq!(owned_text(i32::MIN.data()), "-2147483648");
    assert_eq!(owned_text(i64::MIN.data()), "-9223372036854775808");
    assert_eq!(owned_text(i128::MIN.data()), "-170141183460469231731687303715884105728");
    assert_eq!(owned_text((-3isize).data()), "-3");
}

#[test]
fn references_to_whole_numbers_show_the_number() {
    assert_eq!(owned_text(<&u8 as Visualize>::data(&&8u8)), "8");
    assert_eq!(owned_text(<&u16 as Visualize>::data(&&16u16)), "16");
    assert_eq!(owned_text(<&u32 as Visualize>::data(&&32u32)), "32");
    assert_eq!(owned_text(<&u64 as Visualize>::data(&&64u64)), "64");
    assert_eq!(owned_text(<&u128 as Visualize>::data(&&128u128)), "128");
    assert_eq!(owned_text(<&usize as Visualize>::data(&&1usize)), "1");
    assert_eq!(owned_text(<&i8 as Visualize>::data(&&-8i8)), "-8");
    assert_eq!(owned_text(<&i16 as Visualize>::data(&&-16i16)), "-16");
    assert_eq!(owned_text(<&i32 as Visualize>::data(&&-32i32)), "-32");
    assert_eq!(owned_text(<&i64 as Visualize>::data(&&-64i64)), "-64");
    assert_eq!(owned_text(<&i128 as Visualize>::data(&&-128i128)), "-128");
    assert_eq!(owned_text(<&isize as Visualize>::data(&&-1isize)), "-1");
}

#[test]
fn a_reference_to_a_number_is_described_as_a_reference() {
    let number = 8u8;
    let reference = &number;
    let description = DataDescription::from(&reference);
    assert_eq!(description.type_string, "&u8");
    assert_eq!(description.address.to_string(), Address::new(&reference).to_string());
    assert_eq!(owned_text(description.value), "8");
}

#[test]
fn whole_numbers_have_nothing_nested() {
    assert!(5u8.associated_data().is_none());
    assert!(<&i64 as Visualize>::associated_data(&&5i64).is_none());
}

#[test]
fn truth_values_and_characters() {
    assert_eq!(owned_text(true.data()), "true");
    assert_eq!(owned_text(false.data()), "false");
    assert_eq!(owned_text(<&bool as Visualize>::data(&&true)), "true");
    assert_eq!(owned_text(<&bool as Visualize>::data(&&false)), "false");
    assert_eq!(owned_text('x'.data()), "x");
    assert_eq!(owned_text('<'.data()), "<");
    assert_eq!(owned_text(<&char as Visualize>::data(&&'\u{e9}')), "\u{e9}");
}

#[test]
fn strings_show_their_content() {
    assert_eq!(owned_text(<&str as Visualize>::data(&"a str")), "a str");
    assert_eq!(owned_text(String::from("a string").data()), "a string");
    assert_eq!(owned_text(String::new().data()), "");
    assert!(String::from("s").associated_data().is_none());
}

#[test]
fn a_reference_to_a_string_is_an_arrow_to_the_string() {
    let string = String::from("hi");
    let reference = &string;
    let (target, node) = target_of(Visualize::data(&reference));
    assert_eq!(target, Address::new(&string).to_string());
    assert_eq!(node, string.render_node().to_string());
    assert!(Visualize::associated_data(&reference).is_none());
}

#[test]
fn a_reference_to_an_empty_string_shows_nothing() {
    let string = String::new();
    let reference = &string;
    assert!(Visualize::data(&reference).is_none());
    assert!(Visualize::associated_data(&reference).is_none());
}

#[test]
fn a_box_is_an_arrow_to_what_it_holds() {
    let boxed = Box::new(5u8);
    let (target, node) = target_of(boxed.data());
    assert_eq!(target, Address::new(&*boxed).to_string());
    assert_eq!(node, (*boxed).render_node().to_string());
    assert!(boxed.associated_data().is_none());
}

#[test]
fn a_slice_is_an_arrow_to_its_first_element() {
    let items = [7u8, 8, 9];
    let slice: &[u8] = &items;
    let (target, node) = target_of(<&[u8] as Visualize>::data(&slice));
    assert_eq!(target, Address::new(&items[0]).to_string());
    assert_eq!(node, items[0].render_node().to_string());
    assert!(slice.associated_data().is_none());
}

#[test]
fn an_empty_slice_shows_nothing() {
    let items: [u8; 0] = [];
    let slice: &[u8] = &items;
    assert!(slice.data().is_none());
    assert!(slice.associated_data().is_none());
}

#[test]
fn an_option_shows_the_name_of_its_variant() {
    assert_eq!(owned_text(Some(3u8).data()), "Some");
    assert_eq!(owned_text(None::<u8>.data()), "None");
}

#[test]
fn an_option_nests_what_it_holds() {
    let some = Some(3u8);
    let nested = some.associated_data().unwrap();
    assert_eq!(nested.len(), 1);
    assert!(nested[0].label_string.is_none());
    assert_eq!(nested[0].type_string, "u8");
    assert_eq!(nested[0].address.to_string(), Address::new(some.as_ref().unwrap()).to_string());
    match &nested[0].value {
        Some(Value::Owned(text)) => assert_eq!(text, "3"),
        _ => panic!("the number is shown in place"),
    }
    assert!(None::<u8>.associated_data().is_none());
}

fn texts_of(nested: &[DataDescription]) -> Vec<String> {
    nested
        .iter()
        .map(|d| match &d.value {
            Some(Value::Owned(text)) => text.clone(),
            _ => panic!("every element is shown in place"),
        })
        .collect()
}

#[test]
fn a_vector_nests_its_elements_in_order() {
    let items = vec![10u8, 20, 30];
    assert!(items.data().is_none());
    let nested = items.associated_data().unwrap();
    assert_eq!(texts_of(&nested), vec!["10", "20", "30"]);
    for (i, d) in nested.iter().enumerate() {
        assert!(d.label_string.is_none());
        assert_eq!(d.type_string, "u8");
        assert_eq!(d.address.to_string(), Address::new(&items[i]).to_string());
    }
}

#[test]
fn an_empty_vector_nests_an_empty_list() {
    let items: Vec<u8> = Vec::new();
    assert_eq!(items.associated_data().unwrap().len(), 0);
}

#[test]
fn an_array_nests_its_elements_in_order() {
    let items = [String::from("a"), String::from("b")];
    assert!(items.data().is_none());
    let nested = items.associated_data().unwrap();
    assert_eq!(texts_of(&nested), vec!["a", "b"]);
    assert_eq!(nested[1].address.to_string(), Address::new(&items[1]).to_string());
    assert!(nested.iter().all(|d| d.label_string.is_none()));
}

#[test]
fn an_empty_array_nests_nothing_at_all() {
    let items: [u8; 0] = [];
    assert!(items.data().is_none());
    assert!(items.associated_data().is_none());
}

#[test]
fn the_unit_shows_nothing() {
    assert!(().data().is_none());
    assert!(().associated_data().is_none());
}

#[test]
fn a_tuple_nests_its_components_in_order() {
    let pair = (1u8, String::from("two"));
    assert!(pair.data().is_none());
    let nested = pair.associated_data().unwrap();
    assert_eq!(texts_of(&nested), vec!["1", "two"]);
    assert_eq!(nested[0].type_string, "u8");
    assert_eq!(nested[1].type_string, "alloc::string::String");
    assert_eq!(nested[0].address.to_string(), Address::new(&pair.0).to_string());
    assert_eq!(nested[1].address.to_string(), Address::new(&pair.1).to_string());
    assert!(nested.iter().all(|d| d.label_string.is_none()));

    let single = (9i32,);
    assert_eq!(texts_of(&single.associated_data().unwrap()), vec!["9"]);
}

#[test]
fn the_longest_tuple_nests_sixteen_components() {
    let tuple = (0u8, 1u8, 2u8, 3u8, 4u8, 5u8, 6u8, 7u8, 8u8, 9u8, 10u8, 11u8, 12u8, 13u8, 14u8, 15u8);
    let nested = tuple.associated_data().unwrap();
    assert_eq!(
        texts_of(&nested),
        vec!["0", "1", "2", "3", "4", "5", "6", "7", "8", "9", "10", "11", "12", "13", "14", "15"]
    );
    assert_eq!(nested[15].address.to_string(), Address::new(&tuple.15).to_string());
}

#[test]
fn tuples_of_every_length_nest_that_many_components() {
    assert_eq!((1u8,).associated_data().unwrap().len(), 1);
    assert_eq!((1u8, 2u8).associated_data().unwrap().len(), 2);
    assert_eq!((1u8, 2u8, 3u8).associated_data().unwrap().len(), 3);
    assert_eq!((1u8, 2u8, 3u8, 4u8).associated_data().unwrap().len(), 4);
    assert_eq!((1u8, 2u8, 3u8, 4u8, 5u8).associated_data().unwrap().len(), 5);
    assert_eq!((1u8, 2u8, 3u8, 4u8, 5u8, 6u8).associated_data().unwrap().len(), 6);
    assert_eq!((1u8, 2u8, 3u8, 4u8, 5u8, 6u8, 7u8).associated_data().unwrap().len(), 7);
    assert_eq!((1u8, 2u8, 3u8, 4u8, 5u8, 6u8, 7u8, 8u8).associated_data().unwrap().len(), 8);
    assert_eq!((1u8, 2u8, 3u8, 4u8, 5u8, 6u8, 7u8, 8u8, 9u8).associated_data().unwrap().len(), 9);
    assert_eq!((1u8, 2u8, 3u8, 4u8, 5u8, 6u8, 7u8, 8u8, 9u8, 10u8).associated_data().unwrap().len(), 10);
    assert_eq!((1u8, 2u8, 3u8, 4u8, 5u8, 6u8, 7u8, 8u8, 9u8, 10u8, 11u8).associated_data().unwrap().len(), 11);
    assert_eq!((1u8, 2u8, 3u8, 4u8, 5u8, 6u8, 7u8, 8u8, 9u8, 10u8, 11u8, 12u8).associated_data().unwrap().len(), 12);
    assert_eq!((1u8, 2u8, 3u8, 4u8, 5u8, 6u8, 7u8, 8u8, 9u8, 10u8, 11u8, 12u8, 13u8).associated_data().unwrap().len(), 13);
    assert_eq!((1u8, 2u8, 3u8, 4u8, 5u8, 6u8, 7u8, 8u8, 9u8, 10u8, 11u8, 12u8, 13u8, 14u8).associated_data().unwrap().len(), 14);
    assert_eq!((1u8, 2u8, 3u8, 4u8, 5u8, 6u8, 7u8, 8u8, 9u8, 10u8, 11u8, 12u8, 13u8, 14u8, 15u8).associated_data().unwrap().len(), 15);
}

#[test]
fn a_description_of_a_value_has_no_label() {
    let value = 8u8;
    let description = DataDescription::from(&value);
    assert!(description.label_string.is_none());
    assert_eq!(description.address.to_string(), Address::new(&value).to_string());
    assert_eq!(description.type_string, "u8");
    match description.value {
        Some(Value::Owned(text)) => assert_eq!(text, "8"),
        _ => panic!("the number is shown in place"),
    }
    assert!(description.associated_data_descriptions.is_none());
    assert!(DataDescription::describe(&value).label_string.is_none());
}
