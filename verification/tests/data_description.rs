use vizz::{Address, DataDescription, RenderedNode, Value};

#[test]
fn test_label() {
    let label = "my_test_u8";
    let data_description = DataDescription::from(&8u8).with_label(label);
    assert_eq!(data_description.label_string.unwrap(), label);
}

#[test]
fn test_render_table_row_primitive() {
    let address = Address::from("0x12345678");
    let label_string = Some(String::from("my_label"));
    let type_string = String::from("u8");
    let value = Some(Value::Owned(String::from("145")));
    let associated_data_descriptions = None;

    let data_description = DataDescription {
        address,
        label_string,
        type_string,
        value,
        associated_data_descriptions,
    };

    assert_eq!(data_description.render_table_row(), "<TR><TD PORT=\"0x12345678-label\">my_label</TD><TD PORT=\"0x12345678-address\"><I>0x12345678</I></TD><TD PORT=\"0x12345678-type\"><B>u8</B></TD><TD PORT=\"0x12345678-value\">145</TD></TR>");
}

#[test]
fn test_render_table_row_enum_plain() {
    let address = Address::from("0x12345678");
    let label_string = Some(String::from("my_label"));
    let type_string = String::from("foo::bar::Enum");
    let value = Some(Value::Owned(String::from("MyEnumVariant")));
    let associated_data_descriptions = None;

    let data_description = DataDescription {
        address,
        label_string,
        type_string,
        value,
        associated_data_descriptions,
    };

    assert_eq!(data_description.render_table_row(), "<TR><TD PORT=\"0x12345678-label\">my_label</TD><TD PORT=\"0x12345678-address\"><I>0x12345678</I></TD><TD PORT=\"0x12345678-type\"><B>foo::bar::Enum</B></TD><TD PORT=\"0x12345678-value\">MyEnumVariant</TD></TR>");
}

#[test]
fn test_render_table_row_enum_tuple() {
    let address = Address::from("0x12345678");
    let label_string = None;
    let type_string = String::from("u8");
    let value = Some(Value::Owned(String::from("178")));
    let associated_data_descriptions = None;

    let inner1 = DataDescription {
        address,
        label_string,
        type_string,
        value,
        associated_data_descriptions,
    };

    let address = Address::from("0x12345678");
    let label_string = None;
    let type_string = String::from("alloc::string::String");
    let value = Some(Value::Owned(String::from("abcdefghi")));
    let associated_data_descriptions = None;

    let inner2 = DataDescription {
        address,
        label_string,
        type_string,
        value,
        associated_data_descriptions,
    };

    let address = Address::from("0x12345678");
    let label_string = Some(String::from("my_label"));
    let type_string = String::from("foo::bar::Enum");
    let value = Some(Value::Owned(String::from("MyEnumVariant")));
    let associated_data_descriptions = Some(vec![inner1, inner2]);

    let data_description = DataDescription {
        address,
        label_string,
        type_string,
        value,
        associated_data_descriptions,
    };

    assert_eq!(data_description.render_table_row(), "<TR><TD PORT=\"0x12345678-label\">my_label</TD><TD PORT=\"0x12345678-address\"><I>0x12345678</I></TD><TD PORT=\"0x12345678-type\"><B>foo::bar::Enum</B></TD><TD PORT=\"0x12345678-value\">MyEnumVariant</TD><TD PORT=\"0x12345678-associated-data\"><TABLE BORDER=\"0\" CELLBORDER=\"1\" CELLSPACING=\"0\"><TR><TD PORT=\"0x12345678-address\"><I>0x12345678</I></TD><TD PORT=\"0x12345678-type\"><B>u8</B></TD><TD PORT=\"0x12345678-value\">178</TD></TR><TR><TD PORT=\"0x12345678-address\"><I>0x12345678</I></TD><TD PORT=\"0x12345678-type\"><B>alloc::string::String</B></TD><TD PORT=\"0x12345678-value\">abcdefghi</TD></TR></TABLE></TD></TR>");
}

#[test]
fn test_render_table_row_enum_struct() {
    let address = Address::from("0x12345678");
    let label_string = Some(String::from("my_u8"));
    let type_string = String::from("u8");
    let value = Some(Value::Owned(String::from("178")));
    let associated_data_descriptions = None;

    let inner1 = DataDescription {
        address,
        label_string,
        type_string,
        value,
        associated_data_descriptions,
    };

    let address = Address::from("0x12345678");
    let label_string = Some(String::from("my_string"));
    let type_string = String::from("alloc::string::String");
    let value = Some(Value::Owned(String::from("abcdefghi")));
    let associated_data_descriptions = None;

    let inner2 = DataDescription {
        address,
        label_string,
        type_string,
        value,
        associated_data_descriptions,
    };

    let address = Address::from("0x12345678");
    let label_string = Some(String::from("my_label"));
    let type_string = String::from("foo::bar::Enum");
    let value = Some(Value::Owned(String::from("MyEnumVariant")));
    let associated_data_descriptions = Some(vec![inner1, inner2]);

    let data_description = DataDescription {
        address,
        label_string,
        type_string,
        value,
        associated_data_descriptions,
    };

    assert_eq!(data_description.render_table_row(), "<TR><TD PORT=\"0x12345678-label\">my_label</TD><TD PORT=\"0x12345678-address\"><I>0x12345678</I></TD><TD PORT=\"0x12345678-type\"><B>foo::bar::Enum</B></TD><TD PORT=\"0x12345678-value\">MyEnumVariant</TD><TD PORT=\"0x12345678-associated-data\"><TABLE BORDER=\"0\" CELLBORDER=\"1\" CELLSPACING=\"0\"><TR><TD PORT=\"0x12345678-label\">my_u8</TD><TD PORT=\"0x12345678-address\"><I>0x12345678</I></TD><TD PORT=\"0x12345678-type\"><B>u8</B></TD><TD PORT=\"0x12345678-value\">178</TD></TR><TR><TD PORT=\"0x12345678-label\">my_string</TD><TD PORT=\"0x12345678-address\"><I>0x12345678</I></TD><TD PORT=\"0x12345678-type\"><B>alloc::string::String</B></TD><TD PORT=\"0x12345678-value\">abcdefghi</TD></TR></TABLE></TD></TR>");
}

#[test]
fn test_render_table_row_struct() {
    let address = Address::from("0x12345678");
    let label_string = Some(String::from("my_u8"));
    let type_string = String::from("u8");
    let value = Some(Value::Owned(String::from("178")));
    let associated_data_descriptions = None;

    let inner1 = DataDescription {
        address,
        label_string,
        type_string,
        value,
        associated_data_descriptions,
    };

    let address = Address::from("0x12345678");
    let label_string = Some(String::from("my_string"));
    let type_string = String::from("alloc::string::String");
    let value = Some(Value::Owned(String::from("abcdefghi")));
    let associated_data_descriptions = None;

    let inner2 = DataDescription {
        address,
        label_string,
        type_string,
        value,
        associated_data_descriptions,
    };

    let address = Address::from("0x12345678");
    let label_string = None;
    let type_string = String::from("foo::bar::Struct");
    let value = None;
    let associated_data_descriptions = Some(vec![inner1, inner2]);

    let data_description = DataDescription {
        address,
        label_string,
        type_string,
        value,
        associated_data_descriptions,
    };

    assert_eq!(data_description.render_table_row(), "<TR><TD PORT=\"0x12345678-address\"><I>0x12345678</I></TD><TD PORT=\"0x12345678-type\"><B>foo::bar::Struct</B></TD><TD PORT=\"0x12345678-associated-data\"><TABLE BORDER=\"0\" CELLBORDER=\"1\" CELLSPACING=\"0\"><TR><TD PORT=\"0x12345678-label\">my_u8</TD><TD PORT=\"0x12345678-address\"><I>0x12345678</I></TD><TD PORT=\"0x12345678-type\"><B>u8</B></TD><TD PORT=\"0x12345678-value\">178</TD></TR><TR><TD PORT=\"0x12345678-label\">my_string</TD><TD PORT=\"0x12345678-address\"><I>0x12345678</I></TD><TD PORT=\"0x12345678-type\"><B>alloc::string::String</B></TD><TD PORT=\"0x12345678-value\">abcdefghi</TD></TR></TABLE></TD></TR>");
}

#[test]
fn test_render_table_row_ref_to_struct() {
    let address = Address::from("0x12345678");
    let label_string = None;
    let type_string = String::from("&foo::bar::Struct");
    let value = Some(Value::Referenced(
        Address::from("0xcafebaee"),
        RenderedNode::from(String::from("this is unchecked")),
    ));
    let associated_data_descriptions = None;

    let data_description = DataDescription {
        address,
        label_string,
        type_string,
        value,
        associated_data_descriptions,
    };

    assert_eq!(data_description.render_table_row(), "<TR><TD PORT=\"0x12345678-address\"><I>0x12345678</I></TD><TD PORT=\"0x12345678-type\"><B>&amp;foo::bar::Struct</B></TD><TD PORT=\"0x12345678-value\"></TD></TR>");
}

#[test]
fn test_render_references() {
    let address = Address::from("0x12345678");
    let label_string = Some(String::from("my_u8_ref"));
    let type_string = String::from("u8");
    let value = Some(Value::Referenced(
        Address::from("ref1"),
        RenderedNode::from(String::from("unchecked")),
    ));
    let associated_data_descriptions = None;

    let inner1 = DataDescription {
        address,
        label_string,
        type_string,
        value,
        associated_data_descriptions,
    };

    let address = Address::from("0x12345678");
    let label_string = Some(String::from("my_string_ref"));
    let type_string = String::from("alloc::string::String");
    let value = Some(Value::Referenced(
        Address::from("ref2"),
        RenderedNode::from(String::from("unchecked")),
    ));
    let associated_data_descriptions = None;

    let inner2 = DataDescription {
        address,
        label_string,
        type_string,
        value,
        associated_data_descriptions,
    };

    let address = Address::from("0x12345678");
    let label_string = None;
    let type_string = String::from("foo::bar::Struct");
    let value = None;
    let associated_data_descriptions = Some(vec![inner1, inner2]);

    let data_description = DataDescription {
        address,
        label_string,
        type_string,
        value,
        associated_data_descriptions,
    };

    assert_eq!(data_description.render_references(&Address::from("root-node-name")), "\"root-node-name\":\"0x12345678-value\" -> \"ref1\":\"ref1-address\"\n\"root-node-name\":\"0x12345678-value\" -> \"ref2\":\"ref2-address\"\n");
}
