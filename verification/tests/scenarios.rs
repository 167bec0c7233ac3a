use vizz::{Address, DataDescription, Graph, Visualize};

#[test]
fn a_byte_in_a_graph_named_g() {
    let value = 8u8;
    let addr = Address::new(&value).to_string();
    let document = Graph::new().set_id("g").add_node(&value).render();
    assert_eq!(document, format!("digraph g {{\n  node [shape=plaintext]\n    \"{0}\" [label=<<TABLE BORDER=\"0\" CELLBORDER=\"1\" CELLSPACING=\"0\"><TR><TD PORT=\"{0}-address\"><I>{0}</I></TD><TD PORT=\"{0}-type\"><B>u8</B></TD><TD PORT=\"{0}-value\">8</TD></TR></TABLE>>];\n    \n}}", addr));
}

struct Record<'a> {
    a: u8,
    b: &'a String,
}

impl<'a> Visualize for Record<'a> {
    fn type_string() -> String {
        String::from("Record")
    }

    fn associated_data(&self) -> Option<Vec<DataDescription>> {
        Some(vec![
            DataDescription::from(&self.a).with_label("a"),
            DataDescription::from(&self.b).with_label("b"),
        ])
    }
}

#[test]
fn a_record_with_a_reference() {
    let hi = String::from("hi");
    let record = Record { a: 42, b: &hi };
    let record_address = Address::new(&record).to_string();
    let a_address = Address::new(&record.a).to_string();
    let b_address = Address::new(&record.b).to_string();
    let hi_address = Address::new(&hi).to_string();

    let node = record.render_node().to_string();
    assert_eq!(node, format!("  node [shape=plaintext]\n    \"{0}\" [label=<<TABLE BORDER=\"0\" CELLBORDER=\"1\" CELLSPACING=\"0\"><TR><TD PORT=\"{0}-address\"><I>{0}</I></TD><TD PORT=\"{0}-type\"><B>Record</B></TD><TD PORT=\"{0}-associated-data\"><TABLE BORDER=\"0\" CELLBORDER=\"1\" CELLSPACING=\"0\"><TR><TD PORT=\"{1}-label\">a</TD><TD PORT=\"{1}-address\"><I>{1}</I></TD><TD PORT=\"{1}-type\"><B>u8</B></TD><TD PORT=\"{1}-value\">42</TD></TR><TR><TD PORT=\"{2}-label\">b</TD><TD PORT=\"{2}-address\"><I>{2}</I></TD><TD PORT=\"{2}-type\"><B>&amp;alloc::string::String</B></TD><TD PORT=\"{2}-value\"></TD></TR></TABLE></TD></TR></TABLE>>];\n    \"{0}\":\"{2}-value\" -> \"{3}\":\"{3}-address\"\n", record_address, a_address, b_address, hi_address));
    assert_eq!(node.matches("node [shape=plaintext]").count(), 1);
    assert_eq!(node.matches(" -> ").count(), 1);
    assert_eq!(node.matches("-label\">").count(), 2);

    // The arrow ends at a node only where the referent is added as well.
    let alone = Graph::new().add_node(&record).render();
    assert!(!alone.contains(&format!("\"{}\" [label=", hi_address)));
    let both = Graph::new().add_node(&record).add_node(&hi).render();
    assert_eq!(both, format!("digraph visualization {{\n{}{}\n}}", node, hi.render_node().inner()));
    assert!(both.contains(&format!("\"{0}\" [label=<<TABLE BORDER=\"0\" CELLBORDER=\"1\" CELLSPACING=\"0\"><TR><TD PORT=\"{0}-address\">", hi_address)));
}

#[test]
fn the_fields_of_a_record_are_shown_in_their_order() {
    let hi = String::from("hi");
    let record = Record { a: 1, b: &hi };
    let nested = record.associated_data().unwrap();
    assert_eq!(nested[0].label_string.as_deref(), Some("a"));
    assert_eq!(nested[1].label_string.as_deref(), Some("b"));
    let row = DataDescription::from(&record).render_table_row();
    assert!(row.find("-label\">a<").unwrap() < row.find("-label\">b<").unwrap());
}

#[test]
fn the_same_value_renders_to_the_same_node() {
    let value = vec![String::from("a"), String::from("b")];
    assert_eq!(value.render_node().to_string(), value.render_node().to_string());
    let boxed = Box::new((1u8, 'c'));
    assert_eq!(boxed.render_node().to_string(), boxed.render_node().to_string());
}

#[test]
fn a_pair_and_the_string_it_refers_to() {
    let text = String::from("referred to");
    let pair = (8u8, &text);
    let document = Graph::new().set_id("g").add_node(&pair).add_node(&text).render();
    let pair_address = Address::new(&pair).to_string();
    let reference_address = Address::new(&pair.1).to_string();
    let text_address = Address::new(&text).to_string();
    assert!(document.starts_with("digraph g {"));
    assert!(document.contains("<B>(u8, &amp;alloc::string::String)</B>"));
    assert!(document.contains(&format!(
        "\"{0}\":\"{1}-value\" -> \"{2}\":\"{2}-address\"\n",
        pair_address, reference_address, text_address
    )));
    assert!(document.contains(&format!("\"{0}\" [label=<", text_address)));
    assert!(document.ends_with(">referred to</TD></TR></TABLE>>];\n    \n}"));
}
