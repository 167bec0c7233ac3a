use vizz::util;
use vizz::Visualize;

#[test]
fn test_render_node() {
    let target = 8u8;
    let target_address_string = util::address_of(&target);
    assert_eq!((&target).render_node().inner(), format!("  node [shape=plaintext]\n    \"{0}\" [label=<<TABLE BORDER=\"0\" CELLBORDER=\"1\" CELLSPACING=\"0\"><TR><TD PORT=\"{0}-address\"><I>{0}</I></TD><TD PORT=\"{0}-type\"><B>u8</B></TD><TD PORT=\"{0}-value\">8</TD></TR></TABLE>>];\n    ", target_address_string))
}
