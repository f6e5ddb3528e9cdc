use palette_table::document::{find_node, Document, Entry, Node, NodeKey, Value};

fn text(s: &str) -> Value {
    Value::String(String::from(s))
}

fn arg(value: Value) -> Entry {
    Entry { name: None, value }
}

fn prop(name: &str, value: Value) -> Entry {
    Entry { name: Some(String::from(name)), value }
}

fn node(name: &str, entries: Vec<Entry>) -> Node {
    Node { name: String::from(name), entries, children: None }
}

#[test]
fn get_finds_the_first_node_of_a_name() {
    let doc = Document {
        nodes: vec![
            node("other", vec![]),
            node("palette", vec![arg(text("first"))]),
            node("palette", vec![arg(text("second"))]),
        ],
    };
    assert_eq!(doc.get("palette"), Some(&doc.nodes[1]));
    assert_eq!(doc.get("other"), Some(&doc.nodes[0]));
    assert_eq!(doc.get("swatch"), None);
    assert_eq!(doc.get(""), None);
    assert_eq!(find_node(&doc.nodes, "palette"), Some(&doc.nodes[1]));
    assert_eq!(find_node(&Vec::new(), "palette"), None);
}

#[test]
fn argument_counts_arguments_only() {
    let n = node(
        "midnight",
        vec![prop("value", text("#000000")), arg(text("a")), prop("x", Value::Null), arg(text("b"))],
    );
    assert_eq!(n.argument(0), Some(&n.entries[1]));
    assert_eq!(n.argument(1), Some(&n.entries[3]));
    assert_eq!(n.argument(2), None);
    assert_eq!(n.argument(usize::MAX), None);
    assert_eq!(node("empty", vec![]).argument(0), None);
    assert_eq!(node("props", vec![prop("a", Value::Null)]).argument(0), None);
}

#[test]
fn property_is_the_last_of_its_name() {
    let n = node(
        "info",
        vec![prop("ui", text("one")), arg(text("ui")), prop("code", text("c")), prop("ui", text("two"))],
    );
    assert_eq!(n.property("ui"), Some(&n.entries[3]));
    assert_eq!(n.property("code"), Some(&n.entries[2]));
    assert_eq!(n.property("value"), None);
    assert_eq!(n.property("UI"), None);
}

#[test]
fn get_goes_by_the_kind_of_key() {
    let n = node("midnight", vec![prop("value", text("#000000")), arg(text("Night"))]);
    assert_eq!(n.get(&NodeKey::Index(0)), Some(&n.entries[1]));
    assert_eq!(n.get(&NodeKey::Index(1)), None);
    assert_eq!(n.get(&NodeKey::Key(String::from("value"))), Some(&n.entries[0]));
    assert_eq!(n.get(&NodeKey::Key(String::from("0"))), None);
}

#[test]
fn plain_text_of_a_text_has_no_quotes() {
    assert_eq!(text("Night Sky").plain_text(), "Night Sky");
    assert_eq!(text("").plain_text(), "");
    assert_eq!(text("caf\u{e9} <b>").plain_text(), "caf\u{e9} <b>");
}

#[test]
fn plain_text_is_the_text_as_it_is() {
    for content in [
        "a\"b", "a\\b", "line\nbreak", "tab\there\r", "\u{8}\u{c}", "\"quoted\"", "\"", "\"\"",
        "Tom \"the cat\"", " spaced ", "r\"raw\"",
    ] {
        assert_eq!(text(content).plain_text(), content);
    }
}

#[test]
fn plain_text_of_other_values() {
    assert_eq!(Value::Number(String::from("42")).plain_text(), "42");
    assert_eq!(Value::Number(String::from("0x1f")).plain_text(), "0x1f");
    assert_eq!(Value::Number(String::from("-1.5")).plain_text(), "-1.5");
    assert_eq!(Value::Number(String::from("\"7\"")).plain_text(), "\"7\"");
    assert_eq!(Value::Bool(true).plain_text(), "true");
    assert_eq!(Value::Bool(false).plain_text(), "false");
    assert_eq!(Value::Null.plain_text(), "null");
}
