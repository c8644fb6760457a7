use openvmm_ctl::tree::{
    count_children, find_bool, find_dir, find_node, find_string, find_u64, find_value, Entry, Node, Value,
    ValueKind,
};

fn entry(name: &str, node: Node) -> Entry {
    Entry {
        name: name.to_string(),
        node,
    }
}

fn value(name: &str, kind: ValueKind, text: &str) -> Entry {
    entry(
        name,
        Node::Value(Value {
            kind,
            text: text.to_string(),
        }),
    )
}

fn sample() -> Vec<Entry> {
    vec![
        value("count", ValueKind::Unsigned(7), "0x7"),
        value("count", ValueKind::Unsigned(8), "0x8"),
        value("minus", ValueKind::Signed(-1), "-1"),
        value("plus", ValueKind::Signed(3), "3"),
        value("flag", ValueKind::Bool(true), "true"),
        value("raw", ValueKind::Other, "<00ff>"),
        entry("gone", Node::Empty),
        entry(
            "a",
            Node::Dir(vec![entry(
                "b",
                Node::Dir(vec![
                    value("c", ValueKind::String("deep".to_string()), "\"deep\""),
                    entry("d", Node::Empty),
                ]),
            )]),
        ),
        entry("none", Node::Dir(vec![])),
    ]
}

#[test]
fn empty_path_finds_nothing() {
    assert!(find_node(&sample(), &[]).is_none());
    assert!(find_dir(&sample(), &[]).is_none());
    assert!(find_value(&sample(), &[]).is_none());
}

#[test]
fn first_entry_of_a_name_is_found() {
    assert_eq!(find_u64(&sample(), &["count"]), Some(7));
}

#[test]
fn integers_are_found_whatever_their_sign() {
    assert_eq!(find_u64(&sample(), &["plus"]), Some(3));
    assert_eq!(find_u64(&sample(), &["minus"]), Some(u64::MAX));
    assert_eq!(find_u64(&sample(), &["flag"]), None);
    assert_eq!(find_u64(&sample(), &["raw"]), None);
    assert_eq!(find_u64(&sample(), &["a"]), None);
    assert_eq!(find_u64(&sample(), &["missing"]), None);
}

#[test]
fn truth_values_are_found() {
    assert_eq!(find_bool(&sample(), &["flag"]), Some(true));
    assert_eq!(find_bool(&sample(), &["count"]), None);
    assert_eq!(find_bool(&sample(), &["gone"]), None);
}

#[test]
fn strings_are_themselves_and_other_values_their_text() {
    let tree = sample();
    assert_eq!(find_string(&tree, &["a", "b", "c"]), Some("deep".to_string()));
    assert_eq!(find_string(&tree, &["count"]), Some("0x7".to_string()));
    assert_eq!(find_string(&tree, &["flag"]), Some("true".to_string()));
    assert_eq!(find_string(&tree, &["raw"]), Some("<00ff>".to_string()));
    assert_eq!(find_string(&tree, &["gone"]), None);
    assert_eq!(find_string(&tree, &["a"]), None);
}

#[test]
fn paths_compose() {
    let tree = sample();
    let below = find_dir(&tree, &["a"]).unwrap();
    assert_eq!(find_string(below, &["b", "c"]), find_string(&tree, &["a", "b", "c"]));
    assert!(find_node(&tree, &["a", "b", "d"]).is_some());
    assert!(find_node(&tree, &["a", "b", "d", "e"]).is_none());
    assert!(find_node(&tree, &["count", "x"]).is_none());
}

#[test]
fn children_are_counted_in_directories_only() {
    let tree = sample();
    assert_eq!(count_children(&tree, &["a", "b"]), 2);
    assert_eq!(count_children(&tree, &["none"]), 0);
    assert_eq!(count_children(&tree, &["count"]), 0);
    assert_eq!(count_children(&tree, &["missing"]), 0);
    assert!(find_dir(&tree, &["none"]).is_some());
    assert!(find_dir(&tree, &["gone"]).is_none());
    assert!(find_value(&tree, &["none"]).is_none());
}
