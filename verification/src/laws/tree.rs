//! Lookups: what a path leads to, and what is read there.

use crate::tree::{
    bool_at, child_count, children, dir_at, law_first_entry_wins, law_paths_compose, node_at, segments,
    string_at, u64_at, value_at, Entry, Node, Value, ValueKind,
};
use vstd::prelude::*;

verus! {

/// Whether `node` is a value that holds the integer `n`, where an integer of
/// 64 bits with a sign stands for the same bits without one.
pub open spec fn holds_integer(node: Option<Node>, n: int) -> bool {
    match node {
        Some(Node::Value(value)) => match value.kind {
            ValueKind::Unsigned(u) => n == u,
            ValueKind::Signed(i) => 0 <= n < 0x1_0000_0000_0000_0000 && (n - i == 0 || n - i
                == 0x1_0000_0000_0000_0000),
            _ => false,
        },
        _ => false,
    }
}

/// Whether `node` is a value that reads as the string `s`.
pub open spec fn holds_string(node: Option<Node>, s: Seq<char>) -> bool {
    match node {
        Some(Node::Value(value)) => if value.kind is String {
            s == value.kind->String_0@
        } else {
            s == value.text@
        },
        _ => false,
    }
}

/// Whether `node` is a value that holds the truth value `b`.
pub open spec fn holds_bool(node: Option<Node>, b: bool) -> bool {
    match node {
        Some(Node::Value(value)) => value.kind == ValueKind::Bool(b),
        _ => false,
    }
}

/// The segments of a path are its strings, one for one.
pub proof fn law_segments_are_the_path(path: Seq<&str>)
    ensures
        segments(path).len() == path.len(),
        forall|i: int| 0 <= i < path.len() ==> #[trigger] segments(path)[i] == path[i]@,
{
}

/// No path, no node.
pub proof fn law_empty_path_leads_nowhere(entries: Seq<Entry>)
    ensures
        node_at(entries, seq![]) is None,
{
}

/// A path of one name leads to the first entry so called, if there is one.
pub proof fn law_one_step(entries: Seq<Entry>, name: Seq<char>, i: int)
    requires
        0 <= i < entries.len(),
        entries[i].name@ == name,
        forall|j: int| 0 <= j < i ==> (#[trigger] entries[j]).name@ != name,
    ensures
        node_at(entries, seq![name]) == Some(entries[i].node),
{
    law_first_entry_wins(entries, name, entries[i]);
}

/// A path of one name that no entry bears leads nowhere.
pub proof fn law_no_step(entries: Seq<Entry>, name: Seq<char>)
    requires
        forall|j: int| 0 <= j < entries.len() ==> (#[trigger] entries[j]).name@ != name,
    ensures
        node_at(entries, seq![name]) is None,
{
    if entries.len() > 0 {
        law_first_entry_wins(entries, name, entries[0]);
    }
}

/// A longer path goes on in the directory that it has reached, and only from a
/// directory.
pub proof fn law_next_step(entries: Seq<Entry>, path: Seq<Seq<char>>, name: Seq<char>)
    requires
        path.len() > 0,
    ensures
        match node_at(entries, path) {
            Some(Node::Dir(dir)) => node_at(entries, path.push(name)) == node_at(dir@, seq![name]),
            _ => node_at(entries, path.push(name)) is None,
        },
{
    law_paths_compose(entries, path, seq![name]);
    assert(path.push(name) =~= path + seq![name]);
    if let Some(node) = node_at(entries, path) {
        if !(node is Dir) {
            law_no_step(children(node), name);
        }
    }
}

/// A directory is found where the path leads to one, with all its entries, and
/// nowhere else.
pub proof fn law_directories_found(entries: Seq<Entry>, path: Seq<Seq<char>>, dir: Seq<Entry>)
    ensures
        dir_at(entries, path) == Some(dir) <==> (node_at(entries, path) is Some && node_at(entries, path)->0 is Dir
            && node_at(entries, path)->0->Dir_0@ == dir),
{
}

/// A value is found where the path leads to it, and nowhere else.
pub proof fn law_values_found(entries: Seq<Entry>, path: Seq<Seq<char>>, value: Value)
    ensures
        value_at(entries, path) == Some(value) <==> node_at(entries, path) == Some(Node::Value(value)),
{
}

/// An integer is found where the path leads to a value that holds it.
pub proof fn law_integers_found(entries: Seq<Entry>, path: Seq<Seq<char>>, n: u64)
    ensures
        u64_at(entries, path) == Some(n) <==> holds_integer(node_at(entries, path), n as int),
{
}

/// A truth value is found where the path leads to a value that holds it.
pub proof fn law_truth_values_found(entries: Seq<Entry>, path: Seq<Seq<char>>, b: bool)
    ensures
        bool_at(entries, path) == Some(b) <==> holds_bool(node_at(entries, path), b),
{
}

/// A string is found where the path leads to a value that reads as it.
pub proof fn law_strings_found(entries: Seq<Entry>, path: Seq<Seq<char>>, s: Seq<char>)
    ensures
        string_at(entries, path) == Some(s) <==> holds_string(node_at(entries, path), s),
{
}

/// The entries of a directory are all counted, those of anything else are none.
pub proof fn law_entries_counted(entries: Seq<Entry>, path: Seq<Seq<char>>)
    ensures
        match node_at(entries, path) {
            Some(Node::Dir(dir)) => child_count(entries, path) == dir@.len(),
            _ => child_count(entries, path) == 0,
        },
{
}

/// There is nothing below a node but the entries of a directory.
pub proof fn law_only_directories_have_entries(node: Node)
    ensures
        node is Dir ==> children(node) == node->Dir_0@,
        !(node is Dir) ==> children(node).len() == 0,
{
}

} // verus!
