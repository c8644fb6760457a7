//! The inspection tree of a VM, and lookups in it by path.

use crate::text::same_text;
use vstd::prelude::*;
use vstd::string::*;

verus! {

/// A node of the inspection tree.
pub enum Node {
    /// A directory, with its entries in the order in which they were reported.
    Dir(Vec<Entry>),
    /// A value.
    Value(Value),
    /// A node with no contents: one that was not evaluated, or that failed.
    Empty,
}

/// A named child of a directory.
pub struct Entry {
    pub name: String,
    pub node: Node,
}

/// A value, and the text that it is displayed as.
pub struct Value {
    pub kind: ValueKind,
    pub text: String,
}

/// What a value holds.
pub enum ValueKind {
    Signed(i64),
    Unsigned(u64),
    Bool(bool),
    String(String),
    /// Anything else, such as raw bytes: known by its text alone.
    Other,
}

/// The segments of a path, as character sequences.
pub open spec fn segments(path: Seq<&str>) -> Seq<Seq<char>> {
    path.map_values(|segment: &str| segment@)
}

/// The entries below a node; there are none below anything but a directory.
pub open spec fn children(node: Node) -> Seq<Entry> {
    match node {
        Node::Dir(entries) => entries@,
        _ => seq![],
    }
}

/// The first of `entries` that is called `name`.
pub open spec fn entry_named(entries: Seq<Entry>, name: Seq<char>) -> Option<Entry>
    decreases entries.len(),
{
    if entries.len() == 0 {
        None
    } else if entries[0].name@ == name {
        Some(entries[0])
    } else {
        entry_named(entries.drop_first(), name)
    }
}

/// The node that `path` leads to from `entries`, one name per level. An empty
/// path leads nowhere.
pub open spec fn node_at(entries: Seq<Entry>, path: Seq<Seq<char>>) -> Option<Node>
    decreases path.len(),
{
    if path.len() == 0 {
        None
    } else {
        match entry_named(entries, path[0]) {
            None => None,
            Some(entry) => if path.len() == 1 {
                Some(entry.node)
            } else {
                node_at(children(entry.node), path.drop_first())
            },
        }
    }
}

/// The entries of the directory at `path`.
pub open spec fn dir_at(entries: Seq<Entry>, path: Seq<Seq<char>>) -> Option<Seq<Entry>> {
    match node_at(entries, path) {
        Some(Node::Dir(dir)) => Some(dir@),
        _ => None,
    }
}

/// The value at `path`.
pub open spec fn value_at(entries: Seq<Entry>, path: Seq<Seq<char>>) -> Option<Value> {
    match node_at(entries, path) {
        Some(Node::Value(value)) => Some(value),
        _ => None,
    }
}

/// An integer as 64 bits without a sign; a negative one is taken modulo 2^64.
pub open spec fn as_unsigned(kind: ValueKind) -> Option<u64> {
    match kind {
        ValueKind::Unsigned(u) => Some(u),
        ValueKind::Signed(i) => Some(
            if i >= 0 {
                i as u64
            } else {
                (i + 0x1_0000_0000_0000_0000) as u64
            },
        ),
        _ => None,
    }
}

/// The integer at `path`.
pub open spec fn u64_at(entries: Seq<Entry>, path: Seq<Seq<char>>) -> Option<u64> {
    match value_at(entries, path) {
        Some(value) => as_unsigned(value.kind),
        None => None,
    }
}

/// The truth value at `path`.
pub open spec fn bool_at(entries: Seq<Entry>, path: Seq<Seq<char>>) -> Option<bool> {
    match value_at(entries, path) {
        Some(value) => match value.kind {
            ValueKind::Bool(b) => Some(b),
            _ => None,
        },
        None => None,
    }
}

/// A value as a string: a string is itself, anything else is its text.
pub open spec fn value_text(value: Value) -> Seq<char> {
    match value.kind {
        ValueKind::String(s) => s@,
        _ => value.text@,
    }
}

/// The value at `path`, as a string.
pub open spec fn string_at(entries: Seq<Entry>, path: Seq<Seq<char>>) -> Option<Seq<char>> {
    match value_at(entries, path) {
        Some(value) => Some(value_text(value)),
        None => None,
    }
}

/// The number of entries of the directory at `path`, or zero.
pub open spec fn child_count(entries: Seq<Entry>, path: Seq<Seq<char>>) -> nat {
    match dir_at(entries, path) {
        Some(dir) => dir.len(),
        None => 0,
    }
}

/// The first entry called `name`.
fn find_entry<'a>(entries: &'a [Entry], name: &str) -> (found: Option<&'a Entry>)
    ensures
        match found {
            Some(entry) => entry_named(entries@, name@) == Some(*entry),
            None => entry_named(entries@, name@) is None,
        },
{
    let mut i: usize = 0;
    assert(entries@.skip(0) =~= entries@);
    while i < entries.len()
        invariant
            i <= entries@.len(),
            entry_named(entries@, name@) == entry_named(entries@.skip(i as int), name@),
        decreases entries@.len() - i,
    {
        assert(entries@.skip(i as int).drop_first() =~= entries@.skip(i + 1));
        if same_text(entries[i].name.as_str(), name) {
            return Some(&entries[i]);
        }
        i += 1;
    }
    None
}

/// The node that `path` leads to.
pub fn find_node<'a>(entries: &'a [Entry], path: &[&str]) -> (found: Option<&'a Node>)
    ensures
        match found {
            Some(node) => node_at(entries@, segments(path@)) == Some(*node),
            None => node_at(entries@, segments(path@)) is None,
        },
{
    let mut cur: &'a [Entry] = entries;
    let mut node: Option<&'a Node> = None;
    let mut i: usize = 0;
    assert(segments(path@).skip(0) =~= segments(path@));
    while i < path.len()
        invariant
            i <= path@.len(),
            i == 0 ==> node is None,
            i < path@.len() ==> node_at(entries@, segments(path@)) == node_at(
                cur@,
                segments(path@).skip(i as int),
            ),
            i == path@.len() ==> match node {
                Some(n) => node_at(entries@, segments(path@)) == Some(*n),
                None => node_at(entries@, segments(path@)) is None,
            },
        decreases path@.len() - i,
    {
        assert(segments(path@).skip(i as int).drop_first() =~= segments(path@).skip(i + 1));
        let entry = match find_entry(cur, path[i]) {
            Some(entry) => entry,
            None => {
                return None;
            },
        };
        node = Some(&entry.node);
        cur = match &entry.node {
            Node::Dir(dir) => dir.as_slice(),
            _ => &[],
        };
        assert(cur@ =~= children(entry.node));
        i += 1;
    }
    node
}

/// The entries of the directory at `path`.
pub fn find_dir<'a>(entries: &'a [Entry], path: &[&str]) -> (found: Option<&'a [Entry]>)
    ensures
        match found {
            Some(dir) => dir_at(entries@, segments(path@)) == Some(dir@),
            None => dir_at(entries@, segments(path@)) is None,
        },
{
    match find_node(entries, path) {
        Some(Node::Dir(dir)) => Some(dir.as_slice()),
        _ => None,
    }
}

/// The value at `path`.
pub fn find_value<'a>(entries: &'a [Entry], path: &[&str]) -> (found: Option<&'a Value>)
    ensures
        match found {
            Some(value) => value_at(entries@, segments(path@)) == Some(*value),
            None => value_at(entries@, segments(path@)) is None,
        },
{
    match find_node(entries, path) {
        Some(Node::Value(value)) => Some(value),
        _ => None,
    }
}

/// The integer at `path`. A negative one is taken modulo 2^64.
pub fn find_u64(entries: &[Entry], path: &[&str]) -> (found: Option<u64>)
    ensures
        found == u64_at(entries@, segments(path@)),
{
    match &find_value(entries, path)?.kind {
        ValueKind::Unsigned(u) => Some(*u),
        ValueKind::Signed(i) => {
            let i: i64 = *i;
            assert(i < 0 ==> i as u64 == i + 0x1_0000_0000_0000_0000) by (bit_vector);
            Some(i as u64)
        },
        _ => None,
    }
}

/// The truth value at `path`.
pub fn find_bool(entries: &[Entry], path: &[&str]) -> (found: Option<bool>)
    ensures
        found == bool_at(entries@, segments(path@)),
{
    match &find_value(entries, path)?.kind {
        ValueKind::Bool(b) => Some(*b),
        _ => None,
    }
}

/// The value at `path` as a string, whatever its kind.
pub fn find_string(entries: &[Entry], path: &[&str]) -> (found: Option<String>)
    ensures
        match found {
            Some(s) => string_at(entries@, segments(path@)) == Some(s@),
            None => string_at(entries@, segments(path@)) is None,
        },
{
    let value = find_value(entries, path)?;
    match &value.kind {
        ValueKind::String(s) => Some(s.clone()),
        _ => Some(value.text.clone()),
    }
}

/// The number of entries of the directory at `path`, or zero where there is
/// no such directory.
pub fn count_children(entries: &[Entry], path: &[&str]) -> (count: usize)
    ensures
        count == child_count(entries@, segments(path@)),
{
    match find_dir(entries, path) {
        Some(dir) => dir.len(),
        None => 0,
    }
}

/// A name stands for the first entry that bears it: an entry is found if and
/// only if it bears the name and none before it does.
pub proof fn law_first_entry_wins(entries: Seq<Entry>, name: Seq<char>, entry: Entry)
    ensures
        entry_named(entries, name) == Some(entry) <==> exists|i: int|
            #![trigger entries[i]]
            0 <= i < entries.len() && entries[i] == entry && entry.name@ == name && (forall|j: int|
                0 <= j < i ==> (#[trigger] entries[j]).name@ != name),
        entry_named(entries, name) is None <==> (forall|i: int|
            0 <= i < entries.len() ==> (#[trigger] entries[i]).name@ != name),
    decreases entries.len(),
{
    if entries.len() != 0 {
        let rest = entries.drop_first();
        law_first_entry_wins(rest, name, entry);
        assert(forall|i: int| 0 <= i < rest.len() ==> rest[i] == #[trigger] entries[i + 1]);
        assert(forall|i: int| 0 < i < entries.len() ==> #[trigger] entries[i] == rest[i - 1]);
        if entries[0].name@ != name {
            if entry_named(entries, name) == Some(entry) {
                let i = choose|i: int|
                    #![trigger rest[i]]
                    0 <= i < rest.len() && rest[i] == entry && entry.name@ == name && (forall|j: int|
                        0 <= j < i ==> (#[trigger] rest[j]).name@ != name);
                assert(entries[i + 1] == entry);
                assert forall|j: int| 0 <= j < i + 1 implies (#[trigger] entries[j]).name@ != name by {
                    if j > 0 {
                        assert(rest[j - 1].name@ != name);
                    }
                }
            }
            if exists|i: int|
                #![trigger entries[i]]
                0 <= i < entries.len() && entries[i] == entry && entry.name@ == name && (forall|j: int|
                    0 <= j < i ==> (#[trigger] entries[j]).name@ != name) {
                let i = choose|i: int|
                    #![trigger entries[i]]
                    0 <= i < entries.len() && entries[i] == entry && entry.name@ == name && (forall|j: int|
                        0 <= j < i ==> (#[trigger] entries[j]).name@ != name);
                assert(rest[i - 1] == entry);
                assert forall|j: int| 0 <= j < i - 1 implies (#[trigger] rest[j]).name@ != name by {
                    assert(entries[j + 1].name@ != name);
                }
            }
        }
    }
}

/// A path of two parts leads where the second part leads from below the node
/// that the first part leads to.
pub proof fn law_paths_compose(entries: Seq<Entry>, path: Seq<Seq<char>>, below: Seq<Seq<char>>)
    requires
        path.len() > 0,
        below.len() > 0,
    ensures
        node_at(entries, path + below) == match node_at(entries, path) {
            Some(node) => node_at(children(node), below),
            None => None,
        },
    decreases path.len(),
{
    let whole = path + below;
    assert(whole[0] == path[0]);
    match entry_named(entries, path[0]) {
        Some(entry) => {
            if path.len() == 1 {
                assert(whole.drop_first() =~= below);
            } else {
                assert(whole.drop_first() =~= path.drop_first() + below);
                law_paths_compose(children(entry.node), path.drop_first(), below);
            }
        },
        None => {},
    }
}

/// A path leads to a directory or to a value, never to both; every value has
/// a string, and no value is both an integer and a truth value.
pub proof fn law_one_kind_per_path(entries: Seq<Entry>, path: Seq<Seq<char>>)
    ensures
        dir_at(entries, path) is None || value_at(entries, path) is None,
        string_at(entries, path) is Some <==> value_at(entries, path) is Some,
        u64_at(entries, path) is Some ==> string_at(entries, path) is Some && bool_at(entries, path) is None,
        bool_at(entries, path) is Some ==> string_at(entries, path) is Some,
        child_count(entries, path) > 0 ==> string_at(entries, path) is None,
{
}

} // verus!
