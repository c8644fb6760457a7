//! The status report: what each line shows of the tree.

use crate::laws::tree::{holds_bool, holds_integer, holds_string};
use crate::size::size_text;
use crate::status::{
    controller_fits, controller_lines, controller_name, controller_text, controllers, events_text, header_text,
    holds_text, ids_text, is_halted, law_controller_entries,
    law_every_controller_is_listed, law_every_controller_is_reported, law_every_namespace_is_reported,
    lemma_holds_text_inside, lemma_holds_text_itself, listed, mapping_text, namespace_fits, namespace_lines,
    namespace_text, namespaces, namespaces_fit, namespaces_text, power_text, queues_text, status_text, string_or,
    u64_or, vm_fits,
};
use crate::text::{decimal_text, upper_hex_text};
use crate::tree::{child_count, node_at, string_at, u64_at, Entry, Node};
use vstd::arithmetic::power2::pow2;
use vstd::prelude::*;
use vstd::string::*;

verus! {

/// Whether `n` is the integer that `node` holds or, where it holds none, the
/// default.
pub open spec fn reads_integer(node: Option<Node>, default: int, n: int) -> bool {
    holds_integer(node, n) || (n == default && holds_no_integer(node))
}

/// Whether `node` holds no integer at all.
pub open spec fn holds_no_integer(node: Option<Node>) -> bool {
    forall|m: int| !#[trigger] holds_integer(node, m)
}

/// Whether `s` is what `node` reads as or, where it is no value, the default.
pub open spec fn reads_string(node: Option<Node>, default: Seq<char>, s: Seq<char>) -> bool {
    holds_string(node, s) || (s == default && forall|t: Seq<char>| !#[trigger] holds_string(node, t))
}

/// The number of entries of `node`.
pub open spec fn entry_count(node: Option<Node>) -> nat {
    if node is Some && node->0 is Dir {
        node->0->Dir_0@.len()
    } else {
        0
    }
}

proof fn lemma_integer_read(dir: Seq<Entry>, path: Seq<Seq<char>>, default: u64, n: u64)
    requires
        reads_integer(node_at(dir, path), default as int, n as int),
    ensures
        u64_or(dir, path, default) == n,
{
    let node = node_at(dir, path);
    if u64_at(dir, path) is Some {
        assert(holds_integer(node, u64_at(dir, path)->0 as int));
    }
}

proof fn lemma_string_read(dir: Seq<Entry>, path: Seq<Seq<char>>, default: Seq<char>, s: Seq<char>)
    requires
        reads_string(node_at(dir, path), default, s),
    ensures
        string_or(dir, path, default) == s,
{
    let node = node_at(dir, path);
    if string_at(dir, path) is Some {
        assert(holds_string(node, string_at(dir, path)->0));
    }
}

proof fn lemma_count_read(dir: Seq<Entry>, path: Seq<Seq<char>>)
    ensures
        child_count(dir, path) == entry_count(node_at(dir, path)),
{
}

/// The line on a namespace shows its number, the kind of its disk and whether
/// that is read-only, the count of its sectors and their size, and the product
/// of the two, up to what 64 bits hold.
pub proof fn law_namespace_line(
    name: Seq<char>,
    node: Node,
    nsid: u64,
    kind: Seq<char>,
    sector_count: u64,
    sector_size: u64,
    shift: u64,
    bytes: nat,
)
    requires
        node is Dir,
        reads_integer(node_at(node->Dir_0@, seq!["nsid"@]), 0, nsid as int),
        reads_string(node_at(node->Dir_0@, seq!["disk"@, "disk_type"@]), seq!['?'], kind),
        reads_integer(node_at(node->Dir_0@, seq!["disk"@, "sector_count"@]), 0, sector_count as int),
        reads_integer(node_at(node->Dir_0@, seq!["block_shift"@]), 0, shift as int),
        reads_integer(
            node_at(node->Dir_0@, seq!["disk"@, "sector_size"@]),
            pow2(shift as nat) as int,
            sector_size as int,
        ),
        bytes <= u64::MAX,
        sector_count * sector_size <= u64::MAX ==> bytes == sector_count * sector_size,
        sector_count * sector_size > u64::MAX ==> bytes == u64::MAX,
    ensures
        holds_bool(node_at(node->Dir_0@, seq!["disk"@, "is_read_only"@]), true) ==> namespace_text(name, node)
            == "    NSID "@ + decimal_text(nsid as nat) + "  ["@ + kind + ",RO]  size="@ + size_text(bytes)
            + "  (sectors="@ + decimal_text(sector_count as nat) + ", LBA="@ + decimal_text(sector_size as nat)
            + "B)\n"@,
        !holds_bool(node_at(node->Dir_0@, seq!["disk"@, "is_read_only"@]), true) ==> namespace_text(name, node)
            == "    NSID "@ + decimal_text(nsid as nat) + "  ["@ + kind + "]  size="@ + size_text(bytes)
            + "  (sectors="@ + decimal_text(sector_count as nat) + ", LBA="@ + decimal_text(sector_size as nat)
            + "B)\n"@,
{
    let dir = node->Dir_0@;
    reveal_strlit("?");
    reveal_strlit("");
    reveal_strlit(",RO");
    reveal_strlit("]  size=");
    reveal_strlit(",RO]  size=");
    assert("?"@ =~= seq!['?']);
    assert(",RO]  size="@ =~= ",RO"@ + "]  size="@);
    lemma_integer_read(dir, seq!["nsid"@], 0, nsid);
    lemma_string_read(dir, seq!["disk"@, "disk_type"@], "?"@, kind);
    lemma_integer_read(dir, seq!["disk"@, "sector_count"@], 0, sector_count);
    lemma_integer_read(dir, seq!["block_shift"@], 0, shift);
    let at_size = node_at(dir, seq!["disk"@, "sector_size"@]);
    if u64_at(dir, seq!["disk"@, "sector_size"@]) is Some {
        assert(holds_integer(at_size, u64_at(dir, seq!["disk"@, "sector_size"@])->0 as int));
    }
    assert(crate::status::sector_size(dir) == sector_size);
    assert(crate::status::total_bytes(dir) == bytes);
    assert(crate::status::is_read_only(dir) == holds_bool(
        node_at(dir, seq!["disk"@, "is_read_only"@]),
        true,
    ));
    let front = "    NSID "@ + decimal_text(nsid as nat) + "  ["@ + kind;
    assert(front + ""@ =~= front);
    assert(front + ",RO"@ + "]  size="@ =~= front + ",RO]  size="@);
}

/// Where the disk tells the size of a sector and their count, the line on the
/// namespace ends with the product, the count and the size, whatever the block
/// shift.
pub proof fn law_namespace_size_is_that_of_its_disk(
    name: Seq<char>,
    node: Node,
    sector_count: u64,
    sector_size: u64,
    bytes: nat,
)
    requires
        node is Dir,
        holds_integer(node_at(node->Dir_0@, seq!["disk"@, "sector_count"@]), sector_count as int),
        holds_integer(node_at(node->Dir_0@, seq!["disk"@, "sector_size"@]), sector_size as int),
        bytes <= u64::MAX,
        sector_count * sector_size <= u64::MAX ==> bytes == sector_count * sector_size,
        sector_count * sector_size > u64::MAX ==> bytes == u64::MAX,
    ensures
        ("]  size="@ + size_text(bytes) + "  (sectors="@ + decimal_text(sector_count as nat) + ", LBA="@
            + decimal_text(sector_size as nat) + "B)\n"@).is_suffix_of(namespace_text(name, node)),
{
    let dir = node->Dir_0@;
    lemma_integer_read(dir, seq!["disk"@, "sector_count"@], 0, sector_count);
    assert(crate::status::sector_size(dir) == sector_size);
    assert(crate::status::total_bytes(dir) == bytes);
    let end = "]  size="@ + size_text(bytes) + "  (sectors="@ + decimal_text(sector_count as nat) + ", LBA="@
        + decimal_text(sector_size as nat) + "B)\n"@;
    let text = namespace_text(name, node);
    assert(text.subrange(text.len() - end.len(), text.len() as int) =~= end);
}

/// A namespace that is no directory is reported by its name.
pub proof fn law_namespace_without_contents(name: Seq<char>, node: Node)
    requires
        !(node is Dir),
    ensures
        namespace_text(name, node) == "    NSID "@ + name + ": <unevaluated>\n"@,
{
}

/// A VM is halted if and only if its power state says so, whatever else is in
/// the tree.
pub proof fn law_halted_by_power_state_alone(entries: Seq<Entry>, power: Seq<char>)
    requires
        reads_string(
            node_at(entries, seq!["partition"@, "power_state"@]),
            "(unknown)"@,
            power,
        ),
    ensures
        is_halted(entries) <==> power == seq!['h', 'a', 'l', 't', 'e', 'd'],
{
    reveal_strlit("halted");
    assert("halted"@ =~= seq!['h', 'a', 'l', 't', 'e', 'd']);
    lemma_string_read(entries, seq!["partition"@, "power_state"@], "(unknown)"@, power);
}

/// The line on the VM shows its power state, and counts its halts where there
/// were any or it is halted now.
pub proof fn law_power_line(entries: Seq<Entry>, power: Seq<char>, halts: u64)
    requires
        reads_string(
            node_at(entries, seq!["partition"@, "power_state"@]),
            "(unknown)"@,
            power,
        ),
        reads_integer(node_at(entries, seq!["partition"@, "halt_count"@]), 0, halts as int),
    ensures
        halts > 0 || power == "halted"@ ==> power_text(entries) == "VM: power_state="@ + power
            + "  halt_count="@ + decimal_text(halts as nat) + "\n"@,
        halts == 0 && power != "halted"@ ==> power_text(entries) == "VM: power_state="@ + power + "\n"@,
{
    lemma_string_read(entries, seq!["partition"@, "power_state"@], "(unknown)"@, power);
    lemma_integer_read(entries, seq!["partition"@, "halt_count"@], 0, halts);
}

/// The first line on a controller shows its name, the state of its worker, or
/// that it is idle where it runs for a halted VM, and its ids.
pub proof fn law_header_line(name: Seq<char>, dir: Seq<Entry>, vm_halted: bool, state: Seq<char>)
    requires
        reads_string(node_at(dir, seq!["unit_state"@]), "(unknown)"@, state),
    ensures
        !vm_halted || state != "running"@ ==> header_text(name, dir, vm_halted) == "Controller "@ + name + "  ["@
            + state + "]  "@ + ids_text(dir) + "\n"@,
        vm_halted && state == "running"@ ==> header_text(name, dir, vm_halted) == "Controller "@ + name + "  ["@
            + "idle - VM halted"@ + "]  "@ + ids_text(dir) + "\n"@,
{
    lemma_string_read(dir, seq!["unit_state"@], "(unknown)"@, state);
}

/// The ids of a controller are shown in hexadecimal, four places at least.
pub proof fn law_ids_shown(dir: Seq<Entry>, vendor: u64, device: u64)
    requires
        holds_integer(node_at(dir, seq!["cfg_space"@, "hardware_ids"@, "vendor_id"@]), vendor as int),
        holds_integer(node_at(dir, seq!["cfg_space"@, "hardware_ids"@, "device_id"@]), device as int),
    ensures
        ids_text(dir) == "VEN_"@ + upper_hex_text(vendor as nat, 4) + "&DEV_"@ + upper_hex_text(device as nat, 4),
{
}

/// Where either id is missing, neither is shown.
pub proof fn law_ids_missing(dir: Seq<Entry>)
    requires
        holds_no_integer(node_at(dir, seq!["cfg_space"@, "hardware_ids"@, "vendor_id"@])) || holds_no_integer(
            node_at(dir, seq!["cfg_space"@, "hardware_ids"@, "device_id"@]),
        ),
    ensures
        ids_text(dir) == "VEN_?&DEV_?"@,
{
    let vendor = u64_at(dir, seq!["cfg_space"@, "hardware_ids"@, "vendor_id"@]);
    let device = u64_at(dir, seq!["cfg_space"@, "hardware_ids"@, "device_id"@]);
    if vendor is Some && device is Some {
        assert(holds_integer(node_at(dir, seq!["cfg_space"@, "hardware_ids"@, "vendor_id"@]), vendor->0 as int));
        assert(holds_integer(node_at(dir, seq!["cfg_space"@, "hardware_ids"@, "device_id"@]), device->0 as int));
    }
}

/// The second line shows where the controller is mapped and, where it has a
/// subsystem id, the first eight characters of that.
pub proof fn law_mapping_line(dir: Seq<Entry>, subsystem: Seq<char>, bar0: Seq<char>)
    requires
        reads_string(node_at(dir, seq!["config"@, "subsystem_id"@]), seq![], subsystem),
        reads_string(node_at(dir, seq!["cfg_space"@, "active_bars"@, "bar0"@]), seq![], bar0),
    ensures
        subsystem.len() == 0 ==> mapping_text(dir) == "  BAR0: "@ + bar0 + "\n"@,
        0 < subsystem.len() < 8 ==> mapping_text(dir) == "  Subsystem: "@ + subsystem + "...  BAR0: "@ + bar0
            + "\n"@,
        8 <= subsystem.len() ==> mapping_text(dir) == "  Subsystem: "@ + subsystem.subrange(0, 8)
            + "...  BAR0: "@ + bar0 + "\n"@,
{
    reveal_strlit("");
    assert(""@ =~= seq![]);
    lemma_string_read(dir, seq!["config"@, "subsystem_id"@], ""@, subsystem);
    lemma_string_read(dir, seq!["cfg_space"@, "active_bars"@, "bar0"@], ""@, bar0);
    if subsystem.len() == 8 {
        assert(subsystem.subrange(0, 8) =~= subsystem);
    }
}

/// The third line shows the limits on the queues, the queues that there are,
/// and the interrupt vectors.
pub proof fn law_queues_line(dir: Seq<Entry>, max_sqs: u64, max_cqs: u64, vectors: u64)
    requires
        reads_integer(node_at(dir, seq!["config"@, "max_sqs"@]), 0, max_sqs as int),
        reads_integer(node_at(dir, seq!["config"@, "max_cqs"@]), 0, max_cqs as int),
        reads_integer(
            node_at(dir, seq!["cfg_space"@, "capabilities"@, "msi-x"@, "count"@]),
            0,
            vectors as int,
        ),
    ensures
        queues_text(dir) == "  Queues: max_sqs="@ + decimal_text(max_sqs as nat) + ", max_cqs="@ + decimal_text(
            max_cqs as nat,
        ) + "  | io_sqs="@ + decimal_text(entry_count(node_at(dir, seq!["io_sqs"@]))) + ", io_cqs="@
            + decimal_text(entry_count(node_at(dir, seq!["io_cqs"@]))) + "  | msi-x_vectors="@ + decimal_text(
            vectors as nat,
        ) + "\n"@,
{
    lemma_integer_read(dir, seq!["config"@, "max_sqs"@], 0, max_sqs);
    lemma_integer_read(dir, seq!["config"@, "max_cqs"@], 0, max_cqs);
    lemma_integer_read(dir, seq!["cfg_space"@, "capabilities"@, "msi-x"@, "count"@], 0, vectors);
    lemma_count_read(dir, seq!["io_sqs"@]);
    lemma_count_read(dir, seq!["io_cqs"@]);
}

/// The fourth line counts the asynchronous event requests.
pub proof fn law_events_line(dir: Seq<Entry>)
    ensures
        events_text(dir) == "  Outstanding AERs (queued by host): "@ + decimal_text(
            entry_count(node_at(dir, seq!["asynchronous_event_requests"@])),
        ) + "\n"@,
{
    lemma_count_read(dir, seq!["asynchronous_event_requests"@]);
}

/// Then come the namespaces, under their heading, or the word that there are
/// none.
pub proof fn law_namespaces_section(dir: Seq<Entry>)
    ensures
        entry_count(node_at(dir, seq!["namespaces"@])) == 0 ==> namespaces_text(dir)
            == "  Namespaces: (none)\n"@,
        entry_count(node_at(dir, seq!["namespaces"@])) > 0 ==> namespaces_text(dir) == "  Namespaces:\n"@
            + namespace_lines(node_at(dir, seq!["namespaces"@])->0->Dir_0@),
{
}

/// The lines on one namespace are the line on it.
pub proof fn law_lines_on_one_namespace(namespace: Entry)
    ensures
        namespace_lines(seq![namespace]) == namespace_text(namespace.name@, namespace.node),
{
    let list = seq![namespace];
    assert(list.drop_last() =~= seq![]);
    assert(namespace_lines(list.drop_last()) == ""@);
    reveal_strlit("");
    assert(""@ + namespace_text(namespace.name@, namespace.node) =~= namespace_text(
        namespace.name@,
        namespace.node,
    ));
}

/// The lines on two lists of namespaces are those on the first, then those on
/// the second.
pub proof fn law_lines_on_namespaces_add_up(a: Seq<Entry>, b: Seq<Entry>)
    ensures
        namespace_lines(a + b) == namespace_lines(a) + namespace_lines(b),
    decreases b.len(),
{
    reveal_strlit("");
    if b.len() == 0 {
        assert(a + b =~= a);
        assert(namespace_lines(a) + ""@ =~= namespace_lines(a));
    } else {
        assert((a + b).drop_last() =~= a + b.drop_last());
        law_lines_on_namespaces_add_up(a, b.drop_last());
        let last = namespace_text(b.last().name@, b.last().node);
        assert(namespace_lines(a) + namespace_lines(b.drop_last()) + last =~= namespace_lines(a) + (
        namespace_lines(b.drop_last()) + last));
    }
}

/// The lines on a controller are these five parts, in this order.
pub proof fn law_parts_of_a_controller(name: Seq<char>, node: Node, vm_halted: bool)
    ensures
        node is Dir ==> controller_text(name, node, vm_halted) == header_text(name, node->Dir_0@, vm_halted)
            + mapping_text(node->Dir_0@) + queues_text(node->Dir_0@) + events_text(node->Dir_0@)
            + namespaces_text(node->Dir_0@),
        !(node is Dir) ==> controller_text(name, node, vm_halted) == "Controller "@ + name
            + ": <unevaluated>\n"@,
{
}

/// The lines on one controller have nothing around them.
pub proof fn law_lines_on_one_controller(name: Seq<char>, node: Node, vm_halted: bool)
    ensures
        controller_lines(seq![(name, node)], vm_halted) == controller_text(name, node, vm_halted),
{
}

/// Between the lines on two lists of controllers there is an empty line, and
/// nothing else.
pub proof fn law_lines_on_controllers_add_up(
    a: Seq<(Seq<char>, Node)>,
    b: Seq<(Seq<char>, Node)>,
    vm_halted: bool,
)
    requires
        a.len() > 0,
        b.len() > 0,
    ensures
        controller_lines(a + b, vm_halted) == controller_lines(a, vm_halted) + seq!['\n'] + controller_lines(
            b,
            vm_halted,
        ),
    decreases b.len(),
{
    reveal_strlit("\n");
    assert("\n"@ =~= seq!['\n']);
    let whole = a + b;
    let last = controller_text(b.last().0, b.last().1, vm_halted);
    assert(whole.last() == b.last());
    assert(whole.drop_last() =~= a + b.drop_last());
    if b.len() == 1 {
        assert(a + b.drop_last() =~= a);
    } else {
        law_lines_on_controllers_add_up(a, b.drop_last(), vm_halted);
        let first = controller_lines(a, vm_halted);
        let rest = controller_lines(b.drop_last(), vm_halted);
        assert((first + seq!['\n'] + rest) + seq!['\n'] + last =~= first + seq!['\n'] + (rest + seq!['\n']
            + last));
    }
}

/// An entry counts as a controller by its name alone, and is listed with its
/// node.
pub proof fn law_entry_listed_by_its_name(entry: Entry, name: Seq<char>)
    ensures
        entry.name@ == "pcie:"@ + name + "-nvme"@ ==> controllers(seq![entry]) == seq![(name, entry.node)],
        (forall|n: Seq<char>| entry.name@ != #[trigger] ("pcie:"@ + n + "-nvme"@)) ==> controllers(
            seq![entry],
        ).len() == 0,
{
    let list = seq![entry];
    assert(list.drop_last() =~= seq![]);
    assert(controllers(list.drop_last()).len() == 0);
    law_controller_entries(entry.name@, name);
    if entry.name@ == "pcie:"@ + name + "-nvme"@ {
        assert(controllers(list) =~= seq![(name, entry.node)]);
    }
    if controller_name(entry.name@) is Some {
        law_controller_entries(entry.name@, controller_name(entry.name@)->0);
    }
}

/// Borrowed controllers are those that they borrow from, one for one.
pub proof fn law_listed_as_borrowed(list: Seq<(&str, &Node)>)
    ensures
        listed(list).len() == list.len(),
        forall|i: int|
            #![trigger listed(list)[i]]
            0 <= i < list.len() ==> listed(list)[i].0 == list[i].0@ && listed(list)[i].1 == *list[i].1,
{
}

/// The report on a directory is the line on the power state, and then the
/// lines on the controllers or the word that there are none.
pub proof fn law_parts_of_the_report(vm: Node, tree: Seq<char>)
    ensures
        vm is Dir && controllers(vm->Dir_0@).len() == 0 ==> status_text(vm, tree) == power_text(vm->Dir_0@)
            + "  (no NVMe controllers found)\n"@,
        vm is Dir && controllers(vm->Dir_0@).len() > 0 ==> status_text(vm, tree) == power_text(vm->Dir_0@)
            + controller_lines(controllers(vm->Dir_0@), is_halted(vm->Dir_0@)),
        !(vm is Dir) ==> status_text(vm, tree) == "(VM root not a directory: "@ + tree + ")\n"@,
{
}

/// The report shows each controller of the VM in the state of its worker,
/// whatever the VM's past, unless the VM is halted: then one that runs is
/// shown as idle.
pub proof fn law_controllers_shown_in_their_state(
    vm: Node,
    tree: Seq<char>,
    i: int,
    name: Seq<char>,
    power: Seq<char>,
    state: Seq<char>,
)
    requires
        vm is Dir,
        0 <= i < vm->Dir_0@.len(),
        vm->Dir_0@[i].name@ == "pcie:"@ + name + "-nvme"@,
        vm->Dir_0@[i].node is Dir,
        reads_string(
            node_at(vm->Dir_0@, seq!["partition"@, "power_state"@]),
            "(unknown)"@,
            power,
        ),
        reads_string(node_at(vm->Dir_0@[i].node->Dir_0@, seq!["unit_state"@]), "(unknown)"@, state),
    ensures
        power != "halted"@ || state != "running"@ ==> holds_text(
            status_text(vm, tree),
            "Controller "@ + name + "  ["@ + state + "]  "@ + ids_text(vm->Dir_0@[i].node->Dir_0@) + "\n"@,
        ),
        power == "halted"@ && state == "running"@ ==> holds_text(
            status_text(vm, tree),
            "Controller "@ + name + "  ["@ + "idle - VM halted"@ + "]  "@ + ids_text(
                vm->Dir_0@[i].node->Dir_0@,
            ) + "\n"@,
        ),
{
    let entries = vm->Dir_0@;
    let node = entries[i].node;
    let dir = node->Dir_0@;
    let halted = is_halted(entries);
    lemma_string_read(entries, seq!["partition"@, "power_state"@], "(unknown)"@, power);
    assert(halted == (power == "halted"@));
    law_controller_entries(entries[i].name@, name);
    law_every_controller_is_listed(entries, name, node);
    let list = controllers(entries);
    let k = choose|k: int| 0 <= k < list.len() && list[k] == (name, node);
    assert(list[k] == (name, node));
    law_every_controller_is_reported(vm, tree, k);
    let header = header_text(name, dir, halted);
    law_header_line(name, dir, halted, state);
    let text = controller_text(name, node, halted);
    let rest = mapping_text(dir) + queues_text(dir) + events_text(dir) + namespaces_text(dir);
    let empty = Seq::<char>::empty();
    lemma_holds_text_itself(empty, header, rest);
    assert(text =~= empty + header + rest);
    lemma_holds_text_within(status_text(vm, tree), text, header);
}

proof fn lemma_holds_text_within(whole: Seq<char>, middle: Seq<char>, part: Seq<char>)
    requires
        holds_text(whole, middle),
        holds_text(middle, part),
    ensures
        holds_text(whole, part),
{
    let (before, after) = choose|before: Seq<char>, after: Seq<char>|
        whole == #[trigger] (before + middle + after);
    lemma_holds_text_inside(before, middle, after, part);
}

/// The report shows the line on every namespace of every controller.
pub proof fn law_namespaces_shown(vm: Node, tree: Seq<char>, i: int, name: Seq<char>, j: int)
    requires
        vm is Dir,
        0 <= i < vm->Dir_0@.len(),
        vm->Dir_0@[i].name@ == "pcie:"@ + name + "-nvme"@,
        vm->Dir_0@[i].node is Dir,
        0 <= j < entry_count(node_at(vm->Dir_0@[i].node->Dir_0@, seq!["namespaces"@])),
    ensures
        ({
            let list = node_at(vm->Dir_0@[i].node->Dir_0@, seq!["namespaces"@])->0->Dir_0@;
            holds_text(status_text(vm, tree), namespace_text(list[j].name@, list[j].node))
        }),
{
    let entries = vm->Dir_0@;
    let node = entries[i].node;
    law_controller_entries(entries[i].name@, name);
    law_every_controller_is_listed(entries, name, node);
    let list = controllers(entries);
    let k = choose|k: int| 0 <= k < list.len() && list[k] == (name, node);
    assert(list[k] == (name, node));
    law_every_controller_is_reported(vm, tree, k);
    law_every_namespace_is_reported(name, node, is_halted(entries), j);
    let found = namespaces(node->Dir_0@)[j];
    lemma_holds_text_within(
        status_text(vm, tree),
        controller_text(name, node, is_halted(entries)),
        namespace_text(found.name@, found.node),
    );
}

/// One namespace whose block shift is 64 or more keeps the VM from being
/// reported on.
pub proof fn law_wide_block_shift_does_not_fit(vm: Node, i: int, name: Seq<char>, j: int, shift: u64)
    requires
        vm is Dir,
        0 <= i < vm->Dir_0@.len(),
        vm->Dir_0@[i].name@ == "pcie:"@ + name + "-nvme"@,
        vm->Dir_0@[i].node is Dir,
        0 <= j < entry_count(node_at(vm->Dir_0@[i].node->Dir_0@, seq!["namespaces"@])),
        ({
            let list = node_at(vm->Dir_0@[i].node->Dir_0@, seq!["namespaces"@])->0->Dir_0@;
            list[j].node is Dir && holds_integer(
                node_at(list[j].node->Dir_0@, seq!["block_shift"@]),
                shift as int,
            )
        }),
        shift >= 64,
    ensures
        !vm_fits(vm),
{
    let entries = vm->Dir_0@;
    let node = entries[i].node;
    law_controller_entries(entries[i].name@, name);
    law_every_controller_is_listed(entries, name, node);
    let all = controllers(entries);
    let k = choose|k: int| 0 <= k < all.len() && all[k] == (name, node);
    let list = namespaces(node->Dir_0@);
    lemma_integer_read(list[j].node->Dir_0@, seq!["block_shift"@], 0, shift);
    assert(!namespace_fits(list[j].node));
    assert(!namespaces_fit(list));
    assert(!controller_fits(all[k].1));
}

/// Where a VM cannot be reported on, there is such a namespace.
pub proof fn law_only_wide_block_shifts_do_not_fit(vm: Node) -> (r: (int, Seq<char>, int, u64))
    requires
        !vm_fits(vm),
    ensures
        ({
            let (i, name, j, shift) = r;
            &&& vm is Dir
            &&& 0 <= i < vm->Dir_0@.len()
            &&& vm->Dir_0@[i].name@ == "pcie:"@ + name + "-nvme"@
            &&& vm->Dir_0@[i].node is Dir
            &&& 0 <= j < entry_count(node_at(vm->Dir_0@[i].node->Dir_0@, seq!["namespaces"@]))
            &&& ({
                let list = node_at(vm->Dir_0@[i].node->Dir_0@, seq!["namespaces"@])->0->Dir_0@;
                list[j].node is Dir && holds_integer(
                    node_at(list[j].node->Dir_0@, seq!["block_shift"@]),
                    shift as int,
                )
            })
            &&& shift >= 64
        }),
{
    let entries = vm->Dir_0@;
    let all = controllers(entries);
    let k = choose|k: int| 0 <= k < all.len() && !controller_fits(#[trigger] all[k].1);
    let (name, node) = all[k];
    assert(all.contains((name, node)));
    law_every_controller_is_listed(entries, name, node);
    let i = choose|i: int|
        0 <= i < entries.len() && #[trigger] entries[i].node == node && controller_name(entries[i].name@) == Some(
            name,
        );
    law_controller_entries(entries[i].name@, name);
    let list = namespaces(node->Dir_0@);
    let j = choose|j: int| 0 <= j < list.len() && !namespace_fits(#[trigger] list[j].node);
    let shift = crate::status::block_shift(list[j].node->Dir_0@);
    (i, name, j, shift)
}

} // verus!
