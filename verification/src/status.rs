//! The status report: the power state of the VM and, for each of its NVMe
//! controllers, the queues and the namespaces.

use crate::size::{human_bytes, size_text};
use crate::text::{decimal, decimal_text, same_text, upper_hex, upper_hex_text};
use crate::tree::{
    bool_at, child_count, children, dir_at, segments, string_at, u64_at, count_children, find_bool, find_dir, find_string,
    find_u64, Entry, Node,
};
use vstd::arithmetic::power2::pow2;
use vstd::prelude::*;
use vstd::string::*;

verus! {

/// The integer at `path`, or `default`.
pub open spec fn u64_or(dir: Seq<Entry>, path: Seq<Seq<char>>, default: u64) -> u64 {
    match u64_at(dir, path) {
        Some(n) => n,
        None => default,
    }
}

/// The string at `path`, or `default`.
pub open spec fn string_or(dir: Seq<Entry>, path: Seq<Seq<char>>, default: Seq<char>) -> Seq<char> {
    match string_at(dir, path) {
        Some(s) => s,
        None => default,
    }
}

/// The block shift of a namespace.
pub open spec fn block_shift(dir: Seq<Entry>) -> u64 {
    u64_or(dir, seq!["block_shift"@], 0)
}

/// Whether the block size of a namespace fits in 64 bits.
pub open spec fn namespace_fits(node: Node) -> bool {
    match node {
        Node::Dir(dir) => block_shift(dir@) < 64,
        _ => true,
    }
}

/// The size of a sector of a namespace, in bytes: that of its disk or, where
/// the disk does not tell, the block size.
pub open spec fn sector_size(dir: Seq<Entry>) -> nat {
    match u64_at(dir, seq!["disk"@, "sector_size"@]) {
        Some(size) => size as nat,
        None => pow2(block_shift(dir) as nat),
    }
}

/// The size of a namespace in bytes, at most what 64 bits hold.
pub open spec fn total_bytes(dir: Seq<Entry>) -> nat {
    let exact = u64_or(dir, seq!["disk"@, "sector_count"@], 0) * sector_size(dir);
    if exact > u64::MAX {
        u64::MAX as nat
    } else {
        exact as nat
    }
}

/// Whether the disk of a namespace is read-only.
pub open spec fn is_read_only(dir: Seq<Entry>) -> bool {
    bool_at(dir, seq!["disk"@, "is_read_only"@]) == Some(true)
}

/// The line on the namespace called `name`.
pub open spec fn namespace_text(name: Seq<char>, node: Node) -> Seq<char> {
    match node {
        Node::Dir(dir) => "    NSID "@ + decimal_text(u64_or(dir@, seq!["nsid"@], 0) as nat) + "  ["@
            + string_or(dir@, seq!["disk"@, "disk_type"@], "?"@) + (if is_read_only(dir@) {
            ",RO"@
        } else {
            ""@
        }) + "]  size="@ + size_text(total_bytes(dir@)) + "  (sectors="@ + decimal_text(
            u64_or(dir@, seq!["disk"@, "sector_count"@], 0) as nat,
        ) + ", LBA="@ + decimal_text(sector_size(dir@)) + "B)\n"@,
        _ => "    NSID "@ + name + ": <unevaluated>\n"@,
    }
}

/// The integer at `path`, or `default`.
fn u64_or_default(dir: &[Entry], path: &[&str], default: u64) -> (n: u64)
    ensures
        n == u64_or(dir@, segments(path@), default),
{
    match find_u64(dir, path) {
        Some(n) => n,
        None => default,
    }
}

/// The string at `path`, or `default`.
fn string_or_default(dir: &[Entry], path: &[&str], default: &str) -> (s: String)
    ensures
        s@ == string_or(dir@, segments(path@), default@),
{
    match find_string(dir, path) {
        Some(s) => s,
        None => default.to_owned(),
    }
}

/// `1 << shift`.
fn block_size(shift: u64) -> (size: u64)
    requires
        shift < 64,
    ensures
        size == pow2(shift as nat),
{
    proof {
        vstd::bits::lemma_u64_pow2_no_overflow(shift as nat);
        vstd::bits::lemma_u64_shl_is_mul(1, shift);
    }
    1u64 << shift
}

/// `a * b`, or the largest integer where the product is larger.
fn product_or_max(a: u64, b: u64) -> (p: u64)
    ensures
        p == if a * b > u64::MAX {
            u64::MAX as int
        } else {
            a * b
        },
{
    match a.checked_mul(b) {
        Some(p) => p,
        None => u64::MAX,
    }
}

/// The line on the namespace called `name`: its number, the kind of disk
/// behind it, and its size.
pub fn print_namespace(name: &str, node: &Node) -> (s: String)
    requires
        namespace_fits(*node),
    ensures
        s@ == namespace_text(name@, *node),
{
    let dir = match node {
        Node::Dir(dir) => dir.as_slice(),
        _ => {
            let mut s = "    NSID ".to_owned();
            s.append(name);
            s.append(": <unevaluated>\n");
            return s;
        },
    };
    proof {
        assert(segments(["nsid"]@) =~= seq!["nsid"@]);
        assert(segments(["block_shift"]@) =~= seq!["block_shift"@]);
        assert(segments(["disk", "sector_size"]@) =~= seq!["disk"@, "sector_size"@]);
        assert(segments(["disk", "sector_count"]@) =~= seq!["disk"@, "sector_count"@]);
        assert(segments(["disk", "disk_type"]@) =~= seq!["disk"@, "disk_type"@]);
        assert(segments(["disk", "is_read_only"]@) =~= seq!["disk"@, "is_read_only"@]);
    }
    let nsid = u64_or_default(dir, &["nsid"], 0);
    let block_shift = u64_or_default(dir, &["block_shift"], 0);
    let sector_size = match find_u64(dir, &["disk", "sector_size"]) {
        Some(size) => size,
        None => block_size(block_shift),
    };
    let sector_count = u64_or_default(dir, &["disk", "sector_count"], 0);
    let disk_type = string_or_default(dir, &["disk", "disk_type"], "?");
    let read_only = match find_bool(dir, &["disk", "is_read_only"]) {
        Some(read_only) => read_only,
        None => false,
    };
    let total_bytes = product_or_max(sector_count, sector_size);

    let mut s = "    NSID ".to_owned();
    s.append(decimal(nsid).as_str());
    s.append("  [");
    s.append(disk_type.as_str());
    s.append(if read_only { ",RO" } else { "" });
    s.append("]  size=");
    s.append(human_bytes(total_bytes).as_str());
    s.append("  (sectors=");
    s.append(decimal(sector_count).as_str());
    s.append(", LBA=");
    s.append(decimal(sector_size).as_str());
    s.append("B)\n");
    s
}

/// The namespaces of a controller; none where it does not list any.
pub open spec fn namespaces(dir: Seq<Entry>) -> Seq<Entry> {
    match dir_at(dir, seq!["namespaces"@]) {
        Some(list) => list,
        None => seq![],
    }
}

/// Whether the block sizes of all namespaces of a controller fit in 64 bits.
pub open spec fn controller_fits(node: Node) -> bool {
    match node {
        Node::Dir(dir) => namespaces_fit(namespaces(dir@)),
        _ => true,
    }
}

/// Whether the block sizes of all these namespaces fit in 64 bits.
pub open spec fn namespaces_fit(list: Seq<Entry>) -> bool {
    forall|i: int| 0 <= i < list.len() ==> namespace_fits(#[trigger] list[i].node)
}

/// The vendor and device ids of a controller.
pub open spec fn ids_text(dir: Seq<Entry>) -> Seq<char> {
    match (
        u64_at(dir, seq!["cfg_space"@, "hardware_ids"@, "vendor_id"@]),
        u64_at(dir, seq!["cfg_space"@, "hardware_ids"@, "device_id"@]),
    ) {
        (Some(vendor), Some(device)) => "VEN_"@ + upper_hex_text(vendor as nat, 4) + "&DEV_"@
            + upper_hex_text(device as nat, 4),
        _ => "VEN_?&DEV_?"@,
    }
}

/// What a controller is doing, from the state of its worker. A worker runs on
/// while the VM is halted, but no guest is there to give it work.
pub open spec fn state_text(unit_state: Seq<char>, vm_halted: bool) -> Seq<char> {
    if vm_halted && unit_state == "running"@ {
        "idle - VM halted"@
    } else {
        unit_state
    }
}

/// The first line on a controller: its name, state and ids.
pub open spec fn header_text(name: Seq<char>, dir: Seq<Entry>, vm_halted: bool) -> Seq<char> {
    "Controller "@ + name + "  ["@ + state_text(
        string_or(dir, seq!["unit_state"@], "(unknown)"@),
        vm_halted,
    ) + "]  "@ + ids_text(dir) + "\n"@
}

/// The first eight characters of `s`, or all of it.
pub open spec fn shortened(s: Seq<char>) -> Seq<char> {
    if s.len() <= 8 {
        s
    } else {
        s.take(8)
    }
}

/// The line on where a controller is mapped. The subsystem id is there only
/// where the controller has one.
pub open spec fn mapping_text(dir: Seq<Entry>) -> Seq<char> {
    let subsystem = string_or(dir, seq!["config"@, "subsystem_id"@], ""@);
    let bar0 = string_or(dir, seq!["cfg_space"@, "active_bars"@, "bar0"@], ""@);
    if subsystem.len() != 0 {
        "  Subsystem: "@ + shortened(subsystem) + "...  BAR0: "@ + bar0 + "\n"@
    } else {
        "  BAR0: "@ + bar0 + "\n"@
    }
}

/// The line on the queues of a controller.
pub open spec fn queues_text(dir: Seq<Entry>) -> Seq<char> {
    "  Queues: max_sqs="@ + decimal_text(u64_or(dir, seq!["config"@, "max_sqs"@], 0) as nat)
        + ", max_cqs="@ + decimal_text(u64_or(dir, seq!["config"@, "max_cqs"@], 0) as nat)
        + "  | io_sqs="@ + decimal_text(child_count(dir, seq!["io_sqs"@])) + ", io_cqs="@
        + decimal_text(child_count(dir, seq!["io_cqs"@])) + "  | msi-x_vectors="@ + decimal_text(
        u64_or(dir, seq!["cfg_space"@, "capabilities"@, "msi-x"@, "count"@], 0) as nat,
    ) + "\n"@
}

/// The line on the asynchronous event requests that wait at a controller.
pub open spec fn events_text(dir: Seq<Entry>) -> Seq<char> {
    "  Outstanding AERs (queued by host): "@ + decimal_text(
        child_count(dir, seq!["asynchronous_event_requests"@]),
    ) + "\n"@
}

/// The lines on some namespaces, one after the other.
pub open spec fn namespace_lines(list: Seq<Entry>) -> Seq<char>
    decreases list.len(),
{
    if list.len() == 0 {
        ""@
    } else {
        namespace_lines(list.drop_last()) + namespace_text(list.last().name@, list.last().node)
    }
}

/// The lines on the namespaces of a controller, with their heading.
pub open spec fn namespaces_text(dir: Seq<Entry>) -> Seq<char> {
    if namespaces(dir).len() == 0 {
        "  Namespaces: (none)\n"@
    } else {
        "  Namespaces:\n"@ + namespace_lines(namespaces(dir))
    }
}

/// The lines on the controller called `name`.
pub open spec fn controller_text(name: Seq<char>, node: Node, vm_halted: bool) -> Seq<char> {
    match node {
        Node::Dir(dir) => header_text(name, dir@, vm_halted) + mapping_text(dir@) + queues_text(dir@)
            + events_text(dir@) + namespaces_text(dir@),
        _ => "Controller "@ + name + ": <unevaluated>\n"@,
    }
}

/// The vendor and device ids of a controller.
fn print_ids(dir: &[Entry]) -> (s: String)
    ensures
        s@ == ids_text(dir@),
{
    proof {
        assert(segments(["cfg_space", "hardware_ids", "vendor_id"]@)
            =~= seq!["cfg_space"@, "hardware_ids"@, "vendor_id"@]);
        assert(segments(["cfg_space", "hardware_ids", "device_id"]@)
            =~= seq!["cfg_space"@, "hardware_ids"@, "device_id"@]);
    }
    let vid = find_u64(dir, &["cfg_space", "hardware_ids", "vendor_id"]);
    let did = find_u64(dir, &["cfg_space", "hardware_ids", "device_id"]);
    match (vid, did) {
        (Some(vendor), Some(device)) => {
            let mut s = "VEN_".to_owned();
            s.append(upper_hex(vendor, 4).as_str());
            s.append("&DEV_");
            s.append(upper_hex(device, 4).as_str());
            s
        },
        _ => "VEN_?&DEV_?".to_owned(),
    }
}

/// The first line on a controller.
fn print_header(name: &str, dir: &[Entry], vm_halted: bool) -> (s: String)
    ensures
        s@ == header_text(name@, dir@, vm_halted),
{
    proof {
        assert(segments(["unit_state"]@) =~= seq!["unit_state"@]);
    }
    let unit_state = string_or_default(dir, &["unit_state"], "(unknown)");
    let mut s = "Controller ".to_owned();
    s.append(name);
    s.append("  [");
    if vm_halted && same_text(unit_state.as_str(), "running") {
        s.append("idle - VM halted");
    } else {
        s.append(unit_state.as_str());
    }
    s.append("]  ");
    s.append(print_ids(dir).as_str());
    s.append("\n");
    s
}

/// The line on where a controller is mapped.
fn print_mapping(dir: &[Entry]) -> (s: String)
    ensures
        s@ == mapping_text(dir@),
{
    proof {
        assert(segments(["config", "subsystem_id"]@) =~= seq!["config"@, "subsystem_id"@]);
        assert(segments(["cfg_space", "active_bars", "bar0"]@)
            =~= seq!["cfg_space"@, "active_bars"@, "bar0"@]);
    }
    let subsystem = string_or_default(dir, &["config", "subsystem_id"], "");
    let bar0 = string_or_default(dir, &["cfg_space", "active_bars", "bar0"], "");
    let len = subsystem.as_str().unicode_len();
    if len != 0 {
        let mut s = "  Subsystem: ".to_owned();
        if len <= 8 {
            s.append(subsystem.as_str());
        } else {
            s.append(subsystem.as_str().substring_char(0, 8));
        }
        s.append("...  BAR0: ");
        s.append(bar0.as_str());
        s.append("\n");
        s
    } else {
        let mut s = "  BAR0: ".to_owned();
        s.append(bar0.as_str());
        s.append("\n");
        s
    }
}

/// The line on the queues of a controller.
fn print_queues(dir: &[Entry]) -> (s: String)
    ensures
        s@ == queues_text(dir@),
{
    proof {
        assert(segments(["config", "max_sqs"]@) =~= seq!["config"@, "max_sqs"@]);
        assert(segments(["config", "max_cqs"]@) =~= seq!["config"@, "max_cqs"@]);
        assert(segments(["cfg_space", "capabilities", "msi-x", "count"]@)
            =~= seq!["cfg_space"@, "capabilities"@, "msi-x"@, "count"@]);
        assert(segments(["io_sqs"]@) =~= seq!["io_sqs"@]);
        assert(segments(["io_cqs"]@) =~= seq!["io_cqs"@]);
    }
    let max_sqs = u64_or_default(dir, &["config", "max_sqs"], 0);
    let max_cqs = u64_or_default(dir, &["config", "max_cqs"], 0);
    let msix_count = u64_or_default(dir, &["cfg_space", "capabilities", "msi-x", "count"], 0);
    let io_sqs_count = count_children(dir, &["io_sqs"]);
    let io_cqs_count = count_children(dir, &["io_cqs"]);

    let mut s = "  Queues: max_sqs=".to_owned();
    s.append(decimal(max_sqs).as_str());
    s.append(", max_cqs=");
    s.append(decimal(max_cqs).as_str());
    s.append("  | io_sqs=");
    s.append(decimal(io_sqs_count as u64).as_str());
    s.append(", io_cqs=");
    s.append(decimal(io_cqs_count as u64).as_str());
    s.append("  | msi-x_vectors=");
    s.append(decimal(msix_count).as_str());
    s.append("\n");
    s
}

/// The line on the asynchronous event requests that wait at a controller.
fn print_events(dir: &[Entry]) -> (s: String)
    ensures
        s@ == events_text(dir@),
{
    proof {
        assert(segments(["asynchronous_event_requests"]@) =~= seq!["asynchronous_event_requests"@]);
    }
    let aer_outstanding = count_children(dir, &["asynchronous_event_requests"]);
    let mut s = "  Outstanding AERs (queued by host): ".to_owned();
    s.append(decimal(aer_outstanding as u64).as_str());
    s.append("\n");
    s
}

/// The lines on the namespaces of a controller.
fn print_namespaces(dir: &[Entry]) -> (s: String)
    requires
        namespaces_fit(namespaces(dir@)),
    ensures
        s@ == namespaces_text(dir@),
{
    proof {
        assert(segments(["namespaces"]@) =~= seq!["namespaces"@]);
    }
    match find_dir(dir, &["namespaces"]) {
        Some(list) if list.len() != 0 => {
            let mut lines = "".to_owned();
            let mut i: usize = 0;
            assert(list@.take(0) =~= seq![]);
            while i < list.len()
                invariant
                    i <= list@.len(),
                    namespaces_fit(list@),
                    lines@ == namespace_lines(list@.take(i as int)),
                decreases list@.len() - i,
            {
                assert(list@.take(i + 1).drop_last() =~= list@.take(i as int));
                let line = print_namespace(list[i].name.as_str(), &list[i].node);
                lines.append(line.as_str());
                i += 1;
            }
            assert(list@.take(i as int) =~= list@);
            let mut s = "  Namespaces:\n".to_owned();
            s.append(lines.as_str());
            s
        },
        _ => "  Namespaces: (none)\n".to_owned(),
    }
}

/// The lines on the controller called `name`. `vm_halted` tells whether the
/// VM as a whole is halted.
pub fn print_controller(name: &str, node: &Node, vm_halted: bool) -> (s: String)
    requires
        controller_fits(*node),
    ensures
        s@ == controller_text(name@, *node, vm_halted),
{
    match node {
        Node::Dir(dir) => {
            let dir = dir.as_slice();
            let mut s = print_header(name, dir, vm_halted);
            s.append(print_mapping(dir).as_str());
            s.append(print_queues(dir).as_str());
            s.append(print_events(dir).as_str());
            s.append(print_namespaces(dir).as_str());
            s
        },
        _ => {
            let mut s = "Controller ".to_owned();
            s.append(name);
            s.append(": <unevaluated>\n");
            s
        },
    }
}

/// What is left of `name` between `prefix` and `suffix`, where it has both.
pub open spec fn between(name: Seq<char>, prefix: Seq<char>, suffix: Seq<char>) -> Option<Seq<char>> {
    if prefix.len() + suffix.len() <= name.len() && prefix.is_prefix_of(name) && suffix.is_suffix_of(name) {
        Some(name.subrange(prefix.len() as int, name.len() - suffix.len()))
    } else {
        None
    }
}

/// The name of the NVMe controller that an entry of the VM stands for.
pub open spec fn controller_name(entry: Seq<char>) -> Option<Seq<char>> {
    between(entry, "pcie:"@, "-nvme"@)
}

/// The NVMe controllers among the entries of a VM, by name, in their order.
pub open spec fn controllers(entries: Seq<Entry>) -> Seq<(Seq<char>, Node)>
    decreases entries.len(),
{
    if entries.len() == 0 {
        seq![]
    } else {
        let rest = controllers(entries.drop_last());
        match controller_name(entries.last().name@) {
            Some(name) => rest.push((name, entries.last().node)),
            None => rest,
        }
    }
}

/// The lines on some controllers, with an empty line between any two.
pub open spec fn controller_lines(list: Seq<(Seq<char>, Node)>, vm_halted: bool) -> Seq<char>
    decreases list.len(),
{
    if list.len() == 0 {
        ""@
    } else {
        let last = controller_text(list.last().0, list.last().1, vm_halted);
        if list.len() == 1 {
            last
        } else {
            controller_lines(list.drop_last(), vm_halted) + "\n"@ + last
        }
    }
}

/// What the virtual CPUs are doing.
pub open spec fn power_state(entries: Seq<Entry>) -> Seq<char> {
    string_or(entries, seq!["partition"@, "power_state"@], "(unknown)"@)
}

/// How often the VM has halted.
pub open spec fn halt_count(entries: Seq<Entry>) -> u64 {
    u64_or(entries, seq!["partition"@, "halt_count"@], 0)
}

/// Whether the VM is halted.
pub open spec fn is_halted(entries: Seq<Entry>) -> bool {
    power_state(entries) == "halted"@
}

/// The line on the power state. It counts the halts where there were any.
pub open spec fn power_text(entries: Seq<Entry>) -> Seq<char> {
    if halt_count(entries) > 0 || is_halted(entries) {
        "VM: power_state="@ + power_state(entries) + "  halt_count="@ + decimal_text(
            halt_count(entries) as nat,
        ) + "\n"@
    } else {
        "VM: power_state="@ + power_state(entries) + "\n"@
    }
}

/// The status report on a VM. `tree` is the text of the whole node, which is
/// all there is to say where it is no directory.
pub open spec fn status_text(vm: Node, tree: Seq<char>) -> Seq<char> {
    match vm {
        Node::Dir(entries) => power_text(entries@) + (if controllers(entries@).len() == 0 {
            "  (no NVMe controllers found)\n"@
        } else {
            controller_lines(controllers(entries@), is_halted(entries@))
        }),
        _ => "(VM root not a directory: "@ + tree + ")\n"@,
    }
}

/// Whether the block sizes of all namespaces of a VM fit in 64 bits.
pub open spec fn vm_fits(vm: Node) -> bool {
    match vm {
        Node::Dir(entries) => controllers_fit(controllers(entries@)),
        _ => true,
    }
}

/// Whether the block sizes of all namespaces of these controllers fit in 64
/// bits.
pub open spec fn controllers_fit(list: Seq<(Seq<char>, Node)>) -> bool {
    forall|i: int| 0 <= i < list.len() ==> controller_fits(#[trigger] list[i].1)
}

/// A list of borrowed controllers, as a sequence of values.
pub open spec fn listed(list: Seq<(&str, &Node)>) -> Seq<(Seq<char>, Node)> {
    list.map_values(|c: (&str, &Node)| (c.0@, *c.1))
}

/// The name of the NVMe controller that an entry of the VM stands for, if any:
/// such an entry is called `pcie:<name>-nvme`.
pub fn find_controller_name(entry: &str) -> (found: Option<&str>)
    ensures
        match found {
            Some(name) => controller_name(entry@) == Some(name@),
            None => controller_name(entry@) is None,
        },
{
    proof {
        reveal_strlit("pcie:");
        reveal_strlit("-nvme");
    }
    let len = entry.unicode_len();
    if len < 10 {
        return None;
    }
    let prefix = entry.substring_char(0, 5);
    let suffix = entry.substring_char(len - 5, len);
    assert("-nvme"@.is_suffix_of(entry@) <==> suffix@ =~= "-nvme"@);
    assert("pcie:"@.is_prefix_of(entry@) <==> prefix@ =~= "pcie:"@);
    if same_text(prefix, "pcie:") && same_text(suffix, "-nvme") {
        Some(entry.substring_char(5, len - 5))
    } else {
        None
    }
}

/// The NVMe controllers among the entries of a VM.
pub fn find_controllers<'a>(entries: &'a [Entry]) -> (found: Vec<(&'a str, &'a Node)>)
    ensures
        listed(found@) == controllers(entries@),
{
    let mut found: Vec<(&'a str, &'a Node)> = Vec::new();
    let mut i: usize = 0;
    assert(entries@.take(0) =~= seq![]);
    while i < entries.len()
        invariant
            i <= entries@.len(),
            listed(found@) =~= controllers(entries@.take(i as int)),
        decreases entries@.len() - i,
    {
        assert(entries@.take(i + 1).drop_last() =~= entries@.take(i as int));
        let entry = &entries[i];
        if let Some(name) = find_controller_name(entry.name.as_str()) {
            found.push((name, &entry.node));
        }
        i += 1;
    }
    assert(entries@.take(i as int) =~= entries@);
    found
}

/// The line on the power state of the VM.
fn print_power(entries: &[Entry]) -> (line: (String, bool))
    ensures
        line.0@ == power_text(entries@),
        line.1 == is_halted(entries@),
{
    proof {
        assert(segments(["partition", "power_state"]@) =~= seq!["partition"@, "power_state"@]);
        assert(segments(["partition", "halt_count"]@) =~= seq!["partition"@, "halt_count"@]);
    }
    let power_state = string_or_default(entries, &["partition", "power_state"], "(unknown)");
    let halt_count = u64_or_default(entries, &["partition", "halt_count"], 0);
    let vm_halted = same_text(power_state.as_str(), "halted");
    let mut s = "VM: power_state=".to_owned();
    s.append(power_state.as_str());
    if halt_count > 0 || vm_halted {
        s.append("  halt_count=");
        s.append(decimal(halt_count).as_str());
    }
    s.append("\n");
    (s, vm_halted)
}

/// The status report on a VM, from its inspection tree. `tree` is the
/// multi-line text of that tree, for a root that is no directory.
pub fn print_status(vm: &Node, tree: &str) -> (s: String)
    requires
        vm_fits(*vm),
    ensures
        s@ == status_text(*vm, tree@),
{
    let entries = match vm {
        Node::Dir(entries) => entries.as_slice(),
        _ => {
            let mut s = "(VM root not a directory: ".to_owned();
            s.append(tree);
            s.append(")\n");
            return s;
        },
    };
    let (mut s, vm_halted) = print_power(entries);
    let found = find_controllers(entries);
    if found.len() == 0 {
        s.append("  (no NVMe controllers found)\n");
        return s;
    }
    let ghost list = listed(found@);
    let mut lines = "".to_owned();
    let mut i: usize = 0;
    assert(list.take(0) =~= seq![]);
    while i < found.len()
        invariant
            i <= found@.len(),
            list == listed(found@),
            controllers_fit(list),
            lines@ == controller_lines(list.take(i as int), vm_halted),
        decreases found@.len() - i,
    {
        assert(list.take(i + 1).drop_last() =~= list.take(i as int));
        let (name, node) = found[i];
        assert(list[i as int].0 == name@ && list[i as int].1 == *node);
        let controller = print_controller(name, node, vm_halted);
        if i > 0 {
            lines.append("\n");
            lines.append(controller.as_str());
        } else {
            lines = controller;
        }
        i += 1;
    }
    assert(list.take(i as int) =~= list);
    s.append(lines.as_str());
    s
}

/// Whether the block sizes of all namespaces of a VM fit in 64 bits, so that
/// there is a status report on it.
pub fn block_sizes_fit(vm: &Node) -> (fit: bool)
    ensures
        fit == vm_fits(*vm),
{
    let entries = match vm {
        Node::Dir(entries) => entries.as_slice(),
        _ => {
            return true;
        },
    };
    let found = find_controllers(entries);
    let ghost list = listed(found@);
    let mut i: usize = 0;
    while i < found.len()
        invariant
            i <= found@.len(),
            list == listed(found@),
            list == controllers(children(*vm)),
            *vm is Dir,
            forall|j: int| 0 <= j < i ==> controller_fits(#[trigger] list[j].1),
        decreases found@.len() - i,
    {
        let (name, node) = found[i];
        assert(list[i as int].1 == *node);
        if !controller_sizes_fit(node) {
            return false;
        }
        i += 1;
    }
    true
}

/// Whether the block sizes of all namespaces of a controller fit in 64 bits.
fn controller_sizes_fit(node: &Node) -> (fit: bool)
    ensures
        fit == controller_fits(*node),
{
    proof {
        assert(segments(["namespaces"]@) =~= seq!["namespaces"@]);
        assert(segments(["block_shift"]@) =~= seq!["block_shift"@]);
    }
    let dir = match node {
        Node::Dir(dir) => dir.as_slice(),
        _ => {
            return true;
        },
    };
    let list = match find_dir(dir, &["namespaces"]) {
        Some(list) => list,
        None => {
            return true;
        },
    };
    assert(namespaces(dir@) == list@);
    let mut i: usize = 0;
    while i < list.len()
        invariant
            i <= list@.len(),
            namespaces(dir@) == list@,
            dir@ == children(*node),
            *node is Dir,
            segments(["block_shift"]@) == seq!["block_shift"@],
            forall|j: int| 0 <= j < i ==> namespace_fits(#[trigger] list@[j].node),
        decreases list@.len() - i,
    {
        if let Node::Dir(namespace) = &list[i].node {
            if u64_or_default(namespace.as_slice(), &["block_shift"], 0) >= 64 {
                return false;
            }
        }
        i += 1;
    }
    true
}

/// An entry stands for the controller `name` if and only if it is called
/// `pcie:<name>-nvme`.
pub proof fn law_controller_entries(entry: Seq<char>, name: Seq<char>)
    ensures
        controller_name(entry) == Some(name) <==> entry == "pcie:"@ + name + "-nvme"@,
{
    let prefix = "pcie:"@;
    let suffix = "-nvme"@;
    let whole = prefix + name + suffix;
    assert(prefix.is_prefix_of(whole) && suffix.is_suffix_of(whole)) by {
        assert(whole.subrange(0, prefix.len() as int) =~= prefix);
        assert(whole.subrange(whole.len() - suffix.len(), whole.len() as int) =~= suffix);
    }
    assert(whole.subrange(prefix.len() as int, whole.len() - suffix.len()) =~= name);
    if controller_name(entry) == Some(name) {
        assert(entry =~= whole);
    }
}

/// The controllers of a VM are those of its first entries, then those of the
/// others: none is dropped, added or moved.
pub proof fn law_controllers_keep_order(a: Seq<Entry>, b: Seq<Entry>)
    ensures
        controllers(a + b) == controllers(a) + controllers(b),
    decreases b.len(),
{
    if b.len() == 0 {
        assert(a + b =~= a);
        assert(controllers(a) + controllers(b) =~= controllers(a));
    } else {
        assert((a + b).drop_last() =~= a + b.drop_last());
        law_controllers_keep_order(a, b.drop_last());
        assert(controllers(a + b) =~= controllers(a) + controllers(b));
    }
}

/// Every entry that is called like a controller is listed as one, and nothing
/// else is.
pub proof fn law_every_controller_is_listed(entries: Seq<Entry>, name: Seq<char>, node: Node)
    ensures
        controllers(entries).contains((name, node)) <==> exists|i: int|
            0 <= i < entries.len() && #[trigger] entries[i].node == node && controller_name(entries[i].name@)
                == Some(name),
    decreases entries.len(),
{
    if entries.len() != 0 {
        let rest = entries.drop_last();
        let last = entries.last();
        let item = (name, node);
        law_every_controller_is_listed(rest, name, node);
        assert(forall|i: int| 0 <= i < rest.len() ==> rest[i] == #[trigger] entries[i]);
        if controllers(rest).contains(item) {
            let i = choose|i: int|
                0 <= i < rest.len() && #[trigger] rest[i].node == node && controller_name(rest[i].name@)
                    == Some(name);
            assert(entries[i].node == node);
            let k = choose|k: int| 0 <= k < controllers(rest).len() && controllers(rest)[k] == item;
            assert(controllers(entries)[k] == item);
        }
        if controller_name(last.name@) == Some(name) && last.node == node {
            assert(entries[entries.len() - 1].node == node);
            assert(controllers(entries).last() == item);
        }
        if controllers(entries).contains(item) && !controllers(rest).contains(item) {
            let k = choose|k: int| 0 <= k < controllers(entries).len() && controllers(entries)[k] == item;
            if k < controllers(rest).len() {
                assert(controllers(rest)[k] == item);
            }
            assert(entries[entries.len() - 1].node == node);
        }
        if exists|i: int|
            0 <= i < entries.len() && #[trigger] entries[i].node == node && controller_name(entries[i].name@)
                == Some(name) {
            let i = choose|i: int|
                0 <= i < entries.len() && #[trigger] entries[i].node == node && controller_name(
                    entries[i].name@,
                ) == Some(name);
            if i < rest.len() {
                assert(rest[i].node == node);
            }
        }
    }
}

/// While the VM is halted no controller is reported as running; while it is
/// not, each is reported in the state of its worker.
pub proof fn law_nothing_runs_in_a_halted_vm(unit_state: Seq<char>)
    ensures
        state_text(unit_state, true) != "running"@,
        unit_state != "running"@ ==> state_text(unit_state, true) == unit_state,
        state_text(unit_state, false) == unit_state,
{
    reveal_strlit("running");
    reveal_strlit("idle - VM halted");
    assert("running"@.len() != "idle - VM halted"@.len());
}

/// The report on a directory starts with the power state of the VM.
pub proof fn law_power_state_comes_first(vm: Node, tree: Seq<char>)
    requires
        vm is Dir,
    ensures
        ("VM: power_state="@ + power_state(vm->Dir_0@)).is_prefix_of(status_text(vm, tree)),
{
    let start = "VM: power_state="@ + power_state(vm->Dir_0@);
    let text = status_text(vm, tree);
    assert(text.subrange(0, start.len() as int) =~= start);
}

/// Whether `s` ends with a line break.
pub open spec fn ends_line(s: Seq<char>) -> bool {
    s.len() > 0 && s.last() == '\n'
}

proof fn lemma_controller_ends_line(name: Seq<char>, node: Node, vm_halted: bool)
    ensures
        ends_line(controller_text(name, node, vm_halted)),
{
    reveal_strlit(": <unevaluated>\n");
    reveal_strlit("  Namespaces: (none)\n");
    reveal_strlit("  Namespaces:\n");
    if let Node::Dir(dir) = node {
        let list = namespaces(dir@);
        if list.len() != 0 {
            reveal_strlit("B)\n");
            assert(ends_line(namespace_text(list.last().name@, list.last().node)));
        }
    }
}

/// The report consists of whole lines.
pub proof fn law_status_ends_its_line(vm: Node, tree: Seq<char>)
    ensures
        ends_line(status_text(vm, tree)),
{
    reveal_strlit(")\n");
    reveal_strlit("  (no NVMe controllers found)\n");
    if let Node::Dir(entries) = vm {
        let list = controllers(entries@);
        if list.len() != 0 {
            lemma_controller_ends_line(list.last().0, list.last().1, is_halted(entries@));
        }
    }
}

/// Whether `part` stands somewhere in `whole`, in one piece.
pub open spec fn holds_text(whole: Seq<char>, part: Seq<char>) -> bool {
    exists|before: Seq<char>, after: Seq<char>| whole == #[trigger] (before + part + after)
}

pub(crate) proof fn lemma_holds_text_inside(a: Seq<char>, whole: Seq<char>, b: Seq<char>, part: Seq<char>)
    requires
        holds_text(whole, part),
    ensures
        holds_text(a + whole + b, part),
{
    let (before, after) = choose|before: Seq<char>, after: Seq<char>|
        whole == #[trigger] (before + part + after);
    assert(a + whole + b =~= (a + before) + part + (after + b));
}

pub(crate) proof fn lemma_holds_text_itself(a: Seq<char>, part: Seq<char>, b: Seq<char>)
    ensures
        holds_text(a + part + b, part),
{
}

proof fn lemma_controller_lines_hold(list: Seq<(Seq<char>, Node)>, vm_halted: bool, k: int)
    requires
        0 <= k < list.len(),
    ensures
        holds_text(controller_lines(list, vm_halted), controller_text(list[k].0, list[k].1, vm_halted)),
    decreases list.len(),
{
    let empty = Seq::<char>::empty();
    let lines = controller_lines(list, vm_halted);
    let part = controller_text(list[k].0, list[k].1, vm_halted);
    let last = controller_text(list.last().0, list.last().1, vm_halted);
    let rest = controller_lines(list.drop_last(), vm_halted);
    if k < list.len() - 1 {
        lemma_controller_lines_hold(list.drop_last(), vm_halted, k);
        lemma_holds_text_inside(empty, rest, "\n"@ + last, part);
        assert(lines =~= empty + rest + ("\n"@ + last));
    } else if list.len() == 1 {
        lemma_holds_text_itself(empty, part, empty);
        assert(lines =~= empty + part + empty);
    } else {
        lemma_holds_text_itself(rest + "\n"@, part, empty);
        assert(lines =~= (rest + "\n"@) + part + empty);
    }
}

proof fn lemma_namespace_lines_hold(list: Seq<Entry>, k: int)
    requires
        0 <= k < list.len(),
    ensures
        holds_text(namespace_lines(list), namespace_text(list[k].name@, list[k].node)),
    decreases list.len(),
{
    let empty = Seq::<char>::empty();
    let part = namespace_text(list[k].name@, list[k].node);
    let rest = namespace_lines(list.drop_last());
    if k < list.len() - 1 {
        let last = namespace_text(list.last().name@, list.last().node);
        lemma_namespace_lines_hold(list.drop_last(), k);
        lemma_holds_text_inside(empty, rest, last, part);
        assert(namespace_lines(list) =~= empty + rest + last);
    } else {
        lemma_holds_text_itself(rest, part, empty);
        assert(namespace_lines(list) =~= rest + part + empty);
    }
}

/// The report holds the lines on every controller of the VM.
pub proof fn law_every_controller_is_reported(vm: Node, tree: Seq<char>, k: int)
    requires
        vm is Dir,
        0 <= k < controllers(vm->Dir_0@).len(),
    ensures
        holds_text(
            status_text(vm, tree),
            controller_text(
                controllers(vm->Dir_0@)[k].0,
                controllers(vm->Dir_0@)[k].1,
                is_halted(vm->Dir_0@),
            ),
        ),
{
    let entries = vm->Dir_0@;
    let list = controllers(entries);
    let empty = Seq::<char>::empty();
    let lines = controller_lines(list, is_halted(entries));
    let part = controller_text(list[k].0, list[k].1, is_halted(entries));
    lemma_controller_lines_hold(list, is_halted(entries), k);
    lemma_holds_text_inside(power_text(entries), lines, empty, part);
    assert(status_text(vm, tree) =~= power_text(entries) + lines + empty);
}

/// The lines on a controller hold the line on each of its namespaces.
pub proof fn law_every_namespace_is_reported(name: Seq<char>, node: Node, vm_halted: bool, k: int)
    requires
        node is Dir,
        0 <= k < namespaces(node->Dir_0@).len(),
    ensures
        holds_text(
            controller_text(name, node, vm_halted),
            namespace_text(namespaces(node->Dir_0@)[k].name@, namespaces(node->Dir_0@)[k].node),
        ),
{
    let dir = node->Dir_0@;
    let list = namespaces(dir);
    let empty = Seq::<char>::empty();
    let front = header_text(name, dir, vm_halted) + mapping_text(dir) + queues_text(dir) + events_text(dir)
        + "  Namespaces:\n"@;
    lemma_namespace_lines_hold(list, k);
    lemma_holds_text_inside(
        front,
        namespace_lines(list),
        empty,
        namespace_text(list[k].name@, list[k].node),
    );
    assert(controller_text(name, node, vm_halted) =~= front + namespace_lines(list) + empty);
}

} // verus!
