use openvmm_ctl::status::{
    block_sizes_fit, find_controller_name, find_controllers, print_controller, print_namespace, print_status,
};
use openvmm_ctl::tree::{Entry, Node, Value, ValueKind};

fn entry(name: &str, node: Node) -> Entry {
    Entry {
        name: name.to_string(),
        node,
    }
}

fn dir(name: &str, entries: Vec<Entry>) -> Entry {
    entry(name, Node::Dir(entries))
}

fn number(name: &str, n: u64) -> Entry {
    entry(
        name,
        Node::Value(Value {
            kind: ValueKind::Unsigned(n),
            text: n.to_string(),
        }),
    )
}

fn string(name: &str, s: &str) -> Entry {
    entry(
        name,
        Node::Value(Value {
            kind: ValueKind::String(s.to_string()),
            text: s.to_string(),
        }),
    )
}

fn flag(name: &str, b: bool) -> Entry {
    entry(
        name,
        Node::Value(Value {
            kind: ValueKind::Bool(b),
            text: b.to_string(),
        }),
    )
}

fn namespace(nsid: u64, sectors: u64, read_only: bool) -> Node {
    Node::Dir(vec![
        number("nsid", nsid),
        number("block_shift", 9),
        dir(
            "disk",
            vec![
                number("sector_size", 512),
                number("sector_count", sectors),
                string("disk_type", "file"),
                flag("is_read_only", read_only),
            ],
        ),
    ])
}

fn controller(state: &str) -> Node {
    Node::Dir(vec![
        string("unit_state", state),
        dir(
            "cfg_space",
            vec![
                dir(
                    "hardware_ids",
                    vec![number("vendor_id", 0x1414), number("device_id", 0xa9)],
                ),
                dir("active_bars", vec![string("bar0", "0xe0000000")]),
                dir("capabilities", vec![dir("msi-x", vec![number("count", 64)])]),
            ],
        ),
        dir(
            "config",
            vec![
                string("subsystem_id", "0123456789abcdef"),
                number("max_sqs", 64),
                number("max_cqs", 65),
            ],
        ),
        dir("io_sqs", vec![entry("1", Node::Empty), entry("2", Node::Empty)]),
        dir("io_cqs", vec![entry("1", Node::Empty)]),
        dir("asynchronous_event_requests", vec![entry("0", Node::Empty)]),
        dir(
            "namespaces",
            vec![entry("1", namespace(1, 2048, false)), entry("2", namespace(2, 3, true))],
        ),
    ])
}

fn partition(state: &str, halts: u64) -> Entry {
    dir(
        "partition",
        vec![string("power_state", state), number("halt_count", halts)],
    )
}

const BODY: &str = "  Subsystem: 01234567...  BAR0: 0xe0000000\n  \
    Queues: max_sqs=64, max_cqs=65  | io_sqs=2, io_cqs=1  | msi-x_vectors=64\n  \
    Outstanding AERs (queued by host): 1\n  \
    Namespaces:\n    \
    NSID 1  [file]  size=1.00 MiB  (sectors=2048, LBA=512B)\n    \
    NSID 2  [file,RO]  size=1.50 KiB  (sectors=3, LBA=512B)\n";

#[test]
fn namespace_line() {
    assert_eq!(
        print_namespace("7", &namespace(7, 2048, false)),
        "    NSID 7  [file]  size=1.00 MiB  (sectors=2048, LBA=512B)\n"
    );
    assert_eq!(print_namespace("7", &Node::Empty), "    NSID 7: <unevaluated>\n");
}

#[test]
fn namespace_defaults() {
    assert_eq!(
        print_namespace("x", &Node::Dir(vec![])),
        "    NSID 0  [?]  size=0 B  (sectors=0, LBA=1B)\n"
    );
    let by_shift = Node::Dir(vec![
        number("block_shift", 12),
        dir("disk", vec![number("sector_count", 2)]),
    ]);
    assert_eq!(
        print_namespace("x", &by_shift),
        "    NSID 0  [?]  size=8.00 KiB  (sectors=2, LBA=4096B)\n"
    );
    let widest = Node::Dir(vec![number("block_shift", 63)]);
    assert_eq!(
        print_namespace("x", &widest),
        "    NSID 0  [?]  size=0 B  (sectors=0, LBA=9223372036854775808B)\n"
    );
}

#[test]
fn namespace_size_saturates() {
    let huge = Node::Dir(vec![dir(
        "disk",
        vec![number("sector_size", 512), number("sector_count", u64::MAX)],
    )]);
    assert_eq!(
        print_namespace("x", &huge),
        "    NSID 0  [?]  size=16777216.00 TiB  (sectors=18446744073709551615, LBA=512B)\n"
    );
}

#[test]
fn controller_report() {
    let header = "Controller nv0  [running]  VEN_1414&DEV_00A9\n";
    assert_eq!(
        print_controller("nv0", &controller("running"), false),
        format!("{}{}", header, BODY)
    );
    assert_eq!(
        print_controller("nv0", &Node::Empty, false),
        "Controller nv0: <unevaluated>\n"
    );
}

#[test]
fn controller_defaults() {
    let bare = "Controller nv0  [(unknown)]  VEN_?&DEV_?\n  \
        BAR0: \n  \
        Queues: max_sqs=0, max_cqs=0  | io_sqs=0, io_cqs=0  | msi-x_vectors=0\n  \
        Outstanding AERs (queued by host): 0\n  \
        Namespaces: (none)\n";
    assert_eq!(print_controller("nv0", &Node::Dir(vec![]), true), bare);
    let listed = Node::Dir(vec![dir("namespaces", vec![])]);
    assert_eq!(print_controller("nv0", &listed, false), bare);
}

#[test]
fn one_id_alone_is_not_shown() {
    let half = Node::Dir(vec![dir(
        "cfg_space",
        vec![dir("hardware_ids", vec![number("vendor_id", 0x1414)])],
    )]);
    let text = print_controller("nv0", &half, false);
    assert!(text.starts_with("Controller nv0  [(unknown)]  VEN_?&DEV_?\n"));
}

#[test]
fn short_subsystem_is_shown_whole() {
    let short = Node::Dir(vec![dir("config", vec![string("subsystem_id", "\u{e4}b")])]);
    let text = print_controller("nv0", &short, false);
    assert!(text.contains("\n  Subsystem: \u{e4}b...  BAR0: \n"));
    let long = Node::Dir(vec![dir("config", vec![string("subsystem_id", "\u{e4}bcdefghij")])]);
    let text = print_controller("nv0", &long, false);
    assert!(text.contains("\n  Subsystem: \u{e4}bcdefgh...  BAR0: \n"));
}

#[test]
fn running_controller_of_a_halted_vm_is_idle() {
    let idle = print_controller("nv0", &controller("running"), true);
    assert!(idle.starts_with("Controller nv0  [idle - VM halted]  VEN_1414&DEV_00A9\n"));
    let stopped = print_controller("nv0", &controller("stopped"), true);
    assert!(stopped.starts_with("Controller nv0  [stopped]  VEN_1414&DEV_00A9\n"));
}

#[test]
fn controller_names() {
    assert_eq!(find_controller_name("pcie:rp0-nvme"), Some("rp0"));
    assert_eq!(find_controller_name("pcie:\u{e4}-nvme"), Some("\u{e4}"));
    assert_eq!(find_controller_name("pcie:-nvme"), Some(""));
    assert_eq!(find_controller_name("pcie:pcie:x-nvme-nvme"), Some("pcie:x-nvme"));
    assert_eq!(find_controller_name("pcie:nvme"), None);
    assert_eq!(find_controller_name("pcie:rp0-net"), None);
    assert_eq!(find_controller_name("pci:rp0-nvme"), None);
    assert_eq!(find_controller_name(""), None);
}

#[test]
fn controllers_keep_their_order() {
    let entries = vec![
        entry("pcie:b-nvme", Node::Empty),
        partition("running", 0),
        entry("pcie:a-nvme", Node::Empty),
        entry("pcie:b-nvme", Node::Empty),
    ];
    let names: Vec<&str> = find_controllers(&entries).iter().map(|c| c.0).collect();
    assert_eq!(names, vec!["b", "a", "b"]);
}

#[test]
fn status_of_a_running_vm() {
    let vm = Node::Dir(vec![
        entry("pcie:nv0-nvme", controller("running")),
        partition("running", 0),
        entry("pcie:nv1-nvme", Node::Empty),
    ]);
    assert!(block_sizes_fit(&vm));
    assert_eq!(
        print_status(&vm, "tree"),
        format!(
            "VM: power_state=running\nController nv0  [running]  VEN_1414&DEV_00A9\n{}\nController nv1: <unevaluated>\n",
            BODY
        )
    );
}

#[test]
fn status_of_a_halted_vm() {
    let vm = Node::Dir(vec![partition("halted", 0), entry("pcie:nv0-nvme", controller("running"))]);
    assert_eq!(
        print_status(&vm, "tree"),
        format!(
            "VM: power_state=halted  halt_count=0\nController nv0  [idle - VM halted]  VEN_1414&DEV_00A9\n{}",
            BODY
        )
    );
}

#[test]
fn status_without_controllers() {
    assert_eq!(
        print_status(&Node::Dir(vec![partition("running", 2)]), ""),
        "VM: power_state=running  halt_count=2\n  (no NVMe controllers found)\n"
    );
    assert_eq!(
        print_status(&Node::Dir(vec![]), ""),
        "VM: power_state=(unknown)\n  (no NVMe controllers found)\n"
    );
}

#[test]
fn status_of_something_else() {
    assert_eq!(
        print_status(&Node::Empty, "unevaluated"),
        "(VM root not a directory: unevaluated)\n"
    );
}

#[test]
fn block_sizes_are_tested() {
    let with_shift = |shift: u64| {
        Node::Dir(vec![dir(
            "pcie:nv0-nvme",
            vec![dir("namespaces", vec![dir("1", vec![number("block_shift", shift)])])],
        )])
    };
    assert!(block_sizes_fit(&with_shift(63)));
    assert!(!block_sizes_fit(&with_shift(64)));
    assert!(!block_sizes_fit(&with_shift(u64::MAX)));
    assert!(block_sizes_fit(&Node::Empty));
    assert!(block_sizes_fit(&Node::Dir(vec![entry("pcie:nv0-nvme", Node::Empty)])));
}
