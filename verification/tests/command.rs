use openvmm_ctl::command::{Cmd, DiskType, Format, ModifyType, Reply, Request, Resource};
use openvmm_ctl::tree::Node;

fn add_ns() -> Cmd {
    Cmd::AddNs {
        controller: "nv0".to_string(),
        nsid: 5,
        file: "/tmp/disk.img".to_string(),
        read_only: true,
    }
}

fn remove_ns() -> Cmd {
    Cmd::RemoveNs {
        controller: "nv0".to_string(),
        nsid: 5,
    }
}

fn inspect(depth: Option<u32>, format: Format) -> Cmd {
    Cmd::Inspect {
        path: "vm".to_string(),
        depth,
        format,
    }
}

fn add_disk() -> Cmd {
    Cmd::AddScsiDisk {
        lun: 3,
        file: "/tmp/disk.vhdx".to_string(),
        read_only: true,
    }
}

fn snapshot() -> Cmd {
    Cmd::SaveSnapshot {
        dir: "/tmp/snap".to_string(),
        shown: "/tmp/snap".to_string(),
    }
}

fn all() -> Vec<(Cmd, &'static str, &'static str)> {
    vec![
        (Cmd::Pause, "PauseVm", "paused\n"),
        (Cmd::Resume, "ResumeVm", "resumed\n"),
        (add_ns(), "ModifyResource(Add)", "namespace added\n"),
        (remove_ns(), "ModifyResource(Remove)", "namespace removed\n"),
        (add_disk(), "ModifyResource(Add SCSI)", "scsi disk added at lun 3\n"),
        (
            Cmd::RemoveScsiDisk { lun: 4294967295 },
            "ModifyResource(Remove SCSI)",
            "scsi disk removed at lun 4294967295\n",
        ),
        (
            snapshot(),
            "SaveSnapshot",
            "snapshot saved to /tmp/snap; VM is paused. Stop openvmm and relaunch with --restore-snapshot <dir> to continue.\n",
        ),
        (Cmd::Reset, "ResetVm", "reset issued; guest is rebooting\n"),
        (Cmd::ClearHalt, "ClearHaltVm", "halt cleared\n"),
    ]
}

#[test]
fn plain_commands_make_plain_calls() {
    assert!(matches!(Cmd::Pause.request(), Request::PauseVm));
    assert!(matches!(Cmd::Resume.request(), Request::ResumeVm));
    assert!(matches!(Cmd::Reset.request(), Request::ResetVm));
    assert!(matches!(Cmd::ClearHalt.request(), Request::ClearHaltVm));
    assert!(matches!(snapshot().request(), Request::SaveSnapshot { dir } if dir == "/tmp/snap"));
}

#[test]
fn namespace_is_removed_where_it_was_added() {
    let (added, removed) = match (add_ns().request(), remove_ns().request()) {
        (
            Request::ModifyResource(ModifyType::Add, Resource::NvmeNamespace(added)),
            Request::ModifyResource(ModifyType::Remove, Resource::NvmeNamespace(removed)),
        ) => (added, removed),
        _ => panic!("not a pair of namespace requests"),
    };
    assert_eq!(added.controller_name, "nv0");
    assert_eq!(added.nsid, 5);
    assert_eq!(added.host_path, "/tmp/disk.img");
    assert!(added.read_only);
    assert_eq!(removed.controller_name, "nv0");
    assert_eq!(removed.nsid, 5);
    assert_eq!(removed.host_path, "");
    assert!(!removed.read_only);
}

#[test]
fn disk_is_removed_where_it_was_added() {
    let (added, removed) = match (add_disk().request(), Cmd::RemoveScsiDisk { lun: 3 }.request()) {
        (
            Request::ModifyResource(ModifyType::Add, Resource::ScsiDisk(added)),
            Request::ModifyResource(ModifyType::Remove, Resource::ScsiDisk(removed)),
        ) => (added, removed),
        _ => panic!("not a pair of disk requests"),
    };
    assert_eq!((added.controller, added.lun), (0, 3));
    assert_eq!(added.host_path, "/tmp/disk.vhdx");
    assert_eq!(added.disk_type, DiskType::ScsiDiskTypeVhdx);
    assert!(added.read_only);
    assert_eq!((removed.controller, removed.lun), (0, 3));
    assert_eq!(removed.host_path, "");
    assert_eq!(removed.disk_type, DiskType::ScsiDiskTypeVhdx);
    assert!(!removed.read_only);
}

#[test]
fn inspection_goes_all_the_way_down_by_default() {
    match inspect(None, Format::Json).request() {
        Request::Inspect { path, depth } => assert_eq!((path.as_str(), depth), ("vm", u32::MAX)),
        _ => panic!("not an inspection"),
    }
    match inspect(Some(0), Format::Json).request() {
        Request::Inspect { path, depth } => assert_eq!((path.as_str(), depth), ("vm", 0)),
        _ => panic!("not an inspection"),
    }
}

#[test]
fn status_is_an_inspection() {
    match (Cmd::Status.request(), inspect(Some(10), Format::Compact).request()) {
        (Request::Inspect { path: a, depth: m }, Request::Inspect { path: b, depth: n }) => {
            assert_eq!((a.as_str(), m), ("vm", 10));
            assert_eq!((b.as_str(), n), ("vm", 10));
        }
        _ => panic!("not two inspections"),
    }
}

#[test]
fn text_formats() {
    assert_eq!(inspect(None, Format::Tree).text_format(), Some(Format::Tree));
    assert_eq!(inspect(None, Format::Compact).text_format(), Some(Format::Compact));
    assert_eq!(inspect(None, Format::Json).text_format(), Some(Format::Json));
    assert_eq!(Cmd::Status.text_format(), Some(Format::Tree));
    assert_eq!(Cmd::Pause.text_format(), None);
}

#[test]
fn done_calls_are_reported() {
    for (cmd, _, done) in all() {
        assert_eq!(cmd.output(&Reply::Done), Ok(done.to_string()));
    }
}

#[test]
fn failed_calls_are_errors() {
    for (cmd, name, _) in all() {
        assert_eq!(
            cmd.output(&Reply::Failed("Status { code: 5 }".to_string())),
            Err(format!("{} rpc failed: Status {{ code: 5 }}", name))
        );
    }
    assert_eq!(
        Cmd::Status.output(&Reply::Failed("gone".to_string())),
        Err("Inspect(vm) rpc failed: gone".to_string())
    );
    assert_eq!(
        inspect(None, Format::Tree).output(&Reply::Failed("gone".to_string())),
        Err("Inspect rpc failed: gone".to_string())
    );
}

#[test]
fn inspections_show_their_answer() {
    assert_eq!(
        inspect(None, Format::Compact).output(&Reply::Text("{a: 1}".to_string())),
        Ok("{a: 1}\n".to_string())
    );
    assert_eq!(
        Cmd::Status.output(&Reply::Tree(Node::Dir(vec![]), String::new())),
        Ok("VM: power_state=(unknown)\n  (no NVMe controllers found)\n".to_string())
    );
    assert_eq!(
        Cmd::Status.output(&Reply::Tree(Node::Empty, "x".to_string())),
        Ok("(VM root not a directory: x)\n".to_string())
    );
}
