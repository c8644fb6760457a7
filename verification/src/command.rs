//! The commands: the call that each makes on the management socket, and what
//! it prints once the call is answered.

use crate::status::{ends_line, law_status_ends_its_line, print_status, status_text, vm_fits};
use crate::text::{decimal, decimal_text};
use crate::tree::Node;
use vstd::prelude::*;
use vstd::string::*;

verus! {

/// How an inspection tree is written out.
#[derive(Copy, Clone, Debug, PartialEq, Eq, Structural)]
pub enum Format {
    /// Indented, over several lines.
    Tree,
    /// Dense, on a single line.
    Compact,
    /// JSON.
    Json,
}

/// A command.
pub enum Cmd {
    /// Pause the VM.
    Pause,
    /// Resume the VM after a pause.
    Resume,
    /// Hot add an NVMe namespace to a controller.
    AddNs {
        /// The controller's name.
        controller: String,
        /// The id of the namespace, not yet in use.
        nsid: u32,
        /// The file behind the namespace.
        file: String,
        /// Whether the file is opened read-only.
        read_only: bool,
    },
    /// Hot remove an NVMe namespace.
    RemoveNs {
        /// The controller's name.
        controller: String,
        /// The id of the namespace.
        nsid: u32,
    },
    /// Show the inspection tree.
    Inspect {
        /// The path of the subtree; empty for the root.
        path: String,
        /// How many levels to expand; all of them if not given.
        depth: Option<u32>,
        /// How to show it.
        format: Format,
    },
    /// Show a summary of the NVMe controllers and namespaces.
    Status,
    /// Hot add a disk to the default SCSI controller.
    AddScsiDisk {
        /// The target LUN, not yet in use.
        lun: u32,
        /// The file behind the disk.
        file: String,
        /// Whether the file is opened read-only.
        read_only: bool,
    },
    /// Hot remove a SCSI disk.
    RemoveScsiDisk {
        /// The LUN of the disk.
        lun: u32,
    },
    /// Save a snapshot of the VM and leave it paused.
    SaveSnapshot {
        /// The directory to save to.
        dir: String,
        /// The directory as it is displayed.
        shown: String,
    },
    /// Reset the platform.
    Reset,
    /// Clear the halted flag.
    ClearHalt,
}

/// What is to happen to a resource.
#[derive(Copy, Clone, Debug, PartialEq, Eq, Structural)]
pub enum ModifyType {
    Add,
    Remove,
}

/// The kind of a SCSI disk.
#[derive(Copy, Clone, Debug, PartialEq, Eq, Structural)]
pub enum DiskType {
    ScsiDiskTypeVhdx,
}

/// A namespace of an NVMe controller.
pub struct NvmeNamespaceConfig {
    pub controller_name: String,
    pub nsid: u32,
    pub host_path: String,
    pub read_only: bool,
}

/// A disk of a SCSI controller.
pub struct ScsiDisk {
    pub controller: u32,
    pub lun: u32,
    pub host_path: String,
    pub disk_type: DiskType,
    pub read_only: bool,
}

/// A resource of a VM.
pub enum Resource {
    NvmeNamespace(NvmeNamespaceConfig),
    ScsiDisk(ScsiDisk),
}

/// A call on the management socket.
pub enum Request {
    PauseVm,
    ResumeVm,
    ModifyResource(ModifyType, Resource),
    Inspect { path: String, depth: u32 },
    SaveSnapshot { dir: String },
    ResetVm,
    ClearHaltVm,
}

/// The answer to a call.
pub enum Reply {
    /// The call failed, with this status.
    Failed(String),
    /// The call is done; there is nothing more to it.
    Done,
    /// The inspection tree as text.
    Text(String),
    /// The inspection tree, and its text over several lines.
    Tree(Node, String),
}

/// The model of a resource.
pub ghost enum ResourceView {
    NvmeNamespace { controller_name: Seq<char>, nsid: u32, host_path: Seq<char>, read_only: bool },
    ScsiDisk { controller: u32, lun: u32, host_path: Seq<char>, disk_type: DiskType, read_only: bool },
}

/// The model of a call.
pub ghost enum RequestView {
    PauseVm,
    ResumeVm,
    ModifyResource(ModifyType, ResourceView),
    Inspect { path: Seq<char>, depth: u32 },
    SaveSnapshot { dir: Seq<char> },
    ResetVm,
    ClearHaltVm,
}

impl View for Resource {
    type V = ResourceView;

    open spec fn view(&self) -> ResourceView {
        match self {
            Resource::NvmeNamespace(namespace) => ResourceView::NvmeNamespace {
                controller_name: namespace.controller_name@,
                nsid: namespace.nsid,
                host_path: namespace.host_path@,
                read_only: namespace.read_only,
            },
            Resource::ScsiDisk(disk) => ResourceView::ScsiDisk {
                controller: disk.controller,
                lun: disk.lun,
                host_path: disk.host_path@,
                disk_type: disk.disk_type,
                read_only: disk.read_only,
            },
        }
    }
}

impl View for Request {
    type V = RequestView;

    open spec fn view(&self) -> RequestView {
        match self {
            Request::PauseVm => RequestView::PauseVm,
            Request::ResumeVm => RequestView::ResumeVm,
            Request::ModifyResource(modify, resource) => RequestView::ModifyResource(*modify, resource@),
            Request::Inspect { path, depth } => RequestView::Inspect { path: path@, depth: *depth },
            Request::SaveSnapshot { dir } => RequestView::SaveSnapshot { dir: dir@ },
            Request::ResetVm => RequestView::ResetVm,
            Request::ClearHaltVm => RequestView::ClearHaltVm,
        }
    }
}

/// The call that a command makes.
pub open spec fn request_of(cmd: Cmd) -> RequestView {
    match cmd {
        Cmd::Pause => RequestView::PauseVm,
        Cmd::Resume => RequestView::ResumeVm,
        Cmd::AddNs { controller, nsid, file, read_only } => RequestView::ModifyResource(
            ModifyType::Add,
            ResourceView::NvmeNamespace { controller_name: controller@, nsid, host_path: file@, read_only },
        ),
        Cmd::RemoveNs { controller, nsid } => RequestView::ModifyResource(
            ModifyType::Remove,
            ResourceView::NvmeNamespace {
                controller_name: controller@,
                nsid,
                host_path: seq![],
                read_only: false,
            },
        ),
        Cmd::Inspect { path, depth, format } => RequestView::Inspect {
            path: path@,
            depth: match depth {
                Some(depth) => depth,
                None => u32::MAX,
            },
        },
        Cmd::Status => RequestView::Inspect { path: "vm"@, depth: 10 },
        Cmd::AddScsiDisk { lun, file, read_only } => RequestView::ModifyResource(
            ModifyType::Add,
            ResourceView::ScsiDisk {
                controller: 0,
                lun,
                host_path: file@,
                disk_type: DiskType::ScsiDiskTypeVhdx,
                read_only,
            },
        ),
        Cmd::RemoveScsiDisk { lun } => RequestView::ModifyResource(
            ModifyType::Remove,
            ResourceView::ScsiDisk {
                controller: 0,
                lun,
                host_path: seq![],
                disk_type: DiskType::ScsiDiskTypeVhdx,
                read_only: false,
            },
        ),
        Cmd::SaveSnapshot { dir, shown } => RequestView::SaveSnapshot { dir: dir@ },
        Cmd::Reset => RequestView::ResetVm,
        Cmd::ClearHalt => RequestView::ClearHaltVm,
    }
}

/// The form in which a command wants the inspection tree as text, if it does.
pub open spec fn format_of(cmd: Cmd) -> Option<Format> {
    match cmd {
        Cmd::Inspect { path, depth, format } => Some(format),
        Cmd::Status => Some(Format::Tree),
        _ => None,
    }
}

/// Whether `reply` is of the kind that a call of `cmd` is answered with, and,
/// for a status report, the block sizes in it fit in 64 bits.
pub open spec fn answers(cmd: Cmd, reply: Reply) -> bool {
    match reply {
        Reply::Failed(_) => true,
        Reply::Done => !(cmd is Inspect) && !(cmd is Status),
        Reply::Text(_) => cmd is Inspect,
        Reply::Tree(root, _) => cmd is Status && vm_fits(root),
    }
}

/// What the call of a command is called in an error.
pub open spec fn call_name(cmd: Cmd) -> Seq<char> {
    match cmd {
        Cmd::Pause => "PauseVm"@,
        Cmd::Resume => "ResumeVm"@,
        Cmd::AddNs { .. } => "ModifyResource(Add)"@,
        Cmd::RemoveNs { .. } => "ModifyResource(Remove)"@,
        Cmd::Inspect { .. } => "Inspect"@,
        Cmd::Status => "Inspect(vm)"@,
        Cmd::AddScsiDisk { .. } => "ModifyResource(Add SCSI)"@,
        Cmd::RemoveScsiDisk { .. } => "ModifyResource(Remove SCSI)"@,
        Cmd::SaveSnapshot { .. } => "SaveSnapshot"@,
        Cmd::Reset => "ResetVm"@,
        Cmd::ClearHalt => "ClearHaltVm"@,
    }
}

/// The error of a command whose call failed.
pub open spec fn failure_text(cmd: Cmd, status: Seq<char>) -> Seq<char> {
    call_name(cmd) + " rpc failed: "@ + status
}

/// What a command prints whose call is done; nothing for one that shows the
/// answer itself.
pub open spec fn done_text(cmd: Cmd) -> Seq<char> {
    match cmd {
        Cmd::Pause => "paused\n"@,
        Cmd::Resume => "resumed\n"@,
        Cmd::AddNs { .. } => "namespace added\n"@,
        Cmd::RemoveNs { .. } => "namespace removed\n"@,
        Cmd::Inspect { .. } => ""@,
        Cmd::Status => ""@,
        Cmd::AddScsiDisk { lun, .. } => "scsi disk added at lun "@ + decimal_text(lun as nat) + "\n"@,
        Cmd::RemoveScsiDisk { lun } => "scsi disk removed at lun "@ + decimal_text(lun as nat) + "\n"@,
        Cmd::SaveSnapshot { dir, shown } => "snapshot saved to "@ + shown@
            + "; VM is paused. Stop openvmm and relaunch with --restore-snapshot <dir> to continue.\n"@,
        Cmd::Reset => "reset issued; guest is rebooting\n"@,
        Cmd::ClearHalt => "halt cleared\n"@,
    }
}

/// What a command comes to, once its call is answered: what it prints, or the
/// error it ends with.
pub open spec fn outcome(cmd: Cmd, reply: Reply) -> Result<Seq<char>, Seq<char>> {
    match reply {
        Reply::Failed(status) => Err(failure_text(cmd, status@)),
        Reply::Done => Ok(done_text(cmd)),
        Reply::Text(text) => Ok(text@ + "\n"@),
        Reply::Tree(root, text) => Ok(status_text(root, text@)),
    }
}

impl Cmd {
    /// The call that the command makes.
    pub fn request(&self) -> (request: Request)
        ensures
            request@ == request_of(*self),
    {
        match self {
            Cmd::Pause => Request::PauseVm,
            Cmd::Resume => Request::ResumeVm,
            Cmd::AddNs { controller, nsid, file, read_only } => Request::ModifyResource(
                ModifyType::Add,
                Resource::NvmeNamespace(
                    NvmeNamespaceConfig {
                        controller_name: controller.clone(),
                        nsid: *nsid,
                        host_path: file.clone(),
                        read_only: *read_only,
                    },
                ),
            ),
            Cmd::RemoveNs { controller, nsid } => Request::ModifyResource(
                ModifyType::Remove,
                Resource::NvmeNamespace(
                    NvmeNamespaceConfig {
                        controller_name: controller.clone(),
                        nsid: *nsid,
                        host_path: String::new(),
                        read_only: false,
                    },
                ),
            ),
            Cmd::Inspect { path, depth, format } => Request::Inspect {
                path: path.clone(),
                depth: match depth {
                    Some(depth) => *depth,
                    None => u32::MAX,
                },
            },
            Cmd::Status => Request::Inspect { path: "vm".to_owned(), depth: 10 },
            Cmd::AddScsiDisk { lun, file, read_only } => Request::ModifyResource(
                ModifyType::Add,
                Resource::ScsiDisk(
                    ScsiDisk {
                        controller: 0,
                        lun: *lun,
                        host_path: file.clone(),
                        disk_type: DiskType::ScsiDiskTypeVhdx,
                        read_only: *read_only,
                    },
                ),
            ),
            Cmd::RemoveScsiDisk { lun } => Request::ModifyResource(
                ModifyType::Remove,
                Resource::ScsiDisk(
                    ScsiDisk {
                        controller: 0,
                        lun: *lun,
                        host_path: String::new(),
                        disk_type: DiskType::ScsiDiskTypeVhdx,
                        read_only: false,
                    },
                ),
            ),
            Cmd::SaveSnapshot { dir, shown } => Request::SaveSnapshot { dir: dir.clone() },
            Cmd::Reset => Request::ResetVm,
            Cmd::ClearHalt => Request::ClearHaltVm,
        }
    }

    /// The form in which the command wants the inspection tree as text.
    pub fn text_format(&self) -> (format: Option<Format>)
        ensures
            format == format_of(*self),
    {
        match self {
            Cmd::Inspect { path, depth, format } => Some(*format),
            Cmd::Status => Some(Format::Tree),
            _ => None,
        }
    }

    /// What the call of the command is called in an error.
    fn call_name(&self) -> (name: &'static str)
        ensures
            name@ == call_name(*self),
    {
        match self {
            Cmd::Pause => "PauseVm",
            Cmd::Resume => "ResumeVm",
            Cmd::AddNs { .. } => "ModifyResource(Add)",
            Cmd::RemoveNs { .. } => "ModifyResource(Remove)",
            Cmd::Inspect { .. } => "Inspect",
            Cmd::Status => "Inspect(vm)",
            Cmd::AddScsiDisk { .. } => "ModifyResource(Add SCSI)",
            Cmd::RemoveScsiDisk { .. } => "ModifyResource(Remove SCSI)",
            Cmd::SaveSnapshot { .. } => "SaveSnapshot",
            Cmd::Reset => "ResetVm",
            Cmd::ClearHalt => "ClearHaltVm",
        }
    }

    /// What the command prints once its call is done.
    fn done(&self) -> (s: String)
        ensures
            s@ == done_text(*self),
    {
        match self {
            Cmd::Pause => "paused\n".to_owned(),
            Cmd::Resume => "resumed\n".to_owned(),
            Cmd::AddNs { .. } => "namespace added\n".to_owned(),
            Cmd::RemoveNs { .. } => "namespace removed\n".to_owned(),
            Cmd::Inspect { .. } => "".to_owned(),
            Cmd::Status => "".to_owned(),
            Cmd::AddScsiDisk { lun, .. } => {
                let mut s = "scsi disk added at lun ".to_owned();
                s.append(decimal(*lun as u64).as_str());
                s.append("\n");
                s
            },
            Cmd::RemoveScsiDisk { lun } => {
                let mut s = "scsi disk removed at lun ".to_owned();
                s.append(decimal(*lun as u64).as_str());
                s.append("\n");
                s
            },
            Cmd::SaveSnapshot { dir, shown } => {
                let mut s = "snapshot saved to ".to_owned();
                s.append(shown.as_str());
                s.append(
                    "; VM is paused. Stop openvmm and relaunch with --restore-snapshot <dir> to continue.\n",
                );
                s
            },
            Cmd::Reset => "reset issued; guest is rebooting\n".to_owned(),
            Cmd::ClearHalt => "halt cleared\n".to_owned(),
        }
    }

    /// What the command comes to, once its call is answered: the text that it
    /// prints, or the error that it ends with.
    pub fn output(&self, reply: &Reply) -> (result: Result<String, String>)
        requires
            answers(*self, *reply),
        ensures
            match result {
                Ok(s) => outcome(*self, *reply) == Ok::<Seq<char>, Seq<char>>(s@),
                Err(e) => outcome(*self, *reply) == Err::<Seq<char>, Seq<char>>(e@),
            },
    {
        match reply {
            Reply::Failed(status) => {
                let mut e = self.call_name().to_owned();
                e.append(" rpc failed: ");
                e.append(status.as_str());
                Err(e)
            },
            Reply::Done => Ok(self.done()),
            Reply::Text(text) => {
                let mut s = text.clone();
                s.append("\n");
                Ok(s)
            },
            Reply::Tree(root, text) => Ok(print_status(root, text.as_str())),
        }
    }
}

/// A namespace is removed from where it was added: with the same controller
/// and id, the two calls differ in the action and in what only adding needs.
pub proof fn law_namespace_removed_where_added(add: Cmd, remove: Cmd)
    requires
        add is AddNs,
        remove is RemoveNs,
        add->AddNs_controller@ == remove->RemoveNs_controller@,
        add->AddNs_nsid == remove->RemoveNs_nsid,
    ensures
        request_of(add)->ModifyResource_0 == ModifyType::Add,
        request_of(remove)->ModifyResource_0 == ModifyType::Remove,
        request_of(remove)->ModifyResource_1 == (ResourceView::NvmeNamespace {
            controller_name: request_of(add)->ModifyResource_1->controller_name,
            nsid: request_of(add)->ModifyResource_1->nsid,
            host_path: seq![],
            read_only: false,
        }),
{
}

/// A disk is removed from where it was added: with the same LUN, the two
/// calls differ in the action and in what only adding needs.
pub proof fn law_disk_removed_where_added(add: Cmd, remove: Cmd)
    requires
        add is AddScsiDisk,
        remove is RemoveScsiDisk,
        add->AddScsiDisk_lun == remove->RemoveScsiDisk_lun,
    ensures
        request_of(add)->ModifyResource_0 == ModifyType::Add,
        request_of(remove)->ModifyResource_0 == ModifyType::Remove,
        request_of(remove)->ModifyResource_1 == (ResourceView::ScsiDisk {
            controller: request_of(add)->ModifyResource_1->controller,
            lun: request_of(add)->ModifyResource_1->lun,
            host_path: seq![],
            disk_type: request_of(add)->ModifyResource_1->disk_type,
            read_only: false,
        }),
{
}

/// A status report takes a single call, the one that inspects `vm` ten levels
/// deep, whatever the format.
pub proof fn law_status_is_an_inspection(inspect: Cmd)
    requires
        inspect is Inspect,
        inspect->path@ == "vm"@,
        inspect->depth == Some(10u32),
    ensures
        request_of(Cmd::Status) == request_of(inspect),
{
}

/// A command ends with an error if and only if its call failed; otherwise it
/// prints whole lines.
pub proof fn law_only_failures_are_errors(cmd: Cmd, reply: Reply)
    requires
        answers(cmd, reply),
    ensures
        outcome(cmd, reply) is Err <==> reply is Failed,
        outcome(cmd, reply) is Ok ==> ends_line(outcome(cmd, reply)->Ok_0),
{
    reveal_strlit("\n");
    reveal_strlit("paused\n");
    reveal_strlit("resumed\n");
    reveal_strlit("namespace added\n");
    reveal_strlit("namespace removed\n");
    reveal_strlit("; VM is paused. Stop openvmm and relaunch with --restore-snapshot <dir> to continue.\n");
    reveal_strlit("reset issued; guest is rebooting\n");
    reveal_strlit("halt cleared\n");
    if let Reply::Tree(root, text) = reply {
        law_status_ends_its_line(root, text@);
    }
}

} // verus!
