//! Commands: what their calls carry, and what comes of the answers.

use crate::command::{
    answers, format_of, outcome, request_of, Cmd, Format, Reply, Request,
};
use crate::status::{status_text, vm_fits};
use crate::text::decimal_text;
use crate::tree::Node;
use vstd::prelude::*;
use vstd::string::*;

verus! {

/// The call of a command that adds a namespace carries the controller, the
/// namespace id and the file that it was given, and asks for read-only access
/// if and only if it was told to.
pub proof fn law_add_ns_carries_its_arguments(cmd: Cmd, request: Request)
    requires
        cmd is AddNs,
        request@ == request_of(cmd),
    ensures
        request is ModifyResource,
        request->ModifyResource_0 is Add,
        request->ModifyResource_1 is NvmeNamespace,
        ({
            let namespace = request->ModifyResource_1->NvmeNamespace_0;
            &&& namespace.controller_name@ == cmd->AddNs_controller@
            &&& namespace.nsid == cmd->AddNs_nsid
            &&& namespace.host_path@ == cmd->AddNs_file@
            &&& namespace.read_only <==> cmd->AddNs_read_only
        }),
{
}

/// The call of a command that removes a namespace names the controller and the
/// namespace id that it was given, and no file.
pub proof fn law_remove_ns_carries_its_arguments(cmd: Cmd, request: Request)
    requires
        cmd is RemoveNs,
        request@ == request_of(cmd),
    ensures
        request is ModifyResource,
        request->ModifyResource_0 is Remove,
        request->ModifyResource_1 is NvmeNamespace,
        ({
            let namespace = request->ModifyResource_1->NvmeNamespace_0;
            &&& namespace.controller_name@ == cmd->RemoveNs_controller@
            &&& namespace.nsid == cmd->RemoveNs_nsid
            &&& namespace.host_path@.len() == 0
            &&& !namespace.read_only
        }),
{
}

/// The call of a command that adds a disk carries the LUN and the file that it
/// was given, on the first SCSI controller, and asks for read-only access if
/// and only if it was told to.
pub proof fn law_add_scsi_disk_carries_its_arguments(cmd: Cmd, request: Request)
    requires
        cmd is AddScsiDisk,
        request@ == request_of(cmd),
    ensures
        request is ModifyResource,
        request->ModifyResource_0 is Add,
        request->ModifyResource_1 is ScsiDisk,
        ({
            let disk = request->ModifyResource_1->ScsiDisk_0;
            &&& disk.controller == 0
            &&& disk.lun == cmd->AddScsiDisk_lun
            &&& disk.host_path@ == cmd->AddScsiDisk_file@
            &&& disk.disk_type is ScsiDiskTypeVhdx
            &&& disk.read_only <==> cmd->AddScsiDisk_read_only
        }),
{
}

/// The call of a command that removes a disk names the LUN that it was given,
/// on the first SCSI controller, and no file.
pub proof fn law_remove_scsi_disk_carries_its_arguments(cmd: Cmd, request: Request)
    requires
        cmd is RemoveScsiDisk,
        request@ == request_of(cmd),
    ensures
        request is ModifyResource,
        request->ModifyResource_0 is Remove,
        request->ModifyResource_1 is ScsiDisk,
        ({
            let disk = request->ModifyResource_1->ScsiDisk_0;
            &&& disk.controller == 0
            &&& disk.lun == cmd->RemoveScsiDisk_lun
            &&& disk.host_path@.len() == 0
            &&& disk.disk_type is ScsiDiskTypeVhdx
            &&& !disk.read_only
        }),
{
}

/// The call of an inspection carries the path that it was given, and the
/// depth; without one it goes as deep as a call can.
pub proof fn law_inspect_carries_its_arguments(cmd: Cmd, request: Request)
    requires
        cmd is Inspect,
        request@ == request_of(cmd),
    ensures
        request is Inspect,
        request->path@ == cmd->path@,
        cmd->depth is Some ==> request->depth == cmd->depth->0,
        cmd->depth is None ==> request->depth == 0xffff_ffff,
{
}

/// Two inspections make the same call only where they were given the same
/// path and, where both were given one, the same depth. The format does not
/// come into it.
pub proof fn law_inspections_differ_by_path_and_depth(a: Cmd, b: Cmd, call_a: Request, call_b: Request)
    requires
        a is Inspect,
        b is Inspect,
        call_a@ == request_of(a),
        call_b@ == request_of(b),
    ensures
        a->path@ != b->path@ ==> call_a->path@ != call_b->path@ && call_a@ != call_b@,
        a->depth is Some && b->depth is Some && a->depth != b->depth ==> call_a@ != call_b@,
        a->path@ == b->path@ && a->depth == b->depth ==> call_a@ == call_b@,
{
}

/// A status report inspects `vm`, ten levels deep.
pub proof fn law_status_inspects_the_vm(request: Request)
    requires
        request@ == request_of(Cmd::Status),
    ensures
        request is Inspect,
        request->path@ == seq!['v', 'm'],
        request->depth == 10,
{
    reveal_strlit("vm");
}

/// The call that saves a snapshot carries the directory that it was given,
/// whatever is displayed of it.
pub proof fn law_snapshot_carries_its_directory(cmd: Cmd, request: Request)
    requires
        cmd is SaveSnapshot,
        request@ == request_of(cmd),
    ensures
        request is SaveSnapshot,
        request->SaveSnapshot_dir@ == cmd->SaveSnapshot_dir@,
{
}

/// Each call is of the kind that the command is for.
pub proof fn law_calls_do_what_they_are_for(cmd: Cmd, request: Request)
    requires
        request@ == request_of(cmd),
    ensures
        cmd is Pause <==> request is PauseVm,
        cmd is Resume <==> request is ResumeVm,
        cmd is Reset <==> request is ResetVm,
        cmd is ClearHalt <==> request is ClearHaltVm,
        cmd is SaveSnapshot <==> request is SaveSnapshot,
        cmd is Inspect || cmd is Status <==> request is Inspect,
{
}

/// An inspection is shown in the format that was asked for, a status report
/// falls back on a tree, and nothing else needs a text.
pub proof fn law_formats_as_asked(cmd: Cmd)
    ensures
        cmd is Inspect ==> format_of(cmd) == Some(cmd->format),
        cmd is Status ==> format_of(cmd) == Some(Format::Tree),
        !(cmd is Inspect) && !(cmd is Status) ==> format_of(cmd) is None,
{
}

/// Every command takes a failure for an answer; an inspection takes a text, a
/// status report takes a tree that can be reported on, and the others take it
/// that their call is done.
pub proof fn law_what_answers_a_command(cmd: Cmd, text: String, root: Node)
    ensures
        answers(cmd, Reply::Failed(text)),
        answers(cmd, Reply::Done) <==> !(cmd is Inspect || cmd is Status),
        answers(cmd, Reply::Text(text)) <==> cmd is Inspect,
        answers(cmd, Reply::Tree(root, text)) <==> cmd is Status && vm_fits(root),
{
}

/// A failure is reported with its status in full, after the name of the call.
pub proof fn law_failures_name_the_call(cmd: Cmd, status: String)
    ensures
        outcome(cmd, Reply::Failed(status)) is Err,
        ({
            let error = outcome(cmd, Reply::Failed(status))->Err_0;
            &&& cmd is Pause ==> error == "PauseVm rpc failed: "@ + status@
            &&& cmd is Resume ==> error == "ResumeVm rpc failed: "@ + status@
            &&& cmd is AddNs ==> error == "ModifyResource(Add) rpc failed: "@ + status@
            &&& cmd is RemoveNs ==> error == "ModifyResource(Remove) rpc failed: "@ + status@
            &&& cmd is Inspect ==> error == "Inspect rpc failed: "@ + status@
            &&& cmd is Status ==> error == "Inspect(vm) rpc failed: "@ + status@
            &&& cmd is AddScsiDisk ==> error == "ModifyResource(Add SCSI) rpc failed: "@ + status@
            &&& cmd is RemoveScsiDisk ==> error == "ModifyResource(Remove SCSI) rpc failed: "@ + status@
            &&& cmd is SaveSnapshot ==> error == "SaveSnapshot rpc failed: "@ + status@
            &&& cmd is Reset ==> error == "ResetVm rpc failed: "@ + status@
            &&& cmd is ClearHalt ==> error == "ClearHaltVm rpc failed: "@ + status@
        }),
{
    let error = outcome(cmd, Reply::Failed(status))->Err_0;
    reveal_strlit(" rpc failed: ");
    match cmd {
        Cmd::Pause => {
            reveal_strlit("PauseVm");
            reveal_strlit("PauseVm rpc failed: ");
            assert(error =~= "PauseVm rpc failed: "@ + status@);
        },
        Cmd::Resume => {
            reveal_strlit("ResumeVm");
            reveal_strlit("ResumeVm rpc failed: ");
            assert(error =~= "ResumeVm rpc failed: "@ + status@);
        },
        Cmd::AddNs { .. } => {
            reveal_strlit("ModifyResource(Add)");
            reveal_strlit("ModifyResource(Add) rpc failed: ");
            assert(error =~= "ModifyResource(Add) rpc failed: "@ + status@);
        },
        Cmd::RemoveNs { .. } => {
            reveal_strlit("ModifyResource(Remove)");
            reveal_strlit("ModifyResource(Remove) rpc failed: ");
            assert(error =~= "ModifyResource(Remove) rpc failed: "@ + status@);
        },
        Cmd::Inspect { .. } => {
            reveal_strlit("Inspect");
            reveal_strlit("Inspect rpc failed: ");
            assert(error =~= "Inspect rpc failed: "@ + status@);
        },
        Cmd::Status => {
            reveal_strlit("Inspect(vm)");
            reveal_strlit("Inspect(vm) rpc failed: ");
            assert(error =~= "Inspect(vm) rpc failed: "@ + status@);
        },
        Cmd::AddScsiDisk { .. } => {
            reveal_strlit("ModifyResource(Add SCSI)");
            reveal_strlit("ModifyResource(Add SCSI) rpc failed: ");
            assert(error =~= "ModifyResource(Add SCSI) rpc failed: "@ + status@);
        },
        Cmd::RemoveScsiDisk { .. } => {
            reveal_strlit("ModifyResource(Remove SCSI)");
            reveal_strlit("ModifyResource(Remove SCSI) rpc failed: ");
            assert(error =~= "ModifyResource(Remove SCSI) rpc failed: "@ + status@);
        },
        Cmd::SaveSnapshot { .. } => {
            reveal_strlit("SaveSnapshot");
            reveal_strlit("SaveSnapshot rpc failed: ");
            assert(error =~= "SaveSnapshot rpc failed: "@ + status@);
        },
        Cmd::Reset => {
            reveal_strlit("ResetVm");
            reveal_strlit("ResetVm rpc failed: ");
            assert(error =~= "ResetVm rpc failed: "@ + status@);
        },
        Cmd::ClearHalt => {
            reveal_strlit("ClearHaltVm");
            reveal_strlit("ClearHaltVm rpc failed: ");
            assert(error =~= "ClearHaltVm rpc failed: "@ + status@);
        },
    }
}

/// A call that is done is reported by what it did, a disk by its LUN and a
/// snapshot by its directory as displayed.
pub proof fn law_done_calls_say_what_they_did(cmd: Cmd)
    requires
        answers(cmd, Reply::Done),
    ensures
        outcome(cmd, Reply::Done) is Ok,
        ({
            let shown = outcome(cmd, Reply::Done)->Ok_0;
            &&& cmd is Pause ==> shown == "paused\n"@
            &&& cmd is Resume ==> shown == "resumed\n"@
            &&& cmd is AddNs ==> shown == "namespace added\n"@
            &&& cmd is RemoveNs ==> shown == "namespace removed\n"@
            &&& cmd is AddScsiDisk ==> shown == "scsi disk added at lun "@ + decimal_text(
                cmd->AddScsiDisk_lun as nat,
            ) + "\n"@
            &&& cmd is RemoveScsiDisk ==> shown == "scsi disk removed at lun "@ + decimal_text(
                cmd->RemoveScsiDisk_lun as nat,
            ) + "\n"@
            &&& cmd is SaveSnapshot ==> shown == "snapshot saved to "@ + cmd->shown@
                + "; VM is paused. Stop openvmm and relaunch with --restore-snapshot <dir> to continue.\n"@
            &&& cmd is Reset ==> shown == "reset issued; guest is rebooting\n"@
            &&& cmd is ClearHalt ==> shown == "halt cleared\n"@
        }),
{
}

/// An inspection shows the text of the tree, unchanged, on lines of its own.
pub proof fn law_inspections_show_the_answer(cmd: Cmd, text: String)
    requires
        cmd is Inspect,
    ensures
        outcome(cmd, Reply::Text(text)) is Ok,
        outcome(cmd, Reply::Text(text))->Ok_0.len() == text@.len() + 1,
        outcome(cmd, Reply::Text(text))->Ok_0.take(text@.len() as int) == text@,
        outcome(cmd, Reply::Text(text))->Ok_0.last() == '\n',
{
    reveal_strlit("\n");
    assert(outcome(cmd, Reply::Text(text))->Ok_0.take(text@.len() as int) =~= text@);
}

/// A status report is that on the tree of the answer.
pub proof fn law_status_reports_on_the_answer(root: Node, text: String)
    ensures
        outcome(Cmd::Status, Reply::Tree(root, text)) == Ok::<Seq<char>, Seq<char>>(
            status_text(root, text@),
        ),
{
}

} // verus!
