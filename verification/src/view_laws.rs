//! What the contracts speak of is what the values hold: every text, number and mark of a value
//! is found in its view, each in its own place.

use vstd::prelude::*;
use crate::bootsect::{BcdStep, EfiStep, MbrStep};
use crate::copying::{CopyStep, CopyToolStep, EntryAction, PieceStep, TreeStep};
use crate::disk::PartitionStyle;
use crate::diskpart::{DiskpartJob, DiskpartStep};
use crate::error::{outcome, BootError};
use crate::fat32::{FormatRequest, FormatStep};
use crate::host::{texts, HostPath, RunStep, ToolCommand};
use crate::progress::WriteProgress;
use crate::ui::{rows, DeviceList, OptionRow, StatusPanel, UsbBootState};
use crate::usb::{
    DriveAnswers, DriveStep, InfoStep, NumberStep, ScanStep, SpaceStep, StyleStep, UsbDevice,
    VolumeStep,
};
use crate::usb_writer::WriteAction;

verus! {

/// An error is seen by its message, and a result by its error.
pub proof fn errors_are_seen_by_their_messages(e: BootError)
    ensures
        e@ == e.message@,
        outcome(Ok(())) is Ok,
        outcome(Err(e)) == Err::<(), Seq<char>>(e.message@),
{
}

/// The partition styles go by their names.
pub proof fn styles_go_by_their_names()
    ensures
        PartitionStyle::GPT.name() == "GPT"@,
        PartitionStyle::MBR.name() == "MBR"@,
        PartitionStyle::Unknown.name() == "Unknown"@,
{
}

/// Commands and paths are seen by their texts, all of them and in order.
pub proof fn commands_and_paths_are_seen_by_their_texts(
    c: ToolCommand,
    p: HostPath,
    v: Seq<String>,
    i: int,
)
    ensures
        texts(v).len() == v.len(),
        0 <= i < v.len() ==> texts(v)[i] == v[i]@,
        c@.program == c.program@,
        c@.args.len() == c.args@.len(),
        0 <= i < c.args@.len() ==> c@.args[i] == c.args@[i]@,
        p@.base == p.base@,
        p@.parts.len() == p.parts@.len(),
        0 <= i < p.parts@.len() ==> p@.parts[i] == p.parts@[i]@,
{
}

/// The step of an operation that runs one program is seen by its command or its result.
pub proof fn run_steps_are_seen(step: RunStep<ToolCommand, BootError>)
    ensures
        match step {
            RunStep::Run(c) => step@ matches RunStep::Run(d) && d == c@,
            RunStep::Finished(Ok(_)) => step@ matches RunStep::Finished(r) && r is Ok,
            RunStep::Finished(Err(e)) => step@ matches RunStep::Finished(r) && r == Err::<
                (),
                Seq<char>,
            >(e.message@),
        },
{
}

/// Jobs and their steps are seen by their task, texts, command and result.
pub proof fn jobs_are_seen(
    job: DiskpartJob,
    step: DiskpartStep<String, ToolCommand, BootError>,
)
    ensures
        job@.task == job.task,
        job@.script == job.script@,
        match step {
            DiskpartStep::WriteScript { name, script } => step@ matches DiskpartStep::WriteScript {
                name: n,
                script: s,
            } && n == name@ && s == script@,
            DiskpartStep::Run(c) => step@ matches DiskpartStep::Run(d) && d == c@,
            DiskpartStep::RemoveScript { name, then } => step@ matches DiskpartStep::RemoveScript {
                name: n,
                then: r,
            } && n == name@ && r == outcome(then),
            DiskpartStep::Finished(r) => step@ matches DiskpartStep::Finished(s) && s == outcome(r),
        },
{
}

/// The steps of writing boot records are seen by their commands, texts, paths and results.
pub proof fn boot_steps_are_seen(
    mbr: MbrStep<ToolCommand, DiskpartJob, BootError>,
    bcd: BcdStep<String, ToolCommand, BootError>,
    efi: EfiStep<String, HostPath, ToolCommand, BootError>,
)
    ensures
        match mbr {
            MbrStep::RunBootsect(c) => mbr@ matches MbrStep::RunBootsect(d) && d == c@,
            MbrStep::RunDiskpart(j) => mbr@ matches MbrStep::RunDiskpart(k) && k == j@,
            MbrStep::Finished(r) => mbr@ matches MbrStep::Finished(s) && s == outcome(r),
        },
        match bcd {
            BcdStep::CheckExists(p) => bcd@ matches BcdStep::CheckExists(q) && q == p@,
            BcdStep::Run(c) => bcd@ matches BcdStep::Run(d) && d == c@,
            BcdStep::Finished(r) => bcd@ matches BcdStep::Finished(s) && s == outcome(r),
        },
        match efi {
            EfiStep::CreateDir(d) => efi@ matches EfiStep::CreateDir(e) && e == d@,
            EfiStep::CheckExists(p) => efi@ matches EfiStep::CheckExists(q) && q == p@,
            EfiStep::CopyFile { from, to } => efi@ matches EfiStep::CopyFile { from: f, to: t } && f
                == from@ && t == to@,
            EfiStep::Run(c) => efi@ matches EfiStep::Run(d) && d == c@,
            EfiStep::CheckMade(p) => efi@ matches EfiStep::CheckMade(q) && q == p@,
            EfiStep::Finished(r) => efi@ matches EfiStep::Finished(s) && s == outcome(r),
        },
{
}

/// A call that formats is seen by all that is handed over.
pub proof fn format_calls_are_seen(
    q: FormatRequest,
    step: FormatStep<FormatRequest, BootError>,
)
    ensures
        q@.drive_root == q.drive_root@,
        q@.media_flag == q.media_flag,
        q@.format == q.format@,
        q@.label == q.label@,
        q@.quick_format == q.quick_format,
        q@.cluster_size == q.cluster_size,
        match step {
            FormatStep::Call(q) => step@ matches FormatStep::Call(p) && p == q@,
            FormatStep::Finished(r) => step@ matches FormatStep::Finished(s) && s == outcome(r),
        },
{
}

/// A drive is seen by all that is known of it.
pub proof fn drives_are_seen(d: UsbDevice)
    ensures
        d@.letter == d.letter@,
        d@.label == d.label@,
        d@.physical_drive == d.physical_drive,
        d@.partition_number == d.partition_number,
        d@.device_type == d.device_type,
        d@.size_bytes == d.size_bytes,
        d@.free_bytes == d.free_bytes,
        d@.is_removable == d.is_removable,
        d@.partition_style == d.partition_style,
        d@.file_system == d.file_system@,
{
}

/// What is known of a drive so far is seen.
pub proof fn answers_are_seen(a: DriveAnswers)
    ensures
        a@.name == a.name@,
        a@.file_system == a.file_system@,
        a@.space == a.space,
        a@.number == a.number,
{
}

/// The steps of looking for drives and of asking about them are seen by all they hold.
pub proof fn drive_steps_are_seen(
    scan: ScanStep<String, Vec<u16>>,
    space: SpaceStep<Vec<u16>, BootError>,
    number: NumberStep<Vec<u16>>,
    style: StyleStep<Vec<u16>>,
    info: InfoStep<Vec<u16>, UsbDevice, BootError>,
)
    ensures
        match scan {
            ScanStep::CheckRoot { letter, root } => scan@ matches ScanStep::CheckRoot {
                letter: l,
                root: r,
            } && l == letter && r == root@,
            ScanStep::ReadType { letter, wide_root } => scan@ matches ScanStep::ReadType {
                letter: l,
                wide_root: r,
            } && l == letter && r == wide_root@,
            ScanStep::ReadInfo { letter } => scan@ matches ScanStep::ReadInfo { letter: l } && l
                == letter,
            ScanStep::Finished => scan@ is Finished,
        },
        match space {
            SpaceStep::Query(p) => space@ matches SpaceStep::Query(q) && q == p@,
            SpaceStep::Finished(Ok(s)) => space@ matches SpaceStep::Finished(Ok(t)) && t == s,
            SpaceStep::Finished(Err(e)) => space@ matches SpaceStep::Finished(Err(t)) && t
                == e.message@,
        },
        match number {
            NumberStep::Open(p) => number@ matches NumberStep::Open(q) && q == p@,
            NumberStep::Query => number@ is Query,
            NumberStep::Close { then } => number@ matches NumberStep::Close { then: n } && n
                == then,
            NumberStep::Finished(n) => number@ matches NumberStep::Finished(m) && m == n,
        },
        match style {
            StyleStep::Open(p) => style@ matches StyleStep::Open(q) && q == p@,
            StyleStep::Query { buffer_len } => style@ matches StyleStep::Query { buffer_len: n }
                && n == buffer_len,
            StyleStep::Close { then } => style@ matches StyleStep::Close { then: s } && s == then,
            StyleStep::Finished(s) => style@ matches StyleStep::Finished(t) && t == s,
        },
        match info {
            InfoStep::ReadVolume { wide_root, buffer_len } => info@ matches InfoStep::ReadVolume {
                wide_root: r,
                buffer_len: n,
            } && r == wide_root@ && n == buffer_len,
            InfoStep::ReadSpace => info@ is ReadSpace,
            InfoStep::ReadNumber => info@ is ReadNumber,
            InfoStep::ReadStyle { disk_number } => info@ matches InfoStep::ReadStyle {
                disk_number: n,
            } && n == disk_number,
            InfoStep::Finished(Ok(d)) => info@ matches InfoStep::Finished(Ok(e)) && e == d@,
            InfoStep::Finished(Err(e)) => info@ matches InfoStep::Finished(Err(t)) && t
                == e.message@,
        },
{
}

/// The steps of working on disks and volumes are seen by all they hold.
pub proof fn volume_steps_are_seen(
    drive: DriveStep<Vec<u16>, BootError>,
    volume: VolumeStep<Vec<u16>, BootError>,
)
    ensures
        match drive {
            DriveStep::Open { name, write_access } => drive@ matches DriveStep::Open {
                name: n,
                write_access: w,
            } && n == name@ && w == write_access,
            DriveStep::Finished(r) => drive@ matches DriveStep::Finished(s) && s == outcome(r),
        },
        match volume {
            VolumeStep::Open(p) => volume@ matches VolumeStep::Open(q) && q == p@,
            VolumeStep::Control(c) => volume@ matches VolumeStep::Control(d) && d == c,
            VolumeStep::Close { then } => volume@ matches VolumeStep::Close { then: r } && r
                == outcome(then),
            VolumeStep::Finished(r) => volume@ matches VolumeStep::Finished(s) && s == outcome(r),
        },
{
}

/// A message is seen by all it tells.
pub proof fn messages_are_seen(p: WriteProgress)
    ensures
        p@.step == p.step@,
        p@.step_progress == p.step_progress,
        p@.total_progress == p.total_progress,
        p@.finished == p.finished,
        p.error is None <==> p@.error is None,
        p.error matches Some(e) ==> p@.error == Some(e@),
{
}

/// What the writer asks for is seen by its kind and by all it holds.
pub proof fn actions_are_seen(a: WriteAction<String, BootError>)
    ensures
        match a {
            WriteAction::LockVolume { letter } => a@ matches WriteAction::LockVolume { letter: l }
                && l == letter,
            WriteAction::CleanDisk { drive } => a@ matches WriteAction::CleanDisk { drive: d } && d
                == drive,
            WriteAction::CreateMbrPartition { drive, active } =>
                a@ matches WriteAction::CreateMbrPartition { drive: d, active: b } && d == drive
                && b == active,
            WriteAction::CreateGptPartitions { drive, efi_size_mb, data_size_mb } =>
                a@ matches WriteAction::CreateGptPartitions {
                drive: d,
                efi_size_mb: e,
                data_size_mb: f,
            } && d == drive && e == efi_size_mb && f == data_size_mb,
            WriteAction::LoadFormatter => a@ is LoadFormatter,
            WriteAction::Format { letter, file_system, label, quick_format } =>
                a@ matches WriteAction::Format {
                letter: l,
                file_system: f,
                label: t,
                quick_format: q,
            } && l == letter && f == file_system && t == label@ && q == quick_format,
            WriteAction::FormatByCommand { letter, file_system, label, quick_format } =>
                a@ matches WriteAction::FormatByCommand {
                letter: l,
                file_system: f,
                label: t,
                quick_format: q,
            } && l == letter && f == file_system && t == label@ && q == quick_format,
            WriteAction::MountIso { path } => a@ matches WriteAction::MountIso { path: p } && p
                == path@,
            WriteAction::CopyFiles { source, dest, progress_start, progress_end } =>
                a@ matches WriteAction::CopyFiles {
                source: s,
                dest: d,
                progress_start: x,
                progress_end: y,
            } && s == source@ && d == dest@ && x == progress_start && y == progress_end,
            WriteAction::CopyFilesSingly { source, dest } =>
                a@ matches WriteAction::CopyFilesSingly { source: s, dest: d } && s == source@ && d
                == dest@,
            WriteAction::WriteMbr { drive, mbr_type } => a@ matches WriteAction::WriteMbr {
                drive: d,
                mbr_type: t,
            } && d == drive && t == mbr_type@,
            WriteAction::WritePbr { letter, pbr_type } => a@ matches WriteAction::WritePbr {
                letter: l,
                pbr_type: t,
            } && l == letter && t == pbr_type@,
            WriteAction::CheckSystemEfi { path } => a@ matches WriteAction::CheckSystemEfi {
                path: p,
            } && p == path@,
            WriteAction::CheckVolumeEfi { path } => a@ matches WriteAction::CheckVolumeEfi {
                path: p,
            } && p == path@,
            WriteAction::CheckIsoEfi { path } => a@ matches WriteAction::CheckIsoEfi { path: p }
                && p == path@,
            WriteAction::CopyEfi { source, dest } => a@ matches WriteAction::CopyEfi {
                source: s,
                dest: d,
            } && s == source@ && d == dest@,
            WriteAction::UnmountIso => a@ is UnmountIso,
            WriteAction::UnlockVolume { letter } => a@ matches WriteAction::UnlockVolume {
                letter: l,
            } && l == letter,
            WriteAction::Finished(r) => a@ matches WriteAction::Finished(s) && s == outcome(r),
        },
{
}

/// The steps of copying are seen by all they hold.
pub proof fn copy_steps_are_seen(
    tool: CopyToolStep<ToolCommand, BootError>,
    action: EntryAction<String>,
    copy: CopyStep<String, BootError>,
    piece: PieceStep<String, BootError>,
    tree: TreeStep<String, HostPath, BootError>,
)
    ensures
        match tool {
            CopyToolStep::Run(c) => tool@ matches CopyToolStep::Run(d) && d == c@,
            CopyToolStep::Wait => tool@ is Wait,
            CopyToolStep::Finished(r) => tool@ matches CopyToolStep::Finished(s) && s == outcome(r),
        },
        match action {
            EntryAction::CreateDir { target } => action@ matches EntryAction::CreateDir {
                target: t,
            } && t == target@,
            EntryAction::CopyLarge { path, target } => action@ matches EntryAction::CopyLarge {
                path: p,
                target: t,
            } && p == path@ && t == target@,
            EntryAction::CopyWhole { path, target } => action@ matches EntryAction::CopyWhole {
                path: p,
                target: t,
            } && p == path@ && t == target@,
        },
        match copy {
            CopyStep::Walk { root } => copy@ matches CopyStep::Walk { root: r } && r == root@,
            CopyStep::Perform(a) => copy@ matches CopyStep::Perform(b) && b == a@,
            CopyStep::Advance => copy@ is Advance,
            CopyStep::Finished(r) => copy@ matches CopyStep::Finished(s) && s == outcome(r),
        },
        match piece {
            PieceStep::CreateParent(p) => piece@ matches PieceStep::CreateParent(q) && q == p@,
            PieceStep::OpenSource(p) => piece@ matches PieceStep::OpenSource(q) && q == p@,
            PieceStep::CreateDest(p) => piece@ matches PieceStep::CreateDest(q) && q == p@,
            PieceStep::Read { at_most } => piece@ matches PieceStep::Read { at_most: n } && n
                == at_most,
            PieceStep::Write { len } => piece@ matches PieceStep::Write { len: n } && n == len,
            PieceStep::Flush => piece@ is Flush,
            PieceStep::Finished(r) => piece@ matches PieceStep::Finished(s) && s == outcome(r),
        },
        match tree {
            TreeStep::CheckExists(p) => tree@ matches TreeStep::CheckExists(q) && q == p@,
            TreeStep::CreateDir(p) => tree@ matches TreeStep::CreateDir(q) && q == p@,
            TreeStep::List(p) => tree@ matches TreeStep::List(q) && q == p@,
            TreeStep::Descend { source, dest } => tree@ matches TreeStep::Descend {
                source: s,
                dest: d,
            } && s == source@ && d == dest@,
            TreeStep::CopyFile { source, dest } => tree@ matches TreeStep::CopyFile {
                source: s,
                dest: d,
            } && s == source@ && d == dest@,
            TreeStep::Advance => tree@ is Advance,
            TreeStep::Finished(r) => tree@ matches TreeStep::Finished(s) && s == outcome(r),
        },
{
}

/// The state of the panel is seen by all it holds.
pub proof fn panel_state_is_seen(s: UsbBootState)
    ensures
        s@.usb_devices == s.usb_devices@,
        s@.refreshing_devices == s.refreshing_devices,
        s@.selected_device == s.selected_device,
        s@.iso_path == s.iso_path@,
        s@.partition_scheme == s.partition_scheme,
        s@.partition_scheme_idx == s.partition_scheme_idx,
        s@.file_system_idx == s.file_system_idx,
        s@.volume_label == s.volume_label@,
        s@.quick_format == s.quick_format,
        s@.is_writing == s.is_writing,
        s.write_progress is None <==> s@.write_progress is None,
        s.write_progress matches Some(p) ==> s@.write_progress == Some(p@),
        s@.status_message == s.status_message@,
        s.progress_rx is None <==> s@.progress_rx is None,
        s.progress_rx matches Some(q) ==> s@.progress_rx == Some(q@),
{
}

/// What the panel shows is seen by all its texts and marks.
pub proof fn panel_is_seen(
    row: OptionRow,
    list: Seq<OptionRow>,
    i: int,
    devices: DeviceList<String, Vec<OptionRow>>,
    status: StatusPanel<String>,
)
    ensures
        row@.0 == row.label@,
        row@.1 == row.selected,
        rows(list).len() == list.len(),
        0 <= i < list.len() ==> rows(list)[i] == (list[i].label@, list[i].selected),
        match devices {
            DeviceList::Scanning(s) => devices@ matches DeviceList::Scanning(t) && t == s@,
            DeviceList::NoneFound(s) => devices@ matches DeviceList::NoneFound(t) && t == s@,
            DeviceList::Rows(r) => devices@ matches DeviceList::Rows(t) && t == rows(r@),
        },
        status@.message == status.message@,
        status.progress is None <==> status@.progress is None,
        status.progress matches Some(p) ==> (status@.progress matches Some(q) && {
            &&& q.percent == p.percent
            &&& q.bar_text == p.bar_text@
            &&& q.step_text == p.step_text@
            &&& p.error_text is None <==> q.error_text is None
            &&& p.error_text matches Some(e) ==> q.error_text == Some(e@)
        }),
{
}

} // verus!
