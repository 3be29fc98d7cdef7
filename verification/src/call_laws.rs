//! What the functions of the library give back, told by what they are given.

use vstd::prelude::*;
use crate::bootsect::{
    bcd_next, builtin_parts, clean_script, drive_colon, drive_colon_string, drive_name,
    drive_name_string, efi_next, gpt_script, mbr_next, mbr_partition_script, mbr_script, pbr_next,
    BcdEvent, BcdStep, BootSectorManager, EfiEvent, EfiStep, MbrEvent, MbrStep, Tool,
};
use crate::boot_laws::run_fails_exactly_if_failure_is_told;
use crate::copying::{
    copy_next, copy_tool_judged, copy_tool_messages, copy_tool_next, piece_next, reports_a_file,
    tree_next, CopyEvent, CopyStep, CopyToolEvent, CopyToolStep, EntryAction, EntryKind,
    PieceEvent, PieceStep, TreeEvent, TreeStep,
};
use crate::disk::PartitionStyle;
use crate::diskpart::{DiskpartEvent, DiskpartJob, DiskpartStep, DiskpartTask};
use crate::error::{outcome, BootError};
use crate::fat32::{
    fallback_judged, fallback_next, format_next, FormatEvent, FormatRequest, FormatStep, FsType,
    LibraryLoad, VolumeFormatter,
};
use crate::format_laws::{format_call_says_what_was_chosen, said};
use crate::host::{texts, HostPath, RunEvent, RunStep, ToolCommand};
use crate::progress::{ProgressQueue, WriteProgress, WriteProgressView};
use crate::text::trimmed_end;
use crate::ui::{App, UsbBootPanel, UsbBootState, UsbBootStateView};
use crate::usb::{
    candidate, device_line, drive_next, eject_next, info_known, info_next, lock_next, number_next,
    scan_next, space_next, style_next, unlock_next, ControlEvent, DriveAnswers, DriveEvent,
    DriveLayoutInformationEx, DriveStep, InfoEvent, InfoStep, LockEvent, NumberEvent, NumberStep,
    ScanEvent, ScanStep, SpaceEvent, SpaceStep, StyleEvent, StyleStep, UsbDevice, UsbManager,
    VolumeStep,
};
use crate::usb_writer::{
    create_bootable_usb, extended, first_of_letter, is_usual, target_letter, write_next,
    PartitionScheme, UsbWriteConfig, UsbWriter, WriteAction, WriteEvent,
};
use crate::utf16::decoded;

verus! {

/// Whatever the writer asks for, it asks for it of the disk of its drive, and of the volume
/// whose letter is the first character of the drive's name.
pub proof fn writer_asks_of_its_own_drive(
    writer: &mut UsbWriter,
    event: WriteEvent,
    r: WriteAction<String, BootError>,
)
    requires
        old(writer).config().device.letter@.len() > 0,
        call_ensures(UsbWriter::write, (writer, event), r),
    ensures
        final(writer).config() == old(writer).config(),
        ({
            let device = old(writer).config().device;
            let its_letter = device.letter@[0];
            match r {
                WriteAction::LockVolume { letter } => letter == its_letter,
                WriteAction::CleanDisk { drive } => drive == device.physical_drive,
                WriteAction::CreateMbrPartition { drive, .. } => drive == device.physical_drive,
                WriteAction::CreateGptPartitions { drive, .. } => drive == device.physical_drive,
                WriteAction::Format { letter, .. } => letter == its_letter,
                WriteAction::FormatByCommand { letter, .. } => letter == its_letter,
                WriteAction::CopyFiles { dest, .. } => dest@ == seq![its_letter, ':'],
                WriteAction::CopyFilesSingly { dest, .. } => dest@ == seq![its_letter, ':'],
                WriteAction::WriteMbr { drive, .. } => drive == device.physical_drive,
                WriteAction::WritePbr { letter, .. } => letter == its_letter,
                WriteAction::CopyEfi { dest, .. } => dest@ == seq![
                    its_letter,
                    ':',
                    '\\',
                    'E',
                    'F',
                    'I',
                ],
                WriteAction::UnlockVolume { letter } => letter == its_letter,
                _ => true,
            }
        }),
{
    reveal_strlit(":");
    reveal_strlit("\\EFI");
    let letter = target_letter(old(writer).config());
    assert(drive_colon(letter) =~= seq![letter, ':']);
    assert(drive_colon(letter) + "\\EFI"@ =~= seq![letter, ':', '\\', 'E', 'F', 'I']);
}

/// Every file, of whatever length, is copied from its own path to its place below the target,
/// piece by piece exactly if it is known to be longer than 10485760 bytes. Every directory is
/// created at its place. What is neither is passed over.
pub proof fn files_go_to_their_places(
    source: &str,
    dest: &str,
    path: String,
    relative: String,
    kind: EntryKind,
    r: CopyStep<String, BootError>,
)
    requires
        call_ensures(
            UsbWriter::copy_files_rust,
            (source, dest, CopyEvent::Entry { path, relative: Some(relative), kind }),
            r,
        ),
    ensures
        kind is File ==> (r matches CopyStep::Perform(a) && match a {
            EntryAction::CopyLarge { path: from, target } => {
                &&& from@ == path@
                &&& target@ == dest@ + seq!['\\'] + relative@
                &&& kind->len matches Some(n) && n > 10485760
            },
            EntryAction::CopyWhole { path: from, target } => {
                &&& from@ == path@
                &&& target@ == dest@ + seq!['\\'] + relative@
                &&& !(kind->len matches Some(n) && n > 10485760)
            },
            EntryAction::CreateDir { .. } => false,
        }),
        kind is Directory ==> (r matches CopyStep::Perform(EntryAction::CreateDir { target })
            && target@ == dest@ + seq!['\\'] + relative@),
        kind is Other ==> r is Advance,
{
    reveal_strlit("\\");
    assert("\\"@ =~= seq!['\\']);
    assert(r@ == copy_next(
        source@,
        dest@,
        CopyEvent::Entry { path, relative: Some(relative), kind },
    ));
}

/// Where the partitioning tool cleans or partitions a disk, its run is judged a failure exactly
/// if `error` or `失败` stands anywhere in what it printed, in lower case.
pub proof fn judge_sees_every_failure(
    job: DiskpartJob,
    success: bool,
    printed: &str,
    lowered: &str,
    r: Result<(), BootError>,
)
    requires
        call_ensures(DiskpartJob::judge, (&job, success, printed, lowered), r),
    ensures
        job.task != DiskpartTask::WriteMbr ==> (r is Err <==> {
            ||| exists|a: Seq<char>, b: Seq<char>| lowered@ == #[trigger] (a + "error"@ + b)
            ||| exists|a: Seq<char>, b: Seq<char>| lowered@ == #[trigger] (a + "失败"@ + b)
        }),
        job.task == DiskpartTask::WriteMbr ==> (r is Err <==> !success),
        r matches Err(e) ==> e.message@ == (match job.task {
            DiskpartTask::WriteMbr => "diskpart MBR 创建失败: "@,
            DiskpartTask::Clean => "diskpart clean 失败: "@,
            DiskpartTask::CreateMbr => "diskpart 分区创建失败: "@,
            DiskpartTask::CreateGpt => "diskpart GPT 分区创建失败: "@,
        }) + printed@,
{
    run_fails_exactly_if_failure_is_told(job@, success, printed@, lowered@);
    assert(outcome(r) == job@.judged(success, printed@, lowered@));
}

/// The call that formats a volume names the volume's root directory, the chosen file system by
/// its own name, and the beginning of the label. It says how to format, and passes on the size
/// of the clusters, which is zero where none was given.
pub proof fn format_names_the_chosen_file_system(
    formatter: VolumeFormatter,
    letter: char,
    fs_type: FsType,
    label: &str,
    quick_format: bool,
    cluster_size: u32,
    r: FormatStep<FormatRequest, BootError>,
)
    requires
        ({
            ||| call_ensures(
                VolumeFormatter::format_with_cluster_size,
                (
                    &formatter,
                    letter,
                    fs_type,
                    label,
                    quick_format,
                    cluster_size,
                    FormatEvent::Begin,
                ),
                r,
            )
            ||| cluster_size == 0 && call_ensures(
                VolumeFormatter::format,
                (&formatter, letter, fs_type, label, quick_format, FormatEvent::Begin),
                r,
            )
        }),
    ensures
        r matches FormatStep::Call(q) && {
            &&& said(q.drive_root@) == seq![letter, ':', '\\']
            &&& said(q.format@) == match fs_type {
                FsType::FAT => "FAT"@,
                FsType::FAT32 => "FAT32"@,
                FsType::NTFS => "NTFS"@,
                FsType::exFAT => "exFAT"@,
                FsType::UDF => "UDF"@,
                FsType::ReFS => "ReFS"@,
            }
            &&& said(q.label@).is_prefix_of(label@)
            &&& q.drive_root@.last() == 0
            &&& q.format@.last() == 0
            &&& q.label@.last() == 0
            &&& q.quick_format == 1 <==> quick_format
            &&& q.cluster_size == cluster_size
        },
{
    format_call_says_what_was_chosen(letter, fs_type, label@, quick_format, cluster_size);
    assert(r@ == format_next(
        letter,
        fs_type,
        label@,
        quick_format,
        cluster_size,
        FormatEvent::Begin,
    ));
}

/// Formatting goes well exactly if the library's function returned zero.
pub proof fn formatting_goes_by_what_was_returned(
    formatter: VolumeFormatter,
    letter: char,
    fs_type: FsType,
    label: &str,
    quick_format: bool,
    cluster_size: u32,
    code: u32,
    r: FormatStep<FormatRequest, BootError>,
)
    requires
        ({
            let event = FormatEvent::Returned(code);
            ||| call_ensures(
                VolumeFormatter::format_with_cluster_size,
                (&formatter, letter, fs_type, label, quick_format, cluster_size, event),
                r,
            )
            ||| call_ensures(
                VolumeFormatter::format,
                (&formatter, letter, fs_type, label, quick_format, event),
                r,
            )
        }),
    ensures
        r matches FormatStep::Finished(done) && (done is Ok <==> code == 0),
{
    assert(exists|size: u32|
        r@ == #[trigger] format_next(
            letter,
            fs_type,
            label@,
            quick_format,
            size,
            FormatEvent::Returned(code),
        ));
}

/// The description of a drive holds what the system told: its size and free space, the type and
/// number of the device, the number of the partition, the partition style, and its label and
/// file system without the zeros behind them, under its own letter.
pub proof fn description_holds_what_the_system_told(
    letter: char,
    known: DriveAnswers,
    style: PartitionStyle,
    r: (DriveAnswers, InfoStep<Vec<u16>, UsbDevice, BootError>),
)
    requires
        call_ensures(
            UsbManager::get_device_info,
            (letter, known, InfoEvent::StyleRead(style)),
            r,
        ),
    ensures
        r.1 matches InfoStep::Finished(Ok(device)) && {
            &&& device.letter@ == seq![letter, ':']
            &&& device.label@ == trimmed_end(decoded(known.name@), '\0')
            &&& device.file_system@ == trimmed_end(decoded(known.file_system@), '\0')
            &&& device.size_bytes == known.space.0
            &&& device.free_bytes == known.space.1
            &&& device.device_type == known.number.0
            &&& device.physical_drive == known.number.1
            &&& device.partition_number == known.number.2
            &&& device.is_removable <==> known.number.0 == 1
            &&& device.partition_style == style
        },
{
    reveal_strlit(":");
    assert(drive_colon(letter) =~= seq![letter, ':']);
    assert(r.1@ == info_next(letter, known@, InfoEvent::StyleRead(style)));
}

/// What the system told of the space, and of the number, of a drive is what is known from then
/// on; what was known before of anything else stays.
pub proof fn description_keeps_what_the_system_told(
    letter: char,
    known: DriveAnswers,
    space: (u64, u64),
    number: (u32, u32, u32),
    name: Vec<u16>,
    file_system: Vec<u16>,
    reason: BootError,
    r: (DriveAnswers, InfoStep<Vec<u16>, UsbDevice, BootError>),
)
    ensures
        call_ensures(
            UsbManager::get_device_info,
            (letter, known, InfoEvent::VolumeRead { name, file_system }),
            r,
        ) ==> {
            &&& r.0.name@ == name@
            &&& r.0.file_system@ == file_system@
            &&& r.0.space == known.space
            &&& r.0.number == known.number
            &&& r.1 is ReadSpace
        },
        call_ensures(
            UsbManager::get_device_info,
            (letter, known, InfoEvent::SpaceRead(Ok(space))),
            r,
        ) ==> {
            &&& r.0.space == space
            &&& r.0.name@ == known.name@
            &&& r.0.file_system@ == known.file_system@
            &&& r.0.number == known.number
            &&& r.1 is ReadNumber
        },
        call_ensures(
            UsbManager::get_device_info,
            (letter, known, InfoEvent::SpaceRead(Err(reason))),
            r,
        ) ==> (r.1 matches InfoStep::Finished(Err(e)) && e.message@ == reason.message@),
        call_ensures(
            UsbManager::get_device_info,
            (letter, known, InfoEvent::NumberRead(number)),
            r,
        ) ==> {
            &&& r.0.number == number
            &&& r.0.name@ == known.name@
            &&& r.0.file_system@ == known.file_system@
            &&& r.0.space == known.space
            &&& r.1 matches InfoStep::ReadStyle { disk_number } && disk_number == number.1
        },
{
}

/// The size of a drive is the first of the two numbers that tell its space.
pub proof fn size_is_the_total(space: (u64, u64), reason: BootError, r: Result<u64, BootError>)
    ensures
        call_ensures(UsbManager::get_disk_size, (Ok(space),), r) ==> r == Ok::<u64, BootError>(
            space.0,
        ),
        call_ensures(UsbManager::get_disk_size, (Err(reason),), r) ==> r == Err::<u64, BootError>(
            reason,
        ),
{
}

/// A layout is read from its first eight bytes, two numbers of four bytes each, lowest byte
/// first.
pub proof fn layout_is_read_from_eight_bytes(
    bytes: &[u8],
    r: Option<DriveLayoutInformationEx>,
)
    requires
        call_ensures(DriveLayoutInformationEx::parse, (bytes,), r),
    ensures
        r is Some <==> bytes@.len() >= 8,
        r matches Some(layout) ==> {
            let b = bytes@;
            &&& layout.partition_style == b[0] + 256 * b[1] + 65536 * b[2] + 16777216 * b[3]
            &&& layout.partition_count == b[4] + 256 * b[5] + 65536 * b[6] + 16777216 * b[7]
        },
{
}

/// A tool is taken from where it was put, or, where it is not there, by its own name.
pub proof fn tools_are_found(builtin: &str, there: bool, r: String)
    ensures
        call_ensures(BootSectorManager::find_bootsect, (builtin, there), r) ==> r@ == (if there {
            builtin@
        } else {
            "bootsect.exe"@
        }),
        call_ensures(BootSectorManager::find_bcdboot, (builtin, there), r) ==> r@ == (if there {
            builtin@
        } else {
            "bcdboot.exe"@
        }),
        call_ensures(BootSectorManager::find_diskpart, (builtin, there), r) ==> r@ == (if there {
            builtin@
        } else {
            "diskpart.exe"@
        }),
{
}

/// Each job of the partitioning tool is of its own kind, and runs the script for the disk,
/// sizes and marks that were given.
pub proof fn jobs_are_for_what_was_given(
    drive: u32,
    active: bool,
    efi_size_mb: u32,
    data_size_mb: u32,
    r: DiskpartJob,
)
    ensures
        call_ensures(BootSectorManager::clean_disk, (drive,), r) ==> {
            &&& r.task == DiskpartTask::Clean
            &&& r.script@ == clean_script(drive)
        },
        call_ensures(BootSectorManager::write_mbr_diskpart, (drive,), r) ==> {
            &&& r.task == DiskpartTask::WriteMbr
            &&& r.script@ == mbr_script(drive)
        },
        call_ensures(BootSectorManager::create_mbr_partition, (drive, active), r) ==> {
            &&& r.task == DiskpartTask::CreateMbr
            &&& r.script@ == mbr_partition_script(drive, active)
        },
        call_ensures(
            BootSectorManager::create_gpt_partitions,
            (drive, efi_size_mb, data_size_mb),
            r,
        ) ==> {
            &&& r.task == DiskpartTask::CreateGpt
            &&& r.script@ == gpt_script(drive, efi_size_mb, data_size_mb)
        },
{
}

/// The steps of writing boot records are those for the tool, disk, volume, type, directories
/// and firmware that were given.
pub proof fn boot_steps_are_for_what_was_given(
    tool: &str,
    drive: u32,
    letter: char,
    from: &str,
    to: &str,
    kind: &str,
    mbr_event: MbrEvent,
    mbr: MbrStep<ToolCommand, DiskpartJob, BootError>,
    run_event: RunEvent,
    pbr: RunStep<ToolCommand, BootError>,
    bcd_event: BcdEvent,
    bcd: BcdStep<String, ToolCommand, BootError>,
    efi_event: EfiEvent,
    efi: EfiStep<String, HostPath, ToolCommand, BootError>,
)
    ensures
        call_ensures(BootSectorManager::write_mbr, (tool, drive, kind, mbr_event), mbr) ==> mbr@
            == mbr_next(tool@, drive, kind@, mbr_event),
        call_ensures(BootSectorManager::write_pbr, (tool, letter, kind, run_event), pbr) ==> pbr@
            == pbr_next(tool@, letter, kind@, run_event),
        call_ensures(BootSectorManager::setup_bcd, (tool, from, to, kind, bcd_event), bcd) ==> bcd@
            == bcd_next(tool@, from@, to@, kind@, bcd_event),
        call_ensures(BootSectorManager::copy_efi_files, (tool, from, to, efi_event), efi) ==> efi@
            == efi_next(tool@, from@, to@, efi_event),
{
}

/// Disks, volumes and built-in tools are named as the laws say.
pub proof fn names_are_given(letter: char, drive: u32, tool: Tool, r: String, parts: Vec<String>)
    ensures
        call_ensures(drive_colon_string, (letter,), r) ==> r@ == drive_colon(letter),
        call_ensures(drive_name_string, (drive,), r) ==> r@ == drive_name(drive),
        call_ensures(BootSectorManager::builtin_components, (tool,), parts) ==> texts(parts@)
            == builtin_parts(tool),
{
}

/// A job of the partitioning tool takes the steps for its own task and script.
pub proof fn job_takes_its_own_steps(
    job: DiskpartJob,
    diskpart: &str,
    event: DiskpartEvent,
    r: DiskpartStep<String, ToolCommand, BootError>,
    task: DiskpartTask,
    name: String,
)
    ensures
        call_ensures(DiskpartJob::step, (&job, diskpart, event), r) ==> r@ == job@.next(
            diskpart@,
            event,
        ),
        call_ensures(DiskpartTask::script_name, (&task,), name) ==> name@
            == task.script_name_text(),
{
}

/// There is a formatter exactly if the library was loaded with its function; and file systems
/// go by their own names, with their own cluster sizes and label lengths.
pub proof fn formatter_is_there_exactly_if(
    load: LibraryLoad,
    formatter: Result<VolumeFormatter, BootError>,
    fs_type: FsType,
    name: &'static str,
    mb: u64,
    size: u32,
    limit: usize,
)
    ensures
        call_ensures(VolumeFormatter::new, (load,), formatter) ==> (formatter is Ok <==> load
            == LibraryLoad::Loaded),
        call_ensures(FsType::as_fs_str, (&fs_type,), name) ==> name@ == fs_type.name(),
        call_ensures(FsType::default_cluster_size, (&fs_type, mb), size) ==> size
            == fs_type.cluster_size(mb as nat),
        call_ensures(FsType::max_label_length, (&fs_type,), limit) ==> limit
            == fs_type.label_limit(),
{
}

/// Formatting by the system's command takes the steps for the volume, file system, label and
/// way of formatting that were given, and is judged by how the command ended.
pub proof fn command_is_for_what_was_given(
    letter: char,
    fs_type: FsType,
    label: &str,
    quick_format: bool,
    event: RunEvent,
    r: RunStep<ToolCommand, BootError>,
    success: bool,
    complaint: &str,
    judged: Result<(), BootError>,
)
    ensures
        call_ensures(
            VolumeFormatter::format_fallback,
            (letter, fs_type, label, quick_format, event),
            r,
        ) ==> r@ == fallback_next(letter, fs_type, label@, quick_format, event),
        call_ensures(VolumeFormatter::judge_fallback, (success, complaint), judged) ==> outcome(
            judged,
        ) == fallback_judged(success, complaint@),
{
}

/// The search for drives keeps the drives found before, and adds a drive exactly where one was
/// described. When it is over, it gives back these drives, in order.
pub proof fn search_keeps_what_was_found(
    found: Vec<UsbDevice>,
    event: ScanEvent,
    r: (Vec<UsbDevice>, ScanStep<String, Vec<u16>>),
)
    requires
        call_ensures(UsbManager::get_usb_devices, (found, event), r),
    ensures
        r.1@ == scan_next(event),
        ({
            let all = match event {
                ScanEvent::InfoRead { info: Ok(device), .. } => found@.push(device),
                _ => found@,
            };
            &&& !(r.1 is Finished) ==> r.0@ == all
            &&& r.1 is Finished ==> r.0@ == crate::usb::by_letter(all)
        }),
{
}

/// The steps of asking about drives, and of working on them, are those for the letter, disk and
/// access that were given.
pub proof fn drive_steps_are_for_what_was_given(
    letter: char,
    disk: u32,
    write_access: bool,
    space_event: SpaceEvent,
    space: SpaceStep<Vec<u16>, BootError>,
    number_event: NumberEvent,
    number: NumberStep<Vec<u16>>,
    style_event: StyleEvent,
    style: StyleStep<Vec<u16>>,
    drive_event: DriveEvent,
    drive: DriveStep<Vec<u16>, BootError>,
)
    ensures
        call_ensures(UsbManager::get_disk_space, (letter, space_event), space) ==> space@
            == space_next(letter, space_event),
        call_ensures(UsbManager::get_storage_device_number, (letter, number_event), number)
            ==> number@ == number_next(letter, number_event),
        call_ensures(UsbManager::get_partition_style, (disk, style_event), style) ==> style@
            == style_next(disk, style_event),
        call_ensures(UsbManager::open_physical_drive, (disk, write_access, drive_event), drive)
            ==> drive@ == drive_next(disk, write_access, drive_event),
{
}

/// The steps of locking, unlocking and ejecting are those for the letter that was given; and
/// drives are told apart and described by what is known of them.
pub proof fn volume_steps_are_for_what_was_given(
    letter: char,
    lock_event: LockEvent,
    event: ControlEvent,
    volume: VolumeStep<Vec<u16>, BootError>,
    byte: u8,
    drive_type: u32,
    may_be: bool,
    device: UsbDevice,
    line: String,
)
    ensures
        call_ensures(UsbManager::lock_volume, (letter, lock_event), volume) ==> volume@
            == lock_next(letter, lock_event),
        call_ensures(UsbManager::unlock_volume, (letter, event), volume) ==> volume@ == unlock_next(
            letter,
            event,
        ),
        call_ensures(UsbManager::eject_device, (letter, event), volume) ==> volume@ == eject_next(
            letter,
            event,
        ),
        call_ensures(UsbManager::may_be_usb, (byte, drive_type), may_be) ==> may_be == candidate(
            byte,
            drive_type,
        ),
        call_ensures(UsbManager::format_device_info, (&device,), line) ==> line@ == device_line(
            device@,
        ),
{
}

/// The description of a drive takes the steps for the letter that was given.
pub proof fn description_takes_its_own_steps(
    letter: char,
    known: DriveAnswers,
    event: InfoEvent,
    r: (DriveAnswers, InfoStep<Vec<u16>, UsbDevice, BootError>),
)
    requires
        call_ensures(UsbManager::get_device_info, (letter, known, event), r),
    ensures
        r.0@ == info_known(known@, event),
        r.1@ == info_next(letter, known@, event),
{
}

/// The steps of copying are those for the two places that were given.
pub proof fn copy_steps_are_for_what_was_given(
    source: &str,
    dest: &str,
    copy_event: CopyEvent,
    copy: CopyStep<String, BootError>,
    piece_event: PieceEvent,
    piece: PieceStep<String, BootError>,
    tree_event: TreeEvent,
    tree: TreeStep<String, HostPath, BootError>,
)
    ensures
        call_ensures(UsbWriter::copy_files_rust, (source, dest, copy_event), copy) ==> copy@
            == copy_next(source@, dest@, copy_event),
        call_ensures(UsbWriter::copy_large_file, (source, dest, piece_event), piece) ==> piece@
            == piece_next(source@, dest@, piece_event),
        call_ensures(UsbWriter::copy_dir_recursive, (source, dest, tree_event), tree) ==> tree@
            == tree_next(source@, dest@, tree_event),
{
}

/// Copying with the tool takes the steps for the two places that were given, and tells its
/// reports between the two bounds; the tool is judged by its code, and its reports by their
/// lines.
pub proof fn copying_with_the_tool_is_told(
    writer: &mut UsbWriter,
    source: &str,
    dest: &str,
    start: u8,
    end: u8,
    event: CopyToolEvent,
    r: CopyToolStep<ToolCommand, BootError>,
    code: Option<i32>,
    complaint: &str,
    judged: Result<(), BootError>,
    line: &[u8],
    reports: bool,
)
    ensures
        call_ensures(
            UsbWriter::copy_files_with_progress,
            (writer, source, dest, start, end, event),
            r,
        ) ==> {
            &&& r@ == copy_tool_next(source@, dest@, event)
            &&& final(writer).config() == old(writer).config()
            &&& final(writer).mounted() == old(writer).mounted()
            &&& final(writer).sent() == extended(
                old(writer).sent(),
                copy_tool_messages(start, end, event),
            )
        },
        call_ensures(UsbWriter::judge_copy_tool, (code, complaint), judged) ==> outcome(judged)
            == copy_tool_judged(code, complaint@),
        call_ensures(UsbWriter::is_copy_report, (line,), reports) ==> reports == reports_a_file(
            line@,
        ),
{
}

/// The writer goes on from the image that it mounted, tells its messages behind those told
/// before, and keeps to what was chosen.
pub proof fn writer_takes_its_own_steps(
    writer: &mut UsbWriter,
    event: WriteEvent,
    r: WriteAction<String, BootError>,
)
    requires
        call_ensures(UsbWriter::write, (writer, event), r),
    ensures
        ({
            let next = write_next(old(writer).config(), old(writer).mounted(), event);
            &&& r@ == next.action
            &&& final(writer).mounted() == next.iso_drive
            &&& final(writer).sent() == extended(old(writer).sent(), next.messages)
            &&& final(writer).config() == old(writer).config()
        }),
{
}

/// A writer is made for what was chosen, with no image mounted; it tells its messages behind
/// those of the queue that it is given, if it is given one.
pub proof fn writer_is_for_what_was_chosen(
    config: UsbWriteConfig,
    writer: UsbWriter,
    queue: ProgressQueue,
    r: UsbWriter,
)
    ensures
        call_ensures(UsbWriter::new, (config,), r) ==> {
            &&& r.config() == config
            &&& r.sent() is None
            &&& r.mounted().len() == 0
        },
        call_ensures(UsbWriter::with_progress, (writer, queue), r) ==> {
            &&& r.config() == writer.config()
            &&& r.sent() == Some(queue@)
            &&& r.mounted() == writer.mounted()
        },
{
}

/// Whether `message` was told behind the messages told before, where messages are wanted, and
/// nothing else changed.
pub open spec fn told_behind(
    before: UsbWriter,
    after: UsbWriter,
    message: WriteProgressView,
) -> bool {
    &&& after.config() == before.config()
    &&& after.mounted() == before.mounted()
    &&& before.sent() is None ==> after.sent() is None
    &&& before.sent() matches Some(queue) ==> after.sent() == Some(queue.push(message))
}

/// Messages are told behind those told before: one on the way with its step and figures, one of
/// success at 100 of 100, and one of a failure with its error.
pub proof fn messages_are_sent(
    writer: &mut UsbWriter,
    step: &str,
    step_pct: u8,
    total_pct: u8,
    error: &str,
)
    ensures
        call_ensures(UsbWriter::send_progress, (writer, step, step_pct, total_pct), ())
            ==> told_behind(
            *old(writer),
            *final(writer),
            WriteProgressView {
                step: step@,
                step_progress: step_pct,
                total_progress: total_pct,
                finished: false,
                error: None,
            },
        ),
        call_ensures(UsbWriter::send_finished, (writer,), ()) ==> told_behind(
            *old(writer),
            *final(writer),
            WriteProgressView {
                step: "完成"@,
                step_progress: 100,
                total_progress: 100,
                finished: true,
                error: None,
            },
        ),
        call_ensures(UsbWriter::send_error, (writer, error), ()) ==> told_behind(
            *old(writer),
            *final(writer),
            WriteProgressView {
                step: "错误"@,
                step_progress: 0,
                total_progress: 0,
                finished: true,
                error: Some(error@),
            },
        ),
{
    if let Some(queue) = old(writer).sent() {
        assert(forall|m: WriteProgressView| queue + seq![m] =~= #[trigger] queue.push(m));
    }
}

/// Messages come out in the order in which they were told, each once.
pub proof fn messages_come_out_in_order(writer: &mut UsbWriter, r: Option<WriteProgress>)
    requires
        call_ensures(UsbWriter::take_progress, (writer,), r),
    ensures
        final(writer).config() == old(writer).config(),
        final(writer).mounted() == old(writer).mounted(),
        r is Some <==> (old(writer).sent() matches Some(queue) && queue.len() > 0),
        r matches Some(message) ==> {
            let queue = old(writer).sent()->Some_0;
            &&& message@ == queue[0]
            &&& final(writer).sent() == Some(queue.subrange(1, queue.len() as int))
        },
        r is None ==> final(writer).sent() == old(writer).sent(),
{
    if let Some(queue) = old(writer).sent() {
        if queue.len() > 0 {
            assert(queue.drop_first() =~= queue.subrange(1, queue.len() as int));
        }
    }
}

/// A usual drive is made of the first drive whose name begins with the letter, and of the
/// image, in an MBR table, labelled WINPE and quickly formatted, with NTFS exactly if the image
/// is known to be above 4 gigabytes. It fails exactly if there is no such drive.
pub proof fn usual_drive_is_made_of_the_first(
    iso_path: &str,
    letter: char,
    queue: Option<ProgressQueue>,
    devices: &Vec<UsbDevice>,
    iso_size: Option<u64>,
    r: Result<UsbWriter, BootError>,
)
    requires
        call_ensures(create_bootable_usb, (iso_path, letter, queue, devices, iso_size), r),
    ensures
        r is Ok <==> exists|i: int|
            0 <= i < devices@.len() && (#[trigger] devices@[i]).letter@.len() > 0
                && devices@[i].letter@[0] == letter,
        r matches Ok(writer) ==> {
            let config = writer.config();
            &&& exists|at: int|
                0 <= at < devices@.len() && #[trigger] devices@[at] == config.device && (forall|
                    i: int,
                |
                    0 <= i < at ==> (#[trigger] devices@[i]).letter@.len() == 0
                        || devices@[i].letter@[0] != letter)
            &&& config.device.letter@.len() > 0
            &&& config.device.letter@[0] == letter
            &&& config.iso_path@ == iso_path@
            &&& config.partition_scheme == PartitionScheme::Mbr
            &&& config.file_system == (if iso_size matches Some(n) && n > 4294967296 {
                FsType::NTFS
            } else {
                FsType::FAT32
            })
            &&& config.volume_label@ == "WINPE"@
            &&& config.quick_format
            &&& writer.mounted().len() == 0
            &&& queue is None ==> writer.sent() is None
            &&& queue matches Some(q) ==> writer.sent() == Some(q@)
        },
        r matches Err(e) ==> e.message@ == "未找到 USB 设备: "@ + seq![letter] + ":"@,
{
    if let Ok(writer) = r {
        let at = choose|at: int| #[trigger]
            first_of_letter(devices@, letter, at) && is_usual(
                writer.config(),
                devices@[at],
                iso_path@,
                iso_size,
            );
        assert(devices@[at].letter@.len() > 0);
        assert(devices@[at].letter@[0] == letter);
    }
}

/// The panel looks for drives exactly if it has found none and is not looking for them.
pub proof fn panel_looks_for_drives_exactly_if(app: App, r: bool)
    requires
        call_ensures(App::needs_refresh, (&app,), r),
    ensures
        r <==> app.usb_boot_state.usb_devices@.len() == 0
            && !app.usb_boot_state.refreshing_devices,
{
}

/// The panel starts as the laws say.
pub proof fn panel_starts_as_told(r: UsbBootState)
    requires
        call_ensures(UsbBootState::default, (), r),
    ensures
        r@ == UsbBootStateView::initial(),
{
}

/// What the user does on the panel changes it as the laws say.
pub proof fn panel_changes_as_told(
    app: &mut App,
    devices: Vec<UsbDevice>,
    path: String,
    i: usize,
    message: WriteProgress,
)
    ensures
        ({
            let before = old(app).usb_boot_state@;
            let after = final(app).usb_boot_state@;
            &&& call_ensures(App::refresh_usb_devices, (app, devices), ()) ==> after
                == before.refreshed(devices@)
            &&& call_ensures(App::browse_iso_for_usb, (app, Some(path)), ()) ==> after
                == before.picked(Some(path@))
            &&& call_ensures(App::browse_iso_for_usb, (app, None), ()) ==> after == before
            &&& call_ensures(App::select_device, (app, i), ()) ==> after == before.device_selected(
                i,
            )
            &&& call_ensures(App::select_partition_scheme, (app, i), ()) ==> after
                == before.scheme_selected(i)
            &&& call_ensures(App::select_file_system, (app, i), ()) ==> after
                == before.file_system_selected(i)
            &&& call_ensures(App::check_usb_write_progress, (app,), ()) ==> after
                == before.caught_up()
        }),
{
}

/// A message that is handed on waits behind those that wait, where messages are waited for;
/// nothing else changes.
pub proof fn messages_wait_in_order(app: &mut App, message: WriteProgress)
    requires
        call_ensures(App::deliver_progress, (app, message), ()),
    ensures
        ({
            let before = old(app).usb_boot_state@;
            let after = final(app).usb_boot_state@;
            &&& before.progress_rx is None ==> after == before
            &&& before.progress_rx matches Some(queue) ==> {
                &&& after.progress_rx == Some(queue.push(message@))
                &&& after == (UsbBootStateView { progress_rx: after.progress_rx, ..before })
            }
        }),
{
}

/// The panel starts to make a drive exactly if nothing stands in the way, and then for the
/// drive and with the choices that it shows.
pub proof fn panel_starts_what_it_shows(app: &mut App, iso_exists: bool, r: Option<UsbWriter>)
    requires
        call_ensures(App::start_usb_write, (app, iso_exists), r),
    ensures
        ({
            let before = old(app).usb_boot_state@;
            &&& final(app).usb_boot_state@ == before.started(iso_exists)
            &&& r is Some <==> before.obstacle(iso_exists) is None
            &&& r matches Some(writer) ==> {
                let config = writer.config();
                &&& before.selected_device matches Some(i) && i < before.usb_devices.len()
                    && config.device == before.usb_devices[i as int]
                &&& config.iso_path@ == before.iso_path
                &&& config.partition_scheme == before.partition_scheme
                &&& config.volume_label@ == before.volume_label
                &&& config.quick_format == before.quick_format
                &&& config.efi_size_mb == 100
                &&& before.asks_for(config)
                &&& writer.mounted().len() == 0
                &&& writer.sent() == Some(Seq::<WriteProgressView>::empty())
            }
        }),
{
}

/// The panel shows what the laws say.
pub proof fn panel_shows_as_told(app: App, iso_exists: bool, r: UsbBootPanel)
    requires
        call_ensures(App::show_usb_boot, (&app, iso_exists), r),
    ensures
        ({
            let s = app.usb_boot_state@;
            &&& r.refreshing == s.refreshing_devices
            &&& r.devices@ == crate::ui::shown_devices(s)
            &&& r.scheme_text@ == crate::ui::scheme_label(s.partition_scheme_idx as int)
            &&& crate::ui::rows(r.schemes@) == crate::ui::shown_schemes(s)
            &&& r.file_system_text@ == crate::ui::file_system_label(s.file_system_idx as int)
            &&& crate::ui::rows(r.file_systems@) == crate::ui::shown_file_systems(s)
            &&& r.can_start <==> !s.is_writing && s.selected_device is Some && s.iso_path.len() > 0
                && iso_exists
            &&& r.writing == s.is_writing
            &&& r.status is None <==> crate::ui::shown_status(s) is None
            &&& r.status matches Some(shown) ==> crate::ui::shown_status(s) == Some(shown@)
        }),
{
}

/// Names of partition schemes and styles are given as the laws say.
pub proof fn schemes_and_styles_are_named(
    scheme: PartitionScheme,
    style: PartitionStyle,
    r: String,
)
    ensures
        call_ensures(PartitionScheme::to_string, (&scheme,), r) ==> r@ == scheme.name(),
        call_ensures(PartitionStyle::to_string, (&style,), r) ==> r@ == style.name(),
{
}

} // verus!
