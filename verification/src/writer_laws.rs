//! What making a boot drive asks for and tells, on the drive that was chosen.

use vstd::prelude::*;
use crate::bootsect::TargetSystem;
use crate::error::BootError;
use crate::fat32::FsType;
use crate::progress::WriteProgressView;
use crate::runs::{run_from, whole_run, Ask, Host};
use crate::text_laws::trimming_takes_off_the_run;
use crate::usb::UsbDevice;
use crate::usb_writer::{
    all_done, extended, first_of_letter, gone_wrong, is_usual, iso_efi_dir, on_the_way,
    suitable_file_system, target_letter, write_next, PartitionScheme, UsbWriteConfig, WriteAction,
    WriteEvent,
};

verus! {

/// The letter of the drive is the first character of its name.
pub proof fn letter_is_the_first_of_the_name(config: UsbWriteConfig)
    ensures
        config.device.letter@.len() > 0 ==> target_letter(config) == config.device.letter@[0],
        config.device.letter@.len() == 0 ==> target_letter(config) == 'D',
{
}

/// Whether all that is asked for of volumes and disks is asked for of the volume `letter` and
/// of the disk `drive`.
pub open spec fn asked_of(ask: Ask, letter: char, drive: u32) -> bool {
    match ask {
        WriteAction::LockVolume { letter: l } => l == letter,
        WriteAction::CleanDisk { drive: d } => d == drive,
        WriteAction::CreateMbrPartition { drive: d, .. } => d == drive,
        WriteAction::CreateGptPartitions { drive: d, .. } => d == drive,
        WriteAction::Format { letter: l, .. } => l == letter,
        WriteAction::FormatByCommand { letter: l, .. } => l == letter,
        WriteAction::CopyFiles { dest, .. } => dest == seq![letter, ':'],
        WriteAction::CopyFilesSingly { dest, .. } => dest == seq![letter, ':'],
        WriteAction::WriteMbr { drive: d, .. } => d == drive,
        WriteAction::WritePbr { letter: l, .. } => l == letter,
        WriteAction::CheckVolumeEfi { path } => path == seq![letter] + ":\\EFI\\BOOT"@,
        WriteAction::CopyEfi { dest, .. } => dest == seq![letter, ':'] + "\\EFI"@,
        WriteAction::UnlockVolume { letter: l } => l == letter,
        WriteAction::LoadFormatter => true,
        WriteAction::MountIso { .. } => true,
        WriteAction::CheckSystemEfi { path } => path == "S:\\EFI"@,
        WriteAction::CheckIsoEfi { .. } => true,
        WriteAction::UnmountIso => true,
        WriteAction::Finished(_) => true,
    }
}

/// A run asks of its own drive from any event on.
proof fn run_asks_of_its_drive(
    config: UsbWriteConfig,
    host: Host,
    iso_drive: Seq<char>,
    event: WriteEvent,
    limit: nat,
)
    requires
        config.device.letter@.len() > 0,
    ensures
        ({
            let asks = run_from(config, host, iso_drive, event, limit).asks;
            forall|i: int|
                0 <= i < asks.len() ==> asked_of(
                    #[trigger] asks[i],
                    config.device.letter@[0],
                    config.device.physical_drive,
                )
        }),
    decreases limit,
{
    let letter = config.device.letter@[0];
    let drive = config.device.physical_drive;
    crate::boot_laws::disks_and_volumes_have_names(drive, letter);
    letter_is_the_first_of_the_name(config);
    let next = write_next(config, iso_drive, event);
    assert(asked_of(next.action, letter, drive));
    if !(next.action is Finished) && limit > 0 {
        let reply = (host.reply)(next.action);
        let rest = run_from(config, host, next.iso_drive, reply, (limit - 1) as nat).asks;
        run_asks_of_its_drive(config, host, next.iso_drive, reply, (limit - 1) as nat);
        let asks = run_from(config, host, iso_drive, event, limit).asks;
        assert forall|i: int| 0 <= i < asks.len() implies asked_of(
            #[trigger] asks[i],
            letter,
            drive,
        ) by {
            if i > 0 {
                assert(asks[i] == rest[i - 1]);
            }
        }
    }
}

/// Whatever the machine answers, every volume that is locked, formatted, copied to, given a
/// boot record or unlocked is the one whose letter is the first character of the chosen drive's
/// name, and every disk that is cleaned, partitioned or given a boot record is the chosen
/// drive's disk.
pub proof fn all_is_asked_of_the_chosen_drive(config: UsbWriteConfig, host: Host, i: int)
    requires
        config.device.letter@.len() > 0,
        0 <= i < whole_run(config, host).asks.len(),
    ensures
        asked_of(
            whole_run(config, host).asks[i],
            config.device.letter@[0],
            config.device.physical_drive,
        ),
{
    run_asks_of_its_drive(config, host, Seq::empty(), WriteEvent::Begin, 16);
}

/// Two writers for drives with different first letters never lock, format or copy to the same
/// volume.
pub proof fn different_letters_are_kept_apart(
    a: UsbWriteConfig,
    b: UsbWriteConfig,
    iso_drive: Seq<char>,
    event: WriteEvent,
)
    requires
        a.device.letter@.len() > 0,
        b.device.letter@.len() > 0,
        a.device.letter@[0] != b.device.letter@[0],
    ensures
        ({
            let x = write_next(a, iso_drive, event).action;
            let y = write_next(b, iso_drive, event).action;
            (x is LockVolume || x is Format || x is FormatByCommand || x is CopyFiles
                || x is CopyFilesSingly || x is WritePbr || x is CheckVolumeEfi || x is CopyEfi
                || x is UnlockVolume) ==> x != y
        }),
{
    run_asks_of_its_drive_once(a, iso_drive, event);
    run_asks_of_its_drive_once(b, iso_drive, event);
    let l = a.device.letter@[0];
    let m = b.device.letter@[0];
    assert(seq![l, ':'][0] == l);
    assert(seq![m, ':'][0] == m);
    assert((seq![l] + ":\\EFI\\BOOT"@)[0] == l);
    assert((seq![m] + ":\\EFI\\BOOT"@)[0] == m);
    assert((seq![l, ':'] + "\\EFI"@)[0] == l);
    assert((seq![m, ':'] + "\\EFI"@)[0] == m);
}

/// One step asks of its own drive.
proof fn run_asks_of_its_drive_once(
    config: UsbWriteConfig,
    iso_drive: Seq<char>,
    event: WriteEvent,
)
    requires
        config.device.letter@.len() > 0,
    ensures
        asked_of(
            write_next(config, iso_drive, event).action,
            config.device.letter@[0],
            config.device.physical_drive,
        ),
{
    crate::boot_laws::disks_and_volumes_have_names(
        config.device.physical_drive,
        config.device.letter@[0],
    );
}

/// The boot files of an image that is mounted as a drive letter, with any number of colons, are
/// looked for in the directory EFI of that drive. Those of one that is mounted as any other
/// directory are looked for in its directory EFI.
pub proof fn boot_files_lie_in_efi(place: Seq<char>, colons: nat)
    requires
        place.len() > 0 ==> place.last() != ':',
    ensures
        ({
            let dir = iso_efi_dir(place + Seq::new(colons, |i: int| ':'));
            let is_drive = place.len() == 1 && (65 <= place[0] as int <= 90 || 97 <= place[0] as int
                <= 122);
            &&& is_drive ==> dir == seq![place[0], ':', '\\', 'E', 'F', 'I']
            &&& !is_drive ==> dir == place + seq!['\\', 'E', 'F', 'I']
        }),
{
    reveal_strlit(":");
    reveal_strlit("\\EFI");
    trimming_takes_off_the_run(place, ':', colons);
    assert("\\EFI"@ =~= seq!['\\', 'E', 'F', 'I']);
    if place.len() == 1 {
        assert(seq![place[0]] + ":"@ + "\\EFI"@ =~= seq![place[0], ':', '\\', 'E', 'F', 'I']);
    }
}

/// Messages on the way carry their step and figures and are not the last; the message of
/// success is the last, at 100 of 100, without an error; the message of a failure is the last,
/// and carries the error.
pub proof fn messages_carry_what_they_tell(
    step: Seq<char>,
    step_pct: u8,
    total_pct: u8,
    error: Seq<char>,
)
    ensures
        ({
            let m = on_the_way(step, step_pct, total_pct);
            &&& m.step == step
            &&& m.step_progress == step_pct
            &&& m.total_progress == total_pct
            &&& !m.finished
            &&& m.error is None
        }),
        ({
            let m = all_done();
            &&& m.step == "完成"@
            &&& m.step_progress == 100
            &&& m.total_progress == 100
            &&& m.finished
            &&& m.error is None
        }),
        ({
            let m = gone_wrong(error);
            &&& m.step == "错误"@
            &&& m.step_progress == 0
            &&& m.total_progress == 0
            &&& m.finished
            &&& m.error == Some(error)
        }),
{
}

/// Messages come behind those sent before, all of them and in order, where messages are wanted.
pub proof fn messages_come_behind(
    queue: Seq<WriteProgressView>,
    messages: Seq<WriteProgressView>,
    i: int,
)
    ensures
        extended(None, messages) is None,
        extended(Some(queue), messages) matches Some(q) && {
            &&& q.len() == queue.len() + messages.len()
            &&& 0 <= i < queue.len() ==> q[i] == queue[i]
            &&& 0 <= i < messages.len() ==> q[queue.len() + i] == messages[i]
        },
{
}

/// The letter that the contracts speak of.
pub open spec fn first_letter(config: UsbWriteConfig) -> char {
    if config.device.letter@.len() > 0 {
        config.device.letter@[0]
    } else {
        'D'
    }
}

/// The answers that tell of a success lead from locking over cleaning, partitioning, loading
/// the formatter, formatting, mounting, copying and writing boot records to unmounting,
/// unlocking and the end, each with what was chosen.
pub proof fn successes_lead_to_the_end(
    config: UsbWriteConfig,
    iso_drive: Seq<char>,
    mounted: String,
    last: (Result<(), BootError>, Result<(), BootError>),
)
    ensures
        ({
            let after = |event: WriteEvent| write_next(config, iso_drive, event).action;
            let letter = first_letter(config);
            let drive = config.device.physical_drive;
            let file_system = config.file_system;
            let label = config.volume_label@;
            let quick_format = config.quick_format;
            let boot = match config.partition_scheme {
                PartitionScheme::Mbr => Ask::WriteMbr { drive, mbr_type: "/nt60"@ },
                PartitionScheme::Gpt => Ask::CheckSystemEfi { path: "S:\\EFI"@ },
            };
            &&& after(WriteEvent::Begin) == Ask::LockVolume { letter }
            &&& after(WriteEvent::VolumeLocked(Ok(()))) == Ask::CleanDisk { drive }
            &&& after(WriteEvent::DiskCleaned(Ok(()))) == match config.partition_scheme {
                PartitionScheme::Mbr => Ask::CreateMbrPartition { drive, active: true },
                PartitionScheme::Gpt => Ask::CreateGptPartitions {
                    drive,
                    efi_size_mb: config.efi_size_mb,
                    data_size_mb: 0,
                },
            }
            &&& after(WriteEvent::Partitioned(Ok(()))) == Ask::LoadFormatter
            &&& after(WriteEvent::FormatterLoaded(Ok(()))) == Ask::Format {
                letter,
                file_system,
                label,
                quick_format,
            }
            &&& after(WriteEvent::Formatted(Ok(()))) == Ask::MountIso { path: config.iso_path@ }
            &&& after(WriteEvent::FormattedByCommand(Ok(()))) == Ask::MountIso {
                path: config.iso_path@,
            }
            &&& after(WriteEvent::IsoMounted(Ok(mounted))) == Ask::CopyFiles {
                source: mounted@,
                dest: seq![letter, ':'],
                progress_start: 55,
                progress_end: 80,
            }
            &&& after(WriteEvent::FilesCopied(Ok(()))) == boot
            &&& after(WriteEvent::FilesCopiedSingly(Ok(()))) == boot
            &&& after(WriteEvent::MbrWritten(Ok(()))) == Ask::WritePbr {
                letter,
                pbr_type: "/nt60"@,
            }
            &&& after(WriteEvent::PbrWritten(Ok(()))) == Ask::UnmountIso
            &&& after(WriteEvent::SystemEfiChecked(true)) == Ask::UnmountIso
            &&& after(WriteEvent::VolumeEfiChecked(true)) == Ask::UnmountIso
            &&& after(WriteEvent::IsoEfiChecked(true)) == Ask::CopyEfi {
                source: iso_efi_dir(iso_drive),
                dest: seq![letter, ':'] + "\\EFI"@,
            }
            &&& after(WriteEvent::EfiCopied(Ok(()))) == Ask::UnmountIso
            &&& after(WriteEvent::IsoUnmounted(last.0)) == Ask::UnlockVolume { letter }
            &&& after(WriteEvent::VolumeUnlocked(last.1)) == Ask::Finished(Ok(()))
        }),
{
    crate::boot_laws::disks_and_volumes_have_names(0, first_letter(config));
}

/// Where the first way to format or to copy fails, the second is tried on the same drive; where
/// boot files are not in one place, they are looked for in the next; every other failure ends
/// the work with its reason, and with a message that carries it.
pub proof fn failures_lead_to_second_ways_or_the_end(
    config: UsbWriteConfig,
    iso_drive: Seq<char>,
    e: BootError,
)
    ensures
        ({
            let after = |event: WriteEvent| write_next(config, iso_drive, event).action;
            let letter = first_letter(config);
            &&& after(WriteEvent::Formatted(Err(e))) == Ask::FormatByCommand {
                letter,
                file_system: config.file_system,
                label: config.volume_label@,
                quick_format: config.quick_format,
            }
            &&& after(WriteEvent::FilesCopied(Err(e))) == Ask::CopyFilesSingly {
                source: iso_drive,
                dest: seq![letter, ':'],
            }
            &&& after(WriteEvent::SystemEfiChecked(false)) == Ask::CheckVolumeEfi {
                path: seq![letter] + ":\\EFI\\BOOT"@,
            }
            &&& after(WriteEvent::VolumeEfiChecked(false)) == Ask::CheckIsoEfi {
                path: iso_efi_dir(iso_drive),
            }
            &&& after(WriteEvent::IsoEfiChecked(false)) == Ask::UnmountIso
        }),
        forall|event: WriteEvent|
            (event == WriteEvent::VolumeLocked(Err(e)) || event == WriteEvent::DiskCleaned(Err(e))
                || event == WriteEvent::Partitioned(Err(e)) || event == WriteEvent::FormatterLoaded(
                Err(e),
            ) || event == WriteEvent::FormattedByCommand(Err(e)) || event == WriteEvent::IsoMounted(
                Err(e),
            ) || event == WriteEvent::FilesCopiedSingly(Err(e)) || event == WriteEvent::MbrWritten(
                Err(e),
            ) || event == WriteEvent::PbrWritten(Err(e)) || event == WriteEvent::EfiCopied(Err(e)))
                ==> {
                let next = #[trigger] write_next(config, iso_drive, event);
                &&& next.action == Ask::Finished(Err(e.message@))
                &&& next.messages.len() == 1
                &&& next.messages[0].finished
                &&& next.messages[0].error == Some(e.message@)
                &&& next.messages[0].step == "错误"@
                &&& next.messages[0].step_progress == 0
                &&& next.messages[0].total_progress == 0
            },
{
    crate::boot_laws::disks_and_volumes_have_names(0, first_letter(config));
}

/// The drive of the image is the one that it was mounted as, from then on.
pub proof fn image_drive_is_kept(
    config: UsbWriteConfig,
    iso_drive: Seq<char>,
    event: WriteEvent,
)
    ensures
        write_next(config, iso_drive, event).iso_drive == match event {
            WriteEvent::IsoMounted(Ok(mounted)) => mounted@,
            _ => iso_drive,
        },
{
}

/// Whether a message on the way says just this.
pub open spec fn says(m: WriteProgressView, step: Seq<char>, step_pct: u8, total_pct: u8) -> bool {
    &&& m.step == step
    &&& m.step_progress == step_pct
    &&& m.total_progress == total_pct
    &&& !m.finished
    &&& m.error is None
}

/// Each part of the work that is done, and each that begins, is told with its figures; where
/// one way is left for another, and where nothing is done, nothing is told.
pub proof fn parts_are_told(
    config: UsbWriteConfig,
    iso_drive: Seq<char>,
    mounted: String,
    r: Result<(), BootError>,
)
    ensures
        ({
            let told = |event: WriteEvent| write_next(config, iso_drive, event).messages;
            let m = told(WriteEvent::Begin);
            &&& m.len() == 1
            &&& says(m[0], "正在准备目标设备..."@, 0, 0)
            &&& ({
                let m = told(WriteEvent::VolumeLocked(Ok(())));
                &&& m.len() == 2
                &&& says(m[0], "目标设备已准备"@, 100, 5)
                &&& says(m[1], "正在清理磁盘分区..."@, 0, 10)
            })
            &&& ({
                let m = told(WriteEvent::DiskCleaned(Ok(())));
                &&& m.len() == 1
                &&& says(m[0], "磁盘已清理"@, 50, 15)
            })
            &&& ({
                let m = told(WriteEvent::Partitioned(Ok(())));
                &&& m.len() == 2
                &&& says(m[0], "分区表已创建"@, 100, 20)
                &&& says(m[1], "正在格式化分区..."@, 0, 25)
            })
            &&& ({
                let m = told(WriteEvent::IsoMounted(Ok(mounted)));
                &&& m.len() == 2
                &&& says(m[0], "ISO 已挂载"@, 100, 50)
                &&& says(m[1], "正在复制文件到 U盘..."@, 0, 55)
            })
            &&& ({
                let m = told(WriteEvent::VolumeUnlocked(r));
                &&& m.len() == 2
                &&& says(m[0], "启动盘制作完成！"@, 100, 100)
                &&& m[1].step == "完成"@
                &&& m[1].step_progress == 100
                &&& m[1].total_progress == 100
                &&& m[1].finished
                &&& m[1].error is None
            })
        }),
        forall|event: WriteEvent|
            event == WriteEvent::Formatted(Ok(())) || event == WriteEvent::FormattedByCommand(
                Ok(()),
            ) ==> {
                let m = (#[trigger] write_next(config, iso_drive, event)).messages;
                &&& m.len() == 2
                &&& says(m[0], "格式化完成"@, 100, 40)
                &&& says(m[1], "正在挂载 ISO 镜像..."@, 0, 45)
            },
        forall|event: WriteEvent|
            event == WriteEvent::FilesCopied(Ok(())) || event == WriteEvent::FilesCopiedSingly(
                Ok(()),
            ) ==> {
                let m = (#[trigger] write_next(config, iso_drive, event)).messages;
                &&& m.len() == 2
                &&& says(m[0], "文件复制完成"@, 100, 80)
                &&& says(m[1], "正在写入引导记录..."@, 0, 85)
            },
        forall|event: WriteEvent|
            event == WriteEvent::PbrWritten(Ok(())) || event == WriteEvent::EfiCopied(Ok(()))
                || event == WriteEvent::SystemEfiChecked(true) || event
                == WriteEvent::VolumeEfiChecked(true) || event == WriteEvent::IsoEfiChecked(false)
                ==> {
                let m = (#[trigger] write_next(config, iso_drive, event)).messages;
                &&& m.len() == 2
                &&& says(m[0], "引导记录已写入"@, 100, 90)
                &&& says(m[1], "正在清理..."@, 50, 95)
            },
        forall|event: WriteEvent|
            event is IsoUnmounted || event == WriteEvent::FormatterLoaded(Ok(())) || event
                == WriteEvent::MbrWritten(Ok(())) || event == WriteEvent::SystemEfiChecked(false)
                || event == WriteEvent::VolumeEfiChecked(false) || event
                == WriteEvent::IsoEfiChecked(true) || (event matches WriteEvent::Formatted(Err(_)))
                || (event matches WriteEvent::FilesCopied(Err(_))) ==> (#[trigger] write_next(
                config,
                iso_drive,
                event,
            )).messages.len() == 0,
{
}

/// An image above 4 gigabytes goes on NTFS, and any other, or one of unknown size, on FAT32.
pub proof fn large_images_go_on_ntfs(size: u64)
    ensures
        suitable_file_system(Some(size)) == FsType::NTFS <==> size > 4 * 1024 * 1024 * 1024,
        suitable_file_system(Some(size)) == FsType::FAT32 <==> size <= 4 * 1024 * 1024 * 1024,
        suitable_file_system(None) == FsType::FAT32,
{
}

/// The drive that is taken is in the list, its name begins with the letter, and no drive before
/// it does so.
pub proof fn first_drive_of_the_letter_is_taken(devices: Seq<UsbDevice>, letter: char, at: int)
    ensures
        first_of_letter(devices, letter, at) <==> {
            &&& 0 <= at < devices.len()
            &&& devices[at].letter@.len() > 0
            &&& devices[at].letter@[0] == letter
            &&& forall|i: int|
                0 <= i < at ==> (#[trigger] devices[i]).letter@.len() == 0 || devices[i].letter@[0]
                    != letter
        },
{
}

/// The usual drive is the given one, with the given image, in an MBR table for BIOS and UEFI
/// machines, labelled WINPE, quickly formatted, with 100 megabytes for an EFI partition.
pub proof fn usual_drive_is_plain(
    config: UsbWriteConfig,
    device: UsbDevice,
    iso_path: Seq<char>,
    iso_size: Option<u64>,
)
    ensures
        is_usual(config, device, iso_path, iso_size) <==> {
            &&& config.device == device
            &&& config.iso_path@ == iso_path
            &&& config.partition_scheme == PartitionScheme::Mbr
            &&& config.target_system == TargetSystem::BiosOrUefiCsm
            &&& config.file_system == (if iso_size matches Some(n) && n > 4294967296 {
                FsType::NTFS
            } else {
                FsType::FAT32
            })
            &&& config.volume_label@ == "WINPE"@
            &&& config.quick_format
            &&& config.efi_size_mb == 100
        },
{
}

/// The partition schemes go by their names.
pub proof fn schemes_go_by_their_names()
    ensures
        PartitionScheme::Mbr.name() == "MBR"@,
        PartitionScheme::Gpt.name() == "GPT"@,
{
}

/// Whether two machines answer alike.
pub open spec fn answer_alike(a: Host, b: Host) -> bool {
    forall|ask: Ask| (#[trigger] (a.reply)(ask)) == (b.reply)(ask)
}

/// What is asked for does not depend on what the copying tool reports.
pub proof fn reports_change_no_question(
    config: UsbWriteConfig,
    a: Host,
    b: Host,
    iso_drive: Seq<char>,
    event: WriteEvent,
    limit: nat,
)
    requires
        answer_alike(a, b),
    ensures
        run_from(config, a, iso_drive, event, limit).asks == run_from(
            config,
            b,
            iso_drive,
            event,
            limit,
        ).asks,
    decreases limit,
{
    let next = write_next(config, iso_drive, event);
    if !(next.action is Finished) && limit > 0 {
        assert((a.reply)(next.action) == (b.reply)(next.action));
        reports_change_no_question(
            config,
            a,
            b,
            next.iso_drive,
            (a.reply)(next.action),
            (limit - 1) as nat,
        );
    }
}

} // verus!
