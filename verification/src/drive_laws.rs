//! What finding, describing and locking drives ask for and come to, told field by field.

use vstd::prelude::*;
use crate::disk::PartitionStyle;
use crate::error::BootError;
use crate::format_laws::said;
use crate::scan::{found_exactly_if_shown, found_letters_rise, whole_scan, Drives};
use crate::size::gib_text;
use crate::text::decimal;
use crate::text_laws::texts_end_in_zero;
use crate::usb::{
    candidate, described, device_line, drive_next, eject_next, info_known, info_next,
    layout_style, little_endian, lock_next, nothing_known, number_next, root, scan_found,
    scan_next, space_next, style_next, unlock_next, volume_name, ControlEvent, DriveAnswersView,
    DriveEvent, DriveStep, InfoEvent, InfoStep, LockEvent, NumberEvent, NumberStep, RawSpace,
    ScanEvent, ScanStep, SpaceEvent, SpaceStep, StorageDeviceNumber, StyleEvent, StyleStep,
    UsbDevice, UsbDeviceView, VolumeControl, VolumeStep, DRIVE_FIXED, DRIVE_REMOVABLE,
    FIRST_LETTER, LAST_LETTER, LAYOUT_BUFFER, PARTITION_STYLE_GPT, PARTITION_STYLE_MBR,
    VOLUME_BUFFER,
};
use crate::volumes::{info_from, DriveReplies};

verus! {

/// The root directory of a volume is its letter, a colon and a backslash, and its name is two
/// backslashes, a point, a backslash, its letter and a colon.
pub proof fn volumes_go_by_their_letters(letter: char)
    ensures
        root(letter) == seq![letter, ':', '\\'],
        volume_name(letter) == seq!['\\', '\\', '.', '\\', letter, ':'],
{
    reveal_strlit(":\\");
    reveal_strlit("\\\\.\\");
    reveal_strlit(":");
    assert(root(letter) =~= seq![letter, ':', '\\']);
    assert(volume_name(letter) =~= seq!['\\', '\\', '.', '\\', letter, ':']);
}

/// Four bytes stand for a number by the powers of 256.
pub proof fn bytes_count_by_powers(a: u8, b: u8, c: u8, d: u8)
    ensures
        little_endian(seq![a, b, c, d]) == a + 256 * (b + 256 * (c + 256 * d)),
{
}

/// The system's numbers for drives and layouts, and the letters that are looked at, which go
/// from C to Z.
pub proof fn numbers_of_the_system()
    ensures
        DRIVE_REMOVABLE == 2,
        DRIVE_FIXED == 3,
        FIRST_LETTER as char == 'C',
        LAST_LETTER as char == 'Z',
        LAYOUT_BUFFER == 4096,
        VOLUME_BUFFER == 261,
        PARTITION_STYLE_MBR == 0,
        PARTITION_STYLE_GPT == 1,
{
}

/// A disk is of the style whose number the first four of at least eight bytes of its layout
/// hold, lowest byte first: zero for MBR and one for GPT.
pub proof fn style_is_the_number_of_the_layout(ok: bool, buffer: Seq<u8>, bytes_returned: u32)
    ensures
        ({
            let told = ok && bytes_returned >= 8 && buffer.len() >= 8 && buffer[1] == 0 && buffer[2]
                == 0 && buffer[3] == 0;
            let style = layout_style(ok, buffer, bytes_returned);
            &&& style == PartitionStyle::MBR <==> told && buffer[0] == 0
            &&& style == PartitionStyle::GPT <==> told && buffer[0] == 1
            &&& style == PartitionStyle::Unknown <==> !(told && buffer[0] <= 1)
        }),
{
    if buffer.len() >= 8 {
        assert(buffer.take(4) =~= seq![buffer[0], buffer[1], buffer[2], buffer[3]]);
        bytes_count_by_powers(buffer[0], buffer[1], buffer[2], buffer[3]);
    }
}

/// A drive may be a USB drive if its media are removable, or fixed and its letter neither C nor
/// X, and in no other case.
pub proof fn candidates_are_removable_or_no_system(letter: u8, drive_type: u32)
    ensures
        candidate(letter, drive_type) <==> {
            ||| drive_type == 2
            ||| drive_type == 3 && letter != 67 && letter != 88
        },
{
}

/// A search begins with C. A volume that exists is asked for the type of its drive, a drive
/// that may be a USB drive is described, and in all other cases the next letter follows, up to
/// Z. Volumes are asked about by their own root directories.
pub proof fn search_asks_about_each_letter(event: ScanEvent)
    ensures
        ({
            let next = scan_next(event);
            &&& next matches ScanStep::CheckRoot { letter, root } ==> root == seq![
                letter as char,
                ':',
                '\\',
            ] && match event {
                ScanEvent::Begin => letter == 67,
                ScanEvent::RootChecked { letter: l, exists } => !exists && letter == l + 1,
                ScanEvent::TypeRead { letter: l, drive_type } => letter == l + 1 && !candidate(
                    l,
                    drive_type,
                ),
                ScanEvent::InfoRead { letter: l, .. } => letter == l + 1,
            }
            &&& next matches ScanStep::ReadType { letter, wide_root } ==> {
                &&& event == ScanEvent::RootChecked { letter, exists: true }
                &&& wide_root.last() == 0
                &&& said(wide_root) == seq![letter as char, ':', '\\']
            }
            &&& next matches ScanStep::ReadInfo { letter } ==> {
                &&& event matches ScanEvent::TypeRead { letter: l, drive_type }
                &&& l == letter
                &&& candidate(l, drive_type)
            }
            &&& next is Finished ==> match event {
                ScanEvent::Begin => false,
                ScanEvent::RootChecked { letter, exists } => !exists && letter >= 90,
                ScanEvent::TypeRead { letter, drive_type } => letter >= 90 && !candidate(
                    letter,
                    drive_type,
                ),
                ScanEvent::InfoRead { letter, .. } => letter >= 90,
            }
        }),
{
    match event {
        ScanEvent::Begin => {
            volumes_go_by_their_letters(67u8 as char);
        },
        ScanEvent::RootChecked { letter, .. } => {
            volumes_go_by_their_letters(letter as char);
            texts_end_in_zero(root(letter as char));
            if letter < 90 {
                volumes_go_by_their_letters(((letter + 1) as u8) as char);
            }
        },
        ScanEvent::TypeRead { letter, .. } => {
            if letter < 90 {
                volumes_go_by_their_letters(((letter + 1) as u8) as char);
            }
        },
        ScanEvent::InfoRead { letter, .. } => {
            if letter < 90 {
                volumes_go_by_their_letters(((letter + 1) as u8) as char);
            }
        },
    }
}

/// A drive that could be described comes behind those found before, and nothing else changes
/// what was found.
pub proof fn described_drives_are_kept(found: Seq<UsbDevice>, event: ScanEvent)
    ensures
        match event {
            ScanEvent::InfoRead { info: Ok(device), .. } => {
                &&& scan_found(found, event).len() == found.len() + 1
                &&& scan_found(found, event).drop_last() == found
                &&& scan_found(found, event).last() == device
            },
            _ => scan_found(found, event) == found,
        },
{
    if let ScanEvent::InfoRead { info: Ok(device), .. } = event {
        assert(found.push(device).drop_last() =~= found);
    }
}

/// On any machine, a drive is found exactly if it has a letter from C to Z, its root directory
/// exists, its media are removable, or fixed and its letter neither C nor X, and it could be
/// described.
pub proof fn drives_are_found_exactly_if(drives: Drives, device: UsbDevice)
    ensures
        whole_scan(drives).contains(device) <==> exists|letter: u8|
            67 <= letter <= 90 && #[trigger] (drives.exists)(letter) && ((drives.drive_type)(letter)
                == 2 || (drives.drive_type)(letter) == 3 && letter != 67 && letter != 88) && (
            drives.info)(letter) == Ok::<UsbDevice, BootError>(device),
{
    found_exactly_if_shown(drives, device);
    if whole_scan(drives).contains(device) {
        let l = choose|l: u8|
            FIRST_LETTER <= l <= LAST_LETTER && #[trigger] drives.shows(l) && (drives.info)(l)
                == Ok::<UsbDevice, BootError>(device);
        assert((drives.exists)(l));
    }
    if exists|letter: u8|
        67 <= letter <= 90 && #[trigger] (drives.exists)(letter) && ((drives.drive_type)(letter)
            == 2 || (drives.drive_type)(letter) == 3 && letter != 67 && letter != 88) && (
        drives.info)(letter) == Ok::<UsbDevice, BootError>(device) {
        let l = choose|letter: u8|
            67 <= letter <= 90 && #[trigger] (drives.exists)(letter) && ((drives.drive_type)(letter)
                == 2 || (drives.drive_type)(letter) == 3 && letter != 67 && letter != 88) && (
            drives.info)(letter) == Ok::<UsbDevice, BootError>(device);
        assert(drives.shows(l));
    }
}

/// Where each description has the letter of its drive, the found drives have different letters,
/// each later than the one before.
pub proof fn found_drives_are_in_order(drives: Drives, i: int, j: int)
    requires
        forall|letter: u8| #[trigger]
            (drives.info)(letter) matches Ok(device) ==> device.letter@ == seq![letter as char, ':'],
        0 <= i < j < whole_scan(drives).len(),
    ensures
        whole_scan(drives)[i].letter@[0] < whole_scan(drives)[j].letter@[0],
{
    assert forall|letter: u8| #[trigger] (drives.info)(letter) matches Ok(device) implies (
    drives.info)(letter)->Ok_0.letter@ == crate::bootsect::drive_colon(letter as char) by {
        crate::boot_laws::disks_and_volumes_have_names(0, letter as char);
    }
    assert(drives.well_named());
    found_letters_rise(drives);
}

/// The space of a volume is asked for by its root directory. The answer is the size that the
/// system tells, and the space that it tells is free for the user.
pub proof fn space_is_what_the_system_tells(letter: char, space: RawSpace, reason: String)
    ensures
        space_next(letter, SpaceEvent::Begin) matches SpaceStep::Query(w) && w.last() == 0 && said(w)
            == seq![letter, ':', '\\'],
        space_next(letter, SpaceEvent::Replied(Ok(space))) matches SpaceStep::Finished(Ok(r)) && r.0
            == space.total_bytes && r.1 == space.free_bytes_available,
        space_next(letter, SpaceEvent::Replied(Err(reason))) matches SpaceStep::Finished(Err(e)) && e
            == reason@,
{
    volumes_go_by_their_letters(letter);
    texts_end_in_zero(root(letter));
}

/// The device below a volume is asked for by the name of the volume. The answer is the type,
/// the number of the device and the number of the partition that the system tells, and zeros
/// where it tells none.
pub proof fn device_is_what_the_system_tells(letter: char, number: StorageDeviceNumber)
    ensures
        number_next(letter, NumberEvent::Begin) matches NumberStep::Open(w) && w.last() == 0
            && said(w) == seq!['\\', '\\', '.', '\\', letter, ':'],
        number_next(letter, NumberEvent::Opened(true)) is Query,
        number_next(letter, NumberEvent::Opened(false)) matches NumberStep::Finished(n) && n.0 == 0
            && n.1 == 0 && n.2 == 0,
        number_next(letter, NumberEvent::Queried(Some(number))) matches NumberStep::Close { then: n }
            && n.0 == number.device_type && n.1 == number.device_number && n.2
            == number.partition_number,
        number_next(letter, NumberEvent::Queried(None)) matches NumberStep::Close { then: n } && n.0
            == 0 && n.1 == 0 && n.2 == 0,
{
    volumes_go_by_their_letters(letter);
    texts_end_in_zero(volume_name(letter));
}

/// The style of a disk other than disk zero is asked for by the name of the disk, with a buffer
/// of 4096 bytes, and is the one that the answer tells. Of disk zero it is not known.
pub proof fn style_is_what_the_system_tells(
    disk_number: u32,
    ok: bool,
    buffer: Vec<u8>,
    bytes_returned: u32,
    event: StyleEvent,
)
    ensures
        disk_number == 0 ==> (style_next(disk_number, event) matches StyleStep::Finished(s) && s
            == PartitionStyle::Unknown),
        disk_number != 0 ==> {
            &&& style_next(disk_number, StyleEvent::Begin) matches StyleStep::Open(w)
            &&& w.last() == 0
            &&& said(w) == "\\\\.\\PhysicalDrive"@ + decimal(disk_number as nat)
        },
        disk_number != 0 ==> (style_next(
            disk_number,
            StyleEvent::Opened(true),
        ) matches StyleStep::Query { buffer_len } && buffer_len == 4096),
        disk_number != 0 ==> (style_next(
            disk_number,
            StyleEvent::Opened(false),
        ) matches StyleStep::Finished(s) && s == PartitionStyle::Unknown),
        disk_number != 0 ==> (style_next(
            disk_number,
            StyleEvent::Queried { ok, buffer, bytes_returned },
        ) matches StyleStep::Close { then } && then == layout_style(ok, buffer@, bytes_returned)),
{
    texts_end_in_zero(crate::bootsect::drive_name(disk_number));
}

/// A disk is opened by its name, for writing where that was asked for. It is open exactly if
/// the system opened it; an error tells the number of the disk, or the system's reason.
pub proof fn disk_is_opened_by_its_number(disk_number: u32, write_access: bool, reason: String)
    ensures
        drive_next(disk_number, write_access, DriveEvent::Begin) matches DriveStep::Open {
            name,
            write_access: w,
        } && w == write_access && name.last() == 0 && said(name) == "\\\\.\\PhysicalDrive"@
            + decimal(disk_number as nat),
        drive_next(disk_number, write_access, DriveEvent::Opened) matches DriveStep::Finished(Ok(_)),
        drive_next(disk_number, write_access, DriveEvent::InvalidHandle) matches DriveStep::Finished(
            Err(e),
        ) && e == "无法打开物理磁盘 "@ + decimal(disk_number as nat),
        drive_next(
            disk_number,
            write_access,
            DriveEvent::Failed(reason),
        ) matches DriveStep::Finished(Err(e)) && e == "打开物理磁盘失败: "@ + reason@,
{
    texts_end_in_zero(crate::bootsect::drive_name(disk_number));
}

/// A volume is locked, unlocked and ejected by its own name, and each error tells its letter.
pub proof fn volume_is_worked_on_by_its_letter(letter: char)
    ensures
        lock_next(letter, LockEvent::Begin) matches VolumeStep::Open(w) && w.last() == 0 && said(w)
            == seq!['\\', '\\', '.', '\\', letter, ':'],
        unlock_next(letter, ControlEvent::Begin) matches VolumeStep::Open(w) && w.last() == 0
            && said(w) == seq!['\\', '\\', '.', '\\', letter, ':'],
        eject_next(letter, ControlEvent::Begin) matches VolumeStep::Open(w) && w.last() == 0
            && said(w) == seq!['\\', '\\', '.', '\\', letter, ':'],
        lock_next(letter, LockEvent::Opened(false)) matches VolumeStep::Finished(Err(e)) && e
            == "无法打开卷 "@ + seq![letter] + ": 进行锁定"@,
        lock_next(letter, LockEvent::Locked(false)) matches VolumeStep::Close { then: Err(e) } && e
            == "锁定卷 "@ + seq![letter] + ": 失败，请确保没有其他程序正在使用该磁盘"@,
        eject_next(letter, ControlEvent::Opened(false)) matches VolumeStep::Finished(Err(e)) && e
            == "无法打开设备 "@ + seq![letter] + ": 进行弹出"@,
        eject_next(letter, ControlEvent::Controlled(false)) matches VolumeStep::Close {
            then: Err(e),
        } && e == "弹出设备 "@ + seq![letter] + ": 失败"@,
{
    volumes_go_by_their_letters(letter);
    texts_end_in_zero(volume_name(letter));
}

/// An open volume is dismounted and then locked, whether or not it could be dismounted; or it
/// is unlocked; or its medium is ejected. Each time it is closed then.
pub proof fn volume_gets_the_right_commands(letter: char, dismounted: bool, controlled: bool)
    ensures
        lock_next(letter, LockEvent::Opened(true)) matches VolumeStep::Control(c) && c
            == VolumeControl::Dismount,
        lock_next(letter, LockEvent::Dismounted(dismounted)) matches VolumeStep::Control(c) && c
            == VolumeControl::Lock,
        lock_next(letter, LockEvent::Locked(controlled)) matches VolumeStep::Close { then } && (
        then is Ok <==> controlled),
        unlock_next(letter, ControlEvent::Opened(true)) matches VolumeStep::Control(c) && c
            == VolumeControl::Unlock,
        unlock_next(letter, ControlEvent::Opened(false)) matches VolumeStep::Finished(Ok(_)),
        unlock_next(letter, ControlEvent::Controlled(controlled)) matches VolumeStep::Close {
            then: Ok(_),
        },
        eject_next(letter, ControlEvent::Opened(true)) matches VolumeStep::Control(c) && c
            == VolumeControl::EjectMedia,
        eject_next(letter, ControlEvent::Controlled(controlled)) matches VolumeStep::Close { then }
            && (then is Ok <==> controlled),
{
}

/// Whatever the system answers, a drive whose size is known is described by just these answers:
/// its letter with a colon, the size and the free space that were told, the type, number and
/// partition that were told, removable exactly for type one, and the partition style of the
/// very disk that was told.
pub proof fn description_repeats_the_answers(letter: char, replies: DriveReplies)
    ensures
        ({
            let r = info_from(letter, replies, nothing_known(), InfoEvent::Begin);
            match replies.space {
                Ok(space) => r matches Ok(d) && {
                    &&& d.letter == seq![letter, ':']
                    &&& d.size_bytes == space.0
                    &&& d.free_bytes == space.1
                    &&& d.device_type == replies.number.0
                    &&& d.physical_drive == replies.number.1
                    &&& d.partition_number == replies.number.2
                    &&& d.is_removable <==> replies.number.0 == 1
                    &&& d.partition_style == (replies.style)(replies.number.1)
                },
                Err(e) => r == Err::<UsbDeviceView, Seq<char>>(e.message@),
            }
        }),
{
    reveal_with_fuel(info_from, 5);
    crate::boot_laws::disks_and_volumes_have_names(0, letter);
}

/// Whatever is known of a drive, its description repeats it field by field. Its label and its
/// file system are what the buffers say, up to the zeros at the end.
pub proof fn description_repeats_what_is_known(
    letter: char,
    known: DriveAnswersView,
    style: PartitionStyle,
)
    ensures
        info_next(letter, known, InfoEvent::StyleRead(style)) matches InfoStep::Finished(Ok(d)) && {
            &&& d == described(letter, known, style)
            &&& d.letter == seq![letter, ':']
            &&& d.size_bytes == known.space.0
            &&& d.free_bytes == known.space.1
            &&& d.device_type == known.number.0
            &&& d.physical_drive == known.number.1
            &&& d.partition_number == known.number.2
            &&& d.is_removable <==> known.number.0 == 1
            &&& d.partition_style == style
            &&& d.label == crate::text::trimmed_end(crate::utf16::decoded(known.name), '\0')
            &&& d.file_system == crate::text::trimmed_end(
                crate::utf16::decoded(known.file_system),
                '\0',
            )
        },
{
    crate::boot_laws::disks_and_volumes_have_names(0, letter);
}

/// A drive is asked about in order: its label and file system by its root directory, with
/// buffers of 261 units, then its space, its device, and the style of just that disk. Each
/// answer is kept as it is, and changes nothing else that is known.
pub proof fn answers_are_kept(
    letter: char,
    known: DriveAnswersView,
    name: Vec<u16>,
    file_system: Vec<u16>,
    space: (u64, u64),
    number: (u32, u32, u32),
    style: PartitionStyle,
    error: BootError,
)
    ensures
        info_next(letter, known, InfoEvent::Begin) matches InfoStep::ReadVolume {
            wide_root,
            buffer_len,
        } && buffer_len == 261 && wide_root.last() == 0 && said(wide_root) == seq![
            letter,
            ':',
            '\\',
        ],
        ({
            let k = info_known(known, InfoEvent::Begin);
            k.name.len() == 0 && k.file_system.len() == 0 && k.space == (0u64, 0u64) && k.number == (
                0u32,
                0u32,
                0u32,
            )
        }),
        info_next(letter, known, InfoEvent::VolumeRead { name, file_system }) is ReadSpace,
        ({
            let k = info_known(known, InfoEvent::VolumeRead { name, file_system });
            k.name == name@ && k.file_system == file_system@ && k.space == known.space && k.number
                == known.number
        }),
        info_next(letter, known, InfoEvent::SpaceRead(Ok(space))) is ReadNumber,
        ({
            let k = info_known(known, InfoEvent::SpaceRead(Ok(space)));
            k.name == known.name && k.file_system == known.file_system && k.space == space
                && k.number == known.number
        }),
        info_next(letter, known, InfoEvent::SpaceRead(Err(error))) matches InfoStep::Finished(Err(e))
            && e == error.message@,
        info_next(letter, known, InfoEvent::NumberRead(number)) matches InfoStep::ReadStyle {
            disk_number,
        } && disk_number == number.1,
        ({
            let k = info_known(known, InfoEvent::NumberRead(number));
            k.name == known.name && k.file_system == known.file_system && k.space == known.space
                && k.number == number
        }),
        info_known(known, InfoEvent::StyleRead(style)) == known,
        info_known(known, InfoEvent::SpaceRead(Err(error))) == known,
{
    volumes_go_by_their_letters(letter);
    texts_end_in_zero(root(letter));
}

/// The line on a drive tells its letter, its label, its size in gigabytes, its file system,
/// whether it is removable, and how it is partitioned, in this order.
pub proof fn drive_is_told_in_one_line(d: UsbDeviceView)
    ensures
        device_line(d) == d.letter + " ["@ + d.label + "] "@ + gib_text(d.size_bytes as nat)
            + " GB "@ + d.file_system + " ("@ + (if d.is_removable {
            "可移动磁盘"@
        } else {
            "固定磁盘"@
        }) + ") "@ + (match d.partition_style {
            PartitionStyle::GPT => "GPT"@,
            PartitionStyle::MBR => "MBR"@,
            PartitionStyle::Unknown => "Unknown"@,
        }),
{
}

} // verus!
