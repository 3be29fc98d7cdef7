//! USB drives: finding them, describing them, and locking their volumes.

use vstd::prelude::*;
use crate::bootsect::{drive_colon_string, drive_colon, drive_name, drive_name_string};
use crate::disk::PartitionStyle;
use crate::error::{outcome, BootError};
use crate::size::{gib_string, gib_text};
use crate::text::{
    char_string, comes_not_after, decimal, decimal_string, not_after, trim_end, trimmed_end,
};
use crate::utf16::{decode, decoded, encode_z, utf16z};

verus! {

/// The type of a drive with removable media.
pub const DRIVE_REMOVABLE: u32 = 2;

/// The type of a drive with fixed media.
pub const DRIVE_FIXED: u32 = 3;

/// The first drive letter that is looked at.
pub const FIRST_LETTER: u8 = 0x43;

/// The last drive letter that is looked at.
pub const LAST_LETTER: u8 = 0x5A;

/// How many bytes are set aside for a disk's layout.
pub const LAYOUT_BUFFER: usize = 4096;

/// How many units are set aside for a volume's label, and for the name of its
/// file system.
pub const VOLUME_BUFFER: usize = 261;

/// A USB drive.
#[derive(Debug)]
pub struct UsbDevice {
    /// The drive letter with its colon.
    pub letter: String,
    /// The volume label.
    pub label: String,
    /// The number of the disk.
    pub physical_drive: u32,
    /// The number of the partition.
    pub partition_number: u32,
    /// The type of the device: 0 for fixed, 1 for removable.
    pub device_type: u32,
    /// The size in bytes.
    pub size_bytes: u64,
    /// The free space in bytes.
    pub free_bytes: u64,
    /// Whether the disk is removable.
    pub is_removable: bool,
    /// How the disk is partitioned.
    pub partition_style: PartitionStyle,
    /// The name of the file system.
    pub file_system: String,
}

/// A USB drive, with its texts.
pub struct UsbDeviceView {
    /// The drive letter with its colon.
    pub letter: Seq<char>,
    /// The volume label.
    pub label: Seq<char>,
    /// The number of the disk.
    pub physical_drive: u32,
    /// The number of the partition.
    pub partition_number: u32,
    /// The type of the device: 0 for fixed, 1 for removable.
    pub device_type: u32,
    /// The size in bytes.
    pub size_bytes: u64,
    /// The free space in bytes.
    pub free_bytes: u64,
    /// Whether the disk is removable.
    pub is_removable: bool,
    /// How the disk is partitioned.
    pub partition_style: PartitionStyle,
    /// The name of the file system.
    pub file_system: Seq<char>,
}

impl View for UsbDevice {
    type V = UsbDeviceView;

    open spec fn view(&self) -> UsbDeviceView {
        UsbDeviceView {
            letter: self.letter@,
            label: self.label@,
            physical_drive: self.physical_drive,
            partition_number: self.partition_number,
            device_type: self.device_type,
            size_bytes: self.size_bytes,
            free_bytes: self.free_bytes,
            is_removable: self.is_removable,
            partition_style: self.partition_style,
            file_system: self.file_system@,
        }
    }
}

impl Clone for UsbDevice {
    fn clone(&self) -> (r: Self)
        ensures
            r == *self,
    {
        UsbDevice {
            letter: self.letter.clone(),
            label: self.label.clone(),
            physical_drive: self.physical_drive,
            partition_number: self.partition_number,
            device_type: self.device_type,
            size_bytes: self.size_bytes,
            free_bytes: self.free_bytes,
            is_removable: self.is_removable,
            partition_style: self.partition_style,
            file_system: self.file_system.clone(),
        }
    }
}

/// Finds USB drives and works on their volumes.
pub struct UsbManager;

/// What the system tells about the space on a volume.
#[derive(Debug, Clone, Copy, PartialEq, Eq, Structural)]
pub struct RawSpace {
    /// What the user may still take.
    pub free_bytes_available: u64,
    /// The size of the volume.
    pub total_bytes: u64,
    /// What is free in all.
    pub total_free_bytes: u64,
}

/// What the system tells about the device below a volume.
#[derive(Debug, Clone, Copy, PartialEq, Eq, Structural)]
pub struct StorageDeviceNumber {
    /// The type of the device.
    pub device_type: u32,
    /// The number of the device.
    pub device_number: u32,
    /// The number of the partition.
    pub partition_number: u32,
}

/// The start of what the system tells about a disk's layout.
#[derive(Debug, Clone, Copy, PartialEq, Eq, Structural)]
pub struct DriveLayoutInformationEx {
    /// How the disk is partitioned.
    pub partition_style: u32,
    /// How many partitions there are.
    pub partition_count: u32,
}

/// The number of an MBR disk's partition style.
pub const PARTITION_STYLE_MBR: u32 = 0;

/// The number of a GPT disk's partition style.
pub const PARTITION_STYLE_GPT: u32 = 1;

/// The number that four bytes stand for, lowest byte first.
pub open spec fn little_endian(b: Seq<u8>) -> nat {
    (b[0] + 0x100 * b[1] + 0x1_0000 * b[2] + 0x100_0000 * b[3]) as nat
}

impl DriveLayoutInformationEx {
    /// Reads the start of a layout, which takes eight bytes.
    pub fn parse(bytes: &[u8]) -> (r: Option<DriveLayoutInformationEx>)
        ensures
            r is Some <==> bytes@.len() >= 8,
            r matches Some(layout) ==> layout.partition_style == little_endian(bytes@.take(4)),
            r matches Some(layout) ==> layout.partition_count == little_endian(
                bytes@.subrange(4, 8),
            ),
    {
        if bytes.len() < 8 {
            return None;
        }
        let partition_style: u32 = bytes[0] as u32 + 0x100 * bytes[1] as u32 + 0x1_0000
            * bytes[2] as u32 + 0x100_0000 * bytes[3] as u32;
        let partition_count: u32 = bytes[4] as u32 + 0x100 * bytes[5] as u32 + 0x1_0000
            * bytes[6] as u32 + 0x100_0000 * bytes[7] as u32;
        Some(DriveLayoutInformationEx { partition_style, partition_count })
    }
}

/// The root directory of a volume.
pub open spec fn root(letter: char) -> Seq<char> {
    seq![letter] + ":\\"@
}

/// The system's name of a volume.
pub open spec fn volume_name(letter: char) -> Seq<char> {
    "\\\\.\\"@ + seq![letter] + ":"@
}

/// The root directory of a volume.
fn root_string(letter: char) -> (r: String)
    ensures
        r@ == root(letter),
{
    char_string(letter).concat(":\\")
}

/// The system's name of a volume, as the system takes it.
fn volume_name_wide(letter: char) -> (r: Vec<u16>)
    ensures
        r@ == utf16z(volume_name(letter)),
{
    let name = "\\\\.\\".to_string().concat(char_string(letter).as_str()).concat(":");
    encode_z(name.as_str())
}

/// What happened while the drives are looked through.
#[derive(Debug)]
pub enum ScanEvent {
    /// The search begins.
    Begin,
    /// Whether a volume has this letter.
    RootChecked {
        /// The letter.
        letter: u8,
        /// Whether its root directory exists.
        exists: bool,
    },
    /// What type of drive the volume is on.
    TypeRead {
        /// The letter.
        letter: u8,
        /// The type.
        drive_type: u32,
    },
    /// What there is to know about the drive.
    InfoRead {
        /// The letter.
        letter: u8,
        /// The drive, or why nothing is known of it.
        info: Result<UsbDevice, BootError>,
    },
}

/// What comes next while the drives are looked through.
#[derive(Debug)]
pub enum ScanStep<S, W> {
    /// Find out whether the root directory exists.
    CheckRoot {
        /// The letter.
        letter: u8,
        /// The root directory.
        root: S,
    },
    /// Find out the type of the drive.
    ReadType {
        /// The letter.
        letter: u8,
        /// The root directory, as the system takes it.
        wide_root: W,
    },
    /// Describe the drive.
    ReadInfo {
        /// The letter.
        letter: u8,
    },
    /// The search is over.
    Finished,
}

impl View for ScanStep<String, Vec<u16>> {
    type V = ScanStep<Seq<char>, Seq<u16>>;

    open spec fn view(&self) -> ScanStep<Seq<char>, Seq<u16>> {
        match *self {
            ScanStep::CheckRoot { letter, root } => ScanStep::CheckRoot { letter, root: root@ },
            ScanStep::ReadType { letter, wide_root } => ScanStep::ReadType {
                letter,
                wide_root: wide_root@,
            },
            ScanStep::ReadInfo { letter } => ScanStep::ReadInfo { letter },
            ScanStep::Finished => ScanStep::Finished,
        }
    }
}

/// Whether a drive may be a USB drive: one with removable media, or one with
/// fixed media, whatever its size, that is not the system's, which has the letter
/// C or X.
pub open spec fn candidate(letter: u8, drive_type: u32) -> bool {
    drive_type == DRIVE_REMOVABLE || (drive_type == DRIVE_FIXED && letter as char != 'C'
        && letter as char != 'X')
}

/// Looking at the drive `letter`.
pub open spec fn look_at(letter: u8) -> ScanStep<Seq<char>, Seq<u16>> {
    ScanStep::CheckRoot { letter, root: root(letter as char) }
}

/// Going on from the drive `letter`.
pub open spec fn look_past(letter: u8) -> ScanStep<Seq<char>, Seq<u16>> {
    if letter < LAST_LETTER {
        look_at((letter + 1) as u8)
    } else {
        ScanStep::Finished
    }
}

/// What follows on `event` while the drives are looked through.
pub open spec fn scan_next(event: ScanEvent) -> ScanStep<Seq<char>, Seq<u16>> {
    match event {
        ScanEvent::Begin => look_at(FIRST_LETTER),
        ScanEvent::RootChecked { letter, exists } => if exists {
            ScanStep::ReadType { letter, wide_root: utf16z(root(letter as char)) }
        } else {
            look_past(letter)
        },
        ScanEvent::TypeRead { letter, drive_type } => if candidate(letter, drive_type) {
            ScanStep::ReadInfo { letter }
        } else {
            look_past(letter)
        },
        ScanEvent::InfoRead { letter, info } => look_past(letter),
    }
}

/// The drives that are known after `event`, where `found` were known before.
pub open spec fn scan_found(found: Seq<UsbDevice>, event: ScanEvent) -> Seq<UsbDevice> {
    match event {
        ScanEvent::InfoRead { info: Ok(device), .. } => found.push(device),
        _ => found,
    }
}

/// `s` with `d` put behind the drives whose letters come no later than its own.
pub open spec fn inserted(s: Seq<UsbDevice>, d: UsbDevice) -> Seq<UsbDevice>
    decreases s.len(),
{
    if s.len() == 0 || not_after(s.last().letter@, d.letter@) {
        s.push(d)
    } else {
        inserted(s.drop_last(), d).push(s.last())
    }
}

/// The drives `s` in the order of their letters; drives of one letter keep
/// their order.
pub open spec fn by_letter(s: Seq<UsbDevice>) -> Seq<UsbDevice>
    decreases s.len(),
{
    if s.len() == 0 {
        s
    } else {
        inserted(by_letter(s.drop_last()), s.last())
    }
}

/// Where a drive is put is settled by its neighbours.
proof fn inserted_at(s: Seq<UsbDevice>, d: UsbDevice, i: int)
    requires
        0 <= i <= s.len(),
        i > 0 ==> not_after(s[i - 1].letter@, d.letter@),
        forall|j: int| i <= j < s.len() ==> !not_after((#[trigger] s[j]).letter@, d.letter@),
    ensures
        inserted(s, d) == s.insert(i, d),
    decreases s.len(),
{
    if i == s.len() {
        assert(s.insert(i, d) =~= s.push(d));
    } else {
        inserted_at(s.drop_last(), d, i);
        assert(s.insert(i, d) =~= s.drop_last().insert(i, d).push(s.last()));
    }
}

/// Orders drives by their letters.
fn sort_by_letter(devices: Vec<UsbDevice>) -> (r: Vec<UsbDevice>)
    ensures
        r@ == by_letter(devices@),
{
    let ghost all = devices@;
    let mut rest = devices;
    let mut out: Vec<UsbDevice> = Vec::new();
    assert(all.take(0) =~= Seq::empty());
    assert(all.skip(0) =~= all);
    while rest.len() > 0
        invariant
            rest@.len() <= all.len(),
            rest@ == all.skip(all.len() - rest@.len()),
            out@ == by_letter(all.take(all.len() - rest@.len())),
        decreases rest@.len(),
    {
        let ghost k = all.len() - rest@.len();
        let d = rest.remove(0);
        let mut i: usize = out.len();
        while i > 0 && !comes_not_after(out[i - 1].letter.as_str(), d.letter.as_str())
            invariant
                i <= out@.len(),
                forall|j: int|
                    i <= j < out@.len() ==> !not_after((#[trigger] out@[j]).letter@, d.letter@),
            decreases i,
        {
            i = i - 1;
        }
        proof {
            inserted_at(out@, d, i as int);
            assert(all.take(k + 1).drop_last() =~= all.take(k));
            assert(all.take(k + 1).last() == d);
            assert(rest@ =~= all.skip(k + 1));
        }
        out.insert(i, d);
    }
    assert(all.take(all.len() as int) =~= all);
    out
}

/// What happened while the space on a volume is found out.
#[derive(Debug)]
pub enum SpaceEvent {
    /// The operation begins.
    Begin,
    /// The system's answer.
    Replied(Result<RawSpace, String>),
}

/// What comes next while the space on a volume is found out.
#[derive(Debug)]
pub enum SpaceStep<W, E> {
    /// Ask the system about the volume with this root directory.
    Query(W),
    /// The operation is over: the size and the free space, in bytes.
    Finished(Result<(u64, u64), E>),
}

/// What follows on `event` while the space on a volume is found out.
pub open spec fn space_next(letter: char, event: SpaceEvent) -> SpaceStep<Seq<u16>, Seq<char>> {
    match event {
        SpaceEvent::Begin => SpaceStep::Query(utf16z(root(letter))),
        SpaceEvent::Replied(Ok(space)) => SpaceStep::Finished(
            Ok((space.total_bytes, space.free_bytes_available)),
        ),
        SpaceEvent::Replied(Err(e)) => SpaceStep::Finished(Err(e@)),
    }
}

impl View for SpaceStep<Vec<u16>, BootError> {
    type V = SpaceStep<Seq<u16>, Seq<char>>;

    open spec fn view(&self) -> SpaceStep<Seq<u16>, Seq<char>> {
        match *self {
            SpaceStep::Query(p) => SpaceStep::Query(p@),
            SpaceStep::Finished(Ok(s)) => SpaceStep::Finished(Ok(s)),
            SpaceStep::Finished(Err(e)) => SpaceStep::Finished(Err(e@)),
        }
    }
}

/// What happened while the device below a volume is found out.
#[derive(Debug)]
pub enum NumberEvent {
    /// The operation begins.
    Begin,
    /// Whether the volume could be opened.
    Opened(bool),
    /// The system's answer, if it gave one.
    Queried(Option<StorageDeviceNumber>),
}

/// What comes next while the device below a volume is found out.
#[derive(Debug)]
pub enum NumberStep<W> {
    /// Open the volume of this name, without reading or writing.
    Open(W),
    /// Ask the system.
    Query,
    /// Close the volume; then the operation is over.
    Close {
        /// The type and number of the device, and the number of the partition.
        then: (u32, u32, u32),
    },
    /// The operation is over.
    Finished((u32, u32, u32)),
}

impl View for NumberStep<Vec<u16>> {
    type V = NumberStep<Seq<u16>>;

    open spec fn view(&self) -> NumberStep<Seq<u16>> {
        match *self {
            NumberStep::Open(p) => NumberStep::Open(p@),
            NumberStep::Query => NumberStep::Query,
            NumberStep::Close { then } => NumberStep::Close { then },
            NumberStep::Finished(n) => NumberStep::Finished(n),
        }
    }
}

/// What follows on `event` while the device below a volume is found out. Where
/// the system gives no answer, all numbers are zero.
pub open spec fn number_next(letter: char, event: NumberEvent) -> NumberStep<Seq<u16>> {
    match event {
        NumberEvent::Begin => NumberStep::Open(utf16z(volume_name(letter))),
        NumberEvent::Opened(true) => NumberStep::Query,
        NumberEvent::Opened(false) => NumberStep::Finished((0, 0, 0)),
        NumberEvent::Queried(Some(n)) => NumberStep::Close {
            then: (n.device_type, n.device_number, n.partition_number),
        },
        NumberEvent::Queried(None) => NumberStep::Close { then: (0, 0, 0) },
    }
}

/// What happened while a disk's partition style is found out.
#[derive(Debug)]
pub enum StyleEvent {
    /// The operation begins.
    Begin,
    /// Whether the disk could be opened.
    Opened(bool),
    /// The system's answer.
    Queried {
        /// Whether the system answered.
        ok: bool,
        /// What it put into the buffer.
        buffer: Vec<u8>,
        /// How many bytes it put there.
        bytes_returned: u32,
    },
}

/// What comes next while a disk's partition style is found out.
#[derive(Debug)]
pub enum StyleStep<W> {
    /// Open the disk of this name, without reading or writing.
    Open(W),
    /// Ask the system, with a buffer of this many bytes.
    Query {
        /// The size of the buffer.
        buffer_len: usize,
    },
    /// Close the disk; then the operation is over.
    Close {
        /// The partition style.
        then: PartitionStyle,
    },
    /// The operation is over.
    Finished(PartitionStyle),
}

impl View for StyleStep<Vec<u16>> {
    type V = StyleStep<Seq<u16>>;

    open spec fn view(&self) -> StyleStep<Seq<u16>> {
        match *self {
            StyleStep::Open(p) => StyleStep::Open(p@),
            StyleStep::Query { buffer_len } => StyleStep::Query { buffer_len },
            StyleStep::Close { then } => StyleStep::Close { then },
            StyleStep::Finished(s) => StyleStep::Finished(s),
        }
    }
}

/// The partition style that a layout tells of, if it was told at all.
pub open spec fn layout_style(ok: bool, buffer: Seq<u8>, bytes_returned: u32) -> PartitionStyle {
    if !ok || bytes_returned < 8 || buffer.len() < 8 {
        PartitionStyle::Unknown
    } else if little_endian(buffer.take(4)) == PARTITION_STYLE_MBR {
        PartitionStyle::MBR
    } else if little_endian(buffer.take(4)) == PARTITION_STYLE_GPT {
        PartitionStyle::GPT
    } else {
        PartitionStyle::Unknown
    }
}

/// What follows on `event` while a disk's partition style is found out. Nothing
/// is asked about disk zero.
pub open spec fn style_next(disk_number: u32, event: StyleEvent) -> StyleStep<Seq<u16>> {
    if disk_number == 0 {
        StyleStep::Finished(PartitionStyle::Unknown)
    } else {
        match event {
            StyleEvent::Begin => StyleStep::Open(utf16z(drive_name(disk_number))),
            StyleEvent::Opened(true) => StyleStep::Query { buffer_len: LAYOUT_BUFFER },
            StyleEvent::Opened(false) => StyleStep::Finished(PartitionStyle::Unknown),
            StyleEvent::Queried { ok, buffer, bytes_returned } => StyleStep::Close {
                then: layout_style(ok, buffer@, bytes_returned),
            },
        }
    }
}

/// What happened while a disk is opened.
#[derive(Debug)]
pub enum DriveEvent {
    /// The operation begins.
    Begin,
    /// The disk is open.
    Opened,
    /// The system gave no handle.
    InvalidHandle,
    /// The system gave an error, described here.
    Failed(String),
}

/// What comes next while a disk is opened.
#[derive(Debug)]
pub enum DriveStep<W, E> {
    /// Open the disk.
    Open {
        /// Its name.
        name: W,
        /// Whether to open it for reading and writing, and not just for asking.
        write_access: bool,
    },
    /// The operation is over. Where it went well, the handle is the caller's.
    Finished(Result<(), E>),
}

impl View for DriveStep<Vec<u16>, BootError> {
    type V = DriveStep<Seq<u16>, Seq<char>>;

    open spec fn view(&self) -> DriveStep<Seq<u16>, Seq<char>> {
        match *self {
            DriveStep::Open { name, write_access } => DriveStep::Open { name: name@, write_access },
            DriveStep::Finished(r) => DriveStep::Finished(outcome(r)),
        }
    }
}

/// What follows on `event` while a disk is opened.
pub open spec fn drive_next(disk_number: u32, write_access: bool, event: DriveEvent) -> DriveStep<
    Seq<u16>,
    Seq<char>,
> {
    match event {
        DriveEvent::Begin => DriveStep::Open {
            name: utf16z(drive_name(disk_number)),
            write_access,
        },
        DriveEvent::Opened => DriveStep::Finished(Ok(())),
        DriveEvent::InvalidHandle => DriveStep::Finished(
            Err("无法打开物理磁盘 "@ + decimal(disk_number as nat)),
        ),
        DriveEvent::Failed(e) => DriveStep::Finished(Err("打开物理磁盘失败: "@ + e@)),
    }
}

/// The commands that a volume takes.
#[derive(Debug, Clone, Copy, PartialEq, Eq, Structural)]
pub enum VolumeControl {
    /// Dismount the volume.
    Dismount,
    /// Lock the volume.
    Lock,
    /// Unlock the volume.
    Unlock,
    /// Eject the medium.
    EjectMedia,
}

/// What comes next in an operation on a volume.
#[derive(Debug)]
pub enum VolumeStep<W, E> {
    /// Open the volume of this name for reading and writing.
    Open(W),
    /// Give the volume this command.
    Control(VolumeControl),
    /// Close the volume; then the operation is over.
    Close {
        /// How it went.
        then: Result<(), E>,
    },
    /// The operation is over.
    Finished(Result<(), E>),
}

impl View for VolumeStep<Vec<u16>, BootError> {
    type V = VolumeStep<Seq<u16>, Seq<char>>;

    open spec fn view(&self) -> VolumeStep<Seq<u16>, Seq<char>> {
        match *self {
            VolumeStep::Open(p) => VolumeStep::Open(p@),
            VolumeStep::Control(c) => VolumeStep::Control(c),
            VolumeStep::Close { then } => VolumeStep::Close { then: outcome(then) },
            VolumeStep::Finished(r) => VolumeStep::Finished(outcome(r)),
        }
    }
}

/// What happened while a volume is locked.
#[derive(Debug, Clone, Copy, PartialEq, Eq, Structural)]
pub enum LockEvent {
    /// The operation begins.
    Begin,
    /// Whether the volume could be opened.
    Opened(bool),
    /// Whether the volume could be dismounted.
    Dismounted(bool),
    /// Whether the volume could be locked.
    Locked(bool),
}

/// What happened in an operation that gives a volume one command.
#[derive(Debug, Clone, Copy, PartialEq, Eq, Structural)]
pub enum ControlEvent {
    /// The operation begins.
    Begin,
    /// Whether the volume could be opened.
    Opened(bool),
    /// Whether the volume took the command.
    Controlled(bool),
}

/// What follows on `event` while a volume is locked. The volume is dismounted
/// first, whether or not that works.
pub open spec fn lock_next(letter: char, event: LockEvent) -> VolumeStep<Seq<u16>, Seq<char>> {
    match event {
        LockEvent::Begin => VolumeStep::Open(utf16z(volume_name(letter))),
        LockEvent::Opened(true) => VolumeStep::Control(VolumeControl::Dismount),
        LockEvent::Opened(false) => VolumeStep::Finished(
            Err("无法打开卷 "@ + seq![letter] + ": 进行锁定"@),
        ),
        LockEvent::Dismounted(_) => VolumeStep::Control(VolumeControl::Lock),
        LockEvent::Locked(locked) => VolumeStep::Close {
            then: if locked {
                Ok(())
            } else {
                Err("锁定卷 "@ + seq![letter] + ": 失败，请确保没有其他程序正在使用该磁盘"@)
            },
        },
    }
}

/// What follows on `event` while a volume is unlocked.
pub open spec fn unlock_next(letter: char, event: ControlEvent) -> VolumeStep<
    Seq<u16>,
    Seq<char>,
> {
    match event {
        ControlEvent::Begin => VolumeStep::Open(utf16z(volume_name(letter))),
        ControlEvent::Opened(true) => VolumeStep::Control(VolumeControl::Unlock),
        ControlEvent::Opened(false) => VolumeStep::Finished(Ok(())),
        ControlEvent::Controlled(_) => VolumeStep::Close { then: Ok(()) },
    }
}

/// What follows on `event` while a drive is ejected.
pub open spec fn eject_next(letter: char, event: ControlEvent) -> VolumeStep<
    Seq<u16>,
    Seq<char>,
> {
    match event {
        ControlEvent::Begin => VolumeStep::Open(utf16z(volume_name(letter))),
        ControlEvent::Opened(true) => VolumeStep::Control(VolumeControl::EjectMedia),
        ControlEvent::Opened(false) => VolumeStep::Finished(
            Err("无法打开设备 "@ + seq![letter] + ": 进行弹出"@),
        ),
        ControlEvent::Controlled(ejected) => VolumeStep::Close {
            then: if ejected {
                Ok(())
            } else {
                Err("弹出设备 "@ + seq![letter] + ": 失败"@)
            },
        },
    }
}

/// What has been found out about a drive so far.
#[derive(Debug)]
pub struct DriveAnswers {
    /// The buffer for the volume's label.
    pub name: Vec<u16>,
    /// The buffer for the name of the volume's file system.
    pub file_system: Vec<u16>,
    /// The size of the volume and its free space.
    pub space: (u64, u64),
    /// The type and number of the device, and the number of the partition.
    pub number: (u32, u32, u32),
}

/// What has been found out about a drive so far, with its buffers' contents.
pub struct DriveAnswersView {
    /// The buffer for the volume's label.
    pub name: Seq<u16>,
    /// The buffer for the name of the volume's file system.
    pub file_system: Seq<u16>,
    /// The size of the volume and its free space.
    pub space: (u64, u64),
    /// The type and number of the device, and the number of the partition.
    pub number: (u32, u32, u32),
}

impl View for DriveAnswers {
    type V = DriveAnswersView;

    open spec fn view(&self) -> DriveAnswersView {
        DriveAnswersView {
            name: self.name@,
            file_system: self.file_system@,
            space: self.space,
            number: self.number,
        }
    }
}

impl DriveAnswers {
    /// What is known of a drive before anything was asked.
    pub fn new() -> (r: Self)
        ensures
            r@ == nothing_known(),
    {
        DriveAnswers {
            name: Vec::new(),
            file_system: Vec::new(),
            space: (0, 0),
            number: (0, 0, 0),
        }
    }
}

/// What is known of a drive before anything was asked.
pub open spec fn nothing_known() -> DriveAnswersView {
    DriveAnswersView {
        name: Seq::empty(),
        file_system: Seq::empty(),
        space: (0, 0),
        number: (0, 0, 0),
    }
}

/// What happened while a drive is described.
#[derive(Debug)]
pub enum InfoEvent {
    /// The operation begins.
    Begin,
    /// What the system put into the buffers for the label and the file system.
    VolumeRead {
        /// The buffer for the label.
        name: Vec<u16>,
        /// The buffer for the name of the file system.
        file_system: Vec<u16>,
    },
    /// The size of the volume and its free space, or why they are not known.
    SpaceRead(Result<(u64, u64), BootError>),
    /// The type and number of the device, and the number of the partition.
    NumberRead((u32, u32, u32)),
    /// The partition style of the disk.
    StyleRead(PartitionStyle),
}

/// What comes next while a drive is described.
#[derive(Debug)]
pub enum InfoStep<W, D, E> {
    /// Ask for the label and the file system of the volume.
    ReadVolume {
        /// The root directory of the volume.
        wide_root: W,
        /// How many units each buffer has; all of them are zero before.
        buffer_len: usize,
    },
    /// Find out the size of the volume and its free space.
    ReadSpace,
    /// Find out the device below the volume.
    ReadNumber,
    /// Find out how the disk is partitioned.
    ReadStyle {
        /// The number of the disk.
        disk_number: u32,
    },
    /// The operation is over.
    Finished(Result<D, E>),
}

impl View for InfoStep<Vec<u16>, UsbDevice, BootError> {
    type V = InfoStep<Seq<u16>, UsbDeviceView, Seq<char>>;

    open spec fn view(&self) -> InfoStep<Seq<u16>, UsbDeviceView, Seq<char>> {
        match *self {
            InfoStep::ReadVolume { wide_root, buffer_len } => InfoStep::ReadVolume {
                wide_root: wide_root@,
                buffer_len,
            },
            InfoStep::ReadSpace => InfoStep::ReadSpace,
            InfoStep::ReadNumber => InfoStep::ReadNumber,
            InfoStep::ReadStyle { disk_number } => InfoStep::ReadStyle { disk_number },
            InfoStep::Finished(Ok(device)) => InfoStep::Finished(Ok(device@)),
            InfoStep::Finished(Err(e)) => InfoStep::Finished(Err(e@)),
        }
    }
}

/// The drive `letter`, as the system's answers describe it.
pub open spec fn described(
    letter: char,
    known: DriveAnswersView,
    style: PartitionStyle,
) -> UsbDeviceView {
    UsbDeviceView {
        letter: drive_colon(letter),
        label: trimmed_end(decoded(known.name), '\0'),
        physical_drive: known.number.1,
        partition_number: known.number.2,
        device_type: known.number.0,
        size_bytes: known.space.0,
        free_bytes: known.space.1,
        is_removable: known.number.0 == 1,
        partition_style: style,
        file_system: trimmed_end(decoded(known.file_system), '\0'),
    }
}

/// What is known of a drive after `event`, where `known` was known before.
pub open spec fn info_known(known: DriveAnswersView, event: InfoEvent) -> DriveAnswersView {
    match event {
        InfoEvent::Begin => nothing_known(),
        InfoEvent::VolumeRead { name, file_system } => DriveAnswersView {
            name: name@,
            file_system: file_system@,
            ..known
        },
        InfoEvent::SpaceRead(Ok(space)) => DriveAnswersView { space, ..known },
        InfoEvent::NumberRead(number) => DriveAnswersView { number, ..known },
        _ => known,
    }
}

/// What follows on `event` while the drive `letter` is described, where `known`
/// was known before. Without its size, a drive is not described.
pub open spec fn info_next(letter: char, known: DriveAnswersView, event: InfoEvent) -> InfoStep<
    Seq<u16>,
    UsbDeviceView,
    Seq<char>,
> {
    match event {
        InfoEvent::Begin => InfoStep::ReadVolume {
            wide_root: utf16z(root(letter)),
            buffer_len: VOLUME_BUFFER,
        },
        InfoEvent::VolumeRead { .. } => InfoStep::ReadSpace,
        InfoEvent::SpaceRead(Ok(_)) => InfoStep::ReadNumber,
        InfoEvent::SpaceRead(Err(e)) => InfoStep::Finished(Err(e@)),
        InfoEvent::NumberRead(number) => InfoStep::ReadStyle { disk_number: number.1 },
        InfoEvent::StyleRead(style) => InfoStep::Finished(Ok(described(letter, known, style))),
    }
}

/// The line that describes a drive to the user.
pub open spec fn device_line(device: UsbDeviceView) -> Seq<char> {
    device.letter + " ["@ + device.label + "] "@ + gib_text(device.size_bytes as nat) + " GB "@
        + device.file_system + " ("@ + (if device.is_removable {
        "可移动磁盘"@
    } else {
        "固定磁盘"@
    }) + ") "@ + device.partition_style.name()
}

impl UsbManager {
    /// Looks through the drives from C to Z for USB drives. `found` are those
    /// found so far; when the search is over, they come back in the order of their
    /// letters.
    pub fn get_usb_devices(found: Vec<UsbDevice>, event: ScanEvent) -> (r: (
        Vec<UsbDevice>,
        ScanStep<String, Vec<u16>>,
    ))
        ensures
            r.1@ == scan_next(event),
            r.0@ == (if scan_next(event) is Finished {
                by_letter(scan_found(found@, event))
            } else {
                scan_found(found@, event)
            }),
    {
        match event {
            ScanEvent::Begin => (found, Self::look_at_drive(FIRST_LETTER)),
            ScanEvent::RootChecked { letter, exists } => if exists {
                let wide_root = encode_z(root_string(letter as char).as_str());
                (found, ScanStep::ReadType { letter, wide_root })
            } else {
                Self::look_past_drive(found, letter)
            },
            ScanEvent::TypeRead { letter, drive_type } => if Self::may_be_usb(letter, drive_type) {
                (found, ScanStep::ReadInfo { letter })
            } else {
                Self::look_past_drive(found, letter)
            },
            ScanEvent::InfoRead { letter, info } => {
                let mut found = found;
                if let Ok(device) = info {
                    found.push(device);
                }
                Self::look_past_drive(found, letter)
            },
        }
    }

    /// Looking at the drive `letter`.
    fn look_at_drive(letter: u8) -> (r: ScanStep<String, Vec<u16>>)
        ensures
            r@ == look_at(letter),
    {
        ScanStep::CheckRoot { letter, root: root_string(letter as char) }
    }

    /// Going on from the drive `letter`.
    fn look_past_drive(found: Vec<UsbDevice>, letter: u8) -> (r: (
        Vec<UsbDevice>,
        ScanStep<String, Vec<u16>>,
    ))
        ensures
            r.1@ == look_past(letter),
            r.0@ == (if look_past(letter) is Finished {
                by_letter(found@)
            } else {
                found@
            }),
    {
        if letter < LAST_LETTER {
            (found, Self::look_at_drive(letter + 1))
        } else {
            (sort_by_letter(found), ScanStep::Finished)
        }
    }

    /// Whether a drive may be a USB drive.
    pub fn may_be_usb(letter: u8, drive_type: u32) -> (r: bool)
        ensures
            r == candidate(letter, drive_type),
    {
        let c = letter as char;
        drive_type == DRIVE_REMOVABLE || (drive_type == DRIVE_FIXED && c != 'C' && c != 'X')
    }

    /// Describes the drive `letter`. `known` is what has been found out so far.
    pub fn get_device_info(letter: char, known: DriveAnswers, event: InfoEvent) -> (r: (
        DriveAnswers,
        InfoStep<Vec<u16>, UsbDevice, BootError>,
    ))
        ensures
            r.0@ == info_known(known@, event),
            r.1@ == info_next(letter, known@, event),
    {
        match event {
            InfoEvent::Begin => {
                let wide_root = encode_z(root_string(letter).as_str());
                let step = InfoStep::ReadVolume { wide_root, buffer_len: VOLUME_BUFFER };
                (DriveAnswers::new(), step)
            },
            InfoEvent::VolumeRead { name, file_system } => {
                let known = DriveAnswers {
                    name,
                    file_system,
                    space: known.space,
                    number: known.number,
                };
                (known, InfoStep::ReadSpace)
            },
            InfoEvent::SpaceRead(Ok(space)) => {
                let mut known = known;
                known.space = space;
                (known, InfoStep::ReadNumber)
            },
            InfoEvent::SpaceRead(Err(e)) => (known, InfoStep::Finished(Err(e))),
            InfoEvent::NumberRead(number) => {
                let mut known = known;
                known.number = number;
                (known, InfoStep::ReadStyle { disk_number: number.1 })
            },
            InfoEvent::StyleRead(style) => {
                let device = UsbDevice {
                    letter: drive_colon_string(letter),
                    label: trim_end(decode(&known.name).as_str(), '\0'),
                    physical_drive: known.number.1,
                    partition_number: known.number.2,
                    device_type: known.number.0,
                    size_bytes: known.space.0,
                    free_bytes: known.space.1,
                    is_removable: known.number.0 == 1,
                    partition_style: style,
                    file_system: trim_end(decode(&known.file_system).as_str(), '\0'),
                };
                (known, InfoStep::Finished(Ok(device)))
            },
        }
    }

    /// Finds out the size of a volume and its free space.
    pub fn get_disk_space(letter: char, event: SpaceEvent) -> (r: SpaceStep<Vec<u16>, BootError>)
        ensures
            r@ == space_next(letter, event),
    {
        match event {
            SpaceEvent::Begin => SpaceStep::Query(encode_z(root_string(letter).as_str())),
            SpaceEvent::Replied(Ok(space)) => SpaceStep::Finished(
                Ok((space.total_bytes, space.free_bytes_available)),
            ),
            SpaceEvent::Replied(Err(e)) => SpaceStep::Finished(Err(BootError::from_message(e))),
        }
    }

    /// The size of a volume, out of its size and free space.
    pub fn get_disk_size(space: Result<(u64, u64), BootError>) -> (r: Result<u64, BootError>)
        ensures
            match space {
                Ok(s) => r == Ok::<u64, BootError>(s.0),
                Err(e) => r == Err::<u64, BootError>(e),
            },
    {
        match space {
            Ok((total, _)) => Ok(total),
            Err(e) => Err(e),
        }
    }

    /// Finds out the device below a volume.
    pub fn get_storage_device_number(letter: char, event: NumberEvent) -> (r: NumberStep<Vec<u16>>)
        ensures
            r@ == number_next(letter, event),
    {
        match event {
            NumberEvent::Begin => NumberStep::Open(volume_name_wide(letter)),
            NumberEvent::Opened(opened) => if opened {
                NumberStep::Query
            } else {
                NumberStep::Finished((0, 0, 0))
            },
            NumberEvent::Queried(Some(n)) => NumberStep::Close {
                then: (n.device_type, n.device_number, n.partition_number),
            },
            NumberEvent::Queried(None) => NumberStep::Close { then: (0, 0, 0) },
        }
    }

    /// Finds out how a disk is partitioned.
    pub fn get_partition_style(disk_number: u32, event: StyleEvent) -> (r: StyleStep<Vec<u16>>)
        ensures
            r@ == style_next(disk_number, event),
    {
        if disk_number == 0 {
            return StyleStep::Finished(PartitionStyle::Unknown);
        }
        match event {
            StyleEvent::Begin => StyleStep::Open(
                encode_z(drive_name_string(disk_number).as_str()),
            ),
            StyleEvent::Opened(opened) => if opened {
                StyleStep::Query { buffer_len: LAYOUT_BUFFER }
            } else {
                StyleStep::Finished(PartitionStyle::Unknown)
            },
            StyleEvent::Queried { ok, buffer, bytes_returned } => {
                let mut then = PartitionStyle::Unknown;
                if ok && bytes_returned >= 8 {
                    if let Some(layout) = DriveLayoutInformationEx::parse(&buffer) {
                        if layout.partition_style == PARTITION_STYLE_MBR {
                            then = PartitionStyle::MBR;
                        } else if layout.partition_style == PARTITION_STYLE_GPT {
                            then = PartitionStyle::GPT;
                        }
                    }
                }
                StyleStep::Close { then }
            },
        }
    }

    /// Opens a whole disk.
    pub fn open_physical_drive(disk_number: u32, write_access: bool, event: DriveEvent) -> (r:
        DriveStep<Vec<u16>, BootError>)
        ensures
            r@ == drive_next(disk_number, write_access, event),
    {
        match event {
            DriveEvent::Begin => DriveStep::Open {
                name: encode_z(drive_name_string(disk_number).as_str()),
                write_access,
            },
            DriveEvent::Opened => DriveStep::Finished(Ok(())),
            DriveEvent::InvalidHandle => DriveStep::Finished(
                Err(
                    BootError::from_message(
                        "无法打开物理磁盘 ".to_string().concat(
                            decimal_string(disk_number as u64).as_str(),
                        ),
                    ),
                ),
            ),
            DriveEvent::Failed(e) => DriveStep::Finished(
                Err(
                    BootError::from_message(
                        "打开物理磁盘失败: ".to_string().concat(e.as_str()),
                    ),
                ),
            ),
        }
    }

    /// Locks a volume, which has to be done before its disk is written. The volume is closed
    /// again at once, so that the tools that clean and format it can open it. How long the
    /// lock lasts from then on is up to the system, and is not stated.
    pub fn lock_volume(letter: char, event: LockEvent) -> (r: VolumeStep<Vec<u16>, BootError>)
        ensures
            r@ == lock_next(letter, event),
    {
        match event {
            LockEvent::Begin => VolumeStep::Open(volume_name_wide(letter)),
            LockEvent::Opened(opened) => if opened {
                VolumeStep::Control(VolumeControl::Dismount)
            } else {
                let message = "无法打开卷 ".to_string().concat(char_string(letter).as_str()).concat(
                    ": 进行锁定",
                );
                VolumeStep::Finished(Err(BootError::from_message(message)))
            },
            LockEvent::Dismounted(_) => VolumeStep::Control(VolumeControl::Lock),
            LockEvent::Locked(locked) => if locked {
                VolumeStep::Close { then: Ok(()) }
            } else {
                let message = "锁定卷 ".to_string().concat(char_string(letter).as_str()).concat(
                    ": 失败，请确保没有其他程序正在使用该磁盘",
                );
                VolumeStep::Close { then: Err(BootError::from_message(message)) }
            },
        }
    }

    /// Unlocks a volume. That it cannot be unlocked is no error.
    pub fn unlock_volume(letter: char, event: ControlEvent) -> (r: VolumeStep<Vec<u16>, BootError>)
        ensures
            r@ == unlock_next(letter, event),
    {
        match event {
            ControlEvent::Begin => VolumeStep::Open(volume_name_wide(letter)),
            ControlEvent::Opened(opened) => if opened {
                VolumeStep::Control(VolumeControl::Unlock)
            } else {
                VolumeStep::Finished(Ok(()))
            },
            ControlEvent::Controlled(_) => VolumeStep::Close { then: Ok(()) },
        }
    }

    /// The line that describes a drive to the user.
    pub fn format_device_info(device: &UsbDevice) -> (r: String)
        ensures
            r@ == device_line(device@),
    {
        let kind = if device.is_removable {
            "可移动磁盘".to_string()
        } else {
            "固定磁盘".to_string()
        };
        device.letter.clone().concat(" [").concat(device.label.as_str()).concat("] ").concat(
            gib_string(device.size_bytes).as_str(),
        ).concat(" GB ").concat(device.file_system.as_str()).concat(" (").concat(
            kind.as_str(),
        ).concat(") ").concat(device.partition_style.to_string().as_str())
    }

    /// Ejects a drive.
    pub fn eject_device(letter: char, event: ControlEvent) -> (r: VolumeStep<Vec<u16>, BootError>)
        ensures
            r@ == eject_next(letter, event),
    {
        match event {
            ControlEvent::Begin => VolumeStep::Open(volume_name_wide(letter)),
            ControlEvent::Opened(opened) => if opened {
                VolumeStep::Control(VolumeControl::EjectMedia)
            } else {
                let message = "无法打开设备 ".to_string().concat(char_string(letter).as_str()).concat(
                    ": 进行弹出",
                );
                VolumeStep::Finished(Err(BootError::from_message(message)))
            },
            ControlEvent::Controlled(ejected) => if ejected {
                VolumeStep::Close { then: Ok(()) }
            } else {
                let message = "弹出设备 ".to_string().concat(char_string(letter).as_str()).concat(
                    ": 失败",
                );
                VolumeStep::Close { then: Err(BootError::from_message(message)) }
            },
        }
    }
}

} // verus!
