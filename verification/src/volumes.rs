//! What whole operations on a volume come to: locking, unlocking and ejecting it,
//! and finding out about its drive.

use vstd::prelude::*;
use crate::disk::PartitionStyle;
use crate::error::BootError;
use crate::usb::{
    described, eject_next, info_known, info_next, layout_style, lock_next, nothing_known,
    number_next, style_next, unlock_next, ControlEvent, DriveAnswersView, InfoEvent, InfoStep,
    LockEvent, NumberEvent, NumberStep, StorageDeviceNumber, StyleEvent, StyleStep, UsbDeviceView,
    VolumeControl, VolumeStep,
};
use crate::utf16::{buffer_gives_text_back, utf16};

verus! {

/// A step of an operation on a volume, as the contracts speak of it.
pub type OnVolume = VolumeStep<Seq<u16>, Seq<char>>;

/// Whether an operation on a volume ends well with `step`.
pub open spec fn ends_well(step: OnVolume) -> bool {
    match step {
        VolumeStep::Close { then } => then is Ok,
        VolumeStep::Finished(r) => r is Ok,
        _ => false,
    }
}

/// How much of the locking is ahead.
pub open spec fn lock_ahead(event: LockEvent) -> int {
    match event {
        LockEvent::Begin => 3,
        LockEvent::Opened(_) => 2,
        LockEvent::Dismounted(_) => 1,
        LockEvent::Locked(_) => 0,
    }
}

/// The steps of locking a volume from `event` on, where the replies to opening,
/// dismounting and locking are as given.
pub open spec fn lock_from(
    letter: char,
    opened: bool,
    dismounted: bool,
    locked: bool,
    event: LockEvent,
) -> Seq<OnVolume>
    decreases lock_ahead(event),
{
    let step = lock_next(letter, event);
    match step {
        VolumeStep::Open(_) => seq![step] + lock_from(
            letter,
            opened,
            dismounted,
            locked,
            LockEvent::Opened(opened),
        ),
        VolumeStep::Control(VolumeControl::Dismount) => seq![step] + lock_from(
            letter,
            opened,
            dismounted,
            locked,
            LockEvent::Dismounted(dismounted),
        ),
        VolumeStep::Control(_) => seq![step] + lock_from(
            letter,
            opened,
            dismounted,
            locked,
            LockEvent::Locked(locked),
        ),
        _ => seq![step],
    }
}

/// A volume is locked exactly if it can be opened and takes the lock, whether or not it
/// could be dismounted. It is dismounted before it is locked, and it is closed in the
/// end exactly if it was opened.
pub proof fn locked_exactly_if_opened_and_locked(
    letter: char,
    opened: bool,
    dismounted: bool,
    locked: bool,
)
    ensures
        ({
            let steps = lock_from(letter, opened, dismounted, locked, LockEvent::Begin);
            &&& ends_well(steps.last()) <==> opened && locked
            &&& steps.last() is Close <==> opened
            &&& opened ==> steps.len() == 4 && steps[1] == OnVolume::Control(VolumeControl::Dismount)
                && steps[2] == OnVolume::Control(VolumeControl::Lock)
            &&& !opened ==> steps.len() == 2
        }),
{
    reveal_with_fuel(lock_from, 4);
}

/// How much of an operation with one command is ahead.
pub open spec fn control_ahead(event: ControlEvent) -> int {
    match event {
        ControlEvent::Begin => 2,
        ControlEvent::Opened(_) => 1,
        ControlEvent::Controlled(_) => 0,
    }
}

/// The steps of unlocking a volume from `event` on, where the replies to opening
/// and unlocking are as given.
pub open spec fn unlock_from(
    letter: char,
    opened: bool,
    unlocked: bool,
    event: ControlEvent,
) -> Seq<OnVolume>
    decreases control_ahead(event),
{
    let step = unlock_next(letter, event);
    match step {
        VolumeStep::Open(_) => seq![step] + unlock_from(
            letter,
            opened,
            unlocked,
            ControlEvent::Opened(opened),
        ),
        VolumeStep::Control(_) => seq![step] + unlock_from(
            letter,
            opened,
            unlocked,
            ControlEvent::Controlled(unlocked),
        ),
        _ => seq![step],
    }
}

/// Unlocking a volume never fails. The volume is closed in the end exactly if it
/// was opened.
pub proof fn unlocking_never_fails(letter: char, opened: bool, unlocked: bool)
    ensures
        ({
            let steps = unlock_from(letter, opened, unlocked, ControlEvent::Begin);
            &&& ends_well(steps.last())
            &&& steps.last() is Close <==> opened
            &&& opened ==> steps.len() == 3 && steps[1] == OnVolume::Control(VolumeControl::Unlock)
            &&& !opened ==> steps.len() == 2
        }),
{
    reveal_with_fuel(unlock_from, 3);
}

/// The steps of ejecting a drive from `event` on, where the replies to opening and
/// ejecting are as given.
pub open spec fn eject_from(
    letter: char,
    opened: bool,
    ejected: bool,
    event: ControlEvent,
) -> Seq<OnVolume>
    decreases control_ahead(event),
{
    let step = eject_next(letter, event);
    match step {
        VolumeStep::Open(_) => seq![step] + eject_from(
            letter,
            opened,
            ejected,
            ControlEvent::Opened(opened),
        ),
        VolumeStep::Control(_) => seq![step] + eject_from(
            letter,
            opened,
            ejected,
            ControlEvent::Controlled(ejected),
        ),
        _ => seq![step],
    }
}

/// A drive is ejected exactly if its volume can be opened and takes the command. The
/// volume is closed in the end exactly if it was opened.
pub proof fn ejected_exactly_if_opened_and_ejected(letter: char, opened: bool, ejected: bool)
    ensures
        ({
            let steps = eject_from(letter, opened, ejected, ControlEvent::Begin);
            &&& ends_well(steps.last()) <==> opened && ejected
            &&& steps.last() is Close <==> opened
            &&& opened ==> steps.len() == 3 && steps[1] == OnVolume::Control(VolumeControl::EjectMedia)
            &&& !opened ==> steps.len() == 2
        }),
{
    reveal_with_fuel(eject_from, 3);
}

/// What the system answers about a drive.
pub struct DriveReplies {
    /// The buffers for the label and the name of the file system.
    pub volume: (Vec<u16>, Vec<u16>),
    /// The size and the free space, or why they are not known.
    pub space: Result<(u64, u64), BootError>,
    /// The type and number of the device, and the number of the partition.
    pub number: (u32, u32, u32),
    /// The partition style of each disk.
    pub style: spec_fn(u32) -> PartitionStyle,
}

/// How much of the description of a drive is ahead.
pub open spec fn info_ahead(event: InfoEvent) -> int {
    match event {
        InfoEvent::Begin => 4,
        InfoEvent::VolumeRead { .. } => 3,
        InfoEvent::SpaceRead(_) => 2,
        InfoEvent::NumberRead(_) => 1,
        InfoEvent::StyleRead(_) => 0,
    }
}

/// What describing a drive comes to from `event` on.
pub open spec fn info_from(
    letter: char,
    replies: DriveReplies,
    known: DriveAnswersView,
    event: InfoEvent,
) -> Result<UsbDeviceView, Seq<char>>
    decreases info_ahead(event),
{
    let now = info_known(known, event);
    match info_next(letter, known, event) {
        InfoStep::ReadVolume { .. } => info_from(
            letter,
            replies,
            now,
            InfoEvent::VolumeRead { name: replies.volume.0, file_system: replies.volume.1 },
        ),
        InfoStep::ReadSpace => info_from(
            letter,
            replies,
            now,
            InfoEvent::SpaceRead(replies.space),
        ),
        InfoStep::ReadNumber => info_from(
            letter,
            replies,
            now,
            InfoEvent::NumberRead(replies.number),
        ),
        InfoStep::ReadStyle { disk_number } => info_from(
            letter,
            replies,
            now,
            InfoEvent::StyleRead((replies.style)(disk_number)),
        ),
        InfoStep::Finished(r) => r,
    }
}

/// A drive is described exactly if its size is known. The description is made of all
/// the answers, and the partition style is that of the disk that the drive is on.
pub proof fn described_exactly_if_size_is_known(letter: char, replies: DriveReplies)
    ensures
        info_from(letter, replies, nothing_known(), InfoEvent::Begin) == match replies.space {
            Ok(space) => Ok::<UsbDeviceView, Seq<char>>(
                described(
                    letter,
                    DriveAnswersView {
                        name: replies.volume.0@,
                        file_system: replies.volume.1@,
                        space,
                        number: replies.number,
                    },
                    (replies.style)(replies.number.1),
                ),
            ),
            Err(e) => Err(e@),
        },
{
    reveal_with_fuel(info_from, 5);
}

/// The label and the file system that the system wrote into buffers of zeros are those of
/// the description, unless they end in a zero character.
pub proof fn description_tells_label_and_file_system(
    letter: char,
    known: DriveAnswersView,
    style: PartitionStyle,
    label: Seq<char>,
    file_system: Seq<char>,
    zeros: (nat, nat),
)
    requires
        label.len() > 0 ==> label.last() != '\0',
        file_system.len() > 0 ==> file_system.last() != '\0',
        known.name == utf16(label) + Seq::new(zeros.0, |i: int| 0u16),
        known.file_system == utf16(file_system) + Seq::new(zeros.1, |i: int| 0u16),
    ensures
        described(letter, known, style).label == label,
        described(letter, known, style).file_system == file_system,
{
    buffer_gives_text_back(label, zeros.0);
    buffer_gives_text_back(file_system, zeros.1);
}

/// How much of finding out the device is ahead.
pub open spec fn number_ahead(event: NumberEvent) -> int {
    match event {
        NumberEvent::Begin => 2,
        NumberEvent::Opened(_) => 1,
        NumberEvent::Queried(_) => 0,
    }
}

/// The steps of finding out the device below a volume from `event` on, where the
/// replies to opening and asking are as given.
pub open spec fn number_from(
    letter: char,
    opened: bool,
    number: Option<StorageDeviceNumber>,
    event: NumberEvent,
) -> Seq<NumberStep<Seq<u16>>>
    decreases number_ahead(event),
{
    let step = number_next(letter, event);
    match step {
        NumberStep::Open(_) => seq![step] + number_from(
            letter,
            opened,
            number,
            NumberEvent::Opened(opened),
        ),
        NumberStep::Query => seq![step] + number_from(
            letter,
            opened,
            number,
            NumberEvent::Queried(number),
        ),
        _ => seq![step],
    }
}

/// The device below a volume is the one that the system tells, and all its numbers are
/// zero where the volume cannot be opened or the system tells none. The volume is
/// closed in the end exactly if it was opened.
pub proof fn device_is_told_or_zero(
    letter: char,
    opened: bool,
    number: Option<StorageDeviceNumber>,
)
    ensures
        ({
            let last = number_from(letter, opened, number, NumberEvent::Begin).last();
            let told = match number {
                Some(n) => (n.device_type, n.device_number, n.partition_number),
                None => (0, 0, 0),
            };
            if opened {
                last == NumberStep::<Seq<u16>>::Close { then: told }
            } else {
                last == NumberStep::<Seq<u16>>::Finished((0, 0, 0))
            }
        }),
{
    reveal_with_fuel(number_from, 3);
}

/// What the system answers about a disk's layout.
pub struct LayoutReply {
    /// Whether the system answered.
    pub ok: bool,
    /// What it put into the buffer.
    pub buffer: Vec<u8>,
    /// How many bytes it put there.
    pub bytes_returned: u32,
}

/// How much of finding out the partition style is ahead.
pub open spec fn style_ahead(event: StyleEvent) -> int {
    match event {
        StyleEvent::Begin => 2,
        StyleEvent::Opened(_) => 1,
        StyleEvent::Queried { .. } => 0,
    }
}

/// The steps of finding out a disk's partition style from `event` on, where the
/// replies to opening and asking are as given.
pub open spec fn style_from(
    disk_number: u32,
    opened: bool,
    layout: LayoutReply,
    event: StyleEvent,
) -> Seq<StyleStep<Seq<u16>>>
    decreases style_ahead(event),
{
    let step = style_next(disk_number, event);
    match step {
        StyleStep::Open(_) => seq![step] + style_from(
            disk_number,
            opened,
            layout,
            StyleEvent::Opened(opened),
        ),
        StyleStep::Query { .. } => seq![step] + style_from(
            disk_number,
            opened,
            layout,
            StyleEvent::Queried {
                ok: layout.ok,
                buffer: layout.buffer,
                bytes_returned: layout.bytes_returned,
            },
        ),
        _ => seq![step],
    }
}

/// A disk's partition style is the one that its layout tells, and not known where the disk
/// cannot be opened. The disk is closed in the end exactly if it was opened. Disk zero
/// is never opened.
pub proof fn style_is_told_or_unknown(disk_number: u32, opened: bool, layout: LayoutReply)
    ensures
        ({
            let steps = style_from(disk_number, opened, layout, StyleEvent::Begin);
            let told = layout_style(layout.ok, layout.buffer@, layout.bytes_returned);
            let unknown = StyleStep::<Seq<u16>>::Finished(PartitionStyle::Unknown);
            if disk_number == 0 {
                steps == seq![unknown]
            } else if opened {
                steps.last() == StyleStep::<Seq<u16>>::Close { then: told }
            } else {
                steps.last() == unknown
            }
        }),
{
    reveal_with_fuel(style_from, 3);
}

} // verus!
