//! What the panel shows and does, field by field.

use vstd::prelude::*;
use crate::bootsect::TargetSystem;
use crate::fat32::FsType;
use crate::progress::WriteProgressView;
use crate::text::decimal;
use crate::text_laws::{decimal_reads_back, read_decimal};
use crate::ui::{
    file_system_at, file_system_label, has_last, scheme_at, scheme_label, shown_devices,
    shown_file_systems, shown_progress, shown_schemes, shown_status, DeviceList, UsbBootStateView,
    FILE_SYSTEM_COUNT, SCHEME_COUNT,
};
use crate::usb::{device_line, UsbDevice};
use crate::usb_writer::{PartitionScheme, UsbWriteConfig};

verus! {

/// There are two partition schemes and three file systems to choose from, each under its own
/// name.
pub proof fn choices_stand_in_their_lists()
    ensures
        SCHEME_COUNT == 2,
        scheme_at(0) == PartitionScheme::Mbr,
        scheme_at(1) == PartitionScheme::Gpt,
        scheme_label(0) == "MBR (兼容 BIOS + UEFI-CSM)"@,
        scheme_label(1) == "GPT (纯 UEFI)"@,
        FILE_SYSTEM_COUNT == 3,
        file_system_at(0) == FsType::FAT32,
        file_system_at(1) == FsType::NTFS,
        file_system_at(2) == FsType::exFAT,
        file_system_label(0) == "FAT32 (推荐，最大兼容性)"@,
        file_system_label(1) == "NTFS (支持大于4GB文件)"@,
        file_system_label(2) == "exFAT (现代格式)"@,
{
}

/// The panel starts with nothing found, selected, picked, told or under way, for a quickly
/// formatted FAT32 drive named WINPE with an MBR table.
pub proof fn panel_starts_empty()
    ensures
        ({
            let s = UsbBootStateView::initial();
            &&& s.usb_devices.len() == 0
            &&& !s.refreshing_devices
            &&& s.selected_device is None
            &&& s.iso_path.len() == 0
            &&& s.partition_scheme == PartitionScheme::Mbr
            &&& s.partition_scheme_idx == 0
            &&& s.file_system_idx == 0
            &&& s.volume_label == "WINPE"@
            &&& s.quick_format
            &&& !s.is_writing
            &&& s.write_progress is None
            &&& s.status_message.len() == 0
            &&& s.progress_rx is None
        }),
{
}

/// Whether two states hold the same choices about the drive to make: image, partition scheme,
/// file system, label, and way of formatting.
pub open spec fn same_choices(a: UsbBootStateView, b: UsbBootStateView) -> bool {
    &&& a.iso_path == b.iso_path
    &&& a.partition_scheme == b.partition_scheme
    &&& a.partition_scheme_idx == b.partition_scheme_idx
    &&& a.file_system_idx == b.file_system_idx
    &&& a.volume_label == b.volume_label
    &&& a.quick_format == b.quick_format
}

/// Whether two states hold the same drives, with the same selected.
pub open spec fn same_drives(a: UsbBootStateView, b: UsbBootStateView) -> bool {
    &&& a.usb_devices == b.usb_devices
    &&& a.refreshing_devices == b.refreshing_devices
    &&& a.selected_device == b.selected_device
}

/// Whether two states hold the same work under way.
pub open spec fn same_work(a: UsbBootStateView, b: UsbBootStateView) -> bool {
    &&& a.is_writing == b.is_writing
    &&& a.write_progress == b.write_progress
    &&& a.progress_rx == b.progress_rx
}

/// Drives that were found take the place of those found before, none of them is selected, and
/// their number is told; nothing else changes.
pub proof fn found_drives_are_listed(state: UsbBootStateView, devices: Seq<UsbDevice>)
    ensures
        ({
            let s = state.refreshed(devices);
            &&& s.usb_devices == devices
            &&& !s.refreshing_devices
            &&& s.selected_device is None
            &&& devices.len() == 0 ==> s.status_message == "未检测到 USB 设备，请插入 U 盘后重试"@
            &&& devices.len() > 0 ==> exists|digits: Seq<char>|
                read_decimal(digits) == devices.len() && digits.len() > 0 && s.status_message
                    == "检测到 "@ + #[trigger] digits.skip(0)
                    + " 个 USB 设备，请选择一个作为目标"@
            &&& same_choices(s, state)
            &&& same_work(s, state)
        }),
{
    let digits = decimal(devices.len());
    decimal_reads_back(devices.len());
    assert(digits.skip(0) =~= digits);
}

/// An image that was picked takes the place of the one picked before, and is told; nothing else
/// changes, and nothing at all where none was picked.
pub proof fn picked_image_is_kept(state: UsbBootStateView, path: Seq<char>)
    ensures
        state.picked(None) == state,
        ({
            let s = state.picked(Some(path));
            &&& s.iso_path == path
            &&& s.status_message == "已选择: "@ + path
            &&& s.partition_scheme == state.partition_scheme
            &&& s.partition_scheme_idx == state.partition_scheme_idx
            &&& s.file_system_idx == state.file_system_idx
            &&& s.volume_label == state.volume_label
            &&& s.quick_format == state.quick_format
            &&& same_drives(s, state)
            &&& same_work(s, state)
        }),
{
}

/// Selecting a drive, a partition scheme or a file system changes that selection and nothing
/// else.
pub proof fn selections_are_kept(state: UsbBootStateView, i: usize)
    ensures
        ({
            let s = state.device_selected(i);
            &&& s.selected_device == Some(i)
            &&& s.usb_devices == state.usb_devices
            &&& s.refreshing_devices == state.refreshing_devices
            &&& s.status_message == state.status_message
            &&& same_choices(s, state)
            &&& same_work(s, state)
        }),
        ({
            let s = state.scheme_selected(i);
            &&& s.partition_scheme_idx == i
            &&& s.partition_scheme == (if i == 0 {
                PartitionScheme::Mbr
            } else {
                PartitionScheme::Gpt
            })
            &&& s.iso_path == state.iso_path
            &&& s.file_system_idx == state.file_system_idx
            &&& s.volume_label == state.volume_label
            &&& s.quick_format == state.quick_format
            &&& s.status_message == state.status_message
            &&& same_drives(s, state)
            &&& same_work(s, state)
        }),
        ({
            let s = state.file_system_selected(i);
            &&& s.file_system_idx == i
            &&& s.iso_path == state.iso_path
            &&& s.partition_scheme == state.partition_scheme
            &&& s.partition_scheme_idx == state.partition_scheme_idx
            &&& s.volume_label == state.volume_label
            &&& s.quick_format == state.quick_format
            &&& s.status_message == state.status_message
            &&& same_drives(s, state)
            &&& same_work(s, state)
        }),
{
}

/// The drive that is chosen is the one in the list at the selected position, if there is one.
pub proof fn chosen_drive_is_the_selected_one(state: UsbBootStateView, i: usize)
    ensures
        state.selected_device is None ==> state.chosen_device() is None,
        state.selected_device == Some(i) && i < state.usb_devices.len() ==> state.chosen_device()
            == Some(state.usb_devices[i as int]),
        state.selected_device == Some(i) && i >= state.usb_devices.len()
            ==> state.chosen_device() is None,
{
}

/// A start fails exactly if no drive is selected, if there is none at the selected position, or
/// if there is no image, in this order; then the reason is told and nothing else changes. Else
/// the work is under way, with no message waiting yet.
pub proof fn start_is_refused_exactly_if(state: UsbBootStateView, iso_exists: bool)
    ensures
        ({
            let s = state.started(iso_exists);
            let refused = s.is_writing == state.is_writing && s.progress_rx == state.progress_rx;
            &&& state.selected_device is None ==> state.obstacle(iso_exists) == Some(
                "请先选择目标 USB 设备"@,
            )
            &&& state.selected_device is Some && state.selected_device->Some_0
                >= state.usb_devices.len() ==> state.obstacle(iso_exists) == Some(
                "选中的设备信息无效"@,
            )
            &&& state.selected_device is Some && state.selected_device->Some_0
                < state.usb_devices.len() ==> {
                &&& state.iso_path.len() == 0 || !iso_exists ==> state.obstacle(iso_exists) == Some(
                    "ISO 文件不存在"@,
                )
                &&& state.iso_path.len() > 0 && iso_exists ==> state.obstacle(iso_exists) is None
            }
            &&& state.obstacle(iso_exists) is Some ==> refused && s.status_message
                == state.obstacle(iso_exists)->Some_0
            &&& state.obstacle(iso_exists) is None ==> {
                &&& s.is_writing
                &&& s.status_message == "正在制作启动盘..."@
                &&& s.progress_rx == Some(Seq::<WriteProgressView>::empty())
            }
            &&& s.write_progress == state.write_progress
            &&& same_drives(s, state)
            &&& same_choices(s, state)
        }),
{
}

/// The drive that is made is the one at the selected position, with the image, partition
/// scheme, file system, label and way of formatting that the panel shows, for BIOS and UEFI
/// machines, with 100 megabytes for an EFI partition.
pub proof fn drive_is_made_as_shown(state: UsbBootStateView, config: UsbWriteConfig)
    requires
        state.file_system_idx < 3,
    ensures
        state.asks_for(config) <==> {
            &&& state.selected_device matches Some(i) && i < state.usb_devices.len()
                && state.usb_devices[i as int] == config.device
            &&& config.iso_path@ == state.iso_path
            &&& config.partition_scheme == state.partition_scheme
            &&& config.target_system == TargetSystem::BiosOrUefiCsm
            &&& state.file_system_idx == 0 ==> config.file_system == FsType::FAT32
            &&& state.file_system_idx == 1 ==> config.file_system == FsType::NTFS
            &&& state.file_system_idx == 2 ==> config.file_system == FsType::exFAT
            &&& config.volume_label@ == state.volume_label
            &&& config.quick_format == state.quick_format
            &&& config.efi_size_mb == 100
        },
{
}

/// A message is kept and told: one on the way with its step and total, a last one with success
/// or its error. A last one ends the work; nothing else changes.
pub proof fn message_is_told(state: UsbBootStateView, message: WriteProgressView)
    ensures
        ({
            let s = state.told(message);
            &&& s.write_progress == Some(message)
            &&& s.is_writing <==> state.is_writing && !message.finished
            &&& message.finished && message.error is None ==> s.status_message
                == "✅ 启动盘制作完成！"@
            &&& message.finished && message.error is Some ==> s.status_message
                == "❌ 制作失败: "@ + message.error->Some_0
            &&& !message.finished ==> exists|digits: Seq<char>|
                read_decimal(digits) == message.total_progress && digits.len() > 0
                    && s.status_message == "正在制作: "@ + message.step + " ("@
                    + #[trigger] digits.skip(0) + "%)"@
            &&& s.progress_rx == state.progress_rx
            &&& same_drives(s, state)
            &&& same_choices(s, state)
        }),
{
    let digits = decimal(message.total_progress as nat);
    decimal_reads_back(message.total_progress as nat);
    assert(digits.skip(0) =~= digits);
}

/// Messages are told one after another, and none is left out.
pub proof fn messages_are_told_in_order(
    state: UsbBootStateView,
    messages: Seq<WriteProgressView>,
    message: WriteProgressView,
)
    ensures
        state.told_all(Seq::empty()) == state,
        state.told_all(messages.push(message)) == state.told_all(messages).told(message),
    decreases messages.len(),
{
    reveal_with_fuel(UsbBootStateView::told_all, 2);
    if messages.len() > 0 {
        messages_are_told_in_order(state.told(messages[0]), messages.drop_first(), message);
        assert(messages.push(message).drop_first() =~= messages.drop_first().push(message));
        assert(messages.push(message)[0] == messages[0]);
    } else {
        assert(messages.push(message).drop_first() =~= Seq::empty());
        assert(messages.push(message)[0] == message);
        assert(messages =~= Seq::empty());
    }
}

/// Whatever waits is read, in order, and then nothing waits any more; after a last message none
/// is waited for. Nothing happens where nothing is waited for.
pub proof fn waiting_messages_are_read(state: UsbBootStateView)
    ensures
        state.progress_rx is None ==> state.caught_up() == state,
        state.progress_rx matches Some(messages) ==> {
            let s = state.caught_up();
            let told = state.told_all(messages);
            &&& s.progress_rx matches Some(left) ==> left.len() == 0
            &&& s.progress_rx is None <==> exists|i: int|
                0 <= i < messages.len() && (#[trigger] messages[i]).finished
            &&& s.is_writing == told.is_writing
            &&& s.write_progress == told.write_progress
            &&& s.status_message == told.status_message
            &&& same_drives(s, told)
            &&& same_choices(s, told)
        },
{
}

/// The panel shows in the end what the last of the waiting messages told.
pub proof fn last_message_is_shown(state: UsbBootStateView, messages: Seq<WriteProgressView>)
    requires
        state.progress_rx == Some(messages),
        messages.len() > 0,
    ensures
        state.caught_up().write_progress == Some(messages.last()),
        messages.last().finished && messages.last().error is None ==> state.caught_up().status_message
            == "✅ 启动盘制作完成！"@,
        messages.last().finished ==> !state.caught_up().is_writing,
{
    messages_are_told_in_order(state, messages.drop_last(), messages.last());
    assert(messages.drop_last().push(messages.last()) =~= messages);
}

/// There is a last message among messages exactly if one of them is marked so.
pub proof fn last_messages_are_marked(
    messages: Seq<WriteProgressView>,
    message: WriteProgressView,
)
    ensures
        !has_last(Seq::empty()),
        has_last(messages.push(message)) <==> has_last(messages) || message.finished,
{
    let longer = messages.push(message);
    if has_last(messages) {
        let i = choose|i: int| 0 <= i < messages.len() && (#[trigger] messages[i]).finished;
        assert(longer[i].finished);
    }
    if message.finished {
        assert(longer[messages.len() as int].finished);
    }
    if has_last(longer) {
        let i = choose|i: int| 0 <= i < longer.len() && (#[trigger] longer[i]).finished;
        if i < messages.len() {
            assert(messages[i].finished);
        }
    }
}

/// The button can be pressed exactly if nothing is under way, a drive is selected, and an image
/// is picked that is there.
pub proof fn button_can_be_pressed_exactly_if(state: UsbBootStateView, iso_exists: bool)
    ensures
        state.may_start(iso_exists) <==> !state.is_writing && state.selected_device is Some
            && state.iso_path.len() > 0 && iso_exists,
{
}

/// Every drive of the list is shown in its line, marked exactly if it is the selected one.
/// Where there is none, that is shown, or that drives are being looked for.
pub proof fn every_drive_is_shown(state: UsbBootStateView, i: int)
    requires
        state.usb_devices.len() <= usize::MAX,
    ensures
        state.usb_devices.len() > 0 ==> (shown_devices(state) matches DeviceList::Rows(rows) && {
            &&& rows.len() == state.usb_devices.len()
            &&& 0 <= i < rows.len() ==> {
                &&& rows[i].0 == device_line(state.usb_devices[i]@)
                &&& rows[i].1 <==> (state.selected_device matches Some(k) && k == i)
            }
        }),
        state.usb_devices.len() == 0 && state.refreshing_devices ==> (shown_devices(
            state,
        ) matches DeviceList::Scanning(text) && text == "正在扫描 USB 设备..."@),
        state.usb_devices.len() == 0 && !state.refreshing_devices ==> (shown_devices(
            state,
        ) matches DeviceList::NoneFound(text) && text
            == "⚠ 未检测到 USB 存储设备，请插入 U 盘后点击刷新"@),
{
}

/// Both partition schemes and all three file systems are shown, each marked exactly if it is
/// the selected one.
pub proof fn every_choice_is_shown(state: UsbBootStateView)
    ensures
        ({
            let rows = shown_schemes(state);
            &&& rows.len() == 2
            &&& rows[0].0 == "MBR (兼容 BIOS + UEFI-CSM)"@
            &&& rows[0].1 <==> state.partition_scheme_idx == 0
            &&& rows[1].0 == "GPT (纯 UEFI)"@
            &&& rows[1].1 <==> state.partition_scheme_idx == 1
        }),
        ({
            let rows = shown_file_systems(state);
            &&& rows.len() == 3
            &&& rows[0].0 == "FAT32 (推荐，最大兼容性)"@
            &&& rows[0].1 <==> state.file_system_idx == 0
            &&& rows[1].0 == "NTFS (支持大于4GB文件)"@
            &&& rows[1].1 <==> state.file_system_idx == 1
            &&& rows[2].0 == "exFAT (现代格式)"@
            &&& rows[2].1 <==> state.file_system_idx == 2
        }),
{
}

/// A message is shown with its total on the bar, its step and how far that is, and its error,
/// if it has one.
pub proof fn progress_is_shown(p: WriteProgressView)
    ensures
        ({
            let shown = shown_progress(p);
            &&& shown.percent == p.total_progress
            &&& exists|digits: Seq<char>|
                read_decimal(digits) == p.total_progress && digits.len() > 0 && shown.bar_text
                    == #[trigger] digits.skip(0) + "%"@
            &&& exists|digits: Seq<char>|
                read_decimal(digits) == p.step_progress && digits.len() > 0 && shown.step_text
                    == "步骤: "@ + p.step + " ("@ + #[trigger] digits.skip(0) + "/100)"@
            &&& p.error is None ==> shown.error_text is None
            &&& p.error is Some ==> shown.error_text == Some("❌ 错误: "@ + p.error->Some_0)
        }),
{
    let total = decimal(p.total_progress as nat);
    let step = decimal(p.step_progress as nat);
    decimal_reads_back(p.total_progress as nat);
    decimal_reads_back(p.step_progress as nat);
    assert(total.skip(0) =~= total);
    assert(step.skip(0) =~= step);
}

/// What the user is told is shown wherever there is something to tell, with the last message,
/// if there was one.
pub proof fn status_is_shown(state: UsbBootStateView)
    ensures
        state.status_message.len() == 0 ==> shown_status(state) is None,
        state.status_message.len() > 0 ==> (shown_status(state) matches Some(shown) && {
            &&& shown.message == state.status_message
            &&& state.write_progress is None ==> shown.progress is None
            &&& state.write_progress matches Some(p) ==> shown.progress == Some(shown_progress(p))
        }),
{
}

/// The panel is well-formed exactly if its positions lie in their lists and the partition
/// scheme is the one at its position.
pub proof fn positions_lie_in_their_lists(state: UsbBootStateView)
    ensures
        state.well_formed() <==> {
            &&& state.partition_scheme_idx == 0 ==> state.partition_scheme == PartitionScheme::Mbr
            &&& state.partition_scheme_idx == 1 ==> state.partition_scheme == PartitionScheme::Gpt
            &&& state.partition_scheme_idx < 2
            &&& state.file_system_idx < 3
            &&& state.selected_device matches Some(i) ==> i < state.usb_devices.len()
        },
{
}

} // verus!
