//! The panel on which boot drives are made: what it shows, and what it does.

use vstd::prelude::*;
use crate::bootsect::TargetSystem;
use crate::fat32::FsType;
use crate::progress::{ProgressQueue, WriteProgress, WriteProgressView};
use crate::text::{decimal, decimal_string};
use crate::usb::{device_line, UsbDevice, UsbManager};
use crate::usb_writer::{PartitionScheme, UsbWriteConfig, UsbWriter};

verus! {

/// How many partition schemes there are to choose from.
pub const SCHEME_COUNT: usize = 2;

/// How many file systems there are to choose from.
pub const FILE_SYSTEM_COUNT: usize = 3;

/// The partition scheme at position `i` of the list.
pub open spec fn scheme_at(i: int) -> PartitionScheme {
    if i == 0 {
        PartitionScheme::Mbr
    } else {
        PartitionScheme::Gpt
    }
}

/// What the list calls the partition scheme at position `i`.
pub open spec fn scheme_label(i: int) -> Seq<char> {
    if i == 0 {
        "MBR (兼容 BIOS + UEFI-CSM)"@
    } else {
        "GPT (纯 UEFI)"@
    }
}

/// The file system at position `i` of the list.
pub open spec fn file_system_at(i: int) -> FsType {
    if i == 0 {
        FsType::FAT32
    } else if i == 1 {
        FsType::NTFS
    } else {
        FsType::exFAT
    }
}

/// What the list calls the file system at position `i`.
pub open spec fn file_system_label(i: int) -> Seq<char> {
    if i == 0 {
        "FAT32 (推荐，最大兼容性)"@
    } else if i == 1 {
        "NTFS (支持大于4GB文件)"@
    } else {
        "exFAT (现代格式)"@
    }
}

/// The partition scheme at position `i` of the list, and what the list calls it.
fn scheme_entry(i: usize) -> (r: (&'static str, PartitionScheme))
    requires
        i < SCHEME_COUNT,
    ensures
        r.0@ == scheme_label(i as int),
        r.1 == scheme_at(i as int),
{
    if i == 0 {
        ("MBR (兼容 BIOS + UEFI-CSM)", PartitionScheme::Mbr)
    } else {
        ("GPT (纯 UEFI)", PartitionScheme::Gpt)
    }
}

/// The file system at position `i` of the list, and what the list calls it.
fn file_system_entry(i: usize) -> (r: (&'static str, FsType))
    requires
        i < FILE_SYSTEM_COUNT,
    ensures
        r.0@ == file_system_label(i as int),
        r.1 == file_system_at(i as int),
{
    if i == 0 {
        ("FAT32 (推荐，最大兼容性)", FsType::FAT32)
    } else if i == 1 {
        ("NTFS (支持大于4GB文件)", FsType::NTFS)
    } else {
        ("exFAT (现代格式)", FsType::exFAT)
    }
}

/// The state of the panel.
pub struct UsbBootState {
    /// The drives there are.
    pub usb_devices: Vec<UsbDevice>,
    /// Whether the drives are being looked for.
    pub refreshing_devices: bool,
    /// The position of the selected drive.
    pub selected_device: Option<usize>,
    /// The path of the image.
    pub iso_path: String,
    /// The partition scheme.
    pub partition_scheme: PartitionScheme,
    /// The position of the partition scheme in its list.
    pub partition_scheme_idx: usize,
    /// The position of the file system in its list.
    pub file_system_idx: usize,
    /// The volume label.
    pub volume_label: String,
    /// Whether to format quickly.
    pub quick_format: bool,
    /// Whether a drive is being made.
    pub is_writing: bool,
    /// The last message about it.
    pub write_progress: Option<WriteProgress>,
    /// What the user is told.
    pub status_message: String,
    /// Where messages come from while a drive is being made.
    pub progress_rx: Option<ProgressQueue>,
}

/// The state of the panel, with its texts.
pub struct UsbBootStateView {
    /// The drives there are.
    pub usb_devices: Seq<UsbDevice>,
    /// Whether the drives are being looked for.
    pub refreshing_devices: bool,
    /// The position of the selected drive.
    pub selected_device: Option<usize>,
    /// The path of the image.
    pub iso_path: Seq<char>,
    /// The partition scheme.
    pub partition_scheme: PartitionScheme,
    /// The position of the partition scheme in its list.
    pub partition_scheme_idx: usize,
    /// The position of the file system in its list.
    pub file_system_idx: usize,
    /// The volume label.
    pub volume_label: Seq<char>,
    /// Whether to format quickly.
    pub quick_format: bool,
    /// Whether a drive is being made.
    pub is_writing: bool,
    /// The last message about it.
    pub write_progress: Option<WriteProgressView>,
    /// What the user is told.
    pub status_message: Seq<char>,
    /// The messages that wait, while a drive is being made.
    pub progress_rx: Option<Seq<WriteProgressView>>,
}

impl View for UsbBootState {
    type V = UsbBootStateView;

    open spec fn view(&self) -> UsbBootStateView {
        UsbBootStateView {
            usb_devices: self.usb_devices@,
            refreshing_devices: self.refreshing_devices,
            selected_device: self.selected_device,
            iso_path: self.iso_path@,
            partition_scheme: self.partition_scheme,
            partition_scheme_idx: self.partition_scheme_idx,
            file_system_idx: self.file_system_idx,
            volume_label: self.volume_label@,
            quick_format: self.quick_format,
            is_writing: self.is_writing,
            write_progress: match self.write_progress {
                Some(p) => Some(p@),
                None => None,
            },
            status_message: self.status_message@,
            progress_rx: match self.progress_rx {
                Some(q) => Some(q@),
                None => None,
            },
        }
    }
}

impl UsbBootStateView {
    /// Whether the positions stand for entries of the lists, the selected drive is in
    /// the list of drives, and the partition scheme is the one at its position.
    pub open spec fn well_formed(self) -> bool {
        &&& self.partition_scheme_idx < SCHEME_COUNT
        &&& self.file_system_idx < FILE_SYSTEM_COUNT
        &&& self.partition_scheme == scheme_at(self.partition_scheme_idx as int)
        &&& self.selected_device matches Some(i) ==> i < self.usb_devices.len()
    }

    /// The state that the panel starts from.
    pub open spec fn initial() -> UsbBootStateView {
        UsbBootStateView {
            usb_devices: Seq::empty(),
            refreshing_devices: false,
            selected_device: None,
            iso_path: Seq::empty(),
            partition_scheme: PartitionScheme::Mbr,
            partition_scheme_idx: 0,
            file_system_idx: 0,
            volume_label: "WINPE"@,
            quick_format: true,
            is_writing: false,
            write_progress: None,
            status_message: Seq::empty(),
            progress_rx: None,
        }
    }

    /// The state once `devices` were found.
    pub open spec fn refreshed(self, devices: Seq<UsbDevice>) -> UsbBootStateView {
        UsbBootStateView {
            usb_devices: devices,
            refreshing_devices: false,
            selected_device: None,
            status_message: if devices.len() == 0 {
                "未检测到 USB 设备，请插入 U 盘后重试"@
            } else {
                "检测到 "@ + decimal(devices.len()) + " 个 USB 设备，请选择一个作为目标"@
            },
            ..self
        }
    }

    /// The state once an image was picked, or none was.
    pub open spec fn picked(self, path: Option<Seq<char>>) -> UsbBootStateView {
        match path {
            Some(p) => UsbBootStateView {
                iso_path: p,
                status_message: "已选择: "@ + p,
                ..self
            },
            None => self,
        }
    }

    /// The state once the drive at position `i` was selected.
    pub open spec fn device_selected(self, i: usize) -> UsbBootStateView {
        UsbBootStateView { selected_device: Some(i), ..self }
    }

    /// The state once the partition scheme at position `i` was selected.
    pub open spec fn scheme_selected(self, i: usize) -> UsbBootStateView {
        UsbBootStateView {
            partition_scheme_idx: i,
            partition_scheme: scheme_at(i as int),
            ..self
        }
    }

    /// The state once the file system at position `i` was selected.
    pub open spec fn file_system_selected(self, i: usize) -> UsbBootStateView {
        UsbBootStateView { file_system_idx: i, ..self }
    }

    /// The drive that is selected, if there is one at the selected position.
    pub open spec fn chosen_device(self) -> Option<UsbDevice> {
        match self.selected_device {
            Some(i) => if i < self.usb_devices.len() {
                Some(self.usb_devices[i as int])
            } else {
                None
            },
            None => None,
        }
    }

    /// Why no drive can be made, if none can.
    pub open spec fn obstacle(self, iso_exists: bool) -> Option<Seq<char>> {
        if self.selected_device is None {
            Some("请先选择目标 USB 设备"@)
        } else if self.chosen_device() is None {
            Some("选中的设备信息无效"@)
        } else if self.iso_path.len() == 0 || !iso_exists {
            Some("ISO 文件不存在"@)
        } else {
            None
        }
    }

    /// The state once the user asked for a drive to be made.
    pub open spec fn started(self, iso_exists: bool) -> UsbBootStateView {
        match self.obstacle(iso_exists) {
            Some(message) => UsbBootStateView { status_message: message, ..self },
            None => UsbBootStateView {
                is_writing: true,
                status_message: "正在制作启动盘..."@,
                progress_rx: Some(Seq::empty()),
                ..self
            },
        }
    }

    /// Whether `config` is for the drive that the user asked for.
    pub open spec fn asks_for(self, config: UsbWriteConfig) -> bool {
        &&& self.chosen_device() == Some(config.device)
        &&& config.iso_path@ == self.iso_path
        &&& config.partition_scheme == self.partition_scheme
        &&& config.target_system == TargetSystem::BiosOrUefiCsm
        &&& config.file_system == file_system_at(self.file_system_idx as int)
        &&& config.volume_label@ == self.volume_label
        &&& config.quick_format == self.quick_format
        &&& config.efi_size_mb == 100
    }

    /// The state after a message.
    pub open spec fn told(self, message: WriteProgressView) -> UsbBootStateView {
        UsbBootStateView {
            is_writing: self.is_writing && !message.finished,
            status_message: if message.finished {
                match message.error {
                    Some(e) => "❌ 制作失败: "@ + e,
                    None => "✅ 启动盘制作完成！"@,
                }
            } else {
                "正在制作: "@ + message.step + " ("@ + decimal(message.total_progress as nat)
                    + "%)"@
            },
            write_progress: Some(message),
            ..self
        }
    }

    /// The state after all `messages`.
    pub open spec fn told_all(self, messages: Seq<WriteProgressView>) -> UsbBootStateView
        decreases messages.len(),
    {
        if messages.len() == 0 {
            self
        } else {
            self.told(messages[0]).told_all(messages.drop_first())
        }
    }

    /// The state once the waiting messages were read. After a last message, no
    /// more are waited for.
    pub open spec fn caught_up(self) -> UsbBootStateView {
        match self.progress_rx {
            None => self,
            Some(messages) => UsbBootStateView {
                progress_rx: if has_last(messages) {
                    None
                } else {
                    Some(Seq::empty())
                },
                ..self.told_all(messages)
            },
        }
    }

    /// Whether a drive can be made now.
    pub open spec fn may_start(self, iso_exists: bool) -> bool {
        !self.is_writing && self.selected_device is Some && self.iso_path.len() > 0 && iso_exists
    }
}

/// Whether there is a last message among `messages`.
pub open spec fn has_last(messages: Seq<WriteProgressView>) -> bool {
    exists|i: int| 0 <= i < messages.len() && (#[trigger] messages[i]).finished
}

impl Default for UsbBootState {
    fn default() -> (r: Self)
        ensures
            r@ == UsbBootStateView::initial(),
    {
        UsbBootState {
            usb_devices: Vec::new(),
            refreshing_devices: false,
            selected_device: None,
            iso_path: String::new(),
            partition_scheme: PartitionScheme::Mbr,
            partition_scheme_idx: 0,
            file_system_idx: 0,
            volume_label: "WINPE".to_string(),
            quick_format: true,
            is_writing: false,
            write_progress: None,
            status_message: String::new(),
            progress_rx: None,
        }
    }
}

/// An entry of a list, and whether it is the selected one.
#[derive(Debug)]
pub struct OptionRow {
    /// What the entry is called.
    pub label: String,
    /// Whether it is selected.
    pub selected: bool,
}

impl View for OptionRow {
    type V = (Seq<char>, bool);

    open spec fn view(&self) -> (Seq<char>, bool) {
        (self.label@, self.selected)
    }
}

/// The texts of a list's entries, and which are selected.
pub open spec fn rows(v: Seq<OptionRow>) -> Seq<(Seq<char>, bool)> {
    v.map_values(|r: OptionRow| r@)
}

/// What is shown of the drives.
#[derive(Debug)]
pub enum DeviceList<S, R> {
    /// That they are being looked for.
    Scanning(S),
    /// That there are none.
    NoneFound(S),
    /// The list of them.
    Rows(R),
}

impl View for DeviceList<String, Vec<OptionRow>> {
    type V = DeviceList<Seq<char>, Seq<(Seq<char>, bool)>>;

    open spec fn view(&self) -> DeviceList<Seq<char>, Seq<(Seq<char>, bool)>> {
        match *self {
            DeviceList::Scanning(s) => DeviceList::Scanning(s@),
            DeviceList::NoneFound(s) => DeviceList::NoneFound(s@),
            DeviceList::Rows(r) => DeviceList::Rows(rows(r@)),
        }
    }
}

/// What is shown of the progress.
#[derive(Debug)]
pub struct ProgressPanel<S> {
    /// How far the whole is, from 0 to 100.
    pub percent: u8,
    /// The text on the bar.
    pub bar_text: S,
    /// The text about the step.
    pub step_text: S,
    /// The text about the error, if there is one.
    pub error_text: Option<S>,
}

/// What is shown below the buttons.
#[derive(Debug)]
pub struct StatusPanel<S> {
    /// The progress, if there is any.
    pub progress: Option<ProgressPanel<S>>,
    /// What the user is told.
    pub message: S,
}

impl View for StatusPanel<String> {
    type V = StatusPanel<Seq<char>>;

    open spec fn view(&self) -> StatusPanel<Seq<char>> {
        StatusPanel {
            progress: match self.progress {
                Some(p) => Some(
                    ProgressPanel {
                        percent: p.percent,
                        bar_text: p.bar_text@,
                        step_text: p.step_text@,
                        error_text: match p.error_text {
                            Some(e) => Some(e@),
                            None => None,
                        },
                    },
                ),
                None => None,
            },
            message: self.message@,
        }
    }
}

/// All that is shown.
#[derive(Debug)]
pub struct UsbBootPanel {
    /// Whether to show that the drives are being looked for.
    pub refreshing: bool,
    /// The drives.
    pub devices: DeviceList<String, Vec<OptionRow>>,
    /// What the selected partition scheme is called.
    pub scheme_text: String,
    /// The partition schemes.
    pub schemes: Vec<OptionRow>,
    /// What the selected file system is called.
    pub file_system_text: String,
    /// The file systems.
    pub file_systems: Vec<OptionRow>,
    /// Whether the button that starts the work can be pressed.
    pub can_start: bool,
    /// Whether to show that a drive is being made.
    pub writing: bool,
    /// What is shown below the buttons, if anything is.
    pub status: Option<StatusPanel<String>>,
}

/// What is shown of the drives.
pub open spec fn shown_devices(s: UsbBootStateView) -> DeviceList<
    Seq<char>,
    Seq<(Seq<char>, bool)>,
> {
    if s.usb_devices.len() > 0 {
        DeviceList::Rows(
            Seq::new(
                s.usb_devices.len(),
                |i: int| (device_line(s.usb_devices[i]@), s.selected_device == Some(i as usize)),
            ),
        )
    } else if s.refreshing_devices {
        DeviceList::Scanning("正在扫描 USB 设备..."@)
    } else {
        DeviceList::NoneFound("⚠ 未检测到 USB 存储设备，请插入 U 盘后点击刷新"@)
    }
}

/// What is shown of the partition schemes.
pub open spec fn shown_schemes(s: UsbBootStateView) -> Seq<(Seq<char>, bool)> {
    Seq::new(SCHEME_COUNT as nat, |i: int| (scheme_label(i), s.partition_scheme_idx == i))
}

/// What is shown of the file systems.
pub open spec fn shown_file_systems(s: UsbBootStateView) -> Seq<(Seq<char>, bool)> {
    Seq::new(FILE_SYSTEM_COUNT as nat, |i: int| (file_system_label(i), s.file_system_idx == i))
}

/// What is shown of a message.
pub open spec fn shown_progress(p: WriteProgressView) -> ProgressPanel<Seq<char>> {
    ProgressPanel {
        percent: p.total_progress,
        bar_text: decimal(p.total_progress as nat) + "%"@,
        step_text: "步骤: "@ + p.step + " ("@ + decimal(p.step_progress as nat) + "/100)"@,
        error_text: match p.error {
            Some(e) => Some("❌ 错误: "@ + e),
            None => None,
        },
    }
}

/// What is shown below the buttons: nothing, unless the user is told something.
pub open spec fn shown_status(s: UsbBootStateView) -> Option<StatusPanel<Seq<char>>> {
    if s.status_message.len() == 0 {
        None
    } else {
        Some(
            StatusPanel {
                progress: match s.write_progress {
                    Some(p) => Some(shown_progress(p)),
                    None => None,
                },
                message: s.status_message,
            },
        )
    }
}

/// The program, as far as the panel is concerned.
pub struct App {
    /// The state of the panel.
    pub usb_boot_state: UsbBootState,
}

impl App {
    /// Whether the drives have to be looked for before the panel is shown.
    pub fn needs_refresh(&self) -> (r: bool)
        ensures
            r == (self.usb_boot_state@.usb_devices.len() == 0
                && !self.usb_boot_state@.refreshing_devices),
    {
        self.usb_boot_state.usb_devices.len() == 0 && !self.usb_boot_state.refreshing_devices
    }

    /// What the panel shows. `iso_exists` tells whether there is a file at the path
    /// of the image.
    pub fn show_usb_boot(&self, iso_exists: bool) -> (r: UsbBootPanel)
        requires
            self.usb_boot_state@.partition_scheme_idx < SCHEME_COUNT,
            self.usb_boot_state@.file_system_idx < FILE_SYSTEM_COUNT,
        ensures
            r.refreshing == self.usb_boot_state@.refreshing_devices,
            r.devices@ == shown_devices(self.usb_boot_state@),
            r.scheme_text@ == scheme_label(self.usb_boot_state@.partition_scheme_idx as int),
            rows(r.schemes@) == shown_schemes(self.usb_boot_state@),
            r.file_system_text@ == file_system_label(self.usb_boot_state@.file_system_idx as int),
            rows(r.file_systems@) == shown_file_systems(self.usb_boot_state@),
            r.can_start == self.usb_boot_state@.may_start(iso_exists),
            r.writing == self.usb_boot_state@.is_writing,
            match r.status {
                Some(status) => shown_status(self.usb_boot_state@) == Some(status@),
                None => shown_status(self.usb_boot_state@) is None,
            },
    {
        let state = &self.usb_boot_state;
        UsbBootPanel {
            refreshing: state.refreshing_devices,
            devices: self.device_list(),
            scheme_text: scheme_entry(state.partition_scheme_idx).0.to_string(),
            schemes: self.scheme_rows(),
            file_system_text: file_system_entry(state.file_system_idx).0.to_string(),
            file_systems: self.file_system_rows(),
            can_start: !state.is_writing && state.selected_device.is_some()
                && !state.iso_path.as_str().is_empty() && iso_exists,
            writing: state.is_writing,
            status: self.status_panel(),
        }
    }

    /// What is shown of the drives.
    fn device_list(&self) -> (r: DeviceList<String, Vec<OptionRow>>)
        ensures
            r@ == shown_devices(self.usb_boot_state@),
    {
        let state = &self.usb_boot_state;
        if state.usb_devices.len() == 0 {
            if state.refreshing_devices {
                return DeviceList::Scanning("正在扫描 USB 设备...".to_string());
            }
            return DeviceList::NoneFound(
                "⚠ 未检测到 USB 存储设备，请插入 U 盘后点击刷新".to_string(),
            );
        }
        let mut list: Vec<OptionRow> = Vec::new();
        for i in 0..state.usb_devices.len()
            invariant
                list@.len() == i,
                forall|k: int|
                    0 <= k < i ==> (#[trigger] list@[k])@ == (
                        device_line(state.usb_devices@[k]@),
                        state.selected_device == Some(k as usize),
                    ),
        {
            let selected = match state.selected_device {
                Some(s) => s == i,
                None => false,
            };
            let label = UsbManager::format_device_info(&state.usb_devices[i]);
            list.push(OptionRow { label, selected });
        }
        let r = DeviceList::Rows(list);
        proof {
            let want = shown_devices(self.usb_boot_state@);
            assert(rows(list@) =~= want->Rows_0);
        }
        r
    }

    /// What is shown of the partition schemes.
    fn scheme_rows(&self) -> (r: Vec<OptionRow>)
        ensures
            rows(r@) == shown_schemes(self.usb_boot_state@),
    {
        let mut list: Vec<OptionRow> = Vec::new();
        let chosen = self.usb_boot_state.partition_scheme_idx;
        for i in 0..SCHEME_COUNT
            invariant
                list@.len() == i,
                forall|k: int|
                    0 <= k < i ==> (#[trigger] list@[k])@ == (scheme_label(k), chosen == k),
        {
            list.push(OptionRow { label: scheme_entry(i).0.to_string(), selected: chosen == i });
        }
        assert(rows(list@) =~= shown_schemes(self.usb_boot_state@));
        list
    }

    /// What is shown of the file systems.
    fn file_system_rows(&self) -> (r: Vec<OptionRow>)
        ensures
            rows(r@) == shown_file_systems(self.usb_boot_state@),
    {
        let mut list: Vec<OptionRow> = Vec::new();
        let chosen = self.usb_boot_state.file_system_idx;
        for i in 0..FILE_SYSTEM_COUNT
            invariant
                list@.len() == i,
                forall|k: int|
                    0 <= k < i ==> (#[trigger] list@[k])@ == (file_system_label(k), chosen == k),
        {
            list.push(
                OptionRow { label: file_system_entry(i).0.to_string(), selected: chosen == i },
            );
        }
        assert(rows(list@) =~= shown_file_systems(self.usb_boot_state@));
        list
    }

    /// What is shown below the buttons.
    fn status_panel(&self) -> (r: Option<StatusPanel<String>>)
        ensures
            match r {
                Some(status) => shown_status(self.usb_boot_state@) == Some(status@),
                None => shown_status(self.usb_boot_state@) is None,
            },
    {
        let state = &self.usb_boot_state;
        if state.status_message.as_str().is_empty() {
            return None;
        }
        let progress = match &state.write_progress {
            Some(p) => {
                let total = decimal_string(p.total_progress as u64);
                let step = decimal_string(p.step_progress as u64);
                let error_text = match &p.error {
                    Some(e) => Some("❌ 错误: ".to_string().concat(e.as_str())),
                    None => None,
                };
                Some(
                    ProgressPanel {
                        percent: p.total_progress,
                        bar_text: total.concat("%"),
                        step_text: "步骤: ".to_string().concat(p.step.as_str()).concat(
                            " (",
                        ).concat(step.as_str()).concat("/100)"),
                        error_text,
                    },
                )
            },
            None => None,
        };
        Some(StatusPanel { progress, message: state.status_message.clone() })
    }

    /// Takes note of the drives that were found.
    pub fn refresh_usb_devices(&mut self, devices: Vec<UsbDevice>)
        ensures
            final(self).usb_boot_state@ == old(self).usb_boot_state@.refreshed(devices@),
    {
        let message = if devices.len() == 0 {
            "未检测到 USB 设备，请插入 U 盘后重试".to_string()
        } else {
            "检测到 ".to_string().concat(decimal_string(devices.len() as u64).as_str()).concat(
                " 个 USB 设备，请选择一个作为目标",
            )
        };
        self.usb_boot_state.usb_devices = devices;
        self.usb_boot_state.refreshing_devices = false;
        self.usb_boot_state.selected_device = None;
        self.usb_boot_state.status_message = message;
    }

    /// Takes note of the image that the user picked, if any.
    pub fn browse_iso_for_usb(&mut self, picked: Option<String>)
        ensures
            final(self).usb_boot_state@ == old(self).usb_boot_state@.picked(
                match picked {
                    Some(p) => Some(p@),
                    None => None,
                },
            ),
    {
        if let Some(p) = picked {
            self.usb_boot_state.status_message = "已选择: ".to_string().concat(p.as_str());
            self.usb_boot_state.iso_path = p;
        }
    }

    /// Selects the drive at position `i`.
    pub fn select_device(&mut self, i: usize)
        ensures
            final(self).usb_boot_state@ == old(self).usb_boot_state@.device_selected(i),
    {
        self.usb_boot_state.selected_device = Some(i);
    }

    /// Selects the partition scheme at position `i` of its list.
    pub fn select_partition_scheme(&mut self, i: usize)
        requires
            i < SCHEME_COUNT,
        ensures
            final(self).usb_boot_state@ == old(self).usb_boot_state@.scheme_selected(i),
    {
        self.usb_boot_state.partition_scheme_idx = i;
        self.usb_boot_state.partition_scheme = scheme_entry(i).1;
    }

    /// Selects the file system at position `i` of its list.
    pub fn select_file_system(&mut self, i: usize)
        requires
            i < FILE_SYSTEM_COUNT,
        ensures
            final(self).usb_boot_state@ == old(self).usb_boot_state@.file_system_selected(i),
    {
        self.usb_boot_state.file_system_idx = i;
    }

    /// Starts to make the drive that the user asked for, unless something stands in
    /// the way. `iso_exists` tells whether there is a file at the path of the image.
    pub fn start_usb_write(&mut self, iso_exists: bool) -> (r: Option<UsbWriter>)
        requires
            old(self).usb_boot_state@.obstacle(iso_exists) is None
                ==> old(self).usb_boot_state@.file_system_idx < FILE_SYSTEM_COUNT,
        ensures
            final(self).usb_boot_state@ == old(self).usb_boot_state@.started(iso_exists),
            match r {
                Some(writer) => {
                    &&& old(self).usb_boot_state@.obstacle(iso_exists) is None
                    &&& old(self).usb_boot_state@.asks_for(writer.config())
                    &&& writer.sent() == Some(Seq::<WriteProgressView>::empty())
                    &&& writer.mounted() == Seq::<char>::empty()
                },
                None => old(self).usb_boot_state@.obstacle(iso_exists) is Some,
            },
    {
        let i = match self.usb_boot_state.selected_device {
            Some(i) => i,
            None => {
                self.usb_boot_state.status_message = "请先选择目标 USB 设备".to_string();
                return None;
            },
        };
        if i >= self.usb_boot_state.usb_devices.len() {
            self.usb_boot_state.status_message = "选中的设备信息无效".to_string();
            return None;
        }
        if self.usb_boot_state.iso_path.as_str().is_empty() || !iso_exists {
            self.usb_boot_state.status_message = "ISO 文件不存在".to_string();
            return None;
        }
        let config = UsbWriteConfig {
            device: self.usb_boot_state.usb_devices[i].clone(),
            iso_path: self.usb_boot_state.iso_path.clone(),
            partition_scheme: self.usb_boot_state.partition_scheme,
            target_system: TargetSystem::BiosOrUefiCsm,
            file_system: file_system_entry(self.usb_boot_state.file_system_idx).1,
            volume_label: self.usb_boot_state.volume_label.clone(),
            quick_format: self.usb_boot_state.quick_format,
            efi_size_mb: 100,
        };
        self.usb_boot_state.is_writing = true;
        self.usb_boot_state.status_message = "正在制作启动盘...".to_string();
        self.usb_boot_state.progress_rx = Some(ProgressQueue::new());
        Some(UsbWriter::new(config).with_progress(ProgressQueue::new()))
    }

    /// Hands on a message to the panel, where messages are waited for.
    pub fn deliver_progress(&mut self, message: WriteProgress)
        ensures
            final(self).usb_boot_state@ == (UsbBootStateView {
                progress_rx: match old(self).usb_boot_state@.progress_rx {
                    Some(q) => Some(q.push(message@)),
                    None => None,
                },
                ..old(self).usb_boot_state@
            }),
    {
        if let Some(rx) = &mut self.usb_boot_state.progress_rx {
            rx.send(message);
        }
    }

    /// Takes note of one message.
    fn note_progress(&mut self, progress: WriteProgress)
        ensures
            final(self).usb_boot_state@ == old(self).usb_boot_state@.told(progress@),
    {
        if progress.finished {
            self.usb_boot_state.is_writing = false;
            self.usb_boot_state.status_message = match &progress.error {
                Some(error) => "❌ 制作失败: ".to_string().concat(error.as_str()),
                None => "✅ 启动盘制作完成！".to_string(),
            };
        } else {
            self.usb_boot_state.status_message = "正在制作: ".to_string().concat(
                progress.step.as_str(),
            ).concat(" (").concat(decimal_string(progress.total_progress as u64).as_str()).concat(
                "%)",
            );
        }
        self.usb_boot_state.write_progress = Some(progress);
    }

    /// Reads the messages that wait.
    pub fn check_usb_write_progress(&mut self)
        ensures
            final(self).usb_boot_state@ == old(self).usb_boot_state@.caught_up(),
    {
        let mut queue = match self.usb_boot_state.progress_rx.take() {
            Some(queue) => queue,
            None => {
                return;
            },
        };
        let mut ended = false;
        let ghost start = old(self).usb_boot_state@;
        let ghost all = queue@;
        let ghost mut seen: int = 0;
        proof {
            assert(all.skip(0) =~= all);
            told_alike(self.usb_boot_state@, start, all);
        }
        loop
            invariant
                0 <= seen <= all.len(),
                queue@ == all.skip(seen),
                self.usb_boot_state@.progress_rx is None,
                start.progress_rx == Some(all),
                ended == has_last(all.take(seen)),
                same_but_queue(self.usb_boot_state@.told_all(queue@), start.told_all(all)),
            ensures
                seen == all.len(),
            decreases all.len() - seen,
        {
            match queue.try_recv() {
                Some(progress) => {
                    proof {
                        more_last(all, seen);
                        assert(all.skip(seen).drop_first() =~= all.skip(seen + 1));
                        seen = seen + 1;
                    }
                    if progress.finished {
                        ended = true;
                    }
                    self.note_progress(progress);
                },
                None => {
                    break;
                },
            }
        }
        assert(all.take(seen) =~= all);
        assert(queue@ =~= Seq::empty());
        if !ended {
            self.usb_boot_state.progress_rx = Some(queue);
        }
    }
}

/// Whether two states differ at most in the messages that wait.
spec fn same_but_queue(a: UsbBootStateView, b: UsbBootStateView) -> bool {
    (UsbBootStateView { progress_rx: None, ..a }) == (UsbBootStateView { progress_rx: None, ..b })
}

/// The messages that wait have no part in what is made of a message.
proof fn told_alike(a: UsbBootStateView, b: UsbBootStateView, messages: Seq<WriteProgressView>)
    requires
        same_but_queue(a, b),
    ensures
        same_but_queue(a.told_all(messages), b.told_all(messages)),
    decreases messages.len(),
{
    if messages.len() > 0 {
        told_alike(a.told(messages[0]), b.told(messages[0]), messages.drop_first());
    }
}

/// Among the first messages and one more there is a last message if there is
/// one among the first, or if it is the one.
proof fn more_last(all: Seq<WriteProgressView>, seen: int)
    requires
        0 <= seen < all.len(),
    ensures
        has_last(all.take(seen + 1)) == (has_last(all.take(seen)) || all[seen].finished),
{
    if has_last(all.take(seen)) {
        let i = choose|i: int| 0 <= i < seen && (#[trigger] all.take(seen)[i]).finished;
        assert(all.take(seen + 1)[i].finished);
    }
    if all[seen].finished {
        assert(all.take(seen + 1)[seen].finished);
    }
    if has_last(all.take(seen + 1)) {
        let i = choose|i: int| 0 <= i < seen + 1 && (#[trigger] all.take(seen + 1)[i]).finished;
        if i < seen {
            assert(all.take(seen)[i].finished);
        }
    }
}

/// Messages change what the user is told, and whether a drive is being made, and
/// nothing else.
proof fn told_all_keeps_the_rest(state: UsbBootStateView, messages: Seq<WriteProgressView>)
    ensures
        ({
            let after = state.told_all(messages);
            after == UsbBootStateView {
                is_writing: after.is_writing,
                status_message: after.status_message,
                write_progress: after.write_progress,
                ..state
            }
        }),
        state.told_all(messages).is_writing ==> state.is_writing,
    decreases messages.len(),
{
    if messages.len() > 0 {
        told_all_keeps_the_rest(state.told(messages[0]), messages.drop_first());
    }
}

/// The panel starts well-formed.
pub proof fn starts_well_formed()
    ensures
        UsbBootStateView::initial().well_formed(),
{
}

/// Whatever the user does and whatever is told, the panel stays well-formed. Only drives in
/// the list are there to be selected.
pub proof fn stays_well_formed(
    state: UsbBootStateView,
    devices: Seq<UsbDevice>,
    path: Option<Seq<char>>,
    device: usize,
    scheme: usize,
    file_system: usize,
    iso_exists: bool,
)
    requires
        state.well_formed(),
        scheme < SCHEME_COUNT,
        file_system < FILE_SYSTEM_COUNT,
    ensures
        state.refreshed(devices).well_formed(),
        state.picked(path).well_formed(),
        device < state.usb_devices.len() ==> state.device_selected(device).well_formed(),
        state.scheme_selected(scheme).well_formed(),
        state.file_system_selected(file_system).well_formed(),
        state.started(iso_exists).well_formed(),
        state.caught_up().well_formed(),
{
    if let Some(messages) = state.progress_rx {
        told_all_keeps_the_rest(state, messages);
    }
}

/// While a drive is being made, no other can be started, until the panel has read
/// a last message.
pub proof fn one_drive_at_a_time(state: UsbBootStateView, first: bool, second: bool)
    requires
        state.well_formed(),
        state.may_start(first),
    ensures
        state.started(first).is_writing,
        !state.started(first).may_start(second),
{
}

/// The button can be pressed exactly where no drive is being made and nothing stands in
/// the way.
pub proof fn button_is_honest(state: UsbBootStateView, iso_exists: bool)
    requires
        state.well_formed(),
    ensures
        state.may_start(iso_exists) <==> !state.is_writing && state.obstacle(iso_exists) is None,
{
}

/// When the drives have been looked for anew, one has to be selected before anything can
/// be started.
pub proof fn selection_is_asked_anew(
    state: UsbBootStateView,
    devices: Seq<UsbDevice>,
    iso_exists: bool,
)
    ensures
        !state.refreshed(devices).may_start(iso_exists),
        state.refreshed(devices).obstacle(iso_exists) is Some,
{
}

/// The panel says that a drive is being made until it has read a last message, and
/// no longer.
pub proof fn writing_until_the_last_message(state: UsbBootStateView)
    requires
        state.is_writing,
        state.progress_rx is Some,
    ensures
        state.caught_up().is_writing <==> !has_last(state.progress_rx->Some_0),
        state.caught_up().progress_rx is Some <==> !has_last(state.progress_rx->Some_0),
{
    writing_unless_last(state, state.progress_rx->Some_0);
}

/// Messages leave the panel writing unless one of them is a last one.
proof fn writing_unless_last(state: UsbBootStateView, messages: Seq<WriteProgressView>)
    ensures
        state.told_all(messages).is_writing <==> state.is_writing && !has_last(messages),
    decreases messages.len(),
{
    if messages.len() > 0 {
        let rest = messages.drop_first();
        writing_unless_last(state.told(messages[0]), rest);
        if has_last(rest) {
            let i = choose|i: int| 0 <= i < rest.len() && (#[trigger] rest[i]).finished;
            assert(messages[i + 1].finished);
        }
        if has_last(messages) && !messages[0].finished {
            let i = choose|i: int| 0 <= i < messages.len() && (#[trigger] messages[i]).finished;
            assert(rest[i - 1].finished);
        }
    }
}

} // verus!
