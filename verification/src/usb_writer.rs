//! Making a boot drive: the order of the work, its progress, and what is done
//! when a part of it fails.
//!
//! The writer does none of the work itself. It is told what happened and answers
//! with what to do next:
//!
//! 1. lock and dismount the volume,
//! 2. clean and partition the disk,
//! 3. format the volume,
//! 4. mount the image,
//! 5. copy the files,
//! 6. write the boot records,
//! 7. unmount the image and unlock the volume.

use vstd::prelude::*;
use crate::bootsect::{drive_colon, drive_colon_string, TargetSystem};
use crate::error::{outcome, BootError};
use crate::fat32::FsType;
use crate::progress::{ProgressQueue, WriteProgress, WriteProgressView};
use crate::text::{
    char_string, chars_of, first, first_char, is_letter, letter_like, trim_end, trimmed_end,
};
use crate::usb::UsbDevice;

verus! {

/// How the drive is partitioned.
#[derive(Debug, Clone, Copy, PartialEq, Eq, Structural)]
pub enum PartitionScheme {
    /// An MBR table, which BIOS machines can boot.
    Mbr,
    /// A GPT table, for UEFI machines.
    Gpt,
}

impl PartitionScheme {
    /// The name of the scheme.
    pub open spec fn name(self) -> Seq<char> {
        match self {
            PartitionScheme::Mbr => "MBR"@,
            PartitionScheme::Gpt => "GPT"@,
        }
    }

    /// The name of the scheme, as a string.
    pub fn to_string(&self) -> (r: String)
        ensures
            r@ == self.name(),
    {
        match self {
            PartitionScheme::Mbr => "MBR".to_string(),
            PartitionScheme::Gpt => "GPT".to_string(),
        }
    }
}

/// What boot drive to make.
#[derive(Debug)]
pub struct UsbWriteConfig {
    /// The drive.
    pub device: UsbDevice,
    /// The path of the image.
    pub iso_path: String,
    /// How to partition the drive.
    pub partition_scheme: PartitionScheme,
    /// What kind of machine the drive is for.
    pub target_system: TargetSystem,
    /// The file system.
    pub file_system: FsType,
    /// The volume label.
    pub volume_label: String,
    /// Whether to format quickly.
    pub quick_format: bool,
    /// The size of the EFI partition in megabytes, in a GPT table.
    pub efi_size_mb: u32,
}

impl Clone for UsbWriteConfig {
    fn clone(&self) -> (r: Self)
        ensures
            r == *self,
    {
        UsbWriteConfig {
            device: self.device.clone(),
            iso_path: self.iso_path.clone(),
            partition_scheme: self.partition_scheme,
            target_system: self.target_system,
            file_system: self.file_system,
            volume_label: self.volume_label.clone(),
            quick_format: self.quick_format,
            efi_size_mb: self.efi_size_mb,
        }
    }
}

/// The total when the files begin to be copied.
pub const COPY_START: u8 = 55;

/// The total when the files are copied.
pub const COPY_END: u8 = 80;

/// What happened while a boot drive is made.
#[derive(Debug)]
pub enum WriteEvent {
    /// The work begins.
    Begin,
    /// The volume was locked, or could not be.
    VolumeLocked(Result<(), BootError>),
    /// The disk was cleaned, or could not be.
    DiskCleaned(Result<(), BootError>),
    /// The partitions were created, or could not be.
    Partitioned(Result<(), BootError>),
    /// The formatting library was loaded, or could not be.
    FormatterLoaded(Result<(), BootError>),
    /// The library formatted the volume, or could not.
    Formatted(Result<(), BootError>),
    /// The formatting command formatted the volume, or could not.
    FormattedByCommand(Result<(), BootError>),
    /// The image was mounted as this drive, or could not be.
    IsoMounted(Result<String, BootError>),
    /// The copying tool copied the files, or could not.
    FilesCopied(Result<(), BootError>),
    /// The files were copied one by one, or could not be.
    FilesCopiedSingly(Result<(), BootError>),
    /// The master boot record was written, or could not be.
    MbrWritten(Result<(), BootError>),
    /// The boot record of the partition was written, or could not be.
    PbrWritten(Result<(), BootError>),
    /// Whether the EFI partition has boot files.
    SystemEfiChecked(bool),
    /// Whether the volume has boot files.
    VolumeEfiChecked(bool),
    /// Whether the image has boot files.
    IsoEfiChecked(bool),
    /// The boot files were copied, or could not be.
    EfiCopied(Result<(), BootError>),
    /// The image was unmounted, or could not be.
    IsoUnmounted(Result<(), BootError>),
    /// The volume was unlocked, or could not be.
    VolumeUnlocked(Result<(), BootError>),
}

/// What to do next while a boot drive is made.
#[derive(Debug)]
pub enum WriteAction<S, E> {
    /// Lock and dismount the volume.
    LockVolume {
        /// Its letter.
        letter: char,
    },
    /// Remove the disk's partition table.
    CleanDisk {
        /// The number of the disk.
        drive: u32,
    },
    /// Create one partition in an MBR table.
    CreateMbrPartition {
        /// The number of the disk.
        drive: u32,
        /// Whether to mark it as the one to boot from.
        active: bool,
    },
    /// Create an EFI and a data partition in a GPT table.
    CreateGptPartitions {
        /// The number of the disk.
        drive: u32,
        /// The size of the EFI partition.
        efi_size_mb: u32,
        /// The size of the data partition, or zero for all that is left.
        data_size_mb: u32,
    },
    /// Load the formatting library.
    LoadFormatter,
    /// Format the volume with the library.
    Format {
        /// Its letter.
        letter: char,
        /// The file system.
        file_system: FsType,
        /// The volume label.
        label: S,
        /// Whether to format quickly.
        quick_format: bool,
    },
    /// Format the volume with the formatting command.
    FormatByCommand {
        /// Its letter.
        letter: char,
        /// The file system.
        file_system: FsType,
        /// The volume label.
        label: S,
        /// Whether to format quickly.
        quick_format: bool,
    },
    /// Mount the image.
    MountIso {
        /// Its path.
        path: S,
    },
    /// Copy all files with the copying tool.
    CopyFiles {
        /// The drive of the image.
        source: S,
        /// The drive that they go to.
        dest: S,
        /// The total when the copy begins.
        progress_start: u8,
        /// The total when the copy is done.
        progress_end: u8,
    },
    /// Copy all files one by one.
    CopyFilesSingly {
        /// The drive of the image.
        source: S,
        /// The drive that they go to.
        dest: S,
    },
    /// Write the master boot record.
    WriteMbr {
        /// The number of the disk.
        drive: u32,
        /// The kind of record.
        mbr_type: S,
    },
    /// Write the boot record of the partition.
    WritePbr {
        /// The letter of the volume.
        letter: char,
        /// The kind of record.
        pbr_type: S,
    },
    /// Find out whether the EFI partition has boot files.
    CheckSystemEfi {
        /// Where they would be.
        path: S,
    },
    /// Find out whether the volume has boot files.
    CheckVolumeEfi {
        /// Where they would be.
        path: S,
    },
    /// Find out whether the image has boot files.
    CheckIsoEfi {
        /// Where they would be.
        path: S,
    },
    /// Copy the boot files.
    CopyEfi {
        /// Where they are.
        source: S,
        /// Where they go.
        dest: S,
    },
    /// Unmount the image.
    UnmountIso,
    /// Unlock the volume.
    UnlockVolume {
        /// Its letter.
        letter: char,
    },
    /// The work is over.
    Finished(Result<(), E>),
}

impl View for WriteAction<String, BootError> {
    type V = WriteAction<Seq<char>, Seq<char>>;

    open spec fn view(&self) -> WriteAction<Seq<char>, Seq<char>> {
        match *self {
            WriteAction::LockVolume { letter } => WriteAction::LockVolume { letter },
            WriteAction::CleanDisk { drive } => WriteAction::CleanDisk { drive },
            WriteAction::CreateMbrPartition { drive, active } => WriteAction::CreateMbrPartition {
                drive,
                active,
            },
            WriteAction::CreateGptPartitions { drive, efi_size_mb, data_size_mb } =>
                WriteAction::CreateGptPartitions { drive, efi_size_mb, data_size_mb },
            WriteAction::LoadFormatter => WriteAction::LoadFormatter,
            WriteAction::Format { letter, file_system, label, quick_format } =>
                WriteAction::Format { letter, file_system, label: label@, quick_format },
            WriteAction::FormatByCommand { letter, file_system, label, quick_format } =>
                WriteAction::FormatByCommand { letter, file_system, label: label@, quick_format },
            WriteAction::MountIso { path } => WriteAction::MountIso { path: path@ },
            WriteAction::CopyFiles { source, dest, progress_start, progress_end } =>
                WriteAction::CopyFiles {
                    source: source@,
                    dest: dest@,
                    progress_start,
                    progress_end,
                },
            WriteAction::CopyFilesSingly { source, dest } => WriteAction::CopyFilesSingly {
                source: source@,
                dest: dest@,
            },
            WriteAction::WriteMbr { drive, mbr_type } => WriteAction::WriteMbr {
                drive,
                mbr_type: mbr_type@,
            },
            WriteAction::WritePbr { letter, pbr_type } => WriteAction::WritePbr {
                letter,
                pbr_type: pbr_type@,
            },
            WriteAction::CheckSystemEfi { path } => WriteAction::CheckSystemEfi { path: path@ },
            WriteAction::CheckVolumeEfi { path } => WriteAction::CheckVolumeEfi { path: path@ },
            WriteAction::CheckIsoEfi { path } => WriteAction::CheckIsoEfi { path: path@ },
            WriteAction::CopyEfi { source, dest } => WriteAction::CopyEfi {
                source: source@,
                dest: dest@,
            },
            WriteAction::UnmountIso => WriteAction::UnmountIso,
            WriteAction::UnlockVolume { letter } => WriteAction::UnlockVolume { letter },
            WriteAction::Finished(r) => WriteAction::Finished(outcome(r)),
        }
    }
}

/// A message on the way.
pub open spec fn on_the_way(step: Seq<char>, step_pct: u8, total_pct: u8) -> WriteProgressView {
    WriteProgressView {
        step,
        step_progress: step_pct,
        total_progress: total_pct,
        finished: false,
        error: None,
    }
}

/// The message that the drive is made.
pub open spec fn all_done() -> WriteProgressView {
    WriteProgressView {
        step: "完成"@,
        step_progress: 100,
        total_progress: 100,
        finished: true,
        error: None,
    }
}

/// The message that the drive could not be made.
pub open spec fn gone_wrong(error: Seq<char>) -> WriteProgressView {
    WriteProgressView {
        step: "错误"@,
        step_progress: 0,
        total_progress: 0,
        finished: true,
        error: Some(error),
    }
}

/// A queue, where there is one, with more messages put into it.
pub open spec fn extended(
    queue: Option<Seq<WriteProgressView>>,
    messages: Seq<WriteProgressView>,
) -> Option<Seq<WriteProgressView>> {
    match queue {
        Some(q) => Some(q + messages),
        None => None,
    }
}

/// The letter of the drive's volume.
pub open spec fn target_letter(config: UsbWriteConfig) -> char {
    match first(config.device.letter@) {
        Some(c) => c,
        None => 'D',
    }
}

/// What a writer does on an event.
pub struct WriteNext {
    /// The drive that the image is mounted as, once it is.
    pub iso_drive: Seq<char>,
    /// The messages that are sent, in order.
    pub messages: Seq<WriteProgressView>,
    /// What is done next.
    pub action: WriteAction<Seq<char>, Seq<char>>,
}

/// Giving up with `error`.
pub open spec fn give_up(iso_drive: Seq<char>, error: BootError) -> WriteNext {
    WriteNext {
        iso_drive,
        messages: seq![gone_wrong(error@)],
        action: WriteAction::Finished(Err(error@)),
    }
}

/// Going on, without a message, with `action`.
pub open spec fn quietly(
    iso_drive: Seq<char>,
    action: WriteAction<Seq<char>, Seq<char>>,
) -> WriteNext {
    WriteNext { iso_drive, messages: Seq::empty(), action }
}

/// Going on from the formatted volume.
pub open spec fn after_format(config: UsbWriteConfig, iso_drive: Seq<char>) -> WriteNext {
    WriteNext {
        iso_drive,
        messages: seq![
            on_the_way("格式化完成"@, 100, 40),
            on_the_way("正在挂载 ISO 镜像..."@, 0, 45),
        ],
        action: WriteAction::MountIso { path: config.iso_path@ },
    }
}

/// Going on from the copied files.
pub open spec fn after_copy(config: UsbWriteConfig, iso_drive: Seq<char>) -> WriteNext {
    WriteNext {
        iso_drive,
        messages: seq![
            on_the_way("文件复制完成"@, 100, 80),
            on_the_way("正在写入引导记录..."@, 0, 85),
        ],
        action: match config.partition_scheme {
            PartitionScheme::Mbr => WriteAction::WriteMbr {
                drive: config.device.physical_drive,
                mbr_type: "/nt60"@,
            },
            PartitionScheme::Gpt => WriteAction::CheckSystemEfi { path: "S:\\EFI"@ },
        },
    }
}

/// Going on from the boot records.
pub open spec fn after_boot(iso_drive: Seq<char>) -> WriteNext {
    WriteNext {
        iso_drive,
        messages: seq![
            on_the_way("引导记录已写入"@, 100, 90),
            on_the_way("正在清理..."@, 50, 95),
        ],
        action: WriteAction::UnmountIso,
    }
}

/// Where the boot files of an image are looked for that is mounted as `iso_drive`, with or
/// without a colon at its end. A drive letter alone gets its colon back; any other
/// directory is taken as it is.
pub open spec fn iso_efi_dir(iso_drive: Seq<char>) -> Seq<char> {
    let place = trimmed_end(iso_drive, ':');
    if place.len() == 1 && is_letter(place[0]) {
        drive_colon(place[0]) + "\\EFI"@
    } else {
        place + "\\EFI"@
    }
}

/// What a writer with `config` does on `event`, with the image mounted as
/// `iso_drive`.
pub open spec fn write_next(
    config: UsbWriteConfig,
    iso_drive: Seq<char>,
    event: WriteEvent,
) -> WriteNext {
    let letter = target_letter(config);
    let drive = config.device.physical_drive;
    match event {
        WriteEvent::Begin => WriteNext {
            iso_drive,
            messages: seq![on_the_way("正在准备目标设备..."@, 0, 0)],
            action: WriteAction::LockVolume { letter },
        },
        WriteEvent::VolumeLocked(Ok(_)) => WriteNext {
            iso_drive,
            messages: seq![
                on_the_way("目标设备已准备"@, 100, 5),
                on_the_way("正在清理磁盘分区..."@, 0, 10),
            ],
            action: WriteAction::CleanDisk { drive },
        },
        WriteEvent::DiskCleaned(Ok(_)) => WriteNext {
            iso_drive,
            messages: seq![on_the_way("磁盘已清理"@, 50, 15)],
            action: match config.partition_scheme {
                PartitionScheme::Mbr => WriteAction::CreateMbrPartition { drive, active: true },
                PartitionScheme::Gpt => WriteAction::CreateGptPartitions {
                    drive,
                    efi_size_mb: config.efi_size_mb,
                    data_size_mb: 0,
                },
            },
        },
        WriteEvent::Partitioned(Ok(_)) => WriteNext {
            iso_drive,
            messages: seq![
                on_the_way("分区表已创建"@, 100, 20),
                on_the_way("正在格式化分区..."@, 0, 25),
            ],
            action: WriteAction::LoadFormatter,
        },
        WriteEvent::FormatterLoaded(Ok(_)) => quietly(
            iso_drive,
            WriteAction::Format {
                letter,
                file_system: config.file_system,
                label: config.volume_label@,
                quick_format: config.quick_format,
            },
        ),
        WriteEvent::Formatted(Ok(_)) => after_format(config, iso_drive),
        WriteEvent::Formatted(Err(_)) => quietly(
            iso_drive,
            WriteAction::FormatByCommand {
                letter,
                file_system: config.file_system,
                label: config.volume_label@,
                quick_format: config.quick_format,
            },
        ),
        WriteEvent::FormattedByCommand(Ok(_)) => after_format(config, iso_drive),
        WriteEvent::IsoMounted(Ok(mounted)) => WriteNext {
            iso_drive: mounted@,
            messages: seq![
                on_the_way("ISO 已挂载"@, 100, 50),
                on_the_way("正在复制文件到 U盘..."@, 0, 55),
            ],
            action: WriteAction::CopyFiles {
                source: mounted@,
                dest: drive_colon(letter),
                progress_start: COPY_START,
                progress_end: COPY_END,
            },
        },
        WriteEvent::FilesCopied(Ok(_)) => after_copy(config, iso_drive),
        WriteEvent::FilesCopied(Err(_)) => quietly(
            iso_drive,
            WriteAction::CopyFilesSingly { source: iso_drive, dest: drive_colon(letter) },
        ),
        WriteEvent::FilesCopiedSingly(Ok(_)) => after_copy(config, iso_drive),
        WriteEvent::MbrWritten(Ok(_)) => quietly(
            iso_drive,
            WriteAction::WritePbr { letter, pbr_type: "/nt60"@ },
        ),
        WriteEvent::PbrWritten(Ok(_)) => after_boot(iso_drive),
        WriteEvent::SystemEfiChecked(true) => after_boot(iso_drive),
        WriteEvent::SystemEfiChecked(false) => quietly(
            iso_drive,
            WriteAction::CheckVolumeEfi { path: seq![letter] + ":\\EFI\\BOOT"@ },
        ),
        WriteEvent::VolumeEfiChecked(true) => after_boot(iso_drive),
        WriteEvent::VolumeEfiChecked(false) => quietly(
            iso_drive,
            WriteAction::CheckIsoEfi { path: iso_efi_dir(iso_drive) },
        ),
        WriteEvent::IsoEfiChecked(true) => quietly(
            iso_drive,
            WriteAction::CopyEfi {
                source: iso_efi_dir(iso_drive),
                dest: drive_colon(letter) + "\\EFI"@,
            },
        ),
        WriteEvent::IsoEfiChecked(false) => after_boot(iso_drive),
        WriteEvent::EfiCopied(Ok(_)) => after_boot(iso_drive),
        WriteEvent::IsoUnmounted(_) => quietly(iso_drive, WriteAction::UnlockVolume { letter }),
        WriteEvent::VolumeUnlocked(_) => WriteNext {
            iso_drive,
            messages: seq![on_the_way("启动盘制作完成！"@, 100, 100), all_done()],
            action: WriteAction::Finished(Ok(())),
        },
        WriteEvent::VolumeLocked(Err(e)) => give_up(iso_drive, e),
        WriteEvent::DiskCleaned(Err(e)) => give_up(iso_drive, e),
        WriteEvent::Partitioned(Err(e)) => give_up(iso_drive, e),
        WriteEvent::FormatterLoaded(Err(e)) => give_up(iso_drive, e),
        WriteEvent::FormattedByCommand(Err(e)) => give_up(iso_drive, e),
        WriteEvent::IsoMounted(Err(e)) => give_up(iso_drive, e),
        WriteEvent::FilesCopiedSingly(Err(e)) => give_up(iso_drive, e),
        WriteEvent::MbrWritten(Err(e)) => give_up(iso_drive, e),
        WriteEvent::PbrWritten(Err(e)) => give_up(iso_drive, e),
        WriteEvent::EfiCopied(Err(e)) => give_up(iso_drive, e),
    }
}

/// Makes boot drives.
pub struct UsbWriter {
    config: UsbWriteConfig,
    progress_tx: Option<ProgressQueue>,
    iso_drive: String,
}

impl UsbWriter {
    /// What drive is made.
    pub closed spec fn config(&self) -> UsbWriteConfig {
        self.config
    }

    /// The messages that were sent and not yet taken, where messages are wanted.
    pub closed spec fn sent(&self) -> Option<Seq<WriteProgressView>> {
        match self.progress_tx {
            Some(q) => Some(q@),
            None => None,
        }
    }

    /// The drive that the image is mounted as, once it is.
    pub closed spec fn mounted(&self) -> Seq<char> {
        self.iso_drive@
    }

    /// A writer that sends no messages.
    pub fn new(config: UsbWriteConfig) -> (r: Self)
        ensures
            r.config() == config,
            r.sent() is None,
            r.mounted() == Seq::<char>::empty(),
    {
        UsbWriter { config, progress_tx: None, iso_drive: String::new() }
    }

    /// The same writer, with its messages sent to `tx`.
    pub fn with_progress(self, tx: ProgressQueue) -> (r: Self)
        ensures
            r.config() == self.config(),
            r.sent() == Some(tx@),
            r.mounted() == self.mounted(),
    {
        UsbWriter { config: self.config, progress_tx: Some(tx), iso_drive: self.iso_drive }
    }

    /// Sends a message, where messages are wanted.
    fn send(&mut self, message: WriteProgress)
        ensures
            final(self).config() == old(self).config(),
            final(self).mounted() == old(self).mounted(),
            final(self).sent() == extended(old(self).sent(), seq![message@]),
    {
        if let Some(tx) = &mut self.progress_tx {
            let ghost before = tx@;
            tx.send(message);
            assert(tx@ =~= before + seq![message@]);
        }
    }

    /// Sends a message on the way.
    pub fn send_progress(&mut self, step: &str, step_pct: u8, total_pct: u8)
        ensures
            final(self).config() == old(self).config(),
            final(self).mounted() == old(self).mounted(),
            final(self).sent() == extended(
                old(self).sent(),
                seq![on_the_way(step@, step_pct, total_pct)],
            ),
    {
        self.send(
            WriteProgress {
                step: step.to_string(),
                step_progress: step_pct,
                total_progress: total_pct,
                finished: false,
                error: None,
            },
        );
    }

    /// Sends two messages on the way.
    fn send_both(&mut self, a: (&str, u8, u8), b: (&str, u8, u8))
        ensures
            final(self).config() == old(self).config(),
            final(self).mounted() == old(self).mounted(),
            final(self).sent() == extended(
                old(self).sent(),
                seq![on_the_way(a.0@, a.1, a.2), on_the_way(b.0@, b.1, b.2)],
            ),
    {
        self.send_progress(a.0, a.1, a.2);
        self.send_progress(b.0, b.1, b.2);
        proof {
            joined_messages(
                old(self).sent(),
                on_the_way(a.0@, a.1, a.2),
                on_the_way(b.0@, b.1, b.2),
            );
        }
    }

    /// Sends the message that the drive is made.
    pub fn send_finished(&mut self)
        ensures
            final(self).config() == old(self).config(),
            final(self).mounted() == old(self).mounted(),
            final(self).sent() == extended(old(self).sent(), seq![all_done()]),
    {
        self.send(
            WriteProgress {
                step: "完成".to_string(),
                step_progress: 100,
                total_progress: 100,
                finished: true,
                error: None,
            },
        );
    }

    /// Sends the message that the drive could not be made.
    pub fn send_error(&mut self, error: &str)
        ensures
            final(self).config() == old(self).config(),
            final(self).mounted() == old(self).mounted(),
            final(self).sent() == extended(old(self).sent(), seq![gone_wrong(error@)]),
    {
        self.send(
            WriteProgress {
                step: "错误".to_string(),
                step_progress: 0,
                total_progress: 0,
                finished: true,
                error: Some(error.to_string()),
            },
        );
    }

    /// Takes the first message that was sent and not yet taken.
    pub fn take_progress(&mut self) -> (r: Option<WriteProgress>)
        ensures
            final(self).config() == old(self).config(),
            final(self).mounted() == old(self).mounted(),
            match r {
                Some(message) => {
                    &&& old(self).sent() matches Some(queue)
                    &&& queue.len() > 0
                    &&& message@ == queue[0]
                    &&& final(self).sent() == Some(queue.drop_first())
                },
                None => {
                    &&& old(self).sent() matches Some(queue) ==> queue.len() == 0
                    &&& final(self).sent() == old(self).sent()
                },
            },
    {
        match &mut self.progress_tx {
            Some(tx) => tx.try_recv(),
            None => None,
        }
    }

    /// The letter of the drive's volume.
    fn letter(&self) -> (r: char)
        ensures
            r == target_letter(self.config()),
    {
        match first_char(self.config.device.letter.as_str()) {
            Some(c) => c,
            None => 'D',
        }
    }

    /// Gives up with `error`.
    fn fail(&mut self, error: BootError) -> (r: WriteAction<String, BootError>)
        ensures
            final(self).config() == old(self).config(),
            final(self).mounted() == old(self).mounted(),
            final(self).sent() == extended(
                old(self).sent(),
                give_up(old(self).mounted(), error).messages,
            ),
            r@ == give_up(old(self).mounted(), error).action,
    {
        self.send_error(error.message.as_str());
        WriteAction::Finished(Err(error))
    }

    /// Goes on from the formatted volume.
    fn go_on_from_format(&mut self) -> (r: WriteAction<String, BootError>)
        ensures
            final(self).config() == old(self).config(),
            final(self).mounted() == old(self).mounted(),
            final(self).sent() == extended(
                old(self).sent(),
                after_format(old(self).config(), old(self).mounted()).messages,
            ),
            r@ == after_format(old(self).config(), old(self).mounted()).action,
    {
        self.send_both(("格式化完成", 100, 40), ("正在挂载 ISO 镜像...", 0, 45));
        WriteAction::MountIso { path: self.config.iso_path.clone() }
    }

    /// Goes on from the copied files.
    fn go_on_from_copy(&mut self) -> (r: WriteAction<String, BootError>)
        ensures
            final(self).config() == old(self).config(),
            final(self).mounted() == old(self).mounted(),
            final(self).sent() == extended(
                old(self).sent(),
                after_copy(old(self).config(), old(self).mounted()).messages,
            ),
            r@ == after_copy(old(self).config(), old(self).mounted()).action,
    {
        self.send_both(("文件复制完成", 100, 80), ("正在写入引导记录...", 0, 85));
        match self.config.partition_scheme {
            PartitionScheme::Mbr => WriteAction::WriteMbr {
                drive: self.config.device.physical_drive,
                mbr_type: "/nt60".to_string(),
            },
            PartitionScheme::Gpt => WriteAction::CheckSystemEfi { path: "S:\\EFI".to_string() },
        }
    }

    /// Goes on from the boot records.
    fn go_on_from_boot(&mut self) -> (r: WriteAction<String, BootError>)
        ensures
            final(self).config() == old(self).config(),
            final(self).mounted() == old(self).mounted(),
            final(self).sent() == extended(
                old(self).sent(),
                after_boot(old(self).mounted()).messages,
            ),
            r@ == after_boot(old(self).mounted()).action,
    {
        self.send_both(("引导记录已写入", 100, 90), ("正在清理...", 50, 95));
        WriteAction::UnmountIso
    }

    /// Where the boot files of the image are looked for.
    fn iso_efi(&self) -> (r: String)
        ensures
            r@ == iso_efi_dir(self.mounted()),
    {
        let place = trim_end(self.iso_drive.as_str(), ':');
        let cs = chars_of(place.as_str());
        if cs.len() == 1 && letter_like(cs[0]) {
            drive_colon_string(cs[0]).concat("\\EFI")
        } else {
            place.concat("\\EFI")
        }
    }

    /// Takes note of `event`, sends the messages that it gives rise to, and
    /// answers with what to do next. Where the work fails, the last message tells
    /// why.
    pub fn write(&mut self, event: WriteEvent) -> (r: WriteAction<String, BootError>)
        ensures
            final(self).config() == old(self).config(),
            final(self).mounted() == write_next(
                old(self).config(),
                old(self).mounted(),
                event,
            ).iso_drive,
            final(self).sent() == extended(
                old(self).sent(),
                write_next(old(self).config(), old(self).mounted(), event).messages,
            ),
            r@ == write_next(old(self).config(), old(self).mounted(), event).action,
    {
        let letter = self.letter();
        let drive = self.config.device.physical_drive;
        let ghost queue = self.sent();
        proof {
            no_messages(queue);
        }
        match event {
            WriteEvent::Begin => {
                self.send_progress("正在准备目标设备...", 0, 0);
                WriteAction::LockVolume { letter }
            },
            WriteEvent::VolumeLocked(Ok(_)) => {
                self.send_both(("目标设备已准备", 100, 5), ("正在清理磁盘分区...", 0, 10));
                WriteAction::CleanDisk { drive }
            },
            WriteEvent::DiskCleaned(Ok(_)) => {
                self.send_progress("磁盘已清理", 50, 15);
                match self.config.partition_scheme {
                    PartitionScheme::Mbr => WriteAction::CreateMbrPartition {
                        drive,
                        active: true,
                    },
                    PartitionScheme::Gpt => WriteAction::CreateGptPartitions {
                        drive,
                        efi_size_mb: self.config.efi_size_mb,
                        data_size_mb: 0,
                    },
                }
            },
            WriteEvent::Partitioned(Ok(_)) => {
                self.send_both(("分区表已创建", 100, 20), ("正在格式化分区...", 0, 25));
                WriteAction::LoadFormatter
            },
            WriteEvent::FormatterLoaded(Ok(_)) => WriteAction::Format {
                letter,
                file_system: self.config.file_system,
                label: self.config.volume_label.clone(),
                quick_format: self.config.quick_format,
            },
            WriteEvent::Formatted(Ok(_)) => self.go_on_from_format(),
            WriteEvent::Formatted(Err(_)) => WriteAction::FormatByCommand {
                letter,
                file_system: self.config.file_system,
                label: self.config.volume_label.clone(),
                quick_format: self.config.quick_format,
            },
            WriteEvent::FormattedByCommand(Ok(_)) => self.go_on_from_format(),
            WriteEvent::IsoMounted(Ok(mounted)) => {
                self.iso_drive = mounted;
                self.send_both(("ISO 已挂载", 100, 50), ("正在复制文件到 U盘...", 0, 55));
                WriteAction::CopyFiles {
                    source: self.iso_drive.clone(),
                    dest: drive_colon_string(letter),
                    progress_start: COPY_START,
                    progress_end: COPY_END,
                }
            },
            WriteEvent::FilesCopied(Ok(_)) => self.go_on_from_copy(),
            WriteEvent::FilesCopied(Err(_)) => WriteAction::CopyFilesSingly {
                source: self.iso_drive.clone(),
                dest: drive_colon_string(letter),
            },
            WriteEvent::FilesCopiedSingly(Ok(_)) => self.go_on_from_copy(),
            WriteEvent::MbrWritten(Ok(_)) => WriteAction::WritePbr {
                letter,
                pbr_type: "/nt60".to_string(),
            },
            WriteEvent::PbrWritten(Ok(_)) => self.go_on_from_boot(),
            WriteEvent::SystemEfiChecked(exists) => if exists {
                self.go_on_from_boot()
            } else {
                WriteAction::CheckVolumeEfi { path: char_string(letter).concat(":\\EFI\\BOOT") }
            },
            WriteEvent::VolumeEfiChecked(exists) => if exists {
                self.go_on_from_boot()
            } else {
                WriteAction::CheckIsoEfi { path: self.iso_efi() }
            },
            WriteEvent::IsoEfiChecked(exists) => if exists {
                WriteAction::CopyEfi {
                    source: self.iso_efi(),
                    dest: drive_colon_string(letter).concat("\\EFI"),
                }
            } else {
                self.go_on_from_boot()
            },
            WriteEvent::EfiCopied(Ok(_)) => self.go_on_from_boot(),
            WriteEvent::IsoUnmounted(_) => WriteAction::UnlockVolume { letter },
            WriteEvent::VolumeUnlocked(_) => {
                self.send_progress("启动盘制作完成！", 100, 100);
                self.send_finished();
                proof {
                    joined_messages(
                        queue,
                        on_the_way("启动盘制作完成！"@, 100, 100),
                        all_done(),
                    );
                }
                WriteAction::Finished(Ok(()))
            },
            WriteEvent::VolumeLocked(Err(e)) => self.fail(e),
            WriteEvent::DiskCleaned(Err(e)) => self.fail(e),
            WriteEvent::Partitioned(Err(e)) => self.fail(e),
            WriteEvent::FormatterLoaded(Err(e)) => self.fail(e),
            WriteEvent::FormattedByCommand(Err(e)) => self.fail(e),
            WriteEvent::IsoMounted(Err(e)) => self.fail(e),
            WriteEvent::FilesCopiedSingly(Err(e)) => self.fail(e),
            WriteEvent::MbrWritten(Err(e)) => self.fail(e),
            WriteEvent::PbrWritten(Err(e)) => self.fail(e),
            WriteEvent::EfiCopied(Err(e)) => self.fail(e),
        }
    }
}

/// Whether the drive at position `at` is the first one whose letter is `letter`.
pub open spec fn first_of_letter(devices: Seq<UsbDevice>, letter: char, at: int) -> bool {
    &&& 0 <= at < devices.len()
    &&& first(devices[at].letter@) == Some(letter)
    &&& forall|i: int| 0 <= i < at ==> first((#[trigger] devices[i]).letter@) != Some(letter)
}

/// The size in bytes above which an image is put on NTFS, since FAT32 might not be able to
/// hold its files.
pub const FAT32_FILE_LIMIT: u64 = 4294967296;

/// The file system for an image of `iso_size` bytes: an image that may hold a
/// file too large for FAT32 needs NTFS. An image of unknown size counts as empty.
pub open spec fn suitable_file_system(iso_size: Option<u64>) -> FsType {
    match iso_size {
        Some(size) => if size > FAT32_FILE_LIMIT {
            FsType::NTFS
        } else {
            FsType::FAT32
        },
        None => FsType::FAT32,
    }
}

/// Whether `config` is the usual one for putting an image on a drive.
pub open spec fn is_usual(
    config: UsbWriteConfig,
    device: UsbDevice,
    iso_path: Seq<char>,
    iso_size: Option<u64>,
) -> bool {
    &&& config.device == device
    &&& config.iso_path@ == iso_path
    &&& config.partition_scheme == PartitionScheme::Mbr
    &&& config.target_system == TargetSystem::BiosOrUefiCsm
    &&& config.file_system == suitable_file_system(iso_size)
    &&& config.volume_label@ == "WINPE"@
    &&& config.quick_format
    &&& config.efi_size_mb == 100
}

/// Whether there is a drive whose name begins with `letter`.
pub open spec fn has_letter(devices: Seq<UsbDevice>, letter: char) -> bool {
    exists|i: int|
        0 <= i < devices.len() && (#[trigger] devices[i]).letter@.len() > 0 && devices[i].letter@[0]
            == letter
}

/// A writer that puts the image at `iso_path` on the drive `usb_letter` in the
/// usual way. `devices` are the drives there are, and `iso_size` is the size of
/// the image, where it is known.
pub fn create_bootable_usb(
    iso_path: &str,
    usb_letter: char,
    progress_tx: Option<ProgressQueue>,
    devices: &Vec<UsbDevice>,
    iso_size: Option<u64>,
) -> (r: Result<UsbWriter, BootError>)
    ensures
        match r {
            Ok(writer) => {
                &&& exists|at: int| #[trigger]
                    first_of_letter(devices@, usb_letter, at) && is_usual(
                        writer.config(),
                        devices@[at],
                        iso_path@,
                        iso_size,
                    )
                &&& writer.mounted() == Seq::<char>::empty()
                &&& match progress_tx {
                    Some(tx) => writer.sent() == Some(tx@),
                    None => writer.sent() is None,
                }
            },
            Err(e) => {
                &&& forall|i: int|
                    0 <= i < devices@.len() ==> first((#[trigger] devices@[i]).letter@) != Some(
                        usb_letter,
                    )
                &&& e@ == "未找到 USB 设备: "@ + seq![usb_letter] + ":"@
            },
        },
        r is Ok <==> has_letter(devices@, usb_letter),
{
    let mut at: usize = 0;
    while at < devices.len()
        invariant
            at <= devices@.len(),
            forall|i: int|
                0 <= i < at ==> first((#[trigger] devices@[i]).letter@) != Some(usb_letter),
        decreases devices@.len() - at,
    {
        let letter = first_char(devices[at].letter.as_str());
        let here = match letter {
            Some(c) => c == usb_letter,
            None => false,
        };
        if here {
            let file_system = match iso_size {
                Some(size) => if size > FAT32_FILE_LIMIT {
                    FsType::NTFS
                } else {
                    FsType::FAT32
                },
                None => FsType::FAT32,
            };
            let config = UsbWriteConfig {
                device: devices[at].clone(),
                iso_path: iso_path.to_string(),
                partition_scheme: PartitionScheme::Mbr,
                target_system: TargetSystem::BiosOrUefiCsm,
                file_system,
                volume_label: "WINPE".to_string(),
                quick_format: true,
                efi_size_mb: 100,
            };
            assert(first_of_letter(devices@, usb_letter, at as int));
            assert(has_letter(devices@, usb_letter)) by {
                assert(devices@[at as int].letter@[0] == usb_letter);
            }
            let writer = UsbWriter::new(config);
            return Ok(
                match progress_tx {
                    Some(tx) => writer.with_progress(tx),
                    None => writer,
                },
            );
        }
        at = at + 1;
    }
    assert(!has_letter(devices@, usb_letter));
    let message = "未找到 USB 设备: ".to_string().concat(char_string(usb_letter).as_str()).concat(":");
    Err(BootError::from_message(message))
}

/// Two messages sent one after the other are two messages sent.
proof fn joined_messages(
    queue: Option<Seq<WriteProgressView>>,
    a: WriteProgressView,
    b: WriteProgressView,
)
    ensures
        extended(extended(queue, seq![a]), seq![b]) == extended(queue, seq![a, b]),
{
    if let Some(q) = queue {
        assert(q + seq![a] + seq![b] =~= q + seq![a, b]);
    }
}

/// Sending nothing leaves a queue as it is.
pub(crate) proof fn no_messages(queue: Option<Seq<WriteProgressView>>)
    ensures
        extended(queue, Seq::empty()) == queue,
{
    if let Some(q) = queue {
        assert(q + Seq::<WriteProgressView>::empty() =~= q);
    }
}

} // verus!
