//! File systems, and how volumes are formatted.

use vstd::prelude::*;
use vstd::utf8::{decode_utf8, valid_utf8};
use crate::bootsect::{drive_colon, drive_colon_string};
use crate::error::{outcome, BootError};
use crate::host::{command, texts, RunEvent, RunOutcome, RunStep, ToolCommand, ToolCommandView};
use crate::text::{
    char_string, decimal, decimal_string, lossy_text, lossy_utf8, shorten, shortened,
};
use crate::utf16::{encode_z, utf16z};

verus! {

/// The kinds of file system.
#[allow(non_camel_case_types)]
#[derive(Debug, Clone, Copy, PartialEq, Eq, Structural)]
pub enum FsType {
    FAT,
    FAT32,
    NTFS,
    exFAT,
    UDF,
    ReFS,
}

impl FsType {
    /// The name by which the system knows the file system.
    pub open spec fn name(self) -> Seq<char> {
        match self {
            FsType::FAT => "FAT"@,
            FsType::FAT32 => "FAT32"@,
            FsType::NTFS => "NTFS"@,
            FsType::exFAT => "exFAT"@,
            FsType::UDF => "UDF"@,
            FsType::ReFS => "ReFS"@,
        }
    }

    /// The name by which the system knows the file system.
    pub fn as_fs_str(&self) -> (r: &'static str)
        ensures
            r@ == self.name(),
    {
        match self {
            FsType::FAT => "FAT",
            FsType::FAT32 => "FAT32",
            FsType::NTFS => "NTFS",
            FsType::exFAT => "exFAT",
            FsType::UDF => "UDF",
            FsType::ReFS => "ReFS",
        }
    }

    /// The usual size of a cluster, in bytes, on a disk of `mb` megabytes.
    pub open spec fn cluster_size(self, mb: nat) -> nat {
        match self {
            FsType::FAT32 => if mb <= 256 {
                512
            } else if mb <= 8192 {
                4096
            } else if mb <= 16384 {
                8192
            } else if mb <= 32768 {
                16384
            } else {
                32768
            },
            FsType::exFAT => if mb <= 256 {
                4096
            } else if mb <= 32768 {
                32768
            } else if mb <= 262144 {
                131072
            } else {
                1048576
            },
            _ => 4096,
        }
    }

    /// The usual size of a cluster, in bytes, on a disk of `disk_size_mb` megabytes.
    pub fn default_cluster_size(&self, disk_size_mb: u64) -> (r: u32)
        ensures
            r == self.cluster_size(disk_size_mb as nat),
    {
        match self {
            FsType::FAT32 => {
                if disk_size_mb <= 256 {
                    512
                } else if disk_size_mb <= 8192 {
                    4096
                } else if disk_size_mb <= 16384 {
                    8192
                } else if disk_size_mb <= 32768 {
                    16384
                } else {
                    32768
                }
            },
            FsType::exFAT => {
                if disk_size_mb <= 256 {
                    4096
                } else if disk_size_mb <= 32768 {
                    32768
                } else if disk_size_mb <= 262144 {
                    131072
                } else {
                    1048576
                }
            },
            _ => 4096,
        }
    }

    /// How many characters a volume label may have.
    pub open spec fn label_limit(self) -> nat {
        match self {
            FsType::FAT | FsType::FAT32 | FsType::exFAT => 11,
            _ => 32,
        }
    }

    /// How many characters a volume label may have.
    pub fn max_label_length(&self) -> (r: usize)
        ensures
            r == self.label_limit(),
    {
        match self {
            FsType::FAT | FsType::FAT32 => 11,
            FsType::NTFS => 32,
            FsType::exFAT => 11,
            _ => 32,
        }
    }
}

/// What loading the system's formatting library gave.
#[derive(Debug, Clone, Copy, PartialEq, Eq, Structural)]
pub enum LibraryLoad {
    /// The library and its function are at hand.
    Loaded,
    /// The library could not be loaded.
    LibraryMissing,
    /// The library lacks the function.
    FunctionMissing,
    /// The system has no such library.
    Unsupported,
}

/// Formats volumes with the system's formatting library. There is one only
/// where the library has been loaded.
pub struct VolumeFormatter {
    loaded: (),
}

/// The arguments of the library's formatting function. Texts are UTF-16, with a
/// zero at the end.
#[derive(Debug)]
pub struct FormatRequest {
    /// The root directory of the volume.
    pub drive_root: Vec<u16>,
    /// 1 for a removable volume.
    pub media_flag: u32,
    /// The name of the file system.
    pub format: Vec<u16>,
    /// The volume label.
    pub label: Vec<u16>,
    /// 1 to format quickly, 0 to format in full.
    pub quick_format: i32,
    /// The size of a cluster in bytes, or 0 for the usual one.
    pub cluster_size: u32,
}

/// The arguments of the library's formatting function.
pub struct FormatRequestView {
    /// The root directory of the volume.
    pub drive_root: Seq<u16>,
    /// 1 for a removable volume.
    pub media_flag: u32,
    /// The name of the file system.
    pub format: Seq<u16>,
    /// The volume label.
    pub label: Seq<u16>,
    /// 1 to format quickly, 0 to format in full.
    pub quick_format: i32,
    /// The size of a cluster in bytes, or 0 for the usual one.
    pub cluster_size: u32,
}

impl View for FormatRequest {
    type V = FormatRequestView;

    open spec fn view(&self) -> FormatRequestView {
        FormatRequestView {
            drive_root: self.drive_root@,
            media_flag: self.media_flag,
            format: self.format@,
            label: self.label@,
            quick_format: self.quick_format,
            cluster_size: self.cluster_size,
        }
    }
}

/// What happened while a volume is formatted.
#[derive(Debug)]
pub enum FormatEvent {
    /// The operation begins.
    Begin,
    /// The library's function returned this code.
    Returned(u32),
}

/// What comes next while a volume is formatted.
#[derive(Debug)]
pub enum FormatStep<R, E> {
    /// Call the library's function.
    Call(R),
    /// The operation is over.
    Finished(Result<(), E>),
}

impl View for FormatStep<FormatRequest, BootError> {
    type V = FormatStep<FormatRequestView, Seq<char>>;

    open spec fn view(&self) -> FormatStep<FormatRequestView, Seq<char>> {
        match *self {
            FormatStep::Call(q) => FormatStep::Call(q@),
            FormatStep::Finished(r) => FormatStep::Finished(outcome(r)),
        }
    }
}

/// What loading the library comes to: a formatter, or the reason why there is none.
pub open spec fn load_failure(load: LibraryLoad) -> Option<Seq<char>> {
    match load {
        LibraryLoad::Loaded => None,
        LibraryLoad::LibraryMissing => Some("无法加载 fmifs.dll，请确保系统文件完整"@),
        LibraryLoad::FunctionMissing => Some("fmifs.dll 中未找到 FormatEx 函数"@),
        LibraryLoad::Unsupported => Some("格式化仅支持 Windows 系统"@),
    }
}

/// The call that formats the volume `letter`. The volume is passed off as
/// removable, and the label is cut to the length that the file system allows.
pub open spec fn format_request(
    letter: char,
    fs_type: FsType,
    label: Seq<char>,
    quick_format: bool,
    cluster_size: u32,
) -> FormatRequestView {
    FormatRequestView {
        drive_root: utf16z(seq![letter] + ":\\"@),
        media_flag: 1,
        format: utf16z(fs_type.name()),
        label: utf16z(shortened(label, fs_type.label_limit())),
        quick_format: if quick_format {
            1
        } else {
            0
        },
        cluster_size,
    }
}

/// What follows on `event` while the volume `letter` is formatted.
pub open spec fn format_next(
    letter: char,
    fs_type: FsType,
    label: Seq<char>,
    quick_format: bool,
    cluster_size: u32,
    event: FormatEvent,
) -> FormatStep<FormatRequestView, Seq<char>> {
    match event {
        FormatEvent::Begin => FormatStep::Call(
            format_request(letter, fs_type, label, quick_format, cluster_size),
        ),
        FormatEvent::Returned(code) => if code == 0 {
            FormatStep::Finished(Ok(()))
        } else {
            FormatStep::Finished(
                Err("格式化 "@ + seq![letter] + ": 失败，错误代码: "@ + decimal(code as nat)),
            )
        },
    }
}

/// The arguments of the system's formatting command.
pub open spec fn fallback_args(
    letter: char,
    fs_type: FsType,
    label: Seq<char>,
    quick_format: bool,
) -> Seq<Seq<char>> {
    let start = seq![drive_colon(letter), "/FS:"@ + fs_type.name()];
    let quick = if quick_format {
        start.push("/Q"@)
    } else {
        start
    };
    let confirmed = quick.push("/Y"@);
    if label.len() == 0 {
        confirmed
    } else {
        confirmed.push("/V:"@ + label)
    }
}

/// How a run of the system's formatting command is judged.
pub open spec fn fallback_judged(success: bool, complaint: Seq<char>) -> Result<(), Seq<char>> {
    if success {
        Ok(())
    } else {
        Err("format.com 格式化失败: "@ + complaint)
    }
}

/// What follows on `event` while the system's formatting command is used.
pub open spec fn fallback_next(
    letter: char,
    fs_type: FsType,
    label: Seq<char>,
    quick_format: bool,
    event: RunEvent,
) -> RunStep<ToolCommandView, Seq<char>> {
    match event {
        RunEvent::Begin => RunStep::Run(
            ToolCommandView {
                program: "format.com"@,
                args: fallback_args(letter, fs_type, label, quick_format),
            },
        ),
        RunEvent::Ran(RunOutcome::Exited(output)) => RunStep::Finished(
            fallback_judged(output.success, lossy_utf8(output.stderr@)),
        ),
        RunEvent::Ran(_) => RunStep::Finished(Err("执行 format.com 失败"@)),
    }
}

impl VolumeFormatter {
    /// A formatter, once the system's library has been loaded.
    pub fn new(load: LibraryLoad) -> (r: Result<VolumeFormatter, BootError>)
        ensures
            match r {
                Ok(_) => load_failure(load) is None,
                Err(e) => load_failure(load) == Some(e@),
            },
    {
        match load {
            LibraryLoad::Loaded => Ok(VolumeFormatter { loaded: () }),
            LibraryLoad::LibraryMissing => Err(
                BootError::new("无法加载 fmifs.dll，请确保系统文件完整"),
            ),
            LibraryLoad::FunctionMissing => Err(BootError::new("fmifs.dll 中未找到 FormatEx 函数")),
            LibraryLoad::Unsupported => Err(BootError::new("格式化仅支持 Windows 系统")),
        }
    }

    /// Formats the volume `letter`, with clusters of the usual size. An empty
    /// `label` leaves the volume without one.
    pub fn format(
        &self,
        letter: char,
        fs_type: FsType,
        label: &str,
        quick_format: bool,
        event: FormatEvent,
    ) -> (r: FormatStep<FormatRequest, BootError>)
        ensures
            r@ == format_next(letter, fs_type, label@, quick_format, 0, event),
    {
        self.format_with_cluster_size(letter, fs_type, label, quick_format, 0, event)
    }

    /// Formats the volume `letter`, with clusters of `cluster_size` bytes.
    pub fn format_with_cluster_size(
        &self,
        letter: char,
        fs_type: FsType,
        label: &str,
        quick_format: bool,
        cluster_size: u32,
        event: FormatEvent,
    ) -> (r: FormatStep<FormatRequest, BootError>)
        ensures
            r@ == format_next(letter, fs_type, label@, quick_format, cluster_size, event),
    {
        match event {
            FormatEvent::Begin => {
                let root = char_string(letter).concat(":\\");
                let short_label = shorten(label, fs_type.max_label_length());
                FormatStep::Call(
                    FormatRequest {
                        drive_root: encode_z(root.as_str()),
                        media_flag: 1,
                        format: encode_z(fs_type.as_fs_str()),
                        label: encode_z(short_label.as_str()),
                        quick_format: if quick_format {
                            1
                        } else {
                            0
                        },
                        cluster_size,
                    },
                )
            },
            FormatEvent::Returned(code) => if code == 0 {
                FormatStep::Finished(Ok(()))
            } else {
                let message = "格式化 ".to_string().concat(
                    char_string(letter).as_str(),
                ).concat(": 失败，错误代码: ").concat(decimal_string(code as u64).as_str());
                FormatStep::Finished(Err(BootError::from_message(message)))
            },
        }
    }

    /// Formats the volume `letter` with the system's formatting command, for
    /// when the library's function failed. Where the command complained in well-formed
    /// UTF-8, the error tells its very words.
    pub fn format_fallback(
        letter: char,
        fs_type: FsType,
        label: &str,
        quick_format: bool,
        event: RunEvent,
    ) -> (r: RunStep<ToolCommand, BootError>)
        ensures
            r@ == fallback_next(letter, fs_type, label@, quick_format, event),
            event matches RunEvent::Ran(RunOutcome::Exited(output)) ==> (valid_utf8(
                output.stderr@,
            ) ==> lossy_utf8(output.stderr@) == decode_utf8(output.stderr@)),
    {
        match event {
            RunEvent::Begin => {
                let mut args: Vec<String> = vec![
                    drive_colon_string(letter),
                    "/FS:".to_string().concat(fs_type.as_fs_str()),
                ];
                if quick_format {
                    args.push("/Q".to_string());
                }
                args.push("/Y".to_string());
                if !label.is_empty() {
                    args.push("/V:".to_string().concat(label));
                }
                assert(texts(args@) =~= fallback_args(letter, fs_type, label@, quick_format));
                RunStep::Run(command("format.com", args))
            },
            RunEvent::Ran(RunOutcome::Exited(output)) => {
                let complaint = lossy_text(&output.stderr);
                RunStep::Finished(Self::judge_fallback(output.success, complaint.as_str()))
            },
            RunEvent::Ran(_) => RunStep::Finished(Err(BootError::new("执行 format.com 失败"))),
        }
    }

    /// Judges a run of the system's formatting command, which printed `complaint`
    /// to its standard error.
    pub fn judge_fallback(success: bool, complaint: &str) -> (r: Result<(), BootError>)
        ensures
            outcome(r) == fallback_judged(success, complaint@),
    {
        if success {
            Ok(())
        } else {
            Err(BootError::from_message("format.com 格式化失败: ".to_string().concat(complaint)))
        }
    }
}

/// A label never reaches the library with more characters than the file
/// system allows, and a label within that limit reaches it whole.
pub proof fn labels_fit(
    letter: char,
    fs_type: FsType,
    label: Seq<char>,
    quick_format: bool,
    cluster_size: u32,
)
    ensures
        exists|sent: Seq<char>|
            {
                &&& #[trigger] utf16z(sent) == format_request(
                    letter,
                    fs_type,
                    label,
                    quick_format,
                    cluster_size,
                ).label
                &&& sent.len() <= fs_type.label_limit()
                &&& label.len() <= fs_type.label_limit() ==> sent == label
            },
{
    let sent = shortened(label, fs_type.label_limit());
    assert(utf16z(sent) == format_request(
        letter,
        fs_type,
        label,
        quick_format,
        cluster_size,
    ).label);
}

/// Clusters never shrink as disks grow.
pub proof fn cluster_size_grows(fs_type: FsType, small: nat, large: nat)
    requires
        small <= large,
    ensures
        fs_type.cluster_size(small) <= fs_type.cluster_size(large),
{
}

/// Clusters have at least 512 bytes and at most a megabyte, and on FAT32 no more
/// than 32 kilobytes. They are whole multiples of 512 bytes.
pub proof fn cluster_size_is_allowed(fs_type: FsType, mb: nat)
    ensures
        512 <= fs_type.cluster_size(mb) <= 1048576,
        fs_type == FsType::FAT32 ==> fs_type.cluster_size(mb) <= 32768,
        fs_type.cluster_size(mb) % 512 == 0,
{
}

} // verus!
