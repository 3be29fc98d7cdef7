//! Boot records: the master boot record, the boot record of a partition, and
//! the boot files of an EFI system partition.

use vstd::prelude::*;
use crate::diskpart::{DiskpartJob, DiskpartJobView, DiskpartTask};
use crate::error::{outcome, BootError};
use crate::host::{
    command, path, texts, HostPath, HostPathView, RunEvent, RunOutcome, RunStep, ToolCommand,
    ToolCommandView,
};
use crate::text::{char_string, decimal, decimal_string};

verus! {

/// How a machine boots.
#[derive(Debug, Clone, Copy, PartialEq, Eq, Structural)]
pub enum BootType {
    /// BIOS or legacy boot, from an MBR.
    Bios,
    /// UEFI boot, from a GPT with an EFI partition.
    Uefi,
    /// Both.
    Both,
}

/// What kind of machine the drive is for.
#[derive(Debug, Clone, Copy, PartialEq, Eq, Structural)]
pub enum TargetSystem {
    /// BIOS, or UEFI with its compatibility module.
    BiosOrUefiCsm,
    /// UEFI alone.
    UefiOnly,
}

/// The tools that may come with the program.
#[derive(Debug, Clone, Copy, PartialEq, Eq, Structural)]
pub enum Tool {
    /// Writes boot records.
    Bootsect,
    /// Sets up the boot configuration.
    Bcdboot,
    /// Partitions disks.
    Diskpart,
}

/// Writes boot records and partitions disks.
pub struct BootSectorManager;

/// What happened while the master boot record is written.
#[derive(Debug)]
pub enum MbrEvent {
    /// The operation begins.
    Begin,
    /// The boot sector tool was run.
    Bootsect(RunOutcome),
    /// The job for the partitioning tool is over.
    Diskpart(Result<(), BootError>),
}

/// What comes next while the master boot record is written.
#[derive(Debug)]
pub enum MbrStep<C, J, E> {
    /// Run the boot sector tool.
    RunBootsect(C),
    /// Do a job with the partitioning tool.
    RunDiskpart(J),
    /// The operation is over.
    Finished(Result<(), E>),
}

impl View for MbrStep<ToolCommand, DiskpartJob, BootError> {
    type V = MbrStep<ToolCommandView, DiskpartJobView, Seq<char>>;

    open spec fn view(&self) -> MbrStep<ToolCommandView, DiskpartJobView, Seq<char>> {
        match *self {
            MbrStep::RunBootsect(c) => MbrStep::RunBootsect(c@),
            MbrStep::RunDiskpart(j) => MbrStep::RunDiskpart(j@),
            MbrStep::Finished(r) => MbrStep::Finished(outcome(r)),
        }
    }
}

/// What happened while the boot configuration is set up.
#[derive(Debug)]
pub enum BcdEvent {
    /// The operation begins.
    Begin,
    /// Whether the Windows directory is there.
    WindowsFound(bool),
    /// The tool was run.
    Ran(RunOutcome),
}

/// What comes next while the boot configuration is set up.
#[derive(Debug)]
pub enum BcdStep<S, C, E> {
    /// Find out whether this path exists.
    CheckExists(S),
    /// Run the tool.
    Run(C),
    /// The operation is over.
    Finished(Result<(), E>),
}

impl View for BcdStep<String, ToolCommand, BootError> {
    type V = BcdStep<Seq<char>, ToolCommandView, Seq<char>>;

    open spec fn view(&self) -> BcdStep<Seq<char>, ToolCommandView, Seq<char>> {
        match *self {
            BcdStep::CheckExists(p) => BcdStep::CheckExists(p@),
            BcdStep::Run(c) => BcdStep::Run(c@),
            BcdStep::Finished(r) => BcdStep::Finished(outcome(r)),
        }
    }
}

/// What happened while the EFI boot files are copied.
#[derive(Debug)]
pub enum EfiEvent {
    /// The operation begins.
    Begin,
    /// Whether the target directory could be created.
    DirCreated(bool),
    /// Whether the boot file to copy is there.
    SourceFound(bool),
    /// Whether the boot file could be copied.
    Copied(bool),
    /// The tool that makes the boot files was run.
    Generated(RunOutcome),
    /// Whether the boot file is there after that.
    Made(bool),
}

/// What comes next while the EFI boot files are copied.
#[derive(Debug)]
pub enum EfiStep<S, P, C, E> {
    /// Create this directory and those above it.
    CreateDir(S),
    /// Find out whether this path exists.
    CheckExists(P),
    /// Copy a file.
    CopyFile {
        /// The file.
        from: P,
        /// Where it goes.
        to: P,
    },
    /// Run the tool that makes the boot files.
    Run(C),
    /// Find out whether the tool made this file.
    CheckMade(P),
    /// The operation is over.
    Finished(Result<(), E>),
}

impl View for EfiStep<String, HostPath, ToolCommand, BootError> {
    type V = EfiStep<Seq<char>, HostPathView, ToolCommandView, Seq<char>>;

    open spec fn view(&self) -> EfiStep<Seq<char>, HostPathView, ToolCommandView, Seq<char>> {
        match *self {
            EfiStep::CreateDir(d) => EfiStep::CreateDir(d@),
            EfiStep::CheckExists(p) => EfiStep::CheckExists(p@),
            EfiStep::CopyFile { from, to } => EfiStep::CopyFile { from: from@, to: to@ },
            EfiStep::Run(c) => EfiStep::Run(c@),
            EfiStep::CheckMade(p) => EfiStep::CheckMade(p@),
            EfiStep::Finished(r) => EfiStep::Finished(outcome(r)),
        }
    }
}

/// Whether a program ran to its end.
pub open spec fn exited(outcome: RunOutcome) -> bool {
    outcome is Exited
}

/// Whether a program ran to its end and reported success.
pub open spec fn succeeded(outcome: RunOutcome) -> bool {
    outcome matches RunOutcome::Exited(output) && output.success
}

/// A tool's path: the one that comes with the program where it exists, and
/// the bare name, for the system to find, where it does not.
pub open spec fn found(builtin: Seq<char>, exists: bool, name: Seq<char>) -> Seq<char> {
    if exists {
        builtin
    } else {
        name
    }
}

/// Where a tool lies below the program's directory of tools.
pub open spec fn builtin_parts(tool: Tool) -> Seq<Seq<char>> {
    match tool {
        Tool::Bootsect => seq!["bootsect.exe"@],
        Tool::Bcdboot => seq!["bcdboot.exe"@],
        Tool::Diskpart => seq!["diskpart"@, "diskpart.exe"@],
    }
}

/// The system's name of a whole disk.
pub open spec fn drive_name(drive: u32) -> Seq<char> {
    "\\\\.\\PhysicalDrive"@ + decimal(drive as nat)
}

/// A drive letter with its colon.
pub open spec fn drive_colon(letter: char) -> Seq<char> {
    seq![letter] + ":"@
}

/// The script that makes a disk bootable.
pub open spec fn mbr_script(drive: u32) -> Seq<char> {
    "select disk "@ + decimal(drive as nat)
        + "\nclean\nconvert mbr\ncreate partition primary\nselect partition 1\nactive\n"@
}

/// The script that removes a partition table.
pub open spec fn clean_script(drive: u32) -> Seq<char> {
    "select disk "@ + decimal(drive as nat) + "\nclean\n"@
}

/// The script that creates one partition in an MBR table.
pub open spec fn mbr_partition_script(drive: u32, active: bool) -> Seq<char> {
    "select disk "@ + decimal(drive as nat) + "\nconvert mbr\ncreate partition primary\n"@ + (
    if active {
        "active\n"@
    } else {
        Seq::empty()
    }) + "select partition 1\n"@
}

/// The script that creates an EFI and a data partition in a GPT table. A data
/// partition of size zero takes all the space that is left.
pub open spec fn gpt_script(drive: u32, efi_size_mb: u32, data_size_mb: u32) -> Seq<char> {
    "select disk "@ + decimal(drive as nat) + "\nconvert gpt\ncreate partition efi size="@
        + decimal(efi_size_mb as nat)
        + "\nformat quick fs=fat32 label=\"EFI\"\nassign letter=\"S\"\ncreate partition primary"@
        + (if data_size_mb > 0 {
        " size="@ + decimal(data_size_mb as nat)
    } else {
        Seq::empty()
    }) + "\nformat quick fs=ntfs label=\"DATA\"\nselect partition 2\n"@
}

/// What follows on `event` while the master boot record of `drive` is written.
/// The partitioning tool steps in where the boot sector tool is missing or
/// fails.
pub open spec fn mbr_next(
    bootsect: Seq<char>,
    drive: u32,
    mbr_type: Seq<char>,
    event: MbrEvent,
) -> MbrStep<ToolCommandView, DiskpartJobView, Seq<char>> {
    match event {
        MbrEvent::Begin => MbrStep::RunBootsect(
            ToolCommandView {
                program: bootsect,
                args: seq![mbr_type, drive_name(drive), "/force"@, "/mbr"@],
            },
        ),
        MbrEvent::Bootsect(run) => if succeeded(run) {
            MbrStep::Finished(Ok(()))
        } else if run is NotFound || run is Exited {
            MbrStep::RunDiskpart(
                DiskpartJobView { task: DiskpartTask::WriteMbr, script: mbr_script(drive) },
            )
        } else {
            MbrStep::Finished(Err("执行 bootsect.exe 失败"@))
        },
        MbrEvent::Diskpart(r) => MbrStep::Finished(outcome(r)),
    }
}

/// What follows on `event` while the boot record of a partition is written.
/// That the tool reports failure is not fatal.
pub open spec fn pbr_next(
    bootsect: Seq<char>,
    letter: char,
    pbr_type: Seq<char>,
    event: RunEvent,
) -> RunStep<ToolCommandView, Seq<char>> {
    match event {
        RunEvent::Begin => RunStep::Run(
            ToolCommandView {
                program: bootsect,
                args: seq![pbr_type, drive_colon(letter), "/force"@],
            },
        ),
        RunEvent::Ran(run) => RunStep::Finished(
            if exited(run) {
                Ok(())
            } else {
                Err("执行 bootsect.exe 失败"@)
            },
        ),
    }
}

/// What follows on `event` while the boot configuration is set up.
pub open spec fn bcd_next(
    bcdboot: Seq<char>,
    source: Seq<char>,
    target: Seq<char>,
    firmware: Seq<char>,
    event: BcdEvent,
) -> BcdStep<Seq<char>, ToolCommandView, Seq<char>> {
    match event {
        BcdEvent::Begin => BcdStep::CheckExists(source + "\\Windows"@),
        BcdEvent::WindowsFound(true) => BcdStep::Run(
            ToolCommandView {
                program: bcdboot,
                args: seq![source + "\\Windows"@, "/s"@, target, "/f "@ + firmware, "/v"@],
            },
        ),
        BcdEvent::WindowsFound(false) => BcdStep::Finished(
            Err("源分区 "@ + source + " 中未找到 Windows 目录，无法设置引导"@),
        ),
        BcdEvent::Ran(run) => BcdStep::Finished(
            if exited(run) {
                Ok(())
            } else {
                Err("执行 bcdboot.exe 失败"@)
            },
        ),
    }
}

/// The directory of the boot files on an EFI system partition.
pub open spec fn efi_boot_dir(efi_partition: Seq<char>) -> Seq<char> {
    efi_partition + "\\EFI\\BOOT"@
}

/// The boot file of a Windows directory.
pub open spec fn boot_manager_path(windows_dir: Seq<char>) -> HostPathView {
    HostPathView { base: windows_dir, parts: seq!["Boot"@, "EFI"@, "bootmgfw.efi"@] }
}

/// Where the boot file goes.
pub open spec fn boot_file_path(efi_partition: Seq<char>) -> HostPathView {
    HostPathView { base: efi_boot_dir(efi_partition), parts: seq!["BOOTx64.EFI"@] }
}

/// What follows on `event` while the EFI boot files are copied. Where there is
/// no boot file to copy, a tool makes one, and what counts is whether it is there then.
pub open spec fn efi_next(
    bcdboot: Seq<char>,
    windows_dir: Seq<char>,
    efi_partition: Seq<char>,
    event: EfiEvent,
) -> EfiStep<Seq<char>, HostPathView, ToolCommandView, Seq<char>> {
    match event {
        EfiEvent::Begin => EfiStep::CreateDir(efi_boot_dir(efi_partition)),
        EfiEvent::DirCreated(true) => EfiStep::CheckExists(boot_manager_path(windows_dir)),
        EfiEvent::DirCreated(false) => EfiStep::Finished(Err("创建 EFI/BOOT 目录失败"@)),
        EfiEvent::SourceFound(true) => EfiStep::CopyFile {
            from: boot_manager_path(windows_dir),
            to: boot_file_path(efi_partition),
        },
        EfiEvent::SourceFound(false) => EfiStep::Run(
            ToolCommandView {
                program: bcdboot,
                args: seq![
                    windows_dir + "\\Windows"@,
                    "/s"@,
                    efi_partition,
                    "/f"@,
                    "UEFI"@,
                ],
            },
        ),
        EfiEvent::Copied(true) => EfiStep::Finished(Ok(())),
        EfiEvent::Copied(false) => EfiStep::Finished(Err("复制 EFI 引导文件失败"@)),
        EfiEvent::Generated(_) => EfiStep::CheckMade(boot_file_path(efi_partition)),
        EfiEvent::Made(true) => EfiStep::Finished(Ok(())),
        EfiEvent::Made(false) => EfiStep::Finished(Err("生成 EFI 引导文件失败"@)),
    }
}

/// A drive letter with its colon.
pub fn drive_colon_string(letter: char) -> (r: String)
    ensures
        r@ == drive_colon(letter),
{
    char_string(letter).concat(":")
}

/// The system's name of a whole disk.
pub fn drive_name_string(drive: u32) -> (r: String)
    ensures
        r@ == drive_name(drive),
{
    "\\\\.\\PhysicalDrive".to_string().concat(decimal_string(drive as u64).as_str())
}

impl BootSectorManager {
    /// Writes the master boot record of a disk with the boot sector tool at
    /// `bootsect_path`. `mbr_type` is the kind of record: `/nt52` for XP, `/nt60`
    /// for Vista and later. Where the tool does not exist or reports failure, the
    /// partitioning tool makes the disk bootable.
    pub fn write_mbr(
        bootsect_path: &str,
        physical_drive: u32,
        mbr_type: &str,
        event: MbrEvent,
    ) -> (r: MbrStep<ToolCommand, DiskpartJob, BootError>)
        ensures
            r@ == mbr_next(bootsect_path@, physical_drive, mbr_type@, event),
    {
        match event {
            MbrEvent::Begin => {
                let drive_arg = drive_name_string(physical_drive);
                let args = vec![
                    mbr_type.to_string(),
                    drive_arg,
                    "/force".to_string(),
                    "/mbr".to_string(),
                ];
                assert(texts(args@) =~= seq![
                    mbr_type@,
                    drive_name(physical_drive),
                    "/force"@,
                    "/mbr"@,
                ]);
                MbrStep::RunBootsect(command(bootsect_path, args))
            },
            MbrEvent::Bootsect(RunOutcome::Exited(output)) => if output.success {
                MbrStep::Finished(Ok(()))
            } else {
                MbrStep::RunDiskpart(Self::write_mbr_diskpart(physical_drive))
            },
            MbrEvent::Bootsect(RunOutcome::NotFound) => MbrStep::RunDiskpart(
                Self::write_mbr_diskpart(physical_drive),
            ),
            MbrEvent::Bootsect(_) => MbrStep::Finished(
                Err(BootError::new("执行 bootsect.exe 失败")),
            ),
            MbrEvent::Diskpart(result) => MbrStep::Finished(result),
        }
    }

    /// The job that makes a disk bootable without the boot sector tool.
    pub fn write_mbr_diskpart(physical_drive: u32) -> (r: DiskpartJob)
        ensures
            r@ == (DiskpartJobView {
                task: DiskpartTask::WriteMbr,
                script: mbr_script(physical_drive),
            }),
    {
        let script = "select disk ".to_string().concat(
            decimal_string(physical_drive as u64).as_str(),
        ).concat("\nclean\nconvert mbr\ncreate partition primary\nselect partition 1\nactive\n");
        DiskpartJob { task: DiskpartTask::WriteMbr, script }
    }

    /// Writes the boot record of the partition `letter` with the boot sector
    /// tool at `bootsect_path`.
    pub fn write_pbr(bootsect_path: &str, letter: char, pbr_type: &str, event: RunEvent) -> (r:
        RunStep<ToolCommand, BootError>)
        ensures
            r@ == pbr_next(bootsect_path@, letter, pbr_type@, event),
    {
        match event {
            RunEvent::Begin => {
                let args = vec![
                    pbr_type.to_string(),
                    drive_colon_string(letter),
                    "/force".to_string(),
                ];
                assert(texts(args@) =~= seq![pbr_type@, drive_colon(letter), "/force"@]);
                RunStep::Run(command(bootsect_path, args))
            },
            RunEvent::Ran(RunOutcome::Exited(_)) => RunStep::Finished(Ok(())),
            RunEvent::Ran(_) => RunStep::Finished(Err(BootError::new("执行 bootsect.exe 失败"))),
        }
    }

    /// Sets up the boot configuration with the tool at `bcdboot_path`: the
    /// Windows on `source_partition` boots from `target_partition`. `firmware` is
    /// `UEFI` or `BIOS`.
    pub fn setup_bcd(
        bcdboot_path: &str,
        source_partition: &str,
        target_partition: &str,
        firmware: &str,
        event: BcdEvent,
    ) -> (r: BcdStep<String, ToolCommand, BootError>)
        ensures
            r@ == bcd_next(
                bcdboot_path@,
                source_partition@,
                target_partition@,
                firmware@,
                event,
            ),
    {
        match event {
            BcdEvent::Begin => BcdStep::CheckExists(
                source_partition.to_string().concat("\\Windows"),
            ),
            BcdEvent::WindowsFound(found) => if found {
                let args = vec![
                    source_partition.to_string().concat("\\Windows"),
                    "/s".to_string(),
                    target_partition.to_string(),
                    "/f ".to_string().concat(firmware),
                    "/v".to_string(),
                ];
                assert(texts(args@) =~= seq![
                    source_partition@ + "\\Windows"@,
                    "/s"@,
                    target_partition@,
                    "/f "@ + firmware@,
                    "/v"@,
                ]);
                BcdStep::Run(command(bcdboot_path, args))
            } else {
                BcdStep::Finished(
                    Err(
                        BootError::from_message(
                            "源分区 ".to_string().concat(source_partition).concat(
                                " 中未找到 Windows 目录，无法设置引导",
                            ),
                        ),
                    ),
                )
            },
            BcdEvent::Ran(RunOutcome::Exited(_)) => BcdStep::Finished(Ok(())),
            BcdEvent::Ran(_) => BcdStep::Finished(Err(BootError::new("执行 bcdboot.exe 失败"))),
        }
    }

    /// Puts the boot file `EFI\BOOT\BOOTx64.EFI` on an EFI system partition: a copy
    /// of the one in the Windows directory, or one that the tool at `bcdboot_path`
    /// makes.
    pub fn copy_efi_files(
        bcdboot_path: &str,
        source_windows_dir: &str,
        efi_partition: &str,
        event: EfiEvent,
    ) -> (r: EfiStep<String, HostPath, ToolCommand, BootError>)
        ensures
            r@ == efi_next(bcdboot_path@, source_windows_dir@, efi_partition@, event),
    {
        match event {
            EfiEvent::Begin => EfiStep::CreateDir(efi_partition.to_string().concat("\\EFI\\BOOT")),
            EfiEvent::DirCreated(created) => if created {
                EfiStep::CheckExists(Self::boot_manager(source_windows_dir))
            } else {
                EfiStep::Finished(Err(BootError::new("创建 EFI/BOOT 目录失败")))
            },
            EfiEvent::SourceFound(found) => if found {
                EfiStep::CopyFile {
                    from: Self::boot_manager(source_windows_dir),
                    to: Self::boot_file(efi_partition),
                }
            } else {
                let args = vec![
                    source_windows_dir.to_string().concat("\\Windows"),
                    "/s".to_string(),
                    efi_partition.to_string(),
                    "/f".to_string(),
                    "UEFI".to_string(),
                ];
                assert(texts(args@) =~= seq![
                    source_windows_dir@ + "\\Windows"@,
                    "/s"@,
                    efi_partition@,
                    "/f"@,
                    "UEFI"@,
                ]);
                EfiStep::Run(command(bcdboot_path, args))
            },
            EfiEvent::Copied(copied) => if copied {
                EfiStep::Finished(Ok(()))
            } else {
                EfiStep::Finished(Err(BootError::new("复制 EFI 引导文件失败")))
            },
            EfiEvent::Generated(_) => EfiStep::CheckMade(Self::boot_file(efi_partition)),
            EfiEvent::Made(made) => if made {
                EfiStep::Finished(Ok(()))
            } else {
                EfiStep::Finished(Err(BootError::new("生成 EFI 引导文件失败")))
            },
        }
    }

    /// The boot file of a Windows directory.
    fn boot_manager(windows_dir: &str) -> (r: HostPath)
        ensures
            r@ == boot_manager_path(windows_dir@),
    {
        let parts = vec!["Boot".to_string(), "EFI".to_string(), "bootmgfw.efi".to_string()];
        assert(texts(parts@) =~= seq!["Boot"@, "EFI"@, "bootmgfw.efi"@]);
        path(windows_dir, parts)
    }

    /// Where the boot file goes.
    fn boot_file(efi_partition: &str) -> (r: HostPath)
        ensures
            r@ == boot_file_path(efi_partition@),
    {
        let dir = efi_partition.to_string().concat("\\EFI\\BOOT");
        let parts = vec!["BOOTx64.EFI".to_string()];
        assert(texts(parts@) =~= seq!["BOOTx64.EFI"@]);
        path(dir.as_str(), parts)
    }

    /// The job that removes the partition table of a disk.
    pub fn clean_disk(physical_drive: u32) -> (r: DiskpartJob)
        ensures
            r@ == (DiskpartJobView {
                task: DiskpartTask::Clean,
                script: clean_script(physical_drive),
            }),
    {
        let script = "select disk ".to_string().concat(
            decimal_string(physical_drive as u64).as_str(),
        ).concat("\nclean\n");
        DiskpartJob { task: DiskpartTask::Clean, script }
    }

    /// The job that creates one partition in an MBR table.
    pub fn create_mbr_partition(physical_drive: u32, active: bool) -> (r: DiskpartJob)
        ensures
            r@ == (DiskpartJobView {
                task: DiskpartTask::CreateMbr,
                script: mbr_partition_script(physical_drive, active),
            }),
    {
        let active_line = if active {
            "active\n".to_string()
        } else {
            String::new()
        };
        let script = "select disk ".to_string().concat(
            decimal_string(physical_drive as u64).as_str(),
        ).concat("\nconvert mbr\ncreate partition primary\n").concat(active_line.as_str()).concat(
            "select partition 1\n",
        );
        DiskpartJob { task: DiskpartTask::CreateMbr, script }
    }

    /// The job that creates an EFI and a data partition in a GPT table. A data
    /// partition of size zero takes all the space that is left.
    pub fn create_gpt_partitions(physical_drive: u32, efi_size_mb: u32, data_size_mb: u32) -> (r:
        DiskpartJob)
        ensures
            r@ == (DiskpartJobView {
                task: DiskpartTask::CreateGpt,
                script: gpt_script(physical_drive, efi_size_mb, data_size_mb),
            }),
    {
        let size = if data_size_mb > 0 {
            " size=".to_string().concat(decimal_string(data_size_mb as u64).as_str())
        } else {
            String::new()
        };
        let script = "select disk ".to_string().concat(
            decimal_string(physical_drive as u64).as_str(),
        ).concat("\nconvert gpt\ncreate partition efi size=").concat(
            decimal_string(efi_size_mb as u64).as_str(),
        ).concat(
            "\nformat quick fs=fat32 label=\"EFI\"\nassign letter=\"S\"\ncreate partition primary",
        ).concat(size.as_str()).concat(
            "\nformat quick fs=ntfs label=\"DATA\"\nselect partition 2\n",
        );
        DiskpartJob { task: DiskpartTask::CreateGpt, script }
    }

    /// Where a tool lies below the program's directory of tools.
    pub fn builtin_components(tool: Tool) -> (r: Vec<String>)
        ensures
            texts(r@) == builtin_parts(tool),
    {
        let parts = match tool {
            Tool::Bootsect => vec!["bootsect.exe".to_string()],
            Tool::Bcdboot => vec!["bcdboot.exe".to_string()],
            Tool::Diskpart => vec!["diskpart".to_string(), "diskpart.exe".to_string()],
        };
        assert(texts(parts@) =~= builtin_parts(tool));
        parts
    }

    /// The path of the boot sector tool, where `builtin` is the one that comes
    /// with the program.
    pub fn find_bootsect(builtin: &str, builtin_exists: bool) -> (r: String)
        ensures
            r@ == found(builtin@, builtin_exists, "bootsect.exe"@),
    {
        if builtin_exists {
            builtin.to_string()
        } else {
            "bootsect.exe".to_string()
        }
    }

    /// The path of the boot configuration tool, where `builtin` is the one that
    /// comes with the program.
    pub fn find_bcdboot(builtin: &str, builtin_exists: bool) -> (r: String)
        ensures
            r@ == found(builtin@, builtin_exists, "bcdboot.exe"@),
    {
        if builtin_exists {
            builtin.to_string()
        } else {
            "bcdboot.exe".to_string()
        }
    }

    /// The path of the partitioning tool, where `builtin` is the one that comes
    /// with the program.
    pub fn find_diskpart(builtin: &str, builtin_exists: bool) -> (r: String)
        ensures
            r@ == found(builtin@, builtin_exists, "diskpart.exe"@),
    {
        if builtin_exists {
            builtin.to_string()
        } else {
            "diskpart.exe".to_string()
        }
    }
}

} // verus!
