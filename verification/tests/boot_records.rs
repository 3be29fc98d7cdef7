//! Boot records, partitioning jobs and the tools behind them.

use usb_boot::bootsect::{
    BcdEvent, BcdStep, BootSectorManager, EfiEvent, EfiStep, MbrEvent, MbrStep, Tool,
};
use usb_boot::diskpart::{DiskpartEvent, DiskpartJob, DiskpartStep, DiskpartTask};
use usb_boot::error::BootError;
use usb_boot::host::{RunEvent, RunOutcome, RunStep, ToolCommand, ToolOutput};

fn exited(success: bool, stdout: &str, stderr: &str) -> RunOutcome {
    RunOutcome::Exited(ToolOutput {
        success,
        code: Some(if success { 0 } else { 1 }),
        stdout: stdout.as_bytes().to_vec(),
        stderr: stderr.as_bytes().to_vec(),
    })
}

fn message(r: Result<(), BootError>) -> Option<String> {
    match r {
        Ok(()) => None,
        Err(e) => Some(e.message),
    }
}

fn assert_command(c: ToolCommand, program: &str, args: &[&str]) {
    assert_eq!(c.program, program);
    assert_eq!(c.args, args);
}

fn mbr(event: MbrEvent) -> MbrStep<ToolCommand, DiskpartJob, BootError> {
    BootSectorManager::write_mbr("bootsect.exe", 2, "/nt60", event)
}

#[test]
fn mbr_is_written_with_the_boot_sector_tool() {
    match mbr(MbrEvent::Begin) {
        MbrStep::RunBootsect(c) => assert_command(
            c,
            "bootsect.exe",
            &["/nt60", "\\\\.\\PhysicalDrive2", "/force", "/mbr"],
        ),
        s => panic!("{:?}", s),
    }
    match mbr(MbrEvent::Bootsect(exited(true, "", ""))) {
        MbrStep::Finished(r) => assert_eq!(message(r), None),
        s => panic!("{:?}", s),
    }
}

#[test]
fn mbr_falls_back_on_the_partitioning_tool() {
    for run in [exited(false, "oops", "oops"), RunOutcome::NotFound] {
        match mbr(MbrEvent::Bootsect(run)) {
            MbrStep::RunDiskpart(job) => {
                assert_eq!(job.task, DiskpartTask::WriteMbr);
                assert_eq!(
                    job.script,
                    "select disk 2\nclean\nconvert mbr\ncreate partition primary\n\
                     select partition 1\nactive\n"
                );
            }
            s => panic!("{:?}", s),
        }
    }
    match mbr(MbrEvent::Diskpart(Ok(()))) {
        MbrStep::Finished(r) => assert_eq!(message(r), None),
        s => panic!("{:?}", s),
    }
    match mbr(MbrEvent::Diskpart(Err(BootError::new("no")))) {
        MbrStep::Finished(r) => assert_eq!(message(r).as_deref(), Some("no")),
        s => panic!("{:?}", s),
    }
}

#[test]
fn mbr_fails_when_the_boot_sector_tool_cannot_be_started() {
    for run in [RunOutcome::LaunchFailed, RunOutcome::WaitFailed] {
        match mbr(MbrEvent::Bootsect(run)) {
            MbrStep::Finished(r) => {
                assert_eq!(message(r).as_deref(), Some("执行 bootsect.exe 失败"))
            }
            s => panic!("{:?}", s),
        }
    }
}

#[test]
fn pbr_takes_a_failed_run_for_good() {
    let step = |event| BootSectorManager::write_pbr("C:\\bin\\bootsect.exe", 'E', "/nt60", event);
    match step(RunEvent::Begin) {
        RunStep::Run(c) => {
            assert_command(c, "C:\\bin\\bootsect.exe", &["/nt60", "E:", "/force"])
        }
        s => panic!("{:?}", s),
    }
    for run in [exited(true, "", ""), exited(false, "", "denied")] {
        match step(RunEvent::Ran(run)) {
            RunStep::Finished(r) => assert_eq!(message(r), None),
            s => panic!("{:?}", s),
        }
    }
    match step(RunEvent::Ran(RunOutcome::NotFound)) {
        RunStep::Finished(r) => assert_eq!(message(r).as_deref(), Some("执行 bootsect.exe 失败")),
        s => panic!("{:?}", s),
    }
}

#[test]
fn boot_configuration_needs_a_windows_directory() {
    let step = |event| BootSectorManager::setup_bcd("bcdboot.exe", "C:", "S:", "UEFI", event);
    match step(BcdEvent::Begin) {
        BcdStep::CheckExists(p) => assert_eq!(p, "C:\\Windows"),
        s => panic!("{:?}", s),
    }
    match step(BcdEvent::WindowsFound(false)) {
        BcdStep::Finished(r) => assert_eq!(
            message(r).as_deref(),
            Some("源分区 C: 中未找到 Windows 目录，无法设置引导")
        ),
        s => panic!("{:?}", s),
    }
    match step(BcdEvent::WindowsFound(true)) {
        BcdStep::Run(c) => {
            assert_command(c, "bcdboot.exe", &["C:\\Windows", "/s", "S:", "/f UEFI", "/v"])
        }
        s => panic!("{:?}", s),
    }
    match step(BcdEvent::Ran(exited(false, "", ""))) {
        BcdStep::Finished(r) => assert_eq!(message(r), None),
        s => panic!("{:?}", s),
    }
    match step(BcdEvent::Ran(RunOutcome::LaunchFailed)) {
        BcdStep::Finished(r) => assert_eq!(message(r).as_deref(), Some("执行 bcdboot.exe 失败")),
        s => panic!("{:?}", s),
    }
}

#[test]
fn efi_boot_file_is_copied_or_made() {
    let step =
        |event| BootSectorManager::copy_efi_files("bcdboot.exe", "C:\\Windows", "S:", event);
    match step(EfiEvent::Begin) {
        EfiStep::CreateDir(d) => assert_eq!(d, "S:\\EFI\\BOOT"),
        s => panic!("{:?}", s),
    }
    match step(EfiEvent::DirCreated(false)) {
        EfiStep::Finished(r) => assert_eq!(message(r).as_deref(), Some("创建 EFI/BOOT 目录失败")),
        s => panic!("{:?}", s),
    }
    match step(EfiEvent::DirCreated(true)) {
        EfiStep::CheckExists(p) => {
            assert_eq!(p.base, "C:\\Windows");
            assert_eq!(p.parts, ["Boot", "EFI", "bootmgfw.efi"]);
        }
        s => panic!("{:?}", s),
    }
    match step(EfiEvent::SourceFound(true)) {
        EfiStep::CopyFile { from, to } => {
            assert_eq!(from.base, "C:\\Windows");
            assert_eq!(from.parts, ["Boot", "EFI", "bootmgfw.efi"]);
            assert_eq!(to.base, "S:\\EFI\\BOOT");
            assert_eq!(to.parts, ["BOOTx64.EFI"]);
        }
        s => panic!("{:?}", s),
    }
    match step(EfiEvent::SourceFound(false)) {
        EfiStep::Run(c) => assert_command(
            c,
            "bcdboot.exe",
            &["C:\\Windows\\Windows", "/s", "S:", "/f", "UEFI"],
        ),
        s => panic!("{:?}", s),
    }
    match step(EfiEvent::Copied(true)) {
        EfiStep::Finished(r) => assert_eq!(message(r), None),
        s => panic!("{:?}", s),
    }
    match step(EfiEvent::Copied(false)) {
        EfiStep::Finished(r) => assert_eq!(message(r).as_deref(), Some("复制 EFI 引导文件失败")),
        s => panic!("{:?}", s),
    }
    for run in [exited(true, "", ""), exited(false, "", ""), RunOutcome::NotFound] {
        match step(EfiEvent::Generated(run)) {
            EfiStep::CheckMade(p) => {
                assert_eq!(p.base, "S:\\EFI\\BOOT");
                assert_eq!(p.parts, ["BOOTx64.EFI"]);
            }
            s => panic!("{:?}", s),
        }
    }
    match step(EfiEvent::Made(true)) {
        EfiStep::Finished(r) => assert_eq!(message(r), None),
        s => panic!("{:?}", s),
    }
    match step(EfiEvent::Made(false)) {
        EfiStep::Finished(r) => assert_eq!(message(r).as_deref(), Some("生成 EFI 引导文件失败")),
        s => panic!("{:?}", s),
    }
}

#[test]
fn scripts_select_their_disk() {
    assert_eq!(BootSectorManager::clean_disk(3).script, "select disk 3\nclean\n");
    assert_eq!(
        BootSectorManager::create_mbr_partition(10, true).script,
        "select disk 10\nconvert mbr\ncreate partition primary\nactive\nselect partition 1\n"
    );
    assert_eq!(
        BootSectorManager::create_mbr_partition(10, false).script,
        "select disk 10\nconvert mbr\ncreate partition primary\nselect partition 1\n"
    );
    assert_eq!(
        BootSectorManager::create_gpt_partitions(1, 100, 0).script,
        "select disk 1\nconvert gpt\ncreate partition efi size=100\n\
         format quick fs=fat32 label=\"EFI\"\nassign letter=\"S\"\n\
         create partition primary\nformat quick fs=ntfs label=\"DATA\"\nselect partition 2\n"
    );
    assert_eq!(
        BootSectorManager::create_gpt_partitions(1, 260, 4096).script,
        "select disk 1\nconvert gpt\ncreate partition efi size=260\n\
         format quick fs=fat32 label=\"EFI\"\nassign letter=\"S\"\n\
         create partition primary size=4096\nformat quick fs=ntfs label=\"DATA\"\n\
         select partition 2\n"
    );
    for drive in [0, 1, 9, 10, 11, 100, u32::MAX] {
        let start = format!("select disk {}\n", drive);
        for job in [
            BootSectorManager::write_mbr_diskpart(drive),
            BootSectorManager::clean_disk(drive),
            BootSectorManager::create_mbr_partition(drive, true),
            BootSectorManager::create_gpt_partitions(drive, 100, 7),
        ] {
            assert!(job.script.starts_with(&start));
            assert_eq!(job.script.matches("select disk ").count(), 1);
        }
    }
}

#[test]
fn job_saves_runs_and_deletes_its_script() {
    let job = BootSectorManager::clean_disk(3);
    match job.step("diskpart.exe", DiskpartEvent::Begin) {
        DiskpartStep::WriteScript { name, script } => {
            assert_eq!(name, "lr_clean_script.txt");
            assert_eq!(script, "select disk 3\nclean\n");
        }
        s => panic!("{:?}", s),
    }
    let path = "C:\\Temp\\lr_clean_script.txt".to_string();
    match job.step("diskpart.exe", DiskpartEvent::ScriptWritten { path, result: Ok(()) }) {
        DiskpartStep::Run(c) => {
            assert_command(c, "diskpart.exe", &["/s", "C:\\Temp\\lr_clean_script.txt"])
        }
        s => panic!("{:?}", s),
    }
    match job.step("diskpart.exe", DiskpartEvent::Ran(exited(true, "DiskPart 成功", ""))) {
        DiskpartStep::RemoveScript { name, then } => {
            assert_eq!(name, "lr_clean_script.txt");
            assert_eq!(message(then), None);
        }
        s => panic!("{:?}", s),
    }
}

#[test]
fn job_without_a_script_runs_nothing() {
    let job = BootSectorManager::clean_disk(3);
    let event = DiskpartEvent::ScriptWritten {
        path: "x".to_string(),
        result: Err("disk full".to_string()),
    };
    match job.step("diskpart.exe", event) {
        DiskpartStep::Finished(r) => assert_eq!(message(r).as_deref(), Some("disk full")),
        s => panic!("{:?}", s),
    }
}

#[test]
fn jobs_are_judged_by_what_the_tool_prints() {
    let cases = [
        (BootSectorManager::clean_disk(1), "diskpart clean 失败: "),
        (BootSectorManager::create_mbr_partition(1, true), "diskpart 分区创建失败: "),
        (BootSectorManager::create_gpt_partitions(1, 1, 0), "diskpart GPT 分区创建失败: "),
    ];
    for (job, start) in cases {
        for (success, printed, good) in [
            (true, "done", true),
            (false, "done", true),
            (true, "Virtual Disk Service ERROR: no", false),
            (true, "an ErRoR", false),
            (true, "操作失败。", false),
        ] {
            match job.step("diskpart.exe", DiskpartEvent::Ran(exited(success, printed, ""))) {
                DiskpartStep::RemoveScript { then, .. } => {
                    let want = if good { None } else { Some(format!("{}{}", start, printed)) };
                    assert_eq!(message(then), want);
                }
                s => panic!("{:?}", s),
            }
        }
    }
}

#[test]
fn making_a_disk_bootable_is_judged_by_the_exit_status() {
    let job = BootSectorManager::write_mbr_diskpart(1);
    match job.step("diskpart.exe", DiskpartEvent::Ran(exited(true, "error", ""))) {
        DiskpartStep::RemoveScript { name, then } => {
            assert_eq!(name, "lr_mbr_script.txt");
            assert_eq!(message(then), None);
        }
        s => panic!("{:?}", s),
    }
    match job.step("diskpart.exe", DiskpartEvent::Ran(exited(false, "bad", ""))) {
        DiskpartStep::RemoveScript { then, .. } => {
            assert_eq!(message(then).as_deref(), Some("diskpart MBR 创建失败: bad"))
        }
        s => panic!("{:?}", s),
    }
}

#[test]
fn judging_takes_the_lowered_text_as_it_is() {
    let job = BootSectorManager::clean_disk(1);
    assert_eq!(message(job.judge(true, "ERROR", "ERROR")), None);
    assert_eq!(
        message(job.judge(true, "ERROR", "error")).as_deref(),
        Some("diskpart clean 失败: ERROR")
    );
}

#[test]
fn malformed_output_is_shown_with_replacement_characters() {
    let job = BootSectorManager::write_mbr_diskpart(1);
    let output = ToolOutput {
        success: false,
        code: Some(1),
        stdout: vec![b'a', 0xFF, b'b'],
        stderr: Vec::new(),
    };
    match job.step("diskpart.exe", DiskpartEvent::Ran(RunOutcome::Exited(output))) {
        DiskpartStep::RemoveScript { then, .. } => assert_eq!(
            message(then).as_deref(),
            Some("diskpart MBR 创建失败: a\u{FFFD}b")
        ),
        s => panic!("{:?}", s),
    }
}

#[test]
fn jobs_have_their_own_files_and_messages() {
    let cases = [
        (BootSectorManager::write_mbr_diskpart(1), "lr_mbr_script.txt", "执行 diskpart 失败"),
        (BootSectorManager::clean_disk(1), "lr_clean_script.txt", "执行 diskpart clean 失败"),
        (
            BootSectorManager::create_mbr_partition(1, true),
            "lr_mbr_part_script.txt",
            "执行 diskpart 分区创建失败",
        ),
        (
            BootSectorManager::create_gpt_partitions(1, 1, 1),
            "lr_gpt_part_script.txt",
            "执行 diskpart GPT 分区创建失败",
        ),
    ];
    for (job, file, error) in cases {
        assert_eq!(job.task.script_name(), file);
        for run in [RunOutcome::NotFound, RunOutcome::LaunchFailed, RunOutcome::WaitFailed] {
            match job.step("diskpart.exe", DiskpartEvent::Ran(run)) {
                DiskpartStep::Finished(r) => assert_eq!(message(r).as_deref(), Some(error)),
                s => panic!("{:?}", s),
            }
        }
    }
}

#[test]
fn tools_that_come_with_the_program_are_preferred() {
    assert_eq!(BootSectorManager::find_bootsect("b\\x.exe", true), "b\\x.exe");
    assert_eq!(BootSectorManager::find_bootsect("b\\x.exe", false), "bootsect.exe");
    assert_eq!(BootSectorManager::find_bcdboot("b\\x.exe", true), "b\\x.exe");
    assert_eq!(BootSectorManager::find_bcdboot("b\\x.exe", false), "bcdboot.exe");
    assert_eq!(BootSectorManager::find_diskpart("b\\x.exe", true), "b\\x.exe");
    assert_eq!(BootSectorManager::find_diskpart("b\\x.exe", false), "diskpart.exe");
    assert_eq!(BootSectorManager::builtin_components(Tool::Bootsect), ["bootsect.exe"]);
    assert_eq!(BootSectorManager::builtin_components(Tool::Bcdboot), ["bcdboot.exe"]);
    assert_eq!(
        BootSectorManager::builtin_components(Tool::Diskpart),
        ["diskpart", "diskpart.exe"]
    );
}
