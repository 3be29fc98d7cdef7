//! Copying the files of an image.

use usb_boot::bootsect::TargetSystem;
use usb_boot::copying::{
    CopyEvent, CopyStep, CopyToolEvent, CopyToolStep, EntryAction, EntryKind, PieceEvent,
    PieceStep, TreeEvent, TreeStep,
};
use usb_boot::disk::PartitionStyle;
use usb_boot::error::BootError;
use usb_boot::fat32::FsType;
use usb_boot::host::{RunOutcome, ToolCommand, ToolOutput};
use usb_boot::progress::ProgressQueue;
use usb_boot::usb::UsbDevice;
use usb_boot::usb_writer::{PartitionScheme, UsbWriteConfig, UsbWriter};

fn message(r: Result<(), BootError>) -> Option<String> {
    match r {
        Ok(()) => None,
        Err(e) => Some(e.message),
    }
}

fn writer() -> UsbWriter {
    UsbWriter::new(UsbWriteConfig {
        device: UsbDevice {
            letter: "E:".to_string(),
            label: String::new(),
            physical_drive: 2,
            partition_number: 1,
            device_type: 1,
            size_bytes: 1,
            free_bytes: 1,
            is_removable: true,
            partition_style: PartitionStyle::MBR,
            file_system: "FAT32".to_string(),
        },
        iso_path: "C:\\win.iso".to_string(),
        partition_scheme: PartitionScheme::Mbr,
        target_system: TargetSystem::BiosOrUefiCsm,
        file_system: FsType::NTFS,
        volume_label: "WINPE".to_string(),
        quick_format: true,
        efi_size_mb: 100,
    })
}

fn by_tool(event: CopyToolEvent) -> CopyToolStep<ToolCommand, BootError> {
    writer().copy_files_with_progress("F:", "E:", 55, 80, event)
}

#[test]
fn copying_tool_reports_are_told() {
    let mut w = writer().with_progress(ProgressQueue::new());
    let mut told = Vec::new();
    for (copied, total) in [(0, 4), (1, 4), (2, 4), (3, 4), (4, 4), (5, 4), (7, 0)] {
        let event = CopyToolEvent::Reported { copied, total };
        let step = w.copy_files_with_progress("F:", "E:", 55, 80, event);
        assert!(matches!(step, CopyToolStep::Wait));
        match w.take_progress() {
            Some(m) => {
                assert_eq!(m.step, "正在复制文件到 U盘...");
                assert!(!m.finished);
                assert!(m.error.is_none());
                told.push((m.step_progress, m.total_progress));
            }
            None => panic!("not told"),
        }
        assert!(w.take_progress().is_none());
    }
    assert_eq!(told, [(0, 55), (25, 61), (50, 67), (75, 73), (100, 80), (100, 80), (0, 55)]);
    w.copy_files_with_progress("F:", "E:", 55, 80, CopyToolEvent::Begin);
    let ended = CopyToolEvent::Ran(RunOutcome::NotFound);
    w.copy_files_with_progress("F:", "E:", 55, 80, ended);
    assert!(w.take_progress().is_none());
}

#[test]
fn lines_that_are_not_blank_report_files() {
    for (line, report) in [
        (&b""[..], false),
        (b"\r\n", false),
        (b" \t\x0C\r\n", false),
        (b"  New File  5  F:\\setup.exe\r\n", true),
        (b"\x0B", true),
        (b"\xFF\n", true),
    ] {
        assert_eq!(UsbWriter::is_copy_report(line), report);
        assert_eq!(report, !line.iter().all(|b| b.is_ascii_whitespace()));
    }
}

#[test]
fn copying_tool_reports_stay_within_their_bounds() {
    let mut w = writer().with_progress(ProgressQueue::new());
    for (start, end) in [(0, 255), (55, 80), (80, 80)] {
        let mut last = start;
        for copied in [0, 1, 7, 1_000_000, u64::MAX / 2, u64::MAX - 1, u64::MAX] {
            let event = CopyToolEvent::Reported { copied, total: u64::MAX };
            w.copy_files_with_progress("F:", "E:", start, end, event);
            let total = w.take_progress().map(|m| m.total_progress).unwrap_or(0);
            assert!(last <= total && total <= end);
            last = total;
        }
        assert_eq!(last, end);
    }
}

#[test]
fn copying_tool_is_run_on_both_drives() {
    match by_tool(CopyToolEvent::Begin) {
        CopyToolStep::Run(c) => {
            assert_eq!(c.program, "robocopy");
            assert_eq!(
                c.args,
                [
                    "F:\\", "E:\\", "/E", "/Z", "/NP", "/NDL", "/NJH", "/NJS", "/R:2", "/W:2"
                ]
            );
        }
        s => panic!("{:?}", s),
    }
}

#[test]
fn copying_tool_fails_above_code_seven() {
    for (code, error) in [
        (Some(0), None),
        (Some(1), None),
        (Some(7), None),
        (Some(-1), None),
        (None, None),
        (Some(8), Some("robocopy 失败 (退出码 8): 拒绝")),
        (Some(16), Some("robocopy 失败 (退出码 16): 拒绝")),
    ] {
        let output = ToolOutput {
            success: false,
            code,
            stdout: Vec::new(),
            stderr: "拒绝".as_bytes().to_vec(),
        };
        let event = CopyToolEvent::Ran(RunOutcome::Exited(output));
        match by_tool(event) {
            CopyToolStep::Finished(r) => assert_eq!(message(r).as_deref(), error),
            s => panic!("{:?}", s),
        }
        assert_eq!(message(UsbWriter::judge_copy_tool(code, "拒绝")).as_deref(), error);
    }
}

#[test]
fn copying_tool_output_may_be_malformed() {
    let output = ToolOutput {
        success: false,
        code: Some(9),
        stdout: Vec::new(),
        stderr: vec![0xC0, b'x'],
    };
    let event = CopyToolEvent::Ran(RunOutcome::Exited(output));
    match by_tool(event) {
        CopyToolStep::Finished(r) => {
            assert_eq!(message(r).as_deref(), Some("robocopy 失败 (退出码 9): \u{FFFD}x"))
        }
        s => panic!("{:?}", s),
    }
}

#[test]
fn copying_tool_may_be_missing() {
    for (run, error) in [
        (RunOutcome::NotFound, "启动 robocopy 失败"),
        (RunOutcome::LaunchFailed, "启动 robocopy 失败"),
        (RunOutcome::WaitFailed, "等待 robocopy 完成失败"),
    ] {
        match by_tool(CopyToolEvent::Ran(run)) {
            CopyToolStep::Finished(r) => assert_eq!(message(r).as_deref(), Some(error)),
            s => panic!("{:?}", s),
        }
    }
}

fn entry(relative: Option<&str>, kind: EntryKind) -> CopyStep<String, BootError> {
    UsbWriter::copy_files_rust(
        "F:",
        "E:",
        CopyEvent::Entry {
            path: "F:\\some".to_string(),
            relative: relative.map(|r| r.to_string()),
            kind,
        },
    )
}

#[test]
fn entries_are_created_or_copied() {
    match UsbWriter::copy_files_rust("F:", "E:", CopyEvent::Begin) {
        CopyStep::Walk { root } => assert_eq!(root, "F:\\"),
        s => panic!("{:?}", s),
    }
    match entry(Some("sources"), EntryKind::Directory) {
        CopyStep::Perform(EntryAction::CreateDir { target }) => assert_eq!(target, "E:\\sources"),
        s => panic!("{:?}", s),
    }
    match entry(Some(""), EntryKind::Directory) {
        CopyStep::Perform(EntryAction::CreateDir { target }) => assert_eq!(target, "E:\\"),
        s => panic!("{:?}", s),
    }
    let limit = 10 * 1024 * 1024;
    for (len, large) in [(Some(limit), false), (Some(limit + 1), true), (None, false)] {
        match entry(Some("a\\b.wim"), EntryKind::File { len }) {
            CopyStep::Perform(EntryAction::CopyLarge { path, target }) => {
                assert!(large);
                assert_eq!((path.as_str(), target.as_str()), ("F:\\some", "E:\\a\\b.wim"));
            }
            CopyStep::Perform(EntryAction::CopyWhole { path, target }) => {
                assert!(!large);
                assert_eq!((path.as_str(), target.as_str()), ("F:\\some", "E:\\a\\b.wim"));
            }
            s => panic!("{:?}", s),
        }
    }
    assert!(matches!(entry(Some("link"), EntryKind::Other), CopyStep::Advance));
}

#[test]
fn entries_that_cannot_be_reached_stop_the_copy() {
    match entry(None, EntryKind::Directory) {
        CopyStep::Finished(r) => assert_eq!(message(r).as_deref(), Some("计算相对路径失败")),
        s => panic!("{:?}", s),
    }
    match UsbWriter::copy_files_rust("F:", "E:", CopyEvent::WalkFailed) {
        CopyStep::Finished(r) => assert_eq!(message(r).as_deref(), Some("遍历目录失败")),
        s => panic!("{:?}", s),
    }
}

#[test]
fn entries_that_cannot_be_copied_stop_the_copy() {
    let step =
        |action, result| UsbWriter::copy_files_rust("F:", "E:", CopyEvent::Performed { action, result });
    let s = |t: &str| t.to_string();
    for (action, error) in [
        (EntryAction::CreateDir { target: s("E:\\d") }, "创建目录失败: E:\\d"),
        (
            EntryAction::CopyWhole { path: s("F:\\f"), target: s("E:\\f") },
            "复制文件失败: F:\\f",
        ),
        (EntryAction::CopyLarge { path: s("F:\\f"), target: s("E:\\f") }, "disk full"),
    ] {
        match step(action, Err(s("disk full"))) {
            CopyStep::Finished(r) => assert_eq!(message(r).as_deref(), Some(error)),
            other => panic!("{:?}", other),
        }
    }
    let action = EntryAction::CreateDir { target: s("E:\\d") };
    assert!(matches!(step(action, Ok(())), CopyStep::Advance));
    assert!(matches!(
        UsbWriter::copy_files_rust("F:", "E:", CopyEvent::Exhausted),
        CopyStep::Finished(Ok(()))
    ));
}

/// Copies a file of the given bytes, reading it in pieces of the given lengths.
fn copy_in_pieces(source: &[u8], lens: &[usize]) -> (Vec<u8>, Option<String>) {
    let mut target = b"old".to_vec();
    let mut pieces = lens.iter();
    let mut at = 0;
    let mut last = Vec::new();
    let mut event = PieceEvent::Begin { has_parent: true };
    loop {
        event = match UsbWriter::copy_large_file("F:\\d\\f", "E:\\d\\f", event) {
            PieceStep::CreateParent(of) => {
                assert_eq!(of, "E:\\d\\f");
                PieceEvent::ParentCreated
            }
            PieceStep::OpenSource(path) => {
                assert_eq!(path, "F:\\d\\f");
                PieceEvent::SourceOpened
            }
            PieceStep::CreateDest(path) => {
                assert_eq!(path, "E:\\d\\f");
                target.clear();
                PieceEvent::DestCreated
            }
            PieceStep::Read { at_most } => {
                assert_eq!(at_most, 1024 * 1024);
                let n = pieces.next().copied().unwrap_or(0);
                last = source[at..at + n].to_vec();
                at += n;
                PieceEvent::Read(n)
            }
            PieceStep::Write { len } => {
                target.extend_from_slice(&last[..len]);
                PieceEvent::Written
            }
            PieceStep::Flush => PieceEvent::Flushed,
            PieceStep::Finished(r) => return (target, message(r)),
        };
    }
}

#[test]
fn large_files_are_copied_byte_for_byte() {
    let source: Vec<u8> = (0..=255).cycle().take(5000).collect();
    assert_eq!(copy_in_pieces(&source, &[1, 999, 4000]), (source.clone(), None));
    assert_eq!(copy_in_pieces(&source, &[5000]), (source, None));
    assert_eq!(copy_in_pieces(&[], &[]), (Vec::new(), None));
}

#[test]
fn large_files_need_no_directory_that_has_no_name() {
    match UsbWriter::copy_large_file("F:\\f", "f", PieceEvent::Begin { has_parent: false }) {
        PieceStep::OpenSource(path) => assert_eq!(path, "F:\\f"),
        s => panic!("{:?}", s),
    }
}

#[test]
fn large_files_fail_with_the_reason_given() {
    match UsbWriter::copy_large_file("a", "b", PieceEvent::Failed("read error".to_string())) {
        PieceStep::Finished(r) => assert_eq!(message(r).as_deref(), Some("read error")),
        s => panic!("{:?}", s),
    }
}

#[test]
fn directories_are_copied_entry_by_entry() {
    let step = |event| UsbWriter::copy_dir_recursive("F:\\EFI", "E:\\EFI", event);
    match step(TreeEvent::Begin) {
        TreeStep::CheckExists(p) => assert_eq!(p, "F:\\EFI"),
        s => panic!("{:?}", s),
    }
    match step(TreeEvent::SourceChecked(true)) {
        TreeStep::CreateDir(p) => assert_eq!(p, "E:\\EFI"),
        s => panic!("{:?}", s),
    }
    match step(TreeEvent::DestCreated) {
        TreeStep::List(p) => assert_eq!(p, "F:\\EFI"),
        s => panic!("{:?}", s),
    }
    match step(TreeEvent::Entry { name: "BOOT".to_string(), is_dir: true }) {
        TreeStep::Descend { source, dest } => {
            assert_eq!((source.base.as_str(), source.parts), ("F:\\EFI", vec!["BOOT".to_string()]));
            assert_eq!((dest.base.as_str(), dest.parts), ("E:\\EFI", vec!["BOOT".to_string()]));
        }
        s => panic!("{:?}", s),
    }
    match step(TreeEvent::Entry { name: "a.efi".to_string(), is_dir: false }) {
        TreeStep::CopyFile { source, dest } => {
            assert_eq!((source.base.as_str(), source.parts), ("F:\\EFI", vec!["a.efi".to_string()]));
            assert_eq!((dest.base.as_str(), dest.parts), ("E:\\EFI", vec!["a.efi".to_string()]));
        }
        s => panic!("{:?}", s),
    }
    assert!(matches!(step(TreeEvent::Performed), TreeStep::Advance));
    assert!(matches!(step(TreeEvent::Exhausted), TreeStep::Finished(Ok(()))));
    match step(TreeEvent::Failed("denied".to_string())) {
        TreeStep::Finished(r) => assert_eq!(message(r).as_deref(), Some("denied")),
        s => panic!("{:?}", s),
    }
}

#[test]
fn directories_that_do_not_exist_are_not_copied() {
    assert!(matches!(
        UsbWriter::copy_dir_recursive("F:\\EFI", "E:\\EFI", TreeEvent::SourceChecked(false)),
        TreeStep::Finished(Ok(()))
    ));
}

/// Copies the given entries one by one on a machine on which the targets in `broken` cannot
/// be written. Tells where things were put, and how it ended.
fn copy_entries(
    entries: &[Option<(&str, EntryKind)>],
    broken: &[&str],
) -> (Vec<String>, Option<String>) {
    let mut put = Vec::new();
    let mut left = entries.iter();
    let mut event = CopyEvent::Begin;
    loop {
        event = match UsbWriter::copy_files_rust("F:", "E:", event) {
            CopyStep::Walk { .. } | CopyStep::Advance => match left.next() {
                Some(Some((relative, kind))) => CopyEvent::Entry {
                    path: format!("F:\\{}", relative),
                    relative: Some(relative.to_string()),
                    kind: *kind,
                },
                Some(None) => CopyEvent::WalkFailed,
                None => CopyEvent::Exhausted,
            },
            CopyStep::Perform(action) => {
                let target = match &action {
                    EntryAction::CreateDir { target } => target.clone(),
                    EntryAction::CopyLarge { target, .. } => target.clone(),
                    EntryAction::CopyWhole { target, .. } => target.clone(),
                };
                let result = if broken.contains(&target.as_str()) {
                    Err("full".to_string())
                } else {
                    Ok(())
                };
                put.push(target);
                CopyEvent::Performed { action, result }
            }
            CopyStep::Finished(r) => return (put, message(r)),
        };
    }
}

#[test]
fn all_files_are_copied_in_the_order_of_the_walk() {
    let entries = [
        Some(("", EntryKind::Directory)),
        Some(("sources", EntryKind::Directory)),
        Some(("sources\\install.wim", EntryKind::File { len: Some(5_000_000_000) })),
        Some(("link", EntryKind::Other)),
        Some(("setup.exe", EntryKind::File { len: Some(1) })),
    ];
    let all = ["E:\\", "E:\\sources", "E:\\sources\\install.wim", "E:\\setup.exe"];
    let (put, error) = copy_entries(&entries, &[]);
    assert_eq!(put, all);
    assert_eq!(error, None);
    let (put, error) = copy_entries(&entries, &["E:\\sources\\install.wim"]);
    assert_eq!(put, all[..3]);
    assert_eq!(error.as_deref(), Some("full"));
    let (put, error) = copy_entries(&[entries[0], None, entries[1]], &[]);
    assert_eq!(put, all[..1]);
    assert_eq!(error.as_deref(), Some("遍历目录失败"));
}

/// Copies a directory that holds the given entries, on a machine on which those in `broken`
/// cannot be copied. Tells what was copied where, and how it ended.
fn copy_directory(
    entries: &[(&str, bool)],
    broken: &[&str],
) -> (Vec<(String, String)>, Option<String>) {
    let mut copied = Vec::new();
    let mut left = entries.iter();
    let mut event = TreeEvent::Begin;
    loop {
        event = match UsbWriter::copy_dir_recursive("F:\\EFI", "E:\\EFI", event) {
            TreeStep::CheckExists(_) => TreeEvent::SourceChecked(true),
            TreeStep::CreateDir(_) => TreeEvent::DestCreated,
            TreeStep::List(_) | TreeStep::Advance => match left.next() {
                Some((name, is_dir)) => {
                    TreeEvent::Entry { name: name.to_string(), is_dir: *is_dir }
                }
                None => TreeEvent::Exhausted,
            },
            TreeStep::Descend { source, dest } | TreeStep::CopyFile { source, dest } => {
                let name = source.parts.concat();
                copied.push((
                    format!("{}\\{}", source.base, name),
                    format!("{}\\{}", dest.base, dest.parts.concat()),
                ));
                if broken.contains(&name.as_str()) {
                    TreeEvent::Failed(format!("{} is broken", name))
                } else {
                    TreeEvent::Performed
                }
            }
            TreeStep::Finished(r) => return (copied, message(r)),
        };
    }
}

#[test]
fn everything_in_a_directory_is_copied_to_the_same_name() {
    let entries = [("BOOT", true), ("a.efi", false), ("Microsoft", true)];
    let (copied, error) = copy_directory(&entries, &[]);
    let want: Vec<(String, String)> = entries
        .iter()
        .map(|(n, _)| (format!("F:\\EFI\\{}", n), format!("E:\\EFI\\{}", n)))
        .collect();
    assert_eq!(copied, want);
    assert_eq!(error, None);
    let (copied, error) = copy_directory(&entries, &["a.efi"]);
    assert_eq!(copied, want[..2]);
    assert_eq!(error.as_deref(), Some("a.efi is broken"));
}
