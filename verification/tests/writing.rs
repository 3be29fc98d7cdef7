//! Making a boot drive from beginning to end.

use usb_boot::bootsect::TargetSystem;
use usb_boot::disk::PartitionStyle;
use usb_boot::error::BootError;
use usb_boot::fat32::FsType;
use usb_boot::progress::{ProgressQueue, WriteProgress};
use usb_boot::usb::UsbDevice;
use usb_boot::usb_writer::{
    create_bootable_usb, PartitionScheme, UsbWriteConfig, UsbWriter, WriteAction, WriteEvent,
};

fn device(letter: &str) -> UsbDevice {
    UsbDevice {
        letter: letter.to_string(),
        label: "old".to_string(),
        physical_drive: 2,
        partition_number: 1,
        device_type: 1,
        size_bytes: 16_000_000_000,
        free_bytes: 0,
        is_removable: true,
        partition_style: PartitionStyle::MBR,
        file_system: "FAT32".to_string(),
    }
}

fn config(partition_scheme: PartitionScheme) -> UsbWriteConfig {
    UsbWriteConfig {
        device: device("E:"),
        iso_path: "C:\\win.iso".to_string(),
        partition_scheme,
        target_system: TargetSystem::BiosOrUefiCsm,
        file_system: FsType::NTFS,
        volume_label: "WINPE".to_string(),
        quick_format: true,
        efi_size_mb: 100,
    }
}

/// Runs a writer on a machine on which the actions in `broken` fail, and the EFI
/// directories in `efi` exist. Tells what was asked for, what was sent, and how it ended.
fn run(
    config: UsbWriteConfig,
    broken: &[&str],
    efi: &[&str],
) -> (Vec<String>, Vec<WriteProgress>, Option<String>) {
    let mut writer = UsbWriter::new(config).with_progress(ProgressQueue::new());
    let mut asks = Vec::new();
    let mut sent = Vec::new();
    let mut event = WriteEvent::Begin;
    loop {
        let action = writer.write(event);
        while let Some(message) = writer.take_progress() {
            sent.push(message);
        }
        let ask = format!("{:?}", action);
        let name = ask.split(|c: char| !c.is_alphanumeric()).next().unwrap_or("").to_string();
        let r = if broken.contains(&name.as_str()) {
            Err(BootError::new(&format!("{} broke", name)))
        } else {
            Ok(())
        };
        asks.push(ask);
        event = match action {
            WriteAction::LockVolume { .. } => WriteEvent::VolumeLocked(r),
            WriteAction::CleanDisk { .. } => WriteEvent::DiskCleaned(r),
            WriteAction::CreateMbrPartition { .. } => WriteEvent::Partitioned(r),
            WriteAction::CreateGptPartitions { .. } => WriteEvent::Partitioned(r),
            WriteAction::LoadFormatter => WriteEvent::FormatterLoaded(r),
            WriteAction::Format { .. } => WriteEvent::Formatted(r),
            WriteAction::FormatByCommand { .. } => WriteEvent::FormattedByCommand(r),
            WriteAction::MountIso { .. } => WriteEvent::IsoMounted(r.map(|_| "F:".to_string())),
            WriteAction::CopyFiles { .. } => WriteEvent::FilesCopied(r),
            WriteAction::CopyFilesSingly { .. } => WriteEvent::FilesCopiedSingly(r),
            WriteAction::WriteMbr { .. } => WriteEvent::MbrWritten(r),
            WriteAction::WritePbr { .. } => WriteEvent::PbrWritten(r),
            WriteAction::CheckSystemEfi { path } => {
                WriteEvent::SystemEfiChecked(efi.contains(&path.as_str()))
            }
            WriteAction::CheckVolumeEfi { path } => {
                WriteEvent::VolumeEfiChecked(efi.contains(&path.as_str()))
            }
            WriteAction::CheckIsoEfi { path } => {
                WriteEvent::IsoEfiChecked(efi.contains(&path.as_str()))
            }
            WriteAction::CopyEfi { .. } => WriteEvent::EfiCopied(r),
            WriteAction::UnmountIso => WriteEvent::IsoUnmounted(r),
            WriteAction::UnlockVolume { .. } => WriteEvent::VolumeUnlocked(r),
            WriteAction::Finished(r) => return (asks, sent, r.err().map(|e| e.message)),
        };
    }
}

fn steps(sent: &[WriteProgress]) -> Vec<(String, u8, u8)> {
    sent.iter().map(|m| (m.step.clone(), m.step_progress, m.total_progress)).collect()
}

#[test]
fn mbr_drive_is_made_in_order() {
    let (asks, sent, error) = run(config(PartitionScheme::Mbr), &[], &[]);
    assert_eq!(error, None);
    assert_eq!(
        asks,
        [
            "LockVolume { letter: 'E' }",
            "CleanDisk { drive: 2 }",
            "CreateMbrPartition { drive: 2, active: true }",
            "LoadFormatter",
            "Format { letter: 'E', file_system: NTFS, label: \"WINPE\", quick_format: true }",
            "MountIso { path: \"C:\\\\win.iso\" }",
            "CopyFiles { source: \"F:\", dest: \"E:\", progress_start: 55, progress_end: 80 }",
            "WriteMbr { drive: 2, mbr_type: \"/nt60\" }",
            "WritePbr { letter: 'E', pbr_type: \"/nt60\" }",
            "UnmountIso",
            "UnlockVolume { letter: 'E' }",
            "Finished(Ok(()))",
        ]
    );
    let want = [
        ("正在准备目标设备...", 0, 0),
        ("目标设备已准备", 100, 5),
        ("正在清理磁盘分区...", 0, 10),
        ("磁盘已清理", 50, 15),
        ("分区表已创建", 100, 20),
        ("正在格式化分区...", 0, 25),
        ("格式化完成", 100, 40),
        ("正在挂载 ISO 镜像...", 0, 45),
        ("ISO 已挂载", 100, 50),
        ("正在复制文件到 U盘...", 0, 55),
        ("文件复制完成", 100, 80),
        ("正在写入引导记录...", 0, 85),
        ("引导记录已写入", 100, 90),
        ("正在清理...", 50, 95),
        ("启动盘制作完成！", 100, 100),
        ("完成", 100, 100),
    ];
    let want: Vec<(String, u8, u8)> =
        want.iter().map(|(s, a, b)| (s.to_string(), *a, *b)).collect();
    assert_eq!(steps(&sent), want);
    assert!(sent.iter().all(|m| m.error.is_none()));
    let last = sent.len() - 1;
    assert!(sent.iter().enumerate().all(|(i, m)| m.finished == (i == last)));
}

#[test]
fn gpt_drive_with_boot_files_is_made_in_order() {
    let (asks, _, error) = run(config(PartitionScheme::Gpt), &[], &["S:\\EFI"]);
    assert_eq!(error, None);
    assert_eq!(
        asks[2],
        "CreateGptPartitions { drive: 2, efi_size_mb: 100, data_size_mb: 0 }"
    );
    assert_eq!(
        asks[7..],
        [
            "CheckSystemEfi { path: \"S:\\\\EFI\" }",
            "UnmountIso",
            "UnlockVolume { letter: 'E' }",
            "Finished(Ok(()))",
        ]
    );
    let (asks, _, _) = run(config(PartitionScheme::Gpt), &[], &["E:\\EFI\\BOOT"]);
    assert_eq!(asks[8], "CheckVolumeEfi { path: \"E:\\\\EFI\\\\BOOT\" }");
    assert_eq!(asks[9], "UnmountIso");
}

#[test]
fn gpt_drive_gets_its_boot_files_from_the_image() {
    let (asks, _, error) = run(config(PartitionScheme::Gpt), &[], &["F:\\EFI"]);
    assert_eq!(error, None);
    assert_eq!(asks[9], "CheckIsoEfi { path: \"F:\\\\EFI\" }");
    assert_eq!(asks[10], "CopyEfi { source: \"F:\\\\EFI\", dest: \"E:\\\\EFI\" }");
    assert_eq!(asks[11], "UnmountIso");
    let (asks, _, error) = run(config(PartitionScheme::Gpt), &[], &[]);
    assert_eq!(error, None);
    assert_eq!(asks[10], "UnmountIso");
    let (_, _, error) = run(config(PartitionScheme::Gpt), &["CopyEfi"], &["F:\\EFI"]);
    assert_eq!(error.as_deref(), Some("CopyEfi broke"));
}

#[test]
fn second_ways_are_tried() {
    let (asks, sent, error) = run(config(PartitionScheme::Mbr), &["Format", "CopyFiles"], &[]);
    assert_eq!(error, None);
    assert_eq!(
        asks[5],
        "FormatByCommand { letter: 'E', file_system: NTFS, label: \"WINPE\", quick_format: true }"
    );
    assert_eq!(asks[8], "CopyFilesSingly { source: \"F:\", dest: \"E:\" }");
    assert_eq!(sent.len(), 16);
}

#[test]
fn failures_are_told() {
    for broken in [
        &["LockVolume"][..],
        &["CleanDisk"],
        &["CreateMbrPartition"],
        &["LoadFormatter"],
        &["Format", "FormatByCommand"],
        &["MountIso"],
        &["CopyFiles", "CopyFilesSingly"],
        &["WriteMbr"],
        &["WritePbr"],
    ] {
        let (asks, sent, error) = run(config(PartitionScheme::Mbr), broken, &[]);
        let why = format!("{} broke", broken[broken.len() - 1]);
        assert_eq!(error, Some(why.clone()));
        let last = &sent[sent.len() - 1];
        assert_eq!(last.step, "错误");
        assert_eq!((last.step_progress, last.total_progress), (0, 0));
        assert!(last.finished);
        assert_eq!(last.error, Some(why));
        assert_eq!(sent.iter().filter(|m| m.finished).count(), 1);
        assert!(asks.len() < 12);
    }
    let (asks, _, _) = run(config(PartitionScheme::Mbr), &["LockVolume"], &[]);
    assert_eq!(asks.len(), 2);
    let (_, _, error) = run(config(PartitionScheme::Gpt), &["CreateGptPartitions"], &[]);
    assert_eq!(error.as_deref(), Some("CreateGptPartitions broke"));
}

#[test]
fn unmounting_and_unlocking_may_fail() {
    let (_, sent, error) =
        run(config(PartitionScheme::Mbr), &["UnmountIso", "UnlockVolume"], &[]);
    assert_eq!(error, None);
    assert_eq!(sent.len(), 16);
}

#[test]
fn totals_never_go_down() {
    for broken in [&[][..], &["Format"], &["CopyFiles"], &["WritePbr"]] {
        for scheme in [PartitionScheme::Mbr, PartitionScheme::Gpt] {
            let (_, sent, _) = run(config(scheme), broken, &["F:\\EFI"]);
            let mut total = 0;
            for m in sent.iter().filter(|m| m.error.is_none()) {
                assert!(m.total_progress >= total);
                assert!(m.step_progress <= 100 && m.total_progress <= 100);
                total = m.total_progress;
            }
        }
    }
}

#[test]
fn boot_files_are_found_however_the_image_drive_is_written() {
    for (drive, efi) in [
        ("F", "F:\\EFI"),
        ("F:", "F:\\EFI"),
        ("F::", "F:\\EFI"),
        ("f:", "f:\\EFI"),
        ("F:\\", "F:\\\\EFI"),
        ("C:\\mnt", "C:\\mnt\\EFI"),
        ("\\", "\\\\EFI"),
        ("", "\\EFI"),
    ] {
        let mut writer = UsbWriter::new(config(PartitionScheme::Gpt));
        writer.write(WriteEvent::IsoMounted(Ok(drive.to_string())));
        match writer.write(WriteEvent::VolumeEfiChecked(false)) {
            WriteAction::CheckIsoEfi { path } => assert_eq!(path, efi),
            a => panic!("{:?}", a),
        }
    }
}

#[test]
fn drive_without_a_letter_counts_as_d() {
    let mut c = config(PartitionScheme::Mbr);
    c.device = device("");
    let (asks, _, _) = run(c, &["LockVolume"], &[]);
    assert_eq!(asks[0], "LockVolume { letter: 'D' }");
}

#[test]
fn writer_without_a_queue_sends_nothing() {
    let mut writer = UsbWriter::new(config(PartitionScheme::Mbr));
    writer.write(WriteEvent::Begin);
    writer.send_progress("x", 1, 2);
    writer.send_finished();
    writer.send_error("y");
    assert!(writer.take_progress().is_none());
}

#[test]
fn messages_come_in_the_order_in_which_they_were_sent() {
    let mut writer =
        UsbWriter::new(config(PartitionScheme::Mbr)).with_progress(ProgressQueue::new());
    writer.send_progress("one", 1, 2);
    writer.send_finished();
    writer.send_error("bad");
    let mut got = Vec::new();
    while let Some(m) = writer.take_progress() {
        got.push((m.step.clone(), m.step_progress, m.total_progress, m.finished, m.error.clone()));
    }
    assert_eq!(
        got,
        [
            ("one".to_string(), 1, 2, false, None),
            ("完成".to_string(), 100, 100, true, None),
            ("错误".to_string(), 0, 0, true, Some("bad".to_string())),
        ]
    );
}

#[test]
fn usual_drive_is_made_from_an_image() {
    let devices = vec![device("D:"), device("E:"), device("E:x")];
    let make = |size| {
        match create_bootable_usb("C:\\a.iso", 'E', Some(ProgressQueue::new()), &devices, size) {
            Ok(writer) => writer,
            Err(e) => panic!("{:?}", e),
        }
    };
    let limit = 4 * 1024 * 1024 * 1024;
    for (size, fs) in [
        (None, "FAT32"),
        (Some(0), "FAT32"),
        (Some(limit), "FAT32"),
        (Some(limit + 1), "NTFS"),
    ] {
        let mut writer = make(size);
        let first = format!("{:?}", writer.write(WriteEvent::Begin));
        assert_eq!(first, "LockVolume { letter: 'E' }");
        let format = format!("{:?}", writer.write(WriteEvent::FormatterLoaded(Ok(()))));
        assert_eq!(
            format,
            format!(
                "Format {{ letter: 'E', file_system: {}, label: \"WINPE\", quick_format: true }}",
                fs
            )
        );
        let partition = format!("{:?}", writer.write(WriteEvent::DiskCleaned(Ok(()))));
        assert_eq!(partition, "CreateMbrPartition { drive: 2, active: true }");
        let mount = format!("{:?}", writer.write(WriteEvent::Formatted(Ok(()))));
        assert_eq!(mount, "MountIso { path: \"C:\\\\a.iso\" }");
        assert!(writer.take_progress().is_some());
    }
}

#[test]
fn usual_drive_needs_a_drive_of_that_letter() {
    let devices = vec![device("D:"), device("")];
    match create_bootable_usb("C:\\a.iso", 'E', None, &devices, None) {
        Ok(_) => panic!("found"),
        Err(e) => assert_eq!(e.message, "未找到 USB 设备: E:"),
    }
    match create_bootable_usb("C:\\a.iso", 'D', None, &devices, None) {
        Ok(mut writer) => {
            writer.write(WriteEvent::Begin);
            assert!(writer.take_progress().is_none());
        }
        Err(e) => panic!("{:?}", e),
    }
}

#[test]
fn partition_schemes_have_names() {
    assert_eq!(PartitionScheme::Mbr.to_string(), "MBR");
    assert_eq!(PartitionScheme::Gpt.to_string(), "GPT");
}
