//! The panel on which boot drives are made.

use usb_boot::disk::PartitionStyle;
use usb_boot::error::BootError;
use usb_boot::progress::{ProgressQueue, WriteProgress};
use usb_boot::ui::{App, DeviceList, UsbBootState};
use usb_boot::usb::UsbDevice;
use usb_boot::usb_writer::{PartitionScheme, WriteAction, WriteEvent};

fn app() -> App {
    App { usb_boot_state: UsbBootState::default() }
}

fn device(letter: &str) -> UsbDevice {
    UsbDevice {
        letter: letter.to_string(),
        label: "STICK".to_string(),
        physical_drive: 1,
        partition_number: 1,
        device_type: 1,
        size_bytes: 8 * 1024 * 1024 * 1024,
        free_bytes: 0,
        is_removable: true,
        partition_style: PartitionStyle::GPT,
        file_system: "exFAT".to_string(),
    }
}

fn progress(step: &str, total: u8, finished: bool, error: Option<&str>) -> WriteProgress {
    WriteProgress {
        step: step.to_string(),
        step_progress: 50,
        total_progress: total,
        finished,
        error: error.map(|e| e.to_string()),
    }
}

/// A panel on which everything is chosen.
fn ready() -> App {
    let mut a = app();
    a.refresh_usb_devices(vec![device("D:"), device("E:")]);
    a.select_device(1);
    a.browse_iso_for_usb(Some("C:\\win.iso".to_string()));
    a
}

#[test]
fn panel_starts_empty() {
    let a = app();
    assert!(a.needs_refresh());
    let s = &a.usb_boot_state;
    assert_eq!(s.volume_label, "WINPE");
    assert_eq!(s.partition_scheme, PartitionScheme::Mbr);
    assert!(s.quick_format);
    assert!(!s.is_writing);
    assert!(s.progress_rx.is_none());
    let p = a.show_usb_boot(true);
    match p.devices {
        DeviceList::NoneFound(t) => {
            assert_eq!(t, "⚠ 未检测到 USB 存储设备，请插入 U 盘后点击刷新")
        }
        d => panic!("{:?}", d),
    }
    assert!(!p.can_start);
    assert!(p.status.is_none());
    assert_eq!(p.scheme_text, "MBR (兼容 BIOS + UEFI-CSM)");
    assert_eq!(p.file_system_text, "FAT32 (推荐，最大兼容性)");
}

#[test]
fn panel_shows_that_drives_are_looked_for() {
    let mut a = app();
    a.usb_boot_state.refreshing_devices = true;
    assert!(!a.needs_refresh());
    let p = a.show_usb_boot(false);
    assert!(p.refreshing);
    match p.devices {
        DeviceList::Scanning(t) => assert_eq!(t, "正在扫描 USB 设备..."),
        d => panic!("{:?}", d),
    }
}

#[test]
fn panel_lists_the_drives() {
    let a = ready();
    assert!(!a.needs_refresh());
    match a.show_usb_boot(true).devices {
        DeviceList::Rows(rows) => {
            let all: Vec<(&str, bool)> =
                rows.iter().map(|r| (r.label.as_str(), r.selected)).collect();
            assert_eq!(
                all,
                [
                    ("D: [STICK] 8.0 GB exFAT (可移动磁盘) GPT", false),
                    ("E: [STICK] 8.0 GB exFAT (可移动磁盘) GPT", true),
                ]
            );
        }
        d => panic!("{:?}", d),
    }
}

#[test]
fn panel_lists_the_options() {
    let mut a = ready();
    a.select_partition_scheme(1);
    a.select_file_system(2);
    assert_eq!(a.usb_boot_state.partition_scheme, PartitionScheme::Gpt);
    let p = a.show_usb_boot(true);
    assert_eq!(p.scheme_text, "GPT (纯 UEFI)");
    assert_eq!(p.file_system_text, "exFAT (现代格式)");
    let schemes: Vec<(&str, bool)> =
        p.schemes.iter().map(|r| (r.label.as_str(), r.selected)).collect();
    assert_eq!(schemes, [("MBR (兼容 BIOS + UEFI-CSM)", false), ("GPT (纯 UEFI)", true)]);
    let systems: Vec<(&str, bool)> =
        p.file_systems.iter().map(|r| (r.label.as_str(), r.selected)).collect();
    assert_eq!(
        systems,
        [
            ("FAT32 (推荐，最大兼容性)", false),
            ("NTFS (支持大于4GB文件)", false),
            ("exFAT (现代格式)", true),
        ]
    );
}

#[test]
fn refreshing_tells_how_many_drives_there_are() {
    let mut a = ready();
    a.refresh_usb_devices(vec![device("D:"), device("E:"), device("F:")]);
    assert_eq!(a.usb_boot_state.status_message, "检测到 3 个 USB 设备，请选择一个作为目标");
    assert_eq!(a.usb_boot_state.selected_device, None);
    assert!(!a.show_usb_boot(true).can_start);
    a.refresh_usb_devices(Vec::new());
    assert_eq!(a.usb_boot_state.status_message, "未检测到 USB 设备，请插入 U 盘后重试");
}

#[test]
fn picking_an_image_is_told() {
    let mut a = app();
    a.browse_iso_for_usb(None);
    assert_eq!(a.usb_boot_state.status_message, "");
    a.browse_iso_for_usb(Some("D:\\镜像.iso".to_string()));
    assert_eq!(a.usb_boot_state.iso_path, "D:\\镜像.iso");
    assert_eq!(a.usb_boot_state.status_message, "已选择: D:\\镜像.iso");
}

#[test]
fn starting_needs_a_drive_and_an_image() {
    let mut a = app();
    assert!(a.start_usb_write(true).is_none());
    assert_eq!(a.usb_boot_state.status_message, "请先选择目标 USB 设备");
    a.select_device(0);
    assert!(a.start_usb_write(true).is_none());
    assert_eq!(a.usb_boot_state.status_message, "选中的设备信息无效");
    a.refresh_usb_devices(vec![device("D:")]);
    a.select_device(0);
    assert!(a.start_usb_write(true).is_none());
    assert_eq!(a.usb_boot_state.status_message, "ISO 文件不存在");
    a.browse_iso_for_usb(Some("x.iso".to_string()));
    assert!(a.start_usb_write(false).is_none());
    assert_eq!(a.usb_boot_state.status_message, "ISO 文件不存在");
    assert!(!a.usb_boot_state.is_writing);
}

#[test]
fn starting_makes_what_was_chosen() {
    let mut a = ready();
    a.select_partition_scheme(1);
    a.select_file_system(1);
    a.usb_boot_state.volume_label = "盘".to_string();
    a.usb_boot_state.quick_format = false;
    assert!(a.show_usb_boot(true).can_start);
    assert!(!a.show_usb_boot(false).can_start);
    let mut writer = match a.start_usb_write(true) {
        Some(w) => w,
        None => panic!("{}", a.usb_boot_state.status_message),
    };
    assert!(a.usb_boot_state.is_writing);
    assert_eq!(a.usb_boot_state.status_message, "正在制作启动盘...");
    let p = a.show_usb_boot(true);
    assert!(p.writing);
    assert!(!p.can_start);
    assert!(matches!(
        writer.write(WriteEvent::Begin),
        WriteAction::LockVolume { letter: 'E' }
    ));
    assert!(matches!(
        writer.write(WriteEvent::DiskCleaned(Ok(()))),
        WriteAction::CreateGptPartitions { drive: 1, efi_size_mb: 100, data_size_mb: 0 }
    ));
    assert_eq!(
        format!("{:?}", writer.write(WriteEvent::FormatterLoaded(Ok(())))),
        "Format { letter: 'E', file_system: NTFS, label: \"盘\", quick_format: false }"
    );
}

#[test]
fn progress_is_shown() {
    let mut a = ready();
    a.deliver_progress(progress("早", 1, false, None));
    a.check_usb_write_progress();
    assert!(a.usb_boot_state.write_progress.is_none());
    assert!(a.start_usb_write(true).is_some());
    a.deliver_progress(progress("一", 10, false, None));
    a.deliver_progress(progress("二", 20, false, None));
    a.check_usb_write_progress();
    assert_eq!(a.usb_boot_state.status_message, "正在制作: 二 (20%)");
    assert!(a.usb_boot_state.is_writing);
    assert!(a.usb_boot_state.progress_rx.is_some());
    match a.show_usb_boot(true).status {
        Some(status) => {
            assert_eq!(status.message, "正在制作: 二 (20%)");
            match status.progress {
                Some(p) => {
                    assert_eq!(p.percent, 20);
                    assert_eq!(p.bar_text, "20%");
                    assert_eq!(p.step_text, "步骤: 二 (50/100)");
                    assert!(p.error_text.is_none());
                }
                None => panic!("no progress"),
            }
        }
        None => panic!("no status"),
    }
}

#[test]
fn success_is_shown() {
    let mut a = ready();
    assert!(a.start_usb_write(true).is_some());
    a.deliver_progress(progress("一", 10, false, None));
    a.deliver_progress(progress("完成", 100, true, None));
    a.check_usb_write_progress();
    assert_eq!(a.usb_boot_state.status_message, "✅ 启动盘制作完成！");
    assert!(!a.usb_boot_state.is_writing);
    assert!(a.usb_boot_state.progress_rx.is_none());
    assert!(a.show_usb_boot(true).can_start);
}

#[test]
fn failure_is_shown() {
    let mut a = ready();
    assert!(a.start_usb_write(true).is_some());
    a.deliver_progress(progress("错误", 0, true, Some("锁定失败")));
    a.check_usb_write_progress();
    assert_eq!(a.usb_boot_state.status_message, "❌ 制作失败: 锁定失败");
    assert!(!a.usb_boot_state.is_writing);
    assert!(a.usb_boot_state.progress_rx.is_none());
    let error = a.show_usb_boot(true).status.and_then(|s| s.progress).and_then(|p| p.error_text);
    assert_eq!(error.as_deref(), Some("❌ 错误: 锁定失败"));
}

#[test]
fn messages_behind_the_last_are_read_too() {
    let mut a = ready();
    assert!(a.start_usb_write(true).is_some());
    a.deliver_progress(progress("完成", 100, true, None));
    a.deliver_progress(progress("后", 7, false, None));
    a.check_usb_write_progress();
    assert_eq!(a.usb_boot_state.status_message, "正在制作: 后 (7%)");
    assert!(!a.usb_boot_state.is_writing);
    assert!(a.usb_boot_state.progress_rx.is_none());
}

#[test]
fn panel_learns_how_the_whole_work_went() {
    for locked in [true, false] {
        let mut a = ready();
        let mut writer = match a.start_usb_write(true) {
            Some(w) => w,
            None => panic!("not started"),
        };
        writer.write(WriteEvent::Begin);
        if locked {
            writer.write(WriteEvent::VolumeUnlocked(Ok(())));
        } else {
            writer.write(WriteEvent::VolumeLocked(Err(BootError::new("无法打开卷"))));
        }
        while let Some(message) = writer.take_progress() {
            a.deliver_progress(message);
        }
        a.check_usb_write_progress();
        assert!(!a.usb_boot_state.is_writing);
        assert!(a.usb_boot_state.progress_rx.is_none());
        let want = if locked { "✅ 启动盘制作完成！" } else { "❌ 制作失败: 无法打开卷" };
        assert_eq!(a.usb_boot_state.status_message, want);
    }
}

#[test]
fn queue_is_first_in_first_out() {
    let mut q = ProgressQueue::new();
    assert!(q.try_recv().is_none());
    q.send(progress("a", 1, false, None));
    q.send(progress("b", 2, false, None));
    assert_eq!(q.try_recv().map(|m| m.step), Some("a".to_string()));
    q.send(progress("c", 3, false, None));
    assert_eq!(q.try_recv().map(|m| m.step), Some("b".to_string()));
    assert_eq!(q.try_recv().map(|m| m.step), Some("c".to_string()));
    assert!(q.try_recv().is_none());
}
