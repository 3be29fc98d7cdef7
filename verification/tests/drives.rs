//! Finding USB drives, describing them, and working on their volumes.

use usb_boot::disk::PartitionStyle;
use usb_boot::error::BootError;
use usb_boot::usb::{
    ControlEvent, DriveAnswers, DriveEvent, DriveLayoutInformationEx, DriveStep, InfoEvent,
    InfoStep, LockEvent, NumberEvent, NumberStep, RawSpace, ScanEvent, ScanStep, SpaceEvent,
    SpaceStep, StorageDeviceNumber, StyleEvent, StyleStep, UsbDevice, UsbManager, VolumeControl,
    VolumeStep,
};

fn wide(s: &str) -> Vec<u16> {
    s.encode_utf16().chain(std::iter::once(0)).collect()
}

fn buffer(s: &str) -> Vec<u16> {
    let mut b: Vec<u16> = s.encode_utf16().collect();
    b.resize(261, 0);
    b
}

fn message(r: Result<(), BootError>) -> Option<String> {
    match r {
        Ok(()) => None,
        Err(e) => Some(e.message),
    }
}

fn device(letter: &str, label: &str) -> UsbDevice {
    UsbDevice {
        letter: letter.to_string(),
        label: label.to_string(),
        physical_drive: 2,
        partition_number: 1,
        device_type: 1,
        size_bytes: 15_931_539_456,
        free_bytes: 1,
        is_removable: true,
        partition_style: PartitionStyle::MBR,
        file_system: "FAT32".to_string(),
    }
}

/// Runs a whole search on a machine with the given drives, and tells which were asked
/// about and which were found.
fn search(drives: &[(char, u32, Option<UsbDevice>)]) -> (String, Vec<UsbDevice>) {
    let at = |letter: u8| drives.iter().find(|d| d.0 == letter as char);
    let mut asked = String::new();
    let mut found = Vec::new();
    let mut event = ScanEvent::Begin;
    loop {
        let (now, step) = UsbManager::get_usb_devices(found, event);
        found = now;
        event = match step {
            ScanStep::CheckRoot { letter, root } => {
                assert_eq!(root, format!("{}:\\", letter as char));
                asked.push(letter as char);
                ScanEvent::RootChecked { letter, exists: at(letter).is_some() }
            }
            ScanStep::ReadType { letter, wide_root } => {
                assert_eq!(wide_root, wide(&format!("{}:\\", letter as char)));
                match at(letter) {
                    Some(d) => ScanEvent::TypeRead { letter, drive_type: d.1 },
                    None => panic!("no drive {}", letter),
                }
            }
            ScanStep::ReadInfo { letter } => {
                let info = match at(letter) {
                    Some((_, _, Some(device))) => Ok(device.clone()),
                    _ => Err(BootError::new("unknown")),
                };
                ScanEvent::InfoRead { letter, info }
            }
            ScanStep::Finished => return (asked, found),
        };
    }
}

#[test]
fn search_goes_through_all_letters() {
    let (asked, found) = search(&[]);
    assert_eq!(asked, "CDEFGHIJKLMNOPQRSTUVWXYZ");
    assert!(found.is_empty());
}

#[test]
fn search_finds_removable_and_fixed_drives_but_not_the_system() {
    let (_, found) = search(&[
        ('C', 3, Some(device("C:", "system"))),
        ('D', 3, Some(device("D:", "fixed"))),
        ('E', 2, Some(device("E:", "stick"))),
        ('F', 5, Some(device("F:", "disc"))),
        ('G', 2, None),
        ('X', 3, Some(device("X:", "pe"))),
        ('Z', 2, Some(device("Z:", "last"))),
    ]);
    let letters: Vec<String> = found.into_iter().map(|d| d.letter).collect();
    assert_eq!(letters, ["D:", "E:", "Z:"]);
}

#[test]
fn search_finds_removable_drives_with_the_letters_of_the_system() {
    let (_, found) = search(&[
        ('C', 2, Some(device("C:", "stick"))),
        ('X', 2, Some(device("X:", "stick"))),
    ]);
    let letters: Vec<String> = found.into_iter().map(|d| d.letter).collect();
    assert_eq!(letters, ["C:", "X:"]);
}

#[test]
fn found_drives_are_sorted_and_keep_their_order_where_equal() {
    let (_, found) = search(&[
        ('D', 2, Some(device("M:", "first"))),
        ('E', 2, Some(device("B:", "second"))),
        ('F', 2, Some(device("M:", "third"))),
        ('G', 2, Some(device("A:", "fourth"))),
    ]);
    let all: Vec<(String, String)> = found.into_iter().map(|d| (d.letter, d.label)).collect();
    let want = [("A:", "fourth"), ("B:", "second"), ("M:", "first"), ("M:", "third")];
    assert_eq!(all.len(), want.len());
    for (a, w) in all.iter().zip(want.iter()) {
        assert_eq!((a.0.as_str(), a.1.as_str()), *w);
    }
}

#[test]
fn candidates_are_told_by_type_and_letter() {
    assert!(UsbManager::may_be_usb(b'C', 2));
    assert!(!UsbManager::may_be_usb(b'C', 3));
    assert!(!UsbManager::may_be_usb(b'X', 3));
    assert!(UsbManager::may_be_usb(b'D', 3));
    for other in [0, 1, 4, 5, 6] {
        assert!(!UsbManager::may_be_usb(b'D', other));
    }
}

#[test]
fn drives_are_described_from_all_answers() {
    let (known, step) = UsbManager::get_device_info('E', DriveAnswers::new(), InfoEvent::Begin);
    match step {
        InfoStep::ReadVolume { wide_root, buffer_len } => {
            assert_eq!(wide_root, wide("E:\\"));
            assert_eq!(buffer_len, 261);
        }
        s => panic!("{:?}", s),
    }
    let event = InfoEvent::VolumeRead { name: buffer("启动盘"), file_system: buffer("exFAT") };
    let (known, step) = UsbManager::get_device_info('E', known, event);
    assert!(matches!(step, InfoStep::ReadSpace));
    let event = InfoEvent::SpaceRead(Ok((1000, 400)));
    let (known, step) = UsbManager::get_device_info('E', known, event);
    assert!(matches!(step, InfoStep::ReadNumber));
    let event = InfoEvent::NumberRead((7, 3, 2));
    let (known, step) = UsbManager::get_device_info('E', known, event);
    assert!(matches!(step, InfoStep::ReadStyle { disk_number: 3 }));
    let event = InfoEvent::StyleRead(PartitionStyle::GPT);
    match UsbManager::get_device_info('E', known, event).1 {
        InfoStep::Finished(Ok(d)) => {
            assert_eq!(d.letter, "E:");
            assert_eq!(d.label, "启动盘");
            assert_eq!(d.file_system, "exFAT");
            assert_eq!((d.size_bytes, d.free_bytes), (1000, 400));
            assert_eq!((d.device_type, d.physical_drive, d.partition_number), (7, 3, 2));
            assert!(!d.is_removable);
            assert_eq!(d.partition_style, PartitionStyle::GPT);
        }
        s => panic!("{:?}", s),
    }
}

#[test]
fn drives_of_device_type_one_are_removable() {
    let mut known = DriveAnswers::new();
    known.number = (1, 0, 0);
    let event = InfoEvent::StyleRead(PartitionStyle::Unknown);
    match UsbManager::get_device_info('E', known, event).1 {
        InfoStep::Finished(Ok(d)) => {
            assert!(d.is_removable);
            assert_eq!(d.label, "");
        }
        s => panic!("{:?}", s),
    }
}

#[test]
fn drives_without_a_size_are_not_described() {
    let event = InfoEvent::SpaceRead(Err(BootError::new("not ready")));
    match UsbManager::get_device_info('E', DriveAnswers::new(), event).1 {
        InfoStep::Finished(Err(e)) => assert_eq!(e.message, "not ready"),
        s => panic!("{:?}", s),
    }
}

#[test]
fn space_is_the_total_and_what_the_user_may_take() {
    match UsbManager::get_disk_space('E', SpaceEvent::Begin) {
        SpaceStep::Query(root) => assert_eq!(root, wide("E:\\")),
        s => panic!("{:?}", s),
    }
    let raw = RawSpace { free_bytes_available: 1, total_bytes: 2, total_free_bytes: 3 };
    match UsbManager::get_disk_space('E', SpaceEvent::Replied(Ok(raw))) {
        SpaceStep::Finished(Ok(space)) => {
            assert_eq!(space, (2, 1));
            assert_eq!(UsbManager::get_disk_size(Ok(space)).ok(), Some(2));
        }
        s => panic!("{:?}", s),
    }
    match UsbManager::get_disk_space('E', SpaceEvent::Replied(Err("gone".to_string()))) {
        SpaceStep::Finished(Err(e)) => {
            assert_eq!(e.message, "gone");
            assert!(UsbManager::get_disk_size(Err(e)).is_err());
        }
        s => panic!("{:?}", s),
    }
}

#[test]
fn device_numbers_are_zero_where_unknown() {
    let step = |event| UsbManager::get_storage_device_number('E', event);
    match step(NumberEvent::Begin) {
        NumberStep::Open(name) => assert_eq!(name, wide("\\\\.\\E:")),
        s => panic!("{:?}", s),
    }
    assert!(matches!(step(NumberEvent::Opened(false)), NumberStep::Finished((0, 0, 0))));
    assert!(matches!(step(NumberEvent::Opened(true)), NumberStep::Query));
    let n = StorageDeviceNumber { device_type: 7, device_number: 2, partition_number: 1 };
    let closed = step(NumberEvent::Queried(Some(n)));
    assert!(matches!(closed, NumberStep::Close { then: (7, 2, 1) }));
    assert!(matches!(step(NumberEvent::Queried(None)), NumberStep::Close { then: (0, 0, 0) }));
}

#[test]
fn partition_style_is_read_from_the_layout() {
    let step = |event| UsbManager::get_partition_style(2, event);
    match step(StyleEvent::Begin) {
        StyleStep::Open(name) => assert_eq!(name, wide("\\\\.\\PhysicalDrive2")),
        s => panic!("{:?}", s),
    }
    assert!(matches!(step(StyleEvent::Opened(true)), StyleStep::Query { buffer_len: 4096 }));
    assert!(matches!(
        step(StyleEvent::Opened(false)),
        StyleStep::Finished(PartitionStyle::Unknown)
    ));
    for (ok, first, bytes_returned, style) in [
        (true, 0u32, 48u32, PartitionStyle::MBR),
        (true, 1, 8, PartitionStyle::GPT),
        (true, 2, 48, PartitionStyle::Unknown),
        (true, 256, 48, PartitionStyle::Unknown),
        (true, 1, 7, PartitionStyle::Unknown),
        (false, 1, 48, PartitionStyle::Unknown),
    ] {
        let mut buffer = vec![0u8; 4096];
        buffer[..4].copy_from_slice(&first.to_le_bytes());
        match step(StyleEvent::Queried { ok, buffer, bytes_returned }) {
            StyleStep::Close { then } => assert_eq!(then, style),
            s => panic!("{:?}", s),
        }
    }
}

#[test]
fn nothing_is_asked_about_disk_zero() {
    assert!(matches!(
        UsbManager::get_partition_style(0, StyleEvent::Begin),
        StyleStep::Finished(PartitionStyle::Unknown)
    ));
}

#[test]
fn layouts_are_little_endian() {
    let bytes = [1, 2, 3, 4, 5, 6, 7, 8, 9];
    assert_eq!(
        DriveLayoutInformationEx::parse(&bytes),
        Some(DriveLayoutInformationEx {
            partition_style: 0x04030201,
            partition_count: 0x08070605
        })
    );
    assert_eq!(DriveLayoutInformationEx::parse(&bytes[..7]), None);
    let top = DriveLayoutInformationEx::parse(&[0xFF; 8]);
    assert_eq!(top.map(|l| l.partition_style), Some(u32::MAX));
}

#[test]
fn disks_are_opened_by_number() {
    let step = |event| UsbManager::open_physical_drive(12, true, event);
    match step(DriveEvent::Begin) {
        DriveStep::Open { name, write_access } => {
            assert_eq!(name, wide("\\\\.\\PhysicalDrive12"));
            assert!(write_access);
        }
        s => panic!("{:?}", s),
    }
    assert!(matches!(step(DriveEvent::Opened), DriveStep::Finished(Ok(()))));
    for (event, error) in [
        (DriveEvent::InvalidHandle, "无法打开物理磁盘 12"),
        (DriveEvent::Failed("Error 5".to_string()), "打开物理磁盘失败: Error 5"),
    ] {
        match step(event) {
            DriveStep::Finished(r) => assert_eq!(message(r).as_deref(), Some(error)),
            s => panic!("{:?}", s),
        }
    }
}

#[test]
fn volumes_are_dismounted_and_locked() {
    let step = |event| UsbManager::lock_volume('E', event);
    match step(LockEvent::Begin) {
        VolumeStep::Open(name) => assert_eq!(name, wide("\\\\.\\E:")),
        s => panic!("{:?}", s),
    }
    assert!(matches!(
        step(LockEvent::Opened(true)),
        VolumeStep::Control(VolumeControl::Dismount)
    ));
    for dismounted in [true, false] {
        assert!(matches!(
            step(LockEvent::Dismounted(dismounted)),
            VolumeStep::Control(VolumeControl::Lock)
        ));
    }
    assert!(matches!(step(LockEvent::Locked(true)), VolumeStep::Close { then: Ok(()) }));
    match step(LockEvent::Locked(false)) {
        VolumeStep::Close { then } => assert_eq!(
            message(then).as_deref(),
            Some("锁定卷 E: 失败，请确保没有其他程序正在使用该磁盘")
        ),
        s => panic!("{:?}", s),
    }
    match step(LockEvent::Opened(false)) {
        VolumeStep::Finished(r) => {
            assert_eq!(message(r).as_deref(), Some("无法打开卷 E: 进行锁定"))
        }
        s => panic!("{:?}", s),
    }
}

#[test]
fn unlocking_a_volume_never_fails() {
    let step = |event| UsbManager::unlock_volume('E', event);
    match step(ControlEvent::Begin) {
        VolumeStep::Open(name) => assert_eq!(name, wide("\\\\.\\E:")),
        s => panic!("{:?}", s),
    }
    assert!(matches!(
        step(ControlEvent::Opened(true)),
        VolumeStep::Control(VolumeControl::Unlock)
    ));
    assert!(matches!(step(ControlEvent::Opened(false)), VolumeStep::Finished(Ok(()))));
    for done in [true, false] {
        assert!(matches!(
            step(ControlEvent::Controlled(done)),
            VolumeStep::Close { then: Ok(()) }
        ));
    }
}

#[test]
fn ejecting_a_drive_can_fail() {
    let step = |event| UsbManager::eject_device('E', event);
    match step(ControlEvent::Begin) {
        VolumeStep::Open(name) => assert_eq!(name, wide("\\\\.\\E:")),
        s => panic!("{:?}", s),
    }
    assert!(matches!(
        step(ControlEvent::Opened(true)),
        VolumeStep::Control(VolumeControl::EjectMedia)
    ));
    match step(ControlEvent::Opened(false)) {
        VolumeStep::Finished(r) => {
            assert_eq!(message(r).as_deref(), Some("无法打开设备 E: 进行弹出"))
        }
        s => panic!("{:?}", s),
    }
    assert!(matches!(
        step(ControlEvent::Controlled(true)),
        VolumeStep::Close { then: Ok(()) }
    ));
    match step(ControlEvent::Controlled(false)) {
        VolumeStep::Close { then } => {
            assert_eq!(message(then).as_deref(), Some("弹出设备 E: 失败"))
        }
        s => panic!("{:?}", s),
    }
}

#[test]
fn drives_are_shown_in_one_line() {
    let mut d = device("E:", "WINPE");
    assert_eq!(UsbManager::format_device_info(&d), "E: [WINPE] 14.8 GB FAT32 (可移动磁盘) MBR");
    d.is_removable = false;
    d.partition_style = PartitionStyle::Unknown;
    d.label = String::new();
    d.file_system = "NTFS".to_string();
    assert_eq!(UsbManager::format_device_info(&d), "E: [] 14.8 GB NTFS (固定磁盘) Unknown");
    assert_eq!(PartitionStyle::GPT.to_string(), "GPT");
}
