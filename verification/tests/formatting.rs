//! File systems and formatting.

use usb_boot::error::BootError;
use usb_boot::fat32::{FormatEvent, FormatStep, FsType, LibraryLoad, VolumeFormatter};
use usb_boot::host::{RunEvent, RunOutcome, RunStep, ToolOutput};

const ALL: [FsType; 6] =
    [FsType::FAT, FsType::FAT32, FsType::NTFS, FsType::exFAT, FsType::UDF, FsType::ReFS];

fn message(r: Result<(), BootError>) -> Option<String> {
    match r {
        Ok(()) => None,
        Err(e) => Some(e.message),
    }
}

fn formatter() -> VolumeFormatter {
    match VolumeFormatter::new(LibraryLoad::Loaded) {
        Ok(f) => f,
        Err(e) => panic!("{:?}", e),
    }
}

fn wide(s: &str) -> Vec<u16> {
    s.encode_utf16().chain(std::iter::once(0)).collect()
}

#[test]
fn file_systems_have_their_names() {
    let names: Vec<&str> = ALL.iter().map(|f| f.as_fs_str()).collect();
    assert_eq!(names, ["FAT", "FAT32", "NTFS", "exFAT", "UDF", "ReFS"]);
}

#[test]
fn label_lengths_depend_on_the_file_system() {
    let limits: Vec<usize> = ALL.iter().map(|f| f.max_label_length()).collect();
    assert_eq!(limits, [11, 11, 32, 11, 32, 32]);
}

#[test]
fn fat32_cluster_sizes() {
    let cases = [
        (0, 512),
        (256, 512),
        (257, 4096),
        (8192, 4096),
        (8193, 8192),
        (16384, 8192),
        (16385, 16384),
        (32768, 16384),
        (32769, 32768),
        (u64::MAX, 32768),
    ];
    for (mb, size) in cases {
        assert_eq!(FsType::FAT32.default_cluster_size(mb), size);
    }
}

#[test]
fn exfat_cluster_sizes() {
    let cases = [
        (0, 4096),
        (256, 4096),
        (257, 32768),
        (32768, 32768),
        (32769, 131072),
        (262144, 131072),
        (262145, 1048576),
    ];
    for (mb, size) in cases {
        assert_eq!(FsType::exFAT.default_cluster_size(mb), size);
    }
}

#[test]
fn other_file_systems_have_clusters_of_4096_bytes() {
    for f in [FsType::FAT, FsType::NTFS, FsType::UDF, FsType::ReFS] {
        for mb in [0, 1000, 1_000_000] {
            assert_eq!(f.default_cluster_size(mb), 4096);
        }
    }
}

#[test]
fn clusters_never_shrink() {
    for f in ALL {
        let mut last = 0;
        for mb in [0, 255, 256, 257, 8192, 9000, 16384, 20000, 32768, 40000, 262144, 300000] {
            let size = f.default_cluster_size(mb);
            assert!(size >= last);
            assert_eq!(size % 512, 0);
            last = size;
        }
    }
}

#[test]
fn formatter_needs_the_library() {
    for (load, error) in [
        (LibraryLoad::LibraryMissing, "无法加载 fmifs.dll，请确保系统文件完整"),
        (LibraryLoad::FunctionMissing, "fmifs.dll 中未找到 FormatEx 函数"),
        (LibraryLoad::Unsupported, "格式化仅支持 Windows 系统"),
    ] {
        match VolumeFormatter::new(load) {
            Ok(_) => panic!("loaded"),
            Err(e) => assert_eq!(e.message, error),
        }
    }
}

#[test]
fn formatting_calls_the_library() {
    match formatter().format('D', FsType::FAT32, "WINPE", true, FormatEvent::Begin) {
        FormatStep::Call(q) => {
            assert_eq!(q.drive_root, wide("D:\\"));
            assert_eq!(q.media_flag, 1);
            assert_eq!(q.format, wide("FAT32"));
            assert_eq!(q.label, wide("WINPE"));
            assert_eq!(q.quick_format, 1);
            assert_eq!(q.cluster_size, 0);
        }
        s => panic!("{:?}", s),
    }
}

#[test]
fn labels_are_cut_to_the_limit() {
    let label = "一二三四五六七八九十ABCDEFGHIJKLMNOPQRSTUVWXYZ";
    for (f, cut) in [
        (FsType::FAT32, "一二三四五六七八九十A"),
        (FsType::NTFS, "一二三四五六七八九十ABCDEFGHIJKLMNOPQRSTUV"),
    ] {
        match formatter().format('E', f, label, false, FormatEvent::Begin) {
            FormatStep::Call(q) => {
                assert_eq!(q.label, wide(cut));
                assert_eq!(q.quick_format, 0);
            }
            s => panic!("{:?}", s),
        }
    }
    match formatter().format('E', FsType::NTFS, "", false, FormatEvent::Begin) {
        FormatStep::Call(q) => assert_eq!(q.label, [0]),
        s => panic!("{:?}", s),
    }
}

#[test]
fn formatting_can_set_the_cluster_size() {
    let f = formatter();
    match f.format_with_cluster_size('F', FsType::exFAT, "x", true, 131072, FormatEvent::Begin) {
        FormatStep::Call(q) => {
            assert_eq!(q.drive_root, wide("F:\\"));
            assert_eq!(q.format, wide("exFAT"));
            assert_eq!(q.cluster_size, 131072);
        }
        s => panic!("{:?}", s),
    }
    match f.format_with_cluster_size('F', FsType::exFAT, "", true, 1, FormatEvent::Returned(5)) {
        FormatStep::Finished(r) => {
            assert_eq!(message(r).as_deref(), Some("格式化 F: 失败，错误代码: 5"))
        }
        s => panic!("{:?}", s),
    }
}

#[test]
fn formatting_goes_by_the_code_that_is_returned() {
    let step =
        |code| formatter().format('D', FsType::NTFS, "x", true, FormatEvent::Returned(code));
    match step(0) {
        FormatStep::Finished(r) => assert_eq!(message(r), None),
        s => panic!("{:?}", s),
    }
    match step(u32::MAX) {
        FormatStep::Finished(r) => {
            assert_eq!(message(r).as_deref(), Some("格式化 D: 失败，错误代码: 4294967295"))
        }
        s => panic!("{:?}", s),
    }
}

#[test]
fn formatting_command_is_told_everything() {
    let args = |fs, label: &str, quick| {
        match VolumeFormatter::format_fallback('D', fs, label, quick, RunEvent::Begin) {
            RunStep::Run(c) => {
                assert_eq!(c.program, "format.com");
                c.args
            }
            s => panic!("{:?}", s),
        }
    };
    assert_eq!(args(FsType::FAT32, "WINPE", true), ["D:", "/FS:FAT32", "/Q", "/Y", "/V:WINPE"]);
    assert_eq!(args(FsType::NTFS, "", false), ["D:", "/FS:NTFS", "/Y"]);
    assert_eq!(args(FsType::exFAT, "", true), ["D:", "/FS:exFAT", "/Q", "/Y"]);
    assert_eq!(
        args(FsType::UDF, "a label that is too long", false),
        ["D:", "/FS:UDF", "/Y", "/V:a label that is too long"]
    );
    assert_eq!(args(FsType::FAT, "", false), ["D:", "/FS:FAT", "/Y"]);
    assert_eq!(args(FsType::ReFS, "", false), ["D:", "/FS:ReFS", "/Y"]);
}

#[test]
fn formatting_command_is_judged_by_its_exit_status() {
    let step = |run| {
        match VolumeFormatter::format_fallback('D', FsType::NTFS, "", true, RunEvent::Ran(run)) {
            RunStep::Finished(r) => message(r),
            s => panic!("{:?}", s),
        }
    };
    let exited = |success| {
        RunOutcome::Exited(ToolOutput {
            success,
            code: Some(4),
            stdout: b"out".to_vec(),
            stderr: vec![0xE7, 0x9B, 0x98, 0xFF],
        })
    };
    assert_eq!(step(exited(true)), None);
    assert_eq!(step(exited(false)).as_deref(), Some("format.com 格式化失败: 盘\u{FFFD}"));
    assert_eq!(step(RunOutcome::NotFound).as_deref(), Some("执行 format.com 失败"));
    assert_eq!(message(VolumeFormatter::judge_fallback(true, "x")), None);
    assert_eq!(
        message(VolumeFormatter::judge_fallback(false, "x")).as_deref(),
        Some("format.com 格式化失败: x")
    );
}
