//! What formatting a volume asks for and comes to, told by what was chosen.

use vstd::prelude::*;
use crate::fat32::{
    fallback_judged, fallback_next, format_next, load_failure, FormatEvent, FormatStep, FsType,
    LibraryLoad,
};
use crate::host::{RunEvent, RunOutcome, RunStep};
use crate::text::{decimal, lossy_utf8};
use crate::text_laws::{shortened_is_the_beginning, texts_end_in_zero};
use crate::utf16::decoded;

verus! {

/// What a text for the system says, which ends in a zero.
pub open spec fn said(u: Seq<u16>) -> Seq<char> {
    decoded(u.drop_last())
}

/// Each file system goes by its own name.
pub proof fn file_systems_go_by_their_names(fs_type: FsType)
    ensures
        fs_type.name() == match fs_type {
            FsType::FAT => "FAT"@,
            FsType::FAT32 => "FAT32"@,
            FsType::NTFS => "NTFS"@,
            FsType::exFAT => "exFAT"@,
            FsType::UDF => "UDF"@,
            FsType::ReFS => "ReFS"@,
        },
{
}

/// The call that formats a volume names its root directory, the chosen file system by its own
/// name, and the beginning of the chosen label that fits, all with a zero at the end. It passes
/// on how to format, and the size of the clusters.
pub proof fn format_call_says_what_was_chosen(
    letter: char,
    fs_type: FsType,
    label: Seq<char>,
    quick_format: bool,
    cluster_size: u32,
)
    ensures
        format_next(letter, fs_type, label, quick_format, cluster_size, FormatEvent::Begin) matches
            FormatStep::Call(q) && {
            let limit: nat = match fs_type {
                FsType::FAT | FsType::FAT32 | FsType::exFAT => 11,
                FsType::NTFS | FsType::UDF | FsType::ReFS => 32,
            };
            &&& q.drive_root.last() == 0
            &&& said(q.drive_root) == seq![letter, ':', '\\']
            &&& q.media_flag == 1
            &&& q.format.last() == 0
            &&& said(q.format) == match fs_type {
                FsType::FAT => "FAT"@,
                FsType::FAT32 => "FAT32"@,
                FsType::NTFS => "NTFS"@,
                FsType::exFAT => "exFAT"@,
                FsType::UDF => "UDF"@,
                FsType::ReFS => "ReFS"@,
            }
            &&& q.label.last() == 0
            &&& said(q.label).is_prefix_of(label)
            &&& said(q.label).len() == if label.len() <= limit {
                label.len()
            } else {
                limit
            }
            &&& q.quick_format == if quick_format {
                1i32
            } else {
                0i32
            }
            &&& q.cluster_size == cluster_size
        },
{
    reveal_strlit(":\\");
    assert(seq![letter] + ":\\"@ =~= seq![letter, ':', '\\']);
    texts_end_in_zero(seq![letter] + ":\\"@);
    texts_end_in_zero(fs_type.name());
    shortened_is_the_beginning(label, fs_type.label_limit());
    texts_end_in_zero(crate::text::shortened(label, fs_type.label_limit()));
}

/// Calls for different file systems name different file systems, and calls for different
/// volumes name different volumes.
pub proof fn different_choices_make_different_calls(
    a: (char, FsType),
    b: (char, FsType),
    label: Seq<char>,
    quick_format: bool,
    cluster_size: u32,
)
    ensures
        ({
            let x = format_next(a.0, a.1, label, quick_format, cluster_size, FormatEvent::Begin);
            let y = format_next(b.0, b.1, label, quick_format, cluster_size, FormatEvent::Begin);
            &&& a.1 != b.1 ==> x->Call_0.format != y->Call_0.format
            &&& a.0 != b.0 ==> x->Call_0.drive_root != y->Call_0.drive_root
        }),
{
    format_call_says_what_was_chosen(a.0, a.1, label, quick_format, cluster_size);
    format_call_says_what_was_chosen(b.0, b.1, label, quick_format, cluster_size);
    reveal_strlit("FAT");
    reveal_strlit("FAT32");
    reveal_strlit("NTFS");
    reveal_strlit("exFAT");
    reveal_strlit("UDF");
    reveal_strlit("ReFS");
    assert(seq![a.0, ':', '\\'][0] == a.0);
    assert(seq![b.0, ':', '\\'][0] == b.0);
    if a.1 != b.1 {
        let s = a.1.name();
        let t = b.1.name();
        if s.len() == t.len() {
            assert(s[0] != t[0] || s[1] != t[1]);
        }
        assert(s != t);
    }
}

/// A volume is formatted exactly if the library returns zero. The error tells the volume and
/// the number that it returned.
pub proof fn formatted_exactly_if_zero_is_returned(
    letter: char,
    fs_type: FsType,
    label: Seq<char>,
    quick_format: bool,
    cluster_size: u32,
    code: u32,
)
    ensures
        format_next(
            letter,
            fs_type,
            label,
            quick_format,
            cluster_size,
            FormatEvent::Returned(code),
        ) matches FormatStep::Finished(r) && {
            &&& r is Ok <==> code == 0
            &&& r matches Err(e) ==> e == "格式化 "@ + seq![letter] + ": 失败，错误代码: "@
                + decimal(code as nat)
        },
{
}

/// Clusters on FAT32 have 512 bytes up to 256 megabytes, 4 kilobytes up to 8 gigabytes, 8 up to
/// 16, 16 up to 32, and 32 above. Those on exFAT have 4 kilobytes up to 256 megabytes, 32 up to
/// 32 gigabytes, 128 up to 256, and a megabyte above. All others have 4 kilobytes.
pub proof fn clusters_have_their_sizes(fs_type: FsType, mb: nat)
    ensures
        fs_type == FsType::FAT32 ==> {
            &&& mb <= 256 ==> fs_type.cluster_size(mb) == 512
            &&& 256 < mb <= 8 * 1024 ==> fs_type.cluster_size(mb) == 4 * 1024
            &&& 8 * 1024 < mb <= 16 * 1024 ==> fs_type.cluster_size(mb) == 8 * 1024
            &&& 16 * 1024 < mb <= 32 * 1024 ==> fs_type.cluster_size(mb) == 16 * 1024
            &&& 32 * 1024 < mb ==> fs_type.cluster_size(mb) == 32 * 1024
        },
        fs_type == FsType::exFAT ==> {
            &&& mb <= 256 ==> fs_type.cluster_size(mb) == 4 * 1024
            &&& 256 < mb <= 32 * 1024 ==> fs_type.cluster_size(mb) == 32 * 1024
            &&& 32 * 1024 < mb <= 256 * 1024 ==> fs_type.cluster_size(mb) == 128 * 1024
            &&& 256 * 1024 < mb ==> fs_type.cluster_size(mb) == 1024 * 1024
        },
        fs_type != FsType::FAT32 && fs_type != FsType::exFAT ==> fs_type.cluster_size(mb) == 4
            * 1024,
        fs_type.label_limit() == 11 || fs_type.label_limit() == 32,
        fs_type.label_limit() == 11 <==> fs_type == FsType::FAT || fs_type == FsType::FAT32
            || fs_type == FsType::exFAT,
{
}

/// There is a formatter exactly if the library and its function were loaded, and the error
/// tells what was missing.
pub proof fn formatter_exactly_if_loaded(load: LibraryLoad)
    ensures
        load_failure(load) is None <==> load == LibraryLoad::Loaded,
        load == LibraryLoad::LibraryMissing ==> load_failure(load) == Some(
            "无法加载 fmifs.dll，请确保系统文件完整"@,
        ),
        load == LibraryLoad::FunctionMissing ==> load_failure(load) == Some(
            "fmifs.dll 中未找到 FormatEx 函数"@,
        ),
        load == LibraryLoad::Unsupported ==> load_failure(load) == Some(
            "格式化仅支持 Windows 系统"@,
        ),
{
}

/// The formatting command is told the volume, the file system by its own name, to be quick
/// where that was chosen, not to ask, and the whole label where there is one, in this order and
/// nothing else.
pub proof fn formatting_command_says_what_was_chosen(
    letter: char,
    fs_type: FsType,
    label: Seq<char>,
    quick_format: bool,
)
    ensures
        fallback_next(letter, fs_type, label, quick_format, RunEvent::Begin) matches RunStep::Run(
            c,
        ) && {
            let q: int = if quick_format {
                1
            } else {
                0
            };
            &&& c.program == "format.com"@
            &&& c.args.len() == 3 + q + if label.len() > 0 {
                1int
            } else {
                0int
            }
            &&& c.args[0] == seq![letter, ':']
            &&& c.args[1] == "/FS:"@ + match fs_type {
                FsType::FAT => "FAT"@,
                FsType::FAT32 => "FAT32"@,
                FsType::NTFS => "NTFS"@,
                FsType::exFAT => "exFAT"@,
                FsType::UDF => "UDF"@,
                FsType::ReFS => "ReFS"@,
            }
            &&& quick_format ==> c.args[2] == "/Q"@
            &&& c.args[2 + q] == "/Y"@
            &&& label.len() > 0 ==> c.args[3 + q] == "/V:"@ + label
        },
{
    reveal_strlit(":");
    assert(seq![letter] + ":"@ =~= seq![letter, ':']);
}

/// The formatting command has formatted the volume exactly if it ran to its end and reported
/// success. The error tells what it complained of.
pub proof fn formatted_exactly_if_the_command_says_so(
    letter: char,
    fs_type: FsType,
    label: Seq<char>,
    quick_format: bool,
    run: RunOutcome,
)
    ensures
        fallback_next(letter, fs_type, label, quick_format, RunEvent::Ran(run)) matches
            RunStep::Finished(r) && {
            &&& r is Ok <==> (run matches RunOutcome::Exited(output) && output.success)
            &&& r matches Err(e) ==> match run {
                RunOutcome::Exited(output) => e == "format.com 格式化失败: "@ + lossy_utf8(
                    output.stderr@,
                ),
                _ => e == "执行 format.com 失败"@,
            }
        },
{
}

/// What the command complained of is told whole, whatever it is.
pub proof fn complaint_is_told(success: bool, complaint: Seq<char>)
    ensures
        fallback_judged(success, complaint) is Ok <==> success,
        !success ==> fallback_judged(success, complaint)->Err_0 == "format.com 格式化失败: "@
            + complaint,
{
}

} // verus!
