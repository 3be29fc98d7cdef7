//! What partitioning a disk and writing boot records ask for and come to, told line by line and
//! word by word.

use vstd::prelude::*;
use crate::bootsect::{
    bcd_next, boot_file_path, boot_manager_path, builtin_parts, clean_script, drive_colon,
    drive_name, efi_boot_dir, efi_next, exited, found, gpt_script, mbr_next, mbr_partition_script,
    mbr_script, pbr_next, succeeded, BcdEvent, BcdStep, EfiEvent, EfiStep, MbrEvent, MbrStep, Tool,
};
use crate::diskpart::{DiskpartEvent, DiskpartJobView, DiskpartStep, DiskpartTask};
use crate::host::{RunEvent, RunOutcome, RunStep, ToolCommandView, ToolOutput};
use crate::text::{decimal, lossy_utf8, lowercase};
use crate::text_laws::{found_between, occurring_is_standing_between};

verus! {

/// A script of the given commands, one on each line.
pub open spec fn lines(commands: Seq<Seq<char>>) -> Seq<char>
    decreases commands.len(),
{
    if commands.len() == 0 {
        Seq::empty()
    } else {
        commands[0] + "\n"@ + lines(commands.drop_first())
    }
}

/// One command more at the front is one line more.
proof fn one_line_more(command: Seq<char>, rest: Seq<Seq<char>>)
    ensures
        lines(seq![command] + rest) == command + "\n"@ + lines(rest),
{
    assert((seq![command] + rest).drop_first() =~= rest);
}

/// No commands are no lines.
proof fn no_lines()
    ensures
        lines(Seq::empty()) == Seq::<char>::empty(),
{
}

/// The script of two commands.
proof fn two_lines(a: Seq<char>, b: Seq<char>)
    ensures
        lines(seq![a, b]) == a + "\n"@ + (b + "\n"@),
{
    let none = Seq::<Seq<char>>::empty();
    one_line_more(b, none);
    one_line_more(a, seq![b] + none);
    assert(seq![a] + (seq![b] + none) =~= seq![a, b]);
    assert(b + "\n"@ + lines(none) =~= b + "\n"@);
}

/// The script of two commands before others.
proof fn two_lines_more(a: Seq<char>, b: Seq<char>, rest: Seq<Seq<char>>)
    ensures
        lines(seq![a, b] + rest) == a + "\n"@ + (b + "\n"@ + lines(rest)),
{
    one_line_more(b, rest);
    one_line_more(a, seq![b] + rest);
    assert(seq![a] + (seq![b] + rest) =~= seq![a, b] + rest);
}

/// The command that selects a disk.
pub open spec fn select(drive: u32) -> Seq<char> {
    "select disk "@ + decimal(drive as nat)
}

/// The script that removes a partition table selects the disk and cleans it.
pub proof fn clean_script_selects_and_cleans(drive: u32)
    ensures
        clean_script(drive) == lines(seq![select(drive), "clean"@]),
{
    reveal_strlit("\n");
    reveal_strlit("clean");
    reveal_strlit("\nclean\n");
    assert("\nclean\n"@ =~= "\n"@ + ("clean"@ + "\n"@));
    two_lines(select(drive), "clean"@);
    assert(select(drive) + ("\n"@ + ("clean"@ + "\n"@)) =~= select(drive) + "\n"@ + ("clean"@
        + "\n"@));
}

/// The script that makes a disk bootable selects it, cleans it, gives it an MBR table, and
/// creates one partition, selects it and marks it as active.
pub proof fn mbr_script_makes_one_active_partition(drive: u32)
    ensures
        mbr_script(drive) == lines(
            seq![
                select(drive),
                "clean"@,
                "convert mbr"@,
                "create partition primary"@,
                "select partition 1"@,
                "active"@,
            ],
        ),
{
    reveal_strlit("\n");
    reveal_strlit("clean");
    reveal_strlit("convert mbr");
    reveal_strlit("create partition primary");
    reveal_strlit("select partition 1");
    reveal_strlit("active");
    reveal_strlit("\nclean\nconvert mbr\ncreate partition primary\nselect partition 1\nactive\n");
    let n = "\n"@;
    let end = seq!["select partition 1"@, "active"@];
    let middle = seq!["convert mbr"@, "create partition primary"@] + end;
    two_lines("select partition 1"@, "active"@);
    two_lines_more("convert mbr"@, "create partition primary"@, end);
    two_lines_more(select(drive), "clean"@, middle);
    assert(seq![select(drive), "clean"@] + middle =~= seq![
        select(drive),
        "clean"@,
        "convert mbr"@,
        "create partition primary"@,
        "select partition 1"@,
        "active"@,
    ]);
    let rest = "clean"@ + n + lines(middle);
    assert("\nclean\nconvert mbr\ncreate partition primary\nselect partition 1\nactive\n"@ =~= n
        + rest);
    assert(select(drive) + (n + rest) =~= select(drive) + n + rest);
}

/// The script that creates one partition selects the disk, gives it an MBR table, creates the
/// partition, marks it as active where that was chosen, and selects it.
pub proof fn partition_script_marks_what_was_chosen(drive: u32, active: bool)
    ensures
        mbr_partition_script(drive, active) == lines(
            seq![select(drive), "convert mbr"@, "create partition primary"@] + (if active {
                seq!["active"@]
            } else {
                Seq::empty()
            }) + seq!["select partition 1"@],
        ),
{
    reveal_strlit("\n");
    reveal_strlit("convert mbr");
    reveal_strlit("create partition primary");
    reveal_strlit("select partition 1");
    reveal_strlit("active");
    reveal_strlit("\nconvert mbr\ncreate partition primary\n");
    reveal_strlit("active\n");
    reveal_strlit("select partition 1\n");
    let n = "\n"@;
    let none = Seq::<Seq<char>>::empty();
    let last = seq!["select partition 1"@];
    one_line_more("select partition 1"@, none);
    assert(seq!["select partition 1"@] + none =~= last);
    assert(lines(last) =~= "select partition 1\n"@);
    let mark = if active {
        "active\n"@
    } else {
        Seq::empty()
    };
    let marked = if active {
        seq!["active"@] + last
    } else {
        last
    };
    one_line_more("active"@, last);
    assert("active"@ + n =~= "active\n"@);
    assert(lines(marked) =~= mark + "select partition 1\n"@);
    one_line_more("create partition primary"@, marked);
    two_lines_more(select(drive), "convert mbr"@, seq!["create partition primary"@] + marked);
    assert(seq![select(drive), "convert mbr"@] + (seq!["create partition primary"@] + marked)
        =~= seq![select(drive), "convert mbr"@, "create partition primary"@] + (if active {
        seq!["active"@]
    } else {
        Seq::empty()
    }) + seq!["select partition 1"@]);
    let convert = "convert mbr"@ + n + ("create partition primary"@ + n);
    assert("\nconvert mbr\ncreate partition primary\n"@ =~= n + convert);
    assert(mbr_partition_script(drive, active) =~= select(drive) + n + ("convert mbr"@ + n + (
    "create partition primary"@ + n + lines(marked))));
}

/// The script that creates two partitions selects the disk, gives it a GPT table, creates an
/// EFI partition of the chosen size, formats it and gives it the letter S, creates a data
/// partition of the chosen size, or of all that is left where that is zero, formats it and
/// selects it.
pub proof fn gpt_script_makes_two_partitions(drive: u32, efi_size_mb: u32, data_size_mb: u32)
    ensures
        gpt_script(drive, efi_size_mb, data_size_mb) == lines(
            seq![
                select(drive),
                "convert gpt"@,
                "create partition efi size="@ + decimal(efi_size_mb as nat),
                "format quick fs=fat32 label=\"EFI\""@,
                "assign letter=\"S\""@,
                if data_size_mb == 0 {
                    "create partition primary"@
                } else {
                    "create partition primary size="@ + decimal(data_size_mb as nat)
                },
                "format quick fs=ntfs label=\"DATA\""@,
                "select partition 2"@,
            ],
        ),
{
    reveal_strlit("\n");
    reveal_strlit("convert gpt");
    reveal_strlit("create partition efi size=");
    reveal_strlit("format quick fs=fat32 label=\"EFI\"");
    reveal_strlit("assign letter=\"S\"");
    reveal_strlit("create partition primary");
    reveal_strlit("create partition primary size=");
    reveal_strlit(" size=");
    reveal_strlit("format quick fs=ntfs label=\"DATA\"");
    reveal_strlit("select partition 2");
    reveal_strlit("\nconvert gpt\ncreate partition efi size=");
    reveal_strlit(
        "\nformat quick fs=fat32 label=\"EFI\"\nassign letter=\"S\"\ncreate partition primary",
    );
    reveal_strlit("\nformat quick fs=ntfs label=\"DATA\"\nselect partition 2\n");
    let n = "\n"@;
    let convert = "convert gpt"@;
    let efi = "create partition efi size="@ + decimal(efi_size_mb as nat);
    let fat = "format quick fs=fat32 label=\"EFI\""@;
    let assign = "assign letter=\"S\""@;
    let size = if data_size_mb > 0 {
        " size="@ + decimal(data_size_mb as nat)
    } else {
        Seq::empty()
    };
    let data = if data_size_mb == 0 {
        "create partition primary"@
    } else {
        "create partition primary size="@ + decimal(data_size_mb as nat)
    };
    let ntfs = "format quick fs=ntfs label=\"DATA\""@;
    let last = "select partition 2"@;
    two_lines(ntfs, last);
    two_lines_more(assign, data, seq![ntfs, last]);
    two_lines_more(efi, fat, seq![assign, data] + seq![ntfs, last]);
    let tail = seq![efi, fat] + (seq![assign, data] + seq![ntfs, last]);
    two_lines_more(select(drive), convert, tail);
    assert(seq![select(drive), convert] + tail =~= seq![
        select(drive),
        convert,
        efi,
        fat,
        assign,
        data,
        ntfs,
        last,
    ]);
    assert("create partition primary size="@ =~= "create partition primary"@ + " size="@);
    assert(data =~= "create partition primary"@ + size);
    let first = "\nconvert gpt\ncreate partition efi size="@;
    assert(first =~= n + convert + n + "create partition efi size="@);
    let second =
        "\nformat quick fs=fat32 label=\"EFI\"\nassign letter=\"S\"\ncreate partition primary"@;
    assert(second =~= n + fat + n + assign + n + "create partition primary"@);
    let third = "\nformat quick fs=ntfs label=\"DATA\"\nselect partition 2\n"@;
    assert(third =~= n + ntfs + n + last + n);
    gpt_pieces(
        select(drive),
        n,
        convert,
        "create partition efi size="@,
        decimal(efi_size_mb as nat),
        fat,
        assign,
        "create partition primary"@,
        size,
        ntfs,
        last,
    );
}

/// The pieces of a script stand in the same order however they are put together.
proof fn gpt_pieces(
    select: Seq<char>,
    n: Seq<char>,
    convert: Seq<char>,
    efi: Seq<char>,
    efi_size: Seq<char>,
    fat: Seq<char>,
    assign: Seq<char>,
    data: Seq<char>,
    size: Seq<char>,
    ntfs: Seq<char>,
    last: Seq<char>,
)
    ensures
        select + (n + convert + n + efi) + efi_size + (n + fat + n + assign + n + data) + size + (n
            + ntfs + n + last + n) == select + n + (convert + n + (efi + efi_size + n + (fat + n + (
        assign + n + (data + size + n + (ntfs + n + (last + n))))))),
{
    let c = ntfs + n + (last + n);
    assert(n + ntfs + n + last + n =~= n + c);
    let b = assign + n + (data + size + n + c);
    assert((n + fat + n + assign + n + data) + size + (n + c) =~= n + (fat + n + b));
    let a = efi + efi_size + n + (fat + n + b);
    assert((n + convert + n + efi) + efi_size + (n + (fat + n + b)) =~= n + (convert + n + a));
    assert(select + (n + convert + n + efi) + efi_size + (n + fat + n + assign + n + data) + size
        + (n + c) =~= select + ((n + convert + n + efi) + efi_size + ((n + fat + n + assign + n
        + data) + size + (n + c))));
    assert(select + (n + (convert + n + a)) =~= select + n + (convert + n + a));
}

/// A disk is named by its number, and a volume by its letter and a colon.
pub proof fn disks_and_volumes_have_names(drive: u32, letter: char)
    ensures
        drive_name(drive) == "\\\\.\\PhysicalDrive"@ + decimal(drive as nat),
        drive_colon(letter) == seq![letter, ':'],
{
    reveal_strlit(":");
    assert(drive_colon(letter) =~= seq![letter, ':']);
}

/// A program has ended exactly if its output is at hand, and with success exactly if it
/// reported that.
pub proof fn ends_are_told(run: RunOutcome)
    ensures
        exited(run) <==> !(run is NotFound) && !(run is LaunchFailed) && !(run is WaitFailed),
        succeeded(run) <==> exited(run) && run->Exited_0.success,
{
}

/// A tool is the one that comes with the program where that exists, and else goes by its name.
/// Those that come with the program lie under their names, the partitioning tool in a directory
/// of its own.
pub proof fn tools_lie_where_they_are_looked_for(builtin: Seq<char>, name: Seq<char>)
    ensures
        found(builtin, true, name) == builtin,
        found(builtin, false, name) == name,
        builtin_parts(Tool::Bootsect) == seq!["bootsect.exe"@],
        builtin_parts(Tool::Bcdboot) == seq!["bcdboot.exe"@],
        builtin_parts(Tool::Diskpart) == seq!["diskpart"@, "diskpart.exe"@],
{
}

/// The master boot record is asked for with the given kind of record, on the given disk, by
/// force. Then success ends it; a missing tool and a reported failure lead to the job that
/// makes the same disk bootable, whose result is the result; anything else is an error.
pub proof fn master_boot_record_is_written_on_its_disk(
    bootsect: Seq<char>,
    drive: u32,
    mbr_type: Seq<char>,
    run: RunOutcome,
    job: Result<(), crate::error::BootError>,
)
    ensures
        mbr_next(bootsect, drive, mbr_type, MbrEvent::Begin) matches MbrStep::RunBootsect(c) && {
            &&& c.program == bootsect
            &&& c.args.len() == 4
            &&& c.args[0] == mbr_type
            &&& c.args[1] == "\\\\.\\PhysicalDrive"@ + decimal(drive as nat)
            &&& c.args[2] == "/force"@
            &&& c.args[3] == "/mbr"@
        },
        match mbr_next(bootsect, drive, mbr_type, MbrEvent::Bootsect(run)) {
            MbrStep::RunBootsect(_) => false,
            MbrStep::RunDiskpart(j) => {
                &&& run is NotFound || (run matches RunOutcome::Exited(output) && !output.success)
                &&& j.task == DiskpartTask::WriteMbr
                &&& j.script == mbr_script(drive)
            },
            MbrStep::Finished(Ok(_)) => run matches RunOutcome::Exited(output) && output.success,
            MbrStep::Finished(Err(e)) => {
                &&& run is LaunchFailed || run is WaitFailed
                &&& e == "执行 bootsect.exe 失败"@
            },
        },
        mbr_next(bootsect, drive, mbr_type, MbrEvent::Diskpart(job)) matches MbrStep::Finished(r)
            && match job {
            Ok(_) => r is Ok,
            Err(e) => r == Err::<(), Seq<char>>(e.message@),
        },
{
}

/// The boot record of a partition is asked for with the given kind of record, on the given
/// volume, by force, and counts as written exactly if the tool ran to its end.
pub proof fn partition_boot_record_is_written_on_its_volume(
    bootsect: Seq<char>,
    letter: char,
    pbr_type: Seq<char>,
    run: RunOutcome,
)
    ensures
        pbr_next(bootsect, letter, pbr_type, RunEvent::Begin) matches RunStep::Run(c) && {
            &&& c.program == bootsect
            &&& c.args == seq![pbr_type, seq![letter, ':'], "/force"@]
        },
        pbr_next(bootsect, letter, pbr_type, RunEvent::Ran(run)) matches RunStep::Finished(r) && {
            &&& r is Ok <==> run is Exited
            &&& r matches Err(e) ==> e == "执行 bootsect.exe 失败"@
        },
{
    disks_and_volumes_have_names(0, letter);
}

/// The boot configuration is set up from the Windows directory of the source, for the given
/// target and firmware, and only where that directory is there.
pub proof fn boot_configuration_is_set_up_as_asked(
    bcdboot: Seq<char>,
    source: Seq<char>,
    target: Seq<char>,
    firmware: Seq<char>,
    run: RunOutcome,
)
    ensures
        bcd_next(bcdboot, source, target, firmware, BcdEvent::Begin) == BcdStep::<
            Seq<char>,
            ToolCommandView,
            Seq<char>,
        >::CheckExists(source + "\\Windows"@),
        bcd_next(bcdboot, source, target, firmware, BcdEvent::WindowsFound(true)) matches
            BcdStep::Run(c) && {
            &&& c.program == bcdboot
            &&& c.args == seq![
                source + "\\Windows"@,
                "/s"@,
                target,
                "/f "@ + firmware,
                "/v"@,
            ]
        },
        bcd_next(bcdboot, source, target, firmware, BcdEvent::WindowsFound(false)) matches
            BcdStep::Finished(Err(e)) && e == "源分区 "@ + source
            + " 中未找到 Windows 目录，无法设置引导"@,
        bcd_next(bcdboot, source, target, firmware, BcdEvent::Ran(run)) matches BcdStep::Finished(
            r,
        ) && {
            &&& r is Ok <==> run is Exited
            &&& r matches Err(e) ==> e == "执行 bcdboot.exe 失败"@
        },
{
}

/// The boot file of the given Windows directory is looked for and copied to the given
/// partition, or the tool is told to make one there, and then it is looked for where it
/// belongs.
pub proof fn boot_file_goes_to_its_partition(
    bcdboot: Seq<char>,
    windows_dir: Seq<char>,
    efi_partition: Seq<char>,
    run: RunOutcome,
)
    ensures
        efi_boot_dir(efi_partition) == efi_partition + "\\EFI\\BOOT"@,
        boot_manager_path(windows_dir).base == windows_dir,
        boot_manager_path(windows_dir).parts == seq!["Boot"@, "EFI"@, "bootmgfw.efi"@],
        boot_file_path(efi_partition).base == efi_partition + "\\EFI\\BOOT"@,
        boot_file_path(efi_partition).parts == seq!["BOOTx64.EFI"@],
        efi_next(bcdboot, windows_dir, efi_partition, EfiEvent::Begin) matches EfiStep::CreateDir(d)
            && d == efi_partition + "\\EFI\\BOOT"@,
        efi_next(bcdboot, windows_dir, efi_partition, EfiEvent::DirCreated(true)) matches
            EfiStep::CheckExists(p) && p == boot_manager_path(windows_dir),
        efi_next(bcdboot, windows_dir, efi_partition, EfiEvent::DirCreated(false)) matches
            EfiStep::Finished(Err(e)) && e == "创建 EFI/BOOT 目录失败"@,
        efi_next(bcdboot, windows_dir, efi_partition, EfiEvent::SourceFound(true)) matches
            EfiStep::CopyFile { from, to } && from == boot_manager_path(windows_dir) && to
            == boot_file_path(efi_partition),
        efi_next(bcdboot, windows_dir, efi_partition, EfiEvent::SourceFound(false)) matches
            EfiStep::Run(c) && c.program == bcdboot && c.args == seq![
            windows_dir + "\\Windows"@,
            "/s"@,
            efi_partition,
            "/f"@,
            "UEFI"@,
        ],
        efi_next(bcdboot, windows_dir, efi_partition, EfiEvent::Copied(true)) matches
            EfiStep::Finished(Ok(_)),
        efi_next(bcdboot, windows_dir, efi_partition, EfiEvent::Copied(false)) matches
            EfiStep::Finished(Err(e)) && e == "复制 EFI 引导文件失败"@,
        efi_next(bcdboot, windows_dir, efi_partition, EfiEvent::Generated(run)) matches
            EfiStep::CheckMade(p) && p == boot_file_path(efi_partition),
        efi_next(bcdboot, windows_dir, efi_partition, EfiEvent::Made(true)) matches
            EfiStep::Finished(Ok(_)),
        efi_next(bcdboot, windows_dir, efi_partition, EfiEvent::Made(false)) matches
            EfiStep::Finished(Err(e)) && e == "生成 EFI 引导文件失败"@,
{
}

/// Where the partitioning tool cleans or partitions a disk, its run is a failure exactly if
/// `error` or `失败` stands anywhere in what it printed, in lower case, whatever it reports.
/// Where it makes a disk bootable, its run is a failure exactly if it does not report success.
/// The error tells all that it printed.
pub proof fn run_fails_exactly_if_failure_is_told(
    job: DiskpartJobView,
    success: bool,
    printed: Seq<char>,
    lowered: Seq<char>,
)
    ensures
        job.task != DiskpartTask::WriteMbr ==> (job.judged(success, printed, lowered) is Err <==> {
            ||| exists|a: Seq<char>, b: Seq<char>| lowered == #[trigger] (a + "error"@ + b)
            ||| exists|a: Seq<char>, b: Seq<char>| lowered == #[trigger] (a + "失败"@ + b)
        }),
        job.task == DiskpartTask::WriteMbr ==> (job.judged(success, printed, lowered) is Err
            <==> !success),
        job.judged(success, printed, lowered) matches Err(e) ==> e == (match job.task {
            DiskpartTask::WriteMbr => "diskpart MBR 创建失败: "@,
            DiskpartTask::Clean => "diskpart clean 失败: "@,
            DiskpartTask::CreateMbr => "diskpart 分区创建失败: "@,
            DiskpartTask::CreateGpt => "diskpart GPT 分区创建失败: "@,
        }) + printed,
{
    occurring_is_standing_between(lowered, "error"@);
    occurring_is_standing_between(lowered, "失败"@);
}

/// Where the partitioning tool cleans or partitions a disk, a failure is seen wherever it is
/// told.
pub proof fn failure_is_seen_wherever_it_is_told(
    job: DiskpartJobView,
    success: bool,
    printed: Seq<char>,
    a: Seq<char>,
    b: Seq<char>,
)
    requires
        job.task != DiskpartTask::WriteMbr,
    ensures
        job.judged(success, printed, a + "error"@ + b) is Err,
        job.judged(success, printed, a + "失败"@ + b) is Err,
{
    found_between(a, "error"@, b);
    found_between(a, "失败"@, b);
}

/// A run is judged by all that the tool printed to its standard output, as it is and in lower
/// case.
pub proof fn whole_output_is_judged(job: DiskpartJobView, output: ToolOutput)
    ensures
        ({
            let printed = lossy_utf8(output.stdout@);
            let r = job.judged_output(output);
            &&& r == job.judged(output.success, printed, lowercase(printed))
            &&& job.task != DiskpartTask::WriteMbr ==> (r is Err <==> {
                ||| exists|a: Seq<char>, b: Seq<char>|
                    lowercase(printed) == #[trigger] (a + "error"@ + b)
                ||| exists|a: Seq<char>, b: Seq<char>|
                    lowercase(printed) == #[trigger] (a + "失败"@ + b)
            })
            &&& job.task == DiskpartTask::WriteMbr ==> (r is Err <==> !output.success)
        }),
{
    let printed = lossy_utf8(output.stdout@);
    run_fails_exactly_if_failure_is_told(job, output.success, printed, lowercase(printed));
}

/// A job saves its script under its own name, runs the tool on the saved script, judges the run
/// and deletes the script; a script that cannot be saved and a tool that cannot be run end it
/// with the reason.
pub proof fn job_runs_its_script(
    job: DiskpartJobView,
    diskpart: Seq<char>,
    path: String,
    reason: String,
    run: RunOutcome,
)
    ensures
        job.next(diskpart, DiskpartEvent::Begin) matches DiskpartStep::WriteScript { name, script }
            && script == job.script && name == match job.task {
            DiskpartTask::WriteMbr => "lr_mbr_script.txt"@,
            DiskpartTask::Clean => "lr_clean_script.txt"@,
            DiskpartTask::CreateMbr => "lr_mbr_part_script.txt"@,
            DiskpartTask::CreateGpt => "lr_gpt_part_script.txt"@,
        },
        job.next(
            diskpart,
            DiskpartEvent::ScriptWritten { path, result: Ok(()) },
        ) matches DiskpartStep::Run(c) && c.program == diskpart && c.args == seq!["/s"@, path@],
        job.next(
            diskpart,
            DiskpartEvent::ScriptWritten { path, result: Err(reason) },
        ) matches DiskpartStep::Finished(Err(e)) && e == reason@,
        match run {
            RunOutcome::Exited(output) => job.next(
                diskpart,
                DiskpartEvent::Ran(run),
            ) matches DiskpartStep::RemoveScript { name, then } && then == job.judged_output(output)
                && name == job.next(diskpart, DiskpartEvent::Begin)->WriteScript_name,
            _ => job.next(diskpart, DiskpartEvent::Ran(run)) matches DiskpartStep::Finished(Err(e))
                && e == match job.task {
                DiskpartTask::WriteMbr => "执行 diskpart 失败"@,
                DiskpartTask::Clean => "执行 diskpart clean 失败"@,
                DiskpartTask::CreateMbr => "执行 diskpart 分区创建失败"@,
                DiskpartTask::CreateGpt => "执行 diskpart GPT 分区创建失败"@,
            },
        },
{
}

} // verus!
