//! What whole jobs for the partitioning tool come to, and the boot records and boot
//! files that are written.

use vstd::prelude::*;
use crate::bootsect::{
    bcd_next, boot_file_path, boot_manager_path, clean_script, efi_boot_dir, efi_next, exited,
    gpt_script, mbr_next, mbr_partition_script, mbr_script, succeeded, BcdEvent, BcdStep, EfiEvent,
    EfiStep, MbrEvent, MbrStep,
};
use crate::diskpart::{DiskpartEvent, DiskpartJobView, DiskpartStep, DiskpartTask};
use crate::error::BootError;
use crate::host::{HostPathView, RunOutcome, ToolCommandView};
use crate::text::{decimal, decimal_tells_numbers_apart, occurs_at};

verus! {

/// A step of a job, as the contracts speak of it.
pub type JobStep = DiskpartStep<Seq<char>, ToolCommandView, Seq<char>>;

/// What happens in a job.
pub struct JobReplies {
    /// Where the script is saved.
    pub path: String,
    /// Whether it could be saved.
    pub saved: Result<(), String>,
    /// How running the tool went.
    pub run: RunOutcome,
}

/// How much of a job is ahead.
pub open spec fn job_ahead(event: DiskpartEvent) -> int {
    match event {
        DiskpartEvent::Begin => 2,
        DiskpartEvent::ScriptWritten { .. } => 1,
        DiskpartEvent::Ran(_) => 0,
    }
}

/// The steps of a job from `event` on.
pub open spec fn job_from(
    job: DiskpartJobView,
    diskpart: Seq<char>,
    replies: JobReplies,
    event: DiskpartEvent,
) -> Seq<JobStep>
    decreases job_ahead(event),
{
    let step = job.next(diskpart, event);
    match step {
        DiskpartStep::WriteScript { .. } => seq![step] + job_from(
            job,
            diskpart,
            replies,
            DiskpartEvent::ScriptWritten { path: replies.path, result: replies.saved },
        ),
        DiskpartStep::Run(_) => seq![step] + job_from(
            job,
            diskpart,
            replies,
            DiskpartEvent::Ran(replies.run),
        ),
        _ => seq![step],
    }
}

/// The steps of a whole job.
pub open spec fn whole_job(job: DiskpartJobView, diskpart: Seq<char>, replies: JobReplies) -> Seq<
    JobStep,
> {
    job_from(job, diskpart, replies, DiskpartEvent::Begin)
}

/// How a job ends with its last step.
pub open spec fn job_result(step: JobStep) -> Result<(), Seq<char>> {
    match step {
        DiskpartStep::RemoveScript { then, .. } => then,
        DiskpartStep::Finished(r) => r,
        _ => Err(Seq::empty()),
    }
}

/// A job goes well exactly if its script could be saved, the tool ran to its end, and
/// the run is judged to be good.
pub proof fn job_goes_well_exactly_if(
    job: DiskpartJobView,
    diskpart: Seq<char>,
    replies: JobReplies,
)
    ensures
        job_result(whole_job(job, diskpart, replies).last()) is Ok <==> {
            &&& replies.saved is Ok
            &&& replies.run matches RunOutcome::Exited(output)
            &&& job.judged_output(output) is Ok
        },
{
    reveal_with_fuel(job_from, 3);
}

/// A job first saves its script. The tool runs only on a script that was saved, once,
/// and from where it was saved. When the tool has run to its end, however that
/// went, the file that was saved is deleted, and no other file ever is.
pub proof fn job_cleans_up(job: DiskpartJobView, diskpart: Seq<char>, replies: JobReplies)
    ensures
        ({
            let steps = whole_job(job, diskpart, replies);
            let name = job.task.script_name_text();
            &&& steps[0] == JobStep::WriteScript { name, script: job.script }
            &&& replies.saved is Err ==> steps.len() == 2 && steps[1] is Finished
            &&& replies.saved is Ok ==> steps.len() == 3 && steps[1] == JobStep::Run(
                ToolCommandView { program: diskpart, args: seq!["/s"@, replies.path@] },
            )
            &&& steps.last() is RemoveScript <==> replies.saved is Ok && replies.run is Exited
            &&& steps.last() matches DiskpartStep::RemoveScript { name: removed, .. } ==> removed
                == name
        }),
{
    reveal_with_fuel(job_from, 3);
}

/// How much of the writing of a master boot record is ahead.
pub open spec fn mbr_ahead(event: MbrEvent) -> int {
    match event {
        MbrEvent::Begin => 2,
        MbrEvent::Bootsect(_) => 1,
        MbrEvent::Diskpart(_) => 0,
    }
}

/// What writing a master boot record comes to from `event` on, where running the
/// boot sector tool goes as `run` says, and the job for the partitioning tool, if
/// there is one, ends with what `job` says.
pub open spec fn mbr_from(
    bootsect: Seq<char>,
    drive: u32,
    mbr_type: Seq<char>,
    run: RunOutcome,
    job: spec_fn(DiskpartJobView) -> Result<(), BootError>,
    event: MbrEvent,
) -> Result<(), Seq<char>>
    decreases mbr_ahead(event),
{
    match mbr_next(bootsect, drive, mbr_type, event) {
        MbrStep::RunBootsect(_) => mbr_from(
            bootsect,
            drive,
            mbr_type,
            run,
            job,
            MbrEvent::Bootsect(run),
        ),
        MbrStep::RunDiskpart(j) => mbr_from(
            bootsect,
            drive,
            mbr_type,
            run,
            job,
            MbrEvent::Diskpart(job(j)),
        ),
        MbrStep::Finished(r) => r,
    }
}

/// A master boot record is written exactly if the boot sector tool succeeds, or if it
/// is missing or reports failure and the partitioning tool does the job instead.
pub proof fn mbr_written_exactly_if(
    bootsect: Seq<char>,
    drive: u32,
    mbr_type: Seq<char>,
    run: RunOutcome,
    job: spec_fn(DiskpartJobView) -> Result<(), BootError>,
)
    ensures
        mbr_from(bootsect, drive, mbr_type, run, job, MbrEvent::Begin) is Ok <==> {
            ||| succeeded(run)
            ||| (run is NotFound || run is Exited) && job(
                DiskpartJobView { task: DiskpartTask::WriteMbr, script: mbr_script(drive) },
            ) is Ok
        },
{
    reveal_with_fuel(mbr_from, 3);
}

/// What happens while the boot configuration is set up.
pub struct BcdReplies {
    /// Whether the Windows directory is there.
    pub windows: bool,
    /// How running the tool went.
    pub run: RunOutcome,
}

/// How much of setting up the boot configuration is ahead.
pub open spec fn bcd_ahead(event: BcdEvent) -> int {
    match event {
        BcdEvent::Begin => 2,
        BcdEvent::WindowsFound(_) => 1,
        BcdEvent::Ran(_) => 0,
    }
}

/// What setting up the boot configuration comes to from `event` on.
pub open spec fn bcd_from(
    bcdboot: Seq<char>,
    source: Seq<char>,
    target: Seq<char>,
    firmware: Seq<char>,
    replies: BcdReplies,
    event: BcdEvent,
) -> Result<(), Seq<char>>
    decreases bcd_ahead(event),
{
    match bcd_next(bcdboot, source, target, firmware, event) {
        BcdStep::CheckExists(_) => bcd_from(
            bcdboot,
            source,
            target,
            firmware,
            replies,
            BcdEvent::WindowsFound(replies.windows),
        ),
        BcdStep::Run(_) => bcd_from(
            bcdboot,
            source,
            target,
            firmware,
            replies,
            BcdEvent::Ran(replies.run),
        ),
        BcdStep::Finished(r) => r,
    }
}

/// Setting up the boot configuration goes well exactly if the Windows directory is there
/// and the tool runs to its end, whatever it reports.
pub proof fn boot_configuration_goes_well_exactly_if(
    bcdboot: Seq<char>,
    source: Seq<char>,
    target: Seq<char>,
    firmware: Seq<char>,
    replies: BcdReplies,
)
    ensures
        bcd_from(bcdboot, source, target, firmware, replies, BcdEvent::Begin) is Ok
            <==> replies.windows && exited(replies.run),
{
    reveal_with_fuel(bcd_from, 3);
}

/// A step of copying the EFI boot files, as the contracts speak of it.
pub type BootFileStep = EfiStep<Seq<char>, HostPathView, ToolCommandView, Seq<char>>;

/// What happens while the EFI boot files are copied.
pub struct EfiReplies {
    /// Whether the target directory could be created.
    pub created: bool,
    /// Whether the boot file to copy is there.
    pub source: bool,
    /// Whether it could be copied.
    pub copied: bool,
    /// How running the tool went that makes one.
    pub run: RunOutcome,
    /// Whether the boot file is there after that.
    pub made: bool,
}

/// How much of copying the EFI boot files is ahead.
pub open spec fn efi_ahead(event: EfiEvent) -> int {
    match event {
        EfiEvent::Begin => 4,
        EfiEvent::DirCreated(_) => 3,
        EfiEvent::SourceFound(_) => 2,
        EfiEvent::Generated(_) => 1,
        EfiEvent::Copied(_) => 0,
        EfiEvent::Made(_) => 0,
    }
}

/// The steps of copying the EFI boot files from `event` on.
pub open spec fn efi_from(
    bcdboot: Seq<char>,
    windows_dir: Seq<char>,
    efi_partition: Seq<char>,
    replies: EfiReplies,
    event: EfiEvent,
) -> Seq<BootFileStep>
    decreases efi_ahead(event),
{
    let step = efi_next(bcdboot, windows_dir, efi_partition, event);
    match step {
        EfiStep::CreateDir(_) => seq![step] + efi_from(
            bcdboot,
            windows_dir,
            efi_partition,
            replies,
            EfiEvent::DirCreated(replies.created),
        ),
        EfiStep::CheckExists(_) => seq![step] + efi_from(
            bcdboot,
            windows_dir,
            efi_partition,
            replies,
            EfiEvent::SourceFound(replies.source),
        ),
        EfiStep::CopyFile { .. } => seq![step] + efi_from(
            bcdboot,
            windows_dir,
            efi_partition,
            replies,
            EfiEvent::Copied(replies.copied),
        ),
        EfiStep::Run(_) => seq![step] + efi_from(
            bcdboot,
            windows_dir,
            efi_partition,
            replies,
            EfiEvent::Generated(replies.run),
        ),
        EfiStep::CheckMade(_) => seq![step] + efi_from(
            bcdboot,
            windows_dir,
            efi_partition,
            replies,
            EfiEvent::Made(replies.made),
        ),
        EfiStep::Finished(_) => seq![step],
    }
}

/// Copying the EFI boot files goes well exactly if the target directory can be created
/// and the boot file gets there: by a copy, where there is one to copy, and by the tool,
/// where there is none. Whether the tool made it is asked of the very place where a
/// copy would go.
pub proof fn boot_file_is_copied_or_made(
    bcdboot: Seq<char>,
    windows_dir: Seq<char>,
    efi_partition: Seq<char>,
    replies: EfiReplies,
)
    ensures
        ({
            let steps = efi_from(bcdboot, windows_dir, efi_partition, replies, EfiEvent::Begin);
            &&& steps[0] == BootFileStep::CreateDir(efi_boot_dir(efi_partition))
            &&& steps.last() == BootFileStep::Finished(Ok(())) <==> replies.created && (
            if replies.source {
                replies.copied
            } else {
                replies.made
            })
            &&& replies.created && replies.source ==> steps.len() == 4 && steps[2]
                == BootFileStep::CopyFile {
                from: boot_manager_path(windows_dir),
                to: boot_file_path(efi_partition),
            }
            &&& replies.created && !replies.source ==> steps.len() == 5 && steps[2] is Run
                && steps[3] == BootFileStep::CheckMade(boot_file_path(efi_partition))
        }),
{
    reveal_with_fuel(efi_from, 5);
}

/// The line that selects a disk.
pub open spec fn select_line(drive: u32) -> Seq<char> {
    "select disk "@ + decimal(drive as nat) + "\n"@
}

/// Whether a script begins by selecting a disk, and selects none after it.
pub open spec fn works_on(script: Seq<char>, drive: u32) -> bool {
    &&& select_line(drive).is_prefix_of(script)
    &&& forall|at: int| #[trigger] occurs_at(script, "select disk "@, at) ==> at == 0
}

/// Whether `c` does not occur in `s`.
spec fn lacks(s: Seq<char>, c: char) -> bool {
    forall|i: int| 0 <= i < s.len() ==> s[i] != c
}

/// The digits of a number are digits.
proof fn decimal_is_digits(n: nat)
    ensures
        decimal(n).len() > 0,
        forall|i: int| 0 <= i < decimal(n).len() ==> '0' <= #[trigger] decimal(n)[i] <= '9',
    decreases n,
{
    if n >= 10 {
        decimal_is_digits(n / 10);
    }
}

/// A script works on its disk if nothing behind the disk's number has a `d` in it.
proof fn works_on_its_disk(script: Seq<char>, drive: u32, rest: Seq<char>)
    requires
        script == "select disk "@ + decimal(drive as nat) + rest,
        rest.len() > 0,
        rest[0] == '\n',
        lacks(rest, 'd'),
    ensures
        works_on(script, drive),
{
    reveal_strlit("select disk ");
    reveal_strlit("\n");
    decimal_is_digits(drive as nat);
    let head = "select disk "@;
    let number = decimal(drive as nat);
    assert(select_line(drive) =~= script.subrange(0, select_line(drive).len() as int));
    assert forall|at: int| #[trigger] occurs_at(script, head, at) implies at == 0 by {
        assert(script.subrange(at, at + head.len())[7] == script[at + 7]);
        assert(head[7] == 'd');
        if at + 7 >= head.len() + number.len() {
            assert(script[at + 7] == rest[at + 7 - head.len() - number.len()]);
        } else if at + 7 >= head.len() {
            assert(script[at + 7] == number[at + 7 - head.len()]);
        } else {
            assert(script[at + 7] == head[at + 7]);
        }
    }
}

/// The script that makes a disk bootable works on it.
proof fn mbr_script_works_on_its_disk(drive: u32)
    ensures
        works_on(mbr_script(drive), drive),
{
    let rest = "\nclean\nconvert mbr\ncreate partition primary\nselect partition 1\nactive\n"@;
    reveal_strlit("\nclean\nconvert mbr\ncreate partition primary\nselect partition 1\nactive\n");
    assert(lacks(rest, 'd'));
    works_on_its_disk(mbr_script(drive), drive, rest);
}

/// The script that removes the partition table of a disk works on it.
proof fn clean_script_works_on_its_disk(drive: u32)
    ensures
        works_on(clean_script(drive), drive),
{
    reveal_strlit("\nclean\n");
    assert(lacks("\nclean\n"@, 'd'));
    works_on_its_disk(clean_script(drive), drive, "\nclean\n"@);
}

/// The script that creates one partition on a disk works on it.
proof fn mbr_partition_script_works_on_its_disk(drive: u32, active: bool)
    ensures
        works_on(mbr_partition_script(drive, active), drive),
{
    reveal_strlit("\nconvert mbr\ncreate partition primary\n");
    reveal_strlit("active\n");
    reveal_strlit("select partition 1\n");
    let convert = "\nconvert mbr\ncreate partition primary\n"@;
    let mark = if active {
        "active\n"@
    } else {
        Seq::empty()
    };
    let select = "select partition 1\n"@;
    assert(lacks(convert, 'd'));
    assert(lacks(mark, 'd'));
    assert(lacks(select, 'd'));
    let rest = convert + mark + select;
    assert(mbr_partition_script(drive, active) =~= "select disk "@ + decimal(drive as nat) + rest);
    works_on_its_disk(mbr_partition_script(drive, active), drive, rest);
}

/// The script that creates two partitions on a disk works on it.
proof fn gpt_script_works_on_its_disk(drive: u32, efi_size_mb: u32, data_size_mb: u32)
    ensures
        works_on(gpt_script(drive, efi_size_mb, data_size_mb), drive),
{
    reveal_strlit("\nconvert gpt\ncreate partition efi size=");
    reveal_strlit(
        "\nformat quick fs=fat32 label=\"EFI\"\nassign letter=\"S\"\ncreate partition primary",
    );
    reveal_strlit(" size=");
    reveal_strlit("\nformat quick fs=ntfs label=\"DATA\"\nselect partition 2\n");
    decimal_is_digits(efi_size_mb as nat);
    decimal_is_digits(data_size_mb as nat);
    let convert = "\nconvert gpt\ncreate partition efi size="@;
    let efi =
        "\nformat quick fs=fat32 label=\"EFI\"\nassign letter=\"S\"\ncreate partition primary"@;
    let size = if data_size_mb > 0 {
        " size="@ + decimal(data_size_mb as nat)
    } else {
        Seq::empty()
    };
    let data = "\nformat quick fs=ntfs label=\"DATA\"\nselect partition 2\n"@;
    assert(lacks(convert, 'd'));
    assert(lacks(decimal(efi_size_mb as nat), 'd'));
    assert(lacks(efi, 'd'));
    assert(lacks(" size="@, 'd'));
    assert(lacks(size, 'd'));
    assert(lacks(data, 'd'));
    let rest = convert + decimal(efi_size_mb as nat) + efi + size + data;
    assert(lacks(convert + decimal(efi_size_mb as nat), 'd'));
    assert(lacks(convert + decimal(efi_size_mb as nat) + efi, 'd'));
    assert(lacks(convert + decimal(efi_size_mb as nat) + efi + size, 'd'));
    assert(gpt_script(drive, efi_size_mb, data_size_mb) =~= "select disk "@ + decimal(
        drive as nat,
    ) + rest);
    works_on_its_disk(gpt_script(drive, efi_size_mb, data_size_mb), drive, rest);
}

/// Every script begins by selecting the disk that it was made for, and selects no
/// other.
pub proof fn scripts_work_on_their_disk(
    drive: u32,
    active: bool,
    efi_size_mb: u32,
    data_size_mb: u32,
)
    ensures
        works_on(mbr_script(drive), drive),
        works_on(clean_script(drive), drive),
        works_on(mbr_partition_script(drive, active), drive),
        works_on(gpt_script(drive, efi_size_mb, data_size_mb), drive),
{
    mbr_script_works_on_its_disk(drive);
    clean_script_works_on_its_disk(drive);
    mbr_partition_script_works_on_its_disk(drive, active);
    gpt_script_works_on_its_disk(drive, efi_size_mb, data_size_mb);
}

/// A script works on one disk only.
pub proof fn script_works_on_one_disk(script: Seq<char>, a: u32, b: u32)
    requires
        works_on(script, a),
        works_on(script, b),
    ensures
        a == b,
{
    reveal_strlit("select disk ");
    reveal_strlit("\n");
    decimal_is_digits(a as nat);
    decimal_is_digits(b as nat);
    let x = decimal(a as nat);
    let y = decimal(b as nat);
    let head: int = "select disk "@.len() as int;
    assert(select_line(a) == script.subrange(0, select_line(a).len() as int));
    assert(select_line(b) == script.subrange(0, select_line(b).len() as int));
    assert forall|i: int| 0 <= i < x.len() implies script[head + i] == #[trigger] x[i] by {
        assert(select_line(a)[head + i] == x[i]);
    }
    assert forall|i: int| 0 <= i < y.len() implies script[head + i] == #[trigger] y[i] by {
        assert(select_line(b)[head + i] == y[i]);
    }
    assert(select_line(a)[head + x.len()] == '\n');
    assert(select_line(b)[head + y.len()] == '\n');
    if x.len() < y.len() {
        assert(script[head + x.len()] == y[x.len() as int]);
    }
    if y.len() < x.len() {
        assert(script[head + y.len()] == x[y.len() as int]);
    }
    assert(x =~= y);
    decimal_tells_numbers_apart(a as nat, b as nat);
}

} // verus!
