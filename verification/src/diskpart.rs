//! Jobs for the partitioning tool: a script, and how its run is judged.

use vstd::prelude::*;
use vstd::utf8::{decode_utf8, valid_utf8};
use crate::error::{outcome, BootError};
use crate::host::{command, texts, RunOutcome, ToolCommand, ToolCommandView, ToolOutput};
use crate::text::{contains, lossy_text, lossy_utf8, lowercase, occurs};

verus! {

/// What a job is for.
#[derive(Debug, Clone, Copy, PartialEq, Eq, Structural)]
pub enum DiskpartTask {
    /// Make the disk bootable when the boot sector tool could not.
    WriteMbr,
    /// Remove the partition table.
    Clean,
    /// Create one partition in an MBR table.
    CreateMbr,
    /// Create an EFI and a data partition in a GPT table.
    CreateGpt,
}

impl DiskpartTask {
    /// The name of the script's file.
    pub open spec fn script_name_text(self) -> Seq<char> {
        match self {
            DiskpartTask::WriteMbr => "lr_mbr_script.txt"@,
            DiskpartTask::Clean => "lr_clean_script.txt"@,
            DiskpartTask::CreateMbr => "lr_mbr_part_script.txt"@,
            DiskpartTask::CreateGpt => "lr_gpt_part_script.txt"@,
        }
    }

    /// The message when the tool could not be run.
    pub open spec fn launch_error_text(self) -> Seq<char> {
        match self {
            DiskpartTask::WriteMbr => "执行 diskpart 失败"@,
            DiskpartTask::Clean => "执行 diskpart clean 失败"@,
            DiskpartTask::CreateMbr => "执行 diskpart 分区创建失败"@,
            DiskpartTask::CreateGpt => "执行 diskpart GPT 分区创建失败"@,
        }
    }

    /// What stands before the tool's output in the message of a failed run.
    pub open spec fn failure_text(self) -> Seq<char> {
        match self {
            DiskpartTask::WriteMbr => "diskpart MBR 创建失败: "@,
            DiskpartTask::Clean => "diskpart clean 失败: "@,
            DiskpartTask::CreateMbr => "diskpart 分区创建失败: "@,
            DiskpartTask::CreateGpt => "diskpart GPT 分区创建失败: "@,
        }
    }

    /// The name of the script's file.
    pub fn script_name(&self) -> (r: String)
        ensures
            r@ == self.script_name_text(),
    {
        match self {
            DiskpartTask::WriteMbr => "lr_mbr_script.txt".to_string(),
            DiskpartTask::Clean => "lr_clean_script.txt".to_string(),
            DiskpartTask::CreateMbr => "lr_mbr_part_script.txt".to_string(),
            DiskpartTask::CreateGpt => "lr_gpt_part_script.txt".to_string(),
        }
    }

    /// The error when the tool could not be run.
    fn launch_error(&self) -> (r: BootError)
        ensures
            r@ == self.launch_error_text(),
    {
        match self {
            DiskpartTask::WriteMbr => BootError::new("执行 diskpart 失败"),
            DiskpartTask::Clean => BootError::new("执行 diskpart clean 失败"),
            DiskpartTask::CreateMbr => BootError::new("执行 diskpart 分区创建失败"),
            DiskpartTask::CreateGpt => BootError::new("执行 diskpart GPT 分区创建失败"),
        }
    }

    /// The error of a run that printed `output`.
    fn failure(&self, output: &str) -> (r: BootError)
        ensures
            r@ == self.failure_text() + output@,
    {
        let start = match self {
            DiskpartTask::WriteMbr => "diskpart MBR 创建失败: ".to_string(),
            DiskpartTask::Clean => "diskpart clean 失败: ".to_string(),
            DiskpartTask::CreateMbr => "diskpart 分区创建失败: ".to_string(),
            DiskpartTask::CreateGpt => "diskpart GPT 分区创建失败: ".to_string(),
        };
        BootError::from_message(start.concat(output))
    }
}

/// A script for the partitioning tool.
#[derive(Debug)]
pub struct DiskpartJob {
    /// What the job is for.
    pub task: DiskpartTask,
    /// The script.
    pub script: String,
}

/// A job, with the text of its script.
pub struct DiskpartJobView {
    /// What the job is for.
    pub task: DiskpartTask,
    /// The script.
    pub script: Seq<char>,
}

impl View for DiskpartJob {
    type V = DiskpartJobView;

    open spec fn view(&self) -> DiskpartJobView {
        DiskpartJobView { task: self.task, script: self.script@ }
    }
}

/// What happened in a job.
#[derive(Debug)]
pub enum DiskpartEvent {
    /// The job begins.
    Begin,
    /// The script was saved at `path`, or could not be, for the reason given.
    ScriptWritten {
        /// Where the script is.
        path: String,
        /// Whether it was saved.
        result: Result<(), String>,
    },
    /// The tool was run.
    Ran(RunOutcome),
}

/// What a job does next.
#[derive(Debug)]
pub enum DiskpartStep<S, C, E> {
    /// Save a script among the temporary files.
    WriteScript {
        /// The name of the file.
        name: S,
        /// What it holds.
        script: S,
    },
    /// Run the tool.
    Run(C),
    /// Delete the script's file, whether or not that works; then the job is over.
    RemoveScript {
        /// The name of the file.
        name: S,
        /// How the job went.
        then: Result<(), E>,
    },
    /// The job is over.
    Finished(Result<(), E>),
}

impl View for DiskpartStep<String, ToolCommand, BootError> {
    type V = DiskpartStep<Seq<char>, ToolCommandView, Seq<char>>;

    open spec fn view(&self) -> DiskpartStep<Seq<char>, ToolCommandView, Seq<char>> {
        match *self {
            DiskpartStep::WriteScript { name, script } => DiskpartStep::WriteScript {
                name: name@,
                script: script@,
            },
            DiskpartStep::Run(c) => DiskpartStep::Run(c@),
            DiskpartStep::RemoveScript { name, then } => DiskpartStep::RemoveScript {
                name: name@,
                then: outcome(then),
            },
            DiskpartStep::Finished(r) => DiskpartStep::Finished(outcome(r)),
        }
    }
}

/// Whether the tool's output, in lower case, speaks of a failure.
pub open spec fn reports_failure(lowered: Seq<char>) -> bool {
    occurs(lowered, "error"@) || occurs(lowered, "失败"@)
}

impl DiskpartJobView {
    /// How a run of the tool is judged: by its exit status where the table is
    /// written anew for booting, and by what it printed everywhere else.
    pub open spec fn judged(self, success: bool, printed: Seq<char>, lowered: Seq<char>) -> Result<
        (),
        Seq<char>,
    > {
        let failed = match self.task {
            DiskpartTask::WriteMbr => !success,
            _ => reports_failure(lowered),
        };
        if failed {
            Err(self.task.failure_text() + printed)
        } else {
            Ok(())
        }
    }

    /// How a run of the tool that left `output` behind is judged.
    pub open spec fn judged_output(self, output: ToolOutput) -> Result<(), Seq<char>> {
        let printed = lossy_utf8(output.stdout@);
        self.judged(output.success, printed, lowercase(printed))
    }

    /// What follows on `event`, with the tool at `diskpart`.
    pub open spec fn next(self, diskpart: Seq<char>, event: DiskpartEvent) -> DiskpartStep<
        Seq<char>,
        ToolCommandView,
        Seq<char>,
    > {
        match event {
            DiskpartEvent::Begin => DiskpartStep::WriteScript {
                name: self.task.script_name_text(),
                script: self.script,
            },
            DiskpartEvent::ScriptWritten { path, result } => match result {
                Ok(()) => DiskpartStep::Run(
                    ToolCommandView { program: diskpart, args: seq!["/s"@, path@] },
                ),
                Err(e) => DiskpartStep::Finished(Err(e@)),
            },
            DiskpartEvent::Ran(RunOutcome::Exited(output)) => DiskpartStep::RemoveScript {
                name: self.task.script_name_text(),
                then: self.judged_output(output),
            },
            DiskpartEvent::Ran(_) => DiskpartStep::Finished(Err(self.task.launch_error_text())),
        }
    }
}

impl DiskpartJob {
    /// Judges a run of the tool: `printed` is its output, and `lowered` the
    /// same in lower case.
    pub fn judge(&self, success: bool, printed: &str, lowered: &str) -> (r: Result<(), BootError>)
        ensures
            outcome(r) == self@.judged(success, printed@, lowered@),
    {
        let failed = match self.task {
            DiskpartTask::WriteMbr => !success,
            _ => contains(lowered, "error") || contains(lowered, "失败"),
        };
        if failed {
            Err(self.task.failure(printed))
        } else {
            Ok(())
        }
    }

    /// What the job does on `event`, with the tool at `diskpart`. Where the tool printed
    /// well-formed UTF-8, it is judged by the very text that it printed.
    pub fn step(&self, diskpart: &str, event: DiskpartEvent) -> (r: DiskpartStep<
        String,
        ToolCommand,
        BootError,
    >)
        ensures
            r@ == self@.next(diskpart@, event),
            event matches DiskpartEvent::Ran(RunOutcome::Exited(output)) ==> (valid_utf8(
                output.stdout@,
            ) ==> lossy_utf8(output.stdout@) == decode_utf8(output.stdout@)),
    {
        match event {
            DiskpartEvent::Begin => DiskpartStep::WriteScript {
                name: self.task.script_name(),
                script: self.script.clone(),
            },
            DiskpartEvent::ScriptWritten { path, result } => match result {
                Ok(()) => {
                    let args = vec!["/s".to_string(), path];
                    assert(texts(args@) =~= seq!["/s"@, path@]);
                    DiskpartStep::Run(command(diskpart, args))
                },
                Err(e) => DiskpartStep::Finished(Err(BootError::from_message(e))),
            },
            DiskpartEvent::Ran(RunOutcome::Exited(output)) => {
                let printed = lossy_text(&output.stdout);
                let lowered = printed.as_str().to_lowercase();
                DiskpartStep::RemoveScript {
                    name: self.task.script_name(),
                    then: self.judge(output.success, printed.as_str(), lowered.as_str()),
                }
            },
            DiskpartEvent::Ran(_) => DiskpartStep::Finished(Err(self.task.launch_error())),
        }
    }
}

} // verus!
