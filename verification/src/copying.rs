//! Copying the files of an image to the drive.

use vstd::prelude::*;
use vstd::utf8::{decode_utf8, valid_utf8};
use crate::error::{outcome, BootError};
use crate::host::{
    command, path, texts, HostPath, HostPathView, RunOutcome, ToolCommand, ToolCommandView,
};
use crate::progress::WriteProgressView;
use crate::text::{decimal, decimal_string, lossy_text, lossy_utf8};
use crate::usb_writer::{extended, no_messages, on_the_way, UsbWriter};

verus! {

/// Files with more bytes than this are copied piece by piece.
pub const LARGE_FILE: u64 = 10485760;

/// The size of a piece.
pub const PIECE: usize = 1048576;

/// The exit code above which the copying tool has failed.
pub const COPY_TOOL_FAILURE: i32 = 7;

/// The arguments of the copying tool: all subdirectories, also empty ones, in
/// restartable mode, without listings, and with two more tries two seconds apart.
pub open spec fn copy_tool_args(source: Seq<char>, dest: Seq<char>) -> Seq<Seq<char>> {
    seq![
        source + "\\"@,
        dest + "\\"@,
        "/E"@,
        "/Z"@,
        "/NP"@,
        "/NDL"@,
        "/NJH"@,
        "/NJS"@,
        "/R:2"@,
        "/W:2"@,
    ]
}

/// How a run of the copying tool is judged. A run without an exit code is taken
/// for a good one.
pub open spec fn copy_tool_judged(code: Option<i32>, complaint: Seq<char>) -> Result<
    (),
    Seq<char>,
> {
    match code {
        Some(c) => if c > COPY_TOOL_FAILURE {
            Err("robocopy 失败 (退出码 "@ + decimal(c as nat) + "): "@ + complaint)
        } else {
            Ok(())
        },
        None => Ok(()),
    }
}

/// What happened while files are copied with the copying tool.
#[derive(Debug)]
pub enum CopyToolEvent {
    /// The operation begins.
    Begin,
    /// The tool reported that it has copied a file.
    Reported {
        /// How many files it has reported so far.
        copied: u64,
        /// How many files there are to copy, or zero where that is not known.
        total: u64,
    },
    /// The tool was run.
    Ran(RunOutcome),
}

/// What comes next while files are copied with the copying tool.
#[derive(Debug)]
pub enum CopyToolStep<C, E> {
    /// Run the tool, and pass on what it reports meanwhile.
    Run(C),
    /// Let the tool go on.
    Wait,
    /// The operation is over.
    Finished(Result<(), E>),
}

impl View for CopyToolStep<ToolCommand, BootError> {
    type V = CopyToolStep<ToolCommandView, Seq<char>>;

    open spec fn view(&self) -> CopyToolStep<ToolCommandView, Seq<char>> {
        match *self {
            CopyToolStep::Run(c) => CopyToolStep::Run(c@),
            CopyToolStep::Wait => CopyToolStep::Wait,
            CopyToolStep::Finished(r) => CopyToolStep::Finished(outcome(r)),
        }
    }
}

/// What follows on `event` while files are copied with the copying tool.
pub open spec fn copy_tool_next(
    source: Seq<char>,
    dest: Seq<char>,
    event: CopyToolEvent,
) -> CopyToolStep<ToolCommandView, Seq<char>> {
    match event {
        CopyToolEvent::Begin => CopyToolStep::Run(
            ToolCommandView { program: "robocopy"@, args: copy_tool_args(source, dest) },
        ),
        CopyToolEvent::Reported { .. } => CopyToolStep::Wait,
        CopyToolEvent::Ran(RunOutcome::Exited(output)) => CopyToolStep::Finished(
            copy_tool_judged(output.code, lossy_utf8(output.stderr@)),
        ),
        CopyToolEvent::Ran(RunOutcome::WaitFailed) => CopyToolStep::Finished(
            Err("等待 robocopy 完成失败"@),
        ),
        CopyToolEvent::Ran(_) => CopyToolStep::Finished(Err("启动 robocopy 失败"@)),
    }
}

/// Whether a byte is a blank: a space, a tab, or the end of a line or a page.
pub open spec fn is_blank(b: u8) -> bool {
    b == 0x20 || b == 0x09 || b == 0x0A || b == 0x0C || b == 0x0D
}

/// Whether a line that the copying tool printed reports a copied file. The tool is told to
/// list files alone, so every line does that is not blank.
pub open spec fn reports_a_file(line: Seq<u8>) -> bool {
    exists|i: int| 0 <= i < line.len() && !is_blank(#[trigger] line[i])
}

/// Where on the way from `start` to `end` a copy is, of which `copied` of `total` files
/// are done. It is at the start where the number of files is not known.
pub open spec fn on_the_range(start: u8, end: u8, copied: u64, total: u64) -> u8 {
    if total == 0 || end <= start {
        start
    } else if copied >= total {
        end
    } else {
        (start + (end - start) * copied / (total as int)) as u8
    }
}

/// The message that a report of the copying tool gives rise to.
pub open spec fn copy_message(start: u8, end: u8, copied: u64, total: u64) -> WriteProgressView {
    on_the_way(
        "正在复制文件到 U盘..."@,
        on_the_range(0, 100, copied, total),
        on_the_range(start, end, copied, total),
    )
}

/// The messages that are sent on `event` while files are copied with the copying tool.
pub open spec fn copy_tool_messages(start: u8, end: u8, event: CopyToolEvent) -> Seq<
    WriteProgressView,
> {
    match event {
        CopyToolEvent::Reported { copied, total } => seq![copy_message(start, end, copied, total)],
        _ => Seq::empty(),
    }
}

/// Where on the way from `start` to `end` a copy is.
fn on_the_range_at(start: u8, end: u8, copied: u64, total: u64) -> (r: u8)
    ensures
        r == on_the_range(start, end, copied, total),
{
    if total == 0 || end <= start {
        start
    } else if copied >= total {
        end
    } else {
        proof {
            range_is_kept(start, end, copied, total);
        }
        let part: u128 = (end - start) as u128 * copied as u128 / total as u128;
        start + part as u8
    }
}

/// The part of a range that is done is no more than the range.
proof fn range_is_kept(start: u8, end: u8, copied: u64, total: u64)
    requires
        start < end,
        copied < total,
    ensures
        0 <= (end - start) * copied <= 0xFF * 0xFFFF_FFFF_FFFF_FFFF,
        0 <= (end - start) * copied / (total as int) <= end - start,
{
    let width: int = end - start;
    let done: int = copied as int;
    let all: int = total as int;
    assert(0 <= width * done <= width * all && width * done <= 0xFF * 0xFFFF_FFFF_FFFF_FFFF)
        by (nonlinear_arith)
        requires
            0 < width <= 0xFF,
            0 <= done < all <= 0xFFFF_FFFF_FFFF_FFFF,
    ;
    assert(0 <= (width * done) / all <= width) by (nonlinear_arith)
        requires
            0 <= width * done <= width * all,
            0 < all,
    ;
}

/// The totals of a copy lie between its bounds. They never go down as more files are
/// copied, and reach the end with the last file.
pub proof fn copy_totals_rise_within_bounds(
    start: u8,
    end: u8,
    copied: u64,
    later: u64,
    total: u64,
)
    requires
        start <= end,
        copied <= later,
    ensures
        start <= on_the_range(start, end, copied, total) <= end,
        on_the_range(start, end, copied, total) <= on_the_range(start, end, later, total),
        total > 0 ==> on_the_range(start, end, total, total) == end,
{
    if total > 0 && start < end {
        if copied < total {
            range_is_kept(start, end, copied, total);
        }
        if later < total {
            range_is_kept(start, end, later, total);
            let width: int = end - start;
            let a: int = copied as int;
            let b: int = later as int;
            let all: int = total as int;
            assert((width * a) / all <= (width * b) / all) by (nonlinear_arith)
                requires
                    0 < width,
                    0 <= a <= b,
                    0 < all,
            ;
        }
    }
}

/// What a directory holds under a name.
#[derive(Debug, Clone, Copy, PartialEq, Eq, Structural)]
pub enum EntryKind {
    /// A directory.
    Directory,
    /// A file.
    File {
        /// Its length in bytes, where it is known.
        len: Option<u64>,
    },
    /// Anything else.
    Other,
}

/// What is done with an entry.
#[derive(Debug)]
pub enum EntryAction<S> {
    /// Create a directory and those above it.
    CreateDir {
        /// The directory.
        target: S,
    },
    /// Copy a file piece by piece.
    CopyLarge {
        /// The file.
        path: S,
        /// Where it goes.
        target: S,
    },
    /// Copy a file in one go.
    CopyWhole {
        /// The file.
        path: S,
        /// Where it goes.
        target: S,
    },
}

impl View for EntryAction<String> {
    type V = EntryAction<Seq<char>>;

    open spec fn view(&self) -> EntryAction<Seq<char>> {
        match *self {
            EntryAction::CreateDir { target } => EntryAction::CreateDir { target: target@ },
            EntryAction::CopyLarge { path, target } => EntryAction::CopyLarge {
                path: path@,
                target: target@,
            },
            EntryAction::CopyWhole { path, target } => EntryAction::CopyWhole {
                path: path@,
                target: target@,
            },
        }
    }
}

/// What happened while files are copied one by one.
#[derive(Debug)]
pub enum CopyEvent {
    /// The operation begins.
    Begin,
    /// The next entry could not be read.
    WalkFailed,
    /// The next entry.
    Entry {
        /// Its path.
        path: String,
        /// Its path below the directory that is copied, if it is below it.
        relative: Option<String>,
        /// What it is.
        kind: EntryKind,
    },
    /// There are no more entries.
    Exhausted,
    /// What had to be done with an entry was done, or could not be, for the
    /// reason given.
    Performed {
        /// What had to be done.
        action: EntryAction<String>,
        /// Whether it was.
        result: Result<(), String>,
    },
}

/// What comes next while files are copied one by one.
#[derive(Debug)]
pub enum CopyStep<S, E> {
    /// Go through all that is below this directory, and the directory itself.
    Walk {
        /// The directory.
        root: S,
    },
    /// Do this.
    Perform(EntryAction<S>),
    /// Go on to the next entry.
    Advance,
    /// The operation is over.
    Finished(Result<(), E>),
}

impl View for CopyStep<String, BootError> {
    type V = CopyStep<Seq<char>, Seq<char>>;

    open spec fn view(&self) -> CopyStep<Seq<char>, Seq<char>> {
        match *self {
            CopyStep::Walk { root } => CopyStep::Walk { root: root@ },
            CopyStep::Perform(a) => CopyStep::Perform(a@),
            CopyStep::Advance => CopyStep::Advance,
            CopyStep::Finished(r) => CopyStep::Finished(outcome(r)),
        }
    }
}

/// Whether a file is copied piece by piece.
pub open spec fn is_large(len: Option<u64>) -> bool {
    len matches Some(n) && n > LARGE_FILE
}

/// What is done with an entry.
pub open spec fn entry_next(path: Seq<char>, target: Seq<char>, kind: EntryKind) -> CopyStep<
    Seq<char>,
    Seq<char>,
> {
    match kind {
        EntryKind::Directory => CopyStep::Perform(EntryAction::CreateDir { target }),
        EntryKind::File { len } => if is_large(len) {
            CopyStep::Perform(EntryAction::CopyLarge { path, target })
        } else {
            CopyStep::Perform(EntryAction::CopyWhole { path, target })
        },
        EntryKind::Other => CopyStep::Advance,
    }
}

/// The message when `action` could not be done because of `reason`.
pub open spec fn entry_failure(action: EntryAction<Seq<char>>, reason: Seq<char>) -> Seq<char> {
    match action {
        EntryAction::CreateDir { target } => "创建目录失败: "@ + target,
        EntryAction::CopyLarge { .. } => reason,
        EntryAction::CopyWhole { path, .. } => "复制文件失败: "@ + path,
    }
}

/// What follows on `event` while files are copied one by one.
pub open spec fn copy_next(source: Seq<char>, dest: Seq<char>, event: CopyEvent) -> CopyStep<
    Seq<char>,
    Seq<char>,
> {
    match event {
        CopyEvent::Begin => CopyStep::Walk { root: source + "\\"@ },
        CopyEvent::WalkFailed => CopyStep::Finished(Err("遍历目录失败"@)),
        CopyEvent::Entry { path, relative: Some(relative), kind } => entry_next(
            path@,
            dest + "\\"@ + relative@,
            kind,
        ),
        CopyEvent::Entry { relative: None, .. } => CopyStep::Finished(Err("计算相对路径失败"@)),
        CopyEvent::Exhausted => CopyStep::Finished(Ok(())),
        CopyEvent::Performed { result: Ok(_), .. } => CopyStep::Advance,
        CopyEvent::Performed { action, result: Err(e) } => CopyStep::Finished(
            Err(entry_failure(action@, e@)),
        ),
    }
}

/// What happened while a large file is copied.
#[derive(Debug)]
pub enum PieceEvent {
    /// The operation begins.
    Begin {
        /// Whether the target lies in a directory that can be named.
        has_parent: bool,
    },
    /// The directory of the target is there.
    ParentCreated,
    /// The file is open.
    SourceOpened,
    /// The target is open.
    DestCreated,
    /// This many bytes were read.
    Read(usize),
    /// The bytes were written.
    Written,
    /// All that was written has been passed on.
    Flushed,
    /// The last thing to do could not be done, for the reason given.
    Failed(String),
}

/// What comes next while a large file is copied.
#[derive(Debug)]
pub enum PieceStep<S, E> {
    /// Create the directory that this file lies in, and those above it.
    CreateParent(S),
    /// Open this file for reading.
    OpenSource(S),
    /// Create this file, empty, for writing.
    CreateDest(S),
    /// Read as many bytes at most.
    Read {
        /// How many.
        at_most: usize,
    },
    /// Write the first bytes of what was read last.
    Write {
        /// How many.
        len: usize,
    },
    /// Pass on all that was written.
    Flush,
    /// The operation is over.
    Finished(Result<(), E>),
}

impl View for PieceStep<String, BootError> {
    type V = PieceStep<Seq<char>, Seq<char>>;

    open spec fn view(&self) -> PieceStep<Seq<char>, Seq<char>> {
        match *self {
            PieceStep::CreateParent(p) => PieceStep::CreateParent(p@),
            PieceStep::OpenSource(p) => PieceStep::OpenSource(p@),
            PieceStep::CreateDest(p) => PieceStep::CreateDest(p@),
            PieceStep::Read { at_most } => PieceStep::Read { at_most },
            PieceStep::Write { len } => PieceStep::Write { len },
            PieceStep::Flush => PieceStep::Flush,
            PieceStep::Finished(r) => PieceStep::Finished(outcome(r)),
        }
    }
}

/// What follows on `event` while the large file `source` is copied to `dest`. The end
/// of the file is reached when nothing more can be read.
pub open spec fn piece_next(source: Seq<char>, dest: Seq<char>, event: PieceEvent) -> PieceStep<
    Seq<char>,
    Seq<char>,
> {
    match event {
        PieceEvent::Begin { has_parent } => if has_parent {
            PieceStep::CreateParent(dest)
        } else {
            PieceStep::OpenSource(source)
        },
        PieceEvent::ParentCreated => PieceStep::OpenSource(source),
        PieceEvent::SourceOpened => PieceStep::CreateDest(dest),
        PieceEvent::DestCreated => PieceStep::Read { at_most: PIECE },
        PieceEvent::Read(n) => if n == 0 {
            PieceStep::Flush
        } else {
            PieceStep::Write { len: n }
        },
        PieceEvent::Written => PieceStep::Read { at_most: PIECE },
        PieceEvent::Flushed => PieceStep::Finished(Ok(())),
        PieceEvent::Failed(e) => PieceStep::Finished(Err(e@)),
    }
}

/// What happened while a directory is copied.
#[derive(Debug)]
pub enum TreeEvent {
    /// The operation begins.
    Begin,
    /// Whether the directory exists.
    SourceChecked(bool),
    /// The target is there.
    DestCreated,
    /// The next thing in the directory.
    Entry {
        /// Its name.
        name: String,
        /// Whether it is a directory.
        is_dir: bool,
    },
    /// There is nothing more in the directory.
    Exhausted,
    /// What had to be done with an entry was done.
    Performed,
    /// The last thing to do could not be done, for the reason given.
    Failed(String),
}

/// What comes next while a directory is copied.
#[derive(Debug)]
pub enum TreeStep<S, P, E> {
    /// Find out whether this directory exists.
    CheckExists(S),
    /// Create this directory and those above it.
    CreateDir(S),
    /// Go through what this directory holds.
    List(S),
    /// Copy a directory.
    Descend {
        /// The directory.
        source: P,
        /// Where it goes.
        dest: P,
    },
    /// Copy a file.
    CopyFile {
        /// The file.
        source: P,
        /// Where it goes.
        dest: P,
    },
    /// Go on to the next entry.
    Advance,
    /// The operation is over.
    Finished(Result<(), E>),
}

impl View for TreeStep<String, HostPath, BootError> {
    type V = TreeStep<Seq<char>, HostPathView, Seq<char>>;

    open spec fn view(&self) -> TreeStep<Seq<char>, HostPathView, Seq<char>> {
        match *self {
            TreeStep::CheckExists(p) => TreeStep::CheckExists(p@),
            TreeStep::CreateDir(p) => TreeStep::CreateDir(p@),
            TreeStep::List(p) => TreeStep::List(p@),
            TreeStep::Descend { source, dest } => TreeStep::Descend {
                source: source@,
                dest: dest@,
            },
            TreeStep::CopyFile { source, dest } => TreeStep::CopyFile {
                source: source@,
                dest: dest@,
            },
            TreeStep::Advance => TreeStep::Advance,
            TreeStep::Finished(r) => TreeStep::Finished(outcome(r)),
        }
    }
}

/// What stands under `name` in the directory `dir`.
pub open spec fn inside(dir: Seq<char>, name: Seq<char>) -> HostPathView {
    HostPathView { base: dir, parts: seq![name] }
}

/// What follows on `event` while a directory is copied. There is nothing to do
/// where it does not exist.
pub open spec fn tree_next(source: Seq<char>, dest: Seq<char>, event: TreeEvent) -> TreeStep<
    Seq<char>,
    HostPathView,
    Seq<char>,
> {
    match event {
        TreeEvent::Begin => TreeStep::CheckExists(source),
        TreeEvent::SourceChecked(true) => TreeStep::CreateDir(dest),
        TreeEvent::SourceChecked(false) => TreeStep::Finished(Ok(())),
        TreeEvent::DestCreated => TreeStep::List(source),
        TreeEvent::Entry { name, is_dir } => if is_dir {
            TreeStep::Descend { source: inside(source, name@), dest: inside(dest, name@) }
        } else {
            TreeStep::CopyFile { source: inside(source, name@), dest: inside(dest, name@) }
        },
        TreeEvent::Exhausted => TreeStep::Finished(Ok(())),
        TreeEvent::Performed => TreeStep::Advance,
        TreeEvent::Failed(e) => TreeStep::Finished(Err(e@)),
    }
}

/// What stands under `name` in the directory `dir`.
fn inside_path(dir: &str, name: &str) -> (r: HostPath)
    ensures
        r@ == inside(dir@, name@),
{
    let parts = vec![name.to_string()];
    assert(texts(parts@) =~= seq![name@]);
    path(dir, parts)
}

impl UsbWriter {
    /// Copies all files from one drive to another with the copying tool. Each file that
    /// the tool reports is told in a message, with a total between `progress_start` and
    /// `progress_end`. Where the tool complained in well-formed UTF-8, the error tells its
    /// very words.
    pub fn copy_files_with_progress(
        &mut self,
        source: &str,
        dest: &str,
        progress_start: u8,
        progress_end: u8,
        event: CopyToolEvent,
    ) -> (r: CopyToolStep<ToolCommand, BootError>)
        ensures
            r@ == copy_tool_next(source@, dest@, event),
            final(self).config() == old(self).config(),
            final(self).mounted() == old(self).mounted(),
            final(self).sent() == extended(
                old(self).sent(),
                copy_tool_messages(progress_start, progress_end, event),
            ),
            event matches CopyToolEvent::Ran(RunOutcome::Exited(output)) ==> (valid_utf8(
                output.stderr@,
            ) ==> lossy_utf8(output.stderr@) == decode_utf8(output.stderr@)),
    {
        proof {
            no_messages(self.sent());
        }
        match event {
            CopyToolEvent::Begin => {
                let args = vec![
                    source.to_string().concat("\\"),
                    dest.to_string().concat("\\"),
                    "/E".to_string(),
                    "/Z".to_string(),
                    "/NP".to_string(),
                    "/NDL".to_string(),
                    "/NJH".to_string(),
                    "/NJS".to_string(),
                    "/R:2".to_string(),
                    "/W:2".to_string(),
                ];
                assert(texts(args@) =~= copy_tool_args(source@, dest@));
                CopyToolStep::Run(command("robocopy", args))
            },
            CopyToolEvent::Reported { copied, total } => {
                let step_pct: u8 = on_the_range_at(0, 100, copied, total);
                let total_pct: u8 = on_the_range_at(progress_start, progress_end, copied, total);
                self.send_progress("正在复制文件到 U盘...", step_pct, total_pct);
                CopyToolStep::Wait
            },
            CopyToolEvent::Ran(RunOutcome::Exited(output)) => {
                let complaint = lossy_text(&output.stderr);
                CopyToolStep::Finished(Self::judge_copy_tool(output.code, complaint.as_str()))
            },
            CopyToolEvent::Ran(RunOutcome::WaitFailed) => CopyToolStep::Finished(
                Err(BootError::new("等待 robocopy 完成失败")),
            ),
            CopyToolEvent::Ran(_) => CopyToolStep::Finished(
                Err(BootError::new("启动 robocopy 失败")),
            ),
        }
    }

    /// Whether a line that the copying tool printed reports a copied file.
    pub fn is_copy_report(line: &[u8]) -> (r: bool)
        ensures
            r == reports_a_file(line@),
    {
        for i in 0..line.len()
            invariant
                forall|k: int| 0 <= k < i ==> is_blank(#[trigger] line@[k]),
        {
            let b: u8 = line[i];
            if !(b == 0x20 || b == 0x09 || b == 0x0A || b == 0x0C || b == 0x0D) {
                assert(!is_blank(line@[i as int]));
                return true;
            }
        }
        false
    }

    /// Judges a run of the copying tool, which printed `complaint` to its standard
    /// error.
    pub fn judge_copy_tool(code: Option<i32>, complaint: &str) -> (r: Result<(), BootError>)
        ensures
            outcome(r) == copy_tool_judged(code, complaint@),
    {
        match code {
            Some(c) => if c > COPY_TOOL_FAILURE {
                let message = "robocopy 失败 (退出码 ".to_string().concat(
                    decimal_string(c as u64).as_str(),
                ).concat("): ").concat(complaint);
                Err(BootError::from_message(message))
            } else {
                Ok(())
            },
            None => Ok(()),
        }
    }

    /// Copies all files from one drive to another one by one.
    pub fn copy_files_rust(source: &str, dest: &str, event: CopyEvent) -> (r: CopyStep<
        String,
        BootError,
    >)
        ensures
            r@ == copy_next(source@, dest@, event),
    {
        match event {
            CopyEvent::Begin => CopyStep::Walk { root: source.to_string().concat("\\") },
            CopyEvent::WalkFailed => CopyStep::Finished(Err(BootError::new("遍历目录失败"))),
            CopyEvent::Entry { path, relative: Some(relative), kind } => {
                let target = dest.to_string().concat("\\").concat(relative.as_str());
                match kind {
                    EntryKind::Directory => CopyStep::Perform(EntryAction::CreateDir { target }),
                    EntryKind::File { len: Some(len) } => if len > LARGE_FILE {
                        CopyStep::Perform(EntryAction::CopyLarge { path, target })
                    } else {
                        CopyStep::Perform(EntryAction::CopyWhole { path, target })
                    },
                    EntryKind::File { len: None } => CopyStep::Perform(
                        EntryAction::CopyWhole { path, target },
                    ),
                    EntryKind::Other => CopyStep::Advance,
                }
            },
            CopyEvent::Entry { relative: None, .. } => CopyStep::Finished(
                Err(BootError::new("计算相对路径失败")),
            ),
            CopyEvent::Exhausted => CopyStep::Finished(Ok(())),
            CopyEvent::Performed { result: Ok(_), .. } => CopyStep::Advance,
            CopyEvent::Performed { action, result: Err(e) } => {
                let message = match action {
                    EntryAction::CreateDir { target } => "创建目录失败: ".to_string().concat(
                        target.as_str(),
                    ),
                    EntryAction::CopyLarge { .. } => e,
                    EntryAction::CopyWhole { path, .. } => "复制文件失败: ".to_string().concat(
                        path.as_str(),
                    ),
                };
                CopyStep::Finished(Err(BootError::from_message(message)))
            },
        }
    }

    /// Copies the large file `source` to `dest`, piece by piece.
    pub fn copy_large_file(source: &str, dest: &str, event: PieceEvent) -> (r: PieceStep<
        String,
        BootError,
    >)
        ensures
            r@ == piece_next(source@, dest@, event),
    {
        match event {
            PieceEvent::Begin { has_parent } => if has_parent {
                PieceStep::CreateParent(dest.to_string())
            } else {
                PieceStep::OpenSource(source.to_string())
            },
            PieceEvent::ParentCreated => PieceStep::OpenSource(source.to_string()),
            PieceEvent::SourceOpened => PieceStep::CreateDest(dest.to_string()),
            PieceEvent::DestCreated => PieceStep::Read { at_most: PIECE },
            PieceEvent::Read(n) => if n == 0 {
                PieceStep::Flush
            } else {
                PieceStep::Write { len: n }
            },
            PieceEvent::Written => PieceStep::Read { at_most: PIECE },
            PieceEvent::Flushed => PieceStep::Finished(Ok(())),
            PieceEvent::Failed(e) => PieceStep::Finished(Err(BootError::from_message(e))),
        }
    }

    /// Copies a directory with all that is below it.
    pub fn copy_dir_recursive(source: &str, dest: &str, event: TreeEvent) -> (r: TreeStep<
        String,
        HostPath,
        BootError,
    >)
        ensures
            r@ == tree_next(source@, dest@, event),
    {
        match event {
            TreeEvent::Begin => TreeStep::CheckExists(source.to_string()),
            TreeEvent::SourceChecked(exists) => if exists {
                TreeStep::CreateDir(dest.to_string())
            } else {
                TreeStep::Finished(Ok(()))
            },
            TreeEvent::DestCreated => TreeStep::List(source.to_string()),
            TreeEvent::Entry { name, is_dir } => {
                let from = inside_path(source, name.as_str());
                let to = inside_path(dest, name.as_str());
                if is_dir {
                    TreeStep::Descend { source: from, dest: to }
                } else {
                    TreeStep::CopyFile { source: from, dest: to }
                }
            },
            TreeEvent::Exhausted => TreeStep::Finished(Ok(())),
            TreeEvent::Performed => TreeStep::Advance,
            TreeEvent::Failed(e) => TreeStep::Finished(Err(BootError::from_message(e))),
        }
    }
}

} // verus!
