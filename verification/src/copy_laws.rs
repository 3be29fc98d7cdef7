//! What copying does with each file and each directory.

use vstd::prelude::*;
use crate::copies::{
    action_for, actions_from, copies_from, copy_from, copy_of, files_are_copied_one_by_one,
    gets_over, tree_from, DirEntry, DirStep, Directory, FoundEntry, Walk, Wanted,
};
use crate::copying::{
    copy_message, copy_next, copy_tool_args, copy_tool_judged, copy_tool_messages, copy_tool_next,
    inside, is_blank, is_large, on_the_range, piece_next, reports_a_file, tree_next,
    CopyEvent, CopyStep, CopyToolEvent, CopyToolStep, EntryAction, EntryKind, PieceEvent,
    PieceStep, TreeEvent, TreeStep,
};
use crate::host::{RunOutcome, ToolOutput};
use crate::text::lossy_utf8;
use crate::text_laws::read_decimal;

verus! {

/// Whether an action copies the file `path` to `target`.
pub open spec fn copies_file(a: Wanted, path: Seq<char>, target: Seq<char>) -> bool {
    ||| a == Wanted::CopyLarge { path, target }
    ||| a == Wanted::CopyWhole { path, target }
}

/// Every file that the walk comes to, of whatever length, known or not, is copied from its own
/// path to its place below the target; it is copied piece by piece exactly if it is known to be
/// longer than ten times 1024 * 1024 bytes. Every directory is created at its place below the
/// target. What is neither is passed over.
pub proof fn each_entry_is_dealt_with(
    source: Seq<char>,
    dest: Seq<char>,
    path: String,
    relative: String,
    len: Option<u64>,
)
    ensures
        ({
            let target = dest + seq!['\\'] + relative@;
            let after = |kind: EntryKind|
                copy_next(
                    source,
                    dest,
                    CopyEvent::Entry { path, relative: Some(relative), kind },
                );
            &&& after(EntryKind::File { len }) matches CopyStep::Perform(a) && {
                &&& copies_file(a, path@, target)
                &&& a is CopyLarge <==> (len matches Some(n) && n > 10 * 1024 * 1024)
            }
            &&& after(EntryKind::Directory) == CopyStep::<Seq<char>, Seq<char>>::Perform(
                EntryAction::CreateDir { target },
            )
            &&& after(EntryKind::Other) is Advance
        }),
{
    reveal_strlit("\\");
    assert("\\"@ =~= seq!['\\']);
}

/// Whether an entry has to be dealt with: it is a file or a directory.
pub open spec fn matters(e: Option<FoundEntry>) -> bool {
    e matches Some(e) && !(e.kind is Other)
}

/// How many of the first `n` entries have to be dealt with.
pub open spec fn count(entries: Seq<Option<FoundEntry>>, n: int) -> int
    decreases n,
{
    if n <= 0 {
        0
    } else if matters(entries[n - 1]) {
        count(entries, n - 1) + 1
    } else {
        count(entries, n - 1)
    }
}

/// Whether an action is what has to be done with an entry: a copy of a file from its path to
/// its place below `dest`, or the creation of a directory at its place.
pub open spec fn fits(a: Wanted, dest: Seq<char>, e: FoundEntry) -> bool {
    let target = dest + seq!['\\'] + e.relative->Some_0@;
    match e.kind {
        EntryKind::File { .. } => copies_file(a, e.path@, target),
        EntryKind::Directory => a == (Wanted::CreateDir { target }),
        EntryKind::Other => false,
    }
}

/// Counting goes up with the entries.
proof fn count_goes_up(entries: Seq<Option<FoundEntry>>, a: int, b: int)
    requires
        0 <= a <= b,
    ensures
        0 <= count(entries, a) <= count(entries, b),
        a < b && matters(entries[a]) ==> count(entries, a) < count(entries, b),
    decreases b,
{
    if a < b {
        count_goes_up(entries, a, b - 1);
    } else if a > 0 {
        count_goes_up(entries, a - 1, b - 1);
    }
}

/// The actions for entries that can be read fit them, one for one.
proof fn actions_fit(dest: Seq<char>, entries: Seq<Option<FoundEntry>>, at: int)
    requires
        0 <= at <= entries.len(),
        forall|k: int| 0 <= k < entries.len() ==> (#[trigger] entries[k]) is Some,
    ensures
        ({
            let actions = actions_from(dest, entries, at);
            let before = count(entries, at);
            &&& actions.len() == count(entries, entries.len() as int) - before
            &&& forall|i: int|
                at <= i < entries.len() && matters(#[trigger] entries[i]) ==> fits(
                    actions[count(entries, i) - before],
                    dest,
                    entries[i]->Some_0,
                )
        }),
    decreases entries.len() - at,
{
    reveal_strlit("\\");
    assert("\\"@ =~= seq!['\\']);
    if at < entries.len() {
        actions_fit(dest, entries, at + 1);
        let actions = actions_from(dest, entries, at);
        let rest = actions_from(dest, entries, at + 1);
        let before = count(entries, at);
        assert forall|i: int| at <= i < entries.len() && matters(#[trigger] entries[i]) implies fits(
            actions[count(entries, i) - before],
            dest,
            entries[i]->Some_0,
        ) by {
            if i > at {
                count_goes_up(entries, at + 1, i);
                count_goes_up(entries, i, entries.len() as int);
                if matters(entries[at]) {
                    assert(actions[count(entries, i) - before] == rest[count(entries, i) - count(
                        entries,
                        at + 1,
                    )]);
                }
            }
        }
    }
}

/// Where the files below a directory were copied one by one without a failure, there was one
/// action for every file and every directory, and none besides, in the order of the walk; that
/// for a file copied it from its path to its place below the target, and that for a directory
/// created it at its place below the target.
pub proof fn every_file_has_its_copy(source: Seq<char>, dest: Seq<char>, walk: Walk, i: int)
    requires
        copy_from(source, dest, walk, 0, CopyEvent::Begin).1 is Ok,
        0 <= i < walk.entries.len(),
    ensures
        ({
            let actions = copy_from(source, dest, walk, 0, CopyEvent::Begin).0;
            let n = count(walk.entries, i);
            &&& actions.len() == count(walk.entries, walk.entries.len() as int)
            &&& walk.entries[i] matches Some(e) && {
                &&& e.relative is Some
                &&& !(e.kind is Other) ==> {
                    &&& 0 <= n < actions.len()
                    &&& fits(actions[n], dest, e)
                    &&& (walk.perform)(actions[n]).result is Ok
                }
            }
        }),
{
    files_are_copied_one_by_one(source, dest, walk);
    assert forall|k: int| 0 <= k < walk.entries.len() implies (#[trigger] walk.entries[k]) is Some
        by {
        assert(gets_over(dest, walk, k));
    }
    actions_fit(dest, walk.entries, 0);
    assert(gets_over(dest, walk, i));
    if matters(walk.entries[i]) {
        count_goes_up(walk.entries, 0, i);
        count_goes_up(walk.entries, i, walk.entries.len() as int);
        action_is_in_place(dest, walk.entries, 0, i);
    }
}

/// The action for an entry stands where the entry is counted.
proof fn action_is_in_place(dest: Seq<char>, entries: Seq<Option<FoundEntry>>, at: int, i: int)
    requires
        0 <= at <= i < entries.len(),
        forall|k: int| 0 <= k < entries.len() ==> (#[trigger] entries[k]) is Some,
        matters(entries[i]),
    ensures
        ({
            let n = count(entries, i) - count(entries, at);
            &&& 0 <= n < actions_from(dest, entries, at).len()
            &&& action_for(dest, entries[i]->Some_0) == Some(actions_from(dest, entries, at)[n])
        }),
    decreases i - at,
{
    if at < i {
        action_is_in_place(dest, entries, at + 1, i);
        count_goes_up(entries, at + 1, i);
        assert(entries[at] is Some);
    }
}

/// Where every entry can be read, lies below the source, and every action goes well, the copy
/// goes well.
pub proof fn copy_goes_well_if_all_does(source: Seq<char>, dest: Seq<char>, walk: Walk)
    requires
        forall|k: int|
            0 <= k < walk.entries.len() ==> ((#[trigger] walk.entries[k]) matches Some(e)
                && e.relative is Some),
        forall|a: Wanted| (#[trigger] (walk.perform)(a)).result is Ok,
    ensures
        copy_from(source, dest, walk, 0, CopyEvent::Begin).1 is Ok,
{
    files_are_copied_one_by_one(source, dest, walk);
    assert forall|k: int| 0 <= k < walk.entries.len() implies #[trigger] gets_over(
        dest,
        walk,
        k,
    ) by {
        assert(walk.entries[k] is Some);
    }
}

/// The walk goes through the source. An entry that cannot be read or does not lie below the
/// source, and an action that cannot be done, end the copy with a message that tells what could
/// not be done; an action that was done leads to the next entry; and the end of the walk ends
/// the copy well.
pub proof fn copy_ends_as_it_goes(
    source: Seq<char>,
    dest: Seq<char>,
    path: String,
    kind: EntryKind,
    action: EntryAction<String>,
    reason: String,
)
    ensures
        copy_next(source, dest, CopyEvent::Begin) == (CopyStep::<Seq<char>, Seq<char>>::Walk {
            root: source + seq!['\\'],
        }),
        copy_next(source, dest, CopyEvent::WalkFailed) == CopyStep::<Seq<char>, Seq<char>>::Finished(
            Err("遍历目录失败"@),
        ),
        copy_next(source, dest, CopyEvent::Entry { path, relative: None, kind }) == CopyStep::<
            Seq<char>,
            Seq<char>,
        >::Finished(Err("计算相对路径失败"@)),
        copy_next(source, dest, CopyEvent::Exhausted) == CopyStep::<Seq<char>, Seq<char>>::Finished(
            Ok(()),
        ),
        copy_next(source, dest, CopyEvent::Performed { action, result: Ok(()) }) is Advance,
        copy_next(source, dest, CopyEvent::Performed { action, result: Err(reason) }) == CopyStep::<
            Seq<char>,
            Seq<char>,
        >::Finished(
            Err(
                match action {
                    EntryAction::CreateDir { target } => "创建目录失败: "@ + target@,
                    EntryAction::CopyLarge { .. } => reason@,
                    EntryAction::CopyWhole { path, .. } => "复制文件失败: "@ + path@,
                },
            ),
        ),
{
    reveal_strlit("\\");
    assert("\\"@ =~= seq!['\\']);
}

/// A file is large exactly if it is known to be longer than ten times 1024 * 1024 bytes.
pub proof fn large_files_are_above_ten_megabytes(len: u64)
    ensures
        is_large(Some(len)) <==> len > 10 * 1024 * 1024,
        !is_large(None),
{
}

/// The copying tool gets the two places, each with a backslash behind it, and eight switches.
pub proof fn copying_tool_is_told_both_places(source: Seq<char>, dest: Seq<char>)
    ensures
        ({
            let args = copy_tool_args(source, dest);
            &&& args.len() == 10
            &&& args[0] == source + seq!['\\']
            &&& args[1] == dest + seq!['\\']
            &&& args[2] == "/E"@
            &&& args[3] == "/Z"@
            &&& args[4] == "/NP"@
            &&& args[5] == "/NDL"@
            &&& args[6] == "/NJH"@
            &&& args[7] == "/NJS"@
            &&& args[8] == "/R:2"@
            &&& args[9] == "/W:2"@
        }),
        copy_tool_next(source, dest, CopyToolEvent::Begin) matches CopyToolStep::Run(command) && {
            &&& command.program == "robocopy"@
            &&& command.args.len() == 10
            &&& command.args[0] == source + seq!['\\']
            &&& command.args[1] == dest + seq!['\\']
            &&& command.args == copy_tool_args(source, dest)
        },
{
    reveal_strlit("\\");
    assert("\\"@ =~= seq!['\\']);
}

/// A run of the copying tool has failed exactly if its exit code is 8 or more; the message then
/// tells the code and what the tool complained of.
pub proof fn copying_fails_from_eight_on(code: i32, complaint: Seq<char>)
    ensures
        copy_tool_judged(None, complaint) is Ok,
        copy_tool_judged(Some(code), complaint) is Ok <==> code < 8,
        code >= 8 ==> exists|digits: Seq<char>| #[trigger]
            read_decimal(digits) == code && digits.len() > 0 && copy_tool_judged(
                Some(code),
                complaint,
            ) == Err::<(), Seq<char>>(
                "robocopy 失败 (退出码 "@ + digits + "): "@ + complaint,
            ),
{
    if code >= 8 {
        let digits = crate::text::decimal(code as nat);
        crate::text_laws::decimal_reads_back(code as nat);
        assert(read_decimal(digits) == code);
    }
}

/// A run of the copying tool that ended is judged by its code and its complaint; one that could
/// not be waited for, or started, has failed; and reports meanwhile end nothing.
pub proof fn copying_ends_with_the_tool(
    source: Seq<char>,
    dest: Seq<char>,
    output: ToolOutput,
    copied: u64,
    total: u64,
)
    ensures
        ({
            let after = |event: CopyToolEvent| copy_tool_next(source, dest, event);
            &&& after(CopyToolEvent::Reported { copied, total }) is Wait
            &&& after(CopyToolEvent::Ran(RunOutcome::Exited(output))) matches CopyToolStep::Finished(
                r,
            ) && {
                &&& r is Ok <==> (output.code matches Some(c) ==> c < 8)
                &&& r == copy_tool_judged(output.code, lossy_utf8(output.stderr@))
            }
            &&& after(CopyToolEvent::Ran(RunOutcome::WaitFailed)) matches CopyToolStep::Finished(
                r,
            ) && r == Err::<(), Seq<char>>("等待 robocopy 完成失败"@)
            &&& after(CopyToolEvent::Ran(RunOutcome::NotFound)) matches CopyToolStep::Finished(
                r,
            ) && r == Err::<(), Seq<char>>("启动 robocopy 失败"@)
            &&& after(CopyToolEvent::Ran(RunOutcome::LaunchFailed)) matches CopyToolStep::Finished(
                r,
            ) && r == Err::<(), Seq<char>>("启动 robocopy 失败"@)
        }),
{
}

/// Each report is told in one message, with the share of the files that are copied; nothing
/// else is told.
pub proof fn reports_are_told(
    start: u8,
    end: u8,
    copied: u64,
    total: u64,
    outcome: RunOutcome,
)
    ensures
        ({
            let messages = copy_tool_messages(
                start,
                end,
                CopyToolEvent::Reported { copied, total },
            );
            &&& messages.len() == 1
            &&& messages[0] == copy_message(start, end, copied, total)
            &&& messages[0].step == "正在复制文件到 U盘..."@
            &&& messages[0].step_progress == on_the_range(0, 100, copied, total)
            &&& messages[0].total_progress == on_the_range(start, end, copied, total)
            &&& !messages[0].finished
            &&& messages[0].error is None
        }),
        copy_tool_messages(start, end, CopyToolEvent::Begin).len() == 0,
        copy_tool_messages(start, end, CopyToolEvent::Ran(outcome)).len() == 0,
{
}

/// A copy has come as far from its start to its end as its share of the files, rounded down. It
/// is at its start where the number of files is not known, and at its end where all are copied.
pub proof fn share_is_rounded_down(start: u8, end: u8, copied: u64, total: u64)
    ensures
        total == 0 || end <= start ==> on_the_range(start, end, copied, total) == start,
        0 < total <= copied && start < end ==> on_the_range(start, end, copied, total) == end,
        copied < total && start < end ==> {
            let come = on_the_range(start, end, copied, total) - start;
            &&& 0 <= come < end - start
            &&& come * total <= (end - start) * copied < (come + 1) * total
        },
{
    if copied < total && start < end {
        let width: int = end - start;
        let done: int = copied as int;
        let all: int = total as int;
        let come: int = (width * done) / all;
        assert(0 <= come < width && come * all <= width * done < (come + 1) * all)
            by (nonlinear_arith)
            requires
                0 < width,
                0 <= done < all,
                come == (width * done) / all,
        ;
        assert(on_the_range(start, end, copied, total) == start + come);
    }
}

/// A line reports a file exactly if it holds anything but spaces, tabs, and the ends of lines
/// and pages.
pub proof fn lines_that_are_not_blank_report(line: Seq<u8>, b: u8)
    ensures
        is_blank(b) <==> b == 32 || b == 9 || b == 10 || b == 12 || b == 13,
        !reports_a_file(Seq::empty()),
        reports_a_file(line.push(b)) <==> reports_a_file(line) || !(b == 32 || b == 9 || b == 10
            || b == 12 || b == 13),
{
    let longer = line.push(b);
    if reports_a_file(line) {
        let i = choose|i: int| 0 <= i < line.len() && !is_blank(#[trigger] line[i]);
        assert(longer[i] == line[i]);
    }
    if !is_blank(b) {
        assert(longer[line.len() as int] == b);
    }
    if reports_a_file(longer) && is_blank(b) {
        let i = choose|i: int| 0 <= i < longer.len() && !is_blank(#[trigger] longer[i]);
        assert(line[i] == longer[i]);
    }
}

/// A large file is read from its own path and written to its own target, whose directory is
/// created first where it can be named; all that was read is written, at most 1024 * 1024 bytes
/// at a time, until nothing more is read; and a failure ends the copy with its reason.
pub proof fn large_file_is_read_and_written(
    source: Seq<char>,
    dest: Seq<char>,
    n: usize,
    reason: String,
)
    ensures
        ({
            let after = |event: PieceEvent| piece_next(source, dest, event);
            &&& after(PieceEvent::Begin { has_parent: true }) == PieceStep::<
                Seq<char>,
                Seq<char>,
            >::CreateParent(dest)
            &&& after(PieceEvent::Begin { has_parent: false }) == PieceStep::<
                Seq<char>,
                Seq<char>,
            >::OpenSource(source)
            &&& after(PieceEvent::ParentCreated) == PieceStep::<Seq<char>, Seq<char>>::OpenSource(
                source,
            )
            &&& after(PieceEvent::SourceOpened) == PieceStep::<Seq<char>, Seq<char>>::CreateDest(
                dest,
            )
            &&& after(PieceEvent::DestCreated) matches PieceStep::Read { at_most } && at_most
                == 1024 * 1024
            &&& after(PieceEvent::Written) matches PieceStep::Read { at_most } && at_most
                == 1024 * 1024
            &&& n > 0 ==> (after(PieceEvent::Read(n)) matches PieceStep::Write { len } && len == n)
            &&& after(PieceEvent::Read(0)) is Flush
            &&& after(PieceEvent::Flushed) matches PieceStep::Finished(r) && r is Ok
            &&& after(PieceEvent::Failed(reason)) == PieceStep::<Seq<char>, Seq<char>>::Finished(
                Err(reason@),
            )
        }),
{
}

/// What stands under a name in a directory is found by joining the name to the directory.
pub proof fn names_are_joined(dir: Seq<char>, name: Seq<char>)
    ensures
        inside(dir, name).base == dir,
        inside(dir, name).parts.len() == 1,
        inside(dir, name).parts[0] == name,
{
}

/// A directory that is there is copied: its target is created, it is listed, and everything in
/// it is copied under its own name, directories as directories and files as files. Nothing is
/// done where there is none, and a failure ends the copy with its reason.
pub proof fn directory_is_copied_name_by_name(
    source: Seq<char>,
    dest: Seq<char>,
    name: String,
    reason: String,
)
    ensures
        ({
            let after = |event: TreeEvent| tree_next(source, dest, event);
            &&& after(TreeEvent::Begin) == DirStep::CheckExists(source)
            &&& after(TreeEvent::SourceChecked(true)) == DirStep::CreateDir(dest)
            &&& after(TreeEvent::SourceChecked(false)) == DirStep::Finished(Ok(()))
            &&& after(TreeEvent::DestCreated) == DirStep::List(source)
            &&& after(TreeEvent::Entry { name, is_dir: true }) matches TreeStep::Descend {
                source: from,
                dest: to,
            } && {
                &&& from.base == source
                &&& from.parts == seq![name@]
                &&& to.base == dest
                &&& to.parts == seq![name@]
            }
            &&& after(TreeEvent::Entry { name, is_dir: false }) matches TreeStep::CopyFile {
                source: from,
                dest: to,
            } && {
                &&& from.base == source
                &&& from.parts == seq![name@]
                &&& to.base == dest
                &&& to.parts == seq![name@]
            }
            &&& after(TreeEvent::Exhausted) == DirStep::Finished(Ok(()))
            &&& after(TreeEvent::Performed) is Advance
            &&& after(TreeEvent::Failed(reason)) == DirStep::Finished(Err(reason@))
        }),
{
}

/// Where a directory that is there was copied without a failure, one copy was made of each
/// thing in it, in order, to the same name in the target.
pub proof fn everything_in_a_directory_has_its_copy(
    source: Seq<char>,
    dest: Seq<char>,
    dir: Directory,
    i: int,
)
    requires
        dir.exists,
        tree_from(source, dest, dir, 0, TreeEvent::Begin).1 is Ok,
        0 <= i < dir.entries.len(),
    ensures
        ({
            let copies = tree_from(source, dest, dir, 0, TreeEvent::Begin).0;
            &&& copies.len() == dir.entries.len()
            &&& dir.entries[i] matches Ok(e) && {
                &&& (dir.perform)(copies[i]) is Ok
                &&& e.is_dir ==> (copies[i] matches TreeStep::Descend { source: from, dest: to } && {
                    &&& from.base == source
                    &&& from.parts == seq![e.name@]
                    &&& to.base == dest
                    &&& to.parts == seq![e.name@]
                })
                &&& !e.is_dir ==> (copies[i] matches TreeStep::CopyFile { source: from, dest: to }
                    && {
                    &&& from.base == source
                    &&& from.parts == seq![e.name@]
                    &&& to.base == dest
                    &&& to.parts == seq![e.name@]
                })
            }
        }),
{
    crate::copies::directory_is_copied(source, dest, dir);
    assert(crate::copies::can_copy(source, dest, dir, i));
    copies_are_in_place(source, dest, dir.entries, 0, i);
}

/// The copy of each entry stands where the entry stands.
proof fn copies_are_in_place(
    source: Seq<char>,
    dest: Seq<char>,
    entries: Seq<Result<DirEntry, String>>,
    at: int,
    i: int,
)
    requires
        0 <= at <= i < entries.len(),
    ensures
        copies_from(source, dest, entries, at).len() == entries.len() - at,
        copies_from(source, dest, entries, at)[i - at] == copy_of(
            source,
            dest,
            entries[i]->Ok_0,
        ),
    decreases entries.len() - at,
{
    if at < i {
        copies_are_in_place(source, dest, entries, at + 1, i);
    } else if at + 1 < entries.len() {
        copies_are_in_place(source, dest, entries, at + 1, at + 1);
    } else {
        assert(copies_from(source, dest, entries, at + 1).len() == 0);
    }
}

} // verus!
