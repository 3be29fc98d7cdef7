//! What whole copies come to: of a large file, of all files one by one, and of a
//! directory.

use vstd::prelude::*;
use crate::copying::{
    copy_next, entry_next, inside, piece_next, tree_next, CopyEvent, CopyStep, EntryAction,
    EntryKind, PieceEvent, PieceStep, TreeEvent, TreeStep, PIECE,
};
use crate::host::HostPathView;

verus! {

/// How much of a large file's copy is ahead between two pieces.
pub open spec fn piece_ahead(event: PieceEvent) -> int {
    match event {
        PieceEvent::Begin { .. } => 6,
        PieceEvent::ParentCreated => 5,
        PieceEvent::SourceOpened => 4,
        PieceEvent::DestCreated => 3,
        PieceEvent::Written => 3,
        PieceEvent::Read(_) => 2,
        PieceEvent::Flushed => 1,
        PieceEvent::Failed(_) => 0,
    }
}

/// What the target of a large file's copy holds in the end, and how the copy ends.
/// The file is read as `pieces`, of which the first `at` were read before, and
/// everything that is asked for is done.
pub open spec fn pieces_from(
    source: Seq<char>,
    dest: Seq<char>,
    pieces: Seq<Seq<u8>>,
    at: int,
    target: Seq<u8>,
    event: PieceEvent,
) -> (Seq<u8>, Result<(), Seq<char>>)
    decreases pieces.len() - at, piece_ahead(event),
{
    match piece_next(source, dest, event) {
        PieceStep::CreateParent(_) => pieces_from(
            source,
            dest,
            pieces,
            at,
            target,
            PieceEvent::ParentCreated,
        ),
        PieceStep::OpenSource(_) => pieces_from(
            source,
            dest,
            pieces,
            at,
            target,
            PieceEvent::SourceOpened,
        ),
        PieceStep::CreateDest(_) => pieces_from(
            source,
            dest,
            pieces,
            at,
            Seq::empty(),
            PieceEvent::DestCreated,
        ),
        PieceStep::Read { .. } => pieces_from(
            source,
            dest,
            pieces,
            at,
            target,
            PieceEvent::Read(
                if at < pieces.len() {
                    pieces[at].len() as usize
                } else {
                    0
                },
            ),
        ),
        PieceStep::Write { len } => if at < pieces.len() {
            pieces_from(
                source,
                dest,
                pieces,
                at + 1,
                target + pieces[at].take(len as int),
                PieceEvent::Written,
            )
        } else {
            (target, Err(Seq::empty()))
        },
        PieceStep::Flush => pieces_from(source, dest, pieces, at, target, PieceEvent::Flushed),
        PieceStep::Finished(r) => (target, r),
    }
}

/// Whether a file can be read as `pieces`.
pub open spec fn readable(pieces: Seq<Seq<u8>>) -> bool {
    forall|i: int| 0 <= i < pieces.len() ==> 0 < (#[trigger] pieces[i]).len() <= PIECE
}

/// The pieces that are left are written behind what was written before.
proof fn pieces_left_are_written(
    source: Seq<char>,
    dest: Seq<char>,
    pieces: Seq<Seq<u8>>,
    at: int,
    target: Seq<u8>,
)
    requires
        readable(pieces),
        0 <= at <= pieces.len(),
    ensures
        pieces_from(source, dest, pieces, at, target, PieceEvent::Written) == (
            target + pieces.skip(at).flatten(),
            Ok::<(), Seq<char>>(()),
        ),
    decreases pieces.len() - at,
{
    reveal_with_fuel(pieces_from, 3);
    let rest = pieces.skip(at);
    if at < pieces.len() {
        let piece = pieces[at];
        pieces_left_are_written(source, dest, pieces, at + 1, target + piece);
        assert(piece.take(piece.len() as int) =~= piece);
        assert(rest.drop_first() =~= pieces.skip(at + 1));
        assert(rest.first() == piece);
        assert(target + piece + pieces.skip(at + 1).flatten() =~= target + rest.flatten());
    } else {
        assert(rest =~= Seq::empty());
        assert(target + rest.flatten() =~= target);
    }
}

/// Where nothing goes wrong, the target of a large file's copy holds in the end the bytes
/// that were read, all of them and in order, and nothing of what it held before.
pub proof fn large_file_is_copied_byte_for_byte(
    source: Seq<char>,
    dest: Seq<char>,
    pieces: Seq<Seq<u8>>,
    target: Seq<u8>,
    has_parent: bool,
)
    requires
        readable(pieces),
    ensures
        pieces_from(source, dest, pieces, 0, target, PieceEvent::Begin { has_parent }) == (
            pieces.flatten(),
            Ok::<(), Seq<char>>(()),
        ),
{
    reveal_with_fuel(pieces_from, 5);
    pieces_left_are_written(source, dest, pieces, 0, Seq::empty());
    assert(pieces.skip(0) =~= pieces);
    assert(Seq::<u8>::empty() + pieces.flatten() =~= pieces.flatten());
}

/// What is asked for with an entry.
pub type Wanted = EntryAction<Seq<char>>;

/// An entry that a walk through a directory comes to.
pub struct FoundEntry {
    /// Its path.
    pub path: String,
    /// Its path below the directory that is copied, if it is below it.
    pub relative: Option<String>,
    /// What it is.
    pub kind: EntryKind,
}

/// What became of an action.
pub struct Done {
    /// The action.
    pub action: EntryAction<String>,
    /// Whether it was done.
    pub result: Result<(), String>,
}

/// A directory that is walked through, and what becomes of the actions.
pub struct Walk {
    /// The entries, in order; an entry may be unreadable.
    pub entries: Seq<Option<FoundEntry>>,
    /// What becomes of an action.
    pub perform: spec_fn(Wanted) -> Done,
}

impl Walk {
    /// The event that the walk comes to the entry `at`.
    pub open spec fn reached(self, at: int) -> CopyEvent {
        match self.entries[at] {
            Some(e) => CopyEvent::Entry { path: e.path, relative: e.relative, kind: e.kind },
            None => CopyEvent::WalkFailed,
        }
    }
}

/// How much of an entry is ahead.
pub open spec fn entry_ahead(event: CopyEvent) -> int {
    match event {
        CopyEvent::Begin => 3,
        CopyEvent::Entry { .. } => 2,
        CopyEvent::Performed { .. } => 1,
        CopyEvent::Exhausted => 0,
        CopyEvent::WalkFailed => 0,
    }
}

/// The actions of copying files one by one from `event` on, and how it ends, where
/// the walk has come past its first `at` entries.
pub open spec fn copy_from(
    source: Seq<char>,
    dest: Seq<char>,
    walk: Walk,
    at: int,
    event: CopyEvent,
) -> (Seq<Wanted>, Result<(), Seq<char>>)
    decreases walk.entries.len() - at, entry_ahead(event),
{
    match copy_next(source, dest, event) {
        CopyStep::Perform(a) => {
            let done = (walk.perform)(a);
            let rest = copy_from(
                source,
                dest,
                walk,
                at,
                CopyEvent::Performed { action: done.action, result: done.result },
            );
            (seq![a] + rest.0, rest.1)
        },
        CopyStep::Finished(r) => (Seq::empty(), r),
        _ => if at < walk.entries.len() {
            copy_from(source, dest, walk, at + 1, walk.reached(at))
        } else {
            copy_from(source, dest, walk, at, CopyEvent::Exhausted)
        },
    }
}

/// The action for an entry at `relative`, if it needs one.
pub open spec fn action_for(dest: Seq<char>, e: FoundEntry) -> Option<Wanted> {
    match entry_next(e.path@, dest + "\\"@ + e.relative->Some_0@, e.kind) {
        CopyStep::Perform(a) => Some(a),
        _ => None,
    }
}

/// The actions for the entries from `at` on.
pub open spec fn actions_from(dest: Seq<char>, entries: Seq<Option<FoundEntry>>, at: int) -> Seq<
    Wanted,
>
    decreases entries.len() - at,
{
    if at >= entries.len() {
        Seq::empty()
    } else {
        let rest = actions_from(dest, entries, at + 1);
        match action_for(dest, entries[at]->Some_0) {
            Some(a) => seq![a] + rest,
            None => rest,
        }
    }
}

/// Whether the walk gets over the entry `at`.
pub open spec fn gets_over(dest: Seq<char>, walk: Walk, at: int) -> bool {
    &&& walk.entries[at] matches Some(e)
    &&& e.relative is Some
    &&& action_for(dest, e) matches Some(a) ==> (walk.perform)(a).result is Ok
}

/// Where an action puts something.
pub open spec fn target_of(a: Wanted) -> Seq<char> {
    match a {
        EntryAction::CreateDir { target } => target,
        EntryAction::CopyLarge { target, .. } => target,
        EntryAction::CopyWhole { target, .. } => target,
    }
}

/// Whether the actions put things below `dest` alone.
pub open spec fn all_below(actions: Seq<Wanted>, dest: Seq<char>) -> bool {
    forall|i: int|
        0 <= i < actions.len() ==> (dest + "\\"@).is_prefix_of(target_of(#[trigger] actions[i]))
}

/// What copying files one by one comes to from an event on that leads to the
/// next entry.
proof fn copy_goes_on(source: Seq<char>, dest: Seq<char>, walk: Walk, at: int, event: CopyEvent)
    requires
        0 <= at <= walk.entries.len(),
        copy_next(source, dest, event) is Advance || copy_next(source, dest, event) is Walk,
    ensures
        ({
            let r = copy_from(source, dest, walk, at, event);
            &&& r.1 is Ok <==> forall|k: int| at <= k < walk.entries.len() ==> #[trigger] gets_over(
                dest,
                walk,
                k,
            )
            &&& r.1 is Ok ==> r.0 == actions_from(dest, walk.entries, at)
            &&& all_below(r.0, dest)
        }),
    decreases walk.entries.len() - at,
{
    reveal_with_fuel(copy_from, 4);
    if at < walk.entries.len() {
        if let Some(e) = walk.entries[at] {
            if let Some(relative) = e.relative {
                let here = walk.reached(at);
                match action_for(dest, e) {
                    Some(a) => {
                        let done = (walk.perform)(a);
                        let next = CopyEvent::Performed {
                            action: done.action,
                            result: done.result,
                        };
                        assert(target_of(a).take((dest + "\\"@).len() as int) =~= dest + "\\"@);
                        if done.result is Ok {
                            copy_goes_on(source, dest, walk, at + 1, next);
                        } else {
                            assert(!gets_over(dest, walk, at));
                        }
                    },
                    None => {
                        copy_goes_on(source, dest, walk, at + 1, here);
                    },
                }
                if gets_over(dest, walk, at) {
                    assert forall|k: int| at <= k < walk.entries.len() && (forall|k: int|
                        at + 1 <= k < walk.entries.len() ==> #[trigger] gets_over(
                            dest,
                            walk,
                            k,
                        )) implies #[trigger] gets_over(dest, walk, k) by {}
                }
            } else {
                assert(!gets_over(dest, walk, at));
            }
        } else {
            assert(!gets_over(dest, walk, at));
        }
    }
}

/// Copying files one by one goes well exactly if every entry can be read, lies below the
/// source, and can be dealt with. Then every directory was created and every file
/// copied, in the order of the walk. Nothing is ever put anywhere but below the target.
pub proof fn files_are_copied_one_by_one(source: Seq<char>, dest: Seq<char>, walk: Walk)
    ensures
        ({
            let r = copy_from(source, dest, walk, 0, CopyEvent::Begin);
            &&& r.1 is Ok <==> forall|k: int| 0 <= k < walk.entries.len() ==> #[trigger] gets_over(
                dest,
                walk,
                k,
            )
            &&& r.1 is Ok ==> r.0 == actions_from(dest, walk.entries, 0)
            &&& all_below(r.0, dest)
        }),
{
    copy_goes_on(source, dest, walk, 0, CopyEvent::Begin);
}

/// A step of copying a directory, as the contracts speak of it.
pub type DirStep = TreeStep<Seq<char>, HostPathView, Seq<char>>;

/// Something in a directory.
pub struct DirEntry {
    /// Its name.
    pub name: String,
    /// Whether it is a directory.
    pub is_dir: bool,
}

/// A directory that is copied, and what becomes of what is asked for.
pub struct Directory {
    /// Whether it exists.
    pub exists: bool,
    /// Whether the target could be created.
    pub created: Result<(), String>,
    /// Whether the directory could be opened for reading.
    pub listed: Result<(), String>,
    /// What it holds, in order; an entry may be unreadable.
    pub entries: Seq<Result<DirEntry, String>>,
    /// Whether a file or a directory in it could be copied.
    pub perform: spec_fn(DirStep) -> Result<(), String>,
}

impl Directory {
    /// The event that the entry `at` is reached.
    pub open spec fn reached(self, at: int) -> TreeEvent {
        match self.entries[at] {
            Ok(e) => TreeEvent::Entry { name: e.name, is_dir: e.is_dir },
            Err(e) => TreeEvent::Failed(e),
        }
    }
}

/// `event`, where what was asked for was done, and the failure, where it was not.
pub open spec fn unless_failed(result: Result<(), String>, event: TreeEvent) -> TreeEvent {
    match result {
        Ok(_) => event,
        Err(e) => TreeEvent::Failed(e),
    }
}

/// How much of an entry is ahead.
pub open spec fn tree_ahead(event: TreeEvent) -> int {
    match event {
        TreeEvent::Begin => 5,
        TreeEvent::SourceChecked(_) => 4,
        TreeEvent::DestCreated => 3,
        TreeEvent::Entry { .. } => 2,
        TreeEvent::Performed => 1,
        TreeEvent::Exhausted => 0,
        TreeEvent::Failed(_) => 0,
    }
}

/// The copies of files and directories that copying a directory asks for from `event`
/// on, and how it ends, where its first `at` entries have been reached.
pub open spec fn tree_from(
    source: Seq<char>,
    dest: Seq<char>,
    dir: Directory,
    at: int,
    event: TreeEvent,
) -> (Seq<DirStep>, Result<(), Seq<char>>)
    decreases dir.entries.len() - at, tree_ahead(event),
{
    let step = tree_next(source, dest, event);
    match step {
        TreeStep::CheckExists(_) => tree_from(
            source,
            dest,
            dir,
            at,
            TreeEvent::SourceChecked(dir.exists),
        ),
        TreeStep::CreateDir(_) => tree_from(
            source,
            dest,
            dir,
            at,
            unless_failed(dir.created, TreeEvent::DestCreated),
        ),
        TreeStep::Descend { .. } | TreeStep::CopyFile { .. } => {
            let rest = tree_from(
                source,
                dest,
                dir,
                at,
                unless_failed((dir.perform)(step), TreeEvent::Performed),
            );
            (seq![step] + rest.0, rest.1)
        },
        TreeStep::Finished(r) => (Seq::empty(), r),
        _ => if step is List && dir.listed is Err {
            tree_from(source, dest, dir, at, TreeEvent::Failed(dir.listed->Err_0))
        } else if at < dir.entries.len() {
            tree_from(source, dest, dir, at + 1, dir.reached(at))
        } else {
            tree_from(source, dest, dir, at, TreeEvent::Exhausted)
        },
    }
}

/// The copy that an entry needs.
pub open spec fn copy_of(source: Seq<char>, dest: Seq<char>, e: DirEntry) -> DirStep {
    if e.is_dir {
        TreeStep::Descend { source: inside(source, e.name@), dest: inside(dest, e.name@) }
    } else {
        TreeStep::CopyFile { source: inside(source, e.name@), dest: inside(dest, e.name@) }
    }
}

/// The copies that the entries from `at` on need.
pub open spec fn copies_from(
    source: Seq<char>,
    dest: Seq<char>,
    entries: Seq<Result<DirEntry, String>>,
    at: int,
) -> Seq<DirStep>
    decreases entries.len() - at,
{
    if at >= entries.len() {
        Seq::empty()
    } else {
        seq![copy_of(source, dest, entries[at]->Ok_0)] + copies_from(source, dest, entries, at + 1)
    }
}

/// Whether the entry `at` can be read and copied.
pub open spec fn can_copy(source: Seq<char>, dest: Seq<char>, dir: Directory, at: int) -> bool {
    &&& dir.entries[at] matches Ok(e)
    &&& (dir.perform)(copy_of(source, dest, e)) is Ok
}

/// What copying a directory comes to from an event on that leads to the next entry.
proof fn tree_goes_on(source: Seq<char>, dest: Seq<char>, dir: Directory, at: int, event: TreeEvent)
    requires
        0 <= at <= dir.entries.len(),
        tree_next(source, dest, event) is Advance || (tree_next(source, dest, event) is List
            && dir.listed is Ok),
    ensures
        ({
            let r = tree_from(source, dest, dir, at, event);
            &&& r.1 is Ok <==> forall|k: int| at <= k < dir.entries.len() ==> #[trigger] can_copy(
                source,
                dest,
                dir,
                k,
            )
            &&& r.1 is Ok ==> r.0 == copies_from(source, dest, dir.entries, at)
        }),
    decreases dir.entries.len() - at,
{
    reveal_with_fuel(tree_from, 4);
    if at < dir.entries.len() {
        if can_copy(source, dest, dir, at) {
            tree_goes_on(source, dest, dir, at + 1, TreeEvent::Performed);
            assert forall|k: int| at <= k < dir.entries.len() && (forall|k: int|
                at + 1 <= k < dir.entries.len() ==> #[trigger] can_copy(
                    source,
                    dest,
                    dir,
                    k,
                )) implies #[trigger] can_copy(source, dest, dir, k) by {}
        }
    }
}

/// Copying a directory goes well exactly if there is no such directory, or if the target can
/// be created, the directory can be read, and everything in it can be read and
/// copied. Then everything in it was copied, in order, to the same name in the target.
pub proof fn directory_is_copied(source: Seq<char>, dest: Seq<char>, dir: Directory)
    ensures
        ({
            let r = tree_from(source, dest, dir, 0, TreeEvent::Begin);
            &&& r.1 is Ok <==> !dir.exists || {
                &&& dir.created is Ok
                &&& dir.listed is Ok
                &&& forall|k: int| 0 <= k < dir.entries.len() ==> #[trigger] can_copy(
                    source,
                    dest,
                    dir,
                    k,
                )
            }
            &&& r.1 is Ok ==> r.0 == if dir.exists {
                copies_from(source, dest, dir.entries, 0)
            } else {
                Seq::empty()
            }
        }),
{
    reveal_with_fuel(tree_from, 5);
    if dir.exists && dir.created is Ok && dir.listed is Ok {
        tree_goes_on(source, dest, dir, 0, TreeEvent::DestCreated);
    }
}

/// A machine on which a directory is copied with all that is below it.
pub struct Machine {
    /// How the system writes a path as a text.
    pub written: spec_fn(HostPathView) -> Seq<char>,
    /// Whether there is a directory at a path.
    pub exists: spec_fn(Seq<char>) -> bool,
    /// Whether the directory at a path could be created.
    pub created: spec_fn(Seq<char>) -> Result<(), String>,
    /// Whether the directory at a path could be opened for reading.
    pub listed: spec_fn(Seq<char>) -> Result<(), String>,
    /// What the directory at a path holds, in order; an entry may be unreadable.
    pub entries: spec_fn(Seq<char>) -> Seq<Result<DirEntry, String>>,
    /// Whether a file could be copied from one path to another.
    pub copied: spec_fn(HostPathView, HostPathView) -> Result<(), String>,
}

/// A string with the given text.
pub open spec fn string_with(text: Seq<char>) -> String {
    choose|s: String| s@ == text
}

impl Machine {
    /// What becomes of a copy that the copy of a directory asks for, where directories
    /// are gone into at most `depth` deep.
    pub open spec fn performed(self, depth: nat, step: DirStep) -> Result<(), String>
        decreases depth, 0nat,
    {
        match step {
            TreeStep::CopyFile { source, dest } => (self.copied)(source, dest),
            TreeStep::Descend { source, dest } => if depth == 0 {
                Err(string_with(Seq::empty()))
            } else {
                match self.tree_copied(
                    (depth - 1) as nat,
                    (self.written)(source),
                    (self.written)(dest),
                ).1 {
                    Ok(_) => Ok(()),
                    Err(e) => Err(string_with(e)),
                }
            },
            _ => Ok(()),
        }
    }

    /// The directory `source`, as it is copied to `dest`, where directories are gone into at
    /// most `depth` deep.
    pub open spec fn directory(self, depth: nat, source: Seq<char>, dest: Seq<char>) -> Directory
        decreases depth, 1nat,
    {
        Directory {
            exists: (self.exists)(source),
            created: (self.created)(dest),
            listed: (self.listed)(source),
            entries: (self.entries)(source),
            perform: |step: DirStep| self.performed(depth, step),
        }
    }

    /// The copies that copying the directory `source` to `dest` asks for itself, and how it
    /// ends, where directories are gone into at most `depth` deep.
    pub open spec fn tree_copied(self, depth: nat, source: Seq<char>, dest: Seq<char>) -> (
        Seq<DirStep>,
        Result<(), Seq<char>>,
    )
        decreases depth, 2nat,
    {
        tree_from(source, dest, self.directory(depth, source, dest), 0, TreeEvent::Begin)
    }

    /// Where one gets from the directory `from` through the directories `way`.
    pub open spec fn place(self, from: Seq<char>, way: Seq<Seq<char>>) -> Seq<char>
        decreases way.len(),
    {
        if way.len() == 0 {
            from
        } else {
            self.place((self.written)(inside(from, way[0])), way.drop_first())
        }
    }

    /// Whether the directory `dir` holds a directory of this name.
    pub open spec fn holds_dir(self, dir: Seq<char>, name: Seq<char>) -> bool {
        exists|k: int|
            0 <= k < (self.entries)(dir).len() && (#[trigger] (self.entries)(dir)[k] matches Ok(e)
                && e.is_dir && e.name@ == name)
    }

    /// Whether each directory on the way `way` from `from` on is there, and holds the next.
    pub open spec fn leads_on(self, from: Seq<char>, way: Seq<Seq<char>>) -> bool
        decreases way.len(),
    {
        way.len() > 0 ==> {
            &&& (self.exists)(from)
            &&& self.holds_dir(from, way[0])
            &&& self.leads_on((self.written)(inside(from, way[0])), way.drop_first())
        }
    }

    /// Whether, where there is a directory `source`, `dest` can be created, and everything in
    /// `source` can be read and its files copied to the same names in `dest`.
    pub open spec fn files_can_be_copied(self, source: Seq<char>, dest: Seq<char>) -> bool {
        (self.exists)(source) ==> {
            &&& (self.created)(dest) is Ok
            &&& (self.listed)(source) is Ok
            &&& forall|k: int|
                0 <= k < (self.entries)(source).len() ==> (#[trigger] (self.entries)(
                    source,
                )[k] matches Ok(e) && (!e.is_dir ==> (self.copied)(
                    inside(source, e.name@),
                    inside(dest, e.name@),
                ) is Ok))
        }
    }

    /// Whether directories below `from` are nested at most `depth` deep.
    pub open spec fn nested_at_most(self, from: Seq<char>, depth: nat) -> bool {
        forall|way: Seq<Seq<char>>| #[trigger] self.leads_on(from, way) ==> way.len() <= depth
    }

    /// Whether the files of every directory below `source` can be copied to the same place
    /// below `dest`.
    pub open spec fn all_can_be_copied(self, source: Seq<char>, dest: Seq<char>) -> bool {
        forall|way: Seq<Seq<char>>| #[trigger]
            self.leads_on(source, way) ==> self.files_can_be_copied(
                self.place(source, way),
                self.place(dest, way),
            )
    }
}

/// A way that begins with a directory that is there leads on as its rest does.
proof fn one_directory_on(m: Machine, from: Seq<char>, name: Seq<char>, way: Seq<Seq<char>>)
    requires
        (m.exists)(from),
        m.holds_dir(from, name),
    ensures
        m.leads_on(from, seq![name] + way) <==> m.leads_on((m.written)(inside(from, name)), way),
        m.place(from, seq![name] + way) == m.place((m.written)(inside(from, name)), way),
{
    assert((seq![name] + way).drop_first() =~= way);
}

/// A directory in a directory is nested one less deep.
proof fn nested_one_less(m: Machine, from: Seq<char>, name: Seq<char>, depth: nat)
    requires
        m.nested_at_most(from, depth),
        (m.exists)(from),
        m.holds_dir(from, name),
    ensures
        depth > 0,
        m.nested_at_most((m.written)(inside(from, name)), (depth - 1) as nat),
{
    one_directory_on(m, from, name, Seq::empty());
    assert(m.leads_on(from, seq![name] + Seq::<Seq<char>>::empty()));
    assert forall|way: Seq<Seq<char>>| #[trigger]
        m.leads_on((m.written)(inside(from, name)), way) implies way.len() <= depth - 1 by {
        one_directory_on(m, from, name, way);
        assert(m.leads_on(from, seq![name] + way));
    }
}

/// A directory is copied with all that is below it exactly if, at every depth, each
/// directory can be created, read, and its files copied, all at the same place below the
/// target as below the source.
pub proof fn tree_is_copied_exactly_if(m: Machine, depth: nat, source: Seq<char>, dest: Seq<char>)
    requires
        m.nested_at_most(source, depth),
    ensures
        m.tree_copied(depth, source, dest).1 is Ok <==> m.all_can_be_copied(source, dest),
    decreases depth,
{
    let entries = (m.entries)(source);
    let dir = m.directory(depth, source, dest);
    directory_is_copied(source, dest, dir);
    let ok = m.tree_copied(depth, source, dest).1 is Ok;
    assert(m.leads_on(source, Seq::empty()));
    if dir.exists {
        assert forall|k: int| 0 <= k < entries.len() && #[trigger] entries[k] is Ok
            && entries[k]->Ok_0.is_dir implies can_copy(source, dest, dir, k)
            == m.all_can_be_copied(
            (m.written)(inside(source, entries[k]->Ok_0.name@)),
            (m.written)(inside(dest, entries[k]->Ok_0.name@)),
        ) by {
            let name = entries[k]->Ok_0.name@;
            assert(m.holds_dir(source, name));
            nested_one_less(m, source, name, depth);
            tree_is_copied_exactly_if(
                m,
                (depth - 1) as nat,
                (m.written)(inside(source, name)),
                (m.written)(inside(dest, name)),
            );
        }
    }
    if ok {
        assert forall|way: Seq<Seq<char>>| #[trigger]
            m.leads_on(source, way) implies m.files_can_be_copied(
            m.place(source, way),
            m.place(dest, way),
        ) by {
            if way.len() == 0 {
                assert forall|k: int| dir.exists && 0 <= k < entries.len() implies (
                #[trigger] entries[k] matches Ok(e) && (!e.is_dir ==> (m.copied)(
                    inside(source, e.name@),
                    inside(dest, e.name@),
                ) is Ok)) by {
                    assert(can_copy(source, dest, dir, k));
                }
            } else {
                let k = choose|k: int|
                    0 <= k < entries.len() && (#[trigger] entries[k] matches Ok(e) && e.is_dir
                        && e.name@ == way[0]);
                assert(can_copy(source, dest, dir, k));
                let from = (m.written)(inside(source, way[0]));
                let to = (m.written)(inside(dest, way[0]));
                assert(m.all_can_be_copied(from, to));
                assert(m.leads_on(from, way.drop_first()));
                assert(m.files_can_be_copied(
                    m.place(from, way.drop_first()),
                    m.place(to, way.drop_first()),
                ));
            }
        }
    }
    if m.all_can_be_copied(source, dest) && dir.exists {
        assert(m.files_can_be_copied(m.place(source, Seq::empty()), m.place(dest, Seq::empty())));
        assert forall|k: int| 0 <= k < entries.len() implies #[trigger] can_copy(
            source,
            dest,
            dir,
            k,
        ) by {
            let e = entries[k]->Ok_0;
            assert(entries[k] is Ok);
            if e.is_dir {
                let name = e.name@;
                assert(m.holds_dir(source, name));
                let from = (m.written)(inside(source, name));
                let to = (m.written)(inside(dest, name));
                assert forall|way: Seq<Seq<char>>| #[trigger]
                    m.leads_on(from, way) implies m.files_can_be_copied(
                    m.place(from, way),
                    m.place(to, way),
                ) by {
                    one_directory_on(m, source, name, way);
                    assert((seq![name] + way).drop_first() =~= way);
                    assert(m.leads_on(source, seq![name] + way));
                }
            }
        }
    }
}

/// When a directory has been copied with all that is below it, every directory below it was
/// copied, and each of these copies asked for all that the directory holds, in order, to
/// the same names at the same place below the target.
pub proof fn tree_is_copied_in_full(
    m: Machine,
    depth: nat,
    source: Seq<char>,
    dest: Seq<char>,
    way: Seq<Seq<char>>,
)
    requires
        m.nested_at_most(source, depth),
        m.tree_copied(depth, source, dest).1 is Ok,
        m.leads_on(source, way),
        (m.exists)(m.place(source, way)),
    ensures
        way.len() <= depth,
        ({
            let from = m.place(source, way);
            let to = m.place(dest, way);
            let here = m.tree_copied((depth - way.len()) as nat, from, to);
            &&& here.1 is Ok
            &&& here.0 == copies_from(from, to, (m.entries)(from), 0)
        }),
    decreases way.len(),
{
    let entries = (m.entries)(source);
    let dir = m.directory(depth, source, dest);
    directory_is_copied(source, dest, dir);
    if way.len() > 0 {
        let name = way[0];
        let k = choose|k: int|
            0 <= k < entries.len() && (#[trigger] entries[k] matches Ok(e) && e.is_dir && e.name@
                == name);
        assert(can_copy(source, dest, dir, k));
        nested_one_less(m, source, name, depth);
        tree_is_copied_in_full(
            m,
            (depth - 1) as nat,
            (m.written)(inside(source, name)),
            (m.written)(inside(dest, name)),
            way.drop_first(),
        );
    }
}

} // verus!
