//! Where a template goes and what happens to each of its entries.
//!
//! A target that exists as a directory receives the template as a new directory
//! named after the template's source; any other target becomes the copy itself,
//! provided its parent exists. Walking the template and touching the disk is left
//! to the caller, which asks this module, entry by entry, what to do.

use vstd::prelude::*;

use crate::error::{failure_error, step_context, step_failure, IoStep, MoldyError};
use crate::paths::{
    ask_exists, ask_is_dir, file_name_of, join_path, parent_of, path_file_name, path_join,
    DiskAnswer,
    path_parent, path_strip_prefix, strip_path_prefix,
};
use crate::text::{lowercase_text, opt_text, str_lowercased, str_trimmed, trim_white_space};

verus! {

/// How a template reaches its target.
#[derive(Debug, Clone, Copy, PartialEq, Eq, Structural)]
pub enum CopyMode {
    /// The target is an existing directory: the template goes inside it, under its
    /// own name.
    IntoTarget,
    /// The target does not exist as a directory: it is created and receives the
    /// template's contents.
    CreateTarget,
}

/// The mode for a target, from whether it exists and whether it is a directory.
pub open spec fn mode_for(exists: bool, is_dir: bool) -> CopyMode {
    if exists && is_dir {
        CopyMode::IntoTarget
    } else {
        CopyMode::CreateTarget
    }
}

/// The mode for a target that exists (or not) and is a directory (or not).
pub fn copy_mode_for(exists: bool, is_dir: bool) -> (res: CopyMode)
    ensures
        res == mode_for(exists, is_dir),
{
    if exists && is_dir {
        CopyMode::IntoTarget
    } else {
        CopyMode::CreateTarget
    }
}

/// The copy mode of a target with the disk's answers it rests on.
#[derive(Debug)]
pub struct ModeCheck {
    pub mode: CopyMode,
    /// The disk's answer to whether the target exists.
    pub exists: DiskAnswer,
    /// The disk's answer to whether the target is a directory, asked only when it
    /// exists.
    pub is_dir: Option<DiskAnswer>,
}

/// What the directory question answered, `false` when it was not asked.
pub open spec fn said_directory(answer: Option<DiskAnswer>) -> bool {
    match answer {
        Some(a) => a.said(),
        None => false,
    }
}

/// Whether `check` is an answer for `target`: both questions are about the target
/// itself, the directory question is asked exactly when the target exists, and the
/// mode follows the two answers.
pub open spec fn mode_check_for(target: Seq<char>, check: ModeCheck) -> bool {
    &&& check.exists.asked() == target
    &&& !check.exists.about_directory()
    &&& (check.is_dir is Some <==> check.exists.said())
    &&& (check.is_dir matches Some(d) ==> d.asked() == target && d.about_directory())
    &&& check.mode == mode_for(check.exists.said(), said_directory(check.is_dir))
}

/// Decides the copy mode of `target` by asking the disk about the target itself.
pub fn observe_copy_mode(target: &str) -> (res: ModeCheck)
    ensures
        mode_check_for(target@, res),
{
    let exists = ask_exists(target);
    let is_dir = if exists.answer() {
        Some(ask_is_dir(target))
    } else {
        None
    };
    let dir = match &is_dir {
        Some(d) => d.answer(),
        None => false,
    };
    let mode = copy_mode_for(exists.answer(), dir);
    ModeCheck { mode, exists, is_dir }
}

/// A target the disk reports as an existing directory receives the template inside
/// it; a target the disk reports missing, or not a directory, becomes the copy.
/// Every answer the mode rests on is about the target path itself.
pub proof fn law_mode_follows_the_target(target: Seq<char>, check: ModeCheck)
    requires
        mode_check_for(target, check),
    ensures
        check.exists.asked() == target,
        check.is_dir matches Some(d) ==> d.asked() == target,
        check.exists.said() && (check.is_dir matches Some(d) && d.said()) ==> check.mode
            == CopyMode::IntoTarget,
        !check.exists.said() ==> check.mode == CopyMode::CreateTarget,
        (check.is_dir matches Some(d) && !d.said()) ==> check.mode == CopyMode::CreateTarget,
{
}

/// The mode for `target` as the disk has it, with the two answers it rests on:
/// whether the target exists, and whether it is a directory. The disk is asked
/// whether the target is a directory only when it exists; otherwise that answer is
/// `false`. The mode is `IntoTarget` for an existing directory, `CreateTarget`
/// otherwise. `observe_copy_mode` keeps the disk's answers.
pub fn determine_copy_mode(target: &str) -> (res: (CopyMode, bool, bool))
    ensures
        res.0 == mode_for(res.1, res.2),
        !res.1 ==> !res.2,
{
    let check = observe_copy_mode(target);
    let exists = check.exists.answer();
    let is_dir = match &check.is_dir {
        Some(d) => d.answer(),
        None => false,
    };
    (check.mode, exists, is_dir)
}

/// Whether a target may be used, once the disk has been asked: an existing target
/// may; otherwise its parent must exist, since only one new directory level is ever
/// created. A target without a parent is refused with the parent `.`.
pub fn depth_verdict(target_exists: bool, parent: &Option<String>, parent_exists: bool) -> (res:
    Result<(), MoldyError>)
    ensures
        target_exists ==> res is Ok,
        !target_exists && parent is None ==> (res matches Err(MoldyError::ParentDirMissing(p))
            && p@ == "."@),
        !target_exists && parent is Some && parent_exists ==> res is Ok,
        !target_exists && parent is Some && !parent_exists ==> (res matches Err(
            MoldyError::ParentDirMissing(p),
        ) && p@ == parent->Some_0@),
{
    if target_exists {
        return Ok(());
    }
    match parent {
        None => Err(MoldyError::ParentDirMissing(String::from_str("."))),
        Some(p) => {
            if parent_exists {
                Ok(())
            } else {
                Err(MoldyError::ParentDirMissing(p.clone()))
            }
        },
    }
}

/// The directory whose existence lets a missing target be created: the target's
/// parent, where an empty parent (that of a relative target of one component)
/// stands for the current directory `.`.
pub open spec fn parent_to_check(parent: Option<Seq<char>>) -> Option<Seq<char>> {
    match parent {
        Some(p) => if p.len() == 0 {
            Some("."@)
        } else {
            Some(p)
        },
        None => None,
    }
}

/// The directory to check for a target whose parent is `parent`: an empty parent
/// becomes the current directory `.`.
pub fn containing_directory(parent: Option<String>) -> (res: Option<String>)
    ensures
        opt_text(res) == parent_to_check(opt_text(parent)),
{
    match parent {
        Some(p) => if p.as_str().is_empty() {
            Some(String::from_str("."))
        } else {
            Some(p)
        },
        None => None,
    }
}

/// The directory reported missing when `target` may not be used: the directory
/// that had to exist, or `.` when the target has no parent.
pub open spec fn reported_parent(target: Seq<char>) -> Seq<char> {
    match parent_to_check(path_parent(target)) {
        Some(p) => p,
        None => "."@,
    }
}

/// The directory reported missing for a target that exists (or not), whose
/// directory to check is `parent` and exists (or not); `None` when the target may
/// be used.
pub open spec fn depth_refusal(
    target_exists: bool,
    parent: Option<Seq<char>>,
    parent_exists: bool,
) -> Option<Seq<char>> {
    if target_exists {
        None
    } else {
        match parent {
            None => Some("."@),
            Some(p) => if parent_exists {
                None
            } else {
                Some(p)
            },
        }
    }
}

/// Whether `outcome` is the answer for `refusal`: `Ok` when there is none,
/// `ParentDirMissing` with the refused directory otherwise.
pub open spec fn answers_refusal(outcome: Result<(), MoldyError>, refusal: Option<Seq<char>>) -> bool {
    match refusal {
        None => outcome is Ok,
        Some(d) => outcome matches Err(MoldyError::ParentDirMissing(p)) && p@ == d,
    }
}

/// The depth check of a target together with the disk's answers it rests on.
#[derive(Debug)]
pub struct DepthCheck {
    /// The answer of the check.
    pub outcome: Result<(), MoldyError>,
    /// Whether the target existed.
    pub target_exists: bool,
    /// The directory whose existence was asked, when the target did not exist.
    pub parent: Option<String>,
    /// Whether that directory existed.
    pub parent_exists: bool,
    /// The disk's answer to whether the target exists.
    pub target_answer: DiskAnswer,
    /// The disk's answer to whether that directory exists, when it was asked.
    pub parent_answer: Option<DiskAnswer>,
}

/// Whether `check` is a depth check of `target`: the disk was asked whether the
/// target itself exists, and, only when it did not, whether the directory holding
/// it exists; the reported answers are the disk's, and the outcome follows them.
pub open spec fn depth_check_for(target: Seq<char>, check: DepthCheck) -> bool {
    &&& check.target_answer.asked() == target
    &&& !check.target_answer.about_directory()
    &&& check.target_exists == check.target_answer.said()
    &&& (check.target_exists ==> check.parent is None)
    &&& (!check.target_exists ==> opt_text(check.parent) == parent_to_check(path_parent(target)))
    &&& (check.parent_answer is Some <==> check.parent is Some)
    &&& (check.parent_answer matches Some(a) ==> a.asked() == check.parent->Some_0@
        && !a.about_directory() && check.parent_exists == a.said())
    &&& (check.parent is None ==> !check.parent_exists)
    &&& answers_refusal(
        check.outcome,
        depth_refusal(check.target_exists, opt_text(check.parent), check.parent_exists),
    )
}

/// Checks `target` against the depth restriction and reports the disk's answers:
/// the directory to check is asked about only when the target does not exist, and
/// the answer follows `depth_verdict` from what the disk said.
pub fn inspect_depth(target: &str) -> (res: DepthCheck)
    ensures
        depth_check_for(target@, res),
        res.target_exists ==> res.parent is None,
        !res.target_exists ==> opt_text(res.parent) == parent_to_check(path_parent(target@)),
        res.parent is None ==> !res.parent_exists,
        answers_refusal(
            res.outcome,
            depth_refusal(res.target_exists, opt_text(res.parent), res.parent_exists),
        ),
{
    let target_answer = ask_exists(target);
    let target_exists = target_answer.answer();
    let parent = if target_exists {
        None
    } else {
        containing_directory(parent_of(target))
    };
    let parent_answer = match &parent {
        Some(p) => Some(ask_exists(p.as_str())),
        None => None,
    };
    let parent_exists = match &parent_answer {
        Some(a) => a.answer(),
        None => false,
    };
    let outcome = depth_verdict(target_exists, &parent, parent_exists);
    DepthCheck { outcome, target_exists, parent, parent_exists, target_answer, parent_answer }
}

/// A missing target whose holding directory the disk reports as existing always
/// passes; a refusal names the directory that had to exist, and the disk was asked
/// about exactly that directory and said it does not exist (or the target has no
/// parent at all). A target the disk reports as existing always passes.
pub proof fn law_one_level_below_an_existing_directory(target: Seq<char>, check: DepthCheck)
    requires
        depth_check_for(target, check),
    ensures
        check.target_answer.asked() == target && check.target_answer.said() ==> check.outcome is Ok,
        (check.parent_answer matches Some(a) && a.said()) ==> check.outcome is Ok,
        check.parent_answer matches Some(a) ==> a.asked() == reported_parent(target),
        check.outcome matches Err(e) ==> (e matches MoldyError::ParentDirMissing(p) && p@
            == reported_parent(target) && (check.parent_answer matches Some(a) ==> !a.said())),
{
}

/// Checks that `target` exists or that the directory holding it does (the current
/// directory for a relative target of one component). A refusal is always
/// `ParentDirMissing` with that directory (or `.` when there is none); which answer
/// comes depends on the disk, and `inspect_depth` reports the answers it rests on.
pub fn check_depth_restriction(target: &str) -> (res: Result<(), MoldyError>)
    ensures
        res matches Err(e) ==> (e matches MoldyError::ParentDirMissing(p) && p@
            == reported_parent(target@)),
{
    inspect_depth(target).outcome
}

/// How the destination directory is prepared before the template's entries go in.
#[derive(Debug, Clone, Copy, PartialEq, Eq, Structural)]
pub enum DestinationSetup {
    /// Create the directory, with its missing parents, unless it exists.
    CreateIfMissing,
    /// Create the directory, with its missing parents, in any case.
    CreateAlways,
}

impl DestinationSetup {
    /// Whether the destination directory is to be created, given whether it exists.
    pub fn creates(self, dest_exists: bool) -> (res: bool)
        ensures
            res == (self == DestinationSetup::CreateAlways || !dest_exists),
    {
        match self {
            DestinationSetup::CreateAlways => true,
            DestinationSetup::CreateIfMissing => !dest_exists,
        }
    }
}

/// Where a template's entries go, and how that directory is prepared.
#[derive(Debug)]
pub struct CopyPlan {
    pub destination: String,
    pub setup: DestinationSetup,
}

/// The destination directory of a copy in a mode, if the source can be placed.
pub open spec fn copy_destination(source: Seq<char>, target: Seq<char>, mode: CopyMode) -> Option<
    Seq<char>,
> {
    match mode {
        CopyMode::IntoTarget => match path_file_name(source) {
            Some(name) => Some(path_join(target, name)),
            None => None,
        },
        CopyMode::CreateTarget => Some(target),
    }
}

/// Places a template, whose source has the file name `name` (if any), inside the
/// existing directory `target`: under that name, created unless it exists. A source
/// without a file name cannot be placed.
pub fn plan_into(target: &str, name: Option<String>) -> (res: Result<CopyPlan, MoldyError>)
    ensures
        match name {
            Some(n) => res matches Ok(plan) && plan.destination@ == path_join(target@, n@)
                && plan.setup == DestinationSetup::CreateIfMissing,
            None => res matches Err(MoldyError::CopyError(m)) && m@ == "Source has no file name"@,
        },
{
    match name {
        Some(n) => Ok(
            CopyPlan {
                destination: join_path(target, n.as_str()),
                setup: DestinationSetup::CreateIfMissing,
            },
        ),
        None => Err(MoldyError::CopyError(String::from_str("Source has no file name"))),
    }
}

/// Plans the copy of the template at `source` to `target` in `mode`. Into an
/// existing directory, the template lands under its own name, which must exist;
/// otherwise the target itself becomes the copy.
pub fn plan_copy(source: &str, target: &str, mode: CopyMode) -> (res: Result<CopyPlan, MoldyError>)
    ensures
        match copy_destination(source@, target@, mode) {
            Some(dest) => res matches Ok(plan) && plan.destination@ == dest && plan.setup == (
            match mode {
                CopyMode::IntoTarget => DestinationSetup::CreateIfMissing,
                CopyMode::CreateTarget => DestinationSetup::CreateAlways,
            }),
            None => res matches Err(MoldyError::CopyError(m)) && m@ == "Source has no file name"@,
        },
{
    match mode {
        CopyMode::IntoTarget => plan_into(target, file_name_of(source)),
        CopyMode::CreateTarget => Ok(
            CopyPlan { destination: String::from_str(target), setup: DestinationSetup::CreateAlways },
        ),
    }
}

/// Where an entry goes, given its path relative to the template's root (or the
/// account of why that path could not be found): that relative path joined onto
/// `destination`.
pub fn place_entry(destination: &str, relative: Result<String, String>) -> (res: Result<
    String,
    MoldyError,
>)
    ensures
        match relative {
            Ok(rel) => res matches Ok(dest) && dest@ == path_join(destination@, rel@),
            Err(detail) => res matches Err(e) && step_failure(IoStep::RelativePath, detail@, e),
        },
{
    match relative {
        Ok(rel) => Ok(join_path(destination, rel.as_str())),
        Err(detail) => Err(failure_error(IoStep::RelativePath, detail.as_str())),
    }
}

/// Where the entry at `entry` of the template at `source` goes when the template's
/// contents go to `destination`: its path relative to the source, joined onto the
/// destination.
pub fn entry_destination(source: &str, destination: &str, entry: &str) -> (res: Result<
    String,
    MoldyError,
>)
    ensures
        match path_strip_prefix(entry@, source@) {
            Some(rel) => res matches Ok(dest) && dest@ == path_join(destination@, rel),
            None => res matches Err(MoldyError::CopyError(m)) && exists|detail: Seq<char>|
                m@ == #[trigger] (step_context(IoStep::RelativePath) + detail),
        },
{
    place_entry(destination, strip_path_prefix(entry, source))
}

/// What an entry of a template is, as the walk reports it without following links.
#[derive(Debug, Clone, Copy, PartialEq, Eq, Structural)]
pub enum EntryKind {
    Symlink,
    Directory,
    File,
    /// Anything else, such as a socket or a device; it is passed over.
    Other,
}

/// The kind of an entry: a link is a link first, then a directory, then a file.
pub fn entry_kind(is_symlink: bool, is_dir: bool, is_file: bool) -> (res: EntryKind)
    ensures
        res == (if is_symlink {
            EntryKind::Symlink
        } else if is_dir {
            EntryKind::Directory
        } else if is_file {
            EntryKind::File
        } else {
            EntryKind::Other
        }),
{
    if is_symlink {
        EntryKind::Symlink
    } else if is_dir {
        EntryKind::Directory
    } else if is_file {
        EntryKind::File
    } else {
        EntryKind::Other
    }
}

/// The write that an entry calls for at its destination.
#[derive(Debug, Clone, Copy, PartialEq, Eq, Structural)]
pub enum EntryAction {
    /// Create a link at the destination pointing where the entry's link points.
    RecreateSymlink,
    /// Create the destination directory, with its missing parents.
    CreateDirectory,
    /// Copy the file's contents and permissions to the destination.
    CopyFile,
    /// Nothing to write.
    Skip,
}

/// What to do for one entry: ask before overwriting, remove what is in the way,
/// then write.
#[derive(Debug, Clone, Copy, PartialEq, Eq, Structural)]
pub struct EntryPlan {
    pub confirm_overwrite: bool,
    pub remove_existing: bool,
    pub action: EntryAction,
}

/// The plan for an entry of kind `kind` whose destination exists (or not): a link
/// is recreated as a link, after confirmation and removal of what is there; a
/// directory is created unless it exists; a file is copied, after confirmation when
/// something is there; anything else is passed over.
pub open spec fn entry_plan(kind: EntryKind, dest_exists: bool) -> EntryPlan {
    match kind {
        EntryKind::Symlink => EntryPlan {
            confirm_overwrite: dest_exists,
            remove_existing: dest_exists,
            action: EntryAction::RecreateSymlink,
        },
        EntryKind::Directory => EntryPlan {
            confirm_overwrite: false,
            remove_existing: false,
            action: if dest_exists {
                EntryAction::Skip
            } else {
                EntryAction::CreateDirectory
            },
        },
        EntryKind::File => EntryPlan {
            confirm_overwrite: dest_exists,
            remove_existing: false,
            action: EntryAction::CopyFile,
        },
        EntryKind::Other => EntryPlan {
            confirm_overwrite: false,
            remove_existing: false,
            action: EntryAction::Skip,
        },
    }
}

/// How many copied files (links included) an action adds to the report.
pub open spec fn files_added(action: EntryAction) -> int {
    match action {
        EntryAction::RecreateSymlink | EntryAction::CopyFile => 1,
        _ => 0,
    }
}

/// How many created directories an action adds to the report.
pub open spec fn dirs_added(action: EntryAction) -> int {
    match action {
        EntryAction::CreateDirectory => 1,
        _ => 0,
    }
}

/// The report after one more entry.
pub open spec fn after_entry(counts: (int, int), kind: EntryKind, dest_exists: bool) -> (int, int) {
    let action = entry_plan(kind, dest_exists).action;
    (counts.0 + files_added(action), counts.1 + dirs_added(action))
}

/// The report after a sequence of entries, each given as its kind and whether its
/// destination existed.
pub open spec fn after_entries(counts: (int, int), entries: Seq<(EntryKind, bool)>) -> (int, int)
    decreases entries.len(),
{
    if entries.len() == 0 {
        counts
    } else {
        let last = entries.last();
        after_entry(after_entries(counts, entries.drop_last()), last.0, last.1)
    }
}

/// The entries that copy a file or recreate a link.
pub open spec fn files_among(entries: Seq<(EntryKind, bool)>) -> int
    decreases entries.len(),
{
    if entries.len() == 0 {
        0
    } else {
        files_among(entries.drop_last()) + match entries.last().0 {
            EntryKind::Symlink | EntryKind::File => 1int,
            _ => 0int,
        }
    }
}

/// The directory entries whose destination did not exist.
pub open spec fn new_dirs_among(entries: Seq<(EntryKind, bool)>) -> int
    decreases entries.len(),
{
    if entries.len() == 0 {
        0
    } else {
        new_dirs_among(entries.drop_last()) + if entries.last().0 == EntryKind::Directory
            && !entries.last().1 {
            1int
        } else {
            0int
        }
    }
}

/// The running report of a copy: files copied (links included) and directories
/// created.
#[derive(Debug, Clone, Copy, PartialEq, Eq, Structural)]
pub struct CopyCounts {
    pub files_copied: usize,
    pub dirs_created: usize,
}

impl CopyCounts {
    /// The report as a pair of integers.
    pub open spec fn pair(self) -> (int, int) {
        (self.files_copied as int, self.dirs_created as int)
    }

    /// A report of nothing done yet.
    pub fn new() -> (res: Self)
        ensures
            res.pair() == (0int, 0int),
    {
        CopyCounts { files_copied: 0, dirs_created: 0 }
    }

    /// Whether the report can count the next entry, of kind `kind` and whose
    /// destination exists (or not), without overflowing.
    pub fn can_step(&self, kind: EntryKind, dest_exists: bool) -> (res: bool)
        ensures
            res == (self.files_copied + files_added(entry_plan(kind, dest_exists).action)
                <= usize::MAX && self.dirs_created + dirs_added(entry_plan(kind, dest_exists).action)
                <= usize::MAX),
    {
        match kind {
            EntryKind::Symlink | EntryKind::File => self.files_copied < usize::MAX,
            EntryKind::Directory => dest_exists || self.dirs_created < usize::MAX,
            EntryKind::Other => true,
        }
    }

    /// Decides what to do for the next entry, of kind `kind` and whose destination
    /// exists (or not), and counts it. The counts hold for a copy that goes on to
    /// carry the plan out; a failed copy reports none.
    pub fn step(&mut self, kind: EntryKind, dest_exists: bool) -> (plan: EntryPlan)
        requires
            old(self).files_copied + files_added(entry_plan(kind, dest_exists).action)
                <= usize::MAX,
            old(self).dirs_created + dirs_added(entry_plan(kind, dest_exists).action)
                <= usize::MAX,
        ensures
            plan == entry_plan(kind, dest_exists),
            final(self).pair() == after_entry(old(self).pair(), kind, dest_exists),
    {
        let plan = match kind {
            EntryKind::Symlink => EntryPlan {
                confirm_overwrite: dest_exists,
                remove_existing: dest_exists,
                action: EntryAction::RecreateSymlink,
            },
            EntryKind::Directory => EntryPlan {
                confirm_overwrite: false,
                remove_existing: false,
                action: if dest_exists {
                    EntryAction::Skip
                } else {
                    EntryAction::CreateDirectory
                },
            },
            EntryKind::File => EntryPlan {
                confirm_overwrite: dest_exists,
                remove_existing: false,
                action: EntryAction::CopyFile,
            },
            EntryKind::Other => EntryPlan {
                confirm_overwrite: false,
                remove_existing: false,
                action: EntryAction::Skip,
            },
        };
        match plan.action {
            EntryAction::RecreateSymlink | EntryAction::CopyFile => {
                self.files_copied = self.files_copied + 1;
            },
            EntryAction::CreateDirectory => {
                self.dirs_created = self.dirs_created + 1;
            },
            EntryAction::Skip => {},
        }
        plan
    }
}

/// Whether an answer to the overwrite question is a yes: `y` or `yes`, in any case,
/// with surrounding white space ignored.
pub open spec fn accepts_overwrite(answer: Seq<char>) -> bool {
    let a = str_lowercased(str_trimmed(answer));
    a == "y"@ || a == "yes"@
}

/// Decides on an answer to the overwrite question once it has been trimmed and
/// lowercased: `y` or `yes` lets the copy go on, anything else cancels it.
pub fn answer_verdict(normalized: &str) -> (res: Result<(), MoldyError>)
    ensures
        normalized@ == "y"@ || normalized@ == "yes"@ ==> res is Ok,
        !(normalized@ == "y"@ || normalized@ == "yes"@) ==> (res matches Err(
            MoldyError::CopyError(m),
        ) && m@ == "User cancelled overwrite"@),
{
    let response = String::from_str(normalized);
    if response == String::from_str("y") || response == String::from_str("yes") {
        Ok(())
    } else {
        Err(MoldyError::CopyError(String::from_str("User cancelled overwrite")))
    }
}

/// Reads the answer to the overwrite question: a yes lets the copy go on, anything
/// else cancels it.
pub fn overwrite_answer(answer: &str) -> (res: Result<(), MoldyError>)
    ensures
        accepts_overwrite(answer@) ==> res is Ok,
        !accepts_overwrite(answer@) ==> (res matches Err(MoldyError::CopyError(m)) && m@
            == "User cancelled overwrite"@),
{
    let trimmed = trim_white_space(answer);
    let normalized = lowercase_text(trimmed.as_str());
    answer_verdict(normalized.as_str())
}

/// The report of a copy counts exactly the entries that copied a file or recreated
/// a link, and the directories that did not exist before.
pub proof fn law_report_counts(counts: (int, int), entries: Seq<(EntryKind, bool)>)
    ensures
        after_entries(counts, entries) == (counts.0 + files_among(entries), counts.1
            + new_dirs_among(entries)),
    decreases entries.len(),
{
    if entries.len() > 0 {
        law_report_counts(counts, entries.drop_last());
    }
}

/// Nothing at a destination is removed or written over without a confirmation, and
/// confirmation is asked only when something is there.
pub proof fn law_overwrite_needs_confirmation(kind: EntryKind, dest_exists: bool)
    ensures
        ({
            let plan = entry_plan(kind, dest_exists);
            &&& dest_exists && (plan.action == EntryAction::RecreateSymlink || plan.action
                == EntryAction::CopyFile) ==> plan.confirm_overwrite
            &&& plan.remove_existing ==> plan.confirm_overwrite
            &&& plan.confirm_overwrite ==> dest_exists
        }),
{
}

/// Links are copied as links, never through what they point at, and only links are.
pub proof fn law_links_stay_links(kind: EntryKind, dest_exists: bool)
    ensures
        (kind == EntryKind::Symlink) == (entry_plan(kind, dest_exists).action
            == EntryAction::RecreateSymlink),
{
}

/// A directory that already exists at the destination is left as it is, without a
/// question.
pub proof fn law_existing_directories_kept()
    ensures
        entry_plan(EntryKind::Directory, true) == (EntryPlan {
            confirm_overwrite: false,
            remove_existing: false,
            action: EntryAction::Skip,
        }),
{
}

/// Copying behaves like `mv`: a target that is an existing directory receives the
/// template under the source's own name; any other target becomes the template.
pub proof fn law_move_like_destination(
    source: Seq<char>,
    target: Seq<char>,
    exists: bool,
    is_dir: bool,
)
    ensures
        copy_destination(source, target, mode_for(exists, is_dir)) == if exists && is_dir {
            match path_file_name(source) {
                Some(name) => Some(path_join(target, name)),
                None => None,
            }
        } else {
            Some(target)
        },
{
}

/// A copy's report starts from nothing and counts only the template's entries:
/// the destination directory prepared before them is never counted, so the
/// directories reported are exactly the entry directories that did not exist.
pub proof fn law_destination_not_counted(entries: Seq<(EntryKind, bool)>)
    ensures
        after_entries((0int, 0int), entries) == (files_among(entries), new_dirs_among(entries)),
{
    law_report_counts((0int, 0int), entries);
}

} // verus!
