//! Replacing the whole content of a file so that no reader ever finds it
//! half written.
//!
//! The replacement is written to a sibling file, the live file is moved
//! aside as a backup, and the sibling is moved into its place. Each move is
//! one rename. This module decides which step comes next; the caller carries
//! the step out and reports whether it succeeded.

use vstd::prelude::*;

verus! {

/// The step that is to be carried out next, or how the replacement ended.
#[derive(Clone, Copy, Debug, PartialEq, Eq)]
pub enum Stage {
    /// Write the replacement to the temporary file.
    WriteTemp,
    /// Rename the live file to the backup file.
    BackUp,
    /// Rename the temporary file to the live file. `backed_up` tells whether
    /// the live file was moved aside before.
    Promote { backed_up: bool },
    /// Rename the backup file back to the live file, after a promotion
    /// that failed.
    Restore,
    /// Ended: the live file holds the replacement.
    Replaced,
    /// Ended: the replacement failed and the live file is as it was.
    Unchanged,
    /// Ended: the replacement failed and the live file could not be put
    /// back; its content is in the backup file.
    Stranded,
}

/// The stage that follows `stage` when its step succeeded (`ok`) or failed.
///
/// A replacement that could not be written is never promoted. The backup is
/// made on a best effort: the replacement is promoted whether or not the
/// live file could be moved aside. A promotion that fails after the live
/// file was moved aside is followed by an attempt to move it back.
pub open spec fn next(stage: Stage, ok: bool) -> Stage {
    match stage {
        Stage::WriteTemp => if ok {
            Stage::BackUp
        } else {
            Stage::Unchanged
        },
        Stage::BackUp => Stage::Promote { backed_up: ok },
        Stage::Promote { backed_up } => if ok {
            Stage::Replaced
        } else if backed_up {
            Stage::Restore
        } else {
            Stage::Unchanged
        },
        Stage::Restore => if ok {
            Stage::Unchanged
        } else {
            Stage::Stranded
        },
        Stage::Replaced => Stage::Replaced,
        Stage::Unchanged => Stage::Unchanged,
        Stage::Stranded => Stage::Stranded,
    }
}

/// Whether the replacement has ended at `stage`.
pub open spec fn ended(stage: Stage) -> bool {
    stage is Replaced || stage is Unchanged || stage is Stranded
}

/// The stage at which every replacement begins.
pub fn begin() -> (stage: Stage)
    ensures
        stage == Stage::WriteTemp,
{
    Stage::WriteTemp
}

/// The stage that follows `stage`, given whether its step succeeded.
pub fn next_stage(stage: Stage, ok: bool) -> (following: Stage)
    ensures
        following == next(stage, ok),
{
    match stage {
        Stage::WriteTemp => if ok {
            Stage::BackUp
        } else {
            Stage::Unchanged
        },
        Stage::BackUp => Stage::Promote { backed_up: ok },
        Stage::Promote { backed_up } => if ok {
            Stage::Replaced
        } else if backed_up {
            Stage::Restore
        } else {
            Stage::Unchanged
        },
        Stage::Restore => if ok {
            Stage::Unchanged
        } else {
            Stage::Stranded
        },
        Stage::Replaced => Stage::Replaced,
        Stage::Unchanged => Stage::Unchanged,
        Stage::Stranded => Stage::Stranded,
    }
}

/// Whether the replacement has ended at `stage`.
pub fn is_ended(stage: Stage) -> (yes: bool)
    ensures
        yes == ended(stage),
{
    match stage {
        Stage::Replaced => true,
        Stage::Unchanged => true,
        Stage::Stranded => true,
        _ => false,
    }
}

/// What the caller is to do on the file system. Text fields hold file paths.
#[derive(Debug, PartialEq, Eq)]
pub enum Command {
    /// Create or truncate the file at `path`, write the whole replacement
    /// to it, flush it and close it.
    Write { path: String },
    /// Rename the file at `from` to `to`.
    Rename { from: String, to: String },
    /// Nothing: the replacement has ended.
    Stop,
}

/// The value of a command.
pub enum CommandView {
    Write { path: Seq<char> },
    Rename { from: Seq<char>, to: Seq<char> },
    Stop,
}

impl View for Command {
    type V = CommandView;

    open spec fn view(&self) -> CommandView {
        match self {
            Command::Write { path } => CommandView::Write { path: path@ },
            Command::Rename { from, to } => CommandView::Rename { from: from@, to: to@ },
            Command::Stop => CommandView::Stop,
        }
    }
}

/// The path of the temporary file beside the live file at `path`.
pub open spec fn temp_path(path: Seq<char>) -> Seq<char> {
    path + ".tmp"@
}

/// The path of the backup file beside the live file at `path`.
pub open spec fn backup_path(path: Seq<char>) -> Seq<char> {
    path + ".bak"@
}

/// The command of `stage` for the live file at `path`.
pub open spec fn command_of(stage: Stage, path: Seq<char>) -> CommandView {
    match stage {
        Stage::WriteTemp => CommandView::Write { path: temp_path(path) },
        Stage::BackUp => CommandView::Rename { from: path, to: backup_path(path) },
        Stage::Promote { .. } => CommandView::Rename { from: temp_path(path), to: path },
        Stage::Restore => CommandView::Rename { from: backup_path(path), to: path },
        _ => CommandView::Stop,
    }
}

/// The path `path` with `suffix` behind it.
fn beside(path: &str, suffix: &str) -> (sibling: String)
    ensures
        sibling@ == path@ + suffix@,
{
    let mut sibling = path.to_owned();
    sibling.push_str(suffix);
    sibling
}

/// The command of `stage` for the live file at `path`.
pub fn command(stage: Stage, path: &str) -> (cmd: Command)
    ensures
        cmd@ == command_of(stage, path@),
{
    match stage {
        Stage::WriteTemp => Command::Write { path: beside(path, ".tmp") },
        Stage::BackUp => Command::Rename { from: path.to_owned(), to: beside(path, ".bak") },
        Stage::Promote { backed_up: _ } => Command::Rename {
            from: beside(path, ".tmp"),
            to: path.to_owned(),
        },
        Stage::Restore => Command::Rename { from: beside(path, ".bak"), to: path.to_owned() },
        _ => Command::Stop,
    }
}

/// What the three files hold: the live file, the temporary file and the
/// backup file. `None` stands for a file that does not exist.
pub struct Files {
    pub live: Option<Seq<u8>>,
    pub temp: Option<Seq<u8>>,
    pub backup: Option<Seq<u8>>,
}

/// Whether the step of `stage` can end as `ok` says when the files are as
/// `files` says: a rename succeeds only if its source exists.
pub open spec fn can_end(stage: Stage, files: Files, ok: bool) -> bool {
    ok ==> match stage {
        Stage::BackUp => files.live.is_some(),
        Stage::Promote { .. } => files.temp.is_some(),
        Stage::Restore => files.backup.is_some(),
        _ => true,
    }
}

/// The files after the step of `stage` was tried on `files`.
///
/// A write that succeeds leaves `content` in the temporary file; one that
/// fails leaves `debris` there, which may be anything. A rename that
/// succeeds moves the source over the target; one that fails changes
/// nothing.
pub open spec fn effect(
    stage: Stage,
    files: Files,
    ok: bool,
    content: Seq<u8>,
    debris: Option<Seq<u8>>,
) -> Files {
    match stage {
        Stage::WriteTemp => Files {
            temp: if ok {
                Some(content)
            } else {
                debris
            },
            ..files
        },
        Stage::BackUp => if ok {
            Files { live: None, backup: files.live, ..files }
        } else {
            files
        },
        Stage::Promote { .. } => if ok {
            Files { live: files.temp, temp: None, ..files }
        } else {
            files
        },
        Stage::Restore => if ok {
            Files { live: files.backup, backup: None, ..files }
        } else {
            files
        },
        _ => files,
    }
}

/// What holds of the files when `stage` is next, in a replacement of
/// `previous` by `content`.
pub open spec fn consistent(
    stage: Stage,
    files: Files,
    previous: Option<Seq<u8>>,
    content: Seq<u8>,
) -> bool {
    match stage {
        Stage::WriteTemp => files.live == previous,
        Stage::BackUp => files.live == previous && files.temp == Some(content),
        Stage::Promote { backed_up } => if backed_up {
            files.live.is_none() && files.backup == previous && files.temp == Some(content)
        } else {
            files.live == previous && files.temp == Some(content)
        },
        Stage::Restore => files.live.is_none() && files.backup == previous,
        Stage::Replaced => files.live == Some(content),
        Stage::Unchanged => files.live == previous,
        Stage::Stranded => files.live.is_none() && files.backup == previous,
    }
}

/// One step of a replacement as the file system saw it: whether it
/// succeeded, and what a failed write left behind.
pub struct Outcome {
    pub ok: bool,
    pub debris: Option<Seq<u8>>,
}

/// Whether the outcomes can follow one another from `stage` on `files`.
pub open spec fn can_run(stage: Stage, files: Files, outcomes: Seq<Outcome>, content: Seq<u8>) -> bool
    decreases outcomes.len(),
{
    outcomes.len() > 0 ==> {
        let first = outcomes[0];
        &&& can_end(stage, files, first.ok)
        &&& can_run(
            next(stage, first.ok),
            effect(stage, files, first.ok, content, first.debris),
            outcomes.skip(1),
            content,
        )
    }
}

/// The stage and the files after the given outcomes, from `stage` on
/// `files`.
pub open spec fn run(stage: Stage, files: Files, outcomes: Seq<Outcome>, content: Seq<u8>) -> (
    Stage,
    Files,
)
    decreases outcomes.len(),
{
    if outcomes.len() == 0 {
        (stage, files)
    } else {
        let first = outcomes[0];
        run(
            next(stage, first.ok),
            effect(stage, files, first.ok, content, first.debris),
            outcomes.skip(1),
            content,
        )
    }
}

/// Every step keeps the files consistent with the stage.
pub proof fn lemma_step_keeps_consistent(
    stage: Stage,
    files: Files,
    previous: Option<Seq<u8>>,
    content: Seq<u8>,
    outcome: Outcome,
)
    requires
        consistent(stage, files, previous, content),
        can_end(stage, files, outcome.ok),
    ensures
        consistent(
            next(stage, outcome.ok),
            effect(stage, files, outcome.ok, content, outcome.debris),
            previous,
            content,
        ),
{
}

/// Atomicity. However a replacement runs and wherever it stops, the live
/// file is never half written: it holds what it held before, or it holds the
/// whole replacement, or it is absent and the backup file holds what it held
/// before. A write that failed may leave anything in the temporary file and
/// still leaves the live file as it was.
pub proof fn lemma_never_half_written(files: Files, content: Seq<u8>, outcomes: Seq<Outcome>)
    requires
        can_run(Stage::WriteTemp, files, outcomes, content),
    ensures
        ({
            let (stage, after) = run(Stage::WriteTemp, files, outcomes, content);
            &&& consistent(stage, after, files.live, content)
            &&& after.live == files.live || after.live == Some(content) || (after.live.is_none()
                && after.backup == files.live)
        }),
{
    lemma_run_keeps_consistent(Stage::WriteTemp, files, files.live, content, outcomes);
}

/// A run keeps the files consistent with the stage.
pub proof fn lemma_run_keeps_consistent(
    stage: Stage,
    files: Files,
    previous: Option<Seq<u8>>,
    content: Seq<u8>,
    outcomes: Seq<Outcome>,
)
    requires
        consistent(stage, files, previous, content),
        can_run(stage, files, outcomes, content),
    ensures
        consistent(
            run(stage, files, outcomes, content).0,
            run(stage, files, outcomes, content).1,
            previous,
            content,
        ),
    decreases outcomes.len(),
{
    if outcomes.len() > 0 {
        let first = outcomes[0];
        lemma_step_keeps_consistent(stage, files, previous, content, first);
        lemma_run_keeps_consistent(
            next(stage, first.ok),
            effect(stage, files, first.ok, content, first.debris),
            previous,
            content,
            outcomes.skip(1),
        );
    }
}

/// A replacement that stops before its promotion succeeded has not touched
/// what the live file held: it is still the content of the live file, or,
/// once the live file was moved aside, the content of the backup file, with
/// no live file in between.
pub proof fn lemma_interrupted_keeps_previous(
    files: Files,
    content: Seq<u8>,
    outcomes: Seq<Outcome>,
)
    requires
        can_run(Stage::WriteTemp, files, outcomes, content),
        !(run(Stage::WriteTemp, files, outcomes, content).0 is Replaced),
    ensures
        ({
            let (stage, after) = run(Stage::WriteTemp, files, outcomes, content);
            let moved_aside = stage == (Stage::Promote { backed_up: true }) || stage is Restore
                || stage is Stranded;
            if moved_aside {
                after.live.is_none() && after.backup == files.live
            } else {
                after.live == files.live
            }
        }),
{
    lemma_run_keeps_consistent(Stage::WriteTemp, files, files.live, content, outcomes);
}

/// The replacement is promoted only when it was written in full: whenever
/// the promotion is next, the temporary file holds the whole replacement.
pub proof fn lemma_promotes_only_complete(
    files: Files,
    content: Seq<u8>,
    outcomes: Seq<Outcome>,
)
    requires
        can_run(Stage::WriteTemp, files, outcomes, content),
        run(Stage::WriteTemp, files, outcomes, content).0 is Promote,
    ensures
        run(Stage::WriteTemp, files, outcomes, content).1.temp == Some(content),
{
    lemma_run_keeps_consistent(Stage::WriteTemp, files, files.live, content, outcomes);
}

} // verus!
