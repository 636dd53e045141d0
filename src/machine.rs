//! The resumable operation state machine.
//!
//! A run is driven from outside: [`Sup::new`] gives the first [`Action`], the
//! driver performs it on the repository (or on the record store, the lock,
//! the hooks or the terminal) and reports what happened as an [`Event`], and
//! [`Sup::step`] gives the next action, until [`Action::Finish`]. Every
//! decision of the pipelines (forward, `--continue`, `--abort`) is taken here;
//! the driver only performs.

use vstd::prelude::*;
use crate::cli::{Cli, Mode};
use crate::record::SupState;
use crate::text::{has_suffix, stash_marker};

verus! {

/// What the merge analysis of the fetched commit found.
#[derive(Debug, Clone, Copy, PartialEq, Eq, Structural)]
pub enum MergeAnalysis {
    FastForward,
    Normal,
    UpToDate,
}

/// What the driver reports after performing an [`Action`].
#[derive(Debug)]
pub enum Event {
    /// The action completed and has nothing to report.
    Done,
    /// The action failed, with a description.
    Failed(String),
    /// A yes/no answer: a stash was created, conflicts are present, a merge
    /// is in progress, a hook was present and passed, the user confirmed.
    Flag(bool),
    /// The persisted record as loaded (`Idle` when there is none).
    Loaded(SupState),
    /// The commit the branch points to, if it has one.
    Head(Option<String>),
    /// The current branch, if HEAD is on one, and the remote it tracks.
    Branch { name: Option<String>, remote: Option<String> },
    /// The result of the merge analysis.
    Analysis(MergeAnalysis),
    /// The commits recorded by the merge in progress.
    Ids(Vec<String>),
    /// The message of the most recent stash entry, if there is one.
    TopStash(Option<String>),
}

/// The next thing the driver must do.
#[derive(Debug)]
pub enum Action {
    /// Print the version; then `Done`.
    ShowVersion,
    /// Take the lock atomically; `Done`, or `Failed` when it is held.
    AcquireLock,
    /// Read the persisted record; `Loaded`, or `Failed` when it is unreadable.
    LoadState,
    /// Replace the persisted record atomically; `Done` or `Failed`.
    Save(SupState),
    /// Remove the persisted record; `Done` or `Failed`.
    Clear,
    /// Stash local changes, untracked files included, under
    /// [`crate::text::STASH_MESSAGE`]; `Flag(created)`, `Flag(false)` when
    /// there was nothing to stash.
    StashSave,
    /// Read the branch tip; `Head`.
    ReadHead,
    /// Read the current branch and its tracked remote; `Branch`.
    ReadBranch,
    /// Fetch `branch` of `remote` into its tracking reference; `Done`.
    Fetch { remote: String, branch: String },
    /// Analyse how the fetched commit merges into HEAD; `Analysis`.
    AnalyseMerge,
    /// Move `branch` to the fetched commit and check it out; `Done`.
    FastForward { branch: String },
    /// Merge the fetched commit into HEAD with a merge commit; `Done`, or
    /// `Failed` when it conflicts (conflict markers are left in the tree).
    NormalMerge,
    /// Check out HEAD with force; `Done`.
    CheckoutForce,
    /// Reset the index to HEAD (mixed); `Done`.
    ResetIndexToHead,
    /// Apply the most recent stash entry without dropping it; `Done`.
    ApplyStash,
    /// Scan the status for conflicted entries; `Flag(conflicted)`.
    CheckConflicts,
    /// Run the pre-commit hook; `Flag(ran)` when it passed or is absent.
    RunPreCommitHook,
    /// Stage every change; `Done`.
    StageAll,
    /// Run the commit-msg hook on a file holding `message`; `Flag(ran)`.
    RunCommitMsgHook { message: String },
    /// Commit the index with HEAD as sole parent; `Done`.
    Commit { message: String },
    /// Run the pre-push hook with the remote's name; `Flag(ran)`.
    RunPrePushHook { remote: String },
    /// Push `branch` to `remote` under the same name; `Done`.
    Push { remote: String, branch: String },
    /// Drop the most recent stash entry; `Done`.
    DropStash,
    /// Ask whether the already applied stash may be dropped; `Flag(yes)`.
    ConfirmDrop,
    /// Ask whether a merge is in progress; `Flag(in_progress)`.
    QueryMerge,
    /// Read the commits recorded by the merge in progress; `Ids`.
    ReadMergeHeads,
    /// Commit the index with HEAD and `parents` as parents; `Done`.
    CommitMerge { parents: Vec<String> },
    /// Remove the merge-in-progress marker; `Done`.
    CleanupMerge,
    /// Reset the branch, index and tree hard to `commit`; `Done`.
    ResetHard { commit: String },
    /// Read the most recent stash entry; `TopStash`.
    ReadTopStash,
    /// Pop the most recent stash entry; `Done`, or `Failed` (reported, not
    /// fatal).
    PopStash,
    /// The run is over; its outcome is [`Sup::outcome`].
    Finish,
}

/// Why a run failed.
#[derive(Debug)]
pub enum SupError {
    /// Another run holds the lock.
    AlreadyRunning(String),
    /// The persisted record could not be read or written.
    Storage(String),
    /// `--abort` without an interrupted operation.
    NothingToAbort,
    /// `--continue` without an interrupted operation.
    NothingToContinue,
    /// A forward run while another run is in progress or crashed.
    OperationInProgress,
    /// A forward run while an operation is interrupted.
    OperationInterrupted,
    /// Fetching or merging the remote failed, conflicts included.
    SyncFailed(String),
    /// The stash could not be reapplied.
    ReapplyFailed(String),
    /// Reapplying the stash left conflicts.
    ReapplyConflict,
    /// Conflicts are still present.
    ConflictsRemain,
    /// A merge is in progress but records no commit to merge.
    MergeHeadMissing,
    /// A hook rejected the commit or the push.
    HookRejected(String),
    /// The push failed.
    PushFailed(String),
    /// Another repository operation failed, in the given step.
    Git(Phase, String),
    /// The driver reported an event that does not answer the last action.
    UnexpectedEvent,
}

impl SupError {
    /// The failures after which the operation can be continued or aborted.
    pub open spec fn spec_is_resumable(self) -> bool {
        ||| self is SyncFailed
        ||| self is ReapplyFailed
        ||| self is ReapplyConflict
    }

    /// The failures of the commit and publish step, after which the record
    /// is reset to `Idle`.
    pub open spec fn spec_is_rejection(self) -> bool {
        self is HookRejected || self is PushFailed
    }

    /// A copy of the error, equal to it.
    pub fn duplicate(&self) -> (r: SupError)
        ensures
            r == *self,
    {
        match self {
            SupError::AlreadyRunning(s) => SupError::AlreadyRunning(s.clone()),
            SupError::Storage(s) => SupError::Storage(s.clone()),
            SupError::NothingToAbort => SupError::NothingToAbort,
            SupError::NothingToContinue => SupError::NothingToContinue,
            SupError::OperationInProgress => SupError::OperationInProgress,
            SupError::OperationInterrupted => SupError::OperationInterrupted,
            SupError::SyncFailed(s) => SupError::SyncFailed(s.clone()),
            SupError::ReapplyFailed(s) => SupError::ReapplyFailed(s.clone()),
            SupError::ReapplyConflict => SupError::ReapplyConflict,
            SupError::ConflictsRemain => SupError::ConflictsRemain,
            SupError::MergeHeadMissing => SupError::MergeHeadMissing,
            SupError::HookRejected(s) => SupError::HookRejected(s.clone()),
            SupError::PushFailed(s) => SupError::PushFailed(s.clone()),
            SupError::Git(p, s) => SupError::Git(*p, s.clone()),
            SupError::UnexpectedEvent => SupError::UnexpectedEvent,
        }
    }
}

/// Where a run stands: which action it waits on.
#[derive(Debug, Clone, Copy, PartialEq, Eq, Structural)]
pub enum Phase {
    ShowingVersion,
    Locking,
    Loading,
    // forward: stash, synchronise, checkpoint
    Stashing,
    ReadingHead,
    ReadingBranch,
    Fetching,
    Analysing,
    FastForwarding,
    Merging,
    CheckingOut,
    SavingCheckpoint,
    // reapplying the stash
    ResettingIndex,
    ApplyingStash,
    CheckingApply,
    DroppingStash,
    ConfirmingDrop,
    // commit and publish
    PreCommitHook,
    Staging,
    CommitMsgHook,
    Committing,
    ReadingPushTarget,
    PrePushHook,
    Pushing,
    // continue
    QueryingMerge,
    CheckingMergeIndex,
    ReadingMergeHeads,
    CommittingMerge,
    CleaningMerge,
    CheckingApplied,
    // abort
    Resetting,
    ReadingTopStash,
    Popping,
    // the end
    SavingFailure,
    Clearing,
    Finished,
}

/// One run of the orchestrator.
#[derive(Debug)]
pub struct Sup {
    /// The options of the run.
    pub cli: Cli,
    /// The action the run waits on.
    pub phase: Phase,
    /// The remote used when the branch tracks none.
    pub default_remote: String,
    /// The branch used when HEAD is on none.
    pub default_branch: String,
    /// The record as loaded at the start of the run.
    pub loaded: Option<SupState>,
    /// The persisted record as this run last saw or wrote it.
    pub record: Option<SupState>,
    /// Whether this run has written the record.
    pub wrote: bool,
    /// The record being written in `SavingFailure`.
    pub pending: SupState,
    /// The failure reported once `pending` is written.
    pub failure: Option<SupError>,
    /// How the run ended, once `Finished`.
    pub outcome: Option<Result<(), SupError>>,
    /// Whether local changes were stashed by this operation.
    pub stash_created: bool,
    /// Whether the stash was already reapplied (continue and abort only).
    pub stash_applied: bool,
    /// The branch tip before the operation.
    pub original_head: Option<String>,
    /// The commit message of the operation.
    pub message: Option<String>,
    /// The current branch, once read.
    pub branch: Option<String>,
    /// The remote that the current branch tracks, once read.
    pub remote: Option<String>,
    /// Whether the operation has begun: a failure from here on is written
    /// down as `Interrupted` so that it can be continued or aborted.
    pub active: bool,
    /// Whether this run has applied the stash to the tree.
    pub reapplied: bool,
    /// Whether this run has dropped the stash.
    pub dropped: bool,
}

// ---------------------------------------------------------------------------
// The transition function

/// The machine of a fresh run with the given options and defaults, and its
/// first action.
pub open spec fn init(cli: Cli, default_remote: String, default_branch: String) -> (Sup, Action) {
    let m = Sup {
        cli,
        phase: if cli.version { Phase::ShowingVersion } else { Phase::Locking },
        default_remote,
        default_branch,
        loaded: None,
        record: None,
        wrote: false,
        pending: SupState::Idle,
        failure: None,
        outcome: None,
        stash_created: false,
        stash_applied: false,
        original_head: None,
        message: None,
        branch: None,
        remote: None,
        active: false,
        reapplied: false,
        dropped: false,
    };
    (m, if cli.version { Action::ShowVersion } else { Action::AcquireLock })
}

/// Wait on `a` in phase `p`.
pub open spec fn goto(m: Sup, p: Phase, a: Action) -> (Sup, Action) {
    (Sup { phase: p, ..m }, a)
}

/// End the run with `outcome`.
pub open spec fn finish(m: Sup, outcome: Result<(), SupError>) -> (Sup, Action) {
    (Sup { phase: Phase::Finished, outcome: Some(outcome), ..m }, Action::Finish)
}

/// End the run with `err`, leaving the record as it is.
pub open spec fn fail(m: Sup, err: SupError) -> (Sup, Action) {
    finish(m, Err(err))
}

/// An event that does not answer the last action ends the run.
pub open spec fn unexpected(m: Sup) -> (Sup, Action) {
    abandon(m, SupError::UnexpectedEvent)
}

/// End the run with `err`; once the operation has begun, first record it as
/// `Interrupted`, with the stash marked applied where it is in the tree.
pub open spec fn abandon(m: Sup, err: SupError) -> (Sup, Action) {
    if m.active {
        save_then_fail(m, interrupted(m, m.stash_applied || m.reapplied), err)
    } else {
        fail(m, err)
    }
}

/// Write `s`, then end the run with `err`.
pub open spec fn save_then_fail(m: Sup, s: SupState, err: SupError) -> (Sup, Action) {
    (Sup { phase: Phase::SavingFailure, pending: s, failure: Some(err), ..m }, Action::Save(s))
}

/// The record of this operation stopped at a recoverable point.
pub open spec fn interrupted(m: Sup, stash_applied: bool) -> SupState {
    SupState::Interrupted {
        stash_created: m.stash_created && !m.dropped,
        stash_applied,
        original_head: m.original_head,
        message: m.message,
    }
}

/// The checkpoint record of this operation.
pub open spec fn in_progress(m: Sup) -> SupState {
    SupState::InProgress {
        stash_created: m.stash_created,
        original_head: m.original_head,
        message: m.message,
    }
}

/// The remote that fetch and push address.
pub open spec fn target_remote(m: Sup) -> String {
    match m.remote {
        Some(r) => r,
        None => m.default_remote,
    }
}

/// The branch that fetch and push address.
pub open spec fn target_branch(m: Sup) -> String {
    match m.branch {
        Some(b) => b,
        None => m.default_branch,
    }
}

/// Remove the record; success follows.
pub open spec fn clearing(m: Sup) -> (Sup, Action) {
    goto(m, Phase::Clearing, Action::Clear)
}

/// Reapply the stash: reset the index, then apply.
pub open spec fn begin_reapply(m: Sup) -> (Sup, Action) {
    goto(m, Phase::ResettingIndex, Action::ResetIndexToHead)
}

/// Commit and publish when a message was given; else go on.
pub open spec fn begin_publish(m: Sup) -> (Sup, Action) {
    match m.message {
        Some(_) => if m.cli.skip_hooks {
            goto(m, Phase::Staging, Action::StageAll)
        } else {
            goto(m, Phase::PreCommitHook, Action::RunPreCommitHook)
        },
        None => after_publish(m),
    }
}

/// After commit and publish: drop the stash unless an earlier run had
/// already applied it (then it was dealt with before), then clear the record.
pub open spec fn after_publish(m: Sup) -> (Sup, Action) {
    if m.stash_created && !m.stash_applied {
        goto(m, Phase::DroppingStash, Action::DropStash)
    } else {
        clearing(m)
    }
}

/// Offer to drop a stash that an earlier run already applied: at once with
/// `--yes`, else after asking.
pub open spec fn offer_drop(m: Sup) -> (Sup, Action) {
    if m.cli.yes {
        goto(m, Phase::DroppingStash, Action::DropStash)
    } else {
        goto(m, Phase::ConfirmingDrop, Action::ConfirmDrop)
    }
}

/// After the stash is dropped (or kept): commit and publish where the
/// stash had been applied by an earlier run, else clear the record.
pub open spec fn after_drop(m: Sup) -> (Sup, Action) {
    if m.stash_applied {
        begin_publish(m)
    } else {
        clearing(m)
    }
}

/// What `--continue` does once no merge is in progress.
pub open spec fn after_merge(m: Sup) -> (Sup, Action) {
    if m.stash_created {
        if m.stash_applied {
            goto(m, Phase::CheckingApplied, Action::CheckConflicts)
        } else {
            begin_reapply(m)
        }
    } else {
        begin_publish(m)
    }
}

/// What `--abort` does once the branch is reset.
pub open spec fn after_reset(m: Sup) -> (Sup, Action) {
    if m.stash_created {
        goto(m, Phase::ReadingTopStash, Action::ReadTopStash)
    } else {
        clearing(m)
    }
}

/// Push, after the pre-push hook unless hooks are skipped.
pub open spec fn begin_push(m: Sup) -> (Sup, Action) {
    if m.cli.skip_hooks {
        goto(m, Phase::Pushing, Action::Push { remote: target_remote(m), branch: target_branch(m) })
    } else {
        goto(m, Phase::PrePushHook, Action::RunPrePushHook { remote: target_remote(m) })
    }
}

/// Choose the pipeline once the record `s` is loaded.
pub open spec fn dispatch(m: Sup, s: SupState) -> (Sup, Action) {
    match m.cli.spec_mode() {
        Mode::Abort => match s {
            SupState::Interrupted { stash_created, stash_applied, original_head, message } => {
                let m2 = Sup { stash_created, stash_applied, original_head, message, ..m };
                match original_head {
                    Some(h) => goto(m2, Phase::Resetting, Action::ResetHard { commit: h }),
                    None => after_reset(m2),
                }
            },
            _ => fail(m, SupError::NothingToAbort),
        },
        Mode::Continue => match s {
            SupState::Interrupted { stash_created, stash_applied, original_head, message } => {
                let m2 = Sup {
                    stash_created,
                    stash_applied,
                    original_head,
                    message,
                    active: true,
                    ..m
                };
                goto(m2, Phase::QueryingMerge, Action::QueryMerge)
            },
            _ => fail(m, SupError::NothingToContinue),
        },
        Mode::Forward => match s {
            SupState::Idle => goto(
                Sup { message: m.cli.message, ..m },
                Phase::Stashing,
                Action::StashSave,
            ),
            SupState::InProgress { .. } => fail(m, SupError::OperationInProgress),
            SupState::Interrupted { .. } => fail(m, SupError::OperationInterrupted),
        },
        Mode::Version => unexpected(m),
    }
}

/// Start of a run: version, lock, record.
pub open spec fn next_setup(m: Sup, e: Event) -> (Sup, Action) {
    match m.phase {
        Phase::ShowingVersion => match e {
            Event::Done => finish(m, Ok(())),
            _ => unexpected(m),
        },
        Phase::Locking => match e {
            Event::Done => goto(m, Phase::Loading, Action::LoadState),
            Event::Failed(x) => fail(m, SupError::AlreadyRunning(x)),
            _ => unexpected(m),
        },
        Phase::Loading => match e {
            Event::Loaded(s) => dispatch(Sup { loaded: Some(s), record: Some(s), ..m }, s),
            Event::Failed(x) => fail(m, SupError::Storage(x)),
            _ => unexpected(m),
        },
        _ => unexpected(m),
    }
}

/// A failure of the synchronisation: record the interruption, stash not
/// yet reapplied.
pub open spec fn sync_failure(m: Sup, x: String) -> (Sup, Action) {
    save_then_fail(m, interrupted(m, false), SupError::SyncFailed(x))
}

/// Forward run: stash, read the checkpoint, synchronise, write the checkpoint.
pub open spec fn next_sync(m: Sup, e: Event) -> (Sup, Action) {
    match m.phase {
        Phase::Stashing => match e {
            Event::Flag(created) => goto(
                Sup { stash_created: created, active: true, ..m },
                Phase::ReadingHead,
                Action::ReadHead,
            ),
            Event::Failed(x) => abandon(m, SupError::Git(m.phase, x)),
            _ => unexpected(m),
        },
        Phase::ReadingHead => match e {
            Event::Head(h) => goto(
                Sup { original_head: h, ..m },
                Phase::ReadingBranch,
                Action::ReadBranch,
            ),
            Event::Failed(x) => abandon(m, SupError::Git(m.phase, x)),
            _ => unexpected(m),
        },
        Phase::ReadingBranch => match e {
            Event::Branch { name, remote } => {
                let m2 = Sup { branch: name, remote, ..m };
                goto(
                    m2,
                    Phase::Fetching,
                    Action::Fetch { remote: target_remote(m2), branch: target_branch(m2) },
                )
            },
            Event::Failed(x) => abandon(m, SupError::Git(m.phase, x)),
            _ => unexpected(m),
        },
        Phase::Fetching => match e {
            Event::Done => goto(m, Phase::Analysing, Action::AnalyseMerge),
            Event::Failed(x) => sync_failure(m, x),
            _ => unexpected(m),
        },
        Phase::Analysing => match e {
            Event::Analysis(MergeAnalysis::FastForward) => goto(
                m,
                Phase::FastForwarding,
                Action::FastForward { branch: target_branch(m) },
            ),
            Event::Analysis(MergeAnalysis::Normal) => goto(m, Phase::Merging, Action::NormalMerge),
            Event::Analysis(MergeAnalysis::UpToDate) => goto(
                m,
                Phase::CheckingOut,
                Action::CheckoutForce,
            ),
            Event::Failed(x) => sync_failure(m, x),
            _ => unexpected(m),
        },
        Phase::FastForwarding | Phase::Merging => match e {
            Event::Done => goto(m, Phase::CheckingOut, Action::CheckoutForce),
            Event::Failed(x) => sync_failure(m, x),
            _ => unexpected(m),
        },
        Phase::CheckingOut => match e {
            Event::Done => goto(m, Phase::SavingCheckpoint, Action::Save(in_progress(m))),
            Event::Failed(x) => abandon(m, SupError::Git(m.phase, x)),
            _ => unexpected(m),
        },
        Phase::SavingCheckpoint => match e {
            Event::Done => {
                let m2 = Sup { record: Some(in_progress(m)), wrote: true, ..m };
                if m.stash_created {
                    begin_reapply(m2)
                } else {
                    begin_publish(m2)
                }
            },
            Event::Failed(x) => fail(m, SupError::Storage(x)),
            _ => unexpected(m),
        },
        _ => unexpected(m),
    }
}

/// A failure to reapply the stash: record the interruption, stash kept.
pub open spec fn reapply_failure(m: Sup, err: SupError) -> (Sup, Action) {
    save_then_fail(m, interrupted(m, true), err)
}

/// Reapplying and dropping the stash.
pub open spec fn next_reapply(m: Sup, e: Event) -> (Sup, Action) {
    match m.phase {
        Phase::ResettingIndex => match e {
            Event::Done => goto(m, Phase::ApplyingStash, Action::ApplyStash),
            Event::Failed(x) => reapply_failure(m, SupError::ReapplyFailed(x)),
            _ => unexpected(m),
        },
        Phase::ApplyingStash => match e {
            Event::Done => goto(
                Sup { reapplied: true, ..m },
                Phase::CheckingApply,
                Action::CheckConflicts,
            ),
            Event::Failed(x) => reapply_failure(m, SupError::ReapplyFailed(x)),
            _ => unexpected(m),
        },
        Phase::CheckingApply => match e {
            Event::Flag(true) => reapply_failure(m, SupError::ReapplyConflict),
            Event::Flag(false) => begin_publish(m),
            Event::Failed(x) => abandon(m, SupError::Git(m.phase, x)),
            _ => unexpected(m),
        },
        Phase::ConfirmingDrop => match e {
            Event::Flag(true) => goto(m, Phase::DroppingStash, Action::DropStash),
            Event::Flag(false) => after_drop(m),
            Event::Failed(x) => abandon(m, SupError::Git(m.phase, x)),
            _ => unexpected(m),
        },
        Phase::DroppingStash => match e {
            Event::Done => after_drop(Sup { dropped: true, ..m }),
            Event::Failed(x) => abandon(m, SupError::Git(m.phase, x)),
            _ => unexpected(m),
        },
        _ => unexpected(m),
    }
}

/// A rejection of the commit or the push resets the record to `Idle`.
pub open spec fn rejection(m: Sup, err: SupError) -> (Sup, Action) {
    save_then_fail(m, SupState::Idle, err)
}

/// Commit and publish.
pub open spec fn next_publish(m: Sup, e: Event) -> (Sup, Action) {
    match m.phase {
        Phase::PreCommitHook => match e {
            Event::Flag(_) => goto(m, Phase::Staging, Action::StageAll),
            Event::Failed(x) => rejection(m, SupError::HookRejected(x)),
            _ => unexpected(m),
        },
        Phase::Staging => match (e, m.message) {
            (Event::Done, Some(msg)) => goto(
                m,
                Phase::CommitMsgHook,
                Action::RunCommitMsgHook { message: msg },
            ),
            (Event::Failed(x), _) => abandon(m, SupError::Git(m.phase, x)),
            _ => unexpected(m),
        },
        Phase::CommitMsgHook => match (e, m.message) {
            (Event::Flag(_), Some(msg)) => goto(m, Phase::Committing, Action::Commit { message: msg }),
            (Event::Failed(x), _) => rejection(m, SupError::HookRejected(x)),
            _ => unexpected(m),
        },
        Phase::Committing => match e {
            Event::Done => goto(m, Phase::ReadingPushTarget, Action::ReadBranch),
            Event::Failed(x) => abandon(m, SupError::Git(m.phase, x)),
            _ => unexpected(m),
        },
        Phase::ReadingPushTarget => match e {
            Event::Branch { name: Some(b), remote } => begin_push(
                Sup { branch: Some(b), remote, ..m },
            ),
            Event::Branch { name: None, .. } => after_publish(m),
            Event::Failed(x) => abandon(m, SupError::Git(m.phase, x)),
            _ => unexpected(m),
        },
        Phase::PrePushHook => match e {
            Event::Flag(_) => goto(
                m,
                Phase::Pushing,
                Action::Push { remote: target_remote(m), branch: target_branch(m) },
            ),
            Event::Failed(x) => rejection(m, SupError::HookRejected(x)),
            _ => unexpected(m),
        },
        Phase::Pushing => match e {
            Event::Done => after_publish(m),
            Event::Failed(x) => rejection(m, SupError::PushFailed(x)),
            _ => unexpected(m),
        },
        _ => unexpected(m),
    }
}

/// `--continue`: finish the merge in progress, then reapply or check.
pub open spec fn next_resume(m: Sup, e: Event) -> (Sup, Action) {
    match m.phase {
        Phase::QueryingMerge => match e {
            Event::Flag(true) => goto(m, Phase::CheckingMergeIndex, Action::CheckConflicts),
            Event::Flag(false) => after_merge(m),
            Event::Failed(x) => abandon(m, SupError::Git(m.phase, x)),
            _ => unexpected(m),
        },
        Phase::CheckingMergeIndex => match e {
            Event::Flag(true) => fail(m, SupError::ConflictsRemain),
            Event::Flag(false) => goto(m, Phase::ReadingMergeHeads, Action::ReadMergeHeads),
            Event::Failed(x) => abandon(m, SupError::Git(m.phase, x)),
            _ => unexpected(m),
        },
        Phase::ReadingMergeHeads => match e {
            Event::Ids(ids) => if ids.len() == 0 {
                fail(m, SupError::MergeHeadMissing)
            } else {
                goto(m, Phase::CommittingMerge, Action::CommitMerge { parents: ids })
            },
            Event::Failed(x) => abandon(m, SupError::Git(m.phase, x)),
            _ => unexpected(m),
        },
        Phase::CommittingMerge => match e {
            Event::Done => goto(m, Phase::CleaningMerge, Action::CleanupMerge),
            Event::Failed(x) => abandon(m, SupError::Git(m.phase, x)),
            _ => unexpected(m),
        },
        Phase::CleaningMerge => match e {
            Event::Done => after_merge(m),
            Event::Failed(x) => abandon(m, SupError::Git(m.phase, x)),
            _ => unexpected(m),
        },
        Phase::CheckingApplied => match e {
            Event::Flag(true) => fail(m, SupError::ConflictsRemain),
            Event::Flag(false) => offer_drop(m),
            Event::Failed(x) => abandon(m, SupError::Git(m.phase, x)),
            _ => unexpected(m),
        },
        _ => unexpected(m),
    }
}

/// `--abort`: reset, restore the stash of this tool, clear.
pub open spec fn next_abort(m: Sup, e: Event) -> (Sup, Action) {
    match m.phase {
        Phase::Resetting => match e {
            Event::Done => after_reset(m),
            Event::Failed(x) => abandon(m, SupError::Git(m.phase, x)),
            _ => unexpected(m),
        },
        Phase::ReadingTopStash => match e {
            Event::TopStash(Some(msg)) => if has_suffix(msg@, stash_marker()) {
                goto(m, Phase::Popping, Action::PopStash)
            } else {
                clearing(m)
            },
            Event::TopStash(None) => clearing(m),
            Event::Failed(_) => clearing(m),
            _ => unexpected(m),
        },
        Phase::Popping => match e {
            Event::Done => clearing(m),
            Event::Failed(_) => clearing(m),
            _ => unexpected(m),
        },
        _ => unexpected(m),
    }
}

/// Writing the last record of the run.
pub open spec fn next_end(m: Sup, e: Event) -> (Sup, Action) {
    match m.phase {
        Phase::SavingFailure => match (e, m.failure) {
            (Event::Done, Some(err)) => finish(
                Sup { record: Some(m.pending), wrote: true, ..m },
                Err(err),
            ),
            (Event::Failed(x), _) => fail(m, SupError::Storage(x)),
            _ => unexpected(m),
        },
        Phase::Clearing => match e {
            Event::Done => finish(Sup { record: Some(SupState::Idle), wrote: true, ..m }, Ok(())),
            Event::Failed(x) => fail(m, SupError::Storage(x)),
            _ => unexpected(m),
        },
        _ => (m, Action::Finish),
    }
}

/// The phases of each group.
pub open spec fn in_setup(p: Phase) -> bool {
    p is ShowingVersion || p is Locking || p is Loading
}

pub open spec fn in_sync(p: Phase) -> bool {
    ||| p is Stashing
    ||| p is ReadingHead
    ||| p is ReadingBranch
    ||| p is Fetching
    ||| p is Analysing
    ||| p is FastForwarding
    ||| p is Merging
    ||| p is CheckingOut
    ||| p is SavingCheckpoint
}

pub open spec fn in_reapply(p: Phase) -> bool {
    ||| p is ResettingIndex
    ||| p is ApplyingStash
    ||| p is CheckingApply
    ||| p is ConfirmingDrop
    ||| p is DroppingStash
}

pub open spec fn in_publish(p: Phase) -> bool {
    ||| p is PreCommitHook
    ||| p is Staging
    ||| p is CommitMsgHook
    ||| p is Committing
    ||| p is ReadingPushTarget
    ||| p is PrePushHook
    ||| p is Pushing
}

pub open spec fn in_resume(p: Phase) -> bool {
    ||| p is QueryingMerge
    ||| p is CheckingMergeIndex
    ||| p is ReadingMergeHeads
    ||| p is CommittingMerge
    ||| p is CleaningMerge
    ||| p is CheckingApplied
}

pub open spec fn in_abort(p: Phase) -> bool {
    p is Resetting || p is ReadingTopStash || p is Popping
}

/// The machine after event `e`, and the next action.
pub open spec fn next(m: Sup, e: Event) -> (Sup, Action) {
    if in_setup(m.phase) {
        next_setup(m, e)
    } else if in_sync(m.phase) {
        next_sync(m, e)
    } else if in_reapply(m.phase) {
        next_reapply(m, e)
    } else if in_publish(m.phase) {
        next_publish(m, e)
    } else if in_resume(m.phase) {
        next_resume(m, e)
    } else if in_abort(m.phase) {
        next_abort(m, e)
    } else {
        next_end(m, e)
    }
}

} // verus!
