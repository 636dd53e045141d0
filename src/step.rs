//! The executable transition of [`Sup`], proved equal to [`next`].

use vstd::prelude::*;
use crate::cli::{Cli, Mode};
use crate::record::{SupState, copy_opt};
use crate::text::{is_sup_stash, DEFAULT_REMOTE, DEFAULT_BRANCH};
use crate::machine::{
    Action, Event, MergeAnalysis, Phase, Sup, SupError, init, goto, finish, fail, unexpected, abandon,
    save_then_fail, interrupted, in_progress, target_remote, target_branch, clearing,
    begin_reapply, begin_publish, after_publish, offer_drop, after_drop, after_merge, after_reset, begin_push, dispatch,
    sync_failure, reapply_failure, rejection, next, next_setup, next_sync, next_reapply,
    next_publish, next_resume, next_abort, next_end, in_setup, in_sync, in_reapply, in_publish,
    in_resume, in_abort,
};

verus! {

impl Sup {
    /// A fresh run with the given options, and its first action.
    pub fn new(cli: Cli) -> (r: (Sup, Action))
        ensures
            r == init(cli, r.0.default_remote, r.0.default_branch),
            r.0.default_remote@ == DEFAULT_REMOTE@,
            r.0.default_branch@ == DEFAULT_BRANCH@,
    {
        let version = cli.version;
        let m = Sup {
            cli,
            phase: if version { Phase::ShowingVersion } else { Phase::Locking },
            default_remote: String::from_str(DEFAULT_REMOTE),
            default_branch: String::from_str(DEFAULT_BRANCH),
            loaded: None,
            record: None,
            wrote: false,
            pending: SupState::Idle,
            failure: None,
            outcome: None,
            stash_created: false,
            stash_applied: false,
            original_head: None,
            message: None,
            branch: None,
            remote: None,
            active: false,
            reapplied: false,
            dropped: false,
        };
        (m, if version { Action::ShowVersion } else { Action::AcquireLock })
    }

    /// The machine after event `e`, and the next action.
    pub fn step(self, e: Event) -> (r: (Sup, Action))
        ensures
            r == next(self, e),
    {
        let p = self.phase;
        if p == Phase::ShowingVersion || p == Phase::Locking || p == Phase::Loading {
            self.step_setup(e)
        } else if p == Phase::Stashing || p == Phase::ReadingHead || p == Phase::ReadingBranch
            || p == Phase::Fetching || p == Phase::Analysing || p == Phase::FastForwarding
            || p == Phase::Merging || p == Phase::CheckingOut || p == Phase::SavingCheckpoint {
            self.step_sync(e)
        } else if p == Phase::ResettingIndex || p == Phase::ApplyingStash || p
            == Phase::CheckingApply || p == Phase::ConfirmingDrop || p == Phase::DroppingStash {
            self.step_reapply(e)
        } else if p == Phase::PreCommitHook || p == Phase::Staging || p == Phase::CommitMsgHook
            || p == Phase::Committing || p == Phase::ReadingPushTarget || p == Phase::PrePushHook
            || p == Phase::Pushing {
            self.step_publish(e)
        } else if p == Phase::QueryingMerge || p == Phase::CheckingMergeIndex || p
            == Phase::ReadingMergeHeads || p == Phase::CommittingMerge || p == Phase::CleaningMerge
            || p == Phase::CheckingApplied {
            self.step_resume(e)
        } else if p == Phase::Resetting || p == Phase::ReadingTopStash || p == Phase::Popping {
            self.step_abort(e)
        } else {
            self.step_end(e)
        }
    }

    /// How the run ended, once it has.
    pub fn outcome(&self) -> (r: Option<Result<(), SupError>>)
        ensures
            r == self.outcome,
    {
        match &self.outcome {
            Some(res) => match res {
                Ok(u) => Some(Ok(*u)),
                Err(e) => Some(Err(e.duplicate())),
            },
            None => None,
        }
    }

    fn go(self, p: Phase, a: Action) -> (r: (Sup, Action))
        ensures
            r == goto(self, p, a),
    {
        (Sup { phase: p, ..self }, a)
    }

    fn end(self, outcome: Result<(), SupError>) -> (r: (Sup, Action))
        ensures
            r == finish(self, outcome),
    {
        (Sup { phase: Phase::Finished, outcome: Some(outcome), ..self }, Action::Finish)
    }

    fn fail(self, err: SupError) -> (r: (Sup, Action))
        ensures
            r == fail(self, err),
    {
        self.end(Err(err))
    }

    fn git_failure(self, x: String) -> (r: (Sup, Action))
        ensures
            r == abandon(self, SupError::Git(self.phase, x)),
    {
        let p = self.phase;
        self.abandon(SupError::Git(p, x))
    }

    fn unexpected(self) -> (r: (Sup, Action))
        ensures
            r == unexpected(self),
    {
        self.abandon(SupError::UnexpectedEvent)
    }

    fn abandon(self, err: SupError) -> (r: (Sup, Action))
        ensures
            r == abandon(self, err),
    {
        if self.active {
            let s = self.interrupted(self.stash_applied || self.reapplied);
            self.save_then_fail(s, err)
        } else {
            self.fail(err)
        }
    }

    fn save_then_fail(self, s: SupState, err: SupError) -> (r: (Sup, Action))
        ensures
            r == save_then_fail(self, s, err),
    {
        let pending = s.duplicate();
        (
            Sup { phase: Phase::SavingFailure, pending, failure: Some(err), ..self },
            Action::Save(s),
        )
    }

    fn interrupted(&self, stash_applied: bool) -> (r: SupState)
        ensures
            r == interrupted(*self, stash_applied),
    {
        SupState::Interrupted {
            stash_created: self.stash_created && !self.dropped,
            stash_applied,
            original_head: copy_opt(&self.original_head),
            message: copy_opt(&self.message),
        }
    }

    fn in_progress(&self) -> (r: SupState)
        ensures
            r == in_progress(*self),
    {
        SupState::InProgress {
            stash_created: self.stash_created,
            original_head: copy_opt(&self.original_head),
            message: copy_opt(&self.message),
        }
    }

    fn target_remote(&self) -> (r: String)
        ensures
            r == target_remote(*self),
    {
        match &self.remote {
            Some(r) => r.clone(),
            None => self.default_remote.clone(),
        }
    }

    fn target_branch(&self) -> (r: String)
        ensures
            r == target_branch(*self),
    {
        match &self.branch {
            Some(b) => b.clone(),
            None => self.default_branch.clone(),
        }
    }

    fn clearing(self) -> (r: (Sup, Action))
        ensures
            r == clearing(self),
    {
        self.go(Phase::Clearing, Action::Clear)
    }

    fn begin_reapply(self) -> (r: (Sup, Action))
        ensures
            r == begin_reapply(self),
    {
        self.go(Phase::ResettingIndex, Action::ResetIndexToHead)
    }

    fn after_publish(self) -> (r: (Sup, Action))
        ensures
            r == after_publish(self),
    {
        if self.stash_created && !self.stash_applied {
            self.go(Phase::DroppingStash, Action::DropStash)
        } else {
            self.clearing()
        }
    }

    fn offer_drop(self) -> (r: (Sup, Action))
        ensures
            r == offer_drop(self),
    {
        if self.cli.yes {
            self.go(Phase::DroppingStash, Action::DropStash)
        } else {
            self.go(Phase::ConfirmingDrop, Action::ConfirmDrop)
        }
    }

    fn after_drop(self) -> (r: (Sup, Action))
        ensures
            r == after_drop(self),
    {
        if self.stash_applied {
            self.begin_publish()
        } else {
            self.clearing()
        }
    }

    fn begin_publish(self) -> (r: (Sup, Action))
        ensures
            r == begin_publish(self),
    {
        if self.message.is_some() {
            if self.cli.skip_hooks {
                self.go(Phase::Staging, Action::StageAll)
            } else {
                self.go(Phase::PreCommitHook, Action::RunPreCommitHook)
            }
        } else {
            self.after_publish()
        }
    }

    fn after_merge(self) -> (r: (Sup, Action))
        ensures
            r == after_merge(self),
    {
        if self.stash_created {
            if self.stash_applied {
                self.go(Phase::CheckingApplied, Action::CheckConflicts)
            } else {
                self.begin_reapply()
            }
        } else {
            self.begin_publish()
        }
    }

    fn after_reset(self) -> (r: (Sup, Action))
        ensures
            r == after_reset(self),
    {
        if self.stash_created {
            self.go(Phase::ReadingTopStash, Action::ReadTopStash)
        } else {
            self.clearing()
        }
    }

    fn begin_push(self) -> (r: (Sup, Action))
        ensures
            r == begin_push(self),
    {
        let remote = self.target_remote();
        if self.cli.skip_hooks {
            let branch = self.target_branch();
            self.go(Phase::Pushing, Action::Push { remote, branch })
        } else {
            self.go(Phase::PrePushHook, Action::RunPrePushHook { remote })
        }
    }

    fn dispatch(self, s: SupState) -> (r: (Sup, Action))
        ensures
            r == dispatch(self, s),
    {
        match self.cli.mode() {
            Mode::Abort => match s {
                SupState::Interrupted { stash_created, stash_applied, original_head, message } => {
                    let head = copy_opt(&original_head);
                    let m2 = Sup { stash_created, stash_applied, original_head, message, ..self };
                    match head {
                        Some(h) => m2.go(Phase::Resetting, Action::ResetHard { commit: h }),
                        None => m2.after_reset(),
                    }
                },
                _ => self.fail(SupError::NothingToAbort),
            },
            Mode::Continue => match s {
                SupState::Interrupted { stash_created, stash_applied, original_head, message } => {
                    let m2 = Sup {
                        stash_created,
                        stash_applied,
                        original_head,
                        message,
                        active: true,
                        ..self
                    };
                    m2.go(Phase::QueryingMerge, Action::QueryMerge)
                },
                _ => self.fail(SupError::NothingToContinue),
            },
            Mode::Forward => match s {
                SupState::Idle => {
                    let message = copy_opt(&self.cli.message);
                    Sup { message, ..self }.go(Phase::Stashing, Action::StashSave)
                },
                SupState::InProgress { .. } => self.fail(SupError::OperationInProgress),
                SupState::Interrupted { .. } => self.fail(SupError::OperationInterrupted),
            },
            Mode::Version => self.unexpected(),
        }
    }

    fn step_setup(self, e: Event) -> (r: (Sup, Action))
        requires
            in_setup(self.phase),
        ensures
            r == next_setup(self, e),
    {
        match self.phase {
            Phase::ShowingVersion => match e {
                Event::Done => self.end(Ok(())),
                _ => self.unexpected(),
            },
            Phase::Locking => match e {
                Event::Done => self.go(Phase::Loading, Action::LoadState),
                Event::Failed(x) => self.fail(SupError::AlreadyRunning(x)),
                _ => self.unexpected(),
            },
            _ => match e {
                Event::Loaded(s) => {
                    let l = s.duplicate();
                    let c = s.duplicate();
                    Sup { loaded: Some(l), record: Some(c), ..self }.dispatch(s)
                },
                Event::Failed(x) => self.fail(SupError::Storage(x)),
                _ => self.unexpected(),
            },
        }
    }

    fn sync_failure(self, x: String) -> (r: (Sup, Action))
        ensures
            r == sync_failure(self, x),
    {
        let s = self.interrupted(false);
        self.save_then_fail(s, SupError::SyncFailed(x))
    }

    fn step_sync(self, e: Event) -> (r: (Sup, Action))
        requires
            in_sync(self.phase),
        ensures
            r == next_sync(self, e),
    {
        match self.phase {
            Phase::Stashing => match e {
                Event::Flag(created) => Sup { stash_created: created, active: true, ..self }.go(
                    Phase::ReadingHead,
                    Action::ReadHead,
                ),
                Event::Failed(x) => self.git_failure(x),
                _ => self.unexpected(),
            },
            Phase::ReadingHead => match e {
                Event::Head(h) => Sup { original_head: h, ..self }.go(
                    Phase::ReadingBranch,
                    Action::ReadBranch,
                ),
                Event::Failed(x) => self.git_failure(x),
                _ => self.unexpected(),
            },
            Phase::ReadingBranch => match e {
                Event::Branch { name, remote } => {
                    let m2 = Sup { branch: name, remote, ..self };
                    let remote = m2.target_remote();
                    let branch = m2.target_branch();
                    m2.go(Phase::Fetching, Action::Fetch { remote, branch })
                },
                Event::Failed(x) => self.git_failure(x),
                _ => self.unexpected(),
            },
            Phase::Fetching => match e {
                Event::Done => self.go(Phase::Analysing, Action::AnalyseMerge),
                Event::Failed(x) => self.sync_failure(x),
                _ => self.unexpected(),
            },
            Phase::Analysing => match e {
                Event::Analysis(MergeAnalysis::FastForward) => {
                    let branch = self.target_branch();
                    self.go(Phase::FastForwarding, Action::FastForward { branch })
                },
                Event::Analysis(MergeAnalysis::Normal) => self.go(
                    Phase::Merging,
                    Action::NormalMerge,
                ),
                Event::Analysis(MergeAnalysis::UpToDate) => self.go(
                    Phase::CheckingOut,
                    Action::CheckoutForce,
                ),
                Event::Failed(x) => self.sync_failure(x),
                _ => self.unexpected(),
            },
            Phase::FastForwarding | Phase::Merging => match e {
                Event::Done => self.go(Phase::CheckingOut, Action::CheckoutForce),
                Event::Failed(x) => self.sync_failure(x),
                _ => self.unexpected(),
            },
            Phase::CheckingOut => match e {
                Event::Done => {
                    let s = self.in_progress();
                    self.go(Phase::SavingCheckpoint, Action::Save(s))
                },
                Event::Failed(x) => self.git_failure(x),
                _ => self.unexpected(),
            },
            _ => match e {
                Event::Done => {
                    let s = self.in_progress();
                    let m2 = Sup { record: Some(s), wrote: true, ..self };
                    if m2.stash_created {
                        m2.begin_reapply()
                    } else {
                        m2.begin_publish()
                    }
                },
                Event::Failed(x) => self.fail(SupError::Storage(x)),
                _ => self.unexpected(),
            },
        }
    }

    fn reapply_failure(self, err: SupError) -> (r: (Sup, Action))
        ensures
            r == reapply_failure(self, err),
    {
        let s = self.interrupted(true);
        self.save_then_fail(s, err)
    }

    fn step_reapply(self, e: Event) -> (r: (Sup, Action))
        requires
            in_reapply(self.phase),
        ensures
            r == next_reapply(self, e),
    {
        match self.phase {
            Phase::ResettingIndex => match e {
                Event::Done => self.go(Phase::ApplyingStash, Action::ApplyStash),
                Event::Failed(x) => self.reapply_failure(SupError::ReapplyFailed(x)),
                _ => self.unexpected(),
            },
            Phase::ApplyingStash => match e {
                Event::Done => Sup { reapplied: true, ..self }.go(
                    Phase::CheckingApply,
                    Action::CheckConflicts,
                ),
                Event::Failed(x) => self.reapply_failure(SupError::ReapplyFailed(x)),
                _ => self.unexpected(),
            },
            Phase::CheckingApply => match e {
                Event::Flag(true) => self.reapply_failure(SupError::ReapplyConflict),
                Event::Flag(false) => self.begin_publish(),
                Event::Failed(x) => self.git_failure(x),
                _ => self.unexpected(),
            },
            Phase::ConfirmingDrop => match e {
                Event::Flag(true) => self.go(Phase::DroppingStash, Action::DropStash),
                Event::Flag(false) => self.after_drop(),
                Event::Failed(x) => self.git_failure(x),
                _ => self.unexpected(),
            },
            _ => match e {
                Event::Done => Sup { dropped: true, ..self }.after_drop(),
                Event::Failed(x) => self.git_failure(x),
                _ => self.unexpected(),
            },
        }
    }

    fn rejection(self, err: SupError) -> (r: (Sup, Action))
        ensures
            r == rejection(self, err),
    {
        self.save_then_fail(SupState::Idle, err)
    }

    fn step_publish(self, e: Event) -> (r: (Sup, Action))
        requires
            in_publish(self.phase),
        ensures
            r == next_publish(self, e),
    {
        match self.phase {
            Phase::PreCommitHook => match e {
                Event::Flag(_) => self.go(Phase::Staging, Action::StageAll),
                Event::Failed(x) => self.rejection(SupError::HookRejected(x)),
                _ => self.unexpected(),
            },
            Phase::Staging => match e {
                Event::Done => match &self.message {
                    Some(msg) => {
                        let message = msg.clone();
                        self.go(Phase::CommitMsgHook, Action::RunCommitMsgHook { message })
                    },
                    None => self.unexpected(),
                },
                Event::Failed(x) => self.git_failure(x),
                _ => self.unexpected(),
            },
            Phase::CommitMsgHook => match e {
                Event::Flag(_) => match &self.message {
                    Some(msg) => {
                        let message = msg.clone();
                        self.go(Phase::Committing, Action::Commit { message })
                    },
                    None => self.unexpected(),
                },
                Event::Failed(x) => self.rejection(SupError::HookRejected(x)),
                _ => self.unexpected(),
            },
            Phase::Committing => match e {
                Event::Done => self.go(Phase::ReadingPushTarget, Action::ReadBranch),
                Event::Failed(x) => self.git_failure(x),
                _ => self.unexpected(),
            },
            Phase::ReadingPushTarget => match e {
                Event::Branch { name: Some(b), remote } => Sup {
                    branch: Some(b),
                    remote,
                    ..self
                }.begin_push(),
                Event::Branch { name: None, .. } => self.after_publish(),
                Event::Failed(x) => self.git_failure(x),
                _ => self.unexpected(),
            },
            Phase::PrePushHook => match e {
                Event::Flag(_) => {
                    let remote = self.target_remote();
                    let branch = self.target_branch();
                    self.go(Phase::Pushing, Action::Push { remote, branch })
                },
                Event::Failed(x) => self.rejection(SupError::HookRejected(x)),
                _ => self.unexpected(),
            },
            _ => match e {
                Event::Done => self.after_publish(),
                Event::Failed(x) => self.rejection(SupError::PushFailed(x)),
                _ => self.unexpected(),
            },
        }
    }

    fn step_resume(self, e: Event) -> (r: (Sup, Action))
        requires
            in_resume(self.phase),
        ensures
            r == next_resume(self, e),
    {
        match self.phase {
            Phase::QueryingMerge => match e {
                Event::Flag(true) => self.go(Phase::CheckingMergeIndex, Action::CheckConflicts),
                Event::Flag(false) => self.after_merge(),
                Event::Failed(x) => self.git_failure(x),
                _ => self.unexpected(),
            },
            Phase::CheckingMergeIndex => match e {
                Event::Flag(true) => self.fail(SupError::ConflictsRemain),
                Event::Flag(false) => self.go(Phase::ReadingMergeHeads, Action::ReadMergeHeads),
                Event::Failed(x) => self.git_failure(x),
                _ => self.unexpected(),
            },
            Phase::ReadingMergeHeads => match e {
                Event::Ids(ids) => if ids.len() == 0 {
                    self.fail(SupError::MergeHeadMissing)
                } else {
                    self.go(Phase::CommittingMerge, Action::CommitMerge { parents: ids })
                },
                Event::Failed(x) => self.git_failure(x),
                _ => self.unexpected(),
            },
            Phase::CommittingMerge => match e {
                Event::Done => self.go(Phase::CleaningMerge, Action::CleanupMerge),
                Event::Failed(x) => self.git_failure(x),
                _ => self.unexpected(),
            },
            Phase::CleaningMerge => match e {
                Event::Done => self.after_merge(),
                Event::Failed(x) => self.git_failure(x),
                _ => self.unexpected(),
            },
            _ => match e {
                Event::Flag(true) => self.fail(SupError::ConflictsRemain),
                Event::Flag(false) => self.offer_drop(),
                Event::Failed(x) => self.git_failure(x),
                _ => self.unexpected(),
            },
        }
    }

    fn step_abort(self, e: Event) -> (r: (Sup, Action))
        requires
            in_abort(self.phase),
        ensures
            r == next_abort(self, e),
    {
        match self.phase {
            Phase::Resetting => match e {
                Event::Done => self.after_reset(),
                Event::Failed(x) => self.git_failure(x),
                _ => self.unexpected(),
            },
            Phase::ReadingTopStash => match e {
                Event::TopStash(Some(msg)) => if is_sup_stash(msg.as_str()) {
                    self.go(Phase::Popping, Action::PopStash)
                } else {
                    self.clearing()
                },
                Event::TopStash(None) => self.clearing(),
                Event::Failed(_) => self.clearing(),
                _ => self.unexpected(),
            },
            _ => match e {
                Event::Done => self.clearing(),
                Event::Failed(_) => self.clearing(),
                _ => self.unexpected(),
            },
        }
    }

    fn step_end(self, e: Event) -> (r: (Sup, Action))
        requires
            !in_setup(self.phase),
            !in_sync(self.phase),
            !in_reapply(self.phase),
            !in_publish(self.phase),
            !in_resume(self.phase),
            !in_abort(self.phase),
        ensures
            r == next_end(self, e),
    {
        match self.phase {
            Phase::SavingFailure => match e {
                Event::Done => match &self.failure {
                    Some(err) => {
                        let err = err.duplicate();
                        let s = self.pending.duplicate();
                        Sup { record: Some(s), wrote: true, ..self }.end(Err(err))
                    },
                    None => self.unexpected(),
                },
                Event::Failed(x) => self.fail(SupError::Storage(x)),
                _ => self.unexpected(),
            },
            Phase::Clearing => match e {
                Event::Done => Sup { record: Some(SupState::Idle), wrote: true, ..self }.end(
                    Ok(()),
                ),
                Event::Failed(x) => self.fail(SupError::Storage(x)),
                _ => self.unexpected(),
            },
            _ => (self, Action::Finish),
        }
    }
}

} // verus!
