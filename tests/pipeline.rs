use sup::cli::Cli;
use sup::machine::{Action, Event, MergeAnalysis, Phase, Sup, SupError};
use sup::record::SupState;

fn options(continue_operation: bool, abort: bool, message: Option<&str>) -> Cli {
    Cli {
        continue_operation,
        abort,
        version: false,
        message: message.map(|m| m.to_string()),
        yes: false,
        skip_hooks: false,
    }
}

fn drive(cli: Cli, events: Vec<Event>) -> (Sup, Vec<Action>) {
    let (mut m, first) = Sup::new(cli);
    let mut actions = vec![first];
    for e in events {
        let (next, a) = m.step(e);
        m = next;
        actions.push(a);
    }
    (m, actions)
}

fn s(text: &str) -> String {
    text.to_string()
}

fn branch() -> Event {
    Event::Branch { name: Some(s("master")), remote: Some(s("origin")) }
}

fn is_stash_restore(a: &Action) -> bool {
    matches!(
        a,
        Action::ResetIndexToHead
            | Action::ApplyStash
            | Action::DropStash
            | Action::ConfirmDrop
            | Action::ReadTopStash
            | Action::PopStash
    )
}

fn interrupted(stash_applied: bool) -> SupState {
    SupState::Interrupted {
        stash_created: true,
        stash_applied,
        original_head: Some(s("abc123")),
        message: None,
    }
}

#[test]
fn clean_tree_fast_forward_ends_idle() {
    let (m, actions) = drive(
        options(false, false, None),
        vec![
            Event::Done,
            Event::Loaded(SupState::Idle),
            Event::Flag(false),
            Event::Head(Some(s("abc123"))),
            branch(),
            Event::Done,
            Event::Analysis(MergeAnalysis::FastForward),
            Event::Done,
            Event::Done,
            Event::Done,
            Event::Done,
        ],
    );
    assert!(matches!(actions[0], Action::AcquireLock));
    assert!(matches!(actions[1], Action::LoadState));
    assert!(matches!(actions[2], Action::StashSave));
    assert!(matches!(actions[3], Action::ReadHead));
    assert!(matches!(actions[4], Action::ReadBranch));
    match &actions[5] {
        Action::Fetch { remote, branch } => {
            assert_eq!(remote, "origin");
            assert_eq!(branch, "master");
        }
        other => panic!("unexpected {:?}", other),
    }
    assert!(matches!(actions[6], Action::AnalyseMerge));
    assert!(matches!(&actions[7], Action::FastForward { branch } if branch == "master"));
    assert!(matches!(actions[8], Action::CheckoutForce));
    assert!(matches!(
        &actions[9],
        Action::Save(SupState::InProgress { stash_created: false, original_head: Some(h), message: None }) if h == "abc123"
    ));
    assert!(matches!(actions[10], Action::Clear));
    assert!(matches!(actions[11], Action::Finish));
    assert!(actions.iter().all(|a| !is_stash_restore(a)));
    assert!(matches!(m.outcome, Some(Ok(()))));
    assert!(matches!(m.record, Some(SupState::Idle)));
    assert_eq!(m.phase, Phase::Finished);
}

#[test]
fn local_edit_is_reapplied_after_unrelated_remote_edit() {
    let (m, actions) = drive(
        options(false, false, None),
        vec![
            Event::Done,
            Event::Loaded(SupState::Idle),
            Event::Flag(true),
            Event::Head(Some(s("abc123"))),
            branch(),
            Event::Done,
            Event::Analysis(MergeAnalysis::FastForward),
            Event::Done,
            Event::Done,
            Event::Done,
            Event::Done,
            Event::Done,
            Event::Flag(false),
            Event::Done,
            Event::Done,
        ],
    );
    assert!(matches!(
        &actions[9],
        Action::Save(SupState::InProgress { stash_created: true, .. })
    ));
    assert!(matches!(actions[10], Action::ResetIndexToHead));
    assert!(matches!(actions[11], Action::ApplyStash));
    assert!(matches!(actions[12], Action::CheckConflicts));
    assert!(matches!(actions[13], Action::DropStash));
    assert!(matches!(actions[14], Action::Clear));
    assert!(matches!(actions[15], Action::Finish));
    assert!(matches!(m.outcome, Some(Ok(()))));
    assert!(matches!(m.record, Some(SupState::Idle)));
}

#[test]
fn conflicting_merge_interrupts_and_abort_restores() {
    let (m, actions) = drive(
        options(false, false, None),
        vec![
            Event::Done,
            Event::Loaded(SupState::Idle),
            Event::Flag(true),
            Event::Head(Some(s("abc123"))),
            branch(),
            Event::Done,
            Event::Analysis(MergeAnalysis::Normal),
            Event::Failed(s("merge conflicts")),
            Event::Done,
        ],
    );
    assert!(matches!(actions[7], Action::NormalMerge));
    assert!(matches!(
        &actions[8],
        Action::Save(SupState::Interrupted { stash_created: true, stash_applied: false, original_head: Some(h), message: None }) if h == "abc123"
    ));
    assert!(matches!(&m.outcome, Some(Err(SupError::SyncFailed(x))) if x == "merge conflicts"));
    assert!(matches!(m.record, Some(SupState::Interrupted { .. })));

    let (m, actions) = drive(
        options(false, true, None),
        vec![
            Event::Done,
            Event::Loaded(interrupted(false)),
            Event::Done,
            Event::TopStash(Some(s("On master: sup stash"))),
            Event::Done,
            Event::Done,
        ],
    );
    assert!(matches!(&actions[2], Action::ResetHard { commit } if commit == "abc123"));
    assert!(matches!(actions[3], Action::ReadTopStash));
    assert!(matches!(actions[4], Action::PopStash));
    assert!(matches!(actions[5], Action::Clear));
    assert!(matches!(m.outcome, Some(Ok(()))));
    assert!(matches!(m.record, Some(SupState::Idle)));
}

#[test]
fn abort_leaves_a_foreign_stash_alone() {
    let (m, actions) = drive(
        options(false, true, None),
        vec![
            Event::Done,
            Event::Loaded(interrupted(false)),
            Event::Done,
            Event::TopStash(Some(s("WIP on master: something else"))),
            Event::Done,
        ],
    );
    assert!(matches!(actions[4], Action::Clear));
    assert!(!actions.iter().any(|a| matches!(a, Action::PopStash)));
    assert!(matches!(m.outcome, Some(Ok(()))));
}

#[test]
fn abort_clears_even_when_the_pop_fails() {
    let (m, actions) = drive(
        options(false, true, None),
        vec![
            Event::Done,
            Event::Loaded(interrupted(false)),
            Event::Done,
            Event::TopStash(Some(s("sup stash"))),
            Event::Failed(s("conflict")),
            Event::Done,
        ],
    );
    assert!(matches!(actions[5], Action::Clear));
    assert!(matches!(m.outcome, Some(Ok(()))));
    assert!(matches!(m.record, Some(SupState::Idle)));
}

#[test]
fn abort_without_head_or_stash_only_clears() {
    let record = SupState::Interrupted {
        stash_created: false,
        stash_applied: false,
        original_head: None,
        message: None,
    };
    let (m, actions) = drive(
        options(false, true, None),
        vec![Event::Done, Event::Loaded(record), Event::Done],
    );
    assert!(matches!(actions[2], Action::Clear));
    assert!(matches!(m.outcome, Some(Ok(()))));
}

#[test]
fn reapply_conflict_then_continue_does_not_reapply() {
    let (m, actions) = drive(
        options(false, false, None),
        vec![
            Event::Done,
            Event::Loaded(SupState::Idle),
            Event::Flag(true),
            Event::Head(Some(s("abc123"))),
            branch(),
            Event::Done,
            Event::Analysis(MergeAnalysis::FastForward),
            Event::Done,
            Event::Done,
            Event::Done,
            Event::Done,
            Event::Done,
            Event::Flag(true),
            Event::Done,
        ],
    );
    assert!(matches!(
        &actions[13],
        Action::Save(SupState::Interrupted { stash_created: true, stash_applied: true, .. })
    ));
    assert!(matches!(m.outcome, Some(Err(SupError::ReapplyConflict))));
    assert!(matches!(
        m.record,
        Some(SupState::Interrupted { stash_applied: true, .. })
    ));

    let (m, actions) = drive(
        options(true, false, None),
        vec![
            Event::Done,
            Event::Loaded(interrupted(true)),
            Event::Flag(false),
            Event::Flag(false),
            Event::Flag(true),
            Event::Done,
            Event::Done,
        ],
    );
    assert!(matches!(actions[2], Action::QueryMerge));
    assert!(matches!(actions[3], Action::CheckConflicts));
    assert!(matches!(actions[4], Action::ConfirmDrop));
    assert!(matches!(actions[5], Action::DropStash));
    assert!(matches!(actions[6], Action::Clear));
    assert!(!actions.iter().any(|a| matches!(a, Action::ApplyStash)));
    assert!(matches!(m.outcome, Some(Ok(()))));
    assert!(matches!(m.record, Some(SupState::Idle)));
}

#[test]
fn continue_with_yes_drops_without_asking() {
    let mut cli = options(true, false, None);
    cli.yes = true;
    let (m, actions) = drive(
        cli,
        vec![
            Event::Done,
            Event::Loaded(interrupted(true)),
            Event::Flag(false),
            Event::Flag(false),
            Event::Done,
            Event::Done,
        ],
    );
    assert!(matches!(actions[4], Action::DropStash));
    assert!(!actions.iter().any(|a| matches!(a, Action::ConfirmDrop)));
    assert!(matches!(m.outcome, Some(Ok(()))));
}

#[test]
fn continue_keeps_the_stash_when_the_user_declines() {
    let (m, actions) = drive(
        options(true, false, None),
        vec![
            Event::Done,
            Event::Loaded(interrupted(true)),
            Event::Flag(false),
            Event::Flag(false),
            Event::Flag(false),
            Event::Done,
        ],
    );
    assert!(matches!(actions[5], Action::Clear));
    assert!(!actions.iter().any(|a| matches!(a, Action::DropStash)));
    assert!(matches!(m.outcome, Some(Ok(()))));
}

#[test]
fn continue_finishes_merge_then_reapplies_and_publishes() {
    let record = SupState::Interrupted {
        stash_created: true,
        stash_applied: false,
        original_head: Some(s("abc123")),
        message: Some(s("commit message")),
    };
    let (m, actions) = drive(
        options(true, false, None),
        vec![
            Event::Done,
            Event::Loaded(record),
            Event::Flag(true),
            Event::Flag(false),
            Event::Ids(vec![s("def456")]),
            Event::Done,
            Event::Done,
            Event::Done,
            Event::Done,
            Event::Flag(false),
            Event::Flag(true),
            Event::Done,
            Event::Flag(true),
            Event::Done,
            branch(),
            Event::Flag(true),
            Event::Done,
            Event::Done,
            Event::Done,
        ],
    );
    assert!(matches!(actions[2], Action::QueryMerge));
    assert!(matches!(actions[3], Action::CheckConflicts));
    assert!(matches!(actions[4], Action::ReadMergeHeads));
    assert!(matches!(&actions[5], Action::CommitMerge { parents } if parents.len() == 1 && parents[0] == "def456"));
    assert!(matches!(actions[6], Action::CleanupMerge));
    assert!(matches!(actions[7], Action::ResetIndexToHead));
    assert!(matches!(actions[8], Action::ApplyStash));
    assert!(matches!(actions[9], Action::CheckConflicts));
    assert!(matches!(actions[10], Action::RunPreCommitHook));
    assert!(matches!(actions[11], Action::StageAll));
    assert!(matches!(&actions[12], Action::RunCommitMsgHook { message } if message == "commit message"));
    assert!(matches!(&actions[13], Action::Commit { message } if message == "commit message"));
    assert!(matches!(actions[14], Action::ReadBranch));
    assert!(matches!(&actions[15], Action::RunPrePushHook { remote } if remote == "origin"));
    assert!(matches!(&actions[16], Action::Push { remote, branch } if remote == "origin" && branch == "master"));
    assert!(matches!(actions[17], Action::DropStash));
    assert!(matches!(actions[18], Action::Clear));
    assert!(matches!(actions[19], Action::Finish));
    assert!(matches!(m.outcome, Some(Ok(()))));
}

#[test]
fn pre_push_rejection_resets_record_to_idle() {
    let (m, actions) = drive(
        options(false, false, Some("commit message")),
        vec![
            Event::Done,
            Event::Loaded(SupState::Idle),
            Event::Flag(true),
            Event::Head(Some(s("abc123"))),
            branch(),
            Event::Done,
            Event::Analysis(MergeAnalysis::UpToDate),
            Event::Done,
            Event::Done,
            Event::Done,
            Event::Done,
            Event::Flag(false),
            Event::Flag(false),
            Event::Done,
            Event::Flag(false),
            Event::Done,
            branch(),
            Event::Failed(s("exit code 1")),
            Event::Done,
        ],
    );
    assert!(matches!(
        &actions[8],
        Action::Save(SupState::InProgress { message: Some(msg), .. }) if msg == "commit message"
    ));
    assert!(matches!(actions[12], Action::RunPreCommitHook));
    assert!(matches!(&actions[15], Action::Commit { message } if message == "commit message"));
    assert!(matches!(actions[17], Action::RunPrePushHook { .. }));
    assert!(matches!(actions[18], Action::Save(SupState::Idle)));
    assert!(!actions.iter().any(|a| matches!(a, Action::Push { .. })));
    assert!(matches!(&m.outcome, Some(Err(SupError::HookRejected(x))) if x == "exit code 1"));
    assert!(matches!(m.record, Some(SupState::Idle)));
}

#[test]
fn pre_commit_rejection_resets_record_to_idle() {
    let (m, actions) = drive(
        options(false, false, Some("msg")),
        vec![
            Event::Done,
            Event::Loaded(SupState::Idle),
            Event::Flag(false),
            Event::Head(None),
            Event::Branch { name: None, remote: None },
            Event::Done,
            Event::Analysis(MergeAnalysis::UpToDate),
            Event::Done,
            Event::Done,
            Event::Failed(s("exit code 1")),
            Event::Done,
        ],
    );
    match &actions[5] {
        Action::Fetch { remote, branch } => {
            assert_eq!(remote, "origin");
            assert_eq!(branch, "master");
        }
        other => panic!("unexpected {:?}", other),
    }
    assert!(matches!(actions[9], Action::RunPreCommitHook));
    assert!(matches!(actions[10], Action::Save(SupState::Idle)));
    assert!(matches!(m.outcome, Some(Err(SupError::HookRejected(_)))));
    assert!(matches!(m.record, Some(SupState::Idle)));
}

#[test]
fn skipped_hooks_go_straight_to_staging_and_push() {
    let mut cli = options(false, false, Some("msg"));
    cli.skip_hooks = true;
    let (m, actions) = drive(
        cli,
        vec![
            Event::Done,
            Event::Loaded(SupState::Idle),
            Event::Flag(false),
            Event::Head(Some(s("abc123"))),
            Event::Branch { name: Some(s("main")), remote: Some(s("upstream")) },
            Event::Done,
            Event::Analysis(MergeAnalysis::UpToDate),
            Event::Done,
            Event::Done,
            Event::Done,
            Event::Flag(false),
            Event::Done,
            Event::Branch { name: Some(s("main")), remote: Some(s("upstream")) },
            Event::Failed(s("rejected")),
            Event::Done,
        ],
    );
    assert!(matches!(&actions[5], Action::Fetch { remote, branch } if remote == "upstream" && branch == "main"));
    assert!(matches!(actions[9], Action::StageAll));
    assert!(matches!(&actions[13], Action::Push { remote, branch } if remote == "upstream" && branch == "main"));
    assert!(!actions.iter().any(|a| matches!(a, Action::RunPreCommitHook | Action::RunPrePushHook { .. })));
    assert!(matches!(actions[14], Action::Save(SupState::Idle)));
    assert!(matches!(&m.outcome, Some(Err(SupError::PushFailed(x))) if x == "rejected"));
}

#[test]
fn version_only_shows_the_version() {
    let mut cli = options(true, true, None);
    cli.version = true;
    let (m, actions) = drive(cli, vec![Event::Done]);
    assert!(matches!(actions[0], Action::ShowVersion));
    assert!(matches!(actions[1], Action::Finish));
    assert!(matches!(m.outcome, Some(Ok(()))));
    assert!(m.record.is_none());
}

#[test]
fn held_lock_fails_before_anything_else() {
    let (m, actions) = drive(options(false, false, None), vec![Event::Failed(s("exists"))]);
    assert!(matches!(actions[1], Action::Finish));
    assert!(matches!(&m.outcome, Some(Err(SupError::AlreadyRunning(x))) if x == "exists"));
    assert!(m.record.is_none());
}

#[test]
fn unreadable_record_is_a_storage_error() {
    let (m, _) = drive(
        options(false, false, None),
        vec![Event::Done, Event::Failed(s("bad json"))],
    );
    assert!(matches!(&m.outcome, Some(Err(SupError::Storage(x))) if x == "bad json"));
}

#[test]
fn preconditions_of_each_pipeline() {
    let (m, _) = drive(options(false, true, None), vec![Event::Done, Event::Loaded(SupState::Idle)]);
    assert!(matches!(m.outcome, Some(Err(SupError::NothingToAbort))));
    let (m, _) = drive(options(true, false, None), vec![Event::Done, Event::Loaded(SupState::Idle)]);
    assert!(matches!(m.outcome, Some(Err(SupError::NothingToContinue))));
    let in_progress = SupState::InProgress { stash_created: false, original_head: None, message: None };
    let (m, _) = drive(options(false, false, None), vec![Event::Done, Event::Loaded(in_progress)]);
    assert!(matches!(m.outcome, Some(Err(SupError::OperationInProgress))));
    let (m, _) = drive(options(false, false, None), vec![Event::Done, Event::Loaded(interrupted(false))]);
    assert!(matches!(m.outcome, Some(Err(SupError::OperationInterrupted))));
    assert!(matches!(m.record, Some(SupState::Interrupted { .. })));
}

#[test]
fn failed_stash_apply_keeps_the_stash() {
    let (m, actions) = drive(
        options(true, false, None),
        vec![
            Event::Done,
            Event::Loaded(interrupted(false)),
            Event::Flag(false),
            Event::Done,
            Event::Failed(s("apply failed")),
            Event::Done,
        ],
    );
    assert!(matches!(actions[3], Action::ResetIndexToHead));
    assert!(matches!(actions[4], Action::ApplyStash));
    assert!(matches!(
        &actions[5],
        Action::Save(SupState::Interrupted { stash_applied: true, .. })
    ));
    assert!(!actions.iter().any(|a| matches!(a, Action::DropStash)));
    assert!(matches!(&m.outcome, Some(Err(SupError::ReapplyFailed(x))) if x == "apply failed"));
}

#[test]
fn continue_refuses_while_conflicts_remain() {
    let (m, _) = drive(
        options(true, false, None),
        vec![Event::Done, Event::Loaded(interrupted(false)), Event::Flag(true), Event::Flag(true)],
    );
    assert!(matches!(m.outcome, Some(Err(SupError::ConflictsRemain))));
    assert!(matches!(m.record, Some(SupState::Interrupted { .. })));
    let (m, _) = drive(
        options(true, false, None),
        vec![Event::Done, Event::Loaded(interrupted(true)), Event::Flag(false), Event::Flag(true)],
    );
    assert!(matches!(m.outcome, Some(Err(SupError::ConflictsRemain))));
}

#[test]
fn merge_without_recorded_heads_is_refused() {
    let (m, _) = drive(
        options(true, false, None),
        vec![
            Event::Done,
            Event::Loaded(interrupted(false)),
            Event::Flag(true),
            Event::Flag(false),
            Event::Ids(vec![]),
        ],
    );
    assert!(matches!(m.outcome, Some(Err(SupError::MergeHeadMissing))));
}

#[test]
fn failed_stash_save_is_a_git_error_and_leaves_idle() {
    let (m, _) = drive(
        options(false, false, None),
        vec![Event::Done, Event::Loaded(SupState::Idle), Event::Failed(s("no signature"))],
    );
    assert!(matches!(&m.outcome, Some(Err(SupError::Git(Phase::Stashing, x))) if x == "no signature"));
    assert!(matches!(m.record, Some(SupState::Idle)));
    assert!(!m.wrote);
}

#[test]
fn unexpected_event_ends_the_run() {
    let (m, actions) = drive(options(false, false, None), vec![Event::Flag(true)]);
    assert!(matches!(actions[1], Action::Finish));
    assert!(matches!(m.outcome, Some(Err(SupError::UnexpectedEvent))));
}

#[test]
fn finished_run_stays_finished() {
    let (m, actions) = drive(
        options(false, false, None),
        vec![Event::Failed(s("x")), Event::Done, Event::Done],
    );
    assert!(matches!(actions[2], Action::Finish));
    assert!(matches!(actions[3], Action::Finish));
    assert!(matches!(m.outcome, Some(Err(SupError::AlreadyRunning(_)))));
}

#[test]
fn failed_clear_is_a_storage_error_and_keeps_the_checkpoint() {
    let (m, _) = drive(
        options(false, false, None),
        vec![
            Event::Done,
            Event::Loaded(SupState::Idle),
            Event::Flag(false),
            Event::Head(None),
            branch(),
            Event::Done,
            Event::Analysis(MergeAnalysis::UpToDate),
            Event::Done,
            Event::Done,
            Event::Failed(s("disk full")),
        ],
    );
    assert!(matches!(&m.outcome, Some(Err(SupError::Storage(x))) if x == "disk full"));
    assert!(matches!(m.record, Some(SupState::InProgress { .. })));
}

#[test]
fn sync_failure_keeps_message_and_head_for_continue() {
    let (m, actions) = drive(
        options(false, false, Some("ship it")),
        vec![
            Event::Done,
            Event::Loaded(SupState::Idle),
            Event::Flag(false),
            Event::Head(Some(s("abc123"))),
            branch(),
            Event::Failed(s("network down")),
            Event::Done,
        ],
    );
    let saved = match &actions[6] {
        Action::Save(state) => state.duplicate(),
        other => panic!("unexpected {:?}", other),
    };
    assert!(matches!(
        &saved,
        SupState::Interrupted { stash_created: false, stash_applied: false, original_head: Some(h), message: Some(msg) } if h == "abc123" && msg == "ship it"
    ));
    assert!(matches!(&m.outcome, Some(Err(SupError::SyncFailed(x))) if x == "network down"));

    let reread = SupState::from(sup::record::SupStateSerde::from(saved));
    let (m, actions) = drive(
        options(true, false, None),
        vec![
            Event::Done,
            Event::Loaded(reread),
            Event::Flag(false),
            Event::Flag(false),
            Event::Done,
            Event::Flag(true),
            Event::Done,
        ],
    );
    assert_eq!(m.original_head.as_deref(), Some("abc123"));
    assert_eq!(m.message.as_deref(), Some("ship it"));
    assert!(matches!(actions[3], Action::RunPreCommitHook));
    assert!(matches!(&actions[5], Action::RunCommitMsgHook { message } if message == "ship it"));
    assert!(matches!(&actions[6], Action::Commit { message } if message == "ship it"));
}

#[test]
fn continue_after_applied_stash_drops_before_publishing() {
    let record = SupState::Interrupted {
        stash_created: true,
        stash_applied: true,
        original_head: Some(s("abc123")),
        message: Some(s("commit message")),
    };
    let mut cli = options(true, false, None);
    cli.yes = true;
    let (m, actions) = drive(
        cli,
        vec![
            Event::Done,
            Event::Loaded(record),
            Event::Flag(false),
            Event::Flag(false),
            Event::Done,
            Event::Flag(false),
            Event::Done,
            Event::Flag(false),
            Event::Done,
            branch(),
            Event::Flag(false),
            Event::Done,
            Event::Done,
        ],
    );
    assert!(matches!(actions[3], Action::CheckConflicts));
    assert!(matches!(actions[4], Action::DropStash));
    assert!(matches!(actions[5], Action::RunPreCommitHook));
    assert!(matches!(actions[6], Action::StageAll));
    assert!(matches!(&actions[8], Action::Commit { message } if message == "commit message"));
    assert!(matches!(&actions[11], Action::Push { .. }));
    assert!(matches!(actions[12], Action::Clear));
    assert_eq!(actions.iter().filter(|a| matches!(a, Action::DropStash)).count(), 1);
    assert!(matches!(m.outcome, Some(Ok(()))));
}

#[test]
fn failed_drop_after_checkpoint_records_interruption() {
    let (m, actions) = drive(
        options(false, false, None),
        vec![
            Event::Done,
            Event::Loaded(SupState::Idle),
            Event::Flag(true),
            Event::Head(Some(s("abc123"))),
            branch(),
            Event::Done,
            Event::Analysis(MergeAnalysis::UpToDate),
            Event::Done,
            Event::Done,
            Event::Done,
            Event::Done,
            Event::Flag(false),
            Event::Failed(s("cannot drop")),
            Event::Done,
        ],
    );
    assert!(matches!(actions[12], Action::DropStash));
    assert!(matches!(
        &actions[13],
        Action::Save(SupState::Interrupted { stash_created: true, stash_applied: true, original_head: Some(h), message: None }) if h == "abc123"
    ));
    assert!(matches!(&m.outcome, Some(Err(SupError::Git(Phase::DroppingStash, x))) if x == "cannot drop"));
    assert!(matches!(m.record, Some(SupState::Interrupted { stash_applied: true, .. })));

    let mut cli = options(true, false, None);
    cli.yes = true;
    let (m, actions) = drive(
        cli,
        vec![
            Event::Done,
            Event::Loaded(interrupted(true)),
            Event::Flag(false),
            Event::Flag(false),
            Event::Done,
            Event::Done,
        ],
    );
    assert!(matches!(actions[4], Action::DropStash));
    assert!(!actions.iter().any(|a| matches!(a, Action::ApplyStash)));
    assert!(matches!(m.outcome, Some(Ok(()))));
}

#[test]
fn failed_head_read_after_stash_records_interruption() {
    let (m, actions) = drive(
        options(false, false, None),
        vec![
            Event::Done,
            Event::Loaded(SupState::Idle),
            Event::Flag(true),
            Event::Failed(s("bad HEAD")),
            Event::Done,
        ],
    );
    assert!(matches!(
        &actions[4],
        Action::Save(SupState::Interrupted { stash_created: true, stash_applied: false, original_head: None, message: None })
    ));
    assert!(matches!(m.outcome, Some(Err(SupError::Git(Phase::ReadingHead, _)))));
    assert!(matches!(m.record, Some(SupState::Interrupted { stash_created: true, .. })));
}

#[test]
fn failed_branch_read_on_clean_tree_records_interruption() {
    let (m, actions) = drive(
        options(false, false, Some("msg")),
        vec![
            Event::Done,
            Event::Loaded(SupState::Idle),
            Event::Flag(false),
            Event::Head(Some(s("abc123"))),
            Event::Failed(s("no branch")),
            Event::Done,
        ],
    );
    assert!(matches!(
        &actions[5],
        Action::Save(SupState::Interrupted { stash_created: false, stash_applied: false, original_head: Some(h), message: Some(msg) }) if h == "abc123" && msg == "msg"
    ));
    assert!(matches!(m.record, Some(SupState::Interrupted { .. })));
}

#[test]
fn continue_that_fails_after_reapplying_marks_the_stash_applied() {
    let record = SupState::Interrupted {
        stash_created: true,
        stash_applied: false,
        original_head: Some(s("abc123")),
        message: Some(s("commit message")),
    };
    let (m, actions) = drive(
        options(true, false, None),
        vec![
            Event::Done,
            Event::Loaded(record),
            Event::Flag(false),
            Event::Done,
            Event::Done,
            Event::Flag(false),
            Event::Flag(true),
            Event::Done,
            Event::Flag(true),
            Event::Failed(s("commit failed")),
            Event::Done,
        ],
    );
    assert!(matches!(actions[9], Action::Commit { .. }));
    assert!(matches!(
        &actions[10],
        Action::Save(SupState::Interrupted { stash_created: true, stash_applied: true, original_head: Some(h), message: Some(msg) }) if h == "abc123" && msg == "commit message"
    ));
    assert!(matches!(m.outcome, Some(Err(SupError::Git(Phase::Committing, _)))));
}

#[test]
fn continue_that_fails_after_dropping_forgets_the_stash() {
    let record = SupState::Interrupted {
        stash_created: true,
        stash_applied: true,
        original_head: Some(s("abc123")),
        message: Some(s("commit message")),
    };
    let mut cli = options(true, false, None);
    cli.yes = true;
    let (m, actions) = drive(
        cli,
        vec![
            Event::Done,
            Event::Loaded(record),
            Event::Flag(false),
            Event::Flag(false),
            Event::Done,
            Event::Flag(true),
            Event::Failed(s("index locked")),
            Event::Done,
        ],
    );
    assert!(matches!(actions[6], Action::StageAll));
    assert!(matches!(
        &actions[7],
        Action::Save(SupState::Interrupted { stash_created: false, stash_applied: true, .. })
    ));
    assert!(matches!(m.outcome, Some(Err(SupError::Git(Phase::Staging, _)))));
}

#[test]
fn failed_reset_during_abort_keeps_the_record() {
    let (m, actions) = drive(
        options(false, true, None),
        vec![Event::Done, Event::Loaded(interrupted(false)), Event::Failed(s("bad object"))],
    );
    assert!(matches!(actions[3], Action::Finish));
    assert!(matches!(m.outcome, Some(Err(SupError::Git(Phase::Resetting, _)))));
    assert!(matches!(m.record, Some(SupState::Interrupted { stash_created: true, stash_applied: false, .. })));
    assert!(!m.wrote);
}
