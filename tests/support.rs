use sup::credentials::{credential_plan, CredentialPlan};
use sup::record::{SupState, SupStateSerde};
use sup::text::{
    branch_ref, ends_with, fetch_refspec, is_sup_stash, push_refspec, tracking_ref,
    STASH_MESSAGE,
};
use sup::ui::{CHECKMARK, FLOPPY_DISK, RELOAD, ROCKET, UI};

fn either(r: &str, symbol: &str, text: &str) -> bool {
    r == text || r == format!("{symbol}{text}")
}

#[test]
fn refspecs_are_spelled_out() {
    assert_eq!(branch_ref("master"), "refs/heads/master");
    assert_eq!(tracking_ref("origin", "master"), "refs/remotes/origin/master");
    assert_eq!(
        fetch_refspec("origin", "main"),
        "refs/heads/main:refs/remotes/origin/main"
    );
    assert_eq!(push_refspec("feature"), "refs/heads/feature:refs/heads/feature");
}

#[test]
fn suffix_checks() {
    assert!(ends_with("On master: sup stash", STASH_MESSAGE));
    assert!(ends_with("abc", ""));
    assert!(!ends_with("ab", "abc"));
    assert!(!ends_with("sup stash!", "sup stash"));
    assert!(is_sup_stash("sup stash"));
    assert!(is_sup_stash("On feature: sup stash"));
    assert!(!is_sup_stash("WIP on master: 1234 message"));
    assert!(!is_sup_stash(""));
}

#[test]
fn record_round_trips_through_its_disk_shape() {
    let s = SupState::Interrupted {
        stash_created: true,
        stash_applied: false,
        original_head: Some("abc".to_string()),
        message: Some("msg".to_string()),
    };
    let d = SupStateSerde::from(s);
    match &d {
        SupStateSerde::Interrupted(true, Some(h), Some(m), false) => {
            assert_eq!(h, "abc");
            assert_eq!(m, "msg");
        }
        other => panic!("unexpected {:?}", other),
    }
    let back = SupState::from(d);
    assert!(matches!(
        back,
        SupState::Interrupted { stash_created: true, stash_applied: false, original_head: Some(ref h), message: Some(ref m) } if h == "abc" && m == "msg"
    ));
    let p = SupStateSerde::from(SupState::InProgress {
        stash_created: false,
        original_head: None,
        message: None,
    });
    assert!(matches!(p, SupStateSerde::InProgress(false, None, None)));
    assert!(matches!(SupState::from(SupStateSerde::Idle), SupState::Idle));
    assert!(SupState::Idle.is_idle());
}

#[test]
fn credential_plans() {
    assert!(matches!(credential_plan(true, true, Some("git")), CredentialPlan::SshAgent(ref u) if u == "git"));
    assert!(matches!(credential_plan(true, false, None), CredentialPlan::NoUsername));
    assert!(matches!(credential_plan(false, true, None), CredentialPlan::HelperThenDefault));
    assert!(matches!(credential_plan(false, false, Some("x")), CredentialPlan::Default));
}

#[test]
fn progress_texts() {
    let ui = UI::new();
    let p = ui.configure_stashing_progress();
    assert_eq!(p.message, "Stashing local changes");
    assert!(either(&p.finish, FLOPPY_DISK, "Stashed local changes"));
    let p = ui.configure_resetting_progress("abc123");
    assert_eq!(p.message, "Resetting branch to original commit before pull: abc123");
    assert!(either(&p.finish, FLOPPY_DISK, "Reset branch to commit before pull: abc123"));
    let p = ui.configure_pushing_progress("main");
    assert_eq!(p.message, "Pushing branch 'main'");
    assert!(either(&p.finish, ROCKET, "Pushed branch 'main'"));
    let p = ui.configure_merge_progress("main");
    assert_eq!(p.message, "Merging changes");
    assert!(p.finish.ends_with("Merged branch main"));
    assert!(either(&ui.log_abort(), RELOAD, "Aborting and rolling back operation"));
    assert!(either(&ui.log_continuing_interrupted_operation(), RELOAD, "Continuing interrupted operation"));
    let done = ui.log_completed();
    assert!(done.starts_with("       "));
    assert!(either(&done[7..], CHECKMARK, "Operation completed"));
    let p = ui.configure_committing_stashed_changes_progress_bar();
    assert_eq!(p.message, "Committing stashed changes");
    let p = ui.configure_applying_stash_progress();
    assert_eq!(p.message, "Applying stashed changes");
    let p = ui.configure_pulling_progress();
    assert_eq!(p.message, "Pulling remote changes");
    let p = ui.configure_restoring_stashed_changes_for_abort_progress();
    assert_eq!(p.message, "Restoring stashed changes after abort");
    let p = ui.configure_finishing_merge_progress();
    assert_eq!(p.message, "Finishing merge in progress (creating merge commit)");
}
