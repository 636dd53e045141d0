//! The texts shown for each step of a run.

use vstd::prelude::*;

verus! {

pub const FLOPPY_DISK: &'static str = "\u{1F5C3}\u{FE0F}  ";
pub const DOWN_ARROW: &'static str = "\u{1F53D}  ";
pub const ROCKET: &'static str = "\u{1F680} ";
pub const CHECKMARK: &'static str = "\u{2705}  ";
pub const BOX: &'static str = "\u{1F4E6}  ";
pub const RELOAD: &'static str = "\u{1F504}  ";
pub const MERGE: &'static str = "\u{1F500}  ";

/// Relies on the `Display` of `console::Emoji`: it writes the emoji where the
/// environment wants emojis and the fallback otherwise.
#[verifier::external_body]
fn emoji(symbol: &str, fallback: &str) -> (r: String)
    ensures
        r@ == symbol@ || r@ == fallback@,
{
    console::Emoji(symbol, fallback).to_string()
}

/// `text` preceded by `symbol`, or bare where emojis are not wanted.
pub open spec fn decorated(r: Seq<char>, symbol: Seq<char>, text: Seq<char>) -> bool {
    r == symbol + text || r == text
}

/// `symbol` (or nothing) followed by `text`.
fn with_emoji(symbol: &str, text: &str) -> (r: String)
    ensures
        decorated(r@, symbol@, text@),
{
    let mut r = emoji(symbol, "");
    proof {
        reveal_strlit("");
    }
    r.append(text);
    r
}

/// The two texts of a progress line: while the step runs, and once it is done.
#[derive(Debug)]
pub struct Progress {
    pub message: String,
    pub finish: String,
}

/// The texts of each step.
#[derive(Debug)]
pub struct UI {}

impl UI {
    pub fn new() -> (r: UI) {
        UI {  }
    }

    fn progress(message: &str, symbol: &str, finish: &str) -> (r: Progress)
        ensures
            r.message@ == message@,
            decorated(r.finish@, symbol@, finish@),
    {
        Progress { message: String::from_str(message), finish: with_emoji(symbol, finish) }
    }

    pub fn log_completed(&self) -> (r: String)
        ensures
            decorated(r@.subrange(7, r@.len() as int), CHECKMARK@, "Operation completed"@),
            r@.subrange(0, 7) == "       "@,
    {
        let mut r = String::from_str("       ");
        let t = with_emoji(CHECKMARK, "Operation completed");
        r.append(t.as_str());
        proof {
            reveal_strlit("       ");
            assert(r@.subrange(0, 7) =~= "       "@);
            assert(r@.subrange(7, r@.len() as int) =~= t@);
        }
        r
    }

    pub fn configure_stashing_progress(&self) -> (r: Progress)
        ensures
            r.message@ == "Stashing local changes"@,
            decorated(r.finish@, FLOPPY_DISK@, "Stashed local changes"@),
    {
        UI::progress("Stashing local changes", FLOPPY_DISK, "Stashed local changes")
    }

    pub fn configure_applying_stash_progress(&self) -> (r: Progress)
        ensures
            r.message@ == "Applying stashed changes"@,
            decorated(r.finish@, BOX@, "Applied stashed changes"@),
    {
        UI::progress("Applying stashed changes", BOX, "Applied stashed changes")
    }

    pub fn configure_pulling_progress(&self) -> (r: Progress)
        ensures
            r.message@ == "Pulling remote changes"@,
            decorated(r.finish@, DOWN_ARROW@, "Pulled remote changes"@),
    {
        UI::progress("Pulling remote changes", DOWN_ARROW, "Pulled remote changes")
    }

    pub fn log_abort(&self) -> (r: String)
        ensures
            decorated(r@, RELOAD@, "Aborting and rolling back operation"@),
    {
        with_emoji(RELOAD, "Aborting and rolling back operation")
    }

    pub fn configure_resetting_progress(&self, orig_head: &str) -> (r: Progress)
        ensures
            r.message@ == "Resetting branch to original commit before pull: "@ + orig_head@,
            decorated(r.finish@, FLOPPY_DISK@, "Reset branch to commit before pull: "@ + orig_head@),
    {
        let mut message = String::from_str("Resetting branch to original commit before pull: ");
        message.append(orig_head);
        let mut finish = with_emoji(FLOPPY_DISK, "Reset branch to commit before pull: ");
        finish.append(orig_head);
        proof {
            let t = "Reset branch to commit before pull: "@;
            assert((FLOPPY_DISK@ + t) + orig_head@ =~= FLOPPY_DISK@ + (t + orig_head@));
        }
        Progress { message, finish }
    }

    pub fn configure_restoring_stashed_changes_for_abort_progress(&self) -> (r: Progress)
        ensures
            r.message@ == "Restoring stashed changes after abort"@,
            decorated(r.finish@, BOX@, "Restored stashed changes"@),
    {
        UI::progress("Restoring stashed changes after abort", BOX, "Restored stashed changes")
    }

    pub fn configure_committing_stashed_changes_progress_bar(&self) -> (r: Progress)
        ensures
            r.message@ == "Committing stashed changes"@,
            decorated(r.finish@, CHECKMARK@, "Committed stashed changes"@),
    {
        UI::progress("Committing stashed changes", CHECKMARK, "Committed stashed changes")
    }

    pub fn configure_pushing_progress(&self, branch: &str) -> (r: Progress)
        ensures
            r.message@ == "Pushing branch '"@ + branch@ + "'"@,
            decorated(r.finish@, ROCKET@, "Pushed branch '"@ + branch@ + "'"@),
    {
        let mut message = String::from_str("Pushing branch '");
        message.append(branch);
        message.append("'");
        let mut finish = with_emoji(ROCKET, "Pushed branch '");
        finish.append(branch);
        finish.append("'");
        proof {
            let t = "Pushed branch '"@;
            assert(((ROCKET@ + t) + branch@) + "'"@ =~= ROCKET@ + ((t + branch@) + "'"@));
        }
        Progress { message, finish }
    }

    pub fn log_continuing_interrupted_operation(&self) -> (r: String)
        ensures
            decorated(r@, RELOAD@, "Continuing interrupted operation"@),
    {
        with_emoji(RELOAD, "Continuing interrupted operation")
    }

    pub fn configure_finishing_merge_progress(&self) -> (r: Progress)
        ensures
            r.message@ == "Finishing merge in progress (creating merge commit)"@,
            decorated(r.finish@, FLOPPY_DISK@, "Finished merge commit"@),
    {
        UI::progress(
            "Finishing merge in progress (creating merge commit)",
            FLOPPY_DISK,
            "Finished merge commit",
        )
    }

    pub fn configure_merge_progress(&self, remote_branch: &str) -> (r: Progress)
        ensures
            r.message@ == "Merging changes"@,
            decorated(r.finish@, MERGE@, "Merged branch "@ + remote_branch@),
    {
        let message = String::from_str("Merging changes");
        let mut finish = with_emoji(MERGE, "Merged branch ");
        finish.append(remote_branch);
        proof {
            let t = "Merged branch "@;
            assert((MERGE@ + t) + remote_branch@ =~= MERGE@ + (t + remote_branch@));
        }
        Progress { message, finish }
    }
}

} // verus!
