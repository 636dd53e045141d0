//! What holds of every run of the machine.

use vstd::prelude::*;
use crate::cli::{Cli, Mode};
use crate::record::{SupState, to_serde, from_serde};
use crate::text::{has_suffix, stash_marker};
use crate::machine::{
    Action, Event, Sup, SupError, init, next, next_setup, next_sync, next_reapply, next_publish, next_resume,
    next_abort, next_end, in_setup, in_sync, in_reapply, in_publish,
    in_resume, in_abort,
};

verus! {

/// The machine after the events `es` of a run with the given options and
/// defaults.
pub open spec fn run(cli: Cli, dr: String, db: String, es: Seq<Event>) -> Sup
    decreases es.len(),
{
    if es.len() == 0 {
        init(cli, dr, db).0
    } else {
        next(run(cli, dr, db, es.drop_last()), es.last()).0
    }
}

/// The actions handed out during that run, the first one included.
pub open spec fn actions(cli: Cli, dr: String, db: String, es: Seq<Event>) -> Seq<Action>
    decreases es.len(),
{
    if es.len() == 0 {
        seq![init(cli, dr, db).1]
    } else {
        actions(cli, dr, db, es.drop_last()).push(
            next(run(cli, dr, db, es.drop_last()), es.last()).1,
        )
    }
}

/// The record is not `Idle`, or it is the `Idle` record that the run found
/// and has not written.
pub open spec fn idle_only_if_untouched(m: Sup) -> bool {
    m.record != Some(SupState::Idle) || (m.loaded == Some(SupState::Idle) && !m.wrote)
}

/// The record that a continue or abort run found, with the fields the run
/// works on.
pub open spec fn record_of(m: Sup) -> SupState {
    SupState::Interrupted {
        stash_created: m.stash_created,
        stash_applied: m.stash_applied,
        original_head: m.original_head,
        message: m.message,
    }
}

/// The record is the `InProgress` checkpoint.
pub open spec fn at_checkpoint(m: Sup) -> bool {
    m.record is Some && m.record->0 is InProgress
}

/// The run has failed with `err`.
pub open spec fn failed_with(m: Sup, err: SupError) -> bool {
    m.outcome == Some(Err::<(), SupError>(err))
}

/// The run has failed, and its error is not a storage failure.
pub open spec fn failed_not_storage(m: Sup) -> bool {
    m.outcome is Some && m.outcome->0 is Err && !(m.outcome->0->Err_0 is Storage)
}

/// What holds of every run, whatever its pipeline.
pub open spec fn inv_common(m: Sup) -> bool {
    &&& m.cli.version ==> (m.phase is ShowingVersion || m.phase is Finished) && m.record is None
    &&& m.phase is ShowingVersion ==> m.cli.version
    &&& in_setup(m.phase) ==> !m.wrote && m.record is None && m.loaded is None
        && !m.stash_created && m.pending is Idle && !m.active && !m.reapplied && !m.dropped
    &&& !(m.phase is Finished) ==> idle_only_if_untouched(m)
    &&& in_reapply(m.phase) || m.phase is CheckingApplied ==> m.stash_created
    &&& !(m.phase is Finished) && at_checkpoint(m) ==> m.active
    &&& m.phase is SavingFailure ==> {
        &&& m.failure is Some
        &&& m.pending is Idle || m.pending is Interrupted
        &&& m.failure->0.spec_is_resumable() ==> m.pending is Interrupted
        &&& m.pending is Idle ==> m.failure->0.spec_is_rejection()
    }
    &&& m.phase is Finished ==> {
        &&& m.outcome is Some
        &&& m.outcome->0 is Ok ==> m.cli.version || m.record == Some(SupState::Idle)
        &&& m.outcome->0 is Err ==> {
            let e = m.outcome->0->Err_0;
            &&& e.spec_is_resumable() ==> m.record is Some && m.record->0 is Interrupted
            &&& !e.spec_is_rejection() ==> idle_only_if_untouched(m)
        }
        &&& at_checkpoint(m) ==> !failed_not_storage(m) || (!m.wrote && m.record == m.loaded)
    }
}

/// What holds of a forward run.
pub open spec fn inv_forward(m: Sup) -> bool {
    &&& !in_resume(m.phase) && !in_abort(m.phase)
    &&& m.phase is Stashing ==> !m.stash_created && !m.active
    &&& in_sync(m.phase) ==> !m.reapplied && !m.dropped
    &&& in_sync(m.phase) && !(m.phase is Stashing) ==> m.active
    &&& m.loaded == Some(SupState::Idle) ==> m.message == m.cli.message
    &&& m.loaded == Some(SupState::Idle) && !m.stash_created ==> {
        &&& m.record is Some ==> !m.record->0.spec_stash_created()
        &&& !m.pending.spec_stash_created()
    }
}

/// What holds of an abort run: it writes nothing until it clears the record.
pub open spec fn inv_abort(m: Sup) -> bool {
    &&& !in_sync(m.phase) && !in_reapply(m.phase) && !in_publish(m.phase) && !in_resume(
        m.phase,
    )
    &&& !m.active && !(m.phase is SavingFailure)
    &&& !in_setup(m.phase) && !(m.phase is Finished) ==> m.record == m.loaded && m.loaded
        == Some(record_of(m))
    &&& m.phase is ReadingTopStash || m.phase is Popping ==> m.stash_created
    &&& m.phase is Finished && m.loaded is Some && m.loaded->0 is Interrupted && m.outcome is Some
        && m.outcome->0 is Err ==> {
        let e = m.outcome->0->Err_0;
        &&& m.record == m.loaded
        &&& e is Storage || e is UnexpectedEvent || (e is Git && e->Git_0 is Resetting)
    }
}

/// What holds of a continue run: it writes nothing until its last step, and
/// what it writes keeps the head and the message it found.
pub open spec fn inv_continue(m: Sup) -> bool {
    &&& !in_sync(m.phase) && !in_abort(m.phase)
    &&& !in_setup(m.phase) && !(m.phase is Finished) ==> m.record == m.loaded && m.loaded
        == Some(record_of(m)) && m.active
    &&& in_resume(m.phase) || m.phase is ResettingIndex || m.phase is ApplyingStash
        ==> !m.reapplied && !m.dropped
    &&& m.phase is CheckingApply ==> !m.dropped
    &&& m.phase is SavingFailure ==> {
        &&& m.failure != Some(SupError::ConflictsRemain)
        &&& m.pending is Interrupted ==> m.pending->Interrupted_original_head == m.original_head
            && m.pending->Interrupted_message == m.message
        &&& m.failure == Some(SupError::ReapplyConflict) ==> m.pending == SupState::Interrupted {
            stash_created: m.stash_created,
            stash_applied: true,
            original_head: m.original_head,
            message: m.message,
        }
    }
    &&& m.phase is Finished && m.loaded is Some && m.loaded->0 is Interrupted ==> {
        &&& m.loaded == Some(record_of(m))
        &&& failed_with(m, SupError::ConflictsRemain) ==> m.record == m.loaded
        &&& failed_with(m, SupError::ReapplyConflict) ==> m.record == Some(
            SupState::Interrupted {
                stash_created: m.stash_created,
                stash_applied: true,
                original_head: m.original_head,
                message: m.message,
            },
        )
        &&& failed_not_storage(m) && !m.outcome->0->Err_0.spec_is_rejection() ==> {
            &&& m.record is Some && m.record->0 is Interrupted
            &&& m.record->0->Interrupted_original_head == m.original_head
            &&& m.record->0->Interrupted_message == m.message
        }
    }
}

/// What holds of every machine that a run reaches.
pub open spec fn inv(m: Sup) -> bool {
    &&& inv_common(m)
    &&& m.cli.spec_mode() == Mode::Forward ==> inv_forward(m)
    &&& m.cli.spec_mode() == Mode::Abort ==> inv_abort(m)
    &&& m.cli.spec_mode() == Mode::Continue ==> inv_continue(m)
}

proof fn lemma_inv_init(cli: Cli, dr: String, db: String)
    ensures
        inv(init(cli, dr, db).0),
{
}

proof fn lemma_inv_setup(m: Sup, e: Event)
    requires
        inv(m),
        in_setup(m.phase),
    ensures
        inv(next_setup(m, e).0),
{
}

proof fn lemma_inv_sync(m: Sup, e: Event)
    requires
        inv(m),
        in_sync(m.phase),
    ensures
        inv(next_sync(m, e).0),
{
}

proof fn lemma_inv_reapply(m: Sup, e: Event)
    requires
        inv(m),
        in_reapply(m.phase),
    ensures
        inv(next_reapply(m, e).0),
{
}

proof fn lemma_inv_publish(m: Sup, e: Event)
    requires
        inv(m),
        in_publish(m.phase),
    ensures
        inv(next_publish(m, e).0),
{
}

proof fn lemma_inv_resume(m: Sup, e: Event)
    requires
        inv(m),
        in_resume(m.phase),
    ensures
        inv(next_resume(m, e).0),
{
}

proof fn lemma_inv_abort(m: Sup, e: Event)
    requires
        inv(m),
        in_abort(m.phase),
    ensures
        inv(next_abort(m, e).0),
{
}

proof fn lemma_inv_end(m: Sup, e: Event)
    requires
        inv(m),
        !in_setup(m.phase),
        !in_sync(m.phase),
        !in_reapply(m.phase),
        !in_publish(m.phase),
        !in_resume(m.phase),
        !in_abort(m.phase),
    ensures
        inv(next_end(m, e).0),
{
}

proof fn lemma_inv_step(m: Sup, e: Event)
    requires
        inv(m),
    ensures
        inv(next(m, e).0),
{
    if in_setup(m.phase) {
        lemma_inv_setup(m, e);
    } else if in_sync(m.phase) {
        lemma_inv_sync(m, e);
    } else if in_reapply(m.phase) {
        lemma_inv_reapply(m, e);
    } else if in_publish(m.phase) {
        lemma_inv_publish(m, e);
    } else if in_resume(m.phase) {
        lemma_inv_resume(m, e);
    } else if in_abort(m.phase) {
        lemma_inv_abort(m, e);
    } else {
        lemma_inv_end(m, e);
    }
}

/// Every machine that a run reaches keeps the invariant.
pub proof fn lemma_inv_run(cli: Cli, dr: String, db: String, es: Seq<Event>)
    ensures
        inv(run(cli, dr, db, es)),
    decreases es.len(),
{
    if es.len() == 0 {
        lemma_inv_init(cli, dr, db);
    } else {
        lemma_inv_run(cli, dr, db, es.drop_last());
        lemma_inv_step(run(cli, dr, db, es.drop_last()), es.last());
    }
}

proof fn lemma_step_keeps_cli(m: Sup, e: Event)
    ensures
        next(m, e).0.cli == m.cli,
{
}

/// A run never changes its options.
proof fn lemma_run_keeps_cli(cli: Cli, dr: String, db: String, es: Seq<Event>)
    ensures
        run(cli, dr, db, es).cli == cli,
    decreases es.len(),
{
    if es.len() > 0 {
        lemma_run_keeps_cli(cli, dr, db, es.drop_last());
        lemma_step_keeps_cli(run(cli, dr, db, es.drop_last()), es.last());
    }
}

/// After a run, the persisted record is `Idle` exactly when the run
/// succeeded, and a failure that can be continued or aborted leaves it
/// `Interrupted`. Two kinds of failed run are left out, as designed: a
/// rejection by a hook or by the push resets the record to `Idle`, and a run
/// that fails before it has written anything leaves the `Idle` record it
/// found.
pub proof fn lemma_idle_iff_success(cli: Cli, dr: String, db: String, es: Seq<Event>)
    requires
        run(cli, dr, db, es).phase is Finished,
        run(cli, dr, db, es).record is Some,
        run(cli, dr, db, es).outcome is Some && run(cli, dr, db, es).outcome->0 is Err
            ==> !run(cli, dr, db, es).outcome->0->Err_0.spec_is_rejection(),
        run(cli, dr, db, es).wrote || run(cli, dr, db, es).loaded != Some(SupState::Idle),
    ensures
        (run(cli, dr, db, es).record == Some(SupState::Idle)) <==> (run(cli, dr, db, es).outcome
            is Some && run(cli, dr, db, es).outcome->0 is Ok),
        run(cli, dr, db, es).outcome is Some && run(cli, dr, db, es).outcome->0 is Err
            && run(cli, dr, db, es).outcome->0->Err_0.spec_is_resumable()
            ==> run(cli, dr, db, es).record->0 is Interrupted,
{
    lemma_inv_run(cli, dr, db, es);
}

/// A run never leaves the `InProgress` checkpoint behind: every failure
/// after the checkpoint writes `Interrupted` (or `Idle`, for a rejection by a
/// hook or the push), so `--continue` and `--abort` can take over. The only
/// exceptions are a failing record store, and a forward run refused because
/// it found the checkpoint of another run and left it untouched.
pub proof fn lemma_no_stuck_checkpoint(cli: Cli, dr: String, db: String, es: Seq<Event>)
    requires
        (run(cli, dr, db, es).phase is Finished),
    ensures
        at_checkpoint(run(cli, dr, db, es)) ==> !failed_not_storage(run(cli, dr, db, es)) || (
        !run(cli, dr, db, es).wrote && run(cli, dr, db, es).record == run(cli, dr, db, es).loaded),
        (run(cli, dr, db, es).outcome is Some && run(cli, dr, db, es).outcome->0 is Ok
            && !cli.version ==> !at_checkpoint(run(cli, dr, db, es))),
{
    lemma_inv_run(cli, dr, db, es);
}

/// An abort of an interrupted operation ends with the record cleared once
/// the branch is reset (or there was no head to reset to), even when
/// restoring the stash fails. It fails only where the reset fails, the record
/// store fails or the driver answers out of turn, and then the record is the
/// one it found.
pub proof fn lemma_abort_outcomes(cli: Cli, dr: String, db: String, es: Seq<Event>)
    requires
        cli.spec_mode() == Mode::Abort,
        (run(cli, dr, db, es).phase is Finished),
        run(cli, dr, db, es).loaded is Some && (run(cli, dr, db, es).loaded->0 is Interrupted),
    ensures
        (run(cli, dr, db, es).outcome->0 is Ok ==> run(cli, dr, db, es).record == Some(
            SupState::Idle,
        )),
        run(cli, dr, db, es).outcome->0 is Err ==> run(cli, dr, db, es).record == run(
            cli,
            dr,
            db,
            es,
        ).loaded,
        run(cli, dr, db, es).outcome->0 is Err ==> abort_may_fail_with(
            run(cli, dr, db, es).outcome->0->Err_0,
        ),
{
    lemma_inv_run(cli, dr, db, es);
    lemma_run_keeps_cli(cli, dr, db, es);
}

/// The failures that an abort of an interrupted operation can end with.
pub open spec fn abort_may_fail_with(e: SupError) -> bool {
    ||| e is Storage
    ||| e is UnexpectedEvent
    ||| e is Git && e->Git_0 is Resetting
}

/// A continue of an interrupted operation ends with the record cleared when
/// it succeeds. Where it stops because conflicts remain, the record is the
/// one it found; where reapplying the stash conflicts, the record says the
/// stash was applied and keeps the rest; and on every other failure but a
/// rejection or a failing record store, the record is `Interrupted` with the
/// head and the message it found.
pub proof fn lemma_continue_outcomes(cli: Cli, dr: String, db: String, es: Seq<Event>)
    requires
        cli.spec_mode() == Mode::Continue,
        (run(cli, dr, db, es).phase is Finished),
        run(cli, dr, db, es).loaded is Some && (run(cli, dr, db, es).loaded->0 is Interrupted),
    ensures
        (run(cli, dr, db, es).outcome->0 is Ok ==> run(cli, dr, db, es).record == Some(
            SupState::Idle,
        )),
        failed_with(run(cli, dr, db, es), SupError::ConflictsRemain) ==> run(
            cli,
            dr,
            db,
            es,
        ).record == run(cli, dr, db, es).loaded,
        failed_with(run(cli, dr, db, es), SupError::ReapplyConflict) ==> run(
            cli,
            dr,
            db,
            es,
        ).record == Some(reapplied_record(run(cli, dr, db, es).loaded->0)),
        failed_not_storage(run(cli, dr, db, es)) && !run(
            cli,
            dr,
            db,
            es,
        ).outcome->0->Err_0.spec_is_rejection() ==> keeps_head_and_message(
            run(cli, dr, db, es).record,
            run(cli, dr, db, es).loaded->0,
        ),
{
    lemma_inv_run(cli, dr, db, es);
    lemma_run_keeps_cli(cli, dr, db, es);
}

/// An interrupted record whose stash is marked applied.
pub open spec fn reapplied_record(s: SupState) -> SupState {
    SupState::Interrupted {
        stash_created: s->Interrupted_stash_created,
        stash_applied: true,
        original_head: s->Interrupted_original_head,
        message: s->Interrupted_message,
    }
}

/// `r` is an interrupted record with the head and the message of `s`.
pub open spec fn keeps_head_and_message(r: Option<SupState>, s: SupState) -> bool {
    &&& r is Some && r->0 is Interrupted
    &&& r->0->Interrupted_original_head == s->Interrupted_original_head
    &&& r->0->Interrupted_message == s->Interrupted_message
}

/// The steps that reapply, drop or restore a stash.
pub open spec fn restores_stash(a: Action) -> bool {
    ||| a is ResetIndexToHead
    ||| a is ApplyStash
    ||| a is DropStash
    ||| a is ConfirmDrop
    ||| a is ReadTopStash
    ||| a is PopStash
}

/// A write of a record that says a stash was created.
pub open spec fn records_stash(a: Action) -> bool {
    a is Save && a->Save_0.spec_stash_created()
}

proof fn lemma_forward_step(m: Sup, e: Event)
    requires
        inv(m),
        m.cli.spec_mode() == Mode::Forward,
    ensures
        m.stash_created ==> next(m, e).0.stash_created,
        m.loaded is Some ==> next(m, e).0.loaded == m.loaded,
        (next(m, e).0.loaded == Some(SupState::Idle) || next(m, e).0.loaded is None)
            && !next(m, e).0.stash_created ==> !restores_stash(next(m, e).1) && !records_stash(
            next(m, e).1,
        ),
{
    if in_setup(m.phase) {
        assert(next(m, e) == next_setup(m, e));
    } else if in_sync(m.phase) {
        assert(next(m, e) == next_sync(m, e));
    } else if in_reapply(m.phase) {
        assert(next(m, e) == next_reapply(m, e));
    } else if in_publish(m.phase) {
        assert(next(m, e) == next_publish(m, e));
    } else {
        assert(next(m, e) == next_end(m, e));
    }
}

/// When the working tree is clean at the start of a forward run, no stash is
/// created: no record that the run writes says otherwise, and no step that
/// reapplies, drops or restores a stash is ever taken.
pub proof fn lemma_clean_tree_never_stashes(cli: Cli, dr: String, db: String, es: Seq<Event>)
    requires
        cli.spec_mode() == Mode::Forward,
        run(cli, dr, db, es).loaded == Some(SupState::Idle) || run(cli, dr, db, es).loaded is None,
        !run(cli, dr, db, es).stash_created,
    ensures
        forall|i: int|
            0 <= i < actions(cli, dr, db, es).len() ==> !restores_stash(
                #[trigger] actions(cli, dr, db, es)[i],
            ) && !records_stash(actions(cli, dr, db, es)[i]),
    decreases es.len(),
{
    if es.len() > 0 {
        let es0 = es.drop_last();
        let m = run(cli, dr, db, es0);
        lemma_inv_run(cli, dr, db, es0);
        lemma_run_keeps_cli(cli, dr, db, es0);
        lemma_forward_step(m, es.last());
        lemma_clean_tree_never_stashes(cli, dr, db, es0);
        assert forall|i: int| 0 <= i < actions(cli, dr, db, es).len() implies !restores_stash(
            #[trigger] actions(cli, dr, db, es)[i],
        ) && !records_stash(actions(cli, dr, db, es)[i]) by {
            if i < actions(cli, dr, db, es0).len() {
                assert(actions(cli, dr, db, es)[i] == actions(cli, dr, db, es0)[i]);
            }
        }
    }
}

/// An abort resets the branch to exactly the head that the interrupted
/// operation recorded, and pops a stash only where the operation had stashed
/// and the most recent entry carries this tool's marker; other entries are
/// never touched.
pub proof fn lemma_abort_restores_own_work(m: Sup, e: Event)
    requires
        inv(m),
        m.cli.spec_mode() == Mode::Abort,
    ensures
        (next(m, e).1 is ResetHard ==> resets_to(m, e, next(m, e).1->commit)),
        (loads_head(m, e) ==> next(m, e).1 == (Action::ResetHard {
            commit: e->Loaded_0->Interrupted_original_head->0,
        })),
        (next(m, e).1 is PopStash ==> (m.stash_created && m.loaded == Some(record_of(m))
            && reads_own_stash(e))),
        (m.phase is ReadingTopStash && reads_own_stash(e) ==> (next(m, e).1 is PopStash)),
        (m.phase is Resetting && e is Done && m.stash_created ==> (next(m, e).1 is ReadTopStash)),
{
}

/// The record being loaded is an interruption that names a head.
pub open spec fn loads_head(m: Sup, e: Event) -> bool {
    &&& m.phase is Loading
    &&& e is Loaded
    &&& e->Loaded_0 is Interrupted
    &&& e->Loaded_0->Interrupted_original_head is Some
}

/// The reset happens as the record is loaded, to the head it names.
pub open spec fn resets_to(m: Sup, e: Event, commit: String) -> bool {
    &&& m.phase is Loading
    &&& e is Loaded
    &&& e->Loaded_0 is Interrupted
    &&& e->Loaded_0->Interrupted_original_head == Some(commit)
}

/// The most recent stash entry carries this tool's marker.
pub open spec fn reads_own_stash(e: Event) -> bool {
    &&& e is TopStash
    &&& e->TopStash_0 is Some
    &&& has_suffix(e->TopStash_0->0@, stash_marker())
}

/// The record that a forward run writes when synchronisation fails.
pub open spec fn sync_failure_record(m: Sup) -> SupState {
    SupState::Interrupted {
        stash_created: m.stash_created,
        stash_applied: false,
        original_head: m.original_head,
        message: m.cli.message,
    }
}

/// A forward run that fails to synchronise writes an `Interrupted` record
/// that holds the commit message it was given and the head it started from;
/// a later `--continue` that reads the record back from its on-disk shape
/// works on the same message, head and stash.
pub proof fn lemma_sync_failure_round_trip(m: Sup, x: String, c: Sup)
    requires
        inv(m),
        m.cli.spec_mode() == Mode::Forward,
        m.loaded == Some(SupState::Idle),
        (m.phase is Fetching || m.phase is Analysing || m.phase is FastForwarding
            || m.phase is Merging),
        (c.phase is Loading),
        c.cli.spec_mode() == Mode::Continue,
    ensures
        next(m, Event::Failed(x)).1 == Action::Save(sync_failure_record(m)),
        ({
            let c2 = next(c, Event::Loaded(from_serde(to_serde(sync_failure_record(m))))).0;
            &&& c2.original_head == m.original_head
            &&& c2.message == m.cli.message
            &&& c2.stash_created == m.stash_created
            &&& !c2.stash_applied
            &&& c2.phase is QueryingMerge
        }),
{
}

} // verus!
