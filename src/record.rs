//! The operation record: what is persisted between runs.

use vstd::prelude::*;

verus! {

/// The single persisted record that says whether an operation is in flight.
///
/// A missing record stands for `Idle`.
#[derive(Debug)]
pub enum SupState {
    /// No operation in progress.
    Idle,
    /// The remote was merged and the run is reapplying, committing or
    /// publishing; a record in this state that outlives its run means the run
    /// crashed or is still active.
    InProgress {
        stash_created: bool,
        original_head: Option<String>,
        message: Option<String>,
    },
    /// The run stopped at a recoverable point; `--continue` or `--abort`
    /// resolves it.
    Interrupted {
        stash_created: bool,
        stash_applied: bool,
        original_head: Option<String>,
        message: Option<String>,
    },
}

/// The positional shape in which a [`SupState`] is written to disk.
#[derive(Debug)]
pub enum SupStateSerde {
    Idle,
    /// `(stash_created, original_head, message)`
    InProgress(bool, Option<String>, Option<String>),
    /// `(stash_created, original_head, message, stash_applied)`
    Interrupted(bool, Option<String>, Option<String>, bool),
}

/// A copy of an optional string that is equal to it.
pub fn copy_opt(s: &Option<String>) -> (r: Option<String>)
    ensures
        r == *s,
{
    match s {
        Some(v) => Some(v.clone()),
        None => None,
    }
}

impl SupState {
    /// Whether the record says that local changes were stashed.
    pub open spec fn spec_stash_created(self) -> bool {
        match self {
            SupState::Idle => false,
            SupState::InProgress { stash_created, .. } => stash_created,
            SupState::Interrupted { stash_created, .. } => stash_created,
        }
    }

    /// A copy of the record, equal to it.
    pub fn duplicate(&self) -> (r: SupState)
        ensures
            r == *self,
    {
        match self {
            SupState::Idle => SupState::Idle,
            SupState::InProgress { stash_created, original_head, message } => SupState::InProgress {
                stash_created: *stash_created,
                original_head: copy_opt(original_head),
                message: copy_opt(message),
            },
            SupState::Interrupted { stash_created, stash_applied, original_head, message } => {
                SupState::Interrupted {
                    stash_created: *stash_created,
                    stash_applied: *stash_applied,
                    original_head: copy_opt(original_head),
                    message: copy_opt(message),
                }
            },
        }
    }

    /// Whether this is the `Idle` record.
    pub fn is_idle(&self) -> (r: bool)
        ensures
            r == (*self is Idle),
    {
        match self {
            SupState::Idle => true,
            _ => false,
        }
    }
}

/// The on-disk shape of a record.
pub open spec fn to_serde(s: SupState) -> SupStateSerde {
    match s {
        SupState::Idle => SupStateSerde::Idle,
        SupState::InProgress { stash_created, original_head, message } => SupStateSerde::InProgress(
            stash_created,
            original_head,
            message,
        ),
        SupState::Interrupted { stash_created, stash_applied, original_head, message } =>
            SupStateSerde::Interrupted(stash_created, original_head, message, stash_applied),
    }
}

/// The record that an on-disk shape stands for.
pub open spec fn from_serde(s: SupStateSerde) -> SupState {
    match s {
        SupStateSerde::Idle => SupState::Idle,
        SupStateSerde::InProgress(stash_created, original_head, message) => SupState::InProgress {
            stash_created,
            original_head,
            message,
        },
        SupStateSerde::Interrupted(stash_created, original_head, message, stash_applied) =>
            SupState::Interrupted { stash_created, stash_applied, original_head, message },
    }
}

impl From<SupState> for SupStateSerde {
    fn from(state: SupState) -> (r: SupStateSerde)
        ensures
            r == to_serde(state),
    {
        match state {
            SupState::Idle => SupStateSerde::Idle,
            SupState::InProgress { stash_created, original_head, message } => {
                SupStateSerde::InProgress(stash_created, original_head, message)
            },
            SupState::Interrupted { stash_created, original_head, message, stash_applied } => {
                SupStateSerde::Interrupted(stash_created, original_head, message, stash_applied)
            },
        }
    }
}

impl vstd::std_specs::convert::FromSpecImpl<SupState> for SupStateSerde {
    open spec fn obeys_from_spec() -> bool {
        true
    }

    open spec fn from_spec(v: SupState) -> SupStateSerde {
        to_serde(v)
    }
}

impl From<SupStateSerde> for SupState {
    fn from(state: SupStateSerde) -> (r: SupState)
        ensures
            r == from_serde(state),
    {
        match state {
            SupStateSerde::Idle => SupState::Idle,
            SupStateSerde::InProgress(stash_created, original_head, message) => {
                SupState::InProgress { stash_created, original_head, message }
            },
            SupStateSerde::Interrupted(stash_created, original_head, message, stash_applied) => {
                SupState::Interrupted { stash_created, original_head, message, stash_applied }
            },
        }
    }
}

impl vstd::std_specs::convert::FromSpecImpl<SupStateSerde> for SupState {
    open spec fn obeys_from_spec() -> bool {
        true
    }

    open spec fn from_spec(v: SupStateSerde) -> SupState {
        from_serde(v)
    }
}

/// Writing a record and reading it back gives the same record, every field
/// included.
pub proof fn lemma_record_round_trip(s: SupState)
    ensures
        from_serde(to_serde(s)) == s,
{
}

/// Reading an on-disk shape and writing it again gives the same shape.
pub proof fn lemma_serde_round_trip(s: SupStateSerde)
    ensures
        to_serde(from_serde(s)) == s,
{
}

} // verus!
