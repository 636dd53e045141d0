//! The decision core of `sup`: stash local work, synchronise with the
//! tracked remote, reapply the work, optionally commit and publish it, and
//! keep a persisted record from which an interrupted run can be continued or
//! rolled back.
//!
//! The repository itself is driven from outside: [`machine::Sup`] hands out
//! one [`machine::Action`] at a time and is told the outcome as an
//! [`machine::Event`].

pub mod record;
pub mod cli;
pub mod text;
pub mod machine;
pub mod step;
pub mod laws;
pub mod ui;
pub mod credentials;
