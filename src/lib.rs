//! The self-update agent of a desktop application, and the CSV check of
//! its import command.
//!
//! `updater` holds the agent's state machine: one check or download at a
//! time, single-use handles, and the ordered events of each download.
//! `startup` decides the unattended flow run at start-up, `guarantees`
//! states what holds across calls, and `csv` checks imported text.
use vstd::prelude::*;

pub mod updater;
pub mod startup;
pub mod guarantees;
pub mod csv;

verus! {

} // verus!
