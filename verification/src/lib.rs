//! An interactive terminal file browser scoped to a single root directory.
//!
//! The verified core is the navigation state machine: the state that holds
//! the current directory, the listed entries and the selected row, and the
//! pure transitions that keystrokes trigger. Listing a directory, querying
//! host statistics and drawing to the terminal are I/O that a thin
//! unverified shell performs; it hands this library plain values and takes
//! plain values back.

use vstd::prelude::*;

pub mod listing;
pub mod nav;
pub mod stats;
pub mod view;

verus! {

} // verus!
