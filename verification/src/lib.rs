//! The view state machine of a small terminal front-end: a landing menu with
//! two entries and a registration screen with a text field.
//!
//! The crate holds the state and the rules only. Reading keys from the
//! terminal and painting the screens are left to the program that embeds it.

use vstd::prelude::*;

pub mod app;
pub mod input;
pub mod key;
pub mod list;
pub mod views;

verus! {

/// The screen that is currently shown.
#[derive(Debug, Clone, Copy, PartialEq, Eq, Structural)]
pub enum AppState {
    Landing,
    Register,
}

} // verus!
