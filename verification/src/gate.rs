//! The confirmation gate in front of destructive operations.
//!
//! A destructive operation (new project, open project, closing the main
//! window) discards unsaved changes, so it runs immediately only when the
//! dirty flag is clear; otherwise the user is asked first.  The prompt is
//! presented by the front end — blocking on the window-close path, as a
//! callback on the menu path — and the answer is handed back here.  "No" is a
//! cancellation, not an error: nothing changes.
//!
//! The dirty flag is read before the prompt and the destructive operation
//! runs after it, with no lock held across the prompt (a dialog must never
//! block other commands).  A concurrent command could therefore set the flag
//! between the read and the operation; under the single-operator usage model
//! this window is accepted as is rather than locked away.

use vstd::prelude::*;

verus! {

/// The user's answer to a yes/no confirmation prompt.
#[derive(Clone, Copy, PartialEq, Eq, Structural, Debug)]
pub enum ConfirmAnswer {
    Yes,
    No,
}

/// What to do with a main-window close request.
#[derive(Clone, Copy, PartialEq, Eq, Structural, Debug)]
pub enum CloseDecision {
    /// Let the window close and terminate the process.
    Exit,
    /// Veto the close; the window stays open.
    KeepOpen,
}

/// Whether a destructive operation must be confirmed before it runs: exactly
/// when unsaved changes exist.
pub fn needs_prompt(dirty: bool) -> (b: bool)
    ensures
        b == dirty,
{
    dirty
}

/// Whether a destructive menu operation may run: yes when no unsaved
/// changes exist, or when the user confirmed.  The same outcome applies to
/// the blocking and the callback presentation; only the prompting differs.
pub fn gate_allows(dirty: bool, answer: ConfirmAnswer) -> (b: bool)
    ensures
        b == (!dirty || answer == ConfirmAnswer::Yes),
{
    !dirty || matches!(answer, ConfirmAnswer::Yes)
}

/// What to do with a main-window close request (the blocking path):
/// the window may close — terminating the process — when no unsaved changes
/// exist or the user confirmed; otherwise the close is vetoed.
pub fn close_decision(dirty: bool, answer: ConfirmAnswer) -> (d: CloseDecision)
    ensures
        (d == CloseDecision::Exit) == (!dirty || answer == ConfirmAnswer::Yes),
{
    if !dirty || matches!(answer, ConfirmAnswer::Yes) {
        CloseDecision::Exit
    } else {
        CloseDecision::KeepOpen
    }
}

} // verus!
