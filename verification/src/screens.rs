//! Identifiers of the observer's screens and their focusable fragments.

use vstd::prelude::*;

verus! {

/// Which screen the observer currently shows.
#[derive(Debug, Clone, Copy, PartialEq, Eq, Structural)]
pub enum ScreenId {
    Main,
    TaskInput,
}

/// Which fragment of a screen has the focus.
#[derive(Debug, Clone, Copy, PartialEq, Eq, Structural)]
pub enum FragmentId {
    MainTasks,
    MainDetail,
    MainInput,
    TaskDescription,
    TaskHypotheses,
}

} // verus!
