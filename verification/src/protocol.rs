//! Messages exchanged between the observer and the engine.

use vstd::prelude::*;
use crate::scheduler::TaskUpdate;

verus! {

/// Commands the observer sends to the engine.
#[derive(Debug, Clone)]
pub enum UiToEngine {
    AddTask { name: String },
    CancelTask { id: usize },
    Shutdown,
}

/// Messages the engine streams back to the observer.
#[derive(Debug, Clone)]
pub enum EngineToUi {
    TaskUpdate(TaskUpdate),
}

} // verus!
