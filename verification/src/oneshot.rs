//! A one-shot handoff cell.
//!
//! The native dialogs are callback-driven: the OS invokes a completion
//! callback once the user has chosen a path or cancelled. The command that
//! opened the dialog, however, must return a single response, and only once
//! the user has decided — waiting a fixed delay and reading whatever is
//! there would race against the dialog. The bridge therefore hands the
//! callback's value over through a one-shot cell: the callback resolves the
//! cell exactly once, and the waiting command takes the value out only after
//! the cell is resolved.
//!
//! [`OneShot::resolve`] requires an unresolved cell, so a value is delivered
//! at most once; [`OneShot::take`] requires a resolved cell, so a response
//! can never be produced before the user has decided, and consumes the cell,
//! so a value is taken out at most once.

use vstd::prelude::*;

verus! {

/// A cell carrying exactly one value from a producer (the dialog callback)
/// to a single waiting consumer (the command's task).
pub struct OneShot<T> {
    slot: Option<T>,
}

impl<T> OneShot<T> {
    /// The value the cell was resolved with, if it was.
    pub closed spec fn value(self) -> Option<T> {
        self.slot
    }

    /// Whether the producer has delivered its value yet.
    pub open spec fn is_resolved(self) -> bool {
        self.value() is Some
    }

    /// An empty cell, awaiting its value.
    pub fn new() -> (cell: Self)
        ensures
            !cell.is_resolved(),
    {
        OneShot { slot: None }
    }

    /// Deliver the value. A cell is resolved at most once.
    pub fn resolve(&mut self, value: T)
        requires
            !old(self).is_resolved(),
        ensures
            final(self).value() == Some(value),
    {
        self.slot = Some(value);
    }

    /// Whether the value has arrived; the consumer may take it only then.
    pub fn resolved(&self) -> (r: bool)
        ensures
            r == self.is_resolved(),
    {
        self.slot.is_some()
    }

    /// Take the delivered value out. The cell must be resolved — the
    /// consumer cannot observe anything before the producer has decided —
    /// and is consumed, so the value is taken exactly once.
    pub fn take(self) -> (value: T)
        requires
            self.is_resolved(),
        ensures
            Some(value) == self.value(),
    {
        match self.slot {
            Some(value) => value,
            None => unreached(),
        }
    }
}

} // verus!
