//! Change tracking: a value together with a record of whether it was written.
//!
//! The game engine notices a component as changed whenever it is written through,
//! even when the written value equals the old one. `ChangeTracked` models exactly
//! that: `changed` becomes true on every write and is never cleared by one.

use vstd::prelude::*;

verus! {

/// A value together with whether it has been written since it was wrapped.
pub struct ChangeTracked<T> {
    pub value: T,
    pub changed: bool,
}

impl<T> ChangeTracked<T> {
    /// Wraps a value that has not been written yet.
    pub fn new(value: T) -> (r: ChangeTracked<T>)
        ensures
            r.value == value,
            !r.changed,
    {
        ChangeTracked { value, changed: false }
    }

    /// Reads the value without writing it.
    pub fn get(&self) -> (r: &T)
        ensures
            *r == self.value,
    {
        &self.value
    }

    /// Whether the value has been written since it was wrapped.
    pub fn is_changed(&self) -> (r: bool)
        ensures
            r == self.changed,
    {
        self.changed
    }

    /// Unwraps the value.
    pub fn into_inner(self) -> (r: T)
        ensures
            r == self.value,
    {
        self.value
    }
}

} // verus!
