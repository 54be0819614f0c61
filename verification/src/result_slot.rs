//! The write-once slot through which a session publishes its exit code.

use vstd::prelude::*;

verus! {

/// Holds either nothing, while the child runs, or the one exit code that
/// was published for it. Once set, the slot never changes.
#[derive(Debug, Clone, Copy, PartialEq, Eq)]
pub struct ResultSlot {
    value: Option<i32>,
}

impl View for ResultSlot {
    type V = Option<i32>;

    closed spec fn view(&self) -> Option<i32> {
        self.value
    }
}

/// The content of a slot after a code is offered to it: a filled slot keeps
/// what it has, an empty one takes the offer.
pub open spec fn published(before: Option<i32>, code: i32) -> Option<i32> {
    match before {
        Some(first) => Some(first),
        None => Some(code),
    }
}

impl ResultSlot {
    /// An empty slot.
    pub fn new() -> (slot: ResultSlot)
        ensures
            slot@ is None,
    {
        ResultSlot { value: None }
    }

    /// The published code, if there is one.
    pub fn get(&self) -> (code: Option<i32>)
        ensures
            code == self@,
    {
        self.value
    }

    /// Whether a code has been published.
    pub fn is_resolved(&self) -> (resolved: bool)
        ensures
            resolved == (self@ is Some),
    {
        self.value.is_some()
    }

    /// Offers a code to the slot. An empty slot takes it and the call
    /// returns `true`; a filled slot is left as it is and the call returns
    /// `false`.
    pub fn publish(&mut self, code: i32) -> (first: bool)
        ensures
            final(self)@ == published(old(self)@, code),
            first == (old(self)@ is None),
    {
        if self.value.is_none() {
            self.value = Some(code);
            true
        } else {
            false
        }
    }
}

/// Publishing is write-once: whatever is offered after the first code, the
/// slot still holds the first.
pub proof fn lemma_publish_is_write_once(before: Option<i32>, first: i32, second: i32)
    ensures
        published(published(before, first), second) == published(before, first),
        published(before, first) is Some,
        before is Some ==> published(before, first) == before,
{
}

} // verus!
