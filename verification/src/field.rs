//! Field-layer state shared with the surrounding editor: identifiers for
//! fields, the transient state of an in-place edit, and the responses a drawn
//! field can hand back.

use vstd::prelude::*;

verus! {

/// Identifier of a field in a reconstructed layout.
pub type FieldId = u64;

/// What a drawn field asks of its surroundings.
pub enum FieldResponse {
    /// Create a class with this name for the pointee at this address.
    NewClass(String, usize),
    /// Keep the containing view from scrolling while an edit is live.
    LockScroll,
    /// Release the scroll lock again.
    UnlockScroll,
}

/// Transient state of an in-place value edit: which address is being edited,
/// the text entered so far, and whether the editor still has to grab focus.
pub struct EditingState {
    /// Address of the value being edited.
    pub address: usize,
    /// The text entered so far.
    pub buf: String,
    /// Whether the edit box still has to grab keyboard focus.
    pub should_focus: bool,
}

impl EditingState {
    /// A fresh edit of the value at `address`, starting from `buf`, that
    /// still has to grab focus.
    pub fn new(address: usize, buf: String) -> (r: EditingState)
        ensures
            r.address == address,
            r.buf == buf,
            r.should_focus,
    {
        EditingState { address, buf, should_focus: true }
    }
}

/// Hands out field identifiers in sequence.  Explicit state owned by the
/// caller, in place of an ambient process-wide counter; identifiers repeat
/// only after the full range has been exhausted.
pub struct FieldIdGenerator {
    counter: u64,
}

impl FieldIdGenerator {
    /// The identifier the next call will hand out.
    pub closed spec fn counter_spec(&self) -> u64 {
        self.counter
    }

    /// A generator whose first identifier is zero.
    pub fn new() -> (r: FieldIdGenerator)
        ensures
            r.counter_spec() == 0,
    {
        FieldIdGenerator { counter: 0 }
    }

    /// Hands out the current identifier and advances, wrapping around only
    /// once the whole range has been used.
    pub fn next_id(&mut self) -> (r: FieldId)
        ensures
            r == old(self).counter_spec(),
            old(self).counter_spec() < u64::MAX ==> final(self).counter_spec() == old(
                self,
            ).counter_spec() + 1,
            old(self).counter_spec() == u64::MAX ==> final(self).counter_spec() == 0,
    {
        let id = self.counter;
        self.counter = if self.counter == u64::MAX {
            0
        } else {
            self.counter + 1
        };
        id
    }
}

} // verus!
