//! Identifiers handed out to callers.

use vstd::prelude::*;
use vstd::string::*;

use crate::text;
use crate::text::push_decimal;

verus! {

/// Names one submitted task for as long as the client lives.
#[derive(Debug, Clone, Copy, PartialEq, Eq, Structural)]
pub struct TaskId {
    pub value: u64,
}

impl TaskId {
    pub open spec fn spec_text(self) -> Seq<char> {
        text::decimal(self.value as nat)
    }

    pub fn new(value: u64) -> (id: TaskId)
        ensures
            id.value == value,
    {
        TaskId { value }
    }

    /// The identifier in decimal notation.
    pub fn text(&self) -> (text: String)
        ensures
            text@ == self.spec_text(),
    {
        let mut text = String::new();
        push_decimal(&mut text, self.value as u128);
        assert(text@ == Seq::<char>::empty() + text::decimal(self.value as nat));
        text
    }
}

/// Names one registered global progress listener.
#[derive(Debug, Clone, Copy, PartialEq, Eq, Structural)]
pub struct GlobalProgressListenerId {
    pub value: u64,
}

} // verus!
