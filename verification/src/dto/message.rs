use vstd::prelude::*;

verus! {

/// Body of a request that stores or publishes a message.
#[derive(Debug, Clone, PartialEq, Eq)]
pub struct Message {
    pub content: String,
}

impl Message {
    /// Wraps the given text as a message.
    pub fn new(content: String) -> (m: Message)
        ensures
            m.content@ == content@,
    {
        Message { content }
    }
}

} // verus!
