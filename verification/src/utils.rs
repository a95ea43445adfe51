use vstd::prelude::*;

verus! {

/// Every failure in this crate carries one line of text.  The aliases below
/// name the places an error can come from; they all share this shape.
#[derive(Debug)]
pub struct Errorbase {
    pub content: String,
}

// Model picking and tool binding errors.
pub type ModelNotRegistered = Errorbase;

pub type ToolNotRegistered = Errorbase;

pub type ProviderNotRegistered = Errorbase;

// Service errors.
pub type ProviderError = Errorbase;

pub type ProviderResponseError = Errorbase;

// Tool call errors.
pub type ToolCallingError = Errorbase;

pub type ToolForkingError = Errorbase;

pub type ShellRunningError = Errorbase;

impl Errorbase {
    pub fn new(content: String) -> (r: Errorbase)
        ensures
            r.content == content,
    {
        Errorbase { content }
    }

    /// The error's text, for callers that report it.
    pub fn message(&self) -> (r: &str)
        ensures
            r@ == self.content@,
    {
        self.content.as_str()
    }
}

} // verus!
