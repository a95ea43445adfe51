//! The suspension capability: asks the agent loop to wait for a
//! human-supplied response.

use vstd::prelude::*;

use crate::tool::ToolBuilder;

verus! {

/// The suspension capability's state: the help request it last carried, and
/// the response a human supplied.
#[derive(Debug)]
pub struct HumanIntervene {
    pub content: String,
    pub response: String,
}

impl HumanIntervene {
    /// A fresh instance; the builder only names it, its state starts empty.
    pub fn from_builder(base: ToolBuilder) -> (r: HumanIntervene)
        ensures
            r.content@ == Seq::<char>::empty(),
            r.response@ == Seq::<char>::empty(),
    {
        let _ = base;
        HumanIntervene { content: String::new(), response: String::new() }
    }
}

impl Default for HumanIntervene {
    fn default() -> (r: HumanIntervene)
        ensures
            r.content@ == Seq::<char>::empty(),
            r.response@ == Seq::<char>::empty(),
    {
        HumanIntervene { content: String::new(), response: String::new() }
    }
}

/// The suspension declaration's description and parameter schema, following
/// the advertised function name.
pub open spec fn human_doc_tail() -> Seq<char> {
    "\",\"description\":\"Call this tool if you need help from human. e.g. dangerous operation, lack of necessary tools, etc. Make sure you have done every effort before contacting the human, do not ask for trivial help.\",\"parameters\":{\"type\":\"object\",\"properties\":{\"help\":{\"type\":\"string\",\"description\":\"explain to be get from human.\"}},\"required\":[\"help\"],\"additionalProperties\":false}}}"@
}

pub fn human_doc_tail_text() -> (r: &'static str)
    ensures
        r@ == human_doc_tail(),
{
    "\",\"description\":\"Call this tool if you need help from human. e.g. dangerous operation, lack of necessary tools, etc. Make sure you have done every effort before contacting the human, do not ask for trivial help.\",\"parameters\":{\"type\":\"object\",\"properties\":{\"help\":{\"type\":\"string\",\"description\":\"explain to be get from human.\"}},\"required\":[\"help\"],\"additionalProperties\":false}}}"
}

} // verus!
