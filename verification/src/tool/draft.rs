//! The scratchpad capability: keeps a buffer the model rewrites on every
//! call, and a persisted plan it may revise.

use vstd::prelude::*;

use crate::tool::ToolBuilder;

verus! {

/// The scratchpad state: the builder it was made from, the buffer, the plan.
#[derive(Debug)]
pub struct Draft {
    pub base: ToolBuilder,
    pub buffer: String,
    pub plan: String,
}

impl Draft {
    /// A fresh scratchpad for this builder: empty buffer, the starting plan.
    pub fn from_builder(base: ToolBuilder) -> (r: Draft)
        ensures
            r.base == base,
            r.buffer@ == Seq::<char>::empty(),
            r.plan@ == "1. Review task target and make possible planning."@,
    {
        Draft {
            base,
            buffer: String::new(),
            plan: "1. Review task target and make possible planning.".to_owned(),
        }
    }
}

/// The scratchpad declaration's description and parameter schema, following
/// the advertised function name.
pub open spec fn draft_doc_tail() -> Seq<char> {
    "\",\"description\":\"You'll forget anything after your answer except content recorded to this script paper. So keep ANYTHING important to your task goal, including plan and progress, findings about the environment, and other things. Call this tool to record. Repeat original content on this paper and skip outdated or useless content to delete. Those content originally on paper will be lost if you don't repeat. Summarize useful information you get this round. Revise the plan you made last round to fit the progress.\",\"parameters\":{\"type\":\"object\",\"properties\":{\"content\":{\"type\":\"string\",\"description\":\"Updated content to be recorded on the script paper.\"},\"plan\":{\"type\":\"object\",\"properties\":{\"if_update\":{\"type\":\"bool\",\"description\":\"If you want to edit the current plan\"},\"full_content\":{\"type\":\"string\",\"description\":\"Only not empty if `if_update` is true. Give your full updated plan as a string.\"}}}},\"required\":[\"content\"],\"additionalProperties\":false}}}"@
}

pub fn draft_doc_tail_text() -> (r: &'static str)
    ensures
        r@ == draft_doc_tail(),
{
    "\",\"description\":\"You'll forget anything after your answer except content recorded to this script paper. So keep ANYTHING important to your task goal, including plan and progress, findings about the environment, and other things. Call this tool to record. Repeat original content on this paper and skip outdated or useless content to delete. Those content originally on paper will be lost if you don't repeat. Summarize useful information you get this round. Revise the plan you made last round to fit the progress.\",\"parameters\":{\"type\":\"object\",\"properties\":{\"content\":{\"type\":\"string\",\"description\":\"Updated content to be recorded on the script paper.\"},\"plan\":{\"type\":\"object\",\"properties\":{\"if_update\":{\"type\":\"bool\",\"description\":\"If you want to edit the current plan\"},\"full_content\":{\"type\":\"string\",\"description\":\"Only not empty if `if_update` is true. Give your full updated plan as a string.\"}}}},\"required\":[\"content\"],\"additionalProperties\":false}}}"
}

} // verus!
