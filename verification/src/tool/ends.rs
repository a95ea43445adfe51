//! The termination capability: records the task's outcome and asks the
//! agent loop to end the task.

use vstd::prelude::*;

use crate::tool::ToolBuilder;

verus! {

/// The termination capability's state: the recorded success flag and
/// explanation.
#[derive(Debug)]
pub struct TaskEnds {
    pub status: bool,
    pub result: String,
}

impl TaskEnds {
    /// A fresh instance; the builder only names it, its state starts empty.
    pub fn from_builder(base: ToolBuilder) -> (r: TaskEnds)
        ensures
            r.status == false,
            r.result@ == Seq::<char>::empty(),
    {
        let _ = base;
        TaskEnds { status: false, result: String::new() }
    }
}

impl Default for TaskEnds {
    fn default() -> (r: TaskEnds)
        ensures
            r.status == false,
            r.result@ == Seq::<char>::empty(),
    {
        TaskEnds { status: false, result: String::new() }
    }
}

/// The termination declaration's description and parameter schema,
/// following the advertised function name.
pub open spec fn task_ends_doc_tail() -> Seq<char> {
    "\",\"description\":\"Call this tool when task progress ends, and give result. Remind, you should have done every effort to progress the task before calling this tool, and the task ends.\",\"parameters\":{\"type\":\"object\",\"properties\":{\"is_success\":{\"type\":\"bool\",\"description\":\"True for success and false for failure.\"},\"explanation\":{\"type\":\"string\",\"description\":\"Result for success and reason for failure. On success the result should be brief and compact outcome part and followed by the report of the work digest you have done so far. On failure, explain failure reason and provide possible promotion suggestion;\"}},\"required\":[\"is_success\",\"explanation\"],\"additionalProperties\":false}}}"@
}

pub fn task_ends_doc_tail_text() -> (r: &'static str)
    ensures
        r@ == task_ends_doc_tail(),
{
    "\",\"description\":\"Call this tool when task progress ends, and give result. Remind, you should have done every effort to progress the task before calling this tool, and the task ends.\",\"parameters\":{\"type\":\"object\",\"properties\":{\"is_success\":{\"type\":\"bool\",\"description\":\"True for success and false for failure.\"},\"explanation\":{\"type\":\"string\",\"description\":\"Result for success and reason for failure. On success the result should be brief and compact outcome part and followed by the report of the work digest you have done so far. On failure, explain failure reason and provide possible promotion suggestion;\"}},\"required\":[\"is_success\",\"explanation\"],\"additionalProperties\":false}}}"
}

} // verus!
