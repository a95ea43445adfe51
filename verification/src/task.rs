//! A declarative task: the unit of external input to the runtime.  Loading
//! one from a file happens outside this crate; the runtime only reads it.

use vstd::prelude::*;

use crate::tool::ToolBuilder;

verus! {

/// A task: a name, the target model's name, the objective text, the
/// capabilities to fork, and the iteration budget.  Immutable once loaded.
#[derive(Debug)]
pub struct Task {
    pub name: String,
    pub model_name: String,
    pub target: String,
    pub tools: Vec<ToolBuilder>,
    pub max_iterations: usize,
}

} // verus!
