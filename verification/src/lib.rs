//! An agent-task runtime: a declarative task names a target model and a set of
//! capabilities; the runtime admits it, forks the capabilities for the task's
//! exclusive use, and drives a request / act loop until the task ends or its
//! iteration budget runs out.  The protocol layer, the capability abstraction
//! and the orchestration state machine live here, with their behaviour stated
//! in contracts; the network transport and process spawning stay outside.

pub mod config;
pub mod model;
pub mod provider;
pub mod runtime;
pub mod task;
pub mod text;
pub mod tool;
pub mod utils;
