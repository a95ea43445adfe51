//! The runtime: the shared model pool and capability registry, task
//! admission, and the per-task state machine the agent loop drives.  The
//! loop's decisions are all here as pure steps; the caller performs the
//! network exchange and any external command between steps.

use vstd::prelude::*;

use crate::config::{config_err_rel, models_of_rel, resolvable, Config};
use crate::model::Model;
use crate::provider::{msg_eq, Message, Request, Roles};
use crate::task::Task;
use crate::text::str_eq;
use crate::tool::{
    available_tools, clone_strings, fork_rel, invoke_rel, registry_ok, CallArgs, CallEffect,
    Capability,
};
use crate::utils::{Errorbase, ProviderNotRegistered, ToolCallingError};

verus! {

/// Where a task stands.  `Ended` is terminal: every stepping function
/// requires a live status, so no further request is ever built for an ended
/// task.
#[derive(Debug)]
pub enum Status {
    NotStarted,
    Running,
    Waiting,
    Ended { success: bool, explanation: String },
}

/// One completed exchange, appended to a task's log and never rewritten.
#[derive(Debug)]
pub struct RuntimeHistory {
    pub time: u64,
    pub request: String,
    pub response: String,
}

/// One admitted task's live state: the declarative task itself, its private
/// capability forks, the index of its resolved model in the runtime's pool,
/// the accumulated conversation and exchange log, the iteration counter and
/// the status.
#[derive(Debug)]
pub struct RuntimeTask {
    pub task: Task,
    pub history: Vec<RuntimeHistory>,
    pub messages: Vec<Message>,
    pub model_index: usize,
    pub tools: Vec<Capability>,
    pub status: Status,
    pub iterations: usize,
}

/// The runtime: the configuration it was built from, the shared model pool,
/// the capability registry, and the admitted tasks.
#[derive(Debug)]
pub struct Runtime {
    pub config: Config,
    pub models: Vec<Model>,
    pub tools: Vec<Capability>,
    pub tasks: Vec<RuntimeTask>,
}

/// What one completed round asks of the state machine.
#[derive(Debug)]
pub enum RoundOutcome {
    Continue,
    Suspend,
    End { success: bool, explanation: String },
}

// ---------------------------------------------------------------------------
// Admission specification
// ---------------------------------------------------------------------------

/// `idx` is the first pool entry carrying this model name.
pub open spec fn model_resolved(models: Seq<Model>, name: Seq<char>, idx: int) -> bool {
    &&& 0 <= idx < models.len()
    &&& models[idx].name@ == name
    &&& forall|k: int| 0 <= k < idx ==> models[k].name@ != name
}

pub open spec fn model_registered(models: Seq<Model>, name: Seq<char>) -> bool {
    exists|i: int| 0 <= i < models.len() && models[i].name@ == name
}

/// The first registry template carrying this capability name.
pub open spec fn template_for(tools: Seq<Capability>, name: Seq<char>) -> Option<Capability>
    decreases tools.len(),
{
    if tools.len() == 0 {
        None
    } else if tools[0].spec_name() == name {
        Some(tools[0])
    } else {
        template_for(tools.drop_first(), name)
    }
}

/// A task can be admitted: its model name is registered and every requested
/// capability has a registry template.
pub open spec fn admissible(models: Seq<Model>, registry: Seq<Capability>, task: Task) -> bool {
    &&& model_registered(models, task.model_name@)
    &&& forall|i: int|
        0 <= i < task.tools@.len() ==> template_for(registry, task.tools@[i].name@) is Some
}

/// What a freshly admitted task instance looks like: counter zero, status
/// `NotStarted`, empty history, the model resolved to its pool index, and
/// one private fork per requested capability, taken from the first matching
/// template, in order.
pub open spec fn admitted_rel(
    models: Seq<Model>,
    registry: Seq<Capability>,
    task: Task,
    rt: RuntimeTask,
) -> bool {
    &&& rt.task == task
    &&& rt.history@ == Seq::<RuntimeHistory>::empty()
    &&& rt.messages@ == Seq::<Message>::empty()
    &&& model_resolved(models, task.model_name@, rt.model_index as int)
    &&& rt.status is NotStarted
    &&& rt.iterations == 0
    &&& rt.tools@.len() == task.tools@.len()
    &&& forall|i: int|
        0 <= i < task.tools@.len() ==> (template_for(
            registry,
            (#[trigger] task.tools@[i]).name@,
        ) matches Some(t) && fork_rel(t, rt.tools@[i]))
}

/// The error admission fails with: an unregistered model name, or else the
/// first requested capability without a template.
pub open spec fn admission_err(
    models: Seq<Model>,
    registry: Seq<Capability>,
    task: Task,
    e: Errorbase,
) -> bool {
    if !model_registered(models, task.model_name@) {
        e.content@ == "requested model "@ + task.model_name@ + " not found"@
    } else {
        exists|i: int|
            0 <= i < task.tools@.len() && template_for(registry, task.tools@[i].name@) is None && (
            forall|k: int| 0 <= k < i ==> template_for(registry, task.tools@[k].name@) is Some)
                && e.content@ == "requested tool "@ + task.tools@[i].name@ + " not found"@
    }
}

// ---------------------------------------------------------------------------
// Lookup helpers
// ---------------------------------------------------------------------------

fn find_model(models: &Vec<Model>, name: &String) -> (r: Option<usize>)
    ensures
        match r {
            Some(i) => model_resolved(models@, name@, i as int),
            None => !model_registered(models@, name@),
        },
{
    let n = models.len();
    let mut i: usize = 0;
    while i < n
        invariant
            n == models@.len(),
            0 <= i <= n,
            forall|k: int| 0 <= k < i ==> models@[k].name@ != name@,
        decreases n - i,
    {
        if str_eq(models[i].name.as_str(), name.as_str()) {
            return Some(i);
        }
        i += 1;
    }
    None
}

fn find_template(tools: &Vec<Capability>, name: &String) -> (r: Option<usize>)
    ensures
        match r {
            Some(i) => i < tools@.len() && template_for(tools@, name@) == Some(tools@[i as int])
                && tools@[i as int].spec_name() == name@,
            None => template_for(tools@, name@) is None,
        },
{
    let n = tools.len();
    let mut i: usize = 0;
    proof {
        assert(tools@.skip(0) =~= tools@);
    }
    while i < n
        invariant
            n == tools@.len(),
            0 <= i <= n,
            template_for(tools@, name@) == template_for(tools@.skip(i as int), name@),
        decreases n - i,
    {
        let tool_name = tools[i].name();
        proof {
            assert(tools@.skip(i as int)[0] == tools@[i as int]);
            assert(tools@.skip(i as int).drop_first() =~= tools@.skip(i + 1));
        }
        if str_eq(tool_name.as_str(), name.as_str()) {
            return Some(i);
        }
        i += 1;
    }
    None
}

// ---------------------------------------------------------------------------
// Admission
// ---------------------------------------------------------------------------

impl RuntimeTask {
    /// Admits one declarative task against the runtime's pool and registry.
    /// Admission is atomic: either every lookup succeeds and a complete
    /// instance comes back, or the first failure is reported and nothing is
    /// built.
    pub fn from_task(runtime: &Runtime, task: Task) -> (r: Result<RuntimeTask, Errorbase>)
        ensures
            r is Ok <==> admissible(runtime.models@, runtime.tools@, task),
            r matches Ok(rt) ==> admitted_rel(runtime.models@, runtime.tools@, task, rt),
            r matches Err(e) ==> admission_err(runtime.models@, runtime.tools@, task, e),
    {
        let model_index = match find_model(&runtime.models, &task.model_name) {
            Some(i) => i,
            None => {
                let mut msg = String::new();
                msg.append("requested model ");
                msg.append(task.model_name.as_str());
                msg.append(" not found");
                proof {
                    assert(msg@ =~= "requested model "@ + task.model_name@ + " not found"@);
                }
                return Err(Errorbase::new(msg));
            },
        };
        let mut forked: Vec<Capability> = Vec::new();
        let n = task.tools.len();
        let mut i: usize = 0;
        while i < n
            invariant
                n == task.tools@.len(),
                0 <= i <= n,
                forked@.len() == i,
                model_resolved(runtime.models@, task.model_name@, model_index as int),
                forall|k: int|
                    0 <= k < i ==> (template_for(
                        runtime.tools@,
                        (#[trigger] task.tools@[k]).name@,
                    ) matches Some(t) && fork_rel(t, forked@[k])),
            decreases n - i,
        {
            let builder = &task.tools[i];
            match find_template(&runtime.tools, &builder.name) {
                Some(t) => {
                    match runtime.tools[t].fork(clone_strings(&builder.args)) {
                        Ok(cap) => {
                            forked.push(cap);
                        },
                        Err(e) => {
                            proof {
                                assert(false);
                            }
                            return Err(e);
                        },
                    }
                },
                None => {
                    let mut msg = String::new();
                    msg.append("requested tool ");
                    msg.append(builder.name.as_str());
                    msg.append(" not found");
                    proof {
                        assert(msg@ =~= "requested tool "@ + task.tools@[i as int].name@
                            + " not found"@);
                    }
                    return Err(Errorbase::new(msg));
                },
            }
            i += 1;
        }
        Ok(
            RuntimeTask {
                task,
                history: Vec::new(),
                messages: Vec::new(),
                model_index,
                tools: forked,
                status: Status::NotStarted,
                iterations: 0,
            },
        )
    }
}

impl Runtime {
    /// Builds the runtime: resolves the configured model pool, installs the
    /// capability registry, and starts with no tasks.
    pub fn init(config: Config) -> (r: Result<Runtime, ProviderNotRegistered>)
        ensures
            r is Ok <==> resolvable(config),
            r matches Ok(rt) ==> models_of_rel(config, rt.models@) && registry_ok(rt.tools@)
                && rt.tasks@ == Seq::<RuntimeTask>::empty() && rt.config == config,
            r matches Err(e) ==> config_err_rel(config, e),
    {
        let models = match config.to_models() {
            Ok(v) => v,
            Err(e) => {
                return Err(e);
            },
        };
        let tools = available_tools();
        Ok(Runtime { config, models, tools, tasks: Vec::new() })
    }

    /// Admits a task and keeps the instance.  For any task whose model or
    /// capability names are unregistered, the task list is left exactly as
    /// it was and the resolution error comes back: no partial instance is
    /// ever exposed.
    pub fn new_task(&mut self, task: Task) -> (r: Result<(), Errorbase>)
        ensures
            final(self).config == old(self).config,
            final(self).models@ == old(self).models@,
            final(self).tools@ == old(self).tools@,
            r is Ok <==> admissible(old(self).models@, old(self).tools@, task),
            r matches Ok(u) ==> final(self).tasks@.len() == old(self).tasks@.len() + 1 && (forall|
                i: int,
            |
                0 <= i < old(self).tasks@.len() ==> final(self).tasks@[i] == old(self).tasks@[i])
                && admitted_rel(
                old(self).models@,
                old(self).tools@,
                task,
                final(self).tasks@.last(),
            ),
            r matches Err(e) ==> final(self).tasks@ == old(self).tasks@ && admission_err(
                old(self).models@,
                old(self).tools@,
                task,
                e,
            ),
    {
        let instance = match RuntimeTask::from_task(&*self, task) {
            Ok(rt) => rt,
            Err(e) => {
                return Err(e);
            },
        };
        self.tasks.push(instance);
        Ok(())
    }
}

// ---------------------------------------------------------------------------
// The state machine, one pure step at a time
// ---------------------------------------------------------------------------

/// How one completed round transforms a task: the counter moves up once,
/// and the status follows the round's outcome — a termination call ends the
/// task with its recorded outcome; otherwise, reaching the budget forces
/// `Ended` with `success == false` and the fixed explanation; otherwise a
/// suspension call leaves the task `Waiting`, and a plain round leaves it
/// `Running`.
pub open spec fn round_rel(a: RuntimeTask, b: RuntimeTask, outcome: RoundOutcome) -> bool {
    &&& b.task == a.task
    &&& b.history@ == a.history@
    &&& b.messages@ == a.messages@
    &&& b.model_index == a.model_index
    &&& b.tools@ == a.tools@
    &&& b.iterations == a.iterations + 1
    &&& match outcome {
        RoundOutcome::End { success, explanation } => b.status matches Status::Ended {
            success: s2,
            explanation: e2,
        } && s2 == success && e2 == explanation,
        RoundOutcome::Suspend => if a.iterations + 1 == a.task.max_iterations {
            b.status matches Status::Ended { success, explanation } && success == false
                && explanation@ == "iteration budget exhausted"@
        } else {
            b.status is Waiting
        },
        RoundOutcome::Continue => if a.iterations + 1 == a.task.max_iterations {
            b.status matches Status::Ended { success, explanation } && success == false
                && explanation@ == "iteration budget exhausted"@
        } else {
            b.status is Running
        },
    }
}

/// Folding a batch of results into the conversation: one message per result
/// text, in the given order, after everything already there.
pub open spec fn batch_rel(base: Seq<Message>, results: Seq<String>, out: Seq<Message>) -> bool {
    &&& out.len() == base.len() + results.len()
    &&& forall|i: int| 0 <= i < base.len() ==> out[i] == base[i]
    &&& forall|k: int|
        0 <= k < results.len() ==> out[base.len() + k].role == Roles::User && out[base.len()
            + k].content == results[k] && out[base.len() + k].tool_calls is None
}

impl RuntimeTask {
    /// First loop entry: the conversation is seeded with one user message
    /// holding the objective text, and the task starts running — unless its
    /// budget is zero, in which case the counter has already reached the
    /// budget and the task is forced to end at once, unsuccessful.
    pub fn begin(&mut self)
        requires
            old(self).status is NotStarted,
        ensures
            (if old(self).task.max_iterations == 0 {
                final(self).status matches Status::Ended { success, explanation } && success
                    == false && explanation@ == "iteration budget exhausted"@
            } else {
                final(self).status is Running
            }),
            final(self).messages@.len() == old(self).messages@.len() + 1,
            forall|i: int|
                0 <= i < old(self).messages@.len() ==> final(self).messages@[i] == old(
                    self,
                ).messages@[i],
            final(self).messages@.last().role == Roles::User,
            final(self).messages@.last().content == old(self).task.target,
            final(self).messages@.last().tool_calls is None,
            final(self).task == old(self).task,
            final(self).history@ == old(self).history@,
            final(self).model_index == old(self).model_index,
            final(self).tools@ == old(self).tools@,
            final(self).iterations == old(self).iterations,
    {
        let seed = Message {
            role: Roles::User,
            content: self.task.target.clone(),
            tool_calls: None,
        };
        self.messages.push(seed);
        if self.task.max_iterations == 0 {
            self.status = Status::Ended {
                success: false,
                explanation: "iteration budget exhausted".to_owned(),
            };
        } else {
            self.status = Status::Running;
        }
    }

    /// Builds the round's request: the resolved model's name, the whole
    /// accumulated conversation, and the declarations of every private
    /// capability fork, in order.
    pub fn build_request(&self, model: &Model) -> (r: Request)
        requires
            self.status is Running,
        ensures
            r.model == model.name,
            r.messages@.len() == self.messages@.len(),
            forall|i: int|
                0 <= i < self.messages@.len() ==> msg_eq(r.messages@[i], self.messages@[i]),
            r.tools@.len() == self.tools@.len(),
            forall|k: int|
                0 <= k < self.tools@.len() ==> r.tools@[k]@ == self.tools@[k].spec_declaration(),
    {
        let mut req = Request::new(model.name.clone());
        let n = self.messages.len();
        let mut i: usize = 0;
        while i < n
            invariant
                n == self.messages@.len(),
                0 <= i <= n,
                req.model == model.name,
                req.tools@.len() == 0,
                req.messages@.len() == i,
                forall|k: int| 0 <= k < i ==> msg_eq(req.messages@[k], self.messages@[k]),
            decreases n - i,
        {
            req = req.add_message(&self.messages[i]);
            i += 1;
        }
        req.add_tools(&self.tools)
    }

    /// The first private fork carrying this capability name, if any.
    pub fn find_tool(&self, name: &String) -> (r: Option<usize>)
        ensures
            match r {
                Some(i) => i < self.tools@.len() && self.tools@[i as int].spec_name() == name@ && (
                forall|k: int| 0 <= k < i ==> self.tools@[k].spec_name() != name@),
                None => forall|k: int|
                    0 <= k < self.tools@.len() ==> self.tools@[k].spec_name() != name@,
            },
    {
        let n = self.tools.len();
        let mut i: usize = 0;
        while i < n
            invariant
                n == self.tools@.len(),
                0 <= i <= n,
                forall|k: int| 0 <= k < i ==> self.tools@[k].spec_name() != name@,
            decreases n - i,
        {
            let tool_name = self.tools[i].name();
            if str_eq(tool_name.as_str(), name.as_str()) {
                return Some(i);
            }
            i += 1;
        }
        None
    }

    /// Finds the fork a call names.  An unknown name does not abort the
    /// task: the error carries the feedback line that joins the
    /// conversation, so the model can retry or adapt.
    pub fn resolve_call(&self, name: &String) -> (r: Result<usize, ToolCallingError>)
        ensures
            match r {
                Ok(i) => i < self.tools@.len() && self.tools@[i as int].spec_name() == name@ && (
                forall|k: int| 0 <= k < i ==> self.tools@[k].spec_name() != name@),
                Err(e) => (forall|k: int|
                    0 <= k < self.tools@.len() ==> self.tools@[k].spec_name() != name@)
                    && e.content@ == "required tool not found in runtime: "@ + name@,
            },
    {
        match self.find_tool(name) {
            Some(i) => Ok(i),
            None => {
                let mut msg = String::new();
                msg.append("required tool not found in runtime: ");
                msg.append(name.as_str());
                proof {
                    assert(msg@ =~= "required tool not found in runtime: "@ + name@);
                }
                Err(Errorbase::new(msg))
            },
        }
    }

    /// Applies one parsed invocation to the fork at `i`; every other fork
    /// and everything else about the task is kept as it was.
    pub fn invoke_at(&mut self, i: usize, args: CallArgs) -> (r: Result<CallEffect, Errorbase>)
        requires
            i < old(self).tools@.len(),
        ensures
            final(self).tools@.len() == old(self).tools@.len(),
            invoke_rel(old(self).tools@[i as int], final(self).tools@[i as int], args, r),
            forall|k: int|
                0 <= k < old(self).tools@.len() && k != i ==> final(self).tools@[k] == old(
                    self,
                ).tools@[k],
            final(self).task == old(self).task,
            final(self).history@ == old(self).history@,
            final(self).messages@ == old(self).messages@,
            final(self).model_index == old(self).model_index,
            final(self).status == old(self).status,
            final(self).iterations == old(self).iterations,
    {
        let mut cap = self.tools.remove(i);
        let r = cap.invoke(args);
        self.tools.insert(i, cap);
        proof {
            assert(forall|k: int|
                0 <= k < old(self).tools@.len() && k != i ==> final(self).tools@[k] == old(
                    self,
                ).tools@[k]);
        }
        r
    }

    /// Logs one completed exchange.
    pub fn record_exchange(&mut self, time: u64, request: String, response: String)
        ensures
            final(self).history@.len() == old(self).history@.len() + 1,
            forall|i: int|
                0 <= i < old(self).history@.len() ==> final(self).history@[i] == old(
                    self,
                ).history@[i],
            final(self).history@.last().time == time,
            final(self).history@.last().request == request,
            final(self).history@.last().response == response,
            final(self).task == old(self).task,
            final(self).messages@ == old(self).messages@,
            final(self).model_index == old(self).model_index,
            final(self).tools@ == old(self).tools@,
            final(self).status == old(self).status,
            final(self).iterations == old(self).iterations,
    {
        self.history.push(RuntimeHistory { time, request, response });
    }

    /// Folds a completed batch's result texts into the conversation, one
    /// user message each, in the given order.
    pub fn integrate_results(&mut self, results: Vec<String>)
        ensures
            batch_rel(old(self).messages@, results@, final(self).messages@),
            final(self).task == old(self).task,
            final(self).history@ == old(self).history@,
            final(self).model_index == old(self).model_index,
            final(self).tools@ == old(self).tools@,
            final(self).status == old(self).status,
            final(self).iterations == old(self).iterations,
    {
        let ghost base = self.messages@;
        let n = results.len();
        let mut i: usize = 0;
        while i < n
            invariant
                n == results@.len(),
                0 <= i <= n,
                base == old(self).messages@,
                self.messages@.len() == base.len() + i,
                forall|k: int| 0 <= k < base.len() ==> self.messages@[k] == base[k],
                forall|j: int|
                    base.len() <= j < base.len() + i ==> (#[trigger] self.messages@[j]).role
                        == Roles::User && self.messages@[j].content == results@[j - base.len()]
                        && self.messages@[j].tool_calls is None,
                self.task == old(self).task,
                self.history@ == old(self).history@,
                self.model_index == old(self).model_index,
                self.tools@ == old(self).tools@,
                self.status == old(self).status,
                self.iterations == old(self).iterations,
            decreases n - i,
        {
            let text = results[i].clone();
            let ghost prev = self.messages@;
            self.messages.push(Message { role: Roles::User, content: text, tool_calls: None });
            proof {
                assert forall|j: int|
                    base.len() <= j < base.len() + i + 1 implies (#[trigger] self.messages@[j]).role
                    == Roles::User && self.messages@[j].content == results@[j - base.len()]
                    && self.messages@[j].tool_calls is None by {
                    if j < base.len() + i {
                        assert(self.messages@[j] == prev[j]);
                    } else {
                        assert(self.messages@[j] == self.messages@.last());
                    }
                }
            }
            i += 1;
        }
    }

    /// Closes one round-trip: the counter moves up once and the status
    /// follows the outcome, with the budget forcing an unsuccessful end.
    pub fn complete_round(&mut self, outcome: RoundOutcome)
        requires
            old(self).status is Running,
            old(self).iterations < old(self).task.max_iterations,
        ensures
            round_rel(*old(self), *final(self), outcome),
    {
        self.iterations = self.iterations + 1;
        match outcome {
            RoundOutcome::End { success, explanation } => {
                self.status = Status::Ended { success, explanation };
            },
            RoundOutcome::Suspend => {
                if self.iterations == self.task.max_iterations {
                    self.status = Status::Ended {
                        success: false,
                        explanation: "iteration budget exhausted".to_owned(),
                    };
                } else {
                    self.status = Status::Waiting;
                }
            },
            RoundOutcome::Continue => {
                if self.iterations == self.task.max_iterations {
                    self.status = Status::Ended {
                        success: false,
                        explanation: "iteration budget exhausted".to_owned(),
                    };
                } else {
                    self.status = Status::Running;
                }
            },
        }
    }

    /// External input arrives for a waiting task: the reply joins the
    /// conversation and the task runs again.
    pub fn resume(&mut self, reply: String)
        requires
            old(self).status is Waiting,
        ensures
            final(self).status is Running,
            final(self).messages@.len() == old(self).messages@.len() + 1,
            forall|i: int|
                0 <= i < old(self).messages@.len() ==> final(self).messages@[i] == old(
                    self,
                ).messages@[i],
            final(self).messages@.last().role == Roles::User,
            final(self).messages@.last().content == reply,
            final(self).messages@.last().tool_calls is None,
            final(self).task == old(self).task,
            final(self).history@ == old(self).history@,
            final(self).model_index == old(self).model_index,
            final(self).tools@ == old(self).tools@,
            final(self).iterations == old(self).iterations,
    {
        self.messages.push(Message { role: Roles::User, content: reply, tool_calls: None });
        self.status = Status::Running;
    }
}

/// What a batch of effects asks of the state machine: the first termination
/// effect decides the round; otherwise any suspension effect does; a batch
/// with neither just continues.
pub fn round_outcome(effects: &Vec<CallEffect>) -> (r: RoundOutcome)
    ensures
        r matches RoundOutcome::End { success, explanation } ==> exists|i: int|
            0 <= i < effects@.len() && ((#[trigger] effects@[i]) matches CallEffect::End {
                success: s2,
                explanation: e2,
                ..
            } && s2 == success && e2 == explanation) && (forall|k: int|
                0 <= k < i ==> !(effects@[k] is End)),
        r is Suspend ==> (forall|k: int| 0 <= k < effects@.len() ==> !(effects@[k] is End)) && (
        exists|i: int| 0 <= i < effects@.len() && (#[trigger] effects@[i]) is Suspend),
        r is Continue ==> forall|k: int|
            0 <= k < effects@.len() ==> !(effects@[k] is End) && !(effects@[k] is Suspend),
{
    let n = effects.len();
    let mut saw_suspend = false;
    let mut i: usize = 0;
    while i < n
        invariant
            n == effects@.len(),
            0 <= i <= n,
            forall|k: int| 0 <= k < i ==> !(effects@[k] is End),
            saw_suspend ==> exists|k: int| 0 <= k < i && (#[trigger] effects@[k]) is Suspend,
            !saw_suspend ==> forall|k: int| 0 <= k < i ==> !(effects@[k] is Suspend),
        decreases n - i,
    {
        match &effects[i] {
            CallEffect::End { success, explanation, .. } => {
                return RoundOutcome::End {
                    success: *success,
                    explanation: explanation.clone(),
                };
            },
            CallEffect::Suspend { .. } => {
                saw_suspend = true;
            },
            _ => {},
        }
        i += 1;
    }
    if saw_suspend {
        RoundOutcome::Suspend
    } else {
        RoundOutcome::Continue
    }
}

// ---------------------------------------------------------------------------
// Laws
// ---------------------------------------------------------------------------

/// Forced termination.  A running task whose round brings no termination
/// call, completed exactly at its iteration budget, ends with
/// `success == false` and the fixed explanation — and `Ended` is terminal:
/// `build_request`, `invoke_at` and `complete_round` all require a live
/// status, so no further request follows.
pub proof fn lemma_budget_forces_end(a: RuntimeTask, b: RuntimeTask, outcome: RoundOutcome)
    requires
        round_rel(a, b, outcome),
        !(outcome is End),
        a.iterations + 1 == a.task.max_iterations,
    ensures
        b.iterations == a.task.max_iterations,
        b.status matches Status::Ended { success, explanation } && success == false
            && explanation@ == "iteration budget exhausted"@,
{
}

/// The iteration counter only moves up, and a round completed within the
/// budget leaves it within the budget.
pub proof fn lemma_counter_monotone(a: RuntimeTask, b: RuntimeTask, outcome: RoundOutcome)
    requires
        round_rel(a, b, outcome),
        a.iterations < a.task.max_iterations,
    ensures
        a.iterations < b.iterations,
        b.iterations <= b.task.max_iterations,
{
}

/// The message texts of a conversation, in order.
pub open spec fn texts(ms: Seq<Message>) -> Seq<String>
    decreases ms.len(),
{
    if ms.len() == 0 {
        Seq::<String>::empty()
    } else {
        texts(ms.drop_last()).push(ms.last().content)
    }
}

proof fn lemma_texts_spec(ms: Seq<Message>)
    ensures
        texts(ms).len() == ms.len(),
        forall|i: int| 0 <= i < ms.len() ==> texts(ms)[i] == ms[i].content,
    decreases ms.len(),
{
    if ms.len() > 0 {
        lemma_texts_spec(ms.drop_last());
    }
}

/// Batch integration is order-insensitive in what it leaves behind: folding
/// the same multiset of result texts into the same conversation — in
/// whatever completion order — leaves conversations carrying the same
/// multiset of message texts, with every result present.
pub proof fn lemma_batch_order_irrelevant(
    base: Seq<Message>,
    r1: Seq<String>,
    r2: Seq<String>,
    m1: Seq<Message>,
    m2: Seq<Message>,
)
    requires
        r1.to_multiset() == r2.to_multiset(),
        batch_rel(base, r1, m1),
        batch_rel(base, r2, m2),
    ensures
        texts(m1).to_multiset() == texts(m2).to_multiset(),
{
    lemma_texts_spec(m1);
    lemma_texts_spec(m2);
    lemma_texts_spec(base);
    assert(r1.len() == r2.len()) by {
        r1.to_multiset_ensures();
        r2.to_multiset_ensures();
    }
    assert(texts(m1) =~= texts(base) + r1);
    assert(texts(m2) =~= texts(base) + r2);
    vstd::seq_lib::lemma_multiset_commutative(texts(base), r1);
    vstd::seq_lib::lemma_multiset_commutative(texts(base), r2);
}

} // verus!
