//! The capability ("tool") abstraction: a fixed registry of templates, each
//! forkable into a task-private instance, each invocable with parsed
//! arguments.  Invocation is a pure state step here; running an external
//! command is handed back to the caller as an effect.

pub mod draft;
pub mod human;
pub mod ends;
pub mod shell;

use vstd::prelude::*;

use crate::text::json_escaped;
use crate::utils::{Errorbase, ToolCallingError, ToolForkingError};
use draft::Draft;
use human::HumanIntervene;
use ends::TaskEnds;
use shell::Shell;

verus! {

/// A task-local request to instantiate a capability by name, with
/// initialization arguments.
#[derive(Debug)]
pub struct ToolBuilder {
    pub name: String,
    pub args: Vec<String>,
}

impl Clone for ToolBuilder {
    fn clone(&self) -> (res: Self)
        ensures
            res.name == self.name,
            res.args@ == self.args@,
    {
        ToolBuilder { name: self.name.clone(), args: clone_strings(&self.args) }
    }
}

/// An element-wise copy of a string list.
pub fn clone_strings(v: &Vec<String>) -> (r: Vec<String>)
    ensures
        r@ == v@,
{
    let mut out: Vec<String> = Vec::new();
    let n = v.len();
    let mut i: usize = 0;
    while i < n
        invariant
            n == v@.len(),
            0 <= i <= n,
            out@ =~= v@.take(i as int),
        decreases n - i,
    {
        out.push(v[i].clone());
        proof {
            assert(out@ =~= v@.take(i + 1));
        }
        i += 1;
    }
    proof {
        assert(v@.take(n as int) =~= v@);
    }
    out
}

/// One capability instance: a registry template or a task-private fork.
#[derive(Debug)]
pub enum Capability {
    Draft(Draft),
    Shell(Shell),
    Human(HumanIntervene),
    Ends(TaskEnds),
}

/// Arguments to one capability invocation, already parsed against the
/// capability's schema.
#[derive(Debug)]
pub enum CallArgs {
    Draft { content: String, plan: Option<PlanArgs> },
    Human { help: String },
    Ends { is_success: bool, explanation: String },
    Shell { executable: String, args: Vec<String> },
}

/// The optional plan revision a scratchpad call may carry.
#[derive(Debug)]
pub struct PlanArgs {
    pub if_update: bool,
    pub full_content: Option<String>,
}

/// What one invocation asks of the caller.
#[derive(Debug)]
pub enum CallEffect {
    /// A result string to fold back into the conversation.
    Reply { text: String },
    /// An external command to run; its report is rendered afterwards.
    RunShell { executable: String, args: Vec<String> },
    /// The task should move to `Waiting`; the text is the capability's reply.
    Suspend { text: String },
    /// The task should end with this outcome; the text is the capability's
    /// reply.
    End { success: bool, explanation: String, text: String },
}

// ---------------------------------------------------------------------------
// Specification relations
// ---------------------------------------------------------------------------

/// The plan after a scratchpad call: replaced only when a revision asks so.
pub open spec fn draft_new_plan(old_plan: String, plan: Option<PlanArgs>) -> String {
    match plan {
        Some(p) => if p.if_update {
            p.full_content->0
        } else {
            old_plan
        },
        None => old_plan,
    }
}

/// An invocation whose argument shape does not belong to the capability:
/// the state is kept and an invocation error comes back.
pub open spec fn mismatch_rel(
    pre: Capability,
    post: Capability,
    r: Result<CallEffect, Errorbase>,
) -> bool {
    &&& post == pre
    &&& r matches Err(e) && e.content@ == "Calling "@ + pre.spec_name()
        + " error: mismatched arguments."@
}

/// How one invocation relates the state before, the state after, the parsed
/// arguments and the outcome.
pub open spec fn invoke_rel(
    pre: Capability,
    post: Capability,
    args: CallArgs,
    r: Result<CallEffect, Errorbase>,
) -> bool {
    match pre {
        Capability::Draft(d) => match args {
            CallArgs::Draft { content, plan } => {
                if plan matches Some(p) && p.if_update && p.full_content is None {
                    // the buffer is replaced before the plan revision is checked
                    &&& post == Capability::Draft(
                        Draft { base: d.base, buffer: content, plan: d.plan },
                    )
                    &&& r matches Err(e) && e.content@
                        == "illegal tool call: plan.full_content should not be none if plan.if_update is true."@
                } else {
                    &&& post == Capability::Draft(
                        Draft { base: d.base, buffer: content, plan: draft_new_plan(d.plan, plan) },
                    )
                    &&& r matches Ok(eff) && eff matches CallEffect::Reply { text } && text@
                        == Seq::<char>::empty()
                }
            },
            _ => mismatch_rel(pre, post, r),
        },
        Capability::Human(h) => match args {
            CallArgs::Human { help } => {
                &&& post == Capability::Human(HumanIntervene { content: help, response: h.response })
                &&& r matches Ok(eff) && eff matches CallEffect::Suspend { text } && text@
                    == "{\"response\":\""@ + json_escaped(h.response@) + "\"}"@
            },
            _ => mismatch_rel(pre, post, r),
        },
        Capability::Ends(_) => match args {
            CallArgs::Ends { is_success, explanation } => {
                &&& post == Capability::Ends(TaskEnds { status: is_success, result: explanation })
                &&& r matches Ok(eff) && eff matches CallEffect::End {
                    success,
                    explanation: e2,
                    text,
                } && success == is_success && e2 == explanation && text@ == (if is_success {
                    "Task ended with status: true"@
                } else {
                    "Task ended with status: false"@
                })
            },
            _ => mismatch_rel(pre, post, r),
        },
        Capability::Shell(_) => match args {
            CallArgs::Shell { executable, args: sargs } => {
                if sargs@.len() == 0 {
                    &&& post == pre
                    &&& r matches Err(e) && e.content@ == "Error: zero shell command."@
                } else {
                    &&& post == pre
                    &&& r matches Ok(eff) && eff matches CallEffect::RunShell {
                        executable: e2,
                        args: a2,
                    } && e2 == executable && a2@ == sargs@
                }
            },
            _ => mismatch_rel(pre, post, r),
        },
    }
}

/// How a fork relates to the template it came from: scratchpad and shell
/// instances copy their state, the suspension and termination capabilities
/// start fresh.
pub open spec fn fork_rel(t: Capability, f: Capability) -> bool {
    match (t, f) {
        (Capability::Draft(d), Capability::Draft(fd)) => {
            &&& fd.base.name@ == d.base.name@
            &&& fd.base.args@ == d.base.args@
            &&& fd.buffer == d.buffer
            &&& fd.plan == d.plan
        },
        (Capability::Shell(s), Capability::Shell(fs)) => {
            &&& fs.base.name@ == s.base.name@
            &&& fs.base.args@ == s.base.args@
        },
        (Capability::Human(_), Capability::Human(fh)) => {
            &&& fh.content@ == Seq::<char>::empty()
            &&& fh.response@ == Seq::<char>::empty()
        },
        (Capability::Ends(_), Capability::Ends(fe)) => {
            &&& fe.status == false
            &&& fe.result@ == Seq::<char>::empty()
        },
        _ => false,
    }
}

/// The observable state of two capabilities coincides: same kind, same
/// field contents.
pub open spec fn obs_eq(a: Capability, b: Capability) -> bool {
    match (a, b) {
        (Capability::Draft(x), Capability::Draft(y)) => {
            &&& x.base.name@ == y.base.name@
            &&& x.base.args@ == y.base.args@
            &&& x.buffer@ == y.buffer@
            &&& x.plan@ == y.plan@
        },
        (Capability::Shell(x), Capability::Shell(y)) => {
            &&& x.base.name@ == y.base.name@
            &&& x.base.args@ == y.base.args@
        },
        (Capability::Human(x), Capability::Human(y)) => {
            &&& x.content@ == y.content@
            &&& x.response@ == y.response@
        },
        (Capability::Ends(x), Capability::Ends(y)) => {
            &&& x.status == y.status
            &&& x.result@ == y.result@
        },
        _ => false,
    }
}

/// Forking isolation.  A fork's state is pinned by the template alone, so
/// two forks of one template start observably equal; the template is read,
/// never written, when forking (`fork` borrows it immutably), and an
/// invocation mutates exactly the one instance it is applied to.  Hence
/// mutating one fork is not observable from the template or from any
/// sibling fork: the sibling still matches the fork's own starting state,
/// whatever the mutation did.
pub proof fn lemma_fork_isolation(
    t: Capability,
    f1: Capability,
    f1m: Capability,
    f2: Capability,
    x: CallArgs,
    r: Result<CallEffect, Errorbase>,
)
    requires
        fork_rel(t, f1),
        fork_rel(t, f2),
        invoke_rel(f1, f1m, x, r),
    ensures
        obs_eq(f1, f2),
{
}

// ---------------------------------------------------------------------------
// Capability methods
// ---------------------------------------------------------------------------

/// The opening of every declaration, up to the advertised function name.
pub open spec fn doc_head() -> Seq<char> {
    "{\"type\":\"function\",\"function\":{\"name\":\""@
}

/// The function name a capability's declaration advertises to the model.
/// For the loop to work, a call made under this name must resolve back to
/// the capability: `lemma_declared_name_resolves` proves that it does for
/// everything forked from the registry.
pub open spec fn declared_name(c: Capability) -> Seq<char> {
    match c {
        Capability::Draft(_) => "draft"@,
        Capability::Shell(_) => "shell"@,
        Capability::Human(_) => "humanIntervene"@,
        Capability::Ends(_) => "taskEnds"@,
    }
}

/// The rest of a capability's declaration: description and parameter schema.
pub open spec fn doc_tail(c: Capability) -> Seq<char> {
    match c {
        Capability::Draft(_) => draft::draft_doc_tail(),
        Capability::Shell(_) => shell::shell_doc_tail(),
        Capability::Human(_) => human::human_doc_tail(),
        Capability::Ends(_) => ends::task_ends_doc_tail(),
    }
}

/// The capability's name and the name its declaration advertises coincide.
/// Registry templates satisfy this and forking preserves it.
pub open spec fn name_coherent(c: Capability) -> bool {
    c.spec_name() == declared_name(c)
}

/// What a declaration advertises is what resolution matches: a capability
/// forked from any registry template resolves under exactly the function
/// name its declaration carries, so a model that calls what it was offered
/// reaches the capability.
pub proof fn lemma_declared_name_resolves(registry: Seq<Capability>, i: int, f: Capability)
    requires
        registry_ok(registry),
        0 <= i < registry.len(),
        fork_rel(registry[i], f),
    ensures
        name_coherent(f),
{
    if i == 0 {
        assert(registry[0] matches Capability::Draft(d) && d.base.name@ == "draft"@);
    } else if i == 1 {
        assert(registry[1] matches Capability::Shell(s) && s.base.name@ == "shell"@);
    }
}

impl Capability {
    /// The name a task's call is resolved against.
    pub open spec fn spec_name(self) -> Seq<char> {
        match self {
            Capability::Draft(d) => d.base.name@,
            Capability::Shell(s) => s.base.name@,
            Capability::Human(_) => "humanIntervene"@,
            Capability::Ends(_) => "taskEnds"@,
        }
    }

    pub fn name(&self) -> (r: String)
        ensures
            r@ == self.spec_name(),
    {
        match self {
            Capability::Draft(d) => d.base.name.clone(),
            Capability::Shell(s) => s.base.name.clone(),
            Capability::Human(_) => "humanIntervene".to_owned(),
            Capability::Ends(_) => "taskEnds".to_owned(),
        }
    }

    /// The declaration embedded verbatim in requests: the advertised
    /// function name between the common head and the capability's schema.
    pub open spec fn spec_declaration(self) -> Seq<char> {
        doc_head() + declared_name(self) + doc_tail(self)
    }

    fn declared_name_text(&self) -> (r: &str)
        ensures
            r@ == declared_name(*self),
    {
        match self {
            Capability::Draft(_) => "draft",
            Capability::Shell(_) => "shell",
            Capability::Human(_) => "humanIntervene",
            Capability::Ends(_) => "taskEnds",
        }
    }

    pub fn declaration(&self) -> (r: String)
        ensures
            r@ == self.spec_declaration(),
    {
        let mut out = String::new();
        out.append("{\"type\":\"function\",\"function\":{\"name\":\"");
        out.append(self.declared_name_text());
        match self {
            Capability::Draft(_) => out.append(draft::draft_doc_tail_text()),
            Capability::Shell(_) => out.append(shell::shell_doc_tail_text()),
            Capability::Human(_) => out.append(human::human_doc_tail_text()),
            Capability::Ends(_) => out.append(ends::task_ends_doc_tail_text()),
        }
        proof {
            assert(out@ =~= self.spec_declaration());
        }
        out
    }

    /// Forks a task-private instance from this one.  Isolation always holds
    /// here — the fork is a fresh value — so the forking error of the
    /// capability contract never comes up.  The initialization arguments are
    /// part of that contract; none of these four capabilities reads them.
    pub fn fork(&self, args: Vec<String>) -> (r: Result<Capability, ToolForkingError>)
        ensures
            r matches Ok(f) && fork_rel(*self, f),
    {
        let _ = args;
        match self {
            Capability::Draft(d) => Ok(
                Capability::Draft(
                    Draft {
                        base: d.base.clone(),
                        buffer: d.buffer.clone(),
                        plan: d.plan.clone(),
                    },
                ),
            ),
            Capability::Shell(s) => Ok(Capability::Shell(Shell { base: s.base.clone() })),
            Capability::Human(_) => Ok(
                Capability::Human(HumanIntervene { content: String::new(), response: String::new() }),
            ),
            Capability::Ends(_) => Ok(
                Capability::Ends(TaskEnds { status: false, result: String::new() }),
            ),
        }
    }

    /// Applies one parsed invocation to this instance.
    pub fn invoke(&mut self, args: CallArgs) -> (r: Result<CallEffect, ToolCallingError>)
        ensures
            invoke_rel(*old(self), *final(self), args, r),
    {
        let mut current = Capability::Ends(TaskEnds { status: false, result: String::new() });
        core::mem::swap(self, &mut current);
        let (next, r) = current.perform(args);
        *self = next;
        r
    }

    fn perform(self, args: CallArgs) -> (out: (Capability, Result<CallEffect, ToolCallingError>))
        ensures
            invoke_rel(self, out.0, args, out.1),
    {
        match self {
            Capability::Draft(d) => match args {
                CallArgs::Draft { content, plan } => {
                    match plan {
                        Some(p) => {
                            if p.if_update {
                                match p.full_content {
                                    Some(new_plan) => (
                                        Capability::Draft(
                                            Draft { base: d.base, buffer: content, plan: new_plan },
                                        ),
                                        Ok(CallEffect::Reply { text: String::new() }),
                                    ),
                                    None => (
                                        Capability::Draft(
                                            Draft { base: d.base, buffer: content, plan: d.plan },
                                        ),
                                        Err(
                                            Errorbase::new(
                                                "illegal tool call: plan.full_content should not be none if plan.if_update is true.".to_owned(),
                                            ),
                                        ),
                                    ),
                                }
                            } else {
                                (
                                    Capability::Draft(
                                        Draft { base: d.base, buffer: content, plan: d.plan },
                                    ),
                                    Ok(CallEffect::Reply { text: String::new() }),
                                )
                            }
                        },
                        None => (
                            Capability::Draft(Draft { base: d.base, buffer: content, plan: d.plan }),
                            Ok(CallEffect::Reply { text: String::new() }),
                        ),
                    }
                },
                _ => {
                    let pre = Capability::Draft(d);
                    let e = mismatch_error(&pre);
                    (pre, Err(e))
                },
            },
            Capability::Human(h) => match args {
                CallArgs::Human { help } => {
                    let mut text = String::new();
                    text.append("{\"response\":\"");
                    crate::text::append_escaped(&mut text, h.response.as_str());
                    text.append("\"}");
                    proof {
                        assert(text@ =~= "{\"response\":\""@ + json_escaped(h.response@) + "\"}"@);
                    }
                    (
                        Capability::Human(HumanIntervene { content: help, response: h.response }),
                        Ok(CallEffect::Suspend { text }),
                    )
                },
                _ => {
                    let pre = Capability::Human(h);
                    let e = mismatch_error(&pre);
                    (pre, Err(e))
                },
            },
            Capability::Ends(t) => match args {
                CallArgs::Ends { is_success, explanation } => {
                    let text = if is_success {
                        "Task ended with status: true".to_owned()
                    } else {
                        "Task ended with status: false".to_owned()
                    };
                    let kept = explanation.clone();
                    (
                        Capability::Ends(TaskEnds { status: is_success, result: kept }),
                        Ok(CallEffect::End { success: is_success, explanation, text }),
                    )
                },
                _ => {
                    let pre = Capability::Ends(t);
                    let e = mismatch_error(&pre);
                    (pre, Err(e))
                },
            },
            Capability::Shell(s) => match args {
                CallArgs::Shell { executable, args: sargs } => {
                    if sargs.len() == 0 {
                        (
                            Capability::Shell(s),
                            Err(Errorbase::new("Error: zero shell command.".to_owned())),
                        )
                    } else {
                        (
                            Capability::Shell(s),
                            Ok(CallEffect::RunShell { executable, args: sargs }),
                        )
                    }
                },
                _ => {
                    let pre = Capability::Shell(s);
                    let e = mismatch_error(&pre);
                    (pre, Err(e))
                },
            },
        }
    }
}

fn mismatch_error(pre: &Capability) -> (e: ToolCallingError)
    ensures
        e.content@ == "Calling "@ + pre.spec_name() + " error: mismatched arguments."@,
{
    let mut msg = String::new();
    msg.append("Calling ");
    let name = pre.name();
    msg.append(name.as_str());
    msg.append(" error: mismatched arguments.");
    proof {
        assert(msg@ =~= "Calling "@ + pre.spec_name() + " error: mismatched arguments."@);
    }
    Errorbase::new(msg)
}

// ---------------------------------------------------------------------------
// Registry
// ---------------------------------------------------------------------------

/// The registry holds exactly the four known templates, in this order, each
/// in its starting state.
pub open spec fn registry_ok(r: Seq<Capability>) -> bool {
    &&& r.len() == 4
    &&& r[0] matches Capability::Draft(d) && d.base.name@ == "draft"@ && d.base.args@
        == Seq::<String>::empty() && d.buffer@ == Seq::<char>::empty() && d.plan@
        == "1. Review task target and make possible planning."@
    &&& r[1] matches Capability::Shell(s) && s.base.name@ == "shell"@ && s.base.args@
        == Seq::<String>::empty()
    &&& r[2] matches Capability::Human(h) && h.content@ == Seq::<char>::empty() && h.response@
        == Seq::<char>::empty()
    &&& r[3] matches Capability::Ends(e) && e.status == false && e.result@
        == Seq::<char>::empty()
}

/// The registry's capability templates, constructed at start-up.
pub fn available_tools() -> (r: Vec<Capability>)
    ensures
        registry_ok(r@),
{
    let mut tools: Vec<Capability> = Vec::new();
    tools.push(
        Capability::Draft(
            Draft::from_builder(ToolBuilder { name: "draft".to_owned(), args: Vec::new() }),
        ),
    );
    tools.push(
        Capability::Shell(
            Shell::from_builder(ToolBuilder { name: "shell".to_owned(), args: Vec::new() }),
        ),
    );
    tools.push(
        Capability::Human(
            HumanIntervene::from_builder(
                ToolBuilder { name: "humanIntervene".to_owned(), args: Vec::new() },
            ),
        ),
    );
    tools.push(
        Capability::Ends(
            TaskEnds::from_builder(ToolBuilder { name: "taskEnds".to_owned(), args: Vec::new() }),
        ),
    );
    tools
}

} // verus!
