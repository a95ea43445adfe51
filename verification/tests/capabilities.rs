use agent_runtime::tool::shell::Shell;
use agent_runtime::tool::{available_tools, CallArgs, CallEffect, Capability, PlanArgs, ToolBuilder};

fn draft_args(content: &str, plan: Option<PlanArgs>) -> CallArgs {
    CallArgs::Draft { content: String::from(content), plan }
}

#[test]
fn registry_holds_four_templates() {
    let tools = available_tools();
    assert_eq!(tools.len(), 4);
    assert_eq!(tools[0].name(), "draft");
    assert_eq!(tools[1].name(), "shell");
    assert_eq!(tools[2].name(), "humanIntervene");
    assert_eq!(tools[3].name(), "taskEnds");
    assert!(tools[0].declaration().contains("\"name\":\"draft\""));
    assert!(tools[1].declaration().contains("\"name\":\"shell\""));
    assert!(tools[2].declaration().contains("\"name\":\"humanIntervene\""));
    assert!(tools[3].declaration().contains("\"name\":\"taskEnds\""));
}

#[test]
fn forking_leaves_template_and_siblings_alone() {
    let tools = available_tools();
    let template = &tools[0];
    let mut fork_one = template.fork(vec![]).expect("fork succeeds");
    let fork_two = template.fork(vec![]).expect("fork succeeds");
    let effect = fork_one
        .invoke(draft_args(
            "mutated buffer",
            Some(PlanArgs { if_update: true, full_content: Some(String::from("new plan")) }),
        ))
        .expect("scratchpad call succeeds");
    assert!(matches!(effect, CallEffect::Reply { ref text } if text.is_empty()));
    match &fork_one {
        Capability::Draft(d) => {
            assert_eq!(d.buffer, "mutated buffer");
            assert_eq!(d.plan, "new plan");
        },
        _ => panic!("fork kept its kind"),
    }
    match template {
        Capability::Draft(d) => {
            assert_eq!(d.buffer, "");
            assert_eq!(d.plan, "1. Review task target and make possible planning.");
        },
        _ => panic!("template kept its kind"),
    }
    match &fork_two {
        Capability::Draft(d) => {
            assert_eq!(d.buffer, "");
            assert_eq!(d.plan, "1. Review task target and make possible planning.");
        },
        _ => panic!("sibling kept its kind"),
    }
}

#[test]
fn draft_plan_revision_requires_content() {
    let tools = available_tools();
    let mut fork = tools[0].fork(vec![]).expect("fork succeeds");
    let err = fork
        .invoke(draft_args("kept", Some(PlanArgs { if_update: true, full_content: None })))
        .expect_err("revision without content is rejected");
    assert_eq!(
        err.message(),
        "illegal tool call: plan.full_content should not be none if plan.if_update is true."
    );
    // the buffer is replaced before the plan revision is checked
    match &fork {
        Capability::Draft(d) => {
            assert_eq!(d.buffer, "kept");
            assert_eq!(d.plan, "1. Review task target and make possible planning.");
        },
        _ => panic!("fork kept its kind"),
    }
}

#[test]
fn draft_keeps_plan_without_revision() {
    let tools = available_tools();
    let mut fork = tools[0].fork(vec![]).expect("fork succeeds");
    fork.invoke(draft_args("notes", None)).expect("call succeeds");
    match &fork {
        Capability::Draft(d) => {
            assert_eq!(d.buffer, "notes");
            assert_eq!(d.plan, "1. Review task target and make possible planning.");
        },
        _ => panic!("fork kept its kind"),
    }
}

#[test]
fn shell_rejects_empty_argument_list() {
    let tools = available_tools();
    let mut fork = tools[1].fork(vec![]).expect("fork succeeds");
    let err = fork
        .invoke(CallArgs::Shell { executable: String::from("echo"), args: vec![] })
        .expect_err("zero arguments are rejected");
    assert_eq!(err.message(), "Error: zero shell command.");
}

#[test]
fn shell_hands_back_the_command() {
    let tools = available_tools();
    let mut fork = tools[1].fork(vec![]).expect("fork succeeds");
    let effect = fork
        .invoke(CallArgs::Shell {
            executable: String::from("echo"),
            args: vec![String::from("Hello, World!")],
        })
        .expect("call succeeds");
    match effect {
        CallEffect::RunShell { executable, args } => {
            assert_eq!(executable, "echo");
            assert_eq!(args, vec![String::from("Hello, World!")]);
        },
        _ => panic!("a shell call asks for a command run"),
    }
}

#[test]
fn shell_report_is_escaped_json() {
    let report = Shell::render_output("a\"b\\c\nd", "", -7);
    assert_eq!(
        report,
        "{\"stdout\":\"a\\\"b\\\\c\\nd\",\"stderr\":\"\",\"status_code\":-7}"
    );
    let parsed: serde_json::Value = serde_json::from_str(&report).expect("report parses");
    assert_eq!(parsed.get("stdout").unwrap().as_str().unwrap(), "a\"b\\c\nd");
    assert_eq!(parsed.get("status_code").unwrap().as_i64().unwrap(), -7);
}

#[test]
fn termination_records_outcome() {
    let tools = available_tools();
    let mut fork = tools[3].fork(vec![]).expect("fork succeeds");
    let effect = fork
        .invoke(CallArgs::Ends { is_success: true, explanation: String::from("done") })
        .expect("call succeeds");
    match effect {
        CallEffect::End { success, explanation, text } => {
            assert!(success);
            assert_eq!(explanation, "done");
            assert_eq!(text, "Task ended with status: true");
        },
        _ => panic!("a termination call ends the task"),
    }
    match &fork {
        Capability::Ends(e) => {
            assert!(e.status);
            assert_eq!(e.result, "done");
        },
        _ => panic!("fork kept its kind"),
    }
}

#[test]
fn suspension_carries_response() {
    let tools = available_tools();
    let mut fork = tools[2].fork(vec![]).expect("fork succeeds");
    let effect = fork
        .invoke(CallArgs::Human { help: String::from("need a password") })
        .expect("call succeeds");
    match effect {
        CallEffect::Suspend { text } => {
            assert_eq!(text, "{\"response\":\"\"}");
        },
        _ => panic!("a suspension call suspends the task"),
    }
    match &fork {
        Capability::Human(h) => {
            assert_eq!(h.content, "need a password");
        },
        _ => panic!("fork kept its kind"),
    }
}

#[test]
fn mismatched_arguments_are_rejected() {
    let tools = available_tools();
    let mut fork = tools[0].fork(vec![]).expect("fork succeeds");
    let err = fork
        .invoke(CallArgs::Human { help: String::from("wrong shape") })
        .expect_err("mismatched arguments are rejected");
    assert_eq!(err.message(), "Calling draft error: mismatched arguments.");
    match &fork {
        Capability::Draft(d) => {
            assert_eq!(d.buffer, "");
        },
        _ => panic!("fork kept its kind"),
    }
}

#[test]
fn builder_clone_is_deep() {
    let builder = ToolBuilder {
        name: String::from("shell"),
        args: vec![String::from("a"), String::from("b")],
    };
    let copy = builder.clone();
    assert_eq!(copy.name, "shell");
    assert_eq!(copy.args, vec![String::from("a"), String::from("b")]);
}
