use agent_runtime::config::{Config, ModelParser};
use agent_runtime::provider::Provider;
use agent_runtime::runtime::{RoundOutcome, Runtime, RuntimeTask, Status};
use agent_runtime::task::Task;
use agent_runtime::tool::{CallArgs, CallEffect, Capability, ToolBuilder};

fn test_config() -> Config {
    Config {
        models: vec![ModelParser {
            name: String::from("m1"),
            provider: String::from("LM Studio"),
        }],
        services: vec![Provider::new(
            String::from("LM Studio"),
            String::from("192.168.2.228"),
            1234,
        )],
    }
}

fn test_task(model_name: &str, tool_names: &[&str], max_iterations: usize) -> Task {
    Task {
        name: String::from("t"),
        model_name: String::from(model_name),
        target: String::from("reach the objective"),
        tools: tool_names
            .iter()
            .map(|n| ToolBuilder { name: String::from(*n), args: vec![] })
            .collect(),
        max_iterations,
    }
}

#[test]
fn config_resolves_models() {
    let config = test_config();
    let models = config.to_models().expect("resolvable configuration");
    assert_eq!(models.len(), 1);
    assert_eq!(models[0].name(), "m1");
    assert_eq!(models[0].provider.name, "LM Studio");
}

#[test]
fn config_rejects_unregistered_service() {
    let mut config = test_config();
    config.models.push(ModelParser {
        name: String::from("m2"),
        provider: String::from("missing"),
    });
    let err = config.to_models().expect_err("unregistered provider is rejected");
    assert_eq!(err.message(), "Service missing required by m2 is not registered.");
}

#[test]
fn config_latest_duplicate_service_wins() {
    let mut config = test_config();
    config.services.push(Provider::new(
        String::from("LM Studio"),
        String::from("10.0.0.1"),
        9999,
    ));
    let models = config.to_models().expect("resolvable configuration");
    assert_eq!(models[0].provider.port, 9999);
}

#[test]
fn admission_rejects_unregistered_model() {
    let mut runtime = Runtime::init(test_config()).expect("runtime builds");
    let err = runtime
        .new_task(test_task("nope", &["draft"], 3))
        .expect_err("unregistered model is rejected");
    assert_eq!(err.message(), "requested model nope not found");
    assert_eq!(runtime.tasks.len(), 0);
}

#[test]
fn admission_rejects_unregistered_tool() {
    let mut runtime = Runtime::init(test_config()).expect("runtime builds");
    let err = runtime
        .new_task(test_task("m1", &["draft", "bogus"], 3))
        .expect_err("unregistered tool is rejected");
    assert_eq!(err.message(), "requested tool bogus not found");
    assert_eq!(runtime.tasks.len(), 0);
}

#[test]
fn admission_forks_requested_tools() {
    let mut runtime = Runtime::init(test_config()).expect("runtime builds");
    runtime
        .new_task(test_task("m1", &["draft", "shell"], 3))
        .expect("admissible task");
    assert_eq!(runtime.tasks.len(), 1);
    let instance = &runtime.tasks[0];
    assert!(matches!(instance.status, Status::NotStarted));
    assert_eq!(instance.iterations, 0);
    assert_eq!(instance.model_index, 0);
    assert_eq!(instance.tools.len(), 2);
    assert_eq!(instance.tools[0].name(), "draft");
    assert_eq!(instance.tools[1].name(), "shell");
    assert_eq!(instance.history.len(), 0);
    assert_eq!(instance.messages.len(), 0);
}

#[test]
fn begin_seeds_the_conversation() {
    let mut runtime = Runtime::init(test_config()).expect("runtime builds");
    runtime.new_task(test_task("m1", &["draft"], 3)).expect("admissible task");
    let instance = &mut runtime.tasks[0];
    instance.begin();
    assert!(matches!(instance.status, Status::Running));
    assert_eq!(instance.messages.len(), 1);
    assert_eq!(instance.messages[0].content, "reach the objective");
}

#[test]
fn forced_termination_after_budget() {
    let mut runtime = Runtime::init(test_config()).expect("runtime builds");
    runtime.new_task(test_task("m1", &["draft"], 3)).expect("admissible task");
    let models = &runtime.models;
    let instance = &mut runtime.tasks[0];
    instance.begin();
    for round in 0..3usize {
        assert!(matches!(instance.status, Status::Running));
        let request = instance.build_request(&models[instance.model_index]);
        let body = request.format();
        instance.record_exchange(round as u64, body, String::from("reply"));
        instance.integrate_results(vec![String::from("result")]);
        instance.complete_round(RoundOutcome::Continue);
    }
    assert_eq!(instance.iterations, 3);
    match &instance.status {
        Status::Ended { success, explanation } => {
            assert!(!success);
            assert_eq!(explanation, "iteration budget exhausted");
        },
        _ => panic!("the budget forces the task to end"),
    }
    assert_eq!(instance.history.len(), 3);
}

#[test]
fn suspension_and_resumption() {
    let mut runtime = Runtime::init(test_config()).expect("runtime builds");
    runtime.new_task(test_task("m1", &["humanIntervene"], 5)).expect("admissible task");
    let instance = &mut runtime.tasks[0];
    instance.begin();
    instance.complete_round(RoundOutcome::Suspend);
    assert!(matches!(instance.status, Status::Waiting));
    instance.resume(String::from("human says: carry on"));
    assert!(matches!(instance.status, Status::Running));
    assert_eq!(instance.messages.len(), 2);
    assert_eq!(instance.messages[1].content, "human says: carry on");
}

#[test]
fn zero_budget_task_ends_at_once() {
    let mut runtime = Runtime::init(test_config()).expect("runtime builds");
    runtime.new_task(test_task("m1", &["draft"], 0)).expect("admissible task");
    let instance = &mut runtime.tasks[0];
    instance.begin();
    match &instance.status {
        Status::Ended { success, explanation } => {
            assert!(!success);
            assert_eq!(explanation, "iteration budget exhausted");
        },
        _ => panic!("a zero budget is exhausted before the first round"),
    }
    assert_eq!(instance.messages.len(), 1);
}

#[test]
fn unresolved_call_becomes_feedback() {
    let mut runtime = Runtime::init(test_config()).expect("runtime builds");
    runtime.new_task(test_task("m1", &["draft"], 3)).expect("admissible task");
    let instance = &runtime.tasks[0];
    assert!(matches!(instance.resolve_call(&String::from("draft")), Ok(0)));
    let err = instance
        .resolve_call(&String::from("mystery"))
        .expect_err("an unknown name is reported, not fatal");
    assert_eq!(err.message(), "required tool not found in runtime: mystery");
}

#[test]
fn termination_call_ends_with_recorded_outcome() {
    let mut runtime = Runtime::init(test_config()).expect("runtime builds");
    runtime.new_task(test_task("m1", &["taskEnds"], 5)).expect("admissible task");
    let instance = &mut runtime.tasks[0];
    instance.begin();
    let effect = instance
        .invoke_at(
            0,
            CallArgs::Ends { is_success: true, explanation: String::from("all good") },
        )
        .expect("termination call succeeds");
    let effects = vec![effect];
    let outcome = agent_runtime::runtime::round_outcome(&effects);
    instance.complete_round(outcome);
    match &instance.status {
        Status::Ended { success, explanation } => {
            assert!(*success);
            assert_eq!(explanation, "all good");
        },
        _ => panic!("a termination call ends the task"),
    }
}

#[test]
fn round_outcome_prefers_termination() {
    let effects = vec![
        CallEffect::Reply { text: String::from("a") },
        CallEffect::Suspend { text: String::from("b") },
        CallEffect::End {
            success: false,
            explanation: String::from("stop"),
            text: String::from("c"),
        },
    ];
    match agent_runtime::runtime::round_outcome(&effects) {
        RoundOutcome::End { success, explanation } => {
            assert!(!success);
            assert_eq!(explanation, "stop");
        },
        _ => panic!("a termination effect decides the round"),
    }
    let effects = vec![
        CallEffect::Reply { text: String::from("a") },
        CallEffect::Suspend { text: String::from("b") },
    ];
    assert!(matches!(
        agent_runtime::runtime::round_outcome(&effects),
        RoundOutcome::Suspend
    ));
    let effects = vec![CallEffect::Reply { text: String::from("a") }];
    assert!(matches!(
        agent_runtime::runtime::round_outcome(&effects),
        RoundOutcome::Continue
    ));
}

#[test]
fn batch_results_all_arrive_in_any_order() {
    let mut runtime = Runtime::init(test_config()).expect("runtime builds");
    runtime.new_task(test_task("m1", &["draft", "shell"], 3)).expect("admissible task");
    runtime.new_task(test_task("m1", &["draft", "shell"], 3)).expect("admissible task");
    let first_order = vec![String::from("slowest"), String::from("fastest")];
    let second_order = vec![String::from("fastest"), String::from("slowest")];
    runtime.tasks[0].begin();
    runtime.tasks[1].begin();
    runtime.tasks[0].integrate_results(first_order);
    runtime.tasks[1].integrate_results(second_order);
    for instance in &runtime.tasks {
        assert_eq!(instance.messages.len(), 3);
        let texts: Vec<&str> =
            instance.messages.iter().map(|m| m.content.as_str()).collect();
        assert!(texts.contains(&"slowest"));
        assert!(texts.contains(&"fastest"));
    }
}

#[test]
fn per_fork_invocation_leaves_other_forks_alone() {
    let mut runtime = Runtime::init(test_config()).expect("runtime builds");
    runtime.new_task(test_task("m1", &["draft", "draft"], 3)).expect("admissible task");
    let instance = &mut runtime.tasks[0];
    let effect = instance
        .invoke_at(0, CallArgs::Draft { content: String::from("mine"), plan: None })
        .expect("scratchpad call succeeds");
    assert!(matches!(effect, CallEffect::Reply { ref text } if text.is_empty()));
    match (&instance.tools[0], &instance.tools[1]) {
        (Capability::Draft(a), Capability::Draft(b)) => {
            assert_eq!(a.buffer, "mine");
            assert_eq!(b.buffer, "");
        },
        _ => panic!("both forks kept their kind"),
    }
}

#[test]
fn find_tool_resolves_by_name() {
    let mut runtime = Runtime::init(test_config()).expect("runtime builds");
    runtime.new_task(test_task("m1", &["draft", "shell"], 3)).expect("admissible task");
    let instance = &runtime.tasks[0];
    assert_eq!(instance.find_tool(&String::from("shell")), Some(1));
    assert_eq!(instance.find_tool(&String::from("draft")), Some(0));
    assert_eq!(instance.find_tool(&String::from("nothing")), None);
}

#[test]
fn from_task_is_atomic() {
    let runtime = Runtime::init(test_config()).expect("runtime builds");
    let err = RuntimeTask::from_task(&runtime, test_task("m1", &["draft", "bogus"], 1))
        .expect_err("one unregistered tool aborts the whole admission");
    assert_eq!(err.message(), "requested tool bogus not found");
}
