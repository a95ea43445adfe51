use agent_runtime::provider::{
    Choice, Message, Provider, Request, Response, Roles, ToolCall, ToolCallFunction, Usage,
};
use agent_runtime::text::rfind_str;
use agent_runtime::tool::available_tools;

fn response_with_content(content: &str) -> Response {
    Response {
        id: String::from("chatcmpl-test"),
        object: String::from("chat.completion"),
        created: 1,
        model: String::from("m"),
        choices: vec![Choice {
            index: 0,
            finish_reason: String::from("stop"),
            message: Message {
                role: Roles::Assistant,
                content: String::from(content),
                tool_calls: None,
            },
        }],
        usage: Usage { prompt_tokens: 0, completion_tokens: 0, total_tokens: 0 },
        system_fingerprint: String::from("fp"),
    }
}

fn call(name: &str, arguments: &str) -> ToolCall {
    ToolCall {
        id: String::from("id"),
        tool_calls_type: String::from("function"),
        function: ToolCallFunction {
            name: String::from(name),
            arguments: String::from(arguments),
        },
    }
}

#[test]
fn content_strips_reasoning_trace() {
    let response = response_with_content("<think>\nreasoning...\n</think>\n\npong");
    assert_eq!(response.content(), "pong");
}

#[test]
fn content_without_marker_trims() {
    let response = response_with_content("  pong\n");
    assert_eq!(response.content(), "pong");
}

#[test]
fn content_uses_last_marker() {
    let response = response_with_content("<think>a</think>mid</think>\n final ");
    assert_eq!(response.content(), "final");
}

#[test]
fn full_returns_verbatim() {
    let text = "<think>\nreasoning...\n</think>\n\npong";
    let response = response_with_content(text);
    assert_eq!(response.full(), text);
}

#[test]
fn tool_calls_preserve_order() {
    let mut response = response_with_content("");
    response.choices = vec![
        Choice {
            index: 0,
            finish_reason: String::from("tool_calls"),
            message: Message {
                role: Roles::Assistant,
                content: String::new(),
                tool_calls: Some(vec![call("first", "{}")]),
            },
        },
        Choice {
            index: 1,
            finish_reason: String::from("tool_calls"),
            message: Message {
                role: Roles::Assistant,
                content: String::new(),
                tool_calls: Some(vec![call("second", "{}"), call("third", "{}")]),
            },
        },
    ];
    let calls = response.tool_calls();
    assert_eq!(calls.len(), 3);
    assert_eq!(calls[0].name, "first");
    assert_eq!(calls[1].name, "second");
    assert_eq!(calls[2].name, "third");
}

#[test]
fn tool_calls_skip_absent_lists() {
    let response = response_with_content("plain");
    assert_eq!(response.tool_calls().len(), 0);
}

#[test]
fn format_renders_canonical_payload() {
    let message = Message {
        role: Roles::User,
        content: String::from("ping"),
        tool_calls: None,
    };
    let request = Request::new(String::from("m1")).add_message(&message);
    assert_eq!(
        request.format(),
        "{\"model\":\"m1\",\"messages\":[{\"role\":\"user\",\"content\":\"ping\"}],\"tools\":[]}"
    );
}

#[test]
fn format_escapes_message_content() {
    let message = Message {
        role: Roles::System,
        content: String::from("say \"hi\"\\\nnow"),
        tool_calls: None,
    };
    let request = Request::new(String::from("m")).add_message(&message);
    assert_eq!(
        request.format(),
        "{\"model\":\"m\",\"messages\":[{\"role\":\"system\",\"content\":\"say \\\"hi\\\"\\\\\\nnow\"}],\"tools\":[]}"
    );
}

#[test]
fn format_round_trips_through_json() {
    let message = Message {
        role: Roles::User,
        content: String::from("do the task \"now\""),
        tool_calls: None,
    };
    let tools = available_tools();
    let request = Request::new(String::from("deepseek-r1-distill-qwen-14b@q4_k_m"))
        .add_message(&message)
        .add_tools(&tools);
    let body = request.format();
    let parsed: serde_json::Value = serde_json::from_str(&body).expect("payload parses");
    assert_eq!(
        parsed.get("model").unwrap().as_str().unwrap(),
        "deepseek-r1-distill-qwen-14b@q4_k_m"
    );
    let messages = parsed.get("messages").unwrap().as_array().unwrap();
    assert_eq!(messages.len(), 1);
    assert_eq!(messages[0].get("role").unwrap().as_str().unwrap(), "user");
    assert_eq!(
        messages[0].get("content").unwrap().as_str().unwrap(),
        "do the task \"now\""
    );
    let tools_field = parsed.get("tools").unwrap().as_array().unwrap();
    assert_eq!(tools_field.len(), 4);
    assert_eq!(
        tools_field[0]
            .get("function")
            .unwrap()
            .get("name")
            .unwrap()
            .as_str()
            .unwrap(),
        "draft"
    );
}

#[test]
fn synthetic_response_recovers_declared_calls() {
    // The round trip: the calls a reply declares are exactly what
    // `tool_calls` hands back, order kept.
    let declared = vec![
        ("shell", "{\"executable\":\"echo\",\"args\":[\"hi\"]}"),
        ("draft", "{\"content\":\"notes\"}"),
    ];
    let mut response = response_with_content("");
    response.choices = vec![Choice {
        index: 0,
        finish_reason: String::from("tool_calls"),
        message: Message {
            role: Roles::Assistant,
            content: String::new(),
            tool_calls: Some(
                declared.iter().map(|(n, a)| call(n, a)).collect::<Vec<ToolCall>>(),
            ),
        },
    }];
    let recovered = response.tool_calls();
    assert_eq!(recovered.len(), declared.len());
    for (got, want) in recovered.iter().zip(declared.iter()) {
        assert_eq!(got.name, want.0);
        assert_eq!(got.arguments, want.1);
    }
}

#[test]
fn endpoint_renders_url() {
    let provider = Provider::new(
        String::from("LM Studio"),
        String::from("192.168.2.228"),
        1234,
    );
    assert_eq!(provider.endpoint(), "http://192.168.2.228:1234/v1/chat/completions");
}

#[test]
fn roles_parse_and_render() {
    assert_eq!(Roles::from_name("user"), Some(Roles::User));
    assert_eq!(Roles::from_name("User"), Some(Roles::User));
    assert_eq!(Roles::from_name("system"), Some(Roles::System));
    assert_eq!(Roles::from_name("Assistant"), Some(Roles::Assistant));
    assert_eq!(Roles::from_name("moderator"), None);
    assert_eq!(Roles::User.name(), "user");
    assert_eq!(Roles::System.name(), "system");
    assert_eq!(Roles::Assistant.name(), "assistant");
}

#[test]
fn rfind_reports_last_occurrence() {
    assert_eq!(rfind_str("aXXaXX", "XX"), Some(4));
    assert_eq!(rfind_str("aXXaXX", "YY"), None);
    assert_eq!(rfind_str("X", "XX"), None);
}
