use ollama_rs::chat::{ChatMessage, ChatMessageResponse, MessageRole};
use ollama_rs::cycle::{CycleAction, CycleEvent, CycleState};
use ollama_rs::error::OllamaError;
use ollama_rs::pipelines::meta_llama::{LlamaFunctionCall, DEFAULT_SYSTEM_TEMPLATE};
use ollama_rs::pipelines::RequestParserBase;
use ollama_rs::toolbox_request::{FunctionCallRequest, ToolboxCallRequest};
use ollama_rs::tools::{ToolDescriptor, Toolbox};
use serde_json::Value;

fn value_of(text: &str) -> Value {
    serde_json::from_str(text).unwrap()
}

fn lid_tightener(rotations: f32) -> String {
    format!("this many rotations: {}", rotations)
}

fn lid_tightener_descriptor() -> ToolDescriptor {
    ToolDescriptor::new(
        "lid_tightener".to_string(),
        "tightens a lid".to_string(),
        value_of("{\"type\":\"object\",\"properties\":{\"rotations\":{\"type\":\"number\"}}}"),
    )
}

fn check_finished(envelope: &ChatMessageResponse, model: &str, content: &str) {
    assert_eq!(envelope.model, model);
    assert_eq!(envelope.created_at, "");
    assert!(envelope.done);
    assert!(envelope.final_data.is_none());
    let message = envelope.message.as_ref().unwrap();
    assert_eq!(message.role, MessageRole::Assistant);
    assert_eq!(message.content, content);
}

fn lid_request() -> FunctionCallRequest {
    FunctionCallRequest::new(
        "llama3.1:latest".to_string(),
        vec![lid_tightener_descriptor()],
        vec![ChatMessage::user("tighten the lid 3 times".to_string())],
    )
}

struct WebToolbox;

impl Toolbox for WebToolbox {
    fn get_impl_json(&self) -> Value {
        value_of("[{\"name\":\"search\"},{\"name\":\"scrape\"}]")
    }

    fn call_value_fn(&self, tool_name: &str, tool_args: Value) -> Value {
        let mut answer = serde_json::Map::new();
        answer.insert("tool".to_string(), Value::String(tool_name.to_string()));
        answer.insert("args".to_string(), tool_args);
        Value::Object(answer)
    }
}

#[test]
fn the_lid_is_tightened_three_times() {
    let parser = LlamaFunctionCall {};
    let request = lid_request();

    let (state, action) = request.step(&parser, CycleState::Built, CycleEvent::Start);
    assert!(matches!(state, CycleState::Prompted));
    let messages = match action {
        Some(CycleAction::Generate { messages }) => messages,
        other => panic!("unexpected action {:?}", other),
    };
    assert_eq!(messages.len(), 2);
    assert_eq!(messages[0].role, MessageRole::System);
    assert_eq!(messages[0].content, parser.get_system_message(&request.tools).content);
    assert!(messages[0].content.contains("Use the function 'lid_tightener' to 'tightens a lid': "));
    assert_eq!(messages[1].role, MessageRole::User);
    assert_eq!(messages[1].content, "tighten the lid 3 times");

    let reply = " <function=lid_tightener>{\"rotations\": 3}</function> ".to_string();
    let (state, action) = request.step(&parser, state, CycleEvent::Reply(reply));
    assert!(matches!(&state, CycleState::Dispatched { model_name, tool } if model_name == "llama3.1:latest" && *tool == 0));
    let (tool, arguments) = match action {
        Some(CycleAction::RunTool { tool, arguments }) => (tool, arguments),
        other => panic!("unexpected action {:?}", other),
    };
    assert_eq!(tool, 0);
    assert_eq!(request.tools[tool].name, "lid_tightener");
    assert_eq!(arguments, value_of("{\"rotations\":3}"));

    let output = lid_tightener(arguments["rotations"].as_f64().unwrap() as f32);
    assert_eq!(output, "this many rotations: 3");
    let (state, action) = request.step(&parser, state, CycleEvent::ToolReturned(Value::String(output)));
    assert!(action.is_none());
    assert!(state.is_terminal());
    match state {
        CycleState::Completed { answers } => {
            assert_eq!(answers.len(), 1);
            check_finished(&answers[0], "llama3.1:latest", "\"this many rotations: 3\"");
        }
        other => panic!("unexpected state {:?}", other),
    }
}

#[test]
fn a_toolbox_reply_with_two_tags_gives_two_envelopes_in_order() {
    let parser = LlamaFunctionCall {};
    let toolbox = WebToolbox;
    let request = ToolboxCallRequest::new(
        "llama3.1:latest".to_string(),
        &toolbox,
        vec![ChatMessage::user("find and read".to_string())],
    );
    let (state, action) = request.step(&parser, CycleState::Built, CycleEvent::Start);
    assert!(matches!(state, CycleState::Prompted));
    match action {
        Some(CycleAction::Generate { messages }) => {
            assert_eq!(messages.len(), 2);
            assert_eq!(messages[0].role, MessageRole::System);
            assert_eq!(
                messages[0].content,
                DEFAULT_SYSTEM_TEMPLATE.replace("{tools}", "[{\"name\":\"search\"},{\"name\":\"scrape\"}]")
            );
            assert_eq!(messages[1].content, "find and read");
        }
        other => panic!("unexpected action {:?}", other),
    }
    let reply = "<function=search>{\"query\": \"x\"}</function>\n<function=scrape>{\"url\": \"y\"}</function>";
    let (state, action) = request.step(&parser, state, CycleEvent::Reply(reply.to_string()));
    assert!(action.is_none());
    match state {
        CycleState::Completed { answers } => {
            assert_eq!(answers.len(), 2);
            check_finished(&answers[0], "llama3.1:latest", "{\"args\":{\"query\":\"x\"},\"tool\":\"search\"}");
            check_finished(&answers[1], "llama3.1:latest", "{\"args\":{\"url\":\"y\"},\"tool\":\"scrape\"}");
        }
        other => panic!("unexpected state {:?}", other),
    }
}

#[test]
fn a_toolbox_reply_without_a_call_fails_the_cycle_with_parse() {
    let parser = LlamaFunctionCall {};
    let toolbox = WebToolbox;
    let request = ToolboxCallRequest::new("m".to_string(), &toolbox, vec![]);
    let (state, _) = request.step(&parser, CycleState::Built, CycleEvent::Start);
    let (state, action) = request.step(&parser, state, CycleEvent::Reply("nothing to call".to_string()));
    assert!(action.is_none());
    assert!(state.is_terminal());
    match state {
        CycleState::Failed { error, envelope } => {
            assert!(matches!(error, OllamaError::Parse));
            check_finished(&envelope, "", "Error parsing function call");
        }
        other => panic!("unexpected state {:?}", other),
    }
}

#[test]
fn a_service_failure_fails_the_cycle_with_generation() {
    let parser = LlamaFunctionCall {};
    let request = lid_request();
    let (state, _) = request.step(&parser, CycleState::Built, CycleEvent::Start);
    let (state, action) =
        request.step(&parser, state, CycleEvent::ServiceFailed("connection refused".to_string()));
    assert!(action.is_none());
    match state {
        CycleState::Failed { error, envelope } => {
            assert!(matches!(error, OllamaError::Generation(cause) if cause == "connection refused"));
            check_finished(&envelope, "", "connection refused");
        }
        other => panic!("unexpected state {:?}", other),
    }
    let toolbox = WebToolbox;
    let request = ToolboxCallRequest::new("m".to_string(), &toolbox, vec![]);
    let (state, action) =
        request.step(&parser, CycleState::Prompted, CycleEvent::ServiceFailed("bad gateway".to_string()));
    assert!(action.is_none());
    match state {
        CycleState::Failed { error, envelope } => {
            assert!(matches!(error, OllamaError::Generation(cause) if cause == "bad gateway"));
            check_finished(&envelope, "", "bad gateway");
        }
        other => panic!("unexpected state {:?}", other),
    }
}

#[test]
fn a_reply_fails_the_cycle_with_the_error_in_its_way() {
    let parser = LlamaFunctionCall {};
    let request = lid_request();
    let cases = [
        ("no call here", "Error parsing function call"),
        ("<function=lid_tightener>{3 rotations}</function>", "Error parsing function call"),
        ("<function=lid_loosener>{\"rotations\": 3}</function>", "Tool not found"),
    ];
    for (reply, content) in cases {
        let (state, action) = request.step(&parser, CycleState::Prompted, CycleEvent::Reply(reply.to_string()));
        assert!(action.is_none());
        match state {
            CycleState::Failed { error, envelope } => {
                assert_eq!(error.describe(), content);
                check_finished(&envelope, "", content);
            }
            other => panic!("unexpected state {:?}", other),
        }
    }
    let (state, _) = request.step(&parser, CycleState::Prompted, CycleEvent::Reply("none".to_string()));
    assert!(matches!(state, CycleState::Failed { error: OllamaError::Parse, .. }));
    let (state, _) = request.step(
        &parser,
        CycleState::Prompted,
        CycleEvent::Reply("<function=lid_tightener>{</function>".to_string()),
    );
    assert!(matches!(state, CycleState::Failed { error: OllamaError::MalformedCallPayload, .. }));
    let (state, _) = request.step(
        &parser,
        CycleState::Prompted,
        CycleEvent::Reply("<function=other>{}</function>".to_string()),
    );
    assert!(matches!(state, CycleState::Failed { error: OllamaError::ToolNotFound, .. }));
}

#[test]
fn a_tool_failure_fails_the_cycle_with_its_cause() {
    let parser = LlamaFunctionCall {};
    let request = lid_request();
    let dispatched = CycleState::Dispatched { model_name: "llama3.1:latest".to_string(), tool: 0 };
    let (state, action) = request.step(&parser, dispatched, CycleEvent::ToolFailed("lid is stuck".to_string()));
    assert!(action.is_none());
    match state {
        CycleState::Failed { error, envelope } => {
            assert!(matches!(error, OllamaError::ToolExecution(cause) if cause == "lid is stuck"));
            check_finished(&envelope, "", "lid is stuck");
        }
        other => panic!("unexpected state {:?}", other),
    }
}

#[test]
fn an_event_that_is_not_waited_for_changes_nothing() {
    let parser = LlamaFunctionCall {};
    let request = lid_request();
    let (state, action) = request.step(&parser, CycleState::Built, CycleEvent::Reply("x".to_string()));
    assert!(matches!(state, CycleState::Built));
    assert!(action.is_none());
    let (state, action) = request.step(&parser, CycleState::Prompted, CycleEvent::Start);
    assert!(matches!(state, CycleState::Prompted));
    assert!(action.is_none());
    let (state, action) = request.step(&parser, CycleState::Prompted, CycleEvent::ToolReturned(Value::Null));
    assert!(matches!(state, CycleState::Prompted));
    assert!(action.is_none());
    let dispatched = CycleState::Dispatched { model_name: "m".to_string(), tool: 0 };
    let (state, action) = request.step(&parser, dispatched, CycleEvent::Reply("x".to_string()));
    assert!(matches!(&state, CycleState::Dispatched { model_name, tool } if model_name == "m" && *tool == 0));
    assert!(action.is_none());
    let toolbox = WebToolbox;
    let boxed = ToolboxCallRequest::new("m".to_string(), &toolbox, vec![]);
    let (state, action) = boxed.step(&parser, CycleState::Prompted, CycleEvent::ToolFailed("x".to_string()));
    assert!(matches!(state, CycleState::Prompted));
    assert!(action.is_none());
    let (state, action) = boxed.step(&parser, CycleState::Built, CycleEvent::ServiceFailed("x".to_string()));
    assert!(matches!(state, CycleState::Built));
    assert!(action.is_none());
}

#[test]
fn a_finished_cycle_stays_finished() {
    let parser = LlamaFunctionCall {};
    let request = lid_request();
    let done = CycleState::Completed {
        answers: vec![ChatMessageResponse::assistant("m".to_string(), "1".to_string())],
    };
    assert!(done.is_terminal());
    let (state, action) = request.step(&parser, done, CycleEvent::Reply("<function=lid_tightener>{}</function>".to_string()));
    assert!(action.is_none());
    match state {
        CycleState::Completed { answers } => {
            assert_eq!(answers.len(), 1);
            check_finished(&answers[0], "m", "1");
        }
        other => panic!("unexpected state {:?}", other),
    }
    let failed = CycleState::Failed {
        error: OllamaError::ToolNotFound,
        envelope: parser.error_handler(OllamaError::ToolNotFound),
    };
    assert!(failed.is_terminal());
    let (state, action) = request.step(&parser, failed, CycleEvent::Start);
    assert!(action.is_none());
    assert!(matches!(state, CycleState::Failed { error: OllamaError::ToolNotFound, .. }));
    assert!(!CycleState::Built.is_terminal());
    assert!(!CycleState::Prompted.is_terminal());
    assert!(!CycleState::Dispatched { model_name: "m".to_string(), tool: 0 }.is_terminal());
}
