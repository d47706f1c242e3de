use ollama_rs::chat::{ChatMessageResponse, MessageRole};
use ollama_rs::error::{FailedStep, OllamaError};
use ollama_rs::pipelines::meta_llama::LlamaFunctionCall;
use ollama_rs::pipelines::{find_tool, RequestParserBase};
use ollama_rs::tools::{ToolDescriptor, Toolbox};
use serde_json::Value;

fn json_value(text: &str) -> Value {
    serde_json::from_str(text).unwrap()
}

fn tool_named(name: &str) -> ToolDescriptor {
    ToolDescriptor::new(name.to_string(), format!("does {}", name), Value::Null)
}

fn assert_finished(envelope: &ChatMessageResponse, model: &str, content: &str) {
    assert_eq!(envelope.model, model);
    assert_eq!(envelope.created_at, "");
    assert!(envelope.done);
    assert!(envelope.final_data.is_none());
    let message = envelope.message.as_ref().unwrap();
    assert_eq!(message.role, MessageRole::Assistant);
    assert_eq!(message.content, content);
}

/// A toolbox of two tools that answers an unknown name with a value of
/// its own.
struct SearchAndScrape;

impl Toolbox for SearchAndScrape {
    fn get_impl_json(&self) -> Value {
        json_value("[{\"name\":\"search\"},{\"name\":\"scrape\"}]")
    }

    fn call_value_fn(&self, tool_name: &str, tool_args: Value) -> Value {
        match tool_name {
            "search" => Value::String(format!("results for {}", tool_args["query"])),
            "scrape" => Value::String(format!("page at {}", tool_args["url"])),
            _ => json_value("{\"error\":\"tool not found\"}"),
        }
    }
}

#[test]
fn error_handler_reports_each_error_in_a_finished_envelope() {
    let parser = LlamaFunctionCall {};
    assert_finished(&parser.error_handler(OllamaError::Parse), "", "Error parsing function call");
    assert_finished(
        &parser.error_handler(OllamaError::MalformedCallPayload),
        "",
        "Error parsing function call",
    );
    assert_finished(&parser.error_handler(OllamaError::ToolNotFound), "", "Tool not found");
    assert_finished(
        &parser.error_handler(OllamaError::ToolExecution("disk full".to_string())),
        "",
        "disk full",
    );
    assert_finished(
        &parser.error_handler(OllamaError::Generation("connection refused".to_string())),
        "",
        "connection refused",
    );
}

#[test]
fn errors_describe_themselves_and_name_their_step() {
    assert_eq!(OllamaError::Parse.describe(), "Error parsing function call");
    assert_eq!(OllamaError::MalformedCallPayload.describe(), "Error parsing function call");
    assert_eq!(OllamaError::ToolNotFound.describe(), "Tool not found");
    assert_eq!(OllamaError::ToolExecution("boom".to_string()).describe(), "boom");
    assert_eq!(OllamaError::Generation("down".to_string()).describe(), "down");
    assert_eq!(OllamaError::Generation("down".to_string()).step(), FailedStep::Generation);
    assert_eq!(OllamaError::Parse.step(), FailedStep::Parse);
    assert_eq!(OllamaError::MalformedCallPayload.step(), FailedStep::Parse);
    assert_eq!(OllamaError::ToolNotFound.step(), FailedStep::Dispatch);
    assert_eq!(OllamaError::ToolExecution("boom".to_string()).step(), FailedStep::Dispatch);
    let copy = OllamaError::ToolExecution("boom".to_string()).clone();
    assert!(matches!(copy, OllamaError::ToolExecution(cause) if cause == "boom"));
}

#[test]
fn find_tool_gives_the_first_index_of_the_name() {
    let tools = vec![tool_named("a"), tool_named("b"), tool_named("a"), tool_named("c")];
    assert_eq!(find_tool(&tools, &"a".to_string()), Some(0));
    assert_eq!(find_tool(&tools, &"b".to_string()), Some(1));
    assert_eq!(find_tool(&tools, &"c".to_string()), Some(3));
    assert_eq!(find_tool(&tools, &"A".to_string()), None);
    assert_eq!(find_tool(&tools, &"".to_string()), None);
    assert_eq!(find_tool(&vec![], &"a".to_string()), None);
}

#[test]
fn parse_plans_the_call_of_a_known_tool() {
    let parser = LlamaFunctionCall {};
    let tools = vec![tool_named("search"), tool_named("lid_tightener")];
    let spread = parser
        .parse("<function=lid_tightener>{\n  \"rotations\": 3\n}</function>", "m".to_string(), &tools)
        .unwrap();
    assert_eq!(spread.tool, 1);
    assert_eq!(spread.arguments, json_value("{\"rotations\":3}"));
    let plan = parser
        .parse(
            "```json\n<function=lid_tightener>{{\"rotations\": 3}}</function>\n```",
            "llama3.1:latest".to_string(),
            &tools,
        )
        .unwrap();
    assert_eq!(plan.tool, 1);
    assert_eq!(plan.model_name, "llama3.1:latest");
    assert_eq!(plan.arguments, json_value("{\"rotations\":3}"));
    let planned = parser
        .plan("<function=search>{\"q\":1}</function>", "m".to_string(), &tools)
        .unwrap();
    assert_eq!(planned.tool, 0);
    assert_eq!(planned.model_name, "m");
    assert_eq!(planned.arguments, json_value("{\"q\":1}"));
}

#[test]
fn an_unknown_tool_name_gives_the_tool_not_found_envelope() {
    let parser = LlamaFunctionCall {};
    let tools = vec![tool_named("search"), tool_named("scrape")];
    let reply = "<function=lid_tightener>{\"rotations\": 3}</function>";
    let envelope = parser.parse(reply, "llama3.1:latest".to_string(), &tools).unwrap_err();
    assert_finished(&envelope, "", "Tool not found");
    assert!(matches!(
        parser.plan(reply, "llama3.1:latest".to_string(), &tools),
        Err(OllamaError::ToolNotFound)
    ));
    let envelope = parser.parse(reply, "m".to_string(), &vec![]).unwrap_err();
    assert_finished(&envelope, "", "Tool not found");
    let envelope = parser.parse("<function=Search>{}</function>", "m".to_string(), &tools).unwrap_err();
    assert_finished(&envelope, "", "Tool not found");
}

#[test]
fn a_reply_without_a_readable_call_gives_the_parse_error_envelope() {
    let parser = LlamaFunctionCall {};
    let tools = vec![tool_named("search")];
    for reply in ["", "I do not need a tool for this.", "<function=search>{oops}</function>"] {
        let envelope = parser.parse(reply, "m".to_string(), &tools).unwrap_err();
        assert_finished(&envelope, "", "Error parsing function call");
        let answers = parser.parse_toolbox(reply, "m".to_string(), &SearchAndScrape);
        assert_finished(&answers.unwrap_err(), "", "Error parsing function call");
    }
    assert!(matches!(parser.plan("", "m".to_string(), &tools), Err(OllamaError::Parse)));
    assert!(matches!(
        parser.plan("<function=search>{oops}</function>", "m".to_string(), &tools),
        Err(OllamaError::MalformedCallPayload)
    ));
}

#[test]
fn function_call_with_history_wraps_the_outcome() {
    let parser = LlamaFunctionCall {};
    let answer = parser
        .function_call_with_history(
            "llama3.1:latest".to_string(),
            Ok(Value::String("this many rotations: 3".to_string())),
        )
        .unwrap();
    assert_finished(&answer, "llama3.1:latest", "\"this many rotations: 3\"");
    let answer = parser
        .function_call_with_history("m".to_string(), Ok(json_value("[{\"title\": \"t\", \"link\": \"l\"}]")))
        .unwrap();
    assert_finished(&answer, "m", "[{\"link\":\"l\",\"title\":\"t\"}]");
    let failed = parser
        .function_call_with_history("m".to_string(), Err("timed out".to_string()))
        .unwrap_err();
    assert_finished(&failed, "", "timed out");
}

#[test]
fn toolbox_call_with_history_wraps_the_outcome() {
    let parser = LlamaFunctionCall {};
    let answer = parser.toolbox_call_with_history("m".to_string(), Ok(json_value("{\"ok\": true}"))).unwrap();
    assert_finished(&answer, "m", "{\"ok\":true}");
    let failed = parser
        .toolbox_call_with_history("m".to_string(), Err("no such page".to_string()))
        .unwrap_err();
    assert_finished(&failed, "", "no such page");
}

#[test]
fn parse_toolbox_answers_each_call_in_order() {
    let parser = LlamaFunctionCall {};
    let reply = "First I search: <function=search>{\"query\": \"verus\"}</function> then I read: <function=scrape>{\"url\": \"https://example.org\"}</function>";
    let answers = parser.parse_toolbox(reply, "llama3.1:latest".to_string(), &SearchAndScrape).unwrap();
    assert_eq!(answers.len(), 2);
    assert_finished(&answers[0], "llama3.1:latest", "\"results for \\\"verus\\\"\"");
    assert_finished(&answers[1], "llama3.1:latest", "\"page at \\\"https://example.org\\\"\"");
}

#[test]
fn parse_toolbox_skips_a_malformed_call_and_answers_the_others() {
    let parser = LlamaFunctionCall {};
    let reply = "<function=search>{\"query\": 1}</function><function=scrape>{broken</function><function=scrape>{\"url\": 2}</function>";
    let answers = parser.parse_toolbox(reply, "m".to_string(), &SearchAndScrape).unwrap();
    assert_eq!(answers.len(), 2);
    assert_finished(&answers[0], "m", "\"results for 1\"");
    assert_finished(&answers[1], "m", "\"page at 2\"");
}

#[test]
fn parse_toolbox_wraps_what_the_toolbox_says_of_an_unknown_name() {
    let parser = LlamaFunctionCall {};
    let reply = "<function=search>{\"query\": 1}</function><function=lid_tightener>{\"rotations\": 3}</function>";
    let answers = parser.parse_toolbox(reply, "m".to_string(), &SearchAndScrape).unwrap();
    assert_eq!(answers.len(), 2);
    assert_finished(&answers[0], "m", "\"results for 1\"");
    assert_finished(&answers[1], "m", "{\"error\":\"tool not found\"}");
}

#[test]
fn chat_message_response_assistant_is_finished() {
    let envelope = ChatMessageResponse::assistant("m".to_string(), "hello".to_string());
    assert_finished(&envelope, "m", "hello");
}
