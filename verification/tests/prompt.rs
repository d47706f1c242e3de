use ollama_rs::chat::MessageRole;
use ollama_rs::pipelines::meta_llama::{
    convert_to_llama_tool, system_message, LlamaFunctionCall, DEFAULT_SYSTEM_TEMPLATE,
};
use ollama_rs::pipelines::RequestParserBase;
use ollama_rs::tools::{ToolDescriptor, Toolbox};
use serde_json::Value;

fn schema(text: &str) -> Value {
    serde_json::from_str(text).unwrap()
}

fn weather_tool() -> ToolDescriptor {
    ToolDescriptor::new(
        "get_weather".to_string(),
        "look up the weather".to_string(),
        schema("{\"type\":\"object\",\"properties\":{\"city\":{\"type\":\"string\"}}}"),
    )
}

struct FixedToolbox {
    description: Value,
}

impl Toolbox for FixedToolbox {
    fn get_impl_json(&self) -> Value {
        self.description.clone()
    }

    fn call_value_fn(&self, _tool_name: &str, tool_args: Value) -> Value {
        tool_args
    }
}

#[test]
fn the_template_has_its_placeholder_once_at_index_45() {
    let chars: Vec<char> = DEFAULT_SYSTEM_TEMPLATE.chars().collect();
    let at = DEFAULT_SYSTEM_TEMPLATE.find("{tools}").unwrap();
    assert_eq!(at, 45);
    assert!(DEFAULT_SYSTEM_TEMPLATE.is_ascii());
    assert_eq!(DEFAULT_SYSTEM_TEMPLATE.matches("{tools}").count(), 1);
    assert_eq!(chars.len(), 608);
}

#[test]
fn tool_descriptor_hands_out_what_it_was_made_of() {
    let tool = weather_tool();
    assert_eq!(tool.name(), "get_weather");
    assert_eq!(tool.description(), "look up the weather");
    assert_eq!(
        tool.parameters(),
        schema("{\"type\":\"object\",\"properties\":{\"city\":{\"type\":\"string\"}}}")
    );
    assert_eq!(tool.name, "get_weather");
}

#[test]
fn convert_to_llama_tool_writes_the_sentence_with_the_object() {
    let line = convert_to_llama_tool(&weather_tool());
    assert_eq!(
        line,
        Value::String(
            "Use the function 'get_weather' to 'look up the weather': {\"description\":\"look up the weather\",\"name\":\"get_weather\",\"parameters\":{\"properties\":{\"city\":{\"type\":\"string\"}},\"type\":\"object\"}}"
                .to_string()
        )
    );
}

#[test]
fn convert_to_llama_tool_escapes_inside_the_object_only() {
    let tool = ToolDescriptor::new("q".to_string(), "say \"hi\" {now}".to_string(), Value::Null);
    let line = convert_to_llama_tool(&tool);
    assert_eq!(
        line.as_str().unwrap(),
        "Use the function 'q' to 'say \"hi\" {now}': {\"description\":\"say \\\"hi\\\" {now}\",\"name\":\"q\",\"parameters\":null}"
    );
}

#[test]
fn get_system_message_puts_the_tools_in_the_template() {
    let parser = LlamaFunctionCall {};
    let tools = vec![weather_tool()];
    let message = parser.get_system_message(&tools);
    assert_eq!(message.role, MessageRole::System);
    let block = serde_json::to_string(&vec![convert_to_llama_tool(&tools[0])]).unwrap();
    assert_eq!(message.content, DEFAULT_SYSTEM_TEMPLATE.replace("{tools}", &block));
    assert!(message.content.starts_with("\nYou have access to the following functions:\n[\"Use the function 'get_weather' to 'look up the weather': {"));
    assert!(!message.content.contains("{tools}"));
}

#[test]
fn get_system_message_separates_the_tools_with_a_comma() {
    let parser = LlamaFunctionCall {};
    let tools = vec![
        ToolDescriptor::new("a".to_string(), "first".to_string(), Value::Null),
        ToolDescriptor::new("b".to_string(), "second".to_string(), Value::Bool(false)),
        ToolDescriptor::new("c".to_string(), "third".to_string(), schema("[]")),
    ];
    let message = parser.get_system_message(&tools);
    let block = "[\"Use the function 'a' to 'first': {\\\"description\\\":\\\"first\\\",\\\"name\\\":\\\"a\\\",\\\"parameters\\\":null}\",\"Use the function 'b' to 'second': {\\\"description\\\":\\\"second\\\",\\\"name\\\":\\\"b\\\",\\\"parameters\\\":false}\",\"Use the function 'c' to 'third': {\\\"description\\\":\\\"third\\\",\\\"name\\\":\\\"c\\\",\\\"parameters\\\":[]}\"]";
    assert_eq!(message.content, DEFAULT_SYSTEM_TEMPLATE.replace("{tools}", block));
}

#[test]
fn get_system_message_with_no_tools_has_an_empty_array() {
    let parser = LlamaFunctionCall {};
    let message = parser.get_system_message(&vec![]);
    assert_eq!(message.role, MessageRole::System);
    assert_eq!(message.content, DEFAULT_SYSTEM_TEMPLATE.replace("{tools}", "[]"));
}

#[test]
fn a_descriptor_is_read_back_whole_from_the_system_prompt() {
    let parser = LlamaFunctionCall {};
    let descriptors = [
        ("get_weather", "look up the weather", "{\"type\":\"object\"}"),
        ("q", "say \"hi\" to {{everyone}} \\ and {tools}", "null"),
        ("größe", "misst die Größe — 测量\n\ttabbed", "[1,2,{\"a\":\"}\"}]"),
        ("", "", "{}"),
    ];
    for (name, description, parameters) in descriptors {
        let tools =
            vec![ToolDescriptor::new(name.to_string(), description.to_string(), schema(parameters))];
        let content = parser.get_system_message(&tools).content;
        let head: String = DEFAULT_SYSTEM_TEMPLATE.chars().take(45).collect();
        let tail: String = DEFAULT_SYSTEM_TEMPLATE.chars().skip(52).collect();
        assert!(content.starts_with(&head));
        assert!(content.ends_with(&tail));
        let block = &content[head.len()..content.len() - tail.len()];
        let lines: Vec<String> = serde_json::from_str(block).unwrap();
        assert_eq!(lines.len(), 1);
        let line: Vec<char> = lines[0].chars().collect();
        let n = name.chars().count();
        let d = description.chars().count();
        assert_eq!(line[..18].iter().collect::<String>(), "Use the function '");
        assert_eq!(line[18..18 + n].iter().collect::<String>(), name);
        assert_eq!(line[18 + n..24 + n].iter().collect::<String>(), "' to '");
        assert_eq!(line[24 + n..24 + n + d].iter().collect::<String>(), description);
        assert_eq!(line[24 + n + d..27 + n + d].iter().collect::<String>(), "': ");
        let object: Value =
            serde_json::from_str(&line[27 + n + d..].iter().collect::<String>()).unwrap();
        assert_eq!(object["name"], Value::String(name.to_string()));
        assert_eq!(object["description"], Value::String(description.to_string()));
        assert_eq!(object["parameters"], schema(parameters));
    }
}

#[test]
fn system_message_writes_the_description_compactly() {
    let message = system_message(&schema("[ {\"name\" : \"search\"} , {\"name\" : \"scrape\"} ]"));
    assert_eq!(message.role, MessageRole::System);
    assert_eq!(
        message.content,
        DEFAULT_SYSTEM_TEMPLATE.replace("{tools}", "[{\"name\":\"search\"},{\"name\":\"scrape\"}]")
    );
}

#[test]
fn get_system_message_toolbox_uses_the_description_of_the_toolbox() {
    let parser = LlamaFunctionCall {};
    let toolbox = FixedToolbox { description: schema("{\"lid_tightener\":{\"rotations\":\"f32\"}}") };
    let message = parser.get_system_message_toolbox(&toolbox);
    assert_eq!(message.role, MessageRole::System);
    assert_eq!(
        message.content,
        DEFAULT_SYSTEM_TEMPLATE.replace("{tools}", "{\"lid_tightener\":{\"rotations\":\"f32\"}}")
    );
}

#[test]
fn format_query_and_format_response_hand_the_text_on() {
    let parser = LlamaFunctionCall {};
    assert_eq!(parser.format_query("tighten the lid 3 times"), "tighten the lid 3 times");
    assert_eq!(parser.format_query(""), "");
    assert_eq!(parser.format_response(" <function=a>{}</function> "), " <function=a>{}</function> ");
}
