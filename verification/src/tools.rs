//! What a tool tells the pipeline of itself, and the toolbox contract.

use crate::json::json_text;
use vstd::prelude::*;

verus! {

/// A tool as the pipeline knows it: its name, what it is for, and the
/// schema of its parameters.
#[derive(Debug)]
pub struct ToolDescriptor {
    pub name: String,
    pub description: String,
    pub parameters: serde_json::Value,
}

/// A tool descriptor as contracts see it; the schema by its JSON text.
pub ghost struct ToolDescriptorView {
    pub name: Seq<char>,
    pub description: Seq<char>,
    pub parameters: Seq<char>,
}

impl View for ToolDescriptor {
    type V = ToolDescriptorView;

    open spec fn view(&self) -> ToolDescriptorView {
        ToolDescriptorView {
            name: self.name@,
            description: self.description@,
            parameters: json_text(self.parameters),
        }
    }
}

impl ToolDescriptor {
    pub fn new(name: String, description: String, parameters: serde_json::Value) -> (tool: Self)
        ensures
            tool@ == (ToolDescriptorView {
                name: name@,
                description: description@,
                parameters: json_text(parameters),
            }),
    {
        ToolDescriptor { name, description, parameters }
    }

    /// The name by which a model calls the tool.
    pub fn name(&self) -> (name: String)
        ensures
            name@ == self@.name,
    {
        self.name.clone()
    }

    /// What the tool is for, in words.
    pub fn description(&self) -> (description: String)
        ensures
            description@ == self@.description,
    {
        self.description.clone()
    }

    /// The schema of the tool's parameters.
    pub fn parameters(&self) -> (parameters: serde_json::Value)
        ensures
            json_text(parameters) == self@.parameters,
    {
        self.parameters.clone()
    }
}

/// The views of `tools`, in order.
pub open spec fn tools_view(tools: Seq<ToolDescriptor>) -> Seq<ToolDescriptorView> {
    tools.map_values(|t: ToolDescriptor| t@)
}

/// A fixed bundle of tools behind two operations. What the operations
/// may return is for each toolbox to say, in `describes` and `answers`:
/// a toolbox that says nothing may return anything. The pipeline hands on
/// whatever comes back; a toolbox answers an unknown name with a value of
/// its own choosing.
pub trait Toolbox {
    /// Whether `description` is a JSON text that this toolbox may give of
    /// its tools.
    open spec fn describes(&self, description: Seq<char>) -> bool {
        true
    }

    /// Whether `result` is a JSON text that this toolbox may return when
    /// the tool named `tool_name` is invoked on the arguments with the
    /// JSON text `tool_args`.
    open spec fn answers(
        &self,
        tool_name: Seq<char>,
        tool_args: Seq<char>,
        result: Seq<char>,
    ) -> bool {
        true
    }

    /// Describes all tools of the box, in a fixed order.
    fn get_impl_json(&self) -> (description: serde_json::Value)
        ensures
            self.describes(json_text(description)),
    ;

    /// Invokes the tool named `tool_name` on `tool_args`.
    fn call_value_fn(&self, tool_name: &str, tool_args: serde_json::Value) -> (result:
        serde_json::Value)
        ensures
            self.answers(tool_name@, json_text(tool_args), json_text(result)),
    ;
}

} // verus!
