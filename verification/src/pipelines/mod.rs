//! Parser strategies: one per family of models. A strategy teaches a
//! model the tools in a system prompt and reads the calls out of its reply.

use crate::chat::{
    assistant_envelope, ChatMessage, ChatMessageResponse, ChatMessageResponseView,
    ChatMessageView, MessageRole,
};
use crate::error::{OllamaError, OllamaErrorView};
use crate::json::json_text;
use crate::tools::{tools_view, ToolDescriptor, ToolDescriptorView, Toolbox};
use vstd::prelude::*;

pub mod meta_llama;

verus! {

/// A call as contracts see it; the arguments by their JSON text.
pub ghost struct CallView {
    pub function: Seq<char>,
    pub arguments: Seq<char>,
}

/// A call that was read from a reply and resolved against a tool list:
/// what is left to do is to run the tool.
#[derive(Debug)]
pub struct PlannedCall {
    /// The model the answer will be attributed to.
    pub model_name: String,
    /// The index of the tool in the list it was resolved against.
    pub tool: usize,
    pub arguments: serde_json::Value,
}

/// A planned call as contracts see it.
pub ghost struct PlannedCallView {
    pub model_name: Seq<char>,
    pub tool: int,
    pub arguments: Seq<char>,
}

impl View for PlannedCall {
    type V = PlannedCallView;

    open spec fn view(&self) -> PlannedCallView {
        PlannedCallView {
            model_name: self.model_name@,
            tool: self.tool as int,
            arguments: json_text(self.arguments),
        }
    }
}

/// Whether `at` is the first index in `tools` of a tool named `name`.
pub open spec fn is_first_named(tools: Seq<ToolDescriptorView>, name: Seq<char>, at: int) -> bool {
    &&& 0 <= at < tools.len()
    &&& tools[at].name == name
    &&& forall|j: int| 0 <= j < at ==> (#[trigger] tools[j]).name != name
}

/// Whether no tool in `tools` is named `name`.
pub open spec fn none_named(tools: Seq<ToolDescriptorView>, name: Seq<char>) -> bool {
    forall|j: int| 0 <= j < tools.len() ==> (#[trigger] tools[j]).name != name
}

/// Whether `plan` is what becomes of `call` when it is resolved against
/// `tools` for the model `model_name`: the first tool of the call's name,
/// or `ToolNotFound` where none has it.
pub open spec fn resolves_to(
    call: CallView,
    model_name: Seq<char>,
    tools: Seq<ToolDescriptorView>,
    plan: Result<PlannedCallView, OllamaErrorView>,
) -> bool {
    match plan {
        Ok(planned) => {
            &&& is_first_named(tools, call.function, planned.tool)
            &&& planned.arguments == call.arguments
            &&& planned.model_name == model_name
        },
        Err(error) => none_named(tools, call.function) && error == OllamaErrorView::ToolNotFound,
    }
}

/// Whether `envelope` is the finished answer for `model_name` to `call`:
/// the assistant's word in it is a JSON text that `toolbox` may return
/// when the call's tool is invoked on the call's arguments.
pub open spec fn answers_call<T: Toolbox>(
    toolbox: T,
    call: CallView,
    model_name: Seq<char>,
    envelope: ChatMessageResponseView,
) -> bool {
    exists|result: Seq<char>|
        #[trigger] toolbox.answers(call.function, call.arguments, result) && envelope
            == assistant_envelope(model_name, result)
}

/// Whether `message` is the system message with the content `prompt`
/// makes of a description that `toolbox` may give of its tools.
pub open spec fn presents_toolbox<P: RequestParserBase, T: Toolbox>(
    parser: P,
    toolbox: T,
    message: ChatMessageView,
) -> bool {
    exists|description: Seq<char>|
        #[trigger] toolbox.describes(description) && message == (ChatMessageView {
            role: MessageRole::System,
            content: parser.prompt(description),
        })
}

/// The view of a plan or of the error in its place.
pub open spec fn plan_view(plan: Result<PlannedCall, OllamaError>) -> Result<
    PlannedCallView,
    OllamaErrorView,
> {
    match plan {
        Ok(planned) => Ok(planned@),
        Err(error) => Err(error@),
    }
}

/// The index of the first tool in `tools` that is named `name`.
pub fn find_tool(tools: &Vec<ToolDescriptor>, name: &String) -> (found: Option<usize>)
    ensures
        match found {
            Some(at) => is_first_named(tools_view(tools@), name@, at as int),
            None => none_named(tools_view(tools@), name@),
        },
{
    let mut i: usize = 0;
    while i < tools.len()
        invariant
            i <= tools.len(),
            forall|j: int| 0 <= j < i ==> (#[trigger] tools_view(tools@)[j]).name != name@,
        decreases tools.len() - i,
    {
        if tools[i].name == *name {
            return Some(i);
        }
        i += 1;
    }
    None
}

/// Resolving a call against a tool list has one outcome: two plans that
/// both answer to the same call, model and tools are the same plan.
pub proof fn lemma_resolution_is_unique(
    call: CallView,
    model_name: Seq<char>,
    tools: Seq<ToolDescriptorView>,
    one: Result<PlannedCallView, OllamaErrorView>,
    other: Result<PlannedCallView, OllamaErrorView>,
)
    requires
        resolves_to(call, model_name, tools, one),
        resolves_to(call, model_name, tools, other),
    ensures
        one == other,
{
    match (one, other) {
        (Ok(a), Ok(b)) => {
            if a.tool < b.tool {
                assert(tools[a.tool].name == call.function);
            } else if b.tool < a.tool {
                assert(tools[b.tool].name == call.function);
            }
        },
        (Ok(a), Err(_)) => {
            assert(tools[a.tool].name == call.function);
        },
        (Err(_), Ok(b)) => {
            assert(tools[b.tool].name == call.function);
        },
        (Err(_), Err(_)) => {},
    }
}

/// A call whose name no tool has resolves to `ToolNotFound`, and to
/// nothing else; a call whose name a tool has resolves to a plan.
pub proof fn lemma_unknown_name_is_not_found(
    call: CallView,
    model_name: Seq<char>,
    tools: Seq<ToolDescriptorView>,
    plan: Result<PlannedCallView, OllamaErrorView>,
)
    requires
        resolves_to(call, model_name, tools, plan),
    ensures
        none_named(tools, call.function) <==> plan == Err::<PlannedCallView, OllamaErrorView>(
            OllamaErrorView::ToolNotFound,
        ),
        !none_named(tools, call.function) <==> plan is Ok,
{
    if let Ok(planned) = plan {
        assert(tools[planned.tool].name == call.function);
    }
}

/// What every strategy offers. A strategy keeps no state between calls:
/// what it reads out of a reply is a function of the reply, named here by
/// `first_call` and `calls`, and each strategy says what its own are.
pub trait RequestParserBase {
    /// The call that `parse` and `plan` read out of `input`, or why none
    /// can be read.
    spec fn first_call(&self, input: Seq<char>) -> Result<CallView, OllamaErrorView>;

    /// The calls that `parse_toolbox` reads out of `content`, in order.
    spec fn calls(&self, content: Seq<char>) -> Seq<CallView>;

    /// The content of the system message that presents tools whose
    /// description has the JSON text `tools_json`.
    spec fn prompt(&self, tools_json: Seq<char>) -> Seq<char>;

    /// The JSON text that describes `tools` in the system message.
    spec fn tools_json(&self, tools: Seq<ToolDescriptorView>) -> Seq<char>;

    /// The envelope that reports `error`.
    spec fn report(&self, error: OllamaErrorView) -> ChatMessageResponseView;

    /// Reads one call out of `input` and resolves it against `tools`, and
    /// says which error stands in the way where one does.
    fn plan(&self, input: &str, model_name: String, tools: &Vec<ToolDescriptor>) -> (planned:
        Result<PlannedCall, OllamaError>)
        ensures
            match self.first_call(input@) {
                Ok(call) => resolves_to(
                    call,
                    model_name@,
                    tools_view(tools@),
                    plan_view(planned),
                ),
                Err(error) => plan_view(planned) == Err::<PlannedCallView, OllamaErrorView>(
                    error,
                ),
            },
    ;

    /// Reads one call out of `input` and resolves it against `tools`. An
    /// error comes back as the finished envelope that reports it.
    fn parse(&self, input: &str, model_name: String, tools: &Vec<ToolDescriptor>) -> (planned:
        Result<PlannedCall, ChatMessageResponse>)
        ensures
            match planned {
                Ok(plan) => self.first_call(input@) matches Ok(call) && resolves_to(
                    call,
                    model_name@,
                    tools_view(tools@),
                    Ok(plan@),
                ),
                Err(envelope) => match self.first_call(input@) {
                    Ok(call) => {
                        &&& none_named(tools_view(tools@), call.function)
                        &&& envelope@ == self.report(OllamaErrorView::ToolNotFound)
                    },
                    Err(error) => envelope@ == self.report(error),
                },
            },
    ;

    /// Reads every call out of `tool_call_content`, invokes each on
    /// `toolbox` and wraps what comes back: one envelope for each call, in
    /// the order of the calls, each finished and with the JSON text of
    /// what the toolbox returned for that call as the assistant's answer
    /// for `model_name`. Where no call can be read the envelope that
    /// reports the parse error comes back.
    fn parse_toolbox<T: Toolbox>(
        &self,
        tool_call_content: &str,
        model_name: String,
        toolbox: &T,
    ) -> (answers: Result<Vec<ChatMessageResponse>, ChatMessageResponse>)
        ensures
            match answers {
                Ok(envelopes) => {
                    &&& envelopes.len() > 0
                    &&& envelopes.len() == self.calls(tool_call_content@).len()
                    &&& forall|i: int|
                        0 <= i < envelopes.len() ==> answers_call(
                            *toolbox,
                            self.calls(tool_call_content@)[i],
                            model_name@,
                            (#[trigger] envelopes[i])@,
                        )
                },
                Err(envelope) => {
                    &&& self.calls(tool_call_content@).len() == 0
                    &&& envelope@ == self.report(OllamaErrorView::Parse)
                },
            },
    ;

    /// Prepares what the user wrote for the model: the text is handed on
    /// as it is.
    fn format_query(&self, input: &str) -> (query: String)
        ensures
            query@ == input@,
    {
        input.to_owned()
    }

    /// Prepares what the model wrote for the user: the text is handed on
    /// as it is.
    fn format_response(&self, response: &str) -> (formatted: String)
        ensures
            formatted@ == response@,
    {
        response.to_owned()
    }

    /// The system message that describes `tools` to the model.
    fn get_system_message(&self, tools: &Vec<ToolDescriptor>) -> (message: ChatMessage)
        ensures
            message@ == (ChatMessageView {
                role: MessageRole::System,
                content: self.prompt(self.tools_json(tools_view(tools@))),
            }),
    ;

    /// The system message that describes the tools of `toolbox` to the
    /// model, by the description that the toolbox gives of them.
    fn get_system_message_toolbox<T: Toolbox>(&self, toolbox: &T) -> (message: ChatMessage)
        ensures
            exists|description: Seq<char>|
                #[trigger] toolbox.describes(description) && message@ == (ChatMessageView {
                    role: MessageRole::System,
                    content: self.prompt(description),
                }),
    ;

    /// The finished envelope that reports `error` as the assistant's word.
    fn error_handler(&self, error: OllamaError) -> (envelope: ChatMessageResponse)
        ensures
            envelope@ == self.report(error@),
            envelope@.done,
            envelope@.message matches Some(m) && m.role == MessageRole::Assistant,
    ;
}

} // verus!
