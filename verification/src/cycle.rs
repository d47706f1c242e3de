//! One request/response cycle as a state machine. The machine decides;
//! whoever drives it does the outside work it asks for (asking the
//! inference service, running a tool) and hands back what happened.
//!
//! A cycle starts `Built`, is `Prompted` once the conversation with its
//! system message is on the way, and is `Dispatched` while a tool runs.
//! Reading the reply and resolving the call happen within the step that
//! takes the reply. `Completed` and `Failed` end the cycle.

use crate::chat::{
    assistant_envelope, messages_view, ChatMessage, ChatMessageResponse, ChatMessageResponseView,
    ChatMessageView, MessageRole,
};
use crate::error::{OllamaError, OllamaErrorView};
use crate::json::{encode, json_text};
use crate::pipelines::{
    answers_call, is_first_named, none_named, presents_toolbox, RequestParserBase,
};
use crate::toolbox_request::{FunctionCallRequest, ToolboxCallRequest};
use crate::tools::{tools_view, ToolDescriptorView, Toolbox};
use vstd::prelude::*;

verus! {

/// Where a cycle stands.
#[derive(Debug)]
pub enum CycleState {
    /// Nothing has been sent yet.
    Built,
    /// The conversation is with the inference service.
    Prompted,
    /// The tool at index `tool` is running; its answer will be
    /// attributed to `model_name`.
    Dispatched { model_name: String, tool: usize },
    /// The cycle ended with these answers, one for each call, in order.
    Completed { answers: Vec<ChatMessageResponse> },
    /// The cycle ended with `error`, which `envelope` reports.
    Failed { error: OllamaError, envelope: ChatMessageResponse },
}

/// What happened outside since the last step.
#[derive(Debug)]
pub enum CycleEvent {
    /// The driver is ready to begin.
    Start,
    /// The inference service replied with this text.
    Reply(String),
    /// The inference service could not be asked or answered badly.
    ServiceFailed(String),
    /// The tool returned this value.
    ToolReturned(serde_json::Value),
    /// The tool failed for this cause.
    ToolFailed(String),
}

/// The outside work that a step asks for.
#[derive(Debug)]
pub enum CycleAction {
    /// Send this conversation to the inference service.
    Generate { messages: Vec<ChatMessage> },
    /// Run the tool at index `tool` of the request's list on `arguments`.
    RunTool { tool: usize, arguments: serde_json::Value },
}

/// A state as contracts see it.
pub ghost enum CycleStateView {
    Built,
    Prompted,
    Dispatched { model_name: Seq<char>, tool: int },
    Completed { answers: Seq<ChatMessageResponseView> },
    Failed { error: OllamaErrorView, envelope: ChatMessageResponseView },
}

/// The views of `envelopes`, in order.
pub open spec fn envelopes_view(envelopes: Seq<ChatMessageResponse>) -> Seq<
    ChatMessageResponseView,
> {
    envelopes.map_values(|e: ChatMessageResponse| e@)
}

impl View for CycleState {
    type V = CycleStateView;

    open spec fn view(&self) -> CycleStateView {
        match self {
            CycleState::Built => CycleStateView::Built,
            CycleState::Prompted => CycleStateView::Prompted,
            CycleState::Dispatched { model_name, tool } => CycleStateView::Dispatched {
                model_name: model_name@,
                tool: *tool as int,
            },
            CycleState::Completed { answers } => CycleStateView::Completed {
                answers: envelopes_view(answers@),
            },
            CycleState::Failed { error, envelope } => CycleStateView::Failed {
                error: error@,
                envelope: envelope@,
            },
        }
    }
}

/// An action as contracts see it.
pub ghost enum CycleActionView {
    Generate { messages: Seq<ChatMessageView> },
    RunTool { tool: int, arguments: Seq<char> },
}

impl View for CycleAction {
    type V = CycleActionView;

    open spec fn view(&self) -> CycleActionView {
        match self {
            CycleAction::Generate { messages } => CycleActionView::Generate {
                messages: messages_view(messages@),
            },
            CycleAction::RunTool { tool, arguments } => CycleActionView::RunTool {
                tool: *tool as int,
                arguments: json_text(*arguments),
            },
        }
    }
}

/// The view of the action that a step asks for, if it asks for one.
pub open spec fn action_view(action: Option<CycleAction>) -> Option<CycleActionView> {
    match action {
        Some(a) => Some(a@),
        None => None,
    }
}

/// Whether the cycle is over.
pub open spec fn is_terminal(state: CycleStateView) -> bool {
    state is Completed || state is Failed
}

/// The conversation with the system message `content` put first.
pub open spec fn prompted(content: Seq<char>, messages: Seq<ChatMessageView>) -> Seq<
    ChatMessageView,
> {
    seq![ChatMessageView { role: MessageRole::System, content }] + messages
}

/// The conversation with `system` put first.
pub fn with_system_message(system: ChatMessage, conversation: &Vec<ChatMessage>) -> (messages: Vec<
    ChatMessage,
>)
    ensures
        messages_view(messages@) == seq![system@] + messages_view(conversation@),
{
    let ghost first = system@;
    let mut messages: Vec<ChatMessage> = Vec::new();
    messages.push(system);
    let mut i: usize = 0;
    assert(messages_view(messages@) =~= seq![first] + messages_view(conversation@).take(0));
    while i < conversation.len()
        invariant
            i <= conversation.len(),
            messages_view(messages@) == seq![first] + messages_view(conversation@).take(i as int),
        decreases conversation.len() - i,
    {
        let ghost before = messages@;
        messages.push(conversation[i].clone());
        assert(messages_view(messages@) =~= messages_view(before).push(conversation@[i as int]@));
        assert(messages_view(conversation@).take(i + 1) =~= messages_view(conversation@).take(
            i as int,
        ).push(conversation@[i as int]@));
        i += 1;
    }
    assert(messages_view(conversation@).take(i as int) =~= messages_view(conversation@));
    messages
}

impl CycleState {
    /// Tells whether the cycle is over.
    pub fn is_terminal(&self) -> (over: bool)
        ensures
            over == is_terminal(self@),
    {
        match self {
            CycleState::Completed { .. } => true,
            CycleState::Failed { .. } => true,
            _ => false,
        }
    }
}

/// Whether a cycle with a tool list, standing in `state`, goes to `next`
/// and asks for `action` when `event` arrives.
///
/// `Start` sends the conversation, the system message first. A reply is
/// read and its call resolved: the tool is asked for, or the cycle fails
/// with the error that stands in the way. The tool's return completes the
/// cycle, its failure fails it. An event that the state does not wait for
/// changes nothing.
pub open spec fn function_call_step<P: RequestParserBase>(
    parser: P,
    model_name: Seq<char>,
    tools: Seq<ToolDescriptorView>,
    messages: Seq<ChatMessageView>,
    state: CycleStateView,
    event: CycleEvent,
    next: CycleStateView,
    action: Option<CycleActionView>,
) -> bool {
    match (state, event) {
        (CycleStateView::Built, CycleEvent::Start) => {
            &&& next == CycleStateView::Prompted
            &&& action == Some(
                CycleActionView::Generate {
                    messages: prompted(parser.prompt(parser.tools_json(tools)), messages),
                },
            )
        },
        (CycleStateView::Prompted, CycleEvent::Reply(text)) => match parser.first_call(text@) {
            Ok(call) => {
                ||| {
                    &&& next matches CycleStateView::Dispatched { model_name: m, tool }
                    &&& m == model_name
                    &&& is_first_named(tools, call.function, tool)
                    &&& action == Some(
                        CycleActionView::RunTool { tool, arguments: call.arguments },
                    )
                }
                ||| {
                    &&& none_named(tools, call.function)
                    &&& next == (CycleStateView::Failed {
                        error: OllamaErrorView::ToolNotFound,
                        envelope: parser.report(OllamaErrorView::ToolNotFound),
                    })
                    &&& action is None
                }
            },
            Err(error) => {
                &&& next == (CycleStateView::Failed { error, envelope: parser.report(error) })
                &&& action is None
            },
        },
        (CycleStateView::Prompted, CycleEvent::ServiceFailed(cause)) => {
            &&& next == (CycleStateView::Failed {
                error: OllamaErrorView::Generation(cause@),
                envelope: parser.report(OllamaErrorView::Generation(cause@)),
            })
            &&& action is None
        },
        (CycleStateView::Dispatched { model_name: m, tool }, CycleEvent::ToolReturned(result)) => {
            &&& next == (CycleStateView::Completed {
                answers: seq![assistant_envelope(m, json_text(result))],
            })
            &&& action is None
        },
        (CycleStateView::Dispatched { model_name: m, tool }, CycleEvent::ToolFailed(cause)) => {
            &&& next == (CycleStateView::Failed {
                error: OllamaErrorView::ToolExecution(cause@),
                envelope: parser.report(OllamaErrorView::ToolExecution(cause@)),
            })
            &&& action is None
        },
        _ => next == state && action is None,
    }
}

/// Whether a cycle with a toolbox, standing in `state`, goes to `next`
/// and asks for `action` when `event` arrives.
///
/// `Start` sends the conversation, the system message first. A reply is
/// read and every call in it invoked on the toolbox within the step: the
/// cycle completes with one finished answer for each call, or fails with
/// `Parse` where no call can be read. An event that the state does not
/// wait for changes nothing.
pub open spec fn toolbox_call_step<P: RequestParserBase, T: Toolbox>(
    parser: P,
    toolbox: T,
    model_name: Seq<char>,
    messages: Seq<ChatMessageView>,
    state: CycleStateView,
    event: CycleEvent,
    next: CycleStateView,
    action: Option<CycleActionView>,
) -> bool {
    match (state, event) {
        (CycleStateView::Built, CycleEvent::Start) => {
            &&& next == CycleStateView::Prompted
            &&& action matches Some(CycleActionView::Generate { messages: sent })
            &&& sent.len() == messages.len() + 1
            &&& presents_toolbox(parser, toolbox, sent[0])
            &&& sent.skip(1) == messages
        },
        (CycleStateView::Prompted, CycleEvent::Reply(text)) => {
            &&& action is None
            &&& if parser.calls(text@).len() == 0 {
                next == (CycleStateView::Failed {
                    error: OllamaErrorView::Parse,
                    envelope: parser.report(OllamaErrorView::Parse),
                })
            } else {
                &&& next matches CycleStateView::Completed { answers }
                &&& answers.len() == parser.calls(text@).len()
                &&& forall|i: int|
                    0 <= i < answers.len() ==> answers_call(
                        toolbox,
                        parser.calls(text@)[i],
                        model_name,
                        #[trigger] answers[i],
                    )
            }
        },
        (CycleStateView::Prompted, CycleEvent::ServiceFailed(cause)) => {
            &&& next == (CycleStateView::Failed {
                error: OllamaErrorView::Generation(cause@),
                envelope: parser.report(OllamaErrorView::Generation(cause@)),
            })
            &&& action is None
        },
        _ => next == state && action is None,
    }
}

/// How far a cycle has come: a step never lowers it.
pub open spec fn progress(state: CycleStateView) -> nat {
    match state {
        CycleStateView::Built => 0,
        CycleStateView::Prompted => 1,
        CycleStateView::Dispatched { .. } => 2,
        CycleStateView::Completed { .. } => 3,
        CycleStateView::Failed { .. } => 3,
    }
}

/// A cycle with a tool list that is over stays as it is and asks for
/// nothing more, whatever arrives.
pub proof fn lemma_function_call_cycle_ends<P: RequestParserBase>(
    parser: P,
    model_name: Seq<char>,
    tools: Seq<ToolDescriptorView>,
    messages: Seq<ChatMessageView>,
    state: CycleStateView,
    event: CycleEvent,
    next: CycleStateView,
    action: Option<CycleActionView>,
)
    requires
        is_terminal(state),
        function_call_step(parser, model_name, tools, messages, state, event, next, action),
    ensures
        next == state,
        action is None,
{
}

/// A cycle with a toolbox that is over stays as it is and asks for
/// nothing more, whatever arrives.
pub proof fn lemma_toolbox_call_cycle_ends<P: RequestParserBase, T: Toolbox>(
    parser: P,
    toolbox: T,
    model_name: Seq<char>,
    messages: Seq<ChatMessageView>,
    state: CycleStateView,
    event: CycleEvent,
    next: CycleStateView,
    action: Option<CycleActionView>,
)
    requires
        is_terminal(state),
        toolbox_call_step(parser, toolbox, model_name, messages, state, event, next, action),
    ensures
        next == state,
        action is None,
{
}

/// A step of a cycle with a tool list has one outcome: the same state
/// and event lead to the same next state and the same action.
pub proof fn lemma_function_call_step_is_deterministic<P: RequestParserBase>(
    parser: P,
    model_name: Seq<char>,
    tools: Seq<ToolDescriptorView>,
    messages: Seq<ChatMessageView>,
    state: CycleStateView,
    event: CycleEvent,
    one: (CycleStateView, Option<CycleActionView>),
    other: (CycleStateView, Option<CycleActionView>),
)
    requires
        function_call_step(parser, model_name, tools, messages, state, event, one.0, one.1),
        function_call_step(parser, model_name, tools, messages, state, event, other.0, other.1),
    ensures
        one == other,
{
    if let (CycleStateView::Prompted, CycleEvent::Reply(text)) = (state, event) {
        if let Ok(call) = parser.first_call(text@) {
            if let CycleStateView::Dispatched { model_name: m1, tool: t1 } = one.0 {
                assert(tools[t1].name == call.function);
                if let CycleStateView::Dispatched { model_name: m2, tool: t2 } = other.0 {
                    assert(tools[t2].name == call.function);
                    assert(t1 == t2);
                }
            } else if let CycleStateView::Dispatched { model_name: m2, tool: t2 } = other.0 {
                assert(tools[t2].name == call.function);
            }
        }
    }
}

/// A step of a cycle with a tool list never goes back, asks for outside
/// work only while the cycle goes on, and where it fails the cycle, the
/// envelope is the strategy's report of the error; a call whose name no
/// tool has fails it with `ToolNotFound`.
pub proof fn lemma_function_call_step_goes_on<P: RequestParserBase>(
    parser: P,
    model_name: Seq<char>,
    tools: Seq<ToolDescriptorView>,
    messages: Seq<ChatMessageView>,
    state: CycleStateView,
    event: CycleEvent,
    next: CycleStateView,
    action: Option<CycleActionView>,
)
    requires
        function_call_step(parser, model_name, tools, messages, state, event, next, action),
    ensures
        progress(state) <= progress(next),
        action is Some ==> !is_terminal(next) && progress(state) < progress(next),
        !(state is Failed) ==> (next matches CycleStateView::Failed { error, envelope }
            ==> envelope == parser.report(error)),
        state is Prompted ==> match event {
            CycleEvent::Reply(text) => match parser.first_call(text@) {
                Ok(call) => none_named(tools, call.function) ==> next
                    == (CycleStateView::Failed {
                    error: OllamaErrorView::ToolNotFound,
                    envelope: parser.report(OllamaErrorView::ToolNotFound),
                }),
                Err(_) => true,
            },
            _ => true,
        },
{
    if let (CycleStateView::Prompted, CycleEvent::Reply(text)) = (state, event) {
        if let Ok(call) = parser.first_call(text@) {
            if let CycleStateView::Dispatched { model_name: m, tool } = next {
                assert(tools[tool].name == call.function);
            }
        }
    }
}

/// A step of a cycle with a toolbox never goes back, and a reply ends
/// the cycle: with one finished answer for each call read, in the order
/// of the calls, or with the report of `Parse` where none is read.
pub proof fn lemma_toolbox_call_step_goes_on<P: RequestParserBase, T: Toolbox>(
    parser: P,
    toolbox: T,
    model_name: Seq<char>,
    messages: Seq<ChatMessageView>,
    state: CycleStateView,
    event: CycleEvent,
    next: CycleStateView,
    action: Option<CycleActionView>,
)
    requires
        toolbox_call_step(parser, toolbox, model_name, messages, state, event, next, action),
    ensures
        progress(state) <= progress(next),
        (state is Prompted && event is Reply) ==> is_terminal(next),
        (state is Prompted && event is Reply) ==> (next matches CycleStateView::Completed {
            answers,
        } ==> forall|i: int| 0 <= i < answers.len() ==> (#[trigger] answers[i]).done),
{
    if let (CycleStateView::Prompted, CycleEvent::Reply(text)) = (state, event) {
        if let CycleStateView::Completed { answers } = next {
            assert forall|i: int| 0 <= i < answers.len() implies (#[trigger] answers[i]).done by {
                assert(answers_call(toolbox, parser.calls(text@)[i], model_name, answers[i]));
            }
        }
    }
}

impl FunctionCallRequest {
    /// Takes one step of the cycle that this request opens.
    pub fn step<P: RequestParserBase>(&self, parser: &P, state: CycleState, event: CycleEvent) -> (
        next: (CycleState, Option<CycleAction>)
    )
        ensures
            function_call_step(
                *parser,
                self.chat@.model_name,
                tools_view(self.tools@),
                self.chat@.messages,
                state@,
                event,
                next.0@,
                action_view(next.1),
            ),
    {
        match (state, event) {
            (CycleState::Built, CycleEvent::Start) => {
                let messages = with_system_message(
                    parser.get_system_message(&self.tools),
                    &self.chat.messages,
                );
                (CycleState::Prompted, Some(CycleAction::Generate { messages }))
            },
            (CycleState::Prompted, CycleEvent::Reply(text)) => {
                match parser.plan(text.as_str(), self.chat.model_name.clone(), &self.tools) {
                    Ok(plan) => (
                        CycleState::Dispatched { model_name: plan.model_name, tool: plan.tool },
                        Some(CycleAction::RunTool { tool: plan.tool, arguments: plan.arguments }),
                    ),
                    Err(error) => {
                        let envelope = parser.error_handler(error.clone());
                        (CycleState::Failed { error, envelope }, None)
                    },
                }
            },
            (CycleState::Prompted, CycleEvent::ServiceFailed(cause)) => {
                let error = OllamaError::Generation(cause);
                let envelope = parser.error_handler(error.clone());
                (CycleState::Failed { error, envelope }, None)
            },
            (CycleState::Dispatched { model_name, tool }, CycleEvent::ToolReturned(result)) => {
                let mut answers: Vec<ChatMessageResponse> = Vec::new();
                answers.push(ChatMessageResponse::assistant(model_name, encode(&result)));
                assert(envelopes_view(answers@) =~= seq![answers@[0]@]);
                (CycleState::Completed { answers }, None)
            },
            (CycleState::Dispatched { model_name, tool }, CycleEvent::ToolFailed(cause)) => {
                let error = OllamaError::ToolExecution(cause);
                let envelope = parser.error_handler(error.clone());
                (CycleState::Failed { error, envelope }, None)
            },
            (state, _) => (state, None),
        }
    }
}

impl<'a, T: Toolbox> ToolboxCallRequest<'a, T> {
    /// Takes one step of the cycle that this request opens.
    pub fn step<P: RequestParserBase>(&self, parser: &P, state: CycleState, event: CycleEvent) -> (
        next: (CycleState, Option<CycleAction>)
    )
        ensures
            toolbox_call_step(
                *parser,
                *self.toolbox,
                self.chat@.model_name,
                self.chat@.messages,
                state@,
                event,
                next.0@,
                action_view(next.1),
            ),
    {
        match (state, event) {
            (CycleState::Built, CycleEvent::Start) => {
                let system = parser.get_system_message_toolbox(self.toolbox);
                assert(presents_toolbox(*parser, *self.toolbox, system@));
                let messages = with_system_message(system, &self.chat.messages);
                assert(messages_view(messages@)[0] == system@);
                assert(messages_view(messages@).skip(1) =~= self.chat@.messages);
                (CycleState::Prompted, Some(CycleAction::Generate { messages }))
            },
            (CycleState::Prompted, CycleEvent::Reply(text)) => {
                let answered = parser.parse_toolbox(
                    text.as_str(),
                    self.chat.model_name.clone(),
                    self.toolbox,
                );
                match answered {
                    Ok(answers) => {
                        assert(envelopes_view(answers@).len() == answers.len());
                        (CycleState::Completed { answers }, None)
                    },
                    Err(envelope) => (CycleState::Failed { error: OllamaError::Parse, envelope }, None),
                }
            },
            (CycleState::Prompted, CycleEvent::ServiceFailed(cause)) => {
                let error = OllamaError::Generation(cause);
                let envelope = parser.error_handler(error.clone());
                (CycleState::Failed { error, envelope }, None)
            },
            (state, _) => (state, None),
        }
    }
}

} // verus!
