//! Chat messages, the request that carries them and the envelope that
//! answers.

use crate::options::{FormatType, GenerationOptions};
use vstd::prelude::*;

verus! {

/// Who a message of the conversation is from.
#[derive(Debug, Clone, Copy, PartialEq, Eq, Structural)]
pub enum MessageRole {
    System,
    User,
    Assistant,
}

/// One message of a conversation.
#[derive(Debug)]
pub struct ChatMessage {
    pub role: MessageRole,
    pub content: String,
}

/// A message as contracts see it.
pub ghost struct ChatMessageView {
    pub role: MessageRole,
    pub content: Seq<char>,
}

impl View for ChatMessage {
    type V = ChatMessageView;

    open spec fn view(&self) -> ChatMessageView {
        ChatMessageView { role: self.role, content: self.content@ }
    }
}

impl Clone for ChatMessage {
    fn clone(&self) -> (copy: Self)
        ensures
            copy@ == self@,
    {
        ChatMessage { role: self.role, content: self.content.clone() }
    }
}

impl ChatMessage {
    pub fn new(role: MessageRole, content: String) -> (message: Self)
        ensures
            message@ == (ChatMessageView { role, content: content@ }),
    {
        ChatMessage { role, content }
    }

    pub fn system(content: String) -> (message: Self)
        ensures
            message@ == (ChatMessageView { role: MessageRole::System, content: content@ }),
    {
        ChatMessage { role: MessageRole::System, content }
    }

    pub fn user(content: String) -> (message: Self)
        ensures
            message@ == (ChatMessageView { role: MessageRole::User, content: content@ }),
    {
        ChatMessage { role: MessageRole::User, content }
    }

    pub fn assistant(content: String) -> (message: Self)
        ensures
            message@ == (ChatMessageView { role: MessageRole::Assistant, content: content@ }),
    {
        ChatMessage { role: MessageRole::Assistant, content }
    }
}

/// The views of a conversation's messages, in order.
pub open spec fn messages_view(messages: Seq<ChatMessage>) -> Seq<ChatMessageView> {
    messages.map_values(|m: ChatMessage| m@)
}

/// The view of an optional text.
pub open spec fn text_view(text: Option<String>) -> Option<Seq<char>> {
    match text {
        Some(t) => Some(t@),
        None => None,
    }
}

/// A conversation on its way to the inference service.
#[derive(Debug)]
pub struct ChatMessageRequest {
    pub model_name: String,
    pub messages: Vec<ChatMessage>,
    pub options: Option<GenerationOptions>,
    pub template: Option<String>,
    pub format: Option<FormatType>,
}

/// A request as contracts see it.
pub ghost struct ChatMessageRequestView {
    pub model_name: Seq<char>,
    pub messages: Seq<ChatMessageView>,
    pub options: Option<GenerationOptions>,
    pub template: Option<Seq<char>>,
    pub format: Option<FormatType>,
}

impl View for ChatMessageRequest {
    type V = ChatMessageRequestView;

    open spec fn view(&self) -> ChatMessageRequestView {
        ChatMessageRequestView {
            model_name: self.model_name@,
            messages: messages_view(self.messages@),
            options: self.options,
            template: text_view(self.template),
            format: self.format,
        }
    }
}

impl ChatMessageRequest {
    /// The request that sends `messages` to the model `model_name`, with
    /// nothing else set.
    pub fn new(model_name: String, messages: Vec<ChatMessage>) -> (request: Self)
        ensures
            request@ == (ChatMessageRequestView {
                model_name: model_name@,
                messages: messages_view(messages@),
                options: None,
                template: None,
                format: None,
            }),
    {
        ChatMessageRequest { model_name, messages, options: None, template: None, format: None }
    }

    /// The same request with the model's parameters set to `options`.
    pub fn options(self, options: GenerationOptions) -> (request: Self)
        ensures
            request@ == (ChatMessageRequestView { options: Some(options), ..self@ }),
    {
        let mut request = self;
        request.options = Some(options);
        request
    }

    /// The same request with the prompt template `template`, which
    /// overrides the model's own.
    pub fn template(self, template: String) -> (request: Self)
        ensures
            request@ == (ChatMessageRequestView { template: Some(template@), ..self@ }),
    {
        let mut request = self;
        request.template = Some(template);
        request
    }

    /// The same request with the reply asked in `format`.
    pub fn format(self, format: FormatType) -> (request: Self)
        ensures
            request@ == (ChatMessageRequestView { format: Some(format), ..self@ }),
    {
        let mut request = self;
        request.format = Some(format);
        request
    }
}

/// What the inference service measured while it produced a reply.
#[derive(Debug, Clone, Copy, PartialEq, Eq, Structural)]
pub struct ChatMessageFinalResponseData {
    pub total_duration: u64,
    pub prompt_eval_count: u16,
    pub prompt_eval_duration: u64,
    pub eval_count: u16,
    pub eval_duration: u64,
}

/// The envelope in which every result of a cycle reaches the caller,
/// a failure as much as a success.
#[derive(Debug)]
pub struct ChatMessageResponse {
    pub model: String,
    pub created_at: String,
    pub message: Option<ChatMessage>,
    pub done: bool,
    pub final_data: Option<ChatMessageFinalResponseData>,
}

/// An envelope as contracts see it.
pub ghost struct ChatMessageResponseView {
    pub model: Seq<char>,
    pub created_at: Seq<char>,
    pub message: Option<ChatMessageView>,
    pub done: bool,
    pub final_data: Option<ChatMessageFinalResponseData>,
}

impl View for ChatMessageResponse {
    type V = ChatMessageResponseView;

    open spec fn view(&self) -> ChatMessageResponseView {
        ChatMessageResponseView {
            model: self.model@,
            created_at: self.created_at@,
            message: match self.message {
                Some(m) => Some(m@),
                None => None,
            },
            done: self.done,
            final_data: self.final_data,
        }
    }
}

/// The finished envelope that carries `content` as the assistant's word
/// for the model `model`: no timestamp, no measurements.
pub open spec fn assistant_envelope(model: Seq<char>, content: Seq<char>)
    -> ChatMessageResponseView {
    ChatMessageResponseView {
        model,
        created_at: Seq::<char>::empty(),
        message: Some(ChatMessageView { role: MessageRole::Assistant, content }),
        done: true,
        final_data: None,
    }
}

impl ChatMessageResponse {
    /// Wraps `content` as the assistant's finished answer for `model`.
    pub fn assistant(model: String, content: String) -> (envelope: Self)
        ensures
            envelope@ == assistant_envelope(model@, content@),
    {
        ChatMessageResponse {
            model,
            created_at: String::new(),
            message: Some(ChatMessage::assistant(content)),
            done: true,
            final_data: None,
        }
    }
}

} // verus!
