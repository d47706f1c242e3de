//! The requests that open a tool-calling cycle: a conversation together
//! with the tools that the model may call.

use crate::chat::{messages_view, ChatMessage, ChatMessageRequest, ChatMessageRequestView};
use crate::options::{FormatType, GenerationOptions};
use crate::tools::{ToolDescriptor, Toolbox};
use vstd::prelude::*;

verus! {

/// A conversation and the list of tools that the model may call.
#[derive(Debug)]
pub struct FunctionCallRequest {
    pub chat: ChatMessageRequest,
    pub tools: Vec<ToolDescriptor>,
}

impl FunctionCallRequest {
    /// The request that sends `messages` to the model `model_name` and
    /// offers it `tools`, with nothing else set.
    pub fn new(model_name: String, tools: Vec<ToolDescriptor>, messages: Vec<ChatMessage>) -> (request:
        Self)
        ensures
            request.tools@ == tools@,
            request.chat@ == (ChatMessageRequestView {
                model_name: model_name@,
                messages: messages_view(messages@),
                options: None,
                template: None,
                format: None,
            }),
    {
        let chat = ChatMessageRequest::new(model_name, messages);
        Self { chat, tools }
    }

    /// Additional model parameters.
    pub fn options(self, options: GenerationOptions) -> (request: Self)
        ensures
            request.tools@ == self.tools@,
            request.chat@ == (ChatMessageRequestView { options: Some(options), ..self.chat@ }),
    {
        let mut request = self;
        request.chat.options = Some(options);
        request
    }

    /// The full prompt or prompt template, which overrides the model's
    /// own.
    pub fn template(self, template: String) -> (request: Self)
        ensures
            request.tools@ == self.tools@,
            request.chat@ == (ChatMessageRequestView { template: Some(template@), ..self.chat@ }),
    {
        let mut request = self;
        request.chat.template = Some(template);
        request
    }

    /// The format to return a reply in.
    pub fn format(self, format: FormatType) -> (request: Self)
        ensures
            request.tools@ == self.tools@,
            request.chat@ == (ChatMessageRequestView { format: Some(format), ..self.chat@ }),
    {
        let mut request = self;
        request.chat.format = Some(format);
        request
    }
}

/// A conversation and the toolbox whose tools the model may call.
pub struct ToolboxCallRequest<'a, T: Toolbox> {
    pub chat: ChatMessageRequest,
    pub toolbox: &'a T,
}

impl<'a, T: Toolbox> ToolboxCallRequest<'a, T> {
    /// The request that sends `messages` to the model `model_name` and
    /// offers it the tools of `toolbox`, with nothing else set.
    pub fn new(model_name: String, toolbox: &'a T, messages: Vec<ChatMessage>) -> (request: Self)
        ensures
            request.toolbox == toolbox,
            request.chat@ == (ChatMessageRequestView {
                model_name: model_name@,
                messages: messages_view(messages@),
                options: None,
                template: None,
                format: None,
            }),
    {
        let chat = ChatMessageRequest::new(model_name, messages);
        Self { chat, toolbox }
    }

    /// Additional model parameters.
    pub fn options(self, options: GenerationOptions) -> (request: Self)
        ensures
            request.toolbox == self.toolbox,
            request.chat@ == (ChatMessageRequestView { options: Some(options), ..self.chat@ }),
    {
        let mut request = self;
        request.chat.options = Some(options);
        request
    }

    /// The full prompt or prompt template, which overrides the model's
    /// own.
    pub fn template(self, template: String) -> (request: Self)
        ensures
            request.toolbox == self.toolbox,
            request.chat@ == (ChatMessageRequestView { template: Some(template@), ..self.chat@ }),
    {
        let mut request = self;
        request.chat.template = Some(template);
        request
    }

    /// The format to return a reply in.
    pub fn format(self, format: FormatType) -> (request: Self)
        ensures
            request.toolbox == self.toolbox,
            request.chat@ == (ChatMessageRequestView { format: Some(format), ..self.chat@ }),
    {
        let mut request = self;
        request.chat.format = Some(format);
        request
    }
}

} // verus!
