//! The failures of one tool-calling cycle.

use vstd::prelude::*;
use vstd::string::StringExecFns;

verus! {

/// Why a tool-calling cycle failed.
#[derive(Debug)]
pub enum OllamaError {
    /// The inference service was unreachable or sent a malformed response;
    /// the field holds its description.
    Generation(String),
    /// The reply holds no recognizable call.
    Parse,
    /// A call tag was found, but its arguments do not decode.
    MalformedCallPayload,
    /// The named function is not among the active tools.
    ToolNotFound,
    /// The tool's own operation failed; the field holds the cause.
    ToolExecution(String),
}

/// An error as contracts see it.
pub ghost enum OllamaErrorView {
    Generation(Seq<char>),
    Parse,
    MalformedCallPayload,
    ToolNotFound,
    ToolExecution(Seq<char>),
}

impl View for OllamaError {
    type V = OllamaErrorView;

    open spec fn view(&self) -> OllamaErrorView {
        match self {
            OllamaError::Generation(cause) => OllamaErrorView::Generation(cause@),
            OllamaError::Parse => OllamaErrorView::Parse,
            OllamaError::MalformedCallPayload => OllamaErrorView::MalformedCallPayload,
            OllamaError::ToolNotFound => OllamaErrorView::ToolNotFound,
            OllamaError::ToolExecution(cause) => OllamaErrorView::ToolExecution(cause@),
        }
    }
}

/// The step of a cycle in which an error arises.
#[derive(Debug, Clone, Copy, PartialEq, Eq, Structural)]
pub enum FailedStep {
    /// While the inference service was asked.
    Generation,
    /// While the reply was read.
    Parse,
    /// While the call was resolved or the tool ran.
    Dispatch,
}

/// What a reader of the conversation is told about `error`. A payload
/// that does not decode is reported like a reply without a call.
pub open spec fn description_of(error: OllamaErrorView) -> Seq<char> {
    match error {
        OllamaErrorView::Generation(cause) => cause,
        OllamaErrorView::Parse => "Error parsing function call"@,
        OllamaErrorView::MalformedCallPayload => "Error parsing function call"@,
        OllamaErrorView::ToolNotFound => "Tool not found"@,
        OllamaErrorView::ToolExecution(cause) => cause,
    }
}

/// The step in which `error` arises.
pub open spec fn step_of(error: OllamaErrorView) -> FailedStep {
    match error {
        OllamaErrorView::Generation(_) => FailedStep::Generation,
        OllamaErrorView::Parse => FailedStep::Parse,
        OllamaErrorView::MalformedCallPayload => FailedStep::Parse,
        OllamaErrorView::ToolNotFound => FailedStep::Dispatch,
        OllamaErrorView::ToolExecution(_) => FailedStep::Dispatch,
    }
}

impl Clone for OllamaError {
    fn clone(&self) -> (copy: Self)
        ensures
            copy@ == self@,
    {
        match self {
            OllamaError::Generation(cause) => OllamaError::Generation(cause.clone()),
            OllamaError::Parse => OllamaError::Parse,
            OllamaError::MalformedCallPayload => OllamaError::MalformedCallPayload,
            OllamaError::ToolNotFound => OllamaError::ToolNotFound,
            OllamaError::ToolExecution(cause) => OllamaError::ToolExecution(cause.clone()),
        }
    }
}

impl OllamaError {
    /// The human-readable description of this error.
    pub fn describe(&self) -> (text: String)
        ensures
            text@ == description_of(self@),
    {
        match self {
            OllamaError::Generation(cause) => cause.clone(),
            OllamaError::Parse => String::from_str("Error parsing function call"),
            OllamaError::MalformedCallPayload => String::from_str("Error parsing function call"),
            OllamaError::ToolNotFound => String::from_str("Tool not found"),
            OllamaError::ToolExecution(cause) => cause.clone(),
        }
    }

    /// The step of the cycle in which this error arises.
    pub fn step(&self) -> (step: FailedStep)
        ensures
            step == step_of(self@),
    {
        match self {
            OllamaError::Generation(_) => FailedStep::Generation,
            OllamaError::Parse => FailedStep::Parse,
            OllamaError::MalformedCallPayload => FailedStep::Parse,
            OllamaError::ToolNotFound => FailedStep::Dispatch,
            OllamaError::ToolExecution(_) => FailedStep::Dispatch,
        }
    }
}

} // verus!
