//! Function-call parsing and dispatch for tool-using language models.

pub mod chat;
pub mod cycle;
pub mod error;
pub mod json;
pub mod matcher;
pub mod options;
pub mod pipelines;
pub mod text;
pub mod toolbox_request;
pub mod tools;
