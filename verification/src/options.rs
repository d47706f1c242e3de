//! Options that a request hands on to the model, and the format it asks
//! the reply in.

use vstd::prelude::*;

verus! {

/// The format to return a reply in.
#[derive(Debug, Clone, Copy, PartialEq, Eq, Structural)]
pub enum FormatType {
    Json,
}

/// Parameters of the model that a request may set; what is `None` is
/// left to the model's own default.
#[derive(Debug, Clone, Copy)]
pub struct GenerationOptions {
    pub mirostat: Option<u8>,
    pub num_ctx: Option<u32>,
    pub num_predict: Option<i32>,
    pub repeat_last_n: Option<i32>,
    pub seed: Option<i32>,
    pub top_k: Option<u32>,
}

impl Default for GenerationOptions {
    fn default() -> (options: Self)
        ensures
            options == GenerationOptions::unset(),
    {
        GenerationOptions {
            mirostat: None,
            num_ctx: None,
            num_predict: None,
            repeat_last_n: None,
            seed: None,
            top_k: None,
        }
    }
}

impl GenerationOptions {
    /// The options that set nothing.
    pub open spec fn unset() -> GenerationOptions {
        GenerationOptions {
            mirostat: None,
            num_ctx: None,
            num_predict: None,
            repeat_last_n: None,
            seed: None,
            top_k: None,
        }
    }

    /// Mirostat sampling: 0 is off, 1 is Mirostat, 2 is Mirostat 2.0.
    pub fn mirostat(self, mirostat: u8) -> (options: Self)
        ensures
            options == (GenerationOptions { mirostat: Some(mirostat), ..self }),
    {
        GenerationOptions { mirostat: Some(mirostat), ..self }
    }

    /// The size of the context window, in tokens.
    pub fn num_ctx(self, num_ctx: u32) -> (options: Self)
        ensures
            options == (GenerationOptions { num_ctx: Some(num_ctx), ..self }),
    {
        GenerationOptions { num_ctx: Some(num_ctx), ..self }
    }

    /// The most tokens to predict; -1 is no limit, -2 fills the context.
    pub fn num_predict(self, num_predict: i32) -> (options: Self)
        ensures
            options == (GenerationOptions { num_predict: Some(num_predict), ..self }),
    {
        GenerationOptions { num_predict: Some(num_predict), ..self }
    }

    /// How far back the model looks to prevent repetition; 0 is off, -1
    /// is the whole context.
    pub fn repeat_last_n(self, repeat_last_n: i32) -> (options: Self)
        ensures
            options == (GenerationOptions { repeat_last_n: Some(repeat_last_n), ..self }),
    {
        GenerationOptions { repeat_last_n: Some(repeat_last_n), ..self }
    }

    /// The seed of the random numbers used in generation.
    pub fn seed(self, seed: i32) -> (options: Self)
        ensures
            options == (GenerationOptions { seed: Some(seed), ..self }),
    {
        GenerationOptions { seed: Some(seed), ..self }
    }

    /// How many of the likeliest tokens are kept at each step.
    pub fn top_k(self, top_k: u32) -> (options: Self)
        ensures
            options == (GenerationOptions { top_k: Some(top_k), ..self }),
    {
        GenerationOptions { top_k: Some(top_k), ..self }
    }
}

} // verus!
