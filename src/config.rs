//! Runtime configuration of a single fixed model, with the context window
//! split into a history budget and a reply budget, counted in `i32` as the
//! native runtime's parameters are.
use vstd::prelude::*;

use crate::paths::{join_path, path_in, DB_NAME};
use crate::settings::{
    clamp_spec, DEFAULT_BYTES_PER_TOKEN, DEFAULT_GLOBAL_MEM_BYTES, DEFAULT_MODEL_SIZE_BYTES,
};
use crate::text::owned;

verus! {

/// Fewest tokens of context the heuristic hands out.
pub const MIN_CONTEXT_TOKENS: i32 = 512;

/// Most tokens of context the heuristic hands out.
pub const MAX_CONTEXT_TOKENS: i32 = 10240;

/// Tokens of the window that are kept for the reply.
pub const REPLY_WINDOW_TOKENS: i32 = 2048;

/// File of the model this configuration runs.
pub const FIXED_MODEL_NAME: &'static str = "Llama-3.2-1B-Instruct-Q4_K_S.gguf";

/// Repository the model file is published in.
pub const FIXED_MODEL_REPO: &'static str = "bartowski/Llama-3.2-1B-Instruct-GGUF";

/// Tokens of context for `mem` bytes of memory beside a model of `model`
/// bytes, at `per_token` bytes a token, clamped.
pub open spec fn context_tokens(mem: int, model: int, per_token: int) -> int {
    let free = if mem > model { mem - model } else { 0 };
    clamp_spec(free / per_token, MIN_CONTEXT_TOKENS as int, MAX_CONTEXT_TOKENS as int)
}

/// Configuration of the fixed model.
#[derive(Clone)]
pub struct Config {
    pub model_name: String,
    /// Repository the model file is fetched from.
    pub model_url: String,
    /// Tokens of the whole window; also the decode batch capacity.
    pub batch_size: i32,
    /// Tokens of the window for the system turn and the history.
    pub max_context_length: i32,
    /// Tokens of the window for the reply.
    pub max_context_size: i32,
}

impl Config {
    /// The configuration sized for the default memory estimate. It never fails.
    pub fn init() -> (r: Result<Config, String>)
        ensures
            r matches Ok(c) && {
                &&& c.batch_size == context_tokens(
                    DEFAULT_GLOBAL_MEM_BYTES as int,
                    DEFAULT_MODEL_SIZE_BYTES as int,
                    DEFAULT_BYTES_PER_TOKEN as int,
                )
                &&& c.max_context_size == REPLY_WINDOW_TOKENS
                &&& c.max_context_length == c.batch_size - REPLY_WINDOW_TOKENS
                &&& c.model_name@ == FIXED_MODEL_NAME@
                &&& c.model_url@ == FIXED_MODEL_REPO@
            },
    {
        let memory_for_context = DEFAULT_GLOBAL_MEM_BYTES.saturating_sub(DEFAULT_MODEL_SIZE_BYTES);
        let tokens = memory_for_context / DEFAULT_BYTES_PER_TOKEN;
        let batch_size: i32 = if tokens < MIN_CONTEXT_TOKENS as u64 {
            MIN_CONTEXT_TOKENS
        } else if tokens > MAX_CONTEXT_TOKENS as u64 {
            MAX_CONTEXT_TOKENS
        } else {
            tokens as i32
        };
        Ok(Config {
            model_name: owned(FIXED_MODEL_NAME),
            model_url: owned(FIXED_MODEL_REPO),
            batch_size,
            max_context_length: batch_size - REPLY_WINDOW_TOKENS,
            max_context_size: REPLY_WINDOW_TOKENS,
        })
    }

    /// Tokens of the window for the reply.
    pub fn get_max_context_size(&self) -> (r: i32)
        ensures
            r == self.max_context_size,
    {
        self.max_context_size
    }

    /// Tokens of the window for the system turn and the history.
    pub fn get_max_context_length(&self) -> (r: i32)
        ensures
            r == self.max_context_length,
    {
        self.max_context_length
    }

    /// Tokens of the whole window.
    pub fn get_batch_size(&self) -> (r: i32)
        ensures
            r == self.batch_size,
    {
        self.batch_size
    }

    /// File name of the model.
    pub fn get_model_name(&self) -> (r: String)
        ensures
            r@ == self.model_name@,
    {
        self.model_name.clone()
    }

    /// Where the model's file lies inside the data directory `data_dir`.
    pub fn get_model_path(&self, data_dir: &str) -> (r: String)
        ensures
            r@ == path_in(data_dir@, self.model_name@),
    {
        join_path(data_dir, self.model_name.as_str())
    }

    /// Where the database lies inside the data directory `data_dir`.
    pub fn get_db_path(&self, data_dir: &str) -> (r: String)
        ensures
            r@ == path_in(data_dir@, DB_NAME@),
    {
        join_path(data_dir, DB_NAME)
    }
}

} // verus!
