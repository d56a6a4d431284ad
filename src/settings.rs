//! Session configuration: token budgets derived from a memory estimate.
use vstd::prelude::*;

use crate::catalog::{default_catalog, default_models, ModelCatalog};
use crate::paths::{join_path, path_in};
use crate::text::owned;

verus! {

/// Memory that the session sizing heuristic assumes the device has.
pub const DEFAULT_GLOBAL_MEM_BYTES: u64 = 4294967296;

/// Estimated memory footprint of a quantized model file.
pub const DEFAULT_MODEL_SIZE_BYTES: u64 = 1073741824;

/// Empirical memory cost of one token of context.
pub const DEFAULT_BYTES_PER_TOKEN: u64 = 8192;

/// Tokens reserved for the generated reply.
pub const DEFAULT_MAX_OUTPUT_LENGTH: u64 = 4096;

/// Smallest decode batch capacity the heuristic hands out.
pub const MIN_BATCH_SIZE: u64 = 4096;

/// Largest decode batch capacity the heuristic hands out.
pub const MAX_BATCH_SIZE: u64 = 32768;

/// `v` clamped into `[lo, hi]`.
pub open spec fn clamp_spec(v: int, lo: int, hi: int) -> int {
    if v < lo {
        lo
    } else if v > hi {
        hi
    } else {
        v
    }
}

/// Batch capacity for a device with `mem` bytes, a model of `model` bytes
/// and `per_token` bytes per token of context.
pub open spec fn sized_batch(mem: int, model: int, per_token: int) -> int {
    let free = if mem > model { mem - model } else { 0 };
    clamp_spec(free / per_token, MIN_BATCH_SIZE as int, MAX_BATCH_SIZE as int)
}

/// System prompt that sessions start from.
pub const DEFAULT_SYSTEM_PROMPT: &'static str = "You are a friendly AI assistant named Breve.
You are designed to respond to user queries in a friendly and empathetic manner.
Answer without making up facts or hallucinating.";

/// `v` clamped into `[lo, hi]`.
fn clamp_u64(v: u64, lo: u64, hi: u64) -> (r: u64)
    requires
        lo <= hi,
    ensures
        r == clamp_spec(v as int, lo as int, hi as int),
{
    if v < lo {
        lo
    } else if v > hi {
        hi
    } else {
        v
    }
}

/// How a session is sized and which model it runs.
pub struct Config {
    /// Identifier of the selected model; empty while none is selected.
    pub default_model: String,
    /// Most tokens one decode call processes; also the position ceiling.
    pub batch_size: u64,
    /// Tokens reserved for the system turn and the history.
    pub max_context_length: u64,
    /// Tokens reserved for the reply.
    pub max_output_length: u64,
    pub system_prompt: String,
    pub models: ModelCatalog,
}

impl Config {
    /// Whether the prompt budget and the reply budget together fit one batch.
    pub open spec fn budgets_fit(&self) -> bool {
        self.max_context_length + self.max_output_length <= self.batch_size
    }

    /// The configuration sized for the default memory estimate: the batch
    /// capacity is the memory left beside the model divided by the cost of a
    /// token, clamped, and the reply budget is taken out of it.
    pub fn init() -> (r: Config)
        ensures
            r.batch_size == sized_batch(
                DEFAULT_GLOBAL_MEM_BYTES as int,
                DEFAULT_MODEL_SIZE_BYTES as int,
                DEFAULT_BYTES_PER_TOKEN as int,
            ),
            r.max_output_length == DEFAULT_MAX_OUTPUT_LENGTH,
            r.max_context_length == r.batch_size - DEFAULT_MAX_OUTPUT_LENGTH,
            r.system_prompt@ == DEFAULT_SYSTEM_PROMPT@,
            r.models@ == default_catalog(),
            r.models.wf(),
            r.default_model@.len() == 0,
            r.budgets_fit(),
    {
        let memory_for_context = DEFAULT_GLOBAL_MEM_BYTES.saturating_sub(DEFAULT_MODEL_SIZE_BYTES);
        let max_context_tokens = memory_for_context / DEFAULT_BYTES_PER_TOKEN;
        let batch_size = clamp_u64(max_context_tokens, MIN_BATCH_SIZE, MAX_BATCH_SIZE);
        Config {
            default_model: String::new(),
            batch_size,
            max_context_length: batch_size - DEFAULT_MAX_OUTPUT_LENGTH,
            max_output_length: DEFAULT_MAX_OUTPUT_LENGTH,
            system_prompt: owned(DEFAULT_SYSTEM_PROMPT),
            models: default_models(),
        }
    }

    /// Where the selected model's file lies inside the data directory.
    pub fn get_model_path(&self, data_dir: &str) -> (r: String)
        ensures
            r@ == path_in(data_dir@, self.default_model@),
    {
        join_path(data_dir, self.default_model.as_str())
    }

    /// The models a session can be built for.
    pub fn get_available_models(&self) -> (r: &ModelCatalog)
        ensures
            *r == self.models,
    {
        &self.models
    }
}

} // verus!
