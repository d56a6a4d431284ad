//! What an inference session is built from: the budgets of its configuration,
//! the chat template of its model and the system prompt, with the prompt
//! assembly and the start of a generation that use them.
use vstd::prelude::*;

use crate::catalog::{has_id, first_with_id, Model};
use crate::conversation::{Conversation, MessageView};
use crate::generation::{GenerateError, Generation};
use crate::prompt::{fit_tokens, fitted, prompt_text, render_prompt, Token};
use crate::settings::Config;

verus! {

/// Why a session cannot be built.
#[derive(PartialEq, Eq, Structural, Clone, Copy, Debug)]
pub enum SessionError {
    /// The catalog lists no model under the selected identifier.
    ModelNotAvailable,
    /// The prompt and reply budgets together exceed the batch capacity.
    BudgetsTooLarge,
    /// The batch capacity does not fit the runtime's 32-bit parameters.
    BatchTooLarge,
}

/// An inference session as the library sees it: its budgets, the chat
/// template of its model and its system prompt. The native execution
/// context that runs it is held beside it by the caller.
pub struct Inference {
    pub batch_size: u64,
    pub max_context_length: u64,
    pub max_output_length: u64,
    /// The descriptor of the session's model.
    pub template: Model,
    pub system_prompt: String,
}

impl Inference {
    /// The budgets fit one batch, and the batch the runtime's parameters.
    pub open spec fn wf(&self) -> bool {
        &&& self.max_context_length + self.max_output_length <= self.batch_size
        &&& 1 <= self.batch_size <= u32::MAX
    }

    /// The parameters for `cfg`'s selected model, with its template looked
    /// up in `cfg`'s catalog.
    pub fn init(cfg: &Config) -> (r: Result<Inference, SessionError>)
        ensures
            !has_id(cfg.models@, cfg.default_model@) <==> r == Err::<Inference, SessionError>(
                SessionError::ModelNotAvailable,
            ),
            has_id(cfg.models@, cfg.default_model@) && !cfg.budgets_fit() <==> r == Err::<
                Inference,
                SessionError,
            >(SessionError::BudgetsTooLarge),
            has_id(cfg.models@, cfg.default_model@) && cfg.budgets_fit() && !(1 <= cfg.batch_size
                <= u32::MAX) <==> r == Err::<Inference, SessionError>(SessionError::BatchTooLarge),
            r matches Ok(p) ==> {
                &&& p.wf()
                &&& p.batch_size == cfg.batch_size
                &&& p.max_context_length == cfg.max_context_length
                &&& p.max_output_length == cfg.max_output_length
                &&& p.system_prompt@ == cfg.system_prompt@
                &&& exists|i: int| first_with_id(cfg.models@, cfg.default_model@, i) && p.template@ == cfg.models@[i].1
            },
    {
        let template = match cfg.models.get(cfg.default_model.as_str()) {
            Some(m) => m.duplicate(),
            None => return Err(SessionError::ModelNotAvailable),
        };
        if cfg.max_output_length > cfg.batch_size || cfg.max_context_length > cfg.batch_size
            - cfg.max_output_length {
            return Err(SessionError::BudgetsTooLarge);
        }
        if cfg.batch_size == 0 || cfg.batch_size > u32::MAX as u64 {
            return Err(SessionError::BatchTooLarge);
        }
        Ok(Inference {
            batch_size: cfg.batch_size,
            max_context_length: cfg.max_context_length,
            max_output_length: cfg.max_output_length,
            template,
            system_prompt: cfg.system_prompt.clone(),
        })
    }

    /// The runtime's batch capacity and context size: both the batch
    /// capacity, since positions run up to it.
    pub fn context_sizes(&self) -> (r: (u32, u32))
        requires
            self.wf(),
        ensures
            r.0 == self.batch_size && r.1 == self.batch_size,
    {
        (self.batch_size as u32, self.batch_size as u32)
    }

    /// The prompt text for `conv`, within the prompt budget.
    pub fn format_prompt(&self, conv: &Conversation) -> (r: String)
        ensures
            r@ == prompt_text(self.template@, self.system_prompt@, conv.turns(), self.max_context_length as int),
    {
        render_prompt(conv, &self.template, self.system_prompt.as_str(), self.max_context_length)
    }

    /// The tokens of the prompt text, cut to the prompt budget.
    pub fn fit_prompt(&self, tokens: Vec<Token>) -> (r: Vec<Token>)
        ensures
            r@ == fitted(tokens@, self.max_context_length as int),
    {
        fit_tokens(tokens, self.max_context_length)
    }

    /// A generation for the conversation `conv_id` from a prompt of
    /// `n_prompt` tokens, under this session's budgets.
    pub fn start_generation(&self, conv_id: String, n_prompt: u64) -> (r: Result<Generation, GenerateError>)
        ensures
            n_prompt == 0 <==> r == Err::<Generation, GenerateError>(GenerateError::EmptyPrompt),
            n_prompt > self.batch_size <==> r == Err::<Generation, GenerateError>(GenerateError::PromptTooLong),
            r is Ok <==> 1 <= n_prompt <= self.batch_size,
            r matches Ok(g) ==> {
                &&& g.wf()
                &&& g.phase == crate::generation::Phase::ClearCache
                &&& g.conv_id@ == conv_id@
                &&& g.n_prompt == n_prompt && g.n_cur == n_prompt
                &&& g.batch_size == self.batch_size
                &&& g.max_output_length == self.max_output_length
                &&& g.text@.len() == 0
            },
    {
        Generation::start(conv_id, n_prompt, self.batch_size, self.max_output_length)
    }
}

/// Role of the turns the model writes.
pub const ASSISTANT_ROLE: &'static str = "assistant";

/// Role of the turns the user writes.
pub const USER_ROLE: &'static str = "user";

/// Ends a turn of `conv` with the outcome of its generation: a reply is
/// appended as the assistant's turn and handed back; a failed generation
/// leaves the conversation as it was and gives no reply.
pub fn record_reply(conv: &mut Conversation, reply: Result<String, GenerateError>) -> (r: Option<String>)
    ensures
        reply is Err ==> r is None && *final(conv) == *old(conv),
        reply matches Ok(s) ==> {
            &&& r matches Some(t) && t@ == s@
            &&& final(conv).id == old(conv).id
            &&& final(conv).title == old(conv).title
            &&& final(conv).turns() == old(conv).turns().push(MessageView { role: ASSISTANT_ROLE@, content: s@ })
        },
{
    match reply {
        Ok(s) => {
            conv.add_message(ASSISTANT_ROLE, s.as_str());
            Some(s)
        },
        Err(_) => None,
    }
}

/// A prompt and its reply fit one batch: whatever tokens the prompt text
/// gives, once fitted to the prompt budget, they and the reply budget
/// together never exceed the batch capacity.
pub proof fn lemma_prompt_and_reply_fit_batch(p: Inference, tokens: Seq<Token>)
    requires
        p.wf(),
    ensures
        fitted(tokens, p.max_context_length as int).len() + p.max_output_length <= p.batch_size,
{
}

} // verus!
