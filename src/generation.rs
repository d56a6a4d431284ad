//! The token generation loop as a state machine. The native runtime decodes
//! and samples; the machine decides, after each of its results, what is done
//! next, streams each fragment, and holds the reply text.
use vstd::prelude::*;

use crate::text::owned;

verus! {

/// A piece of a reply, streamed as soon as it is decoded.
#[derive(Clone, Debug)]
pub struct StreamingContent {
    /// Conversation the reply belongs to.
    pub id: String,
    pub content: String,
}

/// Where a generation stands.
#[derive(PartialEq, Eq, Structural, Clone, Copy, Debug)]
pub enum Phase {
    /// The decode cache still holds an earlier generation's state.
    ClearCache,
    /// The prompt waits to be decoded.
    DecodePrompt,
    /// A token waits to be sampled.
    Sample,
    /// The sampled token waits to be decoded.
    DecodeToken,
    /// The reply is complete.
    Finished,
    /// The prompt could not be decoded: nothing was generated.
    Failed,
}

/// What the runtime reports back.
#[derive(PartialEq, Eq, Structural, Clone, Copy, Debug)]
pub enum Report {
    CacheCleared,
    PromptDecoded { ok: bool },
    Sampled { eos: bool },
    TokenDecoded { ok: bool },
}

/// The phase a generation in phase `p` moves to on report `e`, if `e` is
/// expected there.
pub open spec fn after(p: Phase, e: Report, can_continue: bool) -> Option<Phase> {
    match (p, e) {
        (Phase::ClearCache, Report::CacheCleared) => Some(Phase::DecodePrompt),
        (Phase::DecodePrompt, Report::PromptDecoded { ok }) => Some(
            if !ok {
                Phase::Failed
            } else if can_continue {
                Phase::Sample
            } else {
                Phase::Finished
            },
        ),
        (Phase::Sample, Report::Sampled { eos }) => Some(
            if eos {
                Phase::Finished
            } else {
                Phase::DecodeToken
            },
        ),
        (Phase::DecodeToken, Report::TokenDecoded { ok }) => Some(
            if ok && can_continue {
                Phase::Sample
            } else {
                Phase::Finished
            },
        ),
        _ => None,
    }
}

/// The next step for the runtime.
#[derive(Clone, Debug)]
pub enum Action {
    /// Clear the decode cache.
    ClearCache,
    /// Decode the prompt's `n_tokens` tokens at positions from 0, with the
    /// output of the last one kept for sampling.
    DecodePrompt { n_tokens: u64 },
    /// Sample, greedily, at index `index` of the batch last decoded.
    Sample { index: u64 },
    /// Hand `fragment` to the event sink, then decode the sampled token
    /// alone at position `position`.
    EmitAndDecode { fragment: StreamingContent, position: u64 },
    /// Generation is over.
    Stop,
}

/// Why a generation produced no reply.
#[derive(PartialEq, Eq, Structural, Clone, Copy, Debug)]
pub enum GenerateError {
    /// The prompt holds no token.
    EmptyPrompt,
    /// The prompt holds more tokens than one batch takes.
    PromptTooLong,
    /// The runtime could not decode the prompt.
    DecodeFailed,
    /// The generation has not ended yet.
    Unfinished,
}

/// One generation of a reply.
pub struct Generation {
    /// Conversation the reply belongs to.
    pub conv_id: String,
    pub phase: Phase,
    /// Tokens of the prompt.
    pub n_prompt: u64,
    /// Position of the next token: tokens decoded so far.
    pub n_cur: u64,
    /// Position ceiling and decode batch capacity.
    pub batch_size: u64,
    /// Most tokens of the reply.
    pub max_output_length: u64,
    /// The reply so far: every fragment, in order.
    pub text: String,
}

impl Generation {
    /// Positions stay inside the prompt plus the reply budget, below the batch ceiling.
    pub open spec fn wf(&self) -> bool {
        &&& 1 <= self.n_prompt <= self.n_cur <= self.batch_size
        &&& self.n_cur - self.n_prompt <= self.max_output_length
        &&& (self.phase == Phase::ClearCache || self.phase == Phase::DecodePrompt) ==> self.n_cur == self.n_prompt
        &&& self.phase == Phase::DecodeToken ==> self.n_cur > self.n_prompt
    }

    /// Whether `other` has the same conversation, prompt and limits.
    pub open spec fn same_bounds(&self, other: &Generation) -> bool {
        &&& self.conv_id == other.conv_id
        &&& self.n_prompt == other.n_prompt
        &&& self.batch_size == other.batch_size
        &&& self.max_output_length == other.max_output_length
    }

    /// Tokens generated so far.
    pub open spec fn generated(&self) -> int {
        self.n_cur - self.n_prompt
    }

    /// Whether another token may be sampled: the position is below the
    /// ceiling and the reply below its budget.
    pub open spec fn can_continue(&self) -> bool {
        self.n_cur < self.batch_size && self.generated() < self.max_output_length
    }

    /// A generation of a reply to a prompt of `n_prompt` tokens. It starts
    /// by clearing the decode cache: the prompt holds the whole history, and
    /// what an earlier generation left there would repeat it.
    pub fn start(conv_id: String, n_prompt: u64, batch_size: u64, max_output_length: u64) -> (r: Result<
        Generation,
        GenerateError,
    >)
        ensures
            n_prompt == 0 <==> r == Err::<Generation, GenerateError>(GenerateError::EmptyPrompt),
            n_prompt > batch_size <==> r == Err::<Generation, GenerateError>(GenerateError::PromptTooLong),
            r is Ok <==> 1 <= n_prompt <= batch_size,
            r matches Ok(g) ==> {
                &&& g.wf()
                &&& g.phase == Phase::ClearCache
                &&& g.conv_id@ == conv_id@
                &&& g.n_prompt == n_prompt && g.n_cur == n_prompt
                &&& g.batch_size == batch_size && g.max_output_length == max_output_length
                &&& g.text@.len() == 0
            },
    {
        if n_prompt == 0 {
            return Err(GenerateError::EmptyPrompt);
        }
        if n_prompt > batch_size {
            return Err(GenerateError::PromptTooLong);
        }
        Ok(Generation {
            conv_id,
            phase: Phase::ClearCache,
            n_prompt,
            n_cur: n_prompt,
            batch_size,
            max_output_length,
            text: String::new(),
        })
    }

    /// The first step: clear the decode cache.
    pub fn first_action(&self) -> (r: Action)
        requires
            self.phase == Phase::ClearCache,
        ensures
            r is ClearCache,
    {
        Action::ClearCache
    }

    /// Where to sample next: after the prompt, at its last token; after a
    /// single token, at that token.
    fn sample_action(&self) -> (r: Action)
        requires
            self.wf(),
        ensures
            r == (Action::Sample { index: if self.n_cur == self.n_prompt { (self.n_prompt - 1) as u64 } else { 0 } }),
    {
        if self.n_cur == self.n_prompt {
            Action::Sample { index: self.n_prompt - 1 }
        } else {
            Action::Sample { index: 0 }
        }
    }

    /// Whether another token may be sampled.
    pub fn may_continue(&self) -> (r: bool)
        requires
            self.wf(),
        ensures
            r == self.can_continue(),
    {
        self.n_cur < self.batch_size && self.n_cur - self.n_prompt < self.max_output_length
    }

    /// The cache is clear: decode the prompt.
    pub fn cache_cleared(&mut self) -> (r: Action)
        requires
            old(self).wf(),
            old(self).phase == Phase::ClearCache,
        ensures
            final(self).wf(),
            final(self).same_bounds(old(self)),
            Some(final(self).phase) == after(old(self).phase, Report::CacheCleared, old(self).can_continue()),
            final(self).n_cur == old(self).n_cur,
            final(self).text == old(self).text,
            r == (Action::DecodePrompt { n_tokens: old(self).n_prompt }),
    {
        self.phase = Phase::DecodePrompt;
        Action::DecodePrompt { n_tokens: self.n_prompt }
    }

    /// The runtime decoded the prompt, or failed to (`ok` false). A failure
    /// ends the generation with no reply.
    pub fn prompt_decoded(&mut self, ok: bool) -> (r: Action)
        requires
            old(self).wf(),
            old(self).phase == Phase::DecodePrompt,
        ensures
            final(self).wf(),
            final(self).same_bounds(old(self)),
            Some(final(self).phase) == after(old(self).phase, Report::PromptDecoded { ok }, old(self).can_continue()),
            final(self).n_cur == old(self).n_cur,
            final(self).text == old(self).text,
            final(self).phase == Phase::Sample ==> r == (Action::Sample { index: (old(self).n_prompt - 1) as u64 }),
            final(self).phase != Phase::Sample ==> r is Stop,
    {
        if !ok {
            self.phase = Phase::Failed;
            return Action::Stop;
        }
        if self.may_continue() {
            self.phase = Phase::Sample;
            self.sample_action()
        } else {
            self.phase = Phase::Finished;
            Action::Stop
        }
    }

    /// The runtime sampled a token: the end of the sequence (`eos`), or one
    /// whose text, as far as it decodes, is `piece`. The piece is added to
    /// the reply and streamed, and the token is decoded at the next position.
    pub fn sampled(&mut self, eos: bool, piece: &str) -> (r: Action)
        requires
            old(self).wf(),
            old(self).phase == Phase::Sample,
            old(self).can_continue(),
        ensures
            final(self).wf(),
            final(self).same_bounds(old(self)),
            Some(final(self).phase) == after(old(self).phase, Report::Sampled { eos }, old(self).can_continue()),
            eos ==> final(self).n_cur == old(self).n_cur && final(self).text == old(self).text && r is Stop,
            !eos ==> {
                &&& final(self).n_cur == old(self).n_cur + 1
                &&& final(self).text@ == old(self).text@ + piece@
                &&& r matches Action::EmitAndDecode { fragment, position } && {
                    &&& fragment.id@ == old(self).conv_id@
                    &&& fragment.content@ == piece@
                    &&& position == old(self).n_cur
                    &&& position < old(self).batch_size
                }
            },
    {
        if eos {
            self.phase = Phase::Finished;
            return Action::Stop;
        }
        self.text.append(piece);
        let position = self.n_cur;
        self.n_cur = self.n_cur + 1;
        self.phase = Phase::DecodeToken;
        Action::EmitAndDecode {
            fragment: StreamingContent { id: self.conv_id.clone(), content: owned(piece) },
            position,
        }
    }

    /// The runtime decoded the sampled token, or failed to (`ok` false). A
    /// failure here ends the generation with the text produced so far.
    pub fn token_decoded(&mut self, ok: bool) -> (r: Action)
        requires
            old(self).wf(),
            old(self).phase == Phase::DecodeToken,
        ensures
            final(self).wf(),
            final(self).same_bounds(old(self)),
            Some(final(self).phase) == after(old(self).phase, Report::TokenDecoded { ok }, old(self).can_continue()),
            final(self).n_cur == old(self).n_cur,
            final(self).text == old(self).text,
            final(self).phase == Phase::Sample ==> r == (Action::Sample { index: 0 }),
            final(self).phase != Phase::Sample ==> r is Stop,
    {
        if ok && self.may_continue() {
            self.phase = Phase::Sample;
            self.sample_action()
        } else {
            self.phase = Phase::Finished;
            Action::Stop
        }
    }

    /// The reply of a finished generation; the error of a failed or an
    /// unfinished one.
    pub fn outcome(&self) -> (r: Result<String, GenerateError>)
        ensures
            self.phase == Phase::Finished <==> r is Ok,
            r matches Ok(s) ==> s@ == self.text@,
            self.phase == Phase::Failed <==> r == Err::<String, GenerateError>(GenerateError::DecodeFailed),
            self.phase != Phase::Finished && self.phase != Phase::Failed <==> r == Err::<String, GenerateError>(
                GenerateError::Unfinished,
            ),
    {
        match self.phase {
            Phase::Finished => Ok(self.text.clone()),
            Phase::Failed => Err(GenerateError::DecodeFailed),
            _ => Err(GenerateError::Unfinished),
        }
    }
}

/// The decode cache is cleared before every prompt decode: a generation
/// starts in `ClearCache` (see `Generation::start`), the only way into
/// `DecodePrompt` is the report that the cache was cleared, and no report
/// leads back to `ClearCache`, so each generation clears the cache exactly
/// once, before its prompt is decoded.
pub proof fn lemma_prompt_decode_follows_cache_clear(p: Phase, e: Report, can_continue: bool)
    ensures
        after(p, e, can_continue) == Some(Phase::DecodePrompt) ==> p == Phase::ClearCache && e
            == Report::CacheCleared,
        after(p, e, can_continue) != Some(Phase::ClearCache),
{
}

/// A generation stays within its budgets at every step: every step keeps
/// `wf`, so the reply never holds more tokens than the reply budget, the
/// prompt and the reply together never pass the batch ceiling, and (see
/// `sampled`) each token is decoded at a position below the ceiling, one
/// streamed fragment per generated token.
pub proof fn lemma_generation_within_budgets(g: Generation)
    requires
        g.wf(),
    ensures
        0 <= g.generated() <= g.max_output_length,
        g.n_prompt + g.generated() <= g.batch_size,
        g.can_continue() ==> g.n_cur < g.batch_size,
{
}

} // verus!
