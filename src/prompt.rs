//! Prompt assembly: renders a conversation with a model's chat template into
//! one prompt that fits a length budget, evicting the oldest turns first.
use vstd::prelude::*;

use crate::catalog::{Model, ModelView};
use crate::conversation::{Conversation, Message, MessageView};
use crate::text::{byte_len, same_text, text_len};

verus! {

/// A token of the model's vocabulary.
pub type Token = i32;

/// A turn with role tag `tag` and text `content`, rendered with template `t`.
pub open spec fn turn_text(t: ModelView, tag: Seq<char>, content: Seq<char>) -> Seq<char> {
    t.prefix + tag + t.suffix + content + t.eot
}

/// The tag that template `t` gives the role `role`: a user's own, and the
/// assistant's for every other role.
pub open spec fn role_tag(t: ModelView, role: Seq<char>) -> Seq<char> {
    if role == "user"@ {
        t.us
    } else {
        t.ast
    }
}

/// The rendering of one conversation turn.
pub open spec fn message_text(t: ModelView, m: MessageView) -> Seq<char> {
    turn_text(t, role_tag(t, m.role), m.content)
}

/// The rendering of the system turn that holds `system_prompt`.
pub open spec fn system_text(t: ModelView, system_prompt: Seq<char>) -> Seq<char> {
    turn_text(t, t.sys, system_prompt)
}

/// The header that opens the assistant's reply.
pub open spec fn opening(t: ModelView) -> Seq<char> {
    t.prefix + t.ast + t.suffix
}

/// The turns of `s` rendered one after another.
pub open spec fn rendered(t: ModelView, s: Seq<MessageView>) -> Seq<char>
    decreases s.len(),
{
    if s.len() == 0 {
        seq![]
    } else {
        rendered(t, s.drop_last()) + message_text(t, s.last())
    }
}

/// How many of the newest turns of `body` are kept when `used` of the budget
/// `max` is already spent: walking from the newest turn back, a turn is kept
/// while the length spent so far plus its own stays strictly under `max`.
pub open spec fn retained(t: ModelView, body: Seq<MessageView>, used: int, max: int) -> nat
    decreases body.len(),
{
    if body.len() == 0 {
        0
    } else {
        let len = text_len(message_text(t, body.last()));
        if used + len < max {
            1 + retained(t, body.drop_last(), used + len, max)
        } else {
            0
        }
    }
}

/// The part of the budget that the system turn and the reply's opening take.
pub open spec fn fixed_len(t: ModelView, system_prompt: Seq<char>) -> int {
    (text_len(system_text(t, system_prompt)) + text_len(opening(t))) as int
}

/// How many of the newest turns of `body` the prompt keeps.
pub open spec fn kept(t: ModelView, system_prompt: Seq<char>, body: Seq<MessageView>, max: int) -> nat {
    retained(t, body, fixed_len(t, system_prompt), max)
}

/// The turns of `body` that the prompt keeps: its newest `kept` turns.
pub open spec fn kept_turns(
    t: ModelView,
    system_prompt: Seq<char>,
    body: Seq<MessageView>,
    max: int,
) -> Seq<MessageView> {
    body.subrange(body.len() - kept(t, system_prompt, body, max), body.len() as int)
}

/// Whether the prompt keeps turn `i` of `body`.
pub open spec fn keeps(t: ModelView, system_prompt: Seq<char>, body: Seq<MessageView>, max: int, i: int) -> bool {
    body.len() - kept(t, system_prompt, body, max) <= i < body.len()
}

/// The prompt text: the system turn, the kept turns in chronological order,
/// then the opening of the reply.
pub open spec fn prompt_text(
    t: ModelView,
    system_prompt: Seq<char>,
    body: Seq<MessageView>,
    max: int,
) -> Seq<char> {
    system_text(t, system_prompt) + rendered(t, kept_turns(t, system_prompt, body, max)) + opening(t)
}

/// The token sequence `tokens` cut to at most `max` tokens from its end.
pub open spec fn fitted(tokens: Seq<Token>, max: int) -> Seq<Token> {
    if tokens.len() <= max {
        tokens
    } else {
        tokens.subrange(0, max)
    }
}

/// At most as many turns are kept as there are.
pub proof fn lemma_retained_bounded(t: ModelView, body: Seq<MessageView>, used: int, max: int)
    ensures
        retained(t, body, used, max) <= body.len(),
    decreases body.len(),
{
    if body.len() > 0 {
        lemma_retained_bounded(t, body.drop_last(), used + text_len(message_text(t, body.last())), max);
    }
}

/// Sum of the rendered lengths of the turns of `s`.
pub open spec fn lens_sum(t: ModelView, s: Seq<MessageView>) -> int
    decreases s.len(),
{
    if s.len() == 0 {
        0
    } else {
        lens_sum(t, s.drop_last()) + text_len(message_text(t, s.last()))
    }
}

/// The newest `k` turns of `body`, for `k = retained(..)`, fit beside `used`
/// strictly under `max`, and one turn more would not.
proof fn lemma_retained_window(t: ModelView, body: Seq<MessageView>, used: int, max: int)
    ensures
        ({
            let k = retained(t, body, used, max) as int;
            let n = body.len() as int;
            &&& k <= n
            &&& k > 0 ==> used + lens_sum(t, body.subrange(n - k, n)) < max
            &&& k < n ==> used + lens_sum(t, body.subrange(n - k - 1, n)) >= max
        }),
    decreases body.len(),
{
    let n = body.len() as int;
    if n > 0 {
        let len = text_len(message_text(t, body.last())) as int;
        let rest = body.drop_last();
        lemma_retained_window(t, rest, used + len, max);
        let k = retained(t, body, used, max) as int;
        if used + len < max {
            let kr = k - 1;
            let win = body.subrange(n - k, n);
            assert(win.drop_last() =~= rest.subrange(n - 1 - kr, n - 1));
            assert(win.last() == body.last());
            assert(lens_sum(t, win) == lens_sum(t, rest.subrange(n - 1 - kr, n - 1)) + len);
            if kr == 0 {
                assert(rest.subrange(n - 1, n - 1) =~= Seq::<MessageView>::empty());
                assert(lens_sum(t, rest.subrange(n - 1, n - 1)) == 0);
            }
            if k < n {
                let wider = body.subrange(n - k - 1, n);
                assert(wider.drop_last() =~= rest.subrange(n - 1 - kr - 1, n - 1));
                assert(wider.last() == body.last());
                assert(lens_sum(t, wider) == lens_sum(t, rest.subrange(n - 1 - kr - 1, n - 1)) + len);
            }
        } else {
            let one = body.subrange(n - 1, n);
            assert(one.drop_last() =~= Seq::<MessageView>::empty());
            assert(one.last() == body.last());
            assert(lens_sum(t, one) == lens_sum(t, one.drop_last()) + len);
        }
    }
}

/// Eviction keeps the newest turns. Whatever the conversation and however far
/// its rendering overflows the budget, the prompt is the system turn, then a
/// run of the newest turns in chronological order, then the reply's opening:
/// a turn is dropped only if every older turn is dropped too. The kept turns
/// fit beside the system turn and the opening strictly under the budget, and
/// keeping the next older turn as well would not fit.
pub proof fn lemma_eviction_keeps_newest(
    t: ModelView,
    system_prompt: Seq<char>,
    body: Seq<MessageView>,
    max: int,
)
    ensures
        ({
            let k = kept(t, system_prompt, body, max) as int;
            let n = body.len() as int;
            &&& k <= n
            &&& prompt_text(t, system_prompt, body, max) == system_text(t, system_prompt) + rendered(
                t,
                body.subrange(n - k, n),
            ) + opening(t)
            &&& forall|i: int, j: int|
                #![trigger keeps(t, system_prompt, body, max, i), keeps(t, system_prompt, body, max, j)]
                i < j < n && keeps(t, system_prompt, body, max, i) ==> keeps(t, system_prompt, body, max, j)
            &&& k > 0 ==> fixed_len(t, system_prompt) + lens_sum(t, body.subrange(n - k, n)) < max
            &&& k < n ==> fixed_len(t, system_prompt) + lens_sum(t, body.subrange(n - k - 1, n))
                >= max
        }),
{
    lemma_retained_window(t, body, fixed_len(t, system_prompt), max);
}

/// A long conversation keeps a nonempty run of its newest turns: when the
/// newest turn fits beside the system turn and the opening strictly under
/// the budget, at least that turn is kept, and the prompt is the system
/// turn, the newest `k` turns in chronological order, and the opening. The
/// `n - k` oldest turns are the ones dropped.
pub proof fn lemma_newest_turn_kept_when_it_fits(
    t: ModelView,
    system_prompt: Seq<char>,
    body: Seq<MessageView>,
    max: int,
)
    requires
        body.len() > 0,
        fixed_len(t, system_prompt) + text_len(message_text(t, body.last())) < max,
    ensures
        ({
            let k = kept(t, system_prompt, body, max) as int;
            let n = body.len() as int;
            &&& 1 <= k <= n
            &&& prompt_text(t, system_prompt, body, max) == system_text(t, system_prompt) + rendered(
                t,
                body.subrange(n - k, n),
            ) + opening(t)
            &&& prompt_text(t, system_prompt, body, max) == system_text(t, system_prompt) + rendered(
                t,
                body.subrange(n - k, n - 1),
            ) + message_text(t, body.last()) + opening(t)
        }),
{
    lemma_retained_window(t, body, fixed_len(t, system_prompt), max);
    let k = kept(t, system_prompt, body, max) as int;
    let n = body.len() as int;
    let win = body.subrange(n - k, n);
    assert(win.drop_last() =~= body.subrange(n - k, n - 1));
    assert(win.last() == body.last());
    assert(rendered(t, win) == rendered(t, body.subrange(n - k, n - 1)) + message_text(t, body.last()));
    assert(system_text(t, system_prompt) + rendered(t, win) + opening(t) =~= system_text(t, system_prompt)
        + rendered(t, body.subrange(n - k, n - 1)) + message_text(t, body.last()) + opening(t));
}

/// A sum of rendered lengths is never negative.
proof fn lemma_lens_sum_nonneg(t: ModelView, s: Seq<MessageView>)
    ensures
        lens_sum(t, s) >= 0,
    decreases s.len(),
{
    if s.len() > 0 {
        lemma_lens_sum_nonneg(t, s.drop_last());
    }
}

/// Every turn is kept when all of them fit beside `used` strictly under `max`.
proof fn lemma_retained_all(t: ModelView, body: Seq<MessageView>, used: int, max: int)
    requires
        used + lens_sum(t, body) < max,
    ensures
        retained(t, body, used, max) == body.len(),
    decreases body.len(),
{
    if body.len() > 0 {
        let len = text_len(message_text(t, body.last())) as int;
        lemma_lens_sum_nonneg(t, body.drop_last());
        lemma_retained_all(t, body.drop_last(), used + len, max);
    }
}

/// A conversation whose whole rendering fits keeps every turn: when the
/// system turn, the opening and all turns together stay strictly under the
/// budget, the prompt is the system turn, every turn in chronological
/// order, and the opening; nothing is evicted.
pub proof fn lemma_nothing_evicted_when_all_fit(
    t: ModelView,
    system_prompt: Seq<char>,
    body: Seq<MessageView>,
    max: int,
)
    requires
        fixed_len(t, system_prompt) + lens_sum(t, body) < max,
    ensures
        kept(t, system_prompt, body, max) == body.len(),
        prompt_text(t, system_prompt, body, max) == system_text(t, system_prompt) + rendered(t, body)
            + opening(t),
{
    lemma_retained_all(t, body, fixed_len(t, system_prompt), max);
    assert(body.subrange(0, body.len() as int) =~= body);
}

/// Assembly is deterministic: two conversations with the same turns (whatever
/// their identifiers and titles), rendered with the same template, system
/// prompt and budget, give the same prompt.
pub proof fn lemma_assembly_deterministic(
    t: ModelView,
    system_prompt: Seq<char>,
    a: Conversation,
    b: Conversation,
    max: u64,
)
    requires
        a.turns() == b.turns(),
    ensures
        prompt_text(t, system_prompt, a.turns(), max as int) == prompt_text(
            t,
            system_prompt,
            b.turns(),
            max as int,
        ),
{
}

/// The concatenation of `a`, `b` and `c`.
fn concat3(a: &str, b: &str, c: &str) -> (r: String)
    ensures
        r@ == a@ + b@ + c@,
{
    let mut r = a.to_owned();
    r.append(b);
    r.append(c);
    r
}

/// A turn with role tag `tag` and text `content`.
fn render_turn(t: &Model, tag: &str, content: &str) -> (r: String)
    ensures
        r@ == turn_text(t@, tag@, content@),
{
    let mut r = concat3(t.prefix.as_str(), tag, t.suffix.as_str());
    r.append(content);
    r.append(t.eot.as_str());
    r
}

/// One turn of a conversation, with the tag its role has in `t`.
fn render_message(t: &Model, m: &Message) -> (r: String)
    ensures
        r@ == message_text(t@, m@),
{
    if same_text(m.role.as_str(), "user") {
        render_turn(t, t.us.as_str(), m.content.as_str())
    } else {
        render_turn(t, t.ast.as_str(), m.content.as_str())
    }
}

/// The number of the newest turns of `body` that fit beside `fixed`.
fn count_kept(t: &Model, body: &Vec<Message>, fixed: u128, max: u64) -> (k: usize)
    requires
        fixed <= 2 * (u64::MAX as int),
    ensures
        k == retained(t@, body@.map_values(|m: Message| m@), fixed as int, max as int),
{
    let ghost turns = body@.map_values(|m: Message| m@);
    let n = body.len();
    let mut k: usize = 0;
    let mut used: u128 = fixed;
    assert(turns.subrange(0, n as int) =~= turns);
    while k < n
        invariant
            n == body@.len(),
            turns == body@.map_values(|m: Message| m@),
            k <= n,
            used <= 2 * (u64::MAX as int),
            retained(t@, turns, fixed as int, max as int) == k + retained(
                t@,
                turns.subrange(0, n - k),
                used as int,
                max as int,
            ),
        decreases n - k,
    {
        let seg = render_message(t, &body[n - 1 - k]);
        let len = byte_len(seg.as_str()) as u128;
        let ghost rest = turns.subrange(0, n - k);
        assert(rest.last() == turns[n - 1 - k]);
        assert(rest.drop_last() =~= turns.subrange(0, n - k - 1));
        if used + len < max as u128 {
            used = used + len;
            k = k + 1;
        } else {
            return k;
        }
    }
    assert(turns.subrange(0, 0) =~= Seq::<MessageView>::empty());
    k
}

/// The prompt for `conv` under template `t`: the system turn holding
/// `system_prompt`, as many of the newest turns as fit the budget
/// `max_context_length`, in chronological order, and the opening of the reply.
pub fn render_prompt(conv: &Conversation, t: &Model, system_prompt: &str, max_context_length: u64) -> (r: String)
    ensures
        r@ == prompt_text(t@, system_prompt@, conv.turns(), max_context_length as int),
{
    let ghost turns = conv.turns();
    let system = render_turn(t, t.sys.as_str(), system_prompt);
    let open = concat3(t.prefix.as_str(), t.ast.as_str(), t.suffix.as_str());
    let fixed = byte_len(system.as_str()) as u128 + byte_len(open.as_str()) as u128;
    let k = count_kept(t, &conv.body, fixed, max_context_length);
    proof {
        lemma_retained_bounded(t@, turns, fixed as int, max_context_length as int);
    }
    let n = conv.body.len();
    let mut out = system;
    let mut j: usize = n - k;
    while j < n
        invariant
            n == conv.body@.len(),
            turns == conv.turns(),
            k <= n,
            n - k <= j <= n,
            out@ == system_text(t@, system_prompt@) + rendered(t@, turns.subrange(n - k, j as int)),
        decreases n - j,
    {
        let seg = render_message(t, &conv.body[j]);
        proof {
            let s = turns.subrange(n - k, j as int + 1);
            assert(s.drop_last() =~= turns.subrange(n - k, j as int));
            assert(s.last() == turns[j as int]);
        }
        out.append(seg.as_str());
        assert(out@ =~= system_text(t@, system_prompt@) + rendered(t@, turns.subrange(n - k, j as int + 1)));
        j = j + 1;
    }
    out.append(open.as_str());
    assert(out@ =~= prompt_text(t@, system_prompt@, turns, max_context_length as int));
    out
}

/// `tokens` cut from the end to at most `max_context_length` tokens: a prompt
/// whose system turn alone overflows the budget is shortened, not refused.
pub fn fit_tokens(tokens: Vec<Token>, max_context_length: u64) -> (r: Vec<Token>)
    ensures
        r@ == fitted(tokens@, max_context_length as int),
        r@.len() <= max_context_length,
{
    let mut r = tokens;
    if (r.len() as u64) > max_context_length {
        r.truncate(max_context_length as usize);
    }
    r
}

} // verus!
