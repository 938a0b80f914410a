use vstd::prelude::*;

verus! {

/// How a timed confirmation ended. Every variant carries a usable boolean,
/// so callers never need to distinguish the outcomes, only log them.
#[derive(Clone, Copy, Debug, PartialEq, Eq, Structural)]
pub enum PromptOutcome {
    /// The interaction answered before the deadline; the answer is carried.
    Answered(bool),
    /// The deadline elapsed first; the default is carried.
    TimedOut(bool),
    /// The interaction layer itself failed (non-interactive terminal);
    /// the default is carried.
    InteractionFailed(bool),
}

impl PromptOutcome {
    /// The boolean a caller acts on, whatever the tag.
    pub open spec fn spec_value(self) -> bool {
        match self {
            PromptOutcome::Answered(b) => b,
            PromptOutcome::TimedOut(d) => d,
            PromptOutcome::InteractionFailed(d) => d,
        }
    }

    /// Executable access to the carried boolean.
    pub fn value(&self) -> (b: bool)
        ensures
            b == self.spec_value(),
    {
        match self {
            PromptOutcome::Answered(b) => *b,
            PromptOutcome::TimedOut(d) => *d,
            PromptOutcome::InteractionFailed(d) => *d,
        }
    }
}

/// What the single-use result slot of one timed confirmation held when the
/// race was decided: which prompt the writer belonged to, and its answer
/// (`None` when the interaction layer failed before producing one).
#[derive(Clone, Copy, Debug, PartialEq, Eq)]
pub struct Delivery {
    pub prompt_id: u64,
    pub answer: Option<bool>,
}

/// Hands out a fresh identity for each confirmation prompt, so that a slot
/// written by an abandoned prompt can never be mistaken for the current one.
#[derive(Clone, Copy, Debug, PartialEq, Eq, Structural)]
pub struct PromptSequencer {
    pub next_id: u64,
}

impl PromptSequencer {
    pub fn new() -> (s: PromptSequencer)
        ensures
            s.next_id == 0,
    {
        PromptSequencer { next_id: 0 }
    }

    /// Begin a new prompt: the identity handed out is never handed out again.
    pub fn begin(&mut self) -> (id: u64)
        requires
            old(self).next_id < u64::MAX,
        ensures
            id == old(self).next_id,
            final(self).next_id == id + 1,
    {
        let id = self.next_id;
        self.next_id = self.next_id + 1;
        id
    }
}

/// The outcome a timed confirmation settles on, given what the race saw:
/// `None` when the timer won, or the delivery found in the result slot.
/// A delivery bearing another prompt's identity is stale and counts as no
/// answer at all.
pub open spec fn confirm_outcome(prompt_id: u64, delivery: Option<Delivery>, default: bool) -> PromptOutcome {
    match delivery {
        Some(d) => if d.prompt_id == prompt_id {
            match d.answer {
                Some(b) => PromptOutcome::Answered(b),
                None => PromptOutcome::InteractionFailed(default),
            }
        } else {
            PromptOutcome::TimedOut(default)
        },
        None => PromptOutcome::TimedOut(default),
    }
}

/// Settle a timed confirmation. The caller runs the race (the blocking
/// interaction on its own unit of work against a timer) and hands in what the
/// race produced; this decides the outcome:
/// an answer delivered for this very prompt wins, a failed interaction layer
/// resolves to the default, and no delivery — or a stale delivery from an
/// abandoned earlier prompt — times out to the default.
pub fn resolve_confirm(prompt_id: u64, delivery: Option<Delivery>, default: bool) -> (o: PromptOutcome)
    ensures
        o == confirm_outcome(prompt_id, delivery, default),
{
    match delivery {
        Some(d) => {
            if d.prompt_id == prompt_id {
                match d.answer {
                    Some(b) => PromptOutcome::Answered(b),
                    None => PromptOutcome::InteractionFailed(default),
                }
            } else {
                PromptOutcome::TimedOut(default)
            }
        },
        None => PromptOutcome::TimedOut(default),
    }
}

/// Law: when the interaction never answers, the confirmation resolves to
/// exactly the default, whatever the prompt and whatever the default.
pub proof fn lemma_timeout_returns_default(prompt_id: u64, default: bool)
    ensures
        confirm_outcome(prompt_id, None, default) == PromptOutcome::TimedOut(default),
        confirm_outcome(prompt_id, None, default).spec_value() == default,
{
}

/// Law: an answer delivered for this prompt before the deadline is returned
/// as given, never replaced by the default.
pub proof fn lemma_answer_overrides_default(prompt_id: u64, answer: bool, default: bool)
    ensures
        confirm_outcome(prompt_id, Some(Delivery { prompt_id, answer: Some(answer) }), default)
            == PromptOutcome::Answered(answer),
        confirm_outcome(prompt_id, Some(Delivery { prompt_id, answer: Some(answer) }), default).spec_value()
            == answer,
{
}

/// Law: a delivery written under any other prompt's identity never supplies
/// this prompt's result; the confirmation behaves as if nothing arrived.
pub proof fn lemma_no_cross_talk(current_id: u64, stale: Delivery, default: bool)
    requires
        stale.prompt_id != current_id,
    ensures
        confirm_outcome(current_id, Some(stale), default) == PromptOutcome::TimedOut(default),
        confirm_outcome(current_id, Some(stale), default).spec_value() == default,
{
}

/// Law: two confirmations begun in sequence on one sequencer have distinct
/// identities, so the first call's abandoned interaction can never supply the
/// second call's result, even if its delivery arrives during the second race.
/// The hypotheses are exactly what two calls of `begin` ensure.
pub proof fn lemma_consecutive_prompts_isolated(
    s0: PromptSequencer,
    s1: PromptSequencer,
    s2: PromptSequencer,
    first_id: u64,
    second_id: u64,
    stale_answer: Option<bool>,
    default: bool,
)
    requires
        first_id == s0.next_id,
        s1.next_id == first_id + 1,
        second_id == s1.next_id,
        s2.next_id == second_id + 1,
    ensures
        first_id != second_id,
        confirm_outcome(second_id, Some(Delivery { prompt_id: first_id, answer: stale_answer }), default)
            == PromptOutcome::TimedOut(default),
        confirm_outcome(second_id, Some(Delivery { prompt_id: first_id, answer: stale_answer }), default).spec_value()
            == default,
{
    lemma_no_cross_talk(second_id, Delivery { prompt_id: first_id, answer: stale_answer }, default);
}

} // verus!
