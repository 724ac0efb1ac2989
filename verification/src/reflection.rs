//! The reflection heuristic: a per-run counter of consecutive empty
//! results from the natural-language stock screener, with a one-shot
//! corrective nudge once the counter reaches the threshold.

use vstd::prelude::*;

use crate::text::{contains_sub, spec_contains, str_eq};

verus! {

/// The tool the heuristic watches.
pub open spec fn spec_watched_tool() -> Seq<char> {
    "search_stocks_by_condition"@
}

/// A screener result counts as empty when it carries a zero-count marker
/// or an explicit not-found marker.
pub open spec fn spec_is_empty_result(r: Seq<char>) -> bool {
    ||| spec_contains(r, "\"total\":0"@)
    ||| spec_contains(r, "\"total\": 0"@)
    ||| spec_contains(r, "未找到"@)
}

/// Whether a screener result counts as empty.
pub fn is_empty_result(r: &str) -> (b: bool)
    ensures
        b == spec_is_empty_result(r@),
{
    contains_sub(r, "\"total\":0") || contains_sub(r, "\"total\": 0") || contains_sub(r, "未找到")
}

/// The per-run state of the heuristic: how many consecutive empty results
/// the watched tool has produced, and whether the nudge was already
/// injected in this run.
pub struct ReflectionState {
    pub empty_count: u32,
    pub injected: bool,
}

/// The empty-result threshold that triggers the nudge.
pub open spec fn spec_threshold() -> u32 {
    2
}

/// One observation: the next state and whether to inject the nudge now.
pub open spec fn spec_observe(
    s: ReflectionState,
    tool_name: Seq<char>,
    result: Seq<char>,
) -> (ReflectionState, bool) {
    if tool_name != spec_watched_tool() {
        (s, false)
    } else {
        let count = if spec_is_empty_result(result) {
            if s.empty_count < u32::MAX {
                (s.empty_count + 1) as u32
            } else {
                u32::MAX
            }
        } else {
            0
        };
        let inject = spec_is_empty_result(result) && count >= spec_threshold() && !s.injected;
        (ReflectionState { empty_count: count, injected: s.injected || inject }, inject)
    }
}

impl ReflectionState {
    /// The state at the start of a run: no empty results seen, nothing
    /// injected.
    pub fn new() -> (r: ReflectionState)
        ensures
            r.empty_count == 0,
            !r.injected,
    {
        ReflectionState { empty_count: 0, injected: false }
    }

    /// Feeds one dispatch result through the heuristic; returns whether
    /// the corrective nudge is to be injected right now.  Once the nudge
    /// has been injected, no later observation injects again.
    pub fn observe(&mut self, tool_name: &str, result: &str) -> (inject: bool)
        ensures
            (*final(self), inject) == spec_observe(*old(self), tool_name@, result@),
            old(self).injected ==> !inject,
            inject ==> final(self).injected,
            final(self).injected == (old(self).injected || inject),
    {
        if !str_eq(tool_name, "search_stocks_by_condition") {
            return false;
        }
        if is_empty_result(result) {
            self.empty_count = self.empty_count.saturating_add(1);
            if self.empty_count >= 2 && !self.injected {
                self.injected = true;
                return true;
            }
            false
        } else {
            self.empty_count = 0;
            false
        }
    }
}

/// How many of a sequence of observations inject the nudge, starting from
/// state `s`.
pub open spec fn spec_injection_count(s: ReflectionState, inputs: Seq<(Seq<char>, Seq<char>)>) -> int
    decreases inputs.len(),
{
    if inputs.len() == 0 {
        0
    } else {
        let step = spec_observe(s, inputs[0].0, inputs[0].1);
        (if step.1 {
            1int
        } else {
            0int
        }) + spec_injection_count(step.0, inputs.drop_first())
    }
}

/// Once the nudge has been injected, no sequence of further observations
/// injects it again.
pub proof fn lemma_no_injection_after_injected(
    s: ReflectionState,
    inputs: Seq<(Seq<char>, Seq<char>)>,
)
    requires
        s.injected,
    ensures
        spec_injection_count(s, inputs) == 0,
    decreases inputs.len(),
{
    if inputs.len() > 0 {
        let step = spec_observe(s, inputs[0].0, inputs[0].1);
        lemma_no_injection_after_injected(step.0, inputs.drop_first());
    }
}

/// In one run, however many observations the heuristic sees, the nudge is
/// injected at most once.
pub proof fn lemma_inject_at_most_once(s: ReflectionState, inputs: Seq<(Seq<char>, Seq<char>)>)
    requires
        !s.injected,
    ensures
        spec_injection_count(s, inputs) <= 1,
    decreases inputs.len(),
{
    if inputs.len() > 0 {
        let step = spec_observe(s, inputs[0].0, inputs[0].1);
        if step.1 || step.0.injected {
            lemma_no_injection_after_injected(step.0, inputs.drop_first());
        } else {
            lemma_inject_at_most_once(step.0, inputs.drop_first());
        }
    }
}

} // verus!
