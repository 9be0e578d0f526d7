use vstd::prelude::*;

use crate::automata::{
    accepts, after_next, next_symbol, step, steps, Automata, AutomataResult, Configuration,
};
use crate::builder::AutomataBuilder;
use crate::movement::Movement;

verus! {

/// Both the input and the stack are used up while the run is still going.
pub open spec fn exhausted<VocabElement, StackData, Q>(
    c: Configuration<VocabElement, StackData, Q>,
) -> bool {
    &&& c.verdict is Processing
    &&& c.input.len() == 0
    &&& c.stack.len() == 0
}

proof fn lemma_accept_comes_from_exhaustion<
    VocabElement,
    StackData,
    Q,
    M: Movement<VocabElement, StackData, Q>,
>(m: M, c: Configuration<VocabElement, StackData, Q>, n: nat)
    requires
        c.verdict is Processing,
        steps(m, c, n).verdict is Accept,
    ensures
        exists|j: nat| j < n && exhausted(#[trigger] steps(m, c, j)),
    decreases n,
{
    let prev = steps(m, c, (n - 1) as nat);
    if prev.verdict is Processing {
        assert(exhausted(steps(m, c, (n - 1) as nat)));
    } else {
        lemma_accept_comes_from_exhaustion(m, c, (n - 1) as nat);
    }
}

/// A run accepts exactly when, at some point while it is still going, its input
/// and its stack are both used up (or when it has already accepted).
pub proof fn lemma_acceptance_requires_exhaustion<
    VocabElement,
    StackData,
    Q,
    M: Movement<VocabElement, StackData, Q>,
>(m: M, c: Configuration<VocabElement, StackData, Q>)
    ensures
        accepts(m, c) <==> (c.verdict is Accept || exists|n: nat| exhausted(#[trigger] steps(m, c, n))),
{
    if c.verdict is Accept {
        assert(steps(m, c, 0).verdict is Accept);
    } else if c.verdict is Processing {
        if accepts(m, c) {
            let n = choose|n: nat| #[trigger] steps(m, c, n).verdict is Accept;
            lemma_accept_comes_from_exhaustion(m, c, n);
        }
        if exists|n: nat| exhausted(#[trigger] steps(m, c, n)) {
            let n = choose|n: nat| exhausted(#[trigger] steps(m, c, n));
            assert(steps(m, c, n + 1).verdict is Accept);
        }
    } else {
        assert forall|n: nat| steps(m, c, n) == c by {
            crate::automata::lemma_final_is_kept(m, c, 0, n);
        }
    }
}

/// Two runs made by one builder for one input pass through the same
/// configurations and end in the same verdict.
pub proof fn lemma_build_is_deterministic<
    VocabElement,
    StackData,
    Q,
    M: Movement<VocabElement, StackData, Q>,
>(
    b: AutomataBuilder<StackData, Q, M>,
    word: Seq<VocabElement>,
    r1: Automata<VocabElement, StackData, Q, &M>,
    r2: Automata<VocabElement, StackData, Q, &M>,
)
    requires
        r1@ == b.start(word),
        *r1.relation() == b.relation(),
        r2@ == b.start(word),
        *r2.relation() == b.relation(),
    ensures
        forall|n: nat| steps(r1.relation(), r1@, n) == #[trigger] steps(r2.relation(), r2@, n),
        accepts(r1.relation(), r1@) == accepts(r2.relation(), r2@),
{
}

/// A run that starts with an empty stack on an empty input accepts at its first
/// step.
pub proof fn lemma_empty_start_accepts<
    VocabElement,
    StackData,
    Q,
    M,
    R: Movement<VocabElement, StackData, Q>,
>(b: AutomataBuilder<StackData, Q, M>, r: Automata<VocabElement, StackData, Q, R>)
    requires
        b.initial_stack().len() == 0,
        r@ == b.start(Seq::<VocabElement>::empty()),
    ensures
        step(r.relation(), r@).verdict is Accept,
{
}

/// Without an entry for the first key looked up, a step rejects at once, and
/// changes nothing but the popped top and the read symbol.
pub proof fn lemma_stuck_rejects<
    VocabElement,
    StackData,
    Q,
    M: Movement<VocabElement, StackData, Q>,
>(m: M, c: Configuration<VocabElement, StackData, Q>)
    requires
        c.verdict is Processing,
        c.stack.len() > 0,
        m.transition(c.state, next_symbol(c.input), c.stack.last()) is None,
    ensures
        step(m, c) == (Configuration {
            state: c.state,
            stack: c.stack.drop_last(),
            input: after_next(c.input),
            verdict: AutomataResult::NotAccepting,
        }),
{
}

} // verus!
