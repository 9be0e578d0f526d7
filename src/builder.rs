use vstd::prelude::*;

use crate::automata::{Automata, AutomataResult, Configuration};
use crate::stack::Stack;
use crate::clones_exactly;

verus! {

/// An automaton's fixed definition: initial state, initial stack and transition
/// relation. Each input gets a fresh run of its own.
#[derive(Debug, Clone)]
pub struct AutomataBuilder<StackData, Q, M> {
    state: Q,
    stack: Stack<StackData>,
    movements: M,
}

impl<StackData, Q, M> AutomataBuilder<StackData, Q, M> {
    /// The state every run starts in.
    pub closed spec fn initial_state(&self) -> Q {
        self.state
    }

    /// The stack every run starts with, top last.
    pub closed spec fn initial_stack(&self) -> Seq<StackData> {
        self.stack@
    }

    /// The transition relation every run follows.
    pub closed spec fn relation(&self) -> M {
        self.movements
    }

    /// Where a run on `word` starts.
    pub open spec fn start<VocabElement>(&self, word: Seq<VocabElement>) -> Configuration<
        VocabElement,
        StackData,
        Q,
    > {
        Configuration {
            state: self.initial_state(),
            stack: self.initial_stack(),
            input: word,
            verdict: AutomataResult::Processing,
        }
    }

    /// Holds the definition; nothing is checked.
    pub fn new(initial_state: Q, initial_stack: Vec<StackData>, movements: M) -> (r: Self)
        ensures
            r.initial_state() == initial_state,
            r.initial_stack() == initial_stack@,
            r.relation() == movements,
    {
        Self { state: initial_state, stack: Stack::new(initial_stack), movements }
    }

    /// A fresh run on `word`, with a copy of the initial state and stack of its own
    /// and this builder's relation, shared read-only.
    pub fn build<'a, VocabElement>(&'a self, word: Vec<VocabElement>) -> (r: Automata<
        VocabElement,
        StackData,
        Q,
        &'a M,
    >) where Q: Clone, StackData: Clone
        requires
            clones_exactly::<Q>(),
            clones_exactly::<StackData>(),
        ensures
            r@ == self.start(word@),
            *r.relation() == self.relation(),
    {
        Automata::new(word, crate::clone_exact(&self.state), self.stack.copied(), &self.movements)
    }
}

} // verus!
