use vstd::prelude::*;

use crate::movement::Movement;
use crate::stack::Stack;
use crate::{clone_exact, clones_exactly};

verus! {

/// The outcome of one step, and of a whole run.
#[derive(Debug, Clone, Copy, PartialEq, Eq, Hash, Structural)]
pub enum AutomataResult {
    Accept,
    Processing,
    NotAccepting,
}

/// What a runner is at one moment: its state, its stack (top last), the input it
/// has not read yet (next symbol first) and its verdict so far.
pub struct Configuration<VocabElement, StackData, Q> {
    pub state: Q,
    pub stack: Seq<StackData>,
    pub input: Seq<VocabElement>,
    pub verdict: AutomataResult,
}

/// The next input symbol, if any.
pub open spec fn next_symbol<VocabElement>(input: Seq<VocabElement>) -> Option<VocabElement> {
    if input.len() > 0 {
        Some(input[0])
    } else {
        None
    }
}

/// The input left once the next symbol, if any, has been read.
pub open spec fn after_next<VocabElement>(input: Seq<VocabElement>) -> Seq<VocabElement> {
    if input.len() > 0 {
        input.drop_first()
    } else {
        input
    }
}

/// One step of the automaton under the relation `m`. A runner whose verdict is
/// final stays as it is. Otherwise the next input symbol is read and the top of the
/// stack popped; both missing means acceptance, a symbol without a stack top means
/// rejection, and a stack top is looked up with the symbol (or its absence): an
/// entry moves to its state and pushes its symbols, the first one ending on top;
/// no entry means rejection.
pub open spec fn step<VocabElement, StackData, Q, M: Movement<VocabElement, StackData, Q>>(
    m: M,
    c: Configuration<VocabElement, StackData, Q>,
) -> Configuration<VocabElement, StackData, Q> {
    if !(c.verdict is Processing) {
        c
    } else {
        let v = next_symbol(c.input);
        let input = after_next(c.input);
        if c.stack.len() == 0 {
            Configuration {
                state: c.state,
                stack: c.stack,
                input,
                verdict: if v is None {
                    AutomataResult::Accept
                } else {
                    AutomataResult::NotAccepting
                },
            }
        } else {
            let below = c.stack.drop_last();
            match m.transition(c.state, v, c.stack.last()) {
                Some(e) => Configuration {
                    state: e.0,
                    stack: below + e.1.reverse(),
                    input,
                    verdict: AutomataResult::Processing,
                },
                None => Configuration {
                    state: c.state,
                    stack: below,
                    input,
                    verdict: AutomataResult::NotAccepting,
                },
            }
        }
    }
}

/// The configuration after `n` steps from `c`.
pub open spec fn steps<VocabElement, StackData, Q, M: Movement<VocabElement, StackData, Q>>(
    m: M,
    c: Configuration<VocabElement, StackData, Q>,
    n: nat,
) -> Configuration<VocabElement, StackData, Q>
    decreases n,
{
    if n == 0 {
        c
    } else {
        step(m, steps(m, c, (n - 1) as nat))
    }
}

/// The run from `c` reaches a final verdict.
pub open spec fn halts<VocabElement, StackData, Q, M: Movement<VocabElement, StackData, Q>>(
    m: M,
    c: Configuration<VocabElement, StackData, Q>,
) -> bool {
    exists|n: nat| !(#[trigger] steps(m, c, n).verdict is Processing)
}

/// The run from `c` ends in acceptance.
pub open spec fn accepts<VocabElement, StackData, Q, M: Movement<VocabElement, StackData, Q>>(
    m: M,
    c: Configuration<VocabElement, StackData, Q>,
) -> bool {
    exists|n: nat| #[trigger] steps(m, c, n).verdict is Accept
}

/// Once a final verdict is reached, further steps change nothing.
pub proof fn lemma_final_is_kept<VocabElement, StackData, Q, M: Movement<VocabElement, StackData, Q>>(
    m: M,
    c: Configuration<VocabElement, StackData, Q>,
    i: nat,
    j: nat,
)
    requires
        i <= j,
        !(steps(m, c, i).verdict is Processing),
    ensures
        steps(m, c, j) == steps(m, c, i),
    decreases j - i,
{
    if i < j {
        lemma_final_is_kept(m, c, i, (j - 1) as nat);
    }
}

/// A run of the automaton on one input.
#[derive(Debug, Clone)]
pub struct Automata<VocabElement, StackData, Q, M> {
    state: Q,
    stack: Stack<StackData>,
    /// The input not read yet, in reverse: the next symbol is the last element.
    word: Vec<VocabElement>,
    movements: M,
    verdict: AutomataResult,
}

impl<VocabElement, StackData, Q, M> View for Automata<VocabElement, StackData, Q, M> {
    type V = Configuration<VocabElement, StackData, Q>;

    closed spec fn view(&self) -> Configuration<VocabElement, StackData, Q> {
        Configuration {
            state: self.state,
            stack: self.stack@,
            input: self.word@.reverse(),
            verdict: self.verdict,
        }
    }
}

impl<VocabElement, StackData, Q, M> Automata<VocabElement, StackData, Q, M> {
    /// The transition relation this run follows.
    pub closed spec fn relation(&self) -> M {
        self.movements
    }

    /// Makes a run on `word` that starts in `initial_state` with `initial_stack`.
    pub fn new(word: Vec<VocabElement>, initial_state: Q, initial_stack: Stack<StackData>, movements: M) -> (r: Self)
        ensures
            r@ == (Configuration {
                state: initial_state,
                stack: initial_stack@,
                input: word@,
                verdict: AutomataResult::Processing,
            }),
            r.relation() == movements,
    {
        let ghost original = word@;
        let mut word = word;
        let mut reversed: Vec<VocabElement> = Vec::new();
        while word.len() > 0
            invariant
                original == word@ + reversed@.reverse(),
            decreases word.len(),
        {
            let x = word.pop().unwrap();
            proof {
                assert(reversed@.push(x).reverse() =~= seq![x] + reversed@.reverse());
            }
            reversed.push(x);
            assert(original =~= word@ + reversed@.reverse());
        }
        assert(original =~= reversed@.reverse());
        Self {
            state: initial_state,
            stack: initial_stack,
            word: reversed,
            movements,
            verdict: AutomataResult::Processing,
        }
    }
}

impl<VocabElement, StackData: Clone, Q: Clone, M: Movement<VocabElement, StackData, Q>> Automata<
    VocabElement,
    StackData,
    Q,
    M,
> {
    /// Takes one step (see `step`) and gives the verdict after it. Once the verdict
    /// is final, further calls change nothing and give it again.
    pub fn run(&mut self) -> (r: AutomataResult)
        requires
            old(self).relation().lawful(),
            clones_exactly::<Q>(),
            clones_exactly::<StackData>(),
        ensures
            final(self)@ == step(old(self).relation(), old(self)@),
            final(self).relation() == old(self).relation(),
            r == final(self)@.verdict,
    {
        if !matches!(self.verdict, AutomataResult::Processing) {
            return self.verdict;
        }
        let ghost input = self.word@.reverse();
        let v = self.word.pop();
        proof {
            if input.len() > 0 {
                assert(self.word@.reverse() =~= input.drop_first());
            }
        }
        let s = self.stack.pop();
        let r = match s {
            None => {
                if v.is_none() {
                    AutomataResult::Accept
                } else {
                    AutomataResult::NotAccepting
                }
            },
            Some(top) => {
                match self.movements.f(&self.state, &v, &top) {
                    Some(e) => {
                        self.state = clone_exact(&e.0);
                        self.stack.push_reversed(&e.1);
                        AutomataResult::Processing
                    },
                    None => AutomataResult::NotAccepting,
                }
            },
        };
        self.verdict = r;
        r
    }

    /// Steps until the verdict is final; true when it is acceptance.
    pub fn complete(self) -> (r: bool)
        requires
            self.relation().lawful(),
            clones_exactly::<Q>(),
            clones_exactly::<StackData>(),
            halts(self.relation(), self@),
        ensures
            r == accepts(self.relation(), self@),
    {
        let ghost m = self.relation();
        let ghost c = self@;
        let ghost n = choose|n: nat| !(#[trigger] steps(m, c, n).verdict is Processing);
        let ghost mut k: nat = 0;
        let mut runner = self;
        let mut r = AutomataResult::Processing;
        while matches!(r, AutomataResult::Processing)
            invariant
                runner.relation() == m,
                m.lawful(),
                clones_exactly::<Q>(),
                clones_exactly::<StackData>(),
                runner@ == steps(m, c, k),
                !(steps(m, c, n).verdict is Processing),
                k > 0 ==> r == runner@.verdict,
                r is Processing ==> k <= n,
                !(r is Processing) ==> k > 0,
            decreases n + 1 - k,
        {
            r = runner.run();
            proof {
                k = k + 1;
                if r is Processing && k > n {
                    lemma_final_is_kept(m, c, n, k);
                }
            }
        }
        proof {
            if r is NotAccepting {
                assert forall|j: nat| !(#[trigger] steps(m, c, j).verdict is Accept) by {
                    if j <= k {
                        if !(steps(m, c, j).verdict is Processing) {
                            lemma_final_is_kept(m, c, j, k);
                        }
                    } else {
                        lemma_final_is_kept(m, c, k, j);
                    }
                }
            }
        }
        matches!(r, AutomataResult::Accept)
    }
}

} // verus!
