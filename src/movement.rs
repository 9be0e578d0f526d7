use std::collections::HashMap;
use vstd::prelude::*;
use vstd::std_specs::hash::obeys_key_model;

use crate::{clone_exact, clones_exactly};

verus! {

broadcast use vstd::std_specs::hash::group_hash_axioms;

/// A transition relation: a partial function from (state, optional input symbol,
/// stack top) to (next state, symbols to push). In the pushed sequence the first
/// symbol ends up as the new top.
pub trait Movement<VocabElement, StackData, Q> {
    /// The entry for the key `(state, v, s)`, if there is one.
    spec fn transition(&self, state: Q, v: Option<VocabElement>, s: StackData) -> Option<(Q, Seq<StackData>)>;

    /// Holds when the executable lookup `f` is faithful to `transition`.
    spec fn lawful(&self) -> bool;

    /// Looks up the entry for `(state, v, s)`.
    fn f(&self, state: &Q, v: &Option<VocabElement>, s: &StackData) -> (r: Option<&(Q, Vec<StackData>)>)
        requires
            self.lawful(),
        ensures
            match r {
                Some(e) => self.transition(*state, *v, *s) == Some((e.0, e.1@)),
                None => self.transition(*state, *v, *s) is None,
            },
    ;
}

/// A transition relation written out as a table.
pub type Movements<VocabElement, StackData, Q> = HashMap<(Q, Option<VocabElement>, StackData), (Q, Vec<StackData>)>;

impl<VocabElement, StackData, Q> Movement<VocabElement, StackData, Q> for Movements<VocabElement, StackData, Q> where
    (Q, Option<VocabElement>, StackData): std::hash::Hash + Eq,
    StackData: Clone,
    Q: Clone,
    VocabElement: Clone,
 {
    open spec fn transition(&self, state: Q, v: Option<VocabElement>, s: StackData) -> Option<(Q, Seq<StackData>)> {
        if self@.contains_key((state, v, s)) {
            let e = self@[(state, v, s)];
            Some((e.0, e.1@))
        } else {
            None
        }
    }

    /// The keys hash and compare as their values do, and cloning copies them exactly.
    open spec fn lawful(&self) -> bool {
        &&& obeys_key_model::<(Q, Option<VocabElement>, StackData)>()
        &&& clones_exactly::<Q>()
        &&& clones_exactly::<VocabElement>()
        &&& clones_exactly::<StackData>()
    }

    fn f(&self, state: &Q, v: &Option<VocabElement>, s: &StackData) -> (r: Option<&(Q, Vec<StackData>)>) {
        let key = (clone_exact(state), clone_exact(v), clone_exact(s));
        self.get(&key)
    }
}

impl<'r, VocabElement, StackData, Q, M: Movement<VocabElement, StackData, Q>> Movement<VocabElement, StackData, Q> for &'r M {
    open spec fn transition(&self, state: Q, v: Option<VocabElement>, s: StackData) -> Option<(Q, Seq<StackData>)> {
        (**self).transition(state, v, s)
    }

    open spec fn lawful(&self) -> bool {
        (**self).lawful()
    }

    fn f(&self, state: &Q, v: &Option<VocabElement>, s: &StackData) -> (r: Option<&(Q, Vec<StackData>)>) {
        (**self).f(state, v, s)
    }
}

} // verus!
