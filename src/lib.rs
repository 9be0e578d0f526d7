use vstd::pervasive::strictly_cloned;
use vstd::prelude::*;

pub mod automata;
pub mod builder;
pub mod laws;
pub mod movement;
pub mod stack;

pub use automata::{Automata, AutomataResult};
pub use builder::AutomataBuilder;
pub use movement::{Movement, Movements};
pub use stack::Stack;

verus! {

/// Holds when cloning a value of `T` always gives back that same value.
pub open spec fn clones_exactly<T: Clone>() -> bool {
    forall|a: T, b: T| #[trigger] strictly_cloned(a, b) ==> a == b
}

/// A clone of `x`, which is `x` itself where `T` clones exactly.
pub(crate) fn clone_exact<T: Clone>(x: &T) -> (r: T)
    requires
        clones_exactly::<T>(),
    ensures
        r == *x,
{
    let r = Some(x).cloned();
    r.unwrap()
}

} // verus!
