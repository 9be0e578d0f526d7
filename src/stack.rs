use vstd::prelude::*;

use crate::{clone_exact, clones_exactly};

verus! {

/// The pushdown memory: a sequence of symbols whose last element is the top.
#[derive(Debug, Default, Clone, PartialEq, Eq, Hash)]
pub struct Stack<StackData>(Vec<StackData>);

impl<StackData> View for Stack<StackData> {
    type V = Seq<StackData>;

    closed spec fn view(&self) -> Seq<StackData> {
        self.0@
    }
}

impl<StackData> Stack<StackData> {
    /// Makes a stack from `data`; its last element becomes the top.
    pub fn new(data: Vec<StackData>) -> (r: Self)
        ensures
            r@ == data@,
    {
        Self(data)
    }

    /// Puts `e` on top.
    pub fn push(&mut self, e: StackData)
        ensures
            final(self)@ == old(self)@.push(e),
    {
        self.0.push(e);
    }

    /// Takes the top symbol off, or gives `None` when the stack is empty.
    pub fn pop(&mut self) -> (r: Option<StackData>)
        ensures
            old(self)@.len() == 0 ==> r is None && final(self)@ == old(self)@,
            old(self)@.len() > 0 ==> r == Some(old(self)@.last()) && final(self)@
                == old(self)@.drop_last(),
    {
        self.0.pop()
    }
}

impl<StackData: Clone> Stack<StackData> {
    /// A copy of this stack that shares nothing with it.
    pub(crate) fn copied(&self) -> (r: Self)
        requires
            clones_exactly::<StackData>(),
        ensures
            r@ == self@,
    {
        let v = self.0.clone();
        assert(v@ =~= self.0@);
        Self(v)
    }

    /// Pushes the symbols of `w` from last to first, so that `w`'s first symbol
    /// ends on top.
    pub(crate) fn push_reversed(&mut self, w: &Vec<StackData>)
        requires
            clones_exactly::<StackData>(),
        ensures
            final(self)@ == old(self)@ + w@.reverse(),
    {
        let ghost below = self@;
        let mut i: usize = w.len();
        while i > 0
            invariant
                i <= w@.len(),
                clones_exactly::<StackData>(),
                self@ == below + w@.subrange(i as int, w@.len() as int).reverse(),
            decreases i,
        {
            i = i - 1;
            let x = clone_exact(&w[i]);
            proof {
                assert(w@.subrange(i as int, w@.len() as int).reverse() =~= w@.subrange(
                    i + 1,
                    w@.len() as int,
                ).reverse().push(x));
            }
            self.push(x);
        }
        assert(w@.subrange(0, w@.len() as int) =~= w@);
    }
}

impl<StackData> From<Vec<StackData>> for Stack<StackData> {
    /// The stack holding `data`, whose last element is the top.
    fn from(data: Vec<StackData>) -> (r: Self)
        ensures
            r@ == data@,
    {
        Stack(data)
    }
}

impl<StackData> vstd::std_specs::convert::FromSpecImpl<Vec<StackData>> for Stack<StackData> {
    open spec fn obeys_from_spec() -> bool {
        true
    }

    closed spec fn from_spec(v: Vec<StackData>) -> Self {
        Stack(v)
    }
}

} // verus!
