//! A stack of transforms: drawing uses the top one, and a scope pushes a copy of it to change and
//! pops it afterwards.
use vstd::prelude::*;

verus! {

/// A stack of transforms, bottom first; the top one is the current transform.
#[derive(Clone, Debug)]
pub struct TransformStack<M> {
    ts: Vec<M>,
}

impl<M> View for TransformStack<M> {
    type V = Seq<M>;

    /// The transforms, bottom first.
    closed spec fn view(&self) -> Seq<M> {
        self.ts@
    }
}

impl<M: Copy> TransformStack<M> {
    /// A stack holding only `identity`.
    pub fn new(identity: M) -> (stack: Self)
        ensures
            stack@ == seq![identity],
    {
        TransformStack { ts: vec![identity] }
    }

    /// The current transform. The stack must not be empty.
    pub fn top(&self) -> (top: &M)
        requires
            self@.len() > 0,
        ensures
            *top == self@.last(),
    {
        let n = self.ts.len();
        &self.ts[n - 1]
    }

    /// Pushes `tx`, or a copy of the current transform if there is none (then the stack must not
    /// be empty).
    pub fn push(&mut self, tx: Option<M>)
        requires
            tx is Some || old(self)@.len() > 0,
        ensures
            final(self)@ == old(self)@.push(
                match tx {
                    Some(t) => t,
                    None => old(self)@.last(),
                },
            ),
    {
        let t = match tx {
            Some(t) => t,
            None => *self.top(),
        };
        self.ts.push(t);
    }

    /// Pops the current transform. The stack must not be empty.
    pub fn pop(&mut self)
        requires
            old(self)@.len() > 0,
        ensures
            final(self)@ == old(self)@.drop_last(),
    {
        self.ts.pop();
    }

    /// Replaces the current transform with `tx`. The stack must not be empty.
    pub fn replace_transform(&mut self, tx: M)
        requires
            old(self)@.len() > 0,
        ensures
            final(self)@ == old(self)@.drop_last().push(tx),
    {
        let n = self.ts.len();
        self.ts.set(n - 1, tx);
        assert(self.ts@ =~= old(self)@.drop_last().push(tx));
    }
}

/// A scope leaves the stack as it was: inside it the current transform starts as the one
/// before, and after replacing it with any `tx` and popping, the stack is the one from before.
pub proof fn lemma_scope_restores<M>(stack: Seq<M>, tx: M)
    requires
        stack.len() > 0,
    ensures
        stack.push(stack.last()).last() == stack.last(),
        stack.push(stack.last()).drop_last().push(tx).drop_last() == stack,
{
    assert(stack.push(stack.last()).drop_last() =~= stack);
    assert(stack.push(tx).drop_last() =~= stack);
}

} // verus!
