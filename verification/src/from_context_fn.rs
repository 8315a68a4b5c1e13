use vstd::prelude::*;

verus! {

/// A stepping rule that drives an external mutable context: each call
/// may advance the context and may produce one value.  Nothing is
/// promised about the produced values; they are whatever the rule
/// computes from the context it owns.
pub trait ContextFn<C>: Sized {
    type Output;

    /// One step against the context.
    fn step(&mut self, context: &mut C) -> Option<Self::Output>;
}

/// A producer built from an owned context and a stepping rule: each
/// pull applies the rule to the context, and the context can be taken
/// back once the caller is finished pulling.
pub struct FromContextFn<C, F> {
    context: C,
    f: F,
}

impl<C, F> FromContextFn<C, F> {
    /// The owned context.
    pub closed spec fn spec_context(&self) -> C {
        self.context
    }

    /// Pair a context with its stepping rule.
    pub fn new(context: C, f: F) -> (r: Self)
        ensures
            r.spec_context() == context,
    {
        FromContextFn { context, f }
    }

    /// Give the context back.
    pub fn into_context(self) -> (c: C)
        ensures
            c == self.spec_context(),
    {
        self.context
    }
}

impl<C, F: ContextFn<C>> FromContextFn<C, F> {
    /// Pull one value: apply the rule to the context once.
    pub fn next(&mut self) -> Option<F::Output> {
        self.f.step(&mut self.context)
    }
}

} // verus!
