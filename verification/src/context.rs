//! The engine's contexts: each owns the types and values made within it.

use vstd::prelude::*;

verus! {

/// A context of the engine, held by its handle, which is never null.
#[derive(PartialEq, Eq, Structural)]
pub struct Context {
    context: usize,
}

impl View for Context {
    type V = usize;

    /// The handle of the context.
    closed spec fn view(&self) -> usize {
        self.context
    }
}

impl Context {
    #[verifier::type_invariant]
    spec fn live(self) -> bool {
        self.context != 0
    }

    /// Wraps a handle that the engine returned.
    pub fn new(context: usize) -> (wrapped: Context)
        requires
            context != 0,
        ensures
            wrapped@ == context,
    {
        Context { context }
    }

    /// The handle, as the engine takes it.
    pub fn as_raw(&self) -> (raw: usize)
        ensures
            raw == self@,
            raw != 0,
    {
        proof {
            use_type_invariant(self);
        }
        self.context
    }
}

/// A context seen from one of its types. It names the context and does not
/// keep it alive.
#[derive(PartialEq, Eq, Structural)]
pub struct ContextRef {
    context: Context,
}

impl View for ContextRef {
    type V = usize;

    /// The handle of the context that is referred to.
    closed spec fn view(&self) -> usize {
        self.context@
    }
}

impl ContextRef {
    /// Refers to `context`.
    pub fn new(context: Context) -> (reference: ContextRef)
        ensures
            reference@ == context@,
    {
        ContextRef { context }
    }

    /// The context that is referred to.
    pub fn get(&self) -> (context: &Context)
        ensures
            context@ == self@,
    {
        &self.context
    }
}

} // verus!
