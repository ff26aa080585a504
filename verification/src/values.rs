//! Constants and instruction results of the engine.

use vstd::prelude::*;

verus! {

/// A value of the engine, held by its handle. The handle is never null; the
/// value belongs to the context of the type that produced it and lives as
/// long as that context.
#[derive(Clone, Copy, PartialEq, Eq, Structural)]
pub struct Value {
    value: usize,
}

impl View for Value {
    type V = usize;

    /// The handle: two values are the same object exactly when their views
    /// are equal.
    closed spec fn view(&self) -> usize {
        self.value
    }
}

impl Value {
    #[verifier::type_invariant]
    spec fn live(self) -> bool {
        self.value != 0
    }

    /// The handles of `values`, in order.
    pub open spec fn handles_of(values: Seq<Value>) -> Seq<usize> {
        values.map_values(|value: Value| value@)
    }

    /// Wraps a handle that the engine returned.
    pub fn new(value: usize) -> (wrapped: Value)
        requires
            value != 0,
        ensures
            wrapped@ == value,
    {
        Value { value }
    }

    /// The handle, as the engine takes it.
    pub fn as_raw(&self) -> (raw: usize)
        ensures
            raw == self@,
            raw != 0,
    {
        proof {
            use_type_invariant(self);
        }
        self.value
    }

    /// Lays the handles of `values` out as the array that the engine reads.
    pub fn raw_handles(values: &[Value]) -> (raw: Vec<usize>)
        ensures
            raw@ == Value::handles_of(values@),
    {
        let mut raw: Vec<usize> = Vec::new();
        let mut i: usize = 0;
        while i < values.len()
            invariant
                i <= values.len(),
                raw@.len() == i,
                forall|j: int| 0 <= j < i ==> raw@[j] == (#[trigger] values@[j])@,
            decreases values.len() - i,
        {
            raw.push(values[i].as_raw());
            i += 1;
        }
        assert(raw@ =~= Value::handles_of(values@));
        raw
    }
}

} // verus!
