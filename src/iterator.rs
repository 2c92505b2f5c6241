use vstd::prelude::*;
use crate::value::{RuntimeError, Value};

verus! {

/// What one call of `next` yields: `done`, or the next value.
#[derive(Clone, Copy, Debug, PartialEq, Eq, Structural)]
pub struct IteratorResult {
    pub done: bool,
    pub value: Value,
}

/// An iterator as the contracts see it: the values, how many were handed out,
/// and whether `next` fails once they are exhausted.
pub struct IterModel {
    pub values: Seq<Value>,
    pub position: nat,
    pub fails_when_exhausted: bool,
}

/// An iterator over a sequence of values.
#[derive(Debug)]
pub struct ValueIterator {
    values: Vec<Value>,
    position: usize,
    fails_when_exhausted: bool,
}

impl View for ValueIterator {
    type V = IterModel;

    closed spec fn view(&self) -> IterModel {
        IterModel {
            values: self.values@,
            position: self.position as nat,
            fails_when_exhausted: self.fails_when_exhausted,
        }
    }
}

impl IterModel {
    pub open spec fn wf(self) -> bool {
        self.position <= self.values.len()
    }

    /// The iterator after one more value has been handed out.
    pub open spec fn advance(self) -> IterModel {
        IterModel { position: self.position + 1, ..self }
    }
}

impl ValueIterator {
    /// An iterator over `values`; with `fails_when_exhausted`, a call of
    /// `next` after the last value fails.
    pub fn new(values: Vec<Value>, fails_when_exhausted: bool) -> (r: ValueIterator)
        ensures
            r@ == (IterModel { values: values@, position: 0, fails_when_exhausted }),
            r@.wf(),
    {
        ValueIterator { values, position: 0, fails_when_exhausted }
    }

    /// The next value, `done` once all were handed out, or a failure then
    /// where the iterator fails when exhausted.
    pub fn next(&mut self) -> (r: Result<IteratorResult, RuntimeError>)
        requires
            old(self)@.wf(),
        ensures
            final(self)@.wf(),
            old(self)@.position < old(self)@.values.len() ==> r == Ok::<IteratorResult, RuntimeError>(
                IteratorResult { done: false, value: old(self)@.values[old(self)@.position as int] },
            ) && final(self)@ == old(self)@.advance(),
            old(self)@.position >= old(self)@.values.len() ==> final(self)@ == old(self)@ && r == (
            if old(self)@.fails_when_exhausted {
                Err::<IteratorResult, RuntimeError>(RuntimeError::IteratorFailure)
            } else {
                Ok(IteratorResult { done: true, value: Value::Undefined })
            }),
    {
        if self.position < self.values.len() {
            let value = self.values[self.position];
            self.position = self.position + 1;
            Ok(IteratorResult { done: false, value })
        } else if self.fails_when_exhausted {
            Err(RuntimeError::IteratorFailure)
        } else {
            Ok(IteratorResult { done: true, value: Value::Undefined })
        }
    }
}

} // verus!
