use vstd::prelude::*;
use crate::node::{ForOfLoop, Node};

verus! {

impl ForOfLoop {
    /// A loop binding each value of `iterable` as `variable` says and running
    /// `body`, with no label.
    pub fn new(variable: Node, iterable: Node, body: Node) -> (r: ForOfLoop)
        ensures
            *r.variable == variable,
            *r.iterable == iterable,
            *r.body == body,
            r.label is None,
    {
        ForOfLoop {
            variable: Box::new(variable),
            iterable: Box::new(iterable),
            body: Box::new(body),
            label: None,
        }
    }

    /// The loop head.
    pub fn variable(&self) -> (r: &Node)
        ensures
            *r == *self.variable,
    {
        &self.variable
    }

    /// The expression whose value is iterated.
    pub fn iterable(&self) -> (r: &Node)
        ensures
            *r == *self.iterable,
    {
        &self.iterable
    }

    /// The statement run for each value.
    pub fn body(&self) -> (r: &Node)
        ensures
            *r == *self.body,
    {
        &self.body
    }

    /// The label, if the loop has one.
    pub fn label(&self) -> (r: Option<&str>)
        ensures
            match r {
                Some(s) => self.label is Some && s@ == self.label->0@,
                None => self.label is None,
            },
    {
        match &self.label {
            Some(s) => Some(s.as_str()),
            None => None,
        }
    }

    /// Attaches `label` to the loop, as the labelled statement around it does.
    pub fn set_label(&mut self, label: String)
        ensures
            final(self).label == Some(label),
            final(self).variable == old(self).variable,
            final(self).iterable == old(self).iterable,
            final(self).body == old(self).body,
    {
        self.label = Some(label);
    }
}

} // verus!
