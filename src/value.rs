use vstd::prelude::*;

verus! {

/// A runtime value of the interpreted language.
#[derive(Clone, Copy, Debug, PartialEq, Eq, Structural)]
pub enum Value {
    Undefined,
    Int(i64),
}

/// Where a new binding is declared: the nearest function-level frame, or the
/// current frame.
#[derive(Clone, Copy, Debug, PartialEq, Eq, Structural)]
pub enum VariableScope {
    Function,
    Block,
}

/// Failures that abort the evaluation of a statement.
#[derive(Clone, Copy, Debug, PartialEq, Eq, Structural)]
pub enum RuntimeError {
    /// A declaration in the head of a `for ... of` loop carries an initializer.
    InitializerInLoopHead,
    /// A declaration list in the head of a `for ... of` loop has other than one entry.
    MultipleLoopVariables,
    /// The head of a `for ... of` loop has a shape that cannot be bound.
    UnknownLeftHandSide,
    /// A name is declared twice in one scope frame.
    Redeclaration,
    /// An assignment to an immutable binding.
    ImmutableMutation,
    /// A name that resolves to no initialized binding.
    Reference,
    /// A value that has no iterator.
    NotIterable,
    /// The iterator's `next` failed.
    IteratorFailure,
    /// An exception raised by the program.
    Thrown,
}

} // verus!
