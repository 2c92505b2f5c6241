use vstd::prelude::*;
use crate::value::Value;

verus! {

/// One entry of a `var`, `let` or `const` declaration list: a name and an
/// optional initializer.
#[derive(Debug)]
pub struct Declaration {
    pub name: String,
    pub init: Option<Value>,
}

impl Declaration {
    pub fn new(name: String, init: Option<Value>) -> (r: Declaration)
        ensures
            r.name == name,
            r.init == init,
    {
        Declaration { name, init }
    }
}

/// A node of the syntax tree: the loop-head shapes, the expressions and the
/// statements that a loop body is made of.
#[derive(Debug)]
pub enum Node {
    /// The empty statement.
    Empty,
    /// A constant.
    Literal(Value),
    /// A name, read as an expression or assigned as a loop head.
    Identifier(String),
    VarDeclList(Vec<Declaration>),
    LetDeclList(Vec<Declaration>),
    ConstDeclList(Vec<Declaration>),
    /// `name = expression`.
    Assign(String, Box<Node>),
    /// An array of constants: iterable.
    ArrayLiteral(Vec<Value>),
    /// An iterable whose iterator yields the given values and then fails
    /// instead of reporting that it is done.
    BrokenIterable(Vec<Value>),
    /// Two statements, one after the other.
    Sequence(Box<Node>, Box<Node>),
    /// `if (name === value) statement`.
    IfEquals(String, Value, Box<Node>),
    Break(Option<String>),
    Continue(Option<String>),
    Return(Box<Node>),
    /// Creates a closure that captures the binding `name` resolves to.
    Capture(String),
    /// Throws an exception.
    Throw,
    ForOf(Box<ForOfLoop>),
}

/// A `for (variable of iterable) body` loop, with the label that an enclosing
/// labelled statement gave it.
#[derive(Debug)]
pub struct ForOfLoop {
    pub variable: Box<Node>,
    pub iterable: Box<Node>,
    pub body: Box<Node>,
    pub label: Option<String>,
}

/// How a statement completed when it did not fail.
#[derive(Debug)]
pub enum Completion {
    Normal(Value),
    Break(Option<String>),
    Continue(Option<String>),
    Return(Value),
}

} // verus!
