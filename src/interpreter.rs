use vstd::prelude::*;
use crate::environment::{EnvModel, Environment};
use crate::iterator::{IterModel, ValueIterator};
use crate::node::{Completion, ForOfLoop, Node};
use crate::value::{RuntimeError, Value, VariableScope};

verus! {

/// What a loop does with the completion of one execution of its body.
#[derive(Debug)]
pub enum LoopStep {
    /// Go on with the next iteration; the loop's result is now the value.
    Next(Value),
    /// Stop and complete normally with the value.
    Finish(Value),
    /// Stop and hand the completion to the enclosing construct.
    Propagate(Completion),
}

/// Whether a `break` or `continue` aimed at `target` is meant for a loop
/// labelled `own`: an unlabelled one is meant for the nearest loop, a labelled
/// one for the loop with that very label.
pub open spec fn label_matches(own: Option<String>, target: Option<String>) -> bool {
    match target {
        None => true,
        Some(t) => match own {
            Some(o) => o@ == t@,
            None => false,
        },
    }
}

/// The decision a loop labelled `own`, whose result so far is `result`, takes
/// on the completion `c` of its body.
pub open spec fn loop_step(own: Option<String>, c: Completion, result: Value) -> LoopStep {
    match c {
        Completion::Normal(v) => LoopStep::Next(v),
        Completion::Break(l) => if label_matches(own, l) {
            LoopStep::Finish(result)
        } else {
            LoopStep::Propagate(Completion::Break(l))
        },
        Completion::Continue(l) => if label_matches(own, l) {
            LoopStep::Next(result)
        } else {
            LoopStep::Propagate(Completion::Continue(l))
        },
        Completion::Return(v) => LoopStep::Propagate(Completion::Return(v)),
    }
}

/// The value of an expression.
pub open spec fn evaluate(node: Node, e: EnvModel) -> Result<Value, RuntimeError> {
    match node {
        Node::Literal(v) => Ok(v),
        Node::Identifier(n) => e.get_value(n@),
        _ => Ok(Value::Undefined),
    }
}

/// The iterator over the value of `source`.
pub open spec fn open_iterator(source: Node, e: EnvModel) -> Result<IterModel, RuntimeError> {
    match source {
        Node::ArrayLiteral(vs) => Ok(IterModel { values: vs@, position: 0, fails_when_exhausted: false }),
        Node::BrokenIterable(vs) => Ok(IterModel { values: vs@, position: 0, fails_when_exhausted: true }),
        _ => match evaluate(source, e) {
            Ok(_) => Err(RuntimeError::NotIterable),
            Err(x) => Err(x),
        },
    }
}

/// Declares `name` in the frame that `scope` selects and initializes it.
pub open spec fn declare(
    e: EnvModel,
    name: Seq<char>,
    mutable: bool,
    deletable: bool,
    scope: VariableScope,
    v: Value,
) -> (EnvModel, Result<(), RuntimeError>) {
    match e.create(name, mutable, deletable, scope) {
        Err(x) => (e, Err(x)),
        Ok(e1) => match e1.initialize(name, v) {
            Err(x) => (e1, Err(x)),
            Ok(e2) => (e2, Ok(())),
        },
    }
}

/// Assigns `v` to the binding `name` resolves to, or, where there is none,
/// declares it in the nearest function-level frame.
pub open spec fn assign_or_declare(e: EnvModel, name: Seq<char>, deletable: bool, v: Value) -> (
    EnvModel,
    Result<(), RuntimeError>,
) {
    if e.resolve(name).is_some() {
        match e.set_mutable(name, v) {
            Err(x) => (e, Err(x)),
            Ok(e1) => (e1, Ok(())),
        }
    } else {
        declare(e, name, true, deletable, VariableScope::Function, v)
    }
}

/// The one declaration of a loop-head list, or the error for its shape.
pub open spec fn single_declaration(list: Seq<crate::node::Declaration>) -> Result<Seq<char>, RuntimeError> {
    if list.len() != 1 {
        Err(RuntimeError::MultipleLoopVariables)
    } else if list[0].init.is_some() {
        Err(RuntimeError::InitializerInLoopHead)
    } else {
        Ok(list[0].name@)
    }
}

/// Binds the value `v` of one iteration as the loop head `head` says.
pub open spec fn install(head: Node, e: EnvModel, v: Value) -> (EnvModel, Result<(), RuntimeError>) {
    match head {
        Node::Identifier(n) => assign_or_declare(e, n@, true, v),
        Node::VarDeclList(l) => match single_declaration(l@) {
            Err(x) => (e, Err(x)),
            Ok(n) => assign_or_declare(e, n, false, v),
        },
        Node::LetDeclList(l) => match single_declaration(l@) {
            Err(x) => (e, Err(x)),
            Ok(n) => declare(e, n, true, false, VariableScope::Block, v),
        },
        Node::ConstDeclList(l) => match single_declaration(l@) {
            Err(x) => (e, Err(x)),
            Ok(n) => declare(e, n, false, false, VariableScope::Block, v),
        },
        Node::Assign(_, _) => (e, Err(RuntimeError::InitializerInLoopHead)),
        _ => (e, Err(RuntimeError::UnknownLeftHandSide)),
    }
}

/// Executing a statement: the environment after it, and its completion.
pub open spec fn run_node(node: Node, e: EnvModel) -> (EnvModel, Result<Completion, RuntimeError>)
    decreases node, 0nat, 0nat,
{
    match node {
        Node::Literal(_) | Node::Identifier(_) => match evaluate(node, e) {
            Ok(v) => (e, Ok(Completion::Normal(v))),
            Err(x) => (e, Err(x)),
        },
        Node::Assign(n, rhs) => match evaluate(*rhs, e) {
            Err(x) => (e, Err(x)),
            Ok(v) => match e.set_mutable(n@, v) {
                Err(x) => (e, Err(x)),
                Ok(e1) => (e1, Ok(Completion::Normal(v))),
            },
        },
        Node::Sequence(a, b) => {
            let (e1, r1) = run_node(*a, e);
            match r1 {
                Ok(Completion::Normal(_)) => run_node(*b, e1),
                _ => (e1, r1),
            }
        },
        Node::IfEquals(n, v, s) => match e.get_value(n@) {
            Err(x) => (e, Err(x)),
            Ok(w) => if w == v {
                run_node(*s, e)
            } else {
                (e, Ok(Completion::Normal(Value::Undefined)))
            },
        },
        Node::Break(l) => (e, Ok(Completion::Break(l))),
        Node::Continue(l) => (e, Ok(Completion::Continue(l))),
        Node::Return(x) => match evaluate(*x, e) {
            Ok(v) => (e, Ok(Completion::Return(v))),
            Err(x) => (e, Err(x)),
        },
        Node::Capture(n) => match e.capture(n@) {
            Ok(e1) => (e1, Ok(Completion::Normal(Value::Undefined))),
            Err(x) => (e, Err(x)),
        },
        Node::Throw => (e, Err(RuntimeError::Thrown)),
        Node::ForOf(lp) => run_loop(*lp, e),
        _ => (e, Ok(Completion::Normal(Value::Undefined))),
    }
}

/// Executing a `for ... of` loop: open the iterator over its source, then iterate.
pub open spec fn run_loop(lp: ForOfLoop, e: EnvModel) -> (EnvModel, Result<Completion, RuntimeError>)
    decreases lp.body, 2nat, 0nat,
{
    match open_iterator(*lp.iterable, e) {
        Err(x) => (e, Err(x)),
        Ok(it) => run_iterations(lp, it, e, Value::Undefined),
    }
}

/// The iterations of a loop from iterator state `it` on, with result so far
/// `result`. Each one pushes a frame, asks the iterator for a value, binds it,
/// runs the body, pops the frame and decides by the body's completion; every
/// exit pops the frame it pushed.
pub open spec fn run_iterations(lp: ForOfLoop, it: IterModel, e: EnvModel, result: Value) -> (
    EnvModel,
    Result<Completion, RuntimeError>,
)
    decreases lp.body, 1nat, it.values.len() - it.position,
{
    let e1 = e.push();
    if it.position < it.values.len() {
        let (e2, installed) = install(*lp.variable, e1, it.values[it.position as int]);
        match installed {
            Err(x) => (e2.pop(), Err(x)),
            Ok(_) => {
                let (e3, r) = run_node(*lp.body, e2);
                let e4 = e3.pop();
                match r {
                    Err(x) => (e4, Err(x)),
                    Ok(c) => match loop_step(lp.label, c, result) {
                        LoopStep::Next(v) => run_iterations(lp, it.advance(), e4, v),
                        LoopStep::Finish(v) => (e4, Ok(Completion::Normal(v))),
                        LoopStep::Propagate(c2) => (e4, Ok(c2)),
                    },
                }
            },
        }
    } else if it.fails_when_exhausted {
        (e1.pop(), Err(RuntimeError::IteratorFailure))
    } else {
        (e1.pop(), Ok(Completion::Normal(result)))
    }
}

/// `after` is `before` with frames only added, the same frame
/// current, and well formed.
pub open spec fn resumes(after: EnvModel, before: EnvModel) -> bool {
    &&& after.wf()
    &&& after.extends(before)
    &&& after.current == before.current
}

/// Whether a `break` or `continue` aimed at `target` is meant for a loop labelled `own`.
pub fn labels_match(own: &Option<String>, target: &Option<String>) -> (r: bool)
    ensures
        r == label_matches(*own, *target),
{
    match target {
        None => true,
        Some(t) => match own {
            Some(o) => *o == *t,
            None => false,
        },
    }
}

/// The decision a loop labelled `own`, with result so far `result`, takes on
/// the completion `c` of its body.
pub fn interpret_completion(own: &Option<String>, c: Completion, result: Value) -> (r: LoopStep)
    ensures
        r == loop_step(*own, c, result),
{
    match c {
        Completion::Normal(v) => LoopStep::Next(v),
        Completion::Break(l) => if labels_match(own, &l) {
            LoopStep::Finish(result)
        } else {
            LoopStep::Propagate(Completion::Break(l))
        },
        Completion::Continue(l) => if labels_match(own, &l) {
            LoopStep::Next(result)
        } else {
            LoopStep::Propagate(Completion::Continue(l))
        },
        Completion::Return(v) => LoopStep::Propagate(Completion::Return(v)),
    }
}

fn copy_values(vs: &Vec<Value>) -> (r: Vec<Value>)
    ensures
        r@ == vs@,
{
    let mut r: Vec<Value> = Vec::new();
    let mut k: usize = 0;
    while k < vs.len()
        invariant
            k <= vs.len(),
            r@ == vs@.take(k as int),
        decreases vs.len() - k,
    {
        r.push(vs[k]);
        k = k + 1;
        proof {
            assert(r@ =~= vs@.take(k as int));
        }
    }
    proof {
        assert(vs@.take(k as int) =~= vs@);
    }
    r
}

/// The iterator over the value of `source`; fails where evaluating it fails
/// or where the value is not iterable.
pub fn get_iterator(source: &Node, env: &Environment) -> (r: Result<ValueIterator, RuntimeError>)
    requires
        env@.wf(),
    ensures
        match r {
            Ok(it) => open_iterator(*source, env@) == Ok::<IterModel, RuntimeError>(it@) && it@.wf(),
            Err(x) => open_iterator(*source, env@) == Err::<IterModel, RuntimeError>(x),
        },
{
    match source {
        Node::ArrayLiteral(vs) => Ok(ValueIterator::new(copy_values(vs), false)),
        Node::BrokenIterable(vs) => Ok(ValueIterator::new(copy_values(vs), true)),
        _ => match source.evaluate(env) {
            Ok(_) => Err(RuntimeError::NotIterable),
            Err(x) => Err(x),
        },
    }
}

fn declare_binding(
    env: &mut Environment,
    name: &String,
    mutable: bool,
    deletable: bool,
    scope: VariableScope,
    v: Value,
) -> (r: Result<(), RuntimeError>)
    requires
        old(env)@.wf(),
    ensures
        resumes(final(env)@, old(env)@),
        (final(env)@, r) == declare(old(env)@, name@, mutable, deletable, scope, v),
{
    let created = if mutable {
        env.create_mutable_binding(name.clone(), deletable, scope)
    } else {
        env.create_immutable_binding(name.clone(), deletable, scope)
    };
    match created {
        Err(x) => Err(x),
        Ok(()) => env.initialize_binding(name, v),
    }
}

fn assign_or_declare_binding(env: &mut Environment, name: &String, deletable: bool, v: Value) -> (r: Result<(), RuntimeError>)
    requires
        old(env)@.wf(),
    ensures
        resumes(final(env)@, old(env)@),
        (final(env)@, r) == assign_or_declare(old(env)@, name@, deletable, v),
{
    if env.has_binding(name) {
        env.set_mutable_binding(name, v)
    } else {
        declare_binding(env, name, true, deletable, VariableScope::Function, v)
    }
}

fn single_name(list: &Vec<crate::node::Declaration>) -> (r: Result<&String, RuntimeError>)
    ensures
        match r {
            Ok(n) => single_declaration(list@) == Ok::<Seq<char>, RuntimeError>(n@),
            Err(x) => single_declaration(list@) == Err::<Seq<char>, RuntimeError>(x),
        },
{
    if list.len() != 1 {
        Err(RuntimeError::MultipleLoopVariables)
    } else if list[0].init.is_some() {
        Err(RuntimeError::InitializerInLoopHead)
    } else {
        Ok(&list[0].name)
    }
}

/// Binds `value` for one iteration as the loop head `head` says: a bare name
/// or a `var` declaration assigns the binding it resolves to, or declares one
/// in the nearest function-level frame; a `let` or `const` declaration always
/// declares a new binding in the current frame. Fails on a declaration list of
/// other than one entry, on an initializer, and on any other shape.
pub fn install_binding(head: &Node, env: &mut Environment, value: Value) -> (r: Result<(), RuntimeError>)
    requires
        old(env)@.wf(),
    ensures
        resumes(final(env)@, old(env)@),
        (final(env)@, r) == install(*head, old(env)@, value),
{
    match head {
        Node::Identifier(n) => assign_or_declare_binding(env, n, true, value),
        Node::VarDeclList(l) => match single_name(l) {
            Err(x) => Err(x),
            Ok(n) => assign_or_declare_binding(env, n, false, value),
        },
        Node::LetDeclList(l) => match single_name(l) {
            Err(x) => Err(x),
            Ok(n) => declare_binding(env, n, true, false, VariableScope::Block, value),
        },
        Node::ConstDeclList(l) => match single_name(l) {
            Err(x) => Err(x),
            Ok(n) => declare_binding(env, n, false, false, VariableScope::Block, value),
        },
        Node::Assign(_, _) => Err(RuntimeError::InitializerInLoopHead),
        _ => Err(RuntimeError::UnknownLeftHandSide),
    }
}

fn copy_label(l: &Option<String>) -> (r: Option<String>)
    ensures
        r == *l,
{
    match l {
        Some(s) => Some(s.clone()),
        None => None,
    }
}

impl Node {
    /// The value of the expression.
    pub fn evaluate(&self, env: &Environment) -> (r: Result<Value, RuntimeError>)
        requires
            env@.wf(),
        ensures
            r == evaluate(*self, env@),
    {
        match self {
            Node::Literal(v) => Ok(*v),
            Node::Identifier(n) => env.get_binding_value(n),
            _ => Ok(Value::Undefined),
        }
    }

    /// Executes the statement in `env`.
    pub fn run(&self, env: &mut Environment) -> (r: Result<Completion, RuntimeError>)
        requires
            old(env)@.wf(),
        ensures
            resumes(final(env)@, old(env)@),
            (final(env)@, r) == run_node(*self, old(env)@),
        decreases *self, 0nat, 0nat,
    {
        match self {
            Node::Literal(_) | Node::Identifier(_) => match self.evaluate(env) {
                Ok(v) => Ok(Completion::Normal(v)),
                Err(x) => Err(x),
            },
            Node::Assign(n, rhs) => match rhs.evaluate(env) {
                Err(x) => Err(x),
                Ok(v) => match env.set_mutable_binding(n, v) {
                    Err(x) => Err(x),
                    Ok(()) => Ok(Completion::Normal(v)),
                },
            },
            Node::Sequence(a, b) => {
                let r1 = a.run(env);
                match r1 {
                    Ok(Completion::Normal(_)) => b.run(env),
                    _ => r1,
                }
            },
            Node::IfEquals(n, v, s) => match env.get_binding_value(n) {
                Err(x) => Err(x),
                Ok(w) => if w == *v {
                    s.run(env)
                } else {
                    Ok(Completion::Normal(Value::Undefined))
                },
            },
            Node::Break(l) => Ok(Completion::Break(copy_label(l))),
            Node::Continue(l) => Ok(Completion::Continue(copy_label(l))),
            Node::Return(x) => match x.evaluate(env) {
                Ok(v) => Ok(Completion::Return(v)),
                Err(x) => Err(x),
            },
            Node::Capture(n) => match env.capture(n) {
                Ok(()) => Ok(Completion::Normal(Value::Undefined)),
                Err(x) => Err(x),
            },
            Node::Throw => Err(RuntimeError::Thrown),
            Node::ForOf(lp) => lp.run(env),
            _ => Ok(Completion::Normal(Value::Undefined)),
        }
    }
}

impl ForOfLoop {
    /// Executes the loop in `env`: evaluates the source and opens its
    /// iterator, then runs one iteration per value, each in a fresh frame that
    /// is popped on every way out. The result is `Normal` with the value of
    /// the last body that completed normally, or a `break`, `continue` or
    /// `return` meant for an enclosing construct, or the failure.
    pub fn run(&self, env: &mut Environment) -> (r: Result<Completion, RuntimeError>)
        requires
            old(env)@.wf(),
        ensures
            resumes(final(env)@, old(env)@),
            (final(env)@, r) == run_loop(*self, old(env)@),
        decreases self.body, 2nat, 0nat,
    {
        match get_iterator(&self.iterable, env) {
            Err(x) => Err(x),
            Ok(it) => {
                let mut it = it;
                self.run_iterations(&mut it, env, Value::Undefined)
            },
        }
    }

    fn run_iterations(&self, iter: &mut ValueIterator, env: &mut Environment, result: Value) -> (r: Result<Completion, RuntimeError>)
        requires
            old(env)@.wf(),
            old(iter)@.wf(),
        ensures
            resumes(final(env)@, old(env)@),
            (final(env)@, r) == run_iterations(*self, old(iter)@, old(env)@, result),
        decreases self.body, 1nat, old(iter)@.values.len() - old(iter)@.position,
    {
        let ghost e0 = env@;
        env.push();
        let ghost e1 = env@;
        proof {
            assert(e1.frames[e1.current as int].parent == Some(e0.current));
        }
        match iter.next() {
            Err(x) => {
                env.pop();
                Err(x)
            },
            Ok(step) => {
                if step.done {
                    env.pop();
                    return Ok(Completion::Normal(result));
                }
                match install_binding(&self.variable, env, step.value) {
                    Err(x) => {
                        proof {
                            assert(env@.frames[e1.current as int] == e1.frames[e1.current as int]);
                        }
                        env.pop();
                        return Err(x);
                    },
                    Ok(()) => {},
                }
                let r = self.body.run(env);
                proof {
                    assert(env@.frames[e1.current as int] == e1.frames[e1.current as int]);
                }
                env.pop();
                match r {
                    Err(x) => Err(x),
                    Ok(c) => match interpret_completion(&self.label, c, result) {
                        LoopStep::Next(v) => self.run_iterations(iter, env, v),
                        LoopStep::Finish(v) => Ok(Completion::Normal(v)),
                        LoopStep::Propagate(c2) => Ok(c2),
                    },
                }
            },
        }
    }
}

} // verus!
