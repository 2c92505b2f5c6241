use vstd::prelude::*;
use crate::environment::{EnvModel, FrameModel};
use crate::interpreter::{
    declare, install, loop_step, resumes, run_iterations, run_loop, run_node, LoopStep,
};
use crate::iterator::IterModel;
use crate::node::{Completion, ForOfLoop, Node};
use crate::value::{RuntimeError, Value, VariableScope};

verus! {

/// A statement that, from every well-formed environment, completes normally,
/// leaves the frames as they were and keeps the environment well formed.
pub open spec fn completes_normally(body: Node) -> bool {
    forall|e: EnvModel|
        e.wf() ==> {
            &&& (#[trigger] run_node(body, e)).1 is Ok
            &&& run_node(body, e).1->Ok_0 is Normal
            &&& run_node(body, e).0.wf()
            &&& run_node(body, e).0.frames == e.frames
            &&& run_node(body, e).0.current == e.current
        }
}

/// A loop head `let x` or `const x`: one declaration, without initializer.
pub open spec fn is_block_declaration(head: Node) -> bool {
    match head {
        Node::LetDeclList(l) => l@.len() == 1 && l@[0].init is None,
        Node::ConstDeclList(l) => l@.len() == 1 && l@[0].init is None,
        _ => false,
    }
}

/// The frame that each iteration of a loop run from frame `current` pushes.
pub open spec fn iteration_frame(current: nat) -> FrameModel {
    FrameModel { parent: Some(current), function_scope: false }
}

proof fn lemma_push_wf(e: EnvModel)
    requires
        e.wf(),
    ensures
        e.push().wf(),
        e.push().frames[e.push().current as int] == iteration_frame(e.current),
{
    let e1 = e.push();
    assert forall|i: int| 0 <= i < e1.frames.len() implies match #[trigger] e1.frames[i].parent {
        Some(p) => p < i,
        None => e1.frames[i].function_scope,
    } by {
        if i < e.frames.len() {
            assert(e1.frames[i] == e.frames[i]);
        }
    }
}

proof fn lemma_find_none(e: EnvModel, f: nat, name: Seq<char>, i: nat)
    requires
        forall|j: int| 0 <= j < e.bindings.len() ==> #[trigger] e.bindings[j].frame != f,
    ensures
        e.find_in_frame(f, name, i) is None,
    decreases e.bindings.len() - i,
{
    if i < e.bindings.len() {
        lemma_find_none(e, f, name, i + 1);
    }
}

proof fn lemma_find_last(e: EnvModel, f: nat, name: Seq<char>, i: nat)
    requires
        0 < e.bindings.len(),
        i < e.bindings.len(),
        forall|j: int| 0 <= j < e.bindings.len() - 1 ==> #[trigger] e.bindings[j].frame != f,
        e.bindings.last().frame == f,
        e.bindings.last().name == name,
    ensures
        e.find_in_frame(f, name, i) == Some((e.bindings.len() - 1) as nat),
    decreases e.bindings.len() - i,
{
    if i < e.bindings.len() - 1 {
        lemma_find_last(e, f, name, i + 1);
    }
}

/// Binding a block declaration in a frame just pushed always succeeds and
/// keeps the frames.
proof fn lemma_install_in_fresh_frame(head: Node, e: EnvModel, v: Value)
    requires
        e.wf(),
        is_block_declaration(head),
    ensures
        install(head, e.push(), v).1 is Ok,
        install(head, e.push(), v).0.wf(),
        install(head, e.push(), v).0.frames == e.push().frames,
        install(head, e.push(), v).0.current == e.push().current,
{
    let e1 = e.push();
    lemma_push_wf(e);
    let name = match head {
        Node::LetDeclList(l) => l@[0].name@,
        Node::ConstDeclList(l) => l@[0].name@,
        _ => Seq::empty(),
    };
    let mutable = head is LetDeclList;
    assert forall|j: int| 0 <= j < e1.bindings.len() implies #[trigger] e1.bindings[j].frame != e1.current by {
        assert(e.bindings[j].frame < e.frames.len());
    }
    lemma_find_none(e1, e1.current, name, 0);
    let e2 = e1.create(name, mutable, false, crate::value::VariableScope::Block)->Ok_0;
    assert(e2.bindings.last().frame == e2.current);
    assert forall|j: int| 0 <= j < e2.bindings.len() - 1 implies #[trigger] e2.bindings[j].frame != e2.current by {
        assert(e2.bindings[j] == e1.bindings[j]);
    }
    lemma_find_last(e2, e2.current, name, 0);
    assert(e2.resolve(name) == Some((e2.bindings.len() - 1) as nat));
    let e3 = e2.store((e2.bindings.len() - 1) as nat, v);
    assert forall|j: int| 0 <= j < e3.bindings.len() implies #[trigger] e3.bindings[j].frame < e3.frames.len() by {
        if j < e2.bindings.len() - 1 {
            assert(e3.bindings[j] == e1.bindings[j]);
        }
    }
    assert(e3.wf());
}

proof fn lemma_iterations_fresh_frames(lp: ForOfLoop, it: IterModel, e: EnvModel, result: Value)
    requires
        e.wf(),
        it.wf(),
        is_block_declaration(*lp.variable),
        completes_normally(*lp.body),
    ensures
        ({
            let (e2, r) = run_iterations(lp, it, e, result);
            &&& if it.fails_when_exhausted {
                r == Err::<Completion, RuntimeError>(RuntimeError::IteratorFailure)
            } else {
                r is Ok && r->Ok_0 is Normal
            }
            &&& e2.wf()
            &&& e2.current == e.current
            &&& e2.frames.len() == e.frames.len() + (it.values.len() - it.position) + 1
            &&& forall|i: int| 0 <= i < e.frames.len() ==> #[trigger] e2.frames[i] == e.frames[i]
            &&& forall|i: int|
                e.frames.len() <= i < e2.frames.len() ==> #[trigger] e2.frames[i] == iteration_frame(e.current)
        }),
    decreases it.values.len() - it.position,
{
    let e1 = e.push();
    lemma_push_wf(e);
    if it.position < it.values.len() {
        let v = it.values[it.position as int];
        lemma_install_in_fresh_frame(*lp.variable, e, v);
        let (e2, installed) = install(*lp.variable, e1, v);
        let (e3, r) = run_node(*lp.body, e2);
        assert(r is Ok && r->Ok_0 is Normal && e3.wf() && e3.frames == e2.frames && e3.current == e2.current);
        let e4 = e3.pop();
        assert(e4.wf()) by {
            assert(e3.frames[e3.current as int] == iteration_frame(e.current));
        }
        let c = r->Ok_0;
        let v2 = c->Normal_0;
        assert(loop_step(lp.label, c, result) == LoopStep::Next(v2));
        lemma_iterations_fresh_frames(lp, it.advance(), e4, v2);
        let (e5, r5) = run_iterations(lp, it.advance(), e4, v2);
        assert(run_iterations(lp, it, e, result) == (e5, r5));
        assert forall|i: int| e.frames.len() <= i < e5.frames.len() implies #[trigger] e5.frames[i]
            == iteration_frame(e.current) by {
            if i < e4.frames.len() {
                assert(e5.frames[i] == e4.frames[i]);
            }
        }
    } else {
        assert(e1.frames[e1.current as int] == iteration_frame(e.current));
    }
}

/// A loop over an array of N values, with a `let` or `const` head and a body
/// that completes normally, runs N iterations: it completes normally, pushes
/// N + 1 frames (one per value, and one for the call of `next` that reports
/// the end), each a fresh child of the frame the loop ran in, and leaves that
/// frame current, so no binding of one iteration is visible in the next.
pub proof fn lemma_one_fresh_frame_per_value(lp: ForOfLoop, e: EnvModel)
    requires
        e.wf(),
        is_block_declaration(*lp.variable),
        completes_normally(*lp.body),
        *lp.iterable is ArrayLiteral,
    ensures
        ({
            let (e2, r) = run_loop(lp, e);
            let n = (*lp.iterable)->ArrayLiteral_0@.len();
            &&& r is Ok && r->Ok_0 is Normal
            &&& e2.wf()
            &&& e2.current == e.current
            &&& e2.frames.len() == e.frames.len() + n + 1
            &&& forall|i: int| 0 <= i < e.frames.len() ==> #[trigger] e2.frames[i] == e.frames[i]
            &&& forall|i: int|
                e.frames.len() <= i < e2.frames.len() ==> #[trigger] e2.frames[i] == iteration_frame(e.current)
        }),
{
    let it = IterModel { values: (*lp.iterable)->ArrayLiteral_0@, position: 0, fails_when_exhausted: false };
    lemma_iterations_fresh_frames(lp, it, e, Value::Undefined);
}

/// A loop over an iterable whose `next` yields one value and then fails, with
/// a `let` or `const` head and a body that completes normally, fails with the
/// iterator's failure after one iteration: it pushes two frames (the
/// iteration's, and the one of the failing call), each a fresh child of the
/// frame the loop ran in, and pops both.
pub proof fn lemma_failing_next_aborts_after_one_iteration(lp: ForOfLoop, e: EnvModel)
    requires
        e.wf(),
        is_block_declaration(*lp.variable),
        completes_normally(*lp.body),
        *lp.iterable is BrokenIterable,
        (*lp.iterable)->BrokenIterable_0@.len() == 1,
    ensures
        ({
            let (e2, r) = run_loop(lp, e);
            &&& r == Err::<Completion, RuntimeError>(RuntimeError::IteratorFailure)
            &&& e2.wf()
            &&& e2.current == e.current
            &&& e2.frames.len() == e.frames.len() + 2
            &&& forall|i: int|
                e.frames.len() <= i < e2.frames.len() ==> #[trigger] e2.frames[i] == iteration_frame(e.current)
        }),
{
    let it = IterModel { values: (*lp.iterable)->BrokenIterable_0@, position: 0, fails_when_exhausted: true };
    lemma_iterations_fresh_frames(lp, it, e, Value::Undefined);
}

/// A loop head that declares other than one name, or declares one with an
/// initializer, makes a loop over a non-empty array fail with that error on
/// the first value, before the body runs: no binding is made, nothing is
/// captured, and the frame the loop ran in is current again.
pub proof fn lemma_bad_head_fails_before_body(lp: ForOfLoop, e: EnvModel)
    requires
        e.wf(),
        *lp.iterable is ArrayLiteral,
        (*lp.iterable)->ArrayLiteral_0@.len() > 0,
        match *lp.variable {
            Node::VarDeclList(l) => l@.len() != 1 || l@[0].init is Some,
            Node::LetDeclList(l) => l@.len() != 1 || l@[0].init is Some,
            Node::ConstDeclList(l) => l@.len() != 1 || l@[0].init is Some,
            _ => false,
        },
    ensures
        ({
            let (e2, r) = run_loop(lp, e);
            let l = match *lp.variable {
                Node::VarDeclList(l) => l@,
                Node::LetDeclList(l) => l@,
                Node::ConstDeclList(l) => l@,
                _ => Seq::empty(),
            };
            &&& r == Err::<Completion, RuntimeError>(
                if l.len() != 1 {
                    RuntimeError::MultipleLoopVariables
                } else {
                    RuntimeError::InitializerInLoopHead
                },
            )
            &&& e2.bindings == e.bindings
            &&& e2.captures == e.captures
            &&& e2.current == e.current
        }),
{
}

proof fn lemma_find_in_range(e: EnvModel, f: nat, name: Seq<char>, i: nat)
    ensures
        e.find_in_frame(f, name, i) is Some ==> e.find_in_frame(f, name, i)->0 < e.bindings.len(),
    decreases e.bindings.len() - i,
{
    if i < e.bindings.len() {
        lemma_find_in_range(e, f, name, i + 1);
    }
}

proof fn lemma_resolve_in_range(e: EnvModel, f: nat, name: Seq<char>)
    ensures
        e.resolve_from(f, name) is Some ==> e.resolve_from(f, name)->0 < e.bindings.len(),
    decreases f,
{
    lemma_find_in_range(e, f, name, 0);
    if f < e.frames.len() {
        match e.frames[f as int].parent {
            Some(p) => if p < f {
                lemma_resolve_in_range(e, p, name);
            },
            None => {},
        }
    }
}

proof fn lemma_function_frame_in_range(e: EnvModel, f: nat)
    requires
        e.wf(),
        f < e.frames.len(),
    ensures
        e.function_frame_from(f) < e.frames.len(),
    decreases f,
{
    if !e.frames[f as int].function_scope {
        match e.frames[f as int].parent {
            Some(p) => if p < f {
                lemma_function_frame_in_range(e, p);
            },
            None => {},
        }
    }
}

proof fn lemma_store_resumes(e: EnvModel, i: nat, v: Value)
    requires
        e.wf(),
        i < e.bindings.len(),
    ensures
        resumes(e.store(i, v), e),
{
    let e1 = e.store(i, v);
    assert forall|j: int| 0 <= j < e1.bindings.len() implies #[trigger] e1.bindings[j].frame < e1.frames.len() by {
        assert(e.bindings[j].frame < e.frames.len());
    }
}

proof fn lemma_set_mutable_resumes(e: EnvModel, name: Seq<char>, v: Value)
    requires
        e.wf(),
    ensures
        e.set_mutable(name, v) is Ok ==> resumes(e.set_mutable(name, v)->Ok_0, e),
{
    lemma_resolve_in_range(e, e.current, name);
    if e.resolve(name) is Some {
        lemma_store_resumes(e, e.resolve(name)->0, v);
    }
}

proof fn lemma_declare_resumes(e: EnvModel, name: Seq<char>, mutable: bool, deletable: bool, scope: VariableScope, v: Value)
    requires
        e.wf(),
    ensures
        resumes(declare(e, name, mutable, deletable, scope, v).0, e),
{
    lemma_function_frame_in_range(e, e.current);
    if e.create(name, mutable, deletable, scope) is Ok {
        let e1 = e.create(name, mutable, deletable, scope)->Ok_0;
        assert forall|j: int| 0 <= j < e1.bindings.len() implies #[trigger] e1.bindings[j].frame < e1.frames.len() by {
            if j < e.bindings.len() {
                assert(e1.bindings[j] == e.bindings[j]);
            }
        }
        assert(resumes(e1, e));
        lemma_resolve_in_range(e1, e1.current, name);
        if e1.resolve(name) is Some {
            lemma_store_resumes(e1, e1.resolve(name)->0, v);
        }
    }
}

proof fn lemma_install_resumes(head: Node, e: EnvModel, v: Value)
    requires
        e.wf(),
    ensures
        resumes(install(head, e, v).0, e),
{
    match head {
        Node::Identifier(n) => {
            lemma_set_mutable_resumes(e, n@, v);
            lemma_declare_resumes(e, n@, true, true, VariableScope::Function, v);
        },
        Node::VarDeclList(l) => {
            lemma_set_mutable_resumes(e, l@[0].name@, v);
            lemma_declare_resumes(e, l@[0].name@, true, false, VariableScope::Function, v);
        },
        Node::LetDeclList(l) => lemma_declare_resumes(e, l@[0].name@, true, false, VariableScope::Block, v),
        Node::ConstDeclList(l) => lemma_declare_resumes(e, l@[0].name@, false, false, VariableScope::Block, v),
        _ => {},
    }
}

/// Every frame that executing a statement pushes is popped again, whatever
/// the statement completes with, a failure included: from a well-formed
/// environment the run ends in a well-formed one with the same frame current
/// and the frames that were there unchanged.
pub proof fn lemma_frames_balanced(node: Node, e: EnvModel)
    requires
        e.wf(),
    ensures
        resumes(run_node(node, e).0, e),
    decreases node, 0nat, 0nat,
{
    match node {
        Node::Assign(n, rhs) => lemma_set_mutable_resumes(e, n@, evaluate_value(*rhs, e)),
        Node::Sequence(a, b) => {
            lemma_frames_balanced(*a, e);
            lemma_frames_balanced(*b, run_node(*a, e).0);
        },
        Node::IfEquals(n, v, st) => lemma_frames_balanced(*st, e),
        Node::Capture(n) => {
            lemma_resolve_in_range(e, e.current, n@);
        },
        Node::ForOf(lp) => lemma_loop_frames_balanced(*lp, e),
        _ => {},
    }
}

spec fn evaluate_value(node: Node, e: EnvModel) -> Value {
    match crate::interpreter::evaluate(node, e) {
        Ok(v) => v,
        Err(_) => Value::Undefined,
    }
}

/// Every frame that running a loop pushes is popped again, whatever the loop
/// completes with.
pub proof fn lemma_loop_frames_balanced(lp: ForOfLoop, e: EnvModel)
    requires
        e.wf(),
    ensures
        resumes(run_loop(lp, e).0, e),
    decreases lp.body, 2nat, 0nat,
{
    match crate::interpreter::open_iterator(*lp.iterable, e) {
        Ok(it) => lemma_iterations_frames_balanced(lp, it, e, Value::Undefined),
        Err(_) => {},
    }
}

proof fn lemma_iterations_frames_balanced(lp: ForOfLoop, it: IterModel, e: EnvModel, result: Value)
    requires
        e.wf(),
    ensures
        resumes(run_iterations(lp, it, e, result).0, e),
    decreases lp.body, 1nat, it.values.len() - it.position,
{
    let e1 = e.push();
    lemma_push_wf(e);
    if it.position < it.values.len() {
        let (e2, installed) = install(*lp.variable, e1, it.values[it.position as int]);
        lemma_install_resumes(*lp.variable, e1, it.values[it.position as int]);
        assert(e2.frames[e1.current as int] == iteration_frame(e.current));
        if installed is Ok {
            let (e3, r) = run_node(*lp.body, e2);
            lemma_frames_balanced(*lp.body, e2);
            assert(e3.frames[e1.current as int] == iteration_frame(e.current));
            let e4 = e3.pop();
            assert(resumes(e4, e));
            match r {
                Ok(c) => match loop_step(lp.label, c, result) {
                    LoopStep::Next(v) => {
                        lemma_iterations_frames_balanced(lp, it.advance(), e4, v);
                    },
                    _ => {},
                },
                Err(_) => {},
            }
        }
    }
}

/// A `return` that the body of a loop completes with is never consumed: the
/// loop completes with the same `return`, with the frame it ran in current
/// again. Through a loop nested in a loop, the return reaches the routine.
pub proof fn lemma_return_is_relayed(lp: ForOfLoop, it: IterModel, e: EnvModel, result: Value, v: Value)
    requires
        e.wf(),
        it.position < it.values.len(),
        install(*lp.variable, e.push(), it.values[it.position as int]).1 is Ok,
        run_node(*lp.body, install(*lp.variable, e.push(), it.values[it.position as int]).0).1
            == Ok::<Completion, RuntimeError>(Completion::Return(v)),
    ensures
        run_iterations(lp, it, e, result).1 == Ok::<Completion, RuntimeError>(Completion::Return(v)),
        run_iterations(lp, it, e, result).0.current == e.current,
{
    lemma_iterations_frames_balanced(lp, it, e, result);
}

} // verus!
