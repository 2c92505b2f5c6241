use boa::environment::Environment;
use boa::interpreter::{interpret_completion, install_binding, labels_match, LoopStep};
use boa::iterator::ValueIterator;
use boa::node::{Completion, Declaration, ForOfLoop, Node};
use boa::value::{RuntimeError, Value, VariableScope};

fn s(x: &str) -> String {
    x.to_string()
}

fn decl_list(kind: &str, names: &[&str]) -> Node {
    let list: Vec<Declaration> = names.iter().map(|n| Declaration::new(s(n), None)).collect();
    match kind {
        "var" => Node::VarDeclList(list),
        "let" => Node::LetDeclList(list),
        _ => Node::ConstDeclList(list),
    }
}

fn array(xs: &[i64]) -> Node {
    Node::ArrayLiteral(xs.iter().map(|x| Value::Int(*x)).collect())
}

fn then(a: Node, b: Node) -> Node {
    Node::Sequence(Box::new(a), Box::new(b))
}

fn for_of(head: Node, source: Node, body: Node) -> Node {
    Node::ForOf(Box::new(ForOfLoop::new(head, source, body)))
}

fn labelled(label: &str, head: Node, source: Node, body: Node) -> Node {
    let mut lp = ForOfLoop::new(head, source, body);
    lp.set_label(s(label));
    Node::ForOf(Box::new(lp))
}

fn ints(xs: &[i64]) -> Vec<Value> {
    xs.iter().map(|x| Value::Int(*x)).collect()
}

#[test]
fn body_runs_once_per_value_in_fresh_frames() {
    let mut env = Environment::new();
    let prog = for_of(decl_list("let", &["x"]), array(&[1, 2, 3]), Node::Capture(s("x")));
    let r = prog.run(&mut env);
    assert!(matches!(r, Ok(Completion::Normal(Value::Undefined))));
    assert_eq!(env.captured_values().len(), 3);
    // one frame per value, and one for the call of `next` that reported done
    assert_eq!(env.frame_count(), 5);
    assert_eq!(env.current_frame(), 0);
    assert!(!env.has_binding(&s("x")));
}

#[test]
fn empty_iterable_runs_no_body() {
    let mut env = Environment::new();
    let prog = for_of(decl_list("let", &["x"]), array(&[]), Node::Capture(s("x")));
    let r = prog.run(&mut env);
    assert!(matches!(r, Ok(Completion::Normal(Value::Undefined))));
    assert_eq!(env.captured_values().len(), 0);
    assert_eq!(env.frame_count(), 2);
    assert_eq!(env.current_frame(), 0);
}

#[test]
fn let_bindings_are_distinct_per_iteration() {
    let mut env = Environment::new();
    let prog = for_of(decl_list("let", &["x"]), array(&[1, 2, 3]), Node::Capture(s("x")));
    assert!(prog.run(&mut env).is_ok());
    assert_eq!(env.captured_values(), ints(&[1, 2, 3]));
}

#[test]
fn var_binding_is_function_scoped_and_shared() {
    let mut env = Environment::new();
    let prog = for_of(decl_list("var", &["x"]), array(&[1, 2, 3]), Node::Capture(s("x")));
    assert!(prog.run(&mut env).is_ok());
    assert_eq!(env.captured_values(), ints(&[3, 3, 3]));
    assert_eq!(env.get_binding_value(&s("x")), Ok(Value::Int(3)));
}

#[test]
fn identifier_head_assigns_existing_binding() {
    let mut env = Environment::new();
    assert_eq!(env.create_mutable_binding(s("x"), true, VariableScope::Block), Ok(()));
    assert_eq!(env.initialize_binding(&s("x"), Value::Int(0)), Ok(()));
    let prog = for_of(Node::Identifier(s("x")), array(&[4, 5]), Node::Capture(s("x")));
    assert!(prog.run(&mut env).is_ok());
    assert_eq!(env.get_binding_value(&s("x")), Ok(Value::Int(5)));
    assert_eq!(env.captured_values(), ints(&[5, 5]));
}

#[test]
fn identifier_head_declares_missing_binding() {
    let mut env = Environment::new();
    let prog = for_of(Node::Identifier(s("y")), array(&[8, 9]), Node::Empty);
    assert!(prog.run(&mut env).is_ok());
    assert_eq!(env.get_binding_value(&s("y")), Ok(Value::Int(9)));
}

#[test]
fn const_binding_cannot_be_assigned() {
    let mut env = Environment::new();
    let body = then(
        Node::Assign(s("x"), Box::new(Node::Literal(Value::Int(2)))),
        Node::Capture(s("x")),
    );
    let prog = for_of(decl_list("const", &["x"]), array(&[1]), body);
    assert_eq!(prog.run(&mut env).err(), Some(RuntimeError::ImmutableMutation));
    assert_eq!(env.captured_values().len(), 0);
    assert_eq!(env.current_frame(), 0);
}

#[test]
fn pattern_head_fails_before_any_iteration() {
    let mut env = Environment::new();
    let prog = for_of(decl_list("let", &["a", "b"]), array(&[1, 2]), Node::Capture(s("a")));
    assert_eq!(prog.run(&mut env).err(), Some(RuntimeError::MultipleLoopVariables));
    assert_eq!(env.captured_values().len(), 0);
    assert_eq!(env.current_frame(), 0);
}

#[test]
fn initializer_in_head_fails_before_any_iteration() {
    let mut env = Environment::new();
    let head = Node::VarDeclList(vec![Declaration::new(s("x"), Some(Value::Int(1)))]);
    let prog = for_of(head, array(&[1, 2]), Node::Capture(s("x")));
    assert_eq!(prog.run(&mut env).err(), Some(RuntimeError::InitializerInLoopHead));
    assert_eq!(env.captured_values().len(), 0);
    assert_eq!(env.current_frame(), 0);
    assert!(!env.has_binding(&s("x")));
}

#[test]
fn other_head_shapes_fail() {
    let mut env = Environment::new();
    let assign = Node::Assign(s("x"), Box::new(Node::Literal(Value::Int(1))));
    let prog = for_of(assign, array(&[1]), Node::Empty);
    assert_eq!(prog.run(&mut env).err(), Some(RuntimeError::InitializerInLoopHead));
    let prog = for_of(Node::Literal(Value::Int(1)), array(&[1]), Node::Empty);
    assert_eq!(prog.run(&mut env).err(), Some(RuntimeError::UnknownLeftHandSide));
    let prog = for_of(decl_list("const", &[]), array(&[1]), Node::Empty);
    assert_eq!(prog.run(&mut env).err(), Some(RuntimeError::MultipleLoopVariables));
    assert_eq!(env.current_frame(), 0);
}

#[test]
fn labelled_continue_resumes_outer_loop() {
    let mut env = Environment::new();
    let inner_body = then(
        Node::IfEquals(s("y"), Value::Int(1), Box::new(Node::Continue(Some(s("outer"))))),
        Node::Capture(s("y")),
    );
    let inner = for_of(decl_list("let", &["y"]), array(&[1, 2]), inner_body);
    let prog = labelled("outer", decl_list("let", &["x"]), array(&[1, 2]), then(inner, Node::Capture(s("x"))));
    let r = prog.run(&mut env);
    assert!(matches!(r, Ok(Completion::Normal(_))));
    assert_eq!(env.captured_values().len(), 0);
    assert_eq!(env.current_frame(), 0);
}

#[test]
fn unlabelled_continue_affects_innermost_loop() {
    let mut env = Environment::new();
    let inner_body = then(
        Node::IfEquals(s("y"), Value::Int(1), Box::new(Node::Continue(None))),
        Node::Capture(s("y")),
    );
    let inner = for_of(decl_list("let", &["y"]), array(&[1, 2]), inner_body);
    let prog = labelled("outer", decl_list("let", &["x"]), array(&[1, 2]), then(inner, Node::Capture(s("x"))));
    assert!(prog.run(&mut env).is_ok());
    assert_eq!(env.captured_values(), ints(&[2, 1, 2, 2]));
    assert_eq!(env.current_frame(), 0);
}

#[test]
fn labelled_break_for_outer_loop_is_relayed() {
    let mut env = Environment::new();
    let inner = for_of(decl_list("let", &["y"]), array(&[1, 2]), Node::Break(Some(s("outer"))));
    let r = inner.run(&mut env);
    match r {
        Ok(Completion::Break(Some(l))) => assert_eq!(l, s("outer")),
        _ => panic!("expected the labelled break to be relayed"),
    }
    assert_eq!(env.current_frame(), 0);
    let prog = labelled(
        "outer",
        decl_list("let", &["x"]),
        array(&[1, 2]),
        then(Node::Capture(s("x")), for_of(decl_list("let", &["y"]), array(&[1, 2]), Node::Break(Some(s("outer"))))),
    );
    assert!(matches!(prog.run(&mut env), Ok(Completion::Normal(_))));
    assert_eq!(env.captured_values(), ints(&[1]));
}

#[test]
fn unlabelled_break_keeps_last_normal_value() {
    let mut env = Environment::new();
    let body = then(
        Node::IfEquals(s("x"), Value::Int(3), Box::new(Node::Break(None))),
        Node::Identifier(s("x")),
    );
    let prog = for_of(decl_list("let", &["x"]), array(&[1, 2, 3, 4]), body);
    assert!(matches!(prog.run(&mut env), Ok(Completion::Normal(Value::Int(2)))));
    assert_eq!(env.current_frame(), 0);
}

#[test]
fn result_is_value_of_last_body() {
    let mut env = Environment::new();
    let prog = for_of(decl_list("let", &["x"]), array(&[1, 2, 3]), Node::Identifier(s("x")));
    assert!(matches!(prog.run(&mut env), Ok(Completion::Normal(Value::Int(3)))));
}

#[test]
fn return_unwinds_nested_loops() {
    let mut env = Environment::new();
    let inner = for_of(
        decl_list("let", &["y"]),
        array(&[3, 4]),
        Node::Return(Box::new(Node::Identifier(s("y")))),
    );
    let prog = for_of(decl_list("let", &["x"]), array(&[1, 2]), inner);
    assert!(matches!(prog.run(&mut env), Ok(Completion::Return(Value::Int(3)))));
    assert_eq!(env.current_frame(), 0);
    assert_eq!(env.frame_count(), 3);
}

#[test]
fn failing_next_aborts_after_one_iteration() {
    let mut env = Environment::new();
    let source = Node::BrokenIterable(ints(&[1]));
    let prog = for_of(decl_list("let", &["x"]), source, Node::Capture(s("x")));
    assert_eq!(prog.run(&mut env).err(), Some(RuntimeError::IteratorFailure));
    assert_eq!(env.captured_values(), ints(&[1]));
    assert_eq!(env.current_frame(), 0);
    assert_eq!(env.frame_count(), 3);
}

#[test]
fn thrown_error_aborts_loop() {
    let mut env = Environment::new();
    let prog = for_of(decl_list("let", &["x"]), array(&[1, 2]), then(Node::Capture(s("x")), Node::Throw));
    assert_eq!(prog.run(&mut env).err(), Some(RuntimeError::Thrown));
    assert_eq!(env.captured_values(), ints(&[1]));
    assert_eq!(env.current_frame(), 0);
}

#[test]
fn source_errors_abort_before_any_frame() {
    let mut env = Environment::new();
    let prog = for_of(decl_list("let", &["x"]), Node::Literal(Value::Int(5)), Node::Empty);
    assert_eq!(prog.run(&mut env).err(), Some(RuntimeError::NotIterable));
    let prog = for_of(decl_list("let", &["x"]), Node::Identifier(s("nothing")), Node::Empty);
    assert_eq!(prog.run(&mut env).err(), Some(RuntimeError::Reference));
    assert_eq!(env.frame_count(), 1);
}

#[test]
fn completion_decisions() {
    let own = Some(s("a"));
    assert!(matches!(interpret_completion(&own, Completion::Normal(Value::Int(1)), Value::Int(0)), LoopStep::Next(Value::Int(1))));
    assert!(matches!(interpret_completion(&own, Completion::Break(None), Value::Int(7)), LoopStep::Finish(Value::Int(7))));
    assert!(matches!(interpret_completion(&own, Completion::Break(Some(s("a"))), Value::Int(7)), LoopStep::Finish(Value::Int(7))));
    assert!(matches!(interpret_completion(&own, Completion::Break(Some(s("b"))), Value::Int(7)), LoopStep::Propagate(Completion::Break(Some(_)))));
    assert!(matches!(interpret_completion(&own, Completion::Continue(None), Value::Int(7)), LoopStep::Next(Value::Int(7))));
    assert!(matches!(interpret_completion(&None, Completion::Continue(Some(s("a"))), Value::Int(7)), LoopStep::Propagate(Completion::Continue(Some(_)))));
    assert!(matches!(interpret_completion(&own, Completion::Return(Value::Int(2)), Value::Int(7)), LoopStep::Propagate(Completion::Return(Value::Int(2)))));
    assert!(labels_match(&None, &None));
    assert!(!labels_match(&None, &Some(s("a"))));
    assert!(labels_match(&own, &Some(s("a"))));
    assert!(!labels_match(&own, &Some(s("b"))));
}

#[test]
fn environment_operations() {
    let mut env = Environment::new();
    assert_eq!(env.create_immutable_binding(s("c"), false, VariableScope::Block), Ok(()));
    assert_eq!(env.create_mutable_binding(s("c"), false, VariableScope::Function), Err(RuntimeError::Redeclaration));
    assert_eq!(env.get_binding_value(&s("c")), Err(RuntimeError::Reference));
    assert_eq!(env.set_mutable_binding(&s("c"), Value::Int(1)), Err(RuntimeError::Reference));
    assert_eq!(env.initialize_binding(&s("c"), Value::Int(1)), Ok(()));
    assert_eq!(env.set_mutable_binding(&s("c"), Value::Int(2)), Err(RuntimeError::ImmutableMutation));
    assert_eq!(env.initialize_binding(&s("d"), Value::Int(1)), Err(RuntimeError::Reference));
    env.push();
    assert_eq!(env.current_frame(), 1);
    // a function-scoped declaration from a block frame lands in the root frame
    assert_eq!(env.create_mutable_binding(s("v"), false, VariableScope::Function), Ok(()));
    assert_eq!(env.initialize_binding(&s("v"), Value::Int(4)), Ok(()));
    assert_eq!(env.create_mutable_binding(s("c"), false, VariableScope::Block), Ok(()));
    env.pop();
    assert_eq!(env.current_frame(), 0);
    assert_eq!(env.get_binding_value(&s("v")), Ok(Value::Int(4)));
    assert_eq!(env.get_binding_value(&s("c")), Ok(Value::Int(1)));
    assert_eq!(env.capture(&s("zz")), Err(RuntimeError::Reference));
}

#[test]
fn install_binding_directly() {
    let mut env = Environment::new();
    env.push();
    assert_eq!(install_binding(&decl_list("let", &["x"]), &mut env, Value::Int(1)), Ok(()));
    assert_eq!(install_binding(&decl_list("let", &["x"]), &mut env, Value::Int(2)), Err(RuntimeError::Redeclaration));
    assert_eq!(env.get_binding_value(&s("x")), Ok(Value::Int(1)));
}

#[test]
fn iterator_protocol() {
    let mut it = ValueIterator::new(ints(&[1]), false);
    let a = it.next().unwrap();
    assert!(!a.done);
    assert_eq!(a.value, Value::Int(1));
    assert!(it.next().unwrap().done);
    assert!(it.next().unwrap().done);
    let mut broken = ValueIterator::new(ints(&[]), true);
    assert_eq!(broken.next(), Err(RuntimeError::IteratorFailure));
}

#[test]
fn loop_accessors() {
    let mut lp = ForOfLoop::new(Node::Identifier(s("x")), array(&[1]), Node::Empty);
    assert_eq!(lp.label(), None);
    assert!(matches!(lp.variable(), Node::Identifier(n) if n == "x"));
    assert!(matches!(lp.iterable(), Node::ArrayLiteral(v) if v.len() == 1));
    assert!(matches!(lp.body(), Node::Empty));
    lp.set_label(s("outer"));
    assert_eq!(lp.label(), Some("outer"));
}

#[test]
fn display_labelled_loop() {
    let body = then(
        Node::Capture(s("x")),
        Node::IfEquals(s("x"), Value::Int(1), Box::new(Node::Continue(Some(s("outer"))))),
    );
    let mut lp = ForOfLoop::new(decl_list("let", &["x"]), array(&[1, -2, 30]), body);
    lp.set_label(s("outer"));
    assert_eq!(lp.display(), "outer: for (let x of [1, -2, 30]) { () => x if (x === 1) continue outer; }");
}

#[test]
fn display_unlabelled_loop() {
    let lp = ForOfLoop::new(Node::Identifier(s("x")), Node::ArrayLiteral(vec![Value::Undefined]), Node::Empty);
    assert_eq!(lp.display(), "for (x of [undefined]) ;");
    let nested = ForOfLoop::new(
        decl_list("const", &["a"]),
        Node::BrokenIterable(ints(&[])),
        for_of(decl_list("var", &["b"]), array(&[7]), Node::Return(Box::new(Node::Identifier(s("b"))))),
    );
    assert_eq!(nested.display(), "for (const a of broken []) for (var b of [7]) return b;");
}

#[test]
fn node_text() {
    let head = Node::VarDeclList(vec![
        Declaration::new(s("x"), Some(Value::Int(1))),
        Declaration::new(s("y"), None),
    ]);
    assert_eq!(head.to_text(), "var x = 1, y");
    assert_eq!(Node::Literal(Value::Int(i64::MIN)).to_text(), "-9223372036854775808");
    assert_eq!(Node::Literal(Value::Int(0)).to_text(), "0");
    assert_eq!(Node::Break(None).to_text(), "break;");
    assert_eq!(Node::Throw.to_text(), "throw undefined;");
    assert_eq!(Node::Assign(s("z"), Box::new(Node::Literal(Value::Int(42)))).to_text(), "z = 42");
}
