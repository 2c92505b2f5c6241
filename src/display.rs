use vstd::prelude::*;
use vstd::string::StringExecFns;
use crate::node::{Declaration, ForOfLoop, Node};
use crate::value::Value;

verus! {

/// The text of a decimal digit.
pub open spec fn digit_text(d: nat) -> Seq<char> {
    if d == 0 { "0"@ } else if d == 1 { "1"@ } else if d == 2 { "2"@ } else if d == 3 { "3"@ }
    else if d == 4 { "4"@ } else if d == 5 { "5"@ } else if d == 6 { "6"@ } else if d == 7 { "7"@ }
    else if d == 8 { "8"@ } else { "9"@ }
}

/// The decimal text of a natural number, without leading zeros.
pub open spec fn decimal(n: nat) -> Seq<char>
    decreases n,
{
    if n < 10 {
        digit_text(n)
    } else {
        decimal(n / 10) + digit_text(n % 10)
    }
}

/// The source text of a value.
pub open spec fn value_text(v: Value) -> Seq<char> {
    match v {
        Value::Undefined => "undefined"@,
        Value::Int(n) => if n < 0 {
            "-"@ + decimal((-n) as nat)
        } else {
            decimal(n as nat)
        },
    }
}

/// Values separated by `, `.
pub open spec fn values_text(vs: Seq<Value>) -> Seq<char>
    decreases vs.len(),
{
    if vs.len() == 0 {
        Seq::empty()
    } else if vs.len() == 1 {
        value_text(vs[0])
    } else {
        values_text(vs.drop_last()) + ", "@ + value_text(vs.last())
    }
}

/// A declaration: its name, and ` = ` and the initializer if it has one.
pub open spec fn declaration_text(d: Declaration) -> Seq<char> {
    match d.init {
        Some(v) => d.name@ + " = "@ + value_text(v),
        None => d.name@,
    }
}

/// Declarations separated by `, `.
pub open spec fn declarations_text(ds: Seq<Declaration>) -> Seq<char>
    decreases ds.len(),
{
    if ds.len() == 0 {
        Seq::empty()
    } else if ds.len() == 1 {
        declaration_text(ds[0])
    } else {
        declarations_text(ds.drop_last()) + ", "@ + declaration_text(ds.last())
    }
}

/// ` label` where there is one.
pub open spec fn target_text(l: Option<String>) -> Seq<char> {
    match l {
        Some(s) => " "@ + s@,
        None => Seq::empty(),
    }
}

/// The source text of a node.
pub open spec fn render(node: Node) -> Seq<char>
    decreases node, 0nat,
{
    match node {
        Node::Empty => ";"@,
        Node::Literal(v) => value_text(v),
        Node::Identifier(n) => n@,
        Node::VarDeclList(l) => "var "@ + declarations_text(l@),
        Node::LetDeclList(l) => "let "@ + declarations_text(l@),
        Node::ConstDeclList(l) => "const "@ + declarations_text(l@),
        Node::Assign(n, e) => n@ + " = "@ + render(*e),
        Node::ArrayLiteral(vs) => "["@ + values_text(vs@) + "]"@,
        Node::BrokenIterable(vs) => "broken ["@ + values_text(vs@) + "]"@,
        Node::Sequence(a, b) => "{ "@ + render(*a) + " "@ + render(*b) + " }"@,
        Node::IfEquals(n, v, s) => "if ("@ + n@ + " === "@ + value_text(v) + ") "@ + render(*s),
        Node::Break(l) => "break"@ + target_text(l) + ";"@,
        Node::Continue(l) => "continue"@ + target_text(l) + ";"@,
        Node::Return(e) => "return "@ + render(*e) + ";"@,
        Node::Capture(n) => "() => "@ + n@,
        Node::Throw => "throw undefined;"@,
        Node::ForOf(lp) => render_loop(*lp),
    }
}

/// The source text of a loop: `label: for (variable of iterable) body`.
pub open spec fn render_loop(lp: ForOfLoop) -> Seq<char>
    decreases lp, 1nat,
{
    let prefix = match lp.label {
        Some(l) => l@ + ": "@,
        None => Seq::empty(),
    };
    prefix + "for ("@ + render(*lp.variable) + " of "@ + render(*lp.iterable) + ") "@ + render(*lp.body)
}

fn push_digit(out: &mut String, d: u64)
    requires
        d < 10,
    ensures
        final(out)@ == old(out)@ + digit_text(d as nat),
{
    if d == 0 { out.append("0") } else if d == 1 { out.append("1") } else if d == 2 { out.append("2") }
    else if d == 3 { out.append("3") } else if d == 4 { out.append("4") } else if d == 5 { out.append("5") }
    else if d == 6 { out.append("6") } else if d == 7 { out.append("7") } else if d == 8 { out.append("8") }
    else { out.append("9") }
}

fn push_decimal(out: &mut String, n: u64)
    ensures
        final(out)@ == old(out)@ + decimal(n as nat),
    decreases n,
{
    if n < 10 {
        push_digit(out, n);
    } else {
        push_decimal(out, n / 10);
        push_digit(out, n % 10);
        proof {
            assert(final(out)@ =~= old(out)@ + decimal(n as nat));
        }
    }
}

fn push_value(out: &mut String, v: Value)
    ensures
        final(out)@ == old(out)@ + value_text(v),
{
    match v {
        Value::Undefined => out.append("undefined"),
        Value::Int(n) => {
            if n < 0 {
                out.append("-");
                let m: u64 = (-(n as i128)) as u64;
                push_decimal(out, m);
                proof {
                    assert(final(out)@ =~= old(out)@ + value_text(v));
                }
            } else {
                push_decimal(out, n as u64);
            }
        },
    }
}

fn push_values(out: &mut String, vs: &Vec<Value>)
    ensures
        final(out)@ == old(out)@ + values_text(vs@),
{
    let ghost start = out@;
    let mut i: usize = 0;
    while i < vs.len()
        invariant
            i <= vs.len(),
            out@ == start + values_text(vs@.take(i as int)),
        decreases vs.len() - i,
    {
        proof {
            assert(vs@.take(i as int + 1).drop_last() =~= vs@.take(i as int));
        }
        if i > 0 {
            out.append(", ");
        }
        push_value(out, vs[i]);
        i = i + 1;
        proof {
            assert(out@ =~= start + values_text(vs@.take(i as int)));
        }
    }
    proof {
        assert(vs@.take(i as int) =~= vs@);
    }
}

fn push_declarations(out: &mut String, ds: &Vec<Declaration>)
    ensures
        final(out)@ == old(out)@ + declarations_text(ds@),
{
    let ghost start = out@;
    let mut i: usize = 0;
    while i < ds.len()
        invariant
            i <= ds.len(),
            out@ == start + declarations_text(ds@.take(i as int)),
        decreases ds.len() - i,
    {
        proof {
            assert(ds@.take(i as int + 1).drop_last() =~= ds@.take(i as int));
        }
        if i > 0 {
            out.append(", ");
        }
        let d = &ds[i];
        out.append(d.name.as_str());
        match d.init {
            Some(v) => {
                out.append(" = ");
                push_value(out, v);
            },
            None => {},
        }
        i = i + 1;
        proof {
            assert(out@ =~= start + declarations_text(ds@.take(i as int)));
        }
    }
    proof {
        assert(ds@.take(i as int) =~= ds@);
    }
}

fn push_target(out: &mut String, l: &Option<String>)
    ensures
        final(out)@ == old(out)@ + target_text(*l),
{
    match l {
        Some(s) => {
            out.append(" ");
            out.append(s.as_str());
        },
        None => {},
    }
}

impl Node {
    fn push_text(&self, out: &mut String)
        ensures
            final(out)@ == old(out)@ + render(*self),
        decreases *self, 0nat,
    {
        let ghost start = out@;
        match self {
            Node::Empty => out.append(";"),
            Node::Literal(v) => push_value(out, *v),
            Node::Identifier(n) => out.append(n.as_str()),
            Node::VarDeclList(l) => {
                out.append("var ");
                push_declarations(out, l);
            },
            Node::LetDeclList(l) => {
                out.append("let ");
                push_declarations(out, l);
            },
            Node::ConstDeclList(l) => {
                out.append("const ");
                push_declarations(out, l);
            },
            Node::Assign(n, e) => {
                out.append(n.as_str());
                out.append(" = ");
                e.push_text(out);
            },
            Node::ArrayLiteral(vs) => {
                out.append("[");
                push_values(out, vs);
                out.append("]");
            },
            Node::BrokenIterable(vs) => {
                out.append("broken [");
                push_values(out, vs);
                out.append("]");
            },
            Node::Sequence(a, b) => {
                out.append("{ ");
                a.push_text(out);
                out.append(" ");
                b.push_text(out);
                out.append(" }");
            },
            Node::IfEquals(n, v, s) => {
                out.append("if (");
                out.append(n.as_str());
                out.append(" === ");
                push_value(out, *v);
                out.append(") ");
                s.push_text(out);
            },
            Node::Break(l) => {
                out.append("break");
                push_target(out, l);
                out.append(";");
            },
            Node::Continue(l) => {
                out.append("continue");
                push_target(out, l);
                out.append(";");
            },
            Node::Return(e) => {
                out.append("return ");
                e.push_text(out);
                out.append(";");
            },
            Node::Capture(n) => {
                out.append("() => ");
                out.append(n.as_str());
            },
            Node::Throw => out.append("throw undefined;"),
            Node::ForOf(lp) => lp.push_text(out),
        }
        proof {
            assert(out@ =~= start + render(*self));
        }
    }

    /// The source text of the node.
    pub fn to_text(&self) -> (r: String)
        ensures
            r@ == render(*self),
    {
        let mut out = String::new();
        self.push_text(&mut out);
        proof {
            assert(out@ =~= render(*self));
        }
        out
    }
}

impl ForOfLoop {
    fn push_text(&self, out: &mut String)
        ensures
            final(out)@ == old(out)@ + render_loop(*self),
        decreases *self, 1nat,
    {
        let ghost start = out@;
        match &self.label {
            Some(l) => {
                out.append(l.as_str());
                out.append(": ");
            },
            None => {},
        }
        out.append("for (");
        self.variable.push_text(out);
        out.append(" of ");
        self.iterable.push_text(out);
        out.append(") ");
        self.body.push_text(out);
        proof {
            assert(out@ =~= start + render_loop(*self));
        }
    }

    /// The source text of the loop: `label: for (variable of iterable) body`,
    /// without the label where it has none.
    pub fn display(&self) -> (r: String)
        ensures
            r@ == render_loop(*self),
    {
        let mut out = String::new();
        self.push_text(&mut out);
        proof {
            assert(out@ =~= render_loop(*self));
        }
        out
    }
}

} // verus!
