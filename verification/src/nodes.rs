//! The syntax tree.

use vstd::prelude::*;
use vstd::string::StringExecFns;
use crate::text::{push_char, tabs};
use crate::tokens::{Token, TT};

verus! {

/// The texts of a sequence of strings.
pub open spec fn texts(v: Seq<String>) -> Seq<Seq<char>> {
    Seq::new(v.len(), |i: int| v[i]@)
}

/// A node of the syntax tree. A node owns its children.
#[derive(Debug, PartialEq)]
pub enum Node {
    Program(Box<Node>),
    Number(String),
    List(Vec<Box<Node>>),
    String(String),
    Node(Box<Node>),
    VarAssign(String, Box<Node>),
    FuncAssign { name: String, params: Vec<String>, body: Box<Node> },
    VarAccess(String),
    Pipe(Box<Node>, Box<Node>),
    If { condition: Box<Node>, body: Box<Node>, else_body: Option<Box<Node>> },
    While { condition: Box<Node>, code: Box<Node> },
    BinOp(Box<Node>, TT, Box<Node>),
    UnOp(TT, Box<Node>),
    FunctionCall(Box<Node>, Vec<Node>),
    MultiStatement(Vec<Node>),
    StructCreate { name: String, fields: Vec<String> },
    VarDottedAccess { left: Box<Node>, ident: String },
}

/// The syntax tree as a mathematical value: texts are sequences of
/// characters, children are sequences of trees.
pub ghost enum Ast {
    Program(Box<Ast>),
    Number(Seq<char>),
    List(Seq<Ast>),
    Str(Seq<char>),
    Quote(Box<Ast>),
    VarAssign(Seq<char>, Box<Ast>),
    FuncAssign { name: Seq<char>, params: Seq<Seq<char>>, body: Box<Ast> },
    VarAccess(Seq<char>),
    Pipe(Box<Ast>, Box<Ast>),
    If { condition: Box<Ast>, body: Box<Ast>, else_body: Option<Box<Ast>> },
    While { condition: Box<Ast>, code: Box<Ast> },
    BinOp(Box<Ast>, Token, Box<Ast>),
    UnOp(Token, Box<Ast>),
    FunctionCall(Box<Ast>, Seq<Ast>),
    MultiStatement(Seq<Ast>),
    StructCreate { name: Seq<char>, fields: Seq<Seq<char>> },
    VarDottedAccess { left: Box<Ast>, ident: Seq<char> },
}

/// The trees of a sequence of nodes.
pub open spec fn asts(v: Seq<Node>) -> Seq<Ast>
    decreases v,
{
    Seq::new(v.len(), |i: int| if 0 <= i < v.len() { ast_of(v[i]) } else { Ast::Number(Seq::empty()) })
}

/// The trees of a sequence of boxed nodes.
pub open spec fn boxed_asts(v: Seq<Box<Node>>) -> Seq<Ast>
    decreases v,
{
    Seq::new(v.len(), |i: int| if 0 <= i < v.len() { ast_of(*v[i]) } else { Ast::Number(Seq::empty()) })
}

/// The tree that a node stands for.
pub open spec fn ast_of(n: Node) -> Ast
    decreases n,
{
    match n {
        Node::Program(p) => Ast::Program(Box::new(ast_of(*p))),
        Node::Number(s) => Ast::Number(s@),
        Node::List(items) => Ast::List(boxed_asts(items@)),
        Node::String(s) => Ast::Str(s@),
        Node::Node(inner) => Ast::Quote(Box::new(ast_of(*inner))),
        Node::VarAssign(name, value) => Ast::VarAssign(name@, Box::new(ast_of(*value))),
        Node::FuncAssign { name, params, body } => Ast::FuncAssign {
            name: name@,
            params: texts(params@),
            body: Box::new(ast_of(*body)),
        },
        Node::VarAccess(name) => Ast::VarAccess(name@),
        Node::Pipe(left, right) => Ast::Pipe(Box::new(ast_of(*left)), Box::new(ast_of(*right))),
        Node::If { condition, body, else_body } => Ast::If {
            condition: Box::new(ast_of(*condition)),
            body: Box::new(ast_of(*body)),
            else_body: match else_body {
                Some(e) => Some(Box::new(ast_of(*e))),
                None => None,
            },
        },
        Node::While { condition, code } => Ast::While {
            condition: Box::new(ast_of(*condition)),
            code: Box::new(ast_of(*code)),
        },
        Node::BinOp(left, op, right) => Ast::BinOp(
            Box::new(ast_of(*left)),
            op@,
            Box::new(ast_of(*right)),
        ),
        Node::UnOp(op, right) => Ast::UnOp(op@, Box::new(ast_of(*right))),
        Node::FunctionCall(callee, args) => Ast::FunctionCall(
            Box::new(ast_of(*callee)),
            asts(args@),
        ),
        Node::MultiStatement(stmts) => Ast::MultiStatement(asts(stmts@)),
        Node::StructCreate { name, fields } => Ast::StructCreate { name: name@, fields: texts(fields@) },
        Node::VarDottedAccess { left, ident } => Ast::VarDottedAccess {
            left: Box::new(ast_of(*left)),
            ident: ident@,
        },
    }
}

impl View for Node {
    type V = Ast;

    open spec fn view(&self) -> Ast {
        ast_of(*self)
    }
}

/// A copy of a list of names.
pub fn clone_names(v: &Vec<String>) -> (r: Vec<String>)
    ensures
        texts(r@) == texts(v@),
{
    let mut out: Vec<String> = Vec::new();
    let mut i: usize = 0;
    while i < v.len()
        invariant
            i <= v.len(),
            out@.len() == i,
            forall|j: int| 0 <= j < i ==> out@[j]@ == v@[j]@,
        decreases v.len() - i,
    {
        out.push(v[i].clone());
        i += 1;
    }
    assert(texts(out@) =~= texts(v@));
    out
}

/// A deep copy of a list of nodes.
pub fn clone_nodes(v: &Vec<Node>) -> (r: Vec<Node>)
    ensures
        asts(r@) == asts(v@),
    decreases v,
{
    let mut out: Vec<Node> = Vec::new();
    let mut i: usize = 0;
    while i < v.len()
        invariant
            i <= v.len(),
            out@.len() == i,
            forall|j: int| 0 <= j < i ==> out@[j]@ == v@[j]@,
        decreases v.len() - i,
    {
        assert(decreases_to!(v => v[i as int]));
        out.push(v[i].clone());
        i += 1;
    }
    assert(asts(out@) =~= asts(v@));
    out
}

/// A deep copy of a list of boxed nodes.
pub fn clone_boxed_nodes(v: &Vec<Box<Node>>) -> (r: Vec<Box<Node>>)
    ensures
        boxed_asts(r@) == boxed_asts(v@),
    decreases v,
{
    let mut out: Vec<Box<Node>> = Vec::new();
    let mut i: usize = 0;
    while i < v.len()
        invariant
            i <= v.len(),
            out@.len() == i,
            forall|j: int| 0 <= j < i ==> out@[j]@ == v@[j]@,
        decreases v.len() - i,
    {
        assert(decreases_to!(v => v[i as int]));
        out.push(Box::new(Node::clone(&v[i])));
        i += 1;
    }
    assert(boxed_asts(out@) =~= boxed_asts(v@));
    out
}

impl Clone for Node {
    /// A deep copy: the same tree in fresh storage.
    fn clone(&self) -> (r: Self)
        ensures
            r@ == self@,
        decreases self,
    {
        match self {
            Node::Program(p) => Node::Program(Box::new(Node::clone(p))),
            Node::Number(s) => Node::Number(s.clone()),
            Node::List(items) => Node::List(clone_boxed_nodes(items)),
            Node::String(s) => Node::String(s.clone()),
            Node::Node(inner) => Node::Node(Box::new(Node::clone(inner))),
            Node::VarAssign(name, value) => Node::VarAssign(name.clone(), Box::new(Node::clone(value))),
            Node::FuncAssign { name, params, body } => Node::FuncAssign {
                name: name.clone(),
                params: clone_names(params),
                body: Box::new(Node::clone(body)),
            },
            Node::VarAccess(name) => Node::VarAccess(name.clone()),
            Node::Pipe(left, right) => Node::Pipe(Box::new(Node::clone(left)), Box::new(Node::clone(right))),
            Node::If { condition, body, else_body } => Node::If {
                condition: Box::new(Node::clone(condition)),
                body: Box::new(Node::clone(body)),
                else_body: match else_body {
                    Some(e) => Some(Box::new(Node::clone(e))),
                    None => None,
                },
            },
            Node::While { condition, code } => Node::While {
                condition: Box::new(Node::clone(condition)),
                code: Box::new(Node::clone(code)),
            },
            Node::BinOp(left, op, right) => Node::BinOp(
                Box::new(Node::clone(left)),
                op.clone(),
                Box::new(Node::clone(right)),
            ),
            Node::UnOp(op, right) => Node::UnOp(op.clone(), Box::new(Node::clone(right))),
            Node::FunctionCall(callee, args) => Node::FunctionCall(
                Box::new(Node::clone(callee)),
                clone_nodes(args),
            ),
            Node::MultiStatement(stmts) => Node::MultiStatement(clone_nodes(stmts)),
            Node::StructCreate { name, fields } => Node::StructCreate {
                name: name.clone(),
                fields: clone_names(fields),
            },
            Node::VarDottedAccess { left, ident } => Node::VarDottedAccess {
                left: Box::new(Node::clone(left)),
                ident: ident.clone(),
            },
        }
    }
}

/// Whether each tree of a sequence has a printed form.
pub open spec fn all_printable(items: Seq<Ast>) -> bool
    decreases items,
{
    forall|i: int| 0 <= i < items.len() ==> printable(#[trigger] items[i])
}

/// Whether a tree has a printed form: it holds neither a struct
/// definition nor a dotted access.
pub open spec fn printable(a: Ast) -> bool
    decreases a,
{
    match a {
        Ast::Program(p) => printable(*p),
        Ast::Number(_) => true,
        Ast::List(items) => all_printable(items),
        Ast::Str(_) => true,
        Ast::Quote(inner) => printable(*inner),
        Ast::VarAssign(_, value) => printable(*value),
        Ast::FuncAssign { name, params, body } => printable(*body),
        Ast::VarAccess(_) => true,
        Ast::Pipe(left, right) => printable(*left) && printable(*right),
        Ast::If { condition, body, else_body } => printable(*condition) && printable(*body) && (match else_body {
            Some(e) => printable(*e),
            None => true,
        }),
        Ast::While { condition, code } => printable(*condition) && printable(*code),
        Ast::BinOp(left, _, right) => printable(*left) && printable(*right),
        Ast::UnOp(_, right) => printable(*right),
        Ast::FunctionCall(callee, args) => printable(*callee) && all_printable(args),
        Ast::MultiStatement(stmts) => all_printable(stmts),
        Ast::StructCreate { .. } => false,
        Ast::VarDottedAccess { .. } => false,
    }
}

/// `prefix` followed by each of the first `n` names and a separator.
pub open spec fn names_after(prefix: Seq<char>, names: Seq<Seq<char>>, n: nat) -> Seq<char>
    decreases n,
{
    if n == 0 {
        prefix
    } else {
        names_after(prefix, names, (n - 1) as nat) + names[n - 1] + ", "@
    }
}

/// `prefix` followed by one line for each of the first `n` trees: the
/// tree's printed form at depth `indent`, after `indent` tabs and before
/// `end`.
pub open spec fn lines_after(prefix: Seq<char>, items: Seq<Ast>, indent: nat, end: Seq<char>, n: nat) -> Seq<char>
    decreases items, n,
{
    if n == 0 || n > items.len() {
        prefix
    } else {
        lines_after(prefix, items, indent, end, (n - 1) as nat) + tabs(indent) + repr_text(
            items[n - 1],
            indent,
        ) + end
    }
}

/// The printed form of a tree at depth `indent`: a tag, then the parts of
/// the node, nested parts indented by tabs. It is defined for the trees
/// that have a printed form.
pub open spec fn repr_text(a: Ast, indent: nat) -> Seq<char>
    decreases a, 0nat,
{
    match a {
        Ast::Quote(inner) => "Node("@ + repr_text(*inner, indent + 1) + ")"@,
        Ast::UnOp(op, right) => "UnOp("@ + tabs(indent + 1) + op.display() + "\n"@ + tabs(indent + 1)
            + repr_text(*right, indent + 1) + "\n"@ + tabs(indent) + ")"@,
        Ast::While { condition, code } => "While("@ + tabs(indent + 1) + repr_text(*condition, indent + 1)
            + "\n"@ + tabs(indent + 1) + repr_text(*code, indent + 1) + ")"@,
        Ast::BinOp(left, op, right) => "BinOp("@ + "\n"@ + tabs(indent + 1) + repr_text(*left, indent + 1)
            + "\n"@ + tabs(indent + 1) + op.display() + "\n"@ + tabs(indent + 1) + repr_text(
            *right,
            indent + 1,
        ) + "\n"@ + tabs(indent) + ")"@,
        Ast::VarAccess(name) => "VarAccess("@ + name + ")"@,
        Ast::FuncAssign { name, params, body } => names_after(
            "FuncAssign(\n"@ + name + "("@,
            params,
            params.len(),
        ) + ")"@ + "\n"@ + tabs(indent + 1) + repr_text(*body, indent + 1) + tabs(indent) + ")"@,
        Ast::Pipe(left, right) => "Pipe("@ + "\n"@ + tabs(indent + 1) + repr_text(*left, indent + 1)
            + "\n"@ + tabs(indent + 1) + "|"@ + "\n"@ + tabs(indent + 1) + repr_text(*right, indent + 1)
            + "\n"@ + tabs(indent) + ")"@,
        Ast::VarAssign(name, value) => "VarAssign("@ + "\n"@ + tabs(indent + 1) + name + "\n"@ + tabs(
            indent + 1,
        ) + repr_text(*value, indent + 1),
        Ast::FunctionCall(callee, args) => lines_after(
            "Call("@ + repr_text(*callee, 0) + "(\n"@,
            args,
            indent + 2,
            "\n"@,
            args.len(),
        ) + tabs(indent + 1) + ")\n"@ + tabs(indent) + ")"@,
        Ast::MultiStatement(stmts) => lines_after(
            "MultiStatement("@ + "\n"@,
            stmts,
            indent + 1,
            "\n"@,
            stmts.len(),
        ) + tabs(indent) + ")"@,
        Ast::Str(s) => "String("@ + s + ")"@,
        Ast::Number(x) => "Number("@ + x + ")"@,
        Ast::Program(p) => "Program("@ + "\n"@ + tabs(indent + 1) + repr_text(*p, indent + 1) + "\n"@
            + tabs(indent) + ")"@,
        Ast::If { condition, body, else_body } => {
            let head = "If(\n"@ + tabs(indent + 1) + "Condition(\n"@ + repr_text(*condition, indent + 2)
                + tabs(indent + 1) + ")"@ + tabs(indent + 1) + "Body(\n"@ + repr_text(*body, indent + 2)
                + tabs(indent + 1) + ")"@;
            match else_body {
                Some(e) => head + tabs(indent + 1) + "Else(\n"@ + repr_text(*e, indent + 2) + tabs(
                    indent + 1,
                ) + ")"@ + tabs(indent) + ")"@,
                None => head + tabs(indent) + ")"@,
            }
        },
        Ast::List(items) => lines_after("List(\n"@, items, indent + 1, ",\n"@, items.len()) + tabs(
            indent,
        ) + ")"@,
        Ast::StructCreate { .. } => Seq::empty(),
        Ast::VarDottedAccess { .. } => Seq::empty(),
    }
}

fn deeper(pad: &String, Ghost(indent): Ghost<nat>) -> (r: String)
    requires
        pad@ == tabs(indent),
    ensures
        r@ == tabs(indent + 1),
{
    let mut out = pad.clone();
    push_char(&mut out, '\t');
    assert(out@ =~= tabs(indent + 1));
    out
}

fn nodes_printable(v: &Vec<Node>) -> (r: bool)
    ensures
        r == all_printable(asts(v@)),
    decreases v,
{
    let mut i: usize = 0;
    while i < v.len()
        invariant
            i <= v.len(),
            forall|j: int| 0 <= j < i ==> printable(#[trigger] asts(v@)[j]),
        decreases v.len() - i,
    {
        assert(decreases_to!(v => v[i as int]));
        if !v[i].is_printable() {
            assert(!printable(asts(v@)[i as int]));
            return false;
        }
        i += 1;
    }
    true
}

fn boxed_nodes_printable(v: &Vec<Box<Node>>) -> (r: bool)
    ensures
        r == all_printable(boxed_asts(v@)),
    decreases v,
{
    let mut i: usize = 0;
    while i < v.len()
        invariant
            i <= v.len(),
            forall|j: int| 0 <= j < i ==> printable(#[trigger] boxed_asts(v@)[j]),
        decreases v.len() - i,
    {
        assert(decreases_to!(v => v[i as int]));
        if !Node::is_printable(&v[i]) {
            assert(!printable(boxed_asts(v@)[i as int]));
            return false;
        }
        i += 1;
    }
    true
}

fn render_names(text: &mut String, names: &Vec<String>)
    ensures
        final(text)@ == names_after(old(text)@, texts(names@), names@.len()),
{
    let mut i: usize = 0;
    while i < names.len()
        invariant
            i <= names.len(),
            text@ == names_after(old(text)@, texts(names@), i as nat),
        decreases names.len() - i,
    {
        text.append(names[i].as_str());
        text.append(", ");
        i += 1;
    }
}

fn render_lines(text: &mut String, items: &Vec<Node>, pad: &String, end: &str, Ghost(indent): Ghost<nat>)
    requires
        pad@ == tabs(indent),
        all_printable(asts(items@)),
    ensures
        final(text)@ == lines_after(old(text)@, asts(items@), indent, end@, items@.len()),
    decreases items,
{
    let mut i: usize = 0;
    while i < items.len()
        invariant
            i <= items.len(),
            pad@ == tabs(indent),
            all_printable(asts(items@)),
            text@ == lines_after(old(text)@, asts(items@), indent, end@, i as nat),
        decreases items.len() - i,
    {
        assert(decreases_to!(items => items[i as int]));
        assert(printable(asts(items@)[i as int]));
        text.append(pad.as_str());
        let line = items[i].render(pad, Ghost(indent));
        text.append(line.as_str());
        text.append(end);
        i += 1;
    }
}

fn render_boxed_lines(text: &mut String, items: &Vec<Box<Node>>, pad: &String, end: &str, Ghost(indent): Ghost<nat>)
    requires
        pad@ == tabs(indent),
        all_printable(boxed_asts(items@)),
    ensures
        final(text)@ == lines_after(old(text)@, boxed_asts(items@), indent, end@, items@.len()),
    decreases items,
{
    let mut i: usize = 0;
    while i < items.len()
        invariant
            i <= items.len(),
            pad@ == tabs(indent),
            all_printable(boxed_asts(items@)),
            text@ == lines_after(old(text)@, boxed_asts(items@), indent, end@, i as nat),
        decreases items.len() - i,
    {
        assert(decreases_to!(items => items[i as int]));
        assert(printable(boxed_asts(items@)[i as int]));
        text.append(pad.as_str());
        let line = Node::render(&items[i], pad, Ghost(indent));
        text.append(line.as_str());
        text.append(end);
        i += 1;
    }
}

impl Node {
    /// Whether the node has a printed form.
    pub fn is_printable(&self) -> (r: bool)
        ensures
            r == printable(self@),
        decreases self,
    {
        proof {
            match self {
                Node::List(items) => {
                    assert(boxed_asts(items@).len() == items@.len());
                },
                Node::FunctionCall(_, args) => {
                    assert(asts(args@).len() == args@.len());
                },
                Node::MultiStatement(stmts) => {
                    assert(asts(stmts@).len() == stmts@.len());
                },
                _ => {},
            }
        }
        match self {
            Node::Program(p) => Node::is_printable(p),
            Node::Number(_) => true,
            Node::List(items) => boxed_nodes_printable(items),
            Node::String(_) => true,
            Node::Node(inner) => Node::is_printable(inner),
            Node::VarAssign(_, value) => Node::is_printable(value),
            Node::FuncAssign { name, params, body } => Node::is_printable(body),
            Node::VarAccess(_) => true,
            Node::Pipe(left, right) => Node::is_printable(left) && Node::is_printable(right),
            Node::If { condition, body, else_body } => Node::is_printable(condition) && Node::is_printable(body)
                && (match else_body {
                Some(e) => Node::is_printable(e),
                None => true,
            }),
            Node::While { condition, code } => Node::is_printable(condition) && Node::is_printable(code),
            Node::BinOp(left, _, right) => Node::is_printable(left) && Node::is_printable(right),
            Node::UnOp(_, right) => Node::is_printable(right),
            Node::FunctionCall(callee, args) => Node::is_printable(callee) && nodes_printable(args),
            Node::MultiStatement(stmts) => nodes_printable(stmts),
            Node::StructCreate { .. } => false,
            Node::VarDottedAccess { .. } => false,
        }
    }

    fn render(&self, pad: &String, Ghost(indent): Ghost<nat>) -> (text: String)
        requires
            pad@ == tabs(indent),
            printable(self@),
        ensures
            text@ == repr_text(self@, indent),
        decreases self,
    {
        proof {
            match self {
                Node::List(items) => {
                    assert(boxed_asts(items@).len() == items@.len());
                },
                Node::FunctionCall(_, args) => {
                    assert(asts(args@).len() == args@.len());
                },
                Node::MultiStatement(stmts) => {
                    assert(asts(stmts@).len() == stmts@.len());
                },
                _ => {},
            }
        }
        match self {
            Node::VarDottedAccess { .. } => String::new(),
            Node::StructCreate { .. } => String::new(),
            Node::Node(n) => {
                let inner = deeper(pad, Ghost(indent));
                let mut text = String::from_str("Node(");
                text.append(Node::render(n, &inner, Ghost(indent + 1)).as_str());
                text.append(")");
                text
            },
            Node::UnOp(op, right) => {
                let inner = deeper(pad, Ghost(indent));
                let mut text = String::from_str("UnOp(");
                text.append(inner.as_str());
                text.append(op.to_string().as_str());
                text.append("\n");
                text.append(inner.as_str());
                text.append(Node::render(right, &inner, Ghost(indent + 1)).as_str());
                text.append("\n");
                text.append(pad.as_str());
                text.append(")");
                text
            },
            Node::While { condition, code } => {
                let inner = deeper(pad, Ghost(indent));
                let mut text = String::from_str("While(");
                text.append(inner.as_str());
                text.append(Node::render(condition, &inner, Ghost(indent + 1)).as_str());
                text.append("\n");
                text.append(inner.as_str());
                text.append(Node::render(code, &inner, Ghost(indent + 1)).as_str());
                text.append(")");
                text
            },
            Node::BinOp(left, op, right) => {
                let inner = deeper(pad, Ghost(indent));
                let mut text = String::from_str("BinOp(");
                text.append("\n");
                text.append(inner.as_str());
                text.append(Node::render(left, &inner, Ghost(indent + 1)).as_str());
                text.append("\n");
                text.append(inner.as_str());
                text.append(op.to_string().as_str());
                text.append("\n");
                text.append(inner.as_str());
                text.append(Node::render(right, &inner, Ghost(indent + 1)).as_str());
                text.append("\n");
                text.append(pad.as_str());
                text.append(")");
                text
            },
            Node::VarAccess(name) => {
                let mut text = String::from_str("VarAccess(");
                text.append(name.as_str());
                text.append(")");
                text
            },
            Node::FuncAssign { name, params, body } => {
                let inner = deeper(pad, Ghost(indent));
                let mut text = String::from_str("FuncAssign(\n");
                text.append(name.as_str());
                text.append("(");
                render_names(&mut text, params);
                text.append(")");
                text.append("\n");
                text.append(inner.as_str());
                text.append(Node::render(body, &inner, Ghost(indent + 1)).as_str());
                text.append(pad.as_str());
                text.append(")");
                text
            },
            Node::Pipe(left, right) => {
                let inner = deeper(pad, Ghost(indent));
                let mut text = String::from_str("Pipe(");
                text.append("\n");
                text.append(inner.as_str());
                text.append(Node::render(left, &inner, Ghost(indent + 1)).as_str());
                text.append("\n");
                text.append(inner.as_str());
                text.append("|");
                text.append("\n");
                text.append(inner.as_str());
                text.append(Node::render(right, &inner, Ghost(indent + 1)).as_str());
                text.append("\n");
                text.append(pad.as_str());
                text.append(")");
                text
            },
            Node::VarAssign(name, value) => {
                let inner = deeper(pad, Ghost(indent));
                let mut text = String::from_str("VarAssign(");
                text.append("\n");
                text.append(inner.as_str());
                text.append(name.as_str());
                text.append("\n");
                text.append(inner.as_str());
                text.append(Node::render(value, &inner, Ghost(indent + 1)).as_str());
                text
            },
            Node::FunctionCall(name, params) => {
                let inner = deeper(pad, Ghost(indent));
                let innermost = deeper(&inner, Ghost(indent + 1));
                let none = String::new();
                assert(none@ =~= tabs(0));
                let mut text = String::from_str("Call(");
                text.append(Node::render(name, &none, Ghost(0)).as_str());
                text.append("(\n");
                render_lines(&mut text, params, &innermost, "\n", Ghost(indent + 2));
                text.append(inner.as_str());
                text.append(")\n");
                text.append(pad.as_str());
                text.append(")");
                text
            },
            Node::MultiStatement(stmts) => {
                let inner = deeper(pad, Ghost(indent));
                let mut text = String::from_str("MultiStatement(");
                text.append("\n");
                render_lines(&mut text, stmts, &inner, "\n", Ghost(indent + 1));
                text.append(pad.as_str());
                text.append(")");
                text
            },
            Node::String(s) => {
                let mut text = String::from_str("String(");
                text.append(s.as_str());
                text.append(")");
                text
            },
            Node::Number(x) => {
                let mut text = String::from_str("Number(");
                text.append(x.as_str());
                text.append(")");
                text
            },
            Node::Program(p) => {
                let inner = deeper(pad, Ghost(indent));
                let mut text = String::from_str("Program(");
                text.append("\n");
                text.append(inner.as_str());
                text.append(Node::render(p, &inner, Ghost(indent + 1)).as_str());
                text.append("\n");
                text.append(pad.as_str());
                text.append(")");
                text
            },
            Node::If { condition, body, else_body } => {
                let inner = deeper(pad, Ghost(indent));
                let innermost = deeper(&inner, Ghost(indent + 1));
                let mut text = String::from_str("If(\n");
                text.append(inner.as_str());
                text.append("Condition(\n");
                text.append(Node::render(condition, &innermost, Ghost(indent + 2)).as_str());
                text.append(inner.as_str());
                text.append(")");
                text.append(inner.as_str());
                text.append("Body(\n");
                text.append(Node::render(body, &innermost, Ghost(indent + 2)).as_str());
                text.append(inner.as_str());
                text.append(")");
                match else_body {
                    Some(ebody) => {
                        text.append(inner.as_str());
                        text.append("Else(\n");
                        text.append(Node::render(ebody, &innermost, Ghost(indent + 2)).as_str());
                        text.append(inner.as_str());
                        text.append(")");
                    },
                    None => {},
                }
                text.append(pad.as_str());
                text.append(")");
                text
            },
            Node::List(l) => {
                let inner = deeper(pad, Ghost(indent));
                let mut text = String::from_str("List(\n");
                render_boxed_lines(&mut text, l, &inner, ",\n", Ghost(indent + 1));
                text.append(pad.as_str());
                text.append(")");
                text
            },
        }
    }

    /// The printed form of the node at depth `indent`.
    pub fn repr(&self, indent: usize) -> (text: String)
        requires
            printable(self@),
        ensures
            text@ == repr_text(self@, indent as nat),
    {
        let mut pad = String::new();
        let mut i: usize = 0;
        assert(pad@ =~= tabs(0));
        while i < indent
            invariant
                i <= indent,
                pad@ == tabs(i as nat),
            decreases indent - i,
        {
            push_char(&mut pad, '\t');
            assert(pad@ =~= tabs((i + 1) as nat));
            i += 1;
        }
        self.render(&pad, Ghost(indent as nat))
    }
}

} // verus!
