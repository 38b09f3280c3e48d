//! The evaluator, as a machine that runs one step at a time.
//!
//! A step takes the state of the machine and the host's reply to the
//! previous request, and gives the next state and the next request.
//! Writing, reading and floating-point arithmetic are requests to the
//! host; everything else is decided here.

use vstd::prelude::*;
use vstd::string::StringExecFns;
use crate::builtin_functions::{field_set, literal_form, printed, printed_line};
use crate::nodes::{asts, boxed_asts, clone_names, texts, Ast, Node};
use crate::symbol_table::{assign, local, lookup, SymbolTable};
use crate::text::{bytes_of, has_byte, parse_int, parse_int_spec};
use crate::tokens::{Token, TT};
use crate::types::{
    bind_arguments, call_frame, instance_of, instantiate, int_binary, int_result, join_pieces, joined, parts,
    values, Builtin, Calc, EvalError, Number, Operator, Part, Piece, Type, Value,
};

verus! {

/// Where an assignment writes.
#[derive(Debug, PartialEq)]
pub enum Target {
    /// The operation is no assignment.
    Absent,
    /// A variable.
    Variable(String),
    /// The field `ident` of the struct instance bound to `root`.
    Field { root: String, ident: String },
    /// A dotted access that does not start at a variable.
    Weird,
    /// Anything else.
    Invalid,
}

/// Where an assignment writes, as a mathematical value.
pub ghost enum Place {
    Absent,
    Variable(Seq<char>),
    Field { root: Seq<char>, ident: Seq<char> },
    Weird,
    Invalid,
}

impl View for Target {
    type V = Place;

    open spec fn view(&self) -> Place {
        match self {
            Target::Absent => Place::Absent,
            Target::Variable(name) => Place::Variable(name@),
            Target::Field { root, ident } => Place::Field { root: root@, ident: ident@ },
            Target::Weird => Place::Weird,
            Target::Invalid => Place::Invalid,
        }
    }
}

/// The tree at which a chain of dotted accesses starts.
pub open spec fn root_of(a: Ast) -> Ast
    decreases a,
{
    match a {
        Ast::VarDottedAccess { left, ident } => root_of(*left),
        _ => a,
    }
}

/// The place that the left side of an assignment denotes: a variable, or
/// the outermost field of a dotted access on the struct instance bound
/// to the variable at which the access starts.
pub open spec fn place_of(left: Ast) -> Place {
    match left {
        Ast::VarAccess(name) => Place::Variable(name),
        Ast::VarDottedAccess { left: inner, ident } => match root_of(*inner) {
            Ast::VarAccess(name) => Place::Field { root: name, ident: ident },
            _ => Place::Weird,
        },
        _ => Place::Invalid,
    }
}

/// What remains to be done with the value of the node being evaluated.
/// Lists of nodes that are still to be evaluated hold the next one last.
#[derive(Debug, PartialEq)]
#[allow(inconsistent_fields)]
pub enum Todo {
    /// Collect the value as the next item of a list literal.
    Items { rest: Vec<Node>, done: Vec<Type> },
    /// Drop the value unless it is that of the last statement.
    Sequence { rest: Vec<Node> },
    /// Bind the value to a variable.
    Bind { name: String },
    /// Check that the value can be called, then evaluate the arguments.
    Callee { args: Vec<Node> },
    /// Collect the value as the next argument of a call.
    Arguments { func: Type, rest: Vec<Node>, done: Vec<Type> },
    /// Leave the scope of a function call.
    Leave,
    /// Decide by the value whether a loop runs once more.
    LoopTest { condition: Node, code: Node, last: Type },
    /// Keep the value as the result of a loop's body.
    LoopBody { condition: Node, code: Node },
    /// Bind the value to `PIPE`, then evaluate the right side.
    Pipe { right: Node },
    /// Select a branch by the value.
    Branch { body: Node, else_body: Option<Node> },
    /// Keep the value as the left operand, then evaluate the right one.
    Left { op: TT, target: Target, right: Node },
    /// Apply the operator to the left operand and the value.
    Right { op: TT, target: Target, left: Type },
    /// Apply a unary operator to the value.
    Unary { op: TT },
    /// Access a member of the value.
    Member { ident: String },
}

/// What remains to be done, as a mathematical value.
#[allow(inconsistent_fields)]
pub ghost enum TodoView {
    Items { rest: Seq<Ast>, done: Seq<Value> },
    Sequence { rest: Seq<Ast> },
    Bind { name: Seq<char> },
    Callee { args: Seq<Ast> },
    Arguments { func: Value, rest: Seq<Ast>, done: Seq<Value> },
    Leave,
    LoopTest { condition: Ast, code: Ast, last: Value },
    LoopBody { condition: Ast, code: Ast },
    Pipe { right: Ast },
    Branch { body: Ast, else_body: Option<Ast> },
    Left { op: Token, target: Place, right: Ast },
    Right { op: Token, target: Place, left: Value },
    Unary { op: Token },
    Member { ident: Seq<char> },
}

impl View for Todo {
    type V = TodoView;

    open spec fn view(&self) -> TodoView {
        match self {
            Todo::Items { rest, done } => TodoView::Items { rest: asts(rest@), done: values(done@) },
            Todo::Sequence { rest } => TodoView::Sequence { rest: asts(rest@) },
            Todo::Bind { name } => TodoView::Bind { name: name@ },
            Todo::Callee { args } => TodoView::Callee { args: asts(args@) },
            Todo::Arguments { func, rest, done } => TodoView::Arguments {
                func: func@,
                rest: asts(rest@),
                done: values(done@),
            },
            Todo::Leave => TodoView::Leave,
            Todo::LoopTest { condition, code, last } => TodoView::LoopTest {
                condition: condition@,
                code: code@,
                last: last@,
            },
            Todo::LoopBody { condition, code } => TodoView::LoopBody { condition: condition@, code: code@ },
            Todo::Pipe { right } => TodoView::Pipe { right: right@ },
            Todo::Branch { body, else_body } => TodoView::Branch {
                body: body@,
                else_body: match else_body {
                    Some(e) => Some(e@),
                    None => None,
                },
            },
            Todo::Left { op, target, right } => TodoView::Left { op: op@, target: target@, right: right@ },
            Todo::Right { op, target, left } => TodoView::Right { op: op@, target: target@, left: left@ },
            Todo::Unary { op } => TodoView::Unary { op: op@ },
            Todo::Member { ident } => TodoView::Member { ident: ident@ },
        }
    }
}

/// What a list of things to do stands for.
pub open spec fn todos(v: Seq<Todo>) -> Seq<TodoView> {
    Seq::new(v.len(), |i: int| v[i]@)
}

/// The reply that the machine waits for.
#[derive(Debug, PartialEq)]
pub enum Wait {
    /// Any reply, after something was written.
    Unit,
    /// Any reply, after which the program fails: what could be written
    /// before the failure was written.
    Failing(EvalError),
    /// A text: a line that was read, or a value written out.
    Text,
    /// The floating-point number that a literal denotes, if it denotes
    /// one.
    Literal { text: String },
    /// The integer that a floating-point right operand was cut to.
    Truncated { op: Operator, left: i64 },
    /// The bits of the result of floating-point arithmetic.
    Bits,
    /// The result of a floating-point comparison.
    Flag,
    /// The value that a native function of the host gives.
    Returned,
}

/// The reply that the machine waits for, as a mathematical value.
pub ghost enum WaitView {
    Unit,
    Failing(EvalError),
    Text,
    Literal { text: Seq<char> },
    Truncated { op: Operator, left: i64 },
    Bits,
    Flag,
    Returned,
}

impl View for Wait {
    type V = WaitView;

    open spec fn view(&self) -> WaitView {
        match self {
            Wait::Unit => WaitView::Unit,
            Wait::Failing(e) => WaitView::Failing(*e),
            Wait::Text => WaitView::Text,
            Wait::Literal { text } => WaitView::Literal { text: text@ },
            Wait::Truncated { op, left } => WaitView::Truncated { op: *op, left: *left },
            Wait::Bits => WaitView::Bits,
            Wait::Flag => WaitView::Flag,
            Wait::Returned => WaitView::Returned,
        }
    }
}

/// What the machine is busy with.
#[derive(Debug, PartialEq)]
pub enum Focus {
    /// A node that is to be evaluated.
    Eval(Node),
    /// The value of the node that was evaluated last.
    Value(Type),
    /// A request to the host that is not answered yet.
    Wait(Wait),
    /// Nothing: the program has ended or failed.
    Halted,
}

/// What the machine is busy with, as a mathematical value.
pub ghost enum FocusView {
    Eval(Ast),
    Value(Value),
    Wait(WaitView),
    Halted,
}

impl View for Focus {
    type V = FocusView;

    open spec fn view(&self) -> FocusView {
        match self {
            Focus::Eval(n) => FocusView::Eval(n@),
            Focus::Value(v) => FocusView::Value(v@),
            Focus::Wait(w) => FocusView::Wait(w@),
            Focus::Halted => FocusView::Halted,
        }
    }
}

/// What the machine asks of its host.
#[derive(Debug, PartialEq)]
pub enum Action {
    /// Nothing: step again.
    Continue,
    /// Write the pieces to standard output, floating-point numbers in
    /// their display form.
    Print(Vec<Piece>),
    /// Read one line from standard input and reply with it, without its
    /// newline.
    ReadLine,
    /// Reply with the bits of the floating-point number that the text
    /// denotes, or with none if it denotes none.
    ParseFloat(String),
    /// Reply with the integer that the floating-point number becomes when
    /// it is cut toward zero.
    Truncate(u64),
    /// Reply with the bits of the result of the operation on the two
    /// numbers, an integer on the right being widened first.
    Arithmetic { op: Operator, left: u64, right: Number },
    /// Reply with the result of the comparison of the two numbers, an
    /// integer on the right being widened first.
    Compare { op: Operator, left: u64, right: Number },
    /// Reply with the text that the pieces spell, floating-point numbers
    /// in their display form.
    Format(Vec<Piece>),
    /// Call the host's native function of this name with the arguments,
    /// and reply with the value that it gives.
    Native { name: String, args: Vec<Type> },
    /// The program has ended with this value.
    Done(Type),
    /// The program has failed.
    Fail(EvalError),
}

/// A request to the host, as a mathematical value.
#[allow(inconsistent_fields)]
pub ghost enum ActionView {
    Continue,
    Print(Seq<Part>),
    ReadLine,
    ParseFloat(Seq<char>),
    Truncate(u64),
    Arithmetic { op: Operator, left: u64, right: Number },
    Compare { op: Operator, left: u64, right: Number },
    Format(Seq<Part>),
    Native { name: Seq<char>, args: Seq<Value> },
    Done(Value),
    Fail(EvalError),
}

impl View for Action {
    type V = ActionView;

    open spec fn view(&self) -> ActionView {
        match self {
            Action::Continue => ActionView::Continue,
            Action::Print(p) => ActionView::Print(parts(p@)),
            Action::ReadLine => ActionView::ReadLine,
            Action::ParseFloat(s) => ActionView::ParseFloat(s@),
            Action::Truncate(bits) => ActionView::Truncate(*bits),
            Action::Arithmetic { op, left, right } => ActionView::Arithmetic {
                op: *op,
                left: *left,
                right: *right,
            },
            Action::Compare { op, left, right } => ActionView::Compare { op: *op, left: *left, right: *right },
            Action::Format(p) => ActionView::Format(parts(p@)),
            Action::Native { name, args } => ActionView::Native { name: name@, args: values(args@) },
            Action::Done(v) => ActionView::Done(v@),
            Action::Fail(e) => ActionView::Fail(*e),
        }
    }
}

/// The host's reply to a request.
#[derive(Debug, PartialEq)]
pub enum Reply {
    /// Nothing to say.
    Nothing,
    /// A text.
    Text(String),
    /// The bits of a parsed floating-point number, if there is one.
    Parsed(Option<u64>),
    /// An integer.
    Int(i64),
    /// The bits of a floating-point number.
    Bits(u64),
    /// The result of a comparison.
    Flag(bool),
    /// The value that a native function of the host gave.
    Returned(Type),
}

/// The host's reply, as a mathematical value.
pub ghost enum ReplyView {
    Nothing,
    Text(Seq<char>),
    Parsed(Option<u64>),
    Int(i64),
    Bits(u64),
    Flag(bool),
    Returned(Value),
}

impl View for Reply {
    type V = ReplyView;

    open spec fn view(&self) -> ReplyView {
        match self {
            Reply::Nothing => ReplyView::Nothing,
            Reply::Text(s) => ReplyView::Text(s@),
            Reply::Parsed(p) => ReplyView::Parsed(*p),
            Reply::Int(n) => ReplyView::Int(*n),
            Reply::Bits(b) => ReplyView::Bits(*b),
            Reply::Flag(b) => ReplyView::Flag(*b),
            Reply::Returned(v) => ReplyView::Returned(v@),
        }
    }
}

/// The evaluator: what it is busy with, what remains to be done with the
/// value in progress (the innermost task last), and the chain of scopes.
#[derive(Debug)]
pub struct Machine {
    pub focus: Focus,
    pub todo: Vec<Todo>,
    pub env: SymbolTable,
}

/// The state of the evaluator as a mathematical value.
pub ghost struct State {
    pub focus: FocusView,
    pub todo: Seq<TodoView>,
    pub scopes: Seq<Map<Seq<char>, Value>>,
}

impl View for Machine {
    type V = State;

    open spec fn view(&self) -> State {
        State { focus: self.focus@, todo: todos(self.todo@), scopes: self.env@ }
    }
}

/// A step that asks nothing of the host.
pub open spec fn go(focus: FocusView, todo: Seq<TodoView>, scopes: Seq<Map<Seq<char>, Value>>) -> (
    State,
    ActionView,
) {
    (State { focus: focus, todo: todo, scopes: scopes }, ActionView::Continue)
}

/// A step that asks something of the host and waits for the reply.
pub open spec fn ask(
    action: ActionView,
    wait: WaitView,
    todo: Seq<TodoView>,
    scopes: Seq<Map<Seq<char>, Value>>,
) -> (State, ActionView) {
    (State { focus: FocusView::Wait(wait), todo: todo, scopes: scopes }, action)
}

/// A step that ends the program with an error.
pub open spec fn fail(e: EvalError, todo: Seq<TodoView>, scopes: Seq<Map<Seq<char>, Value>>) -> (
    State,
    ActionView,
) {
    (State { focus: FocusView::Halted, todo: todo, scopes: scopes }, ActionView::Fail(e))
}

/// The chain of scopes without its innermost scope.
pub open spec fn leave(scopes: Seq<Map<Seq<char>, Value>>) -> Seq<Map<Seq<char>, Value>> {
    if scopes.len() > 0 {
        scopes.drop_last()
    } else {
        scopes
    }
}

/// Goes on with a list literal: the next item is evaluated, or the list
/// is complete.
pub open spec fn next_item(
    rest: Seq<Ast>,
    done: Seq<Value>,
    todo: Seq<TodoView>,
    scopes: Seq<Map<Seq<char>, Value>>,
) -> (State, ActionView) {
    if rest.len() == 0 {
        go(FocusView::Value(Value::List(done)), todo, scopes)
    } else {
        go(
            FocusView::Eval(rest.last()),
            todo.push(TodoView::Items { rest: rest.drop_last(), done: done }),
            scopes,
        )
    }
}

/// Goes on with a statement sequence after a statement gave `v`.
pub open spec fn next_statement(
    v: Value,
    rest: Seq<Ast>,
    todo: Seq<TodoView>,
    scopes: Seq<Map<Seq<char>, Value>>,
) -> (State, ActionView) {
    if rest.len() == 0 {
        go(FocusView::Value(v), todo, scopes)
    } else {
        go(FocusView::Eval(rest.last()), todo.push(TodoView::Sequence { rest: rest.drop_last() }), scopes)
    }
}

/// Carries out a binary operation on numbers as far as integers go, and
/// asks the host for the rest.
pub open spec fn compute(c: Calc, todo: Seq<TodoView>, scopes: Seq<Map<Seq<char>, Value>>) -> (
    State,
    ActionView,
) {
    match c {
        Calc::Done(n) => go(FocusView::Value(Value::Int(n)), todo, scopes),
        Calc::Failed(e) => fail(e, todo, scopes),
        Calc::Truncate { op, left, right } => ask(
            ActionView::Truncate(right),
            WaitView::Truncated { op: op, left: left },
            todo,
            scopes,
        ),
        Calc::Floating { op, left, right } => if op.compares() {
            ask(ActionView::Compare { op: op, left: left, right: right }, WaitView::Flag, todo, scopes)
        } else {
            ask(ActionView::Arithmetic { op: op, left: left, right: right }, WaitView::Bits, todo, scopes)
        },
    }
}

/// Asks the host to write what printing gives. Where the printing did
/// not get through, the program fails once that is written.
pub open spec fn write_out(p: (Seq<Part>, bool), todo: Seq<TodoView>, scopes: Seq<Map<Seq<char>, Value>>) -> (
    State,
    ActionView,
) {
    ask(
        ActionView::Print(p.0),
        if p.1 {
            WaitView::Unit
        } else {
            WaitView::Failing(EvalError::Unprintable)
        },
        todo,
        scopes,
    )
}

/// Runs the native function of the given name on its arguments, in the
/// scope of its call. A native function of the host is asked of the
/// host.
pub open spec fn native(
    name: Seq<char>,
    code: Builtin,
    frame: Map<Seq<char>, Value>,
    args: Seq<Value>,
    todo: Seq<TodoView>,
    scopes: Seq<Map<Seq<char>, Value>>,
) -> (State, ActionView) {
    match code {
        Builtin::Print => write_out(printed(args), todo, scopes),
        Builtin::Println => write_out(printed_line(args), todo, scopes),
        Builtin::Input => ask(ActionView::ReadLine, WaitView::Text, todo, scopes),
        Builtin::Repr => match literal_form(args) {
            Ok(p) => match joined(p) {
                Some(text) => go(FocusView::Value(Value::Str(text)), todo, scopes),
                None => ask(ActionView::Format(p), WaitView::Text, todo, scopes),
            },
            Err(e) => fail(e, todo, scopes),
        },
        Builtin::SetField => match field_set(frame) {
            Some(v) => go(FocusView::Value(v), todo, scopes),
            None => fail(EvalError::SetOnNonStruct, todo, scopes),
        },
        Builtin::Host => ask(ActionView::Native { name: name, args: args }, WaitView::Returned, todo, scopes),
    }
}

/// Calls a value with the given arguments: quoted code runs in the
/// current scope, a struct gives an instance, a native function runs on
/// its arguments, and a function's body runs in a new innermost scope
/// that binds its parameters and `ARGV`.
pub open spec fn invoke(
    func: Value,
    args: Seq<Value>,
    todo: Seq<TodoView>,
    scopes: Seq<Map<Seq<char>, Value>>,
) -> (State, ActionView) {
    match func {
        Value::Quote(n) => go(FocusView::Eval(n), todo, scopes),
        Value::Struct { name, fields } => go(
            FocusView::Value(instance_of(name, fields, args)),
            todo,
            scopes,
        ),
        Value::BuiltinFunction { name, parameters, code } => native(
            name,
            code,
            call_frame(parameters, args),
            args,
            todo,
            scopes,
        ),
        Value::Function { name, parameters, code } => go(
            FocusView::Eval(code),
            todo.push(TodoView::Leave),
            scopes.push(call_frame(parameters, args)),
        ),
        _ => fail(EvalError::NotCallable, todo, scopes),
    }
}

/// Goes on with a call: the next argument is evaluated, or the callee is
/// called with the arguments.
pub open spec fn next_argument(
    func: Value,
    rest: Seq<Ast>,
    done: Seq<Value>,
    todo: Seq<TodoView>,
    scopes: Seq<Map<Seq<char>, Value>>,
) -> (State, ActionView) {
    if rest.len() == 0 {
        invoke(func, done, todo, scopes)
    } else {
        go(
            FocusView::Eval(rest.last()),
            todo.push(TodoView::Arguments { func: func, rest: rest.drop_last(), done: done }),
            scopes,
        )
    }
}

/// Assigns `value` to a place. A variable is bound in the innermost
/// scope. A field is set on the struct instance that the innermost scope
/// binds to the root variable, where the instance has the field; where
/// it has not, nothing changes and the assignment yields undefined.
pub open spec fn store(
    target: Place,
    value: Value,
    todo: Seq<TodoView>,
    scopes: Seq<Map<Seq<char>, Value>>,
) -> (State, ActionView) {
    match target {
        Place::Variable(name) => go(FocusView::Value(value), todo, assign(scopes, name, value)),
        Place::Field { root, ident } => match local(scopes, root) {
            Some(owner) => go(
                FocusView::Value(
                    if owner.has_attr(ident) {
                        value
                    } else {
                        Value::Undefined
                    },
                ),
                todo,
                assign(scopes, root, owner.with_attr(ident, value)),
            ),
            None => fail(EvalError::UnboundTarget, todo, scopes),
        },
        Place::Weird => fail(EvalError::WeirdExpression, todo, scopes),
        _ => fail(EvalError::NotAssignable, todo, scopes),
    }
}

/// Applies a binary operator to two values: `=` assigns the right value
/// to the place of the left side, the other operators combine the two as
/// numbers.
pub open spec fn apply(
    op: Token,
    target: Place,
    left: Value,
    right: Value,
    todo: Seq<TodoView>,
    scopes: Seq<Map<Seq<char>, Value>>,
) -> (State, ActionView) {
    if op is Eq {
        store(target, right, todo, scopes)
    } else {
        match Operator::of_token(op) {
            Some(o) => compute(Number::combine_spec(o, left.number(), right.number()), todo, scopes),
            None => fail(EvalError::InvalidOperator, todo, scopes),
        }
    }
}

/// Applies a unary operator to a value: `-` multiplies by minus one, `+`
/// changes nothing.
pub open spec fn negate(op: Token, v: Value, todo: Seq<TodoView>, scopes: Seq<Map<Seq<char>, Value>>) -> (
    State,
    ActionView,
) {
    match op {
        Token::Minus => compute(
            Number::combine_spec(Operator::Mul, v.number(), Number::Int(-1i64)),
            todo,
            scopes,
        ),
        Token::Plus => go(FocusView::Value(v), todo, scopes),
        _ => fail(EvalError::InvalidUnary, todo, scopes),
    }
}

/// Selects the branch of a conditional: the body for a true condition,
/// which only a nonzero integer is; for every other condition the else
/// branch, or zero where there is none.
pub open spec fn branch(
    v: Value,
    body: Ast,
    else_body: Option<Ast>,
    todo: Seq<TodoView>,
    scopes: Seq<Map<Seq<char>, Value>>,
) -> (State, ActionView) {
    if v.number().truthy() {
        go(FocusView::Eval(body), todo, scopes)
    } else {
        match else_body {
            Some(e) => go(FocusView::Eval(e), todo, scopes),
            None => go(FocusView::Value(Value::Int(0)), todo, scopes),
        }
    }
}

/// Evaluates a number literal: a text with a dot is handed to the host as
/// a floating-point literal, any other text is read as an integer.
pub open spec fn literal(text: Seq<char>, todo: Seq<TodoView>, scopes: Seq<Map<Seq<char>, Value>>) -> (
    State,
    ActionView,
) {
    if bytes_of(text).contains(46u8) {
        ask(ActionView::ParseFloat(text), WaitView::Literal { text: text }, todo, scopes)
    } else {
        match parse_int_spec(bytes_of(text)) {
            Some(n) => go(FocusView::Value(Value::Int(n)), todo, scopes),
            None => fail(EvalError::NotANumber, todo, scopes),
        }
    }
}

/// Starts the evaluation of a node.
pub open spec fn start(node: Ast, todo: Seq<TodoView>, scopes: Seq<Map<Seq<char>, Value>>) -> (
    State,
    ActionView,
) {
    match node {
        Ast::VarDottedAccess { left, ident } => go(
            FocusView::Eval(*left),
            todo.push(TodoView::Member { ident: ident }),
            scopes,
        ),
        Ast::StructCreate { name, fields } => go(
            FocusView::Value(Value::Struct { name: name, fields: fields }),
            todo,
            assign(scopes, name, Value::Struct { name: name, fields: fields }),
        ),
        Ast::List(items) => next_item(items.reverse(), Seq::empty(), todo, scopes),
        Ast::Program(n) => go(FocusView::Eval(*n), todo, scopes),
        Ast::Quote(n) => go(FocusView::Value(Value::Quote(*n)), todo, scopes),
        Ast::MultiStatement(stmts) => if stmts.len() == 0 {
            fail(EvalError::EmptySequence, todo, scopes)
        } else {
            go(
                FocusView::Eval(stmts.reverse().last()),
                todo.push(TodoView::Sequence { rest: stmts.reverse().drop_last() }),
                scopes,
            )
        },
        Ast::Number(s) => literal(s, todo, scopes),
        Ast::Str(s) => go(FocusView::Value(Value::Str(s)), todo, scopes),
        Ast::VarAssign(name, value) => go(
            FocusView::Eval(*value),
            todo.push(TodoView::Bind { name: name }),
            scopes,
        ),
        Ast::VarAccess(name) => go(FocusView::Value(lookup(scopes, name)), todo, scopes),
        Ast::FuncAssign { name, params, body } => go(
            FocusView::Value(Value::Function { name: name, parameters: params, code: *body }),
            todo,
            assign(scopes, name, Value::Function { name: name, parameters: params, code: *body }),
        ),
        Ast::FunctionCall(callee, args) => go(
            FocusView::Eval(*callee),
            todo.push(TodoView::Callee { args: args.reverse() }),
            scopes,
        ),
        Ast::While { condition, code } => go(
            FocusView::Eval(*condition),
            todo.push(TodoView::LoopTest { condition: *condition, code: *code, last: Value::Int(0) }),
            scopes,
        ),
        Ast::Pipe(left, right) => go(FocusView::Eval(*left), todo.push(TodoView::Pipe { right: *right }), scopes),
        Ast::If { condition, body, else_body } => go(
            FocusView::Eval(*condition),
            todo.push(
                TodoView::Branch {
                    body: *body,
                    else_body: match else_body {
                        Some(e) => Some(*e),
                        None => None,
                    },
                },
            ),
            scopes,
        ),
        Ast::BinOp(left, op, right) => go(
            FocusView::Eval(*left),
            todo.push(
                TodoView::Left {
                    op: op,
                    target: if op is Eq {
                        place_of(*left)
                    } else {
                        Place::Absent
                    },
                    right: *right,
                },
            ),
            scopes,
        ),
        Ast::UnOp(op, right) => go(FocusView::Eval(*right), todo.push(TodoView::Unary { op: op }), scopes),
    }
}

/// Goes on with the value of the node that was evaluated last: the
/// innermost task takes it, or the program ends with it.
pub open spec fn resume(v: Value, todo: Seq<TodoView>, scopes: Seq<Map<Seq<char>, Value>>) -> (
    State,
    ActionView,
) {
    if todo.len() == 0 {
        (State { focus: FocusView::Halted, todo: todo, scopes: scopes }, ActionView::Done(v))
    } else {
        let outer = todo.drop_last();
        match todo.last() {
            TodoView::Items { rest, done } => next_item(rest, done.push(v), outer, scopes),
            TodoView::Sequence { rest } => next_statement(v, rest, outer, scopes),
            TodoView::Bind { name } => go(FocusView::Value(v), outer, assign(scopes, name, v)),
            TodoView::Callee { args } => if v.callable() {
                next_argument(v, args, Seq::empty(), outer, scopes)
            } else {
                fail(EvalError::NotCallable, outer, scopes)
            },
            TodoView::Arguments { func, rest, done } => next_argument(func, rest, done.push(v), outer, scopes),
            TodoView::Leave => go(FocusView::Value(v), outer, leave(scopes)),
            TodoView::LoopTest { condition, code, last } => if v.number().truthy() {
                go(
                    FocusView::Eval(code),
                    outer.push(TodoView::LoopBody { condition: condition, code: code }),
                    scopes,
                )
            } else {
                go(FocusView::Value(last), outer, scopes)
            },
            TodoView::LoopBody { condition, code } => go(
                FocusView::Eval(condition),
                outer.push(TodoView::LoopTest { condition: condition, code: code, last: v }),
                scopes,
            ),
            TodoView::Pipe { right } => go(FocusView::Eval(right), outer, assign(scopes, "PIPE"@, v)),
            TodoView::Branch { body, else_body } => branch(v, body, else_body, outer, scopes),
            TodoView::Left { op, target, right } => go(
                FocusView::Eval(right),
                outer.push(TodoView::Right { op: op, target: target, left: v }),
                scopes,
            ),
            TodoView::Right { op, target, left } => apply(op, target, left, v, outer, scopes),
            TodoView::Unary { op } => negate(op, v, outer, scopes),
            TodoView::Member { ident } => go(FocusView::Value(v.member(ident)), outer, scopes),
        }
    }
}

/// Takes the host's reply to the request that the machine waits on.
pub open spec fn answer(
    wait: WaitView,
    reply: ReplyView,
    todo: Seq<TodoView>,
    scopes: Seq<Map<Seq<char>, Value>>,
) -> (State, ActionView) {
    match wait {
        WaitView::Unit => go(FocusView::Value(Value::Int(0)), todo, scopes),
        WaitView::Failing(e) => fail(e, todo, scopes),
        WaitView::Text => match reply {
            ReplyView::Text(s) => go(FocusView::Value(Value::Str(s)), todo, scopes),
            _ => fail(EvalError::UnexpectedReply, todo, scopes),
        },
        WaitView::Literal { text } => match reply {
            ReplyView::Parsed(Some(bits)) => go(FocusView::Value(Value::Float(bits)), todo, scopes),
            ReplyView::Parsed(None) => match parse_int_spec(bytes_of(text)) {
                Some(n) => go(FocusView::Value(Value::Int(n)), todo, scopes),
                None => fail(EvalError::NotANumber, todo, scopes),
            },
            _ => fail(EvalError::UnexpectedReply, todo, scopes),
        },
        WaitView::Truncated { op, left } => match reply {
            ReplyView::Int(right) => match int_result(op, left, right) {
                Ok(n) => go(FocusView::Value(Value::Int(n)), todo, scopes),
                Err(e) => fail(e, todo, scopes),
            },
            _ => fail(EvalError::UnexpectedReply, todo, scopes),
        },
        WaitView::Bits => match reply {
            ReplyView::Bits(bits) => go(FocusView::Value(Value::Float(bits)), todo, scopes),
            _ => fail(EvalError::UnexpectedReply, todo, scopes),
        },
        WaitView::Flag => match reply {
            ReplyView::Flag(b) => go(FocusView::Value(Value::Int(if b { 1i64 } else { 0i64 })), todo, scopes),
            _ => fail(EvalError::UnexpectedReply, todo, scopes),
        },
        WaitView::Returned => match reply {
            ReplyView::Returned(v) => go(FocusView::Value(v), todo, scopes),
            _ => fail(EvalError::UnexpectedReply, todo, scopes),
        },
    }
}

/// One step of the evaluator: the next state and the request to the
/// host, from the state and the host's reply to the previous request.
pub open spec fn step_spec(s: State, reply: ReplyView) -> (State, ActionView) {
    match s.focus {
        FocusView::Eval(node) => start(node, s.todo, s.scopes),
        FocusView::Value(v) => resume(v, s.todo, s.scopes),
        FocusView::Wait(w) => answer(w, reply, s.todo, s.scopes),
        FocusView::Halted => fail(EvalError::Halted, s.todo, s.scopes),
    }
}

/// Whether a machine and a request are what a state and a request as
/// mathematical values say.
pub open spec fn shows(r: (Machine, Action), x: (State, ActionView)) -> bool {
    r.0@ == x.0 && r.1@ == x.1
}

fn settle(focus: Focus, todo: Vec<Todo>, env: SymbolTable) -> (r: (Machine, Action))
    ensures
        r.0.env == env,
        shows(r, go(focus@, todos(todo@), env@)),
{
    (Machine { focus: focus, todo: todo, env: env }, Action::Continue)
}

fn request(action: Action, wait: Wait, todo: Vec<Todo>, env: SymbolTable) -> (r: (Machine, Action))
    ensures
        r.0.env == env,
        shows(r, ask(action@, wait@, todos(todo@), env@)),
{
    (Machine { focus: Focus::Wait(wait), todo: todo, env: env }, action)
}

fn abort(e: EvalError, todo: Vec<Todo>, env: SymbolTable) -> (r: (Machine, Action))
    ensures
        r.0.env == env,
        shows(r, fail(e, todos(todo@), env@)),
{
    (Machine { focus: Focus::Halted, todo: todo, env: env }, Action::Fail(e))
}

fn with_todo(todo: Vec<Todo>, t: Todo) -> (r: Vec<Todo>)
    ensures
        todos(r@) == todos(todo@).push(t@),
{
    let mut todo = todo;
    let ghost before = todos(todo@);
    todo.push(t);
    assert(todos(todo@) =~= before.push(t@));
    todo
}

fn without_todo(todo: Vec<Todo>) -> (r: (Option<Todo>, Vec<Todo>))
    ensures
        match r.0 {
            Some(t) => todo@.len() > 0 && t@ == todos(todo@).last() && todos(r.1@) == todos(todo@).drop_last(),
            None => todo@.len() == 0 && todos(r.1@) == todos(todo@),
        },
{
    let mut todo = todo;
    let ghost before = todos(todo@);
    let last = todo.pop();
    assert(last is Some ==> todos(todo@) =~= before.drop_last());
    (last, todo)
}

fn next_node(rest: Vec<Node>) -> (r: (Option<Node>, Vec<Node>))
    ensures
        match r.0 {
            Some(n) => rest@.len() > 0 && n@ == asts(rest@).last() && asts(r.1@) == asts(rest@).drop_last(),
            None => rest@.len() == 0 && asts(r.1@) == asts(rest@),
        },
{
    let mut rest = rest;
    let ghost before = asts(rest@);
    let last = rest.pop();
    assert(last is Some ==> asts(rest@) =~= before.drop_last());
    (last, rest)
}

fn with_value(done: Vec<Type>, v: Type) -> (r: Vec<Type>)
    ensures
        values(r@) == values(done@).push(v@),
{
    let mut done = done;
    let ghost before = values(done@);
    done.push(v);
    assert(values(done@) =~= before.push(v@));
    done
}

fn reversed(v: Vec<Node>) -> (r: Vec<Node>)
    ensures
        asts(r@) == asts(v@).reverse(),
{
    let ghost given = v@;
    let mut v = v;
    let mut out: Vec<Node> = Vec::new();
    while v.len() > 0
        invariant
            v@.len() + out@.len() == given.len(),
            forall|j: int| 0 <= j < v@.len() ==> v@[j] == given[j],
            forall|j: int| 0 <= j < out@.len() ==> out@[j] == given[given.len() - 1 - j],
        decreases v@.len(),
    {
        match v.pop() {
            Some(n) => {
                out.push(n);
            },
            None => {},
        }
    }
    assert(asts(out@) =~= asts(given).reverse());
    out
}

fn unboxed_reversed(v: Vec<Box<Node>>) -> (r: Vec<Node>)
    ensures
        asts(r@) == boxed_asts(v@).reverse(),
{
    let ghost given = v@;
    let mut v = v;
    let mut out: Vec<Node> = Vec::new();
    while v.len() > 0
        invariant
            v@.len() + out@.len() == given.len(),
            forall|j: int| 0 <= j < v@.len() ==> v@[j] == given[j],
            forall|j: int| 0 <= j < out@.len() ==> out@[j] == *given[given.len() - 1 - j],
        decreases v@.len(),
    {
        match v.pop() {
            Some(n) => {
                out.push(*n);
            },
            None => {},
        }
    }
    assert(asts(out@) =~= boxed_asts(given).reverse());
    out
}

fn boxed(v: Vec<Type>) -> (r: Vec<Box<Type>>)
    ensures
        crate::types::boxed_values(r@) == values(v@),
{
    let ghost given = v@;
    let mut v = reversed_values(v);
    let mut out: Vec<Box<Type>> = Vec::new();
    while v.len() > 0
        invariant
            v@.len() + out@.len() == given.len(),
            forall|j: int| 0 <= j < v@.len() ==> v@[j] == given[given.len() - 1 - j],
            forall|j: int| 0 <= j < out@.len() ==> *out@[j] == given[j],
        decreases v@.len(),
    {
        match v.pop() {
            Some(n) => {
                out.push(Box::new(n));
            },
            None => {},
        }
    }
    assert(crate::types::boxed_values(out@) =~= values(given));
    out
}

fn reversed_values(v: Vec<Type>) -> (r: Vec<Type>)
    ensures
        r@.len() == v@.len(),
        forall|j: int| 0 <= j < r@.len() ==> r@[j] == v@[v@.len() - 1 - j],
{
    let ghost given = v@;
    let mut v = v;
    let mut out: Vec<Type> = Vec::new();
    while v.len() > 0
        invariant
            v@.len() + out@.len() == given.len(),
            forall|j: int| 0 <= j < v@.len() ==> v@[j] == given[j],
            forall|j: int| 0 <= j < out@.len() ==> out@[j] == given[given.len() - 1 - j],
        decreases v@.len(),
    {
        match v.pop() {
            Some(n) => {
                out.push(n);
            },
            None => {},
        }
    }
    out
}

fn root_name(n: &Node) -> (r: Option<String>)
    ensures
        match r {
            Some(name) => root_of(n@) == Ast::VarAccess(name@),
            None => !(root_of(n@) is VarAccess),
        },
    decreases n,
{
    match n {
        Node::VarDottedAccess { left, ident } => root_name(left),
        Node::VarAccess(name) => Some(name.clone()),
        _ => None,
    }
}

/// The place that the left side of an assignment denotes.
pub fn target_of(left: &Node) -> (r: Target)
    ensures
        r@ == place_of(left@),
{
    match left {
        Node::VarAccess(name) => Target::Variable(name.clone()),
        Node::VarDottedAccess { left: inner, ident } => match root_name(inner) {
            Some(name) => Target::Field { root: name, ident: ident.clone() },
            None => Target::Weird,
        },
        _ => Target::Invalid,
    }
}

fn begin_item(rest: Vec<Node>, done: Vec<Type>, todo: Vec<Todo>, env: SymbolTable) -> (r: (Machine, Action))
    ensures
        env.well_formed() ==> r.0.env.well_formed(),
        shows(r, next_item(asts(rest@), values(done@), todos(todo@), env@)),
{
    match next_node(rest) {
        (Some(n), rest) => settle(Focus::Eval(n), with_todo(todo, Todo::Items { rest: rest, done: done }), env),
        (None, _) => settle(Focus::Value(Type::List(boxed(done))), todo, env),
    }
}

fn begin_statement(v: Type, rest: Vec<Node>, todo: Vec<Todo>, env: SymbolTable) -> (r: (Machine, Action))
    ensures
        env.well_formed() ==> r.0.env.well_formed(),
        shows(r, next_statement(v@, asts(rest@), todos(todo@), env@)),
{
    match next_node(rest) {
        (Some(n), rest) => settle(Focus::Eval(n), with_todo(todo, Todo::Sequence { rest: rest }), env),
        (None, _) => settle(Focus::Value(v), todo, env),
    }
}

fn finish_calc(c: Calc, todo: Vec<Todo>, env: SymbolTable) -> (r: (Machine, Action))
    ensures
        env.well_formed() ==> r.0.env.well_formed(),
        shows(r, compute(c, todos(todo@), env@)),
{
    match c {
        Calc::Done(n) => settle(Focus::Value(Type::Int(n)), todo, env),
        Calc::Failed(e) => abort(e, todo, env),
        Calc::Truncate { op, left, right } => request(
            Action::Truncate(right),
            Wait::Truncated { op: op, left: left },
            todo,
            env,
        ),
        Calc::Floating { op, left, right } => {
            if op.is_comparison() {
                request(Action::Compare { op: op, left: left, right: right }, Wait::Flag, todo, env)
            } else {
                request(Action::Arithmetic { op: op, left: left, right: right }, Wait::Bits, todo, env)
            }
        },
    }
}

fn request_writing(p: Vec<Piece>, complete: bool, todo: Vec<Todo>, env: SymbolTable) -> (r: (Machine, Action))
    ensures
        env.well_formed() ==> r.0.env.well_formed(),
        shows(r, write_out((parts(p@), complete), todos(todo@), env@)),
{
    if complete {
        request(Action::Print(p), Wait::Unit, todo, env)
    } else {
        request(Action::Print(p), Wait::Failing(EvalError::Unprintable), todo, env)
    }
}

fn run_native(
    name: String,
    code: Builtin,
    frame: Vec<(String, Type)>,
    args: Vec<Type>,
    todo: Vec<Todo>,
    env: SymbolTable,
) -> (r: (Machine, Action))
    ensures
        env.well_formed() ==> r.0.env.well_formed(),
        shows(r, native(name@, code, crate::types::bindings(frame@), values(args@), todos(todo@), env@)),
{
    match code {
        Builtin::Print => {
            let (p, complete) = crate::builtin_functions::print(&args);
            request_writing(p, complete, todo, env)
        },
        Builtin::Println => {
            let (p, complete) = crate::builtin_functions::println(&args);
            request_writing(p, complete, todo, env)
        },
        Builtin::Input => request(Action::ReadLine, Wait::Text, todo, env),
        Builtin::Repr => match crate::builtin_functions::repr(&args) {
            Ok(p) => match join_pieces(&p) {
                Some(text) => settle(Focus::Value(Type::String(text)), todo, env),
                None => request(Action::Format(p), Wait::Text, todo, env),
            },
            Err(e) => abort(e, todo, env),
        },
        Builtin::SetField => match crate::builtin_functions::set(&frame) {
            Ok(v) => settle(Focus::Value(v), todo, env),
            Err(e) => abort(e, todo, env),
        },
        Builtin::Host => request(Action::Native { name: name, args: args }, Wait::Returned, todo, env),
    }
}

fn call(func: Type, args: Vec<Type>, todo: Vec<Todo>, env: SymbolTable) -> (r: (Machine, Action))
    ensures
        env.well_formed() ==> r.0.env.well_formed(),
        shows(r, invoke(func@, values(args@), todos(todo@), env@)),
{
    match func {
        Type::Node(n) => settle(Focus::Eval(n), todo, env),
        Type::Struct { name, fields } => settle(Focus::Value(instantiate(&name, &fields, &args)), todo, env),
        Type::BuiltinFunction { name, parameters, code } => {
            let frame = bind_arguments(&parameters, &args);
            run_native(name, code, frame, args, todo, env)
        },
        Type::Function { name, parameters, code } => {
            let frame = bind_arguments(&parameters, &args);
            let mut env = env;
            env.push_scope(frame);
            settle(Focus::Eval(code), with_todo(todo, Todo::Leave), env)
        },
        _ => abort(EvalError::NotCallable, todo, env),
    }
}

fn begin_argument(func: Type, rest: Vec<Node>, done: Vec<Type>, todo: Vec<Todo>, env: SymbolTable) -> (r: (
    Machine,
    Action,
))
    ensures
        env.well_formed() ==> r.0.env.well_formed(),
        shows(r, next_argument(func@, asts(rest@), values(done@), todos(todo@), env@)),
{
    match next_node(rest) {
        (Some(n), rest) => settle(
            Focus::Eval(n),
            with_todo(todo, Todo::Arguments { func: func, rest: rest, done: done }),
            env,
        ),
        (None, _) => call(func, done, todo, env),
    }
}

fn put(target: Target, value: Type, todo: Vec<Todo>, env: SymbolTable) -> (r: (Machine, Action))
    ensures
        env.well_formed() ==> r.0.env.well_formed(),
        shows(r, store(target@, value@, todos(todo@), env@)),
{
    let mut env = env;
    match target {
        Target::Variable(name) => {
            env.insert(name, value.clone());
            settle(Focus::Value(value), todo, env)
        },
        Target::Field { root, ident } => match env.get_local(root.as_str()) {
            Some(owner) => {
                let (updated, result) = owner.assign_field(&ident, value);
                env.insert(root, updated);
                settle(Focus::Value(result), todo, env)
            },
            None => abort(EvalError::UnboundTarget, todo, env),
        },
        Target::Weird => abort(EvalError::WeirdExpression, todo, env),
        _ => abort(EvalError::NotAssignable, todo, env),
    }
}

fn operate(op: TT, target: Target, left: Type, right: Type, todo: Vec<Todo>, env: SymbolTable) -> (r: (
    Machine,
    Action,
))
    ensures
        env.well_formed() ==> r.0.env.well_formed(),
        shows(r, apply(op@, target@, left@, right@, todos(todo@), env@)),
{
    match op {
        TT::EQ => put(target, right, todo, env),
        _ => match Operator::from_token(&op) {
            Some(o) => finish_calc(Number::combine(o, left.into_number(), right.into_number()), todo, env),
            None => abort(EvalError::InvalidOperator, todo, env),
        },
    }
}

fn flip(op: TT, v: Type, todo: Vec<Todo>, env: SymbolTable) -> (r: (Machine, Action))
    ensures
        env.well_formed() ==> r.0.env.well_formed(),
        shows(r, negate(op@, v@, todos(todo@), env@)),
{
    match op {
        TT::MINUS => finish_calc(Number::combine(Operator::Mul, v.into_number(), Number::Int(-1)), todo, env),
        TT::PLUS => settle(Focus::Value(v), todo, env),
        _ => abort(EvalError::InvalidUnary, todo, env),
    }
}

fn choose_branch(v: Type, body: Node, else_body: Option<Node>, todo: Vec<Todo>, env: SymbolTable) -> (r: (
    Machine,
    Action,
))
    ensures
        env.well_formed() ==> r.0.env.well_formed(),
        shows(
            r,
            branch(
                v@,
                body@,
                match else_body {
                    Some(e) => Some(e@),
                    None => None,
                },
                todos(todo@),
                env@,
            ),
        ),
{
    if v.into_number().is_true() {
        settle(Focus::Eval(body), todo, env)
    } else {
        match else_body {
            Some(e) => settle(Focus::Eval(e), todo, env),
            None => settle(Focus::Value(Type::Int(0)), todo, env),
        }
    }
}

fn read_literal(text: String, todo: Vec<Todo>, env: SymbolTable) -> (r: (Machine, Action))
    ensures
        env.well_formed() ==> r.0.env.well_formed(),
        shows(r, literal(text@, todos(todo@), env@)),
{
    if has_byte(text.as_str(), 46u8) {
        request(Action::ParseFloat(text.clone()), Wait::Literal { text: text }, todo, env)
    } else {
        match parse_int(text.as_str()) {
            Some(n) => settle(Focus::Value(Type::Int(n)), todo, env),
            None => abort(EvalError::NotANumber, todo, env),
        }
    }
}

fn begin(node: Node, todo: Vec<Todo>, env: SymbolTable) -> (r: (Machine, Action))
    ensures
        env.well_formed() ==> r.0.env.well_formed(),
        shows(r, start(node@, todos(todo@), env@)),
{
    let mut env = env;
    match node {
        Node::VarDottedAccess { left, ident } => settle(
            Focus::Eval(*left),
            with_todo(todo, Todo::Member { ident: ident }),
            env,
        ),
        Node::StructCreate { name, fields } => {
            let copy = Type::Struct { name: name.clone(), fields: clone_names(&fields) };
            env.insert(name.clone(), copy);
            settle(Focus::Value(Type::Struct { name: name, fields: fields }), todo, env)
        },
        Node::List(items) => {
            let done: Vec<Type> = Vec::new();
            assert(values(done@) =~= Seq::<Value>::empty());
            begin_item(unboxed_reversed(items), done, todo, env)
        },
        Node::Program(n) => settle(Focus::Eval(*n), todo, env),
        Node::Node(n) => settle(Focus::Value(Type::Node(*n)), todo, env),
        Node::MultiStatement(stmts) => {
            assert(asts(stmts@).len() == stmts@.len());
            match next_node(reversed(stmts)) {
                (Some(n), rest) => settle(Focus::Eval(n), with_todo(todo, Todo::Sequence { rest: rest }), env),
                (None, _) => abort(EvalError::EmptySequence, todo, env),
            }
        },
        Node::Number(s) => read_literal(s, todo, env),
        Node::String(s) => settle(Focus::Value(Type::String(s)), todo, env),
        Node::VarAssign(name, value) => settle(Focus::Eval(*value), with_todo(todo, Todo::Bind { name: name }), env),
        Node::VarAccess(name) => {
            let v = env.clone_item(&name);
            settle(Focus::Value(v), todo, env)
        },
        Node::FuncAssign { name, params, body } => {
            let val = Type::Function { name: name.clone(), parameters: params, code: *body };
            env.insert(name, val.clone());
            settle(Focus::Value(val), todo, env)
        },
        Node::FunctionCall(callee, args) => settle(
            Focus::Eval(*callee),
            with_todo(todo, Todo::Callee { args: reversed(args) }),
            env,
        ),
        Node::While { condition, code } => {
            let first = Node::clone(&condition);
            settle(
                Focus::Eval(first),
                with_todo(todo, Todo::LoopTest { condition: *condition, code: *code, last: Type::Int(0) }),
                env,
            )
        },
        Node::Pipe(left, right) => settle(Focus::Eval(*left), with_todo(todo, Todo::Pipe { right: *right }), env),
        Node::If { condition, body, else_body } => {
            let other = match else_body {
                Some(e) => Some(*e),
                None => None,
            };
            settle(Focus::Eval(*condition), with_todo(todo, Todo::Branch { body: *body, else_body: other }), env)
        },
        Node::BinOp(left, op, right) => {
            let target = match op {
                TT::EQ => target_of(&left),
                _ => Target::Absent,
            };
            settle(
                Focus::Eval(*left),
                with_todo(todo, Todo::Left { op: op, target: target, right: *right }),
                env,
            )
        },
        Node::UnOp(op, right) => settle(Focus::Eval(*right), with_todo(todo, Todo::Unary { op: op }), env),
    }
}

fn carry_on(v: Type, todo: Vec<Todo>, env: SymbolTable) -> (r: (Machine, Action))
    ensures
        env.well_formed() ==> r.0.env.well_formed(),
        shows(r, resume(v@, todos(todo@), env@)),
{
    let mut env = env;
    match without_todo(todo) {
        (None, todo) => (Machine { focus: Focus::Halted, todo: todo, env: env }, Action::Done(v)),
        (Some(t), todo) => match t {
            Todo::Items { rest, done } => begin_item(rest, with_value(done, v), todo, env),
            Todo::Sequence { rest } => begin_statement(v, rest, todo, env),
            Todo::Bind { name } => {
                env.insert(name, v.clone());
                settle(Focus::Value(v), todo, env)
            },
            Todo::Callee { args } => {
                if v.is_callable() {
                    let done: Vec<Type> = Vec::new();
                    assert(values(done@) =~= Seq::<Value>::empty());
                    begin_argument(v, args, done, todo, env)
                } else {
                    abort(EvalError::NotCallable, todo, env)
                }
            },
            Todo::Arguments { func, rest, done } => begin_argument(func, rest, with_value(done, v), todo, env),
            Todo::Leave => {
                env.pop_scope();
                settle(Focus::Value(v), todo, env)
            },
            Todo::LoopTest { condition, code, last } => {
                if v.into_number().is_true() {
                    let body = code.clone();
                    settle(
                        Focus::Eval(body),
                        with_todo(todo, Todo::LoopBody { condition: condition, code: code }),
                        env,
                    )
                } else {
                    settle(Focus::Value(last), todo, env)
                }
            },
            Todo::LoopBody { condition, code } => {
                let test = condition.clone();
                settle(
                    Focus::Eval(test),
                    with_todo(todo, Todo::LoopTest { condition: condition, code: code, last: v }),
                    env,
                )
            },
            Todo::Pipe { right } => {
                env.insert(String::from_str("PIPE"), v);
                settle(Focus::Eval(right), todo, env)
            },
            Todo::Branch { body, else_body } => choose_branch(v, body, else_body, todo, env),
            Todo::Left { op, target, right } => settle(
                Focus::Eval(right),
                with_todo(todo, Todo::Right { op: op, target: target, left: v }),
                env,
            ),
            Todo::Right { op, target, left } => operate(op, target, left, v, todo, env),
            Todo::Unary { op } => flip(op, v, todo, env),
            Todo::Member { ident } => settle(Focus::Value(v.dot_access(ident)), todo, env),
        },
    }
}

fn take_reply(wait: Wait, reply: Reply, todo: Vec<Todo>, env: SymbolTable) -> (r: (Machine, Action))
    ensures
        env.well_formed() ==> r.0.env.well_formed(),
        shows(r, answer(wait@, reply@, todos(todo@), env@)),
{
    match wait {
        Wait::Unit => settle(Focus::Value(Type::Int(0)), todo, env),
        Wait::Failing(e) => abort(e, todo, env),
        Wait::Text => match reply {
            Reply::Text(s) => settle(Focus::Value(Type::String(s)), todo, env),
            _ => abort(EvalError::UnexpectedReply, todo, env),
        },
        Wait::Literal { text } => match reply {
            Reply::Parsed(Some(bits)) => settle(Focus::Value(Type::Float(bits)), todo, env),
            Reply::Parsed(None) => match parse_int(text.as_str()) {
                Some(n) => settle(Focus::Value(Type::Int(n)), todo, env),
                None => abort(EvalError::NotANumber, todo, env),
            },
            _ => abort(EvalError::UnexpectedReply, todo, env),
        },
        Wait::Truncated { op, left } => match reply {
            Reply::Int(right) => match int_binary(op, left, right) {
                Ok(n) => settle(Focus::Value(Type::Int(n)), todo, env),
                Err(e) => abort(e, todo, env),
            },
            _ => abort(EvalError::UnexpectedReply, todo, env),
        },
        Wait::Bits => match reply {
            Reply::Bits(bits) => settle(Focus::Value(Type::Float(bits)), todo, env),
            _ => abort(EvalError::UnexpectedReply, todo, env),
        },
        Wait::Flag => match reply {
            Reply::Flag(b) => settle(Focus::Value(Type::Int(if b { 1 } else { 0 })), todo, env),
            _ => abort(EvalError::UnexpectedReply, todo, env),
        },
        Wait::Returned => match reply {
            Reply::Returned(v) => settle(Focus::Value(v), todo, env),
            _ => abort(EvalError::UnexpectedReply, todo, env),
        },
    }
}

/// The state in which the evaluation of `program` starts in the given
/// scopes.
pub open spec fn initial(program: Ast, scopes: Seq<Map<Seq<char>, Value>>) -> State {
    State { focus: FocusView::Eval(program), todo: Seq::empty(), scopes: scopes }
}

/// The state after up to `limit` further steps that ask nothing of the
/// host, and the first request that is one (or `Continue` when the limit
/// is reached).
pub open spec fn run_spec(s: State, reply: ReplyView, limit: nat) -> (State, ActionView)
    decreases limit,
{
    let next = step_spec(s, reply);
    if next.1 is Continue && limit > 0 {
        run_spec(next.0, ReplyView::Nothing, (limit - 1) as nat)
    } else {
        next
    }
}

impl Machine {
    /// A machine that is about to evaluate `program` in the scopes `env`.
    pub fn new(program: Node, env: SymbolTable) -> (m: Machine)
        ensures
            m@ == initial(program@, env@),
            m.env == env,
    {
        let todo: Vec<Todo> = Vec::new();
        assert(todos(todo@) =~= Seq::<TodoView>::empty());
        Machine { focus: Focus::Eval(program), todo: todo, env: env }
    }

    /// One step of the evaluation. `reply` answers the request that the
    /// previous step made; it is looked at only where the machine waits
    /// for one.
    pub fn step(self, reply: Reply) -> (r: (Machine, Action))
        ensures
            shows(r, step_spec(self@, reply@)),
            self.env.well_formed() ==> r.0.env.well_formed(),
    {
        let Machine { focus, todo, env } = self;
        match focus {
            Focus::Eval(node) => begin(node, todo, env),
            Focus::Value(v) => carry_on(v, todo, env),
            Focus::Wait(w) => take_reply(w, reply, todo, env),
            Focus::Halted => abort(EvalError::Halted, todo, env),
        }
    }

    /// Steps until the machine asks something of the host, ends, fails, or
    /// has taken `limit` steps after the first.
    pub fn run(self, reply: Reply, limit: u64) -> (r: (Machine, Action))
        ensures
            shows(r, run_spec(self@, reply@, limit as nat)),
            self.env.well_formed() ==> r.0.env.well_formed(),
    {
        let ghost goal = run_spec(self@, reply@, limit as nat);
        let (mut machine, mut action) = self.step(reply);
        let mut left = limit;
        while left > 0
            invariant
                self.env.well_formed() ==> machine.env.well_formed(),
                goal == run_spec(self@, reply@, limit as nat),
                goal == (if action@ is Continue && left > 0 {
                    run_spec(machine@, ReplyView::Nothing, (left - 1) as nat)
                } else {
                    (machine@, action@)
                }),
            decreases left,
        {
            match action {
                Action::Continue => {
                    let (m, a) = machine.step(Reply::Nothing);
                    machine = m;
                    action = a;
                    left = left - 1;
                },
                _ => {
                    return (machine, action);
                },
            }
        }
        (machine, action)
    }
}

/// A native function as a value.
pub open spec fn builtin_value(name: Seq<char>, parameters: Seq<Seq<char>>, code: Builtin) -> Value {
    Value::BuiltinFunction { name: name, parameters: parameters, code: code }
}

/// The scopes with the native functions bound in the innermost scope:
/// `print`, `input`, `println`, `repr` and `set`.
pub open spec fn with_builtins(scopes: Seq<Map<Seq<char>, Value>>) -> Seq<Map<Seq<char>, Value>> {
    assign(
        assign(
            assign(
                assign(
                    assign(scopes, "print"@, builtin_value("print"@, seq!["...text"@], Builtin::Print)),
                    "input"@,
                    builtin_value("input"@, Seq::empty(), Builtin::Input),
                ),
                "println"@,
                builtin_value("println"@, seq!["...text"@], Builtin::Println),
            ),
            "repr"@,
            builtin_value("repr"@, seq!["text"@], Builtin::Repr),
        ),
        "set"@,
        builtin_value("set"@, seq!["str"@, "name"@, "val"@], Builtin::SetField),
    )
}

fn register(symbols: &mut SymbolTable, name: &str, parameters: Vec<String>, code: Builtin)
    ensures
        final(symbols)@ == assign(old(symbols)@, name@, builtin_value(name@, texts(parameters@), code)),
        old(symbols).well_formed() ==> final(symbols).well_formed(),
{
    let value = Type::BuiltinFunction { name: String::from_str(name), parameters: parameters, code: code };
    symbols.insert(String::from_str(name), value);
}

fn names1(a: &str) -> (r: Vec<String>)
    ensures
        texts(r@) == seq![a@],
{
    let mut v: Vec<String> = Vec::new();
    v.push(String::from_str(a));
    assert(texts(v@) =~= seq![a@]);
    v
}

fn names3(a: &str, b: &str, c: &str) -> (r: Vec<String>)
    ensures
        texts(r@) == seq![a@, b@, c@],
{
    let mut v: Vec<String> = Vec::new();
    v.push(String::from_str(a));
    v.push(String::from_str(b));
    v.push(String::from_str(c));
    assert(texts(v@) =~= seq![a@, b@, c@]);
    v
}

/// A machine that is about to run `program` in the scopes `symbols`,
/// after the native functions were bound in their innermost scope.
pub fn interpret(program: Node, symbols: SymbolTable) -> (m: Machine)
    ensures
        m@ == initial(program@, with_builtins(symbols@)),
        symbols.well_formed() ==> m.env.well_formed(),
{
    let mut symbols = symbols;
    let none: Vec<String> = Vec::new();
    assert(texts(none@) =~= Seq::<Seq<char>>::empty());
    register(&mut symbols, "print", names1("...text"), Builtin::Print);
    register(&mut symbols, "input", none, Builtin::Input);
    register(&mut symbols, "println", names1("...text"), Builtin::Println);
    register(&mut symbols, "repr", names1("text"), Builtin::Repr);
    register(&mut symbols, "set", names3("str", "name", "val"), Builtin::SetField);
    Machine::new(program, symbols)
}

impl Node {
    /// A machine that is about to evaluate the node in the scopes `env`.
    pub fn visit(&self, env: SymbolTable) -> (m: Machine)
        ensures
            m@ == initial(self@, env@),
            m.env == env,
    {
        Machine::new(self.clone(), env)
    }
}

impl Type {
    /// Calls the value with the given arguments in the scopes `env`:
    /// the machine after the call was made, and its first request.
    pub fn run(&self, given_params: Vec<Type>, env: SymbolTable) -> (r: (Machine, Action))
        ensures
            shows(r, invoke(self@, values(given_params@), Seq::empty(), env@)),
            env.well_formed() ==> r.0.env.well_formed(),
    {
        let todo: Vec<Todo> = Vec::new();
        assert(todos(todo@) =~= Seq::<TodoView>::empty());
        call(self.clone(), given_params, todo, env)
    }
}

} // verus!
