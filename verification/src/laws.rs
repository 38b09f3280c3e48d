//! What holds of the evaluator whatever the program: how scopes are kept
//! apart, how calls bind their arguments, and how numbers are combined
//! and tested.

use vstd::prelude::*;
use crate::interpreter::{
    answer, branch, go, invoke, leave, native, resume, start, step_spec, store, ActionView, FocusView, Place,
    ReplyView, State, TodoView, WaitView,
};
use crate::nodes::Ast;
use crate::symbol_table::{assign, local, lookup};
use crate::types::{call_frame, shorter, zip_bindings, Builtin, Calc, EvalError, Number, Operator, Value};

verus! {

/// How one step may change the chain of scopes: it binds a name in the
/// innermost scope, enters a new innermost scope, or leaves the innermost
/// scope. It never changes a scope that is not the innermost.
pub open spec fn outer_kept(before: Seq<Map<Seq<char>, Value>>, after: Seq<Map<Seq<char>, Value>>) -> bool {
    ||| (after.len() == before.len() && forall|i: int|
        0 <= i < before.len() - 1 ==> after[i] == before[i])
    ||| (after.len() == before.len() + 1 && after.drop_last() == before)
    ||| (before.len() > 0 && after == before.drop_last())
}

/// Binding a name changes the innermost scope only.
pub proof fn assign_keeps_outer(scopes: Seq<Map<Seq<char>, Value>>, key: Seq<char>, value: Value)
    ensures
        outer_kept(scopes, assign(scopes, key, value)),
        scopes.len() > 0 ==> assign(scopes, key, value).drop_last() == scopes.drop_last(),
        lookup(assign(scopes, key, value), key) == value,
{
    let after = assign(scopes, key, value);
    if scopes.len() == 0 {
        assert(after.drop_last() =~= scopes);
    } else {
        assert(after.drop_last() =~= scopes.drop_last());
    }
}

/// Inside a call, a name that the callee's scope does not bind resolves
/// as it does for the caller, and a name that it binds hides the
/// caller's binding without changing it.
pub proof fn callee_reads_caller(
    scopes: Seq<Map<Seq<char>, Value>>,
    frame: Map<Seq<char>, Value>,
    key: Seq<char>,
    value: Value,
)
    ensures
        !frame.dom().contains(key) ==> lookup(scopes.push(frame), key) == lookup(scopes, key),
        frame.dom().contains(key) ==> lookup(scopes.push(frame), key) == frame[key],
        assign(scopes.push(frame), key, value).drop_last() == scopes,
        leave(assign(scopes.push(frame), key, value)) == scopes,
{
    let inner = scopes.push(frame);
    assert(inner.drop_last() =~= scopes);
    assert(assign(inner, key, value).drop_last() =~= scopes);
}

proof fn native_keeps(
    name: Seq<char>,
    code: Builtin,
    frame: Map<Seq<char>, Value>,
    args: Seq<Value>,
    todo: Seq<TodoView>,
    scopes: Seq<Map<Seq<char>, Value>>,
)
    ensures
        native(name, code, frame, args, todo, scopes).0.scopes == scopes,
{
}

proof fn invoke_keeps(func: Value, args: Seq<Value>, todo: Seq<TodoView>, scopes: Seq<Map<Seq<char>, Value>>)
    ensures
        outer_kept(scopes, invoke(func, args, todo, scopes).0.scopes),
        !(func is Function) ==> invoke(func, args, todo, scopes).0.scopes == scopes,
{
    match func {
        Value::Function { name, parameters, code } => {
            assert(scopes.push(call_frame(parameters, args)).drop_last() =~= scopes);
        },
        Value::BuiltinFunction { name, parameters, code } => {
            native_keeps(name, code, call_frame(parameters, args), args, todo, scopes);
        },
        _ => {},
    }
}

proof fn store_keeps(target: Place, value: Value, todo: Seq<TodoView>, scopes: Seq<Map<Seq<char>, Value>>)
    ensures
        outer_kept(scopes, store(target, value, todo, scopes).0.scopes),
{
    match target {
        Place::Variable(name) => {
            assign_keeps_outer(scopes, name, value);
        },
        Place::Field { root, ident } => {
            match local(scopes, root) {
                Some(owner) => {
                    assign_keeps_outer(scopes, root, owner.with_attr(ident, value));
                },
                None => {},
            }
        },
        _ => {},
    }
}

proof fn start_keeps(node: Ast, todo: Seq<TodoView>, scopes: Seq<Map<Seq<char>, Value>>)
    ensures
        outer_kept(scopes, start(node, todo, scopes).0.scopes),
{
    match node {
        Ast::StructCreate { name, fields } => {
            assign_keeps_outer(scopes, name, Value::Struct { name: name, fields: fields });
        },
        Ast::FuncAssign { name, params, body } => {
            assign_keeps_outer(
                scopes,
                name,
                Value::Function { name: name, parameters: params, code: *body },
            );
        },
        _ => {},
    }
}

proof fn resume_keeps(v: Value, todo: Seq<TodoView>, scopes: Seq<Map<Seq<char>, Value>>)
    ensures
        outer_kept(scopes, resume(v, todo, scopes).0.scopes),
{
    if todo.len() > 0 {
        let outer = todo.drop_last();
        match todo.last() {
            TodoView::Bind { name } => {
                assign_keeps_outer(scopes, name, v);
            },
            TodoView::Callee { args } => {
                if v.callable() && args.len() == 0 {
                    invoke_keeps(v, Seq::empty(), outer, scopes);
                }
            },
            TodoView::Arguments { func, rest, done } => {
                if rest.len() == 0 {
                    invoke_keeps(func, done.push(v), outer, scopes);
                }
            },
            TodoView::Pipe { right } => {
                assign_keeps_outer(scopes, "PIPE"@, v);
            },
            TodoView::Right { op, target, left } => {
                if op is Eq {
                    store_keeps(target, v, outer, scopes);
                }
            },
            _ => {},
        }
    }
}

/// Scope isolation, step by step: whatever the state and the host's
/// reply, a step changes at most the innermost scope, or enters or leaves
/// one. The scopes of the callers are never written to.
pub proof fn step_keeps_outer_scopes(s: State, reply: ReplyView)
    ensures
        outer_kept(s.scopes, step_spec(s, reply).0.scopes),
{
    match s.focus {
        FocusView::Eval(node) => {
            start_keeps(node, s.todo, s.scopes);
        },
        FocusView::Value(v) => {
            resume_keeps(v, s.todo, s.scopes);
        },
        FocusView::Wait(w) => {},
        FocusView::Halted => {},
    }
}

/// The state after the machine has taken one step for each of the
/// replies, in their order.
pub open spec fn after_steps(s: State, replies: Seq<ReplyView>) -> State
    decreases replies.len(),
{
    if replies.len() == 0 {
        s
    } else {
        step_spec(after_steps(s, replies.drop_last()), replies.last()).0
    }
}

/// Whether the chain holds at least `depth` scopes after each of the
/// steps taken for the replies (and before the first).
pub open spec fn stays_inside(s: State, replies: Seq<ReplyView>, depth: nat) -> bool {
    forall|k: int| 0 <= k <= replies.len() ==> (#[trigger] after_steps(s, replies.subrange(0, k))).scopes.len()
        >= depth
}

/// Scope isolation, over a whole call: as long as the chain of scopes
/// stays at least `depth` deep, the scopes below the innermost of those
/// `depth` are what they were. So while a callee runs in the scope at
/// position `depth - 1`, whatever it assigns, no scope of its callers
/// changes; and when it has returned, the caller finds its own bindings
/// as they were, and those of the callee are gone with its scope.
pub proof fn call_keeps_outer_scopes(s: State, replies: Seq<ReplyView>, depth: nat)
    requires
        depth >= 1,
        stays_inside(s, replies, depth),
    ensures
        after_steps(s, replies).scopes.len() >= depth,
        after_steps(s, replies).scopes.subrange(0, depth - 1) == s.scopes.subrange(0, depth - 1),
    decreases replies.len(),
{
    assert(replies.subrange(0, replies.len() as int) =~= replies);
    if replies.len() > 0 {
        let before = replies.drop_last();
        assert forall|k: int| 0 <= k <= before.len() implies (#[trigger] after_steps(
            s,
            before.subrange(0, k),
        )).scopes.len() >= depth by {
            assert(before.subrange(0, k) =~= replies.subrange(0, k));
        }
        call_keeps_outer_scopes(s, before, depth);
        let mid = after_steps(s, before);
        step_keeps_outer_scopes(mid, replies.last());
        let end = step_spec(mid, replies.last()).0;
        assert(end == after_steps(s, replies));
        assert(end.scopes.subrange(0, depth - 1) =~= mid.scopes.subrange(0, depth - 1));
    } else {
        assert(replies.subrange(0, 0) =~= replies);
    }
}

/// What the first `n` parameters are bound to: a parameter that no later
/// one of the first `n` repeats is bound to the argument at its
/// position.
pub proof fn zip_binds_by_position(names: Seq<Seq<char>>, vals: Seq<Value>, n: nat, i: int)
    requires
        0 <= i < n <= names.len(),
        n <= vals.len(),
        forall|j: int| i < j < n ==> names[j] != names[i],
    ensures
        zip_bindings(names, vals, n).dom().contains(names[i]),
        zip_bindings(names, vals, n)[names[i]] == vals[i],
    decreases n,
{
    if i < n - 1 {
        zip_binds_by_position(names, vals, (n - 1) as nat, i);
    }
}

/// How a call binds its arguments: `ARGV` is bound to the list of all
/// arguments, also those beyond the declared parameters, in their order;
/// and each declared parameter that has an argument (and that is not
/// named `ARGV`, and that no later parameter with an argument repeats)
/// is bound to the argument at its position.
pub proof fn call_binds_arguments(parameters: Seq<Seq<char>>, args: Seq<Value>, i: int)
    ensures
        call_frame(parameters, args).dom().contains("ARGV"@),
        call_frame(parameters, args)["ARGV"@] == Value::List(args),
        (0 <= i < parameters.len() && i < args.len() && parameters[i] != "ARGV"@ && (forall|j: int|
            i < j < shorter(parameters.len(), args.len()) ==> parameters[j] != parameters[i]))
            ==> call_frame(parameters, args).dom().contains(parameters[i]) && call_frame(
            parameters,
            args,
        )[parameters[i]] == args[i],
{
    if 0 <= i < parameters.len() && i < args.len() && parameters[i] != "ARGV"@ && (forall|j: int|
        i < j < shorter(parameters.len(), args.len()) ==> parameters[j] != parameters[i]) {
        zip_binds_by_position(parameters, args, shorter(parameters.len(), args.len()), i);
    }
}

/// The kind of the left operand decides how two numbers are combined:
/// with an integer on the left the operation is one on integers (a
/// floating-point right operand is cut to an integer first), with a
/// floating-point number on the left it is one of floating-point
/// arithmetic on the right operand as it is or widened.
pub proof fn left_kind_wins(op: Operator, l: Number, r: Number)
    ensures
        l is Int && r is Int ==> (Number::combine_spec(op, l, r) is Done || Number::combine_spec(op, l, r)
            is Failed),
        l is Int && r is Float ==> Number::combine_spec(op, l, r) == (Calc::Truncate {
            op: op,
            left: l->Int_0,
            right: r->Float_0,
        }),
        l is Float ==> Number::combine_spec(op, l, r) == (Calc::Floating { op: op, left: l->Float_0, right: r }),
{
}

/// Only a nonzero integer is true: a conditional whose condition is a
/// floating-point number (or becomes one, as undefined does) selects its
/// else branch, as one whose condition is zero does, and one whose
/// condition is a nonzero integer selects its body.
pub proof fn truthiness(
    v: Value,
    body: Ast,
    else_body: Option<Ast>,
    todo: Seq<TodoView>,
    scopes: Seq<Map<Seq<char>, Value>>,
)
    ensures
        v.number() is Float ==> branch(v, body, else_body, todo, scopes) == branch(
            Value::Int(0),
            body,
            else_body,
            todo,
            scopes,
        ),
        (v.number() is Float || v.number() == Number::Int(0)) && else_body is Some ==> branch(
            v,
            body,
            else_body,
            todo,
            scopes,
        ) == go(FocusView::Eval(else_body->0), todo, scopes),
        v.number() is Int && v.number()->Int_0 != 0 ==> branch(v, body, else_body, todo, scopes) == go(
            FocusView::Eval(body),
            todo,
            scopes,
        ),
        v is Float ==> !v.number().truthy(),
        v is Undefined ==> !v.number().truthy(),
{
}

/// Whether a reply is of the kind that the machine waits for.
pub open spec fn fits(wait: WaitView, reply: ReplyView) -> bool {
    match wait {
        WaitView::Unit => true,
        WaitView::Failing(_) => true,
        WaitView::Text => reply is Text,
        WaitView::Literal { .. } => reply is Parsed,
        WaitView::Truncated { .. } => reply is Int,
        WaitView::Bits => reply is Bits,
        WaitView::Flag => reply is Flag,
        WaitView::Returned => reply is Returned,
    }
}

/// Whether the machine, having made a request, waits for the reply that
/// answers it.
pub open spec fn awaits(action: ActionView, focus: FocusView) -> bool {
    match action {
        ActionView::Continue => !(focus is Wait) && !(focus is Halted),
        ActionView::Print(_) => focus is Wait && (focus->Wait_0 is Unit || focus->Wait_0 is Failing),
        ActionView::ReadLine => focus == FocusView::Wait(WaitView::Text),
        ActionView::Format(_) => focus == FocusView::Wait(WaitView::Text),
        ActionView::Native { .. } => focus == FocusView::Wait(WaitView::Returned),
        ActionView::ParseFloat(text) => focus == FocusView::Wait(WaitView::Literal { text: text }),
        ActionView::Truncate(_) => focus is Wait && focus->Wait_0 is Truncated,
        ActionView::Arithmetic { op, left, right } => focus == FocusView::Wait(WaitView::Bits) && !op.compares(),
        ActionView::Compare { op, left, right } => focus == FocusView::Wait(WaitView::Flag) && op.compares(),
        ActionView::Done(_) => focus is Halted,
        ActionView::Fail(_) => focus is Halted,
    }
}

/// The machine and its host take turns: after a request the machine
/// waits for the reply that answers it, after the end or a failure it is
/// halted, and otherwise it goes on by itself. Floating-point arithmetic
/// is asked for with an arithmetic operator only, and a comparison with a
/// relational one.
pub proof fn requests_are_awaited(s: State, reply: ReplyView)
    ensures
        awaits(step_spec(s, reply).1, step_spec(s, reply).0.focus),
{
    match s.focus {
        FocusView::Eval(node) => {},
        FocusView::Value(v) => {},
        FocusView::Wait(w) => {},
        FocusView::Halted => {},
    }
}

/// A reply of the kind that the machine waits for is taken: the step
/// does not fail for an unexpected reply.
pub proof fn fitting_reply_is_taken(
    wait: WaitView,
    reply: ReplyView,
    todo: Seq<TodoView>,
    scopes: Seq<Map<Seq<char>, Value>>,
)
    requires
        fits(wait, reply),
        !(wait is Failing),
    ensures
        answer(wait, reply, todo, scopes).1 != ActionView::Fail(EvalError::UnexpectedReply),
{
}

} // verus!
