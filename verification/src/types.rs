//! The dynamic value model.

use vstd::prelude::*;
use crate::nodes::{clone_names, printable, repr_text, texts, Ast, Node};
use vstd::string::StringSliceAdditionalSpecFns;
use vstd::string::StringExecFns;
use crate::text::{bytes_of, int_text, int_to_string, same_text};
use crate::tokens::{Token, TT};

verus! {

/// A native function of the language.
#[derive(Clone, Copy, Debug, PartialEq, Eq, Structural)]
pub enum Builtin {
    Print,
    Println,
    Input,
    Repr,
    SetField,
    /// A native function of the host, known by the name of the value
    /// that holds it: the host is handed the arguments of a call and
    /// replies with the value that the call gives.
    Host,
}

/// A number: an integer, or a floating-point number held as the bits of
/// its IEEE-754 binary64 encoding.
#[derive(Clone, Copy, Debug, PartialEq, Eq, Structural)]
pub enum Number {
    Int(i64),
    Float(u64),
}

/// A runtime value. A floating-point value is held as the bits of its
/// IEEE-754 binary64 encoding. The fields of a struct instance are a map
/// from field name to value, held as a list of named values so that
/// every lookup and update is proved: the first entry of a name is the
/// one that counts, and the library never adds a second entry of a name
/// (see `distinct_names`).
#[derive(Debug, PartialEq)]
#[allow(inconsistent_fields)]
pub enum Type {
    Float(u64),
    Int(i64),
    String(String),
    Undefined,
    List(Vec<Box<Type>>),
    Node(Node),
    Struct { name: String, fields: Vec<String> },
    StructInstance { name: String, fields: Vec<(String, Type)> },
    Function { name: String, parameters: Vec<String>, code: Node },
    BuiltinFunction { name: String, parameters: Vec<String>, code: Builtin },
}

/// A runtime value as a mathematical value: the fields of a struct
/// instance are a map from field name to value.
#[allow(inconsistent_fields)]
pub ghost enum Value {
    Float(u64),
    Int(i64),
    Str(Seq<char>),
    Undefined,
    List(Seq<Value>),
    Quote(Ast),
    Struct { name: Seq<char>, fields: Seq<Seq<char>> },
    StructInstance { name: Seq<char>, fields: Map<Seq<char>, Value> },
    Function { name: Seq<char>, parameters: Seq<Seq<char>>, code: Ast },
    BuiltinFunction { name: Seq<char>, parameters: Seq<Seq<char>>, code: Builtin },
}

/// Whether no name occurs twice in a list of named values, as in a map.
/// The functions of the library keep a list that way.
pub open spec fn distinct_names(entries: Seq<(String, Type)>) -> bool {
    forall|i: int, j: int|
        0 <= i < j < entries.len() ==> (#[trigger] entries[i]).0@ != (#[trigger] entries[j]).0@
}

/// Whether a value, where it is a struct instance, has each of its field
/// names once.
pub open spec fn fields_distinct(t: Type) -> bool {
    match t {
        Type::StructInstance { name, fields } => distinct_names(fields@),
        _ => true,
    }
}

/// The index of the first entry named `key`, or the number of entries if
/// there is none.
pub open spec fn entry_index(entries: Seq<(String, Type)>, key: Seq<char>) -> int
    decreases entries.len(),
{
    if entries.len() == 0 {
        0
    } else if entries[0].0@ == key {
        0
    } else {
        1 + entry_index(entries.drop_first(), key)
    }
}

/// The map that a list of named values stands for: each name is bound to
/// the value of its first entry.
pub open spec fn bindings(entries: Seq<(String, Type)>) -> Map<Seq<char>, Value>
    decreases entries,
{
    Map::new(
        |k: Seq<char>| entry_index(entries, k) < entries.len(),
        |k: Seq<char>|
            {
                let i = entry_index(entries, k);
                if 0 <= i < entries.len() {
                    value_of(entries[i].1)
                } else {
                    Value::Undefined
                }
            },
    )
}

/// The values of a sequence of boxed values.
pub open spec fn boxed_values(v: Seq<Box<Type>>) -> Seq<Value>
    decreases v,
{
    Seq::new(v.len(), |i: int| if 0 <= i < v.len() { value_of(*v[i]) } else { Value::Undefined })
}

/// The values of a sequence of values.
pub open spec fn values(v: Seq<Type>) -> Seq<Value> {
    Seq::new(v.len(), |i: int| value_of(v[i]))
}

/// The mathematical value that a runtime value stands for.
pub open spec fn value_of(t: Type) -> Value
    decreases t,
{
    match t {
        Type::Float(bits) => Value::Float(bits),
        Type::Int(n) => Value::Int(n),
        Type::String(s) => Value::Str(s@),
        Type::Undefined => Value::Undefined,
        Type::List(items) => Value::List(boxed_values(items@)),
        Type::Node(n) => Value::Quote(n@),
        Type::Struct { name, fields } => Value::Struct { name: name@, fields: texts(fields@) },
        Type::StructInstance { name, fields } => Value::StructInstance {
            name: name@,
            fields: bindings(fields@),
        },
        Type::Function { name, parameters, code } => Value::Function {
            name: name@,
            parameters: texts(parameters@),
            code: code@,
        },
        Type::BuiltinFunction { name, parameters, code } => Value::BuiltinFunction {
            name: name@,
            parameters: texts(parameters@),
            code: code,
        },
    }
}

impl View for Type {
    type V = Value;

    open spec fn view(&self) -> Value {
        value_of(*self)
    }
}

/// `entry_index` gives the first entry of the name, if there is one.
pub proof fn entry_index_first(entries: Seq<(String, Type)>, key: Seq<char>)
    ensures
        0 <= entry_index(entries, key) <= entries.len(),
        entry_index(entries, key) < entries.len() ==> entries[entry_index(entries, key)].0@ == key,
        forall|j: int| 0 <= j < entry_index(entries, key) ==> (#[trigger] entries[j]).0@ != key,
    decreases entries.len(),
{
    if entries.len() != 0 && entries[0].0@ != key {
        let rest = entries.drop_first();
        entry_index_first(rest, key);
        assert forall|j: int| 0 <= j < entry_index(entries, key) implies (#[trigger] entries[j]).0@
            != key by {
            if j > 0 {
                assert(rest[j - 1] == entries[j]);
            }
        }
    }
}

/// An entry of the name with none before it is the entry that
/// `entry_index` gives.
pub proof fn entry_index_at(entries: Seq<(String, Type)>, key: Seq<char>, i: int)
    requires
        0 <= i <= entries.len(),
        i < entries.len() ==> entries[i].0@ == key,
        forall|j: int| 0 <= j < i ==> (#[trigger] entries[j]).0@ != key,
    ensures
        entry_index(entries, key) == i,
{
    entry_index_first(entries, key);
    let k = entry_index(entries, key);
    if k < i {
        assert(entries[k].0@ == key);
    } else if k > i {
        assert(entries[i].0@ == key);
    }
}

/// What the map of a list of named values holds under one name.
pub proof fn bindings_at(entries: Seq<(String, Type)>, key: Seq<char>)
    ensures
        0 <= entry_index(entries, key) <= entries.len(),
        bindings(entries).dom().contains(key) == (entry_index(entries, key) < entries.len()),
        entry_index(entries, key) < entries.len() ==> bindings(entries)[key] == value_of(
            entries[entry_index(entries, key)].1,
        ),
{
    entry_index_first(entries, key);
}

/// Two lists with the same names and the same values, entry by entry,
/// stand for the same map.
pub proof fn bindings_same(a: Seq<(String, Type)>, b: Seq<(String, Type)>)
    requires
        a.len() == b.len(),
        forall|i: int| 0 <= i < a.len() ==> (#[trigger] a[i]).0@ == b[i].0@ && value_of(a[i].1) == value_of(b[i].1),
    ensures
        bindings(a) == bindings(b),
{
    assert forall|k: Seq<char>| entry_index(a, k) == entry_index(b, k) by {
        entry_index_first(a, k);
        let i = entry_index(a, k);
        assert forall|j: int| 0 <= j < i implies (#[trigger] b[j]).0@ != k by {
            assert(a[j].0@ != k);
        }
        if i < a.len() {
            assert(a[i].0@ == k);
        }
        entry_index_at(b, k, i);
    }
    assert(bindings(a) =~= bindings(b));
}

/// Replacing the value of the first entry of a name rebinds that name and
/// no other.
pub proof fn bindings_update(entries: Seq<(String, Type)>, i: int, key: String, value: Type)
    requires
        0 <= i < entries.len(),
        i == entry_index(entries, key@),
    ensures
        bindings(entries.update(i, (key, value))) == bindings(entries).insert(key@, value_of(value)),
{
    let after = entries.update(i, (key, value));
    let want = bindings(entries).insert(key@, value_of(value));
    entry_index_first(entries, key@);
    assert forall|k: Seq<char>|
        #[trigger] bindings(after).dom().contains(k) == want.dom().contains(k) && (
        want.dom().contains(k) ==> bindings(after)[k] == want[k]) by {
        entry_index_first(entries, k);
        let e = entry_index(entries, k);
        assert forall|j: int| 0 <= j < e implies (#[trigger] after[j]).0@ != k by {
            assert(entries[j].0@ != k);
        }
        if e < entries.len() {
            assert(entries[e].0@ == k);
        }
        entry_index_at(after, k, e);
        bindings_at(after, k);
        bindings_at(entries, k);
    }
    assert(bindings(after).dom() =~= want.dom());
    assert(bindings(after) =~= want);
}

/// Appending an entry under a name that has none binds that name and
/// changes no other.
pub proof fn bindings_push(entries: Seq<(String, Type)>, key: String, value: Type)
    requires
        entry_index(entries, key@) == entries.len(),
    ensures
        bindings(entries.push((key, value))) == bindings(entries).insert(key@, value_of(value)),
{
    let after = entries.push((key, value));
    let want = bindings(entries).insert(key@, value_of(value));
    entry_index_first(entries, key@);
    assert forall|k: Seq<char>|
        #[trigger] bindings(after).dom().contains(k) == want.dom().contains(k) && (
        want.dom().contains(k) ==> bindings(after)[k] == want[k]) by {
        entry_index_first(entries, k);
        let e = entry_index(entries, k);
        if e < entries.len() {
            assert forall|j: int| 0 <= j < e implies (#[trigger] after[j]).0@ != k by {
                assert(entries[j].0@ != k);
            }
            assert(after[e] == entries[e]);
            entry_index_at(after, k, e);
        } else if k == key@ {
            assert forall|j: int| 0 <= j < entries.len() implies (#[trigger] after[j]).0@ != k by {
                assert(entries[j].0@ != k);
            }
            assert(after[entries.len() as int] == (key, value));
            entry_index_at(after, k, entries.len() as int);
        } else {
            assert forall|j: int| 0 <= j < after.len() implies (#[trigger] after[j]).0@ != k by {
                if j < entries.len() {
                    assert(entries[j].0@ != k);
                }
            }
            entry_index_at(after, k, after.len() as int);
        }
        bindings_at(after, k);
        bindings_at(entries, k);
    }
    assert(bindings(after).dom() =~= want.dom());
    assert(bindings(after) =~= want);
}

/// The position of the first entry named `key`.
pub fn find_entry(entries: &Vec<(String, Type)>, key: &str) -> (r: Option<usize>)
    ensures
        match r {
            Some(i) => i < entries.len() && i == entry_index(entries@, key@),
            None => entry_index(entries@, key@) == entries.len(),
        },
{
    let mut i: usize = 0;
    while i < entries.len()
        invariant
            i <= entries.len(),
            forall|j: int| 0 <= j < i ==> (#[trigger] entries@[j]).0@ != key@,
        decreases entries.len() - i,
    {
        if same_text(entries[i].0.as_str(), key) {
            proof {
                entry_index_at(entries@, key@, i as int);
            }
            return Some(i);
        }
        i += 1;
    }
    proof {
        entry_index_at(entries@, key@, i as int);
    }
    None
}

/// Binds `key` to `value`: the first entry of the name is replaced, or a
/// new entry is added when there is none.
pub fn set_entry(entries: &mut Vec<(String, Type)>, key: String, value: Type)
    ensures
        bindings(final(entries)@) == bindings(old(entries)@).insert(key@, value@),
        distinct_names(old(entries)@) ==> distinct_names(final(entries)@),
{
    proof {
        entry_index_first(entries@, key@);
    }
    match find_entry(entries, key.as_str()) {
        Some(i) => {
            proof {
                bindings_update(entries@, i as int, key, value);
            }
            entries.set(i, (key, value));
            assert(distinct_names(old(entries)@) ==> distinct_names(entries@)) by {
                if distinct_names(old(entries)@) {
                    assert forall|a: int, b: int| 0 <= a < b < entries@.len() implies (#[trigger] entries@[a]).0@
                        != (#[trigger] entries@[b]).0@ by {
                        assert(old(entries)@[a].0@ != old(entries)@[b].0@);
                    }
                }
            }
        },
        None => {
            proof {
                bindings_push(entries@, key, value);
            }
            entries.push((key, value));
            assert(distinct_names(old(entries)@) ==> distinct_names(entries@)) by {
                if distinct_names(old(entries)@) {
                    assert forall|a: int, b: int| 0 <= a < b < entries@.len() implies (#[trigger] entries@[a]).0@
                        != (#[trigger] entries@[b]).0@ by {
                        if b < old(entries)@.len() {
                            assert(old(entries)@[a].0@ != old(entries)@[b].0@);
                        } else {
                            assert(old(entries)@[a].0@ != key@);
                        }
                    }
                }
            }
        },
    }
}

/// A deep copy of a list of boxed values.
pub fn clone_boxed_values(v: &Vec<Box<Type>>) -> (r: Vec<Box<Type>>)
    ensures
        boxed_values(r@) == boxed_values(v@),
    decreases v,
{
    let mut out: Vec<Box<Type>> = Vec::new();
    let mut i: usize = 0;
    while i < v.len()
        invariant
            i <= v.len(),
            out@.len() == i,
            forall|j: int| 0 <= j < i ==> out@[j]@ == v@[j]@,
        decreases v.len() - i,
    {
        assert(decreases_to!(v => v[i as int]));
        out.push(Box::new(Type::clone(&v[i])));
        i += 1;
    }
    assert(boxed_values(out@) =~= boxed_values(v@));
    out
}

/// A deep copy of a list of named values.
pub fn clone_entries(v: &Vec<(String, Type)>) -> (r: Vec<(String, Type)>)
    ensures
        bindings(r@) == bindings(v@),
        distinct_names(v@) ==> distinct_names(r@),
    decreases v,
{
    let mut out: Vec<(String, Type)> = Vec::new();
    let mut i: usize = 0;
    while i < v.len()
        invariant
            i <= v.len(),
            out@.len() == i,
            forall|j: int| 0 <= j < i ==> (#[trigger] out@[j]).0@ == v@[j].0@ && value_of(out@[j].1) == value_of(v@[j].1),
        decreases v.len() - i,
    {
        assert(decreases_to!(v => v[i as int]));
        assert(decreases_to!(v[i as int] => v[i as int].1));
        out.push((v[i].0.clone(), v[i].1.clone()));
        i += 1;
    }
    proof {
        bindings_same(out@, v@);
        if distinct_names(v@) {
            assert forall|a: int, b: int| 0 <= a < b < out@.len() implies (#[trigger] out@[a]).0@ != (
            #[trigger] out@[b]).0@ by {
                assert(v@[a].0@ != v@[b].0@);
            }
        }
    }
    out
}

impl Clone for Type {
    /// A deep copy: an independent value with the same contents.
    fn clone(&self) -> (r: Self)
        ensures
            r@ == self@,
        decreases self,
    {
        match self {
            Type::Float(bits) => Type::Float(*bits),
            Type::Int(n) => Type::Int(*n),
            Type::String(s) => Type::String(s.clone()),
            Type::Undefined => Type::Undefined,
            Type::List(items) => Type::List(clone_boxed_values(items)),
            Type::Node(n) => Type::Node(n.clone()),
            Type::Struct { name, fields } => Type::Struct {
                name: name.clone(),
                fields: clone_names(fields),
            },
            Type::StructInstance { name, fields } => Type::StructInstance {
                name: name.clone(),
                fields: clone_entries(fields),
            },
            Type::Function { name, parameters, code } => Type::Function {
                name: name.clone(),
                parameters: clone_names(parameters),
                code: code.clone(),
            },
            Type::BuiltinFunction { name, parameters, code } => Type::BuiltinFunction {
                name: name.clone(),
                parameters: clone_names(parameters),
                code: *code,
            },
        }
    }
}

/// A fatal error of the evaluator.
#[derive(Clone, Copy, Debug, PartialEq, Eq, Structural)]
pub enum EvalError {
    /// The callee of a call is not a function, a builtin, a struct or
    /// quoted code.
    NotCallable,
    /// The left side of an assignment is neither a variable nor a dotted
    /// access.
    NotAssignable,
    /// The dotted access on the left side of an assignment does not start
    /// at a variable.
    WeirdExpression,
    /// The variable of a dotted assignment is not bound in the innermost
    /// scope.
    UnboundTarget,
    /// A statement sequence holds no statement.
    EmptySequence,
    /// A number literal is not a number.
    NotANumber,
    /// A token that is no binary operator stands in a binary operation.
    InvalidOperator,
    /// A token that is neither `+` nor `-` stands in a unary operation.
    InvalidUnary,
    /// The field-setting builtin was called on something else than a
    /// struct instance, a field name and a value.
    SetOnNonStruct,
    /// The printing builtin for literal forms was called without an
    /// argument.
    MissingArgument,
    /// Quoted code that holds a node without a printed form was asked for
    /// its literal form.
    Unprintable,
    /// An integer operation left the 64-bit range.
    Overflow,
    /// An integer division by zero.
    DivisionByZero,
    /// The reply handed to the machine does not answer its request.
    UnexpectedReply,
    /// The machine was stepped after it had finished.
    Halted,
}

impl EvalError {
    /// The message that describes the error.
    pub open spec fn text(self) -> Seq<char> {
        match self {
            EvalError::NotCallable => "Cannot call a value that is no function, struct or quoted code"@,
            EvalError::NotAssignable => "Cannot assign to this expression"@,
            EvalError::WeirdExpression => "Weird expression"@,
            EvalError::UnboundTarget => "Cannot set a field of a variable that this scope does not bind"@,
            EvalError::EmptySequence => "No nodes"@,
            EvalError::NotANumber => "Not a number"@,
            EvalError::InvalidOperator => "Not a valid binary op"@,
            EvalError::InvalidUnary => "Not a valid unary op"@,
            EvalError::SetOnNonStruct => "Cannot use set on non-struct"@,
            EvalError::MissingArgument => "repr needs an argument"@,
            EvalError::Unprintable => "This code has no printed form"@,
            EvalError::Overflow => "Integer overflow"@,
            EvalError::DivisionByZero => "Division by zero"@,
            EvalError::UnexpectedReply => "The host gave a reply of the wrong kind"@,
            EvalError::Halted => "The program has ended already"@,
        }
    }

    /// The message that describes the error.
    pub fn describe(&self) -> (r: &'static str)
        ensures
            r@ == self.text(),
    {
        match self {
            EvalError::NotCallable => "Cannot call a value that is no function, struct or quoted code",
            EvalError::NotAssignable => "Cannot assign to this expression",
            EvalError::WeirdExpression => "Weird expression",
            EvalError::UnboundTarget => "Cannot set a field of a variable that this scope does not bind",
            EvalError::EmptySequence => "No nodes",
            EvalError::NotANumber => "Not a number",
            EvalError::InvalidOperator => "Not a valid binary op",
            EvalError::InvalidUnary => "Not a valid unary op",
            EvalError::SetOnNonStruct => "Cannot use set on non-struct",
            EvalError::MissingArgument => "repr needs an argument",
            EvalError::Unprintable => "This code has no printed form",
            EvalError::Overflow => "Integer overflow",
            EvalError::DivisionByZero => "Division by zero",
            EvalError::UnexpectedReply => "The host gave a reply of the wrong kind",
            EvalError::Halted => "The program has ended already",
        }
    }
}

/// A binary operator on numbers.
#[derive(Clone, Copy, Debug, PartialEq, Eq, Structural)]
pub enum Operator {
    Add,
    Sub,
    Mul,
    Div,
    Gt,
    Lt,
    Le,
    Ge,
    EqEq,
}

impl Operator {
    /// The operator that a token denotes.
    pub open spec fn of_token(t: Token) -> Option<Operator> {
        match t {
            Token::Mul => Some(Operator::Mul),
            Token::Div => Some(Operator::Div),
            Token::Minus => Some(Operator::Sub),
            Token::Plus => Some(Operator::Add),
            Token::Gt => Some(Operator::Gt),
            Token::Lt => Some(Operator::Lt),
            Token::Le => Some(Operator::Le),
            Token::Ge => Some(Operator::Ge),
            Token::EqEq => Some(Operator::EqEq),
            _ => None,
        }
    }

    /// The operator that a token denotes, if it denotes one.
    pub fn from_token(t: &TT) -> (r: Option<Operator>)
        ensures
            r == Operator::of_token(t@),
    {
        match t {
            TT::MUL => Some(Operator::Mul),
            TT::DIV => Some(Operator::Div),
            TT::MINUS => Some(Operator::Sub),
            TT::PLUS => Some(Operator::Add),
            TT::GT => Some(Operator::Gt),
            TT::LT => Some(Operator::Lt),
            TT::LE => Some(Operator::Le),
            TT::GE => Some(Operator::Ge),
            TT::EQEQ => Some(Operator::EqEq),
            _ => None,
        }
    }

    /// Whether the operator compares (and so gives 1 or 0).
    pub open spec fn compares(self) -> bool {
        self is Gt || self is Lt || self is Le || self is Ge || self is EqEq
    }

    /// Whether the operator compares.
    pub fn is_comparison(&self) -> (r: bool)
        ensures
            r == self.compares(),
    {
        match self {
            Operator::Gt | Operator::Lt | Operator::Le | Operator::Ge | Operator::EqEq => true,
            _ => false,
        }
    }
}

/// The quotient of two integers, rounded toward zero.
pub open spec fn truncated_quotient(l: int, r: int) -> int
    recommends
        r != 0,
{
    if l >= 0 && r > 0 {
        l / r
    } else if l >= 0 {
        -(l / (-r))
    } else if r > 0 {
        -((-l) / r)
    } else {
        (-l) / (-r)
    }
}

/// What a binary operator gives on two integers, before the result is
/// held to the 64-bit range.
pub open spec fn exact_result(op: Operator, l: int, r: int) -> int
    recommends
        op is Div ==> r != 0,
{
    match op {
        Operator::Add => l + r,
        Operator::Sub => l - r,
        Operator::Mul => l * r,
        Operator::Div => truncated_quotient(l, r),
        Operator::Gt => if l > r { 1 } else { 0 },
        Operator::Lt => if l < r { 1 } else { 0 },
        Operator::Le => if l <= r { 1 } else { 0 },
        Operator::Ge => if l >= r { 1 } else { 0 },
        Operator::EqEq => if l == r { 1 } else { 0 },
    }
}

/// What a binary operator gives on two 64-bit integers: the exact result
/// where it fits, an error for a division by zero or a result out of
/// range.
pub open spec fn int_result(op: Operator, l: i64, r: i64) -> Result<i64, EvalError> {
    if op is Div && r == 0 {
        Err(EvalError::DivisionByZero)
    } else if i64::MIN <= exact_result(op, l as int, r as int) <= i64::MAX {
        Ok(exact_result(op, l as int, r as int) as i64)
    } else {
        Err(EvalError::Overflow)
    }
}

fn magnitude(n: i64) -> (m: u64)
    ensures
        m == (if n < 0 { -(n as int) } else { n as int }),
{
    if n == i64::MIN {
        9223372036854775808u64
    } else if n < 0 {
        (-n) as u64
    } else {
        n as u64
    }
}

/// Applies a binary operator to two integers.
pub fn int_binary(op: Operator, l: i64, r: i64) -> (res: Result<i64, EvalError>)
    ensures
        res == int_result(op, l, r),
{
    match op {
        Operator::Add => {
            let wide: i128 = l as i128 + r as i128;
            if wide < i64::MIN as i128 || wide > i64::MAX as i128 {
                Err(EvalError::Overflow)
            } else {
                Ok(wide as i64)
            }
        },
        Operator::Sub => {
            let wide: i128 = l as i128 - r as i128;
            if wide < i64::MIN as i128 || wide > i64::MAX as i128 {
                Err(EvalError::Overflow)
            } else {
                Ok(wide as i64)
            }
        },
        Operator::Mul => {
            assert(-0x4000_0000_0000_0000_0000_0000_0000_0000 <= (l as int) * (r as int)
                <= 0x4000_0000_0000_0000_0000_0000_0000_0000) by (nonlinear_arith)
                requires
                    -0x8000_0000_0000_0000 <= l <= 0x7fff_ffff_ffff_ffff,
                    -0x8000_0000_0000_0000 <= r <= 0x7fff_ffff_ffff_ffff,
            ;
            let wide: i128 = (l as i128) * (r as i128);
            if wide < i64::MIN as i128 || wide > i64::MAX as i128 {
                Err(EvalError::Overflow)
            } else {
                Ok(wide as i64)
            }
        },
        Operator::Div => {
            if r == 0 {
                Err(EvalError::DivisionByZero)
            } else {
                let q: u64 = magnitude(l) / magnitude(r);
                if (l >= 0) == (r > 0) {
                    if q > i64::MAX as u64 {
                        Err(EvalError::Overflow)
                    } else {
                        Ok(q as i64)
                    }
                } else {
                    if q == 9223372036854775808u64 {
                        Ok(i64::MIN)
                    } else {
                        Ok(-(q as i64))
                    }
                }
            }
        },
        Operator::Gt => Ok(if l > r { 1 } else { 0 }),
        Operator::Lt => Ok(if l < r { 1 } else { 0 }),
        Operator::Le => Ok(if l <= r { 1 } else { 0 }),
        Operator::Ge => Ok(if l >= r { 1 } else { 0 }),
        Operator::EqEq => Ok(if l == r { 1 } else { 0 }),
    }
}

/// How a binary operation on two numbers goes on.
#[derive(Clone, Copy, Debug, PartialEq, Eq, Structural)]
#[allow(inconsistent_fields)]
pub enum Calc {
    /// Both operands are integers and the result is this integer.
    Done(i64),
    /// Both operands are integers and the operation fails.
    Failed(EvalError),
    /// The left operand is an integer and the right one a floating-point
    /// number, which has to be cut to an integer first.
    Truncate { op: Operator, left: i64, right: u64 },
    /// The left operand is a floating-point number: the operation is one
    /// of floating-point arithmetic, on the right operand as it is or
    /// widened.
    Floating { op: Operator, left: u64, right: Number },
}

impl Number {
    /// How a binary operation goes on: the kind of the left operand
    /// decides whether integers or floating-point numbers are combined.
    pub open spec fn combine_spec(op: Operator, l: Number, r: Number) -> Calc {
        match l {
            Number::Int(x) => match r {
                Number::Int(y) => match int_result(op, x, y) {
                    Ok(n) => Calc::Done(n),
                    Err(e) => Calc::Failed(e),
                },
                Number::Float(bits) => Calc::Truncate { op: op, left: x, right: bits },
            },
            Number::Float(bits) => Calc::Floating { op: op, left: bits, right: r },
        }
    }

    /// Decides how a binary operation on two numbers goes on.
    pub fn combine(op: Operator, l: Number, r: Number) -> (c: Calc)
        ensures
            c == Number::combine_spec(op, l, r),
    {
        match l {
            Number::Int(x) => match r {
                Number::Int(y) => match int_binary(op, x, y) {
                    Ok(n) => Calc::Done(n),
                    Err(e) => Calc::Failed(e),
                },
                Number::Float(bits) => Calc::Truncate { op: op, left: x, right: bits },
            },
            Number::Float(bits) => Calc::Floating { op: op, left: bits, right: r },
        }
    }

    /// Whether the number counts as true: only a nonzero integer does.
    pub open spec fn truthy(self) -> bool {
        match self {
            Number::Int(x) => x != 0,
            Number::Float(_) => false,
        }
    }

    /// Whether a condition with this value selects the true branch.
    pub fn is_true(&self) -> (r: bool)
        ensures
            r == self.truthy(),
            self is Float ==> !r,
    {
        match self {
            Number::Int(x) => *x != 0,
            Number::Float(_) => false,
        }
    }
}

/// The bits of the quiet not-a-number that an undefined value becomes
/// when it is used as a number.
pub const NAN_BITS: u64 = 0x7ff8_0000_0000_0000;

/// A length as the 64-bit integer that the language sees.
pub open spec fn length_number(n: nat) -> i64 {
    (n as usize) as i64
}

/// The length of a field list, a name, or a list, as an integer of the
/// language.
fn length_value(n: usize) -> (r: i64)
    ensures
        r == length_number(n as nat),
{
    #[verifier::truncate]
    (n as i64)
}

impl Value {
    /// The number that a value stands for in arithmetic and in
    /// conditions: a number is itself, a string is its length in bytes,
    /// an undefined value is not-a-number, and every other value is
    /// zero.
    pub open spec fn number(self) -> Number {
        match self {
            Value::Int(n) => Number::Int(n),
            Value::Float(bits) => Number::Float(bits),
            Value::Str(s) => Number::Int(length_number(bytes_of(s).len())),
            Value::Function { .. } => Number::Int(0),
            Value::BuiltinFunction { .. } => Number::Int(0),
            Value::Quote(_) => Number::Int(0),
            Value::Undefined => Number::Float(NAN_BITS),
            Value::List(_) => Number::Int(0),
            Value::Struct { .. } => Number::Int(0),
            Value::StructInstance { .. } => Number::Int(0),
        }
    }

    /// The field `name` of a struct instance; undefined for an unknown
    /// field and for every other value.
    pub open spec fn attr(self, name: Seq<char>) -> Value {
        match self {
            Value::StructInstance { name: _, fields } => if fields.dom().contains(name) {
                fields[name]
            } else {
                Value::Undefined
            },
            _ => Value::Undefined,
        }
    }

    /// Member access: a field of a struct instance, the pseudo-field
    /// `length` of a string or a list, undefined for anything else.
    pub open spec fn member(self, name: Seq<char>) -> Value {
        match self {
            Value::StructInstance { .. } => self.attr(name),
            Value::Str(s) => if name == "length"@ {
                Value::Int(length_number(bytes_of(s).len()))
            } else {
                Value::Undefined
            },
            Value::List(items) => if name == "length"@ {
                Value::Int(length_number(items.len()))
            } else {
                Value::Undefined
            },
            _ => Value::Undefined,
        }
    }

    /// Whether assigning to the field `name` takes effect: the value is a
    /// struct instance that has the field.
    pub open spec fn has_attr(self, name: Seq<char>) -> bool {
        self is StructInstance && self->StructInstance_fields.dom().contains(name)
    }

    /// The value after assigning `value` to its field `name`: the field is
    /// rebound where it exists, and nothing changes where it does not.
    pub open spec fn with_attr(self, name: Seq<char>, value: Value) -> Value {
        match self {
            Value::StructInstance { name: owner, fields } => if fields.dom().contains(name) {
                Value::StructInstance { name: owner, fields: fields.insert(name, value) }
            } else {
                self
            },
            _ => self,
        }
    }

    /// Whether the value can be called.
    pub open spec fn callable(self) -> bool {
        self is Function || self is Quote || self is BuiltinFunction || self is Struct
    }
}

/// The map that binds the first `n` names to the first `n` values, a later
/// binding of a name replacing an earlier one.
pub open spec fn zip_bindings(names: Seq<Seq<char>>, vals: Seq<Value>, n: nat) -> Map<Seq<char>, Value>
    decreases n,
{
    if n == 0 {
        Map::empty()
    } else {
        zip_bindings(names, vals, (n - 1) as nat).insert(names[n - 1], vals[n - 1])
    }
}

/// The smaller of two lengths.
pub open spec fn shorter(a: nat, b: nat) -> nat {
    if a <= b {
        a
    } else {
        b
    }
}

/// The struct instance made by calling a struct: its fields are bound to
/// the arguments by position, as far as both go.
pub open spec fn instance_of(name: Seq<char>, fields: Seq<Seq<char>>, args: Seq<Value>) -> Value {
    Value::StructInstance {
        name: name,
        fields: zip_bindings(fields, args, shorter(fields.len(), args.len())),
    }
}

/// The scope in which a called function runs: the parameters are bound to
/// the arguments by position, as far as both go, and `ARGV` is bound to
/// the list of all arguments.
pub open spec fn call_frame(parameters: Seq<Seq<char>>, args: Seq<Value>) -> Map<Seq<char>, Value> {
    zip_bindings(parameters, args, shorter(parameters.len(), args.len())).insert(
        "ARGV"@,
        Value::List(args),
    )
}

/// Binds the first names to the first values, as far as both go.
pub fn zip_entries(names: &Vec<String>, vals: &Vec<Type>) -> (r: Vec<(String, Type)>)
    ensures
        bindings(r@) == zip_bindings(texts(names@), values(vals@), shorter(names@.len(), vals@.len())),
        distinct_names(r@),
{
    let mut out: Vec<(String, Type)> = Vec::new();
    let mut i: usize = 0;
    assert(bindings(out@) =~= Map::<Seq<char>, Value>::empty()) by {
        assert forall|k: Seq<char>| !(#[trigger] bindings(out@).dom().contains(k)) by {
            bindings_at(out@, k);
        }
    }
    while i < names.len() && i < vals.len()
        invariant
            i <= names.len(),
            i <= vals.len(),
            bindings(out@) == zip_bindings(texts(names@), values(vals@), i as nat),
            distinct_names(out@),
        decreases names.len() - i,
    {
        set_entry(&mut out, names[i].clone(), vals[i].clone());
        i += 1;
    }
    out
}

impl Type {
    /// An independent copy of the value.
    pub fn access(&self) -> (r: Type)
        ensures
            r@ == self@,
    {
        self.clone()
    }

    /// The number that the value stands for in arithmetic and in
    /// conditions.
    pub fn into_number(&self) -> (r: Number)
        ensures
            r == self@.number(),
    {
        match self {
            Type::Int(n) => Number::Int(*n),
            Type::Float(bits) => Number::Float(*bits),
            Type::String(x) => Number::Int(length_value(x.as_str().len())),
            Type::Function { .. } => Number::Int(0),
            Type::BuiltinFunction { .. } => Number::Int(0),
            Type::Node(_) => Number::Int(0),
            Type::Undefined => Number::Float(NAN_BITS),
            Type::List(_) => Number::Int(0),
            Type::Struct { .. } => Number::Int(0),
            Type::StructInstance { .. } => Number::Int(0),
        }
    }

    /// The field `name` of a struct instance; undefined for an unknown
    /// field and for every other value.
    pub fn getattr(&self, name: &String) -> (r: Type)
        ensures
            r@ == self@.attr(name@),
    {
        match self {
            Type::StructInstance { name: _, fields } => {
                proof {
                    bindings_at(fields@, name@);
                }
                match find_entry(fields, name.as_str()) {
                    Some(i) => fields[i].1.clone(),
                    None => Type::Undefined,
                }
            },
            _ => Type::Undefined,
        }
    }

    /// Member access: a field of a struct instance, the pseudo-field
    /// `length` of a string or a list, undefined for anything else.
    pub fn dot_access(&self, name: String) -> (r: Type)
        ensures
            r@ == self@.member(name@),
    {
        match self {
            Type::StructInstance { .. } => self.getattr(&name),
            Type::String(x) => {
                if same_text(name.as_str(), "length") {
                    Type::Int(length_value(x.as_str().len()))
                } else {
                    Type::Undefined
                }
            },
            Type::List(x) => {
                if same_text(name.as_str(), "length") {
                    Type::Int(length_value(x.len()))
                } else {
                    Type::Undefined
                }
            },
            _ => Type::Undefined,
        }
    }

    /// The value with its field `name` set to `value`, and what the
    /// assignment yields: `value` where the field exists, undefined (and
    /// the value unchanged) where it does not.
    pub fn assign_field(self, name: &String, value: Type) -> (r: (Type, Type))
        ensures
            r.0@ == self@.with_attr(name@, value@),
            r.1@ == (if self@.has_attr(name@) { value@ } else { Value::Undefined }),
            fields_distinct(self) ==> fields_distinct(r.0),
    {
        match self {
            Type::StructInstance { name: owner, fields } => {
                let mut fields = fields;
                proof {
                    bindings_at(fields@, name@);
                }
                match find_entry(&fields, name.as_str()) {
                    Some(_) => {
                        set_entry(&mut fields, name.clone(), value.clone());
                        (Type::StructInstance { name: owner, fields: fields }, value)
                    },
                    None => (Type::StructInstance { name: owner, fields: fields }, Type::Undefined),
                }
            },
            other => (other, Type::Undefined),
        }
    }

    /// Assigns `value` to the field `name` of a struct instance, in place,
    /// and yields it; where the field does not exist, or the value is no
    /// struct instance, nothing changes and the result is undefined.
    pub fn setattr(&mut self, name: &String, value: Type) -> (r: Type)
        ensures
            final(self)@ == old(self)@.with_attr(name@, value@),
            r@ == (if old(self)@.has_attr(name@) { value@ } else { Value::Undefined }),
    {
        let mut taken = Type::Undefined;
        core::mem::swap(self, &mut taken);
        let (updated, result) = taken.assign_field(name, value);
        *self = updated;
        result
    }

    /// How subtracting `other` from the value goes on.
    pub fn sub(&self, other: &Type) -> (c: Calc)
        ensures
            c == Number::combine_spec(Operator::Sub, self@.number(), other@.number()),
    {
        Number::combine(Operator::Sub, self.into_number(), other.into_number())
    }

    /// How adding `other` to the value goes on.
    pub fn add(&self, other: &Type) -> (c: Calc)
        ensures
            c == Number::combine_spec(Operator::Add, self@.number(), other@.number()),
    {
        Number::combine(Operator::Add, self.into_number(), other.into_number())
    }

    /// How multiplying the value by `other` goes on.
    pub fn mul(&self, other: &Type) -> (c: Calc)
        ensures
            c == Number::combine_spec(Operator::Mul, self@.number(), other@.number()),
    {
        Number::combine(Operator::Mul, self.into_number(), other.into_number())
    }

    /// How dividing the value by `other` goes on.
    pub fn div(&self, other: &Type) -> (c: Calc)
        ensures
            c == Number::combine_spec(Operator::Div, self@.number(), other@.number()),
    {
        Number::combine(Operator::Div, self.into_number(), other.into_number())
    }

    /// Whether the value can be called.
    pub fn is_callable(&self) -> (r: bool)
        ensures
            r == self@.callable(),
    {
        match self {
            Type::Function { .. } => true,
            Type::Node(_) => true,
            Type::BuiltinFunction { .. } => true,
            Type::Struct { .. } => true,
            _ => false,
        }
    }
}

/// Values that can be copied into a box.
pub trait BoxClone {
    /// A copy of the value in a box of its own.
    fn clone_box(&self) -> Box<Type>;
}

impl BoxClone for Type {
    fn clone_box(&self) -> (r: Box<Type>)
        ensures
            r@ == self@,
    {
        Box::new(self.clone())
    }
}

/// The struct instance that calling a struct with `args` gives.
pub fn instantiate(name: &String, fields: &Vec<String>, args: &Vec<Type>) -> (r: Type)
    ensures
        r@ == instance_of(name@, texts(fields@), values(args@)),
        fields_distinct(r),
{
    Type::StructInstance { name: name.clone(), fields: zip_entries(fields, args) }
}

/// The boxed copies of a list of values.
pub fn boxed_copies(v: &Vec<Type>) -> (r: Vec<Box<Type>>)
    ensures
        boxed_values(r@) == values(v@),
{
    let mut out: Vec<Box<Type>> = Vec::new();
    let mut i: usize = 0;
    while i < v.len()
        invariant
            i <= v.len(),
            out@.len() == i,
            forall|j: int| 0 <= j < i ==> out@[j]@ == v@[j]@,
        decreases v.len() - i,
    {
        out.push(Box::new(v[i].clone()));
        i += 1;
    }
    assert(boxed_values(out@) =~= values(v@));
    out
}

/// The scope in which a function called with `args` runs.
pub fn bind_arguments(parameters: &Vec<String>, args: &Vec<Type>) -> (r: Vec<(String, Type)>)
    ensures
        bindings(r@) == call_frame(texts(parameters@), values(args@)),
        distinct_names(r@),
{
    let mut frame = zip_entries(parameters, args);
    set_entry(&mut frame, String::from_str("ARGV"), Type::List(boxed_copies(args)));
    frame
}

/// A piece of a printed value: a text, or a floating-point number (by
/// its bits) that is still to be written out.
#[derive(Debug, PartialEq)]
pub enum Piece {
    Text(String),
    Float(u64),
}

/// A piece of a printed value as a mathematical value.
pub ghost enum Part {
    Text(Seq<char>),
    Float(u64),
}

impl View for Piece {
    type V = Part;

    open spec fn view(&self) -> Part {
        match self {
            Piece::Text(s) => Part::Text(s@),
            Piece::Float(bits) => Part::Float(*bits),
        }
    }
}

/// The parts that a sequence of pieces stands for.
pub open spec fn parts(v: Seq<Piece>) -> Seq<Part> {
    Seq::new(v.len(), |i: int| v[i]@)
}

/// `prefix` followed by the first `n` names, separated by `", "`.
pub open spec fn params_after(prefix: Seq<char>, names: Seq<Seq<char>>, n: nat) -> Seq<char>
    decreases n,
{
    if n == 0 {
        prefix
    } else if n < names.len() {
        params_after(prefix, names, (n - 1) as nat) + names[n - 1] + ", "@
    } else {
        params_after(prefix, names, (n - 1) as nat) + names[n - 1]
    }
}

/// `prefix` followed by the literal forms of the first `n` values,
/// separated by `", "`; `None` if one of them has no literal form.
pub open spec fn items_after(prefix: Seq<Part>, items: Seq<Value>, n: nat) -> Option<Seq<Part>>
    decreases items, n,
{
    if n == 0 || n > items.len() {
        Some(prefix)
    } else {
        match items_after(prefix, items, (n - 1) as nat) {
            Some(before) => match repr_parts(items[n - 1]) {
                Some(item) => if n < items.len() {
                    Some((before + item).push(Part::Text(", "@)))
                } else {
                    Some(before + item)
                },
                None => None,
            },
            None => None,
        }
    }
}

/// The printed form of a list: its items in literal form between square
/// brackets.
pub open spec fn list_parts(items: Seq<Value>) -> Option<Seq<Part>>
    decreases items, items.len() + 1,
{
    match items_after(seq![Part::Text("["@)], items, items.len()) {
        Some(body) => Some(body.push(Part::Text("]"@))),
        None => None,
    }
}

/// The literal form of a value: strings are quoted, numbers are plain,
/// functions and structs are bracketed tags, quoted code is its printed
/// tree. `None` if the value holds quoted code without a printed form.
pub open spec fn repr_parts(v: Value) -> Option<Seq<Part>>
    decreases v, 0nat,
{
    match v {
        Value::Int(x) => Some(seq![Part::Text(int_text(x as int))]),
        Value::Float(bits) => Some(seq![Part::Float(bits)]),
        Value::List(items) => list_parts(items),
        Value::Undefined => Some(seq![Part::Text("[[undefined]]"@)]),
        Value::Quote(n) => if printable(n) {
            Some(seq![Part::Text(repr_text(n, 0))])
        } else {
            None
        },
        Value::BuiltinFunction { .. } => Some(seq![Part::Text("[[builtin function]]"@)]),
        Value::Struct { name, fields } => Some(seq![Part::Text("[["@ + name + "]]"@)]),
        Value::StructInstance { name, fields } => Some(seq![Part::Text("[["@ + name + "()]]"@)]),
        Value::Function { name, parameters, code } => Some(
            seq![
                Part::Text(
                    params_after("[[function]] "@ + name + "("@, parameters, parameters.len()) + ")"@,
                ),
            ],
        ),
        Value::Str(s) => Some(seq![Part::Text("\""@ + s + "\""@)]),
    }
}

/// The string conversion of a value, as printing shows it. `None` if the
/// value is a list that holds quoted code without a printed form.
pub open spec fn text_parts(v: Value) -> Option<Seq<Part>> {
    match v {
        Value::Int(x) => Some(seq![Part::Text(int_text(x as int))]),
        Value::Float(bits) => Some(seq![Part::Float(bits)]),
        Value::Str(s) => Some(seq![Part::Text(s)]),
        Value::Function { .. } => Some(seq![Part::Text("[[function]]"@)]),
        Value::BuiltinFunction { .. } => Some(seq![Part::Text("[[builtin function]]"@)]),
        Value::Undefined => Some(seq![Part::Text("undefined"@)]),
        Value::Quote(_) => Some(seq![Part::Text("[[node]]"@)]),
        Value::Struct { name, fields } => Some(seq![Part::Text(name)]),
        Value::StructInstance { name, fields } => Some(seq![Part::Text(name + "()"@)]),
        Value::List(items) => list_parts(items),
    }
}

/// The text that parts without a floating-point number spell, after
/// `prefix`; `None` if one of the first `n` parts is a floating-point
/// number.
pub open spec fn joined_after(prefix: Seq<char>, p: Seq<Part>, n: nat) -> Option<Seq<char>>
    decreases n,
{
    if n == 0 || n > p.len() {
        Some(prefix)
    } else {
        match joined_after(prefix, p, (n - 1) as nat) {
            Some(before) => match p[n - 1] {
                Part::Text(s) => Some(before + s),
                Part::Float(_) => None,
            },
            None => None,
        }
    }
}

/// The text that parts spell, if none of them is a floating-point number.
pub open spec fn joined(p: Seq<Part>) -> Option<Seq<char>> {
    joined_after(Seq::empty(), p, p.len())
}

/// Joins pieces into one text, if none of them is a floating-point
/// number.
pub fn join_pieces(pieces: &Vec<Piece>) -> (r: Option<String>)
    ensures
        match r {
            Some(s) => joined(parts(pieces@)) == Some(s@),
            None => joined(parts(pieces@)) is None,
        },
{
    let mut out = String::new();
    let mut i: usize = 0;
    while i < pieces.len()
        invariant
            i <= pieces.len(),
            joined_after(Seq::empty(), parts(pieces@), i as nat) == Some(out@),
        decreases pieces.len() - i,
    {
        match &pieces[i] {
            Piece::Text(s) => {
                out.append(s.as_str());
            },
            Piece::Float(_) => {
                proof {
                    joined_none_stays(parts(pieces@), (i + 1) as nat, pieces@.len() as nat);
                }
                return None;
            },
        }
        i += 1;
    }
    Some(out)
}

proof fn joined_none_stays(p: Seq<Part>, n: nat, m: nat)
    requires
        n <= m <= p.len(),
        joined_after(Seq::empty(), p, n) is None,
    ensures
        joined_after(Seq::empty(), p, m) is None,
    decreases m,
{
    if n < m {
        joined_none_stays(p, n, (m - 1) as nat);
    }
}

proof fn items_none_stays(prefix: Seq<Part>, items: Seq<Value>, n: nat, m: nat)
    requires
        n <= m <= items.len(),
        items_after(prefix, items, n) is None,
    ensures
        items_after(prefix, items, m) is None,
    decreases m,
{
    if n < m {
        items_none_stays(prefix, items, n, (m - 1) as nat);
    }
}

fn append_pieces(out: &mut Vec<Piece>, more: Vec<Piece>)
    ensures
        parts(final(out)@) == parts(old(out)@) + parts(more@),
{
    let ghost given = more@;
    let mut more = more;
    out.append(&mut more);
    assert(parts(out@) =~= parts(old(out)@) + parts(given));
}

fn push_text(out: &mut Vec<Piece>, text: String)
    ensures
        parts(final(out)@) == parts(old(out)@).push(Part::Text(text@)),
{
    out.push(Piece::Text(text));
    assert(parts(out@) =~= parts(old(out)@).push(Part::Text(text@)));
}

fn one_text(text: String) -> (r: Vec<Piece>)
    ensures
        parts(r@) == seq![Part::Text(text@)],
{
    let mut out: Vec<Piece> = Vec::new();
    out.push(Piece::Text(text));
    assert(parts(out@) =~= seq![Part::Text(text@)]);
    out
}

fn list_pieces(items: &Vec<Box<Type>>) -> (r: Result<Vec<Piece>, EvalError>)
    ensures
        match r {
            Ok(p) => list_parts(boxed_values(items@)) == Some(parts(p@)),
            Err(e) => e == EvalError::Unprintable && list_parts(boxed_values(items@)) is None,
        },
    decreases items,
{
    let mut out = one_text(String::from_str("["));
    let ghost vals = boxed_values(items@);
    let ghost start = seq![Part::Text("["@)];
    let mut i: usize = 0;
    while i < items.len()
        invariant
            i <= items.len(),
            vals == boxed_values(items@),
            start == seq![Part::Text("["@)],
            items_after(start, vals, i as nat) == Some(parts(out@)),
        decreases items.len() - i,
    {
        assert(decreases_to!(items => items[i as int]));
        match Type::into_repr(&items[i]) {
            Ok(item) => {
                append_pieces(&mut out, item);
                if i < items.len() - 1 {
                    push_text(&mut out, String::from_str(", "));
                }
            },
            Err(e) => {
                proof {
                    items_none_stays(start, vals, (i + 1) as nat, vals.len());
                }
                return Err(e);
            },
        }
        i += 1;
    }
    push_text(&mut out, String::from_str("]"));
    Ok(out)
}

fn join_params(text: &mut String, names: &Vec<String>)
    ensures
        final(text)@ == params_after(old(text)@, texts(names@), names@.len()),
{
    let mut i: usize = 0;
    while i < names.len()
        invariant
            i <= names.len(),
            text@ == params_after(old(text)@, texts(names@), i as nat),
        decreases names.len() - i,
    {
        text.append(names[i].as_str());
        if i < names.len() - 1 {
            text.append(", ");
        }
        i += 1;
    }
}

impl Type {
    /// The literal form of the value, in pieces; an error if the value
    /// holds quoted code without a printed form.
    pub fn into_repr(&self) -> (r: Result<Vec<Piece>, EvalError>)
        ensures
            match r {
                Ok(p) => repr_parts(self@) == Some(parts(p@)),
                Err(e) => e == EvalError::Unprintable && repr_parts(self@) is None,
            },
        decreases self,
    {
        match self {
            Type::Int(x) => Ok(one_text(int_to_string(*x))),
            Type::Float(bits) => {
                let mut out: Vec<Piece> = Vec::new();
                out.push(Piece::Float(*bits));
                assert(parts(out@) =~= seq![Part::Float(*bits)]);
                Ok(out)
            },
            Type::List(items) => list_pieces(items),
            Type::Undefined => Ok(one_text(String::from_str("[[undefined]]"))),
            Type::Node(n) => {
                if n.is_printable() {
                    Ok(one_text(n.repr(0)))
                } else {
                    Err(EvalError::Unprintable)
                }
            },
            Type::BuiltinFunction { .. } => Ok(one_text(String::from_str("[[builtin function]]"))),
            Type::Struct { name, fields } => {
                let mut text = String::from_str("[[");
                text.append(name.as_str());
                text.append("]]");
                Ok(one_text(text))
            },
            Type::StructInstance { name, fields } => {
                let mut text = String::from_str("[[");
                text.append(name.as_str());
                text.append("()]]");
                Ok(one_text(text))
            },
            Type::Function { name, parameters, code } => {
                let mut text = String::from_str("[[function]] ");
                text.append(name.as_str());
                text.append("(");
                join_params(&mut text, parameters);
                text.append(")");
                Ok(one_text(text))
            },
            Type::String(s) => {
                let mut text = String::from_str("\"");
                text.append(s.as_str());
                text.append("\"");
                Ok(one_text(text))
            },
        }
    }

    /// The string conversion of the value, in pieces; an error if the
    /// value is a list that holds quoted code without a printed form.
    pub fn into_string(&self) -> (r: Result<Vec<Piece>, EvalError>)
        ensures
            match r {
                Ok(p) => text_parts(self@) == Some(parts(p@)),
                Err(e) => e == EvalError::Unprintable && text_parts(self@) is None,
            },
    {
        match self {
            Type::Int(x) => Ok(one_text(int_to_string(*x))),
            Type::Float(bits) => {
                let mut out: Vec<Piece> = Vec::new();
                out.push(Piece::Float(*bits));
                assert(parts(out@) =~= seq![Part::Float(*bits)]);
                Ok(out)
            },
            Type::String(x) => Ok(one_text(x.clone())),
            Type::Function { .. } => Ok(one_text(String::from_str("[[function]]"))),
            Type::BuiltinFunction { .. } => Ok(one_text(String::from_str("[[builtin function]]"))),
            Type::Undefined => Ok(one_text(String::from_str("undefined"))),
            Type::Node(_) => Ok(one_text(String::from_str("[[node]]"))),
            Type::Struct { name, fields } => Ok(one_text(name.clone())),
            Type::StructInstance { name, fields } => {
                let mut text = name.clone();
                text.append("()");
                Ok(one_text(text))
            },
            Type::List(n) => list_pieces(n),
        }
    }
}

} // verus!
