//! The native functions of the language, as far as they compute: what
//! they write, read or return is decided here, the writing and reading
//! itself is left to the host.

use vstd::prelude::*;
use vstd::string::StringExecFns;
use crate::types::{
    bindings, bindings_at, fields_distinct, find_entry, parts, repr_parts, set_entry, text_parts, values, EvalError, Part,
    Piece, Type, Value,
};

verus! {

/// What printing the first `n` arguments writes, and whether it gets
/// through: the string conversion of each argument is written in turn,
/// with nothing between them, and the first argument that has none stops
/// the printing.
pub open spec fn printing(args: Seq<Value>, n: nat) -> (Seq<Part>, bool)
    decreases n,
{
    if n == 0 || n > args.len() {
        (Seq::empty(), true)
    } else {
        let before = printing(args, (n - 1) as nat);
        if !before.1 {
            before
        } else {
            match text_parts(args[n - 1]) {
                Some(item) => (before.0 + item, true),
                None => (before.0, false),
            }
        }
    }
}

/// What printing the arguments writes, and whether it gets through.
pub open spec fn printed(args: Seq<Value>) -> (Seq<Part>, bool) {
    printing(args, args.len())
}

/// What printing the arguments as a line writes, and whether it gets
/// through: what printing them writes, then a newline if that got
/// through.
pub open spec fn printed_line(args: Seq<Value>) -> (Seq<Part>, bool) {
    if printed(args).1 {
        (printed(args).0.push(Part::Text("\n"@)), true)
    } else {
        printed(args)
    }
}

/// The literal form that `repr` gives: that of its first argument. An
/// error without an argument, and for an argument that has no literal
/// form.
pub open spec fn literal_form(args: Seq<Value>) -> Result<Seq<Part>, EvalError> {
    if args.len() == 0 {
        Err(EvalError::MissingArgument)
    } else {
        match repr_parts(args[0]) {
            Some(p) => Ok(p),
            None => Err(EvalError::Unprintable),
        }
    }
}

/// What the field-setting builtin returns in a scope: the struct
/// instance bound to `str` with the field named by the string bound to
/// `name` set to the value bound to `val`. `None` if the scope does not
/// bind the three in that way.
pub open spec fn field_set(frame: Map<Seq<char>, Value>) -> Option<Value> {
    if frame.dom().contains("str"@) && frame.dom().contains("name"@) && frame.dom().contains("val"@) {
        match frame["str"@] {
            Value::StructInstance { name, fields } => match frame["name"@] {
                Value::Str(x) => Some(
                    Value::StructInstance { name: name, fields: fields.insert(x, frame["val"@]) },
                ),
                _ => None,
            },
            _ => None,
        }
    } else {
        None
    }
}

proof fn printing_stops(args: Seq<Value>, n: nat, m: nat)
    requires
        n <= m <= args.len(),
        !printing(args, n).1,
    ensures
        printing(args, m) == printing(args, n),
    decreases m,
{
    if n < m {
        printing_stops(args, n, (m - 1) as nat);
    }
}

/// The pieces that `print` writes for its arguments, and whether every
/// argument was written: an argument without a string conversion stops
/// the printing behind the arguments before it.
pub fn print(args: &Vec<Type>) -> (r: (Vec<Piece>, bool))
    ensures
        printed(values(args@)) == (parts(r.0@), r.1),
{
    let mut out: Vec<Piece> = Vec::new();
    assert(parts(out@) =~= Seq::<Part>::empty());
    let mut i: usize = 0;
    while i < args.len()
        invariant
            i <= args.len(),
            printing(values(args@), i as nat) == (parts(out@), true),
        decreases args.len() - i,
    {
        match args[i].into_string() {
            Ok(item) => {
                let ghost before = parts(out@);
                let ghost added = parts(item@);
                let mut item = item;
                out.append(&mut item);
                assert(parts(out@) =~= before + added);
            },
            Err(e) => {
                proof {
                    printing_stops(values(args@), (i + 1) as nat, args@.len() as nat);
                }
                return (out, false);
            },
        }
        i += 1;
    }
    (out, true)
}

/// The pieces that `println` writes for its arguments, and whether every
/// argument was written: those of `print`, then a newline if every
/// argument was written.
pub fn println(args: &Vec<Type>) -> (r: (Vec<Piece>, bool))
    ensures
        printed_line(values(args@)) == (parts(r.0@), r.1),
{
    let (p, complete) = print(args);
    if complete {
        let mut p = p;
        let ghost before = parts(p@);
        p.push(Piece::Text(String::from_str("\n")));
        assert(parts(p@) =~= before.push(Part::Text("\n"@)));
        (p, true)
    } else {
        (p, false)
    }
}

/// The pieces of the literal form of the first argument, which `repr`
/// returns as a string.
pub fn repr(args: &Vec<Type>) -> (r: Result<Vec<Piece>, EvalError>)
    ensures
        match r {
            Ok(p) => literal_form(values(args@)) == Ok::<Seq<Part>, EvalError>(parts(p@)),
            Err(e) => literal_form(values(args@)) == Err::<Seq<Part>, EvalError>(e),
        },
{
    if args.len() == 0 {
        Err(EvalError::MissingArgument)
    } else {
        args[0].into_repr()
    }
}

/// What `set` returns in the scope of its call: the struct instance with
/// the field set, or an error where the scope does not bind a struct
/// instance, a field name and a value.
pub fn set(frame: &Vec<(String, Type)>) -> (r: Result<Type, EvalError>)
    ensures
        match r {
            Ok(v) => field_set(bindings(frame@)) == Some(v@),
            Err(e) => e == EvalError::SetOnNonStruct && field_set(bindings(frame@)) is None,
        },
        (forall|i: int| 0 <= i < frame@.len() ==> fields_distinct(#[trigger] frame@[i].1)) ==> (match r {
            Ok(v) => fields_distinct(v),
            Err(_) => true,
        }),
{
    proof {
        bindings_at(frame@, "str"@);
        bindings_at(frame@, "name"@);
        bindings_at(frame@, "val"@);
    }
    let target = find_entry(frame, "str");
    let field = find_entry(frame, "name");
    let value = find_entry(frame, "val");
    match (target, field, value) {
        (Some(s), Some(n), Some(v)) => match (&frame[s].1, &frame[n].1) {
            (Type::StructInstance { name, fields }, Type::String(x)) => {
                let mut fields = crate::types::clone_entries(fields);
                set_entry(&mut fields, x.clone(), frame[v].1.clone());
                Ok(Type::StructInstance { name: name.clone(), fields: fields })
            },
            _ => Err(EvalError::SetOnNonStruct),
        },
        _ => Err(EvalError::SetOnNonStruct),
    }
}

} // verus!
