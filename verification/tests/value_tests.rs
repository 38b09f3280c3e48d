use ravlang::interpreter::{target_of, Target};
use ravlang::nodes::{clone_names, clone_nodes, Node};
use ravlang::symbol_table::SymbolTable;
use ravlang::text::{has_byte, int_to_string, parse_int, same_text};
use ravlang::tokens::TT;
use ravlang::types::{
    bind_arguments, find_entry, instantiate, int_binary, join_pieces, set_entry, Calc, EvalError, Number,
    Operator, Piece, Type, NAN_BITS,
};

fn num(text: &str) -> Node {
    Node::Number(text.to_string())
}

fn var(name: &str) -> Node {
    Node::VarAccess(name.to_string())
}

fn text(s: &str) -> Type {
    Type::String(s.to_string())
}

fn list(items: Vec<Type>) -> Type {
    Type::List(items.into_iter().map(Box::new).collect())
}

fn point() -> Type {
    Type::StructInstance {
        name: "Point".to_string(),
        fields: vec![("x".to_string(), Type::Int(1)), ("y".to_string(), Type::Int(2))],
    }
}

fn pieces(texts: &[&str]) -> Vec<Piece> {
    texts.iter().map(|s| Piece::Text(s.to_string())).collect()
}

#[test]
fn integers_are_written_in_decimal() {
    assert_eq!(int_to_string(0), "0");
    assert_eq!(int_to_string(7), "7");
    assert_eq!(int_to_string(10), "10");
    assert_eq!(int_to_string(-1), "-1");
    assert_eq!(int_to_string(1234567890), "1234567890");
    assert_eq!(int_to_string(i64::MAX), "9223372036854775807");
    assert_eq!(int_to_string(i64::MIN), "-9223372036854775808");
    for n in [-1000, -99, -10, -9, 9, 99, 100, 101, 65536] {
        assert_eq!(int_to_string(n), n.to_string());
    }
}

#[test]
fn integers_are_read_as_the_standard_parser_reads_them() {
    assert_eq!(parse_int("42"), Some(42));
    assert_eq!(parse_int("+7"), Some(7));
    assert_eq!(parse_int("-7"), Some(-7));
    assert_eq!(parse_int("-0"), Some(0));
    assert_eq!(parse_int("000"), Some(0));
    assert_eq!(parse_int("9223372036854775807"), Some(i64::MAX));
    assert_eq!(parse_int("-9223372036854775808"), Some(i64::MIN));
    assert_eq!(parse_int("9223372036854775808"), None);
    assert_eq!(parse_int("-9223372036854775809"), None);
    assert_eq!(parse_int("99999999999999999999999"), None);
    assert_eq!(parse_int(""), None);
    assert_eq!(parse_int("-"), None);
    assert_eq!(parse_int("+"), None);
    assert_eq!(parse_int("12a"), None);
    assert_eq!(parse_int("1.5"), None);
    assert_eq!(parse_int(" 1"), None);
    assert_eq!(parse_int("--1"), None);
    for s in ["0", "1", "-1", "+0", "18446744073709551616", "0009", "１", "1e3", "-+1"] {
        assert_eq!(parse_int(s), s.parse::<i64>().ok());
    }
}

#[test]
fn text_helpers() {
    assert!(same_text("abc", "abc"));
    assert!(!same_text("abc", "abd"));
    assert!(!same_text("abc", "ab"));
    assert!(same_text("", ""));
    assert!(has_byte("1.5", 46));
    assert!(!has_byte("15", 46));
    assert!(!has_byte("", 46));
}

#[test]
fn printed_forms_of_nodes() {
    assert_eq!(num("42").repr(0), "Number(42)");
    assert_eq!(Node::String("hi".to_string()).repr(0), "String(hi)");
    assert_eq!(var("x").repr(0), "VarAccess(x)");
    assert_eq!(Node::Node(Box::new(num("1"))).repr(0), "Node(Number(1))");
    assert_eq!(
        Node::BinOp(Box::new(num("1")), TT::PLUS, Box::new(num("2"))).repr(0),
        "BinOp(\n\tNumber(1)\n\t+\n\tNumber(2)\n)"
    );
    assert_eq!(
        Node::BinOp(Box::new(num("1")), TT::PLUS, Box::new(num("2"))).repr(1),
        "BinOp(\n\t\tNumber(1)\n\t\t+\n\t\tNumber(2)\n\t)"
    );
    assert_eq!(Node::UnOp(TT::MINUS, Box::new(num("1"))).repr(0), "UnOp(\t-\n\tNumber(1)\n)");
    assert_eq!(
        Node::While { condition: Box::new(var("x")), code: Box::new(num("1")) }.repr(0),
        "While(\tVarAccess(x)\n\tNumber(1))"
    );
    assert_eq!(
        Node::FuncAssign {
            name: "f".to_string(),
            params: vec!["a".to_string(), "b".to_string()],
            body: Box::new(num("1"))
        }
        .repr(0),
        "FuncAssign(\nf(a, b, )\n\tNumber(1))"
    );
    assert_eq!(
        Node::Pipe(Box::new(num("1")), Box::new(num("2"))).repr(0),
        "Pipe(\n\tNumber(1)\n\t|\n\tNumber(2)\n)"
    );
    assert_eq!(Node::VarAssign("x".to_string(), Box::new(num("1"))).repr(0), "VarAssign(\n\tx\n\tNumber(1)");
    assert_eq!(
        Node::FunctionCall(Box::new(var("f")), vec![num("1"), num("2")]).repr(0),
        "Call(VarAccess(f)(\n\t\tNumber(1)\n\t\tNumber(2)\n\t)\n)"
    );
    assert_eq!(
        Node::MultiStatement(vec![num("1"), num("2")]).repr(0),
        "MultiStatement(\n\tNumber(1)\n\tNumber(2)\n)"
    );
    assert_eq!(
        Node::Program(Box::new(Node::MultiStatement(vec![num("1")]))).repr(0),
        "Program(\n\tMultiStatement(\n\t\tNumber(1)\n\t)\n)"
    );
    assert_eq!(
        Node::If { condition: Box::new(num("1")), body: Box::new(num("2")), else_body: None }.repr(0),
        "If(\n\tCondition(\nNumber(1)\t)\tBody(\nNumber(2)\t))"
    );
    assert_eq!(
        Node::If { condition: Box::new(num("1")), body: Box::new(num("2")), else_body: Some(Box::new(num("3"))) }
            .repr(0),
        "If(\n\tCondition(\nNumber(1)\t)\tBody(\nNumber(2)\t)\tElse(\nNumber(3)\t))"
    );
    assert_eq!(
        Node::List(vec![Box::new(num("1")), Box::new(num("2"))]).repr(0),
        "List(\n\tNumber(1),\n\tNumber(2),\n)"
    );
    assert_eq!(Node::List(vec![]).repr(2), "List(\n\t\t)");
}

#[test]
fn nodes_without_a_printed_form() {
    let dotted = Node::VarDottedAccess { left: Box::new(var("a")), ident: "b".to_string() };
    let definition = Node::StructCreate { name: "P".to_string(), fields: vec![] };
    assert!(!dotted.is_printable());
    assert!(!definition.is_printable());
    assert!(!Node::MultiStatement(vec![num("1"), dotted]).is_printable());
    assert!(!Node::FunctionCall(Box::new(var("f")), vec![definition]).is_printable());
    assert!(Node::MultiStatement(vec![num("1"), var("a")]).is_printable());
    assert!(num("1").is_printable());
}

#[test]
fn copies_of_nodes_are_equal() {
    let node = Node::FuncAssign {
        name: "f".to_string(),
        params: vec!["a".to_string()],
        body: Box::new(Node::MultiStatement(vec![
            Node::If {
                condition: Box::new(var("a")),
                body: Box::new(Node::List(vec![Box::new(num("1"))])),
                else_body: Some(Box::new(Node::While { condition: Box::new(num("0")), code: Box::new(num("1")) })),
            },
            Node::FunctionCall(Box::new(var("f")), vec![Node::UnOp(TT::MINUS, Box::new(var("a")))]),
        ])),
    };
    assert_eq!(node.clone(), node);
    assert_eq!(clone_nodes(&vec![node.clone(), num("2")]), vec![node, num("2")]);
    assert_eq!(clone_names(&vec!["a".to_string(), "b".to_string()]), vec!["a".to_string(), "b".to_string()]);
}

#[test]
fn copies_of_values_are_equal() {
    let value = list(vec![Type::Int(1), Type::Float(1.5f64.to_bits()), text("a"), Type::Undefined, point()]);
    assert_eq!(value.clone(), value);
    assert_eq!(value.access(), value);
    let function = Type::Function { name: "f".to_string(), parameters: vec!["a".to_string()], code: num("1") };
    assert_eq!(function.clone(), function);
}

#[test]
fn values_as_numbers() {
    assert_eq!(Type::Int(5).into_number(), Number::Int(5));
    assert_eq!(Type::Float(7).into_number(), Number::Float(7));
    assert_eq!(text("héllo").into_number(), Number::Int(6));
    assert_eq!(list(vec![Type::Int(1), Type::Int(2)]).into_number(), Number::Int(0));
    assert_eq!(list(vec![]).into_number(), Number::Int(0));
    let with_function = Type::StructInstance {
        name: "P".to_string(),
        fields: vec![(
            "into_number".to_string(),
            Type::Function { name: "f".to_string(), parameters: vec![], code: num("1") },
        )],
    };
    assert_eq!(with_function.into_number(), Number::Int(0));
    assert_eq!(Type::Undefined.into_number(), Number::Float(NAN_BITS));
    assert!(f64::from_bits(NAN_BITS).is_nan());
    assert_eq!(NAN_BITS, f64::NAN.to_bits());
    assert_eq!(Type::Node(num("1")).into_number(), Number::Int(0));
    assert_eq!(point().into_number(), Number::Int(0));
    assert_eq!(Type::Struct { name: "P".to_string(), fields: vec![] }.into_number(), Number::Int(0));
}

#[test]
fn only_a_nonzero_integer_is_true() {
    assert!(Number::Int(1).is_true());
    assert!(Number::Int(-1).is_true());
    assert!(!Number::Int(0).is_true());
    assert!(!Number::Float(1.0f64.to_bits()).is_true());
    assert!(!Number::Float(0).is_true());
    assert!(!Number::Float(NAN_BITS).is_true());
}

#[test]
fn integer_operations() {
    assert_eq!(int_binary(Operator::Add, 2, 3), Ok(5));
    assert_eq!(int_binary(Operator::Sub, 2, 3), Ok(-1));
    assert_eq!(int_binary(Operator::Mul, -2, 3), Ok(-6));
    assert_eq!(int_binary(Operator::Div, 7, 2), Ok(3));
    assert_eq!(int_binary(Operator::Div, -7, 2), Ok(-3));
    assert_eq!(int_binary(Operator::Div, 7, -2), Ok(-3));
    assert_eq!(int_binary(Operator::Div, -7, -2), Ok(3));
    assert_eq!(int_binary(Operator::Div, i64::MIN, 1), Ok(i64::MIN));
    assert_eq!(int_binary(Operator::Div, i64::MIN, -1), Err(EvalError::Overflow));
    assert_eq!(int_binary(Operator::Div, 1, 0), Err(EvalError::DivisionByZero));
    assert_eq!(int_binary(Operator::Add, i64::MAX, 1), Err(EvalError::Overflow));
    assert_eq!(int_binary(Operator::Sub, i64::MIN, 1), Err(EvalError::Overflow));
    assert_eq!(int_binary(Operator::Mul, i64::MAX, 2), Err(EvalError::Overflow));
    assert_eq!(int_binary(Operator::Mul, i64::MIN, -1), Err(EvalError::Overflow));
    assert_eq!(int_binary(Operator::Mul, i64::MIN, i64::MIN), Err(EvalError::Overflow));
    assert_eq!(int_binary(Operator::Gt, 2, 1), Ok(1));
    assert_eq!(int_binary(Operator::Lt, 2, 1), Ok(0));
    assert_eq!(int_binary(Operator::Le, 2, 2), Ok(1));
    assert_eq!(int_binary(Operator::Ge, 1, 2), Ok(0));
    assert_eq!(int_binary(Operator::EqEq, 2, 2), Ok(1));
    for (l, r) in [(9i64, 4i64), (-9, 4), (9, -4), (-9, -4), (0, 5), (i64::MAX, 3), (i64::MIN, 3)] {
        assert_eq!(int_binary(Operator::Div, l, r), Ok(l / r));
    }
}

#[test]
fn the_left_operand_decides_how_numbers_are_combined() {
    let half = 0.5f64.to_bits();
    for op in [Operator::Add, Operator::Sub, Operator::Mul, Operator::Div] {
        assert_eq!(
            Number::combine(op, Number::Int(7), Number::Float(half)),
            Calc::Truncate { op, left: 7, right: half }
        );
        assert_eq!(
            Number::combine(op, Number::Float(half), Number::Int(7)),
            Calc::Floating { op, left: half, right: Number::Int(7) }
        );
        assert_eq!(
            Number::combine(op, Number::Float(half), Number::Float(half)),
            Calc::Floating { op, left: half, right: Number::Float(half) }
        );
    }
    assert_eq!(Number::combine(Operator::Add, Number::Int(7), Number::Int(2)), Calc::Done(9));
    assert_eq!(Number::combine(Operator::Div, Number::Int(7), Number::Int(2)), Calc::Done(3));
    assert_eq!(
        Number::combine(Operator::Div, Number::Int(7), Number::Int(0)),
        Calc::Failed(EvalError::DivisionByZero)
    );
    assert_eq!(Type::Int(7).add(&Type::Int(2)), Calc::Done(9));
    assert_eq!(Type::Int(7).sub(&Type::Int(2)), Calc::Done(5));
    assert_eq!(Type::Int(7).mul(&text("ab")), Calc::Done(14));
    assert_eq!(Type::Int(7).div(&Type::Int(2)), Calc::Done(3));
    assert_eq!(
        Type::Float(half).div(&Type::Int(2)),
        Calc::Floating { op: Operator::Div, left: half, right: Number::Int(2) }
    );
}

#[test]
fn operators_of_tokens() {
    assert_eq!(Operator::from_token(&TT::PLUS), Some(Operator::Add));
    assert_eq!(Operator::from_token(&TT::MINUS), Some(Operator::Sub));
    assert_eq!(Operator::from_token(&TT::MUL), Some(Operator::Mul));
    assert_eq!(Operator::from_token(&TT::DIV), Some(Operator::Div));
    assert_eq!(Operator::from_token(&TT::GT), Some(Operator::Gt));
    assert_eq!(Operator::from_token(&TT::LT), Some(Operator::Lt));
    assert_eq!(Operator::from_token(&TT::LE), Some(Operator::Le));
    assert_eq!(Operator::from_token(&TT::GE), Some(Operator::Ge));
    assert_eq!(Operator::from_token(&TT::EQEQ), Some(Operator::EqEq));
    assert_eq!(Operator::from_token(&TT::EQ), None);
    assert_eq!(Operator::from_token(&TT::PIPE), None);
    assert!(Operator::Lt.is_comparison());
    assert!(!Operator::Add.is_comparison());
}

#[test]
fn fields_of_values() {
    assert_eq!(point().getattr(&"x".to_string()), Type::Int(1));
    assert_eq!(point().getattr(&"z".to_string()), Type::Undefined);
    assert_eq!(text("abc").getattr(&"length".to_string()), Type::Undefined);
    assert_eq!(point().dot_access("y".to_string()), Type::Int(2));
    assert_eq!(point().dot_access("length".to_string()), Type::Undefined);
    assert_eq!(text("héllo").dot_access("length".to_string()), Type::Int(6));
    assert_eq!(list(vec![Type::Int(1)]).dot_access("length".to_string()), Type::Int(1));
    assert_eq!(Type::Int(1).dot_access("length".to_string()), Type::Undefined);
}

#[test]
fn setting_a_field() {
    let mut p = point();
    assert_eq!(p.setattr(&"x".to_string(), Type::Int(9)), Type::Int(9));
    assert_eq!(p.getattr(&"x".to_string()), Type::Int(9));
    assert_eq!(p.getattr(&"y".to_string()), Type::Int(2));
    assert_eq!(p.setattr(&"z".to_string(), Type::Int(5)), Type::Undefined);
    assert_eq!(p.getattr(&"z".to_string()), Type::Undefined);
    let mut n = Type::Int(1);
    assert_eq!(n.setattr(&"x".to_string(), Type::Int(5)), Type::Undefined);
    assert_eq!(n, Type::Int(1));
    assert_eq!(point().assign_field(&"y".to_string(), text("b")).1, text("b"));
}

#[test]
fn the_first_entry_of_a_name_counts() {
    let mut entries = vec![
        ("a".to_string(), Type::Int(1)),
        ("b".to_string(), Type::Int(2)),
        ("a".to_string(), Type::Int(3)),
    ];
    assert_eq!(find_entry(&entries, "a"), Some(0));
    assert_eq!(find_entry(&entries, "b"), Some(1));
    assert_eq!(find_entry(&entries, "c"), None);
    set_entry(&mut entries, "a".to_string(), Type::Int(9));
    assert_eq!(entries[0], ("a".to_string(), Type::Int(9)));
    assert_eq!(entries.len(), 3);
    set_entry(&mut entries, "c".to_string(), Type::Int(4));
    assert_eq!(find_entry(&entries, "c"), Some(3));
}

#[test]
fn calls_bind_by_position() {
    let names = vec!["a".to_string(), "b".to_string()];
    assert_eq!(
        instantiate(&"P".to_string(), &names, &vec![Type::Int(1), Type::Int(2), Type::Int(3)]),
        Type::StructInstance {
            name: "P".to_string(),
            fields: vec![("a".to_string(), Type::Int(1)), ("b".to_string(), Type::Int(2))]
        }
    );
    assert_eq!(
        bind_arguments(&names, &vec![Type::Int(1)]),
        vec![("a".to_string(), Type::Int(1)), ("ARGV".to_string(), list(vec![Type::Int(1)]))]
    );
    let twice = vec!["a".to_string(), "a".to_string()];
    assert_eq!(
        bind_arguments(&twice, &vec![Type::Int(1), Type::Int(2)]),
        vec![("a".to_string(), Type::Int(2)), ("ARGV".to_string(), list(vec![Type::Int(1), Type::Int(2)]))]
    );
}

#[test]
fn string_conversion_and_literal_form() {
    assert_eq!(text("a").into_string(), Ok(pieces(&["a"])));
    assert_eq!(text("a").into_repr(), Ok(pieces(&["\"a\""])));
    assert_eq!(Type::Int(-3).into_string(), Ok(pieces(&["-3"])));
    assert_eq!(Type::Float(5).into_string(), Ok(vec![Piece::Float(5)]));
    assert_eq!(Type::Float(5).into_repr(), Ok(vec![Piece::Float(5)]));
    assert_eq!(Type::Undefined.into_string(), Ok(pieces(&["undefined"])));
    assert_eq!(Type::Undefined.into_repr(), Ok(pieces(&["[[undefined]]"])));
    assert_eq!(Type::Node(num("1")).into_string(), Ok(pieces(&["[[node]]"])));
    assert_eq!(Type::Node(num("1")).into_repr(), Ok(pieces(&["Number(1)"])));
    assert_eq!(point().into_string(), Ok(pieces(&["Point()"])));
    assert_eq!(point().into_repr(), Ok(pieces(&["[[Point()]]"])));
    assert_eq!(
        list(vec![Type::Int(1), Type::Float(5), text("a")]).into_string(),
        Ok(vec![
            Piece::Text("[".to_string()),
            Piece::Text("1".to_string()),
            Piece::Text(", ".to_string()),
            Piece::Float(5),
            Piece::Text(", ".to_string()),
            Piece::Text("\"a\"".to_string()),
            Piece::Text("]".to_string())
        ])
    );
    let unprintable = Type::Node(Node::StructCreate { name: "P".to_string(), fields: vec![] });
    assert_eq!(unprintable.into_repr(), Err(EvalError::Unprintable));
    assert_eq!(unprintable.into_string(), Ok(pieces(&["[[node]]"])));
    assert_eq!(list(vec![unprintable]).into_string(), Err(EvalError::Unprintable));
}

#[test]
fn pieces_are_joined_unless_a_float_is_among_them() {
    assert_eq!(join_pieces(&pieces(&["a", "", "bc"])), Some("abc".to_string()));
    assert_eq!(join_pieces(&vec![]), Some(String::new()));
    assert_eq!(join_pieces(&vec![Piece::Text("a".to_string()), Piece::Float(1)]), None);
}

#[test]
fn what_the_printing_builtins_write() {
    assert_eq!(ravlang::builtin_functions::print(&vec![text("a"), Type::Int(1)]), (pieces(&["a", "1"]), true));
    assert_eq!(ravlang::builtin_functions::println(&vec![text("a")]), (pieces(&["a", "\n"]), true));
    assert_eq!(ravlang::builtin_functions::println(&vec![]), (pieces(&["\n"]), true));
    let unprintable = list(vec![Type::Node(Node::StructCreate { name: "P".to_string(), fields: vec![] })]);
    assert_eq!(
        ravlang::builtin_functions::print(&vec![text("a"), unprintable.clone(), text("b")]),
        (pieces(&["a"]), false)
    );
    assert_eq!(
        ravlang::builtin_functions::println(&vec![text("a"), unprintable, text("b")]),
        (pieces(&["a"]), false)
    );
}

#[test]
fn what_the_literal_form_builtin_returns() {
    assert_eq!(ravlang::builtin_functions::repr(&vec![text("a"), Type::Int(1)]), Ok(pieces(&["\"a\""])));
    assert_eq!(ravlang::builtin_functions::repr(&vec![]), Err(EvalError::MissingArgument));
    assert_eq!(
        ravlang::builtin_functions::repr(&vec![Type::Node(Node::StructCreate {
            name: "P".to_string(),
            fields: vec![]
        })]),
        Err(EvalError::Unprintable)
    );
}

#[test]
fn what_the_field_setting_builtin_returns() {
    let frame = bind_arguments(
        &vec!["str".to_string(), "name".to_string(), "val".to_string()],
        &vec![point(), text("x"), Type::Int(7)],
    );
    assert_eq!(
        ravlang::builtin_functions::set(&frame),
        Ok(Type::StructInstance {
            name: "Point".to_string(),
            fields: vec![("x".to_string(), Type::Int(7)), ("y".to_string(), Type::Int(2))]
        })
    );
    let no_value = bind_arguments(
        &vec!["str".to_string(), "name".to_string(), "val".to_string()],
        &vec![point(), text("x")],
    );
    assert_eq!(ravlang::builtin_functions::set(&no_value), Err(EvalError::SetOnNonStruct));
}

#[test]
fn scopes_resolve_from_the_innermost_outward() {
    let mut table = SymbolTable::new();
    assert_eq!(table.depth(), 1);
    table.insert("x".to_string(), Type::Int(1));
    table.insert("y".to_string(), Type::Int(2));
    table.push_scope(vec![("x".to_string(), Type::Int(10))]);
    assert_eq!(table.depth(), 2);
    assert_eq!(table.clone_item(&"x".to_string()), Type::Int(10));
    assert_eq!(table.clone_item(&"y".to_string()), Type::Int(2));
    assert_eq!(table.clone_item(&"z".to_string()), Type::Undefined);
    assert_eq!(table.get_local("y"), None);
    assert_eq!(table.get_local("x"), Some(Type::Int(10)));
    table.insert("y".to_string(), Type::Int(20));
    assert_eq!(table.clone_item(&"y".to_string()), Type::Int(20));
    table.pop_scope();
    assert_eq!(table.clone_item(&"x".to_string()), Type::Int(1));
    assert_eq!(table.clone_item(&"y".to_string()), Type::Int(2));
    table.pop_scope();
    table.pop_scope();
    assert_eq!(table.depth(), 0);
    assert_eq!(table.clone_item(&"x".to_string()), Type::Undefined);
    table.insert("x".to_string(), Type::Int(3));
    assert_eq!(table.depth(), 1);
    assert_eq!(table.clone_item(&"x".to_string()), Type::Int(3));
}

#[test]
fn dotted_names_resolve_in_the_innermost_scope() {
    let inner = Type::StructInstance { name: "In".to_string(), fields: vec![("v".to_string(), Type::Int(5))] };
    let outer = Type::StructInstance { name: "Out".to_string(), fields: vec![("in".to_string(), inner.clone())] };
    let mut table = SymbolTable::new();
    table.insert("o".to_string(), outer.clone());
    let path = |names: &[&str]| names.iter().map(|s| s.to_string()).collect::<Vec<String>>();
    assert_eq!(table.var_lookup(&path(&["o"])), outer);
    assert_eq!(table.var_lookup(&path(&["o", "in"])), inner);
    assert_eq!(table.var_lookup(&path(&["o", "in", "v"])), Type::Int(5));
    assert_eq!(table.var_lookup(&path(&["o", "missing", "v"])), outer);
    assert_eq!(table.var_lookup(&path(&["o", "in", "v", "deeper"])), Type::Int(5));
    assert_eq!(table.var_lookup(&path(&["missing"])), Type::Undefined);
    table.push_scope(vec![]);
    assert_eq!(table.var_lookup(&path(&["o"])), Type::Undefined);
}

#[test]
fn assignment_targets() {
    assert_eq!(target_of(&var("x")), Target::Variable("x".to_string()));
    let dotted = Node::VarDottedAccess {
        left: Box::new(Node::VarDottedAccess { left: Box::new(var("a")), ident: "b".to_string() }),
        ident: "c".to_string(),
    };
    assert_eq!(target_of(&dotted), Target::Field { root: "a".to_string(), ident: "c".to_string() });
    let weird = Node::VarDottedAccess { left: Box::new(num("1")), ident: "c".to_string() };
    assert_eq!(target_of(&weird), Target::Weird);
    assert_eq!(target_of(&num("1")), Target::Invalid);
}

#[test]
fn evaluation_errors_describe_themselves() {
    assert_eq!(EvalError::SetOnNonStruct.describe(), "Cannot use set on non-struct");
    assert_eq!(EvalError::NotANumber.describe(), "Not a number");
    assert_eq!(EvalError::EmptySequence.describe(), "No nodes");
    assert_eq!(EvalError::WeirdExpression.describe(), "Weird expression");
}

#[test]
fn boxed_copies() {
    assert_eq!(*ravlang::types::BoxClone::clone_box(&point()), point());
    let table = SymbolTable::new();
    assert_eq!(ravlang::symbol_table::BoxClone::clone_box(&table).depth(), 1);
}
