use ravlang::lexer::Lexer;
use ravlang::nodes::Node;
use ravlang::parser::{ParseError, Parser};
use ravlang::tokens::TT;

fn parse(source: &str) -> Result<Node, ParseError> {
    let tokens = Lexer::new(source.to_string()).parse().unwrap();
    Parser::new(tokens).parse()
}

fn num(text: &str) -> Node {
    Node::Number(text.to_string())
}

fn var(name: &str) -> Node {
    Node::VarAccess(name.to_string())
}

fn bin(left: Node, op: TT, right: Node) -> Node {
    Node::BinOp(Box::new(left), op, Box::new(right))
}

fn multi(nodes: Vec<Node>) -> Node {
    Node::MultiStatement(nodes)
}

fn program(nodes: Vec<Node>) -> Node {
    Node::Program(Box::new(multi(nodes)))
}

fn statement(source: &str) -> Node {
    match parse(source).unwrap() {
        Node::Program(body) => match *body {
            Node::MultiStatement(mut nodes) => {
                assert_eq!(nodes.len(), 1);
                nodes.pop().unwrap()
            }
            other => panic!("no statement sequence: {:?}", other),
        },
        other => panic!("no program: {:?}", other),
    }
}

#[test]
fn a_program_wraps_a_statement_sequence() {
    assert_eq!(parse("1").unwrap(), program(vec![num("1")]));
    assert_eq!(parse("1; 2; 3").unwrap(), program(vec![num("1"), num("2"), num("3")]));
}

#[test]
fn a_trailing_separator_is_tolerated() {
    assert_eq!(parse("1;").unwrap(), program(vec![num("1")]));
    assert_eq!(parse("1; 2;").unwrap(), program(vec![num("1"), num("2")]));
}

#[test]
fn a_program_takes_every_token() {
    assert_eq!(parse("1 2"), Err(ParseError::TrailingTokens));
    assert_eq!(parse("1 )"), Err(ParseError::TrailingTokens));
    assert_eq!(parse("a.b = 5"), Err(ParseError::TrailingTokens));
    assert_eq!(parse("1; 2 fi"), Err(ParseError::TrailingTokens));
    assert_eq!(parse("f(1).x"), Err(ParseError::TrailingTokens));
}

#[test]
fn a_separator_that_no_statement_follows_ends_the_sequence() {
    assert_eq!(statement("(1;)"), multi(vec![num("1")]));
    assert_eq!(
        statement("if x then 1; fi"),
        Node::If { condition: Box::new(var("x")), body: Box::new(multi(vec![num("1")])), else_body: None }
    );
    assert_eq!(
        statement("var f() = 1; rav"),
        Node::FuncAssign { name: "f".to_string(), params: vec![], body: Box::new(multi(vec![num("1")])) }
    );
    assert_eq!(statement("code 1; 2; edoc"), Node::Node(Box::new(multi(vec![num("1"), num("2")]))));
    assert_eq!(parse("1;;2"), Err(ParseError::TrailingTokens));
    assert_eq!(parse("1; * 2"), Err(ParseError::TrailingTokens));
}

#[test]
fn term_binds_tighter_than_arith() {
    assert_eq!(statement("1 + 2 * 3"), bin(num("1"), TT::PLUS, bin(num("2"), TT::MUL, num("3"))));
    assert_eq!(statement("1 * 2 + 3"), bin(bin(num("1"), TT::MUL, num("2")), TT::PLUS, num("3")));
    assert_eq!(statement("8 / 4 - 1"), bin(bin(num("8"), TT::DIV, num("4")), TT::MINUS, num("1")));
}

#[test]
fn arithmetic_groups_to_the_left() {
    assert_eq!(statement("1 - 2 - 3"), bin(bin(num("1"), TT::MINUS, num("2")), TT::MINUS, num("3")));
    assert_eq!(statement("8 / 4 / 2"), bin(bin(num("8"), TT::DIV, num("4")), TT::DIV, num("2")));
}

#[test]
fn pipe_is_looser_than_arith_and_tighter_than_comparison() {
    assert_eq!(
        statement("1 + 2 | 3"),
        Node::Pipe(Box::new(bin(num("1"), TT::PLUS, num("2"))), Box::new(num("3")))
    );
    assert_eq!(
        statement("1 | 2 < 3 | 4"),
        bin(
            Node::Pipe(Box::new(num("1")), Box::new(num("2"))),
            TT::LT,
            Node::Pipe(Box::new(num("3")), Box::new(num("4")))
        )
    );
    assert_eq!(
        statement("a | b | c"),
        Node::Pipe(Box::new(Node::Pipe(Box::new(var("a")), Box::new(var("b")))), Box::new(var("c")))
    );
}

#[test]
fn each_relational_operator_is_parsed() {
    assert_eq!(statement("1 < 2"), bin(num("1"), TT::LT, num("2")));
    assert_eq!(statement("1 > 2"), bin(num("1"), TT::GT, num("2")));
    assert_eq!(statement("1 <= 2"), bin(num("1"), TT::LE, num("2")));
    assert_eq!(statement("1 >= 2"), bin(num("1"), TT::GE, num("2")));
    assert_eq!(statement("1 == 2"), bin(num("1"), TT::EQEQ, num("2")));
}

#[test]
fn only_one_relational_operator_is_taken() {
    assert_eq!(parse("1 < 2 < 3"), Err(ParseError::TrailingTokens));
    assert_eq!(
        statement("(1 < 2) < 3"),
        bin(multi(vec![bin(num("1"), TT::LT, num("2"))]), TT::LT, num("3"))
    );
}

#[test]
fn unary_operators_wrap_a_factor() {
    assert_eq!(statement("-x"), Node::UnOp(TT::MINUS, Box::new(var("x"))));
    assert_eq!(statement("+1"), Node::UnOp(TT::PLUS, Box::new(num("1"))));
    assert_eq!(
        statement("2 * -3"),
        bin(num("2"), TT::MUL, Node::UnOp(TT::MINUS, Box::new(num("3"))))
    );
}

#[test]
fn a_call_is_postfix() {
    assert_eq!(statement("f()"), Node::FunctionCall(Box::new(var("f")), vec![]));
    assert_eq!(statement("f(1, 2)"), Node::FunctionCall(Box::new(var("f")), vec![num("1"), num("2")]));
    assert_eq!(
        statement("f(1 + 2, g(3))"),
        Node::FunctionCall(
            Box::new(var("f")),
            vec![bin(num("1"), TT::PLUS, num("2")), Node::FunctionCall(Box::new(var("g")), vec![num("3")])]
        )
    );
}

#[test]
fn a_call_applies_to_the_signed_operand() {
    assert_eq!(
        statement("-f(1)"),
        Node::FunctionCall(Box::new(Node::UnOp(TT::MINUS, Box::new(var("f")))), vec![num("1")])
    );
}

#[test]
fn arguments_are_separated_by_commas() {
    assert_eq!(parse("f(1 2)"), Err(ParseError::UnclosedCall));
    assert_eq!(parse("f(1"), Err(ParseError::UnclosedCall));
    assert_eq!(parse("f(1;"), Err(ParseError::UnclosedCall));
    assert_eq!(parse("f(,1)"), Err(ParseError::UnexpectedToken));
}

#[test]
fn calls_chain() {
    assert_eq!(
        statement("f(1)(2)"),
        Node::FunctionCall(Box::new(Node::FunctionCall(Box::new(var("f")), vec![num("1")])), vec![num("2")])
    );
    assert_eq!(
        statement("f()()()"),
        Node::FunctionCall(
            Box::new(Node::FunctionCall(Box::new(Node::FunctionCall(Box::new(var("f")), vec![])), vec![])),
            vec![]
        )
    );
}

#[test]
fn a_comma_has_to_be_followed_by_an_argument() {
    assert_eq!(parse("f(1,)"), Err(ParseError::UnexpectedToken));
    assert_eq!(parse("f(1,,2)"), Err(ParseError::UnexpectedToken));
    assert_eq!(parse("f(1,"), Err(ParseError::EmptyStatement));
}

#[test]
fn dotted_access_chains_to_the_left() {
    assert_eq!(
        statement("a.b.c"),
        Node::VarDottedAccess {
            left: Box::new(Node::VarDottedAccess { left: Box::new(var("a")), ident: "b".to_string() }),
            ident: "c".to_string()
        }
    );
    assert_eq!(
        statement("(x).y"),
        Node::VarDottedAccess { left: Box::new(multi(vec![var("x")])), ident: "y".to_string() }
    );
}

#[test]
fn a_dot_has_to_be_followed_by_a_name() {
    assert_eq!(parse("a. + 1"), Err(ParseError::ExpectedMemberName));
    assert_eq!(parse("a."), Err(ParseError::ExpectedMemberName));
    assert_eq!(parse("a.b.1"), Err(ParseError::ExpectedMemberName));
    assert_eq!(parse("(a).if"), Err(ParseError::ExpectedMemberName));
}

#[test]
fn parentheses_hold_a_statement_sequence() {
    assert_eq!(statement("(1; 2)"), multi(vec![num("1"), num("2")]));
    assert_eq!(
        statement("(1 + 2) * 3"),
        bin(multi(vec![bin(num("1"), TT::PLUS, num("2"))]), TT::MUL, num("3"))
    );
}

#[test]
fn an_atom_may_reassign() {
    assert_eq!(statement("x = 3"), bin(var("x"), TT::EQ, num("3")));
    assert_eq!(statement("x = y = 3"), bin(var("x"), TT::EQ, bin(var("y"), TT::EQ, num("3"))));
}

#[test]
fn literals() {
    assert_eq!(statement("12"), num("12"));
    assert_eq!(statement("\"hi\""), Node::String("hi".to_string()));
    assert_eq!(statement("name"), var("name"));
    assert_eq!(statement("[1]"), Node::List(vec![Box::new(num("1"))]));
    assert_eq!(
        statement("[1, \"a\", x]"),
        Node::List(vec![Box::new(num("1")), Box::new(Node::String("a".to_string())), Box::new(var("x"))])
    );
    assert_eq!(statement("code 1; 2 edoc"), Node::Node(Box::new(multi(vec![num("1"), num("2")]))));
}

#[test]
fn variable_definition() {
    assert_eq!(statement("var x = 5"), Node::VarAssign("x".to_string(), Box::new(num("5"))));
    assert_eq!(
        statement("var x = 1 + 2"),
        Node::VarAssign("x".to_string(), Box::new(bin(num("1"), TT::PLUS, num("2"))))
    );
}

#[test]
fn function_definition() {
    assert_eq!(
        statement("var f(a, b) = a + b rav"),
        Node::FuncAssign {
            name: "f".to_string(),
            params: vec!["a".to_string(), "b".to_string()],
            body: Box::new(multi(vec![bin(var("a"), TT::PLUS, var("b"))]))
        }
    );
    assert_eq!(
        statement("var f() = 1; 2 rav"),
        Node::FuncAssign { name: "f".to_string(), params: vec![], body: Box::new(multi(vec![num("1"), num("2")])) }
    );
}

#[test]
fn a_parameter_list_ends_with_its_closing_parenthesis() {
    assert_eq!(parse("var f(+ = 1 rav"), Err(ParseError::ExpectedParameter));
    assert_eq!(parse("var f(a,) = 1 rav"), Err(ParseError::ExpectedParameter));
    assert_eq!(parse("var f(,a) = 1 rav"), Err(ParseError::ExpectedParameter));
    assert_eq!(parse("var f(a = 1 rav"), Err(ParseError::BadParameterList));
    assert_eq!(parse("var f(a"), Err(ParseError::BadParameterList));
    assert_eq!(
        statement("var f(a, b, c) = 1 rav"),
        Node::FuncAssign {
            name: "f".to_string(),
            params: vec!["a".to_string(), "b".to_string(), "c".to_string()],
            body: Box::new(multi(vec![num("1")]))
        }
    );
}

#[test]
fn conditional() {
    assert_eq!(
        statement("if x then 1 fi"),
        Node::If { condition: Box::new(var("x")), body: Box::new(multi(vec![num("1")])), else_body: None }
    );
    assert_eq!(
        statement("if x < 2 then 1; 2 else 3 fi"),
        Node::If {
            condition: Box::new(bin(var("x"), TT::LT, num("2"))),
            body: Box::new(multi(vec![num("1"), num("2")])),
            else_body: Some(Box::new(multi(vec![num("3")])))
        }
    );
}

#[test]
fn a_conditional_has_at_most_one_else_branch() {
    assert_eq!(parse("if x then 1 else 2 else 3 fi"), Err(ParseError::ExpectedFi));
    assert_eq!(parse("if x then 1 else 2"), Err(ParseError::ExpectedFi));
}

#[test]
fn loop_statement() {
    assert_eq!(
        statement("while i < 3 do i = i + 1 end"),
        Node::While {
            condition: Box::new(bin(var("i"), TT::LT, num("3"))),
            code: Box::new(multi(vec![bin(var("i"), TT::EQ, bin(var("i"), TT::PLUS, num("1")))]))
        }
    );
}

#[test]
fn struct_definition() {
    assert_eq!(
        statement("struct Point = x, y end"),
        Node::StructCreate { name: "Point".to_string(), fields: vec!["x".to_string(), "y".to_string()] }
    );
    assert_eq!(
        statement("struct Unit = end"),
        Node::StructCreate { name: "Unit".to_string(), fields: vec![] }
    );
}

#[test]
fn statements_nest() {
    assert_eq!(
        statement("var f(n) = if n then f(n - 1) else 0 fi rav"),
        Node::FuncAssign {
            name: "f".to_string(),
            params: vec!["n".to_string()],
            body: Box::new(multi(vec![Node::If {
                condition: Box::new(var("n")),
                body: Box::new(multi(vec![Node::FunctionCall(
                    Box::new(var("f")),
                    vec![bin(var("n"), TT::MINUS, num("1"))]
                )])),
                else_body: Some(Box::new(multi(vec![num("0")])))
            }]))
        }
    );
}

#[test]
fn every_parse_error() {
    assert_eq!(parse(""), Err(ParseError::EmptyStatement));
    assert_eq!(parse("var x ="), Err(ParseError::EmptyStatement));
    assert_eq!(parse("f("), Err(ParseError::EmptyStatement));
    assert_eq!(parse("code 1"), Err(ParseError::ExpectedEdoc));
    assert_eq!(parse("[1"), Err(ParseError::UnclosedList));
    assert_eq!(parse("[1 2]"), Err(ParseError::UnclosedList));
    assert_eq!(parse(")"), Err(ParseError::UnexpectedToken));
    assert_eq!(parse("1 +"), Err(ParseError::UnexpectedToken));
    assert_eq!(parse("fi"), Err(ParseError::UnexpectedToken));
    assert_eq!(parse("(1"), Err(ParseError::UnclosedParen));
    assert_eq!(parse("var f(a b) = 1 rav"), Err(ParseError::BadParameterList));
    assert_eq!(parse("var f(a) 1 rav"), Err(ParseError::ExpectedEquals));
    assert_eq!(parse("var f() 1 rav"), Err(ParseError::ExpectedEquals));
    assert_eq!(parse("var f("), Err(ParseError::ExpectedParameter));
    assert_eq!(parse("a."), Err(ParseError::ExpectedMemberName));
    assert_eq!(parse("f(1 2)"), Err(ParseError::UnclosedCall));
    assert_eq!(parse("struct P = x, end"), Err(ParseError::ExpectedFieldName));
    assert_eq!(parse("struct P = x, 1 end"), Err(ParseError::ExpectedFieldName));
    assert_eq!(parse("1 2"), Err(ParseError::TrailingTokens));
    assert_eq!(parse("var f(a) = 1"), Err(ParseError::ExpectedRav));
    assert_eq!(parse("var x 1"), Err(ParseError::BadDefinition));
    assert_eq!(parse("var 1"), Err(ParseError::ExpectedIdentifier));
    assert_eq!(parse("var"), Err(ParseError::ExpectedIdentifier));
    assert_eq!(parse("if 1 2 fi"), Err(ParseError::ExpectedThen));
    assert_eq!(parse("if 1 then 2"), Err(ParseError::ExpectedFi));
    assert_eq!(parse("if 1 then 2 end"), Err(ParseError::ExpectedFi));
    assert_eq!(parse("while 1 2 end"), Err(ParseError::ExpectedDo));
    assert_eq!(parse("while 1 do 2"), Err(ParseError::ExpectedEnd));
    assert_eq!(parse("struct P = x"), Err(ParseError::UnclosedStruct));
    assert_eq!(parse("struct P x end"), Err(ParseError::ExpectedStructEquals));
    assert_eq!(parse("struct 1"), Err(ParseError::ExpectedStructName));
}

#[test]
fn a_failed_parse_can_be_repeated() {
    let tokens = Lexer::new("(1".to_string()).parse().unwrap();
    let mut parser = Parser::new(tokens);
    assert_eq!(parser.parse(), Err(ParseError::UnclosedParen));
    assert_eq!(parser.parse(), Err(ParseError::UnclosedParen));
}

#[test]
fn a_parsed_program_leaves_nothing_to_parse() {
    let tokens = Lexer::new("1; 2".to_string()).parse().unwrap();
    let mut parser = Parser::new(tokens);
    assert_eq!(parser.parse().unwrap(), program(vec![num("1"), num("2")]));
    assert_eq!(parser.parse(), Err(ParseError::EmptyStatement));
}

#[test]
fn parse_errors_describe_themselves() {
    assert_eq!(ParseError::ExpectedRav.describe(), "Expected 'rav'");
    assert_eq!(ParseError::EmptyStatement.describe(), "Statements must be an expression, var, if, or while");
    assert_eq!(ParseError::UnclosedList.describe(), "List must end with ]");
    assert_eq!(ParseError::TrailingTokens.describe(), "Expected the end of the program");
    assert_eq!(ParseError::ExpectedMemberName.describe(), "Expected a name after '.'");
}
