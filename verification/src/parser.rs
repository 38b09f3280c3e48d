//! The parser: recursive descent with one token of lookahead.
//!
//! The grammar is written down twice: as functions on sequences of
//! tokens, which say what the parser gives, and as the parser itself,
//! which is proved to give exactly that.

use vstd::prelude::*;
use crate::lexer::tokens_view;
use crate::nodes::{asts, boxed_asts, texts, Ast, Node};
use crate::tokens::{Keyword, Token, TT};

verus! {

/// Why a sequence of tokens is no program.
#[derive(Clone, Copy, Debug, PartialEq, Eq, Structural)]
pub enum ParseError {
    /// Quoted code does not end with `edoc`.
    ExpectedEdoc,
    /// A list does not end with `]`.
    UnclosedList,
    /// No expression can start with the token.
    UnexpectedToken,
    /// A parenthesized sequence does not end with `)`.
    UnclosedParen,
    /// A parameter is followed by neither `,` nor `)`.
    BadParameterList,
    /// The parameter list of a function is not followed by `=`.
    ExpectedEquals,
    /// A function definition does not end with `rav`.
    ExpectedRav,
    /// The name after `var` is followed by neither `=` nor `(`.
    BadDefinition,
    /// `var` is not followed by a name.
    ExpectedIdentifier,
    /// The condition of a conditional is not followed by `then`.
    ExpectedThen,
    /// The body of a conditional is followed by neither `else` nor `fi`,
    /// or its else branch is not followed by `fi`.
    ExpectedFi,
    /// The condition of a loop is not followed by `do`.
    ExpectedDo,
    /// A loop does not end with `end`.
    ExpectedEnd,
    /// A struct definition does not end with `end`.
    UnclosedStruct,
    /// The name of a struct is not followed by `=`.
    ExpectedStructEquals,
    /// `struct` is not followed by a name.
    ExpectedStructName,
    /// A statement is expected where the tokens end.
    EmptyStatement,
    /// A `.` is not followed by the name of a member.
    ExpectedMemberName,
    /// A parameter list holds something else than names, or a `,` in it
    /// is not followed by a name.
    ExpectedParameter,
    /// An argument is followed by neither `,` nor `)`.
    UnclosedCall,
    /// A `,` in the fields of a struct is not followed by a name.
    ExpectedFieldName,
    /// Tokens are left behind the program.
    TrailingTokens,
}

impl ParseError {
    /// The message that describes the error.
    pub open spec fn text(self) -> Seq<char> {
        match self {
            ParseError::ExpectedEdoc => "Expected 'edoc' to end node literal"@,
            ParseError::UnclosedList => "List must end with ]"@,
            ParseError::UnexpectedToken => "Expected a literal"@,
            ParseError::UnclosedParen => "Expected ')'"@,
            ParseError::BadParameterList => "Expected ')' or ','"@,
            ParseError::ExpectedEquals => "Expected '='"@,
            ParseError::ExpectedRav => "Expected 'rav'"@,
            ParseError::BadDefinition => "Expected '=' or '(' after the name"@,
            ParseError::ExpectedIdentifier => "Expected identifier"@,
            ParseError::ExpectedThen => "Expected 'then' after condition"@,
            ParseError::ExpectedFi => "Expected 'else' or 'fi' after the body of a conditional"@,
            ParseError::ExpectedDo => "Expected 'do' to start while loop"@,
            ParseError::ExpectedEnd => "Expected 'end' to end while loop"@,
            ParseError::UnclosedStruct => "Expected 'end' to end struct"@,
            ParseError::ExpectedStructEquals => "Expected '=' after struct name"@,
            ParseError::ExpectedStructName => "Expected identifier after 'struct'"@,
            ParseError::EmptyStatement => "Statements must be an expression, var, if, or while"@,
            ParseError::ExpectedMemberName => "Expected a name after '.'"@,
            ParseError::ExpectedParameter => "Expected a parameter name"@,
            ParseError::UnclosedCall => "Expected ',' or ')' after an argument"@,
            ParseError::ExpectedFieldName => "Expected a field name after ','"@,
            ParseError::TrailingTokens => "Expected the end of the program"@,
        }
    }

    /// The message that describes the error.
    pub fn describe(&self) -> (r: &'static str)
        ensures
            r@ == self.text(),
    {
        match self {
            ParseError::ExpectedEdoc => "Expected 'edoc' to end node literal",
            ParseError::UnclosedList => "List must end with ]",
            ParseError::UnexpectedToken => "Expected a literal",
            ParseError::UnclosedParen => "Expected ')'",
            ParseError::BadParameterList => "Expected ')' or ','",
            ParseError::ExpectedEquals => "Expected '='",
            ParseError::ExpectedRav => "Expected 'rav'",
            ParseError::BadDefinition => "Expected '=' or '(' after the name",
            ParseError::ExpectedIdentifier => "Expected identifier",
            ParseError::ExpectedThen => "Expected 'then' after condition",
            ParseError::ExpectedFi => "Expected 'else' or 'fi' after the body of a conditional",
            ParseError::ExpectedDo => "Expected 'do' to start while loop",
            ParseError::ExpectedEnd => "Expected 'end' to end while loop",
            ParseError::UnclosedStruct => "Expected 'end' to end struct",
            ParseError::ExpectedStructEquals => "Expected '=' after struct name",
            ParseError::ExpectedStructName => "Expected identifier after 'struct'",
            ParseError::EmptyStatement => "Statements must be an expression, var, if, or while",
            ParseError::ExpectedMemberName => "Expected a name after '.'",
            ParseError::ExpectedParameter => "Expected a parameter name",
            ParseError::UnclosedCall => "Expected ',' or ')' after an argument",
            ParseError::ExpectedFieldName => "Expected a field name after ','",
            ParseError::TrailingTokens => "Expected the end of the program",
        }
    }
}

/// What parsing from a position gives: a tree and the position behind
/// it, or an error.
pub type Parsed = Result<(Ast, int), ParseError>;

/// The token at `pos`, if there is one.
pub open spec fn tok_at(tokens: Seq<Token>, pos: int) -> Option<Token> {
    if 0 <= pos < tokens.len() {
        Some(tokens[pos])
    } else {
        None
    }
}

/// How many tokens stand at and behind `pos`.
pub open spec fn remaining(tokens: Seq<Token>, pos: int) -> nat {
    if pos < 0 {
        tokens.len()
    } else if pos < tokens.len() {
        (tokens.len() - pos) as nat
    } else {
        0
    }
}

/// The position behind a part that was parsed from `pos`. A parsed part
/// always takes at least one token; this makes it evident.
pub open spec fn forward(pos: int, next: int) -> int {
    if next > pos {
        next
    } else {
        pos + 1
    }
}

/// A chain of member accesses behind `left`: each `.` has to be
/// followed by a name, and wraps the tree.
pub open spec fn dotted_tail(tokens: Seq<Token>, pos: int, left: Ast) -> Parsed
    decreases remaining(tokens, pos),
{
    match tok_at(tokens, pos) {
        Some(Token::Dot) => match tok_at(tokens, pos + 1) {
            Some(Token::Ident(name)) => dotted_tail(
                tokens,
                pos + 2,
                Ast::VarDottedAccess { left: Box::new(left), ident: name },
            ),
            _ => Err(ParseError::ExpectedMemberName),
        },
        _ => Ok((left, pos)),
    }
}

/// The names of a parameter list from `pos` on, which stands behind the
/// `(`, and the position behind its `)`: names separated by `,`, or
/// nothing, then `)`.
pub open spec fn parameters(tokens: Seq<Token>, pos: int, acc: Seq<Seq<char>>) -> Result<
    (Seq<Seq<char>>, int),
    ParseError,
>
    decreases remaining(tokens, pos),
{
    match tok_at(tokens, pos) {
        Some(Token::Ident(x)) => match tok_at(tokens, pos + 1) {
            Some(Token::Comma) => match tok_at(tokens, pos + 2) {
                Some(Token::Ident(_)) => parameters(tokens, pos + 2, acc.push(x)),
                _ => Err(ParseError::ExpectedParameter),
            },
            Some(Token::RParen) => Ok((acc.push(x), pos + 2)),
            _ => Err(ParseError::BadParameterList),
        },
        Some(Token::RParen) => Ok((acc, pos + 1)),
        _ => Err(ParseError::ExpectedParameter),
    }
}

/// The field names of a struct definition from `pos` on, and the
/// position behind them: names separated by `,`, or nothing.
pub open spec fn field_names(tokens: Seq<Token>, pos: int, acc: Seq<Seq<char>>) -> Result<
    (Seq<Seq<char>>, int),
    ParseError,
>
    decreases remaining(tokens, pos),
{
    match tok_at(tokens, pos) {
        Some(Token::Ident(name)) => match tok_at(tokens, pos + 1) {
            Some(Token::Comma) => match tok_at(tokens, pos + 2) {
                Some(Token::Ident(_)) => field_names(tokens, pos + 2, acc.push(name)),
                _ => Err(ParseError::ExpectedFieldName),
            },
            _ => Ok((acc.push(name), pos + 1)),
        },
        _ => Ok((acc, pos)),
    }
}

/// Whether a token is a relational operator.
pub open spec fn relational(t: Token) -> bool {
    t is Lt || t is Ge || t is Gt || t is Le || t is EqEq
}

/// Whether a statement can start with the token.
pub open spec fn starts_statement(t: Token) -> bool {
    match t {
        Token::Keyword(k) => k is Var || k is If || k is While || k is Struct || k is Code,
        Token::LBracket => true,
        Token::LParen => true,
        Token::Plus => true,
        Token::Minus => true,
        Token::Number(_) => true,
        Token::Str(_) => true,
        Token::Ident(_) => true,
        _ => false,
    }
}

/// Whether a statement can start at `pos`.
pub open spec fn statement_ahead(tokens: Seq<Token>, pos: int) -> bool {
    match tok_at(tokens, pos) {
        Some(t) => starts_statement(t),
        None => false,
    }
}

/// What follows `struct`: a name, `=`, field names separated by `,`, and
/// `end`.
pub open spec fn struct_create(tokens: Seq<Token>, pos: int) -> Parsed {
    match tok_at(tokens, pos) {
        Some(Token::Ident(name)) => match tok_at(tokens, pos + 1) {
            Some(Token::Eq) => match field_names(tokens, pos + 2, Seq::empty()) {
                Ok((fields, stop)) => match tok_at(tokens, stop) {
                    Some(Token::Keyword(Keyword::End)) => Ok(
                        (Ast::StructCreate { name: name, fields: fields }, stop + 1),
                    ),
                    _ => Err(ParseError::UnclosedStruct),
                },
                Err(e) => Err(e),
            },
            _ => Err(ParseError::ExpectedStructEquals),
        },
        _ => Err(ParseError::ExpectedStructName),
    }
}

/// A rule of the grammar. The rules that go on behind something that was
/// parsed already carry it.
pub ghost enum Rule {
    /// Quoted code between `code` and `edoc`, a list between square
    /// brackets, a number, a string, or a name.
    Literal,
    /// The rest of a list behind its items so far: more items, each
    /// behind a `,`, then `]`.
    ListTail(Seq<Ast>),
    /// A name, which `=` and a statement may follow as an assignment, or
    /// a literal.
    Atom,
    /// A statement sequence in parentheses, or an atom; then a chain of
    /// member accesses.
    Factor,
    /// The arguments of a call of the given callee, behind its `(`:
    /// statements separated by `,`, or nothing, then `)`.
    Arguments(Ast),
    /// The rest of the arguments of a call of the given callee behind the
    /// arguments so far: more arguments, each behind a `,`, then `)`.
    ArgumentsTail(Ast, Seq<Ast>),
    /// The calls that may follow an operand: `(`, arguments, `)`, any
    /// number of times, each call applying to what stands before it.
    CallTail(Ast),
    /// A factor with an optional sign before it and optional calls
    /// behind it.
    Unop,
    /// The rest of a product behind its left side: operands behind `*` or
    /// `/`, grouped to the left.
    TermTail(Ast),
    /// A product of operands.
    Term,
    /// The rest of a sum behind its left side: products behind `+` or
    /// `-`, grouped to the left.
    ArithTail(Ast),
    /// A sum of products.
    Arith,
    /// An arithmetic expression.
    Expr,
    /// The rest of a pipe behind its left side: expressions behind `|`,
    /// grouped to the left.
    PipeTail(Ast),
    /// A pipe of expressions.
    Pipe,
    /// A pipe, or two pipes around one relational operator.
    Comp,
    /// What follows `var`: a name, then `=` and a statement (a variable),
    /// or a parameter list in parentheses, `=`, a statement sequence and
    /// `rav` (a function).
    VarAssign,
    /// What follows `if`: a condition, `then`, a statement sequence, an
    /// optional `else` with a statement sequence, and `fi`.
    IfStatement,
    /// What follows `while`: a condition, `do`, a statement sequence,
    /// `end`.
    WhileLoop,
    /// A definition behind `var`, a conditional behind `if`, a loop
    /// behind `while`, a struct definition behind `struct`, or an
    /// expression.
    Statement,
    /// The rest of a statement sequence behind its statements so far:
    /// more statements, each behind a `;`. A `;` that no statement
    /// follows ends the sequence.
    StatementsTail(Seq<Ast>),
    /// One or more statements separated by `;`.
    MultiStatement,
}

/// The order in which rules may use one another without taking a token.
pub open spec fn rank(rule: Rule) -> nat {
    match rule {
        Rule::ListTail(_) => 0,
        Rule::ArgumentsTail(_, _) => 0,
        Rule::TermTail(_) => 0,
        Rule::ArithTail(_) => 0,
        Rule::PipeTail(_) => 0,
        Rule::StatementsTail(_) => 0,
        Rule::Literal => 1,
        Rule::Atom => 2,
        Rule::Factor => 3,
        Rule::CallTail(_) => 21,
        Rule::Unop => 22,
        Rule::Term => 23,
        Rule::Arith => 24,
        Rule::Expr => 25,
        Rule::Pipe => 26,
        Rule::Comp => 27,
        Rule::VarAssign => 28,
        Rule::Statement => 30,
        Rule::IfStatement => 31,
        Rule::WhileLoop => 31,
        Rule::MultiStatement => 32,
        Rule::Arguments(_) => 40,
    }
}

/// What a rule of the grammar gives on the tokens from `pos` on.
pub open spec fn parse_rule(rule: Rule, tokens: Seq<Token>, pos: int) -> Parsed
    decreases remaining(tokens, pos), rank(rule),
{
    match rule {
        Rule::Literal => match tok_at(tokens, pos) {
            Some(Token::Keyword(Keyword::Code)) => match parse_rule(Rule::MultiStatement, tokens, pos + 1) {
                Ok((inner, next)) => match tok_at(tokens, forward(pos + 1, next)) {
                    Some(Token::Keyword(Keyword::Edoc)) => Ok(
                        (Ast::Quote(Box::new(inner)), forward(pos + 1, next) + 1),
                    ),
                    _ => Err(ParseError::ExpectedEdoc),
                },
                Err(e) => Err(e),
            },
            Some(Token::LBracket) => match parse_rule(Rule::Statement, tokens, pos + 1) {
                Ok((first, next)) => parse_rule(Rule::ListTail(seq![first]), tokens, forward(pos + 1, next)),
                Err(e) => Err(e),
            },
            Some(Token::Number(x)) => Ok((Ast::Number(x), pos + 1)),
            Some(Token::Str(s)) => Ok((Ast::Str(s), pos + 1)),
            Some(Token::Ident(name)) => Ok((Ast::VarAccess(name), pos + 1)),
            _ => Err(ParseError::UnexpectedToken),
        },
        Rule::ListTail(items) => match tok_at(tokens, pos) {
            Some(Token::Comma) => match parse_rule(Rule::Statement, tokens, pos + 1) {
                Ok((item, next)) => parse_rule(
                    Rule::ListTail(items.push(item)),
                    tokens,
                    forward(pos + 1, next),
                ),
                Err(e) => Err(e),
            },
            Some(Token::RBracket) => Ok((Ast::List(items), pos + 1)),
            _ => Err(ParseError::UnclosedList),
        },
        Rule::Atom => match tok_at(tokens, pos) {
            Some(Token::Ident(name)) => match tok_at(tokens, pos + 1) {
                Some(Token::Eq) => match parse_rule(Rule::Statement, tokens, pos + 2) {
                    Ok((value, next)) => Ok(
                        (
                            Ast::BinOp(Box::new(Ast::VarAccess(name)), Token::Eq, Box::new(value)),
                            forward(pos + 2, next),
                        ),
                    ),
                    Err(e) => Err(e),
                },
                _ => Ok((Ast::VarAccess(name), pos + 1)),
            },
            _ => parse_rule(Rule::Literal, tokens, pos),
        },
        Rule::Factor => match tok_at(tokens, pos) {
            Some(Token::LParen) => match parse_rule(Rule::MultiStatement, tokens, pos + 1) {
                Ok((inner, next)) => match tok_at(tokens, forward(pos + 1, next)) {
                    Some(Token::RParen) => dotted_tail(tokens, forward(pos + 1, next) + 1, inner),
                    _ => Err(ParseError::UnclosedParen),
                },
                Err(e) => Err(e),
            },
            _ => match parse_rule(Rule::Atom, tokens, pos) {
                Ok((left, next)) => dotted_tail(tokens, forward(pos, next), left),
                Err(e) => Err(e),
            },
        },
        Rule::Arguments(callee) => match tok_at(tokens, pos) {
            Some(Token::RParen) => Ok((Ast::FunctionCall(Box::new(callee), Seq::empty()), pos + 1)),
            Some(_) => match parse_rule(Rule::Statement, tokens, pos) {
                Ok((arg, next)) => parse_rule(
                    Rule::ArgumentsTail(callee, seq![arg]),
                    tokens,
                    forward(pos, next),
                ),
                Err(e) => Err(e),
            },
            None => Err(ParseError::EmptyStatement),
        },
        Rule::ArgumentsTail(callee, acc) => match tok_at(tokens, pos) {
            Some(Token::RParen) => Ok((Ast::FunctionCall(Box::new(callee), acc), pos + 1)),
            Some(Token::Comma) => match parse_rule(Rule::Statement, tokens, pos + 1) {
                Ok((arg, next)) => parse_rule(
                    Rule::ArgumentsTail(callee, acc.push(arg)),
                    tokens,
                    forward(pos + 1, next),
                ),
                Err(e) => Err(e),
            },
            _ => Err(ParseError::UnclosedCall),
        },
        Rule::CallTail(left) => match tok_at(tokens, pos) {
            Some(Token::LParen) => match parse_rule(Rule::Arguments(left), tokens, pos + 1) {
                Ok((call, next)) => parse_rule(Rule::CallTail(call), tokens, forward(pos + 1, next)),
                Err(e) => Err(e),
            },
            _ => Ok((left, pos)),
        },
        Rule::Unop => match tok_at(tokens, pos) {
            Some(Token::Plus) => match parse_rule(Rule::Factor, tokens, pos + 1) {
                Ok((right, next)) => parse_rule(
                    Rule::CallTail(Ast::UnOp(Token::Plus, Box::new(right))),
                    tokens,
                    forward(pos + 1, next),
                ),
                Err(e) => Err(e),
            },
            Some(Token::Minus) => match parse_rule(Rule::Factor, tokens, pos + 1) {
                Ok((right, next)) => parse_rule(
                    Rule::CallTail(Ast::UnOp(Token::Minus, Box::new(right))),
                    tokens,
                    forward(pos + 1, next),
                ),
                Err(e) => Err(e),
            },
            _ => match parse_rule(Rule::Factor, tokens, pos) {
                Ok((left, next)) => parse_rule(Rule::CallTail(left), tokens, forward(pos, next)),
                Err(e) => Err(e),
            },
        },
        Rule::TermTail(left) => match tok_at(tokens, pos) {
            Some(Token::Div) => match parse_rule(Rule::Unop, tokens, pos + 1) {
                Ok((right, next)) => parse_rule(
                    Rule::TermTail(Ast::BinOp(Box::new(left), Token::Div, Box::new(right))),
                    tokens,
                    forward(pos + 1, next),
                ),
                Err(e) => Err(e),
            },
            Some(Token::Mul) => match parse_rule(Rule::Unop, tokens, pos + 1) {
                Ok((right, next)) => parse_rule(
                    Rule::TermTail(Ast::BinOp(Box::new(left), Token::Mul, Box::new(right))),
                    tokens,
                    forward(pos + 1, next),
                ),
                Err(e) => Err(e),
            },
            _ => Ok((left, pos)),
        },
        Rule::Term => match parse_rule(Rule::Unop, tokens, pos) {
            Ok((left, next)) => parse_rule(Rule::TermTail(left), tokens, forward(pos, next)),
            Err(e) => Err(e),
        },
        Rule::ArithTail(left) => match tok_at(tokens, pos) {
            Some(Token::Plus) => match parse_rule(Rule::Term, tokens, pos + 1) {
                Ok((right, next)) => parse_rule(
                    Rule::ArithTail(Ast::BinOp(Box::new(left), Token::Plus, Box::new(right))),
                    tokens,
                    forward(pos + 1, next),
                ),
                Err(e) => Err(e),
            },
            Some(Token::Minus) => match parse_rule(Rule::Term, tokens, pos + 1) {
                Ok((right, next)) => parse_rule(
                    Rule::ArithTail(Ast::BinOp(Box::new(left), Token::Minus, Box::new(right))),
                    tokens,
                    forward(pos + 1, next),
                ),
                Err(e) => Err(e),
            },
            _ => Ok((left, pos)),
        },
        Rule::Arith => match parse_rule(Rule::Term, tokens, pos) {
            Ok((left, next)) => parse_rule(Rule::ArithTail(left), tokens, forward(pos, next)),
            Err(e) => Err(e),
        },
        Rule::Expr => parse_rule(Rule::Arith, tokens, pos),
        Rule::PipeTail(left) => match tok_at(tokens, pos) {
            Some(Token::Pipe) => match parse_rule(Rule::Expr, tokens, pos + 1) {
                Ok((right, next)) => parse_rule(
                    Rule::PipeTail(Ast::Pipe(Box::new(left), Box::new(right))),
                    tokens,
                    forward(pos + 1, next),
                ),
                Err(e) => Err(e),
            },
            _ => Ok((left, pos)),
        },
        Rule::Pipe => match parse_rule(Rule::Expr, tokens, pos) {
            Ok((left, next)) => parse_rule(Rule::PipeTail(left), tokens, forward(pos, next)),
            Err(e) => Err(e),
        },
        Rule::Comp => match parse_rule(Rule::Pipe, tokens, pos) {
            Ok((left, next)) => match tok_at(tokens, forward(pos, next)) {
                Some(t) => if relational(t) {
                    match parse_rule(Rule::Pipe, tokens, forward(pos, next) + 1) {
                        Ok((right, end)) => Ok(
                            (
                                Ast::BinOp(Box::new(left), t, Box::new(right)),
                                forward(forward(pos, next) + 1, end),
                            ),
                        ),
                        Err(e) => Err(e),
                    }
                } else {
                    Ok((left, forward(pos, next)))
                },
                None => Ok((left, forward(pos, next))),
            },
            Err(e) => Err(e),
        },
        Rule::VarAssign => match tok_at(tokens, pos) {
            Some(Token::Ident(name)) => match tok_at(tokens, pos + 1) {
                Some(Token::Eq) => match parse_rule(Rule::Statement, tokens, pos + 2) {
                    Ok((value, next)) => Ok((Ast::VarAssign(name, Box::new(value)), forward(pos + 2, next))),
                    Err(e) => Err(e),
                },
                Some(Token::LParen) => match parameters(tokens, pos + 2, Seq::empty()) {
                    Ok((params, stop)) => match tok_at(tokens, forward(pos + 1, stop)) {
                        Some(Token::Eq) => match parse_rule(
                            Rule::MultiStatement,
                            tokens,
                            forward(pos + 1, stop) + 1,
                        ) {
                            Ok((body, next)) => match tok_at(
                                tokens,
                                forward(forward(pos + 1, stop) + 1, next),
                            ) {
                                Some(Token::Keyword(Keyword::Rav)) => Ok(
                                    (
                                        Ast::FuncAssign { name: name, params: params, body: Box::new(body) },
                                        forward(forward(pos + 1, stop) + 1, next) + 1,
                                    ),
                                ),
                                _ => Err(ParseError::ExpectedRav),
                            },
                            Err(e) => Err(e),
                        },
                        _ => Err(ParseError::ExpectedEquals),
                    },
                    Err(e) => Err(e),
                },
                _ => Err(ParseError::BadDefinition),
            },
            _ => Err(ParseError::ExpectedIdentifier),
        },
        Rule::IfStatement => match parse_rule(Rule::Statement, tokens, pos) {
            Ok((condition, next)) => match tok_at(tokens, forward(pos, next)) {
                Some(Token::Keyword(Keyword::Then)) => match parse_rule(
                    Rule::MultiStatement,
                    tokens,
                    forward(pos, next) + 1,
                ) {
                    Ok((body, end)) => match tok_at(tokens, forward(forward(pos, next) + 1, end)) {
                        Some(Token::Keyword(Keyword::Else)) => match parse_rule(
                            Rule::MultiStatement,
                            tokens,
                            forward(forward(pos, next) + 1, end) + 1,
                        ) {
                            Ok((other, last)) => match tok_at(
                                tokens,
                                forward(forward(forward(pos, next) + 1, end) + 1, last),
                            ) {
                                Some(Token::Keyword(Keyword::Fi)) => Ok(
                                    (
                                        Ast::If {
                                            condition: Box::new(condition),
                                            body: Box::new(body),
                                            else_body: Some(Box::new(other)),
                                        },
                                        forward(forward(forward(pos, next) + 1, end) + 1, last) + 1,
                                    ),
                                ),
                                _ => Err(ParseError::ExpectedFi),
                            },
                            Err(e) => Err(e),
                        },
                        Some(Token::Keyword(Keyword::Fi)) => Ok(
                            (
                                Ast::If {
                                    condition: Box::new(condition),
                                    body: Box::new(body),
                                    else_body: None,
                                },
                                forward(forward(pos, next) + 1, end) + 1,
                            ),
                        ),
                        _ => Err(ParseError::ExpectedFi),
                    },
                    Err(e) => Err(e),
                },
                _ => Err(ParseError::ExpectedThen),
            },
            Err(e) => Err(e),
        },
        Rule::WhileLoop => match parse_rule(Rule::Statement, tokens, pos) {
            Ok((condition, next)) => match tok_at(tokens, forward(pos, next)) {
                Some(Token::Keyword(Keyword::Do)) => match parse_rule(
                    Rule::MultiStatement,
                    tokens,
                    forward(pos, next) + 1,
                ) {
                    Ok((code, end)) => match tok_at(tokens, forward(forward(pos, next) + 1, end)) {
                        Some(Token::Keyword(Keyword::End)) => Ok(
                            (
                                Ast::While { condition: Box::new(condition), code: Box::new(code) },
                                forward(forward(pos, next) + 1, end) + 1,
                            ),
                        ),
                        _ => Err(ParseError::ExpectedEnd),
                    },
                    Err(e) => Err(e),
                },
                _ => Err(ParseError::ExpectedDo),
            },
            Err(e) => Err(e),
        },
        Rule::Statement => match tok_at(tokens, pos) {
            Some(Token::Keyword(Keyword::Var)) => parse_rule(Rule::VarAssign, tokens, pos + 1),
            Some(Token::Keyword(Keyword::If)) => parse_rule(Rule::IfStatement, tokens, pos + 1),
            Some(Token::Keyword(Keyword::While)) => parse_rule(Rule::WhileLoop, tokens, pos + 1),
            Some(Token::Keyword(Keyword::Struct)) => struct_create(tokens, pos + 1),
            Some(_) => parse_rule(Rule::Comp, tokens, pos),
            None => Err(ParseError::EmptyStatement),
        },
        Rule::StatementsTail(done) => match tok_at(tokens, pos) {
            Some(Token::Semi) => if statement_ahead(tokens, pos + 1) {
                match parse_rule(Rule::Statement, tokens, pos + 1) {
                    Ok((next_one, next)) => parse_rule(
                        Rule::StatementsTail(done.push(next_one)),
                        tokens,
                        forward(pos + 1, next),
                    ),
                    Err(e) => Err(e),
                }
            } else {
                Ok((Ast::MultiStatement(done), pos + 1))
            },
            _ => Ok((Ast::MultiStatement(done), pos)),
        },
        Rule::MultiStatement => match parse_rule(Rule::Statement, tokens, pos) {
            Ok((first, next)) => parse_rule(Rule::StatementsTail(seq![first]), tokens, forward(pos, next)),
            Err(e) => Err(e),
        },
    }
}

/// A statement from `pos` on.
pub open spec fn statement(tokens: Seq<Token>, pos: int) -> Parsed {
    parse_rule(Rule::Statement, tokens, pos)
}

/// A statement sequence from `pos` on.
pub open spec fn multi_statement(tokens: Seq<Token>, pos: int) -> Parsed {
    parse_rule(Rule::MultiStatement, tokens, pos)
}

/// A program: a statement sequence that takes every token from `pos`
/// on.
pub open spec fn program(tokens: Seq<Token>, pos: int) -> Parsed {
    match multi_statement(tokens, pos) {
        Ok((body, next)) => match tok_at(tokens, forward(pos, next)) {
            None => Ok((Ast::Program(Box::new(body)), forward(pos, next))),
            Some(_) => Err(ParseError::TrailingTokens),
        },
        Err(e) => Err(e),
    }
}

/// Whether a rule takes at least one token wherever it succeeds. The
/// other rules go on behind something that was parsed already, and may
/// find nothing to add.
pub open spec fn consuming(rule: Rule) -> bool {
    !(rule is CallTail || rule is TermTail || rule is ArithTail || rule is PipeTail || rule
        is StatementsTail)
}

/// A chain of member accesses ends at or behind the position at which it
/// starts.
pub proof fn dotted_tail_advances(tokens: Seq<Token>, pos: int, left: Ast)
    ensures
        match dotted_tail(tokens, pos, left) {
            Ok((_, next)) => next >= pos,
            Err(_) => true,
        },
    decreases remaining(tokens, pos),
{
    match tok_at(tokens, pos) {
        Some(Token::Dot) => match tok_at(tokens, pos + 1) {
            Some(Token::Ident(name)) => {
                dotted_tail_advances(
                    tokens,
                    pos + 2,
                    Ast::VarDottedAccess { left: Box::new(left), ident: name },
                );
            },
            _ => {},
        },
        _ => {},
    }
}

/// A parameter list ends behind the position at which it starts.
pub proof fn parameters_advance(tokens: Seq<Token>, pos: int, acc: Seq<Seq<char>>)
    ensures
        match parameters(tokens, pos, acc) {
            Ok((_, stop)) => stop > pos && forward(pos - 1, stop) == stop,
            Err(_) => true,
        },
    decreases remaining(tokens, pos),
{
    match tok_at(tokens, pos) {
        Some(Token::Ident(x)) => match tok_at(tokens, pos + 1) {
            Some(Token::Comma) => match tok_at(tokens, pos + 2) {
                Some(Token::Ident(_)) => {
                    parameters_advance(tokens, pos + 2, acc.push(x));
                },
                _ => {},
            },
            _ => {},
        },
        _ => {},
    }
}

/// The field names of a struct definition end at or behind the position
/// at which they start.
pub proof fn field_names_advance(tokens: Seq<Token>, pos: int, acc: Seq<Seq<char>>)
    ensures
        match field_names(tokens, pos, acc) {
            Ok((_, stop)) => stop >= pos,
            Err(_) => true,
        },
    decreases remaining(tokens, pos),
{
    match tok_at(tokens, pos) {
        Some(Token::Ident(name)) => match tok_at(tokens, pos + 1) {
            Some(Token::Comma) => match tok_at(tokens, pos + 2) {
                Some(Token::Ident(_)) => {
                    field_names_advance(tokens, pos + 2, acc.push(name));
                },
                _ => {},
            },
            _ => {},
        },
        _ => {},
    }
}

/// A struct definition that is parsed takes at least one token.
pub proof fn struct_create_advances(tokens: Seq<Token>, pos: int)
    ensures
        match struct_create(tokens, pos) {
            Ok((_, next)) => pos < next,
            Err(_) => true,
        },
{
    field_names_advance(tokens, pos + 2, Seq::empty());
}

/// Parsing moves forward: where a rule succeeds, the position behind what
/// it parsed is not before the position at which it started, and lies
/// behind it for every rule that takes a token. So `forward` never
/// changes a position that a rule gave.
pub proof fn parse_advances(rule: Rule, tokens: Seq<Token>, pos: int)
    ensures
        match parse_rule(rule, tokens, pos) {
            Ok((_, next)) => pos <= next && (consuming(rule) ==> pos < next && forward(pos, next) == next),
            Err(_) => true,
        },
    decreases remaining(tokens, pos), rank(rule),
{
    match rule {
        Rule::Literal => match tok_at(tokens, pos) {
            Some(Token::Keyword(Keyword::Code)) => {
                parse_advances(Rule::MultiStatement, tokens, pos + 1);
            },
            Some(Token::LBracket) => {
                parse_advances(Rule::Statement, tokens, pos + 1);
                match parse_rule(Rule::Statement, tokens, pos + 1) {
                    Ok((first, next)) => {
                        parse_advances(Rule::ListTail(seq![first]), tokens, forward(pos + 1, next));
                    },
                    Err(_) => {},
                }
            },
            _ => {},
        },
        Rule::ListTail(items) => match tok_at(tokens, pos) {
            Some(Token::Comma) => {
                parse_advances(Rule::Statement, tokens, pos + 1);
                match parse_rule(Rule::Statement, tokens, pos + 1) {
                    Ok((item, next)) => {
                        parse_advances(Rule::ListTail(items.push(item)), tokens, forward(pos + 1, next));
                    },
                    Err(_) => {},
                }
            },
            _ => {},
        },
        Rule::Atom => match tok_at(tokens, pos) {
            Some(Token::Ident(name)) => match tok_at(tokens, pos + 1) {
                Some(Token::Eq) => {
                    parse_advances(Rule::Statement, tokens, pos + 2);
                },
                _ => {},
            },
            _ => {
                parse_advances(Rule::Literal, tokens, pos);
            },
        },
        Rule::Factor => match tok_at(tokens, pos) {
            Some(Token::LParen) => {
                parse_advances(Rule::MultiStatement, tokens, pos + 1);
                match parse_rule(Rule::MultiStatement, tokens, pos + 1) {
                    Ok((inner, next)) => {
                        dotted_tail_advances(tokens, forward(pos + 1, next) + 1, inner);
                    },
                    Err(_) => {},
                }
            },
            _ => {
                parse_advances(Rule::Atom, tokens, pos);
                match parse_rule(Rule::Atom, tokens, pos) {
                    Ok((left, next)) => {
                        dotted_tail_advances(tokens, forward(pos, next), left);
                    },
                    Err(_) => {},
                }
            },
        },
        Rule::Arguments(callee) => match tok_at(tokens, pos) {
            Some(Token::RParen) => {},
            Some(_) => {
                parse_advances(Rule::Statement, tokens, pos);
                match parse_rule(Rule::Statement, tokens, pos) {
                    Ok((arg, next)) => {
                        parse_advances(Rule::ArgumentsTail(callee, seq![arg]), tokens, forward(pos, next));
                    },
                    Err(_) => {},
                }
            },
            None => {},
        },
        Rule::ArgumentsTail(callee, acc) => match tok_at(tokens, pos) {
            Some(Token::Comma) => {
                parse_advances(Rule::Statement, tokens, pos + 1);
                match parse_rule(Rule::Statement, tokens, pos + 1) {
                    Ok((arg, next)) => {
                        parse_advances(
                            Rule::ArgumentsTail(callee, acc.push(arg)),
                            tokens,
                            forward(pos + 1, next),
                        );
                    },
                    Err(_) => {},
                }
            },
            _ => {},
        },
        Rule::CallTail(left) => match tok_at(tokens, pos) {
            Some(Token::LParen) => {
                parse_advances(Rule::Arguments(left), tokens, pos + 1);
                match parse_rule(Rule::Arguments(left), tokens, pos + 1) {
                    Ok((call, next)) => {
                        parse_advances(Rule::CallTail(call), tokens, forward(pos + 1, next));
                    },
                    Err(_) => {},
                }
            },
            _ => {},
        },
        Rule::Unop => match tok_at(tokens, pos) {
            Some(Token::Plus) => {
                parse_advances(Rule::Factor, tokens, pos + 1);
                match parse_rule(Rule::Factor, tokens, pos + 1) {
                    Ok((right, next)) => {
                        parse_advances(
                            Rule::CallTail(Ast::UnOp(Token::Plus, Box::new(right))),
                            tokens,
                            forward(pos + 1, next),
                        );
                    },
                    Err(_) => {},
                }
            },
            Some(Token::Minus) => {
                parse_advances(Rule::Factor, tokens, pos + 1);
                match parse_rule(Rule::Factor, tokens, pos + 1) {
                    Ok((right, next)) => {
                        parse_advances(
                            Rule::CallTail(Ast::UnOp(Token::Minus, Box::new(right))),
                            tokens,
                            forward(pos + 1, next),
                        );
                    },
                    Err(_) => {},
                }
            },
            _ => {
                parse_advances(Rule::Factor, tokens, pos);
                match parse_rule(Rule::Factor, tokens, pos) {
                    Ok((left, next)) => {
                        parse_advances(Rule::CallTail(left), tokens, forward(pos, next));
                    },
                    Err(_) => {},
                }
            },
        },
        Rule::TermTail(left) => match tok_at(tokens, pos) {
            Some(Token::Div) => {
                parse_advances(Rule::Unop, tokens, pos + 1);
                match parse_rule(Rule::Unop, tokens, pos + 1) {
                    Ok((right, next)) => {
                        parse_advances(
                            Rule::TermTail(Ast::BinOp(Box::new(left), Token::Div, Box::new(right))),
                            tokens,
                            forward(pos + 1, next),
                        );
                    },
                    Err(_) => {},
                }
            },
            Some(Token::Mul) => {
                parse_advances(Rule::Unop, tokens, pos + 1);
                match parse_rule(Rule::Unop, tokens, pos + 1) {
                    Ok((right, next)) => {
                        parse_advances(
                            Rule::TermTail(Ast::BinOp(Box::new(left), Token::Mul, Box::new(right))),
                            tokens,
                            forward(pos + 1, next),
                        );
                    },
                    Err(_) => {},
                }
            },
            _ => {},
        },
        Rule::Term => {
            parse_advances(Rule::Unop, tokens, pos);
            match parse_rule(Rule::Unop, tokens, pos) {
                Ok((left, next)) => {
                    parse_advances(Rule::TermTail(left), tokens, forward(pos, next));
                },
                Err(_) => {},
            }
        },
        Rule::ArithTail(left) => match tok_at(tokens, pos) {
            Some(Token::Plus) => {
                parse_advances(Rule::Term, tokens, pos + 1);
                match parse_rule(Rule::Term, tokens, pos + 1) {
                    Ok((right, next)) => {
                        parse_advances(
                            Rule::ArithTail(Ast::BinOp(Box::new(left), Token::Plus, Box::new(right))),
                            tokens,
                            forward(pos + 1, next),
                        );
                    },
                    Err(_) => {},
                }
            },
            Some(Token::Minus) => {
                parse_advances(Rule::Term, tokens, pos + 1);
                match parse_rule(Rule::Term, tokens, pos + 1) {
                    Ok((right, next)) => {
                        parse_advances(
                            Rule::ArithTail(Ast::BinOp(Box::new(left), Token::Minus, Box::new(right))),
                            tokens,
                            forward(pos + 1, next),
                        );
                    },
                    Err(_) => {},
                }
            },
            _ => {},
        },
        Rule::Arith => {
            parse_advances(Rule::Term, tokens, pos);
            match parse_rule(Rule::Term, tokens, pos) {
                Ok((left, next)) => {
                    parse_advances(Rule::ArithTail(left), tokens, forward(pos, next));
                },
                Err(_) => {},
            }
        },
        Rule::Expr => {
            parse_advances(Rule::Arith, tokens, pos);
        },
        Rule::PipeTail(left) => match tok_at(tokens, pos) {
            Some(Token::Pipe) => {
                parse_advances(Rule::Expr, tokens, pos + 1);
                match parse_rule(Rule::Expr, tokens, pos + 1) {
                    Ok((right, next)) => {
                        parse_advances(
                            Rule::PipeTail(Ast::Pipe(Box::new(left), Box::new(right))),
                            tokens,
                            forward(pos + 1, next),
                        );
                    },
                    Err(_) => {},
                }
            },
            _ => {},
        },
        Rule::Pipe => {
            parse_advances(Rule::Expr, tokens, pos);
            match parse_rule(Rule::Expr, tokens, pos) {
                Ok((left, next)) => {
                    parse_advances(Rule::PipeTail(left), tokens, forward(pos, next));
                },
                Err(_) => {},
            }
        },
        Rule::Comp => {
            parse_advances(Rule::Pipe, tokens, pos);
            match parse_rule(Rule::Pipe, tokens, pos) {
                Ok((left, next)) => match tok_at(tokens, forward(pos, next)) {
                    Some(t) => {
                        if relational(t) {
                            parse_advances(Rule::Pipe, tokens, forward(pos, next) + 1);
                        }
                    },
                    None => {},
                },
                Err(_) => {},
            }
        },
        Rule::VarAssign => match tok_at(tokens, pos) {
            Some(Token::Ident(name)) => match tok_at(tokens, pos + 1) {
                Some(Token::Eq) => {
                    parse_advances(Rule::Statement, tokens, pos + 2);
                },
                Some(Token::LParen) => match parameters(tokens, pos + 2, Seq::empty()) {
                    Ok((params, stop)) => {
                        parse_advances(Rule::MultiStatement, tokens, forward(pos + 1, stop) + 1);
                    },
                    Err(_) => {},
                },
                _ => {},
            },
            _ => {},
        },
        Rule::IfStatement => {
            parse_advances(Rule::Statement, tokens, pos);
            match parse_rule(Rule::Statement, tokens, pos) {
                Ok((condition, next)) => match tok_at(tokens, forward(pos, next)) {
                    Some(Token::Keyword(Keyword::Then)) => {
                        parse_advances(Rule::MultiStatement, tokens, forward(pos, next) + 1);
                        match parse_rule(Rule::MultiStatement, tokens, forward(pos, next) + 1) {
                            Ok((body, end)) => match tok_at(tokens, forward(forward(pos, next) + 1, end)) {
                                Some(Token::Keyword(Keyword::Else)) => {
                                    parse_advances(
                                        Rule::MultiStatement,
                                        tokens,
                                        forward(forward(pos, next) + 1, end) + 1,
                                    );
                                },
                                _ => {},
                            },
                            Err(_) => {},
                        }
                    },
                    _ => {},
                },
                Err(_) => {},
            }
        },
        Rule::WhileLoop => {
            parse_advances(Rule::Statement, tokens, pos);
            match parse_rule(Rule::Statement, tokens, pos) {
                Ok((condition, next)) => match tok_at(tokens, forward(pos, next)) {
                    Some(Token::Keyword(Keyword::Do)) => {
                        parse_advances(Rule::MultiStatement, tokens, forward(pos, next) + 1);
                    },
                    _ => {},
                },
                Err(_) => {},
            }
        },
        Rule::Statement => match tok_at(tokens, pos) {
            Some(Token::Keyword(Keyword::Var)) => {
                parse_advances(Rule::VarAssign, tokens, pos + 1);
            },
            Some(Token::Keyword(Keyword::If)) => {
                parse_advances(Rule::IfStatement, tokens, pos + 1);
            },
            Some(Token::Keyword(Keyword::While)) => {
                parse_advances(Rule::WhileLoop, tokens, pos + 1);
            },
            Some(Token::Keyword(Keyword::Struct)) => {
                struct_create_advances(tokens, pos + 1);
            },
            Some(_) => {
                parse_advances(Rule::Comp, tokens, pos);
            },
            None => {},
        },
        Rule::StatementsTail(done) => match tok_at(tokens, pos) {
            Some(Token::Semi) => {
                if statement_ahead(tokens, pos + 1) {
                    parse_advances(Rule::Statement, tokens, pos + 1);
                    match parse_rule(Rule::Statement, tokens, pos + 1) {
                        Ok((next_one, next)) => {
                            parse_advances(
                                Rule::StatementsTail(done.push(next_one)),
                                tokens,
                                forward(pos + 1, next),
                            );
                        },
                        Err(_) => {},
                    }
                }
            },
            _ => {},
        },
        Rule::MultiStatement => {
            parse_advances(Rule::Statement, tokens, pos);
            match parse_rule(Rule::Statement, tokens, pos) {
                Ok((first, next)) => {
                    parse_advances(Rule::StatementsTail(seq![first]), tokens, forward(pos, next));
                },
                Err(_) => {},
            }
        },
    }
}

/// Whether what the parser gives from `pos` is what the grammar says,
/// and lies behind `pos` and within the tokens.
pub open spec fn agrees(r: Result<(Node, usize), ParseError>, want: Parsed, pos: int, len: int) -> bool {
    match r {
        Ok((node, next)) => want == Ok::<(Ast, int), ParseError>((node@, next as int)) && pos < next <= len,
        Err(e) => want == Err::<(Ast, int), ParseError>(e),
    }
}

fn push_name(names: &mut Vec<String>, name: String)
    ensures
        texts(final(names)@) == texts(old(names)@).push(name@),
{
    names.push(name);
    assert(texts(names@) =~= texts(old(names)@).push(name@));
}

fn push_node(nodes: &mut Vec<Node>, node: Node)
    ensures
        asts(final(nodes)@) == asts(old(nodes)@).push(node@),
{
    nodes.push(node);
    assert(asts(nodes@) =~= asts(old(nodes)@).push(node@));
}

fn push_boxed(nodes: &mut Vec<Box<Node>>, node: Node)
    ensures
        boxed_asts(final(nodes)@) == boxed_asts(old(nodes)@).push(node@),
{
    nodes.push(Box::new(node));
    assert(boxed_asts(nodes@) =~= boxed_asts(old(nodes)@).push(node@));
}

/// The parser: the tokens and the position of the current token.
pub struct Parser {
    tokens: Vec<TT>,
    cur_idx: usize,
}

impl Parser {
    /// The tokens that the parser reads.
    pub closed spec fn tokens(&self) -> Seq<Token> {
        tokens_view(self.tokens@)
    }

    /// The position of the current token.
    pub closed spec fn position(&self) -> int {
        self.cur_idx as int
    }

    /// A parser at the first of `tokens`.
    pub fn new(tokens: Vec<TT>) -> (r: Parser)
        ensures
            r.tokens() == tokens_view(tokens@),
            r.position() == 0,
    {
        Parser { tokens: tokens, cur_idx: 0 }
    }

    /// Parses a program from the current token on, which has to take
    /// every token that is left. On success the parser stands behind the
    /// last token; on an error it stays where it was.
    pub fn parse(&mut self) -> (r: Result<Node, ParseError>)
        ensures
            final(self).tokens() == old(self).tokens(),
            match r {
                Ok(node) => program(old(self).tokens(), old(self).position()) == Ok::<(Ast, int), ParseError>(
                    (node@, final(self).position()),
                ),
                Err(e) => program(old(self).tokens(), old(self).position()) == Err::<(Ast, int), ParseError>(e)
                    && final(self).position() == old(self).position(),
            },
    {
        match self.program(self.cur_idx) {
            Ok((node, next)) => {
                self.cur_idx = next;
                Ok(node)
            },
            Err(e) => Err(e),
        }
    }

    fn get_cur_tok(&self, pos: usize) -> (r: Option<&TT>)
        ensures
            self.tokens@.len() <= usize::MAX,
            match r {
                Some(t) => pos < self.tokens@.len() && tok_at(self.tokens(), pos as int) == Some(t@),
                None => pos >= self.tokens@.len() && tok_at(self.tokens(), pos as int) is None,
            },
    {
        if pos < self.tokens.len() {
            Some(&self.tokens[pos])
        } else {
            None
        }
    }

    fn dotted(&self, pos: usize, start: Node) -> (r: Result<(Node, usize), ParseError>)
        requires
            pos <= self.tokens@.len(),
        ensures
            match r {
                Ok((node, next)) => dotted_tail(self.tokens(), pos as int, start@) == Ok::<(Ast, int), ParseError>(
                    (node@, next as int),
                ) && pos <= next <= self.tokens@.len(),
                Err(e) => dotted_tail(self.tokens(), pos as int, start@) == Err::<(Ast, int), ParseError>(e),
            },
    {
        let ghost goal = dotted_tail(self.tokens(), pos as int, start@);
        let mut left = start;
        let mut p = pos;
        loop
            invariant
                pos <= p <= self.tokens@.len(),
                goal == dotted_tail(self.tokens(), pos as int, start@),
                goal == dotted_tail(self.tokens(), p as int, left@),
            decreases self.tokens@.len() - p,
        {
            match self.get_cur_tok(p) {
                Some(TT::DOT) => match self.get_cur_tok(p + 1) {
                    Some(TT::IDENT(right)) => {
                        left = Node::VarDottedAccess { left: Box::new(left), ident: right.clone() };
                        p = p + 2;
                    },
                    _ => {
                        return Err(ParseError::ExpectedMemberName);
                    },
                },
                _ => {
                    return Ok((left, p));
                },
            }
        }
    }

    fn literal(&self, pos: usize) -> (r: Result<(Node, usize), ParseError>)
        ensures
            agrees(r, parse_rule(Rule::Literal, self.tokens(), pos as int), pos as int, self.tokens@.len() as int),
        decreases remaining(self.tokens(), pos as int), 1nat,
    {
        match self.get_cur_tok(pos) {
            Some(TT::KEYWORD(Keyword::Code)) => match self.multi_statement(pos + 1) {
                Ok((inner, next)) => match self.get_cur_tok(next) {
                    Some(TT::KEYWORD(Keyword::Edoc)) => Ok((Node::Node(Box::new(inner)), next + 1)),
                    _ => Err(ParseError::ExpectedEdoc),
                },
                Err(e) => Err(e),
            },
            Some(TT::LBRACKET) => match self.statement(pos + 1) {
                Ok((first, next)) => {
                    let mut items: Vec<Box<Node>> = Vec::new();
                    let mut p = next;
                    let ghost goal = parse_rule(Rule::Literal, self.tokens(), pos as int);
                    assert(boxed_asts(items@) =~= Seq::<Ast>::empty());
                    push_boxed(&mut items, first);
                    assert(boxed_asts(items@) =~= seq![first@]);
                    loop
                        invariant
                            goal == parse_rule(Rule::Literal, self.tokens(), pos as int),
                            pos < p <= self.tokens@.len(),
                            goal == parse_rule(Rule::ListTail(boxed_asts(items@)), self.tokens(), p as int),
                        decreases remaining(self.tokens(), p as int),
                    {
                        match self.get_cur_tok(p) {
                            Some(TT::COMMA) => match self.statement(p + 1) {
                                Ok((item, after)) => {
                                    push_boxed(&mut items, item);
                                    p = after;
                                },
                                Err(e) => {
                                    return Err(e);
                                },
                            },
                            Some(TT::RBRACKET) => {
                                return Ok((Node::List(items), p + 1));
                            },
                            _ => {
                                return Err(ParseError::UnclosedList);
                            },
                        }
                    }
                },
                Err(e) => Err(e),
            },
            Some(TT::NUMBER(x)) => Ok((Node::Number(x.clone()), pos + 1)),
            Some(TT::STRING(s)) => Ok((Node::String(s.clone()), pos + 1)),
            Some(TT::IDENT(name)) => Ok((Node::VarAccess(name.clone()), pos + 1)),
            _ => Err(ParseError::UnexpectedToken),
        }
    }

    fn atom(&self, pos: usize) -> (r: Result<(Node, usize), ParseError>)
        ensures
            agrees(r, parse_rule(Rule::Atom, self.tokens(), pos as int), pos as int, self.tokens@.len() as int),
        decreases remaining(self.tokens(), pos as int), 2nat,
    {
        match self.get_cur_tok(pos) {
            Some(TT::IDENT(i)) => match self.get_cur_tok(pos + 1) {
                Some(TT::EQ) => match self.statement(pos + 2) {
                    Ok((value, next)) => {
                        let target = Node::VarAccess(i.clone());
                        assert(target@ == Ast::VarAccess(i@));
                        Ok((Node::BinOp(Box::new(target), TT::EQ, Box::new(value)), next))
                    },
                    Err(e) => Err(e),
                },
                _ => Ok((Node::VarAccess(i.clone()), pos + 1)),
            },
            _ => self.literal(pos),
        }
    }

    fn factor(&self, pos: usize) -> (r: Result<(Node, usize), ParseError>)
        ensures
            agrees(r, parse_rule(Rule::Factor, self.tokens(), pos as int), pos as int, self.tokens@.len() as int),
        decreases remaining(self.tokens(), pos as int), 3nat,
    {
        match self.get_cur_tok(pos) {
            Some(TT::LPAREN) => match self.multi_statement(pos + 1) {
                Ok((inner, next)) => match self.get_cur_tok(next) {
                    Some(TT::RPAREN) => self.dotted(next + 1, inner),
                    _ => Err(ParseError::UnclosedParen),
                },
                Err(e) => Err(e),
            },
            _ => match self.atom(pos) {
                Ok((left, next)) => self.dotted(next, left),
                Err(e) => Err(e),
            },
        }
    }

    fn arguments(&self, pos: usize, callee: Node) -> (r: Result<(Node, usize), ParseError>)
        ensures
            agrees(
                r,
                parse_rule(Rule::Arguments(callee@), self.tokens(), pos as int),
                pos as int,
                self.tokens@.len() as int,
            ),
        decreases remaining(self.tokens(), pos as int), 40nat,
    {
        match self.get_cur_tok(pos) {
            Some(TT::RPAREN) => {
                let nodes: Vec<Node> = Vec::new();
                assert(asts(nodes@) =~= Seq::<Ast>::empty());
                Ok((Node::FunctionCall(Box::new(callee), nodes), pos + 1))
            },
            Some(_) => match self.statement(pos) {
                Ok((first, next)) => {
                    let ghost goal = parse_rule(Rule::Arguments(callee@), self.tokens(), pos as int);
                    let mut nodes: Vec<Node> = Vec::new();
                    assert(asts(nodes@) =~= Seq::<Ast>::empty());
                    push_node(&mut nodes, first);
                    assert(asts(nodes@) =~= seq![first@]);
                    let mut p = next;
                    loop
                        invariant
                            pos < p <= self.tokens@.len(),
                            goal == parse_rule(Rule::Arguments(callee@), self.tokens(), pos as int),
                            goal == parse_rule(
                                Rule::ArgumentsTail(callee@, asts(nodes@)),
                                self.tokens(),
                                p as int,
                            ),
                        decreases remaining(self.tokens(), p as int),
                    {
                        match self.get_cur_tok(p) {
                            Some(TT::RPAREN) => {
                                return Ok((Node::FunctionCall(Box::new(callee), nodes), p + 1));
                            },
                            Some(TT::COMMA) => match self.statement(p + 1) {
                                Ok((arg, after)) => {
                                    push_node(&mut nodes, arg);
                                    p = after;
                                },
                                Err(e) => {
                                    return Err(e);
                                },
                            },
                            _ => {
                                return Err(ParseError::UnclosedCall);
                            },
                        }
                    }
                },
                Err(e) => Err(e),
            },
            None => Err(ParseError::EmptyStatement),
        }
    }

    fn call(&self, pos: usize, start: Node, Ghost(from): Ghost<int>) -> (r: Result<(Node, usize), ParseError>)
        requires
            from < pos <= self.tokens@.len(),
        ensures
            agrees(
                r,
                parse_rule(Rule::CallTail(start@), self.tokens(), pos as int),
                from,
                self.tokens@.len() as int,
            ),
        decreases remaining(self.tokens(), from), 21nat,
    {
        let ghost goal = parse_rule(Rule::CallTail(start@), self.tokens(), pos as int);
        let mut left = start;
        let mut p = pos;
        loop
            invariant
                from < pos <= p <= self.tokens@.len(),
                goal == parse_rule(Rule::CallTail(start@), self.tokens(), pos as int),
                goal == parse_rule(Rule::CallTail(left@), self.tokens(), p as int),
            decreases self.tokens@.len() - p,
        {
            match self.get_cur_tok(p) {
                Some(TT::LPAREN) => match self.arguments(p + 1, left) {
                    Ok((made, next)) => {
                        left = made;
                        p = next;
                    },
                    Err(e) => {
                        return Err(e);
                    },
                },
                _ => {
                    return Ok((left, p));
                },
            }
        }
    }

    fn unop(&self, pos: usize) -> (r: Result<(Node, usize), ParseError>)
        ensures
            agrees(r, parse_rule(Rule::Unop, self.tokens(), pos as int), pos as int, self.tokens@.len() as int),
        decreases remaining(self.tokens(), pos as int), 22nat,
    {
        match self.get_cur_tok(pos) {
            Some(TT::PLUS) => match self.factor(pos + 1) {
                Ok((right, next)) => self.call(next, Node::UnOp(TT::PLUS, Box::new(right)), Ghost(pos as int)),
                Err(e) => Err(e),
            },
            Some(TT::MINUS) => match self.factor(pos + 1) {
                Ok((right, next)) => self.call(next, Node::UnOp(TT::MINUS, Box::new(right)), Ghost(pos as int)),
                Err(e) => Err(e),
            },
            _ => match self.factor(pos) {
                Ok((left, next)) => self.call(next, left, Ghost(pos as int)),
                Err(e) => Err(e),
            },
        }
    }

    fn term(&self, pos: usize) -> (r: Result<(Node, usize), ParseError>)
        ensures
            agrees(r, parse_rule(Rule::Term, self.tokens(), pos as int), pos as int, self.tokens@.len() as int),
        decreases remaining(self.tokens(), pos as int), 23nat,
    {
        match self.unop(pos) {
            Ok((first, next)) => {
                let mut left = first;
                let mut p = next;
                let ghost goal = parse_rule(Rule::Term, self.tokens(), pos as int);
                loop
                    invariant
                        goal == parse_rule(Rule::Term, self.tokens(), pos as int),
                        pos < p <= self.tokens@.len(),
                        goal == parse_rule(Rule::TermTail(left@), self.tokens(), p as int),
                    decreases remaining(self.tokens(), p as int),
                {
                    match self.get_cur_tok(p) {
                        Some(TT::DIV) => match self.unop(p + 1) {
                            Ok((right, after)) => {
                                left = Node::BinOp(Box::new(left), TT::DIV, Box::new(right));
                                p = after;
                            },
                            Err(e) => {
                                return Err(e);
                            },
                        },
                        Some(TT::MUL) => match self.unop(p + 1) {
                            Ok((right, after)) => {
                                left = Node::BinOp(Box::new(left), TT::MUL, Box::new(right));
                                p = after;
                            },
                            Err(e) => {
                                return Err(e);
                            },
                        },
                        _ => {
                            return Ok((left, p));
                        },
                    }
                }
            },
            Err(e) => Err(e),
        }
    }

    fn arith(&self, pos: usize) -> (r: Result<(Node, usize), ParseError>)
        ensures
            agrees(r, parse_rule(Rule::Arith, self.tokens(), pos as int), pos as int, self.tokens@.len() as int),
        decreases remaining(self.tokens(), pos as int), 24nat,
    {
        match self.term(pos) {
            Ok((first, next)) => {
                let mut left = first;
                let mut p = next;
                let ghost goal = parse_rule(Rule::Arith, self.tokens(), pos as int);
                loop
                    invariant
                        goal == parse_rule(Rule::Arith, self.tokens(), pos as int),
                        pos < p <= self.tokens@.len(),
                        goal == parse_rule(Rule::ArithTail(left@), self.tokens(), p as int),
                    decreases remaining(self.tokens(), p as int),
                {
                    match self.get_cur_tok(p) {
                        Some(TT::PLUS) => match self.term(p + 1) {
                            Ok((right, after)) => {
                                left = Node::BinOp(Box::new(left), TT::PLUS, Box::new(right));
                                p = after;
                            },
                            Err(e) => {
                                return Err(e);
                            },
                        },
                        Some(TT::MINUS) => match self.term(p + 1) {
                            Ok((right, after)) => {
                                left = Node::BinOp(Box::new(left), TT::MINUS, Box::new(right));
                                p = after;
                            },
                            Err(e) => {
                                return Err(e);
                            },
                        },
                        _ => {
                            return Ok((left, p));
                        },
                    }
                }
            },
            Err(e) => Err(e),
        }
    }

    fn expr(&self, pos: usize) -> (r: Result<(Node, usize), ParseError>)
        ensures
            agrees(r, parse_rule(Rule::Expr, self.tokens(), pos as int), pos as int, self.tokens@.len() as int),
        decreases remaining(self.tokens(), pos as int), 25nat,
    {
        self.arith(pos)
    }

    fn pipe(&self, pos: usize) -> (r: Result<(Node, usize), ParseError>)
        ensures
            agrees(r, parse_rule(Rule::Pipe, self.tokens(), pos as int), pos as int, self.tokens@.len() as int),
        decreases remaining(self.tokens(), pos as int), 26nat,
    {
        match self.expr(pos) {
            Ok((first, next)) => {
                let mut left = first;
                let mut p = next;
                let ghost goal = parse_rule(Rule::Pipe, self.tokens(), pos as int);
                loop
                    invariant
                        goal == parse_rule(Rule::Pipe, self.tokens(), pos as int),
                        pos < p <= self.tokens@.len(),
                        goal == parse_rule(Rule::PipeTail(left@), self.tokens(), p as int),
                    decreases remaining(self.tokens(), p as int),
                {
                    match self.get_cur_tok(p) {
                        Some(TT::PIPE) => match self.expr(p + 1) {
                            Ok((right, after)) => {
                                left = Node::Pipe(Box::new(left), Box::new(right));
                                p = after;
                            },
                            Err(e) => {
                                return Err(e);
                            },
                        },
                        _ => {
                            return Ok((left, p));
                        },
                    }
                }
            },
            Err(e) => Err(e),
        }
    }

    fn comp(&self, pos: usize) -> (r: Result<(Node, usize), ParseError>)
        ensures
            agrees(r, parse_rule(Rule::Comp, self.tokens(), pos as int), pos as int, self.tokens@.len() as int),
        decreases remaining(self.tokens(), pos as int), 27nat,
    {
        match self.pipe(pos) {
            Ok((left, next)) => match self.get_cur_tok(next) {
                Some(t) => match t {
                    TT::LT | TT::GE | TT::GT | TT::LE | TT::EQEQ => match self.pipe(next + 1) {
                        Ok((right, end)) => Ok((Node::BinOp(Box::new(left), t.clone(), Box::new(right)), end)),
                        Err(e) => Err(e),
                    },
                    _ => Ok((left, next)),
                },
                None => Ok((left, next)),
            },
            Err(e) => Err(e),
        }
    }

    fn parameter_list(&self, pos: usize) -> (r: Result<(Vec<String>, usize), ParseError>)
        requires
            pos <= self.tokens@.len(),
        ensures
            match r {
                Ok((names, stop)) => parameters(self.tokens(), pos as int, Seq::empty()) == Ok::<
                    (Seq<Seq<char>>, int),
                    ParseError,
                >((texts(names@), stop as int)) && pos < stop <= self.tokens@.len(),
                Err(e) => parameters(self.tokens(), pos as int, Seq::empty()) == Err::<
                    (Seq<Seq<char>>, int),
                    ParseError,
                >(e),
            },
    {
        let mut params: Vec<String> = Vec::new();
        let mut p = pos;
        let ghost goal = parameters(self.tokens(), pos as int, Seq::empty());
        assert(texts(params@) =~= Seq::<Seq<char>>::empty());
        match self.get_cur_tok(p) {
            Some(TT::RPAREN) => {
                return Ok((params, p + 1));
            },
            Some(TT::IDENT(_)) => {},
            _ => {
                return Err(ParseError::ExpectedParameter);
            },
        }
        loop
            invariant
                pos <= p < self.tokens@.len(),
                tok_at(self.tokens(), p as int) is Some,
                tok_at(self.tokens(), p as int)->0 is Ident,
                goal == parameters(self.tokens(), pos as int, Seq::empty()),
                goal == parameters(self.tokens(), p as int, texts(params@)),
            decreases self.tokens@.len() - p,
        {
            match self.get_cur_tok(p) {
                Some(TT::IDENT(x)) => {
                    push_name(&mut params, x.clone());
                    match self.get_cur_tok(p + 1) {
                        Some(TT::COMMA) => match self.get_cur_tok(p + 2) {
                            Some(TT::IDENT(_)) => {
                                p = p + 2;
                            },
                            _ => {
                                return Err(ParseError::ExpectedParameter);
                            },
                        },
                        Some(TT::RPAREN) => {
                            return Ok((params, p + 2));
                        },
                        _ => {
                            return Err(ParseError::BadParameterList);
                        },
                    }
                },
                _ => {
                    return Err(ParseError::ExpectedParameter);
                },
            }
        }
    }

    fn var_assign(&self, pos: usize) -> (r: Result<(Node, usize), ParseError>)
        ensures
            agrees(r, parse_rule(Rule::VarAssign, self.tokens(), pos as int), pos as int, self.tokens@.len() as int),
        decreases remaining(self.tokens(), pos as int), 28nat,
    {
        match self.get_cur_tok(pos) {
            Some(TT::IDENT(name)) => match self.get_cur_tok(pos + 1) {
                Some(TT::EQ) => match self.statement(pos + 2) {
                    Ok((value, next)) => Ok((Node::VarAssign(name.clone(), Box::new(value)), next)),
                    Err(e) => Err(e),
                },
                Some(TT::LPAREN) => match self.parameter_list(pos + 2) {
                    Ok((params, stop)) => match self.get_cur_tok(stop) {
                        Some(TT::EQ) => match self.multi_statement(stop + 1) {
                            Ok((body, next)) => match self.get_cur_tok(next) {
                                Some(TT::KEYWORD(Keyword::Rav)) => Ok(
                                    (
                                        Node::FuncAssign {
                                            name: name.clone(),
                                            params: params,
                                            body: Box::new(body),
                                        },
                                        next + 1,
                                    ),
                                ),
                                _ => Err(ParseError::ExpectedRav),
                            },
                            Err(e) => Err(e),
                        },
                        _ => Err(ParseError::ExpectedEquals),
                    },
                    Err(e) => Err(e),
                },
                _ => Err(ParseError::BadDefinition),
            },
            _ => Err(ParseError::ExpectedIdentifier),
        }
    }

    fn if_statement(&self, pos: usize) -> (r: Result<(Node, usize), ParseError>)
        ensures
            agrees(
                r,
                parse_rule(Rule::IfStatement, self.tokens(), pos as int),
                pos as int,
                self.tokens@.len() as int,
            ),
        decreases remaining(self.tokens(), pos as int), 31nat,
    {
        match self.statement(pos) {
            Ok((condition, next)) => match self.get_cur_tok(next) {
                Some(TT::KEYWORD(Keyword::Then)) => match self.multi_statement(next + 1) {
                    Ok((program, end)) => match self.get_cur_tok(end) {
                        Some(TT::KEYWORD(Keyword::Else)) => match self.multi_statement(end + 1) {
                            Ok((other, last)) => match self.get_cur_tok(last) {
                                Some(TT::KEYWORD(Keyword::Fi)) => Ok(
                                    (
                                        Node::If {
                                            condition: Box::new(condition),
                                            body: Box::new(program),
                                            else_body: Some(Box::new(other)),
                                        },
                                        last + 1,
                                    ),
                                ),
                                _ => Err(ParseError::ExpectedFi),
                            },
                            Err(e) => Err(e),
                        },
                        Some(TT::KEYWORD(Keyword::Fi)) => Ok(
                            (
                                Node::If {
                                    condition: Box::new(condition),
                                    body: Box::new(program),
                                    else_body: None,
                                },
                                end + 1,
                            ),
                        ),
                        _ => Err(ParseError::ExpectedFi),
                    },
                    Err(e) => Err(e),
                },
                _ => Err(ParseError::ExpectedThen),
            },
            Err(e) => Err(e),
        }
    }

    fn while_loop(&self, pos: usize) -> (r: Result<(Node, usize), ParseError>)
        ensures
            agrees(r, parse_rule(Rule::WhileLoop, self.tokens(), pos as int), pos as int, self.tokens@.len() as int),
        decreases remaining(self.tokens(), pos as int), 31nat,
    {
        match self.statement(pos) {
            Ok((condition, next)) => match self.get_cur_tok(next) {
                Some(TT::KEYWORD(Keyword::Do)) => match self.multi_statement(next + 1) {
                    Ok((program, end)) => match self.get_cur_tok(end) {
                        Some(TT::KEYWORD(Keyword::End)) => Ok(
                            (Node::While { condition: Box::new(condition), code: Box::new(program) }, end + 1),
                        ),
                        _ => Err(ParseError::ExpectedEnd),
                    },
                    Err(e) => Err(e),
                },
                _ => Err(ParseError::ExpectedDo),
            },
            Err(e) => Err(e),
        }
    }

    fn struct_fields(&self, pos: usize) -> (r: Result<(Vec<String>, usize), ParseError>)
        requires
            pos <= self.tokens@.len(),
        ensures
            match r {
                Ok((names, stop)) => field_names(self.tokens(), pos as int, Seq::empty()) == Ok::<
                    (Seq<Seq<char>>, int),
                    ParseError,
                >((texts(names@), stop as int)) && pos <= stop <= self.tokens@.len(),
                Err(e) => field_names(self.tokens(), pos as int, Seq::empty()) == Err::<
                    (Seq<Seq<char>>, int),
                    ParseError,
                >(e),
            },
    {
        let mut names: Vec<String> = Vec::new();
        let mut p = pos;
        let ghost goal = field_names(self.tokens(), pos as int, Seq::empty());
        assert(texts(names@) =~= Seq::<Seq<char>>::empty());
        loop
            invariant
                pos <= p <= self.tokens@.len(),
                goal == field_names(self.tokens(), pos as int, Seq::empty()),
                goal == field_names(self.tokens(), p as int, texts(names@)),
            decreases self.tokens@.len() - p,
        {
            match self.get_cur_tok(p) {
                Some(TT::IDENT(name)) => {
                    push_name(&mut names, name.clone());
                    match self.get_cur_tok(p + 1) {
                        Some(TT::COMMA) => match self.get_cur_tok(p + 2) {
                            Some(TT::IDENT(_)) => {
                                p = p + 2;
                            },
                            _ => {
                                return Err(ParseError::ExpectedFieldName);
                            },
                        },
                        _ => {
                            return Ok((names, p + 1));
                        },
                    }
                },
                _ => {
                    return Ok((names, p));
                },
            }
        }
    }

    fn struct_create(&self, pos: usize) -> (r: Result<(Node, usize), ParseError>)
        ensures
            agrees(r, struct_create(self.tokens(), pos as int), pos as int, self.tokens@.len() as int),
    {
        match self.get_cur_tok(pos) {
            Some(TT::IDENT(struct_name)) => match self.get_cur_tok(pos + 1) {
                Some(TT::EQ) => match self.struct_fields(pos + 2) {
                    Ok((names, stop)) => match self.get_cur_tok(stop) {
                        Some(TT::KEYWORD(Keyword::End)) => Ok(
                            (Node::StructCreate { name: struct_name.clone(), fields: names }, stop + 1),
                        ),
                        _ => Err(ParseError::UnclosedStruct),
                    },
                    Err(e) => Err(e),
                },
                _ => Err(ParseError::ExpectedStructEquals),
            },
            _ => Err(ParseError::ExpectedStructName),
        }
    }

    fn statement(&self, pos: usize) -> (r: Result<(Node, usize), ParseError>)
        ensures
            agrees(r, statement(self.tokens(), pos as int), pos as int, self.tokens@.len() as int),
        decreases remaining(self.tokens(), pos as int), 30nat,
    {
        let r = match self.get_cur_tok(pos) {
            Some(TT::KEYWORD(Keyword::Var)) => self.var_assign(pos + 1),
            Some(TT::KEYWORD(Keyword::If)) => self.if_statement(pos + 1),
            Some(TT::KEYWORD(Keyword::While)) => self.while_loop(pos + 1),
            Some(TT::KEYWORD(Keyword::Struct)) => self.struct_create(pos + 1),
            Some(_) => self.comp(pos),
            None => Err(ParseError::EmptyStatement),
        };
        r
    }

    fn multi_statement(&self, pos: usize) -> (r: Result<(Node, usize), ParseError>)
        ensures
            agrees(r, multi_statement(self.tokens(), pos as int), pos as int, self.tokens@.len() as int),
        decreases remaining(self.tokens(), pos as int), 32nat,
    {
        match self.statement(pos) {
            Ok((first, next)) => {
                let mut nodes: Vec<Node> = Vec::new();
                let mut p = next;
                let ghost goal = multi_statement(self.tokens(), pos as int);
                assert(asts(nodes@) =~= Seq::<Ast>::empty());
                push_node(&mut nodes, first);
                assert(asts(nodes@) =~= seq![first@]);
                loop
                    invariant
                        pos < p <= self.tokens@.len(),
                        goal == multi_statement(self.tokens(), pos as int),
                        goal == parse_rule(Rule::StatementsTail(asts(nodes@)), self.tokens(), p as int),
                    decreases remaining(self.tokens(), p as int),
                {
                    match self.get_cur_tok(p) {
                        Some(TT::SEMI) => {
                            if self.statement_follows(p + 1) {
                                match self.statement(p + 1) {
                                    Ok((next_one, after)) => {
                                        push_node(&mut nodes, next_one);
                                        p = after;
                                    },
                                    Err(e) => {
                                        return Err(e);
                                    },
                                }
                            } else {
                                return Ok((Node::MultiStatement(nodes), p + 1));
                            }
                        },
                        _ => {
                            return Ok((Node::MultiStatement(nodes), p));
                        },
                    }
                }
            },
            Err(e) => Err(e),
        }
    }

    fn statement_follows(&self, pos: usize) -> (r: bool)
        ensures
            r == statement_ahead(self.tokens(), pos as int),
    {
        match self.get_cur_tok(pos) {
            Some(t) => match t {
                TT::KEYWORD(k) => match k {
                    Keyword::Var => true,
                    Keyword::If => true,
                    Keyword::While => true,
                    Keyword::Struct => true,
                    Keyword::Code => true,
                    _ => false,
                },
                TT::LBRACKET => true,
                TT::LPAREN => true,
                TT::PLUS => true,
                TT::MINUS => true,
                TT::NUMBER(_) => true,
                TT::STRING(_) => true,
                TT::IDENT(_) => true,
                _ => false,
            },
            None => false,
        }
    }

    fn program(&self, pos: usize) -> (r: Result<(Node, usize), ParseError>)
        ensures
            agrees(r, program(self.tokens(), pos as int), pos as int, self.tokens@.len() as int),
    {
        match self.multi_statement(pos) {
            Ok((body, next)) => match self.get_cur_tok(next) {
                None => Ok((Node::Program(Box::new(body)), next)),
                Some(_) => Err(ParseError::TrailingTokens),
            },
            Err(e) => Err(e),
        }
    }
}

} // verus!
