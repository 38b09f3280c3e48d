//! The closed vocabulary of the language: reserved words and token kinds.

use vstd::prelude::*;
use vstd::string::StringExecFns;
use crate::text::same_text;

verus! {

/// A reserved word.
#[derive(Clone, Copy, Debug, PartialEq, Eq, Structural)]
pub enum Keyword {
    Var,
    While,
    End,
    Struct,
    If,
    Then,
    Fi,
    Code,
    Edoc,
    Rav,
    Do,
    Else,
}

impl Keyword {
    /// The spelling of the reserved word.
    pub open spec fn text(self) -> Seq<char> {
        match self {
            Keyword::End => "end"@,
            Keyword::Struct => "struct"@,
            Keyword::Fi => "fi"@,
            Keyword::Do => "do"@,
            Keyword::If => "if"@,
            Keyword::While => "while"@,
            Keyword::Var => "var"@,
            Keyword::Rav => "rav"@,
            Keyword::Then => "then"@,
            Keyword::Code => "code"@,
            Keyword::Edoc => "edoc"@,
            Keyword::Else => "else"@,
        }
    }

    /// The reserved word spelled `word`, if there is one.
    pub open spec fn lookup(word: Seq<char>) -> Option<Keyword> {
        if word == "struct"@ {
            Some(Keyword::Struct)
        } else if word == "end"@ {
            Some(Keyword::End)
        } else if word == "fi"@ {
            Some(Keyword::Fi)
        } else if word == "if"@ {
            Some(Keyword::If)
        } else if word == "else"@ {
            Some(Keyword::Else)
        } else if word == "rav"@ {
            Some(Keyword::Rav)
        } else if word == "var"@ {
            Some(Keyword::Var)
        } else if word == "then"@ {
            Some(Keyword::Then)
        } else if word == "code"@ {
            Some(Keyword::Code)
        } else if word == "edoc"@ {
            Some(Keyword::Edoc)
        } else if word == "do"@ {
            Some(Keyword::Do)
        } else if word == "while"@ {
            Some(Keyword::While)
        } else {
            None
        }
    }

    pub fn as_str(&self) -> (r: &'static str)
        ensures
            r@ == self.text(),
    {
        match self {
            Keyword::End => "end",
            Keyword::Struct => "struct",
            Keyword::Fi => "fi",
            Keyword::Do => "do",
            Keyword::If => "if",
            Keyword::While => "while",
            Keyword::Var => "var",
            Keyword::Rav => "rav",
            Keyword::Then => "then",
            Keyword::Code => "code",
            Keyword::Edoc => "edoc",
            Keyword::Else => "else",
        }
    }

    pub fn is_keyword(word: &str) -> (r: Option<Keyword>)
        ensures
            r == Keyword::lookup(word@),
    {
        if same_text(word, "struct") {
            Some(Keyword::Struct)
        } else if same_text(word, "end") {
            Some(Keyword::End)
        } else if same_text(word, "fi") {
            Some(Keyword::Fi)
        } else if same_text(word, "if") {
            Some(Keyword::If)
        } else if same_text(word, "else") {
            Some(Keyword::Else)
        } else if same_text(word, "rav") {
            Some(Keyword::Rav)
        } else if same_text(word, "var") {
            Some(Keyword::Var)
        } else if same_text(word, "then") {
            Some(Keyword::Then)
        } else if same_text(word, "code") {
            Some(Keyword::Code)
        } else if same_text(word, "edoc") {
            Some(Keyword::Edoc)
        } else if same_text(word, "do") {
            Some(Keyword::Do)
        } else if same_text(word, "while") {
            Some(Keyword::While)
        } else {
            None
        }
    }
}

/// Every reserved word is found again under its own spelling, and a word
/// that is found is spelled like the keyword it gives.
pub proof fn keyword_spelling_round_trip(k: Keyword, word: Seq<char>)
    ensures
        Keyword::lookup(k.text()) == Some(k),
        Keyword::lookup(word) == Some(k) ==> word == k.text(),
{
    reveal_strlit("struct");
    reveal_strlit("end");
    reveal_strlit("fi");
    reveal_strlit("if");
    reveal_strlit("else");
    reveal_strlit("rav");
    reveal_strlit("var");
    reveal_strlit("then");
    reveal_strlit("code");
    reveal_strlit("edoc");
    reveal_strlit("do");
    reveal_strlit("while");
    assert("struct"@.len() == 6 && "end"@.len() == 3 && "fi"@.len() == 2 && "if"@.len() == 2);
    assert("else"@.len() == 4 && "rav"@.len() == 3 && "var"@.len() == 3 && "then"@.len() == 4);
    assert("code"@.len() == 4 && "edoc"@.len() == 4 && "do"@.len() == 2 && "while"@.len() == 5);
    assert("fi"@[0] != "if"@[0]);
    assert("rav"@[0] != "var"@[0]);
    assert("rav"@[0] != "end"@[0]);
    assert("var"@[0] != "end"@[0]);
    assert("else"@[1] != "then"@[1]);
    assert("else"@[1] != "code"@[1]);
    assert("else"@[1] != "edoc"@[1]);
    assert("then"@[0] != "code"@[0]);
    assert("then"@[0] != "edoc"@[0]);
    assert("code"@[0] != "edoc"@[0]);
    assert("do"@[0] != "fi"@[0]);
    assert("do"@[0] != "if"@[0]);
}

/// A token kind.
#[derive(Debug, PartialEq)]
pub enum TT {
    PLUS,
    MINUS,
    MUL,
    DIV,
    LPAREN,
    RPAREN,
    LBRACKET,
    RBRACKET,
    SEMI,
    EQ,
    GT,
    GE,
    LT,
    LE,
    EQEQ,
    COMMA,
    KEYWORD(Keyword),
    IDENT(String),
    STRING(String),
    NUMBER(String),
    PIPE,
    DOT,
}

/// What a token is, with its text as a sequence of characters.
pub ghost enum Token {
    Plus,
    Minus,
    Mul,
    Div,
    LParen,
    RParen,
    LBracket,
    RBracket,
    Semi,
    Eq,
    Gt,
    Ge,
    Lt,
    Le,
    EqEq,
    Comma,
    Keyword(Keyword),
    Ident(Seq<char>),
    Str(Seq<char>),
    Number(Seq<char>),
    Pipe,
    Dot,
}

impl Token {
    /// The display form of a token: its spelling for punctuation and
    /// operators, a tagged form for the others.
    pub open spec fn display(self) -> Seq<char> {
        match self {
            Token::Dot => "."@,
            Token::Plus => "+"@,
            Token::Minus => "-"@,
            Token::Mul => "*"@,
            Token::Div => "/"@,
            Token::LParen => "("@,
            Token::RParen => ")"@,
            Token::LBracket => "["@,
            Token::RBracket => "]"@,
            Token::Semi => ";"@,
            Token::Eq => "="@,
            Token::Gt => ">"@,
            Token::Lt => "<"@,
            Token::Ge => ">="@,
            Token::Le => "<="@,
            Token::EqEq => "=="@,
            Token::Comma => ","@,
            Token::Keyword(k) => "Keyword("@ + k.text() + ")"@,
            Token::Ident(s) => "Ident("@ + s + ")"@,
            Token::Str(s) => "String("@ + s + ")"@,
            Token::Number(s) => "Number("@ + s + ")"@,
            Token::Pipe => "|"@,
        }
    }
}

impl View for TT {
    type V = Token;

    open spec fn view(&self) -> Token {
        match self {
            TT::PLUS => Token::Plus,
            TT::MINUS => Token::Minus,
            TT::MUL => Token::Mul,
            TT::DIV => Token::Div,
            TT::LPAREN => Token::LParen,
            TT::RPAREN => Token::RParen,
            TT::LBRACKET => Token::LBracket,
            TT::RBRACKET => Token::RBracket,
            TT::SEMI => Token::Semi,
            TT::EQ => Token::Eq,
            TT::GT => Token::Gt,
            TT::GE => Token::Ge,
            TT::LT => Token::Lt,
            TT::LE => Token::Le,
            TT::EQEQ => Token::EqEq,
            TT::COMMA => Token::Comma,
            TT::KEYWORD(k) => Token::Keyword(*k),
            TT::IDENT(s) => Token::Ident(s@),
            TT::STRING(s) => Token::Str(s@),
            TT::NUMBER(s) => Token::Number(s@),
            TT::PIPE => Token::Pipe,
            TT::DOT => Token::Dot,
        }
    }
}

impl Clone for TT {
    fn clone(&self) -> (r: Self)
        ensures
            r@ == self@,
    {
        match self {
            TT::PLUS => TT::PLUS,
            TT::MINUS => TT::MINUS,
            TT::MUL => TT::MUL,
            TT::DIV => TT::DIV,
            TT::LPAREN => TT::LPAREN,
            TT::RPAREN => TT::RPAREN,
            TT::LBRACKET => TT::LBRACKET,
            TT::RBRACKET => TT::RBRACKET,
            TT::SEMI => TT::SEMI,
            TT::EQ => TT::EQ,
            TT::GT => TT::GT,
            TT::GE => TT::GE,
            TT::LT => TT::LT,
            TT::LE => TT::LE,
            TT::EQEQ => TT::EQEQ,
            TT::COMMA => TT::COMMA,
            TT::KEYWORD(k) => TT::KEYWORD(*k),
            TT::IDENT(s) => TT::IDENT(s.clone()),
            TT::STRING(s) => TT::STRING(s.clone()),
            TT::NUMBER(s) => TT::NUMBER(s.clone()),
            TT::PIPE => TT::PIPE,
            TT::DOT => TT::DOT,
        }
    }
}

fn tagged(tag: &str, body: &str) -> (r: String)
    ensures
        r@ == tag@ + body@ + ")"@,
{
    let mut out = String::from_str(tag);
    out.append(body);
    out.append(")");
    out
}

impl TT {
    pub fn to_string(&self) -> (r: String)
        ensures
            r@ == self@.display(),
    {
        match self {
            TT::DOT => String::from_str("."),
            TT::PLUS => String::from_str("+"),
            TT::MINUS => String::from_str("-"),
            TT::MUL => String::from_str("*"),
            TT::DIV => String::from_str("/"),
            TT::LPAREN => String::from_str("("),
            TT::RPAREN => String::from_str(")"),
            TT::LBRACKET => String::from_str("["),
            TT::RBRACKET => String::from_str("]"),
            TT::SEMI => String::from_str(";"),
            TT::EQ => String::from_str("="),
            TT::GT => String::from_str(">"),
            TT::LT => String::from_str("<"),
            TT::GE => String::from_str(">="),
            TT::LE => String::from_str("<="),
            TT::EQEQ => String::from_str("=="),
            TT::COMMA => String::from_str(","),
            TT::KEYWORD(kwd) => tagged("Keyword(", kwd.as_str()),
            TT::IDENT(ident) => tagged("Ident(", ident.as_str()),
            TT::STRING(s) => tagged("String(", s.as_str()),
            TT::NUMBER(s) => tagged("Number(", s.as_str()),
            TT::PIPE => String::from_str("|"),
        }
    }
}

} // verus!
