use ravlang::lexer::{LexError, Lexer};
use ravlang::tokens::{Keyword, TT};

fn lex(source: &str) -> Result<Vec<TT>, LexError> {
    Lexer::new(source.to_string()).parse()
}

fn ident(name: &str) -> TT {
    TT::IDENT(name.to_string())
}

fn number(text: &str) -> TT {
    TT::NUMBER(text.to_string())
}

fn string(text: &str) -> TT {
    TT::STRING(text.to_string())
}

#[test]
fn single_character_tokens() {
    assert_eq!(
        lex("+-*/()[];,|.").unwrap(),
        vec![
            TT::PLUS,
            TT::MINUS,
            TT::MUL,
            TT::DIV,
            TT::LPAREN,
            TT::RPAREN,
            TT::LBRACKET,
            TT::RBRACKET,
            TT::SEMI,
            TT::COMMA,
            TT::PIPE,
            TT::DOT
        ]
    );
}

#[test]
fn comparison_lookahead_merges_equals() {
    assert_eq!(lex("= == > >= < <=").unwrap(), vec![TT::EQ, TT::EQEQ, TT::GT, TT::GE, TT::LT, TT::LE]);
}

#[test]
fn comparison_at_end_of_input_is_bare() {
    assert_eq!(lex("a<").unwrap(), vec![ident("a"), TT::LT]);
    assert_eq!(lex("=").unwrap(), vec![TT::EQ]);
}

#[test]
fn comparison_does_not_consume_the_peeked_character() {
    assert_eq!(lex(">1").unwrap(), vec![TT::GT, number("1")]);
    assert_eq!(lex("===").unwrap(), vec![TT::EQEQ, TT::EQ]);
}

#[test]
fn numbers_take_digits_and_one_dot() {
    assert_eq!(lex("42").unwrap(), vec![number("42")]);
    assert_eq!(lex("3.5").unwrap(), vec![number("3.5")]);
    assert_eq!(lex("1.").unwrap(), vec![number("1.")]);
}

#[test]
fn second_dot_ends_the_number() {
    assert_eq!(lex("1.2.3").unwrap(), vec![number("1.2"), TT::DOT, number("3")]);
}

#[test]
fn numbers_have_no_sign_and_no_exponent() {
    assert_eq!(lex("-7").unwrap(), vec![TT::MINUS, number("7")]);
    assert_eq!(lex("1e5").unwrap(), vec![number("1"), ident("e"), number("5")]);
}

#[test]
fn strings_support_newline_and_tab_escapes() {
    assert_eq!(lex("\"a\\nb\\tc\"").unwrap(), vec![string("a\nb\tc")]);
}

#[test]
fn unknown_escapes_pass_the_character_through() {
    assert_eq!(lex("\"a\\qb\"").unwrap(), vec![string("aqb")]);
    assert_eq!(lex("\"say \\\"hi\\\"\"").unwrap(), vec![string("say \"hi\"")]);
}

#[test]
fn an_escaped_backslash_is_a_backslash() {
    assert_eq!(lex("\"a\\\\b\"").unwrap(), vec![string("a\\b")]);
    assert_eq!(lex("\"a\\\\nb\"").unwrap(), vec![string("a\\nb")]);
    assert_eq!(lex("\"a\\\\\" 1").unwrap(), vec![string("a\\"), number("1")]);
}

#[test]
fn a_backslash_at_the_end_is_dropped() {
    assert_eq!(lex("\"a\\").unwrap(), vec![string("a")]);
}

#[test]
fn unterminated_strings_run_to_the_end() {
    assert_eq!(lex("\"abc").unwrap(), vec![string("abc")]);
    assert_eq!(lex("x \"").unwrap(), vec![ident("x"), string("")]);
}

#[test]
fn tokens_after_a_string_are_found() {
    assert_eq!(lex("\"a\"+\"b\"").unwrap(), vec![string("a"), TT::PLUS, string("b")]);
}

#[test]
fn identifiers_are_letters_and_underscores() {
    assert_eq!(lex("foo_Bar").unwrap(), vec![ident("foo_Bar")]);
    assert_eq!(lex("a1").unwrap(), vec![ident("a"), number("1")]);
}

#[test]
fn keywords_are_recognized() {
    assert_eq!(
        lex("var while end struct if then fi code edoc rav do else").unwrap(),
        vec![
            TT::KEYWORD(Keyword::Var),
            TT::KEYWORD(Keyword::While),
            TT::KEYWORD(Keyword::End),
            TT::KEYWORD(Keyword::Struct),
            TT::KEYWORD(Keyword::If),
            TT::KEYWORD(Keyword::Then),
            TT::KEYWORD(Keyword::Fi),
            TT::KEYWORD(Keyword::Code),
            TT::KEYWORD(Keyword::Edoc),
            TT::KEYWORD(Keyword::Rav),
            TT::KEYWORD(Keyword::Do),
            TT::KEYWORD(Keyword::Else)
        ]
    );
}

#[test]
fn a_keyword_inside_a_longer_word_is_an_identifier() {
    assert_eq!(lex("variable iff").unwrap(), vec![ident("variable"), ident("iff")]);
}

#[test]
fn whitespace_is_skipped() {
    assert_eq!(lex(" \t\n1 \n\t 2\n").unwrap(), vec![number("1"), number("2")]);
    assert_eq!(lex("   ").unwrap(), vec![]);
    assert_eq!(lex("").unwrap(), vec![]);
}

#[test]
fn an_unrecognized_character_stops_the_lexer() {
    assert_eq!(lex("1 + #"), Err(LexError { at: 4, found: '#' }));
    assert_eq!(lex("a\rb"), Err(LexError { at: 1, found: '\r' }));
    assert_eq!(lex("?"), Err(LexError { at: 0, found: '?' }));
}

#[test]
fn the_lexer_keeps_the_tokens_before_an_error() {
    let mut lexer = Lexer::new("x = @".to_string());
    assert!(lexer.parse().is_err());
    assert_eq!(lexer.get_tokens(), vec![ident("x"), TT::EQ]);
}

#[test]
fn get_tokens_gives_what_parse_gave() {
    let mut lexer = Lexer::new("var x = 1".to_string());
    assert_eq!(lexer.get_tokens(), vec![]);
    let tokens = lexer.parse().unwrap();
    assert_eq!(tokens, vec![TT::KEYWORD(Keyword::Var), ident("x"), TT::EQ, number("1")]);
    assert_eq!(lexer.get_tokens(), tokens);
}

#[test]
fn lexing_again_finds_nothing_new() {
    let mut lexer = Lexer::new("1+2".to_string());
    let first = lexer.parse().unwrap();
    let second = lexer.parse().unwrap();
    assert_eq!(first, second);
}

#[test]
fn keyword_spelling_round_trip() {
    let all = [
        Keyword::Var,
        Keyword::While,
        Keyword::End,
        Keyword::Struct,
        Keyword::If,
        Keyword::Then,
        Keyword::Fi,
        Keyword::Code,
        Keyword::Edoc,
        Keyword::Rav,
        Keyword::Do,
        Keyword::Else,
    ];
    for k in all {
        assert_eq!(Keyword::is_keyword(k.as_str()), Some(k));
    }
    assert_eq!(Keyword::End.as_str(), "end");
    assert_eq!(Keyword::Struct.as_str(), "struct");
    assert_eq!(Keyword::is_keyword("done"), None);
    assert_eq!(Keyword::is_keyword("Var"), None);
    assert_eq!(Keyword::is_keyword(""), None);
}

#[test]
fn token_display_forms() {
    assert_eq!(TT::DOT.to_string(), ".");
    assert_eq!(TT::PLUS.to_string(), "+");
    assert_eq!(TT::MINUS.to_string(), "-");
    assert_eq!(TT::MUL.to_string(), "*");
    assert_eq!(TT::DIV.to_string(), "/");
    assert_eq!(TT::LPAREN.to_string(), "(");
    assert_eq!(TT::RPAREN.to_string(), ")");
    assert_eq!(TT::LBRACKET.to_string(), "[");
    assert_eq!(TT::RBRACKET.to_string(), "]");
    assert_eq!(TT::SEMI.to_string(), ";");
    assert_eq!(TT::EQ.to_string(), "=");
    assert_eq!(TT::GT.to_string(), ">");
    assert_eq!(TT::LT.to_string(), "<");
    assert_eq!(TT::GE.to_string(), ">=");
    assert_eq!(TT::LE.to_string(), "<=");
    assert_eq!(TT::EQEQ.to_string(), "==");
    assert_eq!(TT::COMMA.to_string(), ",");
    assert_eq!(TT::PIPE.to_string(), "|");
    assert_eq!(TT::KEYWORD(Keyword::While).to_string(), "Keyword(while)");
    assert_eq!(ident("abc").to_string(), "Ident(abc)");
    assert_eq!(string("a b").to_string(), "String(a b)");
    assert_eq!(number("1.5").to_string(), "Number(1.5)");
}

#[test]
fn bytes_beyond_ascii_are_taken_one_by_one() {
    assert_eq!(lex("\"é\"").unwrap(), vec![string("Ã©")]);
    assert_eq!(lex("é"), Err(LexError { at: 0, found: 'Ã' }));
}

#[test]
fn tokenize_is_a_fresh_lexer() {
    assert_eq!(ravlang::lexer::tokenize("a+1".to_string()).unwrap(), vec![ident("a"), TT::PLUS, number("1")]);
    assert_eq!(ravlang::lexer::tokenize("a $".to_string()), Err(LexError { at: 2, found: '$' }));
}

#[test]
fn lex_errors_describe_themselves() {
    assert_eq!(LexError { at: 3, found: '#' }.describe(), "[Lexer] # Invalid char");
}

#[test]
fn lexing_again_after_an_error_stops_at_the_same_character() {
    let mut lexer = Lexer::new("1 ~ 2".to_string());
    assert_eq!(lexer.parse(), Err(LexError { at: 2, found: '~' }));
    assert_eq!(lexer.parse(), Err(LexError { at: 2, found: '~' }));
    assert_eq!(lexer.get_tokens(), vec![number("1")]);
}
