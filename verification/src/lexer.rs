//! The lexer: from source text to a sequence of tokens.

use vstd::prelude::*;
use vstd::slice::*;
use vstd::string::StringExecFns;
use vstd::string::StringSliceAdditionalSpecFns;
use crate::text::{bytes_of, is_digit, push_char};
use crate::tokens::{Keyword, Token, TT};

verus! {

/// An unrecognized character, and where in the source (counted in bytes)
/// it stands.
#[derive(Clone, Copy, Debug, PartialEq, Eq, Structural)]
pub struct LexError {
    pub at: usize,
    pub found: char,
}

impl LexError {
    /// The message that describes the error.
    pub open spec fn text(self) -> Seq<char> {
        "[Lexer] "@.push(self.found) + " Invalid char"@
    }

    /// The message that describes the error.
    pub fn describe(&self) -> (r: String)
        ensures
            r@ == self.text(),
    {
        let mut out = String::from_str("[Lexer] ");
        push_char(&mut out, self.found);
        out.append(" Invalid char");
        out
    }
}

/// Whether a byte is skipped between tokens: a space, a tab or a newline.
pub open spec fn is_space(b: u8) -> bool {
    b == 32 || b == 9 || b == 10
}

/// Whether a byte can stand in an identifier: an ASCII letter or an
/// underscore.
pub open spec fn is_word(b: u8) -> bool {
    (65 <= b <= 90) || b == 95 || (97 <= b <= 122)
}

/// The bytes from `from` up to `to`, each as a character.
pub open spec fn text_of(bytes: Seq<u8>, from: int, to: int) -> Seq<char> {
    Seq::new((to - from) as nat, |j: int| bytes[from + j] as char)
}

/// How many bytes from `i` on go on an identifier.
pub open spec fn word_run(bytes: Seq<u8>, i: int) -> nat
    decreases bytes.len() - i,
{
    if 0 <= i < bytes.len() && is_word(bytes[i]) {
        1 + word_run(bytes, i + 1)
    } else {
        0
    }
}

/// How many bytes from `i` on go on a number: digits, and one dot unless
/// the number has one already.
pub open spec fn number_run(bytes: Seq<u8>, i: int, dotted: bool) -> nat
    decreases bytes.len() - i,
{
    if i < 0 || i >= bytes.len() {
        0
    } else if bytes[i] == 46 {
        if dotted {
            0
        } else {
            1 + number_run(bytes, i + 1, true)
        }
    } else if is_digit(bytes[i]) {
        1 + number_run(bytes, i + 1, dotted)
    } else {
        0
    }
}

/// How many bytes from `i` on belong to a string whose opening quote
/// came before: up to and with the closing quote, or up to the end of the
/// source if there is none. `escape` says that the byte before was a
/// backslash that escapes the byte at `i`.
pub open spec fn string_run(bytes: Seq<u8>, i: int, escape: bool) -> nat
    decreases bytes.len() - i,
{
    if i < 0 || i >= bytes.len() {
        0
    } else if escape {
        1 + string_run(bytes, i + 1, false)
    } else if bytes[i] == 92 {
        1 + string_run(bytes, i + 1, true)
    } else if bytes[i] == 34 {
        1
    } else {
        1 + string_run(bytes, i + 1, false)
    }
}

/// The character that an escaped byte stands for: a newline for `n`, a
/// tab for `t`, the byte itself otherwise.
pub open spec fn unescaped(b: u8) -> char {
    if b == 110 {
        '\n'
    } else if b == 116 {
        '\t'
    } else {
        b as char
    }
}

/// The text of a string from byte `i` on: a backslash is dropped and the
/// byte after it is taken as it is (`n` and `t` as newline and tab), an
/// unescaped quote ends the string, and so does the end of the source.
pub open spec fn string_text(bytes: Seq<u8>, i: int, escape: bool) -> Seq<char>
    decreases bytes.len() - i,
{
    if i < 0 || i >= bytes.len() {
        Seq::empty()
    } else if escape {
        seq![unescaped(bytes[i])] + string_text(bytes, i + 1, false)
    } else if bytes[i] == 92 {
        string_text(bytes, i + 1, true)
    } else if bytes[i] == 34 {
        Seq::empty()
    } else {
        seq![bytes[i] as char] + string_text(bytes, i + 1, false)
    }
}

/// Whether the operator byte at `pos` is followed by `=`.
pub open spec fn doubled(bytes: Seq<u8>, pos: int) -> bool {
    pos + 1 < bytes.len() && bytes[pos + 1] == 61
}

/// The token that starts at `pos`; `None` if the byte there starts none.
pub open spec fn token_at(bytes: Seq<u8>, pos: int) -> Option<Token>
    recommends
        0 <= pos < bytes.len(),
{
    let b = bytes[pos];
    if b == 43 {
        Some(Token::Plus)
    } else if b == 45 {
        Some(Token::Minus)
    } else if b == 42 {
        Some(Token::Mul)
    } else if b == 47 {
        Some(Token::Div)
    } else if b == 61 {
        Some(if doubled(bytes, pos) { Token::EqEq } else { Token::Eq })
    } else if b == 62 {
        Some(if doubled(bytes, pos) { Token::Ge } else { Token::Gt })
    } else if b == 60 {
        Some(if doubled(bytes, pos) { Token::Le } else { Token::Lt })
    } else if b == 40 {
        Some(Token::LParen)
    } else if b == 41 {
        Some(Token::RParen)
    } else if b == 59 {
        Some(Token::Semi)
    } else if b == 44 {
        Some(Token::Comma)
    } else if b == 124 {
        Some(Token::Pipe)
    } else if b == 91 {
        Some(Token::LBracket)
    } else if b == 93 {
        Some(Token::RBracket)
    } else if b == 46 {
        Some(Token::Dot)
    } else if is_digit(b) {
        Some(Token::Number(text_of(bytes, pos, pos + 1 + number_run(bytes, pos + 1, false))))
    } else if b == 34 {
        Some(Token::Str(string_text(bytes, pos + 1, false)))
    } else if is_word(b) {
        let word = text_of(bytes, pos, pos + 1 + word_run(bytes, pos + 1));
        Some(
            match Keyword::lookup(word) {
                Some(k) => Token::Keyword(k),
                None => Token::Ident(word),
            },
        )
    } else {
        None
    }
}

/// How many bytes the token that starts at `pos` takes after its first.
pub open spec fn extra_bytes(bytes: Seq<u8>, pos: int) -> nat
    recommends
        0 <= pos < bytes.len(),
{
    let b = bytes[pos];
    if b == 61 || b == 62 || b == 60 {
        if doubled(bytes, pos) {
            1
        } else {
            0
        }
    } else if is_digit(b) {
        number_run(bytes, pos + 1, false)
    } else if b == 34 {
        string_run(bytes, pos + 1, false)
    } else if is_word(b) {
        word_run(bytes, pos + 1)
    } else {
        0
    }
}

/// The outcome of lexing: the tokens found, where lexing stopped, and the
/// unrecognized character that stopped it, if one did.
pub ghost struct Lexed {
    pub tokens: Seq<Token>,
    pub stop: int,
    pub error: Option<char>,
}

/// Lexes the bytes from `pos` on, after the tokens `acc`: whitespace is
/// skipped, each token takes the longest run of bytes it can, and the
/// first byte that starts no token stops the lexer.
pub open spec fn lex_from(bytes: Seq<u8>, pos: int, acc: Seq<Token>) -> Lexed
    decreases (if pos < bytes.len() { bytes.len() - pos } else { 0 }),
{
    if pos < 0 || pos >= bytes.len() {
        Lexed { tokens: acc, stop: pos, error: None }
    } else if is_space(bytes[pos]) {
        lex_from(bytes, pos + 1, acc)
    } else {
        match token_at(bytes, pos) {
            Some(t) => lex_from(bytes, pos + 1 + extra_bytes(bytes, pos), acc.push(t)),
            None => Lexed { tokens: acc, stop: pos, error: Some(bytes[pos] as char) },
        }
    }
}

/// The tokens of a source text, or the first unrecognized character.
pub open spec fn tokens_of(source: Seq<char>) -> Result<Seq<Token>, LexError> {
    let lexed = lex_from(bytes_of(source), 0, Seq::empty());
    match lexed.error {
        Some(c) => Err(LexError { at: lexed.stop as usize, found: c }),
        None => Ok(lexed.tokens),
    }
}

/// What a sequence of tokens stands for.
pub open spec fn tokens_view(v: Seq<TT>) -> Seq<Token> {
    Seq::new(v.len(), |i: int| v[i]@)
}

/// A deep copy of a list of tokens.
pub fn clone_tokens(v: &Vec<TT>) -> (r: Vec<TT>)
    ensures
        tokens_view(r@) == tokens_view(v@),
{
    let mut out: Vec<TT> = Vec::new();
    let mut i: usize = 0;
    while i < v.len()
        invariant
            i <= v.len(),
            out@.len() == i,
            forall|j: int| 0 <= j < i ==> out@[j]@ == v@[j]@,
        decreases v.len() - i,
    {
        out.push(v[i].clone());
        i += 1;
    }
    assert(tokens_view(out@) =~= tokens_view(v@));
    out
}

fn word_byte(b: u8) -> (r: bool)
    ensures
        r == is_word(b),
{
    (65 <= b && b <= 90) || b == 95 || (97 <= b && b <= 122)
}

proof fn string_text_step(bytes: Seq<u8>, i: int, escape: bool, acc: Seq<char>)
    requires
        0 <= i < bytes.len(),
    ensures
        escape ==> acc + string_text(bytes, i, escape) == acc.push(unescaped(bytes[i])) + string_text(
            bytes,
            i + 1,
            false,
        ),
        !escape && bytes[i] == 92 ==> acc + string_text(bytes, i, escape) == acc + string_text(
            bytes,
            i + 1,
            true,
        ),
        !escape && bytes[i] != 92 && bytes[i] == 34 ==> acc + string_text(bytes, i, escape) == acc,
        !escape && bytes[i] != 92 && bytes[i] != 34 ==> acc + string_text(bytes, i, escape) == acc.push(
            bytes[i] as char,
        ) + string_text(bytes, i + 1, false),
{
    if escape {
        assert(acc + (seq![unescaped(bytes[i])] + string_text(bytes, i + 1, false)) =~= acc.push(
            unescaped(bytes[i]),
        ) + string_text(bytes, i + 1, false));
    } else if bytes[i] == 92 {
    } else if bytes[i] == 34 {
        assert(acc + Seq::<char>::empty() =~= acc);
    } else {
        assert(acc + (seq![bytes[i] as char] + string_text(bytes, i + 1, false)) =~= acc.push(
            bytes[i] as char,
        ) + string_text(bytes, i + 1, false));
    }
}

/// The lexer: the source text, the tokens found so far, and the position
/// (in bytes) up to which the source has been read.
pub struct Lexer {
    text: String,
    tokens: Vec<TT>,
    cur_idx: usize,
}

impl Lexer {
    /// The source text.
    pub closed spec fn source(&self) -> Seq<char> {
        self.text@
    }

    /// The tokens found so far.
    pub closed spec fn found(&self) -> Seq<Token> {
        tokens_view(self.tokens@)
    }

    /// The position, in bytes, up to which the source has been read.
    pub closed spec fn position(&self) -> int {
        self.cur_idx as int
    }

    /// A lexer at the start of `text`, with no token found yet.
    pub fn new(text: String) -> (r: Lexer)
        ensures
            r.source() == text@,
            r.found() == Seq::<Token>::empty(),
            r.position() == 0,
    {
        let tokens: Vec<TT> = Vec::new();
        assert(tokens_view(tokens@) =~= Seq::<Token>::empty());
        Lexer { text: text, tokens: tokens, cur_idx: 0 }
    }

    /// A copy of the tokens found so far.
    pub fn get_tokens(&self) -> (r: Vec<TT>)
        ensures
            tokens_view(r@) == self.found(),
    {
        clone_tokens(&self.tokens)
    }

    /// Lexes the rest of the source. On success the result is every token
    /// found, those of earlier calls first. On an unrecognized character
    /// the lexer stops there and keeps the tokens found before it.
    pub fn parse(&mut self) -> (r: Result<Vec<TT>, LexError>)
        ensures
            final(self).source() == old(self).source(),
            final(self).found() == lex_from(
                bytes_of(old(self).source()),
                old(self).position(),
                old(self).found(),
            ).tokens,
            final(self).position() == lex_from(
                bytes_of(old(self).source()),
                old(self).position(),
                old(self).found(),
            ).stop,
            match r {
                Ok(tokens) => lex_from(bytes_of(old(self).source()), old(self).position(), old(self).found()).error
                    is None && tokens_view(tokens@) == final(self).found(),
                Err(e) => lex_from(bytes_of(old(self).source()), old(self).position(), old(self).found()).error
                    == Some(e.found) && e.at == final(self).position(),
            },
    {
        let bytes = self.text.as_str().as_bytes();
        let n = bytes.len();
        let ghost goal = lex_from(bytes@, self.cur_idx as int, tokens_view(self.tokens@));
        let mut pos = self.cur_idx;
        let mut tokens: Vec<TT> = Vec::new();
        core::mem::swap(&mut tokens, &mut self.tokens);
        let mut bad: Option<char> = None;
        while pos < n
            invariant_except_break
                bad is None,
            invariant
                n == bytes@.len(),
                bytes@ == bytes_of(self.text@),
                goal == lex_from(bytes@, pos as int, tokens_view(tokens@)),
            ensures
                match bad {
                    Some(c) => goal == (Lexed { tokens: tokens_view(tokens@), stop: pos as int, error: Some(c) }),
                    None => goal == (Lexed { tokens: tokens_view(tokens@), stop: pos as int, error: None }),
                },
            decreases n - pos,
        {
            let b = bytes[pos];
            if b == 32 || b == 9 || b == 10 {
                pos = pos + 1;
            } else {
                match Lexer::scan(bytes, pos) {
                    Some((tok, next)) => {
                        let ghost before = tokens_view(tokens@);
                        tokens.push(tok);
                        assert(tokens_view(tokens@) =~= before.push(tok@));
                        pos = next;
                    },
                    None => {
                        bad = Some(b as char);
                        break ;
                    },
                }
            }
        }
        self.cur_idx = pos;
        let copy = clone_tokens(&tokens);
        self.tokens = tokens;
        match bad {
            Some(c) => Err(LexError { at: pos, found: c }),
            None => Ok(copy),
        }
    }

    /// The token that starts at `pos` and the position after it; `None`
    /// if the byte at `pos` starts none.
    fn scan(bytes: &[u8], pos: usize) -> (r: Option<(TT, usize)>)
        requires
            pos < bytes@.len(),
            !is_space(bytes@[pos as int]),
        ensures
            match r {
                Some((tok, next)) => token_at(bytes@, pos as int) == Some(tok@) && next == pos + 1
                    + extra_bytes(bytes@, pos as int) && next <= bytes@.len(),
                None => token_at(bytes@, pos as int) is None,
            },
    {
        let b = bytes[pos];
        if b == 43 {
            Some((TT::PLUS, pos + 1))
        } else if b == 45 {
            Some((TT::MINUS, pos + 1))
        } else if b == 42 {
            Some((TT::MUL, pos + 1))
        } else if b == 47 {
            Some((TT::DIV, pos + 1))
        } else if b == 61 || b == 62 || b == 60 {
            Some(Lexer::build_comp(bytes, pos))
        } else if b == 40 {
            Some((TT::LPAREN, pos + 1))
        } else if b == 41 {
            Some((TT::RPAREN, pos + 1))
        } else if b == 59 {
            Some((TT::SEMI, pos + 1))
        } else if b == 44 {
            Some((TT::COMMA, pos + 1))
        } else if b == 124 {
            Some((TT::PIPE, pos + 1))
        } else if b == 91 {
            Some((TT::LBRACKET, pos + 1))
        } else if b == 93 {
            Some((TT::RBRACKET, pos + 1))
        } else if b == 46 {
            Some((TT::DOT, pos + 1))
        } else if 48 <= b && b <= 57 {
            Some(Lexer::build_number(bytes, pos))
        } else if b == 34 {
            Some(Lexer::build_string(bytes, pos))
        } else if word_byte(b) {
            let (word, next) = Lexer::build_ident_string(bytes, pos);
            match Keyword::is_keyword(word.as_str()) {
                Some(kwd) => Some((TT::KEYWORD(kwd), next)),
                None => Some((TT::IDENT(word), next)),
            }
        } else {
            None
        }
    }

    /// An operator that starts with `=`, `>` or `<`: the two-character
    /// operator if `=` follows, the bare one otherwise.
    fn build_comp(bytes: &[u8], pos: usize) -> (r: (TT, usize))
        requires
            pos < bytes@.len(),
            bytes@[pos as int] == 61 || bytes@[pos as int] == 62 || bytes@[pos as int] == 60,
        ensures
            token_at(bytes@, pos as int) == Some(r.0@),
            r.1 == pos + 1 + extra_bytes(bytes@, pos as int),
            r.1 <= bytes@.len(),
    {
        let b = bytes[pos];
        if pos + 1 < bytes.len() && bytes[pos + 1] == 61 {
            if b == 61 {
                (TT::EQEQ, pos + 2)
            } else if b == 62 {
                (TT::GE, pos + 2)
            } else {
                (TT::LE, pos + 2)
            }
        } else {
            if b == 61 {
                (TT::EQ, pos + 1)
            } else if b == 62 {
                (TT::GT, pos + 1)
            } else {
                (TT::LT, pos + 1)
            }
        }
    }

    /// The longest run of identifier characters from `pos` on.
    fn build_ident_string(bytes: &[u8], pos: usize) -> (r: (String, usize))
        requires
            pos < bytes@.len(),
            is_word(bytes@[pos as int]),
        ensures
            r.0@ == text_of(bytes@, pos as int, pos + 1 + word_run(bytes@, pos + 1)),
            r.1 == pos + 1 + word_run(bytes@, pos + 1),
            r.1 <= bytes@.len(),
    {
        let n = bytes.len();
        let mut ident = String::new();
        push_char(&mut ident, bytes[pos] as char);
        assert(ident@ =~= text_of(bytes@, pos as int, pos + 1));
        let mut i: usize = pos + 1;
        while i < bytes.len() && word_byte(bytes[i])
            invariant
                pos < i <= bytes@.len(),
                ident@ == text_of(bytes@, pos as int, i as int),
                word_run(bytes@, pos + 1) == (i - (pos + 1)) + word_run(bytes@, i as int),
            decreases bytes@.len() - i,
        {
            push_char(&mut ident, bytes[i] as char);
            assert(ident@ =~= text_of(bytes@, pos as int, i + 1));
            i += 1;
        }
        (ident, i)
    }

    /// A string: the characters after the opening quote at `pos`, up to
    /// the closing quote or the end of the source.
    fn build_string(bytes: &[u8], pos: usize) -> (r: (TT, usize))
        requires
            pos < bytes@.len(),
            bytes@[pos as int] == 34,
        ensures
            r.0@ == Token::Str(string_text(bytes@, pos + 1, false)),
            r.1 == pos + 1 + string_run(bytes@, pos + 1, false),
            r.1 <= bytes@.len(),
    {
        let n = bytes.len();
        let mut string = String::new();
        let mut escape = false;
        let mut i: usize = pos + 1;
        let mut closed = false;
        assert(string@ + string_text(bytes@, pos + 1, false) =~= string_text(bytes@, pos + 1, false));
        while i < bytes.len() && !closed
            invariant
                pos < i <= bytes@.len(),
                !closed ==> string@ + string_text(bytes@, i as int, escape) == string_text(
                    bytes@,
                    pos + 1,
                    false,
                ),
                !closed ==> string_run(bytes@, pos + 1, false) == (i - (pos + 1)) + string_run(
                    bytes@,
                    i as int,
                    escape,
                ),
                closed ==> string@ == string_text(bytes@, pos + 1, false),
                closed ==> string_run(bytes@, pos + 1, false) == i - (pos + 1),
            decreases bytes@.len() - i, if closed { 0int } else { 1int },
        {
            let b = bytes[i];
            proof {
                string_text_step(bytes@, i as int, escape, string@);
            }
            if escape {
                escape = false;
                let c = if b == 110 {
                    '\n'
                } else if b == 116 {
                    '\t'
                } else {
                    b as char
                };
                push_char(&mut string, c);
            } else if b == 92 {
                escape = true;
            } else if b == 34 {
                closed = true;
            } else {
                push_char(&mut string, b as char);
            }
            i += 1;
        }
        assert(!closed ==> string@ + Seq::<char>::empty() =~= string@);
        (TT::STRING(string), i)
    }

    /// A number: the digits from `pos` on, with at most one dot.
    fn build_number(bytes: &[u8], pos: usize) -> (r: (TT, usize))
        requires
            pos < bytes@.len(),
            is_digit(bytes@[pos as int]),
        ensures
            r.0@ == Token::Number(text_of(bytes@, pos as int, pos + 1 + number_run(bytes@, pos + 1, false))),
            r.1 == pos + 1 + number_run(bytes@, pos + 1, false),
            r.1 <= bytes@.len(),
    {
        let n = bytes.len();
        let mut number = String::new();
        push_char(&mut number, bytes[pos] as char);
        assert(number@ =~= text_of(bytes@, pos as int, pos + 1));
        let mut is_float = false;
        let mut i: usize = pos + 1;
        while i < bytes.len()
            invariant
                pos < i <= bytes@.len(),
                number@ == text_of(bytes@, pos as int, i as int),
                number_run(bytes@, pos + 1, false) == (i - (pos + 1)) + number_run(bytes@, i as int, is_float),
            ensures
                pos < i <= bytes@.len(),
                number@ == text_of(bytes@, pos as int, i as int),
                number_run(bytes@, pos + 1, false) == i - (pos + 1),
            decreases bytes@.len() - i,
        {
            let b = bytes[i];
            if b == 46 {
                if !is_float {
                    is_float = true;
                } else {
                    break ;
                }
            } else if b < 48 || b > 57 {
                break ;
            }
            push_char(&mut number, b as char);
            assert(number@ =~= text_of(bytes@, pos as int, i + 1));
            i += 1;
        }
        (TT::NUMBER(number), i)
    }
}

/// The tokens of a source text, or the first character that starts no
/// token.
pub fn tokenize(text: String) -> (r: Result<Vec<TT>, LexError>)
    ensures
        match r {
            Ok(tokens) => tokens_of(text@) == Ok::<Seq<Token>, LexError>(tokens_view(tokens@)),
            Err(e) => tokens_of(text@) == Err::<Seq<Token>, LexError>(e),
        },
{
    let mut lexer = Lexer::new(text);
    lexer.parse()
}

} // verus!
