//! A lexical scanner for a tiny boolean-expression language.
//!
//! The alphabet is exactly the eight characters `(`, `)`, `&`, `|`, `!`,
//! `t`, `f` and `,`. Every token is one character wide, so the scanner is a
//! cursor over the input that classifies the character under it and then
//! advances by one. Exhaustion is signalled by the repeatable `EOF` token;
//! a character outside the alphabet is a fatal condition, surfaced to the
//! caller as a [`LexError`] naming the character and its position.

use vstd::prelude::*;
use vstd::string::StrSliceExecFns;

verus! {

/// The closed token vocabulary. Tokens carry no payload: every token of the
/// grammar is exactly one character wide, so the kind alone identifies it.
///
/// `ILLEGAL` models the classification of an out-of-alphabet character. It is
/// never handed to a caller: [`Lexer::next_token`] excludes such inputs by
/// contract, and [`Lexer::try_next_token`] reports them as a [`LexError`].
#[derive(Clone, Copy, Debug, PartialEq, Eq, Structural)]
pub enum Token {
    ILLEGAL,
    EOF,
    TRUE,
    FALSE,
    NOT,
    OR,
    AND,
    LPAREN,
    RPAREN,
    COMMA,
}

/// Whether `c` is one of the eight characters the grammar recognizes.
pub open spec fn in_alphabet(c: char) -> bool {
    ||| c == 't'
    ||| c == 'f'
    ||| c == '!'
    ||| c == '|'
    ||| c == '&'
    ||| c == '('
    ||| c == ')'
    ||| c == ','
}

/// The classification of a single input character. Characters outside the
/// alphabet classify as `ILLEGAL`; no character classifies as `EOF`, which
/// stands only for the past-end-of-input sentinel.
pub open spec fn token_of(c: char) -> Token {
    if c == 't' {
        Token::TRUE
    } else if c == 'f' {
        Token::FALSE
    } else if c == '!' {
        Token::NOT
    } else if c == '|' {
        Token::OR
    } else if c == '&' {
        Token::AND
    } else if c == '(' {
        Token::LPAREN
    } else if c == ')' {
        Token::RPAREN
    } else if c == ',' {
        Token::COMMA
    } else {
        Token::ILLEGAL
    }
}

/// The token that the `k`-th production call over `input` classifies:
/// the classification of `input[k]` while `k` is inside the input, and
/// `EOF` from the first position past it, indefinitely.
pub open spec fn nth_token(input: Seq<char>, k: int) -> Token {
    if 0 <= k < input.len() {
        token_of(input[k])
    } else {
        Token::EOF
    }
}

/// The stable uppercase display name of each token variant.
pub open spec fn display_of(t: Token) -> Seq<char> {
    match t {
        Token::ILLEGAL => "ILLEGAL"@,
        Token::EOF => "EOF"@,
        Token::TRUE => "TRUE"@,
        Token::FALSE => "FALSE"@,
        Token::NOT => "NOT"@,
        Token::OR => "OR"@,
        Token::AND => "AND"@,
        Token::LPAREN => "LPAREN"@,
        Token::RPAREN => "RPAREN"@,
        Token::COMMA => "COMMA"@,
    }
}

impl Token {
    /// The human-readable name of the token, rendered in uppercase.
    pub fn name(&self) -> (r: &'static str)
        ensures
            r@ == display_of(*self),
    {
        match self {
            Token::ILLEGAL => "ILLEGAL",
            Token::EOF => "EOF",
            Token::TRUE => "TRUE",
            Token::FALSE => "FALSE",
            Token::NOT => "NOT",
            Token::OR => "OR",
            Token::AND => "AND",
            Token::LPAREN => "LPAREN",
            Token::RPAREN => "RPAREN",
            Token::COMMA => "COMMA",
        }
    }
}

/// The fatal condition: the character outside the alphabet and its zero-based
/// position in the input.
#[derive(Clone, Copy, Debug, PartialEq, Eq, Structural)]
pub struct LexError {
    pub ch: char,
    pub position: usize,
}

/// The scanner: a read cursor over a borrowed input character sequence.
///
/// `position` is the zero-based offset of the character currently under
/// examination and `ch` that character itself, with `'\0'` standing in as the
/// past-end-of-input sentinel once the cursor has moved past the last
/// character. `read_position` is the offset of the next character to load.
pub struct Lexer<'a> {
    pub input: &'a str,
    pub position: usize,
    pub read_position: usize,
    pub ch: char,
}

impl<'a> Lexer<'a> {
    /// The cursor invariant: the offset never passes one position beyond the
    /// last character, the character slot mirrors the input at the offset (or
    /// holds the sentinel past the end), and the reading offset trails the
    /// cursor by exactly one character until the input is exhausted.
    pub open spec fn wf(self) -> bool {
        &&& self.position <= self.input@.len()
        &&& (self.position < self.input@.len() ==> {
            &&& self.ch == self.input@[self.position as int]
            &&& self.read_position == self.position + 1
        })
        &&& (self.position == self.input@.len() ==> {
            &&& self.ch == '\0'
            &&& self.read_position == self.position
        })
    }

    /// Creates a scanner over `input` with the cursor at position 0 and the
    /// first character (or, for an empty input, the end-of-input sentinel)
    /// already loaded. Construction cannot fail.
    pub fn new(input: &'a str) -> (lex: Lexer<'a>)
        ensures
            lex.wf(),
            lex.input@ == input@,
            lex.position == 0,
    {
        let mut lex = Lexer { input, position: 0, read_position: 0, ch: '\0' };
        lex.read_char();
        lex
    }

    /// Advances the cursor by one character: loads the character at the
    /// reading offset, or the end-of-input sentinel once the input is
    /// exhausted. Advancing past an already-exhausted input is a no-op that
    /// re-loads the sentinel, so the offset never grows past the input's
    /// length and can never overflow.
    pub fn read_char(&mut self)
        requires
            old(self).read_position <= old(self).input@.len(),
        ensures
            final(self).input == old(self).input,
            final(self).wf(),
            old(self).read_position < old(self).input@.len() ==> {
                &&& final(self).position == old(self).read_position
                &&& final(self).read_position == old(self).read_position + 1
                &&& final(self).ch == old(self).input@[old(self).read_position as int]
            },
            old(self).read_position == old(self).input@.len() ==> {
                &&& final(self).position == old(self).input@.len()
                &&& final(self).read_position == old(self).input@.len()
                &&& final(self).ch == '\0'
            },
    {
        let len: usize = self.input.unicode_len();
        if self.read_position < len {
            self.ch = self.input.get_char(self.read_position);
            self.position = self.read_position;
            self.read_position = self.read_position + 1;
        } else {
            self.ch = '\0';
            self.position = len;
            self.read_position = len;
        }
    }

    /// Produces the next token: classifies the character under the cursor,
    /// then advances the cursor by exactly one character. Once the input is
    /// exhausted every further call produces `EOF` again.
    ///
    /// A character outside the alphabet is a fatal condition, not a token,
    /// so such inputs are excluded here by contract; a caller that cannot
    /// rule them out uses [`Lexer::try_next_token`] instead.
    pub fn next_token(&mut self) -> (tok: Token)
        requires
            old(self).wf(),
            old(self).position < old(self).input@.len() ==> in_alphabet(
                old(self).input@[old(self).position as int],
            ),
        ensures
            final(self).wf(),
            final(self).input == old(self).input,
            tok == nth_token(old(self).input@, old(self).position as int),
            tok != Token::ILLEGAL,
            old(self).position < old(self).input@.len() ==> final(self).position == old(
                self,
            ).position + 1,
            old(self).position == old(self).input@.len() ==> *final(self) == *old(self),
    {
        let len: usize = self.input.unicode_len();
        let tok: Token = if self.position >= len {
            Token::EOF
        } else {
            match self.ch {
                't' => Token::TRUE,
                'f' => Token::FALSE,
                '!' => Token::NOT,
                '|' => Token::OR,
                '&' => Token::AND,
                '(' => Token::LPAREN,
                ')' => Token::RPAREN,
                ',' => Token::COMMA,
                _ => Token::ILLEGAL,
            }
        };
        self.read_char();
        tok
    }

    /// Produces the next token, or reports the fatal condition as a value:
    /// when the character under the cursor is outside the alphabet the call
    /// returns the character and its zero-based position, and the cursor does
    /// not move. Otherwise it behaves exactly as [`Lexer::next_token`]. The
    /// caller decides whether to abort on the error, keeping the
    /// malformed-input-is-fatal policy at the call site.
    pub fn try_next_token(&mut self) -> (r: Result<Token, LexError>)
        requires
            old(self).wf(),
        ensures
            final(self).wf(),
            final(self).input == old(self).input,
            (match r {
                Ok(tok) => {
                    &&& tok == nth_token(old(self).input@, old(self).position as int)
                    &&& tok != Token::ILLEGAL
                    &&& (old(self).position < old(self).input@.len() ==> {
                        &&& in_alphabet(old(self).input@[old(self).position as int])
                        &&& final(self).position == old(self).position + 1
                    })
                    &&& (old(self).position == old(self).input@.len() ==> *final(self) == *old(
                        self,
                    ))
                },
                Err(e) => {
                    &&& old(self).position < old(self).input@.len()
                    &&& !in_alphabet(old(self).input@[old(self).position as int])
                    &&& e.ch == old(self).input@[old(self).position as int]
                    &&& e.position == old(self).position
                    &&& *final(self) == *old(self)
                },
            }),
    {
        let len: usize = self.input.unicode_len();
        if self.position < len {
            let legal: bool = match self.ch {
                't' | 'f' | '!' | '|' | '&' | '(' | ')' | ',' => true,
                _ => false,
            };
            if !legal {
                return Err(LexError { ch: self.ch, position: self.position });
            }
        }
        Ok(self.next_token())
    }
}

/// One character, one token: over an input made only of alphabet characters,
/// every position of the input classifies as a real token — never `EOF` and
/// never `ILLEGAL` — and every position past the input classifies as `EOF`.
/// Hence the number of tokens produced before `EOF` equals the number of
/// characters in the input.
pub proof fn lemma_one_char_one_token(input: Seq<char>)
    requires
        forall|i: int| 0 <= i < input.len() ==> in_alphabet(#[trigger] input[i]),
    ensures
        forall|k: int|
            0 <= k < input.len() ==> #[trigger] nth_token(input, k) != Token::EOF && nth_token(
                input,
                k,
            ) != Token::ILLEGAL,
        forall|k: int| k >= input.len() ==> #[trigger] nth_token(input, k) == Token::EOF,
{
}

/// Idempotent exhaustion: once a production call classifies as `EOF`, every
/// later call does too, since no input character classifies as `EOF`.
pub proof fn lemma_idempotent_exhaustion(input: Seq<char>, k: int)
    requires
        0 <= k,
        nth_token(input, k) == Token::EOF,
    ensures
        forall|j: int| j >= k ==> #[trigger] nth_token(input, j) == Token::EOF,
{
}

/// Bijective mapping: each alphabet character classifies exactly as the
/// grammar's table says, its token's display name included; no two distinct
/// alphabet characters share a token, and no alphabet character classifies
/// as `ILLEGAL`.
pub proof fn lemma_bijective_mapping()
    ensures
        token_of('t') == Token::TRUE && display_of(token_of('t')) == "TRUE"@,
        token_of('f') == Token::FALSE && display_of(token_of('f')) == "FALSE"@,
        token_of('!') == Token::NOT && display_of(token_of('!')) == "NOT"@,
        token_of('|') == Token::OR && display_of(token_of('|')) == "OR"@,
        token_of('&') == Token::AND && display_of(token_of('&')) == "AND"@,
        token_of('(') == Token::LPAREN && display_of(token_of('(')) == "LPAREN"@,
        token_of(')') == Token::RPAREN && display_of(token_of(')')) == "RPAREN"@,
        token_of(',') == Token::COMMA && display_of(token_of(',')) == "COMMA"@,
        forall|c1: char, c2: char|
            in_alphabet(c1) && in_alphabet(c2) && c1 != c2 ==> #[trigger] token_of(c1)
                != #[trigger] token_of(c2),
        forall|c: char| in_alphabet(c) ==> #[trigger] token_of(c) != Token::ILLEGAL,
{
}

} // verus!
