//! Recursive-descent parser over a token stream.
//!
//! The parser keeps the token list, a cursor, and the warnings collected so far.
//! Every parsing method leaves the token list unchanged and only moves the cursor
//! forward; where a method's outcome is stated exactly, it is stated over the token
//! sequence (`toks`) and the cursor (`position`) through spec functions.
use vstd::prelude::*;
use crate::error::{ParserError, SourceLocation};
use crate::text::{ascii_lower, ascii_lowercase_chars, str_equals_chars, string_from_chars};
use crate::token::{is_reserved, keyword_text, same_token, token_debug, token_debug_text, Keyword, Token, TokenWithSpan};

pub mod alter;
pub mod alter_index;
pub mod alter_table;
pub mod create;
pub mod create_type;
pub mod ddl;
pub mod dml;
pub mod expr;
pub mod index;
pub mod insert;
pub mod schema;
pub mod objects;
pub mod options;
pub mod table;

verus! {

/// The token at index `i`, or `Eof` past the end.
pub open spec fn tok_at(toks: Seq<Token>, i: int) -> Token {
    if 0 <= i < toks.len() {
        toks[i]
    } else {
        Token::Eof
    }
}

/// The keyword at index `i`, if that token is a keyword.
pub open spec fn keyword_at(toks: Seq<Token>, i: int) -> Option<Keyword> {
    match tok_at(toks, i) {
        Token::Keyword(k) => Some(k),
        _ => None,
    }
}

/// The text an identifier token stands for: plain and quoted identifiers as written,
/// a non-reserved keyword as its lower-case spelling.
pub open spec fn ident_text(t: Token) -> Option<Seq<char>> {
    match t {
        Token::Ident(s) => Some(s@),
        Token::QuotedIdent(s) => Some(s@),
        Token::Keyword(k) => if is_reserved(k) { None } else { Some(ascii_lower(keyword_text(k))) },
        _ => None,
    }
}

/// Whether the token at `i` is a plain identifier equal to `word`, ignoring ASCII case.
pub open spec fn ident_word_at(toks: Seq<Token>, i: int, word: Seq<char>) -> bool {
    match tok_at(toks, i) {
        Token::Ident(s) => ascii_lower(s@) == ascii_lower(word),
        _ => false,
    }
}

/// Outcome of parsing from a position: a value and the position after it, or the
/// position of the offending token and what was expected there.
pub type Outcome<T> = Result<(T, int), (int, Seq<char>)>;

/// The segments of an object name continuing at `i` (each `. ident` adds one).
pub open spec fn name_tail(toks: Seq<Token>, i: int, acc: Seq<Seq<char>>) -> Outcome<Seq<Seq<char>>>
    decreases toks.len() - i,
{
    if 0 <= i < toks.len() && toks[i] is Dot {
        match ident_text(tok_at(toks, i + 1)) {
            Some(t) => name_tail(toks, i + 2, acc.push(t)),
            None => Err((i + 1, "identifier"@)),
        }
    } else {
        Ok((acc, i))
    }
}

/// An object name (`ident ( . ident )*`) at `i`.
pub open spec fn object_name_at(toks: Seq<Token>, i: int) -> Outcome<Seq<Seq<char>>> {
    match ident_text(tok_at(toks, i)) {
        Some(t) => name_tail(toks, i + 1, seq![t]),
        None => Err((i, "identifier"@)),
    }
}

/// The characters of each string of `v`.
pub open spec fn strings_view(v: Seq<String>) -> Seq<Seq<char>> {
    v.map_values(|s: String| s@)
}

/// The view of a list of object names.
pub open spec fn names_view(v: Seq<Vec<String>>) -> Seq<Seq<Seq<char>>> {
    v.map_values(|n: Vec<String>| strings_view(n@))
}

/// The parser state.
pub struct Parser {
    tokens: Vec<TokenWithSpan>,
    pos: usize,
    errors: Vec<ParserError>,
}

impl Parser {
    /// The tokens being parsed.
    pub closed spec fn toks(&self) -> Seq<Token> {
        self.tokens@.map_values(|t: TokenWithSpan| t.token)
    }

    /// The source location of each token.
    pub closed spec fn locations(&self) -> Seq<SourceLocation> {
        self.tokens@.map_values(|t: TokenWithSpan| t.location)
    }

    /// The cursor: index of the next token to read.
    pub closed spec fn position(&self) -> int {
        self.pos as int
    }

    /// The warnings collected so far.
    pub closed spec fn warnings(&self) -> Seq<ParserError> {
        self.errors@
    }

    /// The cursor never passes the end of the tokens.
    pub open spec fn wf(&self) -> bool {
        0 <= self.position() <= self.toks().len()
    }

    /// The cursor after consuming the current token (unchanged at the end).
    pub open spec fn next_position(&self) -> int {
        if self.position() < self.toks().len() {
            self.position() + 1
        } else {
            self.position()
        }
    }

    /// Where the token at `i` starts (the default location past the end).
    pub open spec fn location_at(&self, i: int) -> SourceLocation {
        if 0 <= i < self.locations().len() {
            self.locations()[i]
        } else {
            SourceLocation { line: 0, column: 0, offset: 0 }
        }
    }

    /// The token under the cursor.
    pub open spec fn current(&self) -> Token {
        tok_at(self.toks(), self.position())
    }

    /// `e` reports that `expected` was wanted at token `at`.
    pub open spec fn reports(&self, e: ParserError, at: int, expected: Seq<char>) -> bool {
        &&& e is UnexpectedToken
        &&& e->UnexpectedToken_location == self.location_at(at)
        &&& e->UnexpectedToken_expected@ == expected
        &&& e->UnexpectedToken_got@ == token_debug_text(tok_at(self.toks(), at))
    }

    /// `after` is `self` with the cursor at `at` (same tokens and warnings).
    pub open spec fn moved_to(&self, after: &Parser, at: int) -> bool {
        &&& after.toks() == self.toks()
        &&& after.locations() == self.locations()
        &&& after.warnings() == self.warnings()
        &&& after.position() == at
    }

    /// `after` has the same tokens as `self`, a cursor not behind it, and at least its warnings.
    pub open spec fn advanced_to(&self, after: &Parser) -> bool {
        &&& after.toks() == self.toks()
        &&& after.locations() == self.locations()
        &&& self.position() <= after.position() <= after.toks().len()
        &&& self.warnings().len() <= after.warnings().len()
        &&& forall|i: int| 0 <= i < self.warnings().len() ==> after.warnings()[i] == self.warnings()[i]
    }

    /// `after` is a well-formed continuation of `self`: same tokens, cursor not behind,
    /// warnings only added.
    pub open spec fn steps(&self, after: &Parser) -> bool {
        after.wf() && self.advanced_to(after)
    }

    /// Like `steps`, and at least one token was consumed.
    pub open spec fn consumed(&self, after: &Parser) -> bool {
        self.steps(after) && after.position() > self.position()
    }

    /// A parser over `tokens`, at the first token, with no warnings.
    pub fn new(tokens: Vec<TokenWithSpan>) -> (p: Parser)
        ensures
            p.wf(),
            p.toks() == tokens@.map_values(|t: TokenWithSpan| t.token),
            p.locations() == tokens@.map_values(|t: TokenWithSpan| t.location),
            p.position() == 0,
            p.warnings() == Seq::<ParserError>::empty(),
    {
        Parser { tokens, pos: 0, errors: Vec::new() }
    }

    /// The warnings collected while parsing.
    pub fn errors(&self) -> (e: &Vec<ParserError>)
        ensures
            e@ == self.warnings(),
    {
        &self.errors
    }

    /// Index of the next token.
    pub fn pos(&self) -> (p: usize)
        ensures
            p == self.position(),
    {
        self.pos
    }

    /// The number of tokens.
    pub fn toks_len(&self) -> (n: usize)
        ensures
            n == self.toks().len(),
    {
        self.tokens.len()
    }

    /// Records a warning.
    pub fn add_error(&mut self, e: ParserError)
        ensures
            final(self).toks() == old(self).toks(),
            final(self).locations() == old(self).locations(),
            final(self).position() == old(self).position(),
            final(self).warnings() == old(self).warnings().push(e),
    {
        self.errors.push(e);
    }

    /// Records several warnings, in order.
    pub fn add_errors(&mut self, ws: &mut Vec<ParserError>)
        ensures
            final(self).toks() == old(self).toks(),
            final(self).locations() == old(self).locations(),
            final(self).position() == old(self).position(),
            final(self).warnings() == old(self).warnings() + old(ws)@,
    {
        self.errors.append(ws);
    }

    /// The token under the cursor (`Eof` past the end).
    pub fn peek(&self) -> (t: &Token)
        requires
            self.wf(),
        ensures
            *t == self.current(),
    {
        if self.pos < self.tokens.len() {
            &self.tokens[self.pos].token
        } else {
            &Token::Eof
        }
    }

    /// The token `offset` places after the cursor (`Eof` past the end).
    pub fn peek_at(&self, offset: usize) -> (t: &Token)
        requires
            self.wf(),
        ensures
            *t == tok_at(self.toks(), self.position() + offset),
    {
        if offset < self.tokens.len() - self.pos {
            &self.tokens[self.pos + offset].token
        } else {
            &Token::Eof
        }
    }

    /// The keyword under the cursor, if the current token is one.
    pub fn peek_keyword(&self) -> (k: Option<Keyword>)
        requires
            self.wf(),
        ensures
            k == keyword_at(self.toks(), self.position()),
    {
        match self.peek() {
            Token::Keyword(k) => Some(*k),
            _ => None,
        }
    }

    /// Moves the cursor one token forward (not past the end).
    pub fn advance(&mut self)
        requires
            old(self).wf(),
        ensures
            final(self).wf(),
            old(self).moved_to(
                &*final(self),
                if old(self).position() < old(self).toks().len() {
                    old(self).position() + 1
                } else {
                    old(self).position()
                },
            ),
    {
        if self.pos < self.tokens.len() {
            self.pos = self.pos + 1;
        }
    }

    /// Whether the current token is the keyword `kw`.
    pub fn match_keyword(&self, kw: Keyword) -> (r: bool)
        requires
            self.wf(),
        ensures
            r == (self.current() == Token::Keyword(kw)),
    {
        match self.peek() {
            Token::Keyword(k) => *k == kw,
            _ => false,
        }
    }

    /// Whether the current token is `t`.
    pub fn match_token(&self, t: &Token) -> (r: bool)
        requires
            self.wf(),
        ensures
            r == same_token(self.current(), *t),
    {
        self.peek().same_as(t)
    }

    /// Whether the current token is the plain identifier `word`, ignoring ASCII case.
    pub fn match_ident_str(&self, word: &str) -> (r: bool)
        requires
            self.wf(),
        ensures
            r == ident_word_at(self.toks(), self.position(), word@),
    {
        match self.peek() {
            Token::Ident(s) => {
                let a = ascii_lowercase_chars(s.as_str());
                let b = ascii_lowercase_chars(word);
                crate::text::chars_equal(&a, &b)
            },
            _ => false,
        }
    }

    /// Whether the token `offset` places after the cursor is the plain identifier `word`,
    /// ignoring ASCII case.
    pub fn match_ident_str_at(&self, offset: usize, word: &str) -> (r: bool)
        requires
            self.wf(),
        ensures
            r == ident_word_at(self.toks(), self.position() + offset, word@),
    {
        match self.peek_at(offset) {
            Token::Ident(s) => {
                let a = ascii_lowercase_chars(s.as_str());
                let b = ascii_lowercase_chars(word);
                crate::text::chars_equal(&a, &b)
            },
            _ => false,
        }
    }

    /// The error for an unexpected current token.
    pub fn unexpected(&self, expected: &str) -> (e: ParserError)
        requires
            self.wf(),
        ensures
            self.reports(e, self.position(), expected@),
    {
        let location = self.current_location();
        ParserError::UnexpectedToken {
            location,
            expected: String::from_str(expected),
            got: token_debug(self.peek()),
        }
    }

    /// Where the current token starts.
    pub fn current_location(&self) -> (l: SourceLocation)
        requires
            self.wf(),
        ensures
            l == self.location_at(self.position()),
    {
        if self.pos < self.tokens.len() {
            self.tokens[self.pos].location
        } else {
            SourceLocation { line: 0, column: 0, offset: 0 }
        }
    }

    /// Consumes the keyword `kw` or reports it as expected.
    pub fn expect_keyword(&mut self, kw: Keyword) -> (r: Result<(), ParserError>)
        requires
            old(self).wf(),
        ensures
            final(self).wf(),
            old(self).current() == Token::Keyword(kw) ==> r is Ok && old(self).moved_to(
                &*final(self),
                old(self).position() + 1,
            ),
            old(self).current() != Token::Keyword(kw) ==> r is Err && old(self).moved_to(
                &*final(self),
                old(self).position(),
            ) && old(self).reports(r->Err_0, old(self).position(), keyword_text(kw)),
    {
        if self.match_keyword(kw) {
            self.advance();
            Ok(())
        } else {
            Err(self.unexpected(kw.as_str()))
        }
    }

    /// Consumes the token `t` or reports `expected` as missing.
    pub fn expect_token(&mut self, t: &Token, expected: &str) -> (r: Result<(), ParserError>)
        requires
            old(self).wf(),
        ensures
            final(self).wf(),
            same_token(old(self).current(), *t) ==> r is Ok && old(self).moved_to(
                &*final(self),
                old(self).next_position(),
            ),
            !same_token(old(self).current(), *t) ==> r is Err && old(self).moved_to(
                &*final(self),
                old(self).position(),
            ) && old(self).reports(r->Err_0, old(self).position(), expected@),
    {
        if self.match_token(t) {
            self.advance();
            Ok(())
        } else {
            Err(self.unexpected(expected))
        }
    }

    /// Consumes the keyword `kw` if it is current.
    pub fn try_consume_keyword(&mut self, kw: Keyword) -> (r: bool)
        requires
            old(self).wf(),
        ensures
            final(self).wf(),
            r == (old(self).current() == Token::Keyword(kw)),
            old(self).moved_to(&*final(self), if r { old(self).position() + 1 } else { old(self).position() }),
    {
        if self.match_keyword(kw) {
            self.advance();
            true
        } else {
            false
        }
    }

    /// Consumes the plain identifier `word` (ignoring ASCII case) if it is current.
    pub fn try_consume_ident_str(&mut self, word: &str) -> (r: bool)
        requires
            old(self).wf(),
        ensures
            final(self).wf(),
            r == ident_word_at(old(self).toks(), old(self).position(), word@),
            old(self).moved_to(&*final(self), if r { old(self).position() + 1 } else { old(self).position() }),
    {
        if self.match_ident_str(word) {
            self.advance();
            true
        } else {
            false
        }
    }

    /// An identifier: a plain or quoted identifier, or a non-reserved keyword (lower-cased).
    pub fn parse_identifier(&mut self) -> (r: Result<String, ParserError>)
        requires
            old(self).wf(),
        ensures
            final(self).wf(),
            match ident_text(old(self).current()) {
                Some(t) => r is Ok && r->Ok_0@ == t && old(self).moved_to(&*final(self), old(self).position() + 1),
                None => r is Err && old(self).moved_to(&*final(self), old(self).position())
                    && old(self).reports(r->Err_0, old(self).position(), "identifier"@),
            },
    {
        let text: Option<String> = match self.peek() {
            Token::Ident(s) => Some(s.clone()),
            Token::QuotedIdent(s) => Some(s.clone()),
            Token::Keyword(k) => {
                if k.is_reserved() {
                    None
                } else {
                    let lower = ascii_lowercase_chars(k.as_str());
                    Some(string_from_chars(&lower))
                }
            },
            _ => None,
        };
        match text {
            Some(s) => {
                self.advance();
                Ok(s)
            },
            None => Err(self.unexpected("identifier")),
        }
    }

    /// An object name: identifiers separated by `.`.
    pub fn parse_object_name(&mut self) -> (r: Result<Vec<String>, ParserError>)
        requires
            old(self).wf(),
        ensures
            final(self).wf(),
            match object_name_at(old(self).toks(), old(self).position()) {
                Ok((name, p)) => r is Ok && strings_view(r->Ok_0@) == name && old(self).moved_to(&*final(self), p),
                Err((p, expected)) => r is Err && old(self).moved_to(&*final(self), p)
                    && old(self).reports(r->Err_0, p, expected),
            },
    {
        let ghost start = self.position();
        let first = match self.parse_identifier() {
            Ok(s) => s,
            Err(e) => return Err(e),
        };
        let mut name: Vec<String> = Vec::new();
        name.push(first);
        assert(strings_view(name@) =~= seq![ident_text(tok_at(self.toks(), start)).unwrap()]);
        while self.match_token(&Token::Dot)
            invariant
                self.wf(),
                start == old(self).position(),
                old(self).moved_to(&*self, self.position()),
                object_name_at(old(self).toks(), start) == name_tail(self.toks(), self.position(), strings_view(name@)),
            decreases self.toks().len() - self.position(),
        {
            self.advance();
            let part = match self.parse_identifier() {
                Ok(s) => s,
                Err(e) => {
                    return Err(e);
                },
            };
            let ghost before = strings_view(name@);
            name.push(part);
            assert(strings_view(name@) =~= before.push(part@));
        }
        Ok(name)
    }

    /// A string literal's text.
    pub fn parse_string_literal(&mut self) -> (r: Result<String, ParserError>)
        requires
            old(self).wf(),
        ensures
            final(self).wf(),
            match old(self).current() {
                Token::StringLiteral(s) => r is Ok && r->Ok_0@ == s@ && old(self).moved_to(&*final(self), old(self).position() + 1),
                _ => r is Err && old(self).moved_to(&*final(self), old(self).position())
                    && old(self).reports(r->Err_0, old(self).position(), "string literal"@),
            },
    {
        let text: Option<String> = match self.peek() {
            Token::StringLiteral(s) => Some(s.clone()),
            _ => None,
        };
        match text {
            Some(s) => {
                self.advance();
                Ok(s)
            },
            None => Err(self.unexpected("string literal")),
        }
    }

    /// An integer literal's value.
    pub fn parse_integer_literal(&mut self) -> (r: Result<i64, ParserError>)
        requires
            old(self).wf(),
        ensures
            final(self).wf(),
            match old(self).current() {
                Token::Integer(n) => r == Ok::<i64, ParserError>(n) && old(self).moved_to(&*final(self), old(self).position() + 1),
                _ => r is Err && old(self).moved_to(&*final(self), old(self).position())
                    && old(self).reports(r->Err_0, old(self).position(), "integer literal"@),
            },
    {
        let value: Option<i64> = match self.peek() {
            Token::Integer(n) => Some(*n),
            _ => None,
        };
        match value {
            Some(n) => {
                self.advance();
                Ok(n)
            },
            None => Err(self.unexpected("integer literal")),
        }
    }

    /// A string literal or an identifier (plain or quoted), as text.
    pub fn parse_string_or_quoted_ident(&mut self) -> (r: Result<String, ParserError>)
        requires
            old(self).wf(),
        ensures
            final(self).wf(),
            match old(self).current() {
                Token::StringLiteral(s) => r is Ok && r->Ok_0@ == s@ && old(self).moved_to(&*final(self), old(self).position() + 1),
                Token::QuotedIdent(s) => r is Ok && r->Ok_0@ == s@ && old(self).moved_to(&*final(self), old(self).position() + 1),
                Token::Ident(s) => r is Ok && r->Ok_0@ == s@ && old(self).moved_to(&*final(self), old(self).position() + 1),
                _ => r is Err && old(self).moved_to(&*final(self), old(self).position())
                    && old(self).reports(r->Err_0, old(self).position(), "string or identifier"@),
            },
    {
        let text: Option<String> = match self.peek() {
            Token::StringLiteral(s) => Some(s.clone()),
            Token::QuotedIdent(s) => Some(s.clone()),
            Token::Ident(s) => Some(s.clone()),
            _ => None,
        };
        match text {
            Some(s) => {
                self.advance();
                Ok(s)
            },
            None => Err(self.unexpected("string or identifier")),
        }
    }
}

} // verus!
