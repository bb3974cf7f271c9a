//! Generic `( name [= value], ... )` option lists, with or without a leading `WITH`.
use vstd::prelude::*;
use crate::parser::table::{close_parens_from, lemma_close_parens_bounds};
use crate::parser::ddl::kw_at;
use crate::parser::{ident_text, tok_at, Parser};
use crate::text::{push_signed, signed_decimal};
use crate::token::{keyword_text, Keyword, Token};

verus! {

/// An option as written: its name and its value (empty when none is given).
pub type OptionView = (Seq<char>, Seq<char>);

/// The text of an option value: a string literal's contents, an identifier, an integer
/// in decimal, or a keyword's spelling.
pub open spec fn option_value_text(t: Token) -> Option<Seq<char>> {
    match t {
        Token::StringLiteral(s) => Some(s@),
        Token::Ident(s) => Some(s@),
        Token::Integer(n) => Some(signed_decimal(n as int)),
        Token::Keyword(k) => Some(keyword_text(k)),
        _ => None,
    }
}

/// The options listed from `i` on, after those in `acc`, and where the list stops: each
/// is a name, optionally `=` and a value; a comma continues the list.
pub open spec fn option_items(toks: Seq<Token>, i: int, acc: Seq<OptionView>) -> (Seq<OptionView>, int)
    decreases toks.len() - i,
{
    if i < 0 || i >= toks.len() {
        (acc, i)
    } else {
        match ident_text(toks[i]) {
            None => (acc, i),
            Some(key) => {
                let (value, j) = if tok_at(toks, i + 1) is Eq {
                    match option_value_text(tok_at(toks, i + 2)) {
                        Some(v) => (v, i + 3),
                        None => (Seq::<char>::empty(), i + 2),
                    }
                } else {
                    (Seq::<char>::empty(), i + 1)
                };
                if tok_at(toks, j) is Comma {
                    option_items(toks, j + 1, acc.push((key, value)))
                } else {
                    (acc.push((key, value)), j)
                }
            },
        }
    }
}

/// `( options )` at `i`: the options, and the position after the closing parenthesis
/// (anything left before it is passed over). Without a `(` there are none.
pub open spec fn paren_options_at(toks: Seq<Token>, i: int) -> (Seq<OptionView>, int) {
    if tok_at(toks, i) is LParen {
        let (items, j) = option_items(toks, i + 1, Seq::empty());
        (items, close_parens_from(toks, j, 1))
    } else {
        (Seq::empty(), i)
    }
}

/// `[WITH] ( options )` at `i`.
pub open spec fn with_options_at(toks: Seq<Token>, i: int) -> (Seq<OptionView>, int) {
    if kw_at(toks, i, Keyword::WITH) {
        paren_options_at(toks, i + 1)
    } else {
        paren_options_at(toks, i)
    }
}

/// The view of a list of options.
pub open spec fn options_view(v: Seq<(String, String)>) -> Seq<OptionView> {
    v.map_values(|o: (String, String)| (o.0@, o.1@))
}

impl Parser {
    /// An option value at the cursor, if there is one (the cursor is left alone otherwise).
    fn try_option_value(&mut self) -> (r: Option<String>)
        requires
            old(self).wf(),
        ensures
            final(self).wf(),
            match option_value_text(old(self).current()) {
                Some(v) => r matches Some(s) && s@ == v && old(self).moved_to(&*final(self), old(self).position() + 1),
                None => r is None && old(self).moved_to(&*final(self), old(self).position()),
            },
    {
        let text: Option<String> = match self.peek() {
            Token::StringLiteral(s) => Some(s.clone()),
            Token::Ident(s) => Some(s.clone()),
            Token::Integer(n) => {
                let mut t = String::new();
                push_signed(&mut t, *n);
                Some(t)
            },
            Token::Keyword(k) => Some(String::from_str(k.as_str())),
            _ => None,
        };
        if text.is_some() {
            self.advance();
        }
        text
    }

    /// Skips to just after the `)` that closes the group the cursor is in.
    fn skip_past_close(&mut self)
        requires
            old(self).wf(),
            old(self).position() >= 1,
        ensures
            final(self).wf(),
            old(self).moved_to(&*final(self), close_parens_from(old(self).toks(), old(self).position(), 1)),
            old(self).position() <= final(self).position(),
    {
        proof {
            lemma_close_parens_bounds(self.toks(), self.position(), 1);
        }
        let mut depth: usize = 1;
        while depth > 0 && self.pos() < self.toks_len()
            invariant
                self.wf(),
                old(self).moved_to(&*self, self.position()),
                depth <= self.position(),
                close_parens_from(self.toks(), self.position(), depth as nat)
                    == close_parens_from(old(self).toks(), old(self).position(), 1),
            decreases self.toks().len() - self.position(),
        {
            let step: usize = match self.peek() {
                Token::LParen => 1,
                Token::RParen => 2,
                _ => 0,
            };
            if step == 1 {
                depth = depth + 1;
            } else if step == 2 {
                depth = depth - 1;
            }
            self.advance();
        }
    }

    /// `( name [= value], ... )` at the cursor; nothing when the cursor is not at `(`.
    pub fn parse_generic_options_no_with(&mut self) -> (r: Vec<(String, String)>)
        requires
            old(self).wf(),
        ensures
            final(self).wf(),
            options_view(r@) == paren_options_at(old(self).toks(), old(self).position()).0,
            old(self).moved_to(&*final(self), paren_options_at(old(self).toks(), old(self).position()).1),
            old(self).position() <= final(self).position(),
    {
        let mut out: Vec<(String, String)> = Vec::new();
        if !self.match_token(&Token::LParen) {
            assert(options_view(out@) =~= Seq::<OptionView>::empty());
            return out;
        }
        self.advance();
        let ghost start = self.position();
        assert(options_view(out@) =~= Seq::<OptionView>::empty());
        loop
            invariant_except_break
                option_items(self.toks(), start, Seq::empty()) == option_items(self.toks(), self.position(), options_view(out@)),
            invariant
                self.wf(),
                old(self).moved_to(&*self, self.position()),
                start == old(self).position() + 1,
                start <= self.position(),
            ensures
                option_items(self.toks(), start, Seq::empty()) == (options_view(out@), self.position()),
            decreases self.toks().len() - self.position(),
        {
            let key = match self.parse_identifier() {
                Ok(k) => k,
                Err(_) => break,
            };
            let mut value = String::new();
            if self.match_token(&Token::Eq) {
                self.advance();
                match self.try_option_value() {
                    Some(v) => value = v,
                    None => {},
                }
            }
            let ghost before = options_view(out@);
            out.push((key, value));
            proof {
                assert(options_view(out@) =~= before.push((key@, value@)));
            }
            if !self.match_token(&Token::Comma) {
                break;
            }
            self.advance();
        }
        self.skip_past_close();
        out
    }

    /// `[WITH] ( name [= value], ... )` at the cursor.
    pub fn parse_generic_options(&mut self) -> (r: Vec<(String, String)>)
        requires
            old(self).wf(),
        ensures
            final(self).wf(),
            options_view(r@) == with_options_at(old(self).toks(), old(self).position()).0,
            old(self).moved_to(&*final(self), with_options_at(old(self).toks(), old(self).position()).1),
            old(self).position() <= final(self).position(),
    {
        if self.match_keyword(Keyword::WITH) {
            self.advance();
        }
        self.parse_generic_options_no_with()
    }
}

} // verus!
