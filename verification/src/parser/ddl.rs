//! DDL statement parsers: DROP, TRUNCATE, ALTER TRIGGER / EXTENSION, CREATE TABLESPACE,
//! CREATE DATABASE, role options, and the small clauses they share.
use vstd::prelude::*;
use crate::ast::{
    AlterExtensionStatement, AlterTriggerStatement, CreateDatabaseStatement,
    CreateTablespaceStatement, DropStatement, ObjectType, TimeZoneInfo, TruncateStatement,
};
use crate::error::ParserError;
use crate::parser::{
    ident_text, ident_word_at, keyword_at, name_tail, names_view, object_name_at, strings_view, tok_at,
    Outcome, Parser,
};
use crate::token::{keyword_text, Keyword, Token};

verus! {

/// Whether the token at `i` is the keyword `k`.
pub open spec fn kw_at(toks: Seq<Token>, i: int, k: Keyword) -> bool {
    tok_at(toks, i) == Token::Keyword(k)
}

// ────────────────────────────────────────────────────────────────
// IF [NOT] EXISTS
// ────────────────────────────────────────────────────────────────

/// Where the cursor ends after trying `IF NOT EXISTS` at `i`: each keyword of the
/// phrase is consumed as long as the phrase matches so far.
pub open spec fn if_not_exists_end(toks: Seq<Token>, i: int) -> int {
    if kw_at(toks, i, Keyword::IF_P) {
        if kw_at(toks, i + 1, Keyword::NOT) {
            if kw_at(toks, i + 2, Keyword::EXISTS) { i + 3 } else { i + 2 }
        } else {
            i + 1
        }
    } else {
        i
    }
}

pub open spec fn has_if_not_exists(toks: Seq<Token>, i: int) -> bool {
    kw_at(toks, i, Keyword::IF_P) && kw_at(toks, i + 1, Keyword::NOT) && kw_at(toks, i + 2, Keyword::EXISTS)
}

/// Where the cursor ends after trying `IF EXISTS` at `i`.
pub open spec fn if_exists_end(toks: Seq<Token>, i: int) -> int {
    if kw_at(toks, i, Keyword::IF_P) {
        if kw_at(toks, i + 1, Keyword::EXISTS) { i + 2 } else { i + 1 }
    } else {
        i
    }
}

pub open spec fn has_if_exists(toks: Seq<Token>, i: int) -> bool {
    kw_at(toks, i, Keyword::IF_P) && kw_at(toks, i + 1, Keyword::EXISTS)
}

// ────────────────────────────────────────────────────────────────
// Lists and literals
// ────────────────────────────────────────────────────────────────

/// Skips an optional `ASC` / `DESC` at `i`.
pub open spec fn skip_sort_order(toks: Seq<Token>, i: int) -> int {
    if kw_at(toks, i, Keyword::ASC) || kw_at(toks, i, Keyword::DESC) { i + 1 } else { i }
}

/// The rest of a parenthesized column list at `i`, after the columns `acc`.
pub open spec fn column_list_tail(toks: Seq<Token>, i: int, acc: Seq<Seq<char>>) -> Outcome<Seq<Seq<char>>>
    decreases toks.len() - i,
{
    if 0 <= i < toks.len() && toks[i] is Comma {
        match ident_text(tok_at(toks, i + 1)) {
            Some(t) => if i + 2 <= toks.len() {
                column_list_tail(toks, skip_sort_order(toks, i + 2), acc.push(t))
            } else {
                Err((i + 1, "identifier"@))
            },
            None => Err((i + 1, "identifier"@)),
        }
    } else if tok_at(toks, i) is RParen {
        Ok((acc, i + 1))
    } else {
        Err((i, ")"@))
    }
}

/// A parenthesized list of column names, each optionally followed by `ASC` or `DESC`.
pub open spec fn column_list_at(toks: Seq<Token>, i: int) -> Outcome<Seq<Seq<char>>> {
    if tok_at(toks, i) is LParen {
        match ident_text(tok_at(toks, i + 1)) {
            Some(t) => column_list_tail(toks, skip_sort_order(toks, i + 2), seq![t]),
            None => Err((i + 1, "identifier"@)),
        }
    } else {
        Err((i, "("@))
    }
}

/// An integer literal read as `u32` (wrapping, as `as u32` does).
pub open spec fn int_literal_at(toks: Seq<Token>, i: int) -> Outcome<u32> {
    match tok_at(toks, i) {
        Token::Integer(n) => Ok((n as u32, i + 1)),
        _ => Err((i, "integer literal"@)),
    }
}

/// An optional `( n [, m] )` precision; the scale `m` is read and dropped.
pub open spec fn opt_precision_at(toks: Seq<Token>, i: int) -> Outcome<Option<u32>> {
    if tok_at(toks, i) is LParen {
        match int_literal_at(toks, i + 1) {
            Err(e) => Err(e),
            Ok((n, p)) => {
                let q: Outcome<int> = if tok_at(toks, p) is Comma {
                    match int_literal_at(toks, p + 1) {
                        Ok((_, r)) => Ok((r, r)),
                        Err(e) => Err(e),
                    }
                } else {
                    Ok((p, p))
                };
                match q {
                    Err(e) => Err(e),
                    Ok((_, r)) => if tok_at(toks, r) is RParen {
                        Ok((Some(n), r + 1))
                    } else {
                        Err((r, ")"@))
                    },
                }
            },
        }
    } else {
        Ok((None, i))
    }
}

/// `WITH TIME ZONE` / `WITHOUT TIME ZONE`, or nothing.
pub open spec fn timezone_at(toks: Seq<Token>, i: int) -> Outcome<Option<TimeZoneInfo>> {
    if kw_at(toks, i, Keyword::WITH) || kw_at(toks, i, Keyword::WITHOUT) {
        let tz = if kw_at(toks, i, Keyword::WITH) { TimeZoneInfo::WithTimeZone } else { TimeZoneInfo::WithoutTimeZone };
        if kw_at(toks, i + 1, Keyword::TIME) {
            if kw_at(toks, i + 2, Keyword::ZONE) {
                Ok((Some(tz), i + 3))
            } else {
                Err((i + 2, "ZONE"@))
            }
        } else {
            Err((i + 1, "TIME"@))
        }
    } else {
        Ok((None, i))
    }
}

/// `TRUE` or `FALSE`.
pub open spec fn bool_literal_at(toks: Seq<Token>, i: int) -> Outcome<bool> {
    if kw_at(toks, i, Keyword::TRUE_P) {
        Ok((true, i + 1))
    } else if kw_at(toks, i, Keyword::FALSE_P) {
        Ok((false, i + 1))
    } else {
        Err((i, "TRUE or FALSE"@))
    }
}

/// A string literal, a plain identifier, or any keyword (its spelling).
pub open spec fn string_or_ident_at(toks: Seq<Token>, i: int) -> Outcome<Seq<char>> {
    match tok_at(toks, i) {
        Token::StringLiteral(s) => Ok((s@, i + 1)),
        Token::Ident(s) => Ok((s@, i + 1)),
        Token::Keyword(k) => Ok((keyword_text(k), i + 1)),
        _ => Err((i, "string or identifier"@)),
    }
}

/// Where an error leaves the cursor: at the offending token.
pub open spec fn outcome_end<T>(o: Outcome<T>) -> int {
    match o {
        Ok((_, p)) => p,
        Err((p, _)) => p,
    }
}

/// The exec result `r` and cursor `after` agree with the outcome `o` (through `view`).
pub open spec fn agrees<T, V>(p: &Parser, after: &Parser, r: Result<T, ParserError>, o: Outcome<V>, view: spec_fn(T) -> V) -> bool {
    match o {
        Ok((v, q)) => r is Ok && view(r->Ok_0) == v && p.moved_to(after, q),
        Err((q, expected)) => r is Err && p.moved_to(after, q) && p.reports(r->Err_0, q, expected),
    }
}

impl Parser {
    /// Consumes `IF NOT EXISTS` (as far as it matches) and says whether it was all there.
    pub fn parse_if_not_exists(&mut self) -> (r: bool)
        requires
            old(self).wf(),
        ensures
            final(self).wf(),
            r == has_if_not_exists(old(self).toks(), old(self).position()),
            old(self).moved_to(&*final(self), if_not_exists_end(old(self).toks(), old(self).position())),
    {
        if self.match_keyword(Keyword::IF_P) {
            self.advance();
            if self.match_keyword(Keyword::NOT) {
                self.advance();
                if self.match_keyword(Keyword::EXISTS) {
                    self.advance();
                    return true;
                }
            }
        }
        false
    }

    /// Consumes `IF EXISTS` (as far as it matches) and says whether it was all there.
    pub fn parse_if_exists(&mut self) -> (r: bool)
        requires
            old(self).wf(),
        ensures
            final(self).wf(),
            r == has_if_exists(old(self).toks(), old(self).position()),
            old(self).moved_to(&*final(self), if_exists_end(old(self).toks(), old(self).position())),
    {
        if self.match_keyword(Keyword::IF_P) {
            self.advance();
            if self.match_keyword(Keyword::EXISTS) {
                self.advance();
                return true;
            }
        }
        false
    }

    fn skip_sort_order(&mut self)
        requires
            old(self).wf(),
        ensures
            final(self).wf(),
            old(self).moved_to(&*final(self), skip_sort_order(old(self).toks(), old(self).position())),
    {
        if self.match_keyword(Keyword::ASC) || self.match_keyword(Keyword::DESC) {
            self.advance();
        }
    }

    /// A parenthesized list of column names (sort orders are accepted and dropped).
    pub fn parse_column_list(&mut self) -> (r: Result<Vec<String>, ParserError>)
        requires
            old(self).wf(),
        ensures
            final(self).wf(),
            agrees(&*old(self), &*final(self), r, column_list_at(old(self).toks(), old(self).position()), |v: Vec<String>| strings_view(v@)),
            old(self).position() <= final(self).position(),
    {
        match self.expect_token(&Token::LParen, "(") {
            Ok(()) => {},
            Err(e) => return Err(e),
        }
        let first = match self.parse_identifier() {
            Ok(s) => s,
            Err(e) => return Err(e),
        };
        let mut columns: Vec<String> = Vec::new();
        columns.push(first);
        assert(strings_view(columns@) =~= seq![first@]);
        self.skip_sort_order();
        while self.match_token(&Token::Comma)
            invariant
                self.wf(),
                old(self).moved_to(&*self, self.position()),
                old(self).position() <= self.position(),
                column_list_at(old(self).toks(), old(self).position()) == column_list_tail(
                    self.toks(),
                    self.position(),
                    strings_view(columns@),
                ),
            decreases self.toks().len() - self.position(),
        {
            self.advance();
            let col = match self.parse_identifier() {
                Ok(s) => s,
                Err(e) => return Err(e),
            };
            let ghost before = strings_view(columns@);
            columns.push(col);
            assert(strings_view(columns@) =~= before.push(col@));
            self.skip_sort_order();
        }
        match self.expect_token(&Token::RParen, ")") {
            Ok(()) => {},
            Err(e) => return Err(e),
        }
        Ok(columns)
    }

    /// An integer literal, as `u32`.
    pub fn parse_int_literal(&mut self) -> (r: Result<u32, ParserError>)
        requires
            old(self).wf(),
        ensures
            final(self).wf(),
            agrees(&*old(self), &*final(self), r, int_literal_at(old(self).toks(), old(self).position()), |v: u32| v),
    {
        let value: Option<i64> = match self.peek() {
            Token::Integer(n) => Some(*n),
            _ => None,
        };
        match value {
            Some(n) => {
                self.advance();
                Ok(n as u32)
            },
            None => Err(self.unexpected("integer literal")),
        }
    }

    /// An optional `( n [, m] )` precision.
    pub fn parse_opt_int_precision(&mut self) -> (r: Result<Option<u32>, ParserError>)
        requires
            old(self).wf(),
        ensures
            final(self).wf(),
            agrees(&*old(self), &*final(self), r, opt_precision_at(old(self).toks(), old(self).position()), |v: Option<u32>| v),
    {
        if self.match_token(&Token::LParen) {
            self.advance();
            let n = match self.parse_int_literal() {
                Ok(n) => n,
                Err(e) => return Err(e),
            };
            if self.match_token(&Token::Comma) {
                self.advance();
                match self.parse_int_literal() {
                    Ok(_) => {},
                    Err(e) => return Err(e),
                }
            }
            match self.expect_token(&Token::RParen, ")") {
                Ok(()) => {},
                Err(e) => return Err(e),
            }
            Ok(Some(n))
        } else {
            Ok(None)
        }
    }

    /// `WITH TIME ZONE`, `WITHOUT TIME ZONE`, or nothing.
    pub fn parse_timezone_info(&mut self) -> (r: Result<Option<TimeZoneInfo>, ParserError>)
        requires
            old(self).wf(),
        ensures
            final(self).wf(),
            agrees(&*old(self), &*final(self), r, timezone_at(old(self).toks(), old(self).position()), |v: Option<TimeZoneInfo>| v),
    {
        if self.match_keyword(Keyword::WITH) {
            self.advance();
            if self.match_keyword(Keyword::TIME) {
                self.advance();
                match self.expect_keyword(Keyword::ZONE) {
                    Ok(()) => Ok(Some(TimeZoneInfo::WithTimeZone)),
                    Err(e) => Err(e),
                }
            } else {
                Err(self.unexpected("TIME"))
            }
        } else if self.match_keyword(Keyword::WITHOUT) {
            self.advance();
            if self.match_keyword(Keyword::TIME) {
                self.advance();
                match self.expect_keyword(Keyword::ZONE) {
                    Ok(()) => Ok(Some(TimeZoneInfo::WithoutTimeZone)),
                    Err(e) => Err(e),
                }
            } else {
                Err(self.unexpected("TIME"))
            }
        } else {
            Ok(None)
        }
    }

    /// `TRUE` or `FALSE`.
    pub fn parse_bool_literal(&mut self) -> (r: Result<bool, ParserError>)
        requires
            old(self).wf(),
        ensures
            final(self).wf(),
            agrees(&*old(self), &*final(self), r, bool_literal_at(old(self).toks(), old(self).position()), |v: bool| v),
    {
        if self.match_keyword(Keyword::TRUE_P) {
            self.advance();
            Ok(true)
        } else if self.match_keyword(Keyword::FALSE_P) {
            self.advance();
            Ok(false)
        } else {
            Err(self.unexpected("TRUE or FALSE"))
        }
    }

    /// A string literal, a plain identifier, or a keyword's spelling.
    pub fn parse_string_or_ident(&mut self) -> (r: Result<String, ParserError>)
        requires
            old(self).wf(),
        ensures
            final(self).wf(),
            agrees(&*old(self), &*final(self), r, string_or_ident_at(old(self).toks(), old(self).position()), |v: String| v@),
    {
        let text: Option<String> = match self.peek() {
            Token::StringLiteral(s) => Some(s.clone()),
            Token::Ident(s) => Some(s.clone()),
            Token::Keyword(k) => Some(String::from_str(k.as_str())),
            _ => None,
        };
        match text {
            Some(s) => {
                self.advance();
                Ok(s)
            },
            None => Err(self.unexpected("string or identifier")),
        }
    }

    /// Whether the current token is a plain or quoted identifier not followed by `(` or `.`.
    pub fn matches_simple_column_name(&self) -> (r: bool)
        requires
            self.wf(),
        ensures
            r == ((self.current() is Ident || self.current() is QuotedIdent) && !(tok_at(self.toks(), self.position() + 1) is LParen)
                && !(tok_at(self.toks(), self.position() + 1) is Dot)),
    {
        match self.peek() {
            Token::Ident(_) | Token::QuotedIdent(_) => {
                match self.peek_at(1) {
                    Token::LParen | Token::Dot => false,
                    _ => true,
                }
            },
            _ => false,
        }
    }

    /// Skips an optional `ENABLE` or `DISABLE`.
    pub fn consume_opt_enable_disable(&mut self)
        requires
            old(self).wf(),
        ensures
            final(self).wf(),
            old(self).moved_to(
                &*final(self),
                if kw_at(old(self).toks(), old(self).position(), Keyword::ENABLE_P) || kw_at(
                    old(self).toks(),
                    old(self).position(),
                    Keyword::DISABLE_P,
                ) {
                    old(self).position() + 1
                } else {
                    old(self).position()
                },
            ),
    {
        if self.match_keyword(Keyword::ENABLE_P) || self.match_keyword(Keyword::DISABLE_P) {
            self.advance();
        }
    }
}


// ────────────────────────────────────────────────────────────────
// DROP
// ────────────────────────────────────────────────────────────────

/// The object type named after `DROP` at `i`, and where it ends; `None` stands for
/// the `OWNED` form (`DROP OWNED BY name`).
pub open spec fn drop_head_at(toks: Seq<Token>, i: int) -> Outcome<Option<ObjectType>> {
    match keyword_at(toks, i) {
        Some(Keyword::TABLE) => Ok((Some(ObjectType::Table), i + 1)),
        Some(Keyword::INDEX) => Ok((Some(ObjectType::Index), i + 1)),
        Some(Keyword::SEQUENCE) => Ok((Some(ObjectType::Sequence), i + 1)),
        Some(Keyword::VIEW) => Ok((Some(ObjectType::View), i + 1)),
        Some(Keyword::SCHEMA) => Ok((Some(ObjectType::Schema), i + 1)),
        Some(Keyword::DATABASE) => Ok((Some(ObjectType::Database), i + 1)),
        Some(Keyword::TABLESPACE) => Ok((Some(ObjectType::Tablespace), i + 1)),
        Some(Keyword::FUNCTION) => Ok((Some(ObjectType::Function), i + 1)),
        Some(Keyword::PROCEDURE) => Ok((Some(ObjectType::Procedure), i + 1)),
        Some(Keyword::TRIGGER) => Ok((Some(ObjectType::Trigger), i + 1)),
        Some(Keyword::EXTENSION) => Ok((Some(ObjectType::Extension), i + 1)),
        Some(Keyword::USER) => Ok((Some(ObjectType::User), i + 1)),
        Some(Keyword::ROLE) => Ok((Some(ObjectType::Role), i + 1)),
        Some(Keyword::GROUP_P) => Ok((Some(ObjectType::Group), i + 1)),
        Some(Keyword::DIRECTORY) => Ok((Some(ObjectType::Directory), i + 1)),
        Some(Keyword::EVENT) => Ok((Some(ObjectType::Event), i + 1)),
        Some(Keyword::PUBLICATION) => Ok((Some(ObjectType::Publication), i + 1)),
        Some(Keyword::SUBSCRIPTION) => Ok((Some(ObjectType::Subscription), i + 1)),
        Some(Keyword::SYNONYM) => Ok((Some(ObjectType::Synonym), i + 1)),
        Some(Keyword::MODEL) => Ok((Some(ObjectType::Model), i + 1)),
        Some(Keyword::AGGREGATE) => Ok((Some(ObjectType::Aggregate), i + 1)),
        Some(Keyword::CAST) => Ok((Some(ObjectType::Cast), i + 1)),
        Some(Keyword::CONVERSION_P) => Ok((Some(ObjectType::Conversion), i + 1)),
        Some(Keyword::DOMAIN_P) => Ok((Some(ObjectType::Domain), i + 1)),
        Some(Keyword::RULE) => Ok((Some(ObjectType::Rule), i + 1)),
        Some(Keyword::LANGUAGE) => Ok((Some(ObjectType::Language), i + 1)),
        Some(Keyword::POLICY) => Ok((Some(ObjectType::Policy), i + 1)),
        Some(Keyword::SERVER) => Ok((Some(ObjectType::ForeignServer), i + 1)),
        Some(Keyword::TYPE_P) => Ok((Some(ObjectType::Type), i + 1)),
        Some(Keyword::MATERIALIZED) => if kw_at(toks, i + 1, Keyword::VIEW) { Ok((Some(ObjectType::MaterializedView), i + 2)) } else { Err((i + 1, keyword_text(Keyword::VIEW))) },
        Some(Keyword::WORKLOAD) => if kw_at(toks, i + 1, Keyword::GROUP_P) { Ok((Some(ObjectType::WorkloadGroup), i + 2)) } else { Err((i + 1, keyword_text(Keyword::GROUP_P))) },
        Some(Keyword::AUDIT) => if kw_at(toks, i + 1, Keyword::POLICY) { Ok((Some(ObjectType::AuditPolicy), i + 2)) } else { Err((i + 1, keyword_text(Keyword::POLICY))) },
        Some(Keyword::MASKING) => if kw_at(toks, i + 1, Keyword::POLICY) { Ok((Some(ObjectType::MaskingPolicy), i + 2)) } else { Err((i + 1, keyword_text(Keyword::POLICY))) },
        Some(Keyword::ROW) => if kw_at(toks, i + 1, Keyword::LEVEL) { if kw_at(toks, i + 2, Keyword::SECURITY) { if kw_at(toks, i + 3, Keyword::POLICY) { Ok((Some(ObjectType::RlsPolicy), i + 4)) } else { Err((i + 3, keyword_text(Keyword::POLICY))) } } else { Err((i + 2, keyword_text(Keyword::SECURITY))) } } else { Err((i + 1, keyword_text(Keyword::LEVEL))) },
        Some(Keyword::DATA_P) => if kw_at(toks, i + 1, Keyword::SOURCE_P) { Ok((Some(ObjectType::DataSource), i + 2)) } else { Err((i + 1, keyword_text(Keyword::SOURCE_P))) },
        Some(Keyword::SECURITY) => if kw_at(toks, i + 1, Keyword::LABEL) { Ok((Some(ObjectType::SecurityLabel), i + 2)) } else { Err((i + 1, keyword_text(Keyword::LABEL))) },
        Some(Keyword::WEAK) => if kw_at(toks, i + 1, Keyword::PASSWORD) { if kw_at(toks, i + 2, Keyword::DICTIONARY) { Ok((Some(ObjectType::WeakPasswordDictionary), i + 3)) } else { Err((i + 2, keyword_text(Keyword::DICTIONARY))) } } else { Err((i + 1, keyword_text(Keyword::PASSWORD))) },
        Some(Keyword::FOREIGN) => if kw_at(toks, i + 1, Keyword::TABLE) {
            Ok((Some(ObjectType::ForeignTable), i + 2))
        } else if kw_at(toks, i + 1, Keyword::DATA_P) {
            if kw_at(toks, i + 2, Keyword::WRAPPER) { Ok((Some(ObjectType::Fdw), i + 3)) } else { Err((i + 2, keyword_text(Keyword::WRAPPER))) }
        } else if kw_at(toks, i + 1, Keyword::SERVER) {
            Ok((Some(ObjectType::ForeignServer), i + 2))
        } else {
            Err((i + 1, keyword_text(Keyword::SERVER)))
        },
        Some(Keyword::RESOURCE) => if kw_at(toks, i + 1, Keyword::POOL) {
            Ok((Some(ObjectType::ResourcePool), i + 2))
        } else if kw_at(toks, i + 1, Keyword::LABEL) {
            Ok((Some(ObjectType::ResourceLabel), i + 2))
        } else {
            Err((i + 1, keyword_text(Keyword::LABEL)))
        },
        Some(Keyword::NODE) => if kw_at(toks, i + 1, Keyword::GROUP_P) {
            Ok((Some(ObjectType::NodeGroup), i + 2))
        } else {
            Ok((Some(ObjectType::Node), i + 1))
        },
        Some(Keyword::TEXT_P) => if !kw_at(toks, i + 1, Keyword::SEARCH) {
            Err((i + 1, keyword_text(Keyword::SEARCH)))
        } else if kw_at(toks, i + 2, Keyword::CONFIGURATION) {
            Ok((Some(ObjectType::TextSearchConfig), i + 3))
        } else if kw_at(toks, i + 2, Keyword::DICTIONARY) {
            Ok((Some(ObjectType::TextSearchDict), i + 3))
        } else {
            Err((i + 2, keyword_text(Keyword::DICTIONARY)))
        },
        Some(Keyword::OPERATOR) => if kw_at(toks, i + 1, Keyword::CLASS) {
            Ok((Some(ObjectType::OpClass), i + 2))
        } else if kw_at(toks, i + 1, Keyword::FAMILY) {
            Ok((Some(ObjectType::OpFamily), i + 2))
        } else {
            Ok((Some(ObjectType::Operator), i + 1))
        },
        Some(Keyword::OWNED) => Ok((None, i + 1)),
        _ => if ident_word_at(toks, i, "client"@) {
            if !ident_word_at(toks, i + 1, "master"@) {
                Err((i + 1, "MASTER after CLIENT"@))
            } else if !ident_word_at(toks, i + 2, "key"@) {
                Err((i + 2, "KEY after CLIENT MASTER"@))
            } else {
                Ok((Some(ObjectType::User), i + 3))
            }
        } else if ident_word_at(toks, i, "column"@) {
            if !ident_word_at(toks, i + 1, "encryption"@) {
                Err((i + 1, "ENCRYPTION after COLUMN"@))
            } else if !ident_word_at(toks, i + 2, "key"@) {
                Err((i + 2, "KEY after COLUMN ENCRYPTION"@))
            } else {
                Ok((Some(ObjectType::User), i + 3))
            }
        } else if ident_word_at(toks, i, "app"@) {
            Ok((Some(ObjectType::App), i + 1))
        } else if ident_word_at(toks, i, "global"@) {
            Ok((Some(ObjectType::Global), i + 1))
        } else if ident_word_at(toks, i, "procedure"@) {
            Ok((Some(ObjectType::Procedure), i + 1))
        } else {
            Err((i, "DROP object type"@))
        },
    }
}

/// Further object names, each after a comma, following the names `acc`.
pub open spec fn name_list_tail(toks: Seq<Token>, i: int, acc: Seq<Seq<Seq<char>>>) -> Outcome<Seq<Seq<Seq<char>>>>
    decreases toks.len() - i,
{
    if 0 <= i < toks.len() && toks[i] is Comma {
        match object_name_at(toks, i + 1) {
            Ok((n, p)) => if i < p <= toks.len() { name_list_tail(toks, p, acc.push(n)) } else { Err((p, "identifier"@)) },
            Err(e) => Err(e),
        }
    } else {
        Ok((acc, i))
    }
}

/// One or more object names separated by commas.
pub open spec fn name_list_at(toks: Seq<Token>, i: int) -> Outcome<Seq<Seq<Seq<char>>>> {
    match object_name_at(toks, i) {
        Ok((n, p)) => name_list_tail(toks, p, seq![n]),
        Err(e) => Err(e),
    }
}

/// Where skipping a parenthesized group ends, from `i` at nesting `depth`.
pub open spec fn skip_parens_from(toks: Seq<Token>, i: int, depth: nat) -> int
    decreases toks.len() - i,
{
    if depth == 0 || i < 0 || i >= toks.len() {
        i
    } else if toks[i] is LParen {
        skip_parens_from(toks, i + 1, depth + 1)
    } else if toks[i] is RParen {
        skip_parens_from(toks, i + 1, (depth - 1) as nat)
    } else {
        skip_parens_from(toks, i + 1, depth)
    }
}

/// Where the type-specific tail after the names ends: an argument list for aggregates,
/// operators and casts, `USING method` for operator classes and families, `ON table`
/// for rules. Errors inside these tails are ignored.
pub open spec fn drop_tail_end(toks: Seq<Token>, i: int, t: ObjectType) -> int {
    if (t == ObjectType::Aggregate || t == ObjectType::Operator || t == ObjectType::Cast) && tok_at(toks, i) is LParen {
        skip_parens_from(toks, i + 1, 1)
    } else if (t == ObjectType::OperatorClass || t == ObjectType::OperatorFamily) && kw_at(toks, i, Keyword::USING) {
        if ident_text(tok_at(toks, i + 1)) is Some { i + 2 } else { i + 1 }
    } else if t == ObjectType::Rule && kw_at(toks, i, Keyword::ON) {
        outcome_end(object_name_at(toks, i + 1))
    } else {
        i
    }
}

/// A DROP statement's parts: object type, IF EXISTS, names, CASCADE, PURGE.
pub type DropParts = (ObjectType, bool, Seq<Seq<Seq<char>>>, bool, bool);

pub open spec fn drop_parts(d: DropStatement) -> DropParts {
    (d.object_type, d.if_exists, names_view(d.names@), d.cascade, d.purge)
}

/// The rest of a DROP statement of type `t` at `i`: the names, the type's tail,
/// then optional `CASCADE` and `PURGE`.
pub open spec fn drop_body_at(toks: Seq<Token>, i: int, t: ObjectType, if_exists: bool) -> Outcome<DropParts> {
    match name_list_at(toks, i) {
        Err(e) => Err(e),
        Ok((names, p)) => {
            let q = drop_tail_end(toks, p, t);
            let cascade = kw_at(toks, q, Keyword::CASCADE);
            let q2 = if cascade { q + 1 } else { q };
            let purge = kw_at(toks, q2, Keyword::PURGE);
            let q3 = if purge { q2 + 1 } else { q2 };
            Ok(((t, if_exists, names, cascade, purge), q3))
        },
    }
}

/// A DROP statement after the `DROP` keyword.
pub open spec fn drop_at(toks: Seq<Token>, i: int) -> Outcome<DropParts> {
    match drop_head_at(toks, i) {
        Err(e) => Err(e),
        Ok((None, p)) => if kw_at(toks, p, Keyword::BY) {
            match object_name_at(toks, p + 1) {
                Ok((n, q)) => Ok(((ObjectType::User, false, seq![n], false, false), q)),
                Err(e) => Err(e),
            }
        } else {
            Err((p, keyword_text(Keyword::BY)))
        },
        Ok((Some(t), p)) => drop_body_at(toks, if_exists_end(toks, p), t, has_if_exists(toks, p)),
    }
}

proof fn lemma_name_tail_bounds(toks: Seq<Token>, i: int, acc: Seq<Seq<char>>)
    requires
        0 <= i <= toks.len(),
    ensures
        match name_tail(toks, i, acc) {
            Ok((_, p)) => i <= p <= toks.len(),
            Err((p, _)) => i <= p,
        },
    decreases toks.len() - i,
{
    if 0 <= i < toks.len() && toks[i] is Dot {
        if let Some(t) = ident_text(tok_at(toks, i + 1)) {
            lemma_name_tail_bounds(toks, i + 2, acc.push(t));
        }
    }
}

/// An object name that parses ends after where it starts and within the tokens.
pub proof fn lemma_object_name_bounds(toks: Seq<Token>, i: int)
    requires
        0 <= i <= toks.len(),
    ensures
        match object_name_at(toks, i) {
            Ok((_, p)) => i < p <= toks.len(),
            Err((p, _)) => i <= p,
        },
{
    if let Some(t) = ident_text(tok_at(toks, i)) {
        lemma_name_tail_bounds(toks, i + 1, seq![t]);
    }
}

impl Parser {
    /// The object type after `DROP`, or `None` for `DROP OWNED`.
    #[verifier::rlimit(100)]
    #[verifier::spinoff_prover]
    fn parse_drop_head(&mut self) -> (r: Result<Option<ObjectType>, ParserError>)
        requires
            old(self).wf(),
        ensures
            final(self).wf(),
            agrees(&*old(self), &*final(self), r, drop_head_at(old(self).toks(), old(self).position()), |t: Option<ObjectType>| t),
    {
        let t = match self.peek_keyword() {
            Some(Keyword::TABLE) => {
                self.advance();
                ObjectType::Table
            },
            Some(Keyword::INDEX) => {
                self.advance();
                ObjectType::Index
            },
            Some(Keyword::SEQUENCE) => {
                self.advance();
                ObjectType::Sequence
            },
            Some(Keyword::VIEW) => {
                self.advance();
                ObjectType::View
            },
            Some(Keyword::SCHEMA) => {
                self.advance();
                ObjectType::Schema
            },
            Some(Keyword::DATABASE) => {
                self.advance();
                ObjectType::Database
            },
            Some(Keyword::TABLESPACE) => {
                self.advance();
                ObjectType::Tablespace
            },
            Some(Keyword::FUNCTION) => {
                self.advance();
                ObjectType::Function
            },
            Some(Keyword::PROCEDURE) => {
                self.advance();
                ObjectType::Procedure
            },
            Some(Keyword::TRIGGER) => {
                self.advance();
                ObjectType::Trigger
            },
            Some(Keyword::EXTENSION) => {
                self.advance();
                ObjectType::Extension
            },
            Some(Keyword::USER) => {
                self.advance();
                ObjectType::User
            },
            Some(Keyword::ROLE) => {
                self.advance();
                ObjectType::Role
            },
            Some(Keyword::GROUP_P) => {
                self.advance();
                ObjectType::Group
            },
            Some(Keyword::DIRECTORY) => {
                self.advance();
                ObjectType::Directory
            },
            Some(Keyword::EVENT) => {
                self.advance();
                ObjectType::Event
            },
            Some(Keyword::PUBLICATION) => {
                self.advance();
                ObjectType::Publication
            },
            Some(Keyword::SUBSCRIPTION) => {
                self.advance();
                ObjectType::Subscription
            },
            Some(Keyword::SYNONYM) => {
                self.advance();
                ObjectType::Synonym
            },
            Some(Keyword::MODEL) => {
                self.advance();
                ObjectType::Model
            },
            Some(Keyword::AGGREGATE) => {
                self.advance();
                ObjectType::Aggregate
            },
            Some(Keyword::CAST) => {
                self.advance();
                ObjectType::Cast
            },
            Some(Keyword::CONVERSION_P) => {
                self.advance();
                ObjectType::Conversion
            },
            Some(Keyword::DOMAIN_P) => {
                self.advance();
                ObjectType::Domain
            },
            Some(Keyword::RULE) => {
                self.advance();
                ObjectType::Rule
            },
            Some(Keyword::LANGUAGE) => {
                self.advance();
                ObjectType::Language
            },
            Some(Keyword::POLICY) => {
                self.advance();
                ObjectType::Policy
            },
            Some(Keyword::SERVER) => {
                self.advance();
                ObjectType::ForeignServer
            },
            Some(Keyword::TYPE_P) => {
                self.advance();
                ObjectType::Type
            },
            Some(Keyword::MATERIALIZED) => {
                self.advance();
                match self.expect_keyword(Keyword::VIEW) {
                    Ok(()) => {},
                    Err(e) => return Err(e),
                }
                ObjectType::MaterializedView
            },
            Some(Keyword::WORKLOAD) => {
                self.advance();
                match self.expect_keyword(Keyword::GROUP_P) {
                    Ok(()) => {},
                    Err(e) => return Err(e),
                }
                ObjectType::WorkloadGroup
            },
            Some(Keyword::AUDIT) => {
                self.advance();
                match self.expect_keyword(Keyword::POLICY) {
                    Ok(()) => {},
                    Err(e) => return Err(e),
                }
                ObjectType::AuditPolicy
            },
            Some(Keyword::MASKING) => {
                self.advance();
                match self.expect_keyword(Keyword::POLICY) {
                    Ok(()) => {},
                    Err(e) => return Err(e),
                }
                ObjectType::MaskingPolicy
            },
            Some(Keyword::ROW) => {
                self.advance();
                match self.expect_keyword(Keyword::LEVEL) {
                    Ok(()) => {},
                    Err(e) => return Err(e),
                }
                match self.expect_keyword(Keyword::SECURITY) {
                    Ok(()) => {},
                    Err(e) => return Err(e),
                }
                match self.expect_keyword(Keyword::POLICY) {
                    Ok(()) => {},
                    Err(e) => return Err(e),
                }
                ObjectType::RlsPolicy
            },
            Some(Keyword::DATA_P) => {
                self.advance();
                match self.expect_keyword(Keyword::SOURCE_P) {
                    Ok(()) => {},
                    Err(e) => return Err(e),
                }
                ObjectType::DataSource
            },
            Some(Keyword::SECURITY) => {
                self.advance();
                match self.expect_keyword(Keyword::LABEL) {
                    Ok(()) => {},
                    Err(e) => return Err(e),
                }
                ObjectType::SecurityLabel
            },
            Some(Keyword::WEAK) => {
                self.advance();
                match self.expect_keyword(Keyword::PASSWORD) {
                    Ok(()) => {},
                    Err(e) => return Err(e),
                }
                match self.expect_keyword(Keyword::DICTIONARY) {
                    Ok(()) => {},
                    Err(e) => return Err(e),
                }
                ObjectType::WeakPasswordDictionary
            },
            Some(Keyword::FOREIGN) => {
                self.advance();
                if self.match_keyword(Keyword::TABLE) {
                    self.advance();
                    ObjectType::ForeignTable
                } else if self.match_keyword(Keyword::DATA_P) {
                    self.advance();
                    match self.expect_keyword(Keyword::WRAPPER) {
                        Ok(()) => {},
                        Err(e) => return Err(e),
                    }
                    ObjectType::Fdw
                } else {
                    match self.expect_keyword(Keyword::SERVER) {
                        Ok(()) => {},
                        Err(e) => return Err(e),
                    }
                    ObjectType::ForeignServer
                }
            },
            Some(Keyword::RESOURCE) => {
                self.advance();
                if self.match_keyword(Keyword::POOL) {
                    self.advance();
                    ObjectType::ResourcePool
                } else {
                    match self.expect_keyword(Keyword::LABEL) {
                        Ok(()) => {},
                        Err(e) => return Err(e),
                    }
                    ObjectType::ResourceLabel
                }
            },
            Some(Keyword::NODE) => {
                self.advance();
                if self.match_keyword(Keyword::GROUP_P) {
                    self.advance();
                    ObjectType::NodeGroup
                } else {
                    ObjectType::Node
                }
            },
            Some(Keyword::TEXT_P) => {
                self.advance();
                match self.expect_keyword(Keyword::SEARCH) {
                    Ok(()) => {},
                    Err(e) => return Err(e),
                }
                if self.match_keyword(Keyword::CONFIGURATION) {
                    self.advance();
                    ObjectType::TextSearchConfig
                } else {
                    match self.expect_keyword(Keyword::DICTIONARY) {
                        Ok(()) => {},
                        Err(e) => return Err(e),
                    }
                    ObjectType::TextSearchDict
                }
            },
            Some(Keyword::OPERATOR) => {
                self.advance();
                if self.match_keyword(Keyword::CLASS) {
                    self.advance();
                    ObjectType::OpClass
                } else if self.match_keyword(Keyword::FAMILY) {
                    self.advance();
                    ObjectType::OpFamily
                } else {
                    ObjectType::Operator
                }
            },
            Some(Keyword::OWNED) => {
                self.advance();
                return Ok(None);
            },
            _ => {
                if self.match_ident_str("client") {
                    self.advance();
                    if !self.try_consume_ident_str("master") {
                        return Err(self.unexpected("MASTER after CLIENT"));
                    }
                    if !self.try_consume_ident_str("key") {
                        return Err(self.unexpected("KEY after CLIENT MASTER"));
                    }
                    ObjectType::User
                } else if self.match_ident_str("column") {
                    self.advance();
                    if !self.try_consume_ident_str("encryption") {
                        return Err(self.unexpected("ENCRYPTION after COLUMN"));
                    }
                    if !self.try_consume_ident_str("key") {
                        return Err(self.unexpected("KEY after COLUMN ENCRYPTION"));
                    }
                    ObjectType::User
                } else if self.match_ident_str("app") {
                    self.advance();
                    ObjectType::App
                } else if self.match_ident_str("global") {
                    self.advance();
                    ObjectType::Global
                } else if self.match_ident_str("procedure") {
                    self.advance();
                    ObjectType::Procedure
                } else {
                    return Err(self.unexpected("DROP object type"));
                }
            },
        };
        Ok(Some(t))
    }

    /// Parses a DROP statement (after `DROP`).
    pub fn parse_drop(&mut self) -> (r: Result<DropStatement, ParserError>)
        requires
            old(self).wf(),
        ensures
            final(self).wf(),
            agrees(&*old(self), &*final(self), r, drop_at(old(self).toks(), old(self).position()), |d: DropStatement| drop_parts(d)),
    {
        let head = match self.parse_drop_head() {
            Ok(h) => h,
            Err(e) => return Err(e),
        };
        match head {
            None => {
                match self.expect_keyword(Keyword::BY) {
                    Ok(()) => {},
                    Err(e) => return Err(e),
                }
                let name = match self.parse_object_name() {
                    Ok(n) => n,
                    Err(e) => return Err(e),
                };
                let mut names: Vec<Vec<String>> = Vec::new();
                names.push(name);
                assert(names_view(names@) =~= seq![strings_view(name@)]);
                Ok(DropStatement {
                    object_type: ObjectType::User,
                    if_exists: false,
                    names,
                    cascade: false,
                    purge: false,
                })
            },
            Some(obj_type) => {
                let if_exists = self.parse_if_exists();
                self.parse_drop_statement_with_type(obj_type, if_exists)
            },
        }
    }

    /// One or more object names separated by commas.
    pub fn parse_object_name_list(&mut self) -> (r: Result<Vec<Vec<String>>, ParserError>)
        requires
            old(self).wf(),
        ensures
            final(self).wf(),
            agrees(&*old(self), &*final(self), r, name_list_at(old(self).toks(), old(self).position()),
                |v: Vec<Vec<String>>| names_view(v@)),
            old(self).position() <= final(self).position(),
            r is Ok ==> old(self).position() < final(self).position(),
    {
        proof { lemma_object_name_bounds(self.toks(), self.position()); }
        let first = match self.parse_object_name() {
            Ok(n) => n,
            Err(e) => return Err(e),
        };
        let mut names: Vec<Vec<String>> = Vec::new();
        names.push(first);
        assert(names_view(names@) =~= seq![strings_view(first@)]);
        while self.match_token(&Token::Comma)
            invariant
                self.wf(),
                old(self).moved_to(&*self, self.position()),
                old(self).position() < self.position(),
                name_list_at(old(self).toks(), old(self).position()) == name_list_tail(self.toks(), self.position(), names_view(names@)),
            decreases self.toks().len() - self.position(),
        {
            self.advance();
            proof { lemma_object_name_bounds(self.toks(), self.position()); }
            let n = match self.parse_object_name() {
                Ok(n) => n,
                Err(e) => return Err(e),
            };
            let ghost before = names_view(names@);
            names.push(n);
            assert(names_view(names@) =~= before.push(strings_view(n@)));
        }
        Ok(names)
    }

    /// The names and the rest of a DROP statement of type `object_type`.
    pub fn parse_drop_statement_with_type(&mut self, object_type: ObjectType, if_exists: bool) -> (r: Result<DropStatement, ParserError>)
        requires
            old(self).wf(),
        ensures
            final(self).wf(),
            agrees(&*old(self), &*final(self), r, drop_body_at(old(self).toks(), old(self).position(), object_type, if_exists), |d: DropStatement| drop_parts(d)),
    {
        let first = match self.parse_object_name() {
            Ok(n) => n,
            Err(e) => return Err(e),
        };
        let mut names: Vec<Vec<String>> = Vec::new();
        names.push(first);
        assert(names_view(names@) =~= seq![strings_view(first@)]);
        while self.match_token(&Token::Comma)
            invariant
                self.wf(),
                old(self).moved_to(&*self, self.position()),
                name_list_at(old(self).toks(), old(self).position()) == name_list_tail(self.toks(), self.position(), names_view(names@)),
            decreases self.toks().len() - self.position(),
        {
            self.advance();
            proof { lemma_object_name_bounds(self.toks(), self.position()); }
            let n = match self.parse_object_name() {
                Ok(n) => n,
                Err(e) => return Err(e),
            };
            let ghost before = names_view(names@);
            names.push(n);
            assert(names_view(names@) =~= before.push(strings_view(n@)));
        }
        if object_type == ObjectType::Aggregate || object_type == ObjectType::Operator || object_type == ObjectType::Cast {
            if self.match_token(&Token::LParen) {
                self.advance();
                let mut depth: usize = 1;
                while depth > 0 && self.pos < self.tokens.len()
                    invariant
                        self.wf(),
                        old(self).moved_to(&*self, self.position()),
                        depth <= self.position(),
                        skip_parens_from(self.toks(), self.position(), depth as nat) == drop_tail_end(
                            old(self).toks(),
                            outcome_end(name_list_at(old(self).toks(), old(self).position())),
                            object_type,
                        ),
                    decreases self.toks().len() - self.position(),
                {
                    let step: usize = match self.peek() {
                        Token::LParen => 1,
                        Token::RParen => 2,
                        _ => 0,
                    };
                    if step == 1 {
                        depth = depth + 1;
                    } else if step == 2 {
                        depth = depth - 1;
                    }
                    self.advance();
                }
            }
        } else if object_type == ObjectType::OperatorClass || object_type == ObjectType::OperatorFamily {
            if self.match_keyword(Keyword::USING) {
                self.advance();
                let _ = self.parse_identifier();
            }
        } else if object_type == ObjectType::Rule {
            if self.match_keyword(Keyword::ON) {
                self.advance();
                let _ = self.parse_object_name();
            }
        }
        let cascade = self.try_consume_keyword(Keyword::CASCADE);
        let purge = self.try_consume_keyword(Keyword::PURGE);
        Ok(DropStatement { object_type, if_exists, names, cascade, purge })
    }
}

} // verus!
