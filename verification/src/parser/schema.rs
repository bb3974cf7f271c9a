//! CREATE SCHEMA (with the tables, indexes and sequences created in it) and CREATE
//! DATABASE LINK.
use vstd::prelude::*;
use crate::ast::{CreateDatabaseLinkStatement, CreateSchemaStatement, SchemaElement};
use crate::error::ParserError;
use crate::parser::create::ident_at;
use crate::parser::ddl::{has_if_not_exists, if_not_exists_end, kw_at, string_or_ident_at};
use crate::parser::expr::opt_text;
use crate::parser::{ident_word_at, tok_at, Outcome, Parser};
use crate::token::{keyword_text, Keyword, Token};

verus! {

/// The head of a schema as plain values: `IF NOT EXISTS`, the name, the owner, the
/// character set and the collation.
pub type SchemaHead = (bool, Option<Seq<char>>, Option<Seq<char>>, Option<Seq<char>>, Option<Seq<char>>);

/// `[name] [AUTHORIZATION role]` at `j`: the name is required where `AUTHORIZATION` does not
/// come first.
pub open spec fn schema_names_at(toks: Seq<Token>, j: int) -> Outcome<(Option<Seq<char>>, Option<Seq<char>>)> {
    if kw_at(toks, j, Keyword::AUTHORIZATION) {
        match ident_at(toks, j + 1) {
            Ok((a, q)) => Ok(((None, Some(a)), q)),
            Err(e) => Err(e),
        }
    } else {
        match ident_at(toks, j) {
            Err(e) => Err(e),
            Ok((n, j1)) => if kw_at(toks, j1, Keyword::AUTHORIZATION) {
                match ident_at(toks, j1 + 1) {
                    Ok((a, q)) => Ok(((Some(n), Some(a)), q)),
                    Err(e) => Err(e),
                }
            } else {
                Ok(((Some(n), None), j1))
            },
        }
    }
}

/// `[CHARACTER SET cs] [COLLATE c]` at `k`.
pub open spec fn schema_charset_at(toks: Seq<Token>, k: int) -> Outcome<(Option<Seq<char>>, Option<Seq<char>>)> {
    let cs: Outcome<Option<Seq<char>>> = if kw_at(toks, k, Keyword::CHARACTER) {
        if !kw_at(toks, k + 1, Keyword::SET) {
            Err((k + 1, keyword_text(Keyword::SET)))
        } else {
            match ident_at(toks, k + 2) {
                Ok((c, q)) => Ok((Some(c), q)),
                Err(e) => Err(e),
            }
        }
    } else {
        Ok((None, k))
    };
    match cs {
        Err(e) => Err(e),
        Ok((c, m)) => if kw_at(toks, m, Keyword::COLLATE) {
            match ident_at(toks, m + 1) {
                Ok((co, q)) => Ok(((c, Some(co)), q)),
                Err(e) => Err(e),
            }
        } else {
            Ok(((c, None), m))
        },
    }
}

/// `SCHEMA [IF NOT EXISTS] [name] [AUTHORIZATION role] [CHARACTER SET cs] [COLLATE c]` at `i`.
pub open spec fn schema_head_at(toks: Seq<Token>, i: int) -> Outcome<SchemaHead> {
    if !kw_at(toks, i, Keyword::SCHEMA) {
        Err((i, keyword_text(Keyword::SCHEMA)))
    } else {
        let j = if_not_exists_end(toks, i + 1);
        match schema_names_at(toks, j) {
            Err(e) => Err(e),
            Ok(((n, a), k)) => match schema_charset_at(toks, k) {
                Err(e) => Err(e),
                Ok(((c, co), m)) => Ok(((has_if_not_exists(toks, i + 1), n, a, c, co), m)),
            },
        }
    }
}

/// `s` has the head `h`.
pub open spec fn schema_head_matches(s: CreateSchemaStatement, h: SchemaHead) -> bool {
    &&& s.if_not_exists == h.0
    &&& opt_text(s.name) == h.1
    &&& opt_text(s.authorization) == h.2
    &&& opt_text(s.character_set) == h.3
    &&& opt_text(s.collate) == h.4
}

/// A database link as plain values: name, user, password, and connection string.
pub type LinkView = (Seq<char>, Option<Seq<char>>, Option<Seq<char>>, Option<Seq<char>>);

/// `DATABASE LINK name [CONNECT TO user] [IDENTIFIED BY 'pw'] [USING 'text']` at `i`. A
/// parenthesized `USING (...)` description is reported.
pub open spec fn database_link_at(toks: Seq<Token>, i: int) -> Outcome<LinkView> {
    if !kw_at(toks, i, Keyword::DATABASE) {
        Err((i, keyword_text(Keyword::DATABASE)))
    } else if !ident_word_at(toks, i + 1, "LINK"@) {
        Err((i + 1, "LINK"@))
    } else {
        match ident_at(toks, i + 2) {
            Err(e) => Err(e),
            Ok((name, k)) => {
                let user: Outcome<Option<Seq<char>>> = if kw_at(toks, k, Keyword::CONNECT) {
                    if !kw_at(toks, k + 1, Keyword::TO) {
                        Err((k + 1, keyword_text(Keyword::TO)))
                    } else {
                        match string_or_ident_at(toks, k + 2) {
                            Ok((u, q)) => Ok((Some(u), q)),
                            Err(e) => Err(e),
                        }
                    }
                } else {
                    Ok((None, k))
                };
                match user {
                    Err(e) => Err(e),
                    Ok((u, m)) => {
                        let pw: Outcome<Option<Seq<char>>> = if kw_at(toks, m, Keyword::IDENTIFIED) {
                            if !kw_at(toks, m + 1, Keyword::BY) {
                                Err((m + 1, keyword_text(Keyword::BY)))
                            } else {
                                match tok_at(toks, m + 2) {
                                    Token::StringLiteral(s) => Ok((Some(s@), m + 3)),
                                    _ => Err((m + 2, "string literal"@)),
                                }
                            }
                        } else {
                            Ok((None, m))
                        };
                        match pw {
                            Err(e) => Err(e),
                            Ok((p, n)) => if kw_at(toks, n, Keyword::USING) {
                                match tok_at(toks, n + 1) {
                                    Token::StringLiteral(s) => Ok(((name, u, p, Some(s@)), n + 2)),
                                    _ => Err((n + 1, "string literal"@)),
                                }
                            } else {
                                Ok(((name, u, p, None), n))
                            },
                        }
                    },
                }
            },
        }
    }
}

impl Parser {
    /// `SCHEMA [IF NOT EXISTS] [name] [AUTHORIZATION role] [CHARACTER SET cs] [COLLATE c]`
    /// followed by `CREATE TABLE`, `CREATE INDEX` and `CREATE SEQUENCE` elements. A `CREATE`
    /// followed by anything else ends the list (the `CREATE` is read); a `CREATE VIEW`
    /// element is reported, since this library holds no query parser.
    pub fn parse_create_schema(&mut self) -> (r: Result<CreateSchemaStatement, ParserError>)
        requires
            old(self).wf(),
        ensures
            old(self).steps(&*final(self)),
            match schema_head_at(old(self).toks(), old(self).position()) {
                Err((q, e)) => r is Err && old(self).moved_to(&*final(self), q) && old(self).reports(r->Err_0, q, e),
                Ok((h, m)) => (r is Ok ==> schema_head_matches(r->Ok_0, h))
                    && (!kw_at(old(self).toks(), m, Keyword::CREATE) ==> r is Ok && r->Ok_0.elements@.len() == 0
                        && old(self).moved_to(&*final(self), m)),
            },
    {
        match self.expect_keyword(Keyword::SCHEMA) {
            Ok(()) => {},
            Err(e) => return Err(e),
        }
        let if_not_exists = self.parse_if_not_exists();
        let (name, authorization): (Option<String>, Option<String>) = if self.match_keyword(Keyword::AUTHORIZATION) {
            self.advance();
            match self.parse_identifier() {
                Ok(a) => (None, Some(a)),
                Err(e) => return Err(e),
            }
        } else {
            let n = match self.parse_identifier() {
                Ok(n) => n,
                Err(e) => return Err(e),
            };
            if self.match_keyword(Keyword::AUTHORIZATION) {
                self.advance();
                match self.parse_identifier() {
                    Ok(a) => (Some(n), Some(a)),
                    Err(e) => return Err(e),
                }
            } else {
                (Some(n), None)
            }
        };
        let character_set: Option<String> = if self.match_keyword(Keyword::CHARACTER) {
            self.advance();
            match self.expect_keyword(Keyword::SET) {
                Ok(()) => {},
                Err(e) => return Err(e),
            }
            match self.parse_identifier() {
                Ok(c) => Some(c),
                Err(e) => return Err(e),
            }
        } else {
            None
        };
        let collate: Option<String> = if self.match_keyword(Keyword::COLLATE) {
            self.advance();
            match self.parse_identifier() {
                Ok(c) => Some(c),
                Err(e) => return Err(e),
            }
        } else {
            None
        };
        let ghost m = self.position();
        let mut elements: Vec<SchemaElement> = Vec::new();
        loop
            invariant
                old(self).steps(&*self),
                schema_head_at(old(self).toks(), old(self).position()) is Ok,
                schema_head_at(old(self).toks(), old(self).position())->Ok_0.1 == m,
                !kw_at(old(self).toks(), m, Keyword::CREATE) ==> elements@.len() == 0 && self.position() == m
                    && old(self).moved_to(&*self, m),
            ensures
                old(self).steps(&*self),
                !kw_at(old(self).toks(), m, Keyword::CREATE) ==> elements@.len() == 0 && old(self).moved_to(&*self, m),
            decreases self.toks().len() - self.position(),
        {
            if !self.match_keyword(Keyword::CREATE) {
                break;
            }
            self.advance();
            let element = match self.peek_keyword() {
                Some(Keyword::TABLE) => match self.parse_create_table(false, false) {
                    Ok(t) => SchemaElement::Table(t),
                    Err(e) => return Err(e),
                },
                Some(Keyword::INDEX) => match self.parse_create_index(false) {
                    Ok(x) => SchemaElement::Index(x),
                    Err(e) => return Err(e),
                },
                Some(Keyword::SEQUENCE) => match self.parse_create_sequence() {
                    Ok(q) => SchemaElement::Sequence(q),
                    Err(e) => return Err(e),
                },
                Some(Keyword::VIEW) => return Err(self.unexpected("TABLE, INDEX or SEQUENCE")),
                _ => break,
            };
            elements.push(element);
        }
        Ok(CreateSchemaStatement { if_not_exists, name, authorization, character_set, collate, elements })
    }

    /// `DATABASE LINK name [CONNECT TO user] [IDENTIFIED BY 'password'] [USING 'text']`.
    /// A parenthesized `USING (...)` description is reported.
    pub fn parse_create_database_link(&mut self, public_link: bool) -> (r: Result<CreateDatabaseLinkStatement, ParserError>)
        requires
            old(self).wf(),
        ensures
            old(self).steps(&*final(self)),
            match database_link_at(old(self).toks(), old(self).position()) {
                Ok(((name, u, p, x), q)) => r is Ok && r->Ok_0.name@ == name && r->Ok_0.public_link == public_link
                    && opt_text(r->Ok_0.user) == u && opt_text(r->Ok_0.password) == p && opt_text(r->Ok_0.using_clause) == x
                    && old(self).moved_to(&*final(self), q),
                Err((q, e)) => r is Err && old(self).moved_to(&*final(self), q) && old(self).reports(r->Err_0, q, e),
            },
    {
        match self.expect_keyword(Keyword::DATABASE) {
            Ok(()) => {},
            Err(e) => return Err(e),
        }
        if !self.match_ident_str("LINK") {
            return Err(self.unexpected("LINK"));
        }
        self.advance();
        let name = match self.parse_identifier() {
            Ok(n) => n,
            Err(e) => return Err(e),
        };
        let user: Option<String> = if self.match_keyword(Keyword::CONNECT) {
            self.advance();
            match self.expect_keyword(Keyword::TO) {
                Ok(()) => {},
                Err(e) => return Err(e),
            }
            match self.parse_string_or_ident() {
                Ok(u) => Some(u),
                Err(e) => return Err(e),
            }
        } else {
            None
        };
        let password: Option<String> = if self.match_keyword(Keyword::IDENTIFIED) {
            self.advance();
            match self.expect_keyword(Keyword::BY) {
                Ok(()) => {},
                Err(e) => return Err(e),
            }
            match self.parse_string_literal() {
                Ok(p) => Some(p),
                Err(e) => return Err(e),
            }
        } else {
            None
        };
        let using_clause: Option<String> = if self.match_keyword(Keyword::USING) {
            self.advance();
            match self.parse_string_literal() {
                Ok(u) => Some(u),
                Err(e) => return Err(e),
            }
        } else {
            None
        };
        Ok(CreateDatabaseLinkStatement { name, public_link, user, password, using_clause })
    }
}

} // verus!
