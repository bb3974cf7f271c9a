//! CREATE statements that stand on their own clauses (sequences, tablespaces,
//! databases, roles) and TRUNCATE.
use vstd::prelude::*;
use crate::ast::{CreateDatabaseStatement, CreateSequenceStatement, Expr, CreateTablespaceStatement, RoleOption, TruncateStatement};
use crate::error::ParserError;
use crate::parser::ddl::{
    agrees, bool_literal_at, has_if_not_exists, if_not_exists_end, kw_at, name_list_at, string_or_ident_at,
    lemma_object_name_bounds,
};
use crate::parser::expr::{leaf_end, leaf_value, lone_leaf_at, map_outcome, opt_text};
use crate::parser::{ident_text, ident_word_at, keyword_at, names_view, object_name_at, strings_view, tok_at, Outcome, Parser};
use crate::text::{strs_equal, to_lowercase, unicode_lowercase};
use crate::token::{keyword_text, Keyword, Token};

verus! {

// ────────────────────────────────────────────────────────────────
// TRUNCATE
// ────────────────────────────────────────────────────────────────

/// A TRUNCATE statement's parts: the tables, CASCADE, RESTART IDENTITY, CONTINUE IDENTITY.
pub type TruncateParts = (Seq<Seq<Seq<char>>>, bool, bool, bool);

pub open spec fn truncate_parts(t: TruncateStatement) -> TruncateParts {
    (names_view(t.tables@), t.cascade, t.restart_identity, t.continue_identity)
}

/// A keyword at `i` optionally followed by `IDENTITY`: whether the keyword is there,
/// and where the phrase ends.
pub open spec fn identity_phrase(toks: Seq<Token>, i: int, k: Keyword) -> (bool, int) {
    if kw_at(toks, i, k) {
        (true, if kw_at(toks, i + 1, Keyword::IDENTITY_P) { i + 2 } else { i + 1 })
    } else {
        (false, i)
    }
}

/// `[TABLE] name, ... [CASCADE] [RESTART [IDENTITY] | CONTINUE [IDENTITY]]` at `i`
/// (after `TRUNCATE`).
pub open spec fn truncate_at(toks: Seq<Token>, i: int) -> Outcome<TruncateParts> {
    let j = if kw_at(toks, i, Keyword::TABLE) { i + 1 } else { i };
    match name_list_at(toks, j) {
        Err(e) => Err(e),
        Ok((tables, k)) => {
            let cascade = kw_at(toks, k, Keyword::CASCADE);
            let k1 = if cascade { k + 1 } else { k };
            let (restart, k2) = identity_phrase(toks, k1, Keyword::RESTART);
            let (cont, k3) = if restart { (false, k2) } else { identity_phrase(toks, k2, Keyword::CONTINUE_P) };
            Ok(((tables, cascade, restart, cont), k3))
        },
    }
}

// ────────────────────────────────────────────────────────────────
// CREATE TABLESPACE
// ────────────────────────────────────────────────────────────────

/// A tablespace's parts: name, owner, RELATIVE, location, MAXSIZE.
pub type TablespaceParts = (Seq<char>, Option<Seq<char>>, bool, Seq<char>, Option<Seq<char>>);

pub open spec fn tablespace_parts(t: CreateTablespaceStatement) -> TablespaceParts {
    (t.name@, opt_text(t.owner), t.relative, t.location@, opt_text(t.maxsize))
}

/// `TABLESPACE name [OWNER user] [RELATIVE] LOCATION 'dir' [MAXSIZE 'size']` at `i`.
/// A location may be dollar-quoted; a `MAXSIZE` without a string literal reads as empty.
pub open spec fn tablespace_at(toks: Seq<Token>, i: int) -> Outcome<TablespaceParts> {
    if !kw_at(toks, i, Keyword::TABLESPACE) {
        Err((i, "TABLESPACE"@))
    } else {
        match ident_text(tok_at(toks, i + 1)) {
            None => Err((i + 1, "identifier"@)),
            Some(name) => {
                let j = i + 2;
                let owner: Outcome<Option<Seq<char>>> = if kw_at(toks, j, Keyword::OWNER) {
                    match ident_text(tok_at(toks, j + 1)) {
                        Some(o) => Ok((Some(o), j + 2)),
                        None => Err((j + 1, "identifier"@)),
                    }
                } else {
                    Ok((None, j))
                };
                match owner {
                    Err(e) => Err(e),
                    Ok((owner, k)) => {
                        let relative = kw_at(toks, k, Keyword::RELATIVE_P);
                        let k2 = if relative { k + 1 } else { k };
                        if !kw_at(toks, k2, Keyword::LOCATION) {
                            Err((k2, "LOCATION"@))
                        } else {
                            let location: Option<Seq<char>> = match tok_at(toks, k2 + 1) {
                                Token::StringLiteral(s) => Some(s@),
                                Token::DollarString { body, .. } => Some(body@),
                                _ => None,
                            };
                            match location {
                                None => Err((k2 + 1, "string literal for location"@)),
                                Some(location) => {
                                    let m = k2 + 2;
                                    if kw_at(toks, m, Keyword::MAXSIZE) {
                                        match tok_at(toks, m + 1) {
                                            Token::StringLiteral(s) => Ok(((name, owner, relative, location, Some(s@)), m + 2)),
                                            _ => Ok(((name, owner, relative, location, Some(seq![])), m + 1)),
                                        }
                                    } else {
                                        Ok(((name, owner, relative, location, None), m))
                                    }
                                },
                            }
                        }
                    },
                }
            },
        }
    }
}

// ────────────────────────────────────────────────────────────────
// CREATE DATABASE
// ────────────────────────────────────────────────────────────────

/// The options of CREATE DATABASE, as the contracts see them.
pub struct DbOptions {
    pub owner: Option<Seq<char>>,
    pub template: Option<Seq<char>>,
    pub encoding: Option<Seq<char>>,
    pub locale: Option<Seq<char>>,
    pub lc_collate: Option<Seq<char>>,
    pub lc_ctype: Option<Seq<char>>,
    pub tablespace: Option<Seq<char>>,
    pub allow_connections: Option<bool>,
    pub connection_limit: Option<i32>,
    pub is_template: Option<bool>,
}

pub open spec fn no_db_options() -> DbOptions {
    DbOptions {
        owner: None,
        template: None,
        encoding: None,
        locale: None,
        lc_collate: None,
        lc_ctype: None,
        tablespace: None,
        allow_connections: None,
        connection_limit: None,
        is_template: None,
    }
}

pub open spec fn db_options(d: CreateDatabaseStatement) -> DbOptions {
    DbOptions {
        owner: opt_text(d.owner),
        template: opt_text(d.template),
        encoding: opt_text(d.encoding),
        locale: opt_text(d.locale),
        lc_collate: opt_text(d.lc_collate),
        lc_ctype: opt_text(d.lc_ctype),
        tablespace: opt_text(d.tablespace),
        allow_connections: d.allow_connections,
        connection_limit: d.connection_limit,
        is_template: d.is_template,
    }
}

/// The option name a token spells: an identifier lower-cased, a keyword as written.
pub open spec fn db_option_name(t: Token) -> Option<Seq<char>> {
    match t {
        Token::Ident(s) => Some(unicode_lowercase(s@)),
        Token::Keyword(k) => Some(keyword_text(k)),
        _ => None,
    }
}

/// The option names CREATE DATABASE knows.
pub open spec fn is_db_option(n: Seq<char>) -> bool {
    n == "owner"@ || n == "template"@ || n == "encoding"@ || n == "locale"@ || n == "lc_collate"@
        || n == "lc_ctype"@ || n == "tablespace"@ || n == "allow_connections"@ || n == "connection_limit"@
        || n == "is_template"@ || n == "dbcompatibility"@ || n == "compatibility"@ || n == "dbtimezone"@
}

/// Where a value that is read but not kept ends (a failed read leaves the cursor).
pub open spec fn lenient_end(o: Outcome<Seq<char>>) -> int {
    match o {
        Ok((_, j)) => j,
        Err((j, _)) => j,
    }
}

/// The value of the option `n` at `j`, recorded into `acc`.
pub open spec fn db_option_value(toks: Seq<Token>, j: int, n: Seq<char>, acc: DbOptions) -> Outcome<DbOptions> {
    if n == "owner"@ {
        match ident_text(tok_at(toks, j)) {
            Some(v) => Ok((DbOptions { owner: Some(v), ..acc }, j + 1)),
            None => Err((j, "identifier"@)),
        }
    } else if n == "tablespace"@ {
        match ident_text(tok_at(toks, j)) {
            Some(v) => Ok((DbOptions { tablespace: Some(v), ..acc }, j + 1)),
            None => Err((j, "identifier"@)),
        }
    } else if n == "template"@ || n == "encoding"@ || n == "locale"@ || n == "lc_collate"@ || n == "lc_ctype"@ {
        match string_or_ident_at(toks, j) {
            Err(e) => Err(e),
            Ok((v, k)) => Ok((
                if n == "template"@ {
                    DbOptions { template: Some(v), ..acc }
                } else if n == "encoding"@ {
                    DbOptions { encoding: Some(v), ..acc }
                } else if n == "locale"@ {
                    DbOptions { locale: Some(v), ..acc }
                } else if n == "lc_collate"@ {
                    DbOptions { lc_collate: Some(v), ..acc }
                } else {
                    DbOptions { lc_ctype: Some(v), ..acc }
                },
                k,
            )),
        }
    } else if n == "allow_connections"@ || n == "is_template"@ {
        match bool_literal_at(toks, j) {
            Err(e) => Err(e),
            Ok((b, k)) => Ok((
                if n == "allow_connections"@ {
                    DbOptions { allow_connections: Some(b), ..acc }
                } else {
                    DbOptions { is_template: Some(b), ..acc }
                },
                k,
            )),
        }
    } else if n == "connection_limit"@ {
        match tok_at(toks, j) {
            Token::Integer(v) => Ok((DbOptions { connection_limit: Some(v as i32), ..acc }, j + 1)),
            Token::Keyword(Keyword::MINVALUE) => Ok((DbOptions { connection_limit: Some(-1i32), ..acc }, j + 1)),
            _ => Err((j, "integer"@)),
        }
    } else {
        Ok((acc, lenient_end(string_or_ident_at(toks, j))))
    }
}

/// The options from `i` on: each is a known name, an optional `=`, a value and an
/// optional `,`; the list stops at anything else (an unknown name is left unread).
pub open spec fn db_options_from(toks: Seq<Token>, i: int, acc: DbOptions) -> Outcome<DbOptions>
    decreases toks.len() - i,
{
    match db_option_name(tok_at(toks, i)) {
        None => Ok((acc, i)),
        Some(n) => if !is_db_option(n) || i >= toks.len() {
            Ok((acc, i))
        } else {
            let j = if tok_at(toks, i + 1) is Eq { i + 2 } else { i + 1 };
            match db_option_value(toks, j, n, acc) {
                Err(e) => Err(e),
                Ok((acc2, k)) => {
                    let k2 = if tok_at(toks, k) is Comma { k + 1 } else { k };
                    if i < k2 <= toks.len() {
                        db_options_from(toks, k2, acc2)
                    } else {
                        Ok((acc2, k2))
                    }
                },
            }
        },
    }
}

/// `DATABASE name [WITH] options` at `i`.
pub open spec fn database_at(toks: Seq<Token>, i: int) -> Outcome<(Seq<char>, DbOptions)> {
    if !kw_at(toks, i, Keyword::DATABASE) {
        Err((i, "DATABASE"@))
    } else {
        match ident_text(tok_at(toks, i + 1)) {
            None => Err((i + 1, "identifier"@)),
            Some(name) => {
                let j = if kw_at(toks, i + 2, Keyword::WITH) { i + 3 } else { i + 2 };
                match db_options_from(toks, j, no_db_options()) {
                    Err(e) => Err(e),
                    Ok((opts, k)) => Ok(((name, opts), k)),
                }
            },
        }
    }
}

/// `r` with its success value replaced by `v`.
pub open spec fn with_value<T>(r: Result<(), ParserError>, v: T) -> Result<T, ParserError> {
    match r {
        Ok(()) => Ok(v),
        Err(e) => Err(e),
    }
}

impl Parser {
    /// `TRUNCATE`'s body: `[TABLE] name, ... [CASCADE] [RESTART IDENTITY | CONTINUE IDENTITY]`.
    pub fn parse_truncate(&mut self) -> (r: Result<TruncateStatement, ParserError>)
        requires
            old(self).wf(),
        ensures
            final(self).wf(),
            agrees(&*old(self), &*final(self), r, truncate_at(old(self).toks(), old(self).position()),
                |t: TruncateStatement| truncate_parts(t)),
    {
        if self.match_keyword(Keyword::TABLE) {
            self.advance();
        }
        let tables = match self.parse_object_name_list() {
            Ok(t) => t,
            Err(e) => return Err(e),
        };
        let cascade = self.try_consume_keyword(Keyword::CASCADE);
        let restart_identity = if self.try_consume_keyword(Keyword::RESTART) {
            let _ = self.try_consume_keyword(Keyword::IDENTITY_P);
            true
        } else {
            false
        };
        let continue_identity = if !restart_identity && self.try_consume_keyword(Keyword::CONTINUE_P) {
            let _ = self.try_consume_keyword(Keyword::IDENTITY_P);
            true
        } else {
            false
        };
        Ok(TruncateStatement { tables, cascade, restart_identity, continue_identity })
    }

    /// `TABLESPACE name [OWNER user] [RELATIVE] LOCATION 'dir' [MAXSIZE 'size']`.
    pub fn parse_create_tablespace(&mut self) -> (r: Result<CreateTablespaceStatement, ParserError>)
        requires
            old(self).wf(),
        ensures
            final(self).wf(),
            agrees(&*old(self), &*final(self), r, tablespace_at(old(self).toks(), old(self).position()),
                |t: CreateTablespaceStatement| tablespace_parts(t)),
    {
        match self.expect_keyword(Keyword::TABLESPACE) {
            Ok(()) => {},
            Err(e) => return Err(e),
        }
        let name = match self.parse_identifier() {
            Ok(n) => n,
            Err(e) => return Err(e),
        };
        let owner: Option<String> = if self.match_keyword(Keyword::OWNER) {
            self.advance();
            match self.parse_identifier() {
                Ok(o) => Some(o),
                Err(e) => return Err(e),
            }
        } else {
            None
        };
        let relative = self.try_consume_keyword(Keyword::RELATIVE_P);
        match self.expect_keyword(Keyword::LOCATION) {
            Ok(()) => {},
            Err(e) => return Err(e),
        }
        let location: Option<String> = match self.peek() {
            Token::StringLiteral(s) => Some(s.clone()),
            Token::DollarString { body, .. } => Some(body.clone()),
            _ => None,
        };
        let location = match location {
            Some(l) => {
                self.advance();
                l
            },
            None => return Err(self.unexpected("string literal for location")),
        };
        let maxsize: Option<String> = if self.match_keyword(Keyword::MAXSIZE) {
            self.advance();
            match self.parse_string_literal() {
                Ok(s) => Some(s),
                Err(_) => Some(String::new()),
            }
        } else {
            None
        };
        Ok(CreateTablespaceStatement { name, owner, relative, location, maxsize })
    }

    /// The value of the CREATE DATABASE option `n` (already lower-cased), into `stmt`.
    fn parse_db_option_value(&mut self, n: &str, stmt: &mut CreateDatabaseStatement) -> (r: Result<(), ParserError>)
        requires
            old(self).wf(),
            is_db_option(n@),
        ensures
            final(self).wf(),
            agrees(&*old(self), &*final(self), with_value(r, *final(stmt)),
                db_option_value(old(self).toks(), old(self).position(), n@, db_options(*old(stmt))),
                |d: CreateDatabaseStatement| db_options(d)),
            final(stmt).name == old(stmt).name,
    {
        if strs_equal(n, "owner") {
            match self.parse_identifier() {
                Ok(v) => stmt.owner = Some(v),
                Err(e) => return Err(e),
            }
        } else if strs_equal(n, "tablespace") {
            match self.parse_identifier() {
                Ok(v) => stmt.tablespace = Some(v),
                Err(e) => return Err(e),
            }
        } else if strs_equal(n, "template") || strs_equal(n, "encoding") || strs_equal(n, "locale")
            || strs_equal(n, "lc_collate") || strs_equal(n, "lc_ctype") {
            let v = match self.parse_string_or_ident() {
                Ok(v) => v,
                Err(e) => return Err(e),
            };
            if strs_equal(n, "template") {
                stmt.template = Some(v);
            } else if strs_equal(n, "encoding") {
                stmt.encoding = Some(v);
            } else if strs_equal(n, "locale") {
                stmt.locale = Some(v);
            } else if strs_equal(n, "lc_collate") {
                stmt.lc_collate = Some(v);
            } else {
                stmt.lc_ctype = Some(v);
            }
        } else if strs_equal(n, "allow_connections") || strs_equal(n, "is_template") {
            let b = match self.parse_bool_literal() {
                Ok(b) => b,
                Err(e) => return Err(e),
            };
            if strs_equal(n, "allow_connections") {
                stmt.allow_connections = Some(b);
            } else {
                stmt.is_template = Some(b);
            }
        } else if strs_equal(n, "connection_limit") {
            let value: Option<i64> = match self.peek() {
                Token::Integer(v) => Some(*v),
                _ => None,
            };
            match value {
                Some(v) => {
                    stmt.connection_limit = Some(v as i32);
                    self.advance();
                },
                None => if self.match_keyword(Keyword::MINVALUE) {
                    self.advance();
                    stmt.connection_limit = Some(-1);
                } else {
                    return Err(self.unexpected("integer"));
                },
            }
        } else {
            let _ = self.parse_string_or_ident();
        }
        Ok(())
    }

    /// `DATABASE name [WITH] [option [=] value [,]]...`. Options are known names written
    /// as identifiers (any case); reading stops at the first token that is not one.
    pub fn parse_create_database(&mut self) -> (r: Result<CreateDatabaseStatement, ParserError>)
        requires
            old(self).wf(),
        ensures
            final(self).wf(),
            agrees(&*old(self), &*final(self), r, database_at(old(self).toks(), old(self).position()),
                |d: CreateDatabaseStatement| (d.name@, db_options(d))),
    {
        match self.expect_keyword(Keyword::DATABASE) {
            Ok(()) => {},
            Err(e) => return Err(e),
        }
        let name = match self.parse_identifier() {
            Ok(n) => n,
            Err(e) => return Err(e),
        };
        let mut stmt = CreateDatabaseStatement {
            name,
            owner: None,
            template: None,
            encoding: None,
            locale: None,
            lc_collate: None,
            lc_ctype: None,
            tablespace: None,
            allow_connections: None,
            connection_limit: None,
            is_template: None,
        };
        if self.match_keyword(Keyword::WITH) {
            self.advance();
        }
        loop
            invariant
                self.wf(),
                old(self).moved_to(&*self, self.position()),
                stmt.name@ == ident_text(tok_at(old(self).toks(), old(self).position() + 1))->0,
                database_at(old(self).toks(), old(self).position()) == match db_options_from(self.toks(), self.position(), db_options(stmt)) {
                    Err(e) => Err(e),
                    Ok((opts, k)) => Ok(((stmt.name@, opts), k)),
                },
            ensures
                db_options_from(self.toks(), self.position(), db_options(stmt)) == Ok::<(DbOptions, int), (int, Seq<char>)>((db_options(stmt), self.position())),
            decreases self.toks().len() - self.position(),
        {
            let opt_name: Option<String> = match self.peek() {
                Token::Ident(s) => Some(to_lowercase(s.as_str())),
                Token::Keyword(k) => Some(String::from_str(k.as_str())),
                _ => None,
            };
            let opt_name = match opt_name {
                Some(n) => n,
                None => break,
            };
            if !self.known_db_option(opt_name.as_str()) {
                break;
            }
            self.advance();
            if self.match_token(&Token::Eq) {
                self.advance();
            }
            match self.parse_db_option_value(opt_name.as_str(), &mut stmt) {
                Ok(()) => {},
                Err(e) => return Err(e),
            }
            if self.match_token(&Token::Comma) {
                self.advance();
            }
        }
        Ok(stmt)
    }

    fn known_db_option(&self, n: &str) -> (r: bool)
        ensures
            r == is_db_option(n@),
    {
        strs_equal(n, "owner") || strs_equal(n, "template") || strs_equal(n, "encoding") || strs_equal(n, "locale")
            || strs_equal(n, "lc_collate") || strs_equal(n, "lc_ctype") || strs_equal(n, "tablespace")
            || strs_equal(n, "allow_connections") || strs_equal(n, "connection_limit") || strs_equal(n, "is_template")
            || strs_equal(n, "dbcompatibility") || strs_equal(n, "compatibility") || strs_equal(n, "dbtimezone")
    }
}

// ────────────────────────────────────────────────────────────────
// Role options (CREATE ROLE / USER / GROUP)
// ────────────────────────────────────────────────────────────────

/// A role option as the contracts see it.
pub enum RoleOptView {
    Superuser(bool),
    CreateDb(bool),
    CreateRole(bool),
    Inherit(bool),
    Login(bool),
    Replication(bool),
    BypassRls(bool),
    ConnectionLimit(i64),
    EncryptedPassword(Seq<char>),
    UnencryptedPassword(Seq<char>),
    ValidUntil(Seq<char>),
    InRole(Seq<Seq<char>>),
    Role(Seq<Seq<char>>),
    Admin(Seq<Seq<char>>),
    User(Seq<Seq<char>>),
    Sysid(i64),
    DefaultTablespace(Seq<char>),
    Tablespace(Seq<char>),
    Profile(Seq<char>),
    AccountLock(bool),
    AuditAdmin(bool),
    MonAdmin(bool),
    OprAdmin(bool),
    PolAdmin(bool),
    Persistence(bool),
    Independent(bool),
    Useft(bool),
    VcAdmin(bool),
    Permit(bool),
}

pub open spec fn role_opt_view(o: RoleOption) -> RoleOptView {
    match o {
        RoleOption::Superuser(b) => RoleOptView::Superuser(b),
        RoleOption::CreateDb(b) => RoleOptView::CreateDb(b),
        RoleOption::CreateRole(b) => RoleOptView::CreateRole(b),
        RoleOption::Inherit(b) => RoleOptView::Inherit(b),
        RoleOption::Login(b) => RoleOptView::Login(b),
        RoleOption::Replication(b) => RoleOptView::Replication(b),
        RoleOption::BypassRls(b) => RoleOptView::BypassRls(b),
        RoleOption::ConnectionLimit(n) => RoleOptView::ConnectionLimit(n),
        RoleOption::EncryptedPassword(s) => RoleOptView::EncryptedPassword(s@),
        RoleOption::UnencryptedPassword(s) => RoleOptView::UnencryptedPassword(s@),
        RoleOption::ValidUntil(s) => RoleOptView::ValidUntil(s@),
        RoleOption::InRole(v) => RoleOptView::InRole(strings_view(v@)),
        RoleOption::Role(v) => RoleOptView::Role(strings_view(v@)),
        RoleOption::Admin(v) => RoleOptView::Admin(strings_view(v@)),
        RoleOption::User(v) => RoleOptView::User(strings_view(v@)),
        RoleOption::Sysid(n) => RoleOptView::Sysid(n),
        RoleOption::DefaultTablespace(s) => RoleOptView::DefaultTablespace(s@),
        RoleOption::Tablespace(s) => RoleOptView::Tablespace(s@),
        RoleOption::Profile(s) => RoleOptView::Profile(s@),
        RoleOption::AccountLock(b) => RoleOptView::AccountLock(b),
        RoleOption::AuditAdmin(b) => RoleOptView::AuditAdmin(b),
        RoleOption::MonAdmin(b) => RoleOptView::MonAdmin(b),
        RoleOption::OprAdmin(b) => RoleOptView::OprAdmin(b),
        RoleOption::PolAdmin(b) => RoleOptView::PolAdmin(b),
        RoleOption::Persistence(b) => RoleOptView::Persistence(b),
        RoleOption::Independent(b) => RoleOptView::Independent(b),
        RoleOption::Useft(b) => RoleOptView::Useft(b),
        RoleOption::VcAdmin(b) => RoleOptView::VcAdmin(b),
        RoleOption::Permit(b) => RoleOptView::Permit(b),
    }
}

pub open spec fn role_opts_view(v: Seq<RoleOption>) -> Seq<RoleOptView> {
    v.map_values(|o: RoleOption| role_opt_view(o))
}

/// The one-word role attributes (`LOGIN`, `NOSUPERUSER`, ... written as identifiers
/// in any case, and the keyword `INHERIT`).
pub open spec fn role_flag(toks: Seq<Token>, i: int) -> Option<RoleOptView> {
    if ident_word_at(toks, i, "SUPERUSER"@) {
        Some(RoleOptView::Superuser(true))
    } else if ident_word_at(toks, i, "NOSUPERUSER"@) {
        Some(RoleOptView::Superuser(false))
    } else if ident_word_at(toks, i, "SYSADMIN"@) {
        Some(RoleOptView::Superuser(true))
    } else if ident_word_at(toks, i, "NOSYSADMIN"@) {
        Some(RoleOptView::Superuser(false))
    } else if ident_word_at(toks, i, "CREATEDB"@) {
        Some(RoleOptView::CreateDb(true))
    } else if ident_word_at(toks, i, "NOCREATEDB"@) {
        Some(RoleOptView::CreateDb(false))
    } else if ident_word_at(toks, i, "CREATEROLE"@) {
        Some(RoleOptView::CreateRole(true))
    } else if ident_word_at(toks, i, "NOCREATEROLE"@) {
        Some(RoleOptView::CreateRole(false))
    } else if ident_word_at(toks, i, "NOINHERIT"@) {
        Some(RoleOptView::Inherit(false))
    } else if ident_word_at(toks, i, "LOGIN"@) {
        Some(RoleOptView::Login(true))
    } else if ident_word_at(toks, i, "NOLOGIN"@) {
        Some(RoleOptView::Login(false))
    } else if ident_word_at(toks, i, "REPLICATION"@) {
        Some(RoleOptView::Replication(true))
    } else if ident_word_at(toks, i, "NOREPLICATION"@) {
        Some(RoleOptView::Replication(false))
    } else if ident_word_at(toks, i, "BYPASSRLS"@) {
        Some(RoleOptView::BypassRls(true))
    } else if ident_word_at(toks, i, "NOBYPASSRLS"@) {
        Some(RoleOptView::BypassRls(false))
    } else if ident_word_at(toks, i, "AUDITADMIN"@) {
        Some(RoleOptView::AuditAdmin(true))
    } else if ident_word_at(toks, i, "NOAUDITADMIN"@) {
        Some(RoleOptView::AuditAdmin(false))
    } else if ident_word_at(toks, i, "MONADMIN"@) {
        Some(RoleOptView::MonAdmin(true))
    } else if ident_word_at(toks, i, "NOMONADMIN"@) {
        Some(RoleOptView::MonAdmin(false))
    } else if ident_word_at(toks, i, "OPRADMIN"@) {
        Some(RoleOptView::OprAdmin(true))
    } else if ident_word_at(toks, i, "NOOPRADMIN"@) {
        Some(RoleOptView::OprAdmin(false))
    } else if ident_word_at(toks, i, "POLADMIN"@) {
        Some(RoleOptView::PolAdmin(true))
    } else if ident_word_at(toks, i, "NOPOLADMIN"@) {
        Some(RoleOptView::PolAdmin(false))
    } else if ident_word_at(toks, i, "PERSISTENCE"@) {
        Some(RoleOptView::Persistence(true))
    } else if ident_word_at(toks, i, "INDEPENDENT"@) {
        Some(RoleOptView::Independent(true))
    } else if ident_word_at(toks, i, "USEFT"@) {
        Some(RoleOptView::Useft(true))
    } else if ident_word_at(toks, i, "VCADMIN"@) {
        Some(RoleOptView::VcAdmin(true))
    } else if ident_word_at(toks, i, "PERMIT"@) {
        Some(RoleOptView::Permit(true))
    } else if ident_word_at(toks, i, "NOPERMIT"@) {
        Some(RoleOptView::Permit(false))
    } else if kw_at(toks, i, Keyword::INHERIT) {
        Some(RoleOptView::Inherit(true))
    } else {
        None
    }
}

/// `word` at `i` as a keyword or as a plain identifier (any case).
pub open spec fn word_at(toks: Seq<Token>, i: int, k: Keyword, word: Seq<char>) -> bool {
    kw_at(toks, i, k) || ident_word_at(toks, i, word)
}

/// Identifiers separated by commas at `i`.
pub open spec fn ident_list_tail(toks: Seq<Token>, i: int, acc: Seq<Seq<char>>) -> Outcome<Seq<Seq<char>>>
    decreases toks.len() - i,
{
    if 0 <= i < toks.len() && toks[i] is Comma {
        match ident_text(tok_at(toks, i + 1)) {
            Some(t) => ident_list_tail(toks, i + 2, acc.push(t)),
            None => Err((i + 1, "identifier"@)),
        }
    } else {
        Ok((acc, i))
    }
}

pub open spec fn ident_list_at(toks: Seq<Token>, i: int) -> Outcome<Seq<Seq<char>>> {
    match ident_text(tok_at(toks, i)) {
        Some(t) => ident_list_tail(toks, i + 1, seq![t]),
        None => Err((i, "identifier"@)),
    }
}

/// A password value: a string literal or a plain or quoted identifier.
pub open spec fn password_value_at(toks: Seq<Token>, i: int) -> Outcome<Seq<char>> {
    match tok_at(toks, i) {
        Token::StringLiteral(s) => Ok((s@, i + 1)),
        Token::QuotedIdent(s) => Ok((s@, i + 1)),
        Token::Ident(s) => Ok((s@, i + 1)),
        _ => Err((i, "string or identifier"@)),
    }
}

/// A single identifier at `i`.
pub open spec fn ident_at(toks: Seq<Token>, i: int) -> Outcome<Seq<char>> {
    match ident_text(tok_at(toks, i)) {
        Some(t) => Ok((t, i + 1)),
        None => Err((i, "identifier"@)),
    }
}

/// What one step of the option list does: stop (leaving the cursor at the position
/// given), fail, or go on with at most one more option.
pub enum RoleStep {
    Stop(int),
    Fail(int, Seq<char>),
    Next(Option<RoleOptView>, int),
}

pub open spec fn step_of(o: Outcome<RoleOptView>) -> RoleStep {
    match o {
        Ok((v, j)) => RoleStep::Next(Some(v), j),
        Err((p, e)) => RoleStep::Fail(p, e),
    }
}

/// `ACCOUNT`'s value after `i`: `LOCK`, or `UNLOCK` or nothing (unlocked).
pub open spec fn account_lock_at(toks: Seq<Token>, i: int) -> (bool, int) {
    if word_at(toks, i, Keyword::LOCK_P, "LOCK"@) {
        (true, i + 1)
    } else if word_at(toks, i, Keyword::UNLOCK, "UNLOCK"@) {
        (false, i + 1)
    } else {
        (false, i)
    }
}

/// One option in the list after `WITH`, at `i`.
pub open spec fn role_step_at(toks: Seq<Token>, i: int) -> RoleStep {
    if role_flag(toks, i) is Some {
        RoleStep::Next(role_flag(toks, i), i + 1)
    } else if kw_at(toks, i, Keyword::CONNECTION) {
        if !kw_at(toks, i + 1, Keyword::LIMIT) {
            RoleStep::Fail(i + 1, "LIMIT"@)
        } else {
            match tok_at(toks, i + 2) {
                Token::Integer(n) => RoleStep::Next(Some(RoleOptView::ConnectionLimit(n)), i + 3),
                _ => RoleStep::Fail(i + 2, "integer literal"@),
            }
        }
    } else if kw_at(toks, i, Keyword::ENCRYPTED) || kw_at(toks, i, Keyword::UNENCRYPTED) {
        if word_at(toks, i + 1, Keyword::PASSWORD, "PASSWORD"@) {
            step_of(map_outcome(password_value_at(toks, i + 2), |v: Seq<char>|
                if kw_at(toks, i, Keyword::ENCRYPTED) { RoleOptView::EncryptedPassword(v) } else { RoleOptView::UnencryptedPassword(v) }))
        } else {
            RoleStep::Next(None, i + 1)
        }
    } else if word_at(toks, i, Keyword::PASSWORD, "PASSWORD"@) {
        step_of(map_outcome(password_value_at(toks, i + 1), |v: Seq<char>| RoleOptView::UnencryptedPassword(v)))
    } else if kw_at(toks, i, Keyword::IDENTIFIED) {
        if !kw_at(toks, i + 1, Keyword::BY) {
            RoleStep::Fail(i + 1, "BY"@)
        } else {
            step_of(map_outcome(password_value_at(toks, i + 2), |v: Seq<char>| RoleOptView::UnencryptedPassword(v)))
        }
    } else if kw_at(toks, i, Keyword::VALID) {
        if kw_at(toks, i + 1, Keyword::UNTIL) {
            match tok_at(toks, i + 2) {
                Token::StringLiteral(s) => RoleStep::Next(Some(RoleOptView::ValidUntil(s@)), i + 3),
                _ => RoleStep::Fail(i + 2, "string literal"@),
            }
        } else {
            RoleStep::Next(None, i + 1)
        }
    } else if kw_at(toks, i, Keyword::IN_P) {
        if word_at(toks, i + 1, Keyword::ROLE, "ROLE"@) {
            step_of(map_outcome(ident_list_at(toks, i + 2), |v: Seq<Seq<char>>| RoleOptView::InRole(v)))
        } else {
            RoleStep::Next(None, i + 1)
        }
    } else if ident_word_at(toks, i, "ROLE"@) {
        step_of(map_outcome(ident_list_at(toks, i + 1), |v: Seq<Seq<char>>| RoleOptView::Role(v)))
    } else if word_at(toks, i, Keyword::ADMIN, "ADMIN"@) {
        step_of(map_outcome(ident_list_at(toks, i + 1), |v: Seq<Seq<char>>| RoleOptView::Admin(v)))
    } else if word_at(toks, i, Keyword::USER, "USER"@) {
        step_of(map_outcome(ident_list_at(toks, i + 1), |v: Seq<Seq<char>>| RoleOptView::User(v)))
    } else if word_at(toks, i, Keyword::SYSID, "SYSID"@) {
        match tok_at(toks, i + 1) {
            Token::Integer(n) => RoleStep::Next(Some(RoleOptView::Sysid(n)), i + 2),
            _ => RoleStep::Fail(i + 1, "integer literal"@),
        }
    } else if kw_at(toks, i, Keyword::DEFAULT) {
        if kw_at(toks, i + 1, Keyword::TABLESPACE) {
            step_of(map_outcome(ident_at(toks, i + 2), |v: Seq<char>| RoleOptView::DefaultTablespace(v)))
        } else {
            RoleStep::Stop(i + 1)
        }
    } else if kw_at(toks, i, Keyword::TABLESPACE) {
        step_of(map_outcome(ident_at(toks, i + 1), |v: Seq<char>| RoleOptView::Tablespace(v)))
    } else if ident_word_at(toks, i, "PROFILE"@) {
        step_of(map_outcome(ident_at(toks, i + 1), |v: Seq<char>| RoleOptView::Profile(v)))
    } else if word_at(toks, i, Keyword::ACCOUNT, "ACCOUNT"@) {
        RoleStep::Next(Some(RoleOptView::AccountLock(account_lock_at(toks, i + 1).0)), account_lock_at(toks, i + 1).1)
    } else {
        RoleStep::Stop(i)
    }
}

/// `acc` with `o` added at the end, if there is one.
pub open spec fn push_opt<A>(acc: Seq<A>, o: Option<A>) -> Seq<A> {
    match o {
        Some(v) => acc.push(v),
        None => acc,
    }
}

/// The option list after `WITH`, from `i`, after the options `acc`.
pub open spec fn role_with_list(toks: Seq<Token>, i: int, acc: Seq<RoleOptView>) -> Outcome<Seq<RoleOptView>>
    decreases toks.len() - i,
{
    match role_step_at(toks, i) {
        RoleStep::Stop(j) => Ok((acc, j)),
        RoleStep::Fail(p, e) => Err((p, e)),
        RoleStep::Next(o, j) => if i < j <= toks.len() {
            role_with_list(toks, j, push_opt(acc, o))
        } else {
            Ok((push_opt(acc, o), j))
        },
    }
}

/// `PASSWORD value` or `IDENTIFIED BY value` at `i`, if present.
pub open spec fn password_clause_at(toks: Seq<Token>, i: int) -> Outcome<Option<RoleOptView>> {
    if word_at(toks, i, Keyword::PASSWORD, "PASSWORD"@) {
        map_outcome(password_value_at(toks, i + 1), |v: Seq<char>| Some(RoleOptView::UnencryptedPassword(v)))
    } else if kw_at(toks, i, Keyword::IDENTIFIED) {
        if !kw_at(toks, i + 1, Keyword::BY) {
            Err((i + 1, "BY"@))
        } else {
            map_outcome(password_value_at(toks, i + 2), |v: Seq<char>| Some(RoleOptView::UnencryptedPassword(v)))
        }
    } else {
        Ok((None, i))
    }
}

/// The database-creation and role-creation attributes written without `WITH`.
pub open spec fn standalone_flag(toks: Seq<Token>, i: int) -> Option<RoleOptView> {
    if ident_word_at(toks, i, "CREATEDB"@) {
        Some(RoleOptView::CreateDb(true))
    } else if ident_word_at(toks, i, "NOCREATEDB"@) {
        Some(RoleOptView::CreateDb(false))
    } else if ident_word_at(toks, i, "CREATEROLE"@) {
        Some(RoleOptView::CreateRole(true))
    } else if ident_word_at(toks, i, "NOCREATEROLE"@) {
        Some(RoleOptView::CreateRole(false))
    } else {
        None
    }
}

pub open spec fn standalone_flags(toks: Seq<Token>, i: int, acc: Seq<RoleOptView>) -> (Seq<RoleOptView>, int)
    decreases toks.len() - i,
{
    if standalone_flag(toks, i) is Some && i < toks.len() {
        standalone_flags(toks, i + 1, acc.push(standalone_flag(toks, i)->0))
    } else {
        (acc, i)
    }
}

/// Applies an optional clause to the options gathered so far.
pub open spec fn then_opt(acc: Seq<RoleOptView>, o: Outcome<Option<RoleOptView>>) -> Outcome<Seq<RoleOptView>> {
    match o {
        Ok((v, j)) => Ok((push_opt(acc, v), j)),
        Err(e) => Err(e),
    }
}

/// The trailing `DEFAULT TABLESPACE ts`, `TABLESPACE ts`, `PROFILE p`, `ACCOUNT [UN]LOCK`.
pub open spec fn role_tail_at(toks: Seq<Token>, i: int, acc: Seq<RoleOptView>) -> Outcome<Seq<RoleOptView>> {
    let a: Outcome<Seq<RoleOptView>> = if kw_at(toks, i, Keyword::DEFAULT) {
        if !kw_at(toks, i + 1, Keyword::TABLESPACE) {
            Err((i + 1, "TABLESPACE"@))
        } else {
            then_opt(acc, map_outcome(ident_at(toks, i + 2), |v: Seq<char>| Some(RoleOptView::DefaultTablespace(v))))
        }
    } else {
        Ok((acc, i))
    };
    match a {
        Err(e) => Err(e),
        Ok((acc1, j)) => {
            let b: Outcome<Seq<RoleOptView>> = if kw_at(toks, j, Keyword::TABLESPACE) {
                then_opt(acc1, map_outcome(ident_at(toks, j + 1), |v: Seq<char>| Some(RoleOptView::Tablespace(v))))
            } else {
                Ok((acc1, j))
            };
            match b {
                Err(e) => Err(e),
                Ok((acc2, k)) => {
                    let c: Outcome<Seq<RoleOptView>> = if ident_word_at(toks, k, "PROFILE"@) {
                        then_opt(acc2, map_outcome(ident_at(toks, k + 1), |v: Seq<char>| Some(RoleOptView::Profile(v))))
                    } else {
                        Ok((acc2, k))
                    };
                    match c {
                        Err(e) => Err(e),
                        Ok((acc3, m)) => if word_at(toks, m, Keyword::ACCOUNT, "ACCOUNT"@) {
                            let (lock, n) = account_lock_at(toks, m + 1);
                            Ok((acc3.push(RoleOptView::AccountLock(lock)), n))
                        } else {
                            Ok((acc3, m))
                        },
                    }
                },
            }
        },
    }
}

/// The options after the second password clause.
pub open spec fn role_after_flags(toks: Seq<Token>, m: int, acc3: Seq<RoleOptView>) -> Outcome<Seq<RoleOptView>> {
    match then_opt(acc3, password_clause_at(toks, m)) {
        Err(e) => Err(e),
        Ok((acc4, n)) => role_tail_at(toks, n, acc4),
    }
}

/// The options after the list that follows `WITH`.
pub open spec fn role_after_with(toks: Seq<Token>, j: int, acc1: Seq<RoleOptView>) -> Outcome<Seq<RoleOptView>> {
    match then_opt(acc1, password_clause_at(toks, j)) {
        Err(e) => Err(e),
        Ok((acc2, k)) => role_after_flags(toks, standalone_flags(toks, k, acc2).1, standalone_flags(toks, k, acc2).0),
    }
}

/// Pairs the role name with the options, or passes the error on.
pub open spec fn with_name(name: Seq<char>, o: Outcome<Seq<RoleOptView>>) -> Outcome<(Seq<char>, Seq<RoleOptView>)> {
    match o {
        Err(e) => Err(e),
        Ok((opts, q)) => Ok(((name, opts), q)),
    }
}

/// A role name and its options at `i`: `name [WITH option...] [PASSWORD ...]
/// [CREATEDB ...] [PASSWORD ...] [DEFAULT TABLESPACE ts] [TABLESPACE ts] [PROFILE p]
/// [ACCOUNT LOCK|UNLOCK]`.
pub open spec fn role_options_at(toks: Seq<Token>, i: int) -> Outcome<(Seq<char>, Seq<RoleOptView>)> {
    match ident_text(tok_at(toks, i)) {
        None => Err((i, "identifier"@)),
        Some(name) => {
            let with_list: Outcome<Seq<RoleOptView>> = if kw_at(toks, i + 1, Keyword::WITH) {
                role_with_list(toks, i + 2, seq![])
            } else {
                Ok((seq![], i + 1))
            };
            match with_list {
                Err(e) => Err(e),
                Ok((acc1, j)) => with_name(name, role_after_with(toks, j, acc1)),
            }
        },
    }
}

proof fn lemma_ident_list_tail_bounds(toks: Seq<Token>, i: int, acc: Seq<Seq<char>>)
    ensures
        ident_list_tail(toks, i, acc) matches Ok((_, p)) ==> i <= p,
    decreases toks.len() - i,
{
    if 0 <= i < toks.len() && toks[i] is Comma {
        if ident_text(tok_at(toks, i + 1)) is Some {
            lemma_ident_list_tail_bounds(toks, i + 2, acc.push(ident_text(tok_at(toks, i + 1))->0));
        }
    }
}

/// A step of the option list that goes on has consumed at least one token.
proof fn lemma_role_step_advances(toks: Seq<Token>, i: int)
    ensures
        role_step_at(toks, i) matches RoleStep::Next(_, j) ==> i < j,
{
    lemma_ident_list_tail_bounds(toks, i + 2, seq![ident_text(tok_at(toks, i + 1))->0]);
    lemma_ident_list_tail_bounds(toks, i + 3, seq![ident_text(tok_at(toks, i + 2))->0]);
}

/// What the exec step of the option list found.
enum StepAction {
    Stop,
    Continue(Option<RoleOption>),
}

impl Parser {
    /// Consumes a one-word role attribute, if the cursor is at one.
    fn try_role_flag(&mut self) -> (r: Option<RoleOption>)
        requires
            old(self).wf(),
        ensures
            final(self).wf(),
            match role_flag(old(self).toks(), old(self).position()) {
                Some(v) => r is Some && role_opt_view(r->0) == v && old(self).moved_to(&*final(self), old(self).position() + 1),
                None => r is None && old(self).moved_to(&*final(self), old(self).position()),
            },
    {
        if self.try_consume_ident_str("SUPERUSER") {
            Some(RoleOption::Superuser(true))
        } else if self.try_consume_ident_str("NOSUPERUSER") {
            Some(RoleOption::Superuser(false))
        } else if self.try_consume_ident_str("SYSADMIN") {
            Some(RoleOption::Superuser(true))
        } else if self.try_consume_ident_str("NOSYSADMIN") {
            Some(RoleOption::Superuser(false))
        } else if self.try_consume_ident_str("CREATEDB") {
            Some(RoleOption::CreateDb(true))
        } else if self.try_consume_ident_str("NOCREATEDB") {
            Some(RoleOption::CreateDb(false))
        } else if self.try_consume_ident_str("CREATEROLE") {
            Some(RoleOption::CreateRole(true))
        } else if self.try_consume_ident_str("NOCREATEROLE") {
            Some(RoleOption::CreateRole(false))
        } else if self.try_consume_ident_str("NOINHERIT") {
            Some(RoleOption::Inherit(false))
        } else if self.try_consume_ident_str("LOGIN") {
            Some(RoleOption::Login(true))
        } else if self.try_consume_ident_str("NOLOGIN") {
            Some(RoleOption::Login(false))
        } else if self.try_consume_ident_str("REPLICATION") {
            Some(RoleOption::Replication(true))
        } else if self.try_consume_ident_str("NOREPLICATION") {
            Some(RoleOption::Replication(false))
        } else if self.try_consume_ident_str("BYPASSRLS") {
            Some(RoleOption::BypassRls(true))
        } else if self.try_consume_ident_str("NOBYPASSRLS") {
            Some(RoleOption::BypassRls(false))
        } else if self.try_consume_ident_str("AUDITADMIN") {
            Some(RoleOption::AuditAdmin(true))
        } else if self.try_consume_ident_str("NOAUDITADMIN") {
            Some(RoleOption::AuditAdmin(false))
        } else if self.try_consume_ident_str("MONADMIN") {
            Some(RoleOption::MonAdmin(true))
        } else if self.try_consume_ident_str("NOMONADMIN") {
            Some(RoleOption::MonAdmin(false))
        } else if self.try_consume_ident_str("OPRADMIN") {
            Some(RoleOption::OprAdmin(true))
        } else if self.try_consume_ident_str("NOOPRADMIN") {
            Some(RoleOption::OprAdmin(false))
        } else if self.try_consume_ident_str("POLADMIN") {
            Some(RoleOption::PolAdmin(true))
        } else if self.try_consume_ident_str("NOPOLADMIN") {
            Some(RoleOption::PolAdmin(false))
        } else if self.try_consume_ident_str("PERSISTENCE") {
            Some(RoleOption::Persistence(true))
        } else if self.try_consume_ident_str("INDEPENDENT") {
            Some(RoleOption::Independent(true))
        } else if self.try_consume_ident_str("USEFT") {
            Some(RoleOption::Useft(true))
        } else if self.try_consume_ident_str("VCADMIN") {
            Some(RoleOption::VcAdmin(true))
        } else if self.try_consume_ident_str("PERMIT") {
            Some(RoleOption::Permit(true))
        } else if self.try_consume_ident_str("NOPERMIT") {
            Some(RoleOption::Permit(false))
        } else if self.try_consume_keyword(Keyword::INHERIT) {
            Some(RoleOption::Inherit(true))
        } else {
            None
        }
    }

    /// Identifiers separated by commas.
    pub(crate) fn parse_identifier_list(&mut self) -> (r: Result<Vec<String>, ParserError>)
        requires
            old(self).wf(),
        ensures
            final(self).wf(),
            agrees(&*old(self), &*final(self), r, ident_list_at(old(self).toks(), old(self).position()),
                |v: Vec<String>| strings_view(v@)),
            old(self).position() <= final(self).position(),
    {
        let first = match self.parse_identifier() {
            Ok(s) => s,
            Err(e) => return Err(e),
        };
        let mut names: Vec<String> = Vec::new();
        names.push(first);
        assert(strings_view(names@) =~= seq![first@]);
        while self.match_token(&Token::Comma)
            invariant
                self.wf(),
                old(self).moved_to(&*self, self.position()),
                old(self).position() <= self.position(),
                ident_list_at(old(self).toks(), old(self).position()) == ident_list_tail(self.toks(), self.position(), strings_view(names@)),
            decreases self.toks().len() - self.position(),
        {
            self.advance();
            let n = match self.parse_identifier() {
                Ok(s) => s,
                Err(e) => return Err(e),
            };
            let ghost before = strings_view(names@);
            names.push(n);
            assert(strings_view(names@) =~= before.push(n@));
        }
        Ok(names)
    }

    /// Whether the cursor is at `word` as a keyword or as an identifier.
    pub(crate) fn match_word(&self, k: Keyword, word: &str) -> (r: bool)
        requires
            self.wf(),
        ensures
            r == word_at(self.toks(), self.position(), k, word@),
    {
        self.match_keyword(k) || self.match_ident_str(word)
    }

    /// `LOCK`, `UNLOCK` or nothing after `ACCOUNT`.
    fn parse_account_lock(&mut self) -> (r: bool)
        requires
            old(self).wf(),
        ensures
            final(self).wf(),
            r == account_lock_at(old(self).toks(), old(self).position()).0,
            old(self).moved_to(&*final(self), account_lock_at(old(self).toks(), old(self).position()).1),
    {
        if self.match_word(Keyword::LOCK_P, "LOCK") {
            self.advance();
            true
        } else {
            if self.match_word(Keyword::UNLOCK, "UNLOCK") {
                self.advance();
            }
            false
        }
    }

    /// One option of the list after `WITH`.
    fn parse_role_step(&mut self) -> (r: Result<StepAction, ParserError>)
        requires
            old(self).wf(),
        ensures
            final(self).wf(),
            match role_step_at(old(self).toks(), old(self).position()) {
                RoleStep::Stop(j) => r matches Ok(StepAction::Stop) && old(self).moved_to(&*final(self), j),
                RoleStep::Fail(p, e) => r is Err && old(self).moved_to(&*final(self), p) && old(self).reports(r->Err_0, p, e),
                RoleStep::Next(o, j) => r matches Ok(StepAction::Continue(x)) && old(self).moved_to(&*final(self), j)
                    && match (x, o) {
                        (Some(a), Some(b)) => role_opt_view(a) == b,
                        (None, None) => true,
                        _ => false,
                    },
            },
    {
        match self.try_role_flag() {
            Some(o) => return Ok(StepAction::Continue(Some(o))),
            None => {},
        }
        if self.match_keyword(Keyword::CONNECTION) {
            self.advance();
            match self.expect_keyword(Keyword::LIMIT) {
                Ok(()) => {},
                Err(e) => return Err(e),
            }
            return match self.parse_integer_literal() {
                Ok(n) => Ok(StepAction::Continue(Some(RoleOption::ConnectionLimit(n)))),
                Err(e) => Err(e),
            };
        }
        if self.match_keyword(Keyword::ENCRYPTED) || self.match_keyword(Keyword::UNENCRYPTED) {
            let encrypted = self.match_keyword(Keyword::ENCRYPTED);
            self.advance();
            if self.match_word(Keyword::PASSWORD, "PASSWORD") {
                self.advance();
                return match self.parse_string_or_quoted_ident() {
                    Ok(p) => Ok(StepAction::Continue(Some(if encrypted {
                        RoleOption::EncryptedPassword(p)
                    } else {
                        RoleOption::UnencryptedPassword(p)
                    }))),
                    Err(e) => Err(e),
                };
            }
            return Ok(StepAction::Continue(None));
        }
        if self.match_word(Keyword::PASSWORD, "PASSWORD") {
            self.advance();
            return match self.parse_string_or_quoted_ident() {
                Ok(p) => Ok(StepAction::Continue(Some(RoleOption::UnencryptedPassword(p)))),
                Err(e) => Err(e),
            };
        }
        if self.match_keyword(Keyword::IDENTIFIED) {
            self.advance();
            match self.expect_keyword(Keyword::BY) {
                Ok(()) => {},
                Err(e) => return Err(e),
            }
            return match self.parse_string_or_quoted_ident() {
                Ok(p) => Ok(StepAction::Continue(Some(RoleOption::UnencryptedPassword(p)))),
                Err(e) => Err(e),
            };
        }
        if self.match_keyword(Keyword::VALID) {
            self.advance();
            if self.match_keyword(Keyword::UNTIL) {
                self.advance();
                return match self.parse_string_literal() {
                    Ok(s) => Ok(StepAction::Continue(Some(RoleOption::ValidUntil(s)))),
                    Err(e) => Err(e),
                };
            }
            return Ok(StepAction::Continue(None));
        }
        if self.match_keyword(Keyword::IN_P) {
            self.advance();
            if self.match_word(Keyword::ROLE, "ROLE") {
                self.advance();
                return match self.parse_identifier_list() {
                    Ok(v) => Ok(StepAction::Continue(Some(RoleOption::InRole(v)))),
                    Err(e) => Err(e),
                };
            }
            return Ok(StepAction::Continue(None));
        }
        if self.match_ident_str("ROLE") {
            self.advance();
            return match self.parse_identifier_list() {
                Ok(v) => Ok(StepAction::Continue(Some(RoleOption::Role(v)))),
                Err(e) => Err(e),
            };
        }
        if self.match_word(Keyword::ADMIN, "ADMIN") {
            self.advance();
            return match self.parse_identifier_list() {
                Ok(v) => Ok(StepAction::Continue(Some(RoleOption::Admin(v)))),
                Err(e) => Err(e),
            };
        }
        if self.match_word(Keyword::USER, "USER") {
            self.advance();
            return match self.parse_identifier_list() {
                Ok(v) => Ok(StepAction::Continue(Some(RoleOption::User(v)))),
                Err(e) => Err(e),
            };
        }
        if self.match_word(Keyword::SYSID, "SYSID") {
            self.advance();
            return match self.parse_integer_literal() {
                Ok(n) => Ok(StepAction::Continue(Some(RoleOption::Sysid(n)))),
                Err(e) => Err(e),
            };
        }
        if self.match_keyword(Keyword::DEFAULT) {
            self.advance();
            if self.match_keyword(Keyword::TABLESPACE) {
                self.advance();
                return match self.parse_identifier() {
                    Ok(ts) => Ok(StepAction::Continue(Some(RoleOption::DefaultTablespace(ts)))),
                    Err(e) => Err(e),
                };
            }
            return Ok(StepAction::Stop);
        }
        if self.match_keyword(Keyword::TABLESPACE) {
            self.advance();
            return match self.parse_identifier() {
                Ok(ts) => Ok(StepAction::Continue(Some(RoleOption::Tablespace(ts)))),
                Err(e) => Err(e),
            };
        }
        if self.match_ident_str("PROFILE") {
            self.advance();
            return match self.parse_identifier() {
                Ok(p) => Ok(StepAction::Continue(Some(RoleOption::Profile(p)))),
                Err(e) => Err(e),
            };
        }
        if self.match_word(Keyword::ACCOUNT, "ACCOUNT") {
            self.advance();
            let lock = self.parse_account_lock();
            return Ok(StepAction::Continue(Some(RoleOption::AccountLock(lock))));
        }
        Ok(StepAction::Stop)
    }

    /// `PASSWORD value` or `IDENTIFIED BY value`, if present.
    fn parse_password_clause(&mut self) -> (r: Result<Option<RoleOption>, ParserError>)
        requires
            old(self).wf(),
        ensures
            final(self).wf(),
            agrees(&*old(self), &*final(self), r, password_clause_at(old(self).toks(), old(self).position()),
                |o: Option<RoleOption>| match o {
                    Some(v) => Some(role_opt_view(v)),
                    None => None,
                }),
    {
        if self.match_word(Keyword::PASSWORD, "PASSWORD") {
            self.advance();
            return match self.parse_string_or_quoted_ident() {
                Ok(p) => Ok(Some(RoleOption::UnencryptedPassword(p))),
                Err(e) => Err(e),
            };
        }
        if self.match_keyword(Keyword::IDENTIFIED) {
            self.advance();
            match self.expect_keyword(Keyword::BY) {
                Ok(()) => {},
                Err(e) => return Err(e),
            }
            return match self.parse_string_or_quoted_ident() {
                Ok(p) => Ok(Some(RoleOption::UnencryptedPassword(p))),
                Err(e) => Err(e),
            };
        }
        Ok(None)
    }

    fn push_role_option(options: &mut Vec<RoleOption>, o: Option<RoleOption>)
        ensures
            role_opts_view(final(options)@) == push_opt(role_opts_view(old(options)@), match o {
                Some(v) => Some(role_opt_view(v)),
                None => None,
            }),
    {
        match o {
            Some(v) => {
                let ghost before = role_opts_view(options@);
                options.push(v);
                assert(role_opts_view(options@) =~= before.push(role_opt_view(v)));
            },
            None => {},
        }
    }

    /// The trailing options of a role definition.
    fn parse_role_tail(&mut self, options: &mut Vec<RoleOption>) -> (r: Result<(), ParserError>)
        requires
            old(self).wf(),
        ensures
            final(self).wf(),
            agrees(&*old(self), &*final(self), with_value(r, role_opts_view(final(options)@)),
                role_tail_at(old(self).toks(), old(self).position(), role_opts_view(old(options)@)),
                |v: Seq<RoleOptView>| v),
    {
        if self.match_keyword(Keyword::DEFAULT) {
            self.advance();
            match self.expect_keyword(Keyword::TABLESPACE) {
                Ok(()) => {},
                Err(e) => return Err(e),
            }
            match self.parse_identifier() {
                Ok(ts) => Self::push_role_option(options, Some(RoleOption::DefaultTablespace(ts))),
                Err(e) => return Err(e),
            }
        }
        if self.match_keyword(Keyword::TABLESPACE) {
            self.advance();
            match self.parse_identifier() {
                Ok(ts) => Self::push_role_option(options, Some(RoleOption::Tablespace(ts))),
                Err(e) => return Err(e),
            }
        }
        if self.match_ident_str("PROFILE") {
            self.advance();
            match self.parse_identifier() {
                Ok(p) => Self::push_role_option(options, Some(RoleOption::Profile(p))),
                Err(e) => return Err(e),
            }
        }
        if self.match_word(Keyword::ACCOUNT, "ACCOUNT") {
            self.advance();
            let lock = self.parse_account_lock();
            Self::push_role_option(options, Some(RoleOption::AccountLock(lock)));
        }
        Ok(())
    }

    /// A role's name and options (the part of CREATE ROLE / USER / GROUP after the
    /// object keyword).
    pub fn parse_create_role_options(&mut self) -> (r: Result<(String, Vec<RoleOption>), ParserError>)
        requires
            old(self).wf(),
        ensures
            final(self).wf(),
            agrees(&*old(self), &*final(self), r, role_options_at(old(self).toks(), old(self).position()),
                |v: (String, Vec<RoleOption>)| (v.0@, role_opts_view(v.1@))),
    {
        let name = match self.parse_identifier() {
            Ok(n) => n,
            Err(e) => return Err(e),
        };
        let ghost toks = self.toks();
        let ghost start = old(self).position();
        let mut options: Vec<RoleOption> = Vec::new();
        assert(role_opts_view(options@) =~= Seq::<RoleOptView>::empty());
        if self.try_consume_keyword(Keyword::WITH) {
            loop
                invariant_except_break
                    role_with_list(toks, start + 2, seq![]) == role_with_list(toks, self.position(), role_opts_view(options@)),
                invariant
                    self.wf(),
                    toks == self.toks(),
                    old(self).moved_to(&*self, self.position()),
                    start == old(self).position(),
                    name@ == ident_text(tok_at(toks, start))->0,
                    ident_text(tok_at(toks, start)) is Some,
                    kw_at(toks, start + 1, Keyword::WITH),
                ensures
                    role_with_list(toks, start + 2, seq![]) == Ok::<(Seq<RoleOptView>, int), (int, Seq<char>)>((role_opts_view(options@), self.position())),
                decreases self.toks().len() - self.position(),
            {
                let ghost before = self.position();
                proof { lemma_role_step_advances(toks, before); }
                match self.parse_role_step() {
                    Err(e) => return Err(e),
                    Ok(StepAction::Stop) => break,
                    Ok(StepAction::Continue(o)) => Self::push_role_option(&mut options, o),
                }
                assert(before < self.position());
            }
        }
        assert(role_options_at(toks, start) == with_name(name@, role_after_with(toks, self.position(), role_opts_view(options@))));
        match self.parse_password_clause() {
            Ok(o) => Self::push_role_option(&mut options, o),
            Err(e) => return Err(e),
        }
        let ghost before_flags = self.position();
        let ghost acc_flags = role_opts_view(options@);
        assert(role_options_at(toks, start) == with_name(name@, role_after_flags(toks,
            standalone_flags(toks, before_flags, acc_flags).1, standalone_flags(toks, before_flags, acc_flags).0)));
        loop
            invariant
                self.wf(),
                toks == self.toks(),
                old(self).moved_to(&*self, self.position()),
                standalone_flags(toks, before_flags, acc_flags) == standalone_flags(toks, self.position(), role_opts_view(options@)),
            ensures
                standalone_flags(toks, before_flags, acc_flags) == (role_opts_view(options@), self.position()),
            decreases self.toks().len() - self.position(),
        {
            let o: Option<RoleOption> = if self.try_consume_ident_str("CREATEDB") {
                Some(RoleOption::CreateDb(true))
            } else if self.try_consume_ident_str("NOCREATEDB") {
                Some(RoleOption::CreateDb(false))
            } else if self.try_consume_ident_str("CREATEROLE") {
                Some(RoleOption::CreateRole(true))
            } else if self.try_consume_ident_str("NOCREATEROLE") {
                Some(RoleOption::CreateRole(false))
            } else {
                None
            };
            if o.is_none() {
                break;
            }
            Self::push_role_option(&mut options, o);
        }
        assert(role_options_at(toks, start) == with_name(name@, role_after_flags(toks, self.position(), role_opts_view(options@))));
        match self.parse_password_clause() {
            Ok(o) => Self::push_role_option(&mut options, o),
            Err(e) => return Err(e),
        }
        assert(role_options_at(toks, start) == with_name(name@, role_tail_at(toks, self.position(), role_opts_view(options@))));
        match self.parse_role_tail(&mut options) {
            Ok(()) => Ok((name, options)),
            Err(e) => Err(e),
        }
    }
}

// ────────────────────────────────────────────────────────────────
// CREATE SEQUENCE
// ────────────────────────────────────────────────────────────────

/// The options of a sequence as plain values: the start, increment, minimum, maximum and
/// cache values (each by the position of its single operand), the cycle flag, and the
/// owning column.
pub struct SeqOptions {
    pub start: Option<int>,
    pub increment: Option<int>,
    pub min_value: Option<int>,
    pub max_value: Option<int>,
    pub cache: Option<int>,
    pub cycle: bool,
    pub owned_by: Option<Seq<Seq<char>>>,
}

/// No option given.
pub open spec fn no_seq_options() -> SeqOptions {
    SeqOptions { start: None, increment: None, min_value: None, max_value: None, cache: None, cycle: false, owned_by: None }
}

/// What one step of the option list does.
pub enum SeqStep {
    Stop,
    Fail(int, Seq<char>),
    Unstated,
    Next(SeqOptions, int),
}

/// The option at `j`, applied to `acc`.
pub open spec fn seq_step(toks: Seq<Token>, j: int, acc: SeqOptions) -> SeqStep {
    let kw = keyword_at(toks, j);
    if kw == Some(Keyword::START) || kw == Some(Keyword::INCREMENT) || kw == Some(Keyword::MINVALUE)
        || kw == Some(Keyword::MAXVALUE) || kw == Some(Keyword::CACHE) {
        let v = if (kw == Some(Keyword::START) && kw_at(toks, j + 1, Keyword::WITH))
            || (kw == Some(Keyword::INCREMENT) && kw_at(toks, j + 1, Keyword::BY)) { j + 2 } else { j + 1 };
        if !lone_leaf_at(toks, v) {
            SeqStep::Unstated
        } else {
            let next = if kw == Some(Keyword::START) {
                SeqOptions { start: Some(v), ..acc }
            } else if kw == Some(Keyword::INCREMENT) {
                SeqOptions { increment: Some(v), ..acc }
            } else if kw == Some(Keyword::MINVALUE) {
                SeqOptions { min_value: Some(v), ..acc }
            } else if kw == Some(Keyword::MAXVALUE) {
                SeqOptions { max_value: Some(v), ..acc }
            } else {
                SeqOptions { cache: Some(v), ..acc }
            };
            SeqStep::Next(next, leaf_end(toks, v))
        }
    } else if kw == Some(Keyword::CYCLE) {
        SeqStep::Next(SeqOptions { cycle: true, ..acc }, j + 1)
    } else if kw == Some(Keyword::NO) {
        if kw_at(toks, j + 1, Keyword::CYCLE) {
            SeqStep::Next(SeqOptions { cycle: false, ..acc }, j + 2)
        } else if kw_at(toks, j + 1, Keyword::MINVALUE) {
            SeqStep::Next(SeqOptions { min_value: None, ..acc }, j + 2)
        } else if kw_at(toks, j + 1, Keyword::MAXVALUE) {
            SeqStep::Next(SeqOptions { max_value: None, ..acc }, j + 2)
        } else {
            SeqStep::Next(acc, j + 1)
        }
    } else if kw == Some(Keyword::OWNED) {
        if !kw_at(toks, j + 1, Keyword::BY) {
            SeqStep::Fail(j + 1, keyword_text(Keyword::BY))
        } else {
            match object_name_at(toks, j + 2) {
                Ok((n, q)) => SeqStep::Next(SeqOptions { owned_by: Some(n), ..acc }, q),
                Err((q, e)) => SeqStep::Fail(q, e),
            }
        }
    } else if ident_word_at(toks, j, "NOORDER"@) || ident_word_at(toks, j, "ORDER"@) {
        SeqStep::Next(acc, j + 1)
    } else {
        SeqStep::Stop
    }
}

/// The options from `j` on, applied to `acc`; `None` where one of them is not stated.
pub open spec fn seq_options_from(toks: Seq<Token>, j: int, acc: SeqOptions) -> Option<Outcome<SeqOptions>>
    decreases toks.len() - j,
{
    match seq_step(toks, j, acc) {
        SeqStep::Stop => Some(Ok((acc, j))),
        SeqStep::Fail(q, e) => Some(Err((q, e))),
        SeqStep::Unstated => None,
        SeqStep::Next(next, q) => if q <= j || q > toks.len() { None } else { seq_options_from(toks, q, next) },
    }
}

/// `e` is the single operand at the position `p` gives, or absent where `p` is.
pub open spec fn opt_leaf(toks: Seq<Token>, e: Option<Expr>, p: Option<int>) -> bool {
    match p {
        None => e is None,
        Some(pp) => e is Some && leaf_value(toks, pp, e->Some_0),
    }
}

/// The statement carries the options `o`.
pub open spec fn seq_matches(toks: Seq<Token>, s: CreateSequenceStatement, o: SeqOptions) -> bool {
    &&& opt_leaf(toks, s.start, o.start)
    &&& opt_leaf(toks, s.increment, o.increment)
    &&& opt_leaf(toks, s.min_value, o.min_value)
    &&& opt_leaf(toks, s.max_value, o.max_value)
    &&& opt_leaf(toks, s.cache, o.cache)
    &&& s.cycle == o.cycle
    &&& match o.owned_by {
        None => s.owned_by is None,
        Some(n) => s.owned_by is Some && strings_view(s.owned_by->Some_0@) == n,
    }
}

impl Parser {
    /// `SEQUENCE [IF NOT EXISTS] name` followed by options in any order: `START [WITH] e`,
    /// `INCREMENT [BY] e`, `MINVALUE e`, `MAXVALUE e`, `CACHE e`, `CYCLE`,
    /// `NO CYCLE|MINVALUE|MAXVALUE`, `OWNED BY name`, and the accepted no-ops
    /// `ORDER`/`NOORDER`. A later option overrides an earlier one.
    pub fn parse_create_sequence(&mut self) -> (r: Result<CreateSequenceStatement, ParserError>)
        requires
            old(self).wf(),
        ensures
            old(self).steps(&*final(self)),
            !kw_at(old(self).toks(), old(self).position(), Keyword::SEQUENCE) ==> r is Err
                && old(self).moved_to(&*final(self), old(self).position())
                && old(self).reports(r->Err_0, old(self).position(), "SEQUENCE"@),
            r is Ok ==> {
                let toks = old(self).toks();
                let i = old(self).position() + 1;
                &&& r->Ok_0.if_not_exists == has_if_not_exists(toks, i)
                &&& object_name_at(toks, if_not_exists_end(toks, i)) matches Ok((n, _))
                &&& strings_view(r->Ok_0.name@) == object_name_at(toks, if_not_exists_end(toks, i))->Ok_0.0
            },
            kw_at(old(self).toks(), old(self).position(), Keyword::SEQUENCE) ==> {
                let toks = old(self).toks();
                match object_name_at(toks, if_not_exists_end(toks, old(self).position() + 1)) {
                    Err((q, e)) => r is Err && old(self).moved_to(&*final(self), q) && old(self).reports(r->Err_0, q, e),
                    Ok((_, k)) => match seq_options_from(toks, k, no_seq_options()) {
                        Some(Ok((o, q))) => r is Ok && seq_matches(toks, r->Ok_0, o) && old(self).moved_to(&*final(self), q),
                        Some(Err((q, e))) => r is Err && old(self).moved_to(&*final(self), q) && old(self).reports(r->Err_0, q, e),
                        None => true,
                    },
                }
            },
    {
        match self.expect_keyword(Keyword::SEQUENCE) {
            Ok(()) => {},
            Err(e) => return Err(e),
        }
        let if_not_exists = self.parse_if_not_exists();
        proof {
            lemma_object_name_bounds(self.toks(), self.position());
        }
        let name = match self.parse_object_name() {
            Ok(n) => n,
            Err(e) => return Err(e),
        };
        let mut stmt = CreateSequenceStatement {
            if_not_exists,
            name,
            start: None,
            increment: None,
            min_value: None,
            max_value: None,
            cache: None,
            cycle: false,
            owned_by: None,
        };
        let ghost head_if = stmt.if_not_exists;
        let ghost head_name = stmt.name;
        let ghost toks = self.toks();
        let ghost whole = seq_options_from(toks, self.position(), no_seq_options());
        let ghost mut opts = no_seq_options();
        loop
            invariant
                toks == old(self).toks(),
                object_name_at(toks, if_not_exists_end(toks, old(self).position() + 1)) is Ok,
                whole == seq_options_from(toks, object_name_at(toks, if_not_exists_end(toks, old(self).position() + 1))->Ok_0.1, no_seq_options()),
                whole is Some ==> seq_options_from(toks, self.position(), opts) == whole && seq_matches(toks, stmt, opts)
                    && old(self).moved_to(&*self, self.position()),
                old(self).steps(&*self),
                stmt.if_not_exists == head_if,
                stmt.name == head_name,
                kw_at(old(self).toks(), old(self).position(), Keyword::SEQUENCE),
                head_if == has_if_not_exists(old(self).toks(), old(self).position() + 1),
                object_name_at(old(self).toks(), if_not_exists_end(old(self).toks(), old(self).position() + 1)) matches Ok((n, _)),
                strings_view(head_name@) == object_name_at(old(self).toks(), if_not_exists_end(old(self).toks(), old(self).position() + 1))->Ok_0.0,
            ensures
                toks == old(self).toks(),
                object_name_at(toks, if_not_exists_end(toks, old(self).position() + 1)) is Ok,
                whole == seq_options_from(toks, object_name_at(toks, if_not_exists_end(toks, old(self).position() + 1))->Ok_0.1, no_seq_options()),
                whole is Some ==> whole == Some(Outcome::<SeqOptions>::Ok((opts, self.position()))) && seq_matches(toks, stmt, opts)
                    && old(self).moved_to(&*self, self.position()),
                old(self).steps(&*self),
                stmt.if_not_exists == head_if,
                stmt.name == head_name,
                kw_at(old(self).toks(), old(self).position(), Keyword::SEQUENCE),
                head_if == has_if_not_exists(old(self).toks(), old(self).position() + 1),
                object_name_at(old(self).toks(), if_not_exists_end(old(self).toks(), old(self).position() + 1)) matches Ok((n, _)),
                strings_view(head_name@) == object_name_at(old(self).toks(), if_not_exists_end(old(self).toks(), old(self).position() + 1))->Ok_0.0,
            decreases self.toks().len() - self.position(),
        {
            let ghost pos = self.position();
            let ghost step = seq_step(toks, pos, opts);
            let kw = self.peek_keyword();
            if kw == Some(Keyword::START) || kw == Some(Keyword::INCREMENT) || kw == Some(Keyword::MINVALUE)
                || kw == Some(Keyword::MAXVALUE) || kw == Some(Keyword::CACHE) {
                self.advance();
                if kw == Some(Keyword::START) {
                    let _ = self.try_consume_keyword(Keyword::WITH);
                } else if kw == Some(Keyword::INCREMENT) {
                    let _ = self.try_consume_keyword(Keyword::BY);
                }
                let e = match self.parse_expr() {
                    Ok(e) => e,
                    Err(e) => return Err(e),
                };
                if kw == Some(Keyword::START) {
                    stmt.start = Some(e);
                } else if kw == Some(Keyword::INCREMENT) {
                    stmt.increment = Some(e);
                } else if kw == Some(Keyword::MINVALUE) {
                    stmt.min_value = Some(e);
                } else if kw == Some(Keyword::MAXVALUE) {
                    stmt.max_value = Some(e);
                } else {
                    stmt.cache = Some(e);
                }
            } else if kw == Some(Keyword::CYCLE) {
                self.advance();
                stmt.cycle = true;
            } else if kw == Some(Keyword::NO) {
                self.advance();
                if self.match_keyword(Keyword::CYCLE) {
                    self.advance();
                    stmt.cycle = false;
                } else if self.match_keyword(Keyword::MINVALUE) {
                    self.advance();
                    stmt.min_value = None;
                } else if self.match_keyword(Keyword::MAXVALUE) {
                    self.advance();
                    stmt.max_value = None;
                }
            } else if kw == Some(Keyword::OWNED) {
                self.advance();
                match self.expect_keyword(Keyword::BY) {
                    Ok(()) => {},
                    Err(e) => return Err(e),
                }
                proof {
                    lemma_object_name_bounds(self.toks(), self.position());
                }
                match self.parse_object_name() {
                    Ok(n) => stmt.owned_by = Some(n),
                    Err(e) => return Err(e),
                }
            } else if self.match_ident_str("NOORDER") || self.match_ident_str("ORDER") {
                self.advance();
            } else {
                break;
            }
            proof {
                if whole is Some {
                    opts = step->Next_0;
                }
            }
        }
        Ok(stmt)
    }
}

} // verus!
