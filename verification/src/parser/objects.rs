//! CREATE and ALTER statements of other database objects (conversions, synonyms, access
//! methods, directories, operator classes and families, text search dictionaries, and
//! the objects whose definition is kept as the statement's remaining text).
use vstd::prelude::*;
use crate::ast::{
    AlterAppWorkloadGroupMappingStatement, AlterAuditPolicyStatement, AlterCoordinatorStatement, AlterDataSourceStatement, AlterEventStatement, AlterFdwStatement, AlterForeignServerStatement, AlterForeignTableStatement, AlterMaterializedViewStatement, AlterNodeGroupStatement, AlterNodeStatement, AlterOpFamilyStatement, AlterPublicationStatement, AlterRlsPolicyStatement, AlterSubscriptionStatement, AlterSynonymAction, AlterSynonymStatement, AlterTextSearchConfigStatement, AlterTextSearchDictStatement, AlterWorkloadGroupStatement, CreateAmStatement, CreateContQueryStatement, CreateConversionStatement, CreateDirectoryStatement, CreateEventStatement, CreateKeyStatement, CreateModelStatement, CreateOpClassStatement, CreateOpFamilyStatement, CreateStreamStatement, CreateSynonymStatement,
};
use crate::error::ParserError;
use crate::hint_validator::trim;
use crate::parser::alter::{name_at, rest_end, rest_text};
use crate::parser::ddl::{agrees, kw_at, lemma_object_name_bounds};
use crate::parser::options::OptionView;
use crate::parser::{ident_word_at, object_name_at, strings_view, tok_at, Outcome, Parser};
use crate::token::{keyword_text, Keyword, Token};

verus! {

// ────────────────────────────────────────────────────────────────
// Shapes shared by several statements
// ────────────────────────────────────────────────────────────────

/// The rest of the statement from `k` as text, and where the statement ends.
pub open spec fn rest_from(toks: Seq<Token>, k: int) -> (Seq<char>, int) {
    (trim(rest_text(toks, k, seq![])), rest_end(toks, k))
}

/// `name rest...` at `i`.
pub open spec fn name_rest_at(toks: Seq<Token>, i: int) -> Outcome<(Seq<char>, Seq<char>)> {
    match name_at(toks, i) {
        Err(e) => Err(e),
        Ok((name, j)) => Ok(((name, rest_from(toks, j).0), rest_from(toks, j).1)),
    }
}

/// `object.name rest...` at `i`.
pub open spec fn object_name_rest_at(toks: Seq<Token>, i: int) -> Outcome<(Seq<Seq<char>>, Seq<char>)> {
    match object_name_at(toks, i) {
        Err(e) => Err(e),
        Ok((name, j)) => Ok(((name, rest_from(toks, j).0), rest_from(toks, j).1)),
    }
}

/// The keyword `kw` at `i`, or the error that reports it missing.
pub open spec fn keyword_then(toks: Seq<Token>, i: int, kw: Keyword) -> Outcome<()> {
    if kw_at(toks, i, kw) { Ok(((), i + 1)) } else { Err((i, keyword_text(kw))) }
}

/// `kw rest...` at `i`.
pub open spec fn keyword_rest_at(toks: Seq<Token>, i: int, kw: Keyword) -> Outcome<Seq<char>> {
    match keyword_then(toks, i, kw) {
        Err(e) => Err(e),
        Ok((_, j)) => Ok((rest_from(toks, j).0, rest_from(toks, j).1)),
    }
}

/// `kw name rest...` at `i`.
pub open spec fn keyword_name_rest_at(toks: Seq<Token>, i: int, kw: Keyword) -> Outcome<(Seq<char>, Seq<char>)> {
    match keyword_then(toks, i, kw) {
        Err(e) => Err(e),
        Ok((_, j)) => name_rest_at(toks, j),
    }
}

/// `name USING method` at `i`.
pub open spec fn name_using_at(toks: Seq<Token>, i: int) -> Outcome<(Seq<char>, Seq<char>)> {
    match name_at(toks, i) {
        Err(e) => Err(e),
        Ok((name, j)) => match keyword_then(toks, j, Keyword::USING) {
            Err(e) => Err(e),
            Ok((_, k)) => match name_at(toks, k) {
                Err(e) => Err(e),
                Ok((method, m)) => Ok(((name, method), m)),
            },
        },
    }
}

/// Where an optional `;` at `i` ends.
pub open spec fn semicolon_end(toks: Seq<Token>, i: int) -> int {
    if tok_at(toks, i) is Semicolon { i + 1 } else { i }
}

/// A string literal's contents or an identifier at `i`.
pub open spec fn string_or_name_at(toks: Seq<Token>, i: int) -> Outcome<Seq<char>> {
    match tok_at(toks, i) {
        Token::StringLiteral(s) => Ok((s@, i + 1)),
        _ => name_at(toks, i),
    }
}

impl Parser {
    /// Consumes a `;` if it is current.
    pub fn try_consume_semicolon(&mut self)
        requires
            old(self).wf(),
        ensures
            final(self).wf(),
            old(self).moved_to(&*final(self), semicolon_end(old(self).toks(), old(self).position())),
    {
        if self.match_token(&Token::Semicolon) {
            self.advance();
        }
    }

    /// The rest of the statement (up to `;` or the end) as text.
    pub fn skip_to_semicolon_and_collect(&mut self) -> (s: String)
        requires
            old(self).wf(),
        ensures
            final(self).wf(),
            s@ == rest_from(old(self).toks(), old(self).position()).0,
            old(self).moved_to(&*final(self), rest_from(old(self).toks(), old(self).position()).1),
    {
        self.collect_rest_until_semicolon()
    }

    fn parse_name_rest(&mut self) -> (r: Result<(String, String), ParserError>)
        requires
            old(self).wf(),
        ensures
            final(self).wf(),
            agrees(&*old(self), &*final(self), r, name_rest_at(old(self).toks(), old(self).position()),
                |p: (String, String)| (p.0@, p.1@)),
    {
        let name = match self.parse_identifier() {
            Ok(n) => n,
            Err(e) => return Err(e),
        };
        let raw_rest = self.skip_to_semicolon_and_collect();
        Ok((name, raw_rest))
    }

    fn parse_object_name_rest(&mut self) -> (r: Result<(Vec<String>, String), ParserError>)
        requires
            old(self).wf(),
        ensures
            final(self).wf(),
            agrees(&*old(self), &*final(self), r, object_name_rest_at(old(self).toks(), old(self).position()),
                |p: (Vec<String>, String)| (strings_view(p.0@), p.1@)),
    {
        let name = match self.parse_object_name() {
            Ok(n) => n,
            Err(e) => return Err(e),
        };
        let raw_rest = self.skip_to_semicolon_and_collect();
        Ok((name, raw_rest))
    }

    fn parse_name_using(&mut self) -> (r: Result<(String, String), ParserError>)
        requires
            old(self).wf(),
        ensures
            final(self).wf(),
            agrees(&*old(self), &*final(self), r, name_using_at(old(self).toks(), old(self).position()),
                |p: (String, String)| (p.0@, p.1@)),
    {
        let name = match self.parse_identifier() {
            Ok(n) => n,
            Err(e) => return Err(e),
        };
        match self.expect_keyword(Keyword::USING) {
            Ok(()) => {},
            Err(e) => return Err(e),
        }
        let method = match self.parse_identifier() {
            Ok(m) => m,
            Err(e) => return Err(e),
        };
        Ok((name, method))
    }

    fn parse_string_or_name(&mut self) -> (r: Result<String, ParserError>)
        requires
            old(self).wf(),
        ensures
            final(self).wf(),
            agrees(&*old(self), &*final(self), r, string_or_name_at(old(self).toks(), old(self).position()), |s: String| s@),
    {
        let lit: Option<String> = match self.peek() {
            Token::StringLiteral(s) => Some(s.clone()),
            _ => None,
        };
        match lit {
            Some(s) => {
                self.advance();
                Ok(s)
            },
            None => self.parse_identifier(),
        }
    }

    // ── Statements kept as text ─────────────────────────────────

    /// `name rest...` of ALTER FOREIGN TABLE (the name may be qualified).
    pub fn parse_alter_foreign_table(&mut self) -> (r: Result<AlterForeignTableStatement, ParserError>)
        requires
            old(self).wf(),
        ensures
            final(self).wf(),
            agrees(&*old(self), &*final(self), r, object_name_rest_at(old(self).toks(), old(self).position()),
                |s: AlterForeignTableStatement| (strings_view(s.name@), s.raw_rest@)),
    {
        match self.parse_object_name_rest() {
            Ok((name, raw_rest)) => Ok(AlterForeignTableStatement { name, raw_rest }),
            Err(e) => Err(e),
        }
    }

    /// `name rest...` of ALTER SERVER.
    pub fn parse_alter_foreign_server(&mut self) -> (r: Result<AlterForeignServerStatement, ParserError>)
        requires
            old(self).wf(),
        ensures
            final(self).wf(),
            agrees(&*old(self), &*final(self), r, name_rest_at(old(self).toks(), old(self).position()),
                |s: AlterForeignServerStatement| (s.name@, s.raw_rest@)),
    {
        match self.parse_name_rest() {
            Ok((name, raw_rest)) => Ok(AlterForeignServerStatement { name, raw_rest }),
            Err(e) => Err(e),
        }
    }

    /// `name rest...` of ALTER FOREIGN DATA WRAPPER.
    pub fn parse_alter_fdw(&mut self) -> (r: Result<AlterFdwStatement, ParserError>)
        requires
            old(self).wf(),
        ensures
            final(self).wf(),
            agrees(&*old(self), &*final(self), r, name_rest_at(old(self).toks(), old(self).position()),
                |s: AlterFdwStatement| (s.name@, s.raw_rest@)),
    {
        match self.parse_name_rest() {
            Ok((name, raw_rest)) => Ok(AlterFdwStatement { name, raw_rest }),
            Err(e) => Err(e),
        }
    }

    /// `name rest...` of ALTER PUBLICATION.
    pub fn parse_alter_publication(&mut self) -> (r: Result<AlterPublicationStatement, ParserError>)
        requires
            old(self).wf(),
        ensures
            final(self).wf(),
            agrees(&*old(self), &*final(self), r, name_rest_at(old(self).toks(), old(self).position()),
                |s: AlterPublicationStatement| (s.name@, s.raw_rest@)),
    {
        match self.parse_name_rest() {
            Ok((name, raw_rest)) => Ok(AlterPublicationStatement { name, raw_rest }),
            Err(e) => Err(e),
        }
    }

    /// `name rest...` of ALTER SUBSCRIPTION.
    pub fn parse_alter_subscription(&mut self) -> (r: Result<AlterSubscriptionStatement, ParserError>)
        requires
            old(self).wf(),
        ensures
            final(self).wf(),
            agrees(&*old(self), &*final(self), r, name_rest_at(old(self).toks(), old(self).position()),
                |s: AlterSubscriptionStatement| (s.name@, s.raw_rest@)),
    {
        match self.parse_name_rest() {
            Ok((name, raw_rest)) => Ok(AlterSubscriptionStatement { name, raw_rest }),
            Err(e) => Err(e),
        }
    }

    /// `name rest...` of ALTER NODE.
    pub fn parse_alter_node(&mut self) -> (r: Result<AlterNodeStatement, ParserError>)
        requires
            old(self).wf(),
        ensures
            final(self).wf(),
            agrees(&*old(self), &*final(self), r, name_rest_at(old(self).toks(), old(self).position()),
                |s: AlterNodeStatement| (s.name@, s.raw_rest@)),
    {
        match self.parse_name_rest() {
            Ok((name, raw_rest)) => Ok(AlterNodeStatement { name, raw_rest }),
            Err(e) => Err(e),
        }
    }

    /// `name rest...` of ALTER NODE GROUP.
    pub fn parse_alter_node_group(&mut self) -> (r: Result<AlterNodeGroupStatement, ParserError>)
        requires
            old(self).wf(),
        ensures
            final(self).wf(),
            agrees(&*old(self), &*final(self), r, name_rest_at(old(self).toks(), old(self).position()),
                |s: AlterNodeGroupStatement| (s.name@, s.raw_rest@)),
    {
        match self.parse_name_rest() {
            Ok((name, raw_rest)) => Ok(AlterNodeGroupStatement { name, raw_rest }),
            Err(e) => Err(e),
        }
    }

    /// `name rest...` of ALTER WORKLOAD GROUP.
    pub fn parse_alter_workload_group(&mut self) -> (r: Result<AlterWorkloadGroupStatement, ParserError>)
        requires
            old(self).wf(),
        ensures
            final(self).wf(),
            agrees(&*old(self), &*final(self), r, name_rest_at(old(self).toks(), old(self).position()),
                |s: AlterWorkloadGroupStatement| (s.name@, s.raw_rest@)),
    {
        match self.parse_name_rest() {
            Ok((name, raw_rest)) => Ok(AlterWorkloadGroupStatement { name, raw_rest }),
            Err(e) => Err(e),
        }
    }

    /// `name rest...` of ALTER AUDIT POLICY.
    pub fn parse_alter_audit_policy(&mut self) -> (r: Result<AlterAuditPolicyStatement, ParserError>)
        requires
            old(self).wf(),
        ensures
            final(self).wf(),
            agrees(&*old(self), &*final(self), r, name_rest_at(old(self).toks(), old(self).position()),
                |s: AlterAuditPolicyStatement| (s.name@, s.raw_rest@)),
    {
        match self.parse_name_rest() {
            Ok((name, raw_rest)) => Ok(AlterAuditPolicyStatement { name, raw_rest }),
            Err(e) => Err(e),
        }
    }

    /// `name rest...` of ALTER ROW LEVEL SECURITY POLICY.
    pub fn parse_alter_rls_policy(&mut self) -> (r: Result<AlterRlsPolicyStatement, ParserError>)
        requires
            old(self).wf(),
        ensures
            final(self).wf(),
            agrees(&*old(self), &*final(self), r, name_rest_at(old(self).toks(), old(self).position()),
                |s: AlterRlsPolicyStatement| (s.name@, s.raw_rest@)),
    {
        match self.parse_name_rest() {
            Ok((name, raw_rest)) => Ok(AlterRlsPolicyStatement { name, raw_rest }),
            Err(e) => Err(e),
        }
    }

    /// `name rest...` of ALTER DATA SOURCE.
    pub fn parse_alter_data_source(&mut self) -> (r: Result<AlterDataSourceStatement, ParserError>)
        requires
            old(self).wf(),
        ensures
            final(self).wf(),
            agrees(&*old(self), &*final(self), r, name_rest_at(old(self).toks(), old(self).position()),
                |s: AlterDataSourceStatement| (s.name@, s.raw_rest@)),
    {
        match self.parse_name_rest() {
            Ok((name, raw_rest)) => Ok(AlterDataSourceStatement { name, raw_rest }),
            Err(e) => Err(e),
        }
    }

    /// `name rest...` of ALTER EVENT.
    pub fn parse_alter_event(&mut self) -> (r: Result<AlterEventStatement, ParserError>)
        requires
            old(self).wf(),
        ensures
            final(self).wf(),
            agrees(&*old(self), &*final(self), r, name_rest_at(old(self).toks(), old(self).position()),
                |s: AlterEventStatement| (s.name@, s.raw_rest@)),
    {
        match self.parse_name_rest() {
            Ok((name, raw_rest)) => Ok(AlterEventStatement { name, raw_rest }),
            Err(e) => Err(e),
        }
    }

    /// `name rest...` of ALTER MATERIALIZED VIEW (the name may be qualified).
    pub fn parse_alter_materialized_view(&mut self) -> (r: Result<AlterMaterializedViewStatement, ParserError>)
        requires
            old(self).wf(),
        ensures
            final(self).wf(),
            agrees(&*old(self), &*final(self), r, object_name_rest_at(old(self).toks(), old(self).position()),
                |s: AlterMaterializedViewStatement| (strings_view(s.name@), s.raw_rest@)),
    {
        match self.parse_object_name_rest() {
            Ok((name, raw_rest)) => Ok(AlterMaterializedViewStatement { name, raw_rest }),
            Err(e) => Err(e),
        }
    }

    /// `name rest...` of ALTER TEXT SEARCH CONFIGURATION (the name may be qualified).
    pub fn parse_alter_text_search_config(&mut self) -> (r: Result<AlterTextSearchConfigStatement, ParserError>)
        requires
            old(self).wf(),
        ensures
            final(self).wf(),
            agrees(&*old(self), &*final(self), r, object_name_rest_at(old(self).toks(), old(self).position()),
                |s: AlterTextSearchConfigStatement| (strings_view(s.name@), s.raw_rest@)),
    {
        match self.parse_object_name_rest() {
            Ok((name, raw_rest)) => Ok(AlterTextSearchConfigStatement { name, raw_rest }),
            Err(e) => Err(e),
        }
    }

    /// `name rest...` of ALTER COORDINATOR.
    pub fn parse_alter_coordinator(&mut self) -> (r: Result<AlterCoordinatorStatement, ParserError>)
        requires
            old(self).wf(),
        ensures
            final(self).wf(),
            agrees(&*old(self), &*final(self), r, name_rest_at(old(self).toks(), old(self).position()),
                |s: AlterCoordinatorStatement| (s.name@, s.raw_rest@)),
    {
        match self.parse_name_rest() {
            Ok((name, raw_rest)) => Ok(AlterCoordinatorStatement { name, raw_rest }),
            Err(e) => Err(e),
        }
    }

    /// `name rest...` of ALTER APP WORKLOAD GROUP MAPPING.
    pub fn parse_alter_app_workload_group_mapping(&mut self) -> (r: Result<AlterAppWorkloadGroupMappingStatement, ParserError>)
        requires
            old(self).wf(),
        ensures
            final(self).wf(),
            agrees(&*old(self), &*final(self), r, name_rest_at(old(self).toks(), old(self).position()),
                |s: AlterAppWorkloadGroupMappingStatement| (s.name@, s.raw_rest@)),
    {
        match self.parse_name_rest() {
            Ok((name, raw_rest)) => Ok(AlterAppWorkloadGroupMappingStatement { name, raw_rest }),
            Err(e) => Err(e),
        }
    }

    /// `MODEL name rest...`.
    pub fn parse_create_model(&mut self) -> (r: Result<CreateModelStatement, ParserError>)
        requires
            old(self).wf(),
        ensures
            final(self).wf(),
            agrees(&*old(self), &*final(self), r, keyword_name_rest_at(old(self).toks(), old(self).position(), Keyword::MODEL),
                |s: CreateModelStatement| (s.name@, s.raw_rest@)),
    {
        match self.expect_keyword(Keyword::MODEL) {
            Ok(()) => {},
            Err(e) => return Err(e),
        }
        match self.parse_name_rest() {
            Ok((name, raw_rest)) => Ok(CreateModelStatement { name, raw_rest }),
            Err(e) => Err(e),
        }
    }

    /// `EVENT name rest...`.
    pub fn parse_create_event(&mut self) -> (r: Result<CreateEventStatement, ParserError>)
        requires
            old(self).wf(),
        ensures
            final(self).wf(),
            agrees(&*old(self), &*final(self), r, keyword_name_rest_at(old(self).toks(), old(self).position(), Keyword::EVENT),
                |s: CreateEventStatement| (s.name@, s.raw_rest@)),
    {
        match self.expect_keyword(Keyword::EVENT) {
            Ok(()) => {},
            Err(e) => return Err(e),
        }
        match self.parse_name_rest() {
            Ok((name, raw_rest)) => Ok(CreateEventStatement { name, raw_rest }),
            Err(e) => Err(e),
        }
    }

    /// The definition of a continuous query, kept as text.
    pub fn parse_create_contquery(&mut self) -> (r: Result<CreateContQueryStatement, ParserError>)
        requires
            old(self).wf(),
        ensures
            final(self).wf(),
            r matches Ok(s) && s.raw_rest@ == rest_from(old(self).toks(), old(self).position()).0,
            old(self).moved_to(&*final(self), rest_from(old(self).toks(), old(self).position()).1),
    {
        let raw_rest = self.skip_to_semicolon_and_collect();
        Ok(CreateContQueryStatement { raw_rest })
    }

    /// `STREAM rest...`.
    pub fn parse_create_stream(&mut self) -> (r: Result<CreateStreamStatement, ParserError>)
        requires
            old(self).wf(),
        ensures
            final(self).wf(),
            agrees(&*old(self), &*final(self), r, keyword_rest_at(old(self).toks(), old(self).position(), Keyword::STREAM),
                |s: CreateStreamStatement| s.raw_rest@),
    {
        match self.expect_keyword(Keyword::STREAM) {
            Ok(()) => {},
            Err(e) => return Err(e),
        }
        let raw_rest = self.skip_to_semicolon_and_collect();
        Ok(CreateStreamStatement { raw_rest })
    }

    /// `KEY rest...`.
    pub fn parse_create_key(&mut self) -> (r: Result<CreateKeyStatement, ParserError>)
        requires
            old(self).wf(),
        ensures
            final(self).wf(),
            agrees(&*old(self), &*final(self), r, keyword_rest_at(old(self).toks(), old(self).position(), Keyword::KEY),
                |s: CreateKeyStatement| s.raw_rest@),
    {
        match self.expect_keyword(Keyword::KEY) {
            Ok(()) => {},
            Err(e) => return Err(e),
        }
        let raw_rest = self.skip_to_semicolon_and_collect();
        Ok(CreateKeyStatement { raw_rest })
    }
}

// ────────────────────────────────────────────────────────────────
// Statements with their own clauses
// ────────────────────────────────────────────────────────────────

/// `CONVERSION name FOR source TO dest FROM function [;]` at `i`, the encodings being
/// string literals or identifiers.
pub open spec fn create_conversion_at(toks: Seq<Token>, i: int) -> Outcome<(Seq<char>, Seq<char>, Seq<char>, Seq<char>)> {
    match keyword_then(toks, i, Keyword::CONVERSION_P) {
        Err(e) => Err(e),
        Ok((_, i1)) => match name_at(toks, i1) {
            Err(e) => Err(e),
            Ok((name, i2)) => match keyword_then(toks, i2, Keyword::FOR) {
                Err(e) => Err(e),
                Ok((_, i3)) => match string_or_name_at(toks, i3) {
                    Err(e) => Err(e),
                    Ok((src, i4)) => match keyword_then(toks, i4, Keyword::TO) {
                        Err(e) => Err(e),
                        Ok((_, i5)) => match string_or_name_at(toks, i5) {
                            Err(e) => Err(e),
                            Ok((dst, i6)) => match keyword_then(toks, i6, Keyword::FROM) {
                                Err(e) => Err(e),
                                Ok((_, i7)) => match name_at(toks, i7) {
                                    Err(e) => Err(e),
                                    Ok((func, i8)) => Ok(((name, src, dst, func), semicolon_end(toks, i8))),
                                },
                            },
                        },
                    },
                },
            },
        },
    }
}

/// `SYNONYM name FOR target [PUBLIC] [;]` at `i`: name, target, PUBLIC.
pub open spec fn create_synonym_at(toks: Seq<Token>, i: int) -> Outcome<(Seq<Seq<char>>, Seq<Seq<char>>, bool)> {
    match keyword_then(toks, i, Keyword::SYNONYM) {
        Err(e) => Err(e),
        Ok((_, i1)) => match object_name_at(toks, i1) {
            Err(e) => Err(e),
            Ok((name, i2)) => match keyword_then(toks, i2, Keyword::FOR) {
                Err(e) => Err(e),
                Ok((_, i3)) => match object_name_at(toks, i3) {
                    Err(e) => Err(e),
                    Ok((target, i4)) => {
                        let public = ident_word_at(toks, i4, "PUBLIC"@);
                        Ok(((name, target, public), semicolon_end(toks, if public { i4 + 1 } else { i4 })))
                    },
                },
            },
        },
    }
}

/// `ACCESS METHOD name TYPE method HANDLER handler [;]` at `i`.
pub open spec fn create_am_at(toks: Seq<Token>, i: int) -> Outcome<(Seq<char>, Seq<char>, Seq<char>)> {
    match keyword_then(toks, i, Keyword::ACCESS) {
        Err(e) => Err(e),
        Ok((_, i1)) => match keyword_then(toks, i1, Keyword::METHOD) {
            Err(e) => Err(e),
            Ok((_, i2)) => match name_at(toks, i2) {
                Err(e) => Err(e),
                Ok((name, i3)) => match keyword_then(toks, i3, Keyword::TYPE_P) {
                    Err(e) => Err(e),
                    Ok((_, i4)) => match name_at(toks, i4) {
                        Err(e) => Err(e),
                        Ok((method, i5)) => match keyword_then(toks, i5, Keyword::HANDLER) {
                            Err(e) => Err(e),
                            Ok((_, i6)) => match name_at(toks, i6) {
                                Err(e) => Err(e),
                                Ok((handler, i7)) => Ok(((name, method, handler), semicolon_end(toks, i7))),
                            },
                        },
                    },
                },
            },
        },
    }
}

/// `DIRECTORY name [AS path] [;]` at `i`; without a path it is empty.
pub open spec fn create_directory_at(toks: Seq<Token>, i: int) -> Outcome<(Seq<char>, Seq<char>)> {
    match keyword_then(toks, i, Keyword::DIRECTORY) {
        Err(e) => Err(e),
        Ok((_, i1)) => match name_at(toks, i1) {
            Err(e) => Err(e),
            Ok((name, i2)) => if kw_at(toks, i2, Keyword::AS) {
                match string_or_name_at(toks, i2 + 1) {
                    Err(e) => Err(e),
                    Ok((path, i3)) => Ok(((name, path), semicolon_end(toks, i3))),
                }
            } else {
                Ok(((name, Seq::empty()), semicolon_end(toks, i2)))
            },
        },
    }
}

/// `kw name USING method` at `i`.
pub open spec fn keyword_name_using_at(toks: Seq<Token>, i: int, kw: Keyword) -> Outcome<(Seq<char>, Seq<char>)> {
    match keyword_then(toks, i, kw) {
        Err(e) => Err(e),
        Ok((_, i1)) => name_using_at(toks, i1),
    }
}

/// Options `key = value, ... )` of a text search dictionary from `m` on, after `acc`.
pub open spec fn dict_options_at(toks: Seq<Token>, m: int, acc: Seq<OptionView>) -> Outcome<Seq<OptionView>>
    decreases toks.len() - m,
{
    match name_at(toks, m) {
        Err(e) => Err(e),
        Ok((key, m1)) => if !(tok_at(toks, m1) is Eq) {
            Err((m1, "="@))
        } else {
            match name_at(toks, m1 + 1) {
                Err(e) => Err(e),
                Ok((value, m2)) => if tok_at(toks, m2) is Comma {
                    dict_options_at(toks, m2 + 1, acc.push((key, value)))
                } else if tok_at(toks, m2) is RParen {
                    Ok((acc.push((key, value)), m2 + 1))
                } else {
                    Err((m2, ")"@))
                },
            }
        },
    }
}

proof fn lemma_dict_options_bounds(toks: Seq<Token>, m: int, acc: Seq<OptionView>)
    ensures
        match dict_options_at(toks, m, acc) {
            Ok((_, q)) => m < q,
            Err((q, _)) => m <= q,
        },
    decreases toks.len() - m,
{
    if let Ok((key, m1)) = name_at(toks, m) {
        if tok_at(toks, m1) is Eq {
            if let Ok((value, m2)) = name_at(toks, m1 + 1) {
                if tok_at(toks, m2) is Comma {
                    lemma_dict_options_bounds(toks, m2 + 1, acc.push((key, value)));
                }
            }
        }
    }
}

/// ALTER TEXT SEARCH DICTIONARY at `i`: `name [( key = value, ... )]`.
pub open spec fn alter_text_search_dict_at(toks: Seq<Token>, i: int) -> Outcome<(Seq<Seq<char>>, Seq<OptionView>)> {
    match object_name_at(toks, i) {
        Err(e) => Err(e),
        Ok((name, j)) => if tok_at(toks, j) is LParen {
            match dict_options_at(toks, j + 1, Seq::empty()) {
                Err(e) => Err(e),
                Ok((o, m)) => Ok(((name, o), m)),
            }
        } else {
            Ok(((name, Seq::empty()), j))
        },
    }
}

/// An ALTER SYNONYM action as plain values.
pub enum SynonymActionView {
    Compile(bool),
    OwnerTo(Seq<char>),
}

pub open spec fn synonym_action_view(a: AlterSynonymAction) -> SynonymActionView {
    match a {
        AlterSynonymAction::Compile { debug } => SynonymActionView::Compile(debug),
        AlterSynonymAction::OwnerTo { new_owner } => SynonymActionView::OwnerTo(new_owner@),
    }
}

/// ALTER SYNONYM at `i`: `name COMPILE [DEBUG]` or `name OWNER TO role`; `None` when
/// neither follows the name (the statement is then refused after its rest is read).
pub open spec fn alter_synonym_at(toks: Seq<Token>, i: int) -> Option<Outcome<(Seq<char>, SynonymActionView)>> {
    match name_at(toks, i) {
        Err(e) => Some(Err(e)),
        Ok((name, j)) => if kw_at(toks, j, Keyword::COMPILE) {
            let debug = ident_word_at(toks, j + 1, "DEBUG"@);
            Some(Ok(((name, SynonymActionView::Compile(debug)), if debug { j + 2 } else { j + 1 })))
        } else if kw_at(toks, j, Keyword::OWNER) {
            Some(match keyword_then(toks, j + 1, Keyword::TO) {
                Err(e) => Err(e),
                Ok((_, k)) => match name_at(toks, k) {
                    Err(e) => Err(e),
                    Ok((owner, m)) => Ok(((name, SynonymActionView::OwnerTo(owner)), m)),
                },
            })
        } else {
            None
        },
    }
}

impl Parser {
    /// `CONVERSION name FOR source TO dest FROM function [;]`.
    pub fn parse_create_conversion(&mut self) -> (r: Result<CreateConversionStatement, ParserError>)
        requires
            old(self).wf(),
        ensures
            final(self).wf(),
            agrees(&*old(self), &*final(self), r, create_conversion_at(old(self).toks(), old(self).position()),
                |s: CreateConversionStatement| (s.name@, s.source_encoding@, s.dest_encoding@, s.function_name@)),
    {
        match self.expect_keyword(Keyword::CONVERSION_P) {
            Ok(()) => {},
            Err(e) => return Err(e),
        }
        let name = match self.parse_identifier() {
            Ok(n) => n,
            Err(e) => return Err(e),
        };
        match self.expect_keyword(Keyword::FOR) {
            Ok(()) => {},
            Err(e) => return Err(e),
        }
        let source_encoding = match self.parse_string_or_name() {
            Ok(s) => s,
            Err(e) => return Err(e),
        };
        match self.expect_keyword(Keyword::TO) {
            Ok(()) => {},
            Err(e) => return Err(e),
        }
        let dest_encoding = match self.parse_string_or_name() {
            Ok(s) => s,
            Err(e) => return Err(e),
        };
        match self.expect_keyword(Keyword::FROM) {
            Ok(()) => {},
            Err(e) => return Err(e),
        }
        let function_name = match self.parse_identifier() {
            Ok(n) => n,
            Err(e) => return Err(e),
        };
        self.try_consume_semicolon();
        Ok(CreateConversionStatement { name, source_encoding, dest_encoding, function_name })
    }

    /// `SYNONYM name FOR target [PUBLIC] [;]`, after `CREATE [OR REPLACE]`.
    pub fn parse_create_synonym(&mut self, replace: bool) -> (r: Result<CreateSynonymStatement, ParserError>)
        requires
            old(self).wf(),
        ensures
            final(self).wf(),
            agrees(&*old(self), &*final(self), r, create_synonym_at(old(self).toks(), old(self).position()),
                |s: CreateSynonymStatement| (strings_view(s.name@), strings_view(s.target@), s.public)),
            r matches Ok(s) ==> s.replace == replace,
    {
        match self.expect_keyword(Keyword::SYNONYM) {
            Ok(()) => {},
            Err(e) => return Err(e),
        }
        let name = match self.parse_object_name() {
            Ok(n) => n,
            Err(e) => return Err(e),
        };
        match self.expect_keyword(Keyword::FOR) {
            Ok(()) => {},
            Err(e) => return Err(e),
        }
        let target = match self.parse_object_name() {
            Ok(n) => n,
            Err(e) => return Err(e),
        };
        let public = self.try_consume_ident_str("PUBLIC");
        self.try_consume_semicolon();
        Ok(CreateSynonymStatement { replace, name, target, public })
    }

    /// `ACCESS METHOD name TYPE method HANDLER handler [;]`.
    pub fn parse_create_am(&mut self) -> (r: Result<CreateAmStatement, ParserError>)
        requires
            old(self).wf(),
        ensures
            final(self).wf(),
            agrees(&*old(self), &*final(self), r, create_am_at(old(self).toks(), old(self).position()),
                |s: CreateAmStatement| (s.name@, s.method@, s.handler@)),
    {
        match self.expect_keyword(Keyword::ACCESS) {
            Ok(()) => {},
            Err(e) => return Err(e),
        }
        match self.expect_keyword(Keyword::METHOD) {
            Ok(()) => {},
            Err(e) => return Err(e),
        }
        let name = match self.parse_identifier() {
            Ok(n) => n,
            Err(e) => return Err(e),
        };
        match self.expect_keyword(Keyword::TYPE_P) {
            Ok(()) => {},
            Err(e) => return Err(e),
        }
        let method = match self.parse_identifier() {
            Ok(n) => n,
            Err(e) => return Err(e),
        };
        match self.expect_keyword(Keyword::HANDLER) {
            Ok(()) => {},
            Err(e) => return Err(e),
        }
        let handler = match self.parse_identifier() {
            Ok(n) => n,
            Err(e) => return Err(e),
        };
        self.try_consume_semicolon();
        Ok(CreateAmStatement { name, method, handler })
    }

    /// `DIRECTORY name [AS path] [;]`.
    pub fn parse_create_directory(&mut self) -> (r: Result<CreateDirectoryStatement, ParserError>)
        requires
            old(self).wf(),
        ensures
            final(self).wf(),
            agrees(&*old(self), &*final(self), r, create_directory_at(old(self).toks(), old(self).position()),
                |s: CreateDirectoryStatement| (s.name@, s.path@)),
    {
        match self.expect_keyword(Keyword::DIRECTORY) {
            Ok(()) => {},
            Err(e) => return Err(e),
        }
        let name = match self.parse_identifier() {
            Ok(n) => n,
            Err(e) => return Err(e),
        };
        if self.try_consume_keyword(Keyword::AS) {
            let path = match self.parse_string_or_name() {
                Ok(p) => p,
                Err(e) => return Err(e),
            };
            self.try_consume_semicolon();
            Ok(CreateDirectoryStatement { name, path })
        } else {
            let path = String::new();
            self.try_consume_semicolon();
            Ok(CreateDirectoryStatement { name, path })
        }
    }

    /// `CLASS name USING method rest...`.
    pub fn parse_create_opclass(&mut self) -> (r: Result<CreateOpClassStatement, ParserError>)
        requires
            old(self).wf(),
        ensures
            final(self).wf(),
            match keyword_name_using_at(old(self).toks(), old(self).position(), Keyword::CLASS) {
                Err((q, expected)) => r is Err && old(self).moved_to(&*final(self), q) && old(self).reports(r->Err_0, q, expected),
                Ok(((name, method), q)) => r matches Ok(s) && s.name@ == name && s.method@ == method
                    && s.raw_rest@ == rest_from(old(self).toks(), q).0
                    && old(self).moved_to(&*final(self), rest_from(old(self).toks(), q).1),
            },
    {
        match self.expect_keyword(Keyword::CLASS) {
            Ok(()) => {},
            Err(e) => return Err(e),
        }
        let (name, method) = match self.parse_name_using() {
            Ok(p) => p,
            Err(e) => return Err(e),
        };
        let raw_rest = self.skip_to_semicolon_and_collect();
        Ok(CreateOpClassStatement { name, method, raw_rest })
    }

    /// `FAMILY name USING method [;]`.
    pub fn parse_create_opfamily(&mut self) -> (r: Result<CreateOpFamilyStatement, ParserError>)
        requires
            old(self).wf(),
        ensures
            final(self).wf(),
            match keyword_name_using_at(old(self).toks(), old(self).position(), Keyword::FAMILY) {
                Err((q, expected)) => r is Err && old(self).moved_to(&*final(self), q) && old(self).reports(r->Err_0, q, expected),
                Ok(((name, method), q)) => r matches Ok(s) && s.name@ == name && s.method@ == method
                    && old(self).moved_to(&*final(self), semicolon_end(old(self).toks(), q)),
            },
    {
        match self.expect_keyword(Keyword::FAMILY) {
            Ok(()) => {},
            Err(e) => return Err(e),
        }
        let (name, method) = match self.parse_name_using() {
            Ok(p) => p,
            Err(e) => return Err(e),
        };
        self.try_consume_semicolon();
        Ok(CreateOpFamilyStatement { name, method })
    }

    /// `name USING method rest...` of ALTER OPERATOR FAMILY.
    pub fn parse_alter_opfamily(&mut self) -> (r: Result<AlterOpFamilyStatement, ParserError>)
        requires
            old(self).wf(),
        ensures
            final(self).wf(),
            match name_using_at(old(self).toks(), old(self).position()) {
                Err((q, expected)) => r is Err && old(self).moved_to(&*final(self), q) && old(self).reports(r->Err_0, q, expected),
                Ok(((name, method), q)) => r matches Ok(s) && s.name@ == name && s.method@ == method
                    && s.raw_rest@ == rest_from(old(self).toks(), q).0
                    && old(self).moved_to(&*final(self), rest_from(old(self).toks(), q).1),
            },
    {
        let (name, method) = match self.parse_name_using() {
            Ok(p) => p,
            Err(e) => return Err(e),
        };
        let raw_rest = self.skip_to_semicolon_and_collect();
        Ok(AlterOpFamilyStatement { name, method, raw_rest })
    }

    /// `key = value, ... )` after an opening parenthesis.
    pub(crate) fn parse_dict_options(&mut self) -> (r: Result<Vec<(String, String)>, ParserError>)
        requires
            old(self).wf(),
        ensures
            final(self).wf(),
            agrees(&*old(self), &*final(self), r, dict_options_at(old(self).toks(), old(self).position(), Seq::empty()),
                |v: Vec<(String, String)>| crate::parser::options::options_view(v@)),
            old(self).position() <= final(self).position(),
    {
        proof { lemma_dict_options_bounds(self.toks(), self.position(), Seq::empty()); }
        let mut options: Vec<(String, String)> = Vec::new();
        assert(crate::parser::options::options_view(options@) =~= Seq::<OptionView>::empty());
        loop
            invariant_except_break
                dict_options_at(old(self).toks(), old(self).position(), Seq::empty())
                    == dict_options_at(self.toks(), self.position(), crate::parser::options::options_view(options@)),
            invariant
                self.wf(),
                old(self).moved_to(&*self, self.position()),
                old(self).position() <= self.position(),
            ensures
                dict_options_at(old(self).toks(), old(self).position(), Seq::empty()) == if self.current() is RParen {
                    Outcome::<Seq<OptionView>>::Ok((crate::parser::options::options_view(options@), self.position() + 1))
                } else {
                    Outcome::<Seq<OptionView>>::Err((self.position(), ")"@))
                },
            decreases self.toks().len() - self.position(),
        {
            let key = match self.parse_identifier() {
                Ok(k) => k,
                Err(e) => return Err(e),
            };
            match self.expect_token(&Token::Eq, "=") {
                Ok(()) => {},
                Err(e) => return Err(e),
            }
            let value = match self.parse_identifier() {
                Ok(v) => v,
                Err(e) => return Err(e),
            };
            let ghost before = crate::parser::options::options_view(options@);
            options.push((key, value));
            assert(crate::parser::options::options_view(options@) =~= before.push((key@, value@)));
            if !self.match_token(&Token::Comma) {
                break;
            }
            self.advance();
        }
        match self.expect_token(&Token::RParen, ")") {
            Ok(()) => Ok(options),
            Err(e) => Err(e),
        }
    }

    /// `name [( key = value, ... )]` of ALTER TEXT SEARCH DICTIONARY.
    pub fn parse_alter_text_search_dict(&mut self) -> (r: Result<AlterTextSearchDictStatement, ParserError>)
        requires
            old(self).wf(),
        ensures
            final(self).wf(),
            agrees(&*old(self), &*final(self), r, alter_text_search_dict_at(old(self).toks(), old(self).position()),
                |s: AlterTextSearchDictStatement| (strings_view(s.name@), crate::parser::options::options_view(s.options@))),
    {
        let name = match self.parse_object_name() {
            Ok(n) => n,
            Err(e) => return Err(e),
        };
        let mut options: Vec<(String, String)> = Vec::new();
        assert(crate::parser::options::options_view(options@) =~= Seq::<OptionView>::empty());
        if self.match_token(&Token::LParen) {
            self.advance();
            options = match self.parse_dict_options() {
                Ok(o) => o,
                Err(e) => return Err(e),
            };
        }
        Ok(AlterTextSearchDictStatement { name, options })
    }

    /// `name COMPILE [DEBUG]` or `name OWNER TO role` of ALTER SYNONYM; anything else is
    /// refused, reporting the rest of the statement (which is read) as what was found.
    pub fn parse_alter_synonym(&mut self) -> (r: Result<AlterSynonymStatement, ParserError>)
        requires
            old(self).wf(),
        ensures
            final(self).wf(),
            match alter_synonym_at(old(self).toks(), old(self).position()) {
                Some(o) => agrees(&*old(self), &*final(self), r, o,
                    |s: AlterSynonymStatement| (s.name@, synonym_action_view(s.action))),
                None => {
                    let j = old(self).position() + 1;
                    let (rest, end) = rest_from(old(self).toks(), j);
                    &&& r matches Err(ParserError::UnexpectedToken { location, expected, got })
                    &&& location == old(self).location_at(end)
                    &&& expected@ == "COMPILE or OWNER after ALTER SYNONYM name"@
                    &&& got@ == rest
                    &&& old(self).moved_to(&*final(self), end)
                },
            },
    {
        let name = match self.parse_identifier() {
            Ok(n) => n,
            Err(e) => return Err(e),
        };
        let action = if self.try_consume_keyword(Keyword::COMPILE) {
            let debug = self.match_ident_str("DEBUG");
            if debug {
                self.advance();
            }
            AlterSynonymAction::Compile { debug }
        } else if self.try_consume_keyword(Keyword::OWNER) {
            match self.expect_keyword(Keyword::TO) {
                Ok(()) => {},
                Err(e) => return Err(e),
            }
            let new_owner = match self.parse_identifier() {
                Ok(n) => n,
                Err(e) => return Err(e),
            };
            AlterSynonymAction::OwnerTo { new_owner }
        } else {
            let raw_rest = self.skip_to_semicolon_and_collect();
            return Err(ParserError::UnexpectedToken {
                location: self.current_location(),
                expected: String::from_str("COMPILE or OWNER after ALTER SYNONYM name"),
                got: raw_rest,
            });
        };
        Ok(AlterSynonymStatement { name, action })
    }
}

} // verus!
