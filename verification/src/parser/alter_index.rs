//! ALTER INDEX and ALTER VIEW.
use vstd::prelude::*;
use crate::ast::{AlterIndexAction, AlterIndexStatement, AlterViewAction, AlterViewStatement};
use crate::error::ParserError;
use crate::hint_validator::trim;
use crate::parser::alter::{name_at, rest_end, rest_text};
use crate::parser::create::{ident_list_at, word_at};
use crate::parser::ddl::{agrees, has_if_exists, if_exists_end, kw_at, lemma_object_name_bounds};
use crate::parser::expr::opt_text;
use crate::parser::index::group_end;
use crate::parser::options::{options_view, paren_options_at, with_options_at, OptionView};
use crate::parser::{ident_word_at, keyword_at, object_name_at, strings_view, tok_at, Outcome, Parser};
use crate::token::{Keyword, Token};

verus! {

// ────────────────────────────────────────────────────────────────
// ALTER INDEX
// ────────────────────────────────────────────────────────────────

/// An ALTER INDEX action with its text as plain values.
pub enum IndexActionView {
    RenamePartition { old_name: Seq<char>, new_name: Seq<char> },
    RenameTo(Seq<char>),
    SetTablespace(Seq<char>),
    SetOptions(Seq<OptionView>),
    Reset(Seq<Seq<char>>),
    Unusable,
    RebuildPartition(Seq<char>),
    Rebuild,
    MovePartition { partition_name: Seq<char>, tablespace: Option<Seq<char>> },
    NoOp,
}

pub open spec fn index_action_view(a: AlterIndexAction) -> IndexActionView {
    match a {
        AlterIndexAction::RenamePartition { old_name, new_name } => IndexActionView::RenamePartition {
            old_name: old_name@,
            new_name: new_name@,
        },
        AlterIndexAction::RenameTo(n) => IndexActionView::RenameTo(n@),
        AlterIndexAction::SetTablespace(n) => IndexActionView::SetTablespace(n@),
        AlterIndexAction::SetOptions(o) => IndexActionView::SetOptions(options_view(o@)),
        AlterIndexAction::Reset(v) => IndexActionView::Reset(strings_view(v@)),
        AlterIndexAction::Unusable => IndexActionView::Unusable,
        AlterIndexAction::RebuildPartition { partition_name } => IndexActionView::RebuildPartition(partition_name@),
        AlterIndexAction::Rebuild => IndexActionView::Rebuild,
        AlterIndexAction::MovePartition { partition_name, tablespace } => IndexActionView::MovePartition {
            partition_name: partition_name@,
            tablespace: opt_text(tablespace),
        },
        AlterIndexAction::NoOp => IndexActionView::NoOp,
    }
}

/// The storage attributes that ALTER INDEX passes over (their values are expressions).
pub open spec fn is_storage_attribute_at(toks: Seq<Token>, j: int) -> bool {
    keyword_at(toks, j) == Some(Keyword::PCTFREE) || keyword_at(toks, j) == Some(Keyword::INITRANS)
        || keyword_at(toks, j) == Some(Keyword::MAXTRANS) || ident_word_at(toks, j, "PCTUSED"@)
}

/// Where a `STORAGE (...)` group at `m` ends (`m` itself where `STORAGE` is absent).
pub open spec fn storage_group_end(toks: Seq<Token>, m: int) -> int {
    if kw_at(toks, m, Keyword::STORAGE) {
        if tok_at(toks, m + 1) is LParen { group_end(toks, m + 2, 1) } else { m + 1 }
    } else {
        m
    }
}

/// `( ident, ... )` at `j`, the reported texts being those of the statement.
pub open spec fn reset_list_at(toks: Seq<Token>, j: int) -> Outcome<Seq<Seq<char>>> {
    if !(tok_at(toks, j) is LParen) {
        Err((j, "("@))
    } else {
        match ident_list_at(toks, j + 1) {
            Err(e) => Err(e),
            Ok((v, k)) => if tok_at(toks, k) is RParen { Ok((v, k + 1)) } else { Err((k, ")"@)) },
        }
    }
}

/// `RENAME ...` after the index name at `j` (`j` holds RENAME).
pub open spec fn index_rename_at(toks: Seq<Token>, j: int) -> Outcome<IndexActionView> {
    if kw_at(toks, j + 1, Keyword::PARTITION) {
        match name_at(toks, j + 2) {
            Err(e) => Err(e),
            Ok((old_name, k)) => if !kw_at(toks, k, Keyword::TO) {
                Err((k, "TO"@))
            } else {
                match name_at(toks, k + 1) {
                    Err(e) => Err(e),
                    Ok((new_name, m)) => Ok((IndexActionView::RenamePartition { old_name, new_name }, m)),
                }
            },
        }
    } else if !kw_at(toks, j + 1, Keyword::TO) {
        Err((j + 1, "TO"@))
    } else {
        match name_at(toks, j + 2) {
            Err(e) => Err(e),
            Ok((n, m)) => Ok((IndexActionView::RenameTo(n), m)),
        }
    }
}

/// The action of ALTER INDEX at `j`; `None` for storage attributes, whose values are
/// expressions read with their own warnings.
pub open spec fn index_action_at(toks: Seq<Token>, j: int) -> Option<Outcome<IndexActionView>> {
    if kw_at(toks, j, Keyword::RENAME) {
        Some(index_rename_at(toks, j))
    } else if kw_at(toks, j, Keyword::SET) {
        if kw_at(toks, j + 1, Keyword::TABLESPACE) {
            Some(match name_at(toks, j + 2) {
                Err(e) => Err(e),
                Ok((n, m)) => Ok((IndexActionView::SetTablespace(n), m)),
            })
        } else {
            let (o, m) = paren_options_at(toks, j + 1);
            Some(Ok((IndexActionView::SetOptions(o), m)))
        }
    } else if kw_at(toks, j, Keyword::RESET) {
        Some(match reset_list_at(toks, j + 1) {
            Err(e) => Err(e),
            Ok((v, m)) => Ok((IndexActionView::Reset(v), m)),
        })
    } else if kw_at(toks, j, Keyword::UNUSABLE) {
        Some(Ok((IndexActionView::Unusable, j + 1)))
    } else if ident_word_at(toks, j, "REBUILD"@) {
        if kw_at(toks, j + 1, Keyword::PARTITION) {
            Some(match name_at(toks, j + 2) {
                Err(e) => Err(e),
                Ok((n, m)) => Ok((IndexActionView::RebuildPartition(n), m)),
            })
        } else {
            Some(Ok((IndexActionView::Rebuild, j + 1)))
        }
    } else if kw_at(toks, j, Keyword::MOVE) {
        Some(if !kw_at(toks, j + 1, Keyword::PARTITION) {
            Err((j + 1, "PARTITION"@))
        } else {
            match name_at(toks, j + 2) {
                Err(e) => Err(e),
                Ok((p, k)) => if kw_at(toks, k, Keyword::TABLESPACE) {
                    match name_at(toks, k + 1) {
                        Err(e) => Err(e),
                        Ok((t, m)) => Ok((IndexActionView::MovePartition { partition_name: p, tablespace: Some(t) }, m)),
                    }
                } else {
                    Ok((IndexActionView::MovePartition { partition_name: p, tablespace: None }, k))
                },
            }
        })
    } else if is_storage_attribute_at(toks, j) || kw_at(toks, j, Keyword::STORAGE) {
        None
    } else if ident_word_at(toks, j, "NOPARALLEL"@) || ident_word_at(toks, j, "PARALLEL"@) {
        let m = if kw_at(toks, j + 1, Keyword::LOGGING) || kw_at(toks, j + 1, Keyword::NOLOGGING) { j + 2 } else { j + 1 };
        Some(Ok((IndexActionView::NoOp, m)))
    } else {
        Some(Ok((IndexActionView::NoOp, j)))
    }
}

/// ALTER INDEX's parts: IF EXISTS, the name, the action.
pub type IndexParts = (bool, Seq<Seq<char>>, IndexActionView);

pub open spec fn index_parts(s: AlterIndexStatement) -> IndexParts {
    (s.if_exists, strings_view(s.name@), index_action_view(s.action))
}

/// `INDEX [IF EXISTS] name` at `i`: IF EXISTS, the name, and where the action starts.
pub open spec fn alter_index_head(toks: Seq<Token>, i: int) -> Outcome<(bool, Seq<Seq<char>>)> {
    if !kw_at(toks, i, Keyword::INDEX) {
        Err((i, "INDEX"@))
    } else {
        match object_name_at(toks, if_exists_end(toks, i + 1)) {
            Err(e) => Err(e),
            Ok((name, j)) => Ok(((has_if_exists(toks, i + 1), name), j)),
        }
    }
}

/// ALTER INDEX at `i`, for every action but storage attributes (`None` there).
pub open spec fn alter_index_at(toks: Seq<Token>, i: int) -> Option<Outcome<IndexParts>> {
    match alter_index_head(toks, i) {
        Err(e) => Some(Err(e)),
        Ok(((ie, name), j)) => match index_action_at(toks, j) {
            None => None,
            Some(Err(e)) => Some(Err(e)),
            Some(Ok((a, m))) => Some(Ok(((ie, name, a), m))),
        },
    }
}

impl Parser {
    fn parse_index_rename(&mut self) -> (r: Result<AlterIndexAction, ParserError>)
        requires
            old(self).wf(),
            kw_at(old(self).toks(), old(self).position(), Keyword::RENAME),
        ensures
            final(self).wf(),
            agrees(&*old(self), &*final(self), r, index_rename_at(old(self).toks(), old(self).position()),
                |a: AlterIndexAction| index_action_view(a)),
    {
        self.advance();
        if self.match_keyword(Keyword::PARTITION) {
            self.advance();
            let old_name = match self.parse_identifier() {
                Ok(n) => n,
                Err(e) => return Err(e),
            };
            match self.expect_keyword(Keyword::TO) {
                Ok(()) => {},
                Err(e) => return Err(e),
            }
            let new_name = match self.parse_identifier() {
                Ok(n) => n,
                Err(e) => return Err(e),
            };
            Ok(AlterIndexAction::RenamePartition { old_name, new_name })
        } else {
            match self.expect_keyword(Keyword::TO) {
                Ok(()) => {},
                Err(e) => return Err(e),
            }
            let new_name = match self.parse_identifier() {
                Ok(n) => n,
                Err(e) => return Err(e),
            };
            Ok(AlterIndexAction::RenameTo(new_name))
        }
    }

    fn parse_reset_list(&mut self) -> (r: Result<Vec<String>, ParserError>)
        requires
            old(self).wf(),
        ensures
            final(self).wf(),
            agrees(&*old(self), &*final(self), r, reset_list_at(old(self).toks(), old(self).position()),
                |v: Vec<String>| strings_view(v@)),
    {
        match self.expect_token(&Token::LParen, "(") {
            Ok(()) => {},
            Err(e) => return Err(e),
        }
        let names = match self.parse_identifier_list() {
            Ok(v) => v,
            Err(e) => return Err(e),
        };
        match self.expect_token(&Token::RParen, ")") {
            Ok(()) => Ok(names),
            Err(e) => Err(e),
        }
    }

    fn at_storage_attribute(&self) -> (r: bool)
        requires
            self.wf(),
        ensures
            r == is_storage_attribute_at(self.toks(), self.position()),
    {
        let k = self.peek_keyword();
        let listed = match k {
            Some(kw) => kw == Keyword::PCTFREE || kw == Keyword::INITRANS || kw == Keyword::MAXTRANS,
            None => false,
        };
        listed || self.match_ident_str("PCTUSED")
    }

    /// Storage attributes (`PCTFREE n`, `INITRANS n`, `MAXTRANS n`, `PCTUSED n`) and a
    /// `STORAGE (...)` group, all passed over.
    fn skip_index_storage(&mut self)
        requires
            old(self).wf(),
        ensures
            old(self).steps(&*final(self)),
            !is_storage_attribute_at(old(self).toks(), old(self).position()) ==> old(self).moved_to(
                &*final(self),
                storage_group_end(old(self).toks(), old(self).position()),
            ),
            is_storage_attribute_at(old(self).toks(), old(self).position()) ==> final(self).position() > old(self).position(),
            exists|m: int|
                old(self).position() <= m <= final(self).position() && !is_storage_attribute_at(old(self).toks(), m)
                    && final(self).position() == storage_group_end(old(self).toks(), m),
    {
        let ghost start = self.position();
        while self.at_storage_attribute()
            invariant
                old(self).steps(&*self),
                start == old(self).position(),
                self.position() == start ==> old(self).moved_to(&*self, start),
                !is_storage_attribute_at(old(self).toks(), start) ==> self.position() == start,
            decreases self.toks().len() - self.position(),
        {
            self.advance();
            let _ = self.parse_expr();
        }
        let ghost m = self.position();
        if self.match_keyword(Keyword::STORAGE) {
            self.advance();
            self.skip_balanced_parens();
        }
        assert(old(self).position() <= m <= self.position() && !is_storage_attribute_at(old(self).toks(), m)
            && self.position() == storage_group_end(old(self).toks(), m));
    }

    fn parse_index_action(&mut self) -> (r: Result<AlterIndexAction, ParserError>)
        requires
            old(self).wf(),
        ensures
            final(self).wf(),
            match index_action_at(old(self).toks(), old(self).position()) {
                Some(o) => agrees(&*old(self), &*final(self), r, o, |a: AlterIndexAction| index_action_view(a)),
                None => r matches Ok(AlterIndexAction::NoOp) && old(self).steps(&*final(self)),
            },
    {
        if self.match_keyword(Keyword::RENAME) {
            self.parse_index_rename()
        } else if self.match_keyword(Keyword::SET) {
            self.advance();
            if self.match_keyword(Keyword::TABLESPACE) {
                self.advance();
                match self.parse_identifier() {
                    Ok(ts) => Ok(AlterIndexAction::SetTablespace(ts)),
                    Err(e) => Err(e),
                }
            } else {
                let options = self.parse_generic_options_no_with();
                Ok(AlterIndexAction::SetOptions(options))
            }
        } else if self.match_keyword(Keyword::RESET) {
            self.advance();
            match self.parse_reset_list() {
                Ok(names) => Ok(AlterIndexAction::Reset(names)),
                Err(e) => Err(e),
            }
        } else if self.match_keyword(Keyword::UNUSABLE) {
            self.advance();
            Ok(AlterIndexAction::Unusable)
        } else if self.match_ident_str("REBUILD") {
            self.advance();
            if self.match_keyword(Keyword::PARTITION) {
                self.advance();
                match self.parse_identifier() {
                    Ok(partition_name) => Ok(AlterIndexAction::RebuildPartition { partition_name }),
                    Err(e) => Err(e),
                }
            } else {
                Ok(AlterIndexAction::Rebuild)
            }
        } else if self.match_keyword(Keyword::MOVE) {
            self.advance();
            match self.expect_keyword(Keyword::PARTITION) {
                Ok(()) => {},
                Err(e) => return Err(e),
            }
            let partition_name = match self.parse_identifier() {
                Ok(n) => n,
                Err(e) => return Err(e),
            };
            let tablespace = if self.match_keyword(Keyword::TABLESPACE) {
                self.advance();
                match self.parse_identifier() {
                    Ok(t) => Some(t),
                    Err(e) => return Err(e),
                }
            } else {
                None
            };
            Ok(AlterIndexAction::MovePartition { partition_name, tablespace })
        } else if self.at_storage_attribute() || self.match_keyword(Keyword::STORAGE) {
            self.skip_index_storage();
            Ok(AlterIndexAction::NoOp)
        } else if self.match_ident_str("NOPARALLEL") || self.match_ident_str("PARALLEL") {
            self.advance();
            if self.match_keyword(Keyword::LOGGING) || self.match_keyword(Keyword::NOLOGGING) {
                self.advance();
            }
            Ok(AlterIndexAction::NoOp)
        } else {
            Ok(AlterIndexAction::NoOp)
        }
    }

    /// `INDEX [IF EXISTS] name action`, the action being one of `RENAME [PARTITION old] TO
    /// new`, `SET TABLESPACE ts`, `SET (options)`, `RESET (names)`, `UNUSABLE`, `REBUILD
    /// [PARTITION p]`, `MOVE PARTITION p [TABLESPACE ts]`; storage attributes, `PARALLEL`
    /// and anything else leave the index as it is.
    pub fn parse_alter_index(&mut self) -> (r: Result<AlterIndexStatement, ParserError>)
        requires
            old(self).wf(),
        ensures
            final(self).wf(),
            match alter_index_at(old(self).toks(), old(self).position()) {
                Some(o) => agrees(&*old(self), &*final(self), r, o, |s: AlterIndexStatement| index_parts(s)),
                None => r is Ok && old(self).steps(&*final(self)) && {
                    let ((ie, name), _) = alter_index_head(old(self).toks(), old(self).position())->Ok_0;
                    &&& r->Ok_0.if_exists == ie
                    &&& strings_view(r->Ok_0.name@) == name
                    &&& r->Ok_0.action is NoOp
                },
            },
    {
        match self.expect_keyword(Keyword::INDEX) {
            Ok(()) => {},
            Err(e) => return Err(e),
        }
        let ghost i = old(self).position();
        let if_exists = self.parse_if_exists();
        proof { lemma_object_name_bounds(self.toks(), self.position()); }
        let name = match self.parse_object_name() {
            Ok(n) => n,
            Err(e) => return Err(e),
        };
        let ghost j = self.position();
        assert(alter_index_head(old(self).toks(), i) == Outcome::<(bool, Seq<Seq<char>>)>::Ok(((if_exists, strings_view(name@)), j)));
        match self.parse_index_action() {
            Ok(action) => {
                let st = AlterIndexStatement { if_exists, name, action };
                assert(index_parts(st) == (if_exists, strings_view(st.name@), index_action_view(st.action)));
                Ok(st)
            },
            Err(e) => Err(e),
        }
    }
}

// ────────────────────────────────────────────────────────────────
// ALTER VIEW
// ────────────────────────────────────────────────────────────────

/// An ALTER VIEW action with its text as plain values.
pub enum ViewActionView {
    RenameTo(Seq<char>),
    SetSchema(Seq<char>),
    SetOptions(Seq<OptionView>),
    Reset(Seq<Seq<char>>),
    OwnerTo(Seq<char>),
    AlterColumnDefault { column: Seq<char>, set_default: Option<Seq<char>> },
}

pub open spec fn view_action_view(a: AlterViewAction) -> ViewActionView {
    match a {
        AlterViewAction::RenameTo(n) => ViewActionView::RenameTo(n@),
        AlterViewAction::SetSchema(n) => ViewActionView::SetSchema(n@),
        AlterViewAction::SetOptions(o) => ViewActionView::SetOptions(options_view(o@)),
        AlterViewAction::Reset(v) => ViewActionView::Reset(strings_view(v@)),
        AlterViewAction::OwnerTo(n) => ViewActionView::OwnerTo(n@),
        AlterViewAction::AlterColumnDefault { column, set_default } => ViewActionView::AlterColumnDefault {
            column: column@,
            set_default: opt_text(set_default),
        },
    }
}

/// `TO name` at `j`, read as `what`.
pub open spec fn to_name_at(toks: Seq<Token>, j: int) -> Outcome<Seq<char>> {
    if !kw_at(toks, j, Keyword::TO) {
        Err((j, "TO"@))
    } else {
        name_at(toks, j + 1)
    }
}

/// `ALTER COLUMN col {SET DEFAULT value... | [DROP] DEFAULT}` at `j` (`j` holds ALTER);
/// a new default is the rest of the statement as text.
pub open spec fn view_alter_column_at(toks: Seq<Token>, j: int) -> Outcome<ViewActionView> {
    if !kw_at(toks, j + 1, Keyword::COLUMN) {
        Err((j + 1, "COLUMN"@))
    } else {
        match name_at(toks, j + 2) {
            Err(e) => Err(e),
            Ok((column, k)) => if kw_at(toks, k, Keyword::SET) {
                if !kw_at(toks, k + 1, Keyword::DEFAULT) {
                    Err((k + 1, "DEFAULT"@))
                } else {
                    Ok((
                        ViewActionView::AlterColumnDefault { column, set_default: Some(trim(rest_text(toks, k + 2, seq![]))) },
                        rest_end(toks, k + 2),
                    ))
                }
            } else {
                let k2 = if kw_at(toks, k, Keyword::DROP) { k + 1 } else { k };
                if !kw_at(toks, k2, Keyword::DEFAULT) {
                    Err((k2, "DEFAULT"@))
                } else {
                    Ok((ViewActionView::AlterColumnDefault { column, set_default: None }, k2 + 1))
                }
            },
        }
    }
}

/// The action of ALTER VIEW at `j`.
pub open spec fn view_action_at(toks: Seq<Token>, j: int) -> Outcome<ViewActionView> {
    if kw_at(toks, j, Keyword::RENAME) {
        match to_name_at(toks, j + 1) {
            Err(e) => Err(e),
            Ok((n, m)) => Ok((ViewActionView::RenameTo(n), m)),
        }
    } else if kw_at(toks, j, Keyword::SET) {
        if kw_at(toks, j + 1, Keyword::SCHEMA) {
            match name_at(toks, j + 2) {
                Err(e) => Err(e),
                Ok((n, m)) => Ok((ViewActionView::SetSchema(n), m)),
            }
        } else if tok_at(toks, j + 1) is LParen {
            let (o, m) = paren_options_at(toks, j + 1);
            Ok((ViewActionView::SetOptions(o), m))
        } else {
            let (o, m) = with_options_at(toks, j + 1);
            Ok((ViewActionView::SetOptions(o), m))
        }
    } else if kw_at(toks, j, Keyword::RESET) {
        match reset_list_at(toks, j + 1) {
            Err(e) => Err(e),
            Ok((v, m)) => Ok((ViewActionView::Reset(v), m)),
        }
    } else if word_at(toks, j, Keyword::OWNER, "OWNER"@) {
        match to_name_at(toks, j + 1) {
            Err(e) => Err(e),
            Ok((n, m)) => Ok((ViewActionView::OwnerTo(n), m)),
        }
    } else if kw_at(toks, j, Keyword::ALTER) {
        view_alter_column_at(toks, j)
    } else {
        Err((j, "RENAME, SET, RESET, OWNER, or ALTER COLUMN"@))
    }
}

/// ALTER VIEW at `i`: `VIEW [IF EXISTS] name action`; the IF EXISTS is read and dropped.
pub open spec fn alter_view_at(toks: Seq<Token>, i: int) -> Outcome<(Seq<Seq<char>>, ViewActionView)> {
    if !kw_at(toks, i, Keyword::VIEW) {
        Err((i, "VIEW"@))
    } else {
        match object_name_at(toks, if_exists_end(toks, i + 1)) {
            Err(e) => Err(e),
            Ok((name, j)) => match view_action_at(toks, j) {
                Err(e) => Err(e),
                Ok((a, m)) => Ok(((name, a), m)),
            },
        }
    }
}

impl Parser {
    fn parse_to_name(&mut self) -> (r: Result<String, ParserError>)
        requires
            old(self).wf(),
        ensures
            final(self).wf(),
            agrees(&*old(self), &*final(self), r, to_name_at(old(self).toks(), old(self).position()), |s: String| s@),
    {
        match self.expect_keyword(Keyword::TO) {
            Ok(()) => {},
            Err(e) => return Err(e),
        }
        self.parse_identifier()
    }

    fn parse_view_alter_column(&mut self) -> (r: Result<AlterViewAction, ParserError>)
        requires
            old(self).wf(),
            kw_at(old(self).toks(), old(self).position(), Keyword::ALTER),
        ensures
            final(self).wf(),
            agrees(&*old(self), &*final(self), r, view_alter_column_at(old(self).toks(), old(self).position()),
                |a: AlterViewAction| view_action_view(a)),
    {
        self.advance();
        match self.expect_keyword(Keyword::COLUMN) {
            Ok(()) => {},
            Err(e) => return Err(e),
        }
        let column = match self.parse_identifier() {
            Ok(c) => c,
            Err(e) => return Err(e),
        };
        if self.match_keyword(Keyword::SET) {
            self.advance();
            match self.expect_keyword(Keyword::DEFAULT) {
                Ok(()) => {},
                Err(e) => return Err(e),
            }
            let val = self.collect_rest_until_semicolon();
            Ok(AlterViewAction::AlterColumnDefault { column, set_default: Some(val) })
        } else {
            self.try_consume_keyword(Keyword::DROP);
            match self.expect_keyword(Keyword::DEFAULT) {
                Ok(()) => {},
                Err(e) => return Err(e),
            }
            Ok(AlterViewAction::AlterColumnDefault { column, set_default: None })
        }
    }

    fn parse_view_action(&mut self) -> (r: Result<AlterViewAction, ParserError>)
        requires
            old(self).wf(),
        ensures
            final(self).wf(),
            agrees(&*old(self), &*final(self), r, view_action_at(old(self).toks(), old(self).position()),
                |a: AlterViewAction| view_action_view(a)),
    {
        if self.match_keyword(Keyword::RENAME) {
            self.advance();
            match self.parse_to_name() {
                Ok(n) => Ok(AlterViewAction::RenameTo(n)),
                Err(e) => Err(e),
            }
        } else if self.match_keyword(Keyword::SET) {
            self.advance();
            if self.match_keyword(Keyword::SCHEMA) {
                self.advance();
                match self.parse_identifier() {
                    Ok(n) => Ok(AlterViewAction::SetSchema(n)),
                    Err(e) => Err(e),
                }
            } else if self.match_token(&Token::LParen) {
                let options = self.parse_generic_options_no_with();
                Ok(AlterViewAction::SetOptions(options))
            } else {
                let options = self.parse_generic_options();
                Ok(AlterViewAction::SetOptions(options))
            }
        } else if self.match_keyword(Keyword::RESET) {
            self.advance();
            match self.parse_reset_list() {
                Ok(names) => Ok(AlterViewAction::Reset(names)),
                Err(e) => Err(e),
            }
        } else if self.match_keyword(Keyword::OWNER) || self.match_ident_str("OWNER") {
            self.advance();
            match self.parse_to_name() {
                Ok(n) => Ok(AlterViewAction::OwnerTo(n)),
                Err(e) => Err(e),
            }
        } else if self.match_keyword(Keyword::ALTER) {
            self.parse_view_alter_column()
        } else {
            Err(self.unexpected("RENAME, SET, RESET, OWNER, or ALTER COLUMN"))
        }
    }

    /// `VIEW [IF EXISTS] name action`, the action being `RENAME TO new`, `SET SCHEMA s`,
    /// `SET (options)`, `RESET (names)`, `OWNER TO role`, or `ALTER COLUMN col {SET
    /// DEFAULT ... | [DROP] DEFAULT}`.
    pub fn parse_alter_view(&mut self) -> (r: Result<AlterViewStatement, ParserError>)
        requires
            old(self).wf(),
        ensures
            final(self).wf(),
            agrees(&*old(self), &*final(self), r, alter_view_at(old(self).toks(), old(self).position()),
                |s: AlterViewStatement| (strings_view(s.name@), view_action_view(s.action))),
    {
        match self.expect_keyword(Keyword::VIEW) {
            Ok(()) => {},
            Err(e) => return Err(e),
        }
        let _if_exists = self.parse_if_exists();
        let name = match self.parse_object_name() {
            Ok(n) => n,
            Err(e) => return Err(e),
        };
        match self.parse_view_action() {
            Ok(action) => Ok(AlterViewStatement { name, action }),
            Err(e) => Err(e),
        }
    }
}

} // verus!
