//! CREATE INDEX and CREATE GLOBAL INDEX.
use vstd::prelude::*;
use crate::ast::{
    CreateGlobalIndexStatement, CreateIndexStatement, DistributeClause, Expr, GlobalIndexColumn, IndexColumn, IndexNulls,
    IndexOrdering,
};
use crate::error::ParserError;
use crate::parser::ddl::{agrees, has_if_not_exists, if_not_exists_end, kw_at, skip_sort_order, lemma_object_name_bounds};
use crate::parser::create::ident_at;
use crate::parser::expr::{join_dotted, opt_text};
use crate::parser::options::{options_view, OptionView};
use crate::parser::{ident_text, ident_word_at, object_name_at, strings_view, tok_at, Outcome, Parser};
use crate::text::{push_signed, signed_decimal};
use crate::token::{keyword_text, same_token, Keyword, Token};

verus! {

/// Where a skipped group ends: after the `)` that closes the `(` at `i`, or at the end
/// (`Eof` ends it as well).
pub open spec fn group_end(toks: Seq<Token>, i: int, depth: nat) -> int
    decreases toks.len() - i,
{
    if depth == 0 || i < 0 || i >= toks.len() || toks[i] is Eof {
        i
    } else if toks[i] is LParen {
        group_end(toks, i + 1, depth + 1)
    } else if toks[i] is RParen {
        group_end(toks, i + 1, (depth - 1) as nat)
    } else {
        group_end(toks, i + 1, depth)
    }
}

/// `NULLS FIRST` or `NULLS LAST` at `i`: nothing where `NULLS` is absent.
pub open spec fn index_nulls_at(toks: Seq<Token>, i: int) -> Outcome<Option<IndexNulls>> {
    if !kw_at(toks, i, Keyword::NULLS_P) {
        Ok((None, i))
    } else if kw_at(toks, i + 1, Keyword::FIRST_P) {
        Ok((Some(IndexNulls::First), i + 2))
    } else if kw_at(toks, i + 1, Keyword::LAST_P) {
        Ok((Some(IndexNulls::Last), i + 2))
    } else {
        Err((i + 1, keyword_text(Keyword::LAST_P)))
    }
}

/// Whether an operator class may stand at `i`: none of `ASC`, `DESC`, `NULLS`, `,`, `)`.
pub open spec fn opclass_may_stand_at(toks: Seq<Token>, i: int) -> bool {
    !kw_at(toks, i, Keyword::ASC) && !kw_at(toks, i, Keyword::DESC) && !kw_at(toks, i, Keyword::NULLS_P)
        && !same_token(tok_at(toks, i), Token::Comma) && !same_token(tok_at(toks, i), Token::RParen)
}

/// `ASC` (true) or `DESC` (false) at `i`, if either stands there.
pub open spec fn sort_order_at(toks: Seq<Token>, i: int) -> Option<bool> {
    if kw_at(toks, i, Keyword::ASC) {
        Some(true)
    } else if kw_at(toks, i, Keyword::DESC) {
        Some(false)
    } else {
        None
    }
}

/// An index key at `i` that is a bare column name followed directly by a sort order,
/// `NULLS`, `,` or `)` (no collation and no operator class).
pub open spec fn plain_key_at(toks: Seq<Token>, i: int) -> bool {
    &&& (tok_at(toks, i) is Ident || tok_at(toks, i) is QuotedIdent)
    &&& !(tok_at(toks, i + 1) is LParen)
    &&& !(tok_at(toks, i + 1) is Dot)
    &&& !kw_at(toks, i + 1, Keyword::COLLATE)
    &&& !opclass_may_stand_at(toks, i + 1)
}

/// The optional index name at `i`, which is absent where `ON` stands there.
pub open spec fn index_name_part_at(toks: Seq<Token>, i: int) -> Outcome<Option<Seq<Seq<char>>>> {
    if kw_at(toks, i, Keyword::ON) {
        Ok((None, i))
    } else {
        match object_name_at(toks, i) {
            Ok((n, j)) => Ok((Some(n), j)),
            Err(e) => Err(e),
        }
    }
}

/// `USING method` at `k`, if `USING` stands there.
pub open spec fn using_method_at(toks: Seq<Token>, k: int) -> Outcome<Option<Seq<char>>> {
    if kw_at(toks, k, Keyword::USING) {
        match ident_at(toks, k + 1) {
            Ok((m, q)) => Ok((Some(m), q)),
            Err(e) => Err(e),
        }
    } else {
        Ok((None, k))
    }
}

/// The name, table and access method of `[name] ON table [USING method]` at `i`.
pub open spec fn index_target_at(toks: Seq<Token>, i: int) -> Outcome<(Option<Seq<Seq<char>>>, Seq<Seq<char>>, Option<Seq<char>>)> {
    match index_name_part_at(toks, i) {
        Err(e) => Err(e),
        Ok((name, j)) => if !kw_at(toks, j, Keyword::ON) {
            Err((j, keyword_text(Keyword::ON)))
        } else {
            match object_name_at(toks, j + 1) {
                Err(e) => Err(e),
                Ok((table, k)) => match using_method_at(toks, k) {
                    Err(e) => Err(e),
                    Ok((m, q)) => Ok(((name, table, m), q)),
                },
            }
        },
    }
}

/// The view of a parsed index target.
pub open spec fn index_target_view(t: (Option<Vec<String>>, Vec<String>, Option<String>)) -> (Option<Seq<Seq<char>>>, Seq<Seq<char>>, Option<Seq<char>>) {
    (
        match t.0 {
            Some(n) => Some(strings_view(n@)),
            None => None,
        },
        strings_view(t.1@),
        opt_text(t.2),
    )
}

/// The sort order of a global index key at `i`, if `ASC` or `DESC` stands there.
pub open spec fn ordering_at(toks: Seq<Token>, i: int) -> Option<IndexOrdering> {
    if kw_at(toks, i, Keyword::ASC) {
        Some(IndexOrdering::Asc)
    } else if kw_at(toks, i, Keyword::DESC) {
        Some(IndexOrdering::Desc)
    } else {
        None
    }
}

/// The text kept for an option value token of a global index: an integer in decimal,
/// a string literal with its quotes; `None` for other tokens.
pub open spec fn global_option_literal(t: Token) -> Option<Seq<char>> {
    match t {
        Token::Integer(n) => Some(signed_decimal(n as int)),
        Token::StringLiteral(s) => Some(seq!['\''] + s@ + seq!['\'']),
        _ => None,
    }
}

/// An option value of a global index at `j`: a literal, or else an identifier.
pub open spec fn global_option_value_at(toks: Seq<Token>, j: int) -> Outcome<Seq<char>> {
    match global_option_literal(tok_at(toks, j)) {
        Some(v) => Ok((v, j + 1)),
        None => ident_at(toks, j),
    }
}

/// The options `key = value, ... )` from `j` on, after `acc`.
pub open spec fn global_options_from(toks: Seq<Token>, j: int, acc: Seq<OptionView>) -> Outcome<Seq<OptionView>>
    decreases toks.len() - j,
{
    match ident_at(toks, j) {
        Err(e) => Err(e),
        Ok((key, j1)) => if !(tok_at(toks, j1) is Eq) {
            Err((j1, "="@))
        } else {
            match global_option_value_at(toks, j1 + 1) {
                Err(e) => Err(e),
                Ok((v, j2)) => if tok_at(toks, j2) is Comma {
                    global_options_from(toks, j2 + 1, acc.push((key, v)))
                } else if tok_at(toks, j2) is RParen {
                    Ok((acc.push((key, v)), j2 + 1))
                } else {
                    Err((j2, ")"@))
                },
            }
        },
    }
}

/// `( key = value, ... )` at `i`, the options appended to `acc`.
pub open spec fn global_options_at(toks: Seq<Token>, i: int, acc: Seq<OptionView>) -> Outcome<Seq<OptionView>> {
    if tok_at(toks, i) is LParen {
        global_options_from(toks, i + 1, acc)
    } else {
        Err((i, "("@))
    }
}

/// Where `INDEX` must stand in `[UNIQUE] INDEX ...` at `i`.
pub open spec fn global_index_keyword_pos(toks: Seq<Token>, i: int) -> int {
    if kw_at(toks, i, Keyword::UNIQUE) { i + 1 } else { i }
}

/// Where `IF NOT EXISTS` may stand in `[UNIQUE] INDEX [CONCURRENTLY] ...` at `i`.
pub open spec fn global_index_exists_pos(toks: Seq<Token>, i: int) -> int {
    let j = global_index_keyword_pos(toks, i);
    if kw_at(toks, j + 1, Keyword::CONCURRENTLY) { j + 2 } else { j + 1 }
}

/// Where the target `[name] ON table [USING method]` starts, for `[UNIQUE] INDEX ...` at `i`.
pub open spec fn global_index_target_pos(toks: Seq<Token>, i: int) -> int {
    if_not_exists_end(toks, global_index_exists_pos(toks, i))
}

/// Whether none of the clauses that may follow the keys of a global index starts at `k`.
pub open spec fn no_global_index_clause_at(toks: Seq<Token>, k: int) -> bool {
    &&& !ident_word_at(toks, k, "CONTAINING"@)
    &&& !kw_at(toks, k, Keyword::DISTRIBUTE)
    &&& !kw_at(toks, k, Keyword::WITH)
    &&& !kw_at(toks, k, Keyword::TABLESPACE)
    &&& !kw_at(toks, k, Keyword::VISIBLE)
    &&& !kw_at(toks, k, Keyword::INVISIBLE)
    &&& !kw_at(toks, k, Keyword::WHERE)
}

/// `c` is the key read from the bare column name `t`.
pub open spec fn plain_global_key(c: GlobalIndexColumn, t: Token) -> bool {
    &&& c.name@ == ident_text(t)->0
    &&& c.length is None
    &&& c.expression is None
    &&& c.ordering is None
    &&& c.nulls is None
}

/// A bare-name index key as plain values: the name, the sort order and the nulls order.
pub type KeyView = (Seq<char>, Option<bool>, Option<IndexNulls>);

/// The keys `key, ... )` from `j` on, after `acc`; `None` where a key is not a bare name
/// (`plain_key_at`).
pub open spec fn index_keys_from(toks: Seq<Token>, j: int, acc: Seq<KeyView>) -> Option<Outcome<Seq<KeyView>>>
    decreases toks.len() - j,
{
    if !plain_key_at(toks, j) {
        None
    } else {
        match index_nulls_at(toks, skip_sort_order(toks, j + 1)) {
            Err(e) => Some(Err(e)),
            Ok((n, q)) => {
                let next = acc.push((ident_text(tok_at(toks, j))->0, sort_order_at(toks, j + 1), n));
                if q <= j {
                    None
                } else if tok_at(toks, q) is Comma {
                    index_keys_from(toks, q + 1, next)
                } else if tok_at(toks, q) is RParen {
                    Some(Ok((next, q + 1)))
                } else {
                    Some(Err((q, ")"@)))
                }
            },
        }
    }
}

/// Each key of `cols` is the bare-name key that `keys` describes at its place.
pub open spec fn index_keys_match(cols: Seq<IndexColumn>, keys: Seq<KeyView>) -> bool {
    &&& cols.len() == keys.len()
    &&& forall|k: int| 0 <= k < cols.len() ==> {
        &&& opt_text(cols[k].name) == Some(keys[k].0)
        &&& cols[k].expr is None && cols[k].collation is None && cols[k].opclass is None
        &&& cols[k].asc == keys[k].1 && cols[k].nulls == keys[k].2
    }
}

/// How the key list goes on after a key that ends at `q`, with the keys `acc` read.
pub open spec fn index_keys_continue(toks: Seq<Token>, q: int, acc: Seq<KeyView>) -> Option<Outcome<Seq<KeyView>>> {
    if tok_at(toks, q) is Comma {
        index_keys_from(toks, q + 1, acc)
    } else if tok_at(toks, q) is RParen {
        Some(Ok((acc, q + 1)))
    } else {
        Some(Err((q, ")"@)))
    }
}

/// None of the clauses that may follow the keys of an index starts at `q`.
pub open spec fn no_index_clause_at(toks: Seq<Token>, q: int) -> bool {
    &&& !kw_at(toks, q, Keyword::LOCAL) && !kw_at(toks, q, Keyword::GLOBAL) && !kw_at(toks, q, Keyword::WITH)
    &&& !kw_at(toks, q, Keyword::TABLESPACE) && !kw_at(toks, q, Keyword::WHERE) && !kw_at(toks, q, Keyword::PCTFREE)
    &&& !kw_at(toks, q, Keyword::INITRANS) && !kw_at(toks, q, Keyword::MAXTRANS) && !ident_word_at(toks, q, "PCTUSED"@)
    &&& !kw_at(toks, q, Keyword::STORAGE)
}

/// Where the target of `INDEX [CONCURRENTLY] [IF NOT EXISTS] ...` at `i` starts.
pub open spec fn index_target_pos(toks: Seq<Token>, i: int) -> int {
    if_not_exists_end(toks, if kw_at(toks, i + 1, Keyword::CONCURRENTLY) { i + 2 } else { i + 1 })
}

impl Parser {
    /// Skips a balanced parenthesized group at the cursor, if there is one.
    pub fn skip_balanced_parens(&mut self)
        requires
            old(self).wf(),
        ensures
            final(self).wf(),
            old(self).moved_to(&*final(self), if old(self).current() is LParen {
                group_end(old(self).toks(), old(self).position() + 1, 1)
            } else {
                old(self).position()
            }),
            old(self).position() <= final(self).position(),
    {
        if !self.match_token(&Token::LParen) {
            return;
        }
        self.advance();
        let mut depth: usize = 1;
        loop
            invariant
                self.wf(),
                old(self).moved_to(&*self, self.position()),
                old(self).current() is LParen,
                old(self).position() < self.position(),
                depth <= self.position(),
                group_end(self.toks(), self.position(), depth as nat) == group_end(old(self).toks(), old(self).position() + 1, 1),
            ensures
                group_end(self.toks(), self.position(), depth as nat) == self.position(),
            decreases self.toks().len() - self.position(),
        {
            let stop = depth == 0 || self.pos() >= self.toks_len() || self.match_token(&Token::Eof);
            if stop {
                break;
            }
            let step: usize = match self.peek() {
                Token::LParen => 1,
                Token::RParen => 2,
                _ => 0,
            };
            if step == 1 {
                depth = depth + 1;
            } else if step == 2 {
                depth = depth - 1;
            }
            self.advance();
        }
    }

    /// `NULLS FIRST` or `NULLS LAST`, if present.
    fn parse_index_nulls(&mut self) -> (r: Result<Option<IndexNulls>, ParserError>)
        requires
            old(self).wf(),
        ensures
            old(self).steps(&*final(self)),
            old(self).warnings() == final(self).warnings(),
            agrees(&*old(self), &*final(self), r, index_nulls_at(old(self).toks(), old(self).position()),
                |n: Option<IndexNulls>| n),
    {
        if !self.match_keyword(Keyword::NULLS_P) {
            return Ok(None);
        }
        self.advance();
        if self.match_keyword(Keyword::FIRST_P) {
            self.advance();
            return Ok(Some(IndexNulls::First));
        }
        match self.expect_keyword(Keyword::LAST_P) {
            Ok(()) => Ok(Some(IndexNulls::Last)),
            Err(e) => Err(e),
        }
    }

    /// Whether the cursor is at none of `ASC`, `DESC`, `NULLS`, `,`, `)` (where an
    /// operator class may stand).
    fn at_opclass(&self) -> (r: bool)
        requires
            self.wf(),
        ensures
            r == opclass_may_stand_at(self.toks(), self.position()),
    {
        !self.match_keyword(Keyword::ASC) && !self.match_keyword(Keyword::DESC) && !self.match_keyword(Keyword::NULLS_P)
            && !self.match_token(&Token::Comma) && !self.match_token(&Token::RParen)
    }

    /// An index key: a column name (an identifier not followed by `(` or `.`) or an
    /// expression, then `[COLLATE name] [opclass] [ASC|DESC] [NULLS FIRST|LAST]`.
    pub fn parse_index_column(&mut self) -> (r: Result<IndexColumn, ParserError>)
        requires
            old(self).wf(),
        ensures
            old(self).steps(&*final(self)),
            r is Ok ==> final(self).position() > old(self).position(),
            plain_key_at(old(self).toks(), old(self).position()) ==> match index_nulls_at(
                old(self).toks(),
                skip_sort_order(old(self).toks(), old(self).position() + 1),
            ) {
                Ok((n, q)) => r is Ok && opt_text(r->Ok_0.name) == ident_text(old(self).current())
                    && r->Ok_0.expr is None && r->Ok_0.collation is None && r->Ok_0.opclass is None
                    && r->Ok_0.asc == sort_order_at(old(self).toks(), old(self).position() + 1)
                    && r->Ok_0.nulls == n && old(self).moved_to(&*final(self), q),
                Err((q, expected)) => r is Err && old(self).moved_to(&*final(self), q)
                    && old(self).reports(r->Err_0, q, expected),
            },
    {
        let mut name: Option<String> = None;
        let mut expr: Option<Expr> = None;
        if self.matches_simple_column_name() {
            match self.parse_identifier() {
                Ok(n) => name = Some(n),
                Err(e) => return Err(e),
            }
        } else {
            match self.parse_expr() {
                Ok(e) => expr = Some(e),
                Err(e) => return Err(e),
            }
        }
        let collation: Option<String> = if self.match_keyword(Keyword::COLLATE) {
            self.advance();
            proof { lemma_object_name_bounds(self.toks(), self.position()); }
            match self.parse_object_name() {
                Ok(n) => Some(join_dotted(&n)),
                Err(e) => return Err(e),
            }
        } else {
            None
        };
        let opclass: Option<String> = if self.at_opclass() {
            proof { lemma_object_name_bounds(self.toks(), self.position()); }
            match self.parse_object_name() {
                Ok(n) => Some(join_dotted(&n)),
                Err(e) => return Err(e),
            }
        } else {
            None
        };
        let asc: Option<bool> = if self.match_keyword(Keyword::ASC) {
            self.advance();
            Some(true)
        } else if self.match_keyword(Keyword::DESC) {
            self.advance();
            Some(false)
        } else {
            None
        };
        let nulls = match self.parse_index_nulls() {
            Ok(n) => n,
            Err(e) => return Err(e),
        };
        Ok(IndexColumn { name, expr, collation, opclass, asc, nulls })
    }

    /// `[name] ON table [USING method]`, after `INDEX [CONCURRENTLY] [IF NOT EXISTS]`.
    fn parse_index_target(&mut self) -> (r: Result<(Option<Vec<String>>, Vec<String>, Option<String>), ParserError>)
        requires
            old(self).wf(),
        ensures
            old(self).steps(&*final(self)),
            r is Ok ==> final(self).position() > old(self).position(),
            agrees(&*old(self), &*final(self), r, index_target_at(old(self).toks(), old(self).position()),
                |t: (Option<Vec<String>>, Vec<String>, Option<String>)| index_target_view(t)),
    {
        let name: Option<Vec<String>> = if !self.match_keyword(Keyword::ON) {
            proof { lemma_object_name_bounds(self.toks(), self.position()); }
            match self.parse_object_name() {
                Ok(n) => Some(n),
                Err(e) => return Err(e),
            }
        } else {
            None
        };
        match self.expect_keyword(Keyword::ON) {
            Ok(()) => {},
            Err(e) => return Err(e),
        }
        proof { lemma_object_name_bounds(self.toks(), self.position()); }
        let table = match self.parse_object_name() {
            Ok(t) => t,
            Err(e) => return Err(e),
        };
        let using_method: Option<String> = if self.match_keyword(Keyword::USING) {
            self.advance();
            match self.parse_identifier() {
                Ok(m) => Some(m),
                Err(e) => return Err(e),
            }
        } else {
            None
        };
        Ok((name, table, using_method))
    }

    /// `INDEX [CONCURRENTLY] [IF NOT EXISTS] [name] ON table [USING method] (keys)
    /// [LOCAL|GLOBAL [(...)]] [WITH (...)]` and then, in any order, `TABLESPACE ts`,
    /// `WHERE predicate`, and the storage attributes (read and not kept).
    pub fn parse_create_index(&mut self, unique: bool) -> (r: Result<CreateIndexStatement, ParserError>)
        requires
            old(self).wf(),
        ensures
            old(self).steps(&*final(self)),
            !kw_at(old(self).toks(), old(self).position(), Keyword::INDEX) ==> r is Err
                && old(self).moved_to(&*final(self), old(self).position())
                && old(self).reports(r->Err_0, old(self).position(), "INDEX"@),
            r is Ok ==> final(self).position() > old(self).position() && r->Ok_0.unique == unique
                && r->Ok_0.concurrent == kw_at(old(self).toks(), old(self).position() + 1, Keyword::CONCURRENTLY)
                && r->Ok_0.columns@.len() >= 1,
            kw_at(old(self).toks(), old(self).position(), Keyword::INDEX) ==> {
                let toks = old(self).toks();
                let t = index_target_pos(toks, old(self).position());
                match index_target_at(toks, t) {
                    Err((q, e)) => r is Err && old(self).moved_to(&*final(self), q) && old(self).reports(r->Err_0, q, e),
                    Ok((tv, k)) => (r is Ok ==> index_target_view((r->Ok_0.name, r->Ok_0.table, r->Ok_0.using_method)) == tv
                        && r->Ok_0.if_not_exists == has_if_not_exists(toks, if kw_at(toks, old(self).position() + 1, Keyword::CONCURRENTLY) {
                            old(self).position() + 2
                        } else {
                            old(self).position() + 1
                        })) && if !(tok_at(toks, k) is LParen) {
                        r is Err && old(self).moved_to(&*final(self), k) && old(self).reports(r->Err_0, k, "("@)
                    } else {
                        match index_keys_from(toks, k + 1, Seq::empty()) {
                            Some(Ok((keys, q))) => no_index_clause_at(toks, q) ==> r is Ok && index_keys_match(r->Ok_0.columns@, keys)
                                && r->Ok_0.tablespace is None && r->Ok_0.where_clause is None
                                && old(self).moved_to(&*final(self), q),
                            Some(Err((q, e))) => r is Err && old(self).moved_to(&*final(self), q) && old(self).reports(r->Err_0, q, e),
                            None => true,
                        }
                    },
                }
            },
    {
        match self.expect_keyword(Keyword::INDEX) {
            Ok(()) => {},
            Err(e) => return Err(e),
        }
        let concurrent = self.try_consume_keyword(Keyword::CONCURRENTLY);
        let if_not_exists = self.parse_if_not_exists();
        let (name, table, using_method) = match self.parse_index_target() {
            Ok(t) => t,
            Err(e) => return Err(e),
        };
        let ghost toks = self.toks();
        let ghost k = self.position();
        let ghost whole = index_keys_from(toks, k + 1, Seq::empty());
        match self.expect_token(&Token::LParen, "(") {
            Ok(()) => {},
            Err(e) => return Err(e),
        }
        let mut columns: Vec<IndexColumn> = Vec::new();
        let ghost mut keys: Seq<KeyView> = Seq::empty();
        let ghost first = self.position();
        match self.parse_index_column() {
            Ok(c) => {
                proof {
                    if whole is Some {
                        keys = seq![(ident_text(tok_at(toks, first))->0, sort_order_at(toks, first + 1),
                            index_nulls_at(toks, skip_sort_order(toks, first + 1))->Ok_0.0)];
                    }
                }
                columns.push(c);
            },
            Err(e) => return Err(e),
        }
        while self.match_token(&Token::Comma)
            invariant
                old(self).steps(&*self),
                self.position() > old(self).position(),
                kw_at(old(self).toks(), old(self).position(), Keyword::INDEX),
                columns@.len() >= 1,
                toks == old(self).toks(),
                index_target_at(toks, index_target_pos(toks, old(self).position())) is Ok,
                k == index_target_at(toks, index_target_pos(toks, old(self).position()))->Ok_0.1,
                tok_at(toks, k) is LParen,
                whole == index_keys_from(toks, k + 1, Seq::empty()),
                whole is Some ==> whole == index_keys_continue(toks, self.position(), keys)
                    && index_keys_match(columns@, keys) && old(self).moved_to(&*self, self.position()),
            decreases self.toks().len() - self.position(),
        {
            self.advance();
            let ghost pos = self.position();
            match self.parse_index_column() {
                Ok(c) => {
                    proof {
                        if whole is Some {
                            let old_keys = keys;
                            keys = keys.push((ident_text(tok_at(toks, pos))->0, sort_order_at(toks, pos + 1),
                                index_nulls_at(toks, skip_sort_order(toks, pos + 1))->Ok_0.0));
                            assert forall|m: int| 0 <= m < columns@.len() + 1 implies ({
                                &&& opt_text(columns@.push(c)[m].name) == Some(keys[m].0)
                                &&& columns@.push(c)[m].expr is None && columns@.push(c)[m].collation is None
                                    && columns@.push(c)[m].opclass is None
                                &&& columns@.push(c)[m].asc == keys[m].1 && columns@.push(c)[m].nulls == keys[m].2
                            }) by {
                                if m < columns@.len() {
                                    assert(columns@.push(c)[m] == columns@[m]);
                                    assert(keys[m] == old_keys[m]);
                                }
                            }
                        }
                    }
                    columns.push(c);
                },
                Err(e) => return Err(e),
            }
        }
        match self.expect_token(&Token::RParen, ")") {
            Ok(()) => {},
            Err(e) => return Err(e),
        }
        let ghost simple = whole matches Some(Ok((_, qq))) && no_index_clause_at(toks, qq);
        let ghost q0 = self.position();
        if self.match_keyword(Keyword::LOCAL) || self.match_keyword(Keyword::GLOBAL) {
            self.advance();
            self.skip_balanced_parens();
        }
        if self.match_keyword(Keyword::WITH) {
            self.advance();
            self.skip_to_close_paren();
        }
        let mut tablespace: Option<String> = None;
        let mut where_clause: Option<Expr> = None;
        loop
            invariant
                old(self).steps(&*self),
                self.position() > old(self).position(),
                kw_at(old(self).toks(), old(self).position(), Keyword::INDEX),
                toks == old(self).toks(),
                index_target_at(toks, index_target_pos(toks, old(self).position())) is Ok,
                k == index_target_at(toks, index_target_pos(toks, old(self).position()))->Ok_0.1,
                tok_at(toks, k) is LParen,
                whole == index_keys_from(toks, k + 1, Seq::empty()),
                !(whole matches Some(Err(_))),
                simple == (whole matches Some(Ok((_, qq))) && no_index_clause_at(toks, qq)),
                simple ==> whole->Some_0->Ok_0.1 == q0 && self.position() == q0 && old(self).moved_to(&*self, q0)
                    && tablespace is None && where_clause is None && index_keys_match(columns@, keys)
                    && whole->Some_0->Ok_0.0 == keys,
            decreases self.toks().len() - self.position(),
        {
            if self.match_keyword(Keyword::TABLESPACE) {
                self.advance();
                match self.parse_identifier() {
                    Ok(t) => tablespace = Some(t),
                    Err(e) => return Err(e),
                }
            } else if self.match_keyword(Keyword::WHERE) {
                self.advance();
                match self.parse_expr() {
                    Ok(e) => where_clause = Some(e),
                    Err(e) => return Err(e),
                }
            } else if self.match_keyword(Keyword::PCTFREE) || self.match_keyword(Keyword::INITRANS)
                || self.match_keyword(Keyword::MAXTRANS) || self.match_ident_str("PCTUSED") {
                self.advance();
                let _ = self.parse_expr();
            } else if self.match_keyword(Keyword::STORAGE) {
                self.advance();
                self.skip_balanced_parens();
            } else {
                break;
            }
        }
        Ok(CreateIndexStatement {
            unique,
            if_not_exists,
            concurrent,
            name,
            table,
            using_method,
            columns,
            tablespace,
            where_clause,
        })
    }

    /// A key of a global index: `name (n)` (a prefix length), `name (args)` (a function
    /// of columns), or `name [COLLATE c] [opclass] [ASC|DESC] [NULLS FIRST|LAST]`.
    pub fn parse_global_index_column(&mut self) -> (r: Result<GlobalIndexColumn, ParserError>)
        requires
            old(self).wf(),
        ensures
            old(self).steps(&*final(self)),
            r is Ok ==> final(self).position() > old(self).position(),
            ident_text(old(self).current()) is None ==> r is Err && old(self).moved_to(&*final(self), old(self).position())
                && old(self).reports(r->Err_0, old(self).position(), "identifier"@),
            ({
                let toks = old(self).toks();
                let i = old(self).position();
                ident_text(old(self).current()) is Some && tok_at(toks, i + 1) is LParen && tok_at(toks, i + 2) is Integer
                    ==> if tok_at(toks, i + 3) is RParen {
                        r is Ok && r->Ok_0.name@ == ident_text(old(self).current())->0
                            && r->Ok_0.length == Some(#[verifier::truncate] (tok_at(toks, i + 2)->Integer_0 as u32))
                            && r->Ok_0.collation is None && r->Ok_0.opclass is None && r->Ok_0.ordering is None
                            && r->Ok_0.nulls is None && r->Ok_0.expression is None
                            && old(self).moved_to(&*final(self), i + 4)
                    } else {
                        r is Err && old(self).moved_to(&*final(self), i + 3) && old(self).reports(r->Err_0, i + 3, ")"@)
                    }
            }),
            ({
                let toks = old(self).toks();
                let i = old(self).position();
                ident_text(old(self).current()) is Some && !(tok_at(toks, i + 1) is LParen)
                    && !kw_at(toks, i + 1, Keyword::COLLATE) && !opclass_may_stand_at(toks, i + 1)
                    ==> match index_nulls_at(toks, skip_sort_order(toks, i + 1)) {
                        Ok((n, q)) => r is Ok && r->Ok_0.name@ == ident_text(old(self).current())->0
                            && r->Ok_0.length is None && r->Ok_0.collation is None && r->Ok_0.opclass is None
                            && r->Ok_0.ordering == ordering_at(toks, i + 1) && r->Ok_0.nulls == n
                            && r->Ok_0.expression is None && old(self).moved_to(&*final(self), q),
                        Err((q, expected)) => r is Err && old(self).moved_to(&*final(self), q)
                            && old(self).reports(r->Err_0, q, expected),
                    }
            }),
    {
        let col_name = match self.parse_identifier() {
            Ok(n) => n,
            Err(e) => return Err(e),
        };
        if self.match_token(&Token::LParen) {
            let length: Option<i64> = match self.peek_at(1) {
                Token::Integer(n) => Some(*n),
                _ => None,
            };
            match length {
                Some(n) => {
                    self.advance();
                    self.advance();
                    return match self.expect_token(&Token::RParen, ")") {
                        Ok(()) => Ok(GlobalIndexColumn {
                            name: col_name,
                            length: Some(#[verifier::truncate] (n as u32)),
                            collation: None,
                            opclass: None,
                            ordering: None,
                            nulls: None,
                            expression: None,
                        }),
                        Err(e) => Err(e),
                    };
                },
                None => {},
            }
            self.advance();
            let mut args: Vec<Expr> = Vec::new();
            if !self.match_token(&Token::RParen) {
                match self.parse_expr() {
                    Ok(e) => args.push(e),
                    Err(e) => return Err(e),
                }
                while self.match_token(&Token::Comma)
                    invariant
                        old(self).steps(&*self),
                        self.position() > old(self).position(),
                        ident_text(old(self).current()) is Some,
                        tok_at(old(self).toks(), old(self).position() + 1) is LParen,
                        !(tok_at(old(self).toks(), old(self).position() + 2) is Integer),
                    decreases self.toks().len() - self.position(),
                {
                    self.advance();
                    match self.parse_expr() {
                        Ok(e) => args.push(e),
                        Err(e) => return Err(e),
                    }
                }
            }
            return match self.expect_token(&Token::RParen, ")") {
                Ok(()) => Ok(GlobalIndexColumn {
                    name: String::new(),
                    length: None,
                    collation: None,
                    opclass: None,
                    ordering: None,
                    nulls: None,
                    expression: Some(Expr::FunctionCall {
                        name: vec![col_name],
                        args,
                        distinct: false,
                        over: None,
                        filter: None,
                        within_group: Vec::new(),
                    }),
                }),
                Err(e) => Err(e),
            };
        }
        let collation: Option<String> = if self.match_keyword(Keyword::COLLATE) {
            self.advance();
            match self.parse_identifier() {
                Ok(c) => Some(c),
                Err(e) => return Err(e),
            }
        } else {
            None
        };
        let opclass: Option<String> = if self.at_opclass() {
            match self.parse_identifier() {
                Ok(c) => Some(c),
                Err(e) => return Err(e),
            }
        } else {
            None
        };
        let ordering: Option<IndexOrdering> = if self.match_keyword(Keyword::ASC) {
            self.advance();
            Some(IndexOrdering::Asc)
        } else if self.match_keyword(Keyword::DESC) {
            self.advance();
            Some(IndexOrdering::Desc)
        } else {
            None
        };
        let nulls = match self.parse_index_nulls() {
            Ok(n) => n,
            Err(e) => return Err(e),
        };
        Ok(GlobalIndexColumn { name: col_name, length: None, collation, opclass, ordering, nulls, expression: None })
    }

    /// `WITH (key = value, ...)` of a global index: integers as digits, string literals
    /// quoted, other values as identifiers.
    fn parse_global_index_options(&mut self, out: &mut Vec<(String, String)>) -> (r: Result<(), ParserError>)
        requires
            old(self).wf(),
        ensures
            old(self).steps(&*final(self)),
            match global_options_at(old(self).toks(), old(self).position(), options_view(old(out)@)) {
                Ok((o, q)) => r is Ok && options_view(final(out)@) == o && old(self).moved_to(&*final(self), q),
                Err((q, e)) => r is Err && old(self).moved_to(&*final(self), q) && old(self).reports(r->Err_0, q, e),
            },
    {
        match self.expect_token(&Token::LParen, "(") {
            Ok(()) => {},
            Err(e) => return Err(e),
        }
        loop
            invariant_except_break
                global_options_at(old(self).toks(), old(self).position(), options_view(old(out)@))
                    == global_options_from(self.toks(), self.position(), options_view(out@)),
            invariant
                old(self).steps(&*self),
                old(self).moved_to(&*self, self.position()),
            ensures
                global_options_at(old(self).toks(), old(self).position(), options_view(old(out)@)) == if self.current() is RParen {
                    Outcome::<Seq<OptionView>>::Ok((options_view(out@), self.position() + 1))
                } else {
                    Outcome::<Seq<OptionView>>::Err((self.position(), ")"@))
                },
            decreases self.toks().len() - self.position(),
        {
            let ghost j = self.position();
            let ghost acc = options_view(out@);
            let key = match self.parse_identifier() {
                Ok(k) => k,
                Err(e) => return Err(e),
            };
            match self.expect_token(&Token::Eq, "=") {
                Ok(()) => {},
                Err(e) => return Err(e),
            }
            let literal: Option<String> = match self.peek() {
                Token::Integer(n) => {
                    let mut t = String::new();
                    push_signed(&mut t, *n);
                    proof {
                        assert(t@ =~= signed_decimal(*n as int));
                    }
                    Some(t)
                },
                Token::StringLiteral(s) => {
                    let mut t = String::new();
                    t.push('\'');
                    t.append(s.as_str());
                    t.push('\'');
                    proof {
                        assert(t@ =~= seq!['\''] + s@ + seq!['\'']);
                    }
                    Some(t)
                },
                _ => None,
            };
            proof {
                assert(opt_text(literal) == global_option_literal(self.current()));
            }
            let value = match literal {
                Some(v) => {
                    self.advance();
                    v
                },
                None => match self.parse_identifier() {
                    Ok(v) => v,
                    Err(e) => return Err(e),
                },
            };
            let ghost before = options_view(out@);
            out.push((key, value));
            proof {
                assert(options_view(out@) =~= before.push((key@, value@)));
                assert(global_option_value_at(self.toks(), j + 2) == Outcome::<Seq<char>>::Ok((value@, j + 3)));
            }
            if !self.match_token(&Token::Comma) {
                break;
            }
            self.advance();
        }
        self.expect_token(&Token::RParen, ")")
    }

    /// `[UNIQUE] INDEX [CONCURRENTLY] [IF NOT EXISTS] [name] ON table [USING method] (keys)
    /// [CONTAINING (cols)] [DISTRIBUTE BY HASH (cols)] [WITH (...)]` and then, in any
    /// order, `TABLESPACE ts`, `VISIBLE`/`INVISIBLE`, `WHERE predicate`.
    pub fn parse_create_global_index(&mut self) -> (r: Result<CreateGlobalIndexStatement, ParserError>)
        requires
            old(self).wf(),
        ensures
            old(self).steps(&*final(self)),
            r is Ok ==> final(self).position() > old(self).position()
                && r->Ok_0.unique == kw_at(old(self).toks(), old(self).position(), Keyword::UNIQUE)
                && r->Ok_0.columns@.len() >= 1,
            ({
                let toks = old(self).toks();
                let j = global_index_keyword_pos(toks, old(self).position());
                !kw_at(toks, j, Keyword::INDEX) ==> r is Err && old(self).moved_to(&*final(self), j)
                    && old(self).reports(r->Err_0, j, "INDEX"@)
            }),
            ({
                let toks = old(self).toks();
                let i = old(self).position();
                let t = global_index_target_pos(toks, i);
                kw_at(toks, global_index_keyword_pos(toks, i), Keyword::INDEX) ==> match index_target_at(toks, t) {
                    Err((q, e)) => r is Err && old(self).moved_to(&*final(self), q) && old(self).reports(r->Err_0, q, e),
                    Ok((target, k)) => (r is Ok ==> r->Ok_0.concurrent == kw_at(toks, global_index_keyword_pos(toks, i) + 1, Keyword::CONCURRENTLY)
                        && r->Ok_0.if_not_exists == has_if_not_exists(toks, global_index_exists_pos(toks, i))
                        && index_target_view((r->Ok_0.name, r->Ok_0.table, r->Ok_0.using_method)) == target)
                        && (!(tok_at(toks, k) is LParen) ==> r is Err && old(self).moved_to(&*final(self), k)
                            && old(self).reports(r->Err_0, k, "("@))
                        && ((tok_at(toks, k) is LParen && (tok_at(toks, k + 1) is Ident || tok_at(toks, k + 1) is QuotedIdent)
                            && tok_at(toks, k + 2) is RParen && no_global_index_clause_at(toks, k + 3)) ==> r is Ok
                            && r->Ok_0.columns@.len() == 1
                            && plain_global_key(r->Ok_0.columns@[0], tok_at(toks, k + 1))
                            && r->Ok_0.containing@.len() == 0 && r->Ok_0.distribute_by is None
                            && r->Ok_0.with_options@.len() == 0 && r->Ok_0.tablespace is None
                            && r->Ok_0.visible is None && r->Ok_0.where_clause is None
                            && old(self).moved_to(&*final(self), k + 3)),
                }
            }),
    {
        let unique = self.try_consume_keyword(Keyword::UNIQUE);
        match self.expect_keyword(Keyword::INDEX) {
            Ok(()) => {},
            Err(e) => return Err(e),
        }
        let concurrent = self.try_consume_keyword(Keyword::CONCURRENTLY);
        let if_not_exists = self.parse_if_not_exists();
        let (name, table, using_method) = match self.parse_index_target() {
            Ok(t) => t,
            Err(e) => return Err(e),
        };
        let ghost k = self.position();
        let ghost toks = self.toks();
        let ghost simple = tok_at(toks, k) is LParen && (tok_at(toks, k + 1) is Ident || tok_at(toks, k + 1) is QuotedIdent)
            && tok_at(toks, k + 2) is RParen && no_global_index_clause_at(toks, k + 3);
        match self.expect_token(&Token::LParen, "(") {
            Ok(()) => {},
            Err(e) => return Err(e),
        }
        let mut columns: Vec<GlobalIndexColumn> = Vec::new();
        match self.parse_global_index_column() {
            Ok(c) => columns.push(c),
            Err(e) => return Err(e),
        }
        while self.match_token(&Token::Comma)
            invariant
                old(self).steps(&*self),
                self.position() > old(self).position(),
                columns@.len() >= 1,
                toks == self.toks(),
                kw_at(toks, global_index_keyword_pos(toks, old(self).position()), Keyword::INDEX),
                index_target_at(toks, global_index_target_pos(toks, old(self).position())) is Ok,
                index_target_at(toks, global_index_target_pos(toks, old(self).position()))->Ok_0.1 == k,
                tok_at(toks, k) is LParen,
                simple == (tok_at(toks, k) is LParen && (tok_at(toks, k + 1) is Ident || tok_at(toks, k + 1) is QuotedIdent)
                    && tok_at(toks, k + 2) is RParen && no_global_index_clause_at(toks, k + 3)),
                simple ==> self.position() == k + 2 && columns@.len() == 1
                    && plain_global_key(columns@[0], tok_at(toks, k + 1)) && old(self).moved_to(&*self, k + 2),
            decreases self.toks().len() - self.position(),
        {
            self.advance();
            match self.parse_global_index_column() {
                Ok(c) => columns.push(c),
                Err(e) => return Err(e),
            }
        }
        match self.expect_token(&Token::RParen, ")") {
            Ok(()) => {},
            Err(e) => return Err(e),
        }
        let mut containing: Vec<String> = Vec::new();
        if self.match_ident_str("CONTAINING") {
            self.advance();
            match self.parse_paren_identifiers() {
                Ok(c) => containing = c,
                Err(e) => return Err(e),
            }
        }
        let mut distribute_by: Option<DistributeClause> = None;
        if self.match_keyword(Keyword::DISTRIBUTE) {
            self.advance();
            match self.expect_keyword(Keyword::BY) {
                Ok(()) => {},
                Err(e) => return Err(e),
            }
            if !self.try_consume_ident_str("HASH") {
                return Err(self.unexpected("HASH"));
            }
            match self.parse_paren_identifiers() {
                Ok(cols) => distribute_by = Some(DistributeClause::Hash { columns: cols }),
                Err(e) => return Err(e),
            }
        }
        let mut with_options: Vec<(String, String)> = Vec::new();
        if self.match_keyword(Keyword::WITH) {
            self.advance();
            match self.parse_global_index_options(&mut with_options) {
                Ok(()) => {},
                Err(e) => return Err(e),
            }
        }
        let mut tablespace: Option<String> = None;
        let mut visible: Option<bool> = None;
        let mut where_clause: Option<Expr> = None;
        loop
            invariant
                old(self).steps(&*self),
                self.position() > old(self).position(),
                toks == self.toks(),
                kw_at(toks, global_index_keyword_pos(toks, old(self).position()), Keyword::INDEX),
                index_target_at(toks, global_index_target_pos(toks, old(self).position())) is Ok,
                index_target_at(toks, global_index_target_pos(toks, old(self).position()))->Ok_0.1 == k,
                tok_at(toks, k) is LParen,
                simple == (tok_at(toks, k) is LParen && (tok_at(toks, k + 1) is Ident || tok_at(toks, k + 1) is QuotedIdent)
                    && tok_at(toks, k + 2) is RParen && no_global_index_clause_at(toks, k + 3)),
                simple ==> self.position() == k + 3 && no_global_index_clause_at(toks, k + 3)
                    && old(self).moved_to(&*self, k + 3) && tablespace is None && visible is None
                    && where_clause is None,
            decreases self.toks().len() - self.position(),
        {
            if self.match_keyword(Keyword::TABLESPACE) {
                self.advance();
                match self.parse_identifier() {
                    Ok(t) => tablespace = Some(t),
                    Err(e) => return Err(e),
                }
            } else if self.match_keyword(Keyword::VISIBLE) || self.match_keyword(Keyword::INVISIBLE) {
                visible = Some(self.match_keyword(Keyword::VISIBLE));
                self.advance();
            } else if self.match_keyword(Keyword::WHERE) {
                self.advance();
                match self.parse_expr() {
                    Ok(e) => where_clause = Some(e),
                    Err(e) => return Err(e),
                }
            } else {
                break;
            }
        }
        Ok(CreateGlobalIndexStatement {
            unique,
            concurrent,
            if_not_exists,
            name,
            table,
            using_method,
            columns,
            containing,
            distribute_by,
            with_options,
            tablespace,
            visible,
            where_clause,
        })
    }
}

/// `NULLS FIRST` puts nulls first and `NULLS LAST` puts them last, each two tokens long;
/// for a plain key `name [ASC|DESC] NULLS FIRST|LAST` the key's nulls placement is that one.
pub proof fn law_nulls_first_and_last(toks: Seq<Token>, i: int)
    ensures
        kw_at(toks, i, Keyword::NULLS_P) && kw_at(toks, i + 1, Keyword::FIRST_P)
            ==> index_nulls_at(toks, i) == Outcome::<Option<IndexNulls>>::Ok((Some(IndexNulls::First), i + 2)),
        kw_at(toks, i, Keyword::NULLS_P) && kw_at(toks, i + 1, Keyword::LAST_P)
            ==> index_nulls_at(toks, i) == Outcome::<Option<IndexNulls>>::Ok((Some(IndexNulls::Last), i + 2)),
        !kw_at(toks, i, Keyword::NULLS_P) ==> index_nulls_at(toks, i) == Outcome::<Option<IndexNulls>>::Ok((None, i)),
{
}

/// The key `name NULLS FIRST` places nulls first, and `name NULLS LAST` places them last.
pub proof fn law_plain_key_nulls(toks: Seq<Token>, i: int)
    requires
        tok_at(toks, i) is Ident,
        kw_at(toks, i + 1, Keyword::NULLS_P),
    ensures
        plain_key_at(toks, i),
        kw_at(toks, i + 2, Keyword::FIRST_P) ==> index_nulls_at(toks, skip_sort_order(toks, i + 1))
            == Outcome::<Option<IndexNulls>>::Ok((Some(IndexNulls::First), i + 3)),
        kw_at(toks, i + 2, Keyword::LAST_P) ==> index_nulls_at(toks, skip_sort_order(toks, i + 1))
            == Outcome::<Option<IndexNulls>>::Ok((Some(IndexNulls::Last), i + 3)),
{
}

/// `ASC` sorts ascending and `DESC` descending; with neither the order is left unset.
pub proof fn law_sort_order_keywords(toks: Seq<Token>, i: int)
    ensures
        kw_at(toks, i, Keyword::ASC) ==> sort_order_at(toks, i) == Some(true) && skip_sort_order(toks, i) == i + 1,
        kw_at(toks, i, Keyword::DESC) ==> sort_order_at(toks, i) == Some(false) && skip_sort_order(toks, i) == i + 1,
        !kw_at(toks, i, Keyword::ASC) && !kw_at(toks, i, Keyword::DESC) ==> sort_order_at(toks, i) is None
            && skip_sort_order(toks, i) == i,
{
}

} // verus!
