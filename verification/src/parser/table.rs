//! CREATE TABLE: column definitions and their constraints, table constraints,
//! LIKE clauses, partitioning, and the table options that may follow.
use vstd::prelude::*;
use crate::ast::{
    ColumnConstraint, ColumnDef, CreateTableStatement, DataType, DistributeClause, EncryptedWith, Expr, GeneratedColumn,
    IlmPolicy, LikeClause, ObjectName, OnCommitAction, PartitionClause, PartitionDef, PartitionValues,
    TableConstraint,
};
use crate::error::ParserError;
use crate::parser::alter::name_at;
use crate::parser::create::{ident_at, ident_list_at};
use crate::parser::ddl::{column_list_at, name_list_at};
use crate::parser::names_view;
use crate::parser::expr::{ends_operand, has_leaf, leaf_end, leaf_list_from, leaf_value, leaves_match, lone_leaf_at, opt_text, paren_leaves_at};
use crate::parser::options::{option_value_text, options_view, OptionView};
use crate::text::unicode_uppercase;
use crate::parser::expr::{custom_mods_match, data_type_at, is_type_keyword, named_type_mods_at, op_expr_at, tree_matches, type_at, type_view, OpTree, TypeView};
use crate::parser::ddl::{agrees, has_if_not_exists, if_not_exists_end, kw_at, lemma_object_name_bounds};
use crate::parser::{ident_text, ident_word_at, keyword_at, object_name_at, strings_view, tok_at, Outcome, Parser};
use crate::text::{push_signed, strs_equal, to_uppercase};
use crate::token::{keyword_text, Keyword, Token};

verus! {

// ────────────────────────────────────────────────────────────────
// Small clauses
// ────────────────────────────────────────────────────────────────

/// Where `USING [INDEX] [TABLESPACE name]` at `i` ends; a missing tablespace name is
/// passed over.
pub open spec fn using_index_tablespace_end(toks: Seq<Token>, i: int) -> int {
    if kw_at(toks, i, Keyword::USING) {
        let j = if kw_at(toks, i + 1, Keyword::INDEX) { i + 2 } else { i + 1 };
        if kw_at(toks, j, Keyword::TABLESPACE) {
            if ident_text(tok_at(toks, j + 1)) is Some { j + 2 } else { j + 1 }
        } else {
            j
        }
    } else {
        i
    }
}

/// Where the parentheses opened before `i` close (at nesting `depth`), or the end.
pub open spec fn close_parens_from(toks: Seq<Token>, i: int, depth: nat) -> int
    decreases toks.len() - i,
{
    if depth == 0 || i < 0 || i >= toks.len() {
        i
    } else if toks[i] is LParen {
        close_parens_from(toks, i + 1, depth + 1)
    } else if toks[i] is RParen {
        close_parens_from(toks, i + 1, (depth - 1) as nat)
    } else {
        close_parens_from(toks, i + 1, depth)
    }
}

pub(crate) proof fn lemma_close_parens_bounds(toks: Seq<Token>, i: int, depth: nat)
    requires
        0 <= i <= toks.len(),
    ensures
        i <= close_parens_from(toks, i, depth) <= toks.len(),
    decreases toks.len() - i,
{
    if depth == 0 || i >= toks.len() {
    } else if toks[i] is LParen {
        lemma_close_parens_bounds(toks, i + 1, depth + 1);
    } else if toks[i] is RParen {
        lemma_close_parens_bounds(toks, i + 1, (depth - 1) as nat);
    } else {
        lemma_close_parens_bounds(toks, i + 1, depth);
    }
}

/// Where `WITH ( ... )` (storage options, which are not kept) at `i` ends.
pub open spec fn with_options_end(toks: Seq<Token>, i: int) -> int {
    if kw_at(toks, i, Keyword::WITH) {
        if tok_at(toks, i + 1) is LParen { close_parens_from(toks, i + 2, 1) } else { i + 1 }
    } else {
        i
    }
}

/// `( ident, ... )` at `i`.
pub open spec fn paren_idents_at(toks: Seq<Token>, i: int) -> Outcome<Seq<Seq<char>>> {
    if !(tok_at(toks, i) is LParen) {
        Err((i, "("@))
    } else {
        match ident_list_at(toks, i + 1) {
            Err(e) => Err(e),
            Ok((v, j)) => if tok_at(toks, j) is RParen {
                Ok((v, j + 1))
            } else {
                Err((j, ")"@))
            },
        }
    }
}


// ────────────────────────────────────────────────────────────────
// Small clauses, as read from the tokens
// ────────────────────────────────────────────────────────────────

/// The position after the token at `i` (unchanged at the end).
pub open spec fn after(toks: Seq<Token>, i: int) -> int {
    if i < toks.len() { i + 1 } else { i }
}

/// The storage attributes that may follow `USING [INDEX]`, each with a value.
pub open spec fn using_attribute_at(toks: Seq<Token>, j: int) -> bool {
    kw_at(toks, j, Keyword::PCTFREE) || kw_at(toks, j, Keyword::INITRANS) || kw_at(toks, j, Keyword::MAXTRANS)
        || kw_at(toks, j, Keyword::STORAGE) || kw_at(toks, j, Keyword::TABLESPACE)
}

/// Where the attributes of `USING [INDEX] ...` start, `USING` at `i`.
pub open spec fn using_attributes_start(toks: Seq<Token>, i: int) -> int {
    if kw_at(toks, i + 1, Keyword::INDEX) { i + 2 } else { i + 1 }
}

/// `ON UPDATE {CURRENT_TIMESTAMP | LOCALTIMESTAMP | NOW ( _ ) | name}` at `i`; nothing
/// where `ON UPDATE` is absent. After `NOW (` one token is passed over before the `)`.
pub open spec fn on_update_at(toks: Seq<Token>, i: int) -> Outcome<Option<Seq<char>>> {
    let j = i + 2;
    if !(kw_at(toks, i, Keyword::ON) && kw_at(toks, i + 1, Keyword::UPDATE)) {
        Ok((None, i))
    } else if kw_at(toks, j, Keyword::CURRENT_TIMESTAMP) {
        Ok((Some("CURRENT_TIMESTAMP"@), j + 1))
    } else if ident_word_at(toks, j, "LOCALTIMESTAMP"@) {
        Ok((Some("LOCALTIMESTAMP"@), j + 1))
    } else if ident_word_at(toks, j, "NOW"@) {
        if !(tok_at(toks, j + 1) is LParen) {
            Err((j + 1, "("@))
        } else {
            let k = after(toks, j + 2);
            if tok_at(toks, k) is RParen { Ok((Some("NOW()"@), k + 1)) } else { Err((k, ")"@)) }
        }
    } else {
        match ident_text(tok_at(toks, j)) {
            Some(t) => Ok((Some(t), j + 1)),
            None => Err((j, "identifier"@)),
        }
    }
}

/// The forms of `GENERATED ...` at `i` that keep nothing (all but `GENERATED ALWAYS AS (expr)`):
/// where they end, or where they fail. `None` for the kept form.
pub open spec fn generated_skip_at(toks: Seq<Token>, i: int) -> Option<Outcome<()>> {
    let j = i + 1;
    if !kw_at(toks, i, Keyword::GENERATED) {
        Some(Ok(((), i)))
    } else if kw_at(toks, j, Keyword::ALWAYS) {
        if !kw_at(toks, j + 1, Keyword::AS) {
            Some(Err((j + 1, keyword_text(Keyword::AS))))
        } else if tok_at(toks, j + 2) is LParen {
            None
        } else if kw_at(toks, j + 2, Keyword::IDENTITY_P) {
            Some(Ok(((), close_paren_skip_end(toks, j + 3))))
        } else {
            Some(Ok(((), j + 2)))
        }
    } else if kw_at(toks, j, Keyword::BY) {
        if !kw_at(toks, j + 1, Keyword::DEFAULT) {
            Some(Err((j + 1, keyword_text(Keyword::DEFAULT))))
        } else {
            let k0 = j + 2;
            let k1 = if kw_at(toks, k0, Keyword::ON) { k0 + 1 } else { k0 };
            let k2 = if kw_at(toks, k1, Keyword::NULL_P) { k1 + 1 } else { k1 };
            if !kw_at(toks, k2, Keyword::AS) {
                Some(Err((k2, keyword_text(Keyword::AS))))
            } else if !kw_at(toks, k2 + 1, Keyword::IDENTITY_P) {
                Some(Err((k2 + 1, keyword_text(Keyword::IDENTITY_P))))
            } else {
                Some(Ok(((), close_paren_skip_end(toks, k2 + 2))))
            }
        }
    } else {
        Some(Ok(((), j)))
    }
}

/// `CHARACTER SET [=] name` or `CHARSET [=] name`, the first word at `i`.
pub open spec fn charset_clause_at(toks: Seq<Token>, i: int) -> Outcome<Seq<char>> {
    let j0 = after(toks, i);
    let j1 = if !kw_at(toks, i, Keyword::CHARSET) && kw_at(toks, j0, Keyword::SET) { j0 + 1 } else { j0 };
    let j2 = if tok_at(toks, j1) is Eq { j1 + 1 } else { j1 };
    name_at(toks, j2)
}

/// `COLLATE [=] name`, the first word at `i`.
pub open spec fn collate_clause_at(toks: Seq<Token>, i: int) -> Outcome<Seq<char>> {
    let j0 = after(toks, i);
    let j1 = if tok_at(toks, j0) is Eq { j0 + 1 } else { j0 };
    name_at(toks, j1)
}

/// The first `)` or `Eof` at or after `j`, or the end.
pub open spec fn first_close_or_end(toks: Seq<Token>, j: int) -> int
    decreases toks.len() - j,
{
    if j < 0 || j >= toks.len() || toks[j] is RParen || toks[j] is Eof {
        j
    } else {
        first_close_or_end(toks, j + 1)
    }
}

/// Where skipping `( ... )` (not nested) at `i` ends: after the first `)`, or at the end.
pub open spec fn close_paren_skip_end(toks: Seq<Token>, i: int) -> int {
    if tok_at(toks, i) is LParen {
        let k = first_close_or_end(toks, i + 1);
        if tok_at(toks, k) is RParen { k + 1 } else { k }
    } else {
        i
    }
}

/// The compression mode word at `i`, if there is one.
pub open spec fn compress_mode_at(toks: Seq<Token>, i: int) -> Option<Seq<char>> {
    if ident_word_at(toks, i, "DELTA"@) {
        Some("DELTA"@)
    } else if ident_word_at(toks, i, "PREFIX"@) {
        Some("PREFIX"@)
    } else if ident_word_at(toks, i, "DICTIONARY"@) {
        Some("DICTIONARY"@)
    } else if ident_word_at(toks, i, "NUMSTR"@) {
        Some("NUMSTR"@)
    } else {
        None
    }
}

/// An option value at `i`.
pub open spec fn option_value_at(toks: Seq<Token>, i: int) -> Outcome<Seq<char>> {
    match option_value_text(tok_at(toks, i)) {
        Some(v) => Ok((v, i + 1)),
        None => Err((i, "option value"@)),
    }
}

/// Options `key [=] value, ... )` from `m` on, after `acc`; with `eq_required` the `=`
/// must be there.
pub open spec fn option_list_items(toks: Seq<Token>, m: int, eq_required: bool, acc: Seq<OptionView>) -> Outcome<Seq<OptionView>>
    decreases toks.len() - m,
{
    match name_at(toks, m) {
        Err(e) => Err(e),
        Ok((key, m1)) => {
            let m2: Outcome<()> = if eq_required {
                if tok_at(toks, m1) is Eq { Ok(((), m1 + 1)) } else { Err((m1, "="@)) }
            } else {
                Ok(((), if tok_at(toks, m1) is Eq { m1 + 1 } else { m1 }))
            };
            match m2 {
                Err(e) => Err(e),
                Ok((_, k)) => match option_value_at(toks, k) {
                    Err(e) => Err(e),
                    Ok((v, m3)) => if tok_at(toks, m3) is Comma {
                        option_list_items(toks, m3 + 1, eq_required, acc.push((key, v)))
                    } else if tok_at(toks, m3) is RParen {
                        Ok((acc.push((key, v)), m3 + 1))
                    } else {
                        Err((m3, ")"@))
                    },
                },
            }
        },
    }
}

/// `( key [=] value, ... )` at `i`.
pub open spec fn option_list_at(toks: Seq<Token>, i: int, eq_required: bool) -> Outcome<Seq<OptionView>> {
    if tok_at(toks, i) is LParen {
        option_list_items(toks, i + 1, eq_required, Seq::empty())
    } else {
        Err((i, "("@))
    }
}

/// `ON COMMIT {PRESERVE ROWS | DELETE ROWS | DROP}`, `ON` at `i`.
pub open spec fn on_commit_at(toks: Seq<Token>, i: int) -> Outcome<OnCommitAction> {
    let j = after(toks, i);
    if !kw_at(toks, j, Keyword::COMMIT) {
        Err((j, "COMMIT"@))
    } else if kw_at(toks, j + 1, Keyword::PRESERVE) {
        if kw_at(toks, j + 2, Keyword::ROWS) { Ok((OnCommitAction::PreserveRows, j + 3)) } else { Err((j + 2, "ROWS"@)) }
    } else if kw_at(toks, j + 1, Keyword::DELETE_P) {
        if kw_at(toks, j + 2, Keyword::ROWS) { Ok((OnCommitAction::DeleteRows, j + 3)) } else { Err((j + 2, "ROWS"@)) }
    } else if kw_at(toks, j + 1, Keyword::DROP) {
        Ok((OnCommitAction::Drop, j + 2))
    } else {
        Err((j + 1, "DROP"@))
    }
}

/// `ROW MOVEMENT` after the word at `i`.
pub open spec fn row_movement_at(toks: Seq<Token>, i: int) -> Outcome<()> {
    let j = after(toks, i);
    if !kw_at(toks, j, Keyword::ROW) {
        Err((j, "ROW"@))
    } else if !kw_at(toks, j + 1, Keyword::MOVEMENT) {
        Err((j + 1, "MOVEMENT"@))
    } else {
        Ok(((), j + 2))
    }
}

/// A character set or collation option at `i`: its key and value.
pub open spec fn charset_option_at(toks: Seq<Token>, i: int) -> Outcome<(Seq<char>, Seq<char>)> {
    let key = if kw_at(toks, i, Keyword::CHARACTER) {
        "CHARACTER SET"@
    } else if kw_at(toks, i, Keyword::CHARSET) {
        "CHARSET"@
    } else {
        "COLLATE"@
    };
    let j0 = after(toks, i);
    let j1 = if kw_at(toks, i, Keyword::CHARACTER) && kw_at(toks, j0, Keyword::SET) { j0 + 1 } else { j0 };
    let j2 = if tok_at(toks, j1) is Eq { j1 + 1 } else { j1 };
    match name_at(toks, j2) {
        Err(e) => Err(e),
        Ok((v, m)) => Ok(((key, v), m)),
    }
}

/// `word n` at `i`: the count when an integer follows the word, and where it ends.
pub open spec fn count_after_at(toks: Seq<Token>, i: int, word: Keyword) -> (Option<u32>, int) {
    if !kw_at(toks, i, word) {
        (None, i)
    } else {
        match tok_at(toks, i + 1) {
            Token::Integer(n) => (Some(n as u32), i + 2),
            _ => (None, i + 1),
        }
    }
}

/// The partitioning strategy at `i`, and whether `COLUMNS` follows `RANGE` or `LIST`.
pub open spec fn partition_strategy_at(toks: Seq<Token>, i: int) -> Outcome<(Strategy, bool)> {
    if tok_at(toks, i) matches Token::Ident(s) && unicode_uppercase(s@) == "HASH"@ {
        Ok(((Strategy::Hash, false), i + 1))
    } else if kw_at(toks, i, Keyword::RANGE) || kw_at(toks, i, Keyword::LIST) {
        let st = if kw_at(toks, i, Keyword::RANGE) { Strategy::Range } else { Strategy::List };
        let cols = kw_at(toks, i + 1, Keyword::COLUMNS);
        Ok(((st, cols), if cols { i + 2 } else { i + 1 }))
    } else {
        Err((i, "RANGE, LIST, or HASH"@))
    }
}

/// `( name, ... )` of partition key columns at `i`.
pub open spec fn partition_columns_at(toks: Seq<Token>, i: int) -> Outcome<Seq<Seq<Seq<char>>>> {
    if !(tok_at(toks, i) is LParen) {
        Err((i, "("@))
    } else {
        match name_list_at(toks, i + 1) {
            Err(e) => Err(e),
            Ok((v, j)) => if tok_at(toks, j) is RParen { Ok((v, j + 1)) } else { Err((j, ")"@)) },
        }
    }
}

/// A distribution clause as plain values.
pub enum DistributeView {
    Hash(Seq<Seq<char>>),
    Replication,
    RoundRobin(Seq<Seq<char>>),
    Modulo(Seq<Seq<char>>),
}

pub open spec fn distribute_view(d: DistributeClause) -> DistributeView {
    match d {
        DistributeClause::Hash { columns } => DistributeView::Hash(strings_view(columns@)),
        DistributeClause::Replication => DistributeView::Replication,
        DistributeClause::RoundRobin { columns } => DistributeView::RoundRobin(strings_view(columns@)),
        DistributeClause::Modulo { columns } => DistributeView::Modulo(strings_view(columns@)),
    }
}

/// `DISTRIBUTE BY strategy`, `DISTRIBUTE` at `i`.
pub open spec fn distribute_by_at(toks: Seq<Token>, i: int) -> Outcome<DistributeView> {
    let j = after(toks, i);
    if !kw_at(toks, j, Keyword::BY) {
        Err((j, "BY"@))
    } else if ident_word_at(toks, j + 1, "HASH"@) {
        match paren_idents_at(toks, j + 2) {
            Err(e) => Err(e),
            Ok((c, m)) => Ok((DistributeView::Hash(c), m)),
        }
    } else if ident_word_at(toks, j + 1, "REPLICATION"@) {
        Ok((DistributeView::Replication, j + 2))
    } else if ident_word_at(toks, j + 1, "ROUNDROBIN"@) {
        match paren_idents_at(toks, j + 2) {
            Err(e) => Err(e),
            Ok((c, m)) => Ok((DistributeView::RoundRobin(c), m)),
        }
    } else if ident_word_at(toks, j + 1, "MODULO"@) {
        match paren_idents_at(toks, j + 2) {
            Err(e) => Err(e),
            Ok((c, m)) => Ok((DistributeView::Modulo(c), m)),
        }
    } else {
        Err((j + 1, "HASH, REPLICATION, ROUNDROBIN, or MODULO"@))
    }
}

/// Where an unknown ILM clause from `i` ends: at `PARTITION`, `WITH`, `;`, `)` or the end.
pub open spec fn ilm_skip_end(toks: Seq<Token>, i: int) -> int
    decreases toks.len() - i,
{
    if i < 0 || i >= toks.len() || kw_at(toks, i, Keyword::PARTITION) || kw_at(toks, i, Keyword::WITH)
        || toks[i] is Semicolon || toks[i] is RParen || toks[i] is Eof {
        i
    } else {
        ilm_skip_end(toks, i + 1)
    }
}

/// The first `AFTER` from `j` on, or the end.
pub open spec fn first_after_or_end(toks: Seq<Token>, j: int) -> int
    decreases toks.len() - j,
{
    if j < 0 || j >= toks.len() || kw_at(toks, j, Keyword::AFTER) || toks[j] is Eof {
        j
    } else {
        first_after_or_end(toks, j + 1)
    }
}

/// `[POLICY] ... AFTER [n] unit OF _ _` at `i` (the words up to `AFTER` and the two after
/// `OF` are passed over): the count (0 when absent), the unit, and where an `ON (condition)`
/// may start.
pub open spec fn ilm_policy_at(toks: Seq<Token>, i: int) -> Outcome<(u64, Seq<char>)> {
    let j0 = if ident_word_at(toks, i, "POLICY"@) { i + 1 } else { i };
    let a = first_after_or_end(toks, j0);
    if !kw_at(toks, a, Keyword::AFTER) {
        Err((a, keyword_text(Keyword::AFTER)))
    } else {
        let (n, p): (u64, int) = match tok_at(toks, a + 1) {
            Token::Integer(v) => (#[verifier::truncate] (v as u64), a + 2),
            _ => (0u64, a + 1),
        };
        match ident_text(tok_at(toks, p)) {
            None => Err((p, "identifier"@)),
            Some(u) => if !kw_at(toks, p + 1, Keyword::OF) {
                Err((p + 1, keyword_text(Keyword::OF)))
            } else {
                Ok(((n, u), after(toks, after(toks, p + 2))))
            },
        }
    }
}

/// An ILM policy as plain values: the count, the unit, and the position of the single
/// operand of its `ON (condition)`.
pub type IlmView = (u64, Seq<char>, Option<int>);

/// `ILM ...` at `i`: the policy of `ILM ADD [POLICY] ...`, or nothing for another ILM
/// clause (passed over). `None` where a condition is more than a single operand.
pub open spec fn ilm_at(toks: Seq<Token>, i: int) -> Option<Outcome<Option<IlmView>>> {
    if !kw_at(toks, i + 1, Keyword::ADD_P) {
        Some(Ok((None, ilm_skip_end(toks, i + 1))))
    } else {
        match ilm_policy_at(toks, i + 2) {
            Err(e) => Some(Err(e)),
            Ok(((n, u), q)) => if !kw_at(toks, q, Keyword::ON) {
                Some(Ok((Some((n, u, None)), q)))
            } else if paren_leaf_at(toks, q + 1) {
                Some(Ok((Some((n, u, Some(q + 2))), paren_leaf_end(toks, q + 1))))
            } else {
                None
            },
        }
    }
}

/// `p` is the policy that `v` describes.
pub open spec fn ilm_matches(toks: Seq<Token>, p: IlmPolicy, v: IlmView) -> bool {
    &&& p.after_n == v.0
    &&& p.unit@ == v.1
    &&& match v.2 {
        None => p.condition is None,
        Some(c) => p.condition is Some && leaf_value(toks, c, p.condition->Some_0),
    }
}

/// The policy of a statement is the one that `v` describes (none for `None`).
pub open spec fn opt_ilm_matches(toks: Seq<Token>, p: Option<IlmPolicy>, v: Option<IlmView>) -> bool {
    match v {
        None => p is None,
        Some(x) => p is Some && ilm_matches(toks, p->Some_0, x),
    }
}

/// Any identifier-like word: a plain or quoted identifier, or a keyword's spelling.
pub open spec fn any_identifier_at(toks: Seq<Token>, i: int) -> Outcome<Seq<char>> {
    match tok_at(toks, i) {
        Token::Ident(s) => Ok((s@, i + 1)),
        Token::QuotedIdent(s) => Ok((s@, i + 1)),
        Token::Keyword(k) => Ok((keyword_text(k), i + 1)),
        _ => Err((i, "identifier"@)),
    }
}

/// The items `key = value, ... )` of `ENCRYPTED WITH (...)` from `j` on: the column key
/// and the encryption type so far in `acc` (the last of each wins; other keys are dropped).
pub open spec fn encryption_items(toks: Seq<Token>, j: int, acc: (Seq<char>, Seq<char>)) -> Outcome<(Seq<char>, Seq<char>)>
    decreases toks.len() - j,
{
    match any_identifier_at(toks, j) {
        Err(e) => Err(e),
        Ok((key, j1)) => if !(tok_at(toks, j1) is Eq) {
            Err((j1, "="@))
        } else {
            match any_identifier_at(toks, j1 + 1) {
                Err(e) => Err(e),
                Ok((v, j2)) => {
                    let up = unicode_uppercase(key);
                    let next = if up == "COLUMN_ENCRYPTION_KEY"@ {
                        (v, acc.1)
                    } else if up == "ENCRYPTION_TYPE"@ {
                        (acc.0, v)
                    } else {
                        acc
                    };
                    if tok_at(toks, j2) is Comma {
                        encryption_items(toks, j2 + 1, next)
                    } else if tok_at(toks, j2) is RParen {
                        Ok((next, j2 + 1))
                    } else {
                        Err((j2, ")"@))
                    }
                },
            }
        },
    }
}

/// `ENCRYPTED WITH ( key = value, ... )` at `i`: the column key and the encryption type
/// (empty when not given); nothing where `ENCRYPTED` is absent.
pub open spec fn encrypted_with_at(toks: Seq<Token>, i: int) -> Outcome<Option<(Seq<char>, Seq<char>)>> {
    if !kw_at(toks, i, Keyword::ENCRYPTED) {
        Ok((None, i))
    } else if !kw_at(toks, i + 1, Keyword::WITH) {
        Err((i + 1, keyword_text(Keyword::WITH)))
    } else if !(tok_at(toks, i + 2) is LParen) {
        Err((i + 2, "("@))
    } else {
        match encryption_items(toks, i + 3, (Seq::empty(), Seq::empty())) {
            Ok((v, q)) => Ok((Some(v), q)),
            Err(e) => Err(e),
        }
    }
}

/// The view of a parsed `ENCRYPTED WITH` clause.
pub open spec fn encrypted_view(e: Option<EncryptedWith>) -> Option<(Seq<char>, Seq<char>)> {
    match e {
        Some(x) => Some((x.column_encryption_key@, x.encryption_type@)),
        None => None,
    }
}

/// What a partition definition reads as: its name, whether it has values, its
/// tablespace, and how many subpartitions it has.
pub type PartitionDefView = (Seq<char>, bool, Option<Seq<char>>, nat);

pub open spec fn partition_defs_view(v: Seq<PartitionDef>) -> Seq<PartitionDefView> {
    v.map_values(|d: PartitionDef| (d.name@, d.values is Some, opt_text(d.tablespace), d.subpartitions@.len()))
}

/// The subpartitions `SUBPARTITION name [TABLESPACE ts], ... )` from `j` on, after `acc`;
/// `None` where one of them has `VALUES` (whose reading is not restated here).
pub open spec fn subpartitions_from(toks: Seq<Token>, j: int, acc: Seq<PartitionDefView>) -> Option<Outcome<Seq<PartitionDefView>>>
    decreases toks.len() - j,
{
    if !kw_at(toks, j, Keyword::SUBPARTITION) {
        Some(Err((j, keyword_text(Keyword::SUBPARTITION))))
    } else {
        match ident_text(tok_at(toks, j + 1)) {
            None => Some(Err((j + 1, "identifier"@))),
            Some(n) => {
                let j2 = j + 2;
                if kw_at(toks, j2, Keyword::VALUES) {
                    None
                } else {
                    let ts: Outcome<Option<Seq<char>>> = if kw_at(toks, j2, Keyword::TABLESPACE) {
                        match ident_text(tok_at(toks, j2 + 1)) {
                            Some(t) => Ok((Some(t), j2 + 2)),
                            None => Err((j2 + 1, "identifier"@)),
                        }
                    } else {
                        Ok((None, j2))
                    };
                    match ts {
                        Err(e) => Some(Err(e)),
                        Ok((t, j3)) => {
                            let next = acc.push((n, false, t, 0nat));
                            if tok_at(toks, j3) is Comma {
                                subpartitions_from(toks, j3 + 1, next)
                            } else if tok_at(toks, j3) is RParen {
                                Some(Ok((next, j3 + 1)))
                            } else {
                                Some(Err((j3, ")"@)))
                            }
                        },
                    }
                }
            },
        }
    }
}

/// `( SUBPARTITION ... )` at `i`: an empty list where no `(` follows or the list starts
/// with `PARTITION`.
pub open spec fn subpartition_defs_at(toks: Seq<Token>, i: int) -> Option<Outcome<Seq<PartitionDefView>>> {
    if !(tok_at(toks, i) is LParen) || kw_at(toks, i + 1, Keyword::PARTITION) {
        Some(Ok((Seq::empty(), i)))
    } else {
        subpartitions_from(toks, i + 1, Seq::empty())
    }
}

/// `( operand )` at `j`, the operand a single token or number that nothing continues.
pub open spec fn paren_leaf_at(toks: Seq<Token>, j: int) -> bool {
    &&& tok_at(toks, j) is LParen
    &&& has_leaf(toks, j + 1)
    &&& tok_at(toks, leaf_end(toks, j + 1)) is RParen
    &&& ends_operand(toks, leaf_end(toks, j + 1), 0)
}

/// Where `( operand )` at `j` ends.
pub open spec fn paren_leaf_end(toks: Seq<Token>, j: int) -> int {
    leaf_end(toks, j + 1) + 1
}

/// `BY strategy (columns)` after the `PARTITION` or `SUBPARTITION` at `i`.
pub open spec fn partition_head_at(toks: Seq<Token>, i: int) -> Outcome<(Strategy, bool, Seq<Seq<Seq<char>>>)> {
    let j = after(toks, i);
    if !kw_at(toks, j, Keyword::BY) {
        Err((j, keyword_text(Keyword::BY)))
    } else {
        match partition_strategy_at(toks, j + 1) {
            Err(e) => Err(e),
            Ok(((st, c), k)) => match partition_columns_at(toks, k) {
                Err(e) => Err(e),
                Ok((cols, m)) => Ok(((st, c, cols), m)),
            },
        }
    }
}

/// The strategy, `COLUMNS` flag (false for hash) and key columns of a partitioning clause.
pub open spec fn partition_clause_head(c: PartitionClause) -> (Strategy, bool, Seq<Seq<Seq<char>>>) {
    match c {
        PartitionClause::Range { columns, is_columns, .. } => (Strategy::Range, is_columns, names_view(columns@)),
        PartitionClause::List { columns, is_columns, .. } => (Strategy::List, is_columns, names_view(columns@)),
        PartitionClause::Hash { columns, .. } => (Strategy::Hash, false, names_view(columns@)),
    }
}

/// The partition definitions of a partitioning clause.
pub open spec fn partition_clause_defs(c: PartitionClause) -> Seq<PartitionDef> {
    match c {
        PartitionClause::Range { partitions, .. } => partitions@,
        PartitionClause::List { partitions, .. } => partitions@,
        PartitionClause::Hash { partitions, .. } => partitions@,
    }
}

/// The partition count of a partitioning clause (none for list partitioning).
pub open spec fn partition_clause_count(c: PartitionClause) -> Option<u32> {
    match c {
        PartitionClause::Range { partitions_count, .. } => partitions_count,
        PartitionClause::List { .. } => None,
        PartitionClause::Hash { partitions_count, .. } => partitions_count,
    }
}

/// Whether a partitioning clause has an `INTERVAL`.
pub open spec fn partition_clause_has_interval(c: PartitionClause) -> bool {
    match c {
        PartitionClause::Range { interval, .. } => interval is Some,
        _ => false,
    }
}

/// A `SUBPARTITION BY` clause as plain values: strategy, `COLUMNS` flag and columns,
/// whether it has an interval, its count, and its definitions.
pub struct SubView {
    pub head: (Strategy, bool, Seq<Seq<Seq<char>>>),
    pub interval: bool,
    pub count: Option<u32>,
    pub defs: Seq<PartitionDefView>,
}

/// The view of a subpartitioning clause.
pub open spec fn sub_view(c: PartitionClause) -> SubView {
    SubView {
        head: partition_clause_head(c),
        interval: partition_clause_has_interval(c),
        count: partition_clause_count(c),
        defs: partition_defs_view(partition_clause_defs(c)),
    }
}

/// The view of an optional subpartitioning clause.
pub open spec fn opt_sub_view(c: Option<PartitionClause>) -> Option<SubView> {
    match c {
        Some(x) => Some(sub_view(x)),
        None => None,
    }
}

/// `SUBPARTITION BY strategy (columns) [SUBPARTITIONS n] [(definitions)]` at `i`: the
/// clause and the count (read for hash subpartitioning only).
pub open spec fn subpartition_by_at(toks: Seq<Token>, i: int) -> Option<Outcome<(SubView, Option<u32>)>> {
    match partition_head_at(toks, i) {
        Err(e) => Some(Err(e)),
        Ok((h, m)) => {
            let cnt = if h.0 == Strategy::Hash { count_after_at(toks, m, Keyword::SUBPARTITIONS) } else { (None, m) };
            match subpartition_defs_at(toks, cnt.1) {
                None => None,
                Some(Err(e)) => Some(Err(e)),
                Some(Ok((defs, q))) => Some(Ok(((SubView {
                    head: h,
                    interval: false,
                    count: if h.0 == Strategy::Hash { cnt.0 } else { None },
                    defs,
                }, cnt.0), q))),
            }
        },
    }
}

/// A `PARTITION BY` clause as plain values: strategy, `COLUMNS` flag and columns; the
/// position of the single operand of `INTERVAL (...)`; the partition count; the
/// definitions.
pub struct PartitionByView {
    pub head: (Strategy, bool, Seq<Seq<Seq<char>>>),
    pub interval: Option<int>,
    pub count: Option<u32>,
    pub partitions: Seq<PartitionView>,
}

/// `PARTITION BY strategy (columns) [INTERVAL (e)] [PARTITIONS n] [(definitions)]` at
/// `i`; the interval is read for range partitioning only and the count is dropped for
/// list partitioning. `None` where an interval is more than a single operand, or a
/// definition is not stated by `partition_def_at`.
pub open spec fn partition_by_at(toks: Seq<Token>, i: int) -> Option<Outcome<PartitionByView>> {
    match partition_head_at(toks, i) {
        Err(e) => Some(Err(e)),
        Ok((h, m)) => {
            let iv: Option<(Option<int>, int)> = if h.0 == Strategy::Range && kw_at(toks, m, Keyword::INTERVAL) {
                if paren_leaf_at(toks, m + 1) { Some((Some(m + 2), paren_leaf_end(toks, m + 1))) } else { None }
            } else {
                Some((None, m))
            };
            match iv {
                None => None,
                Some((itv, m2)) => {
                    let cnt = count_after_at(toks, m2, Keyword::PARTITIONS);
                    match partition_defs_at(toks, cnt.1) {
                        None => None,
                        Some(Err(e)) => Some(Err(e)),
                        Some(Ok((ps, q))) => Some(Ok((PartitionByView {
                            head: h,
                            interval: itv,
                            count: if h.0 == Strategy::List { None } else { cnt.0 },
                            partitions: ps,
                        }, q))),
                    }
                },
            }
        },
    }
}

/// `c` is the partitioning clause that `v` describes.
pub open spec fn partition_by_matches(toks: Seq<Token>, c: PartitionClause, v: PartitionByView) -> bool {
    &&& partition_clause_head(c) == v.head
    &&& partition_clause_count(c) == v.count
    &&& match v.interval {
        None => !partition_clause_has_interval(c),
        Some(p) => c is Range && c->Range_interval is Some && leaf_value(toks, p, c->Range_interval->Some_0),
    }
    &&& partitions_match(toks, partition_clause_defs(c), v.partitions)
}

/// `LIKE` options: the option word after INCLUDING / EXCLUDING.
pub open spec fn like_option(k: Option<Keyword>) -> Option<Seq<char>> {
    match k {
        Some(Keyword::DEFAULTS) => Some("DEFAULTS"@),
        Some(Keyword::CONSTRAINTS) => Some("CONSTRAINTS"@),
        Some(Keyword::INDEXES) => Some("INDEXES"@),
        Some(Keyword::STORAGE) => Some("STORAGE"@),
        Some(Keyword::COMMENTS) => Some("COMMENTS"@),
        Some(Keyword::PARTITION) => Some("PARTITION"@),
        Some(Keyword::RELOPTIONS) => Some("RELOPTIONS"@),
        Some(Keyword::DISTRIBUTION) => Some("DISTRIBUTION"@),
        Some(Keyword::ALL) => Some("ALL"@),
        _ => None,
    }
}

/// The LIKE options from `i` on, after `acc`. An `INCLUDING`/`EXCLUDING` without a
/// known option ends the list (the word itself is consumed).
pub open spec fn like_options_from(toks: Seq<Token>, i: int, acc: Seq<(bool, Seq<char>)>) -> (Seq<(bool, Seq<char>)>, int)
    decreases toks.len() - i,
{
    if (kw_at(toks, i, Keyword::INCLUDING) || kw_at(toks, i, Keyword::EXCLUDING)) && i < toks.len() {
        match like_option(keyword_at(toks, i + 1)) {
            Some(o) => like_options_from(toks, i + 2, acc.push((kw_at(toks, i, Keyword::INCLUDING), o))),
            None => (acc, i + 1),
        }
    } else {
        (acc, i)
    }
}

proof fn lemma_like_options_bounds(toks: Seq<Token>, i: int, acc: Seq<(bool, Seq<char>)>)
    requires
        0 <= i <= toks.len(),
    ensures
        i <= like_options_from(toks, i, acc).1 <= toks.len(),
    decreases toks.len() - i,
{
    if (kw_at(toks, i, Keyword::INCLUDING) || kw_at(toks, i, Keyword::EXCLUDING)) && i < toks.len() {
        if like_option(keyword_at(toks, i + 1)) is Some {
            lemma_like_options_bounds(toks, i + 2, acc.push((kw_at(toks, i, Keyword::INCLUDING), like_option(keyword_at(toks, i + 1))->0)));
        }
    }
}

/// A LIKE clause at `i` (after `LIKE`): the source table and the options.
pub open spec fn like_clause_at(toks: Seq<Token>, i: int) -> Outcome<(Seq<Seq<char>>, Seq<(bool, Seq<char>)>)> {
    match object_name_at(toks, i) {
        Err(e) => Err(e),
        Ok((name, j)) => {
            let (opts, k) = like_options_from(toks, j, seq![]);
            Ok(((name, opts), k))
        },
    }
}

pub open spec fn like_view(c: LikeClause) -> (Seq<Seq<char>>, Seq<(bool, Seq<char>)>) {
    (strings_view(c.source_table@), c.options@.map_values(|o: (bool, String)| (o.0, o.1@)))
}

/// The constraint a column constraint keyword starts, if any.
pub open spec fn column_constraint_keyword(k: Option<Keyword>) -> bool {
    k == Some(Keyword::NOT) || k == Some(Keyword::NULL_P) || k == Some(Keyword::DEFAULT) || k == Some(Keyword::UNIQUE)
        || k == Some(Keyword::PRIMARY) || k == Some(Keyword::CHECK) || k == Some(Keyword::REFERENCES)
}

/// The shape of the constraint that keyword `k` starts.
pub open spec fn column_constraint_shape(k: Option<Keyword>, c: ColumnConstraint) -> bool {
    match k {
        Some(Keyword::NOT) => c is NotNull,
        Some(Keyword::NULL_P) => c is Null,
        Some(Keyword::DEFAULT) => c is Default,
        Some(Keyword::UNIQUE) => c is Unique,
        Some(Keyword::PRIMARY) => c is PrimaryKey,
        Some(Keyword::CHECK) => c is Check,
        Some(Keyword::REFERENCES) => c is References,
        _ => false,
    }
}

/// `GENERATED ...` at `i`: nothing (the forms that keep nothing, see `generated_skip_at`),
/// or the tree of the expression of `GENERATED ALWAYS AS (expr) [STORED]` and the flag.
pub open spec fn generated_at(toks: Seq<Token>, i: int) -> Option<Outcome<Option<(OpTree, bool)>>> {
    match generated_skip_at(toks, i) {
        Some(Ok((_, q))) => Some(Ok((None, q))),
        Some(Err(e)) => Some(Err(e)),
        None => match op_expr_at(toks, i + 4, 0) {
            None => None,
            Some((t, e)) => if tok_at(toks, e) is RParen {
                let stored = kw_at(toks, e + 1, Keyword::STORED);
                Some(Ok((Some((t, stored)), if stored { e + 2 } else { e + 1 })))
            } else {
                Some(Err((e, ")"@)))
            },
        },
    }
}

/// Where the storage attributes after `USING [INDEX]` at `j` end, each value an expression
/// of operands and infix operators; `None` for other values.
pub open spec fn using_attrs_from(toks: Seq<Token>, k: int) -> Option<int>
    decreases toks.len() - k,
{
    if !using_attribute_at(toks, k) {
        Some(k)
    } else {
        match op_expr_at(toks, k + 1, 0) {
            Some((_, q)) => if q <= k || q > toks.len() { None } else { using_attrs_from(toks, q) },
            None => None,
        }
    }
}

/// Where `USING [INDEX] attributes` at `j` ends (`j` itself where `USING` is absent).
pub open spec fn using_end_at(toks: Seq<Token>, j: int) -> Option<int> {
    if kw_at(toks, j, Keyword::USING) { using_attrs_from(toks, using_attributes_start(toks, j)) } else { Some(j) }
}

/// A column definition as plain values.
pub struct ColumnView {
    pub name: Seq<char>,
    pub ty: TypeView,
    pub mods: Option<Seq<OpTree>>,
    pub constraints: Seq<ColConstraintView>,
    pub compress: Option<Seq<char>>,
    pub charset: Option<Seq<char>>,
    pub collate: Option<Seq<char>>,
    pub on_update: Option<Seq<char>>,
    pub comment: Option<Seq<char>>,
    pub generated: Option<(OpTree, bool)>,
    pub encrypted: Option<(Seq<char>, Seq<char>)>,
}

/// An optional clause at `p` that `f` reads where `present` holds.
pub open spec fn opt_clause(present: bool, o: Outcome<Seq<char>>, p: int) -> Outcome<Option<Seq<char>>> {
    if present {
        match o {
            Ok((v, q)) => Ok((Some(v), q)),
            Err(e) => Err(e),
        }
    } else {
        Ok((None, p))
    }
}

/// What a column definition holds after its constraints: the character set and collation
/// (given early or late), `ON UPDATE`, the comment, the generation and the encryption.
pub struct ColumnTailView {
    pub charset: Option<Seq<char>>,
    pub collate: Option<Seq<char>>,
    pub on_update: Option<Seq<char>>,
    pub comment: Option<Seq<char>>,
    pub generated: Option<(OpTree, bool)>,
    pub encrypted: Option<(Seq<char>, Seq<char>)>,
}

/// `COMMENT 'text'` at `p`, if present.
pub open spec fn column_comment_at(toks: Seq<Token>, p: int) -> Outcome<Option<Seq<char>>> {
    if kw_at(toks, p, Keyword::COMMENT) {
        match tok_at(toks, p + 1) {
            Token::StringLiteral(c) => Ok((Some(c@), p + 2)),
            _ => Err((p + 1, "string literal"@)),
        }
    } else {
        Ok((None, p))
    }
}

/// The part of a column definition after its constraints, at `p4`, where `cs1` and `co1`
/// are the character set and collation given before the constraints: `[USING INDEX ...]
/// [CHARACTER SET cs] [COLLATE c] [ON UPDATE ...] [COMMENT 'text'] [GENERATED ...]
/// [ENCRYPTED WITH (...)]`, a late character set or collation read only where none came
/// early.
pub open spec fn column_tail_at(toks: Seq<Token>, cs1: Option<Seq<char>>, co1: Option<Seq<char>>, p4: int) -> Option<Outcome<ColumnTailView>> {
    match using_end_at(toks, p4) {
        None => None,
        Some(p5) => match opt_clause(cs1 is None && (kw_at(toks, p5, Keyword::CHARACTER) || kw_at(toks, p5, Keyword::CHARSET)),
            charset_clause_at(toks, p5), p5) {
            Err(e) => Some(Err(e)),
            Ok((cs2, p6)) => match opt_clause(co1 is None && kw_at(toks, p6, Keyword::COLLATE), collate_clause_at(toks, p6), p6) {
                Err(e) => Some(Err(e)),
                Ok((co2, p7)) => match on_update_at(toks, p7) {
                    Err(e) => Some(Err(e)),
                    Ok((ou, p8)) => match column_comment_at(toks, p8) {
                        Err(e) => Some(Err(e)),
                        Ok((comment, p9)) => match generated_at(toks, p9) {
                            None => None,
                            Some(Err(e)) => Some(Err(e)),
                            Some(Ok((g, p10))) => match encrypted_with_at(toks, p10) {
                                Err(e) => Some(Err(e)),
                                Ok((ew, p11)) => Some(Ok((ColumnTailView {
                                    charset: if cs1 is Some { cs1 } else { cs2 },
                                    collate: if co1 is Some { co1 } else { co2 },
                                    on_update: ou,
                                    comment,
                                    generated: g,
                                    encrypted: ew,
                                }, p11))),
                            },
                        },
                    },
                },
            },
        },
    }
}

/// `g` is the generation that `v` describes.
pub open spec fn generated_matches(toks: Seq<Token>, g: Option<GeneratedColumn>, v: Option<(OpTree, bool)>) -> bool {
    match v {
        None => g is None,
        Some((t, stored)) => g is Some && tree_matches(toks, g->Some_0.expr, t) && g->Some_0.stored == stored,
    }
}

/// The part of a column definition after its name and type, at `p0`, for the name `n`,
/// the type `tv` and the modifier expressions `mods` of a named type.
pub open spec fn column_rest_at(toks: Seq<Token>, n: Seq<char>, tv: TypeView, mods: Option<Seq<OpTree>>, p0: int) -> Option<Outcome<ColumnView>> {
    let cm = compress_mode_at(toks, p0);
    let p1 = if cm is Some { p0 + 1 } else { p0 };
    match opt_clause(kw_at(toks, p1, Keyword::CHARACTER) || kw_at(toks, p1, Keyword::CHARSET), charset_clause_at(toks, p1), p1) {
        Err(e) => Some(Err(e)),
        Ok((cs1, p2)) => match opt_clause(kw_at(toks, p2, Keyword::COLLATE), collate_clause_at(toks, p2), p2) {
            Err(e) => Some(Err(e)),
            Ok((co1, p3)) => match col_constraints_from(toks, p3, Seq::empty()) {
                None => None,
                Some(Err(e)) => Some(Err(e)),
                Some(Ok((vs, p4))) => match column_tail_at(toks, cs1, co1, p4) {
                    None => None,
                    Some(Err(e)) => Some(Err(e)),
                    Some(Ok((t, q))) => Some(Ok((ColumnView {
                        name: n,
                        ty: tv,
                        mods,
                        constraints: vs,
                        compress: cm,
                        charset: t.charset,
                        collate: t.collate,
                        on_update: t.on_update,
                        comment: t.comment,
                        generated: t.generated,
                        encrypted: t.encrypted,
                    }, q))),
                },
            },
        },
    }
}

/// A column definition at `i`: `name type [compression] [CHARACTER SET cs] [COLLATE c]
/// constraints [USING INDEX ...] [CHARACTER SET cs] [COLLATE c] [ON UPDATE ...]
/// [COMMENT 'text'] [GENERATED ...] [ENCRYPTED WITH (...)]`. `None` where its type,
/// constraints or expressions are not stated by their spec functions.
pub open spec fn column_def_at(toks: Seq<Token>, i: int) -> Option<Outcome<ColumnView>> {
    match ident_text(tok_at(toks, i)) {
        None => Some(Err((i, "identifier"@))),
        Some(n) => match data_type_at(toks, i + 1) {
            None => None,
            Some(Err(e)) => Some(Err(e)),
            Some(Ok((tv, p0))) => column_rest_at(toks, n, tv, named_type_mods_at(toks, i + 1), p0),
        },
    }
}

/// `c` is the column definition that `v` describes.
pub open spec fn column_matches(toks: Seq<Token>, c: ColumnDef, v: ColumnView) -> bool {
    &&& c.name@ == v.name
    &&& type_view(c.data_type) == v.ty
    &&& v.mods matches Some(ts) ==> custom_mods_match(toks, c.data_type, ts)
    &&& col_constraints_match(toks, c.constraints@, v.constraints)
    &&& opt_text(c.compress_mode) == v.compress
    &&& opt_text(c.charset) == v.charset
    &&& opt_text(c.collate) == v.collate
    &&& opt_text(c.on_update) == v.on_update
    &&& opt_text(c.comment) == v.comment
    &&& generated_matches(toks, c.generated, v.generated)
    &&& encrypted_view(c.encrypted_with) == v.encrypted
}

/// The column definitions `column, ... )` from `j` on, after `acc`; `None` where one of
/// them is not stated by `column_def_at`.
pub open spec fn column_list_from(toks: Seq<Token>, j: int, acc: Seq<ColumnView>) -> Option<Outcome<Seq<ColumnView>>>
    decreases toks.len() - j,
{
    match column_def_at(toks, j) {
        None => None,
        Some(Err(e)) => Some(Err(e)),
        Some(Ok((v, q))) => if q <= j || q >= toks.len() {
            None
        } else if tok_at(toks, q) is Comma {
            column_list_from(toks, q + 1, acc.push(v))
        } else if tok_at(toks, q) is RParen {
            Some(Ok((acc.push(v), q + 1)))
        } else {
            Some(Err((q, ")"@)))
        },
    }
}

/// Each column of `cols` is the one that `vs` describes at its place.
pub open spec fn columns_match(toks: Seq<Token>, cols: Seq<ColumnDef>, vs: Seq<ColumnView>) -> bool {
    cols.len() == vs.len() && forall|k: int| 0 <= k < cols.len() ==> column_matches(toks, cols[k], vs[k])
}

/// A column constraint as plain values; a `DEFAULT` or `CHECK` expression is given by
/// its tree (see `op_expr_at`).
pub enum ColConstraintView {
    NotNull,
    Null,
    Default(OpTree),
    Unique,
    PrimaryKey,
    Check(OpTree),
    References(Seq<Seq<char>>, Seq<Seq<char>>),
}

/// Where an optional `ENABLE` or `DISABLE` at `j` ends.
pub open spec fn enable_disable_end(toks: Seq<Token>, j: int) -> int {
    if kw_at(toks, j, Keyword::ENABLE_P) || kw_at(toks, j, Keyword::DISABLE_P) { j + 1 } else { j }
}

/// Where an optional `DEFERRABLE` at `j` ends.
pub open spec fn deferrable_end(toks: Seq<Token>, j: int) -> int {
    if kw_at(toks, j, Keyword::DEFERRABLE) { j + 1 } else { j }
}

/// Where the index options after `UNIQUE` or `PRIMARY KEY` of a column, from `j`, end.
pub open spec fn key_options_end(toks: Seq<Token>, j: int) -> int {
    with_options_end(toks, deferrable_end(toks, using_index_tablespace_end(toks, j)))
}

/// The constraint body at `i` (before an optional `ENABLE`/`DISABLE`); `None` where a
/// `DEFAULT` or `CHECK` expression is not stated by `op_expr_at`, or no constraint starts.
pub open spec fn col_constraint_body_at(toks: Seq<Token>, i: int) -> Option<Outcome<ColConstraintView>> {
    match keyword_at(toks, i) {
        Some(Keyword::NOT) => Some(if kw_at(toks, i + 1, Keyword::NULL_P) {
            Ok((ColConstraintView::NotNull, i + 2))
        } else {
            Err((i + 1, keyword_text(Keyword::NULL_P)))
        }),
        Some(Keyword::NULL_P) => Some(Ok((ColConstraintView::Null, i + 1))),
        Some(Keyword::DEFAULT) => match op_expr_at(toks, i + 1, 0) {
            Some((t, e)) => Some(Ok((ColConstraintView::Default(t), e))),
            None => None,
        },
        Some(Keyword::UNIQUE) => Some(Ok((ColConstraintView::Unique, key_options_end(toks, i + 1)))),
        Some(Keyword::PRIMARY) => Some(if kw_at(toks, i + 1, Keyword::KEY) {
            Ok((ColConstraintView::PrimaryKey, key_options_end(toks, i + 2)))
        } else {
            Err((i + 1, keyword_text(Keyword::KEY)))
        }),
        Some(Keyword::CHECK) => if !(tok_at(toks, i + 1) is LParen) {
            Some(Err((i + 1, "("@)))
        } else {
            match op_expr_at(toks, i + 2, 0) {
                Some((t, e)) => Some(if tok_at(toks, e) is RParen { Ok((ColConstraintView::Check(t), e + 1)) } else { Err((e, ")"@)) }),
                None => None,
            }
        },
        Some(Keyword::REFERENCES) => Some(match object_name_at(toks, i + 1) {
            Err(e) => Err(e),
            Ok((t, j)) => if tok_at(toks, j) is LParen {
                match ident_list_at(toks, j + 1) {
                    Err(e) => Err(e),
                    Ok((cols, k)) => if tok_at(toks, k) is RParen {
                        Ok((ColConstraintView::References(t, cols), k + 1))
                    } else {
                        Err((k, ")"@))
                    },
                }
            } else {
                Ok((ColConstraintView::References(t, Seq::empty()), j))
            },
        }),
        _ => None,
    }
}

/// The constraint at `i` with an optional `ENABLE`/`DISABLE` after it.
pub open spec fn col_constraint_at(toks: Seq<Token>, i: int) -> Option<Outcome<ColConstraintView>> {
    match col_constraint_body_at(toks, i) {
        Some(Ok((v, j))) => Some(Ok((v, enable_disable_end(toks, j)))),
        other => other,
    }
}

/// `c` is the constraint that `v` describes.
pub open spec fn col_constraint_matches(toks: Seq<Token>, c: ColumnConstraint, v: ColConstraintView) -> bool {
    match v {
        ColConstraintView::NotNull => c is NotNull,
        ColConstraintView::Null => c is Null,
        ColConstraintView::Default(t) => c is Default && tree_matches(toks, c->Default_0, t),
        ColConstraintView::Unique => c is Unique,
        ColConstraintView::PrimaryKey => c is PrimaryKey,
        ColConstraintView::Check(t) => c is Check && tree_matches(toks, c->Check_0, t),
        ColConstraintView::References(t, cols) => c is References && strings_view(c->References_0@) == t
            && strings_view(c->References_1@) == cols,
    }
}

/// Each constraint of `cs` is the one that `vs` describes at its place.
pub open spec fn col_constraints_match(toks: Seq<Token>, cs: Seq<ColumnConstraint>, vs: Seq<ColConstraintView>) -> bool {
    cs.len() == vs.len() && forall|k: int| 0 <= k < cs.len() ==> col_constraint_matches(toks, cs[k], vs[k])
}

/// The column constraints from `i` on, after `acc`: they stop at the first token that
/// starts none. `None` where one of them is not stated by `col_constraint_at`.
pub open spec fn col_constraints_from(toks: Seq<Token>, i: int, acc: Seq<ColConstraintView>) -> Option<Outcome<Seq<ColConstraintView>>>
    decreases toks.len() - i,
{
    if !column_constraint_keyword(keyword_at(toks, i)) {
        Some(Ok((acc, i)))
    } else {
        match col_constraint_at(toks, i) {
            None => None,
            Some(Err(e)) => Some(Err(e)),
            Some(Ok((v, j))) => if j <= i || j > toks.len() {
                None
            } else {
                col_constraints_from(toks, j, acc.push(v))
            },
        }
    }
}

impl Parser {
    /// Skips `USING [INDEX] [TABLESPACE name]`.
    pub fn consume_opt_using_index_tablespace(&mut self)
        requires
            old(self).wf(),
        ensures
            final(self).wf(),
            old(self).moved_to(&*final(self), using_index_tablespace_end(old(self).toks(), old(self).position())),
    {
        if self.match_keyword(Keyword::USING) {
            self.advance();
            if self.match_keyword(Keyword::INDEX) {
                self.advance();
            }
            if self.match_keyword(Keyword::TABLESPACE) {
                self.advance();
                let _ = self.parse_identifier();
            }
        }
    }

    /// Skips `USING [INDEX]` followed by storage attributes, each with a value
    /// expression (a value that does not parse is passed over as far as it read).
    pub fn consume_opt_using_index_attrs(&mut self)
        requires
            old(self).wf(),
        ensures
            old(self).steps(&*final(self)),
            !kw_at(old(self).toks(), old(self).position(), Keyword::USING) ==> old(self).moved_to(&*final(self), old(self).position()),
            kw_at(old(self).toks(), old(self).position(), Keyword::USING) ==> {
                let j = using_attributes_start(old(self).toks(), old(self).position());
                &&& j <= final(self).position()
                &&& !using_attribute_at(old(self).toks(), final(self).position())
                &&& !using_attribute_at(old(self).toks(), j) ==> old(self).moved_to(&*final(self), j)
            },
            match using_end_at(old(self).toks(), old(self).position()) {
                Some(q) => old(self).moved_to(&*final(self), q),
                None => true,
            },
    {
        if !self.match_keyword(Keyword::USING) {
            return;
        }
        self.advance();
        if self.match_keyword(Keyword::INDEX) {
            self.advance();
        }
        let ghost j = self.position();
        loop
            invariant
                old(self).steps(&*self),
                j == using_attributes_start(old(self).toks(), old(self).position()),
                j <= self.position(),
                !using_attribute_at(old(self).toks(), j) ==> old(self).moved_to(&*self, j),
                using_attrs_from(old(self).toks(), j) is Some ==> using_attrs_from(old(self).toks(), self.position())
                    == using_attrs_from(old(self).toks(), j) && old(self).moved_to(&*self, self.position()),
            ensures
                old(self).steps(&*self),
                j <= self.position(),
                !using_attribute_at(old(self).toks(), j) ==> old(self).moved_to(&*self, j),
                !using_attribute_at(old(self).toks(), self.position()),
                using_attrs_from(old(self).toks(), j) is Some ==> using_attrs_from(old(self).toks(), j) == Some(self.position())
                    && old(self).moved_to(&*self, self.position()),
            decreases self.toks().len() - self.position(),
        {
            let k = self.peek_keyword();
            let attribute = match k {
                Some(kw) => kw == Keyword::PCTFREE || kw == Keyword::INITRANS || kw == Keyword::MAXTRANS
                    || kw == Keyword::STORAGE || kw == Keyword::TABLESPACE,
                None => false,
            };
            if !attribute {
                break;
            }
            self.advance();
            let _ = self.parse_expr();
        }
    }

    /// Skips `WITH ( ... )` storage options.
    pub fn skip_with_options(&mut self)
        requires
            old(self).wf(),
        ensures
            final(self).wf(),
            old(self).moved_to(&*final(self), with_options_end(old(self).toks(), old(self).position())),
            old(self).position() <= final(self).position(),
    {
        if !self.match_keyword(Keyword::WITH) {
            return;
        }
        self.advance();
        if !self.match_token(&Token::LParen) {
            return;
        }
        self.advance();
        proof {
            lemma_close_parens_bounds(self.toks(), self.position(), 1);
        }
        let mut depth: usize = 1;
        while depth > 0 && self.pos() < self.toks_len()
            invariant
                self.wf(),
                old(self).moved_to(&*self, self.position()),
                depth <= self.position(),
                close_parens_from(self.toks(), self.position(), depth as nat)
                    == with_options_end(old(self).toks(), old(self).position()),
            decreases self.toks().len() - self.position(),
        {
            let step: usize = match self.peek() {
                Token::LParen => 1,
                Token::RParen => 2,
                _ => 0,
            };
            if step == 1 {
                depth = depth + 1;
            } else if step == 2 {
                depth = depth - 1;
            }
            self.advance();
        }
    }

    /// Any identifier-like word (a keyword reads as its spelling).
    pub fn consume_any_identifier(&mut self) -> (r: Result<String, ParserError>)
        requires
            old(self).wf(),
        ensures
            final(self).wf(),
            agrees(&*old(self), &*final(self), r, any_identifier_at(old(self).toks(), old(self).position()), |s: String| s@),
    {
        let text: Option<String> = match self.peek() {
            Token::Ident(s) => Some(s.clone()),
            Token::QuotedIdent(s) => Some(s.clone()),
            Token::Keyword(k) => Some(String::from_str(k.as_str())),
            _ => None,
        };
        match text {
            Some(s) => {
                self.advance();
                Ok(s)
            },
            None => Err(self.unexpected("identifier")),
        }
    }

    /// A column constraint, if the cursor is at one: `NOT NULL`, `NULL`, `DEFAULT expr`,
    /// `UNIQUE ...`, `PRIMARY KEY ...`, `CHECK (expr)`, `REFERENCES table [(cols)]`; an
    /// `ENABLE`/`DISABLE` after it is passed over.
    pub fn try_parse_column_constraint(&mut self) -> (r: Result<Option<ColumnConstraint>, ParserError>)
        requires
            old(self).wf(),
        ensures
            old(self).steps(&*final(self)),
            !column_constraint_keyword(keyword_at(old(self).toks(), old(self).position())) ==> (r matches Ok(None)
                && old(self).moved_to(&*final(self), old(self).position())),
            column_constraint_keyword(keyword_at(old(self).toks(), old(self).position())) && r is Ok ==> (r->Ok_0 matches Some(c)
                && column_constraint_shape(keyword_at(old(self).toks(), old(self).position()), c)
                && final(self).position() > old(self).position()),
            match col_constraint_at(old(self).toks(), old(self).position()) {
                Some(Ok((v, q))) => r is Ok && r->Ok_0 is Some && col_constraint_matches(old(self).toks(), r->Ok_0->Some_0, v)
                    && old(self).moved_to(&*final(self), q),
                Some(Err((q, e))) => r is Err && old(self).moved_to(&*final(self), q) && old(self).reports(r->Err_0, q, e),
                None => true,
            },
    {
        let result: Option<ColumnConstraint> = match self.peek_keyword() {
            Some(Keyword::NOT) => {
                self.advance();
                match self.expect_keyword(Keyword::NULL_P) {
                    Ok(()) => Some(ColumnConstraint::NotNull),
                    Err(e) => return Err(e),
                }
            },
            Some(Keyword::NULL_P) => {
                self.advance();
                Some(ColumnConstraint::Null)
            },
            Some(Keyword::DEFAULT) => {
                self.advance();
                match self.parse_expr() {
                    Ok(e) => Some(ColumnConstraint::Default(e)),
                    Err(e) => return Err(e),
                }
            },
            Some(Keyword::UNIQUE) => {
                self.advance();
                self.consume_opt_using_index_tablespace();
                let _ = self.try_consume_keyword(Keyword::DEFERRABLE);
                self.skip_with_options();
                Some(ColumnConstraint::Unique)
            },
            Some(Keyword::PRIMARY) => {
                self.advance();
                match self.expect_keyword(Keyword::KEY) {
                    Ok(()) => {},
                    Err(e) => return Err(e),
                }
                self.consume_opt_using_index_tablespace();
                let _ = self.try_consume_keyword(Keyword::DEFERRABLE);
                self.skip_with_options();
                Some(ColumnConstraint::PrimaryKey)
            },
            Some(Keyword::CHECK) => {
                self.advance();
                match self.expect_token(&Token::LParen, "(") {
                    Ok(()) => {},
                    Err(e) => return Err(e),
                }
                let expr = match self.parse_expr() {
                    Ok(e) => e,
                    Err(e) => return Err(e),
                };
                match self.expect_token(&Token::RParen, ")") {
                    Ok(()) => Some(ColumnConstraint::Check(expr)),
                    Err(e) => return Err(e),
                }
            },
            Some(Keyword::REFERENCES) => {
                self.advance();
                proof { lemma_object_name_bounds(self.toks(), self.position()); }
                let table = match self.parse_object_name() {
                    Ok(t) => t,
                    Err(e) => return Err(e),
                };
                let columns: Vec<String> = if self.match_token(&Token::LParen) {
                    self.advance();
                    let cols = match self.parse_identifier_list() {
                        Ok(cols) => cols,
                        Err(e) => return Err(e),
                    };
                    match self.expect_token(&Token::RParen, ")") {
                        Ok(()) => cols,
                        Err(e) => return Err(e),
                    }
                } else {
                    let empty: Vec<String> = Vec::new();
                    proof {
                        assert(strings_view(empty@) =~= Seq::<Seq<char>>::empty());
                    }
                    empty
                };
                Some(ColumnConstraint::References(table, columns))
            },
            _ => None,
        };
        if result.is_some() {
            self.consume_opt_enable_disable();
        }
        Ok(result)
    }
}

// ────────────────────────────────────────────────────────────────
// Table constraints, LIKE, column definitions
// ────────────────────────────────────────────────────────────────

/// Where a table constraint's keyword is, after an optional `CONSTRAINT name` at `i`
/// (the name is read only when a constraint keyword does not follow at once).
pub open spec fn constraint_start(toks: Seq<Token>, i: int) -> Outcome<()> {
    if kw_at(toks, i, Keyword::CONSTRAINT) {
        if kw_at(toks, i + 1, Keyword::PRIMARY) || kw_at(toks, i + 1, Keyword::UNIQUE) || kw_at(toks, i + 1, Keyword::CHECK)
            || kw_at(toks, i + 1, Keyword::FOREIGN) {
            Ok(((), i + 1))
        } else if ident_text(tok_at(toks, i + 1)) is Some {
            Ok(((), i + 2))
        } else {
            Err((i + 1, "identifier"@))
        }
    } else {
        Ok(((), i))
    }
}

/// The keywords that start a table constraint.
pub open spec fn is_table_constraint_keyword(k: Option<Keyword>) -> bool {
    k == Some(Keyword::PRIMARY) || k == Some(Keyword::UNIQUE) || k == Some(Keyword::CHECK) || k == Some(Keyword::FOREIGN)
}

/// The shape of the table constraint that keyword `k` starts.
pub open spec fn table_constraint_shape(k: Option<Keyword>, c: TableConstraint) -> bool {
    match k {
        Some(Keyword::PRIMARY) => c is PrimaryKey,
        Some(Keyword::UNIQUE) => c is Unique,
        Some(Keyword::CHECK) => c is Check,
        Some(Keyword::FOREIGN) => c is ForeignKey,
        _ => false,
    }
}

/// A table constraint as plain values; a `CHECK` expression is given by its tree (see
/// `op_expr_at`).
pub enum TableConstraintView {
    PrimaryKey(Seq<Seq<char>>),
    Unique(Seq<Seq<char>>),
    Check(OpTree),
    ForeignKey(Seq<Seq<char>>, Seq<Seq<char>>, Seq<Seq<char>>),
}

/// Where the column list of `PRIMARY KEY [USING method] (...)` starts, `USING` possibly at `k`.
pub open spec fn key_using_end(toks: Seq<Token>, k: int) -> int {
    if kw_at(toks, k, Keyword::USING) {
        if ident_text(tok_at(toks, k + 1)) is Some { k + 2 } else { k + 1 }
    } else {
        k
    }
}

/// The table constraint at `i`; `None` where a `CHECK` expression is not stated by
/// `op_expr_at`.
pub open spec fn table_constraint_at(toks: Seq<Token>, i: int) -> Option<Outcome<TableConstraintView>> {
    match constraint_start(toks, i) {
        Err(e) => Some(Err(e)),
        Ok((_, j)) => match keyword_at(toks, j) {
            Some(Keyword::PRIMARY) => Some(if !kw_at(toks, j + 1, Keyword::KEY) {
                Err((j + 1, keyword_text(Keyword::KEY)))
            } else {
                match column_list_at(toks, key_using_end(toks, j + 2)) {
                    Err(e) => Err(e),
                    Ok((cols, q)) => Ok((TableConstraintView::PrimaryKey(cols), q)),
                }
            }),
            Some(Keyword::UNIQUE) => Some(match column_list_at(toks, j + 1) {
                Err(e) => Err(e),
                Ok((cols, q)) => Ok((TableConstraintView::Unique(cols), with_options_end(toks, deferrable_end(toks, q)))),
            }),
            Some(Keyword::CHECK) => if !(tok_at(toks, j + 1) is LParen) {
                Some(Err((j + 1, "("@)))
            } else {
                match op_expr_at(toks, j + 2, 0) {
                    Some((t, e)) => Some(if tok_at(toks, e) is RParen {
                        Ok((TableConstraintView::Check(t), e + 1))
                    } else {
                        Err((e, ")"@))
                    }),
                    None => None,
                }
            },
            Some(Keyword::FOREIGN) => Some(if !kw_at(toks, j + 1, Keyword::KEY) {
                Err((j + 1, keyword_text(Keyword::KEY)))
            } else {
                match column_list_at(toks, j + 2) {
                    Err(e) => Err(e),
                    Ok((cols, k)) => if !kw_at(toks, k, Keyword::REFERENCES) {
                        Err((k, keyword_text(Keyword::REFERENCES)))
                    } else {
                        match object_name_at(toks, k + 1) {
                            Err(e) => Err(e),
                            Ok((t, m)) => match column_list_at(toks, m) {
                                Err(e) => Err(e),
                                Ok((refs, q)) => Ok((TableConstraintView::ForeignKey(cols, t, refs), q)),
                            },
                        }
                    }
                }
            }),
            _ => Some(Err((j, "table constraint"@))),
        },
    }
}

/// `c` is the table constraint that `v` describes.
pub open spec fn table_constraint_matches(toks: Seq<Token>, c: TableConstraint, v: TableConstraintView) -> bool {
    match v {
        TableConstraintView::PrimaryKey(cols) => c is PrimaryKey && strings_view(c->PrimaryKey_0@) == cols,
        TableConstraintView::Unique(cols) => c is Unique && strings_view(c->Unique_0@) == cols,
        TableConstraintView::Check(t) => c is Check && tree_matches(toks, c->Check_0, t),
        TableConstraintView::ForeignKey(cols, t, refs) => c is ForeignKey && strings_view(c->ForeignKey_columns@) == cols
            && strings_view(c->ForeignKey_ref_table@) == t && strings_view(c->ForeignKey_ref_columns@) == refs,
    }
}

impl Parser {
    /// A table constraint: `[CONSTRAINT name] PRIMARY KEY [USING method] (cols) |
    /// UNIQUE (cols) [DEFERRABLE] [WITH (...)] | CHECK (expr) |
    /// FOREIGN KEY (cols) REFERENCES table (cols)`. The constraint name is not kept.
    #[verifier::rlimit(80)]
    #[verifier::spinoff_prover]
    pub fn parse_table_constraint(&mut self) -> (r: Result<TableConstraint, ParserError>)
        requires
            old(self).wf(),
        ensures
            old(self).steps(&*final(self)),
            match constraint_start(old(self).toks(), old(self).position()) {
                Err((p, e)) => r is Err && old(self).moved_to(&*final(self), p) && old(self).reports(r->Err_0, p, e),
                Ok((_, j)) => if is_table_constraint_keyword(keyword_at(old(self).toks(), j)) {
                    r is Ok ==> table_constraint_shape(keyword_at(old(self).toks(), j), r->Ok_0) && final(self).position() > j
                } else {
                    r is Err && old(self).moved_to(&*final(self), j) && old(self).reports(r->Err_0, j, "table constraint"@)
                },
            },            match table_constraint_at(old(self).toks(), old(self).position()) {
                Some(Ok((v, q))) => r is Ok && table_constraint_matches(old(self).toks(), r->Ok_0, v)
                    && old(self).moved_to(&*final(self), q),
                Some(Err((q, e))) => r is Err && old(self).moved_to(&*final(self), q) && old(self).reports(r->Err_0, q, e),
                None => true,
            },
    {
        if self.match_keyword(Keyword::CONSTRAINT) {
            self.advance();
            if !self.match_keyword(Keyword::PRIMARY) && !self.match_keyword(Keyword::UNIQUE)
                && !self.match_keyword(Keyword::CHECK) && !self.match_keyword(Keyword::FOREIGN) {
                match self.parse_identifier() {
                    Ok(_) => {},
                    Err(e) => return Err(e),
                }
            }
        }
        match self.peek_keyword() {
            Some(Keyword::PRIMARY) => {
                self.advance();
                match self.expect_keyword(Keyword::KEY) {
                    Ok(()) => {},
                    Err(e) => return Err(e),
                }
                if self.try_consume_keyword(Keyword::USING) {
                    let _ = self.parse_identifier();
                }
                match self.parse_column_list() {
                    Ok(cols) => Ok(TableConstraint::PrimaryKey(cols)),
                    Err(e) => Err(e),
                }
            },
            Some(Keyword::UNIQUE) => {
                self.advance();
                let cols = match self.parse_column_list() {
                    Ok(cols) => cols,
                    Err(e) => return Err(e),
                };
                let _ = self.try_consume_keyword(Keyword::DEFERRABLE);
                self.skip_with_options();
                Ok(TableConstraint::Unique(cols))
            },
            Some(Keyword::CHECK) => {
                self.advance();
                match self.expect_token(&Token::LParen, "(") {
                    Ok(()) => {},
                    Err(e) => return Err(e),
                }
                let expr = match self.parse_expr() {
                    Ok(e) => e,
                    Err(e) => return Err(e),
                };
                match self.expect_token(&Token::RParen, ")") {
                    Ok(()) => Ok(TableConstraint::Check(expr)),
                    Err(e) => Err(e),
                }
            },
            Some(Keyword::FOREIGN) => {
                self.advance();
                match self.expect_keyword(Keyword::KEY) {
                    Ok(()) => {},
                    Err(e) => return Err(e),
                }
                let columns = match self.parse_column_list() {
                    Ok(cols) => cols,
                    Err(e) => return Err(e),
                };
                match self.expect_keyword(Keyword::REFERENCES) {
                    Ok(()) => {},
                    Err(e) => return Err(e),
                }
                proof { lemma_object_name_bounds(self.toks(), self.position()); }
                let ref_table = match self.parse_object_name() {
                    Ok(t) => t,
                    Err(e) => return Err(e),
                };
                match self.parse_column_list() {
                    Ok(ref_columns) => Ok(TableConstraint::ForeignKey { columns, ref_table, ref_columns }),
                    Err(e) => Err(e),
                }
            },
            _ => Err(self.unexpected("table constraint")),
        }
    }

    /// The rest of a `LIKE` clause: the source table and `INCLUDING`/`EXCLUDING` options.
    pub fn parse_like_clause(&mut self) -> (r: Result<LikeClause, ParserError>)
        requires
            old(self).wf(),
        ensures
            final(self).wf(),
            old(self).position() <= final(self).position(),
            r is Ok ==> old(self).position() < final(self).position(),
            agrees(&*old(self), &*final(self), r, like_clause_at(old(self).toks(), old(self).position()),
                |c: LikeClause| like_view(c)),
    {
        proof { lemma_object_name_bounds(self.toks(), self.position()); }
        let source_table = match self.parse_object_name() {
            Ok(n) => n,
            Err(e) => return Err(e),
        };
        let mut options: Vec<(bool, String)> = Vec::new();
        let ghost start = self.position();
        proof { lemma_like_options_bounds(self.toks(), start, seq![]); }
        assert(options@.map_values(|o: (bool, String)| (o.0, o.1@)) =~= Seq::<(bool, Seq<char>)>::empty());
        loop
            invariant_except_break
                like_options_from(self.toks(), start, seq![])
                    == like_options_from(self.toks(), self.position(), options@.map_values(|o: (bool, String)| (o.0, o.1@))),
            invariant
                self.wf(),
                old(self).moved_to(&*self, self.position()),
            ensures
                like_options_from(self.toks(), start, seq![])
                    == (options@.map_values(|o: (bool, String)| (o.0, o.1@)), self.position()),
            decreases self.toks().len() - self.position(),
        {
            let is_including = if self.match_keyword(Keyword::INCLUDING) {
                true
            } else if self.match_keyword(Keyword::EXCLUDING) {
                false
            } else {
                break;
            };
            self.advance();
            let option_name: &str = match self.peek_keyword() {
                Some(Keyword::DEFAULTS) => "DEFAULTS",
                Some(Keyword::CONSTRAINTS) => "CONSTRAINTS",
                Some(Keyword::INDEXES) => "INDEXES",
                Some(Keyword::STORAGE) => "STORAGE",
                Some(Keyword::COMMENTS) => "COMMENTS",
                Some(Keyword::PARTITION) => "PARTITION",
                Some(Keyword::RELOPTIONS) => "RELOPTIONS",
                Some(Keyword::DISTRIBUTION) => "DISTRIBUTION",
                Some(Keyword::ALL) => "ALL",
                _ => break,
            };
            self.advance();
            let ghost before = options@.map_values(|o: (bool, String)| (o.0, o.1@));
            options.push((is_including, String::from_str(option_name)));
            assert(options@.map_values(|o: (bool, String)| (o.0, o.1@)) =~= before.push((is_including, option_name@)));
        }
        Ok(LikeClause { source_table, options })
    }

    /// `CHARACTER SET [=] name` or `CHARSET [=] name`, at the cursor.
    fn parse_charset_clause(&mut self) -> (r: Result<String, ParserError>)
        requires
            old(self).wf(),
        ensures
            old(self).steps(&*final(self)),
            r is Ok ==> final(self).position() > old(self).position(),
            agrees(&*old(self), &*final(self), r, charset_clause_at(old(self).toks(), old(self).position()), |v: String| v@),
    {
        let is_charset_keyword = self.match_keyword(Keyword::CHARSET);
        self.advance();
        if !is_charset_keyword && self.match_keyword(Keyword::SET) {
            self.advance();
        }
        if self.match_token(&Token::Eq) {
            self.advance();
        }
        self.parse_identifier()
    }

    /// `COLLATE [=] name`, at the cursor.
    fn parse_collate_clause(&mut self) -> (r: Result<String, ParserError>)
        requires
            old(self).wf(),
        ensures
            old(self).steps(&*final(self)),
            r is Ok ==> final(self).position() > old(self).position(),
            agrees(&*old(self), &*final(self), r, collate_clause_at(old(self).toks(), old(self).position()), |v: String| v@),
    {
        self.advance();
        if self.match_token(&Token::Eq) {
            self.advance();
        }
        self.parse_identifier()
    }

    /// Skips a parenthesized list that is not kept, up to its `)` (not nested).
    pub(crate) fn skip_to_close_paren(&mut self)
        requires
            old(self).wf(),
        ensures
            old(self).steps(&*final(self)),
            old(self).warnings() == final(self).warnings(),
            old(self).moved_to(&*final(self), close_paren_skip_end(old(self).toks(), old(self).position())),
    {
        if self.match_token(&Token::LParen) {
            self.advance();
            let ghost start = self.position();
            loop
                invariant
                    old(self).steps(&*self),
                    old(self).warnings() == self.warnings(),
                    old(self).moved_to(&*self, self.position()),
                    start == old(self).position() + 1,
                    start <= self.position(),
                    first_close_or_end(self.toks(), self.position()) == first_close_or_end(self.toks(), start),
                ensures
                    self.position() == first_close_or_end(self.toks(), start),
                decreases self.toks().len() - self.position(),
            {
                let stop = match self.peek() {
                    Token::RParen | Token::Eof => true,
                    _ => false,
                };
                if stop {
                    break;
                }
                self.advance();
            }
            if self.match_token(&Token::RParen) {
                self.advance();
            }
        }
    }

    /// `DELTA`, `PREFIX`, `DICTIONARY` or `NUMSTR` (as identifiers, any case), if present.
    fn parse_compress_mode(&mut self) -> (r: Option<String>)
        requires
            old(self).wf(),
        ensures
            final(self).wf(),
            old(self).moved_to(&*final(self), if r is Some { old(self).position() + 1 } else { old(self).position() }),
            opt_text(r) == compress_mode_at(old(self).toks(), old(self).position()),
    {
        let mode: Option<String> = if self.match_ident_str("DELTA") {
            Some(String::from_str("DELTA"))
        } else if self.match_ident_str("PREFIX") {
            Some(String::from_str("PREFIX"))
        } else if self.match_ident_str("DICTIONARY") {
            Some(String::from_str("DICTIONARY"))
        } else if self.match_ident_str("NUMSTR") {
            Some(String::from_str("NUMSTR"))
        } else {
            None
        };
        if mode.is_some() {
            self.advance();
        }
        mode
    }

    /// Column constraints, as many as follow.
    fn parse_column_constraints(&mut self) -> (r: Result<Vec<ColumnConstraint>, ParserError>)
        requires
            old(self).wf(),
        ensures
            old(self).steps(&*final(self)),
            !column_constraint_keyword(keyword_at(old(self).toks(), old(self).position())) ==> r is Ok
                && r->Ok_0@.len() == 0 && old(self).moved_to(&*final(self), old(self).position()),
            r is Ok ==> !column_constraint_keyword(keyword_at(old(self).toks(), final(self).position()))
                && (r->Ok_0@.len() == 0) == (final(self).position() == old(self).position()),
            match col_constraints_from(old(self).toks(), old(self).position(), Seq::empty()) {
                Some(Ok((vs, q))) => r is Ok && col_constraints_match(old(self).toks(), r->Ok_0@, vs)
                    && old(self).moved_to(&*final(self), q),
                Some(Err((q, e))) => r is Err && old(self).moved_to(&*final(self), q) && old(self).reports(r->Err_0, q, e),
                None => true,
            },
    {
        let mut constraints: Vec<ColumnConstraint> = Vec::new();
        let ghost whole = col_constraints_from(old(self).toks(), old(self).position(), Seq::empty());
        let ghost mut vs: Seq<ColConstraintView> = Seq::empty();
        loop
            invariant
                whole == col_constraints_from(old(self).toks(), old(self).position(), Seq::empty()),
                whole is Some ==> col_constraints_from(old(self).toks(), self.position(), vs) == whole
                    && col_constraints_match(old(self).toks(), constraints@, vs) && old(self).moved_to(&*self, self.position()),
                old(self).steps(&*self),
                constraints@.len() == 0 ==> old(self).moved_to(&*self, old(self).position()),
                constraints@.len() > 0 ==> self.position() > old(self).position(),
                !column_constraint_keyword(keyword_at(old(self).toks(), old(self).position())) ==> constraints@.len() == 0,
            ensures
                old(self).steps(&*self),
                constraints@.len() == 0 ==> old(self).moved_to(&*self, old(self).position()),
                constraints@.len() > 0 ==> self.position() > old(self).position(),
                !column_constraint_keyword(keyword_at(old(self).toks(), old(self).position())) ==> constraints@.len() == 0,
                !column_constraint_keyword(keyword_at(old(self).toks(), self.position())),
                whole is Some ==> col_constraints_from(old(self).toks(), self.position(), vs) == whole
                    && col_constraints_match(old(self).toks(), constraints@, vs) && old(self).moved_to(&*self, self.position()),
            decreases self.toks().len() - self.position(),
        {
            let ghost pos = self.position();
            match self.try_parse_column_constraint() {
                Ok(Some(c)) => {
                    proof {
                        if whole is Some {
                            let v = col_constraint_at(old(self).toks(), pos)->Some_0->Ok_0.0;
                            let old_vs = vs;
                            vs = vs.push(v);
                            assert forall|k: int| 0 <= k < constraints@.len() + 1 implies col_constraint_matches(
                                old(self).toks(),
                                constraints@.push(c)[k],
                                vs[k],
                            ) by {
                                if k < constraints@.len() {
                                    assert(constraints@.push(c)[k] == constraints@[k]);
                                    assert(vs[k] == old_vs[k]);
                                }
                            }
                        }
                    }
                    constraints.push(c);
                },
                Ok(None) => break,
                Err(e) => return Err(e),
            }
        }
        Ok(constraints)
    }

    /// `ON UPDATE {CURRENT_TIMESTAMP | LOCALTIMESTAMP | NOW() | name}`, if present.
    fn parse_on_update(&mut self) -> (r: Result<Option<String>, ParserError>)
        requires
            old(self).wf(),
        ensures
            old(self).steps(&*final(self)),
            agrees(&*old(self), &*final(self), r, on_update_at(old(self).toks(), old(self).position()),
                |v: Option<String>| opt_text(v)),
    {
        if !(self.match_keyword(Keyword::ON) && self.peek_at(1).same_as(&Token::Keyword(Keyword::UPDATE))) {
            return Ok(None);
        }
        self.advance();
        self.advance();
        if self.match_keyword(Keyword::CURRENT_TIMESTAMP) {
            self.advance();
            return Ok(Some(String::from_str("CURRENT_TIMESTAMP")));
        }
        if self.match_ident_str("LOCALTIMESTAMP") {
            self.advance();
            return Ok(Some(String::from_str("LOCALTIMESTAMP")));
        }
        if self.match_ident_str("NOW") {
            self.advance();
            match self.expect_token(&Token::LParen, "(") {
                Ok(()) => {},
                Err(e) => return Err(e),
            }
            self.advance();
            return match self.expect_token(&Token::RParen, ")") {
                Ok(()) => Ok(Some(String::from_str("NOW()"))),
                Err(e) => Err(e),
            };
        }
        match self.parse_identifier() {
            Ok(x) => Ok(Some(x)),
            Err(e) => Err(e),
        }
    }

    /// `GENERATED ALWAYS AS (expr) [STORED]`, `GENERATED ALWAYS AS IDENTITY [(...)]` or
    /// `GENERATED BY DEFAULT [ON NULL] AS IDENTITY [(...)]`, if present; only the first
    /// form is kept.
    fn parse_generated(&mut self) -> (r: Result<Option<GeneratedColumn>, ParserError>)
        requires
            old(self).wf(),
        ensures
            old(self).steps(&*final(self)),
            match generated_skip_at(old(self).toks(), old(self).position()) {
                Some(o) => agrees(&*old(self), &*final(self), r, o, |g: Option<GeneratedColumn>| ()) && (r is Ok ==> r->Ok_0 is None),
                None => {
                    let j = old(self).position() + 4;
                    let e = leaf_end(old(self).toks(), j);
                    has_leaf(old(self).toks(), j) && ends_operand(old(self).toks(), e, 0) ==> if tok_at(old(self).toks(), e) is RParen {
                        &&& r is Ok && r->Ok_0 is Some && leaf_value(old(self).toks(), j, r->Ok_0->Some_0.expr)
                        &&& r->Ok_0->Some_0.stored == kw_at(old(self).toks(), e + 1, Keyword::STORED)
                        &&& old(self).moved_to(&*final(self), if kw_at(old(self).toks(), e + 1, Keyword::STORED) { e + 2 } else { e + 1 })
                    } else {
                        r is Err && old(self).moved_to(&*final(self), e) && old(self).reports(r->Err_0, e, ")"@)
                    }
                },
            },
            match generated_at(old(self).toks(), old(self).position()) {
                Some(Ok((g, q))) => r is Ok && old(self).moved_to(&*final(self), q) && match g {
                    None => r->Ok_0 is None,
                    Some((t, stored)) => r->Ok_0 is Some && tree_matches(old(self).toks(), r->Ok_0->Some_0.expr, t)
                        && r->Ok_0->Some_0.stored == stored,
                },
                Some(Err((q, e))) => r is Err && old(self).moved_to(&*final(self), q) && old(self).reports(r->Err_0, q, e),
                None => true,
            },
    {
        if !self.match_keyword(Keyword::GENERATED) {
            return Ok(None);
        }
        self.advance();
        if self.try_consume_keyword(Keyword::ALWAYS) {
            match self.expect_keyword(Keyword::AS) {
                Ok(()) => {},
                Err(e) => return Err(e),
            }
            if self.match_token(&Token::LParen) {
                self.advance();
                let expr = match self.parse_expr() {
                    Ok(e) => e,
                    Err(e) => return Err(e),
                };
                match self.expect_token(&Token::RParen, ")") {
                    Ok(()) => {},
                    Err(e) => return Err(e),
                }
                let stored = self.try_consume_keyword(Keyword::STORED);
                return Ok(Some(GeneratedColumn { expr, stored }));
            } else if self.try_consume_keyword(Keyword::IDENTITY_P) {
                self.skip_to_close_paren();
            }
        } else if self.try_consume_keyword(Keyword::BY) {
            match self.expect_keyword(Keyword::DEFAULT) {
                Ok(()) => {},
                Err(e) => return Err(e),
            }
            let _ = self.try_consume_keyword(Keyword::ON);
            let _ = self.try_consume_keyword(Keyword::NULL_P);
            match self.expect_keyword(Keyword::AS) {
                Ok(()) => {},
                Err(e) => return Err(e),
            }
            match self.expect_keyword(Keyword::IDENTITY_P) {
                Ok(()) => {},
                Err(e) => return Err(e),
            }
            self.skip_to_close_paren();
        }
        Ok(None)
    }

    /// `ENCRYPTED WITH (key = value, ...)`, if present; the column key and the encryption
    /// type are kept (empty when not given), other keys are read and dropped.
    fn parse_encrypted_with(&mut self) -> (r: Result<Option<EncryptedWith>, ParserError>)
        requires
            old(self).wf(),
        ensures
            old(self).steps(&*final(self)),
            agrees(&*old(self), &*final(self), r, encrypted_with_at(old(self).toks(), old(self).position()),
                |e: Option<EncryptedWith>| encrypted_view(e)),
    {
        if !self.match_keyword(Keyword::ENCRYPTED) {
            return Ok(None);
        }
        self.advance();
        match self.expect_keyword(Keyword::WITH) {
            Ok(()) => {},
            Err(e) => return Err(e),
        }
        match self.expect_token(&Token::LParen, "(") {
            Ok(()) => {},
            Err(e) => return Err(e),
        }
        let mut column_encryption_key = String::new();
        let mut encryption_type = String::new();
        proof {
            assert(column_encryption_key@ =~= Seq::<char>::empty());
            assert(encryption_type@ =~= Seq::<char>::empty());
        }
        loop
            invariant_except_break
                encryption_items(self.toks(), self.position(), (column_encryption_key@, encryption_type@))
                    == encryption_items(old(self).toks(), old(self).position() + 3, (Seq::empty(), Seq::empty())),
            invariant
                old(self).steps(&*self),
                old(self).moved_to(&*self, self.position()),
                kw_at(old(self).toks(), old(self).position(), Keyword::ENCRYPTED),
                kw_at(old(self).toks(), old(self).position() + 1, Keyword::WITH),
                tok_at(old(self).toks(), old(self).position() + 2) is LParen,
            ensures
                encryption_items(old(self).toks(), old(self).position() + 3, (Seq::empty(), Seq::empty()))
                    == if self.current() is RParen {
                        Outcome::<(Seq<char>, Seq<char>)>::Ok(((column_encryption_key@, encryption_type@), self.position() + 1))
                    } else {
                        Outcome::<(Seq<char>, Seq<char>)>::Err((self.position(), ")"@))
                    },
            decreases self.toks().len() - self.position(),
        {
            let key = match self.consume_any_identifier() {
                Ok(k) => k,
                Err(e) => return Err(e),
            };
            match self.expect_token(&Token::Eq, "=") {
                Ok(()) => {},
                Err(e) => return Err(e),
            }
            let value = match self.consume_any_identifier() {
                Ok(v) => v,
                Err(e) => return Err(e),
            };
            let upper = to_uppercase(key.as_str());
            if strs_equal(upper.as_str(), "COLUMN_ENCRYPTION_KEY") {
                column_encryption_key = value;
            } else if strs_equal(upper.as_str(), "ENCRYPTION_TYPE") {
                encryption_type = value;
            }
            if !self.match_token(&Token::Comma) {
                break;
            }
            self.advance();
        }
        match self.expect_token(&Token::RParen, ")") {
            Ok(()) => Ok(Some(EncryptedWith { column_encryption_key, encryption_type })),
            Err(e) => Err(e),
        }
    }

    /// The rest of a column definition after its constraints (see `column_tail_at`), for
    /// the parts read before them.
    #[verifier::rlimit(60)]
    #[verifier::spinoff_prover]
    fn parse_column_tail(
        &mut self,
        name: String,
        data_type: DataType,
        constraints: Vec<ColumnConstraint>,
        compress_mode: Option<String>,
        charset: Option<String>,
        collate: Option<String>,
    ) -> (r: Result<ColumnDef, ParserError>)
        requires
            old(self).wf(),
        ensures
            old(self).steps(&*final(self)),
            old(self).position() <= final(self).position(),
            r is Ok ==> r->Ok_0.name == name && r->Ok_0.data_type == data_type && r->Ok_0.constraints == constraints
                && r->Ok_0.compress_mode == compress_mode,
            match column_tail_at(old(self).toks(), opt_text(charset), opt_text(collate), old(self).position()) {
                Some(Ok((t, q))) => {
                    &&& r is Ok
                    &&& opt_text(r->Ok_0.charset) == t.charset
                    &&& opt_text(r->Ok_0.collate) == t.collate
                    &&& opt_text(r->Ok_0.on_update) == t.on_update
                    &&& opt_text(r->Ok_0.comment) == t.comment
                    &&& generated_matches(old(self).toks(), r->Ok_0.generated, t.generated)
                    &&& encrypted_view(r->Ok_0.encrypted_with) == t.encrypted
                    &&& old(self).moved_to(&*final(self), q)
                },
                Some(Err((q, e))) => r is Err && old(self).moved_to(&*final(self), q) && old(self).reports(r->Err_0, q, e),
                None => true,
            },
    {
        let mut charset = charset;
        let mut collate = collate;
        self.consume_opt_using_index_attrs();
        if charset.is_none() && (self.match_keyword(Keyword::CHARACTER) || self.match_keyword(Keyword::CHARSET)) {
            match self.parse_charset_clause() {
                Ok(c) => charset = Some(c),
                Err(e) => return Err(e),
            }
        }
        if collate.is_none() && self.match_keyword(Keyword::COLLATE) {
            match self.parse_collate_clause() {
                Ok(c) => collate = Some(c),
                Err(e) => return Err(e),
            }
        }
        let on_update = match self.parse_on_update() {
            Ok(o) => o,
            Err(e) => return Err(e),
        };
        let mut comment: Option<String> = None;
        if self.try_consume_keyword(Keyword::COMMENT) {
            match self.parse_string_literal() {
                Ok(c) => comment = Some(c),
                Err(e) => return Err(e),
            }
        }
        let generated = match self.parse_generated() {
            Ok(g) => g,
            Err(e) => return Err(e),
        };
        let encrypted_with = match self.parse_encrypted_with() {
            Ok(e) => e,
            Err(e) => return Err(e),
        };
        Ok(ColumnDef {
            name,
            data_type,
            constraints,
            compress_mode,
            charset,
            collate,
            on_update,
            comment,
            generated,
            encrypted_with,
        })
    }

    /// A column definition: name, data type, an optional compression mode, character
    /// set and collation, constraints, index attributes, a late character set or
    /// collation, and the optional `ON UPDATE`, `COMMENT`, `GENERATED` and
    /// `ENCRYPTED WITH` clauses.
    pub fn parse_column_def(&mut self) -> (r: Result<ColumnDef, ParserError>)
        requires
            old(self).wf(),
        ensures
            old(self).steps(&*final(self)),
            r is Ok ==> final(self).position() > old(self).position()
                && Some(r->Ok_0.name@) == ident_text(old(self).current()),
            ident_text(old(self).current()) is None ==> r is Err && old(self).moved_to(&*final(self), old(self).position())
                && old(self).reports(r->Err_0, old(self).position(), "identifier"@),
            r is Ok ==> match keyword_at(old(self).toks(), old(self).position() + 1) {
                Some(k) => is_type_keyword(k) ==> (type_at(old(self).toks(), old(self).position() + 1, k) matches Ok((v, _))
                    && type_view(r->Ok_0.data_type) == v),
                None => true,
            },
            r is Ok ==> match named_type_mods_at(old(self).toks(), old(self).position() + 1) {
                Some(ts) => custom_mods_match(old(self).toks(), r->Ok_0.data_type, ts),
                None => true,
            },
            match column_def_at(old(self).toks(), old(self).position()) {
                Some(Ok((v, q))) => r is Ok && column_matches(old(self).toks(), r->Ok_0, v) && old(self).moved_to(&*final(self), q),
                Some(Err((q, e))) => r is Err && old(self).moved_to(&*final(self), q) && old(self).reports(r->Err_0, q, e),
                None => true,
            },
    {
        let name = match self.parse_identifier() {
            Ok(n) => n,
            Err(e) => return Err(e),
        };
        let ghost p1 = self.position();
        let data_type = match self.parse_data_type() {
            Ok(t) => t,
            Err(e) => return Err(e),
        };
        assert(match keyword_at(old(self).toks(), p1) {
            Some(k) => is_type_keyword(k) ==> (type_at(old(self).toks(), p1, k) matches Ok((v, _)) && type_view(data_type) == v),
            None => true,
        });
        assert(match named_type_mods_at(old(self).toks(), p1) {
            Some(ts) => custom_mods_match(old(self).toks(), data_type, ts),
            None => true,
        });
        let compress_mode = self.parse_compress_mode();
        let mut charset: Option<String> = None;
        let mut collate: Option<String> = None;
        if self.match_keyword(Keyword::CHARACTER) || self.match_keyword(Keyword::CHARSET) {
            match self.parse_charset_clause() {
                Ok(c) => charset = Some(c),
                Err(e) => return Err(e),
            }
        }
        if self.match_keyword(Keyword::COLLATE) {
            match self.parse_collate_clause() {
                Ok(c) => collate = Some(c),
                Err(e) => return Err(e),
            }
        }
        let constraints = match self.parse_column_constraints() {
            Ok(c) => c,
            Err(e) => return Err(e),
        };
        self.parse_column_tail(name, data_type, constraints, compress_mode, charset, collate)
    }
}

// ────────────────────────────────────────────────────────────────
// Partitioning
// ────────────────────────────────────────────────────────────────

/// The partitioning strategies.
#[derive(PartialEq, Eq, Structural, Clone, Copy)]
pub enum Strategy {
    Range,
    List,
    Hash,
}

/// Partition bounds as plain values, each operand by its position.
pub enum PartitionValuesView {
    LessThan(Seq<int>),
    InValues(Seq<int>),
    StartEnd(int, int),
}

/// `VALUES LESS THAN (...)`, `VALUES IN (...)`, `VALUES (...)` or
/// `VALUES START (a) END (b)` at `i`, each operand a single one (and no `EVERY`); `None`
/// for other bounds.
pub open spec fn partition_values_at(toks: Seq<Token>, i: int) -> Option<Outcome<PartitionValuesView>> {
    let j = i + 1;
    if !kw_at(toks, i, Keyword::VALUES) {
        Some(Err((i, "VALUES"@)))
    } else if kw_at(toks, j, Keyword::LESS) {
        if !kw_at(toks, j + 1, Keyword::THAN) {
            Some(Err((j + 1, keyword_text(Keyword::THAN))))
        } else {
            match paren_leaves_at(toks, j + 2) {
                Some(Ok((ps, q))) => Some(Ok((PartitionValuesView::LessThan(ps), q))),
                Some(Err(e)) => Some(Err(e)),
                None => None,
            }
        }
    } else if kw_at(toks, j, Keyword::IN_P) || tok_at(toks, j) is LParen {
        let k = if kw_at(toks, j, Keyword::IN_P) { j + 1 } else { j };
        match paren_leaves_at(toks, k) {
            Some(Ok((ps, q))) => Some(Ok((PartitionValuesView::InValues(ps), q))),
            Some(Err(e)) => Some(Err(e)),
            None => None,
        }
    } else if kw_at(toks, j, Keyword::START) {
        if !paren_leaf_at(toks, j + 1) {
            None
        } else {
            let k = paren_leaf_end(toks, j + 1);
            if !kw_at(toks, k, Keyword::END_P) {
                Some(Err((k, keyword_text(Keyword::END_P))))
            } else if paren_leaf_at(toks, k + 1) && !kw_at(toks, paren_leaf_end(toks, k + 1), Keyword::EVERY) {
                Some(Ok((PartitionValuesView::StartEnd(j + 2, k + 2), paren_leaf_end(toks, k + 1))))
            } else {
                None
            }
        }
    } else {
        Some(Err((j, "LESS THAN, IN, or START"@)))
    }
}

/// `v` holds the bounds that `pv` describes.
pub open spec fn partition_values_match(toks: Seq<Token>, v: PartitionValues, pv: PartitionValuesView) -> bool {
    match pv {
        PartitionValuesView::LessThan(ps) => v is LessThan && leaves_match(toks, v->LessThan_0@, ps),
        PartitionValuesView::InValues(ps) => v is InValues && leaves_match(toks, v->InValues_0@, ps),
        PartitionValuesView::StartEnd(a, b) => v is StartEnd && leaf_value(toks, a, v->StartEnd_start)
            && leaf_value(toks, b, v->StartEnd_end) && v->StartEnd_every is None,
    }
}

/// The shape of the bound values that the words at `i` start.
pub open spec fn partition_values_shape(toks: Seq<Token>, i: int, v: PartitionValues) -> bool {
    if kw_at(toks, i + 1, Keyword::LESS) {
        v is LessThan
    } else if kw_at(toks, i + 1, Keyword::IN_P) || tok_at(toks, i + 1) is LParen {
        v is InValues
    } else {
        v is StartEnd
    }
}

/// `START (a) END (b)` at `p` (the `START` keyword at `p`), each bound a single operand;
/// `None` for other bounds and for `EVERY`.
pub open spec fn start_end_at(toks: Seq<Token>, p: int) -> Option<Outcome<PartitionValuesView>> {
    if !paren_leaf_at(toks, p + 1) {
        None
    } else {
        let k = paren_leaf_end(toks, p + 1);
        if !kw_at(toks, k, Keyword::END_P) {
            Some(Err((k, keyword_text(Keyword::END_P))))
        } else if paren_leaf_at(toks, k + 1) && !kw_at(toks, paren_leaf_end(toks, k + 1), Keyword::EVERY) {
            Some(Ok((PartitionValuesView::StartEnd(p + 2, k + 2), paren_leaf_end(toks, k + 1))))
        } else {
            None
        }
    }
}

/// The optional bounds of a partition definition at `p`: `VALUES ...` or `START ... END ...`.
pub open spec fn def_values_at(toks: Seq<Token>, p: int) -> Option<Outcome<Option<PartitionValuesView>>> {
    if kw_at(toks, p, Keyword::VALUES) {
        some_values(partition_values_at(toks, p))
    } else if kw_at(toks, p, Keyword::START) {
        some_values(start_end_at(toks, p))
    } else {
        Some(Ok((None, p)))
    }
}

/// The bounds that `o` reads, as present bounds.
pub open spec fn some_values(o: Option<Outcome<PartitionValuesView>>) -> Option<Outcome<Option<PartitionValuesView>>> {
    match o {
        Some(Ok((v, q))) => Some(Ok((Some(v), q))),
        Some(Err(e)) => Some(Err(e)),
        None => None,
    }
}

/// The first position from `j` on that holds `,`, `)` or the end of input.
pub open spec fn item_end_from(toks: Seq<Token>, j: int) -> int
    decreases toks.len() - j,
{
    if j >= toks.len() || tok_at(toks, j) is Comma || tok_at(toks, j) is RParen || tok_at(toks, j) is Eof {
        j
    } else {
        item_end_from(toks, j + 1)
    }
}

/// Where an optional `ILM ...` clause of a partition definition at `p` ends: at the next
/// `,` or `)` (its words are passed over).
pub open spec fn def_ilm_end(toks: Seq<Token>, p: int) -> int {
    if ident_word_at(toks, p, "ILM"@) { item_end_from(toks, p + 1) } else { p }
}

/// A partition definition as plain values.
pub struct PartitionView {
    pub name: Seq<char>,
    pub values: Option<PartitionValuesView>,
    pub tablespace: Option<Seq<char>>,
    pub subpartitions: Seq<PartitionDefView>,
}

/// `PARTITION name [values] [TABLESPACE ts] [(SUBPARTITION ...)] [ILM ...]` at `j`.
pub open spec fn partition_def_at(toks: Seq<Token>, j: int) -> Option<Outcome<PartitionView>> {
    if !kw_at(toks, j, Keyword::PARTITION) {
        Some(Err((j, keyword_text(Keyword::PARTITION))))
    } else {
        match ident_text(tok_at(toks, j + 1)) {
            None => Some(Err((j + 1, "identifier"@))),
            Some(n) => match def_values_at(toks, j + 2) {
                None => None,
                Some(Err(e)) => Some(Err(e)),
                Some(Ok((vals, p))) => {
                    let ts: Outcome<Option<Seq<char>>> = if kw_at(toks, p, Keyword::TABLESPACE) {
                        match ident_text(tok_at(toks, p + 1)) {
                            Some(t) => Ok((Some(t), p + 2)),
                            None => Err((p + 1, "identifier"@)),
                        }
                    } else {
                        Ok((None, p))
                    };
                    match ts {
                        Err(e) => Some(Err(e)),
                        Ok((t, p2)) => match subpartition_defs_at(toks, p2) {
                            None => None,
                            Some(Err(e)) => Some(Err(e)),
                            Some(Ok((subs, p3))) => Some(Ok((
                                PartitionView { name: n, values: vals, tablespace: t, subpartitions: subs },
                                def_ilm_end(toks, p3),
                            ))),
                        },
                    }
                },
            },
        }
    }
}

/// The partition definitions `definition, ... )` from `j` on, after `acc`.
pub open spec fn partitions_from(toks: Seq<Token>, j: int, acc: Seq<PartitionView>) -> Option<Outcome<Seq<PartitionView>>>
    decreases toks.len() - j,
{
    match partition_def_at(toks, j) {
        None => None,
        Some(Err(e)) => Some(Err(e)),
        Some(Ok((v, q))) => if q <= j || q >= toks.len() {
            None
        } else if tok_at(toks, q) is Comma {
            partitions_from(toks, q + 1, acc.push(v))
        } else if tok_at(toks, q) is RParen {
            Some(Ok((acc.push(v), q + 1)))
        } else {
            Some(Err((q, ")"@)))
        },
    }
}

/// `( definition, ... )` at `i`, or nothing where no `(` follows.
pub open spec fn partition_defs_at(toks: Seq<Token>, i: int) -> Option<Outcome<Seq<PartitionView>>> {
    if !(tok_at(toks, i) is LParen) { Some(Ok((Seq::empty(), i))) } else { partitions_from(toks, i + 1, Seq::empty()) }
}

/// `d` is the partition definition that `v` describes.
pub open spec fn partition_matches(toks: Seq<Token>, d: PartitionDef, v: PartitionView) -> bool {
    &&& d.name@ == v.name
    &&& match v.values {
        None => d.values is None,
        Some(pv) => d.values is Some && partition_values_match(toks, d.values->Some_0, pv),
    }
    &&& opt_text(d.tablespace) == v.tablespace
    &&& partition_defs_view(d.subpartitions@) == v.subpartitions
}

/// Each definition of `ds` is the one that `vs` describes at its place.
pub open spec fn partitions_match(toks: Seq<Token>, ds: Seq<PartitionDef>, vs: Seq<PartitionView>) -> bool {
    ds.len() == vs.len() && forall|k: int| 0 <= k < ds.len() ==> partition_matches(toks, ds[k], vs[k])
}

impl Parser {
    /// `( [expr, ...] )` after the `(` was seen: with nothing inside, the `)` is left
    /// unread.
    fn parse_bound_list(&mut self) -> (r: Result<Vec<Expr>, ParserError>)
        requires
            old(self).wf(),
        ensures
            old(self).steps(&*final(self)),
            !(old(self).current() is LParen) ==> r is Err && old(self).moved_to(&*final(self), old(self).position())
                && old(self).reports(r->Err_0, old(self).position(), "("@),
            r is Ok ==> final(self).position() > old(self).position(),
            match paren_leaves_at(old(self).toks(), old(self).position()) {
                Some(Ok((ps, q))) => r is Ok && leaves_match(old(self).toks(), r->Ok_0@, ps) && old(self).moved_to(&*final(self), q),
                Some(Err((q, e))) => r is Err && old(self).moved_to(&*final(self), q) && old(self).reports(r->Err_0, q, e),
                None => true,
            },
    {
        let ghost toks = self.toks();
        let ghost whole = paren_leaves_at(toks, self.position());
        match self.expect_token(&Token::LParen, "(") {
            Ok(()) => {},
            Err(e) => return Err(e),
        }
        let mut vals: Vec<Expr> = Vec::new();
        let ghost mut ps: Seq<int> = Seq::empty();
        if !self.match_token(&Token::RParen) {
            let ghost first = self.position();
            match self.parse_expr() {
                Ok(e) => {
                    proof {
                        ps = seq![first];
                        assert(ps.drop_last() =~= Seq::<int>::empty());
                    }
                    vals.push(e);
                    proof {
                        assert(vals@[0] == e);
                    }
                },
                Err(e) => return Err(e),
            }
            while self.match_token(&Token::Comma)
                invariant
                    old(self).steps(&*self),
                    old(self).current() is LParen,
                    self.position() > old(self).position(),
                    toks == old(self).toks(),
                    !(tok_at(toks, old(self).position() + 1) is RParen),
                    whole == paren_leaves_at(toks, old(self).position()),
                    whole is Some ==> ps.len() >= 1 && whole == leaf_list_from(toks, ps.last(), ps.drop_last())
                        && lone_leaf_at(toks, ps.last()) && self.position() == leaf_end(toks, ps.last())
                        && leaf_end(toks, ps.last()) > ps.last()
                        && leaves_match(toks, vals@, ps) && old(self).moved_to(&*self, self.position()),
                decreases self.toks().len() - self.position(),
            {
                proof {
                    if whole is Some {
                        assert(ps.drop_last().push(ps.last()) =~= ps);
                        assert(whole == leaf_list_from(toks, self.position() + 1, ps));
                    }
                }
                self.advance();
                let ghost pos = self.position();
                match self.parse_expr() {
                    Ok(e) => {
                        proof {
                            if whole is Some {
                                let old_ps = ps;
                                assert(ps.drop_last().push(ps.last()) =~= ps);
                                ps = ps.push(pos);
                                assert(ps.drop_last() =~= old_ps);
                                assert forall|m: int| 0 <= m < vals@.len() + 1 implies leaf_value(toks, ps[m], vals@.push(e)[m]) by {
                                    if m < vals@.len() {
                                        assert(vals@.push(e)[m] == vals@[m]);
                                        assert(ps[m] == old_ps[m]);
                                    }
                                }
                            }
                        }
                        vals.push(e);
                    },
                    Err(e) => return Err(e),
                }
            }
            proof {
                if whole is Some {
                    assert(ps.drop_last().push(ps.last()) =~= ps);
                    let e = leaf_end(toks, ps.last());
                    assert(e == self.position());
                    assert(!(tok_at(toks, e) is Comma));
                    assert(whole == if tok_at(toks, e) is RParen {
                        Some(Outcome::<Seq<int>>::Ok((ps, e + 1)))
                    } else {
                        Some(Outcome::<Seq<int>>::Err((e, ")"@)))
                    });
                }
            }
            match self.expect_token(&Token::RParen, ")") {
                Ok(()) => {},
                Err(e) => return Err(e),
            }
        } else {
            proof {
                assert(leaves_match(toks, vals@, ps));
            }
        }
        Ok(vals)
    }

    /// `( expr )`.
    pub(crate) fn parse_paren_expr(&mut self) -> (r: Result<Expr, ParserError>)
        requires
            old(self).wf(),
        ensures
            old(self).steps(&*final(self)),
            r is Ok ==> final(self).position() > old(self).position(),
            ({
                let j = old(self).position() + 1;
                let e = leaf_end(old(self).toks(), j);
                old(self).current() is LParen && has_leaf(old(self).toks(), j) && tok_at(old(self).toks(), e) is RParen
                    && ends_operand(old(self).toks(), e, 0)
            }) ==> {
                &&& r is Ok && leaf_value(old(self).toks(), old(self).position() + 1, r->Ok_0)
                &&& old(self).moved_to(&*final(self), leaf_end(old(self).toks(), old(self).position() + 1) + 1)
            },
    {
        match self.expect_token(&Token::LParen, "(") {
            Ok(()) => {},
            Err(e) => return Err(e),
        }
        let e = match self.parse_expr() {
            Ok(e) => e,
            Err(e) => return Err(e),
        };
        match self.expect_token(&Token::RParen, ")") {
            Ok(()) => Ok(e),
            Err(e) => Err(e),
        }
    }

    /// `START (expr) END (expr) [EVERY (expr)]`, with the cursor at `START`.
    fn parse_start_end_values(&mut self) -> (r: Result<PartitionValues, ParserError>)
        requires
            old(self).wf(),
        ensures
            old(self).steps(&*final(self)),
            r is Ok ==> final(self).position() > old(self).position() && r->Ok_0 is StartEnd,
            ({
                let toks = old(self).toks();
                let j = old(self).next_position();
                paren_leaf_at(toks, j) ==> {
                    let k = paren_leaf_end(toks, j);
                    &&& !kw_at(toks, k, Keyword::END_P) ==> r is Err && old(self).moved_to(&*final(self), k)
                        && old(self).reports(r->Err_0, k, keyword_text(Keyword::END_P))
                    &&& kw_at(toks, k, Keyword::END_P) && paren_leaf_at(toks, k + 1) && !kw_at(toks, paren_leaf_end(toks, k + 1), Keyword::EVERY)
                        ==> r is Ok && r->Ok_0 is StartEnd && leaf_value(toks, j + 1, r->Ok_0->StartEnd_start)
                        && leaf_value(toks, k + 2, r->Ok_0->StartEnd_end) && r->Ok_0->StartEnd_every is None
                        && old(self).moved_to(&*final(self), paren_leaf_end(toks, k + 1))
                }
            }),
    {
        self.advance();
        let start = match self.parse_paren_expr() {
            Ok(e) => e,
            Err(e) => return Err(e),
        };
        match self.expect_keyword(Keyword::END_P) {
            Ok(()) => {},
            Err(e) => return Err(e),
        }
        let end = match self.parse_paren_expr() {
            Ok(e) => e,
            Err(e) => return Err(e),
        };
        let every: Option<Expr> = if self.match_keyword(Keyword::EVERY) {
            self.advance();
            match self.parse_paren_expr() {
                Ok(e) => Some(e),
                Err(e) => return Err(e),
            }
        } else {
            None
        };
        Ok(PartitionValues::StartEnd { start, end, every })
    }

    /// `VALUES LESS THAN (...)`, `VALUES IN (...)`, `VALUES START ... END ...` or
    /// `VALUES (...)`.
    pub fn parse_partition_values(&mut self) -> (r: Result<PartitionValues, ParserError>)
        requires
            old(self).wf(),
        ensures
            old(self).steps(&*final(self)),
            !kw_at(old(self).toks(), old(self).position(), Keyword::VALUES) ==> r is Err
                && old(self).moved_to(&*final(self), old(self).position())
                && old(self).reports(r->Err_0, old(self).position(), "VALUES"@),
            kw_at(old(self).toks(), old(self).position(), Keyword::VALUES) && !kw_at(old(self).toks(), old(self).position() + 1, Keyword::LESS)
                && !kw_at(old(self).toks(), old(self).position() + 1, Keyword::IN_P)
                && !kw_at(old(self).toks(), old(self).position() + 1, Keyword::START)
                && !(tok_at(old(self).toks(), old(self).position() + 1) is LParen) ==> r is Err
                && old(self).moved_to(&*final(self), old(self).position() + 1)
                && old(self).reports(r->Err_0, old(self).position() + 1, "LESS THAN, IN, or START"@),
            r is Ok ==> final(self).position() > old(self).position()
                && partition_values_shape(old(self).toks(), old(self).position(), r->Ok_0),
            match partition_values_at(old(self).toks(), old(self).position()) {
                Some(Ok((pv, q))) => r is Ok && partition_values_match(old(self).toks(), r->Ok_0, pv)
                    && old(self).moved_to(&*final(self), q),
                Some(Err((q, e))) => r is Err && old(self).moved_to(&*final(self), q) && old(self).reports(r->Err_0, q, e),
                None => true,
            },
    {
        match self.expect_keyword(Keyword::VALUES) {
            Ok(()) => {},
            Err(e) => return Err(e),
        }
        if self.match_keyword(Keyword::LESS) {
            self.advance();
            match self.expect_keyword(Keyword::THAN) {
                Ok(()) => {},
                Err(e) => return Err(e),
            }
            match self.parse_bound_list() {
                Ok(v) => Ok(PartitionValues::LessThan(v)),
                Err(e) => Err(e),
            }
        } else if self.match_keyword(Keyword::IN_P) {
            self.advance();
            match self.parse_bound_list() {
                Ok(v) => Ok(PartitionValues::InValues(v)),
                Err(e) => Err(e),
            }
        } else if self.match_keyword(Keyword::START) {
            self.parse_start_end_values()
        } else if self.match_token(&Token::LParen) {
            match self.parse_bound_list() {
                Ok(v) => Ok(PartitionValues::InValues(v)),
                Err(e) => Err(e),
            }
        } else {
            Err(self.unexpected("LESS THAN, IN, or START"))
        }
    }

    /// `(PARTITION name [values] [TABLESPACE ts] [subpartitions] [ILM ...], ...)`;
    /// nothing (an empty list) when no `(` follows.
    pub fn parse_partition_defs(&mut self) -> (r: Result<Vec<PartitionDef>, ParserError>)
        requires
            old(self).wf(),
        ensures
            old(self).steps(&*final(self)),
            !(old(self).current() is LParen) ==> r is Ok && r->Ok_0@.len() == 0
                && old(self).moved_to(&*final(self), old(self).position()),
            old(self).current() is LParen && r is Ok ==> r->Ok_0@.len() >= 1 && final(self).position() > old(self).position(),
            match partition_defs_at(old(self).toks(), old(self).position()) {
                Some(Ok((vs, q))) => r is Ok && partitions_match(old(self).toks(), r->Ok_0@, vs)
                    && old(self).moved_to(&*final(self), q),
                Some(Err((q, e))) => r is Err && old(self).moved_to(&*final(self), q) && old(self).reports(r->Err_0, q, e),
                None => true,
            },
    {
        if !self.match_token(&Token::LParen) {
            let none: Vec<PartitionDef> = Vec::new();
            proof {
                assert(none@ =~= Seq::<PartitionDef>::empty());
            }
            return Ok(none);
        }
        self.advance();
        let mut defs: Vec<PartitionDef> = Vec::new();
        let ghost whole = partitions_from(old(self).toks(), old(self).position() + 1, Seq::empty());
        let ghost mut vs: Seq<PartitionView> = Seq::empty();
        loop
            invariant_except_break
                whole is Some ==> partitions_from(old(self).toks(), self.position(), vs) == whole,
            invariant
                old(self).steps(&*self),
                old(self).current() is LParen,
                self.position() > old(self).position(),
                whole == partitions_from(old(self).toks(), old(self).position() + 1, Seq::empty()),
                whole is Some ==> partitions_match(old(self).toks(), defs@, vs) && old(self).moved_to(&*self, self.position()),
            ensures
                defs@.len() >= 1,
                old(self).steps(&*self),
                self.position() > old(self).position(),
                whole is Some ==> partitions_match(old(self).toks(), defs@, vs) && old(self).moved_to(&*self, self.position())
                    && whole == if tok_at(old(self).toks(), self.position()) is RParen {
                        Some(Outcome::<Seq<PartitionView>>::Ok((vs, self.position() + 1)))
                    } else {
                        Some(Outcome::<Seq<PartitionView>>::Err((self.position(), ")"@)))
                    },
            decreases self.toks().len() - self.position(),
        {
            let ghost pos = self.position();
            match self.parse_partition_def() {
                Ok(d) => {
                    proof {
                        if whole is Some {
                            let v = partition_def_at(old(self).toks(), pos)->Some_0->Ok_0.0;
                            let old_vs = vs;
                            vs = vs.push(v);
                            assert forall|k: int| 0 <= k < defs@.len() + 1 implies partition_matches(
                                old(self).toks(),
                                defs@.push(d)[k],
                                vs[k],
                            ) by {
                                if k < defs@.len() {
                                    assert(defs@.push(d)[k] == defs@[k]);
                                    assert(vs[k] == old_vs[k]);
                                }
                            }
                        }
                    }
                    defs.push(d);
                },
                Err(e) => return Err(e),
            }
            if !self.match_token(&Token::Comma) {
                break;
            }
            self.advance();
        }
        match self.expect_token(&Token::RParen, ")") {
            Ok(()) => Ok(defs),
            Err(e) => Err(e),
        }
    }

    /// Passes over an optional `ILM ...` clause of a partition definition, up to the next
    /// `,` or `)`.
    fn skip_partition_ilm(&mut self)
        requires
            old(self).wf(),
        ensures
            final(self).wf(),
            final(self).position() >= old(self).position(),
            old(self).moved_to(&*final(self), def_ilm_end(old(self).toks(), old(self).position())),
    {
        if self.match_ident_str("ILM") {
            self.advance();
            loop
                invariant
                    self.wf(),
                    old(self).moved_to(&*self, self.position()),
                    ident_word_at(old(self).toks(), old(self).position(), "ILM"@),
                    old(self).position() < self.position(),
                    item_end_from(old(self).toks(), self.position()) == item_end_from(old(self).toks(), old(self).position() + 1),
                ensures
                    self.wf(),
                    old(self).position() < self.position(),
                    old(self).moved_to(&*self, item_end_from(old(self).toks(), old(self).position() + 1)),
                decreases self.toks().len() - self.position(),
            {
                let stop = match self.peek() {
                    Token::Comma | Token::RParen | Token::Eof => true,
                    _ => false,
                };
                if stop {
                    break;
                }
                self.advance();
            }
        }
    }

    /// One partition definition: `PARTITION name [VALUES ... | START ... END ...]
    /// [TABLESPACE ts] [(SUBPARTITION ...)] [ILM ...]`.
    fn parse_partition_def(&mut self) -> (r: Result<PartitionDef, ParserError>)
        requires
            old(self).wf(),
        ensures
            old(self).steps(&*final(self)),
            r is Ok ==> final(self).position() > old(self).position(),
            match partition_def_at(old(self).toks(), old(self).position()) {
                Some(Ok((v, q))) => r is Ok && partition_matches(old(self).toks(), r->Ok_0, v) && old(self).moved_to(&*final(self), q),
                Some(Err((q, e))) => r is Err && old(self).moved_to(&*final(self), q) && old(self).reports(r->Err_0, q, e),
                None => true,
            },
    {
        match self.expect_keyword(Keyword::PARTITION) {
            Ok(()) => {},
            Err(e) => return Err(e),
        }
        let name = match self.parse_identifier() {
            Ok(n) => n,
            Err(e) => return Err(e),
        };
        let values: Option<PartitionValues> = if self.match_keyword(Keyword::VALUES) {
            match self.parse_partition_values() {
                Ok(v) => Some(v),
                Err(e) => return Err(e),
            }
        } else if self.match_keyword(Keyword::START) {
            match self.parse_start_end_values() {
                Ok(v) => Some(v),
                Err(e) => return Err(e),
            }
        } else {
            None
        };
        let tablespace: Option<String> = if self.match_keyword(Keyword::TABLESPACE) {
            self.advance();
            match self.parse_identifier() {
                Ok(t) => Some(t),
                Err(e) => return Err(e),
            }
        } else {
            None
        };
        let subpartitions = match self.parse_subpartition_defs() {
            Ok(s) => s,
            Err(e) => return Err(e),
        };
        self.skip_partition_ilm();
        Ok(PartitionDef { name, values, tablespace, subpartitions })
    }

    /// `(SUBPARTITION name [values] [TABLESPACE ts], ...)`; nothing (an empty list) when
    /// no `(` follows or when the list inside starts with `PARTITION`.
    pub fn parse_subpartition_defs(&mut self) -> (r: Result<Vec<PartitionDef>, ParserError>)
        requires
            old(self).wf(),
        ensures
            old(self).steps(&*final(self)),
            !(old(self).current() is LParen) || kw_at(old(self).toks(), old(self).position() + 1, Keyword::PARTITION) ==> r is Ok
                && r->Ok_0@.len() == 0 && old(self).moved_to(&*final(self), old(self).position()),
            r is Ok && r->Ok_0@.len() > 0 ==> final(self).position() > old(self).position(),
            match subpartition_defs_at(old(self).toks(), old(self).position()) {
                Some(o) => agrees(&*old(self), &*final(self), r, o, |v: Vec<PartitionDef>| partition_defs_view(v@)),
                None => true,
            },
    {
        if !self.match_token(&Token::LParen) {
            proof {
                assert(partition_defs_view(Seq::<PartitionDef>::empty()) =~= Seq::<PartitionDefView>::empty());
            }
            return Ok(Vec::new());
        }
        if self.peek_at(1).same_as(&Token::Keyword(Keyword::PARTITION)) {
            proof {
                assert(partition_defs_view(Seq::<PartitionDef>::empty()) =~= Seq::<PartitionDefView>::empty());
            }
            return Ok(Vec::new());
        }
        self.advance();
        let mut defs: Vec<PartitionDef> = Vec::new();
        proof {
            assert(partition_defs_view(defs@) =~= Seq::<PartitionDefView>::empty());
        }
        loop
            invariant_except_break
                subpartition_defs_at(old(self).toks(), old(self).position()) is Some
                    ==> subpartitions_from(self.toks(), self.position(), partition_defs_view(defs@))
                        == subpartition_defs_at(old(self).toks(), old(self).position()),
            invariant
                old(self).steps(&*self),
                subpartition_defs_at(old(self).toks(), old(self).position()) is Some ==> old(self).moved_to(&*self, self.position()),
                self.position() > old(self).position(),
                !(kw_at(old(self).toks(), old(self).position() + 1, Keyword::PARTITION)),
                old(self).current() is LParen,
            ensures
                subpartition_defs_at(old(self).toks(), old(self).position()) is Some
                    ==> subpartition_defs_at(old(self).toks(), old(self).position()) == if self.current() is RParen {
                        Some(Outcome::<Seq<PartitionDefView>>::Ok((partition_defs_view(defs@), self.position() + 1)))
                    } else {
                        Some(Outcome::<Seq<PartitionDefView>>::Err((self.position(), ")"@)))
                    },
            decreases self.toks().len() - self.position(),
        {
            let ghost before = partition_defs_view(defs@);
            match self.expect_keyword(Keyword::SUBPARTITION) {
                Ok(()) => {},
                Err(e) => return Err(e),
            }
            let name = match self.parse_identifier() {
                Ok(n) => n,
                Err(e) => return Err(e),
            };
            let values: Option<PartitionValues> = if self.match_keyword(Keyword::VALUES) {
                match self.parse_partition_values() {
                    Ok(v) => Some(v),
                    Err(e) => return Err(e),
                }
            } else {
                None
            };
            let tablespace: Option<String> = if self.match_keyword(Keyword::TABLESPACE) {
                self.advance();
                match self.parse_identifier() {
                    Ok(t) => Some(t),
                    Err(e) => return Err(e),
                }
            } else {
                None
            };
            defs.push(PartitionDef { name, values, tablespace, subpartitions: Vec::new() });
            proof {
                assert(partition_defs_view(defs@) =~= before.push(partition_defs_view(defs@).last()));
            }
            if !self.match_token(&Token::Comma) {
                break;
            }
            self.advance();
        }
        match self.expect_token(&Token::RParen, ")") {
            Ok(()) => Ok(defs),
            Err(e) => Err(e),
        }
    }

    /// `HASH` (an identifier, any case), `RANGE [COLUMNS]` or `LIST [COLUMNS]`.
    fn parse_partition_strategy(&mut self) -> (r: Result<(Strategy, bool), ParserError>)
        requires
            old(self).wf(),
        ensures
            old(self).steps(&*final(self)),
            r is Ok ==> final(self).position() > old(self).position(),
            agrees(&*old(self), &*final(self), r, partition_strategy_at(old(self).toks(), old(self).position()),
                |v: (Strategy, bool)| v),
    {
        let hash = match self.peek() {
            Token::Ident(s) => {
                let upper = to_uppercase(s.as_str());
                strs_equal(upper.as_str(), "HASH")
            },
            _ => false,
        };
        if hash {
            self.advance();
            return Ok((Strategy::Hash, false));
        }
        let strategy = if self.match_keyword(Keyword::RANGE) {
            Strategy::Range
        } else if self.match_keyword(Keyword::LIST) {
            Strategy::List
        } else {
            return Err(self.unexpected("RANGE, LIST, or HASH"));
        };
        self.advance();
        let is_columns = self.try_consume_keyword(Keyword::COLUMNS);
        Ok((strategy, is_columns))
    }

    /// `( name, ... )` of partition key columns.
    fn parse_partition_columns(&mut self) -> (r: Result<Vec<ObjectName>, ParserError>)
        requires
            old(self).wf(),
        ensures
            old(self).steps(&*final(self)),
            r is Ok ==> final(self).position() > old(self).position(),
            agrees(&*old(self), &*final(self), r, partition_columns_at(old(self).toks(), old(self).position()),
                |v: Vec<ObjectName>| names_view(v@)),
    {
        match self.expect_token(&Token::LParen, "(") {
            Ok(()) => {},
            Err(e) => return Err(e),
        }
        proof { lemma_object_name_bounds(self.toks(), self.position()); }
        let cols = match self.parse_object_name_list() {
            Ok(c) => c,
            Err(e) => return Err(e),
        };
        match self.expect_token(&Token::RParen, ")") {
            Ok(()) => Ok(cols),
            Err(e) => Err(e),
        }
    }

    /// `PARTITIONS n` (or `SUBPARTITIONS n`), the count read only when an integer
    /// follows the word.
    fn parse_count_after(&mut self, word: Keyword) -> (r: Option<u32>)
        requires
            old(self).wf(),
        ensures
            final(self).wf(),
            old(self).steps(&*final(self)),
            old(self).warnings() == final(self).warnings(),
            r == count_after_at(old(self).toks(), old(self).position(), word).0,
            old(self).moved_to(&*final(self), count_after_at(old(self).toks(), old(self).position(), word).1),
    {
        if !self.match_keyword(word) {
            return None;
        }
        self.advance();
        let n: Option<i64> = match self.peek() {
            Token::Integer(n) => Some(*n),
            _ => None,
        };
        match n {
            Some(v) => {
                self.advance();
                Some(v as u32)
            },
            None => None,
        }
    }

    /// `PARTITION BY strategy (columns) [INTERVAL (expr)] [PARTITIONS n] [(definitions)]`
    /// after `PARTITION`.
    fn parse_partition_by(&mut self) -> (r: Result<PartitionClause, ParserError>)
        requires
            old(self).wf(),
        ensures
            old(self).steps(&*final(self)),
            r is Ok ==> final(self).position() > old(self).position(),
            match partition_head_at(old(self).toks(), old(self).position()) {
                Err((q, e)) => r is Err && old(self).moved_to(&*final(self), q) && old(self).reports(r->Err_0, q, e),
                Ok((h, m)) => {
                    let toks = old(self).toks();
                    let no_interval = h.0 != Strategy::Range || !kw_at(toks, m, Keyword::INTERVAL);
                    &&& r is Ok ==> partition_clause_head(r->Ok_0) == h
                    &&& no_interval && r is Ok ==> partition_clause_count(r->Ok_0)
                        == if h.0 == Strategy::List { None } else { count_after_at(toks, m, Keyword::PARTITIONS).0 }
                    &&& no_interval && !kw_at(toks, m, Keyword::PARTITIONS) && !(tok_at(toks, m) is LParen) ==> r is Ok
                        && partition_clause_defs(r->Ok_0).len() == 0 && partition_clause_count(r->Ok_0) is None
                        && !partition_clause_has_interval(r->Ok_0) && old(self).moved_to(&*final(self), m)
                },
            },
            match partition_by_at(old(self).toks(), old(self).position()) {
                Some(Ok((v, q))) => r is Ok && partition_by_matches(old(self).toks(), r->Ok_0, v) && old(self).moved_to(&*final(self), q),
                Some(Err((q, e))) => r is Err && old(self).moved_to(&*final(self), q) && old(self).reports(r->Err_0, q, e),
                None => true,
            },
    {
        self.advance();
        match self.expect_keyword(Keyword::BY) {
            Ok(()) => {},
            Err(e) => return Err(e),
        }
        let (strategy, is_columns) = match self.parse_partition_strategy() {
            Ok(s) => s,
            Err(e) => return Err(e),
        };
        let columns = match self.parse_partition_columns() {
            Ok(c) => c,
            Err(e) => return Err(e),
        };
        let interval: Option<Expr> = if strategy == Strategy::Range && self.match_keyword(Keyword::INTERVAL) {
            self.advance();
            match self.parse_paren_expr() {
                Ok(e) => Some(e),
                Err(e) => return Err(e),
            }
        } else {
            None
        };
        let partitions_count = self.parse_count_after(Keyword::PARTITIONS);
        let partitions = match self.parse_partition_defs() {
            Ok(p) => p,
            Err(e) => return Err(e),
        };
        Ok(match strategy {
            Strategy::Range => PartitionClause::Range { columns, interval, is_columns, partitions_count, partitions },
            Strategy::List => PartitionClause::List { columns, is_columns, partitions },
            Strategy::Hash => PartitionClause::Hash { columns, partitions_count, partitions },
        })
    }

    /// `SUBPARTITION BY strategy (columns) [SUBPARTITIONS n] [(definitions)]` after
    /// `SUBPARTITION`; the count is read for hash subpartitioning only.
    fn parse_subpartition_by(&mut self) -> (r: Result<(PartitionClause, Option<u32>), ParserError>)
        requires
            old(self).wf(),
        ensures
            old(self).steps(&*final(self)),
            r is Ok ==> final(self).position() > old(self).position(),
            match partition_head_at(old(self).toks(), old(self).position()) {
                Err((q, e)) => r is Err && old(self).moved_to(&*final(self), q) && old(self).reports(r->Err_0, q, e),
                Ok((h, m)) => {
                    let toks = old(self).toks();
                    let cnt = if h.0 == Strategy::Hash { count_after_at(toks, m, Keyword::SUBPARTITIONS) } else { (None, m) };
                    match subpartition_defs_at(toks, cnt.1) {
                        Some(Ok((defs, q))) => r is Ok && partition_clause_head(r->Ok_0.0) == h && r->Ok_0.1 == cnt.0
                            && partition_defs_view(partition_clause_defs(r->Ok_0.0)) == defs
                            && partition_clause_count(r->Ok_0.0) == (if h.0 == Strategy::Hash { cnt.0 } else { None })
                            && !partition_clause_has_interval(r->Ok_0.0) && old(self).moved_to(&*final(self), q),
                        Some(Err((q, e))) => r is Err && old(self).moved_to(&*final(self), q) && old(self).reports(r->Err_0, q, e),
                        None => r is Ok ==> partition_clause_head(r->Ok_0.0) == h && r->Ok_0.1 == cnt.0,
                    }
                },
            },
    {
        self.advance();
        match self.expect_keyword(Keyword::BY) {
            Ok(()) => {},
            Err(e) => return Err(e),
        }
        let (strategy, is_columns) = match self.parse_partition_strategy() {
            Ok(s) => s,
            Err(e) => return Err(e),
        };
        let columns = match self.parse_partition_columns() {
            Ok(c) => c,
            Err(e) => return Err(e),
        };
        let count: Option<u32> = if strategy == Strategy::Hash && self.match_keyword(Keyword::SUBPARTITIONS) {
            self.parse_count_after(Keyword::SUBPARTITIONS)
        } else {
            None
        };
        let parts = match self.parse_subpartition_defs() {
            Ok(p) => p,
            Err(e) => return Err(e),
        };
        Ok((
            match strategy {
                Strategy::Range => PartitionClause::Range {
                    columns,
                    interval: None,
                    is_columns,
                    partitions_count: None,
                    partitions: parts,
                },
                Strategy::List => PartitionClause::List { columns, is_columns, partitions: parts },
                Strategy::Hash => PartitionClause::Hash { columns, partitions_count: count, partitions: parts },
            },
            count,
        ))
    }
}

/// Whether a partitioning clause has no partition definitions.
pub open spec fn has_no_partitions(c: PartitionClause) -> bool {
    match c {
        PartitionClause::Range { partitions, .. } => partitions@.len() == 0,
        PartitionClause::List { partitions, .. } => partitions@.len() == 0,
        PartitionClause::Hash { partitions, .. } => partitions@.len() == 0,
    }
}

fn no_partitions(c: &PartitionClause) -> (r: bool)
    ensures
        r == has_no_partitions(*c),
{
    match c {
        PartitionClause::Range { partitions, .. } => partitions.len() == 0,
        PartitionClause::List { partitions, .. } => partitions.len() == 0,
        PartitionClause::Hash { partitions, .. } => partitions.len() == 0,
    }
}

/// The clause `c` with its partition definitions replaced by `parts`.
fn with_partitions(c: PartitionClause, parts: Vec<PartitionDef>) -> (r: PartitionClause)
    ensures
        r is Range <==> c is Range,
        r is List <==> c is List,
        r is Hash <==> c is Hash,
        r == match c {
            PartitionClause::Range { columns, interval, is_columns, partitions_count, .. } => PartitionClause::Range {
                columns,
                interval,
                is_columns,
                partitions_count,
                partitions: parts,
            },
            PartitionClause::List { columns, is_columns, .. } => PartitionClause::List { columns, is_columns, partitions: parts },
            PartitionClause::Hash { columns, partitions_count, .. } => PartitionClause::Hash { columns, partitions_count, partitions: parts },
        },
{
    match c {
        PartitionClause::Range { columns, interval, is_columns, partitions_count, .. } => PartitionClause::Range {
            columns,
            interval,
            is_columns,
            partitions_count,
            partitions: parts,
        },
        PartitionClause::List { columns, is_columns, .. } => PartitionClause::List { columns, is_columns, partitions: parts },
        PartitionClause::Hash { columns, partitions_count, .. } => PartitionClause::Hash {
            columns,
            partitions_count,
            partitions: parts,
        },
    }
}

// ────────────────────────────────────────────────────────────────
// CREATE TABLE
// ────────────────────────────────────────────────────────────────

/// Whether a clause that may follow the column list of CREATE TABLE starts at `i`.
pub open spec fn starts_tail_clause(toks: Seq<Token>, i: int) -> bool {
    kw_at(toks, i, Keyword::INHERITS) || kw_at(toks, i, Keyword::COMPRESS) || kw_at(toks, i, Keyword::NOCOMPRESS)
        || ident_word_at(toks, i, "ILM"@) || kw_at(toks, i, Keyword::PARTITION) || kw_at(toks, i, Keyword::SUBPARTITION)
        || kw_at(toks, i, Keyword::TABLESPACE) || kw_at(toks, i, Keyword::ON) || kw_at(toks, i, Keyword::WITH)
        || kw_at(toks, i, Keyword::DISTRIBUTE) || kw_at(toks, i, Keyword::ENABLE_P) || kw_at(toks, i, Keyword::DISABLE_P)
        || kw_at(toks, i, Keyword::TO) || kw_at(toks, i, Keyword::TABLE) || kw_at(toks, i, Keyword::COMMENT)
        || kw_at(toks, i, Keyword::DEFAULT) || kw_at(toks, i, Keyword::CHARACTER) || kw_at(toks, i, Keyword::CHARSET)
        || kw_at(toks, i, Keyword::COLLATE) || kw_at(toks, i, Keyword::ENCRYPTION)
}

/// An element of the column list of CREATE TABLE as plain values.
pub enum ElementView {
    Column(ColumnView),
    Constraint(TableConstraintView),
    Like((Seq<Seq<char>>, Seq<(bool, Seq<char>)>)),
}

/// The element at `i`; `None` where a column or a constraint holds a part that its spec
/// function does not state (see `column_def_at` and `table_constraint_at`).
pub open spec fn table_element_at(toks: Seq<Token>, i: int) -> Option<Outcome<ElementView>> {
    if starts_table_constraint(toks, i) {
        match table_constraint_at(toks, i) {
            Some(Ok((v, q))) => Some(Ok((ElementView::Constraint(v), q))),
            Some(Err(e)) => Some(Err(e)),
            None => None,
        }
    } else if kw_at(toks, i, Keyword::LIKE) {
        match like_clause_at(toks, i + 1) {
            Ok((v, q)) => Some(Ok((ElementView::Like(v), q))),
            Err(e) => Some(Err(e)),
        }
    } else if ident_text(tok_at(toks, i)) is None {
        Some(Err((i, "identifier"@)))
    } else {
        match column_def_at(toks, i) {
            Some(Ok((c, q))) => Some(Ok((ElementView::Column(c), q))),
            Some(Err(e)) => Some(Err(e)),
            None => None,
        }
    }
}

/// The elements `element, ... )` from `j` on, after `acc`.
pub open spec fn elements_from(toks: Seq<Token>, j: int, acc: Seq<ElementView>) -> Option<Outcome<Seq<ElementView>>>
    decreases toks.len() - j,
{
    match table_element_at(toks, j) {
        None => None,
        Some(Err(e)) => Some(Err(e)),
        Some(Ok((v, q))) => if q <= j || q >= toks.len() {
            None
        } else if tok_at(toks, q) is Comma {
            elements_from(toks, q + 1, acc.push(v))
        } else if tok_at(toks, q) is RParen {
            Some(Ok((acc.push(v), q + 1)))
        } else {
            Some(Err((q, ")"@)))
        },
    }
}

/// The columns among `els`, in order.
pub open spec fn column_views(els: Seq<ElementView>) -> Seq<ColumnView>
    decreases els.len(),
{
    if els.len() == 0 {
        Seq::empty()
    } else {
        let rest = column_views(els.drop_last());
        match els.last() {
            ElementView::Column(c) => rest.push(c),
            _ => rest,
        }
    }
}

/// The table constraints among `els`, in order.
pub open spec fn constraint_views(els: Seq<ElementView>) -> Seq<TableConstraintView>
    decreases els.len(),
{
    if els.len() == 0 {
        Seq::empty()
    } else {
        let rest = constraint_views(els.drop_last());
        match els.last() {
            ElementView::Constraint(v) => rest.push(v),
            _ => rest,
        }
    }
}

/// The `LIKE` clauses among `els`, in order.
pub open spec fn like_views(els: Seq<ElementView>) -> Seq<(Seq<Seq<char>>, Seq<(bool, Seq<char>)>)>
    decreases els.len(),
{
    if els.len() == 0 {
        Seq::empty()
    } else {
        let rest = like_views(els.drop_last());
        match els.last() {
            ElementView::Like(v) => rest.push(v),
            _ => rest,
        }
    }
}

/// The three lists that the elements `els` fill, each element in its place.
pub open spec fn elements_match(
    toks: Seq<Token>,
    cols: Seq<ColumnDef>,
    cons: Seq<TableConstraint>,
    likes: Seq<LikeClause>,
    els: Seq<ElementView>,
) -> bool {
    let cv = column_views(els);
    let tv = constraint_views(els);
    &&& cols.len() == cv.len()
    &&& forall|k: int| 0 <= k < cols.len() ==> column_matches(toks, cols[k], cv[k])
    &&& cons.len() == tv.len()
    &&& forall|k: int| 0 <= k < cons.len() ==> table_constraint_matches(toks, cons[k], tv[k])
    &&& likes.map_values(|c: LikeClause| like_view(c)) == like_views(els)
}

/// The lists after an element `v` was read are those before with it appended where it goes.
pub open spec fn element_added(
    toks: Seq<Token>,
    v: ElementView,
    cols: Seq<ColumnDef>,
    cons: Seq<TableConstraint>,
    likes: Seq<LikeClause>,
    cols2: Seq<ColumnDef>,
    cons2: Seq<TableConstraint>,
    likes2: Seq<LikeClause>,
) -> bool {
    match v {
        ElementView::Column(c) => cols2 == cols.push(cols2.last()) && column_matches(toks, cols2.last(), c)
            && cons2 == cons && likes2 == likes,
        ElementView::Constraint(c) => cons2 == cons.push(cons2.last()) && table_constraint_matches(toks, cons2.last(), c)
            && cols2 == cols && likes2 == likes,
        ElementView::Like(l) => likes2 == likes.push(likes2.last()) && like_view(likes2.last()) == l && cols2 == cols
            && cons2 == cons,
    }
}

/// Reading one more element keeps the lists matching the elements read.
pub proof fn lemma_elements_push(
    toks: Seq<Token>,
    v: ElementView,
    els: Seq<ElementView>,
    cols: Seq<ColumnDef>,
    cons: Seq<TableConstraint>,
    likes: Seq<LikeClause>,
    cols2: Seq<ColumnDef>,
    cons2: Seq<TableConstraint>,
    likes2: Seq<LikeClause>,
)
    requires
        elements_match(toks, cols, cons, likes, els),
        element_added(toks, v, cols, cons, likes, cols2, cons2, likes2),
    ensures
        elements_match(toks, cols2, cons2, likes2, els.push(v)),
{
    assert(els.push(v).drop_last() =~= els);
    assert(els.push(v).last() == v);
    let cv = column_views(els);
    let tv = constraint_views(els);
    match v {
        ElementView::Column(c) => {
            assert(column_views(els.push(v)) == cv.push(c));
            assert forall|k: int| 0 <= k < cols2.len() implies column_matches(toks, cols2[k], column_views(els.push(v))[k]) by {
                if k < cols.len() {
                    assert(cols2[k] == cols[k]);
                }
            }
        },
        ElementView::Constraint(c) => {
            assert(constraint_views(els.push(v)) == tv.push(c));
            assert forall|k: int| 0 <= k < cons2.len() implies table_constraint_matches(toks, cons2[k], constraint_views(els.push(v))[k]) by {
                if k < cons.len() {
                    assert(cons2[k] == cons[k]);
                }
            }
        },
        ElementView::Like(l) => {
            assert(like_views(els.push(v)) == like_views(els).push(l));
            assert(likes2.map_values(|c: LikeClause| like_view(c)) =~= likes.map_values(|c: LikeClause| like_view(c)).push(l));
        },
    }
}

/// No table clause follows the column list at `q`.
pub open spec fn no_tail_at(toks: Seq<Token>, q: int) -> bool {
    !starts_tail_clause(toks, q) || (kw_at(toks, q, Keyword::DEFAULT) && !kw_at(toks, q + 1, Keyword::CHARACTER)
        && !kw_at(toks, q + 1, Keyword::CHARSET) && !kw_at(toks, q + 1, Keyword::COLLATE))
}

/// The statement has none of the clauses that may follow the column list.
pub open spec fn no_table_clauses(s: CreateTableStatement) -> bool {
    &&& s.inherits@.len() == 0
    &&& s.partition_by is None
    &&& s.subpartition_by is None
    &&& s.subpartitions_count is None
    &&& s.distribute_by is None
    &&& s.to_group is None
    &&& s.tablespace is None
    &&& s.on_commit is None
    &&& s.options@.len() == 0
    &&& s.table_options@.len() == 0
    &&& s.compress is None
    &&& s.ilm is None
    &&& s.row_movement is None
}

/// Whether a table constraint starts at `i`.
pub open spec fn starts_table_constraint(toks: Seq<Token>, i: int) -> bool {
    kw_at(toks, i, Keyword::CONSTRAINT) || kw_at(toks, i, Keyword::PRIMARY) || kw_at(toks, i, Keyword::UNIQUE)
        || kw_at(toks, i, Keyword::CHECK) || kw_at(toks, i, Keyword::FOREIGN)
}

/// The table clauses after the column list of CREATE TABLE, as plain values (all but the
/// partitioning and ILM clauses).
pub struct TailView {
    pub inherits: Seq<Seq<Seq<char>>>,
    pub tablespace: Option<Seq<char>>,
    pub to_group: Option<Seq<char>>,
    pub on_commit: Option<OnCommitAction>,
    pub options: Seq<OptionView>,
    pub table_options: Seq<OptionView>,
    pub compress: Option<bool>,
    pub row_movement: Option<bool>,
    pub distribute_by: Option<DistributeView>,
    pub subpartition_by: Option<SubView>,
    pub subpartitions_count: Option<u32>,
}

/// No table clause read yet.
pub open spec fn empty_tail_view() -> TailView {
    TailView {
        inherits: Seq::empty(),
        tablespace: None,
        to_group: None,
        on_commit: None,
        options: Seq::empty(),
        table_options: Seq::empty(),
        compress: None,
        row_movement: None,
        distribute_by: None,
        subpartition_by: None,
        subpartitions_count: None,
    }
}

/// The view of an optional distribution clause.
pub open spec fn opt_distribute_view(d: Option<DistributeClause>) -> Option<DistributeView> {
    match d {
        Some(x) => Some(distribute_view(x)),
        None => None,
    }
}

/// The table clauses of a statement, as plain values.
pub open spec fn statement_tail_view(s: CreateTableStatement) -> TailView {
    TailView {
        inherits: names_view(s.inherits@),
        tablespace: opt_text(s.tablespace),
        to_group: opt_text(s.to_group),
        on_commit: s.on_commit,
        options: options_view(s.options@),
        table_options: options_view(s.table_options@),
        compress: s.compress,
        row_movement: s.row_movement,
        distribute_by: opt_distribute_view(s.distribute_by),
        subpartition_by: opt_sub_view(s.subpartition_by),
        subpartitions_count: s.subpartitions_count,
    }
}

/// What the table clause at `i` does to the clauses `tv` read so far: the new clauses and
/// where the clause ends, or where it fails. `None` for the partitioning and ILM clauses,
/// and where no clause starts.
pub open spec fn tail_step_at(toks: Seq<Token>, i: int, tv: TailView) -> Option<Outcome<TailView>> {
    if kw_at(toks, i, Keyword::COMPRESS) || kw_at(toks, i, Keyword::NOCOMPRESS) {
        Some(Ok((TailView { compress: Some(kw_at(toks, i, Keyword::COMPRESS)), ..tv }, i + 1)))
    } else if kw_at(toks, i, Keyword::TABLESPACE) {
        Some(match ident_at(toks, i + 1) {
            Ok((t, q)) => Ok((TailView { tablespace: Some(t), ..tv }, q)),
            Err(e) => Err(e),
        })
    } else if kw_at(toks, i, Keyword::ON) {
        Some(match on_commit_at(toks, i) {
            Ok((a, q)) => Ok((TailView { on_commit: Some(a), ..tv }, q)),
            Err(e) => Err(e),
        })
    } else if kw_at(toks, i, Keyword::ENABLE_P) || kw_at(toks, i, Keyword::DISABLE_P) {
        Some(match row_movement_at(toks, i) {
            Ok((_, q)) => Ok((TailView { row_movement: Some(kw_at(toks, i, Keyword::ENABLE_P)), ..tv }, q)),
            Err(e) => Err(e),
        })
    } else if kw_at(toks, i, Keyword::DISTRIBUTE) {
        Some(match distribute_by_at(toks, i) {
            Ok((d, q)) => Ok((TailView { distribute_by: Some(d), ..tv }, q)),
            Err(e) => Err(e),
        })
    } else if kw_at(toks, i, Keyword::WITH) {
        Some(match option_list_at(toks, i + 1, true) {
            Ok((o, q)) => Ok((TailView { options: tv.options + o, ..tv }, q)),
            Err(e) => Err(e),
        })
    } else if kw_at(toks, i, Keyword::TO) {
        Some(if !kw_at(toks, i + 1, Keyword::GROUP_P) {
            Err((i + 1, keyword_text(Keyword::GROUP_P)))
        } else {
            match ident_at(toks, i + 2) {
                Ok((g, q)) => Ok((TailView { to_group: Some(g), ..tv }, q)),
                Err(e) => Err(e),
            }
        })
    } else if kw_at(toks, i, Keyword::TABLE) {
        Some(if !kw_at(toks, i + 1, Keyword::OPTION) {
            Err((i + 1, keyword_text(Keyword::OPTION)))
        } else {
            match option_list_at(toks, i + 2, false) {
                Ok((o, q)) => Ok((TailView { table_options: tv.table_options + o, ..tv }, q)),
                Err(e) => Err(e),
            }
        })
    } else if kw_at(toks, i, Keyword::COMMENT) {
        let j = if tok_at(toks, i + 1) is Eq { i + 2 } else { i + 1 };
        Some(match tok_at(toks, j) {
            Token::StringLiteral(text) => Ok((TailView { table_options: tv.table_options.push(("COMMENT"@, text@)), ..tv }, j + 1)),
            _ => Err((j, "string literal"@)),
        })
    } else if kw_at(toks, i, Keyword::ENCRYPTION) {
        let j = if kw_at(toks, i + 1, Keyword::COLUMN) { i + 2 } else { i + 1 };
        Some(match ident_at(toks, j) {
            Ok((t, q)) => Ok((TailView { table_options: tv.table_options.push(("ENCRYPTION COLUMN"@, t)), ..tv }, q)),
            Err(e) => Err(e),
        })
    } else if kw_at(toks, i, Keyword::CHARACTER) || kw_at(toks, i, Keyword::CHARSET) || kw_at(toks, i, Keyword::COLLATE)
        || (kw_at(toks, i, Keyword::DEFAULT) && (kw_at(toks, i + 1, Keyword::CHARACTER) || kw_at(toks, i + 1, Keyword::CHARSET)
        || kw_at(toks, i + 1, Keyword::COLLATE))) {
        let j = if kw_at(toks, i, Keyword::DEFAULT) { i + 1 } else { i };
        Some(match charset_option_at(toks, j) {
            Ok(((k, v), q)) => Ok((TailView { table_options: tv.table_options.push((k, v)), ..tv }, q)),
            Err(e) => Err(e),
        })
    } else if kw_at(toks, i, Keyword::INHERITS) {
        Some(match partition_columns_at(toks, i + 1) {
            Ok((names, q)) => Ok((TailView { inherits: tv.inherits + names, ..tv }, q)),
            Err(e) => Err(e),
        })
    } else {
        None
    }
}

/// The table clauses from `p` on, applied to `tv` and to the partitioning `pb` read so
/// far and to the ILM policy `il` read so far, up to the first token that starts none (a
/// later clause replaces an earlier one; an ILM clause other than `ILM ADD` keeps it).
/// `None` where a clause comes that its spec function does not state.
pub open spec fn tails_from(toks: Seq<Token>, p: int, tv: TailView, pb: Option<PartitionByView>, il: Option<IlmView>) -> Option<Outcome<(TailView, Option<PartitionByView>, Option<IlmView>)>>
    decreases toks.len() - p,
{
    if no_tail_at(toks, p) {
        Some(Ok(((tv, pb, il), p)))
    } else if kw_at(toks, p, Keyword::PARTITION) {
        match partition_by_at(toks, p) {
            None => None,
            Some(Err(e)) => Some(Err(e)),
            Some(Ok((v, q))) => if q <= p || q > toks.len() { None } else { tails_from(toks, q, tv, Some(v), il) },
        }
    } else if ident_word_at(toks, p, "ILM"@) {
        match ilm_at(toks, p) {
            None => None,
            Some(Err(e)) => Some(Err(e)),
            Some(Ok((v, q))) => if q <= p || q > toks.len() {
                None
            } else {
                tails_from(toks, q, tv, pb, if v is Some { v } else { il })
            },
        }
    } else if kw_at(toks, p, Keyword::SUBPARTITION) {
        match subpartition_by_at(toks, p) {
            None => None,
            Some(Err(e)) => Some(Err(e)),
            Some(Ok(((sv, c), q))) => {
                let tv2 = TailView { subpartition_by: Some(sv), subpartitions_count: c, ..tv };
                match pending_parts_at(toks, q, pb) {
                    None => None,
                    Some(Err(e)) => Some(Err(e)),
                    Some(Ok((pb2, q2))) => if q2 <= p || q2 > toks.len() { None } else { tails_from(toks, q2, tv2, pb2, il) },
                }
            },
        }
    } else {
        match tail_step_at(toks, p, tv) {
            None => None,
            Some(Err(e)) => Some(Err(e)),
            Some(Ok((tv2, q))) => if q <= p || q > toks.len() { None } else { tails_from(toks, q, tv2, pb, il) },
        }
    }
}

/// After `SUBPARTITION BY ...` ends at `q`: where the partitioning `pb` read before has no
/// definitions, the definitions that follow at `q` become its own (an empty list leaves
/// it as it was).
pub open spec fn pending_parts_at(toks: Seq<Token>, q: int, pb: Option<PartitionByView>) -> Option<Outcome<Option<PartitionByView>>> {
    match pb {
        Some(v) => if v.partitions.len() == 0 {
            match partition_defs_at(toks, q) {
                None => None,
                Some(Err(e)) => Some(Err(e)),
                Some(Ok((ps, q2))) => Some(Ok((if ps.len() > 0 { Some(PartitionByView { partitions: ps, ..v }) } else { pb }, q2))),
            }
        } else {
            Some(Ok((pb, q)))
        },
        None => Some(Ok((pb, q))),
    }
}

/// The partitioning `pb` of a statement is the one that `v` describes (none for `None`).
pub open spec fn partitioning_matches(toks: Seq<Token>, pb: Option<PartitionClause>, v: Option<PartitionByView>) -> bool {
    match v {
        None => pb is None,
        Some(x) => pb is Some && partition_by_matches(toks, pb->Some_0, x),
    }
}

/// What follows the column list of CREATE TABLE, gathered clause by clause.
struct TableTail {
    inherits: Vec<ObjectName>,
    partition_by: Option<PartitionClause>,
    subpartition_by: Option<PartitionClause>,
    subpartitions_count: Option<u32>,
    distribute_by: Option<DistributeClause>,
    to_group: Option<String>,
    tablespace: Option<String>,
    on_commit: Option<OnCommitAction>,
    options: Vec<(String, String)>,
    table_options: Vec<(String, String)>,
    compress: Option<bool>,
    ilm: Option<IlmPolicy>,
    row_movement: Option<bool>,
}

/// The plain clauses gathered so far.
spec fn tail_view(t: TableTail) -> TailView {
    TailView {
        inherits: names_view(t.inherits@),
        tablespace: opt_text(t.tablespace),
        to_group: opt_text(t.to_group),
        on_commit: t.on_commit,
        options: options_view(t.options@),
        table_options: options_view(t.table_options@),
        compress: t.compress,
        row_movement: t.row_movement,
        distribute_by: opt_distribute_view(t.distribute_by),
        subpartition_by: opt_sub_view(t.subpartition_by),
        subpartitions_count: t.subpartitions_count,
    }
}

impl Parser {
    /// An option value: a string literal, an identifier, an integer, or a keyword's spelling.
    fn parse_option_value(&mut self) -> (r: Result<String, ParserError>)
        requires
            old(self).wf(),
        ensures
            final(self).wf(),
            old(self).steps(&*final(self)),
            r is Ok ==> final(self).position() == old(self).position() + 1,
            agrees(&*old(self), &*final(self), r, option_value_at(old(self).toks(), old(self).position()), |v: String| v@),
    {
        let text: Option<String> = match self.peek() {
            Token::StringLiteral(s) => Some(s.clone()),
            Token::Ident(s) => Some(s.clone()),
            Token::Integer(n) => {
                let mut t = String::new();
                push_signed(&mut t, *n);
                Some(t)
            },
            Token::Keyword(k) => Some(String::from_str(k.as_str())),
            _ => None,
        };
        match text {
            Some(t) => {
                self.advance();
                Ok(t)
            },
            None => Err(self.unexpected("option value")),
        }
    }

    /// `( key = value, ... )`; with `eq_required` false the `=` may be left out.
    fn parse_option_list(&mut self, eq_required: bool, out: &mut Vec<(String, String)>) -> (r: Result<(), ParserError>)
        requires
            old(self).wf(),
        ensures
            old(self).steps(&*final(self)),
            r is Ok ==> final(self).position() > old(self).position(),
            options_view(final(out)@).take(old(out)@.len() as int) == options_view(old(out)@),
            match option_list_at(old(self).toks(), old(self).position(), eq_required) {
                Ok((o, q)) => r is Ok && options_view(final(out)@) == options_view(old(out)@) + o
                    && old(self).moved_to(&*final(self), q),
                Err((q, e)) => r is Err && old(self).moved_to(&*final(self), q) && old(self).reports(r->Err_0, q, e),
            },
    {
        let ghost out0 = options_view(out@);
        match self.expect_token(&Token::LParen, "(") {
            Ok(()) => {},
            Err(e) => {
                assert(options_view(out@).take(out0.len() as int) =~= out0);
                return Err(e);
            },
        }
        let ghost start = self.position();
        assert(options_view(out@).skip(out0.len() as int) =~= Seq::<OptionView>::empty());
        assert(options_view(out@).take(out0.len() as int) =~= out0);
        loop
            invariant_except_break
                option_list_items(old(self).toks(), start, eq_required, Seq::empty())
                    == option_list_items(self.toks(), self.position(), eq_required, options_view(out@).skip(out0.len() as int)),
            invariant
                old(self).steps(&*self),
                old(self).moved_to(&*self, self.position()),
                self.position() > old(self).position(),
                start == old(self).position() + 1,
                out0 == options_view(old(out)@),
                out0.len() <= options_view(out@).len(),
                options_view(out@).take(out0.len() as int) == out0,
                option_list_at(old(self).toks(), old(self).position(), eq_required)
                    == option_list_items(old(self).toks(), start, eq_required, Seq::empty()),
            ensures
                option_list_items(old(self).toks(), start, eq_required, Seq::empty()) == if self.current() is RParen {
                    Outcome::<Seq<OptionView>>::Ok((options_view(out@).skip(out0.len() as int), self.position() + 1))
                } else {
                    Outcome::<Seq<OptionView>>::Err((self.position(), ")"@))
                },
            decreases self.toks().len() - self.position(),
        {
            let key = match self.parse_identifier() {
                Ok(k) => k,
                Err(e) => return Err(e),
            };
            if eq_required {
                match self.expect_token(&Token::Eq, "=") {
                    Ok(()) => {},
                    Err(e) => return Err(e),
                }
            } else if self.match_token(&Token::Eq) {
                self.advance();
            }
            let val = match self.parse_option_value() {
                Ok(v) => v,
                Err(e) => return Err(e),
            };
            let ghost before = options_view(out@);
            out.push((key, val));
            proof {
                assert(options_view(out@) =~= before.push((key@, val@)));
                assert(options_view(out@).take(out0.len() as int) =~= before.take(out0.len() as int));
                assert(options_view(out@).skip(out0.len() as int) =~= before.skip(out0.len() as int).push((key@, val@)));
            }
            if !self.match_token(&Token::Comma) {
                break;
            }
            self.advance();
        }
        proof {
            assert(options_view(out@) =~= out0 + options_view(out@).skip(out0.len() as int));
        }
        self.expect_token(&Token::RParen, ")")
    }

    /// `( column, ... )` of distribution columns.
    pub(crate) fn parse_paren_identifiers(&mut self) -> (r: Result<Vec<String>, ParserError>)
        requires
            old(self).wf(),
        ensures
            old(self).steps(&*final(self)),
            r is Ok ==> final(self).position() > old(self).position(),
            agrees(&*old(self), &*final(self), r, paren_idents_at(old(self).toks(), old(self).position()),
                |v: Vec<String>| strings_view(v@)),
    {
        match self.expect_token(&Token::LParen, "(") {
            Ok(()) => {},
            Err(e) => return Err(e),
        }
        let cols = match self.parse_identifier_list() {
            Ok(c) => c,
            Err(e) => return Err(e),
        };
        match self.expect_token(&Token::RParen, ")") {
            Ok(()) => Ok(cols),
            Err(e) => Err(e),
        }
    }

    /// `DISTRIBUTE BY {HASH (cols) | REPLICATION | ROUNDROBIN (cols) | MODULO (cols)}`
    /// after `DISTRIBUTE` (the strategy words as identifiers, any case).
    fn parse_distribute_by(&mut self) -> (r: Result<DistributeClause, ParserError>)
        requires
            old(self).wf(),
        ensures
            old(self).steps(&*final(self)),
            r is Ok ==> final(self).position() > old(self).position(),
            agrees(&*old(self), &*final(self), r, distribute_by_at(old(self).toks(), old(self).position()),
                |d: DistributeClause| distribute_view(d)),
    {
        self.advance();
        match self.expect_keyword(Keyword::BY) {
            Ok(()) => {},
            Err(e) => return Err(e),
        }
        if self.match_ident_str("HASH") {
            self.advance();
            return match self.parse_paren_identifiers() {
                Ok(columns) => Ok(DistributeClause::Hash { columns }),
                Err(e) => Err(e),
            };
        }
        if self.match_ident_str("REPLICATION") {
            self.advance();
            return Ok(DistributeClause::Replication);
        }
        if self.match_ident_str("ROUNDROBIN") {
            self.advance();
            return match self.parse_paren_identifiers() {
                Ok(columns) => Ok(DistributeClause::RoundRobin { columns }),
                Err(e) => Err(e),
            };
        }
        if self.match_ident_str("MODULO") {
            self.advance();
            return match self.parse_paren_identifiers() {
                Ok(columns) => Ok(DistributeClause::Modulo { columns }),
                Err(e) => Err(e),
            };
        }
        Err(self.unexpected("HASH, REPLICATION, ROUNDROBIN, or MODULO"))
    }

    /// Skips tokens up to (not including) the first that `stop` accepts or the end.
    fn skip_until_ilm_end(&mut self)
        requires
            old(self).wf(),
        ensures
            old(self).steps(&*final(self)),
            old(self).warnings() == final(self).warnings(),
            old(self).moved_to(&*final(self), ilm_skip_end(old(self).toks(), old(self).position())),
    {
        loop
            invariant
                old(self).steps(&*self),
                old(self).warnings() == self.warnings(),
                old(self).moved_to(&*self, self.position()),
                ilm_skip_end(self.toks(), self.position()) == ilm_skip_end(old(self).toks(), old(self).position()),
            ensures
                ilm_skip_end(self.toks(), self.position()) == self.position(),
            decreases self.toks().len() - self.position(),
        {
            let stop = self.match_keyword(Keyword::PARTITION) || self.match_keyword(Keyword::WITH)
                || self.match_token(&Token::Semicolon) || self.match_token(&Token::RParen) || self.match_token(&Token::Eof)
                || self.pos() >= self.toks_len();
            if stop {
                break;
            }
            self.advance();
        }
    }

    /// The policy after `ILM ADD`: `[POLICY] ... AFTER n unit OF NO MODIFICATION
    /// [ON (condition)]`; the words before `AFTER` are passed over, and so are the two
    /// tokens after `OF`.
    pub fn parse_ilm_policy_body(&mut self) -> (r: Result<IlmPolicy, ParserError>)
        requires
            old(self).wf(),
        ensures
            old(self).steps(&*final(self)),
            r is Ok ==> final(self).position() > old(self).position(),
            match ilm_policy_at(old(self).toks(), old(self).position()) {
                Err((q, e)) => r is Err && old(self).moved_to(&*final(self), q) && old(self).reports(r->Err_0, q, e),
                Ok(((n, u), q)) => {
                    let toks = old(self).toks();
                    &&& r is Ok ==> r->Ok_0.after_n == n && r->Ok_0.unit@ == u
                    &&& !kw_at(toks, q, Keyword::ON) ==> r is Ok && r->Ok_0.condition is None
                        && old(self).moved_to(&*final(self), q)
                    &&& kw_at(toks, q, Keyword::ON) && paren_leaf_at(toks, q + 1) ==> r is Ok && r->Ok_0.condition is Some
                        && leaf_value(toks, q + 2, r->Ok_0.condition->Some_0)
                        && old(self).moved_to(&*final(self), paren_leaf_end(toks, q + 1))
                },
            },
    {
        if self.match_ident_str("POLICY") {
            self.advance();
        }
        let ghost j0 = self.position();
        loop
            invariant
                old(self).steps(&*self),
                old(self).moved_to(&*self, self.position()),
                j0 == (if ident_word_at(old(self).toks(), old(self).position(), "POLICY"@) { old(self).position() + 1 } else { old(self).position() }),
                first_after_or_end(self.toks(), self.position()) == first_after_or_end(self.toks(), j0),
            ensures
                old(self).moved_to(&*self, first_after_or_end(self.toks(), j0)),
                j0 == (if ident_word_at(old(self).toks(), old(self).position(), "POLICY"@) { old(self).position() + 1 } else { old(self).position() }),
            decreases self.toks().len() - self.position(),
        {
            let stop = self.match_keyword(Keyword::AFTER) || self.match_token(&Token::Eof) || self.pos() >= self.toks_len();
            if stop {
                break;
            }
            self.advance();
        }
        match self.expect_keyword(Keyword::AFTER) {
            Ok(()) => {},
            Err(e) => return Err(e),
        }
        let n: Option<i64> = match self.peek() {
            Token::Integer(n) => Some(*n),
            _ => None,
        };
        let after_n: u64 = match n {
            Some(v) => {
                self.advance();
                #[verifier::truncate]
                (v as u64)
            },
            None => 0,
        };
        let unit = match self.parse_identifier() {
            Ok(u) => u,
            Err(e) => return Err(e),
        };
        match self.expect_keyword(Keyword::OF) {
            Ok(()) => {},
            Err(e) => return Err(e),
        }
        self.advance();
        self.advance();
        let condition: Option<Expr> = if self.match_keyword(Keyword::ON) {
            self.advance();
            match self.parse_paren_expr() {
                Ok(e) => Some(e),
                Err(e) => return Err(e),
            }
        } else {
            None
        };
        Ok(IlmPolicy { after_n, unit, condition })
    }

    /// `ILM ADD ...` (see `parse_ilm_policy_body`) after `ILM`; any other ILM clause is
    /// skipped up to the next clause.
    fn parse_ilm(&mut self) -> (r: Result<Option<IlmPolicy>, ParserError>)
        requires
            old(self).wf(),
            ident_word_at(old(self).toks(), old(self).position(), "ILM"@),
        ensures
            old(self).steps(&*final(self)),
            final(self).position() > old(self).position(),
            match ilm_at(old(self).toks(), old(self).position()) {
                Some(Ok((v, q))) => r is Ok && old(self).moved_to(&*final(self), q) && match v {
                    None => r->Ok_0 is None,
                    Some(x) => r->Ok_0 is Some && ilm_matches(old(self).toks(), r->Ok_0->Some_0, x),
                },
                Some(Err((q, e))) => r is Err && old(self).moved_to(&*final(self), q) && old(self).reports(r->Err_0, q, e),
                None => true,
            },
    {
        self.advance();
        if !self.match_keyword(Keyword::ADD_P) {
            self.skip_until_ilm_end();
            return Ok(None);
        }
        self.advance();
        match self.parse_ilm_policy_body() {
            Ok(p) => Ok(Some(p)),
            Err(e) => Err(e),
        }
    }

    /// `ON COMMIT {PRESERVE ROWS | DELETE ROWS | DROP}` after `ON`.
    fn parse_on_commit(&mut self) -> (r: Result<OnCommitAction, ParserError>)
        requires
            old(self).wf(),
        ensures
            old(self).steps(&*final(self)),
            r is Ok ==> final(self).position() > old(self).position(),
            agrees(&*old(self), &*final(self), r, on_commit_at(old(self).toks(), old(self).position()), |a: OnCommitAction| a),
    {
        self.advance();
        match self.expect_keyword(Keyword::COMMIT) {
            Ok(()) => {},
            Err(e) => return Err(e),
        }
        if self.match_keyword(Keyword::PRESERVE) {
            self.advance();
            return match self.expect_keyword(Keyword::ROWS) {
                Ok(()) => Ok(OnCommitAction::PreserveRows),
                Err(e) => Err(e),
            };
        }
        if self.match_keyword(Keyword::DELETE_P) {
            self.advance();
            return match self.expect_keyword(Keyword::ROWS) {
                Ok(()) => Ok(OnCommitAction::DeleteRows),
                Err(e) => Err(e),
            };
        }
        match self.expect_keyword(Keyword::DROP) {
            Ok(()) => Ok(OnCommitAction::Drop),
            Err(e) => Err(e),
        }
    }

    /// `ROW MOVEMENT` after `ENABLE` or `DISABLE`.
    fn parse_row_movement(&mut self) -> (r: Result<(), ParserError>)
        requires
            old(self).wf(),
        ensures
            old(self).steps(&*final(self)),
            r is Ok ==> final(self).position() > old(self).position(),
            agrees(&*old(self), &*final(self), r, row_movement_at(old(self).toks(), old(self).position()), |u: ()| u),
    {
        self.advance();
        match self.expect_keyword(Keyword::ROW) {
            Ok(()) => {},
            Err(e) => return Err(e),
        }
        self.expect_keyword(Keyword::MOVEMENT)
    }

    /// A character set or collation table option: `[DEFAULT] CHARACTER SET [=] name`,
    /// `[DEFAULT] CHARSET [=] name`, `[DEFAULT] COLLATE [=] name`.
    fn parse_charset_option(&mut self, out: &mut Vec<(String, String)>) -> (r: Result<(), ParserError>)
        requires
            old(self).wf(),
            kw_at(old(self).toks(), old(self).position(), Keyword::CHARACTER)
                || kw_at(old(self).toks(), old(self).position(), Keyword::CHARSET)
                || kw_at(old(self).toks(), old(self).position(), Keyword::COLLATE),
        ensures
            old(self).steps(&*final(self)),
            r is Ok ==> final(self).position() > old(self).position(),
            match charset_option_at(old(self).toks(), old(self).position()) {
                Ok(((k, v), q)) => r is Ok && options_view(final(out)@) == options_view(old(out)@).push((k, v))
                    && old(self).moved_to(&*final(self), q),
                Err((q, e)) => r is Err && final(out)@ == old(out)@ && old(self).moved_to(&*final(self), q)
                    && old(self).reports(r->Err_0, q, e),
            },
    {
        let key = if self.match_keyword(Keyword::CHARACTER) {
            String::from_str("CHARACTER SET")
        } else if self.match_keyword(Keyword::CHARSET) {
            String::from_str("CHARSET")
        } else {
            String::from_str("COLLATE")
        };
        let is_character = self.match_keyword(Keyword::CHARACTER);
        self.advance();
        if is_character && self.match_keyword(Keyword::SET) {
            self.advance();
        }
        if self.match_token(&Token::Eq) {
            self.advance();
        }
        match self.parse_identifier() {
            Ok(v) => {
                let ghost before = options_view(out@);
                out.push((key, v));
                assert(options_view(out@) =~= before.push((key@, v@)));
                Ok(())
            },
            Err(e) => Err(e),
        }
    }

    /// One clause after the column list of CREATE TABLE; says whether there was one.
    fn parse_table_tail_clause(&mut self, tail: &mut TableTail) -> (r: Result<bool, ParserError>)
        requires
            old(self).wf(),
        ensures
            old(self).steps(&*final(self)),
            r matches Ok(true) ==> final(self).position() > old(self).position(),
            r matches Ok(false) ==> old(self).moved_to(&*final(self), old(self).position()),
            ({
                let toks = old(self).toks();
                let i = old(self).position();
                &&& !starts_tail_clause(toks, i) || (kw_at(toks, i, Keyword::DEFAULT) && !kw_at(toks, i + 1, Keyword::CHARACTER)
                    && !kw_at(toks, i + 1, Keyword::CHARSET) && !kw_at(toks, i + 1, Keyword::COLLATE))
                    ==> r == Result::<bool, ParserError>::Ok(false) && old(self).moved_to(&*final(self), i) && *final(tail) == *old(tail)
                &&& kw_at(toks, i, Keyword::COMPRESS) || kw_at(toks, i, Keyword::NOCOMPRESS) ==> r == Result::<bool, ParserError>::Ok(true)
                    && old(self).moved_to(&*final(self), i + 1)
                    && *final(tail) == (TableTail { compress: Some(kw_at(toks, i, Keyword::COMPRESS)), ..*old(tail) })
                &&& kw_at(toks, i, Keyword::TABLESPACE) ==> match ident_at(toks, i + 1) {
                    Ok((t, q)) => r == Result::<bool, ParserError>::Ok(true) && old(self).moved_to(&*final(self), q)
                        && opt_text(final(tail).tablespace) == Some(t)
                        && *final(tail) == (TableTail { tablespace: final(tail).tablespace, ..*old(tail) }),
                    Err((q, e)) => r is Err && old(self).moved_to(&*final(self), q) && old(self).reports(r->Err_0, q, e),
                }
                &&& kw_at(toks, i, Keyword::ON) ==> match on_commit_at(toks, i) {
                    Ok((a, q)) => r == Result::<bool, ParserError>::Ok(true) && old(self).moved_to(&*final(self), q)
                        && *final(tail) == (TableTail { on_commit: Some(a), ..*old(tail) }),
                    Err((q, e)) => r is Err && old(self).moved_to(&*final(self), q) && old(self).reports(r->Err_0, q, e),
                }
                &&& kw_at(toks, i, Keyword::ENABLE_P) || kw_at(toks, i, Keyword::DISABLE_P) ==> match row_movement_at(toks, i) {
                    Ok((_, q)) => r == Result::<bool, ParserError>::Ok(true) && old(self).moved_to(&*final(self), q)
                        && *final(tail) == (TableTail { row_movement: Some(kw_at(toks, i, Keyword::ENABLE_P)), ..*old(tail) }),
                    Err((q, e)) => r is Err && old(self).moved_to(&*final(self), q) && old(self).reports(r->Err_0, q, e),
                }
                &&& kw_at(toks, i, Keyword::DISTRIBUTE) ==> match distribute_by_at(toks, i) {
                    Ok((d, q)) => r == Result::<bool, ParserError>::Ok(true) && old(self).moved_to(&*final(self), q)
                        && final(tail).distribute_by is Some && distribute_view(final(tail).distribute_by->Some_0) == d
                        && *final(tail) == (TableTail { distribute_by: final(tail).distribute_by, ..*old(tail) }),
                    Err((q, e)) => r is Err && old(self).moved_to(&*final(self), q) && old(self).reports(r->Err_0, q, e),
                }
                &&& kw_at(toks, i, Keyword::WITH) ==> match option_list_at(toks, i + 1, true) {
                    Ok((o, q)) => r == Result::<bool, ParserError>::Ok(true) && old(self).moved_to(&*final(self), q)
                        && options_view(final(tail).options@) == options_view(old(tail).options@) + o
                        && *final(tail) == (TableTail { options: final(tail).options, ..*old(tail) }),
                    Err((q, e)) => r is Err && old(self).moved_to(&*final(self), q) && old(self).reports(r->Err_0, q, e),
                }
                &&& kw_at(toks, i, Keyword::TO) ==> if !kw_at(toks, i + 1, Keyword::GROUP_P) {
                    r is Err && old(self).moved_to(&*final(self), i + 1)
                        && old(self).reports(r->Err_0, i + 1, keyword_text(Keyword::GROUP_P))
                } else {
                    match ident_at(toks, i + 2) {
                        Ok((g, q)) => r == Result::<bool, ParserError>::Ok(true) && old(self).moved_to(&*final(self), q)
                            && opt_text(final(tail).to_group) == Some(g)
                            && *final(tail) == (TableTail { to_group: final(tail).to_group, ..*old(tail) }),
                        Err((q, e)) => r is Err && old(self).moved_to(&*final(self), q) && old(self).reports(r->Err_0, q, e),
                    }
                }
                &&& kw_at(toks, i, Keyword::TABLE) ==> if !kw_at(toks, i + 1, Keyword::OPTION) {
                    r is Err && old(self).moved_to(&*final(self), i + 1)
                        && old(self).reports(r->Err_0, i + 1, keyword_text(Keyword::OPTION))
                } else {
                    match option_list_at(toks, i + 2, false) {
                        Ok((o, q)) => r == Result::<bool, ParserError>::Ok(true) && old(self).moved_to(&*final(self), q)
                            && options_view(final(tail).table_options@) == options_view(old(tail).table_options@) + o
                            && *final(tail) == (TableTail { table_options: final(tail).table_options, ..*old(tail) }),
                        Err((q, e)) => r is Err && old(self).moved_to(&*final(self), q) && old(self).reports(r->Err_0, q, e),
                    }
                }
                &&& kw_at(toks, i, Keyword::COMMENT) ==> {
                    let j = if tok_at(toks, i + 1) is Eq { i + 2 } else { i + 1 };
                    match tok_at(toks, j) {
                        Token::StringLiteral(text) => r == Result::<bool, ParserError>::Ok(true) && old(self).moved_to(&*final(self), j + 1)
                            && options_view(final(tail).table_options@) == options_view(old(tail).table_options@).push(("COMMENT"@, text@))
                            && *final(tail) == (TableTail { table_options: final(tail).table_options, ..*old(tail) }),
                        _ => r is Err && old(self).moved_to(&*final(self), j) && old(self).reports(r->Err_0, j, "string literal"@),
                    }
                }
                &&& kw_at(toks, i, Keyword::ENCRYPTION) ==> {
                    let j = if kw_at(toks, i + 1, Keyword::COLUMN) { i + 2 } else { i + 1 };
                    match ident_at(toks, j) {
                        Ok((t, q)) => r == Result::<bool, ParserError>::Ok(true) && old(self).moved_to(&*final(self), q)
                            && options_view(final(tail).table_options@) == options_view(old(tail).table_options@).push(("ENCRYPTION COLUMN"@, t))
                            && *final(tail) == (TableTail { table_options: final(tail).table_options, ..*old(tail) }),
                        Err((q, e)) => r is Err && old(self).moved_to(&*final(self), q) && old(self).reports(r->Err_0, q, e),
                    }
                }
                &&& kw_at(toks, i, Keyword::CHARACTER) || kw_at(toks, i, Keyword::CHARSET) || kw_at(toks, i, Keyword::COLLATE)
                    || (kw_at(toks, i, Keyword::DEFAULT) && (kw_at(toks, i + 1, Keyword::CHARACTER)
                    || kw_at(toks, i + 1, Keyword::CHARSET) || kw_at(toks, i + 1, Keyword::COLLATE))) ==> {
                    let j = if kw_at(toks, i, Keyword::DEFAULT) { i + 1 } else { i };
                    match charset_option_at(toks, j) {
                        Ok(((k, v), q)) => r == Result::<bool, ParserError>::Ok(true) && old(self).moved_to(&*final(self), q)
                            && options_view(final(tail).table_options@) == options_view(old(tail).table_options@).push((k, v))
                            && *final(tail) == (TableTail { table_options: final(tail).table_options, ..*old(tail) }),
                        Err((q, e)) => r is Err && old(self).moved_to(&*final(self), q) && old(self).reports(r->Err_0, q, e),
                    }
                }
                &&& kw_at(toks, i, Keyword::PARTITION) ==> match partition_head_at(toks, i) {
                    Err((q, e)) => r is Err && old(self).moved_to(&*final(self), q) && old(self).reports(r->Err_0, q, e),
                    Ok((h, m)) => r is Ok ==> r == Result::<bool, ParserError>::Ok(true) && final(tail).partition_by is Some
                        && partition_clause_head(final(tail).partition_by->Some_0) == h
                        && *final(tail) == (TableTail { partition_by: final(tail).partition_by, ..*old(tail) }),
                }
                &&& ident_word_at(toks, i, "ILM"@) && r is Ok ==> r == Result::<bool, ParserError>::Ok(true)
                    && *final(tail) == (TableTail { ilm: final(tail).ilm, ..*old(tail) })
                &&& kw_at(toks, i, Keyword::INHERITS) ==> match partition_columns_at(toks, i + 1) {
                    Ok((names, q)) => r == Result::<bool, ParserError>::Ok(true) && old(self).moved_to(&*final(self), q)
                        && names_view(final(tail).inherits@) == names_view(old(tail).inherits@) + names
                        && *final(tail) == (TableTail { inherits: final(tail).inherits, ..*old(tail) }),
                    Err((q, e)) => r is Err && old(self).moved_to(&*final(self), q) && old(self).reports(r->Err_0, q, e),
                }
            }),
            match tail_step_at(old(self).toks(), old(self).position(), tail_view(*old(tail))) {
                Some(Ok((tv, q))) => r == Result::<bool, ParserError>::Ok(true) && old(self).moved_to(&*final(self), q)
                    && tail_view(*final(tail)) == tv && final(tail).partition_by == old(tail).partition_by
                    && final(tail).subpartition_by == old(tail).subpartition_by
                    && final(tail).subpartitions_count == old(tail).subpartitions_count && final(tail).ilm == old(tail).ilm,
                Some(Err((q, e))) => r is Err && old(self).moved_to(&*final(self), q) && old(self).reports(r->Err_0, q, e),
                None => true,
            },
            kw_at(old(self).toks(), old(self).position(), Keyword::SUBPARTITION) ==> match subpartition_by_at(old(self).toks(), old(self).position()) {
                Some(Ok(((sv, c), q))) => forall|pv: Option<PartitionByView>| #[trigger] partitioning_matches(old(self).toks(), old(tail).partition_by, pv)
                    ==> match pending_parts_at(old(self).toks(), q, pv) {
                    Some(Ok((pv2, q2))) => r == Result::<bool, ParserError>::Ok(true) && old(self).moved_to(&*final(self), q2)
                        && tail_view(*final(tail)) == (TailView { subpartition_by: Some(sv), subpartitions_count: c, ..tail_view(*old(tail)) })
                        && partitioning_matches(old(self).toks(), final(tail).partition_by, pv2) && final(tail).ilm == old(tail).ilm,
                    Some(Err((q2, e))) => r is Err && old(self).moved_to(&*final(self), q2) && old(self).reports(r->Err_0, q2, e),
                    None => true,
                },
                Some(Err((q, e))) => r is Err && old(self).moved_to(&*final(self), q) && old(self).reports(r->Err_0, q, e),
                None => true,
            },
            ident_word_at(old(self).toks(), old(self).position(), "ILM"@) ==> match ilm_at(old(self).toks(), old(self).position()) {
                Some(Ok((v, q))) => r == Result::<bool, ParserError>::Ok(true) && old(self).moved_to(&*final(self), q)
                    && *final(tail) == (TableTail { ilm: final(tail).ilm, ..*old(tail) }) && match v {
                        None => final(tail).ilm == old(tail).ilm,
                        Some(x) => final(tail).ilm is Some && ilm_matches(old(self).toks(), final(tail).ilm->Some_0, x),
                    },
                Some(Err((q, e))) => r is Err && old(self).moved_to(&*final(self), q) && old(self).reports(r->Err_0, q, e),
                None => true,
            },
            kw_at(old(self).toks(), old(self).position(), Keyword::PARTITION) ==> match partition_by_at(old(self).toks(), old(self).position()) {
                Some(Ok((v, q))) => r == Result::<bool, ParserError>::Ok(true) && old(self).moved_to(&*final(self), q)
                    && final(tail).partition_by is Some && partition_by_matches(old(self).toks(), final(tail).partition_by->Some_0, v)
                    && *final(tail) == (TableTail { partition_by: final(tail).partition_by, ..*old(tail) }),
                Some(Err((q, e))) => r is Err && old(self).moved_to(&*final(self), q) && old(self).reports(r->Err_0, q, e),
                None => true,
            },
    {
        if self.match_keyword(Keyword::INHERITS) {
            self.advance();
            let names = match self.parse_partition_columns() {
                Ok(n) => n,
                Err(e) => return Err(e),
            };
            let mut names = names;
            let ghost before = tail.inherits@;
            let ghost added = names@;
            tail.inherits.append(&mut names);
            proof {
                assert(tail.inherits@ =~= before + added);
                assert(names_view(tail.inherits@) =~= names_view(before) + names_view(added));
            }
            return Ok(true);
        }
        if self.match_keyword(Keyword::COMPRESS) || self.match_keyword(Keyword::NOCOMPRESS) {
            tail.compress = Some(self.match_keyword(Keyword::COMPRESS));
            self.advance();
            return Ok(true);
        }
        if self.match_ident_str("ILM") {
            match self.parse_ilm() {
                Ok(Some(p)) => tail.ilm = Some(p),
                Ok(None) => {},
                Err(e) => return Err(e),
            }
            return Ok(true);
        }
        if self.match_keyword(Keyword::PARTITION) {
            match self.parse_partition_by() {
                Ok(c) => tail.partition_by = Some(c),
                Err(e) => return Err(e),
            }
            return Ok(true);
        }
        if self.match_keyword(Keyword::SUBPARTITION) {
            let (clause, count) = match self.parse_subpartition_by() {
                Ok(c) => c,
                Err(e) => return Err(e),
            };
            tail.subpartition_by = Some(clause);
            tail.subpartitions_count = count;
            let pending = match &tail.partition_by {
                Some(pb) => no_partitions(pb),
                None => false,
            };
            if pending {
                let parts = match self.parse_partition_defs() {
                    Ok(p) => p,
                    Err(e) => return Err(e),
                };
                if parts.len() > 0 {
                    let taken = tail.partition_by.take();
                    match taken {
                        Some(pb) => tail.partition_by = Some(with_partitions(pb, parts)),
                        None => {},
                    }
                }
            }
            return Ok(true);
        }
        if self.match_keyword(Keyword::TABLESPACE) {
            self.advance();
            match self.parse_identifier() {
                Ok(t) => tail.tablespace = Some(t),
                Err(e) => return Err(e),
            }
            return Ok(true);
        }
        if self.match_keyword(Keyword::ON) {
            match self.parse_on_commit() {
                Ok(a) => tail.on_commit = Some(a),
                Err(e) => return Err(e),
            }
            return Ok(true);
        }
        if self.match_keyword(Keyword::WITH) {
            self.advance();
            match self.parse_option_list(true, &mut tail.options) {
                Ok(()) => {},
                Err(e) => return Err(e),
            }
            return Ok(true);
        }
        if self.match_keyword(Keyword::DISTRIBUTE) {
            match self.parse_distribute_by() {
                Ok(d) => tail.distribute_by = Some(d),
                Err(e) => return Err(e),
            }
            return Ok(true);
        }
        if self.match_keyword(Keyword::ENABLE_P) || self.match_keyword(Keyword::DISABLE_P) {
            let enable = self.match_keyword(Keyword::ENABLE_P);
            match self.parse_row_movement() {
                Ok(()) => tail.row_movement = Some(enable),
                Err(e) => return Err(e),
            }
            return Ok(true);
        }
        if self.match_keyword(Keyword::TO) {
            self.advance();
            match self.expect_keyword(Keyword::GROUP_P) {
                Ok(()) => {},
                Err(e) => return Err(e),
            }
            match self.parse_identifier() {
                Ok(g) => tail.to_group = Some(g),
                Err(e) => return Err(e),
            }
            return Ok(true);
        }
        if self.match_keyword(Keyword::TABLE) {
            self.advance();
            match self.expect_keyword(Keyword::OPTION) {
                Ok(()) => {},
                Err(e) => return Err(e),
            }
            match self.parse_option_list(false, &mut tail.table_options) {
                Ok(()) => {},
                Err(e) => return Err(e),
            }
            return Ok(true);
        }
        if self.match_keyword(Keyword::COMMENT) {
            self.advance();
            if self.match_token(&Token::Eq) {
                self.advance();
            }
            let text: Option<String> = match self.peek() {
                Token::StringLiteral(s) => Some(s.clone()),
                _ => None,
            };
            match text {
                Some(t) => {
                    self.advance();
                    let ghost before = tail.table_options@;
                    let key = String::from_str("COMMENT");
                    tail.table_options.push((key, t));
                    proof {
                        assert(options_view(tail.table_options@) =~= options_view(before).push(("COMMENT"@, t@)));
                    }
                },
                None => return Err(self.unexpected("string literal")),
            }
            return Ok(true);
        }
        if self.match_keyword(Keyword::DEFAULT) {
            let next = self.peek_at(1);
            let charset_next = next.same_as(&Token::Keyword(Keyword::CHARACTER)) || next.same_as(&Token::Keyword(Keyword::CHARSET))
                || next.same_as(&Token::Keyword(Keyword::COLLATE));
            if charset_next {
                self.advance();
                match self.parse_charset_option(&mut tail.table_options) {
                    Ok(()) => {},
                    Err(e) => return Err(e),
                }
                return Ok(true);
            }
            return Ok(false);
        }
        if self.match_keyword(Keyword::CHARACTER) || self.match_keyword(Keyword::CHARSET) || self.match_keyword(Keyword::COLLATE) {
            match self.parse_charset_option(&mut tail.table_options) {
                Ok(()) => {},
                Err(e) => return Err(e),
            }
            return Ok(true);
        }
        if self.match_keyword(Keyword::ENCRYPTION) {
            self.advance();
            if self.match_keyword(Keyword::COLUMN) {
                self.advance();
            }
            match self.parse_identifier() {
                Ok(spec) => {
                    let ghost before = tail.table_options@;
                    let key = String::from_str("ENCRYPTION COLUMN");
                    tail.table_options.push((key, spec));
                    proof {
                        assert(options_view(tail.table_options@) =~= options_view(before).push(("ENCRYPTION COLUMN"@, spec@)));
                    }
                },
                Err(e) => return Err(e),
            }
            return Ok(true);
        }
        Ok(false)
    }

    /// One element of the column list: a table constraint, a LIKE clause, or a column.
    fn parse_table_element(
        &mut self,
        columns: &mut Vec<ColumnDef>,
        constraints: &mut Vec<TableConstraint>,
        like_clauses: &mut Vec<LikeClause>,
    ) -> (r: Result<(), ParserError>)
        requires
            old(self).wf(),
        ensures
            old(self).steps(&*final(self)),
            r is Ok ==> final(self).position() > old(self).position(),
            r is Err ==> final(columns)@ == old(columns)@ && final(constraints)@ == old(constraints)@
                && final(like_clauses)@ == old(like_clauses)@,
            match table_element_at(old(self).toks(), old(self).position()) {
                Some(Ok((v, q))) => r is Ok && old(self).moved_to(&*final(self), q) && element_added(
                    old(self).toks(),
                    v,
                    old(columns)@,
                    old(constraints)@,
                    old(like_clauses)@,
                    final(columns)@,
                    final(constraints)@,
                    final(like_clauses)@,
                ),
                Some(Err((q, e))) => r is Err && old(self).moved_to(&*final(self), q) && old(self).reports(r->Err_0, q, e),
                None => true,
            },
            ({
                let toks = old(self).toks();
                let i = old(self).position();
                &&& starts_table_constraint(toks, i) && r is Ok ==> final(columns)@ == old(columns)@
                    && final(like_clauses)@ == old(like_clauses)@
                    && final(constraints)@ == old(constraints)@.push(final(constraints)@.last())
                &&& !starts_table_constraint(toks, i) && kw_at(toks, i, Keyword::LIKE) ==> match like_clause_at(toks, i + 1) {
                    Ok((v, q)) => r is Ok && old(self).moved_to(&*final(self), q) && final(columns)@ == old(columns)@
                        && final(constraints)@ == old(constraints)@
                        && final(like_clauses)@ == old(like_clauses)@.push(final(like_clauses)@.last())
                        && like_view(final(like_clauses)@.last()) == v,
                    Err((q, e)) => r is Err && old(self).moved_to(&*final(self), q) && old(self).reports(r->Err_0, q, e),
                }
                &&& !starts_table_constraint(toks, i) && !kw_at(toks, i, Keyword::LIKE) ==> {
                    &&& ident_text(tok_at(toks, i)) is None ==> r is Err && old(self).moved_to(&*final(self), i)
                        && old(self).reports(r->Err_0, i, "identifier"@)
                    &&& r is Ok ==> final(constraints)@ == old(constraints)@ && final(like_clauses)@ == old(like_clauses)@
                        && final(columns)@ == old(columns)@.push(final(columns)@.last())
                        && Some(final(columns)@.last().name@) == ident_text(tok_at(toks, i))
                }
            }),
    {
        if self.match_keyword(Keyword::CONSTRAINT) || self.match_keyword(Keyword::PRIMARY) || self.match_keyword(Keyword::UNIQUE)
            || self.match_keyword(Keyword::CHECK) || self.match_keyword(Keyword::FOREIGN) {
            match self.parse_table_constraint() {
                Ok(c) => {
                    constraints.push(c);
                    Ok(())
                },
                Err(e) => Err(e),
            }
        } else if self.match_keyword(Keyword::LIKE) {
            self.advance();
            proof { lemma_object_name_bounds(self.toks(), self.position()); }
            match self.parse_like_clause() {
                Ok(c) => {
                    like_clauses.push(c);
                    Ok(())
                },
                Err(e) => Err(e),
            }
        } else {
            match self.parse_column_def() {
                Ok(c) => {
                    columns.push(c);
                    Ok(())
                },
                Err(e) => Err(e),
            }
        }
    }

    /// `TABLE [IF NOT EXISTS] name ( element, ... )` followed by table clauses in any
    /// order: `INHERITS`, `COMPRESS`/`NOCOMPRESS`, `ILM`, `PARTITION BY`, `SUBPARTITION BY`,
    /// `TABLESPACE`, `ON COMMIT`, `WITH (...)`, `DISTRIBUTE BY`, `ENABLE|DISABLE ROW
    /// MOVEMENT`, `TO GROUP`, `TABLE OPTION (...)`, `COMMENT`, character set and collation
    /// options, `ENCRYPTION [COLUMN]`.
    pub fn parse_create_table(&mut self, temporary: bool, unlogged: bool) -> (r: Result<CreateTableStatement, ParserError>)
        requires
            old(self).wf(),
        ensures
            old(self).steps(&*final(self)),
            !kw_at(old(self).toks(), old(self).position(), Keyword::TABLE) ==> r is Err
                && old(self).moved_to(&*final(self), old(self).position())
                && old(self).reports(r->Err_0, old(self).position(), "TABLE"@),
            r is Ok ==> {
                let toks = old(self).toks();
                let i = old(self).position() + 1;
                &&& final(self).position() > old(self).position()
                &&& r->Ok_0.temporary == temporary
                &&& r->Ok_0.unlogged == unlogged
                &&& r->Ok_0.if_not_exists == has_if_not_exists(toks, i)
                &&& object_name_at(toks, if_not_exists_end(toks, i)) matches Ok((n, _))
                &&& strings_view(r->Ok_0.name@) == object_name_at(toks, if_not_exists_end(toks, i))->Ok_0.0
            },
            kw_at(old(self).toks(), old(self).position(), Keyword::TABLE) ==> {
                let toks = old(self).toks();
                match object_name_at(toks, if_not_exists_end(toks, old(self).position() + 1)) {
                    Err((q, e)) => r is Err && old(self).moved_to(&*final(self), q) && old(self).reports(r->Err_0, q, e),
                    Ok((_, k)) => if !(tok_at(toks, k) is LParen) {
                        r is Err && old(self).moved_to(&*final(self), k) && old(self).reports(r->Err_0, k, "("@)
                    } else {
                        match elements_from(toks, k + 1, Seq::empty()) {
                            Some(Ok((els, q))) => (no_tail_at(toks, q) ==> r is Ok
                                && elements_match(toks, r->Ok_0.columns@, r->Ok_0.constraints@, r->Ok_0.like_clauses@, els)
                                && no_table_clauses(r->Ok_0) && old(self).moved_to(&*final(self), q))
                                && match tails_from(toks, q, empty_tail_view(), None, None) {
                                    Some(Ok(((tv, pb, il), m))) => r is Ok
                                        && elements_match(toks, r->Ok_0.columns@, r->Ok_0.constraints@, r->Ok_0.like_clauses@, els)
                                        && statement_tail_view(r->Ok_0) == tv && partitioning_matches(toks, r->Ok_0.partition_by, pb)
                                        && opt_ilm_matches(toks, r->Ok_0.ilm, il) && old(self).moved_to(&*final(self), m),
                                    Some(Err((m, e))) => r is Err && old(self).moved_to(&*final(self), m)
                                        && old(self).reports(r->Err_0, m, e),
                                    None => true,
                                },
                            Some(Err((q, e))) => r is Err && old(self).moved_to(&*final(self), q) && old(self).reports(r->Err_0, q, e),
                            None => true,
                        }
                    },
                }
            },
    {
        match self.expect_keyword(Keyword::TABLE) {
            Ok(()) => {},
            Err(e) => return Err(e),
        }
        let if_not_exists = self.parse_if_not_exists();
        proof { lemma_object_name_bounds(self.toks(), self.position()); }
        let name = match self.parse_object_name() {
            Ok(n) => n,
            Err(e) => return Err(e),
        };
        let ghost head_name = name;
        match self.expect_token(&Token::LParen, "(") {
            Ok(()) => {},
            Err(e) => return Err(e),
        }
        let ghost toks = self.toks();
        let ghost whole = elements_from(toks, self.position(), Seq::empty());
        let mut columns: Vec<ColumnDef> = Vec::new();
        let mut constraints: Vec<TableConstraint> = Vec::new();
        let mut like_clauses: Vec<LikeClause> = Vec::new();
        let ghost mut els: Seq<ElementView> = Seq::empty();
        proof {
            assert(like_clauses@.map_values(|c: LikeClause| like_view(c)) =~= Seq::<(Seq<Seq<char>>, Seq<(bool, Seq<char>)>)>::empty());
        }
        loop
            invariant_except_break
                whole is Some ==> elements_from(toks, self.position(), els) == whole,
            invariant
                old(self).steps(&*self),
                kw_at(old(self).toks(), old(self).position(), Keyword::TABLE),
                self.position() > old(self).position(),
                toks == old(self).toks(),
                object_name_at(toks, if_not_exists_end(toks, old(self).position() + 1)) is Ok,
                tok_at(toks, object_name_at(toks, if_not_exists_end(toks, old(self).position() + 1))->Ok_0.1) is LParen,
                whole == elements_from(toks, object_name_at(toks, if_not_exists_end(toks, old(self).position() + 1))->Ok_0.1 + 1, Seq::empty()),
                whole is Some ==> elements_match(toks, columns@, constraints@, like_clauses@, els)
                    && old(self).moved_to(&*self, self.position()),
            ensures
                old(self).steps(&*self),
                self.position() > old(self).position(),
                whole is Some ==> elements_match(toks, columns@, constraints@, like_clauses@, els)
                    && old(self).moved_to(&*self, self.position())
                    && whole == if self.current() is RParen {
                        Some(Outcome::<Seq<ElementView>>::Ok((els, self.position() + 1)))
                    } else {
                        Some(Outcome::<Seq<ElementView>>::Err((self.position(), ")"@)))
                    },
            decreases self.toks().len() - self.position(),
        {
            let ghost pos = self.position();
            let ghost cols0 = columns@;
            let ghost cons0 = constraints@;
            let ghost likes0 = like_clauses@;
            match self.parse_table_element(&mut columns, &mut constraints, &mut like_clauses) {
                Ok(()) => {},
                Err(e) => return Err(e),
            }
            proof {
                if whole is Some {
                    let v = table_element_at(toks, pos)->Some_0->Ok_0.0;
                    lemma_elements_push(toks, v, els, cols0, cons0, likes0, columns@, constraints@, like_clauses@);
                    els = els.push(v);
                }
            }
            if !self.match_token(&Token::Comma) {
                break;
            }
            self.advance();
        }
        match self.expect_token(&Token::RParen, ")") {
            Ok(()) => {},
            Err(e) => return Err(e),
        }
        let ghost simple = whole matches Some(Ok((_, qq))) && no_tail_at(toks, qq);
        let mut tail = TableTail {
            inherits: Vec::new(),
            partition_by: None,
            subpartition_by: None,
            subpartitions_count: None,
            distribute_by: None,
            to_group: None,
            tablespace: None,
            on_commit: None,
            options: Vec::new(),
            table_options: Vec::new(),
            compress: None,
            ilm: None,
            row_movement: None,
        };
        let ghost tail0 = tail;
        let ghost q0 = self.position();
        let ghost wt: Option<Outcome<(TailView, Option<PartitionByView>, Option<IlmView>)>> = match whole {
            Some(Ok((_, qq))) => tails_from(toks, qq, empty_tail_view(), None, None),
            _ => None,
        };
        let ghost mut pbv: Option<PartitionByView> = None;
        let ghost mut ilv: Option<IlmView> = None;
        proof {
            assert(names_view(tail.inherits@) =~= Seq::<Seq<Seq<char>>>::empty());
            assert(options_view(tail.options@) =~= Seq::<OptionView>::empty());
            assert(options_view(tail.table_options@) =~= Seq::<OptionView>::empty());
            assert(tail_view(tail) == empty_tail_view());
        }
        loop
            invariant
                wt == match whole {
                    Some(Ok((_, qq))) => tails_from(toks, qq, empty_tail_view(), None, None),
                    _ => None,
                },
                whole is Some ==> whole->Some_0 is Ok && whole->Some_0->Ok_0.1 == q0,
                wt is Some ==> tails_from(toks, self.position(), tail_view(tail), pbv, ilv) == wt
                    && partitioning_matches(toks, tail.partition_by, pbv)
                    && opt_ilm_matches(toks, tail.ilm, ilv)
                    && old(self).moved_to(&*self, self.position()),
                old(self).steps(&*self),
                kw_at(old(self).toks(), old(self).position(), Keyword::TABLE),
                self.position() > old(self).position(),
                toks == old(self).toks(),
                object_name_at(toks, if_not_exists_end(toks, old(self).position() + 1)) is Ok,
                tok_at(toks, object_name_at(toks, if_not_exists_end(toks, old(self).position() + 1))->Ok_0.1) is LParen,
                whole == elements_from(toks, object_name_at(toks, if_not_exists_end(toks, old(self).position() + 1))->Ok_0.1 + 1, Seq::empty()),
                simple == (whole matches Some(Ok((_, qq))) && no_tail_at(toks, qq)),
                !(whole matches Some(Err(_))),
                simple ==> whole->Some_0->Ok_0.1 == q0 && self.position() == q0 && tail == tail0
                    && old(self).moved_to(&*self, q0),
            ensures
                wt == match whole {
                    Some(Ok((_, qq))) => tails_from(toks, qq, empty_tail_view(), None, None),
                    _ => None,
                },
                whole is Some ==> whole->Some_0 is Ok && whole->Some_0->Ok_0.1 == q0,
                wt is Some ==> wt == Some(Outcome::<(TailView, Option<PartitionByView>, Option<IlmView>)>::Ok(((tail_view(tail), pbv, ilv), self.position())))
                    && partitioning_matches(toks, tail.partition_by, pbv)
                    && opt_ilm_matches(toks, tail.ilm, ilv)
                    && old(self).moved_to(&*self, self.position()),
                old(self).steps(&*self),
                kw_at(old(self).toks(), old(self).position(), Keyword::TABLE),
                self.position() > old(self).position(),
                toks == old(self).toks(),
                object_name_at(toks, if_not_exists_end(toks, old(self).position() + 1)) is Ok,
                tok_at(toks, object_name_at(toks, if_not_exists_end(toks, old(self).position() + 1))->Ok_0.1) is LParen,
                whole == elements_from(toks, object_name_at(toks, if_not_exists_end(toks, old(self).position() + 1))->Ok_0.1 + 1, Seq::empty()),
                simple == (whole matches Some(Ok((_, qq))) && no_tail_at(toks, qq)),
                !(whole matches Some(Err(_))),
                simple ==> whole->Some_0->Ok_0.1 == q0 && self.position() == q0 && tail == tail0
                    && old(self).moved_to(&*self, q0),
            decreases self.toks().len() - self.position(),
        {
            let ghost p0 = self.position();
            let ghost tv0 = tail_view(tail);
            let ghost old_pb = tail.partition_by;
            match self.parse_table_tail_clause(&mut tail) {
                Ok(true) => {
                    proof {
                        if wt is Some && kw_at(toks, p0, Keyword::PARTITION) {
                            pbv = Some(partition_by_at(toks, p0)->Some_0->Ok_0.0);
                        } else if wt is Some && kw_at(toks, p0, Keyword::SUBPARTITION) {
                            let q = subpartition_by_at(toks, p0)->Some_0->Ok_0.1;
                            assert(partitioning_matches(toks, old_pb, pbv));
                            pbv = pending_parts_at(toks, q, pbv)->Some_0->Ok_0.0;
                        } else if wt is Some && ident_word_at(toks, p0, "ILM"@) {
                            let v = ilm_at(toks, p0)->Some_0->Ok_0.0;
                            if v is Some {
                                ilv = v;
                            }
                        }
                    }
                },
                Ok(false) => {
                    proof {
                        if wt is Some {
                            assert(no_tail_at(toks, p0));
                            assert(tails_from(toks, p0, tv0, pbv, ilv)
                                == Some(Outcome::<(TailView, Option<PartitionByView>, Option<IlmView>)>::Ok(((tv0, pbv, ilv), p0))));
                        }
                    }
                    break;
                },
                Err(e) => return Err(e),
            }
        }
        Ok(CreateTableStatement {
            temporary,
            unlogged,
            if_not_exists,
            name,
            columns,
            constraints,
            like_clauses,
            inherits: tail.inherits,
            partition_by: tail.partition_by,
            subpartition_by: tail.subpartition_by,
            subpartitions_count: tail.subpartitions_count,
            distribute_by: tail.distribute_by,
            to_group: tail.to_group,
            tablespace: tail.tablespace,
            on_commit: tail.on_commit,
            options: tail.options,
            table_options: tail.table_options,
            compress: tail.compress,
            ilm: tail.ilm,
            row_movement: tail.row_movement,
        })
    }
}

} // verus!
