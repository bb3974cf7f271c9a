//! INSERT: the target table, the column list, the rows (`VALUES`, `SET`, `DEFAULT VALUES`)
//! and the conflict clauses (`ON DUPLICATE KEY UPDATE`, `ON CONFLICT ... DO ...`).
//!
//! A `SELECT` source and a `RETURNING` list are reported as unexpected tokens: this
//! library holds no query parser.
use vstd::prelude::*;
use crate::ast::{InsertSource, InsertStatement, OnConflictAction, OnConflictTarget, UpdateAssignment, Expr};
use crate::error::ParserError;
use crate::parser::ddl::kw_at;
use crate::parser::dml::{named_partitions_at, named_partitions_view, paren_trees_at, NamedPartitions};
use crate::parser::expr::{alias_at, call_args_from, op_expr_at, opt_text, tree_matches, trees_match, OpTree};
use crate::parser::table::paren_idents_at;
use crate::parser::{ident_text, object_name_at, strings_view, tok_at, Outcome, Parser};
use crate::token::{keyword_text, Keyword, Token};

verus! {

/// `column = value` as plain values: the column name and the tree of the value.
pub type AssignView = (Seq<Seq<char>>, OpTree);

/// The assignments `column = value, ...` from `j` on, after `acc`. With `dotted` a column
/// is an object name, else a single identifier. `None` where a value is not an expression
/// of single operands and infix operators.
pub open spec fn assigns_from(toks: Seq<Token>, j: int, dotted: bool, acc: Seq<AssignView>) -> Option<Outcome<Seq<AssignView>>>
    decreases toks.len() - j,
{
    let col: Outcome<Seq<Seq<char>>> = if dotted {
        object_name_at(toks, j)
    } else {
        match ident_text(tok_at(toks, j)) {
            Some(t) => Ok((seq![t], j + 1)),
            None => Err((j, "identifier"@)),
        }
    };
    match col {
        Err(e) => Some(Err(e)),
        Ok((c, j1)) => if !(tok_at(toks, j1) is Eq) {
            Some(Err((j1, "="@)))
        } else {
            match op_expr_at(toks, j1 + 1, 0) {
                None => None,
                Some((t, q)) => if q <= j || q > toks.len() {
                    None
                } else if tok_at(toks, q) is Comma {
                    assigns_from(toks, q + 1, dotted, acc.push((c, t)))
                } else {
                    Some(Ok((acc.push((c, t)), q)))
                },
            }
        },
    }
}

/// Each assignment of `v` is the one that `a` describes at its place.
pub open spec fn assigns_match(toks: Seq<Token>, v: Seq<UpdateAssignment>, a: Seq<AssignView>) -> bool {
    v.len() == a.len() && forall|k: int| 0 <= k < v.len() ==> strings_view(v[k].column@) == a[k].0
        && tree_matches(toks, v[k].value, a[k].1)
}

/// The rows `( ... ), ...` of `VALUES` from `j` on, after `acc` (a row may be empty).
pub open spec fn rows_from(toks: Seq<Token>, j: int, acc: Seq<Seq<OpTree>>) -> Option<Outcome<Seq<Seq<OpTree>>>>
    decreases toks.len() - j,
{
    match paren_trees_at(toks, j, true) {
        None => None,
        Some(Err(e)) => Some(Err(e)),
        Some(Ok((r, q))) => if q <= j || q > toks.len() {
            None
        } else if tok_at(toks, q) is Comma {
            rows_from(toks, q + 1, acc.push(r))
        } else {
            Some(Ok((acc.push(r), q)))
        },
    }
}

/// Each row of `rows` holds the values that `rv` describes at its place.
pub open spec fn rows_match(toks: Seq<Token>, rows: Seq<Vec<Expr>>, rv: Seq<Seq<OpTree>>) -> bool {
    rows.len() == rv.len() && forall|k: int| 0 <= k < rows.len() ==> trees_match(toks, rows[k]@, rv[k])
}

/// The source of an INSERT as plain values.
pub enum SourceView {
    Values(Seq<Seq<OpTree>>),
    DefaultValues,
    Assignments(Seq<AssignView>),
}

/// The text reported where no source an INSERT accepts stands.
pub open spec fn source_expected() -> Seq<char> {
    "VALUES, SELECT, DEFAULT VALUES"@
}

/// The source at `j`: `DEFAULT VALUES`, `SET assignments` or `VALUES rows`. Anything else,
/// a `SELECT` source included, is reported.
pub open spec fn source_at(toks: Seq<Token>, j: int) -> Option<Outcome<SourceView>> {
    if kw_at(toks, j, Keyword::DEFAULT) {
        Some(if kw_at(toks, j + 1, Keyword::VALUES) {
            Ok((SourceView::DefaultValues, j + 2))
        } else {
            Err((j + 1, keyword_text(Keyword::VALUES)))
        })
    } else if kw_at(toks, j, Keyword::SET) {
        match assigns_from(toks, j + 1, false, Seq::empty()) {
            None => None,
            Some(Err(e)) => Some(Err(e)),
            Some(Ok((a, q))) => Some(Ok((SourceView::Assignments(a), q))),
        }
    } else if kw_at(toks, j, Keyword::VALUES) {
        match rows_from(toks, j + 1, Seq::empty()) {
            None => None,
            Some(Err(e)) => Some(Err(e)),
            Some(Ok((rv, q))) => Some(Ok((SourceView::Values(rv), q))),
        }
    } else {
        Some(Err((j, source_expected())))
    }
}

/// The source `s` is the one that `v` describes.
pub open spec fn source_matches(toks: Seq<Token>, s: InsertSource, v: SourceView) -> bool {
    match v {
        SourceView::Values(rv) => s is Values && rows_match(toks, s->Values_0@, rv),
        SourceView::DefaultValues => s is DefaultValues,
        SourceView::Assignments(a) => s is Assignments && assigns_match(toks, s->Assignments_0@, a),
    }
}

/// An optional `WHERE condition` at `k`: the tree of the condition and where it ends.
pub open spec fn where_at(toks: Seq<Token>, k: int) -> Option<(Option<OpTree>, int)> {
    if kw_at(toks, k, Keyword::WHERE) {
        match op_expr_at(toks, k + 1, 0) {
            Some((t, q)) => Some((Some(t), q)),
            None => None,
        }
    } else {
        Some((None, k))
    }
}

/// The conflict target as plain values.
pub enum TargetView {
    OnConstraint(Seq<char>),
    Columns(Seq<Seq<char>>),
}

/// The conflict action as plain values.
pub enum ConflictView {
    Nothing(Option<TargetView>),
    Update(Option<TargetView>, Seq<AssignView>, Option<OpTree>),
}

/// `assignments [WHERE condition]` at `j`, the update of a conflict clause.
pub open spec fn update_body_at(toks: Seq<Token>, j: int) -> Option<Outcome<(Seq<AssignView>, Option<OpTree>)>> {
    match assigns_from(toks, j, true, Seq::empty()) {
        None => None,
        Some(Err(e)) => Some(Err(e)),
        Some(Ok((a, q))) => match where_at(toks, q) {
            None => None,
            Some((w, q2)) => Some(Ok(((a, w), q2))),
        },
    }
}

/// The update of a conflict clause at `j`, for the target `target`.
pub open spec fn conflict_update_at(toks: Seq<Token>, j: int, target: Option<TargetView>) -> Option<Outcome<ConflictView>> {
    match update_body_at(toks, j) {
        None => None,
        Some(Err(e)) => Some(Err(e)),
        Some(Ok(((a, w), q))) => Some(Ok((ConflictView::Update(target, a, w), q))),
    }
}

/// The conflict target after `ON CONFLICT`, at `k`.
pub open spec fn conflict_target_at(toks: Seq<Token>, k: int) -> Outcome<Option<TargetView>> {
    if kw_at(toks, k, Keyword::ON) {
        if !kw_at(toks, k + 1, Keyword::CONSTRAINT) {
            Err((k + 1, keyword_text(Keyword::CONSTRAINT)))
        } else {
            match ident_text(tok_at(toks, k + 2)) {
                Some(n) => Ok((Some(TargetView::OnConstraint(n)), k + 3)),
                None => Err((k + 2, "identifier"@)),
            }
        }
    } else if tok_at(toks, k) is LParen {
        match paren_idents_at(toks, k) {
            Ok((c, q)) => Ok((Some(TargetView::Columns(c)), q)),
            Err(e) => Err(e),
        }
    } else {
        Ok((None, k))
    }
}

/// `ON DUPLICATE KEY UPDATE ...` or `ON CONFLICT [target] DO {NOTHING | UPDATE SET ...}` at
/// `k`; nothing (the cursor left at `k`) where neither stands there.
pub open spec fn on_conflict_at(toks: Seq<Token>, k: int) -> Option<Outcome<Option<ConflictView>>> {
    let wrap = |o: Option<Outcome<ConflictView>>| match o {
        None => None,
        Some(Err(e)) => Some(Err(e)),
        Some(Ok((c, q))) => Some(Ok((Some(c), q))),
    };
    if !kw_at(toks, k, Keyword::ON) {
        Some(Ok((None, k)))
    } else if kw_at(toks, k + 1, Keyword::DUPLICATE) {
        if !kw_at(toks, k + 2, Keyword::KEY) {
            Some(Err((k + 2, keyword_text(Keyword::KEY))))
        } else if !kw_at(toks, k + 3, Keyword::UPDATE) {
            Some(Err((k + 3, keyword_text(Keyword::UPDATE))))
        } else {
            wrap(conflict_update_at(toks, k + 4, None))
        }
    } else if kw_at(toks, k + 1, Keyword::CONFLICT) {
        match conflict_target_at(toks, k + 2) {
            Err(e) => Some(Err(e)),
            Ok((t, m)) => if !kw_at(toks, m, Keyword::DO) {
                Some(Err((m, keyword_text(Keyword::DO))))
            } else if kw_at(toks, m + 1, Keyword::NOTHING) {
                Some(Ok((Some(ConflictView::Nothing(t)), m + 2)))
            } else if kw_at(toks, m + 1, Keyword::UPDATE) {
                if !kw_at(toks, m + 2, Keyword::SET) {
                    Some(Err((m + 2, keyword_text(Keyword::SET))))
                } else {
                    wrap(conflict_update_at(toks, m + 3, t))
                }
            } else {
                Some(Err((m + 1, "NOTHING or UPDATE"@)))
            },
        }
    } else {
        Some(Ok((None, k)))
    }
}

/// The target `t` is the one that `v` describes.
pub open spec fn target_matches(t: Option<OnConflictTarget>, v: Option<TargetView>) -> bool {
    match v {
        None => t is None,
        Some(TargetView::OnConstraint(n)) => t matches Some(OnConflictTarget::OnConstraint(x)) && x@ == n,
        Some(TargetView::Columns(c)) => t matches Some(OnConflictTarget::Columns(x)) && strings_view(x@) == c,
    }
}

/// `o` is the optional condition that `w` describes.
pub open spec fn opt_condition_matches(toks: Seq<Token>, o: Option<Expr>, w: Option<OpTree>) -> bool {
    match w {
        None => o is None,
        Some(t) => o is Some && tree_matches(toks, o->Some_0, t),
    }
}

/// The conflict action `a` is the one that `v` describes.
pub open spec fn conflict_matches(toks: Seq<Token>, a: OnConflictAction, v: ConflictView) -> bool {
    match v {
        ConflictView::Nothing(t) => a is Nothing && target_matches(a->Nothing_target, t),
        ConflictView::Update(t, asg, w) => a is Update && target_matches(a->Update_target, t)
            && assigns_match(toks, a->Update_assignments@, asg) && opt_condition_matches(toks, a->Update_where_clause, w),
    }
}

/// The head of an INSERT after the `INSERT` keyword, at `i`: `[INTO] table [alias]
/// [PARTITION (names)] [(columns)]`. `None` for a `PARTITION FOR (values)` clause.
pub open spec fn insert_head_at(toks: Seq<Token>, i: int) -> Option<Outcome<(Seq<Seq<char>>, Option<Seq<char>>, Option<NamedPartitions>, Seq<Seq<char>>)>> {
    let j0 = if kw_at(toks, i, Keyword::INTO) { i + 1 } else { i };
    match object_name_at(toks, j0) {
        Err(e) => Some(Err(e)),
        Ok((n, j1)) => match alias_at(toks, j1) {
            Err(e) => Some(Err(e)),
            Ok((a, j2)) => {
                let part: Option<Outcome<Option<NamedPartitions>>> = if kw_at(toks, j2, Keyword::PARTITION) || kw_at(
                    toks,
                    j2,
                    Keyword::SUBPARTITION,
                ) {
                    match named_partitions_at(toks, j2) {
                        Some(Ok((p, q))) => Some(Ok((Some(p), q))),
                        Some(Err(e)) => Some(Err(e)),
                        None => None,
                    }
                } else {
                    Some(Ok((None, j2)))
                };
                match part {
                    None => None,
                    Some(Err(e)) => Some(Err(e)),
                    Some(Ok((p, j3))) => {
                        let cols: Outcome<Seq<Seq<char>>> = if tok_at(toks, j3) is LParen {
                            paren_idents_at(toks, j3)
                        } else {
                            Ok((Seq::empty(), j3))
                        };
                        match cols {
                            Err(e) => Some(Err(e)),
                            Ok((c, j4)) => Some(Ok(((n, a, p, c), j4))),
                        }
                    },
                }
            },
        },
    }
}

/// An INSERT as plain values: table, alias, partitions, columns, source, conflict action.
pub type InsertView = (Seq<Seq<char>>, Option<Seq<char>>, Option<NamedPartitions>, Seq<Seq<char>>, SourceView, Option<ConflictView>);

/// The INSERT after the `INSERT` keyword, at `i`. A `RETURNING` list after it is reported.
pub open spec fn insert_at(toks: Seq<Token>, i: int) -> Option<Outcome<InsertView>> {
    match insert_head_at(toks, i) {
        None => None,
        Some(Err(e)) => Some(Err(e)),
        Some(Ok(((n, a, p, c), j4))) => match source_at(toks, j4) {
            None => None,
            Some(Err(e)) => Some(Err(e)),
            Some(Ok((src, k))) => match on_conflict_at(toks, k) {
                None => None,
                Some(Err(e)) => Some(Err(e)),
                Some(Ok((oc, m))) => if kw_at(toks, m, Keyword::RETURNING) {
                    Some(Err((m, "end of INSERT"@)))
                } else {
                    Some(Ok(((n, a, p, c, src, oc), m)))
                },
            },
        },
    }
}

/// The statement `s` is the INSERT that `v` describes.
pub open spec fn insert_matches(toks: Seq<Token>, s: InsertStatement, v: InsertView) -> bool {
    &&& strings_view(s.table@) == v.0
    &&& opt_text(s.alias) == v.1
    &&& match v.2 {
        None => s.partition is None,
        Some(np) => s.partition is Some && named_partitions_view(s.partition->Some_0) == Some(np),
    }
    &&& strings_view(s.columns@) == v.3
    &&& source_matches(toks, s.source, v.4)
    &&& match v.5 {
        None => s.on_conflict is None,
        Some(cv) => s.on_conflict is Some && conflict_matches(toks, s.on_conflict->Some_0, cv),
    }
}

impl Parser {
    /// `column = value, ...` (a column an object name where `dotted`, else one identifier).
    fn parse_assignments(&mut self, dotted: bool) -> (r: Result<Vec<UpdateAssignment>, ParserError>)
        requires
            old(self).wf(),
        ensures
            old(self).steps(&*final(self)),
            r is Ok ==> final(self).position() > old(self).position(),
            match assigns_from(old(self).toks(), old(self).position(), dotted, Seq::empty()) {
                Some(Ok((a, q))) => r is Ok && assigns_match(old(self).toks(), r->Ok_0@, a) && old(self).moved_to(&*final(self), q),
                Some(Err((q, e))) => r is Err && old(self).moved_to(&*final(self), q) && old(self).reports(r->Err_0, q, e),
                None => true,
            },
    {
        let ghost toks = self.toks();
        let ghost whole = assigns_from(toks, self.position(), dotted, Seq::empty());
        let mut out: Vec<UpdateAssignment> = Vec::new();
        let ghost mut av: Seq<AssignView> = Seq::empty();
        loop
            invariant_except_break
                whole is Some ==> assigns_from(toks, self.position(), dotted, av) == whole,
            invariant
                old(self).steps(&*self),
                toks == old(self).toks(),
                whole == assigns_from(toks, old(self).position(), dotted, Seq::empty()),
                whole is Some ==> assigns_match(toks, out@, av) && old(self).moved_to(&*self, self.position()),
                out@.len() > 0 ==> self.position() > old(self).position(),
            ensures
                old(self).steps(&*self),
                self.position() > old(self).position(),
                whole is Some ==> whole == Some(Outcome::<Seq<AssignView>>::Ok((av, self.position())))
                    && assigns_match(toks, out@, av) && old(self).moved_to(&*self, self.position()),
            decreases self.toks().len() - self.position(),
        {
            let ghost p0 = self.position();
            let column: Vec<String> = if dotted {
                proof { crate::parser::ddl::lemma_object_name_bounds(self.toks(), self.position()); }
                match self.parse_object_name() {
                    Ok(n) => n,
                    Err(e) => return Err(e),
                }
            } else {
                match self.parse_identifier() {
                    Ok(c) => {
                        let v: Vec<String> = vec![c];
                        proof {
                            assert(strings_view(v@) =~= seq![v@[0]@]);
                        }
                        v
                    },
                    Err(e) => return Err(e),
                }
            };
            match self.expect_token(&Token::Eq, "=") {
                Ok(()) => {},
                Err(e) => return Err(e),
            }
            let ghost pv = self.position();
            let value = match self.parse_expr() {
                Ok(e) => e,
                Err(e) => return Err(e),
            };
            let item = UpdateAssignment { column, value };
            proof {
                if whole is Some {
                    let old_av = av;
                    av = av.push((strings_view(item.column@), op_expr_at(toks, pv, 0)->Some_0.0));
                    assert forall|k: int| 0 <= k < out@.len() + 1 implies strings_view(out@.push(item)[k].column@) == av[k].0
                        && tree_matches(toks, out@.push(item)[k].value, av[k].1) by {
                        if k < out@.len() {
                            assert(out@.push(item)[k] == out@[k]);
                            assert(av[k] == old_av[k]);
                        }
                    }
                }
            }
            out.push(item);
            if !self.match_token(&Token::Comma) {
                break;
            }
            self.advance();
        }
        Ok(out)
    }

    /// The rows `( ... ), ...` after `VALUES`.
    fn parse_values_rows(&mut self) -> (r: Result<Vec<Vec<Expr>>, ParserError>)
        requires
            old(self).wf(),
        ensures
            old(self).steps(&*final(self)),
            r is Ok ==> final(self).position() > old(self).position(),
            match rows_from(old(self).toks(), old(self).position(), Seq::empty()) {
                Some(Ok((rv, q))) => r is Ok && rows_match(old(self).toks(), r->Ok_0@, rv) && old(self).moved_to(&*final(self), q),
                Some(Err((q, e))) => r is Err && old(self).moved_to(&*final(self), q) && old(self).reports(r->Err_0, q, e),
                None => true,
            },
    {
        let ghost toks = self.toks();
        let ghost whole = rows_from(toks, self.position(), Seq::empty());
        let mut rows: Vec<Vec<Expr>> = Vec::new();
        let ghost mut rv: Seq<Seq<OpTree>> = Seq::empty();
        loop
            invariant_except_break
                whole is Some ==> rows_from(toks, self.position(), rv) == whole,
            invariant
                old(self).steps(&*self),
                toks == old(self).toks(),
                whole == rows_from(toks, old(self).position(), Seq::empty()),
                whole is Some ==> rows_match(toks, rows@, rv) && old(self).moved_to(&*self, self.position()),
                rows@.len() > 0 ==> self.position() > old(self).position(),
            ensures
                old(self).steps(&*self),
                self.position() > old(self).position(),
                whole is Some ==> whole == Some(Outcome::<Seq<Seq<OpTree>>>::Ok((rv, self.position())))
                    && rows_match(toks, rows@, rv) && old(self).moved_to(&*self, self.position()),
            decreases self.toks().len() - self.position(),
        {
            let ghost p0 = self.position();
            let row = match self.parse_paren_expr_list(true) {
                Ok(v) => v,
                Err(e) => return Err(e),
            };
            proof {
                if whole is Some {
                    let old_rv = rv;
                    rv = rv.push(paren_trees_at(toks, p0, true)->Some_0->Ok_0.0);
                    assert forall|k: int| 0 <= k < rows@.len() + 1 implies trees_match(toks, rows@.push(row)[k]@, rv[k]) by {
                        if k < rows@.len() {
                            assert(rows@.push(row)[k] == rows@[k]);
                            assert(rv[k] == old_rv[k]);
                        }
                    }
                }
            }
            rows.push(row);
            if !self.match_token(&Token::Comma) {
                break;
            }
            self.advance();
        }
        Ok(rows)
    }

    /// An optional `WHERE condition`.
    fn parse_opt_where(&mut self) -> (r: Result<Option<Expr>, ParserError>)
        requires
            old(self).wf(),
        ensures
            old(self).steps(&*final(self)),
            match where_at(old(self).toks(), old(self).position()) {
                Some((w, q)) => r is Ok && opt_condition_matches(old(self).toks(), r->Ok_0, w) && old(self).moved_to(&*final(self), q),
                None => true,
            },
    {
        if !self.match_keyword(Keyword::WHERE) {
            return Ok(None);
        }
        self.advance();
        match self.parse_expr() {
            Ok(e) => Ok(Some(e)),
            Err(e) => Err(e),
        }
    }

    /// The assignments and condition of a conflict update.
    fn parse_update_body(&mut self) -> (r: Result<(Vec<UpdateAssignment>, Option<Expr>), ParserError>)
        requires
            old(self).wf(),
        ensures
            old(self).steps(&*final(self)),
            match update_body_at(old(self).toks(), old(self).position()) {
                Some(Ok(((a, w), q))) => r is Ok && assigns_match(old(self).toks(), r->Ok_0.0@, a)
                    && opt_condition_matches(old(self).toks(), r->Ok_0.1, w) && old(self).moved_to(&*final(self), q),
                Some(Err((q, e))) => r is Err && old(self).moved_to(&*final(self), q) && old(self).reports(r->Err_0, q, e),
                None => true,
            },
    {
        let assignments = match self.parse_assignments(true) {
            Ok(a) => a,
            Err(e) => return Err(e),
        };
        match self.parse_opt_where() {
            Ok(w) => Ok((assignments, w)),
            Err(e) => Err(e),
        }
    }

    /// The conflict target after `ON CONFLICT`: `ON CONSTRAINT name`, `(columns)`, or none.
    fn parse_conflict_target(&mut self) -> (r: Result<Option<OnConflictTarget>, ParserError>)
        requires
            old(self).wf(),
        ensures
            old(self).steps(&*final(self)),
            match conflict_target_at(old(self).toks(), old(self).position()) {
                Ok((t, q)) => r is Ok && target_matches(r->Ok_0, t) && old(self).moved_to(&*final(self), q),
                Err((q, e)) => r is Err && old(self).moved_to(&*final(self), q) && old(self).reports(r->Err_0, q, e),
            },
    {
        if self.match_keyword(Keyword::ON) {
            self.advance();
            match self.expect_keyword(Keyword::CONSTRAINT) {
                Ok(()) => {},
                Err(e) => return Err(e),
            }
            match self.parse_identifier() {
                Ok(n) => Ok(Some(OnConflictTarget::OnConstraint(n))),
                Err(e) => Err(e),
            }
        } else if self.match_token(&Token::LParen) {
            match self.parse_paren_identifiers() {
                Ok(c) => Ok(Some(OnConflictTarget::Columns(c))),
                Err(e) => Err(e),
            }
        } else {
            Ok(None)
        }
    }

    /// `ON DUPLICATE KEY UPDATE ...` or `ON CONFLICT [target] DO {NOTHING | UPDATE SET ...}`,
    /// if present; an `ON` followed by neither is left unread.
    fn parse_on_conflict(&mut self) -> (r: Result<Option<OnConflictAction>, ParserError>)
        requires
            old(self).wf(),
        ensures
            old(self).steps(&*final(self)),
            match on_conflict_at(old(self).toks(), old(self).position()) {
                Some(Ok((oc, q))) => r is Ok && match oc {
                    None => r->Ok_0 is None,
                    Some(cv) => r->Ok_0 is Some && conflict_matches(old(self).toks(), r->Ok_0->Some_0, cv),
                } && old(self).moved_to(&*final(self), q),
                Some(Err((q, e))) => r is Err && old(self).moved_to(&*final(self), q) && old(self).reports(r->Err_0, q, e),
                None => true,
            },
    {
        if !self.match_keyword(Keyword::ON) {
            return Ok(None);
        }
        if self.peek_at(1).same_as(&Token::Keyword(Keyword::DUPLICATE)) {
            self.advance();
            self.advance();
            match self.expect_keyword(Keyword::KEY) {
                Ok(()) => {},
                Err(e) => return Err(e),
            }
            match self.expect_keyword(Keyword::UPDATE) {
                Ok(()) => {},
                Err(e) => return Err(e),
            }
            return match self.parse_update_body() {
                Ok((assignments, where_clause)) => Ok(Some(OnConflictAction::Update { target: None, assignments, where_clause })),
                Err(e) => Err(e),
            };
        }
        if !self.peek_at(1).same_as(&Token::Keyword(Keyword::CONFLICT)) {
            return Ok(None);
        }
        self.advance();
        self.advance();
        let target = match self.parse_conflict_target() {
            Ok(t) => t,
            Err(e) => return Err(e),
        };
        match self.expect_keyword(Keyword::DO) {
            Ok(()) => {},
            Err(e) => return Err(e),
        }
        if self.match_keyword(Keyword::NOTHING) {
            self.advance();
            return Ok(Some(OnConflictAction::Nothing { target }));
        }
        if self.match_keyword(Keyword::UPDATE) {
            self.advance();
            match self.expect_keyword(Keyword::SET) {
                Ok(()) => {},
                Err(e) => return Err(e),
            }
            return match self.parse_update_body() {
                Ok((assignments, where_clause)) => Ok(Some(OnConflictAction::Update { target, assignments, where_clause })),
                Err(e) => Err(e),
            };
        }
        Err(self.unexpected("NOTHING or UPDATE"))
    }

    /// `[INTO] table [alias] [partition] [(columns)]`.
    #[verifier::rlimit(60)]
    fn parse_insert_head(&mut self) -> (r: Result<(Vec<String>, Option<String>, Option<crate::ast::DmlPartitionClause>, Vec<String>), ParserError>)
        requires
            old(self).wf(),
        ensures
            old(self).steps(&*final(self)),
            r is Ok ==> final(self).position() > old(self).position(),
            match insert_head_at(old(self).toks(), old(self).position()) {
                Some(Ok(((n, a, p, c), q))) => r is Ok && strings_view(r->Ok_0.0@) == n && opt_text(r->Ok_0.1) == a
                    && match p {
                        None => r->Ok_0.2 is None,
                        Some(np) => r->Ok_0.2 is Some && named_partitions_view(r->Ok_0.2->Some_0) == Some(np),
                    } && strings_view(r->Ok_0.3@) == c && old(self).moved_to(&*final(self), q),
                Some(Err((q, e))) => r is Err && old(self).moved_to(&*final(self), q) && old(self).reports(r->Err_0, q, e),
                None => true,
            },
    {
        let _ = self.try_consume_keyword(Keyword::INTO);
        proof { crate::parser::ddl::lemma_object_name_bounds(self.toks(), self.position()); }
        let table = match self.parse_object_name() {
            Ok(n) => n,
            Err(e) => return Err(e),
        };
        let alias = match self.parse_optional_alias() {
            Ok(a) => a,
            Err(e) => return Err(e),
        };
        let partition = match self.parse_dml_partition() {
            Ok(p) => p,
            Err(e) => return Err(e),
        };
        let columns: Vec<String> = if self.match_token(&Token::LParen) {
            match self.parse_paren_identifiers() {
                Ok(c) => c,
                Err(e) => return Err(e),
            }
        } else {
            let none: Vec<String> = Vec::new();
            proof {
                assert(strings_view(none@) =~= Seq::<Seq<char>>::empty());
            }
            none
        };
        Ok((table, alias, partition, columns))
    }

    /// The source of an INSERT: `DEFAULT VALUES`, `SET ...` or `VALUES ...`.
    fn parse_insert_source(&mut self) -> (r: Result<InsertSource, ParserError>)
        requires
            old(self).wf(),
        ensures
            old(self).steps(&*final(self)),
            match source_at(old(self).toks(), old(self).position()) {
                Some(Ok((v, q))) => r is Ok && source_matches(old(self).toks(), r->Ok_0, v) && old(self).moved_to(&*final(self), q),
                Some(Err((q, e))) => r is Err && old(self).moved_to(&*final(self), q) && old(self).reports(r->Err_0, q, e),
                None => true,
            },
    {
        if self.match_keyword(Keyword::DEFAULT) {
            self.advance();
            match self.expect_keyword(Keyword::VALUES) {
                Ok(()) => Ok(InsertSource::DefaultValues),
                Err(e) => Err(e),
            }
        } else if self.match_keyword(Keyword::SET) {
            self.advance();
            match self.parse_assignments(false) {
                Ok(a) => Ok(InsertSource::Assignments(a)),
                Err(e) => Err(e),
            }
        } else if self.match_keyword(Keyword::VALUES) {
            self.advance();
            match self.parse_values_rows() {
                Ok(v) => Ok(InsertSource::Values(v)),
                Err(e) => Err(e),
            }
        } else {
            Err(self.unexpected("VALUES, SELECT, DEFAULT VALUES"))
        }
    }

    /// INSERT after the `INSERT` keyword: `[INTO] table [alias] [partition] [(columns)]`,
    /// then `DEFAULT VALUES`, `SET column = value, ...` or `VALUES (...), ...`, then an
    /// optional conflict clause. A `SELECT` source and a `RETURNING` list are reported.
    pub fn parse_insert(&mut self) -> (r: Result<InsertStatement, ParserError>)
        requires
            old(self).wf(),
        ensures
            old(self).steps(&*final(self)),
            r is Ok ==> final(self).position() > old(self).position(),
            match insert_at(old(self).toks(), old(self).position()) {
                Some(Ok((v, q))) => r is Ok && insert_matches(old(self).toks(), r->Ok_0, v) && old(self).moved_to(&*final(self), q),
                Some(Err((q, e))) => r is Err && old(self).moved_to(&*final(self), q) && old(self).reports(r->Err_0, q, e),
                None => true,
            },
    {
        let (table, alias, partition, columns) = match self.parse_insert_head() {
            Ok(h) => h,
            Err(e) => return Err(e),
        };
        let source = match self.parse_insert_source() {
            Ok(s) => s,
            Err(e) => return Err(e),
        };
        let on_conflict = match self.parse_on_conflict() {
            Ok(c) => c,
            Err(e) => return Err(e),
        };
        if self.match_keyword(Keyword::RETURNING) {
            return Err(self.unexpected("end of INSERT"));
        }
        Ok(InsertStatement { table, alias, partition, columns, source, on_conflict })
    }
}

/// The conflict target written after `ON CONFLICT` is the target of the action, whichever
/// action follows: `ON CONFLICT (c1, ...) DO NOTHING` does nothing on those columns, and
/// `ON CONFLICT (c1, ...) DO UPDATE SET ...` updates on them.
pub proof fn law_conflict_columns_kept_for_either_action(toks: Seq<Token>, k: int, cols: Seq<Seq<char>>, m: int)
    requires
        kw_at(toks, k, Keyword::ON),
        kw_at(toks, k + 1, Keyword::CONFLICT),
        tok_at(toks, k + 2) is LParen,
        paren_idents_at(toks, k + 2) == Outcome::<Seq<Seq<char>>>::Ok((cols, m)),
        kw_at(toks, m, Keyword::DO),
    ensures
        kw_at(toks, m + 1, Keyword::NOTHING) ==> on_conflict_at(toks, k)
            == Some(Outcome::<Option<ConflictView>>::Ok((Some(ConflictView::Nothing(Some(TargetView::Columns(cols)))), m + 2))),
        kw_at(toks, m + 1, Keyword::UPDATE) ==> (on_conflict_at(toks, k) matches Some(Ok((Some(v), _))) ==> v
            matches ConflictView::Update(t, _, _) && t == Some(TargetView::Columns(cols))),
{
}

/// `ON CONFLICT ON CONSTRAINT name DO NOTHING` does nothing on that constraint.
pub proof fn law_conflict_constraint_kept_for_nothing(toks: Seq<Token>, k: int, n: Seq<char>)
    requires
        kw_at(toks, k, Keyword::ON),
        kw_at(toks, k + 1, Keyword::CONFLICT),
        kw_at(toks, k + 2, Keyword::ON),
        kw_at(toks, k + 3, Keyword::CONSTRAINT),
        ident_text(tok_at(toks, k + 4)) == Some(n),
        kw_at(toks, k + 5, Keyword::DO),
        kw_at(toks, k + 6, Keyword::NOTHING),
    ensures
        on_conflict_at(toks, k)
            == Some(Outcome::<Option<ConflictView>>::Ok((Some(ConflictView::Nothing(Some(TargetView::OnConstraint(n)))), k + 7))),
{
}

} // verus!
