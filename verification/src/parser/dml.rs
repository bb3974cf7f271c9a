//! The partition clause of DML statements.
use vstd::prelude::*;
use crate::ast::{DmlPartitionClause, Expr};
use crate::error::ParserError;
use crate::parser::ddl::{agrees, kw_at};
use crate::parser::expr::{call_args_from, ends_operand, has_leaf, leaf_end, leaf_value, op_expr_at, tree_matches, trees_match, OpTree};
use crate::parser::table::paren_idents_at;
use crate::parser::{strings_view, tok_at, Outcome, Parser};
use crate::token::{Keyword, Token};

verus! {

/// A partition clause whose partitions are named, as plain values: whether it names
/// subpartitions, and the names.
pub type NamedPartitions = (bool, Seq<Seq<char>>);

/// `PARTITION (names)` or `SUBPARTITION (names)` at `i`; `None` for the `FOR (values)`
/// forms, whose values are expressions, and when neither word is there.
pub open spec fn named_partitions_at(toks: Seq<Token>, i: int) -> Option<Outcome<NamedPartitions>> {
    if (kw_at(toks, i, Keyword::PARTITION) || kw_at(toks, i, Keyword::SUBPARTITION)) && !kw_at(toks, i + 1, Keyword::FOR) {
        let sub = kw_at(toks, i, Keyword::SUBPARTITION);
        Some(match paren_idents_at(toks, i + 1) {
            Err(e) => Err(e),
            Ok((names, j)) => Ok(((sub, names), j)),
        })
    } else {
        None
    }
}

pub open spec fn named_partitions_view(c: DmlPartitionClause) -> Option<NamedPartitions> {
    match c {
        DmlPartitionClause::Partition(v) => Some((false, strings_view(v@))),
        DmlPartitionClause::Subpartition(v) => Some((true, strings_view(v@))),
        _ => None,
    }
}

/// `( a, b, ... )` at `i`, each an expression of single operands and infix operators (an
/// empty list `( )` only where `empty_ok`); `None` for other expressions.
pub open spec fn paren_trees_at(toks: Seq<Token>, i: int, empty_ok: bool) -> Option<Outcome<Seq<OpTree>>> {
    if !(tok_at(toks, i) is LParen) {
        Some(Err((i, "("@)))
    } else if empty_ok && tok_at(toks, i + 1) is RParen {
        Some(Ok((Seq::empty(), i + 2)))
    } else {
        call_args_from(toks, i + 1, Seq::empty())
    }
}

/// `PARTITION FOR (values)` or `SUBPARTITION FOR (values)` at `i`: whether it names a
/// subpartition, and the value trees; `None` for the other forms and other values.
pub open spec fn partition_for_at(toks: Seq<Token>, i: int) -> Option<Outcome<(bool, Seq<OpTree>)>> {
    if (kw_at(toks, i, Keyword::PARTITION) || kw_at(toks, i, Keyword::SUBPARTITION)) && kw_at(toks, i + 1, Keyword::FOR) {
        match paren_trees_at(toks, i + 2, false) {
            Some(Ok((ts, q))) => Some(Ok(((kw_at(toks, i, Keyword::SUBPARTITION), ts), q))),
            Some(Err(e)) => Some(Err(e)),
            None => None,
        }
    } else {
        None
    }
}

/// The partition clause `c` holds the values that `ts` describes.
pub open spec fn partition_for_matches(toks: Seq<Token>, c: DmlPartitionClause, sub: bool, ts: Seq<OpTree>) -> bool {
    if sub {
        c is SubpartitionFor && trees_match(toks, c->SubpartitionFor_0@, ts)
    } else {
        c is PartitionFor && trees_match(toks, c->PartitionFor_0@, ts)
    }
}

impl Parser {
    /// `( expr, ... )`, or `( )` where `empty_ok` (then the result is empty).
    pub(crate) fn parse_paren_expr_list(&mut self, empty_ok: bool) -> (r: Result<Vec<Expr>, ParserError>)
        requires
            old(self).wf(),
        ensures
            old(self).steps(&*final(self)),
            r is Ok ==> final(self).position() > old(self).position() && (r->Ok_0@.len() > 0 || empty_ok),
            ({
                let j = old(self).position() + 1;
                let e = leaf_end(old(self).toks(), j);
                old(self).current() is LParen && has_leaf(old(self).toks(), j) && tok_at(old(self).toks(), e) is RParen
                    && ends_operand(old(self).toks(), e, 0)
            }) ==> {
                &&& r matches Ok(v) && v@.len() == 1 && leaf_value(old(self).toks(), old(self).position() + 1, v@[0])
                &&& old(self).moved_to(&*final(self), leaf_end(old(self).toks(), old(self).position() + 1) + 1)
            },
            match paren_trees_at(old(self).toks(), old(self).position(), empty_ok) {
                Some(Ok((ts, q))) => r is Ok && trees_match(old(self).toks(), r->Ok_0@, ts) && old(self).moved_to(&*final(self), q),
                Some(Err((q, e))) => r is Err && old(self).moved_to(&*final(self), q) && old(self).reports(r->Err_0, q, e),
                None => true,
            },
    {
        let ghost toks = self.toks();
        let ghost whole = paren_trees_at(toks, self.position(), empty_ok);
        match self.expect_token(&Token::LParen, "(") {
            Ok(()) => {},
            Err(e) => return Err(e),
        }
        if empty_ok && self.match_token(&Token::RParen) {
            self.advance();
            let none: Vec<Expr> = Vec::new();
            proof {
                assert(trees_match(toks, none@, Seq::<OpTree>::empty()));
            }
            return Ok(none);
        }
        let ghost first = self.position();
        let e0 = match self.parse_expr() {
            Ok(e) => e,
            Err(e) => return Err(e),
        };
        let mut exprs: Vec<Expr> = Vec::new();
        exprs.push(e0);
        let ghost mut cur: int = first;
        let ghost mut ts: Seq<OpTree> = Seq::empty();
        proof {
            if whole is Some {
                ts = seq![op_expr_at(toks, first, 0)->Some_0.0];
                assert(ts.drop_last() =~= Seq::<OpTree>::empty());
                assert(exprs@[0] == e0);
            }
        }
        let ghost simple = {
            let j = old(self).position() + 1;
            let e = leaf_end(old(self).toks(), j);
            old(self).current() is LParen && has_leaf(old(self).toks(), j) && tok_at(old(self).toks(), e) is RParen
                && ends_operand(old(self).toks(), e, 0)
        };
        while self.match_token(&Token::Comma)
            invariant
                old(self).steps(&*self),
                self.position() > old(self).position(),
                exprs@.len() > 0,
                simple == ({
                    let j = old(self).position() + 1;
                    let e = leaf_end(old(self).toks(), j);
                    old(self).current() is LParen && has_leaf(old(self).toks(), j) && tok_at(old(self).toks(), e) is RParen
                        && ends_operand(old(self).toks(), e, 0)
                }),
                simple ==> exprs@.len() == 1 && leaf_value(old(self).toks(), old(self).position() + 1, exprs@[0])
                    && old(self).moved_to(&*self, leaf_end(old(self).toks(), old(self).position() + 1)),
                toks == old(self).toks(),
                whole == paren_trees_at(toks, old(self).position(), empty_ok),
                !(empty_ok && tok_at(toks, old(self).position() + 1) is RParen),
                old(self).current() is LParen,
                whole is Some ==> {
                    &&& ts.len() >= 1 && ts.len() == exprs@.len()
                    &&& whole == call_args_from(toks, cur, ts.drop_last())
                    &&& op_expr_at(toks, cur, 0) == Some((ts.last(), self.position()))
                    &&& cur < self.position()
                    &&& trees_match(toks, exprs@, ts)
                    &&& old(self).moved_to(&*self, self.position())
                },
            decreases self.toks().len() - self.position(),
        {
            proof {
                if whole is Some {
                    assert(ts.drop_last().push(ts.last()) =~= ts);
                    assert(call_args_from(toks, cur, ts.drop_last()) == call_args_from(toks, self.position() + 1, ts));
                }
            }
            self.advance();
            let ghost pos = self.position();
            let e = match self.parse_expr() {
                Ok(e) => e,
                Err(e) => return Err(e),
            };
            proof {
                if whole is Some {
                    let old_ts = ts;
                    ts = ts.push(op_expr_at(toks, pos, 0)->Some_0.0);
                    cur = pos;
                    assert(ts.drop_last() =~= old_ts);
                    assert forall|m: int| 0 <= m < exprs@.len() + 1 implies tree_matches(toks, exprs@.push(e)[m], ts[m]) by {
                        if m < exprs@.len() {
                            assert(exprs@.push(e)[m] == exprs@[m]);
                            assert(ts[m] == old_ts[m]);
                        }
                    }
                }
            }
            exprs.push(e);
        }
        proof {
            if whole is Some {
                assert(ts.drop_last().push(ts.last()) =~= ts);
            }
        }
        match self.expect_token(&Token::RParen, ")") {
            Ok(()) => Ok(exprs),
            Err(e) => Err(e),
        }
    }

    /// `PARTITION (names)`, `PARTITION FOR (values)`, `SUBPARTITION (names)`,
    /// `SUBPARTITION FOR (values)`, or nothing.
    pub fn parse_dml_partition(&mut self) -> (r: Result<Option<DmlPartitionClause>, ParserError>)
        requires
            old(self).wf(),
        ensures
            old(self).steps(&*final(self)),
            !kw_at(old(self).toks(), old(self).position(), Keyword::PARTITION)
                && !kw_at(old(self).toks(), old(self).position(), Keyword::SUBPARTITION)
                ==> (r matches Ok(None) && old(self).moved_to(&*final(self), old(self).position())),
            match partition_for_at(old(self).toks(), old(self).position()) {
                Some(Ok(((sub, ts), q))) => r matches Ok(Some(c)) && partition_for_matches(old(self).toks(), c, sub, ts)
                    && old(self).moved_to(&*final(self), q),
                Some(Err((q, e))) => r is Err && old(self).moved_to(&*final(self), q) && old(self).reports(r->Err_0, q, e),
                None => true,
            },
            match named_partitions_at(old(self).toks(), old(self).position()) {
                Some(o) => agrees(&*old(self), &*final(self), r, o,
                    |c: Option<DmlPartitionClause>| named_partitions_view(c.unwrap()).unwrap())
                    && (r is Ok ==> r->Ok_0 is Some && named_partitions_view(r->Ok_0.unwrap()) is Some),
                None => r matches Ok(Some(c)) ==> {
                    &&& kw_at(old(self).toks(), old(self).position() + 1, Keyword::FOR)
                    &&& (kw_at(old(self).toks(), old(self).position(), Keyword::PARTITION) ==> c is PartitionFor)
                    &&& (kw_at(old(self).toks(), old(self).position(), Keyword::SUBPARTITION) ==> c is SubpartitionFor)
                },
            },
    {
        let sub = if self.match_keyword(Keyword::PARTITION) {
            false
        } else if self.match_keyword(Keyword::SUBPARTITION) {
            true
        } else {
            return Ok(None);
        };
        self.advance();
        if self.match_keyword(Keyword::FOR) {
            self.advance();
            let exprs = match self.parse_paren_expr_list(false) {
                Ok(v) => v,
                Err(e) => return Err(e),
            };
            if sub {
                Ok(Some(DmlPartitionClause::SubpartitionFor(exprs)))
            } else {
                Ok(Some(DmlPartitionClause::PartitionFor(exprs)))
            }
        } else {
            let names = match self.parse_paren_identifiers() {
                Ok(v) => v,
                Err(e) => return Err(e),
            };
            if sub {
                Ok(Some(DmlPartitionClause::Subpartition(names)))
            } else {
                Ok(Some(DmlPartitionClause::Partition(names)))
            }
        }
    }
}

} // verus!
