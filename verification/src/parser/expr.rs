//! Expressions and data types: a precedence-climbing expression parser with the
//! special call forms of SQL (CAST, OVERLAY, POSITION, SUBSTRING, EXTRACT, TRIM,
//! window clauses, CASE and the XML functions), and the data-type grammar that
//! casts and column definitions share with it.
//!
//! Subqueries are outside this parser: where a `SELECT` or `WITH` would open one,
//! the token is reported as an unexpected one where an expression was expected.
use vstd::prelude::*;
use crate::ast::{
    DataType, Expr, IntervalType, Literal, ObjectName, OrderByItem, TimeZoneInfo, WhenClause,
    WindowFrame, WindowFrameBound, WindowFrameDirection, WindowFrameMode, WindowSpec,
    XmlAttribute, XmlAttributes, XmlContent, XmlOption,
};
use crate::error::{ParserError, SourceLocation, warnings_are};
use crate::function_registry::{last_segment, last_segment_of};
use crate::function_validator::{list_messages, validate_function_call};
use crate::parser::ddl::{kw_at, int_literal_at, opt_precision_at, timezone_at, agrees};
use crate::parser::{ident_text, ident_word_at, name_tail, object_name_at, tok_at, keyword_at, Outcome, Parser, strings_view};
use crate::text::{
    chars_of, debug_str, decimal, push_decimal, push_signed, signed_decimal, strs_equal, to_lowercase, to_uppercase, unicode_lowercase, unicode_uppercase,
    str_debug_text, string_from_chars,
};
use crate::token::{keyword_text, same_token, wrap, wrapped, Keyword, Token};

verus! {

// ────────────────────────────────────────────────────────────────
// Infix operators
// ────────────────────────────────────────────────────────────────

/// Comparison operators written as an operator token.
pub open spec fn is_comparison_op(s: Seq<char>) -> bool {
    s == "<="@ || s == ">="@ || s == "<>"@ || s == "!="@ || s == "<?>"@
}

/// The binding power and spelling of the infix operator token `t`, if it is one.
/// All infix operators associate to the left.
pub open spec fn infix_of(t: Token) -> Option<(u8, Seq<char>)> {
    match t {
        Token::Keyword(Keyword::OR) => Some((5u8, "OR"@)),
        Token::Keyword(Keyword::AND) => Some((10u8, "AND"@)),
        Token::Eq => Some((20u8, "="@)),
        Token::Lt => Some((20u8, "<"@)),
        Token::Gt => Some((20u8, ">"@)),
        Token::Op(s) => Some((if is_comparison_op(s@) { 20u8 } else { 30u8 }, s@)),
        Token::Plus => Some((40u8, "+"@)),
        Token::Minus => Some((40u8, "-"@)),
        Token::Star => Some((50u8, "*"@)),
        Token::Slash => Some((50u8, "/"@)),
        Token::Percent => Some((50u8, "%"@)),
        Token::Caret => Some((55u8, "^"@)),
        Token::Typecast => Some((90u8, "::"@)),
        _ => None,
    }
}

/// Prefix operators written as an operator token.
pub open spec fn is_prefix_op(s: Seq<char>) -> bool {
    s == "|/"@ || s == "||/"@ || s == "!!"@ || s == "?|"@ || s == "?-"@ || s == "?-|"@ || s == "?||"@
}

fn is_comparison_op_str(s: &str) -> (r: bool)
    ensures
        r == is_comparison_op(s@),
{
    strs_equal(s, "<=") || strs_equal(s, ">=") || strs_equal(s, "<>") || strs_equal(s, "!=") || strs_equal(s, "<?>")
}

fn is_prefix_op_str(s: &str) -> (r: bool)
    ensures
        r == is_prefix_op(s@),
{
    strs_equal(s, "|/") || strs_equal(s, "||/") || strs_equal(s, "!!") || strs_equal(s, "?|")
        || strs_equal(s, "?-") || strs_equal(s, "?-|") || strs_equal(s, "?||")
}

// ────────────────────────────────────────────────────────────────
// Numbers written in several tokens
// ────────────────────────────────────────────────────────────────

/// An exponent suffix such as `e10`: `e` followed by at least one ASCII digit.
pub open spec fn is_exponent_suffix(s: Seq<char>) -> bool {
    s.len() > 1 && s[0] == 'e' && forall|i: int| 1 <= i < s.len() ==> '0' <= #[trigger] s[i] <= '9'
}

fn exponent_suffix(s: &Vec<char>) -> (r: bool)
    ensures
        r == is_exponent_suffix(s@),
{
    if s.len() <= 1 || s[0] != 'e' {
        return false;
    }
    let mut i: usize = 1;
    while i < s.len()
        invariant
            1 <= i <= s.len(),
            forall|j: int| 1 <= j < i ==> '0' <= #[trigger] s@[j] <= '9',
        decreases s.len() - i,
    {
        if s[i] < '0' || s[i] > '9' {
            return false;
        }
        i = i + 1;
    }
    true
}

/// How an integer token at `i` reads together with what follows it: `n . m` is a
/// decimal, `n` followed by an exponent word such as `e5` is a float, anything else
/// leaves the integer alone. The result is the float text (if any) and the end.
pub open spec fn number_at(toks: Seq<Token>, i: int, n: i64) -> (Option<Seq<char>>, int) {
    if tok_at(toks, i + 1) is Dot && tok_at(toks, i + 2) is Integer {
        (Some(signed_decimal(n as int) + seq!['.'] + signed_decimal(tok_at(toks, i + 2)->Integer_0 as int)), i + 3)
    } else if tok_at(toks, i + 1) is Ident && is_exponent_suffix(unicode_lowercase(tok_at(toks, i + 1)->Ident_0@)) {
        (Some(signed_decimal(n as int) + tok_at(toks, i + 1)->Ident_0@), i + 2)
    } else {
        (None, i + 1)
    }
}

// ────────────────────────────────────────────────────────────────
// Window frames
// ────────────────────────────────────────────────────────────────

/// A frame bound at `i`: `UNBOUNDED PRECEDING|FOLLOWING`, `CURRENT ROW`, or an optional
/// integer (zero when absent) followed by `PRECEDING|FOLLOWING`.
pub open spec fn frame_bound_at(toks: Seq<Token>, i: int) -> Outcome<WindowFrameDirection> {
    if kw_at(toks, i, Keyword::UNBOUNDED) {
        if kw_at(toks, i + 1, Keyword::PRECEDING) {
            Ok((WindowFrameDirection::UnboundedPreceding, i + 2))
        } else if kw_at(toks, i + 1, Keyword::FOLLOWING) {
            Ok((WindowFrameDirection::UnboundedFollowing, i + 2))
        } else {
            Err((i + 1, "FOLLOWING"@))
        }
    } else if kw_at(toks, i, Keyword::CURRENT_P) {
        if kw_at(toks, i + 1, Keyword::ROW) {
            Ok((WindowFrameDirection::CurrentRow, i + 2))
        } else {
            Err((i + 1, "ROW"@))
        }
    } else {
        let (offset, j) = match tok_at(toks, i) {
            Token::Integer(n) => (n, i + 1),
            _ => (0i64, i),
        };
        if kw_at(toks, j, Keyword::PRECEDING) {
            Ok((WindowFrameDirection::Preceding(offset), j + 1))
        } else if kw_at(toks, j, Keyword::FOLLOWING) {
            Ok((WindowFrameDirection::Following(offset), j + 1))
        } else {
            Err((j, "FOLLOWING"@))
        }
    }
}

/// A frame extent at `i`: `BETWEEN bound AND bound`, or a single start bound.
pub open spec fn frame_extent_at(toks: Seq<Token>, i: int) -> Outcome<(WindowFrameDirection, Option<WindowFrameDirection>)> {
    if kw_at(toks, i, Keyword::BETWEEN) {
        match frame_bound_at(toks, i + 1) {
            Err(e) => Err(e),
            Ok((start, j)) => if kw_at(toks, j, Keyword::AND) {
                match frame_bound_at(toks, j + 1) {
                    Err(e) => Err(e),
                    Ok((end, k)) => Ok(((start, Some(end)), k)),
                }
            } else {
                Err((j, "AND"@))
            },
        }
    } else {
        match frame_bound_at(toks, i) {
            Err(e) => Err(e),
            Ok((start, j)) => Ok(((start, None), j)),
        }
    }
}

/// The view of a frame extent: the directions of its bounds.
pub open spec fn extent_view(v: (Option<WindowFrameBound>, Option<WindowFrameBound>)) -> (WindowFrameDirection, Option<WindowFrameDirection>) {
    (
        v.0.unwrap().direction,
        match v.1 {
            Some(b) => Some(b.direction),
            None => None,
        },
    )
}

// ────────────────────────────────────────────────────────────────
// Interval qualifiers
// ────────────────────────────────────────────────────────────────

/// The unit an interval keyword names.
pub open spec fn interval_unit(k: Option<Keyword>) -> Option<Seq<char>> {
    match k {
        Some(Keyword::YEAR_P) => Some("YEAR"@),
        Some(Keyword::MONTH_P) => Some("MONTH"@),
        Some(Keyword::DAY_P) => Some("DAY"@),
        Some(Keyword::HOUR_P) => Some("HOUR"@),
        Some(Keyword::MINUTE_P) => Some("MINUTE"@),
        Some(Keyword::SECOND_P) => Some("SECOND"@),
        _ => None,
    }
}

/// An optional precision that is dropped, not reported, when malformed: the value,
/// and where the cursor is left (at the offending token in that case).
pub open spec fn lenient_precision_at(toks: Seq<Token>, i: int) -> (Option<u32>, int) {
    match opt_precision_at(toks, i) {
        Ok((v, j)) => (v, j),
        Err((j, _)) => (None, j),
    }
}

/// The parts of an interval qualifier: the leading unit and its precision, and the
/// unit after `TO` with its precision.
pub type IntervalParts = (Seq<char>, Option<u32>, Option<Seq<char>>, Option<u32>);

/// An optional interval qualifier at `i` (`DAY`, `DAY(3) TO SECOND(6)`, ...).
pub open spec fn interval_at(toks: Seq<Token>, i: int) -> Outcome<Option<IntervalParts>> {
    match interval_unit(keyword_at(toks, i)) {
        None => Ok((None, i)),
        Some(from) => {
            let (from_precision, j) = lenient_precision_at(toks, i + 1);
            if kw_at(toks, j, Keyword::TO) {
                match interval_unit(keyword_at(toks, j + 1)) {
                    None => Err((j + 1, "interval unit after TO"@)),
                    Some(to) => {
                        let (to_precision, k) = lenient_precision_at(toks, j + 2);
                        Ok((Some((from, from_precision, Some(to), to_precision)), k))
                    },
                }
            } else {
                Ok((Some((from, from_precision, None, None)), j))
            }
        },
    }
}

pub open spec fn opt_text(o: Option<String>) -> Option<Seq<char>> {
    match o {
        Some(s) => Some(s@),
        None => None,
    }
}

/// The view of an interval qualifier.
pub open spec fn interval_view(v: Option<IntervalType>) -> Option<IntervalParts> {
    match v {
        Some(it) => Some((it.from@, it.from_precision, opt_text(it.to), it.to_precision)),
        None => None,
    }
}

impl Parser {
    /// The binding power, spelling and associativity (always left) of the operator
    /// under the cursor, if it is an infix operator.
    fn get_infix_operator(&self) -> (r: Option<(u8, String, bool)>)
        requires
            self.wf(),
        ensures
            match infix_of(self.current()) {
                Some((p, s)) => r matches Some((q, t, right)) && q == p && t@ == s && !right,
                None => r is None,
            },
    {
        match self.peek() {
            Token::Keyword(Keyword::OR) => Some((5, String::from_str("OR"), false)),
            Token::Keyword(Keyword::AND) => Some((10, String::from_str("AND"), false)),
            Token::Eq => Some((20, String::from_str("="), false)),
            Token::Lt => Some((20, String::from_str("<"), false)),
            Token::Gt => Some((20, String::from_str(">"), false)),
            Token::Op(op) => {
                let prec: u8 = if is_comparison_op_str(op.as_str()) { 20 } else { 30 };
                Some((prec, op.clone(), false))
            },
            Token::Plus => Some((40, String::from_str("+"), false)),
            Token::Minus => Some((40, String::from_str("-"), false)),
            Token::Star => Some((50, String::from_str("*"), false)),
            Token::Slash => Some((50, String::from_str("/"), false)),
            Token::Percent => Some((50, String::from_str("%"), false)),
            Token::Caret => Some((55, String::from_str("^"), false)),
            Token::Typecast => Some((90, String::from_str("::"), false)),
            _ => None,
        }
    }

    /// A single frame bound.
    fn parse_frame_bound(&mut self) -> (r: Result<WindowFrameBound, ParserError>)
        requires
            old(self).wf(),
        ensures
            final(self).wf(),
            agrees(&*old(self), &*final(self), r, frame_bound_at(old(self).toks(), old(self).position()),
                |b: WindowFrameBound| b.direction),
    {
        if self.match_keyword(Keyword::UNBOUNDED) {
            self.advance();
            if self.match_keyword(Keyword::PRECEDING) {
                self.advance();
                Ok(WindowFrameBound { direction: WindowFrameDirection::UnboundedPreceding })
            } else {
                match self.expect_keyword(Keyword::FOLLOWING) {
                    Ok(()) => Ok(WindowFrameBound { direction: WindowFrameDirection::UnboundedFollowing }),
                    Err(e) => Err(e),
                }
            }
        } else if self.match_keyword(Keyword::CURRENT_P) {
            self.advance();
            match self.expect_keyword(Keyword::ROW) {
                Ok(()) => Ok(WindowFrameBound { direction: WindowFrameDirection::CurrentRow }),
                Err(e) => Err(e),
            }
        } else {
            let number: Option<i64> = match self.peek() {
                Token::Integer(n) => Some(*n),
                _ => None,
            };
            let offset: i64 = match number {
                Some(n) => {
                    self.advance();
                    n
                },
                None => 0,
            };
            if self.match_keyword(Keyword::PRECEDING) {
                self.advance();
                Ok(WindowFrameBound { direction: WindowFrameDirection::Preceding(offset) })
            } else {
                match self.expect_keyword(Keyword::FOLLOWING) {
                    Ok(()) => Ok(WindowFrameBound { direction: WindowFrameDirection::Following(offset) }),
                    Err(e) => Err(e),
                }
            }
        }
    }

    /// A frame extent: `BETWEEN bound AND bound`, or a single start bound.
    fn parse_frame_extent(&mut self) -> (r: Result<(Option<WindowFrameBound>, Option<WindowFrameBound>), ParserError>)
        requires
            old(self).wf(),
        ensures
            final(self).wf(),
            r matches Ok(v) ==> v.0 is Some,
            agrees(&*old(self), &*final(self), r, frame_extent_at(old(self).toks(), old(self).position()),
                |v: (Option<WindowFrameBound>, Option<WindowFrameBound>)| extent_view(v)),
    {
        if self.match_keyword(Keyword::BETWEEN) {
            self.advance();
            let start = match self.parse_frame_bound() {
                Ok(b) => b,
                Err(e) => return Err(e),
            };
            match self.expect_keyword(Keyword::AND) {
                Ok(()) => {},
                Err(e) => return Err(e),
            }
            let end = match self.parse_frame_bound() {
                Ok(b) => b,
                Err(e) => return Err(e),
            };
            Ok((Some(start), Some(end)))
        } else {
            let start = match self.parse_frame_bound() {
                Ok(b) => b,
                Err(e) => return Err(e),
            };
            Ok((Some(start), None))
        }
    }

    /// Takes a plain or quoted identifier as the name of an existing window, unless
    /// the window specification starts with `PARTITION` or `ORDER`.
    fn try_parse_window_name(&mut self) -> (r: Option<String>)
        requires
            old(self).wf(),
        ensures
            final(self).wf(),
            match old(self).current() {
                Token::Ident(s) => r is Some && r->0@ == s@ && old(self).moved_to(&*final(self), old(self).position() + 1),
                Token::QuotedIdent(s) => r is Some && r->0@ == s@ && old(self).moved_to(&*final(self), old(self).position() + 1),
                _ => r is None && old(self).moved_to(&*final(self), old(self).position()),
            },
    {
        let name: Option<String> = match self.peek() {
            Token::Ident(s) => Some(s.clone()),
            Token::QuotedIdent(s) => Some(s.clone()),
            _ => None,
        };
        if name.is_some() {
            self.advance();
        }
        name
    }

    fn interval_unit_name(k: Option<Keyword>) -> (r: Option<&'static str>)
        ensures
            match interval_unit(k) {
                Some(u) => r is Some && r->0@ == u,
                None => r is None,
            },
    {
        match k {
            Some(Keyword::YEAR_P) => Some("YEAR"),
            Some(Keyword::MONTH_P) => Some("MONTH"),
            Some(Keyword::DAY_P) => Some("DAY"),
            Some(Keyword::HOUR_P) => Some("HOUR"),
            Some(Keyword::MINUTE_P) => Some("MINUTE"),
            Some(Keyword::SECOND_P) => Some("SECOND"),
            _ => None,
        }
    }

    /// A precision whose malformation is ignored: the cursor stays where the error arose.
    fn parse_lenient_precision(&mut self) -> (r: Option<u32>)
        requires
            old(self).wf(),
        ensures
            final(self).wf(),
            r == lenient_precision_at(old(self).toks(), old(self).position()).0,
            old(self).moved_to(&*final(self), lenient_precision_at(old(self).toks(), old(self).position()).1),
    {
        match self.parse_opt_int_precision() {
            Ok(v) => v,
            Err(_) => None,
        }
    }

    /// An optional interval qualifier: a unit with an optional precision, optionally
    /// followed by `TO` and a second unit with its own optional precision.
    pub fn parse_opt_interval_type(&mut self) -> (r: Result<Option<IntervalType>, ParserError>)
        requires
            old(self).wf(),
        ensures
            final(self).wf(),
            agrees(&*old(self), &*final(self), r, interval_at(old(self).toks(), old(self).position()),
                |v: Option<IntervalType>| interval_view(v)),
    {
        let unit = match Self::interval_unit_name(self.peek_keyword()) {
            Some(u) => u,
            None => return Ok(None),
        };
        self.advance();
        let from_precision = self.parse_lenient_precision();
        if self.match_keyword(Keyword::TO) {
            self.advance();
            let to_unit = match Self::interval_unit_name(self.peek_keyword()) {
                Some(u) => u,
                None => return Err(self.unexpected("interval unit after TO")),
            };
            self.advance();
            let to_precision = self.parse_lenient_precision();
            Ok(Some(IntervalType {
                from: String::from_str(unit),
                from_precision,
                to: Some(String::from_str(to_unit)),
                to_precision,
            }))
        } else {
            Ok(Some(IntervalType { from: String::from_str(unit), from_precision, to: None, to_precision: None }))
        }
    }
}

// ────────────────────────────────────────────────────────────────
// Helpers of the expression grammar
// ────────────────────────────────────────────────────────────────

/// The keywords that read as the name of a built-in value (`SYSDATE`, `CURRENT_USER`, ...).
pub open spec fn is_builtin_value_keyword(k: Keyword) -> bool {
    k == Keyword::SYSDATE || k == Keyword::ROWNUM || k == Keyword::CURRENT_DATE
        || k == Keyword::CURRENT_CATALOG || k == Keyword::CURRENT_USER || k == Keyword::SESSION_USER
}

/// The units that may follow an interval literal (`INTERVAL '2' MONTH`).
pub open spec fn is_interval_literal_unit(k: Keyword) -> bool {
    k == Keyword::DAY_P || k == Keyword::YEAR_P || k == Keyword::MONTH_P || k == Keyword::HOUR_P
        || k == Keyword::MINUTE_P || k == Keyword::SECOND_P || k == Keyword::DAY_HOUR_P
        || k == Keyword::DAY_MINUTE_P || k == Keyword::DAY_SECOND_P || k == Keyword::HOUR_MINUTE_P
        || k == Keyword::HOUR_SECOND_P || k == Keyword::MINUTE_SECOND_P || k == Keyword::YEAR_MONTH_P
}

fn interval_literal_unit(k: Keyword) -> (r: bool)
    ensures
        r == is_interval_literal_unit(k),
{
    k == Keyword::DAY_P || k == Keyword::YEAR_P || k == Keyword::MONTH_P || k == Keyword::HOUR_P
        || k == Keyword::MINUTE_P || k == Keyword::SECOND_P || k == Keyword::DAY_HOUR_P
        || k == Keyword::DAY_MINUTE_P || k == Keyword::DAY_SECOND_P || k == Keyword::HOUR_MINUTE_P
        || k == Keyword::HOUR_SECOND_P || k == Keyword::MINUTE_SECOND_P || k == Keyword::YEAR_MONTH_P
}

/// The segments of a name joined by `.`.
pub open spec fn dotted(parts: Seq<Seq<char>>) -> Seq<char>
    decreases parts.len(),
{
    if parts.len() == 0 {
        seq![]
    } else if parts.len() == 1 {
        parts[0]
    } else {
        dotted(parts.drop_last()) + seq!['.'] + parts.last()
    }
}

/// `name.join(".")`.
pub fn join_dotted(name: &Vec<String>) -> (r: String)
    ensures
        r@ == dotted(strings_view(name@)),
{
    let mut r = String::new();
    let mut i: usize = 0;
    while i < name.len()
        invariant
            i <= name.len(),
            r@ == dotted(strings_view(name@.take(i as int))),
        decreases name.len() - i,
    {
        if i > 0 {
            r.push('.');
        }
        r.append(name[i].as_str());
        proof {
            let prev = strings_view(name@.take(i as int));
            let next = strings_view(name@.take(i + 1));
            assert(next.drop_last() =~= prev);
            assert(next.last() == name@[i as int]@);
            if i == 0 {
                assert(prev =~= Seq::<Seq<char>>::empty());
            }
        }
        i = i + 1;
    }
    assert(name@.take(name.len() as int) =~= name@);
    r
}

/// The name a call is checked under: the last segment of the lower-cased last part.
pub open spec fn call_check_name(name: Seq<String>) -> Seq<char> {
    if name.len() > 0 {
        last_segment(unicode_lowercase(name.last()@))
    } else {
        seq![]
    }
}

/// The warning text for the deprecated `(+)` outer-join marker.
pub open spec fn outer_join_message() -> Seq<char> {
    "Oracle-style outer join operator '(+)' is deprecated, use standard JOIN syntax instead"@
}

/// Where `[ON|on] [CONVERSION] [ERROR]` ends at `i` (each word optional after `ON`).
pub open spec fn conversion_clause_end(toks: Seq<Token>, i: int) -> int {
    if kw_at(toks, i, Keyword::ON) || ident_word_at(toks, i, "on"@) {
        let j = i + 1;
        let k = if ident_word_at(toks, j, "CONVERSION"@) { j + 1 } else { j };
        if ident_word_at(toks, k, "ERROR"@) { k + 1 } else { k }
    } else {
        i
    }
}

/// An optional alias: `AS name`, or a bare plain or quoted identifier.
pub open spec fn alias_at(toks: Seq<Token>, i: int) -> Outcome<Option<Seq<char>>> {
    if kw_at(toks, i, Keyword::AS) {
        match ident_text(tok_at(toks, i + 1)) {
            Some(t) => Ok((Some(t), i + 2)),
            None => Err((i + 1, "identifier"@)),
        }
    } else {
        match tok_at(toks, i) {
            Token::Ident(s) => Ok((Some(s@), i + 1)),
            Token::QuotedIdent(s) => Ok((Some(s@), i + 1)),
            _ => Ok((None, i)),
        }
    }
}

/// The literal that a single token stands for.
pub open spec fn token_literal(t: Token, e: Expr) -> bool {
    match t {
        Token::Float(s) => e matches Expr::Literal(Literal::Float(x)) && x@ == s@,
        Token::StringLiteral(s) => e matches Expr::Literal(Literal::String(x)) && x@ == s@,
        Token::EscapeString(s) => e matches Expr::Literal(Literal::EscapeString(x)) && x@ == s@,
        Token::BitString(s) => e matches Expr::Literal(Literal::BitString(x)) && x@ == s@,
        Token::HexString(s) => e matches Expr::Literal(Literal::HexString(x)) && x@ == s@,
        Token::NationalString(s) => e matches Expr::Literal(Literal::NationalString(x)) && x@ == s@,
        Token::DollarString { tag, body } => e matches Expr::Literal(Literal::DollarString { tag: t2, body: b2 })
            && t2@ == tag@ && b2@ == body@,
        Token::Keyword(Keyword::TRUE_P) => e == Expr::Literal(Literal::Boolean(true)),
        Token::Keyword(Keyword::FALSE_P) => e == Expr::Literal(Literal::Boolean(false)),
        Token::Keyword(Keyword::NULL_P) => e == Expr::Literal(Literal::Null),
        Token::Param(n) => e == Expr::Parameter(n),
        Token::SetIdent(s) => e matches Expr::ColumnRef(name) && strings_view(name@) == seq![s@],
        Token::Star => e matches Expr::ColumnRef(name) && strings_view(name@) == seq!["*"@],
        Token::Keyword(k) => is_builtin_value_keyword(k) && (e matches Expr::ColumnRef(name)
            && strings_view(name@) == seq![keyword_text(k)]),
        _ => false,
    }
}

/// Tokens that stand for a literal (or a built-in value) on their own.
pub open spec fn is_literal_token(t: Token) -> bool {
    match t {
        Token::Float(_) | Token::StringLiteral(_) | Token::EscapeString(_) | Token::BitString(_)
        | Token::HexString(_) | Token::NationalString(_) | Token::DollarString { .. } | Token::Param(_)
        | Token::SetIdent(_) | Token::Star => true,
        Token::Keyword(k) => k == Keyword::TRUE_P || k == Keyword::FALSE_P || k == Keyword::NULL_P
            || is_builtin_value_keyword(k),
        _ => false,
    }
}

/// Tokens that cannot start an operand (prefix operators are handled before operands).
pub open spec fn is_non_operand(t: Token) -> bool {
    match t {
        Token::RParen | Token::RBracket | Token::Comma | Token::Semicolon | Token::Dot | Token::Colon
        | Token::Eq | Token::Lt | Token::Gt | Token::Plus | Token::Minus | Token::Slash | Token::Percent
        | Token::Caret | Token::At | Token::Typecast | Token::Op(_) | Token::Eof => true,
        _ => false,
    }
}

/// The shape an operand takes after its first token.
pub open spec fn operand_shape(t: Token, e: Expr) -> bool {
    match t {
        Token::Keyword(Keyword::CASE) => e is Case,
        Token::Keyword(Keyword::CAST) => e is TypeCast,
        Token::Keyword(Keyword::ARRAY) => e is Array,
        Token::Keyword(Keyword::XMLELEMENT) => e is XmlElement,
        Token::Keyword(Keyword::XMLCONCAT) => e is XmlConcat,
        Token::Keyword(Keyword::XMLFOREST) => e is XmlForest,
        Token::Keyword(Keyword::XMLPARSE) => e is XmlParse,
        Token::Keyword(Keyword::XMLPI) => e is XmlPi,
        Token::Keyword(Keyword::XMLROOT) => e is XmlRoot,
        Token::Keyword(Keyword::XMLSERIALIZE) => e is XmlSerialize,
        Token::LParen => e is Parenthesized || e is RowConstructor,
        Token::LBracket => e is Array,
        Token::Ident(_) | Token::QuotedIdent(_) => e is ColumnRef || e is QualifiedStar || e is TypeCast
            || e is FunctionCall || e is SpecialFunction,
        _ => true,
    }
}

/// A sort direction word at `i`: `ASC` is ascending, `DESC` descending.
pub open spec fn sort_direction(toks: Seq<Token>, i: int) -> Option<bool> {
    if kw_at(toks, i, Keyword::ASC) {
        Some(true)
    } else if kw_at(toks, i, Keyword::DESC) {
        Some(false)
    } else {
        None
    }
}

/// A one-part name.
fn single_name(s: String) -> (v: Vec<String>)
    ensures
        v@.len() == 1,
        v@[0] == s,
        strings_view(v@) == seq![s@],
{
    let v = vec![s];
    assert(strings_view(v@) =~= seq![s@]);
    v
}

impl Parser {
    /// Checks a call against the function lists and records the warnings, at the
    /// current location, under the last segment of the lower-cased name.
    fn validate_func(&mut self, name: &ObjectName, arg_count: usize, distinct: bool, has_over: bool)
        requires
            old(self).wf(),
        ensures
            old(self).steps(&*final(self)),
            final(self).position() == old(self).position(),
            final(self).warnings().take(old(self).warnings().len() as int) == old(self).warnings(),
            warnings_are(
                final(self).warnings().skip(old(self).warnings().len() as int),
                list_messages(
                    call_check_name(name@),
                    unicode_lowercase(call_check_name(name@)),
                    arg_count as nat,
                    distinct,
                    has_over,
                ),
                old(self).location_at(old(self).position()),
            ),
    {
        let lower = if name.len() > 0 {
            to_lowercase(name[name.len() - 1].as_str())
        } else {
            String::new()
        };
        let lower_chars = chars_of(lower.as_str());
        let last = string_from_chars(&last_segment_of(&lower_chars));
        proof {
            if name.len() == 0 {
                assert(lower_chars@ =~= Seq::<char>::empty());
                assert(last_segment(lower_chars@) =~= Seq::<char>::empty());
            }
        }
        let loc = self.current_location();
        let mut warnings = validate_function_call(last.as_str(), arg_count, distinct, has_over, loc);
        let ghost before = self.warnings();
        let ghost added = warnings@;
        self.add_errors(&mut warnings);
        assert(self.warnings().take(before.len() as int) =~= before);
        assert forall|i: int| 0 <= i < before.len() implies self.warnings()[i] == before[i] by {
            assert(self.warnings()[i] == (before + added)[i]);
        }
        assert(self.warnings().skip(before.len() as int) =~= added);
    }

    /// Checks a call against the function lists under the last segment of its name as
    /// written, and records the warnings at the current location; a call without a name
    /// records none.
    pub fn validate_function_args(&mut self, name: &ObjectName, args: &Vec<Expr>, distinct: bool, over: &Option<Box<Expr>>)
        requires
            old(self).wf(),
        ensures
            old(self).steps(&*final(self)),
            final(self).position() == old(self).position(),
            final(self).warnings().take(old(self).warnings().len() as int) == old(self).warnings(),
            name@.len() == 0 ==> final(self).warnings() == old(self).warnings(),
            name@.len() > 0 ==> warnings_are(
                final(self).warnings().skip(old(self).warnings().len() as int),
                list_messages(
                    name@.last()@,
                    unicode_lowercase(name@.last()@),
                    args.len() as nat,
                    distinct,
                    over is Some,
                ),
                old(self).location_at(old(self).position()),
            ),
    {
        if name.len() == 0 {
            assert(self.warnings().take(self.warnings().len() as int) =~= self.warnings());
            return;
        }
        let last = &name[name.len() - 1];
        let loc = self.current_location();
        let mut warnings = validate_function_call(last.as_str(), args.len(), distinct, over.is_some(), loc);
        let ghost before = self.warnings();
        let ghost added = warnings@;
        self.add_errors(&mut warnings);
        assert(self.warnings().take(before.len() as int) =~= before);
        assert forall|i: int| 0 <= i < before.len() implies self.warnings()[i] == before[i] by {
            assert(self.warnings()[i] == (before + added)[i]);
        }
        assert(self.warnings().skip(before.len() as int) =~= added);
    }

    /// Skips `ON [CONVERSION] [ERROR]` after a default value.
    fn skip_conversion_clause(&mut self)
        requires
            old(self).wf(),
        ensures
            final(self).wf(),
            old(self).moved_to(&*final(self), conversion_clause_end(old(self).toks(), old(self).position())),
    {
        if self.match_keyword(Keyword::ON) || self.match_ident_str("on") {
            self.advance();
            if self.match_ident_str("CONVERSION") {
                self.advance();
            }
            if self.match_ident_str("ERROR") {
                self.advance();
            }
        }
    }

    /// An optional alias: `AS name`, or a bare plain or quoted identifier.
    pub fn parse_optional_alias(&mut self) -> (r: Result<Option<String>, ParserError>)
        requires
            old(self).wf(),
        ensures
            final(self).wf(),
            agrees(&*old(self), &*final(self), r, alias_at(old(self).toks(), old(self).position()),
                |v: Option<String>| opt_text(v)),
    {
        if self.match_keyword(Keyword::AS) {
            self.advance();
            match self.parse_identifier() {
                Ok(s) => Ok(Some(s)),
                Err(e) => Err(e),
            }
        } else {
            let name: Option<String> = match self.peek() {
                Token::Ident(s) => Some(s.clone()),
                Token::QuotedIdent(s) => Some(s.clone()),
                _ => None,
            };
            if name.is_some() {
                self.advance();
            }
            Ok(name)
        }
    }

    /// The sort direction under the cursor, consumed if present.
    fn parse_sort_direction(&mut self) -> (r: Option<bool>)
        requires
            old(self).wf(),
        ensures
            final(self).wf(),
            r == sort_direction(old(self).toks(), old(self).position()),
            old(self).moved_to(&*final(self), if r is Some { old(self).position() + 1 } else { old(self).position() }),
    {
        match self.peek_keyword() {
            Some(Keyword::ASC) => {
                self.advance();
                Some(true)
            },
            Some(Keyword::DESC) => {
                self.advance();
                Some(false)
            },
            _ => None,
        }
    }

    /// Whether the cursor is at `SELECT` or `WITH`, where a subquery would start.
    fn at_subquery(&self) -> (r: bool)
        requires
            self.wf(),
        ensures
            r == (self.current() == Token::Keyword(Keyword::SELECT) || self.current() == Token::Keyword(Keyword::WITH)),
    {
        self.match_keyword(Keyword::SELECT) || self.match_keyword(Keyword::WITH)
    }
}

// ────────────────────────────────────────────────────────────────
// Postfix operators
// ────────────────────────────────────────────────────────────────

/// `IS NULL`, `IS NOT NULL`, `ISNULL`, `NOTNULL` at `i`: whether the test is negated,
/// and where it ends.
pub open spec fn null_test_at(toks: Seq<Token>, i: int) -> Option<(bool, int)> {
    if kw_at(toks, i, Keyword::IS) && kw_at(toks, i + 1, Keyword::NULL_P) {
        Some((false, i + 2))
    } else if kw_at(toks, i, Keyword::IS) && kw_at(toks, i + 1, Keyword::NOT) && kw_at(toks, i + 2, Keyword::NULL_P) {
        Some((true, i + 3))
    } else if kw_at(toks, i, Keyword::ISNULL) {
        Some((false, i + 1))
    } else if kw_at(toks, i, Keyword::NOTNULL) {
        Some((true, i + 1))
    } else {
        None
    }
}

/// The deprecated outer-join marker `(+)` at `i`.
pub open spec fn outer_join_at(toks: Seq<Token>, i: int) -> bool {
    tok_at(toks, i) is LParen && tok_at(toks, i + 1) is Plus && tok_at(toks, i + 2) is RParen
}

/// Postfix forms that go on to parse operands: `[NOT] BETWEEN`, `[NOT] IN`,
/// `[NOT] LIKE`, `ILIKE`, and a subscript `[ ... ]`.
pub open spec fn operand_postfix_at(toks: Seq<Token>, i: int) -> bool {
    ||| kw_at(toks, i, Keyword::BETWEEN)
    ||| kw_at(toks, i, Keyword::IN_P)
    ||| kw_at(toks, i, Keyword::LIKE)
    ||| kw_at(toks, i, Keyword::ILIKE)
    ||| tok_at(toks, i) is LBracket
    ||| kw_at(toks, i, Keyword::NOT) && (kw_at(toks, i + 1, Keyword::BETWEEN) || kw_at(toks, i + 1, Keyword::IN_P)
        || kw_at(toks, i + 1, Keyword::LIKE))
}

/// The expression a postfix form at `i` builds around `left`.
pub open spec fn postfix_shape(toks: Seq<Token>, i: int, left: Expr, e: Expr) -> bool {
    if kw_at(toks, i, Keyword::BETWEEN) {
        e matches Expr::Between { expr, negated, .. } && *expr == left && !negated
    } else if kw_at(toks, i, Keyword::IN_P) {
        e matches Expr::InList { expr, negated, .. } && *expr == left && !negated
    } else if kw_at(toks, i, Keyword::LIKE) {
        e matches Expr::BinaryOp { left: l, op, .. } && *l == left && op@ == "LIKE"@
    } else if kw_at(toks, i, Keyword::ILIKE) {
        e matches Expr::BinaryOp { left: l, op, .. } && *l == left && op@ == "ILIKE"@
    } else if tok_at(toks, i) is LBracket {
        e matches Expr::Subscript { object, .. } && *object == left
    } else if kw_at(toks, i + 1, Keyword::BETWEEN) {
        e matches Expr::Between { expr, negated, .. } && *expr == left && negated
    } else if kw_at(toks, i + 1, Keyword::IN_P) {
        e matches Expr::InList { expr, negated, .. } && *expr == left && negated
    } else {
        e matches Expr::BinaryOp { left: l, op, .. } && *l == left && op@ == "NOT LIKE"@
    }
}


/// Where an optional window name at `i` ends.
pub open spec fn window_name_end(toks: Seq<Token>, i: int) -> int {
    if tok_at(toks, i) is Ident || tok_at(toks, i) is QuotedIdent { i + 1 } else { i }
}

/// A window specification at `i` that is at most a name: no PARTITION BY, ORDER BY or frame.
pub open spec fn plain_window_at(toks: Seq<Token>, i: int) -> bool {
    let j = window_name_end(toks, i);
    !kw_at(toks, j, Keyword::PARTITION) && !kw_at(toks, j, Keyword::ORDER) && !kw_at(toks, j, Keyword::ROWS)
        && !kw_at(toks, j, Keyword::RANGE) && !kw_at(toks, j, Keyword::GROUPS)
}

/// The type that a plain identifier names by itself (its case ignored): `SERIAL`,
/// `SMALLSERIAL`, `BIGSERIAL`, `BINARY_FLOAT`, `BINARY_DOUBLE`, `BOOL`.
pub open spec fn word_type(t: Token) -> Option<DataType> {
    match t {
        Token::Ident(s) => {
            let u = unicode_uppercase(s@);
            if u == "SERIAL"@ {
                Some(DataType::Serial)
            } else if u == "SMALLSERIAL"@ {
                Some(DataType::SmallSerial)
            } else if u == "BIGSERIAL"@ {
                Some(DataType::BigSerial)
            } else if u == "BINARY_FLOAT"@ {
                Some(DataType::BinaryFloat)
            } else if u == "BINARY_DOUBLE"@ {
                Some(DataType::BinaryDouble)
            } else if u == "BOOL"@ {
                Some(DataType::Boolean)
            } else {
                None
            }
        },
        _ => None,
    }
}

/// Whether the token at `i` is an operand by itself (a literal, a parameter, or a number).
pub open spec fn has_leaf(toks: Seq<Token>, i: int) -> bool {
    is_literal_token(tok_at(toks, i)) || tok_at(toks, i) is Integer
}

/// Where the operand at `i` ends (a number may take two or three tokens).
pub open spec fn leaf_end(toks: Seq<Token>, i: int) -> int {
    if tok_at(toks, i) is Integer { number_at(toks, i, tok_at(toks, i)->Integer_0).1 } else { i + 1 }
}

/// `e` is the operand at `i`.
pub open spec fn leaf_value(toks: Seq<Token>, i: int, e: Expr) -> bool {
    if tok_at(toks, i) is Integer {
        let n = tok_at(toks, i)->Integer_0;
        match number_at(toks, i, n).0 {
            Some(text) => e matches Expr::Literal(Literal::Float(x)) && x@ == text,
            None => e == Expr::Literal(Literal::Integer(n)),
        }
    } else {
        token_literal(tok_at(toks, i), e)
    }
}

/// The interval unit keyword at `j`, as written, if one stands there.
pub open spec fn literal_unit_at(toks: Seq<Token>, j: int) -> Option<Seq<char>> {
    match keyword_at(toks, j) {
        Some(k) => if is_interval_literal_unit(k) { Some(keyword_text(k)) } else { None },
        None => None,
    }
}

/// `e` is the string literal `s`.
pub open spec fn is_string_literal(e: Expr, s: Seq<char>) -> bool {
    e matches Expr::Literal(Literal::String(x)) && x@ == s
}

/// `e` is `INTERVAL value unit`: the special form `interval` of `value` and the unit as a column.
pub open spec fn is_interval_form(e: Expr, unit: Seq<char>) -> bool {
    &&& e matches Expr::SpecialFunction { name, args } && name@ == "interval"@ && args@.len() == 2
    &&& special_args(e)[1] matches Expr::ColumnRef(c) && c@.len() == 1 && c@[0]@ == unit
}

/// An expression of single operands and infix operators, as plain values: an operand by
/// its position, or an operator with its two sides.
pub enum OpTree {
    Leaf(int),
    Bin(Box<OpTree>, Seq<char>, Box<OpTree>),
}

/// No postfix form (`IS [NOT] NULL`, `(+)`, `BETWEEN`, `IN`, `LIKE`, a subscript, ...)
/// starts at `j`.
pub open spec fn no_postfix_at(toks: Seq<Token>, j: int) -> bool {
    null_test_at(toks, j) is None && !outer_join_at(toks, j) && !operand_postfix_at(toks, j)
}

/// The expression at `i` that binds at least as tightly as `min`, when it is made of single
/// operands and infix operators other than `::`: each operator takes as its right side
/// the expression of operators binding more tightly than itself, so that tighter operators
/// group first and operators of equal binding power group to the left. `None` for other
/// expressions.
pub open spec fn op_expr_at(toks: Seq<Token>, i: int, min: u8) -> Option<(OpTree, int)>
    decreases toks.len() - i, 1int,
{
    if 0 <= i && has_leaf(toks, i) && i < leaf_end(toks, i) <= toks.len() {
        op_climb(toks, OpTree::Leaf(i), leaf_end(toks, i), min)
    } else {
        None
    }
}

/// The expression `left` (ending at `j`) continued by the operators from `j` on that bind
/// at least as tightly as `min`.
pub open spec fn op_climb(toks: Seq<Token>, left: OpTree, j: int, min: u8) -> Option<(OpTree, int)>
    decreases toks.len() - j, 0int,
{
    if j < 0 || j > toks.len() || !no_postfix_at(toks, j) {
        None
    } else {
        match infix_of(tok_at(toks, j)) {
            None => Some((left, j)),
            Some((p, op)) => if p < min {
                Some((left, j))
            } else if op == "::"@ || p >= 255 {
                None
            } else {
                match op_expr_at(toks, j + 1, (p + 1) as u8) {
                    None => None,
                    Some((right, q)) => if q <= j || q > toks.len() {
                        None
                    } else {
                        op_climb(toks, OpTree::Bin(Box::new(left), op, Box::new(right)), q, min)
                    },
                }
            },
        }
    }
}

/// The three single operands `a op1 b op2 c` at `i`, `b`, `c`, the operators at `e1`, `e2`,
/// and the end `e3`, with nothing postfix after any operand.
pub open spec fn three_operands(toks: Seq<Token>, i: int, e1: int, b: int, e2: int, c: int, e3: int) -> bool {
    &&& 0 <= i
    &&& has_leaf(toks, i) && e1 == leaf_end(toks, i) && i < e1
    &&& b == e1 + 1 && has_leaf(toks, b) && e2 == leaf_end(toks, b) && b < e2
    &&& c == e2 + 1 && has_leaf(toks, c) && e3 == leaf_end(toks, c) && c < e3 && e3 <= toks.len()
    &&& no_postfix_at(toks, e1) && no_postfix_at(toks, e2) && no_postfix_at(toks, e3)
}

/// Nothing at `e` continues an expression that binds at least as tightly as `min`.
pub open spec fn ends_below(toks: Seq<Token>, e: int, min: u8) -> bool {
    match infix_of(tok_at(toks, e)) {
        None => true,
        Some((p, _)) => p < min,
    }
}

/// Operators of equal binding power group to the left: `a op1 b op2 c` reads as
/// `(a op1 b) op2 c`.
pub proof fn law_equal_binding_groups_left(
    toks: Seq<Token>,
    i: int,
    e1: int,
    b: int,
    e2: int,
    c: int,
    e3: int,
    p: u8,
    op1: Seq<char>,
    op2: Seq<char>,
    min: u8,
)
    requires
        three_operands(toks, i, e1, b, e2, c, e3),
        infix_of(tok_at(toks, e1)) == Some((p, op1)),
        infix_of(tok_at(toks, e2)) == Some((p, op2)),
        op1 != "::"@,
        op2 != "::"@,
        min <= p < 255,
        ends_below(toks, e3, min),
    ensures
        op_expr_at(toks, i, min) == Some((
            OpTree::Bin(
                Box::new(OpTree::Bin(Box::new(OpTree::Leaf(i)), op1, Box::new(OpTree::Leaf(b)))),
                op2,
                Box::new(OpTree::Leaf(c)),
            ),
            e3,
        )),
{
    let q = (p + 1) as u8;
    let ab = OpTree::Bin(Box::new(OpTree::Leaf(i)), op1, Box::new(OpTree::Leaf(b)));
    assert(op_climb(toks, OpTree::Leaf(c), e3, q) == Some((OpTree::Leaf(c), e3)));
    assert(op_expr_at(toks, c, q) == Some((OpTree::Leaf(c), e3)));
    assert(op_climb(toks, OpTree::Bin(Box::new(ab), op2, Box::new(OpTree::Leaf(c))), e3, min)
        == Some((OpTree::Bin(Box::new(ab), op2, Box::new(OpTree::Leaf(c))), e3)));
    assert(op_climb(toks, ab, e2, min) == op_climb(toks, OpTree::Bin(Box::new(ab), op2, Box::new(OpTree::Leaf(c))), e3, min));
    assert(op_climb(toks, OpTree::Leaf(b), e2, q) == Some((OpTree::Leaf(b), e2)));
    assert(op_expr_at(toks, b, q) == Some((OpTree::Leaf(b), e2)));
    assert(op_climb(toks, OpTree::Leaf(i), e1, min) == op_climb(toks, ab, e2, min));
}

/// An operator binds more tightly than one before it of lower binding power:
/// `a op1 b op2 c` reads as `a op1 (b op2 c)` where `op2` binds more tightly.
pub proof fn law_tighter_operator_groups_first(
    toks: Seq<Token>,
    i: int,
    e1: int,
    b: int,
    e2: int,
    c: int,
    e3: int,
    p1: u8,
    p2: u8,
    op1: Seq<char>,
    op2: Seq<char>,
    min: u8,
)
    requires
        three_operands(toks, i, e1, b, e2, c, e3),
        infix_of(tok_at(toks, e1)) == Some((p1, op1)),
        infix_of(tok_at(toks, e2)) == Some((p2, op2)),
        op1 != "::"@,
        op2 != "::"@,
        min <= p1 < p2 < 255,
        ends_below(toks, e3, min),
    ensures
        op_expr_at(toks, i, min) == Some((
            OpTree::Bin(
                Box::new(OpTree::Leaf(i)),
                op1,
                Box::new(OpTree::Bin(Box::new(OpTree::Leaf(b)), op2, Box::new(OpTree::Leaf(c)))),
            ),
            e3,
        )),
{
    let q1 = (p1 + 1) as u8;
    let q2 = (p2 + 1) as u8;
    let bc = OpTree::Bin(Box::new(OpTree::Leaf(b)), op2, Box::new(OpTree::Leaf(c)));
    let whole = OpTree::Bin(Box::new(OpTree::Leaf(i)), op1, Box::new(bc));
    assert(op_climb(toks, OpTree::Leaf(c), e3, q2) == Some((OpTree::Leaf(c), e3)));
    assert(op_expr_at(toks, c, q2) == Some((OpTree::Leaf(c), e3)));
    assert(op_climb(toks, bc, e3, q1) == Some((bc, e3)));
    assert(op_climb(toks, OpTree::Leaf(b), e2, q1) == op_climb(toks, bc, e3, q1));
    assert(op_expr_at(toks, b, q1) == Some((bc, e3)));
    assert(op_climb(toks, whole, e3, min) == Some((whole, e3)));
    assert(op_climb(toks, OpTree::Leaf(i), e1, min) == op_climb(toks, whole, e3, min));
}

/// The elements of a row `( e1, e2, ... )` whose first element starts at `j`: two or more
/// expressions of operands and infix operators (`op_expr_at`), in source order, and the
/// position after the `)`. `None` where the first expression is not followed by a comma,
/// and where an element is another expression.
pub open spec fn row_trees_at(toks: Seq<Token>, j: int) -> Option<Outcome<Seq<OpTree>>> {
    match op_expr_at(toks, j, 0) {
        Some((t, q)) => if tok_at(toks, q) is Comma { call_args_from(toks, q + 1, seq![t]) } else { None },
        None => None,
    }
}

/// What `( ... )` at the cursor of `before` gives: grouping of an expression of operands
/// and operators, or a row of two or more expressions in source order.
pub open spec fn parenthesized_result(before: &Parser, after: &Parser, r: Result<Expr, ParserError>) -> bool {
    &&& match op_expr_at(before.toks(), before.position() + 1, 0) {
        Some((t, q)) => !(tok_at(before.toks(), q) is Comma) ==> if tok_at(before.toks(), q) is RParen {
            r is Ok && r->Ok_0 is Parenthesized && tree_matches(before.toks(), *r->Ok_0->Parenthesized_0, t)
                && before.moved_to(after, q + 1)
        } else {
            r is Err && before.moved_to(after, q) && before.reports(r->Err_0, q, ")"@)
        },
        None => true,
    }
    &&& match leaf_list_from(before.toks(), before.position() + 1, Seq::empty()) {
        Some(Ok((ps, q))) => ps.len() >= 2 ==> r is Ok && r->Ok_0 is RowConstructor
            && leaves_match(before.toks(), r->Ok_0->RowConstructor_0@, ps) && before.moved_to(after, q),
        Some(Err((q, e))) => tok_at(before.toks(), leaf_end(before.toks(), before.position() + 1)) is Comma
            ==> r is Err && before.moved_to(after, q) && before.reports(r->Err_0, q, e),
        None => true,
    }
    &&& match row_trees_at(before.toks(), before.position() + 1) {
        Some(Ok((ts, q))) => r is Ok && r->Ok_0 is RowConstructor && trees_match(before.toks(), r->Ok_0->RowConstructor_0@, ts)
            && before.moved_to(after, q),
        Some(Err((q, e))) => r is Err && before.moved_to(after, q) && before.reports(r->Err_0, q, e),
        None => true,
    }
}

/// What a name at the cursor of `before` gives when it is `name.*` (a qualified star), a
/// dotted name followed by neither a string literal nor `(` (a column reference), or a
/// dotted name followed by `(` (a call, see `call_result`).
pub open spec fn column_ref_result(before: &Parser, after: &Parser, r: Result<Expr, ParserError>) -> bool {
    let toks = before.toks();
    let i = before.position();
    &&& match ident_text(tok_at(toks, i)) {
        Some(f) => tok_at(toks, i + 1) is Dot && tok_at(toks, i + 2) is Star ==> {
            &&& r matches Ok(Expr::QualifiedStar(x)) && x@ == f
            &&& before.moved_to(after, i + 3)
        },
        None => true,
    }
    &&& match object_name_at(toks, i) {
        Ok((n, j)) => !(tok_at(toks, i + 1) is Dot && tok_at(toks, i + 2) is Star)
            && !(tok_at(toks, j) is StringLiteral) && !(tok_at(toks, j) is LParen) ==> {
            &&& r matches Ok(Expr::ColumnRef(x)) && strings_view(x@) == n
            &&& before.moved_to(after, j)
        },
        Err(_) => true,
    }
    &&& match object_name_at(toks, i) {
        Ok((n, j)) => !(tok_at(toks, i + 1) is Dot && tok_at(toks, i + 2) is Star) && tok_at(toks, j) is LParen
            && !outer_join_at(toks, j) ==> call_result(before, n, j, after, r),
        Err(_) => true,
    }
}

/// Each expression of `es` is the one that the tree at its place in `ts` describes.
pub open spec fn trees_match(toks: Seq<Token>, es: Seq<Expr>, ts: Seq<OpTree>) -> bool {
    es.len() == ts.len() && forall|k: int| 0 <= k < es.len() ==> tree_matches(toks, es[k], ts[k])
}

/// The arguments `a, b, ... )` of a call from `j` on, after `acc`, each an expression of
/// single operands and infix operators (`op_expr_at`); `None` for other arguments.
pub open spec fn call_args_from(toks: Seq<Token>, j: int, acc: Seq<OpTree>) -> Option<Outcome<Seq<OpTree>>>
    decreases toks.len() - j,
{
    match op_expr_at(toks, j, 0) {
        None => None,
        Some((t, q)) => if q <= j || q > toks.len() {
            None
        } else if tok_at(toks, q) is Comma {
            call_args_from(toks, q + 1, acc.push(t))
        } else if tok_at(toks, q) is RParen {
            Some(Ok((acc.push(t), q + 1)))
        } else {
            Some(Err((q, ")"@)))
        },
    }
}

/// The argument list of an ordinary call whose `(` is at `i`: whether `DISTINCT` comes
/// first, the argument trees, and the position after the `)`. `None` for `*`, for a
/// `DEFAULT ... ON CONVERSION ERROR` argument, and for other arguments.
pub open spec fn call_list_at(toks: Seq<Token>, i: int) -> Option<Outcome<(bool, Seq<OpTree>)>> {
    if tok_at(toks, i + 1) is RParen {
        Some(Ok(((false, Seq::empty()), i + 2)))
    } else {
        let d = kw_at(toks, i + 1, Keyword::DISTINCT);
        let j = if d { i + 2 } else { i + 1 };
        if tok_at(toks, j) is Star {
            None
        } else {
            match op_expr_at(toks, j, 0) {
                None => None,
                Some((_, q)) => if kw_at(toks, q, Keyword::DEFAULT) || ident_word_at(toks, q, "default"@) {
                    None
                } else {
                    match call_args_from(toks, j, Seq::empty()) {
                        Some(Ok((ts, e))) => Some(Ok(((d, ts), e))),
                        Some(Err(x)) => Some(Err(x)),
                        None => None,
                    }
                },
            }
        }
    }
}

/// The lower-cased last segment of a name.
pub open spec fn lower_last_of(name: Seq<Seq<char>>) -> Seq<char> {
    if name.len() > 0 { unicode_lowercase(name.last()) } else { seq![] }
}

/// The name a call is checked under: the lower-cased last segment, after its last dot.
pub open spec fn check_name_of(name: Seq<Seq<char>>) -> Seq<char> {
    if name.len() > 0 { last_segment(unicode_lowercase(name.last())) } else { seq![] }
}

/// No `FILTER`, `WITHIN GROUP` or `OVER` follows a call's arguments at `e`.
pub open spec fn no_call_clause_at(toks: Seq<Token>, e: int) -> bool {
    !ident_word_at(toks, e, "FILTER"@) && !kw_at(toks, e, Keyword::WITHIN) && !kw_at(toks, e, Keyword::OVER)
}

/// What an ordinary call of `name` gives, its `(` at `at`: the call with its exact
/// arguments, and the warnings of the call check appended, where the arguments are
/// stated by `call_list_at` and no clause follows them.
pub open spec fn call_result(before: &Parser, name: Seq<Seq<char>>, at: int, after: &Parser, r: Result<Expr, ParserError>) -> bool {
    let toks = before.toks();
    let lower = lower_last_of(name);
    !is_keyword_call(lower) && lower != "trim"@ ==> match call_list_at(toks, at) {
        Some(Ok(((d, ts), e))) => no_call_clause_at(toks, e) ==> {
            &&& r is Ok && r->Ok_0 is FunctionCall && strings_view(r->Ok_0->FunctionCall_name@) == name
            &&& r->Ok_0->FunctionCall_distinct == d && trees_match(toks, r->Ok_0->FunctionCall_args@, ts)
            &&& r->Ok_0->FunctionCall_over is None && r->Ok_0->FunctionCall_filter is None
            &&& r->Ok_0->FunctionCall_within_group@.len() == 0
            &&& after.toks() == toks && after.locations() == before.locations() && after.position() == e
            &&& after.warnings().take(before.warnings().len() as int) == before.warnings()
            &&& warnings_are(
                after.warnings().skip(before.warnings().len() as int),
                list_messages(check_name_of(name), unicode_lowercase(check_name_of(name)), ts.len(), d, false),
                before.location_at(e),
            )
        },
        Some(Err((q, x))) => r is Err && before.moved_to(after, q) && before.reports(r->Err_0, q, x),
        None => true,
    }
}

/// A call operand at `i` that `call_result` states exactly: a name followed by `(` and an
/// argument list of `call_list_at`, with no clause after it. The name, the position of
/// its `(` and the end of the call.
pub open spec fn call_operand_at(toks: Seq<Token>, i: int) -> Option<(Seq<Seq<char>>, int, int)> {
    if (tok_at(toks, i) is Ident || tok_at(toks, i) is QuotedIdent) && !(tok_at(toks, i + 1) is Dot && tok_at(toks, i + 2) is Star) {
        match object_name_at(toks, i) {
            Ok((n, j)) => if tok_at(toks, j) is LParen && !outer_join_at(toks, j) && !is_keyword_call(lower_last_of(n))
                && lower_last_of(n) != "trim"@ {
                match call_list_at(toks, j) {
                    Some(Ok((_, e))) => if no_call_clause_at(toks, e) { Some((n, j, e)) } else { None },
                    _ => None,
                }
            } else {
                None
            },
            Err(_) => None,
        }
    } else {
        None
    }
}

/// `CAST ( x AS t )` at `i` (`CAST` there), `x` an expression of single operands and infix
/// operators and `t` a type named by a keyword: the tree of `x`, the type, and the end.
/// `None` for other operands or types, and where a `DEFAULT ... ON CONVERSION ERROR` follows.
pub open spec fn cast_at(toks: Seq<Token>, i: int) -> Option<Outcome<(OpTree, TypeView)>> {
    if !(tok_at(toks, i + 1) is LParen) {
        Some(Err((i + 1, "("@)))
    } else {
        match op_expr_at(toks, i + 2, 0) {
            None => None,
            Some((t, e)) => if !kw_at(toks, e, Keyword::AS) {
                Some(Err((e, "AS in CAST expression"@)))
            } else {
                match keyword_at(toks, e + 1) {
                    Some(k) => if !is_type_keyword(k) {
                        None
                    } else {
                        match type_at(toks, e + 1, k) {
                            Err(x) => Some(Err(x)),
                            Ok((v, m)) => if kw_at(toks, m, Keyword::DEFAULT) || ident_word_at(toks, m, "default"@) {
                                None
                            } else if tok_at(toks, m) is RParen {
                                Some(Ok(((t, v), m + 1)))
                            } else {
                                Some(Err((m, ")"@)))
                            },
                        }
                    },
                    None => None,
                }
            },
        }
    }
}

/// What `CAST ( ... )` at the cursor of `before` gives, where `cast_at` states it.
pub open spec fn cast_result(before: &Parser, after: &Parser, r: Result<Expr, ParserError>) -> bool {
    match cast_at(before.toks(), before.position()) {
        Some(Ok(((t, v), q))) => r is Ok && r->Ok_0 is TypeCast && tree_matches(before.toks(), *r->Ok_0->TypeCast_expr, t)
            && type_view(r->Ok_0->TypeCast_data_type) == v && r->Ok_0->TypeCast_default is None
            && r->Ok_0->TypeCast_format is None && before.moved_to(after, q),
        Some(Err((q, x))) => r is Err && before.moved_to(after, q) && before.reports(r->Err_0, q, x),
        None => true,
    }
}

/// The branches `WHEN c THEN r ...` of a CASE from `j` on, after `acc`, each expression of
/// single operands and infix operators; `None` for other expressions.
pub open spec fn whens_from(toks: Seq<Token>, j: int, acc: Seq<(OpTree, OpTree)>) -> Option<Outcome<Seq<(OpTree, OpTree)>>>
    decreases toks.len() - j,
{
    if !kw_at(toks, j, Keyword::WHEN) {
        Some(Ok((acc, j)))
    } else {
        match op_expr_at(toks, j + 1, 0) {
            None => None,
            Some((c, q1)) => if !kw_at(toks, q1, Keyword::THEN) {
                Some(Err((q1, keyword_text(Keyword::THEN))))
            } else {
                match op_expr_at(toks, q1 + 1, 0) {
                    None => None,
                    Some((x, q2)) => if q2 <= j || q2 > toks.len() {
                        None
                    } else {
                        whens_from(toks, q2, acc.push((c, x)))
                    },
                }
            },
        }
    }
}

/// A CASE as plain values: the operand, the branches and the `ELSE` result.
pub type CaseView = (Option<OpTree>, Seq<(OpTree, OpTree)>, Option<OpTree>);

/// `CASE [x] WHEN c THEN r ... [ELSE e] END` at `i`, each expression of single operands and
/// infix operators; `None` for other expressions.
pub open spec fn case_at(toks: Seq<Token>, i: int) -> Option<Outcome<CaseView>> {
    let operand: Option<(Option<OpTree>, int)> = if kw_at(toks, i + 1, Keyword::WHEN) {
        Some((None, i + 1))
    } else {
        match op_expr_at(toks, i + 1, 0) {
            Some((t, q)) => Some((Some(t), q)),
            None => None,
        }
    };
    match operand {
        None => None,
        Some((op, k)) => match whens_from(toks, k, Seq::empty()) {
            None => None,
            Some(Err(x)) => Some(Err(x)),
            Some(Ok((ws, k2))) => {
                let el: Option<(Option<OpTree>, int)> = if kw_at(toks, k2, Keyword::ELSE) {
                    match op_expr_at(toks, k2 + 1, 0) {
                        Some((t, q)) => Some((Some(t), q)),
                        None => None,
                    }
                } else {
                    Some((None, k2))
                };
                match el {
                    None => None,
                    Some((e, k3)) => if kw_at(toks, k3, Keyword::END_P) {
                        Some(Ok(((op, ws, e), k3 + 1)))
                    } else {
                        Some(Err((k3, keyword_text(Keyword::END_P))))
                    },
                }
            },
        },
    }
}

/// `o` is the optional expression that `t` describes.
pub open spec fn opt_tree_matches(toks: Seq<Token>, o: Option<Box<Expr>>, t: Option<OpTree>) -> bool {
    match t {
        None => o is None,
        Some(tt) => o is Some && tree_matches(toks, *o->Some_0, tt),
    }
}

/// The branches `ws` are those that `vs` describes.
pub open spec fn whens_match(toks: Seq<Token>, ws: Seq<WhenClause>, vs: Seq<(OpTree, OpTree)>) -> bool {
    ws.len() == vs.len() && forall|k: int| 0 <= k < ws.len() ==> tree_matches(toks, ws[k].condition, vs[k].0)
        && tree_matches(toks, ws[k].result, vs[k].1)
}

/// What `CASE ... END` at the cursor of `before` gives, where `case_at` states it.
pub open spec fn case_result(before: &Parser, after: &Parser, r: Result<Expr, ParserError>) -> bool {
    match case_at(before.toks(), before.position()) {
        Some(Ok(((op, ws, el), q))) => r is Ok && r->Ok_0 is Case && opt_tree_matches(before.toks(), r->Ok_0->Case_operand, op)
            && whens_match(before.toks(), r->Ok_0->Case_whens@, ws) && opt_tree_matches(before.toks(), r->Ok_0->Case_else_expr, el)
            && before.moved_to(after, q),
        Some(Err((q, x))) => r is Err && before.moved_to(after, q) && before.reports(r->Err_0, q, x),
        None => true,
    }
}

/// Where a `CAST` or `CASE` operand at `i` ends, where `cast_at` or `case_at` states it.
pub open spec fn keyword_operand_end(toks: Seq<Token>, i: int) -> Option<int> {
    if kw_at(toks, i, Keyword::CAST) {
        match cast_at(toks, i) {
            Some(Ok((_, q))) => Some(q),
            _ => None,
        }
    } else if kw_at(toks, i, Keyword::CASE) {
        match case_at(toks, i) {
            Some(Ok((_, q))) => Some(q),
            _ => None,
        }
    } else {
        None
    }
}

/// What a `CAST` or `CASE` operand at the cursor of `before` gives.
pub open spec fn keyword_operand_result(before: &Parser, after: &Parser, r: Result<Expr, ParserError>) -> bool {
    &&& kw_at(before.toks(), before.position(), Keyword::CAST) ==> cast_result(before, after, r)
    &&& kw_at(before.toks(), before.position(), Keyword::CASE) ==> case_result(before, after, r)
}

/// What a postfix form at the cursor of `before` builds, where its operands are made of
/// single operands and infix operators: the pattern of `[NOT] LIKE` / `ILIKE`, the bounds
/// of `[NOT] BETWEEN low AND high` (each binding more tightly than comparisons), and the
/// index of a subscript `[ index ]`. `e` is the expression after the call.
pub open spec fn postfix_operands_result(before: &Parser, after: &Parser, e: Expr, r: Result<bool, ParserError>) -> bool {
    let toks = before.toks();
    let i = before.position();
    if kw_at(toks, i, Keyword::LIKE) || kw_at(toks, i, Keyword::ILIKE) || (kw_at(toks, i, Keyword::NOT) && kw_at(
        toks,
        i + 1,
        Keyword::LIKE,
    )) {
        let p = if kw_at(toks, i, Keyword::NOT) { i + 2 } else { i + 1 };
        match op_expr_at(toks, p, 0) {
            Some((t, q)) => r == Ok::<bool, ParserError>(true) && e is BinaryOp && tree_matches(toks, *e->BinaryOp_right, t)
                && before.moved_to(after, q),
            None => true,
        }
    } else if kw_at(toks, i, Keyword::BETWEEN) || (kw_at(toks, i, Keyword::NOT) && kw_at(toks, i + 1, Keyword::BETWEEN)) {
        let p = if kw_at(toks, i, Keyword::NOT) { i + 2 } else { i + 1 };
        match op_expr_at(toks, p, 40) {
            Some((lt, q1)) => if !kw_at(toks, q1, Keyword::AND) {
                r is Err && before.moved_to(after, q1) && before.reports(r->Err_0, q1, keyword_text(Keyword::AND))
            } else {
                match op_expr_at(toks, q1 + 1, 40) {
                    Some((ht, q2)) => r == Ok::<bool, ParserError>(true) && e is Between
                        && tree_matches(toks, *e->Between_low, lt) && tree_matches(toks, *e->Between_high, ht)
                        && before.moved_to(after, q2),
                    None => true,
                }
            },
            None => true,
        }
    } else if tok_at(toks, i) is LBracket {
        match op_expr_at(toks, i + 1, 0) {
            Some((t, q)) => if tok_at(toks, q) is RBracket {
                r == Ok::<bool, ParserError>(true) && e is Subscript && tree_matches(toks, *e->Subscript_index, t)
                    && before.moved_to(after, q + 1)
            } else {
                r is Err && before.moved_to(after, q) && before.reports(r->Err_0, q, "]"@)
            },
            None => true,
        }
    } else {
        true
    }
}

/// `e` is the expression that `t` describes.
pub open spec fn tree_matches(toks: Seq<Token>, e: Expr, t: OpTree) -> bool
    decreases t,
{
    match t {
        OpTree::Leaf(p) => leaf_value(toks, p, e),
        OpTree::Bin(l, op, r) => e is BinaryOp && e->BinaryOp_op@ == op && tree_matches(toks, *e->BinaryOp_left, *l)
            && tree_matches(toks, *e->BinaryOp_right, *r),
    }
}

/// A single-token (or number) operand at `j` that nothing continues.
pub open spec fn lone_leaf_at(toks: Seq<Token>, j: int) -> bool {
    has_leaf(toks, j) && ends_operand(toks, leaf_end(toks, j), 0)
}

/// The single operands `a, b, ... )` from `j` on (by their positions), after `acc`;
/// `None` where one of them is more than a single operand.
pub open spec fn leaf_list_from(toks: Seq<Token>, j: int, acc: Seq<int>) -> Option<Outcome<Seq<int>>>
    decreases toks.len() - j,
{
    if !lone_leaf_at(toks, j) || leaf_end(toks, j) <= j {
        None
    } else {
        let e = leaf_end(toks, j);
        if tok_at(toks, e) is Comma {
            leaf_list_from(toks, e + 1, acc.push(j))
        } else if tok_at(toks, e) is RParen {
            Some(Ok((acc.push(j), e + 1)))
        } else {
            Some(Err((e, ")"@)))
        }
    }
}

/// `( a, b, ... )` at `i` with single operands. An empty list `( )` ends before its `)`,
/// which is left unread.
pub open spec fn paren_leaves_at(toks: Seq<Token>, i: int) -> Option<Outcome<Seq<int>>> {
    if !(tok_at(toks, i) is LParen) {
        Some(Err((i, "("@)))
    } else if tok_at(toks, i + 1) is RParen {
        Some(Ok((Seq::empty(), i + 1)))
    } else {
        leaf_list_from(toks, i + 1, Seq::empty())
    }
}

/// Each expression of `es` is the single operand at the position `ps` gives.
pub open spec fn leaves_match(toks: Seq<Token>, es: Seq<Expr>, ps: Seq<int>) -> bool {
    es.len() == ps.len() && forall|k: int| 0 <= k < es.len() ==> leaf_value(toks, ps[k], es[k])
}

/// The arguments of the special form `e`.
pub open spec fn special_args(e: Expr) -> Seq<Expr> {
    match e {
        Expr::SpecialFunction { args, .. } => args@,
        _ => Seq::empty(),
    }
}

/// Nothing at `j` continues an operand within an expression that binds at least as
/// tightly as `min_prec`: no postfix form, and no infix operator of that strength.
pub open spec fn ends_operand(toks: Seq<Token>, j: int, min_prec: u8) -> bool {
    &&& null_test_at(toks, j) is None
    &&& !outer_join_at(toks, j)
    &&& !operand_postfix_at(toks, j)
    &&& match infix_of(tok_at(toks, j)) {
        None => true,
        Some((p, _)) => p < min_prec,
    }
}

impl Parser {
    /// The whole expression grammar from the lowest binding power.
    pub fn parse_expr(&mut self) -> (r: Result<Expr, ParserError>)
        requires
            old(self).wf(),
        ensures
            old(self).steps(&*final(self)),
            r is Ok ==> final(self).position() > old(self).position(),
            has_leaf(old(self).toks(), old(self).position())
                && ends_operand(old(self).toks(), leaf_end(old(self).toks(), old(self).position()), 0) ==> {
                &&& r is Ok
                &&& leaf_value(old(self).toks(), old(self).position(), r->Ok_0)
                &&& old(self).moved_to(&*final(self), leaf_end(old(self).toks(), old(self).position()))
            },
            match op_expr_at(old(self).toks(), old(self).position(), 0) {
                Some((t, q)) => r is Ok && tree_matches(old(self).toks(), r->Ok_0, t) && old(self).moved_to(&*final(self), q),
                None => true,
            },
            match call_operand_at(old(self).toks(), old(self).position()) {
                Some((n, j, e)) => ends_operand(old(self).toks(), e, 0) ==> call_result(&*old(self), n, j, &*final(self), r),
                None => true,
            },
            match keyword_operand_end(old(self).toks(), old(self).position()) {
                Some(e) => ends_operand(old(self).toks(), e, 0) ==> keyword_operand_result(&*old(self), &*final(self), r),
                None => true,
            },
        decreases old(self).toks().len() - old(self).position(), 20int,
    {
        self.parse_expr_with_precedence(0)
    }

    /// An operand followed by postfix forms and by infix operators that bind at least
    /// as tightly as `min_prec` (the right operand of `op` binds more tightly than `op`);
    /// `::` takes a data type as its right side.
    fn parse_expr_with_precedence(&mut self, min_prec: u8) -> (r: Result<Expr, ParserError>)
        requires
            old(self).wf(),
        ensures
            old(self).steps(&*final(self)),
            r is Ok ==> final(self).position() > old(self).position(),
            has_leaf(old(self).toks(), old(self).position())
                && ends_operand(old(self).toks(), leaf_end(old(self).toks(), old(self).position()), min_prec) ==> {
                &&& r is Ok
                &&& leaf_value(old(self).toks(), old(self).position(), r->Ok_0)
                &&& old(self).moved_to(&*final(self), leaf_end(old(self).toks(), old(self).position()))
            },
            match op_expr_at(old(self).toks(), old(self).position(), min_prec) {
                Some((t, q)) => r is Ok && tree_matches(old(self).toks(), r->Ok_0, t) && old(self).moved_to(&*final(self), q),
                None => true,
            },
            match call_operand_at(old(self).toks(), old(self).position()) {
                Some((n, j, e)) => ends_operand(old(self).toks(), e, min_prec) ==> call_result(&*old(self), n, j, &*final(self), r),
                None => true,
            },
            match keyword_operand_end(old(self).toks(), old(self).position()) {
                Some(e) => ends_operand(old(self).toks(), e, min_prec) ==> keyword_operand_result(&*old(self), &*final(self), r),
                None => true,
            },
        decreases old(self).toks().len() - old(self).position(), 19int,
    {
        let ghost toks = self.toks();
        let ghost whole = op_expr_at(toks, self.position(), min_prec);
        let mut left = match self.parse_unary_expr() {
            Ok(e) => e,
            Err(e) => return Err(e),
        };
        let ghost mut t = OpTree::Leaf(old(self).position());
        let ghost call = call_operand_at(toks, old(self).position());
        let ghost call_simple = call is Some && ends_operand(toks, call->Some_0.2, min_prec);
        let ghost kend = keyword_operand_end(toks, old(self).position());
        let ghost kw_simple = kend is Some && ends_operand(toks, kend->Some_0, min_prec);
        let ghost simple = has_leaf(old(self).toks(), old(self).position())
            && ends_operand(old(self).toks(), leaf_end(old(self).toks(), old(self).position()), min_prec);
        loop
            invariant_except_break
                whole is Some ==> op_climb(toks, t, self.position(), min_prec) == whole,
            invariant
                call == call_operand_at(toks, old(self).position()),
                call_simple == (call is Some && ends_operand(toks, call->Some_0.2, min_prec)),
                call_simple ==> call_result(&*old(self), call->Some_0.0, call->Some_0.1, &*self, Ok(left))
                    && self.position() == call->Some_0.2 && self.toks() == toks,
                kend == keyword_operand_end(toks, old(self).position()),
                kw_simple == (kend is Some && ends_operand(toks, kend->Some_0, min_prec)),
                kw_simple ==> keyword_operand_result(&*old(self), &*self, Ok(left)) && self.position() == kend->Some_0
                    && self.toks() == toks,
                old(self).steps(&*self),
                self.position() > old(self).position(),
                simple == (has_leaf(old(self).toks(), old(self).position())
                    && ends_operand(old(self).toks(), leaf_end(old(self).toks(), old(self).position()), min_prec)),
                simple ==> leaf_value(old(self).toks(), old(self).position(), left)
                    && old(self).moved_to(&*self, leaf_end(old(self).toks(), old(self).position()))
                    && ends_operand(old(self).toks(), leaf_end(old(self).toks(), old(self).position()), min_prec),
                toks == old(self).toks(),
                whole == op_expr_at(toks, old(self).position(), min_prec),
                whole is Some ==> tree_matches(toks, left, t) && old(self).moved_to(&*self, self.position()),
            ensures
                call == call_operand_at(toks, old(self).position()),
                call_simple == (call is Some && ends_operand(toks, call->Some_0.2, min_prec)),
                call_simple ==> call_result(&*old(self), call->Some_0.0, call->Some_0.1, &*self, Ok(left))
                    && self.position() == call->Some_0.2 && self.toks() == toks,
                kend == keyword_operand_end(toks, old(self).position()),
                kw_simple == (kend is Some && ends_operand(toks, kend->Some_0, min_prec)),
                kw_simple ==> keyword_operand_result(&*old(self), &*self, Ok(left)) && self.position() == kend->Some_0
                    && self.toks() == toks,
                old(self).steps(&*self),
                self.position() > old(self).position(),
                simple == (has_leaf(old(self).toks(), old(self).position())
                    && ends_operand(old(self).toks(), leaf_end(old(self).toks(), old(self).position()), min_prec)),
                simple ==> leaf_value(old(self).toks(), old(self).position(), left)
                    && old(self).moved_to(&*self, leaf_end(old(self).toks(), old(self).position()))
                    && ends_operand(old(self).toks(), leaf_end(old(self).toks(), old(self).position()), min_prec),
                toks == old(self).toks(),
                whole == op_expr_at(toks, old(self).position(), min_prec),
                whole is Some ==> tree_matches(toks, left, t) && old(self).moved_to(&*self, self.position()),
                whole is Some ==> whole == Some((t, self.position())),
            decreases self.toks().len() - self.position(),
        {
            proof {
                if simple {
                    assert(self.toks() == old(self).toks());
                }
            }
            match self.try_postfix_op(&mut left) {
                Err(e) => return Err(e),
                Ok(true) => continue,
                Ok(false) => {},
            }
            let (op_prec, op_str, is_right_assoc) = match self.get_infix_operator() {
                Some(info) => info,
                None => break,
            };
            if op_prec < min_prec {
                break;
            }
            self.advance();
            if strs_equal(op_str.as_str(), "::") {
                let data_type = match self.parse_data_type() {
                    Ok(t) => t,
                    Err(e) => return Err(e),
                };
                left = Expr::TypeCast { expr: Box::new(left), data_type, default: None, format: None };
                continue;
            }
            let next_prec: u8 = if is_right_assoc { op_prec } else { op_prec + 1 };
            let ghost rpos = self.position();
            let right = match self.parse_expr_with_precedence(next_prec) {
                Ok(e) => e,
                Err(e) => return Err(e),
            };
            let ghost old_t = t;
            let ghost op_text = op_str@;
            proof {
                if whole is Some {
                    let rt = op_expr_at(toks, rpos, next_prec)->Some_0.0;
                    t = OpTree::Bin(Box::new(old_t), op_text, Box::new(rt));
                }
            }
            left = Expr::BinaryOp { left: Box::new(left), op: op_str, right: Box::new(right) };
        }
        Ok(left)
    }

    /// Prefix operators (`PRIOR`, `NOT`, `-`, `+`, `@`, and the geometric and
    /// square-root operators), then an operand.
    fn parse_unary_expr(&mut self) -> (r: Result<Expr, ParserError>)
        requires
            old(self).wf(),
        ensures
            old(self).steps(&*final(self)),
            r is Ok ==> final(self).position() > old(self).position(),
            r is Ok && old(self).current() == Token::Keyword(Keyword::PRIOR) ==> r->Ok_0 is Prior,
            r is Ok && old(self).current() == Token::Keyword(Keyword::NOT) ==> (r->Ok_0 matches Expr::UnaryOp { op, .. } && op@ == "NOT"@),
            r is Ok && old(self).current() is Minus ==> (r->Ok_0 matches Expr::UnaryOp { op, .. } && op@ == "-"@),
            r is Ok && old(self).current() is At ==> (r->Ok_0 matches Expr::UnaryOp { op, .. } && op@ == "@"@),
            r is Ok && old(self).current() is Op && is_prefix_op(old(self).current()->Op_0@) ==> (r->Ok_0 matches Expr::UnaryOp { op, .. }
                && op@ == old(self).current()->Op_0@),
            has_leaf(old(self).toks(), old(self).position()) ==> {
                &&& r is Ok
                &&& leaf_value(old(self).toks(), old(self).position(), r->Ok_0)
                &&& old(self).moved_to(&*final(self), leaf_end(old(self).toks(), old(self).position()))
            },
            old(self).current() is Ident || old(self).current() is QuotedIdent ==> column_ref_result(&*old(self), &*final(self), r),
            keyword_operand_result(&*old(self), &*final(self), r),
        decreases old(self).toks().len() - old(self).position(), 18int,
    {
        if self.match_keyword(Keyword::PRIOR) {
            self.advance();
            return match self.parse_expr_with_precedence(15) {
                Ok(e) => Ok(Expr::Prior(Box::new(e))),
                Err(e) => Err(e),
            };
        }
        if self.match_keyword(Keyword::NOT) {
            self.advance();
            return match self.parse_expr_with_precedence(12) {
                Ok(e) => Ok(Expr::UnaryOp { op: String::from_str("NOT"), expr: Box::new(e) }),
                Err(e) => Err(e),
            };
        }
        if self.match_token(&Token::Minus) {
            self.advance();
            return match self.parse_expr_with_precedence(60) {
                Ok(e) => Ok(Expr::UnaryOp { op: String::from_str("-"), expr: Box::new(e) }),
                Err(e) => Err(e),
            };
        }
        if self.match_token(&Token::Plus) {
            self.advance();
            return self.parse_expr_with_precedence(60);
        }
        if self.match_token(&Token::At) {
            self.advance();
            return match self.parse_expr_with_precedence(60) {
                Ok(e) => Ok(Expr::UnaryOp { op: String::from_str("@"), expr: Box::new(e) }),
                Err(e) => Err(e),
            };
        }
        let prefix: Option<String> = match self.peek() {
            Token::Op(op) => if is_prefix_op_str(op.as_str()) { Some(op.clone()) } else { None },
            _ => None,
        };
        match prefix {
            Some(op) => {
                self.advance();
                match self.parse_expr_with_precedence(60) {
                    Ok(e) => Ok(Expr::UnaryOp { op, expr: Box::new(e) }),
                    Err(e) => Err(e),
                }
            },
            None => self.parse_primary_expr(),
        }
    }

    /// Applies one postfix form to `left`, if the cursor is at one; says whether it did.
    fn try_postfix_op(&mut self, left: &mut Expr) -> (r: Result<bool, ParserError>)
        requires
            old(self).wf(),
        ensures
            old(self).steps(&*final(self)),
            r matches Ok(true) ==> final(self).position() > old(self).position(),
            r matches Ok(false) ==> *final(left) == *old(left) && old(self).moved_to(&*final(self), old(self).position()),
            null_test_at(old(self).toks(), old(self).position()) matches Some((negated, end)) ==> {
                &&& r == Ok::<bool, ParserError>(true)
                &&& *final(left) == (Expr::IsNull { expr: Box::new(*old(left)), negated })
                &&& old(self).moved_to(&*final(self), end)
            },
            outer_join_at(old(self).toks(), old(self).position()) ==> {
                &&& r == Ok::<bool, ParserError>(true)
                &&& *final(left) == *old(left)
                &&& final(self).position() == old(self).position() + 3
                &&& final(self).warnings().len() == old(self).warnings().len() + 1
                &&& final(self).warnings().last() is Warning
                &&& final(self).warnings().last()->Warning_message@ == outer_join_message()
                &&& final(self).warnings().last()->Warning_location == old(self).location_at(old(self).position())
            },
            operand_postfix_at(old(self).toks(), old(self).position()) && r is Ok ==> {
                &&& r == Ok::<bool, ParserError>(true)
                &&& postfix_shape(old(self).toks(), old(self).position(), *old(left), *final(left))
            },
            null_test_at(old(self).toks(), old(self).position()) is None && !outer_join_at(old(self).toks(), old(self).position())
                && !operand_postfix_at(old(self).toks(), old(self).position()) ==> r == Ok::<bool, ParserError>(false),
            postfix_operands_result(&*old(self), &*final(self), *final(left), r),
        decreases old(self).toks().len() - old(self).position(), 17int,
    {
        let t0: Option<Keyword> = self.peek_keyword();
        let t1: Option<Keyword> = match self.peek_at(1) {
            Token::Keyword(k) => Some(*k),
            _ => None,
        };
        let t2: Option<Keyword> = match self.peek_at(2) {
            Token::Keyword(k) => Some(*k),
            _ => None,
        };
        if t0 == Some(Keyword::IS) {
            if t1 == Some(Keyword::NULL_P) {
                self.advance();
                self.advance();
                let mut taken = Expr::Default;
                std::mem::swap(&mut taken, left);
                *left = Expr::IsNull { expr: Box::new(taken), negated: false };
                return Ok(true);
            }
            if t1 == Some(Keyword::NOT) && t2 == Some(Keyword::NULL_P) {
                self.advance();
                self.advance();
                self.advance();
                let mut taken = Expr::Default;
                std::mem::swap(&mut taken, left);
                *left = Expr::IsNull { expr: Box::new(taken), negated: true };
                return Ok(true);
            }
            return Ok(false);
        }
        if t0 == Some(Keyword::ISNULL) || t0 == Some(Keyword::NOTNULL) {
            let negated = t0 == Some(Keyword::NOTNULL);
            self.advance();
            let mut taken = Expr::Default;
            std::mem::swap(&mut taken, left);
            *left = Expr::IsNull { expr: Box::new(taken), negated };
            return Ok(true);
        }
        if t0 == Some(Keyword::BETWEEN) || (t0 == Some(Keyword::NOT) && t1 == Some(Keyword::BETWEEN)) {
            let negated = t0 == Some(Keyword::NOT);
            self.advance();
            if negated {
                self.advance();
            }
            let low = match self.parse_expr_with_precedence(40) {
                Ok(e) => e,
                Err(e) => return Err(e),
            };
            match self.expect_keyword(Keyword::AND) {
                Ok(()) => {},
                Err(e) => return Err(e),
            }
            let high = match self.parse_expr_with_precedence(40) {
                Ok(e) => e,
                Err(e) => return Err(e),
            };
            let mut taken = Expr::Default;
            std::mem::swap(&mut taken, left);
            *left = Expr::Between { expr: Box::new(taken), low: Box::new(low), high: Box::new(high), negated };
            return Ok(true);
        }
        if t0 == Some(Keyword::IN_P) || (t0 == Some(Keyword::NOT) && t1 == Some(Keyword::IN_P)) {
            let negated = t0 == Some(Keyword::NOT);
            self.advance();
            if negated {
                self.advance();
            }
            let mut taken = Expr::Default;
            std::mem::swap(&mut taken, left);
            return match self.parse_in_expr(taken, negated) {
                Ok(e) => {
                    *left = e;
                    Ok(true)
                },
                Err(e) => Err(e),
            };
        }
        if t0 == Some(Keyword::LIKE) || t0 == Some(Keyword::ILIKE) || (t0 == Some(Keyword::NOT) && t1 == Some(Keyword::LIKE)) {
            let negated = t0 == Some(Keyword::NOT);
            let op = if negated {
                String::from_str("NOT LIKE")
            } else if t0 == Some(Keyword::LIKE) {
                String::from_str("LIKE")
            } else {
                String::from_str("ILIKE")
            };
            self.advance();
            if negated {
                self.advance();
            }
            let pattern = match self.parse_expr() {
                Ok(e) => e,
                Err(e) => return Err(e),
            };
            let mut taken = Expr::Default;
            std::mem::swap(&mut taken, left);
            *left = Expr::BinaryOp { left: Box::new(taken), op, right: Box::new(pattern) };
            return Ok(true);
        }
        if self.match_token(&Token::LBracket) {
            self.advance();
            let index = match self.parse_expr() {
                Ok(e) => e,
                Err(e) => return Err(e),
            };
            match self.expect_token(&Token::RBracket, "]") {
                Ok(()) => {},
                Err(e) => return Err(e),
            }
            let mut taken = Expr::Default;
            std::mem::swap(&mut taken, left);
            *left = Expr::Subscript { object: Box::new(taken), index: Box::new(index) };
            return Ok(true);
        }
        if self.match_token(&Token::LParen) && self.peek_at(1).same_as(&Token::Plus) && self.peek_at(2).same_as(&Token::RParen) {
            let loc = self.current_location();
            self.advance();
            self.advance();
            self.advance();
            self.add_error(ParserError::warning(
                String::from_str("Oracle-style outer join operator '(+)' is deprecated, use standard JOIN syntax instead"),
                loc,
            ));
            return Ok(true);
        }
        Ok(false)
    }

    /// The parenthesized list after `[NOT] IN`.
    fn parse_in_expr(&mut self, left: Expr, negated: bool) -> (r: Result<Expr, ParserError>)
        requires
            old(self).wf(),
        ensures
            old(self).steps(&*final(self)),
            r is Ok ==> final(self).position() > old(self).position(),
            r is Ok ==> (r->Ok_0 matches Expr::InList { expr, negated: n, .. } && *expr == left && n == negated),
            !(old(self).current() is LParen) ==> r is Err && old(self).moved_to(&*final(self), old(self).position())
                && old(self).reports(r->Err_0, old(self).position(), "("@),
        decreases old(self).toks().len() - old(self).position(), 16int,
    {
        match self.expect_token(&Token::LParen, "(") {
            Ok(()) => {},
            Err(e) => return Err(e),
        }
        if self.at_subquery() {
            return Err(self.unexpected("expression"));
        }
        let first = match self.parse_expr() {
            Ok(e) => e,
            Err(e) => return Err(e),
        };
        let mut list: Vec<Expr> = Vec::new();
        list.push(first);
        while self.match_token(&Token::Comma)
            invariant
                old(self).steps(&*self),
                old(self).current() is LParen,
                self.position() > old(self).position(),
            decreases self.toks().len() - self.position(),
        {
            self.advance();
            let e = match self.parse_expr() {
                Ok(e) => e,
                Err(e) => return Err(e),
            };
            list.push(e);
        }
        match self.expect_token(&Token::RParen, ")") {
            Ok(()) => {},
            Err(e) => return Err(e),
        }
        Ok(Expr::InList { expr: Box::new(left), list, negated })
    }
}

// ────────────────────────────────────────────────────────────────
// Operands
// ────────────────────────────────────────────────────────────────

/// The lower-cased last part of a function name (empty for an empty name).
pub open spec fn call_name_lower(name: Seq<String>) -> Seq<char> {
    if name.len() > 0 {
        unicode_lowercase(name.last()@)
    } else {
        seq![]
    }
}

/// Names whose argument lists use keywords (`OVERLAY(a PLACING b FROM c)`, ...).
pub open spec fn is_keyword_call(lower: Seq<char>) -> bool {
    lower == "overlay"@ || lower == "position"@ || lower == "substring"@ || lower == "substr"@ || lower == "extract"@
}

/// What a call of `name` parses to: a special form under the joined name, or an
/// ordinary call under the name as written (`TRIM` can be either).
pub open spec fn call_shape(name: Vec<String>, e: Expr) -> bool {
    let lower = call_name_lower(name@);
    let special = e matches Expr::SpecialFunction { name: n, .. } && n@ == dotted(strings_view(name@));
    let ordinary = e matches Expr::FunctionCall { name: n, .. } && n == name;
    if is_keyword_call(lower) {
        special
    } else if lower == "trim"@ {
        special || ordinary
    } else {
        ordinary
    }
}

/// A special form named `name` with between `lo` and `hi` arguments.
pub open spec fn special_form(name: Vec<String>, e: Expr, lo: nat, hi: nat) -> bool {
    e matches Expr::SpecialFunction { name: n, args } && n@ == dotted(strings_view(name@)) && lo <= args.len() <= hi
}

impl Parser {
    /// An operand: a literal, a parameter, a parenthesized expression or row, an
    /// array, a CASE, a CAST, an interval, a column reference or a function call.
    fn parse_primary_expr(&mut self) -> (r: Result<Expr, ParserError>)
        requires
            old(self).wf(),
        ensures
            old(self).steps(&*final(self)),
            r is Ok ==> final(self).position() > old(self).position(),
            is_literal_token(old(self).current()) ==> r is Ok && token_literal(old(self).current(), r->Ok_0)
                && old(self).moved_to(&*final(self), old(self).position() + 1),
            old(self).current() is Integer ==> {
                let number = number_at(old(self).toks(), old(self).position(), old(self).current()->Integer_0);
                &&& r is Ok
                &&& old(self).moved_to(&*final(self), number.1)
                &&& match number.0 {
                    Some(text) => r->Ok_0 matches Expr::Literal(Literal::Float(x)) && x@ == text,
                    None => r->Ok_0 == Expr::Literal(Literal::Integer(old(self).current()->Integer_0)),
                }
            },
            is_non_operand(old(self).current()) ==> r is Err && old(self).moved_to(&*final(self), old(self).position())
                && old(self).reports(r->Err_0, old(self).position(), "expression"@),
            r is Ok ==> operand_shape(old(self).current(), r->Ok_0),
            old(self).current() is LParen ==> parenthesized_result(&*old(self), &*final(self), r),
            old(self).current() is Ident || old(self).current() is QuotedIdent ==> column_ref_result(&*old(self), &*final(self), r),
            keyword_operand_result(&*old(self), &*final(self), r),
        decreases old(self).toks().len() - old(self).position(), 15int,
    {
        let t: &Token = self.peek();
        match t {
            Token::Integer(n) => {
                let n: i64 = *n;
                self.parse_number(n)
            },
            Token::Float(s) => {
                let s = s.clone();
                self.advance();
                Ok(Expr::Literal(Literal::Float(s)))
            },
            Token::StringLiteral(s) => {
                let s = s.clone();
                self.advance();
                Ok(Expr::Literal(Literal::String(s)))
            },
            Token::EscapeString(s) => {
                let s = s.clone();
                self.advance();
                Ok(Expr::Literal(Literal::EscapeString(s)))
            },
            Token::BitString(s) => {
                let s = s.clone();
                self.advance();
                Ok(Expr::Literal(Literal::BitString(s)))
            },
            Token::HexString(s) => {
                let s = s.clone();
                self.advance();
                Ok(Expr::Literal(Literal::HexString(s)))
            },
            Token::NationalString(s) => {
                let s = s.clone();
                self.advance();
                Ok(Expr::Literal(Literal::NationalString(s)))
            },
            Token::DollarString { tag, body } => {
                let tag = tag.clone();
                let body = body.clone();
                self.advance();
                Ok(Expr::Literal(Literal::DollarString { tag, body }))
            },
            Token::Param(n) => {
                let n: u32 = *n;
                self.advance();
                Ok(Expr::Parameter(n))
            },
            Token::SetIdent(s) => {
                let s = s.clone();
                self.advance();
                Ok(Expr::ColumnRef(single_name(s)))
            },
            Token::Star => {
                self.advance();
                Ok(Expr::ColumnRef(single_name(String::from_str("*"))))
            },
            Token::LParen => self.parse_parenthesized(),
            Token::LBracket => {
                self.advance();
                match self.parse_expr_list_until(&Token::RBracket, "]") {
                    Ok(elems) => Ok(Expr::Array(elems)),
                    Err(e) => Err(e),
                }
            },
            Token::Ident(_) | Token::QuotedIdent(_) => self.parse_column_ref_or_qualified_star(),
            Token::Keyword(kw) => {
                let kw: Keyword = *kw;
                self.parse_keyword_operand(kw)
            },
            _ => Err(self.unexpected("expression")),
        }
    }

    /// An integer, or a decimal or float written as several tokens (`1 . 5`, `1 e5`).
    fn parse_number(&mut self, n: i64) -> (r: Result<Expr, ParserError>)
        requires
            old(self).wf(),
            old(self).current() == Token::Integer(n),
        ensures
            final(self).wf(),
            r is Ok,
            old(self).moved_to(&*final(self), number_at(old(self).toks(), old(self).position(), n).1),
            match number_at(old(self).toks(), old(self).position(), n).0 {
                Some(text) => r->Ok_0 matches Expr::Literal(Literal::Float(x)) && x@ == text,
                None => r->Ok_0 == Expr::Literal(Literal::Integer(n)),
            },
    {
        self.advance();
        if self.match_token(&Token::Dot) {
            let frac: Option<i64> = match self.peek_at(1) {
                Token::Integer(f) => Some(*f),
                _ => None,
            };
            match frac {
                Some(f) => {
                    self.advance();
                    self.advance();
                    let mut text = String::new();
                    push_signed(&mut text, n);
                    text.push('.');
                    push_signed(&mut text, f);
                    return Ok(Expr::Literal(Literal::Float(text)));
                },
                None => {},
            }
        }
        let exponent: Option<String> = match self.peek() {
            Token::Ident(s) => {
                let lower = to_lowercase(s.as_str());
                if exponent_suffix(&chars_of(lower.as_str())) {
                    Some(s.clone())
                } else {
                    None
                }
            },
            _ => None,
        };
        match exponent {
            Some(e) => {
                self.advance();
                let mut text = String::new();
                push_signed(&mut text, n);
                text.append(e.as_str());
                Ok(Expr::Literal(Literal::Float(text)))
            },
            None => Ok(Expr::Literal(Literal::Integer(n))),
        }
    }

    /// Expressions separated by commas, then the closing token `close`.
    fn parse_expr_list_until(&mut self, close: &Token, close_text: &str) -> (r: Result<Vec<Expr>, ParserError>)
        requires
            old(self).wf(),
        ensures
            old(self).steps(&*final(self)),
            r is Ok ==> final(self).position() > old(self).position() && r->Ok_0@.len() >= 1,
            ({
                let e = leaf_end(old(self).toks(), old(self).position());
                has_leaf(old(self).toks(), old(self).position()) && e < old(self).toks().len()
                    && same_token(tok_at(old(self).toks(), e), *close) && !(tok_at(old(self).toks(), e) is Comma)
                    && ends_operand(old(self).toks(), e, 0)
            }) ==> {
                &&& r matches Ok(v) && v@.len() == 1 && leaf_value(old(self).toks(), old(self).position(), v@[0])
                &&& old(self).moved_to(&*final(self), leaf_end(old(self).toks(), old(self).position()) + 1)
            },
        decreases old(self).toks().len() - old(self).position(), 21int,
    {
        let first = match self.parse_expr() {
            Ok(e) => e,
            Err(e) => return Err(e),
        };
        let mut elems: Vec<Expr> = Vec::new();
        elems.push(first);
        let ghost simple = {
            let e = leaf_end(old(self).toks(), old(self).position());
            has_leaf(old(self).toks(), old(self).position()) && e < old(self).toks().len()
                && same_token(tok_at(old(self).toks(), e), *close) && !(tok_at(old(self).toks(), e) is Comma)
                && ends_operand(old(self).toks(), e, 0)
        };
        while self.match_token(&Token::Comma)
            invariant
                old(self).steps(&*self),
                self.position() > old(self).position(),
                elems@.len() >= 1,
                simple == ({
                    let e = leaf_end(old(self).toks(), old(self).position());
                    has_leaf(old(self).toks(), old(self).position()) && e < old(self).toks().len()
                        && same_token(tok_at(old(self).toks(), e), *close) && !(tok_at(old(self).toks(), e) is Comma)
                        && ends_operand(old(self).toks(), e, 0)
                }),
                simple ==> elems@.len() == 1 && leaf_value(old(self).toks(), old(self).position(), elems@[0])
                    && old(self).moved_to(&*self, leaf_end(old(self).toks(), old(self).position())),
            decreases self.toks().len() - self.position(),
        {
            self.advance();
            let e = match self.parse_expr() {
                Ok(e) => e,
                Err(e) => return Err(e),
            };
            elems.push(e);
        }
        match self.expect_token(close, close_text) {
            Ok(()) => Ok(elems),
            Err(e) => Err(e),
        }
    }

    /// `( expr )` or a row `( expr, expr, ... )`.
    fn parse_parenthesized(&mut self) -> (r: Result<Expr, ParserError>)
        requires
            old(self).wf(),
            old(self).current() is LParen,
        ensures
            old(self).steps(&*final(self)),
            r is Ok ==> final(self).position() > old(self).position(),
            r is Ok ==> r->Ok_0 is Parenthesized || r->Ok_0 is RowConstructor,
            ({
                let j = old(self).position() + 1;
                let e = leaf_end(old(self).toks(), j);
                has_leaf(old(self).toks(), j) && tok_at(old(self).toks(), e) is RParen && ends_operand(old(self).toks(), e, 0)
            }) ==> {
                &&& r matches Ok(Expr::Parenthesized(x)) && leaf_value(old(self).toks(), old(self).position() + 1, *x)
                &&& old(self).moved_to(&*final(self), leaf_end(old(self).toks(), old(self).position() + 1) + 1)
            },
            parenthesized_result(&*old(self), &*final(self), r),
        decreases old(self).toks().len() - old(self).position(), 14int,
    {
        self.advance();
        if self.at_subquery() {
            return Err(self.unexpected("expression"));
        }
        let ghost toks = self.toks();
        let ghost first = self.position();
        let ghost whole = leaf_list_from(toks, first, Seq::empty());
        let ghost rows = row_trees_at(toks, first);
        let expr = match self.parse_expr() {
            Ok(e) => e,
            Err(e) => return Err(e),
        };
        if self.match_token(&Token::Comma) {
            let mut elems: Vec<Expr> = Vec::new();
            elems.push(expr);
            let ghost mut ps: Seq<int> = seq![first];
            let ghost mut ts: Seq<OpTree> = if rows is Some { seq![op_expr_at(toks, first, 0)->Some_0.0] } else { Seq::empty() };
            proof {
                assert(ps.drop_last() =~= Seq::<int>::empty());
                assert(elems@[0] == expr);
            }
            loop
                invariant
                    rows == row_trees_at(toks, first),
                    rows is Some ==> trees_match(toks, elems@, ts) && old(self).moved_to(&*self, self.position())
                        && if tok_at(toks, self.position()) is Comma {
                            call_args_from(toks, self.position() + 1, ts) == rows
                        } else if tok_at(toks, self.position()) is RParen {
                            rows == Some(Outcome::<Seq<OpTree>>::Ok((ts, self.position() + 1)))
                        } else {
                            rows == Some(Outcome::<Seq<OpTree>>::Err((self.position(), ")"@)))
                        },
                    old(self).steps(&*self),
                    self.position() > old(self).position(),
                    !({
                        let j = old(self).position() + 1;
                        let e = leaf_end(old(self).toks(), j);
                        has_leaf(old(self).toks(), j) && tok_at(old(self).toks(), e) is RParen && ends_operand(old(self).toks(), e, 0)
                    }),
                    toks == old(self).toks(),
                    first == old(self).position() + 1,
                    whole == leaf_list_from(toks, first, Seq::empty()),
                    tok_at(toks, leaf_end(toks, first)) is Comma || !(whole is Some),
                    whole is Some ==> ps.len() >= 1 && whole == leaf_list_from(toks, ps.last(), ps.drop_last())
                        && lone_leaf_at(toks, ps.last()) && self.position() == leaf_end(toks, ps.last())
                        && leaf_end(toks, ps.last()) > ps.last()
                        && leaves_match(toks, elems@, ps) && old(self).moved_to(&*self, self.position()),
                    whole is Some ==> ps.len() >= 2 || tok_at(toks, self.position()) is Comma,
                    op_expr_at(toks, first, 0) matches Some((_, qq)) ==> tok_at(toks, qq) is Comma,
                ensures
                    old(self).steps(&*self),
                    self.position() > old(self).position(),
                    toks == old(self).toks(),
                    first == old(self).position() + 1,
                    whole == leaf_list_from(toks, first, Seq::empty()),
                    tok_at(toks, leaf_end(toks, first)) is Comma || !(whole is Some),
                    whole is Some ==> ps.len() >= 2 && whole == leaf_list_from(toks, ps.last(), ps.drop_last())
                        && lone_leaf_at(toks, ps.last()) && self.position() == leaf_end(toks, ps.last())
                        && leaf_end(toks, ps.last()) > ps.last()
                        && leaves_match(toks, elems@, ps) && old(self).moved_to(&*self, self.position()),
                    !(tok_at(toks, self.position()) is Comma),
                    op_expr_at(toks, first, 0) matches Some((_, qq)) ==> tok_at(toks, qq) is Comma,
                    rows == row_trees_at(toks, first),
                    rows is Some ==> trees_match(toks, elems@, ts) && old(self).moved_to(&*self, self.position())
                        && if tok_at(toks, self.position()) is RParen {
                            rows == Some(Outcome::<Seq<OpTree>>::Ok((ts, self.position() + 1)))
                        } else {
                            rows == Some(Outcome::<Seq<OpTree>>::Err((self.position(), ")"@)))
                        },
                decreases self.toks().len() - self.position(),
            {
                proof {
                    if whole is Some && tok_at(toks, self.position()) is Comma {
                        assert(ps.drop_last().push(ps.last()) =~= ps);
                        assert(whole == leaf_list_from(toks, self.position() + 1, ps));
                    }
                }
                if !self.match_token(&Token::Comma) {
                    break;
                }
                self.advance();
                let ghost pos = self.position();
                let e = match self.parse_expr() {
                    Ok(e) => e,
                    Err(e) => return Err(e),
                };
                proof {
                    if rows is Some {
                        let old_ts = ts;
                        ts = ts.push(op_expr_at(toks, pos, 0)->Some_0.0);
                        assert forall|m: int| 0 <= m < elems@.len() + 1 implies tree_matches(toks, elems@.push(e)[m], ts[m]) by {
                            if m < elems@.len() {
                                assert(elems@.push(e)[m] == elems@[m]);
                                assert(ts[m] == old_ts[m]);
                            }
                        }
                    }
                    if whole is Some {
                        let old_ps = ps;
                        ps = ps.push(pos);
                        assert(ps.drop_last() =~= old_ps);
                        assert forall|m: int| 0 <= m < elems@.len() + 1 implies leaf_value(toks, ps[m], elems@.push(e)[m]) by {
                            if m < elems@.len() {
                                assert(elems@.push(e)[m] == elems@[m]);
                                assert(ps[m] == old_ps[m]);
                            }
                        }
                    }
                }
                elems.push(e);
            }
            proof {
                if whole is Some {
                    assert(ps.drop_last().push(ps.last()) =~= ps);
                    let e = leaf_end(toks, ps.last());
                    assert(whole == if tok_at(toks, e) is RParen {
                        Some(Outcome::<Seq<int>>::Ok((ps, e + 1)))
                    } else {
                        Some(Outcome::<Seq<int>>::Err((e, ")"@)))
                    });
                }
            }
            return match self.expect_token(&Token::RParen, ")") {
                Ok(()) => Ok(Expr::RowConstructor(elems)),
                Err(e) => Err(e),
            };
        }
        match self.expect_token(&Token::RParen, ")") {
            Ok(()) => Ok(Expr::Parenthesized(Box::new(expr))),
            Err(e) => Err(e),
        }
    }

    /// The operands that start with a keyword.
    fn parse_keyword_operand(&mut self, kw: Keyword) -> (r: Result<Expr, ParserError>)
        requires
            old(self).wf(),
            old(self).current() == Token::Keyword(kw),
        ensures
            old(self).steps(&*final(self)),
            r is Ok ==> final(self).position() > old(self).position(),
            is_literal_token(old(self).current()) ==> r is Ok && token_literal(old(self).current(), r->Ok_0)
                && old(self).moved_to(&*final(self), old(self).position() + 1),
            r is Ok ==> operand_shape(old(self).current(), r->Ok_0),
            keyword_operand_result(&*old(self), &*final(self), r),
        decreases old(self).toks().len() - old(self).position(), 14int,
    {
        if kw == Keyword::TRUE_P || kw == Keyword::FALSE_P {
            self.advance();
            return Ok(Expr::Literal(Literal::Boolean(kw == Keyword::TRUE_P)));
        }
        if kw == Keyword::NULL_P {
            self.advance();
            return Ok(Expr::Literal(Literal::Null));
        }
        if kw == Keyword::DEFAULT {
            self.advance();
            if !self.match_token(&Token::RParen) && !self.match_token(&Token::Comma) {
                let val = match self.parse_expr() {
                    Ok(e) => e,
                    Err(e) => return Err(e),
                };
                self.skip_conversion_clause();
                return Ok(val);
            }
            return Ok(Expr::Default);
        }
        if kw == Keyword::EXISTS {
            self.advance();
            return match self.expect_token(&Token::LParen, "(") {
                Ok(()) => Err(self.unexpected("expression")),
                Err(e) => Err(e),
            };
        }
        if kw == Keyword::CASE {
            return self.parse_case_expr();
        }
        if kw == Keyword::ARRAY {
            self.advance();
            if self.match_token(&Token::LParen) {
                self.advance();
                if self.at_subquery() {
                    return Err(self.unexpected("expression"));
                }
                return match self.parse_expr_list_until(&Token::RParen, ")") {
                    Ok(elems) => Ok(Expr::Array(elems)),
                    Err(e) => Err(e),
                };
            } else if self.match_token(&Token::LBracket) {
                self.advance();
                if self.at_subquery() {
                    return Err(self.unexpected("expression"));
                }
                return match self.parse_expr_list_until(&Token::RBracket, "]") {
                    Ok(elems) => Ok(Expr::Array(elems)),
                    Err(e) => Err(e),
                };
            }
            return Err(self.unexpected("'(' or '[' after ARRAY"));
        }
        if kw == Keyword::CAST {
            return self.parse_cast();
        }
        if kw == Keyword::XMLELEMENT {
            self.advance();
            return self.parse_xml_element();
        }
        if kw == Keyword::XMLCONCAT {
            self.advance();
            return self.parse_xml_concat();
        }
        if kw == Keyword::XMLFOREST {
            self.advance();
            return self.parse_xml_forest();
        }
        if kw == Keyword::XMLPARSE {
            self.advance();
            return self.parse_xml_parse();
        }
        if kw == Keyword::XMLPI {
            self.advance();
            return self.parse_xml_pi();
        }
        if kw == Keyword::XMLROOT {
            self.advance();
            return self.parse_xml_root();
        }
        if kw == Keyword::XMLSERIALIZE {
            self.advance();
            return self.parse_xml_serialize();
        }
        if kw == Keyword::INTERVAL {
            return self.parse_interval_operand();
        }
        if kw == Keyword::SYSDATE || kw == Keyword::ROWNUM || kw == Keyword::CURRENT_DATE
            || kw == Keyword::CURRENT_CATALOG || kw == Keyword::CURRENT_USER || kw == Keyword::SESSION_USER {
            self.advance();
            return Ok(Expr::ColumnRef(single_name(String::from_str(kw.as_str()))));
        }
        if kw == Keyword::CURRENT_TIME || kw == Keyword::CURRENT_TIMESTAMP || kw == Keyword::LOCALTIME
            || kw == Keyword::LOCALTIMESTAMP {
            let name = String::from_str(kw.as_str());
            self.advance();
            if self.match_token(&Token::LParen) {
                self.advance();
                let precision = match self.parse_expr() {
                    Ok(e) => e,
                    Err(e) => return Err(e),
                };
                return match self.expect_token(&Token::RParen, ")") {
                    Ok(()) => Ok(Expr::SpecialFunction { name, args: vec![precision] }),
                    Err(e) => Err(e),
                };
            }
            return Ok(Expr::ColumnRef(vec![name]));
        }
        proof {
            crate::parser::ddl::lemma_object_name_bounds(self.toks(), self.position());
        }
        let name = match self.parse_object_name() {
            Ok(n) => n,
            Err(e) => return Err(e),
        };
        let literal: Option<String> = match self.peek() {
            Token::StringLiteral(s) => Some(s.clone()),
            _ => None,
        };
        match literal {
            Some(s) => {
                self.advance();
                return Ok(Expr::TypeCast {
                    expr: Box::new(Expr::Literal(Literal::String(s))),
                    data_type: DataType::Custom(name, Vec::new()),
                    default: None,
                    format: None,
                });
            },
            None => {},
        }
        if self.match_token(&Token::LParen) {
            return self.parse_function_call(name);
        }
        Ok(Expr::ColumnRef(name))
    }

    /// `CAST ( expr AS type [DEFAULT value [ON CONVERSION ERROR]] [, format] )`.
    fn parse_cast(&mut self) -> (r: Result<Expr, ParserError>)
        requires
            old(self).wf(),
            old(self).current() == Token::Keyword(Keyword::CAST),
        ensures
            old(self).steps(&*final(self)),
            r is Ok ==> final(self).position() > old(self).position(),
            r is Ok ==> r->Ok_0 is TypeCast,
            ({
                let toks = old(self).toks();
                let j = old(self).position() + 2;
                let e = leaf_end(toks, j);
                &&& tok_at(toks, j - 1) is LParen
                &&& has_leaf(toks, j)
                &&& ends_operand(toks, e, 0)
                &&& kw_at(toks, e, Keyword::AS)
                &&& match keyword_at(toks, e + 1) {
                    Some(k) => is_type_keyword(k) && match type_at(toks, e + 1, k) {
                        Ok((_, m)) => !kw_at(toks, m, Keyword::DEFAULT) && !ident_word_at(toks, m, "default"@)
                            && tok_at(toks, m) is RParen,
                        Err(_) => false,
                    },
                    None => false,
                }
            }) ==> {
                let toks = old(self).toks();
                let j = old(self).position() + 2;
                let e = leaf_end(toks, j);
                let k = keyword_at(toks, e + 1)->0;
                let (v, m) = type_at(toks, e + 1, k)->Ok_0;
                &&& r matches Ok(Expr::TypeCast { expr, data_type, default, format })
                    && leaf_value(toks, j, *expr) && type_view(data_type) == v && default is None && format is None
                &&& old(self).moved_to(&*final(self), m + 1)
            },
            cast_result(&*old(self), &*final(self), r),
        decreases old(self).toks().len() - old(self).position(), 12int,
    {
        self.advance();
        match self.expect_token(&Token::LParen, "(") {
            Ok(()) => {},
            Err(e) => return Err(e),
        }
        let expr = match self.parse_expr() {
            Ok(e) => e,
            Err(e) => return Err(e),
        };
        if !self.match_keyword(Keyword::AS) {
            return Err(self.unexpected("AS in CAST expression"));
        }
        self.advance();
        let data_type = match self.parse_data_type() {
            Ok(t) => t,
            Err(e) => return Err(e),
        };
        let default: Option<Box<Expr>> = if self.match_keyword(Keyword::DEFAULT) || self.match_ident_str("default") {
            self.advance();
            let val = match self.parse_expr() {
                Ok(e) => e,
                Err(e) => return Err(e),
            };
            self.skip_conversion_clause();
            Some(Box::new(val))
        } else {
            None
        };
        let format: Option<Box<Expr>> = if default.is_some() && self.match_token(&Token::Comma) {
            self.advance();
            match self.parse_expr() {
                Ok(e) => Some(Box::new(e)),
                Err(e) => return Err(e),
            }
        } else {
            None
        };
        match self.expect_token(&Token::RParen, ")") {
            Ok(()) => Ok(Expr::TypeCast { expr: Box::new(expr), data_type, default, format }),
            Err(e) => Err(e),
        }
    }

    /// The unit keyword after an interval value, consumed if present, as written.
    fn parse_interval_literal_unit(&mut self) -> (r: Option<String>)
        requires
            old(self).wf(),
        ensures
            final(self).wf(),
            match keyword_at(old(self).toks(), old(self).position()) {
                Some(k) => if is_interval_literal_unit(k) {
                    r is Some && r->0@ == keyword_text(k) && old(self).moved_to(&*final(self), old(self).position() + 1)
                } else {
                    r is None && old(self).moved_to(&*final(self), old(self).position())
                },
                None => r is None && old(self).moved_to(&*final(self), old(self).position()),
            },
    {
        match self.peek_keyword() {
            Some(k) => if interval_literal_unit(k) {
                self.advance();
                Some(String::from_str(k.as_str()))
            } else {
                None
            },
            None => None,
        }
    }

    /// `INTERVAL 'text' [unit]` or `INTERVAL expr [unit]`.
    fn parse_interval_operand(&mut self) -> (r: Result<Expr, ParserError>)
        requires
            old(self).wf(),
            old(self).current() == Token::Keyword(Keyword::INTERVAL),
        ensures
            old(self).steps(&*final(self)),
            r is Ok ==> final(self).position() > old(self).position(),
            ({
                let toks = old(self).toks();
                let i = old(self).position();
                &&& tok_at(toks, i + 1) matches Token::StringLiteral(text) ==> match literal_unit_at(toks, i + 2) {
                    Some(u) => r is Ok && is_interval_form(r->Ok_0, u) && is_string_literal(special_args(r->Ok_0)[0], text@)
                        && old(self).moved_to(&*final(self), i + 3),
                    None => r is Ok && r->Ok_0 is TypeCast && is_string_literal(*r->Ok_0->TypeCast_expr, text@)
                        && (r->Ok_0->TypeCast_data_type matches DataType::Custom(n, a) && strings_view(n@) == seq!["interval"@]
                            && a@.len() == 0) && r->Ok_0->TypeCast_default is None && r->Ok_0->TypeCast_format is None
                        && old(self).moved_to(&*final(self), i + 2),
                }
                &&& !(tok_at(toks, i + 1) is StringLiteral) && lone_leaf_at(toks, i + 1) ==> {
                    let e = leaf_end(toks, i + 1);
                    match literal_unit_at(toks, e) {
                        Some(u) => r is Ok && is_interval_form(r->Ok_0, u) && leaf_value(toks, i + 1, special_args(r->Ok_0)[0])
                            && old(self).moved_to(&*final(self), e + 1),
                        None => r is Ok && leaf_value(toks, i + 1, r->Ok_0) && old(self).moved_to(&*final(self), e),
                    }
                }
            }),
        decreases old(self).toks().len() - old(self).position(), 12int,
    {
        self.advance();
        let literal: Option<String> = match self.peek() {
            Token::StringLiteral(s) => Some(s.clone()),
            _ => None,
        };
        match literal {
            Some(s) => {
                self.advance();
                return match self.parse_interval_literal_unit() {
                    Some(unit) => Ok(Expr::SpecialFunction {
                        name: String::from_str("interval"),
                        args: vec![Expr::Literal(Literal::String(s)), Expr::ColumnRef(vec![unit])],
                    }),
                    None => Ok(Expr::TypeCast {
                        expr: Box::new(Expr::Literal(Literal::String(s))),
                        data_type: DataType::Custom(vec![String::from_str("interval")], Vec::new()),
                        default: None,
                        format: None,
                    }),
                };
            },
            None => {},
        }
        let expr = match self.parse_expr() {
            Ok(e) => e,
            Err(e) => return Err(e),
        };
        match self.parse_interval_literal_unit() {
            Some(unit) => Ok(Expr::SpecialFunction {
                name: String::from_str("interval"),
                args: vec![expr, Expr::ColumnRef(vec![unit])],
            }),
            None => Ok(expr),
        }
    }

    /// After a name: `'text'` makes a typed literal, `(+)` is the deprecated outer-join
    /// marker (a warning is recorded at the token after it), `(` starts a call.
    fn finish_name_operand(&mut self, name: ObjectName) -> (r: Result<Expr, ParserError>)
        requires
            old(self).wf(),
        ensures
            old(self).steps(&*final(self)),
            r is Ok ==> r->Ok_0 is ColumnRef || r->Ok_0 is TypeCast || r->Ok_0 is FunctionCall || r->Ok_0 is SpecialFunction,
            old(self).current() is StringLiteral ==> {
                &&& r matches Ok(Expr::TypeCast { expr, data_type, default, format })
                &&& *expr == Expr::Literal(Literal::String(old(self).current()->StringLiteral_0))
                &&& data_type matches DataType::Custom(n, mods) && n == name && mods@.len() == 0
                &&& default is None && format is None
                &&& old(self).moved_to(&*final(self), old(self).position() + 1)
            },
            outer_join_at(old(self).toks(), old(self).position()) ==> {
                &&& r == Ok::<Expr, ParserError>(Expr::ColumnRef(name))
                &&& final(self).toks() == old(self).toks()
                &&& final(self).position() == old(self).position() + 3
                &&& final(self).warnings().len() == old(self).warnings().len() + 1
                &&& final(self).warnings().last() is Warning
                &&& final(self).warnings().last()->Warning_message@ == outer_join_message()
                &&& final(self).warnings().last()->Warning_location == old(self).location_at(old(self).position() + 3)
            },
            !(old(self).current() is StringLiteral) && !(old(self).current() is LParen) ==> {
                &&& r == Ok::<Expr, ParserError>(Expr::ColumnRef(name))
                &&& old(self).moved_to(&*final(self), old(self).position())
            },
            old(self).current() is LParen && !outer_join_at(old(self).toks(), old(self).position())
                ==> call_result(&*old(self), strings_view(name@), old(self).position(), &*final(self), r),
        decreases old(self).toks().len() - old(self).position(), 13int,
    {
        let literal: Option<String> = match self.peek() {
            Token::StringLiteral(s) => Some(s.clone()),
            _ => None,
        };
        match literal {
            Some(s) => {
                self.advance();
                return Ok(Expr::TypeCast {
                    expr: Box::new(Expr::Literal(Literal::String(s))),
                    data_type: DataType::Custom(name, Vec::new()),
                    default: None,
                    format: None,
                });
            },
            None => {},
        }
        if self.match_token(&Token::LParen) {
            if self.peek_at(1).same_as(&Token::Plus) && self.peek_at(2).same_as(&Token::RParen) {
                self.advance();
                self.advance();
                self.advance();
                let loc = self.current_location();
                self.add_error(ParserError::warning(
                    String::from_str("Oracle-style outer join operator '(+)' is deprecated, use standard JOIN syntax instead"),
                    loc,
                ));
                return Ok(Expr::ColumnRef(name));
            }
            return self.parse_function_call(name);
        }
        Ok(Expr::ColumnRef(name))
    }

    /// A column reference `a`, `a.b.c`, a qualified star `t.*`, a typed literal, or a call.
    fn parse_column_ref_or_qualified_star(&mut self) -> (r: Result<Expr, ParserError>)
        requires
            old(self).wf(),
        ensures
            old(self).steps(&*final(self)),
            r is Ok ==> final(self).position() > old(self).position(),
            r is Ok ==> r->Ok_0 is ColumnRef || r->Ok_0 is QualifiedStar || r->Ok_0 is TypeCast
                || r->Ok_0 is FunctionCall || r->Ok_0 is SpecialFunction,
            ident_text(old(self).current()) is None ==> r is Err && old(self).moved_to(&*final(self), old(self).position())
                && old(self).reports(r->Err_0, old(self).position(), "identifier"@),
            column_ref_result(&*old(self), &*final(self), r),
        decreases old(self).toks().len() - old(self).position(), 14int,
    {
        let first = match self.parse_identifier() {
            Ok(s) => s,
            Err(e) => return Err(e),
        };
        if self.match_token(&Token::Dot) {
            self.advance();
            if self.match_token(&Token::Star) {
                self.advance();
                return Ok(Expr::QualifiedStar(first));
            }
            let mut name: Vec<String> = Vec::new();
            name.push(first);
            match self.parse_identifier() {
                Ok(s) => name.push(s),
                Err(e) => return Err(e),
            }
            assert(strings_view(name@) =~= seq![first@, name@[1]@]);
            proof {
                let toks = old(self).toks();
                let i = old(self).position();
                assert(name_tail(toks, i + 1, seq![first@]) == name_tail(toks, i + 3, seq![first@].push(name@[1]@)));
                assert(seq![first@].push(name@[1]@) =~= seq![first@, name@[1]@]);
            }
            while self.match_token(&Token::Dot)
                invariant
                    !(tok_at(old(self).toks(), old(self).position() + 2) is Star),
                    old(self).steps(&*self),
                    old(self).moved_to(&*self, self.position()),
                    self.position() > old(self).position(),
                    object_name_at(old(self).toks(), old(self).position())
                        == name_tail(self.toks(), self.position(), strings_view(name@)),
                decreases self.toks().len() - self.position(),
            {
                self.advance();
                let ghost before = strings_view(name@);
                match self.parse_identifier() {
                    Ok(s) => name.push(s),
                    Err(e) => return Err(e),
                }
                assert(strings_view(name@) =~= before.push(name@.last()@));
            }
            return self.finish_name_operand(name);
        }
        let single: Vec<String> = vec![first];
        proof {
            assert(strings_view(single@) =~= seq![single@[0]@]);
            assert(object_name_at(old(self).toks(), old(self).position()) == Outcome::<Seq<Seq<char>>>::Ok((seq![single@[0]@], old(self).position() + 1)));
        }
        self.finish_name_operand(single)
    }
}

// ────────────────────────────────────────────────────────────────
// Calls
// ────────────────────────────────────────────────────────────────

impl Parser {
    /// A call of `name`: the keyword forms (`OVERLAY`, `POSITION`, `SUBSTRING`/`SUBSTR`,
    /// `EXTRACT`, `TRIM`) or an ordinary argument list with `DISTINCT`, `*`, a
    /// `DEFAULT ... ON CONVERSION ERROR` argument, `FILTER`, `WITHIN GROUP` and `OVER`.
    /// An ordinary call is checked against the function lists (see `validate_func`).
    #[verifier::rlimit(100)]
    #[verifier::spinoff_prover]
    fn parse_function_call(&mut self, name: ObjectName) -> (r: Result<Expr, ParserError>)
        requires
            old(self).wf(),
        ensures
            old(self).steps(&*final(self)),
            r is Ok ==> final(self).position() > old(self).position(),
            r is Ok ==> call_shape(name, r->Ok_0),
            !(old(self).current() is LParen) ==> r is Err && old(self).moved_to(&*final(self), old(self).position())
                && old(self).reports(r->Err_0, old(self).position(), "("@),
            old(self).current() is LParen ==> call_result(&*old(self), strings_view(name@), old(self).position(), &*final(self), r),
        decreases old(self).toks().len() - old(self).position(), 12int,
    {
        let ghost toks = self.toks();
        let ghost at = self.position();
        proof {
            if name@.len() > 0 {
                assert(strings_view(name@).last() == name@.last()@);
            }
        }
        match self.expect_token(&Token::LParen, "(") {
            Ok(()) => {},
            Err(e) => return Err(e),
        }
        let lower = if name.len() > 0 {
            to_lowercase(name[name.len() - 1].as_str())
        } else {
            String::new()
        };
        proof {
            if name.len() == 0 {
                assert(lower@ =~= call_name_lower(name@));
            }
        }
        if strs_equal(lower.as_str(), "overlay") {
            return self.parse_overlay_function(name);
        }
        if strs_equal(lower.as_str(), "position") {
            return self.parse_position_function(name);
        }
        if strs_equal(lower.as_str(), "substring") || strs_equal(lower.as_str(), "substr") {
            return self.parse_substring_function(name);
        }
        if strs_equal(lower.as_str(), "extract") {
            return self.parse_extract_function(name);
        }
        if strs_equal(lower.as_str(), "trim") {
            return self.parse_trim_function(name);
        }
        let ghost simple = !is_keyword_call(lower_last_of(strings_view(name@))) && lower_last_of(strings_view(name@)) != "trim"@
            && call_list_at(toks, at) is Some;
        if self.match_token(&Token::RParen) {
            self.advance();
            let none: Vec<Expr> = Vec::new();
            proof {
                assert(trees_match(toks, none@, Seq::<OpTree>::empty()));
            }
            return self.finish_call(name, none, false);
        }
        let distinct = self.try_consume_keyword(Keyword::DISTINCT);
        let ghost j = self.position();
        if self.match_token(&Token::Star) {
            self.advance();
            match self.expect_token(&Token::RParen, ")") {
                Ok(()) => {},
                Err(e) => return Err(e),
            }
            return self.finish_call(name, vec![Expr::ColumnRef(vec![String::from_str("*")])], distinct);
        }
        let first = match self.parse_expr() {
            Ok(e) => e,
            Err(e) => return Err(e),
        };
        let mut args: Vec<Expr> = Vec::new();
        args.push(first);
        let ghost mut cur: int = j;
        let ghost mut ts: Seq<OpTree> = Seq::empty();
        proof {
            if simple {
                ts = seq![op_expr_at(toks, j, 0)->Some_0.0];
                assert(ts.drop_last() =~= Seq::<OpTree>::empty());
                assert(args@[0] == first);
            }
        }
        if self.match_keyword(Keyword::DEFAULT) || self.match_ident_str("default") {
            self.advance();
            match self.parse_expr() {
                Ok(e) => args.push(e),
                Err(e) => return Err(e),
            }
            self.skip_conversion_clause();
            if self.match_token(&Token::Comma) {
                self.advance();
                match self.parse_expr() {
                    Ok(e) => args.push(e),
                    Err(e) => return Err(e),
                }
            }
        }
        while self.match_token(&Token::Comma)
            invariant
                old(self).steps(&*self),
                old(self).current() is LParen,
                self.position() > old(self).position(),
                toks == old(self).toks(),
                at == old(self).position(),
                simple == (!is_keyword_call(lower_last_of(strings_view(name@))) && lower_last_of(strings_view(name@)) != "trim"@
                    && call_list_at(toks, at) is Some),
                simple ==> {
                    &&& ts.len() >= 1 && ts.len() == args@.len()
                    &&& call_list_at(toks, at) == match call_args_from(toks, cur, ts.drop_last()) {
                        Some(Ok((v, e))) => Some(Outcome::<(bool, Seq<OpTree>)>::Ok(((distinct, v), e))),
                        Some(Err(x)) => Some(Outcome::<(bool, Seq<OpTree>)>::Err(x)),
                        None => None,
                    }
                    &&& op_expr_at(toks, cur, 0) == Some((ts.last(), self.position()))
                    &&& cur < self.position()
                    &&& trees_match(toks, args@, ts)
                    &&& old(self).moved_to(&*self, self.position())
                },
            decreases self.toks().len() - self.position(),
        {
            proof {
                if simple {
                    assert(ts.drop_last().push(ts.last()) =~= ts);
                    assert(call_args_from(toks, cur, ts.drop_last()) == call_args_from(toks, self.position() + 1, ts));
                }
            }
            self.advance();
            let ghost pos = self.position();
            match self.parse_expr() {
                Ok(e) => {
                    proof {
                        if simple {
                            let old_ts = ts;
                            ts = ts.push(op_expr_at(toks, pos, 0)->Some_0.0);
                            cur = pos;
                            assert(ts.drop_last() =~= old_ts);
                            assert forall|m: int| 0 <= m < args@.len() + 1 implies tree_matches(toks, args@.push(e)[m], ts[m]) by {
                                if m < args@.len() {
                                    assert(args@.push(e)[m] == args@[m]);
                                    assert(ts[m] == old_ts[m]);
                                }
                            }
                        }
                    }
                    args.push(e);
                },
                Err(e) => return Err(e),
            }
        }
        proof {
            if simple {
                assert(ts.drop_last().push(ts.last()) =~= ts);
            }
        }
        match self.expect_token(&Token::RParen, ")") {
            Ok(()) => {},
            Err(e) => return Err(e),
        }
        self.finish_call(name, args, distinct)
    }

    /// The clauses after an ordinary argument list, the check of the call, and the call.
    fn finish_call(&mut self, name: ObjectName, args: Vec<Expr>, distinct: bool) -> (r: Result<Expr, ParserError>)
        requires
            old(self).wf(),
        ensures
            old(self).steps(&*final(self)),
            r is Ok ==> (r->Ok_0 matches Expr::FunctionCall { name: n, args: a, distinct: d, .. } && n == name
                && a == args && d == distinct),
            ({
                let toks = old(self).toks();
                let i = old(self).position();
                !ident_word_at(toks, i, "FILTER"@) && !kw_at(toks, i, Keyword::WITHIN) && !kw_at(toks, i, Keyword::OVER) ==> {
                    &&& r is Ok && r->Ok_0 is FunctionCall
                    &&& r->Ok_0->FunctionCall_over is None && r->Ok_0->FunctionCall_filter is None
                    &&& r->Ok_0->FunctionCall_within_group@.len() == 0
                    &&& final(self).toks() == toks && final(self).position() == i
                    &&& final(self).warnings().take(old(self).warnings().len() as int) == old(self).warnings()
                    &&& warnings_are(
                        final(self).warnings().skip(old(self).warnings().len() as int),
                        list_messages(
                            call_check_name(name@),
                            unicode_lowercase(call_check_name(name@)),
                            args@.len() as nat,
                            distinct,
                            false,
                        ),
                        old(self).location_at(i),
                    )
                }
            }),
        decreases old(self).toks().len() - old(self).position(), 11int,
    {
        let filter = match self.try_parse_filter() {
            Ok(f) => f,
            Err(e) => return Err(e),
        };
        let within_group = match self.try_parse_within_group() {
            Ok(w) => w,
            Err(e) => return Err(e),
        };
        let over = match self.try_parse_over_clause() {
            Ok(o) => o,
            Err(e) => return Err(e),
        };
        self.validate_func(&name, args.len(), distinct, over.is_some());
        Ok(Expr::FunctionCall { name, args, distinct, over, filter, within_group })
    }

    /// `OVERLAY(a PLACING b FROM c [FOR d])`, after the `(`.
    fn parse_overlay_function(&mut self, name: ObjectName) -> (r: Result<Expr, ParserError>)
        requires
            old(self).wf(),
        ensures
            old(self).steps(&*final(self)),
            r is Ok ==> final(self).position() > old(self).position() && special_form(name, r->Ok_0, 3, 4),
            ({
                let toks = old(self).toks();
                let i = old(self).position();
                let e1 = leaf_end(toks, i);
                let e2 = leaf_end(toks, e1 + 1);
                let e3 = leaf_end(toks, e2 + 1);
                lone_leaf_at(toks, i) ==> {
                    &&& !kw_at(toks, e1, Keyword::PLACING) ==> r is Err && old(self).moved_to(&*final(self), e1)
                        && old(self).reports(r->Err_0, e1, keyword_text(Keyword::PLACING))
                    &&& kw_at(toks, e1, Keyword::PLACING) && lone_leaf_at(toks, e1 + 1) && !kw_at(toks, e2, Keyword::FROM)
                        ==> r is Err && old(self).moved_to(&*final(self), e2)
                        && old(self).reports(r->Err_0, e2, keyword_text(Keyword::FROM))
                    &&& kw_at(toks, e1, Keyword::PLACING) && lone_leaf_at(toks, e1 + 1) && kw_at(toks, e2, Keyword::FROM)
                        && lone_leaf_at(toks, e2 + 1) && !kw_at(toks, e3, Keyword::FOR) ==> if tok_at(toks, e3) is RParen {
                        &&& r is Ok && special_form(name, r->Ok_0, 3, 3)
                        &&& leaf_value(toks, i, special_args(r->Ok_0)[0])
                        &&& leaf_value(toks, e1 + 1, special_args(r->Ok_0)[1])
                        &&& leaf_value(toks, e2 + 1, special_args(r->Ok_0)[2])
                        &&& old(self).moved_to(&*final(self), e3 + 1)
                    } else {
                        r is Err && old(self).moved_to(&*final(self), e3) && old(self).reports(r->Err_0, e3, ")"@)
                    }
                }
            }),
        decreases old(self).toks().len() - old(self).position(), 21int,
    {
        let arg1 = match self.parse_expr() {
            Ok(e) => e,
            Err(e) => return Err(e),
        };
        match self.expect_keyword(Keyword::PLACING) {
            Ok(()) => {},
            Err(e) => return Err(e),
        }
        let arg2 = match self.parse_expr() {
            Ok(e) => e,
            Err(e) => return Err(e),
        };
        match self.expect_keyword(Keyword::FROM) {
            Ok(()) => {},
            Err(e) => return Err(e),
        }
        let arg3 = match self.parse_expr() {
            Ok(e) => e,
            Err(e) => return Err(e),
        };
        let arg4: Option<Expr> = if self.try_consume_keyword(Keyword::FOR) {
            match self.parse_expr() {
                Ok(e) => Some(e),
                Err(e) => return Err(e),
            }
        } else {
            None
        };
        match self.expect_token(&Token::RParen, ")") {
            Ok(()) => {},
            Err(e) => return Err(e),
        }
        let mut args: Vec<Expr> = Vec::new();
        args.push(arg1);
        args.push(arg2);
        args.push(arg3);
        match arg4 {
            Some(a) => args.push(a),
            None => {},
        }
        Ok(Expr::SpecialFunction { name: join_dotted(&name), args })
    }

    /// `POSITION(a IN b)`, after the `(`; both sides are operands.
    fn parse_position_function(&mut self, name: ObjectName) -> (r: Result<Expr, ParserError>)
        requires
            old(self).wf(),
        ensures
            old(self).steps(&*final(self)),
            r is Ok ==> final(self).position() > old(self).position() && special_form(name, r->Ok_0, 2, 2),
            ({
                let toks = old(self).toks();
                let i = old(self).position();
                let e1 = leaf_end(toks, i);
                let k = if kw_at(toks, e1, Keyword::IN_P) || ident_word_at(toks, e1, "IN"@) { e1 + 1 } else { e1 };
                let e2 = leaf_end(toks, k);
                has_leaf(toks, i) && has_leaf(toks, k) ==> if tok_at(toks, e2) is RParen {
                    &&& r is Ok && leaf_value(toks, i, special_args(r->Ok_0)[0]) && leaf_value(toks, k, special_args(r->Ok_0)[1])
                    &&& old(self).moved_to(&*final(self), e2 + 1)
                } else {
                    r is Err && old(self).moved_to(&*final(self), e2) && old(self).reports(r->Err_0, e2, ")"@)
                }
            }),
        decreases old(self).toks().len() - old(self).position(), 16int,
    {
        let arg1 = match self.parse_primary_expr() {
            Ok(e) => e,
            Err(e) => return Err(e),
        };
        if self.match_keyword(Keyword::IN_P) {
            self.advance();
        } else if self.match_ident_str("IN") {
            self.advance();
        }
        let arg2 = match self.parse_primary_expr() {
            Ok(e) => e,
            Err(e) => return Err(e),
        };
        match self.expect_token(&Token::RParen, ")") {
            Ok(()) => Ok(Expr::SpecialFunction { name: join_dotted(&name), args: vec![arg1, arg2] }),
            Err(e) => Err(e),
        }
    }

    /// `SUBSTRING(a FROM b [FOR c])`, `SUBSTRING(a FOR c)` or `SUBSTRING(a, b [, c])`, after the `(`.
    fn parse_substring_function(&mut self, name: ObjectName) -> (r: Result<Expr, ParserError>)
        requires
            old(self).wf(),
        ensures
            old(self).steps(&*final(self)),
            r is Ok ==> final(self).position() > old(self).position() && special_form(name, r->Ok_0, 1, 3),
            ({
                let toks = old(self).toks();
                let i = old(self).position();
                let e1 = leaf_end(toks, i);
                let e2 = leaf_end(toks, e1 + 1);
                lone_leaf_at(toks, i) ==> {
                    &&& !kw_at(toks, e1, Keyword::FROM) && !kw_at(toks, e1, Keyword::FOR) && !(tok_at(toks, e1) is Comma)
                        ==> if tok_at(toks, e1) is RParen {
                            r is Ok && special_form(name, r->Ok_0, 1, 1) && leaf_value(toks, i, special_args(r->Ok_0)[0])
                                && old(self).moved_to(&*final(self), e1 + 1)
                        } else {
                            r is Err && old(self).moved_to(&*final(self), e1) && old(self).reports(r->Err_0, e1, ")"@)
                        }
                    &&& kw_at(toks, e1, Keyword::FROM) && lone_leaf_at(toks, e1 + 1) && !kw_at(toks, e2, Keyword::FOR)
                        ==> if tok_at(toks, e2) is RParen {
                            &&& r is Ok && special_form(name, r->Ok_0, 2, 2)
                            &&& leaf_value(toks, i, special_args(r->Ok_0)[0]) && leaf_value(toks, e1 + 1, special_args(r->Ok_0)[1])
                            &&& old(self).moved_to(&*final(self), e2 + 1)
                        } else {
                            r is Err && old(self).moved_to(&*final(self), e2) && old(self).reports(r->Err_0, e2, ")"@)
                        }
                }
            }),
        decreases old(self).toks().len() - old(self).position(), 21int,
    {
        let arg1 = match self.parse_expr() {
            Ok(e) => e,
            Err(e) => return Err(e),
        };
        let mut args: Vec<Expr> = Vec::new();
        args.push(arg1);
        if self.try_consume_keyword(Keyword::FROM) {
            match self.parse_expr() {
                Ok(e) => args.push(e),
                Err(e) => return Err(e),
            }
            if self.try_consume_keyword(Keyword::FOR) {
                match self.parse_expr() {
                    Ok(e) => args.push(e),
                    Err(e) => return Err(e),
                }
            }
        } else if self.try_consume_keyword(Keyword::FOR) {
            match self.parse_expr() {
                Ok(e) => args.push(e),
                Err(e) => return Err(e),
            }
        } else if self.match_token(&Token::Comma) {
            self.advance();
            match self.parse_expr() {
                Ok(e) => args.push(e),
                Err(e) => return Err(e),
            }
            if self.match_token(&Token::Comma) {
                self.advance();
                match self.parse_expr() {
                    Ok(e) => args.push(e),
                    Err(e) => return Err(e),
                }
            }
        }
        match self.expect_token(&Token::RParen, ")") {
            Ok(()) => Ok(Expr::SpecialFunction { name: join_dotted(&name), args }),
            Err(e) => Err(e),
        }
    }

    /// `EXTRACT(field FROM expr)`, after the `(`.
    fn parse_extract_function(&mut self, name: ObjectName) -> (r: Result<Expr, ParserError>)
        requires
            old(self).wf(),
        ensures
            old(self).steps(&*final(self)),
            r is Ok ==> final(self).position() > old(self).position() && special_form(name, r->Ok_0, 2, 2),
            r is Ok ==> (r->Ok_0 matches Expr::SpecialFunction { args, .. } && (args@[0] matches Expr::ColumnRef(f)
                && f@.len() == 1 && Some(f@[0]@) == ident_text(old(self).current()))),
            ident_text(old(self).current()) is None ==> r is Err && old(self).moved_to(&*final(self), old(self).position())
                && old(self).reports(r->Err_0, old(self).position(), "identifier"@),
            ({
                let toks = old(self).toks();
                let i = old(self).position();
                let e = leaf_end(toks, i + 2);
                &&& ident_text(old(self).current()) is Some && !kw_at(toks, i + 1, Keyword::FROM) ==> r is Err
                    && old(self).moved_to(&*final(self), i + 1) && old(self).reports(r->Err_0, i + 1, keyword_text(Keyword::FROM))
                &&& ident_text(old(self).current()) is Some && kw_at(toks, i + 1, Keyword::FROM) && lone_leaf_at(toks, i + 2)
                    ==> if tok_at(toks, e) is RParen {
                        r is Ok && leaf_value(toks, i + 2, special_args(r->Ok_0)[1]) && old(self).moved_to(&*final(self), e + 1)
                    } else {
                        r is Err && old(self).moved_to(&*final(self), e) && old(self).reports(r->Err_0, e, ")"@)
                    }
            }),
        decreases old(self).toks().len() - old(self).position(), 10int,
    {
        let field = match self.parse_identifier() {
            Ok(s) => s,
            Err(e) => return Err(e),
        };
        match self.expect_keyword(Keyword::FROM) {
            Ok(()) => {},
            Err(e) => return Err(e),
        }
        let expr = match self.parse_expr() {
            Ok(e) => e,
            Err(e) => return Err(e),
        };
        match self.expect_token(&Token::RParen, ")") {
            Ok(()) => Ok(Expr::SpecialFunction { name: join_dotted(&name), args: vec![Expr::ColumnRef(vec![field]), expr] }),
            Err(e) => Err(e),
        }
    }

    /// `TRIM([LEADING|TRAILING|BOTH] [chars] FROM expr)`, `TRIM(chars FROM expr)`, or an
    /// ordinary call `TRIM(expr, ...)`, after the `(`.
    fn parse_trim_function(&mut self, name: ObjectName) -> (r: Result<Expr, ParserError>)
        requires
            old(self).wf(),
        ensures
            old(self).steps(&*final(self)),
            r is Ok ==> final(self).position() > old(self).position(),
            r is Ok ==> special_form(name, r->Ok_0, 2, 3) || (r->Ok_0 matches Expr::FunctionCall { name: n, .. } && n == name),
            ({
                let toks = old(self).toks();
                let i = old(self).position();
                let e1 = leaf_end(toks, i);
                let e2 = leaf_end(toks, e1 + 1);
                let direction = kw_at(toks, i, Keyword::LEADING) || kw_at(toks, i, Keyword::TRAILING) || kw_at(toks, i, Keyword::BOTH);
                &&& direction && ident_text(tok_at(toks, i)) is None ==> r is Err && old(self).moved_to(&*final(self), i)
                    && old(self).reports(r->Err_0, i, "identifier"@)
                &&& direction && ident_text(tok_at(toks, i)) is Some && kw_at(toks, i + 1, Keyword::FROM) && lone_leaf_at(toks, i + 2) ==> {
                    let e = leaf_end(toks, i + 2);
                    if tok_at(toks, e) is RParen {
                        &&& r is Ok && special_form(name, r->Ok_0, 2, 2)
                        &&& special_args(r->Ok_0)[0] matches Expr::ColumnRef(d) && d@.len() == 1
                            && Some(d@[0]@) == ident_text(tok_at(toks, i))
                        &&& leaf_value(toks, i + 2, special_args(r->Ok_0)[1])
                        &&& old(self).moved_to(&*final(self), e + 1)
                    } else {
                        r is Err && old(self).moved_to(&*final(self), e) && old(self).reports(r->Err_0, e, ")"@)
                    }
                }
                &&& !direction && lone_leaf_at(toks, i) && kw_at(toks, e1, Keyword::FROM) && lone_leaf_at(toks, e1 + 1)
                    ==> if tok_at(toks, e2) is RParen {
                        &&& r is Ok && special_form(name, r->Ok_0, 2, 2)
                        &&& leaf_value(toks, i, special_args(r->Ok_0)[0]) && leaf_value(toks, e1 + 1, special_args(r->Ok_0)[1])
                        &&& old(self).moved_to(&*final(self), e2 + 1)
                    } else {
                        r is Err && old(self).moved_to(&*final(self), e2) && old(self).reports(r->Err_0, e2, ")"@)
                    }
                &&& !direction && lone_leaf_at(toks, i) && !kw_at(toks, e1, Keyword::FROM) && !(tok_at(toks, e1) is Comma) ==> {
                    &&& !(tok_at(toks, e1) is RParen) ==> r is Err && old(self).moved_to(&*final(self), e1)
                        && old(self).reports(r->Err_0, e1, ")"@)
                    &&& r is Ok ==> r->Ok_0 is FunctionCall && r->Ok_0->FunctionCall_args@.len() == 1
                        && leaf_value(toks, i, r->Ok_0->FunctionCall_args@[0])
                    &&& tok_at(toks, e1) is RParen && !ident_word_at(toks, e1 + 1, "FILTER"@) && !kw_at(toks, e1 + 1, Keyword::WITHIN)
                        && !kw_at(toks, e1 + 1, Keyword::OVER) ==> r is Ok
                }
            }),
        decreases old(self).toks().len() - old(self).position(), 21int,
    {
        let has_direction = self.match_keyword(Keyword::LEADING) || self.match_keyword(Keyword::TRAILING)
            || self.match_keyword(Keyword::BOTH);
        if has_direction {
            let dir = match self.parse_identifier() {
                Ok(s) => s,
                Err(e) => return Err(e),
            };
            if self.match_keyword(Keyword::FROM) {
                self.advance();
                let source = match self.parse_expr() {
                    Ok(e) => e,
                    Err(e) => return Err(e),
                };
                return match self.expect_token(&Token::RParen, ")") {
                    Ok(()) => Ok(Expr::SpecialFunction {
                        name: join_dotted(&name),
                        args: vec![Expr::ColumnRef(vec![dir]), source],
                    }),
                    Err(e) => Err(e),
                };
            }
            let chars = match self.parse_expr() {
                Ok(e) => e,
                Err(e) => return Err(e),
            };
            match self.expect_keyword(Keyword::FROM) {
                Ok(()) => {},
                Err(e) => return Err(e),
            }
            let source = match self.parse_expr() {
                Ok(e) => e,
                Err(e) => return Err(e),
            };
            return match self.expect_token(&Token::RParen, ")") {
                Ok(()) => Ok(Expr::SpecialFunction {
                    name: join_dotted(&name),
                    args: vec![Expr::ColumnRef(vec![dir]), chars, source],
                }),
                Err(e) => Err(e),
            };
        }
        let first = match self.parse_expr() {
            Ok(e) => e,
            Err(e) => return Err(e),
        };
        if self.match_keyword(Keyword::FROM) {
            self.advance();
            let source = match self.parse_expr() {
                Ok(e) => e,
                Err(e) => return Err(e),
            };
            return match self.expect_token(&Token::RParen, ")") {
                Ok(()) => Ok(Expr::SpecialFunction { name: join_dotted(&name), args: vec![first, source] }),
                Err(e) => Err(e),
            };
        }
        let mut args: Vec<Expr> = Vec::new();
        args.push(first);
        let ghost single = lone_leaf_at(old(self).toks(), old(self).position())
            && !kw_at(old(self).toks(), leaf_end(old(self).toks(), old(self).position()), Keyword::FROM)
            && !(tok_at(old(self).toks(), leaf_end(old(self).toks(), old(self).position())) is Comma);
        while self.match_token(&Token::Comma)
            invariant
                old(self).steps(&*self),
                self.position() > old(self).position(),
                single == (lone_leaf_at(old(self).toks(), old(self).position())
                    && !kw_at(old(self).toks(), leaf_end(old(self).toks(), old(self).position()), Keyword::FROM)
                    && !(tok_at(old(self).toks(), leaf_end(old(self).toks(), old(self).position())) is Comma)),
                single ==> old(self).moved_to(&*self, leaf_end(old(self).toks(), old(self).position())) && args@.len() == 1
                    && leaf_value(old(self).toks(), old(self).position(), args@[0]),
                !(kw_at(old(self).toks(), old(self).position(), Keyword::LEADING) || kw_at(old(self).toks(), old(self).position(), Keyword::TRAILING)
                    || kw_at(old(self).toks(), old(self).position(), Keyword::BOTH)),
                lone_leaf_at(old(self).toks(), old(self).position())
                    ==> !kw_at(old(self).toks(), leaf_end(old(self).toks(), old(self).position()), Keyword::FROM),
            decreases self.toks().len() - self.position(),
        {
            self.advance();
            match self.parse_expr() {
                Ok(e) => args.push(e),
                Err(e) => return Err(e),
            }
        }
        match self.expect_token(&Token::RParen, ")") {
            Ok(()) => {},
            Err(e) => return Err(e),
        }
        self.finish_call(name, args, false)
    }

    /// `FILTER (WHERE condition)` after a call, if present.
    fn try_parse_filter(&mut self) -> (r: Result<Option<Box<Expr>>, ParserError>)
        requires
            old(self).wf(),
        ensures
            old(self).steps(&*final(self)),
            !ident_word_at(old(self).toks(), old(self).position(), "FILTER"@) ==> (r matches Ok(None)
                && old(self).moved_to(&*final(self), old(self).position())),
            r matches Ok(Some(_)) ==> final(self).position() > old(self).position(),
            ident_word_at(old(self).toks(), old(self).position(), "FILTER"@)
                && !(tok_at(old(self).toks(), old(self).position() + 1) is LParen) ==> r is Err
                && old(self).moved_to(&*final(self), old(self).position() + 1)
                && old(self).reports(r->Err_0, old(self).position() + 1, "("@),
            ({
                let toks = old(self).toks();
                let i = old(self).position();
                let e = leaf_end(toks, i + 3);
                ident_word_at(toks, i, "FILTER"@) && tok_at(toks, i + 1) is LParen && kw_at(toks, i + 2, Keyword::WHERE)
                    && has_leaf(toks, i + 3) && ends_operand(toks, e, 0) && tok_at(toks, e) is RParen
            }) ==> {
                &&& r matches Ok(Some(x)) && leaf_value(old(self).toks(), old(self).position() + 3, *x)
                &&& old(self).moved_to(&*final(self), leaf_end(old(self).toks(), old(self).position() + 3) + 1)
            },
        decreases old(self).toks().len() - old(self).position(), 9int,
    {
        if !self.match_ident_str("FILTER") {
            return Ok(None);
        }
        self.advance();
        match self.expect_token(&Token::LParen, "(") {
            Ok(()) => {},
            Err(e) => return Err(e),
        }
        match self.expect_keyword(Keyword::WHERE) {
            Ok(()) => {},
            Err(e) => return Err(e),
        }
        let expr = match self.parse_expr() {
            Ok(e) => e,
            Err(e) => return Err(e),
        };
        match self.expect_token(&Token::RParen, ")") {
            Ok(()) => Ok(Some(Box::new(expr))),
            Err(e) => Err(e),
        }
    }

    /// `WITHIN GROUP (ORDER BY expr [ASC|DESC], ...)` after a call, if present.
    fn try_parse_within_group(&mut self) -> (r: Result<Vec<OrderByItem>, ParserError>)
        requires
            old(self).wf(),
        ensures
            old(self).steps(&*final(self)),
            !kw_at(old(self).toks(), old(self).position(), Keyword::WITHIN) ==> r is Ok && r->Ok_0@.len() == 0
                && old(self).moved_to(&*final(self), old(self).position()),
            kw_at(old(self).toks(), old(self).position(), Keyword::WITHIN) && r is Ok ==> r->Ok_0@.len() >= 1,
        decreases old(self).toks().len() - old(self).position(), 9int,
    {
        if !self.match_keyword(Keyword::WITHIN) {
            return Ok(Vec::new());
        }
        self.advance();
        match self.expect_keyword(Keyword::GROUP_P) {
            Ok(()) => {},
            Err(e) => return Err(e),
        }
        match self.expect_token(&Token::LParen, "(") {
            Ok(()) => {},
            Err(e) => return Err(e),
        }
        match self.expect_keyword(Keyword::ORDER) {
            Ok(()) => {},
            Err(e) => return Err(e),
        }
        match self.expect_keyword(Keyword::BY) {
            Ok(()) => {},
            Err(e) => return Err(e),
        }
        let mut items: Vec<OrderByItem> = Vec::new();
        loop
            invariant
                old(self).steps(&*self),
                kw_at(old(self).toks(), old(self).position(), Keyword::WITHIN),
                self.position() > old(self).position(),
            ensures
                items@.len() >= 1,
            decreases self.toks().len() - self.position(),
        {
            let expr = match self.parse_expr() {
                Ok(e) => e,
                Err(e) => return Err(e),
            };
            let asc = self.parse_sort_direction();
            items.push(OrderByItem { expr, asc, nulls_first: None });
            if !self.match_token(&Token::Comma) {
                break;
            }
            self.advance();
        }
        match self.expect_token(&Token::RParen, ")") {
            Ok(()) => Ok(items),
            Err(e) => Err(e),
        }
    }

    /// `OVER (window specification)` or `OVER window_name` after a call, if present.
    fn try_parse_over_clause(&mut self) -> (r: Result<Option<WindowSpec>, ParserError>)
        requires
            old(self).wf(),
        ensures
            old(self).steps(&*final(self)),
            !kw_at(old(self).toks(), old(self).position(), Keyword::OVER) ==> (r matches Ok(None)
                && old(self).moved_to(&*final(self), old(self).position())),
            kw_at(old(self).toks(), old(self).position(), Keyword::OVER) && r is Ok ==> r->Ok_0 is Some,
        decreases old(self).toks().len() - old(self).position(), 9int,
    {
        if !self.match_keyword(Keyword::OVER) {
            return Ok(None);
        }
        self.advance();
        if self.match_token(&Token::LParen) {
            self.advance();
            let spec = match self.parse_window_specification() {
                Ok(s) => s,
                Err(e) => return Err(e),
            };
            match self.expect_token(&Token::RParen, ")") {
                Ok(()) => Ok(Some(spec)),
                Err(e) => Err(e),
            }
        } else {
            match self.parse_identifier() {
                Ok(name) => Ok(Some(WindowSpec {
                    partition_by: Vec::new(),
                    order_by: Vec::new(),
                    frame: None,
                    window_name: Some(name),
                })),
                Err(e) => Err(e),
            }
        }
    }

    /// The inside of a window specification:
    /// `[name] [PARTITION BY exprs] [ORDER BY items] [ROWS|RANGE|GROUPS extent]`.
    fn parse_window_specification(&mut self) -> (r: Result<WindowSpec, ParserError>)
        requires
            old(self).wf(),
        ensures
            old(self).steps(&*final(self)),
            r is Ok ==> opt_text(r->Ok_0.window_name) == match old(self).current() {
                Token::Ident(s) => Some(s@),
                Token::QuotedIdent(s) => Some(s@),
                _ => None::<Seq<char>>,
            },
            plain_window_at(old(self).toks(), old(self).position()) ==> {
                &&& r is Ok
                &&& r->Ok_0.partition_by@.len() == 0 && r->Ok_0.order_by@.len() == 0 && r->Ok_0.frame is None
                &&& old(self).moved_to(&*final(self), window_name_end(old(self).toks(), old(self).position()))
            },
        decreases old(self).toks().len() - old(self).position(), 8int,
    {
        let window_name = self.try_parse_window_name();
        let partition_by: Vec<Expr> = if self.match_keyword(Keyword::PARTITION) {
            self.advance();
            match self.expect_keyword(Keyword::BY) {
                Ok(()) => {},
                Err(e) => return Err(e),
            }
            let first = match self.parse_expr() {
                Ok(e) => e,
                Err(e) => return Err(e),
            };
            let mut items: Vec<Expr> = Vec::new();
            items.push(first);
            while self.match_token(&Token::Comma)
                invariant
                    old(self).steps(&*self),
                    self.position() > old(self).position(),
                    !plain_window_at(old(self).toks(), old(self).position()),
                decreases self.toks().len() - self.position(),
            {
                self.advance();
                match self.parse_expr() {
                    Ok(e) => items.push(e),
                    Err(e) => return Err(e),
                }
            }
            items
        } else {
            Vec::new()
        };
        let order_by: Vec<OrderByItem> = if self.match_keyword(Keyword::ORDER) {
            self.advance();
            match self.expect_keyword(Keyword::BY) {
                Ok(()) => {},
                Err(e) => return Err(e),
            }
            let mut items: Vec<OrderByItem> = Vec::new();
            loop
                invariant
                    old(self).steps(&*self),
                    self.position() > old(self).position(),
                    !plain_window_at(old(self).toks(), old(self).position()),
                decreases self.toks().len() - self.position(),
            {
                let expr = match self.parse_expr() {
                    Ok(e) => e,
                    Err(e) => return Err(e),
                };
                let asc = self.parse_sort_direction();
                let nulls_first: Option<bool> = if self.match_keyword(Keyword::NULLS_P) {
                    self.advance();
                    if self.match_keyword(Keyword::FIRST_P) {
                        self.advance();
                        Some(true)
                    } else {
                        match self.expect_keyword(Keyword::LAST_P) {
                            Ok(()) => Some(false),
                            Err(e) => return Err(e),
                        }
                    }
                } else {
                    None
                };
                items.push(OrderByItem { expr, asc, nulls_first });
                if !self.match_token(&Token::Comma) {
                    break;
                }
                self.advance();
            }
            items
        } else {
            Vec::new()
        };
        let frame: Option<WindowFrame> = if self.match_keyword(Keyword::ROWS) || self.match_keyword(Keyword::RANGE)
            || self.match_keyword(Keyword::GROUPS) {
            let mode = if self.match_keyword(Keyword::ROWS) {
                WindowFrameMode::Rows
            } else if self.match_keyword(Keyword::RANGE) {
                WindowFrameMode::Range
            } else {
                WindowFrameMode::Groups
            };
            self.advance();
            match self.parse_frame_extent() {
                Ok((start, end)) => Some(WindowFrame { mode, start, end }),
                Err(e) => return Err(e),
            }
        } else {
            None
        };
        Ok(WindowSpec { partition_by, order_by, frame, window_name })
    }

    /// `CASE [operand] WHEN c THEN r ... [ELSE e] END`.
    fn parse_case_expr(&mut self) -> (r: Result<Expr, ParserError>)
        requires
            old(self).wf(),
        ensures
            old(self).steps(&*final(self)),
            r is Ok ==> final(self).position() > old(self).position() && r->Ok_0 is Case,
            old(self).current() != Token::Keyword(Keyword::CASE) ==> r is Err
                && old(self).moved_to(&*final(self), old(self).position())
                && old(self).reports(r->Err_0, old(self).position(), "CASE"@),
            old(self).current() == Token::Keyword(Keyword::CASE) ==> case_result(&*old(self), &*final(self), r),
        decreases old(self).toks().len() - old(self).position(), 12int,
    {
        let ghost toks = self.toks();
        let ghost simple = old(self).current() == Token::Keyword(Keyword::CASE) && case_at(toks, old(self).position()) is Some;
        match self.expect_keyword(Keyword::CASE) {
            Ok(()) => {},
            Err(e) => return Err(e),
        }
        let ghost mut op: Option<OpTree> = None;
        let operand: Option<Box<Expr>> = if !self.match_keyword(Keyword::WHEN) {
            let ghost p1 = self.position();
            match self.parse_expr() {
                Ok(e) => {
                    proof {
                        if simple {
                            op = Some(op_expr_at(toks, p1, 0)->Some_0.0);
                        }
                    }
                    Some(Box::new(e))
                },
                Err(e) => return Err(e),
            }
        } else {
            None
        };
        let ghost k = self.position();
        let ghost mut ws: Seq<(OpTree, OpTree)> = Seq::empty();
        let mut whens: Vec<WhenClause> = Vec::new();
        while self.match_keyword(Keyword::WHEN)
            invariant
                old(self).steps(&*self),
                old(self).current() == Token::Keyword(Keyword::CASE),
                self.position() > old(self).position(),
                toks == old(self).toks(),
                simple == (old(self).current() == Token::Keyword(Keyword::CASE) && case_at(toks, old(self).position()) is Some),
                simple ==> {
                    &&& case_at(toks, old(self).position()) == match whens_from(toks, self.position(), ws) {
                        None => None,
                        Some(Err(x)) => Some(Err(x)),
                        Some(Ok((ws2, k2))) => {
                            let el: Option<(Option<OpTree>, int)> = if kw_at(toks, k2, Keyword::ELSE) {
                                match op_expr_at(toks, k2 + 1, 0) {
                                    Some((t, q)) => Some((Some(t), q)),
                                    None => None,
                                }
                            } else {
                                Some((None, k2))
                            };
                            match el {
                                None => None,
                                Some((e, k3)) => if kw_at(toks, k3, Keyword::END_P) {
                                    Some(Outcome::<CaseView>::Ok(((op, ws2, e), k3 + 1)))
                                } else {
                                    Some(Outcome::<CaseView>::Err((k3, keyword_text(Keyword::END_P))))
                                },
                            }
                        },
                    }
                    &&& opt_tree_matches(toks, operand, op)
                    &&& whens_match(toks, whens@, ws)
                    &&& old(self).moved_to(&*self, self.position())
                },
            decreases self.toks().len() - self.position(),
        {
            let ghost pos = self.position();
            self.advance();
            let condition = match self.parse_expr() {
                Ok(e) => e,
                Err(e) => return Err(e),
            };
            match self.expect_keyword(Keyword::THEN) {
                Ok(()) => {},
                Err(e) => return Err(e),
            }
            let ghost p2 = self.position();
            let result = match self.parse_expr() {
                Ok(e) => e,
                Err(e) => return Err(e),
            };
            proof {
                if simple {
                    let c = op_expr_at(toks, pos + 1, 0)->Some_0.0;
                    let x = op_expr_at(toks, p2, 0)->Some_0.0;
                    let old_ws = ws;
                    ws = ws.push((c, x));
                    let w = WhenClause { condition, result };
                    assert forall|m: int| 0 <= m < whens@.len() + 1 implies tree_matches(toks, whens@.push(w)[m].condition, ws[m].0)
                        && tree_matches(toks, whens@.push(w)[m].result, ws[m].1) by {
                        if m < whens@.len() {
                            assert(whens@.push(w)[m] == whens@[m]);
                            assert(ws[m] == old_ws[m]);
                        }
                    }
                }
            }
            whens.push(WhenClause { condition, result });
        }
        let ghost k2 = self.position();
        let else_expr: Option<Box<Expr>> = if self.match_keyword(Keyword::ELSE) {
            self.advance();
            match self.parse_expr() {
                Ok(e) => Some(Box::new(e)),
                Err(e) => return Err(e),
            }
        } else {
            None
        };
        match self.expect_keyword(Keyword::END_P) {
            Ok(()) => Ok(Expr::Case { operand, whens, else_expr }),
            Err(e) => Err(e),
        }
    }
}

// ────────────────────────────────────────────────────────────────
// XML functions
// ────────────────────────────────────────────────────────────────

impl Parser {
    /// `XMLELEMENT([ENTITYESCAPING|NOENTITYESCAPING] {EVALNAME expr | [NAME] name}
    /// [, XMLATTRIBUTES(...)] [, content [AS alias]]...)`, after the keyword.
    fn parse_xml_element(&mut self) -> (r: Result<Expr, ParserError>)
        requires
            old(self).wf(),
        ensures
            old(self).steps(&*final(self)),
            r is Ok ==> final(self).position() > old(self).position() && r->Ok_0 is XmlElement,
            !(old(self).current() is LParen) ==> r is Err && old(self).moved_to(&*final(self), old(self).position())
                && old(self).reports(r->Err_0, old(self).position(), "("@),
        decreases old(self).toks().len() - old(self).position(), 12int,
    {
        match self.expect_token(&Token::LParen, "(") {
            Ok(()) => {},
            Err(e) => return Err(e),
        }
        let entity_escaping: Option<bool> = if self.try_consume_keyword(Keyword::ENTITYESCAPING) {
            Some(true)
        } else if self.try_consume_keyword(Keyword::NOENTITYESCAPING) {
            Some(false)
        } else {
            None
        };
        let mut evalname: Option<Box<Expr>> = None;
        let mut name: Option<String> = None;
        if self.try_consume_keyword(Keyword::EVALNAME) {
            match self.parse_expr() {
                Ok(e) => evalname = Some(Box::new(e)),
                Err(e) => return Err(e),
            }
        } else {
            let _ = self.try_consume_keyword(Keyword::NAME_P);
            match self.parse_identifier() {
                Ok(s) => name = Some(s),
                Err(e) => return Err(e),
            }
        }
        let mut attributes: Option<XmlAttributes> = None;
        let mut content: Vec<XmlContent> = Vec::new();
        while self.match_token(&Token::Comma)
            invariant
                old(self).steps(&*self),
                old(self).current() is LParen,
                self.position() > old(self).position(),
            decreases self.toks().len() - self.position(),
        {
            self.advance();
            if self.match_keyword(Keyword::XMLATTRIBUTES) && attributes.is_none() {
                self.advance();
                match self.parse_xml_attributes_inner() {
                    Ok(a) => attributes = Some(a),
                    Err(e) => return Err(e),
                }
                continue;
            }
            let expr = match self.parse_expr() {
                Ok(e) => e,
                Err(e) => return Err(e),
            };
            let alias = match self.parse_optional_alias() {
                Ok(a) => a,
                Err(e) => return Err(e),
            };
            content.push(XmlContent { expr, alias });
        }
        match self.expect_token(&Token::RParen, ")") {
            Ok(()) => Ok(Expr::XmlElement { entity_escaping, evalname, name, attributes, content }),
            Err(e) => Err(e),
        }
    }

    /// `( [ENTITYESCAPING|NOENTITYESCAPING] value [AS name], ... )` after `XMLATTRIBUTES`.
    fn parse_xml_attributes_inner(&mut self) -> (r: Result<XmlAttributes, ParserError>)
        requires
            old(self).wf(),
        ensures
            old(self).steps(&*final(self)),
            r is Ok ==> final(self).position() > old(self).position() && r->Ok_0.items@.len() >= 1,
            !(old(self).current() is LParen) ==> r is Err && old(self).moved_to(&*final(self), old(self).position())
                && old(self).reports(r->Err_0, old(self).position(), "("@),
        decreases old(self).toks().len() - old(self).position(), 11int,
    {
        match self.expect_token(&Token::LParen, "(") {
            Ok(()) => {},
            Err(e) => return Err(e),
        }
        let entity_escaping: Option<bool> = if self.try_consume_keyword(Keyword::ENTITYESCAPING) {
            Some(true)
        } else if self.try_consume_keyword(Keyword::NOENTITYESCAPING) {
            Some(false)
        } else {
            None
        };
        let mut items: Vec<XmlAttribute> = Vec::new();
        loop
            invariant
                old(self).steps(&*self),
                old(self).current() is LParen,
                self.position() > old(self).position(),
            ensures
                items@.len() >= 1,
            decreases self.toks().len() - self.position(),
        {
            let value = match self.parse_expr() {
                Ok(e) => e,
                Err(e) => return Err(e),
            };
            let name = match self.parse_optional_alias() {
                Ok(a) => a,
                Err(e) => return Err(e),
            };
            items.push(XmlAttribute { value, name });
            if !self.match_token(&Token::Comma) {
                break;
            }
            self.advance();
        }
        match self.expect_token(&Token::RParen, ")") {
            Ok(()) => Ok(XmlAttributes { entity_escaping, items }),
            Err(e) => Err(e),
        }
    }

    /// `XMLCONCAT(expr, ...)`, after the keyword.
    fn parse_xml_concat(&mut self) -> (r: Result<Expr, ParserError>)
        requires
            old(self).wf(),
        ensures
            old(self).steps(&*final(self)),
            r is Ok ==> final(self).position() > old(self).position() && (r->Ok_0 matches Expr::XmlConcat(args) && args@.len() >= 1),
            !(old(self).current() is LParen) ==> r is Err && old(self).moved_to(&*final(self), old(self).position())
                && old(self).reports(r->Err_0, old(self).position(), "("@),
        decreases old(self).toks().len() - old(self).position(), 12int,
    {
        match self.expect_token(&Token::LParen, "(") {
            Ok(()) => {},
            Err(e) => return Err(e),
        }
        match self.parse_expr_list_until(&Token::RParen, ")") {
            Ok(args) => Ok(Expr::XmlConcat(args)),
            Err(e) => Err(e),
        }
    }

    /// `XMLFOREST(expr [AS name], ...)`, after the keyword.
    fn parse_xml_forest(&mut self) -> (r: Result<Expr, ParserError>)
        requires
            old(self).wf(),
        ensures
            old(self).steps(&*final(self)),
            r is Ok ==> final(self).position() > old(self).position() && (r->Ok_0 matches Expr::XmlForest(items) && items@.len() >= 1),
            !(old(self).current() is LParen) ==> r is Err && old(self).moved_to(&*final(self), old(self).position())
                && old(self).reports(r->Err_0, old(self).position(), "("@),
        decreases old(self).toks().len() - old(self).position(), 12int,
    {
        match self.expect_token(&Token::LParen, "(") {
            Ok(()) => {},
            Err(e) => return Err(e),
        }
        let mut items: Vec<XmlContent> = Vec::new();
        loop
            invariant
                old(self).steps(&*self),
                old(self).current() is LParen,
                self.position() > old(self).position(),
            ensures
                items@.len() >= 1,
            decreases self.toks().len() - self.position(),
        {
            let expr = match self.parse_expr() {
                Ok(e) => e,
                Err(e) => return Err(e),
            };
            let alias = match self.parse_optional_alias() {
                Ok(a) => a,
                Err(e) => return Err(e),
            };
            items.push(XmlContent { expr, alias });
            if !self.match_token(&Token::Comma) {
                break;
            }
            self.advance();
        }
        match self.expect_token(&Token::RParen, ")") {
            Ok(()) => Ok(Expr::XmlForest(items)),
            Err(e) => Err(e),
        }
    }

    /// `DOCUMENT` or `CONTENT`.
    fn parse_xml_option(&mut self) -> (r: Result<XmlOption, ParserError>)
        requires
            old(self).wf(),
        ensures
            final(self).wf(),
            kw_at(old(self).toks(), old(self).position(), Keyword::DOCUMENT_P) ==> r == Ok::<XmlOption, ParserError>(XmlOption::Document)
                && old(self).moved_to(&*final(self), old(self).position() + 1),
            kw_at(old(self).toks(), old(self).position(), Keyword::CONTENT_P) ==> r == Ok::<XmlOption, ParserError>(XmlOption::Content)
                && old(self).moved_to(&*final(self), old(self).position() + 1),
            !kw_at(old(self).toks(), old(self).position(), Keyword::DOCUMENT_P) && !kw_at(old(self).toks(), old(self).position(), Keyword::CONTENT_P)
                ==> r is Err && old(self).moved_to(&*final(self), old(self).position())
                && old(self).reports(r->Err_0, old(self).position(), "CONTENT"@),
    {
        if self.match_keyword(Keyword::DOCUMENT_P) {
            self.advance();
            Ok(XmlOption::Document)
        } else {
            match self.expect_keyword(Keyword::CONTENT_P) {
                Ok(()) => Ok(XmlOption::Content),
                Err(e) => Err(e),
            }
        }
    }

    /// `XMLPARSE({DOCUMENT|CONTENT} expr [WELLFORMED])`, after the keyword.
    fn parse_xml_parse(&mut self) -> (r: Result<Expr, ParserError>)
        requires
            old(self).wf(),
        ensures
            old(self).steps(&*final(self)),
            r is Ok ==> final(self).position() > old(self).position() && r->Ok_0 is XmlParse,
            !(old(self).current() is LParen) ==> r is Err && old(self).moved_to(&*final(self), old(self).position())
                && old(self).reports(r->Err_0, old(self).position(), "("@),
        decreases old(self).toks().len() - old(self).position(), 12int,
    {
        match self.expect_token(&Token::LParen, "(") {
            Ok(()) => {},
            Err(e) => return Err(e),
        }
        let option = match self.parse_xml_option() {
            Ok(o) => o,
            Err(e) => return Err(e),
        };
        let expr = match self.parse_expr() {
            Ok(e) => e,
            Err(e) => return Err(e),
        };
        let wellformed = self.try_consume_keyword(Keyword::WELLFORMED);
        match self.expect_token(&Token::RParen, ")") {
            Ok(()) => Ok(Expr::XmlParse { option, expr: Box::new(expr), wellformed }),
            Err(e) => Err(e),
        }
    }

    /// `XMLPI([NAME] name [, content])`, after the keyword.
    fn parse_xml_pi(&mut self) -> (r: Result<Expr, ParserError>)
        requires
            old(self).wf(),
        ensures
            old(self).steps(&*final(self)),
            r is Ok ==> final(self).position() > old(self).position() && (r->Ok_0 matches Expr::XmlPi { name, .. } && name is Some),
            !(old(self).current() is LParen) ==> r is Err && old(self).moved_to(&*final(self), old(self).position())
                && old(self).reports(r->Err_0, old(self).position(), "("@),
        decreases old(self).toks().len() - old(self).position(), 12int,
    {
        match self.expect_token(&Token::LParen, "(") {
            Ok(()) => {},
            Err(e) => return Err(e),
        }
        let _ = self.try_consume_keyword(Keyword::NAME_P);
        let name = match self.parse_identifier() {
            Ok(s) => s,
            Err(e) => return Err(e),
        };
        let content: Option<Box<Expr>> = if self.match_token(&Token::Comma) {
            self.advance();
            match self.parse_expr() {
                Ok(e) => Some(Box::new(e)),
                Err(e) => return Err(e),
            }
        } else {
            None
        };
        match self.expect_token(&Token::RParen, ")") {
            Ok(()) => Ok(Expr::XmlPi { name: Some(name), content }),
            Err(e) => Err(e),
        }
    }

    /// `XMLROOT(expr, VERSION {NO VALUE | expr} [, STANDALONE {YES | NO [VALUE]}])`,
    /// after the keyword. `VERSION NO` alone stands for a column named `no`.
    fn parse_xml_root(&mut self) -> (r: Result<Expr, ParserError>)
        requires
            old(self).wf(),
        ensures
            old(self).steps(&*final(self)),
            r is Ok ==> final(self).position() > old(self).position() && r->Ok_0 is XmlRoot,
            !(old(self).current() is LParen) ==> r is Err && old(self).moved_to(&*final(self), old(self).position())
                && old(self).reports(r->Err_0, old(self).position(), "("@),
        decreases old(self).toks().len() - old(self).position(), 12int,
    {
        match self.expect_token(&Token::LParen, "(") {
            Ok(()) => {},
            Err(e) => return Err(e),
        }
        let expr = match self.parse_expr() {
            Ok(e) => e,
            Err(e) => return Err(e),
        };
        match self.expect_token(&Token::Comma, ",") {
            Ok(()) => {},
            Err(e) => return Err(e),
        }
        match self.expect_keyword(Keyword::VERSION_P) {
            Ok(()) => {},
            Err(e) => return Err(e),
        }
        let version: Option<Box<Expr>> = if self.match_keyword(Keyword::NO) {
            self.advance();
            if self.try_consume_keyword(Keyword::VALUE_P) {
                None
            } else {
                Some(Box::new(Expr::ColumnRef(vec![String::from_str("no")])))
            }
        } else {
            match self.parse_expr() {
                Ok(e) => Some(Box::new(e)),
                Err(e) => return Err(e),
            }
        };
        let standalone: Option<Option<bool>> = if self.match_token(&Token::Comma) {
            self.advance();
            match self.expect_keyword(Keyword::STANDALONE_P) {
                Ok(()) => {},
                Err(e) => return Err(e),
            }
            if self.try_consume_keyword(Keyword::YES_P) {
                Some(Some(true))
            } else if self.match_keyword(Keyword::NO) {
                self.advance();
                if self.try_consume_keyword(Keyword::VALUE_P) {
                    Some(None)
                } else {
                    Some(Some(false))
                }
            } else {
                None
            }
        } else {
            None
        };
        match self.expect_token(&Token::RParen, ")") {
            Ok(()) => Ok(Expr::XmlRoot { expr: Box::new(expr), version, standalone }),
            Err(e) => Err(e),
        }
    }

    /// `XMLSERIALIZE({DOCUMENT|CONTENT} expr AS type)`, after the keyword.
    fn parse_xml_serialize(&mut self) -> (r: Result<Expr, ParserError>)
        requires
            old(self).wf(),
        ensures
            old(self).steps(&*final(self)),
            r is Ok ==> final(self).position() > old(self).position() && r->Ok_0 is XmlSerialize,
            !(old(self).current() is LParen) ==> r is Err && old(self).moved_to(&*final(self), old(self).position())
                && old(self).reports(r->Err_0, old(self).position(), "("@),
        decreases old(self).toks().len() - old(self).position(), 12int,
    {
        match self.expect_token(&Token::LParen, "(") {
            Ok(()) => {},
            Err(e) => return Err(e),
        }
        let option = match self.parse_xml_option() {
            Ok(o) => o,
            Err(e) => return Err(e),
        };
        let expr = match self.parse_expr() {
            Ok(e) => e,
            Err(e) => return Err(e),
        };
        match self.expect_keyword(Keyword::AS) {
            Ok(()) => {},
            Err(e) => return Err(e),
        }
        let data_type = match self.parse_data_type() {
            Ok(t) => t,
            Err(e) => return Err(e),
        };
        match self.expect_token(&Token::RParen, ")") {
            Ok(()) => Ok(Expr::XmlSerialize { option, expr: Box::new(expr), data_type }),
            Err(e) => Err(e),
        }
    }
}

// ────────────────────────────────────────────────────────────────
// Data types
// ────────────────────────────────────────────────────────────────

/// A data type as the contracts see it: strings by their characters, a named type by
/// its name and the number of its modifiers.
pub enum TypeView {
    Boolean,
    TinyInt(Option<u32>),
    SmallInt(Option<u32>),
    Integer(Option<u32>),
    BigInt(Option<u32>),
    Real,
    Float(Option<u32>),
    Double,
    Numeric(Option<u32>, Option<u32>),
    Char(Option<u32>),
    Varchar(Option<u32>),
    Text,
    Bytea,
    Timestamp(Option<u32>, Option<TimeZoneInfo>),
    Date,
    Time(Option<u32>, Option<TimeZoneInfo>),
    Interval(Option<IntervalParts>),
    Bit(Option<u32>),
    Varbit(Option<u32>),
    Serial,
    SmallSerial,
    BigSerial,
    BinaryFloat,
    BinaryDouble,
    Uuid,
    Json,
    Jsonb,
    Custom(Seq<Seq<char>>, nat),
    Array(Box<TypeView>),
}

/// The view of a data type.
pub open spec fn type_view(t: DataType) -> TypeView
    decreases t,
{
    match t {
        DataType::Boolean => TypeView::Boolean,
        DataType::TinyInt(p) => TypeView::TinyInt(p),
        DataType::SmallInt(p) => TypeView::SmallInt(p),
        DataType::Integer(p) => TypeView::Integer(p),
        DataType::BigInt(p) => TypeView::BigInt(p),
        DataType::Real => TypeView::Real,
        DataType::Float(p) => TypeView::Float(p),
        DataType::Double => TypeView::Double,
        DataType::Numeric(p, s) => TypeView::Numeric(p, s),
        DataType::Char(n) => TypeView::Char(n),
        DataType::Varchar(n) => TypeView::Varchar(n),
        DataType::Text => TypeView::Text,
        DataType::Bytea => TypeView::Bytea,
        DataType::Timestamp(p, tz) => TypeView::Timestamp(p, tz),
        DataType::Date => TypeView::Date,
        DataType::Time(p, tz) => TypeView::Time(p, tz),
        DataType::Interval(it) => TypeView::Interval(interval_view(it)),
        DataType::Bit(n) => TypeView::Bit(n),
        DataType::Varbit(n) => TypeView::Varbit(n),
        DataType::Serial => TypeView::Serial,
        DataType::SmallSerial => TypeView::SmallSerial,
        DataType::BigSerial => TypeView::BigSerial,
        DataType::BinaryFloat => TypeView::BinaryFloat,
        DataType::BinaryDouble => TypeView::BinaryDouble,
        DataType::Uuid => TypeView::Uuid,
        DataType::Json => TypeView::Json,
        DataType::Jsonb => TypeView::Jsonb,
        DataType::Custom(name, args) => TypeView::Custom(strings_view(name@), args@.len()),
        DataType::Array(inner) => TypeView::Array(Box::new(type_view(*inner))),
    }
}

/// The keywords that name a built-in data type.
pub open spec fn is_type_keyword(k: Keyword) -> bool {
    k == Keyword::BOOLEAN_P || k == Keyword::TINYINT || k == Keyword::SMALLINT || k == Keyword::INTEGER
        || k == Keyword::INT_P || k == Keyword::BIGINT || k == Keyword::REAL || k == Keyword::FLOAT_P
        || k == Keyword::DOUBLE_P || k == Keyword::NUMERIC || k == Keyword::DECIMAL_P || k == Keyword::CHAR_P
        || k == Keyword::CHARACTER || k == Keyword::VARCHAR || k == Keyword::TEXT_P || k == Keyword::BYTE_P
        || k == Keyword::TIMESTAMP || k == Keyword::DATE_P || k == Keyword::TIME || k == Keyword::INTERVAL
        || k == Keyword::BIT
}

fn type_keyword(k: Keyword) -> (r: bool)
    ensures
        r == is_type_keyword(k),
{
    k == Keyword::BOOLEAN_P || k == Keyword::TINYINT || k == Keyword::SMALLINT || k == Keyword::INTEGER
        || k == Keyword::INT_P || k == Keyword::BIGINT || k == Keyword::REAL || k == Keyword::FLOAT_P
        || k == Keyword::DOUBLE_P || k == Keyword::NUMERIC || k == Keyword::DECIMAL_P || k == Keyword::CHAR_P
        || k == Keyword::CHARACTER || k == Keyword::VARCHAR || k == Keyword::TEXT_P || k == Keyword::BYTE_P
        || k == Keyword::TIMESTAMP || k == Keyword::DATE_P || k == Keyword::TIME || k == Keyword::INTERVAL
        || k == Keyword::BIT
}

/// An optional `( n )` at `i`.
pub open spec fn opt_length_at(toks: Seq<Token>, i: int) -> Outcome<Option<u32>> {
    if tok_at(toks, i) is LParen {
        match int_literal_at(toks, i + 1) {
            Err(e) => Err(e),
            Ok((n, j)) => if tok_at(toks, j) is RParen { Ok((Some(n), j + 1)) } else { Err((j, ")"@)) },
        }
    } else {
        Ok((None, i))
    }
}

/// An optional `( p [, s] )` at `i`.
pub open spec fn precision_scale_at(toks: Seq<Token>, i: int) -> Outcome<(Option<u32>, Option<u32>)> {
    if tok_at(toks, i) is LParen {
        match int_literal_at(toks, i + 1) {
            Err(e) => Err(e),
            Ok((p, j)) => {
                let scale: Outcome<Option<u32>> = if tok_at(toks, j) is Comma {
                    match int_literal_at(toks, j + 1) {
                        Ok((s, k)) => Ok((Some(s), k)),
                        Err(e) => Err(e),
                    }
                } else {
                    Ok((None, j))
                };
                match scale {
                    Err(e) => Err(e),
                    Ok((s, k)) => if tok_at(toks, k) is RParen { Ok(((Some(p), s), k + 1)) } else { Err((k, ")"@)) },
                }
            },
        }
    } else {
        Ok(((None, None), i))
    }
}

/// Applies `f` to the value of an outcome.
pub open spec fn map_outcome<A, B>(o: Outcome<A>, f: spec_fn(A) -> B) -> Outcome<B> {
    match o {
        Ok((v, j)) => Ok((f(v), j)),
        Err(e) => Err(e),
    }
}

/// The type named by the keyword `kw` at `i`, with its modifiers.
pub open spec fn keyword_type_at(toks: Seq<Token>, i: int, kw: Keyword) -> Outcome<TypeView> {
    let j = i + 1;
    if kw == Keyword::BOOLEAN_P {
        Ok((TypeView::Boolean, j))
    } else if kw == Keyword::TINYINT {
        map_outcome(opt_precision_at(toks, j), |p: Option<u32>| TypeView::TinyInt(p))
    } else if kw == Keyword::SMALLINT {
        map_outcome(opt_precision_at(toks, j), |p: Option<u32>| TypeView::SmallInt(p))
    } else if kw == Keyword::INTEGER || kw == Keyword::INT_P {
        map_outcome(opt_precision_at(toks, j), |p: Option<u32>| TypeView::Integer(p))
    } else if kw == Keyword::BIGINT {
        map_outcome(opt_precision_at(toks, j), |p: Option<u32>| TypeView::BigInt(p))
    } else if kw == Keyword::REAL {
        Ok((TypeView::Real, j))
    } else if kw == Keyword::FLOAT_P {
        map_outcome(opt_length_at(toks, j), |p: Option<u32>| TypeView::Float(p))
    } else if kw == Keyword::DOUBLE_P {
        Ok((TypeView::Double, if kw_at(toks, j, Keyword::PRECISION) { j + 1 } else { j }))
    } else if kw == Keyword::NUMERIC || kw == Keyword::DECIMAL_P {
        map_outcome(precision_scale_at(toks, j), |ps: (Option<u32>, Option<u32>)| TypeView::Numeric(ps.0, ps.1))
    } else if kw == Keyword::CHAR_P || kw == Keyword::CHARACTER || kw == Keyword::BIT {
        let varying = kw_at(toks, j, Keyword::VARYING);
        let k = if varying { j + 1 } else { j };
        map_outcome(opt_length_at(toks, k), |n: Option<u32>|
            if kw == Keyword::BIT {
                if varying { TypeView::Varbit(n) } else { TypeView::Bit(n) }
            } else {
                if varying { TypeView::Varchar(n) } else { TypeView::Char(n) }
            })
    } else if kw == Keyword::VARCHAR {
        map_outcome(opt_length_at(toks, j), |n: Option<u32>| TypeView::Varchar(n))
    } else if kw == Keyword::TEXT_P {
        Ok((TypeView::Text, j))
    } else if kw == Keyword::BYTE_P {
        Ok((TypeView::Bytea, j))
    } else if kw == Keyword::DATE_P {
        Ok((TypeView::Date, j))
    } else if kw == Keyword::TIMESTAMP || kw == Keyword::TIME {
        match opt_length_at(toks, j) {
            Err(e) => Err(e),
            Ok((p, k)) => map_outcome(timezone_at(toks, k), |tz: Option<TimeZoneInfo>|
                if kw == Keyword::TIMESTAMP { TypeView::Timestamp(p, tz) } else { TypeView::Time(p, tz) }),
        }
    } else {
        map_outcome(interval_at(toks, j), |it: Option<IntervalParts>| TypeView::Interval(it))
    }
}

/// Each `[]` at `i` wraps `base` in an array type.
pub open spec fn array_suffix_at(toks: Seq<Token>, i: int, base: TypeView) -> Outcome<TypeView>
    decreases toks.len() - i,
{
    if tok_at(toks, i) is LBracket {
        if tok_at(toks, i + 1) is RBracket {
            array_suffix_at(toks, i + 2, TypeView::Array(Box::new(base)))
        } else {
            Err((i + 1, "]"@))
        }
    } else {
        Ok((base, i))
    }
}

/// A data type at `i` that no type keyword names: a word type (`word_type`) or a dotted
/// name, with modifiers that are expressions of single operands and infix operators, and
/// any array suffixes. `None` where a type keyword stands at `i` or for other modifiers.
pub open spec fn named_type_at(toks: Seq<Token>, i: int) -> Option<Outcome<TypeView>> {
    if keyword_at(toks, i) matches Some(k) && is_type_keyword(k) {
        None
    } else {
        match word_type(tok_at(toks, i)) {
            Some(t) => Some(array_suffix_at(toks, i + 1, type_view(t))),
            None => match object_name_at(toks, i) {
                Err(e) => Some(Err(e)),
                Ok((n, q)) => if tok_at(toks, q) is LParen {
                    match call_args_from(toks, q + 1, Seq::empty()) {
                        Some(Ok((ts, e))) => Some(array_suffix_at(toks, e, TypeView::Custom(n, ts.len()))),
                        Some(Err(x)) => Some(Err(x)),
                        None => None,
                    }
                } else {
                    Some(array_suffix_at(toks, q, TypeView::Custom(n, 0)))
                },
            },
        }
    }
}

/// A data type at `i`: one named by a type keyword (`type_at`), or a named type
/// (`named_type_at`); `None` where neither states it.
pub open spec fn data_type_at(toks: Seq<Token>, i: int) -> Option<Outcome<TypeView>> {
    match keyword_at(toks, i) {
        Some(k) => if is_type_keyword(k) { Some(type_at(toks, i, k)) } else { named_type_at(toks, i) },
        None => named_type_at(toks, i),
    }
}

/// The modifier expressions of a named type `name(args)` at `i` (no type keyword there),
/// where each is an expression of single operands and infix operators.
pub open spec fn named_type_mods_at(toks: Seq<Token>, i: int) -> Option<Seq<OpTree>> {
    if keyword_at(toks, i) matches Some(k) && is_type_keyword(k) {
        None
    } else if word_type(tok_at(toks, i)) is Some {
        None
    } else {
        match object_name_at(toks, i) {
            Ok((_, q)) => if tok_at(toks, q) is LParen {
                match call_args_from(toks, q + 1, Seq::empty()) {
                    Some(Ok((ts, _))) => Some(ts),
                    _ => None,
                }
            } else {
                None
            },
            Err(_) => None,
        }
    }
}

/// The named type inside `t` (under any array levels) has the modifiers that `ts` describes.
pub open spec fn custom_mods_match(toks: Seq<Token>, t: DataType, ts: Seq<OpTree>) -> bool
    decreases t,
{
    match t {
        DataType::Array(inner) => custom_mods_match(toks, *inner, ts),
        DataType::Custom(_, args) => trees_match(toks, args@, ts),
        _ => false,
    }
}

/// A data type named by the keyword `kw` at `i`, with any array suffixes.
pub open spec fn type_at(toks: Seq<Token>, i: int, kw: Keyword) -> Outcome<TypeView> {
    match keyword_type_at(toks, i, kw) {
        Ok((v, j)) => array_suffix_at(toks, j, v),
        Err(e) => Err(e),
    }
}

impl Parser {
    /// An optional `( n )` length.
    fn parse_opt_length(&mut self) -> (r: Result<Option<u32>, ParserError>)
        requires
            old(self).wf(),
        ensures
            final(self).wf(),
            agrees(&*old(self), &*final(self), r, opt_length_at(old(self).toks(), old(self).position()), |v: Option<u32>| v),
    {
        if self.match_token(&Token::LParen) {
            self.advance();
            let n = match self.parse_int_literal() {
                Ok(n) => n,
                Err(e) => return Err(e),
            };
            match self.expect_token(&Token::RParen, ")") {
                Ok(()) => Ok(Some(n)),
                Err(e) => Err(e),
            }
        } else {
            Ok(None)
        }
    }

    /// An optional `( p [, s] )` precision and scale.
    fn parse_opt_precision_scale(&mut self) -> (r: Result<(Option<u32>, Option<u32>), ParserError>)
        requires
            old(self).wf(),
        ensures
            final(self).wf(),
            agrees(&*old(self), &*final(self), r, precision_scale_at(old(self).toks(), old(self).position()),
                |v: (Option<u32>, Option<u32>)| v),
    {
        if self.match_token(&Token::LParen) {
            self.advance();
            let prec = match self.parse_int_literal() {
                Ok(n) => n,
                Err(e) => return Err(e),
            };
            let scale: Option<u32> = if self.match_token(&Token::Comma) {
                self.advance();
                match self.parse_int_literal() {
                    Ok(n) => Some(n),
                    Err(e) => return Err(e),
                }
            } else {
                None
            };
            match self.expect_token(&Token::RParen, ")") {
                Ok(()) => Ok((Some(prec), scale)),
                Err(e) => Err(e),
            }
        } else {
            Ok((None, None))
        }
    }

    /// A data type named by a keyword (`INTEGER`, `VARCHAR(10)`, `TIMESTAMP(3) WITH TIME ZONE`,
    /// `INTERVAL DAY TO SECOND`, ...). Lengths and precisions are read as `u32`.
    fn parse_keyword_type(&mut self, kw: Keyword) -> (r: Result<DataType, ParserError>)
        requires
            old(self).wf(),
            old(self).current() == Token::Keyword(kw),
            is_type_keyword(kw),
        ensures
            final(self).wf(),
            agrees(&*old(self), &*final(self), r, keyword_type_at(old(self).toks(), old(self).position(), kw),
                |t: DataType| type_view(t)),
    {
        self.advance();
        if kw == Keyword::BOOLEAN_P {
            return Ok(DataType::Boolean);
        }
        if kw == Keyword::TINYINT || kw == Keyword::SMALLINT || kw == Keyword::INTEGER || kw == Keyword::INT_P
            || kw == Keyword::BIGINT {
            let precision = match self.parse_opt_int_precision() {
                Ok(p) => p,
                Err(e) => return Err(e),
            };
            return Ok(if kw == Keyword::TINYINT {
                DataType::TinyInt(precision)
            } else if kw == Keyword::SMALLINT {
                DataType::SmallInt(precision)
            } else if kw == Keyword::BIGINT {
                DataType::BigInt(precision)
            } else {
                DataType::Integer(precision)
            });
        }
        if kw == Keyword::REAL {
            return Ok(DataType::Real);
        }
        if kw == Keyword::FLOAT_P {
            return match self.parse_opt_length() {
                Ok(p) => Ok(DataType::Float(p)),
                Err(e) => Err(e),
            };
        }
        if kw == Keyword::DOUBLE_P {
            if self.match_keyword(Keyword::PRECISION) {
                self.advance();
            }
            return Ok(DataType::Double);
        }
        if kw == Keyword::NUMERIC || kw == Keyword::DECIMAL_P {
            return match self.parse_opt_precision_scale() {
                Ok((p, s)) => Ok(DataType::Numeric(p, s)),
                Err(e) => Err(e),
            };
        }
        if kw == Keyword::CHAR_P || kw == Keyword::CHARACTER || kw == Keyword::BIT {
            let varying = self.try_consume_keyword(Keyword::VARYING);
            let len = match self.parse_opt_length() {
                Ok(l) => l,
                Err(e) => return Err(e),
            };
            return Ok(if kw == Keyword::BIT {
                if varying { DataType::Varbit(len) } else { DataType::Bit(len) }
            } else {
                if varying { DataType::Varchar(len) } else { DataType::Char(len) }
            });
        }
        if kw == Keyword::VARCHAR {
            return match self.parse_opt_length() {
                Ok(l) => Ok(DataType::Varchar(l)),
                Err(e) => Err(e),
            };
        }
        if kw == Keyword::TEXT_P {
            return Ok(DataType::Text);
        }
        if kw == Keyword::BYTE_P {
            return Ok(DataType::Bytea);
        }
        if kw == Keyword::DATE_P {
            return Ok(DataType::Date);
        }
        if kw == Keyword::TIMESTAMP || kw == Keyword::TIME {
            let precision = match self.parse_opt_length() {
                Ok(p) => p,
                Err(e) => return Err(e),
            };
            let tz = match self.parse_timezone_info() {
                Ok(t) => t,
                Err(e) => return Err(e),
            };
            return Ok(if kw == Keyword::TIMESTAMP {
                DataType::Timestamp(precision, tz)
            } else {
                DataType::Time(precision, tz)
            });
        }
        match self.parse_opt_interval_type() {
            Ok(it) => Ok(DataType::Interval(it)),
            Err(e) => Err(e),
        }
    }

    /// A data type: a keyword type, one of the words `SERIAL`, `SMALLSERIAL`,
    /// `BIGSERIAL`, `BINARY_FLOAT`, `BINARY_DOUBLE`, `BOOL` (any case), or a named type
    /// with optional modifiers `name(expr, ...)`; each `[]` after it makes an array type.
    pub fn parse_data_type(&mut self) -> (r: Result<DataType, ParserError>)
        requires
            old(self).wf(),
        ensures
            old(self).steps(&*final(self)),
            r is Ok ==> final(self).position() > old(self).position(),
            match keyword_at(old(self).toks(), old(self).position()) {
                Some(k) => is_type_keyword(k) ==> agrees(&*old(self), &*final(self), r,
                    type_at(old(self).toks(), old(self).position(), k), |t: DataType| type_view(t)),
                None => true,
            },
            match named_type_at(old(self).toks(), old(self).position()) {
                Some(o) => agrees(&*old(self), &*final(self), r, o, |t: DataType| type_view(t)),
                None => true,
            },
            match named_type_mods_at(old(self).toks(), old(self).position()) {
                Some(ts) => r is Ok ==> custom_mods_match(old(self).toks(), r->Ok_0, ts),
                None => true,
            },
            match data_type_at(old(self).toks(), old(self).position()) {
                Some(o) => agrees(&*old(self), &*final(self), r, o, |t: DataType| type_view(t)),
                None => true,
            },
        decreases old(self).toks().len() - old(self).position(), 12int,
    {
        let head: Result<DataType, ParserError> = match self.peek_keyword() {
            Some(kw) => if type_keyword(kw) {
                self.parse_keyword_type(kw)
            } else {
                self.parse_named_type()
            },
            None => self.parse_named_type(),
        };
        let mut result = match head {
            Ok(t) => t,
            Err(e) => return Err(e),
        };
        let ghost start = self.position();
        let ghost base = type_view(result);
        while self.match_token(&Token::LBracket)
            invariant
                old(self).steps(&*self),
                self.position() > old(self).position(),
                start <= self.position(),
                match keyword_at(old(self).toks(), old(self).position()) {
                    Some(k) => is_type_keyword(k) ==> {
                        &&& old(self).moved_to(&*self, self.position())
                        &&& array_suffix_at(self.toks(), self.position(), type_view(result))
                            == array_suffix_at(self.toks(), start, base)
                        &&& type_at(old(self).toks(), old(self).position(), k) == array_suffix_at(self.toks(), start, base)
                    },
                    None => true,
                },
                match named_type_mods_at(old(self).toks(), old(self).position()) {
                    Some(ts) => custom_mods_match(old(self).toks(), result, ts),
                    None => true,
                },
                named_type_at(old(self).toks(), old(self).position()) is Some ==> {
                    &&& old(self).moved_to(&*self, self.position())
                    &&& array_suffix_at(self.toks(), self.position(), type_view(result)) == array_suffix_at(self.toks(), start, base)
                    &&& named_type_at(old(self).toks(), old(self).position()) == Some(array_suffix_at(self.toks(), start, base))
                },
            decreases self.toks().len() - self.position(),
        {
            self.advance();
            match self.expect_token(&Token::RBracket, "]") {
                Ok(()) => {},
                Err(e) => return Err(e),
            }
            result = DataType::Array(Box::new(result));
        }
        Ok(result)
    }

    /// A type named by a word or a dotted name, with optional modifiers.
    fn parse_named_type(&mut self) -> (r: Result<DataType, ParserError>)
        requires
            old(self).wf(),
        ensures
            old(self).steps(&*final(self)),
            r is Ok ==> final(self).position() > old(self).position(),
            word_type(old(self).current()) is Some ==> r is Ok && r->Ok_0 == word_type(old(self).current())->Some_0
                && old(self).moved_to(&*final(self), old(self).position() + 1),
            word_type(old(self).current()) is None ==> match object_name_at(old(self).toks(), old(self).position()) {
                Err((q, e)) => r is Err && old(self).moved_to(&*final(self), q) && old(self).reports(r->Err_0, q, e),
                Ok((name, q)) => (r is Ok ==> r->Ok_0 is Custom && strings_view(r->Ok_0->Custom_0@) == name)
                    && (!(tok_at(old(self).toks(), q) is LParen) ==> r is Ok && r->Ok_0->Custom_1@.len() == 0
                        && old(self).moved_to(&*final(self), q))
                    && (tok_at(old(self).toks(), q) is LParen ==> match call_args_from(old(self).toks(), q + 1, Seq::empty()) {
                        Some(Ok((ts, e))) => r is Ok && trees_match(old(self).toks(), r->Ok_0->Custom_1@, ts)
                            && old(self).moved_to(&*final(self), e),
                        Some(Err((e, x))) => r is Err && old(self).moved_to(&*final(self), e) && old(self).reports(r->Err_0, e, x),
                        None => true,
                    }),
            },
        decreases old(self).toks().len() - old(self).position(), 11int,
    {
        let word: Option<String> = match self.peek() {
            Token::Ident(s) => Some(to_uppercase(s.as_str())),
            _ => None,
        };
        match word {
            Some(upper) => {
                let u = upper.as_str();
                let simple: Option<DataType> = if strs_equal(u, "SERIAL") {
                    Some(DataType::Serial)
                } else if strs_equal(u, "SMALLSERIAL") {
                    Some(DataType::SmallSerial)
                } else if strs_equal(u, "BIGSERIAL") {
                    Some(DataType::BigSerial)
                } else if strs_equal(u, "BINARY_FLOAT") {
                    Some(DataType::BinaryFloat)
                } else if strs_equal(u, "BINARY_DOUBLE") {
                    Some(DataType::BinaryDouble)
                } else if strs_equal(u, "BOOL") {
                    Some(DataType::Boolean)
                } else {
                    None
                };
                match simple {
                    Some(t) => {
                        self.advance();
                        return Ok(t);
                    },
                    None => {},
                }
            },
            None => {},
        }
        proof {
            crate::parser::ddl::lemma_object_name_bounds(self.toks(), self.position());
        }
        let name = match self.parse_object_name() {
            Ok(n) => n,
            Err(e) => return Err(e),
        };
        let mut args: Vec<Expr> = Vec::new();
        let ghost toks = self.toks();
        let ghost whole = call_args_from(toks, self.position() + 1, Seq::empty());
        let ghost mut ts: Seq<OpTree> = Seq::empty();
        if self.match_token(&Token::LParen) {
            self.advance();
            loop
                invariant_except_break
                    whole is Some ==> call_args_from(toks, self.position(), ts) == whole,
                invariant
                    old(self).steps(&*self),
                    self.position() > old(self).position(),
                    word_type(old(self).current()) is None,
                    object_name_at(old(self).toks(), old(self).position()) is Ok,
                    tok_at(old(self).toks(), object_name_at(old(self).toks(), old(self).position())->Ok_0.1) is LParen,
                    toks == old(self).toks(),
                    whole == call_args_from(toks, object_name_at(toks, old(self).position())->Ok_0.1 + 1, Seq::empty()),
                    whole is Some ==> trees_match(toks, args@, ts) && old(self).moved_to(&*self, self.position()),
                ensures
                    old(self).steps(&*self),
                    self.position() > old(self).position(),
                    word_type(old(self).current()) is None,
                    object_name_at(old(self).toks(), old(self).position()) is Ok,
                    tok_at(old(self).toks(), object_name_at(old(self).toks(), old(self).position())->Ok_0.1) is LParen,
                    toks == old(self).toks(),
                    whole == call_args_from(toks, object_name_at(toks, old(self).position())->Ok_0.1 + 1, Seq::empty()),
                    whole is Some ==> trees_match(toks, args@, ts) && old(self).moved_to(&*self, self.position())
                        && whole == if tok_at(toks, self.position()) is RParen {
                            Some(Outcome::<Seq<OpTree>>::Ok((ts, self.position() + 1)))
                        } else {
                            Some(Outcome::<Seq<OpTree>>::Err((self.position(), ")"@)))
                        },
                decreases self.toks().len() - self.position(),
            {
                let ghost pos = self.position();
                match self.parse_expr() {
                    Ok(e) => {
                        proof {
                            if whole is Some {
                                let old_ts = ts;
                                ts = ts.push(op_expr_at(toks, pos, 0)->Some_0.0);
                                assert forall|m: int| 0 <= m < args@.len() + 1 implies tree_matches(toks, args@.push(e)[m], ts[m]) by {
                                    if m < args@.len() {
                                        assert(args@.push(e)[m] == args@[m]);
                                        assert(ts[m] == old_ts[m]);
                                    }
                                }
                            }
                        }
                        args.push(e);
                    },
                    Err(e) => return Err(e),
                }
                if self.match_token(&Token::Comma) {
                    self.advance();
                } else {
                    break;
                }
            }
            match self.expect_token(&Token::RParen, ")") {
                Ok(()) => {},
                Err(e) => return Err(e),
            }
        }
        Ok(DataType::Custom(name, args))
    }
}

// ────────────────────────────────────────────────────────────────
// Rendering data types
// ────────────────────────────────────────────────────────────────

/// The derived `Debug` text of an optional number: `None` or `Some(n)`.
pub open spec fn opt_u32_debug(o: Option<u32>) -> Seq<char> {
    match o {
        None => "None"@,
        Some(n) => wrapped("Some"@, decimal(n as nat)),
    }
}

fn opt_u32_debug_string(o: Option<u32>) -> (s: String)
    ensures
        s@ == opt_u32_debug(o),
{
    match o {
        None => String::from_str("None"),
        Some(n) => {
            let mut inner = String::new();
            push_decimal(&mut inner, n as u64);
            proof {
                assert(inner@ =~= decimal(n as nat));
            }
            wrap("Some", inner.as_str())
        },
    }
}

/// The derived `Debug` text of an optional time zone clause.
pub open spec fn zone_debug(o: Option<TimeZoneInfo>) -> Seq<char> {
    match o {
        None => "None"@,
        Some(TimeZoneInfo::WithTimeZone) => "Some(WithTimeZone)"@,
        Some(TimeZoneInfo::WithoutTimeZone) => "Some(WithoutTimeZone)"@,
    }
}

fn zone_debug_string(o: &Option<TimeZoneInfo>) -> (s: String)
    ensures
        s@ == zone_debug(*o),
{
    match o {
        None => String::from_str("None"),
        Some(TimeZoneInfo::WithTimeZone) => String::from_str("Some(WithTimeZone)"),
        Some(TimeZoneInfo::WithoutTimeZone) => String::from_str("Some(WithoutTimeZone)"),
    }
}

/// The derived `Debug` text of an optional string: `None` or `Some("...")`.
pub open spec fn opt_str_debug(o: Option<String>) -> Seq<char> {
    match o {
        None => "None"@,
        Some(x) => wrapped("Some"@, str_debug_text(x@)),
    }
}

fn opt_str_debug_string(o: &Option<String>) -> (s: String)
    ensures
        s@ == opt_str_debug(*o),
{
    match o {
        None => String::from_str("None"),
        Some(x) => {
            let inner = debug_str(x.as_str());
            wrap("Some", inner.as_str())
        },
    }
}

/// The derived `Debug` text of an optional interval qualifier.
pub open spec fn interval_debug(o: Option<IntervalType>) -> Seq<char> {
    match o {
        None => "None"@,
        Some(i) => wrapped(
            "Some"@,
            "IntervalType { from: "@ + str_debug_text(i.from@) + ", from_precision: "@ + opt_u32_debug(i.from_precision)
                + ", to: "@ + opt_str_debug(i.to) + ", to_precision: "@ + opt_u32_debug(i.to_precision) + " }"@,
        ),
    }
}

fn interval_debug_string(o: &Option<IntervalType>) -> (s: String)
    ensures
        s@ == interval_debug(*o),
{
    match o {
        None => String::from_str("None"),
        Some(i) => {
            let mut t = String::from_str("IntervalType { from: ");
            let a = debug_str(i.from.as_str());
            t.append(a.as_str());
            t.append(", from_precision: ");
            let b = opt_u32_debug_string(i.from_precision);
            t.append(b.as_str());
            t.append(", to: ");
            let c = opt_str_debug_string(&i.to);
            t.append(c.as_str());
            t.append(", to_precision: ");
            let d = opt_u32_debug_string(i.to_precision);
            t.append(d.as_str());
            t.append(" }");
            proof {
                assert(t@ =~= "IntervalType { from: "@ + str_debug_text(i.from@) + ", from_precision: "@
                    + opt_u32_debug(i.from_precision) + ", to: "@ + opt_str_debug(i.to) + ", to_precision: "@
                    + opt_u32_debug(i.to_precision) + " }"@);
            }
            wrap("Some", t.as_str())
        },
    }
}

/// The quoted names of a list, separated by `, ` (between the brackets of its `Debug` text).
pub open spec fn names_debug_items(v: Seq<String>) -> Seq<char>
    decreases v.len(),
{
    if v.len() == 0 {
        Seq::empty()
    } else if v.len() == 1 {
        str_debug_text(v[0]@)
    } else {
        names_debug_items(v.drop_last()) + ", "@ + str_debug_text(v.last()@)
    }
}

fn names_debug_string(v: &Vec<String>) -> (s: String)
    ensures
        s@ == names_debug_items(v@),
{
    let mut s = String::new();
    let mut k: usize = 0;
    proof {
        assert(v@.take(0) =~= Seq::<String>::empty());
        assert(s@ =~= names_debug_items(v@.take(0)));
    }
    while k < v.len()
        invariant
            k <= v.len(),
            s@ == names_debug_items(v@.take(k as int)),
        decreases v.len() - k,
    {
        if k > 0 {
            s.append(", ");
        }
        let d = debug_str(v[k].as_str());
        s.append(d.as_str());
        proof {
            assert(v@.take(k as int + 1).drop_last() =~= v@.take(k as int));
            assert(v@.take(k as int + 1).last() == v@[k as int]);
            if k == 0 {
                assert(s@ =~= str_debug_text(v@.take(1)[0]@));
            } else {
                assert(s@ =~= names_debug_items(v@.take(k as int)) + ", "@ + str_debug_text(v@[k as int]@));
            }
        }
        k = k + 1;
    }
    proof {
        assert(v@.take(v@.len() as int) =~= v@);
    }
    s
}

/// `true` or `false`, as `Debug` writes a `bool`.
pub open spec fn bool_debug(b: bool) -> Seq<char> {
    if b { "true"@ } else { "false"@ }
}

fn bool_debug_string(b: bool) -> (s: String)
    ensures
        s@ == bool_debug(b),
{
    if b { String::from_str("true") } else { String::from_str("false") }
}

fn signed_string(n: i64) -> (s: String)
    ensures
        s@ == signed_decimal(n as int),
{
    let mut s = String::new();
    push_signed(&mut s, n);
    proof {
        assert(s@ =~= signed_decimal(n as int));
    }
    s
}

fn unsigned_string(n: u32) -> (s: String)
    ensures
        s@ == decimal(n as nat),
{
    let mut s = String::new();
    push_decimal(&mut s, n as u64);
    proof {
        assert(s@ =~= decimal(n as nat));
    }
    s
}

/// The `Debug` text of an optional flag.
pub open spec fn opt_bool_debug(o: Option<bool>) -> Seq<char> {
    match o {
        None => "None"@,
        Some(b) => wrapped("Some"@, bool_debug(b)),
    }
}

fn opt_bool_debug_string(o: Option<bool>) -> (s: String)
    ensures
        s@ == opt_bool_debug(o),
{
    match o {
        None => String::from_str("None"),
        Some(b) => {
            let inner = bool_debug_string(b);
            wrap("Some", inner.as_str())
        },
    }
}

/// The `Debug` text of an optional optional flag.
pub open spec fn opt_opt_bool_debug(o: Option<Option<bool>>) -> Seq<char> {
    match o {
        None => "None"@,
        Some(b) => wrapped("Some"@, opt_bool_debug(b)),
    }
}

fn opt_opt_bool_debug_string(o: Option<Option<bool>>) -> (s: String)
    ensures
        s@ == opt_opt_bool_debug(o),
{
    match o {
        None => String::from_str("None"),
        Some(b) => {
            let inner = opt_bool_debug_string(b);
            wrap("Some", inner.as_str())
        },
    }
}

/// The `Debug` text of a name list: the quoted names in square brackets.
fn names_list_string(v: &Vec<String>) -> (s: String)
    ensures
        s@ == "["@ + names_debug_items(v@) + "]"@,
{
    let mut s = String::from_str("[");
    let inner = names_debug_string(v);
    s.append(inner.as_str());
    s.append("]");
    proof {
        assert(s@ =~= "["@ + names_debug_items(v@) + "]"@);
    }
    s
}

/// The `Debug` text of a frame mode.
pub open spec fn mode_debug(m: WindowFrameMode) -> Seq<char> {
    match m {
        WindowFrameMode::Rows => "Rows"@,
        WindowFrameMode::Range => "Range"@,
        WindowFrameMode::Groups => "Groups"@,
    }
}

fn mode_debug_string(m: WindowFrameMode) -> (s: String)
    ensures
        s@ == mode_debug(m),
{
    match m {
        WindowFrameMode::Rows => String::from_str("Rows"),
        WindowFrameMode::Range => String::from_str("Range"),
        WindowFrameMode::Groups => String::from_str("Groups"),
    }
}

/// The `Debug` text of a frame bound's direction.
pub open spec fn direction_debug(d: WindowFrameDirection) -> Seq<char> {
    match d {
        WindowFrameDirection::UnboundedPreceding => "UnboundedPreceding"@,
        WindowFrameDirection::UnboundedFollowing => "UnboundedFollowing"@,
        WindowFrameDirection::CurrentRow => "CurrentRow"@,
        WindowFrameDirection::Preceding(n) => wrapped("Preceding"@, signed_decimal(n as int)),
        WindowFrameDirection::Following(n) => wrapped("Following"@, signed_decimal(n as int)),
    }
}

fn direction_debug_string(d: WindowFrameDirection) -> (s: String)
    ensures
        s@ == direction_debug(d),
{
    match d {
        WindowFrameDirection::UnboundedPreceding => String::from_str("UnboundedPreceding"),
        WindowFrameDirection::UnboundedFollowing => String::from_str("UnboundedFollowing"),
        WindowFrameDirection::CurrentRow => String::from_str("CurrentRow"),
        WindowFrameDirection::Preceding(n) => {
            let inner = signed_string(n);
            wrap("Preceding", inner.as_str())
        },
        WindowFrameDirection::Following(n) => {
            let inner = signed_string(n);
            wrap("Following", inner.as_str())
        },
    }
}

/// The `Debug` text of an optional frame bound.
pub open spec fn opt_bound_debug(o: Option<WindowFrameBound>) -> Seq<char> {
    match o {
        None => "None"@,
        Some(b) => wrapped("Some"@, "WindowFrameBound { direction: "@ + direction_debug(b.direction) + " }"@),
    }
}

fn opt_bound_debug_string(o: Option<WindowFrameBound>) -> (s: String)
    ensures
        s@ == opt_bound_debug(o),
{
    match o {
        None => String::from_str("None"),
        Some(b) => {
            let mut t = String::from_str("WindowFrameBound { direction: ");
            let d = direction_debug_string(b.direction);
            t.append(d.as_str());
            t.append(" }");
            proof {
                assert(t@ =~= "WindowFrameBound { direction: "@ + direction_debug(b.direction) + " }"@);
            }
            wrap("Some", t.as_str())
        },
    }
}

/// The `Debug` text of an optional window frame.
pub open spec fn opt_frame_debug(o: Option<WindowFrame>) -> Seq<char> {
    match o {
        None => "None"@,
        Some(f) => wrapped(
            "Some"@,
            "WindowFrame { mode: "@ + mode_debug(f.mode) + ", start: "@ + opt_bound_debug(f.start) + ", end: "@
                + opt_bound_debug(f.end) + " }"@,
        ),
    }
}

fn opt_frame_debug_string(o: Option<WindowFrame>) -> (s: String)
    ensures
        s@ == opt_frame_debug(o),
{
    match o {
        None => String::from_str("None"),
        Some(f) => {
            let mut t = String::from_str("WindowFrame { mode: ");
            let a = mode_debug_string(f.mode);
            t.append(a.as_str());
            t.append(", start: ");
            let b = opt_bound_debug_string(f.start);
            t.append(b.as_str());
            t.append(", end: ");
            let c = opt_bound_debug_string(f.end);
            t.append(c.as_str());
            t.append(" }");
            proof {
                assert(t@ =~= "WindowFrame { mode: "@ + mode_debug(f.mode) + ", start: "@ + opt_bound_debug(f.start)
                    + ", end: "@ + opt_bound_debug(f.end) + " }"@);
            }
            wrap("Some", t.as_str())
        },
    }
}

/// The `Debug` text of an XML option.
pub open spec fn xml_option_debug(o: XmlOption) -> Seq<char> {
    match o {
        XmlOption::Document => "Document"@,
        XmlOption::Content => "Content"@,
    }
}

fn xml_option_debug_string(o: XmlOption) -> (s: String)
    ensures
        s@ == xml_option_debug(o),
{
    match o {
        XmlOption::Document => String::from_str("Document"),
        XmlOption::Content => String::from_str("Content"),
    }
}

/// The `Debug` text of a literal.
pub open spec fn literal_debug(x0: Literal) -> Seq<char>
{
    match x0 {
        Literal::Integer(x) => wrapped("Integer"@, signed_decimal(x as int)),
        Literal::Float(x) => wrapped("Float"@, str_debug_text(x@)),
        Literal::String(x) => wrapped("String"@, str_debug_text(x@)),
        Literal::EscapeString(x) => wrapped("EscapeString"@, str_debug_text(x@)),
        Literal::BitString(x) => wrapped("BitString"@, str_debug_text(x@)),
        Literal::HexString(x) => wrapped("HexString"@, str_debug_text(x@)),
        Literal::NationalString(x) => wrapped("NationalString"@, str_debug_text(x@)),
        Literal::DollarString { tag, body } => "DollarString { tag: "@ + str_debug_text(tag@) + ", body: "@ + str_debug_text(body@) + " }"@,
        Literal::Boolean(x) => wrapped("Boolean"@, bool_debug(x)),
        Literal::Null => "Null"@,
    }
}

fn literal_debug_string(x0: &Literal) -> (s: String)
    ensures
        s@ == literal_debug(*x0),
{
    match x0 {
        Literal::Integer(x) => {
            let inner = signed_string(*x);
            wrap("Integer", inner.as_str())
        },
        Literal::Float(x) => {
            let inner = debug_str(x.as_str());
            wrap("Float", inner.as_str())
        },
        Literal::String(x) => {
            let inner = debug_str(x.as_str());
            wrap("String", inner.as_str())
        },
        Literal::EscapeString(x) => {
            let inner = debug_str(x.as_str());
            wrap("EscapeString", inner.as_str())
        },
        Literal::BitString(x) => {
            let inner = debug_str(x.as_str());
            wrap("BitString", inner.as_str())
        },
        Literal::HexString(x) => {
            let inner = debug_str(x.as_str());
            wrap("HexString", inner.as_str())
        },
        Literal::NationalString(x) => {
            let inner = debug_str(x.as_str());
            wrap("NationalString", inner.as_str())
        },
        Literal::DollarString { tag, body } => {
            let mut s = String::from_str("DollarString { tag: ");
            let p0 = debug_str(tag.as_str());
            s.append(p0.as_str());
            s.append(", body: ");
            let p1 = debug_str(body.as_str());
            s.append(p1.as_str());
            s.append(" }");
            proof {
                assert(s@ =~= "DollarString { tag: "@ + str_debug_text((*tag)@) + ", body: "@ + str_debug_text((*body)@) + " }"@);
            }
            s
        },
        Literal::Boolean(x) => {
            let inner = bool_debug_string(*x);
            wrap("Boolean", inner.as_str())
        },
        Literal::Null => String::from_str("Null"),
    }
}

/// The text of an expression as its derived `Debug` writes it (`format!("{:?}", e)`).
pub open spec fn expr_debug_text(x0: Expr) -> Seq<char>
    decreases x0, 0int,
{
    match x0 {
        Expr::Literal(x) => wrapped("Literal"@, literal_debug(x)),
        Expr::ColumnRef(x) => wrapped("ColumnRef"@, "["@ + names_debug_items(x@) + "]"@),
        Expr::QualifiedStar(x) => wrapped("QualifiedStar"@, str_debug_text(x@)),
        Expr::Parameter(x) => wrapped("Parameter"@, decimal(x as nat)),
        Expr::BinaryOp { left, op, right } => "BinaryOp { left: "@ + expr_debug_text(*left) + ", op: "@ + str_debug_text(op@) + ", right: "@ + expr_debug_text(*right) + " }"@,
        Expr::UnaryOp { op, expr } => "UnaryOp { op: "@ + str_debug_text(op@) + ", expr: "@ + expr_debug_text(*expr) + " }"@,
        Expr::Prior(x) => wrapped("Prior"@, expr_debug_text(*x)),
        Expr::IsNull { expr, negated } => "IsNull { expr: "@ + expr_debug_text(*expr) + ", negated: "@ + bool_debug(negated) + " }"@,
        Expr::Between { expr, low, high, negated } => "Between { expr: "@ + expr_debug_text(*expr) + ", low: "@ + expr_debug_text(*low) + ", high: "@ + expr_debug_text(*high) + ", negated: "@ + bool_debug(negated) + " }"@,
        Expr::InList { expr, list, negated } => "InList { expr: "@ + expr_debug_text(*expr) + ", list: "@ + expr_list_text(list) + ", negated: "@ + bool_debug(negated) + " }"@,
        Expr::Subscript { object, index } => "Subscript { object: "@ + expr_debug_text(*object) + ", index: "@ + expr_debug_text(*index) + " }"@,
        Expr::TypeCast { expr, data_type, default, format } => "TypeCast { expr: "@ + expr_debug_text(*expr) + ", data_type: "@ + data_type_debug_text(data_type) + ", default: "@ + opt_box_debug(default) + ", format: "@ + opt_box_debug(format) + " }"@,
        Expr::Parenthesized(x) => wrapped("Parenthesized"@, expr_debug_text(*x)),
        Expr::RowConstructor(x) => wrapped("RowConstructor"@, expr_list_text(x)),
        Expr::Array(x) => wrapped("Array"@, expr_list_text(x)),
        Expr::Case { operand, whens, else_expr } => "Case { operand: "@ + opt_box_debug(operand) + ", whens: "@ + when_list_text(whens) + ", else_expr: "@ + opt_box_debug(else_expr) + " }"@,
        Expr::FunctionCall { name, args, distinct, over, filter, within_group } => "FunctionCall { name: "@ + "["@ + names_debug_items(name@) + "]"@ + ", args: "@ + expr_list_text(args) + ", distinct: "@ + bool_debug(distinct) + ", over: "@ + opt_window_debug(over) + ", filter: "@ + opt_box_debug(filter) + ", within_group: "@ + order_list_text(within_group) + " }"@,
        Expr::SpecialFunction { name, args } => "SpecialFunction { name: "@ + str_debug_text(name@) + ", args: "@ + expr_list_text(args) + " }"@,
        Expr::XmlElement { entity_escaping, evalname, name, attributes, content } => "XmlElement { entity_escaping: "@ + opt_bool_debug(entity_escaping) + ", evalname: "@ + opt_box_debug(evalname) + ", name: "@ + opt_str_debug(name) + ", attributes: "@ + opt_xattrs_debug(attributes) + ", content: "@ + xcontent_list_text(content) + " }"@,
        Expr::XmlConcat(x) => wrapped("XmlConcat"@, expr_list_text(x)),
        Expr::XmlForest(x) => wrapped("XmlForest"@, xcontent_list_text(x)),
        Expr::XmlParse { option, expr, wellformed } => "XmlParse { option: "@ + xml_option_debug(option) + ", expr: "@ + expr_debug_text(*expr) + ", wellformed: "@ + bool_debug(wellformed) + " }"@,
        Expr::XmlPi { name, content } => "XmlPi { name: "@ + opt_str_debug(name) + ", content: "@ + opt_box_debug(content) + " }"@,
        Expr::XmlRoot { expr, version, standalone } => "XmlRoot { expr: "@ + expr_debug_text(*expr) + ", version: "@ + opt_box_debug(version) + ", standalone: "@ + opt_opt_bool_debug(standalone) + " }"@,
        Expr::XmlSerialize { option, expr, data_type } => "XmlSerialize { option: "@ + xml_option_debug(option) + ", expr: "@ + expr_debug_text(*expr) + ", data_type: "@ + data_type_debug_text(data_type) + " }"@,
        Expr::Default => "Default"@,
    }
}

/// The `Debug` text of a `WhenClause`.
pub open spec fn when_debug(x0: WhenClause) -> Seq<char>
    decreases x0, 0int,
{
    "WhenClause { condition: "@ + expr_debug_text(x0.condition) + ", result: "@ + expr_debug_text(x0.result) + " }"@
}

fn when_debug_string(x0: &WhenClause) -> (s: String)
    ensures
        s@ == when_debug(*x0),
    decreases x0,
{
    let mut s = String::from_str("WhenClause { condition: ");
    let p0 = expr_debug(&x0.condition);
    s.append(p0.as_str());
    s.append(", result: ");
    let p1 = expr_debug(&x0.result);
    s.append(p1.as_str());
    s.append(" }");
    proof {
        assert(s@ =~= when_debug(*x0));
    }
    s
}

/// The `Debug` text of a `OrderByItem`.
pub open spec fn order_debug(x0: OrderByItem) -> Seq<char>
    decreases x0, 0int,
{
    "OrderByItem { expr: "@ + expr_debug_text(x0.expr) + ", asc: "@ + opt_bool_debug(x0.asc) + ", nulls_first: "@ + opt_bool_debug(x0.nulls_first) + " }"@
}

fn order_debug_string(x0: &OrderByItem) -> (s: String)
    ensures
        s@ == order_debug(*x0),
    decreases x0,
{
    let mut s = String::from_str("OrderByItem { expr: ");
    let p0 = expr_debug(&x0.expr);
    s.append(p0.as_str());
    s.append(", asc: ");
    let p1 = opt_bool_debug_string(*&x0.asc);
    s.append(p1.as_str());
    s.append(", nulls_first: ");
    let p2 = opt_bool_debug_string(*&x0.nulls_first);
    s.append(p2.as_str());
    s.append(" }");
    proof {
        assert(s@ =~= order_debug(*x0));
    }
    s
}

/// The `Debug` text of a `WindowSpec`.
pub open spec fn window_debug(x0: WindowSpec) -> Seq<char>
    decreases x0, 0int,
{
    "WindowSpec { partition_by: "@ + expr_list_text(x0.partition_by) + ", order_by: "@ + order_list_text(x0.order_by) + ", frame: "@ + opt_frame_debug(x0.frame) + ", window_name: "@ + opt_str_debug(x0.window_name) + " }"@
}

fn window_debug_string(x0: &WindowSpec) -> (s: String)
    ensures
        s@ == window_debug(*x0),
    decreases x0,
{
    let mut s = String::from_str("WindowSpec { partition_by: ");
    let p0 = expr_list_string(&x0.partition_by);
    s.append(p0.as_str());
    s.append(", order_by: ");
    let p1 = order_list_string(&x0.order_by);
    s.append(p1.as_str());
    s.append(", frame: ");
    let p2 = opt_frame_debug_string(*&x0.frame);
    s.append(p2.as_str());
    s.append(", window_name: ");
    let p3 = opt_str_debug_string(&x0.window_name);
    s.append(p3.as_str());
    s.append(" }");
    proof {
        assert(s@ =~= window_debug(*x0));
    }
    s
}

/// The `Debug` text of a `XmlAttribute`.
pub open spec fn xattr_debug(x0: XmlAttribute) -> Seq<char>
    decreases x0, 0int,
{
    "XmlAttribute { value: "@ + expr_debug_text(x0.value) + ", name: "@ + opt_str_debug(x0.name) + " }"@
}

fn xattr_debug_string(x0: &XmlAttribute) -> (s: String)
    ensures
        s@ == xattr_debug(*x0),
    decreases x0,
{
    let mut s = String::from_str("XmlAttribute { value: ");
    let p0 = expr_debug(&x0.value);
    s.append(p0.as_str());
    s.append(", name: ");
    let p1 = opt_str_debug_string(&x0.name);
    s.append(p1.as_str());
    s.append(" }");
    proof {
        assert(s@ =~= xattr_debug(*x0));
    }
    s
}

/// The `Debug` text of a `XmlAttributes`.
pub open spec fn xattrs_debug(x0: XmlAttributes) -> Seq<char>
    decreases x0, 0int,
{
    "XmlAttributes { entity_escaping: "@ + opt_bool_debug(x0.entity_escaping) + ", items: "@ + xattr_list_text(x0.items) + " }"@
}

fn xattrs_debug_string(x0: &XmlAttributes) -> (s: String)
    ensures
        s@ == xattrs_debug(*x0),
    decreases x0,
{
    let mut s = String::from_str("XmlAttributes { entity_escaping: ");
    let p0 = opt_bool_debug_string(*&x0.entity_escaping);
    s.append(p0.as_str());
    s.append(", items: ");
    let p1 = xattr_list_string(&x0.items);
    s.append(p1.as_str());
    s.append(" }");
    proof {
        assert(s@ =~= xattrs_debug(*x0));
    }
    s
}

/// The `Debug` text of a `XmlContent`.
pub open spec fn xcontent_debug(x0: XmlContent) -> Seq<char>
    decreases x0, 0int,
{
    "XmlContent { expr: "@ + expr_debug_text(x0.expr) + ", alias: "@ + opt_str_debug(x0.alias) + " }"@
}

fn xcontent_debug_string(x0: &XmlContent) -> (s: String)
    ensures
        s@ == xcontent_debug(*x0),
    decreases x0,
{
    let mut s = String::from_str("XmlContent { expr: ");
    let p0 = expr_debug(&x0.expr);
    s.append(p0.as_str());
    s.append(", alias: ");
    let p1 = opt_str_debug_string(&x0.alias);
    s.append(p1.as_str());
    s.append(" }");
    proof {
        assert(s@ =~= xcontent_debug(*x0));
    }
    s
}

/// The items of a list of `Expr`, separated by `, `.
pub open spec fn expr_items(v: Vec<Expr>, n: int) -> Seq<char>
    decreases v, n,
{
    if n <= 0 || n > v.len() {
        Seq::empty()
    } else if n == 1 {
        expr_debug_text(v[0])
    } else {
        expr_items(v, n - 1) + ", "@ + expr_debug_text(v[n - 1])
    }
}

/// The `Debug` text of a list of `Expr`: its items in square brackets.
pub open spec fn expr_list_text(v: Vec<Expr>) -> Seq<char>
    decreases v, v.len() + 1,
{
    "["@ + expr_items(v, v.len() as int) + "]"@
}

fn expr_list_string(v: &Vec<Expr>) -> (s: String)
    ensures
        s@ == expr_list_text(*v),
    decreases v,
{
    let mut s = String::from_str("[");
    let mut k: usize = 0;
    proof {
        assert(s@ =~= "["@ + expr_items(*v, 0));
    }
    while k < v.len()
        invariant
            k <= v.len(),
            s@ == "["@ + expr_items(*v, k as int),
        decreases v.len() - k,
    {
        if k > 0 {
            s.append(", ");
        }
        let d = expr_debug(&v[k]);
        s.append(d.as_str());
        proof {
            if k == 0 {
                assert(s@ =~= "["@ + expr_items(*v, 1));
            } else {
                assert(s@ =~= "["@ + expr_items(*v, k as int + 1));
            }
        }
        k = k + 1;
    }
    s.append("]");
    proof {
        assert(s@ =~= expr_list_text(*v));
    }
    s
}

/// The items of a list of `WhenClause`, separated by `, `.
pub open spec fn when_items(v: Vec<WhenClause>, n: int) -> Seq<char>
    decreases v, n,
{
    if n <= 0 || n > v.len() {
        Seq::empty()
    } else if n == 1 {
        when_debug(v[0])
    } else {
        when_items(v, n - 1) + ", "@ + when_debug(v[n - 1])
    }
}

/// The `Debug` text of a list of `WhenClause`: its items in square brackets.
pub open spec fn when_list_text(v: Vec<WhenClause>) -> Seq<char>
    decreases v, v.len() + 1,
{
    "["@ + when_items(v, v.len() as int) + "]"@
}

fn when_list_string(v: &Vec<WhenClause>) -> (s: String)
    ensures
        s@ == when_list_text(*v),
    decreases v,
{
    let mut s = String::from_str("[");
    let mut k: usize = 0;
    proof {
        assert(s@ =~= "["@ + when_items(*v, 0));
    }
    while k < v.len()
        invariant
            k <= v.len(),
            s@ == "["@ + when_items(*v, k as int),
        decreases v.len() - k,
    {
        if k > 0 {
            s.append(", ");
        }
        let d = when_debug_string(&v[k]);
        s.append(d.as_str());
        proof {
            if k == 0 {
                assert(s@ =~= "["@ + when_items(*v, 1));
            } else {
                assert(s@ =~= "["@ + when_items(*v, k as int + 1));
            }
        }
        k = k + 1;
    }
    s.append("]");
    proof {
        assert(s@ =~= when_list_text(*v));
    }
    s
}

/// The items of a list of `OrderByItem`, separated by `, `.
pub open spec fn order_items(v: Vec<OrderByItem>, n: int) -> Seq<char>
    decreases v, n,
{
    if n <= 0 || n > v.len() {
        Seq::empty()
    } else if n == 1 {
        order_debug(v[0])
    } else {
        order_items(v, n - 1) + ", "@ + order_debug(v[n - 1])
    }
}

/// The `Debug` text of a list of `OrderByItem`: its items in square brackets.
pub open spec fn order_list_text(v: Vec<OrderByItem>) -> Seq<char>
    decreases v, v.len() + 1,
{
    "["@ + order_items(v, v.len() as int) + "]"@
}

fn order_list_string(v: &Vec<OrderByItem>) -> (s: String)
    ensures
        s@ == order_list_text(*v),
    decreases v,
{
    let mut s = String::from_str("[");
    let mut k: usize = 0;
    proof {
        assert(s@ =~= "["@ + order_items(*v, 0));
    }
    while k < v.len()
        invariant
            k <= v.len(),
            s@ == "["@ + order_items(*v, k as int),
        decreases v.len() - k,
    {
        if k > 0 {
            s.append(", ");
        }
        let d = order_debug_string(&v[k]);
        s.append(d.as_str());
        proof {
            if k == 0 {
                assert(s@ =~= "["@ + order_items(*v, 1));
            } else {
                assert(s@ =~= "["@ + order_items(*v, k as int + 1));
            }
        }
        k = k + 1;
    }
    s.append("]");
    proof {
        assert(s@ =~= order_list_text(*v));
    }
    s
}

/// The items of a list of `XmlContent`, separated by `, `.
pub open spec fn xcontent_items(v: Vec<XmlContent>, n: int) -> Seq<char>
    decreases v, n,
{
    if n <= 0 || n > v.len() {
        Seq::empty()
    } else if n == 1 {
        xcontent_debug(v[0])
    } else {
        xcontent_items(v, n - 1) + ", "@ + xcontent_debug(v[n - 1])
    }
}

/// The `Debug` text of a list of `XmlContent`: its items in square brackets.
pub open spec fn xcontent_list_text(v: Vec<XmlContent>) -> Seq<char>
    decreases v, v.len() + 1,
{
    "["@ + xcontent_items(v, v.len() as int) + "]"@
}

fn xcontent_list_string(v: &Vec<XmlContent>) -> (s: String)
    ensures
        s@ == xcontent_list_text(*v),
    decreases v,
{
    let mut s = String::from_str("[");
    let mut k: usize = 0;
    proof {
        assert(s@ =~= "["@ + xcontent_items(*v, 0));
    }
    while k < v.len()
        invariant
            k <= v.len(),
            s@ == "["@ + xcontent_items(*v, k as int),
        decreases v.len() - k,
    {
        if k > 0 {
            s.append(", ");
        }
        let d = xcontent_debug_string(&v[k]);
        s.append(d.as_str());
        proof {
            if k == 0 {
                assert(s@ =~= "["@ + xcontent_items(*v, 1));
            } else {
                assert(s@ =~= "["@ + xcontent_items(*v, k as int + 1));
            }
        }
        k = k + 1;
    }
    s.append("]");
    proof {
        assert(s@ =~= xcontent_list_text(*v));
    }
    s
}

/// The items of a list of `XmlAttribute`, separated by `, `.
pub open spec fn xattr_items(v: Vec<XmlAttribute>, n: int) -> Seq<char>
    decreases v, n,
{
    if n <= 0 || n > v.len() {
        Seq::empty()
    } else if n == 1 {
        xattr_debug(v[0])
    } else {
        xattr_items(v, n - 1) + ", "@ + xattr_debug(v[n - 1])
    }
}

/// The `Debug` text of a list of `XmlAttribute`: its items in square brackets.
pub open spec fn xattr_list_text(v: Vec<XmlAttribute>) -> Seq<char>
    decreases v, v.len() + 1,
{
    "["@ + xattr_items(v, v.len() as int) + "]"@
}

fn xattr_list_string(v: &Vec<XmlAttribute>) -> (s: String)
    ensures
        s@ == xattr_list_text(*v),
    decreases v,
{
    let mut s = String::from_str("[");
    let mut k: usize = 0;
    proof {
        assert(s@ =~= "["@ + xattr_items(*v, 0));
    }
    while k < v.len()
        invariant
            k <= v.len(),
            s@ == "["@ + xattr_items(*v, k as int),
        decreases v.len() - k,
    {
        if k > 0 {
            s.append(", ");
        }
        let d = xattr_debug_string(&v[k]);
        s.append(d.as_str());
        proof {
            if k == 0 {
                assert(s@ =~= "["@ + xattr_items(*v, 1));
            } else {
                assert(s@ =~= "["@ + xattr_items(*v, k as int + 1));
            }
        }
        k = k + 1;
    }
    s.append("]");
    proof {
        assert(s@ =~= xattr_list_text(*v));
    }
    s
}

/// The `Debug` text of an optional boxed expression.
pub open spec fn opt_box_debug(o: Option<Box<Expr>>) -> Seq<char>
    decreases o, 0int,
{
    match o {
        None => "None"@,
        Some(b) => wrapped("Some"@, expr_debug_text(*b)),
    }
}

fn opt_box_debug_string(o: &Option<Box<Expr>>) -> (s: String)
    ensures
        s@ == opt_box_debug(*o),
    decreases o,
{
    match o {
        None => String::from_str("None"),
        Some(b) => {
            let inner = expr_debug(&**b);
            wrap("Some", inner.as_str())
        },
    }
}

/// The `Debug` text of an optional window specification.
pub open spec fn opt_window_debug(o: Option<WindowSpec>) -> Seq<char>
    decreases o, 0int,
{
    match o {
        None => "None"@,
        Some(w) => wrapped("Some"@, window_debug(w)),
    }
}

fn opt_window_debug_string(o: &Option<WindowSpec>) -> (s: String)
    ensures
        s@ == opt_window_debug(*o),
    decreases o,
{
    match o {
        None => String::from_str("None"),
        Some(w) => {
            let inner = window_debug_string(w);
            wrap("Some", inner.as_str())
        },
    }
}

/// The `Debug` text of optional XML attributes.
pub open spec fn opt_xattrs_debug(o: Option<XmlAttributes>) -> Seq<char>
    decreases o, 0int,
{
    match o {
        None => "None"@,
        Some(a) => wrapped("Some"@, xattrs_debug(a)),
    }
}

fn opt_xattrs_debug_string(o: &Option<XmlAttributes>) -> (s: String)
    ensures
        s@ == opt_xattrs_debug(*o),
    decreases o,
{
    match o {
        None => String::from_str("None"),
        Some(a) => {
            let inner = xattrs_debug_string(a);
            wrap("Some", inner.as_str())
        },
    }
}

/// Renders an expression as its derived `Debug` does.
fn expr_debug(x0: &Expr) -> (s: String)
    ensures
        s@ == expr_debug_text(*x0),
    decreases x0,
{
    match x0 {
        Expr::Literal(x) => {
            let inner = literal_debug_string(x);
            wrap("Literal", inner.as_str())
        },
        Expr::ColumnRef(x) => {
            let inner = names_list_string(x);
            wrap("ColumnRef", inner.as_str())
        },
        Expr::QualifiedStar(x) => {
            let inner = debug_str(x.as_str());
            wrap("QualifiedStar", inner.as_str())
        },
        Expr::Parameter(x) => {
            let inner = unsigned_string(*x);
            wrap("Parameter", inner.as_str())
        },
        Expr::BinaryOp { left, op, right } => {
            let mut s = String::from_str("BinaryOp { left: ");
            let p0 = expr_debug(&**left);
            s.append(p0.as_str());
            s.append(", op: ");
            let p1 = debug_str(op.as_str());
            s.append(p1.as_str());
            s.append(", right: ");
            let p2 = expr_debug(&**right);
            s.append(p2.as_str());
            s.append(" }");
            proof {
                assert(s@ =~= "BinaryOp { left: "@ + expr_debug_text(*(*left)) + ", op: "@ + str_debug_text((*op)@) + ", right: "@ + expr_debug_text(*(*right)) + " }"@);
            }
            s
        },
        Expr::UnaryOp { op, expr } => {
            let mut s = String::from_str("UnaryOp { op: ");
            let p0 = debug_str(op.as_str());
            s.append(p0.as_str());
            s.append(", expr: ");
            let p1 = expr_debug(&**expr);
            s.append(p1.as_str());
            s.append(" }");
            proof {
                assert(s@ =~= "UnaryOp { op: "@ + str_debug_text((*op)@) + ", expr: "@ + expr_debug_text(*(*expr)) + " }"@);
            }
            s
        },
        Expr::Prior(x) => {
            let inner = expr_debug(&**x);
            wrap("Prior", inner.as_str())
        },
        Expr::IsNull { expr, negated } => {
            let mut s = String::from_str("IsNull { expr: ");
            let p0 = expr_debug(&**expr);
            s.append(p0.as_str());
            s.append(", negated: ");
            let p1 = bool_debug_string(*negated);
            s.append(p1.as_str());
            s.append(" }");
            proof {
                assert(s@ =~= "IsNull { expr: "@ + expr_debug_text(*(*expr)) + ", negated: "@ + bool_debug((*negated)) + " }"@);
            }
            s
        },
        Expr::Between { expr, low, high, negated } => {
            let mut s = String::from_str("Between { expr: ");
            let p0 = expr_debug(&**expr);
            s.append(p0.as_str());
            s.append(", low: ");
            let p1 = expr_debug(&**low);
            s.append(p1.as_str());
            s.append(", high: ");
            let p2 = expr_debug(&**high);
            s.append(p2.as_str());
            s.append(", negated: ");
            let p3 = bool_debug_string(*negated);
            s.append(p3.as_str());
            s.append(" }");
            proof {
                assert(s@ =~= "Between { expr: "@ + expr_debug_text(*(*expr)) + ", low: "@ + expr_debug_text(*(*low)) + ", high: "@ + expr_debug_text(*(*high)) + ", negated: "@ + bool_debug((*negated)) + " }"@);
            }
            s
        },
        Expr::InList { expr, list, negated } => {
            let mut s = String::from_str("InList { expr: ");
            let p0 = expr_debug(&**expr);
            s.append(p0.as_str());
            s.append(", list: ");
            let p1 = expr_list_string(list);
            s.append(p1.as_str());
            s.append(", negated: ");
            let p2 = bool_debug_string(*negated);
            s.append(p2.as_str());
            s.append(" }");
            proof {
                assert(s@ =~= "InList { expr: "@ + expr_debug_text(*(*expr)) + ", list: "@ + expr_list_text((*list)) + ", negated: "@ + bool_debug((*negated)) + " }"@);
            }
            s
        },
        Expr::Subscript { object, index } => {
            let mut s = String::from_str("Subscript { object: ");
            let p0 = expr_debug(&**object);
            s.append(p0.as_str());
            s.append(", index: ");
            let p1 = expr_debug(&**index);
            s.append(p1.as_str());
            s.append(" }");
            proof {
                assert(s@ =~= "Subscript { object: "@ + expr_debug_text(*(*object)) + ", index: "@ + expr_debug_text(*(*index)) + " }"@);
            }
            s
        },
        Expr::TypeCast { expr, data_type, default, format } => {
            let mut s = String::from_str("TypeCast { expr: ");
            let p0 = expr_debug(&**expr);
            s.append(p0.as_str());
            s.append(", data_type: ");
            let p1 = data_type_debug(data_type);
            s.append(p1.as_str());
            s.append(", default: ");
            let p2 = opt_box_debug_string(default);
            s.append(p2.as_str());
            s.append(", format: ");
            let p3 = opt_box_debug_string(format);
            s.append(p3.as_str());
            s.append(" }");
            proof {
                assert(s@ =~= "TypeCast { expr: "@ + expr_debug_text(*(*expr)) + ", data_type: "@ + data_type_debug_text((*data_type)) + ", default: "@ + opt_box_debug((*default)) + ", format: "@ + opt_box_debug((*format)) + " }"@);
            }
            s
        },
        Expr::Parenthesized(x) => {
            let inner = expr_debug(&**x);
            wrap("Parenthesized", inner.as_str())
        },
        Expr::RowConstructor(x) => {
            let inner = expr_list_string(x);
            wrap("RowConstructor", inner.as_str())
        },
        Expr::Array(x) => {
            let inner = expr_list_string(x);
            wrap("Array", inner.as_str())
        },
        Expr::Case { operand, whens, else_expr } => {
            let mut s = String::from_str("Case { operand: ");
            let p0 = opt_box_debug_string(operand);
            s.append(p0.as_str());
            s.append(", whens: ");
            let p1 = when_list_string(whens);
            s.append(p1.as_str());
            s.append(", else_expr: ");
            let p2 = opt_box_debug_string(else_expr);
            s.append(p2.as_str());
            s.append(" }");
            proof {
                assert(s@ =~= "Case { operand: "@ + opt_box_debug((*operand)) + ", whens: "@ + when_list_text((*whens)) + ", else_expr: "@ + opt_box_debug((*else_expr)) + " }"@);
            }
            s
        },
        Expr::FunctionCall { name, args, distinct, over, filter, within_group } => {
            let mut s = String::from_str("FunctionCall { name: ");
            let p0 = names_list_string(name);
            s.append(p0.as_str());
            s.append(", args: ");
            let p1 = expr_list_string(args);
            s.append(p1.as_str());
            s.append(", distinct: ");
            let p2 = bool_debug_string(*distinct);
            s.append(p2.as_str());
            s.append(", over: ");
            let p3 = opt_window_debug_string(over);
            s.append(p3.as_str());
            s.append(", filter: ");
            let p4 = opt_box_debug_string(filter);
            s.append(p4.as_str());
            s.append(", within_group: ");
            let p5 = order_list_string(within_group);
            s.append(p5.as_str());
            s.append(" }");
            proof {
                assert(s@ =~= "FunctionCall { name: "@ + "["@ + names_debug_items((*name)@) + "]"@ + ", args: "@ + expr_list_text((*args)) + ", distinct: "@ + bool_debug((*distinct)) + ", over: "@ + opt_window_debug((*over)) + ", filter: "@ + opt_box_debug((*filter)) + ", within_group: "@ + order_list_text((*within_group)) + " }"@);
            }
            s
        },
        Expr::SpecialFunction { name, args } => {
            let mut s = String::from_str("SpecialFunction { name: ");
            let p0 = debug_str(name.as_str());
            s.append(p0.as_str());
            s.append(", args: ");
            let p1 = expr_list_string(args);
            s.append(p1.as_str());
            s.append(" }");
            proof {
                assert(s@ =~= "SpecialFunction { name: "@ + str_debug_text((*name)@) + ", args: "@ + expr_list_text((*args)) + " }"@);
            }
            s
        },
        Expr::XmlElement { entity_escaping, evalname, name, attributes, content } => {
            let mut s = String::from_str("XmlElement { entity_escaping: ");
            let p0 = opt_bool_debug_string(*entity_escaping);
            s.append(p0.as_str());
            s.append(", evalname: ");
            let p1 = opt_box_debug_string(evalname);
            s.append(p1.as_str());
            s.append(", name: ");
            let p2 = opt_str_debug_string(name);
            s.append(p2.as_str());
            s.append(", attributes: ");
            let p3 = opt_xattrs_debug_string(attributes);
            s.append(p3.as_str());
            s.append(", content: ");
            let p4 = xcontent_list_string(content);
            s.append(p4.as_str());
            s.append(" }");
            proof {
                assert(s@ =~= "XmlElement { entity_escaping: "@ + opt_bool_debug((*entity_escaping)) + ", evalname: "@ + opt_box_debug((*evalname)) + ", name: "@ + opt_str_debug((*name)) + ", attributes: "@ + opt_xattrs_debug((*attributes)) + ", content: "@ + xcontent_list_text((*content)) + " }"@);
            }
            s
        },
        Expr::XmlConcat(x) => {
            let inner = expr_list_string(x);
            wrap("XmlConcat", inner.as_str())
        },
        Expr::XmlForest(x) => {
            let inner = xcontent_list_string(x);
            wrap("XmlForest", inner.as_str())
        },
        Expr::XmlParse { option, expr, wellformed } => {
            let mut s = String::from_str("XmlParse { option: ");
            let p0 = xml_option_debug_string(*option);
            s.append(p0.as_str());
            s.append(", expr: ");
            let p1 = expr_debug(&**expr);
            s.append(p1.as_str());
            s.append(", wellformed: ");
            let p2 = bool_debug_string(*wellformed);
            s.append(p2.as_str());
            s.append(" }");
            proof {
                assert(s@ =~= "XmlParse { option: "@ + xml_option_debug((*option)) + ", expr: "@ + expr_debug_text(*(*expr)) + ", wellformed: "@ + bool_debug((*wellformed)) + " }"@);
            }
            s
        },
        Expr::XmlPi { name, content } => {
            let mut s = String::from_str("XmlPi { name: ");
            let p0 = opt_str_debug_string(name);
            s.append(p0.as_str());
            s.append(", content: ");
            let p1 = opt_box_debug_string(content);
            s.append(p1.as_str());
            s.append(" }");
            proof {
                assert(s@ =~= "XmlPi { name: "@ + opt_str_debug((*name)) + ", content: "@ + opt_box_debug((*content)) + " }"@);
            }
            s
        },
        Expr::XmlRoot { expr, version, standalone } => {
            let mut s = String::from_str("XmlRoot { expr: ");
            let p0 = expr_debug(&**expr);
            s.append(p0.as_str());
            s.append(", version: ");
            let p1 = opt_box_debug_string(version);
            s.append(p1.as_str());
            s.append(", standalone: ");
            let p2 = opt_opt_bool_debug_string(*standalone);
            s.append(p2.as_str());
            s.append(" }");
            proof {
                assert(s@ =~= "XmlRoot { expr: "@ + expr_debug_text(*(*expr)) + ", version: "@ + opt_box_debug((*version)) + ", standalone: "@ + opt_opt_bool_debug((*standalone)) + " }"@);
            }
            s
        },
        Expr::XmlSerialize { option, expr, data_type } => {
            let mut s = String::from_str("XmlSerialize { option: ");
            let p0 = xml_option_debug_string(*option);
            s.append(p0.as_str());
            s.append(", expr: ");
            let p1 = expr_debug(&**expr);
            s.append(p1.as_str());
            s.append(", data_type: ");
            let p2 = data_type_debug(data_type);
            s.append(p2.as_str());
            s.append(" }");
            proof {
                assert(s@ =~= "XmlSerialize { option: "@ + xml_option_debug((*option)) + ", expr: "@ + expr_debug_text(*(*expr)) + ", data_type: "@ + data_type_debug_text((*data_type)) + " }"@);
            }
            s
        },
        Expr::Default => String::from_str("Default"),
    }
}

/// The text of a data type as its derived `Debug` writes it (`format!("{:?}", t)`).
pub open spec fn data_type_debug_text(t: DataType) -> Seq<char>
    decreases t, 0int,
{
    match t {
        DataType::Boolean => "Boolean"@,
        DataType::Real => "Real"@,
        DataType::Double => "Double"@,
        DataType::Text => "Text"@,
        DataType::Bytea => "Bytea"@,
        DataType::Date => "Date"@,
        DataType::Serial => "Serial"@,
        DataType::SmallSerial => "SmallSerial"@,
        DataType::BigSerial => "BigSerial"@,
        DataType::BinaryFloat => "BinaryFloat"@,
        DataType::BinaryDouble => "BinaryDouble"@,
        DataType::Uuid => "Uuid"@,
        DataType::Json => "Json"@,
        DataType::Jsonb => "Jsonb"@,
        DataType::TinyInt(n) => wrapped("TinyInt"@, opt_u32_debug(n)),
        DataType::SmallInt(n) => wrapped("SmallInt"@, opt_u32_debug(n)),
        DataType::Integer(n) => wrapped("Integer"@, opt_u32_debug(n)),
        DataType::BigInt(n) => wrapped("BigInt"@, opt_u32_debug(n)),
        DataType::Float(n) => wrapped("Float"@, opt_u32_debug(n)),
        DataType::Char(n) => wrapped("Char"@, opt_u32_debug(n)),
        DataType::Varchar(n) => wrapped("Varchar"@, opt_u32_debug(n)),
        DataType::Bit(n) => wrapped("Bit"@, opt_u32_debug(n)),
        DataType::Varbit(n) => wrapped("Varbit"@, opt_u32_debug(n)),
        DataType::Numeric(p, q) => "Numeric("@ + opt_u32_debug(p) + ", "@ + opt_u32_debug(q) + ")"@,
        DataType::Timestamp(p, z) => "Timestamp("@ + opt_u32_debug(p) + ", "@ + zone_debug(z) + ")"@,
        DataType::Time(p, z) => "Time("@ + opt_u32_debug(p) + ", "@ + zone_debug(z) + ")"@,
        DataType::Interval(i) => wrapped("Interval"@, interval_debug(i)),
        DataType::Custom(n, m) => "Custom(["@ + names_debug_items(n@) + "], "@ + expr_list_text(m) + ")"@,
        DataType::Array(inner) => wrapped("Array"@, data_type_debug_text(*inner)),
    }
}

/// Renders a data type as its derived `Debug` does.
fn data_type_debug(t: &DataType) -> (s: String)
    ensures
        s@ == data_type_debug_text(*t),
    decreases t,
{
    match t {
        DataType::Boolean => String::from_str("Boolean"),
        DataType::Real => String::from_str("Real"),
        DataType::Double => String::from_str("Double"),
        DataType::Text => String::from_str("Text"),
        DataType::Bytea => String::from_str("Bytea"),
        DataType::Date => String::from_str("Date"),
        DataType::Serial => String::from_str("Serial"),
        DataType::SmallSerial => String::from_str("SmallSerial"),
        DataType::BigSerial => String::from_str("BigSerial"),
        DataType::BinaryFloat => String::from_str("BinaryFloat"),
        DataType::BinaryDouble => String::from_str("BinaryDouble"),
        DataType::Uuid => String::from_str("Uuid"),
        DataType::Json => String::from_str("Json"),
        DataType::Jsonb => String::from_str("Jsonb"),
        DataType::TinyInt(n) => {
            let inner = opt_u32_debug_string(*n);
            wrap("TinyInt", inner.as_str())
        },
        DataType::SmallInt(n) => {
            let inner = opt_u32_debug_string(*n);
            wrap("SmallInt", inner.as_str())
        },
        DataType::Integer(n) => {
            let inner = opt_u32_debug_string(*n);
            wrap("Integer", inner.as_str())
        },
        DataType::BigInt(n) => {
            let inner = opt_u32_debug_string(*n);
            wrap("BigInt", inner.as_str())
        },
        DataType::Float(n) => {
            let inner = opt_u32_debug_string(*n);
            wrap("Float", inner.as_str())
        },
        DataType::Char(n) => {
            let inner = opt_u32_debug_string(*n);
            wrap("Char", inner.as_str())
        },
        DataType::Varchar(n) => {
            let inner = opt_u32_debug_string(*n);
            wrap("Varchar", inner.as_str())
        },
        DataType::Bit(n) => {
            let inner = opt_u32_debug_string(*n);
            wrap("Bit", inner.as_str())
        },
        DataType::Varbit(n) => {
            let inner = opt_u32_debug_string(*n);
            wrap("Varbit", inner.as_str())
        },
        DataType::Numeric(p, q) => {
            let mut s = String::from_str("Numeric(");
            let a = opt_u32_debug_string(*p);
            s.append(a.as_str());
            s.append(", ");
            let b = opt_u32_debug_string(*q);
            s.append(b.as_str());
            s.append(")");
            proof {
                assert(s@ =~= "Numeric("@ + opt_u32_debug(*p) + ", "@ + opt_u32_debug(*q) + ")"@);
            }
            s
        },
        DataType::Timestamp(p, z) => {
            let mut s = String::from_str("Timestamp(");
            let a = opt_u32_debug_string(*p);
            s.append(a.as_str());
            s.append(", ");
            let b = zone_debug_string(z);
            s.append(b.as_str());
            s.append(")");
            proof {
                assert(s@ =~= "Timestamp("@ + opt_u32_debug(*p) + ", "@ + zone_debug(*z) + ")"@);
            }
            s
        },
        DataType::Time(p, z) => {
            let mut s = String::from_str("Time(");
            let a = opt_u32_debug_string(*p);
            s.append(a.as_str());
            s.append(", ");
            let b = zone_debug_string(z);
            s.append(b.as_str());
            s.append(")");
            proof {
                assert(s@ =~= "Time("@ + opt_u32_debug(*p) + ", "@ + zone_debug(*z) + ")"@);
            }
            s
        },
        DataType::Interval(i) => {
            let inner = interval_debug_string(i);
            wrap("Interval", inner.as_str())
        },
        DataType::Custom(n, m) => {
            let mut s = String::from_str("Custom([");
            let a = names_debug_string(n);
            s.append(a.as_str());
            s.append("], ");
            let b = expr_list_string(m);
            s.append(b.as_str());
            s.append(")");
            proof {
                assert(s@ =~= "Custom(["@ + names_debug_items(n@) + "], "@ + expr_list_text(*m) + ")"@);
            }
            s
        },
        DataType::Array(inner) => {
            let text = data_type_debug(inner);
            wrap("Array", text.as_str())
        },
    }
}

/// `(n)` after a type name.
pub open spec fn with_length(base: Seq<char>, n: u32) -> Seq<char> {
    base + seq!['('] + decimal(n as nat) + seq![')']
}

/// How a data type is written back as text; `None` where its lower-cased `Debug`
/// rendering is used.
pub open spec fn format_type(v: TypeView) -> Option<Seq<char>> {
    match v {
        TypeView::Boolean => Some("boolean"@),
        TypeView::TinyInt(_) => Some("tinyint"@),
        TypeView::SmallInt(_) => Some("smallint"@),
        TypeView::Integer(_) => Some("integer"@),
        TypeView::BigInt(_) => Some("bigint"@),
        TypeView::Real => Some("real"@),
        TypeView::Float(Some(n)) => Some(with_length("float"@, n)),
        TypeView::Float(None) => Some("float"@),
        TypeView::Double => Some("double precision"@),
        TypeView::Serial => Some("serial"@),
        TypeView::SmallSerial => Some("smallserial"@),
        TypeView::BigSerial => Some("bigserial"@),
        TypeView::BinaryFloat => Some("binary_float"@),
        TypeView::BinaryDouble => Some("binary_double"@),
        TypeView::Text => Some("text"@),
        TypeView::Char(Some(n)) => Some(with_length("char"@, n)),
        TypeView::Char(None) => Some("char"@),
        TypeView::Varchar(Some(n)) => Some(with_length("varchar"@, n)),
        TypeView::Varchar(None) => Some("varchar"@),
        TypeView::Numeric(Some(p), Some(s)) => Some("numeric"@ + seq!['('] + decimal(p as nat) + seq![','] + decimal(s as nat) + seq![')']),
        TypeView::Numeric(Some(p), None) => Some(with_length("numeric"@, p)),
        TypeView::Numeric(None, _) => Some("numeric"@),
        TypeView::Date => Some("date"@),
        TypeView::Timestamp(Some(p), _) => Some(with_length("timestamp"@, p)),
        TypeView::Timestamp(None, _) => Some("timestamp"@),
        TypeView::Uuid => Some("uuid"@),
        TypeView::Json => Some("json"@),
        TypeView::Jsonb => Some("jsonb"@),
        TypeView::Bytea => Some("bytea"@),
        TypeView::Custom(name, _) => Some(dotted(name)),
        _ => None,
    }
}

fn name_with_length(base: &str, n: u32) -> (s: String)
    ensures
        s@ == with_length(base@, n),
{
    let mut s = String::from_str(base);
    s.push('(');
    push_decimal(&mut s, n as u64);
    s.push(')');
    s
}

/// The text a data type is written as: its SQL name (with length or precision where
/// the name takes one), the dotted name of a named type, or otherwise the lower-cased
/// `Debug` rendering.
pub fn format_data_type(dt: &DataType) -> (s: String)
    ensures
        match format_type(type_view(*dt)) {
            Some(text) => s@ == text,
            None => s@ == unicode_lowercase(data_type_debug_text(*dt)),
        },
{
    match dt {
        DataType::Boolean => String::from_str("boolean"),
        DataType::TinyInt(_) => String::from_str("tinyint"),
        DataType::SmallInt(_) => String::from_str("smallint"),
        DataType::Integer(_) => String::from_str("integer"),
        DataType::BigInt(_) => String::from_str("bigint"),
        DataType::Real => String::from_str("real"),
        DataType::Float(Some(n)) => name_with_length("float", *n),
        DataType::Float(None) => String::from_str("float"),
        DataType::Double => String::from_str("double precision"),
        DataType::Serial => String::from_str("serial"),
        DataType::SmallSerial => String::from_str("smallserial"),
        DataType::BigSerial => String::from_str("bigserial"),
        DataType::BinaryFloat => String::from_str("binary_float"),
        DataType::BinaryDouble => String::from_str("binary_double"),
        DataType::Text => String::from_str("text"),
        DataType::Char(Some(n)) => name_with_length("char", *n),
        DataType::Char(None) => String::from_str("char"),
        DataType::Varchar(Some(n)) => name_with_length("varchar", *n),
        DataType::Varchar(None) => String::from_str("varchar"),
        DataType::Numeric(Some(p), Some(sc)) => {
            let mut s = String::from_str("numeric");
            s.push('(');
            push_decimal(&mut s, *p as u64);
            s.push(',');
            push_decimal(&mut s, *sc as u64);
            s.push(')');
            s
        },
        DataType::Numeric(Some(p), None) => name_with_length("numeric", *p),
        DataType::Numeric(None, _) => String::from_str("numeric"),
        DataType::Date => String::from_str("date"),
        DataType::Timestamp(Some(p), _) => name_with_length("timestamp", *p),
        DataType::Timestamp(None, _) => String::from_str("timestamp"),
        DataType::Uuid => String::from_str("uuid"),
        DataType::Json => String::from_str("json"),
        DataType::Jsonb => String::from_str("jsonb"),
        DataType::Bytea => String::from_str("bytea"),
        DataType::Custom(name, _) => join_dotted(name),
        _ => {
            let text = data_type_debug(dt);
            to_lowercase(text.as_str())
        },
    }
}

/// Each integer type keyword names its own type, whatever modifiers follow: `TINYINT` a
/// tiny integer, `SMALLINT` a small integer, `INTEGER` and `INT` an integer, `BIGINT` a big
/// integer. Standing alone (no `(` and no `[` after it), each is that type without a
/// precision, one token long.
pub proof fn law_integer_keywords_name_their_types(toks: Seq<Token>, i: int)
    ensures
        keyword_type_at(toks, i, Keyword::TINYINT) matches Ok((v, _)) ==> v is TinyInt,
        keyword_type_at(toks, i, Keyword::SMALLINT) matches Ok((v, _)) ==> v is SmallInt,
        keyword_type_at(toks, i, Keyword::INTEGER) matches Ok((v, _)) ==> v is Integer,
        keyword_type_at(toks, i, Keyword::INT_P) matches Ok((v, _)) ==> v is Integer,
        keyword_type_at(toks, i, Keyword::BIGINT) matches Ok((v, _)) ==> v is BigInt,
        !(tok_at(toks, i + 1) is LParen) && !(tok_at(toks, i + 1) is LBracket) ==> {
            &&& kw_at(toks, i, Keyword::TINYINT) ==> data_type_at(toks, i)
                == Some(Outcome::<TypeView>::Ok((TypeView::TinyInt(None), i + 1)))
            &&& kw_at(toks, i, Keyword::SMALLINT) ==> data_type_at(toks, i)
                == Some(Outcome::<TypeView>::Ok((TypeView::SmallInt(None), i + 1)))
            &&& kw_at(toks, i, Keyword::INTEGER) ==> data_type_at(toks, i)
                == Some(Outcome::<TypeView>::Ok((TypeView::Integer(None), i + 1)))
            &&& kw_at(toks, i, Keyword::INT_P) ==> data_type_at(toks, i)
                == Some(Outcome::<TypeView>::Ok((TypeView::Integer(None), i + 1)))
            &&& kw_at(toks, i, Keyword::BIGINT) ==> data_type_at(toks, i)
                == Some(Outcome::<TypeView>::Ok((TypeView::BigInt(None), i + 1)))
        },
        format_type(TypeView::TinyInt(None)) == Some("tinyint"@),
        format_type(TypeView::SmallInt(None)) == Some("smallint"@),
        format_type(TypeView::Integer(None)) == Some("integer"@),
        format_type(TypeView::BigInt(None)) == Some("bigint"@),
{
}

/// Each other type keyword names its own kind of type, whatever modifiers follow.
pub proof fn law_type_keywords_name_their_kinds(toks: Seq<Token>, i: int)
    ensures
        keyword_type_at(toks, i, Keyword::BOOLEAN_P) == Outcome::<TypeView>::Ok((TypeView::Boolean, i + 1)),
        keyword_type_at(toks, i, Keyword::REAL) == Outcome::<TypeView>::Ok((TypeView::Real, i + 1)),
        keyword_type_at(toks, i, Keyword::TEXT_P) == Outcome::<TypeView>::Ok((TypeView::Text, i + 1)),
        keyword_type_at(toks, i, Keyword::DATE_P) == Outcome::<TypeView>::Ok((TypeView::Date, i + 1)),
        keyword_type_at(toks, i, Keyword::DOUBLE_P) matches Ok((v, _)) ==> v is Double,
        keyword_type_at(toks, i, Keyword::FLOAT_P) matches Ok((v, _)) ==> v is Float,
        keyword_type_at(toks, i, Keyword::NUMERIC) matches Ok((v, _)) ==> v is Numeric,
        keyword_type_at(toks, i, Keyword::DECIMAL_P) matches Ok((v, _)) ==> v is Numeric,
        keyword_type_at(toks, i, Keyword::VARCHAR) matches Ok((v, _)) ==> v is Varchar,
        keyword_type_at(toks, i, Keyword::CHAR_P) matches Ok((v, _)) ==> v is Char || v is Varchar,
        keyword_type_at(toks, i, Keyword::BIT) matches Ok((v, _)) ==> v is Bit || v is Varbit,
        keyword_type_at(toks, i, Keyword::TIMESTAMP) matches Ok((v, _)) ==> v is Timestamp,
        keyword_type_at(toks, i, Keyword::TIME) matches Ok((v, _)) ==> v is Time,
{
}

} // verus!
