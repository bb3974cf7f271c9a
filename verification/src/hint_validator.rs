//! Checks optimizer hints (the text of a `/*+ ... */` comment) against the hints
//! GaussDB documents.
use vstd::prelude::*;
use crate::error::{ParserError, SourceLocation, warnings_are, lemma_warnings_concat};
use crate::text::{
    chars_of, is_white_space, is_whitespace, str_equals_chars, string_from_chars, to_lowercase,
    unicode_lowercase,
};

verus! {

/// The hints GaussDB documents.
pub open spec fn is_known_hint(s: Seq<char>) -> bool {
    s == "tablescan"@ ||
    s == "indexscan"@ ||
    s == "indexonlyscan"@ ||
    s == "gsi"@ ||
    s == "gsitable"@ ||
    s == "bitmapscan"@ ||
    s == "nestloop"@ ||
    s == "hashjoin"@ ||
    s == "mergejoin"@ ||
    s == "leading"@ ||
    s == "broadcast"@ ||
    s == "redistribute"@ ||
    s == "gather"@ ||
    s == "use_hash_agg"@ ||
    s == "use_sort_agg"@ ||
    s == "set"@ ||
    s == "use_cplan"@ ||
    s == "use_gplan"@ ||
    s == "choose_adaptive_gplan"@ ||
    s == "no_gpc"@ ||
    s == "material_subplan"@ ||
    s == "begin_outline_data"@ ||
    s == "end_outline_data"@ ||
    s == "blockname"@ ||
    s == "wlmrule"@ ||
    s == "expand_sublink"@ ||
    s == "no_expand_sublink"@ ||
    s == "expand_sublink_having"@ ||
    s == "no_expand_sublink_having"@ ||
    s == "expand_sublink_target"@ ||
    s == "no_expand_sublink_target"@ ||
    s == "expand_sublink_unique_check"@ ||
    s == "no_expand_sublink_unique_check"@ ||
    s == "sublink_disable_replicated"@ ||
    s == "no_sublink_disable_replicated"@ ||
    s == "sublink_disable_expr"@ ||
    s == "no_sublink_disable_expr"@ ||
    s == "enable_sublink_enhanced"@ ||
    s == "no_enable_sublink_enhanced"@ ||
    s == "use_magic_set"@ ||
    s == "no_use_magic_set"@ ||
    s == "partial_push"@ ||
    s == "no_partial_push"@ ||
    s == "reduce_order_by"@ ||
    s == "no_reduce_order_by"@ ||
    s == "remove_not_null"@ ||
    s == "no_remove_not_null"@ ||
    s == "lazy_agg"@ ||
    s == "no_lazy_agg"@ ||
    s == "expand_subquery"@ ||
    s == "no_expand_subquery"@ ||
    s == "pushdown_having"@ ||
    s == "no_pushdown_having"@ ||
    s == "inlist_to_join"@ ||
    s == "no_inlist_to_join"@ ||
    s == "rownum_pushdown"@ ||
    s == "no_rownum_pushdown"@ ||
    s == "rows"@ ||
    s == "no_expand"@ ||
    s == "predpush_same_level"@ ||
    s == "nestloop_index"@ ||
    s == "skew"@ ||
    s == "no_skew"@ ||
    s == "index_paramsel"@
}

fn listed_known(s: &Vec<char>) -> (r: bool)
    ensures
        r == is_known_hint(s@),
{
    str_equals_chars("tablescan", s) ||
    str_equals_chars("indexscan", s) ||
    str_equals_chars("indexonlyscan", s) ||
    str_equals_chars("gsi", s) ||
    str_equals_chars("gsitable", s) ||
    str_equals_chars("bitmapscan", s) ||
    str_equals_chars("nestloop", s) ||
    str_equals_chars("hashjoin", s) ||
    str_equals_chars("mergejoin", s) ||
    str_equals_chars("leading", s) ||
    str_equals_chars("broadcast", s) ||
    str_equals_chars("redistribute", s) ||
    str_equals_chars("gather", s) ||
    str_equals_chars("use_hash_agg", s) ||
    str_equals_chars("use_sort_agg", s) ||
    str_equals_chars("set", s) ||
    str_equals_chars("use_cplan", s) ||
    str_equals_chars("use_gplan", s) ||
    str_equals_chars("choose_adaptive_gplan", s) ||
    str_equals_chars("no_gpc", s) ||
    str_equals_chars("material_subplan", s) ||
    str_equals_chars("begin_outline_data", s) ||
    str_equals_chars("end_outline_data", s) ||
    str_equals_chars("blockname", s) ||
    str_equals_chars("wlmrule", s) ||
    str_equals_chars("expand_sublink", s) ||
    str_equals_chars("no_expand_sublink", s) ||
    str_equals_chars("expand_sublink_having", s) ||
    str_equals_chars("no_expand_sublink_having", s) ||
    str_equals_chars("expand_sublink_target", s) ||
    str_equals_chars("no_expand_sublink_target", s) ||
    str_equals_chars("expand_sublink_unique_check", s) ||
    str_equals_chars("no_expand_sublink_unique_check", s) ||
    str_equals_chars("sublink_disable_replicated", s) ||
    str_equals_chars("no_sublink_disable_replicated", s) ||
    str_equals_chars("sublink_disable_expr", s) ||
    str_equals_chars("no_sublink_disable_expr", s) ||
    str_equals_chars("enable_sublink_enhanced", s) ||
    str_equals_chars("no_enable_sublink_enhanced", s) ||
    str_equals_chars("use_magic_set", s) ||
    str_equals_chars("no_use_magic_set", s) ||
    str_equals_chars("partial_push", s) ||
    str_equals_chars("no_partial_push", s) ||
    str_equals_chars("reduce_order_by", s) ||
    str_equals_chars("no_reduce_order_by", s) ||
    str_equals_chars("remove_not_null", s) ||
    str_equals_chars("no_remove_not_null", s) ||
    str_equals_chars("lazy_agg", s) ||
    str_equals_chars("no_lazy_agg", s) ||
    str_equals_chars("expand_subquery", s) ||
    str_equals_chars("no_expand_subquery", s) ||
    str_equals_chars("pushdown_having", s) ||
    str_equals_chars("no_pushdown_having", s) ||
    str_equals_chars("inlist_to_join", s) ||
    str_equals_chars("no_inlist_to_join", s) ||
    str_equals_chars("rownum_pushdown", s) ||
    str_equals_chars("no_rownum_pushdown", s) ||
    str_equals_chars("rows", s) ||
    str_equals_chars("no_expand", s) ||
    str_equals_chars("predpush_same_level", s) ||
    str_equals_chars("nestloop_index", s) ||
    str_equals_chars("skew", s) ||
    str_equals_chars("no_skew", s) ||
    str_equals_chars("index_paramsel", s)
}

/// Hints that need a parenthesized argument list.
pub open spec fn hint_takes_parens(s: Seq<char>) -> bool {
    s == "tablescan"@ ||
    s == "indexscan"@ ||
    s == "indexonlyscan"@ ||
    s == "gsi"@ ||
    s == "gsitable"@ ||
    s == "bitmapscan"@ ||
    s == "nestloop"@ ||
    s == "hashjoin"@ ||
    s == "mergejoin"@ ||
    s == "leading"@ ||
    s == "broadcast"@ ||
    s == "redistribute"@ ||
    s == "set"@ ||
    s == "blockname"@ ||
    s == "wlmrule"@ ||
    s == "rows"@ ||
    s == "predpush_same_level"@ ||
    s == "nestloop_index"@ ||
    s == "skew"@ ||
    s == "no_skew"@ ||
    s == "inlist_to_join"@ ||
    s == "index_paramsel"@
}

fn listed_with_parens(s: &Vec<char>) -> (r: bool)
    ensures
        r == hint_takes_parens(s@),
{
    str_equals_chars("tablescan", s) ||
    str_equals_chars("indexscan", s) ||
    str_equals_chars("indexonlyscan", s) ||
    str_equals_chars("gsi", s) ||
    str_equals_chars("gsitable", s) ||
    str_equals_chars("bitmapscan", s) ||
    str_equals_chars("nestloop", s) ||
    str_equals_chars("hashjoin", s) ||
    str_equals_chars("mergejoin", s) ||
    str_equals_chars("leading", s) ||
    str_equals_chars("broadcast", s) ||
    str_equals_chars("redistribute", s) ||
    str_equals_chars("set", s) ||
    str_equals_chars("blockname", s) ||
    str_equals_chars("wlmrule", s) ||
    str_equals_chars("rows", s) ||
    str_equals_chars("predpush_same_level", s) ||
    str_equals_chars("nestloop_index", s) ||
    str_equals_chars("skew", s) ||
    str_equals_chars("no_skew", s) ||
    str_equals_chars("inlist_to_join", s) ||
    str_equals_chars("index_paramsel", s)
}

/// Hints that may be negated with a `no` prefix.
pub open spec fn hint_allows_no_prefix(s: Seq<char>) -> bool {
    s == "tablescan"@ ||
    s == "indexscan"@ ||
    s == "indexonlyscan"@ ||
    s == "gsi"@ ||
    s == "gsitable"@ ||
    s == "bitmapscan"@ ||
    s == "nestloop"@ ||
    s == "hashjoin"@ ||
    s == "mergejoin"@ ||
    s == "broadcast"@ ||
    s == "redistribute"@
}

fn listed_no_prefix(s: &Vec<char>) -> (r: bool)
    ensures
        r == hint_allows_no_prefix(s@),
{
    str_equals_chars("tablescan", s) ||
    str_equals_chars("indexscan", s) ||
    str_equals_chars("indexonlyscan", s) ||
    str_equals_chars("gsi", s) ||
    str_equals_chars("gsitable", s) ||
    str_equals_chars("bitmapscan", s) ||
    str_equals_chars("nestloop", s) ||
    str_equals_chars("hashjoin", s) ||
    str_equals_chars("mergejoin", s) ||
    str_equals_chars("broadcast", s) ||
    str_equals_chars("redistribute", s)
}

/// Hints that take no parenthesized arguments.
pub open spec fn hint_without_parens(s: Seq<char>) -> bool {
    s == "use_hash_agg"@ ||
    s == "use_sort_agg"@ ||
    s == "use_cplan"@ ||
    s == "use_gplan"@ ||
    s == "choose_adaptive_gplan"@ ||
    s == "no_gpc"@ ||
    s == "material_subplan"@ ||
    s == "begin_outline_data"@ ||
    s == "end_outline_data"@ ||
    s == "no_expand"@ ||
    s == "expand_sublink"@ ||
    s == "no_expand_sublink"@ ||
    s == "expand_sublink_having"@ ||
    s == "no_expand_sublink_having"@ ||
    s == "expand_sublink_target"@ ||
    s == "no_expand_sublink_target"@ ||
    s == "expand_sublink_unique_check"@ ||
    s == "no_expand_sublink_unique_check"@ ||
    s == "sublink_disable_replicated"@ ||
    s == "no_sublink_disable_replicated"@ ||
    s == "sublink_disable_expr"@ ||
    s == "no_sublink_disable_expr"@ ||
    s == "enable_sublink_enhanced"@ ||
    s == "no_enable_sublink_enhanced"@ ||
    s == "use_magic_set"@ ||
    s == "no_use_magic_set"@ ||
    s == "partial_push"@ ||
    s == "no_partial_push"@ ||
    s == "reduce_order_by"@ ||
    s == "no_reduce_order_by"@ ||
    s == "remove_not_null"@ ||
    s == "no_remove_not_null"@ ||
    s == "lazy_agg"@ ||
    s == "no_lazy_agg"@ ||
    s == "expand_subquery"@ ||
    s == "no_expand_subquery"@ ||
    s == "pushdown_having"@ ||
    s == "no_pushdown_having"@ ||
    s == "rownum_pushdown"@ ||
    s == "no_rownum_pushdown"@
}

fn listed_without_parens(s: &Vec<char>) -> (r: bool)
    ensures
        r == hint_without_parens(s@),
{
    str_equals_chars("use_hash_agg", s) ||
    str_equals_chars("use_sort_agg", s) ||
    str_equals_chars("use_cplan", s) ||
    str_equals_chars("use_gplan", s) ||
    str_equals_chars("choose_adaptive_gplan", s) ||
    str_equals_chars("no_gpc", s) ||
    str_equals_chars("material_subplan", s) ||
    str_equals_chars("begin_outline_data", s) ||
    str_equals_chars("end_outline_data", s) ||
    str_equals_chars("no_expand", s) ||
    str_equals_chars("expand_sublink", s) ||
    str_equals_chars("no_expand_sublink", s) ||
    str_equals_chars("expand_sublink_having", s) ||
    str_equals_chars("no_expand_sublink_having", s) ||
    str_equals_chars("expand_sublink_target", s) ||
    str_equals_chars("no_expand_sublink_target", s) ||
    str_equals_chars("expand_sublink_unique_check", s) ||
    str_equals_chars("no_expand_sublink_unique_check", s) ||
    str_equals_chars("sublink_disable_replicated", s) ||
    str_equals_chars("no_sublink_disable_replicated", s) ||
    str_equals_chars("sublink_disable_expr", s) ||
    str_equals_chars("no_sublink_disable_expr", s) ||
    str_equals_chars("enable_sublink_enhanced", s) ||
    str_equals_chars("no_enable_sublink_enhanced", s) ||
    str_equals_chars("use_magic_set", s) ||
    str_equals_chars("no_use_magic_set", s) ||
    str_equals_chars("partial_push", s) ||
    str_equals_chars("no_partial_push", s) ||
    str_equals_chars("reduce_order_by", s) ||
    str_equals_chars("no_reduce_order_by", s) ||
    str_equals_chars("remove_not_null", s) ||
    str_equals_chars("no_remove_not_null", s) ||
    str_equals_chars("lazy_agg", s) ||
    str_equals_chars("no_lazy_agg", s) ||
    str_equals_chars("expand_subquery", s) ||
    str_equals_chars("no_expand_subquery", s) ||
    str_equals_chars("pushdown_having", s) ||
    str_equals_chars("no_pushdown_having", s) ||
    str_equals_chars("rownum_pushdown", s) ||
    str_equals_chars("no_rownum_pushdown", s)
}

// ────────────────────────────────────────────────────────────────
// Scanning the hint text
// ────────────────────────────────────────────────────────────────

/// One hint as written: name (after negation is resolved), whether it was negated,
/// an optional `@queryblock`, and the text between its parentheses.
#[derive(Debug)]
pub struct ParsedHint {
    pub name: String,
    pub negated: bool,
    pub queryblock: Option<String>,
    pub args: Option<String>,
}

/// The model of a hint: name, negated, query block, arguments.
pub type HintModel = (Seq<char>, bool, Option<Seq<char>>, Option<Seq<char>>);

pub open spec fn opt_view(o: Option<String>) -> Option<Seq<char>> {
    match o {
        Some(s) => Some(s@),
        None => None,
    }
}

pub open spec fn hint_model(h: ParsedHint) -> HintModel {
    (h.name@, h.negated, opt_view(h.queryblock), opt_view(h.args))
}

pub open spec fn hint_models(hs: Seq<ParsedHint>) -> Seq<HintModel> {
    hs.map_values(|h: ParsedHint| hint_model(h))
}

/// First index at or after `i` that is not white space.
pub open spec fn skip_ws(c: Seq<char>, i: int) -> int
    decreases c.len() - i,
{
    if 0 <= i < c.len() && is_white_space(c[i]) {
        skip_ws(c, i + 1)
    } else {
        i
    }
}

/// End of a hint name starting at `i`: the first `(`, `@` or white space.
pub open spec fn name_end(c: Seq<char>, i: int) -> int
    decreases c.len() - i,
{
    if 0 <= i < c.len() && c[i] != '(' && !is_white_space(c[i]) && c[i] != '@' {
        name_end(c, i + 1)
    } else {
        i
    }
}

/// End of a query block name starting at `i`: the first `(` or white space.
pub open spec fn block_end(c: Seq<char>, i: int) -> int
    decreases c.len() - i,
{
    if 0 <= i < c.len() && c[i] != '(' && !is_white_space(c[i]) {
        block_end(c, i + 1)
    } else {
        i
    }
}

/// First index at or after `i` that is white space, or `c.len()`.
pub open spec fn first_ws(c: Seq<char>, i: int) -> int
    decreases c.len() - i,
{
    if 0 <= i < c.len() && !is_white_space(c[i]) {
        first_ws(c, i + 1)
    } else {
        i
    }
}

/// Scans parenthesized text from `i` at nesting `depth`, collecting into `acc` the text
/// up to the parenthesis that closes the group. Returns the index after it and the text.
pub open spec fn paren_scan(c: Seq<char>, i: int, depth: nat, acc: Seq<char>) -> (int, Seq<char>)
    decreases c.len() - i,
{
    if i < 0 || i >= c.len() || depth == 0 {
        (i, acc)
    } else if c[i] == '(' {
        paren_scan(c, i + 1, depth + 1, acc.push('('))
    } else if c[i] == ')' {
        if depth > 1 {
            paren_scan(c, i + 1, (depth - 1) as nat, acc.push(')'))
        } else {
            paren_scan(c, i + 1, 0, acc)
        }
    } else {
        paren_scan(c, i + 1, depth, acc.push(c[i]))
    }
}

/// Index just past the last character of `s[..j]` that is not white space (0 if none).
pub open spec fn trim_end(s: Seq<char>, j: int) -> int
    decreases j,
{
    if j > 0 && is_white_space(s[j - 1]) {
        trim_end(s, j - 1)
    } else {
        j
    }
}

/// `s` without leading and trailing white space (`str::trim`).
pub open spec fn trim(s: Seq<char>) -> Seq<char> {
    let a = skip_ws(s, 0);
    let b = trim_end(s, s.len() as int);
    if a < b {
        s.subrange(a, b)
    } else {
        seq![]
    }
}

/// A query block written first inside the parentheses (`tablescan(@sel$1 t1)`):
/// the block name and the remaining arguments.
pub open spec fn split_queryblock(args: Seq<char>) -> Option<(Seq<char>, Seq<char>)> {
    let t = trim(args);
    if t.len() > 0 && t[0] == '@' {
        let rest = t.skip(1);
        let k = first_ws(rest, 0);
        if k < rest.len() {
            Some((seq!['@'] + rest.take(k), trim(rest.skip(k))))
        } else {
            None
        }
    } else {
        None
    }
}

/// The hint a lower-cased name stands for, and whether it is negated: `no x`, `no_x`
/// and `nox` negate `x`, except that a documented hint whose own name starts with
/// `no_` stays as it is, and the `nox` form only applies to hints that allow it.
pub open spec fn resolve_name(lower: Seq<char>) -> (Seq<char>, bool) {
    if lower.len() >= 3 && lower[0] == 'n' && lower[1] == 'o' && lower[2] == ' ' {
        (trim(lower.skip(3)), true)
    } else if lower.len() >= 3 && lower[0] == 'n' && lower[1] == 'o' && lower[2] == '_' && is_known_hint(lower) {
        (lower, false)
    } else if lower.len() >= 3 && lower[0] == 'n' && lower[1] == 'o' && lower[2] == '_' && is_known_hint(
        lower.skip(3),
    ) {
        (lower.skip(3), true)
    } else if lower.len() > 2 && lower[0] == 'n' && lower[1] == 'o' && hint_allows_no_prefix(lower.skip(2)) {
        (lower.skip(2), true)
    } else {
        (lower, false)
    }
}

/// The hint whose name starts at `start`, and the index after it; `None` when no name
/// starts there.
pub open spec fn hint_at(c: Seq<char>, start: int) -> Option<(int, HintModel)> {
    let ne = name_end(c, start);
    let name = c.subrange(start, ne);
    if name.len() == 0 {
        None
    } else {
        let has_block = ne < c.len() && c[ne] == '@';
        let qe = block_end(c, ne + 1);
        let block: Option<Seq<char>> = if has_block { Some(seq!['@'] + c.subrange(ne + 1, qe)) } else { None };
        let p1 = if has_block { qe } else { ne };
        let resolved = resolve_name(unicode_lowercase(name));
        if p1 < c.len() && c[p1] == '(' {
            let scanned = paren_scan(c, p1 + 1, 1, seq![]);
            let content = scanned.1;
            let (block2, args) = if block is None && split_queryblock(content) is Some {
                (Some(split_queryblock(content).unwrap().0), split_queryblock(content).unwrap().1)
            } else {
                (block, content)
            };
            Some((scanned.0, (resolved.0, resolved.1, block2, Some(args))))
        } else {
            Some((p1, (resolved.0, resolved.1, block, None)))
        }
    }
}

/// The hints of `c` from index `pos` on, after those already in `acc`.
pub open spec fn hints_from(c: Seq<char>, pos: int, acc: Seq<HintModel>) -> Seq<HintModel>
    decreases c.len() - pos,
{
    let s = skip_ws(c, pos);
    if pos < 0 || s >= c.len() {
        acc
    } else {
        match hint_at(c, s) {
            None => acc,
            Some((next, h)) => if pos < next <= c.len() {
                hints_from(c, next, acc.push(h))
            } else {
                acc
            },
        }
    }
}

/// All hints written in `content`.
pub open spec fn parsed_hints(content: Seq<char>) -> Seq<HintModel> {
    hints_from(content, 0, seq![])
}

proof fn lemma_skip_ws_bounds(c: Seq<char>, i: int)
    requires
        0 <= i <= c.len(),
    ensures
        i <= skip_ws(c, i) <= c.len(),
    decreases c.len() - i,
{
    if i < c.len() && is_white_space(c[i]) {
        lemma_skip_ws_bounds(c, i + 1);
    }
}

fn skip_whitespace(c: &Vec<char>, i: usize) -> (r: usize)
    requires
        i <= c.len(),
    ensures
        r == skip_ws(c@, i as int),
        i <= r <= c.len(),
{
    let mut j = i;
    while j < c.len() && is_whitespace(c[j])
        invariant
            i <= j <= c.len(),
            skip_ws(c@, i as int) == skip_ws(c@, j as int),
        decreases c.len() - j,
    {
        j = j + 1;
    }
    j
}

fn scan_name(c: &Vec<char>, i: usize) -> (r: usize)
    requires
        i <= c.len(),
    ensures
        r == name_end(c@, i as int),
        i <= r <= c.len(),
{
    let mut j = i;
    while j < c.len() && c[j] != '(' && !is_whitespace(c[j]) && c[j] != '@'
        invariant
            i <= j <= c.len(),
            name_end(c@, i as int) == name_end(c@, j as int),
        decreases c.len() - j,
    {
        j = j + 1;
    }
    j
}

fn scan_block(c: &Vec<char>, i: usize) -> (r: usize)
    requires
        i <= c.len(),
    ensures
        r == block_end(c@, i as int),
        i <= r <= c.len(),
{
    let mut j = i;
    while j < c.len() && c[j] != '(' && !is_whitespace(c[j])
        invariant
            i <= j <= c.len(),
            block_end(c@, i as int) == block_end(c@, j as int),
        decreases c.len() - j,
    {
        j = j + 1;
    }
    j
}

fn scan_first_ws(c: &Vec<char>, i: usize) -> (r: usize)
    requires
        i <= c.len(),
    ensures
        r == first_ws(c@, i as int),
        i <= r <= c.len(),
{
    let mut j = i;
    while j < c.len() && !is_whitespace(c[j])
        invariant
            i <= j <= c.len(),
            first_ws(c@, i as int) == first_ws(c@, j as int),
        decreases c.len() - j,
    {
        j = j + 1;
    }
    j
}

/// Scans the text inside a parenthesized group whose `(` is just before `i`.
fn scan_parens(c: &Vec<char>, i: usize) -> (r: (usize, Vec<char>))
    requires
        1 <= i <= c.len(),
    ensures
        (r.0 as int, r.1@) == paren_scan(c@, i as int, 1, seq![]),
        i <= r.0 <= c.len(),
{
    let mut pos = i;
    let mut depth: usize = 1;
    let mut content: Vec<char> = Vec::new();
    while pos < c.len() && depth > 0
        invariant
            1 <= i <= pos <= c.len(),
            depth <= pos - i + 1,
            paren_scan(c@, i as int, 1, seq![]) == paren_scan(c@, pos as int, depth as nat, content@),
        decreases c.len() - pos,
    {
        let ch = c[pos];
        if ch == '(' {
            depth = depth + 1;
            content.push('(');
        } else if ch == ')' {
            depth = depth - 1;
            if depth > 0 {
                content.push(')');
            }
        } else {
            content.push(ch);
        }
        pos = pos + 1;
    }
    (pos, content)
}

pub(crate) fn trim_chars(s: &Vec<char>) -> (r: Vec<char>)
    ensures
        r@ == trim(s@),
{
    let a = skip_whitespace(s, 0);
    let mut b = s.len();
    while b > 0 && is_whitespace(s[b - 1])
        invariant
            b <= s.len(),
            trim_end(s@, s.len() as int) == trim_end(s@, b as int),
        decreases b,
    {
        b = b - 1;
    }
    let mut r: Vec<char> = Vec::new();
    if a < b {
        let mut k = a;
        while k < b
            invariant
                a <= k <= b <= s.len(),
                r@ == s@.subrange(a as int, k as int),
            decreases b - k,
        {
            r.push(s[k]);
            assert(s@.subrange(a as int, k + 1) =~= s@.subrange(a as int, k as int).push(s@[k as int]));
            k = k + 1;
        }
    }
    r
}

fn subrange_chars(s: &Vec<char>, a: usize, b: usize) -> (r: Vec<char>)
    requires
        a <= b <= s.len(),
    ensures
        r@ == s@.subrange(a as int, b as int),
{
    let mut r: Vec<char> = Vec::new();
    let mut k = a;
    while k < b
        invariant
            a <= k <= b <= s.len(),
            r@ == s@.subrange(a as int, k as int),
        decreases b - k,
    {
        r.push(s[k]);
        assert(s@.subrange(a as int, k + 1) =~= s@.subrange(a as int, k as int).push(s@[k as int]));
        k = k + 1;
    }
    r
}

/// Splits a leading `@queryblock` off the argument text, when one is there.
fn take_queryblock(args: &Vec<char>) -> (r: Option<(Vec<char>, Vec<char>)>)
    ensures
        match r {
            Some((q, rest)) => split_queryblock(args@) == Some((q@, rest@)),
            None => split_queryblock(args@) is None,
        },
{
    let t = trim_chars(args);
    if t.len() > 0 && t[0] == '@' {
        let rest = subrange_chars(&t, 1, t.len());
        assert(rest@ =~= t@.skip(1));
        let k = scan_first_ws(&rest, 0);
        if k < rest.len() {
            let mut block: Vec<char> = Vec::new();
            block.push('@');
            let head = subrange_chars(&rest, 0, k);
            let mut j: usize = 0;
            while j < head.len()
                invariant
                    j <= head.len(),
                    block@ == seq!['@'] + head@.take(j as int),
                decreases head.len() - j,
            {
                block.push(head[j]);
                assert(head@.take(j + 1) =~= head@.take(j as int).push(head@[j as int]));
                j = j + 1;
            }
            assert(head@.take(head.len() as int) =~= head@);
            assert(head@ =~= rest@.take(k as int));
            let tail = subrange_chars(&rest, k, rest.len());
            assert(tail@ =~= rest@.skip(k as int));
            let trimmed = trim_chars(&tail);
            Some((block, trimmed))
        } else {
            None
        }
    } else {
        None
    }
}

fn starts_no(s: &Vec<char>, third: char) -> (r: bool)
    ensures
        r == (s@.len() >= 3 && s@[0] == 'n' && s@[1] == 'o' && s@[2] == third),
{
    s.len() >= 3 && s[0] == 'n' && s[1] == 'o' && s[2] == third
}

/// The hint a written name stands for, and whether it is negated.
pub fn resolve_name_and_negation(name: &str) -> (r: (String, bool))
    ensures
        (r.0@, r.1) == resolve_name(unicode_lowercase(name@)),
{
    let lowered = to_lowercase(name);
    let lower = chars_of(lowered.as_str());
    if starts_no(&lower, ' ') {
        let rest = subrange_chars(&lower, 3, lower.len());
        assert(rest@ =~= lower@.skip(3));
        let t = trim_chars(&rest);
        return (string_from_chars(&t), true);
    }
    if starts_no(&lower, '_') {
        if listed_known(&lower) {
            return (string_from_chars(&lower), false);
        }
        let base = subrange_chars(&lower, 3, lower.len());
        assert(base@ =~= lower@.skip(3));
        if listed_known(&base) {
            return (string_from_chars(&base), true);
        }
    }
    if lower.len() > 2 && lower[0] == 'n' && lower[1] == 'o' {
        let base = subrange_chars(&lower, 2, lower.len());
        assert(base@ =~= lower@.skip(2));
        if listed_no_prefix(&base) {
            return (string_from_chars(&base), true);
        }
    }
    (string_from_chars(&lower), false)
}

proof fn lemma_name_end_bounds(c: Seq<char>, i: int)
    requires
        0 <= i <= c.len(),
    ensures
        i <= name_end(c, i) <= c.len(),
    decreases c.len() - i,
{
    if i < c.len() && c[i] != '(' && !is_white_space(c[i]) && c[i] != '@' {
        lemma_name_end_bounds(c, i + 1);
    }
}

/// Splits hint text into its hints.
pub fn parse_hint_list(content: &str) -> (hints: Vec<ParsedHint>)
    ensures
        hint_models(hints@) == parsed_hints(content@),
{
    let mut hints: Vec<ParsedHint> = Vec::new();
    let chars = chars_of(content);
    let len = chars.len();
    let mut pos: usize = 0;
    assert(hint_models(hints@) =~= seq![]);

    while pos < len
        invariant
            len == chars@.len(),
            chars@ == content@,
            pos <= len,
            parsed_hints(content@) == hints_from(chars@, pos as int, hint_models(hints@)),
        ensures
            hints_from(chars@, pos as int, hint_models(hints@)) == hint_models(hints@),
        decreases len - pos,
    {
        let start = skip_whitespace(&chars, pos);
        if start >= len {
            break;
        }
        let ne = scan_name(&chars, start);
        let name_chars = subrange_chars(&chars, start, ne);
        if name_chars.len() == 0 {
            assert(hint_at(chars@, start as int) is None);
            break;
        }
        let mut queryblock: Option<String> = None;
        let mut p1 = ne;
        if ne < len && chars[ne] == '@' {
            let qe = scan_block(&chars, ne + 1);
            let mut qb: Vec<char> = Vec::new();
            qb.push('@');
            let body = subrange_chars(&chars, ne + 1, qe);
            let mut j: usize = 0;
            while j < body.len()
                invariant
                    j <= body.len(),
                    qb@ == seq!['@'] + body@.take(j as int),
                decreases body.len() - j,
            {
                qb.push(body[j]);
                assert(body@.take(j + 1) =~= body@.take(j as int).push(body@[j as int]));
                j = j + 1;
            }
            assert(body@.take(body.len() as int) =~= body@);
            queryblock = Some(string_from_chars(&qb));
            p1 = qe;
        }
        let name = string_from_chars(&name_chars);
        let (actual_name, negated) = resolve_name_and_negation(name.as_str());
        let mut args: Option<String> = None;
        let mut next = p1;
        if p1 < len && chars[p1] == '(' {
            let (end, content_chars) = scan_parens(&chars, p1 + 1);
            let mut arg_chars = content_chars;
            if queryblock.is_none() {
                match take_queryblock(&arg_chars) {
                    Some((qb, rest)) => {
                        queryblock = Some(string_from_chars(&qb));
                        arg_chars = rest;
                    },
                    None => {},
                }
            }
            args = Some(string_from_chars(&arg_chars));
            next = end;
        }
        let ghost before = hint_models(hints@);
        let hint = ParsedHint { name: actual_name, negated, queryblock, args };
        proof {
            lemma_skip_ws_bounds(chars@, pos as int);
        }
        assert(hint_at(chars@, start as int) == Some((next as int, hint_model(hint))));
        hints.push(hint);
        assert(hint_models(hints@) =~= before.push(hint_model(hint)));
        assert(pos < next <= len);
        pos = next;
    }
    hints
}

// ────────────────────────────────────────────────────────────────
// Checking each hint
// ────────────────────────────────────────────────────────────────

/// Number of white-space-separated words of `s[..n]`.
pub open spec fn word_count(s: Seq<char>, n: int) -> nat
    decreases n,
{
    if n <= 0 {
        0
    } else {
        word_count(s, n - 1) + if !is_white_space(s[n - 1]) && (n == 1 || is_white_space(s[n - 2])) {
            1nat
        } else {
            0nat
        }
    }
}

/// Number of occurrences of `ch` in `s[..n]`.
pub open spec fn count_char(s: Seq<char>, n: int, ch: char) -> nat
    decreases n,
{
    if n <= 0 {
        0
    } else {
        count_char(s, n - 1, ch) + if s[n - 1] == ch {
            1nat
        } else {
            0nat
        }
    }
}

pub open spec fn msg_unknown(n: Seq<char>) -> Seq<char> {
    "Unknown hint '"@ + n + "' — not in GaussDB documented hint list"@
}

pub open spec fn msg_no_negation(n: Seq<char>) -> Seq<char> {
    "Hint 'no "@ + n + "' does not support 'no' prefix negation"@
}

pub open spec fn msg_needs_parens(n: Seq<char>) -> Seq<char> {
    "Hint '"@ + n + "' requires parenthesized arguments, e.g. "@ + n + "(table_name)"@
}

pub open spec fn msg_no_parens(n: Seq<char>) -> Seq<char> {
    "Hint '"@ + n + "' does not take parenthesized arguments"@
}

pub open spec fn msg_wlmrule() -> Seq<char> {
    "Hint 'wlmrule' requires quoted argument: wlmrule(\"time_limit,max_execute_time,max_iops\")"@
}

pub open spec fn msg_set() -> Seq<char> {
    "Hint 'set' requires parameter name and value: set(param_name value)"@
}

pub open spec fn msg_leading_empty() -> Seq<char> {
    "Hint 'leading' requires at least one table name"@
}

pub open spec fn msg_leading_unbalanced() -> Seq<char> {
    "Hint 'leading' has unbalanced parentheses in table list"@
}

/// Whether `t` starts and ends with a double quote.
pub open spec fn is_quoted(t: Seq<char>) -> bool {
    t.len() > 0 && t[0] == '"' && t[t.len() - 1] == '"'
}

/// The warnings for one hint, in the order reported. An unknown hint gets only that
/// warning; a known one is checked for negation, parentheses and its own arguments.
pub open spec fn hint_messages(h: HintModel) -> Seq<Seq<char>> {
    let (n, negated, block, args) = h;
    if !is_known_hint(n) {
        seq![msg_unknown(n)]
    } else {
        (if negated && !hint_allows_no_prefix(n) { seq![msg_no_negation(n)] } else { seq![] })
            + (if hint_takes_parens(n) && args is None { seq![msg_needs_parens(n)] } else { seq![] })
            + (if !hint_takes_parens(n) && args is Some && hint_without_parens(n) { seq![msg_no_parens(n)] } else { seq![] })
            + (if n == "wlmrule"@ && args is Some && !is_quoted(trim(args.unwrap())) { seq![msg_wlmrule()] } else { seq![] })
            + (if n == "set"@ && args is Some && word_count(args.unwrap(), args.unwrap().len() as int) < 2 {
                seq![msg_set()]
            } else {
                seq![]
            })
            + (if n == "leading"@ && args is Some {
                let t = trim(args.unwrap());
                if t.len() == 0 {
                    seq![msg_leading_empty()]
                } else if count_char(t, t.len() as int, '(') != count_char(t, t.len() as int, ')') {
                    seq![msg_leading_unbalanced()]
                } else {
                    seq![]
                }
            } else {
                seq![]
            })
    }
}

/// The warnings for a list of hints, hint by hint.
pub open spec fn all_hint_messages(hs: Seq<HintModel>) -> Seq<Seq<char>>
    decreases hs.len(),
{
    if hs.len() == 0 {
        seq![]
    } else {
        all_hint_messages(hs.drop_last()) + hint_messages(hs.last())
    }
}

fn count_words(s: &Vec<char>) -> (r: usize)
    ensures
        r == word_count(s@, s@.len() as int),
{
    let mut n: usize = 0;
    let mut i: usize = 0;
    while i < s.len()
        invariant
            i <= s.len(),
            n == word_count(s@, i as int),
            n <= i,
        decreases s.len() - i,
    {
        if !is_whitespace(s[i]) && (i == 0 || is_whitespace(s[i - 1])) {
            n = n + 1;
        }
        i = i + 1;
    }
    n
}

fn count_occurrences(s: &Vec<char>, ch: char) -> (r: usize)
    ensures
        r == count_char(s@, s@.len() as int, ch),
{
    let mut n: usize = 0;
    let mut i: usize = 0;
    while i < s.len()
        invariant
            i <= s.len(),
            n == count_char(s@, i as int, ch),
            n <= i,
        decreases s.len() - i,
    {
        if s[i] == ch {
            n = n + 1;
        }
        i = i + 1;
    }
    n
}

fn add_hint_warning(w: &mut Vec<ParserError>, message: String, location: SourceLocation, Ghost(msgs): Ghost<Seq<Seq<char>>>)
    requires
        warnings_are(old(w)@, msgs, location),
    ensures
        warnings_are(final(w)@, msgs.push(message@), location),
{
    w.push(ParserError::warning(message, location));
    assert forall|i: int| 0 <= i < final(w)@.len() implies {
        &&& (#[trigger] final(w)@[i]) is Warning
        &&& final(w)@[i]->Warning_message@ == msgs.push(message@)[i]
        &&& final(w)@[i]->Warning_location == location
    } by {
        if i < old(w)@.len() {
            assert(final(w)@[i] == old(w)@[i]);
        }
    }
}

fn hint_name_message(head: &str, name: &str, tail: &str) -> (s: String)
    ensures
        s@ == head@ + name@ + tail@,
{
    let mut s = String::from_str(head);
    s.append(name);
    s.append(tail);
    s
}

/// The warnings for one hint.
fn validate_single_hint(hint: &ParsedHint, location: SourceLocation) -> (w: Vec<ParserError>)
    ensures
        warnings_are(w@, hint_messages(hint_model(*hint)), location),
{
    let mut w: Vec<ParserError> = Vec::new();
    let ghost mut msgs: Seq<Seq<char>> = seq![];
    let name_chars = chars_of(hint.name.as_str());
    let name = hint.name.as_str();

    if !listed_known(&name_chars) {
        let m = hint_name_message("Unknown hint '", name, "' — not in GaussDB documented hint list");
        add_hint_warning(&mut w, m, location, Ghost(msgs));
        assert(msgs.push(msg_unknown(hint.name@)) =~= hint_messages(hint_model(*hint)));
        return w;
    }
    if hint.negated && !listed_no_prefix(&name_chars) {
        let m = hint_name_message("Hint 'no ", name, "' does not support 'no' prefix negation");
        add_hint_warning(&mut w, m, location, Ghost(msgs));
        proof { msgs = msgs.push(msg_no_negation(hint.name@)); }
    }
    let needs_parens = listed_with_parens(&name_chars);
    if needs_parens && hint.args.is_none() {
        let mut m = hint_name_message("Hint '", name, "' requires parenthesized arguments, e.g. ");
        m.append(name);
        m.append("(table_name)");
        add_hint_warning(&mut w, m, location, Ghost(msgs));
        proof { msgs = msgs.push(msg_needs_parens(hint.name@)); }
    }
    if !needs_parens && hint.args.is_some() && listed_without_parens(&name_chars) {
        let m = hint_name_message("Hint '", name, "' does not take parenthesized arguments");
        add_hint_warning(&mut w, m, location, Ghost(msgs));
        proof { msgs = msgs.push(msg_no_parens(hint.name@)); }
    }
    if str_equals_chars("wlmrule", &name_chars) {
        if let Some(args) = &hint.args {
            let trimmed = trim_chars(&chars_of(args.as_str()));
            let quoted = trimmed.len() > 0 && trimmed[0] == '"' && trimmed[trimmed.len() - 1] == '"';
            if !quoted {
                let m = String::from_str(
                    "Hint 'wlmrule' requires quoted argument: wlmrule(\"time_limit,max_execute_time,max_iops\")",
                );
                add_hint_warning(&mut w, m, location, Ghost(msgs));
                proof { msgs = msgs.push(msg_wlmrule()); }
            }
        }
    }
    if str_equals_chars("set", &name_chars) {
        if let Some(args) = &hint.args {
            if count_words(&chars_of(args.as_str())) < 2 {
                let m = String::from_str("Hint 'set' requires parameter name and value: set(param_name value)");
                add_hint_warning(&mut w, m, location, Ghost(msgs));
                proof { msgs = msgs.push(msg_set()); }
            }
        }
    }
    if str_equals_chars("leading", &name_chars) {
        if let Some(args) = &hint.args {
            let trimmed = trim_chars(&chars_of(args.as_str()));
            if trimmed.len() == 0 {
                let m = String::from_str("Hint 'leading' requires at least one table name");
                add_hint_warning(&mut w, m, location, Ghost(msgs));
                proof { msgs = msgs.push(msg_leading_empty()); }
            } else {
                let open = count_occurrences(&trimmed, '(');
                let close = count_occurrences(&trimmed, ')');
                if open != close {
                    let m = String::from_str("Hint 'leading' has unbalanced parentheses in table list");
                    add_hint_warning(&mut w, m, location, Ghost(msgs));
                    proof { msgs = msgs.push(msg_leading_unbalanced()); }
                }
            }
        }
    }
    assert(msgs =~= hint_messages(hint_model(*hint)));
    w
}

/// Checks every hint of `hint_content` and returns the warnings (if any).
pub fn validate_hints(hint_content: &str, location: SourceLocation) -> (w: Vec<ParserError>)
    ensures
        warnings_are(w@, all_hint_messages(parsed_hints(hint_content@)), location),
{
    let hints = parse_hint_list(hint_content);
    let mut warnings: Vec<ParserError> = Vec::new();
    let mut i: usize = 0;
    while i < hints.len()
        invariant
            i <= hints.len(),
            hint_models(hints@) == parsed_hints(hint_content@),
            warnings_are(warnings@, all_hint_messages(hint_models(hints@).take(i as int)), location),
        decreases hints.len() - i,
    {
        let mut more = validate_single_hint(&hints[i], location);
        let ghost before = warnings@;
        let ghost more_v = more@;
        warnings.append(&mut more);
        proof {
            let hs = hint_models(hints@);
            assert(hs.take(i + 1).drop_last() =~= hs.take(i as int));
            assert(hs.take(i + 1).last() == hint_model(hints@[i as int]));
            lemma_warnings_concat(
                before,
                all_hint_messages(hs.take(i as int)),
                more_v,
                hint_messages(hint_model(hints@[i as int])),
                location,
            );
        }
        i = i + 1;
    }
    assert(hint_models(hints@).take(hints.len() as int) =~= hint_models(hints@));
    warnings
}

// ────────────────────────────────────────────────────────────────
// Laws
// ────────────────────────────────────────────────────────────────

/// A hint that is not in the documented list draws exactly one warning, whatever its
/// arguments or negation.
pub proof fn law_unknown_hint_single_warning(h: HintModel)
    requires
        !is_known_hint(h.0),
    ensures
        hint_messages(h) == seq![msg_unknown(h.0)],
{
}

/// A known hint written without arguments and without a `no` prefix it does not allow
/// draws no warning, unless it needs parenthesized arguments.
pub proof fn law_plain_known_hint_is_accepted(n: Seq<char>, negated: bool, block: Option<Seq<char>>)
    requires
        is_known_hint(n),
        !hint_takes_parens(n),
        negated ==> hint_allows_no_prefix(n),
    ensures
        hint_messages((n, negated, block, None)) == Seq::<Seq<char>>::empty(),
{
    assert(hint_messages((n, negated, block, None)) =~= Seq::<Seq<char>>::empty());
}

/// The warnings for a list of hints are those of its parts, one after the other: each
/// hint is checked on its own.
pub proof fn law_hint_warnings_concatenate(a: Seq<HintModel>, b: Seq<HintModel>)
    ensures
        all_hint_messages(a + b) == all_hint_messages(a) + all_hint_messages(b),
    decreases b.len(),
{
    if b.len() == 0 {
        assert(a + b =~= a);
        assert(all_hint_messages(a) + all_hint_messages(b) =~= all_hint_messages(a));
    } else {
        law_hint_warnings_concatenate(a, b.drop_last());
        assert((a + b).drop_last() =~= a + b.drop_last());
        assert((a + b).last() == b.last());
        assert(all_hint_messages(a + b) =~= all_hint_messages(a) + all_hint_messages(b.drop_last()) + hint_messages(b.last()));
    }
}


// ────────────────────────────────────────────────────────────────
// Hints in joined text
// ────────────────────────────────────────────────────────────────

/// `c` continues with `b` from `off` on.
pub open spec fn ends_with_at(c: Seq<char>, b: Seq<char>, off: int) -> bool {
    0 <= off && c.len() == off + b.len() && forall|k: int| 0 <= k < b.len() ==> c[off + k] == b[k]
}

proof fn lemma_shift_skip_ws(c: Seq<char>, b: Seq<char>, off: int, i: int)
    requires
        ends_with_at(c, b, off),
        off <= i <= c.len(),
    ensures
        skip_ws(c, i) == skip_ws(b, i - off) + off,
    decreases c.len() - i,
{
    if i < c.len() {
        assert(c[i] == b[i - off]);
        if is_white_space(c[i]) {
            lemma_shift_skip_ws(c, b, off, i + 1);
        }
    }
}

proof fn lemma_shift_name_end(c: Seq<char>, b: Seq<char>, off: int, i: int)
    requires
        ends_with_at(c, b, off),
        off <= i <= c.len(),
    ensures
        name_end(c, i) == name_end(b, i - off) + off,
    decreases c.len() - i,
{
    if i < c.len() {
        assert(c[i] == b[i - off]);
        lemma_shift_name_end(c, b, off, i + 1);
    }
}

proof fn lemma_shift_block_end(c: Seq<char>, b: Seq<char>, off: int, i: int)
    requires
        ends_with_at(c, b, off),
        off <= i <= c.len(),
    ensures
        block_end(c, i) == block_end(b, i - off) + off,
    decreases c.len() - i,
{
    if i < c.len() {
        assert(c[i] == b[i - off]);
        lemma_shift_block_end(c, b, off, i + 1);
    }
}

proof fn lemma_shift_paren_scan(c: Seq<char>, b: Seq<char>, off: int, i: int, depth: nat, acc: Seq<char>)
    requires
        ends_with_at(c, b, off),
        off <= i <= c.len(),
    ensures
        paren_scan(c, i, depth, acc) == (paren_scan(b, i - off, depth, acc).0 + off, paren_scan(b, i - off, depth, acc).1),
    decreases c.len() - i,
{
    if i < c.len() && depth > 0 {
        assert(c[i] == b[i - off]);
        if c[i] == '(' {
            lemma_shift_paren_scan(c, b, off, i + 1, depth + 1, acc.push('('));
        } else if c[i] == ')' {
            if depth > 1 {
                lemma_shift_paren_scan(c, b, off, i + 1, (depth - 1) as nat, acc.push(')'));
            } else {
                lemma_shift_paren_scan(c, b, off, i + 1, 0, acc);
            }
        } else {
            lemma_shift_paren_scan(c, b, off, i + 1, depth, acc.push(c[i]));
        }
    }
}

proof fn lemma_shift_subrange(c: Seq<char>, b: Seq<char>, off: int, x: int, y: int)
    requires
        ends_with_at(c, b, off),
        off <= x <= y <= c.len(),
    ensures
        c.subrange(x, y) == b.subrange(x - off, y - off),
{
    assert(c.subrange(x, y) =~= b.subrange(x - off, y - off));
}

proof fn lemma_shift_hint_at(c: Seq<char>, b: Seq<char>, off: int, s: int)
    requires
        ends_with_at(c, b, off),
        off <= s < c.len(),
    ensures
        hint_at(c, s) == match hint_at(b, s - off) {
            Some((e, h)) => Some((e + off, h)),
            None => None,
        },
{
    lemma_shift_name_end(c, b, off, s);
    let ne = name_end(c, s);
    lemma_name_end_bounds(c, s);
    lemma_shift_subrange(c, b, off, s, ne);
    if ne < c.len() {
        assert(c[ne] == b[ne - off]);
    }
    if ne + 1 <= c.len() {
        lemma_shift_block_end(c, b, off, ne + 1);
        let qe = block_end(c, ne + 1);
        lemma_block_end_bounds(c, ne + 1);
        lemma_shift_subrange(c, b, off, ne + 1, qe);
    }
    let has_block = ne < c.len() && c[ne] == '@';
    let p1 = if has_block { block_end(c, ne + 1) } else { ne };
    if p1 < c.len() {
        assert(c[p1] == b[p1 - off]);
        if c[p1] == '(' {
            lemma_shift_paren_scan(c, b, off, p1 + 1, 1, seq![]);
        }
    }
}

proof fn lemma_block_end_bounds(c: Seq<char>, i: int)
    requires
        0 <= i <= c.len(),
    ensures
        i <= block_end(c, i) <= c.len(),
    decreases c.len() - i,
{
    if i < c.len() {
        lemma_block_end_bounds(c, i + 1);
    }
}

proof fn lemma_shift_hints_from(c: Seq<char>, b: Seq<char>, off: int, pos: int, acc: Seq<HintModel>)
    requires
        ends_with_at(c, b, off),
        off <= pos <= c.len(),
    ensures
        hints_from(c, pos, acc) == hints_from(b, pos - off, acc),
    decreases c.len() - pos,
{
    lemma_shift_skip_ws(c, b, off, pos);
    lemma_skip_ws_bounds(c, pos);
    let s = skip_ws(c, pos);
    if s < c.len() {
        lemma_shift_hint_at(c, b, off, s);
        match hint_at(c, s) {
            None => {},
            Some((next, h)) => {
                if pos < next <= c.len() {
                    lemma_shift_hints_from(c, b, off, next, acc.push(h));
                }
            },
        }
    }
}

proof fn lemma_paren_scan_bounds(c: Seq<char>, i: int, depth: nat, acc: Seq<char>)
    requires
        0 <= i <= c.len(),
    ensures
        i <= paren_scan(c, i, depth, acc).0 <= c.len(),
    decreases c.len() - i,
{
    if i < c.len() && depth > 0 {
        if c[i] == '(' {
            lemma_paren_scan_bounds(c, i + 1, depth + 1, acc.push('('));
        } else if c[i] == ')' {
            if depth > 1 {
                lemma_paren_scan_bounds(c, i + 1, (depth - 1) as nat, acc.push(')'));
            } else {
                lemma_paren_scan_bounds(c, i + 1, 0, acc);
            }
        } else {
            lemma_paren_scan_bounds(c, i + 1, depth, acc.push(c[i]));
        }
    }
}

proof fn lemma_hint_at_end(c: Seq<char>, s: int)
    requires
        0 <= s < c.len(),
        hint_at(c, s) is Some,
    ensures
        s < hint_at(c, s)->Some_0.0 <= c.len(),
{
    lemma_name_end_bounds(c, s);
    let ne = name_end(c, s);
    assert(c.subrange(s, ne).len() > 0);
    let has_block = ne < c.len() && c[ne] == '@';
    if has_block {
        lemma_block_end_bounds(c, ne + 1);
    }
    let p1 = if has_block { block_end(c, ne + 1) } else { ne };
    if p1 < c.len() && c[p1] == '(' {
        lemma_paren_scan_bounds(c, p1 + 1, 1, seq![]);
    }
}

/// `c` is `a` followed by a space and more text.
pub open spec fn space_after_prefix(c: Seq<char>, a: Seq<char>) -> bool {
    &&& a.len() < c.len()
    &&& forall|k: int| 0 <= k < a.len() ==> c[k] == a[k]
    &&& c[a.len() as int] == ' '
}

/// The parenthesized group scanned from `i` at nesting `depth` closes within `a`.
pub open spec fn paren_closes(a: Seq<char>, i: int, depth: nat) -> bool
    decreases a.len() - i,
{
    if depth == 0 {
        true
    } else if i < 0 || i >= a.len() {
        false
    } else if a[i] == '(' {
        paren_closes(a, i + 1, depth + 1)
    } else if a[i] == ')' {
        if depth > 1 { paren_closes(a, i + 1, (depth - 1) as nat) } else { true }
    } else {
        paren_closes(a, i + 1, depth)
    }
}

/// The hint whose name starts at `s` closes its argument parentheses within `a`.
pub open spec fn hint_closes(a: Seq<char>, s: int) -> bool {
    let ne = name_end(a, s);
    let has_block = ne < a.len() && a[ne] == '@';
    let p1 = if has_block { block_end(a, ne + 1) } else { ne };
    p1 < a.len() && a[p1] == '(' ==> paren_closes(a, p1 + 1, 1)
}

/// The text `a` from `pos` on is a sequence of hints, each a name (with an optional query
/// block) and optionally arguments in balanced parentheses, separated by white space.
pub open spec fn hints_well_formed(a: Seq<char>, pos: int) -> bool
    decreases a.len() - pos,
{
    let s = skip_ws(a, pos);
    if pos < 0 || pos > a.len() {
        false
    } else if s >= a.len() {
        true
    } else {
        match hint_at(a, s) {
            None => false,
            Some((next, _)) => hint_closes(a, s) && pos < next <= a.len() && hints_well_formed(a, next),
        }
    }
}

proof fn lemma_prefix_name_end(c: Seq<char>, a: Seq<char>, i: int)
    requires
        space_after_prefix(c, a),
        0 <= i <= a.len(),
    ensures
        name_end(c, i) == name_end(a, i),
    decreases a.len() - i,
{
    if i < a.len() {
        assert(c[i] == a[i]);
        lemma_prefix_name_end(c, a, i + 1);
    }
}

proof fn lemma_prefix_block_end(c: Seq<char>, a: Seq<char>, i: int)
    requires
        space_after_prefix(c, a),
        0 <= i <= a.len(),
    ensures
        block_end(c, i) == block_end(a, i),
    decreases a.len() - i,
{
    if i < a.len() {
        assert(c[i] == a[i]);
        lemma_prefix_block_end(c, a, i + 1);
    }
}

proof fn lemma_prefix_paren_scan(c: Seq<char>, a: Seq<char>, i: int, depth: nat, acc: Seq<char>)
    requires
        space_after_prefix(c, a),
        0 <= i <= a.len(),
        paren_closes(a, i, depth),
    ensures
        paren_scan(c, i, depth, acc) == paren_scan(a, i, depth, acc),
    decreases a.len() - i,
{
    if depth > 0 && i < a.len() {
        assert(c[i] == a[i]);
        if a[i] == '(' {
            lemma_prefix_paren_scan(c, a, i + 1, depth + 1, acc.push('('));
        } else if a[i] == ')' {
            if depth > 1 {
                lemma_prefix_paren_scan(c, a, i + 1, (depth - 1) as nat, acc.push(')'));
            } else {
                assert(paren_scan(c, i + 1, 0, acc) == (i + 1, acc));
                assert(paren_scan(a, i + 1, 0, acc) == (i + 1, acc));
            }
        } else {
            lemma_prefix_paren_scan(c, a, i + 1, depth, acc.push(a[i]));
        }
    }
}

proof fn lemma_prefix_skip_ws(c: Seq<char>, a: Seq<char>, i: int)
    requires
        space_after_prefix(c, a),
        0 <= i <= a.len(),
    ensures
        skip_ws(a, i) < a.len() ==> skip_ws(c, i) == skip_ws(a, i),
        skip_ws(a, i) >= a.len() ==> skip_ws(c, i) == skip_ws(c, a.len() as int),
    decreases a.len() - i,
{
    if i < a.len() {
        assert(c[i] == a[i]);
        if is_white_space(a[i]) {
            lemma_prefix_skip_ws(c, a, i + 1);
        }
    }
}

proof fn lemma_prefix_hint_at(c: Seq<char>, a: Seq<char>, s: int)
    requires
        space_after_prefix(c, a),
        0 <= s < a.len(),
        hint_closes(a, s),
    ensures
        hint_at(c, s) == hint_at(a, s),
{
    lemma_prefix_name_end(c, a, s);
    lemma_name_end_bounds(a, s);
    let ne = name_end(a, s);
    assert(c.subrange(s, ne) =~= a.subrange(s, ne));
    if ne < a.len() {
        assert(c[ne] == a[ne]);
        if a[ne] == '@' {
            lemma_prefix_block_end(c, a, ne + 1);
            lemma_block_end_bounds(a, ne + 1);
            let qe = block_end(a, ne + 1);
            assert(c.subrange(ne + 1, qe) =~= a.subrange(ne + 1, qe));
        }
    }
    let has_block = ne < a.len() && a[ne] == '@';
    let p1 = if has_block { block_end(a, ne + 1) } else { ne };
    if p1 < a.len() {
        assert(c[p1] == a[p1]);
        if a[p1] == '(' {
            lemma_prefix_paren_scan(c, a, p1 + 1, 1, seq![]);
        }
    }
}

proof fn lemma_prefix_hints_from(c: Seq<char>, a: Seq<char>, pos: int, acc: Seq<HintModel>)
    requires
        space_after_prefix(c, a),
        hints_well_formed(a, pos),
    ensures
        hints_from(c, pos, acc) == hints_from(c, a.len() as int, hints_from(a, pos, acc)),
    decreases a.len() - pos,
{
    lemma_prefix_skip_ws(c, a, pos);
    lemma_skip_ws_bounds(a, pos);
    let sa = skip_ws(a, pos);
    if sa >= a.len() {
        lemma_junction_same(c, a, pos, acc);
    } else {
        lemma_prefix_hint_at(c, a, sa);
        let (next, h) = hint_at(a, sa)->Some_0;
        lemma_prefix_hints_from(c, a, next, acc.push(h));
    }
}

/// From `pos`, where only white space is left of `a`, the hints of `c` are those from the
/// end of `a` on.
proof fn lemma_junction_same(c: Seq<char>, a: Seq<char>, pos: int, acc: Seq<HintModel>)
    requires
        space_after_prefix(c, a),
        0 <= pos <= a.len(),
        skip_ws(c, pos) == skip_ws(c, a.len() as int),
    ensures
        hints_from(c, pos, acc) == hints_from(c, a.len() as int, acc),
{
    lemma_skip_ws_bounds(c, a.len() as int);
    let s = skip_ws(c, pos);
    assert(is_white_space(c[a.len() as int]));
    assert(skip_ws(c, a.len() as int) == skip_ws(c, (a.len() + 1) as int));
    lemma_skip_ws_bounds(c, (a.len() + 1) as int);
    if s < c.len() && hint_at(c, s) is Some {
        lemma_hint_at_end(c, s);
    }
}

/// The hints of `b` after those of `acc`: the list starts with `acc`.
proof fn lemma_hints_from_acc(c: Seq<char>, pos: int, acc: Seq<HintModel>)
    ensures
        hints_from(c, pos, acc) == acc + hints_from(c, pos, Seq::empty()),
    decreases c.len() - pos,
{
    let s = skip_ws(c, pos);
    if pos < 0 || s >= c.len() {
        assert(acc + Seq::<HintModel>::empty() =~= acc);
    } else {
        match hint_at(c, s) {
            None => {
                assert(acc + Seq::<HintModel>::empty() =~= acc);
            },
            Some((next, h)) => if pos < next <= c.len() {
                lemma_hints_from_acc(c, next, acc.push(h));
                lemma_hints_from_acc(c, next, Seq::<HintModel>::empty().push(h));
                assert(acc.push(h) =~= acc + Seq::<HintModel>::empty().push(h));
                assert(acc + (Seq::<HintModel>::empty().push(h) + hints_from(c, next, Seq::empty()))
                    =~= acc.push(h) + hints_from(c, next, Seq::empty()));
            } else {
                assert(acc + Seq::<HintModel>::empty() =~= acc);
            },
        }
    }
}

/// Hints in text joined by a space are the hints of the first part followed by those of
/// the second, where the first part is a sequence of hints with balanced parentheses.
pub proof fn law_hints_of_joined_text(a: Seq<char>, b: Seq<char>)
    requires
        hints_well_formed(a, 0),
    ensures
        parsed_hints(a + seq![' '] + b) == parsed_hints(a) + parsed_hints(b),
        all_hint_messages(parsed_hints(a + seq![' '] + b))
            == all_hint_messages(parsed_hints(a)) + all_hint_messages(parsed_hints(b)),
{
    let c = a + seq![' '] + b;
    assert(space_after_prefix(c, a));
    lemma_prefix_hints_from(c, a, 0, Seq::empty());
    let pa = parsed_hints(a);
    let off = (a.len() + 1) as int;
    assert(ends_with_at(c, b, off));
    // from the end of `a`: the space is skipped, and the rest is `b`
    lemma_skip_ws_bounds(c, (a.len() + 1) as int);
    assert(is_white_space(c[a.len() as int]));
    assert(skip_ws(c, a.len() as int) == skip_ws(c, (a.len() + 1) as int));
    let s = skip_ws(c, a.len() as int);
    if s < c.len() && hint_at(c, s) is Some {
        lemma_hint_at_end(c, s);
    }
    assert(hints_from(c, a.len() as int, pa) == hints_from(c, (a.len() + 1) as int, pa));
    lemma_shift_hints_from(c, b, off, off, pa);
    lemma_hints_from_acc(b, 0, pa);
    law_hint_warnings_concatenate(parsed_hints(a), parsed_hints(b));
}

/// `no_` before a known hint negates it: where `x` is a known hint and `no_x` is not one
/// itself, the name `no_x` stands for the hint `x`, negated.
pub proof fn law_no_underscore_prefix_negates(x: Seq<char>)
    requires
        is_known_hint(x),
        !is_known_hint(seq!['n', 'o', '_'] + x),
    ensures
        resolve_name(seq!['n', 'o', '_'] + x) == (x, true),
{
    let l = seq!['n', 'o', '_'] + x;
    assert(l[0] == 'n' && l[1] == 'o' && l[2] == '_');
    assert(l.skip(3) =~= x);
}

/// `no ` before a name negates it: the name `no x` stands for `x` (trimmed), negated.
pub proof fn law_no_space_prefix_negates(x: Seq<char>)
    ensures
        resolve_name(seq!['n', 'o', ' '] + x) == (trim(x), true),
{
    let l = seq!['n', 'o', ' '] + x;
    assert(l[0] == 'n' && l[1] == 'o' && l[2] == ' ');
    assert(l.skip(3) =~= x);
}

/// A name is read as negated only where it starts with `no`.
pub proof fn law_negation_needs_no_prefix(lower: Seq<char>)
    ensures
        resolve_name(lower).1 ==> lower.len() >= 2 && lower[0] == 'n' && lower[1] == 'o',
{
}

/// `no` directly before a scan hint that takes it negates that hint: `notablescan` stands
/// for `tablescan`, negated.
pub proof fn law_no_before_scan_hint_negates(x: Seq<char>)
    requires
        x.len() > 0,
        x[0] != ' ',
        x[0] != '_',
        hint_allows_no_prefix(x),
    ensures
        resolve_name(seq!['n', 'o'] + x) == (x, true),
{
    let l = seq!['n', 'o'] + x;
    assert(l[0] == 'n' && l[1] == 'o' && l[2] == x[0]);
    assert(l.skip(2) =~= x);
}

} // verus!
