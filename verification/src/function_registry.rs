//! Function registry for openGauss built-in function recognition.
//!
//! Provides metadata lookup (`lookup_function`) and validation (`validate_function_call`)
//! for built-in functions. The core layer is the fixed table of `function_table`; the
//! extension layer holds entries supplied at run time, which take priority over the core.
use vstd::prelude::*;
use crate::ast::{BuiltinFuncMeta, ObjectName};
use crate::error::{ParserError, SourceLocation, warnings_are};
use crate::function_table::{
    builtin_function_table, builtin_functions, law_builtin_names_lower_case, law_builtin_names_unique, no_ascii_upper,
};
use crate::text::{
    ascii_lower, ascii_lower_char, ascii_lowercase_chars, is_ascii_upper, chars_equal, chars_of, concat_str, decimal, push_decimal,
    str_equals_chars, string_from_chars, to_lowercase, unicode_lowercase, all_ascii,
};

verus! {

// ────────────────────────────────────────────────────────────────
// Types
// ────────────────────────────────────────────────────────────────

#[derive(Debug, Clone, Copy, PartialEq, Eq, Structural)]
pub enum FuncCategory {
    Aggregate,
    Window,
    Scalar,
    SetReturning,
    Special,
    TypeConstructor,
}

#[derive(Debug, Clone, Copy, PartialEq, Eq, Structural)]
pub enum FuncDomain {
    Math,
    String,
    DateTime,
    Aggregate,
    Window,
    Array,
    Json,
    Network,
    Geometric,
    Hash,
    Range,
    TextSearch,
    Crypto,
    System,
    ExceptionContext,
    TypeConversion,
    OracleCompat,
    DbeApplicationInfo,
    DbeFile,
    DbeLob,
    DbeMatch,
    DbeOutput,
    DbeRandom,
    DbeRaw,
    DbeScheduler,
    DbeSession,
    DbeSql,
    DbeSqlUtil,
    DbeStats,
    DbeTask,
    DbeUtility,
    DbeXmlDom,
    DbeXmlParser,
    DbmsLob,
    DbmsOutput,
    DbmsScheduler,
    DbmsSql,
    DbmsUtility,
    PkgService,
    PkgUtil,
    UtlFile,
    Xml,
    Ai,
    Other,
}

/// The SQL syntax formats (A, B, PG) that a function is available in, as a bit set.
#[derive(Debug, Clone, Copy, PartialEq, Eq, Structural)]
pub struct CompatMode(pub u8);

#[allow(non_snake_case)]
impl CompatMode {
    /// Oracle-compatible format.
    pub fn A_FORMAT() -> (r: CompatMode)
        ensures
            r == CompatMode(0x01),
    {
        CompatMode(0x01)
    }

    /// MySQL-compatible format.
    pub fn B_FORMAT() -> (r: CompatMode)
        ensures
            r == CompatMode(0x02),
    {
        CompatMode(0x02)
    }

    /// PostgreSQL-compatible format.
    pub fn PG_FORMAT() -> (r: CompatMode)
        ensures
            r == CompatMode(0x04),
    {
        CompatMode(0x04)
    }

    /// All three formats.
    pub fn ALL() -> (r: CompatMode)
        ensures
            r == CompatMode(0x07),
    {
        CompatMode(0x07)
    }

    /// True if the two sets share a format.
    pub fn contains(self, other: CompatMode) -> (r: bool)
        ensures
            r == (self.0 & other.0 != 0),
    {
        (self.0 & other.0) != 0
    }
}

impl core::ops::BitOr for CompatMode {
    type Output = Self;

    fn bitor(self, rhs: Self) -> (r: Self) {
        CompatMode(self.0 | rhs.0)
    }
}

impl vstd::std_specs::ops::BitOrSpecImpl for CompatMode {
    open spec fn obeys_bitor_spec() -> bool {
        true
    }

    open spec fn bitor_req(self, rhs: CompatMode) -> bool {
        true
    }

    open spec fn bitor_spec(self, rhs: CompatMode) -> CompatMode {
        CompatMode(self.0 | rhs.0)
    }
}

/// Distribution origin — which database products ship a function.
/// An orthogonal dimension to `CompatMode`, which tracks the A/B/PG syntax format.
#[derive(Debug, Clone, Copy, PartialEq, Eq, Structural)]
pub struct Distribution(pub u8);

#[allow(non_snake_case)]
impl Distribution {
    /// Present in open-source openGauss.
    pub fn OPENGAUSS() -> (r: Distribution)
        ensures
            r == Distribution(0x01),
    {
        Distribution(0x01)
    }

    /// Present in commercial GaussDB.
    pub fn GAUSSDB() -> (r: Distribution)
        ensures
            r == Distribution(0x02),
    {
        Distribution(0x02)
    }

    /// Present in both.
    pub fn BOTH() -> (r: Distribution)
        ensures
            r == Distribution(0x03),
    {
        Distribution(0x03)
    }

    /// Returns true if this distribution includes the given product.
    pub fn contains(self, other: Distribution) -> (r: bool)
        ensures
            r == (self.0 & other.0 != 0),
    {
        (self.0 & other.0) != 0
    }

    /// True if the function is only in commercial GaussDB, not in open-source openGauss.
    pub fn is_commercial_only(self) -> (r: bool)
        ensures
            r == (self.0 == 0x02),
    {
        self.0 == 0x02
    }
}

impl Default for Distribution {
    fn default() -> (r: Self)
        ensures
            r == Distribution(0x03),
    {
        Distribution(0x03)
    }
}

impl core::ops::BitOr for Distribution {
    type Output = Self;

    fn bitor(self, rhs: Self) -> (r: Self) {
        Distribution(self.0 | rhs.0)
    }
}

impl vstd::std_specs::ops::BitOrSpecImpl for Distribution {
    open spec fn obeys_bitor_spec() -> bool {
        true
    }

    open spec fn bitor_req(self, rhs: Distribution) -> bool {
        true
    }

    open spec fn bitor_spec(self, rhs: Distribution) -> Distribution {
        Distribution(self.0 | rhs.0)
    }
}

/// Metadata of a built-in function.
#[derive(Debug, Clone, Copy)]
pub struct FuncMeta {
    pub name: &'static str,
    pub category: FuncCategory,
    pub domain: FuncDomain,
    pub min_args: u8,
    pub max_args: Option<u8>,
    pub supports_distinct: bool,
    pub compat: CompatMode,
    pub distribution: Distribution,
}

/// Owned variant of `FuncMeta` for extension functions supplied at run time.
#[derive(Debug)]
pub struct FuncMetaOwned {
    pub name: String,
    pub category: FuncCategory,
    pub domain: FuncDomain,
    pub min_args: u8,
    pub max_args: Option<u8>,
    pub supports_distinct: bool,
    pub compat: CompatMode,
    pub distribution: Distribution,
}

/// Unified lookup result from either the core registry or the extensions.
#[derive(Debug, Clone, Copy)]
pub struct LookupResult {
    pub name: &'static str,
    pub category: FuncCategory,
    pub domain: FuncDomain,
    pub min_args: u8,
    pub max_args: Option<u8>,
    pub supports_distinct: bool,
    pub compat: CompatMode,
    pub distribution: Distribution,
}

pub open spec fn result_of_meta(m: FuncMeta) -> LookupResult {
    LookupResult {
        name: m.name,
        category: m.category,
        domain: m.domain,
        min_args: m.min_args,
        max_args: m.max_args,
        supports_distinct: m.supports_distinct,
        compat: m.compat,
        distribution: m.distribution,
    }
}

/// An extension entry carries its name in the registry key, so the result names nothing.
pub open spec fn result_of_owned(m: FuncMetaOwned) -> LookupResult {
    LookupResult {
        name: "",
        category: m.category,
        domain: m.domain,
        min_args: m.min_args,
        max_args: m.max_args,
        supports_distinct: m.supports_distinct,
        compat: m.compat,
        distribution: m.distribution,
    }
}

impl From<&FuncMeta> for LookupResult {
    fn from(m: &FuncMeta) -> (r: LookupResult) {
        LookupResult {
            name: m.name,
            category: m.category,
            domain: m.domain,
            min_args: m.min_args,
            max_args: m.max_args,
            supports_distinct: m.supports_distinct,
            compat: m.compat,
            distribution: m.distribution,
        }
    }
}

impl vstd::std_specs::convert::FromSpecImpl<&FuncMeta> for LookupResult {
    open spec fn obeys_from_spec() -> bool {
        true
    }

    open spec fn from_spec(m: &FuncMeta) -> LookupResult {
        result_of_meta(*m)
    }
}

impl From<&FuncMetaOwned> for LookupResult {
    fn from(m: &FuncMetaOwned) -> (r: LookupResult) {
        LookupResult {
            name: "",
            category: m.category,
            domain: m.domain,
            min_args: m.min_args,
            max_args: m.max_args,
            supports_distinct: m.supports_distinct,
            compat: m.compat,
            distribution: m.distribution,
        }
    }
}

impl vstd::std_specs::convert::FromSpecImpl<&FuncMetaOwned> for LookupResult {
    open spec fn obeys_from_spec() -> bool {
        true
    }

    open spec fn from_spec(m: &FuncMetaOwned) -> LookupResult {
        result_of_owned(*m)
    }
}

// ────────────────────────────────────────────────────────────────
// Core table lookup
// ────────────────────────────────────────────────────────────────

/// The first entry of `t` at or after index `i` whose name is `key`.
pub open spec fn find_meta_from(t: Seq<FuncMeta>, key: Seq<char>, i: int) -> Option<FuncMeta>
    decreases t.len() - i,
{
    if i < 0 || i >= t.len() {
        None
    } else if t[i].name@ == key {
        Some(t[i])
    } else {
        find_meta_from(t, key, i + 1)
    }
}

/// The built-in function named `key` (an already lower-cased name).
pub open spec fn find_builtin(key: Seq<char>) -> Option<FuncMeta> {
    find_meta_from(builtin_function_table(), key, 0)
}

/// What `lookup_function` returns: names are matched ignoring ASCII case.
pub open spec fn spec_lookup_function(name: Seq<char>) -> Option<FuncMeta> {
    find_builtin(ascii_lower(name))
}

fn find_in_table(t: &Vec<FuncMeta>, key: &Vec<char>) -> (r: Option<FuncMeta>)
    ensures
        r == find_meta_from(t@, key@, 0),
{
    let mut i: usize = 0;
    while i < t.len()
        invariant
            i <= t.len(),
            find_meta_from(t@, key@, 0) == find_meta_from(t@, key@, i as int),
        decreases t.len() - i,
    {
        if str_equals_chars(t[i].name, key) {
            return Some(t[i]);
        }
        i = i + 1;
    }
    None
}

/// Look up a built-in function by name, ignoring ASCII case.
pub fn lookup_function(name: &str) -> (r: Option<FuncMeta>)
    ensures
        r == spec_lookup_function(name@),
{
    let lower = ascii_lowercase_chars(name);
    let table = builtin_functions();
    find_in_table(&table, &lower)
}

pub open spec fn category_label(x: FuncCategory) -> Seq<char> {
    match x {
        FuncCategory::Aggregate => "Aggregate"@,
        FuncCategory::Window => "Window"@,
        FuncCategory::Scalar => "Scalar"@,
        FuncCategory::SetReturning => "SetReturning"@,
        FuncCategory::Special => "Special"@,
        FuncCategory::TypeConstructor => "TypeConstructor"@,
    }
}

pub open spec fn domain_label(x: FuncDomain) -> Seq<char> {
    match x {
        FuncDomain::Math => "Math"@,
        FuncDomain::String => "String"@,
        FuncDomain::DateTime => "DateTime"@,
        FuncDomain::Aggregate => "Aggregate"@,
        FuncDomain::Window => "Window"@,
        FuncDomain::Array => "Array"@,
        FuncDomain::Json => "Json"@,
        FuncDomain::Network => "Network"@,
        FuncDomain::Geometric => "Geometric"@,
        FuncDomain::Hash => "Hash"@,
        FuncDomain::Range => "Range"@,
        FuncDomain::TextSearch => "TextSearch"@,
        FuncDomain::Crypto => "Crypto"@,
        FuncDomain::System => "System"@,
        FuncDomain::ExceptionContext => "ExceptionContext"@,
        FuncDomain::TypeConversion => "TypeConversion"@,
        FuncDomain::OracleCompat => "OracleCompat"@,
        FuncDomain::DbeApplicationInfo => "DbeApplicationInfo"@,
        FuncDomain::DbeFile => "DbeFile"@,
        FuncDomain::DbeLob => "DbeLob"@,
        FuncDomain::DbeMatch => "DbeMatch"@,
        FuncDomain::DbeOutput => "DbeOutput"@,
        FuncDomain::DbeRandom => "DbeRandom"@,
        FuncDomain::DbeRaw => "DbeRaw"@,
        FuncDomain::DbeScheduler => "DbeScheduler"@,
        FuncDomain::DbeSession => "DbeSession"@,
        FuncDomain::DbeSql => "DbeSql"@,
        FuncDomain::DbeSqlUtil => "DbeSqlUtil"@,
        FuncDomain::DbeStats => "DbeStats"@,
        FuncDomain::DbeTask => "DbeTask"@,
        FuncDomain::DbeUtility => "DbeUtility"@,
        FuncDomain::DbeXmlDom => "DbeXmlDom"@,
        FuncDomain::DbeXmlParser => "DbeXmlParser"@,
        FuncDomain::DbmsLob => "DbmsLob"@,
        FuncDomain::DbmsOutput => "DbmsOutput"@,
        FuncDomain::DbmsScheduler => "DbmsScheduler"@,
        FuncDomain::DbmsSql => "DbmsSql"@,
        FuncDomain::DbmsUtility => "DbmsUtility"@,
        FuncDomain::PkgService => "PkgService"@,
        FuncDomain::PkgUtil => "PkgUtil"@,
        FuncDomain::UtlFile => "UtlFile"@,
        FuncDomain::Xml => "Xml"@,
        FuncDomain::Ai => "Ai"@,
        FuncDomain::Other => "Other"@,
    }
}

fn category_label_string(x: FuncCategory) -> (s: String)
    ensures
        s@ == category_label(x),
{
    let label: &str = match x {
        FuncCategory::Aggregate => "Aggregate",
        FuncCategory::Window => "Window",
        FuncCategory::Scalar => "Scalar",
        FuncCategory::SetReturning => "SetReturning",
        FuncCategory::Special => "Special",
        FuncCategory::TypeConstructor => "TypeConstructor",
    };
    String::from_str(label)
}

fn domain_label_string(x: FuncDomain) -> (s: String)
    ensures
        s@ == domain_label(x),
{
    let label: &str = match x {
        FuncDomain::Math => "Math",
        FuncDomain::String => "String",
        FuncDomain::DateTime => "DateTime",
        FuncDomain::Aggregate => "Aggregate",
        FuncDomain::Window => "Window",
        FuncDomain::Array => "Array",
        FuncDomain::Json => "Json",
        FuncDomain::Network => "Network",
        FuncDomain::Geometric => "Geometric",
        FuncDomain::Hash => "Hash",
        FuncDomain::Range => "Range",
        FuncDomain::TextSearch => "TextSearch",
        FuncDomain::Crypto => "Crypto",
        FuncDomain::System => "System",
        FuncDomain::ExceptionContext => "ExceptionContext",
        FuncDomain::TypeConversion => "TypeConversion",
        FuncDomain::OracleCompat => "OracleCompat",
        FuncDomain::DbeApplicationInfo => "DbeApplicationInfo",
        FuncDomain::DbeFile => "DbeFile",
        FuncDomain::DbeLob => "DbeLob",
        FuncDomain::DbeMatch => "DbeMatch",
        FuncDomain::DbeOutput => "DbeOutput",
        FuncDomain::DbeRandom => "DbeRandom",
        FuncDomain::DbeRaw => "DbeRaw",
        FuncDomain::DbeScheduler => "DbeScheduler",
        FuncDomain::DbeSession => "DbeSession",
        FuncDomain::DbeSql => "DbeSql",
        FuncDomain::DbeSqlUtil => "DbeSqlUtil",
        FuncDomain::DbeStats => "DbeStats",
        FuncDomain::DbeTask => "DbeTask",
        FuncDomain::DbeUtility => "DbeUtility",
        FuncDomain::DbeXmlDom => "DbeXmlDom",
        FuncDomain::DbeXmlParser => "DbeXmlParser",
        FuncDomain::DbmsLob => "DbmsLob",
        FuncDomain::DbmsOutput => "DbmsOutput",
        FuncDomain::DbmsScheduler => "DbmsScheduler",
        FuncDomain::DbmsSql => "DbmsSql",
        FuncDomain::DbmsUtility => "DbmsUtility",
        FuncDomain::PkgService => "PkgService",
        FuncDomain::PkgUtil => "PkgUtil",
        FuncDomain::UtlFile => "UtlFile",
        FuncDomain::Xml => "Xml",
        FuncDomain::Ai => "Ai",
        FuncDomain::Other => "Other",
    };
    String::from_str(label)
}

/// The category and domain labels of a function's metadata.
pub open spec fn builtin_meta_labels(m: Option<FuncMeta>) -> Option<(Seq<char>, Seq<char>)> {
    match m {
        Some(meta) => Some((category_label(meta.category), domain_label(meta.domain))),
        None => None,
    }
}

/// Whether `r` carries exactly the labels `labels`.
pub open spec fn has_labels(r: Option<BuiltinFuncMeta>, labels: Option<(Seq<char>, Seq<char>)>) -> bool {
    match r {
        Some(b) => labels == Some((b.category@, b.domain@)),
        None => labels is None,
    }
}

fn builtin_meta_of(m: Option<FuncMeta>) -> (r: Option<BuiltinFuncMeta>)
    ensures
        has_labels(r, builtin_meta_labels(m)),
{
    match m {
        Some(meta) => Some(BuiltinFuncMeta {
            category: category_label_string(meta.category),
            domain: domain_label_string(meta.domain),
        }),
        None => None,
    }
}

/// The category and domain labels of the built-in function `name`.
pub fn lookup_builtin_meta(name: &str) -> (r: Option<BuiltinFuncMeta>)
    ensures
        has_labels(r, builtin_meta_labels(spec_lookup_function(name@))),
{
    builtin_meta_of(lookup_function(name))
}

// ────────────────────────────────────────────────────────────────
// Qualified names
// ────────────────────────────────────────────────────────────────

/// Index of the first `.` of `s` at or after `i`, or `s.len()` when there is none.
pub open spec fn first_dot_from(s: Seq<char>, i: int) -> int
    decreases s.len() - i,
{
    if i < 0 || i >= s.len() {
        s.len() as int
    } else if s[i] == '.' {
        i
    } else {
        first_dot_from(s, i + 1)
    }
}

/// The part of `s` before its first `.` (all of `s` when it has none).
pub open spec fn first_segment(s: Seq<char>) -> Seq<char> {
    s.take(first_dot_from(s, 0))
}

/// Index of the last `.` among the first `j` characters of `s`, or `-1`.
pub open spec fn last_dot_before(s: Seq<char>, j: int) -> int
    decreases j,
{
    if j <= 0 {
        -1
    } else if s[j - 1] == '.' {
        j - 1
    } else {
        last_dot_before(s, j - 1)
    }
}

/// The part of `s` after its last `.` (all of `s` when it has none).
pub open spec fn last_segment(s: Seq<char>) -> Seq<char> {
    s.skip(last_dot_before(s, s.len() as int) + 1)
}

/// The schemas that always hold built-in functions.
pub open spec fn is_system_schema(p: Seq<char>) -> bool {
    p == "pg_catalog"@ || p == "sys"@
}

/// The first segment of some dotted table name.
pub open spec fn is_package_prefix(p: Seq<char>) -> bool {
    exists|i: int|
        0 <= i < builtin_function_table().len() && (#[trigger] builtin_function_table()[i]).name@.contains('.')
            && first_segment(builtin_function_table()[i].name@) == p
}

/// A schema or package whose functions are trusted for the last-segment fallback.
pub open spec fn is_system_prefix(p: Seq<char>) -> bool {
    is_package_prefix(p) || is_system_schema(p)
}

/// What `lookup_function_qualified` returns.
pub open spec fn spec_lookup_qualified(full_name: Seq<char>) -> Option<FuncMeta> {
    let lower = ascii_lower(full_name);
    if find_builtin(lower) is Some {
        find_builtin(lower)
    } else if !lower.contains('.') {
        None
    } else if !is_system_prefix(first_segment(lower)) {
        None
    } else {
        find_builtin(last_segment(lower))
    }
}

fn first_dot_index(s: &Vec<char>) -> (k: usize)
    ensures
        k == first_dot_from(s@, 0),
        k <= s.len(),
        k < s.len() <==> s@.contains('.'),
{
    let mut i: usize = 0;
    while i < s.len()
        invariant
            i <= s.len(),
            first_dot_from(s@, 0) == first_dot_from(s@, i as int),
            forall|j: int| 0 <= j < i ==> s@[j] != '.',
        decreases s.len() - i,
    {
        if s[i] == '.' {
            assert(s@[i as int] == '.');
            return i;
        }
        i = i + 1;
    }
    i
}

fn last_dot_index(s: &Vec<char>) -> (k: Option<usize>)
    ensures
        k is None ==> last_dot_before(s@, s.len() as int) == -1 && !s@.contains('.'),
        k matches Some(j) ==> j == last_dot_before(s@, s.len() as int) && j < s.len(),
{
    let mut j: usize = s.len();
    while j > 0
        invariant
            j <= s.len(),
            last_dot_before(s@, s.len() as int) == last_dot_before(s@, j as int),
            forall|m: int| j <= m < s.len() ==> s@[m] != '.',
        decreases j,
    {
        if s[j - 1] == '.' {
            return Some(j - 1);
        }
        j = j - 1;
    }
    None
}

/// The characters after the last `.` of `s` (all of them when there is none).
pub(crate) fn last_segment_of(s: &Vec<char>) -> (r: Vec<char>)
    ensures
        r@ == last_segment(s@),
{
    match last_dot_index(s) {
        None => {
            let r = skip_chars(s, 0);
            assert(s@.skip(0) =~= s@);
            r
        },
        Some(j) => skip_chars(s, j + 1),
    }
}

fn take_chars(s: &Vec<char>, n: usize) -> (r: Vec<char>)
    requires
        n <= s.len(),
    ensures
        r@ == s@.take(n as int),
{
    let mut r: Vec<char> = Vec::new();
    let mut i: usize = 0;
    while i < n
        invariant
            n <= s.len(),
            i <= n,
            r@ == s@.take(i as int),
        decreases n - i,
    {
        r.push(s[i]);
        assert(s@.take(i + 1) =~= s@.take(i as int).push(s@[i as int]));
        i = i + 1;
    }
    r
}

fn skip_chars(s: &Vec<char>, n: usize) -> (r: Vec<char>)
    requires
        n <= s.len(),
    ensures
        r@ == s@.skip(n as int),
{
    let mut r: Vec<char> = Vec::new();
    let mut i: usize = n;
    while i < s.len()
        invariant
            n <= i <= s.len(),
            r@ == s@.subrange(n as int, i as int),
        decreases s.len() - i,
    {
        r.push(s[i]);
        assert(s@.subrange(n as int, i + 1) =~= s@.subrange(n as int, i as int).push(s@[i as int]));
        i = i + 1;
    }
    r
}

/// Whether `v` holds a vector whose characters are `p`.
pub open spec fn holds_chars(v: Seq<Vec<char>>, p: Seq<char>) -> bool {
    exists|k: int| 0 <= k < v.len() && (#[trigger] v[k])@ == p
}

fn contains_chars(v: &Vec<Vec<char>>, p: &Vec<char>) -> (r: bool)
    ensures
        r == holds_chars(v@, p@),
{
    let mut k: usize = 0;
    while k < v.len()
        invariant
            k <= v.len(),
            forall|m: int| 0 <= m < k ==> (#[trigger] v@[m])@ != p@,
        decreases v.len() - k,
    {
        if chars_equal(&v[k], p) {
            return true;
        }
        k = k + 1;
    }
    false
}

/// Some entry among the first `n` of `t` has a dotted name whose first segment is `p`.
pub open spec fn prefix_among(t: Seq<FuncMeta>, n: int, p: Seq<char>) -> bool {
    exists|m: int| 0 <= m < n && (#[trigger] t[m]).name@.contains('.') && first_segment(t[m].name@) == p
}

proof fn lemma_prefix_among_step(t: Seq<FuncMeta>, n: int, p: Seq<char>)
    requires
        0 <= n < t.len(),
    ensures
        prefix_among(t, n + 1, p) <==> (prefix_among(t, n, p) || (t[n].name@.contains('.')
            && first_segment(t[n].name@) == p)),
{
    if prefix_among(t, n + 1, p) {
        let m = choose|m: int| 0 <= m < n + 1 && (#[trigger] t[m]).name@.contains('.') && first_segment(t[m].name@) == p;
        if m < n {
            assert(prefix_among(t, n, p));
        }
    }
    if prefix_among(t, n, p) {
        let m = choose|m: int| 0 <= m < n && (#[trigger] t[m]).name@.contains('.') && first_segment(t[m].name@) == p;
        assert(prefix_among(t, n + 1, p));
    }
    if t[n].name@.contains('.') && first_segment(t[n].name@) == p {
        assert(prefix_among(t, n + 1, p));
    }
}

/// Adds `p` to `v` unless it is there already.
fn add_distinct(v: &mut Vec<Vec<char>>, p: Vec<char>)
    requires
        forall|a: int, b: int| 0 <= a < b < old(v).len() ==> (#[trigger] old(v)@[a])@ != (#[trigger] old(v)@[b])@,
    ensures
        forall|q: Seq<char>| holds_chars(final(v)@, q) <==> (holds_chars(old(v)@, q) || q == p@),
        forall|a: int, b: int| 0 <= a < b < final(v).len() ==> (#[trigger] final(v)@[a])@ != (#[trigger] final(v)@[b])@,
{
    if contains_chars(v, &p) {
        return;
    }
    let ghost old_v = v@;
    let ghost gp = p@;
    v.push(p);
    assert forall|q: Seq<char>| holds_chars(v@, q) <==> (holds_chars(old_v, q) || q == gp) by {
        if holds_chars(v@, q) {
            let k2 = choose|k2: int| 0 <= k2 < v@.len() && (#[trigger] v@[k2])@ == q;
            if k2 < old_v.len() {
                assert(old_v[k2] == v@[k2]);
            }
        }
        if holds_chars(old_v, q) {
            let k2 = choose|k2: int| 0 <= k2 < old_v.len() && (#[trigger] old_v[k2])@ == q;
            assert(v@[k2] == old_v[k2]);
        }
        if q == gp {
            assert(v@[old_v.len() as int]@ == q);
        }
    }
    assert forall|a: int, b: int| 0 <= a < b < v.len() implies (#[trigger] v@[a])@ != (#[trigger] v@[b])@ by {
        assert(v@[a] == old_v[a]);
        if b < old_v.len() {
            assert(v@[b] == old_v[b]);
        } else {
            assert(holds_chars(old_v, v@[a]@));
        }
    }
}

/// The system schemas and the package prefixes of the table's dotted names, each once.
fn system_prefixes() -> (v: Vec<Vec<char>>)
    ensures
        forall|p: Seq<char>| holds_chars(v@, p) <==> is_system_prefix(p),
        forall|a: int, b: int| 0 <= a < b < v.len() ==> (#[trigger] v@[a])@ != (#[trigger] v@[b])@,
{
    let table = builtin_functions();
    let mut v: Vec<Vec<char>> = Vec::new();
    let mut i: usize = 0;
    while i < table.len()
        invariant
            table@ == builtin_function_table(),
            i <= table.len(),
            forall|p: Seq<char>| holds_chars(v@, p) <==> prefix_among(table@, i as int, p),
            forall|a: int, b: int| 0 <= a < b < v.len() ==> (#[trigger] v@[a])@ != (#[trigger] v@[b])@,
        decreases table.len() - i,
    {
        let ghost v0 = v@;
        let name = chars_of(table[i].name);
        let k = first_dot_index(&name);
        if k < name.len() {
            let prefix = take_chars(&name, k);
            add_distinct(&mut v, prefix);
        }
        assert forall|p: Seq<char>| holds_chars(v@, p) <==> prefix_among(table@, i + 1, p) by {
            lemma_prefix_among_step(table@, i as int, p);
        }
        i = i + 1;
    }
    assert forall|p: Seq<char>| prefix_among(table@, table@.len() as int, p) <==> is_package_prefix(p) by {
        if is_package_prefix(p) {
            let m = choose|m: int|
                0 <= m < builtin_function_table().len() && (#[trigger] builtin_function_table()[m]).name@.contains('.')
                    && first_segment(builtin_function_table()[m].name@) == p;
            assert(table@[m] == builtin_function_table()[m]);
        }
    }
    add_distinct(&mut v, chars_of("pg_catalog"));
    add_distinct(&mut v, chars_of("sys"));
    v
}

fn is_known_system_prefix(prefix: &Vec<char>) -> (r: bool)
    ensures
        r == is_system_prefix(prefix@),
{
    let prefixes = system_prefixes();
    contains_chars(&prefixes, prefix)
}

/// Two-phase lookup: the exact full-qualified name, then the last segment alone, but only
/// when the first segment is a known system package or schema (`pg_catalog`, `dbe_output`,
/// `dbms_lob`, ...). User-defined schemas never trigger the fallback.
pub fn lookup_function_qualified(full_name: &str) -> (r: Option<FuncMeta>)
    ensures
        r == spec_lookup_qualified(full_name@),
{
    let lower = ascii_lowercase_chars(full_name);
    let table = builtin_functions();
    let exact = find_in_table(&table, &lower);
    if exact.is_some() {
        return exact;
    }
    let last_dot = last_dot_index(&lower);
    match last_dot {
        None => None,
        Some(j) => {
            assert(lower@.contains('.')) by {
                assert(lower@[j as int] == '.') by {
                    lemma_last_dot_is_dot(lower@, lower@.len() as int);
                }
            }
            let k = first_dot_index(&lower);
            let first_seg = take_chars(&lower, k);
            if !is_known_system_prefix(&first_seg) {
                return None;
            }
            let last_seg = skip_chars(&lower, j + 1);
            find_in_table(&table, &last_seg)
        },
    }
}

proof fn lemma_last_dot_is_dot(s: Seq<char>, j: int)
    requires
        0 <= j <= s.len(),
        last_dot_before(s, j) >= 0,
    ensures
        0 <= last_dot_before(s, j) < j,
        s[last_dot_before(s, j)] == '.',
    decreases j,
{
    if j > 0 && s[j - 1] != '.' {
        lemma_last_dot_is_dot(s, j - 1);
    }
}

/// The category and domain labels of the function found by `lookup_function_qualified`.
pub fn lookup_builtin_meta_qualified(full_name: &str) -> (r: Option<BuiltinFuncMeta>)
    ensures
        has_labels(r, builtin_meta_labels(spec_lookup_qualified(full_name@))),
{
    builtin_meta_of(lookup_function_qualified(full_name))
}

/// The segments of `name`, each Unicode-lower-cased, joined by `.`.
pub open spec fn joined_lower_name(name: Seq<String>) -> Seq<char>
    decreases name.len(),
{
    if name.len() == 0 {
        Seq::empty()
    } else if name.len() == 1 {
        unicode_lowercase(name[0]@)
    } else {
        joined_lower_name(name.drop_last()) + "."@ + unicode_lowercase(name.last()@)
    }
}

/// Resolve built-in function metadata from an object name, handling both plain (`abs`)
/// and dotted package names (`dbe_output.put_line`).
pub fn resolve_builtin_meta(name: &ObjectName) -> (r: Option<BuiltinFuncMeta>)
    ensures
        has_labels(r, builtin_meta_labels(spec_lookup_qualified(joined_lower_name(name@)))),
        name@.len() == 1 && all_ascii(name@[0]@) && !name@[0]@.contains('.') ==> has_labels(
            r,
            builtin_meta_labels(spec_lookup_function(name@[0]@)),
        ),
{
    let mut full = String::new();
    let mut i: usize = 0;
    while i < name.len()
        invariant
            i <= name.len(),
            full@ == joined_lower_name(name@.take(i as int)),
            forall|j: int| 0 <= j < i && all_ascii(#[trigger] name@[j]@) ==> unicode_lowercase(name@[j]@) == ascii_lower(name@[j]@),
        decreases name.len() - i,
    {
        if i > 0 {
            full.append(".");
        }
        let seg = to_lowercase(name[i].as_str());
        full.append(seg.as_str());
        assert(name@.take(i + 1).drop_last() =~= name@.take(i as int));
        i = i + 1;
    }
    assert(name@.take(name.len() as int) =~= name@);
    proof {
        if name@.len() == 1 && all_ascii(name@[0]@) && !name@[0]@.contains('.') {
            let seg = name@[0]@;
            lemma_ascii_lower_idempotent(seg);
            lemma_ascii_lower_keeps_no_dot(seg);
            assert(unicode_lowercase(seg) == ascii_lower(seg));
            assert(joined_lower_name(name@) == unicode_lowercase(seg));
        }
    }
    lookup_builtin_meta_qualified(full.as_str())
}

proof fn lemma_ascii_lower_keeps_no_dot(s: Seq<char>)
    requires
        !s.contains('.'),
    ensures
        !ascii_lower(s).contains('.'),
{
    if ascii_lower(s).contains('.') {
        let i = choose|i: int| 0 <= i < ascii_lower(s).len() && ascii_lower(s)[i] == '.';
        assert(s[i] != '.');
    }
}

// ────────────────────────────────────────────────────────────────
// Call validation
// ────────────────────────────────────────────────────────────────

pub open spec fn msg_no_args(display: Seq<char>) -> Seq<char> {
    "function "@ + display + " takes no arguments"@
}

pub open spec fn msg_exactly(display: Seq<char>, n: u8) -> Seq<char> {
    "function "@ + display + " requires exactly "@ + decimal(n as nat) + " argument(s)"@
}

pub open spec fn msg_at_least(display: Seq<char>, n: u8) -> Seq<char> {
    "function "@ + display + " requires at least "@ + decimal(n as nat) + " argument(s)"@
}

pub open spec fn msg_at_most(display: Seq<char>, n: u8) -> Seq<char> {
    "function "@ + display + " takes at most "@ + decimal(n as nat) + " argument(s)"@
}

pub open spec fn msg_no_distinct(display: Seq<char>) -> Seq<char> {
    "DISTINCT is not supported for function "@ + display
}

pub open spec fn msg_window_needs_over(display: Seq<char>) -> Seq<char> {
    "window function "@ + display + " should have OVER clause"@
}

/// The argument-count warnings for a call with `arg_count` arguments.
pub open spec fn arity_messages(display: Seq<char>, min_args: u8, max_args: Option<u8>, arg_count: nat) -> Seq<Seq<char>> {
    match max_args {
        Some(max) => if min_args == max && max == 0 {
            if arg_count > 0 { seq![msg_no_args(display)] } else { seq![] }
        } else if min_args == max {
            if arg_count != min_args { seq![msg_exactly(display, min_args)] } else { seq![] }
        } else {
            (if arg_count < min_args { seq![msg_at_least(display, min_args)] } else { seq![] })
                + (if arg_count > max { seq![msg_at_most(display, max)] } else { seq![] })
        },
        None => if arg_count < min_args { seq![msg_at_least(display, min_args)] } else { seq![] },
    }
}

/// All warnings for a call of a function with the given metadata, in the order reported:
/// argument count (skipped for VARIADIC calls), DISTINCT, then a missing OVER clause.
pub open spec fn call_messages(
    display: Seq<char>,
    min_args: u8,
    max_args: Option<u8>,
    supports_distinct: bool,
    category: FuncCategory,
    arg_count: nat,
    has_distinct: bool,
    has_over: bool,
    has_variadic: bool,
) -> Seq<Seq<char>> {
    (if has_variadic { seq![] } else { arity_messages(display, min_args, max_args, arg_count) })
        + (if has_distinct && !supports_distinct { seq![msg_no_distinct(display)] } else { seq![] })
        + (if category == FuncCategory::Window && !has_over { seq![msg_window_needs_over(display)] } else { seq![] })
}

fn push_warning(w: &mut Vec<ParserError>, message: String, location: SourceLocation, Ghost(msgs): Ghost<Seq<Seq<char>>>)
    requires
        warnings_are(old(w)@, msgs, location),
    ensures
        warnings_are(final(w)@, msgs.push(message@), location),
{
    w.push(ParserError::warning(message, location));
    assert forall|i: int| 0 <= i < final(w)@.len() implies {
        &&& (#[trigger] final(w)@[i]) is Warning
        &&& final(w)@[i]->Warning_message@ == msgs.push(message@)[i]
        &&& final(w)@[i]->Warning_location == location
    } by {
        if i < old(w)@.len() {
            assert(final(w)@[i] == old(w)@[i]);
        }
    }
}

fn message_with_count(head: &str, display: &str, middle: &str, n: u8, tail: &str) -> (s: String)
    ensures
        s@ == head@ + display@ + middle@ + decimal(n as nat) + tail@,
{
    let mut s = String::from_str(head);
    s.append(display);
    s.append(middle);
    push_decimal(&mut s, n as u64);
    s.append(tail);
    s
}

fn message_with_name(head: &str, display: &str, tail: &str) -> (s: String)
    ensures
        s@ == head@ + display@ + tail@,
{
    let mut s = String::from_str(head);
    s.append(display);
    s.append(tail);
    s
}

/// The warnings for one call, given the called function's metadata.
fn call_warnings(
    display: &str,
    min_args: u8,
    max_args: Option<u8>,
    supports_distinct: bool,
    category: FuncCategory,
    arg_count: usize,
    has_distinct: bool,
    has_over: bool,
    has_variadic: bool,
    location: SourceLocation,
) -> (w: Vec<ParserError>)
    ensures
        warnings_are(
            w@,
            call_messages(
                display@,
                min_args,
                max_args,
                supports_distinct,
                category,
                arg_count as nat,
                has_distinct,
                has_over,
                has_variadic,
            ),
            location,
        ),
{
    let mut w: Vec<ParserError> = Vec::new();
    let ghost mut msgs: Seq<Seq<char>> = seq![];
    // VARIADIC expands at run time, so the argument count says nothing.
    if !has_variadic {
        match max_args {
            Some(max) => {
                if min_args == max && max == 0 {
                    if arg_count > 0 {
                        let m = message_with_name("function ", display, " takes no arguments");
                        push_warning(&mut w, m, location, Ghost(msgs));
                        proof { msgs = msgs.push(msg_no_args(display@)); }
                    }
                } else if min_args == max {
                    if arg_count != min_args as usize {
                        let m = message_with_count("function ", display, " requires exactly ", min_args, " argument(s)");
                        push_warning(&mut w, m, location, Ghost(msgs));
                        proof { msgs = msgs.push(msg_exactly(display@, min_args)); }
                    }
                } else {
                    if arg_count < min_args as usize {
                        let m = message_with_count("function ", display, " requires at least ", min_args, " argument(s)");
                        push_warning(&mut w, m, location, Ghost(msgs));
                        proof { msgs = msgs.push(msg_at_least(display@, min_args)); }
                    }
                    if arg_count > max as usize {
                        let m = message_with_count("function ", display, " takes at most ", max, " argument(s)");
                        push_warning(&mut w, m, location, Ghost(msgs));
                        proof { msgs = msgs.push(msg_at_most(display@, max)); }
                    }
                }
            },
            None => {
                if arg_count < min_args as usize {
                    let m = message_with_count("function ", display, " requires at least ", min_args, " argument(s)");
                    push_warning(&mut w, m, location, Ghost(msgs));
                    proof { msgs = msgs.push(msg_at_least(display@, min_args)); }
                }
            },
        }
    }
    assert(msgs =~= (if has_variadic { seq![] } else { arity_messages(display@, min_args, max_args, arg_count as nat) }));
    let ghost arity = msgs;
    if has_distinct && !supports_distinct {
        let m = concat_str("DISTINCT is not supported for function ", display);
        push_warning(&mut w, m, location, Ghost(msgs));
        proof { msgs = msgs.push(msg_no_distinct(display@)); }
    }
    let ghost with_distinct = msgs;
    if category == FuncCategory::Window && !has_over {
        let m = message_with_name("window function ", display, " should have OVER clause");
        push_warning(&mut w, m, location, Ghost(msgs));
        proof { msgs = msgs.push(msg_window_needs_over(display@)); }
    }
    assert(msgs =~= call_messages(
        display@,
        min_args,
        max_args,
        supports_distinct,
        category,
        arg_count as nat,
        has_distinct,
        has_over,
        has_variadic,
    ));
    w
}

/// The warnings `validate_function_call` reports, named after the registered function.
pub open spec fn validation_messages(
    name: Seq<char>,
    arg_count: nat,
    has_distinct: bool,
    has_over: bool,
    has_variadic: bool,
) -> Seq<Seq<char>> {
    match spec_lookup_function(name) {
        None => seq![],
        Some(meta) => call_messages(
            meta.name@,
            meta.min_args,
            meta.max_args,
            meta.supports_distinct,
            meta.category,
            arg_count,
            has_distinct,
            has_over,
            has_variadic,
        ),
    }
}

/// Validate a call of a built-in function and return its warnings (if any).
/// Unknown functions produce no warnings.
pub fn validate_function_call(
    name: &str,
    arg_count: usize,
    has_distinct: bool,
    has_over: bool,
    has_variadic: bool,
    location: SourceLocation,
) -> (w: Vec<ParserError>)
    ensures
        warnings_are(w@, validation_messages(name@, arg_count as nat, has_distinct, has_over, has_variadic), location),
{
    match lookup_function(name) {
        None => Vec::new(),
        Some(meta) => call_warnings(
            meta.name,
            meta.min_args,
            meta.max_args,
            meta.supports_distinct,
            meta.category,
            arg_count,
            has_distinct,
            has_over,
            has_variadic,
            location,
        ),
    }
}

// ────────────────────────────────────────────────────────────────
// Registry with run-time extensions
// ────────────────────────────────────────────────────────────────

/// The extension entry registered under `key` (a lower-cased name), if any.
pub open spec fn find_extension(exts: Seq<FuncMetaOwned>, key: Seq<char>) -> Option<FuncMetaOwned> {
    if exists|i: int| 0 <= i < exts.len() && ascii_lower((#[trigger] exts[i]).name@) == key {
        Some(exts[choose|i: int| 0 <= i < exts.len() && ascii_lower((#[trigger] exts[i]).name@) == key])
    } else {
        None
    }
}

/// The last entry of `entries` whose lower-cased name is `key`: later entries win.
pub open spec fn last_entry_named(entries: Seq<FuncMetaOwned>, key: Seq<char>) -> Option<FuncMetaOwned>
    decreases entries.len(),
{
    if entries.len() == 0 {
        None
    } else if ascii_lower(entries.last().name@) == key {
        Some(entries.last())
    } else {
        last_entry_named(entries.drop_last(), key)
    }
}

/// No two entries share a lower-cased name.
pub open spec fn keys_distinct(exts: Seq<FuncMetaOwned>) -> bool {
    forall|i: int, j: int|
        0 <= i < j < exts.len() ==> ascii_lower((#[trigger] exts[i]).name@) != ascii_lower((#[trigger] exts[j]).name@)
}

/// Extensible function registry that layers entries supplied at run time on top of
/// the core registry. Entries are keyed by their ASCII-lower-cased name.
pub struct FunctionRegistry {
    extensions: Vec<FuncMetaOwned>,
}

impl FunctionRegistry {
    #[verifier::type_invariant]
    spec fn inv(self) -> bool {
        keys_distinct(self.extensions@)
    }

    /// The extension entries, one per key.
    pub closed spec fn extension_entries(self) -> Seq<FuncMetaOwned> {
        self.extensions@
    }

    /// The extension registered under the lower-cased name `key`.
    pub open spec fn extension(self, key: Seq<char>) -> Option<FuncMetaOwned> {
        find_extension(self.extension_entries(), key)
    }

    /// What `lookup` returns: an extension entry wins over a core entry.
    pub open spec fn spec_lookup(self, name: Seq<char>) -> Option<LookupResult> {
        match self.extension(ascii_lower(name)) {
            Some(e) => Some(result_of_owned(e)),
            None => match spec_lookup_function(name) {
                Some(m) => Some(result_of_meta(m)),
                None => None,
            },
        }
    }

    /// The warnings `validate` reports: those of the function found by `lookup`, named
    /// as the caller wrote it; none for an unknown function.
    pub open spec fn registry_messages(
        self,
        name: Seq<char>,
        arg_count: nat,
        has_distinct: bool,
        has_over: bool,
        has_variadic: bool,
    ) -> Seq<Seq<char>> {
        match self.spec_lookup(name) {
            None => seq![],
            Some(meta) => call_messages(
                name,
                meta.min_args,
                meta.max_args,
                meta.supports_distinct,
                meta.category,
                arg_count,
                has_distinct,
                has_over,
                has_variadic,
            ),
        }
    }

    /// A registry without extensions.
    pub fn new() -> (r: Self)
        ensures
            forall|key: Seq<char>| r.extension(key) is None,
    {
        FunctionRegistry { extensions: Vec::new() }
    }

    /// `self` is `base` with `entries` registered on top: under each key, the last entry
    /// of that name, or else what `base` held.
    pub open spec fn layered(self, base: FunctionRegistry, entries: Seq<FuncMetaOwned>) -> bool {
        forall|key: Seq<char>|
            #[trigger] self.extension(key) == match last_entry_named(entries, key) {
                Some(e) => Some(e),
                None => base.extension(key),
            }
    }

    /// Registers `entries` as extensions; an entry replaces any earlier one with the same
    /// lower-cased name (so the last of several wins).
    pub fn with_extensions(self, entries: Vec<FuncMetaOwned>) -> (r: Self)
        ensures
            r.layered(self, entries@),
    {
        proof { use_type_invariant(&self); }
        let ghost old_exts = self.extensions@;
        let ghost all = entries@;
        let total = entries.len();
        let mut exts = self.extensions;
        let mut rest = entries;
        let mut done: usize = 0;
        while rest.len() > 0
            invariant
                keys_distinct(exts@),
                done <= all.len(),
                all.len() == total,
                rest@ == all.skip(done as int),
                forall|key: Seq<char>|
                    find_extension(exts@, key) == match last_entry_named(all.take(done as int), key) {
                        Some(e) => Some(e),
                        None => find_extension(old_exts, key),
                    },
            decreases rest.len(),
        {
            let ghost before = exts@;
            let e = rest.remove(0);
            let ghost key_e = ascii_lower(e.name@);
            insert_extension(&mut exts, e);
            proof {
                assert(all.take(done + 1).drop_last() =~= all.take(done as int));
                assert(all.take(done + 1).last() == all[done as int]);
                assert(rest@ =~= all.skip(done + 1));
            }
            done = done + 1;
        }
        proof {
            assert(all.take(done as int) =~= all);
        }
        FunctionRegistry { extensions: exts }
    }

    /// Lookup a function by name. Extensions take priority over core entries.
    pub fn lookup(&self, name: &str) -> (r: Option<LookupResult>)
        ensures
            r == self.spec_lookup(name@),
    {
        proof { use_type_invariant(self); }
        let lower = ascii_lowercase_chars(name);
        let mut i: usize = 0;
        while i < self.extensions.len()
            invariant
                keys_distinct(self.extensions@),
                lower@ == ascii_lower(name@),
                i <= self.extensions.len(),
                forall|j: int| 0 <= j < i ==> ascii_lower((#[trigger] self.extensions@[j]).name@) != lower@,
            decreases self.extensions.len() - i,
        {
            let key = ascii_lowercase_chars(self.extensions[i].name.as_str());
            if chars_equal(&key, &lower) {
                let ext = &self.extensions[i];
                proof { lemma_find_extension_at(self.extensions@, i as int); }
                return Some(LookupResult::from(ext));
            }
            i = i + 1;
        }
        assert(find_extension(self.extensions@, lower@) is None);
        match lookup_function(name) {
            Some(m) => Some(LookupResult::from(&m)),
            None => None,
        }
    }

    /// Validate a function call against the merged view (extensions, then core).
    /// Warnings name the function as the caller wrote it.
    pub fn validate(
        &self,
        name: &str,
        arg_count: usize,
        has_distinct: bool,
        has_over: bool,
        has_variadic: bool,
        location: SourceLocation,
    ) -> (w: Vec<ParserError>)
        ensures
            warnings_are(w@, self.registry_messages(name@, arg_count as nat, has_distinct, has_over, has_variadic), location),
    {
        match self.lookup(name) {
            None => Vec::new(),
            Some(meta) => call_warnings(
                name,
                meta.min_args,
                meta.max_args,
                meta.supports_distinct,
                meta.category,
                arg_count,
                has_distinct,
                has_over,
                has_variadic,
                location,
            ),
        }
    }
}

impl Default for FunctionRegistry {
    fn default() -> (r: Self)
        ensures
            forall|key: Seq<char>| r.extension(key) is None,
    {
        Self::new()
    }
}

proof fn lemma_find_extension_at(exts: Seq<FuncMetaOwned>, i: int)
    requires
        keys_distinct(exts),
        0 <= i < exts.len(),
    ensures
        find_extension(exts, ascii_lower(exts[i].name@)) == Some(exts[i]),
{
    let key = ascii_lower(exts[i].name@);
    assert(ascii_lower(exts[i].name@) == key);
    let c = choose|c: int| 0 <= c < exts.len() && ascii_lower((#[trigger] exts[c]).name@) == key;
    if c != i {
        if c < i {
            assert(ascii_lower(exts[c].name@) != ascii_lower(exts[i].name@));
        } else {
            assert(ascii_lower(exts[i].name@) != ascii_lower(exts[c].name@));
        }
    }
}

/// Adds `e` to `exts`, replacing the entry with the same lower-cased name if there is one.
fn insert_extension(exts: &mut Vec<FuncMetaOwned>, e: FuncMetaOwned)
    requires
        keys_distinct(old(exts)@),
    ensures
        keys_distinct(final(exts)@),
        forall|key: Seq<char>|
            find_extension(final(exts)@, key) == if key == ascii_lower(e.name@) {
                Some(e)
            } else {
                find_extension(old(exts)@, key)
            },
{
    let key = ascii_lowercase_chars(e.name.as_str());
    let ghost ek = e.name@;
    let mut i: usize = 0;
    while i < exts.len()
        invariant
            exts@ == old(exts)@,
            keys_distinct(exts@),
            key@ == ascii_lower(ek),
            ek == e.name@,
            i <= exts.len(),
            forall|j: int| 0 <= j < i ==> ascii_lower((#[trigger] exts@[j]).name@) != key@,
        decreases exts.len() - i,
    {
        let k = ascii_lowercase_chars(exts[i].name.as_str());
        if chars_equal(&k, &key) {
            let ghost before = exts@;
            let ghost ge = e;
            exts.set(i, e);
            proof {
                assert(exts@[i as int] == ge);
                assert(ge.name@ == ek);
                assert(ascii_lower(before[i as int].name@) == key@);
                assert(ascii_lower(exts@[i as int].name@) == key@);
                assert forall|a: int, b: int| 0 <= a < b < exts@.len() implies ascii_lower(
                    (#[trigger] exts@[a]).name@,
                ) != ascii_lower((#[trigger] exts@[b]).name@) by {
                    assert(ascii_lower(exts@[a].name@) == ascii_lower(before[a].name@));
                    assert(ascii_lower(exts@[b].name@) == ascii_lower(before[b].name@));
                }
                assert forall|kk: Seq<char>|
                    find_extension(exts@, kk) == if kk == key@ {
                        Some(exts@[i as int])
                    } else {
                        find_extension(before, kk)
                    } by {
                    if kk == key@ {
                        lemma_find_extension_at(exts@, i as int);
                    } else {
                        assert forall|m: int| 0 <= m < exts@.len() implies (ascii_lower((#[trigger] exts@[m]).name@) == kk
                            <==> ascii_lower(before[m].name@) == kk) && (ascii_lower(exts@[m].name@) == kk ==> exts@[m] == before[m]) by {
                            if m == i {
                                assert(ascii_lower(exts@[m].name@) == key@);
                                assert(ascii_lower(before[m].name@) == key@);
                            }
                        }
                        if exists|m: int| 0 <= m < exts@.len() && ascii_lower((#[trigger] exts@[m]).name@) == kk {
                            let m = choose|m: int| 0 <= m < exts@.len() && ascii_lower((#[trigger] exts@[m]).name@) == kk;
                            assert(ascii_lower(before[m].name@) == kk);
                            lemma_find_extension_at(exts@, m);
                            lemma_find_extension_at(before, m);
                        } else {
                            assert forall|m: int| 0 <= m < before.len() implies ascii_lower((#[trigger] before[m]).name@) != kk by {
                                assert(ascii_lower(exts@[m].name@) != kk);
                            }
                        }
                    }
                }
            }
            return;
        }
        i = i + 1;
    }
    let ghost before = exts@;
    exts.push(e);
    proof {
        let n = before.len() as int;
        assert forall|a: int, b: int| 0 <= a < b < exts@.len() implies ascii_lower(
            (#[trigger] exts@[a]).name@,
        ) != ascii_lower((#[trigger] exts@[b]).name@) by {
            if b == n {
                assert(exts@[a] == before[a]);
            } else {
                assert(exts@[a] == before[a]);
                assert(exts@[b] == before[b]);
            }
        }
        assert forall|kk: Seq<char>|
            find_extension(exts@, kk) == if kk == key@ {
                Some(exts@[n])
            } else {
                find_extension(before, kk)
            } by {
            if kk == key@ {
                lemma_find_extension_at(exts@, n);
            } else {
                if exists|m: int| 0 <= m < exts@.len() && ascii_lower((#[trigger] exts@[m]).name@) == kk {
                    let m = choose|m: int| 0 <= m < exts@.len() && ascii_lower((#[trigger] exts@[m]).name@) == kk;
                    assert(m != n);
                    assert(exts@[m] == before[m]);
                    lemma_find_extension_at(exts@, m);
                    lemma_find_extension_at(before, m);
                } else {
                    assert forall|m: int| 0 <= m < before.len() implies ascii_lower((#[trigger] before[m]).name@) != kk by {
                        assert(exts@[m] == before[m]);
                    }
                }
            }
        }
    }
}

// ────────────────────────────────────────────────────────────────
// Laws
// ────────────────────────────────────────────────────────────────

proof fn lemma_ascii_lower_idempotent(s: Seq<char>)
    ensures
        ascii_lower(ascii_lower(s)) == ascii_lower(s),
{
    assert forall|i: int| 0 <= i < s.len() implies #[trigger] ascii_lower_char(ascii_lower_char(s[i]))
        == ascii_lower_char(s[i]) by {
        let c = s[i];
        if is_ascii_upper(c) {
            assert(('a' as u8) <= ((c as u8) + 32) as u8 <= ('z' as u8));
        }
    }
    assert(ascii_lower(ascii_lower(s)) =~= ascii_lower(s));
}

/// Names are looked up ignoring ASCII case: two names that differ only in the case of
/// ASCII letters find the same built-in function, plain or qualified, and the same
/// entry of any registry.
pub proof fn law_lookup_ignores_case(reg: FunctionRegistry, a: Seq<char>, b: Seq<char>)
    requires
        ascii_lower(a) == ascii_lower(b),
    ensures
        spec_lookup_function(a) == spec_lookup_function(b),
        spec_lookup_qualified(a) == spec_lookup_qualified(b),
        reg.spec_lookup(a) == reg.spec_lookup(b),
{
}

/// Looking up the lower-cased spelling of a name finds what the name itself finds.
pub proof fn law_lookup_of_lowercase(reg: FunctionRegistry, name: Seq<char>)
    ensures
        spec_lookup_function(ascii_lower(name)) == spec_lookup_function(name),
        reg.spec_lookup(ascii_lower(name)) == reg.spec_lookup(name),
{
    lemma_ascii_lower_idempotent(name);
}

/// A registry without extensions answers every lookup from the built-in table.
pub proof fn law_empty_registry_is_core(reg: FunctionRegistry, name: Seq<char>)
    requires
        forall|key: Seq<char>| reg.extension(key) is None,
    ensures
        reg.spec_lookup(name) == match spec_lookup_function(name) {
            Some(m) => Some(result_of_meta(m)),
            None => None,
        },
{
    assert(reg.extension(ascii_lower(name)) is None);
}

/// An extension registered under a name shadows the built-in function of that name.
pub proof fn law_extension_overrides_core(reg: FunctionRegistry, name: Seq<char>, e: FuncMetaOwned)
    requires
        reg.extension(ascii_lower(name)) == Some(e),
    ensures
        reg.spec_lookup(name) == Some(result_of_owned(e)),
{
}

proof fn lemma_last_entry_named_at(entries: Seq<FuncMetaOwned>, i: int, key: Seq<char>)
    requires
        0 <= i < entries.len(),
        ascii_lower(entries[i].name@) == key,
        forall|j: int| i < j < entries.len() ==> ascii_lower((#[trigger] entries[j]).name@) != key,
    ensures
        last_entry_named(entries, key) == Some(entries[i]),
    decreases entries.len(),
{
    if i < entries.len() - 1 {
        let rest = entries.drop_last();
        assert(ascii_lower(entries[entries.len() - 1].name@) != key);
        assert forall|j: int| i < j < rest.len() implies ascii_lower((#[trigger] rest[j]).name@) != key by {
            assert(rest[j] == entries[j]);
        }
        lemma_last_entry_named_at(rest, i, key);
    }
}

proof fn lemma_last_entry_named_none(entries: Seq<FuncMetaOwned>, key: Seq<char>)
    requires
        forall|j: int| 0 <= j < entries.len() ==> ascii_lower((#[trigger] entries[j]).name@) != key,
    ensures
        last_entry_named(entries, key) is None,
    decreases entries.len(),
{
    if entries.len() > 0 {
        let rest = entries.drop_last();
        assert(ascii_lower(entries[entries.len() - 1].name@) != key);
        assert forall|j: int| 0 <= j < rest.len() implies ascii_lower((#[trigger] rest[j]).name@) != key by {
            assert(rest[j] == entries[j]);
        }
        lemma_last_entry_named_none(rest, key);
    }
}

/// After registering `entries`, a name is looked up in the last of them that bears the
/// name (ignoring ASCII case): a later entry replaces an earlier one, and both replace
/// a built-in function of that name.
pub proof fn law_last_extension_wins(
    base: FunctionRegistry,
    reg: FunctionRegistry,
    entries: Seq<FuncMetaOwned>,
    i: int,
    name: Seq<char>,
)
    requires
        reg.layered(base, entries),
        0 <= i < entries.len(),
        ascii_lower(entries[i].name@) == ascii_lower(name),
        forall|j: int| i < j < entries.len() ==> ascii_lower((#[trigger] entries[j]).name@) != ascii_lower(name),
    ensures
        reg.spec_lookup(name) == Some(result_of_owned(entries[i])),
{
    lemma_last_entry_named_at(entries, i, ascii_lower(name));
    assert(reg.extension(ascii_lower(name)) == Some(entries[i]));
}

/// Registering entries leaves the lookup of every other name as it was.
pub proof fn law_extensions_leave_other_names(
    base: FunctionRegistry,
    reg: FunctionRegistry,
    entries: Seq<FuncMetaOwned>,
    name: Seq<char>,
)
    requires
        reg.layered(base, entries),
        forall|j: int| 0 <= j < entries.len() ==> ascii_lower((#[trigger] entries[j]).name@) != ascii_lower(name),
    ensures
        reg.spec_lookup(name) == base.spec_lookup(name),
{
    lemma_last_entry_named_none(entries, ascii_lower(name));
    assert(reg.extension(ascii_lower(name)) == base.extension(ascii_lower(name)));
}

/// A qualified lookup finds what the plain lookup finds, except through the fallback to
/// the last segment, which is taken only when the exact name is unknown, the name is
/// dotted, and its first segment is a system schema or package.
pub proof fn law_qualified_lookup_falls_back_only_for_system_prefixes(name: Seq<char>)
    ensures
        spec_lookup_qualified(name) == spec_lookup_function(name) || {
            let lower = ascii_lower(name);
            &&& spec_lookup_function(name) is None
            &&& lower.contains('.')
            &&& is_system_prefix(first_segment(lower))
            &&& spec_lookup_qualified(name) == find_builtin(last_segment(lower))
        },
        !ascii_lower(name).contains('.') ==> spec_lookup_qualified(name) == spec_lookup_function(name),
        !is_system_prefix(first_segment(ascii_lower(name))) ==> spec_lookup_qualified(name)
            == spec_lookup_function(name),
{
}

/// Calls of unknown functions are never warned about, by the plain validator or by a
/// registry.
pub proof fn law_unknown_function_has_no_warnings(
    reg: FunctionRegistry,
    name: Seq<char>,
    arg_count: nat,
    has_distinct: bool,
    has_over: bool,
    has_variadic: bool,
)
    ensures
        spec_lookup_function(name) is None ==> validation_messages(name, arg_count, has_distinct, has_over, has_variadic)
            == Seq::<Seq<char>>::empty(),
        reg.spec_lookup(name) is None ==> reg.registry_messages(name, arg_count, has_distinct, has_over, has_variadic)
            == Seq::<Seq<char>>::empty(),
{
}

/// A call whose argument count lies within the function's bounds, that uses DISTINCT
/// only where the function supports it, and that gives a window function its OVER
/// clause, draws no warning.
pub proof fn law_well_formed_call_has_no_warnings(
    display: Seq<char>,
    min_args: u8,
    max_args: Option<u8>,
    supports_distinct: bool,
    category: FuncCategory,
    arg_count: nat,
    has_distinct: bool,
    has_over: bool,
    has_variadic: bool,
)
    requires
        min_args <= arg_count,
        max_args matches Some(m) ==> arg_count <= m,
        has_distinct ==> supports_distinct,
        category == FuncCategory::Window ==> has_over,
    ensures
        call_messages(display, min_args, max_args, supports_distinct, category, arg_count, has_distinct, has_over, has_variadic)
            == Seq::<Seq<char>>::empty(),
{
    assert(arity_messages(display, min_args, max_args, arg_count) =~= Seq::<Seq<char>>::empty());
    assert(call_messages(display, min_args, max_args, supports_distinct, category, arg_count, has_distinct, has_over, has_variadic)
        =~= Seq::<Seq<char>>::empty());
}

/// The union of two format sets contains each non-empty operand; likewise for
/// distributions.
pub proof fn law_union_contains_operands(a: u8, b: u8)
    ensures
        a != 0 ==> (a | b) & a != 0,
        b != 0 ==> (a | b) & b != 0,
{
    assert(a != 0 ==> (a | b) & a != 0) by (bit_vector);
    assert(b != 0 ==> (a | b) & b != 0) by (bit_vector);
}

proof fn lemma_find_meta_reaches(t: Seq<FuncMeta>, key: Seq<char>, j: int, i: int)
    requires
        0 <= j <= i < t.len(),
        t[i].name@ == key,
        forall|m: int| j <= m < i ==> t[m].name@ != key,
    ensures
        find_meta_from(t, key, j) == Some(t[i]),
    decreases i - j,
{
    if j < i {
        lemma_find_meta_reaches(t, key, j + 1, i);
    }
}

/// Every built-in function is found by its own name: the table's names are unique and
/// written in lower case, so the lookup stops at that entry.
pub proof fn law_lookup_finds_every_builtin(i: int)
    requires
        0 <= i < builtin_function_table().len(),
    ensures
        spec_lookup_function(builtin_function_table()[i].name@) == Some(builtin_function_table()[i]),
{
    law_builtin_names_unique();
    law_builtin_names_lower_case();
    let t = builtin_function_table();
    let n = t[i].name@;
    assert(no_ascii_upper(n));
    assert forall|m: int| 0 <= m < n.len() implies ascii_lower(n)[m] == n[m] by {
        assert(!is_ascii_upper(n[m]));
    }
    assert(ascii_lower(n) =~= n);
    lemma_find_meta_reaches(t, n, 0, i);
}

} // verus!
