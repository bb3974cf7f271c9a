//! The table of built-in functions known to the registry, sorted by lower-case name.
//!
//! Each entry is built by one of four constructors, one per kind of function: available
//! in every compatibility format, Oracle-compatible (A and PG formats), commercial-only,
//! and commercial-only Oracle-compatible.
use vstd::prelude::*;
use crate::function_registry::{CompatMode, Distribution, FuncCategory, FuncDomain, FuncMeta};
use crate::text::is_ascii_upper;

verus! {

pub open spec fn spec_entry(
    name: &'static str,
    category: FuncCategory,
    domain: FuncDomain,
    min_args: u8,
    max_args: Option<u8>,
    supports_distinct: bool,
    compat: u8,
    distribution: u8,
) -> FuncMeta {
    FuncMeta {
        name,
        category,
        domain,
        min_args,
        max_args,
        supports_distinct,
        compat: CompatMode(compat),
        distribution: Distribution(distribution),
    }
}

/// An entry for a function of every compatibility format, in both distributions.
pub open spec fn spec_core_entry(
    name: &'static str,
    category: FuncCategory,
    domain: FuncDomain,
    min_args: u8,
    max_args: Option<u8>,
    supports_distinct: bool,
) -> FuncMeta {
    spec_entry(name, category, domain, min_args, max_args, supports_distinct, 7, 3)
}

fn core_entry(
    name: &'static str,
    category: FuncCategory,
    domain: FuncDomain,
    min_args: u8,
    max_args: Option<u8>,
    supports_distinct: bool,
) -> (m: FuncMeta)
    ensures
        m == spec_core_entry(name, category, domain, min_args, max_args, supports_distinct),
{
    FuncMeta {
        name,
        category,
        domain,
        min_args,
        max_args,
        supports_distinct,
        compat: CompatMode(7),
        distribution: Distribution(3),
    }
}

/// An entry for a function of the A and PG formats, in both distributions.
pub open spec fn spec_oracle_entry(
    name: &'static str,
    category: FuncCategory,
    domain: FuncDomain,
    min_args: u8,
    max_args: Option<u8>,
    supports_distinct: bool,
) -> FuncMeta {
    spec_entry(name, category, domain, min_args, max_args, supports_distinct, 5, 3)
}

fn oracle_entry(
    name: &'static str,
    category: FuncCategory,
    domain: FuncDomain,
    min_args: u8,
    max_args: Option<u8>,
    supports_distinct: bool,
) -> (m: FuncMeta)
    ensures
        m == spec_oracle_entry(name, category, domain, min_args, max_args, supports_distinct),
{
    FuncMeta {
        name,
        category,
        domain,
        min_args,
        max_args,
        supports_distinct,
        compat: CompatMode(5),
        distribution: Distribution(3),
    }
}

/// An entry for a function of every compatibility format, in commercial GaussDB only.
pub open spec fn spec_commercial_entry(
    name: &'static str,
    category: FuncCategory,
    domain: FuncDomain,
    min_args: u8,
    max_args: Option<u8>,
    supports_distinct: bool,
) -> FuncMeta {
    spec_entry(name, category, domain, min_args, max_args, supports_distinct, 7, 2)
}

fn commercial_entry(
    name: &'static str,
    category: FuncCategory,
    domain: FuncDomain,
    min_args: u8,
    max_args: Option<u8>,
    supports_distinct: bool,
) -> (m: FuncMeta)
    ensures
        m == spec_commercial_entry(name, category, domain, min_args, max_args, supports_distinct),
{
    FuncMeta {
        name,
        category,
        domain,
        min_args,
        max_args,
        supports_distinct,
        compat: CompatMode(7),
        distribution: Distribution(2),
    }
}

/// An entry for a function of the A and PG formats, in commercial GaussDB only.
pub open spec fn spec_commercial_oracle_entry(
    name: &'static str,
    category: FuncCategory,
    domain: FuncDomain,
    min_args: u8,
    max_args: Option<u8>,
    supports_distinct: bool,
) -> FuncMeta {
    spec_entry(name, category, domain, min_args, max_args, supports_distinct, 5, 2)
}

fn commercial_oracle_entry(
    name: &'static str,
    category: FuncCategory,
    domain: FuncDomain,
    min_args: u8,
    max_args: Option<u8>,
    supports_distinct: bool,
) -> (m: FuncMeta)
    ensures
        m == spec_commercial_oracle_entry(name, category, domain, min_args, max_args, supports_distinct),
{
    FuncMeta {
        name,
        category,
        domain,
        min_args,
        max_args,
        supports_distinct,
        compat: CompatMode(5),
        distribution: Distribution(2),
    }
}

/// `s` followed by the entries from `abbrev` to `dbe_file.read_line_nchar`.
pub closed spec fn table_part_1(s: Seq<FuncMeta>) -> Seq<FuncMeta> {
    s
        .push(spec_core_entry("abbrev", FuncCategory::Scalar, FuncDomain::Network, 1, Some(1), false))
        .push(spec_core_entry("abs", FuncCategory::Scalar, FuncDomain::Math, 1, Some(1), false))
        .push(spec_core_entry("acos", FuncCategory::Scalar, FuncDomain::Math, 1, Some(1), false))
        .push(spec_oracle_entry("add_months", FuncCategory::Scalar, FuncDomain::OracleCompat, 2, Some(2), false))
        .push(spec_commercial_entry("adddate", FuncCategory::Scalar, FuncDomain::DateTime, 2, Some(2), false))
        .push(spec_commercial_entry("addtime", FuncCategory::Scalar, FuncDomain::DateTime, 2, Some(2), false))
        .push(spec_core_entry("aes_decrypt", FuncCategory::Scalar, FuncDomain::Crypto, 2, Some(2), false))
        .push(spec_core_entry("aes_encrypt", FuncCategory::Scalar, FuncDomain::Crypto, 2, Some(2), false))
        .push(spec_core_entry("age", FuncCategory::Scalar, FuncDomain::DateTime, 1, Some(2), false))
        .push(spec_core_entry("area", FuncCategory::Scalar, FuncDomain::Geometric, 1, Some(1), false))
        .push(spec_core_entry("array_agg", FuncCategory::Aggregate, FuncDomain::Aggregate, 1, Some(1), true))
        .push(spec_core_entry("array_append", FuncCategory::Scalar, FuncDomain::Array, 2, Some(2), false))
        .push(spec_core_entry("array_cat", FuncCategory::Scalar, FuncDomain::Array, 2, Some(2), false))
        .push(spec_core_entry("array_delete", FuncCategory::Scalar, FuncDomain::Array, 1, Some(1), false))
        .push(spec_core_entry("array_deleteidx", FuncCategory::Scalar, FuncDomain::Array, 2, Some(2), false))
        .push(spec_core_entry("array_dims", FuncCategory::Scalar, FuncDomain::Array, 1, Some(1), false))
        .push(spec_core_entry("array_except", FuncCategory::Scalar, FuncDomain::Array, 2, Some(2), false))
        .push(spec_core_entry("array_except_distinct", FuncCategory::Scalar, FuncDomain::Array, 2, Some(2), false))
        .push(spec_core_entry("array_exists", FuncCategory::Scalar, FuncDomain::Array, 2, Some(2), false))
        .push(spec_core_entry("array_extendnull", FuncCategory::Scalar, FuncDomain::Array, 2, Some(2), false))
        .push(spec_core_entry("array_intersect", FuncCategory::Scalar, FuncDomain::Array, 2, Some(2), false))
        .push(spec_core_entry("array_intersect_distinct", FuncCategory::Scalar, FuncDomain::Array, 2, Some(2), false))
        .push(spec_core_entry("array_length", FuncCategory::Scalar, FuncDomain::Array, 2, Some(2), false))
        .push(spec_core_entry("array_lower", FuncCategory::Scalar, FuncDomain::Array, 2, Some(2), false))
        .push(spec_core_entry("array_ndims", FuncCategory::Scalar, FuncDomain::Array, 1, Some(1), false))
        .push(spec_core_entry("array_next", FuncCategory::Scalar, FuncDomain::Array, 2, Some(2), false))
        .push(spec_commercial_entry("array_positions", FuncCategory::Scalar, FuncDomain::Array, 2, Some(2), false))
        .push(spec_core_entry("array_prepend", FuncCategory::Scalar, FuncDomain::Array, 2, Some(2), false))
        .push(spec_core_entry("array_prior", FuncCategory::Scalar, FuncDomain::Array, 2, Some(2), false))
        .push(spec_commercial_entry("array_sort", FuncCategory::Scalar, FuncDomain::Array, 1, Some(1), false))
        .push(spec_core_entry("array_to_json", FuncCategory::Scalar, FuncDomain::Json, 1, Some(2), false))
        .push(spec_core_entry("array_to_string", FuncCategory::Scalar, FuncDomain::Array, 2, Some(3), false))
        .push(spec_core_entry("array_trim", FuncCategory::Scalar, FuncDomain::Array, 2, Some(2), false))
        .push(spec_core_entry("array_union", FuncCategory::Scalar, FuncDomain::Array, 2, Some(2), false))
        .push(spec_core_entry("array_union_distinct", FuncCategory::Scalar, FuncDomain::Array, 2, Some(2), false))
        .push(spec_core_entry("array_upper", FuncCategory::Scalar, FuncDomain::Array, 2, Some(2), false))
        .push(spec_core_entry("ascii", FuncCategory::Scalar, FuncDomain::String, 1, Some(1), false))
        .push(spec_oracle_entry("ascii2", FuncCategory::Scalar, FuncDomain::String, 1, Some(1), false))
        .push(spec_oracle_entry("asciistr", FuncCategory::Scalar, FuncDomain::String, 1, Some(1), false))
        .push(spec_core_entry("asin", FuncCategory::Scalar, FuncDomain::Math, 1, Some(1), false))
        .push(spec_core_entry("atan", FuncCategory::Scalar, FuncDomain::Math, 1, Some(1), false))
        .push(spec_core_entry("atan2", FuncCategory::Scalar, FuncDomain::Math, 2, Some(2), false))
        .push(spec_core_entry("avg", FuncCategory::Aggregate, FuncDomain::Aggregate, 1, Some(1), true))
        .push(spec_core_entry("bit_and", FuncCategory::Aggregate, FuncDomain::Aggregate, 1, Some(1), true))
        .push(spec_core_entry("bit_length", FuncCategory::Scalar, FuncDomain::String, 1, Some(1), false))
        .push(spec_core_entry("bit_or", FuncCategory::Aggregate, FuncDomain::Aggregate, 1, Some(1), true))
        .push(spec_core_entry("broadcast", FuncCategory::Scalar, FuncDomain::Network, 1, Some(1), false))
        .push(spec_core_entry("btrim", FuncCategory::Scalar, FuncDomain::String, 1, Some(2), false))
        .push(spec_commercial_entry("cardinality", FuncCategory::Scalar, FuncDomain::Array, 1, Some(1), false))
        .push(spec_core_entry("cbrt", FuncCategory::Scalar, FuncDomain::Math, 1, Some(1), false))
        .push(spec_core_entry("ceil", FuncCategory::Scalar, FuncDomain::Math, 1, Some(1), false))
        .push(spec_core_entry("ceiling", FuncCategory::Scalar, FuncDomain::Math, 1, Some(1), false))
        .push(spec_core_entry("center", FuncCategory::Scalar, FuncDomain::Geometric, 1, Some(1), false))
        .push(spec_core_entry("char_length", FuncCategory::Scalar, FuncDomain::String, 1, Some(1), false))
        .push(spec_core_entry("character_length", FuncCategory::Scalar, FuncDomain::String, 1, Some(1), false))
        .push(spec_core_entry("chr", FuncCategory::Scalar, FuncDomain::String, 1, Some(1), false))
        .push(spec_core_entry("circle", FuncCategory::Scalar, FuncDomain::Geometric, 1, Some(1), false))
        .push(spec_core_entry("clock_timestamp", FuncCategory::Scalar, FuncDomain::DateTime, 0, Some(0), false))
        .push(spec_core_entry("coalesce", FuncCategory::Special, FuncDomain::Other, 2, None, false))
        .push(spec_core_entry("col_description", FuncCategory::Scalar, FuncDomain::System, 2, Some(3), false))
        .push(spec_core_entry("concat", FuncCategory::Scalar, FuncDomain::String, 2, None, false))
        .push(spec_core_entry("concat_ws", FuncCategory::Scalar, FuncDomain::String, 2, None, false))
        .push(spec_core_entry("convert", FuncCategory::Scalar, FuncDomain::TypeConversion, 2, Some(3), false))
        .push(spec_core_entry("convert_from", FuncCategory::Scalar, FuncDomain::TypeConversion, 2, Some(2), false))
        .push(spec_core_entry("convert_to", FuncCategory::Scalar, FuncDomain::TypeConversion, 2, Some(2), false))
        .push(spec_commercial_entry("convert_tz", FuncCategory::Scalar, FuncDomain::DateTime, 3, Some(3), false))
        .push(spec_core_entry("corr", FuncCategory::Aggregate, FuncDomain::Aggregate, 2, Some(2), true))
        .push(spec_core_entry("cos", FuncCategory::Scalar, FuncDomain::Math, 1, Some(1), false))
        .push(spec_core_entry("cot", FuncCategory::Scalar, FuncDomain::Math, 1, Some(1), false))
        .push(spec_core_entry("count", FuncCategory::Aggregate, FuncDomain::Aggregate, 1, Some(1), true))
        .push(spec_core_entry("covar_pop", FuncCategory::Aggregate, FuncDomain::Aggregate, 2, Some(2), true))
        .push(spec_core_entry("covar_samp", FuncCategory::Aggregate, FuncDomain::Aggregate, 2, Some(2), true))
        .push(spec_core_entry("crc32", FuncCategory::Scalar, FuncDomain::Hash, 1, Some(2), false))
        .push(spec_oracle_entry("createxml", FuncCategory::Scalar, FuncDomain::Xml, 1, Some(4), false))
        .push(spec_core_entry("cume_dist", FuncCategory::Window, FuncDomain::Window, 0, Some(0), false))
        .push(spec_commercial_entry("curdate", FuncCategory::Scalar, FuncDomain::DateTime, 0, Some(0), false))
        .push(spec_core_entry("current_database", FuncCategory::Scalar, FuncDomain::System, 0, Some(0), false))
        .push(spec_core_entry("current_date", FuncCategory::Scalar, FuncDomain::DateTime, 0, Some(0), false))
        .push(spec_core_entry("current_schema", FuncCategory::Scalar, FuncDomain::System, 0, Some(1), false))
        .push(spec_core_entry("current_setting", FuncCategory::Scalar, FuncDomain::System, 1, Some(2), false))
        .push(spec_core_entry("current_time", FuncCategory::Scalar, FuncDomain::DateTime, 0, Some(1), false))
        .push(spec_core_entry("current_timestamp", FuncCategory::Scalar, FuncDomain::DateTime, 0, Some(1), false))
        .push(spec_core_entry("current_user", FuncCategory::Scalar, FuncDomain::System, 0, Some(0), false))
        .push(spec_core_entry("currval", FuncCategory::Scalar, FuncDomain::System, 1, Some(2), false))
        .push(spec_core_entry("cursor_to_xml", FuncCategory::Scalar, FuncDomain::Xml, 5, Some(5), false))
        .push(spec_core_entry("cursor_to_xmlschema", FuncCategory::Scalar, FuncDomain::Xml, 5, Some(5), false))
        .push(spec_commercial_entry("curtime", FuncCategory::Scalar, FuncDomain::DateTime, 0, Some(1), false))
        .push(spec_core_entry("database_to_xml", FuncCategory::Scalar, FuncDomain::Xml, 4, Some(4), false))
        .push(spec_core_entry("database_to_xml_and_xmlschema", FuncCategory::Scalar, FuncDomain::Xml, 4, Some(4), false))
        .push(spec_core_entry("database_to_xmlschema", FuncCategory::Scalar, FuncDomain::Xml, 4, Some(4), false))
        .push(spec_commercial_entry("date_add", FuncCategory::Scalar, FuncDomain::DateTime, 2, Some(2), false))
        .push(spec_commercial_entry("date_format", FuncCategory::Scalar, FuncDomain::DateTime, 2, Some(2), false))
        .push(spec_core_entry("date_part", FuncCategory::Scalar, FuncDomain::DateTime, 2, Some(2), false))
        .push(spec_commercial_entry("date_sub", FuncCategory::Scalar, FuncDomain::DateTime, 2, Some(2), false))
        .push(spec_core_entry("date_trunc", FuncCategory::Scalar, FuncDomain::DateTime, 2, Some(2), false))
        .push(spec_commercial_entry("datediff", FuncCategory::Scalar, FuncDomain::DateTime, 2, Some(2), false))
        .push(spec_commercial_entry("dayname", FuncCategory::Scalar, FuncDomain::DateTime, 1, Some(1), false))
        .push(spec_commercial_entry("dayofmonth", FuncCategory::Scalar, FuncDomain::DateTime, 1, Some(1), false))
        .push(spec_commercial_entry("dayofweek", FuncCategory::Scalar, FuncDomain::DateTime, 1, Some(1), false))
        .push(spec_commercial_entry("dayofyear", FuncCategory::Scalar, FuncDomain::DateTime, 1, Some(1), false))
        .push(spec_oracle_entry("dbe_application_info.read_client_info", FuncCategory::Scalar, FuncDomain::DbeApplicationInfo, 0, Some(1), false))
        .push(spec_oracle_entry("dbe_application_info.read_module", FuncCategory::Scalar, FuncDomain::DbeApplicationInfo, 0, Some(2), false))
        .push(spec_oracle_entry("dbe_application_info.set_action", FuncCategory::Scalar, FuncDomain::DbeApplicationInfo, 1, Some(1), false))
        .push(spec_oracle_entry("dbe_application_info.set_client_info", FuncCategory::Scalar, FuncDomain::DbeApplicationInfo, 1, Some(1), false))
        .push(spec_oracle_entry("dbe_application_info.set_module", FuncCategory::Scalar, FuncDomain::DbeApplicationInfo, 2, Some(2), false))
        .push(spec_commercial_oracle_entry("dbe_compression.get_compression_ratio", FuncCategory::Scalar, FuncDomain::Other, 11, Some(13), false))
        .push(spec_commercial_oracle_entry("dbe_compression.get_compression_type", FuncCategory::Scalar, FuncDomain::Other, 4, Some(5), false))
        .push(spec_oracle_entry("dbe_file.close", FuncCategory::Scalar, FuncDomain::DbeFile, 1, Some(1), false))
        .push(spec_oracle_entry("dbe_file.close_all", FuncCategory::Scalar, FuncDomain::DbeFile, 0, Some(0), false))
        .push(spec_oracle_entry("dbe_file.copy", FuncCategory::Scalar, FuncDomain::DbeFile, 3, Some(3), false))
        .push(spec_oracle_entry("dbe_file.flush", FuncCategory::Scalar, FuncDomain::DbeFile, 1, Some(1), false))
        .push(spec_oracle_entry("dbe_file.fopen", FuncCategory::Scalar, FuncDomain::DbeFile, 3, Some(4), false))
        .push(spec_oracle_entry("dbe_file.fopen_nchar", FuncCategory::Scalar, FuncDomain::DbeFile, 3, Some(4), false))
        .push(spec_oracle_entry("dbe_file.format_write", FuncCategory::Scalar, FuncDomain::DbeFile, 2, Some(8), false))
        .push(spec_oracle_entry("dbe_file.format_write_nchar", FuncCategory::Scalar, FuncDomain::DbeFile, 2, Some(7), false))
        .push(spec_oracle_entry("dbe_file.get_attr", FuncCategory::Scalar, FuncDomain::DbeFile, 5, Some(5), false))
        .push(spec_oracle_entry("dbe_file.get_pos", FuncCategory::Scalar, FuncDomain::DbeFile, 1, Some(1), false))
        .push(spec_oracle_entry("dbe_file.get_raw", FuncCategory::Scalar, FuncDomain::DbeFile, 2, Some(3), false))
        .push(spec_oracle_entry("dbe_file.is_close", FuncCategory::Scalar, FuncDomain::DbeFile, 1, Some(1), false))
        .push(spec_oracle_entry("dbe_file.is_open", FuncCategory::Scalar, FuncDomain::DbeFile, 1, Some(1), false))
        .push(spec_oracle_entry("dbe_file.new_line", FuncCategory::Scalar, FuncDomain::DbeFile, 1, Some(2), false))
        .push(spec_oracle_entry("dbe_file.open", FuncCategory::Scalar, FuncDomain::DbeFile, 2, Some(4), false))
        .push(spec_oracle_entry("dbe_file.put_raw", FuncCategory::Scalar, FuncDomain::DbeFile, 2, Some(3), false))
        .push(spec_oracle_entry("dbe_file.read_line", FuncCategory::Scalar, FuncDomain::DbeFile, 2, Some(3), false))
        .push(spec_oracle_entry("dbe_file.read_line_nchar", FuncCategory::Scalar, FuncDomain::DbeFile, 2, Some(3), false))
}

fn push_table_part_1(v: &mut Vec<FuncMeta>)
    ensures
        final(v)@ == table_part_1(old(v)@),
{
    v.push(core_entry("abbrev", FuncCategory::Scalar, FuncDomain::Network, 1, Some(1), false));
    v.push(core_entry("abs", FuncCategory::Scalar, FuncDomain::Math, 1, Some(1), false));
    v.push(core_entry("acos", FuncCategory::Scalar, FuncDomain::Math, 1, Some(1), false));
    v.push(oracle_entry("add_months", FuncCategory::Scalar, FuncDomain::OracleCompat, 2, Some(2), false));
    v.push(commercial_entry("adddate", FuncCategory::Scalar, FuncDomain::DateTime, 2, Some(2), false));
    v.push(commercial_entry("addtime", FuncCategory::Scalar, FuncDomain::DateTime, 2, Some(2), false));
    v.push(core_entry("aes_decrypt", FuncCategory::Scalar, FuncDomain::Crypto, 2, Some(2), false));
    v.push(core_entry("aes_encrypt", FuncCategory::Scalar, FuncDomain::Crypto, 2, Some(2), false));
    v.push(core_entry("age", FuncCategory::Scalar, FuncDomain::DateTime, 1, Some(2), false));
    v.push(core_entry("area", FuncCategory::Scalar, FuncDomain::Geometric, 1, Some(1), false));
    v.push(core_entry("array_agg", FuncCategory::Aggregate, FuncDomain::Aggregate, 1, Some(1), true));
    v.push(core_entry("array_append", FuncCategory::Scalar, FuncDomain::Array, 2, Some(2), false));
    v.push(core_entry("array_cat", FuncCategory::Scalar, FuncDomain::Array, 2, Some(2), false));
    v.push(core_entry("array_delete", FuncCategory::Scalar, FuncDomain::Array, 1, Some(1), false));
    v.push(core_entry("array_deleteidx", FuncCategory::Scalar, FuncDomain::Array, 2, Some(2), false));
    v.push(core_entry("array_dims", FuncCategory::Scalar, FuncDomain::Array, 1, Some(1), false));
    v.push(core_entry("array_except", FuncCategory::Scalar, FuncDomain::Array, 2, Some(2), false));
    v.push(core_entry("array_except_distinct", FuncCategory::Scalar, FuncDomain::Array, 2, Some(2), false));
    v.push(core_entry("array_exists", FuncCategory::Scalar, FuncDomain::Array, 2, Some(2), false));
    v.push(core_entry("array_extendnull", FuncCategory::Scalar, FuncDomain::Array, 2, Some(2), false));
    v.push(core_entry("array_intersect", FuncCategory::Scalar, FuncDomain::Array, 2, Some(2), false));
    v.push(core_entry("array_intersect_distinct", FuncCategory::Scalar, FuncDomain::Array, 2, Some(2), false));
    v.push(core_entry("array_length", FuncCategory::Scalar, FuncDomain::Array, 2, Some(2), false));
    v.push(core_entry("array_lower", FuncCategory::Scalar, FuncDomain::Array, 2, Some(2), false));
    v.push(core_entry("array_ndims", FuncCategory::Scalar, FuncDomain::Array, 1, Some(1), false));
    v.push(core_entry("array_next", FuncCategory::Scalar, FuncDomain::Array, 2, Some(2), false));
    v.push(commercial_entry("array_positions", FuncCategory::Scalar, FuncDomain::Array, 2, Some(2), false));
    v.push(core_entry("array_prepend", FuncCategory::Scalar, FuncDomain::Array, 2, Some(2), false));
    v.push(core_entry("array_prior", FuncCategory::Scalar, FuncDomain::Array, 2, Some(2), false));
    v.push(commercial_entry("array_sort", FuncCategory::Scalar, FuncDomain::Array, 1, Some(1), false));
    v.push(core_entry("array_to_json", FuncCategory::Scalar, FuncDomain::Json, 1, Some(2), false));
    v.push(core_entry("array_to_string", FuncCategory::Scalar, FuncDomain::Array, 2, Some(3), false));
    v.push(core_entry("array_trim", FuncCategory::Scalar, FuncDomain::Array, 2, Some(2), false));
    v.push(core_entry("array_union", FuncCategory::Scalar, FuncDomain::Array, 2, Some(2), false));
    v.push(core_entry("array_union_distinct", FuncCategory::Scalar, FuncDomain::Array, 2, Some(2), false));
    v.push(core_entry("array_upper", FuncCategory::Scalar, FuncDomain::Array, 2, Some(2), false));
    v.push(core_entry("ascii", FuncCategory::Scalar, FuncDomain::String, 1, Some(1), false));
    v.push(oracle_entry("ascii2", FuncCategory::Scalar, FuncDomain::String, 1, Some(1), false));
    v.push(oracle_entry("asciistr", FuncCategory::Scalar, FuncDomain::String, 1, Some(1), false));
    v.push(core_entry("asin", FuncCategory::Scalar, FuncDomain::Math, 1, Some(1), false));
    v.push(core_entry("atan", FuncCategory::Scalar, FuncDomain::Math, 1, Some(1), false));
    v.push(core_entry("atan2", FuncCategory::Scalar, FuncDomain::Math, 2, Some(2), false));
    v.push(core_entry("avg", FuncCategory::Aggregate, FuncDomain::Aggregate, 1, Some(1), true));
    v.push(core_entry("bit_and", FuncCategory::Aggregate, FuncDomain::Aggregate, 1, Some(1), true));
    v.push(core_entry("bit_length", FuncCategory::Scalar, FuncDomain::String, 1, Some(1), false));
    v.push(core_entry("bit_or", FuncCategory::Aggregate, FuncDomain::Aggregate, 1, Some(1), true));
    v.push(core_entry("broadcast", FuncCategory::Scalar, FuncDomain::Network, 1, Some(1), false));
    v.push(core_entry("btrim", FuncCategory::Scalar, FuncDomain::String, 1, Some(2), false));
    v.push(commercial_entry("cardinality", FuncCategory::Scalar, FuncDomain::Array, 1, Some(1), false));
    v.push(core_entry("cbrt", FuncCategory::Scalar, FuncDomain::Math, 1, Some(1), false));
    v.push(core_entry("ceil", FuncCategory::Scalar, FuncDomain::Math, 1, Some(1), false));
    v.push(core_entry("ceiling", FuncCategory::Scalar, FuncDomain::Math, 1, Some(1), false));
    v.push(core_entry("center", FuncCategory::Scalar, FuncDomain::Geometric, 1, Some(1), false));
    v.push(core_entry("char_length", FuncCategory::Scalar, FuncDomain::String, 1, Some(1), false));
    v.push(core_entry("character_length", FuncCategory::Scalar, FuncDomain::String, 1, Some(1), false));
    v.push(core_entry("chr", FuncCategory::Scalar, FuncDomain::String, 1, Some(1), false));
    v.push(core_entry("circle", FuncCategory::Scalar, FuncDomain::Geometric, 1, Some(1), false));
    v.push(core_entry("clock_timestamp", FuncCategory::Scalar, FuncDomain::DateTime, 0, Some(0), false));
    v.push(core_entry("coalesce", FuncCategory::Special, FuncDomain::Other, 2, None, false));
    v.push(core_entry("col_description", FuncCategory::Scalar, FuncDomain::System, 2, Some(3), false));
    v.push(core_entry("concat", FuncCategory::Scalar, FuncDomain::String, 2, None, false));
    v.push(core_entry("concat_ws", FuncCategory::Scalar, FuncDomain::String, 2, None, false));
    v.push(core_entry("convert", FuncCategory::Scalar, FuncDomain::TypeConversion, 2, Some(3), false));
    v.push(core_entry("convert_from", FuncCategory::Scalar, FuncDomain::TypeConversion, 2, Some(2), false));
    v.push(core_entry("convert_to", FuncCategory::Scalar, FuncDomain::TypeConversion, 2, Some(2), false));
    v.push(commercial_entry("convert_tz", FuncCategory::Scalar, FuncDomain::DateTime, 3, Some(3), false));
    v.push(core_entry("corr", FuncCategory::Aggregate, FuncDomain::Aggregate, 2, Some(2), true));
    v.push(core_entry("cos", FuncCategory::Scalar, FuncDomain::Math, 1, Some(1), false));
    v.push(core_entry("cot", FuncCategory::Scalar, FuncDomain::Math, 1, Some(1), false));
    v.push(core_entry("count", FuncCategory::Aggregate, FuncDomain::Aggregate, 1, Some(1), true));
    v.push(core_entry("covar_pop", FuncCategory::Aggregate, FuncDomain::Aggregate, 2, Some(2), true));
    v.push(core_entry("covar_samp", FuncCategory::Aggregate, FuncDomain::Aggregate, 2, Some(2), true));
    v.push(core_entry("crc32", FuncCategory::Scalar, FuncDomain::Hash, 1, Some(2), false));
    v.push(oracle_entry("createxml", FuncCategory::Scalar, FuncDomain::Xml, 1, Some(4), false));
    v.push(core_entry("cume_dist", FuncCategory::Window, FuncDomain::Window, 0, Some(0), false));
    v.push(commercial_entry("curdate", FuncCategory::Scalar, FuncDomain::DateTime, 0, Some(0), false));
    v.push(core_entry("current_database", FuncCategory::Scalar, FuncDomain::System, 0, Some(0), false));
    v.push(core_entry("current_date", FuncCategory::Scalar, FuncDomain::DateTime, 0, Some(0), false));
    v.push(core_entry("current_schema", FuncCategory::Scalar, FuncDomain::System, 0, Some(1), false));
    v.push(core_entry("current_setting", FuncCategory::Scalar, FuncDomain::System, 1, Some(2), false));
    v.push(core_entry("current_time", FuncCategory::Scalar, FuncDomain::DateTime, 0, Some(1), false));
    v.push(core_entry("current_timestamp", FuncCategory::Scalar, FuncDomain::DateTime, 0, Some(1), false));
    v.push(core_entry("current_user", FuncCategory::Scalar, FuncDomain::System, 0, Some(0), false));
    v.push(core_entry("currval", FuncCategory::Scalar, FuncDomain::System, 1, Some(2), false));
    v.push(core_entry("cursor_to_xml", FuncCategory::Scalar, FuncDomain::Xml, 5, Some(5), false));
    v.push(core_entry("cursor_to_xmlschema", FuncCategory::Scalar, FuncDomain::Xml, 5, Some(5), false));
    v.push(commercial_entry("curtime", FuncCategory::Scalar, FuncDomain::DateTime, 0, Some(1), false));
    v.push(core_entry("database_to_xml", FuncCategory::Scalar, FuncDomain::Xml, 4, Some(4), false));
    v.push(core_entry("database_to_xml_and_xmlschema", FuncCategory::Scalar, FuncDomain::Xml, 4, Some(4), false));
    v.push(core_entry("database_to_xmlschema", FuncCategory::Scalar, FuncDomain::Xml, 4, Some(4), false));
    v.push(commercial_entry("date_add", FuncCategory::Scalar, FuncDomain::DateTime, 2, Some(2), false));
    v.push(commercial_entry("date_format", FuncCategory::Scalar, FuncDomain::DateTime, 2, Some(2), false));
    v.push(core_entry("date_part", FuncCategory::Scalar, FuncDomain::DateTime, 2, Some(2), false));
    v.push(commercial_entry("date_sub", FuncCategory::Scalar, FuncDomain::DateTime, 2, Some(2), false));
    v.push(core_entry("date_trunc", FuncCategory::Scalar, FuncDomain::DateTime, 2, Some(2), false));
    v.push(commercial_entry("datediff", FuncCategory::Scalar, FuncDomain::DateTime, 2, Some(2), false));
    v.push(commercial_entry("dayname", FuncCategory::Scalar, FuncDomain::DateTime, 1, Some(1), false));
    v.push(commercial_entry("dayofmonth", FuncCategory::Scalar, FuncDomain::DateTime, 1, Some(1), false));
    v.push(commercial_entry("dayofweek", FuncCategory::Scalar, FuncDomain::DateTime, 1, Some(1), false));
    v.push(commercial_entry("dayofyear", FuncCategory::Scalar, FuncDomain::DateTime, 1, Some(1), false));
    v.push(oracle_entry("dbe_application_info.read_client_info", FuncCategory::Scalar, FuncDomain::DbeApplicationInfo, 0, Some(1), false));
    v.push(oracle_entry("dbe_application_info.read_module", FuncCategory::Scalar, FuncDomain::DbeApplicationInfo, 0, Some(2), false));
    v.push(oracle_entry("dbe_application_info.set_action", FuncCategory::Scalar, FuncDomain::DbeApplicationInfo, 1, Some(1), false));
    v.push(oracle_entry("dbe_application_info.set_client_info", FuncCategory::Scalar, FuncDomain::DbeApplicationInfo, 1, Some(1), false));
    v.push(oracle_entry("dbe_application_info.set_module", FuncCategory::Scalar, FuncDomain::DbeApplicationInfo, 2, Some(2), false));
    v.push(commercial_oracle_entry("dbe_compression.get_compression_ratio", FuncCategory::Scalar, FuncDomain::Other, 11, Some(13), false));
    v.push(commercial_oracle_entry("dbe_compression.get_compression_type", FuncCategory::Scalar, FuncDomain::Other, 4, Some(5), false));
    v.push(oracle_entry("dbe_file.close", FuncCategory::Scalar, FuncDomain::DbeFile, 1, Some(1), false));
    v.push(oracle_entry("dbe_file.close_all", FuncCategory::Scalar, FuncDomain::DbeFile, 0, Some(0), false));
    v.push(oracle_entry("dbe_file.copy", FuncCategory::Scalar, FuncDomain::DbeFile, 3, Some(3), false));
    v.push(oracle_entry("dbe_file.flush", FuncCategory::Scalar, FuncDomain::DbeFile, 1, Some(1), false));
    v.push(oracle_entry("dbe_file.fopen", FuncCategory::Scalar, FuncDomain::DbeFile, 3, Some(4), false));
    v.push(oracle_entry("dbe_file.fopen_nchar", FuncCategory::Scalar, FuncDomain::DbeFile, 3, Some(4), false));
    v.push(oracle_entry("dbe_file.format_write", FuncCategory::Scalar, FuncDomain::DbeFile, 2, Some(8), false));
    v.push(oracle_entry("dbe_file.format_write_nchar", FuncCategory::Scalar, FuncDomain::DbeFile, 2, Some(7), false));
    v.push(oracle_entry("dbe_file.get_attr", FuncCategory::Scalar, FuncDomain::DbeFile, 5, Some(5), false));
    v.push(oracle_entry("dbe_file.get_pos", FuncCategory::Scalar, FuncDomain::DbeFile, 1, Some(1), false));
    v.push(oracle_entry("dbe_file.get_raw", FuncCategory::Scalar, FuncDomain::DbeFile, 2, Some(3), false));
    v.push(oracle_entry("dbe_file.is_close", FuncCategory::Scalar, FuncDomain::DbeFile, 1, Some(1), false));
    v.push(oracle_entry("dbe_file.is_open", FuncCategory::Scalar, FuncDomain::DbeFile, 1, Some(1), false));
    v.push(oracle_entry("dbe_file.new_line", FuncCategory::Scalar, FuncDomain::DbeFile, 1, Some(2), false));
    v.push(oracle_entry("dbe_file.open", FuncCategory::Scalar, FuncDomain::DbeFile, 2, Some(4), false));
    v.push(oracle_entry("dbe_file.put_raw", FuncCategory::Scalar, FuncDomain::DbeFile, 2, Some(3), false));
    v.push(oracle_entry("dbe_file.read_line", FuncCategory::Scalar, FuncDomain::DbeFile, 2, Some(3), false));
    v.push(oracle_entry("dbe_file.read_line_nchar", FuncCategory::Scalar, FuncDomain::DbeFile, 2, Some(3), false));
}

/// `s` followed by the entries from `dbe_file.remove` to `dbe_session.clear_context`.
pub closed spec fn table_part_2(s: Seq<FuncMeta>) -> Seq<FuncMeta> {
    s
        .push(spec_oracle_entry("dbe_file.remove", FuncCategory::Scalar, FuncDomain::DbeFile, 2, Some(2), false))
        .push(spec_oracle_entry("dbe_file.rename", FuncCategory::Scalar, FuncDomain::DbeFile, 3, Some(3), false))
        .push(spec_oracle_entry("dbe_file.seek", FuncCategory::Scalar, FuncDomain::DbeFile, 1, Some(3), false))
        .push(spec_oracle_entry("dbe_file.write", FuncCategory::Scalar, FuncDomain::DbeFile, 2, Some(2), false))
        .push(spec_oracle_entry("dbe_file.write_line", FuncCategory::Scalar, FuncDomain::DbeFile, 2, Some(2), false))
        .push(spec_oracle_entry("dbe_file.write_line_nchar", FuncCategory::Scalar, FuncDomain::DbeFile, 2, Some(2), false))
        .push(spec_oracle_entry("dbe_file.write_nchar", FuncCategory::Scalar, FuncDomain::DbeFile, 2, Some(2), false))
        .push(spec_commercial_oracle_entry("dbe_heat_map.row_heat_map", FuncCategory::Scalar, FuncDomain::Other, 3, Some(5), false))
        .push(spec_commercial_oracle_entry("dbe_ilm.execute_ilm", FuncCategory::Scalar, FuncDomain::Other, 3, Some(6), false))
        .push(spec_commercial_oracle_entry("dbe_ilm.stop_ilm", FuncCategory::Scalar, FuncDomain::Other, 0, Some(3), false))
        .push(spec_commercial_oracle_entry("dbe_ilm_admin.customize_ilm", FuncCategory::Scalar, FuncDomain::Other, 2, Some(2), false))
        .push(spec_commercial_oracle_entry("dbe_ilm_admin.disable_ilm", FuncCategory::Scalar, FuncDomain::Other, 0, Some(0), false))
        .push(spec_commercial_oracle_entry("dbe_ilm_admin.enable_ilm", FuncCategory::Scalar, FuncDomain::Other, 0, Some(0), false))
        .push(spec_oracle_entry("dbe_lob.append", FuncCategory::Scalar, FuncDomain::DbeLob, 2, Some(2), false))
        .push(spec_oracle_entry("dbe_lob.bfileclose", FuncCategory::Scalar, FuncDomain::DbeLob, 1, Some(1), false))
        .push(spec_oracle_entry("dbe_lob.bfilename", FuncCategory::Scalar, FuncDomain::DbeLob, 2, Some(2), false))
        .push(spec_oracle_entry("dbe_lob.bfileopen", FuncCategory::Scalar, FuncDomain::DbeLob, 1, Some(2), false))
        .push(spec_oracle_entry("dbe_lob.close", FuncCategory::Scalar, FuncDomain::DbeLob, 1, Some(1), false))
        .push(spec_oracle_entry("dbe_lob.compare", FuncCategory::Scalar, FuncDomain::DbeLob, 2, Some(3), false))
        .push(spec_oracle_entry("dbe_lob.converttoblob", FuncCategory::Scalar, FuncDomain::DbeLob, 2, Some(5), false))
        .push(spec_oracle_entry("dbe_lob.converttoclob", FuncCategory::Scalar, FuncDomain::DbeLob, 2, Some(5), false))
        .push(spec_oracle_entry("dbe_lob.copy", FuncCategory::Scalar, FuncDomain::DbeLob, 3, Some(5), false))
        .push(spec_oracle_entry("dbe_lob.create_temporary", FuncCategory::Scalar, FuncDomain::DbeLob, 1, Some(3), false))
        .push(spec_oracle_entry("dbe_lob.erase", FuncCategory::Scalar, FuncDomain::DbeLob, 2, Some(3), false))
        .push(spec_oracle_entry("dbe_lob.fileclose", FuncCategory::Scalar, FuncDomain::DbeLob, 1, Some(1), false))
        .push(spec_oracle_entry("dbe_lob.fileopen", FuncCategory::Scalar, FuncDomain::DbeLob, 2, Some(2), false))
        .push(spec_oracle_entry("dbe_lob.freetemporary", FuncCategory::Scalar, FuncDomain::DbeLob, 1, Some(1), false))
        .push(spec_oracle_entry("dbe_lob.get_length", FuncCategory::Scalar, FuncDomain::DbeLob, 1, Some(1), false))
        .push(spec_oracle_entry("dbe_lob.getchunksize", FuncCategory::Scalar, FuncDomain::DbeLob, 1, Some(1), false))
        .push(spec_oracle_entry("dbe_lob.instr", FuncCategory::Scalar, FuncDomain::DbeLob, 2, Some(4), false))
        .push(spec_oracle_entry("dbe_lob.loadblobfrombfile", FuncCategory::Scalar, FuncDomain::DbeLob, 5, Some(5), false))
        .push(spec_oracle_entry("dbe_lob.loadblobfromfile", FuncCategory::Scalar, FuncDomain::DbeLob, 5, Some(5), false))
        .push(spec_oracle_entry("dbe_lob.loadclobfrombfile", FuncCategory::Scalar, FuncDomain::DbeLob, 5, Some(5), false))
        .push(spec_oracle_entry("dbe_lob.loadclobfromfile", FuncCategory::Scalar, FuncDomain::DbeLob, 5, Some(5), false))
        .push(spec_oracle_entry("dbe_lob.loadfrombfile", FuncCategory::Scalar, FuncDomain::DbeLob, 3, Some(5), false))
        .push(spec_oracle_entry("dbe_lob.loadfromfile", FuncCategory::Scalar, FuncDomain::DbeLob, 5, Some(5), false))
        .push(spec_oracle_entry("dbe_lob.lob_append", FuncCategory::Scalar, FuncDomain::DbeLob, 2, Some(2), false))
        .push(spec_oracle_entry("dbe_lob.lob_converttoblob", FuncCategory::Scalar, FuncDomain::DbeLob, 5, Some(5), false))
        .push(spec_oracle_entry("dbe_lob.lob_converttoclob", FuncCategory::Scalar, FuncDomain::DbeLob, 5, Some(5), false))
        .push(spec_oracle_entry("dbe_lob.lob_copy", FuncCategory::Scalar, FuncDomain::DbeLob, 3, Some(5), false))
        .push(spec_oracle_entry("dbe_lob.lob_erase", FuncCategory::Scalar, FuncDomain::DbeLob, 2, Some(3), false))
        .push(spec_oracle_entry("dbe_lob.lob_get_length", FuncCategory::Scalar, FuncDomain::DbeLob, 1, Some(1), false))
        .push(spec_oracle_entry("dbe_lob.lob_read", FuncCategory::Scalar, FuncDomain::DbeLob, 3, Some(3), false))
        .push(spec_oracle_entry("dbe_lob.lob_strip", FuncCategory::Scalar, FuncDomain::DbeLob, 2, Some(2), false))
        .push(spec_oracle_entry("dbe_lob.lob_substr", FuncCategory::Scalar, FuncDomain::DbeLob, 1, Some(3), false))
        .push(spec_oracle_entry("dbe_lob.lob_write", FuncCategory::Scalar, FuncDomain::DbeLob, 4, Some(4), false))
        .push(spec_oracle_entry("dbe_lob.lob_write_append", FuncCategory::Scalar, FuncDomain::DbeLob, 2, Some(2), false))
        .push(spec_oracle_entry("dbe_lob.match", FuncCategory::Scalar, FuncDomain::DbeLob, 2, Some(4), false))
        .push(spec_oracle_entry("dbe_lob.open", FuncCategory::Scalar, FuncDomain::DbeLob, 1, Some(2), false))
        .push(spec_oracle_entry("dbe_lob.read", FuncCategory::Scalar, FuncDomain::DbeLob, 3, Some(3), false))
        .push(spec_oracle_entry("dbe_lob.strip", FuncCategory::Scalar, FuncDomain::DbeLob, 2, Some(2), false))
        .push(spec_oracle_entry("dbe_lob.substr", FuncCategory::Scalar, FuncDomain::DbeLob, 1, Some(3), false))
        .push(spec_oracle_entry("dbe_lob.trim", FuncCategory::Scalar, FuncDomain::DbeLob, 2, Some(2), false))
        .push(spec_oracle_entry("dbe_lob.write", FuncCategory::Scalar, FuncDomain::DbeLob, 3, Some(3), false))
        .push(spec_oracle_entry("dbe_lob.write_append", FuncCategory::Scalar, FuncDomain::DbeLob, 2, Some(2), false))
        .push(spec_oracle_entry("dbe_match.edit_distance_similarity", FuncCategory::Scalar, FuncDomain::DbeMatch, 2, Some(2), false))
        .push(spec_oracle_entry("dbe_output.disable", FuncCategory::Scalar, FuncDomain::DbeOutput, 0, Some(0), false))
        .push(spec_oracle_entry("dbe_output.enable", FuncCategory::Scalar, FuncDomain::DbeOutput, 0, Some(1), false))
        .push(spec_oracle_entry("dbe_output.get_line", FuncCategory::Scalar, FuncDomain::DbeOutput, 2, Some(2), false))
        .push(spec_oracle_entry("dbe_output.get_lines", FuncCategory::Scalar, FuncDomain::DbeOutput, 2, Some(2), false))
        .push(spec_oracle_entry("dbe_output.new_line", FuncCategory::Scalar, FuncDomain::DbeOutput, 0, Some(0), false))
        .push(spec_oracle_entry("dbe_output.print", FuncCategory::Scalar, FuncDomain::DbeOutput, 1, Some(1), false))
        .push(spec_oracle_entry("dbe_output.print_line", FuncCategory::Scalar, FuncDomain::DbeOutput, 1, Some(1), false))
        .push(spec_oracle_entry("dbe_output.put", FuncCategory::Scalar, FuncDomain::DbeOutput, 1, Some(1), false))
        .push(spec_oracle_entry("dbe_output.put_line", FuncCategory::Scalar, FuncDomain::DbeOutput, 1, Some(1), false))
        .push(spec_oracle_entry("dbe_output.set_buffer_size", FuncCategory::Scalar, FuncDomain::DbeOutput, 0, Some(1), false))
        .push(spec_commercial_entry("dbe_random.get_value", FuncCategory::Scalar, FuncDomain::DbeRandom, 0, Some(2), false))
        .push(spec_oracle_entry("dbe_raw.bit_and", FuncCategory::Scalar, FuncDomain::DbeRaw, 2, Some(2), false))
        .push(spec_oracle_entry("dbe_raw.bit_complement", FuncCategory::Scalar, FuncDomain::DbeRaw, 1, Some(1), false))
        .push(spec_oracle_entry("dbe_raw.bit_or", FuncCategory::Scalar, FuncDomain::DbeRaw, 2, Some(2), false))
        .push(spec_oracle_entry("dbe_raw.bit_xor", FuncCategory::Scalar, FuncDomain::DbeRaw, 2, Some(2), false))
        .push(spec_oracle_entry("dbe_raw.cast_from_binary_double_to_raw", FuncCategory::Scalar, FuncDomain::DbeRaw, 1, Some(2), false))
        .push(spec_oracle_entry("dbe_raw.cast_from_binary_float_to_raw", FuncCategory::Scalar, FuncDomain::DbeRaw, 1, Some(2), false))
        .push(spec_oracle_entry("dbe_raw.cast_from_binary_integer_to_raw", FuncCategory::Scalar, FuncDomain::DbeRaw, 1, Some(2), false))
        .push(spec_oracle_entry("dbe_raw.cast_from_number_to_raw", FuncCategory::Scalar, FuncDomain::DbeRaw, 1, Some(1), false))
        .push(spec_oracle_entry("dbe_raw.cast_from_raw_to_binary_double", FuncCategory::Scalar, FuncDomain::DbeRaw, 1, Some(2), false))
        .push(spec_oracle_entry("dbe_raw.cast_from_raw_to_binary_float", FuncCategory::Scalar, FuncDomain::DbeRaw, 1, Some(2), false))
        .push(spec_oracle_entry("dbe_raw.cast_from_raw_to_binary_integer", FuncCategory::Scalar, FuncDomain::DbeRaw, 1, Some(2), false))
        .push(spec_oracle_entry("dbe_raw.cast_from_raw_to_number", FuncCategory::Scalar, FuncDomain::DbeRaw, 1, Some(1), false))
        .push(spec_oracle_entry("dbe_raw.cast_from_raw_to_nvarchar2", FuncCategory::Scalar, FuncDomain::DbeRaw, 1, Some(1), false))
        .push(spec_oracle_entry("dbe_raw.cast_from_varchar2_to_raw", FuncCategory::Scalar, FuncDomain::DbeRaw, 1, Some(1), false))
        .push(spec_oracle_entry("dbe_raw.cast_to_varchar2", FuncCategory::Scalar, FuncDomain::DbeRaw, 1, Some(1), false))
        .push(spec_oracle_entry("dbe_raw.compare", FuncCategory::Scalar, FuncDomain::DbeRaw, 2, Some(3), false))
        .push(spec_oracle_entry("dbe_raw.concat", FuncCategory::Scalar, FuncDomain::DbeRaw, 0, Some(12), false))
        .push(spec_oracle_entry("dbe_raw.convert", FuncCategory::Scalar, FuncDomain::DbeRaw, 3, Some(3), false))
        .push(spec_oracle_entry("dbe_raw.copies", FuncCategory::Scalar, FuncDomain::DbeRaw, 2, Some(2), false))
        .push(spec_oracle_entry("dbe_raw.get_length", FuncCategory::Scalar, FuncDomain::DbeRaw, 1, Some(1), false))
        .push(spec_oracle_entry("dbe_raw.overlay", FuncCategory::Scalar, FuncDomain::DbeRaw, 2, Some(5), false))
        .push(spec_oracle_entry("dbe_raw.reverse", FuncCategory::Scalar, FuncDomain::DbeRaw, 1, Some(1), false))
        .push(spec_oracle_entry("dbe_raw.substr", FuncCategory::Scalar, FuncDomain::DbeRaw, 1, Some(3), false))
        .push(spec_oracle_entry("dbe_raw.translate", FuncCategory::Scalar, FuncDomain::DbeRaw, 3, Some(3), false))
        .push(spec_oracle_entry("dbe_raw.transliterate", FuncCategory::Scalar, FuncDomain::DbeRaw, 1, Some(4), false))
        .push(spec_oracle_entry("dbe_raw.xrange", FuncCategory::Scalar, FuncDomain::DbeRaw, 1, Some(2), false))
        .push(spec_oracle_entry("dbe_scheduler.create_credential", FuncCategory::Scalar, FuncDomain::DbeScheduler, 3, Some(3), false))
        .push(spec_oracle_entry("dbe_scheduler.create_job", FuncCategory::Scalar, FuncDomain::DbeScheduler, 1, None, false))
        .push(spec_oracle_entry("dbe_scheduler.create_job_class", FuncCategory::Scalar, FuncDomain::DbeScheduler, 1, Some(3), false))
        .push(spec_oracle_entry("dbe_scheduler.create_program", FuncCategory::Scalar, FuncDomain::DbeScheduler, 1, None, false))
        .push(spec_oracle_entry("dbe_scheduler.create_schedule", FuncCategory::Scalar, FuncDomain::DbeScheduler, 1, Some(3), false))
        .push(spec_oracle_entry("dbe_scheduler.define_program_argument", FuncCategory::Scalar, FuncDomain::DbeScheduler, 3, Some(5), false))
        .push(spec_oracle_entry("dbe_scheduler.disable", FuncCategory::Scalar, FuncDomain::DbeScheduler, 1, Some(2), false))
        .push(spec_oracle_entry("dbe_scheduler.disable_single", FuncCategory::Scalar, FuncDomain::DbeScheduler, 1, Some(2), false))
        .push(spec_oracle_entry("dbe_scheduler.drop_credential", FuncCategory::Scalar, FuncDomain::DbeScheduler, 1, Some(1), false))
        .push(spec_oracle_entry("dbe_scheduler.drop_job", FuncCategory::Scalar, FuncDomain::DbeScheduler, 1, None, false))
        .push(spec_oracle_entry("dbe_scheduler.drop_job_class", FuncCategory::Scalar, FuncDomain::DbeScheduler, 1, Some(1), false))
        .push(spec_oracle_entry("dbe_scheduler.drop_program", FuncCategory::Scalar, FuncDomain::DbeScheduler, 1, Some(1), false))
        .push(spec_oracle_entry("dbe_scheduler.drop_schedule", FuncCategory::Scalar, FuncDomain::DbeScheduler, 1, Some(1), false))
        .push(spec_oracle_entry("dbe_scheduler.drop_single_job", FuncCategory::Scalar, FuncDomain::DbeScheduler, 1, Some(3), false))
        .push(spec_oracle_entry("dbe_scheduler.drop_single_job_class", FuncCategory::Scalar, FuncDomain::DbeScheduler, 1, Some(2), false))
        .push(spec_oracle_entry("dbe_scheduler.drop_single_program", FuncCategory::Scalar, FuncDomain::DbeScheduler, 1, Some(2), false))
        .push(spec_oracle_entry("dbe_scheduler.drop_single_schedule", FuncCategory::Scalar, FuncDomain::DbeScheduler, 1, Some(2), false))
        .push(spec_oracle_entry("dbe_scheduler.enable", FuncCategory::Scalar, FuncDomain::DbeScheduler, 1, Some(2), false))
        .push(spec_oracle_entry("dbe_scheduler.enable_single", FuncCategory::Scalar, FuncDomain::DbeScheduler, 1, Some(1), false))
        .push(spec_oracle_entry("dbe_scheduler.eval_calendar_string", FuncCategory::Scalar, FuncDomain::DbeScheduler, 2, Some(2), false))
        .push(spec_oracle_entry("dbe_scheduler.evaluate_calendar_string", FuncCategory::Scalar, FuncDomain::DbeScheduler, 2, Some(2), false))
        .push(spec_oracle_entry("dbe_scheduler.generate_job_name", FuncCategory::Scalar, FuncDomain::DbeScheduler, 1, Some(1), false))
        .push(spec_oracle_entry("dbe_scheduler.grant_user_authorization", FuncCategory::Scalar, FuncDomain::DbeScheduler, 2, Some(2), false))
        .push(spec_oracle_entry("dbe_scheduler.revoke_user_authorization", FuncCategory::Scalar, FuncDomain::DbeScheduler, 2, Some(2), false))
        .push(spec_oracle_entry("dbe_scheduler.run_backend_job", FuncCategory::Scalar, FuncDomain::DbeScheduler, 1, Some(2), false))
        .push(spec_oracle_entry("dbe_scheduler.run_foreground_job", FuncCategory::Scalar, FuncDomain::DbeScheduler, 1, Some(2), false))
        .push(spec_oracle_entry("dbe_scheduler.run_job", FuncCategory::Scalar, FuncDomain::DbeScheduler, 1, Some(2), false))
        .push(spec_oracle_entry("dbe_scheduler.set_attribute", FuncCategory::Scalar, FuncDomain::DbeScheduler, 3, Some(3), false))
        .push(spec_oracle_entry("dbe_scheduler.set_job_argument_value", FuncCategory::Scalar, FuncDomain::DbeScheduler, 3, Some(3), false))
        .push(spec_oracle_entry("dbe_scheduler.stop_job", FuncCategory::Scalar, FuncDomain::DbeScheduler, 1, Some(2), false))
        .push(spec_oracle_entry("dbe_scheduler.stop_single_job", FuncCategory::Scalar, FuncDomain::DbeScheduler, 1, Some(2), false))
        .push(spec_oracle_entry("dbe_session.clear_context", FuncCategory::Scalar, FuncDomain::DbeSession, 2, Some(3), false))
}

fn push_table_part_2(v: &mut Vec<FuncMeta>)
    ensures
        final(v)@ == table_part_2(old(v)@),
{
    v.push(oracle_entry("dbe_file.remove", FuncCategory::Scalar, FuncDomain::DbeFile, 2, Some(2), false));
    v.push(oracle_entry("dbe_file.rename", FuncCategory::Scalar, FuncDomain::DbeFile, 3, Some(3), false));
    v.push(oracle_entry("dbe_file.seek", FuncCategory::Scalar, FuncDomain::DbeFile, 1, Some(3), false));
    v.push(oracle_entry("dbe_file.write", FuncCategory::Scalar, FuncDomain::DbeFile, 2, Some(2), false));
    v.push(oracle_entry("dbe_file.write_line", FuncCategory::Scalar, FuncDomain::DbeFile, 2, Some(2), false));
    v.push(oracle_entry("dbe_file.write_line_nchar", FuncCategory::Scalar, FuncDomain::DbeFile, 2, Some(2), false));
    v.push(oracle_entry("dbe_file.write_nchar", FuncCategory::Scalar, FuncDomain::DbeFile, 2, Some(2), false));
    v.push(commercial_oracle_entry("dbe_heat_map.row_heat_map", FuncCategory::Scalar, FuncDomain::Other, 3, Some(5), false));
    v.push(commercial_oracle_entry("dbe_ilm.execute_ilm", FuncCategory::Scalar, FuncDomain::Other, 3, Some(6), false));
    v.push(commercial_oracle_entry("dbe_ilm.stop_ilm", FuncCategory::Scalar, FuncDomain::Other, 0, Some(3), false));
    v.push(commercial_oracle_entry("dbe_ilm_admin.customize_ilm", FuncCategory::Scalar, FuncDomain::Other, 2, Some(2), false));
    v.push(commercial_oracle_entry("dbe_ilm_admin.disable_ilm", FuncCategory::Scalar, FuncDomain::Other, 0, Some(0), false));
    v.push(commercial_oracle_entry("dbe_ilm_admin.enable_ilm", FuncCategory::Scalar, FuncDomain::Other, 0, Some(0), false));
    v.push(oracle_entry("dbe_lob.append", FuncCategory::Scalar, FuncDomain::DbeLob, 2, Some(2), false));
    v.push(oracle_entry("dbe_lob.bfileclose", FuncCategory::Scalar, FuncDomain::DbeLob, 1, Some(1), false));
    v.push(oracle_entry("dbe_lob.bfilename", FuncCategory::Scalar, FuncDomain::DbeLob, 2, Some(2), false));
    v.push(oracle_entry("dbe_lob.bfileopen", FuncCategory::Scalar, FuncDomain::DbeLob, 1, Some(2), false));
    v.push(oracle_entry("dbe_lob.close", FuncCategory::Scalar, FuncDomain::DbeLob, 1, Some(1), false));
    v.push(oracle_entry("dbe_lob.compare", FuncCategory::Scalar, FuncDomain::DbeLob, 2, Some(3), false));
    v.push(oracle_entry("dbe_lob.converttoblob", FuncCategory::Scalar, FuncDomain::DbeLob, 2, Some(5), false));
    v.push(oracle_entry("dbe_lob.converttoclob", FuncCategory::Scalar, FuncDomain::DbeLob, 2, Some(5), false));
    v.push(oracle_entry("dbe_lob.copy", FuncCategory::Scalar, FuncDomain::DbeLob, 3, Some(5), false));
    v.push(oracle_entry("dbe_lob.create_temporary", FuncCategory::Scalar, FuncDomain::DbeLob, 1, Some(3), false));
    v.push(oracle_entry("dbe_lob.erase", FuncCategory::Scalar, FuncDomain::DbeLob, 2, Some(3), false));
    v.push(oracle_entry("dbe_lob.fileclose", FuncCategory::Scalar, FuncDomain::DbeLob, 1, Some(1), false));
    v.push(oracle_entry("dbe_lob.fileopen", FuncCategory::Scalar, FuncDomain::DbeLob, 2, Some(2), false));
    v.push(oracle_entry("dbe_lob.freetemporary", FuncCategory::Scalar, FuncDomain::DbeLob, 1, Some(1), false));
    v.push(oracle_entry("dbe_lob.get_length", FuncCategory::Scalar, FuncDomain::DbeLob, 1, Some(1), false));
    v.push(oracle_entry("dbe_lob.getchunksize", FuncCategory::Scalar, FuncDomain::DbeLob, 1, Some(1), false));
    v.push(oracle_entry("dbe_lob.instr", FuncCategory::Scalar, FuncDomain::DbeLob, 2, Some(4), false));
    v.push(oracle_entry("dbe_lob.loadblobfrombfile", FuncCategory::Scalar, FuncDomain::DbeLob, 5, Some(5), false));
    v.push(oracle_entry("dbe_lob.loadblobfromfile", FuncCategory::Scalar, FuncDomain::DbeLob, 5, Some(5), false));
    v.push(oracle_entry("dbe_lob.loadclobfrombfile", FuncCategory::Scalar, FuncDomain::DbeLob, 5, Some(5), false));
    v.push(oracle_entry("dbe_lob.loadclobfromfile", FuncCategory::Scalar, FuncDomain::DbeLob, 5, Some(5), false));
    v.push(oracle_entry("dbe_lob.loadfrombfile", FuncCategory::Scalar, FuncDomain::DbeLob, 3, Some(5), false));
    v.push(oracle_entry("dbe_lob.loadfromfile", FuncCategory::Scalar, FuncDomain::DbeLob, 5, Some(5), false));
    v.push(oracle_entry("dbe_lob.lob_append", FuncCategory::Scalar, FuncDomain::DbeLob, 2, Some(2), false));
    v.push(oracle_entry("dbe_lob.lob_converttoblob", FuncCategory::Scalar, FuncDomain::DbeLob, 5, Some(5), false));
    v.push(oracle_entry("dbe_lob.lob_converttoclob", FuncCategory::Scalar, FuncDomain::DbeLob, 5, Some(5), false));
    v.push(oracle_entry("dbe_lob.lob_copy", FuncCategory::Scalar, FuncDomain::DbeLob, 3, Some(5), false));
    v.push(oracle_entry("dbe_lob.lob_erase", FuncCategory::Scalar, FuncDomain::DbeLob, 2, Some(3), false));
    v.push(oracle_entry("dbe_lob.lob_get_length", FuncCategory::Scalar, FuncDomain::DbeLob, 1, Some(1), false));
    v.push(oracle_entry("dbe_lob.lob_read", FuncCategory::Scalar, FuncDomain::DbeLob, 3, Some(3), false));
    v.push(oracle_entry("dbe_lob.lob_strip", FuncCategory::Scalar, FuncDomain::DbeLob, 2, Some(2), false));
    v.push(oracle_entry("dbe_lob.lob_substr", FuncCategory::Scalar, FuncDomain::DbeLob, 1, Some(3), false));
    v.push(oracle_entry("dbe_lob.lob_write", FuncCategory::Scalar, FuncDomain::DbeLob, 4, Some(4), false));
    v.push(oracle_entry("dbe_lob.lob_write_append", FuncCategory::Scalar, FuncDomain::DbeLob, 2, Some(2), false));
    v.push(oracle_entry("dbe_lob.match", FuncCategory::Scalar, FuncDomain::DbeLob, 2, Some(4), false));
    v.push(oracle_entry("dbe_lob.open", FuncCategory::Scalar, FuncDomain::DbeLob, 1, Some(2), false));
    v.push(oracle_entry("dbe_lob.read", FuncCategory::Scalar, FuncDomain::DbeLob, 3, Some(3), false));
    v.push(oracle_entry("dbe_lob.strip", FuncCategory::Scalar, FuncDomain::DbeLob, 2, Some(2), false));
    v.push(oracle_entry("dbe_lob.substr", FuncCategory::Scalar, FuncDomain::DbeLob, 1, Some(3), false));
    v.push(oracle_entry("dbe_lob.trim", FuncCategory::Scalar, FuncDomain::DbeLob, 2, Some(2), false));
    v.push(oracle_entry("dbe_lob.write", FuncCategory::Scalar, FuncDomain::DbeLob, 3, Some(3), false));
    v.push(oracle_entry("dbe_lob.write_append", FuncCategory::Scalar, FuncDomain::DbeLob, 2, Some(2), false));
    v.push(oracle_entry("dbe_match.edit_distance_similarity", FuncCategory::Scalar, FuncDomain::DbeMatch, 2, Some(2), false));
    v.push(oracle_entry("dbe_output.disable", FuncCategory::Scalar, FuncDomain::DbeOutput, 0, Some(0), false));
    v.push(oracle_entry("dbe_output.enable", FuncCategory::Scalar, FuncDomain::DbeOutput, 0, Some(1), false));
    v.push(oracle_entry("dbe_output.get_line", FuncCategory::Scalar, FuncDomain::DbeOutput, 2, Some(2), false));
    v.push(oracle_entry("dbe_output.get_lines", FuncCategory::Scalar, FuncDomain::DbeOutput, 2, Some(2), false));
    v.push(oracle_entry("dbe_output.new_line", FuncCategory::Scalar, FuncDomain::DbeOutput, 0, Some(0), false));
    v.push(oracle_entry("dbe_output.print", FuncCategory::Scalar, FuncDomain::DbeOutput, 1, Some(1), false));
    v.push(oracle_entry("dbe_output.print_line", FuncCategory::Scalar, FuncDomain::DbeOutput, 1, Some(1), false));
    v.push(oracle_entry("dbe_output.put", FuncCategory::Scalar, FuncDomain::DbeOutput, 1, Some(1), false));
    v.push(oracle_entry("dbe_output.put_line", FuncCategory::Scalar, FuncDomain::DbeOutput, 1, Some(1), false));
    v.push(oracle_entry("dbe_output.set_buffer_size", FuncCategory::Scalar, FuncDomain::DbeOutput, 0, Some(1), false));
    v.push(commercial_entry("dbe_random.get_value", FuncCategory::Scalar, FuncDomain::DbeRandom, 0, Some(2), false));
    v.push(oracle_entry("dbe_raw.bit_and", FuncCategory::Scalar, FuncDomain::DbeRaw, 2, Some(2), false));
    v.push(oracle_entry("dbe_raw.bit_complement", FuncCategory::Scalar, FuncDomain::DbeRaw, 1, Some(1), false));
    v.push(oracle_entry("dbe_raw.bit_or", FuncCategory::Scalar, FuncDomain::DbeRaw, 2, Some(2), false));
    v.push(oracle_entry("dbe_raw.bit_xor", FuncCategory::Scalar, FuncDomain::DbeRaw, 2, Some(2), false));
    v.push(oracle_entry("dbe_raw.cast_from_binary_double_to_raw", FuncCategory::Scalar, FuncDomain::DbeRaw, 1, Some(2), false));
    v.push(oracle_entry("dbe_raw.cast_from_binary_float_to_raw", FuncCategory::Scalar, FuncDomain::DbeRaw, 1, Some(2), false));
    v.push(oracle_entry("dbe_raw.cast_from_binary_integer_to_raw", FuncCategory::Scalar, FuncDomain::DbeRaw, 1, Some(2), false));
    v.push(oracle_entry("dbe_raw.cast_from_number_to_raw", FuncCategory::Scalar, FuncDomain::DbeRaw, 1, Some(1), false));
    v.push(oracle_entry("dbe_raw.cast_from_raw_to_binary_double", FuncCategory::Scalar, FuncDomain::DbeRaw, 1, Some(2), false));
    v.push(oracle_entry("dbe_raw.cast_from_raw_to_binary_float", FuncCategory::Scalar, FuncDomain::DbeRaw, 1, Some(2), false));
    v.push(oracle_entry("dbe_raw.cast_from_raw_to_binary_integer", FuncCategory::Scalar, FuncDomain::DbeRaw, 1, Some(2), false));
    v.push(oracle_entry("dbe_raw.cast_from_raw_to_number", FuncCategory::Scalar, FuncDomain::DbeRaw, 1, Some(1), false));
    v.push(oracle_entry("dbe_raw.cast_from_raw_to_nvarchar2", FuncCategory::Scalar, FuncDomain::DbeRaw, 1, Some(1), false));
    v.push(oracle_entry("dbe_raw.cast_from_varchar2_to_raw", FuncCategory::Scalar, FuncDomain::DbeRaw, 1, Some(1), false));
    v.push(oracle_entry("dbe_raw.cast_to_varchar2", FuncCategory::Scalar, FuncDomain::DbeRaw, 1, Some(1), false));
    v.push(oracle_entry("dbe_raw.compare", FuncCategory::Scalar, FuncDomain::DbeRaw, 2, Some(3), false));
    v.push(oracle_entry("dbe_raw.concat", FuncCategory::Scalar, FuncDomain::DbeRaw, 0, Some(12), false));
    v.push(oracle_entry("dbe_raw.convert", FuncCategory::Scalar, FuncDomain::DbeRaw, 3, Some(3), false));
    v.push(oracle_entry("dbe_raw.copies", FuncCategory::Scalar, FuncDomain::DbeRaw, 2, Some(2), false));
    v.push(oracle_entry("dbe_raw.get_length", FuncCategory::Scalar, FuncDomain::DbeRaw, 1, Some(1), false));
    v.push(oracle_entry("dbe_raw.overlay", FuncCategory::Scalar, FuncDomain::DbeRaw, 2, Some(5), false));
    v.push(oracle_entry("dbe_raw.reverse", FuncCategory::Scalar, FuncDomain::DbeRaw, 1, Some(1), false));
    v.push(oracle_entry("dbe_raw.substr", FuncCategory::Scalar, FuncDomain::DbeRaw, 1, Some(3), false));
    v.push(oracle_entry("dbe_raw.translate", FuncCategory::Scalar, FuncDomain::DbeRaw, 3, Some(3), false));
    v.push(oracle_entry("dbe_raw.transliterate", FuncCategory::Scalar, FuncDomain::DbeRaw, 1, Some(4), false));
    v.push(oracle_entry("dbe_raw.xrange", FuncCategory::Scalar, FuncDomain::DbeRaw, 1, Some(2), false));
    v.push(oracle_entry("dbe_scheduler.create_credential", FuncCategory::Scalar, FuncDomain::DbeScheduler, 3, Some(3), false));
    v.push(oracle_entry("dbe_scheduler.create_job", FuncCategory::Scalar, FuncDomain::DbeScheduler, 1, None, false));
    v.push(oracle_entry("dbe_scheduler.create_job_class", FuncCategory::Scalar, FuncDomain::DbeScheduler, 1, Some(3), false));
    v.push(oracle_entry("dbe_scheduler.create_program", FuncCategory::Scalar, FuncDomain::DbeScheduler, 1, None, false));
    v.push(oracle_entry("dbe_scheduler.create_schedule", FuncCategory::Scalar, FuncDomain::DbeScheduler, 1, Some(3), false));
    v.push(oracle_entry("dbe_scheduler.define_program_argument", FuncCategory::Scalar, FuncDomain::DbeScheduler, 3, Some(5), false));
    v.push(oracle_entry("dbe_scheduler.disable", FuncCategory::Scalar, FuncDomain::DbeScheduler, 1, Some(2), false));
    v.push(oracle_entry("dbe_scheduler.disable_single", FuncCategory::Scalar, FuncDomain::DbeScheduler, 1, Some(2), false));
    v.push(oracle_entry("dbe_scheduler.drop_credential", FuncCategory::Scalar, FuncDomain::DbeScheduler, 1, Some(1), false));
    v.push(oracle_entry("dbe_scheduler.drop_job", FuncCategory::Scalar, FuncDomain::DbeScheduler, 1, None, false));
    v.push(oracle_entry("dbe_scheduler.drop_job_class", FuncCategory::Scalar, FuncDomain::DbeScheduler, 1, Some(1), false));
    v.push(oracle_entry("dbe_scheduler.drop_program", FuncCategory::Scalar, FuncDomain::DbeScheduler, 1, Some(1), false));
    v.push(oracle_entry("dbe_scheduler.drop_schedule", FuncCategory::Scalar, FuncDomain::DbeScheduler, 1, Some(1), false));
    v.push(oracle_entry("dbe_scheduler.drop_single_job", FuncCategory::Scalar, FuncDomain::DbeScheduler, 1, Some(3), false));
    v.push(oracle_entry("dbe_scheduler.drop_single_job_class", FuncCategory::Scalar, FuncDomain::DbeScheduler, 1, Some(2), false));
    v.push(oracle_entry("dbe_scheduler.drop_single_program", FuncCategory::Scalar, FuncDomain::DbeScheduler, 1, Some(2), false));
    v.push(oracle_entry("dbe_scheduler.drop_single_schedule", FuncCategory::Scalar, FuncDomain::DbeScheduler, 1, Some(2), false));
    v.push(oracle_entry("dbe_scheduler.enable", FuncCategory::Scalar, FuncDomain::DbeScheduler, 1, Some(2), false));
    v.push(oracle_entry("dbe_scheduler.enable_single", FuncCategory::Scalar, FuncDomain::DbeScheduler, 1, Some(1), false));
    v.push(oracle_entry("dbe_scheduler.eval_calendar_string", FuncCategory::Scalar, FuncDomain::DbeScheduler, 2, Some(2), false));
    v.push(oracle_entry("dbe_scheduler.evaluate_calendar_string", FuncCategory::Scalar, FuncDomain::DbeScheduler, 2, Some(2), false));
    v.push(oracle_entry("dbe_scheduler.generate_job_name", FuncCategory::Scalar, FuncDomain::DbeScheduler, 1, Some(1), false));
    v.push(oracle_entry("dbe_scheduler.grant_user_authorization", FuncCategory::Scalar, FuncDomain::DbeScheduler, 2, Some(2), false));
    v.push(oracle_entry("dbe_scheduler.revoke_user_authorization", FuncCategory::Scalar, FuncDomain::DbeScheduler, 2, Some(2), false));
    v.push(oracle_entry("dbe_scheduler.run_backend_job", FuncCategory::Scalar, FuncDomain::DbeScheduler, 1, Some(2), false));
    v.push(oracle_entry("dbe_scheduler.run_foreground_job", FuncCategory::Scalar, FuncDomain::DbeScheduler, 1, Some(2), false));
    v.push(oracle_entry("dbe_scheduler.run_job", FuncCategory::Scalar, FuncDomain::DbeScheduler, 1, Some(2), false));
    v.push(oracle_entry("dbe_scheduler.set_attribute", FuncCategory::Scalar, FuncDomain::DbeScheduler, 3, Some(3), false));
    v.push(oracle_entry("dbe_scheduler.set_job_argument_value", FuncCategory::Scalar, FuncDomain::DbeScheduler, 3, Some(3), false));
    v.push(oracle_entry("dbe_scheduler.stop_job", FuncCategory::Scalar, FuncDomain::DbeScheduler, 1, Some(2), false));
    v.push(oracle_entry("dbe_scheduler.stop_single_job", FuncCategory::Scalar, FuncDomain::DbeScheduler, 1, Some(2), false));
    v.push(oracle_entry("dbe_session.clear_context", FuncCategory::Scalar, FuncDomain::DbeSession, 2, Some(3), false));
}

/// `s` followed by the entries from `dbe_session.set_context` to `dbe_xmldom.freenodelist`.
pub closed spec fn table_part_3(s: Seq<FuncMeta>) -> Seq<FuncMeta> {
    s
        .push(spec_oracle_entry("dbe_session.set_context", FuncCategory::Scalar, FuncDomain::DbeSession, 3, Some(3), false))
        .push(spec_oracle_entry("dbe_sql.bind_variable", FuncCategory::Scalar, FuncDomain::DbeSql, 3, Some(4), false))
        .push(spec_oracle_entry("dbe_sql.close_cursor", FuncCategory::Scalar, FuncDomain::DbeSql, 1, Some(1), false))
        .push(spec_oracle_entry("dbe_sql.column_value", FuncCategory::Scalar, FuncDomain::DbeSql, 3, Some(3), false))
        .push(spec_oracle_entry("dbe_sql.dbe_sql_get_result_char", FuncCategory::Scalar, FuncDomain::DbeSql, 2, Some(2), false))
        .push(spec_oracle_entry("dbe_sql.dbe_sql_get_result_long", FuncCategory::Scalar, FuncDomain::DbeSql, 2, Some(2), false))
        .push(spec_oracle_entry("dbe_sql.dbe_sql_get_result_raw", FuncCategory::Scalar, FuncDomain::DbeSql, 3, Some(3), false))
        .push(spec_oracle_entry("dbe_sql.describe_columns", FuncCategory::Scalar, FuncDomain::DbeSql, 3, Some(3), false))
        .push(spec_oracle_entry("dbe_sql.execute", FuncCategory::Scalar, FuncDomain::DbeSql, 1, Some(2), false))
        .push(spec_oracle_entry("dbe_sql.fetch_rows", FuncCategory::Scalar, FuncDomain::DbeSql, 1, Some(1), false))
        .push(spec_oracle_entry("dbe_sql.get_array_result_char", FuncCategory::Scalar, FuncDomain::DbeSql, 3, Some(3), false))
        .push(spec_oracle_entry("dbe_sql.get_array_result_int", FuncCategory::Scalar, FuncDomain::DbeSql, 3, Some(3), false))
        .push(spec_oracle_entry("dbe_sql.get_array_result_raw", FuncCategory::Scalar, FuncDomain::DbeSql, 3, Some(3), false))
        .push(spec_oracle_entry("dbe_sql.get_array_result_text", FuncCategory::Scalar, FuncDomain::DbeSql, 3, Some(3), false))
        .push(spec_oracle_entry("dbe_sql.get_result", FuncCategory::Scalar, FuncDomain::DbeSql, 3, Some(3), false))
        .push(spec_oracle_entry("dbe_sql.get_result_bytea", FuncCategory::Scalar, FuncDomain::DbeSql, 2, Some(2), false))
        .push(spec_oracle_entry("dbe_sql.get_result_char", FuncCategory::Scalar, FuncDomain::DbeSql, 3, Some(5), false))
        .push(spec_oracle_entry("dbe_sql.get_result_int", FuncCategory::Scalar, FuncDomain::DbeSql, 2, Some(2), false))
        .push(spec_oracle_entry("dbe_sql.get_result_long", FuncCategory::Scalar, FuncDomain::DbeSql, 6, Some(6), false))
        .push(spec_oracle_entry("dbe_sql.get_result_raw", FuncCategory::Scalar, FuncDomain::DbeSql, 3, Some(5), false))
        .push(spec_oracle_entry("dbe_sql.get_result_text", FuncCategory::Scalar, FuncDomain::DbeSql, 2, Some(2), false))
        .push(spec_oracle_entry("dbe_sql.get_result_unknown", FuncCategory::Scalar, FuncDomain::DbeSql, 3, Some(3), false))
        .push(spec_oracle_entry("dbe_sql.get_results", FuncCategory::Scalar, FuncDomain::DbeSql, 3, Some(3), false))
        .push(spec_oracle_entry("dbe_sql.get_results_bytea", FuncCategory::Scalar, FuncDomain::DbeSql, 3, Some(3), false))
        .push(spec_oracle_entry("dbe_sql.get_results_char", FuncCategory::Scalar, FuncDomain::DbeSql, 3, Some(3), false))
        .push(spec_oracle_entry("dbe_sql.get_results_int", FuncCategory::Scalar, FuncDomain::DbeSql, 3, Some(3), false))
        .push(spec_oracle_entry("dbe_sql.get_results_raw", FuncCategory::Scalar, FuncDomain::DbeSql, 3, Some(3), false))
        .push(spec_oracle_entry("dbe_sql.get_results_text", FuncCategory::Scalar, FuncDomain::DbeSql, 3, Some(3), false))
        .push(spec_oracle_entry("dbe_sql.get_variable_result", FuncCategory::Scalar, FuncDomain::DbeSql, 3, Some(3), false))
        .push(spec_oracle_entry("dbe_sql.get_variable_result_char", FuncCategory::Scalar, FuncDomain::DbeSql, 2, Some(2), false))
        .push(spec_oracle_entry("dbe_sql.get_variable_result_int", FuncCategory::Scalar, FuncDomain::DbeSql, 3, Some(3), false))
        .push(spec_oracle_entry("dbe_sql.get_variable_result_raw", FuncCategory::Scalar, FuncDomain::DbeSql, 3, Some(3), false))
        .push(spec_oracle_entry("dbe_sql.get_variable_result_text", FuncCategory::Scalar, FuncDomain::DbeSql, 2, Some(2), false))
        .push(spec_oracle_entry("dbe_sql.is_active", FuncCategory::Scalar, FuncDomain::DbeSql, 1, Some(1), false))
        .push(spec_oracle_entry("dbe_sql.last_row_count", FuncCategory::Scalar, FuncDomain::DbeSql, 0, Some(0), false))
        .push(spec_oracle_entry("dbe_sql.next_row", FuncCategory::Scalar, FuncDomain::DbeSql, 1, Some(1), false))
        .push(spec_oracle_entry("dbe_sql.open_cursor", FuncCategory::Scalar, FuncDomain::DbeSql, 0, Some(0), false))
        .push(spec_oracle_entry("dbe_sql.register_context", FuncCategory::Scalar, FuncDomain::DbeSql, 0, Some(0), false))
        .push(spec_oracle_entry("dbe_sql.register_variable", FuncCategory::Scalar, FuncDomain::DbeSql, 3, Some(3), false))
        .push(spec_oracle_entry("dbe_sql.run_and_next", FuncCategory::Scalar, FuncDomain::DbeSql, 1, Some(1), false))
        .push(spec_oracle_entry("dbe_sql.set_result_type", FuncCategory::Scalar, FuncDomain::DbeSql, 3, Some(4), false))
        .push(spec_oracle_entry("dbe_sql.set_result_type_bytea", FuncCategory::Scalar, FuncDomain::DbeSql, 4, Some(4), false))
        .push(spec_oracle_entry("dbe_sql.set_result_type_byteas", FuncCategory::Scalar, FuncDomain::DbeSql, 6, Some(6), false))
        .push(spec_oracle_entry("dbe_sql.set_result_type_char", FuncCategory::Scalar, FuncDomain::DbeSql, 4, Some(4), false))
        .push(spec_oracle_entry("dbe_sql.set_result_type_chars", FuncCategory::Scalar, FuncDomain::DbeSql, 6, Some(6), false))
        .push(spec_oracle_entry("dbe_sql.set_result_type_int", FuncCategory::Scalar, FuncDomain::DbeSql, 2, Some(2), false))
        .push(spec_oracle_entry("dbe_sql.set_result_type_ints", FuncCategory::Scalar, FuncDomain::DbeSql, 5, Some(5), false))
        .push(spec_oracle_entry("dbe_sql.set_result_type_long", FuncCategory::Scalar, FuncDomain::DbeSql, 2, Some(2), false))
        .push(spec_oracle_entry("dbe_sql.set_result_type_raw", FuncCategory::Scalar, FuncDomain::DbeSql, 4, Some(4), false))
        .push(spec_oracle_entry("dbe_sql.set_result_type_raws", FuncCategory::Scalar, FuncDomain::DbeSql, 6, Some(6), false))
        .push(spec_oracle_entry("dbe_sql.set_result_type_text", FuncCategory::Scalar, FuncDomain::DbeSql, 3, Some(3), false))
        .push(spec_oracle_entry("dbe_sql.set_result_type_texts", FuncCategory::Scalar, FuncDomain::DbeSql, 6, Some(6), false))
        .push(spec_oracle_entry("dbe_sql.set_result_type_unknown", FuncCategory::Scalar, FuncDomain::DbeSql, 3, Some(3), false))
        .push(spec_oracle_entry("dbe_sql.set_results_type", FuncCategory::Scalar, FuncDomain::DbeSql, 5, Some(6), false))
        .push(spec_oracle_entry("dbe_sql.sql_bind_array", FuncCategory::Scalar, FuncDomain::DbeSql, 3, Some(5), false))
        .push(spec_oracle_entry("dbe_sql.sql_bind_variable", FuncCategory::Scalar, FuncDomain::DbeSql, 3, Some(4), false))
        .push(spec_oracle_entry("dbe_sql.sql_describe_columns", FuncCategory::Scalar, FuncDomain::DbeSql, 3, Some(3), false))
        .push(spec_oracle_entry("dbe_sql.sql_get_tableof_values_c", FuncCategory::Scalar, FuncDomain::DbeSql, 4, Some(4), false))
        .push(spec_oracle_entry("dbe_sql.sql_get_values_c", FuncCategory::Scalar, FuncDomain::DbeSql, 4, Some(4), false))
        .push(spec_oracle_entry("dbe_sql.sql_run", FuncCategory::Scalar, FuncDomain::DbeSql, 1, Some(1), false))
        .push(spec_oracle_entry("dbe_sql.sql_set_results_type_c", FuncCategory::Scalar, FuncDomain::DbeSql, 7, Some(7), false))
        .push(spec_oracle_entry("dbe_sql.sql_set_sql", FuncCategory::Scalar, FuncDomain::DbeSql, 3, Some(3), false))
        .push(spec_oracle_entry("dbe_sql.sql_set_tableof_results_type_c", FuncCategory::Scalar, FuncDomain::DbeSql, 7, Some(7), false))
        .push(spec_oracle_entry("dbe_sql.sql_unregister_context", FuncCategory::Scalar, FuncDomain::DbeSql, 1, Some(1), false))
        .push(spec_oracle_entry("dbe_sql_util.create_abort_sql_patch", FuncCategory::Scalar, FuncDomain::DbeSqlUtil, 1, Some(3), false))
        .push(spec_oracle_entry("dbe_sql_util.create_hint_sql_patch", FuncCategory::Scalar, FuncDomain::DbeSqlUtil, 1, Some(3), false))
        .push(spec_oracle_entry("dbe_sql_util.disable_sql_patch", FuncCategory::Scalar, FuncDomain::DbeSqlUtil, 1, Some(1), false))
        .push(spec_oracle_entry("dbe_sql_util.drop_sql_patch", FuncCategory::Scalar, FuncDomain::DbeSqlUtil, 1, Some(1), false))
        .push(spec_oracle_entry("dbe_sql_util.enable_sql_patch", FuncCategory::Scalar, FuncDomain::DbeSqlUtil, 1, Some(1), false))
        .push(spec_oracle_entry("dbe_sql_util.show_sql_patch", FuncCategory::Scalar, FuncDomain::DbeSqlUtil, 0, Some(1), false))
        .push(spec_oracle_entry("dbe_stats.get_stats_history_availability", FuncCategory::Scalar, FuncDomain::DbeStats, 0, Some(0), false))
        .push(spec_oracle_entry("dbe_stats.get_stats_history_retention", FuncCategory::Scalar, FuncDomain::DbeStats, 0, Some(0), false))
        .push(spec_oracle_entry("dbe_stats.lock_column_stats", FuncCategory::Scalar, FuncDomain::DbeStats, 3, Some(3), false))
        .push(spec_oracle_entry("dbe_stats.lock_partition_stats", FuncCategory::Scalar, FuncDomain::DbeStats, 3, Some(3), false))
        .push(spec_oracle_entry("dbe_stats.lock_schema_stats", FuncCategory::Scalar, FuncDomain::DbeStats, 1, Some(1), false))
        .push(spec_oracle_entry("dbe_stats.lock_table_stats", FuncCategory::Scalar, FuncDomain::DbeStats, 1, Some(1), false))
        .push(spec_oracle_entry("dbe_stats.purge_stats", FuncCategory::Scalar, FuncDomain::DbeStats, 1, Some(1), false))
        .push(spec_oracle_entry("dbe_stats.restore_column_stats", FuncCategory::Scalar, FuncDomain::DbeStats, 6, Some(6), false))
        .push(spec_oracle_entry("dbe_stats.restore_partition_stats", FuncCategory::Scalar, FuncDomain::DbeStats, 6, Some(6), false))
        .push(spec_oracle_entry("dbe_stats.restore_schema_stats", FuncCategory::Scalar, FuncDomain::DbeStats, 4, Some(4), false))
        .push(spec_oracle_entry("dbe_stats.restore_table_stats", FuncCategory::Scalar, FuncDomain::DbeStats, 5, Some(5), false))
        .push(spec_oracle_entry("dbe_stats.unlock_column_stats", FuncCategory::Scalar, FuncDomain::DbeStats, 3, Some(3), false))
        .push(spec_oracle_entry("dbe_stats.unlock_partition_stats", FuncCategory::Scalar, FuncDomain::DbeStats, 3, Some(3), false))
        .push(spec_oracle_entry("dbe_stats.unlock_schema_stats", FuncCategory::Scalar, FuncDomain::DbeStats, 1, Some(1), false))
        .push(spec_oracle_entry("dbe_stats.unlock_table_stats", FuncCategory::Scalar, FuncDomain::DbeStats, 1, Some(1), false))
        .push(spec_oracle_entry("dbe_task.cancel", FuncCategory::Scalar, FuncDomain::DbeTask, 1, Some(1), false))
        .push(spec_oracle_entry("dbe_task.change", FuncCategory::Scalar, FuncDomain::DbeTask, 1, Some(4), false))
        .push(spec_oracle_entry("dbe_task.content", FuncCategory::Scalar, FuncDomain::DbeTask, 2, Some(2), false))
        .push(spec_oracle_entry("dbe_task.finish", FuncCategory::Scalar, FuncDomain::DbeTask, 2, Some(3), false))
        .push(spec_oracle_entry("dbe_task.id_submit", FuncCategory::Scalar, FuncDomain::DbeTask, 2, Some(4), false))
        .push(spec_oracle_entry("dbe_task.interval", FuncCategory::Scalar, FuncDomain::DbeTask, 2, Some(2), false))
        .push(spec_oracle_entry("dbe_task.job_submit", FuncCategory::Scalar, FuncDomain::DbeTask, 1, Some(3), false))
        .push(spec_oracle_entry("dbe_task.next_time", FuncCategory::Scalar, FuncDomain::DbeTask, 2, Some(2), false))
        .push(spec_oracle_entry("dbe_task.run", FuncCategory::Scalar, FuncDomain::DbeTask, 1, Some(2), false))
        .push(spec_oracle_entry("dbe_task.submit", FuncCategory::Scalar, FuncDomain::DbeTask, 1, Some(4), false))
        .push(spec_oracle_entry("dbe_task.update", FuncCategory::Scalar, FuncDomain::DbeTask, 4, Some(4), false))
        .push(spec_oracle_entry("dbe_utility.canonicalize", FuncCategory::Scalar, FuncDomain::DbeUtility, 2, Some(3), false))
        .push(spec_oracle_entry("dbe_utility.comma_to_table", FuncCategory::Scalar, FuncDomain::DbeUtility, 3, Some(3), false))
        .push(spec_oracle_entry("dbe_utility.compile_schema", FuncCategory::Scalar, FuncDomain::DbeUtility, 1, Some(3), false))
        .push(spec_oracle_entry("dbe_utility.db_version", FuncCategory::Scalar, FuncDomain::DbeUtility, 1, Some(1), false))
        .push(spec_oracle_entry("dbe_utility.exec_ddl_statement", FuncCategory::Scalar, FuncDomain::DbeUtility, 1, Some(1), false))
        .push(spec_oracle_entry("dbe_utility.expand_sql_text_proc", FuncCategory::Scalar, FuncDomain::DbeUtility, 2, Some(2), false))
        .push(spec_oracle_entry("dbe_utility.format_call_stack", FuncCategory::Scalar, FuncDomain::DbeUtility, 0, Some(0), false))
        .push(spec_oracle_entry("dbe_utility.format_error_backtrace", FuncCategory::Scalar, FuncDomain::DbeUtility, 0, Some(0), false))
        .push(spec_oracle_entry("dbe_utility.format_error_stack", FuncCategory::Scalar, FuncDomain::DbeUtility, 0, Some(0), false))
        .push(spec_oracle_entry("dbe_utility.get_cpu_time", FuncCategory::Scalar, FuncDomain::DbeUtility, 0, Some(0), false))
        .push(spec_oracle_entry("dbe_utility.get_endianness", FuncCategory::Scalar, FuncDomain::DbeUtility, 0, Some(0), false))
        .push(spec_oracle_entry("dbe_utility.get_hash_value", FuncCategory::Scalar, FuncDomain::DbeUtility, 3, Some(3), false))
        .push(spec_oracle_entry("dbe_utility.get_sql_hash", FuncCategory::Scalar, FuncDomain::DbeUtility, 3, Some(3), false))
        .push(spec_oracle_entry("dbe_utility.get_sql_hash_func", FuncCategory::Scalar, FuncDomain::DbeUtility, 3, Some(3), false))
        .push(spec_oracle_entry("dbe_utility.get_time", FuncCategory::Scalar, FuncDomain::DbeUtility, 0, Some(0), false))
        .push(spec_oracle_entry("dbe_utility.is_bit_set", FuncCategory::Scalar, FuncDomain::DbeUtility, 2, Some(2), false))
        .push(spec_oracle_entry("dbe_utility.is_cluster_database", FuncCategory::Scalar, FuncDomain::DbeUtility, 0, Some(0), false))
        .push(spec_oracle_entry("dbe_utility.name_resolve", FuncCategory::Scalar, FuncDomain::DbeUtility, 8, Some(8), false))
        .push(spec_oracle_entry("dbe_utility.name_tokenize", FuncCategory::Scalar, FuncDomain::DbeUtility, 6, Some(6), false))
        .push(spec_oracle_entry("dbe_utility.old_current_schema", FuncCategory::Scalar, FuncDomain::DbeUtility, 0, Some(0), false))
        .push(spec_oracle_entry("dbe_utility.old_current_user", FuncCategory::Scalar, FuncDomain::DbeUtility, 0, Some(0), false))
        .push(spec_oracle_entry("dbe_utility.table_to_comma", FuncCategory::Scalar, FuncDomain::DbeUtility, 3, Some(3), false))
        .push(spec_commercial_oracle_entry("dbe_xmldom.appendchild", FuncCategory::Scalar, FuncDomain::DbeXmlDom, 2, Some(2), false))
        .push(spec_commercial_oracle_entry("dbe_xmldom.createelement", FuncCategory::Scalar, FuncDomain::DbeXmlDom, 2, Some(3), false))
        .push(spec_commercial_oracle_entry("dbe_xmldom.createtextnode", FuncCategory::Scalar, FuncDomain::DbeXmlDom, 2, Some(2), false))
        .push(spec_commercial_oracle_entry("dbe_xmldom.freedocument", FuncCategory::Scalar, FuncDomain::DbeXmlDom, 1, Some(1), false))
        .push(spec_commercial_oracle_entry("dbe_xmldom.freeelement", FuncCategory::Scalar, FuncDomain::DbeXmlDom, 1, Some(1), false))
        .push(spec_commercial_oracle_entry("dbe_xmldom.freenode", FuncCategory::Scalar, FuncDomain::DbeXmlDom, 1, Some(1), false))
        .push(spec_commercial_oracle_entry("dbe_xmldom.freenodelist", FuncCategory::Scalar, FuncDomain::DbeXmlDom, 1, Some(1), false))
}

fn push_table_part_3(v: &mut Vec<FuncMeta>)
    ensures
        final(v)@ == table_part_3(old(v)@),
{
    v.push(oracle_entry("dbe_session.set_context", FuncCategory::Scalar, FuncDomain::DbeSession, 3, Some(3), false));
    v.push(oracle_entry("dbe_sql.bind_variable", FuncCategory::Scalar, FuncDomain::DbeSql, 3, Some(4), false));
    v.push(oracle_entry("dbe_sql.close_cursor", FuncCategory::Scalar, FuncDomain::DbeSql, 1, Some(1), false));
    v.push(oracle_entry("dbe_sql.column_value", FuncCategory::Scalar, FuncDomain::DbeSql, 3, Some(3), false));
    v.push(oracle_entry("dbe_sql.dbe_sql_get_result_char", FuncCategory::Scalar, FuncDomain::DbeSql, 2, Some(2), false));
    v.push(oracle_entry("dbe_sql.dbe_sql_get_result_long", FuncCategory::Scalar, FuncDomain::DbeSql, 2, Some(2), false));
    v.push(oracle_entry("dbe_sql.dbe_sql_get_result_raw", FuncCategory::Scalar, FuncDomain::DbeSql, 3, Some(3), false));
    v.push(oracle_entry("dbe_sql.describe_columns", FuncCategory::Scalar, FuncDomain::DbeSql, 3, Some(3), false));
    v.push(oracle_entry("dbe_sql.execute", FuncCategory::Scalar, FuncDomain::DbeSql, 1, Some(2), false));
    v.push(oracle_entry("dbe_sql.fetch_rows", FuncCategory::Scalar, FuncDomain::DbeSql, 1, Some(1), false));
    v.push(oracle_entry("dbe_sql.get_array_result_char", FuncCategory::Scalar, FuncDomain::DbeSql, 3, Some(3), false));
    v.push(oracle_entry("dbe_sql.get_array_result_int", FuncCategory::Scalar, FuncDomain::DbeSql, 3, Some(3), false));
    v.push(oracle_entry("dbe_sql.get_array_result_raw", FuncCategory::Scalar, FuncDomain::DbeSql, 3, Some(3), false));
    v.push(oracle_entry("dbe_sql.get_array_result_text", FuncCategory::Scalar, FuncDomain::DbeSql, 3, Some(3), false));
    v.push(oracle_entry("dbe_sql.get_result", FuncCategory::Scalar, FuncDomain::DbeSql, 3, Some(3), false));
    v.push(oracle_entry("dbe_sql.get_result_bytea", FuncCategory::Scalar, FuncDomain::DbeSql, 2, Some(2), false));
    v.push(oracle_entry("dbe_sql.get_result_char", FuncCategory::Scalar, FuncDomain::DbeSql, 3, Some(5), false));
    v.push(oracle_entry("dbe_sql.get_result_int", FuncCategory::Scalar, FuncDomain::DbeSql, 2, Some(2), false));
    v.push(oracle_entry("dbe_sql.get_result_long", FuncCategory::Scalar, FuncDomain::DbeSql, 6, Some(6), false));
    v.push(oracle_entry("dbe_sql.get_result_raw", FuncCategory::Scalar, FuncDomain::DbeSql, 3, Some(5), false));
    v.push(oracle_entry("dbe_sql.get_result_text", FuncCategory::Scalar, FuncDomain::DbeSql, 2, Some(2), false));
    v.push(oracle_entry("dbe_sql.get_result_unknown", FuncCategory::Scalar, FuncDomain::DbeSql, 3, Some(3), false));
    v.push(oracle_entry("dbe_sql.get_results", FuncCategory::Scalar, FuncDomain::DbeSql, 3, Some(3), false));
    v.push(oracle_entry("dbe_sql.get_results_bytea", FuncCategory::Scalar, FuncDomain::DbeSql, 3, Some(3), false));
    v.push(oracle_entry("dbe_sql.get_results_char", FuncCategory::Scalar, FuncDomain::DbeSql, 3, Some(3), false));
    v.push(oracle_entry("dbe_sql.get_results_int", FuncCategory::Scalar, FuncDomain::DbeSql, 3, Some(3), false));
    v.push(oracle_entry("dbe_sql.get_results_raw", FuncCategory::Scalar, FuncDomain::DbeSql, 3, Some(3), false));
    v.push(oracle_entry("dbe_sql.get_results_text", FuncCategory::Scalar, FuncDomain::DbeSql, 3, Some(3), false));
    v.push(oracle_entry("dbe_sql.get_variable_result", FuncCategory::Scalar, FuncDomain::DbeSql, 3, Some(3), false));
    v.push(oracle_entry("dbe_sql.get_variable_result_char", FuncCategory::Scalar, FuncDomain::DbeSql, 2, Some(2), false));
    v.push(oracle_entry("dbe_sql.get_variable_result_int", FuncCategory::Scalar, FuncDomain::DbeSql, 3, Some(3), false));
    v.push(oracle_entry("dbe_sql.get_variable_result_raw", FuncCategory::Scalar, FuncDomain::DbeSql, 3, Some(3), false));
    v.push(oracle_entry("dbe_sql.get_variable_result_text", FuncCategory::Scalar, FuncDomain::DbeSql, 2, Some(2), false));
    v.push(oracle_entry("dbe_sql.is_active", FuncCategory::Scalar, FuncDomain::DbeSql, 1, Some(1), false));
    v.push(oracle_entry("dbe_sql.last_row_count", FuncCategory::Scalar, FuncDomain::DbeSql, 0, Some(0), false));
    v.push(oracle_entry("dbe_sql.next_row", FuncCategory::Scalar, FuncDomain::DbeSql, 1, Some(1), false));
    v.push(oracle_entry("dbe_sql.open_cursor", FuncCategory::Scalar, FuncDomain::DbeSql, 0, Some(0), false));
    v.push(oracle_entry("dbe_sql.register_context", FuncCategory::Scalar, FuncDomain::DbeSql, 0, Some(0), false));
    v.push(oracle_entry("dbe_sql.register_variable", FuncCategory::Scalar, FuncDomain::DbeSql, 3, Some(3), false));
    v.push(oracle_entry("dbe_sql.run_and_next", FuncCategory::Scalar, FuncDomain::DbeSql, 1, Some(1), false));
    v.push(oracle_entry("dbe_sql.set_result_type", FuncCategory::Scalar, FuncDomain::DbeSql, 3, Some(4), false));
    v.push(oracle_entry("dbe_sql.set_result_type_bytea", FuncCategory::Scalar, FuncDomain::DbeSql, 4, Some(4), false));
    v.push(oracle_entry("dbe_sql.set_result_type_byteas", FuncCategory::Scalar, FuncDomain::DbeSql, 6, Some(6), false));
    v.push(oracle_entry("dbe_sql.set_result_type_char", FuncCategory::Scalar, FuncDomain::DbeSql, 4, Some(4), false));
    v.push(oracle_entry("dbe_sql.set_result_type_chars", FuncCategory::Scalar, FuncDomain::DbeSql, 6, Some(6), false));
    v.push(oracle_entry("dbe_sql.set_result_type_int", FuncCategory::Scalar, FuncDomain::DbeSql, 2, Some(2), false));
    v.push(oracle_entry("dbe_sql.set_result_type_ints", FuncCategory::Scalar, FuncDomain::DbeSql, 5, Some(5), false));
    v.push(oracle_entry("dbe_sql.set_result_type_long", FuncCategory::Scalar, FuncDomain::DbeSql, 2, Some(2), false));
    v.push(oracle_entry("dbe_sql.set_result_type_raw", FuncCategory::Scalar, FuncDomain::DbeSql, 4, Some(4), false));
    v.push(oracle_entry("dbe_sql.set_result_type_raws", FuncCategory::Scalar, FuncDomain::DbeSql, 6, Some(6), false));
    v.push(oracle_entry("dbe_sql.set_result_type_text", FuncCategory::Scalar, FuncDomain::DbeSql, 3, Some(3), false));
    v.push(oracle_entry("dbe_sql.set_result_type_texts", FuncCategory::Scalar, FuncDomain::DbeSql, 6, Some(6), false));
    v.push(oracle_entry("dbe_sql.set_result_type_unknown", FuncCategory::Scalar, FuncDomain::DbeSql, 3, Some(3), false));
    v.push(oracle_entry("dbe_sql.set_results_type", FuncCategory::Scalar, FuncDomain::DbeSql, 5, Some(6), false));
    v.push(oracle_entry("dbe_sql.sql_bind_array", FuncCategory::Scalar, FuncDomain::DbeSql, 3, Some(5), false));
    v.push(oracle_entry("dbe_sql.sql_bind_variable", FuncCategory::Scalar, FuncDomain::DbeSql, 3, Some(4), false));
    v.push(oracle_entry("dbe_sql.sql_describe_columns", FuncCategory::Scalar, FuncDomain::DbeSql, 3, Some(3), false));
    v.push(oracle_entry("dbe_sql.sql_get_tableof_values_c", FuncCategory::Scalar, FuncDomain::DbeSql, 4, Some(4), false));
    v.push(oracle_entry("dbe_sql.sql_get_values_c", FuncCategory::Scalar, FuncDomain::DbeSql, 4, Some(4), false));
    v.push(oracle_entry("dbe_sql.sql_run", FuncCategory::Scalar, FuncDomain::DbeSql, 1, Some(1), false));
    v.push(oracle_entry("dbe_sql.sql_set_results_type_c", FuncCategory::Scalar, FuncDomain::DbeSql, 7, Some(7), false));
    v.push(oracle_entry("dbe_sql.sql_set_sql", FuncCategory::Scalar, FuncDomain::DbeSql, 3, Some(3), false));
    v.push(oracle_entry("dbe_sql.sql_set_tableof_results_type_c", FuncCategory::Scalar, FuncDomain::DbeSql, 7, Some(7), false));
    v.push(oracle_entry("dbe_sql.sql_unregister_context", FuncCategory::Scalar, FuncDomain::DbeSql, 1, Some(1), false));
    v.push(oracle_entry("dbe_sql_util.create_abort_sql_patch", FuncCategory::Scalar, FuncDomain::DbeSqlUtil, 1, Some(3), false));
    v.push(oracle_entry("dbe_sql_util.create_hint_sql_patch", FuncCategory::Scalar, FuncDomain::DbeSqlUtil, 1, Some(3), false));
    v.push(oracle_entry("dbe_sql_util.disable_sql_patch", FuncCategory::Scalar, FuncDomain::DbeSqlUtil, 1, Some(1), false));
    v.push(oracle_entry("dbe_sql_util.drop_sql_patch", FuncCategory::Scalar, FuncDomain::DbeSqlUtil, 1, Some(1), false));
    v.push(oracle_entry("dbe_sql_util.enable_sql_patch", FuncCategory::Scalar, FuncDomain::DbeSqlUtil, 1, Some(1), false));
    v.push(oracle_entry("dbe_sql_util.show_sql_patch", FuncCategory::Scalar, FuncDomain::DbeSqlUtil, 0, Some(1), false));
    v.push(oracle_entry("dbe_stats.get_stats_history_availability", FuncCategory::Scalar, FuncDomain::DbeStats, 0, Some(0), false));
    v.push(oracle_entry("dbe_stats.get_stats_history_retention", FuncCategory::Scalar, FuncDomain::DbeStats, 0, Some(0), false));
    v.push(oracle_entry("dbe_stats.lock_column_stats", FuncCategory::Scalar, FuncDomain::DbeStats, 3, Some(3), false));
    v.push(oracle_entry("dbe_stats.lock_partition_stats", FuncCategory::Scalar, FuncDomain::DbeStats, 3, Some(3), false));
    v.push(oracle_entry("dbe_stats.lock_schema_stats", FuncCategory::Scalar, FuncDomain::DbeStats, 1, Some(1), false));
    v.push(oracle_entry("dbe_stats.lock_table_stats", FuncCategory::Scalar, FuncDomain::DbeStats, 1, Some(1), false));
    v.push(oracle_entry("dbe_stats.purge_stats", FuncCategory::Scalar, FuncDomain::DbeStats, 1, Some(1), false));
    v.push(oracle_entry("dbe_stats.restore_column_stats", FuncCategory::Scalar, FuncDomain::DbeStats, 6, Some(6), false));
    v.push(oracle_entry("dbe_stats.restore_partition_stats", FuncCategory::Scalar, FuncDomain::DbeStats, 6, Some(6), false));
    v.push(oracle_entry("dbe_stats.restore_schema_stats", FuncCategory::Scalar, FuncDomain::DbeStats, 4, Some(4), false));
    v.push(oracle_entry("dbe_stats.restore_table_stats", FuncCategory::Scalar, FuncDomain::DbeStats, 5, Some(5), false));
    v.push(oracle_entry("dbe_stats.unlock_column_stats", FuncCategory::Scalar, FuncDomain::DbeStats, 3, Some(3), false));
    v.push(oracle_entry("dbe_stats.unlock_partition_stats", FuncCategory::Scalar, FuncDomain::DbeStats, 3, Some(3), false));
    v.push(oracle_entry("dbe_stats.unlock_schema_stats", FuncCategory::Scalar, FuncDomain::DbeStats, 1, Some(1), false));
    v.push(oracle_entry("dbe_stats.unlock_table_stats", FuncCategory::Scalar, FuncDomain::DbeStats, 1, Some(1), false));
    v.push(oracle_entry("dbe_task.cancel", FuncCategory::Scalar, FuncDomain::DbeTask, 1, Some(1), false));
    v.push(oracle_entry("dbe_task.change", FuncCategory::Scalar, FuncDomain::DbeTask, 1, Some(4), false));
    v.push(oracle_entry("dbe_task.content", FuncCategory::Scalar, FuncDomain::DbeTask, 2, Some(2), false));
    v.push(oracle_entry("dbe_task.finish", FuncCategory::Scalar, FuncDomain::DbeTask, 2, Some(3), false));
    v.push(oracle_entry("dbe_task.id_submit", FuncCategory::Scalar, FuncDomain::DbeTask, 2, Some(4), false));
    v.push(oracle_entry("dbe_task.interval", FuncCategory::Scalar, FuncDomain::DbeTask, 2, Some(2), false));
    v.push(oracle_entry("dbe_task.job_submit", FuncCategory::Scalar, FuncDomain::DbeTask, 1, Some(3), false));
    v.push(oracle_entry("dbe_task.next_time", FuncCategory::Scalar, FuncDomain::DbeTask, 2, Some(2), false));
    v.push(oracle_entry("dbe_task.run", FuncCategory::Scalar, FuncDomain::DbeTask, 1, Some(2), false));
    v.push(oracle_entry("dbe_task.submit", FuncCategory::Scalar, FuncDomain::DbeTask, 1, Some(4), false));
    v.push(oracle_entry("dbe_task.update", FuncCategory::Scalar, FuncDomain::DbeTask, 4, Some(4), false));
    v.push(oracle_entry("dbe_utility.canonicalize", FuncCategory::Scalar, FuncDomain::DbeUtility, 2, Some(3), false));
    v.push(oracle_entry("dbe_utility.comma_to_table", FuncCategory::Scalar, FuncDomain::DbeUtility, 3, Some(3), false));
    v.push(oracle_entry("dbe_utility.compile_schema", FuncCategory::Scalar, FuncDomain::DbeUtility, 1, Some(3), false));
    v.push(oracle_entry("dbe_utility.db_version", FuncCategory::Scalar, FuncDomain::DbeUtility, 1, Some(1), false));
    v.push(oracle_entry("dbe_utility.exec_ddl_statement", FuncCategory::Scalar, FuncDomain::DbeUtility, 1, Some(1), false));
    v.push(oracle_entry("dbe_utility.expand_sql_text_proc", FuncCategory::Scalar, FuncDomain::DbeUtility, 2, Some(2), false));
    v.push(oracle_entry("dbe_utility.format_call_stack", FuncCategory::Scalar, FuncDomain::DbeUtility, 0, Some(0), false));
    v.push(oracle_entry("dbe_utility.format_error_backtrace", FuncCategory::Scalar, FuncDomain::DbeUtility, 0, Some(0), false));
    v.push(oracle_entry("dbe_utility.format_error_stack", FuncCategory::Scalar, FuncDomain::DbeUtility, 0, Some(0), false));
    v.push(oracle_entry("dbe_utility.get_cpu_time", FuncCategory::Scalar, FuncDomain::DbeUtility, 0, Some(0), false));
    v.push(oracle_entry("dbe_utility.get_endianness", FuncCategory::Scalar, FuncDomain::DbeUtility, 0, Some(0), false));
    v.push(oracle_entry("dbe_utility.get_hash_value", FuncCategory::Scalar, FuncDomain::DbeUtility, 3, Some(3), false));
    v.push(oracle_entry("dbe_utility.get_sql_hash", FuncCategory::Scalar, FuncDomain::DbeUtility, 3, Some(3), false));
    v.push(oracle_entry("dbe_utility.get_sql_hash_func", FuncCategory::Scalar, FuncDomain::DbeUtility, 3, Some(3), false));
    v.push(oracle_entry("dbe_utility.get_time", FuncCategory::Scalar, FuncDomain::DbeUtility, 0, Some(0), false));
    v.push(oracle_entry("dbe_utility.is_bit_set", FuncCategory::Scalar, FuncDomain::DbeUtility, 2, Some(2), false));
    v.push(oracle_entry("dbe_utility.is_cluster_database", FuncCategory::Scalar, FuncDomain::DbeUtility, 0, Some(0), false));
    v.push(oracle_entry("dbe_utility.name_resolve", FuncCategory::Scalar, FuncDomain::DbeUtility, 8, Some(8), false));
    v.push(oracle_entry("dbe_utility.name_tokenize", FuncCategory::Scalar, FuncDomain::DbeUtility, 6, Some(6), false));
    v.push(oracle_entry("dbe_utility.old_current_schema", FuncCategory::Scalar, FuncDomain::DbeUtility, 0, Some(0), false));
    v.push(oracle_entry("dbe_utility.old_current_user", FuncCategory::Scalar, FuncDomain::DbeUtility, 0, Some(0), false));
    v.push(oracle_entry("dbe_utility.table_to_comma", FuncCategory::Scalar, FuncDomain::DbeUtility, 3, Some(3), false));
    v.push(commercial_oracle_entry("dbe_xmldom.appendchild", FuncCategory::Scalar, FuncDomain::DbeXmlDom, 2, Some(2), false));
    v.push(commercial_oracle_entry("dbe_xmldom.createelement", FuncCategory::Scalar, FuncDomain::DbeXmlDom, 2, Some(3), false));
    v.push(commercial_oracle_entry("dbe_xmldom.createtextnode", FuncCategory::Scalar, FuncDomain::DbeXmlDom, 2, Some(2), false));
    v.push(commercial_oracle_entry("dbe_xmldom.freedocument", FuncCategory::Scalar, FuncDomain::DbeXmlDom, 1, Some(1), false));
    v.push(commercial_oracle_entry("dbe_xmldom.freeelement", FuncCategory::Scalar, FuncDomain::DbeXmlDom, 1, Some(1), false));
    v.push(commercial_oracle_entry("dbe_xmldom.freenode", FuncCategory::Scalar, FuncDomain::DbeXmlDom, 1, Some(1), false));
    v.push(commercial_oracle_entry("dbe_xmldom.freenodelist", FuncCategory::Scalar, FuncDomain::DbeXmlDom, 1, Some(1), false));
}

/// `s` followed by the entries from `dbe_xmldom.getattribute` to `json_contains`.
pub closed spec fn table_part_4(s: Seq<FuncMeta>) -> Seq<FuncMeta> {
    s
        .push(spec_commercial_oracle_entry("dbe_xmldom.getattribute", FuncCategory::Scalar, FuncDomain::DbeXmlDom, 2, Some(3), false))
        .push(spec_commercial_oracle_entry("dbe_xmldom.getattributes", FuncCategory::Scalar, FuncDomain::DbeXmlDom, 1, Some(1), false))
        .push(spec_commercial_oracle_entry("dbe_xmldom.getchildnodes", FuncCategory::Scalar, FuncDomain::DbeXmlDom, 1, Some(1), false))
        .push(spec_commercial_oracle_entry("dbe_xmldom.getchildrenbytagname", FuncCategory::Scalar, FuncDomain::DbeXmlDom, 2, Some(3), false))
        .push(spec_commercial_oracle_entry("dbe_xmldom.getdocumentelement", FuncCategory::Scalar, FuncDomain::DbeXmlDom, 1, Some(1), false))
        .push(spec_commercial_oracle_entry("dbe_xmldom.getfirstchild", FuncCategory::Scalar, FuncDomain::DbeXmlDom, 1, Some(1), false))
        .push(spec_commercial_oracle_entry("dbe_xmldom.getlastchild", FuncCategory::Scalar, FuncDomain::DbeXmlDom, 1, Some(1), false))
        .push(spec_commercial_oracle_entry("dbe_xmldom.getlength", FuncCategory::Scalar, FuncDomain::DbeXmlDom, 1, Some(1), false))
        .push(spec_commercial_oracle_entry("dbe_xmldom.getlocalname", FuncCategory::Scalar, FuncDomain::DbeXmlDom, 1, Some(2), false))
        .push(spec_commercial_oracle_entry("dbe_xmldom.getnameditem", FuncCategory::Scalar, FuncDomain::DbeXmlDom, 2, Some(3), false))
        .push(spec_commercial_oracle_entry("dbe_xmldom.getnextsibling", FuncCategory::Scalar, FuncDomain::DbeXmlDom, 1, Some(1), false))
        .push(spec_commercial_oracle_entry("dbe_xmldom.getnodename", FuncCategory::Scalar, FuncDomain::DbeXmlDom, 1, Some(1), false))
        .push(spec_commercial_oracle_entry("dbe_xmldom.getnodetype", FuncCategory::Scalar, FuncDomain::DbeXmlDom, 1, Some(1), false))
        .push(spec_commercial_oracle_entry("dbe_xmldom.getnodevalue", FuncCategory::Scalar, FuncDomain::DbeXmlDom, 1, Some(1), false))
        .push(spec_commercial_oracle_entry("dbe_xmldom.getparentnode", FuncCategory::Scalar, FuncDomain::DbeXmlDom, 1, Some(1), false))
        .push(spec_commercial_oracle_entry("dbe_xmldom.gettagname", FuncCategory::Scalar, FuncDomain::DbeXmlDom, 1, Some(1), false))
        .push(spec_commercial_oracle_entry("dbe_xmldom.haschildnodes", FuncCategory::Scalar, FuncDomain::DbeXmlDom, 1, Some(1), false))
        .push(spec_commercial_oracle_entry("dbe_xmldom.importnode", FuncCategory::Scalar, FuncDomain::DbeXmlDom, 3, Some(3), false))
        .push(spec_commercial_oracle_entry("dbe_xmldom.isnull", FuncCategory::Scalar, FuncDomain::DbeXmlDom, 1, Some(1), false))
        .push(spec_commercial_oracle_entry("dbe_xmldom.item", FuncCategory::Scalar, FuncDomain::DbeXmlDom, 2, Some(2), false))
        .push(spec_commercial_oracle_entry("dbe_xmldom.makeelement", FuncCategory::Scalar, FuncDomain::DbeXmlDom, 1, Some(1), false))
        .push(spec_commercial_oracle_entry("dbe_xmldom.makenode", FuncCategory::Scalar, FuncDomain::DbeXmlDom, 1, Some(1), false))
        .push(spec_commercial_oracle_entry("dbe_xmldom.newdomdocument", FuncCategory::Scalar, FuncDomain::DbeXmlDom, 0, Some(1), false))
        .push(spec_commercial_oracle_entry("dbe_xmldom.setattribute", FuncCategory::Scalar, FuncDomain::DbeXmlDom, 2, Some(4), false))
        .push(spec_commercial_oracle_entry("dbe_xmldom.setcharset", FuncCategory::Scalar, FuncDomain::DbeXmlDom, 2, Some(2), false))
        .push(spec_commercial_oracle_entry("dbe_xmldom.setdoctype", FuncCategory::Scalar, FuncDomain::DbeXmlDom, 2, Some(2), false))
        .push(spec_commercial_oracle_entry("dbe_xmldom.setnodevalue", FuncCategory::Scalar, FuncDomain::DbeXmlDom, 2, Some(2), false))
        .push(spec_commercial_oracle_entry("dbe_xmldom.writetobuffer", FuncCategory::Scalar, FuncDomain::DbeXmlDom, 2, Some(2), false))
        .push(spec_commercial_oracle_entry("dbe_xmldom.writetoclob", FuncCategory::Scalar, FuncDomain::DbeXmlDom, 2, Some(2), false))
        .push(spec_commercial_oracle_entry("dbe_xmlparser.freeparser", FuncCategory::Scalar, FuncDomain::DbeXmlParser, 1, Some(1), false))
        .push(spec_commercial_oracle_entry("dbe_xmlparser.getdocument", FuncCategory::Scalar, FuncDomain::DbeXmlParser, 1, Some(1), false))
        .push(spec_commercial_oracle_entry("dbe_xmlparser.getvalidationmode", FuncCategory::Scalar, FuncDomain::DbeXmlParser, 1, Some(1), false))
        .push(spec_commercial_oracle_entry("dbe_xmlparser.newparser", FuncCategory::Scalar, FuncDomain::DbeXmlParser, 0, Some(0), false))
        .push(spec_commercial_oracle_entry("dbe_xmlparser.parsebuffer", FuncCategory::Scalar, FuncDomain::DbeXmlParser, 2, Some(2), false))
        .push(spec_commercial_oracle_entry("dbe_xmlparser.parseclob", FuncCategory::Scalar, FuncDomain::DbeXmlParser, 2, Some(2), false))
        .push(spec_commercial_oracle_entry("dbe_xmlparser.setvalidationmode", FuncCategory::Scalar, FuncDomain::DbeXmlParser, 2, Some(2), false))
        .push(spec_oracle_entry("dbms_lob.append", FuncCategory::Scalar, FuncDomain::DbmsLob, 2, Some(2), false))
        .push(spec_oracle_entry("dbms_lob.read", FuncCategory::Scalar, FuncDomain::DbmsLob, 3, Some(3), false))
        .push(spec_oracle_entry("dbms_lob.substr", FuncCategory::Scalar, FuncDomain::DbmsLob, 1, Some(3), false))
        .push(spec_oracle_entry("dbms_lob.write", FuncCategory::Scalar, FuncDomain::DbmsLob, 3, Some(3), false))
        .push(spec_oracle_entry("dbms_output.disable", FuncCategory::Scalar, FuncDomain::DbmsOutput, 0, Some(0), false))
        .push(spec_oracle_entry("dbms_output.enable", FuncCategory::Scalar, FuncDomain::DbmsOutput, 0, Some(1), false))
        .push(spec_oracle_entry("dbms_output.put", FuncCategory::Scalar, FuncDomain::DbmsOutput, 1, Some(1), false))
        .push(spec_oracle_entry("dbms_output.put_line", FuncCategory::Scalar, FuncDomain::DbmsOutput, 1, Some(1), false))
        .push(spec_oracle_entry("dbms_scheduler.create_job", FuncCategory::Scalar, FuncDomain::DbmsScheduler, 1, None, false))
        .push(spec_oracle_entry("dbms_scheduler.drop_job", FuncCategory::Scalar, FuncDomain::DbmsScheduler, 1, None, false))
        .push(spec_oracle_entry("dbms_scheduler.run_job", FuncCategory::Scalar, FuncDomain::DbmsScheduler, 1, Some(2), false))
        .push(spec_oracle_entry("dbms_sql.close_cursor", FuncCategory::Scalar, FuncDomain::DbmsSql, 1, Some(1), false))
        .push(spec_oracle_entry("dbms_sql.column_value", FuncCategory::Scalar, FuncDomain::DbmsSql, 3, Some(3), false))
        .push(spec_oracle_entry("dbms_sql.execute", FuncCategory::Scalar, FuncDomain::DbmsSql, 1, Some(2), false))
        .push(spec_oracle_entry("dbms_sql.fetch_rows", FuncCategory::Scalar, FuncDomain::DbmsSql, 1, Some(1), false))
        .push(spec_oracle_entry("dbms_sql.open_cursor", FuncCategory::Scalar, FuncDomain::DbmsSql, 0, Some(0), false))
        .push(spec_oracle_entry("dbms_utility.format_error_backtrace", FuncCategory::Scalar, FuncDomain::DbmsUtility, 0, Some(0), false))
        .push(spec_oracle_entry("dbms_utility.get_time", FuncCategory::Scalar, FuncDomain::DbmsUtility, 0, Some(0), false))
        .push(spec_oracle_entry("decode", FuncCategory::Special, FuncDomain::OracleCompat, 2, None, false))
        .push(spec_core_entry("degrees", FuncCategory::Scalar, FuncDomain::Math, 1, Some(1), false))
        .push(spec_core_entry("dense_rank", FuncCategory::Window, FuncDomain::Window, 0, Some(0), false))
        .push(spec_core_entry("diameter", FuncCategory::Scalar, FuncDomain::Geometric, 1, Some(1), false))
        .push(spec_core_entry("digest", FuncCategory::Scalar, FuncDomain::Crypto, 2, Some(2), false))
        .push(spec_core_entry("div", FuncCategory::Scalar, FuncDomain::Math, 2, Some(2), false))
        .push(spec_oracle_entry("dump", FuncCategory::Scalar, FuncDomain::String, 1, Some(4), false))
        .push(spec_commercial_entry("empty_blob", FuncCategory::Scalar, FuncDomain::Other, 0, Some(0), false))
        .push(spec_commercial_entry("empty_clob", FuncCategory::Scalar, FuncDomain::Other, 0, Some(0), false))
        .push(spec_core_entry("encode", FuncCategory::Scalar, FuncDomain::String, 2, Some(2), false))
        .push(spec_core_entry("every", FuncCategory::Aggregate, FuncDomain::Aggregate, 1, Some(1), true))
        .push(spec_oracle_entry("existsnode", FuncCategory::Scalar, FuncDomain::Xml, 2, Some(3), false))
        .push(spec_core_entry("exp", FuncCategory::Scalar, FuncDomain::Math, 1, Some(1), false))
        .push(spec_core_entry("extract", FuncCategory::Scalar, FuncDomain::DateTime, 2, Some(2), false))
        .push(spec_oracle_entry("extractvalue", FuncCategory::Scalar, FuncDomain::Xml, 2, Some(3), false))
        .push(spec_oracle_entry("extractxml", FuncCategory::Scalar, FuncDomain::Xml, 2, Some(3), false))
        .push(spec_core_entry("factorial", FuncCategory::Scalar, FuncDomain::Math, 1, Some(1), false))
        .push(spec_core_entry("family", FuncCategory::Scalar, FuncDomain::Network, 1, Some(1), false))
        .push(spec_core_entry("find_in_set", FuncCategory::Scalar, FuncDomain::String, 2, Some(2), false))
        .push(spec_core_entry("first_value", FuncCategory::Window, FuncDomain::Window, 1, Some(1), false))
        .push(spec_core_entry("floor", FuncCategory::Scalar, FuncDomain::Math, 1, Some(1), false))
        .push(spec_core_entry("format", FuncCategory::Scalar, FuncDomain::String, 2, None, false))
        .push(spec_core_entry("format_type", FuncCategory::Scalar, FuncDomain::System, 1, Some(2), false))
        .push(spec_commercial_entry("from_days", FuncCategory::Scalar, FuncDomain::DateTime, 1, Some(1), false))
        .push(spec_commercial_entry("from_unixtime", FuncCategory::Scalar, FuncDomain::DateTime, 1, Some(2), false))
        .push(spec_core_entry("gcd", FuncCategory::Scalar, FuncDomain::Math, 2, Some(2), false))
        .push(spec_core_entry("gen_random_uuid", FuncCategory::Scalar, FuncDomain::Crypto, 0, Some(0), false))
        .push(spec_core_entry("generate_series", FuncCategory::SetReturning, FuncDomain::Other, 2, Some(3), false))
        .push(spec_core_entry("generate_subscripts", FuncCategory::SetReturning, FuncDomain::Array, 2, Some(3), false))
        .push(spec_core_entry("get_bit", FuncCategory::Scalar, FuncDomain::String, 2, Some(2), false))
        .push(spec_core_entry("get_byte", FuncCategory::Scalar, FuncDomain::String, 2, Some(2), false))
        .push(spec_core_entry("get_current_ts_config", FuncCategory::Scalar, FuncDomain::TextSearch, 0, Some(0), false))
        .push(spec_oracle_entry("getblobval", FuncCategory::Scalar, FuncDomain::Xml, 1, Some(1), false))
        .push(spec_oracle_entry("getclobval", FuncCategory::Scalar, FuncDomain::Xml, 1, Some(1), false))
        .push(spec_oracle_entry("getnamespace", FuncCategory::Scalar, FuncDomain::Xml, 1, Some(1), false))
        .push(spec_oracle_entry("getnumberval", FuncCategory::Scalar, FuncDomain::Xml, 1, Some(1), false))
        .push(spec_oracle_entry("getrootelement", FuncCategory::Scalar, FuncDomain::Xml, 1, Some(1), false))
        .push(spec_oracle_entry("getstringval", FuncCategory::Scalar, FuncDomain::Xml, 1, Some(1), false))
        .push(spec_core_entry("greatest", FuncCategory::Special, FuncDomain::Other, 2, None, false))
        .push(spec_oracle_entry("group_concat", FuncCategory::Aggregate, FuncDomain::String, 1, None, true))
        .push(spec_core_entry("gs_decrypt", FuncCategory::Scalar, FuncDomain::Crypto, 3, Some(3), false))
        .push(spec_core_entry("gs_decrypt_aes128", FuncCategory::Scalar, FuncDomain::Crypto, 2, Some(2), false))
        .push(spec_core_entry("gs_encrypt", FuncCategory::Scalar, FuncDomain::Crypto, 3, Some(3), false))
        .push(spec_core_entry("gs_encrypt_aes128", FuncCategory::Scalar, FuncDomain::Crypto, 2, Some(2), false))
        .push(spec_core_entry("has_schema_privilege", FuncCategory::Scalar, FuncDomain::System, 2, Some(4), false))
        .push(spec_core_entry("has_table_privilege", FuncCategory::Scalar, FuncDomain::System, 2, Some(4), false))
        .push(spec_core_entry("hextoraw", FuncCategory::Scalar, FuncDomain::TypeConversion, 1, Some(1), false))
        .push(spec_core_entry("host", FuncCategory::Scalar, FuncDomain::Network, 1, Some(1), false))
        .push(spec_core_entry("hostmask", FuncCategory::Scalar, FuncDomain::Network, 1, Some(1), false))
        .push(spec_commercial_entry("ifnull", FuncCategory::Special, FuncDomain::OracleCompat, 2, Some(2), false))
        .push(spec_core_entry("inet_client_addr", FuncCategory::Scalar, FuncDomain::System, 0, Some(0), false))
        .push(spec_core_entry("inet_client_port", FuncCategory::Scalar, FuncDomain::System, 0, Some(0), false))
        .push(spec_core_entry("inet_server_addr", FuncCategory::Scalar, FuncDomain::System, 0, Some(0), false))
        .push(spec_core_entry("inet_server_port", FuncCategory::Scalar, FuncDomain::System, 0, Some(0), false))
        .push(spec_core_entry("initcap", FuncCategory::Scalar, FuncDomain::String, 1, Some(1), false))
        .push(spec_oracle_entry("instr", FuncCategory::Scalar, FuncDomain::String, 2, Some(4), false))
        .push(spec_oracle_entry("instrb", FuncCategory::Scalar, FuncDomain::String, 2, Some(4), false))
        .push(spec_oracle_entry("intervaltonum", FuncCategory::Scalar, FuncDomain::TypeConversion, 1, Some(1), false))
        .push(spec_core_entry("isfinite", FuncCategory::Scalar, FuncDomain::DateTime, 1, Some(1), false))
        .push(spec_oracle_entry("isfragment", FuncCategory::Scalar, FuncDomain::Xml, 1, Some(1), false))
        .push(spec_core_entry("json", FuncCategory::TypeConstructor, FuncDomain::Json, 0, Some(1), false))
        .push(spec_core_entry("json_agg", FuncCategory::Aggregate, FuncDomain::Json, 1, Some(1), true))
        .push(spec_core_entry("json_append", FuncCategory::Scalar, FuncDomain::Json, 2, None, false))
        .push(spec_commercial_entry("json_array", FuncCategory::Scalar, FuncDomain::Json, 0, None, false))
        .push(spec_core_entry("json_array_element", FuncCategory::Scalar, FuncDomain::Json, 2, Some(2), false))
        .push(spec_core_entry("json_array_element_text", FuncCategory::Scalar, FuncDomain::Json, 2, Some(2), false))
        .push(spec_core_entry("json_array_elements", FuncCategory::SetReturning, FuncDomain::Json, 1, Some(1), false))
        .push(spec_core_entry("json_array_length", FuncCategory::Scalar, FuncDomain::Json, 1, Some(1), false))
        .push(spec_core_entry("json_build_array", FuncCategory::Scalar, FuncDomain::Json, 0, None, false))
        .push(spec_core_entry("json_build_object", FuncCategory::Scalar, FuncDomain::Json, 0, None, false))
        .push(spec_commercial_entry("json_contains", FuncCategory::Scalar, FuncDomain::Json, 2, Some(3), false))
}

fn push_table_part_4(v: &mut Vec<FuncMeta>)
    ensures
        final(v)@ == table_part_4(old(v)@),
{
    v.push(commercial_oracle_entry("dbe_xmldom.getattribute", FuncCategory::Scalar, FuncDomain::DbeXmlDom, 2, Some(3), false));
    v.push(commercial_oracle_entry("dbe_xmldom.getattributes", FuncCategory::Scalar, FuncDomain::DbeXmlDom, 1, Some(1), false));
    v.push(commercial_oracle_entry("dbe_xmldom.getchildnodes", FuncCategory::Scalar, FuncDomain::DbeXmlDom, 1, Some(1), false));
    v.push(commercial_oracle_entry("dbe_xmldom.getchildrenbytagname", FuncCategory::Scalar, FuncDomain::DbeXmlDom, 2, Some(3), false));
    v.push(commercial_oracle_entry("dbe_xmldom.getdocumentelement", FuncCategory::Scalar, FuncDomain::DbeXmlDom, 1, Some(1), false));
    v.push(commercial_oracle_entry("dbe_xmldom.getfirstchild", FuncCategory::Scalar, FuncDomain::DbeXmlDom, 1, Some(1), false));
    v.push(commercial_oracle_entry("dbe_xmldom.getlastchild", FuncCategory::Scalar, FuncDomain::DbeXmlDom, 1, Some(1), false));
    v.push(commercial_oracle_entry("dbe_xmldom.getlength", FuncCategory::Scalar, FuncDomain::DbeXmlDom, 1, Some(1), false));
    v.push(commercial_oracle_entry("dbe_xmldom.getlocalname", FuncCategory::Scalar, FuncDomain::DbeXmlDom, 1, Some(2), false));
    v.push(commercial_oracle_entry("dbe_xmldom.getnameditem", FuncCategory::Scalar, FuncDomain::DbeXmlDom, 2, Some(3), false));
    v.push(commercial_oracle_entry("dbe_xmldom.getnextsibling", FuncCategory::Scalar, FuncDomain::DbeXmlDom, 1, Some(1), false));
    v.push(commercial_oracle_entry("dbe_xmldom.getnodename", FuncCategory::Scalar, FuncDomain::DbeXmlDom, 1, Some(1), false));
    v.push(commercial_oracle_entry("dbe_xmldom.getnodetype", FuncCategory::Scalar, FuncDomain::DbeXmlDom, 1, Some(1), false));
    v.push(commercial_oracle_entry("dbe_xmldom.getnodevalue", FuncCategory::Scalar, FuncDomain::DbeXmlDom, 1, Some(1), false));
    v.push(commercial_oracle_entry("dbe_xmldom.getparentnode", FuncCategory::Scalar, FuncDomain::DbeXmlDom, 1, Some(1), false));
    v.push(commercial_oracle_entry("dbe_xmldom.gettagname", FuncCategory::Scalar, FuncDomain::DbeXmlDom, 1, Some(1), false));
    v.push(commercial_oracle_entry("dbe_xmldom.haschildnodes", FuncCategory::Scalar, FuncDomain::DbeXmlDom, 1, Some(1), false));
    v.push(commercial_oracle_entry("dbe_xmldom.importnode", FuncCategory::Scalar, FuncDomain::DbeXmlDom, 3, Some(3), false));
    v.push(commercial_oracle_entry("dbe_xmldom.isnull", FuncCategory::Scalar, FuncDomain::DbeXmlDom, 1, Some(1), false));
    v.push(commercial_oracle_entry("dbe_xmldom.item", FuncCategory::Scalar, FuncDomain::DbeXmlDom, 2, Some(2), false));
    v.push(commercial_oracle_entry("dbe_xmldom.makeelement", FuncCategory::Scalar, FuncDomain::DbeXmlDom, 1, Some(1), false));
    v.push(commercial_oracle_entry("dbe_xmldom.makenode", FuncCategory::Scalar, FuncDomain::DbeXmlDom, 1, Some(1), false));
    v.push(commercial_oracle_entry("dbe_xmldom.newdomdocument", FuncCategory::Scalar, FuncDomain::DbeXmlDom, 0, Some(1), false));
    v.push(commercial_oracle_entry("dbe_xmldom.setattribute", FuncCategory::Scalar, FuncDomain::DbeXmlDom, 2, Some(4), false));
    v.push(commercial_oracle_entry("dbe_xmldom.setcharset", FuncCategory::Scalar, FuncDomain::DbeXmlDom, 2, Some(2), false));
    v.push(commercial_oracle_entry("dbe_xmldom.setdoctype", FuncCategory::Scalar, FuncDomain::DbeXmlDom, 2, Some(2), false));
    v.push(commercial_oracle_entry("dbe_xmldom.setnodevalue", FuncCategory::Scalar, FuncDomain::DbeXmlDom, 2, Some(2), false));
    v.push(commercial_oracle_entry("dbe_xmldom.writetobuffer", FuncCategory::Scalar, FuncDomain::DbeXmlDom, 2, Some(2), false));
    v.push(commercial_oracle_entry("dbe_xmldom.writetoclob", FuncCategory::Scalar, FuncDomain::DbeXmlDom, 2, Some(2), false));
    v.push(commercial_oracle_entry("dbe_xmlparser.freeparser", FuncCategory::Scalar, FuncDomain::DbeXmlParser, 1, Some(1), false));
    v.push(commercial_oracle_entry("dbe_xmlparser.getdocument", FuncCategory::Scalar, FuncDomain::DbeXmlParser, 1, Some(1), false));
    v.push(commercial_oracle_entry("dbe_xmlparser.getvalidationmode", FuncCategory::Scalar, FuncDomain::DbeXmlParser, 1, Some(1), false));
    v.push(commercial_oracle_entry("dbe_xmlparser.newparser", FuncCategory::Scalar, FuncDomain::DbeXmlParser, 0, Some(0), false));
    v.push(commercial_oracle_entry("dbe_xmlparser.parsebuffer", FuncCategory::Scalar, FuncDomain::DbeXmlParser, 2, Some(2), false));
    v.push(commercial_oracle_entry("dbe_xmlparser.parseclob", FuncCategory::Scalar, FuncDomain::DbeXmlParser, 2, Some(2), false));
    v.push(commercial_oracle_entry("dbe_xmlparser.setvalidationmode", FuncCategory::Scalar, FuncDomain::DbeXmlParser, 2, Some(2), false));
    v.push(oracle_entry("dbms_lob.append", FuncCategory::Scalar, FuncDomain::DbmsLob, 2, Some(2), false));
    v.push(oracle_entry("dbms_lob.read", FuncCategory::Scalar, FuncDomain::DbmsLob, 3, Some(3), false));
    v.push(oracle_entry("dbms_lob.substr", FuncCategory::Scalar, FuncDomain::DbmsLob, 1, Some(3), false));
    v.push(oracle_entry("dbms_lob.write", FuncCategory::Scalar, FuncDomain::DbmsLob, 3, Some(3), false));
    v.push(oracle_entry("dbms_output.disable", FuncCategory::Scalar, FuncDomain::DbmsOutput, 0, Some(0), false));
    v.push(oracle_entry("dbms_output.enable", FuncCategory::Scalar, FuncDomain::DbmsOutput, 0, Some(1), false));
    v.push(oracle_entry("dbms_output.put", FuncCategory::Scalar, FuncDomain::DbmsOutput, 1, Some(1), false));
    v.push(oracle_entry("dbms_output.put_line", FuncCategory::Scalar, FuncDomain::DbmsOutput, 1, Some(1), false));
    v.push(oracle_entry("dbms_scheduler.create_job", FuncCategory::Scalar, FuncDomain::DbmsScheduler, 1, None, false));
    v.push(oracle_entry("dbms_scheduler.drop_job", FuncCategory::Scalar, FuncDomain::DbmsScheduler, 1, None, false));
    v.push(oracle_entry("dbms_scheduler.run_job", FuncCategory::Scalar, FuncDomain::DbmsScheduler, 1, Some(2), false));
    v.push(oracle_entry("dbms_sql.close_cursor", FuncCategory::Scalar, FuncDomain::DbmsSql, 1, Some(1), false));
    v.push(oracle_entry("dbms_sql.column_value", FuncCategory::Scalar, FuncDomain::DbmsSql, 3, Some(3), false));
    v.push(oracle_entry("dbms_sql.execute", FuncCategory::Scalar, FuncDomain::DbmsSql, 1, Some(2), false));
    v.push(oracle_entry("dbms_sql.fetch_rows", FuncCategory::Scalar, FuncDomain::DbmsSql, 1, Some(1), false));
    v.push(oracle_entry("dbms_sql.open_cursor", FuncCategory::Scalar, FuncDomain::DbmsSql, 0, Some(0), false));
    v.push(oracle_entry("dbms_utility.format_error_backtrace", FuncCategory::Scalar, FuncDomain::DbmsUtility, 0, Some(0), false));
    v.push(oracle_entry("dbms_utility.get_time", FuncCategory::Scalar, FuncDomain::DbmsUtility, 0, Some(0), false));
    v.push(oracle_entry("decode", FuncCategory::Special, FuncDomain::OracleCompat, 2, None, false));
    v.push(core_entry("degrees", FuncCategory::Scalar, FuncDomain::Math, 1, Some(1), false));
    v.push(core_entry("dense_rank", FuncCategory::Window, FuncDomain::Window, 0, Some(0), false));
    v.push(core_entry("diameter", FuncCategory::Scalar, FuncDomain::Geometric, 1, Some(1), false));
    v.push(core_entry("digest", FuncCategory::Scalar, FuncDomain::Crypto, 2, Some(2), false));
    v.push(core_entry("div", FuncCategory::Scalar, FuncDomain::Math, 2, Some(2), false));
    v.push(oracle_entry("dump", FuncCategory::Scalar, FuncDomain::String, 1, Some(4), false));
    v.push(commercial_entry("empty_blob", FuncCategory::Scalar, FuncDomain::Other, 0, Some(0), false));
    v.push(commercial_entry("empty_clob", FuncCategory::Scalar, FuncDomain::Other, 0, Some(0), false));
    v.push(core_entry("encode", FuncCategory::Scalar, FuncDomain::String, 2, Some(2), false));
    v.push(core_entry("every", FuncCategory::Aggregate, FuncDomain::Aggregate, 1, Some(1), true));
    v.push(oracle_entry("existsnode", FuncCategory::Scalar, FuncDomain::Xml, 2, Some(3), false));
    v.push(core_entry("exp", FuncCategory::Scalar, FuncDomain::Math, 1, Some(1), false));
    v.push(core_entry("extract", FuncCategory::Scalar, FuncDomain::DateTime, 2, Some(2), false));
    v.push(oracle_entry("extractvalue", FuncCategory::Scalar, FuncDomain::Xml, 2, Some(3), false));
    v.push(oracle_entry("extractxml", FuncCategory::Scalar, FuncDomain::Xml, 2, Some(3), false));
    v.push(core_entry("factorial", FuncCategory::Scalar, FuncDomain::Math, 1, Some(1), false));
    v.push(core_entry("family", FuncCategory::Scalar, FuncDomain::Network, 1, Some(1), false));
    v.push(core_entry("find_in_set", FuncCategory::Scalar, FuncDomain::String, 2, Some(2), false));
    v.push(core_entry("first_value", FuncCategory::Window, FuncDomain::Window, 1, Some(1), false));
    v.push(core_entry("floor", FuncCategory::Scalar, FuncDomain::Math, 1, Some(1), false));
    v.push(core_entry("format", FuncCategory::Scalar, FuncDomain::String, 2, None, false));
    v.push(core_entry("format_type", FuncCategory::Scalar, FuncDomain::System, 1, Some(2), false));
    v.push(commercial_entry("from_days", FuncCategory::Scalar, FuncDomain::DateTime, 1, Some(1), false));
    v.push(commercial_entry("from_unixtime", FuncCategory::Scalar, FuncDomain::DateTime, 1, Some(2), false));
    v.push(core_entry("gcd", FuncCategory::Scalar, FuncDomain::Math, 2, Some(2), false));
    v.push(core_entry("gen_random_uuid", FuncCategory::Scalar, FuncDomain::Crypto, 0, Some(0), false));
    v.push(core_entry("generate_series", FuncCategory::SetReturning, FuncDomain::Other, 2, Some(3), false));
    v.push(core_entry("generate_subscripts", FuncCategory::SetReturning, FuncDomain::Array, 2, Some(3), false));
    v.push(core_entry("get_bit", FuncCategory::Scalar, FuncDomain::String, 2, Some(2), false));
    v.push(core_entry("get_byte", FuncCategory::Scalar, FuncDomain::String, 2, Some(2), false));
    v.push(core_entry("get_current_ts_config", FuncCategory::Scalar, FuncDomain::TextSearch, 0, Some(0), false));
    v.push(oracle_entry("getblobval", FuncCategory::Scalar, FuncDomain::Xml, 1, Some(1), false));
    v.push(oracle_entry("getclobval", FuncCategory::Scalar, FuncDomain::Xml, 1, Some(1), false));
    v.push(oracle_entry("getnamespace", FuncCategory::Scalar, FuncDomain::Xml, 1, Some(1), false));
    v.push(oracle_entry("getnumberval", FuncCategory::Scalar, FuncDomain::Xml, 1, Some(1), false));
    v.push(oracle_entry("getrootelement", FuncCategory::Scalar, FuncDomain::Xml, 1, Some(1), false));
    v.push(oracle_entry("getstringval", FuncCategory::Scalar, FuncDomain::Xml, 1, Some(1), false));
    v.push(core_entry("greatest", FuncCategory::Special, FuncDomain::Other, 2, None, false));
    v.push(oracle_entry("group_concat", FuncCategory::Aggregate, FuncDomain::String, 1, None, true));
    v.push(core_entry("gs_decrypt", FuncCategory::Scalar, FuncDomain::Crypto, 3, Some(3), false));
    v.push(core_entry("gs_decrypt_aes128", FuncCategory::Scalar, FuncDomain::Crypto, 2, Some(2), false));
    v.push(core_entry("gs_encrypt", FuncCategory::Scalar, FuncDomain::Crypto, 3, Some(3), false));
    v.push(core_entry("gs_encrypt_aes128", FuncCategory::Scalar, FuncDomain::Crypto, 2, Some(2), false));
    v.push(core_entry("has_schema_privilege", FuncCategory::Scalar, FuncDomain::System, 2, Some(4), false));
    v.push(core_entry("has_table_privilege", FuncCategory::Scalar, FuncDomain::System, 2, Some(4), false));
    v.push(core_entry("hextoraw", FuncCategory::Scalar, FuncDomain::TypeConversion, 1, Some(1), false));
    v.push(core_entry("host", FuncCategory::Scalar, FuncDomain::Network, 1, Some(1), false));
    v.push(core_entry("hostmask", FuncCategory::Scalar, FuncDomain::Network, 1, Some(1), false));
    v.push(commercial_entry("ifnull", FuncCategory::Special, FuncDomain::OracleCompat, 2, Some(2), false));
    v.push(core_entry("inet_client_addr", FuncCategory::Scalar, FuncDomain::System, 0, Some(0), false));
    v.push(core_entry("inet_client_port", FuncCategory::Scalar, FuncDomain::System, 0, Some(0), false));
    v.push(core_entry("inet_server_addr", FuncCategory::Scalar, FuncDomain::System, 0, Some(0), false));
    v.push(core_entry("inet_server_port", FuncCategory::Scalar, FuncDomain::System, 0, Some(0), false));
    v.push(core_entry("initcap", FuncCategory::Scalar, FuncDomain::String, 1, Some(1), false));
    v.push(oracle_entry("instr", FuncCategory::Scalar, FuncDomain::String, 2, Some(4), false));
    v.push(oracle_entry("instrb", FuncCategory::Scalar, FuncDomain::String, 2, Some(4), false));
    v.push(oracle_entry("intervaltonum", FuncCategory::Scalar, FuncDomain::TypeConversion, 1, Some(1), false));
    v.push(core_entry("isfinite", FuncCategory::Scalar, FuncDomain::DateTime, 1, Some(1), false));
    v.push(oracle_entry("isfragment", FuncCategory::Scalar, FuncDomain::Xml, 1, Some(1), false));
    v.push(core_entry("json", FuncCategory::TypeConstructor, FuncDomain::Json, 0, Some(1), false));
    v.push(core_entry("json_agg", FuncCategory::Aggregate, FuncDomain::Json, 1, Some(1), true));
    v.push(core_entry("json_append", FuncCategory::Scalar, FuncDomain::Json, 2, None, false));
    v.push(commercial_entry("json_array", FuncCategory::Scalar, FuncDomain::Json, 0, None, false));
    v.push(core_entry("json_array_element", FuncCategory::Scalar, FuncDomain::Json, 2, Some(2), false));
    v.push(core_entry("json_array_element_text", FuncCategory::Scalar, FuncDomain::Json, 2, Some(2), false));
    v.push(core_entry("json_array_elements", FuncCategory::SetReturning, FuncDomain::Json, 1, Some(1), false));
    v.push(core_entry("json_array_length", FuncCategory::Scalar, FuncDomain::Json, 1, Some(1), false));
    v.push(core_entry("json_build_array", FuncCategory::Scalar, FuncDomain::Json, 0, None, false));
    v.push(core_entry("json_build_object", FuncCategory::Scalar, FuncDomain::Json, 0, None, false));
    v.push(commercial_entry("json_contains", FuncCategory::Scalar, FuncDomain::Json, 2, Some(3), false));
}

/// `s` followed by the entries from `json_contains_path` to `pg_create_logical_replication_slot`.
pub closed spec fn table_part_5(s: Seq<FuncMeta>) -> Seq<FuncMeta> {
    s
        .push(spec_commercial_entry("json_contains_path", FuncCategory::Scalar, FuncDomain::Json, 2, Some(3), false))
        .push(spec_commercial_entry("json_depth", FuncCategory::Scalar, FuncDomain::Json, 1, Some(1), false))
        .push(spec_core_entry("json_each", FuncCategory::SetReturning, FuncDomain::Json, 1, Some(1), false))
        .push(spec_core_entry("json_each_text", FuncCategory::SetReturning, FuncDomain::Json, 1, Some(1), false))
        .push(spec_core_entry("json_extract_path", FuncCategory::Scalar, FuncDomain::Json, 1, None, false))
        .push(spec_core_entry("json_extract_path_text", FuncCategory::Scalar, FuncDomain::Json, 1, None, false))
        .push(spec_commercial_entry("json_keys", FuncCategory::Scalar, FuncDomain::Json, 1, Some(2), false))
        .push(spec_commercial_entry("json_length", FuncCategory::Scalar, FuncDomain::Json, 1, Some(2), false))
        .push(spec_commercial_entry("json_merge", FuncCategory::Scalar, FuncDomain::Json, 2, None, false))
        .push(spec_core_entry("json_object", FuncCategory::Scalar, FuncDomain::Json, 1, None, true))
        .push(spec_core_entry("json_object_agg", FuncCategory::Aggregate, FuncDomain::Json, 2, Some(2), true))
        .push(spec_core_entry("json_object_field", FuncCategory::Scalar, FuncDomain::Json, 2, Some(2), false))
        .push(spec_core_entry("json_object_field_text", FuncCategory::Scalar, FuncDomain::Json, 2, Some(2), false))
        .push(spec_core_entry("json_object_keys", FuncCategory::SetReturning, FuncDomain::Json, 1, Some(1), false))
        .push(spec_commercial_entry("json_quote", FuncCategory::Scalar, FuncDomain::Json, 1, Some(1), false))
        .push(spec_commercial_entry("json_remove", FuncCategory::Scalar, FuncDomain::Json, 2, Some(2), false))
        .push(spec_commercial_entry("json_replace", FuncCategory::Scalar, FuncDomain::Json, 2, Some(2), false))
        .push(spec_commercial_entry("json_search", FuncCategory::Scalar, FuncDomain::Json, 2, Some(4), false))
        .push(spec_commercial_entry("json_set", FuncCategory::Scalar, FuncDomain::Json, 2, Some(2), false))
        .push(spec_commercial_entry("json_type", FuncCategory::Scalar, FuncDomain::Json, 1, Some(1), false))
        .push(spec_core_entry("json_typeof", FuncCategory::Scalar, FuncDomain::Json, 1, Some(1), false))
        .push(spec_commercial_entry("json_unquote", FuncCategory::Scalar, FuncDomain::Json, 1, Some(1), false))
        .push(spec_commercial_entry("json_valid", FuncCategory::Scalar, FuncDomain::Json, 1, Some(1), false))
        .push(spec_core_entry("jsonb_agg", FuncCategory::Aggregate, FuncDomain::Json, 1, Some(1), true))
        .push(spec_core_entry("jsonb_array_elements", FuncCategory::SetReturning, FuncDomain::Json, 1, Some(1), false))
        .push(spec_core_entry("jsonb_array_length", FuncCategory::Scalar, FuncDomain::Json, 1, Some(1), false))
        .push(spec_core_entry("jsonb_build_array", FuncCategory::Scalar, FuncDomain::Json, 0, None, true))
        .push(spec_core_entry("jsonb_build_object", FuncCategory::Scalar, FuncDomain::Json, 0, None, true))
        .push(spec_core_entry("jsonb_cmp", FuncCategory::Scalar, FuncDomain::Json, 2, Some(2), false))
        .push(spec_core_entry("jsonb_contained", FuncCategory::Scalar, FuncDomain::Json, 2, Some(2), false))
        .push(spec_core_entry("jsonb_contains", FuncCategory::Scalar, FuncDomain::Json, 2, Some(2), false))
        .push(spec_core_entry("jsonb_each", FuncCategory::SetReturning, FuncDomain::Json, 1, Some(1), false))
        .push(spec_core_entry("jsonb_each_text", FuncCategory::SetReturning, FuncDomain::Json, 1, Some(1), false))
        .push(spec_core_entry("jsonb_eq", FuncCategory::Scalar, FuncDomain::Json, 2, Some(2), false))
        .push(spec_core_entry("jsonb_exists", FuncCategory::Scalar, FuncDomain::Json, 2, Some(2), false))
        .push(spec_core_entry("jsonb_exists_all", FuncCategory::Scalar, FuncDomain::Json, 2, Some(2), false))
        .push(spec_core_entry("jsonb_exists_any", FuncCategory::Scalar, FuncDomain::Json, 2, Some(2), false))
        .push(spec_core_entry("jsonb_ge", FuncCategory::Scalar, FuncDomain::Json, 2, Some(2), false))
        .push(spec_core_entry("jsonb_gt", FuncCategory::Scalar, FuncDomain::Json, 2, Some(2), false))
        .push(spec_core_entry("jsonb_hash", FuncCategory::Scalar, FuncDomain::Json, 1, Some(1), false))
        .push(spec_core_entry("jsonb_le", FuncCategory::Scalar, FuncDomain::Json, 2, Some(2), false))
        .push(spec_core_entry("jsonb_lt", FuncCategory::Scalar, FuncDomain::Json, 2, Some(2), false))
        .push(spec_core_entry("jsonb_ne", FuncCategory::Scalar, FuncDomain::Json, 2, Some(2), false))
        .push(spec_core_entry("jsonb_object_keys", FuncCategory::SetReturning, FuncDomain::Json, 1, Some(1), false))
        .push(spec_core_entry("jsonb_pretty", FuncCategory::Scalar, FuncDomain::Json, 1, Some(1), false))
        .push(spec_core_entry("jsonb_set", FuncCategory::Scalar, FuncDomain::Json, 3, Some(4), false))
        .push(spec_core_entry("jsonb_typeof", FuncCategory::Scalar, FuncDomain::Json, 1, Some(1), false))
        .push(spec_core_entry("justify_days", FuncCategory::Scalar, FuncDomain::DateTime, 1, Some(1), false))
        .push(spec_core_entry("justify_hours", FuncCategory::Scalar, FuncDomain::DateTime, 1, Some(1), false))
        .push(spec_core_entry("justify_interval", FuncCategory::Scalar, FuncDomain::DateTime, 1, Some(1), false))
        .push(spec_core_entry("lag", FuncCategory::Window, FuncDomain::Window, 1, Some(3), false))
        .push(spec_oracle_entry("last_day", FuncCategory::Scalar, FuncDomain::OracleCompat, 1, Some(1), false))
        .push(spec_core_entry("last_insert_id", FuncCategory::Scalar, FuncDomain::System, 0, Some(1), false))
        .push(spec_core_entry("last_value", FuncCategory::Window, FuncDomain::Window, 1, Some(1), false))
        .push(spec_core_entry("lastval", FuncCategory::Scalar, FuncDomain::System, 0, Some(0), false))
        .push(spec_core_entry("lcm", FuncCategory::Scalar, FuncDomain::Math, 2, Some(2), false))
        .push(spec_core_entry("lead", FuncCategory::Window, FuncDomain::Window, 1, Some(3), false))
        .push(spec_core_entry("least", FuncCategory::Special, FuncDomain::Other, 2, None, false))
        .push(spec_core_entry("left", FuncCategory::Scalar, FuncDomain::String, 2, Some(2), false))
        .push(spec_core_entry("length", FuncCategory::Scalar, FuncDomain::String, 1, Some(2), false))
        .push(spec_core_entry("lengthb", FuncCategory::Scalar, FuncDomain::String, 1, Some(1), false))
        .push(spec_oracle_entry("listagg", FuncCategory::Aggregate, FuncDomain::String, 1, Some(2), true))
        .push(spec_core_entry("ln", FuncCategory::Scalar, FuncDomain::Math, 1, Some(1), false))
        .push(spec_core_entry("localtime", FuncCategory::Scalar, FuncDomain::DateTime, 0, Some(1), false))
        .push(spec_core_entry("localtimestamp", FuncCategory::Scalar, FuncDomain::DateTime, 0, Some(1), false))
        .push(spec_core_entry("log", FuncCategory::Scalar, FuncDomain::Math, 1, Some(2), false))
        .push(spec_core_entry("log10", FuncCategory::Scalar, FuncDomain::Math, 1, Some(1), false))
        .push(spec_core_entry("lower", FuncCategory::Scalar, FuncDomain::String, 1, Some(1), false))
        .push(spec_core_entry("lpad", FuncCategory::Scalar, FuncDomain::String, 2, Some(3), false))
        .push(spec_core_entry("ltrim", FuncCategory::Scalar, FuncDomain::String, 1, Some(2), false))
        .push(spec_core_entry("make_date", FuncCategory::Scalar, FuncDomain::DateTime, 3, Some(3), false))
        .push(spec_core_entry("make_time", FuncCategory::Scalar, FuncDomain::DateTime, 3, Some(3), false))
        .push(spec_core_entry("make_timestamp", FuncCategory::Scalar, FuncDomain::DateTime, 6, Some(6), false))
        .push(spec_core_entry("make_timestamptz", FuncCategory::Scalar, FuncDomain::DateTime, 6, Some(7), false))
        .push(spec_commercial_entry("makedate", FuncCategory::Scalar, FuncDomain::DateTime, 2, Some(2), false))
        .push(spec_commercial_entry("maketime", FuncCategory::Scalar, FuncDomain::DateTime, 3, Some(3), false))
        .push(spec_core_entry("masklen", FuncCategory::Scalar, FuncDomain::Network, 1, Some(1), false))
        .push(spec_core_entry("max", FuncCategory::Aggregate, FuncDomain::Aggregate, 1, Some(1), true))
        .push(spec_core_entry("md5", FuncCategory::Scalar, FuncDomain::Crypto, 1, Some(2), false))
        .push(spec_core_entry("median", FuncCategory::Aggregate, FuncDomain::Aggregate, 1, Some(1), true))
        .push(spec_core_entry("min", FuncCategory::Aggregate, FuncDomain::Aggregate, 1, Some(1), true))
        .push(spec_core_entry("mod", FuncCategory::Scalar, FuncDomain::Math, 2, Some(2), false))
        .push(spec_core_entry("mode", FuncCategory::Aggregate, FuncDomain::Aggregate, 1, Some(1), true))
        .push(spec_commercial_entry("monthname", FuncCategory::Scalar, FuncDomain::DateTime, 1, Some(1), false))
        .push(spec_oracle_entry("months_between", FuncCategory::Scalar, FuncDomain::OracleCompat, 2, Some(2), false))
        .push(spec_commercial_oracle_entry("nanvl", FuncCategory::Scalar, FuncDomain::OracleCompat, 2, Some(2), false))
        .push(spec_oracle_entry("nchr", FuncCategory::Scalar, FuncDomain::String, 1, Some(1), false))
        .push(spec_core_entry("netmask", FuncCategory::Scalar, FuncDomain::Network, 1, Some(1), false))
        .push(spec_core_entry("network", FuncCategory::Scalar, FuncDomain::Network, 1, Some(1), false))
        .push(spec_oracle_entry("new_time", FuncCategory::Scalar, FuncDomain::DateTime, 3, Some(3), false))
        .push(spec_oracle_entry("next_day", FuncCategory::Scalar, FuncDomain::OracleCompat, 2, Some(2), false))
        .push(spec_core_entry("nextval", FuncCategory::Scalar, FuncDomain::System, 1, Some(1), false))
        .push(spec_oracle_entry("nls_initcap", FuncCategory::Scalar, FuncDomain::OracleCompat, 1, Some(2), false))
        .push(spec_oracle_entry("nls_lower", FuncCategory::Scalar, FuncDomain::OracleCompat, 1, Some(2), false))
        .push(spec_oracle_entry("nls_sort", FuncCategory::Scalar, FuncDomain::OracleCompat, 1, Some(2), false))
        .push(spec_oracle_entry("nls_upper", FuncCategory::Scalar, FuncDomain::OracleCompat, 1, Some(2), false))
        .push(spec_oracle_entry("nlssort", FuncCategory::Scalar, FuncDomain::OracleCompat, 1, Some(2), false))
        .push(spec_core_entry("now", FuncCategory::Scalar, FuncDomain::DateTime, 0, Some(0), false))
        .push(spec_core_entry("nth_value", FuncCategory::Window, FuncDomain::Window, 2, Some(2), false))
        .push(spec_core_entry("ntile", FuncCategory::Window, FuncDomain::Window, 1, Some(1), false))
        .push(spec_core_entry("nullif", FuncCategory::Special, FuncDomain::Other, 2, Some(2), false))
        .push(spec_core_entry("numrange", FuncCategory::Scalar, FuncDomain::Range, 2, Some(3), false))
        .push(spec_core_entry("numtoday", FuncCategory::Scalar, FuncDomain::TypeConversion, 1, Some(1), false))
        .push(spec_core_entry("numtodsinterval", FuncCategory::Scalar, FuncDomain::TypeConversion, 2, Some(2), false))
        .push(spec_commercial_oracle_entry("numtoyminterval", FuncCategory::Scalar, FuncDomain::TypeConversion, 2, Some(2), false))
        .push(spec_oracle_entry("nvl", FuncCategory::Special, FuncDomain::OracleCompat, 2, Some(2), false))
        .push(spec_oracle_entry("nvl2", FuncCategory::Special, FuncDomain::OracleCompat, 3, Some(3), false))
        .push(spec_core_entry("octet_length", FuncCategory::Scalar, FuncDomain::String, 1, Some(1), false))
        .push(spec_commercial_entry("ora_hash", FuncCategory::Scalar, FuncDomain::Hash, 1, Some(2), false))
        .push(spec_core_entry("overlay", FuncCategory::Scalar, FuncDomain::String, 3, Some(4), false))
        .push(spec_core_entry("percent_rank", FuncCategory::Window, FuncDomain::Window, 0, Some(0), false))
        .push(spec_core_entry("percentile_cont", FuncCategory::Aggregate, FuncDomain::Aggregate, 1, Some(2), true))
        .push(spec_core_entry("percentile_disc", FuncCategory::Aggregate, FuncDomain::Aggregate, 1, Some(2), true))
        .push(spec_commercial_entry("period_add", FuncCategory::Scalar, FuncDomain::DateTime, 2, Some(2), false))
        .push(spec_commercial_entry("period_diff", FuncCategory::Scalar, FuncDomain::DateTime, 2, Some(2), false))
        .push(spec_core_entry("pg_advisory_lock", FuncCategory::Scalar, FuncDomain::System, 1, Some(2), false))
        .push(spec_core_entry("pg_advisory_unlock", FuncCategory::Scalar, FuncDomain::System, 1, Some(2), false))
        .push(spec_core_entry("pg_advisory_xact_lock", FuncCategory::Scalar, FuncDomain::System, 1, Some(2), false))
        .push(spec_core_entry("pg_backend_pid", FuncCategory::Scalar, FuncDomain::System, 0, Some(0), false))
        .push(spec_core_entry("pg_cancel_backend", FuncCategory::Scalar, FuncDomain::System, 1, Some(1), false))
        .push(spec_core_entry("pg_collation_is_visible", FuncCategory::Scalar, FuncDomain::System, 1, Some(2), false))
        .push(spec_core_entry("pg_column_size", FuncCategory::Scalar, FuncDomain::System, 1, Some(1), false))
        .push(spec_core_entry("pg_conf_load_time", FuncCategory::Scalar, FuncDomain::System, 0, Some(0), false))
        .push(spec_core_entry("pg_conversion_is_visible", FuncCategory::Scalar, FuncDomain::System, 1, Some(1), false))
        .push(spec_core_entry("pg_create_logical_replication_slot", FuncCategory::Scalar, FuncDomain::System, 2, Some(3), false))
}

fn push_table_part_5(v: &mut Vec<FuncMeta>)
    ensures
        final(v)@ == table_part_5(old(v)@),
{
    v.push(commercial_entry("json_contains_path", FuncCategory::Scalar, FuncDomain::Json, 2, Some(3), false));
    v.push(commercial_entry("json_depth", FuncCategory::Scalar, FuncDomain::Json, 1, Some(1), false));
    v.push(core_entry("json_each", FuncCategory::SetReturning, FuncDomain::Json, 1, Some(1), false));
    v.push(core_entry("json_each_text", FuncCategory::SetReturning, FuncDomain::Json, 1, Some(1), false));
    v.push(core_entry("json_extract_path", FuncCategory::Scalar, FuncDomain::Json, 1, None, false));
    v.push(core_entry("json_extract_path_text", FuncCategory::Scalar, FuncDomain::Json, 1, None, false));
    v.push(commercial_entry("json_keys", FuncCategory::Scalar, FuncDomain::Json, 1, Some(2), false));
    v.push(commercial_entry("json_length", FuncCategory::Scalar, FuncDomain::Json, 1, Some(2), false));
    v.push(commercial_entry("json_merge", FuncCategory::Scalar, FuncDomain::Json, 2, None, false));
    v.push(core_entry("json_object", FuncCategory::Scalar, FuncDomain::Json, 1, None, true));
    v.push(core_entry("json_object_agg", FuncCategory::Aggregate, FuncDomain::Json, 2, Some(2), true));
    v.push(core_entry("json_object_field", FuncCategory::Scalar, FuncDomain::Json, 2, Some(2), false));
    v.push(core_entry("json_object_field_text", FuncCategory::Scalar, FuncDomain::Json, 2, Some(2), false));
    v.push(core_entry("json_object_keys", FuncCategory::SetReturning, FuncDomain::Json, 1, Some(1), false));
    v.push(commercial_entry("json_quote", FuncCategory::Scalar, FuncDomain::Json, 1, Some(1), false));
    v.push(commercial_entry("json_remove", FuncCategory::Scalar, FuncDomain::Json, 2, Some(2), false));
    v.push(commercial_entry("json_replace", FuncCategory::Scalar, FuncDomain::Json, 2, Some(2), false));
    v.push(commercial_entry("json_search", FuncCategory::Scalar, FuncDomain::Json, 2, Some(4), false));
    v.push(commercial_entry("json_set", FuncCategory::Scalar, FuncDomain::Json, 2, Some(2), false));
    v.push(commercial_entry("json_type", FuncCategory::Scalar, FuncDomain::Json, 1, Some(1), false));
    v.push(core_entry("json_typeof", FuncCategory::Scalar, FuncDomain::Json, 1, Some(1), false));
    v.push(commercial_entry("json_unquote", FuncCategory::Scalar, FuncDomain::Json, 1, Some(1), false));
    v.push(commercial_entry("json_valid", FuncCategory::Scalar, FuncDomain::Json, 1, Some(1), false));
    v.push(core_entry("jsonb_agg", FuncCategory::Aggregate, FuncDomain::Json, 1, Some(1), true));
    v.push(core_entry("jsonb_array_elements", FuncCategory::SetReturning, FuncDomain::Json, 1, Some(1), false));
    v.push(core_entry("jsonb_array_length", FuncCategory::Scalar, FuncDomain::Json, 1, Some(1), false));
    v.push(core_entry("jsonb_build_array", FuncCategory::Scalar, FuncDomain::Json, 0, None, true));
    v.push(core_entry("jsonb_build_object", FuncCategory::Scalar, FuncDomain::Json, 0, None, true));
    v.push(core_entry("jsonb_cmp", FuncCategory::Scalar, FuncDomain::Json, 2, Some(2), false));
    v.push(core_entry("jsonb_contained", FuncCategory::Scalar, FuncDomain::Json, 2, Some(2), false));
    v.push(core_entry("jsonb_contains", FuncCategory::Scalar, FuncDomain::Json, 2, Some(2), false));
    v.push(core_entry("jsonb_each", FuncCategory::SetReturning, FuncDomain::Json, 1, Some(1), false));
    v.push(core_entry("jsonb_each_text", FuncCategory::SetReturning, FuncDomain::Json, 1, Some(1), false));
    v.push(core_entry("jsonb_eq", FuncCategory::Scalar, FuncDomain::Json, 2, Some(2), false));
    v.push(core_entry("jsonb_exists", FuncCategory::Scalar, FuncDomain::Json, 2, Some(2), false));
    v.push(core_entry("jsonb_exists_all", FuncCategory::Scalar, FuncDomain::Json, 2, Some(2), false));
    v.push(core_entry("jsonb_exists_any", FuncCategory::Scalar, FuncDomain::Json, 2, Some(2), false));
    v.push(core_entry("jsonb_ge", FuncCategory::Scalar, FuncDomain::Json, 2, Some(2), false));
    v.push(core_entry("jsonb_gt", FuncCategory::Scalar, FuncDomain::Json, 2, Some(2), false));
    v.push(core_entry("jsonb_hash", FuncCategory::Scalar, FuncDomain::Json, 1, Some(1), false));
    v.push(core_entry("jsonb_le", FuncCategory::Scalar, FuncDomain::Json, 2, Some(2), false));
    v.push(core_entry("jsonb_lt", FuncCategory::Scalar, FuncDomain::Json, 2, Some(2), false));
    v.push(core_entry("jsonb_ne", FuncCategory::Scalar, FuncDomain::Json, 2, Some(2), false));
    v.push(core_entry("jsonb_object_keys", FuncCategory::SetReturning, FuncDomain::Json, 1, Some(1), false));
    v.push(core_entry("jsonb_pretty", FuncCategory::Scalar, FuncDomain::Json, 1, Some(1), false));
    v.push(core_entry("jsonb_set", FuncCategory::Scalar, FuncDomain::Json, 3, Some(4), false));
    v.push(core_entry("jsonb_typeof", FuncCategory::Scalar, FuncDomain::Json, 1, Some(1), false));
    v.push(core_entry("justify_days", FuncCategory::Scalar, FuncDomain::DateTime, 1, Some(1), false));
    v.push(core_entry("justify_hours", FuncCategory::Scalar, FuncDomain::DateTime, 1, Some(1), false));
    v.push(core_entry("justify_interval", FuncCategory::Scalar, FuncDomain::DateTime, 1, Some(1), false));
    v.push(core_entry("lag", FuncCategory::Window, FuncDomain::Window, 1, Some(3), false));
    v.push(oracle_entry("last_day", FuncCategory::Scalar, FuncDomain::OracleCompat, 1, Some(1), false));
    v.push(core_entry("last_insert_id", FuncCategory::Scalar, FuncDomain::System, 0, Some(1), false));
    v.push(core_entry("last_value", FuncCategory::Window, FuncDomain::Window, 1, Some(1), false));
    v.push(core_entry("lastval", FuncCategory::Scalar, FuncDomain::System, 0, Some(0), false));
    v.push(core_entry("lcm", FuncCategory::Scalar, FuncDomain::Math, 2, Some(2), false));
    v.push(core_entry("lead", FuncCategory::Window, FuncDomain::Window, 1, Some(3), false));
    v.push(core_entry("least", FuncCategory::Special, FuncDomain::Other, 2, None, false));
    v.push(core_entry("left", FuncCategory::Scalar, FuncDomain::String, 2, Some(2), false));
    v.push(core_entry("length", FuncCategory::Scalar, FuncDomain::String, 1, Some(2), false));
    v.push(core_entry("lengthb", FuncCategory::Scalar, FuncDomain::String, 1, Some(1), false));
    v.push(oracle_entry("listagg", FuncCategory::Aggregate, FuncDomain::String, 1, Some(2), true));
    v.push(core_entry("ln", FuncCategory::Scalar, FuncDomain::Math, 1, Some(1), false));
    v.push(core_entry("localtime", FuncCategory::Scalar, FuncDomain::DateTime, 0, Some(1), false));
    v.push(core_entry("localtimestamp", FuncCategory::Scalar, FuncDomain::DateTime, 0, Some(1), false));
    v.push(core_entry("log", FuncCategory::Scalar, FuncDomain::Math, 1, Some(2), false));
    v.push(core_entry("log10", FuncCategory::Scalar, FuncDomain::Math, 1, Some(1), false));
    v.push(core_entry("lower", FuncCategory::Scalar, FuncDomain::String, 1, Some(1), false));
    v.push(core_entry("lpad", FuncCategory::Scalar, FuncDomain::String, 2, Some(3), false));
    v.push(core_entry("ltrim", FuncCategory::Scalar, FuncDomain::String, 1, Some(2), false));
    v.push(core_entry("make_date", FuncCategory::Scalar, FuncDomain::DateTime, 3, Some(3), false));
    v.push(core_entry("make_time", FuncCategory::Scalar, FuncDomain::DateTime, 3, Some(3), false));
    v.push(core_entry("make_timestamp", FuncCategory::Scalar, FuncDomain::DateTime, 6, Some(6), false));
    v.push(core_entry("make_timestamptz", FuncCategory::Scalar, FuncDomain::DateTime, 6, Some(7), false));
    v.push(commercial_entry("makedate", FuncCategory::Scalar, FuncDomain::DateTime, 2, Some(2), false));
    v.push(commercial_entry("maketime", FuncCategory::Scalar, FuncDomain::DateTime, 3, Some(3), false));
    v.push(core_entry("masklen", FuncCategory::Scalar, FuncDomain::Network, 1, Some(1), false));
    v.push(core_entry("max", FuncCategory::Aggregate, FuncDomain::Aggregate, 1, Some(1), true));
    v.push(core_entry("md5", FuncCategory::Scalar, FuncDomain::Crypto, 1, Some(2), false));
    v.push(core_entry("median", FuncCategory::Aggregate, FuncDomain::Aggregate, 1, Some(1), true));
    v.push(core_entry("min", FuncCategory::Aggregate, FuncDomain::Aggregate, 1, Some(1), true));
    v.push(core_entry("mod", FuncCategory::Scalar, FuncDomain::Math, 2, Some(2), false));
    v.push(core_entry("mode", FuncCategory::Aggregate, FuncDomain::Aggregate, 1, Some(1), true));
    v.push(commercial_entry("monthname", FuncCategory::Scalar, FuncDomain::DateTime, 1, Some(1), false));
    v.push(oracle_entry("months_between", FuncCategory::Scalar, FuncDomain::OracleCompat, 2, Some(2), false));
    v.push(commercial_oracle_entry("nanvl", FuncCategory::Scalar, FuncDomain::OracleCompat, 2, Some(2), false));
    v.push(oracle_entry("nchr", FuncCategory::Scalar, FuncDomain::String, 1, Some(1), false));
    v.push(core_entry("netmask", FuncCategory::Scalar, FuncDomain::Network, 1, Some(1), false));
    v.push(core_entry("network", FuncCategory::Scalar, FuncDomain::Network, 1, Some(1), false));
    v.push(oracle_entry("new_time", FuncCategory::Scalar, FuncDomain::DateTime, 3, Some(3), false));
    v.push(oracle_entry("next_day", FuncCategory::Scalar, FuncDomain::OracleCompat, 2, Some(2), false));
    v.push(core_entry("nextval", FuncCategory::Scalar, FuncDomain::System, 1, Some(1), false));
    v.push(oracle_entry("nls_initcap", FuncCategory::Scalar, FuncDomain::OracleCompat, 1, Some(2), false));
    v.push(oracle_entry("nls_lower", FuncCategory::Scalar, FuncDomain::OracleCompat, 1, Some(2), false));
    v.push(oracle_entry("nls_sort", FuncCategory::Scalar, FuncDomain::OracleCompat, 1, Some(2), false));
    v.push(oracle_entry("nls_upper", FuncCategory::Scalar, FuncDomain::OracleCompat, 1, Some(2), false));
    v.push(oracle_entry("nlssort", FuncCategory::Scalar, FuncDomain::OracleCompat, 1, Some(2), false));
    v.push(core_entry("now", FuncCategory::Scalar, FuncDomain::DateTime, 0, Some(0), false));
    v.push(core_entry("nth_value", FuncCategory::Window, FuncDomain::Window, 2, Some(2), false));
    v.push(core_entry("ntile", FuncCategory::Window, FuncDomain::Window, 1, Some(1), false));
    v.push(core_entry("nullif", FuncCategory::Special, FuncDomain::Other, 2, Some(2), false));
    v.push(core_entry("numrange", FuncCategory::Scalar, FuncDomain::Range, 2, Some(3), false));
    v.push(core_entry("numtoday", FuncCategory::Scalar, FuncDomain::TypeConversion, 1, Some(1), false));
    v.push(core_entry("numtodsinterval", FuncCategory::Scalar, FuncDomain::TypeConversion, 2, Some(2), false));
    v.push(commercial_oracle_entry("numtoyminterval", FuncCategory::Scalar, FuncDomain::TypeConversion, 2, Some(2), false));
    v.push(oracle_entry("nvl", FuncCategory::Special, FuncDomain::OracleCompat, 2, Some(2), false));
    v.push(oracle_entry("nvl2", FuncCategory::Special, FuncDomain::OracleCompat, 3, Some(3), false));
    v.push(core_entry("octet_length", FuncCategory::Scalar, FuncDomain::String, 1, Some(1), false));
    v.push(commercial_entry("ora_hash", FuncCategory::Scalar, FuncDomain::Hash, 1, Some(2), false));
    v.push(core_entry("overlay", FuncCategory::Scalar, FuncDomain::String, 3, Some(4), false));
    v.push(core_entry("percent_rank", FuncCategory::Window, FuncDomain::Window, 0, Some(0), false));
    v.push(core_entry("percentile_cont", FuncCategory::Aggregate, FuncDomain::Aggregate, 1, Some(2), true));
    v.push(core_entry("percentile_disc", FuncCategory::Aggregate, FuncDomain::Aggregate, 1, Some(2), true));
    v.push(commercial_entry("period_add", FuncCategory::Scalar, FuncDomain::DateTime, 2, Some(2), false));
    v.push(commercial_entry("period_diff", FuncCategory::Scalar, FuncDomain::DateTime, 2, Some(2), false));
    v.push(core_entry("pg_advisory_lock", FuncCategory::Scalar, FuncDomain::System, 1, Some(2), false));
    v.push(core_entry("pg_advisory_unlock", FuncCategory::Scalar, FuncDomain::System, 1, Some(2), false));
    v.push(core_entry("pg_advisory_xact_lock", FuncCategory::Scalar, FuncDomain::System, 1, Some(2), false));
    v.push(core_entry("pg_backend_pid", FuncCategory::Scalar, FuncDomain::System, 0, Some(0), false));
    v.push(core_entry("pg_cancel_backend", FuncCategory::Scalar, FuncDomain::System, 1, Some(1), false));
    v.push(core_entry("pg_collation_is_visible", FuncCategory::Scalar, FuncDomain::System, 1, Some(2), false));
    v.push(core_entry("pg_column_size", FuncCategory::Scalar, FuncDomain::System, 1, Some(1), false));
    v.push(core_entry("pg_conf_load_time", FuncCategory::Scalar, FuncDomain::System, 0, Some(0), false));
    v.push(core_entry("pg_conversion_is_visible", FuncCategory::Scalar, FuncDomain::System, 1, Some(1), false));
    v.push(core_entry("pg_create_logical_replication_slot", FuncCategory::Scalar, FuncDomain::System, 2, Some(3), false));
}

/// `s` followed by the entries from `pg_create_physical_replication_slot` to `pkg_util.file_write_raw`.
pub closed spec fn table_part_6(s: Seq<FuncMeta>) -> Seq<FuncMeta> {
    s
        .push(spec_core_entry("pg_create_physical_replication_slot", FuncCategory::Scalar, FuncDomain::System, 1, Some(2), false))
        .push(spec_core_entry("pg_current_xlog_location", FuncCategory::Scalar, FuncDomain::System, 0, Some(0), false))
        .push(spec_core_entry("pg_database_size", FuncCategory::Scalar, FuncDomain::System, 1, Some(1), false))
        .push(spec_core_entry("pg_describe_object", FuncCategory::Scalar, FuncDomain::System, 3, Some(3), false))
        .push(spec_core_entry("pg_drop_replication_slot", FuncCategory::Scalar, FuncDomain::System, 1, Some(1), false))
        .push(spec_core_entry("pg_exception_context", FuncCategory::Scalar, FuncDomain::ExceptionContext, 0, Some(0), false))
        .push(spec_core_entry("pg_exception_detail", FuncCategory::Scalar, FuncDomain::ExceptionContext, 0, Some(0), false))
        .push(spec_core_entry("pg_exception_hint", FuncCategory::Scalar, FuncDomain::ExceptionContext, 0, Some(0), false))
        .push(spec_core_entry("pg_export_snapshot", FuncCategory::Scalar, FuncDomain::System, 0, Some(0), false))
        .push(spec_core_entry("pg_function_is_visible", FuncCategory::Scalar, FuncDomain::System, 1, Some(1), false))
        .push(spec_core_entry("pg_get_constraintdef", FuncCategory::Scalar, FuncDomain::System, 1, Some(2), false))
        .push(spec_core_entry("pg_get_expr", FuncCategory::Scalar, FuncDomain::System, 2, Some(3), false))
        .push(spec_core_entry("pg_get_functiondef", FuncCategory::Scalar, FuncDomain::System, 1, Some(1), false))
        .push(spec_core_entry("pg_get_indexdef", FuncCategory::Scalar, FuncDomain::System, 1, Some(3), false))
        .push(spec_core_entry("pg_get_keywords", FuncCategory::Scalar, FuncDomain::System, 0, Some(0), false))
        .push(spec_core_entry("pg_get_ruledef", FuncCategory::Scalar, FuncDomain::System, 1, Some(2), false))
        .push(spec_core_entry("pg_get_serial_sequence", FuncCategory::Scalar, FuncDomain::System, 2, Some(2), false))
        .push(spec_core_entry("pg_get_triggerdef", FuncCategory::Scalar, FuncDomain::System, 1, Some(1), false))
        .push(spec_core_entry("pg_get_userbyid", FuncCategory::Scalar, FuncDomain::System, 1, Some(1), false))
        .push(spec_core_entry("pg_get_viewdef", FuncCategory::Scalar, FuncDomain::System, 1, Some(2), false))
        .push(spec_core_entry("pg_has_role", FuncCategory::Scalar, FuncDomain::System, 2, Some(3), false))
        .push(spec_core_entry("pg_identify_object", FuncCategory::Scalar, FuncDomain::System, 3, Some(3), false))
        .push(spec_core_entry("pg_indexes_size", FuncCategory::Scalar, FuncDomain::System, 1, Some(1), false))
        .push(spec_core_entry("pg_is_in_recovery", FuncCategory::Scalar, FuncDomain::System, 0, Some(0), false))
        .push(spec_core_entry("pg_is_other_temp_schema", FuncCategory::Scalar, FuncDomain::System, 1, Some(1), false))
        .push(spec_core_entry("pg_last_xact_replay_timestamp", FuncCategory::Scalar, FuncDomain::System, 0, Some(0), false))
        .push(spec_core_entry("pg_listening_channels", FuncCategory::Scalar, FuncDomain::System, 0, Some(0), false))
        .push(spec_core_entry("pg_logical_slot_get_binary_changes", FuncCategory::Scalar, FuncDomain::System, 2, None, false))
        .push(spec_core_entry("pg_logical_slot_get_changes", FuncCategory::Scalar, FuncDomain::System, 2, None, false))
        .push(spec_core_entry("pg_logical_slot_peek_binary_changes", FuncCategory::Scalar, FuncDomain::System, 2, None, false))
        .push(spec_core_entry("pg_logical_slot_peek_changes", FuncCategory::Scalar, FuncDomain::System, 2, None, false))
        .push(spec_core_entry("pg_ls_dir", FuncCategory::Scalar, FuncDomain::System, 1, Some(1), false))
        .push(spec_core_entry("pg_my_temp_schema", FuncCategory::Scalar, FuncDomain::System, 0, Some(0), false))
        .push(spec_core_entry("pg_opclass_is_visible", FuncCategory::Scalar, FuncDomain::System, 1, Some(1), false))
        .push(spec_core_entry("pg_operator_is_visible", FuncCategory::Scalar, FuncDomain::System, 1, Some(1), false))
        .push(spec_core_entry("pg_opfamily_is_visible", FuncCategory::Scalar, FuncDomain::System, 1, Some(1), false))
        .push(spec_core_entry("pg_postmaster_start_time", FuncCategory::Scalar, FuncDomain::System, 0, Some(0), false))
        .push(spec_core_entry("pg_prepared_statement", FuncCategory::Scalar, FuncDomain::System, 1, Some(1), false))
        .push(spec_core_entry("pg_prepared_xact", FuncCategory::Scalar, FuncDomain::System, 1, Some(1), false))
        .push(spec_core_entry("pg_query_audit", FuncCategory::Scalar, FuncDomain::System, 2, Some(2), false))
        .push(spec_core_entry("pg_read_binary_file", FuncCategory::Scalar, FuncDomain::System, 1, Some(3), false))
        .push(spec_core_entry("pg_read_file", FuncCategory::Scalar, FuncDomain::System, 1, Some(3), false))
        .push(spec_core_entry("pg_relation_filenode", FuncCategory::Scalar, FuncDomain::System, 1, Some(1), false))
        .push(spec_core_entry("pg_relation_filepath", FuncCategory::Scalar, FuncDomain::System, 1, Some(1), false))
        .push(spec_core_entry("pg_relation_size", FuncCategory::Scalar, FuncDomain::System, 1, Some(2), false))
        .push(spec_core_entry("pg_replication_origin_create", FuncCategory::Scalar, FuncDomain::System, 1, Some(1), false))
        .push(spec_core_entry("pg_replication_origin_drop", FuncCategory::Scalar, FuncDomain::System, 1, Some(1), false))
        .push(spec_core_entry("pg_replication_origin_oid", FuncCategory::Scalar, FuncDomain::System, 1, Some(1), false))
        .push(spec_core_entry("pg_replication_origin_progress", FuncCategory::Scalar, FuncDomain::System, 1, Some(2), false))
        .push(spec_core_entry("pg_rotate_logfile", FuncCategory::Scalar, FuncDomain::System, 0, Some(0), false))
        .push(spec_core_entry("pg_size_pretty", FuncCategory::Scalar, FuncDomain::System, 1, Some(1), false))
        .push(spec_core_entry("pg_sleep", FuncCategory::Scalar, FuncDomain::System, 1, Some(1), false))
        .push(spec_core_entry("pg_start_backup", FuncCategory::Scalar, FuncDomain::System, 1, Some(2), false))
        .push(spec_core_entry("pg_stat_file", FuncCategory::Scalar, FuncDomain::System, 1, Some(1), false))
        .push(spec_core_entry("pg_stop_backup", FuncCategory::Scalar, FuncDomain::System, 0, Some(1), false))
        .push(spec_core_entry("pg_switch_xlog", FuncCategory::Scalar, FuncDomain::System, 0, Some(0), false))
        .push(spec_core_entry("pg_table_is_visible", FuncCategory::Scalar, FuncDomain::System, 1, Some(2), false))
        .push(spec_core_entry("pg_table_size", FuncCategory::Scalar, FuncDomain::System, 1, Some(1), false))
        .push(spec_core_entry("pg_tablespace_databases", FuncCategory::Scalar, FuncDomain::System, 1, Some(1), false))
        .push(spec_core_entry("pg_tablespace_location", FuncCategory::Scalar, FuncDomain::System, 1, Some(1), false))
        .push(spec_core_entry("pg_tablespace_size", FuncCategory::Scalar, FuncDomain::System, 1, Some(1), false))
        .push(spec_core_entry("pg_terminate_backend", FuncCategory::Scalar, FuncDomain::System, 1, Some(1), false))
        .push(spec_core_entry("pg_total_relation_size", FuncCategory::Scalar, FuncDomain::System, 1, Some(1), false))
        .push(spec_core_entry("pg_try_advisory_lock", FuncCategory::Scalar, FuncDomain::System, 1, Some(2), false))
        .push(spec_core_entry("pg_try_advisory_xact_lock", FuncCategory::Scalar, FuncDomain::System, 1, Some(2), false))
        .push(spec_core_entry("pg_ts_config_is_visible", FuncCategory::Scalar, FuncDomain::System, 1, Some(1), false))
        .push(spec_core_entry("pg_ts_dict_is_visible", FuncCategory::Scalar, FuncDomain::System, 1, Some(1), false))
        .push(spec_core_entry("pg_ts_parser_is_visible", FuncCategory::Scalar, FuncDomain::System, 1, Some(1), false))
        .push(spec_core_entry("pg_ts_template_is_visible", FuncCategory::Scalar, FuncDomain::System, 1, Some(1), false))
        .push(spec_core_entry("pg_type_is_visible", FuncCategory::Scalar, FuncDomain::System, 1, Some(1), false))
        .push(spec_core_entry("pg_typeof", FuncCategory::Scalar, FuncDomain::System, 1, Some(1), false))
        .push(spec_core_entry("pg_xlog_location_diff", FuncCategory::Scalar, FuncDomain::System, 2, Some(2), false))
        .push(spec_core_entry("pg_xlog_replay_pause", FuncCategory::Scalar, FuncDomain::System, 0, Some(0), false))
        .push(spec_core_entry("pg_xlog_replay_resume", FuncCategory::Scalar, FuncDomain::System, 0, Some(0), false))
        .push(spec_core_entry("pg_xlogfile_name", FuncCategory::Scalar, FuncDomain::System, 1, Some(1), false))
        .push(spec_core_entry("pg_xlogfile_name_offset", FuncCategory::Scalar, FuncDomain::System, 1, Some(1), false))
        .push(spec_core_entry("pi", FuncCategory::Scalar, FuncDomain::Math, 0, Some(0), false))
        .push(spec_oracle_entry("pkg_service.isubmit_on_nodes", FuncCategory::Scalar, FuncDomain::PkgService, 5, Some(6), false))
        .push(spec_oracle_entry("pkg_service.job_cancel", FuncCategory::Scalar, FuncDomain::PkgService, 1, Some(1), false))
        .push(spec_oracle_entry("pkg_service.job_finish", FuncCategory::Scalar, FuncDomain::PkgService, 2, Some(3), false))
        .push(spec_oracle_entry("pkg_service.job_submit", FuncCategory::Scalar, FuncDomain::PkgService, 3, Some(5), false))
        .push(spec_oracle_entry("pkg_service.job_update", FuncCategory::Scalar, FuncDomain::PkgService, 4, Some(4), false))
        .push(spec_oracle_entry("pkg_service.sql_cancel", FuncCategory::Scalar, FuncDomain::PkgService, 1, Some(1), false))
        .push(spec_oracle_entry("pkg_service.sql_clean_all_contexts", FuncCategory::Scalar, FuncDomain::PkgService, 0, Some(0), false))
        .push(spec_oracle_entry("pkg_service.sql_get_array_result", FuncCategory::Scalar, FuncDomain::PkgService, 4, Some(4), false))
        .push(spec_oracle_entry("pkg_service.sql_get_value", FuncCategory::Scalar, FuncDomain::PkgService, 3, Some(3), false))
        .push(spec_oracle_entry("pkg_service.sql_get_variable_result", FuncCategory::Scalar, FuncDomain::PkgService, 3, Some(3), false))
        .push(spec_oracle_entry("pkg_service.sql_is_context_active", FuncCategory::Scalar, FuncDomain::PkgService, 1, Some(1), false))
        .push(spec_oracle_entry("pkg_service.sql_next_row", FuncCategory::Scalar, FuncDomain::PkgService, 1, Some(1), false))
        .push(spec_oracle_entry("pkg_service.sql_register_context", FuncCategory::Scalar, FuncDomain::PkgService, 0, Some(0), false))
        .push(spec_oracle_entry("pkg_service.sql_run", FuncCategory::Scalar, FuncDomain::PkgService, 1, Some(1), false))
        .push(spec_oracle_entry("pkg_service.sql_set_result_type", FuncCategory::Scalar, FuncDomain::PkgService, 4, Some(4), false))
        .push(spec_oracle_entry("pkg_service.sql_set_sql", FuncCategory::Scalar, FuncDomain::PkgService, 3, Some(3), false))
        .push(spec_oracle_entry("pkg_service.sql_unregister_context", FuncCategory::Scalar, FuncDomain::PkgService, 1, Some(1), false))
        .push(spec_oracle_entry("pkg_service.submit_on_nodes", FuncCategory::Scalar, FuncDomain::PkgService, 5, Some(6), false))
        .push(spec_commercial_oracle_entry("pkg_util.app_read_action", FuncCategory::Scalar, FuncDomain::PkgUtil, 1, Some(1), false))
        .push(spec_commercial_oracle_entry("pkg_util.app_read_client_info", FuncCategory::Scalar, FuncDomain::PkgUtil, 1, Some(1), false))
        .push(spec_commercial_oracle_entry("pkg_util.app_read_module", FuncCategory::Scalar, FuncDomain::PkgUtil, 1, Some(1), false))
        .push(spec_commercial_oracle_entry("pkg_util.app_set_action", FuncCategory::Scalar, FuncDomain::PkgUtil, 1, Some(1), false))
        .push(spec_commercial_oracle_entry("pkg_util.app_set_client_info", FuncCategory::Scalar, FuncDomain::PkgUtil, 1, Some(1), false))
        .push(spec_commercial_oracle_entry("pkg_util.app_set_module", FuncCategory::Scalar, FuncDomain::PkgUtil, 1, Some(1), false))
        .push(spec_commercial_oracle_entry("pkg_util.bfile_close", FuncCategory::Scalar, FuncDomain::PkgUtil, 1, Some(1), false))
        .push(spec_commercial_oracle_entry("pkg_util.bfile_get_length", FuncCategory::Scalar, FuncDomain::PkgUtil, 1, Some(1), false))
        .push(spec_commercial_oracle_entry("pkg_util.bfile_open", FuncCategory::Scalar, FuncDomain::PkgUtil, 2, Some(2), false))
        .push(spec_commercial_oracle_entry("pkg_util.blob_reset", FuncCategory::Scalar, FuncDomain::PkgUtil, 2, Some(4), false))
        .push(spec_commercial_oracle_entry("pkg_util.clob_reset", FuncCategory::Scalar, FuncDomain::PkgUtil, 2, Some(3), false))
        .push(spec_commercial_oracle_entry("pkg_util.exception_report_error", FuncCategory::Scalar, FuncDomain::PkgUtil, 2, Some(3), false))
        .push(spec_commercial_oracle_entry("pkg_util.file_block_size", FuncCategory::Scalar, FuncDomain::PkgUtil, 1, Some(1), false))
        .push(spec_commercial_oracle_entry("pkg_util.file_close_all", FuncCategory::Scalar, FuncDomain::PkgUtil, 0, Some(0), false))
        .push(spec_commercial_oracle_entry("pkg_util.file_exists", FuncCategory::Scalar, FuncDomain::PkgUtil, 1, Some(1), false))
        .push(spec_commercial_oracle_entry("pkg_util.file_getpos", FuncCategory::Scalar, FuncDomain::PkgUtil, 1, Some(1), false))
        .push(spec_commercial_oracle_entry("pkg_util.file_is_close", FuncCategory::Scalar, FuncDomain::PkgUtil, 1, Some(1), false))
        .push(spec_commercial_oracle_entry("pkg_util.file_newline", FuncCategory::Scalar, FuncDomain::PkgUtil, 1, Some(1), false))
        .push(spec_commercial_oracle_entry("pkg_util.file_open", FuncCategory::Scalar, FuncDomain::PkgUtil, 2, Some(2), false))
        .push(spec_commercial_oracle_entry("pkg_util.file_read", FuncCategory::Scalar, FuncDomain::PkgUtil, 2, Some(3), false))
        .push(spec_commercial_oracle_entry("pkg_util.file_read_raw", FuncCategory::Scalar, FuncDomain::PkgUtil, 1, Some(2), false))
        .push(spec_commercial_oracle_entry("pkg_util.file_readline", FuncCategory::Scalar, FuncDomain::PkgUtil, 2, Some(3), false))
        .push(spec_commercial_oracle_entry("pkg_util.file_remove", FuncCategory::Scalar, FuncDomain::PkgUtil, 1, Some(1), false))
        .push(spec_commercial_oracle_entry("pkg_util.file_rename", FuncCategory::Scalar, FuncDomain::PkgUtil, 4, Some(5), false))
        .push(spec_commercial_oracle_entry("pkg_util.file_seek", FuncCategory::Scalar, FuncDomain::PkgUtil, 2, Some(2), false))
        .push(spec_commercial_oracle_entry("pkg_util.file_set_dirname", FuncCategory::Scalar, FuncDomain::PkgUtil, 1, Some(1), false))
        .push(spec_commercial_oracle_entry("pkg_util.file_set_max_line_size", FuncCategory::Scalar, FuncDomain::PkgUtil, 1, Some(1), false))
        .push(spec_commercial_oracle_entry("pkg_util.file_size", FuncCategory::Scalar, FuncDomain::PkgUtil, 1, Some(1), false))
        .push(spec_commercial_oracle_entry("pkg_util.file_write", FuncCategory::Scalar, FuncDomain::PkgUtil, 2, Some(2), false))
        .push(spec_commercial_oracle_entry("pkg_util.file_write_raw", FuncCategory::Scalar, FuncDomain::PkgUtil, 2, Some(2), false))
}

fn push_table_part_6(v: &mut Vec<FuncMeta>)
    ensures
        final(v)@ == table_part_6(old(v)@),
{
    v.push(core_entry("pg_create_physical_replication_slot", FuncCategory::Scalar, FuncDomain::System, 1, Some(2), false));
    v.push(core_entry("pg_current_xlog_location", FuncCategory::Scalar, FuncDomain::System, 0, Some(0), false));
    v.push(core_entry("pg_database_size", FuncCategory::Scalar, FuncDomain::System, 1, Some(1), false));
    v.push(core_entry("pg_describe_object", FuncCategory::Scalar, FuncDomain::System, 3, Some(3), false));
    v.push(core_entry("pg_drop_replication_slot", FuncCategory::Scalar, FuncDomain::System, 1, Some(1), false));
    v.push(core_entry("pg_exception_context", FuncCategory::Scalar, FuncDomain::ExceptionContext, 0, Some(0), false));
    v.push(core_entry("pg_exception_detail", FuncCategory::Scalar, FuncDomain::ExceptionContext, 0, Some(0), false));
    v.push(core_entry("pg_exception_hint", FuncCategory::Scalar, FuncDomain::ExceptionContext, 0, Some(0), false));
    v.push(core_entry("pg_export_snapshot", FuncCategory::Scalar, FuncDomain::System, 0, Some(0), false));
    v.push(core_entry("pg_function_is_visible", FuncCategory::Scalar, FuncDomain::System, 1, Some(1), false));
    v.push(core_entry("pg_get_constraintdef", FuncCategory::Scalar, FuncDomain::System, 1, Some(2), false));
    v.push(core_entry("pg_get_expr", FuncCategory::Scalar, FuncDomain::System, 2, Some(3), false));
    v.push(core_entry("pg_get_functiondef", FuncCategory::Scalar, FuncDomain::System, 1, Some(1), false));
    v.push(core_entry("pg_get_indexdef", FuncCategory::Scalar, FuncDomain::System, 1, Some(3), false));
    v.push(core_entry("pg_get_keywords", FuncCategory::Scalar, FuncDomain::System, 0, Some(0), false));
    v.push(core_entry("pg_get_ruledef", FuncCategory::Scalar, FuncDomain::System, 1, Some(2), false));
    v.push(core_entry("pg_get_serial_sequence", FuncCategory::Scalar, FuncDomain::System, 2, Some(2), false));
    v.push(core_entry("pg_get_triggerdef", FuncCategory::Scalar, FuncDomain::System, 1, Some(1), false));
    v.push(core_entry("pg_get_userbyid", FuncCategory::Scalar, FuncDomain::System, 1, Some(1), false));
    v.push(core_entry("pg_get_viewdef", FuncCategory::Scalar, FuncDomain::System, 1, Some(2), false));
    v.push(core_entry("pg_has_role", FuncCategory::Scalar, FuncDomain::System, 2, Some(3), false));
    v.push(core_entry("pg_identify_object", FuncCategory::Scalar, FuncDomain::System, 3, Some(3), false));
    v.push(core_entry("pg_indexes_size", FuncCategory::Scalar, FuncDomain::System, 1, Some(1), false));
    v.push(core_entry("pg_is_in_recovery", FuncCategory::Scalar, FuncDomain::System, 0, Some(0), false));
    v.push(core_entry("pg_is_other_temp_schema", FuncCategory::Scalar, FuncDomain::System, 1, Some(1), false));
    v.push(core_entry("pg_last_xact_replay_timestamp", FuncCategory::Scalar, FuncDomain::System, 0, Some(0), false));
    v.push(core_entry("pg_listening_channels", FuncCategory::Scalar, FuncDomain::System, 0, Some(0), false));
    v.push(core_entry("pg_logical_slot_get_binary_changes", FuncCategory::Scalar, FuncDomain::System, 2, None, false));
    v.push(core_entry("pg_logical_slot_get_changes", FuncCategory::Scalar, FuncDomain::System, 2, None, false));
    v.push(core_entry("pg_logical_slot_peek_binary_changes", FuncCategory::Scalar, FuncDomain::System, 2, None, false));
    v.push(core_entry("pg_logical_slot_peek_changes", FuncCategory::Scalar, FuncDomain::System, 2, None, false));
    v.push(core_entry("pg_ls_dir", FuncCategory::Scalar, FuncDomain::System, 1, Some(1), false));
    v.push(core_entry("pg_my_temp_schema", FuncCategory::Scalar, FuncDomain::System, 0, Some(0), false));
    v.push(core_entry("pg_opclass_is_visible", FuncCategory::Scalar, FuncDomain::System, 1, Some(1), false));
    v.push(core_entry("pg_operator_is_visible", FuncCategory::Scalar, FuncDomain::System, 1, Some(1), false));
    v.push(core_entry("pg_opfamily_is_visible", FuncCategory::Scalar, FuncDomain::System, 1, Some(1), false));
    v.push(core_entry("pg_postmaster_start_time", FuncCategory::Scalar, FuncDomain::System, 0, Some(0), false));
    v.push(core_entry("pg_prepared_statement", FuncCategory::Scalar, FuncDomain::System, 1, Some(1), false));
    v.push(core_entry("pg_prepared_xact", FuncCategory::Scalar, FuncDomain::System, 1, Some(1), false));
    v.push(core_entry("pg_query_audit", FuncCategory::Scalar, FuncDomain::System, 2, Some(2), false));
    v.push(core_entry("pg_read_binary_file", FuncCategory::Scalar, FuncDomain::System, 1, Some(3), false));
    v.push(core_entry("pg_read_file", FuncCategory::Scalar, FuncDomain::System, 1, Some(3), false));
    v.push(core_entry("pg_relation_filenode", FuncCategory::Scalar, FuncDomain::System, 1, Some(1), false));
    v.push(core_entry("pg_relation_filepath", FuncCategory::Scalar, FuncDomain::System, 1, Some(1), false));
    v.push(core_entry("pg_relation_size", FuncCategory::Scalar, FuncDomain::System, 1, Some(2), false));
    v.push(core_entry("pg_replication_origin_create", FuncCategory::Scalar, FuncDomain::System, 1, Some(1), false));
    v.push(core_entry("pg_replication_origin_drop", FuncCategory::Scalar, FuncDomain::System, 1, Some(1), false));
    v.push(core_entry("pg_replication_origin_oid", FuncCategory::Scalar, FuncDomain::System, 1, Some(1), false));
    v.push(core_entry("pg_replication_origin_progress", FuncCategory::Scalar, FuncDomain::System, 1, Some(2), false));
    v.push(core_entry("pg_rotate_logfile", FuncCategory::Scalar, FuncDomain::System, 0, Some(0), false));
    v.push(core_entry("pg_size_pretty", FuncCategory::Scalar, FuncDomain::System, 1, Some(1), false));
    v.push(core_entry("pg_sleep", FuncCategory::Scalar, FuncDomain::System, 1, Some(1), false));
    v.push(core_entry("pg_start_backup", FuncCategory::Scalar, FuncDomain::System, 1, Some(2), false));
    v.push(core_entry("pg_stat_file", FuncCategory::Scalar, FuncDomain::System, 1, Some(1), false));
    v.push(core_entry("pg_stop_backup", FuncCategory::Scalar, FuncDomain::System, 0, Some(1), false));
    v.push(core_entry("pg_switch_xlog", FuncCategory::Scalar, FuncDomain::System, 0, Some(0), false));
    v.push(core_entry("pg_table_is_visible", FuncCategory::Scalar, FuncDomain::System, 1, Some(2), false));
    v.push(core_entry("pg_table_size", FuncCategory::Scalar, FuncDomain::System, 1, Some(1), false));
    v.push(core_entry("pg_tablespace_databases", FuncCategory::Scalar, FuncDomain::System, 1, Some(1), false));
    v.push(core_entry("pg_tablespace_location", FuncCategory::Scalar, FuncDomain::System, 1, Some(1), false));
    v.push(core_entry("pg_tablespace_size", FuncCategory::Scalar, FuncDomain::System, 1, Some(1), false));
    v.push(core_entry("pg_terminate_backend", FuncCategory::Scalar, FuncDomain::System, 1, Some(1), false));
    v.push(core_entry("pg_total_relation_size", FuncCategory::Scalar, FuncDomain::System, 1, Some(1), false));
    v.push(core_entry("pg_try_advisory_lock", FuncCategory::Scalar, FuncDomain::System, 1, Some(2), false));
    v.push(core_entry("pg_try_advisory_xact_lock", FuncCategory::Scalar, FuncDomain::System, 1, Some(2), false));
    v.push(core_entry("pg_ts_config_is_visible", FuncCategory::Scalar, FuncDomain::System, 1, Some(1), false));
    v.push(core_entry("pg_ts_dict_is_visible", FuncCategory::Scalar, FuncDomain::System, 1, Some(1), false));
    v.push(core_entry("pg_ts_parser_is_visible", FuncCategory::Scalar, FuncDomain::System, 1, Some(1), false));
    v.push(core_entry("pg_ts_template_is_visible", FuncCategory::Scalar, FuncDomain::System, 1, Some(1), false));
    v.push(core_entry("pg_type_is_visible", FuncCategory::Scalar, FuncDomain::System, 1, Some(1), false));
    v.push(core_entry("pg_typeof", FuncCategory::Scalar, FuncDomain::System, 1, Some(1), false));
    v.push(core_entry("pg_xlog_location_diff", FuncCategory::Scalar, FuncDomain::System, 2, Some(2), false));
    v.push(core_entry("pg_xlog_replay_pause", FuncCategory::Scalar, FuncDomain::System, 0, Some(0), false));
    v.push(core_entry("pg_xlog_replay_resume", FuncCategory::Scalar, FuncDomain::System, 0, Some(0), false));
    v.push(core_entry("pg_xlogfile_name", FuncCategory::Scalar, FuncDomain::System, 1, Some(1), false));
    v.push(core_entry("pg_xlogfile_name_offset", FuncCategory::Scalar, FuncDomain::System, 1, Some(1), false));
    v.push(core_entry("pi", FuncCategory::Scalar, FuncDomain::Math, 0, Some(0), false));
    v.push(oracle_entry("pkg_service.isubmit_on_nodes", FuncCategory::Scalar, FuncDomain::PkgService, 5, Some(6), false));
    v.push(oracle_entry("pkg_service.job_cancel", FuncCategory::Scalar, FuncDomain::PkgService, 1, Some(1), false));
    v.push(oracle_entry("pkg_service.job_finish", FuncCategory::Scalar, FuncDomain::PkgService, 2, Some(3), false));
    v.push(oracle_entry("pkg_service.job_submit", FuncCategory::Scalar, FuncDomain::PkgService, 3, Some(5), false));
    v.push(oracle_entry("pkg_service.job_update", FuncCategory::Scalar, FuncDomain::PkgService, 4, Some(4), false));
    v.push(oracle_entry("pkg_service.sql_cancel", FuncCategory::Scalar, FuncDomain::PkgService, 1, Some(1), false));
    v.push(oracle_entry("pkg_service.sql_clean_all_contexts", FuncCategory::Scalar, FuncDomain::PkgService, 0, Some(0), false));
    v.push(oracle_entry("pkg_service.sql_get_array_result", FuncCategory::Scalar, FuncDomain::PkgService, 4, Some(4), false));
    v.push(oracle_entry("pkg_service.sql_get_value", FuncCategory::Scalar, FuncDomain::PkgService, 3, Some(3), false));
    v.push(oracle_entry("pkg_service.sql_get_variable_result", FuncCategory::Scalar, FuncDomain::PkgService, 3, Some(3), false));
    v.push(oracle_entry("pkg_service.sql_is_context_active", FuncCategory::Scalar, FuncDomain::PkgService, 1, Some(1), false));
    v.push(oracle_entry("pkg_service.sql_next_row", FuncCategory::Scalar, FuncDomain::PkgService, 1, Some(1), false));
    v.push(oracle_entry("pkg_service.sql_register_context", FuncCategory::Scalar, FuncDomain::PkgService, 0, Some(0), false));
    v.push(oracle_entry("pkg_service.sql_run", FuncCategory::Scalar, FuncDomain::PkgService, 1, Some(1), false));
    v.push(oracle_entry("pkg_service.sql_set_result_type", FuncCategory::Scalar, FuncDomain::PkgService, 4, Some(4), false));
    v.push(oracle_entry("pkg_service.sql_set_sql", FuncCategory::Scalar, FuncDomain::PkgService, 3, Some(3), false));
    v.push(oracle_entry("pkg_service.sql_unregister_context", FuncCategory::Scalar, FuncDomain::PkgService, 1, Some(1), false));
    v.push(oracle_entry("pkg_service.submit_on_nodes", FuncCategory::Scalar, FuncDomain::PkgService, 5, Some(6), false));
    v.push(commercial_oracle_entry("pkg_util.app_read_action", FuncCategory::Scalar, FuncDomain::PkgUtil, 1, Some(1), false));
    v.push(commercial_oracle_entry("pkg_util.app_read_client_info", FuncCategory::Scalar, FuncDomain::PkgUtil, 1, Some(1), false));
    v.push(commercial_oracle_entry("pkg_util.app_read_module", FuncCategory::Scalar, FuncDomain::PkgUtil, 1, Some(1), false));
    v.push(commercial_oracle_entry("pkg_util.app_set_action", FuncCategory::Scalar, FuncDomain::PkgUtil, 1, Some(1), false));
    v.push(commercial_oracle_entry("pkg_util.app_set_client_info", FuncCategory::Scalar, FuncDomain::PkgUtil, 1, Some(1), false));
    v.push(commercial_oracle_entry("pkg_util.app_set_module", FuncCategory::Scalar, FuncDomain::PkgUtil, 1, Some(1), false));
    v.push(commercial_oracle_entry("pkg_util.bfile_close", FuncCategory::Scalar, FuncDomain::PkgUtil, 1, Some(1), false));
    v.push(commercial_oracle_entry("pkg_util.bfile_get_length", FuncCategory::Scalar, FuncDomain::PkgUtil, 1, Some(1), false));
    v.push(commercial_oracle_entry("pkg_util.bfile_open", FuncCategory::Scalar, FuncDomain::PkgUtil, 2, Some(2), false));
    v.push(commercial_oracle_entry("pkg_util.blob_reset", FuncCategory::Scalar, FuncDomain::PkgUtil, 2, Some(4), false));
    v.push(commercial_oracle_entry("pkg_util.clob_reset", FuncCategory::Scalar, FuncDomain::PkgUtil, 2, Some(3), false));
    v.push(commercial_oracle_entry("pkg_util.exception_report_error", FuncCategory::Scalar, FuncDomain::PkgUtil, 2, Some(3), false));
    v.push(commercial_oracle_entry("pkg_util.file_block_size", FuncCategory::Scalar, FuncDomain::PkgUtil, 1, Some(1), false));
    v.push(commercial_oracle_entry("pkg_util.file_close_all", FuncCategory::Scalar, FuncDomain::PkgUtil, 0, Some(0), false));
    v.push(commercial_oracle_entry("pkg_util.file_exists", FuncCategory::Scalar, FuncDomain::PkgUtil, 1, Some(1), false));
    v.push(commercial_oracle_entry("pkg_util.file_getpos", FuncCategory::Scalar, FuncDomain::PkgUtil, 1, Some(1), false));
    v.push(commercial_oracle_entry("pkg_util.file_is_close", FuncCategory::Scalar, FuncDomain::PkgUtil, 1, Some(1), false));
    v.push(commercial_oracle_entry("pkg_util.file_newline", FuncCategory::Scalar, FuncDomain::PkgUtil, 1, Some(1), false));
    v.push(commercial_oracle_entry("pkg_util.file_open", FuncCategory::Scalar, FuncDomain::PkgUtil, 2, Some(2), false));
    v.push(commercial_oracle_entry("pkg_util.file_read", FuncCategory::Scalar, FuncDomain::PkgUtil, 2, Some(3), false));
    v.push(commercial_oracle_entry("pkg_util.file_read_raw", FuncCategory::Scalar, FuncDomain::PkgUtil, 1, Some(2), false));
    v.push(commercial_oracle_entry("pkg_util.file_readline", FuncCategory::Scalar, FuncDomain::PkgUtil, 2, Some(3), false));
    v.push(commercial_oracle_entry("pkg_util.file_remove", FuncCategory::Scalar, FuncDomain::PkgUtil, 1, Some(1), false));
    v.push(commercial_oracle_entry("pkg_util.file_rename", FuncCategory::Scalar, FuncDomain::PkgUtil, 4, Some(5), false));
    v.push(commercial_oracle_entry("pkg_util.file_seek", FuncCategory::Scalar, FuncDomain::PkgUtil, 2, Some(2), false));
    v.push(commercial_oracle_entry("pkg_util.file_set_dirname", FuncCategory::Scalar, FuncDomain::PkgUtil, 1, Some(1), false));
    v.push(commercial_oracle_entry("pkg_util.file_set_max_line_size", FuncCategory::Scalar, FuncDomain::PkgUtil, 1, Some(1), false));
    v.push(commercial_oracle_entry("pkg_util.file_size", FuncCategory::Scalar, FuncDomain::PkgUtil, 1, Some(1), false));
    v.push(commercial_oracle_entry("pkg_util.file_write", FuncCategory::Scalar, FuncDomain::PkgUtil, 2, Some(2), false));
    v.push(commercial_oracle_entry("pkg_util.file_write_raw", FuncCategory::Scalar, FuncDomain::PkgUtil, 2, Some(2), false));
}

/// `s` followed by the entries from `pkg_util.file_writeline` to `subtime`.
pub closed spec fn table_part_7(s: Seq<FuncMeta>) -> Seq<FuncMeta> {
    s
        .push(spec_commercial_oracle_entry("pkg_util.file_writeline", FuncCategory::Scalar, FuncDomain::PkgUtil, 2, Some(2), false))
        .push(spec_commercial_oracle_entry("pkg_util.gs_compile_schema", FuncCategory::Scalar, FuncDomain::PkgUtil, 0, Some(3), false))
        .push(spec_commercial_oracle_entry("pkg_util.io_print", FuncCategory::Scalar, FuncDomain::PkgUtil, 2, Some(2), false))
        .push(spec_commercial_oracle_entry("pkg_util.loadblobfromfile", FuncCategory::Scalar, FuncDomain::PkgUtil, 5, Some(5), false))
        .push(spec_commercial_oracle_entry("pkg_util.loadclobfromfile", FuncCategory::Scalar, FuncDomain::PkgUtil, 5, Some(5), false))
        .push(spec_commercial_oracle_entry("pkg_util.lob_append", FuncCategory::Scalar, FuncDomain::PkgUtil, 2, Some(3), false))
        .push(spec_commercial_oracle_entry("pkg_util.lob_append_huge", FuncCategory::Scalar, FuncDomain::PkgUtil, 2, Some(2), false))
        .push(spec_commercial_oracle_entry("pkg_util.lob_compare", FuncCategory::Scalar, FuncDomain::PkgUtil, 2, Some(5), false))
        .push(spec_commercial_oracle_entry("pkg_util.lob_converttoblob", FuncCategory::Scalar, FuncDomain::PkgUtil, 5, Some(5), false))
        .push(spec_commercial_oracle_entry("pkg_util.lob_converttoblob_huge", FuncCategory::Scalar, FuncDomain::PkgUtil, 5, Some(5), false))
        .push(spec_commercial_oracle_entry("pkg_util.lob_converttoclob", FuncCategory::Scalar, FuncDomain::PkgUtil, 5, Some(5), false))
        .push(spec_commercial_oracle_entry("pkg_util.lob_converttoclob_huge", FuncCategory::Scalar, FuncDomain::PkgUtil, 5, Some(5), false))
        .push(spec_commercial_oracle_entry("pkg_util.lob_copy_huge", FuncCategory::Scalar, FuncDomain::PkgUtil, 3, Some(5), false))
        .push(spec_commercial_oracle_entry("pkg_util.lob_get_length", FuncCategory::Scalar, FuncDomain::PkgUtil, 1, Some(1), false))
        .push(spec_commercial_oracle_entry("pkg_util.lob_match", FuncCategory::Scalar, FuncDomain::PkgUtil, 3, Some(4), false))
        .push(spec_commercial_oracle_entry("pkg_util.lob_rawtotext", FuncCategory::Scalar, FuncDomain::PkgUtil, 1, Some(1), false))
        .push(spec_commercial_oracle_entry("pkg_util.lob_read", FuncCategory::Scalar, FuncDomain::PkgUtil, 4, Some(4), false))
        .push(spec_commercial_oracle_entry("pkg_util.lob_read_huge", FuncCategory::Scalar, FuncDomain::PkgUtil, 4, Some(4), false))
        .push(spec_commercial_oracle_entry("pkg_util.lob_reset", FuncCategory::Scalar, FuncDomain::PkgUtil, 3, Some(4), false))
        .push(spec_commercial_oracle_entry("pkg_util.lob_texttoraw", FuncCategory::Scalar, FuncDomain::PkgUtil, 1, Some(1), false))
        .push(spec_commercial_oracle_entry("pkg_util.lob_write", FuncCategory::Scalar, FuncDomain::PkgUtil, 3, Some(3), false))
        .push(spec_commercial_oracle_entry("pkg_util.lob_write_huge", FuncCategory::Scalar, FuncDomain::PkgUtil, 4, Some(4), false))
        .push(spec_commercial_oracle_entry("pkg_util.lob_writeappend_huge", FuncCategory::Scalar, FuncDomain::PkgUtil, 3, Some(3), false))
        .push(spec_commercial_oracle_entry("pkg_util.match_edit_distance_similarity", FuncCategory::Scalar, FuncDomain::PkgUtil, 2, Some(2), false))
        .push(spec_commercial_oracle_entry("pkg_util.modify_package_state", FuncCategory::Scalar, FuncDomain::PkgUtil, 1, Some(1), false))
        .push(spec_commercial_oracle_entry("pkg_util.random_get_value", FuncCategory::Scalar, FuncDomain::PkgUtil, 0, Some(0), false))
        .push(spec_commercial_oracle_entry("pkg_util.random_set_seed", FuncCategory::Scalar, FuncDomain::PkgUtil, 1, Some(1), false))
        .push(spec_commercial_oracle_entry("pkg_util.raw_cast_from_binary_integer", FuncCategory::Scalar, FuncDomain::PkgUtil, 2, Some(2), false))
        .push(spec_commercial_oracle_entry("pkg_util.raw_cast_from_varchar2", FuncCategory::Scalar, FuncDomain::PkgUtil, 1, Some(1), false))
        .push(spec_commercial_oracle_entry("pkg_util.raw_cast_to_binary_integer", FuncCategory::Scalar, FuncDomain::PkgUtil, 2, Some(2), false))
        .push(spec_commercial_oracle_entry("pkg_util.raw_cast_to_varchar2", FuncCategory::Scalar, FuncDomain::PkgUtil, 1, Some(1), false))
        .push(spec_commercial_oracle_entry("pkg_util.raw_get_length", FuncCategory::Scalar, FuncDomain::PkgUtil, 1, Some(1), false))
        .push(spec_commercial_oracle_entry("pkg_util.read_bfile_to_blob", FuncCategory::Scalar, FuncDomain::PkgUtil, 1, Some(1), false))
        .push(spec_commercial_oracle_entry("pkg_util.session_clear_context", FuncCategory::Scalar, FuncDomain::PkgUtil, 3, Some(3), false))
        .push(spec_commercial_oracle_entry("pkg_util.session_search_context", FuncCategory::Scalar, FuncDomain::PkgUtil, 2, Some(2), false))
        .push(spec_commercial_oracle_entry("pkg_util.session_set_context", FuncCategory::Scalar, FuncDomain::PkgUtil, 3, Some(3), false))
        .push(spec_commercial_oracle_entry("pkg_util.utility_compile_schema", FuncCategory::Scalar, FuncDomain::PkgUtil, 1, Some(3), false))
        .push(spec_commercial_oracle_entry("pkg_util.utility_format_call_stack", FuncCategory::Scalar, FuncDomain::PkgUtil, 0, Some(0), false))
        .push(spec_commercial_oracle_entry("pkg_util.utility_format_error_backtrace", FuncCategory::Scalar, FuncDomain::PkgUtil, 0, Some(0), false))
        .push(spec_commercial_oracle_entry("pkg_util.utility_format_error_stack", FuncCategory::Scalar, FuncDomain::PkgUtil, 0, Some(0), false))
        .push(spec_commercial_oracle_entry("pkg_util.utility_get_time", FuncCategory::Scalar, FuncDomain::PkgUtil, 0, Some(0), false))
        .push(spec_core_entry("plainto_tsquery", FuncCategory::Scalar, FuncDomain::TextSearch, 1, Some(2), false))
        .push(spec_core_entry("point", FuncCategory::Scalar, FuncDomain::Geometric, 2, Some(2), false))
        .push(spec_core_entry("polygon", FuncCategory::Scalar, FuncDomain::Geometric, 1, Some(1), false))
        .push(spec_core_entry("position", FuncCategory::Scalar, FuncDomain::String, 2, Some(2), false))
        .push(spec_core_entry("power", FuncCategory::Scalar, FuncDomain::Math, 2, Some(2), false))
        .push(spec_core_entry("query_to_xml", FuncCategory::Scalar, FuncDomain::Xml, 4, Some(4), false))
        .push(spec_core_entry("query_to_xml_and_xmlschema", FuncCategory::Scalar, FuncDomain::Xml, 4, Some(4), false))
        .push(spec_core_entry("query_to_xmlschema", FuncCategory::Scalar, FuncDomain::Xml, 4, Some(4), false))
        .push(spec_core_entry("querytree", FuncCategory::Scalar, FuncDomain::TextSearch, 1, Some(1), false))
        .push(spec_core_entry("quote_ident", FuncCategory::Scalar, FuncDomain::String, 1, Some(1), false))
        .push(spec_core_entry("quote_literal", FuncCategory::Scalar, FuncDomain::String, 1, Some(1), false))
        .push(spec_core_entry("quote_nullable", FuncCategory::Scalar, FuncDomain::String, 1, Some(1), false))
        .push(spec_core_entry("radians", FuncCategory::Scalar, FuncDomain::Math, 1, Some(1), false))
        .push(spec_core_entry("radius", FuncCategory::Scalar, FuncDomain::Geometric, 1, Some(1), false))
        .push(spec_commercial_entry("rand", FuncCategory::Scalar, FuncDomain::Math, 0, Some(1), false))
        .push(spec_core_entry("random", FuncCategory::Scalar, FuncDomain::Math, 0, Some(0), false))
        .push(spec_core_entry("rank", FuncCategory::Window, FuncDomain::Window, 0, Some(0), false))
        .push(spec_core_entry("ratio_to_report", FuncCategory::Window, FuncDomain::Window, 1, Some(1), false))
        .push(spec_core_entry("rawout", FuncCategory::Scalar, FuncDomain::TypeConversion, 1, Some(1), false))
        .push(spec_core_entry("rawsend", FuncCategory::Scalar, FuncDomain::TypeConversion, 1, Some(1), false))
        .push(spec_core_entry("rawtohex", FuncCategory::Scalar, FuncDomain::TypeConversion, 1, Some(1), false))
        .push(spec_oracle_entry("rawtohex2", FuncCategory::Scalar, FuncDomain::TypeConversion, 1, Some(1), false))
        .push(spec_core_entry("regexp_count", FuncCategory::Scalar, FuncDomain::String, 2, Some(4), false))
        .push(spec_core_entry("regexp_instr", FuncCategory::Scalar, FuncDomain::String, 2, Some(5), false))
        .push(spec_core_entry("regexp_like", FuncCategory::Scalar, FuncDomain::String, 2, Some(3), false))
        .push(spec_core_entry("regexp_matches", FuncCategory::Scalar, FuncDomain::String, 2, Some(3), false))
        .push(spec_core_entry("regexp_replace", FuncCategory::Scalar, FuncDomain::String, 2, Some(6), false))
        .push(spec_core_entry("regexp_split_to_array", FuncCategory::Scalar, FuncDomain::String, 1, Some(3), false))
        .push(spec_core_entry("regexp_split_to_table", FuncCategory::SetReturning, FuncDomain::String, 1, Some(3), false))
        .push(spec_core_entry("regexp_substr", FuncCategory::Scalar, FuncDomain::String, 2, Some(4), false))
        .push(spec_core_entry("regr_avgx", FuncCategory::Aggregate, FuncDomain::Aggregate, 2, Some(2), true))
        .push(spec_core_entry("regr_avgy", FuncCategory::Aggregate, FuncDomain::Aggregate, 2, Some(2), true))
        .push(spec_core_entry("regr_count", FuncCategory::Aggregate, FuncDomain::Aggregate, 2, Some(2), true))
        .push(spec_core_entry("regr_intercept", FuncCategory::Aggregate, FuncDomain::Aggregate, 2, Some(2), true))
        .push(spec_core_entry("regr_r2", FuncCategory::Aggregate, FuncDomain::Aggregate, 2, Some(2), true))
        .push(spec_core_entry("regr_slope", FuncCategory::Aggregate, FuncDomain::Aggregate, 2, Some(2), true))
        .push(spec_core_entry("regr_sxx", FuncCategory::Aggregate, FuncDomain::Aggregate, 2, Some(2), true))
        .push(spec_core_entry("regr_sxy", FuncCategory::Aggregate, FuncDomain::Aggregate, 2, Some(2), true))
        .push(spec_core_entry("regr_syy", FuncCategory::Aggregate, FuncDomain::Aggregate, 2, Some(2), true))
        .push(spec_commercial_oracle_entry("remainder", FuncCategory::Scalar, FuncDomain::Math, 2, Some(2), false))
        .push(spec_core_entry("repeat", FuncCategory::Scalar, FuncDomain::String, 2, Some(2), false))
        .push(spec_core_entry("replace", FuncCategory::Scalar, FuncDomain::String, 2, Some(3), false))
        .push(spec_core_entry("reverse", FuncCategory::Scalar, FuncDomain::String, 1, Some(1), false))
        .push(spec_core_entry("right", FuncCategory::Scalar, FuncDomain::String, 2, Some(2), false))
        .push(spec_core_entry("round", FuncCategory::Scalar, FuncDomain::Math, 1, Some(2), false))
        .push(spec_core_entry("row_number", FuncCategory::Window, FuncDomain::Window, 0, Some(0), false))
        .push(spec_core_entry("row_to_json", FuncCategory::Scalar, FuncDomain::Json, 1, Some(2), false))
        .push(spec_oracle_entry("rownum", FuncCategory::Scalar, FuncDomain::OracleCompat, 0, Some(0), false))
        .push(spec_core_entry("rpad", FuncCategory::Scalar, FuncDomain::String, 2, Some(3), false))
        .push(spec_core_entry("rtrim", FuncCategory::Scalar, FuncDomain::String, 1, Some(2), false))
        .push(spec_core_entry("schema_to_xml", FuncCategory::Scalar, FuncDomain::Xml, 4, Some(4), false))
        .push(spec_core_entry("schema_to_xml_and_xmlschema", FuncCategory::Scalar, FuncDomain::Xml, 4, Some(4), false))
        .push(spec_core_entry("schema_to_xmlschema", FuncCategory::Scalar, FuncDomain::Xml, 4, Some(4), false))
        .push(spec_commercial_entry("sec_to_time", FuncCategory::Scalar, FuncDomain::DateTime, 1, Some(1), false))
        .push(spec_core_entry("session_user", FuncCategory::Scalar, FuncDomain::System, 0, Some(0), false))
        .push(spec_core_entry("set_bit", FuncCategory::Scalar, FuncDomain::String, 3, Some(3), false))
        .push(spec_core_entry("set_byte", FuncCategory::Scalar, FuncDomain::String, 3, Some(3), false))
        .push(spec_core_entry("set_config", FuncCategory::Scalar, FuncDomain::System, 2, Some(3), false))
        .push(spec_core_entry("setseed", FuncCategory::Scalar, FuncDomain::Math, 1, Some(1), false))
        .push(spec_core_entry("setval", FuncCategory::Scalar, FuncDomain::System, 2, Some(3), false))
        .push(spec_core_entry("sha1", FuncCategory::Scalar, FuncDomain::Crypto, 1, Some(1), false))
        .push(spec_core_entry("sha2", FuncCategory::Scalar, FuncDomain::Crypto, 1, Some(2), false))
        .push(spec_core_entry("sign", FuncCategory::Scalar, FuncDomain::Math, 1, Some(1), false))
        .push(spec_core_entry("sin", FuncCategory::Scalar, FuncDomain::Math, 1, Some(1), false))
        .push(spec_core_entry("split_part", FuncCategory::Scalar, FuncDomain::String, 3, Some(3), false))
        .push(spec_core_entry("sqrt", FuncCategory::Scalar, FuncDomain::Math, 1, Some(1), false))
        .push(spec_oracle_entry("st_buffer", FuncCategory::Scalar, FuncDomain::Geometric, 2, Some(3), false))
        .push(spec_oracle_entry("st_envelope", FuncCategory::Scalar, FuncDomain::Geometric, 1, Some(1), false))
        .push(spec_oracle_entry("st_makepoint", FuncCategory::Scalar, FuncDomain::Geometric, 2, Some(4), false))
        .push(spec_oracle_entry("st_setsrid", FuncCategory::Scalar, FuncDomain::Geometric, 2, Some(2), false))
        .push(spec_core_entry("statement_timestamp", FuncCategory::Scalar, FuncDomain::DateTime, 0, Some(0), false))
        .push(spec_core_entry("stddev", FuncCategory::Aggregate, FuncDomain::Aggregate, 1, Some(1), true))
        .push(spec_core_entry("stddev_pop", FuncCategory::Aggregate, FuncDomain::Aggregate, 1, Some(1), true))
        .push(spec_core_entry("stddev_samp", FuncCategory::Aggregate, FuncDomain::Aggregate, 1, Some(1), true))
        .push(spec_commercial_entry("str_to_date", FuncCategory::Scalar, FuncDomain::DateTime, 2, Some(2), false))
        .push(spec_core_entry("string_agg", FuncCategory::Aggregate, FuncDomain::String, 2, Some(2), true))
        .push(spec_core_entry("string_to_array", FuncCategory::Scalar, FuncDomain::Array, 2, Some(3), false))
        .push(spec_core_entry("strpos", FuncCategory::Scalar, FuncDomain::String, 2, Some(2), false))
        .push(spec_commercial_entry("subdate", FuncCategory::Scalar, FuncDomain::DateTime, 2, Some(2), false))
        .push(spec_core_entry("substr", FuncCategory::Scalar, FuncDomain::String, 2, Some(3), false))
        .push(spec_oracle_entry("substrb", FuncCategory::Scalar, FuncDomain::String, 2, Some(3), false))
        .push(spec_core_entry("substring", FuncCategory::Scalar, FuncDomain::String, 2, Some(3), false))
        .push(spec_commercial_entry("substring_index", FuncCategory::Scalar, FuncDomain::String, 3, Some(3), false))
        .push(spec_commercial_entry("subtime", FuncCategory::Scalar, FuncDomain::DateTime, 2, Some(2), false))
}

fn push_table_part_7(v: &mut Vec<FuncMeta>)
    ensures
        final(v)@ == table_part_7(old(v)@),
{
    v.push(commercial_oracle_entry("pkg_util.file_writeline", FuncCategory::Scalar, FuncDomain::PkgUtil, 2, Some(2), false));
    v.push(commercial_oracle_entry("pkg_util.gs_compile_schema", FuncCategory::Scalar, FuncDomain::PkgUtil, 0, Some(3), false));
    v.push(commercial_oracle_entry("pkg_util.io_print", FuncCategory::Scalar, FuncDomain::PkgUtil, 2, Some(2), false));
    v.push(commercial_oracle_entry("pkg_util.loadblobfromfile", FuncCategory::Scalar, FuncDomain::PkgUtil, 5, Some(5), false));
    v.push(commercial_oracle_entry("pkg_util.loadclobfromfile", FuncCategory::Scalar, FuncDomain::PkgUtil, 5, Some(5), false));
    v.push(commercial_oracle_entry("pkg_util.lob_append", FuncCategory::Scalar, FuncDomain::PkgUtil, 2, Some(3), false));
    v.push(commercial_oracle_entry("pkg_util.lob_append_huge", FuncCategory::Scalar, FuncDomain::PkgUtil, 2, Some(2), false));
    v.push(commercial_oracle_entry("pkg_util.lob_compare", FuncCategory::Scalar, FuncDomain::PkgUtil, 2, Some(5), false));
    v.push(commercial_oracle_entry("pkg_util.lob_converttoblob", FuncCategory::Scalar, FuncDomain::PkgUtil, 5, Some(5), false));
    v.push(commercial_oracle_entry("pkg_util.lob_converttoblob_huge", FuncCategory::Scalar, FuncDomain::PkgUtil, 5, Some(5), false));
    v.push(commercial_oracle_entry("pkg_util.lob_converttoclob", FuncCategory::Scalar, FuncDomain::PkgUtil, 5, Some(5), false));
    v.push(commercial_oracle_entry("pkg_util.lob_converttoclob_huge", FuncCategory::Scalar, FuncDomain::PkgUtil, 5, Some(5), false));
    v.push(commercial_oracle_entry("pkg_util.lob_copy_huge", FuncCategory::Scalar, FuncDomain::PkgUtil, 3, Some(5), false));
    v.push(commercial_oracle_entry("pkg_util.lob_get_length", FuncCategory::Scalar, FuncDomain::PkgUtil, 1, Some(1), false));
    v.push(commercial_oracle_entry("pkg_util.lob_match", FuncCategory::Scalar, FuncDomain::PkgUtil, 3, Some(4), false));
    v.push(commercial_oracle_entry("pkg_util.lob_rawtotext", FuncCategory::Scalar, FuncDomain::PkgUtil, 1, Some(1), false));
    v.push(commercial_oracle_entry("pkg_util.lob_read", FuncCategory::Scalar, FuncDomain::PkgUtil, 4, Some(4), false));
    v.push(commercial_oracle_entry("pkg_util.lob_read_huge", FuncCategory::Scalar, FuncDomain::PkgUtil, 4, Some(4), false));
    v.push(commercial_oracle_entry("pkg_util.lob_reset", FuncCategory::Scalar, FuncDomain::PkgUtil, 3, Some(4), false));
    v.push(commercial_oracle_entry("pkg_util.lob_texttoraw", FuncCategory::Scalar, FuncDomain::PkgUtil, 1, Some(1), false));
    v.push(commercial_oracle_entry("pkg_util.lob_write", FuncCategory::Scalar, FuncDomain::PkgUtil, 3, Some(3), false));
    v.push(commercial_oracle_entry("pkg_util.lob_write_huge", FuncCategory::Scalar, FuncDomain::PkgUtil, 4, Some(4), false));
    v.push(commercial_oracle_entry("pkg_util.lob_writeappend_huge", FuncCategory::Scalar, FuncDomain::PkgUtil, 3, Some(3), false));
    v.push(commercial_oracle_entry("pkg_util.match_edit_distance_similarity", FuncCategory::Scalar, FuncDomain::PkgUtil, 2, Some(2), false));
    v.push(commercial_oracle_entry("pkg_util.modify_package_state", FuncCategory::Scalar, FuncDomain::PkgUtil, 1, Some(1), false));
    v.push(commercial_oracle_entry("pkg_util.random_get_value", FuncCategory::Scalar, FuncDomain::PkgUtil, 0, Some(0), false));
    v.push(commercial_oracle_entry("pkg_util.random_set_seed", FuncCategory::Scalar, FuncDomain::PkgUtil, 1, Some(1), false));
    v.push(commercial_oracle_entry("pkg_util.raw_cast_from_binary_integer", FuncCategory::Scalar, FuncDomain::PkgUtil, 2, Some(2), false));
    v.push(commercial_oracle_entry("pkg_util.raw_cast_from_varchar2", FuncCategory::Scalar, FuncDomain::PkgUtil, 1, Some(1), false));
    v.push(commercial_oracle_entry("pkg_util.raw_cast_to_binary_integer", FuncCategory::Scalar, FuncDomain::PkgUtil, 2, Some(2), false));
    v.push(commercial_oracle_entry("pkg_util.raw_cast_to_varchar2", FuncCategory::Scalar, FuncDomain::PkgUtil, 1, Some(1), false));
    v.push(commercial_oracle_entry("pkg_util.raw_get_length", FuncCategory::Scalar, FuncDomain::PkgUtil, 1, Some(1), false));
    v.push(commercial_oracle_entry("pkg_util.read_bfile_to_blob", FuncCategory::Scalar, FuncDomain::PkgUtil, 1, Some(1), false));
    v.push(commercial_oracle_entry("pkg_util.session_clear_context", FuncCategory::Scalar, FuncDomain::PkgUtil, 3, Some(3), false));
    v.push(commercial_oracle_entry("pkg_util.session_search_context", FuncCategory::Scalar, FuncDomain::PkgUtil, 2, Some(2), false));
    v.push(commercial_oracle_entry("pkg_util.session_set_context", FuncCategory::Scalar, FuncDomain::PkgUtil, 3, Some(3), false));
    v.push(commercial_oracle_entry("pkg_util.utility_compile_schema", FuncCategory::Scalar, FuncDomain::PkgUtil, 1, Some(3), false));
    v.push(commercial_oracle_entry("pkg_util.utility_format_call_stack", FuncCategory::Scalar, FuncDomain::PkgUtil, 0, Some(0), false));
    v.push(commercial_oracle_entry("pkg_util.utility_format_error_backtrace", FuncCategory::Scalar, FuncDomain::PkgUtil, 0, Some(0), false));
    v.push(commercial_oracle_entry("pkg_util.utility_format_error_stack", FuncCategory::Scalar, FuncDomain::PkgUtil, 0, Some(0), false));
    v.push(commercial_oracle_entry("pkg_util.utility_get_time", FuncCategory::Scalar, FuncDomain::PkgUtil, 0, Some(0), false));
    v.push(core_entry("plainto_tsquery", FuncCategory::Scalar, FuncDomain::TextSearch, 1, Some(2), false));
    v.push(core_entry("point", FuncCategory::Scalar, FuncDomain::Geometric, 2, Some(2), false));
    v.push(core_entry("polygon", FuncCategory::Scalar, FuncDomain::Geometric, 1, Some(1), false));
    v.push(core_entry("position", FuncCategory::Scalar, FuncDomain::String, 2, Some(2), false));
    v.push(core_entry("power", FuncCategory::Scalar, FuncDomain::Math, 2, Some(2), false));
    v.push(core_entry("query_to_xml", FuncCategory::Scalar, FuncDomain::Xml, 4, Some(4), false));
    v.push(core_entry("query_to_xml_and_xmlschema", FuncCategory::Scalar, FuncDomain::Xml, 4, Some(4), false));
    v.push(core_entry("query_to_xmlschema", FuncCategory::Scalar, FuncDomain::Xml, 4, Some(4), false));
    v.push(core_entry("querytree", FuncCategory::Scalar, FuncDomain::TextSearch, 1, Some(1), false));
    v.push(core_entry("quote_ident", FuncCategory::Scalar, FuncDomain::String, 1, Some(1), false));
    v.push(core_entry("quote_literal", FuncCategory::Scalar, FuncDomain::String, 1, Some(1), false));
    v.push(core_entry("quote_nullable", FuncCategory::Scalar, FuncDomain::String, 1, Some(1), false));
    v.push(core_entry("radians", FuncCategory::Scalar, FuncDomain::Math, 1, Some(1), false));
    v.push(core_entry("radius", FuncCategory::Scalar, FuncDomain::Geometric, 1, Some(1), false));
    v.push(commercial_entry("rand", FuncCategory::Scalar, FuncDomain::Math, 0, Some(1), false));
    v.push(core_entry("random", FuncCategory::Scalar, FuncDomain::Math, 0, Some(0), false));
    v.push(core_entry("rank", FuncCategory::Window, FuncDomain::Window, 0, Some(0), false));
    v.push(core_entry("ratio_to_report", FuncCategory::Window, FuncDomain::Window, 1, Some(1), false));
    v.push(core_entry("rawout", FuncCategory::Scalar, FuncDomain::TypeConversion, 1, Some(1), false));
    v.push(core_entry("rawsend", FuncCategory::Scalar, FuncDomain::TypeConversion, 1, Some(1), false));
    v.push(core_entry("rawtohex", FuncCategory::Scalar, FuncDomain::TypeConversion, 1, Some(1), false));
    v.push(oracle_entry("rawtohex2", FuncCategory::Scalar, FuncDomain::TypeConversion, 1, Some(1), false));
    v.push(core_entry("regexp_count", FuncCategory::Scalar, FuncDomain::String, 2, Some(4), false));
    v.push(core_entry("regexp_instr", FuncCategory::Scalar, FuncDomain::String, 2, Some(5), false));
    v.push(core_entry("regexp_like", FuncCategory::Scalar, FuncDomain::String, 2, Some(3), false));
    v.push(core_entry("regexp_matches", FuncCategory::Scalar, FuncDomain::String, 2, Some(3), false));
    v.push(core_entry("regexp_replace", FuncCategory::Scalar, FuncDomain::String, 2, Some(6), false));
    v.push(core_entry("regexp_split_to_array", FuncCategory::Scalar, FuncDomain::String, 1, Some(3), false));
    v.push(core_entry("regexp_split_to_table", FuncCategory::SetReturning, FuncDomain::String, 1, Some(3), false));
    v.push(core_entry("regexp_substr", FuncCategory::Scalar, FuncDomain::String, 2, Some(4), false));
    v.push(core_entry("regr_avgx", FuncCategory::Aggregate, FuncDomain::Aggregate, 2, Some(2), true));
    v.push(core_entry("regr_avgy", FuncCategory::Aggregate, FuncDomain::Aggregate, 2, Some(2), true));
    v.push(core_entry("regr_count", FuncCategory::Aggregate, FuncDomain::Aggregate, 2, Some(2), true));
    v.push(core_entry("regr_intercept", FuncCategory::Aggregate, FuncDomain::Aggregate, 2, Some(2), true));
    v.push(core_entry("regr_r2", FuncCategory::Aggregate, FuncDomain::Aggregate, 2, Some(2), true));
    v.push(core_entry("regr_slope", FuncCategory::Aggregate, FuncDomain::Aggregate, 2, Some(2), true));
    v.push(core_entry("regr_sxx", FuncCategory::Aggregate, FuncDomain::Aggregate, 2, Some(2), true));
    v.push(core_entry("regr_sxy", FuncCategory::Aggregate, FuncDomain::Aggregate, 2, Some(2), true));
    v.push(core_entry("regr_syy", FuncCategory::Aggregate, FuncDomain::Aggregate, 2, Some(2), true));
    v.push(commercial_oracle_entry("remainder", FuncCategory::Scalar, FuncDomain::Math, 2, Some(2), false));
    v.push(core_entry("repeat", FuncCategory::Scalar, FuncDomain::String, 2, Some(2), false));
    v.push(core_entry("replace", FuncCategory::Scalar, FuncDomain::String, 2, Some(3), false));
    v.push(core_entry("reverse", FuncCategory::Scalar, FuncDomain::String, 1, Some(1), false));
    v.push(core_entry("right", FuncCategory::Scalar, FuncDomain::String, 2, Some(2), false));
    v.push(core_entry("round", FuncCategory::Scalar, FuncDomain::Math, 1, Some(2), false));
    v.push(core_entry("row_number", FuncCategory::Window, FuncDomain::Window, 0, Some(0), false));
    v.push(core_entry("row_to_json", FuncCategory::Scalar, FuncDomain::Json, 1, Some(2), false));
    v.push(oracle_entry("rownum", FuncCategory::Scalar, FuncDomain::OracleCompat, 0, Some(0), false));
    v.push(core_entry("rpad", FuncCategory::Scalar, FuncDomain::String, 2, Some(3), false));
    v.push(core_entry("rtrim", FuncCategory::Scalar, FuncDomain::String, 1, Some(2), false));
    v.push(core_entry("schema_to_xml", FuncCategory::Scalar, FuncDomain::Xml, 4, Some(4), false));
    v.push(core_entry("schema_to_xml_and_xmlschema", FuncCategory::Scalar, FuncDomain::Xml, 4, Some(4), false));
    v.push(core_entry("schema_to_xmlschema", FuncCategory::Scalar, FuncDomain::Xml, 4, Some(4), false));
    v.push(commercial_entry("sec_to_time", FuncCategory::Scalar, FuncDomain::DateTime, 1, Some(1), false));
    v.push(core_entry("session_user", FuncCategory::Scalar, FuncDomain::System, 0, Some(0), false));
    v.push(core_entry("set_bit", FuncCategory::Scalar, FuncDomain::String, 3, Some(3), false));
    v.push(core_entry("set_byte", FuncCategory::Scalar, FuncDomain::String, 3, Some(3), false));
    v.push(core_entry("set_config", FuncCategory::Scalar, FuncDomain::System, 2, Some(3), false));
    v.push(core_entry("setseed", FuncCategory::Scalar, FuncDomain::Math, 1, Some(1), false));
    v.push(core_entry("setval", FuncCategory::Scalar, FuncDomain::System, 2, Some(3), false));
    v.push(core_entry("sha1", FuncCategory::Scalar, FuncDomain::Crypto, 1, Some(1), false));
    v.push(core_entry("sha2", FuncCategory::Scalar, FuncDomain::Crypto, 1, Some(2), false));
    v.push(core_entry("sign", FuncCategory::Scalar, FuncDomain::Math, 1, Some(1), false));
    v.push(core_entry("sin", FuncCategory::Scalar, FuncDomain::Math, 1, Some(1), false));
    v.push(core_entry("split_part", FuncCategory::Scalar, FuncDomain::String, 3, Some(3), false));
    v.push(core_entry("sqrt", FuncCategory::Scalar, FuncDomain::Math, 1, Some(1), false));
    v.push(oracle_entry("st_buffer", FuncCategory::Scalar, FuncDomain::Geometric, 2, Some(3), false));
    v.push(oracle_entry("st_envelope", FuncCategory::Scalar, FuncDomain::Geometric, 1, Some(1), false));
    v.push(oracle_entry("st_makepoint", FuncCategory::Scalar, FuncDomain::Geometric, 2, Some(4), false));
    v.push(oracle_entry("st_setsrid", FuncCategory::Scalar, FuncDomain::Geometric, 2, Some(2), false));
    v.push(core_entry("statement_timestamp", FuncCategory::Scalar, FuncDomain::DateTime, 0, Some(0), false));
    v.push(core_entry("stddev", FuncCategory::Aggregate, FuncDomain::Aggregate, 1, Some(1), true));
    v.push(core_entry("stddev_pop", FuncCategory::Aggregate, FuncDomain::Aggregate, 1, Some(1), true));
    v.push(core_entry("stddev_samp", FuncCategory::Aggregate, FuncDomain::Aggregate, 1, Some(1), true));
    v.push(commercial_entry("str_to_date", FuncCategory::Scalar, FuncDomain::DateTime, 2, Some(2), false));
    v.push(core_entry("string_agg", FuncCategory::Aggregate, FuncDomain::String, 2, Some(2), true));
    v.push(core_entry("string_to_array", FuncCategory::Scalar, FuncDomain::Array, 2, Some(3), false));
    v.push(core_entry("strpos", FuncCategory::Scalar, FuncDomain::String, 2, Some(2), false));
    v.push(commercial_entry("subdate", FuncCategory::Scalar, FuncDomain::DateTime, 2, Some(2), false));
    v.push(core_entry("substr", FuncCategory::Scalar, FuncDomain::String, 2, Some(3), false));
    v.push(oracle_entry("substrb", FuncCategory::Scalar, FuncDomain::String, 2, Some(3), false));
    v.push(core_entry("substring", FuncCategory::Scalar, FuncDomain::String, 2, Some(3), false));
    v.push(commercial_entry("substring_index", FuncCategory::Scalar, FuncDomain::String, 3, Some(3), false));
    v.push(commercial_entry("subtime", FuncCategory::Scalar, FuncDomain::DateTime, 2, Some(2), false));
}

/// `s` followed by the entries from `sum` to `yearweek`.
pub closed spec fn table_part_8(s: Seq<FuncMeta>) -> Seq<FuncMeta> {
    s
        .push(spec_core_entry("sum", FuncCategory::Aggregate, FuncDomain::Aggregate, 1, Some(1), true))
        .push(spec_commercial_oracle_entry("sys_connect_by_path", FuncCategory::Scalar, FuncDomain::OracleCompat, 2, Some(2), false))
        .push(spec_commercial_oracle_entry("sys_context", FuncCategory::Scalar, FuncDomain::System, 2, Some(3), false))
        .push(spec_commercial_oracle_entry("sys_extract_utc", FuncCategory::Scalar, FuncDomain::DateTime, 1, Some(1), false))
        .push(spec_oracle_entry("sysdate", FuncCategory::Scalar, FuncDomain::OracleCompat, 0, Some(0), false))
        .push(spec_core_entry("table_to_xml", FuncCategory::Scalar, FuncDomain::Xml, 4, Some(4), false))
        .push(spec_core_entry("table_to_xml_and_xmlschema", FuncCategory::Scalar, FuncDomain::Xml, 4, Some(4), false))
        .push(spec_core_entry("table_to_xmlschema", FuncCategory::Scalar, FuncDomain::Xml, 4, Some(4), false))
        .push(spec_core_entry("tan", FuncCategory::Scalar, FuncDomain::Math, 1, Some(1), false))
        .push(spec_commercial_entry("time_format", FuncCategory::Scalar, FuncDomain::DateTime, 2, Some(2), false))
        .push(spec_commercial_entry("time_to_sec", FuncCategory::Scalar, FuncDomain::DateTime, 1, Some(1), false))
        .push(spec_commercial_entry("timediff", FuncCategory::Scalar, FuncDomain::DateTime, 2, Some(2), false))
        .push(spec_core_entry("timenow", FuncCategory::Scalar, FuncDomain::DateTime, 0, Some(0), false))
        .push(spec_core_entry("timeofday", FuncCategory::Scalar, FuncDomain::DateTime, 0, Some(0), false))
        .push(spec_commercial_entry("timestampadd", FuncCategory::Scalar, FuncDomain::DateTime, 3, Some(3), false))
        .push(spec_commercial_entry("timestampdiff", FuncCategory::Scalar, FuncDomain::DateTime, 3, Some(3), false))
        .push(spec_core_entry("to_ascii", FuncCategory::Scalar, FuncDomain::TypeConversion, 1, Some(2), false))
        .push(spec_oracle_entry("to_bigint", FuncCategory::Scalar, FuncDomain::TypeConversion, 1, Some(1), false))
        .push(spec_commercial_oracle_entry("to_binary_double", FuncCategory::Scalar, FuncDomain::TypeConversion, 1, Some(2), false))
        .push(spec_oracle_entry("to_binary_float", FuncCategory::Scalar, FuncDomain::TypeConversion, 1, Some(2), false))
        .push(spec_oracle_entry("to_blob", FuncCategory::Scalar, FuncDomain::TypeConversion, 1, Some(1), false))
        .push(spec_core_entry("to_char", FuncCategory::Scalar, FuncDomain::TypeConversion, 1, Some(2), false))
        .push(spec_core_entry("to_clob", FuncCategory::Scalar, FuncDomain::TypeConversion, 1, Some(1), false))
        .push(spec_core_entry("to_date", FuncCategory::Scalar, FuncDomain::TypeConversion, 1, Some(2), false))
        .push(spec_commercial_entry("to_days", FuncCategory::Scalar, FuncDomain::DateTime, 1, Some(1), false))
        .push(spec_oracle_entry("to_dsinterval", FuncCategory::Scalar, FuncDomain::TypeConversion, 1, Some(1), false))
        .push(spec_core_entry("to_hex", FuncCategory::Scalar, FuncDomain::TypeConversion, 1, Some(1), false))
        .push(spec_core_entry("to_json", FuncCategory::Scalar, FuncDomain::Json, 1, Some(1), false))
        .push(spec_core_entry("to_jsonb", FuncCategory::Scalar, FuncDomain::Json, 1, Some(1), false))
        .push(spec_commercial_oracle_entry("to_multi_byte", FuncCategory::Scalar, FuncDomain::String, 1, Some(1), false))
        .push(spec_commercial_oracle_entry("to_nchar", FuncCategory::Scalar, FuncDomain::TypeConversion, 1, Some(2), false))
        .push(spec_core_entry("to_number", FuncCategory::Scalar, FuncDomain::TypeConversion, 1, Some(2), false))
        .push(spec_commercial_entry("to_seconds", FuncCategory::Scalar, FuncDomain::DateTime, 1, Some(1), false))
        .push(spec_commercial_oracle_entry("to_single_byte", FuncCategory::Scalar, FuncDomain::String, 1, Some(1), false))
        .push(spec_core_entry("to_timestamp", FuncCategory::Scalar, FuncDomain::DateTime, 1, Some(2), false))
        .push(spec_commercial_oracle_entry("to_timestamp_tz", FuncCategory::Scalar, FuncDomain::DateTime, 1, Some(2), false))
        .push(spec_core_entry("to_tsquery", FuncCategory::Scalar, FuncDomain::TextSearch, 1, Some(2), false))
        .push(spec_core_entry("to_tsvector", FuncCategory::Scalar, FuncDomain::TextSearch, 1, Some(2), false))
        .push(spec_oracle_entry("to_yminterval", FuncCategory::Scalar, FuncDomain::TypeConversion, 1, Some(1), false))
        .push(spec_core_entry("transaction_timestamp", FuncCategory::Scalar, FuncDomain::DateTime, 0, Some(0), false))
        .push(spec_core_entry("translate", FuncCategory::Scalar, FuncDomain::String, 3, Some(3), false))
        .push(spec_commercial_oracle_entry("treat", FuncCategory::Scalar, FuncDomain::TypeConversion, 1, Some(1), false))
        .push(spec_core_entry("trim", FuncCategory::Scalar, FuncDomain::String, 1, Some(3), false))
        .push(spec_core_entry("trunc", FuncCategory::Scalar, FuncDomain::Math, 1, Some(2), false))
        .push(spec_core_entry("ts_headline", FuncCategory::Scalar, FuncDomain::TextSearch, 2, Some(4), false))
        .push(spec_core_entry("ts_lexize", FuncCategory::Scalar, FuncDomain::TextSearch, 2, Some(2), false))
        .push(spec_core_entry("ts_parse", FuncCategory::Scalar, FuncDomain::TextSearch, 1, Some(2), false))
        .push(spec_core_entry("ts_rank", FuncCategory::Scalar, FuncDomain::TextSearch, 1, Some(4), false))
        .push(spec_core_entry("ts_rank_cd", FuncCategory::Scalar, FuncDomain::TextSearch, 1, Some(4), false))
        .push(spec_core_entry("ts_rewrite", FuncCategory::Scalar, FuncDomain::TextSearch, 2, Some(3), false))
        .push(spec_core_entry("ts_stat", FuncCategory::Scalar, FuncDomain::TextSearch, 1, Some(2), false))
        .push(spec_core_entry("ts_token_type", FuncCategory::Scalar, FuncDomain::TextSearch, 0, Some(1), false))
        .push(spec_core_entry("tsrange", FuncCategory::Scalar, FuncDomain::Range, 2, Some(3), false))
        .push(spec_core_entry("tsvector_update_trigger", FuncCategory::Scalar, FuncDomain::TextSearch, 0, Some(0), false))
        .push(spec_core_entry("txid_current", FuncCategory::Scalar, FuncDomain::System, 0, Some(0), false))
        .push(spec_core_entry("txid_current_snapshot", FuncCategory::Scalar, FuncDomain::System, 0, Some(0), false))
        .push(spec_core_entry("txid_snapshot_xip", FuncCategory::Scalar, FuncDomain::System, 1, Some(1), false))
        .push(spec_core_entry("txid_snapshot_xmax", FuncCategory::Scalar, FuncDomain::System, 1, Some(1), false))
        .push(spec_core_entry("txid_snapshot_xmin", FuncCategory::Scalar, FuncDomain::System, 1, Some(1), false))
        .push(spec_core_entry("txid_visible_in_snapshot", FuncCategory::Scalar, FuncDomain::System, 2, Some(2), false))
        .push(spec_commercial_oracle_entry("tz_offset", FuncCategory::Scalar, FuncDomain::DateTime, 1, Some(1), false))
        .push(spec_oracle_entry("unistr", FuncCategory::Scalar, FuncDomain::String, 1, Some(1), false))
        .push(spec_commercial_entry("unix_timestamp", FuncCategory::Scalar, FuncDomain::DateTime, 0, Some(1), false))
        .push(spec_core_entry("unnest", FuncCategory::SetReturning, FuncDomain::Array, 1, Some(1), false))
        .push(spec_commercial_entry("unnest_table", FuncCategory::SetReturning, FuncDomain::Array, 1, Some(1), false))
        .push(spec_core_entry("upper", FuncCategory::Scalar, FuncDomain::String, 1, Some(1), false))
        .push(spec_core_entry("user", FuncCategory::Scalar, FuncDomain::System, 0, Some(0), false))
        .push(spec_commercial_entry("utc_date", FuncCategory::Scalar, FuncDomain::DateTime, 0, Some(0), false))
        .push(spec_commercial_entry("utc_time", FuncCategory::Scalar, FuncDomain::DateTime, 0, Some(1), false))
        .push(spec_commercial_entry("utc_timestamp", FuncCategory::Scalar, FuncDomain::DateTime, 0, Some(1), false))
        .push(spec_oracle_entry("utl_file.fclose", FuncCategory::Scalar, FuncDomain::UtlFile, 1, Some(1), false))
        .push(spec_oracle_entry("utl_file.fclose_all", FuncCategory::Scalar, FuncDomain::UtlFile, 0, Some(0), false))
        .push(spec_oracle_entry("utl_file.fopen", FuncCategory::Scalar, FuncDomain::UtlFile, 2, Some(4), false))
        .push(spec_oracle_entry("utl_file.get_line", FuncCategory::Scalar, FuncDomain::UtlFile, 1, Some(2), false))
        .push(spec_oracle_entry("utl_file.put_line", FuncCategory::Scalar, FuncDomain::UtlFile, 1, Some(2), false))
        .push(spec_commercial_entry("uuid_short", FuncCategory::Scalar, FuncDomain::System, 0, Some(0), false))
        .push(spec_core_entry("var_pop", FuncCategory::Aggregate, FuncDomain::Aggregate, 1, Some(1), true))
        .push(spec_core_entry("var_samp", FuncCategory::Aggregate, FuncDomain::Aggregate, 1, Some(1), true))
        .push(spec_core_entry("variance", FuncCategory::Aggregate, FuncDomain::Aggregate, 1, Some(1), true))
        .push(spec_core_entry("version", FuncCategory::Scalar, FuncDomain::System, 0, Some(0), false))
        .push(spec_oracle_entry("vsize", FuncCategory::Scalar, FuncDomain::String, 1, Some(1), false))
        .push(spec_commercial_entry("weekday", FuncCategory::Scalar, FuncDomain::DateTime, 1, Some(1), false))
        .push(spec_commercial_entry("weekofyear", FuncCategory::Scalar, FuncDomain::DateTime, 1, Some(1), false))
        .push(spec_core_entry("width", FuncCategory::Scalar, FuncDomain::Geometric, 1, Some(1), false))
        .push(spec_core_entry("width_bucket", FuncCategory::Scalar, FuncDomain::Math, 3, Some(4), false))
        .push(spec_oracle_entry("wm_concat", FuncCategory::Aggregate, FuncDomain::String, 1, None, true))
        .push(spec_core_entry("xml_is_well_formed", FuncCategory::Scalar, FuncDomain::Xml, 1, Some(1), false))
        .push(spec_core_entry("xml_is_well_formed_content", FuncCategory::Scalar, FuncDomain::Xml, 1, Some(2), false))
        .push(spec_core_entry("xml_is_well_formed_document", FuncCategory::Scalar, FuncDomain::Xml, 1, Some(2), false))
        .push(spec_oracle_entry("xmlagg", FuncCategory::Aggregate, FuncDomain::Xml, 1, Some(1), true))
        .push(spec_oracle_entry("xmlattributes", FuncCategory::Scalar, FuncDomain::Xml, 1, None, false))
        .push(spec_oracle_entry("xmlcomment", FuncCategory::Scalar, FuncDomain::Xml, 1, Some(1), false))
        .push(spec_oracle_entry("xmlconcat", FuncCategory::Scalar, FuncDomain::Xml, 1, None, false))
        .push(spec_oracle_entry("xmlelement", FuncCategory::Scalar, FuncDomain::Xml, 1, None, false))
        .push(spec_core_entry("xmlexists", FuncCategory::Scalar, FuncDomain::Xml, 2, Some(2), false))
        .push(spec_oracle_entry("xmlforest", FuncCategory::Scalar, FuncDomain::Xml, 1, None, false))
        .push(spec_oracle_entry("xmlparse", FuncCategory::Scalar, FuncDomain::Xml, 1, Some(2), false))
        .push(spec_oracle_entry("xmlpi", FuncCategory::Scalar, FuncDomain::Xml, 1, Some(2), false))
        .push(spec_oracle_entry("xmlquery", FuncCategory::Scalar, FuncDomain::Xml, 2, Some(3), false))
        .push(spec_commercial_entry("xmlroot", FuncCategory::Scalar, FuncDomain::Xml, 1, Some(3), false))
        .push(spec_oracle_entry("xmlsequence", FuncCategory::Scalar, FuncDomain::Xml, 1, Some(1), false))
        .push(spec_oracle_entry("xmlserialize", FuncCategory::Scalar, FuncDomain::Xml, 2, Some(3), false))
        .push(spec_oracle_entry("xmltype", FuncCategory::Scalar, FuncDomain::Xml, 1, Some(1), false))
        .push(spec_core_entry("xpath", FuncCategory::Scalar, FuncDomain::Xml, 2, Some(2), false))
        .push(spec_core_entry("xpath_exists", FuncCategory::Scalar, FuncDomain::Xml, 2, Some(2), false))
        .push(spec_commercial_entry("yearweek", FuncCategory::Scalar, FuncDomain::DateTime, 1, Some(2), false))
}

fn push_table_part_8(v: &mut Vec<FuncMeta>)
    ensures
        final(v)@ == table_part_8(old(v)@),
{
    v.push(core_entry("sum", FuncCategory::Aggregate, FuncDomain::Aggregate, 1, Some(1), true));
    v.push(commercial_oracle_entry("sys_connect_by_path", FuncCategory::Scalar, FuncDomain::OracleCompat, 2, Some(2), false));
    v.push(commercial_oracle_entry("sys_context", FuncCategory::Scalar, FuncDomain::System, 2, Some(3), false));
    v.push(commercial_oracle_entry("sys_extract_utc", FuncCategory::Scalar, FuncDomain::DateTime, 1, Some(1), false));
    v.push(oracle_entry("sysdate", FuncCategory::Scalar, FuncDomain::OracleCompat, 0, Some(0), false));
    v.push(core_entry("table_to_xml", FuncCategory::Scalar, FuncDomain::Xml, 4, Some(4), false));
    v.push(core_entry("table_to_xml_and_xmlschema", FuncCategory::Scalar, FuncDomain::Xml, 4, Some(4), false));
    v.push(core_entry("table_to_xmlschema", FuncCategory::Scalar, FuncDomain::Xml, 4, Some(4), false));
    v.push(core_entry("tan", FuncCategory::Scalar, FuncDomain::Math, 1, Some(1), false));
    v.push(commercial_entry("time_format", FuncCategory::Scalar, FuncDomain::DateTime, 2, Some(2), false));
    v.push(commercial_entry("time_to_sec", FuncCategory::Scalar, FuncDomain::DateTime, 1, Some(1), false));
    v.push(commercial_entry("timediff", FuncCategory::Scalar, FuncDomain::DateTime, 2, Some(2), false));
    v.push(core_entry("timenow", FuncCategory::Scalar, FuncDomain::DateTime, 0, Some(0), false));
    v.push(core_entry("timeofday", FuncCategory::Scalar, FuncDomain::DateTime, 0, Some(0), false));
    v.push(commercial_entry("timestampadd", FuncCategory::Scalar, FuncDomain::DateTime, 3, Some(3), false));
    v.push(commercial_entry("timestampdiff", FuncCategory::Scalar, FuncDomain::DateTime, 3, Some(3), false));
    v.push(core_entry("to_ascii", FuncCategory::Scalar, FuncDomain::TypeConversion, 1, Some(2), false));
    v.push(oracle_entry("to_bigint", FuncCategory::Scalar, FuncDomain::TypeConversion, 1, Some(1), false));
    v.push(commercial_oracle_entry("to_binary_double", FuncCategory::Scalar, FuncDomain::TypeConversion, 1, Some(2), false));
    v.push(oracle_entry("to_binary_float", FuncCategory::Scalar, FuncDomain::TypeConversion, 1, Some(2), false));
    v.push(oracle_entry("to_blob", FuncCategory::Scalar, FuncDomain::TypeConversion, 1, Some(1), false));
    v.push(core_entry("to_char", FuncCategory::Scalar, FuncDomain::TypeConversion, 1, Some(2), false));
    v.push(core_entry("to_clob", FuncCategory::Scalar, FuncDomain::TypeConversion, 1, Some(1), false));
    v.push(core_entry("to_date", FuncCategory::Scalar, FuncDomain::TypeConversion, 1, Some(2), false));
    v.push(commercial_entry("to_days", FuncCategory::Scalar, FuncDomain::DateTime, 1, Some(1), false));
    v.push(oracle_entry("to_dsinterval", FuncCategory::Scalar, FuncDomain::TypeConversion, 1, Some(1), false));
    v.push(core_entry("to_hex", FuncCategory::Scalar, FuncDomain::TypeConversion, 1, Some(1), false));
    v.push(core_entry("to_json", FuncCategory::Scalar, FuncDomain::Json, 1, Some(1), false));
    v.push(core_entry("to_jsonb", FuncCategory::Scalar, FuncDomain::Json, 1, Some(1), false));
    v.push(commercial_oracle_entry("to_multi_byte", FuncCategory::Scalar, FuncDomain::String, 1, Some(1), false));
    v.push(commercial_oracle_entry("to_nchar", FuncCategory::Scalar, FuncDomain::TypeConversion, 1, Some(2), false));
    v.push(core_entry("to_number", FuncCategory::Scalar, FuncDomain::TypeConversion, 1, Some(2), false));
    v.push(commercial_entry("to_seconds", FuncCategory::Scalar, FuncDomain::DateTime, 1, Some(1), false));
    v.push(commercial_oracle_entry("to_single_byte", FuncCategory::Scalar, FuncDomain::String, 1, Some(1), false));
    v.push(core_entry("to_timestamp", FuncCategory::Scalar, FuncDomain::DateTime, 1, Some(2), false));
    v.push(commercial_oracle_entry("to_timestamp_tz", FuncCategory::Scalar, FuncDomain::DateTime, 1, Some(2), false));
    v.push(core_entry("to_tsquery", FuncCategory::Scalar, FuncDomain::TextSearch, 1, Some(2), false));
    v.push(core_entry("to_tsvector", FuncCategory::Scalar, FuncDomain::TextSearch, 1, Some(2), false));
    v.push(oracle_entry("to_yminterval", FuncCategory::Scalar, FuncDomain::TypeConversion, 1, Some(1), false));
    v.push(core_entry("transaction_timestamp", FuncCategory::Scalar, FuncDomain::DateTime, 0, Some(0), false));
    v.push(core_entry("translate", FuncCategory::Scalar, FuncDomain::String, 3, Some(3), false));
    v.push(commercial_oracle_entry("treat", FuncCategory::Scalar, FuncDomain::TypeConversion, 1, Some(1), false));
    v.push(core_entry("trim", FuncCategory::Scalar, FuncDomain::String, 1, Some(3), false));
    v.push(core_entry("trunc", FuncCategory::Scalar, FuncDomain::Math, 1, Some(2), false));
    v.push(core_entry("ts_headline", FuncCategory::Scalar, FuncDomain::TextSearch, 2, Some(4), false));
    v.push(core_entry("ts_lexize", FuncCategory::Scalar, FuncDomain::TextSearch, 2, Some(2), false));
    v.push(core_entry("ts_parse", FuncCategory::Scalar, FuncDomain::TextSearch, 1, Some(2), false));
    v.push(core_entry("ts_rank", FuncCategory::Scalar, FuncDomain::TextSearch, 1, Some(4), false));
    v.push(core_entry("ts_rank_cd", FuncCategory::Scalar, FuncDomain::TextSearch, 1, Some(4), false));
    v.push(core_entry("ts_rewrite", FuncCategory::Scalar, FuncDomain::TextSearch, 2, Some(3), false));
    v.push(core_entry("ts_stat", FuncCategory::Scalar, FuncDomain::TextSearch, 1, Some(2), false));
    v.push(core_entry("ts_token_type", FuncCategory::Scalar, FuncDomain::TextSearch, 0, Some(1), false));
    v.push(core_entry("tsrange", FuncCategory::Scalar, FuncDomain::Range, 2, Some(3), false));
    v.push(core_entry("tsvector_update_trigger", FuncCategory::Scalar, FuncDomain::TextSearch, 0, Some(0), false));
    v.push(core_entry("txid_current", FuncCategory::Scalar, FuncDomain::System, 0, Some(0), false));
    v.push(core_entry("txid_current_snapshot", FuncCategory::Scalar, FuncDomain::System, 0, Some(0), false));
    v.push(core_entry("txid_snapshot_xip", FuncCategory::Scalar, FuncDomain::System, 1, Some(1), false));
    v.push(core_entry("txid_snapshot_xmax", FuncCategory::Scalar, FuncDomain::System, 1, Some(1), false));
    v.push(core_entry("txid_snapshot_xmin", FuncCategory::Scalar, FuncDomain::System, 1, Some(1), false));
    v.push(core_entry("txid_visible_in_snapshot", FuncCategory::Scalar, FuncDomain::System, 2, Some(2), false));
    v.push(commercial_oracle_entry("tz_offset", FuncCategory::Scalar, FuncDomain::DateTime, 1, Some(1), false));
    v.push(oracle_entry("unistr", FuncCategory::Scalar, FuncDomain::String, 1, Some(1), false));
    v.push(commercial_entry("unix_timestamp", FuncCategory::Scalar, FuncDomain::DateTime, 0, Some(1), false));
    v.push(core_entry("unnest", FuncCategory::SetReturning, FuncDomain::Array, 1, Some(1), false));
    v.push(commercial_entry("unnest_table", FuncCategory::SetReturning, FuncDomain::Array, 1, Some(1), false));
    v.push(core_entry("upper", FuncCategory::Scalar, FuncDomain::String, 1, Some(1), false));
    v.push(core_entry("user", FuncCategory::Scalar, FuncDomain::System, 0, Some(0), false));
    v.push(commercial_entry("utc_date", FuncCategory::Scalar, FuncDomain::DateTime, 0, Some(0), false));
    v.push(commercial_entry("utc_time", FuncCategory::Scalar, FuncDomain::DateTime, 0, Some(1), false));
    v.push(commercial_entry("utc_timestamp", FuncCategory::Scalar, FuncDomain::DateTime, 0, Some(1), false));
    v.push(oracle_entry("utl_file.fclose", FuncCategory::Scalar, FuncDomain::UtlFile, 1, Some(1), false));
    v.push(oracle_entry("utl_file.fclose_all", FuncCategory::Scalar, FuncDomain::UtlFile, 0, Some(0), false));
    v.push(oracle_entry("utl_file.fopen", FuncCategory::Scalar, FuncDomain::UtlFile, 2, Some(4), false));
    v.push(oracle_entry("utl_file.get_line", FuncCategory::Scalar, FuncDomain::UtlFile, 1, Some(2), false));
    v.push(oracle_entry("utl_file.put_line", FuncCategory::Scalar, FuncDomain::UtlFile, 1, Some(2), false));
    v.push(commercial_entry("uuid_short", FuncCategory::Scalar, FuncDomain::System, 0, Some(0), false));
    v.push(core_entry("var_pop", FuncCategory::Aggregate, FuncDomain::Aggregate, 1, Some(1), true));
    v.push(core_entry("var_samp", FuncCategory::Aggregate, FuncDomain::Aggregate, 1, Some(1), true));
    v.push(core_entry("variance", FuncCategory::Aggregate, FuncDomain::Aggregate, 1, Some(1), true));
    v.push(core_entry("version", FuncCategory::Scalar, FuncDomain::System, 0, Some(0), false));
    v.push(oracle_entry("vsize", FuncCategory::Scalar, FuncDomain::String, 1, Some(1), false));
    v.push(commercial_entry("weekday", FuncCategory::Scalar, FuncDomain::DateTime, 1, Some(1), false));
    v.push(commercial_entry("weekofyear", FuncCategory::Scalar, FuncDomain::DateTime, 1, Some(1), false));
    v.push(core_entry("width", FuncCategory::Scalar, FuncDomain::Geometric, 1, Some(1), false));
    v.push(core_entry("width_bucket", FuncCategory::Scalar, FuncDomain::Math, 3, Some(4), false));
    v.push(oracle_entry("wm_concat", FuncCategory::Aggregate, FuncDomain::String, 1, None, true));
    v.push(core_entry("xml_is_well_formed", FuncCategory::Scalar, FuncDomain::Xml, 1, Some(1), false));
    v.push(core_entry("xml_is_well_formed_content", FuncCategory::Scalar, FuncDomain::Xml, 1, Some(2), false));
    v.push(core_entry("xml_is_well_formed_document", FuncCategory::Scalar, FuncDomain::Xml, 1, Some(2), false));
    v.push(oracle_entry("xmlagg", FuncCategory::Aggregate, FuncDomain::Xml, 1, Some(1), true));
    v.push(oracle_entry("xmlattributes", FuncCategory::Scalar, FuncDomain::Xml, 1, None, false));
    v.push(oracle_entry("xmlcomment", FuncCategory::Scalar, FuncDomain::Xml, 1, Some(1), false));
    v.push(oracle_entry("xmlconcat", FuncCategory::Scalar, FuncDomain::Xml, 1, None, false));
    v.push(oracle_entry("xmlelement", FuncCategory::Scalar, FuncDomain::Xml, 1, None, false));
    v.push(core_entry("xmlexists", FuncCategory::Scalar, FuncDomain::Xml, 2, Some(2), false));
    v.push(oracle_entry("xmlforest", FuncCategory::Scalar, FuncDomain::Xml, 1, None, false));
    v.push(oracle_entry("xmlparse", FuncCategory::Scalar, FuncDomain::Xml, 1, Some(2), false));
    v.push(oracle_entry("xmlpi", FuncCategory::Scalar, FuncDomain::Xml, 1, Some(2), false));
    v.push(oracle_entry("xmlquery", FuncCategory::Scalar, FuncDomain::Xml, 2, Some(3), false));
    v.push(commercial_entry("xmlroot", FuncCategory::Scalar, FuncDomain::Xml, 1, Some(3), false));
    v.push(oracle_entry("xmlsequence", FuncCategory::Scalar, FuncDomain::Xml, 1, Some(1), false));
    v.push(oracle_entry("xmlserialize", FuncCategory::Scalar, FuncDomain::Xml, 2, Some(3), false));
    v.push(oracle_entry("xmltype", FuncCategory::Scalar, FuncDomain::Xml, 1, Some(1), false));
    v.push(core_entry("xpath", FuncCategory::Scalar, FuncDomain::Xml, 2, Some(2), false));
    v.push(core_entry("xpath_exists", FuncCategory::Scalar, FuncDomain::Xml, 2, Some(2), false));
    v.push(commercial_entry("yearweek", FuncCategory::Scalar, FuncDomain::DateTime, 1, Some(2), false));
}

/// Every built-in function, sorted by lower-case name.
pub open spec fn builtin_function_table() -> Seq<FuncMeta> {
    table_part_8(table_part_7(table_part_6(table_part_5(table_part_4(table_part_3(table_part_2(table_part_1(Seq::empty()))))))))
}

/// Every entry of `t` is in a product: its distribution is GaussDB alone or both.
pub open spec fn names_products(t: Seq<FuncMeta>) -> bool {
    forall|i: int| 0 <= i < t.len() ==> (t[i].distribution.0 == 2 || t[i].distribution.0 == 3)
}

proof fn lemma_push_keeps_products(t: Seq<FuncMeta>, x: FuncMeta)
    requires
        names_products(t),
        x.distribution.0 == 2 || x.distribution.0 == 3,
    ensures
        names_products(t.push(x)),
{
    assert forall|i: int| 0 <= i < t.push(x).len() implies (t.push(x)[i].distribution.0 == 2
        || t.push(x)[i].distribution.0 == 3) by {
        if i < t.len() {
            assert(t.push(x)[i] == t[i]);
        }
    }
}

proof fn lemma_part_1_products(s: Seq<FuncMeta>)
    requires
        names_products(s),
    ensures
        names_products(table_part_1(s)),
{
    let t = s;
    lemma_push_keeps_products(t, spec_core_entry("abbrev", FuncCategory::Scalar, FuncDomain::Network, 1, Some(1), false));
    let t = t.push(spec_core_entry("abbrev", FuncCategory::Scalar, FuncDomain::Network, 1, Some(1), false));
    lemma_push_keeps_products(t, spec_core_entry("abs", FuncCategory::Scalar, FuncDomain::Math, 1, Some(1), false));
    let t = t.push(spec_core_entry("abs", FuncCategory::Scalar, FuncDomain::Math, 1, Some(1), false));
    lemma_push_keeps_products(t, spec_core_entry("acos", FuncCategory::Scalar, FuncDomain::Math, 1, Some(1), false));
    let t = t.push(spec_core_entry("acos", FuncCategory::Scalar, FuncDomain::Math, 1, Some(1), false));
    lemma_push_keeps_products(t, spec_oracle_entry("add_months", FuncCategory::Scalar, FuncDomain::OracleCompat, 2, Some(2), false));
    let t = t.push(spec_oracle_entry("add_months", FuncCategory::Scalar, FuncDomain::OracleCompat, 2, Some(2), false));
    lemma_push_keeps_products(t, spec_commercial_entry("adddate", FuncCategory::Scalar, FuncDomain::DateTime, 2, Some(2), false));
    let t = t.push(spec_commercial_entry("adddate", FuncCategory::Scalar, FuncDomain::DateTime, 2, Some(2), false));
    lemma_push_keeps_products(t, spec_commercial_entry("addtime", FuncCategory::Scalar, FuncDomain::DateTime, 2, Some(2), false));
    let t = t.push(spec_commercial_entry("addtime", FuncCategory::Scalar, FuncDomain::DateTime, 2, Some(2), false));
    lemma_push_keeps_products(t, spec_core_entry("aes_decrypt", FuncCategory::Scalar, FuncDomain::Crypto, 2, Some(2), false));
    let t = t.push(spec_core_entry("aes_decrypt", FuncCategory::Scalar, FuncDomain::Crypto, 2, Some(2), false));
    lemma_push_keeps_products(t, spec_core_entry("aes_encrypt", FuncCategory::Scalar, FuncDomain::Crypto, 2, Some(2), false));
    let t = t.push(spec_core_entry("aes_encrypt", FuncCategory::Scalar, FuncDomain::Crypto, 2, Some(2), false));
    lemma_push_keeps_products(t, spec_core_entry("age", FuncCategory::Scalar, FuncDomain::DateTime, 1, Some(2), false));
    let t = t.push(spec_core_entry("age", FuncCategory::Scalar, FuncDomain::DateTime, 1, Some(2), false));
    lemma_push_keeps_products(t, spec_core_entry("area", FuncCategory::Scalar, FuncDomain::Geometric, 1, Some(1), false));
    let t = t.push(spec_core_entry("area", FuncCategory::Scalar, FuncDomain::Geometric, 1, Some(1), false));
    lemma_push_keeps_products(t, spec_core_entry("array_agg", FuncCategory::Aggregate, FuncDomain::Aggregate, 1, Some(1), true));
    let t = t.push(spec_core_entry("array_agg", FuncCategory::Aggregate, FuncDomain::Aggregate, 1, Some(1), true));
    lemma_push_keeps_products(t, spec_core_entry("array_append", FuncCategory::Scalar, FuncDomain::Array, 2, Some(2), false));
    let t = t.push(spec_core_entry("array_append", FuncCategory::Scalar, FuncDomain::Array, 2, Some(2), false));
    lemma_push_keeps_products(t, spec_core_entry("array_cat", FuncCategory::Scalar, FuncDomain::Array, 2, Some(2), false));
    let t = t.push(spec_core_entry("array_cat", FuncCategory::Scalar, FuncDomain::Array, 2, Some(2), false));
    lemma_push_keeps_products(t, spec_core_entry("array_delete", FuncCategory::Scalar, FuncDomain::Array, 1, Some(1), false));
    let t = t.push(spec_core_entry("array_delete", FuncCategory::Scalar, FuncDomain::Array, 1, Some(1), false));
    lemma_push_keeps_products(t, spec_core_entry("array_deleteidx", FuncCategory::Scalar, FuncDomain::Array, 2, Some(2), false));
    let t = t.push(spec_core_entry("array_deleteidx", FuncCategory::Scalar, FuncDomain::Array, 2, Some(2), false));
    lemma_push_keeps_products(t, spec_core_entry("array_dims", FuncCategory::Scalar, FuncDomain::Array, 1, Some(1), false));
    let t = t.push(spec_core_entry("array_dims", FuncCategory::Scalar, FuncDomain::Array, 1, Some(1), false));
    lemma_push_keeps_products(t, spec_core_entry("array_except", FuncCategory::Scalar, FuncDomain::Array, 2, Some(2), false));
    let t = t.push(spec_core_entry("array_except", FuncCategory::Scalar, FuncDomain::Array, 2, Some(2), false));
    lemma_push_keeps_products(t, spec_core_entry("array_except_distinct", FuncCategory::Scalar, FuncDomain::Array, 2, Some(2), false));
    let t = t.push(spec_core_entry("array_except_distinct", FuncCategory::Scalar, FuncDomain::Array, 2, Some(2), false));
    lemma_push_keeps_products(t, spec_core_entry("array_exists", FuncCategory::Scalar, FuncDomain::Array, 2, Some(2), false));
    let t = t.push(spec_core_entry("array_exists", FuncCategory::Scalar, FuncDomain::Array, 2, Some(2), false));
    lemma_push_keeps_products(t, spec_core_entry("array_extendnull", FuncCategory::Scalar, FuncDomain::Array, 2, Some(2), false));
    let t = t.push(spec_core_entry("array_extendnull", FuncCategory::Scalar, FuncDomain::Array, 2, Some(2), false));
    lemma_push_keeps_products(t, spec_core_entry("array_intersect", FuncCategory::Scalar, FuncDomain::Array, 2, Some(2), false));
    let t = t.push(spec_core_entry("array_intersect", FuncCategory::Scalar, FuncDomain::Array, 2, Some(2), false));
    lemma_push_keeps_products(t, spec_core_entry("array_intersect_distinct", FuncCategory::Scalar, FuncDomain::Array, 2, Some(2), false));
    let t = t.push(spec_core_entry("array_intersect_distinct", FuncCategory::Scalar, FuncDomain::Array, 2, Some(2), false));
    lemma_push_keeps_products(t, spec_core_entry("array_length", FuncCategory::Scalar, FuncDomain::Array, 2, Some(2), false));
    let t = t.push(spec_core_entry("array_length", FuncCategory::Scalar, FuncDomain::Array, 2, Some(2), false));
    lemma_push_keeps_products(t, spec_core_entry("array_lower", FuncCategory::Scalar, FuncDomain::Array, 2, Some(2), false));
    let t = t.push(spec_core_entry("array_lower", FuncCategory::Scalar, FuncDomain::Array, 2, Some(2), false));
    lemma_push_keeps_products(t, spec_core_entry("array_ndims", FuncCategory::Scalar, FuncDomain::Array, 1, Some(1), false));
    let t = t.push(spec_core_entry("array_ndims", FuncCategory::Scalar, FuncDomain::Array, 1, Some(1), false));
    lemma_push_keeps_products(t, spec_core_entry("array_next", FuncCategory::Scalar, FuncDomain::Array, 2, Some(2), false));
    let t = t.push(spec_core_entry("array_next", FuncCategory::Scalar, FuncDomain::Array, 2, Some(2), false));
    lemma_push_keeps_products(t, spec_commercial_entry("array_positions", FuncCategory::Scalar, FuncDomain::Array, 2, Some(2), false));
    let t = t.push(spec_commercial_entry("array_positions", FuncCategory::Scalar, FuncDomain::Array, 2, Some(2), false));
    lemma_push_keeps_products(t, spec_core_entry("array_prepend", FuncCategory::Scalar, FuncDomain::Array, 2, Some(2), false));
    let t = t.push(spec_core_entry("array_prepend", FuncCategory::Scalar, FuncDomain::Array, 2, Some(2), false));
    lemma_push_keeps_products(t, spec_core_entry("array_prior", FuncCategory::Scalar, FuncDomain::Array, 2, Some(2), false));
    let t = t.push(spec_core_entry("array_prior", FuncCategory::Scalar, FuncDomain::Array, 2, Some(2), false));
    lemma_push_keeps_products(t, spec_commercial_entry("array_sort", FuncCategory::Scalar, FuncDomain::Array, 1, Some(1), false));
    let t = t.push(spec_commercial_entry("array_sort", FuncCategory::Scalar, FuncDomain::Array, 1, Some(1), false));
    lemma_push_keeps_products(t, spec_core_entry("array_to_json", FuncCategory::Scalar, FuncDomain::Json, 1, Some(2), false));
    let t = t.push(spec_core_entry("array_to_json", FuncCategory::Scalar, FuncDomain::Json, 1, Some(2), false));
    lemma_push_keeps_products(t, spec_core_entry("array_to_string", FuncCategory::Scalar, FuncDomain::Array, 2, Some(3), false));
    let t = t.push(spec_core_entry("array_to_string", FuncCategory::Scalar, FuncDomain::Array, 2, Some(3), false));
    lemma_push_keeps_products(t, spec_core_entry("array_trim", FuncCategory::Scalar, FuncDomain::Array, 2, Some(2), false));
    let t = t.push(spec_core_entry("array_trim", FuncCategory::Scalar, FuncDomain::Array, 2, Some(2), false));
    lemma_push_keeps_products(t, spec_core_entry("array_union", FuncCategory::Scalar, FuncDomain::Array, 2, Some(2), false));
    let t = t.push(spec_core_entry("array_union", FuncCategory::Scalar, FuncDomain::Array, 2, Some(2), false));
    lemma_push_keeps_products(t, spec_core_entry("array_union_distinct", FuncCategory::Scalar, FuncDomain::Array, 2, Some(2), false));
    let t = t.push(spec_core_entry("array_union_distinct", FuncCategory::Scalar, FuncDomain::Array, 2, Some(2), false));
    lemma_push_keeps_products(t, spec_core_entry("array_upper", FuncCategory::Scalar, FuncDomain::Array, 2, Some(2), false));
    let t = t.push(spec_core_entry("array_upper", FuncCategory::Scalar, FuncDomain::Array, 2, Some(2), false));
    lemma_push_keeps_products(t, spec_core_entry("ascii", FuncCategory::Scalar, FuncDomain::String, 1, Some(1), false));
    let t = t.push(spec_core_entry("ascii", FuncCategory::Scalar, FuncDomain::String, 1, Some(1), false));
    lemma_push_keeps_products(t, spec_oracle_entry("ascii2", FuncCategory::Scalar, FuncDomain::String, 1, Some(1), false));
    let t = t.push(spec_oracle_entry("ascii2", FuncCategory::Scalar, FuncDomain::String, 1, Some(1), false));
    lemma_push_keeps_products(t, spec_oracle_entry("asciistr", FuncCategory::Scalar, FuncDomain::String, 1, Some(1), false));
    let t = t.push(spec_oracle_entry("asciistr", FuncCategory::Scalar, FuncDomain::String, 1, Some(1), false));
    lemma_push_keeps_products(t, spec_core_entry("asin", FuncCategory::Scalar, FuncDomain::Math, 1, Some(1), false));
    let t = t.push(spec_core_entry("asin", FuncCategory::Scalar, FuncDomain::Math, 1, Some(1), false));
    lemma_push_keeps_products(t, spec_core_entry("atan", FuncCategory::Scalar, FuncDomain::Math, 1, Some(1), false));
    let t = t.push(spec_core_entry("atan", FuncCategory::Scalar, FuncDomain::Math, 1, Some(1), false));
    lemma_push_keeps_products(t, spec_core_entry("atan2", FuncCategory::Scalar, FuncDomain::Math, 2, Some(2), false));
    let t = t.push(spec_core_entry("atan2", FuncCategory::Scalar, FuncDomain::Math, 2, Some(2), false));
    lemma_push_keeps_products(t, spec_core_entry("avg", FuncCategory::Aggregate, FuncDomain::Aggregate, 1, Some(1), true));
    let t = t.push(spec_core_entry("avg", FuncCategory::Aggregate, FuncDomain::Aggregate, 1, Some(1), true));
    lemma_push_keeps_products(t, spec_core_entry("bit_and", FuncCategory::Aggregate, FuncDomain::Aggregate, 1, Some(1), true));
    let t = t.push(spec_core_entry("bit_and", FuncCategory::Aggregate, FuncDomain::Aggregate, 1, Some(1), true));
    lemma_push_keeps_products(t, spec_core_entry("bit_length", FuncCategory::Scalar, FuncDomain::String, 1, Some(1), false));
    let t = t.push(spec_core_entry("bit_length", FuncCategory::Scalar, FuncDomain::String, 1, Some(1), false));
    lemma_push_keeps_products(t, spec_core_entry("bit_or", FuncCategory::Aggregate, FuncDomain::Aggregate, 1, Some(1), true));
    let t = t.push(spec_core_entry("bit_or", FuncCategory::Aggregate, FuncDomain::Aggregate, 1, Some(1), true));
    lemma_push_keeps_products(t, spec_core_entry("broadcast", FuncCategory::Scalar, FuncDomain::Network, 1, Some(1), false));
    let t = t.push(spec_core_entry("broadcast", FuncCategory::Scalar, FuncDomain::Network, 1, Some(1), false));
    lemma_push_keeps_products(t, spec_core_entry("btrim", FuncCategory::Scalar, FuncDomain::String, 1, Some(2), false));
    let t = t.push(spec_core_entry("btrim", FuncCategory::Scalar, FuncDomain::String, 1, Some(2), false));
    lemma_push_keeps_products(t, spec_commercial_entry("cardinality", FuncCategory::Scalar, FuncDomain::Array, 1, Some(1), false));
    let t = t.push(spec_commercial_entry("cardinality", FuncCategory::Scalar, FuncDomain::Array, 1, Some(1), false));
    lemma_push_keeps_products(t, spec_core_entry("cbrt", FuncCategory::Scalar, FuncDomain::Math, 1, Some(1), false));
    let t = t.push(spec_core_entry("cbrt", FuncCategory::Scalar, FuncDomain::Math, 1, Some(1), false));
    lemma_push_keeps_products(t, spec_core_entry("ceil", FuncCategory::Scalar, FuncDomain::Math, 1, Some(1), false));
    let t = t.push(spec_core_entry("ceil", FuncCategory::Scalar, FuncDomain::Math, 1, Some(1), false));
    lemma_push_keeps_products(t, spec_core_entry("ceiling", FuncCategory::Scalar, FuncDomain::Math, 1, Some(1), false));
    let t = t.push(spec_core_entry("ceiling", FuncCategory::Scalar, FuncDomain::Math, 1, Some(1), false));
    lemma_push_keeps_products(t, spec_core_entry("center", FuncCategory::Scalar, FuncDomain::Geometric, 1, Some(1), false));
    let t = t.push(spec_core_entry("center", FuncCategory::Scalar, FuncDomain::Geometric, 1, Some(1), false));
    lemma_push_keeps_products(t, spec_core_entry("char_length", FuncCategory::Scalar, FuncDomain::String, 1, Some(1), false));
    let t = t.push(spec_core_entry("char_length", FuncCategory::Scalar, FuncDomain::String, 1, Some(1), false));
    lemma_push_keeps_products(t, spec_core_entry("character_length", FuncCategory::Scalar, FuncDomain::String, 1, Some(1), false));
    let t = t.push(spec_core_entry("character_length", FuncCategory::Scalar, FuncDomain::String, 1, Some(1), false));
    lemma_push_keeps_products(t, spec_core_entry("chr", FuncCategory::Scalar, FuncDomain::String, 1, Some(1), false));
    let t = t.push(spec_core_entry("chr", FuncCategory::Scalar, FuncDomain::String, 1, Some(1), false));
    lemma_push_keeps_products(t, spec_core_entry("circle", FuncCategory::Scalar, FuncDomain::Geometric, 1, Some(1), false));
    let t = t.push(spec_core_entry("circle", FuncCategory::Scalar, FuncDomain::Geometric, 1, Some(1), false));
    lemma_push_keeps_products(t, spec_core_entry("clock_timestamp", FuncCategory::Scalar, FuncDomain::DateTime, 0, Some(0), false));
    let t = t.push(spec_core_entry("clock_timestamp", FuncCategory::Scalar, FuncDomain::DateTime, 0, Some(0), false));
    lemma_push_keeps_products(t, spec_core_entry("coalesce", FuncCategory::Special, FuncDomain::Other, 2, None, false));
    let t = t.push(spec_core_entry("coalesce", FuncCategory::Special, FuncDomain::Other, 2, None, false));
    lemma_push_keeps_products(t, spec_core_entry("col_description", FuncCategory::Scalar, FuncDomain::System, 2, Some(3), false));
    let t = t.push(spec_core_entry("col_description", FuncCategory::Scalar, FuncDomain::System, 2, Some(3), false));
    lemma_push_keeps_products(t, spec_core_entry("concat", FuncCategory::Scalar, FuncDomain::String, 2, None, false));
    let t = t.push(spec_core_entry("concat", FuncCategory::Scalar, FuncDomain::String, 2, None, false));
    lemma_push_keeps_products(t, spec_core_entry("concat_ws", FuncCategory::Scalar, FuncDomain::String, 2, None, false));
    let t = t.push(spec_core_entry("concat_ws", FuncCategory::Scalar, FuncDomain::String, 2, None, false));
    lemma_push_keeps_products(t, spec_core_entry("convert", FuncCategory::Scalar, FuncDomain::TypeConversion, 2, Some(3), false));
    let t = t.push(spec_core_entry("convert", FuncCategory::Scalar, FuncDomain::TypeConversion, 2, Some(3), false));
    lemma_push_keeps_products(t, spec_core_entry("convert_from", FuncCategory::Scalar, FuncDomain::TypeConversion, 2, Some(2), false));
    let t = t.push(spec_core_entry("convert_from", FuncCategory::Scalar, FuncDomain::TypeConversion, 2, Some(2), false));
    lemma_push_keeps_products(t, spec_core_entry("convert_to", FuncCategory::Scalar, FuncDomain::TypeConversion, 2, Some(2), false));
    let t = t.push(spec_core_entry("convert_to", FuncCategory::Scalar, FuncDomain::TypeConversion, 2, Some(2), false));
    lemma_push_keeps_products(t, spec_commercial_entry("convert_tz", FuncCategory::Scalar, FuncDomain::DateTime, 3, Some(3), false));
    let t = t.push(spec_commercial_entry("convert_tz", FuncCategory::Scalar, FuncDomain::DateTime, 3, Some(3), false));
    lemma_push_keeps_products(t, spec_core_entry("corr", FuncCategory::Aggregate, FuncDomain::Aggregate, 2, Some(2), true));
    let t = t.push(spec_core_entry("corr", FuncCategory::Aggregate, FuncDomain::Aggregate, 2, Some(2), true));
    lemma_push_keeps_products(t, spec_core_entry("cos", FuncCategory::Scalar, FuncDomain::Math, 1, Some(1), false));
    let t = t.push(spec_core_entry("cos", FuncCategory::Scalar, FuncDomain::Math, 1, Some(1), false));
    lemma_push_keeps_products(t, spec_core_entry("cot", FuncCategory::Scalar, FuncDomain::Math, 1, Some(1), false));
    let t = t.push(spec_core_entry("cot", FuncCategory::Scalar, FuncDomain::Math, 1, Some(1), false));
    lemma_push_keeps_products(t, spec_core_entry("count", FuncCategory::Aggregate, FuncDomain::Aggregate, 1, Some(1), true));
    let t = t.push(spec_core_entry("count", FuncCategory::Aggregate, FuncDomain::Aggregate, 1, Some(1), true));
    lemma_push_keeps_products(t, spec_core_entry("covar_pop", FuncCategory::Aggregate, FuncDomain::Aggregate, 2, Some(2), true));
    let t = t.push(spec_core_entry("covar_pop", FuncCategory::Aggregate, FuncDomain::Aggregate, 2, Some(2), true));
    lemma_push_keeps_products(t, spec_core_entry("covar_samp", FuncCategory::Aggregate, FuncDomain::Aggregate, 2, Some(2), true));
    let t = t.push(spec_core_entry("covar_samp", FuncCategory::Aggregate, FuncDomain::Aggregate, 2, Some(2), true));
    lemma_push_keeps_products(t, spec_core_entry("crc32", FuncCategory::Scalar, FuncDomain::Hash, 1, Some(2), false));
    let t = t.push(spec_core_entry("crc32", FuncCategory::Scalar, FuncDomain::Hash, 1, Some(2), false));
    lemma_push_keeps_products(t, spec_oracle_entry("createxml", FuncCategory::Scalar, FuncDomain::Xml, 1, Some(4), false));
    let t = t.push(spec_oracle_entry("createxml", FuncCategory::Scalar, FuncDomain::Xml, 1, Some(4), false));
    lemma_push_keeps_products(t, spec_core_entry("cume_dist", FuncCategory::Window, FuncDomain::Window, 0, Some(0), false));
    let t = t.push(spec_core_entry("cume_dist", FuncCategory::Window, FuncDomain::Window, 0, Some(0), false));
    lemma_push_keeps_products(t, spec_commercial_entry("curdate", FuncCategory::Scalar, FuncDomain::DateTime, 0, Some(0), false));
    let t = t.push(spec_commercial_entry("curdate", FuncCategory::Scalar, FuncDomain::DateTime, 0, Some(0), false));
    lemma_push_keeps_products(t, spec_core_entry("current_database", FuncCategory::Scalar, FuncDomain::System, 0, Some(0), false));
    let t = t.push(spec_core_entry("current_database", FuncCategory::Scalar, FuncDomain::System, 0, Some(0), false));
    lemma_push_keeps_products(t, spec_core_entry("current_date", FuncCategory::Scalar, FuncDomain::DateTime, 0, Some(0), false));
    let t = t.push(spec_core_entry("current_date", FuncCategory::Scalar, FuncDomain::DateTime, 0, Some(0), false));
    lemma_push_keeps_products(t, spec_core_entry("current_schema", FuncCategory::Scalar, FuncDomain::System, 0, Some(1), false));
    let t = t.push(spec_core_entry("current_schema", FuncCategory::Scalar, FuncDomain::System, 0, Some(1), false));
    lemma_push_keeps_products(t, spec_core_entry("current_setting", FuncCategory::Scalar, FuncDomain::System, 1, Some(2), false));
    let t = t.push(spec_core_entry("current_setting", FuncCategory::Scalar, FuncDomain::System, 1, Some(2), false));
    lemma_push_keeps_products(t, spec_core_entry("current_time", FuncCategory::Scalar, FuncDomain::DateTime, 0, Some(1), false));
    let t = t.push(spec_core_entry("current_time", FuncCategory::Scalar, FuncDomain::DateTime, 0, Some(1), false));
    lemma_push_keeps_products(t, spec_core_entry("current_timestamp", FuncCategory::Scalar, FuncDomain::DateTime, 0, Some(1), false));
    let t = t.push(spec_core_entry("current_timestamp", FuncCategory::Scalar, FuncDomain::DateTime, 0, Some(1), false));
    lemma_push_keeps_products(t, spec_core_entry("current_user", FuncCategory::Scalar, FuncDomain::System, 0, Some(0), false));
    let t = t.push(spec_core_entry("current_user", FuncCategory::Scalar, FuncDomain::System, 0, Some(0), false));
    lemma_push_keeps_products(t, spec_core_entry("currval", FuncCategory::Scalar, FuncDomain::System, 1, Some(2), false));
    let t = t.push(spec_core_entry("currval", FuncCategory::Scalar, FuncDomain::System, 1, Some(2), false));
    lemma_push_keeps_products(t, spec_core_entry("cursor_to_xml", FuncCategory::Scalar, FuncDomain::Xml, 5, Some(5), false));
    let t = t.push(spec_core_entry("cursor_to_xml", FuncCategory::Scalar, FuncDomain::Xml, 5, Some(5), false));
    lemma_push_keeps_products(t, spec_core_entry("cursor_to_xmlschema", FuncCategory::Scalar, FuncDomain::Xml, 5, Some(5), false));
    let t = t.push(spec_core_entry("cursor_to_xmlschema", FuncCategory::Scalar, FuncDomain::Xml, 5, Some(5), false));
    lemma_push_keeps_products(t, spec_commercial_entry("curtime", FuncCategory::Scalar, FuncDomain::DateTime, 0, Some(1), false));
    let t = t.push(spec_commercial_entry("curtime", FuncCategory::Scalar, FuncDomain::DateTime, 0, Some(1), false));
    lemma_push_keeps_products(t, spec_core_entry("database_to_xml", FuncCategory::Scalar, FuncDomain::Xml, 4, Some(4), false));
    let t = t.push(spec_core_entry("database_to_xml", FuncCategory::Scalar, FuncDomain::Xml, 4, Some(4), false));
    lemma_push_keeps_products(t, spec_core_entry("database_to_xml_and_xmlschema", FuncCategory::Scalar, FuncDomain::Xml, 4, Some(4), false));
    let t = t.push(spec_core_entry("database_to_xml_and_xmlschema", FuncCategory::Scalar, FuncDomain::Xml, 4, Some(4), false));
    lemma_push_keeps_products(t, spec_core_entry("database_to_xmlschema", FuncCategory::Scalar, FuncDomain::Xml, 4, Some(4), false));
    let t = t.push(spec_core_entry("database_to_xmlschema", FuncCategory::Scalar, FuncDomain::Xml, 4, Some(4), false));
    lemma_push_keeps_products(t, spec_commercial_entry("date_add", FuncCategory::Scalar, FuncDomain::DateTime, 2, Some(2), false));
    let t = t.push(spec_commercial_entry("date_add", FuncCategory::Scalar, FuncDomain::DateTime, 2, Some(2), false));
    lemma_push_keeps_products(t, spec_commercial_entry("date_format", FuncCategory::Scalar, FuncDomain::DateTime, 2, Some(2), false));
    let t = t.push(spec_commercial_entry("date_format", FuncCategory::Scalar, FuncDomain::DateTime, 2, Some(2), false));
    lemma_push_keeps_products(t, spec_core_entry("date_part", FuncCategory::Scalar, FuncDomain::DateTime, 2, Some(2), false));
    let t = t.push(spec_core_entry("date_part", FuncCategory::Scalar, FuncDomain::DateTime, 2, Some(2), false));
    lemma_push_keeps_products(t, spec_commercial_entry("date_sub", FuncCategory::Scalar, FuncDomain::DateTime, 2, Some(2), false));
    let t = t.push(spec_commercial_entry("date_sub", FuncCategory::Scalar, FuncDomain::DateTime, 2, Some(2), false));
    lemma_push_keeps_products(t, spec_core_entry("date_trunc", FuncCategory::Scalar, FuncDomain::DateTime, 2, Some(2), false));
    let t = t.push(spec_core_entry("date_trunc", FuncCategory::Scalar, FuncDomain::DateTime, 2, Some(2), false));
    lemma_push_keeps_products(t, spec_commercial_entry("datediff", FuncCategory::Scalar, FuncDomain::DateTime, 2, Some(2), false));
    let t = t.push(spec_commercial_entry("datediff", FuncCategory::Scalar, FuncDomain::DateTime, 2, Some(2), false));
    lemma_push_keeps_products(t, spec_commercial_entry("dayname", FuncCategory::Scalar, FuncDomain::DateTime, 1, Some(1), false));
    let t = t.push(spec_commercial_entry("dayname", FuncCategory::Scalar, FuncDomain::DateTime, 1, Some(1), false));
    lemma_push_keeps_products(t, spec_commercial_entry("dayofmonth", FuncCategory::Scalar, FuncDomain::DateTime, 1, Some(1), false));
    let t = t.push(spec_commercial_entry("dayofmonth", FuncCategory::Scalar, FuncDomain::DateTime, 1, Some(1), false));
    lemma_push_keeps_products(t, spec_commercial_entry("dayofweek", FuncCategory::Scalar, FuncDomain::DateTime, 1, Some(1), false));
    let t = t.push(spec_commercial_entry("dayofweek", FuncCategory::Scalar, FuncDomain::DateTime, 1, Some(1), false));
    lemma_push_keeps_products(t, spec_commercial_entry("dayofyear", FuncCategory::Scalar, FuncDomain::DateTime, 1, Some(1), false));
    let t = t.push(spec_commercial_entry("dayofyear", FuncCategory::Scalar, FuncDomain::DateTime, 1, Some(1), false));
    lemma_push_keeps_products(t, spec_oracle_entry("dbe_application_info.read_client_info", FuncCategory::Scalar, FuncDomain::DbeApplicationInfo, 0, Some(1), false));
    let t = t.push(spec_oracle_entry("dbe_application_info.read_client_info", FuncCategory::Scalar, FuncDomain::DbeApplicationInfo, 0, Some(1), false));
    lemma_push_keeps_products(t, spec_oracle_entry("dbe_application_info.read_module", FuncCategory::Scalar, FuncDomain::DbeApplicationInfo, 0, Some(2), false));
    let t = t.push(spec_oracle_entry("dbe_application_info.read_module", FuncCategory::Scalar, FuncDomain::DbeApplicationInfo, 0, Some(2), false));
    lemma_push_keeps_products(t, spec_oracle_entry("dbe_application_info.set_action", FuncCategory::Scalar, FuncDomain::DbeApplicationInfo, 1, Some(1), false));
    let t = t.push(spec_oracle_entry("dbe_application_info.set_action", FuncCategory::Scalar, FuncDomain::DbeApplicationInfo, 1, Some(1), false));
    lemma_push_keeps_products(t, spec_oracle_entry("dbe_application_info.set_client_info", FuncCategory::Scalar, FuncDomain::DbeApplicationInfo, 1, Some(1), false));
    let t = t.push(spec_oracle_entry("dbe_application_info.set_client_info", FuncCategory::Scalar, FuncDomain::DbeApplicationInfo, 1, Some(1), false));
    lemma_push_keeps_products(t, spec_oracle_entry("dbe_application_info.set_module", FuncCategory::Scalar, FuncDomain::DbeApplicationInfo, 2, Some(2), false));
    let t = t.push(spec_oracle_entry("dbe_application_info.set_module", FuncCategory::Scalar, FuncDomain::DbeApplicationInfo, 2, Some(2), false));
    lemma_push_keeps_products(t, spec_commercial_oracle_entry("dbe_compression.get_compression_ratio", FuncCategory::Scalar, FuncDomain::Other, 11, Some(13), false));
    let t = t.push(spec_commercial_oracle_entry("dbe_compression.get_compression_ratio", FuncCategory::Scalar, FuncDomain::Other, 11, Some(13), false));
    lemma_push_keeps_products(t, spec_commercial_oracle_entry("dbe_compression.get_compression_type", FuncCategory::Scalar, FuncDomain::Other, 4, Some(5), false));
    let t = t.push(spec_commercial_oracle_entry("dbe_compression.get_compression_type", FuncCategory::Scalar, FuncDomain::Other, 4, Some(5), false));
    lemma_push_keeps_products(t, spec_oracle_entry("dbe_file.close", FuncCategory::Scalar, FuncDomain::DbeFile, 1, Some(1), false));
    let t = t.push(spec_oracle_entry("dbe_file.close", FuncCategory::Scalar, FuncDomain::DbeFile, 1, Some(1), false));
    lemma_push_keeps_products(t, spec_oracle_entry("dbe_file.close_all", FuncCategory::Scalar, FuncDomain::DbeFile, 0, Some(0), false));
    let t = t.push(spec_oracle_entry("dbe_file.close_all", FuncCategory::Scalar, FuncDomain::DbeFile, 0, Some(0), false));
    lemma_push_keeps_products(t, spec_oracle_entry("dbe_file.copy", FuncCategory::Scalar, FuncDomain::DbeFile, 3, Some(3), false));
    let t = t.push(spec_oracle_entry("dbe_file.copy", FuncCategory::Scalar, FuncDomain::DbeFile, 3, Some(3), false));
    lemma_push_keeps_products(t, spec_oracle_entry("dbe_file.flush", FuncCategory::Scalar, FuncDomain::DbeFile, 1, Some(1), false));
    let t = t.push(spec_oracle_entry("dbe_file.flush", FuncCategory::Scalar, FuncDomain::DbeFile, 1, Some(1), false));
    lemma_push_keeps_products(t, spec_oracle_entry("dbe_file.fopen", FuncCategory::Scalar, FuncDomain::DbeFile, 3, Some(4), false));
    let t = t.push(spec_oracle_entry("dbe_file.fopen", FuncCategory::Scalar, FuncDomain::DbeFile, 3, Some(4), false));
    lemma_push_keeps_products(t, spec_oracle_entry("dbe_file.fopen_nchar", FuncCategory::Scalar, FuncDomain::DbeFile, 3, Some(4), false));
    let t = t.push(spec_oracle_entry("dbe_file.fopen_nchar", FuncCategory::Scalar, FuncDomain::DbeFile, 3, Some(4), false));
    lemma_push_keeps_products(t, spec_oracle_entry("dbe_file.format_write", FuncCategory::Scalar, FuncDomain::DbeFile, 2, Some(8), false));
    let t = t.push(spec_oracle_entry("dbe_file.format_write", FuncCategory::Scalar, FuncDomain::DbeFile, 2, Some(8), false));
    lemma_push_keeps_products(t, spec_oracle_entry("dbe_file.format_write_nchar", FuncCategory::Scalar, FuncDomain::DbeFile, 2, Some(7), false));
    let t = t.push(spec_oracle_entry("dbe_file.format_write_nchar", FuncCategory::Scalar, FuncDomain::DbeFile, 2, Some(7), false));
    lemma_push_keeps_products(t, spec_oracle_entry("dbe_file.get_attr", FuncCategory::Scalar, FuncDomain::DbeFile, 5, Some(5), false));
    let t = t.push(spec_oracle_entry("dbe_file.get_attr", FuncCategory::Scalar, FuncDomain::DbeFile, 5, Some(5), false));
    lemma_push_keeps_products(t, spec_oracle_entry("dbe_file.get_pos", FuncCategory::Scalar, FuncDomain::DbeFile, 1, Some(1), false));
    let t = t.push(spec_oracle_entry("dbe_file.get_pos", FuncCategory::Scalar, FuncDomain::DbeFile, 1, Some(1), false));
    lemma_push_keeps_products(t, spec_oracle_entry("dbe_file.get_raw", FuncCategory::Scalar, FuncDomain::DbeFile, 2, Some(3), false));
    let t = t.push(spec_oracle_entry("dbe_file.get_raw", FuncCategory::Scalar, FuncDomain::DbeFile, 2, Some(3), false));
    lemma_push_keeps_products(t, spec_oracle_entry("dbe_file.is_close", FuncCategory::Scalar, FuncDomain::DbeFile, 1, Some(1), false));
    let t = t.push(spec_oracle_entry("dbe_file.is_close", FuncCategory::Scalar, FuncDomain::DbeFile, 1, Some(1), false));
    lemma_push_keeps_products(t, spec_oracle_entry("dbe_file.is_open", FuncCategory::Scalar, FuncDomain::DbeFile, 1, Some(1), false));
    let t = t.push(spec_oracle_entry("dbe_file.is_open", FuncCategory::Scalar, FuncDomain::DbeFile, 1, Some(1), false));
    lemma_push_keeps_products(t, spec_oracle_entry("dbe_file.new_line", FuncCategory::Scalar, FuncDomain::DbeFile, 1, Some(2), false));
    let t = t.push(spec_oracle_entry("dbe_file.new_line", FuncCategory::Scalar, FuncDomain::DbeFile, 1, Some(2), false));
    lemma_push_keeps_products(t, spec_oracle_entry("dbe_file.open", FuncCategory::Scalar, FuncDomain::DbeFile, 2, Some(4), false));
    let t = t.push(spec_oracle_entry("dbe_file.open", FuncCategory::Scalar, FuncDomain::DbeFile, 2, Some(4), false));
    lemma_push_keeps_products(t, spec_oracle_entry("dbe_file.put_raw", FuncCategory::Scalar, FuncDomain::DbeFile, 2, Some(3), false));
    let t = t.push(spec_oracle_entry("dbe_file.put_raw", FuncCategory::Scalar, FuncDomain::DbeFile, 2, Some(3), false));
    lemma_push_keeps_products(t, spec_oracle_entry("dbe_file.read_line", FuncCategory::Scalar, FuncDomain::DbeFile, 2, Some(3), false));
    let t = t.push(spec_oracle_entry("dbe_file.read_line", FuncCategory::Scalar, FuncDomain::DbeFile, 2, Some(3), false));
    lemma_push_keeps_products(t, spec_oracle_entry("dbe_file.read_line_nchar", FuncCategory::Scalar, FuncDomain::DbeFile, 2, Some(3), false));
    let t = t.push(spec_oracle_entry("dbe_file.read_line_nchar", FuncCategory::Scalar, FuncDomain::DbeFile, 2, Some(3), false));
    assert(t == table_part_1(s));
}

proof fn lemma_part_2_products(s: Seq<FuncMeta>)
    requires
        names_products(s),
    ensures
        names_products(table_part_2(s)),
{
    let t = s;
    lemma_push_keeps_products(t, spec_oracle_entry("dbe_file.remove", FuncCategory::Scalar, FuncDomain::DbeFile, 2, Some(2), false));
    let t = t.push(spec_oracle_entry("dbe_file.remove", FuncCategory::Scalar, FuncDomain::DbeFile, 2, Some(2), false));
    lemma_push_keeps_products(t, spec_oracle_entry("dbe_file.rename", FuncCategory::Scalar, FuncDomain::DbeFile, 3, Some(3), false));
    let t = t.push(spec_oracle_entry("dbe_file.rename", FuncCategory::Scalar, FuncDomain::DbeFile, 3, Some(3), false));
    lemma_push_keeps_products(t, spec_oracle_entry("dbe_file.seek", FuncCategory::Scalar, FuncDomain::DbeFile, 1, Some(3), false));
    let t = t.push(spec_oracle_entry("dbe_file.seek", FuncCategory::Scalar, FuncDomain::DbeFile, 1, Some(3), false));
    lemma_push_keeps_products(t, spec_oracle_entry("dbe_file.write", FuncCategory::Scalar, FuncDomain::DbeFile, 2, Some(2), false));
    let t = t.push(spec_oracle_entry("dbe_file.write", FuncCategory::Scalar, FuncDomain::DbeFile, 2, Some(2), false));
    lemma_push_keeps_products(t, spec_oracle_entry("dbe_file.write_line", FuncCategory::Scalar, FuncDomain::DbeFile, 2, Some(2), false));
    let t = t.push(spec_oracle_entry("dbe_file.write_line", FuncCategory::Scalar, FuncDomain::DbeFile, 2, Some(2), false));
    lemma_push_keeps_products(t, spec_oracle_entry("dbe_file.write_line_nchar", FuncCategory::Scalar, FuncDomain::DbeFile, 2, Some(2), false));
    let t = t.push(spec_oracle_entry("dbe_file.write_line_nchar", FuncCategory::Scalar, FuncDomain::DbeFile, 2, Some(2), false));
    lemma_push_keeps_products(t, spec_oracle_entry("dbe_file.write_nchar", FuncCategory::Scalar, FuncDomain::DbeFile, 2, Some(2), false));
    let t = t.push(spec_oracle_entry("dbe_file.write_nchar", FuncCategory::Scalar, FuncDomain::DbeFile, 2, Some(2), false));
    lemma_push_keeps_products(t, spec_commercial_oracle_entry("dbe_heat_map.row_heat_map", FuncCategory::Scalar, FuncDomain::Other, 3, Some(5), false));
    let t = t.push(spec_commercial_oracle_entry("dbe_heat_map.row_heat_map", FuncCategory::Scalar, FuncDomain::Other, 3, Some(5), false));
    lemma_push_keeps_products(t, spec_commercial_oracle_entry("dbe_ilm.execute_ilm", FuncCategory::Scalar, FuncDomain::Other, 3, Some(6), false));
    let t = t.push(spec_commercial_oracle_entry("dbe_ilm.execute_ilm", FuncCategory::Scalar, FuncDomain::Other, 3, Some(6), false));
    lemma_push_keeps_products(t, spec_commercial_oracle_entry("dbe_ilm.stop_ilm", FuncCategory::Scalar, FuncDomain::Other, 0, Some(3), false));
    let t = t.push(spec_commercial_oracle_entry("dbe_ilm.stop_ilm", FuncCategory::Scalar, FuncDomain::Other, 0, Some(3), false));
    lemma_push_keeps_products(t, spec_commercial_oracle_entry("dbe_ilm_admin.customize_ilm", FuncCategory::Scalar, FuncDomain::Other, 2, Some(2), false));
    let t = t.push(spec_commercial_oracle_entry("dbe_ilm_admin.customize_ilm", FuncCategory::Scalar, FuncDomain::Other, 2, Some(2), false));
    lemma_push_keeps_products(t, spec_commercial_oracle_entry("dbe_ilm_admin.disable_ilm", FuncCategory::Scalar, FuncDomain::Other, 0, Some(0), false));
    let t = t.push(spec_commercial_oracle_entry("dbe_ilm_admin.disable_ilm", FuncCategory::Scalar, FuncDomain::Other, 0, Some(0), false));
    lemma_push_keeps_products(t, spec_commercial_oracle_entry("dbe_ilm_admin.enable_ilm", FuncCategory::Scalar, FuncDomain::Other, 0, Some(0), false));
    let t = t.push(spec_commercial_oracle_entry("dbe_ilm_admin.enable_ilm", FuncCategory::Scalar, FuncDomain::Other, 0, Some(0), false));
    lemma_push_keeps_products(t, spec_oracle_entry("dbe_lob.append", FuncCategory::Scalar, FuncDomain::DbeLob, 2, Some(2), false));
    let t = t.push(spec_oracle_entry("dbe_lob.append", FuncCategory::Scalar, FuncDomain::DbeLob, 2, Some(2), false));
    lemma_push_keeps_products(t, spec_oracle_entry("dbe_lob.bfileclose", FuncCategory::Scalar, FuncDomain::DbeLob, 1, Some(1), false));
    let t = t.push(spec_oracle_entry("dbe_lob.bfileclose", FuncCategory::Scalar, FuncDomain::DbeLob, 1, Some(1), false));
    lemma_push_keeps_products(t, spec_oracle_entry("dbe_lob.bfilename", FuncCategory::Scalar, FuncDomain::DbeLob, 2, Some(2), false));
    let t = t.push(spec_oracle_entry("dbe_lob.bfilename", FuncCategory::Scalar, FuncDomain::DbeLob, 2, Some(2), false));
    lemma_push_keeps_products(t, spec_oracle_entry("dbe_lob.bfileopen", FuncCategory::Scalar, FuncDomain::DbeLob, 1, Some(2), false));
    let t = t.push(spec_oracle_entry("dbe_lob.bfileopen", FuncCategory::Scalar, FuncDomain::DbeLob, 1, Some(2), false));
    lemma_push_keeps_products(t, spec_oracle_entry("dbe_lob.close", FuncCategory::Scalar, FuncDomain::DbeLob, 1, Some(1), false));
    let t = t.push(spec_oracle_entry("dbe_lob.close", FuncCategory::Scalar, FuncDomain::DbeLob, 1, Some(1), false));
    lemma_push_keeps_products(t, spec_oracle_entry("dbe_lob.compare", FuncCategory::Scalar, FuncDomain::DbeLob, 2, Some(3), false));
    let t = t.push(spec_oracle_entry("dbe_lob.compare", FuncCategory::Scalar, FuncDomain::DbeLob, 2, Some(3), false));
    lemma_push_keeps_products(t, spec_oracle_entry("dbe_lob.converttoblob", FuncCategory::Scalar, FuncDomain::DbeLob, 2, Some(5), false));
    let t = t.push(spec_oracle_entry("dbe_lob.converttoblob", FuncCategory::Scalar, FuncDomain::DbeLob, 2, Some(5), false));
    lemma_push_keeps_products(t, spec_oracle_entry("dbe_lob.converttoclob", FuncCategory::Scalar, FuncDomain::DbeLob, 2, Some(5), false));
    let t = t.push(spec_oracle_entry("dbe_lob.converttoclob", FuncCategory::Scalar, FuncDomain::DbeLob, 2, Some(5), false));
    lemma_push_keeps_products(t, spec_oracle_entry("dbe_lob.copy", FuncCategory::Scalar, FuncDomain::DbeLob, 3, Some(5), false));
    let t = t.push(spec_oracle_entry("dbe_lob.copy", FuncCategory::Scalar, FuncDomain::DbeLob, 3, Some(5), false));
    lemma_push_keeps_products(t, spec_oracle_entry("dbe_lob.create_temporary", FuncCategory::Scalar, FuncDomain::DbeLob, 1, Some(3), false));
    let t = t.push(spec_oracle_entry("dbe_lob.create_temporary", FuncCategory::Scalar, FuncDomain::DbeLob, 1, Some(3), false));
    lemma_push_keeps_products(t, spec_oracle_entry("dbe_lob.erase", FuncCategory::Scalar, FuncDomain::DbeLob, 2, Some(3), false));
    let t = t.push(spec_oracle_entry("dbe_lob.erase", FuncCategory::Scalar, FuncDomain::DbeLob, 2, Some(3), false));
    lemma_push_keeps_products(t, spec_oracle_entry("dbe_lob.fileclose", FuncCategory::Scalar, FuncDomain::DbeLob, 1, Some(1), false));
    let t = t.push(spec_oracle_entry("dbe_lob.fileclose", FuncCategory::Scalar, FuncDomain::DbeLob, 1, Some(1), false));
    lemma_push_keeps_products(t, spec_oracle_entry("dbe_lob.fileopen", FuncCategory::Scalar, FuncDomain::DbeLob, 2, Some(2), false));
    let t = t.push(spec_oracle_entry("dbe_lob.fileopen", FuncCategory::Scalar, FuncDomain::DbeLob, 2, Some(2), false));
    lemma_push_keeps_products(t, spec_oracle_entry("dbe_lob.freetemporary", FuncCategory::Scalar, FuncDomain::DbeLob, 1, Some(1), false));
    let t = t.push(spec_oracle_entry("dbe_lob.freetemporary", FuncCategory::Scalar, FuncDomain::DbeLob, 1, Some(1), false));
    lemma_push_keeps_products(t, spec_oracle_entry("dbe_lob.get_length", FuncCategory::Scalar, FuncDomain::DbeLob, 1, Some(1), false));
    let t = t.push(spec_oracle_entry("dbe_lob.get_length", FuncCategory::Scalar, FuncDomain::DbeLob, 1, Some(1), false));
    lemma_push_keeps_products(t, spec_oracle_entry("dbe_lob.getchunksize", FuncCategory::Scalar, FuncDomain::DbeLob, 1, Some(1), false));
    let t = t.push(spec_oracle_entry("dbe_lob.getchunksize", FuncCategory::Scalar, FuncDomain::DbeLob, 1, Some(1), false));
    lemma_push_keeps_products(t, spec_oracle_entry("dbe_lob.instr", FuncCategory::Scalar, FuncDomain::DbeLob, 2, Some(4), false));
    let t = t.push(spec_oracle_entry("dbe_lob.instr", FuncCategory::Scalar, FuncDomain::DbeLob, 2, Some(4), false));
    lemma_push_keeps_products(t, spec_oracle_entry("dbe_lob.loadblobfrombfile", FuncCategory::Scalar, FuncDomain::DbeLob, 5, Some(5), false));
    let t = t.push(spec_oracle_entry("dbe_lob.loadblobfrombfile", FuncCategory::Scalar, FuncDomain::DbeLob, 5, Some(5), false));
    lemma_push_keeps_products(t, spec_oracle_entry("dbe_lob.loadblobfromfile", FuncCategory::Scalar, FuncDomain::DbeLob, 5, Some(5), false));
    let t = t.push(spec_oracle_entry("dbe_lob.loadblobfromfile", FuncCategory::Scalar, FuncDomain::DbeLob, 5, Some(5), false));
    lemma_push_keeps_products(t, spec_oracle_entry("dbe_lob.loadclobfrombfile", FuncCategory::Scalar, FuncDomain::DbeLob, 5, Some(5), false));
    let t = t.push(spec_oracle_entry("dbe_lob.loadclobfrombfile", FuncCategory::Scalar, FuncDomain::DbeLob, 5, Some(5), false));
    lemma_push_keeps_products(t, spec_oracle_entry("dbe_lob.loadclobfromfile", FuncCategory::Scalar, FuncDomain::DbeLob, 5, Some(5), false));
    let t = t.push(spec_oracle_entry("dbe_lob.loadclobfromfile", FuncCategory::Scalar, FuncDomain::DbeLob, 5, Some(5), false));
    lemma_push_keeps_products(t, spec_oracle_entry("dbe_lob.loadfrombfile", FuncCategory::Scalar, FuncDomain::DbeLob, 3, Some(5), false));
    let t = t.push(spec_oracle_entry("dbe_lob.loadfrombfile", FuncCategory::Scalar, FuncDomain::DbeLob, 3, Some(5), false));
    lemma_push_keeps_products(t, spec_oracle_entry("dbe_lob.loadfromfile", FuncCategory::Scalar, FuncDomain::DbeLob, 5, Some(5), false));
    let t = t.push(spec_oracle_entry("dbe_lob.loadfromfile", FuncCategory::Scalar, FuncDomain::DbeLob, 5, Some(5), false));
    lemma_push_keeps_products(t, spec_oracle_entry("dbe_lob.lob_append", FuncCategory::Scalar, FuncDomain::DbeLob, 2, Some(2), false));
    let t = t.push(spec_oracle_entry("dbe_lob.lob_append", FuncCategory::Scalar, FuncDomain::DbeLob, 2, Some(2), false));
    lemma_push_keeps_products(t, spec_oracle_entry("dbe_lob.lob_converttoblob", FuncCategory::Scalar, FuncDomain::DbeLob, 5, Some(5), false));
    let t = t.push(spec_oracle_entry("dbe_lob.lob_converttoblob", FuncCategory::Scalar, FuncDomain::DbeLob, 5, Some(5), false));
    lemma_push_keeps_products(t, spec_oracle_entry("dbe_lob.lob_converttoclob", FuncCategory::Scalar, FuncDomain::DbeLob, 5, Some(5), false));
    let t = t.push(spec_oracle_entry("dbe_lob.lob_converttoclob", FuncCategory::Scalar, FuncDomain::DbeLob, 5, Some(5), false));
    lemma_push_keeps_products(t, spec_oracle_entry("dbe_lob.lob_copy", FuncCategory::Scalar, FuncDomain::DbeLob, 3, Some(5), false));
    let t = t.push(spec_oracle_entry("dbe_lob.lob_copy", FuncCategory::Scalar, FuncDomain::DbeLob, 3, Some(5), false));
    lemma_push_keeps_products(t, spec_oracle_entry("dbe_lob.lob_erase", FuncCategory::Scalar, FuncDomain::DbeLob, 2, Some(3), false));
    let t = t.push(spec_oracle_entry("dbe_lob.lob_erase", FuncCategory::Scalar, FuncDomain::DbeLob, 2, Some(3), false));
    lemma_push_keeps_products(t, spec_oracle_entry("dbe_lob.lob_get_length", FuncCategory::Scalar, FuncDomain::DbeLob, 1, Some(1), false));
    let t = t.push(spec_oracle_entry("dbe_lob.lob_get_length", FuncCategory::Scalar, FuncDomain::DbeLob, 1, Some(1), false));
    lemma_push_keeps_products(t, spec_oracle_entry("dbe_lob.lob_read", FuncCategory::Scalar, FuncDomain::DbeLob, 3, Some(3), false));
    let t = t.push(spec_oracle_entry("dbe_lob.lob_read", FuncCategory::Scalar, FuncDomain::DbeLob, 3, Some(3), false));
    lemma_push_keeps_products(t, spec_oracle_entry("dbe_lob.lob_strip", FuncCategory::Scalar, FuncDomain::DbeLob, 2, Some(2), false));
    let t = t.push(spec_oracle_entry("dbe_lob.lob_strip", FuncCategory::Scalar, FuncDomain::DbeLob, 2, Some(2), false));
    lemma_push_keeps_products(t, spec_oracle_entry("dbe_lob.lob_substr", FuncCategory::Scalar, FuncDomain::DbeLob, 1, Some(3), false));
    let t = t.push(spec_oracle_entry("dbe_lob.lob_substr", FuncCategory::Scalar, FuncDomain::DbeLob, 1, Some(3), false));
    lemma_push_keeps_products(t, spec_oracle_entry("dbe_lob.lob_write", FuncCategory::Scalar, FuncDomain::DbeLob, 4, Some(4), false));
    let t = t.push(spec_oracle_entry("dbe_lob.lob_write", FuncCategory::Scalar, FuncDomain::DbeLob, 4, Some(4), false));
    lemma_push_keeps_products(t, spec_oracle_entry("dbe_lob.lob_write_append", FuncCategory::Scalar, FuncDomain::DbeLob, 2, Some(2), false));
    let t = t.push(spec_oracle_entry("dbe_lob.lob_write_append", FuncCategory::Scalar, FuncDomain::DbeLob, 2, Some(2), false));
    lemma_push_keeps_products(t, spec_oracle_entry("dbe_lob.match", FuncCategory::Scalar, FuncDomain::DbeLob, 2, Some(4), false));
    let t = t.push(spec_oracle_entry("dbe_lob.match", FuncCategory::Scalar, FuncDomain::DbeLob, 2, Some(4), false));
    lemma_push_keeps_products(t, spec_oracle_entry("dbe_lob.open", FuncCategory::Scalar, FuncDomain::DbeLob, 1, Some(2), false));
    let t = t.push(spec_oracle_entry("dbe_lob.open", FuncCategory::Scalar, FuncDomain::DbeLob, 1, Some(2), false));
    lemma_push_keeps_products(t, spec_oracle_entry("dbe_lob.read", FuncCategory::Scalar, FuncDomain::DbeLob, 3, Some(3), false));
    let t = t.push(spec_oracle_entry("dbe_lob.read", FuncCategory::Scalar, FuncDomain::DbeLob, 3, Some(3), false));
    lemma_push_keeps_products(t, spec_oracle_entry("dbe_lob.strip", FuncCategory::Scalar, FuncDomain::DbeLob, 2, Some(2), false));
    let t = t.push(spec_oracle_entry("dbe_lob.strip", FuncCategory::Scalar, FuncDomain::DbeLob, 2, Some(2), false));
    lemma_push_keeps_products(t, spec_oracle_entry("dbe_lob.substr", FuncCategory::Scalar, FuncDomain::DbeLob, 1, Some(3), false));
    let t = t.push(spec_oracle_entry("dbe_lob.substr", FuncCategory::Scalar, FuncDomain::DbeLob, 1, Some(3), false));
    lemma_push_keeps_products(t, spec_oracle_entry("dbe_lob.trim", FuncCategory::Scalar, FuncDomain::DbeLob, 2, Some(2), false));
    let t = t.push(spec_oracle_entry("dbe_lob.trim", FuncCategory::Scalar, FuncDomain::DbeLob, 2, Some(2), false));
    lemma_push_keeps_products(t, spec_oracle_entry("dbe_lob.write", FuncCategory::Scalar, FuncDomain::DbeLob, 3, Some(3), false));
    let t = t.push(spec_oracle_entry("dbe_lob.write", FuncCategory::Scalar, FuncDomain::DbeLob, 3, Some(3), false));
    lemma_push_keeps_products(t, spec_oracle_entry("dbe_lob.write_append", FuncCategory::Scalar, FuncDomain::DbeLob, 2, Some(2), false));
    let t = t.push(spec_oracle_entry("dbe_lob.write_append", FuncCategory::Scalar, FuncDomain::DbeLob, 2, Some(2), false));
    lemma_push_keeps_products(t, spec_oracle_entry("dbe_match.edit_distance_similarity", FuncCategory::Scalar, FuncDomain::DbeMatch, 2, Some(2), false));
    let t = t.push(spec_oracle_entry("dbe_match.edit_distance_similarity", FuncCategory::Scalar, FuncDomain::DbeMatch, 2, Some(2), false));
    lemma_push_keeps_products(t, spec_oracle_entry("dbe_output.disable", FuncCategory::Scalar, FuncDomain::DbeOutput, 0, Some(0), false));
    let t = t.push(spec_oracle_entry("dbe_output.disable", FuncCategory::Scalar, FuncDomain::DbeOutput, 0, Some(0), false));
    lemma_push_keeps_products(t, spec_oracle_entry("dbe_output.enable", FuncCategory::Scalar, FuncDomain::DbeOutput, 0, Some(1), false));
    let t = t.push(spec_oracle_entry("dbe_output.enable", FuncCategory::Scalar, FuncDomain::DbeOutput, 0, Some(1), false));
    lemma_push_keeps_products(t, spec_oracle_entry("dbe_output.get_line", FuncCategory::Scalar, FuncDomain::DbeOutput, 2, Some(2), false));
    let t = t.push(spec_oracle_entry("dbe_output.get_line", FuncCategory::Scalar, FuncDomain::DbeOutput, 2, Some(2), false));
    lemma_push_keeps_products(t, spec_oracle_entry("dbe_output.get_lines", FuncCategory::Scalar, FuncDomain::DbeOutput, 2, Some(2), false));
    let t = t.push(spec_oracle_entry("dbe_output.get_lines", FuncCategory::Scalar, FuncDomain::DbeOutput, 2, Some(2), false));
    lemma_push_keeps_products(t, spec_oracle_entry("dbe_output.new_line", FuncCategory::Scalar, FuncDomain::DbeOutput, 0, Some(0), false));
    let t = t.push(spec_oracle_entry("dbe_output.new_line", FuncCategory::Scalar, FuncDomain::DbeOutput, 0, Some(0), false));
    lemma_push_keeps_products(t, spec_oracle_entry("dbe_output.print", FuncCategory::Scalar, FuncDomain::DbeOutput, 1, Some(1), false));
    let t = t.push(spec_oracle_entry("dbe_output.print", FuncCategory::Scalar, FuncDomain::DbeOutput, 1, Some(1), false));
    lemma_push_keeps_products(t, spec_oracle_entry("dbe_output.print_line", FuncCategory::Scalar, FuncDomain::DbeOutput, 1, Some(1), false));
    let t = t.push(spec_oracle_entry("dbe_output.print_line", FuncCategory::Scalar, FuncDomain::DbeOutput, 1, Some(1), false));
    lemma_push_keeps_products(t, spec_oracle_entry("dbe_output.put", FuncCategory::Scalar, FuncDomain::DbeOutput, 1, Some(1), false));
    let t = t.push(spec_oracle_entry("dbe_output.put", FuncCategory::Scalar, FuncDomain::DbeOutput, 1, Some(1), false));
    lemma_push_keeps_products(t, spec_oracle_entry("dbe_output.put_line", FuncCategory::Scalar, FuncDomain::DbeOutput, 1, Some(1), false));
    let t = t.push(spec_oracle_entry("dbe_output.put_line", FuncCategory::Scalar, FuncDomain::DbeOutput, 1, Some(1), false));
    lemma_push_keeps_products(t, spec_oracle_entry("dbe_output.set_buffer_size", FuncCategory::Scalar, FuncDomain::DbeOutput, 0, Some(1), false));
    let t = t.push(spec_oracle_entry("dbe_output.set_buffer_size", FuncCategory::Scalar, FuncDomain::DbeOutput, 0, Some(1), false));
    lemma_push_keeps_products(t, spec_commercial_entry("dbe_random.get_value", FuncCategory::Scalar, FuncDomain::DbeRandom, 0, Some(2), false));
    let t = t.push(spec_commercial_entry("dbe_random.get_value", FuncCategory::Scalar, FuncDomain::DbeRandom, 0, Some(2), false));
    lemma_push_keeps_products(t, spec_oracle_entry("dbe_raw.bit_and", FuncCategory::Scalar, FuncDomain::DbeRaw, 2, Some(2), false));
    let t = t.push(spec_oracle_entry("dbe_raw.bit_and", FuncCategory::Scalar, FuncDomain::DbeRaw, 2, Some(2), false));
    lemma_push_keeps_products(t, spec_oracle_entry("dbe_raw.bit_complement", FuncCategory::Scalar, FuncDomain::DbeRaw, 1, Some(1), false));
    let t = t.push(spec_oracle_entry("dbe_raw.bit_complement", FuncCategory::Scalar, FuncDomain::DbeRaw, 1, Some(1), false));
    lemma_push_keeps_products(t, spec_oracle_entry("dbe_raw.bit_or", FuncCategory::Scalar, FuncDomain::DbeRaw, 2, Some(2), false));
    let t = t.push(spec_oracle_entry("dbe_raw.bit_or", FuncCategory::Scalar, FuncDomain::DbeRaw, 2, Some(2), false));
    lemma_push_keeps_products(t, spec_oracle_entry("dbe_raw.bit_xor", FuncCategory::Scalar, FuncDomain::DbeRaw, 2, Some(2), false));
    let t = t.push(spec_oracle_entry("dbe_raw.bit_xor", FuncCategory::Scalar, FuncDomain::DbeRaw, 2, Some(2), false));
    lemma_push_keeps_products(t, spec_oracle_entry("dbe_raw.cast_from_binary_double_to_raw", FuncCategory::Scalar, FuncDomain::DbeRaw, 1, Some(2), false));
    let t = t.push(spec_oracle_entry("dbe_raw.cast_from_binary_double_to_raw", FuncCategory::Scalar, FuncDomain::DbeRaw, 1, Some(2), false));
    lemma_push_keeps_products(t, spec_oracle_entry("dbe_raw.cast_from_binary_float_to_raw", FuncCategory::Scalar, FuncDomain::DbeRaw, 1, Some(2), false));
    let t = t.push(spec_oracle_entry("dbe_raw.cast_from_binary_float_to_raw", FuncCategory::Scalar, FuncDomain::DbeRaw, 1, Some(2), false));
    lemma_push_keeps_products(t, spec_oracle_entry("dbe_raw.cast_from_binary_integer_to_raw", FuncCategory::Scalar, FuncDomain::DbeRaw, 1, Some(2), false));
    let t = t.push(spec_oracle_entry("dbe_raw.cast_from_binary_integer_to_raw", FuncCategory::Scalar, FuncDomain::DbeRaw, 1, Some(2), false));
    lemma_push_keeps_products(t, spec_oracle_entry("dbe_raw.cast_from_number_to_raw", FuncCategory::Scalar, FuncDomain::DbeRaw, 1, Some(1), false));
    let t = t.push(spec_oracle_entry("dbe_raw.cast_from_number_to_raw", FuncCategory::Scalar, FuncDomain::DbeRaw, 1, Some(1), false));
    lemma_push_keeps_products(t, spec_oracle_entry("dbe_raw.cast_from_raw_to_binary_double", FuncCategory::Scalar, FuncDomain::DbeRaw, 1, Some(2), false));
    let t = t.push(spec_oracle_entry("dbe_raw.cast_from_raw_to_binary_double", FuncCategory::Scalar, FuncDomain::DbeRaw, 1, Some(2), false));
    lemma_push_keeps_products(t, spec_oracle_entry("dbe_raw.cast_from_raw_to_binary_float", FuncCategory::Scalar, FuncDomain::DbeRaw, 1, Some(2), false));
    let t = t.push(spec_oracle_entry("dbe_raw.cast_from_raw_to_binary_float", FuncCategory::Scalar, FuncDomain::DbeRaw, 1, Some(2), false));
    lemma_push_keeps_products(t, spec_oracle_entry("dbe_raw.cast_from_raw_to_binary_integer", FuncCategory::Scalar, FuncDomain::DbeRaw, 1, Some(2), false));
    let t = t.push(spec_oracle_entry("dbe_raw.cast_from_raw_to_binary_integer", FuncCategory::Scalar, FuncDomain::DbeRaw, 1, Some(2), false));
    lemma_push_keeps_products(t, spec_oracle_entry("dbe_raw.cast_from_raw_to_number", FuncCategory::Scalar, FuncDomain::DbeRaw, 1, Some(1), false));
    let t = t.push(spec_oracle_entry("dbe_raw.cast_from_raw_to_number", FuncCategory::Scalar, FuncDomain::DbeRaw, 1, Some(1), false));
    lemma_push_keeps_products(t, spec_oracle_entry("dbe_raw.cast_from_raw_to_nvarchar2", FuncCategory::Scalar, FuncDomain::DbeRaw, 1, Some(1), false));
    let t = t.push(spec_oracle_entry("dbe_raw.cast_from_raw_to_nvarchar2", FuncCategory::Scalar, FuncDomain::DbeRaw, 1, Some(1), false));
    lemma_push_keeps_products(t, spec_oracle_entry("dbe_raw.cast_from_varchar2_to_raw", FuncCategory::Scalar, FuncDomain::DbeRaw, 1, Some(1), false));
    let t = t.push(spec_oracle_entry("dbe_raw.cast_from_varchar2_to_raw", FuncCategory::Scalar, FuncDomain::DbeRaw, 1, Some(1), false));
    lemma_push_keeps_products(t, spec_oracle_entry("dbe_raw.cast_to_varchar2", FuncCategory::Scalar, FuncDomain::DbeRaw, 1, Some(1), false));
    let t = t.push(spec_oracle_entry("dbe_raw.cast_to_varchar2", FuncCategory::Scalar, FuncDomain::DbeRaw, 1, Some(1), false));
    lemma_push_keeps_products(t, spec_oracle_entry("dbe_raw.compare", FuncCategory::Scalar, FuncDomain::DbeRaw, 2, Some(3), false));
    let t = t.push(spec_oracle_entry("dbe_raw.compare", FuncCategory::Scalar, FuncDomain::DbeRaw, 2, Some(3), false));
    lemma_push_keeps_products(t, spec_oracle_entry("dbe_raw.concat", FuncCategory::Scalar, FuncDomain::DbeRaw, 0, Some(12), false));
    let t = t.push(spec_oracle_entry("dbe_raw.concat", FuncCategory::Scalar, FuncDomain::DbeRaw, 0, Some(12), false));
    lemma_push_keeps_products(t, spec_oracle_entry("dbe_raw.convert", FuncCategory::Scalar, FuncDomain::DbeRaw, 3, Some(3), false));
    let t = t.push(spec_oracle_entry("dbe_raw.convert", FuncCategory::Scalar, FuncDomain::DbeRaw, 3, Some(3), false));
    lemma_push_keeps_products(t, spec_oracle_entry("dbe_raw.copies", FuncCategory::Scalar, FuncDomain::DbeRaw, 2, Some(2), false));
    let t = t.push(spec_oracle_entry("dbe_raw.copies", FuncCategory::Scalar, FuncDomain::DbeRaw, 2, Some(2), false));
    lemma_push_keeps_products(t, spec_oracle_entry("dbe_raw.get_length", FuncCategory::Scalar, FuncDomain::DbeRaw, 1, Some(1), false));
    let t = t.push(spec_oracle_entry("dbe_raw.get_length", FuncCategory::Scalar, FuncDomain::DbeRaw, 1, Some(1), false));
    lemma_push_keeps_products(t, spec_oracle_entry("dbe_raw.overlay", FuncCategory::Scalar, FuncDomain::DbeRaw, 2, Some(5), false));
    let t = t.push(spec_oracle_entry("dbe_raw.overlay", FuncCategory::Scalar, FuncDomain::DbeRaw, 2, Some(5), false));
    lemma_push_keeps_products(t, spec_oracle_entry("dbe_raw.reverse", FuncCategory::Scalar, FuncDomain::DbeRaw, 1, Some(1), false));
    let t = t.push(spec_oracle_entry("dbe_raw.reverse", FuncCategory::Scalar, FuncDomain::DbeRaw, 1, Some(1), false));
    lemma_push_keeps_products(t, spec_oracle_entry("dbe_raw.substr", FuncCategory::Scalar, FuncDomain::DbeRaw, 1, Some(3), false));
    let t = t.push(spec_oracle_entry("dbe_raw.substr", FuncCategory::Scalar, FuncDomain::DbeRaw, 1, Some(3), false));
    lemma_push_keeps_products(t, spec_oracle_entry("dbe_raw.translate", FuncCategory::Scalar, FuncDomain::DbeRaw, 3, Some(3), false));
    let t = t.push(spec_oracle_entry("dbe_raw.translate", FuncCategory::Scalar, FuncDomain::DbeRaw, 3, Some(3), false));
    lemma_push_keeps_products(t, spec_oracle_entry("dbe_raw.transliterate", FuncCategory::Scalar, FuncDomain::DbeRaw, 1, Some(4), false));
    let t = t.push(spec_oracle_entry("dbe_raw.transliterate", FuncCategory::Scalar, FuncDomain::DbeRaw, 1, Some(4), false));
    lemma_push_keeps_products(t, spec_oracle_entry("dbe_raw.xrange", FuncCategory::Scalar, FuncDomain::DbeRaw, 1, Some(2), false));
    let t = t.push(spec_oracle_entry("dbe_raw.xrange", FuncCategory::Scalar, FuncDomain::DbeRaw, 1, Some(2), false));
    lemma_push_keeps_products(t, spec_oracle_entry("dbe_scheduler.create_credential", FuncCategory::Scalar, FuncDomain::DbeScheduler, 3, Some(3), false));
    let t = t.push(spec_oracle_entry("dbe_scheduler.create_credential", FuncCategory::Scalar, FuncDomain::DbeScheduler, 3, Some(3), false));
    lemma_push_keeps_products(t, spec_oracle_entry("dbe_scheduler.create_job", FuncCategory::Scalar, FuncDomain::DbeScheduler, 1, None, false));
    let t = t.push(spec_oracle_entry("dbe_scheduler.create_job", FuncCategory::Scalar, FuncDomain::DbeScheduler, 1, None, false));
    lemma_push_keeps_products(t, spec_oracle_entry("dbe_scheduler.create_job_class", FuncCategory::Scalar, FuncDomain::DbeScheduler, 1, Some(3), false));
    let t = t.push(spec_oracle_entry("dbe_scheduler.create_job_class", FuncCategory::Scalar, FuncDomain::DbeScheduler, 1, Some(3), false));
    lemma_push_keeps_products(t, spec_oracle_entry("dbe_scheduler.create_program", FuncCategory::Scalar, FuncDomain::DbeScheduler, 1, None, false));
    let t = t.push(spec_oracle_entry("dbe_scheduler.create_program", FuncCategory::Scalar, FuncDomain::DbeScheduler, 1, None, false));
    lemma_push_keeps_products(t, spec_oracle_entry("dbe_scheduler.create_schedule", FuncCategory::Scalar, FuncDomain::DbeScheduler, 1, Some(3), false));
    let t = t.push(spec_oracle_entry("dbe_scheduler.create_schedule", FuncCategory::Scalar, FuncDomain::DbeScheduler, 1, Some(3), false));
    lemma_push_keeps_products(t, spec_oracle_entry("dbe_scheduler.define_program_argument", FuncCategory::Scalar, FuncDomain::DbeScheduler, 3, Some(5), false));
    let t = t.push(spec_oracle_entry("dbe_scheduler.define_program_argument", FuncCategory::Scalar, FuncDomain::DbeScheduler, 3, Some(5), false));
    lemma_push_keeps_products(t, spec_oracle_entry("dbe_scheduler.disable", FuncCategory::Scalar, FuncDomain::DbeScheduler, 1, Some(2), false));
    let t = t.push(spec_oracle_entry("dbe_scheduler.disable", FuncCategory::Scalar, FuncDomain::DbeScheduler, 1, Some(2), false));
    lemma_push_keeps_products(t, spec_oracle_entry("dbe_scheduler.disable_single", FuncCategory::Scalar, FuncDomain::DbeScheduler, 1, Some(2), false));
    let t = t.push(spec_oracle_entry("dbe_scheduler.disable_single", FuncCategory::Scalar, FuncDomain::DbeScheduler, 1, Some(2), false));
    lemma_push_keeps_products(t, spec_oracle_entry("dbe_scheduler.drop_credential", FuncCategory::Scalar, FuncDomain::DbeScheduler, 1, Some(1), false));
    let t = t.push(spec_oracle_entry("dbe_scheduler.drop_credential", FuncCategory::Scalar, FuncDomain::DbeScheduler, 1, Some(1), false));
    lemma_push_keeps_products(t, spec_oracle_entry("dbe_scheduler.drop_job", FuncCategory::Scalar, FuncDomain::DbeScheduler, 1, None, false));
    let t = t.push(spec_oracle_entry("dbe_scheduler.drop_job", FuncCategory::Scalar, FuncDomain::DbeScheduler, 1, None, false));
    lemma_push_keeps_products(t, spec_oracle_entry("dbe_scheduler.drop_job_class", FuncCategory::Scalar, FuncDomain::DbeScheduler, 1, Some(1), false));
    let t = t.push(spec_oracle_entry("dbe_scheduler.drop_job_class", FuncCategory::Scalar, FuncDomain::DbeScheduler, 1, Some(1), false));
    lemma_push_keeps_products(t, spec_oracle_entry("dbe_scheduler.drop_program", FuncCategory::Scalar, FuncDomain::DbeScheduler, 1, Some(1), false));
    let t = t.push(spec_oracle_entry("dbe_scheduler.drop_program", FuncCategory::Scalar, FuncDomain::DbeScheduler, 1, Some(1), false));
    lemma_push_keeps_products(t, spec_oracle_entry("dbe_scheduler.drop_schedule", FuncCategory::Scalar, FuncDomain::DbeScheduler, 1, Some(1), false));
    let t = t.push(spec_oracle_entry("dbe_scheduler.drop_schedule", FuncCategory::Scalar, FuncDomain::DbeScheduler, 1, Some(1), false));
    lemma_push_keeps_products(t, spec_oracle_entry("dbe_scheduler.drop_single_job", FuncCategory::Scalar, FuncDomain::DbeScheduler, 1, Some(3), false));
    let t = t.push(spec_oracle_entry("dbe_scheduler.drop_single_job", FuncCategory::Scalar, FuncDomain::DbeScheduler, 1, Some(3), false));
    lemma_push_keeps_products(t, spec_oracle_entry("dbe_scheduler.drop_single_job_class", FuncCategory::Scalar, FuncDomain::DbeScheduler, 1, Some(2), false));
    let t = t.push(spec_oracle_entry("dbe_scheduler.drop_single_job_class", FuncCategory::Scalar, FuncDomain::DbeScheduler, 1, Some(2), false));
    lemma_push_keeps_products(t, spec_oracle_entry("dbe_scheduler.drop_single_program", FuncCategory::Scalar, FuncDomain::DbeScheduler, 1, Some(2), false));
    let t = t.push(spec_oracle_entry("dbe_scheduler.drop_single_program", FuncCategory::Scalar, FuncDomain::DbeScheduler, 1, Some(2), false));
    lemma_push_keeps_products(t, spec_oracle_entry("dbe_scheduler.drop_single_schedule", FuncCategory::Scalar, FuncDomain::DbeScheduler, 1, Some(2), false));
    let t = t.push(spec_oracle_entry("dbe_scheduler.drop_single_schedule", FuncCategory::Scalar, FuncDomain::DbeScheduler, 1, Some(2), false));
    lemma_push_keeps_products(t, spec_oracle_entry("dbe_scheduler.enable", FuncCategory::Scalar, FuncDomain::DbeScheduler, 1, Some(2), false));
    let t = t.push(spec_oracle_entry("dbe_scheduler.enable", FuncCategory::Scalar, FuncDomain::DbeScheduler, 1, Some(2), false));
    lemma_push_keeps_products(t, spec_oracle_entry("dbe_scheduler.enable_single", FuncCategory::Scalar, FuncDomain::DbeScheduler, 1, Some(1), false));
    let t = t.push(spec_oracle_entry("dbe_scheduler.enable_single", FuncCategory::Scalar, FuncDomain::DbeScheduler, 1, Some(1), false));
    lemma_push_keeps_products(t, spec_oracle_entry("dbe_scheduler.eval_calendar_string", FuncCategory::Scalar, FuncDomain::DbeScheduler, 2, Some(2), false));
    let t = t.push(spec_oracle_entry("dbe_scheduler.eval_calendar_string", FuncCategory::Scalar, FuncDomain::DbeScheduler, 2, Some(2), false));
    lemma_push_keeps_products(t, spec_oracle_entry("dbe_scheduler.evaluate_calendar_string", FuncCategory::Scalar, FuncDomain::DbeScheduler, 2, Some(2), false));
    let t = t.push(spec_oracle_entry("dbe_scheduler.evaluate_calendar_string", FuncCategory::Scalar, FuncDomain::DbeScheduler, 2, Some(2), false));
    lemma_push_keeps_products(t, spec_oracle_entry("dbe_scheduler.generate_job_name", FuncCategory::Scalar, FuncDomain::DbeScheduler, 1, Some(1), false));
    let t = t.push(spec_oracle_entry("dbe_scheduler.generate_job_name", FuncCategory::Scalar, FuncDomain::DbeScheduler, 1, Some(1), false));
    lemma_push_keeps_products(t, spec_oracle_entry("dbe_scheduler.grant_user_authorization", FuncCategory::Scalar, FuncDomain::DbeScheduler, 2, Some(2), false));
    let t = t.push(spec_oracle_entry("dbe_scheduler.grant_user_authorization", FuncCategory::Scalar, FuncDomain::DbeScheduler, 2, Some(2), false));
    lemma_push_keeps_products(t, spec_oracle_entry("dbe_scheduler.revoke_user_authorization", FuncCategory::Scalar, FuncDomain::DbeScheduler, 2, Some(2), false));
    let t = t.push(spec_oracle_entry("dbe_scheduler.revoke_user_authorization", FuncCategory::Scalar, FuncDomain::DbeScheduler, 2, Some(2), false));
    lemma_push_keeps_products(t, spec_oracle_entry("dbe_scheduler.run_backend_job", FuncCategory::Scalar, FuncDomain::DbeScheduler, 1, Some(2), false));
    let t = t.push(spec_oracle_entry("dbe_scheduler.run_backend_job", FuncCategory::Scalar, FuncDomain::DbeScheduler, 1, Some(2), false));
    lemma_push_keeps_products(t, spec_oracle_entry("dbe_scheduler.run_foreground_job", FuncCategory::Scalar, FuncDomain::DbeScheduler, 1, Some(2), false));
    let t = t.push(spec_oracle_entry("dbe_scheduler.run_foreground_job", FuncCategory::Scalar, FuncDomain::DbeScheduler, 1, Some(2), false));
    lemma_push_keeps_products(t, spec_oracle_entry("dbe_scheduler.run_job", FuncCategory::Scalar, FuncDomain::DbeScheduler, 1, Some(2), false));
    let t = t.push(spec_oracle_entry("dbe_scheduler.run_job", FuncCategory::Scalar, FuncDomain::DbeScheduler, 1, Some(2), false));
    lemma_push_keeps_products(t, spec_oracle_entry("dbe_scheduler.set_attribute", FuncCategory::Scalar, FuncDomain::DbeScheduler, 3, Some(3), false));
    let t = t.push(spec_oracle_entry("dbe_scheduler.set_attribute", FuncCategory::Scalar, FuncDomain::DbeScheduler, 3, Some(3), false));
    lemma_push_keeps_products(t, spec_oracle_entry("dbe_scheduler.set_job_argument_value", FuncCategory::Scalar, FuncDomain::DbeScheduler, 3, Some(3), false));
    let t = t.push(spec_oracle_entry("dbe_scheduler.set_job_argument_value", FuncCategory::Scalar, FuncDomain::DbeScheduler, 3, Some(3), false));
    lemma_push_keeps_products(t, spec_oracle_entry("dbe_scheduler.stop_job", FuncCategory::Scalar, FuncDomain::DbeScheduler, 1, Some(2), false));
    let t = t.push(spec_oracle_entry("dbe_scheduler.stop_job", FuncCategory::Scalar, FuncDomain::DbeScheduler, 1, Some(2), false));
    lemma_push_keeps_products(t, spec_oracle_entry("dbe_scheduler.stop_single_job", FuncCategory::Scalar, FuncDomain::DbeScheduler, 1, Some(2), false));
    let t = t.push(spec_oracle_entry("dbe_scheduler.stop_single_job", FuncCategory::Scalar, FuncDomain::DbeScheduler, 1, Some(2), false));
    lemma_push_keeps_products(t, spec_oracle_entry("dbe_session.clear_context", FuncCategory::Scalar, FuncDomain::DbeSession, 2, Some(3), false));
    let t = t.push(spec_oracle_entry("dbe_session.clear_context", FuncCategory::Scalar, FuncDomain::DbeSession, 2, Some(3), false));
    assert(t == table_part_2(s));
}

proof fn lemma_part_3_products(s: Seq<FuncMeta>)
    requires
        names_products(s),
    ensures
        names_products(table_part_3(s)),
{
    let t = s;
    lemma_push_keeps_products(t, spec_oracle_entry("dbe_session.set_context", FuncCategory::Scalar, FuncDomain::DbeSession, 3, Some(3), false));
    let t = t.push(spec_oracle_entry("dbe_session.set_context", FuncCategory::Scalar, FuncDomain::DbeSession, 3, Some(3), false));
    lemma_push_keeps_products(t, spec_oracle_entry("dbe_sql.bind_variable", FuncCategory::Scalar, FuncDomain::DbeSql, 3, Some(4), false));
    let t = t.push(spec_oracle_entry("dbe_sql.bind_variable", FuncCategory::Scalar, FuncDomain::DbeSql, 3, Some(4), false));
    lemma_push_keeps_products(t, spec_oracle_entry("dbe_sql.close_cursor", FuncCategory::Scalar, FuncDomain::DbeSql, 1, Some(1), false));
    let t = t.push(spec_oracle_entry("dbe_sql.close_cursor", FuncCategory::Scalar, FuncDomain::DbeSql, 1, Some(1), false));
    lemma_push_keeps_products(t, spec_oracle_entry("dbe_sql.column_value", FuncCategory::Scalar, FuncDomain::DbeSql, 3, Some(3), false));
    let t = t.push(spec_oracle_entry("dbe_sql.column_value", FuncCategory::Scalar, FuncDomain::DbeSql, 3, Some(3), false));
    lemma_push_keeps_products(t, spec_oracle_entry("dbe_sql.dbe_sql_get_result_char", FuncCategory::Scalar, FuncDomain::DbeSql, 2, Some(2), false));
    let t = t.push(spec_oracle_entry("dbe_sql.dbe_sql_get_result_char", FuncCategory::Scalar, FuncDomain::DbeSql, 2, Some(2), false));
    lemma_push_keeps_products(t, spec_oracle_entry("dbe_sql.dbe_sql_get_result_long", FuncCategory::Scalar, FuncDomain::DbeSql, 2, Some(2), false));
    let t = t.push(spec_oracle_entry("dbe_sql.dbe_sql_get_result_long", FuncCategory::Scalar, FuncDomain::DbeSql, 2, Some(2), false));
    lemma_push_keeps_products(t, spec_oracle_entry("dbe_sql.dbe_sql_get_result_raw", FuncCategory::Scalar, FuncDomain::DbeSql, 3, Some(3), false));
    let t = t.push(spec_oracle_entry("dbe_sql.dbe_sql_get_result_raw", FuncCategory::Scalar, FuncDomain::DbeSql, 3, Some(3), false));
    lemma_push_keeps_products(t, spec_oracle_entry("dbe_sql.describe_columns", FuncCategory::Scalar, FuncDomain::DbeSql, 3, Some(3), false));
    let t = t.push(spec_oracle_entry("dbe_sql.describe_columns", FuncCategory::Scalar, FuncDomain::DbeSql, 3, Some(3), false));
    lemma_push_keeps_products(t, spec_oracle_entry("dbe_sql.execute", FuncCategory::Scalar, FuncDomain::DbeSql, 1, Some(2), false));
    let t = t.push(spec_oracle_entry("dbe_sql.execute", FuncCategory::Scalar, FuncDomain::DbeSql, 1, Some(2), false));
    lemma_push_keeps_products(t, spec_oracle_entry("dbe_sql.fetch_rows", FuncCategory::Scalar, FuncDomain::DbeSql, 1, Some(1), false));
    let t = t.push(spec_oracle_entry("dbe_sql.fetch_rows", FuncCategory::Scalar, FuncDomain::DbeSql, 1, Some(1), false));
    lemma_push_keeps_products(t, spec_oracle_entry("dbe_sql.get_array_result_char", FuncCategory::Scalar, FuncDomain::DbeSql, 3, Some(3), false));
    let t = t.push(spec_oracle_entry("dbe_sql.get_array_result_char", FuncCategory::Scalar, FuncDomain::DbeSql, 3, Some(3), false));
    lemma_push_keeps_products(t, spec_oracle_entry("dbe_sql.get_array_result_int", FuncCategory::Scalar, FuncDomain::DbeSql, 3, Some(3), false));
    let t = t.push(spec_oracle_entry("dbe_sql.get_array_result_int", FuncCategory::Scalar, FuncDomain::DbeSql, 3, Some(3), false));
    lemma_push_keeps_products(t, spec_oracle_entry("dbe_sql.get_array_result_raw", FuncCategory::Scalar, FuncDomain::DbeSql, 3, Some(3), false));
    let t = t.push(spec_oracle_entry("dbe_sql.get_array_result_raw", FuncCategory::Scalar, FuncDomain::DbeSql, 3, Some(3), false));
    lemma_push_keeps_products(t, spec_oracle_entry("dbe_sql.get_array_result_text", FuncCategory::Scalar, FuncDomain::DbeSql, 3, Some(3), false));
    let t = t.push(spec_oracle_entry("dbe_sql.get_array_result_text", FuncCategory::Scalar, FuncDomain::DbeSql, 3, Some(3), false));
    lemma_push_keeps_products(t, spec_oracle_entry("dbe_sql.get_result", FuncCategory::Scalar, FuncDomain::DbeSql, 3, Some(3), false));
    let t = t.push(spec_oracle_entry("dbe_sql.get_result", FuncCategory::Scalar, FuncDomain::DbeSql, 3, Some(3), false));
    lemma_push_keeps_products(t, spec_oracle_entry("dbe_sql.get_result_bytea", FuncCategory::Scalar, FuncDomain::DbeSql, 2, Some(2), false));
    let t = t.push(spec_oracle_entry("dbe_sql.get_result_bytea", FuncCategory::Scalar, FuncDomain::DbeSql, 2, Some(2), false));
    lemma_push_keeps_products(t, spec_oracle_entry("dbe_sql.get_result_char", FuncCategory::Scalar, FuncDomain::DbeSql, 3, Some(5), false));
    let t = t.push(spec_oracle_entry("dbe_sql.get_result_char", FuncCategory::Scalar, FuncDomain::DbeSql, 3, Some(5), false));
    lemma_push_keeps_products(t, spec_oracle_entry("dbe_sql.get_result_int", FuncCategory::Scalar, FuncDomain::DbeSql, 2, Some(2), false));
    let t = t.push(spec_oracle_entry("dbe_sql.get_result_int", FuncCategory::Scalar, FuncDomain::DbeSql, 2, Some(2), false));
    lemma_push_keeps_products(t, spec_oracle_entry("dbe_sql.get_result_long", FuncCategory::Scalar, FuncDomain::DbeSql, 6, Some(6), false));
    let t = t.push(spec_oracle_entry("dbe_sql.get_result_long", FuncCategory::Scalar, FuncDomain::DbeSql, 6, Some(6), false));
    lemma_push_keeps_products(t, spec_oracle_entry("dbe_sql.get_result_raw", FuncCategory::Scalar, FuncDomain::DbeSql, 3, Some(5), false));
    let t = t.push(spec_oracle_entry("dbe_sql.get_result_raw", FuncCategory::Scalar, FuncDomain::DbeSql, 3, Some(5), false));
    lemma_push_keeps_products(t, spec_oracle_entry("dbe_sql.get_result_text", FuncCategory::Scalar, FuncDomain::DbeSql, 2, Some(2), false));
    let t = t.push(spec_oracle_entry("dbe_sql.get_result_text", FuncCategory::Scalar, FuncDomain::DbeSql, 2, Some(2), false));
    lemma_push_keeps_products(t, spec_oracle_entry("dbe_sql.get_result_unknown", FuncCategory::Scalar, FuncDomain::DbeSql, 3, Some(3), false));
    let t = t.push(spec_oracle_entry("dbe_sql.get_result_unknown", FuncCategory::Scalar, FuncDomain::DbeSql, 3, Some(3), false));
    lemma_push_keeps_products(t, spec_oracle_entry("dbe_sql.get_results", FuncCategory::Scalar, FuncDomain::DbeSql, 3, Some(3), false));
    let t = t.push(spec_oracle_entry("dbe_sql.get_results", FuncCategory::Scalar, FuncDomain::DbeSql, 3, Some(3), false));
    lemma_push_keeps_products(t, spec_oracle_entry("dbe_sql.get_results_bytea", FuncCategory::Scalar, FuncDomain::DbeSql, 3, Some(3), false));
    let t = t.push(spec_oracle_entry("dbe_sql.get_results_bytea", FuncCategory::Scalar, FuncDomain::DbeSql, 3, Some(3), false));
    lemma_push_keeps_products(t, spec_oracle_entry("dbe_sql.get_results_char", FuncCategory::Scalar, FuncDomain::DbeSql, 3, Some(3), false));
    let t = t.push(spec_oracle_entry("dbe_sql.get_results_char", FuncCategory::Scalar, FuncDomain::DbeSql, 3, Some(3), false));
    lemma_push_keeps_products(t, spec_oracle_entry("dbe_sql.get_results_int", FuncCategory::Scalar, FuncDomain::DbeSql, 3, Some(3), false));
    let t = t.push(spec_oracle_entry("dbe_sql.get_results_int", FuncCategory::Scalar, FuncDomain::DbeSql, 3, Some(3), false));
    lemma_push_keeps_products(t, spec_oracle_entry("dbe_sql.get_results_raw", FuncCategory::Scalar, FuncDomain::DbeSql, 3, Some(3), false));
    let t = t.push(spec_oracle_entry("dbe_sql.get_results_raw", FuncCategory::Scalar, FuncDomain::DbeSql, 3, Some(3), false));
    lemma_push_keeps_products(t, spec_oracle_entry("dbe_sql.get_results_text", FuncCategory::Scalar, FuncDomain::DbeSql, 3, Some(3), false));
    let t = t.push(spec_oracle_entry("dbe_sql.get_results_text", FuncCategory::Scalar, FuncDomain::DbeSql, 3, Some(3), false));
    lemma_push_keeps_products(t, spec_oracle_entry("dbe_sql.get_variable_result", FuncCategory::Scalar, FuncDomain::DbeSql, 3, Some(3), false));
    let t = t.push(spec_oracle_entry("dbe_sql.get_variable_result", FuncCategory::Scalar, FuncDomain::DbeSql, 3, Some(3), false));
    lemma_push_keeps_products(t, spec_oracle_entry("dbe_sql.get_variable_result_char", FuncCategory::Scalar, FuncDomain::DbeSql, 2, Some(2), false));
    let t = t.push(spec_oracle_entry("dbe_sql.get_variable_result_char", FuncCategory::Scalar, FuncDomain::DbeSql, 2, Some(2), false));
    lemma_push_keeps_products(t, spec_oracle_entry("dbe_sql.get_variable_result_int", FuncCategory::Scalar, FuncDomain::DbeSql, 3, Some(3), false));
    let t = t.push(spec_oracle_entry("dbe_sql.get_variable_result_int", FuncCategory::Scalar, FuncDomain::DbeSql, 3, Some(3), false));
    lemma_push_keeps_products(t, spec_oracle_entry("dbe_sql.get_variable_result_raw", FuncCategory::Scalar, FuncDomain::DbeSql, 3, Some(3), false));
    let t = t.push(spec_oracle_entry("dbe_sql.get_variable_result_raw", FuncCategory::Scalar, FuncDomain::DbeSql, 3, Some(3), false));
    lemma_push_keeps_products(t, spec_oracle_entry("dbe_sql.get_variable_result_text", FuncCategory::Scalar, FuncDomain::DbeSql, 2, Some(2), false));
    let t = t.push(spec_oracle_entry("dbe_sql.get_variable_result_text", FuncCategory::Scalar, FuncDomain::DbeSql, 2, Some(2), false));
    lemma_push_keeps_products(t, spec_oracle_entry("dbe_sql.is_active", FuncCategory::Scalar, FuncDomain::DbeSql, 1, Some(1), false));
    let t = t.push(spec_oracle_entry("dbe_sql.is_active", FuncCategory::Scalar, FuncDomain::DbeSql, 1, Some(1), false));
    lemma_push_keeps_products(t, spec_oracle_entry("dbe_sql.last_row_count", FuncCategory::Scalar, FuncDomain::DbeSql, 0, Some(0), false));
    let t = t.push(spec_oracle_entry("dbe_sql.last_row_count", FuncCategory::Scalar, FuncDomain::DbeSql, 0, Some(0), false));
    lemma_push_keeps_products(t, spec_oracle_entry("dbe_sql.next_row", FuncCategory::Scalar, FuncDomain::DbeSql, 1, Some(1), false));
    let t = t.push(spec_oracle_entry("dbe_sql.next_row", FuncCategory::Scalar, FuncDomain::DbeSql, 1, Some(1), false));
    lemma_push_keeps_products(t, spec_oracle_entry("dbe_sql.open_cursor", FuncCategory::Scalar, FuncDomain::DbeSql, 0, Some(0), false));
    let t = t.push(spec_oracle_entry("dbe_sql.open_cursor", FuncCategory::Scalar, FuncDomain::DbeSql, 0, Some(0), false));
    lemma_push_keeps_products(t, spec_oracle_entry("dbe_sql.register_context", FuncCategory::Scalar, FuncDomain::DbeSql, 0, Some(0), false));
    let t = t.push(spec_oracle_entry("dbe_sql.register_context", FuncCategory::Scalar, FuncDomain::DbeSql, 0, Some(0), false));
    lemma_push_keeps_products(t, spec_oracle_entry("dbe_sql.register_variable", FuncCategory::Scalar, FuncDomain::DbeSql, 3, Some(3), false));
    let t = t.push(spec_oracle_entry("dbe_sql.register_variable", FuncCategory::Scalar, FuncDomain::DbeSql, 3, Some(3), false));
    lemma_push_keeps_products(t, spec_oracle_entry("dbe_sql.run_and_next", FuncCategory::Scalar, FuncDomain::DbeSql, 1, Some(1), false));
    let t = t.push(spec_oracle_entry("dbe_sql.run_and_next", FuncCategory::Scalar, FuncDomain::DbeSql, 1, Some(1), false));
    lemma_push_keeps_products(t, spec_oracle_entry("dbe_sql.set_result_type", FuncCategory::Scalar, FuncDomain::DbeSql, 3, Some(4), false));
    let t = t.push(spec_oracle_entry("dbe_sql.set_result_type", FuncCategory::Scalar, FuncDomain::DbeSql, 3, Some(4), false));
    lemma_push_keeps_products(t, spec_oracle_entry("dbe_sql.set_result_type_bytea", FuncCategory::Scalar, FuncDomain::DbeSql, 4, Some(4), false));
    let t = t.push(spec_oracle_entry("dbe_sql.set_result_type_bytea", FuncCategory::Scalar, FuncDomain::DbeSql, 4, Some(4), false));
    lemma_push_keeps_products(t, spec_oracle_entry("dbe_sql.set_result_type_byteas", FuncCategory::Scalar, FuncDomain::DbeSql, 6, Some(6), false));
    let t = t.push(spec_oracle_entry("dbe_sql.set_result_type_byteas", FuncCategory::Scalar, FuncDomain::DbeSql, 6, Some(6), false));
    lemma_push_keeps_products(t, spec_oracle_entry("dbe_sql.set_result_type_char", FuncCategory::Scalar, FuncDomain::DbeSql, 4, Some(4), false));
    let t = t.push(spec_oracle_entry("dbe_sql.set_result_type_char", FuncCategory::Scalar, FuncDomain::DbeSql, 4, Some(4), false));
    lemma_push_keeps_products(t, spec_oracle_entry("dbe_sql.set_result_type_chars", FuncCategory::Scalar, FuncDomain::DbeSql, 6, Some(6), false));
    let t = t.push(spec_oracle_entry("dbe_sql.set_result_type_chars", FuncCategory::Scalar, FuncDomain::DbeSql, 6, Some(6), false));
    lemma_push_keeps_products(t, spec_oracle_entry("dbe_sql.set_result_type_int", FuncCategory::Scalar, FuncDomain::DbeSql, 2, Some(2), false));
    let t = t.push(spec_oracle_entry("dbe_sql.set_result_type_int", FuncCategory::Scalar, FuncDomain::DbeSql, 2, Some(2), false));
    lemma_push_keeps_products(t, spec_oracle_entry("dbe_sql.set_result_type_ints", FuncCategory::Scalar, FuncDomain::DbeSql, 5, Some(5), false));
    let t = t.push(spec_oracle_entry("dbe_sql.set_result_type_ints", FuncCategory::Scalar, FuncDomain::DbeSql, 5, Some(5), false));
    lemma_push_keeps_products(t, spec_oracle_entry("dbe_sql.set_result_type_long", FuncCategory::Scalar, FuncDomain::DbeSql, 2, Some(2), false));
    let t = t.push(spec_oracle_entry("dbe_sql.set_result_type_long", FuncCategory::Scalar, FuncDomain::DbeSql, 2, Some(2), false));
    lemma_push_keeps_products(t, spec_oracle_entry("dbe_sql.set_result_type_raw", FuncCategory::Scalar, FuncDomain::DbeSql, 4, Some(4), false));
    let t = t.push(spec_oracle_entry("dbe_sql.set_result_type_raw", FuncCategory::Scalar, FuncDomain::DbeSql, 4, Some(4), false));
    lemma_push_keeps_products(t, spec_oracle_entry("dbe_sql.set_result_type_raws", FuncCategory::Scalar, FuncDomain::DbeSql, 6, Some(6), false));
    let t = t.push(spec_oracle_entry("dbe_sql.set_result_type_raws", FuncCategory::Scalar, FuncDomain::DbeSql, 6, Some(6), false));
    lemma_push_keeps_products(t, spec_oracle_entry("dbe_sql.set_result_type_text", FuncCategory::Scalar, FuncDomain::DbeSql, 3, Some(3), false));
    let t = t.push(spec_oracle_entry("dbe_sql.set_result_type_text", FuncCategory::Scalar, FuncDomain::DbeSql, 3, Some(3), false));
    lemma_push_keeps_products(t, spec_oracle_entry("dbe_sql.set_result_type_texts", FuncCategory::Scalar, FuncDomain::DbeSql, 6, Some(6), false));
    let t = t.push(spec_oracle_entry("dbe_sql.set_result_type_texts", FuncCategory::Scalar, FuncDomain::DbeSql, 6, Some(6), false));
    lemma_push_keeps_products(t, spec_oracle_entry("dbe_sql.set_result_type_unknown", FuncCategory::Scalar, FuncDomain::DbeSql, 3, Some(3), false));
    let t = t.push(spec_oracle_entry("dbe_sql.set_result_type_unknown", FuncCategory::Scalar, FuncDomain::DbeSql, 3, Some(3), false));
    lemma_push_keeps_products(t, spec_oracle_entry("dbe_sql.set_results_type", FuncCategory::Scalar, FuncDomain::DbeSql, 5, Some(6), false));
    let t = t.push(spec_oracle_entry("dbe_sql.set_results_type", FuncCategory::Scalar, FuncDomain::DbeSql, 5, Some(6), false));
    lemma_push_keeps_products(t, spec_oracle_entry("dbe_sql.sql_bind_array", FuncCategory::Scalar, FuncDomain::DbeSql, 3, Some(5), false));
    let t = t.push(spec_oracle_entry("dbe_sql.sql_bind_array", FuncCategory::Scalar, FuncDomain::DbeSql, 3, Some(5), false));
    lemma_push_keeps_products(t, spec_oracle_entry("dbe_sql.sql_bind_variable", FuncCategory::Scalar, FuncDomain::DbeSql, 3, Some(4), false));
    let t = t.push(spec_oracle_entry("dbe_sql.sql_bind_variable", FuncCategory::Scalar, FuncDomain::DbeSql, 3, Some(4), false));
    lemma_push_keeps_products(t, spec_oracle_entry("dbe_sql.sql_describe_columns", FuncCategory::Scalar, FuncDomain::DbeSql, 3, Some(3), false));
    let t = t.push(spec_oracle_entry("dbe_sql.sql_describe_columns", FuncCategory::Scalar, FuncDomain::DbeSql, 3, Some(3), false));
    lemma_push_keeps_products(t, spec_oracle_entry("dbe_sql.sql_get_tableof_values_c", FuncCategory::Scalar, FuncDomain::DbeSql, 4, Some(4), false));
    let t = t.push(spec_oracle_entry("dbe_sql.sql_get_tableof_values_c", FuncCategory::Scalar, FuncDomain::DbeSql, 4, Some(4), false));
    lemma_push_keeps_products(t, spec_oracle_entry("dbe_sql.sql_get_values_c", FuncCategory::Scalar, FuncDomain::DbeSql, 4, Some(4), false));
    let t = t.push(spec_oracle_entry("dbe_sql.sql_get_values_c", FuncCategory::Scalar, FuncDomain::DbeSql, 4, Some(4), false));
    lemma_push_keeps_products(t, spec_oracle_entry("dbe_sql.sql_run", FuncCategory::Scalar, FuncDomain::DbeSql, 1, Some(1), false));
    let t = t.push(spec_oracle_entry("dbe_sql.sql_run", FuncCategory::Scalar, FuncDomain::DbeSql, 1, Some(1), false));
    lemma_push_keeps_products(t, spec_oracle_entry("dbe_sql.sql_set_results_type_c", FuncCategory::Scalar, FuncDomain::DbeSql, 7, Some(7), false));
    let t = t.push(spec_oracle_entry("dbe_sql.sql_set_results_type_c", FuncCategory::Scalar, FuncDomain::DbeSql, 7, Some(7), false));
    lemma_push_keeps_products(t, spec_oracle_entry("dbe_sql.sql_set_sql", FuncCategory::Scalar, FuncDomain::DbeSql, 3, Some(3), false));
    let t = t.push(spec_oracle_entry("dbe_sql.sql_set_sql", FuncCategory::Scalar, FuncDomain::DbeSql, 3, Some(3), false));
    lemma_push_keeps_products(t, spec_oracle_entry("dbe_sql.sql_set_tableof_results_type_c", FuncCategory::Scalar, FuncDomain::DbeSql, 7, Some(7), false));
    let t = t.push(spec_oracle_entry("dbe_sql.sql_set_tableof_results_type_c", FuncCategory::Scalar, FuncDomain::DbeSql, 7, Some(7), false));
    lemma_push_keeps_products(t, spec_oracle_entry("dbe_sql.sql_unregister_context", FuncCategory::Scalar, FuncDomain::DbeSql, 1, Some(1), false));
    let t = t.push(spec_oracle_entry("dbe_sql.sql_unregister_context", FuncCategory::Scalar, FuncDomain::DbeSql, 1, Some(1), false));
    lemma_push_keeps_products(t, spec_oracle_entry("dbe_sql_util.create_abort_sql_patch", FuncCategory::Scalar, FuncDomain::DbeSqlUtil, 1, Some(3), false));
    let t = t.push(spec_oracle_entry("dbe_sql_util.create_abort_sql_patch", FuncCategory::Scalar, FuncDomain::DbeSqlUtil, 1, Some(3), false));
    lemma_push_keeps_products(t, spec_oracle_entry("dbe_sql_util.create_hint_sql_patch", FuncCategory::Scalar, FuncDomain::DbeSqlUtil, 1, Some(3), false));
    let t = t.push(spec_oracle_entry("dbe_sql_util.create_hint_sql_patch", FuncCategory::Scalar, FuncDomain::DbeSqlUtil, 1, Some(3), false));
    lemma_push_keeps_products(t, spec_oracle_entry("dbe_sql_util.disable_sql_patch", FuncCategory::Scalar, FuncDomain::DbeSqlUtil, 1, Some(1), false));
    let t = t.push(spec_oracle_entry("dbe_sql_util.disable_sql_patch", FuncCategory::Scalar, FuncDomain::DbeSqlUtil, 1, Some(1), false));
    lemma_push_keeps_products(t, spec_oracle_entry("dbe_sql_util.drop_sql_patch", FuncCategory::Scalar, FuncDomain::DbeSqlUtil, 1, Some(1), false));
    let t = t.push(spec_oracle_entry("dbe_sql_util.drop_sql_patch", FuncCategory::Scalar, FuncDomain::DbeSqlUtil, 1, Some(1), false));
    lemma_push_keeps_products(t, spec_oracle_entry("dbe_sql_util.enable_sql_patch", FuncCategory::Scalar, FuncDomain::DbeSqlUtil, 1, Some(1), false));
    let t = t.push(spec_oracle_entry("dbe_sql_util.enable_sql_patch", FuncCategory::Scalar, FuncDomain::DbeSqlUtil, 1, Some(1), false));
    lemma_push_keeps_products(t, spec_oracle_entry("dbe_sql_util.show_sql_patch", FuncCategory::Scalar, FuncDomain::DbeSqlUtil, 0, Some(1), false));
    let t = t.push(spec_oracle_entry("dbe_sql_util.show_sql_patch", FuncCategory::Scalar, FuncDomain::DbeSqlUtil, 0, Some(1), false));
    lemma_push_keeps_products(t, spec_oracle_entry("dbe_stats.get_stats_history_availability", FuncCategory::Scalar, FuncDomain::DbeStats, 0, Some(0), false));
    let t = t.push(spec_oracle_entry("dbe_stats.get_stats_history_availability", FuncCategory::Scalar, FuncDomain::DbeStats, 0, Some(0), false));
    lemma_push_keeps_products(t, spec_oracle_entry("dbe_stats.get_stats_history_retention", FuncCategory::Scalar, FuncDomain::DbeStats, 0, Some(0), false));
    let t = t.push(spec_oracle_entry("dbe_stats.get_stats_history_retention", FuncCategory::Scalar, FuncDomain::DbeStats, 0, Some(0), false));
    lemma_push_keeps_products(t, spec_oracle_entry("dbe_stats.lock_column_stats", FuncCategory::Scalar, FuncDomain::DbeStats, 3, Some(3), false));
    let t = t.push(spec_oracle_entry("dbe_stats.lock_column_stats", FuncCategory::Scalar, FuncDomain::DbeStats, 3, Some(3), false));
    lemma_push_keeps_products(t, spec_oracle_entry("dbe_stats.lock_partition_stats", FuncCategory::Scalar, FuncDomain::DbeStats, 3, Some(3), false));
    let t = t.push(spec_oracle_entry("dbe_stats.lock_partition_stats", FuncCategory::Scalar, FuncDomain::DbeStats, 3, Some(3), false));
    lemma_push_keeps_products(t, spec_oracle_entry("dbe_stats.lock_schema_stats", FuncCategory::Scalar, FuncDomain::DbeStats, 1, Some(1), false));
    let t = t.push(spec_oracle_entry("dbe_stats.lock_schema_stats", FuncCategory::Scalar, FuncDomain::DbeStats, 1, Some(1), false));
    lemma_push_keeps_products(t, spec_oracle_entry("dbe_stats.lock_table_stats", FuncCategory::Scalar, FuncDomain::DbeStats, 1, Some(1), false));
    let t = t.push(spec_oracle_entry("dbe_stats.lock_table_stats", FuncCategory::Scalar, FuncDomain::DbeStats, 1, Some(1), false));
    lemma_push_keeps_products(t, spec_oracle_entry("dbe_stats.purge_stats", FuncCategory::Scalar, FuncDomain::DbeStats, 1, Some(1), false));
    let t = t.push(spec_oracle_entry("dbe_stats.purge_stats", FuncCategory::Scalar, FuncDomain::DbeStats, 1, Some(1), false));
    lemma_push_keeps_products(t, spec_oracle_entry("dbe_stats.restore_column_stats", FuncCategory::Scalar, FuncDomain::DbeStats, 6, Some(6), false));
    let t = t.push(spec_oracle_entry("dbe_stats.restore_column_stats", FuncCategory::Scalar, FuncDomain::DbeStats, 6, Some(6), false));
    lemma_push_keeps_products(t, spec_oracle_entry("dbe_stats.restore_partition_stats", FuncCategory::Scalar, FuncDomain::DbeStats, 6, Some(6), false));
    let t = t.push(spec_oracle_entry("dbe_stats.restore_partition_stats", FuncCategory::Scalar, FuncDomain::DbeStats, 6, Some(6), false));
    lemma_push_keeps_products(t, spec_oracle_entry("dbe_stats.restore_schema_stats", FuncCategory::Scalar, FuncDomain::DbeStats, 4, Some(4), false));
    let t = t.push(spec_oracle_entry("dbe_stats.restore_schema_stats", FuncCategory::Scalar, FuncDomain::DbeStats, 4, Some(4), false));
    lemma_push_keeps_products(t, spec_oracle_entry("dbe_stats.restore_table_stats", FuncCategory::Scalar, FuncDomain::DbeStats, 5, Some(5), false));
    let t = t.push(spec_oracle_entry("dbe_stats.restore_table_stats", FuncCategory::Scalar, FuncDomain::DbeStats, 5, Some(5), false));
    lemma_push_keeps_products(t, spec_oracle_entry("dbe_stats.unlock_column_stats", FuncCategory::Scalar, FuncDomain::DbeStats, 3, Some(3), false));
    let t = t.push(spec_oracle_entry("dbe_stats.unlock_column_stats", FuncCategory::Scalar, FuncDomain::DbeStats, 3, Some(3), false));
    lemma_push_keeps_products(t, spec_oracle_entry("dbe_stats.unlock_partition_stats", FuncCategory::Scalar, FuncDomain::DbeStats, 3, Some(3), false));
    let t = t.push(spec_oracle_entry("dbe_stats.unlock_partition_stats", FuncCategory::Scalar, FuncDomain::DbeStats, 3, Some(3), false));
    lemma_push_keeps_products(t, spec_oracle_entry("dbe_stats.unlock_schema_stats", FuncCategory::Scalar, FuncDomain::DbeStats, 1, Some(1), false));
    let t = t.push(spec_oracle_entry("dbe_stats.unlock_schema_stats", FuncCategory::Scalar, FuncDomain::DbeStats, 1, Some(1), false));
    lemma_push_keeps_products(t, spec_oracle_entry("dbe_stats.unlock_table_stats", FuncCategory::Scalar, FuncDomain::DbeStats, 1, Some(1), false));
    let t = t.push(spec_oracle_entry("dbe_stats.unlock_table_stats", FuncCategory::Scalar, FuncDomain::DbeStats, 1, Some(1), false));
    lemma_push_keeps_products(t, spec_oracle_entry("dbe_task.cancel", FuncCategory::Scalar, FuncDomain::DbeTask, 1, Some(1), false));
    let t = t.push(spec_oracle_entry("dbe_task.cancel", FuncCategory::Scalar, FuncDomain::DbeTask, 1, Some(1), false));
    lemma_push_keeps_products(t, spec_oracle_entry("dbe_task.change", FuncCategory::Scalar, FuncDomain::DbeTask, 1, Some(4), false));
    let t = t.push(spec_oracle_entry("dbe_task.change", FuncCategory::Scalar, FuncDomain::DbeTask, 1, Some(4), false));
    lemma_push_keeps_products(t, spec_oracle_entry("dbe_task.content", FuncCategory::Scalar, FuncDomain::DbeTask, 2, Some(2), false));
    let t = t.push(spec_oracle_entry("dbe_task.content", FuncCategory::Scalar, FuncDomain::DbeTask, 2, Some(2), false));
    lemma_push_keeps_products(t, spec_oracle_entry("dbe_task.finish", FuncCategory::Scalar, FuncDomain::DbeTask, 2, Some(3), false));
    let t = t.push(spec_oracle_entry("dbe_task.finish", FuncCategory::Scalar, FuncDomain::DbeTask, 2, Some(3), false));
    lemma_push_keeps_products(t, spec_oracle_entry("dbe_task.id_submit", FuncCategory::Scalar, FuncDomain::DbeTask, 2, Some(4), false));
    let t = t.push(spec_oracle_entry("dbe_task.id_submit", FuncCategory::Scalar, FuncDomain::DbeTask, 2, Some(4), false));
    lemma_push_keeps_products(t, spec_oracle_entry("dbe_task.interval", FuncCategory::Scalar, FuncDomain::DbeTask, 2, Some(2), false));
    let t = t.push(spec_oracle_entry("dbe_task.interval", FuncCategory::Scalar, FuncDomain::DbeTask, 2, Some(2), false));
    lemma_push_keeps_products(t, spec_oracle_entry("dbe_task.job_submit", FuncCategory::Scalar, FuncDomain::DbeTask, 1, Some(3), false));
    let t = t.push(spec_oracle_entry("dbe_task.job_submit", FuncCategory::Scalar, FuncDomain::DbeTask, 1, Some(3), false));
    lemma_push_keeps_products(t, spec_oracle_entry("dbe_task.next_time", FuncCategory::Scalar, FuncDomain::DbeTask, 2, Some(2), false));
    let t = t.push(spec_oracle_entry("dbe_task.next_time", FuncCategory::Scalar, FuncDomain::DbeTask, 2, Some(2), false));
    lemma_push_keeps_products(t, spec_oracle_entry("dbe_task.run", FuncCategory::Scalar, FuncDomain::DbeTask, 1, Some(2), false));
    let t = t.push(spec_oracle_entry("dbe_task.run", FuncCategory::Scalar, FuncDomain::DbeTask, 1, Some(2), false));
    lemma_push_keeps_products(t, spec_oracle_entry("dbe_task.submit", FuncCategory::Scalar, FuncDomain::DbeTask, 1, Some(4), false));
    let t = t.push(spec_oracle_entry("dbe_task.submit", FuncCategory::Scalar, FuncDomain::DbeTask, 1, Some(4), false));
    lemma_push_keeps_products(t, spec_oracle_entry("dbe_task.update", FuncCategory::Scalar, FuncDomain::DbeTask, 4, Some(4), false));
    let t = t.push(spec_oracle_entry("dbe_task.update", FuncCategory::Scalar, FuncDomain::DbeTask, 4, Some(4), false));
    lemma_push_keeps_products(t, spec_oracle_entry("dbe_utility.canonicalize", FuncCategory::Scalar, FuncDomain::DbeUtility, 2, Some(3), false));
    let t = t.push(spec_oracle_entry("dbe_utility.canonicalize", FuncCategory::Scalar, FuncDomain::DbeUtility, 2, Some(3), false));
    lemma_push_keeps_products(t, spec_oracle_entry("dbe_utility.comma_to_table", FuncCategory::Scalar, FuncDomain::DbeUtility, 3, Some(3), false));
    let t = t.push(spec_oracle_entry("dbe_utility.comma_to_table", FuncCategory::Scalar, FuncDomain::DbeUtility, 3, Some(3), false));
    lemma_push_keeps_products(t, spec_oracle_entry("dbe_utility.compile_schema", FuncCategory::Scalar, FuncDomain::DbeUtility, 1, Some(3), false));
    let t = t.push(spec_oracle_entry("dbe_utility.compile_schema", FuncCategory::Scalar, FuncDomain::DbeUtility, 1, Some(3), false));
    lemma_push_keeps_products(t, spec_oracle_entry("dbe_utility.db_version", FuncCategory::Scalar, FuncDomain::DbeUtility, 1, Some(1), false));
    let t = t.push(spec_oracle_entry("dbe_utility.db_version", FuncCategory::Scalar, FuncDomain::DbeUtility, 1, Some(1), false));
    lemma_push_keeps_products(t, spec_oracle_entry("dbe_utility.exec_ddl_statement", FuncCategory::Scalar, FuncDomain::DbeUtility, 1, Some(1), false));
    let t = t.push(spec_oracle_entry("dbe_utility.exec_ddl_statement", FuncCategory::Scalar, FuncDomain::DbeUtility, 1, Some(1), false));
    lemma_push_keeps_products(t, spec_oracle_entry("dbe_utility.expand_sql_text_proc", FuncCategory::Scalar, FuncDomain::DbeUtility, 2, Some(2), false));
    let t = t.push(spec_oracle_entry("dbe_utility.expand_sql_text_proc", FuncCategory::Scalar, FuncDomain::DbeUtility, 2, Some(2), false));
    lemma_push_keeps_products(t, spec_oracle_entry("dbe_utility.format_call_stack", FuncCategory::Scalar, FuncDomain::DbeUtility, 0, Some(0), false));
    let t = t.push(spec_oracle_entry("dbe_utility.format_call_stack", FuncCategory::Scalar, FuncDomain::DbeUtility, 0, Some(0), false));
    lemma_push_keeps_products(t, spec_oracle_entry("dbe_utility.format_error_backtrace", FuncCategory::Scalar, FuncDomain::DbeUtility, 0, Some(0), false));
    let t = t.push(spec_oracle_entry("dbe_utility.format_error_backtrace", FuncCategory::Scalar, FuncDomain::DbeUtility, 0, Some(0), false));
    lemma_push_keeps_products(t, spec_oracle_entry("dbe_utility.format_error_stack", FuncCategory::Scalar, FuncDomain::DbeUtility, 0, Some(0), false));
    let t = t.push(spec_oracle_entry("dbe_utility.format_error_stack", FuncCategory::Scalar, FuncDomain::DbeUtility, 0, Some(0), false));
    lemma_push_keeps_products(t, spec_oracle_entry("dbe_utility.get_cpu_time", FuncCategory::Scalar, FuncDomain::DbeUtility, 0, Some(0), false));
    let t = t.push(spec_oracle_entry("dbe_utility.get_cpu_time", FuncCategory::Scalar, FuncDomain::DbeUtility, 0, Some(0), false));
    lemma_push_keeps_products(t, spec_oracle_entry("dbe_utility.get_endianness", FuncCategory::Scalar, FuncDomain::DbeUtility, 0, Some(0), false));
    let t = t.push(spec_oracle_entry("dbe_utility.get_endianness", FuncCategory::Scalar, FuncDomain::DbeUtility, 0, Some(0), false));
    lemma_push_keeps_products(t, spec_oracle_entry("dbe_utility.get_hash_value", FuncCategory::Scalar, FuncDomain::DbeUtility, 3, Some(3), false));
    let t = t.push(spec_oracle_entry("dbe_utility.get_hash_value", FuncCategory::Scalar, FuncDomain::DbeUtility, 3, Some(3), false));
    lemma_push_keeps_products(t, spec_oracle_entry("dbe_utility.get_sql_hash", FuncCategory::Scalar, FuncDomain::DbeUtility, 3, Some(3), false));
    let t = t.push(spec_oracle_entry("dbe_utility.get_sql_hash", FuncCategory::Scalar, FuncDomain::DbeUtility, 3, Some(3), false));
    lemma_push_keeps_products(t, spec_oracle_entry("dbe_utility.get_sql_hash_func", FuncCategory::Scalar, FuncDomain::DbeUtility, 3, Some(3), false));
    let t = t.push(spec_oracle_entry("dbe_utility.get_sql_hash_func", FuncCategory::Scalar, FuncDomain::DbeUtility, 3, Some(3), false));
    lemma_push_keeps_products(t, spec_oracle_entry("dbe_utility.get_time", FuncCategory::Scalar, FuncDomain::DbeUtility, 0, Some(0), false));
    let t = t.push(spec_oracle_entry("dbe_utility.get_time", FuncCategory::Scalar, FuncDomain::DbeUtility, 0, Some(0), false));
    lemma_push_keeps_products(t, spec_oracle_entry("dbe_utility.is_bit_set", FuncCategory::Scalar, FuncDomain::DbeUtility, 2, Some(2), false));
    let t = t.push(spec_oracle_entry("dbe_utility.is_bit_set", FuncCategory::Scalar, FuncDomain::DbeUtility, 2, Some(2), false));
    lemma_push_keeps_products(t, spec_oracle_entry("dbe_utility.is_cluster_database", FuncCategory::Scalar, FuncDomain::DbeUtility, 0, Some(0), false));
    let t = t.push(spec_oracle_entry("dbe_utility.is_cluster_database", FuncCategory::Scalar, FuncDomain::DbeUtility, 0, Some(0), false));
    lemma_push_keeps_products(t, spec_oracle_entry("dbe_utility.name_resolve", FuncCategory::Scalar, FuncDomain::DbeUtility, 8, Some(8), false));
    let t = t.push(spec_oracle_entry("dbe_utility.name_resolve", FuncCategory::Scalar, FuncDomain::DbeUtility, 8, Some(8), false));
    lemma_push_keeps_products(t, spec_oracle_entry("dbe_utility.name_tokenize", FuncCategory::Scalar, FuncDomain::DbeUtility, 6, Some(6), false));
    let t = t.push(spec_oracle_entry("dbe_utility.name_tokenize", FuncCategory::Scalar, FuncDomain::DbeUtility, 6, Some(6), false));
    lemma_push_keeps_products(t, spec_oracle_entry("dbe_utility.old_current_schema", FuncCategory::Scalar, FuncDomain::DbeUtility, 0, Some(0), false));
    let t = t.push(spec_oracle_entry("dbe_utility.old_current_schema", FuncCategory::Scalar, FuncDomain::DbeUtility, 0, Some(0), false));
    lemma_push_keeps_products(t, spec_oracle_entry("dbe_utility.old_current_user", FuncCategory::Scalar, FuncDomain::DbeUtility, 0, Some(0), false));
    let t = t.push(spec_oracle_entry("dbe_utility.old_current_user", FuncCategory::Scalar, FuncDomain::DbeUtility, 0, Some(0), false));
    lemma_push_keeps_products(t, spec_oracle_entry("dbe_utility.table_to_comma", FuncCategory::Scalar, FuncDomain::DbeUtility, 3, Some(3), false));
    let t = t.push(spec_oracle_entry("dbe_utility.table_to_comma", FuncCategory::Scalar, FuncDomain::DbeUtility, 3, Some(3), false));
    lemma_push_keeps_products(t, spec_commercial_oracle_entry("dbe_xmldom.appendchild", FuncCategory::Scalar, FuncDomain::DbeXmlDom, 2, Some(2), false));
    let t = t.push(spec_commercial_oracle_entry("dbe_xmldom.appendchild", FuncCategory::Scalar, FuncDomain::DbeXmlDom, 2, Some(2), false));
    lemma_push_keeps_products(t, spec_commercial_oracle_entry("dbe_xmldom.createelement", FuncCategory::Scalar, FuncDomain::DbeXmlDom, 2, Some(3), false));
    let t = t.push(spec_commercial_oracle_entry("dbe_xmldom.createelement", FuncCategory::Scalar, FuncDomain::DbeXmlDom, 2, Some(3), false));
    lemma_push_keeps_products(t, spec_commercial_oracle_entry("dbe_xmldom.createtextnode", FuncCategory::Scalar, FuncDomain::DbeXmlDom, 2, Some(2), false));
    let t = t.push(spec_commercial_oracle_entry("dbe_xmldom.createtextnode", FuncCategory::Scalar, FuncDomain::DbeXmlDom, 2, Some(2), false));
    lemma_push_keeps_products(t, spec_commercial_oracle_entry("dbe_xmldom.freedocument", FuncCategory::Scalar, FuncDomain::DbeXmlDom, 1, Some(1), false));
    let t = t.push(spec_commercial_oracle_entry("dbe_xmldom.freedocument", FuncCategory::Scalar, FuncDomain::DbeXmlDom, 1, Some(1), false));
    lemma_push_keeps_products(t, spec_commercial_oracle_entry("dbe_xmldom.freeelement", FuncCategory::Scalar, FuncDomain::DbeXmlDom, 1, Some(1), false));
    let t = t.push(spec_commercial_oracle_entry("dbe_xmldom.freeelement", FuncCategory::Scalar, FuncDomain::DbeXmlDom, 1, Some(1), false));
    lemma_push_keeps_products(t, spec_commercial_oracle_entry("dbe_xmldom.freenode", FuncCategory::Scalar, FuncDomain::DbeXmlDom, 1, Some(1), false));
    let t = t.push(spec_commercial_oracle_entry("dbe_xmldom.freenode", FuncCategory::Scalar, FuncDomain::DbeXmlDom, 1, Some(1), false));
    lemma_push_keeps_products(t, spec_commercial_oracle_entry("dbe_xmldom.freenodelist", FuncCategory::Scalar, FuncDomain::DbeXmlDom, 1, Some(1), false));
    let t = t.push(spec_commercial_oracle_entry("dbe_xmldom.freenodelist", FuncCategory::Scalar, FuncDomain::DbeXmlDom, 1, Some(1), false));
    assert(t == table_part_3(s));
}

proof fn lemma_part_4_products(s: Seq<FuncMeta>)
    requires
        names_products(s),
    ensures
        names_products(table_part_4(s)),
{
    let t = s;
    lemma_push_keeps_products(t, spec_commercial_oracle_entry("dbe_xmldom.getattribute", FuncCategory::Scalar, FuncDomain::DbeXmlDom, 2, Some(3), false));
    let t = t.push(spec_commercial_oracle_entry("dbe_xmldom.getattribute", FuncCategory::Scalar, FuncDomain::DbeXmlDom, 2, Some(3), false));
    lemma_push_keeps_products(t, spec_commercial_oracle_entry("dbe_xmldom.getattributes", FuncCategory::Scalar, FuncDomain::DbeXmlDom, 1, Some(1), false));
    let t = t.push(spec_commercial_oracle_entry("dbe_xmldom.getattributes", FuncCategory::Scalar, FuncDomain::DbeXmlDom, 1, Some(1), false));
    lemma_push_keeps_products(t, spec_commercial_oracle_entry("dbe_xmldom.getchildnodes", FuncCategory::Scalar, FuncDomain::DbeXmlDom, 1, Some(1), false));
    let t = t.push(spec_commercial_oracle_entry("dbe_xmldom.getchildnodes", FuncCategory::Scalar, FuncDomain::DbeXmlDom, 1, Some(1), false));
    lemma_push_keeps_products(t, spec_commercial_oracle_entry("dbe_xmldom.getchildrenbytagname", FuncCategory::Scalar, FuncDomain::DbeXmlDom, 2, Some(3), false));
    let t = t.push(spec_commercial_oracle_entry("dbe_xmldom.getchildrenbytagname", FuncCategory::Scalar, FuncDomain::DbeXmlDom, 2, Some(3), false));
    lemma_push_keeps_products(t, spec_commercial_oracle_entry("dbe_xmldom.getdocumentelement", FuncCategory::Scalar, FuncDomain::DbeXmlDom, 1, Some(1), false));
    let t = t.push(spec_commercial_oracle_entry("dbe_xmldom.getdocumentelement", FuncCategory::Scalar, FuncDomain::DbeXmlDom, 1, Some(1), false));
    lemma_push_keeps_products(t, spec_commercial_oracle_entry("dbe_xmldom.getfirstchild", FuncCategory::Scalar, FuncDomain::DbeXmlDom, 1, Some(1), false));
    let t = t.push(spec_commercial_oracle_entry("dbe_xmldom.getfirstchild", FuncCategory::Scalar, FuncDomain::DbeXmlDom, 1, Some(1), false));
    lemma_push_keeps_products(t, spec_commercial_oracle_entry("dbe_xmldom.getlastchild", FuncCategory::Scalar, FuncDomain::DbeXmlDom, 1, Some(1), false));
    let t = t.push(spec_commercial_oracle_entry("dbe_xmldom.getlastchild", FuncCategory::Scalar, FuncDomain::DbeXmlDom, 1, Some(1), false));
    lemma_push_keeps_products(t, spec_commercial_oracle_entry("dbe_xmldom.getlength", FuncCategory::Scalar, FuncDomain::DbeXmlDom, 1, Some(1), false));
    let t = t.push(spec_commercial_oracle_entry("dbe_xmldom.getlength", FuncCategory::Scalar, FuncDomain::DbeXmlDom, 1, Some(1), false));
    lemma_push_keeps_products(t, spec_commercial_oracle_entry("dbe_xmldom.getlocalname", FuncCategory::Scalar, FuncDomain::DbeXmlDom, 1, Some(2), false));
    let t = t.push(spec_commercial_oracle_entry("dbe_xmldom.getlocalname", FuncCategory::Scalar, FuncDomain::DbeXmlDom, 1, Some(2), false));
    lemma_push_keeps_products(t, spec_commercial_oracle_entry("dbe_xmldom.getnameditem", FuncCategory::Scalar, FuncDomain::DbeXmlDom, 2, Some(3), false));
    let t = t.push(spec_commercial_oracle_entry("dbe_xmldom.getnameditem", FuncCategory::Scalar, FuncDomain::DbeXmlDom, 2, Some(3), false));
    lemma_push_keeps_products(t, spec_commercial_oracle_entry("dbe_xmldom.getnextsibling", FuncCategory::Scalar, FuncDomain::DbeXmlDom, 1, Some(1), false));
    let t = t.push(spec_commercial_oracle_entry("dbe_xmldom.getnextsibling", FuncCategory::Scalar, FuncDomain::DbeXmlDom, 1, Some(1), false));
    lemma_push_keeps_products(t, spec_commercial_oracle_entry("dbe_xmldom.getnodename", FuncCategory::Scalar, FuncDomain::DbeXmlDom, 1, Some(1), false));
    let t = t.push(spec_commercial_oracle_entry("dbe_xmldom.getnodename", FuncCategory::Scalar, FuncDomain::DbeXmlDom, 1, Some(1), false));
    lemma_push_keeps_products(t, spec_commercial_oracle_entry("dbe_xmldom.getnodetype", FuncCategory::Scalar, FuncDomain::DbeXmlDom, 1, Some(1), false));
    let t = t.push(spec_commercial_oracle_entry("dbe_xmldom.getnodetype", FuncCategory::Scalar, FuncDomain::DbeXmlDom, 1, Some(1), false));
    lemma_push_keeps_products(t, spec_commercial_oracle_entry("dbe_xmldom.getnodevalue", FuncCategory::Scalar, FuncDomain::DbeXmlDom, 1, Some(1), false));
    let t = t.push(spec_commercial_oracle_entry("dbe_xmldom.getnodevalue", FuncCategory::Scalar, FuncDomain::DbeXmlDom, 1, Some(1), false));
    lemma_push_keeps_products(t, spec_commercial_oracle_entry("dbe_xmldom.getparentnode", FuncCategory::Scalar, FuncDomain::DbeXmlDom, 1, Some(1), false));
    let t = t.push(spec_commercial_oracle_entry("dbe_xmldom.getparentnode", FuncCategory::Scalar, FuncDomain::DbeXmlDom, 1, Some(1), false));
    lemma_push_keeps_products(t, spec_commercial_oracle_entry("dbe_xmldom.gettagname", FuncCategory::Scalar, FuncDomain::DbeXmlDom, 1, Some(1), false));
    let t = t.push(spec_commercial_oracle_entry("dbe_xmldom.gettagname", FuncCategory::Scalar, FuncDomain::DbeXmlDom, 1, Some(1), false));
    lemma_push_keeps_products(t, spec_commercial_oracle_entry("dbe_xmldom.haschildnodes", FuncCategory::Scalar, FuncDomain::DbeXmlDom, 1, Some(1), false));
    let t = t.push(spec_commercial_oracle_entry("dbe_xmldom.haschildnodes", FuncCategory::Scalar, FuncDomain::DbeXmlDom, 1, Some(1), false));
    lemma_push_keeps_products(t, spec_commercial_oracle_entry("dbe_xmldom.importnode", FuncCategory::Scalar, FuncDomain::DbeXmlDom, 3, Some(3), false));
    let t = t.push(spec_commercial_oracle_entry("dbe_xmldom.importnode", FuncCategory::Scalar, FuncDomain::DbeXmlDom, 3, Some(3), false));
    lemma_push_keeps_products(t, spec_commercial_oracle_entry("dbe_xmldom.isnull", FuncCategory::Scalar, FuncDomain::DbeXmlDom, 1, Some(1), false));
    let t = t.push(spec_commercial_oracle_entry("dbe_xmldom.isnull", FuncCategory::Scalar, FuncDomain::DbeXmlDom, 1, Some(1), false));
    lemma_push_keeps_products(t, spec_commercial_oracle_entry("dbe_xmldom.item", FuncCategory::Scalar, FuncDomain::DbeXmlDom, 2, Some(2), false));
    let t = t.push(spec_commercial_oracle_entry("dbe_xmldom.item", FuncCategory::Scalar, FuncDomain::DbeXmlDom, 2, Some(2), false));
    lemma_push_keeps_products(t, spec_commercial_oracle_entry("dbe_xmldom.makeelement", FuncCategory::Scalar, FuncDomain::DbeXmlDom, 1, Some(1), false));
    let t = t.push(spec_commercial_oracle_entry("dbe_xmldom.makeelement", FuncCategory::Scalar, FuncDomain::DbeXmlDom, 1, Some(1), false));
    lemma_push_keeps_products(t, spec_commercial_oracle_entry("dbe_xmldom.makenode", FuncCategory::Scalar, FuncDomain::DbeXmlDom, 1, Some(1), false));
    let t = t.push(spec_commercial_oracle_entry("dbe_xmldom.makenode", FuncCategory::Scalar, FuncDomain::DbeXmlDom, 1, Some(1), false));
    lemma_push_keeps_products(t, spec_commercial_oracle_entry("dbe_xmldom.newdomdocument", FuncCategory::Scalar, FuncDomain::DbeXmlDom, 0, Some(1), false));
    let t = t.push(spec_commercial_oracle_entry("dbe_xmldom.newdomdocument", FuncCategory::Scalar, FuncDomain::DbeXmlDom, 0, Some(1), false));
    lemma_push_keeps_products(t, spec_commercial_oracle_entry("dbe_xmldom.setattribute", FuncCategory::Scalar, FuncDomain::DbeXmlDom, 2, Some(4), false));
    let t = t.push(spec_commercial_oracle_entry("dbe_xmldom.setattribute", FuncCategory::Scalar, FuncDomain::DbeXmlDom, 2, Some(4), false));
    lemma_push_keeps_products(t, spec_commercial_oracle_entry("dbe_xmldom.setcharset", FuncCategory::Scalar, FuncDomain::DbeXmlDom, 2, Some(2), false));
    let t = t.push(spec_commercial_oracle_entry("dbe_xmldom.setcharset", FuncCategory::Scalar, FuncDomain::DbeXmlDom, 2, Some(2), false));
    lemma_push_keeps_products(t, spec_commercial_oracle_entry("dbe_xmldom.setdoctype", FuncCategory::Scalar, FuncDomain::DbeXmlDom, 2, Some(2), false));
    let t = t.push(spec_commercial_oracle_entry("dbe_xmldom.setdoctype", FuncCategory::Scalar, FuncDomain::DbeXmlDom, 2, Some(2), false));
    lemma_push_keeps_products(t, spec_commercial_oracle_entry("dbe_xmldom.setnodevalue", FuncCategory::Scalar, FuncDomain::DbeXmlDom, 2, Some(2), false));
    let t = t.push(spec_commercial_oracle_entry("dbe_xmldom.setnodevalue", FuncCategory::Scalar, FuncDomain::DbeXmlDom, 2, Some(2), false));
    lemma_push_keeps_products(t, spec_commercial_oracle_entry("dbe_xmldom.writetobuffer", FuncCategory::Scalar, FuncDomain::DbeXmlDom, 2, Some(2), false));
    let t = t.push(spec_commercial_oracle_entry("dbe_xmldom.writetobuffer", FuncCategory::Scalar, FuncDomain::DbeXmlDom, 2, Some(2), false));
    lemma_push_keeps_products(t, spec_commercial_oracle_entry("dbe_xmldom.writetoclob", FuncCategory::Scalar, FuncDomain::DbeXmlDom, 2, Some(2), false));
    let t = t.push(spec_commercial_oracle_entry("dbe_xmldom.writetoclob", FuncCategory::Scalar, FuncDomain::DbeXmlDom, 2, Some(2), false));
    lemma_push_keeps_products(t, spec_commercial_oracle_entry("dbe_xmlparser.freeparser", FuncCategory::Scalar, FuncDomain::DbeXmlParser, 1, Some(1), false));
    let t = t.push(spec_commercial_oracle_entry("dbe_xmlparser.freeparser", FuncCategory::Scalar, FuncDomain::DbeXmlParser, 1, Some(1), false));
    lemma_push_keeps_products(t, spec_commercial_oracle_entry("dbe_xmlparser.getdocument", FuncCategory::Scalar, FuncDomain::DbeXmlParser, 1, Some(1), false));
    let t = t.push(spec_commercial_oracle_entry("dbe_xmlparser.getdocument", FuncCategory::Scalar, FuncDomain::DbeXmlParser, 1, Some(1), false));
    lemma_push_keeps_products(t, spec_commercial_oracle_entry("dbe_xmlparser.getvalidationmode", FuncCategory::Scalar, FuncDomain::DbeXmlParser, 1, Some(1), false));
    let t = t.push(spec_commercial_oracle_entry("dbe_xmlparser.getvalidationmode", FuncCategory::Scalar, FuncDomain::DbeXmlParser, 1, Some(1), false));
    lemma_push_keeps_products(t, spec_commercial_oracle_entry("dbe_xmlparser.newparser", FuncCategory::Scalar, FuncDomain::DbeXmlParser, 0, Some(0), false));
    let t = t.push(spec_commercial_oracle_entry("dbe_xmlparser.newparser", FuncCategory::Scalar, FuncDomain::DbeXmlParser, 0, Some(0), false));
    lemma_push_keeps_products(t, spec_commercial_oracle_entry("dbe_xmlparser.parsebuffer", FuncCategory::Scalar, FuncDomain::DbeXmlParser, 2, Some(2), false));
    let t = t.push(spec_commercial_oracle_entry("dbe_xmlparser.parsebuffer", FuncCategory::Scalar, FuncDomain::DbeXmlParser, 2, Some(2), false));
    lemma_push_keeps_products(t, spec_commercial_oracle_entry("dbe_xmlparser.parseclob", FuncCategory::Scalar, FuncDomain::DbeXmlParser, 2, Some(2), false));
    let t = t.push(spec_commercial_oracle_entry("dbe_xmlparser.parseclob", FuncCategory::Scalar, FuncDomain::DbeXmlParser, 2, Some(2), false));
    lemma_push_keeps_products(t, spec_commercial_oracle_entry("dbe_xmlparser.setvalidationmode", FuncCategory::Scalar, FuncDomain::DbeXmlParser, 2, Some(2), false));
    let t = t.push(spec_commercial_oracle_entry("dbe_xmlparser.setvalidationmode", FuncCategory::Scalar, FuncDomain::DbeXmlParser, 2, Some(2), false));
    lemma_push_keeps_products(t, spec_oracle_entry("dbms_lob.append", FuncCategory::Scalar, FuncDomain::DbmsLob, 2, Some(2), false));
    let t = t.push(spec_oracle_entry("dbms_lob.append", FuncCategory::Scalar, FuncDomain::DbmsLob, 2, Some(2), false));
    lemma_push_keeps_products(t, spec_oracle_entry("dbms_lob.read", FuncCategory::Scalar, FuncDomain::DbmsLob, 3, Some(3), false));
    let t = t.push(spec_oracle_entry("dbms_lob.read", FuncCategory::Scalar, FuncDomain::DbmsLob, 3, Some(3), false));
    lemma_push_keeps_products(t, spec_oracle_entry("dbms_lob.substr", FuncCategory::Scalar, FuncDomain::DbmsLob, 1, Some(3), false));
    let t = t.push(spec_oracle_entry("dbms_lob.substr", FuncCategory::Scalar, FuncDomain::DbmsLob, 1, Some(3), false));
    lemma_push_keeps_products(t, spec_oracle_entry("dbms_lob.write", FuncCategory::Scalar, FuncDomain::DbmsLob, 3, Some(3), false));
    let t = t.push(spec_oracle_entry("dbms_lob.write", FuncCategory::Scalar, FuncDomain::DbmsLob, 3, Some(3), false));
    lemma_push_keeps_products(t, spec_oracle_entry("dbms_output.disable", FuncCategory::Scalar, FuncDomain::DbmsOutput, 0, Some(0), false));
    let t = t.push(spec_oracle_entry("dbms_output.disable", FuncCategory::Scalar, FuncDomain::DbmsOutput, 0, Some(0), false));
    lemma_push_keeps_products(t, spec_oracle_entry("dbms_output.enable", FuncCategory::Scalar, FuncDomain::DbmsOutput, 0, Some(1), false));
    let t = t.push(spec_oracle_entry("dbms_output.enable", FuncCategory::Scalar, FuncDomain::DbmsOutput, 0, Some(1), false));
    lemma_push_keeps_products(t, spec_oracle_entry("dbms_output.put", FuncCategory::Scalar, FuncDomain::DbmsOutput, 1, Some(1), false));
    let t = t.push(spec_oracle_entry("dbms_output.put", FuncCategory::Scalar, FuncDomain::DbmsOutput, 1, Some(1), false));
    lemma_push_keeps_products(t, spec_oracle_entry("dbms_output.put_line", FuncCategory::Scalar, FuncDomain::DbmsOutput, 1, Some(1), false));
    let t = t.push(spec_oracle_entry("dbms_output.put_line", FuncCategory::Scalar, FuncDomain::DbmsOutput, 1, Some(1), false));
    lemma_push_keeps_products(t, spec_oracle_entry("dbms_scheduler.create_job", FuncCategory::Scalar, FuncDomain::DbmsScheduler, 1, None, false));
    let t = t.push(spec_oracle_entry("dbms_scheduler.create_job", FuncCategory::Scalar, FuncDomain::DbmsScheduler, 1, None, false));
    lemma_push_keeps_products(t, spec_oracle_entry("dbms_scheduler.drop_job", FuncCategory::Scalar, FuncDomain::DbmsScheduler, 1, None, false));
    let t = t.push(spec_oracle_entry("dbms_scheduler.drop_job", FuncCategory::Scalar, FuncDomain::DbmsScheduler, 1, None, false));
    lemma_push_keeps_products(t, spec_oracle_entry("dbms_scheduler.run_job", FuncCategory::Scalar, FuncDomain::DbmsScheduler, 1, Some(2), false));
    let t = t.push(spec_oracle_entry("dbms_scheduler.run_job", FuncCategory::Scalar, FuncDomain::DbmsScheduler, 1, Some(2), false));
    lemma_push_keeps_products(t, spec_oracle_entry("dbms_sql.close_cursor", FuncCategory::Scalar, FuncDomain::DbmsSql, 1, Some(1), false));
    let t = t.push(spec_oracle_entry("dbms_sql.close_cursor", FuncCategory::Scalar, FuncDomain::DbmsSql, 1, Some(1), false));
    lemma_push_keeps_products(t, spec_oracle_entry("dbms_sql.column_value", FuncCategory::Scalar, FuncDomain::DbmsSql, 3, Some(3), false));
    let t = t.push(spec_oracle_entry("dbms_sql.column_value", FuncCategory::Scalar, FuncDomain::DbmsSql, 3, Some(3), false));
    lemma_push_keeps_products(t, spec_oracle_entry("dbms_sql.execute", FuncCategory::Scalar, FuncDomain::DbmsSql, 1, Some(2), false));
    let t = t.push(spec_oracle_entry("dbms_sql.execute", FuncCategory::Scalar, FuncDomain::DbmsSql, 1, Some(2), false));
    lemma_push_keeps_products(t, spec_oracle_entry("dbms_sql.fetch_rows", FuncCategory::Scalar, FuncDomain::DbmsSql, 1, Some(1), false));
    let t = t.push(spec_oracle_entry("dbms_sql.fetch_rows", FuncCategory::Scalar, FuncDomain::DbmsSql, 1, Some(1), false));
    lemma_push_keeps_products(t, spec_oracle_entry("dbms_sql.open_cursor", FuncCategory::Scalar, FuncDomain::DbmsSql, 0, Some(0), false));
    let t = t.push(spec_oracle_entry("dbms_sql.open_cursor", FuncCategory::Scalar, FuncDomain::DbmsSql, 0, Some(0), false));
    lemma_push_keeps_products(t, spec_oracle_entry("dbms_utility.format_error_backtrace", FuncCategory::Scalar, FuncDomain::DbmsUtility, 0, Some(0), false));
    let t = t.push(spec_oracle_entry("dbms_utility.format_error_backtrace", FuncCategory::Scalar, FuncDomain::DbmsUtility, 0, Some(0), false));
    lemma_push_keeps_products(t, spec_oracle_entry("dbms_utility.get_time", FuncCategory::Scalar, FuncDomain::DbmsUtility, 0, Some(0), false));
    let t = t.push(spec_oracle_entry("dbms_utility.get_time", FuncCategory::Scalar, FuncDomain::DbmsUtility, 0, Some(0), false));
    lemma_push_keeps_products(t, spec_oracle_entry("decode", FuncCategory::Special, FuncDomain::OracleCompat, 2, None, false));
    let t = t.push(spec_oracle_entry("decode", FuncCategory::Special, FuncDomain::OracleCompat, 2, None, false));
    lemma_push_keeps_products(t, spec_core_entry("degrees", FuncCategory::Scalar, FuncDomain::Math, 1, Some(1), false));
    let t = t.push(spec_core_entry("degrees", FuncCategory::Scalar, FuncDomain::Math, 1, Some(1), false));
    lemma_push_keeps_products(t, spec_core_entry("dense_rank", FuncCategory::Window, FuncDomain::Window, 0, Some(0), false));
    let t = t.push(spec_core_entry("dense_rank", FuncCategory::Window, FuncDomain::Window, 0, Some(0), false));
    lemma_push_keeps_products(t, spec_core_entry("diameter", FuncCategory::Scalar, FuncDomain::Geometric, 1, Some(1), false));
    let t = t.push(spec_core_entry("diameter", FuncCategory::Scalar, FuncDomain::Geometric, 1, Some(1), false));
    lemma_push_keeps_products(t, spec_core_entry("digest", FuncCategory::Scalar, FuncDomain::Crypto, 2, Some(2), false));
    let t = t.push(spec_core_entry("digest", FuncCategory::Scalar, FuncDomain::Crypto, 2, Some(2), false));
    lemma_push_keeps_products(t, spec_core_entry("div", FuncCategory::Scalar, FuncDomain::Math, 2, Some(2), false));
    let t = t.push(spec_core_entry("div", FuncCategory::Scalar, FuncDomain::Math, 2, Some(2), false));
    lemma_push_keeps_products(t, spec_oracle_entry("dump", FuncCategory::Scalar, FuncDomain::String, 1, Some(4), false));
    let t = t.push(spec_oracle_entry("dump", FuncCategory::Scalar, FuncDomain::String, 1, Some(4), false));
    lemma_push_keeps_products(t, spec_commercial_entry("empty_blob", FuncCategory::Scalar, FuncDomain::Other, 0, Some(0), false));
    let t = t.push(spec_commercial_entry("empty_blob", FuncCategory::Scalar, FuncDomain::Other, 0, Some(0), false));
    lemma_push_keeps_products(t, spec_commercial_entry("empty_clob", FuncCategory::Scalar, FuncDomain::Other, 0, Some(0), false));
    let t = t.push(spec_commercial_entry("empty_clob", FuncCategory::Scalar, FuncDomain::Other, 0, Some(0), false));
    lemma_push_keeps_products(t, spec_core_entry("encode", FuncCategory::Scalar, FuncDomain::String, 2, Some(2), false));
    let t = t.push(spec_core_entry("encode", FuncCategory::Scalar, FuncDomain::String, 2, Some(2), false));
    lemma_push_keeps_products(t, spec_core_entry("every", FuncCategory::Aggregate, FuncDomain::Aggregate, 1, Some(1), true));
    let t = t.push(spec_core_entry("every", FuncCategory::Aggregate, FuncDomain::Aggregate, 1, Some(1), true));
    lemma_push_keeps_products(t, spec_oracle_entry("existsnode", FuncCategory::Scalar, FuncDomain::Xml, 2, Some(3), false));
    let t = t.push(spec_oracle_entry("existsnode", FuncCategory::Scalar, FuncDomain::Xml, 2, Some(3), false));
    lemma_push_keeps_products(t, spec_core_entry("exp", FuncCategory::Scalar, FuncDomain::Math, 1, Some(1), false));
    let t = t.push(spec_core_entry("exp", FuncCategory::Scalar, FuncDomain::Math, 1, Some(1), false));
    lemma_push_keeps_products(t, spec_core_entry("extract", FuncCategory::Scalar, FuncDomain::DateTime, 2, Some(2), false));
    let t = t.push(spec_core_entry("extract", FuncCategory::Scalar, FuncDomain::DateTime, 2, Some(2), false));
    lemma_push_keeps_products(t, spec_oracle_entry("extractvalue", FuncCategory::Scalar, FuncDomain::Xml, 2, Some(3), false));
    let t = t.push(spec_oracle_entry("extractvalue", FuncCategory::Scalar, FuncDomain::Xml, 2, Some(3), false));
    lemma_push_keeps_products(t, spec_oracle_entry("extractxml", FuncCategory::Scalar, FuncDomain::Xml, 2, Some(3), false));
    let t = t.push(spec_oracle_entry("extractxml", FuncCategory::Scalar, FuncDomain::Xml, 2, Some(3), false));
    lemma_push_keeps_products(t, spec_core_entry("factorial", FuncCategory::Scalar, FuncDomain::Math, 1, Some(1), false));
    let t = t.push(spec_core_entry("factorial", FuncCategory::Scalar, FuncDomain::Math, 1, Some(1), false));
    lemma_push_keeps_products(t, spec_core_entry("family", FuncCategory::Scalar, FuncDomain::Network, 1, Some(1), false));
    let t = t.push(spec_core_entry("family", FuncCategory::Scalar, FuncDomain::Network, 1, Some(1), false));
    lemma_push_keeps_products(t, spec_core_entry("find_in_set", FuncCategory::Scalar, FuncDomain::String, 2, Some(2), false));
    let t = t.push(spec_core_entry("find_in_set", FuncCategory::Scalar, FuncDomain::String, 2, Some(2), false));
    lemma_push_keeps_products(t, spec_core_entry("first_value", FuncCategory::Window, FuncDomain::Window, 1, Some(1), false));
    let t = t.push(spec_core_entry("first_value", FuncCategory::Window, FuncDomain::Window, 1, Some(1), false));
    lemma_push_keeps_products(t, spec_core_entry("floor", FuncCategory::Scalar, FuncDomain::Math, 1, Some(1), false));
    let t = t.push(spec_core_entry("floor", FuncCategory::Scalar, FuncDomain::Math, 1, Some(1), false));
    lemma_push_keeps_products(t, spec_core_entry("format", FuncCategory::Scalar, FuncDomain::String, 2, None, false));
    let t = t.push(spec_core_entry("format", FuncCategory::Scalar, FuncDomain::String, 2, None, false));
    lemma_push_keeps_products(t, spec_core_entry("format_type", FuncCategory::Scalar, FuncDomain::System, 1, Some(2), false));
    let t = t.push(spec_core_entry("format_type", FuncCategory::Scalar, FuncDomain::System, 1, Some(2), false));
    lemma_push_keeps_products(t, spec_commercial_entry("from_days", FuncCategory::Scalar, FuncDomain::DateTime, 1, Some(1), false));
    let t = t.push(spec_commercial_entry("from_days", FuncCategory::Scalar, FuncDomain::DateTime, 1, Some(1), false));
    lemma_push_keeps_products(t, spec_commercial_entry("from_unixtime", FuncCategory::Scalar, FuncDomain::DateTime, 1, Some(2), false));
    let t = t.push(spec_commercial_entry("from_unixtime", FuncCategory::Scalar, FuncDomain::DateTime, 1, Some(2), false));
    lemma_push_keeps_products(t, spec_core_entry("gcd", FuncCategory::Scalar, FuncDomain::Math, 2, Some(2), false));
    let t = t.push(spec_core_entry("gcd", FuncCategory::Scalar, FuncDomain::Math, 2, Some(2), false));
    lemma_push_keeps_products(t, spec_core_entry("gen_random_uuid", FuncCategory::Scalar, FuncDomain::Crypto, 0, Some(0), false));
    let t = t.push(spec_core_entry("gen_random_uuid", FuncCategory::Scalar, FuncDomain::Crypto, 0, Some(0), false));
    lemma_push_keeps_products(t, spec_core_entry("generate_series", FuncCategory::SetReturning, FuncDomain::Other, 2, Some(3), false));
    let t = t.push(spec_core_entry("generate_series", FuncCategory::SetReturning, FuncDomain::Other, 2, Some(3), false));
    lemma_push_keeps_products(t, spec_core_entry("generate_subscripts", FuncCategory::SetReturning, FuncDomain::Array, 2, Some(3), false));
    let t = t.push(spec_core_entry("generate_subscripts", FuncCategory::SetReturning, FuncDomain::Array, 2, Some(3), false));
    lemma_push_keeps_products(t, spec_core_entry("get_bit", FuncCategory::Scalar, FuncDomain::String, 2, Some(2), false));
    let t = t.push(spec_core_entry("get_bit", FuncCategory::Scalar, FuncDomain::String, 2, Some(2), false));
    lemma_push_keeps_products(t, spec_core_entry("get_byte", FuncCategory::Scalar, FuncDomain::String, 2, Some(2), false));
    let t = t.push(spec_core_entry("get_byte", FuncCategory::Scalar, FuncDomain::String, 2, Some(2), false));
    lemma_push_keeps_products(t, spec_core_entry("get_current_ts_config", FuncCategory::Scalar, FuncDomain::TextSearch, 0, Some(0), false));
    let t = t.push(spec_core_entry("get_current_ts_config", FuncCategory::Scalar, FuncDomain::TextSearch, 0, Some(0), false));
    lemma_push_keeps_products(t, spec_oracle_entry("getblobval", FuncCategory::Scalar, FuncDomain::Xml, 1, Some(1), false));
    let t = t.push(spec_oracle_entry("getblobval", FuncCategory::Scalar, FuncDomain::Xml, 1, Some(1), false));
    lemma_push_keeps_products(t, spec_oracle_entry("getclobval", FuncCategory::Scalar, FuncDomain::Xml, 1, Some(1), false));
    let t = t.push(spec_oracle_entry("getclobval", FuncCategory::Scalar, FuncDomain::Xml, 1, Some(1), false));
    lemma_push_keeps_products(t, spec_oracle_entry("getnamespace", FuncCategory::Scalar, FuncDomain::Xml, 1, Some(1), false));
    let t = t.push(spec_oracle_entry("getnamespace", FuncCategory::Scalar, FuncDomain::Xml, 1, Some(1), false));
    lemma_push_keeps_products(t, spec_oracle_entry("getnumberval", FuncCategory::Scalar, FuncDomain::Xml, 1, Some(1), false));
    let t = t.push(spec_oracle_entry("getnumberval", FuncCategory::Scalar, FuncDomain::Xml, 1, Some(1), false));
    lemma_push_keeps_products(t, spec_oracle_entry("getrootelement", FuncCategory::Scalar, FuncDomain::Xml, 1, Some(1), false));
    let t = t.push(spec_oracle_entry("getrootelement", FuncCategory::Scalar, FuncDomain::Xml, 1, Some(1), false));
    lemma_push_keeps_products(t, spec_oracle_entry("getstringval", FuncCategory::Scalar, FuncDomain::Xml, 1, Some(1), false));
    let t = t.push(spec_oracle_entry("getstringval", FuncCategory::Scalar, FuncDomain::Xml, 1, Some(1), false));
    lemma_push_keeps_products(t, spec_core_entry("greatest", FuncCategory::Special, FuncDomain::Other, 2, None, false));
    let t = t.push(spec_core_entry("greatest", FuncCategory::Special, FuncDomain::Other, 2, None, false));
    lemma_push_keeps_products(t, spec_oracle_entry("group_concat", FuncCategory::Aggregate, FuncDomain::String, 1, None, true));
    let t = t.push(spec_oracle_entry("group_concat", FuncCategory::Aggregate, FuncDomain::String, 1, None, true));
    lemma_push_keeps_products(t, spec_core_entry("gs_decrypt", FuncCategory::Scalar, FuncDomain::Crypto, 3, Some(3), false));
    let t = t.push(spec_core_entry("gs_decrypt", FuncCategory::Scalar, FuncDomain::Crypto, 3, Some(3), false));
    lemma_push_keeps_products(t, spec_core_entry("gs_decrypt_aes128", FuncCategory::Scalar, FuncDomain::Crypto, 2, Some(2), false));
    let t = t.push(spec_core_entry("gs_decrypt_aes128", FuncCategory::Scalar, FuncDomain::Crypto, 2, Some(2), false));
    lemma_push_keeps_products(t, spec_core_entry("gs_encrypt", FuncCategory::Scalar, FuncDomain::Crypto, 3, Some(3), false));
    let t = t.push(spec_core_entry("gs_encrypt", FuncCategory::Scalar, FuncDomain::Crypto, 3, Some(3), false));
    lemma_push_keeps_products(t, spec_core_entry("gs_encrypt_aes128", FuncCategory::Scalar, FuncDomain::Crypto, 2, Some(2), false));
    let t = t.push(spec_core_entry("gs_encrypt_aes128", FuncCategory::Scalar, FuncDomain::Crypto, 2, Some(2), false));
    lemma_push_keeps_products(t, spec_core_entry("has_schema_privilege", FuncCategory::Scalar, FuncDomain::System, 2, Some(4), false));
    let t = t.push(spec_core_entry("has_schema_privilege", FuncCategory::Scalar, FuncDomain::System, 2, Some(4), false));
    lemma_push_keeps_products(t, spec_core_entry("has_table_privilege", FuncCategory::Scalar, FuncDomain::System, 2, Some(4), false));
    let t = t.push(spec_core_entry("has_table_privilege", FuncCategory::Scalar, FuncDomain::System, 2, Some(4), false));
    lemma_push_keeps_products(t, spec_core_entry("hextoraw", FuncCategory::Scalar, FuncDomain::TypeConversion, 1, Some(1), false));
    let t = t.push(spec_core_entry("hextoraw", FuncCategory::Scalar, FuncDomain::TypeConversion, 1, Some(1), false));
    lemma_push_keeps_products(t, spec_core_entry("host", FuncCategory::Scalar, FuncDomain::Network, 1, Some(1), false));
    let t = t.push(spec_core_entry("host", FuncCategory::Scalar, FuncDomain::Network, 1, Some(1), false));
    lemma_push_keeps_products(t, spec_core_entry("hostmask", FuncCategory::Scalar, FuncDomain::Network, 1, Some(1), false));
    let t = t.push(spec_core_entry("hostmask", FuncCategory::Scalar, FuncDomain::Network, 1, Some(1), false));
    lemma_push_keeps_products(t, spec_commercial_entry("ifnull", FuncCategory::Special, FuncDomain::OracleCompat, 2, Some(2), false));
    let t = t.push(spec_commercial_entry("ifnull", FuncCategory::Special, FuncDomain::OracleCompat, 2, Some(2), false));
    lemma_push_keeps_products(t, spec_core_entry("inet_client_addr", FuncCategory::Scalar, FuncDomain::System, 0, Some(0), false));
    let t = t.push(spec_core_entry("inet_client_addr", FuncCategory::Scalar, FuncDomain::System, 0, Some(0), false));
    lemma_push_keeps_products(t, spec_core_entry("inet_client_port", FuncCategory::Scalar, FuncDomain::System, 0, Some(0), false));
    let t = t.push(spec_core_entry("inet_client_port", FuncCategory::Scalar, FuncDomain::System, 0, Some(0), false));
    lemma_push_keeps_products(t, spec_core_entry("inet_server_addr", FuncCategory::Scalar, FuncDomain::System, 0, Some(0), false));
    let t = t.push(spec_core_entry("inet_server_addr", FuncCategory::Scalar, FuncDomain::System, 0, Some(0), false));
    lemma_push_keeps_products(t, spec_core_entry("inet_server_port", FuncCategory::Scalar, FuncDomain::System, 0, Some(0), false));
    let t = t.push(spec_core_entry("inet_server_port", FuncCategory::Scalar, FuncDomain::System, 0, Some(0), false));
    lemma_push_keeps_products(t, spec_core_entry("initcap", FuncCategory::Scalar, FuncDomain::String, 1, Some(1), false));
    let t = t.push(spec_core_entry("initcap", FuncCategory::Scalar, FuncDomain::String, 1, Some(1), false));
    lemma_push_keeps_products(t, spec_oracle_entry("instr", FuncCategory::Scalar, FuncDomain::String, 2, Some(4), false));
    let t = t.push(spec_oracle_entry("instr", FuncCategory::Scalar, FuncDomain::String, 2, Some(4), false));
    lemma_push_keeps_products(t, spec_oracle_entry("instrb", FuncCategory::Scalar, FuncDomain::String, 2, Some(4), false));
    let t = t.push(spec_oracle_entry("instrb", FuncCategory::Scalar, FuncDomain::String, 2, Some(4), false));
    lemma_push_keeps_products(t, spec_oracle_entry("intervaltonum", FuncCategory::Scalar, FuncDomain::TypeConversion, 1, Some(1), false));
    let t = t.push(spec_oracle_entry("intervaltonum", FuncCategory::Scalar, FuncDomain::TypeConversion, 1, Some(1), false));
    lemma_push_keeps_products(t, spec_core_entry("isfinite", FuncCategory::Scalar, FuncDomain::DateTime, 1, Some(1), false));
    let t = t.push(spec_core_entry("isfinite", FuncCategory::Scalar, FuncDomain::DateTime, 1, Some(1), false));
    lemma_push_keeps_products(t, spec_oracle_entry("isfragment", FuncCategory::Scalar, FuncDomain::Xml, 1, Some(1), false));
    let t = t.push(spec_oracle_entry("isfragment", FuncCategory::Scalar, FuncDomain::Xml, 1, Some(1), false));
    lemma_push_keeps_products(t, spec_core_entry("json", FuncCategory::TypeConstructor, FuncDomain::Json, 0, Some(1), false));
    let t = t.push(spec_core_entry("json", FuncCategory::TypeConstructor, FuncDomain::Json, 0, Some(1), false));
    lemma_push_keeps_products(t, spec_core_entry("json_agg", FuncCategory::Aggregate, FuncDomain::Json, 1, Some(1), true));
    let t = t.push(spec_core_entry("json_agg", FuncCategory::Aggregate, FuncDomain::Json, 1, Some(1), true));
    lemma_push_keeps_products(t, spec_core_entry("json_append", FuncCategory::Scalar, FuncDomain::Json, 2, None, false));
    let t = t.push(spec_core_entry("json_append", FuncCategory::Scalar, FuncDomain::Json, 2, None, false));
    lemma_push_keeps_products(t, spec_commercial_entry("json_array", FuncCategory::Scalar, FuncDomain::Json, 0, None, false));
    let t = t.push(spec_commercial_entry("json_array", FuncCategory::Scalar, FuncDomain::Json, 0, None, false));
    lemma_push_keeps_products(t, spec_core_entry("json_array_element", FuncCategory::Scalar, FuncDomain::Json, 2, Some(2), false));
    let t = t.push(spec_core_entry("json_array_element", FuncCategory::Scalar, FuncDomain::Json, 2, Some(2), false));
    lemma_push_keeps_products(t, spec_core_entry("json_array_element_text", FuncCategory::Scalar, FuncDomain::Json, 2, Some(2), false));
    let t = t.push(spec_core_entry("json_array_element_text", FuncCategory::Scalar, FuncDomain::Json, 2, Some(2), false));
    lemma_push_keeps_products(t, spec_core_entry("json_array_elements", FuncCategory::SetReturning, FuncDomain::Json, 1, Some(1), false));
    let t = t.push(spec_core_entry("json_array_elements", FuncCategory::SetReturning, FuncDomain::Json, 1, Some(1), false));
    lemma_push_keeps_products(t, spec_core_entry("json_array_length", FuncCategory::Scalar, FuncDomain::Json, 1, Some(1), false));
    let t = t.push(spec_core_entry("json_array_length", FuncCategory::Scalar, FuncDomain::Json, 1, Some(1), false));
    lemma_push_keeps_products(t, spec_core_entry("json_build_array", FuncCategory::Scalar, FuncDomain::Json, 0, None, false));
    let t = t.push(spec_core_entry("json_build_array", FuncCategory::Scalar, FuncDomain::Json, 0, None, false));
    lemma_push_keeps_products(t, spec_core_entry("json_build_object", FuncCategory::Scalar, FuncDomain::Json, 0, None, false));
    let t = t.push(spec_core_entry("json_build_object", FuncCategory::Scalar, FuncDomain::Json, 0, None, false));
    lemma_push_keeps_products(t, spec_commercial_entry("json_contains", FuncCategory::Scalar, FuncDomain::Json, 2, Some(3), false));
    let t = t.push(spec_commercial_entry("json_contains", FuncCategory::Scalar, FuncDomain::Json, 2, Some(3), false));
    assert(t == table_part_4(s));
}

proof fn lemma_part_5_products(s: Seq<FuncMeta>)
    requires
        names_products(s),
    ensures
        names_products(table_part_5(s)),
{
    let t = s;
    lemma_push_keeps_products(t, spec_commercial_entry("json_contains_path", FuncCategory::Scalar, FuncDomain::Json, 2, Some(3), false));
    let t = t.push(spec_commercial_entry("json_contains_path", FuncCategory::Scalar, FuncDomain::Json, 2, Some(3), false));
    lemma_push_keeps_products(t, spec_commercial_entry("json_depth", FuncCategory::Scalar, FuncDomain::Json, 1, Some(1), false));
    let t = t.push(spec_commercial_entry("json_depth", FuncCategory::Scalar, FuncDomain::Json, 1, Some(1), false));
    lemma_push_keeps_products(t, spec_core_entry("json_each", FuncCategory::SetReturning, FuncDomain::Json, 1, Some(1), false));
    let t = t.push(spec_core_entry("json_each", FuncCategory::SetReturning, FuncDomain::Json, 1, Some(1), false));
    lemma_push_keeps_products(t, spec_core_entry("json_each_text", FuncCategory::SetReturning, FuncDomain::Json, 1, Some(1), false));
    let t = t.push(spec_core_entry("json_each_text", FuncCategory::SetReturning, FuncDomain::Json, 1, Some(1), false));
    lemma_push_keeps_products(t, spec_core_entry("json_extract_path", FuncCategory::Scalar, FuncDomain::Json, 1, None, false));
    let t = t.push(spec_core_entry("json_extract_path", FuncCategory::Scalar, FuncDomain::Json, 1, None, false));
    lemma_push_keeps_products(t, spec_core_entry("json_extract_path_text", FuncCategory::Scalar, FuncDomain::Json, 1, None, false));
    let t = t.push(spec_core_entry("json_extract_path_text", FuncCategory::Scalar, FuncDomain::Json, 1, None, false));
    lemma_push_keeps_products(t, spec_commercial_entry("json_keys", FuncCategory::Scalar, FuncDomain::Json, 1, Some(2), false));
    let t = t.push(spec_commercial_entry("json_keys", FuncCategory::Scalar, FuncDomain::Json, 1, Some(2), false));
    lemma_push_keeps_products(t, spec_commercial_entry("json_length", FuncCategory::Scalar, FuncDomain::Json, 1, Some(2), false));
    let t = t.push(spec_commercial_entry("json_length", FuncCategory::Scalar, FuncDomain::Json, 1, Some(2), false));
    lemma_push_keeps_products(t, spec_commercial_entry("json_merge", FuncCategory::Scalar, FuncDomain::Json, 2, None, false));
    let t = t.push(spec_commercial_entry("json_merge", FuncCategory::Scalar, FuncDomain::Json, 2, None, false));
    lemma_push_keeps_products(t, spec_core_entry("json_object", FuncCategory::Scalar, FuncDomain::Json, 1, None, true));
    let t = t.push(spec_core_entry("json_object", FuncCategory::Scalar, FuncDomain::Json, 1, None, true));
    lemma_push_keeps_products(t, spec_core_entry("json_object_agg", FuncCategory::Aggregate, FuncDomain::Json, 2, Some(2), true));
    let t = t.push(spec_core_entry("json_object_agg", FuncCategory::Aggregate, FuncDomain::Json, 2, Some(2), true));
    lemma_push_keeps_products(t, spec_core_entry("json_object_field", FuncCategory::Scalar, FuncDomain::Json, 2, Some(2), false));
    let t = t.push(spec_core_entry("json_object_field", FuncCategory::Scalar, FuncDomain::Json, 2, Some(2), false));
    lemma_push_keeps_products(t, spec_core_entry("json_object_field_text", FuncCategory::Scalar, FuncDomain::Json, 2, Some(2), false));
    let t = t.push(spec_core_entry("json_object_field_text", FuncCategory::Scalar, FuncDomain::Json, 2, Some(2), false));
    lemma_push_keeps_products(t, spec_core_entry("json_object_keys", FuncCategory::SetReturning, FuncDomain::Json, 1, Some(1), false));
    let t = t.push(spec_core_entry("json_object_keys", FuncCategory::SetReturning, FuncDomain::Json, 1, Some(1), false));
    lemma_push_keeps_products(t, spec_commercial_entry("json_quote", FuncCategory::Scalar, FuncDomain::Json, 1, Some(1), false));
    let t = t.push(spec_commercial_entry("json_quote", FuncCategory::Scalar, FuncDomain::Json, 1, Some(1), false));
    lemma_push_keeps_products(t, spec_commercial_entry("json_remove", FuncCategory::Scalar, FuncDomain::Json, 2, Some(2), false));
    let t = t.push(spec_commercial_entry("json_remove", FuncCategory::Scalar, FuncDomain::Json, 2, Some(2), false));
    lemma_push_keeps_products(t, spec_commercial_entry("json_replace", FuncCategory::Scalar, FuncDomain::Json, 2, Some(2), false));
    let t = t.push(spec_commercial_entry("json_replace", FuncCategory::Scalar, FuncDomain::Json, 2, Some(2), false));
    lemma_push_keeps_products(t, spec_commercial_entry("json_search", FuncCategory::Scalar, FuncDomain::Json, 2, Some(4), false));
    let t = t.push(spec_commercial_entry("json_search", FuncCategory::Scalar, FuncDomain::Json, 2, Some(4), false));
    lemma_push_keeps_products(t, spec_commercial_entry("json_set", FuncCategory::Scalar, FuncDomain::Json, 2, Some(2), false));
    let t = t.push(spec_commercial_entry("json_set", FuncCategory::Scalar, FuncDomain::Json, 2, Some(2), false));
    lemma_push_keeps_products(t, spec_commercial_entry("json_type", FuncCategory::Scalar, FuncDomain::Json, 1, Some(1), false));
    let t = t.push(spec_commercial_entry("json_type", FuncCategory::Scalar, FuncDomain::Json, 1, Some(1), false));
    lemma_push_keeps_products(t, spec_core_entry("json_typeof", FuncCategory::Scalar, FuncDomain::Json, 1, Some(1), false));
    let t = t.push(spec_core_entry("json_typeof", FuncCategory::Scalar, FuncDomain::Json, 1, Some(1), false));
    lemma_push_keeps_products(t, spec_commercial_entry("json_unquote", FuncCategory::Scalar, FuncDomain::Json, 1, Some(1), false));
    let t = t.push(spec_commercial_entry("json_unquote", FuncCategory::Scalar, FuncDomain::Json, 1, Some(1), false));
    lemma_push_keeps_products(t, spec_commercial_entry("json_valid", FuncCategory::Scalar, FuncDomain::Json, 1, Some(1), false));
    let t = t.push(spec_commercial_entry("json_valid", FuncCategory::Scalar, FuncDomain::Json, 1, Some(1), false));
    lemma_push_keeps_products(t, spec_core_entry("jsonb_agg", FuncCategory::Aggregate, FuncDomain::Json, 1, Some(1), true));
    let t = t.push(spec_core_entry("jsonb_agg", FuncCategory::Aggregate, FuncDomain::Json, 1, Some(1), true));
    lemma_push_keeps_products(t, spec_core_entry("jsonb_array_elements", FuncCategory::SetReturning, FuncDomain::Json, 1, Some(1), false));
    let t = t.push(spec_core_entry("jsonb_array_elements", FuncCategory::SetReturning, FuncDomain::Json, 1, Some(1), false));
    lemma_push_keeps_products(t, spec_core_entry("jsonb_array_length", FuncCategory::Scalar, FuncDomain::Json, 1, Some(1), false));
    let t = t.push(spec_core_entry("jsonb_array_length", FuncCategory::Scalar, FuncDomain::Json, 1, Some(1), false));
    lemma_push_keeps_products(t, spec_core_entry("jsonb_build_array", FuncCategory::Scalar, FuncDomain::Json, 0, None, true));
    let t = t.push(spec_core_entry("jsonb_build_array", FuncCategory::Scalar, FuncDomain::Json, 0, None, true));
    lemma_push_keeps_products(t, spec_core_entry("jsonb_build_object", FuncCategory::Scalar, FuncDomain::Json, 0, None, true));
    let t = t.push(spec_core_entry("jsonb_build_object", FuncCategory::Scalar, FuncDomain::Json, 0, None, true));
    lemma_push_keeps_products(t, spec_core_entry("jsonb_cmp", FuncCategory::Scalar, FuncDomain::Json, 2, Some(2), false));
    let t = t.push(spec_core_entry("jsonb_cmp", FuncCategory::Scalar, FuncDomain::Json, 2, Some(2), false));
    lemma_push_keeps_products(t, spec_core_entry("jsonb_contained", FuncCategory::Scalar, FuncDomain::Json, 2, Some(2), false));
    let t = t.push(spec_core_entry("jsonb_contained", FuncCategory::Scalar, FuncDomain::Json, 2, Some(2), false));
    lemma_push_keeps_products(t, spec_core_entry("jsonb_contains", FuncCategory::Scalar, FuncDomain::Json, 2, Some(2), false));
    let t = t.push(spec_core_entry("jsonb_contains", FuncCategory::Scalar, FuncDomain::Json, 2, Some(2), false));
    lemma_push_keeps_products(t, spec_core_entry("jsonb_each", FuncCategory::SetReturning, FuncDomain::Json, 1, Some(1), false));
    let t = t.push(spec_core_entry("jsonb_each", FuncCategory::SetReturning, FuncDomain::Json, 1, Some(1), false));
    lemma_push_keeps_products(t, spec_core_entry("jsonb_each_text", FuncCategory::SetReturning, FuncDomain::Json, 1, Some(1), false));
    let t = t.push(spec_core_entry("jsonb_each_text", FuncCategory::SetReturning, FuncDomain::Json, 1, Some(1), false));
    lemma_push_keeps_products(t, spec_core_entry("jsonb_eq", FuncCategory::Scalar, FuncDomain::Json, 2, Some(2), false));
    let t = t.push(spec_core_entry("jsonb_eq", FuncCategory::Scalar, FuncDomain::Json, 2, Some(2), false));
    lemma_push_keeps_products(t, spec_core_entry("jsonb_exists", FuncCategory::Scalar, FuncDomain::Json, 2, Some(2), false));
    let t = t.push(spec_core_entry("jsonb_exists", FuncCategory::Scalar, FuncDomain::Json, 2, Some(2), false));
    lemma_push_keeps_products(t, spec_core_entry("jsonb_exists_all", FuncCategory::Scalar, FuncDomain::Json, 2, Some(2), false));
    let t = t.push(spec_core_entry("jsonb_exists_all", FuncCategory::Scalar, FuncDomain::Json, 2, Some(2), false));
    lemma_push_keeps_products(t, spec_core_entry("jsonb_exists_any", FuncCategory::Scalar, FuncDomain::Json, 2, Some(2), false));
    let t = t.push(spec_core_entry("jsonb_exists_any", FuncCategory::Scalar, FuncDomain::Json, 2, Some(2), false));
    lemma_push_keeps_products(t, spec_core_entry("jsonb_ge", FuncCategory::Scalar, FuncDomain::Json, 2, Some(2), false));
    let t = t.push(spec_core_entry("jsonb_ge", FuncCategory::Scalar, FuncDomain::Json, 2, Some(2), false));
    lemma_push_keeps_products(t, spec_core_entry("jsonb_gt", FuncCategory::Scalar, FuncDomain::Json, 2, Some(2), false));
    let t = t.push(spec_core_entry("jsonb_gt", FuncCategory::Scalar, FuncDomain::Json, 2, Some(2), false));
    lemma_push_keeps_products(t, spec_core_entry("jsonb_hash", FuncCategory::Scalar, FuncDomain::Json, 1, Some(1), false));
    let t = t.push(spec_core_entry("jsonb_hash", FuncCategory::Scalar, FuncDomain::Json, 1, Some(1), false));
    lemma_push_keeps_products(t, spec_core_entry("jsonb_le", FuncCategory::Scalar, FuncDomain::Json, 2, Some(2), false));
    let t = t.push(spec_core_entry("jsonb_le", FuncCategory::Scalar, FuncDomain::Json, 2, Some(2), false));
    lemma_push_keeps_products(t, spec_core_entry("jsonb_lt", FuncCategory::Scalar, FuncDomain::Json, 2, Some(2), false));
    let t = t.push(spec_core_entry("jsonb_lt", FuncCategory::Scalar, FuncDomain::Json, 2, Some(2), false));
    lemma_push_keeps_products(t, spec_core_entry("jsonb_ne", FuncCategory::Scalar, FuncDomain::Json, 2, Some(2), false));
    let t = t.push(spec_core_entry("jsonb_ne", FuncCategory::Scalar, FuncDomain::Json, 2, Some(2), false));
    lemma_push_keeps_products(t, spec_core_entry("jsonb_object_keys", FuncCategory::SetReturning, FuncDomain::Json, 1, Some(1), false));
    let t = t.push(spec_core_entry("jsonb_object_keys", FuncCategory::SetReturning, FuncDomain::Json, 1, Some(1), false));
    lemma_push_keeps_products(t, spec_core_entry("jsonb_pretty", FuncCategory::Scalar, FuncDomain::Json, 1, Some(1), false));
    let t = t.push(spec_core_entry("jsonb_pretty", FuncCategory::Scalar, FuncDomain::Json, 1, Some(1), false));
    lemma_push_keeps_products(t, spec_core_entry("jsonb_set", FuncCategory::Scalar, FuncDomain::Json, 3, Some(4), false));
    let t = t.push(spec_core_entry("jsonb_set", FuncCategory::Scalar, FuncDomain::Json, 3, Some(4), false));
    lemma_push_keeps_products(t, spec_core_entry("jsonb_typeof", FuncCategory::Scalar, FuncDomain::Json, 1, Some(1), false));
    let t = t.push(spec_core_entry("jsonb_typeof", FuncCategory::Scalar, FuncDomain::Json, 1, Some(1), false));
    lemma_push_keeps_products(t, spec_core_entry("justify_days", FuncCategory::Scalar, FuncDomain::DateTime, 1, Some(1), false));
    let t = t.push(spec_core_entry("justify_days", FuncCategory::Scalar, FuncDomain::DateTime, 1, Some(1), false));
    lemma_push_keeps_products(t, spec_core_entry("justify_hours", FuncCategory::Scalar, FuncDomain::DateTime, 1, Some(1), false));
    let t = t.push(spec_core_entry("justify_hours", FuncCategory::Scalar, FuncDomain::DateTime, 1, Some(1), false));
    lemma_push_keeps_products(t, spec_core_entry("justify_interval", FuncCategory::Scalar, FuncDomain::DateTime, 1, Some(1), false));
    let t = t.push(spec_core_entry("justify_interval", FuncCategory::Scalar, FuncDomain::DateTime, 1, Some(1), false));
    lemma_push_keeps_products(t, spec_core_entry("lag", FuncCategory::Window, FuncDomain::Window, 1, Some(3), false));
    let t = t.push(spec_core_entry("lag", FuncCategory::Window, FuncDomain::Window, 1, Some(3), false));
    lemma_push_keeps_products(t, spec_oracle_entry("last_day", FuncCategory::Scalar, FuncDomain::OracleCompat, 1, Some(1), false));
    let t = t.push(spec_oracle_entry("last_day", FuncCategory::Scalar, FuncDomain::OracleCompat, 1, Some(1), false));
    lemma_push_keeps_products(t, spec_core_entry("last_insert_id", FuncCategory::Scalar, FuncDomain::System, 0, Some(1), false));
    let t = t.push(spec_core_entry("last_insert_id", FuncCategory::Scalar, FuncDomain::System, 0, Some(1), false));
    lemma_push_keeps_products(t, spec_core_entry("last_value", FuncCategory::Window, FuncDomain::Window, 1, Some(1), false));
    let t = t.push(spec_core_entry("last_value", FuncCategory::Window, FuncDomain::Window, 1, Some(1), false));
    lemma_push_keeps_products(t, spec_core_entry("lastval", FuncCategory::Scalar, FuncDomain::System, 0, Some(0), false));
    let t = t.push(spec_core_entry("lastval", FuncCategory::Scalar, FuncDomain::System, 0, Some(0), false));
    lemma_push_keeps_products(t, spec_core_entry("lcm", FuncCategory::Scalar, FuncDomain::Math, 2, Some(2), false));
    let t = t.push(spec_core_entry("lcm", FuncCategory::Scalar, FuncDomain::Math, 2, Some(2), false));
    lemma_push_keeps_products(t, spec_core_entry("lead", FuncCategory::Window, FuncDomain::Window, 1, Some(3), false));
    let t = t.push(spec_core_entry("lead", FuncCategory::Window, FuncDomain::Window, 1, Some(3), false));
    lemma_push_keeps_products(t, spec_core_entry("least", FuncCategory::Special, FuncDomain::Other, 2, None, false));
    let t = t.push(spec_core_entry("least", FuncCategory::Special, FuncDomain::Other, 2, None, false));
    lemma_push_keeps_products(t, spec_core_entry("left", FuncCategory::Scalar, FuncDomain::String, 2, Some(2), false));
    let t = t.push(spec_core_entry("left", FuncCategory::Scalar, FuncDomain::String, 2, Some(2), false));
    lemma_push_keeps_products(t, spec_core_entry("length", FuncCategory::Scalar, FuncDomain::String, 1, Some(2), false));
    let t = t.push(spec_core_entry("length", FuncCategory::Scalar, FuncDomain::String, 1, Some(2), false));
    lemma_push_keeps_products(t, spec_core_entry("lengthb", FuncCategory::Scalar, FuncDomain::String, 1, Some(1), false));
    let t = t.push(spec_core_entry("lengthb", FuncCategory::Scalar, FuncDomain::String, 1, Some(1), false));
    lemma_push_keeps_products(t, spec_oracle_entry("listagg", FuncCategory::Aggregate, FuncDomain::String, 1, Some(2), true));
    let t = t.push(spec_oracle_entry("listagg", FuncCategory::Aggregate, FuncDomain::String, 1, Some(2), true));
    lemma_push_keeps_products(t, spec_core_entry("ln", FuncCategory::Scalar, FuncDomain::Math, 1, Some(1), false));
    let t = t.push(spec_core_entry("ln", FuncCategory::Scalar, FuncDomain::Math, 1, Some(1), false));
    lemma_push_keeps_products(t, spec_core_entry("localtime", FuncCategory::Scalar, FuncDomain::DateTime, 0, Some(1), false));
    let t = t.push(spec_core_entry("localtime", FuncCategory::Scalar, FuncDomain::DateTime, 0, Some(1), false));
    lemma_push_keeps_products(t, spec_core_entry("localtimestamp", FuncCategory::Scalar, FuncDomain::DateTime, 0, Some(1), false));
    let t = t.push(spec_core_entry("localtimestamp", FuncCategory::Scalar, FuncDomain::DateTime, 0, Some(1), false));
    lemma_push_keeps_products(t, spec_core_entry("log", FuncCategory::Scalar, FuncDomain::Math, 1, Some(2), false));
    let t = t.push(spec_core_entry("log", FuncCategory::Scalar, FuncDomain::Math, 1, Some(2), false));
    lemma_push_keeps_products(t, spec_core_entry("log10", FuncCategory::Scalar, FuncDomain::Math, 1, Some(1), false));
    let t = t.push(spec_core_entry("log10", FuncCategory::Scalar, FuncDomain::Math, 1, Some(1), false));
    lemma_push_keeps_products(t, spec_core_entry("lower", FuncCategory::Scalar, FuncDomain::String, 1, Some(1), false));
    let t = t.push(spec_core_entry("lower", FuncCategory::Scalar, FuncDomain::String, 1, Some(1), false));
    lemma_push_keeps_products(t, spec_core_entry("lpad", FuncCategory::Scalar, FuncDomain::String, 2, Some(3), false));
    let t = t.push(spec_core_entry("lpad", FuncCategory::Scalar, FuncDomain::String, 2, Some(3), false));
    lemma_push_keeps_products(t, spec_core_entry("ltrim", FuncCategory::Scalar, FuncDomain::String, 1, Some(2), false));
    let t = t.push(spec_core_entry("ltrim", FuncCategory::Scalar, FuncDomain::String, 1, Some(2), false));
    lemma_push_keeps_products(t, spec_core_entry("make_date", FuncCategory::Scalar, FuncDomain::DateTime, 3, Some(3), false));
    let t = t.push(spec_core_entry("make_date", FuncCategory::Scalar, FuncDomain::DateTime, 3, Some(3), false));
    lemma_push_keeps_products(t, spec_core_entry("make_time", FuncCategory::Scalar, FuncDomain::DateTime, 3, Some(3), false));
    let t = t.push(spec_core_entry("make_time", FuncCategory::Scalar, FuncDomain::DateTime, 3, Some(3), false));
    lemma_push_keeps_products(t, spec_core_entry("make_timestamp", FuncCategory::Scalar, FuncDomain::DateTime, 6, Some(6), false));
    let t = t.push(spec_core_entry("make_timestamp", FuncCategory::Scalar, FuncDomain::DateTime, 6, Some(6), false));
    lemma_push_keeps_products(t, spec_core_entry("make_timestamptz", FuncCategory::Scalar, FuncDomain::DateTime, 6, Some(7), false));
    let t = t.push(spec_core_entry("make_timestamptz", FuncCategory::Scalar, FuncDomain::DateTime, 6, Some(7), false));
    lemma_push_keeps_products(t, spec_commercial_entry("makedate", FuncCategory::Scalar, FuncDomain::DateTime, 2, Some(2), false));
    let t = t.push(spec_commercial_entry("makedate", FuncCategory::Scalar, FuncDomain::DateTime, 2, Some(2), false));
    lemma_push_keeps_products(t, spec_commercial_entry("maketime", FuncCategory::Scalar, FuncDomain::DateTime, 3, Some(3), false));
    let t = t.push(spec_commercial_entry("maketime", FuncCategory::Scalar, FuncDomain::DateTime, 3, Some(3), false));
    lemma_push_keeps_products(t, spec_core_entry("masklen", FuncCategory::Scalar, FuncDomain::Network, 1, Some(1), false));
    let t = t.push(spec_core_entry("masklen", FuncCategory::Scalar, FuncDomain::Network, 1, Some(1), false));
    lemma_push_keeps_products(t, spec_core_entry("max", FuncCategory::Aggregate, FuncDomain::Aggregate, 1, Some(1), true));
    let t = t.push(spec_core_entry("max", FuncCategory::Aggregate, FuncDomain::Aggregate, 1, Some(1), true));
    lemma_push_keeps_products(t, spec_core_entry("md5", FuncCategory::Scalar, FuncDomain::Crypto, 1, Some(2), false));
    let t = t.push(spec_core_entry("md5", FuncCategory::Scalar, FuncDomain::Crypto, 1, Some(2), false));
    lemma_push_keeps_products(t, spec_core_entry("median", FuncCategory::Aggregate, FuncDomain::Aggregate, 1, Some(1), true));
    let t = t.push(spec_core_entry("median", FuncCategory::Aggregate, FuncDomain::Aggregate, 1, Some(1), true));
    lemma_push_keeps_products(t, spec_core_entry("min", FuncCategory::Aggregate, FuncDomain::Aggregate, 1, Some(1), true));
    let t = t.push(spec_core_entry("min", FuncCategory::Aggregate, FuncDomain::Aggregate, 1, Some(1), true));
    lemma_push_keeps_products(t, spec_core_entry("mod", FuncCategory::Scalar, FuncDomain::Math, 2, Some(2), false));
    let t = t.push(spec_core_entry("mod", FuncCategory::Scalar, FuncDomain::Math, 2, Some(2), false));
    lemma_push_keeps_products(t, spec_core_entry("mode", FuncCategory::Aggregate, FuncDomain::Aggregate, 1, Some(1), true));
    let t = t.push(spec_core_entry("mode", FuncCategory::Aggregate, FuncDomain::Aggregate, 1, Some(1), true));
    lemma_push_keeps_products(t, spec_commercial_entry("monthname", FuncCategory::Scalar, FuncDomain::DateTime, 1, Some(1), false));
    let t = t.push(spec_commercial_entry("monthname", FuncCategory::Scalar, FuncDomain::DateTime, 1, Some(1), false));
    lemma_push_keeps_products(t, spec_oracle_entry("months_between", FuncCategory::Scalar, FuncDomain::OracleCompat, 2, Some(2), false));
    let t = t.push(spec_oracle_entry("months_between", FuncCategory::Scalar, FuncDomain::OracleCompat, 2, Some(2), false));
    lemma_push_keeps_products(t, spec_commercial_oracle_entry("nanvl", FuncCategory::Scalar, FuncDomain::OracleCompat, 2, Some(2), false));
    let t = t.push(spec_commercial_oracle_entry("nanvl", FuncCategory::Scalar, FuncDomain::OracleCompat, 2, Some(2), false));
    lemma_push_keeps_products(t, spec_oracle_entry("nchr", FuncCategory::Scalar, FuncDomain::String, 1, Some(1), false));
    let t = t.push(spec_oracle_entry("nchr", FuncCategory::Scalar, FuncDomain::String, 1, Some(1), false));
    lemma_push_keeps_products(t, spec_core_entry("netmask", FuncCategory::Scalar, FuncDomain::Network, 1, Some(1), false));
    let t = t.push(spec_core_entry("netmask", FuncCategory::Scalar, FuncDomain::Network, 1, Some(1), false));
    lemma_push_keeps_products(t, spec_core_entry("network", FuncCategory::Scalar, FuncDomain::Network, 1, Some(1), false));
    let t = t.push(spec_core_entry("network", FuncCategory::Scalar, FuncDomain::Network, 1, Some(1), false));
    lemma_push_keeps_products(t, spec_oracle_entry("new_time", FuncCategory::Scalar, FuncDomain::DateTime, 3, Some(3), false));
    let t = t.push(spec_oracle_entry("new_time", FuncCategory::Scalar, FuncDomain::DateTime, 3, Some(3), false));
    lemma_push_keeps_products(t, spec_oracle_entry("next_day", FuncCategory::Scalar, FuncDomain::OracleCompat, 2, Some(2), false));
    let t = t.push(spec_oracle_entry("next_day", FuncCategory::Scalar, FuncDomain::OracleCompat, 2, Some(2), false));
    lemma_push_keeps_products(t, spec_core_entry("nextval", FuncCategory::Scalar, FuncDomain::System, 1, Some(1), false));
    let t = t.push(spec_core_entry("nextval", FuncCategory::Scalar, FuncDomain::System, 1, Some(1), false));
    lemma_push_keeps_products(t, spec_oracle_entry("nls_initcap", FuncCategory::Scalar, FuncDomain::OracleCompat, 1, Some(2), false));
    let t = t.push(spec_oracle_entry("nls_initcap", FuncCategory::Scalar, FuncDomain::OracleCompat, 1, Some(2), false));
    lemma_push_keeps_products(t, spec_oracle_entry("nls_lower", FuncCategory::Scalar, FuncDomain::OracleCompat, 1, Some(2), false));
    let t = t.push(spec_oracle_entry("nls_lower", FuncCategory::Scalar, FuncDomain::OracleCompat, 1, Some(2), false));
    lemma_push_keeps_products(t, spec_oracle_entry("nls_sort", FuncCategory::Scalar, FuncDomain::OracleCompat, 1, Some(2), false));
    let t = t.push(spec_oracle_entry("nls_sort", FuncCategory::Scalar, FuncDomain::OracleCompat, 1, Some(2), false));
    lemma_push_keeps_products(t, spec_oracle_entry("nls_upper", FuncCategory::Scalar, FuncDomain::OracleCompat, 1, Some(2), false));
    let t = t.push(spec_oracle_entry("nls_upper", FuncCategory::Scalar, FuncDomain::OracleCompat, 1, Some(2), false));
    lemma_push_keeps_products(t, spec_oracle_entry("nlssort", FuncCategory::Scalar, FuncDomain::OracleCompat, 1, Some(2), false));
    let t = t.push(spec_oracle_entry("nlssort", FuncCategory::Scalar, FuncDomain::OracleCompat, 1, Some(2), false));
    lemma_push_keeps_products(t, spec_core_entry("now", FuncCategory::Scalar, FuncDomain::DateTime, 0, Some(0), false));
    let t = t.push(spec_core_entry("now", FuncCategory::Scalar, FuncDomain::DateTime, 0, Some(0), false));
    lemma_push_keeps_products(t, spec_core_entry("nth_value", FuncCategory::Window, FuncDomain::Window, 2, Some(2), false));
    let t = t.push(spec_core_entry("nth_value", FuncCategory::Window, FuncDomain::Window, 2, Some(2), false));
    lemma_push_keeps_products(t, spec_core_entry("ntile", FuncCategory::Window, FuncDomain::Window, 1, Some(1), false));
    let t = t.push(spec_core_entry("ntile", FuncCategory::Window, FuncDomain::Window, 1, Some(1), false));
    lemma_push_keeps_products(t, spec_core_entry("nullif", FuncCategory::Special, FuncDomain::Other, 2, Some(2), false));
    let t = t.push(spec_core_entry("nullif", FuncCategory::Special, FuncDomain::Other, 2, Some(2), false));
    lemma_push_keeps_products(t, spec_core_entry("numrange", FuncCategory::Scalar, FuncDomain::Range, 2, Some(3), false));
    let t = t.push(spec_core_entry("numrange", FuncCategory::Scalar, FuncDomain::Range, 2, Some(3), false));
    lemma_push_keeps_products(t, spec_core_entry("numtoday", FuncCategory::Scalar, FuncDomain::TypeConversion, 1, Some(1), false));
    let t = t.push(spec_core_entry("numtoday", FuncCategory::Scalar, FuncDomain::TypeConversion, 1, Some(1), false));
    lemma_push_keeps_products(t, spec_core_entry("numtodsinterval", FuncCategory::Scalar, FuncDomain::TypeConversion, 2, Some(2), false));
    let t = t.push(spec_core_entry("numtodsinterval", FuncCategory::Scalar, FuncDomain::TypeConversion, 2, Some(2), false));
    lemma_push_keeps_products(t, spec_commercial_oracle_entry("numtoyminterval", FuncCategory::Scalar, FuncDomain::TypeConversion, 2, Some(2), false));
    let t = t.push(spec_commercial_oracle_entry("numtoyminterval", FuncCategory::Scalar, FuncDomain::TypeConversion, 2, Some(2), false));
    lemma_push_keeps_products(t, spec_oracle_entry("nvl", FuncCategory::Special, FuncDomain::OracleCompat, 2, Some(2), false));
    let t = t.push(spec_oracle_entry("nvl", FuncCategory::Special, FuncDomain::OracleCompat, 2, Some(2), false));
    lemma_push_keeps_products(t, spec_oracle_entry("nvl2", FuncCategory::Special, FuncDomain::OracleCompat, 3, Some(3), false));
    let t = t.push(spec_oracle_entry("nvl2", FuncCategory::Special, FuncDomain::OracleCompat, 3, Some(3), false));
    lemma_push_keeps_products(t, spec_core_entry("octet_length", FuncCategory::Scalar, FuncDomain::String, 1, Some(1), false));
    let t = t.push(spec_core_entry("octet_length", FuncCategory::Scalar, FuncDomain::String, 1, Some(1), false));
    lemma_push_keeps_products(t, spec_commercial_entry("ora_hash", FuncCategory::Scalar, FuncDomain::Hash, 1, Some(2), false));
    let t = t.push(spec_commercial_entry("ora_hash", FuncCategory::Scalar, FuncDomain::Hash, 1, Some(2), false));
    lemma_push_keeps_products(t, spec_core_entry("overlay", FuncCategory::Scalar, FuncDomain::String, 3, Some(4), false));
    let t = t.push(spec_core_entry("overlay", FuncCategory::Scalar, FuncDomain::String, 3, Some(4), false));
    lemma_push_keeps_products(t, spec_core_entry("percent_rank", FuncCategory::Window, FuncDomain::Window, 0, Some(0), false));
    let t = t.push(spec_core_entry("percent_rank", FuncCategory::Window, FuncDomain::Window, 0, Some(0), false));
    lemma_push_keeps_products(t, spec_core_entry("percentile_cont", FuncCategory::Aggregate, FuncDomain::Aggregate, 1, Some(2), true));
    let t = t.push(spec_core_entry("percentile_cont", FuncCategory::Aggregate, FuncDomain::Aggregate, 1, Some(2), true));
    lemma_push_keeps_products(t, spec_core_entry("percentile_disc", FuncCategory::Aggregate, FuncDomain::Aggregate, 1, Some(2), true));
    let t = t.push(spec_core_entry("percentile_disc", FuncCategory::Aggregate, FuncDomain::Aggregate, 1, Some(2), true));
    lemma_push_keeps_products(t, spec_commercial_entry("period_add", FuncCategory::Scalar, FuncDomain::DateTime, 2, Some(2), false));
    let t = t.push(spec_commercial_entry("period_add", FuncCategory::Scalar, FuncDomain::DateTime, 2, Some(2), false));
    lemma_push_keeps_products(t, spec_commercial_entry("period_diff", FuncCategory::Scalar, FuncDomain::DateTime, 2, Some(2), false));
    let t = t.push(spec_commercial_entry("period_diff", FuncCategory::Scalar, FuncDomain::DateTime, 2, Some(2), false));
    lemma_push_keeps_products(t, spec_core_entry("pg_advisory_lock", FuncCategory::Scalar, FuncDomain::System, 1, Some(2), false));
    let t = t.push(spec_core_entry("pg_advisory_lock", FuncCategory::Scalar, FuncDomain::System, 1, Some(2), false));
    lemma_push_keeps_products(t, spec_core_entry("pg_advisory_unlock", FuncCategory::Scalar, FuncDomain::System, 1, Some(2), false));
    let t = t.push(spec_core_entry("pg_advisory_unlock", FuncCategory::Scalar, FuncDomain::System, 1, Some(2), false));
    lemma_push_keeps_products(t, spec_core_entry("pg_advisory_xact_lock", FuncCategory::Scalar, FuncDomain::System, 1, Some(2), false));
    let t = t.push(spec_core_entry("pg_advisory_xact_lock", FuncCategory::Scalar, FuncDomain::System, 1, Some(2), false));
    lemma_push_keeps_products(t, spec_core_entry("pg_backend_pid", FuncCategory::Scalar, FuncDomain::System, 0, Some(0), false));
    let t = t.push(spec_core_entry("pg_backend_pid", FuncCategory::Scalar, FuncDomain::System, 0, Some(0), false));
    lemma_push_keeps_products(t, spec_core_entry("pg_cancel_backend", FuncCategory::Scalar, FuncDomain::System, 1, Some(1), false));
    let t = t.push(spec_core_entry("pg_cancel_backend", FuncCategory::Scalar, FuncDomain::System, 1, Some(1), false));
    lemma_push_keeps_products(t, spec_core_entry("pg_collation_is_visible", FuncCategory::Scalar, FuncDomain::System, 1, Some(2), false));
    let t = t.push(spec_core_entry("pg_collation_is_visible", FuncCategory::Scalar, FuncDomain::System, 1, Some(2), false));
    lemma_push_keeps_products(t, spec_core_entry("pg_column_size", FuncCategory::Scalar, FuncDomain::System, 1, Some(1), false));
    let t = t.push(spec_core_entry("pg_column_size", FuncCategory::Scalar, FuncDomain::System, 1, Some(1), false));
    lemma_push_keeps_products(t, spec_core_entry("pg_conf_load_time", FuncCategory::Scalar, FuncDomain::System, 0, Some(0), false));
    let t = t.push(spec_core_entry("pg_conf_load_time", FuncCategory::Scalar, FuncDomain::System, 0, Some(0), false));
    lemma_push_keeps_products(t, spec_core_entry("pg_conversion_is_visible", FuncCategory::Scalar, FuncDomain::System, 1, Some(1), false));
    let t = t.push(spec_core_entry("pg_conversion_is_visible", FuncCategory::Scalar, FuncDomain::System, 1, Some(1), false));
    lemma_push_keeps_products(t, spec_core_entry("pg_create_logical_replication_slot", FuncCategory::Scalar, FuncDomain::System, 2, Some(3), false));
    let t = t.push(spec_core_entry("pg_create_logical_replication_slot", FuncCategory::Scalar, FuncDomain::System, 2, Some(3), false));
    assert(t == table_part_5(s));
}

proof fn lemma_part_6_products(s: Seq<FuncMeta>)
    requires
        names_products(s),
    ensures
        names_products(table_part_6(s)),
{
    let t = s;
    lemma_push_keeps_products(t, spec_core_entry("pg_create_physical_replication_slot", FuncCategory::Scalar, FuncDomain::System, 1, Some(2), false));
    let t = t.push(spec_core_entry("pg_create_physical_replication_slot", FuncCategory::Scalar, FuncDomain::System, 1, Some(2), false));
    lemma_push_keeps_products(t, spec_core_entry("pg_current_xlog_location", FuncCategory::Scalar, FuncDomain::System, 0, Some(0), false));
    let t = t.push(spec_core_entry("pg_current_xlog_location", FuncCategory::Scalar, FuncDomain::System, 0, Some(0), false));
    lemma_push_keeps_products(t, spec_core_entry("pg_database_size", FuncCategory::Scalar, FuncDomain::System, 1, Some(1), false));
    let t = t.push(spec_core_entry("pg_database_size", FuncCategory::Scalar, FuncDomain::System, 1, Some(1), false));
    lemma_push_keeps_products(t, spec_core_entry("pg_describe_object", FuncCategory::Scalar, FuncDomain::System, 3, Some(3), false));
    let t = t.push(spec_core_entry("pg_describe_object", FuncCategory::Scalar, FuncDomain::System, 3, Some(3), false));
    lemma_push_keeps_products(t, spec_core_entry("pg_drop_replication_slot", FuncCategory::Scalar, FuncDomain::System, 1, Some(1), false));
    let t = t.push(spec_core_entry("pg_drop_replication_slot", FuncCategory::Scalar, FuncDomain::System, 1, Some(1), false));
    lemma_push_keeps_products(t, spec_core_entry("pg_exception_context", FuncCategory::Scalar, FuncDomain::ExceptionContext, 0, Some(0), false));
    let t = t.push(spec_core_entry("pg_exception_context", FuncCategory::Scalar, FuncDomain::ExceptionContext, 0, Some(0), false));
    lemma_push_keeps_products(t, spec_core_entry("pg_exception_detail", FuncCategory::Scalar, FuncDomain::ExceptionContext, 0, Some(0), false));
    let t = t.push(spec_core_entry("pg_exception_detail", FuncCategory::Scalar, FuncDomain::ExceptionContext, 0, Some(0), false));
    lemma_push_keeps_products(t, spec_core_entry("pg_exception_hint", FuncCategory::Scalar, FuncDomain::ExceptionContext, 0, Some(0), false));
    let t = t.push(spec_core_entry("pg_exception_hint", FuncCategory::Scalar, FuncDomain::ExceptionContext, 0, Some(0), false));
    lemma_push_keeps_products(t, spec_core_entry("pg_export_snapshot", FuncCategory::Scalar, FuncDomain::System, 0, Some(0), false));
    let t = t.push(spec_core_entry("pg_export_snapshot", FuncCategory::Scalar, FuncDomain::System, 0, Some(0), false));
    lemma_push_keeps_products(t, spec_core_entry("pg_function_is_visible", FuncCategory::Scalar, FuncDomain::System, 1, Some(1), false));
    let t = t.push(spec_core_entry("pg_function_is_visible", FuncCategory::Scalar, FuncDomain::System, 1, Some(1), false));
    lemma_push_keeps_products(t, spec_core_entry("pg_get_constraintdef", FuncCategory::Scalar, FuncDomain::System, 1, Some(2), false));
    let t = t.push(spec_core_entry("pg_get_constraintdef", FuncCategory::Scalar, FuncDomain::System, 1, Some(2), false));
    lemma_push_keeps_products(t, spec_core_entry("pg_get_expr", FuncCategory::Scalar, FuncDomain::System, 2, Some(3), false));
    let t = t.push(spec_core_entry("pg_get_expr", FuncCategory::Scalar, FuncDomain::System, 2, Some(3), false));
    lemma_push_keeps_products(t, spec_core_entry("pg_get_functiondef", FuncCategory::Scalar, FuncDomain::System, 1, Some(1), false));
    let t = t.push(spec_core_entry("pg_get_functiondef", FuncCategory::Scalar, FuncDomain::System, 1, Some(1), false));
    lemma_push_keeps_products(t, spec_core_entry("pg_get_indexdef", FuncCategory::Scalar, FuncDomain::System, 1, Some(3), false));
    let t = t.push(spec_core_entry("pg_get_indexdef", FuncCategory::Scalar, FuncDomain::System, 1, Some(3), false));
    lemma_push_keeps_products(t, spec_core_entry("pg_get_keywords", FuncCategory::Scalar, FuncDomain::System, 0, Some(0), false));
    let t = t.push(spec_core_entry("pg_get_keywords", FuncCategory::Scalar, FuncDomain::System, 0, Some(0), false));
    lemma_push_keeps_products(t, spec_core_entry("pg_get_ruledef", FuncCategory::Scalar, FuncDomain::System, 1, Some(2), false));
    let t = t.push(spec_core_entry("pg_get_ruledef", FuncCategory::Scalar, FuncDomain::System, 1, Some(2), false));
    lemma_push_keeps_products(t, spec_core_entry("pg_get_serial_sequence", FuncCategory::Scalar, FuncDomain::System, 2, Some(2), false));
    let t = t.push(spec_core_entry("pg_get_serial_sequence", FuncCategory::Scalar, FuncDomain::System, 2, Some(2), false));
    lemma_push_keeps_products(t, spec_core_entry("pg_get_triggerdef", FuncCategory::Scalar, FuncDomain::System, 1, Some(1), false));
    let t = t.push(spec_core_entry("pg_get_triggerdef", FuncCategory::Scalar, FuncDomain::System, 1, Some(1), false));
    lemma_push_keeps_products(t, spec_core_entry("pg_get_userbyid", FuncCategory::Scalar, FuncDomain::System, 1, Some(1), false));
    let t = t.push(spec_core_entry("pg_get_userbyid", FuncCategory::Scalar, FuncDomain::System, 1, Some(1), false));
    lemma_push_keeps_products(t, spec_core_entry("pg_get_viewdef", FuncCategory::Scalar, FuncDomain::System, 1, Some(2), false));
    let t = t.push(spec_core_entry("pg_get_viewdef", FuncCategory::Scalar, FuncDomain::System, 1, Some(2), false));
    lemma_push_keeps_products(t, spec_core_entry("pg_has_role", FuncCategory::Scalar, FuncDomain::System, 2, Some(3), false));
    let t = t.push(spec_core_entry("pg_has_role", FuncCategory::Scalar, FuncDomain::System, 2, Some(3), false));
    lemma_push_keeps_products(t, spec_core_entry("pg_identify_object", FuncCategory::Scalar, FuncDomain::System, 3, Some(3), false));
    let t = t.push(spec_core_entry("pg_identify_object", FuncCategory::Scalar, FuncDomain::System, 3, Some(3), false));
    lemma_push_keeps_products(t, spec_core_entry("pg_indexes_size", FuncCategory::Scalar, FuncDomain::System, 1, Some(1), false));
    let t = t.push(spec_core_entry("pg_indexes_size", FuncCategory::Scalar, FuncDomain::System, 1, Some(1), false));
    lemma_push_keeps_products(t, spec_core_entry("pg_is_in_recovery", FuncCategory::Scalar, FuncDomain::System, 0, Some(0), false));
    let t = t.push(spec_core_entry("pg_is_in_recovery", FuncCategory::Scalar, FuncDomain::System, 0, Some(0), false));
    lemma_push_keeps_products(t, spec_core_entry("pg_is_other_temp_schema", FuncCategory::Scalar, FuncDomain::System, 1, Some(1), false));
    let t = t.push(spec_core_entry("pg_is_other_temp_schema", FuncCategory::Scalar, FuncDomain::System, 1, Some(1), false));
    lemma_push_keeps_products(t, spec_core_entry("pg_last_xact_replay_timestamp", FuncCategory::Scalar, FuncDomain::System, 0, Some(0), false));
    let t = t.push(spec_core_entry("pg_last_xact_replay_timestamp", FuncCategory::Scalar, FuncDomain::System, 0, Some(0), false));
    lemma_push_keeps_products(t, spec_core_entry("pg_listening_channels", FuncCategory::Scalar, FuncDomain::System, 0, Some(0), false));
    let t = t.push(spec_core_entry("pg_listening_channels", FuncCategory::Scalar, FuncDomain::System, 0, Some(0), false));
    lemma_push_keeps_products(t, spec_core_entry("pg_logical_slot_get_binary_changes", FuncCategory::Scalar, FuncDomain::System, 2, None, false));
    let t = t.push(spec_core_entry("pg_logical_slot_get_binary_changes", FuncCategory::Scalar, FuncDomain::System, 2, None, false));
    lemma_push_keeps_products(t, spec_core_entry("pg_logical_slot_get_changes", FuncCategory::Scalar, FuncDomain::System, 2, None, false));
    let t = t.push(spec_core_entry("pg_logical_slot_get_changes", FuncCategory::Scalar, FuncDomain::System, 2, None, false));
    lemma_push_keeps_products(t, spec_core_entry("pg_logical_slot_peek_binary_changes", FuncCategory::Scalar, FuncDomain::System, 2, None, false));
    let t = t.push(spec_core_entry("pg_logical_slot_peek_binary_changes", FuncCategory::Scalar, FuncDomain::System, 2, None, false));
    lemma_push_keeps_products(t, spec_core_entry("pg_logical_slot_peek_changes", FuncCategory::Scalar, FuncDomain::System, 2, None, false));
    let t = t.push(spec_core_entry("pg_logical_slot_peek_changes", FuncCategory::Scalar, FuncDomain::System, 2, None, false));
    lemma_push_keeps_products(t, spec_core_entry("pg_ls_dir", FuncCategory::Scalar, FuncDomain::System, 1, Some(1), false));
    let t = t.push(spec_core_entry("pg_ls_dir", FuncCategory::Scalar, FuncDomain::System, 1, Some(1), false));
    lemma_push_keeps_products(t, spec_core_entry("pg_my_temp_schema", FuncCategory::Scalar, FuncDomain::System, 0, Some(0), false));
    let t = t.push(spec_core_entry("pg_my_temp_schema", FuncCategory::Scalar, FuncDomain::System, 0, Some(0), false));
    lemma_push_keeps_products(t, spec_core_entry("pg_opclass_is_visible", FuncCategory::Scalar, FuncDomain::System, 1, Some(1), false));
    let t = t.push(spec_core_entry("pg_opclass_is_visible", FuncCategory::Scalar, FuncDomain::System, 1, Some(1), false));
    lemma_push_keeps_products(t, spec_core_entry("pg_operator_is_visible", FuncCategory::Scalar, FuncDomain::System, 1, Some(1), false));
    let t = t.push(spec_core_entry("pg_operator_is_visible", FuncCategory::Scalar, FuncDomain::System, 1, Some(1), false));
    lemma_push_keeps_products(t, spec_core_entry("pg_opfamily_is_visible", FuncCategory::Scalar, FuncDomain::System, 1, Some(1), false));
    let t = t.push(spec_core_entry("pg_opfamily_is_visible", FuncCategory::Scalar, FuncDomain::System, 1, Some(1), false));
    lemma_push_keeps_products(t, spec_core_entry("pg_postmaster_start_time", FuncCategory::Scalar, FuncDomain::System, 0, Some(0), false));
    let t = t.push(spec_core_entry("pg_postmaster_start_time", FuncCategory::Scalar, FuncDomain::System, 0, Some(0), false));
    lemma_push_keeps_products(t, spec_core_entry("pg_prepared_statement", FuncCategory::Scalar, FuncDomain::System, 1, Some(1), false));
    let t = t.push(spec_core_entry("pg_prepared_statement", FuncCategory::Scalar, FuncDomain::System, 1, Some(1), false));
    lemma_push_keeps_products(t, spec_core_entry("pg_prepared_xact", FuncCategory::Scalar, FuncDomain::System, 1, Some(1), false));
    let t = t.push(spec_core_entry("pg_prepared_xact", FuncCategory::Scalar, FuncDomain::System, 1, Some(1), false));
    lemma_push_keeps_products(t, spec_core_entry("pg_query_audit", FuncCategory::Scalar, FuncDomain::System, 2, Some(2), false));
    let t = t.push(spec_core_entry("pg_query_audit", FuncCategory::Scalar, FuncDomain::System, 2, Some(2), false));
    lemma_push_keeps_products(t, spec_core_entry("pg_read_binary_file", FuncCategory::Scalar, FuncDomain::System, 1, Some(3), false));
    let t = t.push(spec_core_entry("pg_read_binary_file", FuncCategory::Scalar, FuncDomain::System, 1, Some(3), false));
    lemma_push_keeps_products(t, spec_core_entry("pg_read_file", FuncCategory::Scalar, FuncDomain::System, 1, Some(3), false));
    let t = t.push(spec_core_entry("pg_read_file", FuncCategory::Scalar, FuncDomain::System, 1, Some(3), false));
    lemma_push_keeps_products(t, spec_core_entry("pg_relation_filenode", FuncCategory::Scalar, FuncDomain::System, 1, Some(1), false));
    let t = t.push(spec_core_entry("pg_relation_filenode", FuncCategory::Scalar, FuncDomain::System, 1, Some(1), false));
    lemma_push_keeps_products(t, spec_core_entry("pg_relation_filepath", FuncCategory::Scalar, FuncDomain::System, 1, Some(1), false));
    let t = t.push(spec_core_entry("pg_relation_filepath", FuncCategory::Scalar, FuncDomain::System, 1, Some(1), false));
    lemma_push_keeps_products(t, spec_core_entry("pg_relation_size", FuncCategory::Scalar, FuncDomain::System, 1, Some(2), false));
    let t = t.push(spec_core_entry("pg_relation_size", FuncCategory::Scalar, FuncDomain::System, 1, Some(2), false));
    lemma_push_keeps_products(t, spec_core_entry("pg_replication_origin_create", FuncCategory::Scalar, FuncDomain::System, 1, Some(1), false));
    let t = t.push(spec_core_entry("pg_replication_origin_create", FuncCategory::Scalar, FuncDomain::System, 1, Some(1), false));
    lemma_push_keeps_products(t, spec_core_entry("pg_replication_origin_drop", FuncCategory::Scalar, FuncDomain::System, 1, Some(1), false));
    let t = t.push(spec_core_entry("pg_replication_origin_drop", FuncCategory::Scalar, FuncDomain::System, 1, Some(1), false));
    lemma_push_keeps_products(t, spec_core_entry("pg_replication_origin_oid", FuncCategory::Scalar, FuncDomain::System, 1, Some(1), false));
    let t = t.push(spec_core_entry("pg_replication_origin_oid", FuncCategory::Scalar, FuncDomain::System, 1, Some(1), false));
    lemma_push_keeps_products(t, spec_core_entry("pg_replication_origin_progress", FuncCategory::Scalar, FuncDomain::System, 1, Some(2), false));
    let t = t.push(spec_core_entry("pg_replication_origin_progress", FuncCategory::Scalar, FuncDomain::System, 1, Some(2), false));
    lemma_push_keeps_products(t, spec_core_entry("pg_rotate_logfile", FuncCategory::Scalar, FuncDomain::System, 0, Some(0), false));
    let t = t.push(spec_core_entry("pg_rotate_logfile", FuncCategory::Scalar, FuncDomain::System, 0, Some(0), false));
    lemma_push_keeps_products(t, spec_core_entry("pg_size_pretty", FuncCategory::Scalar, FuncDomain::System, 1, Some(1), false));
    let t = t.push(spec_core_entry("pg_size_pretty", FuncCategory::Scalar, FuncDomain::System, 1, Some(1), false));
    lemma_push_keeps_products(t, spec_core_entry("pg_sleep", FuncCategory::Scalar, FuncDomain::System, 1, Some(1), false));
    let t = t.push(spec_core_entry("pg_sleep", FuncCategory::Scalar, FuncDomain::System, 1, Some(1), false));
    lemma_push_keeps_products(t, spec_core_entry("pg_start_backup", FuncCategory::Scalar, FuncDomain::System, 1, Some(2), false));
    let t = t.push(spec_core_entry("pg_start_backup", FuncCategory::Scalar, FuncDomain::System, 1, Some(2), false));
    lemma_push_keeps_products(t, spec_core_entry("pg_stat_file", FuncCategory::Scalar, FuncDomain::System, 1, Some(1), false));
    let t = t.push(spec_core_entry("pg_stat_file", FuncCategory::Scalar, FuncDomain::System, 1, Some(1), false));
    lemma_push_keeps_products(t, spec_core_entry("pg_stop_backup", FuncCategory::Scalar, FuncDomain::System, 0, Some(1), false));
    let t = t.push(spec_core_entry("pg_stop_backup", FuncCategory::Scalar, FuncDomain::System, 0, Some(1), false));
    lemma_push_keeps_products(t, spec_core_entry("pg_switch_xlog", FuncCategory::Scalar, FuncDomain::System, 0, Some(0), false));
    let t = t.push(spec_core_entry("pg_switch_xlog", FuncCategory::Scalar, FuncDomain::System, 0, Some(0), false));
    lemma_push_keeps_products(t, spec_core_entry("pg_table_is_visible", FuncCategory::Scalar, FuncDomain::System, 1, Some(2), false));
    let t = t.push(spec_core_entry("pg_table_is_visible", FuncCategory::Scalar, FuncDomain::System, 1, Some(2), false));
    lemma_push_keeps_products(t, spec_core_entry("pg_table_size", FuncCategory::Scalar, FuncDomain::System, 1, Some(1), false));
    let t = t.push(spec_core_entry("pg_table_size", FuncCategory::Scalar, FuncDomain::System, 1, Some(1), false));
    lemma_push_keeps_products(t, spec_core_entry("pg_tablespace_databases", FuncCategory::Scalar, FuncDomain::System, 1, Some(1), false));
    let t = t.push(spec_core_entry("pg_tablespace_databases", FuncCategory::Scalar, FuncDomain::System, 1, Some(1), false));
    lemma_push_keeps_products(t, spec_core_entry("pg_tablespace_location", FuncCategory::Scalar, FuncDomain::System, 1, Some(1), false));
    let t = t.push(spec_core_entry("pg_tablespace_location", FuncCategory::Scalar, FuncDomain::System, 1, Some(1), false));
    lemma_push_keeps_products(t, spec_core_entry("pg_tablespace_size", FuncCategory::Scalar, FuncDomain::System, 1, Some(1), false));
    let t = t.push(spec_core_entry("pg_tablespace_size", FuncCategory::Scalar, FuncDomain::System, 1, Some(1), false));
    lemma_push_keeps_products(t, spec_core_entry("pg_terminate_backend", FuncCategory::Scalar, FuncDomain::System, 1, Some(1), false));
    let t = t.push(spec_core_entry("pg_terminate_backend", FuncCategory::Scalar, FuncDomain::System, 1, Some(1), false));
    lemma_push_keeps_products(t, spec_core_entry("pg_total_relation_size", FuncCategory::Scalar, FuncDomain::System, 1, Some(1), false));
    let t = t.push(spec_core_entry("pg_total_relation_size", FuncCategory::Scalar, FuncDomain::System, 1, Some(1), false));
    lemma_push_keeps_products(t, spec_core_entry("pg_try_advisory_lock", FuncCategory::Scalar, FuncDomain::System, 1, Some(2), false));
    let t = t.push(spec_core_entry("pg_try_advisory_lock", FuncCategory::Scalar, FuncDomain::System, 1, Some(2), false));
    lemma_push_keeps_products(t, spec_core_entry("pg_try_advisory_xact_lock", FuncCategory::Scalar, FuncDomain::System, 1, Some(2), false));
    let t = t.push(spec_core_entry("pg_try_advisory_xact_lock", FuncCategory::Scalar, FuncDomain::System, 1, Some(2), false));
    lemma_push_keeps_products(t, spec_core_entry("pg_ts_config_is_visible", FuncCategory::Scalar, FuncDomain::System, 1, Some(1), false));
    let t = t.push(spec_core_entry("pg_ts_config_is_visible", FuncCategory::Scalar, FuncDomain::System, 1, Some(1), false));
    lemma_push_keeps_products(t, spec_core_entry("pg_ts_dict_is_visible", FuncCategory::Scalar, FuncDomain::System, 1, Some(1), false));
    let t = t.push(spec_core_entry("pg_ts_dict_is_visible", FuncCategory::Scalar, FuncDomain::System, 1, Some(1), false));
    lemma_push_keeps_products(t, spec_core_entry("pg_ts_parser_is_visible", FuncCategory::Scalar, FuncDomain::System, 1, Some(1), false));
    let t = t.push(spec_core_entry("pg_ts_parser_is_visible", FuncCategory::Scalar, FuncDomain::System, 1, Some(1), false));
    lemma_push_keeps_products(t, spec_core_entry("pg_ts_template_is_visible", FuncCategory::Scalar, FuncDomain::System, 1, Some(1), false));
    let t = t.push(spec_core_entry("pg_ts_template_is_visible", FuncCategory::Scalar, FuncDomain::System, 1, Some(1), false));
    lemma_push_keeps_products(t, spec_core_entry("pg_type_is_visible", FuncCategory::Scalar, FuncDomain::System, 1, Some(1), false));
    let t = t.push(spec_core_entry("pg_type_is_visible", FuncCategory::Scalar, FuncDomain::System, 1, Some(1), false));
    lemma_push_keeps_products(t, spec_core_entry("pg_typeof", FuncCategory::Scalar, FuncDomain::System, 1, Some(1), false));
    let t = t.push(spec_core_entry("pg_typeof", FuncCategory::Scalar, FuncDomain::System, 1, Some(1), false));
    lemma_push_keeps_products(t, spec_core_entry("pg_xlog_location_diff", FuncCategory::Scalar, FuncDomain::System, 2, Some(2), false));
    let t = t.push(spec_core_entry("pg_xlog_location_diff", FuncCategory::Scalar, FuncDomain::System, 2, Some(2), false));
    lemma_push_keeps_products(t, spec_core_entry("pg_xlog_replay_pause", FuncCategory::Scalar, FuncDomain::System, 0, Some(0), false));
    let t = t.push(spec_core_entry("pg_xlog_replay_pause", FuncCategory::Scalar, FuncDomain::System, 0, Some(0), false));
    lemma_push_keeps_products(t, spec_core_entry("pg_xlog_replay_resume", FuncCategory::Scalar, FuncDomain::System, 0, Some(0), false));
    let t = t.push(spec_core_entry("pg_xlog_replay_resume", FuncCategory::Scalar, FuncDomain::System, 0, Some(0), false));
    lemma_push_keeps_products(t, spec_core_entry("pg_xlogfile_name", FuncCategory::Scalar, FuncDomain::System, 1, Some(1), false));
    let t = t.push(spec_core_entry("pg_xlogfile_name", FuncCategory::Scalar, FuncDomain::System, 1, Some(1), false));
    lemma_push_keeps_products(t, spec_core_entry("pg_xlogfile_name_offset", FuncCategory::Scalar, FuncDomain::System, 1, Some(1), false));
    let t = t.push(spec_core_entry("pg_xlogfile_name_offset", FuncCategory::Scalar, FuncDomain::System, 1, Some(1), false));
    lemma_push_keeps_products(t, spec_core_entry("pi", FuncCategory::Scalar, FuncDomain::Math, 0, Some(0), false));
    let t = t.push(spec_core_entry("pi", FuncCategory::Scalar, FuncDomain::Math, 0, Some(0), false));
    lemma_push_keeps_products(t, spec_oracle_entry("pkg_service.isubmit_on_nodes", FuncCategory::Scalar, FuncDomain::PkgService, 5, Some(6), false));
    let t = t.push(spec_oracle_entry("pkg_service.isubmit_on_nodes", FuncCategory::Scalar, FuncDomain::PkgService, 5, Some(6), false));
    lemma_push_keeps_products(t, spec_oracle_entry("pkg_service.job_cancel", FuncCategory::Scalar, FuncDomain::PkgService, 1, Some(1), false));
    let t = t.push(spec_oracle_entry("pkg_service.job_cancel", FuncCategory::Scalar, FuncDomain::PkgService, 1, Some(1), false));
    lemma_push_keeps_products(t, spec_oracle_entry("pkg_service.job_finish", FuncCategory::Scalar, FuncDomain::PkgService, 2, Some(3), false));
    let t = t.push(spec_oracle_entry("pkg_service.job_finish", FuncCategory::Scalar, FuncDomain::PkgService, 2, Some(3), false));
    lemma_push_keeps_products(t, spec_oracle_entry("pkg_service.job_submit", FuncCategory::Scalar, FuncDomain::PkgService, 3, Some(5), false));
    let t = t.push(spec_oracle_entry("pkg_service.job_submit", FuncCategory::Scalar, FuncDomain::PkgService, 3, Some(5), false));
    lemma_push_keeps_products(t, spec_oracle_entry("pkg_service.job_update", FuncCategory::Scalar, FuncDomain::PkgService, 4, Some(4), false));
    let t = t.push(spec_oracle_entry("pkg_service.job_update", FuncCategory::Scalar, FuncDomain::PkgService, 4, Some(4), false));
    lemma_push_keeps_products(t, spec_oracle_entry("pkg_service.sql_cancel", FuncCategory::Scalar, FuncDomain::PkgService, 1, Some(1), false));
    let t = t.push(spec_oracle_entry("pkg_service.sql_cancel", FuncCategory::Scalar, FuncDomain::PkgService, 1, Some(1), false));
    lemma_push_keeps_products(t, spec_oracle_entry("pkg_service.sql_clean_all_contexts", FuncCategory::Scalar, FuncDomain::PkgService, 0, Some(0), false));
    let t = t.push(spec_oracle_entry("pkg_service.sql_clean_all_contexts", FuncCategory::Scalar, FuncDomain::PkgService, 0, Some(0), false));
    lemma_push_keeps_products(t, spec_oracle_entry("pkg_service.sql_get_array_result", FuncCategory::Scalar, FuncDomain::PkgService, 4, Some(4), false));
    let t = t.push(spec_oracle_entry("pkg_service.sql_get_array_result", FuncCategory::Scalar, FuncDomain::PkgService, 4, Some(4), false));
    lemma_push_keeps_products(t, spec_oracle_entry("pkg_service.sql_get_value", FuncCategory::Scalar, FuncDomain::PkgService, 3, Some(3), false));
    let t = t.push(spec_oracle_entry("pkg_service.sql_get_value", FuncCategory::Scalar, FuncDomain::PkgService, 3, Some(3), false));
    lemma_push_keeps_products(t, spec_oracle_entry("pkg_service.sql_get_variable_result", FuncCategory::Scalar, FuncDomain::PkgService, 3, Some(3), false));
    let t = t.push(spec_oracle_entry("pkg_service.sql_get_variable_result", FuncCategory::Scalar, FuncDomain::PkgService, 3, Some(3), false));
    lemma_push_keeps_products(t, spec_oracle_entry("pkg_service.sql_is_context_active", FuncCategory::Scalar, FuncDomain::PkgService, 1, Some(1), false));
    let t = t.push(spec_oracle_entry("pkg_service.sql_is_context_active", FuncCategory::Scalar, FuncDomain::PkgService, 1, Some(1), false));
    lemma_push_keeps_products(t, spec_oracle_entry("pkg_service.sql_next_row", FuncCategory::Scalar, FuncDomain::PkgService, 1, Some(1), false));
    let t = t.push(spec_oracle_entry("pkg_service.sql_next_row", FuncCategory::Scalar, FuncDomain::PkgService, 1, Some(1), false));
    lemma_push_keeps_products(t, spec_oracle_entry("pkg_service.sql_register_context", FuncCategory::Scalar, FuncDomain::PkgService, 0, Some(0), false));
    let t = t.push(spec_oracle_entry("pkg_service.sql_register_context", FuncCategory::Scalar, FuncDomain::PkgService, 0, Some(0), false));
    lemma_push_keeps_products(t, spec_oracle_entry("pkg_service.sql_run", FuncCategory::Scalar, FuncDomain::PkgService, 1, Some(1), false));
    let t = t.push(spec_oracle_entry("pkg_service.sql_run", FuncCategory::Scalar, FuncDomain::PkgService, 1, Some(1), false));
    lemma_push_keeps_products(t, spec_oracle_entry("pkg_service.sql_set_result_type", FuncCategory::Scalar, FuncDomain::PkgService, 4, Some(4), false));
    let t = t.push(spec_oracle_entry("pkg_service.sql_set_result_type", FuncCategory::Scalar, FuncDomain::PkgService, 4, Some(4), false));
    lemma_push_keeps_products(t, spec_oracle_entry("pkg_service.sql_set_sql", FuncCategory::Scalar, FuncDomain::PkgService, 3, Some(3), false));
    let t = t.push(spec_oracle_entry("pkg_service.sql_set_sql", FuncCategory::Scalar, FuncDomain::PkgService, 3, Some(3), false));
    lemma_push_keeps_products(t, spec_oracle_entry("pkg_service.sql_unregister_context", FuncCategory::Scalar, FuncDomain::PkgService, 1, Some(1), false));
    let t = t.push(spec_oracle_entry("pkg_service.sql_unregister_context", FuncCategory::Scalar, FuncDomain::PkgService, 1, Some(1), false));
    lemma_push_keeps_products(t, spec_oracle_entry("pkg_service.submit_on_nodes", FuncCategory::Scalar, FuncDomain::PkgService, 5, Some(6), false));
    let t = t.push(spec_oracle_entry("pkg_service.submit_on_nodes", FuncCategory::Scalar, FuncDomain::PkgService, 5, Some(6), false));
    lemma_push_keeps_products(t, spec_commercial_oracle_entry("pkg_util.app_read_action", FuncCategory::Scalar, FuncDomain::PkgUtil, 1, Some(1), false));
    let t = t.push(spec_commercial_oracle_entry("pkg_util.app_read_action", FuncCategory::Scalar, FuncDomain::PkgUtil, 1, Some(1), false));
    lemma_push_keeps_products(t, spec_commercial_oracle_entry("pkg_util.app_read_client_info", FuncCategory::Scalar, FuncDomain::PkgUtil, 1, Some(1), false));
    let t = t.push(spec_commercial_oracle_entry("pkg_util.app_read_client_info", FuncCategory::Scalar, FuncDomain::PkgUtil, 1, Some(1), false));
    lemma_push_keeps_products(t, spec_commercial_oracle_entry("pkg_util.app_read_module", FuncCategory::Scalar, FuncDomain::PkgUtil, 1, Some(1), false));
    let t = t.push(spec_commercial_oracle_entry("pkg_util.app_read_module", FuncCategory::Scalar, FuncDomain::PkgUtil, 1, Some(1), false));
    lemma_push_keeps_products(t, spec_commercial_oracle_entry("pkg_util.app_set_action", FuncCategory::Scalar, FuncDomain::PkgUtil, 1, Some(1), false));
    let t = t.push(spec_commercial_oracle_entry("pkg_util.app_set_action", FuncCategory::Scalar, FuncDomain::PkgUtil, 1, Some(1), false));
    lemma_push_keeps_products(t, spec_commercial_oracle_entry("pkg_util.app_set_client_info", FuncCategory::Scalar, FuncDomain::PkgUtil, 1, Some(1), false));
    let t = t.push(spec_commercial_oracle_entry("pkg_util.app_set_client_info", FuncCategory::Scalar, FuncDomain::PkgUtil, 1, Some(1), false));
    lemma_push_keeps_products(t, spec_commercial_oracle_entry("pkg_util.app_set_module", FuncCategory::Scalar, FuncDomain::PkgUtil, 1, Some(1), false));
    let t = t.push(spec_commercial_oracle_entry("pkg_util.app_set_module", FuncCategory::Scalar, FuncDomain::PkgUtil, 1, Some(1), false));
    lemma_push_keeps_products(t, spec_commercial_oracle_entry("pkg_util.bfile_close", FuncCategory::Scalar, FuncDomain::PkgUtil, 1, Some(1), false));
    let t = t.push(spec_commercial_oracle_entry("pkg_util.bfile_close", FuncCategory::Scalar, FuncDomain::PkgUtil, 1, Some(1), false));
    lemma_push_keeps_products(t, spec_commercial_oracle_entry("pkg_util.bfile_get_length", FuncCategory::Scalar, FuncDomain::PkgUtil, 1, Some(1), false));
    let t = t.push(spec_commercial_oracle_entry("pkg_util.bfile_get_length", FuncCategory::Scalar, FuncDomain::PkgUtil, 1, Some(1), false));
    lemma_push_keeps_products(t, spec_commercial_oracle_entry("pkg_util.bfile_open", FuncCategory::Scalar, FuncDomain::PkgUtil, 2, Some(2), false));
    let t = t.push(spec_commercial_oracle_entry("pkg_util.bfile_open", FuncCategory::Scalar, FuncDomain::PkgUtil, 2, Some(2), false));
    lemma_push_keeps_products(t, spec_commercial_oracle_entry("pkg_util.blob_reset", FuncCategory::Scalar, FuncDomain::PkgUtil, 2, Some(4), false));
    let t = t.push(spec_commercial_oracle_entry("pkg_util.blob_reset", FuncCategory::Scalar, FuncDomain::PkgUtil, 2, Some(4), false));
    lemma_push_keeps_products(t, spec_commercial_oracle_entry("pkg_util.clob_reset", FuncCategory::Scalar, FuncDomain::PkgUtil, 2, Some(3), false));
    let t = t.push(spec_commercial_oracle_entry("pkg_util.clob_reset", FuncCategory::Scalar, FuncDomain::PkgUtil, 2, Some(3), false));
    lemma_push_keeps_products(t, spec_commercial_oracle_entry("pkg_util.exception_report_error", FuncCategory::Scalar, FuncDomain::PkgUtil, 2, Some(3), false));
    let t = t.push(spec_commercial_oracle_entry("pkg_util.exception_report_error", FuncCategory::Scalar, FuncDomain::PkgUtil, 2, Some(3), false));
    lemma_push_keeps_products(t, spec_commercial_oracle_entry("pkg_util.file_block_size", FuncCategory::Scalar, FuncDomain::PkgUtil, 1, Some(1), false));
    let t = t.push(spec_commercial_oracle_entry("pkg_util.file_block_size", FuncCategory::Scalar, FuncDomain::PkgUtil, 1, Some(1), false));
    lemma_push_keeps_products(t, spec_commercial_oracle_entry("pkg_util.file_close_all", FuncCategory::Scalar, FuncDomain::PkgUtil, 0, Some(0), false));
    let t = t.push(spec_commercial_oracle_entry("pkg_util.file_close_all", FuncCategory::Scalar, FuncDomain::PkgUtil, 0, Some(0), false));
    lemma_push_keeps_products(t, spec_commercial_oracle_entry("pkg_util.file_exists", FuncCategory::Scalar, FuncDomain::PkgUtil, 1, Some(1), false));
    let t = t.push(spec_commercial_oracle_entry("pkg_util.file_exists", FuncCategory::Scalar, FuncDomain::PkgUtil, 1, Some(1), false));
    lemma_push_keeps_products(t, spec_commercial_oracle_entry("pkg_util.file_getpos", FuncCategory::Scalar, FuncDomain::PkgUtil, 1, Some(1), false));
    let t = t.push(spec_commercial_oracle_entry("pkg_util.file_getpos", FuncCategory::Scalar, FuncDomain::PkgUtil, 1, Some(1), false));
    lemma_push_keeps_products(t, spec_commercial_oracle_entry("pkg_util.file_is_close", FuncCategory::Scalar, FuncDomain::PkgUtil, 1, Some(1), false));
    let t = t.push(spec_commercial_oracle_entry("pkg_util.file_is_close", FuncCategory::Scalar, FuncDomain::PkgUtil, 1, Some(1), false));
    lemma_push_keeps_products(t, spec_commercial_oracle_entry("pkg_util.file_newline", FuncCategory::Scalar, FuncDomain::PkgUtil, 1, Some(1), false));
    let t = t.push(spec_commercial_oracle_entry("pkg_util.file_newline", FuncCategory::Scalar, FuncDomain::PkgUtil, 1, Some(1), false));
    lemma_push_keeps_products(t, spec_commercial_oracle_entry("pkg_util.file_open", FuncCategory::Scalar, FuncDomain::PkgUtil, 2, Some(2), false));
    let t = t.push(spec_commercial_oracle_entry("pkg_util.file_open", FuncCategory::Scalar, FuncDomain::PkgUtil, 2, Some(2), false));
    lemma_push_keeps_products(t, spec_commercial_oracle_entry("pkg_util.file_read", FuncCategory::Scalar, FuncDomain::PkgUtil, 2, Some(3), false));
    let t = t.push(spec_commercial_oracle_entry("pkg_util.file_read", FuncCategory::Scalar, FuncDomain::PkgUtil, 2, Some(3), false));
    lemma_push_keeps_products(t, spec_commercial_oracle_entry("pkg_util.file_read_raw", FuncCategory::Scalar, FuncDomain::PkgUtil, 1, Some(2), false));
    let t = t.push(spec_commercial_oracle_entry("pkg_util.file_read_raw", FuncCategory::Scalar, FuncDomain::PkgUtil, 1, Some(2), false));
    lemma_push_keeps_products(t, spec_commercial_oracle_entry("pkg_util.file_readline", FuncCategory::Scalar, FuncDomain::PkgUtil, 2, Some(3), false));
    let t = t.push(spec_commercial_oracle_entry("pkg_util.file_readline", FuncCategory::Scalar, FuncDomain::PkgUtil, 2, Some(3), false));
    lemma_push_keeps_products(t, spec_commercial_oracle_entry("pkg_util.file_remove", FuncCategory::Scalar, FuncDomain::PkgUtil, 1, Some(1), false));
    let t = t.push(spec_commercial_oracle_entry("pkg_util.file_remove", FuncCategory::Scalar, FuncDomain::PkgUtil, 1, Some(1), false));
    lemma_push_keeps_products(t, spec_commercial_oracle_entry("pkg_util.file_rename", FuncCategory::Scalar, FuncDomain::PkgUtil, 4, Some(5), false));
    let t = t.push(spec_commercial_oracle_entry("pkg_util.file_rename", FuncCategory::Scalar, FuncDomain::PkgUtil, 4, Some(5), false));
    lemma_push_keeps_products(t, spec_commercial_oracle_entry("pkg_util.file_seek", FuncCategory::Scalar, FuncDomain::PkgUtil, 2, Some(2), false));
    let t = t.push(spec_commercial_oracle_entry("pkg_util.file_seek", FuncCategory::Scalar, FuncDomain::PkgUtil, 2, Some(2), false));
    lemma_push_keeps_products(t, spec_commercial_oracle_entry("pkg_util.file_set_dirname", FuncCategory::Scalar, FuncDomain::PkgUtil, 1, Some(1), false));
    let t = t.push(spec_commercial_oracle_entry("pkg_util.file_set_dirname", FuncCategory::Scalar, FuncDomain::PkgUtil, 1, Some(1), false));
    lemma_push_keeps_products(t, spec_commercial_oracle_entry("pkg_util.file_set_max_line_size", FuncCategory::Scalar, FuncDomain::PkgUtil, 1, Some(1), false));
    let t = t.push(spec_commercial_oracle_entry("pkg_util.file_set_max_line_size", FuncCategory::Scalar, FuncDomain::PkgUtil, 1, Some(1), false));
    lemma_push_keeps_products(t, spec_commercial_oracle_entry("pkg_util.file_size", FuncCategory::Scalar, FuncDomain::PkgUtil, 1, Some(1), false));
    let t = t.push(spec_commercial_oracle_entry("pkg_util.file_size", FuncCategory::Scalar, FuncDomain::PkgUtil, 1, Some(1), false));
    lemma_push_keeps_products(t, spec_commercial_oracle_entry("pkg_util.file_write", FuncCategory::Scalar, FuncDomain::PkgUtil, 2, Some(2), false));
    let t = t.push(spec_commercial_oracle_entry("pkg_util.file_write", FuncCategory::Scalar, FuncDomain::PkgUtil, 2, Some(2), false));
    lemma_push_keeps_products(t, spec_commercial_oracle_entry("pkg_util.file_write_raw", FuncCategory::Scalar, FuncDomain::PkgUtil, 2, Some(2), false));
    let t = t.push(spec_commercial_oracle_entry("pkg_util.file_write_raw", FuncCategory::Scalar, FuncDomain::PkgUtil, 2, Some(2), false));
    assert(t == table_part_6(s));
}

proof fn lemma_part_7_products(s: Seq<FuncMeta>)
    requires
        names_products(s),
    ensures
        names_products(table_part_7(s)),
{
    let t = s;
    lemma_push_keeps_products(t, spec_commercial_oracle_entry("pkg_util.file_writeline", FuncCategory::Scalar, FuncDomain::PkgUtil, 2, Some(2), false));
    let t = t.push(spec_commercial_oracle_entry("pkg_util.file_writeline", FuncCategory::Scalar, FuncDomain::PkgUtil, 2, Some(2), false));
    lemma_push_keeps_products(t, spec_commercial_oracle_entry("pkg_util.gs_compile_schema", FuncCategory::Scalar, FuncDomain::PkgUtil, 0, Some(3), false));
    let t = t.push(spec_commercial_oracle_entry("pkg_util.gs_compile_schema", FuncCategory::Scalar, FuncDomain::PkgUtil, 0, Some(3), false));
    lemma_push_keeps_products(t, spec_commercial_oracle_entry("pkg_util.io_print", FuncCategory::Scalar, FuncDomain::PkgUtil, 2, Some(2), false));
    let t = t.push(spec_commercial_oracle_entry("pkg_util.io_print", FuncCategory::Scalar, FuncDomain::PkgUtil, 2, Some(2), false));
    lemma_push_keeps_products(t, spec_commercial_oracle_entry("pkg_util.loadblobfromfile", FuncCategory::Scalar, FuncDomain::PkgUtil, 5, Some(5), false));
    let t = t.push(spec_commercial_oracle_entry("pkg_util.loadblobfromfile", FuncCategory::Scalar, FuncDomain::PkgUtil, 5, Some(5), false));
    lemma_push_keeps_products(t, spec_commercial_oracle_entry("pkg_util.loadclobfromfile", FuncCategory::Scalar, FuncDomain::PkgUtil, 5, Some(5), false));
    let t = t.push(spec_commercial_oracle_entry("pkg_util.loadclobfromfile", FuncCategory::Scalar, FuncDomain::PkgUtil, 5, Some(5), false));
    lemma_push_keeps_products(t, spec_commercial_oracle_entry("pkg_util.lob_append", FuncCategory::Scalar, FuncDomain::PkgUtil, 2, Some(3), false));
    let t = t.push(spec_commercial_oracle_entry("pkg_util.lob_append", FuncCategory::Scalar, FuncDomain::PkgUtil, 2, Some(3), false));
    lemma_push_keeps_products(t, spec_commercial_oracle_entry("pkg_util.lob_append_huge", FuncCategory::Scalar, FuncDomain::PkgUtil, 2, Some(2), false));
    let t = t.push(spec_commercial_oracle_entry("pkg_util.lob_append_huge", FuncCategory::Scalar, FuncDomain::PkgUtil, 2, Some(2), false));
    lemma_push_keeps_products(t, spec_commercial_oracle_entry("pkg_util.lob_compare", FuncCategory::Scalar, FuncDomain::PkgUtil, 2, Some(5), false));
    let t = t.push(spec_commercial_oracle_entry("pkg_util.lob_compare", FuncCategory::Scalar, FuncDomain::PkgUtil, 2, Some(5), false));
    lemma_push_keeps_products(t, spec_commercial_oracle_entry("pkg_util.lob_converttoblob", FuncCategory::Scalar, FuncDomain::PkgUtil, 5, Some(5), false));
    let t = t.push(spec_commercial_oracle_entry("pkg_util.lob_converttoblob", FuncCategory::Scalar, FuncDomain::PkgUtil, 5, Some(5), false));
    lemma_push_keeps_products(t, spec_commercial_oracle_entry("pkg_util.lob_converttoblob_huge", FuncCategory::Scalar, FuncDomain::PkgUtil, 5, Some(5), false));
    let t = t.push(spec_commercial_oracle_entry("pkg_util.lob_converttoblob_huge", FuncCategory::Scalar, FuncDomain::PkgUtil, 5, Some(5), false));
    lemma_push_keeps_products(t, spec_commercial_oracle_entry("pkg_util.lob_converttoclob", FuncCategory::Scalar, FuncDomain::PkgUtil, 5, Some(5), false));
    let t = t.push(spec_commercial_oracle_entry("pkg_util.lob_converttoclob", FuncCategory::Scalar, FuncDomain::PkgUtil, 5, Some(5), false));
    lemma_push_keeps_products(t, spec_commercial_oracle_entry("pkg_util.lob_converttoclob_huge", FuncCategory::Scalar, FuncDomain::PkgUtil, 5, Some(5), false));
    let t = t.push(spec_commercial_oracle_entry("pkg_util.lob_converttoclob_huge", FuncCategory::Scalar, FuncDomain::PkgUtil, 5, Some(5), false));
    lemma_push_keeps_products(t, spec_commercial_oracle_entry("pkg_util.lob_copy_huge", FuncCategory::Scalar, FuncDomain::PkgUtil, 3, Some(5), false));
    let t = t.push(spec_commercial_oracle_entry("pkg_util.lob_copy_huge", FuncCategory::Scalar, FuncDomain::PkgUtil, 3, Some(5), false));
    lemma_push_keeps_products(t, spec_commercial_oracle_entry("pkg_util.lob_get_length", FuncCategory::Scalar, FuncDomain::PkgUtil, 1, Some(1), false));
    let t = t.push(spec_commercial_oracle_entry("pkg_util.lob_get_length", FuncCategory::Scalar, FuncDomain::PkgUtil, 1, Some(1), false));
    lemma_push_keeps_products(t, spec_commercial_oracle_entry("pkg_util.lob_match", FuncCategory::Scalar, FuncDomain::PkgUtil, 3, Some(4), false));
    let t = t.push(spec_commercial_oracle_entry("pkg_util.lob_match", FuncCategory::Scalar, FuncDomain::PkgUtil, 3, Some(4), false));
    lemma_push_keeps_products(t, spec_commercial_oracle_entry("pkg_util.lob_rawtotext", FuncCategory::Scalar, FuncDomain::PkgUtil, 1, Some(1), false));
    let t = t.push(spec_commercial_oracle_entry("pkg_util.lob_rawtotext", FuncCategory::Scalar, FuncDomain::PkgUtil, 1, Some(1), false));
    lemma_push_keeps_products(t, spec_commercial_oracle_entry("pkg_util.lob_read", FuncCategory::Scalar, FuncDomain::PkgUtil, 4, Some(4), false));
    let t = t.push(spec_commercial_oracle_entry("pkg_util.lob_read", FuncCategory::Scalar, FuncDomain::PkgUtil, 4, Some(4), false));
    lemma_push_keeps_products(t, spec_commercial_oracle_entry("pkg_util.lob_read_huge", FuncCategory::Scalar, FuncDomain::PkgUtil, 4, Some(4), false));
    let t = t.push(spec_commercial_oracle_entry("pkg_util.lob_read_huge", FuncCategory::Scalar, FuncDomain::PkgUtil, 4, Some(4), false));
    lemma_push_keeps_products(t, spec_commercial_oracle_entry("pkg_util.lob_reset", FuncCategory::Scalar, FuncDomain::PkgUtil, 3, Some(4), false));
    let t = t.push(spec_commercial_oracle_entry("pkg_util.lob_reset", FuncCategory::Scalar, FuncDomain::PkgUtil, 3, Some(4), false));
    lemma_push_keeps_products(t, spec_commercial_oracle_entry("pkg_util.lob_texttoraw", FuncCategory::Scalar, FuncDomain::PkgUtil, 1, Some(1), false));
    let t = t.push(spec_commercial_oracle_entry("pkg_util.lob_texttoraw", FuncCategory::Scalar, FuncDomain::PkgUtil, 1, Some(1), false));
    lemma_push_keeps_products(t, spec_commercial_oracle_entry("pkg_util.lob_write", FuncCategory::Scalar, FuncDomain::PkgUtil, 3, Some(3), false));
    let t = t.push(spec_commercial_oracle_entry("pkg_util.lob_write", FuncCategory::Scalar, FuncDomain::PkgUtil, 3, Some(3), false));
    lemma_push_keeps_products(t, spec_commercial_oracle_entry("pkg_util.lob_write_huge", FuncCategory::Scalar, FuncDomain::PkgUtil, 4, Some(4), false));
    let t = t.push(spec_commercial_oracle_entry("pkg_util.lob_write_huge", FuncCategory::Scalar, FuncDomain::PkgUtil, 4, Some(4), false));
    lemma_push_keeps_products(t, spec_commercial_oracle_entry("pkg_util.lob_writeappend_huge", FuncCategory::Scalar, FuncDomain::PkgUtil, 3, Some(3), false));
    let t = t.push(spec_commercial_oracle_entry("pkg_util.lob_writeappend_huge", FuncCategory::Scalar, FuncDomain::PkgUtil, 3, Some(3), false));
    lemma_push_keeps_products(t, spec_commercial_oracle_entry("pkg_util.match_edit_distance_similarity", FuncCategory::Scalar, FuncDomain::PkgUtil, 2, Some(2), false));
    let t = t.push(spec_commercial_oracle_entry("pkg_util.match_edit_distance_similarity", FuncCategory::Scalar, FuncDomain::PkgUtil, 2, Some(2), false));
    lemma_push_keeps_products(t, spec_commercial_oracle_entry("pkg_util.modify_package_state", FuncCategory::Scalar, FuncDomain::PkgUtil, 1, Some(1), false));
    let t = t.push(spec_commercial_oracle_entry("pkg_util.modify_package_state", FuncCategory::Scalar, FuncDomain::PkgUtil, 1, Some(1), false));
    lemma_push_keeps_products(t, spec_commercial_oracle_entry("pkg_util.random_get_value", FuncCategory::Scalar, FuncDomain::PkgUtil, 0, Some(0), false));
    let t = t.push(spec_commercial_oracle_entry("pkg_util.random_get_value", FuncCategory::Scalar, FuncDomain::PkgUtil, 0, Some(0), false));
    lemma_push_keeps_products(t, spec_commercial_oracle_entry("pkg_util.random_set_seed", FuncCategory::Scalar, FuncDomain::PkgUtil, 1, Some(1), false));
    let t = t.push(spec_commercial_oracle_entry("pkg_util.random_set_seed", FuncCategory::Scalar, FuncDomain::PkgUtil, 1, Some(1), false));
    lemma_push_keeps_products(t, spec_commercial_oracle_entry("pkg_util.raw_cast_from_binary_integer", FuncCategory::Scalar, FuncDomain::PkgUtil, 2, Some(2), false));
    let t = t.push(spec_commercial_oracle_entry("pkg_util.raw_cast_from_binary_integer", FuncCategory::Scalar, FuncDomain::PkgUtil, 2, Some(2), false));
    lemma_push_keeps_products(t, spec_commercial_oracle_entry("pkg_util.raw_cast_from_varchar2", FuncCategory::Scalar, FuncDomain::PkgUtil, 1, Some(1), false));
    let t = t.push(spec_commercial_oracle_entry("pkg_util.raw_cast_from_varchar2", FuncCategory::Scalar, FuncDomain::PkgUtil, 1, Some(1), false));
    lemma_push_keeps_products(t, spec_commercial_oracle_entry("pkg_util.raw_cast_to_binary_integer", FuncCategory::Scalar, FuncDomain::PkgUtil, 2, Some(2), false));
    let t = t.push(spec_commercial_oracle_entry("pkg_util.raw_cast_to_binary_integer", FuncCategory::Scalar, FuncDomain::PkgUtil, 2, Some(2), false));
    lemma_push_keeps_products(t, spec_commercial_oracle_entry("pkg_util.raw_cast_to_varchar2", FuncCategory::Scalar, FuncDomain::PkgUtil, 1, Some(1), false));
    let t = t.push(spec_commercial_oracle_entry("pkg_util.raw_cast_to_varchar2", FuncCategory::Scalar, FuncDomain::PkgUtil, 1, Some(1), false));
    lemma_push_keeps_products(t, spec_commercial_oracle_entry("pkg_util.raw_get_length", FuncCategory::Scalar, FuncDomain::PkgUtil, 1, Some(1), false));
    let t = t.push(spec_commercial_oracle_entry("pkg_util.raw_get_length", FuncCategory::Scalar, FuncDomain::PkgUtil, 1, Some(1), false));
    lemma_push_keeps_products(t, spec_commercial_oracle_entry("pkg_util.read_bfile_to_blob", FuncCategory::Scalar, FuncDomain::PkgUtil, 1, Some(1), false));
    let t = t.push(spec_commercial_oracle_entry("pkg_util.read_bfile_to_blob", FuncCategory::Scalar, FuncDomain::PkgUtil, 1, Some(1), false));
    lemma_push_keeps_products(t, spec_commercial_oracle_entry("pkg_util.session_clear_context", FuncCategory::Scalar, FuncDomain::PkgUtil, 3, Some(3), false));
    let t = t.push(spec_commercial_oracle_entry("pkg_util.session_clear_context", FuncCategory::Scalar, FuncDomain::PkgUtil, 3, Some(3), false));
    lemma_push_keeps_products(t, spec_commercial_oracle_entry("pkg_util.session_search_context", FuncCategory::Scalar, FuncDomain::PkgUtil, 2, Some(2), false));
    let t = t.push(spec_commercial_oracle_entry("pkg_util.session_search_context", FuncCategory::Scalar, FuncDomain::PkgUtil, 2, Some(2), false));
    lemma_push_keeps_products(t, spec_commercial_oracle_entry("pkg_util.session_set_context", FuncCategory::Scalar, FuncDomain::PkgUtil, 3, Some(3), false));
    let t = t.push(spec_commercial_oracle_entry("pkg_util.session_set_context", FuncCategory::Scalar, FuncDomain::PkgUtil, 3, Some(3), false));
    lemma_push_keeps_products(t, spec_commercial_oracle_entry("pkg_util.utility_compile_schema", FuncCategory::Scalar, FuncDomain::PkgUtil, 1, Some(3), false));
    let t = t.push(spec_commercial_oracle_entry("pkg_util.utility_compile_schema", FuncCategory::Scalar, FuncDomain::PkgUtil, 1, Some(3), false));
    lemma_push_keeps_products(t, spec_commercial_oracle_entry("pkg_util.utility_format_call_stack", FuncCategory::Scalar, FuncDomain::PkgUtil, 0, Some(0), false));
    let t = t.push(spec_commercial_oracle_entry("pkg_util.utility_format_call_stack", FuncCategory::Scalar, FuncDomain::PkgUtil, 0, Some(0), false));
    lemma_push_keeps_products(t, spec_commercial_oracle_entry("pkg_util.utility_format_error_backtrace", FuncCategory::Scalar, FuncDomain::PkgUtil, 0, Some(0), false));
    let t = t.push(spec_commercial_oracle_entry("pkg_util.utility_format_error_backtrace", FuncCategory::Scalar, FuncDomain::PkgUtil, 0, Some(0), false));
    lemma_push_keeps_products(t, spec_commercial_oracle_entry("pkg_util.utility_format_error_stack", FuncCategory::Scalar, FuncDomain::PkgUtil, 0, Some(0), false));
    let t = t.push(spec_commercial_oracle_entry("pkg_util.utility_format_error_stack", FuncCategory::Scalar, FuncDomain::PkgUtil, 0, Some(0), false));
    lemma_push_keeps_products(t, spec_commercial_oracle_entry("pkg_util.utility_get_time", FuncCategory::Scalar, FuncDomain::PkgUtil, 0, Some(0), false));
    let t = t.push(spec_commercial_oracle_entry("pkg_util.utility_get_time", FuncCategory::Scalar, FuncDomain::PkgUtil, 0, Some(0), false));
    lemma_push_keeps_products(t, spec_core_entry("plainto_tsquery", FuncCategory::Scalar, FuncDomain::TextSearch, 1, Some(2), false));
    let t = t.push(spec_core_entry("plainto_tsquery", FuncCategory::Scalar, FuncDomain::TextSearch, 1, Some(2), false));
    lemma_push_keeps_products(t, spec_core_entry("point", FuncCategory::Scalar, FuncDomain::Geometric, 2, Some(2), false));
    let t = t.push(spec_core_entry("point", FuncCategory::Scalar, FuncDomain::Geometric, 2, Some(2), false));
    lemma_push_keeps_products(t, spec_core_entry("polygon", FuncCategory::Scalar, FuncDomain::Geometric, 1, Some(1), false));
    let t = t.push(spec_core_entry("polygon", FuncCategory::Scalar, FuncDomain::Geometric, 1, Some(1), false));
    lemma_push_keeps_products(t, spec_core_entry("position", FuncCategory::Scalar, FuncDomain::String, 2, Some(2), false));
    let t = t.push(spec_core_entry("position", FuncCategory::Scalar, FuncDomain::String, 2, Some(2), false));
    lemma_push_keeps_products(t, spec_core_entry("power", FuncCategory::Scalar, FuncDomain::Math, 2, Some(2), false));
    let t = t.push(spec_core_entry("power", FuncCategory::Scalar, FuncDomain::Math, 2, Some(2), false));
    lemma_push_keeps_products(t, spec_core_entry("query_to_xml", FuncCategory::Scalar, FuncDomain::Xml, 4, Some(4), false));
    let t = t.push(spec_core_entry("query_to_xml", FuncCategory::Scalar, FuncDomain::Xml, 4, Some(4), false));
    lemma_push_keeps_products(t, spec_core_entry("query_to_xml_and_xmlschema", FuncCategory::Scalar, FuncDomain::Xml, 4, Some(4), false));
    let t = t.push(spec_core_entry("query_to_xml_and_xmlschema", FuncCategory::Scalar, FuncDomain::Xml, 4, Some(4), false));
    lemma_push_keeps_products(t, spec_core_entry("query_to_xmlschema", FuncCategory::Scalar, FuncDomain::Xml, 4, Some(4), false));
    let t = t.push(spec_core_entry("query_to_xmlschema", FuncCategory::Scalar, FuncDomain::Xml, 4, Some(4), false));
    lemma_push_keeps_products(t, spec_core_entry("querytree", FuncCategory::Scalar, FuncDomain::TextSearch, 1, Some(1), false));
    let t = t.push(spec_core_entry("querytree", FuncCategory::Scalar, FuncDomain::TextSearch, 1, Some(1), false));
    lemma_push_keeps_products(t, spec_core_entry("quote_ident", FuncCategory::Scalar, FuncDomain::String, 1, Some(1), false));
    let t = t.push(spec_core_entry("quote_ident", FuncCategory::Scalar, FuncDomain::String, 1, Some(1), false));
    lemma_push_keeps_products(t, spec_core_entry("quote_literal", FuncCategory::Scalar, FuncDomain::String, 1, Some(1), false));
    let t = t.push(spec_core_entry("quote_literal", FuncCategory::Scalar, FuncDomain::String, 1, Some(1), false));
    lemma_push_keeps_products(t, spec_core_entry("quote_nullable", FuncCategory::Scalar, FuncDomain::String, 1, Some(1), false));
    let t = t.push(spec_core_entry("quote_nullable", FuncCategory::Scalar, FuncDomain::String, 1, Some(1), false));
    lemma_push_keeps_products(t, spec_core_entry("radians", FuncCategory::Scalar, FuncDomain::Math, 1, Some(1), false));
    let t = t.push(spec_core_entry("radians", FuncCategory::Scalar, FuncDomain::Math, 1, Some(1), false));
    lemma_push_keeps_products(t, spec_core_entry("radius", FuncCategory::Scalar, FuncDomain::Geometric, 1, Some(1), false));
    let t = t.push(spec_core_entry("radius", FuncCategory::Scalar, FuncDomain::Geometric, 1, Some(1), false));
    lemma_push_keeps_products(t, spec_commercial_entry("rand", FuncCategory::Scalar, FuncDomain::Math, 0, Some(1), false));
    let t = t.push(spec_commercial_entry("rand", FuncCategory::Scalar, FuncDomain::Math, 0, Some(1), false));
    lemma_push_keeps_products(t, spec_core_entry("random", FuncCategory::Scalar, FuncDomain::Math, 0, Some(0), false));
    let t = t.push(spec_core_entry("random", FuncCategory::Scalar, FuncDomain::Math, 0, Some(0), false));
    lemma_push_keeps_products(t, spec_core_entry("rank", FuncCategory::Window, FuncDomain::Window, 0, Some(0), false));
    let t = t.push(spec_core_entry("rank", FuncCategory::Window, FuncDomain::Window, 0, Some(0), false));
    lemma_push_keeps_products(t, spec_core_entry("ratio_to_report", FuncCategory::Window, FuncDomain::Window, 1, Some(1), false));
    let t = t.push(spec_core_entry("ratio_to_report", FuncCategory::Window, FuncDomain::Window, 1, Some(1), false));
    lemma_push_keeps_products(t, spec_core_entry("rawout", FuncCategory::Scalar, FuncDomain::TypeConversion, 1, Some(1), false));
    let t = t.push(spec_core_entry("rawout", FuncCategory::Scalar, FuncDomain::TypeConversion, 1, Some(1), false));
    lemma_push_keeps_products(t, spec_core_entry("rawsend", FuncCategory::Scalar, FuncDomain::TypeConversion, 1, Some(1), false));
    let t = t.push(spec_core_entry("rawsend", FuncCategory::Scalar, FuncDomain::TypeConversion, 1, Some(1), false));
    lemma_push_keeps_products(t, spec_core_entry("rawtohex", FuncCategory::Scalar, FuncDomain::TypeConversion, 1, Some(1), false));
    let t = t.push(spec_core_entry("rawtohex", FuncCategory::Scalar, FuncDomain::TypeConversion, 1, Some(1), false));
    lemma_push_keeps_products(t, spec_oracle_entry("rawtohex2", FuncCategory::Scalar, FuncDomain::TypeConversion, 1, Some(1), false));
    let t = t.push(spec_oracle_entry("rawtohex2", FuncCategory::Scalar, FuncDomain::TypeConversion, 1, Some(1), false));
    lemma_push_keeps_products(t, spec_core_entry("regexp_count", FuncCategory::Scalar, FuncDomain::String, 2, Some(4), false));
    let t = t.push(spec_core_entry("regexp_count", FuncCategory::Scalar, FuncDomain::String, 2, Some(4), false));
    lemma_push_keeps_products(t, spec_core_entry("regexp_instr", FuncCategory::Scalar, FuncDomain::String, 2, Some(5), false));
    let t = t.push(spec_core_entry("regexp_instr", FuncCategory::Scalar, FuncDomain::String, 2, Some(5), false));
    lemma_push_keeps_products(t, spec_core_entry("regexp_like", FuncCategory::Scalar, FuncDomain::String, 2, Some(3), false));
    let t = t.push(spec_core_entry("regexp_like", FuncCategory::Scalar, FuncDomain::String, 2, Some(3), false));
    lemma_push_keeps_products(t, spec_core_entry("regexp_matches", FuncCategory::Scalar, FuncDomain::String, 2, Some(3), false));
    let t = t.push(spec_core_entry("regexp_matches", FuncCategory::Scalar, FuncDomain::String, 2, Some(3), false));
    lemma_push_keeps_products(t, spec_core_entry("regexp_replace", FuncCategory::Scalar, FuncDomain::String, 2, Some(6), false));
    let t = t.push(spec_core_entry("regexp_replace", FuncCategory::Scalar, FuncDomain::String, 2, Some(6), false));
    lemma_push_keeps_products(t, spec_core_entry("regexp_split_to_array", FuncCategory::Scalar, FuncDomain::String, 1, Some(3), false));
    let t = t.push(spec_core_entry("regexp_split_to_array", FuncCategory::Scalar, FuncDomain::String, 1, Some(3), false));
    lemma_push_keeps_products(t, spec_core_entry("regexp_split_to_table", FuncCategory::SetReturning, FuncDomain::String, 1, Some(3), false));
    let t = t.push(spec_core_entry("regexp_split_to_table", FuncCategory::SetReturning, FuncDomain::String, 1, Some(3), false));
    lemma_push_keeps_products(t, spec_core_entry("regexp_substr", FuncCategory::Scalar, FuncDomain::String, 2, Some(4), false));
    let t = t.push(spec_core_entry("regexp_substr", FuncCategory::Scalar, FuncDomain::String, 2, Some(4), false));
    lemma_push_keeps_products(t, spec_core_entry("regr_avgx", FuncCategory::Aggregate, FuncDomain::Aggregate, 2, Some(2), true));
    let t = t.push(spec_core_entry("regr_avgx", FuncCategory::Aggregate, FuncDomain::Aggregate, 2, Some(2), true));
    lemma_push_keeps_products(t, spec_core_entry("regr_avgy", FuncCategory::Aggregate, FuncDomain::Aggregate, 2, Some(2), true));
    let t = t.push(spec_core_entry("regr_avgy", FuncCategory::Aggregate, FuncDomain::Aggregate, 2, Some(2), true));
    lemma_push_keeps_products(t, spec_core_entry("regr_count", FuncCategory::Aggregate, FuncDomain::Aggregate, 2, Some(2), true));
    let t = t.push(spec_core_entry("regr_count", FuncCategory::Aggregate, FuncDomain::Aggregate, 2, Some(2), true));
    lemma_push_keeps_products(t, spec_core_entry("regr_intercept", FuncCategory::Aggregate, FuncDomain::Aggregate, 2, Some(2), true));
    let t = t.push(spec_core_entry("regr_intercept", FuncCategory::Aggregate, FuncDomain::Aggregate, 2, Some(2), true));
    lemma_push_keeps_products(t, spec_core_entry("regr_r2", FuncCategory::Aggregate, FuncDomain::Aggregate, 2, Some(2), true));
    let t = t.push(spec_core_entry("regr_r2", FuncCategory::Aggregate, FuncDomain::Aggregate, 2, Some(2), true));
    lemma_push_keeps_products(t, spec_core_entry("regr_slope", FuncCategory::Aggregate, FuncDomain::Aggregate, 2, Some(2), true));
    let t = t.push(spec_core_entry("regr_slope", FuncCategory::Aggregate, FuncDomain::Aggregate, 2, Some(2), true));
    lemma_push_keeps_products(t, spec_core_entry("regr_sxx", FuncCategory::Aggregate, FuncDomain::Aggregate, 2, Some(2), true));
    let t = t.push(spec_core_entry("regr_sxx", FuncCategory::Aggregate, FuncDomain::Aggregate, 2, Some(2), true));
    lemma_push_keeps_products(t, spec_core_entry("regr_sxy", FuncCategory::Aggregate, FuncDomain::Aggregate, 2, Some(2), true));
    let t = t.push(spec_core_entry("regr_sxy", FuncCategory::Aggregate, FuncDomain::Aggregate, 2, Some(2), true));
    lemma_push_keeps_products(t, spec_core_entry("regr_syy", FuncCategory::Aggregate, FuncDomain::Aggregate, 2, Some(2), true));
    let t = t.push(spec_core_entry("regr_syy", FuncCategory::Aggregate, FuncDomain::Aggregate, 2, Some(2), true));
    lemma_push_keeps_products(t, spec_commercial_oracle_entry("remainder", FuncCategory::Scalar, FuncDomain::Math, 2, Some(2), false));
    let t = t.push(spec_commercial_oracle_entry("remainder", FuncCategory::Scalar, FuncDomain::Math, 2, Some(2), false));
    lemma_push_keeps_products(t, spec_core_entry("repeat", FuncCategory::Scalar, FuncDomain::String, 2, Some(2), false));
    let t = t.push(spec_core_entry("repeat", FuncCategory::Scalar, FuncDomain::String, 2, Some(2), false));
    lemma_push_keeps_products(t, spec_core_entry("replace", FuncCategory::Scalar, FuncDomain::String, 2, Some(3), false));
    let t = t.push(spec_core_entry("replace", FuncCategory::Scalar, FuncDomain::String, 2, Some(3), false));
    lemma_push_keeps_products(t, spec_core_entry("reverse", FuncCategory::Scalar, FuncDomain::String, 1, Some(1), false));
    let t = t.push(spec_core_entry("reverse", FuncCategory::Scalar, FuncDomain::String, 1, Some(1), false));
    lemma_push_keeps_products(t, spec_core_entry("right", FuncCategory::Scalar, FuncDomain::String, 2, Some(2), false));
    let t = t.push(spec_core_entry("right", FuncCategory::Scalar, FuncDomain::String, 2, Some(2), false));
    lemma_push_keeps_products(t, spec_core_entry("round", FuncCategory::Scalar, FuncDomain::Math, 1, Some(2), false));
    let t = t.push(spec_core_entry("round", FuncCategory::Scalar, FuncDomain::Math, 1, Some(2), false));
    lemma_push_keeps_products(t, spec_core_entry("row_number", FuncCategory::Window, FuncDomain::Window, 0, Some(0), false));
    let t = t.push(spec_core_entry("row_number", FuncCategory::Window, FuncDomain::Window, 0, Some(0), false));
    lemma_push_keeps_products(t, spec_core_entry("row_to_json", FuncCategory::Scalar, FuncDomain::Json, 1, Some(2), false));
    let t = t.push(spec_core_entry("row_to_json", FuncCategory::Scalar, FuncDomain::Json, 1, Some(2), false));
    lemma_push_keeps_products(t, spec_oracle_entry("rownum", FuncCategory::Scalar, FuncDomain::OracleCompat, 0, Some(0), false));
    let t = t.push(spec_oracle_entry("rownum", FuncCategory::Scalar, FuncDomain::OracleCompat, 0, Some(0), false));
    lemma_push_keeps_products(t, spec_core_entry("rpad", FuncCategory::Scalar, FuncDomain::String, 2, Some(3), false));
    let t = t.push(spec_core_entry("rpad", FuncCategory::Scalar, FuncDomain::String, 2, Some(3), false));
    lemma_push_keeps_products(t, spec_core_entry("rtrim", FuncCategory::Scalar, FuncDomain::String, 1, Some(2), false));
    let t = t.push(spec_core_entry("rtrim", FuncCategory::Scalar, FuncDomain::String, 1, Some(2), false));
    lemma_push_keeps_products(t, spec_core_entry("schema_to_xml", FuncCategory::Scalar, FuncDomain::Xml, 4, Some(4), false));
    let t = t.push(spec_core_entry("schema_to_xml", FuncCategory::Scalar, FuncDomain::Xml, 4, Some(4), false));
    lemma_push_keeps_products(t, spec_core_entry("schema_to_xml_and_xmlschema", FuncCategory::Scalar, FuncDomain::Xml, 4, Some(4), false));
    let t = t.push(spec_core_entry("schema_to_xml_and_xmlschema", FuncCategory::Scalar, FuncDomain::Xml, 4, Some(4), false));
    lemma_push_keeps_products(t, spec_core_entry("schema_to_xmlschema", FuncCategory::Scalar, FuncDomain::Xml, 4, Some(4), false));
    let t = t.push(spec_core_entry("schema_to_xmlschema", FuncCategory::Scalar, FuncDomain::Xml, 4, Some(4), false));
    lemma_push_keeps_products(t, spec_commercial_entry("sec_to_time", FuncCategory::Scalar, FuncDomain::DateTime, 1, Some(1), false));
    let t = t.push(spec_commercial_entry("sec_to_time", FuncCategory::Scalar, FuncDomain::DateTime, 1, Some(1), false));
    lemma_push_keeps_products(t, spec_core_entry("session_user", FuncCategory::Scalar, FuncDomain::System, 0, Some(0), false));
    let t = t.push(spec_core_entry("session_user", FuncCategory::Scalar, FuncDomain::System, 0, Some(0), false));
    lemma_push_keeps_products(t, spec_core_entry("set_bit", FuncCategory::Scalar, FuncDomain::String, 3, Some(3), false));
    let t = t.push(spec_core_entry("set_bit", FuncCategory::Scalar, FuncDomain::String, 3, Some(3), false));
    lemma_push_keeps_products(t, spec_core_entry("set_byte", FuncCategory::Scalar, FuncDomain::String, 3, Some(3), false));
    let t = t.push(spec_core_entry("set_byte", FuncCategory::Scalar, FuncDomain::String, 3, Some(3), false));
    lemma_push_keeps_products(t, spec_core_entry("set_config", FuncCategory::Scalar, FuncDomain::System, 2, Some(3), false));
    let t = t.push(spec_core_entry("set_config", FuncCategory::Scalar, FuncDomain::System, 2, Some(3), false));
    lemma_push_keeps_products(t, spec_core_entry("setseed", FuncCategory::Scalar, FuncDomain::Math, 1, Some(1), false));
    let t = t.push(spec_core_entry("setseed", FuncCategory::Scalar, FuncDomain::Math, 1, Some(1), false));
    lemma_push_keeps_products(t, spec_core_entry("setval", FuncCategory::Scalar, FuncDomain::System, 2, Some(3), false));
    let t = t.push(spec_core_entry("setval", FuncCategory::Scalar, FuncDomain::System, 2, Some(3), false));
    lemma_push_keeps_products(t, spec_core_entry("sha1", FuncCategory::Scalar, FuncDomain::Crypto, 1, Some(1), false));
    let t = t.push(spec_core_entry("sha1", FuncCategory::Scalar, FuncDomain::Crypto, 1, Some(1), false));
    lemma_push_keeps_products(t, spec_core_entry("sha2", FuncCategory::Scalar, FuncDomain::Crypto, 1, Some(2), false));
    let t = t.push(spec_core_entry("sha2", FuncCategory::Scalar, FuncDomain::Crypto, 1, Some(2), false));
    lemma_push_keeps_products(t, spec_core_entry("sign", FuncCategory::Scalar, FuncDomain::Math, 1, Some(1), false));
    let t = t.push(spec_core_entry("sign", FuncCategory::Scalar, FuncDomain::Math, 1, Some(1), false));
    lemma_push_keeps_products(t, spec_core_entry("sin", FuncCategory::Scalar, FuncDomain::Math, 1, Some(1), false));
    let t = t.push(spec_core_entry("sin", FuncCategory::Scalar, FuncDomain::Math, 1, Some(1), false));
    lemma_push_keeps_products(t, spec_core_entry("split_part", FuncCategory::Scalar, FuncDomain::String, 3, Some(3), false));
    let t = t.push(spec_core_entry("split_part", FuncCategory::Scalar, FuncDomain::String, 3, Some(3), false));
    lemma_push_keeps_products(t, spec_core_entry("sqrt", FuncCategory::Scalar, FuncDomain::Math, 1, Some(1), false));
    let t = t.push(spec_core_entry("sqrt", FuncCategory::Scalar, FuncDomain::Math, 1, Some(1), false));
    lemma_push_keeps_products(t, spec_oracle_entry("st_buffer", FuncCategory::Scalar, FuncDomain::Geometric, 2, Some(3), false));
    let t = t.push(spec_oracle_entry("st_buffer", FuncCategory::Scalar, FuncDomain::Geometric, 2, Some(3), false));
    lemma_push_keeps_products(t, spec_oracle_entry("st_envelope", FuncCategory::Scalar, FuncDomain::Geometric, 1, Some(1), false));
    let t = t.push(spec_oracle_entry("st_envelope", FuncCategory::Scalar, FuncDomain::Geometric, 1, Some(1), false));
    lemma_push_keeps_products(t, spec_oracle_entry("st_makepoint", FuncCategory::Scalar, FuncDomain::Geometric, 2, Some(4), false));
    let t = t.push(spec_oracle_entry("st_makepoint", FuncCategory::Scalar, FuncDomain::Geometric, 2, Some(4), false));
    lemma_push_keeps_products(t, spec_oracle_entry("st_setsrid", FuncCategory::Scalar, FuncDomain::Geometric, 2, Some(2), false));
    let t = t.push(spec_oracle_entry("st_setsrid", FuncCategory::Scalar, FuncDomain::Geometric, 2, Some(2), false));
    lemma_push_keeps_products(t, spec_core_entry("statement_timestamp", FuncCategory::Scalar, FuncDomain::DateTime, 0, Some(0), false));
    let t = t.push(spec_core_entry("statement_timestamp", FuncCategory::Scalar, FuncDomain::DateTime, 0, Some(0), false));
    lemma_push_keeps_products(t, spec_core_entry("stddev", FuncCategory::Aggregate, FuncDomain::Aggregate, 1, Some(1), true));
    let t = t.push(spec_core_entry("stddev", FuncCategory::Aggregate, FuncDomain::Aggregate, 1, Some(1), true));
    lemma_push_keeps_products(t, spec_core_entry("stddev_pop", FuncCategory::Aggregate, FuncDomain::Aggregate, 1, Some(1), true));
    let t = t.push(spec_core_entry("stddev_pop", FuncCategory::Aggregate, FuncDomain::Aggregate, 1, Some(1), true));
    lemma_push_keeps_products(t, spec_core_entry("stddev_samp", FuncCategory::Aggregate, FuncDomain::Aggregate, 1, Some(1), true));
    let t = t.push(spec_core_entry("stddev_samp", FuncCategory::Aggregate, FuncDomain::Aggregate, 1, Some(1), true));
    lemma_push_keeps_products(t, spec_commercial_entry("str_to_date", FuncCategory::Scalar, FuncDomain::DateTime, 2, Some(2), false));
    let t = t.push(spec_commercial_entry("str_to_date", FuncCategory::Scalar, FuncDomain::DateTime, 2, Some(2), false));
    lemma_push_keeps_products(t, spec_core_entry("string_agg", FuncCategory::Aggregate, FuncDomain::String, 2, Some(2), true));
    let t = t.push(spec_core_entry("string_agg", FuncCategory::Aggregate, FuncDomain::String, 2, Some(2), true));
    lemma_push_keeps_products(t, spec_core_entry("string_to_array", FuncCategory::Scalar, FuncDomain::Array, 2, Some(3), false));
    let t = t.push(spec_core_entry("string_to_array", FuncCategory::Scalar, FuncDomain::Array, 2, Some(3), false));
    lemma_push_keeps_products(t, spec_core_entry("strpos", FuncCategory::Scalar, FuncDomain::String, 2, Some(2), false));
    let t = t.push(spec_core_entry("strpos", FuncCategory::Scalar, FuncDomain::String, 2, Some(2), false));
    lemma_push_keeps_products(t, spec_commercial_entry("subdate", FuncCategory::Scalar, FuncDomain::DateTime, 2, Some(2), false));
    let t = t.push(spec_commercial_entry("subdate", FuncCategory::Scalar, FuncDomain::DateTime, 2, Some(2), false));
    lemma_push_keeps_products(t, spec_core_entry("substr", FuncCategory::Scalar, FuncDomain::String, 2, Some(3), false));
    let t = t.push(spec_core_entry("substr", FuncCategory::Scalar, FuncDomain::String, 2, Some(3), false));
    lemma_push_keeps_products(t, spec_oracle_entry("substrb", FuncCategory::Scalar, FuncDomain::String, 2, Some(3), false));
    let t = t.push(spec_oracle_entry("substrb", FuncCategory::Scalar, FuncDomain::String, 2, Some(3), false));
    lemma_push_keeps_products(t, spec_core_entry("substring", FuncCategory::Scalar, FuncDomain::String, 2, Some(3), false));
    let t = t.push(spec_core_entry("substring", FuncCategory::Scalar, FuncDomain::String, 2, Some(3), false));
    lemma_push_keeps_products(t, spec_commercial_entry("substring_index", FuncCategory::Scalar, FuncDomain::String, 3, Some(3), false));
    let t = t.push(spec_commercial_entry("substring_index", FuncCategory::Scalar, FuncDomain::String, 3, Some(3), false));
    lemma_push_keeps_products(t, spec_commercial_entry("subtime", FuncCategory::Scalar, FuncDomain::DateTime, 2, Some(2), false));
    let t = t.push(spec_commercial_entry("subtime", FuncCategory::Scalar, FuncDomain::DateTime, 2, Some(2), false));
    assert(t == table_part_7(s));
}

proof fn lemma_part_8_products(s: Seq<FuncMeta>)
    requires
        names_products(s),
    ensures
        names_products(table_part_8(s)),
{
    let t = s;
    lemma_push_keeps_products(t, spec_core_entry("sum", FuncCategory::Aggregate, FuncDomain::Aggregate, 1, Some(1), true));
    let t = t.push(spec_core_entry("sum", FuncCategory::Aggregate, FuncDomain::Aggregate, 1, Some(1), true));
    lemma_push_keeps_products(t, spec_commercial_oracle_entry("sys_connect_by_path", FuncCategory::Scalar, FuncDomain::OracleCompat, 2, Some(2), false));
    let t = t.push(spec_commercial_oracle_entry("sys_connect_by_path", FuncCategory::Scalar, FuncDomain::OracleCompat, 2, Some(2), false));
    lemma_push_keeps_products(t, spec_commercial_oracle_entry("sys_context", FuncCategory::Scalar, FuncDomain::System, 2, Some(3), false));
    let t = t.push(spec_commercial_oracle_entry("sys_context", FuncCategory::Scalar, FuncDomain::System, 2, Some(3), false));
    lemma_push_keeps_products(t, spec_commercial_oracle_entry("sys_extract_utc", FuncCategory::Scalar, FuncDomain::DateTime, 1, Some(1), false));
    let t = t.push(spec_commercial_oracle_entry("sys_extract_utc", FuncCategory::Scalar, FuncDomain::DateTime, 1, Some(1), false));
    lemma_push_keeps_products(t, spec_oracle_entry("sysdate", FuncCategory::Scalar, FuncDomain::OracleCompat, 0, Some(0), false));
    let t = t.push(spec_oracle_entry("sysdate", FuncCategory::Scalar, FuncDomain::OracleCompat, 0, Some(0), false));
    lemma_push_keeps_products(t, spec_core_entry("table_to_xml", FuncCategory::Scalar, FuncDomain::Xml, 4, Some(4), false));
    let t = t.push(spec_core_entry("table_to_xml", FuncCategory::Scalar, FuncDomain::Xml, 4, Some(4), false));
    lemma_push_keeps_products(t, spec_core_entry("table_to_xml_and_xmlschema", FuncCategory::Scalar, FuncDomain::Xml, 4, Some(4), false));
    let t = t.push(spec_core_entry("table_to_xml_and_xmlschema", FuncCategory::Scalar, FuncDomain::Xml, 4, Some(4), false));
    lemma_push_keeps_products(t, spec_core_entry("table_to_xmlschema", FuncCategory::Scalar, FuncDomain::Xml, 4, Some(4), false));
    let t = t.push(spec_core_entry("table_to_xmlschema", FuncCategory::Scalar, FuncDomain::Xml, 4, Some(4), false));
    lemma_push_keeps_products(t, spec_core_entry("tan", FuncCategory::Scalar, FuncDomain::Math, 1, Some(1), false));
    let t = t.push(spec_core_entry("tan", FuncCategory::Scalar, FuncDomain::Math, 1, Some(1), false));
    lemma_push_keeps_products(t, spec_commercial_entry("time_format", FuncCategory::Scalar, FuncDomain::DateTime, 2, Some(2), false));
    let t = t.push(spec_commercial_entry("time_format", FuncCategory::Scalar, FuncDomain::DateTime, 2, Some(2), false));
    lemma_push_keeps_products(t, spec_commercial_entry("time_to_sec", FuncCategory::Scalar, FuncDomain::DateTime, 1, Some(1), false));
    let t = t.push(spec_commercial_entry("time_to_sec", FuncCategory::Scalar, FuncDomain::DateTime, 1, Some(1), false));
    lemma_push_keeps_products(t, spec_commercial_entry("timediff", FuncCategory::Scalar, FuncDomain::DateTime, 2, Some(2), false));
    let t = t.push(spec_commercial_entry("timediff", FuncCategory::Scalar, FuncDomain::DateTime, 2, Some(2), false));
    lemma_push_keeps_products(t, spec_core_entry("timenow", FuncCategory::Scalar, FuncDomain::DateTime, 0, Some(0), false));
    let t = t.push(spec_core_entry("timenow", FuncCategory::Scalar, FuncDomain::DateTime, 0, Some(0), false));
    lemma_push_keeps_products(t, spec_core_entry("timeofday", FuncCategory::Scalar, FuncDomain::DateTime, 0, Some(0), false));
    let t = t.push(spec_core_entry("timeofday", FuncCategory::Scalar, FuncDomain::DateTime, 0, Some(0), false));
    lemma_push_keeps_products(t, spec_commercial_entry("timestampadd", FuncCategory::Scalar, FuncDomain::DateTime, 3, Some(3), false));
    let t = t.push(spec_commercial_entry("timestampadd", FuncCategory::Scalar, FuncDomain::DateTime, 3, Some(3), false));
    lemma_push_keeps_products(t, spec_commercial_entry("timestampdiff", FuncCategory::Scalar, FuncDomain::DateTime, 3, Some(3), false));
    let t = t.push(spec_commercial_entry("timestampdiff", FuncCategory::Scalar, FuncDomain::DateTime, 3, Some(3), false));
    lemma_push_keeps_products(t, spec_core_entry("to_ascii", FuncCategory::Scalar, FuncDomain::TypeConversion, 1, Some(2), false));
    let t = t.push(spec_core_entry("to_ascii", FuncCategory::Scalar, FuncDomain::TypeConversion, 1, Some(2), false));
    lemma_push_keeps_products(t, spec_oracle_entry("to_bigint", FuncCategory::Scalar, FuncDomain::TypeConversion, 1, Some(1), false));
    let t = t.push(spec_oracle_entry("to_bigint", FuncCategory::Scalar, FuncDomain::TypeConversion, 1, Some(1), false));
    lemma_push_keeps_products(t, spec_commercial_oracle_entry("to_binary_double", FuncCategory::Scalar, FuncDomain::TypeConversion, 1, Some(2), false));
    let t = t.push(spec_commercial_oracle_entry("to_binary_double", FuncCategory::Scalar, FuncDomain::TypeConversion, 1, Some(2), false));
    lemma_push_keeps_products(t, spec_oracle_entry("to_binary_float", FuncCategory::Scalar, FuncDomain::TypeConversion, 1, Some(2), false));
    let t = t.push(spec_oracle_entry("to_binary_float", FuncCategory::Scalar, FuncDomain::TypeConversion, 1, Some(2), false));
    lemma_push_keeps_products(t, spec_oracle_entry("to_blob", FuncCategory::Scalar, FuncDomain::TypeConversion, 1, Some(1), false));
    let t = t.push(spec_oracle_entry("to_blob", FuncCategory::Scalar, FuncDomain::TypeConversion, 1, Some(1), false));
    lemma_push_keeps_products(t, spec_core_entry("to_char", FuncCategory::Scalar, FuncDomain::TypeConversion, 1, Some(2), false));
    let t = t.push(spec_core_entry("to_char", FuncCategory::Scalar, FuncDomain::TypeConversion, 1, Some(2), false));
    lemma_push_keeps_products(t, spec_core_entry("to_clob", FuncCategory::Scalar, FuncDomain::TypeConversion, 1, Some(1), false));
    let t = t.push(spec_core_entry("to_clob", FuncCategory::Scalar, FuncDomain::TypeConversion, 1, Some(1), false));
    lemma_push_keeps_products(t, spec_core_entry("to_date", FuncCategory::Scalar, FuncDomain::TypeConversion, 1, Some(2), false));
    let t = t.push(spec_core_entry("to_date", FuncCategory::Scalar, FuncDomain::TypeConversion, 1, Some(2), false));
    lemma_push_keeps_products(t, spec_commercial_entry("to_days", FuncCategory::Scalar, FuncDomain::DateTime, 1, Some(1), false));
    let t = t.push(spec_commercial_entry("to_days", FuncCategory::Scalar, FuncDomain::DateTime, 1, Some(1), false));
    lemma_push_keeps_products(t, spec_oracle_entry("to_dsinterval", FuncCategory::Scalar, FuncDomain::TypeConversion, 1, Some(1), false));
    let t = t.push(spec_oracle_entry("to_dsinterval", FuncCategory::Scalar, FuncDomain::TypeConversion, 1, Some(1), false));
    lemma_push_keeps_products(t, spec_core_entry("to_hex", FuncCategory::Scalar, FuncDomain::TypeConversion, 1, Some(1), false));
    let t = t.push(spec_core_entry("to_hex", FuncCategory::Scalar, FuncDomain::TypeConversion, 1, Some(1), false));
    lemma_push_keeps_products(t, spec_core_entry("to_json", FuncCategory::Scalar, FuncDomain::Json, 1, Some(1), false));
    let t = t.push(spec_core_entry("to_json", FuncCategory::Scalar, FuncDomain::Json, 1, Some(1), false));
    lemma_push_keeps_products(t, spec_core_entry("to_jsonb", FuncCategory::Scalar, FuncDomain::Json, 1, Some(1), false));
    let t = t.push(spec_core_entry("to_jsonb", FuncCategory::Scalar, FuncDomain::Json, 1, Some(1), false));
    lemma_push_keeps_products(t, spec_commercial_oracle_entry("to_multi_byte", FuncCategory::Scalar, FuncDomain::String, 1, Some(1), false));
    let t = t.push(spec_commercial_oracle_entry("to_multi_byte", FuncCategory::Scalar, FuncDomain::String, 1, Some(1), false));
    lemma_push_keeps_products(t, spec_commercial_oracle_entry("to_nchar", FuncCategory::Scalar, FuncDomain::TypeConversion, 1, Some(2), false));
    let t = t.push(spec_commercial_oracle_entry("to_nchar", FuncCategory::Scalar, FuncDomain::TypeConversion, 1, Some(2), false));
    lemma_push_keeps_products(t, spec_core_entry("to_number", FuncCategory::Scalar, FuncDomain::TypeConversion, 1, Some(2), false));
    let t = t.push(spec_core_entry("to_number", FuncCategory::Scalar, FuncDomain::TypeConversion, 1, Some(2), false));
    lemma_push_keeps_products(t, spec_commercial_entry("to_seconds", FuncCategory::Scalar, FuncDomain::DateTime, 1, Some(1), false));
    let t = t.push(spec_commercial_entry("to_seconds", FuncCategory::Scalar, FuncDomain::DateTime, 1, Some(1), false));
    lemma_push_keeps_products(t, spec_commercial_oracle_entry("to_single_byte", FuncCategory::Scalar, FuncDomain::String, 1, Some(1), false));
    let t = t.push(spec_commercial_oracle_entry("to_single_byte", FuncCategory::Scalar, FuncDomain::String, 1, Some(1), false));
    lemma_push_keeps_products(t, spec_core_entry("to_timestamp", FuncCategory::Scalar, FuncDomain::DateTime, 1, Some(2), false));
    let t = t.push(spec_core_entry("to_timestamp", FuncCategory::Scalar, FuncDomain::DateTime, 1, Some(2), false));
    lemma_push_keeps_products(t, spec_commercial_oracle_entry("to_timestamp_tz", FuncCategory::Scalar, FuncDomain::DateTime, 1, Some(2), false));
    let t = t.push(spec_commercial_oracle_entry("to_timestamp_tz", FuncCategory::Scalar, FuncDomain::DateTime, 1, Some(2), false));
    lemma_push_keeps_products(t, spec_core_entry("to_tsquery", FuncCategory::Scalar, FuncDomain::TextSearch, 1, Some(2), false));
    let t = t.push(spec_core_entry("to_tsquery", FuncCategory::Scalar, FuncDomain::TextSearch, 1, Some(2), false));
    lemma_push_keeps_products(t, spec_core_entry("to_tsvector", FuncCategory::Scalar, FuncDomain::TextSearch, 1, Some(2), false));
    let t = t.push(spec_core_entry("to_tsvector", FuncCategory::Scalar, FuncDomain::TextSearch, 1, Some(2), false));
    lemma_push_keeps_products(t, spec_oracle_entry("to_yminterval", FuncCategory::Scalar, FuncDomain::TypeConversion, 1, Some(1), false));
    let t = t.push(spec_oracle_entry("to_yminterval", FuncCategory::Scalar, FuncDomain::TypeConversion, 1, Some(1), false));
    lemma_push_keeps_products(t, spec_core_entry("transaction_timestamp", FuncCategory::Scalar, FuncDomain::DateTime, 0, Some(0), false));
    let t = t.push(spec_core_entry("transaction_timestamp", FuncCategory::Scalar, FuncDomain::DateTime, 0, Some(0), false));
    lemma_push_keeps_products(t, spec_core_entry("translate", FuncCategory::Scalar, FuncDomain::String, 3, Some(3), false));
    let t = t.push(spec_core_entry("translate", FuncCategory::Scalar, FuncDomain::String, 3, Some(3), false));
    lemma_push_keeps_products(t, spec_commercial_oracle_entry("treat", FuncCategory::Scalar, FuncDomain::TypeConversion, 1, Some(1), false));
    let t = t.push(spec_commercial_oracle_entry("treat", FuncCategory::Scalar, FuncDomain::TypeConversion, 1, Some(1), false));
    lemma_push_keeps_products(t, spec_core_entry("trim", FuncCategory::Scalar, FuncDomain::String, 1, Some(3), false));
    let t = t.push(spec_core_entry("trim", FuncCategory::Scalar, FuncDomain::String, 1, Some(3), false));
    lemma_push_keeps_products(t, spec_core_entry("trunc", FuncCategory::Scalar, FuncDomain::Math, 1, Some(2), false));
    let t = t.push(spec_core_entry("trunc", FuncCategory::Scalar, FuncDomain::Math, 1, Some(2), false));
    lemma_push_keeps_products(t, spec_core_entry("ts_headline", FuncCategory::Scalar, FuncDomain::TextSearch, 2, Some(4), false));
    let t = t.push(spec_core_entry("ts_headline", FuncCategory::Scalar, FuncDomain::TextSearch, 2, Some(4), false));
    lemma_push_keeps_products(t, spec_core_entry("ts_lexize", FuncCategory::Scalar, FuncDomain::TextSearch, 2, Some(2), false));
    let t = t.push(spec_core_entry("ts_lexize", FuncCategory::Scalar, FuncDomain::TextSearch, 2, Some(2), false));
    lemma_push_keeps_products(t, spec_core_entry("ts_parse", FuncCategory::Scalar, FuncDomain::TextSearch, 1, Some(2), false));
    let t = t.push(spec_core_entry("ts_parse", FuncCategory::Scalar, FuncDomain::TextSearch, 1, Some(2), false));
    lemma_push_keeps_products(t, spec_core_entry("ts_rank", FuncCategory::Scalar, FuncDomain::TextSearch, 1, Some(4), false));
    let t = t.push(spec_core_entry("ts_rank", FuncCategory::Scalar, FuncDomain::TextSearch, 1, Some(4), false));
    lemma_push_keeps_products(t, spec_core_entry("ts_rank_cd", FuncCategory::Scalar, FuncDomain::TextSearch, 1, Some(4), false));
    let t = t.push(spec_core_entry("ts_rank_cd", FuncCategory::Scalar, FuncDomain::TextSearch, 1, Some(4), false));
    lemma_push_keeps_products(t, spec_core_entry("ts_rewrite", FuncCategory::Scalar, FuncDomain::TextSearch, 2, Some(3), false));
    let t = t.push(spec_core_entry("ts_rewrite", FuncCategory::Scalar, FuncDomain::TextSearch, 2, Some(3), false));
    lemma_push_keeps_products(t, spec_core_entry("ts_stat", FuncCategory::Scalar, FuncDomain::TextSearch, 1, Some(2), false));
    let t = t.push(spec_core_entry("ts_stat", FuncCategory::Scalar, FuncDomain::TextSearch, 1, Some(2), false));
    lemma_push_keeps_products(t, spec_core_entry("ts_token_type", FuncCategory::Scalar, FuncDomain::TextSearch, 0, Some(1), false));
    let t = t.push(spec_core_entry("ts_token_type", FuncCategory::Scalar, FuncDomain::TextSearch, 0, Some(1), false));
    lemma_push_keeps_products(t, spec_core_entry("tsrange", FuncCategory::Scalar, FuncDomain::Range, 2, Some(3), false));
    let t = t.push(spec_core_entry("tsrange", FuncCategory::Scalar, FuncDomain::Range, 2, Some(3), false));
    lemma_push_keeps_products(t, spec_core_entry("tsvector_update_trigger", FuncCategory::Scalar, FuncDomain::TextSearch, 0, Some(0), false));
    let t = t.push(spec_core_entry("tsvector_update_trigger", FuncCategory::Scalar, FuncDomain::TextSearch, 0, Some(0), false));
    lemma_push_keeps_products(t, spec_core_entry("txid_current", FuncCategory::Scalar, FuncDomain::System, 0, Some(0), false));
    let t = t.push(spec_core_entry("txid_current", FuncCategory::Scalar, FuncDomain::System, 0, Some(0), false));
    lemma_push_keeps_products(t, spec_core_entry("txid_current_snapshot", FuncCategory::Scalar, FuncDomain::System, 0, Some(0), false));
    let t = t.push(spec_core_entry("txid_current_snapshot", FuncCategory::Scalar, FuncDomain::System, 0, Some(0), false));
    lemma_push_keeps_products(t, spec_core_entry("txid_snapshot_xip", FuncCategory::Scalar, FuncDomain::System, 1, Some(1), false));
    let t = t.push(spec_core_entry("txid_snapshot_xip", FuncCategory::Scalar, FuncDomain::System, 1, Some(1), false));
    lemma_push_keeps_products(t, spec_core_entry("txid_snapshot_xmax", FuncCategory::Scalar, FuncDomain::System, 1, Some(1), false));
    let t = t.push(spec_core_entry("txid_snapshot_xmax", FuncCategory::Scalar, FuncDomain::System, 1, Some(1), false));
    lemma_push_keeps_products(t, spec_core_entry("txid_snapshot_xmin", FuncCategory::Scalar, FuncDomain::System, 1, Some(1), false));
    let t = t.push(spec_core_entry("txid_snapshot_xmin", FuncCategory::Scalar, FuncDomain::System, 1, Some(1), false));
    lemma_push_keeps_products(t, spec_core_entry("txid_visible_in_snapshot", FuncCategory::Scalar, FuncDomain::System, 2, Some(2), false));
    let t = t.push(spec_core_entry("txid_visible_in_snapshot", FuncCategory::Scalar, FuncDomain::System, 2, Some(2), false));
    lemma_push_keeps_products(t, spec_commercial_oracle_entry("tz_offset", FuncCategory::Scalar, FuncDomain::DateTime, 1, Some(1), false));
    let t = t.push(spec_commercial_oracle_entry("tz_offset", FuncCategory::Scalar, FuncDomain::DateTime, 1, Some(1), false));
    lemma_push_keeps_products(t, spec_oracle_entry("unistr", FuncCategory::Scalar, FuncDomain::String, 1, Some(1), false));
    let t = t.push(spec_oracle_entry("unistr", FuncCategory::Scalar, FuncDomain::String, 1, Some(1), false));
    lemma_push_keeps_products(t, spec_commercial_entry("unix_timestamp", FuncCategory::Scalar, FuncDomain::DateTime, 0, Some(1), false));
    let t = t.push(spec_commercial_entry("unix_timestamp", FuncCategory::Scalar, FuncDomain::DateTime, 0, Some(1), false));
    lemma_push_keeps_products(t, spec_core_entry("unnest", FuncCategory::SetReturning, FuncDomain::Array, 1, Some(1), false));
    let t = t.push(spec_core_entry("unnest", FuncCategory::SetReturning, FuncDomain::Array, 1, Some(1), false));
    lemma_push_keeps_products(t, spec_commercial_entry("unnest_table", FuncCategory::SetReturning, FuncDomain::Array, 1, Some(1), false));
    let t = t.push(spec_commercial_entry("unnest_table", FuncCategory::SetReturning, FuncDomain::Array, 1, Some(1), false));
    lemma_push_keeps_products(t, spec_core_entry("upper", FuncCategory::Scalar, FuncDomain::String, 1, Some(1), false));
    let t = t.push(spec_core_entry("upper", FuncCategory::Scalar, FuncDomain::String, 1, Some(1), false));
    lemma_push_keeps_products(t, spec_core_entry("user", FuncCategory::Scalar, FuncDomain::System, 0, Some(0), false));
    let t = t.push(spec_core_entry("user", FuncCategory::Scalar, FuncDomain::System, 0, Some(0), false));
    lemma_push_keeps_products(t, spec_commercial_entry("utc_date", FuncCategory::Scalar, FuncDomain::DateTime, 0, Some(0), false));
    let t = t.push(spec_commercial_entry("utc_date", FuncCategory::Scalar, FuncDomain::DateTime, 0, Some(0), false));
    lemma_push_keeps_products(t, spec_commercial_entry("utc_time", FuncCategory::Scalar, FuncDomain::DateTime, 0, Some(1), false));
    let t = t.push(spec_commercial_entry("utc_time", FuncCategory::Scalar, FuncDomain::DateTime, 0, Some(1), false));
    lemma_push_keeps_products(t, spec_commercial_entry("utc_timestamp", FuncCategory::Scalar, FuncDomain::DateTime, 0, Some(1), false));
    let t = t.push(spec_commercial_entry("utc_timestamp", FuncCategory::Scalar, FuncDomain::DateTime, 0, Some(1), false));
    lemma_push_keeps_products(t, spec_oracle_entry("utl_file.fclose", FuncCategory::Scalar, FuncDomain::UtlFile, 1, Some(1), false));
    let t = t.push(spec_oracle_entry("utl_file.fclose", FuncCategory::Scalar, FuncDomain::UtlFile, 1, Some(1), false));
    lemma_push_keeps_products(t, spec_oracle_entry("utl_file.fclose_all", FuncCategory::Scalar, FuncDomain::UtlFile, 0, Some(0), false));
    let t = t.push(spec_oracle_entry("utl_file.fclose_all", FuncCategory::Scalar, FuncDomain::UtlFile, 0, Some(0), false));
    lemma_push_keeps_products(t, spec_oracle_entry("utl_file.fopen", FuncCategory::Scalar, FuncDomain::UtlFile, 2, Some(4), false));
    let t = t.push(spec_oracle_entry("utl_file.fopen", FuncCategory::Scalar, FuncDomain::UtlFile, 2, Some(4), false));
    lemma_push_keeps_products(t, spec_oracle_entry("utl_file.get_line", FuncCategory::Scalar, FuncDomain::UtlFile, 1, Some(2), false));
    let t = t.push(spec_oracle_entry("utl_file.get_line", FuncCategory::Scalar, FuncDomain::UtlFile, 1, Some(2), false));
    lemma_push_keeps_products(t, spec_oracle_entry("utl_file.put_line", FuncCategory::Scalar, FuncDomain::UtlFile, 1, Some(2), false));
    let t = t.push(spec_oracle_entry("utl_file.put_line", FuncCategory::Scalar, FuncDomain::UtlFile, 1, Some(2), false));
    lemma_push_keeps_products(t, spec_commercial_entry("uuid_short", FuncCategory::Scalar, FuncDomain::System, 0, Some(0), false));
    let t = t.push(spec_commercial_entry("uuid_short", FuncCategory::Scalar, FuncDomain::System, 0, Some(0), false));
    lemma_push_keeps_products(t, spec_core_entry("var_pop", FuncCategory::Aggregate, FuncDomain::Aggregate, 1, Some(1), true));
    let t = t.push(spec_core_entry("var_pop", FuncCategory::Aggregate, FuncDomain::Aggregate, 1, Some(1), true));
    lemma_push_keeps_products(t, spec_core_entry("var_samp", FuncCategory::Aggregate, FuncDomain::Aggregate, 1, Some(1), true));
    let t = t.push(spec_core_entry("var_samp", FuncCategory::Aggregate, FuncDomain::Aggregate, 1, Some(1), true));
    lemma_push_keeps_products(t, spec_core_entry("variance", FuncCategory::Aggregate, FuncDomain::Aggregate, 1, Some(1), true));
    let t = t.push(spec_core_entry("variance", FuncCategory::Aggregate, FuncDomain::Aggregate, 1, Some(1), true));
    lemma_push_keeps_products(t, spec_core_entry("version", FuncCategory::Scalar, FuncDomain::System, 0, Some(0), false));
    let t = t.push(spec_core_entry("version", FuncCategory::Scalar, FuncDomain::System, 0, Some(0), false));
    lemma_push_keeps_products(t, spec_oracle_entry("vsize", FuncCategory::Scalar, FuncDomain::String, 1, Some(1), false));
    let t = t.push(spec_oracle_entry("vsize", FuncCategory::Scalar, FuncDomain::String, 1, Some(1), false));
    lemma_push_keeps_products(t, spec_commercial_entry("weekday", FuncCategory::Scalar, FuncDomain::DateTime, 1, Some(1), false));
    let t = t.push(spec_commercial_entry("weekday", FuncCategory::Scalar, FuncDomain::DateTime, 1, Some(1), false));
    lemma_push_keeps_products(t, spec_commercial_entry("weekofyear", FuncCategory::Scalar, FuncDomain::DateTime, 1, Some(1), false));
    let t = t.push(spec_commercial_entry("weekofyear", FuncCategory::Scalar, FuncDomain::DateTime, 1, Some(1), false));
    lemma_push_keeps_products(t, spec_core_entry("width", FuncCategory::Scalar, FuncDomain::Geometric, 1, Some(1), false));
    let t = t.push(spec_core_entry("width", FuncCategory::Scalar, FuncDomain::Geometric, 1, Some(1), false));
    lemma_push_keeps_products(t, spec_core_entry("width_bucket", FuncCategory::Scalar, FuncDomain::Math, 3, Some(4), false));
    let t = t.push(spec_core_entry("width_bucket", FuncCategory::Scalar, FuncDomain::Math, 3, Some(4), false));
    lemma_push_keeps_products(t, spec_oracle_entry("wm_concat", FuncCategory::Aggregate, FuncDomain::String, 1, None, true));
    let t = t.push(spec_oracle_entry("wm_concat", FuncCategory::Aggregate, FuncDomain::String, 1, None, true));
    lemma_push_keeps_products(t, spec_core_entry("xml_is_well_formed", FuncCategory::Scalar, FuncDomain::Xml, 1, Some(1), false));
    let t = t.push(spec_core_entry("xml_is_well_formed", FuncCategory::Scalar, FuncDomain::Xml, 1, Some(1), false));
    lemma_push_keeps_products(t, spec_core_entry("xml_is_well_formed_content", FuncCategory::Scalar, FuncDomain::Xml, 1, Some(2), false));
    let t = t.push(spec_core_entry("xml_is_well_formed_content", FuncCategory::Scalar, FuncDomain::Xml, 1, Some(2), false));
    lemma_push_keeps_products(t, spec_core_entry("xml_is_well_formed_document", FuncCategory::Scalar, FuncDomain::Xml, 1, Some(2), false));
    let t = t.push(spec_core_entry("xml_is_well_formed_document", FuncCategory::Scalar, FuncDomain::Xml, 1, Some(2), false));
    lemma_push_keeps_products(t, spec_oracle_entry("xmlagg", FuncCategory::Aggregate, FuncDomain::Xml, 1, Some(1), true));
    let t = t.push(spec_oracle_entry("xmlagg", FuncCategory::Aggregate, FuncDomain::Xml, 1, Some(1), true));
    lemma_push_keeps_products(t, spec_oracle_entry("xmlattributes", FuncCategory::Scalar, FuncDomain::Xml, 1, None, false));
    let t = t.push(spec_oracle_entry("xmlattributes", FuncCategory::Scalar, FuncDomain::Xml, 1, None, false));
    lemma_push_keeps_products(t, spec_oracle_entry("xmlcomment", FuncCategory::Scalar, FuncDomain::Xml, 1, Some(1), false));
    let t = t.push(spec_oracle_entry("xmlcomment", FuncCategory::Scalar, FuncDomain::Xml, 1, Some(1), false));
    lemma_push_keeps_products(t, spec_oracle_entry("xmlconcat", FuncCategory::Scalar, FuncDomain::Xml, 1, None, false));
    let t = t.push(spec_oracle_entry("xmlconcat", FuncCategory::Scalar, FuncDomain::Xml, 1, None, false));
    lemma_push_keeps_products(t, spec_oracle_entry("xmlelement", FuncCategory::Scalar, FuncDomain::Xml, 1, None, false));
    let t = t.push(spec_oracle_entry("xmlelement", FuncCategory::Scalar, FuncDomain::Xml, 1, None, false));
    lemma_push_keeps_products(t, spec_core_entry("xmlexists", FuncCategory::Scalar, FuncDomain::Xml, 2, Some(2), false));
    let t = t.push(spec_core_entry("xmlexists", FuncCategory::Scalar, FuncDomain::Xml, 2, Some(2), false));
    lemma_push_keeps_products(t, spec_oracle_entry("xmlforest", FuncCategory::Scalar, FuncDomain::Xml, 1, None, false));
    let t = t.push(spec_oracle_entry("xmlforest", FuncCategory::Scalar, FuncDomain::Xml, 1, None, false));
    lemma_push_keeps_products(t, spec_oracle_entry("xmlparse", FuncCategory::Scalar, FuncDomain::Xml, 1, Some(2), false));
    let t = t.push(spec_oracle_entry("xmlparse", FuncCategory::Scalar, FuncDomain::Xml, 1, Some(2), false));
    lemma_push_keeps_products(t, spec_oracle_entry("xmlpi", FuncCategory::Scalar, FuncDomain::Xml, 1, Some(2), false));
    let t = t.push(spec_oracle_entry("xmlpi", FuncCategory::Scalar, FuncDomain::Xml, 1, Some(2), false));
    lemma_push_keeps_products(t, spec_oracle_entry("xmlquery", FuncCategory::Scalar, FuncDomain::Xml, 2, Some(3), false));
    let t = t.push(spec_oracle_entry("xmlquery", FuncCategory::Scalar, FuncDomain::Xml, 2, Some(3), false));
    lemma_push_keeps_products(t, spec_commercial_entry("xmlroot", FuncCategory::Scalar, FuncDomain::Xml, 1, Some(3), false));
    let t = t.push(spec_commercial_entry("xmlroot", FuncCategory::Scalar, FuncDomain::Xml, 1, Some(3), false));
    lemma_push_keeps_products(t, spec_oracle_entry("xmlsequence", FuncCategory::Scalar, FuncDomain::Xml, 1, Some(1), false));
    let t = t.push(spec_oracle_entry("xmlsequence", FuncCategory::Scalar, FuncDomain::Xml, 1, Some(1), false));
    lemma_push_keeps_products(t, spec_oracle_entry("xmlserialize", FuncCategory::Scalar, FuncDomain::Xml, 2, Some(3), false));
    let t = t.push(spec_oracle_entry("xmlserialize", FuncCategory::Scalar, FuncDomain::Xml, 2, Some(3), false));
    lemma_push_keeps_products(t, spec_oracle_entry("xmltype", FuncCategory::Scalar, FuncDomain::Xml, 1, Some(1), false));
    let t = t.push(spec_oracle_entry("xmltype", FuncCategory::Scalar, FuncDomain::Xml, 1, Some(1), false));
    lemma_push_keeps_products(t, spec_core_entry("xpath", FuncCategory::Scalar, FuncDomain::Xml, 2, Some(2), false));
    let t = t.push(spec_core_entry("xpath", FuncCategory::Scalar, FuncDomain::Xml, 2, Some(2), false));
    lemma_push_keeps_products(t, spec_core_entry("xpath_exists", FuncCategory::Scalar, FuncDomain::Xml, 2, Some(2), false));
    let t = t.push(spec_core_entry("xpath_exists", FuncCategory::Scalar, FuncDomain::Xml, 2, Some(2), false));
    lemma_push_keeps_products(t, spec_commercial_entry("yearweek", FuncCategory::Scalar, FuncDomain::DateTime, 1, Some(2), false));
    let t = t.push(spec_commercial_entry("yearweek", FuncCategory::Scalar, FuncDomain::DateTime, 1, Some(2), false));
    assert(t == table_part_8(s));
}

/// Every built-in function is in at least one product (openGauss or GaussDB).
pub proof fn law_every_builtin_names_a_product()
    ensures
        forall|i: int| 0 <= i < builtin_function_table().len() ==> (builtin_function_table()[i].distribution.0 & 0x01u8 != 0
            || builtin_function_table()[i].distribution.0 & 0x02u8 != 0),
{
    let s0 = Seq::<FuncMeta>::empty();
    lemma_part_1_products(s0);
    lemma_part_2_products(table_part_1(s0));
    lemma_part_3_products(table_part_2(table_part_1(s0)));
    lemma_part_4_products(table_part_3(table_part_2(table_part_1(s0))));
    lemma_part_5_products(table_part_4(table_part_3(table_part_2(table_part_1(s0)))));
    lemma_part_6_products(table_part_5(table_part_4(table_part_3(table_part_2(table_part_1(s0))))));
    lemma_part_7_products(table_part_6(table_part_5(table_part_4(table_part_3(table_part_2(table_part_1(s0)))))));
    lemma_part_8_products(table_part_7(table_part_6(table_part_5(table_part_4(table_part_3(table_part_2(table_part_1(s0))))))));
    let t = builtin_function_table();
    assert forall|i: int| 0 <= i < t.len() implies (t[i].distribution.0 & 0x01u8 != 0 || t[i].distribution.0 & 0x02u8 != 0) by {
        let d = t[i].distribution.0;
        assert(d == 2 || d == 3);
        assert(2u8 & 0x02u8 != 0 && 3u8 & 0x02u8 != 0) by (bit_vector);
    }
}

/// `a` comes strictly before `b` in character order: after a common prefix of length `k`,
/// either `a` ends while `b` goes on, or `a`'s next character is the smaller one.
pub open spec fn chars_before_at(a: Seq<char>, b: Seq<char>, k: int) -> bool {
    &&& 0 <= k <= a.len()
    &&& k <= b.len()
    &&& forall|m: int| 0 <= m < k ==> a[m] == b[m]
    &&& ((k == a.len() && k < b.len()) || (k < a.len() && k < b.len() && a[k] < b[k]))
}

/// `a` comes strictly before `b` in character order.
pub open spec fn chars_before(a: Seq<char>, b: Seq<char>) -> bool {
    exists|k: int| chars_before_at(a, b, k)
}

proof fn lemma_chars_before_at(a: Seq<char>, b: Seq<char>, k: int)
    requires
        chars_before_at(a, b, k),
    ensures
        chars_before(a, b),
{
}

proof fn lemma_chars_before_transitive(a: Seq<char>, b: Seq<char>, c: Seq<char>)
    requires
        chars_before(a, b),
        chars_before(b, c),
    ensures
        chars_before(a, c),
{
    let k1 = choose|k: int| chars_before_at(a, b, k);
    let k2 = choose|k: int| chars_before_at(b, c, k);
    let k = if k1 < k2 { k1 } else { k2 };
    assert forall|m: int| 0 <= m < k implies a[m] == c[m] by {
        assert(a[m] == b[m]);
        assert(b[m] == c[m]);
    }
    if k1 < k2 {
        assert(b[k1] == c[k1]);
    } else if k2 < k1 {
        assert(a[k2] == b[k2]);
    }
    assert(chars_before_at(a, c, k));
}

proof fn lemma_chars_before_irreflexive(a: Seq<char>)
    ensures
        !chars_before(a, a),
{
}

/// The names of `t` strictly increase in character order.
pub open spec fn names_increasing(t: Seq<FuncMeta>) -> bool {
    forall|i: int, j: int| 0 <= i < j < t.len() ==> chars_before(t[i].name@, t[j].name@)
}

proof fn lemma_push_keeps_increasing(t: Seq<FuncMeta>, x: FuncMeta)
    requires
        names_increasing(t),
        t.len() == 0 || chars_before(t.last().name@, x.name@),
    ensures
        names_increasing(t.push(x)),
{
    let u = t.push(x);
    assert forall|i: int, j: int| 0 <= i < j < u.len() implies chars_before(u[i].name@, u[j].name@) by {
        if j < t.len() {
            assert(u[i] == t[i] && u[j] == t[j]);
        } else {
            assert(u[j] == x);
            assert(u[i] == t[i]);
            if i < t.len() - 1 {
                lemma_chars_before_transitive(t[i].name@, t.last().name@, x.name@);
            }
        }
    }
}

proof fn lemma_push_after(t: Seq<FuncMeta>, p: Seq<char>, x: FuncMeta, k: int)
    requires
        names_increasing(t),
        t.len() > 0,
        t.last().name@ == p,
        chars_before_at(p, x.name@, k),
    ensures
        names_increasing(t.push(x)),
        t.push(x).len() > 0,
        t.push(x).last() == x,
{
    lemma_chars_before_at(p, x.name@, k);
    lemma_push_keeps_increasing(t, x);
}

pub open spec fn table_chunk_1_0(s: Seq<FuncMeta>) -> Seq<FuncMeta> {
    s
        .push(spec_core_entry("abbrev", FuncCategory::Scalar, FuncDomain::Network, 1, Some(1), false))
        .push(spec_core_entry("abs", FuncCategory::Scalar, FuncDomain::Math, 1, Some(1), false))
        .push(spec_core_entry("acos", FuncCategory::Scalar, FuncDomain::Math, 1, Some(1), false))
        .push(spec_oracle_entry("add_months", FuncCategory::Scalar, FuncDomain::OracleCompat, 2, Some(2), false))
        .push(spec_commercial_entry("adddate", FuncCategory::Scalar, FuncDomain::DateTime, 2, Some(2), false))
        .push(spec_commercial_entry("addtime", FuncCategory::Scalar, FuncDomain::DateTime, 2, Some(2), false))
        .push(spec_core_entry("aes_decrypt", FuncCategory::Scalar, FuncDomain::Crypto, 2, Some(2), false))
        .push(spec_core_entry("aes_encrypt", FuncCategory::Scalar, FuncDomain::Crypto, 2, Some(2), false))
        .push(spec_core_entry("age", FuncCategory::Scalar, FuncDomain::DateTime, 1, Some(2), false))
        .push(spec_core_entry("area", FuncCategory::Scalar, FuncDomain::Geometric, 1, Some(1), false))
}

proof fn lemma_chunk_1_0(s: Seq<FuncMeta>)
    requires
        names_increasing(s),
        s.len() == 0 || chars_before(s.last().name@, "abbrev"@),
    ensures
        names_increasing(table_chunk_1_0(s)),
        table_chunk_1_0(s).len() > 0,
        table_chunk_1_0(s).last().name@ == "area"@,
{
    let t = s;
    reveal_strlit("abbrev");
    lemma_push_keeps_increasing(t, spec_core_entry("abbrev", FuncCategory::Scalar, FuncDomain::Network, 1, Some(1), false));
    let t = t.push(spec_core_entry("abbrev", FuncCategory::Scalar, FuncDomain::Network, 1, Some(1), false));
    reveal_strlit("abs");
    lemma_push_after(t, "abbrev"@, spec_core_entry("abs", FuncCategory::Scalar, FuncDomain::Math, 1, Some(1), false), 2);
    let t = t.push(spec_core_entry("abs", FuncCategory::Scalar, FuncDomain::Math, 1, Some(1), false));
    reveal_strlit("acos");
    lemma_push_after(t, "abs"@, spec_core_entry("acos", FuncCategory::Scalar, FuncDomain::Math, 1, Some(1), false), 1);
    let t = t.push(spec_core_entry("acos", FuncCategory::Scalar, FuncDomain::Math, 1, Some(1), false));
    reveal_strlit("add_months");
    lemma_push_after(t, "acos"@, spec_oracle_entry("add_months", FuncCategory::Scalar, FuncDomain::OracleCompat, 2, Some(2), false), 1);
    let t = t.push(spec_oracle_entry("add_months", FuncCategory::Scalar, FuncDomain::OracleCompat, 2, Some(2), false));
    reveal_strlit("adddate");
    lemma_push_after(t, "add_months"@, spec_commercial_entry("adddate", FuncCategory::Scalar, FuncDomain::DateTime, 2, Some(2), false), 3);
    let t = t.push(spec_commercial_entry("adddate", FuncCategory::Scalar, FuncDomain::DateTime, 2, Some(2), false));
    reveal_strlit("addtime");
    lemma_push_after(t, "adddate"@, spec_commercial_entry("addtime", FuncCategory::Scalar, FuncDomain::DateTime, 2, Some(2), false), 3);
    let t = t.push(spec_commercial_entry("addtime", FuncCategory::Scalar, FuncDomain::DateTime, 2, Some(2), false));
    reveal_strlit("aes_decrypt");
    lemma_push_after(t, "addtime"@, spec_core_entry("aes_decrypt", FuncCategory::Scalar, FuncDomain::Crypto, 2, Some(2), false), 1);
    let t = t.push(spec_core_entry("aes_decrypt", FuncCategory::Scalar, FuncDomain::Crypto, 2, Some(2), false));
    reveal_strlit("aes_encrypt");
    lemma_push_after(t, "aes_decrypt"@, spec_core_entry("aes_encrypt", FuncCategory::Scalar, FuncDomain::Crypto, 2, Some(2), false), 4);
    let t = t.push(spec_core_entry("aes_encrypt", FuncCategory::Scalar, FuncDomain::Crypto, 2, Some(2), false));
    reveal_strlit("age");
    lemma_push_after(t, "aes_encrypt"@, spec_core_entry("age", FuncCategory::Scalar, FuncDomain::DateTime, 1, Some(2), false), 1);
    let t = t.push(spec_core_entry("age", FuncCategory::Scalar, FuncDomain::DateTime, 1, Some(2), false));
    reveal_strlit("area");
    lemma_push_after(t, "age"@, spec_core_entry("area", FuncCategory::Scalar, FuncDomain::Geometric, 1, Some(1), false), 1);
    let t = t.push(spec_core_entry("area", FuncCategory::Scalar, FuncDomain::Geometric, 1, Some(1), false));
    assert(t == table_chunk_1_0(s));
}

pub open spec fn table_chunk_1_1(s: Seq<FuncMeta>) -> Seq<FuncMeta> {
    s
        .push(spec_core_entry("array_agg", FuncCategory::Aggregate, FuncDomain::Aggregate, 1, Some(1), true))
        .push(spec_core_entry("array_append", FuncCategory::Scalar, FuncDomain::Array, 2, Some(2), false))
        .push(spec_core_entry("array_cat", FuncCategory::Scalar, FuncDomain::Array, 2, Some(2), false))
        .push(spec_core_entry("array_delete", FuncCategory::Scalar, FuncDomain::Array, 1, Some(1), false))
        .push(spec_core_entry("array_deleteidx", FuncCategory::Scalar, FuncDomain::Array, 2, Some(2), false))
        .push(spec_core_entry("array_dims", FuncCategory::Scalar, FuncDomain::Array, 1, Some(1), false))
        .push(spec_core_entry("array_except", FuncCategory::Scalar, FuncDomain::Array, 2, Some(2), false))
        .push(spec_core_entry("array_except_distinct", FuncCategory::Scalar, FuncDomain::Array, 2, Some(2), false))
        .push(spec_core_entry("array_exists", FuncCategory::Scalar, FuncDomain::Array, 2, Some(2), false))
        .push(spec_core_entry("array_extendnull", FuncCategory::Scalar, FuncDomain::Array, 2, Some(2), false))
}

proof fn lemma_chunk_1_1(s: Seq<FuncMeta>)
    requires
        names_increasing(s),
        s.len() == 0 || chars_before(s.last().name@, "array_agg"@),
    ensures
        names_increasing(table_chunk_1_1(s)),
        table_chunk_1_1(s).len() > 0,
        table_chunk_1_1(s).last().name@ == "array_extendnull"@,
{
    let t = s;
    reveal_strlit("array_agg");
    lemma_push_keeps_increasing(t, spec_core_entry("array_agg", FuncCategory::Aggregate, FuncDomain::Aggregate, 1, Some(1), true));
    let t = t.push(spec_core_entry("array_agg", FuncCategory::Aggregate, FuncDomain::Aggregate, 1, Some(1), true));
    reveal_strlit("array_append");
    lemma_push_after(t, "array_agg"@, spec_core_entry("array_append", FuncCategory::Scalar, FuncDomain::Array, 2, Some(2), false), 7);
    let t = t.push(spec_core_entry("array_append", FuncCategory::Scalar, FuncDomain::Array, 2, Some(2), false));
    reveal_strlit("array_cat");
    lemma_push_after(t, "array_append"@, spec_core_entry("array_cat", FuncCategory::Scalar, FuncDomain::Array, 2, Some(2), false), 6);
    let t = t.push(spec_core_entry("array_cat", FuncCategory::Scalar, FuncDomain::Array, 2, Some(2), false));
    reveal_strlit("array_delete");
    lemma_push_after(t, "array_cat"@, spec_core_entry("array_delete", FuncCategory::Scalar, FuncDomain::Array, 1, Some(1), false), 6);
    let t = t.push(spec_core_entry("array_delete", FuncCategory::Scalar, FuncDomain::Array, 1, Some(1), false));
    reveal_strlit("array_deleteidx");
    lemma_push_after(t, "array_delete"@, spec_core_entry("array_deleteidx", FuncCategory::Scalar, FuncDomain::Array, 2, Some(2), false), 12);
    let t = t.push(spec_core_entry("array_deleteidx", FuncCategory::Scalar, FuncDomain::Array, 2, Some(2), false));
    reveal_strlit("array_dims");
    lemma_push_after(t, "array_deleteidx"@, spec_core_entry("array_dims", FuncCategory::Scalar, FuncDomain::Array, 1, Some(1), false), 7);
    let t = t.push(spec_core_entry("array_dims", FuncCategory::Scalar, FuncDomain::Array, 1, Some(1), false));
    reveal_strlit("array_except");
    lemma_push_after(t, "array_dims"@, spec_core_entry("array_except", FuncCategory::Scalar, FuncDomain::Array, 2, Some(2), false), 6);
    let t = t.push(spec_core_entry("array_except", FuncCategory::Scalar, FuncDomain::Array, 2, Some(2), false));
    reveal_strlit("array_except_distinct");
    lemma_push_after(t, "array_except"@, spec_core_entry("array_except_distinct", FuncCategory::Scalar, FuncDomain::Array, 2, Some(2), false), 12);
    let t = t.push(spec_core_entry("array_except_distinct", FuncCategory::Scalar, FuncDomain::Array, 2, Some(2), false));
    reveal_strlit("array_exists");
    lemma_push_after(t, "array_except_distinct"@, spec_core_entry("array_exists", FuncCategory::Scalar, FuncDomain::Array, 2, Some(2), false), 8);
    let t = t.push(spec_core_entry("array_exists", FuncCategory::Scalar, FuncDomain::Array, 2, Some(2), false));
    reveal_strlit("array_extendnull");
    lemma_push_after(t, "array_exists"@, spec_core_entry("array_extendnull", FuncCategory::Scalar, FuncDomain::Array, 2, Some(2), false), 8);
    let t = t.push(spec_core_entry("array_extendnull", FuncCategory::Scalar, FuncDomain::Array, 2, Some(2), false));
    assert(t == table_chunk_1_1(s));
}

pub open spec fn table_chunk_1_2(s: Seq<FuncMeta>) -> Seq<FuncMeta> {
    s
        .push(spec_core_entry("array_intersect", FuncCategory::Scalar, FuncDomain::Array, 2, Some(2), false))
        .push(spec_core_entry("array_intersect_distinct", FuncCategory::Scalar, FuncDomain::Array, 2, Some(2), false))
        .push(spec_core_entry("array_length", FuncCategory::Scalar, FuncDomain::Array, 2, Some(2), false))
        .push(spec_core_entry("array_lower", FuncCategory::Scalar, FuncDomain::Array, 2, Some(2), false))
        .push(spec_core_entry("array_ndims", FuncCategory::Scalar, FuncDomain::Array, 1, Some(1), false))
        .push(spec_core_entry("array_next", FuncCategory::Scalar, FuncDomain::Array, 2, Some(2), false))
        .push(spec_commercial_entry("array_positions", FuncCategory::Scalar, FuncDomain::Array, 2, Some(2), false))
        .push(spec_core_entry("array_prepend", FuncCategory::Scalar, FuncDomain::Array, 2, Some(2), false))
        .push(spec_core_entry("array_prior", FuncCategory::Scalar, FuncDomain::Array, 2, Some(2), false))
        .push(spec_commercial_entry("array_sort", FuncCategory::Scalar, FuncDomain::Array, 1, Some(1), false))
}

proof fn lemma_chunk_1_2(s: Seq<FuncMeta>)
    requires
        names_increasing(s),
        s.len() == 0 || chars_before(s.last().name@, "array_intersect"@),
    ensures
        names_increasing(table_chunk_1_2(s)),
        table_chunk_1_2(s).len() > 0,
        table_chunk_1_2(s).last().name@ == "array_sort"@,
{
    let t = s;
    reveal_strlit("array_intersect");
    lemma_push_keeps_increasing(t, spec_core_entry("array_intersect", FuncCategory::Scalar, FuncDomain::Array, 2, Some(2), false));
    let t = t.push(spec_core_entry("array_intersect", FuncCategory::Scalar, FuncDomain::Array, 2, Some(2), false));
    reveal_strlit("array_intersect_distinct");
    lemma_push_after(t, "array_intersect"@, spec_core_entry("array_intersect_distinct", FuncCategory::Scalar, FuncDomain::Array, 2, Some(2), false), 15);
    let t = t.push(spec_core_entry("array_intersect_distinct", FuncCategory::Scalar, FuncDomain::Array, 2, Some(2), false));
    reveal_strlit("array_length");
    lemma_push_after(t, "array_intersect_distinct"@, spec_core_entry("array_length", FuncCategory::Scalar, FuncDomain::Array, 2, Some(2), false), 6);
    let t = t.push(spec_core_entry("array_length", FuncCategory::Scalar, FuncDomain::Array, 2, Some(2), false));
    reveal_strlit("array_lower");
    lemma_push_after(t, "array_length"@, spec_core_entry("array_lower", FuncCategory::Scalar, FuncDomain::Array, 2, Some(2), false), 7);
    let t = t.push(spec_core_entry("array_lower", FuncCategory::Scalar, FuncDomain::Array, 2, Some(2), false));
    reveal_strlit("array_ndims");
    lemma_push_after(t, "array_lower"@, spec_core_entry("array_ndims", FuncCategory::Scalar, FuncDomain::Array, 1, Some(1), false), 6);
    let t = t.push(spec_core_entry("array_ndims", FuncCategory::Scalar, FuncDomain::Array, 1, Some(1), false));
    reveal_strlit("array_next");
    lemma_push_after(t, "array_ndims"@, spec_core_entry("array_next", FuncCategory::Scalar, FuncDomain::Array, 2, Some(2), false), 7);
    let t = t.push(spec_core_entry("array_next", FuncCategory::Scalar, FuncDomain::Array, 2, Some(2), false));
    reveal_strlit("array_positions");
    lemma_push_after(t, "array_next"@, spec_commercial_entry("array_positions", FuncCategory::Scalar, FuncDomain::Array, 2, Some(2), false), 6);
    let t = t.push(spec_commercial_entry("array_positions", FuncCategory::Scalar, FuncDomain::Array, 2, Some(2), false));
    reveal_strlit("array_prepend");
    lemma_push_after(t, "array_positions"@, spec_core_entry("array_prepend", FuncCategory::Scalar, FuncDomain::Array, 2, Some(2), false), 7);
    let t = t.push(spec_core_entry("array_prepend", FuncCategory::Scalar, FuncDomain::Array, 2, Some(2), false));
    reveal_strlit("array_prior");
    lemma_push_after(t, "array_prepend"@, spec_core_entry("array_prior", FuncCategory::Scalar, FuncDomain::Array, 2, Some(2), false), 8);
    let t = t.push(spec_core_entry("array_prior", FuncCategory::Scalar, FuncDomain::Array, 2, Some(2), false));
    reveal_strlit("array_sort");
    lemma_push_after(t, "array_prior"@, spec_commercial_entry("array_sort", FuncCategory::Scalar, FuncDomain::Array, 1, Some(1), false), 6);
    let t = t.push(spec_commercial_entry("array_sort", FuncCategory::Scalar, FuncDomain::Array, 1, Some(1), false));
    assert(t == table_chunk_1_2(s));
}

pub open spec fn table_chunk_1_3(s: Seq<FuncMeta>) -> Seq<FuncMeta> {
    s
        .push(spec_core_entry("array_to_json", FuncCategory::Scalar, FuncDomain::Json, 1, Some(2), false))
        .push(spec_core_entry("array_to_string", FuncCategory::Scalar, FuncDomain::Array, 2, Some(3), false))
        .push(spec_core_entry("array_trim", FuncCategory::Scalar, FuncDomain::Array, 2, Some(2), false))
        .push(spec_core_entry("array_union", FuncCategory::Scalar, FuncDomain::Array, 2, Some(2), false))
        .push(spec_core_entry("array_union_distinct", FuncCategory::Scalar, FuncDomain::Array, 2, Some(2), false))
        .push(spec_core_entry("array_upper", FuncCategory::Scalar, FuncDomain::Array, 2, Some(2), false))
        .push(spec_core_entry("ascii", FuncCategory::Scalar, FuncDomain::String, 1, Some(1), false))
        .push(spec_oracle_entry("ascii2", FuncCategory::Scalar, FuncDomain::String, 1, Some(1), false))
        .push(spec_oracle_entry("asciistr", FuncCategory::Scalar, FuncDomain::String, 1, Some(1), false))
        .push(spec_core_entry("asin", FuncCategory::Scalar, FuncDomain::Math, 1, Some(1), false))
}

proof fn lemma_chunk_1_3(s: Seq<FuncMeta>)
    requires
        names_increasing(s),
        s.len() == 0 || chars_before(s.last().name@, "array_to_json"@),
    ensures
        names_increasing(table_chunk_1_3(s)),
        table_chunk_1_3(s).len() > 0,
        table_chunk_1_3(s).last().name@ == "asin"@,
{
    let t = s;
    reveal_strlit("array_to_json");
    lemma_push_keeps_increasing(t, spec_core_entry("array_to_json", FuncCategory::Scalar, FuncDomain::Json, 1, Some(2), false));
    let t = t.push(spec_core_entry("array_to_json", FuncCategory::Scalar, FuncDomain::Json, 1, Some(2), false));
    reveal_strlit("array_to_string");
    lemma_push_after(t, "array_to_json"@, spec_core_entry("array_to_string", FuncCategory::Scalar, FuncDomain::Array, 2, Some(3), false), 9);
    let t = t.push(spec_core_entry("array_to_string", FuncCategory::Scalar, FuncDomain::Array, 2, Some(3), false));
    reveal_strlit("array_trim");
    lemma_push_after(t, "array_to_string"@, spec_core_entry("array_trim", FuncCategory::Scalar, FuncDomain::Array, 2, Some(2), false), 7);
    let t = t.push(spec_core_entry("array_trim", FuncCategory::Scalar, FuncDomain::Array, 2, Some(2), false));
    reveal_strlit("array_union");
    lemma_push_after(t, "array_trim"@, spec_core_entry("array_union", FuncCategory::Scalar, FuncDomain::Array, 2, Some(2), false), 6);
    let t = t.push(spec_core_entry("array_union", FuncCategory::Scalar, FuncDomain::Array, 2, Some(2), false));
    reveal_strlit("array_union_distinct");
    lemma_push_after(t, "array_union"@, spec_core_entry("array_union_distinct", FuncCategory::Scalar, FuncDomain::Array, 2, Some(2), false), 11);
    let t = t.push(spec_core_entry("array_union_distinct", FuncCategory::Scalar, FuncDomain::Array, 2, Some(2), false));
    reveal_strlit("array_upper");
    lemma_push_after(t, "array_union_distinct"@, spec_core_entry("array_upper", FuncCategory::Scalar, FuncDomain::Array, 2, Some(2), false), 7);
    let t = t.push(spec_core_entry("array_upper", FuncCategory::Scalar, FuncDomain::Array, 2, Some(2), false));
    reveal_strlit("ascii");
    lemma_push_after(t, "array_upper"@, spec_core_entry("ascii", FuncCategory::Scalar, FuncDomain::String, 1, Some(1), false), 1);
    let t = t.push(spec_core_entry("ascii", FuncCategory::Scalar, FuncDomain::String, 1, Some(1), false));
    reveal_strlit("ascii2");
    lemma_push_after(t, "ascii"@, spec_oracle_entry("ascii2", FuncCategory::Scalar, FuncDomain::String, 1, Some(1), false), 5);
    let t = t.push(spec_oracle_entry("ascii2", FuncCategory::Scalar, FuncDomain::String, 1, Some(1), false));
    reveal_strlit("asciistr");
    lemma_push_after(t, "ascii2"@, spec_oracle_entry("asciistr", FuncCategory::Scalar, FuncDomain::String, 1, Some(1), false), 5);
    let t = t.push(spec_oracle_entry("asciistr", FuncCategory::Scalar, FuncDomain::String, 1, Some(1), false));
    reveal_strlit("asin");
    lemma_push_after(t, "asciistr"@, spec_core_entry("asin", FuncCategory::Scalar, FuncDomain::Math, 1, Some(1), false), 2);
    let t = t.push(spec_core_entry("asin", FuncCategory::Scalar, FuncDomain::Math, 1, Some(1), false));
    assert(t == table_chunk_1_3(s));
}

pub open spec fn table_chunk_1_4(s: Seq<FuncMeta>) -> Seq<FuncMeta> {
    s
        .push(spec_core_entry("atan", FuncCategory::Scalar, FuncDomain::Math, 1, Some(1), false))
        .push(spec_core_entry("atan2", FuncCategory::Scalar, FuncDomain::Math, 2, Some(2), false))
        .push(spec_core_entry("avg", FuncCategory::Aggregate, FuncDomain::Aggregate, 1, Some(1), true))
        .push(spec_core_entry("bit_and", FuncCategory::Aggregate, FuncDomain::Aggregate, 1, Some(1), true))
        .push(spec_core_entry("bit_length", FuncCategory::Scalar, FuncDomain::String, 1, Some(1), false))
        .push(spec_core_entry("bit_or", FuncCategory::Aggregate, FuncDomain::Aggregate, 1, Some(1), true))
        .push(spec_core_entry("broadcast", FuncCategory::Scalar, FuncDomain::Network, 1, Some(1), false))
        .push(spec_core_entry("btrim", FuncCategory::Scalar, FuncDomain::String, 1, Some(2), false))
        .push(spec_commercial_entry("cardinality", FuncCategory::Scalar, FuncDomain::Array, 1, Some(1), false))
        .push(spec_core_entry("cbrt", FuncCategory::Scalar, FuncDomain::Math, 1, Some(1), false))
}

proof fn lemma_chunk_1_4(s: Seq<FuncMeta>)
    requires
        names_increasing(s),
        s.len() == 0 || chars_before(s.last().name@, "atan"@),
    ensures
        names_increasing(table_chunk_1_4(s)),
        table_chunk_1_4(s).len() > 0,
        table_chunk_1_4(s).last().name@ == "cbrt"@,
{
    let t = s;
    reveal_strlit("atan");
    lemma_push_keeps_increasing(t, spec_core_entry("atan", FuncCategory::Scalar, FuncDomain::Math, 1, Some(1), false));
    let t = t.push(spec_core_entry("atan", FuncCategory::Scalar, FuncDomain::Math, 1, Some(1), false));
    reveal_strlit("atan2");
    lemma_push_after(t, "atan"@, spec_core_entry("atan2", FuncCategory::Scalar, FuncDomain::Math, 2, Some(2), false), 4);
    let t = t.push(spec_core_entry("atan2", FuncCategory::Scalar, FuncDomain::Math, 2, Some(2), false));
    reveal_strlit("avg");
    lemma_push_after(t, "atan2"@, spec_core_entry("avg", FuncCategory::Aggregate, FuncDomain::Aggregate, 1, Some(1), true), 1);
    let t = t.push(spec_core_entry("avg", FuncCategory::Aggregate, FuncDomain::Aggregate, 1, Some(1), true));
    reveal_strlit("bit_and");
    lemma_push_after(t, "avg"@, spec_core_entry("bit_and", FuncCategory::Aggregate, FuncDomain::Aggregate, 1, Some(1), true), 0);
    let t = t.push(spec_core_entry("bit_and", FuncCategory::Aggregate, FuncDomain::Aggregate, 1, Some(1), true));
    reveal_strlit("bit_length");
    lemma_push_after(t, "bit_and"@, spec_core_entry("bit_length", FuncCategory::Scalar, FuncDomain::String, 1, Some(1), false), 4);
    let t = t.push(spec_core_entry("bit_length", FuncCategory::Scalar, FuncDomain::String, 1, Some(1), false));
    reveal_strlit("bit_or");
    lemma_push_after(t, "bit_length"@, spec_core_entry("bit_or", FuncCategory::Aggregate, FuncDomain::Aggregate, 1, Some(1), true), 4);
    let t = t.push(spec_core_entry("bit_or", FuncCategory::Aggregate, FuncDomain::Aggregate, 1, Some(1), true));
    reveal_strlit("broadcast");
    lemma_push_after(t, "bit_or"@, spec_core_entry("broadcast", FuncCategory::Scalar, FuncDomain::Network, 1, Some(1), false), 1);
    let t = t.push(spec_core_entry("broadcast", FuncCategory::Scalar, FuncDomain::Network, 1, Some(1), false));
    reveal_strlit("btrim");
    lemma_push_after(t, "broadcast"@, spec_core_entry("btrim", FuncCategory::Scalar, FuncDomain::String, 1, Some(2), false), 1);
    let t = t.push(spec_core_entry("btrim", FuncCategory::Scalar, FuncDomain::String, 1, Some(2), false));
    reveal_strlit("cardinality");
    lemma_push_after(t, "btrim"@, spec_commercial_entry("cardinality", FuncCategory::Scalar, FuncDomain::Array, 1, Some(1), false), 0);
    let t = t.push(spec_commercial_entry("cardinality", FuncCategory::Scalar, FuncDomain::Array, 1, Some(1), false));
    reveal_strlit("cbrt");
    lemma_push_after(t, "cardinality"@, spec_core_entry("cbrt", FuncCategory::Scalar, FuncDomain::Math, 1, Some(1), false), 1);
    let t = t.push(spec_core_entry("cbrt", FuncCategory::Scalar, FuncDomain::Math, 1, Some(1), false));
    assert(t == table_chunk_1_4(s));
}

pub open spec fn table_chunk_1_5(s: Seq<FuncMeta>) -> Seq<FuncMeta> {
    s
        .push(spec_core_entry("ceil", FuncCategory::Scalar, FuncDomain::Math, 1, Some(1), false))
        .push(spec_core_entry("ceiling", FuncCategory::Scalar, FuncDomain::Math, 1, Some(1), false))
        .push(spec_core_entry("center", FuncCategory::Scalar, FuncDomain::Geometric, 1, Some(1), false))
        .push(spec_core_entry("char_length", FuncCategory::Scalar, FuncDomain::String, 1, Some(1), false))
        .push(spec_core_entry("character_length", FuncCategory::Scalar, FuncDomain::String, 1, Some(1), false))
        .push(spec_core_entry("chr", FuncCategory::Scalar, FuncDomain::String, 1, Some(1), false))
        .push(spec_core_entry("circle", FuncCategory::Scalar, FuncDomain::Geometric, 1, Some(1), false))
        .push(spec_core_entry("clock_timestamp", FuncCategory::Scalar, FuncDomain::DateTime, 0, Some(0), false))
        .push(spec_core_entry("coalesce", FuncCategory::Special, FuncDomain::Other, 2, None, false))
        .push(spec_core_entry("col_description", FuncCategory::Scalar, FuncDomain::System, 2, Some(3), false))
}

proof fn lemma_chunk_1_5(s: Seq<FuncMeta>)
    requires
        names_increasing(s),
        s.len() == 0 || chars_before(s.last().name@, "ceil"@),
    ensures
        names_increasing(table_chunk_1_5(s)),
        table_chunk_1_5(s).len() > 0,
        table_chunk_1_5(s).last().name@ == "col_description"@,
{
    let t = s;
    reveal_strlit("ceil");
    lemma_push_keeps_increasing(t, spec_core_entry("ceil", FuncCategory::Scalar, FuncDomain::Math, 1, Some(1), false));
    let t = t.push(spec_core_entry("ceil", FuncCategory::Scalar, FuncDomain::Math, 1, Some(1), false));
    reveal_strlit("ceiling");
    lemma_push_after(t, "ceil"@, spec_core_entry("ceiling", FuncCategory::Scalar, FuncDomain::Math, 1, Some(1), false), 4);
    let t = t.push(spec_core_entry("ceiling", FuncCategory::Scalar, FuncDomain::Math, 1, Some(1), false));
    reveal_strlit("center");
    lemma_push_after(t, "ceiling"@, spec_core_entry("center", FuncCategory::Scalar, FuncDomain::Geometric, 1, Some(1), false), 2);
    let t = t.push(spec_core_entry("center", FuncCategory::Scalar, FuncDomain::Geometric, 1, Some(1), false));
    reveal_strlit("char_length");
    lemma_push_after(t, "center"@, spec_core_entry("char_length", FuncCategory::Scalar, FuncDomain::String, 1, Some(1), false), 1);
    let t = t.push(spec_core_entry("char_length", FuncCategory::Scalar, FuncDomain::String, 1, Some(1), false));
    reveal_strlit("character_length");
    lemma_push_after(t, "char_length"@, spec_core_entry("character_length", FuncCategory::Scalar, FuncDomain::String, 1, Some(1), false), 4);
    let t = t.push(spec_core_entry("character_length", FuncCategory::Scalar, FuncDomain::String, 1, Some(1), false));
    reveal_strlit("chr");
    lemma_push_after(t, "character_length"@, spec_core_entry("chr", FuncCategory::Scalar, FuncDomain::String, 1, Some(1), false), 2);
    let t = t.push(spec_core_entry("chr", FuncCategory::Scalar, FuncDomain::String, 1, Some(1), false));
    reveal_strlit("circle");
    lemma_push_after(t, "chr"@, spec_core_entry("circle", FuncCategory::Scalar, FuncDomain::Geometric, 1, Some(1), false), 1);
    let t = t.push(spec_core_entry("circle", FuncCategory::Scalar, FuncDomain::Geometric, 1, Some(1), false));
    reveal_strlit("clock_timestamp");
    lemma_push_after(t, "circle"@, spec_core_entry("clock_timestamp", FuncCategory::Scalar, FuncDomain::DateTime, 0, Some(0), false), 1);
    let t = t.push(spec_core_entry("clock_timestamp", FuncCategory::Scalar, FuncDomain::DateTime, 0, Some(0), false));
    reveal_strlit("coalesce");
    lemma_push_after(t, "clock_timestamp"@, spec_core_entry("coalesce", FuncCategory::Special, FuncDomain::Other, 2, None, false), 1);
    let t = t.push(spec_core_entry("coalesce", FuncCategory::Special, FuncDomain::Other, 2, None, false));
    reveal_strlit("col_description");
    lemma_push_after(t, "coalesce"@, spec_core_entry("col_description", FuncCategory::Scalar, FuncDomain::System, 2, Some(3), false), 2);
    let t = t.push(spec_core_entry("col_description", FuncCategory::Scalar, FuncDomain::System, 2, Some(3), false));
    assert(t == table_chunk_1_5(s));
}

pub open spec fn table_chunk_1_6(s: Seq<FuncMeta>) -> Seq<FuncMeta> {
    s
        .push(spec_core_entry("concat", FuncCategory::Scalar, FuncDomain::String, 2, None, false))
        .push(spec_core_entry("concat_ws", FuncCategory::Scalar, FuncDomain::String, 2, None, false))
        .push(spec_core_entry("convert", FuncCategory::Scalar, FuncDomain::TypeConversion, 2, Some(3), false))
        .push(spec_core_entry("convert_from", FuncCategory::Scalar, FuncDomain::TypeConversion, 2, Some(2), false))
        .push(spec_core_entry("convert_to", FuncCategory::Scalar, FuncDomain::TypeConversion, 2, Some(2), false))
        .push(spec_commercial_entry("convert_tz", FuncCategory::Scalar, FuncDomain::DateTime, 3, Some(3), false))
        .push(spec_core_entry("corr", FuncCategory::Aggregate, FuncDomain::Aggregate, 2, Some(2), true))
        .push(spec_core_entry("cos", FuncCategory::Scalar, FuncDomain::Math, 1, Some(1), false))
        .push(spec_core_entry("cot", FuncCategory::Scalar, FuncDomain::Math, 1, Some(1), false))
        .push(spec_core_entry("count", FuncCategory::Aggregate, FuncDomain::Aggregate, 1, Some(1), true))
}

proof fn lemma_chunk_1_6(s: Seq<FuncMeta>)
    requires
        names_increasing(s),
        s.len() == 0 || chars_before(s.last().name@, "concat"@),
    ensures
        names_increasing(table_chunk_1_6(s)),
        table_chunk_1_6(s).len() > 0,
        table_chunk_1_6(s).last().name@ == "count"@,
{
    let t = s;
    reveal_strlit("concat");
    lemma_push_keeps_increasing(t, spec_core_entry("concat", FuncCategory::Scalar, FuncDomain::String, 2, None, false));
    let t = t.push(spec_core_entry("concat", FuncCategory::Scalar, FuncDomain::String, 2, None, false));
    reveal_strlit("concat_ws");
    lemma_push_after(t, "concat"@, spec_core_entry("concat_ws", FuncCategory::Scalar, FuncDomain::String, 2, None, false), 6);
    let t = t.push(spec_core_entry("concat_ws", FuncCategory::Scalar, FuncDomain::String, 2, None, false));
    reveal_strlit("convert");
    lemma_push_after(t, "concat_ws"@, spec_core_entry("convert", FuncCategory::Scalar, FuncDomain::TypeConversion, 2, Some(3), false), 3);
    let t = t.push(spec_core_entry("convert", FuncCategory::Scalar, FuncDomain::TypeConversion, 2, Some(3), false));
    reveal_strlit("convert_from");
    lemma_push_after(t, "convert"@, spec_core_entry("convert_from", FuncCategory::Scalar, FuncDomain::TypeConversion, 2, Some(2), false), 7);
    let t = t.push(spec_core_entry("convert_from", FuncCategory::Scalar, FuncDomain::TypeConversion, 2, Some(2), false));
    reveal_strlit("convert_to");
    lemma_push_after(t, "convert_from"@, spec_core_entry("convert_to", FuncCategory::Scalar, FuncDomain::TypeConversion, 2, Some(2), false), 8);
    let t = t.push(spec_core_entry("convert_to", FuncCategory::Scalar, FuncDomain::TypeConversion, 2, Some(2), false));
    reveal_strlit("convert_tz");
    lemma_push_after(t, "convert_to"@, spec_commercial_entry("convert_tz", FuncCategory::Scalar, FuncDomain::DateTime, 3, Some(3), false), 9);
    let t = t.push(spec_commercial_entry("convert_tz", FuncCategory::Scalar, FuncDomain::DateTime, 3, Some(3), false));
    reveal_strlit("corr");
    lemma_push_after(t, "convert_tz"@, spec_core_entry("corr", FuncCategory::Aggregate, FuncDomain::Aggregate, 2, Some(2), true), 2);
    let t = t.push(spec_core_entry("corr", FuncCategory::Aggregate, FuncDomain::Aggregate, 2, Some(2), true));
    reveal_strlit("cos");
    lemma_push_after(t, "corr"@, spec_core_entry("cos", FuncCategory::Scalar, FuncDomain::Math, 1, Some(1), false), 2);
    let t = t.push(spec_core_entry("cos", FuncCategory::Scalar, FuncDomain::Math, 1, Some(1), false));
    reveal_strlit("cot");
    lemma_push_after(t, "cos"@, spec_core_entry("cot", FuncCategory::Scalar, FuncDomain::Math, 1, Some(1), false), 2);
    let t = t.push(spec_core_entry("cot", FuncCategory::Scalar, FuncDomain::Math, 1, Some(1), false));
    reveal_strlit("count");
    lemma_push_after(t, "cot"@, spec_core_entry("count", FuncCategory::Aggregate, FuncDomain::Aggregate, 1, Some(1), true), 2);
    let t = t.push(spec_core_entry("count", FuncCategory::Aggregate, FuncDomain::Aggregate, 1, Some(1), true));
    assert(t == table_chunk_1_6(s));
}

pub open spec fn table_chunk_1_7(s: Seq<FuncMeta>) -> Seq<FuncMeta> {
    s
        .push(spec_core_entry("covar_pop", FuncCategory::Aggregate, FuncDomain::Aggregate, 2, Some(2), true))
        .push(spec_core_entry("covar_samp", FuncCategory::Aggregate, FuncDomain::Aggregate, 2, Some(2), true))
        .push(spec_core_entry("crc32", FuncCategory::Scalar, FuncDomain::Hash, 1, Some(2), false))
        .push(spec_oracle_entry("createxml", FuncCategory::Scalar, FuncDomain::Xml, 1, Some(4), false))
        .push(spec_core_entry("cume_dist", FuncCategory::Window, FuncDomain::Window, 0, Some(0), false))
        .push(spec_commercial_entry("curdate", FuncCategory::Scalar, FuncDomain::DateTime, 0, Some(0), false))
        .push(spec_core_entry("current_database", FuncCategory::Scalar, FuncDomain::System, 0, Some(0), false))
        .push(spec_core_entry("current_date", FuncCategory::Scalar, FuncDomain::DateTime, 0, Some(0), false))
        .push(spec_core_entry("current_schema", FuncCategory::Scalar, FuncDomain::System, 0, Some(1), false))
        .push(spec_core_entry("current_setting", FuncCategory::Scalar, FuncDomain::System, 1, Some(2), false))
}

proof fn lemma_chunk_1_7(s: Seq<FuncMeta>)
    requires
        names_increasing(s),
        s.len() == 0 || chars_before(s.last().name@, "covar_pop"@),
    ensures
        names_increasing(table_chunk_1_7(s)),
        table_chunk_1_7(s).len() > 0,
        table_chunk_1_7(s).last().name@ == "current_setting"@,
{
    let t = s;
    reveal_strlit("covar_pop");
    lemma_push_keeps_increasing(t, spec_core_entry("covar_pop", FuncCategory::Aggregate, FuncDomain::Aggregate, 2, Some(2), true));
    let t = t.push(spec_core_entry("covar_pop", FuncCategory::Aggregate, FuncDomain::Aggregate, 2, Some(2), true));
    reveal_strlit("covar_samp");
    lemma_push_after(t, "covar_pop"@, spec_core_entry("covar_samp", FuncCategory::Aggregate, FuncDomain::Aggregate, 2, Some(2), true), 6);
    let t = t.push(spec_core_entry("covar_samp", FuncCategory::Aggregate, FuncDomain::Aggregate, 2, Some(2), true));
    reveal_strlit("crc32");
    lemma_push_after(t, "covar_samp"@, spec_core_entry("crc32", FuncCategory::Scalar, FuncDomain::Hash, 1, Some(2), false), 1);
    let t = t.push(spec_core_entry("crc32", FuncCategory::Scalar, FuncDomain::Hash, 1, Some(2), false));
    reveal_strlit("createxml");
    lemma_push_after(t, "crc32"@, spec_oracle_entry("createxml", FuncCategory::Scalar, FuncDomain::Xml, 1, Some(4), false), 2);
    let t = t.push(spec_oracle_entry("createxml", FuncCategory::Scalar, FuncDomain::Xml, 1, Some(4), false));
    reveal_strlit("cume_dist");
    lemma_push_after(t, "createxml"@, spec_core_entry("cume_dist", FuncCategory::Window, FuncDomain::Window, 0, Some(0), false), 1);
    let t = t.push(spec_core_entry("cume_dist", FuncCategory::Window, FuncDomain::Window, 0, Some(0), false));
    reveal_strlit("curdate");
    lemma_push_after(t, "cume_dist"@, spec_commercial_entry("curdate", FuncCategory::Scalar, FuncDomain::DateTime, 0, Some(0), false), 2);
    let t = t.push(spec_commercial_entry("curdate", FuncCategory::Scalar, FuncDomain::DateTime, 0, Some(0), false));
    reveal_strlit("current_database");
    lemma_push_after(t, "curdate"@, spec_core_entry("current_database", FuncCategory::Scalar, FuncDomain::System, 0, Some(0), false), 3);
    let t = t.push(spec_core_entry("current_database", FuncCategory::Scalar, FuncDomain::System, 0, Some(0), false));
    reveal_strlit("current_date");
    lemma_push_after(t, "current_database"@, spec_core_entry("current_date", FuncCategory::Scalar, FuncDomain::DateTime, 0, Some(0), false), 11);
    let t = t.push(spec_core_entry("current_date", FuncCategory::Scalar, FuncDomain::DateTime, 0, Some(0), false));
    reveal_strlit("current_schema");
    lemma_push_after(t, "current_date"@, spec_core_entry("current_schema", FuncCategory::Scalar, FuncDomain::System, 0, Some(1), false), 8);
    let t = t.push(spec_core_entry("current_schema", FuncCategory::Scalar, FuncDomain::System, 0, Some(1), false));
    reveal_strlit("current_setting");
    lemma_push_after(t, "current_schema"@, spec_core_entry("current_setting", FuncCategory::Scalar, FuncDomain::System, 1, Some(2), false), 9);
    let t = t.push(spec_core_entry("current_setting", FuncCategory::Scalar, FuncDomain::System, 1, Some(2), false));
    assert(t == table_chunk_1_7(s));
}

pub open spec fn table_chunk_1_8(s: Seq<FuncMeta>) -> Seq<FuncMeta> {
    s
        .push(spec_core_entry("current_time", FuncCategory::Scalar, FuncDomain::DateTime, 0, Some(1), false))
        .push(spec_core_entry("current_timestamp", FuncCategory::Scalar, FuncDomain::DateTime, 0, Some(1), false))
        .push(spec_core_entry("current_user", FuncCategory::Scalar, FuncDomain::System, 0, Some(0), false))
        .push(spec_core_entry("currval", FuncCategory::Scalar, FuncDomain::System, 1, Some(2), false))
        .push(spec_core_entry("cursor_to_xml", FuncCategory::Scalar, FuncDomain::Xml, 5, Some(5), false))
        .push(spec_core_entry("cursor_to_xmlschema", FuncCategory::Scalar, FuncDomain::Xml, 5, Some(5), false))
        .push(spec_commercial_entry("curtime", FuncCategory::Scalar, FuncDomain::DateTime, 0, Some(1), false))
        .push(spec_core_entry("database_to_xml", FuncCategory::Scalar, FuncDomain::Xml, 4, Some(4), false))
        .push(spec_core_entry("database_to_xml_and_xmlschema", FuncCategory::Scalar, FuncDomain::Xml, 4, Some(4), false))
        .push(spec_core_entry("database_to_xmlschema", FuncCategory::Scalar, FuncDomain::Xml, 4, Some(4), false))
}

proof fn lemma_chunk_1_8(s: Seq<FuncMeta>)
    requires
        names_increasing(s),
        s.len() == 0 || chars_before(s.last().name@, "current_time"@),
    ensures
        names_increasing(table_chunk_1_8(s)),
        table_chunk_1_8(s).len() > 0,
        table_chunk_1_8(s).last().name@ == "database_to_xmlschema"@,
{
    let t = s;
    reveal_strlit("current_time");
    lemma_push_keeps_increasing(t, spec_core_entry("current_time", FuncCategory::Scalar, FuncDomain::DateTime, 0, Some(1), false));
    let t = t.push(spec_core_entry("current_time", FuncCategory::Scalar, FuncDomain::DateTime, 0, Some(1), false));
    reveal_strlit("current_timestamp");
    lemma_push_after(t, "current_time"@, spec_core_entry("current_timestamp", FuncCategory::Scalar, FuncDomain::DateTime, 0, Some(1), false), 12);
    let t = t.push(spec_core_entry("current_timestamp", FuncCategory::Scalar, FuncDomain::DateTime, 0, Some(1), false));
    reveal_strlit("current_user");
    lemma_push_after(t, "current_timestamp"@, spec_core_entry("current_user", FuncCategory::Scalar, FuncDomain::System, 0, Some(0), false), 8);
    let t = t.push(spec_core_entry("current_user", FuncCategory::Scalar, FuncDomain::System, 0, Some(0), false));
    reveal_strlit("currval");
    lemma_push_after(t, "current_user"@, spec_core_entry("currval", FuncCategory::Scalar, FuncDomain::System, 1, Some(2), false), 4);
    let t = t.push(spec_core_entry("currval", FuncCategory::Scalar, FuncDomain::System, 1, Some(2), false));
    reveal_strlit("cursor_to_xml");
    lemma_push_after(t, "currval"@, spec_core_entry("cursor_to_xml", FuncCategory::Scalar, FuncDomain::Xml, 5, Some(5), false), 3);
    let t = t.push(spec_core_entry("cursor_to_xml", FuncCategory::Scalar, FuncDomain::Xml, 5, Some(5), false));
    reveal_strlit("cursor_to_xmlschema");
    lemma_push_after(t, "cursor_to_xml"@, spec_core_entry("cursor_to_xmlschema", FuncCategory::Scalar, FuncDomain::Xml, 5, Some(5), false), 13);
    let t = t.push(spec_core_entry("cursor_to_xmlschema", FuncCategory::Scalar, FuncDomain::Xml, 5, Some(5), false));
    reveal_strlit("curtime");
    lemma_push_after(t, "cursor_to_xmlschema"@, spec_commercial_entry("curtime", FuncCategory::Scalar, FuncDomain::DateTime, 0, Some(1), false), 3);
    let t = t.push(spec_commercial_entry("curtime", FuncCategory::Scalar, FuncDomain::DateTime, 0, Some(1), false));
    reveal_strlit("database_to_xml");
    lemma_push_after(t, "curtime"@, spec_core_entry("database_to_xml", FuncCategory::Scalar, FuncDomain::Xml, 4, Some(4), false), 0);
    let t = t.push(spec_core_entry("database_to_xml", FuncCategory::Scalar, FuncDomain::Xml, 4, Some(4), false));
    reveal_strlit("database_to_xml_and_xmlschema");
    lemma_push_after(t, "database_to_xml"@, spec_core_entry("database_to_xml_and_xmlschema", FuncCategory::Scalar, FuncDomain::Xml, 4, Some(4), false), 15);
    let t = t.push(spec_core_entry("database_to_xml_and_xmlschema", FuncCategory::Scalar, FuncDomain::Xml, 4, Some(4), false));
    reveal_strlit("database_to_xmlschema");
    lemma_push_after(t, "database_to_xml_and_xmlschema"@, spec_core_entry("database_to_xmlschema", FuncCategory::Scalar, FuncDomain::Xml, 4, Some(4), false), 15);
    let t = t.push(spec_core_entry("database_to_xmlschema", FuncCategory::Scalar, FuncDomain::Xml, 4, Some(4), false));
    assert(t == table_chunk_1_8(s));
}

pub open spec fn table_chunk_1_9(s: Seq<FuncMeta>) -> Seq<FuncMeta> {
    s
        .push(spec_commercial_entry("date_add", FuncCategory::Scalar, FuncDomain::DateTime, 2, Some(2), false))
        .push(spec_commercial_entry("date_format", FuncCategory::Scalar, FuncDomain::DateTime, 2, Some(2), false))
        .push(spec_core_entry("date_part", FuncCategory::Scalar, FuncDomain::DateTime, 2, Some(2), false))
        .push(spec_commercial_entry("date_sub", FuncCategory::Scalar, FuncDomain::DateTime, 2, Some(2), false))
        .push(spec_core_entry("date_trunc", FuncCategory::Scalar, FuncDomain::DateTime, 2, Some(2), false))
        .push(spec_commercial_entry("datediff", FuncCategory::Scalar, FuncDomain::DateTime, 2, Some(2), false))
        .push(spec_commercial_entry("dayname", FuncCategory::Scalar, FuncDomain::DateTime, 1, Some(1), false))
        .push(spec_commercial_entry("dayofmonth", FuncCategory::Scalar, FuncDomain::DateTime, 1, Some(1), false))
        .push(spec_commercial_entry("dayofweek", FuncCategory::Scalar, FuncDomain::DateTime, 1, Some(1), false))
        .push(spec_commercial_entry("dayofyear", FuncCategory::Scalar, FuncDomain::DateTime, 1, Some(1), false))
}

proof fn lemma_chunk_1_9(s: Seq<FuncMeta>)
    requires
        names_increasing(s),
        s.len() == 0 || chars_before(s.last().name@, "date_add"@),
    ensures
        names_increasing(table_chunk_1_9(s)),
        table_chunk_1_9(s).len() > 0,
        table_chunk_1_9(s).last().name@ == "dayofyear"@,
{
    let t = s;
    reveal_strlit("date_add");
    lemma_push_keeps_increasing(t, spec_commercial_entry("date_add", FuncCategory::Scalar, FuncDomain::DateTime, 2, Some(2), false));
    let t = t.push(spec_commercial_entry("date_add", FuncCategory::Scalar, FuncDomain::DateTime, 2, Some(2), false));
    reveal_strlit("date_format");
    lemma_push_after(t, "date_add"@, spec_commercial_entry("date_format", FuncCategory::Scalar, FuncDomain::DateTime, 2, Some(2), false), 5);
    let t = t.push(spec_commercial_entry("date_format", FuncCategory::Scalar, FuncDomain::DateTime, 2, Some(2), false));
    reveal_strlit("date_part");
    lemma_push_after(t, "date_format"@, spec_core_entry("date_part", FuncCategory::Scalar, FuncDomain::DateTime, 2, Some(2), false), 5);
    let t = t.push(spec_core_entry("date_part", FuncCategory::Scalar, FuncDomain::DateTime, 2, Some(2), false));
    reveal_strlit("date_sub");
    lemma_push_after(t, "date_part"@, spec_commercial_entry("date_sub", FuncCategory::Scalar, FuncDomain::DateTime, 2, Some(2), false), 5);
    let t = t.push(spec_commercial_entry("date_sub", FuncCategory::Scalar, FuncDomain::DateTime, 2, Some(2), false));
    reveal_strlit("date_trunc");
    lemma_push_after(t, "date_sub"@, spec_core_entry("date_trunc", FuncCategory::Scalar, FuncDomain::DateTime, 2, Some(2), false), 5);
    let t = t.push(spec_core_entry("date_trunc", FuncCategory::Scalar, FuncDomain::DateTime, 2, Some(2), false));
    reveal_strlit("datediff");
    lemma_push_after(t, "date_trunc"@, spec_commercial_entry("datediff", FuncCategory::Scalar, FuncDomain::DateTime, 2, Some(2), false), 4);
    let t = t.push(spec_commercial_entry("datediff", FuncCategory::Scalar, FuncDomain::DateTime, 2, Some(2), false));
    reveal_strlit("dayname");
    lemma_push_after(t, "datediff"@, spec_commercial_entry("dayname", FuncCategory::Scalar, FuncDomain::DateTime, 1, Some(1), false), 2);
    let t = t.push(spec_commercial_entry("dayname", FuncCategory::Scalar, FuncDomain::DateTime, 1, Some(1), false));
    reveal_strlit("dayofmonth");
    lemma_push_after(t, "dayname"@, spec_commercial_entry("dayofmonth", FuncCategory::Scalar, FuncDomain::DateTime, 1, Some(1), false), 3);
    let t = t.push(spec_commercial_entry("dayofmonth", FuncCategory::Scalar, FuncDomain::DateTime, 1, Some(1), false));
    reveal_strlit("dayofweek");
    lemma_push_after(t, "dayofmonth"@, spec_commercial_entry("dayofweek", FuncCategory::Scalar, FuncDomain::DateTime, 1, Some(1), false), 5);
    let t = t.push(spec_commercial_entry("dayofweek", FuncCategory::Scalar, FuncDomain::DateTime, 1, Some(1), false));
    reveal_strlit("dayofyear");
    lemma_push_after(t, "dayofweek"@, spec_commercial_entry("dayofyear", FuncCategory::Scalar, FuncDomain::DateTime, 1, Some(1), false), 5);
    let t = t.push(spec_commercial_entry("dayofyear", FuncCategory::Scalar, FuncDomain::DateTime, 1, Some(1), false));
    assert(t == table_chunk_1_9(s));
}

pub open spec fn table_chunk_1_10(s: Seq<FuncMeta>) -> Seq<FuncMeta> {
    s
        .push(spec_oracle_entry("dbe_application_info.read_client_info", FuncCategory::Scalar, FuncDomain::DbeApplicationInfo, 0, Some(1), false))
        .push(spec_oracle_entry("dbe_application_info.read_module", FuncCategory::Scalar, FuncDomain::DbeApplicationInfo, 0, Some(2), false))
        .push(spec_oracle_entry("dbe_application_info.set_action", FuncCategory::Scalar, FuncDomain::DbeApplicationInfo, 1, Some(1), false))
        .push(spec_oracle_entry("dbe_application_info.set_client_info", FuncCategory::Scalar, FuncDomain::DbeApplicationInfo, 1, Some(1), false))
        .push(spec_oracle_entry("dbe_application_info.set_module", FuncCategory::Scalar, FuncDomain::DbeApplicationInfo, 2, Some(2), false))
        .push(spec_commercial_oracle_entry("dbe_compression.get_compression_ratio", FuncCategory::Scalar, FuncDomain::Other, 11, Some(13), false))
        .push(spec_commercial_oracle_entry("dbe_compression.get_compression_type", FuncCategory::Scalar, FuncDomain::Other, 4, Some(5), false))
        .push(spec_oracle_entry("dbe_file.close", FuncCategory::Scalar, FuncDomain::DbeFile, 1, Some(1), false))
        .push(spec_oracle_entry("dbe_file.close_all", FuncCategory::Scalar, FuncDomain::DbeFile, 0, Some(0), false))
        .push(spec_oracle_entry("dbe_file.copy", FuncCategory::Scalar, FuncDomain::DbeFile, 3, Some(3), false))
}

proof fn lemma_chunk_1_10(s: Seq<FuncMeta>)
    requires
        names_increasing(s),
        s.len() == 0 || chars_before(s.last().name@, "dbe_application_info.read_client_info"@),
    ensures
        names_increasing(table_chunk_1_10(s)),
        table_chunk_1_10(s).len() > 0,
        table_chunk_1_10(s).last().name@ == "dbe_file.copy"@,
{
    let t = s;
    reveal_strlit("dbe_application_info.read_client_info");
    lemma_push_keeps_increasing(t, spec_oracle_entry("dbe_application_info.read_client_info", FuncCategory::Scalar, FuncDomain::DbeApplicationInfo, 0, Some(1), false));
    let t = t.push(spec_oracle_entry("dbe_application_info.read_client_info", FuncCategory::Scalar, FuncDomain::DbeApplicationInfo, 0, Some(1), false));
    reveal_strlit("dbe_application_info.read_module");
    lemma_push_after(t, "dbe_application_info.read_client_info"@, spec_oracle_entry("dbe_application_info.read_module", FuncCategory::Scalar, FuncDomain::DbeApplicationInfo, 0, Some(2), false), 26);
    let t = t.push(spec_oracle_entry("dbe_application_info.read_module", FuncCategory::Scalar, FuncDomain::DbeApplicationInfo, 0, Some(2), false));
    reveal_strlit("dbe_application_info.set_action");
    lemma_push_after(t, "dbe_application_info.read_module"@, spec_oracle_entry("dbe_application_info.set_action", FuncCategory::Scalar, FuncDomain::DbeApplicationInfo, 1, Some(1), false), 21);
    let t = t.push(spec_oracle_entry("dbe_application_info.set_action", FuncCategory::Scalar, FuncDomain::DbeApplicationInfo, 1, Some(1), false));
    reveal_strlit("dbe_application_info.set_client_info");
    lemma_push_after(t, "dbe_application_info.set_action"@, spec_oracle_entry("dbe_application_info.set_client_info", FuncCategory::Scalar, FuncDomain::DbeApplicationInfo, 1, Some(1), false), 25);
    let t = t.push(spec_oracle_entry("dbe_application_info.set_client_info", FuncCategory::Scalar, FuncDomain::DbeApplicationInfo, 1, Some(1), false));
    reveal_strlit("dbe_application_info.set_module");
    lemma_push_after(t, "dbe_application_info.set_client_info"@, spec_oracle_entry("dbe_application_info.set_module", FuncCategory::Scalar, FuncDomain::DbeApplicationInfo, 2, Some(2), false), 25);
    let t = t.push(spec_oracle_entry("dbe_application_info.set_module", FuncCategory::Scalar, FuncDomain::DbeApplicationInfo, 2, Some(2), false));
    reveal_strlit("dbe_compression.get_compression_ratio");
    lemma_push_after(t, "dbe_application_info.set_module"@, spec_commercial_oracle_entry("dbe_compression.get_compression_ratio", FuncCategory::Scalar, FuncDomain::Other, 11, Some(13), false), 4);
    let t = t.push(spec_commercial_oracle_entry("dbe_compression.get_compression_ratio", FuncCategory::Scalar, FuncDomain::Other, 11, Some(13), false));
    reveal_strlit("dbe_compression.get_compression_type");
    lemma_push_after(t, "dbe_compression.get_compression_ratio"@, spec_commercial_oracle_entry("dbe_compression.get_compression_type", FuncCategory::Scalar, FuncDomain::Other, 4, Some(5), false), 32);
    let t = t.push(spec_commercial_oracle_entry("dbe_compression.get_compression_type", FuncCategory::Scalar, FuncDomain::Other, 4, Some(5), false));
    reveal_strlit("dbe_file.close");
    lemma_push_after(t, "dbe_compression.get_compression_type"@, spec_oracle_entry("dbe_file.close", FuncCategory::Scalar, FuncDomain::DbeFile, 1, Some(1), false), 4);
    let t = t.push(spec_oracle_entry("dbe_file.close", FuncCategory::Scalar, FuncDomain::DbeFile, 1, Some(1), false));
    reveal_strlit("dbe_file.close_all");
    lemma_push_after(t, "dbe_file.close"@, spec_oracle_entry("dbe_file.close_all", FuncCategory::Scalar, FuncDomain::DbeFile, 0, Some(0), false), 14);
    let t = t.push(spec_oracle_entry("dbe_file.close_all", FuncCategory::Scalar, FuncDomain::DbeFile, 0, Some(0), false));
    reveal_strlit("dbe_file.copy");
    lemma_push_after(t, "dbe_file.close_all"@, spec_oracle_entry("dbe_file.copy", FuncCategory::Scalar, FuncDomain::DbeFile, 3, Some(3), false), 10);
    let t = t.push(spec_oracle_entry("dbe_file.copy", FuncCategory::Scalar, FuncDomain::DbeFile, 3, Some(3), false));
    assert(t == table_chunk_1_10(s));
}

pub open spec fn table_chunk_1_11(s: Seq<FuncMeta>) -> Seq<FuncMeta> {
    s
        .push(spec_oracle_entry("dbe_file.flush", FuncCategory::Scalar, FuncDomain::DbeFile, 1, Some(1), false))
        .push(spec_oracle_entry("dbe_file.fopen", FuncCategory::Scalar, FuncDomain::DbeFile, 3, Some(4), false))
        .push(spec_oracle_entry("dbe_file.fopen_nchar", FuncCategory::Scalar, FuncDomain::DbeFile, 3, Some(4), false))
        .push(spec_oracle_entry("dbe_file.format_write", FuncCategory::Scalar, FuncDomain::DbeFile, 2, Some(8), false))
        .push(spec_oracle_entry("dbe_file.format_write_nchar", FuncCategory::Scalar, FuncDomain::DbeFile, 2, Some(7), false))
        .push(spec_oracle_entry("dbe_file.get_attr", FuncCategory::Scalar, FuncDomain::DbeFile, 5, Some(5), false))
        .push(spec_oracle_entry("dbe_file.get_pos", FuncCategory::Scalar, FuncDomain::DbeFile, 1, Some(1), false))
        .push(spec_oracle_entry("dbe_file.get_raw", FuncCategory::Scalar, FuncDomain::DbeFile, 2, Some(3), false))
        .push(spec_oracle_entry("dbe_file.is_close", FuncCategory::Scalar, FuncDomain::DbeFile, 1, Some(1), false))
        .push(spec_oracle_entry("dbe_file.is_open", FuncCategory::Scalar, FuncDomain::DbeFile, 1, Some(1), false))
}

proof fn lemma_chunk_1_11(s: Seq<FuncMeta>)
    requires
        names_increasing(s),
        s.len() == 0 || chars_before(s.last().name@, "dbe_file.flush"@),
    ensures
        names_increasing(table_chunk_1_11(s)),
        table_chunk_1_11(s).len() > 0,
        table_chunk_1_11(s).last().name@ == "dbe_file.is_open"@,
{
    let t = s;
    reveal_strlit("dbe_file.flush");
    lemma_push_keeps_increasing(t, spec_oracle_entry("dbe_file.flush", FuncCategory::Scalar, FuncDomain::DbeFile, 1, Some(1), false));
    let t = t.push(spec_oracle_entry("dbe_file.flush", FuncCategory::Scalar, FuncDomain::DbeFile, 1, Some(1), false));
    reveal_strlit("dbe_file.fopen");
    lemma_push_after(t, "dbe_file.flush"@, spec_oracle_entry("dbe_file.fopen", FuncCategory::Scalar, FuncDomain::DbeFile, 3, Some(4), false), 10);
    let t = t.push(spec_oracle_entry("dbe_file.fopen", FuncCategory::Scalar, FuncDomain::DbeFile, 3, Some(4), false));
    reveal_strlit("dbe_file.fopen_nchar");
    lemma_push_after(t, "dbe_file.fopen"@, spec_oracle_entry("dbe_file.fopen_nchar", FuncCategory::Scalar, FuncDomain::DbeFile, 3, Some(4), false), 14);
    let t = t.push(spec_oracle_entry("dbe_file.fopen_nchar", FuncCategory::Scalar, FuncDomain::DbeFile, 3, Some(4), false));
    reveal_strlit("dbe_file.format_write");
    lemma_push_after(t, "dbe_file.fopen_nchar"@, spec_oracle_entry("dbe_file.format_write", FuncCategory::Scalar, FuncDomain::DbeFile, 2, Some(8), false), 11);
    let t = t.push(spec_oracle_entry("dbe_file.format_write", FuncCategory::Scalar, FuncDomain::DbeFile, 2, Some(8), false));
    reveal_strlit("dbe_file.format_write_nchar");
    lemma_push_after(t, "dbe_file.format_write"@, spec_oracle_entry("dbe_file.format_write_nchar", FuncCategory::Scalar, FuncDomain::DbeFile, 2, Some(7), false), 21);
    let t = t.push(spec_oracle_entry("dbe_file.format_write_nchar", FuncCategory::Scalar, FuncDomain::DbeFile, 2, Some(7), false));
    reveal_strlit("dbe_file.get_attr");
    lemma_push_after(t, "dbe_file.format_write_nchar"@, spec_oracle_entry("dbe_file.get_attr", FuncCategory::Scalar, FuncDomain::DbeFile, 5, Some(5), false), 9);
    let t = t.push(spec_oracle_entry("dbe_file.get_attr", FuncCategory::Scalar, FuncDomain::DbeFile, 5, Some(5), false));
    reveal_strlit("dbe_file.get_pos");
    lemma_push_after(t, "dbe_file.get_attr"@, spec_oracle_entry("dbe_file.get_pos", FuncCategory::Scalar, FuncDomain::DbeFile, 1, Some(1), false), 13);
    let t = t.push(spec_oracle_entry("dbe_file.get_pos", FuncCategory::Scalar, FuncDomain::DbeFile, 1, Some(1), false));
    reveal_strlit("dbe_file.get_raw");
    lemma_push_after(t, "dbe_file.get_pos"@, spec_oracle_entry("dbe_file.get_raw", FuncCategory::Scalar, FuncDomain::DbeFile, 2, Some(3), false), 13);
    let t = t.push(spec_oracle_entry("dbe_file.get_raw", FuncCategory::Scalar, FuncDomain::DbeFile, 2, Some(3), false));
    reveal_strlit("dbe_file.is_close");
    lemma_push_after(t, "dbe_file.get_raw"@, spec_oracle_entry("dbe_file.is_close", FuncCategory::Scalar, FuncDomain::DbeFile, 1, Some(1), false), 9);
    let t = t.push(spec_oracle_entry("dbe_file.is_close", FuncCategory::Scalar, FuncDomain::DbeFile, 1, Some(1), false));
    reveal_strlit("dbe_file.is_open");
    lemma_push_after(t, "dbe_file.is_close"@, spec_oracle_entry("dbe_file.is_open", FuncCategory::Scalar, FuncDomain::DbeFile, 1, Some(1), false), 12);
    let t = t.push(spec_oracle_entry("dbe_file.is_open", FuncCategory::Scalar, FuncDomain::DbeFile, 1, Some(1), false));
    assert(t == table_chunk_1_11(s));
}

pub open spec fn table_chunk_1_12(s: Seq<FuncMeta>) -> Seq<FuncMeta> {
    s
        .push(spec_oracle_entry("dbe_file.new_line", FuncCategory::Scalar, FuncDomain::DbeFile, 1, Some(2), false))
        .push(spec_oracle_entry("dbe_file.open", FuncCategory::Scalar, FuncDomain::DbeFile, 2, Some(4), false))
        .push(spec_oracle_entry("dbe_file.put_raw", FuncCategory::Scalar, FuncDomain::DbeFile, 2, Some(3), false))
        .push(spec_oracle_entry("dbe_file.read_line", FuncCategory::Scalar, FuncDomain::DbeFile, 2, Some(3), false))
        .push(spec_oracle_entry("dbe_file.read_line_nchar", FuncCategory::Scalar, FuncDomain::DbeFile, 2, Some(3), false))
}

proof fn lemma_chunk_1_12(s: Seq<FuncMeta>)
    requires
        names_increasing(s),
        s.len() == 0 || chars_before(s.last().name@, "dbe_file.new_line"@),
    ensures
        names_increasing(table_chunk_1_12(s)),
        table_chunk_1_12(s).len() > 0,
        table_chunk_1_12(s).last().name@ == "dbe_file.read_line_nchar"@,
{
    let t = s;
    reveal_strlit("dbe_file.new_line");
    lemma_push_keeps_increasing(t, spec_oracle_entry("dbe_file.new_line", FuncCategory::Scalar, FuncDomain::DbeFile, 1, Some(2), false));
    let t = t.push(spec_oracle_entry("dbe_file.new_line", FuncCategory::Scalar, FuncDomain::DbeFile, 1, Some(2), false));
    reveal_strlit("dbe_file.open");
    lemma_push_after(t, "dbe_file.new_line"@, spec_oracle_entry("dbe_file.open", FuncCategory::Scalar, FuncDomain::DbeFile, 2, Some(4), false), 9);
    let t = t.push(spec_oracle_entry("dbe_file.open", FuncCategory::Scalar, FuncDomain::DbeFile, 2, Some(4), false));
    reveal_strlit("dbe_file.put_raw");
    lemma_push_after(t, "dbe_file.open"@, spec_oracle_entry("dbe_file.put_raw", FuncCategory::Scalar, FuncDomain::DbeFile, 2, Some(3), false), 9);
    let t = t.push(spec_oracle_entry("dbe_file.put_raw", FuncCategory::Scalar, FuncDomain::DbeFile, 2, Some(3), false));
    reveal_strlit("dbe_file.read_line");
    lemma_push_after(t, "dbe_file.put_raw"@, spec_oracle_entry("dbe_file.read_line", FuncCategory::Scalar, FuncDomain::DbeFile, 2, Some(3), false), 9);
    let t = t.push(spec_oracle_entry("dbe_file.read_line", FuncCategory::Scalar, FuncDomain::DbeFile, 2, Some(3), false));
    reveal_strlit("dbe_file.read_line_nchar");
    lemma_push_after(t, "dbe_file.read_line"@, spec_oracle_entry("dbe_file.read_line_nchar", FuncCategory::Scalar, FuncDomain::DbeFile, 2, Some(3), false), 18);
    let t = t.push(spec_oracle_entry("dbe_file.read_line_nchar", FuncCategory::Scalar, FuncDomain::DbeFile, 2, Some(3), false));
    assert(t == table_chunk_1_12(s));
}

proof fn lemma_part_1_increasing(s: Seq<FuncMeta>)
    requires
        names_increasing(s),
        s.len() == 0 || chars_before(s.last().name@, "abbrev"@),
    ensures
        names_increasing(table_part_1(s)),
        table_part_1(s).len() > 0,
        table_part_1(s).last().name@ == "dbe_file.read_line_nchar"@,
{
    lemma_chunk_1_0(s);
    let t0 = table_chunk_1_0(s);
    reveal_strlit("area");
    reveal_strlit("array_agg");
    lemma_chars_before_at("area"@, "array_agg"@, 2);
    lemma_chunk_1_1(t0);
    let t1 = table_chunk_1_1(t0);
    reveal_strlit("array_extendnull");
    reveal_strlit("array_intersect");
    lemma_chars_before_at("array_extendnull"@, "array_intersect"@, 6);
    lemma_chunk_1_2(t1);
    let t2 = table_chunk_1_2(t1);
    reveal_strlit("array_sort");
    reveal_strlit("array_to_json");
    lemma_chars_before_at("array_sort"@, "array_to_json"@, 6);
    lemma_chunk_1_3(t2);
    let t3 = table_chunk_1_3(t2);
    reveal_strlit("asin");
    reveal_strlit("atan");
    lemma_chars_before_at("asin"@, "atan"@, 1);
    lemma_chunk_1_4(t3);
    let t4 = table_chunk_1_4(t3);
    reveal_strlit("cbrt");
    reveal_strlit("ceil");
    lemma_chars_before_at("cbrt"@, "ceil"@, 1);
    lemma_chunk_1_5(t4);
    let t5 = table_chunk_1_5(t4);
    reveal_strlit("col_description");
    reveal_strlit("concat");
    lemma_chars_before_at("col_description"@, "concat"@, 2);
    lemma_chunk_1_6(t5);
    let t6 = table_chunk_1_6(t5);
    reveal_strlit("count");
    reveal_strlit("covar_pop");
    lemma_chars_before_at("count"@, "covar_pop"@, 2);
    lemma_chunk_1_7(t6);
    let t7 = table_chunk_1_7(t6);
    reveal_strlit("current_setting");
    reveal_strlit("current_time");
    lemma_chars_before_at("current_setting"@, "current_time"@, 8);
    lemma_chunk_1_8(t7);
    let t8 = table_chunk_1_8(t7);
    reveal_strlit("database_to_xmlschema");
    reveal_strlit("date_add");
    lemma_chars_before_at("database_to_xmlschema"@, "date_add"@, 3);
    lemma_chunk_1_9(t8);
    let t9 = table_chunk_1_9(t8);
    reveal_strlit("dayofyear");
    reveal_strlit("dbe_application_info.read_client_info");
    lemma_chars_before_at("dayofyear"@, "dbe_application_info.read_client_info"@, 1);
    lemma_chunk_1_10(t9);
    let t10 = table_chunk_1_10(t9);
    reveal_strlit("dbe_file.copy");
    reveal_strlit("dbe_file.flush");
    lemma_chars_before_at("dbe_file.copy"@, "dbe_file.flush"@, 9);
    lemma_chunk_1_11(t10);
    let t11 = table_chunk_1_11(t10);
    reveal_strlit("dbe_file.is_open");
    reveal_strlit("dbe_file.new_line");
    lemma_chars_before_at("dbe_file.is_open"@, "dbe_file.new_line"@, 9);
    lemma_chunk_1_12(t11);
    let t12 = table_chunk_1_12(t11);
    assert(t12 == table_part_1(s));
}

pub open spec fn table_chunk_2_0(s: Seq<FuncMeta>) -> Seq<FuncMeta> {
    s
        .push(spec_oracle_entry("dbe_file.remove", FuncCategory::Scalar, FuncDomain::DbeFile, 2, Some(2), false))
        .push(spec_oracle_entry("dbe_file.rename", FuncCategory::Scalar, FuncDomain::DbeFile, 3, Some(3), false))
        .push(spec_oracle_entry("dbe_file.seek", FuncCategory::Scalar, FuncDomain::DbeFile, 1, Some(3), false))
        .push(spec_oracle_entry("dbe_file.write", FuncCategory::Scalar, FuncDomain::DbeFile, 2, Some(2), false))
        .push(spec_oracle_entry("dbe_file.write_line", FuncCategory::Scalar, FuncDomain::DbeFile, 2, Some(2), false))
        .push(spec_oracle_entry("dbe_file.write_line_nchar", FuncCategory::Scalar, FuncDomain::DbeFile, 2, Some(2), false))
        .push(spec_oracle_entry("dbe_file.write_nchar", FuncCategory::Scalar, FuncDomain::DbeFile, 2, Some(2), false))
        .push(spec_commercial_oracle_entry("dbe_heat_map.row_heat_map", FuncCategory::Scalar, FuncDomain::Other, 3, Some(5), false))
        .push(spec_commercial_oracle_entry("dbe_ilm.execute_ilm", FuncCategory::Scalar, FuncDomain::Other, 3, Some(6), false))
        .push(spec_commercial_oracle_entry("dbe_ilm.stop_ilm", FuncCategory::Scalar, FuncDomain::Other, 0, Some(3), false))
}

proof fn lemma_chunk_2_0(s: Seq<FuncMeta>)
    requires
        names_increasing(s),
        s.len() == 0 || chars_before(s.last().name@, "dbe_file.remove"@),
    ensures
        names_increasing(table_chunk_2_0(s)),
        table_chunk_2_0(s).len() > 0,
        table_chunk_2_0(s).last().name@ == "dbe_ilm.stop_ilm"@,
{
    let t = s;
    reveal_strlit("dbe_file.remove");
    lemma_push_keeps_increasing(t, spec_oracle_entry("dbe_file.remove", FuncCategory::Scalar, FuncDomain::DbeFile, 2, Some(2), false));
    let t = t.push(spec_oracle_entry("dbe_file.remove", FuncCategory::Scalar, FuncDomain::DbeFile, 2, Some(2), false));
    reveal_strlit("dbe_file.rename");
    lemma_push_after(t, "dbe_file.remove"@, spec_oracle_entry("dbe_file.rename", FuncCategory::Scalar, FuncDomain::DbeFile, 3, Some(3), false), 11);
    let t = t.push(spec_oracle_entry("dbe_file.rename", FuncCategory::Scalar, FuncDomain::DbeFile, 3, Some(3), false));
    reveal_strlit("dbe_file.seek");
    lemma_push_after(t, "dbe_file.rename"@, spec_oracle_entry("dbe_file.seek", FuncCategory::Scalar, FuncDomain::DbeFile, 1, Some(3), false), 9);
    let t = t.push(spec_oracle_entry("dbe_file.seek", FuncCategory::Scalar, FuncDomain::DbeFile, 1, Some(3), false));
    reveal_strlit("dbe_file.write");
    lemma_push_after(t, "dbe_file.seek"@, spec_oracle_entry("dbe_file.write", FuncCategory::Scalar, FuncDomain::DbeFile, 2, Some(2), false), 9);
    let t = t.push(spec_oracle_entry("dbe_file.write", FuncCategory::Scalar, FuncDomain::DbeFile, 2, Some(2), false));
    reveal_strlit("dbe_file.write_line");
    lemma_push_after(t, "dbe_file.write"@, spec_oracle_entry("dbe_file.write_line", FuncCategory::Scalar, FuncDomain::DbeFile, 2, Some(2), false), 14);
    let t = t.push(spec_oracle_entry("dbe_file.write_line", FuncCategory::Scalar, FuncDomain::DbeFile, 2, Some(2), false));
    reveal_strlit("dbe_file.write_line_nchar");
    lemma_push_after(t, "dbe_file.write_line"@, spec_oracle_entry("dbe_file.write_line_nchar", FuncCategory::Scalar, FuncDomain::DbeFile, 2, Some(2), false), 19);
    let t = t.push(spec_oracle_entry("dbe_file.write_line_nchar", FuncCategory::Scalar, FuncDomain::DbeFile, 2, Some(2), false));
    reveal_strlit("dbe_file.write_nchar");
    lemma_push_after(t, "dbe_file.write_line_nchar"@, spec_oracle_entry("dbe_file.write_nchar", FuncCategory::Scalar, FuncDomain::DbeFile, 2, Some(2), false), 15);
    let t = t.push(spec_oracle_entry("dbe_file.write_nchar", FuncCategory::Scalar, FuncDomain::DbeFile, 2, Some(2), false));
    reveal_strlit("dbe_heat_map.row_heat_map");
    lemma_push_after(t, "dbe_file.write_nchar"@, spec_commercial_oracle_entry("dbe_heat_map.row_heat_map", FuncCategory::Scalar, FuncDomain::Other, 3, Some(5), false), 4);
    let t = t.push(spec_commercial_oracle_entry("dbe_heat_map.row_heat_map", FuncCategory::Scalar, FuncDomain::Other, 3, Some(5), false));
    reveal_strlit("dbe_ilm.execute_ilm");
    lemma_push_after(t, "dbe_heat_map.row_heat_map"@, spec_commercial_oracle_entry("dbe_ilm.execute_ilm", FuncCategory::Scalar, FuncDomain::Other, 3, Some(6), false), 4);
    let t = t.push(spec_commercial_oracle_entry("dbe_ilm.execute_ilm", FuncCategory::Scalar, FuncDomain::Other, 3, Some(6), false));
    reveal_strlit("dbe_ilm.stop_ilm");
    lemma_push_after(t, "dbe_ilm.execute_ilm"@, spec_commercial_oracle_entry("dbe_ilm.stop_ilm", FuncCategory::Scalar, FuncDomain::Other, 0, Some(3), false), 8);
    let t = t.push(spec_commercial_oracle_entry("dbe_ilm.stop_ilm", FuncCategory::Scalar, FuncDomain::Other, 0, Some(3), false));
    assert(t == table_chunk_2_0(s));
}

pub open spec fn table_chunk_2_1(s: Seq<FuncMeta>) -> Seq<FuncMeta> {
    s
        .push(spec_commercial_oracle_entry("dbe_ilm_admin.customize_ilm", FuncCategory::Scalar, FuncDomain::Other, 2, Some(2), false))
        .push(spec_commercial_oracle_entry("dbe_ilm_admin.disable_ilm", FuncCategory::Scalar, FuncDomain::Other, 0, Some(0), false))
        .push(spec_commercial_oracle_entry("dbe_ilm_admin.enable_ilm", FuncCategory::Scalar, FuncDomain::Other, 0, Some(0), false))
        .push(spec_oracle_entry("dbe_lob.append", FuncCategory::Scalar, FuncDomain::DbeLob, 2, Some(2), false))
        .push(spec_oracle_entry("dbe_lob.bfileclose", FuncCategory::Scalar, FuncDomain::DbeLob, 1, Some(1), false))
        .push(spec_oracle_entry("dbe_lob.bfilename", FuncCategory::Scalar, FuncDomain::DbeLob, 2, Some(2), false))
        .push(spec_oracle_entry("dbe_lob.bfileopen", FuncCategory::Scalar, FuncDomain::DbeLob, 1, Some(2), false))
        .push(spec_oracle_entry("dbe_lob.close", FuncCategory::Scalar, FuncDomain::DbeLob, 1, Some(1), false))
        .push(spec_oracle_entry("dbe_lob.compare", FuncCategory::Scalar, FuncDomain::DbeLob, 2, Some(3), false))
        .push(spec_oracle_entry("dbe_lob.converttoblob", FuncCategory::Scalar, FuncDomain::DbeLob, 2, Some(5), false))
}

proof fn lemma_chunk_2_1(s: Seq<FuncMeta>)
    requires
        names_increasing(s),
        s.len() == 0 || chars_before(s.last().name@, "dbe_ilm_admin.customize_ilm"@),
    ensures
        names_increasing(table_chunk_2_1(s)),
        table_chunk_2_1(s).len() > 0,
        table_chunk_2_1(s).last().name@ == "dbe_lob.converttoblob"@,
{
    let t = s;
    reveal_strlit("dbe_ilm_admin.customize_ilm");
    lemma_push_keeps_increasing(t, spec_commercial_oracle_entry("dbe_ilm_admin.customize_ilm", FuncCategory::Scalar, FuncDomain::Other, 2, Some(2), false));
    let t = t.push(spec_commercial_oracle_entry("dbe_ilm_admin.customize_ilm", FuncCategory::Scalar, FuncDomain::Other, 2, Some(2), false));
    reveal_strlit("dbe_ilm_admin.disable_ilm");
    lemma_push_after(t, "dbe_ilm_admin.customize_ilm"@, spec_commercial_oracle_entry("dbe_ilm_admin.disable_ilm", FuncCategory::Scalar, FuncDomain::Other, 0, Some(0), false), 14);
    let t = t.push(spec_commercial_oracle_entry("dbe_ilm_admin.disable_ilm", FuncCategory::Scalar, FuncDomain::Other, 0, Some(0), false));
    reveal_strlit("dbe_ilm_admin.enable_ilm");
    lemma_push_after(t, "dbe_ilm_admin.disable_ilm"@, spec_commercial_oracle_entry("dbe_ilm_admin.enable_ilm", FuncCategory::Scalar, FuncDomain::Other, 0, Some(0), false), 14);
    let t = t.push(spec_commercial_oracle_entry("dbe_ilm_admin.enable_ilm", FuncCategory::Scalar, FuncDomain::Other, 0, Some(0), false));
    reveal_strlit("dbe_lob.append");
    lemma_push_after(t, "dbe_ilm_admin.enable_ilm"@, spec_oracle_entry("dbe_lob.append", FuncCategory::Scalar, FuncDomain::DbeLob, 2, Some(2), false), 4);
    let t = t.push(spec_oracle_entry("dbe_lob.append", FuncCategory::Scalar, FuncDomain::DbeLob, 2, Some(2), false));
    reveal_strlit("dbe_lob.bfileclose");
    lemma_push_after(t, "dbe_lob.append"@, spec_oracle_entry("dbe_lob.bfileclose", FuncCategory::Scalar, FuncDomain::DbeLob, 1, Some(1), false), 8);
    let t = t.push(spec_oracle_entry("dbe_lob.bfileclose", FuncCategory::Scalar, FuncDomain::DbeLob, 1, Some(1), false));
    reveal_strlit("dbe_lob.bfilename");
    lemma_push_after(t, "dbe_lob.bfileclose"@, spec_oracle_entry("dbe_lob.bfilename", FuncCategory::Scalar, FuncDomain::DbeLob, 2, Some(2), false), 13);
    let t = t.push(spec_oracle_entry("dbe_lob.bfilename", FuncCategory::Scalar, FuncDomain::DbeLob, 2, Some(2), false));
    reveal_strlit("dbe_lob.bfileopen");
    lemma_push_after(t, "dbe_lob.bfilename"@, spec_oracle_entry("dbe_lob.bfileopen", FuncCategory::Scalar, FuncDomain::DbeLob, 1, Some(2), false), 13);
    let t = t.push(spec_oracle_entry("dbe_lob.bfileopen", FuncCategory::Scalar, FuncDomain::DbeLob, 1, Some(2), false));
    reveal_strlit("dbe_lob.close");
    lemma_push_after(t, "dbe_lob.bfileopen"@, spec_oracle_entry("dbe_lob.close", FuncCategory::Scalar, FuncDomain::DbeLob, 1, Some(1), false), 8);
    let t = t.push(spec_oracle_entry("dbe_lob.close", FuncCategory::Scalar, FuncDomain::DbeLob, 1, Some(1), false));
    reveal_strlit("dbe_lob.compare");
    lemma_push_after(t, "dbe_lob.close"@, spec_oracle_entry("dbe_lob.compare", FuncCategory::Scalar, FuncDomain::DbeLob, 2, Some(3), false), 9);
    let t = t.push(spec_oracle_entry("dbe_lob.compare", FuncCategory::Scalar, FuncDomain::DbeLob, 2, Some(3), false));
    reveal_strlit("dbe_lob.converttoblob");
    lemma_push_after(t, "dbe_lob.compare"@, spec_oracle_entry("dbe_lob.converttoblob", FuncCategory::Scalar, FuncDomain::DbeLob, 2, Some(5), false), 10);
    let t = t.push(spec_oracle_entry("dbe_lob.converttoblob", FuncCategory::Scalar, FuncDomain::DbeLob, 2, Some(5), false));
    assert(t == table_chunk_2_1(s));
}

pub open spec fn table_chunk_2_2(s: Seq<FuncMeta>) -> Seq<FuncMeta> {
    s
        .push(spec_oracle_entry("dbe_lob.converttoclob", FuncCategory::Scalar, FuncDomain::DbeLob, 2, Some(5), false))
        .push(spec_oracle_entry("dbe_lob.copy", FuncCategory::Scalar, FuncDomain::DbeLob, 3, Some(5), false))
        .push(spec_oracle_entry("dbe_lob.create_temporary", FuncCategory::Scalar, FuncDomain::DbeLob, 1, Some(3), false))
        .push(spec_oracle_entry("dbe_lob.erase", FuncCategory::Scalar, FuncDomain::DbeLob, 2, Some(3), false))
        .push(spec_oracle_entry("dbe_lob.fileclose", FuncCategory::Scalar, FuncDomain::DbeLob, 1, Some(1), false))
        .push(spec_oracle_entry("dbe_lob.fileopen", FuncCategory::Scalar, FuncDomain::DbeLob, 2, Some(2), false))
        .push(spec_oracle_entry("dbe_lob.freetemporary", FuncCategory::Scalar, FuncDomain::DbeLob, 1, Some(1), false))
        .push(spec_oracle_entry("dbe_lob.get_length", FuncCategory::Scalar, FuncDomain::DbeLob, 1, Some(1), false))
        .push(spec_oracle_entry("dbe_lob.getchunksize", FuncCategory::Scalar, FuncDomain::DbeLob, 1, Some(1), false))
        .push(spec_oracle_entry("dbe_lob.instr", FuncCategory::Scalar, FuncDomain::DbeLob, 2, Some(4), false))
}

proof fn lemma_chunk_2_2(s: Seq<FuncMeta>)
    requires
        names_increasing(s),
        s.len() == 0 || chars_before(s.last().name@, "dbe_lob.converttoclob"@),
    ensures
        names_increasing(table_chunk_2_2(s)),
        table_chunk_2_2(s).len() > 0,
        table_chunk_2_2(s).last().name@ == "dbe_lob.instr"@,
{
    let t = s;
    reveal_strlit("dbe_lob.converttoclob");
    lemma_push_keeps_increasing(t, spec_oracle_entry("dbe_lob.converttoclob", FuncCategory::Scalar, FuncDomain::DbeLob, 2, Some(5), false));
    let t = t.push(spec_oracle_entry("dbe_lob.converttoclob", FuncCategory::Scalar, FuncDomain::DbeLob, 2, Some(5), false));
    reveal_strlit("dbe_lob.copy");
    lemma_push_after(t, "dbe_lob.converttoclob"@, spec_oracle_entry("dbe_lob.copy", FuncCategory::Scalar, FuncDomain::DbeLob, 3, Some(5), false), 10);
    let t = t.push(spec_oracle_entry("dbe_lob.copy", FuncCategory::Scalar, FuncDomain::DbeLob, 3, Some(5), false));
    reveal_strlit("dbe_lob.create_temporary");
    lemma_push_after(t, "dbe_lob.copy"@, spec_oracle_entry("dbe_lob.create_temporary", FuncCategory::Scalar, FuncDomain::DbeLob, 1, Some(3), false), 9);
    let t = t.push(spec_oracle_entry("dbe_lob.create_temporary", FuncCategory::Scalar, FuncDomain::DbeLob, 1, Some(3), false));
    reveal_strlit("dbe_lob.erase");
    lemma_push_after(t, "dbe_lob.create_temporary"@, spec_oracle_entry("dbe_lob.erase", FuncCategory::Scalar, FuncDomain::DbeLob, 2, Some(3), false), 8);
    let t = t.push(spec_oracle_entry("dbe_lob.erase", FuncCategory::Scalar, FuncDomain::DbeLob, 2, Some(3), false));
    reveal_strlit("dbe_lob.fileclose");
    lemma_push_after(t, "dbe_lob.erase"@, spec_oracle_entry("dbe_lob.fileclose", FuncCategory::Scalar, FuncDomain::DbeLob, 1, Some(1), false), 8);
    let t = t.push(spec_oracle_entry("dbe_lob.fileclose", FuncCategory::Scalar, FuncDomain::DbeLob, 1, Some(1), false));
    reveal_strlit("dbe_lob.fileopen");
    lemma_push_after(t, "dbe_lob.fileclose"@, spec_oracle_entry("dbe_lob.fileopen", FuncCategory::Scalar, FuncDomain::DbeLob, 2, Some(2), false), 12);
    let t = t.push(spec_oracle_entry("dbe_lob.fileopen", FuncCategory::Scalar, FuncDomain::DbeLob, 2, Some(2), false));
    reveal_strlit("dbe_lob.freetemporary");
    lemma_push_after(t, "dbe_lob.fileopen"@, spec_oracle_entry("dbe_lob.freetemporary", FuncCategory::Scalar, FuncDomain::DbeLob, 1, Some(1), false), 9);
    let t = t.push(spec_oracle_entry("dbe_lob.freetemporary", FuncCategory::Scalar, FuncDomain::DbeLob, 1, Some(1), false));
    reveal_strlit("dbe_lob.get_length");
    lemma_push_after(t, "dbe_lob.freetemporary"@, spec_oracle_entry("dbe_lob.get_length", FuncCategory::Scalar, FuncDomain::DbeLob, 1, Some(1), false), 8);
    let t = t.push(spec_oracle_entry("dbe_lob.get_length", FuncCategory::Scalar, FuncDomain::DbeLob, 1, Some(1), false));
    reveal_strlit("dbe_lob.getchunksize");
    lemma_push_after(t, "dbe_lob.get_length"@, spec_oracle_entry("dbe_lob.getchunksize", FuncCategory::Scalar, FuncDomain::DbeLob, 1, Some(1), false), 11);
    let t = t.push(spec_oracle_entry("dbe_lob.getchunksize", FuncCategory::Scalar, FuncDomain::DbeLob, 1, Some(1), false));
    reveal_strlit("dbe_lob.instr");
    lemma_push_after(t, "dbe_lob.getchunksize"@, spec_oracle_entry("dbe_lob.instr", FuncCategory::Scalar, FuncDomain::DbeLob, 2, Some(4), false), 8);
    let t = t.push(spec_oracle_entry("dbe_lob.instr", FuncCategory::Scalar, FuncDomain::DbeLob, 2, Some(4), false));
    assert(t == table_chunk_2_2(s));
}

pub open spec fn table_chunk_2_3(s: Seq<FuncMeta>) -> Seq<FuncMeta> {
    s
        .push(spec_oracle_entry("dbe_lob.loadblobfrombfile", FuncCategory::Scalar, FuncDomain::DbeLob, 5, Some(5), false))
        .push(spec_oracle_entry("dbe_lob.loadblobfromfile", FuncCategory::Scalar, FuncDomain::DbeLob, 5, Some(5), false))
        .push(spec_oracle_entry("dbe_lob.loadclobfrombfile", FuncCategory::Scalar, FuncDomain::DbeLob, 5, Some(5), false))
        .push(spec_oracle_entry("dbe_lob.loadclobfromfile", FuncCategory::Scalar, FuncDomain::DbeLob, 5, Some(5), false))
        .push(spec_oracle_entry("dbe_lob.loadfrombfile", FuncCategory::Scalar, FuncDomain::DbeLob, 3, Some(5), false))
        .push(spec_oracle_entry("dbe_lob.loadfromfile", FuncCategory::Scalar, FuncDomain::DbeLob, 5, Some(5), false))
        .push(spec_oracle_entry("dbe_lob.lob_append", FuncCategory::Scalar, FuncDomain::DbeLob, 2, Some(2), false))
        .push(spec_oracle_entry("dbe_lob.lob_converttoblob", FuncCategory::Scalar, FuncDomain::DbeLob, 5, Some(5), false))
        .push(spec_oracle_entry("dbe_lob.lob_converttoclob", FuncCategory::Scalar, FuncDomain::DbeLob, 5, Some(5), false))
        .push(spec_oracle_entry("dbe_lob.lob_copy", FuncCategory::Scalar, FuncDomain::DbeLob, 3, Some(5), false))
}

proof fn lemma_chunk_2_3(s: Seq<FuncMeta>)
    requires
        names_increasing(s),
        s.len() == 0 || chars_before(s.last().name@, "dbe_lob.loadblobfrombfile"@),
    ensures
        names_increasing(table_chunk_2_3(s)),
        table_chunk_2_3(s).len() > 0,
        table_chunk_2_3(s).last().name@ == "dbe_lob.lob_copy"@,
{
    let t = s;
    reveal_strlit("dbe_lob.loadblobfrombfile");
    lemma_push_keeps_increasing(t, spec_oracle_entry("dbe_lob.loadblobfrombfile", FuncCategory::Scalar, FuncDomain::DbeLob, 5, Some(5), false));
    let t = t.push(spec_oracle_entry("dbe_lob.loadblobfrombfile", FuncCategory::Scalar, FuncDomain::DbeLob, 5, Some(5), false));
    reveal_strlit("dbe_lob.loadblobfromfile");
    lemma_push_after(t, "dbe_lob.loadblobfrombfile"@, spec_oracle_entry("dbe_lob.loadblobfromfile", FuncCategory::Scalar, FuncDomain::DbeLob, 5, Some(5), false), 20);
    let t = t.push(spec_oracle_entry("dbe_lob.loadblobfromfile", FuncCategory::Scalar, FuncDomain::DbeLob, 5, Some(5), false));
    reveal_strlit("dbe_lob.loadclobfrombfile");
    lemma_push_after(t, "dbe_lob.loadblobfromfile"@, spec_oracle_entry("dbe_lob.loadclobfrombfile", FuncCategory::Scalar, FuncDomain::DbeLob, 5, Some(5), false), 12);
    let t = t.push(spec_oracle_entry("dbe_lob.loadclobfrombfile", FuncCategory::Scalar, FuncDomain::DbeLob, 5, Some(5), false));
    reveal_strlit("dbe_lob.loadclobfromfile");
    lemma_push_after(t, "dbe_lob.loadclobfrombfile"@, spec_oracle_entry("dbe_lob.loadclobfromfile", FuncCategory::Scalar, FuncDomain::DbeLob, 5, Some(5), false), 20);
    let t = t.push(spec_oracle_entry("dbe_lob.loadclobfromfile", FuncCategory::Scalar, FuncDomain::DbeLob, 5, Some(5), false));
    reveal_strlit("dbe_lob.loadfrombfile");
    lemma_push_after(t, "dbe_lob.loadclobfromfile"@, spec_oracle_entry("dbe_lob.loadfrombfile", FuncCategory::Scalar, FuncDomain::DbeLob, 3, Some(5), false), 12);
    let t = t.push(spec_oracle_entry("dbe_lob.loadfrombfile", FuncCategory::Scalar, FuncDomain::DbeLob, 3, Some(5), false));
    reveal_strlit("dbe_lob.loadfromfile");
    lemma_push_after(t, "dbe_lob.loadfrombfile"@, spec_oracle_entry("dbe_lob.loadfromfile", FuncCategory::Scalar, FuncDomain::DbeLob, 5, Some(5), false), 16);
    let t = t.push(spec_oracle_entry("dbe_lob.loadfromfile", FuncCategory::Scalar, FuncDomain::DbeLob, 5, Some(5), false));
    reveal_strlit("dbe_lob.lob_append");
    lemma_push_after(t, "dbe_lob.loadfromfile"@, spec_oracle_entry("dbe_lob.lob_append", FuncCategory::Scalar, FuncDomain::DbeLob, 2, Some(2), false), 10);
    let t = t.push(spec_oracle_entry("dbe_lob.lob_append", FuncCategory::Scalar, FuncDomain::DbeLob, 2, Some(2), false));
    reveal_strlit("dbe_lob.lob_converttoblob");
    lemma_push_after(t, "dbe_lob.lob_append"@, spec_oracle_entry("dbe_lob.lob_converttoblob", FuncCategory::Scalar, FuncDomain::DbeLob, 5, Some(5), false), 12);
    let t = t.push(spec_oracle_entry("dbe_lob.lob_converttoblob", FuncCategory::Scalar, FuncDomain::DbeLob, 5, Some(5), false));
    reveal_strlit("dbe_lob.lob_converttoclob");
    lemma_push_after(t, "dbe_lob.lob_converttoblob"@, spec_oracle_entry("dbe_lob.lob_converttoclob", FuncCategory::Scalar, FuncDomain::DbeLob, 5, Some(5), false), 21);
    let t = t.push(spec_oracle_entry("dbe_lob.lob_converttoclob", FuncCategory::Scalar, FuncDomain::DbeLob, 5, Some(5), false));
    reveal_strlit("dbe_lob.lob_copy");
    lemma_push_after(t, "dbe_lob.lob_converttoclob"@, spec_oracle_entry("dbe_lob.lob_copy", FuncCategory::Scalar, FuncDomain::DbeLob, 3, Some(5), false), 14);
    let t = t.push(spec_oracle_entry("dbe_lob.lob_copy", FuncCategory::Scalar, FuncDomain::DbeLob, 3, Some(5), false));
    assert(t == table_chunk_2_3(s));
}

pub open spec fn table_chunk_2_4(s: Seq<FuncMeta>) -> Seq<FuncMeta> {
    s
        .push(spec_oracle_entry("dbe_lob.lob_erase", FuncCategory::Scalar, FuncDomain::DbeLob, 2, Some(3), false))
        .push(spec_oracle_entry("dbe_lob.lob_get_length", FuncCategory::Scalar, FuncDomain::DbeLob, 1, Some(1), false))
        .push(spec_oracle_entry("dbe_lob.lob_read", FuncCategory::Scalar, FuncDomain::DbeLob, 3, Some(3), false))
        .push(spec_oracle_entry("dbe_lob.lob_strip", FuncCategory::Scalar, FuncDomain::DbeLob, 2, Some(2), false))
        .push(spec_oracle_entry("dbe_lob.lob_substr", FuncCategory::Scalar, FuncDomain::DbeLob, 1, Some(3), false))
        .push(spec_oracle_entry("dbe_lob.lob_write", FuncCategory::Scalar, FuncDomain::DbeLob, 4, Some(4), false))
        .push(spec_oracle_entry("dbe_lob.lob_write_append", FuncCategory::Scalar, FuncDomain::DbeLob, 2, Some(2), false))
        .push(spec_oracle_entry("dbe_lob.match", FuncCategory::Scalar, FuncDomain::DbeLob, 2, Some(4), false))
        .push(spec_oracle_entry("dbe_lob.open", FuncCategory::Scalar, FuncDomain::DbeLob, 1, Some(2), false))
        .push(spec_oracle_entry("dbe_lob.read", FuncCategory::Scalar, FuncDomain::DbeLob, 3, Some(3), false))
}

proof fn lemma_chunk_2_4(s: Seq<FuncMeta>)
    requires
        names_increasing(s),
        s.len() == 0 || chars_before(s.last().name@, "dbe_lob.lob_erase"@),
    ensures
        names_increasing(table_chunk_2_4(s)),
        table_chunk_2_4(s).len() > 0,
        table_chunk_2_4(s).last().name@ == "dbe_lob.read"@,
{
    let t = s;
    reveal_strlit("dbe_lob.lob_erase");
    lemma_push_keeps_increasing(t, spec_oracle_entry("dbe_lob.lob_erase", FuncCategory::Scalar, FuncDomain::DbeLob, 2, Some(3), false));
    let t = t.push(spec_oracle_entry("dbe_lob.lob_erase", FuncCategory::Scalar, FuncDomain::DbeLob, 2, Some(3), false));
    reveal_strlit("dbe_lob.lob_get_length");
    lemma_push_after(t, "dbe_lob.lob_erase"@, spec_oracle_entry("dbe_lob.lob_get_length", FuncCategory::Scalar, FuncDomain::DbeLob, 1, Some(1), false), 12);
    let t = t.push(spec_oracle_entry("dbe_lob.lob_get_length", FuncCategory::Scalar, FuncDomain::DbeLob, 1, Some(1), false));
    reveal_strlit("dbe_lob.lob_read");
    lemma_push_after(t, "dbe_lob.lob_get_length"@, spec_oracle_entry("dbe_lob.lob_read", FuncCategory::Scalar, FuncDomain::DbeLob, 3, Some(3), false), 12);
    let t = t.push(spec_oracle_entry("dbe_lob.lob_read", FuncCategory::Scalar, FuncDomain::DbeLob, 3, Some(3), false));
    reveal_strlit("dbe_lob.lob_strip");
    lemma_push_after(t, "dbe_lob.lob_read"@, spec_oracle_entry("dbe_lob.lob_strip", FuncCategory::Scalar, FuncDomain::DbeLob, 2, Some(2), false), 12);
    let t = t.push(spec_oracle_entry("dbe_lob.lob_strip", FuncCategory::Scalar, FuncDomain::DbeLob, 2, Some(2), false));
    reveal_strlit("dbe_lob.lob_substr");
    lemma_push_after(t, "dbe_lob.lob_strip"@, spec_oracle_entry("dbe_lob.lob_substr", FuncCategory::Scalar, FuncDomain::DbeLob, 1, Some(3), false), 13);
    let t = t.push(spec_oracle_entry("dbe_lob.lob_substr", FuncCategory::Scalar, FuncDomain::DbeLob, 1, Some(3), false));
    reveal_strlit("dbe_lob.lob_write");
    lemma_push_after(t, "dbe_lob.lob_substr"@, spec_oracle_entry("dbe_lob.lob_write", FuncCategory::Scalar, FuncDomain::DbeLob, 4, Some(4), false), 12);
    let t = t.push(spec_oracle_entry("dbe_lob.lob_write", FuncCategory::Scalar, FuncDomain::DbeLob, 4, Some(4), false));
    reveal_strlit("dbe_lob.lob_write_append");
    lemma_push_after(t, "dbe_lob.lob_write"@, spec_oracle_entry("dbe_lob.lob_write_append", FuncCategory::Scalar, FuncDomain::DbeLob, 2, Some(2), false), 17);
    let t = t.push(spec_oracle_entry("dbe_lob.lob_write_append", FuncCategory::Scalar, FuncDomain::DbeLob, 2, Some(2), false));
    reveal_strlit("dbe_lob.match");
    lemma_push_after(t, "dbe_lob.lob_write_append"@, spec_oracle_entry("dbe_lob.match", FuncCategory::Scalar, FuncDomain::DbeLob, 2, Some(4), false), 8);
    let t = t.push(spec_oracle_entry("dbe_lob.match", FuncCategory::Scalar, FuncDomain::DbeLob, 2, Some(4), false));
    reveal_strlit("dbe_lob.open");
    lemma_push_after(t, "dbe_lob.match"@, spec_oracle_entry("dbe_lob.open", FuncCategory::Scalar, FuncDomain::DbeLob, 1, Some(2), false), 8);
    let t = t.push(spec_oracle_entry("dbe_lob.open", FuncCategory::Scalar, FuncDomain::DbeLob, 1, Some(2), false));
    reveal_strlit("dbe_lob.read");
    lemma_push_after(t, "dbe_lob.open"@, spec_oracle_entry("dbe_lob.read", FuncCategory::Scalar, FuncDomain::DbeLob, 3, Some(3), false), 8);
    let t = t.push(spec_oracle_entry("dbe_lob.read", FuncCategory::Scalar, FuncDomain::DbeLob, 3, Some(3), false));
    assert(t == table_chunk_2_4(s));
}

pub open spec fn table_chunk_2_5(s: Seq<FuncMeta>) -> Seq<FuncMeta> {
    s
        .push(spec_oracle_entry("dbe_lob.strip", FuncCategory::Scalar, FuncDomain::DbeLob, 2, Some(2), false))
        .push(spec_oracle_entry("dbe_lob.substr", FuncCategory::Scalar, FuncDomain::DbeLob, 1, Some(3), false))
        .push(spec_oracle_entry("dbe_lob.trim", FuncCategory::Scalar, FuncDomain::DbeLob, 2, Some(2), false))
        .push(spec_oracle_entry("dbe_lob.write", FuncCategory::Scalar, FuncDomain::DbeLob, 3, Some(3), false))
        .push(spec_oracle_entry("dbe_lob.write_append", FuncCategory::Scalar, FuncDomain::DbeLob, 2, Some(2), false))
        .push(spec_oracle_entry("dbe_match.edit_distance_similarity", FuncCategory::Scalar, FuncDomain::DbeMatch, 2, Some(2), false))
        .push(spec_oracle_entry("dbe_output.disable", FuncCategory::Scalar, FuncDomain::DbeOutput, 0, Some(0), false))
        .push(spec_oracle_entry("dbe_output.enable", FuncCategory::Scalar, FuncDomain::DbeOutput, 0, Some(1), false))
        .push(spec_oracle_entry("dbe_output.get_line", FuncCategory::Scalar, FuncDomain::DbeOutput, 2, Some(2), false))
        .push(spec_oracle_entry("dbe_output.get_lines", FuncCategory::Scalar, FuncDomain::DbeOutput, 2, Some(2), false))
}

proof fn lemma_chunk_2_5(s: Seq<FuncMeta>)
    requires
        names_increasing(s),
        s.len() == 0 || chars_before(s.last().name@, "dbe_lob.strip"@),
    ensures
        names_increasing(table_chunk_2_5(s)),
        table_chunk_2_5(s).len() > 0,
        table_chunk_2_5(s).last().name@ == "dbe_output.get_lines"@,
{
    let t = s;
    reveal_strlit("dbe_lob.strip");
    lemma_push_keeps_increasing(t, spec_oracle_entry("dbe_lob.strip", FuncCategory::Scalar, FuncDomain::DbeLob, 2, Some(2), false));
    let t = t.push(spec_oracle_entry("dbe_lob.strip", FuncCategory::Scalar, FuncDomain::DbeLob, 2, Some(2), false));
    reveal_strlit("dbe_lob.substr");
    lemma_push_after(t, "dbe_lob.strip"@, spec_oracle_entry("dbe_lob.substr", FuncCategory::Scalar, FuncDomain::DbeLob, 1, Some(3), false), 9);
    let t = t.push(spec_oracle_entry("dbe_lob.substr", FuncCategory::Scalar, FuncDomain::DbeLob, 1, Some(3), false));
    reveal_strlit("dbe_lob.trim");
    lemma_push_after(t, "dbe_lob.substr"@, spec_oracle_entry("dbe_lob.trim", FuncCategory::Scalar, FuncDomain::DbeLob, 2, Some(2), false), 8);
    let t = t.push(spec_oracle_entry("dbe_lob.trim", FuncCategory::Scalar, FuncDomain::DbeLob, 2, Some(2), false));
    reveal_strlit("dbe_lob.write");
    lemma_push_after(t, "dbe_lob.trim"@, spec_oracle_entry("dbe_lob.write", FuncCategory::Scalar, FuncDomain::DbeLob, 3, Some(3), false), 8);
    let t = t.push(spec_oracle_entry("dbe_lob.write", FuncCategory::Scalar, FuncDomain::DbeLob, 3, Some(3), false));
    reveal_strlit("dbe_lob.write_append");
    lemma_push_after(t, "dbe_lob.write"@, spec_oracle_entry("dbe_lob.write_append", FuncCategory::Scalar, FuncDomain::DbeLob, 2, Some(2), false), 13);
    let t = t.push(spec_oracle_entry("dbe_lob.write_append", FuncCategory::Scalar, FuncDomain::DbeLob, 2, Some(2), false));
    reveal_strlit("dbe_match.edit_distance_similarity");
    lemma_push_after(t, "dbe_lob.write_append"@, spec_oracle_entry("dbe_match.edit_distance_similarity", FuncCategory::Scalar, FuncDomain::DbeMatch, 2, Some(2), false), 4);
    let t = t.push(spec_oracle_entry("dbe_match.edit_distance_similarity", FuncCategory::Scalar, FuncDomain::DbeMatch, 2, Some(2), false));
    reveal_strlit("dbe_output.disable");
    lemma_push_after(t, "dbe_match.edit_distance_similarity"@, spec_oracle_entry("dbe_output.disable", FuncCategory::Scalar, FuncDomain::DbeOutput, 0, Some(0), false), 4);
    let t = t.push(spec_oracle_entry("dbe_output.disable", FuncCategory::Scalar, FuncDomain::DbeOutput, 0, Some(0), false));
    reveal_strlit("dbe_output.enable");
    lemma_push_after(t, "dbe_output.disable"@, spec_oracle_entry("dbe_output.enable", FuncCategory::Scalar, FuncDomain::DbeOutput, 0, Some(1), false), 11);
    let t = t.push(spec_oracle_entry("dbe_output.enable", FuncCategory::Scalar, FuncDomain::DbeOutput, 0, Some(1), false));
    reveal_strlit("dbe_output.get_line");
    lemma_push_after(t, "dbe_output.enable"@, spec_oracle_entry("dbe_output.get_line", FuncCategory::Scalar, FuncDomain::DbeOutput, 2, Some(2), false), 11);
    let t = t.push(spec_oracle_entry("dbe_output.get_line", FuncCategory::Scalar, FuncDomain::DbeOutput, 2, Some(2), false));
    reveal_strlit("dbe_output.get_lines");
    lemma_push_after(t, "dbe_output.get_line"@, spec_oracle_entry("dbe_output.get_lines", FuncCategory::Scalar, FuncDomain::DbeOutput, 2, Some(2), false), 19);
    let t = t.push(spec_oracle_entry("dbe_output.get_lines", FuncCategory::Scalar, FuncDomain::DbeOutput, 2, Some(2), false));
    assert(t == table_chunk_2_5(s));
}

pub open spec fn table_chunk_2_6(s: Seq<FuncMeta>) -> Seq<FuncMeta> {
    s
        .push(spec_oracle_entry("dbe_output.new_line", FuncCategory::Scalar, FuncDomain::DbeOutput, 0, Some(0), false))
        .push(spec_oracle_entry("dbe_output.print", FuncCategory::Scalar, FuncDomain::DbeOutput, 1, Some(1), false))
        .push(spec_oracle_entry("dbe_output.print_line", FuncCategory::Scalar, FuncDomain::DbeOutput, 1, Some(1), false))
        .push(spec_oracle_entry("dbe_output.put", FuncCategory::Scalar, FuncDomain::DbeOutput, 1, Some(1), false))
        .push(spec_oracle_entry("dbe_output.put_line", FuncCategory::Scalar, FuncDomain::DbeOutput, 1, Some(1), false))
        .push(spec_oracle_entry("dbe_output.set_buffer_size", FuncCategory::Scalar, FuncDomain::DbeOutput, 0, Some(1), false))
        .push(spec_commercial_entry("dbe_random.get_value", FuncCategory::Scalar, FuncDomain::DbeRandom, 0, Some(2), false))
        .push(spec_oracle_entry("dbe_raw.bit_and", FuncCategory::Scalar, FuncDomain::DbeRaw, 2, Some(2), false))
        .push(spec_oracle_entry("dbe_raw.bit_complement", FuncCategory::Scalar, FuncDomain::DbeRaw, 1, Some(1), false))
        .push(spec_oracle_entry("dbe_raw.bit_or", FuncCategory::Scalar, FuncDomain::DbeRaw, 2, Some(2), false))
}

proof fn lemma_chunk_2_6(s: Seq<FuncMeta>)
    requires
        names_increasing(s),
        s.len() == 0 || chars_before(s.last().name@, "dbe_output.new_line"@),
    ensures
        names_increasing(table_chunk_2_6(s)),
        table_chunk_2_6(s).len() > 0,
        table_chunk_2_6(s).last().name@ == "dbe_raw.bit_or"@,
{
    let t = s;
    reveal_strlit("dbe_output.new_line");
    lemma_push_keeps_increasing(t, spec_oracle_entry("dbe_output.new_line", FuncCategory::Scalar, FuncDomain::DbeOutput, 0, Some(0), false));
    let t = t.push(spec_oracle_entry("dbe_output.new_line", FuncCategory::Scalar, FuncDomain::DbeOutput, 0, Some(0), false));
    reveal_strlit("dbe_output.print");
    lemma_push_after(t, "dbe_output.new_line"@, spec_oracle_entry("dbe_output.print", FuncCategory::Scalar, FuncDomain::DbeOutput, 1, Some(1), false), 11);
    let t = t.push(spec_oracle_entry("dbe_output.print", FuncCategory::Scalar, FuncDomain::DbeOutput, 1, Some(1), false));
    reveal_strlit("dbe_output.print_line");
    lemma_push_after(t, "dbe_output.print"@, spec_oracle_entry("dbe_output.print_line", FuncCategory::Scalar, FuncDomain::DbeOutput, 1, Some(1), false), 16);
    let t = t.push(spec_oracle_entry("dbe_output.print_line", FuncCategory::Scalar, FuncDomain::DbeOutput, 1, Some(1), false));
    reveal_strlit("dbe_output.put");
    lemma_push_after(t, "dbe_output.print_line"@, spec_oracle_entry("dbe_output.put", FuncCategory::Scalar, FuncDomain::DbeOutput, 1, Some(1), false), 12);
    let t = t.push(spec_oracle_entry("dbe_output.put", FuncCategory::Scalar, FuncDomain::DbeOutput, 1, Some(1), false));
    reveal_strlit("dbe_output.put_line");
    lemma_push_after(t, "dbe_output.put"@, spec_oracle_entry("dbe_output.put_line", FuncCategory::Scalar, FuncDomain::DbeOutput, 1, Some(1), false), 14);
    let t = t.push(spec_oracle_entry("dbe_output.put_line", FuncCategory::Scalar, FuncDomain::DbeOutput, 1, Some(1), false));
    reveal_strlit("dbe_output.set_buffer_size");
    lemma_push_after(t, "dbe_output.put_line"@, spec_oracle_entry("dbe_output.set_buffer_size", FuncCategory::Scalar, FuncDomain::DbeOutput, 0, Some(1), false), 11);
    let t = t.push(spec_oracle_entry("dbe_output.set_buffer_size", FuncCategory::Scalar, FuncDomain::DbeOutput, 0, Some(1), false));
    reveal_strlit("dbe_random.get_value");
    lemma_push_after(t, "dbe_output.set_buffer_size"@, spec_commercial_entry("dbe_random.get_value", FuncCategory::Scalar, FuncDomain::DbeRandom, 0, Some(2), false), 4);
    let t = t.push(spec_commercial_entry("dbe_random.get_value", FuncCategory::Scalar, FuncDomain::DbeRandom, 0, Some(2), false));
    reveal_strlit("dbe_raw.bit_and");
    lemma_push_after(t, "dbe_random.get_value"@, spec_oracle_entry("dbe_raw.bit_and", FuncCategory::Scalar, FuncDomain::DbeRaw, 2, Some(2), false), 6);
    let t = t.push(spec_oracle_entry("dbe_raw.bit_and", FuncCategory::Scalar, FuncDomain::DbeRaw, 2, Some(2), false));
    reveal_strlit("dbe_raw.bit_complement");
    lemma_push_after(t, "dbe_raw.bit_and"@, spec_oracle_entry("dbe_raw.bit_complement", FuncCategory::Scalar, FuncDomain::DbeRaw, 1, Some(1), false), 12);
    let t = t.push(spec_oracle_entry("dbe_raw.bit_complement", FuncCategory::Scalar, FuncDomain::DbeRaw, 1, Some(1), false));
    reveal_strlit("dbe_raw.bit_or");
    lemma_push_after(t, "dbe_raw.bit_complement"@, spec_oracle_entry("dbe_raw.bit_or", FuncCategory::Scalar, FuncDomain::DbeRaw, 2, Some(2), false), 12);
    let t = t.push(spec_oracle_entry("dbe_raw.bit_or", FuncCategory::Scalar, FuncDomain::DbeRaw, 2, Some(2), false));
    assert(t == table_chunk_2_6(s));
}

pub open spec fn table_chunk_2_7(s: Seq<FuncMeta>) -> Seq<FuncMeta> {
    s
        .push(spec_oracle_entry("dbe_raw.bit_xor", FuncCategory::Scalar, FuncDomain::DbeRaw, 2, Some(2), false))
        .push(spec_oracle_entry("dbe_raw.cast_from_binary_double_to_raw", FuncCategory::Scalar, FuncDomain::DbeRaw, 1, Some(2), false))
        .push(spec_oracle_entry("dbe_raw.cast_from_binary_float_to_raw", FuncCategory::Scalar, FuncDomain::DbeRaw, 1, Some(2), false))
        .push(spec_oracle_entry("dbe_raw.cast_from_binary_integer_to_raw", FuncCategory::Scalar, FuncDomain::DbeRaw, 1, Some(2), false))
        .push(spec_oracle_entry("dbe_raw.cast_from_number_to_raw", FuncCategory::Scalar, FuncDomain::DbeRaw, 1, Some(1), false))
        .push(spec_oracle_entry("dbe_raw.cast_from_raw_to_binary_double", FuncCategory::Scalar, FuncDomain::DbeRaw, 1, Some(2), false))
        .push(spec_oracle_entry("dbe_raw.cast_from_raw_to_binary_float", FuncCategory::Scalar, FuncDomain::DbeRaw, 1, Some(2), false))
        .push(spec_oracle_entry("dbe_raw.cast_from_raw_to_binary_integer", FuncCategory::Scalar, FuncDomain::DbeRaw, 1, Some(2), false))
        .push(spec_oracle_entry("dbe_raw.cast_from_raw_to_number", FuncCategory::Scalar, FuncDomain::DbeRaw, 1, Some(1), false))
        .push(spec_oracle_entry("dbe_raw.cast_from_raw_to_nvarchar2", FuncCategory::Scalar, FuncDomain::DbeRaw, 1, Some(1), false))
}

proof fn lemma_chunk_2_7(s: Seq<FuncMeta>)
    requires
        names_increasing(s),
        s.len() == 0 || chars_before(s.last().name@, "dbe_raw.bit_xor"@),
    ensures
        names_increasing(table_chunk_2_7(s)),
        table_chunk_2_7(s).len() > 0,
        table_chunk_2_7(s).last().name@ == "dbe_raw.cast_from_raw_to_nvarchar2"@,
{
    let t = s;
    reveal_strlit("dbe_raw.bit_xor");
    lemma_push_keeps_increasing(t, spec_oracle_entry("dbe_raw.bit_xor", FuncCategory::Scalar, FuncDomain::DbeRaw, 2, Some(2), false));
    let t = t.push(spec_oracle_entry("dbe_raw.bit_xor", FuncCategory::Scalar, FuncDomain::DbeRaw, 2, Some(2), false));
    reveal_strlit("dbe_raw.cast_from_binary_double_to_raw");
    lemma_push_after(t, "dbe_raw.bit_xor"@, spec_oracle_entry("dbe_raw.cast_from_binary_double_to_raw", FuncCategory::Scalar, FuncDomain::DbeRaw, 1, Some(2), false), 8);
    let t = t.push(spec_oracle_entry("dbe_raw.cast_from_binary_double_to_raw", FuncCategory::Scalar, FuncDomain::DbeRaw, 1, Some(2), false));
    reveal_strlit("dbe_raw.cast_from_binary_float_to_raw");
    lemma_push_after(t, "dbe_raw.cast_from_binary_double_to_raw"@, spec_oracle_entry("dbe_raw.cast_from_binary_float_to_raw", FuncCategory::Scalar, FuncDomain::DbeRaw, 1, Some(2), false), 25);
    let t = t.push(spec_oracle_entry("dbe_raw.cast_from_binary_float_to_raw", FuncCategory::Scalar, FuncDomain::DbeRaw, 1, Some(2), false));
    reveal_strlit("dbe_raw.cast_from_binary_integer_to_raw");
    lemma_push_after(t, "dbe_raw.cast_from_binary_float_to_raw"@, spec_oracle_entry("dbe_raw.cast_from_binary_integer_to_raw", FuncCategory::Scalar, FuncDomain::DbeRaw, 1, Some(2), false), 25);
    let t = t.push(spec_oracle_entry("dbe_raw.cast_from_binary_integer_to_raw", FuncCategory::Scalar, FuncDomain::DbeRaw, 1, Some(2), false));
    reveal_strlit("dbe_raw.cast_from_number_to_raw");
    lemma_push_after(t, "dbe_raw.cast_from_binary_integer_to_raw"@, spec_oracle_entry("dbe_raw.cast_from_number_to_raw", FuncCategory::Scalar, FuncDomain::DbeRaw, 1, Some(1), false), 18);
    let t = t.push(spec_oracle_entry("dbe_raw.cast_from_number_to_raw", FuncCategory::Scalar, FuncDomain::DbeRaw, 1, Some(1), false));
    reveal_strlit("dbe_raw.cast_from_raw_to_binary_double");
    lemma_push_after(t, "dbe_raw.cast_from_number_to_raw"@, spec_oracle_entry("dbe_raw.cast_from_raw_to_binary_double", FuncCategory::Scalar, FuncDomain::DbeRaw, 1, Some(2), false), 18);
    let t = t.push(spec_oracle_entry("dbe_raw.cast_from_raw_to_binary_double", FuncCategory::Scalar, FuncDomain::DbeRaw, 1, Some(2), false));
    reveal_strlit("dbe_raw.cast_from_raw_to_binary_float");
    lemma_push_after(t, "dbe_raw.cast_from_raw_to_binary_double"@, spec_oracle_entry("dbe_raw.cast_from_raw_to_binary_float", FuncCategory::Scalar, FuncDomain::DbeRaw, 1, Some(2), false), 32);
    let t = t.push(spec_oracle_entry("dbe_raw.cast_from_raw_to_binary_float", FuncCategory::Scalar, FuncDomain::DbeRaw, 1, Some(2), false));
    reveal_strlit("dbe_raw.cast_from_raw_to_binary_integer");
    lemma_push_after(t, "dbe_raw.cast_from_raw_to_binary_float"@, spec_oracle_entry("dbe_raw.cast_from_raw_to_binary_integer", FuncCategory::Scalar, FuncDomain::DbeRaw, 1, Some(2), false), 32);
    let t = t.push(spec_oracle_entry("dbe_raw.cast_from_raw_to_binary_integer", FuncCategory::Scalar, FuncDomain::DbeRaw, 1, Some(2), false));
    reveal_strlit("dbe_raw.cast_from_raw_to_number");
    lemma_push_after(t, "dbe_raw.cast_from_raw_to_binary_integer"@, spec_oracle_entry("dbe_raw.cast_from_raw_to_number", FuncCategory::Scalar, FuncDomain::DbeRaw, 1, Some(1), false), 25);
    let t = t.push(spec_oracle_entry("dbe_raw.cast_from_raw_to_number", FuncCategory::Scalar, FuncDomain::DbeRaw, 1, Some(1), false));
    reveal_strlit("dbe_raw.cast_from_raw_to_nvarchar2");
    lemma_push_after(t, "dbe_raw.cast_from_raw_to_number"@, spec_oracle_entry("dbe_raw.cast_from_raw_to_nvarchar2", FuncCategory::Scalar, FuncDomain::DbeRaw, 1, Some(1), false), 26);
    let t = t.push(spec_oracle_entry("dbe_raw.cast_from_raw_to_nvarchar2", FuncCategory::Scalar, FuncDomain::DbeRaw, 1, Some(1), false));
    assert(t == table_chunk_2_7(s));
}

pub open spec fn table_chunk_2_8(s: Seq<FuncMeta>) -> Seq<FuncMeta> {
    s
        .push(spec_oracle_entry("dbe_raw.cast_from_varchar2_to_raw", FuncCategory::Scalar, FuncDomain::DbeRaw, 1, Some(1), false))
        .push(spec_oracle_entry("dbe_raw.cast_to_varchar2", FuncCategory::Scalar, FuncDomain::DbeRaw, 1, Some(1), false))
        .push(spec_oracle_entry("dbe_raw.compare", FuncCategory::Scalar, FuncDomain::DbeRaw, 2, Some(3), false))
        .push(spec_oracle_entry("dbe_raw.concat", FuncCategory::Scalar, FuncDomain::DbeRaw, 0, Some(12), false))
        .push(spec_oracle_entry("dbe_raw.convert", FuncCategory::Scalar, FuncDomain::DbeRaw, 3, Some(3), false))
        .push(spec_oracle_entry("dbe_raw.copies", FuncCategory::Scalar, FuncDomain::DbeRaw, 2, Some(2), false))
        .push(spec_oracle_entry("dbe_raw.get_length", FuncCategory::Scalar, FuncDomain::DbeRaw, 1, Some(1), false))
        .push(spec_oracle_entry("dbe_raw.overlay", FuncCategory::Scalar, FuncDomain::DbeRaw, 2, Some(5), false))
        .push(spec_oracle_entry("dbe_raw.reverse", FuncCategory::Scalar, FuncDomain::DbeRaw, 1, Some(1), false))
        .push(spec_oracle_entry("dbe_raw.substr", FuncCategory::Scalar, FuncDomain::DbeRaw, 1, Some(3), false))
}

proof fn lemma_chunk_2_8(s: Seq<FuncMeta>)
    requires
        names_increasing(s),
        s.len() == 0 || chars_before(s.last().name@, "dbe_raw.cast_from_varchar2_to_raw"@),
    ensures
        names_increasing(table_chunk_2_8(s)),
        table_chunk_2_8(s).len() > 0,
        table_chunk_2_8(s).last().name@ == "dbe_raw.substr"@,
{
    let t = s;
    reveal_strlit("dbe_raw.cast_from_varchar2_to_raw");
    lemma_push_keeps_increasing(t, spec_oracle_entry("dbe_raw.cast_from_varchar2_to_raw", FuncCategory::Scalar, FuncDomain::DbeRaw, 1, Some(1), false));
    let t = t.push(spec_oracle_entry("dbe_raw.cast_from_varchar2_to_raw", FuncCategory::Scalar, FuncDomain::DbeRaw, 1, Some(1), false));
    reveal_strlit("dbe_raw.cast_to_varchar2");
    lemma_push_after(t, "dbe_raw.cast_from_varchar2_to_raw"@, spec_oracle_entry("dbe_raw.cast_to_varchar2", FuncCategory::Scalar, FuncDomain::DbeRaw, 1, Some(1), false), 13);
    let t = t.push(spec_oracle_entry("dbe_raw.cast_to_varchar2", FuncCategory::Scalar, FuncDomain::DbeRaw, 1, Some(1), false));
    reveal_strlit("dbe_raw.compare");
    lemma_push_after(t, "dbe_raw.cast_to_varchar2"@, spec_oracle_entry("dbe_raw.compare", FuncCategory::Scalar, FuncDomain::DbeRaw, 2, Some(3), false), 9);
    let t = t.push(spec_oracle_entry("dbe_raw.compare", FuncCategory::Scalar, FuncDomain::DbeRaw, 2, Some(3), false));
    reveal_strlit("dbe_raw.concat");
    lemma_push_after(t, "dbe_raw.compare"@, spec_oracle_entry("dbe_raw.concat", FuncCategory::Scalar, FuncDomain::DbeRaw, 0, Some(12), false), 10);
    let t = t.push(spec_oracle_entry("dbe_raw.concat", FuncCategory::Scalar, FuncDomain::DbeRaw, 0, Some(12), false));
    reveal_strlit("dbe_raw.convert");
    lemma_push_after(t, "dbe_raw.concat"@, spec_oracle_entry("dbe_raw.convert", FuncCategory::Scalar, FuncDomain::DbeRaw, 3, Some(3), false), 11);
    let t = t.push(spec_oracle_entry("dbe_raw.convert", FuncCategory::Scalar, FuncDomain::DbeRaw, 3, Some(3), false));
    reveal_strlit("dbe_raw.copies");
    lemma_push_after(t, "dbe_raw.convert"@, spec_oracle_entry("dbe_raw.copies", FuncCategory::Scalar, FuncDomain::DbeRaw, 2, Some(2), false), 10);
    let t = t.push(spec_oracle_entry("dbe_raw.copies", FuncCategory::Scalar, FuncDomain::DbeRaw, 2, Some(2), false));
    reveal_strlit("dbe_raw.get_length");
    lemma_push_after(t, "dbe_raw.copies"@, spec_oracle_entry("dbe_raw.get_length", FuncCategory::Scalar, FuncDomain::DbeRaw, 1, Some(1), false), 8);
    let t = t.push(spec_oracle_entry("dbe_raw.get_length", FuncCategory::Scalar, FuncDomain::DbeRaw, 1, Some(1), false));
    reveal_strlit("dbe_raw.overlay");
    lemma_push_after(t, "dbe_raw.get_length"@, spec_oracle_entry("dbe_raw.overlay", FuncCategory::Scalar, FuncDomain::DbeRaw, 2, Some(5), false), 8);
    let t = t.push(spec_oracle_entry("dbe_raw.overlay", FuncCategory::Scalar, FuncDomain::DbeRaw, 2, Some(5), false));
    reveal_strlit("dbe_raw.reverse");
    lemma_push_after(t, "dbe_raw.overlay"@, spec_oracle_entry("dbe_raw.reverse", FuncCategory::Scalar, FuncDomain::DbeRaw, 1, Some(1), false), 8);
    let t = t.push(spec_oracle_entry("dbe_raw.reverse", FuncCategory::Scalar, FuncDomain::DbeRaw, 1, Some(1), false));
    reveal_strlit("dbe_raw.substr");
    lemma_push_after(t, "dbe_raw.reverse"@, spec_oracle_entry("dbe_raw.substr", FuncCategory::Scalar, FuncDomain::DbeRaw, 1, Some(3), false), 8);
    let t = t.push(spec_oracle_entry("dbe_raw.substr", FuncCategory::Scalar, FuncDomain::DbeRaw, 1, Some(3), false));
    assert(t == table_chunk_2_8(s));
}

pub open spec fn table_chunk_2_9(s: Seq<FuncMeta>) -> Seq<FuncMeta> {
    s
        .push(spec_oracle_entry("dbe_raw.translate", FuncCategory::Scalar, FuncDomain::DbeRaw, 3, Some(3), false))
        .push(spec_oracle_entry("dbe_raw.transliterate", FuncCategory::Scalar, FuncDomain::DbeRaw, 1, Some(4), false))
        .push(spec_oracle_entry("dbe_raw.xrange", FuncCategory::Scalar, FuncDomain::DbeRaw, 1, Some(2), false))
        .push(spec_oracle_entry("dbe_scheduler.create_credential", FuncCategory::Scalar, FuncDomain::DbeScheduler, 3, Some(3), false))
        .push(spec_oracle_entry("dbe_scheduler.create_job", FuncCategory::Scalar, FuncDomain::DbeScheduler, 1, None, false))
        .push(spec_oracle_entry("dbe_scheduler.create_job_class", FuncCategory::Scalar, FuncDomain::DbeScheduler, 1, Some(3), false))
        .push(spec_oracle_entry("dbe_scheduler.create_program", FuncCategory::Scalar, FuncDomain::DbeScheduler, 1, None, false))
        .push(spec_oracle_entry("dbe_scheduler.create_schedule", FuncCategory::Scalar, FuncDomain::DbeScheduler, 1, Some(3), false))
        .push(spec_oracle_entry("dbe_scheduler.define_program_argument", FuncCategory::Scalar, FuncDomain::DbeScheduler, 3, Some(5), false))
        .push(spec_oracle_entry("dbe_scheduler.disable", FuncCategory::Scalar, FuncDomain::DbeScheduler, 1, Some(2), false))
}

proof fn lemma_chunk_2_9(s: Seq<FuncMeta>)
    requires
        names_increasing(s),
        s.len() == 0 || chars_before(s.last().name@, "dbe_raw.translate"@),
    ensures
        names_increasing(table_chunk_2_9(s)),
        table_chunk_2_9(s).len() > 0,
        table_chunk_2_9(s).last().name@ == "dbe_scheduler.disable"@,
{
    let t = s;
    reveal_strlit("dbe_raw.translate");
    lemma_push_keeps_increasing(t, spec_oracle_entry("dbe_raw.translate", FuncCategory::Scalar, FuncDomain::DbeRaw, 3, Some(3), false));
    let t = t.push(spec_oracle_entry("dbe_raw.translate", FuncCategory::Scalar, FuncDomain::DbeRaw, 3, Some(3), false));
    reveal_strlit("dbe_raw.transliterate");
    lemma_push_after(t, "dbe_raw.translate"@, spec_oracle_entry("dbe_raw.transliterate", FuncCategory::Scalar, FuncDomain::DbeRaw, 1, Some(4), false), 14);
    let t = t.push(spec_oracle_entry("dbe_raw.transliterate", FuncCategory::Scalar, FuncDomain::DbeRaw, 1, Some(4), false));
    reveal_strlit("dbe_raw.xrange");
    lemma_push_after(t, "dbe_raw.transliterate"@, spec_oracle_entry("dbe_raw.xrange", FuncCategory::Scalar, FuncDomain::DbeRaw, 1, Some(2), false), 8);
    let t = t.push(spec_oracle_entry("dbe_raw.xrange", FuncCategory::Scalar, FuncDomain::DbeRaw, 1, Some(2), false));
    reveal_strlit("dbe_scheduler.create_credential");
    lemma_push_after(t, "dbe_raw.xrange"@, spec_oracle_entry("dbe_scheduler.create_credential", FuncCategory::Scalar, FuncDomain::DbeScheduler, 3, Some(3), false), 4);
    let t = t.push(spec_oracle_entry("dbe_scheduler.create_credential", FuncCategory::Scalar, FuncDomain::DbeScheduler, 3, Some(3), false));
    reveal_strlit("dbe_scheduler.create_job");
    lemma_push_after(t, "dbe_scheduler.create_credential"@, spec_oracle_entry("dbe_scheduler.create_job", FuncCategory::Scalar, FuncDomain::DbeScheduler, 1, None, false), 21);
    let t = t.push(spec_oracle_entry("dbe_scheduler.create_job", FuncCategory::Scalar, FuncDomain::DbeScheduler, 1, None, false));
    reveal_strlit("dbe_scheduler.create_job_class");
    lemma_push_after(t, "dbe_scheduler.create_job"@, spec_oracle_entry("dbe_scheduler.create_job_class", FuncCategory::Scalar, FuncDomain::DbeScheduler, 1, Some(3), false), 24);
    let t = t.push(spec_oracle_entry("dbe_scheduler.create_job_class", FuncCategory::Scalar, FuncDomain::DbeScheduler, 1, Some(3), false));
    reveal_strlit("dbe_scheduler.create_program");
    lemma_push_after(t, "dbe_scheduler.create_job_class"@, spec_oracle_entry("dbe_scheduler.create_program", FuncCategory::Scalar, FuncDomain::DbeScheduler, 1, None, false), 21);
    let t = t.push(spec_oracle_entry("dbe_scheduler.create_program", FuncCategory::Scalar, FuncDomain::DbeScheduler, 1, None, false));
    reveal_strlit("dbe_scheduler.create_schedule");
    lemma_push_after(t, "dbe_scheduler.create_program"@, spec_oracle_entry("dbe_scheduler.create_schedule", FuncCategory::Scalar, FuncDomain::DbeScheduler, 1, Some(3), false), 21);
    let t = t.push(spec_oracle_entry("dbe_scheduler.create_schedule", FuncCategory::Scalar, FuncDomain::DbeScheduler, 1, Some(3), false));
    reveal_strlit("dbe_scheduler.define_program_argument");
    lemma_push_after(t, "dbe_scheduler.create_schedule"@, spec_oracle_entry("dbe_scheduler.define_program_argument", FuncCategory::Scalar, FuncDomain::DbeScheduler, 3, Some(5), false), 14);
    let t = t.push(spec_oracle_entry("dbe_scheduler.define_program_argument", FuncCategory::Scalar, FuncDomain::DbeScheduler, 3, Some(5), false));
    reveal_strlit("dbe_scheduler.disable");
    lemma_push_after(t, "dbe_scheduler.define_program_argument"@, spec_oracle_entry("dbe_scheduler.disable", FuncCategory::Scalar, FuncDomain::DbeScheduler, 1, Some(2), false), 15);
    let t = t.push(spec_oracle_entry("dbe_scheduler.disable", FuncCategory::Scalar, FuncDomain::DbeScheduler, 1, Some(2), false));
    assert(t == table_chunk_2_9(s));
}

pub open spec fn table_chunk_2_10(s: Seq<FuncMeta>) -> Seq<FuncMeta> {
    s
        .push(spec_oracle_entry("dbe_scheduler.disable_single", FuncCategory::Scalar, FuncDomain::DbeScheduler, 1, Some(2), false))
        .push(spec_oracle_entry("dbe_scheduler.drop_credential", FuncCategory::Scalar, FuncDomain::DbeScheduler, 1, Some(1), false))
        .push(spec_oracle_entry("dbe_scheduler.drop_job", FuncCategory::Scalar, FuncDomain::DbeScheduler, 1, None, false))
        .push(spec_oracle_entry("dbe_scheduler.drop_job_class", FuncCategory::Scalar, FuncDomain::DbeScheduler, 1, Some(1), false))
        .push(spec_oracle_entry("dbe_scheduler.drop_program", FuncCategory::Scalar, FuncDomain::DbeScheduler, 1, Some(1), false))
        .push(spec_oracle_entry("dbe_scheduler.drop_schedule", FuncCategory::Scalar, FuncDomain::DbeScheduler, 1, Some(1), false))
        .push(spec_oracle_entry("dbe_scheduler.drop_single_job", FuncCategory::Scalar, FuncDomain::DbeScheduler, 1, Some(3), false))
        .push(spec_oracle_entry("dbe_scheduler.drop_single_job_class", FuncCategory::Scalar, FuncDomain::DbeScheduler, 1, Some(2), false))
        .push(spec_oracle_entry("dbe_scheduler.drop_single_program", FuncCategory::Scalar, FuncDomain::DbeScheduler, 1, Some(2), false))
        .push(spec_oracle_entry("dbe_scheduler.drop_single_schedule", FuncCategory::Scalar, FuncDomain::DbeScheduler, 1, Some(2), false))
}

proof fn lemma_chunk_2_10(s: Seq<FuncMeta>)
    requires
        names_increasing(s),
        s.len() == 0 || chars_before(s.last().name@, "dbe_scheduler.disable_single"@),
    ensures
        names_increasing(table_chunk_2_10(s)),
        table_chunk_2_10(s).len() > 0,
        table_chunk_2_10(s).last().name@ == "dbe_scheduler.drop_single_schedule"@,
{
    let t = s;
    reveal_strlit("dbe_scheduler.disable_single");
    lemma_push_keeps_increasing(t, spec_oracle_entry("dbe_scheduler.disable_single", FuncCategory::Scalar, FuncDomain::DbeScheduler, 1, Some(2), false));
    let t = t.push(spec_oracle_entry("dbe_scheduler.disable_single", FuncCategory::Scalar, FuncDomain::DbeScheduler, 1, Some(2), false));
    reveal_strlit("dbe_scheduler.drop_credential");
    lemma_push_after(t, "dbe_scheduler.disable_single"@, spec_oracle_entry("dbe_scheduler.drop_credential", FuncCategory::Scalar, FuncDomain::DbeScheduler, 1, Some(1), false), 15);
    let t = t.push(spec_oracle_entry("dbe_scheduler.drop_credential", FuncCategory::Scalar, FuncDomain::DbeScheduler, 1, Some(1), false));
    reveal_strlit("dbe_scheduler.drop_job");
    lemma_push_after(t, "dbe_scheduler.drop_credential"@, spec_oracle_entry("dbe_scheduler.drop_job", FuncCategory::Scalar, FuncDomain::DbeScheduler, 1, None, false), 19);
    let t = t.push(spec_oracle_entry("dbe_scheduler.drop_job", FuncCategory::Scalar, FuncDomain::DbeScheduler, 1, None, false));
    reveal_strlit("dbe_scheduler.drop_job_class");
    lemma_push_after(t, "dbe_scheduler.drop_job"@, spec_oracle_entry("dbe_scheduler.drop_job_class", FuncCategory::Scalar, FuncDomain::DbeScheduler, 1, Some(1), false), 22);
    let t = t.push(spec_oracle_entry("dbe_scheduler.drop_job_class", FuncCategory::Scalar, FuncDomain::DbeScheduler, 1, Some(1), false));
    reveal_strlit("dbe_scheduler.drop_program");
    lemma_push_after(t, "dbe_scheduler.drop_job_class"@, spec_oracle_entry("dbe_scheduler.drop_program", FuncCategory::Scalar, FuncDomain::DbeScheduler, 1, Some(1), false), 19);
    let t = t.push(spec_oracle_entry("dbe_scheduler.drop_program", FuncCategory::Scalar, FuncDomain::DbeScheduler, 1, Some(1), false));
    reveal_strlit("dbe_scheduler.drop_schedule");
    lemma_push_after(t, "dbe_scheduler.drop_program"@, spec_oracle_entry("dbe_scheduler.drop_schedule", FuncCategory::Scalar, FuncDomain::DbeScheduler, 1, Some(1), false), 19);
    let t = t.push(spec_oracle_entry("dbe_scheduler.drop_schedule", FuncCategory::Scalar, FuncDomain::DbeScheduler, 1, Some(1), false));
    reveal_strlit("dbe_scheduler.drop_single_job");
    lemma_push_after(t, "dbe_scheduler.drop_schedule"@, spec_oracle_entry("dbe_scheduler.drop_single_job", FuncCategory::Scalar, FuncDomain::DbeScheduler, 1, Some(3), false), 20);
    let t = t.push(spec_oracle_entry("dbe_scheduler.drop_single_job", FuncCategory::Scalar, FuncDomain::DbeScheduler, 1, Some(3), false));
    reveal_strlit("dbe_scheduler.drop_single_job_class");
    lemma_push_after(t, "dbe_scheduler.drop_single_job"@, spec_oracle_entry("dbe_scheduler.drop_single_job_class", FuncCategory::Scalar, FuncDomain::DbeScheduler, 1, Some(2), false), 29);
    let t = t.push(spec_oracle_entry("dbe_scheduler.drop_single_job_class", FuncCategory::Scalar, FuncDomain::DbeScheduler, 1, Some(2), false));
    reveal_strlit("dbe_scheduler.drop_single_program");
    lemma_push_after(t, "dbe_scheduler.drop_single_job_class"@, spec_oracle_entry("dbe_scheduler.drop_single_program", FuncCategory::Scalar, FuncDomain::DbeScheduler, 1, Some(2), false), 26);
    let t = t.push(spec_oracle_entry("dbe_scheduler.drop_single_program", FuncCategory::Scalar, FuncDomain::DbeScheduler, 1, Some(2), false));
    reveal_strlit("dbe_scheduler.drop_single_schedule");
    lemma_push_after(t, "dbe_scheduler.drop_single_program"@, spec_oracle_entry("dbe_scheduler.drop_single_schedule", FuncCategory::Scalar, FuncDomain::DbeScheduler, 1, Some(2), false), 26);
    let t = t.push(spec_oracle_entry("dbe_scheduler.drop_single_schedule", FuncCategory::Scalar, FuncDomain::DbeScheduler, 1, Some(2), false));
    assert(t == table_chunk_2_10(s));
}

pub open spec fn table_chunk_2_11(s: Seq<FuncMeta>) -> Seq<FuncMeta> {
    s
        .push(spec_oracle_entry("dbe_scheduler.enable", FuncCategory::Scalar, FuncDomain::DbeScheduler, 1, Some(2), false))
        .push(spec_oracle_entry("dbe_scheduler.enable_single", FuncCategory::Scalar, FuncDomain::DbeScheduler, 1, Some(1), false))
        .push(spec_oracle_entry("dbe_scheduler.eval_calendar_string", FuncCategory::Scalar, FuncDomain::DbeScheduler, 2, Some(2), false))
        .push(spec_oracle_entry("dbe_scheduler.evaluate_calendar_string", FuncCategory::Scalar, FuncDomain::DbeScheduler, 2, Some(2), false))
        .push(spec_oracle_entry("dbe_scheduler.generate_job_name", FuncCategory::Scalar, FuncDomain::DbeScheduler, 1, Some(1), false))
        .push(spec_oracle_entry("dbe_scheduler.grant_user_authorization", FuncCategory::Scalar, FuncDomain::DbeScheduler, 2, Some(2), false))
        .push(spec_oracle_entry("dbe_scheduler.revoke_user_authorization", FuncCategory::Scalar, FuncDomain::DbeScheduler, 2, Some(2), false))
        .push(spec_oracle_entry("dbe_scheduler.run_backend_job", FuncCategory::Scalar, FuncDomain::DbeScheduler, 1, Some(2), false))
        .push(spec_oracle_entry("dbe_scheduler.run_foreground_job", FuncCategory::Scalar, FuncDomain::DbeScheduler, 1, Some(2), false))
        .push(spec_oracle_entry("dbe_scheduler.run_job", FuncCategory::Scalar, FuncDomain::DbeScheduler, 1, Some(2), false))
}

proof fn lemma_chunk_2_11(s: Seq<FuncMeta>)
    requires
        names_increasing(s),
        s.len() == 0 || chars_before(s.last().name@, "dbe_scheduler.enable"@),
    ensures
        names_increasing(table_chunk_2_11(s)),
        table_chunk_2_11(s).len() > 0,
        table_chunk_2_11(s).last().name@ == "dbe_scheduler.run_job"@,
{
    let t = s;
    reveal_strlit("dbe_scheduler.enable");
    lemma_push_keeps_increasing(t, spec_oracle_entry("dbe_scheduler.enable", FuncCategory::Scalar, FuncDomain::DbeScheduler, 1, Some(2), false));
    let t = t.push(spec_oracle_entry("dbe_scheduler.enable", FuncCategory::Scalar, FuncDomain::DbeScheduler, 1, Some(2), false));
    reveal_strlit("dbe_scheduler.enable_single");
    lemma_push_after(t, "dbe_scheduler.enable"@, spec_oracle_entry("dbe_scheduler.enable_single", FuncCategory::Scalar, FuncDomain::DbeScheduler, 1, Some(1), false), 20);
    let t = t.push(spec_oracle_entry("dbe_scheduler.enable_single", FuncCategory::Scalar, FuncDomain::DbeScheduler, 1, Some(1), false));
    reveal_strlit("dbe_scheduler.eval_calendar_string");
    lemma_push_after(t, "dbe_scheduler.enable_single"@, spec_oracle_entry("dbe_scheduler.eval_calendar_string", FuncCategory::Scalar, FuncDomain::DbeScheduler, 2, Some(2), false), 15);
    let t = t.push(spec_oracle_entry("dbe_scheduler.eval_calendar_string", FuncCategory::Scalar, FuncDomain::DbeScheduler, 2, Some(2), false));
    reveal_strlit("dbe_scheduler.evaluate_calendar_string");
    lemma_push_after(t, "dbe_scheduler.eval_calendar_string"@, spec_oracle_entry("dbe_scheduler.evaluate_calendar_string", FuncCategory::Scalar, FuncDomain::DbeScheduler, 2, Some(2), false), 18);
    let t = t.push(spec_oracle_entry("dbe_scheduler.evaluate_calendar_string", FuncCategory::Scalar, FuncDomain::DbeScheduler, 2, Some(2), false));
    reveal_strlit("dbe_scheduler.generate_job_name");
    lemma_push_after(t, "dbe_scheduler.evaluate_calendar_string"@, spec_oracle_entry("dbe_scheduler.generate_job_name", FuncCategory::Scalar, FuncDomain::DbeScheduler, 1, Some(1), false), 14);
    let t = t.push(spec_oracle_entry("dbe_scheduler.generate_job_name", FuncCategory::Scalar, FuncDomain::DbeScheduler, 1, Some(1), false));
    reveal_strlit("dbe_scheduler.grant_user_authorization");
    lemma_push_after(t, "dbe_scheduler.generate_job_name"@, spec_oracle_entry("dbe_scheduler.grant_user_authorization", FuncCategory::Scalar, FuncDomain::DbeScheduler, 2, Some(2), false), 15);
    let t = t.push(spec_oracle_entry("dbe_scheduler.grant_user_authorization", FuncCategory::Scalar, FuncDomain::DbeScheduler, 2, Some(2), false));
    reveal_strlit("dbe_scheduler.revoke_user_authorization");
    lemma_push_after(t, "dbe_scheduler.grant_user_authorization"@, spec_oracle_entry("dbe_scheduler.revoke_user_authorization", FuncCategory::Scalar, FuncDomain::DbeScheduler, 2, Some(2), false), 14);
    let t = t.push(spec_oracle_entry("dbe_scheduler.revoke_user_authorization", FuncCategory::Scalar, FuncDomain::DbeScheduler, 2, Some(2), false));
    reveal_strlit("dbe_scheduler.run_backend_job");
    lemma_push_after(t, "dbe_scheduler.revoke_user_authorization"@, spec_oracle_entry("dbe_scheduler.run_backend_job", FuncCategory::Scalar, FuncDomain::DbeScheduler, 1, Some(2), false), 15);
    let t = t.push(spec_oracle_entry("dbe_scheduler.run_backend_job", FuncCategory::Scalar, FuncDomain::DbeScheduler, 1, Some(2), false));
    reveal_strlit("dbe_scheduler.run_foreground_job");
    lemma_push_after(t, "dbe_scheduler.run_backend_job"@, spec_oracle_entry("dbe_scheduler.run_foreground_job", FuncCategory::Scalar, FuncDomain::DbeScheduler, 1, Some(2), false), 18);
    let t = t.push(spec_oracle_entry("dbe_scheduler.run_foreground_job", FuncCategory::Scalar, FuncDomain::DbeScheduler, 1, Some(2), false));
    reveal_strlit("dbe_scheduler.run_job");
    lemma_push_after(t, "dbe_scheduler.run_foreground_job"@, spec_oracle_entry("dbe_scheduler.run_job", FuncCategory::Scalar, FuncDomain::DbeScheduler, 1, Some(2), false), 18);
    let t = t.push(spec_oracle_entry("dbe_scheduler.run_job", FuncCategory::Scalar, FuncDomain::DbeScheduler, 1, Some(2), false));
    assert(t == table_chunk_2_11(s));
}

pub open spec fn table_chunk_2_12(s: Seq<FuncMeta>) -> Seq<FuncMeta> {
    s
        .push(spec_oracle_entry("dbe_scheduler.set_attribute", FuncCategory::Scalar, FuncDomain::DbeScheduler, 3, Some(3), false))
        .push(spec_oracle_entry("dbe_scheduler.set_job_argument_value", FuncCategory::Scalar, FuncDomain::DbeScheduler, 3, Some(3), false))
        .push(spec_oracle_entry("dbe_scheduler.stop_job", FuncCategory::Scalar, FuncDomain::DbeScheduler, 1, Some(2), false))
        .push(spec_oracle_entry("dbe_scheduler.stop_single_job", FuncCategory::Scalar, FuncDomain::DbeScheduler, 1, Some(2), false))
        .push(spec_oracle_entry("dbe_session.clear_context", FuncCategory::Scalar, FuncDomain::DbeSession, 2, Some(3), false))
}

proof fn lemma_chunk_2_12(s: Seq<FuncMeta>)
    requires
        names_increasing(s),
        s.len() == 0 || chars_before(s.last().name@, "dbe_scheduler.set_attribute"@),
    ensures
        names_increasing(table_chunk_2_12(s)),
        table_chunk_2_12(s).len() > 0,
        table_chunk_2_12(s).last().name@ == "dbe_session.clear_context"@,
{
    let t = s;
    reveal_strlit("dbe_scheduler.set_attribute");
    lemma_push_keeps_increasing(t, spec_oracle_entry("dbe_scheduler.set_attribute", FuncCategory::Scalar, FuncDomain::DbeScheduler, 3, Some(3), false));
    let t = t.push(spec_oracle_entry("dbe_scheduler.set_attribute", FuncCategory::Scalar, FuncDomain::DbeScheduler, 3, Some(3), false));
    reveal_strlit("dbe_scheduler.set_job_argument_value");
    lemma_push_after(t, "dbe_scheduler.set_attribute"@, spec_oracle_entry("dbe_scheduler.set_job_argument_value", FuncCategory::Scalar, FuncDomain::DbeScheduler, 3, Some(3), false), 18);
    let t = t.push(spec_oracle_entry("dbe_scheduler.set_job_argument_value", FuncCategory::Scalar, FuncDomain::DbeScheduler, 3, Some(3), false));
    reveal_strlit("dbe_scheduler.stop_job");
    lemma_push_after(t, "dbe_scheduler.set_job_argument_value"@, spec_oracle_entry("dbe_scheduler.stop_job", FuncCategory::Scalar, FuncDomain::DbeScheduler, 1, Some(2), false), 15);
    let t = t.push(spec_oracle_entry("dbe_scheduler.stop_job", FuncCategory::Scalar, FuncDomain::DbeScheduler, 1, Some(2), false));
    reveal_strlit("dbe_scheduler.stop_single_job");
    lemma_push_after(t, "dbe_scheduler.stop_job"@, spec_oracle_entry("dbe_scheduler.stop_single_job", FuncCategory::Scalar, FuncDomain::DbeScheduler, 1, Some(2), false), 19);
    let t = t.push(spec_oracle_entry("dbe_scheduler.stop_single_job", FuncCategory::Scalar, FuncDomain::DbeScheduler, 1, Some(2), false));
    reveal_strlit("dbe_session.clear_context");
    lemma_push_after(t, "dbe_scheduler.stop_single_job"@, spec_oracle_entry("dbe_session.clear_context", FuncCategory::Scalar, FuncDomain::DbeSession, 2, Some(3), false), 5);
    let t = t.push(spec_oracle_entry("dbe_session.clear_context", FuncCategory::Scalar, FuncDomain::DbeSession, 2, Some(3), false));
    assert(t == table_chunk_2_12(s));
}

proof fn lemma_part_2_increasing(s: Seq<FuncMeta>)
    requires
        names_increasing(s),
        s.len() == 0 || chars_before(s.last().name@, "dbe_file.remove"@),
    ensures
        names_increasing(table_part_2(s)),
        table_part_2(s).len() > 0,
        table_part_2(s).last().name@ == "dbe_session.clear_context"@,
{
    lemma_chunk_2_0(s);
    let t0 = table_chunk_2_0(s);
    reveal_strlit("dbe_ilm.stop_ilm");
    reveal_strlit("dbe_ilm_admin.customize_ilm");
    lemma_chars_before_at("dbe_ilm.stop_ilm"@, "dbe_ilm_admin.customize_ilm"@, 7);
    lemma_chunk_2_1(t0);
    let t1 = table_chunk_2_1(t0);
    reveal_strlit("dbe_lob.converttoblob");
    reveal_strlit("dbe_lob.converttoclob");
    lemma_chars_before_at("dbe_lob.converttoblob"@, "dbe_lob.converttoclob"@, 17);
    lemma_chunk_2_2(t1);
    let t2 = table_chunk_2_2(t1);
    reveal_strlit("dbe_lob.instr");
    reveal_strlit("dbe_lob.loadblobfrombfile");
    lemma_chars_before_at("dbe_lob.instr"@, "dbe_lob.loadblobfrombfile"@, 8);
    lemma_chunk_2_3(t2);
    let t3 = table_chunk_2_3(t2);
    reveal_strlit("dbe_lob.lob_copy");
    reveal_strlit("dbe_lob.lob_erase");
    lemma_chars_before_at("dbe_lob.lob_copy"@, "dbe_lob.lob_erase"@, 12);
    lemma_chunk_2_4(t3);
    let t4 = table_chunk_2_4(t3);
    reveal_strlit("dbe_lob.read");
    reveal_strlit("dbe_lob.strip");
    lemma_chars_before_at("dbe_lob.read"@, "dbe_lob.strip"@, 8);
    lemma_chunk_2_5(t4);
    let t5 = table_chunk_2_5(t4);
    reveal_strlit("dbe_output.get_lines");
    reveal_strlit("dbe_output.new_line");
    lemma_chars_before_at("dbe_output.get_lines"@, "dbe_output.new_line"@, 11);
    lemma_chunk_2_6(t5);
    let t6 = table_chunk_2_6(t5);
    reveal_strlit("dbe_raw.bit_or");
    reveal_strlit("dbe_raw.bit_xor");
    lemma_chars_before_at("dbe_raw.bit_or"@, "dbe_raw.bit_xor"@, 12);
    lemma_chunk_2_7(t6);
    let t7 = table_chunk_2_7(t6);
    reveal_strlit("dbe_raw.cast_from_raw_to_nvarchar2");
    reveal_strlit("dbe_raw.cast_from_varchar2_to_raw");
    lemma_chars_before_at("dbe_raw.cast_from_raw_to_nvarchar2"@, "dbe_raw.cast_from_varchar2_to_raw"@, 18);
    lemma_chunk_2_8(t7);
    let t8 = table_chunk_2_8(t7);
    reveal_strlit("dbe_raw.substr");
    reveal_strlit("dbe_raw.translate");
    lemma_chars_before_at("dbe_raw.substr"@, "dbe_raw.translate"@, 8);
    lemma_chunk_2_9(t8);
    let t9 = table_chunk_2_9(t8);
    reveal_strlit("dbe_scheduler.disable");
    reveal_strlit("dbe_scheduler.disable_single");
    lemma_chars_before_at("dbe_scheduler.disable"@, "dbe_scheduler.disable_single"@, 21);
    lemma_chunk_2_10(t9);
    let t10 = table_chunk_2_10(t9);
    reveal_strlit("dbe_scheduler.drop_single_schedule");
    reveal_strlit("dbe_scheduler.enable");
    lemma_chars_before_at("dbe_scheduler.drop_single_schedule"@, "dbe_scheduler.enable"@, 14);
    lemma_chunk_2_11(t10);
    let t11 = table_chunk_2_11(t10);
    reveal_strlit("dbe_scheduler.run_job");
    reveal_strlit("dbe_scheduler.set_attribute");
    lemma_chars_before_at("dbe_scheduler.run_job"@, "dbe_scheduler.set_attribute"@, 14);
    lemma_chunk_2_12(t11);
    let t12 = table_chunk_2_12(t11);
    assert(t12 == table_part_2(s));
}

pub open spec fn table_chunk_3_0(s: Seq<FuncMeta>) -> Seq<FuncMeta> {
    s
        .push(spec_oracle_entry("dbe_session.set_context", FuncCategory::Scalar, FuncDomain::DbeSession, 3, Some(3), false))
        .push(spec_oracle_entry("dbe_sql.bind_variable", FuncCategory::Scalar, FuncDomain::DbeSql, 3, Some(4), false))
        .push(spec_oracle_entry("dbe_sql.close_cursor", FuncCategory::Scalar, FuncDomain::DbeSql, 1, Some(1), false))
        .push(spec_oracle_entry("dbe_sql.column_value", FuncCategory::Scalar, FuncDomain::DbeSql, 3, Some(3), false))
        .push(spec_oracle_entry("dbe_sql.dbe_sql_get_result_char", FuncCategory::Scalar, FuncDomain::DbeSql, 2, Some(2), false))
        .push(spec_oracle_entry("dbe_sql.dbe_sql_get_result_long", FuncCategory::Scalar, FuncDomain::DbeSql, 2, Some(2), false))
        .push(spec_oracle_entry("dbe_sql.dbe_sql_get_result_raw", FuncCategory::Scalar, FuncDomain::DbeSql, 3, Some(3), false))
        .push(spec_oracle_entry("dbe_sql.describe_columns", FuncCategory::Scalar, FuncDomain::DbeSql, 3, Some(3), false))
        .push(spec_oracle_entry("dbe_sql.execute", FuncCategory::Scalar, FuncDomain::DbeSql, 1, Some(2), false))
        .push(spec_oracle_entry("dbe_sql.fetch_rows", FuncCategory::Scalar, FuncDomain::DbeSql, 1, Some(1), false))
}

proof fn lemma_chunk_3_0(s: Seq<FuncMeta>)
    requires
        names_increasing(s),
        s.len() == 0 || chars_before(s.last().name@, "dbe_session.set_context"@),
    ensures
        names_increasing(table_chunk_3_0(s)),
        table_chunk_3_0(s).len() > 0,
        table_chunk_3_0(s).last().name@ == "dbe_sql.fetch_rows"@,
{
    let t = s;
    reveal_strlit("dbe_session.set_context");
    lemma_push_keeps_increasing(t, spec_oracle_entry("dbe_session.set_context", FuncCategory::Scalar, FuncDomain::DbeSession, 3, Some(3), false));
    let t = t.push(spec_oracle_entry("dbe_session.set_context", FuncCategory::Scalar, FuncDomain::DbeSession, 3, Some(3), false));
    reveal_strlit("dbe_sql.bind_variable");
    lemma_push_after(t, "dbe_session.set_context"@, spec_oracle_entry("dbe_sql.bind_variable", FuncCategory::Scalar, FuncDomain::DbeSql, 3, Some(4), false), 5);
    let t = t.push(spec_oracle_entry("dbe_sql.bind_variable", FuncCategory::Scalar, FuncDomain::DbeSql, 3, Some(4), false));
    reveal_strlit("dbe_sql.close_cursor");
    lemma_push_after(t, "dbe_sql.bind_variable"@, spec_oracle_entry("dbe_sql.close_cursor", FuncCategory::Scalar, FuncDomain::DbeSql, 1, Some(1), false), 8);
    let t = t.push(spec_oracle_entry("dbe_sql.close_cursor", FuncCategory::Scalar, FuncDomain::DbeSql, 1, Some(1), false));
    reveal_strlit("dbe_sql.column_value");
    lemma_push_after(t, "dbe_sql.close_cursor"@, spec_oracle_entry("dbe_sql.column_value", FuncCategory::Scalar, FuncDomain::DbeSql, 3, Some(3), false), 9);
    let t = t.push(spec_oracle_entry("dbe_sql.column_value", FuncCategory::Scalar, FuncDomain::DbeSql, 3, Some(3), false));
    reveal_strlit("dbe_sql.dbe_sql_get_result_char");
    lemma_push_after(t, "dbe_sql.column_value"@, spec_oracle_entry("dbe_sql.dbe_sql_get_result_char", FuncCategory::Scalar, FuncDomain::DbeSql, 2, Some(2), false), 8);
    let t = t.push(spec_oracle_entry("dbe_sql.dbe_sql_get_result_char", FuncCategory::Scalar, FuncDomain::DbeSql, 2, Some(2), false));
    reveal_strlit("dbe_sql.dbe_sql_get_result_long");
    lemma_push_after(t, "dbe_sql.dbe_sql_get_result_char"@, spec_oracle_entry("dbe_sql.dbe_sql_get_result_long", FuncCategory::Scalar, FuncDomain::DbeSql, 2, Some(2), false), 27);
    let t = t.push(spec_oracle_entry("dbe_sql.dbe_sql_get_result_long", FuncCategory::Scalar, FuncDomain::DbeSql, 2, Some(2), false));
    reveal_strlit("dbe_sql.dbe_sql_get_result_raw");
    lemma_push_after(t, "dbe_sql.dbe_sql_get_result_long"@, spec_oracle_entry("dbe_sql.dbe_sql_get_result_raw", FuncCategory::Scalar, FuncDomain::DbeSql, 3, Some(3), false), 27);
    let t = t.push(spec_oracle_entry("dbe_sql.dbe_sql_get_result_raw", FuncCategory::Scalar, FuncDomain::DbeSql, 3, Some(3), false));
    reveal_strlit("dbe_sql.describe_columns");
    lemma_push_after(t, "dbe_sql.dbe_sql_get_result_raw"@, spec_oracle_entry("dbe_sql.describe_columns", FuncCategory::Scalar, FuncDomain::DbeSql, 3, Some(3), false), 9);
    let t = t.push(spec_oracle_entry("dbe_sql.describe_columns", FuncCategory::Scalar, FuncDomain::DbeSql, 3, Some(3), false));
    reveal_strlit("dbe_sql.execute");
    lemma_push_after(t, "dbe_sql.describe_columns"@, spec_oracle_entry("dbe_sql.execute", FuncCategory::Scalar, FuncDomain::DbeSql, 1, Some(2), false), 8);
    let t = t.push(spec_oracle_entry("dbe_sql.execute", FuncCategory::Scalar, FuncDomain::DbeSql, 1, Some(2), false));
    reveal_strlit("dbe_sql.fetch_rows");
    lemma_push_after(t, "dbe_sql.execute"@, spec_oracle_entry("dbe_sql.fetch_rows", FuncCategory::Scalar, FuncDomain::DbeSql, 1, Some(1), false), 8);
    let t = t.push(spec_oracle_entry("dbe_sql.fetch_rows", FuncCategory::Scalar, FuncDomain::DbeSql, 1, Some(1), false));
    assert(t == table_chunk_3_0(s));
}

pub open spec fn table_chunk_3_1(s: Seq<FuncMeta>) -> Seq<FuncMeta> {
    s
        .push(spec_oracle_entry("dbe_sql.get_array_result_char", FuncCategory::Scalar, FuncDomain::DbeSql, 3, Some(3), false))
        .push(spec_oracle_entry("dbe_sql.get_array_result_int", FuncCategory::Scalar, FuncDomain::DbeSql, 3, Some(3), false))
        .push(spec_oracle_entry("dbe_sql.get_array_result_raw", FuncCategory::Scalar, FuncDomain::DbeSql, 3, Some(3), false))
        .push(spec_oracle_entry("dbe_sql.get_array_result_text", FuncCategory::Scalar, FuncDomain::DbeSql, 3, Some(3), false))
        .push(spec_oracle_entry("dbe_sql.get_result", FuncCategory::Scalar, FuncDomain::DbeSql, 3, Some(3), false))
        .push(spec_oracle_entry("dbe_sql.get_result_bytea", FuncCategory::Scalar, FuncDomain::DbeSql, 2, Some(2), false))
        .push(spec_oracle_entry("dbe_sql.get_result_char", FuncCategory::Scalar, FuncDomain::DbeSql, 3, Some(5), false))
        .push(spec_oracle_entry("dbe_sql.get_result_int", FuncCategory::Scalar, FuncDomain::DbeSql, 2, Some(2), false))
        .push(spec_oracle_entry("dbe_sql.get_result_long", FuncCategory::Scalar, FuncDomain::DbeSql, 6, Some(6), false))
        .push(spec_oracle_entry("dbe_sql.get_result_raw", FuncCategory::Scalar, FuncDomain::DbeSql, 3, Some(5), false))
}

proof fn lemma_chunk_3_1(s: Seq<FuncMeta>)
    requires
        names_increasing(s),
        s.len() == 0 || chars_before(s.last().name@, "dbe_sql.get_array_result_char"@),
    ensures
        names_increasing(table_chunk_3_1(s)),
        table_chunk_3_1(s).len() > 0,
        table_chunk_3_1(s).last().name@ == "dbe_sql.get_result_raw"@,
{
    let t = s;
    reveal_strlit("dbe_sql.get_array_result_char");
    lemma_push_keeps_increasing(t, spec_oracle_entry("dbe_sql.get_array_result_char", FuncCategory::Scalar, FuncDomain::DbeSql, 3, Some(3), false));
    let t = t.push(spec_oracle_entry("dbe_sql.get_array_result_char", FuncCategory::Scalar, FuncDomain::DbeSql, 3, Some(3), false));
    reveal_strlit("dbe_sql.get_array_result_int");
    lemma_push_after(t, "dbe_sql.get_array_result_char"@, spec_oracle_entry("dbe_sql.get_array_result_int", FuncCategory::Scalar, FuncDomain::DbeSql, 3, Some(3), false), 25);
    let t = t.push(spec_oracle_entry("dbe_sql.get_array_result_int", FuncCategory::Scalar, FuncDomain::DbeSql, 3, Some(3), false));
    reveal_strlit("dbe_sql.get_array_result_raw");
    lemma_push_after(t, "dbe_sql.get_array_result_int"@, spec_oracle_entry("dbe_sql.get_array_result_raw", FuncCategory::Scalar, FuncDomain::DbeSql, 3, Some(3), false), 25);
    let t = t.push(spec_oracle_entry("dbe_sql.get_array_result_raw", FuncCategory::Scalar, FuncDomain::DbeSql, 3, Some(3), false));
    reveal_strlit("dbe_sql.get_array_result_text");
    lemma_push_after(t, "dbe_sql.get_array_result_raw"@, spec_oracle_entry("dbe_sql.get_array_result_text", FuncCategory::Scalar, FuncDomain::DbeSql, 3, Some(3), false), 25);
    let t = t.push(spec_oracle_entry("dbe_sql.get_array_result_text", FuncCategory::Scalar, FuncDomain::DbeSql, 3, Some(3), false));
    reveal_strlit("dbe_sql.get_result");
    lemma_push_after(t, "dbe_sql.get_array_result_text"@, spec_oracle_entry("dbe_sql.get_result", FuncCategory::Scalar, FuncDomain::DbeSql, 3, Some(3), false), 12);
    let t = t.push(spec_oracle_entry("dbe_sql.get_result", FuncCategory::Scalar, FuncDomain::DbeSql, 3, Some(3), false));
    reveal_strlit("dbe_sql.get_result_bytea");
    lemma_push_after(t, "dbe_sql.get_result"@, spec_oracle_entry("dbe_sql.get_result_bytea", FuncCategory::Scalar, FuncDomain::DbeSql, 2, Some(2), false), 18);
    let t = t.push(spec_oracle_entry("dbe_sql.get_result_bytea", FuncCategory::Scalar, FuncDomain::DbeSql, 2, Some(2), false));
    reveal_strlit("dbe_sql.get_result_char");
    lemma_push_after(t, "dbe_sql.get_result_bytea"@, spec_oracle_entry("dbe_sql.get_result_char", FuncCategory::Scalar, FuncDomain::DbeSql, 3, Some(5), false), 19);
    let t = t.push(spec_oracle_entry("dbe_sql.get_result_char", FuncCategory::Scalar, FuncDomain::DbeSql, 3, Some(5), false));
    reveal_strlit("dbe_sql.get_result_int");
    lemma_push_after(t, "dbe_sql.get_result_char"@, spec_oracle_entry("dbe_sql.get_result_int", FuncCategory::Scalar, FuncDomain::DbeSql, 2, Some(2), false), 19);
    let t = t.push(spec_oracle_entry("dbe_sql.get_result_int", FuncCategory::Scalar, FuncDomain::DbeSql, 2, Some(2), false));
    reveal_strlit("dbe_sql.get_result_long");
    lemma_push_after(t, "dbe_sql.get_result_int"@, spec_oracle_entry("dbe_sql.get_result_long", FuncCategory::Scalar, FuncDomain::DbeSql, 6, Some(6), false), 19);
    let t = t.push(spec_oracle_entry("dbe_sql.get_result_long", FuncCategory::Scalar, FuncDomain::DbeSql, 6, Some(6), false));
    reveal_strlit("dbe_sql.get_result_raw");
    lemma_push_after(t, "dbe_sql.get_result_long"@, spec_oracle_entry("dbe_sql.get_result_raw", FuncCategory::Scalar, FuncDomain::DbeSql, 3, Some(5), false), 19);
    let t = t.push(spec_oracle_entry("dbe_sql.get_result_raw", FuncCategory::Scalar, FuncDomain::DbeSql, 3, Some(5), false));
    assert(t == table_chunk_3_1(s));
}

pub open spec fn table_chunk_3_2(s: Seq<FuncMeta>) -> Seq<FuncMeta> {
    s
        .push(spec_oracle_entry("dbe_sql.get_result_text", FuncCategory::Scalar, FuncDomain::DbeSql, 2, Some(2), false))
        .push(spec_oracle_entry("dbe_sql.get_result_unknown", FuncCategory::Scalar, FuncDomain::DbeSql, 3, Some(3), false))
        .push(spec_oracle_entry("dbe_sql.get_results", FuncCategory::Scalar, FuncDomain::DbeSql, 3, Some(3), false))
        .push(spec_oracle_entry("dbe_sql.get_results_bytea", FuncCategory::Scalar, FuncDomain::DbeSql, 3, Some(3), false))
        .push(spec_oracle_entry("dbe_sql.get_results_char", FuncCategory::Scalar, FuncDomain::DbeSql, 3, Some(3), false))
        .push(spec_oracle_entry("dbe_sql.get_results_int", FuncCategory::Scalar, FuncDomain::DbeSql, 3, Some(3), false))
        .push(spec_oracle_entry("dbe_sql.get_results_raw", FuncCategory::Scalar, FuncDomain::DbeSql, 3, Some(3), false))
        .push(spec_oracle_entry("dbe_sql.get_results_text", FuncCategory::Scalar, FuncDomain::DbeSql, 3, Some(3), false))
        .push(spec_oracle_entry("dbe_sql.get_variable_result", FuncCategory::Scalar, FuncDomain::DbeSql, 3, Some(3), false))
        .push(spec_oracle_entry("dbe_sql.get_variable_result_char", FuncCategory::Scalar, FuncDomain::DbeSql, 2, Some(2), false))
}

proof fn lemma_chunk_3_2(s: Seq<FuncMeta>)
    requires
        names_increasing(s),
        s.len() == 0 || chars_before(s.last().name@, "dbe_sql.get_result_text"@),
    ensures
        names_increasing(table_chunk_3_2(s)),
        table_chunk_3_2(s).len() > 0,
        table_chunk_3_2(s).last().name@ == "dbe_sql.get_variable_result_char"@,
{
    let t = s;
    reveal_strlit("dbe_sql.get_result_text");
    lemma_push_keeps_increasing(t, spec_oracle_entry("dbe_sql.get_result_text", FuncCategory::Scalar, FuncDomain::DbeSql, 2, Some(2), false));
    let t = t.push(spec_oracle_entry("dbe_sql.get_result_text", FuncCategory::Scalar, FuncDomain::DbeSql, 2, Some(2), false));
    reveal_strlit("dbe_sql.get_result_unknown");
    lemma_push_after(t, "dbe_sql.get_result_text"@, spec_oracle_entry("dbe_sql.get_result_unknown", FuncCategory::Scalar, FuncDomain::DbeSql, 3, Some(3), false), 19);
    let t = t.push(spec_oracle_entry("dbe_sql.get_result_unknown", FuncCategory::Scalar, FuncDomain::DbeSql, 3, Some(3), false));
    reveal_strlit("dbe_sql.get_results");
    lemma_push_after(t, "dbe_sql.get_result_unknown"@, spec_oracle_entry("dbe_sql.get_results", FuncCategory::Scalar, FuncDomain::DbeSql, 3, Some(3), false), 18);
    let t = t.push(spec_oracle_entry("dbe_sql.get_results", FuncCategory::Scalar, FuncDomain::DbeSql, 3, Some(3), false));
    reveal_strlit("dbe_sql.get_results_bytea");
    lemma_push_after(t, "dbe_sql.get_results"@, spec_oracle_entry("dbe_sql.get_results_bytea", FuncCategory::Scalar, FuncDomain::DbeSql, 3, Some(3), false), 19);
    let t = t.push(spec_oracle_entry("dbe_sql.get_results_bytea", FuncCategory::Scalar, FuncDomain::DbeSql, 3, Some(3), false));
    reveal_strlit("dbe_sql.get_results_char");
    lemma_push_after(t, "dbe_sql.get_results_bytea"@, spec_oracle_entry("dbe_sql.get_results_char", FuncCategory::Scalar, FuncDomain::DbeSql, 3, Some(3), false), 20);
    let t = t.push(spec_oracle_entry("dbe_sql.get_results_char", FuncCategory::Scalar, FuncDomain::DbeSql, 3, Some(3), false));
    reveal_strlit("dbe_sql.get_results_int");
    lemma_push_after(t, "dbe_sql.get_results_char"@, spec_oracle_entry("dbe_sql.get_results_int", FuncCategory::Scalar, FuncDomain::DbeSql, 3, Some(3), false), 20);
    let t = t.push(spec_oracle_entry("dbe_sql.get_results_int", FuncCategory::Scalar, FuncDomain::DbeSql, 3, Some(3), false));
    reveal_strlit("dbe_sql.get_results_raw");
    lemma_push_after(t, "dbe_sql.get_results_int"@, spec_oracle_entry("dbe_sql.get_results_raw", FuncCategory::Scalar, FuncDomain::DbeSql, 3, Some(3), false), 20);
    let t = t.push(spec_oracle_entry("dbe_sql.get_results_raw", FuncCategory::Scalar, FuncDomain::DbeSql, 3, Some(3), false));
    reveal_strlit("dbe_sql.get_results_text");
    lemma_push_after(t, "dbe_sql.get_results_raw"@, spec_oracle_entry("dbe_sql.get_results_text", FuncCategory::Scalar, FuncDomain::DbeSql, 3, Some(3), false), 20);
    let t = t.push(spec_oracle_entry("dbe_sql.get_results_text", FuncCategory::Scalar, FuncDomain::DbeSql, 3, Some(3), false));
    reveal_strlit("dbe_sql.get_variable_result");
    lemma_push_after(t, "dbe_sql.get_results_text"@, spec_oracle_entry("dbe_sql.get_variable_result", FuncCategory::Scalar, FuncDomain::DbeSql, 3, Some(3), false), 12);
    let t = t.push(spec_oracle_entry("dbe_sql.get_variable_result", FuncCategory::Scalar, FuncDomain::DbeSql, 3, Some(3), false));
    reveal_strlit("dbe_sql.get_variable_result_char");
    lemma_push_after(t, "dbe_sql.get_variable_result"@, spec_oracle_entry("dbe_sql.get_variable_result_char", FuncCategory::Scalar, FuncDomain::DbeSql, 2, Some(2), false), 27);
    let t = t.push(spec_oracle_entry("dbe_sql.get_variable_result_char", FuncCategory::Scalar, FuncDomain::DbeSql, 2, Some(2), false));
    assert(t == table_chunk_3_2(s));
}

pub open spec fn table_chunk_3_3(s: Seq<FuncMeta>) -> Seq<FuncMeta> {
    s
        .push(spec_oracle_entry("dbe_sql.get_variable_result_int", FuncCategory::Scalar, FuncDomain::DbeSql, 3, Some(3), false))
        .push(spec_oracle_entry("dbe_sql.get_variable_result_raw", FuncCategory::Scalar, FuncDomain::DbeSql, 3, Some(3), false))
        .push(spec_oracle_entry("dbe_sql.get_variable_result_text", FuncCategory::Scalar, FuncDomain::DbeSql, 2, Some(2), false))
        .push(spec_oracle_entry("dbe_sql.is_active", FuncCategory::Scalar, FuncDomain::DbeSql, 1, Some(1), false))
        .push(spec_oracle_entry("dbe_sql.last_row_count", FuncCategory::Scalar, FuncDomain::DbeSql, 0, Some(0), false))
        .push(spec_oracle_entry("dbe_sql.next_row", FuncCategory::Scalar, FuncDomain::DbeSql, 1, Some(1), false))
        .push(spec_oracle_entry("dbe_sql.open_cursor", FuncCategory::Scalar, FuncDomain::DbeSql, 0, Some(0), false))
        .push(spec_oracle_entry("dbe_sql.register_context", FuncCategory::Scalar, FuncDomain::DbeSql, 0, Some(0), false))
        .push(spec_oracle_entry("dbe_sql.register_variable", FuncCategory::Scalar, FuncDomain::DbeSql, 3, Some(3), false))
        .push(spec_oracle_entry("dbe_sql.run_and_next", FuncCategory::Scalar, FuncDomain::DbeSql, 1, Some(1), false))
}

proof fn lemma_chunk_3_3(s: Seq<FuncMeta>)
    requires
        names_increasing(s),
        s.len() == 0 || chars_before(s.last().name@, "dbe_sql.get_variable_result_int"@),
    ensures
        names_increasing(table_chunk_3_3(s)),
        table_chunk_3_3(s).len() > 0,
        table_chunk_3_3(s).last().name@ == "dbe_sql.run_and_next"@,
{
    let t = s;
    reveal_strlit("dbe_sql.get_variable_result_int");
    lemma_push_keeps_increasing(t, spec_oracle_entry("dbe_sql.get_variable_result_int", FuncCategory::Scalar, FuncDomain::DbeSql, 3, Some(3), false));
    let t = t.push(spec_oracle_entry("dbe_sql.get_variable_result_int", FuncCategory::Scalar, FuncDomain::DbeSql, 3, Some(3), false));
    reveal_strlit("dbe_sql.get_variable_result_raw");
    lemma_push_after(t, "dbe_sql.get_variable_result_int"@, spec_oracle_entry("dbe_sql.get_variable_result_raw", FuncCategory::Scalar, FuncDomain::DbeSql, 3, Some(3), false), 28);
    let t = t.push(spec_oracle_entry("dbe_sql.get_variable_result_raw", FuncCategory::Scalar, FuncDomain::DbeSql, 3, Some(3), false));
    reveal_strlit("dbe_sql.get_variable_result_text");
    lemma_push_after(t, "dbe_sql.get_variable_result_raw"@, spec_oracle_entry("dbe_sql.get_variable_result_text", FuncCategory::Scalar, FuncDomain::DbeSql, 2, Some(2), false), 28);
    let t = t.push(spec_oracle_entry("dbe_sql.get_variable_result_text", FuncCategory::Scalar, FuncDomain::DbeSql, 2, Some(2), false));
    reveal_strlit("dbe_sql.is_active");
    lemma_push_after(t, "dbe_sql.get_variable_result_text"@, spec_oracle_entry("dbe_sql.is_active", FuncCategory::Scalar, FuncDomain::DbeSql, 1, Some(1), false), 8);
    let t = t.push(spec_oracle_entry("dbe_sql.is_active", FuncCategory::Scalar, FuncDomain::DbeSql, 1, Some(1), false));
    reveal_strlit("dbe_sql.last_row_count");
    lemma_push_after(t, "dbe_sql.is_active"@, spec_oracle_entry("dbe_sql.last_row_count", FuncCategory::Scalar, FuncDomain::DbeSql, 0, Some(0), false), 8);
    let t = t.push(spec_oracle_entry("dbe_sql.last_row_count", FuncCategory::Scalar, FuncDomain::DbeSql, 0, Some(0), false));
    reveal_strlit("dbe_sql.next_row");
    lemma_push_after(t, "dbe_sql.last_row_count"@, spec_oracle_entry("dbe_sql.next_row", FuncCategory::Scalar, FuncDomain::DbeSql, 1, Some(1), false), 8);
    let t = t.push(spec_oracle_entry("dbe_sql.next_row", FuncCategory::Scalar, FuncDomain::DbeSql, 1, Some(1), false));
    reveal_strlit("dbe_sql.open_cursor");
    lemma_push_after(t, "dbe_sql.next_row"@, spec_oracle_entry("dbe_sql.open_cursor", FuncCategory::Scalar, FuncDomain::DbeSql, 0, Some(0), false), 8);
    let t = t.push(spec_oracle_entry("dbe_sql.open_cursor", FuncCategory::Scalar, FuncDomain::DbeSql, 0, Some(0), false));
    reveal_strlit("dbe_sql.register_context");
    lemma_push_after(t, "dbe_sql.open_cursor"@, spec_oracle_entry("dbe_sql.register_context", FuncCategory::Scalar, FuncDomain::DbeSql, 0, Some(0), false), 8);
    let t = t.push(spec_oracle_entry("dbe_sql.register_context", FuncCategory::Scalar, FuncDomain::DbeSql, 0, Some(0), false));
    reveal_strlit("dbe_sql.register_variable");
    lemma_push_after(t, "dbe_sql.register_context"@, spec_oracle_entry("dbe_sql.register_variable", FuncCategory::Scalar, FuncDomain::DbeSql, 3, Some(3), false), 17);
    let t = t.push(spec_oracle_entry("dbe_sql.register_variable", FuncCategory::Scalar, FuncDomain::DbeSql, 3, Some(3), false));
    reveal_strlit("dbe_sql.run_and_next");
    lemma_push_after(t, "dbe_sql.register_variable"@, spec_oracle_entry("dbe_sql.run_and_next", FuncCategory::Scalar, FuncDomain::DbeSql, 1, Some(1), false), 9);
    let t = t.push(spec_oracle_entry("dbe_sql.run_and_next", FuncCategory::Scalar, FuncDomain::DbeSql, 1, Some(1), false));
    assert(t == table_chunk_3_3(s));
}

pub open spec fn table_chunk_3_4(s: Seq<FuncMeta>) -> Seq<FuncMeta> {
    s
        .push(spec_oracle_entry("dbe_sql.set_result_type", FuncCategory::Scalar, FuncDomain::DbeSql, 3, Some(4), false))
        .push(spec_oracle_entry("dbe_sql.set_result_type_bytea", FuncCategory::Scalar, FuncDomain::DbeSql, 4, Some(4), false))
        .push(spec_oracle_entry("dbe_sql.set_result_type_byteas", FuncCategory::Scalar, FuncDomain::DbeSql, 6, Some(6), false))
        .push(spec_oracle_entry("dbe_sql.set_result_type_char", FuncCategory::Scalar, FuncDomain::DbeSql, 4, Some(4), false))
        .push(spec_oracle_entry("dbe_sql.set_result_type_chars", FuncCategory::Scalar, FuncDomain::DbeSql, 6, Some(6), false))
        .push(spec_oracle_entry("dbe_sql.set_result_type_int", FuncCategory::Scalar, FuncDomain::DbeSql, 2, Some(2), false))
        .push(spec_oracle_entry("dbe_sql.set_result_type_ints", FuncCategory::Scalar, FuncDomain::DbeSql, 5, Some(5), false))
        .push(spec_oracle_entry("dbe_sql.set_result_type_long", FuncCategory::Scalar, FuncDomain::DbeSql, 2, Some(2), false))
        .push(spec_oracle_entry("dbe_sql.set_result_type_raw", FuncCategory::Scalar, FuncDomain::DbeSql, 4, Some(4), false))
        .push(spec_oracle_entry("dbe_sql.set_result_type_raws", FuncCategory::Scalar, FuncDomain::DbeSql, 6, Some(6), false))
}

proof fn lemma_chunk_3_4(s: Seq<FuncMeta>)
    requires
        names_increasing(s),
        s.len() == 0 || chars_before(s.last().name@, "dbe_sql.set_result_type"@),
    ensures
        names_increasing(table_chunk_3_4(s)),
        table_chunk_3_4(s).len() > 0,
        table_chunk_3_4(s).last().name@ == "dbe_sql.set_result_type_raws"@,
{
    let t = s;
    reveal_strlit("dbe_sql.set_result_type");
    lemma_push_keeps_increasing(t, spec_oracle_entry("dbe_sql.set_result_type", FuncCategory::Scalar, FuncDomain::DbeSql, 3, Some(4), false));
    let t = t.push(spec_oracle_entry("dbe_sql.set_result_type", FuncCategory::Scalar, FuncDomain::DbeSql, 3, Some(4), false));
    reveal_strlit("dbe_sql.set_result_type_bytea");
    lemma_push_after(t, "dbe_sql.set_result_type"@, spec_oracle_entry("dbe_sql.set_result_type_bytea", FuncCategory::Scalar, FuncDomain::DbeSql, 4, Some(4), false), 23);
    let t = t.push(spec_oracle_entry("dbe_sql.set_result_type_bytea", FuncCategory::Scalar, FuncDomain::DbeSql, 4, Some(4), false));
    reveal_strlit("dbe_sql.set_result_type_byteas");
    lemma_push_after(t, "dbe_sql.set_result_type_bytea"@, spec_oracle_entry("dbe_sql.set_result_type_byteas", FuncCategory::Scalar, FuncDomain::DbeSql, 6, Some(6), false), 29);
    let t = t.push(spec_oracle_entry("dbe_sql.set_result_type_byteas", FuncCategory::Scalar, FuncDomain::DbeSql, 6, Some(6), false));
    reveal_strlit("dbe_sql.set_result_type_char");
    lemma_push_after(t, "dbe_sql.set_result_type_byteas"@, spec_oracle_entry("dbe_sql.set_result_type_char", FuncCategory::Scalar, FuncDomain::DbeSql, 4, Some(4), false), 24);
    let t = t.push(spec_oracle_entry("dbe_sql.set_result_type_char", FuncCategory::Scalar, FuncDomain::DbeSql, 4, Some(4), false));
    reveal_strlit("dbe_sql.set_result_type_chars");
    lemma_push_after(t, "dbe_sql.set_result_type_char"@, spec_oracle_entry("dbe_sql.set_result_type_chars", FuncCategory::Scalar, FuncDomain::DbeSql, 6, Some(6), false), 28);
    let t = t.push(spec_oracle_entry("dbe_sql.set_result_type_chars", FuncCategory::Scalar, FuncDomain::DbeSql, 6, Some(6), false));
    reveal_strlit("dbe_sql.set_result_type_int");
    lemma_push_after(t, "dbe_sql.set_result_type_chars"@, spec_oracle_entry("dbe_sql.set_result_type_int", FuncCategory::Scalar, FuncDomain::DbeSql, 2, Some(2), false), 24);
    let t = t.push(spec_oracle_entry("dbe_sql.set_result_type_int", FuncCategory::Scalar, FuncDomain::DbeSql, 2, Some(2), false));
    reveal_strlit("dbe_sql.set_result_type_ints");
    lemma_push_after(t, "dbe_sql.set_result_type_int"@, spec_oracle_entry("dbe_sql.set_result_type_ints", FuncCategory::Scalar, FuncDomain::DbeSql, 5, Some(5), false), 27);
    let t = t.push(spec_oracle_entry("dbe_sql.set_result_type_ints", FuncCategory::Scalar, FuncDomain::DbeSql, 5, Some(5), false));
    reveal_strlit("dbe_sql.set_result_type_long");
    lemma_push_after(t, "dbe_sql.set_result_type_ints"@, spec_oracle_entry("dbe_sql.set_result_type_long", FuncCategory::Scalar, FuncDomain::DbeSql, 2, Some(2), false), 24);
    let t = t.push(spec_oracle_entry("dbe_sql.set_result_type_long", FuncCategory::Scalar, FuncDomain::DbeSql, 2, Some(2), false));
    reveal_strlit("dbe_sql.set_result_type_raw");
    lemma_push_after(t, "dbe_sql.set_result_type_long"@, spec_oracle_entry("dbe_sql.set_result_type_raw", FuncCategory::Scalar, FuncDomain::DbeSql, 4, Some(4), false), 24);
    let t = t.push(spec_oracle_entry("dbe_sql.set_result_type_raw", FuncCategory::Scalar, FuncDomain::DbeSql, 4, Some(4), false));
    reveal_strlit("dbe_sql.set_result_type_raws");
    lemma_push_after(t, "dbe_sql.set_result_type_raw"@, spec_oracle_entry("dbe_sql.set_result_type_raws", FuncCategory::Scalar, FuncDomain::DbeSql, 6, Some(6), false), 27);
    let t = t.push(spec_oracle_entry("dbe_sql.set_result_type_raws", FuncCategory::Scalar, FuncDomain::DbeSql, 6, Some(6), false));
    assert(t == table_chunk_3_4(s));
}

pub open spec fn table_chunk_3_5(s: Seq<FuncMeta>) -> Seq<FuncMeta> {
    s
        .push(spec_oracle_entry("dbe_sql.set_result_type_text", FuncCategory::Scalar, FuncDomain::DbeSql, 3, Some(3), false))
        .push(spec_oracle_entry("dbe_sql.set_result_type_texts", FuncCategory::Scalar, FuncDomain::DbeSql, 6, Some(6), false))
        .push(spec_oracle_entry("dbe_sql.set_result_type_unknown", FuncCategory::Scalar, FuncDomain::DbeSql, 3, Some(3), false))
        .push(spec_oracle_entry("dbe_sql.set_results_type", FuncCategory::Scalar, FuncDomain::DbeSql, 5, Some(6), false))
        .push(spec_oracle_entry("dbe_sql.sql_bind_array", FuncCategory::Scalar, FuncDomain::DbeSql, 3, Some(5), false))
        .push(spec_oracle_entry("dbe_sql.sql_bind_variable", FuncCategory::Scalar, FuncDomain::DbeSql, 3, Some(4), false))
        .push(spec_oracle_entry("dbe_sql.sql_describe_columns", FuncCategory::Scalar, FuncDomain::DbeSql, 3, Some(3), false))
        .push(spec_oracle_entry("dbe_sql.sql_get_tableof_values_c", FuncCategory::Scalar, FuncDomain::DbeSql, 4, Some(4), false))
        .push(spec_oracle_entry("dbe_sql.sql_get_values_c", FuncCategory::Scalar, FuncDomain::DbeSql, 4, Some(4), false))
        .push(spec_oracle_entry("dbe_sql.sql_run", FuncCategory::Scalar, FuncDomain::DbeSql, 1, Some(1), false))
}

proof fn lemma_chunk_3_5(s: Seq<FuncMeta>)
    requires
        names_increasing(s),
        s.len() == 0 || chars_before(s.last().name@, "dbe_sql.set_result_type_text"@),
    ensures
        names_increasing(table_chunk_3_5(s)),
        table_chunk_3_5(s).len() > 0,
        table_chunk_3_5(s).last().name@ == "dbe_sql.sql_run"@,
{
    let t = s;
    reveal_strlit("dbe_sql.set_result_type_text");
    lemma_push_keeps_increasing(t, spec_oracle_entry("dbe_sql.set_result_type_text", FuncCategory::Scalar, FuncDomain::DbeSql, 3, Some(3), false));
    let t = t.push(spec_oracle_entry("dbe_sql.set_result_type_text", FuncCategory::Scalar, FuncDomain::DbeSql, 3, Some(3), false));
    reveal_strlit("dbe_sql.set_result_type_texts");
    lemma_push_after(t, "dbe_sql.set_result_type_text"@, spec_oracle_entry("dbe_sql.set_result_type_texts", FuncCategory::Scalar, FuncDomain::DbeSql, 6, Some(6), false), 28);
    let t = t.push(spec_oracle_entry("dbe_sql.set_result_type_texts", FuncCategory::Scalar, FuncDomain::DbeSql, 6, Some(6), false));
    reveal_strlit("dbe_sql.set_result_type_unknown");
    lemma_push_after(t, "dbe_sql.set_result_type_texts"@, spec_oracle_entry("dbe_sql.set_result_type_unknown", FuncCategory::Scalar, FuncDomain::DbeSql, 3, Some(3), false), 24);
    let t = t.push(spec_oracle_entry("dbe_sql.set_result_type_unknown", FuncCategory::Scalar, FuncDomain::DbeSql, 3, Some(3), false));
    reveal_strlit("dbe_sql.set_results_type");
    lemma_push_after(t, "dbe_sql.set_result_type_unknown"@, spec_oracle_entry("dbe_sql.set_results_type", FuncCategory::Scalar, FuncDomain::DbeSql, 5, Some(6), false), 18);
    let t = t.push(spec_oracle_entry("dbe_sql.set_results_type", FuncCategory::Scalar, FuncDomain::DbeSql, 5, Some(6), false));
    reveal_strlit("dbe_sql.sql_bind_array");
    lemma_push_after(t, "dbe_sql.set_results_type"@, spec_oracle_entry("dbe_sql.sql_bind_array", FuncCategory::Scalar, FuncDomain::DbeSql, 3, Some(5), false), 9);
    let t = t.push(spec_oracle_entry("dbe_sql.sql_bind_array", FuncCategory::Scalar, FuncDomain::DbeSql, 3, Some(5), false));
    reveal_strlit("dbe_sql.sql_bind_variable");
    lemma_push_after(t, "dbe_sql.sql_bind_array"@, spec_oracle_entry("dbe_sql.sql_bind_variable", FuncCategory::Scalar, FuncDomain::DbeSql, 3, Some(4), false), 17);
    let t = t.push(spec_oracle_entry("dbe_sql.sql_bind_variable", FuncCategory::Scalar, FuncDomain::DbeSql, 3, Some(4), false));
    reveal_strlit("dbe_sql.sql_describe_columns");
    lemma_push_after(t, "dbe_sql.sql_bind_variable"@, spec_oracle_entry("dbe_sql.sql_describe_columns", FuncCategory::Scalar, FuncDomain::DbeSql, 3, Some(3), false), 12);
    let t = t.push(spec_oracle_entry("dbe_sql.sql_describe_columns", FuncCategory::Scalar, FuncDomain::DbeSql, 3, Some(3), false));
    reveal_strlit("dbe_sql.sql_get_tableof_values_c");
    lemma_push_after(t, "dbe_sql.sql_describe_columns"@, spec_oracle_entry("dbe_sql.sql_get_tableof_values_c", FuncCategory::Scalar, FuncDomain::DbeSql, 4, Some(4), false), 12);
    let t = t.push(spec_oracle_entry("dbe_sql.sql_get_tableof_values_c", FuncCategory::Scalar, FuncDomain::DbeSql, 4, Some(4), false));
    reveal_strlit("dbe_sql.sql_get_values_c");
    lemma_push_after(t, "dbe_sql.sql_get_tableof_values_c"@, spec_oracle_entry("dbe_sql.sql_get_values_c", FuncCategory::Scalar, FuncDomain::DbeSql, 4, Some(4), false), 16);
    let t = t.push(spec_oracle_entry("dbe_sql.sql_get_values_c", FuncCategory::Scalar, FuncDomain::DbeSql, 4, Some(4), false));
    reveal_strlit("dbe_sql.sql_run");
    lemma_push_after(t, "dbe_sql.sql_get_values_c"@, spec_oracle_entry("dbe_sql.sql_run", FuncCategory::Scalar, FuncDomain::DbeSql, 1, Some(1), false), 12);
    let t = t.push(spec_oracle_entry("dbe_sql.sql_run", FuncCategory::Scalar, FuncDomain::DbeSql, 1, Some(1), false));
    assert(t == table_chunk_3_5(s));
}

pub open spec fn table_chunk_3_6(s: Seq<FuncMeta>) -> Seq<FuncMeta> {
    s
        .push(spec_oracle_entry("dbe_sql.sql_set_results_type_c", FuncCategory::Scalar, FuncDomain::DbeSql, 7, Some(7), false))
        .push(spec_oracle_entry("dbe_sql.sql_set_sql", FuncCategory::Scalar, FuncDomain::DbeSql, 3, Some(3), false))
        .push(spec_oracle_entry("dbe_sql.sql_set_tableof_results_type_c", FuncCategory::Scalar, FuncDomain::DbeSql, 7, Some(7), false))
        .push(spec_oracle_entry("dbe_sql.sql_unregister_context", FuncCategory::Scalar, FuncDomain::DbeSql, 1, Some(1), false))
        .push(spec_oracle_entry("dbe_sql_util.create_abort_sql_patch", FuncCategory::Scalar, FuncDomain::DbeSqlUtil, 1, Some(3), false))
        .push(spec_oracle_entry("dbe_sql_util.create_hint_sql_patch", FuncCategory::Scalar, FuncDomain::DbeSqlUtil, 1, Some(3), false))
        .push(spec_oracle_entry("dbe_sql_util.disable_sql_patch", FuncCategory::Scalar, FuncDomain::DbeSqlUtil, 1, Some(1), false))
        .push(spec_oracle_entry("dbe_sql_util.drop_sql_patch", FuncCategory::Scalar, FuncDomain::DbeSqlUtil, 1, Some(1), false))
        .push(spec_oracle_entry("dbe_sql_util.enable_sql_patch", FuncCategory::Scalar, FuncDomain::DbeSqlUtil, 1, Some(1), false))
        .push(spec_oracle_entry("dbe_sql_util.show_sql_patch", FuncCategory::Scalar, FuncDomain::DbeSqlUtil, 0, Some(1), false))
}

proof fn lemma_chunk_3_6(s: Seq<FuncMeta>)
    requires
        names_increasing(s),
        s.len() == 0 || chars_before(s.last().name@, "dbe_sql.sql_set_results_type_c"@),
    ensures
        names_increasing(table_chunk_3_6(s)),
        table_chunk_3_6(s).len() > 0,
        table_chunk_3_6(s).last().name@ == "dbe_sql_util.show_sql_patch"@,
{
    let t = s;
    reveal_strlit("dbe_sql.sql_set_results_type_c");
    lemma_push_keeps_increasing(t, spec_oracle_entry("dbe_sql.sql_set_results_type_c", FuncCategory::Scalar, FuncDomain::DbeSql, 7, Some(7), false));
    let t = t.push(spec_oracle_entry("dbe_sql.sql_set_results_type_c", FuncCategory::Scalar, FuncDomain::DbeSql, 7, Some(7), false));
    reveal_strlit("dbe_sql.sql_set_sql");
    lemma_push_after(t, "dbe_sql.sql_set_results_type_c"@, spec_oracle_entry("dbe_sql.sql_set_sql", FuncCategory::Scalar, FuncDomain::DbeSql, 3, Some(3), false), 16);
    let t = t.push(spec_oracle_entry("dbe_sql.sql_set_sql", FuncCategory::Scalar, FuncDomain::DbeSql, 3, Some(3), false));
    reveal_strlit("dbe_sql.sql_set_tableof_results_type_c");
    lemma_push_after(t, "dbe_sql.sql_set_sql"@, spec_oracle_entry("dbe_sql.sql_set_tableof_results_type_c", FuncCategory::Scalar, FuncDomain::DbeSql, 7, Some(7), false), 16);
    let t = t.push(spec_oracle_entry("dbe_sql.sql_set_tableof_results_type_c", FuncCategory::Scalar, FuncDomain::DbeSql, 7, Some(7), false));
    reveal_strlit("dbe_sql.sql_unregister_context");
    lemma_push_after(t, "dbe_sql.sql_set_tableof_results_type_c"@, spec_oracle_entry("dbe_sql.sql_unregister_context", FuncCategory::Scalar, FuncDomain::DbeSql, 1, Some(1), false), 12);
    let t = t.push(spec_oracle_entry("dbe_sql.sql_unregister_context", FuncCategory::Scalar, FuncDomain::DbeSql, 1, Some(1), false));
    reveal_strlit("dbe_sql_util.create_abort_sql_patch");
    lemma_push_after(t, "dbe_sql.sql_unregister_context"@, spec_oracle_entry("dbe_sql_util.create_abort_sql_patch", FuncCategory::Scalar, FuncDomain::DbeSqlUtil, 1, Some(3), false), 7);
    let t = t.push(spec_oracle_entry("dbe_sql_util.create_abort_sql_patch", FuncCategory::Scalar, FuncDomain::DbeSqlUtil, 1, Some(3), false));
    reveal_strlit("dbe_sql_util.create_hint_sql_patch");
    lemma_push_after(t, "dbe_sql_util.create_abort_sql_patch"@, spec_oracle_entry("dbe_sql_util.create_hint_sql_patch", FuncCategory::Scalar, FuncDomain::DbeSqlUtil, 1, Some(3), false), 20);
    let t = t.push(spec_oracle_entry("dbe_sql_util.create_hint_sql_patch", FuncCategory::Scalar, FuncDomain::DbeSqlUtil, 1, Some(3), false));
    reveal_strlit("dbe_sql_util.disable_sql_patch");
    lemma_push_after(t, "dbe_sql_util.create_hint_sql_patch"@, spec_oracle_entry("dbe_sql_util.disable_sql_patch", FuncCategory::Scalar, FuncDomain::DbeSqlUtil, 1, Some(1), false), 13);
    let t = t.push(spec_oracle_entry("dbe_sql_util.disable_sql_patch", FuncCategory::Scalar, FuncDomain::DbeSqlUtil, 1, Some(1), false));
    reveal_strlit("dbe_sql_util.drop_sql_patch");
    lemma_push_after(t, "dbe_sql_util.disable_sql_patch"@, spec_oracle_entry("dbe_sql_util.drop_sql_patch", FuncCategory::Scalar, FuncDomain::DbeSqlUtil, 1, Some(1), false), 14);
    let t = t.push(spec_oracle_entry("dbe_sql_util.drop_sql_patch", FuncCategory::Scalar, FuncDomain::DbeSqlUtil, 1, Some(1), false));
    reveal_strlit("dbe_sql_util.enable_sql_patch");
    lemma_push_after(t, "dbe_sql_util.drop_sql_patch"@, spec_oracle_entry("dbe_sql_util.enable_sql_patch", FuncCategory::Scalar, FuncDomain::DbeSqlUtil, 1, Some(1), false), 13);
    let t = t.push(spec_oracle_entry("dbe_sql_util.enable_sql_patch", FuncCategory::Scalar, FuncDomain::DbeSqlUtil, 1, Some(1), false));
    reveal_strlit("dbe_sql_util.show_sql_patch");
    lemma_push_after(t, "dbe_sql_util.enable_sql_patch"@, spec_oracle_entry("dbe_sql_util.show_sql_patch", FuncCategory::Scalar, FuncDomain::DbeSqlUtil, 0, Some(1), false), 13);
    let t = t.push(spec_oracle_entry("dbe_sql_util.show_sql_patch", FuncCategory::Scalar, FuncDomain::DbeSqlUtil, 0, Some(1), false));
    assert(t == table_chunk_3_6(s));
}

pub open spec fn table_chunk_3_7(s: Seq<FuncMeta>) -> Seq<FuncMeta> {
    s
        .push(spec_oracle_entry("dbe_stats.get_stats_history_availability", FuncCategory::Scalar, FuncDomain::DbeStats, 0, Some(0), false))
        .push(spec_oracle_entry("dbe_stats.get_stats_history_retention", FuncCategory::Scalar, FuncDomain::DbeStats, 0, Some(0), false))
        .push(spec_oracle_entry("dbe_stats.lock_column_stats", FuncCategory::Scalar, FuncDomain::DbeStats, 3, Some(3), false))
        .push(spec_oracle_entry("dbe_stats.lock_partition_stats", FuncCategory::Scalar, FuncDomain::DbeStats, 3, Some(3), false))
        .push(spec_oracle_entry("dbe_stats.lock_schema_stats", FuncCategory::Scalar, FuncDomain::DbeStats, 1, Some(1), false))
        .push(spec_oracle_entry("dbe_stats.lock_table_stats", FuncCategory::Scalar, FuncDomain::DbeStats, 1, Some(1), false))
        .push(spec_oracle_entry("dbe_stats.purge_stats", FuncCategory::Scalar, FuncDomain::DbeStats, 1, Some(1), false))
        .push(spec_oracle_entry("dbe_stats.restore_column_stats", FuncCategory::Scalar, FuncDomain::DbeStats, 6, Some(6), false))
        .push(spec_oracle_entry("dbe_stats.restore_partition_stats", FuncCategory::Scalar, FuncDomain::DbeStats, 6, Some(6), false))
        .push(spec_oracle_entry("dbe_stats.restore_schema_stats", FuncCategory::Scalar, FuncDomain::DbeStats, 4, Some(4), false))
}

proof fn lemma_chunk_3_7(s: Seq<FuncMeta>)
    requires
        names_increasing(s),
        s.len() == 0 || chars_before(s.last().name@, "dbe_stats.get_stats_history_availability"@),
    ensures
        names_increasing(table_chunk_3_7(s)),
        table_chunk_3_7(s).len() > 0,
        table_chunk_3_7(s).last().name@ == "dbe_stats.restore_schema_stats"@,
{
    let t = s;
    reveal_strlit("dbe_stats.get_stats_history_availability");
    lemma_push_keeps_increasing(t, spec_oracle_entry("dbe_stats.get_stats_history_availability", FuncCategory::Scalar, FuncDomain::DbeStats, 0, Some(0), false));
    let t = t.push(spec_oracle_entry("dbe_stats.get_stats_history_availability", FuncCategory::Scalar, FuncDomain::DbeStats, 0, Some(0), false));
    reveal_strlit("dbe_stats.get_stats_history_retention");
    lemma_push_after(t, "dbe_stats.get_stats_history_availability"@, spec_oracle_entry("dbe_stats.get_stats_history_retention", FuncCategory::Scalar, FuncDomain::DbeStats, 0, Some(0), false), 28);
    let t = t.push(spec_oracle_entry("dbe_stats.get_stats_history_retention", FuncCategory::Scalar, FuncDomain::DbeStats, 0, Some(0), false));
    reveal_strlit("dbe_stats.lock_column_stats");
    lemma_push_after(t, "dbe_stats.get_stats_history_retention"@, spec_oracle_entry("dbe_stats.lock_column_stats", FuncCategory::Scalar, FuncDomain::DbeStats, 3, Some(3), false), 10);
    let t = t.push(spec_oracle_entry("dbe_stats.lock_column_stats", FuncCategory::Scalar, FuncDomain::DbeStats, 3, Some(3), false));
    reveal_strlit("dbe_stats.lock_partition_stats");
    lemma_push_after(t, "dbe_stats.lock_column_stats"@, spec_oracle_entry("dbe_stats.lock_partition_stats", FuncCategory::Scalar, FuncDomain::DbeStats, 3, Some(3), false), 15);
    let t = t.push(spec_oracle_entry("dbe_stats.lock_partition_stats", FuncCategory::Scalar, FuncDomain::DbeStats, 3, Some(3), false));
    reveal_strlit("dbe_stats.lock_schema_stats");
    lemma_push_after(t, "dbe_stats.lock_partition_stats"@, spec_oracle_entry("dbe_stats.lock_schema_stats", FuncCategory::Scalar, FuncDomain::DbeStats, 1, Some(1), false), 15);
    let t = t.push(spec_oracle_entry("dbe_stats.lock_schema_stats", FuncCategory::Scalar, FuncDomain::DbeStats, 1, Some(1), false));
    reveal_strlit("dbe_stats.lock_table_stats");
    lemma_push_after(t, "dbe_stats.lock_schema_stats"@, spec_oracle_entry("dbe_stats.lock_table_stats", FuncCategory::Scalar, FuncDomain::DbeStats, 1, Some(1), false), 15);
    let t = t.push(spec_oracle_entry("dbe_stats.lock_table_stats", FuncCategory::Scalar, FuncDomain::DbeStats, 1, Some(1), false));
    reveal_strlit("dbe_stats.purge_stats");
    lemma_push_after(t, "dbe_stats.lock_table_stats"@, spec_oracle_entry("dbe_stats.purge_stats", FuncCategory::Scalar, FuncDomain::DbeStats, 1, Some(1), false), 10);
    let t = t.push(spec_oracle_entry("dbe_stats.purge_stats", FuncCategory::Scalar, FuncDomain::DbeStats, 1, Some(1), false));
    reveal_strlit("dbe_stats.restore_column_stats");
    lemma_push_after(t, "dbe_stats.purge_stats"@, spec_oracle_entry("dbe_stats.restore_column_stats", FuncCategory::Scalar, FuncDomain::DbeStats, 6, Some(6), false), 10);
    let t = t.push(spec_oracle_entry("dbe_stats.restore_column_stats", FuncCategory::Scalar, FuncDomain::DbeStats, 6, Some(6), false));
    reveal_strlit("dbe_stats.restore_partition_stats");
    lemma_push_after(t, "dbe_stats.restore_column_stats"@, spec_oracle_entry("dbe_stats.restore_partition_stats", FuncCategory::Scalar, FuncDomain::DbeStats, 6, Some(6), false), 18);
    let t = t.push(spec_oracle_entry("dbe_stats.restore_partition_stats", FuncCategory::Scalar, FuncDomain::DbeStats, 6, Some(6), false));
    reveal_strlit("dbe_stats.restore_schema_stats");
    lemma_push_after(t, "dbe_stats.restore_partition_stats"@, spec_oracle_entry("dbe_stats.restore_schema_stats", FuncCategory::Scalar, FuncDomain::DbeStats, 4, Some(4), false), 18);
    let t = t.push(spec_oracle_entry("dbe_stats.restore_schema_stats", FuncCategory::Scalar, FuncDomain::DbeStats, 4, Some(4), false));
    assert(t == table_chunk_3_7(s));
}

pub open spec fn table_chunk_3_8(s: Seq<FuncMeta>) -> Seq<FuncMeta> {
    s
        .push(spec_oracle_entry("dbe_stats.restore_table_stats", FuncCategory::Scalar, FuncDomain::DbeStats, 5, Some(5), false))
        .push(spec_oracle_entry("dbe_stats.unlock_column_stats", FuncCategory::Scalar, FuncDomain::DbeStats, 3, Some(3), false))
        .push(spec_oracle_entry("dbe_stats.unlock_partition_stats", FuncCategory::Scalar, FuncDomain::DbeStats, 3, Some(3), false))
        .push(spec_oracle_entry("dbe_stats.unlock_schema_stats", FuncCategory::Scalar, FuncDomain::DbeStats, 1, Some(1), false))
        .push(spec_oracle_entry("dbe_stats.unlock_table_stats", FuncCategory::Scalar, FuncDomain::DbeStats, 1, Some(1), false))
        .push(spec_oracle_entry("dbe_task.cancel", FuncCategory::Scalar, FuncDomain::DbeTask, 1, Some(1), false))
        .push(spec_oracle_entry("dbe_task.change", FuncCategory::Scalar, FuncDomain::DbeTask, 1, Some(4), false))
        .push(spec_oracle_entry("dbe_task.content", FuncCategory::Scalar, FuncDomain::DbeTask, 2, Some(2), false))
        .push(spec_oracle_entry("dbe_task.finish", FuncCategory::Scalar, FuncDomain::DbeTask, 2, Some(3), false))
        .push(spec_oracle_entry("dbe_task.id_submit", FuncCategory::Scalar, FuncDomain::DbeTask, 2, Some(4), false))
}

proof fn lemma_chunk_3_8(s: Seq<FuncMeta>)
    requires
        names_increasing(s),
        s.len() == 0 || chars_before(s.last().name@, "dbe_stats.restore_table_stats"@),
    ensures
        names_increasing(table_chunk_3_8(s)),
        table_chunk_3_8(s).len() > 0,
        table_chunk_3_8(s).last().name@ == "dbe_task.id_submit"@,
{
    let t = s;
    reveal_strlit("dbe_stats.restore_table_stats");
    lemma_push_keeps_increasing(t, spec_oracle_entry("dbe_stats.restore_table_stats", FuncCategory::Scalar, FuncDomain::DbeStats, 5, Some(5), false));
    let t = t.push(spec_oracle_entry("dbe_stats.restore_table_stats", FuncCategory::Scalar, FuncDomain::DbeStats, 5, Some(5), false));
    reveal_strlit("dbe_stats.unlock_column_stats");
    lemma_push_after(t, "dbe_stats.restore_table_stats"@, spec_oracle_entry("dbe_stats.unlock_column_stats", FuncCategory::Scalar, FuncDomain::DbeStats, 3, Some(3), false), 10);
    let t = t.push(spec_oracle_entry("dbe_stats.unlock_column_stats", FuncCategory::Scalar, FuncDomain::DbeStats, 3, Some(3), false));
    reveal_strlit("dbe_stats.unlock_partition_stats");
    lemma_push_after(t, "dbe_stats.unlock_column_stats"@, spec_oracle_entry("dbe_stats.unlock_partition_stats", FuncCategory::Scalar, FuncDomain::DbeStats, 3, Some(3), false), 17);
    let t = t.push(spec_oracle_entry("dbe_stats.unlock_partition_stats", FuncCategory::Scalar, FuncDomain::DbeStats, 3, Some(3), false));
    reveal_strlit("dbe_stats.unlock_schema_stats");
    lemma_push_after(t, "dbe_stats.unlock_partition_stats"@, spec_oracle_entry("dbe_stats.unlock_schema_stats", FuncCategory::Scalar, FuncDomain::DbeStats, 1, Some(1), false), 17);
    let t = t.push(spec_oracle_entry("dbe_stats.unlock_schema_stats", FuncCategory::Scalar, FuncDomain::DbeStats, 1, Some(1), false));
    reveal_strlit("dbe_stats.unlock_table_stats");
    lemma_push_after(t, "dbe_stats.unlock_schema_stats"@, spec_oracle_entry("dbe_stats.unlock_table_stats", FuncCategory::Scalar, FuncDomain::DbeStats, 1, Some(1), false), 17);
    let t = t.push(spec_oracle_entry("dbe_stats.unlock_table_stats", FuncCategory::Scalar, FuncDomain::DbeStats, 1, Some(1), false));
    reveal_strlit("dbe_task.cancel");
    lemma_push_after(t, "dbe_stats.unlock_table_stats"@, spec_oracle_entry("dbe_task.cancel", FuncCategory::Scalar, FuncDomain::DbeTask, 1, Some(1), false), 4);
    let t = t.push(spec_oracle_entry("dbe_task.cancel", FuncCategory::Scalar, FuncDomain::DbeTask, 1, Some(1), false));
    reveal_strlit("dbe_task.change");
    lemma_push_after(t, "dbe_task.cancel"@, spec_oracle_entry("dbe_task.change", FuncCategory::Scalar, FuncDomain::DbeTask, 1, Some(4), false), 10);
    let t = t.push(spec_oracle_entry("dbe_task.change", FuncCategory::Scalar, FuncDomain::DbeTask, 1, Some(4), false));
    reveal_strlit("dbe_task.content");
    lemma_push_after(t, "dbe_task.change"@, spec_oracle_entry("dbe_task.content", FuncCategory::Scalar, FuncDomain::DbeTask, 2, Some(2), false), 10);
    let t = t.push(spec_oracle_entry("dbe_task.content", FuncCategory::Scalar, FuncDomain::DbeTask, 2, Some(2), false));
    reveal_strlit("dbe_task.finish");
    lemma_push_after(t, "dbe_task.content"@, spec_oracle_entry("dbe_task.finish", FuncCategory::Scalar, FuncDomain::DbeTask, 2, Some(3), false), 9);
    let t = t.push(spec_oracle_entry("dbe_task.finish", FuncCategory::Scalar, FuncDomain::DbeTask, 2, Some(3), false));
    reveal_strlit("dbe_task.id_submit");
    lemma_push_after(t, "dbe_task.finish"@, spec_oracle_entry("dbe_task.id_submit", FuncCategory::Scalar, FuncDomain::DbeTask, 2, Some(4), false), 9);
    let t = t.push(spec_oracle_entry("dbe_task.id_submit", FuncCategory::Scalar, FuncDomain::DbeTask, 2, Some(4), false));
    assert(t == table_chunk_3_8(s));
}

pub open spec fn table_chunk_3_9(s: Seq<FuncMeta>) -> Seq<FuncMeta> {
    s
        .push(spec_oracle_entry("dbe_task.interval", FuncCategory::Scalar, FuncDomain::DbeTask, 2, Some(2), false))
        .push(spec_oracle_entry("dbe_task.job_submit", FuncCategory::Scalar, FuncDomain::DbeTask, 1, Some(3), false))
        .push(spec_oracle_entry("dbe_task.next_time", FuncCategory::Scalar, FuncDomain::DbeTask, 2, Some(2), false))
        .push(spec_oracle_entry("dbe_task.run", FuncCategory::Scalar, FuncDomain::DbeTask, 1, Some(2), false))
        .push(spec_oracle_entry("dbe_task.submit", FuncCategory::Scalar, FuncDomain::DbeTask, 1, Some(4), false))
        .push(spec_oracle_entry("dbe_task.update", FuncCategory::Scalar, FuncDomain::DbeTask, 4, Some(4), false))
        .push(spec_oracle_entry("dbe_utility.canonicalize", FuncCategory::Scalar, FuncDomain::DbeUtility, 2, Some(3), false))
        .push(spec_oracle_entry("dbe_utility.comma_to_table", FuncCategory::Scalar, FuncDomain::DbeUtility, 3, Some(3), false))
        .push(spec_oracle_entry("dbe_utility.compile_schema", FuncCategory::Scalar, FuncDomain::DbeUtility, 1, Some(3), false))
        .push(spec_oracle_entry("dbe_utility.db_version", FuncCategory::Scalar, FuncDomain::DbeUtility, 1, Some(1), false))
}

proof fn lemma_chunk_3_9(s: Seq<FuncMeta>)
    requires
        names_increasing(s),
        s.len() == 0 || chars_before(s.last().name@, "dbe_task.interval"@),
    ensures
        names_increasing(table_chunk_3_9(s)),
        table_chunk_3_9(s).len() > 0,
        table_chunk_3_9(s).last().name@ == "dbe_utility.db_version"@,
{
    let t = s;
    reveal_strlit("dbe_task.interval");
    lemma_push_keeps_increasing(t, spec_oracle_entry("dbe_task.interval", FuncCategory::Scalar, FuncDomain::DbeTask, 2, Some(2), false));
    let t = t.push(spec_oracle_entry("dbe_task.interval", FuncCategory::Scalar, FuncDomain::DbeTask, 2, Some(2), false));
    reveal_strlit("dbe_task.job_submit");
    lemma_push_after(t, "dbe_task.interval"@, spec_oracle_entry("dbe_task.job_submit", FuncCategory::Scalar, FuncDomain::DbeTask, 1, Some(3), false), 9);
    let t = t.push(spec_oracle_entry("dbe_task.job_submit", FuncCategory::Scalar, FuncDomain::DbeTask, 1, Some(3), false));
    reveal_strlit("dbe_task.next_time");
    lemma_push_after(t, "dbe_task.job_submit"@, spec_oracle_entry("dbe_task.next_time", FuncCategory::Scalar, FuncDomain::DbeTask, 2, Some(2), false), 9);
    let t = t.push(spec_oracle_entry("dbe_task.next_time", FuncCategory::Scalar, FuncDomain::DbeTask, 2, Some(2), false));
    reveal_strlit("dbe_task.run");
    lemma_push_after(t, "dbe_task.next_time"@, spec_oracle_entry("dbe_task.run", FuncCategory::Scalar, FuncDomain::DbeTask, 1, Some(2), false), 9);
    let t = t.push(spec_oracle_entry("dbe_task.run", FuncCategory::Scalar, FuncDomain::DbeTask, 1, Some(2), false));
    reveal_strlit("dbe_task.submit");
    lemma_push_after(t, "dbe_task.run"@, spec_oracle_entry("dbe_task.submit", FuncCategory::Scalar, FuncDomain::DbeTask, 1, Some(4), false), 9);
    let t = t.push(spec_oracle_entry("dbe_task.submit", FuncCategory::Scalar, FuncDomain::DbeTask, 1, Some(4), false));
    reveal_strlit("dbe_task.update");
    lemma_push_after(t, "dbe_task.submit"@, spec_oracle_entry("dbe_task.update", FuncCategory::Scalar, FuncDomain::DbeTask, 4, Some(4), false), 9);
    let t = t.push(spec_oracle_entry("dbe_task.update", FuncCategory::Scalar, FuncDomain::DbeTask, 4, Some(4), false));
    reveal_strlit("dbe_utility.canonicalize");
    lemma_push_after(t, "dbe_task.update"@, spec_oracle_entry("dbe_utility.canonicalize", FuncCategory::Scalar, FuncDomain::DbeUtility, 2, Some(3), false), 4);
    let t = t.push(spec_oracle_entry("dbe_utility.canonicalize", FuncCategory::Scalar, FuncDomain::DbeUtility, 2, Some(3), false));
    reveal_strlit("dbe_utility.comma_to_table");
    lemma_push_after(t, "dbe_utility.canonicalize"@, spec_oracle_entry("dbe_utility.comma_to_table", FuncCategory::Scalar, FuncDomain::DbeUtility, 3, Some(3), false), 13);
    let t = t.push(spec_oracle_entry("dbe_utility.comma_to_table", FuncCategory::Scalar, FuncDomain::DbeUtility, 3, Some(3), false));
    reveal_strlit("dbe_utility.compile_schema");
    lemma_push_after(t, "dbe_utility.comma_to_table"@, spec_oracle_entry("dbe_utility.compile_schema", FuncCategory::Scalar, FuncDomain::DbeUtility, 1, Some(3), false), 15);
    let t = t.push(spec_oracle_entry("dbe_utility.compile_schema", FuncCategory::Scalar, FuncDomain::DbeUtility, 1, Some(3), false));
    reveal_strlit("dbe_utility.db_version");
    lemma_push_after(t, "dbe_utility.compile_schema"@, spec_oracle_entry("dbe_utility.db_version", FuncCategory::Scalar, FuncDomain::DbeUtility, 1, Some(1), false), 12);
    let t = t.push(spec_oracle_entry("dbe_utility.db_version", FuncCategory::Scalar, FuncDomain::DbeUtility, 1, Some(1), false));
    assert(t == table_chunk_3_9(s));
}

pub open spec fn table_chunk_3_10(s: Seq<FuncMeta>) -> Seq<FuncMeta> {
    s
        .push(spec_oracle_entry("dbe_utility.exec_ddl_statement", FuncCategory::Scalar, FuncDomain::DbeUtility, 1, Some(1), false))
        .push(spec_oracle_entry("dbe_utility.expand_sql_text_proc", FuncCategory::Scalar, FuncDomain::DbeUtility, 2, Some(2), false))
        .push(spec_oracle_entry("dbe_utility.format_call_stack", FuncCategory::Scalar, FuncDomain::DbeUtility, 0, Some(0), false))
        .push(spec_oracle_entry("dbe_utility.format_error_backtrace", FuncCategory::Scalar, FuncDomain::DbeUtility, 0, Some(0), false))
        .push(spec_oracle_entry("dbe_utility.format_error_stack", FuncCategory::Scalar, FuncDomain::DbeUtility, 0, Some(0), false))
        .push(spec_oracle_entry("dbe_utility.get_cpu_time", FuncCategory::Scalar, FuncDomain::DbeUtility, 0, Some(0), false))
        .push(spec_oracle_entry("dbe_utility.get_endianness", FuncCategory::Scalar, FuncDomain::DbeUtility, 0, Some(0), false))
        .push(spec_oracle_entry("dbe_utility.get_hash_value", FuncCategory::Scalar, FuncDomain::DbeUtility, 3, Some(3), false))
        .push(spec_oracle_entry("dbe_utility.get_sql_hash", FuncCategory::Scalar, FuncDomain::DbeUtility, 3, Some(3), false))
        .push(spec_oracle_entry("dbe_utility.get_sql_hash_func", FuncCategory::Scalar, FuncDomain::DbeUtility, 3, Some(3), false))
}

proof fn lemma_chunk_3_10(s: Seq<FuncMeta>)
    requires
        names_increasing(s),
        s.len() == 0 || chars_before(s.last().name@, "dbe_utility.exec_ddl_statement"@),
    ensures
        names_increasing(table_chunk_3_10(s)),
        table_chunk_3_10(s).len() > 0,
        table_chunk_3_10(s).last().name@ == "dbe_utility.get_sql_hash_func"@,
{
    let t = s;
    reveal_strlit("dbe_utility.exec_ddl_statement");
    lemma_push_keeps_increasing(t, spec_oracle_entry("dbe_utility.exec_ddl_statement", FuncCategory::Scalar, FuncDomain::DbeUtility, 1, Some(1), false));
    let t = t.push(spec_oracle_entry("dbe_utility.exec_ddl_statement", FuncCategory::Scalar, FuncDomain::DbeUtility, 1, Some(1), false));
    reveal_strlit("dbe_utility.expand_sql_text_proc");
    lemma_push_after(t, "dbe_utility.exec_ddl_statement"@, spec_oracle_entry("dbe_utility.expand_sql_text_proc", FuncCategory::Scalar, FuncDomain::DbeUtility, 2, Some(2), false), 14);
    let t = t.push(spec_oracle_entry("dbe_utility.expand_sql_text_proc", FuncCategory::Scalar, FuncDomain::DbeUtility, 2, Some(2), false));
    reveal_strlit("dbe_utility.format_call_stack");
    lemma_push_after(t, "dbe_utility.expand_sql_text_proc"@, spec_oracle_entry("dbe_utility.format_call_stack", FuncCategory::Scalar, FuncDomain::DbeUtility, 0, Some(0), false), 12);
    let t = t.push(spec_oracle_entry("dbe_utility.format_call_stack", FuncCategory::Scalar, FuncDomain::DbeUtility, 0, Some(0), false));
    reveal_strlit("dbe_utility.format_error_backtrace");
    lemma_push_after(t, "dbe_utility.format_call_stack"@, spec_oracle_entry("dbe_utility.format_error_backtrace", FuncCategory::Scalar, FuncDomain::DbeUtility, 0, Some(0), false), 19);
    let t = t.push(spec_oracle_entry("dbe_utility.format_error_backtrace", FuncCategory::Scalar, FuncDomain::DbeUtility, 0, Some(0), false));
    reveal_strlit("dbe_utility.format_error_stack");
    lemma_push_after(t, "dbe_utility.format_error_backtrace"@, spec_oracle_entry("dbe_utility.format_error_stack", FuncCategory::Scalar, FuncDomain::DbeUtility, 0, Some(0), false), 25);
    let t = t.push(spec_oracle_entry("dbe_utility.format_error_stack", FuncCategory::Scalar, FuncDomain::DbeUtility, 0, Some(0), false));
    reveal_strlit("dbe_utility.get_cpu_time");
    lemma_push_after(t, "dbe_utility.format_error_stack"@, spec_oracle_entry("dbe_utility.get_cpu_time", FuncCategory::Scalar, FuncDomain::DbeUtility, 0, Some(0), false), 12);
    let t = t.push(spec_oracle_entry("dbe_utility.get_cpu_time", FuncCategory::Scalar, FuncDomain::DbeUtility, 0, Some(0), false));
    reveal_strlit("dbe_utility.get_endianness");
    lemma_push_after(t, "dbe_utility.get_cpu_time"@, spec_oracle_entry("dbe_utility.get_endianness", FuncCategory::Scalar, FuncDomain::DbeUtility, 0, Some(0), false), 16);
    let t = t.push(spec_oracle_entry("dbe_utility.get_endianness", FuncCategory::Scalar, FuncDomain::DbeUtility, 0, Some(0), false));
    reveal_strlit("dbe_utility.get_hash_value");
    lemma_push_after(t, "dbe_utility.get_endianness"@, spec_oracle_entry("dbe_utility.get_hash_value", FuncCategory::Scalar, FuncDomain::DbeUtility, 3, Some(3), false), 16);
    let t = t.push(spec_oracle_entry("dbe_utility.get_hash_value", FuncCategory::Scalar, FuncDomain::DbeUtility, 3, Some(3), false));
    reveal_strlit("dbe_utility.get_sql_hash");
    lemma_push_after(t, "dbe_utility.get_hash_value"@, spec_oracle_entry("dbe_utility.get_sql_hash", FuncCategory::Scalar, FuncDomain::DbeUtility, 3, Some(3), false), 16);
    let t = t.push(spec_oracle_entry("dbe_utility.get_sql_hash", FuncCategory::Scalar, FuncDomain::DbeUtility, 3, Some(3), false));
    reveal_strlit("dbe_utility.get_sql_hash_func");
    lemma_push_after(t, "dbe_utility.get_sql_hash"@, spec_oracle_entry("dbe_utility.get_sql_hash_func", FuncCategory::Scalar, FuncDomain::DbeUtility, 3, Some(3), false), 24);
    let t = t.push(spec_oracle_entry("dbe_utility.get_sql_hash_func", FuncCategory::Scalar, FuncDomain::DbeUtility, 3, Some(3), false));
    assert(t == table_chunk_3_10(s));
}

pub open spec fn table_chunk_3_11(s: Seq<FuncMeta>) -> Seq<FuncMeta> {
    s
        .push(spec_oracle_entry("dbe_utility.get_time", FuncCategory::Scalar, FuncDomain::DbeUtility, 0, Some(0), false))
        .push(spec_oracle_entry("dbe_utility.is_bit_set", FuncCategory::Scalar, FuncDomain::DbeUtility, 2, Some(2), false))
        .push(spec_oracle_entry("dbe_utility.is_cluster_database", FuncCategory::Scalar, FuncDomain::DbeUtility, 0, Some(0), false))
        .push(spec_oracle_entry("dbe_utility.name_resolve", FuncCategory::Scalar, FuncDomain::DbeUtility, 8, Some(8), false))
        .push(spec_oracle_entry("dbe_utility.name_tokenize", FuncCategory::Scalar, FuncDomain::DbeUtility, 6, Some(6), false))
        .push(spec_oracle_entry("dbe_utility.old_current_schema", FuncCategory::Scalar, FuncDomain::DbeUtility, 0, Some(0), false))
        .push(spec_oracle_entry("dbe_utility.old_current_user", FuncCategory::Scalar, FuncDomain::DbeUtility, 0, Some(0), false))
        .push(spec_oracle_entry("dbe_utility.table_to_comma", FuncCategory::Scalar, FuncDomain::DbeUtility, 3, Some(3), false))
        .push(spec_commercial_oracle_entry("dbe_xmldom.appendchild", FuncCategory::Scalar, FuncDomain::DbeXmlDom, 2, Some(2), false))
        .push(spec_commercial_oracle_entry("dbe_xmldom.createelement", FuncCategory::Scalar, FuncDomain::DbeXmlDom, 2, Some(3), false))
}

proof fn lemma_chunk_3_11(s: Seq<FuncMeta>)
    requires
        names_increasing(s),
        s.len() == 0 || chars_before(s.last().name@, "dbe_utility.get_time"@),
    ensures
        names_increasing(table_chunk_3_11(s)),
        table_chunk_3_11(s).len() > 0,
        table_chunk_3_11(s).last().name@ == "dbe_xmldom.createelement"@,
{
    let t = s;
    reveal_strlit("dbe_utility.get_time");
    lemma_push_keeps_increasing(t, spec_oracle_entry("dbe_utility.get_time", FuncCategory::Scalar, FuncDomain::DbeUtility, 0, Some(0), false));
    let t = t.push(spec_oracle_entry("dbe_utility.get_time", FuncCategory::Scalar, FuncDomain::DbeUtility, 0, Some(0), false));
    reveal_strlit("dbe_utility.is_bit_set");
    lemma_push_after(t, "dbe_utility.get_time"@, spec_oracle_entry("dbe_utility.is_bit_set", FuncCategory::Scalar, FuncDomain::DbeUtility, 2, Some(2), false), 12);
    let t = t.push(spec_oracle_entry("dbe_utility.is_bit_set", FuncCategory::Scalar, FuncDomain::DbeUtility, 2, Some(2), false));
    reveal_strlit("dbe_utility.is_cluster_database");
    lemma_push_after(t, "dbe_utility.is_bit_set"@, spec_oracle_entry("dbe_utility.is_cluster_database", FuncCategory::Scalar, FuncDomain::DbeUtility, 0, Some(0), false), 15);
    let t = t.push(spec_oracle_entry("dbe_utility.is_cluster_database", FuncCategory::Scalar, FuncDomain::DbeUtility, 0, Some(0), false));
    reveal_strlit("dbe_utility.name_resolve");
    lemma_push_after(t, "dbe_utility.is_cluster_database"@, spec_oracle_entry("dbe_utility.name_resolve", FuncCategory::Scalar, FuncDomain::DbeUtility, 8, Some(8), false), 12);
    let t = t.push(spec_oracle_entry("dbe_utility.name_resolve", FuncCategory::Scalar, FuncDomain::DbeUtility, 8, Some(8), false));
    reveal_strlit("dbe_utility.name_tokenize");
    lemma_push_after(t, "dbe_utility.name_resolve"@, spec_oracle_entry("dbe_utility.name_tokenize", FuncCategory::Scalar, FuncDomain::DbeUtility, 6, Some(6), false), 17);
    let t = t.push(spec_oracle_entry("dbe_utility.name_tokenize", FuncCategory::Scalar, FuncDomain::DbeUtility, 6, Some(6), false));
    reveal_strlit("dbe_utility.old_current_schema");
    lemma_push_after(t, "dbe_utility.name_tokenize"@, spec_oracle_entry("dbe_utility.old_current_schema", FuncCategory::Scalar, FuncDomain::DbeUtility, 0, Some(0), false), 12);
    let t = t.push(spec_oracle_entry("dbe_utility.old_current_schema", FuncCategory::Scalar, FuncDomain::DbeUtility, 0, Some(0), false));
    reveal_strlit("dbe_utility.old_current_user");
    lemma_push_after(t, "dbe_utility.old_current_schema"@, spec_oracle_entry("dbe_utility.old_current_user", FuncCategory::Scalar, FuncDomain::DbeUtility, 0, Some(0), false), 24);
    let t = t.push(spec_oracle_entry("dbe_utility.old_current_user", FuncCategory::Scalar, FuncDomain::DbeUtility, 0, Some(0), false));
    reveal_strlit("dbe_utility.table_to_comma");
    lemma_push_after(t, "dbe_utility.old_current_user"@, spec_oracle_entry("dbe_utility.table_to_comma", FuncCategory::Scalar, FuncDomain::DbeUtility, 3, Some(3), false), 12);
    let t = t.push(spec_oracle_entry("dbe_utility.table_to_comma", FuncCategory::Scalar, FuncDomain::DbeUtility, 3, Some(3), false));
    reveal_strlit("dbe_xmldom.appendchild");
    lemma_push_after(t, "dbe_utility.table_to_comma"@, spec_commercial_oracle_entry("dbe_xmldom.appendchild", FuncCategory::Scalar, FuncDomain::DbeXmlDom, 2, Some(2), false), 4);
    let t = t.push(spec_commercial_oracle_entry("dbe_xmldom.appendchild", FuncCategory::Scalar, FuncDomain::DbeXmlDom, 2, Some(2), false));
    reveal_strlit("dbe_xmldom.createelement");
    lemma_push_after(t, "dbe_xmldom.appendchild"@, spec_commercial_oracle_entry("dbe_xmldom.createelement", FuncCategory::Scalar, FuncDomain::DbeXmlDom, 2, Some(3), false), 11);
    let t = t.push(spec_commercial_oracle_entry("dbe_xmldom.createelement", FuncCategory::Scalar, FuncDomain::DbeXmlDom, 2, Some(3), false));
    assert(t == table_chunk_3_11(s));
}

pub open spec fn table_chunk_3_12(s: Seq<FuncMeta>) -> Seq<FuncMeta> {
    s
        .push(spec_commercial_oracle_entry("dbe_xmldom.createtextnode", FuncCategory::Scalar, FuncDomain::DbeXmlDom, 2, Some(2), false))
        .push(spec_commercial_oracle_entry("dbe_xmldom.freedocument", FuncCategory::Scalar, FuncDomain::DbeXmlDom, 1, Some(1), false))
        .push(spec_commercial_oracle_entry("dbe_xmldom.freeelement", FuncCategory::Scalar, FuncDomain::DbeXmlDom, 1, Some(1), false))
        .push(spec_commercial_oracle_entry("dbe_xmldom.freenode", FuncCategory::Scalar, FuncDomain::DbeXmlDom, 1, Some(1), false))
        .push(spec_commercial_oracle_entry("dbe_xmldom.freenodelist", FuncCategory::Scalar, FuncDomain::DbeXmlDom, 1, Some(1), false))
}

proof fn lemma_chunk_3_12(s: Seq<FuncMeta>)
    requires
        names_increasing(s),
        s.len() == 0 || chars_before(s.last().name@, "dbe_xmldom.createtextnode"@),
    ensures
        names_increasing(table_chunk_3_12(s)),
        table_chunk_3_12(s).len() > 0,
        table_chunk_3_12(s).last().name@ == "dbe_xmldom.freenodelist"@,
{
    let t = s;
    reveal_strlit("dbe_xmldom.createtextnode");
    lemma_push_keeps_increasing(t, spec_commercial_oracle_entry("dbe_xmldom.createtextnode", FuncCategory::Scalar, FuncDomain::DbeXmlDom, 2, Some(2), false));
    let t = t.push(spec_commercial_oracle_entry("dbe_xmldom.createtextnode", FuncCategory::Scalar, FuncDomain::DbeXmlDom, 2, Some(2), false));
    reveal_strlit("dbe_xmldom.freedocument");
    lemma_push_after(t, "dbe_xmldom.createtextnode"@, spec_commercial_oracle_entry("dbe_xmldom.freedocument", FuncCategory::Scalar, FuncDomain::DbeXmlDom, 1, Some(1), false), 11);
    let t = t.push(spec_commercial_oracle_entry("dbe_xmldom.freedocument", FuncCategory::Scalar, FuncDomain::DbeXmlDom, 1, Some(1), false));
    reveal_strlit("dbe_xmldom.freeelement");
    lemma_push_after(t, "dbe_xmldom.freedocument"@, spec_commercial_oracle_entry("dbe_xmldom.freeelement", FuncCategory::Scalar, FuncDomain::DbeXmlDom, 1, Some(1), false), 15);
    let t = t.push(spec_commercial_oracle_entry("dbe_xmldom.freeelement", FuncCategory::Scalar, FuncDomain::DbeXmlDom, 1, Some(1), false));
    reveal_strlit("dbe_xmldom.freenode");
    lemma_push_after(t, "dbe_xmldom.freeelement"@, spec_commercial_oracle_entry("dbe_xmldom.freenode", FuncCategory::Scalar, FuncDomain::DbeXmlDom, 1, Some(1), false), 15);
    let t = t.push(spec_commercial_oracle_entry("dbe_xmldom.freenode", FuncCategory::Scalar, FuncDomain::DbeXmlDom, 1, Some(1), false));
    reveal_strlit("dbe_xmldom.freenodelist");
    lemma_push_after(t, "dbe_xmldom.freenode"@, spec_commercial_oracle_entry("dbe_xmldom.freenodelist", FuncCategory::Scalar, FuncDomain::DbeXmlDom, 1, Some(1), false), 19);
    let t = t.push(spec_commercial_oracle_entry("dbe_xmldom.freenodelist", FuncCategory::Scalar, FuncDomain::DbeXmlDom, 1, Some(1), false));
    assert(t == table_chunk_3_12(s));
}

proof fn lemma_part_3_increasing(s: Seq<FuncMeta>)
    requires
        names_increasing(s),
        s.len() == 0 || chars_before(s.last().name@, "dbe_session.set_context"@),
    ensures
        names_increasing(table_part_3(s)),
        table_part_3(s).len() > 0,
        table_part_3(s).last().name@ == "dbe_xmldom.freenodelist"@,
{
    lemma_chunk_3_0(s);
    let t0 = table_chunk_3_0(s);
    reveal_strlit("dbe_sql.fetch_rows");
    reveal_strlit("dbe_sql.get_array_result_char");
    lemma_chars_before_at("dbe_sql.fetch_rows"@, "dbe_sql.get_array_result_char"@, 8);
    lemma_chunk_3_1(t0);
    let t1 = table_chunk_3_1(t0);
    reveal_strlit("dbe_sql.get_result_raw");
    reveal_strlit("dbe_sql.get_result_text");
    lemma_chars_before_at("dbe_sql.get_result_raw"@, "dbe_sql.get_result_text"@, 19);
    lemma_chunk_3_2(t1);
    let t2 = table_chunk_3_2(t1);
    reveal_strlit("dbe_sql.get_variable_result_char");
    reveal_strlit("dbe_sql.get_variable_result_int");
    lemma_chars_before_at("dbe_sql.get_variable_result_char"@, "dbe_sql.get_variable_result_int"@, 28);
    lemma_chunk_3_3(t2);
    let t3 = table_chunk_3_3(t2);
    reveal_strlit("dbe_sql.run_and_next");
    reveal_strlit("dbe_sql.set_result_type");
    lemma_chars_before_at("dbe_sql.run_and_next"@, "dbe_sql.set_result_type"@, 8);
    lemma_chunk_3_4(t3);
    let t4 = table_chunk_3_4(t3);
    reveal_strlit("dbe_sql.set_result_type_raws");
    reveal_strlit("dbe_sql.set_result_type_text");
    lemma_chars_before_at("dbe_sql.set_result_type_raws"@, "dbe_sql.set_result_type_text"@, 24);
    lemma_chunk_3_5(t4);
    let t5 = table_chunk_3_5(t4);
    reveal_strlit("dbe_sql.sql_run");
    reveal_strlit("dbe_sql.sql_set_results_type_c");
    lemma_chars_before_at("dbe_sql.sql_run"@, "dbe_sql.sql_set_results_type_c"@, 12);
    lemma_chunk_3_6(t5);
    let t6 = table_chunk_3_6(t5);
    reveal_strlit("dbe_sql_util.show_sql_patch");
    reveal_strlit("dbe_stats.get_stats_history_availability");
    lemma_chars_before_at("dbe_sql_util.show_sql_patch"@, "dbe_stats.get_stats_history_availability"@, 5);
    lemma_chunk_3_7(t6);
    let t7 = table_chunk_3_7(t6);
    reveal_strlit("dbe_stats.restore_schema_stats");
    reveal_strlit("dbe_stats.restore_table_stats");
    lemma_chars_before_at("dbe_stats.restore_schema_stats"@, "dbe_stats.restore_table_stats"@, 18);
    lemma_chunk_3_8(t7);
    let t8 = table_chunk_3_8(t7);
    reveal_strlit("dbe_task.id_submit");
    reveal_strlit("dbe_task.interval");
    lemma_chars_before_at("dbe_task.id_submit"@, "dbe_task.interval"@, 10);
    lemma_chunk_3_9(t8);
    let t9 = table_chunk_3_9(t8);
    reveal_strlit("dbe_utility.db_version");
    reveal_strlit("dbe_utility.exec_ddl_statement");
    lemma_chars_before_at("dbe_utility.db_version"@, "dbe_utility.exec_ddl_statement"@, 12);
    lemma_chunk_3_10(t9);
    let t10 = table_chunk_3_10(t9);
    reveal_strlit("dbe_utility.get_sql_hash_func");
    reveal_strlit("dbe_utility.get_time");
    lemma_chars_before_at("dbe_utility.get_sql_hash_func"@, "dbe_utility.get_time"@, 16);
    lemma_chunk_3_11(t10);
    let t11 = table_chunk_3_11(t10);
    reveal_strlit("dbe_xmldom.createelement");
    reveal_strlit("dbe_xmldom.createtextnode");
    lemma_chars_before_at("dbe_xmldom.createelement"@, "dbe_xmldom.createtextnode"@, 17);
    lemma_chunk_3_12(t11);
    let t12 = table_chunk_3_12(t11);
    assert(t12 == table_part_3(s));
}

pub open spec fn table_chunk_4_0(s: Seq<FuncMeta>) -> Seq<FuncMeta> {
    s
        .push(spec_commercial_oracle_entry("dbe_xmldom.getattribute", FuncCategory::Scalar, FuncDomain::DbeXmlDom, 2, Some(3), false))
        .push(spec_commercial_oracle_entry("dbe_xmldom.getattributes", FuncCategory::Scalar, FuncDomain::DbeXmlDom, 1, Some(1), false))
        .push(spec_commercial_oracle_entry("dbe_xmldom.getchildnodes", FuncCategory::Scalar, FuncDomain::DbeXmlDom, 1, Some(1), false))
        .push(spec_commercial_oracle_entry("dbe_xmldom.getchildrenbytagname", FuncCategory::Scalar, FuncDomain::DbeXmlDom, 2, Some(3), false))
        .push(spec_commercial_oracle_entry("dbe_xmldom.getdocumentelement", FuncCategory::Scalar, FuncDomain::DbeXmlDom, 1, Some(1), false))
        .push(spec_commercial_oracle_entry("dbe_xmldom.getfirstchild", FuncCategory::Scalar, FuncDomain::DbeXmlDom, 1, Some(1), false))
        .push(spec_commercial_oracle_entry("dbe_xmldom.getlastchild", FuncCategory::Scalar, FuncDomain::DbeXmlDom, 1, Some(1), false))
        .push(spec_commercial_oracle_entry("dbe_xmldom.getlength", FuncCategory::Scalar, FuncDomain::DbeXmlDom, 1, Some(1), false))
        .push(spec_commercial_oracle_entry("dbe_xmldom.getlocalname", FuncCategory::Scalar, FuncDomain::DbeXmlDom, 1, Some(2), false))
        .push(spec_commercial_oracle_entry("dbe_xmldom.getnameditem", FuncCategory::Scalar, FuncDomain::DbeXmlDom, 2, Some(3), false))
}

proof fn lemma_chunk_4_0(s: Seq<FuncMeta>)
    requires
        names_increasing(s),
        s.len() == 0 || chars_before(s.last().name@, "dbe_xmldom.getattribute"@),
    ensures
        names_increasing(table_chunk_4_0(s)),
        table_chunk_4_0(s).len() > 0,
        table_chunk_4_0(s).last().name@ == "dbe_xmldom.getnameditem"@,
{
    let t = s;
    reveal_strlit("dbe_xmldom.getattribute");
    lemma_push_keeps_increasing(t, spec_commercial_oracle_entry("dbe_xmldom.getattribute", FuncCategory::Scalar, FuncDomain::DbeXmlDom, 2, Some(3), false));
    let t = t.push(spec_commercial_oracle_entry("dbe_xmldom.getattribute", FuncCategory::Scalar, FuncDomain::DbeXmlDom, 2, Some(3), false));
    reveal_strlit("dbe_xmldom.getattributes");
    lemma_push_after(t, "dbe_xmldom.getattribute"@, spec_commercial_oracle_entry("dbe_xmldom.getattributes", FuncCategory::Scalar, FuncDomain::DbeXmlDom, 1, Some(1), false), 23);
    let t = t.push(spec_commercial_oracle_entry("dbe_xmldom.getattributes", FuncCategory::Scalar, FuncDomain::DbeXmlDom, 1, Some(1), false));
    reveal_strlit("dbe_xmldom.getchildnodes");
    lemma_push_after(t, "dbe_xmldom.getattributes"@, spec_commercial_oracle_entry("dbe_xmldom.getchildnodes", FuncCategory::Scalar, FuncDomain::DbeXmlDom, 1, Some(1), false), 14);
    let t = t.push(spec_commercial_oracle_entry("dbe_xmldom.getchildnodes", FuncCategory::Scalar, FuncDomain::DbeXmlDom, 1, Some(1), false));
    reveal_strlit("dbe_xmldom.getchildrenbytagname");
    lemma_push_after(t, "dbe_xmldom.getchildnodes"@, spec_commercial_oracle_entry("dbe_xmldom.getchildrenbytagname", FuncCategory::Scalar, FuncDomain::DbeXmlDom, 2, Some(3), false), 19);
    let t = t.push(spec_commercial_oracle_entry("dbe_xmldom.getchildrenbytagname", FuncCategory::Scalar, FuncDomain::DbeXmlDom, 2, Some(3), false));
    reveal_strlit("dbe_xmldom.getdocumentelement");
    lemma_push_after(t, "dbe_xmldom.getchildrenbytagname"@, spec_commercial_oracle_entry("dbe_xmldom.getdocumentelement", FuncCategory::Scalar, FuncDomain::DbeXmlDom, 1, Some(1), false), 14);
    let t = t.push(spec_commercial_oracle_entry("dbe_xmldom.getdocumentelement", FuncCategory::Scalar, FuncDomain::DbeXmlDom, 1, Some(1), false));
    reveal_strlit("dbe_xmldom.getfirstchild");
    lemma_push_after(t, "dbe_xmldom.getdocumentelement"@, spec_commercial_oracle_entry("dbe_xmldom.getfirstchild", FuncCategory::Scalar, FuncDomain::DbeXmlDom, 1, Some(1), false), 14);
    let t = t.push(spec_commercial_oracle_entry("dbe_xmldom.getfirstchild", FuncCategory::Scalar, FuncDomain::DbeXmlDom, 1, Some(1), false));
    reveal_strlit("dbe_xmldom.getlastchild");
    lemma_push_after(t, "dbe_xmldom.getfirstchild"@, spec_commercial_oracle_entry("dbe_xmldom.getlastchild", FuncCategory::Scalar, FuncDomain::DbeXmlDom, 1, Some(1), false), 14);
    let t = t.push(spec_commercial_oracle_entry("dbe_xmldom.getlastchild", FuncCategory::Scalar, FuncDomain::DbeXmlDom, 1, Some(1), false));
    reveal_strlit("dbe_xmldom.getlength");
    lemma_push_after(t, "dbe_xmldom.getlastchild"@, spec_commercial_oracle_entry("dbe_xmldom.getlength", FuncCategory::Scalar, FuncDomain::DbeXmlDom, 1, Some(1), false), 15);
    let t = t.push(spec_commercial_oracle_entry("dbe_xmldom.getlength", FuncCategory::Scalar, FuncDomain::DbeXmlDom, 1, Some(1), false));
    reveal_strlit("dbe_xmldom.getlocalname");
    lemma_push_after(t, "dbe_xmldom.getlength"@, spec_commercial_oracle_entry("dbe_xmldom.getlocalname", FuncCategory::Scalar, FuncDomain::DbeXmlDom, 1, Some(2), false), 15);
    let t = t.push(spec_commercial_oracle_entry("dbe_xmldom.getlocalname", FuncCategory::Scalar, FuncDomain::DbeXmlDom, 1, Some(2), false));
    reveal_strlit("dbe_xmldom.getnameditem");
    lemma_push_after(t, "dbe_xmldom.getlocalname"@, spec_commercial_oracle_entry("dbe_xmldom.getnameditem", FuncCategory::Scalar, FuncDomain::DbeXmlDom, 2, Some(3), false), 14);
    let t = t.push(spec_commercial_oracle_entry("dbe_xmldom.getnameditem", FuncCategory::Scalar, FuncDomain::DbeXmlDom, 2, Some(3), false));
    assert(t == table_chunk_4_0(s));
}

pub open spec fn table_chunk_4_1(s: Seq<FuncMeta>) -> Seq<FuncMeta> {
    s
        .push(spec_commercial_oracle_entry("dbe_xmldom.getnextsibling", FuncCategory::Scalar, FuncDomain::DbeXmlDom, 1, Some(1), false))
        .push(spec_commercial_oracle_entry("dbe_xmldom.getnodename", FuncCategory::Scalar, FuncDomain::DbeXmlDom, 1, Some(1), false))
        .push(spec_commercial_oracle_entry("dbe_xmldom.getnodetype", FuncCategory::Scalar, FuncDomain::DbeXmlDom, 1, Some(1), false))
        .push(spec_commercial_oracle_entry("dbe_xmldom.getnodevalue", FuncCategory::Scalar, FuncDomain::DbeXmlDom, 1, Some(1), false))
        .push(spec_commercial_oracle_entry("dbe_xmldom.getparentnode", FuncCategory::Scalar, FuncDomain::DbeXmlDom, 1, Some(1), false))
        .push(spec_commercial_oracle_entry("dbe_xmldom.gettagname", FuncCategory::Scalar, FuncDomain::DbeXmlDom, 1, Some(1), false))
        .push(spec_commercial_oracle_entry("dbe_xmldom.haschildnodes", FuncCategory::Scalar, FuncDomain::DbeXmlDom, 1, Some(1), false))
        .push(spec_commercial_oracle_entry("dbe_xmldom.importnode", FuncCategory::Scalar, FuncDomain::DbeXmlDom, 3, Some(3), false))
        .push(spec_commercial_oracle_entry("dbe_xmldom.isnull", FuncCategory::Scalar, FuncDomain::DbeXmlDom, 1, Some(1), false))
        .push(spec_commercial_oracle_entry("dbe_xmldom.item", FuncCategory::Scalar, FuncDomain::DbeXmlDom, 2, Some(2), false))
}

proof fn lemma_chunk_4_1(s: Seq<FuncMeta>)
    requires
        names_increasing(s),
        s.len() == 0 || chars_before(s.last().name@, "dbe_xmldom.getnextsibling"@),
    ensures
        names_increasing(table_chunk_4_1(s)),
        table_chunk_4_1(s).len() > 0,
        table_chunk_4_1(s).last().name@ == "dbe_xmldom.item"@,
{
    let t = s;
    reveal_strlit("dbe_xmldom.getnextsibling");
    lemma_push_keeps_increasing(t, spec_commercial_oracle_entry("dbe_xmldom.getnextsibling", FuncCategory::Scalar, FuncDomain::DbeXmlDom, 1, Some(1), false));
    let t = t.push(spec_commercial_oracle_entry("dbe_xmldom.getnextsibling", FuncCategory::Scalar, FuncDomain::DbeXmlDom, 1, Some(1), false));
    reveal_strlit("dbe_xmldom.getnodename");
    lemma_push_after(t, "dbe_xmldom.getnextsibling"@, spec_commercial_oracle_entry("dbe_xmldom.getnodename", FuncCategory::Scalar, FuncDomain::DbeXmlDom, 1, Some(1), false), 15);
    let t = t.push(spec_commercial_oracle_entry("dbe_xmldom.getnodename", FuncCategory::Scalar, FuncDomain::DbeXmlDom, 1, Some(1), false));
    reveal_strlit("dbe_xmldom.getnodetype");
    lemma_push_after(t, "dbe_xmldom.getnodename"@, spec_commercial_oracle_entry("dbe_xmldom.getnodetype", FuncCategory::Scalar, FuncDomain::DbeXmlDom, 1, Some(1), false), 18);
    let t = t.push(spec_commercial_oracle_entry("dbe_xmldom.getnodetype", FuncCategory::Scalar, FuncDomain::DbeXmlDom, 1, Some(1), false));
    reveal_strlit("dbe_xmldom.getnodevalue");
    lemma_push_after(t, "dbe_xmldom.getnodetype"@, spec_commercial_oracle_entry("dbe_xmldom.getnodevalue", FuncCategory::Scalar, FuncDomain::DbeXmlDom, 1, Some(1), false), 18);
    let t = t.push(spec_commercial_oracle_entry("dbe_xmldom.getnodevalue", FuncCategory::Scalar, FuncDomain::DbeXmlDom, 1, Some(1), false));
    reveal_strlit("dbe_xmldom.getparentnode");
    lemma_push_after(t, "dbe_xmldom.getnodevalue"@, spec_commercial_oracle_entry("dbe_xmldom.getparentnode", FuncCategory::Scalar, FuncDomain::DbeXmlDom, 1, Some(1), false), 14);
    let t = t.push(spec_commercial_oracle_entry("dbe_xmldom.getparentnode", FuncCategory::Scalar, FuncDomain::DbeXmlDom, 1, Some(1), false));
    reveal_strlit("dbe_xmldom.gettagname");
    lemma_push_after(t, "dbe_xmldom.getparentnode"@, spec_commercial_oracle_entry("dbe_xmldom.gettagname", FuncCategory::Scalar, FuncDomain::DbeXmlDom, 1, Some(1), false), 14);
    let t = t.push(spec_commercial_oracle_entry("dbe_xmldom.gettagname", FuncCategory::Scalar, FuncDomain::DbeXmlDom, 1, Some(1), false));
    reveal_strlit("dbe_xmldom.haschildnodes");
    lemma_push_after(t, "dbe_xmldom.gettagname"@, spec_commercial_oracle_entry("dbe_xmldom.haschildnodes", FuncCategory::Scalar, FuncDomain::DbeXmlDom, 1, Some(1), false), 11);
    let t = t.push(spec_commercial_oracle_entry("dbe_xmldom.haschildnodes", FuncCategory::Scalar, FuncDomain::DbeXmlDom, 1, Some(1), false));
    reveal_strlit("dbe_xmldom.importnode");
    lemma_push_after(t, "dbe_xmldom.haschildnodes"@, spec_commercial_oracle_entry("dbe_xmldom.importnode", FuncCategory::Scalar, FuncDomain::DbeXmlDom, 3, Some(3), false), 11);
    let t = t.push(spec_commercial_oracle_entry("dbe_xmldom.importnode", FuncCategory::Scalar, FuncDomain::DbeXmlDom, 3, Some(3), false));
    reveal_strlit("dbe_xmldom.isnull");
    lemma_push_after(t, "dbe_xmldom.importnode"@, spec_commercial_oracle_entry("dbe_xmldom.isnull", FuncCategory::Scalar, FuncDomain::DbeXmlDom, 1, Some(1), false), 12);
    let t = t.push(spec_commercial_oracle_entry("dbe_xmldom.isnull", FuncCategory::Scalar, FuncDomain::DbeXmlDom, 1, Some(1), false));
    reveal_strlit("dbe_xmldom.item");
    lemma_push_after(t, "dbe_xmldom.isnull"@, spec_commercial_oracle_entry("dbe_xmldom.item", FuncCategory::Scalar, FuncDomain::DbeXmlDom, 2, Some(2), false), 12);
    let t = t.push(spec_commercial_oracle_entry("dbe_xmldom.item", FuncCategory::Scalar, FuncDomain::DbeXmlDom, 2, Some(2), false));
    assert(t == table_chunk_4_1(s));
}

pub open spec fn table_chunk_4_2(s: Seq<FuncMeta>) -> Seq<FuncMeta> {
    s
        .push(spec_commercial_oracle_entry("dbe_xmldom.makeelement", FuncCategory::Scalar, FuncDomain::DbeXmlDom, 1, Some(1), false))
        .push(spec_commercial_oracle_entry("dbe_xmldom.makenode", FuncCategory::Scalar, FuncDomain::DbeXmlDom, 1, Some(1), false))
        .push(spec_commercial_oracle_entry("dbe_xmldom.newdomdocument", FuncCategory::Scalar, FuncDomain::DbeXmlDom, 0, Some(1), false))
        .push(spec_commercial_oracle_entry("dbe_xmldom.setattribute", FuncCategory::Scalar, FuncDomain::DbeXmlDom, 2, Some(4), false))
        .push(spec_commercial_oracle_entry("dbe_xmldom.setcharset", FuncCategory::Scalar, FuncDomain::DbeXmlDom, 2, Some(2), false))
        .push(spec_commercial_oracle_entry("dbe_xmldom.setdoctype", FuncCategory::Scalar, FuncDomain::DbeXmlDom, 2, Some(2), false))
        .push(spec_commercial_oracle_entry("dbe_xmldom.setnodevalue", FuncCategory::Scalar, FuncDomain::DbeXmlDom, 2, Some(2), false))
        .push(spec_commercial_oracle_entry("dbe_xmldom.writetobuffer", FuncCategory::Scalar, FuncDomain::DbeXmlDom, 2, Some(2), false))
        .push(spec_commercial_oracle_entry("dbe_xmldom.writetoclob", FuncCategory::Scalar, FuncDomain::DbeXmlDom, 2, Some(2), false))
        .push(spec_commercial_oracle_entry("dbe_xmlparser.freeparser", FuncCategory::Scalar, FuncDomain::DbeXmlParser, 1, Some(1), false))
}

proof fn lemma_chunk_4_2(s: Seq<FuncMeta>)
    requires
        names_increasing(s),
        s.len() == 0 || chars_before(s.last().name@, "dbe_xmldom.makeelement"@),
    ensures
        names_increasing(table_chunk_4_2(s)),
        table_chunk_4_2(s).len() > 0,
        table_chunk_4_2(s).last().name@ == "dbe_xmlparser.freeparser"@,
{
    let t = s;
    reveal_strlit("dbe_xmldom.makeelement");
    lemma_push_keeps_increasing(t, spec_commercial_oracle_entry("dbe_xmldom.makeelement", FuncCategory::Scalar, FuncDomain::DbeXmlDom, 1, Some(1), false));
    let t = t.push(spec_commercial_oracle_entry("dbe_xmldom.makeelement", FuncCategory::Scalar, FuncDomain::DbeXmlDom, 1, Some(1), false));
    reveal_strlit("dbe_xmldom.makenode");
    lemma_push_after(t, "dbe_xmldom.makeelement"@, spec_commercial_oracle_entry("dbe_xmldom.makenode", FuncCategory::Scalar, FuncDomain::DbeXmlDom, 1, Some(1), false), 15);
    let t = t.push(spec_commercial_oracle_entry("dbe_xmldom.makenode", FuncCategory::Scalar, FuncDomain::DbeXmlDom, 1, Some(1), false));
    reveal_strlit("dbe_xmldom.newdomdocument");
    lemma_push_after(t, "dbe_xmldom.makenode"@, spec_commercial_oracle_entry("dbe_xmldom.newdomdocument", FuncCategory::Scalar, FuncDomain::DbeXmlDom, 0, Some(1), false), 11);
    let t = t.push(spec_commercial_oracle_entry("dbe_xmldom.newdomdocument", FuncCategory::Scalar, FuncDomain::DbeXmlDom, 0, Some(1), false));
    reveal_strlit("dbe_xmldom.setattribute");
    lemma_push_after(t, "dbe_xmldom.newdomdocument"@, spec_commercial_oracle_entry("dbe_xmldom.setattribute", FuncCategory::Scalar, FuncDomain::DbeXmlDom, 2, Some(4), false), 11);
    let t = t.push(spec_commercial_oracle_entry("dbe_xmldom.setattribute", FuncCategory::Scalar, FuncDomain::DbeXmlDom, 2, Some(4), false));
    reveal_strlit("dbe_xmldom.setcharset");
    lemma_push_after(t, "dbe_xmldom.setattribute"@, spec_commercial_oracle_entry("dbe_xmldom.setcharset", FuncCategory::Scalar, FuncDomain::DbeXmlDom, 2, Some(2), false), 14);
    let t = t.push(spec_commercial_oracle_entry("dbe_xmldom.setcharset", FuncCategory::Scalar, FuncDomain::DbeXmlDom, 2, Some(2), false));
    reveal_strlit("dbe_xmldom.setdoctype");
    lemma_push_after(t, "dbe_xmldom.setcharset"@, spec_commercial_oracle_entry("dbe_xmldom.setdoctype", FuncCategory::Scalar, FuncDomain::DbeXmlDom, 2, Some(2), false), 14);
    let t = t.push(spec_commercial_oracle_entry("dbe_xmldom.setdoctype", FuncCategory::Scalar, FuncDomain::DbeXmlDom, 2, Some(2), false));
    reveal_strlit("dbe_xmldom.setnodevalue");
    lemma_push_after(t, "dbe_xmldom.setdoctype"@, spec_commercial_oracle_entry("dbe_xmldom.setnodevalue", FuncCategory::Scalar, FuncDomain::DbeXmlDom, 2, Some(2), false), 14);
    let t = t.push(spec_commercial_oracle_entry("dbe_xmldom.setnodevalue", FuncCategory::Scalar, FuncDomain::DbeXmlDom, 2, Some(2), false));
    reveal_strlit("dbe_xmldom.writetobuffer");
    lemma_push_after(t, "dbe_xmldom.setnodevalue"@, spec_commercial_oracle_entry("dbe_xmldom.writetobuffer", FuncCategory::Scalar, FuncDomain::DbeXmlDom, 2, Some(2), false), 11);
    let t = t.push(spec_commercial_oracle_entry("dbe_xmldom.writetobuffer", FuncCategory::Scalar, FuncDomain::DbeXmlDom, 2, Some(2), false));
    reveal_strlit("dbe_xmldom.writetoclob");
    lemma_push_after(t, "dbe_xmldom.writetobuffer"@, spec_commercial_oracle_entry("dbe_xmldom.writetoclob", FuncCategory::Scalar, FuncDomain::DbeXmlDom, 2, Some(2), false), 18);
    let t = t.push(spec_commercial_oracle_entry("dbe_xmldom.writetoclob", FuncCategory::Scalar, FuncDomain::DbeXmlDom, 2, Some(2), false));
    reveal_strlit("dbe_xmlparser.freeparser");
    lemma_push_after(t, "dbe_xmldom.writetoclob"@, spec_commercial_oracle_entry("dbe_xmlparser.freeparser", FuncCategory::Scalar, FuncDomain::DbeXmlParser, 1, Some(1), false), 7);
    let t = t.push(spec_commercial_oracle_entry("dbe_xmlparser.freeparser", FuncCategory::Scalar, FuncDomain::DbeXmlParser, 1, Some(1), false));
    assert(t == table_chunk_4_2(s));
}

pub open spec fn table_chunk_4_3(s: Seq<FuncMeta>) -> Seq<FuncMeta> {
    s
        .push(spec_commercial_oracle_entry("dbe_xmlparser.getdocument", FuncCategory::Scalar, FuncDomain::DbeXmlParser, 1, Some(1), false))
        .push(spec_commercial_oracle_entry("dbe_xmlparser.getvalidationmode", FuncCategory::Scalar, FuncDomain::DbeXmlParser, 1, Some(1), false))
        .push(spec_commercial_oracle_entry("dbe_xmlparser.newparser", FuncCategory::Scalar, FuncDomain::DbeXmlParser, 0, Some(0), false))
        .push(spec_commercial_oracle_entry("dbe_xmlparser.parsebuffer", FuncCategory::Scalar, FuncDomain::DbeXmlParser, 2, Some(2), false))
        .push(spec_commercial_oracle_entry("dbe_xmlparser.parseclob", FuncCategory::Scalar, FuncDomain::DbeXmlParser, 2, Some(2), false))
        .push(spec_commercial_oracle_entry("dbe_xmlparser.setvalidationmode", FuncCategory::Scalar, FuncDomain::DbeXmlParser, 2, Some(2), false))
        .push(spec_oracle_entry("dbms_lob.append", FuncCategory::Scalar, FuncDomain::DbmsLob, 2, Some(2), false))
        .push(spec_oracle_entry("dbms_lob.read", FuncCategory::Scalar, FuncDomain::DbmsLob, 3, Some(3), false))
        .push(spec_oracle_entry("dbms_lob.substr", FuncCategory::Scalar, FuncDomain::DbmsLob, 1, Some(3), false))
        .push(spec_oracle_entry("dbms_lob.write", FuncCategory::Scalar, FuncDomain::DbmsLob, 3, Some(3), false))
}

proof fn lemma_chunk_4_3(s: Seq<FuncMeta>)
    requires
        names_increasing(s),
        s.len() == 0 || chars_before(s.last().name@, "dbe_xmlparser.getdocument"@),
    ensures
        names_increasing(table_chunk_4_3(s)),
        table_chunk_4_3(s).len() > 0,
        table_chunk_4_3(s).last().name@ == "dbms_lob.write"@,
{
    let t = s;
    reveal_strlit("dbe_xmlparser.getdocument");
    lemma_push_keeps_increasing(t, spec_commercial_oracle_entry("dbe_xmlparser.getdocument", FuncCategory::Scalar, FuncDomain::DbeXmlParser, 1, Some(1), false));
    let t = t.push(spec_commercial_oracle_entry("dbe_xmlparser.getdocument", FuncCategory::Scalar, FuncDomain::DbeXmlParser, 1, Some(1), false));
    reveal_strlit("dbe_xmlparser.getvalidationmode");
    lemma_push_after(t, "dbe_xmlparser.getdocument"@, spec_commercial_oracle_entry("dbe_xmlparser.getvalidationmode", FuncCategory::Scalar, FuncDomain::DbeXmlParser, 1, Some(1), false), 17);
    let t = t.push(spec_commercial_oracle_entry("dbe_xmlparser.getvalidationmode", FuncCategory::Scalar, FuncDomain::DbeXmlParser, 1, Some(1), false));
    reveal_strlit("dbe_xmlparser.newparser");
    lemma_push_after(t, "dbe_xmlparser.getvalidationmode"@, spec_commercial_oracle_entry("dbe_xmlparser.newparser", FuncCategory::Scalar, FuncDomain::DbeXmlParser, 0, Some(0), false), 14);
    let t = t.push(spec_commercial_oracle_entry("dbe_xmlparser.newparser", FuncCategory::Scalar, FuncDomain::DbeXmlParser, 0, Some(0), false));
    reveal_strlit("dbe_xmlparser.parsebuffer");
    lemma_push_after(t, "dbe_xmlparser.newparser"@, spec_commercial_oracle_entry("dbe_xmlparser.parsebuffer", FuncCategory::Scalar, FuncDomain::DbeXmlParser, 2, Some(2), false), 14);
    let t = t.push(spec_commercial_oracle_entry("dbe_xmlparser.parsebuffer", FuncCategory::Scalar, FuncDomain::DbeXmlParser, 2, Some(2), false));
    reveal_strlit("dbe_xmlparser.parseclob");
    lemma_push_after(t, "dbe_xmlparser.parsebuffer"@, spec_commercial_oracle_entry("dbe_xmlparser.parseclob", FuncCategory::Scalar, FuncDomain::DbeXmlParser, 2, Some(2), false), 19);
    let t = t.push(spec_commercial_oracle_entry("dbe_xmlparser.parseclob", FuncCategory::Scalar, FuncDomain::DbeXmlParser, 2, Some(2), false));
    reveal_strlit("dbe_xmlparser.setvalidationmode");
    lemma_push_after(t, "dbe_xmlparser.parseclob"@, spec_commercial_oracle_entry("dbe_xmlparser.setvalidationmode", FuncCategory::Scalar, FuncDomain::DbeXmlParser, 2, Some(2), false), 14);
    let t = t.push(spec_commercial_oracle_entry("dbe_xmlparser.setvalidationmode", FuncCategory::Scalar, FuncDomain::DbeXmlParser, 2, Some(2), false));
    reveal_strlit("dbms_lob.append");
    lemma_push_after(t, "dbe_xmlparser.setvalidationmode"@, spec_oracle_entry("dbms_lob.append", FuncCategory::Scalar, FuncDomain::DbmsLob, 2, Some(2), false), 2);
    let t = t.push(spec_oracle_entry("dbms_lob.append", FuncCategory::Scalar, FuncDomain::DbmsLob, 2, Some(2), false));
    reveal_strlit("dbms_lob.read");
    lemma_push_after(t, "dbms_lob.append"@, spec_oracle_entry("dbms_lob.read", FuncCategory::Scalar, FuncDomain::DbmsLob, 3, Some(3), false), 9);
    let t = t.push(spec_oracle_entry("dbms_lob.read", FuncCategory::Scalar, FuncDomain::DbmsLob, 3, Some(3), false));
    reveal_strlit("dbms_lob.substr");
    lemma_push_after(t, "dbms_lob.read"@, spec_oracle_entry("dbms_lob.substr", FuncCategory::Scalar, FuncDomain::DbmsLob, 1, Some(3), false), 9);
    let t = t.push(spec_oracle_entry("dbms_lob.substr", FuncCategory::Scalar, FuncDomain::DbmsLob, 1, Some(3), false));
    reveal_strlit("dbms_lob.write");
    lemma_push_after(t, "dbms_lob.substr"@, spec_oracle_entry("dbms_lob.write", FuncCategory::Scalar, FuncDomain::DbmsLob, 3, Some(3), false), 9);
    let t = t.push(spec_oracle_entry("dbms_lob.write", FuncCategory::Scalar, FuncDomain::DbmsLob, 3, Some(3), false));
    assert(t == table_chunk_4_3(s));
}

pub open spec fn table_chunk_4_4(s: Seq<FuncMeta>) -> Seq<FuncMeta> {
    s
        .push(spec_oracle_entry("dbms_output.disable", FuncCategory::Scalar, FuncDomain::DbmsOutput, 0, Some(0), false))
        .push(spec_oracle_entry("dbms_output.enable", FuncCategory::Scalar, FuncDomain::DbmsOutput, 0, Some(1), false))
        .push(spec_oracle_entry("dbms_output.put", FuncCategory::Scalar, FuncDomain::DbmsOutput, 1, Some(1), false))
        .push(spec_oracle_entry("dbms_output.put_line", FuncCategory::Scalar, FuncDomain::DbmsOutput, 1, Some(1), false))
        .push(spec_oracle_entry("dbms_scheduler.create_job", FuncCategory::Scalar, FuncDomain::DbmsScheduler, 1, None, false))
        .push(spec_oracle_entry("dbms_scheduler.drop_job", FuncCategory::Scalar, FuncDomain::DbmsScheduler, 1, None, false))
        .push(spec_oracle_entry("dbms_scheduler.run_job", FuncCategory::Scalar, FuncDomain::DbmsScheduler, 1, Some(2), false))
        .push(spec_oracle_entry("dbms_sql.close_cursor", FuncCategory::Scalar, FuncDomain::DbmsSql, 1, Some(1), false))
        .push(spec_oracle_entry("dbms_sql.column_value", FuncCategory::Scalar, FuncDomain::DbmsSql, 3, Some(3), false))
        .push(spec_oracle_entry("dbms_sql.execute", FuncCategory::Scalar, FuncDomain::DbmsSql, 1, Some(2), false))
}

proof fn lemma_chunk_4_4(s: Seq<FuncMeta>)
    requires
        names_increasing(s),
        s.len() == 0 || chars_before(s.last().name@, "dbms_output.disable"@),
    ensures
        names_increasing(table_chunk_4_4(s)),
        table_chunk_4_4(s).len() > 0,
        table_chunk_4_4(s).last().name@ == "dbms_sql.execute"@,
{
    let t = s;
    reveal_strlit("dbms_output.disable");
    lemma_push_keeps_increasing(t, spec_oracle_entry("dbms_output.disable", FuncCategory::Scalar, FuncDomain::DbmsOutput, 0, Some(0), false));
    let t = t.push(spec_oracle_entry("dbms_output.disable", FuncCategory::Scalar, FuncDomain::DbmsOutput, 0, Some(0), false));
    reveal_strlit("dbms_output.enable");
    lemma_push_after(t, "dbms_output.disable"@, spec_oracle_entry("dbms_output.enable", FuncCategory::Scalar, FuncDomain::DbmsOutput, 0, Some(1), false), 12);
    let t = t.push(spec_oracle_entry("dbms_output.enable", FuncCategory::Scalar, FuncDomain::DbmsOutput, 0, Some(1), false));
    reveal_strlit("dbms_output.put");
    lemma_push_after(t, "dbms_output.enable"@, spec_oracle_entry("dbms_output.put", FuncCategory::Scalar, FuncDomain::DbmsOutput, 1, Some(1), false), 12);
    let t = t.push(spec_oracle_entry("dbms_output.put", FuncCategory::Scalar, FuncDomain::DbmsOutput, 1, Some(1), false));
    reveal_strlit("dbms_output.put_line");
    lemma_push_after(t, "dbms_output.put"@, spec_oracle_entry("dbms_output.put_line", FuncCategory::Scalar, FuncDomain::DbmsOutput, 1, Some(1), false), 15);
    let t = t.push(spec_oracle_entry("dbms_output.put_line", FuncCategory::Scalar, FuncDomain::DbmsOutput, 1, Some(1), false));
    reveal_strlit("dbms_scheduler.create_job");
    lemma_push_after(t, "dbms_output.put_line"@, spec_oracle_entry("dbms_scheduler.create_job", FuncCategory::Scalar, FuncDomain::DbmsScheduler, 1, None, false), 5);
    let t = t.push(spec_oracle_entry("dbms_scheduler.create_job", FuncCategory::Scalar, FuncDomain::DbmsScheduler, 1, None, false));
    reveal_strlit("dbms_scheduler.drop_job");
    lemma_push_after(t, "dbms_scheduler.create_job"@, spec_oracle_entry("dbms_scheduler.drop_job", FuncCategory::Scalar, FuncDomain::DbmsScheduler, 1, None, false), 15);
    let t = t.push(spec_oracle_entry("dbms_scheduler.drop_job", FuncCategory::Scalar, FuncDomain::DbmsScheduler, 1, None, false));
    reveal_strlit("dbms_scheduler.run_job");
    lemma_push_after(t, "dbms_scheduler.drop_job"@, spec_oracle_entry("dbms_scheduler.run_job", FuncCategory::Scalar, FuncDomain::DbmsScheduler, 1, Some(2), false), 15);
    let t = t.push(spec_oracle_entry("dbms_scheduler.run_job", FuncCategory::Scalar, FuncDomain::DbmsScheduler, 1, Some(2), false));
    reveal_strlit("dbms_sql.close_cursor");
    lemma_push_after(t, "dbms_scheduler.run_job"@, spec_oracle_entry("dbms_sql.close_cursor", FuncCategory::Scalar, FuncDomain::DbmsSql, 1, Some(1), false), 6);
    let t = t.push(spec_oracle_entry("dbms_sql.close_cursor", FuncCategory::Scalar, FuncDomain::DbmsSql, 1, Some(1), false));
    reveal_strlit("dbms_sql.column_value");
    lemma_push_after(t, "dbms_sql.close_cursor"@, spec_oracle_entry("dbms_sql.column_value", FuncCategory::Scalar, FuncDomain::DbmsSql, 3, Some(3), false), 10);
    let t = t.push(spec_oracle_entry("dbms_sql.column_value", FuncCategory::Scalar, FuncDomain::DbmsSql, 3, Some(3), false));
    reveal_strlit("dbms_sql.execute");
    lemma_push_after(t, "dbms_sql.column_value"@, spec_oracle_entry("dbms_sql.execute", FuncCategory::Scalar, FuncDomain::DbmsSql, 1, Some(2), false), 9);
    let t = t.push(spec_oracle_entry("dbms_sql.execute", FuncCategory::Scalar, FuncDomain::DbmsSql, 1, Some(2), false));
    assert(t == table_chunk_4_4(s));
}

pub open spec fn table_chunk_4_5(s: Seq<FuncMeta>) -> Seq<FuncMeta> {
    s
        .push(spec_oracle_entry("dbms_sql.fetch_rows", FuncCategory::Scalar, FuncDomain::DbmsSql, 1, Some(1), false))
        .push(spec_oracle_entry("dbms_sql.open_cursor", FuncCategory::Scalar, FuncDomain::DbmsSql, 0, Some(0), false))
        .push(spec_oracle_entry("dbms_utility.format_error_backtrace", FuncCategory::Scalar, FuncDomain::DbmsUtility, 0, Some(0), false))
        .push(spec_oracle_entry("dbms_utility.get_time", FuncCategory::Scalar, FuncDomain::DbmsUtility, 0, Some(0), false))
        .push(spec_oracle_entry("decode", FuncCategory::Special, FuncDomain::OracleCompat, 2, None, false))
        .push(spec_core_entry("degrees", FuncCategory::Scalar, FuncDomain::Math, 1, Some(1), false))
        .push(spec_core_entry("dense_rank", FuncCategory::Window, FuncDomain::Window, 0, Some(0), false))
        .push(spec_core_entry("diameter", FuncCategory::Scalar, FuncDomain::Geometric, 1, Some(1), false))
        .push(spec_core_entry("digest", FuncCategory::Scalar, FuncDomain::Crypto, 2, Some(2), false))
        .push(spec_core_entry("div", FuncCategory::Scalar, FuncDomain::Math, 2, Some(2), false))
}

proof fn lemma_chunk_4_5(s: Seq<FuncMeta>)
    requires
        names_increasing(s),
        s.len() == 0 || chars_before(s.last().name@, "dbms_sql.fetch_rows"@),
    ensures
        names_increasing(table_chunk_4_5(s)),
        table_chunk_4_5(s).len() > 0,
        table_chunk_4_5(s).last().name@ == "div"@,
{
    let t = s;
    reveal_strlit("dbms_sql.fetch_rows");
    lemma_push_keeps_increasing(t, spec_oracle_entry("dbms_sql.fetch_rows", FuncCategory::Scalar, FuncDomain::DbmsSql, 1, Some(1), false));
    let t = t.push(spec_oracle_entry("dbms_sql.fetch_rows", FuncCategory::Scalar, FuncDomain::DbmsSql, 1, Some(1), false));
    reveal_strlit("dbms_sql.open_cursor");
    lemma_push_after(t, "dbms_sql.fetch_rows"@, spec_oracle_entry("dbms_sql.open_cursor", FuncCategory::Scalar, FuncDomain::DbmsSql, 0, Some(0), false), 9);
    let t = t.push(spec_oracle_entry("dbms_sql.open_cursor", FuncCategory::Scalar, FuncDomain::DbmsSql, 0, Some(0), false));
    reveal_strlit("dbms_utility.format_error_backtrace");
    lemma_push_after(t, "dbms_sql.open_cursor"@, spec_oracle_entry("dbms_utility.format_error_backtrace", FuncCategory::Scalar, FuncDomain::DbmsUtility, 0, Some(0), false), 5);
    let t = t.push(spec_oracle_entry("dbms_utility.format_error_backtrace", FuncCategory::Scalar, FuncDomain::DbmsUtility, 0, Some(0), false));
    reveal_strlit("dbms_utility.get_time");
    lemma_push_after(t, "dbms_utility.format_error_backtrace"@, spec_oracle_entry("dbms_utility.get_time", FuncCategory::Scalar, FuncDomain::DbmsUtility, 0, Some(0), false), 13);
    let t = t.push(spec_oracle_entry("dbms_utility.get_time", FuncCategory::Scalar, FuncDomain::DbmsUtility, 0, Some(0), false));
    reveal_strlit("decode");
    lemma_push_after(t, "dbms_utility.get_time"@, spec_oracle_entry("decode", FuncCategory::Special, FuncDomain::OracleCompat, 2, None, false), 1);
    let t = t.push(spec_oracle_entry("decode", FuncCategory::Special, FuncDomain::OracleCompat, 2, None, false));
    reveal_strlit("degrees");
    lemma_push_after(t, "decode"@, spec_core_entry("degrees", FuncCategory::Scalar, FuncDomain::Math, 1, Some(1), false), 2);
    let t = t.push(spec_core_entry("degrees", FuncCategory::Scalar, FuncDomain::Math, 1, Some(1), false));
    reveal_strlit("dense_rank");
    lemma_push_after(t, "degrees"@, spec_core_entry("dense_rank", FuncCategory::Window, FuncDomain::Window, 0, Some(0), false), 2);
    let t = t.push(spec_core_entry("dense_rank", FuncCategory::Window, FuncDomain::Window, 0, Some(0), false));
    reveal_strlit("diameter");
    lemma_push_after(t, "dense_rank"@, spec_core_entry("diameter", FuncCategory::Scalar, FuncDomain::Geometric, 1, Some(1), false), 1);
    let t = t.push(spec_core_entry("diameter", FuncCategory::Scalar, FuncDomain::Geometric, 1, Some(1), false));
    reveal_strlit("digest");
    lemma_push_after(t, "diameter"@, spec_core_entry("digest", FuncCategory::Scalar, FuncDomain::Crypto, 2, Some(2), false), 2);
    let t = t.push(spec_core_entry("digest", FuncCategory::Scalar, FuncDomain::Crypto, 2, Some(2), false));
    reveal_strlit("div");
    lemma_push_after(t, "digest"@, spec_core_entry("div", FuncCategory::Scalar, FuncDomain::Math, 2, Some(2), false), 2);
    let t = t.push(spec_core_entry("div", FuncCategory::Scalar, FuncDomain::Math, 2, Some(2), false));
    assert(t == table_chunk_4_5(s));
}

pub open spec fn table_chunk_4_6(s: Seq<FuncMeta>) -> Seq<FuncMeta> {
    s
        .push(spec_oracle_entry("dump", FuncCategory::Scalar, FuncDomain::String, 1, Some(4), false))
        .push(spec_commercial_entry("empty_blob", FuncCategory::Scalar, FuncDomain::Other, 0, Some(0), false))
        .push(spec_commercial_entry("empty_clob", FuncCategory::Scalar, FuncDomain::Other, 0, Some(0), false))
        .push(spec_core_entry("encode", FuncCategory::Scalar, FuncDomain::String, 2, Some(2), false))
        .push(spec_core_entry("every", FuncCategory::Aggregate, FuncDomain::Aggregate, 1, Some(1), true))
        .push(spec_oracle_entry("existsnode", FuncCategory::Scalar, FuncDomain::Xml, 2, Some(3), false))
        .push(spec_core_entry("exp", FuncCategory::Scalar, FuncDomain::Math, 1, Some(1), false))
        .push(spec_core_entry("extract", FuncCategory::Scalar, FuncDomain::DateTime, 2, Some(2), false))
        .push(spec_oracle_entry("extractvalue", FuncCategory::Scalar, FuncDomain::Xml, 2, Some(3), false))
        .push(spec_oracle_entry("extractxml", FuncCategory::Scalar, FuncDomain::Xml, 2, Some(3), false))
}

proof fn lemma_chunk_4_6(s: Seq<FuncMeta>)
    requires
        names_increasing(s),
        s.len() == 0 || chars_before(s.last().name@, "dump"@),
    ensures
        names_increasing(table_chunk_4_6(s)),
        table_chunk_4_6(s).len() > 0,
        table_chunk_4_6(s).last().name@ == "extractxml"@,
{
    let t = s;
    reveal_strlit("dump");
    lemma_push_keeps_increasing(t, spec_oracle_entry("dump", FuncCategory::Scalar, FuncDomain::String, 1, Some(4), false));
    let t = t.push(spec_oracle_entry("dump", FuncCategory::Scalar, FuncDomain::String, 1, Some(4), false));
    reveal_strlit("empty_blob");
    lemma_push_after(t, "dump"@, spec_commercial_entry("empty_blob", FuncCategory::Scalar, FuncDomain::Other, 0, Some(0), false), 0);
    let t = t.push(spec_commercial_entry("empty_blob", FuncCategory::Scalar, FuncDomain::Other, 0, Some(0), false));
    reveal_strlit("empty_clob");
    lemma_push_after(t, "empty_blob"@, spec_commercial_entry("empty_clob", FuncCategory::Scalar, FuncDomain::Other, 0, Some(0), false), 6);
    let t = t.push(spec_commercial_entry("empty_clob", FuncCategory::Scalar, FuncDomain::Other, 0, Some(0), false));
    reveal_strlit("encode");
    lemma_push_after(t, "empty_clob"@, spec_core_entry("encode", FuncCategory::Scalar, FuncDomain::String, 2, Some(2), false), 1);
    let t = t.push(spec_core_entry("encode", FuncCategory::Scalar, FuncDomain::String, 2, Some(2), false));
    reveal_strlit("every");
    lemma_push_after(t, "encode"@, spec_core_entry("every", FuncCategory::Aggregate, FuncDomain::Aggregate, 1, Some(1), true), 1);
    let t = t.push(spec_core_entry("every", FuncCategory::Aggregate, FuncDomain::Aggregate, 1, Some(1), true));
    reveal_strlit("existsnode");
    lemma_push_after(t, "every"@, spec_oracle_entry("existsnode", FuncCategory::Scalar, FuncDomain::Xml, 2, Some(3), false), 1);
    let t = t.push(spec_oracle_entry("existsnode", FuncCategory::Scalar, FuncDomain::Xml, 2, Some(3), false));
    reveal_strlit("exp");
    lemma_push_after(t, "existsnode"@, spec_core_entry("exp", FuncCategory::Scalar, FuncDomain::Math, 1, Some(1), false), 2);
    let t = t.push(spec_core_entry("exp", FuncCategory::Scalar, FuncDomain::Math, 1, Some(1), false));
    reveal_strlit("extract");
    lemma_push_after(t, "exp"@, spec_core_entry("extract", FuncCategory::Scalar, FuncDomain::DateTime, 2, Some(2), false), 2);
    let t = t.push(spec_core_entry("extract", FuncCategory::Scalar, FuncDomain::DateTime, 2, Some(2), false));
    reveal_strlit("extractvalue");
    lemma_push_after(t, "extract"@, spec_oracle_entry("extractvalue", FuncCategory::Scalar, FuncDomain::Xml, 2, Some(3), false), 7);
    let t = t.push(spec_oracle_entry("extractvalue", FuncCategory::Scalar, FuncDomain::Xml, 2, Some(3), false));
    reveal_strlit("extractxml");
    lemma_push_after(t, "extractvalue"@, spec_oracle_entry("extractxml", FuncCategory::Scalar, FuncDomain::Xml, 2, Some(3), false), 7);
    let t = t.push(spec_oracle_entry("extractxml", FuncCategory::Scalar, FuncDomain::Xml, 2, Some(3), false));
    assert(t == table_chunk_4_6(s));
}

pub open spec fn table_chunk_4_7(s: Seq<FuncMeta>) -> Seq<FuncMeta> {
    s
        .push(spec_core_entry("factorial", FuncCategory::Scalar, FuncDomain::Math, 1, Some(1), false))
        .push(spec_core_entry("family", FuncCategory::Scalar, FuncDomain::Network, 1, Some(1), false))
        .push(spec_core_entry("find_in_set", FuncCategory::Scalar, FuncDomain::String, 2, Some(2), false))
        .push(spec_core_entry("first_value", FuncCategory::Window, FuncDomain::Window, 1, Some(1), false))
        .push(spec_core_entry("floor", FuncCategory::Scalar, FuncDomain::Math, 1, Some(1), false))
        .push(spec_core_entry("format", FuncCategory::Scalar, FuncDomain::String, 2, None, false))
        .push(spec_core_entry("format_type", FuncCategory::Scalar, FuncDomain::System, 1, Some(2), false))
        .push(spec_commercial_entry("from_days", FuncCategory::Scalar, FuncDomain::DateTime, 1, Some(1), false))
        .push(spec_commercial_entry("from_unixtime", FuncCategory::Scalar, FuncDomain::DateTime, 1, Some(2), false))
        .push(spec_core_entry("gcd", FuncCategory::Scalar, FuncDomain::Math, 2, Some(2), false))
}

proof fn lemma_chunk_4_7(s: Seq<FuncMeta>)
    requires
        names_increasing(s),
        s.len() == 0 || chars_before(s.last().name@, "factorial"@),
    ensures
        names_increasing(table_chunk_4_7(s)),
        table_chunk_4_7(s).len() > 0,
        table_chunk_4_7(s).last().name@ == "gcd"@,
{
    let t = s;
    reveal_strlit("factorial");
    lemma_push_keeps_increasing(t, spec_core_entry("factorial", FuncCategory::Scalar, FuncDomain::Math, 1, Some(1), false));
    let t = t.push(spec_core_entry("factorial", FuncCategory::Scalar, FuncDomain::Math, 1, Some(1), false));
    reveal_strlit("family");
    lemma_push_after(t, "factorial"@, spec_core_entry("family", FuncCategory::Scalar, FuncDomain::Network, 1, Some(1), false), 2);
    let t = t.push(spec_core_entry("family", FuncCategory::Scalar, FuncDomain::Network, 1, Some(1), false));
    reveal_strlit("find_in_set");
    lemma_push_after(t, "family"@, spec_core_entry("find_in_set", FuncCategory::Scalar, FuncDomain::String, 2, Some(2), false), 1);
    let t = t.push(spec_core_entry("find_in_set", FuncCategory::Scalar, FuncDomain::String, 2, Some(2), false));
    reveal_strlit("first_value");
    lemma_push_after(t, "find_in_set"@, spec_core_entry("first_value", FuncCategory::Window, FuncDomain::Window, 1, Some(1), false), 2);
    let t = t.push(spec_core_entry("first_value", FuncCategory::Window, FuncDomain::Window, 1, Some(1), false));
    reveal_strlit("floor");
    lemma_push_after(t, "first_value"@, spec_core_entry("floor", FuncCategory::Scalar, FuncDomain::Math, 1, Some(1), false), 1);
    let t = t.push(spec_core_entry("floor", FuncCategory::Scalar, FuncDomain::Math, 1, Some(1), false));
    reveal_strlit("format");
    lemma_push_after(t, "floor"@, spec_core_entry("format", FuncCategory::Scalar, FuncDomain::String, 2, None, false), 1);
    let t = t.push(spec_core_entry("format", FuncCategory::Scalar, FuncDomain::String, 2, None, false));
    reveal_strlit("format_type");
    lemma_push_after(t, "format"@, spec_core_entry("format_type", FuncCategory::Scalar, FuncDomain::System, 1, Some(2), false), 6);
    let t = t.push(spec_core_entry("format_type", FuncCategory::Scalar, FuncDomain::System, 1, Some(2), false));
    reveal_strlit("from_days");
    lemma_push_after(t, "format_type"@, spec_commercial_entry("from_days", FuncCategory::Scalar, FuncDomain::DateTime, 1, Some(1), false), 1);
    let t = t.push(spec_commercial_entry("from_days", FuncCategory::Scalar, FuncDomain::DateTime, 1, Some(1), false));
    reveal_strlit("from_unixtime");
    lemma_push_after(t, "from_days"@, spec_commercial_entry("from_unixtime", FuncCategory::Scalar, FuncDomain::DateTime, 1, Some(2), false), 5);
    let t = t.push(spec_commercial_entry("from_unixtime", FuncCategory::Scalar, FuncDomain::DateTime, 1, Some(2), false));
    reveal_strlit("gcd");
    lemma_push_after(t, "from_unixtime"@, spec_core_entry("gcd", FuncCategory::Scalar, FuncDomain::Math, 2, Some(2), false), 0);
    let t = t.push(spec_core_entry("gcd", FuncCategory::Scalar, FuncDomain::Math, 2, Some(2), false));
    assert(t == table_chunk_4_7(s));
}

pub open spec fn table_chunk_4_8(s: Seq<FuncMeta>) -> Seq<FuncMeta> {
    s
        .push(spec_core_entry("gen_random_uuid", FuncCategory::Scalar, FuncDomain::Crypto, 0, Some(0), false))
        .push(spec_core_entry("generate_series", FuncCategory::SetReturning, FuncDomain::Other, 2, Some(3), false))
        .push(spec_core_entry("generate_subscripts", FuncCategory::SetReturning, FuncDomain::Array, 2, Some(3), false))
        .push(spec_core_entry("get_bit", FuncCategory::Scalar, FuncDomain::String, 2, Some(2), false))
        .push(spec_core_entry("get_byte", FuncCategory::Scalar, FuncDomain::String, 2, Some(2), false))
        .push(spec_core_entry("get_current_ts_config", FuncCategory::Scalar, FuncDomain::TextSearch, 0, Some(0), false))
        .push(spec_oracle_entry("getblobval", FuncCategory::Scalar, FuncDomain::Xml, 1, Some(1), false))
        .push(spec_oracle_entry("getclobval", FuncCategory::Scalar, FuncDomain::Xml, 1, Some(1), false))
        .push(spec_oracle_entry("getnamespace", FuncCategory::Scalar, FuncDomain::Xml, 1, Some(1), false))
        .push(spec_oracle_entry("getnumberval", FuncCategory::Scalar, FuncDomain::Xml, 1, Some(1), false))
}

proof fn lemma_chunk_4_8(s: Seq<FuncMeta>)
    requires
        names_increasing(s),
        s.len() == 0 || chars_before(s.last().name@, "gen_random_uuid"@),
    ensures
        names_increasing(table_chunk_4_8(s)),
        table_chunk_4_8(s).len() > 0,
        table_chunk_4_8(s).last().name@ == "getnumberval"@,
{
    let t = s;
    reveal_strlit("gen_random_uuid");
    lemma_push_keeps_increasing(t, spec_core_entry("gen_random_uuid", FuncCategory::Scalar, FuncDomain::Crypto, 0, Some(0), false));
    let t = t.push(spec_core_entry("gen_random_uuid", FuncCategory::Scalar, FuncDomain::Crypto, 0, Some(0), false));
    reveal_strlit("generate_series");
    lemma_push_after(t, "gen_random_uuid"@, spec_core_entry("generate_series", FuncCategory::SetReturning, FuncDomain::Other, 2, Some(3), false), 3);
    let t = t.push(spec_core_entry("generate_series", FuncCategory::SetReturning, FuncDomain::Other, 2, Some(3), false));
    reveal_strlit("generate_subscripts");
    lemma_push_after(t, "generate_series"@, spec_core_entry("generate_subscripts", FuncCategory::SetReturning, FuncDomain::Array, 2, Some(3), false), 10);
    let t = t.push(spec_core_entry("generate_subscripts", FuncCategory::SetReturning, FuncDomain::Array, 2, Some(3), false));
    reveal_strlit("get_bit");
    lemma_push_after(t, "generate_subscripts"@, spec_core_entry("get_bit", FuncCategory::Scalar, FuncDomain::String, 2, Some(2), false), 2);
    let t = t.push(spec_core_entry("get_bit", FuncCategory::Scalar, FuncDomain::String, 2, Some(2), false));
    reveal_strlit("get_byte");
    lemma_push_after(t, "get_bit"@, spec_core_entry("get_byte", FuncCategory::Scalar, FuncDomain::String, 2, Some(2), false), 5);
    let t = t.push(spec_core_entry("get_byte", FuncCategory::Scalar, FuncDomain::String, 2, Some(2), false));
    reveal_strlit("get_current_ts_config");
    lemma_push_after(t, "get_byte"@, spec_core_entry("get_current_ts_config", FuncCategory::Scalar, FuncDomain::TextSearch, 0, Some(0), false), 4);
    let t = t.push(spec_core_entry("get_current_ts_config", FuncCategory::Scalar, FuncDomain::TextSearch, 0, Some(0), false));
    reveal_strlit("getblobval");
    lemma_push_after(t, "get_current_ts_config"@, spec_oracle_entry("getblobval", FuncCategory::Scalar, FuncDomain::Xml, 1, Some(1), false), 3);
    let t = t.push(spec_oracle_entry("getblobval", FuncCategory::Scalar, FuncDomain::Xml, 1, Some(1), false));
    reveal_strlit("getclobval");
    lemma_push_after(t, "getblobval"@, spec_oracle_entry("getclobval", FuncCategory::Scalar, FuncDomain::Xml, 1, Some(1), false), 3);
    let t = t.push(spec_oracle_entry("getclobval", FuncCategory::Scalar, FuncDomain::Xml, 1, Some(1), false));
    reveal_strlit("getnamespace");
    lemma_push_after(t, "getclobval"@, spec_oracle_entry("getnamespace", FuncCategory::Scalar, FuncDomain::Xml, 1, Some(1), false), 3);
    let t = t.push(spec_oracle_entry("getnamespace", FuncCategory::Scalar, FuncDomain::Xml, 1, Some(1), false));
    reveal_strlit("getnumberval");
    lemma_push_after(t, "getnamespace"@, spec_oracle_entry("getnumberval", FuncCategory::Scalar, FuncDomain::Xml, 1, Some(1), false), 4);
    let t = t.push(spec_oracle_entry("getnumberval", FuncCategory::Scalar, FuncDomain::Xml, 1, Some(1), false));
    assert(t == table_chunk_4_8(s));
}

pub open spec fn table_chunk_4_9(s: Seq<FuncMeta>) -> Seq<FuncMeta> {
    s
        .push(spec_oracle_entry("getrootelement", FuncCategory::Scalar, FuncDomain::Xml, 1, Some(1), false))
        .push(spec_oracle_entry("getstringval", FuncCategory::Scalar, FuncDomain::Xml, 1, Some(1), false))
        .push(spec_core_entry("greatest", FuncCategory::Special, FuncDomain::Other, 2, None, false))
        .push(spec_oracle_entry("group_concat", FuncCategory::Aggregate, FuncDomain::String, 1, None, true))
        .push(spec_core_entry("gs_decrypt", FuncCategory::Scalar, FuncDomain::Crypto, 3, Some(3), false))
        .push(spec_core_entry("gs_decrypt_aes128", FuncCategory::Scalar, FuncDomain::Crypto, 2, Some(2), false))
        .push(spec_core_entry("gs_encrypt", FuncCategory::Scalar, FuncDomain::Crypto, 3, Some(3), false))
        .push(spec_core_entry("gs_encrypt_aes128", FuncCategory::Scalar, FuncDomain::Crypto, 2, Some(2), false))
        .push(spec_core_entry("has_schema_privilege", FuncCategory::Scalar, FuncDomain::System, 2, Some(4), false))
        .push(spec_core_entry("has_table_privilege", FuncCategory::Scalar, FuncDomain::System, 2, Some(4), false))
}

proof fn lemma_chunk_4_9(s: Seq<FuncMeta>)
    requires
        names_increasing(s),
        s.len() == 0 || chars_before(s.last().name@, "getrootelement"@),
    ensures
        names_increasing(table_chunk_4_9(s)),
        table_chunk_4_9(s).len() > 0,
        table_chunk_4_9(s).last().name@ == "has_table_privilege"@,
{
    let t = s;
    reveal_strlit("getrootelement");
    lemma_push_keeps_increasing(t, spec_oracle_entry("getrootelement", FuncCategory::Scalar, FuncDomain::Xml, 1, Some(1), false));
    let t = t.push(spec_oracle_entry("getrootelement", FuncCategory::Scalar, FuncDomain::Xml, 1, Some(1), false));
    reveal_strlit("getstringval");
    lemma_push_after(t, "getrootelement"@, spec_oracle_entry("getstringval", FuncCategory::Scalar, FuncDomain::Xml, 1, Some(1), false), 3);
    let t = t.push(spec_oracle_entry("getstringval", FuncCategory::Scalar, FuncDomain::Xml, 1, Some(1), false));
    reveal_strlit("greatest");
    lemma_push_after(t, "getstringval"@, spec_core_entry("greatest", FuncCategory::Special, FuncDomain::Other, 2, None, false), 1);
    let t = t.push(spec_core_entry("greatest", FuncCategory::Special, FuncDomain::Other, 2, None, false));
    reveal_strlit("group_concat");
    lemma_push_after(t, "greatest"@, spec_oracle_entry("group_concat", FuncCategory::Aggregate, FuncDomain::String, 1, None, true), 2);
    let t = t.push(spec_oracle_entry("group_concat", FuncCategory::Aggregate, FuncDomain::String, 1, None, true));
    reveal_strlit("gs_decrypt");
    lemma_push_after(t, "group_concat"@, spec_core_entry("gs_decrypt", FuncCategory::Scalar, FuncDomain::Crypto, 3, Some(3), false), 1);
    let t = t.push(spec_core_entry("gs_decrypt", FuncCategory::Scalar, FuncDomain::Crypto, 3, Some(3), false));
    reveal_strlit("gs_decrypt_aes128");
    lemma_push_after(t, "gs_decrypt"@, spec_core_entry("gs_decrypt_aes128", FuncCategory::Scalar, FuncDomain::Crypto, 2, Some(2), false), 10);
    let t = t.push(spec_core_entry("gs_decrypt_aes128", FuncCategory::Scalar, FuncDomain::Crypto, 2, Some(2), false));
    reveal_strlit("gs_encrypt");
    lemma_push_after(t, "gs_decrypt_aes128"@, spec_core_entry("gs_encrypt", FuncCategory::Scalar, FuncDomain::Crypto, 3, Some(3), false), 3);
    let t = t.push(spec_core_entry("gs_encrypt", FuncCategory::Scalar, FuncDomain::Crypto, 3, Some(3), false));
    reveal_strlit("gs_encrypt_aes128");
    lemma_push_after(t, "gs_encrypt"@, spec_core_entry("gs_encrypt_aes128", FuncCategory::Scalar, FuncDomain::Crypto, 2, Some(2), false), 10);
    let t = t.push(spec_core_entry("gs_encrypt_aes128", FuncCategory::Scalar, FuncDomain::Crypto, 2, Some(2), false));
    reveal_strlit("has_schema_privilege");
    lemma_push_after(t, "gs_encrypt_aes128"@, spec_core_entry("has_schema_privilege", FuncCategory::Scalar, FuncDomain::System, 2, Some(4), false), 0);
    let t = t.push(spec_core_entry("has_schema_privilege", FuncCategory::Scalar, FuncDomain::System, 2, Some(4), false));
    reveal_strlit("has_table_privilege");
    lemma_push_after(t, "has_schema_privilege"@, spec_core_entry("has_table_privilege", FuncCategory::Scalar, FuncDomain::System, 2, Some(4), false), 4);
    let t = t.push(spec_core_entry("has_table_privilege", FuncCategory::Scalar, FuncDomain::System, 2, Some(4), false));
    assert(t == table_chunk_4_9(s));
}

pub open spec fn table_chunk_4_10(s: Seq<FuncMeta>) -> Seq<FuncMeta> {
    s
        .push(spec_core_entry("hextoraw", FuncCategory::Scalar, FuncDomain::TypeConversion, 1, Some(1), false))
        .push(spec_core_entry("host", FuncCategory::Scalar, FuncDomain::Network, 1, Some(1), false))
        .push(spec_core_entry("hostmask", FuncCategory::Scalar, FuncDomain::Network, 1, Some(1), false))
        .push(spec_commercial_entry("ifnull", FuncCategory::Special, FuncDomain::OracleCompat, 2, Some(2), false))
        .push(spec_core_entry("inet_client_addr", FuncCategory::Scalar, FuncDomain::System, 0, Some(0), false))
        .push(spec_core_entry("inet_client_port", FuncCategory::Scalar, FuncDomain::System, 0, Some(0), false))
        .push(spec_core_entry("inet_server_addr", FuncCategory::Scalar, FuncDomain::System, 0, Some(0), false))
        .push(spec_core_entry("inet_server_port", FuncCategory::Scalar, FuncDomain::System, 0, Some(0), false))
        .push(spec_core_entry("initcap", FuncCategory::Scalar, FuncDomain::String, 1, Some(1), false))
        .push(spec_oracle_entry("instr", FuncCategory::Scalar, FuncDomain::String, 2, Some(4), false))
}

proof fn lemma_chunk_4_10(s: Seq<FuncMeta>)
    requires
        names_increasing(s),
        s.len() == 0 || chars_before(s.last().name@, "hextoraw"@),
    ensures
        names_increasing(table_chunk_4_10(s)),
        table_chunk_4_10(s).len() > 0,
        table_chunk_4_10(s).last().name@ == "instr"@,
{
    let t = s;
    reveal_strlit("hextoraw");
    lemma_push_keeps_increasing(t, spec_core_entry("hextoraw", FuncCategory::Scalar, FuncDomain::TypeConversion, 1, Some(1), false));
    let t = t.push(spec_core_entry("hextoraw", FuncCategory::Scalar, FuncDomain::TypeConversion, 1, Some(1), false));
    reveal_strlit("host");
    lemma_push_after(t, "hextoraw"@, spec_core_entry("host", FuncCategory::Scalar, FuncDomain::Network, 1, Some(1), false), 1);
    let t = t.push(spec_core_entry("host", FuncCategory::Scalar, FuncDomain::Network, 1, Some(1), false));
    reveal_strlit("hostmask");
    lemma_push_after(t, "host"@, spec_core_entry("hostmask", FuncCategory::Scalar, FuncDomain::Network, 1, Some(1), false), 4);
    let t = t.push(spec_core_entry("hostmask", FuncCategory::Scalar, FuncDomain::Network, 1, Some(1), false));
    reveal_strlit("ifnull");
    lemma_push_after(t, "hostmask"@, spec_commercial_entry("ifnull", FuncCategory::Special, FuncDomain::OracleCompat, 2, Some(2), false), 0);
    let t = t.push(spec_commercial_entry("ifnull", FuncCategory::Special, FuncDomain::OracleCompat, 2, Some(2), false));
    reveal_strlit("inet_client_addr");
    lemma_push_after(t, "ifnull"@, spec_core_entry("inet_client_addr", FuncCategory::Scalar, FuncDomain::System, 0, Some(0), false), 1);
    let t = t.push(spec_core_entry("inet_client_addr", FuncCategory::Scalar, FuncDomain::System, 0, Some(0), false));
    reveal_strlit("inet_client_port");
    lemma_push_after(t, "inet_client_addr"@, spec_core_entry("inet_client_port", FuncCategory::Scalar, FuncDomain::System, 0, Some(0), false), 12);
    let t = t.push(spec_core_entry("inet_client_port", FuncCategory::Scalar, FuncDomain::System, 0, Some(0), false));
    reveal_strlit("inet_server_addr");
    lemma_push_after(t, "inet_client_port"@, spec_core_entry("inet_server_addr", FuncCategory::Scalar, FuncDomain::System, 0, Some(0), false), 5);
    let t = t.push(spec_core_entry("inet_server_addr", FuncCategory::Scalar, FuncDomain::System, 0, Some(0), false));
    reveal_strlit("inet_server_port");
    lemma_push_after(t, "inet_server_addr"@, spec_core_entry("inet_server_port", FuncCategory::Scalar, FuncDomain::System, 0, Some(0), false), 12);
    let t = t.push(spec_core_entry("inet_server_port", FuncCategory::Scalar, FuncDomain::System, 0, Some(0), false));
    reveal_strlit("initcap");
    lemma_push_after(t, "inet_server_port"@, spec_core_entry("initcap", FuncCategory::Scalar, FuncDomain::String, 1, Some(1), false), 2);
    let t = t.push(spec_core_entry("initcap", FuncCategory::Scalar, FuncDomain::String, 1, Some(1), false));
    reveal_strlit("instr");
    lemma_push_after(t, "initcap"@, spec_oracle_entry("instr", FuncCategory::Scalar, FuncDomain::String, 2, Some(4), false), 2);
    let t = t.push(spec_oracle_entry("instr", FuncCategory::Scalar, FuncDomain::String, 2, Some(4), false));
    assert(t == table_chunk_4_10(s));
}

pub open spec fn table_chunk_4_11(s: Seq<FuncMeta>) -> Seq<FuncMeta> {
    s
        .push(spec_oracle_entry("instrb", FuncCategory::Scalar, FuncDomain::String, 2, Some(4), false))
        .push(spec_oracle_entry("intervaltonum", FuncCategory::Scalar, FuncDomain::TypeConversion, 1, Some(1), false))
        .push(spec_core_entry("isfinite", FuncCategory::Scalar, FuncDomain::DateTime, 1, Some(1), false))
        .push(spec_oracle_entry("isfragment", FuncCategory::Scalar, FuncDomain::Xml, 1, Some(1), false))
        .push(spec_core_entry("json", FuncCategory::TypeConstructor, FuncDomain::Json, 0, Some(1), false))
        .push(spec_core_entry("json_agg", FuncCategory::Aggregate, FuncDomain::Json, 1, Some(1), true))
        .push(spec_core_entry("json_append", FuncCategory::Scalar, FuncDomain::Json, 2, None, false))
        .push(spec_commercial_entry("json_array", FuncCategory::Scalar, FuncDomain::Json, 0, None, false))
        .push(spec_core_entry("json_array_element", FuncCategory::Scalar, FuncDomain::Json, 2, Some(2), false))
        .push(spec_core_entry("json_array_element_text", FuncCategory::Scalar, FuncDomain::Json, 2, Some(2), false))
}

proof fn lemma_chunk_4_11(s: Seq<FuncMeta>)
    requires
        names_increasing(s),
        s.len() == 0 || chars_before(s.last().name@, "instrb"@),
    ensures
        names_increasing(table_chunk_4_11(s)),
        table_chunk_4_11(s).len() > 0,
        table_chunk_4_11(s).last().name@ == "json_array_element_text"@,
{
    let t = s;
    reveal_strlit("instrb");
    lemma_push_keeps_increasing(t, spec_oracle_entry("instrb", FuncCategory::Scalar, FuncDomain::String, 2, Some(4), false));
    let t = t.push(spec_oracle_entry("instrb", FuncCategory::Scalar, FuncDomain::String, 2, Some(4), false));
    reveal_strlit("intervaltonum");
    lemma_push_after(t, "instrb"@, spec_oracle_entry("intervaltonum", FuncCategory::Scalar, FuncDomain::TypeConversion, 1, Some(1), false), 2);
    let t = t.push(spec_oracle_entry("intervaltonum", FuncCategory::Scalar, FuncDomain::TypeConversion, 1, Some(1), false));
    reveal_strlit("isfinite");
    lemma_push_after(t, "intervaltonum"@, spec_core_entry("isfinite", FuncCategory::Scalar, FuncDomain::DateTime, 1, Some(1), false), 1);
    let t = t.push(spec_core_entry("isfinite", FuncCategory::Scalar, FuncDomain::DateTime, 1, Some(1), false));
    reveal_strlit("isfragment");
    lemma_push_after(t, "isfinite"@, spec_oracle_entry("isfragment", FuncCategory::Scalar, FuncDomain::Xml, 1, Some(1), false), 3);
    let t = t.push(spec_oracle_entry("isfragment", FuncCategory::Scalar, FuncDomain::Xml, 1, Some(1), false));
    reveal_strlit("json");
    lemma_push_after(t, "isfragment"@, spec_core_entry("json", FuncCategory::TypeConstructor, FuncDomain::Json, 0, Some(1), false), 0);
    let t = t.push(spec_core_entry("json", FuncCategory::TypeConstructor, FuncDomain::Json, 0, Some(1), false));
    reveal_strlit("json_agg");
    lemma_push_after(t, "json"@, spec_core_entry("json_agg", FuncCategory::Aggregate, FuncDomain::Json, 1, Some(1), true), 4);
    let t = t.push(spec_core_entry("json_agg", FuncCategory::Aggregate, FuncDomain::Json, 1, Some(1), true));
    reveal_strlit("json_append");
    lemma_push_after(t, "json_agg"@, spec_core_entry("json_append", FuncCategory::Scalar, FuncDomain::Json, 2, None, false), 6);
    let t = t.push(spec_core_entry("json_append", FuncCategory::Scalar, FuncDomain::Json, 2, None, false));
    reveal_strlit("json_array");
    lemma_push_after(t, "json_append"@, spec_commercial_entry("json_array", FuncCategory::Scalar, FuncDomain::Json, 0, None, false), 6);
    let t = t.push(spec_commercial_entry("json_array", FuncCategory::Scalar, FuncDomain::Json, 0, None, false));
    reveal_strlit("json_array_element");
    lemma_push_after(t, "json_array"@, spec_core_entry("json_array_element", FuncCategory::Scalar, FuncDomain::Json, 2, Some(2), false), 10);
    let t = t.push(spec_core_entry("json_array_element", FuncCategory::Scalar, FuncDomain::Json, 2, Some(2), false));
    reveal_strlit("json_array_element_text");
    lemma_push_after(t, "json_array_element"@, spec_core_entry("json_array_element_text", FuncCategory::Scalar, FuncDomain::Json, 2, Some(2), false), 18);
    let t = t.push(spec_core_entry("json_array_element_text", FuncCategory::Scalar, FuncDomain::Json, 2, Some(2), false));
    assert(t == table_chunk_4_11(s));
}

pub open spec fn table_chunk_4_12(s: Seq<FuncMeta>) -> Seq<FuncMeta> {
    s
        .push(spec_core_entry("json_array_elements", FuncCategory::SetReturning, FuncDomain::Json, 1, Some(1), false))
        .push(spec_core_entry("json_array_length", FuncCategory::Scalar, FuncDomain::Json, 1, Some(1), false))
        .push(spec_core_entry("json_build_array", FuncCategory::Scalar, FuncDomain::Json, 0, None, false))
        .push(spec_core_entry("json_build_object", FuncCategory::Scalar, FuncDomain::Json, 0, None, false))
        .push(spec_commercial_entry("json_contains", FuncCategory::Scalar, FuncDomain::Json, 2, Some(3), false))
}

proof fn lemma_chunk_4_12(s: Seq<FuncMeta>)
    requires
        names_increasing(s),
        s.len() == 0 || chars_before(s.last().name@, "json_array_elements"@),
    ensures
        names_increasing(table_chunk_4_12(s)),
        table_chunk_4_12(s).len() > 0,
        table_chunk_4_12(s).last().name@ == "json_contains"@,
{
    let t = s;
    reveal_strlit("json_array_elements");
    lemma_push_keeps_increasing(t, spec_core_entry("json_array_elements", FuncCategory::SetReturning, FuncDomain::Json, 1, Some(1), false));
    let t = t.push(spec_core_entry("json_array_elements", FuncCategory::SetReturning, FuncDomain::Json, 1, Some(1), false));
    reveal_strlit("json_array_length");
    lemma_push_after(t, "json_array_elements"@, spec_core_entry("json_array_length", FuncCategory::Scalar, FuncDomain::Json, 1, Some(1), false), 11);
    let t = t.push(spec_core_entry("json_array_length", FuncCategory::Scalar, FuncDomain::Json, 1, Some(1), false));
    reveal_strlit("json_build_array");
    lemma_push_after(t, "json_array_length"@, spec_core_entry("json_build_array", FuncCategory::Scalar, FuncDomain::Json, 0, None, false), 5);
    let t = t.push(spec_core_entry("json_build_array", FuncCategory::Scalar, FuncDomain::Json, 0, None, false));
    reveal_strlit("json_build_object");
    lemma_push_after(t, "json_build_array"@, spec_core_entry("json_build_object", FuncCategory::Scalar, FuncDomain::Json, 0, None, false), 11);
    let t = t.push(spec_core_entry("json_build_object", FuncCategory::Scalar, FuncDomain::Json, 0, None, false));
    reveal_strlit("json_contains");
    lemma_push_after(t, "json_build_object"@, spec_commercial_entry("json_contains", FuncCategory::Scalar, FuncDomain::Json, 2, Some(3), false), 5);
    let t = t.push(spec_commercial_entry("json_contains", FuncCategory::Scalar, FuncDomain::Json, 2, Some(3), false));
    assert(t == table_chunk_4_12(s));
}

proof fn lemma_part_4_increasing(s: Seq<FuncMeta>)
    requires
        names_increasing(s),
        s.len() == 0 || chars_before(s.last().name@, "dbe_xmldom.getattribute"@),
    ensures
        names_increasing(table_part_4(s)),
        table_part_4(s).len() > 0,
        table_part_4(s).last().name@ == "json_contains"@,
{
    lemma_chunk_4_0(s);
    let t0 = table_chunk_4_0(s);
    reveal_strlit("dbe_xmldom.getnameditem");
    reveal_strlit("dbe_xmldom.getnextsibling");
    lemma_chars_before_at("dbe_xmldom.getnameditem"@, "dbe_xmldom.getnextsibling"@, 15);
    lemma_chunk_4_1(t0);
    let t1 = table_chunk_4_1(t0);
    reveal_strlit("dbe_xmldom.item");
    reveal_strlit("dbe_xmldom.makeelement");
    lemma_chars_before_at("dbe_xmldom.item"@, "dbe_xmldom.makeelement"@, 11);
    lemma_chunk_4_2(t1);
    let t2 = table_chunk_4_2(t1);
    reveal_strlit("dbe_xmlparser.freeparser");
    reveal_strlit("dbe_xmlparser.getdocument");
    lemma_chars_before_at("dbe_xmlparser.freeparser"@, "dbe_xmlparser.getdocument"@, 14);
    lemma_chunk_4_3(t2);
    let t3 = table_chunk_4_3(t2);
    reveal_strlit("dbms_lob.write");
    reveal_strlit("dbms_output.disable");
    lemma_chars_before_at("dbms_lob.write"@, "dbms_output.disable"@, 5);
    lemma_chunk_4_4(t3);
    let t4 = table_chunk_4_4(t3);
    reveal_strlit("dbms_sql.execute");
    reveal_strlit("dbms_sql.fetch_rows");
    lemma_chars_before_at("dbms_sql.execute"@, "dbms_sql.fetch_rows"@, 9);
    lemma_chunk_4_5(t4);
    let t5 = table_chunk_4_5(t4);
    reveal_strlit("div");
    reveal_strlit("dump");
    lemma_chars_before_at("div"@, "dump"@, 1);
    lemma_chunk_4_6(t5);
    let t6 = table_chunk_4_6(t5);
    reveal_strlit("extractxml");
    reveal_strlit("factorial");
    lemma_chars_before_at("extractxml"@, "factorial"@, 0);
    lemma_chunk_4_7(t6);
    let t7 = table_chunk_4_7(t6);
    reveal_strlit("gcd");
    reveal_strlit("gen_random_uuid");
    lemma_chars_before_at("gcd"@, "gen_random_uuid"@, 1);
    lemma_chunk_4_8(t7);
    let t8 = table_chunk_4_8(t7);
    reveal_strlit("getnumberval");
    reveal_strlit("getrootelement");
    lemma_chars_before_at("getnumberval"@, "getrootelement"@, 3);
    lemma_chunk_4_9(t8);
    let t9 = table_chunk_4_9(t8);
    reveal_strlit("has_table_privilege");
    reveal_strlit("hextoraw");
    lemma_chars_before_at("has_table_privilege"@, "hextoraw"@, 1);
    lemma_chunk_4_10(t9);
    let t10 = table_chunk_4_10(t9);
    reveal_strlit("instr");
    reveal_strlit("instrb");
    lemma_chars_before_at("instr"@, "instrb"@, 5);
    lemma_chunk_4_11(t10);
    let t11 = table_chunk_4_11(t10);
    reveal_strlit("json_array_element_text");
    reveal_strlit("json_array_elements");
    lemma_chars_before_at("json_array_element_text"@, "json_array_elements"@, 18);
    lemma_chunk_4_12(t11);
    let t12 = table_chunk_4_12(t11);
    assert(t12 == table_part_4(s));
}

pub open spec fn table_chunk_5_0(s: Seq<FuncMeta>) -> Seq<FuncMeta> {
    s
        .push(spec_commercial_entry("json_contains_path", FuncCategory::Scalar, FuncDomain::Json, 2, Some(3), false))
        .push(spec_commercial_entry("json_depth", FuncCategory::Scalar, FuncDomain::Json, 1, Some(1), false))
        .push(spec_core_entry("json_each", FuncCategory::SetReturning, FuncDomain::Json, 1, Some(1), false))
        .push(spec_core_entry("json_each_text", FuncCategory::SetReturning, FuncDomain::Json, 1, Some(1), false))
        .push(spec_core_entry("json_extract_path", FuncCategory::Scalar, FuncDomain::Json, 1, None, false))
        .push(spec_core_entry("json_extract_path_text", FuncCategory::Scalar, FuncDomain::Json, 1, None, false))
        .push(spec_commercial_entry("json_keys", FuncCategory::Scalar, FuncDomain::Json, 1, Some(2), false))
        .push(spec_commercial_entry("json_length", FuncCategory::Scalar, FuncDomain::Json, 1, Some(2), false))
        .push(spec_commercial_entry("json_merge", FuncCategory::Scalar, FuncDomain::Json, 2, None, false))
        .push(spec_core_entry("json_object", FuncCategory::Scalar, FuncDomain::Json, 1, None, true))
}

proof fn lemma_chunk_5_0(s: Seq<FuncMeta>)
    requires
        names_increasing(s),
        s.len() == 0 || chars_before(s.last().name@, "json_contains_path"@),
    ensures
        names_increasing(table_chunk_5_0(s)),
        table_chunk_5_0(s).len() > 0,
        table_chunk_5_0(s).last().name@ == "json_object"@,
{
    let t = s;
    reveal_strlit("json_contains_path");
    lemma_push_keeps_increasing(t, spec_commercial_entry("json_contains_path", FuncCategory::Scalar, FuncDomain::Json, 2, Some(3), false));
    let t = t.push(spec_commercial_entry("json_contains_path", FuncCategory::Scalar, FuncDomain::Json, 2, Some(3), false));
    reveal_strlit("json_depth");
    lemma_push_after(t, "json_contains_path"@, spec_commercial_entry("json_depth", FuncCategory::Scalar, FuncDomain::Json, 1, Some(1), false), 5);
    let t = t.push(spec_commercial_entry("json_depth", FuncCategory::Scalar, FuncDomain::Json, 1, Some(1), false));
    reveal_strlit("json_each");
    lemma_push_after(t, "json_depth"@, spec_core_entry("json_each", FuncCategory::SetReturning, FuncDomain::Json, 1, Some(1), false), 5);
    let t = t.push(spec_core_entry("json_each", FuncCategory::SetReturning, FuncDomain::Json, 1, Some(1), false));
    reveal_strlit("json_each_text");
    lemma_push_after(t, "json_each"@, spec_core_entry("json_each_text", FuncCategory::SetReturning, FuncDomain::Json, 1, Some(1), false), 9);
    let t = t.push(spec_core_entry("json_each_text", FuncCategory::SetReturning, FuncDomain::Json, 1, Some(1), false));
    reveal_strlit("json_extract_path");
    lemma_push_after(t, "json_each_text"@, spec_core_entry("json_extract_path", FuncCategory::Scalar, FuncDomain::Json, 1, None, false), 6);
    let t = t.push(spec_core_entry("json_extract_path", FuncCategory::Scalar, FuncDomain::Json, 1, None, false));
    reveal_strlit("json_extract_path_text");
    lemma_push_after(t, "json_extract_path"@, spec_core_entry("json_extract_path_text", FuncCategory::Scalar, FuncDomain::Json, 1, None, false), 17);
    let t = t.push(spec_core_entry("json_extract_path_text", FuncCategory::Scalar, FuncDomain::Json, 1, None, false));
    reveal_strlit("json_keys");
    lemma_push_after(t, "json_extract_path_text"@, spec_commercial_entry("json_keys", FuncCategory::Scalar, FuncDomain::Json, 1, Some(2), false), 5);
    let t = t.push(spec_commercial_entry("json_keys", FuncCategory::Scalar, FuncDomain::Json, 1, Some(2), false));
    reveal_strlit("json_length");
    lemma_push_after(t, "json_keys"@, spec_commercial_entry("json_length", FuncCategory::Scalar, FuncDomain::Json, 1, Some(2), false), 5);
    let t = t.push(spec_commercial_entry("json_length", FuncCategory::Scalar, FuncDomain::Json, 1, Some(2), false));
    reveal_strlit("json_merge");
    lemma_push_after(t, "json_length"@, spec_commercial_entry("json_merge", FuncCategory::Scalar, FuncDomain::Json, 2, None, false), 5);
    let t = t.push(spec_commercial_entry("json_merge", FuncCategory::Scalar, FuncDomain::Json, 2, None, false));
    reveal_strlit("json_object");
    lemma_push_after(t, "json_merge"@, spec_core_entry("json_object", FuncCategory::Scalar, FuncDomain::Json, 1, None, true), 5);
    let t = t.push(spec_core_entry("json_object", FuncCategory::Scalar, FuncDomain::Json, 1, None, true));
    assert(t == table_chunk_5_0(s));
}

pub open spec fn table_chunk_5_1(s: Seq<FuncMeta>) -> Seq<FuncMeta> {
    s
        .push(spec_core_entry("json_object_agg", FuncCategory::Aggregate, FuncDomain::Json, 2, Some(2), true))
        .push(spec_core_entry("json_object_field", FuncCategory::Scalar, FuncDomain::Json, 2, Some(2), false))
        .push(spec_core_entry("json_object_field_text", FuncCategory::Scalar, FuncDomain::Json, 2, Some(2), false))
        .push(spec_core_entry("json_object_keys", FuncCategory::SetReturning, FuncDomain::Json, 1, Some(1), false))
        .push(spec_commercial_entry("json_quote", FuncCategory::Scalar, FuncDomain::Json, 1, Some(1), false))
        .push(spec_commercial_entry("json_remove", FuncCategory::Scalar, FuncDomain::Json, 2, Some(2), false))
        .push(spec_commercial_entry("json_replace", FuncCategory::Scalar, FuncDomain::Json, 2, Some(2), false))
        .push(spec_commercial_entry("json_search", FuncCategory::Scalar, FuncDomain::Json, 2, Some(4), false))
        .push(spec_commercial_entry("json_set", FuncCategory::Scalar, FuncDomain::Json, 2, Some(2), false))
        .push(spec_commercial_entry("json_type", FuncCategory::Scalar, FuncDomain::Json, 1, Some(1), false))
}

proof fn lemma_chunk_5_1(s: Seq<FuncMeta>)
    requires
        names_increasing(s),
        s.len() == 0 || chars_before(s.last().name@, "json_object_agg"@),
    ensures
        names_increasing(table_chunk_5_1(s)),
        table_chunk_5_1(s).len() > 0,
        table_chunk_5_1(s).last().name@ == "json_type"@,
{
    let t = s;
    reveal_strlit("json_object_agg");
    lemma_push_keeps_increasing(t, spec_core_entry("json_object_agg", FuncCategory::Aggregate, FuncDomain::Json, 2, Some(2), true));
    let t = t.push(spec_core_entry("json_object_agg", FuncCategory::Aggregate, FuncDomain::Json, 2, Some(2), true));
    reveal_strlit("json_object_field");
    lemma_push_after(t, "json_object_agg"@, spec_core_entry("json_object_field", FuncCategory::Scalar, FuncDomain::Json, 2, Some(2), false), 12);
    let t = t.push(spec_core_entry("json_object_field", FuncCategory::Scalar, FuncDomain::Json, 2, Some(2), false));
    reveal_strlit("json_object_field_text");
    lemma_push_after(t, "json_object_field"@, spec_core_entry("json_object_field_text", FuncCategory::Scalar, FuncDomain::Json, 2, Some(2), false), 17);
    let t = t.push(spec_core_entry("json_object_field_text", FuncCategory::Scalar, FuncDomain::Json, 2, Some(2), false));
    reveal_strlit("json_object_keys");
    lemma_push_after(t, "json_object_field_text"@, spec_core_entry("json_object_keys", FuncCategory::SetReturning, FuncDomain::Json, 1, Some(1), false), 12);
    let t = t.push(spec_core_entry("json_object_keys", FuncCategory::SetReturning, FuncDomain::Json, 1, Some(1), false));
    reveal_strlit("json_quote");
    lemma_push_after(t, "json_object_keys"@, spec_commercial_entry("json_quote", FuncCategory::Scalar, FuncDomain::Json, 1, Some(1), false), 5);
    let t = t.push(spec_commercial_entry("json_quote", FuncCategory::Scalar, FuncDomain::Json, 1, Some(1), false));
    reveal_strlit("json_remove");
    lemma_push_after(t, "json_quote"@, spec_commercial_entry("json_remove", FuncCategory::Scalar, FuncDomain::Json, 2, Some(2), false), 5);
    let t = t.push(spec_commercial_entry("json_remove", FuncCategory::Scalar, FuncDomain::Json, 2, Some(2), false));
    reveal_strlit("json_replace");
    lemma_push_after(t, "json_remove"@, spec_commercial_entry("json_replace", FuncCategory::Scalar, FuncDomain::Json, 2, Some(2), false), 7);
    let t = t.push(spec_commercial_entry("json_replace", FuncCategory::Scalar, FuncDomain::Json, 2, Some(2), false));
    reveal_strlit("json_search");
    lemma_push_after(t, "json_replace"@, spec_commercial_entry("json_search", FuncCategory::Scalar, FuncDomain::Json, 2, Some(4), false), 5);
    let t = t.push(spec_commercial_entry("json_search", FuncCategory::Scalar, FuncDomain::Json, 2, Some(4), false));
    reveal_strlit("json_set");
    lemma_push_after(t, "json_search"@, spec_commercial_entry("json_set", FuncCategory::Scalar, FuncDomain::Json, 2, Some(2), false), 7);
    let t = t.push(spec_commercial_entry("json_set", FuncCategory::Scalar, FuncDomain::Json, 2, Some(2), false));
    reveal_strlit("json_type");
    lemma_push_after(t, "json_set"@, spec_commercial_entry("json_type", FuncCategory::Scalar, FuncDomain::Json, 1, Some(1), false), 5);
    let t = t.push(spec_commercial_entry("json_type", FuncCategory::Scalar, FuncDomain::Json, 1, Some(1), false));
    assert(t == table_chunk_5_1(s));
}

pub open spec fn table_chunk_5_2(s: Seq<FuncMeta>) -> Seq<FuncMeta> {
    s
        .push(spec_core_entry("json_typeof", FuncCategory::Scalar, FuncDomain::Json, 1, Some(1), false))
        .push(spec_commercial_entry("json_unquote", FuncCategory::Scalar, FuncDomain::Json, 1, Some(1), false))
        .push(spec_commercial_entry("json_valid", FuncCategory::Scalar, FuncDomain::Json, 1, Some(1), false))
        .push(spec_core_entry("jsonb_agg", FuncCategory::Aggregate, FuncDomain::Json, 1, Some(1), true))
        .push(spec_core_entry("jsonb_array_elements", FuncCategory::SetReturning, FuncDomain::Json, 1, Some(1), false))
        .push(spec_core_entry("jsonb_array_length", FuncCategory::Scalar, FuncDomain::Json, 1, Some(1), false))
        .push(spec_core_entry("jsonb_build_array", FuncCategory::Scalar, FuncDomain::Json, 0, None, true))
        .push(spec_core_entry("jsonb_build_object", FuncCategory::Scalar, FuncDomain::Json, 0, None, true))
        .push(spec_core_entry("jsonb_cmp", FuncCategory::Scalar, FuncDomain::Json, 2, Some(2), false))
        .push(spec_core_entry("jsonb_contained", FuncCategory::Scalar, FuncDomain::Json, 2, Some(2), false))
}

proof fn lemma_chunk_5_2(s: Seq<FuncMeta>)
    requires
        names_increasing(s),
        s.len() == 0 || chars_before(s.last().name@, "json_typeof"@),
    ensures
        names_increasing(table_chunk_5_2(s)),
        table_chunk_5_2(s).len() > 0,
        table_chunk_5_2(s).last().name@ == "jsonb_contained"@,
{
    let t = s;
    reveal_strlit("json_typeof");
    lemma_push_keeps_increasing(t, spec_core_entry("json_typeof", FuncCategory::Scalar, FuncDomain::Json, 1, Some(1), false));
    let t = t.push(spec_core_entry("json_typeof", FuncCategory::Scalar, FuncDomain::Json, 1, Some(1), false));
    reveal_strlit("json_unquote");
    lemma_push_after(t, "json_typeof"@, spec_commercial_entry("json_unquote", FuncCategory::Scalar, FuncDomain::Json, 1, Some(1), false), 5);
    let t = t.push(spec_commercial_entry("json_unquote", FuncCategory::Scalar, FuncDomain::Json, 1, Some(1), false));
    reveal_strlit("json_valid");
    lemma_push_after(t, "json_unquote"@, spec_commercial_entry("json_valid", FuncCategory::Scalar, FuncDomain::Json, 1, Some(1), false), 5);
    let t = t.push(spec_commercial_entry("json_valid", FuncCategory::Scalar, FuncDomain::Json, 1, Some(1), false));
    reveal_strlit("jsonb_agg");
    lemma_push_after(t, "json_valid"@, spec_core_entry("jsonb_agg", FuncCategory::Aggregate, FuncDomain::Json, 1, Some(1), true), 4);
    let t = t.push(spec_core_entry("jsonb_agg", FuncCategory::Aggregate, FuncDomain::Json, 1, Some(1), true));
    reveal_strlit("jsonb_array_elements");
    lemma_push_after(t, "jsonb_agg"@, spec_core_entry("jsonb_array_elements", FuncCategory::SetReturning, FuncDomain::Json, 1, Some(1), false), 7);
    let t = t.push(spec_core_entry("jsonb_array_elements", FuncCategory::SetReturning, FuncDomain::Json, 1, Some(1), false));
    reveal_strlit("jsonb_array_length");
    lemma_push_after(t, "jsonb_array_elements"@, spec_core_entry("jsonb_array_length", FuncCategory::Scalar, FuncDomain::Json, 1, Some(1), false), 12);
    let t = t.push(spec_core_entry("jsonb_array_length", FuncCategory::Scalar, FuncDomain::Json, 1, Some(1), false));
    reveal_strlit("jsonb_build_array");
    lemma_push_after(t, "jsonb_array_length"@, spec_core_entry("jsonb_build_array", FuncCategory::Scalar, FuncDomain::Json, 0, None, true), 6);
    let t = t.push(spec_core_entry("jsonb_build_array", FuncCategory::Scalar, FuncDomain::Json, 0, None, true));
    reveal_strlit("jsonb_build_object");
    lemma_push_after(t, "jsonb_build_array"@, spec_core_entry("jsonb_build_object", FuncCategory::Scalar, FuncDomain::Json, 0, None, true), 12);
    let t = t.push(spec_core_entry("jsonb_build_object", FuncCategory::Scalar, FuncDomain::Json, 0, None, true));
    reveal_strlit("jsonb_cmp");
    lemma_push_after(t, "jsonb_build_object"@, spec_core_entry("jsonb_cmp", FuncCategory::Scalar, FuncDomain::Json, 2, Some(2), false), 6);
    let t = t.push(spec_core_entry("jsonb_cmp", FuncCategory::Scalar, FuncDomain::Json, 2, Some(2), false));
    reveal_strlit("jsonb_contained");
    lemma_push_after(t, "jsonb_cmp"@, spec_core_entry("jsonb_contained", FuncCategory::Scalar, FuncDomain::Json, 2, Some(2), false), 7);
    let t = t.push(spec_core_entry("jsonb_contained", FuncCategory::Scalar, FuncDomain::Json, 2, Some(2), false));
    assert(t == table_chunk_5_2(s));
}

pub open spec fn table_chunk_5_3(s: Seq<FuncMeta>) -> Seq<FuncMeta> {
    s
        .push(spec_core_entry("jsonb_contains", FuncCategory::Scalar, FuncDomain::Json, 2, Some(2), false))
        .push(spec_core_entry("jsonb_each", FuncCategory::SetReturning, FuncDomain::Json, 1, Some(1), false))
        .push(spec_core_entry("jsonb_each_text", FuncCategory::SetReturning, FuncDomain::Json, 1, Some(1), false))
        .push(spec_core_entry("jsonb_eq", FuncCategory::Scalar, FuncDomain::Json, 2, Some(2), false))
        .push(spec_core_entry("jsonb_exists", FuncCategory::Scalar, FuncDomain::Json, 2, Some(2), false))
        .push(spec_core_entry("jsonb_exists_all", FuncCategory::Scalar, FuncDomain::Json, 2, Some(2), false))
        .push(spec_core_entry("jsonb_exists_any", FuncCategory::Scalar, FuncDomain::Json, 2, Some(2), false))
        .push(spec_core_entry("jsonb_ge", FuncCategory::Scalar, FuncDomain::Json, 2, Some(2), false))
        .push(spec_core_entry("jsonb_gt", FuncCategory::Scalar, FuncDomain::Json, 2, Some(2), false))
        .push(spec_core_entry("jsonb_hash", FuncCategory::Scalar, FuncDomain::Json, 1, Some(1), false))
}

proof fn lemma_chunk_5_3(s: Seq<FuncMeta>)
    requires
        names_increasing(s),
        s.len() == 0 || chars_before(s.last().name@, "jsonb_contains"@),
    ensures
        names_increasing(table_chunk_5_3(s)),
        table_chunk_5_3(s).len() > 0,
        table_chunk_5_3(s).last().name@ == "jsonb_hash"@,
{
    let t = s;
    reveal_strlit("jsonb_contains");
    lemma_push_keeps_increasing(t, spec_core_entry("jsonb_contains", FuncCategory::Scalar, FuncDomain::Json, 2, Some(2), false));
    let t = t.push(spec_core_entry("jsonb_contains", FuncCategory::Scalar, FuncDomain::Json, 2, Some(2), false));
    reveal_strlit("jsonb_each");
    lemma_push_after(t, "jsonb_contains"@, spec_core_entry("jsonb_each", FuncCategory::SetReturning, FuncDomain::Json, 1, Some(1), false), 6);
    let t = t.push(spec_core_entry("jsonb_each", FuncCategory::SetReturning, FuncDomain::Json, 1, Some(1), false));
    reveal_strlit("jsonb_each_text");
    lemma_push_after(t, "jsonb_each"@, spec_core_entry("jsonb_each_text", FuncCategory::SetReturning, FuncDomain::Json, 1, Some(1), false), 10);
    let t = t.push(spec_core_entry("jsonb_each_text", FuncCategory::SetReturning, FuncDomain::Json, 1, Some(1), false));
    reveal_strlit("jsonb_eq");
    lemma_push_after(t, "jsonb_each_text"@, spec_core_entry("jsonb_eq", FuncCategory::Scalar, FuncDomain::Json, 2, Some(2), false), 7);
    let t = t.push(spec_core_entry("jsonb_eq", FuncCategory::Scalar, FuncDomain::Json, 2, Some(2), false));
    reveal_strlit("jsonb_exists");
    lemma_push_after(t, "jsonb_eq"@, spec_core_entry("jsonb_exists", FuncCategory::Scalar, FuncDomain::Json, 2, Some(2), false), 7);
    let t = t.push(spec_core_entry("jsonb_exists", FuncCategory::Scalar, FuncDomain::Json, 2, Some(2), false));
    reveal_strlit("jsonb_exists_all");
    lemma_push_after(t, "jsonb_exists"@, spec_core_entry("jsonb_exists_all", FuncCategory::Scalar, FuncDomain::Json, 2, Some(2), false), 12);
    let t = t.push(spec_core_entry("jsonb_exists_all", FuncCategory::Scalar, FuncDomain::Json, 2, Some(2), false));
    reveal_strlit("jsonb_exists_any");
    lemma_push_after(t, "jsonb_exists_all"@, spec_core_entry("jsonb_exists_any", FuncCategory::Scalar, FuncDomain::Json, 2, Some(2), false), 14);
    let t = t.push(spec_core_entry("jsonb_exists_any", FuncCategory::Scalar, FuncDomain::Json, 2, Some(2), false));
    reveal_strlit("jsonb_ge");
    lemma_push_after(t, "jsonb_exists_any"@, spec_core_entry("jsonb_ge", FuncCategory::Scalar, FuncDomain::Json, 2, Some(2), false), 6);
    let t = t.push(spec_core_entry("jsonb_ge", FuncCategory::Scalar, FuncDomain::Json, 2, Some(2), false));
    reveal_strlit("jsonb_gt");
    lemma_push_after(t, "jsonb_ge"@, spec_core_entry("jsonb_gt", FuncCategory::Scalar, FuncDomain::Json, 2, Some(2), false), 7);
    let t = t.push(spec_core_entry("jsonb_gt", FuncCategory::Scalar, FuncDomain::Json, 2, Some(2), false));
    reveal_strlit("jsonb_hash");
    lemma_push_after(t, "jsonb_gt"@, spec_core_entry("jsonb_hash", FuncCategory::Scalar, FuncDomain::Json, 1, Some(1), false), 6);
    let t = t.push(spec_core_entry("jsonb_hash", FuncCategory::Scalar, FuncDomain::Json, 1, Some(1), false));
    assert(t == table_chunk_5_3(s));
}

pub open spec fn table_chunk_5_4(s: Seq<FuncMeta>) -> Seq<FuncMeta> {
    s
        .push(spec_core_entry("jsonb_le", FuncCategory::Scalar, FuncDomain::Json, 2, Some(2), false))
        .push(spec_core_entry("jsonb_lt", FuncCategory::Scalar, FuncDomain::Json, 2, Some(2), false))
        .push(spec_core_entry("jsonb_ne", FuncCategory::Scalar, FuncDomain::Json, 2, Some(2), false))
        .push(spec_core_entry("jsonb_object_keys", FuncCategory::SetReturning, FuncDomain::Json, 1, Some(1), false))
        .push(spec_core_entry("jsonb_pretty", FuncCategory::Scalar, FuncDomain::Json, 1, Some(1), false))
        .push(spec_core_entry("jsonb_set", FuncCategory::Scalar, FuncDomain::Json, 3, Some(4), false))
        .push(spec_core_entry("jsonb_typeof", FuncCategory::Scalar, FuncDomain::Json, 1, Some(1), false))
        .push(spec_core_entry("justify_days", FuncCategory::Scalar, FuncDomain::DateTime, 1, Some(1), false))
        .push(spec_core_entry("justify_hours", FuncCategory::Scalar, FuncDomain::DateTime, 1, Some(1), false))
        .push(spec_core_entry("justify_interval", FuncCategory::Scalar, FuncDomain::DateTime, 1, Some(1), false))
}

proof fn lemma_chunk_5_4(s: Seq<FuncMeta>)
    requires
        names_increasing(s),
        s.len() == 0 || chars_before(s.last().name@, "jsonb_le"@),
    ensures
        names_increasing(table_chunk_5_4(s)),
        table_chunk_5_4(s).len() > 0,
        table_chunk_5_4(s).last().name@ == "justify_interval"@,
{
    let t = s;
    reveal_strlit("jsonb_le");
    lemma_push_keeps_increasing(t, spec_core_entry("jsonb_le", FuncCategory::Scalar, FuncDomain::Json, 2, Some(2), false));
    let t = t.push(spec_core_entry("jsonb_le", FuncCategory::Scalar, FuncDomain::Json, 2, Some(2), false));
    reveal_strlit("jsonb_lt");
    lemma_push_after(t, "jsonb_le"@, spec_core_entry("jsonb_lt", FuncCategory::Scalar, FuncDomain::Json, 2, Some(2), false), 7);
    let t = t.push(spec_core_entry("jsonb_lt", FuncCategory::Scalar, FuncDomain::Json, 2, Some(2), false));
    reveal_strlit("jsonb_ne");
    lemma_push_after(t, "jsonb_lt"@, spec_core_entry("jsonb_ne", FuncCategory::Scalar, FuncDomain::Json, 2, Some(2), false), 6);
    let t = t.push(spec_core_entry("jsonb_ne", FuncCategory::Scalar, FuncDomain::Json, 2, Some(2), false));
    reveal_strlit("jsonb_object_keys");
    lemma_push_after(t, "jsonb_ne"@, spec_core_entry("jsonb_object_keys", FuncCategory::SetReturning, FuncDomain::Json, 1, Some(1), false), 6);
    let t = t.push(spec_core_entry("jsonb_object_keys", FuncCategory::SetReturning, FuncDomain::Json, 1, Some(1), false));
    reveal_strlit("jsonb_pretty");
    lemma_push_after(t, "jsonb_object_keys"@, spec_core_entry("jsonb_pretty", FuncCategory::Scalar, FuncDomain::Json, 1, Some(1), false), 6);
    let t = t.push(spec_core_entry("jsonb_pretty", FuncCategory::Scalar, FuncDomain::Json, 1, Some(1), false));
    reveal_strlit("jsonb_set");
    lemma_push_after(t, "jsonb_pretty"@, spec_core_entry("jsonb_set", FuncCategory::Scalar, FuncDomain::Json, 3, Some(4), false), 6);
    let t = t.push(spec_core_entry("jsonb_set", FuncCategory::Scalar, FuncDomain::Json, 3, Some(4), false));
    reveal_strlit("jsonb_typeof");
    lemma_push_after(t, "jsonb_set"@, spec_core_entry("jsonb_typeof", FuncCategory::Scalar, FuncDomain::Json, 1, Some(1), false), 6);
    let t = t.push(spec_core_entry("jsonb_typeof", FuncCategory::Scalar, FuncDomain::Json, 1, Some(1), false));
    reveal_strlit("justify_days");
    lemma_push_after(t, "jsonb_typeof"@, spec_core_entry("justify_days", FuncCategory::Scalar, FuncDomain::DateTime, 1, Some(1), false), 1);
    let t = t.push(spec_core_entry("justify_days", FuncCategory::Scalar, FuncDomain::DateTime, 1, Some(1), false));
    reveal_strlit("justify_hours");
    lemma_push_after(t, "justify_days"@, spec_core_entry("justify_hours", FuncCategory::Scalar, FuncDomain::DateTime, 1, Some(1), false), 8);
    let t = t.push(spec_core_entry("justify_hours", FuncCategory::Scalar, FuncDomain::DateTime, 1, Some(1), false));
    reveal_strlit("justify_interval");
    lemma_push_after(t, "justify_hours"@, spec_core_entry("justify_interval", FuncCategory::Scalar, FuncDomain::DateTime, 1, Some(1), false), 8);
    let t = t.push(spec_core_entry("justify_interval", FuncCategory::Scalar, FuncDomain::DateTime, 1, Some(1), false));
    assert(t == table_chunk_5_4(s));
}

pub open spec fn table_chunk_5_5(s: Seq<FuncMeta>) -> Seq<FuncMeta> {
    s
        .push(spec_core_entry("lag", FuncCategory::Window, FuncDomain::Window, 1, Some(3), false))
        .push(spec_oracle_entry("last_day", FuncCategory::Scalar, FuncDomain::OracleCompat, 1, Some(1), false))
        .push(spec_core_entry("last_insert_id", FuncCategory::Scalar, FuncDomain::System, 0, Some(1), false))
        .push(spec_core_entry("last_value", FuncCategory::Window, FuncDomain::Window, 1, Some(1), false))
        .push(spec_core_entry("lastval", FuncCategory::Scalar, FuncDomain::System, 0, Some(0), false))
        .push(spec_core_entry("lcm", FuncCategory::Scalar, FuncDomain::Math, 2, Some(2), false))
        .push(spec_core_entry("lead", FuncCategory::Window, FuncDomain::Window, 1, Some(3), false))
        .push(spec_core_entry("least", FuncCategory::Special, FuncDomain::Other, 2, None, false))
        .push(spec_core_entry("left", FuncCategory::Scalar, FuncDomain::String, 2, Some(2), false))
        .push(spec_core_entry("length", FuncCategory::Scalar, FuncDomain::String, 1, Some(2), false))
}

proof fn lemma_chunk_5_5(s: Seq<FuncMeta>)
    requires
        names_increasing(s),
        s.len() == 0 || chars_before(s.last().name@, "lag"@),
    ensures
        names_increasing(table_chunk_5_5(s)),
        table_chunk_5_5(s).len() > 0,
        table_chunk_5_5(s).last().name@ == "length"@,
{
    let t = s;
    reveal_strlit("lag");
    lemma_push_keeps_increasing(t, spec_core_entry("lag", FuncCategory::Window, FuncDomain::Window, 1, Some(3), false));
    let t = t.push(spec_core_entry("lag", FuncCategory::Window, FuncDomain::Window, 1, Some(3), false));
    reveal_strlit("last_day");
    lemma_push_after(t, "lag"@, spec_oracle_entry("last_day", FuncCategory::Scalar, FuncDomain::OracleCompat, 1, Some(1), false), 2);
    let t = t.push(spec_oracle_entry("last_day", FuncCategory::Scalar, FuncDomain::OracleCompat, 1, Some(1), false));
    reveal_strlit("last_insert_id");
    lemma_push_after(t, "last_day"@, spec_core_entry("last_insert_id", FuncCategory::Scalar, FuncDomain::System, 0, Some(1), false), 5);
    let t = t.push(spec_core_entry("last_insert_id", FuncCategory::Scalar, FuncDomain::System, 0, Some(1), false));
    reveal_strlit("last_value");
    lemma_push_after(t, "last_insert_id"@, spec_core_entry("last_value", FuncCategory::Window, FuncDomain::Window, 1, Some(1), false), 5);
    let t = t.push(spec_core_entry("last_value", FuncCategory::Window, FuncDomain::Window, 1, Some(1), false));
    reveal_strlit("lastval");
    lemma_push_after(t, "last_value"@, spec_core_entry("lastval", FuncCategory::Scalar, FuncDomain::System, 0, Some(0), false), 4);
    let t = t.push(spec_core_entry("lastval", FuncCategory::Scalar, FuncDomain::System, 0, Some(0), false));
    reveal_strlit("lcm");
    lemma_push_after(t, "lastval"@, spec_core_entry("lcm", FuncCategory::Scalar, FuncDomain::Math, 2, Some(2), false), 1);
    let t = t.push(spec_core_entry("lcm", FuncCategory::Scalar, FuncDomain::Math, 2, Some(2), false));
    reveal_strlit("lead");
    lemma_push_after(t, "lcm"@, spec_core_entry("lead", FuncCategory::Window, FuncDomain::Window, 1, Some(3), false), 1);
    let t = t.push(spec_core_entry("lead", FuncCategory::Window, FuncDomain::Window, 1, Some(3), false));
    reveal_strlit("least");
    lemma_push_after(t, "lead"@, spec_core_entry("least", FuncCategory::Special, FuncDomain::Other, 2, None, false), 3);
    let t = t.push(spec_core_entry("least", FuncCategory::Special, FuncDomain::Other, 2, None, false));
    reveal_strlit("left");
    lemma_push_after(t, "least"@, spec_core_entry("left", FuncCategory::Scalar, FuncDomain::String, 2, Some(2), false), 2);
    let t = t.push(spec_core_entry("left", FuncCategory::Scalar, FuncDomain::String, 2, Some(2), false));
    reveal_strlit("length");
    lemma_push_after(t, "left"@, spec_core_entry("length", FuncCategory::Scalar, FuncDomain::String, 1, Some(2), false), 2);
    let t = t.push(spec_core_entry("length", FuncCategory::Scalar, FuncDomain::String, 1, Some(2), false));
    assert(t == table_chunk_5_5(s));
}

pub open spec fn table_chunk_5_6(s: Seq<FuncMeta>) -> Seq<FuncMeta> {
    s
        .push(spec_core_entry("lengthb", FuncCategory::Scalar, FuncDomain::String, 1, Some(1), false))
        .push(spec_oracle_entry("listagg", FuncCategory::Aggregate, FuncDomain::String, 1, Some(2), true))
        .push(spec_core_entry("ln", FuncCategory::Scalar, FuncDomain::Math, 1, Some(1), false))
        .push(spec_core_entry("localtime", FuncCategory::Scalar, FuncDomain::DateTime, 0, Some(1), false))
        .push(spec_core_entry("localtimestamp", FuncCategory::Scalar, FuncDomain::DateTime, 0, Some(1), false))
        .push(spec_core_entry("log", FuncCategory::Scalar, FuncDomain::Math, 1, Some(2), false))
        .push(spec_core_entry("log10", FuncCategory::Scalar, FuncDomain::Math, 1, Some(1), false))
        .push(spec_core_entry("lower", FuncCategory::Scalar, FuncDomain::String, 1, Some(1), false))
        .push(spec_core_entry("lpad", FuncCategory::Scalar, FuncDomain::String, 2, Some(3), false))
        .push(spec_core_entry("ltrim", FuncCategory::Scalar, FuncDomain::String, 1, Some(2), false))
}

proof fn lemma_chunk_5_6(s: Seq<FuncMeta>)
    requires
        names_increasing(s),
        s.len() == 0 || chars_before(s.last().name@, "lengthb"@),
    ensures
        names_increasing(table_chunk_5_6(s)),
        table_chunk_5_6(s).len() > 0,
        table_chunk_5_6(s).last().name@ == "ltrim"@,
{
    let t = s;
    reveal_strlit("lengthb");
    lemma_push_keeps_increasing(t, spec_core_entry("lengthb", FuncCategory::Scalar, FuncDomain::String, 1, Some(1), false));
    let t = t.push(spec_core_entry("lengthb", FuncCategory::Scalar, FuncDomain::String, 1, Some(1), false));
    reveal_strlit("listagg");
    lemma_push_after(t, "lengthb"@, spec_oracle_entry("listagg", FuncCategory::Aggregate, FuncDomain::String, 1, Some(2), true), 1);
    let t = t.push(spec_oracle_entry("listagg", FuncCategory::Aggregate, FuncDomain::String, 1, Some(2), true));
    reveal_strlit("ln");
    lemma_push_after(t, "listagg"@, spec_core_entry("ln", FuncCategory::Scalar, FuncDomain::Math, 1, Some(1), false), 1);
    let t = t.push(spec_core_entry("ln", FuncCategory::Scalar, FuncDomain::Math, 1, Some(1), false));
    reveal_strlit("localtime");
    lemma_push_after(t, "ln"@, spec_core_entry("localtime", FuncCategory::Scalar, FuncDomain::DateTime, 0, Some(1), false), 1);
    let t = t.push(spec_core_entry("localtime", FuncCategory::Scalar, FuncDomain::DateTime, 0, Some(1), false));
    reveal_strlit("localtimestamp");
    lemma_push_after(t, "localtime"@, spec_core_entry("localtimestamp", FuncCategory::Scalar, FuncDomain::DateTime, 0, Some(1), false), 9);
    let t = t.push(spec_core_entry("localtimestamp", FuncCategory::Scalar, FuncDomain::DateTime, 0, Some(1), false));
    reveal_strlit("log");
    lemma_push_after(t, "localtimestamp"@, spec_core_entry("log", FuncCategory::Scalar, FuncDomain::Math, 1, Some(2), false), 2);
    let t = t.push(spec_core_entry("log", FuncCategory::Scalar, FuncDomain::Math, 1, Some(2), false));
    reveal_strlit("log10");
    lemma_push_after(t, "log"@, spec_core_entry("log10", FuncCategory::Scalar, FuncDomain::Math, 1, Some(1), false), 3);
    let t = t.push(spec_core_entry("log10", FuncCategory::Scalar, FuncDomain::Math, 1, Some(1), false));
    reveal_strlit("lower");
    lemma_push_after(t, "log10"@, spec_core_entry("lower", FuncCategory::Scalar, FuncDomain::String, 1, Some(1), false), 2);
    let t = t.push(spec_core_entry("lower", FuncCategory::Scalar, FuncDomain::String, 1, Some(1), false));
    reveal_strlit("lpad");
    lemma_push_after(t, "lower"@, spec_core_entry("lpad", FuncCategory::Scalar, FuncDomain::String, 2, Some(3), false), 1);
    let t = t.push(spec_core_entry("lpad", FuncCategory::Scalar, FuncDomain::String, 2, Some(3), false));
    reveal_strlit("ltrim");
    lemma_push_after(t, "lpad"@, spec_core_entry("ltrim", FuncCategory::Scalar, FuncDomain::String, 1, Some(2), false), 1);
    let t = t.push(spec_core_entry("ltrim", FuncCategory::Scalar, FuncDomain::String, 1, Some(2), false));
    assert(t == table_chunk_5_6(s));
}

pub open spec fn table_chunk_5_7(s: Seq<FuncMeta>) -> Seq<FuncMeta> {
    s
        .push(spec_core_entry("make_date", FuncCategory::Scalar, FuncDomain::DateTime, 3, Some(3), false))
        .push(spec_core_entry("make_time", FuncCategory::Scalar, FuncDomain::DateTime, 3, Some(3), false))
        .push(spec_core_entry("make_timestamp", FuncCategory::Scalar, FuncDomain::DateTime, 6, Some(6), false))
        .push(spec_core_entry("make_timestamptz", FuncCategory::Scalar, FuncDomain::DateTime, 6, Some(7), false))
        .push(spec_commercial_entry("makedate", FuncCategory::Scalar, FuncDomain::DateTime, 2, Some(2), false))
        .push(spec_commercial_entry("maketime", FuncCategory::Scalar, FuncDomain::DateTime, 3, Some(3), false))
        .push(spec_core_entry("masklen", FuncCategory::Scalar, FuncDomain::Network, 1, Some(1), false))
        .push(spec_core_entry("max", FuncCategory::Aggregate, FuncDomain::Aggregate, 1, Some(1), true))
        .push(spec_core_entry("md5", FuncCategory::Scalar, FuncDomain::Crypto, 1, Some(2), false))
        .push(spec_core_entry("median", FuncCategory::Aggregate, FuncDomain::Aggregate, 1, Some(1), true))
}

proof fn lemma_chunk_5_7(s: Seq<FuncMeta>)
    requires
        names_increasing(s),
        s.len() == 0 || chars_before(s.last().name@, "make_date"@),
    ensures
        names_increasing(table_chunk_5_7(s)),
        table_chunk_5_7(s).len() > 0,
        table_chunk_5_7(s).last().name@ == "median"@,
{
    let t = s;
    reveal_strlit("make_date");
    lemma_push_keeps_increasing(t, spec_core_entry("make_date", FuncCategory::Scalar, FuncDomain::DateTime, 3, Some(3), false));
    let t = t.push(spec_core_entry("make_date", FuncCategory::Scalar, FuncDomain::DateTime, 3, Some(3), false));
    reveal_strlit("make_time");
    lemma_push_after(t, "make_date"@, spec_core_entry("make_time", FuncCategory::Scalar, FuncDomain::DateTime, 3, Some(3), false), 5);
    let t = t.push(spec_core_entry("make_time", FuncCategory::Scalar, FuncDomain::DateTime, 3, Some(3), false));
    reveal_strlit("make_timestamp");
    lemma_push_after(t, "make_time"@, spec_core_entry("make_timestamp", FuncCategory::Scalar, FuncDomain::DateTime, 6, Some(6), false), 9);
    let t = t.push(spec_core_entry("make_timestamp", FuncCategory::Scalar, FuncDomain::DateTime, 6, Some(6), false));
    reveal_strlit("make_timestamptz");
    lemma_push_after(t, "make_timestamp"@, spec_core_entry("make_timestamptz", FuncCategory::Scalar, FuncDomain::DateTime, 6, Some(7), false), 14);
    let t = t.push(spec_core_entry("make_timestamptz", FuncCategory::Scalar, FuncDomain::DateTime, 6, Some(7), false));
    reveal_strlit("makedate");
    lemma_push_after(t, "make_timestamptz"@, spec_commercial_entry("makedate", FuncCategory::Scalar, FuncDomain::DateTime, 2, Some(2), false), 4);
    let t = t.push(spec_commercial_entry("makedate", FuncCategory::Scalar, FuncDomain::DateTime, 2, Some(2), false));
    reveal_strlit("maketime");
    lemma_push_after(t, "makedate"@, spec_commercial_entry("maketime", FuncCategory::Scalar, FuncDomain::DateTime, 3, Some(3), false), 4);
    let t = t.push(spec_commercial_entry("maketime", FuncCategory::Scalar, FuncDomain::DateTime, 3, Some(3), false));
    reveal_strlit("masklen");
    lemma_push_after(t, "maketime"@, spec_core_entry("masklen", FuncCategory::Scalar, FuncDomain::Network, 1, Some(1), false), 2);
    let t = t.push(spec_core_entry("masklen", FuncCategory::Scalar, FuncDomain::Network, 1, Some(1), false));
    reveal_strlit("max");
    lemma_push_after(t, "masklen"@, spec_core_entry("max", FuncCategory::Aggregate, FuncDomain::Aggregate, 1, Some(1), true), 2);
    let t = t.push(spec_core_entry("max", FuncCategory::Aggregate, FuncDomain::Aggregate, 1, Some(1), true));
    reveal_strlit("md5");
    lemma_push_after(t, "max"@, spec_core_entry("md5", FuncCategory::Scalar, FuncDomain::Crypto, 1, Some(2), false), 1);
    let t = t.push(spec_core_entry("md5", FuncCategory::Scalar, FuncDomain::Crypto, 1, Some(2), false));
    reveal_strlit("median");
    lemma_push_after(t, "md5"@, spec_core_entry("median", FuncCategory::Aggregate, FuncDomain::Aggregate, 1, Some(1), true), 1);
    let t = t.push(spec_core_entry("median", FuncCategory::Aggregate, FuncDomain::Aggregate, 1, Some(1), true));
    assert(t == table_chunk_5_7(s));
}

pub open spec fn table_chunk_5_8(s: Seq<FuncMeta>) -> Seq<FuncMeta> {
    s
        .push(spec_core_entry("min", FuncCategory::Aggregate, FuncDomain::Aggregate, 1, Some(1), true))
        .push(spec_core_entry("mod", FuncCategory::Scalar, FuncDomain::Math, 2, Some(2), false))
        .push(spec_core_entry("mode", FuncCategory::Aggregate, FuncDomain::Aggregate, 1, Some(1), true))
        .push(spec_commercial_entry("monthname", FuncCategory::Scalar, FuncDomain::DateTime, 1, Some(1), false))
        .push(spec_oracle_entry("months_between", FuncCategory::Scalar, FuncDomain::OracleCompat, 2, Some(2), false))
        .push(spec_commercial_oracle_entry("nanvl", FuncCategory::Scalar, FuncDomain::OracleCompat, 2, Some(2), false))
        .push(spec_oracle_entry("nchr", FuncCategory::Scalar, FuncDomain::String, 1, Some(1), false))
        .push(spec_core_entry("netmask", FuncCategory::Scalar, FuncDomain::Network, 1, Some(1), false))
        .push(spec_core_entry("network", FuncCategory::Scalar, FuncDomain::Network, 1, Some(1), false))
        .push(spec_oracle_entry("new_time", FuncCategory::Scalar, FuncDomain::DateTime, 3, Some(3), false))
}

proof fn lemma_chunk_5_8(s: Seq<FuncMeta>)
    requires
        names_increasing(s),
        s.len() == 0 || chars_before(s.last().name@, "min"@),
    ensures
        names_increasing(table_chunk_5_8(s)),
        table_chunk_5_8(s).len() > 0,
        table_chunk_5_8(s).last().name@ == "new_time"@,
{
    let t = s;
    reveal_strlit("min");
    lemma_push_keeps_increasing(t, spec_core_entry("min", FuncCategory::Aggregate, FuncDomain::Aggregate, 1, Some(1), true));
    let t = t.push(spec_core_entry("min", FuncCategory::Aggregate, FuncDomain::Aggregate, 1, Some(1), true));
    reveal_strlit("mod");
    lemma_push_after(t, "min"@, spec_core_entry("mod", FuncCategory::Scalar, FuncDomain::Math, 2, Some(2), false), 1);
    let t = t.push(spec_core_entry("mod", FuncCategory::Scalar, FuncDomain::Math, 2, Some(2), false));
    reveal_strlit("mode");
    lemma_push_after(t, "mod"@, spec_core_entry("mode", FuncCategory::Aggregate, FuncDomain::Aggregate, 1, Some(1), true), 3);
    let t = t.push(spec_core_entry("mode", FuncCategory::Aggregate, FuncDomain::Aggregate, 1, Some(1), true));
    reveal_strlit("monthname");
    lemma_push_after(t, "mode"@, spec_commercial_entry("monthname", FuncCategory::Scalar, FuncDomain::DateTime, 1, Some(1), false), 2);
    let t = t.push(spec_commercial_entry("monthname", FuncCategory::Scalar, FuncDomain::DateTime, 1, Some(1), false));
    reveal_strlit("months_between");
    lemma_push_after(t, "monthname"@, spec_oracle_entry("months_between", FuncCategory::Scalar, FuncDomain::OracleCompat, 2, Some(2), false), 5);
    let t = t.push(spec_oracle_entry("months_between", FuncCategory::Scalar, FuncDomain::OracleCompat, 2, Some(2), false));
    reveal_strlit("nanvl");
    lemma_push_after(t, "months_between"@, spec_commercial_oracle_entry("nanvl", FuncCategory::Scalar, FuncDomain::OracleCompat, 2, Some(2), false), 0);
    let t = t.push(spec_commercial_oracle_entry("nanvl", FuncCategory::Scalar, FuncDomain::OracleCompat, 2, Some(2), false));
    reveal_strlit("nchr");
    lemma_push_after(t, "nanvl"@, spec_oracle_entry("nchr", FuncCategory::Scalar, FuncDomain::String, 1, Some(1), false), 1);
    let t = t.push(spec_oracle_entry("nchr", FuncCategory::Scalar, FuncDomain::String, 1, Some(1), false));
    reveal_strlit("netmask");
    lemma_push_after(t, "nchr"@, spec_core_entry("netmask", FuncCategory::Scalar, FuncDomain::Network, 1, Some(1), false), 1);
    let t = t.push(spec_core_entry("netmask", FuncCategory::Scalar, FuncDomain::Network, 1, Some(1), false));
    reveal_strlit("network");
    lemma_push_after(t, "netmask"@, spec_core_entry("network", FuncCategory::Scalar, FuncDomain::Network, 1, Some(1), false), 3);
    let t = t.push(spec_core_entry("network", FuncCategory::Scalar, FuncDomain::Network, 1, Some(1), false));
    reveal_strlit("new_time");
    lemma_push_after(t, "network"@, spec_oracle_entry("new_time", FuncCategory::Scalar, FuncDomain::DateTime, 3, Some(3), false), 2);
    let t = t.push(spec_oracle_entry("new_time", FuncCategory::Scalar, FuncDomain::DateTime, 3, Some(3), false));
    assert(t == table_chunk_5_8(s));
}

pub open spec fn table_chunk_5_9(s: Seq<FuncMeta>) -> Seq<FuncMeta> {
    s
        .push(spec_oracle_entry("next_day", FuncCategory::Scalar, FuncDomain::OracleCompat, 2, Some(2), false))
        .push(spec_core_entry("nextval", FuncCategory::Scalar, FuncDomain::System, 1, Some(1), false))
        .push(spec_oracle_entry("nls_initcap", FuncCategory::Scalar, FuncDomain::OracleCompat, 1, Some(2), false))
        .push(spec_oracle_entry("nls_lower", FuncCategory::Scalar, FuncDomain::OracleCompat, 1, Some(2), false))
        .push(spec_oracle_entry("nls_sort", FuncCategory::Scalar, FuncDomain::OracleCompat, 1, Some(2), false))
        .push(spec_oracle_entry("nls_upper", FuncCategory::Scalar, FuncDomain::OracleCompat, 1, Some(2), false))
        .push(spec_oracle_entry("nlssort", FuncCategory::Scalar, FuncDomain::OracleCompat, 1, Some(2), false))
        .push(spec_core_entry("now", FuncCategory::Scalar, FuncDomain::DateTime, 0, Some(0), false))
        .push(spec_core_entry("nth_value", FuncCategory::Window, FuncDomain::Window, 2, Some(2), false))
        .push(spec_core_entry("ntile", FuncCategory::Window, FuncDomain::Window, 1, Some(1), false))
}

proof fn lemma_chunk_5_9(s: Seq<FuncMeta>)
    requires
        names_increasing(s),
        s.len() == 0 || chars_before(s.last().name@, "next_day"@),
    ensures
        names_increasing(table_chunk_5_9(s)),
        table_chunk_5_9(s).len() > 0,
        table_chunk_5_9(s).last().name@ == "ntile"@,
{
    let t = s;
    reveal_strlit("next_day");
    lemma_push_keeps_increasing(t, spec_oracle_entry("next_day", FuncCategory::Scalar, FuncDomain::OracleCompat, 2, Some(2), false));
    let t = t.push(spec_oracle_entry("next_day", FuncCategory::Scalar, FuncDomain::OracleCompat, 2, Some(2), false));
    reveal_strlit("nextval");
    lemma_push_after(t, "next_day"@, spec_core_entry("nextval", FuncCategory::Scalar, FuncDomain::System, 1, Some(1), false), 4);
    let t = t.push(spec_core_entry("nextval", FuncCategory::Scalar, FuncDomain::System, 1, Some(1), false));
    reveal_strlit("nls_initcap");
    lemma_push_after(t, "nextval"@, spec_oracle_entry("nls_initcap", FuncCategory::Scalar, FuncDomain::OracleCompat, 1, Some(2), false), 1);
    let t = t.push(spec_oracle_entry("nls_initcap", FuncCategory::Scalar, FuncDomain::OracleCompat, 1, Some(2), false));
    reveal_strlit("nls_lower");
    lemma_push_after(t, "nls_initcap"@, spec_oracle_entry("nls_lower", FuncCategory::Scalar, FuncDomain::OracleCompat, 1, Some(2), false), 4);
    let t = t.push(spec_oracle_entry("nls_lower", FuncCategory::Scalar, FuncDomain::OracleCompat, 1, Some(2), false));
    reveal_strlit("nls_sort");
    lemma_push_after(t, "nls_lower"@, spec_oracle_entry("nls_sort", FuncCategory::Scalar, FuncDomain::OracleCompat, 1, Some(2), false), 4);
    let t = t.push(spec_oracle_entry("nls_sort", FuncCategory::Scalar, FuncDomain::OracleCompat, 1, Some(2), false));
    reveal_strlit("nls_upper");
    lemma_push_after(t, "nls_sort"@, spec_oracle_entry("nls_upper", FuncCategory::Scalar, FuncDomain::OracleCompat, 1, Some(2), false), 4);
    let t = t.push(spec_oracle_entry("nls_upper", FuncCategory::Scalar, FuncDomain::OracleCompat, 1, Some(2), false));
    reveal_strlit("nlssort");
    lemma_push_after(t, "nls_upper"@, spec_oracle_entry("nlssort", FuncCategory::Scalar, FuncDomain::OracleCompat, 1, Some(2), false), 3);
    let t = t.push(spec_oracle_entry("nlssort", FuncCategory::Scalar, FuncDomain::OracleCompat, 1, Some(2), false));
    reveal_strlit("now");
    lemma_push_after(t, "nlssort"@, spec_core_entry("now", FuncCategory::Scalar, FuncDomain::DateTime, 0, Some(0), false), 1);
    let t = t.push(spec_core_entry("now", FuncCategory::Scalar, FuncDomain::DateTime, 0, Some(0), false));
    reveal_strlit("nth_value");
    lemma_push_after(t, "now"@, spec_core_entry("nth_value", FuncCategory::Window, FuncDomain::Window, 2, Some(2), false), 1);
    let t = t.push(spec_core_entry("nth_value", FuncCategory::Window, FuncDomain::Window, 2, Some(2), false));
    reveal_strlit("ntile");
    lemma_push_after(t, "nth_value"@, spec_core_entry("ntile", FuncCategory::Window, FuncDomain::Window, 1, Some(1), false), 2);
    let t = t.push(spec_core_entry("ntile", FuncCategory::Window, FuncDomain::Window, 1, Some(1), false));
    assert(t == table_chunk_5_9(s));
}

pub open spec fn table_chunk_5_10(s: Seq<FuncMeta>) -> Seq<FuncMeta> {
    s
        .push(spec_core_entry("nullif", FuncCategory::Special, FuncDomain::Other, 2, Some(2), false))
        .push(spec_core_entry("numrange", FuncCategory::Scalar, FuncDomain::Range, 2, Some(3), false))
        .push(spec_core_entry("numtoday", FuncCategory::Scalar, FuncDomain::TypeConversion, 1, Some(1), false))
        .push(spec_core_entry("numtodsinterval", FuncCategory::Scalar, FuncDomain::TypeConversion, 2, Some(2), false))
        .push(spec_commercial_oracle_entry("numtoyminterval", FuncCategory::Scalar, FuncDomain::TypeConversion, 2, Some(2), false))
        .push(spec_oracle_entry("nvl", FuncCategory::Special, FuncDomain::OracleCompat, 2, Some(2), false))
        .push(spec_oracle_entry("nvl2", FuncCategory::Special, FuncDomain::OracleCompat, 3, Some(3), false))
        .push(spec_core_entry("octet_length", FuncCategory::Scalar, FuncDomain::String, 1, Some(1), false))
        .push(spec_commercial_entry("ora_hash", FuncCategory::Scalar, FuncDomain::Hash, 1, Some(2), false))
        .push(spec_core_entry("overlay", FuncCategory::Scalar, FuncDomain::String, 3, Some(4), false))
}

proof fn lemma_chunk_5_10(s: Seq<FuncMeta>)
    requires
        names_increasing(s),
        s.len() == 0 || chars_before(s.last().name@, "nullif"@),
    ensures
        names_increasing(table_chunk_5_10(s)),
        table_chunk_5_10(s).len() > 0,
        table_chunk_5_10(s).last().name@ == "overlay"@,
{
    let t = s;
    reveal_strlit("nullif");
    lemma_push_keeps_increasing(t, spec_core_entry("nullif", FuncCategory::Special, FuncDomain::Other, 2, Some(2), false));
    let t = t.push(spec_core_entry("nullif", FuncCategory::Special, FuncDomain::Other, 2, Some(2), false));
    reveal_strlit("numrange");
    lemma_push_after(t, "nullif"@, spec_core_entry("numrange", FuncCategory::Scalar, FuncDomain::Range, 2, Some(3), false), 2);
    let t = t.push(spec_core_entry("numrange", FuncCategory::Scalar, FuncDomain::Range, 2, Some(3), false));
    reveal_strlit("numtoday");
    lemma_push_after(t, "numrange"@, spec_core_entry("numtoday", FuncCategory::Scalar, FuncDomain::TypeConversion, 1, Some(1), false), 3);
    let t = t.push(spec_core_entry("numtoday", FuncCategory::Scalar, FuncDomain::TypeConversion, 1, Some(1), false));
    reveal_strlit("numtodsinterval");
    lemma_push_after(t, "numtoday"@, spec_core_entry("numtodsinterval", FuncCategory::Scalar, FuncDomain::TypeConversion, 2, Some(2), false), 6);
    let t = t.push(spec_core_entry("numtodsinterval", FuncCategory::Scalar, FuncDomain::TypeConversion, 2, Some(2), false));
    reveal_strlit("numtoyminterval");
    lemma_push_after(t, "numtodsinterval"@, spec_commercial_oracle_entry("numtoyminterval", FuncCategory::Scalar, FuncDomain::TypeConversion, 2, Some(2), false), 5);
    let t = t.push(spec_commercial_oracle_entry("numtoyminterval", FuncCategory::Scalar, FuncDomain::TypeConversion, 2, Some(2), false));
    reveal_strlit("nvl");
    lemma_push_after(t, "numtoyminterval"@, spec_oracle_entry("nvl", FuncCategory::Special, FuncDomain::OracleCompat, 2, Some(2), false), 1);
    let t = t.push(spec_oracle_entry("nvl", FuncCategory::Special, FuncDomain::OracleCompat, 2, Some(2), false));
    reveal_strlit("nvl2");
    lemma_push_after(t, "nvl"@, spec_oracle_entry("nvl2", FuncCategory::Special, FuncDomain::OracleCompat, 3, Some(3), false), 3);
    let t = t.push(spec_oracle_entry("nvl2", FuncCategory::Special, FuncDomain::OracleCompat, 3, Some(3), false));
    reveal_strlit("octet_length");
    lemma_push_after(t, "nvl2"@, spec_core_entry("octet_length", FuncCategory::Scalar, FuncDomain::String, 1, Some(1), false), 0);
    let t = t.push(spec_core_entry("octet_length", FuncCategory::Scalar, FuncDomain::String, 1, Some(1), false));
    reveal_strlit("ora_hash");
    lemma_push_after(t, "octet_length"@, spec_commercial_entry("ora_hash", FuncCategory::Scalar, FuncDomain::Hash, 1, Some(2), false), 1);
    let t = t.push(spec_commercial_entry("ora_hash", FuncCategory::Scalar, FuncDomain::Hash, 1, Some(2), false));
    reveal_strlit("overlay");
    lemma_push_after(t, "ora_hash"@, spec_core_entry("overlay", FuncCategory::Scalar, FuncDomain::String, 3, Some(4), false), 1);
    let t = t.push(spec_core_entry("overlay", FuncCategory::Scalar, FuncDomain::String, 3, Some(4), false));
    assert(t == table_chunk_5_10(s));
}

pub open spec fn table_chunk_5_11(s: Seq<FuncMeta>) -> Seq<FuncMeta> {
    s
        .push(spec_core_entry("percent_rank", FuncCategory::Window, FuncDomain::Window, 0, Some(0), false))
        .push(spec_core_entry("percentile_cont", FuncCategory::Aggregate, FuncDomain::Aggregate, 1, Some(2), true))
        .push(spec_core_entry("percentile_disc", FuncCategory::Aggregate, FuncDomain::Aggregate, 1, Some(2), true))
        .push(spec_commercial_entry("period_add", FuncCategory::Scalar, FuncDomain::DateTime, 2, Some(2), false))
        .push(spec_commercial_entry("period_diff", FuncCategory::Scalar, FuncDomain::DateTime, 2, Some(2), false))
        .push(spec_core_entry("pg_advisory_lock", FuncCategory::Scalar, FuncDomain::System, 1, Some(2), false))
        .push(spec_core_entry("pg_advisory_unlock", FuncCategory::Scalar, FuncDomain::System, 1, Some(2), false))
        .push(spec_core_entry("pg_advisory_xact_lock", FuncCategory::Scalar, FuncDomain::System, 1, Some(2), false))
        .push(spec_core_entry("pg_backend_pid", FuncCategory::Scalar, FuncDomain::System, 0, Some(0), false))
        .push(spec_core_entry("pg_cancel_backend", FuncCategory::Scalar, FuncDomain::System, 1, Some(1), false))
}

proof fn lemma_chunk_5_11(s: Seq<FuncMeta>)
    requires
        names_increasing(s),
        s.len() == 0 || chars_before(s.last().name@, "percent_rank"@),
    ensures
        names_increasing(table_chunk_5_11(s)),
        table_chunk_5_11(s).len() > 0,
        table_chunk_5_11(s).last().name@ == "pg_cancel_backend"@,
{
    let t = s;
    reveal_strlit("percent_rank");
    lemma_push_keeps_increasing(t, spec_core_entry("percent_rank", FuncCategory::Window, FuncDomain::Window, 0, Some(0), false));
    let t = t.push(spec_core_entry("percent_rank", FuncCategory::Window, FuncDomain::Window, 0, Some(0), false));
    reveal_strlit("percentile_cont");
    lemma_push_after(t, "percent_rank"@, spec_core_entry("percentile_cont", FuncCategory::Aggregate, FuncDomain::Aggregate, 1, Some(2), true), 7);
    let t = t.push(spec_core_entry("percentile_cont", FuncCategory::Aggregate, FuncDomain::Aggregate, 1, Some(2), true));
    reveal_strlit("percentile_disc");
    lemma_push_after(t, "percentile_cont"@, spec_core_entry("percentile_disc", FuncCategory::Aggregate, FuncDomain::Aggregate, 1, Some(2), true), 11);
    let t = t.push(spec_core_entry("percentile_disc", FuncCategory::Aggregate, FuncDomain::Aggregate, 1, Some(2), true));
    reveal_strlit("period_add");
    lemma_push_after(t, "percentile_disc"@, spec_commercial_entry("period_add", FuncCategory::Scalar, FuncDomain::DateTime, 2, Some(2), false), 3);
    let t = t.push(spec_commercial_entry("period_add", FuncCategory::Scalar, FuncDomain::DateTime, 2, Some(2), false));
    reveal_strlit("period_diff");
    lemma_push_after(t, "period_add"@, spec_commercial_entry("period_diff", FuncCategory::Scalar, FuncDomain::DateTime, 2, Some(2), false), 7);
    let t = t.push(spec_commercial_entry("period_diff", FuncCategory::Scalar, FuncDomain::DateTime, 2, Some(2), false));
    reveal_strlit("pg_advisory_lock");
    lemma_push_after(t, "period_diff"@, spec_core_entry("pg_advisory_lock", FuncCategory::Scalar, FuncDomain::System, 1, Some(2), false), 1);
    let t = t.push(spec_core_entry("pg_advisory_lock", FuncCategory::Scalar, FuncDomain::System, 1, Some(2), false));
    reveal_strlit("pg_advisory_unlock");
    lemma_push_after(t, "pg_advisory_lock"@, spec_core_entry("pg_advisory_unlock", FuncCategory::Scalar, FuncDomain::System, 1, Some(2), false), 12);
    let t = t.push(spec_core_entry("pg_advisory_unlock", FuncCategory::Scalar, FuncDomain::System, 1, Some(2), false));
    reveal_strlit("pg_advisory_xact_lock");
    lemma_push_after(t, "pg_advisory_unlock"@, spec_core_entry("pg_advisory_xact_lock", FuncCategory::Scalar, FuncDomain::System, 1, Some(2), false), 12);
    let t = t.push(spec_core_entry("pg_advisory_xact_lock", FuncCategory::Scalar, FuncDomain::System, 1, Some(2), false));
    reveal_strlit("pg_backend_pid");
    lemma_push_after(t, "pg_advisory_xact_lock"@, spec_core_entry("pg_backend_pid", FuncCategory::Scalar, FuncDomain::System, 0, Some(0), false), 3);
    let t = t.push(spec_core_entry("pg_backend_pid", FuncCategory::Scalar, FuncDomain::System, 0, Some(0), false));
    reveal_strlit("pg_cancel_backend");
    lemma_push_after(t, "pg_backend_pid"@, spec_core_entry("pg_cancel_backend", FuncCategory::Scalar, FuncDomain::System, 1, Some(1), false), 3);
    let t = t.push(spec_core_entry("pg_cancel_backend", FuncCategory::Scalar, FuncDomain::System, 1, Some(1), false));
    assert(t == table_chunk_5_11(s));
}

pub open spec fn table_chunk_5_12(s: Seq<FuncMeta>) -> Seq<FuncMeta> {
    s
        .push(spec_core_entry("pg_collation_is_visible", FuncCategory::Scalar, FuncDomain::System, 1, Some(2), false))
        .push(spec_core_entry("pg_column_size", FuncCategory::Scalar, FuncDomain::System, 1, Some(1), false))
        .push(spec_core_entry("pg_conf_load_time", FuncCategory::Scalar, FuncDomain::System, 0, Some(0), false))
        .push(spec_core_entry("pg_conversion_is_visible", FuncCategory::Scalar, FuncDomain::System, 1, Some(1), false))
        .push(spec_core_entry("pg_create_logical_replication_slot", FuncCategory::Scalar, FuncDomain::System, 2, Some(3), false))
}

proof fn lemma_chunk_5_12(s: Seq<FuncMeta>)
    requires
        names_increasing(s),
        s.len() == 0 || chars_before(s.last().name@, "pg_collation_is_visible"@),
    ensures
        names_increasing(table_chunk_5_12(s)),
        table_chunk_5_12(s).len() > 0,
        table_chunk_5_12(s).last().name@ == "pg_create_logical_replication_slot"@,
{
    let t = s;
    reveal_strlit("pg_collation_is_visible");
    lemma_push_keeps_increasing(t, spec_core_entry("pg_collation_is_visible", FuncCategory::Scalar, FuncDomain::System, 1, Some(2), false));
    let t = t.push(spec_core_entry("pg_collation_is_visible", FuncCategory::Scalar, FuncDomain::System, 1, Some(2), false));
    reveal_strlit("pg_column_size");
    lemma_push_after(t, "pg_collation_is_visible"@, spec_core_entry("pg_column_size", FuncCategory::Scalar, FuncDomain::System, 1, Some(1), false), 6);
    let t = t.push(spec_core_entry("pg_column_size", FuncCategory::Scalar, FuncDomain::System, 1, Some(1), false));
    reveal_strlit("pg_conf_load_time");
    lemma_push_after(t, "pg_column_size"@, spec_core_entry("pg_conf_load_time", FuncCategory::Scalar, FuncDomain::System, 0, Some(0), false), 5);
    let t = t.push(spec_core_entry("pg_conf_load_time", FuncCategory::Scalar, FuncDomain::System, 0, Some(0), false));
    reveal_strlit("pg_conversion_is_visible");
    lemma_push_after(t, "pg_conf_load_time"@, spec_core_entry("pg_conversion_is_visible", FuncCategory::Scalar, FuncDomain::System, 1, Some(1), false), 6);
    let t = t.push(spec_core_entry("pg_conversion_is_visible", FuncCategory::Scalar, FuncDomain::System, 1, Some(1), false));
    reveal_strlit("pg_create_logical_replication_slot");
    lemma_push_after(t, "pg_conversion_is_visible"@, spec_core_entry("pg_create_logical_replication_slot", FuncCategory::Scalar, FuncDomain::System, 2, Some(3), false), 4);
    let t = t.push(spec_core_entry("pg_create_logical_replication_slot", FuncCategory::Scalar, FuncDomain::System, 2, Some(3), false));
    assert(t == table_chunk_5_12(s));
}

proof fn lemma_part_5_increasing(s: Seq<FuncMeta>)
    requires
        names_increasing(s),
        s.len() == 0 || chars_before(s.last().name@, "json_contains_path"@),
    ensures
        names_increasing(table_part_5(s)),
        table_part_5(s).len() > 0,
        table_part_5(s).last().name@ == "pg_create_logical_replication_slot"@,
{
    lemma_chunk_5_0(s);
    let t0 = table_chunk_5_0(s);
    reveal_strlit("json_object");
    reveal_strlit("json_object_agg");
    lemma_chars_before_at("json_object"@, "json_object_agg"@, 11);
    lemma_chunk_5_1(t0);
    let t1 = table_chunk_5_1(t0);
    reveal_strlit("json_type");
    reveal_strlit("json_typeof");
    lemma_chars_before_at("json_type"@, "json_typeof"@, 9);
    lemma_chunk_5_2(t1);
    let t2 = table_chunk_5_2(t1);
    reveal_strlit("jsonb_contained");
    reveal_strlit("jsonb_contains");
    lemma_chars_before_at("jsonb_contained"@, "jsonb_contains"@, 13);
    lemma_chunk_5_3(t2);
    let t3 = table_chunk_5_3(t2);
    reveal_strlit("jsonb_hash");
    reveal_strlit("jsonb_le");
    lemma_chars_before_at("jsonb_hash"@, "jsonb_le"@, 6);
    lemma_chunk_5_4(t3);
    let t4 = table_chunk_5_4(t3);
    reveal_strlit("justify_interval");
    reveal_strlit("lag");
    lemma_chars_before_at("justify_interval"@, "lag"@, 0);
    lemma_chunk_5_5(t4);
    let t5 = table_chunk_5_5(t4);
    reveal_strlit("length");
    reveal_strlit("lengthb");
    lemma_chars_before_at("length"@, "lengthb"@, 6);
    lemma_chunk_5_6(t5);
    let t6 = table_chunk_5_6(t5);
    reveal_strlit("ltrim");
    reveal_strlit("make_date");
    lemma_chars_before_at("ltrim"@, "make_date"@, 0);
    lemma_chunk_5_7(t6);
    let t7 = table_chunk_5_7(t6);
    reveal_strlit("median");
    reveal_strlit("min");
    lemma_chars_before_at("median"@, "min"@, 1);
    lemma_chunk_5_8(t7);
    let t8 = table_chunk_5_8(t7);
    reveal_strlit("new_time");
    reveal_strlit("next_day");
    lemma_chars_before_at("new_time"@, "next_day"@, 2);
    lemma_chunk_5_9(t8);
    let t9 = table_chunk_5_9(t8);
    reveal_strlit("ntile");
    reveal_strlit("nullif");
    lemma_chars_before_at("ntile"@, "nullif"@, 1);
    lemma_chunk_5_10(t9);
    let t10 = table_chunk_5_10(t9);
    reveal_strlit("overlay");
    reveal_strlit("percent_rank");
    lemma_chars_before_at("overlay"@, "percent_rank"@, 0);
    lemma_chunk_5_11(t10);
    let t11 = table_chunk_5_11(t10);
    reveal_strlit("pg_cancel_backend");
    reveal_strlit("pg_collation_is_visible");
    lemma_chars_before_at("pg_cancel_backend"@, "pg_collation_is_visible"@, 4);
    lemma_chunk_5_12(t11);
    let t12 = table_chunk_5_12(t11);
    assert(t12 == table_part_5(s));
}

pub open spec fn table_chunk_6_0(s: Seq<FuncMeta>) -> Seq<FuncMeta> {
    s
        .push(spec_core_entry("pg_create_physical_replication_slot", FuncCategory::Scalar, FuncDomain::System, 1, Some(2), false))
        .push(spec_core_entry("pg_current_xlog_location", FuncCategory::Scalar, FuncDomain::System, 0, Some(0), false))
        .push(spec_core_entry("pg_database_size", FuncCategory::Scalar, FuncDomain::System, 1, Some(1), false))
        .push(spec_core_entry("pg_describe_object", FuncCategory::Scalar, FuncDomain::System, 3, Some(3), false))
        .push(spec_core_entry("pg_drop_replication_slot", FuncCategory::Scalar, FuncDomain::System, 1, Some(1), false))
        .push(spec_core_entry("pg_exception_context", FuncCategory::Scalar, FuncDomain::ExceptionContext, 0, Some(0), false))
        .push(spec_core_entry("pg_exception_detail", FuncCategory::Scalar, FuncDomain::ExceptionContext, 0, Some(0), false))
        .push(spec_core_entry("pg_exception_hint", FuncCategory::Scalar, FuncDomain::ExceptionContext, 0, Some(0), false))
        .push(spec_core_entry("pg_export_snapshot", FuncCategory::Scalar, FuncDomain::System, 0, Some(0), false))
        .push(spec_core_entry("pg_function_is_visible", FuncCategory::Scalar, FuncDomain::System, 1, Some(1), false))
}

proof fn lemma_chunk_6_0(s: Seq<FuncMeta>)
    requires
        names_increasing(s),
        s.len() == 0 || chars_before(s.last().name@, "pg_create_physical_replication_slot"@),
    ensures
        names_increasing(table_chunk_6_0(s)),
        table_chunk_6_0(s).len() > 0,
        table_chunk_6_0(s).last().name@ == "pg_function_is_visible"@,
{
    let t = s;
    reveal_strlit("pg_create_physical_replication_slot");
    lemma_push_keeps_increasing(t, spec_core_entry("pg_create_physical_replication_slot", FuncCategory::Scalar, FuncDomain::System, 1, Some(2), false));
    let t = t.push(spec_core_entry("pg_create_physical_replication_slot", FuncCategory::Scalar, FuncDomain::System, 1, Some(2), false));
    reveal_strlit("pg_current_xlog_location");
    lemma_push_after(t, "pg_create_physical_replication_slot"@, spec_core_entry("pg_current_xlog_location", FuncCategory::Scalar, FuncDomain::System, 0, Some(0), false), 4);
    let t = t.push(spec_core_entry("pg_current_xlog_location", FuncCategory::Scalar, FuncDomain::System, 0, Some(0), false));
    reveal_strlit("pg_database_size");
    lemma_push_after(t, "pg_current_xlog_location"@, spec_core_entry("pg_database_size", FuncCategory::Scalar, FuncDomain::System, 1, Some(1), false), 3);
    let t = t.push(spec_core_entry("pg_database_size", FuncCategory::Scalar, FuncDomain::System, 1, Some(1), false));
    reveal_strlit("pg_describe_object");
    lemma_push_after(t, "pg_database_size"@, spec_core_entry("pg_describe_object", FuncCategory::Scalar, FuncDomain::System, 3, Some(3), false), 4);
    let t = t.push(spec_core_entry("pg_describe_object", FuncCategory::Scalar, FuncDomain::System, 3, Some(3), false));
    reveal_strlit("pg_drop_replication_slot");
    lemma_push_after(t, "pg_describe_object"@, spec_core_entry("pg_drop_replication_slot", FuncCategory::Scalar, FuncDomain::System, 1, Some(1), false), 4);
    let t = t.push(spec_core_entry("pg_drop_replication_slot", FuncCategory::Scalar, FuncDomain::System, 1, Some(1), false));
    reveal_strlit("pg_exception_context");
    lemma_push_after(t, "pg_drop_replication_slot"@, spec_core_entry("pg_exception_context", FuncCategory::Scalar, FuncDomain::ExceptionContext, 0, Some(0), false), 3);
    let t = t.push(spec_core_entry("pg_exception_context", FuncCategory::Scalar, FuncDomain::ExceptionContext, 0, Some(0), false));
    reveal_strlit("pg_exception_detail");
    lemma_push_after(t, "pg_exception_context"@, spec_core_entry("pg_exception_detail", FuncCategory::Scalar, FuncDomain::ExceptionContext, 0, Some(0), false), 13);
    let t = t.push(spec_core_entry("pg_exception_detail", FuncCategory::Scalar, FuncDomain::ExceptionContext, 0, Some(0), false));
    reveal_strlit("pg_exception_hint");
    lemma_push_after(t, "pg_exception_detail"@, spec_core_entry("pg_exception_hint", FuncCategory::Scalar, FuncDomain::ExceptionContext, 0, Some(0), false), 13);
    let t = t.push(spec_core_entry("pg_exception_hint", FuncCategory::Scalar, FuncDomain::ExceptionContext, 0, Some(0), false));
    reveal_strlit("pg_export_snapshot");
    lemma_push_after(t, "pg_exception_hint"@, spec_core_entry("pg_export_snapshot", FuncCategory::Scalar, FuncDomain::System, 0, Some(0), false), 5);
    let t = t.push(spec_core_entry("pg_export_snapshot", FuncCategory::Scalar, FuncDomain::System, 0, Some(0), false));
    reveal_strlit("pg_function_is_visible");
    lemma_push_after(t, "pg_export_snapshot"@, spec_core_entry("pg_function_is_visible", FuncCategory::Scalar, FuncDomain::System, 1, Some(1), false), 3);
    let t = t.push(spec_core_entry("pg_function_is_visible", FuncCategory::Scalar, FuncDomain::System, 1, Some(1), false));
    assert(t == table_chunk_6_0(s));
}

pub open spec fn table_chunk_6_1(s: Seq<FuncMeta>) -> Seq<FuncMeta> {
    s
        .push(spec_core_entry("pg_get_constraintdef", FuncCategory::Scalar, FuncDomain::System, 1, Some(2), false))
        .push(spec_core_entry("pg_get_expr", FuncCategory::Scalar, FuncDomain::System, 2, Some(3), false))
        .push(spec_core_entry("pg_get_functiondef", FuncCategory::Scalar, FuncDomain::System, 1, Some(1), false))
        .push(spec_core_entry("pg_get_indexdef", FuncCategory::Scalar, FuncDomain::System, 1, Some(3), false))
        .push(spec_core_entry("pg_get_keywords", FuncCategory::Scalar, FuncDomain::System, 0, Some(0), false))
        .push(spec_core_entry("pg_get_ruledef", FuncCategory::Scalar, FuncDomain::System, 1, Some(2), false))
        .push(spec_core_entry("pg_get_serial_sequence", FuncCategory::Scalar, FuncDomain::System, 2, Some(2), false))
        .push(spec_core_entry("pg_get_triggerdef", FuncCategory::Scalar, FuncDomain::System, 1, Some(1), false))
        .push(spec_core_entry("pg_get_userbyid", FuncCategory::Scalar, FuncDomain::System, 1, Some(1), false))
        .push(spec_core_entry("pg_get_viewdef", FuncCategory::Scalar, FuncDomain::System, 1, Some(2), false))
}

proof fn lemma_chunk_6_1(s: Seq<FuncMeta>)
    requires
        names_increasing(s),
        s.len() == 0 || chars_before(s.last().name@, "pg_get_constraintdef"@),
    ensures
        names_increasing(table_chunk_6_1(s)),
        table_chunk_6_1(s).len() > 0,
        table_chunk_6_1(s).last().name@ == "pg_get_viewdef"@,
{
    let t = s;
    reveal_strlit("pg_get_constraintdef");
    lemma_push_keeps_increasing(t, spec_core_entry("pg_get_constraintdef", FuncCategory::Scalar, FuncDomain::System, 1, Some(2), false));
    let t = t.push(spec_core_entry("pg_get_constraintdef", FuncCategory::Scalar, FuncDomain::System, 1, Some(2), false));
    reveal_strlit("pg_get_expr");
    lemma_push_after(t, "pg_get_constraintdef"@, spec_core_entry("pg_get_expr", FuncCategory::Scalar, FuncDomain::System, 2, Some(3), false), 7);
    let t = t.push(spec_core_entry("pg_get_expr", FuncCategory::Scalar, FuncDomain::System, 2, Some(3), false));
    reveal_strlit("pg_get_functiondef");
    lemma_push_after(t, "pg_get_expr"@, spec_core_entry("pg_get_functiondef", FuncCategory::Scalar, FuncDomain::System, 1, Some(1), false), 7);
    let t = t.push(spec_core_entry("pg_get_functiondef", FuncCategory::Scalar, FuncDomain::System, 1, Some(1), false));
    reveal_strlit("pg_get_indexdef");
    lemma_push_after(t, "pg_get_functiondef"@, spec_core_entry("pg_get_indexdef", FuncCategory::Scalar, FuncDomain::System, 1, Some(3), false), 7);
    let t = t.push(spec_core_entry("pg_get_indexdef", FuncCategory::Scalar, FuncDomain::System, 1, Some(3), false));
    reveal_strlit("pg_get_keywords");
    lemma_push_after(t, "pg_get_indexdef"@, spec_core_entry("pg_get_keywords", FuncCategory::Scalar, FuncDomain::System, 0, Some(0), false), 7);
    let t = t.push(spec_core_entry("pg_get_keywords", FuncCategory::Scalar, FuncDomain::System, 0, Some(0), false));
    reveal_strlit("pg_get_ruledef");
    lemma_push_after(t, "pg_get_keywords"@, spec_core_entry("pg_get_ruledef", FuncCategory::Scalar, FuncDomain::System, 1, Some(2), false), 7);
    let t = t.push(spec_core_entry("pg_get_ruledef", FuncCategory::Scalar, FuncDomain::System, 1, Some(2), false));
    reveal_strlit("pg_get_serial_sequence");
    lemma_push_after(t, "pg_get_ruledef"@, spec_core_entry("pg_get_serial_sequence", FuncCategory::Scalar, FuncDomain::System, 2, Some(2), false), 7);
    let t = t.push(spec_core_entry("pg_get_serial_sequence", FuncCategory::Scalar, FuncDomain::System, 2, Some(2), false));
    reveal_strlit("pg_get_triggerdef");
    lemma_push_after(t, "pg_get_serial_sequence"@, spec_core_entry("pg_get_triggerdef", FuncCategory::Scalar, FuncDomain::System, 1, Some(1), false), 7);
    let t = t.push(spec_core_entry("pg_get_triggerdef", FuncCategory::Scalar, FuncDomain::System, 1, Some(1), false));
    reveal_strlit("pg_get_userbyid");
    lemma_push_after(t, "pg_get_triggerdef"@, spec_core_entry("pg_get_userbyid", FuncCategory::Scalar, FuncDomain::System, 1, Some(1), false), 7);
    let t = t.push(spec_core_entry("pg_get_userbyid", FuncCategory::Scalar, FuncDomain::System, 1, Some(1), false));
    reveal_strlit("pg_get_viewdef");
    lemma_push_after(t, "pg_get_userbyid"@, spec_core_entry("pg_get_viewdef", FuncCategory::Scalar, FuncDomain::System, 1, Some(2), false), 7);
    let t = t.push(spec_core_entry("pg_get_viewdef", FuncCategory::Scalar, FuncDomain::System, 1, Some(2), false));
    assert(t == table_chunk_6_1(s));
}

pub open spec fn table_chunk_6_2(s: Seq<FuncMeta>) -> Seq<FuncMeta> {
    s
        .push(spec_core_entry("pg_has_role", FuncCategory::Scalar, FuncDomain::System, 2, Some(3), false))
        .push(spec_core_entry("pg_identify_object", FuncCategory::Scalar, FuncDomain::System, 3, Some(3), false))
        .push(spec_core_entry("pg_indexes_size", FuncCategory::Scalar, FuncDomain::System, 1, Some(1), false))
        .push(spec_core_entry("pg_is_in_recovery", FuncCategory::Scalar, FuncDomain::System, 0, Some(0), false))
        .push(spec_core_entry("pg_is_other_temp_schema", FuncCategory::Scalar, FuncDomain::System, 1, Some(1), false))
        .push(spec_core_entry("pg_last_xact_replay_timestamp", FuncCategory::Scalar, FuncDomain::System, 0, Some(0), false))
        .push(spec_core_entry("pg_listening_channels", FuncCategory::Scalar, FuncDomain::System, 0, Some(0), false))
        .push(spec_core_entry("pg_logical_slot_get_binary_changes", FuncCategory::Scalar, FuncDomain::System, 2, None, false))
        .push(spec_core_entry("pg_logical_slot_get_changes", FuncCategory::Scalar, FuncDomain::System, 2, None, false))
        .push(spec_core_entry("pg_logical_slot_peek_binary_changes", FuncCategory::Scalar, FuncDomain::System, 2, None, false))
}

proof fn lemma_chunk_6_2(s: Seq<FuncMeta>)
    requires
        names_increasing(s),
        s.len() == 0 || chars_before(s.last().name@, "pg_has_role"@),
    ensures
        names_increasing(table_chunk_6_2(s)),
        table_chunk_6_2(s).len() > 0,
        table_chunk_6_2(s).last().name@ == "pg_logical_slot_peek_binary_changes"@,
{
    let t = s;
    reveal_strlit("pg_has_role");
    lemma_push_keeps_increasing(t, spec_core_entry("pg_has_role", FuncCategory::Scalar, FuncDomain::System, 2, Some(3), false));
    let t = t.push(spec_core_entry("pg_has_role", FuncCategory::Scalar, FuncDomain::System, 2, Some(3), false));
    reveal_strlit("pg_identify_object");
    lemma_push_after(t, "pg_has_role"@, spec_core_entry("pg_identify_object", FuncCategory::Scalar, FuncDomain::System, 3, Some(3), false), 3);
    let t = t.push(spec_core_entry("pg_identify_object", FuncCategory::Scalar, FuncDomain::System, 3, Some(3), false));
    reveal_strlit("pg_indexes_size");
    lemma_push_after(t, "pg_identify_object"@, spec_core_entry("pg_indexes_size", FuncCategory::Scalar, FuncDomain::System, 1, Some(1), false), 4);
    let t = t.push(spec_core_entry("pg_indexes_size", FuncCategory::Scalar, FuncDomain::System, 1, Some(1), false));
    reveal_strlit("pg_is_in_recovery");
    lemma_push_after(t, "pg_indexes_size"@, spec_core_entry("pg_is_in_recovery", FuncCategory::Scalar, FuncDomain::System, 0, Some(0), false), 4);
    let t = t.push(spec_core_entry("pg_is_in_recovery", FuncCategory::Scalar, FuncDomain::System, 0, Some(0), false));
    reveal_strlit("pg_is_other_temp_schema");
    lemma_push_after(t, "pg_is_in_recovery"@, spec_core_entry("pg_is_other_temp_schema", FuncCategory::Scalar, FuncDomain::System, 1, Some(1), false), 6);
    let t = t.push(spec_core_entry("pg_is_other_temp_schema", FuncCategory::Scalar, FuncDomain::System, 1, Some(1), false));
    reveal_strlit("pg_last_xact_replay_timestamp");
    lemma_push_after(t, "pg_is_other_temp_schema"@, spec_core_entry("pg_last_xact_replay_timestamp", FuncCategory::Scalar, FuncDomain::System, 0, Some(0), false), 3);
    let t = t.push(spec_core_entry("pg_last_xact_replay_timestamp", FuncCategory::Scalar, FuncDomain::System, 0, Some(0), false));
    reveal_strlit("pg_listening_channels");
    lemma_push_after(t, "pg_last_xact_replay_timestamp"@, spec_core_entry("pg_listening_channels", FuncCategory::Scalar, FuncDomain::System, 0, Some(0), false), 4);
    let t = t.push(spec_core_entry("pg_listening_channels", FuncCategory::Scalar, FuncDomain::System, 0, Some(0), false));
    reveal_strlit("pg_logical_slot_get_binary_changes");
    lemma_push_after(t, "pg_listening_channels"@, spec_core_entry("pg_logical_slot_get_binary_changes", FuncCategory::Scalar, FuncDomain::System, 2, None, false), 4);
    let t = t.push(spec_core_entry("pg_logical_slot_get_binary_changes", FuncCategory::Scalar, FuncDomain::System, 2, None, false));
    reveal_strlit("pg_logical_slot_get_changes");
    lemma_push_after(t, "pg_logical_slot_get_binary_changes"@, spec_core_entry("pg_logical_slot_get_changes", FuncCategory::Scalar, FuncDomain::System, 2, None, false), 20);
    let t = t.push(spec_core_entry("pg_logical_slot_get_changes", FuncCategory::Scalar, FuncDomain::System, 2, None, false));
    reveal_strlit("pg_logical_slot_peek_binary_changes");
    lemma_push_after(t, "pg_logical_slot_get_changes"@, spec_core_entry("pg_logical_slot_peek_binary_changes", FuncCategory::Scalar, FuncDomain::System, 2, None, false), 16);
    let t = t.push(spec_core_entry("pg_logical_slot_peek_binary_changes", FuncCategory::Scalar, FuncDomain::System, 2, None, false));
    assert(t == table_chunk_6_2(s));
}

pub open spec fn table_chunk_6_3(s: Seq<FuncMeta>) -> Seq<FuncMeta> {
    s
        .push(spec_core_entry("pg_logical_slot_peek_changes", FuncCategory::Scalar, FuncDomain::System, 2, None, false))
        .push(spec_core_entry("pg_ls_dir", FuncCategory::Scalar, FuncDomain::System, 1, Some(1), false))
        .push(spec_core_entry("pg_my_temp_schema", FuncCategory::Scalar, FuncDomain::System, 0, Some(0), false))
        .push(spec_core_entry("pg_opclass_is_visible", FuncCategory::Scalar, FuncDomain::System, 1, Some(1), false))
        .push(spec_core_entry("pg_operator_is_visible", FuncCategory::Scalar, FuncDomain::System, 1, Some(1), false))
        .push(spec_core_entry("pg_opfamily_is_visible", FuncCategory::Scalar, FuncDomain::System, 1, Some(1), false))
        .push(spec_core_entry("pg_postmaster_start_time", FuncCategory::Scalar, FuncDomain::System, 0, Some(0), false))
        .push(spec_core_entry("pg_prepared_statement", FuncCategory::Scalar, FuncDomain::System, 1, Some(1), false))
        .push(spec_core_entry("pg_prepared_xact", FuncCategory::Scalar, FuncDomain::System, 1, Some(1), false))
        .push(spec_core_entry("pg_query_audit", FuncCategory::Scalar, FuncDomain::System, 2, Some(2), false))
}

proof fn lemma_chunk_6_3(s: Seq<FuncMeta>)
    requires
        names_increasing(s),
        s.len() == 0 || chars_before(s.last().name@, "pg_logical_slot_peek_changes"@),
    ensures
        names_increasing(table_chunk_6_3(s)),
        table_chunk_6_3(s).len() > 0,
        table_chunk_6_3(s).last().name@ == "pg_query_audit"@,
{
    let t = s;
    reveal_strlit("pg_logical_slot_peek_changes");
    lemma_push_keeps_increasing(t, spec_core_entry("pg_logical_slot_peek_changes", FuncCategory::Scalar, FuncDomain::System, 2, None, false));
    let t = t.push(spec_core_entry("pg_logical_slot_peek_changes", FuncCategory::Scalar, FuncDomain::System, 2, None, false));
    reveal_strlit("pg_ls_dir");
    lemma_push_after(t, "pg_logical_slot_peek_changes"@, spec_core_entry("pg_ls_dir", FuncCategory::Scalar, FuncDomain::System, 1, Some(1), false), 4);
    let t = t.push(spec_core_entry("pg_ls_dir", FuncCategory::Scalar, FuncDomain::System, 1, Some(1), false));
    reveal_strlit("pg_my_temp_schema");
    lemma_push_after(t, "pg_ls_dir"@, spec_core_entry("pg_my_temp_schema", FuncCategory::Scalar, FuncDomain::System, 0, Some(0), false), 3);
    let t = t.push(spec_core_entry("pg_my_temp_schema", FuncCategory::Scalar, FuncDomain::System, 0, Some(0), false));
    reveal_strlit("pg_opclass_is_visible");
    lemma_push_after(t, "pg_my_temp_schema"@, spec_core_entry("pg_opclass_is_visible", FuncCategory::Scalar, FuncDomain::System, 1, Some(1), false), 3);
    let t = t.push(spec_core_entry("pg_opclass_is_visible", FuncCategory::Scalar, FuncDomain::System, 1, Some(1), false));
    reveal_strlit("pg_operator_is_visible");
    lemma_push_after(t, "pg_opclass_is_visible"@, spec_core_entry("pg_operator_is_visible", FuncCategory::Scalar, FuncDomain::System, 1, Some(1), false), 5);
    let t = t.push(spec_core_entry("pg_operator_is_visible", FuncCategory::Scalar, FuncDomain::System, 1, Some(1), false));
    reveal_strlit("pg_opfamily_is_visible");
    lemma_push_after(t, "pg_operator_is_visible"@, spec_core_entry("pg_opfamily_is_visible", FuncCategory::Scalar, FuncDomain::System, 1, Some(1), false), 5);
    let t = t.push(spec_core_entry("pg_opfamily_is_visible", FuncCategory::Scalar, FuncDomain::System, 1, Some(1), false));
    reveal_strlit("pg_postmaster_start_time");
    lemma_push_after(t, "pg_opfamily_is_visible"@, spec_core_entry("pg_postmaster_start_time", FuncCategory::Scalar, FuncDomain::System, 0, Some(0), false), 3);
    let t = t.push(spec_core_entry("pg_postmaster_start_time", FuncCategory::Scalar, FuncDomain::System, 0, Some(0), false));
    reveal_strlit("pg_prepared_statement");
    lemma_push_after(t, "pg_postmaster_start_time"@, spec_core_entry("pg_prepared_statement", FuncCategory::Scalar, FuncDomain::System, 1, Some(1), false), 4);
    let t = t.push(spec_core_entry("pg_prepared_statement", FuncCategory::Scalar, FuncDomain::System, 1, Some(1), false));
    reveal_strlit("pg_prepared_xact");
    lemma_push_after(t, "pg_prepared_statement"@, spec_core_entry("pg_prepared_xact", FuncCategory::Scalar, FuncDomain::System, 1, Some(1), false), 12);
    let t = t.push(spec_core_entry("pg_prepared_xact", FuncCategory::Scalar, FuncDomain::System, 1, Some(1), false));
    reveal_strlit("pg_query_audit");
    lemma_push_after(t, "pg_prepared_xact"@, spec_core_entry("pg_query_audit", FuncCategory::Scalar, FuncDomain::System, 2, Some(2), false), 3);
    let t = t.push(spec_core_entry("pg_query_audit", FuncCategory::Scalar, FuncDomain::System, 2, Some(2), false));
    assert(t == table_chunk_6_3(s));
}

pub open spec fn table_chunk_6_4(s: Seq<FuncMeta>) -> Seq<FuncMeta> {
    s
        .push(spec_core_entry("pg_read_binary_file", FuncCategory::Scalar, FuncDomain::System, 1, Some(3), false))
        .push(spec_core_entry("pg_read_file", FuncCategory::Scalar, FuncDomain::System, 1, Some(3), false))
        .push(spec_core_entry("pg_relation_filenode", FuncCategory::Scalar, FuncDomain::System, 1, Some(1), false))
        .push(spec_core_entry("pg_relation_filepath", FuncCategory::Scalar, FuncDomain::System, 1, Some(1), false))
        .push(spec_core_entry("pg_relation_size", FuncCategory::Scalar, FuncDomain::System, 1, Some(2), false))
        .push(spec_core_entry("pg_replication_origin_create", FuncCategory::Scalar, FuncDomain::System, 1, Some(1), false))
        .push(spec_core_entry("pg_replication_origin_drop", FuncCategory::Scalar, FuncDomain::System, 1, Some(1), false))
        .push(spec_core_entry("pg_replication_origin_oid", FuncCategory::Scalar, FuncDomain::System, 1, Some(1), false))
        .push(spec_core_entry("pg_replication_origin_progress", FuncCategory::Scalar, FuncDomain::System, 1, Some(2), false))
        .push(spec_core_entry("pg_rotate_logfile", FuncCategory::Scalar, FuncDomain::System, 0, Some(0), false))
}

proof fn lemma_chunk_6_4(s: Seq<FuncMeta>)
    requires
        names_increasing(s),
        s.len() == 0 || chars_before(s.last().name@, "pg_read_binary_file"@),
    ensures
        names_increasing(table_chunk_6_4(s)),
        table_chunk_6_4(s).len() > 0,
        table_chunk_6_4(s).last().name@ == "pg_rotate_logfile"@,
{
    let t = s;
    reveal_strlit("pg_read_binary_file");
    lemma_push_keeps_increasing(t, spec_core_entry("pg_read_binary_file", FuncCategory::Scalar, FuncDomain::System, 1, Some(3), false));
    let t = t.push(spec_core_entry("pg_read_binary_file", FuncCategory::Scalar, FuncDomain::System, 1, Some(3), false));
    reveal_strlit("pg_read_file");
    lemma_push_after(t, "pg_read_binary_file"@, spec_core_entry("pg_read_file", FuncCategory::Scalar, FuncDomain::System, 1, Some(3), false), 8);
    let t = t.push(spec_core_entry("pg_read_file", FuncCategory::Scalar, FuncDomain::System, 1, Some(3), false));
    reveal_strlit("pg_relation_filenode");
    lemma_push_after(t, "pg_read_file"@, spec_core_entry("pg_relation_filenode", FuncCategory::Scalar, FuncDomain::System, 1, Some(1), false), 5);
    let t = t.push(spec_core_entry("pg_relation_filenode", FuncCategory::Scalar, FuncDomain::System, 1, Some(1), false));
    reveal_strlit("pg_relation_filepath");
    lemma_push_after(t, "pg_relation_filenode"@, spec_core_entry("pg_relation_filepath", FuncCategory::Scalar, FuncDomain::System, 1, Some(1), false), 16);
    let t = t.push(spec_core_entry("pg_relation_filepath", FuncCategory::Scalar, FuncDomain::System, 1, Some(1), false));
    reveal_strlit("pg_relation_size");
    lemma_push_after(t, "pg_relation_filepath"@, spec_core_entry("pg_relation_size", FuncCategory::Scalar, FuncDomain::System, 1, Some(2), false), 12);
    let t = t.push(spec_core_entry("pg_relation_size", FuncCategory::Scalar, FuncDomain::System, 1, Some(2), false));
    reveal_strlit("pg_replication_origin_create");
    lemma_push_after(t, "pg_relation_size"@, spec_core_entry("pg_replication_origin_create", FuncCategory::Scalar, FuncDomain::System, 1, Some(1), false), 5);
    let t = t.push(spec_core_entry("pg_replication_origin_create", FuncCategory::Scalar, FuncDomain::System, 1, Some(1), false));
    reveal_strlit("pg_replication_origin_drop");
    lemma_push_after(t, "pg_replication_origin_create"@, spec_core_entry("pg_replication_origin_drop", FuncCategory::Scalar, FuncDomain::System, 1, Some(1), false), 22);
    let t = t.push(spec_core_entry("pg_replication_origin_drop", FuncCategory::Scalar, FuncDomain::System, 1, Some(1), false));
    reveal_strlit("pg_replication_origin_oid");
    lemma_push_after(t, "pg_replication_origin_drop"@, spec_core_entry("pg_replication_origin_oid", FuncCategory::Scalar, FuncDomain::System, 1, Some(1), false), 22);
    let t = t.push(spec_core_entry("pg_replication_origin_oid", FuncCategory::Scalar, FuncDomain::System, 1, Some(1), false));
    reveal_strlit("pg_replication_origin_progress");
    lemma_push_after(t, "pg_replication_origin_oid"@, spec_core_entry("pg_replication_origin_progress", FuncCategory::Scalar, FuncDomain::System, 1, Some(2), false), 22);
    let t = t.push(spec_core_entry("pg_replication_origin_progress", FuncCategory::Scalar, FuncDomain::System, 1, Some(2), false));
    reveal_strlit("pg_rotate_logfile");
    lemma_push_after(t, "pg_replication_origin_progress"@, spec_core_entry("pg_rotate_logfile", FuncCategory::Scalar, FuncDomain::System, 0, Some(0), false), 4);
    let t = t.push(spec_core_entry("pg_rotate_logfile", FuncCategory::Scalar, FuncDomain::System, 0, Some(0), false));
    assert(t == table_chunk_6_4(s));
}

pub open spec fn table_chunk_6_5(s: Seq<FuncMeta>) -> Seq<FuncMeta> {
    s
        .push(spec_core_entry("pg_size_pretty", FuncCategory::Scalar, FuncDomain::System, 1, Some(1), false))
        .push(spec_core_entry("pg_sleep", FuncCategory::Scalar, FuncDomain::System, 1, Some(1), false))
        .push(spec_core_entry("pg_start_backup", FuncCategory::Scalar, FuncDomain::System, 1, Some(2), false))
        .push(spec_core_entry("pg_stat_file", FuncCategory::Scalar, FuncDomain::System, 1, Some(1), false))
        .push(spec_core_entry("pg_stop_backup", FuncCategory::Scalar, FuncDomain::System, 0, Some(1), false))
        .push(spec_core_entry("pg_switch_xlog", FuncCategory::Scalar, FuncDomain::System, 0, Some(0), false))
        .push(spec_core_entry("pg_table_is_visible", FuncCategory::Scalar, FuncDomain::System, 1, Some(2), false))
        .push(spec_core_entry("pg_table_size", FuncCategory::Scalar, FuncDomain::System, 1, Some(1), false))
        .push(spec_core_entry("pg_tablespace_databases", FuncCategory::Scalar, FuncDomain::System, 1, Some(1), false))
        .push(spec_core_entry("pg_tablespace_location", FuncCategory::Scalar, FuncDomain::System, 1, Some(1), false))
}

proof fn lemma_chunk_6_5(s: Seq<FuncMeta>)
    requires
        names_increasing(s),
        s.len() == 0 || chars_before(s.last().name@, "pg_size_pretty"@),
    ensures
        names_increasing(table_chunk_6_5(s)),
        table_chunk_6_5(s).len() > 0,
        table_chunk_6_5(s).last().name@ == "pg_tablespace_location"@,
{
    let t = s;
    reveal_strlit("pg_size_pretty");
    lemma_push_keeps_increasing(t, spec_core_entry("pg_size_pretty", FuncCategory::Scalar, FuncDomain::System, 1, Some(1), false));
    let t = t.push(spec_core_entry("pg_size_pretty", FuncCategory::Scalar, FuncDomain::System, 1, Some(1), false));
    reveal_strlit("pg_sleep");
    lemma_push_after(t, "pg_size_pretty"@, spec_core_entry("pg_sleep", FuncCategory::Scalar, FuncDomain::System, 1, Some(1), false), 4);
    let t = t.push(spec_core_entry("pg_sleep", FuncCategory::Scalar, FuncDomain::System, 1, Some(1), false));
    reveal_strlit("pg_start_backup");
    lemma_push_after(t, "pg_sleep"@, spec_core_entry("pg_start_backup", FuncCategory::Scalar, FuncDomain::System, 1, Some(2), false), 4);
    let t = t.push(spec_core_entry("pg_start_backup", FuncCategory::Scalar, FuncDomain::System, 1, Some(2), false));
    reveal_strlit("pg_stat_file");
    lemma_push_after(t, "pg_start_backup"@, spec_core_entry("pg_stat_file", FuncCategory::Scalar, FuncDomain::System, 1, Some(1), false), 6);
    let t = t.push(spec_core_entry("pg_stat_file", FuncCategory::Scalar, FuncDomain::System, 1, Some(1), false));
    reveal_strlit("pg_stop_backup");
    lemma_push_after(t, "pg_stat_file"@, spec_core_entry("pg_stop_backup", FuncCategory::Scalar, FuncDomain::System, 0, Some(1), false), 5);
    let t = t.push(spec_core_entry("pg_stop_backup", FuncCategory::Scalar, FuncDomain::System, 0, Some(1), false));
    reveal_strlit("pg_switch_xlog");
    lemma_push_after(t, "pg_stop_backup"@, spec_core_entry("pg_switch_xlog", FuncCategory::Scalar, FuncDomain::System, 0, Some(0), false), 4);
    let t = t.push(spec_core_entry("pg_switch_xlog", FuncCategory::Scalar, FuncDomain::System, 0, Some(0), false));
    reveal_strlit("pg_table_is_visible");
    lemma_push_after(t, "pg_switch_xlog"@, spec_core_entry("pg_table_is_visible", FuncCategory::Scalar, FuncDomain::System, 1, Some(2), false), 3);
    let t = t.push(spec_core_entry("pg_table_is_visible", FuncCategory::Scalar, FuncDomain::System, 1, Some(2), false));
    reveal_strlit("pg_table_size");
    lemma_push_after(t, "pg_table_is_visible"@, spec_core_entry("pg_table_size", FuncCategory::Scalar, FuncDomain::System, 1, Some(1), false), 9);
    let t = t.push(spec_core_entry("pg_table_size", FuncCategory::Scalar, FuncDomain::System, 1, Some(1), false));
    reveal_strlit("pg_tablespace_databases");
    lemma_push_after(t, "pg_table_size"@, spec_core_entry("pg_tablespace_databases", FuncCategory::Scalar, FuncDomain::System, 1, Some(1), false), 8);
    let t = t.push(spec_core_entry("pg_tablespace_databases", FuncCategory::Scalar, FuncDomain::System, 1, Some(1), false));
    reveal_strlit("pg_tablespace_location");
    lemma_push_after(t, "pg_tablespace_databases"@, spec_core_entry("pg_tablespace_location", FuncCategory::Scalar, FuncDomain::System, 1, Some(1), false), 14);
    let t = t.push(spec_core_entry("pg_tablespace_location", FuncCategory::Scalar, FuncDomain::System, 1, Some(1), false));
    assert(t == table_chunk_6_5(s));
}

pub open spec fn table_chunk_6_6(s: Seq<FuncMeta>) -> Seq<FuncMeta> {
    s
        .push(spec_core_entry("pg_tablespace_size", FuncCategory::Scalar, FuncDomain::System, 1, Some(1), false))
        .push(spec_core_entry("pg_terminate_backend", FuncCategory::Scalar, FuncDomain::System, 1, Some(1), false))
        .push(spec_core_entry("pg_total_relation_size", FuncCategory::Scalar, FuncDomain::System, 1, Some(1), false))
        .push(spec_core_entry("pg_try_advisory_lock", FuncCategory::Scalar, FuncDomain::System, 1, Some(2), false))
        .push(spec_core_entry("pg_try_advisory_xact_lock", FuncCategory::Scalar, FuncDomain::System, 1, Some(2), false))
        .push(spec_core_entry("pg_ts_config_is_visible", FuncCategory::Scalar, FuncDomain::System, 1, Some(1), false))
        .push(spec_core_entry("pg_ts_dict_is_visible", FuncCategory::Scalar, FuncDomain::System, 1, Some(1), false))
        .push(spec_core_entry("pg_ts_parser_is_visible", FuncCategory::Scalar, FuncDomain::System, 1, Some(1), false))
        .push(spec_core_entry("pg_ts_template_is_visible", FuncCategory::Scalar, FuncDomain::System, 1, Some(1), false))
        .push(spec_core_entry("pg_type_is_visible", FuncCategory::Scalar, FuncDomain::System, 1, Some(1), false))
}

proof fn lemma_chunk_6_6(s: Seq<FuncMeta>)
    requires
        names_increasing(s),
        s.len() == 0 || chars_before(s.last().name@, "pg_tablespace_size"@),
    ensures
        names_increasing(table_chunk_6_6(s)),
        table_chunk_6_6(s).len() > 0,
        table_chunk_6_6(s).last().name@ == "pg_type_is_visible"@,
{
    let t = s;
    reveal_strlit("pg_tablespace_size");
    lemma_push_keeps_increasing(t, spec_core_entry("pg_tablespace_size", FuncCategory::Scalar, FuncDomain::System, 1, Some(1), false));
    let t = t.push(spec_core_entry("pg_tablespace_size", FuncCategory::Scalar, FuncDomain::System, 1, Some(1), false));
    reveal_strlit("pg_terminate_backend");
    lemma_push_after(t, "pg_tablespace_size"@, spec_core_entry("pg_terminate_backend", FuncCategory::Scalar, FuncDomain::System, 1, Some(1), false), 4);
    let t = t.push(spec_core_entry("pg_terminate_backend", FuncCategory::Scalar, FuncDomain::System, 1, Some(1), false));
    reveal_strlit("pg_total_relation_size");
    lemma_push_after(t, "pg_terminate_backend"@, spec_core_entry("pg_total_relation_size", FuncCategory::Scalar, FuncDomain::System, 1, Some(1), false), 4);
    let t = t.push(spec_core_entry("pg_total_relation_size", FuncCategory::Scalar, FuncDomain::System, 1, Some(1), false));
    reveal_strlit("pg_try_advisory_lock");
    lemma_push_after(t, "pg_total_relation_size"@, spec_core_entry("pg_try_advisory_lock", FuncCategory::Scalar, FuncDomain::System, 1, Some(2), false), 4);
    let t = t.push(spec_core_entry("pg_try_advisory_lock", FuncCategory::Scalar, FuncDomain::System, 1, Some(2), false));
    reveal_strlit("pg_try_advisory_xact_lock");
    lemma_push_after(t, "pg_try_advisory_lock"@, spec_core_entry("pg_try_advisory_xact_lock", FuncCategory::Scalar, FuncDomain::System, 1, Some(2), false), 16);
    let t = t.push(spec_core_entry("pg_try_advisory_xact_lock", FuncCategory::Scalar, FuncDomain::System, 1, Some(2), false));
    reveal_strlit("pg_ts_config_is_visible");
    lemma_push_after(t, "pg_try_advisory_xact_lock"@, spec_core_entry("pg_ts_config_is_visible", FuncCategory::Scalar, FuncDomain::System, 1, Some(1), false), 4);
    let t = t.push(spec_core_entry("pg_ts_config_is_visible", FuncCategory::Scalar, FuncDomain::System, 1, Some(1), false));
    reveal_strlit("pg_ts_dict_is_visible");
    lemma_push_after(t, "pg_ts_config_is_visible"@, spec_core_entry("pg_ts_dict_is_visible", FuncCategory::Scalar, FuncDomain::System, 1, Some(1), false), 6);
    let t = t.push(spec_core_entry("pg_ts_dict_is_visible", FuncCategory::Scalar, FuncDomain::System, 1, Some(1), false));
    reveal_strlit("pg_ts_parser_is_visible");
    lemma_push_after(t, "pg_ts_dict_is_visible"@, spec_core_entry("pg_ts_parser_is_visible", FuncCategory::Scalar, FuncDomain::System, 1, Some(1), false), 6);
    let t = t.push(spec_core_entry("pg_ts_parser_is_visible", FuncCategory::Scalar, FuncDomain::System, 1, Some(1), false));
    reveal_strlit("pg_ts_template_is_visible");
    lemma_push_after(t, "pg_ts_parser_is_visible"@, spec_core_entry("pg_ts_template_is_visible", FuncCategory::Scalar, FuncDomain::System, 1, Some(1), false), 6);
    let t = t.push(spec_core_entry("pg_ts_template_is_visible", FuncCategory::Scalar, FuncDomain::System, 1, Some(1), false));
    reveal_strlit("pg_type_is_visible");
    lemma_push_after(t, "pg_ts_template_is_visible"@, spec_core_entry("pg_type_is_visible", FuncCategory::Scalar, FuncDomain::System, 1, Some(1), false), 4);
    let t = t.push(spec_core_entry("pg_type_is_visible", FuncCategory::Scalar, FuncDomain::System, 1, Some(1), false));
    assert(t == table_chunk_6_6(s));
}

pub open spec fn table_chunk_6_7(s: Seq<FuncMeta>) -> Seq<FuncMeta> {
    s
        .push(spec_core_entry("pg_typeof", FuncCategory::Scalar, FuncDomain::System, 1, Some(1), false))
        .push(spec_core_entry("pg_xlog_location_diff", FuncCategory::Scalar, FuncDomain::System, 2, Some(2), false))
        .push(spec_core_entry("pg_xlog_replay_pause", FuncCategory::Scalar, FuncDomain::System, 0, Some(0), false))
        .push(spec_core_entry("pg_xlog_replay_resume", FuncCategory::Scalar, FuncDomain::System, 0, Some(0), false))
        .push(spec_core_entry("pg_xlogfile_name", FuncCategory::Scalar, FuncDomain::System, 1, Some(1), false))
        .push(spec_core_entry("pg_xlogfile_name_offset", FuncCategory::Scalar, FuncDomain::System, 1, Some(1), false))
        .push(spec_core_entry("pi", FuncCategory::Scalar, FuncDomain::Math, 0, Some(0), false))
        .push(spec_oracle_entry("pkg_service.isubmit_on_nodes", FuncCategory::Scalar, FuncDomain::PkgService, 5, Some(6), false))
        .push(spec_oracle_entry("pkg_service.job_cancel", FuncCategory::Scalar, FuncDomain::PkgService, 1, Some(1), false))
        .push(spec_oracle_entry("pkg_service.job_finish", FuncCategory::Scalar, FuncDomain::PkgService, 2, Some(3), false))
}

proof fn lemma_chunk_6_7(s: Seq<FuncMeta>)
    requires
        names_increasing(s),
        s.len() == 0 || chars_before(s.last().name@, "pg_typeof"@),
    ensures
        names_increasing(table_chunk_6_7(s)),
        table_chunk_6_7(s).len() > 0,
        table_chunk_6_7(s).last().name@ == "pkg_service.job_finish"@,
{
    let t = s;
    reveal_strlit("pg_typeof");
    lemma_push_keeps_increasing(t, spec_core_entry("pg_typeof", FuncCategory::Scalar, FuncDomain::System, 1, Some(1), false));
    let t = t.push(spec_core_entry("pg_typeof", FuncCategory::Scalar, FuncDomain::System, 1, Some(1), false));
    reveal_strlit("pg_xlog_location_diff");
    lemma_push_after(t, "pg_typeof"@, spec_core_entry("pg_xlog_location_diff", FuncCategory::Scalar, FuncDomain::System, 2, Some(2), false), 3);
    let t = t.push(spec_core_entry("pg_xlog_location_diff", FuncCategory::Scalar, FuncDomain::System, 2, Some(2), false));
    reveal_strlit("pg_xlog_replay_pause");
    lemma_push_after(t, "pg_xlog_location_diff"@, spec_core_entry("pg_xlog_replay_pause", FuncCategory::Scalar, FuncDomain::System, 0, Some(0), false), 8);
    let t = t.push(spec_core_entry("pg_xlog_replay_pause", FuncCategory::Scalar, FuncDomain::System, 0, Some(0), false));
    reveal_strlit("pg_xlog_replay_resume");
    lemma_push_after(t, "pg_xlog_replay_pause"@, spec_core_entry("pg_xlog_replay_resume", FuncCategory::Scalar, FuncDomain::System, 0, Some(0), false), 15);
    let t = t.push(spec_core_entry("pg_xlog_replay_resume", FuncCategory::Scalar, FuncDomain::System, 0, Some(0), false));
    reveal_strlit("pg_xlogfile_name");
    lemma_push_after(t, "pg_xlog_replay_resume"@, spec_core_entry("pg_xlogfile_name", FuncCategory::Scalar, FuncDomain::System, 1, Some(1), false), 7);
    let t = t.push(spec_core_entry("pg_xlogfile_name", FuncCategory::Scalar, FuncDomain::System, 1, Some(1), false));
    reveal_strlit("pg_xlogfile_name_offset");
    lemma_push_after(t, "pg_xlogfile_name"@, spec_core_entry("pg_xlogfile_name_offset", FuncCategory::Scalar, FuncDomain::System, 1, Some(1), false), 16);
    let t = t.push(spec_core_entry("pg_xlogfile_name_offset", FuncCategory::Scalar, FuncDomain::System, 1, Some(1), false));
    reveal_strlit("pi");
    lemma_push_after(t, "pg_xlogfile_name_offset"@, spec_core_entry("pi", FuncCategory::Scalar, FuncDomain::Math, 0, Some(0), false), 1);
    let t = t.push(spec_core_entry("pi", FuncCategory::Scalar, FuncDomain::Math, 0, Some(0), false));
    reveal_strlit("pkg_service.isubmit_on_nodes");
    lemma_push_after(t, "pi"@, spec_oracle_entry("pkg_service.isubmit_on_nodes", FuncCategory::Scalar, FuncDomain::PkgService, 5, Some(6), false), 1);
    let t = t.push(spec_oracle_entry("pkg_service.isubmit_on_nodes", FuncCategory::Scalar, FuncDomain::PkgService, 5, Some(6), false));
    reveal_strlit("pkg_service.job_cancel");
    lemma_push_after(t, "pkg_service.isubmit_on_nodes"@, spec_oracle_entry("pkg_service.job_cancel", FuncCategory::Scalar, FuncDomain::PkgService, 1, Some(1), false), 12);
    let t = t.push(spec_oracle_entry("pkg_service.job_cancel", FuncCategory::Scalar, FuncDomain::PkgService, 1, Some(1), false));
    reveal_strlit("pkg_service.job_finish");
    lemma_push_after(t, "pkg_service.job_cancel"@, spec_oracle_entry("pkg_service.job_finish", FuncCategory::Scalar, FuncDomain::PkgService, 2, Some(3), false), 16);
    let t = t.push(spec_oracle_entry("pkg_service.job_finish", FuncCategory::Scalar, FuncDomain::PkgService, 2, Some(3), false));
    assert(t == table_chunk_6_7(s));
}

pub open spec fn table_chunk_6_8(s: Seq<FuncMeta>) -> Seq<FuncMeta> {
    s
        .push(spec_oracle_entry("pkg_service.job_submit", FuncCategory::Scalar, FuncDomain::PkgService, 3, Some(5), false))
        .push(spec_oracle_entry("pkg_service.job_update", FuncCategory::Scalar, FuncDomain::PkgService, 4, Some(4), false))
        .push(spec_oracle_entry("pkg_service.sql_cancel", FuncCategory::Scalar, FuncDomain::PkgService, 1, Some(1), false))
        .push(spec_oracle_entry("pkg_service.sql_clean_all_contexts", FuncCategory::Scalar, FuncDomain::PkgService, 0, Some(0), false))
        .push(spec_oracle_entry("pkg_service.sql_get_array_result", FuncCategory::Scalar, FuncDomain::PkgService, 4, Some(4), false))
        .push(spec_oracle_entry("pkg_service.sql_get_value", FuncCategory::Scalar, FuncDomain::PkgService, 3, Some(3), false))
        .push(spec_oracle_entry("pkg_service.sql_get_variable_result", FuncCategory::Scalar, FuncDomain::PkgService, 3, Some(3), false))
        .push(spec_oracle_entry("pkg_service.sql_is_context_active", FuncCategory::Scalar, FuncDomain::PkgService, 1, Some(1), false))
        .push(spec_oracle_entry("pkg_service.sql_next_row", FuncCategory::Scalar, FuncDomain::PkgService, 1, Some(1), false))
        .push(spec_oracle_entry("pkg_service.sql_register_context", FuncCategory::Scalar, FuncDomain::PkgService, 0, Some(0), false))
}

proof fn lemma_chunk_6_8(s: Seq<FuncMeta>)
    requires
        names_increasing(s),
        s.len() == 0 || chars_before(s.last().name@, "pkg_service.job_submit"@),
    ensures
        names_increasing(table_chunk_6_8(s)),
        table_chunk_6_8(s).len() > 0,
        table_chunk_6_8(s).last().name@ == "pkg_service.sql_register_context"@,
{
    let t = s;
    reveal_strlit("pkg_service.job_submit");
    lemma_push_keeps_increasing(t, spec_oracle_entry("pkg_service.job_submit", FuncCategory::Scalar, FuncDomain::PkgService, 3, Some(5), false));
    let t = t.push(spec_oracle_entry("pkg_service.job_submit", FuncCategory::Scalar, FuncDomain::PkgService, 3, Some(5), false));
    reveal_strlit("pkg_service.job_update");
    lemma_push_after(t, "pkg_service.job_submit"@, spec_oracle_entry("pkg_service.job_update", FuncCategory::Scalar, FuncDomain::PkgService, 4, Some(4), false), 16);
    let t = t.push(spec_oracle_entry("pkg_service.job_update", FuncCategory::Scalar, FuncDomain::PkgService, 4, Some(4), false));
    reveal_strlit("pkg_service.sql_cancel");
    lemma_push_after(t, "pkg_service.job_update"@, spec_oracle_entry("pkg_service.sql_cancel", FuncCategory::Scalar, FuncDomain::PkgService, 1, Some(1), false), 12);
    let t = t.push(spec_oracle_entry("pkg_service.sql_cancel", FuncCategory::Scalar, FuncDomain::PkgService, 1, Some(1), false));
    reveal_strlit("pkg_service.sql_clean_all_contexts");
    lemma_push_after(t, "pkg_service.sql_cancel"@, spec_oracle_entry("pkg_service.sql_clean_all_contexts", FuncCategory::Scalar, FuncDomain::PkgService, 0, Some(0), false), 17);
    let t = t.push(spec_oracle_entry("pkg_service.sql_clean_all_contexts", FuncCategory::Scalar, FuncDomain::PkgService, 0, Some(0), false));
    reveal_strlit("pkg_service.sql_get_array_result");
    lemma_push_after(t, "pkg_service.sql_clean_all_contexts"@, spec_oracle_entry("pkg_service.sql_get_array_result", FuncCategory::Scalar, FuncDomain::PkgService, 4, Some(4), false), 16);
    let t = t.push(spec_oracle_entry("pkg_service.sql_get_array_result", FuncCategory::Scalar, FuncDomain::PkgService, 4, Some(4), false));
    reveal_strlit("pkg_service.sql_get_value");
    lemma_push_after(t, "pkg_service.sql_get_array_result"@, spec_oracle_entry("pkg_service.sql_get_value", FuncCategory::Scalar, FuncDomain::PkgService, 3, Some(3), false), 20);
    let t = t.push(spec_oracle_entry("pkg_service.sql_get_value", FuncCategory::Scalar, FuncDomain::PkgService, 3, Some(3), false));
    reveal_strlit("pkg_service.sql_get_variable_result");
    lemma_push_after(t, "pkg_service.sql_get_value"@, spec_oracle_entry("pkg_service.sql_get_variable_result", FuncCategory::Scalar, FuncDomain::PkgService, 3, Some(3), false), 22);
    let t = t.push(spec_oracle_entry("pkg_service.sql_get_variable_result", FuncCategory::Scalar, FuncDomain::PkgService, 3, Some(3), false));
    reveal_strlit("pkg_service.sql_is_context_active");
    lemma_push_after(t, "pkg_service.sql_get_variable_result"@, spec_oracle_entry("pkg_service.sql_is_context_active", FuncCategory::Scalar, FuncDomain::PkgService, 1, Some(1), false), 16);
    let t = t.push(spec_oracle_entry("pkg_service.sql_is_context_active", FuncCategory::Scalar, FuncDomain::PkgService, 1, Some(1), false));
    reveal_strlit("pkg_service.sql_next_row");
    lemma_push_after(t, "pkg_service.sql_is_context_active"@, spec_oracle_entry("pkg_service.sql_next_row", FuncCategory::Scalar, FuncDomain::PkgService, 1, Some(1), false), 16);
    let t = t.push(spec_oracle_entry("pkg_service.sql_next_row", FuncCategory::Scalar, FuncDomain::PkgService, 1, Some(1), false));
    reveal_strlit("pkg_service.sql_register_context");
    lemma_push_after(t, "pkg_service.sql_next_row"@, spec_oracle_entry("pkg_service.sql_register_context", FuncCategory::Scalar, FuncDomain::PkgService, 0, Some(0), false), 16);
    let t = t.push(spec_oracle_entry("pkg_service.sql_register_context", FuncCategory::Scalar, FuncDomain::PkgService, 0, Some(0), false));
    assert(t == table_chunk_6_8(s));
}

pub open spec fn table_chunk_6_9(s: Seq<FuncMeta>) -> Seq<FuncMeta> {
    s
        .push(spec_oracle_entry("pkg_service.sql_run", FuncCategory::Scalar, FuncDomain::PkgService, 1, Some(1), false))
        .push(spec_oracle_entry("pkg_service.sql_set_result_type", FuncCategory::Scalar, FuncDomain::PkgService, 4, Some(4), false))
        .push(spec_oracle_entry("pkg_service.sql_set_sql", FuncCategory::Scalar, FuncDomain::PkgService, 3, Some(3), false))
        .push(spec_oracle_entry("pkg_service.sql_unregister_context", FuncCategory::Scalar, FuncDomain::PkgService, 1, Some(1), false))
        .push(spec_oracle_entry("pkg_service.submit_on_nodes", FuncCategory::Scalar, FuncDomain::PkgService, 5, Some(6), false))
        .push(spec_commercial_oracle_entry("pkg_util.app_read_action", FuncCategory::Scalar, FuncDomain::PkgUtil, 1, Some(1), false))
        .push(spec_commercial_oracle_entry("pkg_util.app_read_client_info", FuncCategory::Scalar, FuncDomain::PkgUtil, 1, Some(1), false))
        .push(spec_commercial_oracle_entry("pkg_util.app_read_module", FuncCategory::Scalar, FuncDomain::PkgUtil, 1, Some(1), false))
        .push(spec_commercial_oracle_entry("pkg_util.app_set_action", FuncCategory::Scalar, FuncDomain::PkgUtil, 1, Some(1), false))
        .push(spec_commercial_oracle_entry("pkg_util.app_set_client_info", FuncCategory::Scalar, FuncDomain::PkgUtil, 1, Some(1), false))
}

proof fn lemma_chunk_6_9(s: Seq<FuncMeta>)
    requires
        names_increasing(s),
        s.len() == 0 || chars_before(s.last().name@, "pkg_service.sql_run"@),
    ensures
        names_increasing(table_chunk_6_9(s)),
        table_chunk_6_9(s).len() > 0,
        table_chunk_6_9(s).last().name@ == "pkg_util.app_set_client_info"@,
{
    let t = s;
    reveal_strlit("pkg_service.sql_run");
    lemma_push_keeps_increasing(t, spec_oracle_entry("pkg_service.sql_run", FuncCategory::Scalar, FuncDomain::PkgService, 1, Some(1), false));
    let t = t.push(spec_oracle_entry("pkg_service.sql_run", FuncCategory::Scalar, FuncDomain::PkgService, 1, Some(1), false));
    reveal_strlit("pkg_service.sql_set_result_type");
    lemma_push_after(t, "pkg_service.sql_run"@, spec_oracle_entry("pkg_service.sql_set_result_type", FuncCategory::Scalar, FuncDomain::PkgService, 4, Some(4), false), 16);
    let t = t.push(spec_oracle_entry("pkg_service.sql_set_result_type", FuncCategory::Scalar, FuncDomain::PkgService, 4, Some(4), false));
    reveal_strlit("pkg_service.sql_set_sql");
    lemma_push_after(t, "pkg_service.sql_set_result_type"@, spec_oracle_entry("pkg_service.sql_set_sql", FuncCategory::Scalar, FuncDomain::PkgService, 3, Some(3), false), 20);
    let t = t.push(spec_oracle_entry("pkg_service.sql_set_sql", FuncCategory::Scalar, FuncDomain::PkgService, 3, Some(3), false));
    reveal_strlit("pkg_service.sql_unregister_context");
    lemma_push_after(t, "pkg_service.sql_set_sql"@, spec_oracle_entry("pkg_service.sql_unregister_context", FuncCategory::Scalar, FuncDomain::PkgService, 1, Some(1), false), 16);
    let t = t.push(spec_oracle_entry("pkg_service.sql_unregister_context", FuncCategory::Scalar, FuncDomain::PkgService, 1, Some(1), false));
    reveal_strlit("pkg_service.submit_on_nodes");
    lemma_push_after(t, "pkg_service.sql_unregister_context"@, spec_oracle_entry("pkg_service.submit_on_nodes", FuncCategory::Scalar, FuncDomain::PkgService, 5, Some(6), false), 13);
    let t = t.push(spec_oracle_entry("pkg_service.submit_on_nodes", FuncCategory::Scalar, FuncDomain::PkgService, 5, Some(6), false));
    reveal_strlit("pkg_util.app_read_action");
    lemma_push_after(t, "pkg_service.submit_on_nodes"@, spec_commercial_oracle_entry("pkg_util.app_read_action", FuncCategory::Scalar, FuncDomain::PkgUtil, 1, Some(1), false), 4);
    let t = t.push(spec_commercial_oracle_entry("pkg_util.app_read_action", FuncCategory::Scalar, FuncDomain::PkgUtil, 1, Some(1), false));
    reveal_strlit("pkg_util.app_read_client_info");
    lemma_push_after(t, "pkg_util.app_read_action"@, spec_commercial_oracle_entry("pkg_util.app_read_client_info", FuncCategory::Scalar, FuncDomain::PkgUtil, 1, Some(1), false), 18);
    let t = t.push(spec_commercial_oracle_entry("pkg_util.app_read_client_info", FuncCategory::Scalar, FuncDomain::PkgUtil, 1, Some(1), false));
    reveal_strlit("pkg_util.app_read_module");
    lemma_push_after(t, "pkg_util.app_read_client_info"@, spec_commercial_oracle_entry("pkg_util.app_read_module", FuncCategory::Scalar, FuncDomain::PkgUtil, 1, Some(1), false), 18);
    let t = t.push(spec_commercial_oracle_entry("pkg_util.app_read_module", FuncCategory::Scalar, FuncDomain::PkgUtil, 1, Some(1), false));
    reveal_strlit("pkg_util.app_set_action");
    lemma_push_after(t, "pkg_util.app_read_module"@, spec_commercial_oracle_entry("pkg_util.app_set_action", FuncCategory::Scalar, FuncDomain::PkgUtil, 1, Some(1), false), 13);
    let t = t.push(spec_commercial_oracle_entry("pkg_util.app_set_action", FuncCategory::Scalar, FuncDomain::PkgUtil, 1, Some(1), false));
    reveal_strlit("pkg_util.app_set_client_info");
    lemma_push_after(t, "pkg_util.app_set_action"@, spec_commercial_oracle_entry("pkg_util.app_set_client_info", FuncCategory::Scalar, FuncDomain::PkgUtil, 1, Some(1), false), 17);
    let t = t.push(spec_commercial_oracle_entry("pkg_util.app_set_client_info", FuncCategory::Scalar, FuncDomain::PkgUtil, 1, Some(1), false));
    assert(t == table_chunk_6_9(s));
}

pub open spec fn table_chunk_6_10(s: Seq<FuncMeta>) -> Seq<FuncMeta> {
    s
        .push(spec_commercial_oracle_entry("pkg_util.app_set_module", FuncCategory::Scalar, FuncDomain::PkgUtil, 1, Some(1), false))
        .push(spec_commercial_oracle_entry("pkg_util.bfile_close", FuncCategory::Scalar, FuncDomain::PkgUtil, 1, Some(1), false))
        .push(spec_commercial_oracle_entry("pkg_util.bfile_get_length", FuncCategory::Scalar, FuncDomain::PkgUtil, 1, Some(1), false))
        .push(spec_commercial_oracle_entry("pkg_util.bfile_open", FuncCategory::Scalar, FuncDomain::PkgUtil, 2, Some(2), false))
        .push(spec_commercial_oracle_entry("pkg_util.blob_reset", FuncCategory::Scalar, FuncDomain::PkgUtil, 2, Some(4), false))
        .push(spec_commercial_oracle_entry("pkg_util.clob_reset", FuncCategory::Scalar, FuncDomain::PkgUtil, 2, Some(3), false))
        .push(spec_commercial_oracle_entry("pkg_util.exception_report_error", FuncCategory::Scalar, FuncDomain::PkgUtil, 2, Some(3), false))
        .push(spec_commercial_oracle_entry("pkg_util.file_block_size", FuncCategory::Scalar, FuncDomain::PkgUtil, 1, Some(1), false))
        .push(spec_commercial_oracle_entry("pkg_util.file_close_all", FuncCategory::Scalar, FuncDomain::PkgUtil, 0, Some(0), false))
        .push(spec_commercial_oracle_entry("pkg_util.file_exists", FuncCategory::Scalar, FuncDomain::PkgUtil, 1, Some(1), false))
}

proof fn lemma_chunk_6_10(s: Seq<FuncMeta>)
    requires
        names_increasing(s),
        s.len() == 0 || chars_before(s.last().name@, "pkg_util.app_set_module"@),
    ensures
        names_increasing(table_chunk_6_10(s)),
        table_chunk_6_10(s).len() > 0,
        table_chunk_6_10(s).last().name@ == "pkg_util.file_exists"@,
{
    let t = s;
    reveal_strlit("pkg_util.app_set_module");
    lemma_push_keeps_increasing(t, spec_commercial_oracle_entry("pkg_util.app_set_module", FuncCategory::Scalar, FuncDomain::PkgUtil, 1, Some(1), false));
    let t = t.push(spec_commercial_oracle_entry("pkg_util.app_set_module", FuncCategory::Scalar, FuncDomain::PkgUtil, 1, Some(1), false));
    reveal_strlit("pkg_util.bfile_close");
    lemma_push_after(t, "pkg_util.app_set_module"@, spec_commercial_oracle_entry("pkg_util.bfile_close", FuncCategory::Scalar, FuncDomain::PkgUtil, 1, Some(1), false), 9);
    let t = t.push(spec_commercial_oracle_entry("pkg_util.bfile_close", FuncCategory::Scalar, FuncDomain::PkgUtil, 1, Some(1), false));
    reveal_strlit("pkg_util.bfile_get_length");
    lemma_push_after(t, "pkg_util.bfile_close"@, spec_commercial_oracle_entry("pkg_util.bfile_get_length", FuncCategory::Scalar, FuncDomain::PkgUtil, 1, Some(1), false), 15);
    let t = t.push(spec_commercial_oracle_entry("pkg_util.bfile_get_length", FuncCategory::Scalar, FuncDomain::PkgUtil, 1, Some(1), false));
    reveal_strlit("pkg_util.bfile_open");
    lemma_push_after(t, "pkg_util.bfile_get_length"@, spec_commercial_oracle_entry("pkg_util.bfile_open", FuncCategory::Scalar, FuncDomain::PkgUtil, 2, Some(2), false), 15);
    let t = t.push(spec_commercial_oracle_entry("pkg_util.bfile_open", FuncCategory::Scalar, FuncDomain::PkgUtil, 2, Some(2), false));
    reveal_strlit("pkg_util.blob_reset");
    lemma_push_after(t, "pkg_util.bfile_open"@, spec_commercial_oracle_entry("pkg_util.blob_reset", FuncCategory::Scalar, FuncDomain::PkgUtil, 2, Some(4), false), 10);
    let t = t.push(spec_commercial_oracle_entry("pkg_util.blob_reset", FuncCategory::Scalar, FuncDomain::PkgUtil, 2, Some(4), false));
    reveal_strlit("pkg_util.clob_reset");
    lemma_push_after(t, "pkg_util.blob_reset"@, spec_commercial_oracle_entry("pkg_util.clob_reset", FuncCategory::Scalar, FuncDomain::PkgUtil, 2, Some(3), false), 9);
    let t = t.push(spec_commercial_oracle_entry("pkg_util.clob_reset", FuncCategory::Scalar, FuncDomain::PkgUtil, 2, Some(3), false));
    reveal_strlit("pkg_util.exception_report_error");
    lemma_push_after(t, "pkg_util.clob_reset"@, spec_commercial_oracle_entry("pkg_util.exception_report_error", FuncCategory::Scalar, FuncDomain::PkgUtil, 2, Some(3), false), 9);
    let t = t.push(spec_commercial_oracle_entry("pkg_util.exception_report_error", FuncCategory::Scalar, FuncDomain::PkgUtil, 2, Some(3), false));
    reveal_strlit("pkg_util.file_block_size");
    lemma_push_after(t, "pkg_util.exception_report_error"@, spec_commercial_oracle_entry("pkg_util.file_block_size", FuncCategory::Scalar, FuncDomain::PkgUtil, 1, Some(1), false), 9);
    let t = t.push(spec_commercial_oracle_entry("pkg_util.file_block_size", FuncCategory::Scalar, FuncDomain::PkgUtil, 1, Some(1), false));
    reveal_strlit("pkg_util.file_close_all");
    lemma_push_after(t, "pkg_util.file_block_size"@, spec_commercial_oracle_entry("pkg_util.file_close_all", FuncCategory::Scalar, FuncDomain::PkgUtil, 0, Some(0), false), 14);
    let t = t.push(spec_commercial_oracle_entry("pkg_util.file_close_all", FuncCategory::Scalar, FuncDomain::PkgUtil, 0, Some(0), false));
    reveal_strlit("pkg_util.file_exists");
    lemma_push_after(t, "pkg_util.file_close_all"@, spec_commercial_oracle_entry("pkg_util.file_exists", FuncCategory::Scalar, FuncDomain::PkgUtil, 1, Some(1), false), 14);
    let t = t.push(spec_commercial_oracle_entry("pkg_util.file_exists", FuncCategory::Scalar, FuncDomain::PkgUtil, 1, Some(1), false));
    assert(t == table_chunk_6_10(s));
}

pub open spec fn table_chunk_6_11(s: Seq<FuncMeta>) -> Seq<FuncMeta> {
    s
        .push(spec_commercial_oracle_entry("pkg_util.file_getpos", FuncCategory::Scalar, FuncDomain::PkgUtil, 1, Some(1), false))
        .push(spec_commercial_oracle_entry("pkg_util.file_is_close", FuncCategory::Scalar, FuncDomain::PkgUtil, 1, Some(1), false))
        .push(spec_commercial_oracle_entry("pkg_util.file_newline", FuncCategory::Scalar, FuncDomain::PkgUtil, 1, Some(1), false))
        .push(spec_commercial_oracle_entry("pkg_util.file_open", FuncCategory::Scalar, FuncDomain::PkgUtil, 2, Some(2), false))
        .push(spec_commercial_oracle_entry("pkg_util.file_read", FuncCategory::Scalar, FuncDomain::PkgUtil, 2, Some(3), false))
        .push(spec_commercial_oracle_entry("pkg_util.file_read_raw", FuncCategory::Scalar, FuncDomain::PkgUtil, 1, Some(2), false))
        .push(spec_commercial_oracle_entry("pkg_util.file_readline", FuncCategory::Scalar, FuncDomain::PkgUtil, 2, Some(3), false))
        .push(spec_commercial_oracle_entry("pkg_util.file_remove", FuncCategory::Scalar, FuncDomain::PkgUtil, 1, Some(1), false))
        .push(spec_commercial_oracle_entry("pkg_util.file_rename", FuncCategory::Scalar, FuncDomain::PkgUtil, 4, Some(5), false))
        .push(spec_commercial_oracle_entry("pkg_util.file_seek", FuncCategory::Scalar, FuncDomain::PkgUtil, 2, Some(2), false))
}

proof fn lemma_chunk_6_11(s: Seq<FuncMeta>)
    requires
        names_increasing(s),
        s.len() == 0 || chars_before(s.last().name@, "pkg_util.file_getpos"@),
    ensures
        names_increasing(table_chunk_6_11(s)),
        table_chunk_6_11(s).len() > 0,
        table_chunk_6_11(s).last().name@ == "pkg_util.file_seek"@,
{
    let t = s;
    reveal_strlit("pkg_util.file_getpos");
    lemma_push_keeps_increasing(t, spec_commercial_oracle_entry("pkg_util.file_getpos", FuncCategory::Scalar, FuncDomain::PkgUtil, 1, Some(1), false));
    let t = t.push(spec_commercial_oracle_entry("pkg_util.file_getpos", FuncCategory::Scalar, FuncDomain::PkgUtil, 1, Some(1), false));
    reveal_strlit("pkg_util.file_is_close");
    lemma_push_after(t, "pkg_util.file_getpos"@, spec_commercial_oracle_entry("pkg_util.file_is_close", FuncCategory::Scalar, FuncDomain::PkgUtil, 1, Some(1), false), 14);
    let t = t.push(spec_commercial_oracle_entry("pkg_util.file_is_close", FuncCategory::Scalar, FuncDomain::PkgUtil, 1, Some(1), false));
    reveal_strlit("pkg_util.file_newline");
    lemma_push_after(t, "pkg_util.file_is_close"@, spec_commercial_oracle_entry("pkg_util.file_newline", FuncCategory::Scalar, FuncDomain::PkgUtil, 1, Some(1), false), 14);
    let t = t.push(spec_commercial_oracle_entry("pkg_util.file_newline", FuncCategory::Scalar, FuncDomain::PkgUtil, 1, Some(1), false));
    reveal_strlit("pkg_util.file_open");
    lemma_push_after(t, "pkg_util.file_newline"@, spec_commercial_oracle_entry("pkg_util.file_open", FuncCategory::Scalar, FuncDomain::PkgUtil, 2, Some(2), false), 14);
    let t = t.push(spec_commercial_oracle_entry("pkg_util.file_open", FuncCategory::Scalar, FuncDomain::PkgUtil, 2, Some(2), false));
    reveal_strlit("pkg_util.file_read");
    lemma_push_after(t, "pkg_util.file_open"@, spec_commercial_oracle_entry("pkg_util.file_read", FuncCategory::Scalar, FuncDomain::PkgUtil, 2, Some(3), false), 14);
    let t = t.push(spec_commercial_oracle_entry("pkg_util.file_read", FuncCategory::Scalar, FuncDomain::PkgUtil, 2, Some(3), false));
    reveal_strlit("pkg_util.file_read_raw");
    lemma_push_after(t, "pkg_util.file_read"@, spec_commercial_oracle_entry("pkg_util.file_read_raw", FuncCategory::Scalar, FuncDomain::PkgUtil, 1, Some(2), false), 18);
    let t = t.push(spec_commercial_oracle_entry("pkg_util.file_read_raw", FuncCategory::Scalar, FuncDomain::PkgUtil, 1, Some(2), false));
    reveal_strlit("pkg_util.file_readline");
    lemma_push_after(t, "pkg_util.file_read_raw"@, spec_commercial_oracle_entry("pkg_util.file_readline", FuncCategory::Scalar, FuncDomain::PkgUtil, 2, Some(3), false), 18);
    let t = t.push(spec_commercial_oracle_entry("pkg_util.file_readline", FuncCategory::Scalar, FuncDomain::PkgUtil, 2, Some(3), false));
    reveal_strlit("pkg_util.file_remove");
    lemma_push_after(t, "pkg_util.file_readline"@, spec_commercial_oracle_entry("pkg_util.file_remove", FuncCategory::Scalar, FuncDomain::PkgUtil, 1, Some(1), false), 16);
    let t = t.push(spec_commercial_oracle_entry("pkg_util.file_remove", FuncCategory::Scalar, FuncDomain::PkgUtil, 1, Some(1), false));
    reveal_strlit("pkg_util.file_rename");
    lemma_push_after(t, "pkg_util.file_remove"@, spec_commercial_oracle_entry("pkg_util.file_rename", FuncCategory::Scalar, FuncDomain::PkgUtil, 4, Some(5), false), 16);
    let t = t.push(spec_commercial_oracle_entry("pkg_util.file_rename", FuncCategory::Scalar, FuncDomain::PkgUtil, 4, Some(5), false));
    reveal_strlit("pkg_util.file_seek");
    lemma_push_after(t, "pkg_util.file_rename"@, spec_commercial_oracle_entry("pkg_util.file_seek", FuncCategory::Scalar, FuncDomain::PkgUtil, 2, Some(2), false), 14);
    let t = t.push(spec_commercial_oracle_entry("pkg_util.file_seek", FuncCategory::Scalar, FuncDomain::PkgUtil, 2, Some(2), false));
    assert(t == table_chunk_6_11(s));
}

pub open spec fn table_chunk_6_12(s: Seq<FuncMeta>) -> Seq<FuncMeta> {
    s
        .push(spec_commercial_oracle_entry("pkg_util.file_set_dirname", FuncCategory::Scalar, FuncDomain::PkgUtil, 1, Some(1), false))
        .push(spec_commercial_oracle_entry("pkg_util.file_set_max_line_size", FuncCategory::Scalar, FuncDomain::PkgUtil, 1, Some(1), false))
        .push(spec_commercial_oracle_entry("pkg_util.file_size", FuncCategory::Scalar, FuncDomain::PkgUtil, 1, Some(1), false))
        .push(spec_commercial_oracle_entry("pkg_util.file_write", FuncCategory::Scalar, FuncDomain::PkgUtil, 2, Some(2), false))
        .push(spec_commercial_oracle_entry("pkg_util.file_write_raw", FuncCategory::Scalar, FuncDomain::PkgUtil, 2, Some(2), false))
}

proof fn lemma_chunk_6_12(s: Seq<FuncMeta>)
    requires
        names_increasing(s),
        s.len() == 0 || chars_before(s.last().name@, "pkg_util.file_set_dirname"@),
    ensures
        names_increasing(table_chunk_6_12(s)),
        table_chunk_6_12(s).len() > 0,
        table_chunk_6_12(s).last().name@ == "pkg_util.file_write_raw"@,
{
    let t = s;
    reveal_strlit("pkg_util.file_set_dirname");
    lemma_push_keeps_increasing(t, spec_commercial_oracle_entry("pkg_util.file_set_dirname", FuncCategory::Scalar, FuncDomain::PkgUtil, 1, Some(1), false));
    let t = t.push(spec_commercial_oracle_entry("pkg_util.file_set_dirname", FuncCategory::Scalar, FuncDomain::PkgUtil, 1, Some(1), false));
    reveal_strlit("pkg_util.file_set_max_line_size");
    lemma_push_after(t, "pkg_util.file_set_dirname"@, spec_commercial_oracle_entry("pkg_util.file_set_max_line_size", FuncCategory::Scalar, FuncDomain::PkgUtil, 1, Some(1), false), 18);
    let t = t.push(spec_commercial_oracle_entry("pkg_util.file_set_max_line_size", FuncCategory::Scalar, FuncDomain::PkgUtil, 1, Some(1), false));
    reveal_strlit("pkg_util.file_size");
    lemma_push_after(t, "pkg_util.file_set_max_line_size"@, spec_commercial_oracle_entry("pkg_util.file_size", FuncCategory::Scalar, FuncDomain::PkgUtil, 1, Some(1), false), 15);
    let t = t.push(spec_commercial_oracle_entry("pkg_util.file_size", FuncCategory::Scalar, FuncDomain::PkgUtil, 1, Some(1), false));
    reveal_strlit("pkg_util.file_write");
    lemma_push_after(t, "pkg_util.file_size"@, spec_commercial_oracle_entry("pkg_util.file_write", FuncCategory::Scalar, FuncDomain::PkgUtil, 2, Some(2), false), 14);
    let t = t.push(spec_commercial_oracle_entry("pkg_util.file_write", FuncCategory::Scalar, FuncDomain::PkgUtil, 2, Some(2), false));
    reveal_strlit("pkg_util.file_write_raw");
    lemma_push_after(t, "pkg_util.file_write"@, spec_commercial_oracle_entry("pkg_util.file_write_raw", FuncCategory::Scalar, FuncDomain::PkgUtil, 2, Some(2), false), 19);
    let t = t.push(spec_commercial_oracle_entry("pkg_util.file_write_raw", FuncCategory::Scalar, FuncDomain::PkgUtil, 2, Some(2), false));
    assert(t == table_chunk_6_12(s));
}

proof fn lemma_part_6_increasing(s: Seq<FuncMeta>)
    requires
        names_increasing(s),
        s.len() == 0 || chars_before(s.last().name@, "pg_create_physical_replication_slot"@),
    ensures
        names_increasing(table_part_6(s)),
        table_part_6(s).len() > 0,
        table_part_6(s).last().name@ == "pkg_util.file_write_raw"@,
{
    lemma_chunk_6_0(s);
    let t0 = table_chunk_6_0(s);
    reveal_strlit("pg_function_is_visible");
    reveal_strlit("pg_get_constraintdef");
    lemma_chars_before_at("pg_function_is_visible"@, "pg_get_constraintdef"@, 3);
    lemma_chunk_6_1(t0);
    let t1 = table_chunk_6_1(t0);
    reveal_strlit("pg_get_viewdef");
    reveal_strlit("pg_has_role");
    lemma_chars_before_at("pg_get_viewdef"@, "pg_has_role"@, 3);
    lemma_chunk_6_2(t1);
    let t2 = table_chunk_6_2(t1);
    reveal_strlit("pg_logical_slot_peek_binary_changes");
    reveal_strlit("pg_logical_slot_peek_changes");
    lemma_chars_before_at("pg_logical_slot_peek_binary_changes"@, "pg_logical_slot_peek_changes"@, 21);
    lemma_chunk_6_3(t2);
    let t3 = table_chunk_6_3(t2);
    reveal_strlit("pg_query_audit");
    reveal_strlit("pg_read_binary_file");
    lemma_chars_before_at("pg_query_audit"@, "pg_read_binary_file"@, 3);
    lemma_chunk_6_4(t3);
    let t4 = table_chunk_6_4(t3);
    reveal_strlit("pg_rotate_logfile");
    reveal_strlit("pg_size_pretty");
    lemma_chars_before_at("pg_rotate_logfile"@, "pg_size_pretty"@, 3);
    lemma_chunk_6_5(t4);
    let t5 = table_chunk_6_5(t4);
    reveal_strlit("pg_tablespace_location");
    reveal_strlit("pg_tablespace_size");
    lemma_chars_before_at("pg_tablespace_location"@, "pg_tablespace_size"@, 14);
    lemma_chunk_6_6(t5);
    let t6 = table_chunk_6_6(t5);
    reveal_strlit("pg_type_is_visible");
    reveal_strlit("pg_typeof");
    lemma_chars_before_at("pg_type_is_visible"@, "pg_typeof"@, 7);
    lemma_chunk_6_7(t6);
    let t7 = table_chunk_6_7(t6);
    reveal_strlit("pkg_service.job_finish");
    reveal_strlit("pkg_service.job_submit");
    lemma_chars_before_at("pkg_service.job_finish"@, "pkg_service.job_submit"@, 16);
    lemma_chunk_6_8(t7);
    let t8 = table_chunk_6_8(t7);
    reveal_strlit("pkg_service.sql_register_context");
    reveal_strlit("pkg_service.sql_run");
    lemma_chars_before_at("pkg_service.sql_register_context"@, "pkg_service.sql_run"@, 17);
    lemma_chunk_6_9(t8);
    let t9 = table_chunk_6_9(t8);
    reveal_strlit("pkg_util.app_set_client_info");
    reveal_strlit("pkg_util.app_set_module");
    lemma_chars_before_at("pkg_util.app_set_client_info"@, "pkg_util.app_set_module"@, 17);
    lemma_chunk_6_10(t9);
    let t10 = table_chunk_6_10(t9);
    reveal_strlit("pkg_util.file_exists");
    reveal_strlit("pkg_util.file_getpos");
    lemma_chars_before_at("pkg_util.file_exists"@, "pkg_util.file_getpos"@, 14);
    lemma_chunk_6_11(t10);
    let t11 = table_chunk_6_11(t10);
    reveal_strlit("pkg_util.file_seek");
    reveal_strlit("pkg_util.file_set_dirname");
    lemma_chars_before_at("pkg_util.file_seek"@, "pkg_util.file_set_dirname"@, 16);
    lemma_chunk_6_12(t11);
    let t12 = table_chunk_6_12(t11);
    assert(t12 == table_part_6(s));
}

pub open spec fn table_chunk_7_0(s: Seq<FuncMeta>) -> Seq<FuncMeta> {
    s
        .push(spec_commercial_oracle_entry("pkg_util.file_writeline", FuncCategory::Scalar, FuncDomain::PkgUtil, 2, Some(2), false))
        .push(spec_commercial_oracle_entry("pkg_util.gs_compile_schema", FuncCategory::Scalar, FuncDomain::PkgUtil, 0, Some(3), false))
        .push(spec_commercial_oracle_entry("pkg_util.io_print", FuncCategory::Scalar, FuncDomain::PkgUtil, 2, Some(2), false))
        .push(spec_commercial_oracle_entry("pkg_util.loadblobfromfile", FuncCategory::Scalar, FuncDomain::PkgUtil, 5, Some(5), false))
        .push(spec_commercial_oracle_entry("pkg_util.loadclobfromfile", FuncCategory::Scalar, FuncDomain::PkgUtil, 5, Some(5), false))
        .push(spec_commercial_oracle_entry("pkg_util.lob_append", FuncCategory::Scalar, FuncDomain::PkgUtil, 2, Some(3), false))
        .push(spec_commercial_oracle_entry("pkg_util.lob_append_huge", FuncCategory::Scalar, FuncDomain::PkgUtil, 2, Some(2), false))
        .push(spec_commercial_oracle_entry("pkg_util.lob_compare", FuncCategory::Scalar, FuncDomain::PkgUtil, 2, Some(5), false))
        .push(spec_commercial_oracle_entry("pkg_util.lob_converttoblob", FuncCategory::Scalar, FuncDomain::PkgUtil, 5, Some(5), false))
        .push(spec_commercial_oracle_entry("pkg_util.lob_converttoblob_huge", FuncCategory::Scalar, FuncDomain::PkgUtil, 5, Some(5), false))
}

proof fn lemma_chunk_7_0(s: Seq<FuncMeta>)
    requires
        names_increasing(s),
        s.len() == 0 || chars_before(s.last().name@, "pkg_util.file_writeline"@),
    ensures
        names_increasing(table_chunk_7_0(s)),
        table_chunk_7_0(s).len() > 0,
        table_chunk_7_0(s).last().name@ == "pkg_util.lob_converttoblob_huge"@,
{
    let t = s;
    reveal_strlit("pkg_util.file_writeline");
    lemma_push_keeps_increasing(t, spec_commercial_oracle_entry("pkg_util.file_writeline", FuncCategory::Scalar, FuncDomain::PkgUtil, 2, Some(2), false));
    let t = t.push(spec_commercial_oracle_entry("pkg_util.file_writeline", FuncCategory::Scalar, FuncDomain::PkgUtil, 2, Some(2), false));
    reveal_strlit("pkg_util.gs_compile_schema");
    lemma_push_after(t, "pkg_util.file_writeline"@, spec_commercial_oracle_entry("pkg_util.gs_compile_schema", FuncCategory::Scalar, FuncDomain::PkgUtil, 0, Some(3), false), 9);
    let t = t.push(spec_commercial_oracle_entry("pkg_util.gs_compile_schema", FuncCategory::Scalar, FuncDomain::PkgUtil, 0, Some(3), false));
    reveal_strlit("pkg_util.io_print");
    lemma_push_after(t, "pkg_util.gs_compile_schema"@, spec_commercial_oracle_entry("pkg_util.io_print", FuncCategory::Scalar, FuncDomain::PkgUtil, 2, Some(2), false), 9);
    let t = t.push(spec_commercial_oracle_entry("pkg_util.io_print", FuncCategory::Scalar, FuncDomain::PkgUtil, 2, Some(2), false));
    reveal_strlit("pkg_util.loadblobfromfile");
    lemma_push_after(t, "pkg_util.io_print"@, spec_commercial_oracle_entry("pkg_util.loadblobfromfile", FuncCategory::Scalar, FuncDomain::PkgUtil, 5, Some(5), false), 9);
    let t = t.push(spec_commercial_oracle_entry("pkg_util.loadblobfromfile", FuncCategory::Scalar, FuncDomain::PkgUtil, 5, Some(5), false));
    reveal_strlit("pkg_util.loadclobfromfile");
    lemma_push_after(t, "pkg_util.loadblobfromfile"@, spec_commercial_oracle_entry("pkg_util.loadclobfromfile", FuncCategory::Scalar, FuncDomain::PkgUtil, 5, Some(5), false), 13);
    let t = t.push(spec_commercial_oracle_entry("pkg_util.loadclobfromfile", FuncCategory::Scalar, FuncDomain::PkgUtil, 5, Some(5), false));
    reveal_strlit("pkg_util.lob_append");
    lemma_push_after(t, "pkg_util.loadclobfromfile"@, spec_commercial_oracle_entry("pkg_util.lob_append", FuncCategory::Scalar, FuncDomain::PkgUtil, 2, Some(3), false), 11);
    let t = t.push(spec_commercial_oracle_entry("pkg_util.lob_append", FuncCategory::Scalar, FuncDomain::PkgUtil, 2, Some(3), false));
    reveal_strlit("pkg_util.lob_append_huge");
    lemma_push_after(t, "pkg_util.lob_append"@, spec_commercial_oracle_entry("pkg_util.lob_append_huge", FuncCategory::Scalar, FuncDomain::PkgUtil, 2, Some(2), false), 19);
    let t = t.push(spec_commercial_oracle_entry("pkg_util.lob_append_huge", FuncCategory::Scalar, FuncDomain::PkgUtil, 2, Some(2), false));
    reveal_strlit("pkg_util.lob_compare");
    lemma_push_after(t, "pkg_util.lob_append_huge"@, spec_commercial_oracle_entry("pkg_util.lob_compare", FuncCategory::Scalar, FuncDomain::PkgUtil, 2, Some(5), false), 13);
    let t = t.push(spec_commercial_oracle_entry("pkg_util.lob_compare", FuncCategory::Scalar, FuncDomain::PkgUtil, 2, Some(5), false));
    reveal_strlit("pkg_util.lob_converttoblob");
    lemma_push_after(t, "pkg_util.lob_compare"@, spec_commercial_oracle_entry("pkg_util.lob_converttoblob", FuncCategory::Scalar, FuncDomain::PkgUtil, 5, Some(5), false), 15);
    let t = t.push(spec_commercial_oracle_entry("pkg_util.lob_converttoblob", FuncCategory::Scalar, FuncDomain::PkgUtil, 5, Some(5), false));
    reveal_strlit("pkg_util.lob_converttoblob_huge");
    lemma_push_after(t, "pkg_util.lob_converttoblob"@, spec_commercial_oracle_entry("pkg_util.lob_converttoblob_huge", FuncCategory::Scalar, FuncDomain::PkgUtil, 5, Some(5), false), 26);
    let t = t.push(spec_commercial_oracle_entry("pkg_util.lob_converttoblob_huge", FuncCategory::Scalar, FuncDomain::PkgUtil, 5, Some(5), false));
    assert(t == table_chunk_7_0(s));
}

pub open spec fn table_chunk_7_1(s: Seq<FuncMeta>) -> Seq<FuncMeta> {
    s
        .push(spec_commercial_oracle_entry("pkg_util.lob_converttoclob", FuncCategory::Scalar, FuncDomain::PkgUtil, 5, Some(5), false))
        .push(spec_commercial_oracle_entry("pkg_util.lob_converttoclob_huge", FuncCategory::Scalar, FuncDomain::PkgUtil, 5, Some(5), false))
        .push(spec_commercial_oracle_entry("pkg_util.lob_copy_huge", FuncCategory::Scalar, FuncDomain::PkgUtil, 3, Some(5), false))
        .push(spec_commercial_oracle_entry("pkg_util.lob_get_length", FuncCategory::Scalar, FuncDomain::PkgUtil, 1, Some(1), false))
        .push(spec_commercial_oracle_entry("pkg_util.lob_match", FuncCategory::Scalar, FuncDomain::PkgUtil, 3, Some(4), false))
        .push(spec_commercial_oracle_entry("pkg_util.lob_rawtotext", FuncCategory::Scalar, FuncDomain::PkgUtil, 1, Some(1), false))
        .push(spec_commercial_oracle_entry("pkg_util.lob_read", FuncCategory::Scalar, FuncDomain::PkgUtil, 4, Some(4), false))
        .push(spec_commercial_oracle_entry("pkg_util.lob_read_huge", FuncCategory::Scalar, FuncDomain::PkgUtil, 4, Some(4), false))
        .push(spec_commercial_oracle_entry("pkg_util.lob_reset", FuncCategory::Scalar, FuncDomain::PkgUtil, 3, Some(4), false))
        .push(spec_commercial_oracle_entry("pkg_util.lob_texttoraw", FuncCategory::Scalar, FuncDomain::PkgUtil, 1, Some(1), false))
}

proof fn lemma_chunk_7_1(s: Seq<FuncMeta>)
    requires
        names_increasing(s),
        s.len() == 0 || chars_before(s.last().name@, "pkg_util.lob_converttoclob"@),
    ensures
        names_increasing(table_chunk_7_1(s)),
        table_chunk_7_1(s).len() > 0,
        table_chunk_7_1(s).last().name@ == "pkg_util.lob_texttoraw"@,
{
    let t = s;
    reveal_strlit("pkg_util.lob_converttoclob");
    lemma_push_keeps_increasing(t, spec_commercial_oracle_entry("pkg_util.lob_converttoclob", FuncCategory::Scalar, FuncDomain::PkgUtil, 5, Some(5), false));
    let t = t.push(spec_commercial_oracle_entry("pkg_util.lob_converttoclob", FuncCategory::Scalar, FuncDomain::PkgUtil, 5, Some(5), false));
    reveal_strlit("pkg_util.lob_converttoclob_huge");
    lemma_push_after(t, "pkg_util.lob_converttoclob"@, spec_commercial_oracle_entry("pkg_util.lob_converttoclob_huge", FuncCategory::Scalar, FuncDomain::PkgUtil, 5, Some(5), false), 26);
    let t = t.push(spec_commercial_oracle_entry("pkg_util.lob_converttoclob_huge", FuncCategory::Scalar, FuncDomain::PkgUtil, 5, Some(5), false));
    reveal_strlit("pkg_util.lob_copy_huge");
    lemma_push_after(t, "pkg_util.lob_converttoclob_huge"@, spec_commercial_oracle_entry("pkg_util.lob_copy_huge", FuncCategory::Scalar, FuncDomain::PkgUtil, 3, Some(5), false), 15);
    let t = t.push(spec_commercial_oracle_entry("pkg_util.lob_copy_huge", FuncCategory::Scalar, FuncDomain::PkgUtil, 3, Some(5), false));
    reveal_strlit("pkg_util.lob_get_length");
    lemma_push_after(t, "pkg_util.lob_copy_huge"@, spec_commercial_oracle_entry("pkg_util.lob_get_length", FuncCategory::Scalar, FuncDomain::PkgUtil, 1, Some(1), false), 13);
    let t = t.push(spec_commercial_oracle_entry("pkg_util.lob_get_length", FuncCategory::Scalar, FuncDomain::PkgUtil, 1, Some(1), false));
    reveal_strlit("pkg_util.lob_match");
    lemma_push_after(t, "pkg_util.lob_get_length"@, spec_commercial_oracle_entry("pkg_util.lob_match", FuncCategory::Scalar, FuncDomain::PkgUtil, 3, Some(4), false), 13);
    let t = t.push(spec_commercial_oracle_entry("pkg_util.lob_match", FuncCategory::Scalar, FuncDomain::PkgUtil, 3, Some(4), false));
    reveal_strlit("pkg_util.lob_rawtotext");
    lemma_push_after(t, "pkg_util.lob_match"@, spec_commercial_oracle_entry("pkg_util.lob_rawtotext", FuncCategory::Scalar, FuncDomain::PkgUtil, 1, Some(1), false), 13);
    let t = t.push(spec_commercial_oracle_entry("pkg_util.lob_rawtotext", FuncCategory::Scalar, FuncDomain::PkgUtil, 1, Some(1), false));
    reveal_strlit("pkg_util.lob_read");
    lemma_push_after(t, "pkg_util.lob_rawtotext"@, spec_commercial_oracle_entry("pkg_util.lob_read", FuncCategory::Scalar, FuncDomain::PkgUtil, 4, Some(4), false), 14);
    let t = t.push(spec_commercial_oracle_entry("pkg_util.lob_read", FuncCategory::Scalar, FuncDomain::PkgUtil, 4, Some(4), false));
    reveal_strlit("pkg_util.lob_read_huge");
    lemma_push_after(t, "pkg_util.lob_read"@, spec_commercial_oracle_entry("pkg_util.lob_read_huge", FuncCategory::Scalar, FuncDomain::PkgUtil, 4, Some(4), false), 17);
    let t = t.push(spec_commercial_oracle_entry("pkg_util.lob_read_huge", FuncCategory::Scalar, FuncDomain::PkgUtil, 4, Some(4), false));
    reveal_strlit("pkg_util.lob_reset");
    lemma_push_after(t, "pkg_util.lob_read_huge"@, spec_commercial_oracle_entry("pkg_util.lob_reset", FuncCategory::Scalar, FuncDomain::PkgUtil, 3, Some(4), false), 15);
    let t = t.push(spec_commercial_oracle_entry("pkg_util.lob_reset", FuncCategory::Scalar, FuncDomain::PkgUtil, 3, Some(4), false));
    reveal_strlit("pkg_util.lob_texttoraw");
    lemma_push_after(t, "pkg_util.lob_reset"@, spec_commercial_oracle_entry("pkg_util.lob_texttoraw", FuncCategory::Scalar, FuncDomain::PkgUtil, 1, Some(1), false), 13);
    let t = t.push(spec_commercial_oracle_entry("pkg_util.lob_texttoraw", FuncCategory::Scalar, FuncDomain::PkgUtil, 1, Some(1), false));
    assert(t == table_chunk_7_1(s));
}

pub open spec fn table_chunk_7_2(s: Seq<FuncMeta>) -> Seq<FuncMeta> {
    s
        .push(spec_commercial_oracle_entry("pkg_util.lob_write", FuncCategory::Scalar, FuncDomain::PkgUtil, 3, Some(3), false))
        .push(spec_commercial_oracle_entry("pkg_util.lob_write_huge", FuncCategory::Scalar, FuncDomain::PkgUtil, 4, Some(4), false))
        .push(spec_commercial_oracle_entry("pkg_util.lob_writeappend_huge", FuncCategory::Scalar, FuncDomain::PkgUtil, 3, Some(3), false))
        .push(spec_commercial_oracle_entry("pkg_util.match_edit_distance_similarity", FuncCategory::Scalar, FuncDomain::PkgUtil, 2, Some(2), false))
        .push(spec_commercial_oracle_entry("pkg_util.modify_package_state", FuncCategory::Scalar, FuncDomain::PkgUtil, 1, Some(1), false))
        .push(spec_commercial_oracle_entry("pkg_util.random_get_value", FuncCategory::Scalar, FuncDomain::PkgUtil, 0, Some(0), false))
        .push(spec_commercial_oracle_entry("pkg_util.random_set_seed", FuncCategory::Scalar, FuncDomain::PkgUtil, 1, Some(1), false))
        .push(spec_commercial_oracle_entry("pkg_util.raw_cast_from_binary_integer", FuncCategory::Scalar, FuncDomain::PkgUtil, 2, Some(2), false))
        .push(spec_commercial_oracle_entry("pkg_util.raw_cast_from_varchar2", FuncCategory::Scalar, FuncDomain::PkgUtil, 1, Some(1), false))
        .push(spec_commercial_oracle_entry("pkg_util.raw_cast_to_binary_integer", FuncCategory::Scalar, FuncDomain::PkgUtil, 2, Some(2), false))
}

proof fn lemma_chunk_7_2(s: Seq<FuncMeta>)
    requires
        names_increasing(s),
        s.len() == 0 || chars_before(s.last().name@, "pkg_util.lob_write"@),
    ensures
        names_increasing(table_chunk_7_2(s)),
        table_chunk_7_2(s).len() > 0,
        table_chunk_7_2(s).last().name@ == "pkg_util.raw_cast_to_binary_integer"@,
{
    let t = s;
    reveal_strlit("pkg_util.lob_write");
    lemma_push_keeps_increasing(t, spec_commercial_oracle_entry("pkg_util.lob_write", FuncCategory::Scalar, FuncDomain::PkgUtil, 3, Some(3), false));
    let t = t.push(spec_commercial_oracle_entry("pkg_util.lob_write", FuncCategory::Scalar, FuncDomain::PkgUtil, 3, Some(3), false));
    reveal_strlit("pkg_util.lob_write_huge");
    lemma_push_after(t, "pkg_util.lob_write"@, spec_commercial_oracle_entry("pkg_util.lob_write_huge", FuncCategory::Scalar, FuncDomain::PkgUtil, 4, Some(4), false), 18);
    let t = t.push(spec_commercial_oracle_entry("pkg_util.lob_write_huge", FuncCategory::Scalar, FuncDomain::PkgUtil, 4, Some(4), false));
    reveal_strlit("pkg_util.lob_writeappend_huge");
    lemma_push_after(t, "pkg_util.lob_write_huge"@, spec_commercial_oracle_entry("pkg_util.lob_writeappend_huge", FuncCategory::Scalar, FuncDomain::PkgUtil, 3, Some(3), false), 18);
    let t = t.push(spec_commercial_oracle_entry("pkg_util.lob_writeappend_huge", FuncCategory::Scalar, FuncDomain::PkgUtil, 3, Some(3), false));
    reveal_strlit("pkg_util.match_edit_distance_similarity");
    lemma_push_after(t, "pkg_util.lob_writeappend_huge"@, spec_commercial_oracle_entry("pkg_util.match_edit_distance_similarity", FuncCategory::Scalar, FuncDomain::PkgUtil, 2, Some(2), false), 9);
    let t = t.push(spec_commercial_oracle_entry("pkg_util.match_edit_distance_similarity", FuncCategory::Scalar, FuncDomain::PkgUtil, 2, Some(2), false));
    reveal_strlit("pkg_util.modify_package_state");
    lemma_push_after(t, "pkg_util.match_edit_distance_similarity"@, spec_commercial_oracle_entry("pkg_util.modify_package_state", FuncCategory::Scalar, FuncDomain::PkgUtil, 1, Some(1), false), 10);
    let t = t.push(spec_commercial_oracle_entry("pkg_util.modify_package_state", FuncCategory::Scalar, FuncDomain::PkgUtil, 1, Some(1), false));
    reveal_strlit("pkg_util.random_get_value");
    lemma_push_after(t, "pkg_util.modify_package_state"@, spec_commercial_oracle_entry("pkg_util.random_get_value", FuncCategory::Scalar, FuncDomain::PkgUtil, 0, Some(0), false), 9);
    let t = t.push(spec_commercial_oracle_entry("pkg_util.random_get_value", FuncCategory::Scalar, FuncDomain::PkgUtil, 0, Some(0), false));
    reveal_strlit("pkg_util.random_set_seed");
    lemma_push_after(t, "pkg_util.random_get_value"@, spec_commercial_oracle_entry("pkg_util.random_set_seed", FuncCategory::Scalar, FuncDomain::PkgUtil, 1, Some(1), false), 16);
    let t = t.push(spec_commercial_oracle_entry("pkg_util.random_set_seed", FuncCategory::Scalar, FuncDomain::PkgUtil, 1, Some(1), false));
    reveal_strlit("pkg_util.raw_cast_from_binary_integer");
    lemma_push_after(t, "pkg_util.random_set_seed"@, spec_commercial_oracle_entry("pkg_util.raw_cast_from_binary_integer", FuncCategory::Scalar, FuncDomain::PkgUtil, 2, Some(2), false), 11);
    let t = t.push(spec_commercial_oracle_entry("pkg_util.raw_cast_from_binary_integer", FuncCategory::Scalar, FuncDomain::PkgUtil, 2, Some(2), false));
    reveal_strlit("pkg_util.raw_cast_from_varchar2");
    lemma_push_after(t, "pkg_util.raw_cast_from_binary_integer"@, spec_commercial_oracle_entry("pkg_util.raw_cast_from_varchar2", FuncCategory::Scalar, FuncDomain::PkgUtil, 1, Some(1), false), 23);
    let t = t.push(spec_commercial_oracle_entry("pkg_util.raw_cast_from_varchar2", FuncCategory::Scalar, FuncDomain::PkgUtil, 1, Some(1), false));
    reveal_strlit("pkg_util.raw_cast_to_binary_integer");
    lemma_push_after(t, "pkg_util.raw_cast_from_varchar2"@, spec_commercial_oracle_entry("pkg_util.raw_cast_to_binary_integer", FuncCategory::Scalar, FuncDomain::PkgUtil, 2, Some(2), false), 18);
    let t = t.push(spec_commercial_oracle_entry("pkg_util.raw_cast_to_binary_integer", FuncCategory::Scalar, FuncDomain::PkgUtil, 2, Some(2), false));
    assert(t == table_chunk_7_2(s));
}

pub open spec fn table_chunk_7_3(s: Seq<FuncMeta>) -> Seq<FuncMeta> {
    s
        .push(spec_commercial_oracle_entry("pkg_util.raw_cast_to_varchar2", FuncCategory::Scalar, FuncDomain::PkgUtil, 1, Some(1), false))
        .push(spec_commercial_oracle_entry("pkg_util.raw_get_length", FuncCategory::Scalar, FuncDomain::PkgUtil, 1, Some(1), false))
        .push(spec_commercial_oracle_entry("pkg_util.read_bfile_to_blob", FuncCategory::Scalar, FuncDomain::PkgUtil, 1, Some(1), false))
        .push(spec_commercial_oracle_entry("pkg_util.session_clear_context", FuncCategory::Scalar, FuncDomain::PkgUtil, 3, Some(3), false))
        .push(spec_commercial_oracle_entry("pkg_util.session_search_context", FuncCategory::Scalar, FuncDomain::PkgUtil, 2, Some(2), false))
        .push(spec_commercial_oracle_entry("pkg_util.session_set_context", FuncCategory::Scalar, FuncDomain::PkgUtil, 3, Some(3), false))
        .push(spec_commercial_oracle_entry("pkg_util.utility_compile_schema", FuncCategory::Scalar, FuncDomain::PkgUtil, 1, Some(3), false))
        .push(spec_commercial_oracle_entry("pkg_util.utility_format_call_stack", FuncCategory::Scalar, FuncDomain::PkgUtil, 0, Some(0), false))
        .push(spec_commercial_oracle_entry("pkg_util.utility_format_error_backtrace", FuncCategory::Scalar, FuncDomain::PkgUtil, 0, Some(0), false))
        .push(spec_commercial_oracle_entry("pkg_util.utility_format_error_stack", FuncCategory::Scalar, FuncDomain::PkgUtil, 0, Some(0), false))
}

proof fn lemma_chunk_7_3(s: Seq<FuncMeta>)
    requires
        names_increasing(s),
        s.len() == 0 || chars_before(s.last().name@, "pkg_util.raw_cast_to_varchar2"@),
    ensures
        names_increasing(table_chunk_7_3(s)),
        table_chunk_7_3(s).len() > 0,
        table_chunk_7_3(s).last().name@ == "pkg_util.utility_format_error_stack"@,
{
    let t = s;
    reveal_strlit("pkg_util.raw_cast_to_varchar2");
    lemma_push_keeps_increasing(t, spec_commercial_oracle_entry("pkg_util.raw_cast_to_varchar2", FuncCategory::Scalar, FuncDomain::PkgUtil, 1, Some(1), false));
    let t = t.push(spec_commercial_oracle_entry("pkg_util.raw_cast_to_varchar2", FuncCategory::Scalar, FuncDomain::PkgUtil, 1, Some(1), false));
    reveal_strlit("pkg_util.raw_get_length");
    lemma_push_after(t, "pkg_util.raw_cast_to_varchar2"@, spec_commercial_oracle_entry("pkg_util.raw_get_length", FuncCategory::Scalar, FuncDomain::PkgUtil, 1, Some(1), false), 13);
    let t = t.push(spec_commercial_oracle_entry("pkg_util.raw_get_length", FuncCategory::Scalar, FuncDomain::PkgUtil, 1, Some(1), false));
    reveal_strlit("pkg_util.read_bfile_to_blob");
    lemma_push_after(t, "pkg_util.raw_get_length"@, spec_commercial_oracle_entry("pkg_util.read_bfile_to_blob", FuncCategory::Scalar, FuncDomain::PkgUtil, 1, Some(1), false), 10);
    let t = t.push(spec_commercial_oracle_entry("pkg_util.read_bfile_to_blob", FuncCategory::Scalar, FuncDomain::PkgUtil, 1, Some(1), false));
    reveal_strlit("pkg_util.session_clear_context");
    lemma_push_after(t, "pkg_util.read_bfile_to_blob"@, spec_commercial_oracle_entry("pkg_util.session_clear_context", FuncCategory::Scalar, FuncDomain::PkgUtil, 3, Some(3), false), 9);
    let t = t.push(spec_commercial_oracle_entry("pkg_util.session_clear_context", FuncCategory::Scalar, FuncDomain::PkgUtil, 3, Some(3), false));
    reveal_strlit("pkg_util.session_search_context");
    lemma_push_after(t, "pkg_util.session_clear_context"@, spec_commercial_oracle_entry("pkg_util.session_search_context", FuncCategory::Scalar, FuncDomain::PkgUtil, 2, Some(2), false), 17);
    let t = t.push(spec_commercial_oracle_entry("pkg_util.session_search_context", FuncCategory::Scalar, FuncDomain::PkgUtil, 2, Some(2), false));
    reveal_strlit("pkg_util.session_set_context");
    lemma_push_after(t, "pkg_util.session_search_context"@, spec_commercial_oracle_entry("pkg_util.session_set_context", FuncCategory::Scalar, FuncDomain::PkgUtil, 3, Some(3), false), 19);
    let t = t.push(spec_commercial_oracle_entry("pkg_util.session_set_context", FuncCategory::Scalar, FuncDomain::PkgUtil, 3, Some(3), false));
    reveal_strlit("pkg_util.utility_compile_schema");
    lemma_push_after(t, "pkg_util.session_set_context"@, spec_commercial_oracle_entry("pkg_util.utility_compile_schema", FuncCategory::Scalar, FuncDomain::PkgUtil, 1, Some(3), false), 9);
    let t = t.push(spec_commercial_oracle_entry("pkg_util.utility_compile_schema", FuncCategory::Scalar, FuncDomain::PkgUtil, 1, Some(3), false));
    reveal_strlit("pkg_util.utility_format_call_stack");
    lemma_push_after(t, "pkg_util.utility_compile_schema"@, spec_commercial_oracle_entry("pkg_util.utility_format_call_stack", FuncCategory::Scalar, FuncDomain::PkgUtil, 0, Some(0), false), 17);
    let t = t.push(spec_commercial_oracle_entry("pkg_util.utility_format_call_stack", FuncCategory::Scalar, FuncDomain::PkgUtil, 0, Some(0), false));
    reveal_strlit("pkg_util.utility_format_error_backtrace");
    lemma_push_after(t, "pkg_util.utility_format_call_stack"@, spec_commercial_oracle_entry("pkg_util.utility_format_error_backtrace", FuncCategory::Scalar, FuncDomain::PkgUtil, 0, Some(0), false), 24);
    let t = t.push(spec_commercial_oracle_entry("pkg_util.utility_format_error_backtrace", FuncCategory::Scalar, FuncDomain::PkgUtil, 0, Some(0), false));
    reveal_strlit("pkg_util.utility_format_error_stack");
    lemma_push_after(t, "pkg_util.utility_format_error_backtrace"@, spec_commercial_oracle_entry("pkg_util.utility_format_error_stack", FuncCategory::Scalar, FuncDomain::PkgUtil, 0, Some(0), false), 30);
    let t = t.push(spec_commercial_oracle_entry("pkg_util.utility_format_error_stack", FuncCategory::Scalar, FuncDomain::PkgUtil, 0, Some(0), false));
    assert(t == table_chunk_7_3(s));
}

pub open spec fn table_chunk_7_4(s: Seq<FuncMeta>) -> Seq<FuncMeta> {
    s
        .push(spec_commercial_oracle_entry("pkg_util.utility_get_time", FuncCategory::Scalar, FuncDomain::PkgUtil, 0, Some(0), false))
        .push(spec_core_entry("plainto_tsquery", FuncCategory::Scalar, FuncDomain::TextSearch, 1, Some(2), false))
        .push(spec_core_entry("point", FuncCategory::Scalar, FuncDomain::Geometric, 2, Some(2), false))
        .push(spec_core_entry("polygon", FuncCategory::Scalar, FuncDomain::Geometric, 1, Some(1), false))
        .push(spec_core_entry("position", FuncCategory::Scalar, FuncDomain::String, 2, Some(2), false))
        .push(spec_core_entry("power", FuncCategory::Scalar, FuncDomain::Math, 2, Some(2), false))
        .push(spec_core_entry("query_to_xml", FuncCategory::Scalar, FuncDomain::Xml, 4, Some(4), false))
        .push(spec_core_entry("query_to_xml_and_xmlschema", FuncCategory::Scalar, FuncDomain::Xml, 4, Some(4), false))
        .push(spec_core_entry("query_to_xmlschema", FuncCategory::Scalar, FuncDomain::Xml, 4, Some(4), false))
        .push(spec_core_entry("querytree", FuncCategory::Scalar, FuncDomain::TextSearch, 1, Some(1), false))
}

proof fn lemma_chunk_7_4(s: Seq<FuncMeta>)
    requires
        names_increasing(s),
        s.len() == 0 || chars_before(s.last().name@, "pkg_util.utility_get_time"@),
    ensures
        names_increasing(table_chunk_7_4(s)),
        table_chunk_7_4(s).len() > 0,
        table_chunk_7_4(s).last().name@ == "querytree"@,
{
    let t = s;
    reveal_strlit("pkg_util.utility_get_time");
    lemma_push_keeps_increasing(t, spec_commercial_oracle_entry("pkg_util.utility_get_time", FuncCategory::Scalar, FuncDomain::PkgUtil, 0, Some(0), false));
    let t = t.push(spec_commercial_oracle_entry("pkg_util.utility_get_time", FuncCategory::Scalar, FuncDomain::PkgUtil, 0, Some(0), false));
    reveal_strlit("plainto_tsquery");
    lemma_push_after(t, "pkg_util.utility_get_time"@, spec_core_entry("plainto_tsquery", FuncCategory::Scalar, FuncDomain::TextSearch, 1, Some(2), false), 1);
    let t = t.push(spec_core_entry("plainto_tsquery", FuncCategory::Scalar, FuncDomain::TextSearch, 1, Some(2), false));
    reveal_strlit("point");
    lemma_push_after(t, "plainto_tsquery"@, spec_core_entry("point", FuncCategory::Scalar, FuncDomain::Geometric, 2, Some(2), false), 1);
    let t = t.push(spec_core_entry("point", FuncCategory::Scalar, FuncDomain::Geometric, 2, Some(2), false));
    reveal_strlit("polygon");
    lemma_push_after(t, "point"@, spec_core_entry("polygon", FuncCategory::Scalar, FuncDomain::Geometric, 1, Some(1), false), 2);
    let t = t.push(spec_core_entry("polygon", FuncCategory::Scalar, FuncDomain::Geometric, 1, Some(1), false));
    reveal_strlit("position");
    lemma_push_after(t, "polygon"@, spec_core_entry("position", FuncCategory::Scalar, FuncDomain::String, 2, Some(2), false), 2);
    let t = t.push(spec_core_entry("position", FuncCategory::Scalar, FuncDomain::String, 2, Some(2), false));
    reveal_strlit("power");
    lemma_push_after(t, "position"@, spec_core_entry("power", FuncCategory::Scalar, FuncDomain::Math, 2, Some(2), false), 2);
    let t = t.push(spec_core_entry("power", FuncCategory::Scalar, FuncDomain::Math, 2, Some(2), false));
    reveal_strlit("query_to_xml");
    lemma_push_after(t, "power"@, spec_core_entry("query_to_xml", FuncCategory::Scalar, FuncDomain::Xml, 4, Some(4), false), 0);
    let t = t.push(spec_core_entry("query_to_xml", FuncCategory::Scalar, FuncDomain::Xml, 4, Some(4), false));
    reveal_strlit("query_to_xml_and_xmlschema");
    lemma_push_after(t, "query_to_xml"@, spec_core_entry("query_to_xml_and_xmlschema", FuncCategory::Scalar, FuncDomain::Xml, 4, Some(4), false), 12);
    let t = t.push(spec_core_entry("query_to_xml_and_xmlschema", FuncCategory::Scalar, FuncDomain::Xml, 4, Some(4), false));
    reveal_strlit("query_to_xmlschema");
    lemma_push_after(t, "query_to_xml_and_xmlschema"@, spec_core_entry("query_to_xmlschema", FuncCategory::Scalar, FuncDomain::Xml, 4, Some(4), false), 12);
    let t = t.push(spec_core_entry("query_to_xmlschema", FuncCategory::Scalar, FuncDomain::Xml, 4, Some(4), false));
    reveal_strlit("querytree");
    lemma_push_after(t, "query_to_xmlschema"@, spec_core_entry("querytree", FuncCategory::Scalar, FuncDomain::TextSearch, 1, Some(1), false), 5);
    let t = t.push(spec_core_entry("querytree", FuncCategory::Scalar, FuncDomain::TextSearch, 1, Some(1), false));
    assert(t == table_chunk_7_4(s));
}

pub open spec fn table_chunk_7_5(s: Seq<FuncMeta>) -> Seq<FuncMeta> {
    s
        .push(spec_core_entry("quote_ident", FuncCategory::Scalar, FuncDomain::String, 1, Some(1), false))
        .push(spec_core_entry("quote_literal", FuncCategory::Scalar, FuncDomain::String, 1, Some(1), false))
        .push(spec_core_entry("quote_nullable", FuncCategory::Scalar, FuncDomain::String, 1, Some(1), false))
        .push(spec_core_entry("radians", FuncCategory::Scalar, FuncDomain::Math, 1, Some(1), false))
        .push(spec_core_entry("radius", FuncCategory::Scalar, FuncDomain::Geometric, 1, Some(1), false))
        .push(spec_commercial_entry("rand", FuncCategory::Scalar, FuncDomain::Math, 0, Some(1), false))
        .push(spec_core_entry("random", FuncCategory::Scalar, FuncDomain::Math, 0, Some(0), false))
        .push(spec_core_entry("rank", FuncCategory::Window, FuncDomain::Window, 0, Some(0), false))
        .push(spec_core_entry("ratio_to_report", FuncCategory::Window, FuncDomain::Window, 1, Some(1), false))
        .push(spec_core_entry("rawout", FuncCategory::Scalar, FuncDomain::TypeConversion, 1, Some(1), false))
}

proof fn lemma_chunk_7_5(s: Seq<FuncMeta>)
    requires
        names_increasing(s),
        s.len() == 0 || chars_before(s.last().name@, "quote_ident"@),
    ensures
        names_increasing(table_chunk_7_5(s)),
        table_chunk_7_5(s).len() > 0,
        table_chunk_7_5(s).last().name@ == "rawout"@,
{
    let t = s;
    reveal_strlit("quote_ident");
    lemma_push_keeps_increasing(t, spec_core_entry("quote_ident", FuncCategory::Scalar, FuncDomain::String, 1, Some(1), false));
    let t = t.push(spec_core_entry("quote_ident", FuncCategory::Scalar, FuncDomain::String, 1, Some(1), false));
    reveal_strlit("quote_literal");
    lemma_push_after(t, "quote_ident"@, spec_core_entry("quote_literal", FuncCategory::Scalar, FuncDomain::String, 1, Some(1), false), 6);
    let t = t.push(spec_core_entry("quote_literal", FuncCategory::Scalar, FuncDomain::String, 1, Some(1), false));
    reveal_strlit("quote_nullable");
    lemma_push_after(t, "quote_literal"@, spec_core_entry("quote_nullable", FuncCategory::Scalar, FuncDomain::String, 1, Some(1), false), 6);
    let t = t.push(spec_core_entry("quote_nullable", FuncCategory::Scalar, FuncDomain::String, 1, Some(1), false));
    reveal_strlit("radians");
    lemma_push_after(t, "quote_nullable"@, spec_core_entry("radians", FuncCategory::Scalar, FuncDomain::Math, 1, Some(1), false), 0);
    let t = t.push(spec_core_entry("radians", FuncCategory::Scalar, FuncDomain::Math, 1, Some(1), false));
    reveal_strlit("radius");
    lemma_push_after(t, "radians"@, spec_core_entry("radius", FuncCategory::Scalar, FuncDomain::Geometric, 1, Some(1), false), 4);
    let t = t.push(spec_core_entry("radius", FuncCategory::Scalar, FuncDomain::Geometric, 1, Some(1), false));
    reveal_strlit("rand");
    lemma_push_after(t, "radius"@, spec_commercial_entry("rand", FuncCategory::Scalar, FuncDomain::Math, 0, Some(1), false), 2);
    let t = t.push(spec_commercial_entry("rand", FuncCategory::Scalar, FuncDomain::Math, 0, Some(1), false));
    reveal_strlit("random");
    lemma_push_after(t, "rand"@, spec_core_entry("random", FuncCategory::Scalar, FuncDomain::Math, 0, Some(0), false), 4);
    let t = t.push(spec_core_entry("random", FuncCategory::Scalar, FuncDomain::Math, 0, Some(0), false));
    reveal_strlit("rank");
    lemma_push_after(t, "random"@, spec_core_entry("rank", FuncCategory::Window, FuncDomain::Window, 0, Some(0), false), 3);
    let t = t.push(spec_core_entry("rank", FuncCategory::Window, FuncDomain::Window, 0, Some(0), false));
    reveal_strlit("ratio_to_report");
    lemma_push_after(t, "rank"@, spec_core_entry("ratio_to_report", FuncCategory::Window, FuncDomain::Window, 1, Some(1), false), 2);
    let t = t.push(spec_core_entry("ratio_to_report", FuncCategory::Window, FuncDomain::Window, 1, Some(1), false));
    reveal_strlit("rawout");
    lemma_push_after(t, "ratio_to_report"@, spec_core_entry("rawout", FuncCategory::Scalar, FuncDomain::TypeConversion, 1, Some(1), false), 2);
    let t = t.push(spec_core_entry("rawout", FuncCategory::Scalar, FuncDomain::TypeConversion, 1, Some(1), false));
    assert(t == table_chunk_7_5(s));
}

pub open spec fn table_chunk_7_6(s: Seq<FuncMeta>) -> Seq<FuncMeta> {
    s
        .push(spec_core_entry("rawsend", FuncCategory::Scalar, FuncDomain::TypeConversion, 1, Some(1), false))
        .push(spec_core_entry("rawtohex", FuncCategory::Scalar, FuncDomain::TypeConversion, 1, Some(1), false))
        .push(spec_oracle_entry("rawtohex2", FuncCategory::Scalar, FuncDomain::TypeConversion, 1, Some(1), false))
        .push(spec_core_entry("regexp_count", FuncCategory::Scalar, FuncDomain::String, 2, Some(4), false))
        .push(spec_core_entry("regexp_instr", FuncCategory::Scalar, FuncDomain::String, 2, Some(5), false))
        .push(spec_core_entry("regexp_like", FuncCategory::Scalar, FuncDomain::String, 2, Some(3), false))
        .push(spec_core_entry("regexp_matches", FuncCategory::Scalar, FuncDomain::String, 2, Some(3), false))
        .push(spec_core_entry("regexp_replace", FuncCategory::Scalar, FuncDomain::String, 2, Some(6), false))
        .push(spec_core_entry("regexp_split_to_array", FuncCategory::Scalar, FuncDomain::String, 1, Some(3), false))
        .push(spec_core_entry("regexp_split_to_table", FuncCategory::SetReturning, FuncDomain::String, 1, Some(3), false))
}

proof fn lemma_chunk_7_6(s: Seq<FuncMeta>)
    requires
        names_increasing(s),
        s.len() == 0 || chars_before(s.last().name@, "rawsend"@),
    ensures
        names_increasing(table_chunk_7_6(s)),
        table_chunk_7_6(s).len() > 0,
        table_chunk_7_6(s).last().name@ == "regexp_split_to_table"@,
{
    let t = s;
    reveal_strlit("rawsend");
    lemma_push_keeps_increasing(t, spec_core_entry("rawsend", FuncCategory::Scalar, FuncDomain::TypeConversion, 1, Some(1), false));
    let t = t.push(spec_core_entry("rawsend", FuncCategory::Scalar, FuncDomain::TypeConversion, 1, Some(1), false));
    reveal_strlit("rawtohex");
    lemma_push_after(t, "rawsend"@, spec_core_entry("rawtohex", FuncCategory::Scalar, FuncDomain::TypeConversion, 1, Some(1), false), 3);
    let t = t.push(spec_core_entry("rawtohex", FuncCategory::Scalar, FuncDomain::TypeConversion, 1, Some(1), false));
    reveal_strlit("rawtohex2");
    lemma_push_after(t, "rawtohex"@, spec_oracle_entry("rawtohex2", FuncCategory::Scalar, FuncDomain::TypeConversion, 1, Some(1), false), 8);
    let t = t.push(spec_oracle_entry("rawtohex2", FuncCategory::Scalar, FuncDomain::TypeConversion, 1, Some(1), false));
    reveal_strlit("regexp_count");
    lemma_push_after(t, "rawtohex2"@, spec_core_entry("regexp_count", FuncCategory::Scalar, FuncDomain::String, 2, Some(4), false), 1);
    let t = t.push(spec_core_entry("regexp_count", FuncCategory::Scalar, FuncDomain::String, 2, Some(4), false));
    reveal_strlit("regexp_instr");
    lemma_push_after(t, "regexp_count"@, spec_core_entry("regexp_instr", FuncCategory::Scalar, FuncDomain::String, 2, Some(5), false), 7);
    let t = t.push(spec_core_entry("regexp_instr", FuncCategory::Scalar, FuncDomain::String, 2, Some(5), false));
    reveal_strlit("regexp_like");
    lemma_push_after(t, "regexp_instr"@, spec_core_entry("regexp_like", FuncCategory::Scalar, FuncDomain::String, 2, Some(3), false), 7);
    let t = t.push(spec_core_entry("regexp_like", FuncCategory::Scalar, FuncDomain::String, 2, Some(3), false));
    reveal_strlit("regexp_matches");
    lemma_push_after(t, "regexp_like"@, spec_core_entry("regexp_matches", FuncCategory::Scalar, FuncDomain::String, 2, Some(3), false), 7);
    let t = t.push(spec_core_entry("regexp_matches", FuncCategory::Scalar, FuncDomain::String, 2, Some(3), false));
    reveal_strlit("regexp_replace");
    lemma_push_after(t, "regexp_matches"@, spec_core_entry("regexp_replace", FuncCategory::Scalar, FuncDomain::String, 2, Some(6), false), 7);
    let t = t.push(spec_core_entry("regexp_replace", FuncCategory::Scalar, FuncDomain::String, 2, Some(6), false));
    reveal_strlit("regexp_split_to_array");
    lemma_push_after(t, "regexp_replace"@, spec_core_entry("regexp_split_to_array", FuncCategory::Scalar, FuncDomain::String, 1, Some(3), false), 7);
    let t = t.push(spec_core_entry("regexp_split_to_array", FuncCategory::Scalar, FuncDomain::String, 1, Some(3), false));
    reveal_strlit("regexp_split_to_table");
    lemma_push_after(t, "regexp_split_to_array"@, spec_core_entry("regexp_split_to_table", FuncCategory::SetReturning, FuncDomain::String, 1, Some(3), false), 16);
    let t = t.push(spec_core_entry("regexp_split_to_table", FuncCategory::SetReturning, FuncDomain::String, 1, Some(3), false));
    assert(t == table_chunk_7_6(s));
}

pub open spec fn table_chunk_7_7(s: Seq<FuncMeta>) -> Seq<FuncMeta> {
    s
        .push(spec_core_entry("regexp_substr", FuncCategory::Scalar, FuncDomain::String, 2, Some(4), false))
        .push(spec_core_entry("regr_avgx", FuncCategory::Aggregate, FuncDomain::Aggregate, 2, Some(2), true))
        .push(spec_core_entry("regr_avgy", FuncCategory::Aggregate, FuncDomain::Aggregate, 2, Some(2), true))
        .push(spec_core_entry("regr_count", FuncCategory::Aggregate, FuncDomain::Aggregate, 2, Some(2), true))
        .push(spec_core_entry("regr_intercept", FuncCategory::Aggregate, FuncDomain::Aggregate, 2, Some(2), true))
        .push(spec_core_entry("regr_r2", FuncCategory::Aggregate, FuncDomain::Aggregate, 2, Some(2), true))
        .push(spec_core_entry("regr_slope", FuncCategory::Aggregate, FuncDomain::Aggregate, 2, Some(2), true))
        .push(spec_core_entry("regr_sxx", FuncCategory::Aggregate, FuncDomain::Aggregate, 2, Some(2), true))
        .push(spec_core_entry("regr_sxy", FuncCategory::Aggregate, FuncDomain::Aggregate, 2, Some(2), true))
        .push(spec_core_entry("regr_syy", FuncCategory::Aggregate, FuncDomain::Aggregate, 2, Some(2), true))
}

proof fn lemma_chunk_7_7(s: Seq<FuncMeta>)
    requires
        names_increasing(s),
        s.len() == 0 || chars_before(s.last().name@, "regexp_substr"@),
    ensures
        names_increasing(table_chunk_7_7(s)),
        table_chunk_7_7(s).len() > 0,
        table_chunk_7_7(s).last().name@ == "regr_syy"@,
{
    let t = s;
    reveal_strlit("regexp_substr");
    lemma_push_keeps_increasing(t, spec_core_entry("regexp_substr", FuncCategory::Scalar, FuncDomain::String, 2, Some(4), false));
    let t = t.push(spec_core_entry("regexp_substr", FuncCategory::Scalar, FuncDomain::String, 2, Some(4), false));
    reveal_strlit("regr_avgx");
    lemma_push_after(t, "regexp_substr"@, spec_core_entry("regr_avgx", FuncCategory::Aggregate, FuncDomain::Aggregate, 2, Some(2), true), 3);
    let t = t.push(spec_core_entry("regr_avgx", FuncCategory::Aggregate, FuncDomain::Aggregate, 2, Some(2), true));
    reveal_strlit("regr_avgy");
    lemma_push_after(t, "regr_avgx"@, spec_core_entry("regr_avgy", FuncCategory::Aggregate, FuncDomain::Aggregate, 2, Some(2), true), 8);
    let t = t.push(spec_core_entry("regr_avgy", FuncCategory::Aggregate, FuncDomain::Aggregate, 2, Some(2), true));
    reveal_strlit("regr_count");
    lemma_push_after(t, "regr_avgy"@, spec_core_entry("regr_count", FuncCategory::Aggregate, FuncDomain::Aggregate, 2, Some(2), true), 5);
    let t = t.push(spec_core_entry("regr_count", FuncCategory::Aggregate, FuncDomain::Aggregate, 2, Some(2), true));
    reveal_strlit("regr_intercept");
    lemma_push_after(t, "regr_count"@, spec_core_entry("regr_intercept", FuncCategory::Aggregate, FuncDomain::Aggregate, 2, Some(2), true), 5);
    let t = t.push(spec_core_entry("regr_intercept", FuncCategory::Aggregate, FuncDomain::Aggregate, 2, Some(2), true));
    reveal_strlit("regr_r2");
    lemma_push_after(t, "regr_intercept"@, spec_core_entry("regr_r2", FuncCategory::Aggregate, FuncDomain::Aggregate, 2, Some(2), true), 5);
    let t = t.push(spec_core_entry("regr_r2", FuncCategory::Aggregate, FuncDomain::Aggregate, 2, Some(2), true));
    reveal_strlit("regr_slope");
    lemma_push_after(t, "regr_r2"@, spec_core_entry("regr_slope", FuncCategory::Aggregate, FuncDomain::Aggregate, 2, Some(2), true), 5);
    let t = t.push(spec_core_entry("regr_slope", FuncCategory::Aggregate, FuncDomain::Aggregate, 2, Some(2), true));
    reveal_strlit("regr_sxx");
    lemma_push_after(t, "regr_slope"@, spec_core_entry("regr_sxx", FuncCategory::Aggregate, FuncDomain::Aggregate, 2, Some(2), true), 6);
    let t = t.push(spec_core_entry("regr_sxx", FuncCategory::Aggregate, FuncDomain::Aggregate, 2, Some(2), true));
    reveal_strlit("regr_sxy");
    lemma_push_after(t, "regr_sxx"@, spec_core_entry("regr_sxy", FuncCategory::Aggregate, FuncDomain::Aggregate, 2, Some(2), true), 7);
    let t = t.push(spec_core_entry("regr_sxy", FuncCategory::Aggregate, FuncDomain::Aggregate, 2, Some(2), true));
    reveal_strlit("regr_syy");
    lemma_push_after(t, "regr_sxy"@, spec_core_entry("regr_syy", FuncCategory::Aggregate, FuncDomain::Aggregate, 2, Some(2), true), 6);
    let t = t.push(spec_core_entry("regr_syy", FuncCategory::Aggregate, FuncDomain::Aggregate, 2, Some(2), true));
    assert(t == table_chunk_7_7(s));
}

pub open spec fn table_chunk_7_8(s: Seq<FuncMeta>) -> Seq<FuncMeta> {
    s
        .push(spec_commercial_oracle_entry("remainder", FuncCategory::Scalar, FuncDomain::Math, 2, Some(2), false))
        .push(spec_core_entry("repeat", FuncCategory::Scalar, FuncDomain::String, 2, Some(2), false))
        .push(spec_core_entry("replace", FuncCategory::Scalar, FuncDomain::String, 2, Some(3), false))
        .push(spec_core_entry("reverse", FuncCategory::Scalar, FuncDomain::String, 1, Some(1), false))
        .push(spec_core_entry("right", FuncCategory::Scalar, FuncDomain::String, 2, Some(2), false))
        .push(spec_core_entry("round", FuncCategory::Scalar, FuncDomain::Math, 1, Some(2), false))
        .push(spec_core_entry("row_number", FuncCategory::Window, FuncDomain::Window, 0, Some(0), false))
        .push(spec_core_entry("row_to_json", FuncCategory::Scalar, FuncDomain::Json, 1, Some(2), false))
        .push(spec_oracle_entry("rownum", FuncCategory::Scalar, FuncDomain::OracleCompat, 0, Some(0), false))
        .push(spec_core_entry("rpad", FuncCategory::Scalar, FuncDomain::String, 2, Some(3), false))
}

proof fn lemma_chunk_7_8(s: Seq<FuncMeta>)
    requires
        names_increasing(s),
        s.len() == 0 || chars_before(s.last().name@, "remainder"@),
    ensures
        names_increasing(table_chunk_7_8(s)),
        table_chunk_7_8(s).len() > 0,
        table_chunk_7_8(s).last().name@ == "rpad"@,
{
    let t = s;
    reveal_strlit("remainder");
    lemma_push_keeps_increasing(t, spec_commercial_oracle_entry("remainder", FuncCategory::Scalar, FuncDomain::Math, 2, Some(2), false));
    let t = t.push(spec_commercial_oracle_entry("remainder", FuncCategory::Scalar, FuncDomain::Math, 2, Some(2), false));
    reveal_strlit("repeat");
    lemma_push_after(t, "remainder"@, spec_core_entry("repeat", FuncCategory::Scalar, FuncDomain::String, 2, Some(2), false), 2);
    let t = t.push(spec_core_entry("repeat", FuncCategory::Scalar, FuncDomain::String, 2, Some(2), false));
    reveal_strlit("replace");
    lemma_push_after(t, "repeat"@, spec_core_entry("replace", FuncCategory::Scalar, FuncDomain::String, 2, Some(3), false), 3);
    let t = t.push(spec_core_entry("replace", FuncCategory::Scalar, FuncDomain::String, 2, Some(3), false));
    reveal_strlit("reverse");
    lemma_push_after(t, "replace"@, spec_core_entry("reverse", FuncCategory::Scalar, FuncDomain::String, 1, Some(1), false), 2);
    let t = t.push(spec_core_entry("reverse", FuncCategory::Scalar, FuncDomain::String, 1, Some(1), false));
    reveal_strlit("right");
    lemma_push_after(t, "reverse"@, spec_core_entry("right", FuncCategory::Scalar, FuncDomain::String, 2, Some(2), false), 1);
    let t = t.push(spec_core_entry("right", FuncCategory::Scalar, FuncDomain::String, 2, Some(2), false));
    reveal_strlit("round");
    lemma_push_after(t, "right"@, spec_core_entry("round", FuncCategory::Scalar, FuncDomain::Math, 1, Some(2), false), 1);
    let t = t.push(spec_core_entry("round", FuncCategory::Scalar, FuncDomain::Math, 1, Some(2), false));
    reveal_strlit("row_number");
    lemma_push_after(t, "round"@, spec_core_entry("row_number", FuncCategory::Window, FuncDomain::Window, 0, Some(0), false), 2);
    let t = t.push(spec_core_entry("row_number", FuncCategory::Window, FuncDomain::Window, 0, Some(0), false));
    reveal_strlit("row_to_json");
    lemma_push_after(t, "row_number"@, spec_core_entry("row_to_json", FuncCategory::Scalar, FuncDomain::Json, 1, Some(2), false), 4);
    let t = t.push(spec_core_entry("row_to_json", FuncCategory::Scalar, FuncDomain::Json, 1, Some(2), false));
    reveal_strlit("rownum");
    lemma_push_after(t, "row_to_json"@, spec_oracle_entry("rownum", FuncCategory::Scalar, FuncDomain::OracleCompat, 0, Some(0), false), 3);
    let t = t.push(spec_oracle_entry("rownum", FuncCategory::Scalar, FuncDomain::OracleCompat, 0, Some(0), false));
    reveal_strlit("rpad");
    lemma_push_after(t, "rownum"@, spec_core_entry("rpad", FuncCategory::Scalar, FuncDomain::String, 2, Some(3), false), 1);
    let t = t.push(spec_core_entry("rpad", FuncCategory::Scalar, FuncDomain::String, 2, Some(3), false));
    assert(t == table_chunk_7_8(s));
}

pub open spec fn table_chunk_7_9(s: Seq<FuncMeta>) -> Seq<FuncMeta> {
    s
        .push(spec_core_entry("rtrim", FuncCategory::Scalar, FuncDomain::String, 1, Some(2), false))
        .push(spec_core_entry("schema_to_xml", FuncCategory::Scalar, FuncDomain::Xml, 4, Some(4), false))
        .push(spec_core_entry("schema_to_xml_and_xmlschema", FuncCategory::Scalar, FuncDomain::Xml, 4, Some(4), false))
        .push(spec_core_entry("schema_to_xmlschema", FuncCategory::Scalar, FuncDomain::Xml, 4, Some(4), false))
        .push(spec_commercial_entry("sec_to_time", FuncCategory::Scalar, FuncDomain::DateTime, 1, Some(1), false))
        .push(spec_core_entry("session_user", FuncCategory::Scalar, FuncDomain::System, 0, Some(0), false))
        .push(spec_core_entry("set_bit", FuncCategory::Scalar, FuncDomain::String, 3, Some(3), false))
        .push(spec_core_entry("set_byte", FuncCategory::Scalar, FuncDomain::String, 3, Some(3), false))
        .push(spec_core_entry("set_config", FuncCategory::Scalar, FuncDomain::System, 2, Some(3), false))
        .push(spec_core_entry("setseed", FuncCategory::Scalar, FuncDomain::Math, 1, Some(1), false))
}

proof fn lemma_chunk_7_9(s: Seq<FuncMeta>)
    requires
        names_increasing(s),
        s.len() == 0 || chars_before(s.last().name@, "rtrim"@),
    ensures
        names_increasing(table_chunk_7_9(s)),
        table_chunk_7_9(s).len() > 0,
        table_chunk_7_9(s).last().name@ == "setseed"@,
{
    let t = s;
    reveal_strlit("rtrim");
    lemma_push_keeps_increasing(t, spec_core_entry("rtrim", FuncCategory::Scalar, FuncDomain::String, 1, Some(2), false));
    let t = t.push(spec_core_entry("rtrim", FuncCategory::Scalar, FuncDomain::String, 1, Some(2), false));
    reveal_strlit("schema_to_xml");
    lemma_push_after(t, "rtrim"@, spec_core_entry("schema_to_xml", FuncCategory::Scalar, FuncDomain::Xml, 4, Some(4), false), 0);
    let t = t.push(spec_core_entry("schema_to_xml", FuncCategory::Scalar, FuncDomain::Xml, 4, Some(4), false));
    reveal_strlit("schema_to_xml_and_xmlschema");
    lemma_push_after(t, "schema_to_xml"@, spec_core_entry("schema_to_xml_and_xmlschema", FuncCategory::Scalar, FuncDomain::Xml, 4, Some(4), false), 13);
    let t = t.push(spec_core_entry("schema_to_xml_and_xmlschema", FuncCategory::Scalar, FuncDomain::Xml, 4, Some(4), false));
    reveal_strlit("schema_to_xmlschema");
    lemma_push_after(t, "schema_to_xml_and_xmlschema"@, spec_core_entry("schema_to_xmlschema", FuncCategory::Scalar, FuncDomain::Xml, 4, Some(4), false), 13);
    let t = t.push(spec_core_entry("schema_to_xmlschema", FuncCategory::Scalar, FuncDomain::Xml, 4, Some(4), false));
    reveal_strlit("sec_to_time");
    lemma_push_after(t, "schema_to_xmlschema"@, spec_commercial_entry("sec_to_time", FuncCategory::Scalar, FuncDomain::DateTime, 1, Some(1), false), 1);
    let t = t.push(spec_commercial_entry("sec_to_time", FuncCategory::Scalar, FuncDomain::DateTime, 1, Some(1), false));
    reveal_strlit("session_user");
    lemma_push_after(t, "sec_to_time"@, spec_core_entry("session_user", FuncCategory::Scalar, FuncDomain::System, 0, Some(0), false), 2);
    let t = t.push(spec_core_entry("session_user", FuncCategory::Scalar, FuncDomain::System, 0, Some(0), false));
    reveal_strlit("set_bit");
    lemma_push_after(t, "session_user"@, spec_core_entry("set_bit", FuncCategory::Scalar, FuncDomain::String, 3, Some(3), false), 2);
    let t = t.push(spec_core_entry("set_bit", FuncCategory::Scalar, FuncDomain::String, 3, Some(3), false));
    reveal_strlit("set_byte");
    lemma_push_after(t, "set_bit"@, spec_core_entry("set_byte", FuncCategory::Scalar, FuncDomain::String, 3, Some(3), false), 5);
    let t = t.push(spec_core_entry("set_byte", FuncCategory::Scalar, FuncDomain::String, 3, Some(3), false));
    reveal_strlit("set_config");
    lemma_push_after(t, "set_byte"@, spec_core_entry("set_config", FuncCategory::Scalar, FuncDomain::System, 2, Some(3), false), 4);
    let t = t.push(spec_core_entry("set_config", FuncCategory::Scalar, FuncDomain::System, 2, Some(3), false));
    reveal_strlit("setseed");
    lemma_push_after(t, "set_config"@, spec_core_entry("setseed", FuncCategory::Scalar, FuncDomain::Math, 1, Some(1), false), 3);
    let t = t.push(spec_core_entry("setseed", FuncCategory::Scalar, FuncDomain::Math, 1, Some(1), false));
    assert(t == table_chunk_7_9(s));
}

pub open spec fn table_chunk_7_10(s: Seq<FuncMeta>) -> Seq<FuncMeta> {
    s
        .push(spec_core_entry("setval", FuncCategory::Scalar, FuncDomain::System, 2, Some(3), false))
        .push(spec_core_entry("sha1", FuncCategory::Scalar, FuncDomain::Crypto, 1, Some(1), false))
        .push(spec_core_entry("sha2", FuncCategory::Scalar, FuncDomain::Crypto, 1, Some(2), false))
        .push(spec_core_entry("sign", FuncCategory::Scalar, FuncDomain::Math, 1, Some(1), false))
        .push(spec_core_entry("sin", FuncCategory::Scalar, FuncDomain::Math, 1, Some(1), false))
        .push(spec_core_entry("split_part", FuncCategory::Scalar, FuncDomain::String, 3, Some(3), false))
        .push(spec_core_entry("sqrt", FuncCategory::Scalar, FuncDomain::Math, 1, Some(1), false))
        .push(spec_oracle_entry("st_buffer", FuncCategory::Scalar, FuncDomain::Geometric, 2, Some(3), false))
        .push(spec_oracle_entry("st_envelope", FuncCategory::Scalar, FuncDomain::Geometric, 1, Some(1), false))
        .push(spec_oracle_entry("st_makepoint", FuncCategory::Scalar, FuncDomain::Geometric, 2, Some(4), false))
}

proof fn lemma_chunk_7_10(s: Seq<FuncMeta>)
    requires
        names_increasing(s),
        s.len() == 0 || chars_before(s.last().name@, "setval"@),
    ensures
        names_increasing(table_chunk_7_10(s)),
        table_chunk_7_10(s).len() > 0,
        table_chunk_7_10(s).last().name@ == "st_makepoint"@,
{
    let t = s;
    reveal_strlit("setval");
    lemma_push_keeps_increasing(t, spec_core_entry("setval", FuncCategory::Scalar, FuncDomain::System, 2, Some(3), false));
    let t = t.push(spec_core_entry("setval", FuncCategory::Scalar, FuncDomain::System, 2, Some(3), false));
    reveal_strlit("sha1");
    lemma_push_after(t, "setval"@, spec_core_entry("sha1", FuncCategory::Scalar, FuncDomain::Crypto, 1, Some(1), false), 1);
    let t = t.push(spec_core_entry("sha1", FuncCategory::Scalar, FuncDomain::Crypto, 1, Some(1), false));
    reveal_strlit("sha2");
    lemma_push_after(t, "sha1"@, spec_core_entry("sha2", FuncCategory::Scalar, FuncDomain::Crypto, 1, Some(2), false), 3);
    let t = t.push(spec_core_entry("sha2", FuncCategory::Scalar, FuncDomain::Crypto, 1, Some(2), false));
    reveal_strlit("sign");
    lemma_push_after(t, "sha2"@, spec_core_entry("sign", FuncCategory::Scalar, FuncDomain::Math, 1, Some(1), false), 1);
    let t = t.push(spec_core_entry("sign", FuncCategory::Scalar, FuncDomain::Math, 1, Some(1), false));
    reveal_strlit("sin");
    lemma_push_after(t, "sign"@, spec_core_entry("sin", FuncCategory::Scalar, FuncDomain::Math, 1, Some(1), false), 2);
    let t = t.push(spec_core_entry("sin", FuncCategory::Scalar, FuncDomain::Math, 1, Some(1), false));
    reveal_strlit("split_part");
    lemma_push_after(t, "sin"@, spec_core_entry("split_part", FuncCategory::Scalar, FuncDomain::String, 3, Some(3), false), 1);
    let t = t.push(spec_core_entry("split_part", FuncCategory::Scalar, FuncDomain::String, 3, Some(3), false));
    reveal_strlit("sqrt");
    lemma_push_after(t, "split_part"@, spec_core_entry("sqrt", FuncCategory::Scalar, FuncDomain::Math, 1, Some(1), false), 1);
    let t = t.push(spec_core_entry("sqrt", FuncCategory::Scalar, FuncDomain::Math, 1, Some(1), false));
    reveal_strlit("st_buffer");
    lemma_push_after(t, "sqrt"@, spec_oracle_entry("st_buffer", FuncCategory::Scalar, FuncDomain::Geometric, 2, Some(3), false), 1);
    let t = t.push(spec_oracle_entry("st_buffer", FuncCategory::Scalar, FuncDomain::Geometric, 2, Some(3), false));
    reveal_strlit("st_envelope");
    lemma_push_after(t, "st_buffer"@, spec_oracle_entry("st_envelope", FuncCategory::Scalar, FuncDomain::Geometric, 1, Some(1), false), 3);
    let t = t.push(spec_oracle_entry("st_envelope", FuncCategory::Scalar, FuncDomain::Geometric, 1, Some(1), false));
    reveal_strlit("st_makepoint");
    lemma_push_after(t, "st_envelope"@, spec_oracle_entry("st_makepoint", FuncCategory::Scalar, FuncDomain::Geometric, 2, Some(4), false), 3);
    let t = t.push(spec_oracle_entry("st_makepoint", FuncCategory::Scalar, FuncDomain::Geometric, 2, Some(4), false));
    assert(t == table_chunk_7_10(s));
}

pub open spec fn table_chunk_7_11(s: Seq<FuncMeta>) -> Seq<FuncMeta> {
    s
        .push(spec_oracle_entry("st_setsrid", FuncCategory::Scalar, FuncDomain::Geometric, 2, Some(2), false))
        .push(spec_core_entry("statement_timestamp", FuncCategory::Scalar, FuncDomain::DateTime, 0, Some(0), false))
        .push(spec_core_entry("stddev", FuncCategory::Aggregate, FuncDomain::Aggregate, 1, Some(1), true))
        .push(spec_core_entry("stddev_pop", FuncCategory::Aggregate, FuncDomain::Aggregate, 1, Some(1), true))
        .push(spec_core_entry("stddev_samp", FuncCategory::Aggregate, FuncDomain::Aggregate, 1, Some(1), true))
        .push(spec_commercial_entry("str_to_date", FuncCategory::Scalar, FuncDomain::DateTime, 2, Some(2), false))
        .push(spec_core_entry("string_agg", FuncCategory::Aggregate, FuncDomain::String, 2, Some(2), true))
        .push(spec_core_entry("string_to_array", FuncCategory::Scalar, FuncDomain::Array, 2, Some(3), false))
        .push(spec_core_entry("strpos", FuncCategory::Scalar, FuncDomain::String, 2, Some(2), false))
        .push(spec_commercial_entry("subdate", FuncCategory::Scalar, FuncDomain::DateTime, 2, Some(2), false))
}

proof fn lemma_chunk_7_11(s: Seq<FuncMeta>)
    requires
        names_increasing(s),
        s.len() == 0 || chars_before(s.last().name@, "st_setsrid"@),
    ensures
        names_increasing(table_chunk_7_11(s)),
        table_chunk_7_11(s).len() > 0,
        table_chunk_7_11(s).last().name@ == "subdate"@,
{
    let t = s;
    reveal_strlit("st_setsrid");
    lemma_push_keeps_increasing(t, spec_oracle_entry("st_setsrid", FuncCategory::Scalar, FuncDomain::Geometric, 2, Some(2), false));
    let t = t.push(spec_oracle_entry("st_setsrid", FuncCategory::Scalar, FuncDomain::Geometric, 2, Some(2), false));
    reveal_strlit("statement_timestamp");
    lemma_push_after(t, "st_setsrid"@, spec_core_entry("statement_timestamp", FuncCategory::Scalar, FuncDomain::DateTime, 0, Some(0), false), 2);
    let t = t.push(spec_core_entry("statement_timestamp", FuncCategory::Scalar, FuncDomain::DateTime, 0, Some(0), false));
    reveal_strlit("stddev");
    lemma_push_after(t, "statement_timestamp"@, spec_core_entry("stddev", FuncCategory::Aggregate, FuncDomain::Aggregate, 1, Some(1), true), 2);
    let t = t.push(spec_core_entry("stddev", FuncCategory::Aggregate, FuncDomain::Aggregate, 1, Some(1), true));
    reveal_strlit("stddev_pop");
    lemma_push_after(t, "stddev"@, spec_core_entry("stddev_pop", FuncCategory::Aggregate, FuncDomain::Aggregate, 1, Some(1), true), 6);
    let t = t.push(spec_core_entry("stddev_pop", FuncCategory::Aggregate, FuncDomain::Aggregate, 1, Some(1), true));
    reveal_strlit("stddev_samp");
    lemma_push_after(t, "stddev_pop"@, spec_core_entry("stddev_samp", FuncCategory::Aggregate, FuncDomain::Aggregate, 1, Some(1), true), 7);
    let t = t.push(spec_core_entry("stddev_samp", FuncCategory::Aggregate, FuncDomain::Aggregate, 1, Some(1), true));
    reveal_strlit("str_to_date");
    lemma_push_after(t, "stddev_samp"@, spec_commercial_entry("str_to_date", FuncCategory::Scalar, FuncDomain::DateTime, 2, Some(2), false), 2);
    let t = t.push(spec_commercial_entry("str_to_date", FuncCategory::Scalar, FuncDomain::DateTime, 2, Some(2), false));
    reveal_strlit("string_agg");
    lemma_push_after(t, "str_to_date"@, spec_core_entry("string_agg", FuncCategory::Aggregate, FuncDomain::String, 2, Some(2), true), 3);
    let t = t.push(spec_core_entry("string_agg", FuncCategory::Aggregate, FuncDomain::String, 2, Some(2), true));
    reveal_strlit("string_to_array");
    lemma_push_after(t, "string_agg"@, spec_core_entry("string_to_array", FuncCategory::Scalar, FuncDomain::Array, 2, Some(3), false), 7);
    let t = t.push(spec_core_entry("string_to_array", FuncCategory::Scalar, FuncDomain::Array, 2, Some(3), false));
    reveal_strlit("strpos");
    lemma_push_after(t, "string_to_array"@, spec_core_entry("strpos", FuncCategory::Scalar, FuncDomain::String, 2, Some(2), false), 3);
    let t = t.push(spec_core_entry("strpos", FuncCategory::Scalar, FuncDomain::String, 2, Some(2), false));
    reveal_strlit("subdate");
    lemma_push_after(t, "strpos"@, spec_commercial_entry("subdate", FuncCategory::Scalar, FuncDomain::DateTime, 2, Some(2), false), 1);
    let t = t.push(spec_commercial_entry("subdate", FuncCategory::Scalar, FuncDomain::DateTime, 2, Some(2), false));
    assert(t == table_chunk_7_11(s));
}

pub open spec fn table_chunk_7_12(s: Seq<FuncMeta>) -> Seq<FuncMeta> {
    s
        .push(spec_core_entry("substr", FuncCategory::Scalar, FuncDomain::String, 2, Some(3), false))
        .push(spec_oracle_entry("substrb", FuncCategory::Scalar, FuncDomain::String, 2, Some(3), false))
        .push(spec_core_entry("substring", FuncCategory::Scalar, FuncDomain::String, 2, Some(3), false))
        .push(spec_commercial_entry("substring_index", FuncCategory::Scalar, FuncDomain::String, 3, Some(3), false))
        .push(spec_commercial_entry("subtime", FuncCategory::Scalar, FuncDomain::DateTime, 2, Some(2), false))
}

proof fn lemma_chunk_7_12(s: Seq<FuncMeta>)
    requires
        names_increasing(s),
        s.len() == 0 || chars_before(s.last().name@, "substr"@),
    ensures
        names_increasing(table_chunk_7_12(s)),
        table_chunk_7_12(s).len() > 0,
        table_chunk_7_12(s).last().name@ == "subtime"@,
{
    let t = s;
    reveal_strlit("substr");
    lemma_push_keeps_increasing(t, spec_core_entry("substr", FuncCategory::Scalar, FuncDomain::String, 2, Some(3), false));
    let t = t.push(spec_core_entry("substr", FuncCategory::Scalar, FuncDomain::String, 2, Some(3), false));
    reveal_strlit("substrb");
    lemma_push_after(t, "substr"@, spec_oracle_entry("substrb", FuncCategory::Scalar, FuncDomain::String, 2, Some(3), false), 6);
    let t = t.push(spec_oracle_entry("substrb", FuncCategory::Scalar, FuncDomain::String, 2, Some(3), false));
    reveal_strlit("substring");
    lemma_push_after(t, "substrb"@, spec_core_entry("substring", FuncCategory::Scalar, FuncDomain::String, 2, Some(3), false), 6);
    let t = t.push(spec_core_entry("substring", FuncCategory::Scalar, FuncDomain::String, 2, Some(3), false));
    reveal_strlit("substring_index");
    lemma_push_after(t, "substring"@, spec_commercial_entry("substring_index", FuncCategory::Scalar, FuncDomain::String, 3, Some(3), false), 9);
    let t = t.push(spec_commercial_entry("substring_index", FuncCategory::Scalar, FuncDomain::String, 3, Some(3), false));
    reveal_strlit("subtime");
    lemma_push_after(t, "substring_index"@, spec_commercial_entry("subtime", FuncCategory::Scalar, FuncDomain::DateTime, 2, Some(2), false), 3);
    let t = t.push(spec_commercial_entry("subtime", FuncCategory::Scalar, FuncDomain::DateTime, 2, Some(2), false));
    assert(t == table_chunk_7_12(s));
}

proof fn lemma_part_7_increasing(s: Seq<FuncMeta>)
    requires
        names_increasing(s),
        s.len() == 0 || chars_before(s.last().name@, "pkg_util.file_writeline"@),
    ensures
        names_increasing(table_part_7(s)),
        table_part_7(s).len() > 0,
        table_part_7(s).last().name@ == "subtime"@,
{
    lemma_chunk_7_0(s);
    let t0 = table_chunk_7_0(s);
    reveal_strlit("pkg_util.lob_converttoblob_huge");
    reveal_strlit("pkg_util.lob_converttoclob");
    lemma_chars_before_at("pkg_util.lob_converttoblob_huge"@, "pkg_util.lob_converttoclob"@, 22);
    lemma_chunk_7_1(t0);
    let t1 = table_chunk_7_1(t0);
    reveal_strlit("pkg_util.lob_texttoraw");
    reveal_strlit("pkg_util.lob_write");
    lemma_chars_before_at("pkg_util.lob_texttoraw"@, "pkg_util.lob_write"@, 13);
    lemma_chunk_7_2(t1);
    let t2 = table_chunk_7_2(t1);
    reveal_strlit("pkg_util.raw_cast_to_binary_integer");
    reveal_strlit("pkg_util.raw_cast_to_varchar2");
    lemma_chars_before_at("pkg_util.raw_cast_to_binary_integer"@, "pkg_util.raw_cast_to_varchar2"@, 21);
    lemma_chunk_7_3(t2);
    let t3 = table_chunk_7_3(t2);
    reveal_strlit("pkg_util.utility_format_error_stack");
    reveal_strlit("pkg_util.utility_get_time");
    lemma_chars_before_at("pkg_util.utility_format_error_stack"@, "pkg_util.utility_get_time"@, 17);
    lemma_chunk_7_4(t3);
    let t4 = table_chunk_7_4(t3);
    reveal_strlit("querytree");
    reveal_strlit("quote_ident");
    lemma_chars_before_at("querytree"@, "quote_ident"@, 2);
    lemma_chunk_7_5(t4);
    let t5 = table_chunk_7_5(t4);
    reveal_strlit("rawout");
    reveal_strlit("rawsend");
    lemma_chars_before_at("rawout"@, "rawsend"@, 3);
    lemma_chunk_7_6(t5);
    let t6 = table_chunk_7_6(t5);
    reveal_strlit("regexp_split_to_table");
    reveal_strlit("regexp_substr");
    lemma_chars_before_at("regexp_split_to_table"@, "regexp_substr"@, 8);
    lemma_chunk_7_7(t6);
    let t7 = table_chunk_7_7(t6);
    reveal_strlit("regr_syy");
    reveal_strlit("remainder");
    lemma_chars_before_at("regr_syy"@, "remainder"@, 2);
    lemma_chunk_7_8(t7);
    let t8 = table_chunk_7_8(t7);
    reveal_strlit("rpad");
    reveal_strlit("rtrim");
    lemma_chars_before_at("rpad"@, "rtrim"@, 1);
    lemma_chunk_7_9(t8);
    let t9 = table_chunk_7_9(t8);
    reveal_strlit("setseed");
    reveal_strlit("setval");
    lemma_chars_before_at("setseed"@, "setval"@, 3);
    lemma_chunk_7_10(t9);
    let t10 = table_chunk_7_10(t9);
    reveal_strlit("st_makepoint");
    reveal_strlit("st_setsrid");
    lemma_chars_before_at("st_makepoint"@, "st_setsrid"@, 3);
    lemma_chunk_7_11(t10);
    let t11 = table_chunk_7_11(t10);
    reveal_strlit("subdate");
    reveal_strlit("substr");
    lemma_chars_before_at("subdate"@, "substr"@, 3);
    lemma_chunk_7_12(t11);
    let t12 = table_chunk_7_12(t11);
    assert(t12 == table_part_7(s));
}

pub open spec fn table_chunk_8_0(s: Seq<FuncMeta>) -> Seq<FuncMeta> {
    s
        .push(spec_core_entry("sum", FuncCategory::Aggregate, FuncDomain::Aggregate, 1, Some(1), true))
        .push(spec_commercial_oracle_entry("sys_connect_by_path", FuncCategory::Scalar, FuncDomain::OracleCompat, 2, Some(2), false))
        .push(spec_commercial_oracle_entry("sys_context", FuncCategory::Scalar, FuncDomain::System, 2, Some(3), false))
        .push(spec_commercial_oracle_entry("sys_extract_utc", FuncCategory::Scalar, FuncDomain::DateTime, 1, Some(1), false))
        .push(spec_oracle_entry("sysdate", FuncCategory::Scalar, FuncDomain::OracleCompat, 0, Some(0), false))
        .push(spec_core_entry("table_to_xml", FuncCategory::Scalar, FuncDomain::Xml, 4, Some(4), false))
        .push(spec_core_entry("table_to_xml_and_xmlschema", FuncCategory::Scalar, FuncDomain::Xml, 4, Some(4), false))
        .push(spec_core_entry("table_to_xmlschema", FuncCategory::Scalar, FuncDomain::Xml, 4, Some(4), false))
        .push(spec_core_entry("tan", FuncCategory::Scalar, FuncDomain::Math, 1, Some(1), false))
        .push(spec_commercial_entry("time_format", FuncCategory::Scalar, FuncDomain::DateTime, 2, Some(2), false))
}

proof fn lemma_chunk_8_0(s: Seq<FuncMeta>)
    requires
        names_increasing(s),
        s.len() == 0 || chars_before(s.last().name@, "sum"@),
    ensures
        names_increasing(table_chunk_8_0(s)),
        table_chunk_8_0(s).len() > 0,
        table_chunk_8_0(s).last().name@ == "time_format"@,
{
    let t = s;
    reveal_strlit("sum");
    lemma_push_keeps_increasing(t, spec_core_entry("sum", FuncCategory::Aggregate, FuncDomain::Aggregate, 1, Some(1), true));
    let t = t.push(spec_core_entry("sum", FuncCategory::Aggregate, FuncDomain::Aggregate, 1, Some(1), true));
    reveal_strlit("sys_connect_by_path");
    lemma_push_after(t, "sum"@, spec_commercial_oracle_entry("sys_connect_by_path", FuncCategory::Scalar, FuncDomain::OracleCompat, 2, Some(2), false), 1);
    let t = t.push(spec_commercial_oracle_entry("sys_connect_by_path", FuncCategory::Scalar, FuncDomain::OracleCompat, 2, Some(2), false));
    reveal_strlit("sys_context");
    lemma_push_after(t, "sys_connect_by_path"@, spec_commercial_oracle_entry("sys_context", FuncCategory::Scalar, FuncDomain::System, 2, Some(3), false), 7);
    let t = t.push(spec_commercial_oracle_entry("sys_context", FuncCategory::Scalar, FuncDomain::System, 2, Some(3), false));
    reveal_strlit("sys_extract_utc");
    lemma_push_after(t, "sys_context"@, spec_commercial_oracle_entry("sys_extract_utc", FuncCategory::Scalar, FuncDomain::DateTime, 1, Some(1), false), 4);
    let t = t.push(spec_commercial_oracle_entry("sys_extract_utc", FuncCategory::Scalar, FuncDomain::DateTime, 1, Some(1), false));
    reveal_strlit("sysdate");
    lemma_push_after(t, "sys_extract_utc"@, spec_oracle_entry("sysdate", FuncCategory::Scalar, FuncDomain::OracleCompat, 0, Some(0), false), 3);
    let t = t.push(spec_oracle_entry("sysdate", FuncCategory::Scalar, FuncDomain::OracleCompat, 0, Some(0), false));
    reveal_strlit("table_to_xml");
    lemma_push_after(t, "sysdate"@, spec_core_entry("table_to_xml", FuncCategory::Scalar, FuncDomain::Xml, 4, Some(4), false), 0);
    let t = t.push(spec_core_entry("table_to_xml", FuncCategory::Scalar, FuncDomain::Xml, 4, Some(4), false));
    reveal_strlit("table_to_xml_and_xmlschema");
    lemma_push_after(t, "table_to_xml"@, spec_core_entry("table_to_xml_and_xmlschema", FuncCategory::Scalar, FuncDomain::Xml, 4, Some(4), false), 12);
    let t = t.push(spec_core_entry("table_to_xml_and_xmlschema", FuncCategory::Scalar, FuncDomain::Xml, 4, Some(4), false));
    reveal_strlit("table_to_xmlschema");
    lemma_push_after(t, "table_to_xml_and_xmlschema"@, spec_core_entry("table_to_xmlschema", FuncCategory::Scalar, FuncDomain::Xml, 4, Some(4), false), 12);
    let t = t.push(spec_core_entry("table_to_xmlschema", FuncCategory::Scalar, FuncDomain::Xml, 4, Some(4), false));
    reveal_strlit("tan");
    lemma_push_after(t, "table_to_xmlschema"@, spec_core_entry("tan", FuncCategory::Scalar, FuncDomain::Math, 1, Some(1), false), 2);
    let t = t.push(spec_core_entry("tan", FuncCategory::Scalar, FuncDomain::Math, 1, Some(1), false));
    reveal_strlit("time_format");
    lemma_push_after(t, "tan"@, spec_commercial_entry("time_format", FuncCategory::Scalar, FuncDomain::DateTime, 2, Some(2), false), 1);
    let t = t.push(spec_commercial_entry("time_format", FuncCategory::Scalar, FuncDomain::DateTime, 2, Some(2), false));
    assert(t == table_chunk_8_0(s));
}

pub open spec fn table_chunk_8_1(s: Seq<FuncMeta>) -> Seq<FuncMeta> {
    s
        .push(spec_commercial_entry("time_to_sec", FuncCategory::Scalar, FuncDomain::DateTime, 1, Some(1), false))
        .push(spec_commercial_entry("timediff", FuncCategory::Scalar, FuncDomain::DateTime, 2, Some(2), false))
        .push(spec_core_entry("timenow", FuncCategory::Scalar, FuncDomain::DateTime, 0, Some(0), false))
        .push(spec_core_entry("timeofday", FuncCategory::Scalar, FuncDomain::DateTime, 0, Some(0), false))
        .push(spec_commercial_entry("timestampadd", FuncCategory::Scalar, FuncDomain::DateTime, 3, Some(3), false))
        .push(spec_commercial_entry("timestampdiff", FuncCategory::Scalar, FuncDomain::DateTime, 3, Some(3), false))
        .push(spec_core_entry("to_ascii", FuncCategory::Scalar, FuncDomain::TypeConversion, 1, Some(2), false))
        .push(spec_oracle_entry("to_bigint", FuncCategory::Scalar, FuncDomain::TypeConversion, 1, Some(1), false))
        .push(spec_commercial_oracle_entry("to_binary_double", FuncCategory::Scalar, FuncDomain::TypeConversion, 1, Some(2), false))
        .push(spec_oracle_entry("to_binary_float", FuncCategory::Scalar, FuncDomain::TypeConversion, 1, Some(2), false))
}

proof fn lemma_chunk_8_1(s: Seq<FuncMeta>)
    requires
        names_increasing(s),
        s.len() == 0 || chars_before(s.last().name@, "time_to_sec"@),
    ensures
        names_increasing(table_chunk_8_1(s)),
        table_chunk_8_1(s).len() > 0,
        table_chunk_8_1(s).last().name@ == "to_binary_float"@,
{
    let t = s;
    reveal_strlit("time_to_sec");
    lemma_push_keeps_increasing(t, spec_commercial_entry("time_to_sec", FuncCategory::Scalar, FuncDomain::DateTime, 1, Some(1), false));
    let t = t.push(spec_commercial_entry("time_to_sec", FuncCategory::Scalar, FuncDomain::DateTime, 1, Some(1), false));
    reveal_strlit("timediff");
    lemma_push_after(t, "time_to_sec"@, spec_commercial_entry("timediff", FuncCategory::Scalar, FuncDomain::DateTime, 2, Some(2), false), 4);
    let t = t.push(spec_commercial_entry("timediff", FuncCategory::Scalar, FuncDomain::DateTime, 2, Some(2), false));
    reveal_strlit("timenow");
    lemma_push_after(t, "timediff"@, spec_core_entry("timenow", FuncCategory::Scalar, FuncDomain::DateTime, 0, Some(0), false), 4);
    let t = t.push(spec_core_entry("timenow", FuncCategory::Scalar, FuncDomain::DateTime, 0, Some(0), false));
    reveal_strlit("timeofday");
    lemma_push_after(t, "timenow"@, spec_core_entry("timeofday", FuncCategory::Scalar, FuncDomain::DateTime, 0, Some(0), false), 4);
    let t = t.push(spec_core_entry("timeofday", FuncCategory::Scalar, FuncDomain::DateTime, 0, Some(0), false));
    reveal_strlit("timestampadd");
    lemma_push_after(t, "timeofday"@, spec_commercial_entry("timestampadd", FuncCategory::Scalar, FuncDomain::DateTime, 3, Some(3), false), 4);
    let t = t.push(spec_commercial_entry("timestampadd", FuncCategory::Scalar, FuncDomain::DateTime, 3, Some(3), false));
    reveal_strlit("timestampdiff");
    lemma_push_after(t, "timestampadd"@, spec_commercial_entry("timestampdiff", FuncCategory::Scalar, FuncDomain::DateTime, 3, Some(3), false), 9);
    let t = t.push(spec_commercial_entry("timestampdiff", FuncCategory::Scalar, FuncDomain::DateTime, 3, Some(3), false));
    reveal_strlit("to_ascii");
    lemma_push_after(t, "timestampdiff"@, spec_core_entry("to_ascii", FuncCategory::Scalar, FuncDomain::TypeConversion, 1, Some(2), false), 1);
    let t = t.push(spec_core_entry("to_ascii", FuncCategory::Scalar, FuncDomain::TypeConversion, 1, Some(2), false));
    reveal_strlit("to_bigint");
    lemma_push_after(t, "to_ascii"@, spec_oracle_entry("to_bigint", FuncCategory::Scalar, FuncDomain::TypeConversion, 1, Some(1), false), 3);
    let t = t.push(spec_oracle_entry("to_bigint", FuncCategory::Scalar, FuncDomain::TypeConversion, 1, Some(1), false));
    reveal_strlit("to_binary_double");
    lemma_push_after(t, "to_bigint"@, spec_commercial_oracle_entry("to_binary_double", FuncCategory::Scalar, FuncDomain::TypeConversion, 1, Some(2), false), 5);
    let t = t.push(spec_commercial_oracle_entry("to_binary_double", FuncCategory::Scalar, FuncDomain::TypeConversion, 1, Some(2), false));
    reveal_strlit("to_binary_float");
    lemma_push_after(t, "to_binary_double"@, spec_oracle_entry("to_binary_float", FuncCategory::Scalar, FuncDomain::TypeConversion, 1, Some(2), false), 10);
    let t = t.push(spec_oracle_entry("to_binary_float", FuncCategory::Scalar, FuncDomain::TypeConversion, 1, Some(2), false));
    assert(t == table_chunk_8_1(s));
}

pub open spec fn table_chunk_8_2(s: Seq<FuncMeta>) -> Seq<FuncMeta> {
    s
        .push(spec_oracle_entry("to_blob", FuncCategory::Scalar, FuncDomain::TypeConversion, 1, Some(1), false))
        .push(spec_core_entry("to_char", FuncCategory::Scalar, FuncDomain::TypeConversion, 1, Some(2), false))
        .push(spec_core_entry("to_clob", FuncCategory::Scalar, FuncDomain::TypeConversion, 1, Some(1), false))
        .push(spec_core_entry("to_date", FuncCategory::Scalar, FuncDomain::TypeConversion, 1, Some(2), false))
        .push(spec_commercial_entry("to_days", FuncCategory::Scalar, FuncDomain::DateTime, 1, Some(1), false))
        .push(spec_oracle_entry("to_dsinterval", FuncCategory::Scalar, FuncDomain::TypeConversion, 1, Some(1), false))
        .push(spec_core_entry("to_hex", FuncCategory::Scalar, FuncDomain::TypeConversion, 1, Some(1), false))
        .push(spec_core_entry("to_json", FuncCategory::Scalar, FuncDomain::Json, 1, Some(1), false))
        .push(spec_core_entry("to_jsonb", FuncCategory::Scalar, FuncDomain::Json, 1, Some(1), false))
        .push(spec_commercial_oracle_entry("to_multi_byte", FuncCategory::Scalar, FuncDomain::String, 1, Some(1), false))
}

proof fn lemma_chunk_8_2(s: Seq<FuncMeta>)
    requires
        names_increasing(s),
        s.len() == 0 || chars_before(s.last().name@, "to_blob"@),
    ensures
        names_increasing(table_chunk_8_2(s)),
        table_chunk_8_2(s).len() > 0,
        table_chunk_8_2(s).last().name@ == "to_multi_byte"@,
{
    let t = s;
    reveal_strlit("to_blob");
    lemma_push_keeps_increasing(t, spec_oracle_entry("to_blob", FuncCategory::Scalar, FuncDomain::TypeConversion, 1, Some(1), false));
    let t = t.push(spec_oracle_entry("to_blob", FuncCategory::Scalar, FuncDomain::TypeConversion, 1, Some(1), false));
    reveal_strlit("to_char");
    lemma_push_after(t, "to_blob"@, spec_core_entry("to_char", FuncCategory::Scalar, FuncDomain::TypeConversion, 1, Some(2), false), 3);
    let t = t.push(spec_core_entry("to_char", FuncCategory::Scalar, FuncDomain::TypeConversion, 1, Some(2), false));
    reveal_strlit("to_clob");
    lemma_push_after(t, "to_char"@, spec_core_entry("to_clob", FuncCategory::Scalar, FuncDomain::TypeConversion, 1, Some(1), false), 4);
    let t = t.push(spec_core_entry("to_clob", FuncCategory::Scalar, FuncDomain::TypeConversion, 1, Some(1), false));
    reveal_strlit("to_date");
    lemma_push_after(t, "to_clob"@, spec_core_entry("to_date", FuncCategory::Scalar, FuncDomain::TypeConversion, 1, Some(2), false), 3);
    let t = t.push(spec_core_entry("to_date", FuncCategory::Scalar, FuncDomain::TypeConversion, 1, Some(2), false));
    reveal_strlit("to_days");
    lemma_push_after(t, "to_date"@, spec_commercial_entry("to_days", FuncCategory::Scalar, FuncDomain::DateTime, 1, Some(1), false), 5);
    let t = t.push(spec_commercial_entry("to_days", FuncCategory::Scalar, FuncDomain::DateTime, 1, Some(1), false));
    reveal_strlit("to_dsinterval");
    lemma_push_after(t, "to_days"@, spec_oracle_entry("to_dsinterval", FuncCategory::Scalar, FuncDomain::TypeConversion, 1, Some(1), false), 4);
    let t = t.push(spec_oracle_entry("to_dsinterval", FuncCategory::Scalar, FuncDomain::TypeConversion, 1, Some(1), false));
    reveal_strlit("to_hex");
    lemma_push_after(t, "to_dsinterval"@, spec_core_entry("to_hex", FuncCategory::Scalar, FuncDomain::TypeConversion, 1, Some(1), false), 3);
    let t = t.push(spec_core_entry("to_hex", FuncCategory::Scalar, FuncDomain::TypeConversion, 1, Some(1), false));
    reveal_strlit("to_json");
    lemma_push_after(t, "to_hex"@, spec_core_entry("to_json", FuncCategory::Scalar, FuncDomain::Json, 1, Some(1), false), 3);
    let t = t.push(spec_core_entry("to_json", FuncCategory::Scalar, FuncDomain::Json, 1, Some(1), false));
    reveal_strlit("to_jsonb");
    lemma_push_after(t, "to_json"@, spec_core_entry("to_jsonb", FuncCategory::Scalar, FuncDomain::Json, 1, Some(1), false), 7);
    let t = t.push(spec_core_entry("to_jsonb", FuncCategory::Scalar, FuncDomain::Json, 1, Some(1), false));
    reveal_strlit("to_multi_byte");
    lemma_push_after(t, "to_jsonb"@, spec_commercial_oracle_entry("to_multi_byte", FuncCategory::Scalar, FuncDomain::String, 1, Some(1), false), 3);
    let t = t.push(spec_commercial_oracle_entry("to_multi_byte", FuncCategory::Scalar, FuncDomain::String, 1, Some(1), false));
    assert(t == table_chunk_8_2(s));
}

pub open spec fn table_chunk_8_3(s: Seq<FuncMeta>) -> Seq<FuncMeta> {
    s
        .push(spec_commercial_oracle_entry("to_nchar", FuncCategory::Scalar, FuncDomain::TypeConversion, 1, Some(2), false))
        .push(spec_core_entry("to_number", FuncCategory::Scalar, FuncDomain::TypeConversion, 1, Some(2), false))
        .push(spec_commercial_entry("to_seconds", FuncCategory::Scalar, FuncDomain::DateTime, 1, Some(1), false))
        .push(spec_commercial_oracle_entry("to_single_byte", FuncCategory::Scalar, FuncDomain::String, 1, Some(1), false))
        .push(spec_core_entry("to_timestamp", FuncCategory::Scalar, FuncDomain::DateTime, 1, Some(2), false))
        .push(spec_commercial_oracle_entry("to_timestamp_tz", FuncCategory::Scalar, FuncDomain::DateTime, 1, Some(2), false))
        .push(spec_core_entry("to_tsquery", FuncCategory::Scalar, FuncDomain::TextSearch, 1, Some(2), false))
        .push(spec_core_entry("to_tsvector", FuncCategory::Scalar, FuncDomain::TextSearch, 1, Some(2), false))
        .push(spec_oracle_entry("to_yminterval", FuncCategory::Scalar, FuncDomain::TypeConversion, 1, Some(1), false))
        .push(spec_core_entry("transaction_timestamp", FuncCategory::Scalar, FuncDomain::DateTime, 0, Some(0), false))
}

proof fn lemma_chunk_8_3(s: Seq<FuncMeta>)
    requires
        names_increasing(s),
        s.len() == 0 || chars_before(s.last().name@, "to_nchar"@),
    ensures
        names_increasing(table_chunk_8_3(s)),
        table_chunk_8_3(s).len() > 0,
        table_chunk_8_3(s).last().name@ == "transaction_timestamp"@,
{
    let t = s;
    reveal_strlit("to_nchar");
    lemma_push_keeps_increasing(t, spec_commercial_oracle_entry("to_nchar", FuncCategory::Scalar, FuncDomain::TypeConversion, 1, Some(2), false));
    let t = t.push(spec_commercial_oracle_entry("to_nchar", FuncCategory::Scalar, FuncDomain::TypeConversion, 1, Some(2), false));
    reveal_strlit("to_number");
    lemma_push_after(t, "to_nchar"@, spec_core_entry("to_number", FuncCategory::Scalar, FuncDomain::TypeConversion, 1, Some(2), false), 4);
    let t = t.push(spec_core_entry("to_number", FuncCategory::Scalar, FuncDomain::TypeConversion, 1, Some(2), false));
    reveal_strlit("to_seconds");
    lemma_push_after(t, "to_number"@, spec_commercial_entry("to_seconds", FuncCategory::Scalar, FuncDomain::DateTime, 1, Some(1), false), 3);
    let t = t.push(spec_commercial_entry("to_seconds", FuncCategory::Scalar, FuncDomain::DateTime, 1, Some(1), false));
    reveal_strlit("to_single_byte");
    lemma_push_after(t, "to_seconds"@, spec_commercial_oracle_entry("to_single_byte", FuncCategory::Scalar, FuncDomain::String, 1, Some(1), false), 4);
    let t = t.push(spec_commercial_oracle_entry("to_single_byte", FuncCategory::Scalar, FuncDomain::String, 1, Some(1), false));
    reveal_strlit("to_timestamp");
    lemma_push_after(t, "to_single_byte"@, spec_core_entry("to_timestamp", FuncCategory::Scalar, FuncDomain::DateTime, 1, Some(2), false), 3);
    let t = t.push(spec_core_entry("to_timestamp", FuncCategory::Scalar, FuncDomain::DateTime, 1, Some(2), false));
    reveal_strlit("to_timestamp_tz");
    lemma_push_after(t, "to_timestamp"@, spec_commercial_oracle_entry("to_timestamp_tz", FuncCategory::Scalar, FuncDomain::DateTime, 1, Some(2), false), 12);
    let t = t.push(spec_commercial_oracle_entry("to_timestamp_tz", FuncCategory::Scalar, FuncDomain::DateTime, 1, Some(2), false));
    reveal_strlit("to_tsquery");
    lemma_push_after(t, "to_timestamp_tz"@, spec_core_entry("to_tsquery", FuncCategory::Scalar, FuncDomain::TextSearch, 1, Some(2), false), 4);
    let t = t.push(spec_core_entry("to_tsquery", FuncCategory::Scalar, FuncDomain::TextSearch, 1, Some(2), false));
    reveal_strlit("to_tsvector");
    lemma_push_after(t, "to_tsquery"@, spec_core_entry("to_tsvector", FuncCategory::Scalar, FuncDomain::TextSearch, 1, Some(2), false), 5);
    let t = t.push(spec_core_entry("to_tsvector", FuncCategory::Scalar, FuncDomain::TextSearch, 1, Some(2), false));
    reveal_strlit("to_yminterval");
    lemma_push_after(t, "to_tsvector"@, spec_oracle_entry("to_yminterval", FuncCategory::Scalar, FuncDomain::TypeConversion, 1, Some(1), false), 3);
    let t = t.push(spec_oracle_entry("to_yminterval", FuncCategory::Scalar, FuncDomain::TypeConversion, 1, Some(1), false));
    reveal_strlit("transaction_timestamp");
    lemma_push_after(t, "to_yminterval"@, spec_core_entry("transaction_timestamp", FuncCategory::Scalar, FuncDomain::DateTime, 0, Some(0), false), 1);
    let t = t.push(spec_core_entry("transaction_timestamp", FuncCategory::Scalar, FuncDomain::DateTime, 0, Some(0), false));
    assert(t == table_chunk_8_3(s));
}

pub open spec fn table_chunk_8_4(s: Seq<FuncMeta>) -> Seq<FuncMeta> {
    s
        .push(spec_core_entry("translate", FuncCategory::Scalar, FuncDomain::String, 3, Some(3), false))
        .push(spec_commercial_oracle_entry("treat", FuncCategory::Scalar, FuncDomain::TypeConversion, 1, Some(1), false))
        .push(spec_core_entry("trim", FuncCategory::Scalar, FuncDomain::String, 1, Some(3), false))
        .push(spec_core_entry("trunc", FuncCategory::Scalar, FuncDomain::Math, 1, Some(2), false))
        .push(spec_core_entry("ts_headline", FuncCategory::Scalar, FuncDomain::TextSearch, 2, Some(4), false))
        .push(spec_core_entry("ts_lexize", FuncCategory::Scalar, FuncDomain::TextSearch, 2, Some(2), false))
        .push(spec_core_entry("ts_parse", FuncCategory::Scalar, FuncDomain::TextSearch, 1, Some(2), false))
        .push(spec_core_entry("ts_rank", FuncCategory::Scalar, FuncDomain::TextSearch, 1, Some(4), false))
        .push(spec_core_entry("ts_rank_cd", FuncCategory::Scalar, FuncDomain::TextSearch, 1, Some(4), false))
        .push(spec_core_entry("ts_rewrite", FuncCategory::Scalar, FuncDomain::TextSearch, 2, Some(3), false))
}

proof fn lemma_chunk_8_4(s: Seq<FuncMeta>)
    requires
        names_increasing(s),
        s.len() == 0 || chars_before(s.last().name@, "translate"@),
    ensures
        names_increasing(table_chunk_8_4(s)),
        table_chunk_8_4(s).len() > 0,
        table_chunk_8_4(s).last().name@ == "ts_rewrite"@,
{
    let t = s;
    reveal_strlit("translate");
    lemma_push_keeps_increasing(t, spec_core_entry("translate", FuncCategory::Scalar, FuncDomain::String, 3, Some(3), false));
    let t = t.push(spec_core_entry("translate", FuncCategory::Scalar, FuncDomain::String, 3, Some(3), false));
    reveal_strlit("treat");
    lemma_push_after(t, "translate"@, spec_commercial_oracle_entry("treat", FuncCategory::Scalar, FuncDomain::TypeConversion, 1, Some(1), false), 2);
    let t = t.push(spec_commercial_oracle_entry("treat", FuncCategory::Scalar, FuncDomain::TypeConversion, 1, Some(1), false));
    reveal_strlit("trim");
    lemma_push_after(t, "treat"@, spec_core_entry("trim", FuncCategory::Scalar, FuncDomain::String, 1, Some(3), false), 2);
    let t = t.push(spec_core_entry("trim", FuncCategory::Scalar, FuncDomain::String, 1, Some(3), false));
    reveal_strlit("trunc");
    lemma_push_after(t, "trim"@, spec_core_entry("trunc", FuncCategory::Scalar, FuncDomain::Math, 1, Some(2), false), 2);
    let t = t.push(spec_core_entry("trunc", FuncCategory::Scalar, FuncDomain::Math, 1, Some(2), false));
    reveal_strlit("ts_headline");
    lemma_push_after(t, "trunc"@, spec_core_entry("ts_headline", FuncCategory::Scalar, FuncDomain::TextSearch, 2, Some(4), false), 1);
    let t = t.push(spec_core_entry("ts_headline", FuncCategory::Scalar, FuncDomain::TextSearch, 2, Some(4), false));
    reveal_strlit("ts_lexize");
    lemma_push_after(t, "ts_headline"@, spec_core_entry("ts_lexize", FuncCategory::Scalar, FuncDomain::TextSearch, 2, Some(2), false), 3);
    let t = t.push(spec_core_entry("ts_lexize", FuncCategory::Scalar, FuncDomain::TextSearch, 2, Some(2), false));
    reveal_strlit("ts_parse");
    lemma_push_after(t, "ts_lexize"@, spec_core_entry("ts_parse", FuncCategory::Scalar, FuncDomain::TextSearch, 1, Some(2), false), 3);
    let t = t.push(spec_core_entry("ts_parse", FuncCategory::Scalar, FuncDomain::TextSearch, 1, Some(2), false));
    reveal_strlit("ts_rank");
    lemma_push_after(t, "ts_parse"@, spec_core_entry("ts_rank", FuncCategory::Scalar, FuncDomain::TextSearch, 1, Some(4), false), 3);
    let t = t.push(spec_core_entry("ts_rank", FuncCategory::Scalar, FuncDomain::TextSearch, 1, Some(4), false));
    reveal_strlit("ts_rank_cd");
    lemma_push_after(t, "ts_rank"@, spec_core_entry("ts_rank_cd", FuncCategory::Scalar, FuncDomain::TextSearch, 1, Some(4), false), 7);
    let t = t.push(spec_core_entry("ts_rank_cd", FuncCategory::Scalar, FuncDomain::TextSearch, 1, Some(4), false));
    reveal_strlit("ts_rewrite");
    lemma_push_after(t, "ts_rank_cd"@, spec_core_entry("ts_rewrite", FuncCategory::Scalar, FuncDomain::TextSearch, 2, Some(3), false), 4);
    let t = t.push(spec_core_entry("ts_rewrite", FuncCategory::Scalar, FuncDomain::TextSearch, 2, Some(3), false));
    assert(t == table_chunk_8_4(s));
}

pub open spec fn table_chunk_8_5(s: Seq<FuncMeta>) -> Seq<FuncMeta> {
    s
        .push(spec_core_entry("ts_stat", FuncCategory::Scalar, FuncDomain::TextSearch, 1, Some(2), false))
        .push(spec_core_entry("ts_token_type", FuncCategory::Scalar, FuncDomain::TextSearch, 0, Some(1), false))
        .push(spec_core_entry("tsrange", FuncCategory::Scalar, FuncDomain::Range, 2, Some(3), false))
        .push(spec_core_entry("tsvector_update_trigger", FuncCategory::Scalar, FuncDomain::TextSearch, 0, Some(0), false))
        .push(spec_core_entry("txid_current", FuncCategory::Scalar, FuncDomain::System, 0, Some(0), false))
        .push(spec_core_entry("txid_current_snapshot", FuncCategory::Scalar, FuncDomain::System, 0, Some(0), false))
        .push(spec_core_entry("txid_snapshot_xip", FuncCategory::Scalar, FuncDomain::System, 1, Some(1), false))
        .push(spec_core_entry("txid_snapshot_xmax", FuncCategory::Scalar, FuncDomain::System, 1, Some(1), false))
        .push(spec_core_entry("txid_snapshot_xmin", FuncCategory::Scalar, FuncDomain::System, 1, Some(1), false))
        .push(spec_core_entry("txid_visible_in_snapshot", FuncCategory::Scalar, FuncDomain::System, 2, Some(2), false))
}

proof fn lemma_chunk_8_5(s: Seq<FuncMeta>)
    requires
        names_increasing(s),
        s.len() == 0 || chars_before(s.last().name@, "ts_stat"@),
    ensures
        names_increasing(table_chunk_8_5(s)),
        table_chunk_8_5(s).len() > 0,
        table_chunk_8_5(s).last().name@ == "txid_visible_in_snapshot"@,
{
    let t = s;
    reveal_strlit("ts_stat");
    lemma_push_keeps_increasing(t, spec_core_entry("ts_stat", FuncCategory::Scalar, FuncDomain::TextSearch, 1, Some(2), false));
    let t = t.push(spec_core_entry("ts_stat", FuncCategory::Scalar, FuncDomain::TextSearch, 1, Some(2), false));
    reveal_strlit("ts_token_type");
    lemma_push_after(t, "ts_stat"@, spec_core_entry("ts_token_type", FuncCategory::Scalar, FuncDomain::TextSearch, 0, Some(1), false), 3);
    let t = t.push(spec_core_entry("ts_token_type", FuncCategory::Scalar, FuncDomain::TextSearch, 0, Some(1), false));
    reveal_strlit("tsrange");
    lemma_push_after(t, "ts_token_type"@, spec_core_entry("tsrange", FuncCategory::Scalar, FuncDomain::Range, 2, Some(3), false), 2);
    let t = t.push(spec_core_entry("tsrange", FuncCategory::Scalar, FuncDomain::Range, 2, Some(3), false));
    reveal_strlit("tsvector_update_trigger");
    lemma_push_after(t, "tsrange"@, spec_core_entry("tsvector_update_trigger", FuncCategory::Scalar, FuncDomain::TextSearch, 0, Some(0), false), 2);
    let t = t.push(spec_core_entry("tsvector_update_trigger", FuncCategory::Scalar, FuncDomain::TextSearch, 0, Some(0), false));
    reveal_strlit("txid_current");
    lemma_push_after(t, "tsvector_update_trigger"@, spec_core_entry("txid_current", FuncCategory::Scalar, FuncDomain::System, 0, Some(0), false), 1);
    let t = t.push(spec_core_entry("txid_current", FuncCategory::Scalar, FuncDomain::System, 0, Some(0), false));
    reveal_strlit("txid_current_snapshot");
    lemma_push_after(t, "txid_current"@, spec_core_entry("txid_current_snapshot", FuncCategory::Scalar, FuncDomain::System, 0, Some(0), false), 12);
    let t = t.push(spec_core_entry("txid_current_snapshot", FuncCategory::Scalar, FuncDomain::System, 0, Some(0), false));
    reveal_strlit("txid_snapshot_xip");
    lemma_push_after(t, "txid_current_snapshot"@, spec_core_entry("txid_snapshot_xip", FuncCategory::Scalar, FuncDomain::System, 1, Some(1), false), 5);
    let t = t.push(spec_core_entry("txid_snapshot_xip", FuncCategory::Scalar, FuncDomain::System, 1, Some(1), false));
    reveal_strlit("txid_snapshot_xmax");
    lemma_push_after(t, "txid_snapshot_xip"@, spec_core_entry("txid_snapshot_xmax", FuncCategory::Scalar, FuncDomain::System, 1, Some(1), false), 15);
    let t = t.push(spec_core_entry("txid_snapshot_xmax", FuncCategory::Scalar, FuncDomain::System, 1, Some(1), false));
    reveal_strlit("txid_snapshot_xmin");
    lemma_push_after(t, "txid_snapshot_xmax"@, spec_core_entry("txid_snapshot_xmin", FuncCategory::Scalar, FuncDomain::System, 1, Some(1), false), 16);
    let t = t.push(spec_core_entry("txid_snapshot_xmin", FuncCategory::Scalar, FuncDomain::System, 1, Some(1), false));
    reveal_strlit("txid_visible_in_snapshot");
    lemma_push_after(t, "txid_snapshot_xmin"@, spec_core_entry("txid_visible_in_snapshot", FuncCategory::Scalar, FuncDomain::System, 2, Some(2), false), 5);
    let t = t.push(spec_core_entry("txid_visible_in_snapshot", FuncCategory::Scalar, FuncDomain::System, 2, Some(2), false));
    assert(t == table_chunk_8_5(s));
}

pub open spec fn table_chunk_8_6(s: Seq<FuncMeta>) -> Seq<FuncMeta> {
    s
        .push(spec_commercial_oracle_entry("tz_offset", FuncCategory::Scalar, FuncDomain::DateTime, 1, Some(1), false))
        .push(spec_oracle_entry("unistr", FuncCategory::Scalar, FuncDomain::String, 1, Some(1), false))
        .push(spec_commercial_entry("unix_timestamp", FuncCategory::Scalar, FuncDomain::DateTime, 0, Some(1), false))
        .push(spec_core_entry("unnest", FuncCategory::SetReturning, FuncDomain::Array, 1, Some(1), false))
        .push(spec_commercial_entry("unnest_table", FuncCategory::SetReturning, FuncDomain::Array, 1, Some(1), false))
        .push(spec_core_entry("upper", FuncCategory::Scalar, FuncDomain::String, 1, Some(1), false))
        .push(spec_core_entry("user", FuncCategory::Scalar, FuncDomain::System, 0, Some(0), false))
        .push(spec_commercial_entry("utc_date", FuncCategory::Scalar, FuncDomain::DateTime, 0, Some(0), false))
        .push(spec_commercial_entry("utc_time", FuncCategory::Scalar, FuncDomain::DateTime, 0, Some(1), false))
        .push(spec_commercial_entry("utc_timestamp", FuncCategory::Scalar, FuncDomain::DateTime, 0, Some(1), false))
}

proof fn lemma_chunk_8_6(s: Seq<FuncMeta>)
    requires
        names_increasing(s),
        s.len() == 0 || chars_before(s.last().name@, "tz_offset"@),
    ensures
        names_increasing(table_chunk_8_6(s)),
        table_chunk_8_6(s).len() > 0,
        table_chunk_8_6(s).last().name@ == "utc_timestamp"@,
{
    let t = s;
    reveal_strlit("tz_offset");
    lemma_push_keeps_increasing(t, spec_commercial_oracle_entry("tz_offset", FuncCategory::Scalar, FuncDomain::DateTime, 1, Some(1), false));
    let t = t.push(spec_commercial_oracle_entry("tz_offset", FuncCategory::Scalar, FuncDomain::DateTime, 1, Some(1), false));
    reveal_strlit("unistr");
    lemma_push_after(t, "tz_offset"@, spec_oracle_entry("unistr", FuncCategory::Scalar, FuncDomain::String, 1, Some(1), false), 0);
    let t = t.push(spec_oracle_entry("unistr", FuncCategory::Scalar, FuncDomain::String, 1, Some(1), false));
    reveal_strlit("unix_timestamp");
    lemma_push_after(t, "unistr"@, spec_commercial_entry("unix_timestamp", FuncCategory::Scalar, FuncDomain::DateTime, 0, Some(1), false), 3);
    let t = t.push(spec_commercial_entry("unix_timestamp", FuncCategory::Scalar, FuncDomain::DateTime, 0, Some(1), false));
    reveal_strlit("unnest");
    lemma_push_after(t, "unix_timestamp"@, spec_core_entry("unnest", FuncCategory::SetReturning, FuncDomain::Array, 1, Some(1), false), 2);
    let t = t.push(spec_core_entry("unnest", FuncCategory::SetReturning, FuncDomain::Array, 1, Some(1), false));
    reveal_strlit("unnest_table");
    lemma_push_after(t, "unnest"@, spec_commercial_entry("unnest_table", FuncCategory::SetReturning, FuncDomain::Array, 1, Some(1), false), 6);
    let t = t.push(spec_commercial_entry("unnest_table", FuncCategory::SetReturning, FuncDomain::Array, 1, Some(1), false));
    reveal_strlit("upper");
    lemma_push_after(t, "unnest_table"@, spec_core_entry("upper", FuncCategory::Scalar, FuncDomain::String, 1, Some(1), false), 1);
    let t = t.push(spec_core_entry("upper", FuncCategory::Scalar, FuncDomain::String, 1, Some(1), false));
    reveal_strlit("user");
    lemma_push_after(t, "upper"@, spec_core_entry("user", FuncCategory::Scalar, FuncDomain::System, 0, Some(0), false), 1);
    let t = t.push(spec_core_entry("user", FuncCategory::Scalar, FuncDomain::System, 0, Some(0), false));
    reveal_strlit("utc_date");
    lemma_push_after(t, "user"@, spec_commercial_entry("utc_date", FuncCategory::Scalar, FuncDomain::DateTime, 0, Some(0), false), 1);
    let t = t.push(spec_commercial_entry("utc_date", FuncCategory::Scalar, FuncDomain::DateTime, 0, Some(0), false));
    reveal_strlit("utc_time");
    lemma_push_after(t, "utc_date"@, spec_commercial_entry("utc_time", FuncCategory::Scalar, FuncDomain::DateTime, 0, Some(1), false), 4);
    let t = t.push(spec_commercial_entry("utc_time", FuncCategory::Scalar, FuncDomain::DateTime, 0, Some(1), false));
    reveal_strlit("utc_timestamp");
    lemma_push_after(t, "utc_time"@, spec_commercial_entry("utc_timestamp", FuncCategory::Scalar, FuncDomain::DateTime, 0, Some(1), false), 8);
    let t = t.push(spec_commercial_entry("utc_timestamp", FuncCategory::Scalar, FuncDomain::DateTime, 0, Some(1), false));
    assert(t == table_chunk_8_6(s));
}

pub open spec fn table_chunk_8_7(s: Seq<FuncMeta>) -> Seq<FuncMeta> {
    s
        .push(spec_oracle_entry("utl_file.fclose", FuncCategory::Scalar, FuncDomain::UtlFile, 1, Some(1), false))
        .push(spec_oracle_entry("utl_file.fclose_all", FuncCategory::Scalar, FuncDomain::UtlFile, 0, Some(0), false))
        .push(spec_oracle_entry("utl_file.fopen", FuncCategory::Scalar, FuncDomain::UtlFile, 2, Some(4), false))
        .push(spec_oracle_entry("utl_file.get_line", FuncCategory::Scalar, FuncDomain::UtlFile, 1, Some(2), false))
        .push(spec_oracle_entry("utl_file.put_line", FuncCategory::Scalar, FuncDomain::UtlFile, 1, Some(2), false))
        .push(spec_commercial_entry("uuid_short", FuncCategory::Scalar, FuncDomain::System, 0, Some(0), false))
        .push(spec_core_entry("var_pop", FuncCategory::Aggregate, FuncDomain::Aggregate, 1, Some(1), true))
        .push(spec_core_entry("var_samp", FuncCategory::Aggregate, FuncDomain::Aggregate, 1, Some(1), true))
        .push(spec_core_entry("variance", FuncCategory::Aggregate, FuncDomain::Aggregate, 1, Some(1), true))
        .push(spec_core_entry("version", FuncCategory::Scalar, FuncDomain::System, 0, Some(0), false))
}

proof fn lemma_chunk_8_7(s: Seq<FuncMeta>)
    requires
        names_increasing(s),
        s.len() == 0 || chars_before(s.last().name@, "utl_file.fclose"@),
    ensures
        names_increasing(table_chunk_8_7(s)),
        table_chunk_8_7(s).len() > 0,
        table_chunk_8_7(s).last().name@ == "version"@,
{
    let t = s;
    reveal_strlit("utl_file.fclose");
    lemma_push_keeps_increasing(t, spec_oracle_entry("utl_file.fclose", FuncCategory::Scalar, FuncDomain::UtlFile, 1, Some(1), false));
    let t = t.push(spec_oracle_entry("utl_file.fclose", FuncCategory::Scalar, FuncDomain::UtlFile, 1, Some(1), false));
    reveal_strlit("utl_file.fclose_all");
    lemma_push_after(t, "utl_file.fclose"@, spec_oracle_entry("utl_file.fclose_all", FuncCategory::Scalar, FuncDomain::UtlFile, 0, Some(0), false), 15);
    let t = t.push(spec_oracle_entry("utl_file.fclose_all", FuncCategory::Scalar, FuncDomain::UtlFile, 0, Some(0), false));
    reveal_strlit("utl_file.fopen");
    lemma_push_after(t, "utl_file.fclose_all"@, spec_oracle_entry("utl_file.fopen", FuncCategory::Scalar, FuncDomain::UtlFile, 2, Some(4), false), 10);
    let t = t.push(spec_oracle_entry("utl_file.fopen", FuncCategory::Scalar, FuncDomain::UtlFile, 2, Some(4), false));
    reveal_strlit("utl_file.get_line");
    lemma_push_after(t, "utl_file.fopen"@, spec_oracle_entry("utl_file.get_line", FuncCategory::Scalar, FuncDomain::UtlFile, 1, Some(2), false), 9);
    let t = t.push(spec_oracle_entry("utl_file.get_line", FuncCategory::Scalar, FuncDomain::UtlFile, 1, Some(2), false));
    reveal_strlit("utl_file.put_line");
    lemma_push_after(t, "utl_file.get_line"@, spec_oracle_entry("utl_file.put_line", FuncCategory::Scalar, FuncDomain::UtlFile, 1, Some(2), false), 9);
    let t = t.push(spec_oracle_entry("utl_file.put_line", FuncCategory::Scalar, FuncDomain::UtlFile, 1, Some(2), false));
    reveal_strlit("uuid_short");
    lemma_push_after(t, "utl_file.put_line"@, spec_commercial_entry("uuid_short", FuncCategory::Scalar, FuncDomain::System, 0, Some(0), false), 1);
    let t = t.push(spec_commercial_entry("uuid_short", FuncCategory::Scalar, FuncDomain::System, 0, Some(0), false));
    reveal_strlit("var_pop");
    lemma_push_after(t, "uuid_short"@, spec_core_entry("var_pop", FuncCategory::Aggregate, FuncDomain::Aggregate, 1, Some(1), true), 0);
    let t = t.push(spec_core_entry("var_pop", FuncCategory::Aggregate, FuncDomain::Aggregate, 1, Some(1), true));
    reveal_strlit("var_samp");
    lemma_push_after(t, "var_pop"@, spec_core_entry("var_samp", FuncCategory::Aggregate, FuncDomain::Aggregate, 1, Some(1), true), 4);
    let t = t.push(spec_core_entry("var_samp", FuncCategory::Aggregate, FuncDomain::Aggregate, 1, Some(1), true));
    reveal_strlit("variance");
    lemma_push_after(t, "var_samp"@, spec_core_entry("variance", FuncCategory::Aggregate, FuncDomain::Aggregate, 1, Some(1), true), 3);
    let t = t.push(spec_core_entry("variance", FuncCategory::Aggregate, FuncDomain::Aggregate, 1, Some(1), true));
    reveal_strlit("version");
    lemma_push_after(t, "variance"@, spec_core_entry("version", FuncCategory::Scalar, FuncDomain::System, 0, Some(0), false), 1);
    let t = t.push(spec_core_entry("version", FuncCategory::Scalar, FuncDomain::System, 0, Some(0), false));
    assert(t == table_chunk_8_7(s));
}

pub open spec fn table_chunk_8_8(s: Seq<FuncMeta>) -> Seq<FuncMeta> {
    s
        .push(spec_oracle_entry("vsize", FuncCategory::Scalar, FuncDomain::String, 1, Some(1), false))
        .push(spec_commercial_entry("weekday", FuncCategory::Scalar, FuncDomain::DateTime, 1, Some(1), false))
        .push(spec_commercial_entry("weekofyear", FuncCategory::Scalar, FuncDomain::DateTime, 1, Some(1), false))
        .push(spec_core_entry("width", FuncCategory::Scalar, FuncDomain::Geometric, 1, Some(1), false))
        .push(spec_core_entry("width_bucket", FuncCategory::Scalar, FuncDomain::Math, 3, Some(4), false))
        .push(spec_oracle_entry("wm_concat", FuncCategory::Aggregate, FuncDomain::String, 1, None, true))
        .push(spec_core_entry("xml_is_well_formed", FuncCategory::Scalar, FuncDomain::Xml, 1, Some(1), false))
        .push(spec_core_entry("xml_is_well_formed_content", FuncCategory::Scalar, FuncDomain::Xml, 1, Some(2), false))
        .push(spec_core_entry("xml_is_well_formed_document", FuncCategory::Scalar, FuncDomain::Xml, 1, Some(2), false))
        .push(spec_oracle_entry("xmlagg", FuncCategory::Aggregate, FuncDomain::Xml, 1, Some(1), true))
}

proof fn lemma_chunk_8_8(s: Seq<FuncMeta>)
    requires
        names_increasing(s),
        s.len() == 0 || chars_before(s.last().name@, "vsize"@),
    ensures
        names_increasing(table_chunk_8_8(s)),
        table_chunk_8_8(s).len() > 0,
        table_chunk_8_8(s).last().name@ == "xmlagg"@,
{
    let t = s;
    reveal_strlit("vsize");
    lemma_push_keeps_increasing(t, spec_oracle_entry("vsize", FuncCategory::Scalar, FuncDomain::String, 1, Some(1), false));
    let t = t.push(spec_oracle_entry("vsize", FuncCategory::Scalar, FuncDomain::String, 1, Some(1), false));
    reveal_strlit("weekday");
    lemma_push_after(t, "vsize"@, spec_commercial_entry("weekday", FuncCategory::Scalar, FuncDomain::DateTime, 1, Some(1), false), 0);
    let t = t.push(spec_commercial_entry("weekday", FuncCategory::Scalar, FuncDomain::DateTime, 1, Some(1), false));
    reveal_strlit("weekofyear");
    lemma_push_after(t, "weekday"@, spec_commercial_entry("weekofyear", FuncCategory::Scalar, FuncDomain::DateTime, 1, Some(1), false), 4);
    let t = t.push(spec_commercial_entry("weekofyear", FuncCategory::Scalar, FuncDomain::DateTime, 1, Some(1), false));
    reveal_strlit("width");
    lemma_push_after(t, "weekofyear"@, spec_core_entry("width", FuncCategory::Scalar, FuncDomain::Geometric, 1, Some(1), false), 1);
    let t = t.push(spec_core_entry("width", FuncCategory::Scalar, FuncDomain::Geometric, 1, Some(1), false));
    reveal_strlit("width_bucket");
    lemma_push_after(t, "width"@, spec_core_entry("width_bucket", FuncCategory::Scalar, FuncDomain::Math, 3, Some(4), false), 5);
    let t = t.push(spec_core_entry("width_bucket", FuncCategory::Scalar, FuncDomain::Math, 3, Some(4), false));
    reveal_strlit("wm_concat");
    lemma_push_after(t, "width_bucket"@, spec_oracle_entry("wm_concat", FuncCategory::Aggregate, FuncDomain::String, 1, None, true), 1);
    let t = t.push(spec_oracle_entry("wm_concat", FuncCategory::Aggregate, FuncDomain::String, 1, None, true));
    reveal_strlit("xml_is_well_formed");
    lemma_push_after(t, "wm_concat"@, spec_core_entry("xml_is_well_formed", FuncCategory::Scalar, FuncDomain::Xml, 1, Some(1), false), 0);
    let t = t.push(spec_core_entry("xml_is_well_formed", FuncCategory::Scalar, FuncDomain::Xml, 1, Some(1), false));
    reveal_strlit("xml_is_well_formed_content");
    lemma_push_after(t, "xml_is_well_formed"@, spec_core_entry("xml_is_well_formed_content", FuncCategory::Scalar, FuncDomain::Xml, 1, Some(2), false), 18);
    let t = t.push(spec_core_entry("xml_is_well_formed_content", FuncCategory::Scalar, FuncDomain::Xml, 1, Some(2), false));
    reveal_strlit("xml_is_well_formed_document");
    lemma_push_after(t, "xml_is_well_formed_content"@, spec_core_entry("xml_is_well_formed_document", FuncCategory::Scalar, FuncDomain::Xml, 1, Some(2), false), 19);
    let t = t.push(spec_core_entry("xml_is_well_formed_document", FuncCategory::Scalar, FuncDomain::Xml, 1, Some(2), false));
    reveal_strlit("xmlagg");
    lemma_push_after(t, "xml_is_well_formed_document"@, spec_oracle_entry("xmlagg", FuncCategory::Aggregate, FuncDomain::Xml, 1, Some(1), true), 3);
    let t = t.push(spec_oracle_entry("xmlagg", FuncCategory::Aggregate, FuncDomain::Xml, 1, Some(1), true));
    assert(t == table_chunk_8_8(s));
}

pub open spec fn table_chunk_8_9(s: Seq<FuncMeta>) -> Seq<FuncMeta> {
    s
        .push(spec_oracle_entry("xmlattributes", FuncCategory::Scalar, FuncDomain::Xml, 1, None, false))
        .push(spec_oracle_entry("xmlcomment", FuncCategory::Scalar, FuncDomain::Xml, 1, Some(1), false))
        .push(spec_oracle_entry("xmlconcat", FuncCategory::Scalar, FuncDomain::Xml, 1, None, false))
        .push(spec_oracle_entry("xmlelement", FuncCategory::Scalar, FuncDomain::Xml, 1, None, false))
        .push(spec_core_entry("xmlexists", FuncCategory::Scalar, FuncDomain::Xml, 2, Some(2), false))
        .push(spec_oracle_entry("xmlforest", FuncCategory::Scalar, FuncDomain::Xml, 1, None, false))
        .push(spec_oracle_entry("xmlparse", FuncCategory::Scalar, FuncDomain::Xml, 1, Some(2), false))
        .push(spec_oracle_entry("xmlpi", FuncCategory::Scalar, FuncDomain::Xml, 1, Some(2), false))
        .push(spec_oracle_entry("xmlquery", FuncCategory::Scalar, FuncDomain::Xml, 2, Some(3), false))
        .push(spec_commercial_entry("xmlroot", FuncCategory::Scalar, FuncDomain::Xml, 1, Some(3), false))
}

proof fn lemma_chunk_8_9(s: Seq<FuncMeta>)
    requires
        names_increasing(s),
        s.len() == 0 || chars_before(s.last().name@, "xmlattributes"@),
    ensures
        names_increasing(table_chunk_8_9(s)),
        table_chunk_8_9(s).len() > 0,
        table_chunk_8_9(s).last().name@ == "xmlroot"@,
{
    let t = s;
    reveal_strlit("xmlattributes");
    lemma_push_keeps_increasing(t, spec_oracle_entry("xmlattributes", FuncCategory::Scalar, FuncDomain::Xml, 1, None, false));
    let t = t.push(spec_oracle_entry("xmlattributes", FuncCategory::Scalar, FuncDomain::Xml, 1, None, false));
    reveal_strlit("xmlcomment");
    lemma_push_after(t, "xmlattributes"@, spec_oracle_entry("xmlcomment", FuncCategory::Scalar, FuncDomain::Xml, 1, Some(1), false), 3);
    let t = t.push(spec_oracle_entry("xmlcomment", FuncCategory::Scalar, FuncDomain::Xml, 1, Some(1), false));
    reveal_strlit("xmlconcat");
    lemma_push_after(t, "xmlcomment"@, spec_oracle_entry("xmlconcat", FuncCategory::Scalar, FuncDomain::Xml, 1, None, false), 5);
    let t = t.push(spec_oracle_entry("xmlconcat", FuncCategory::Scalar, FuncDomain::Xml, 1, None, false));
    reveal_strlit("xmlelement");
    lemma_push_after(t, "xmlconcat"@, spec_oracle_entry("xmlelement", FuncCategory::Scalar, FuncDomain::Xml, 1, None, false), 3);
    let t = t.push(spec_oracle_entry("xmlelement", FuncCategory::Scalar, FuncDomain::Xml, 1, None, false));
    reveal_strlit("xmlexists");
    lemma_push_after(t, "xmlelement"@, spec_core_entry("xmlexists", FuncCategory::Scalar, FuncDomain::Xml, 2, Some(2), false), 4);
    let t = t.push(spec_core_entry("xmlexists", FuncCategory::Scalar, FuncDomain::Xml, 2, Some(2), false));
    reveal_strlit("xmlforest");
    lemma_push_after(t, "xmlexists"@, spec_oracle_entry("xmlforest", FuncCategory::Scalar, FuncDomain::Xml, 1, None, false), 3);
    let t = t.push(spec_oracle_entry("xmlforest", FuncCategory::Scalar, FuncDomain::Xml, 1, None, false));
    reveal_strlit("xmlparse");
    lemma_push_after(t, "xmlforest"@, spec_oracle_entry("xmlparse", FuncCategory::Scalar, FuncDomain::Xml, 1, Some(2), false), 3);
    let t = t.push(spec_oracle_entry("xmlparse", FuncCategory::Scalar, FuncDomain::Xml, 1, Some(2), false));
    reveal_strlit("xmlpi");
    lemma_push_after(t, "xmlparse"@, spec_oracle_entry("xmlpi", FuncCategory::Scalar, FuncDomain::Xml, 1, Some(2), false), 4);
    let t = t.push(spec_oracle_entry("xmlpi", FuncCategory::Scalar, FuncDomain::Xml, 1, Some(2), false));
    reveal_strlit("xmlquery");
    lemma_push_after(t, "xmlpi"@, spec_oracle_entry("xmlquery", FuncCategory::Scalar, FuncDomain::Xml, 2, Some(3), false), 3);
    let t = t.push(spec_oracle_entry("xmlquery", FuncCategory::Scalar, FuncDomain::Xml, 2, Some(3), false));
    reveal_strlit("xmlroot");
    lemma_push_after(t, "xmlquery"@, spec_commercial_entry("xmlroot", FuncCategory::Scalar, FuncDomain::Xml, 1, Some(3), false), 3);
    let t = t.push(spec_commercial_entry("xmlroot", FuncCategory::Scalar, FuncDomain::Xml, 1, Some(3), false));
    assert(t == table_chunk_8_9(s));
}

pub open spec fn table_chunk_8_10(s: Seq<FuncMeta>) -> Seq<FuncMeta> {
    s
        .push(spec_oracle_entry("xmlsequence", FuncCategory::Scalar, FuncDomain::Xml, 1, Some(1), false))
        .push(spec_oracle_entry("xmlserialize", FuncCategory::Scalar, FuncDomain::Xml, 2, Some(3), false))
        .push(spec_oracle_entry("xmltype", FuncCategory::Scalar, FuncDomain::Xml, 1, Some(1), false))
        .push(spec_core_entry("xpath", FuncCategory::Scalar, FuncDomain::Xml, 2, Some(2), false))
        .push(spec_core_entry("xpath_exists", FuncCategory::Scalar, FuncDomain::Xml, 2, Some(2), false))
        .push(spec_commercial_entry("yearweek", FuncCategory::Scalar, FuncDomain::DateTime, 1, Some(2), false))
}

proof fn lemma_chunk_8_10(s: Seq<FuncMeta>)
    requires
        names_increasing(s),
        s.len() == 0 || chars_before(s.last().name@, "xmlsequence"@),
    ensures
        names_increasing(table_chunk_8_10(s)),
        table_chunk_8_10(s).len() > 0,
        table_chunk_8_10(s).last().name@ == "yearweek"@,
{
    let t = s;
    reveal_strlit("xmlsequence");
    lemma_push_keeps_increasing(t, spec_oracle_entry("xmlsequence", FuncCategory::Scalar, FuncDomain::Xml, 1, Some(1), false));
    let t = t.push(spec_oracle_entry("xmlsequence", FuncCategory::Scalar, FuncDomain::Xml, 1, Some(1), false));
    reveal_strlit("xmlserialize");
    lemma_push_after(t, "xmlsequence"@, spec_oracle_entry("xmlserialize", FuncCategory::Scalar, FuncDomain::Xml, 2, Some(3), false), 5);
    let t = t.push(spec_oracle_entry("xmlserialize", FuncCategory::Scalar, FuncDomain::Xml, 2, Some(3), false));
    reveal_strlit("xmltype");
    lemma_push_after(t, "xmlserialize"@, spec_oracle_entry("xmltype", FuncCategory::Scalar, FuncDomain::Xml, 1, Some(1), false), 3);
    let t = t.push(spec_oracle_entry("xmltype", FuncCategory::Scalar, FuncDomain::Xml, 1, Some(1), false));
    reveal_strlit("xpath");
    lemma_push_after(t, "xmltype"@, spec_core_entry("xpath", FuncCategory::Scalar, FuncDomain::Xml, 2, Some(2), false), 1);
    let t = t.push(spec_core_entry("xpath", FuncCategory::Scalar, FuncDomain::Xml, 2, Some(2), false));
    reveal_strlit("xpath_exists");
    lemma_push_after(t, "xpath"@, spec_core_entry("xpath_exists", FuncCategory::Scalar, FuncDomain::Xml, 2, Some(2), false), 5);
    let t = t.push(spec_core_entry("xpath_exists", FuncCategory::Scalar, FuncDomain::Xml, 2, Some(2), false));
    reveal_strlit("yearweek");
    lemma_push_after(t, "xpath_exists"@, spec_commercial_entry("yearweek", FuncCategory::Scalar, FuncDomain::DateTime, 1, Some(2), false), 0);
    let t = t.push(spec_commercial_entry("yearweek", FuncCategory::Scalar, FuncDomain::DateTime, 1, Some(2), false));
    assert(t == table_chunk_8_10(s));
}

proof fn lemma_part_8_increasing(s: Seq<FuncMeta>)
    requires
        names_increasing(s),
        s.len() == 0 || chars_before(s.last().name@, "sum"@),
    ensures
        names_increasing(table_part_8(s)),
        table_part_8(s).len() > 0,
        table_part_8(s).last().name@ == "yearweek"@,
{
    lemma_chunk_8_0(s);
    let t0 = table_chunk_8_0(s);
    reveal_strlit("time_format");
    reveal_strlit("time_to_sec");
    lemma_chars_before_at("time_format"@, "time_to_sec"@, 5);
    lemma_chunk_8_1(t0);
    let t1 = table_chunk_8_1(t0);
    reveal_strlit("to_binary_float");
    reveal_strlit("to_blob");
    lemma_chars_before_at("to_binary_float"@, "to_blob"@, 4);
    lemma_chunk_8_2(t1);
    let t2 = table_chunk_8_2(t1);
    reveal_strlit("to_multi_byte");
    reveal_strlit("to_nchar");
    lemma_chars_before_at("to_multi_byte"@, "to_nchar"@, 3);
    lemma_chunk_8_3(t2);
    let t3 = table_chunk_8_3(t2);
    reveal_strlit("transaction_timestamp");
    reveal_strlit("translate");
    lemma_chars_before_at("transaction_timestamp"@, "translate"@, 5);
    lemma_chunk_8_4(t3);
    let t4 = table_chunk_8_4(t3);
    reveal_strlit("ts_rewrite");
    reveal_strlit("ts_stat");
    lemma_chars_before_at("ts_rewrite"@, "ts_stat"@, 3);
    lemma_chunk_8_5(t4);
    let t5 = table_chunk_8_5(t4);
    reveal_strlit("txid_visible_in_snapshot");
    reveal_strlit("tz_offset");
    lemma_chars_before_at("txid_visible_in_snapshot"@, "tz_offset"@, 1);
    lemma_chunk_8_6(t5);
    let t6 = table_chunk_8_6(t5);
    reveal_strlit("utc_timestamp");
    reveal_strlit("utl_file.fclose");
    lemma_chars_before_at("utc_timestamp"@, "utl_file.fclose"@, 2);
    lemma_chunk_8_7(t6);
    let t7 = table_chunk_8_7(t6);
    reveal_strlit("version");
    reveal_strlit("vsize");
    lemma_chars_before_at("version"@, "vsize"@, 1);
    lemma_chunk_8_8(t7);
    let t8 = table_chunk_8_8(t7);
    reveal_strlit("xmlagg");
    reveal_strlit("xmlattributes");
    lemma_chars_before_at("xmlagg"@, "xmlattributes"@, 4);
    lemma_chunk_8_9(t8);
    let t9 = table_chunk_8_9(t8);
    reveal_strlit("xmlroot");
    reveal_strlit("xmlsequence");
    lemma_chars_before_at("xmlroot"@, "xmlsequence"@, 3);
    lemma_chunk_8_10(t9);
    let t10 = table_chunk_8_10(t9);
    assert(t10 == table_part_8(s));
}

proof fn lemma_part_2_after(s: Seq<FuncMeta>)
    requires
        names_increasing(s),
        s.len() > 0,
        s.last().name@ == "dbe_file.read_line_nchar"@,
    ensures
        names_increasing(table_part_2(s)),
        table_part_2(s).len() > 0,
        table_part_2(s).last().name@ == "dbe_session.clear_context"@,
{
    reveal_strlit("dbe_file.read_line_nchar");
    reveal_strlit("dbe_file.remove");
    lemma_chars_before_at("dbe_file.read_line_nchar"@, "dbe_file.remove"@, 11);
    lemma_part_2_increasing(s);
}

proof fn lemma_part_3_after(s: Seq<FuncMeta>)
    requires
        names_increasing(s),
        s.len() > 0,
        s.last().name@ == "dbe_session.clear_context"@,
    ensures
        names_increasing(table_part_3(s)),
        table_part_3(s).len() > 0,
        table_part_3(s).last().name@ == "dbe_xmldom.freenodelist"@,
{
    reveal_strlit("dbe_session.clear_context");
    reveal_strlit("dbe_session.set_context");
    lemma_chars_before_at("dbe_session.clear_context"@, "dbe_session.set_context"@, 12);
    lemma_part_3_increasing(s);
}

proof fn lemma_part_4_after(s: Seq<FuncMeta>)
    requires
        names_increasing(s),
        s.len() > 0,
        s.last().name@ == "dbe_xmldom.freenodelist"@,
    ensures
        names_increasing(table_part_4(s)),
        table_part_4(s).len() > 0,
        table_part_4(s).last().name@ == "json_contains"@,
{
    reveal_strlit("dbe_xmldom.freenodelist");
    reveal_strlit("dbe_xmldom.getattribute");
    lemma_chars_before_at("dbe_xmldom.freenodelist"@, "dbe_xmldom.getattribute"@, 11);
    lemma_part_4_increasing(s);
}

proof fn lemma_part_5_after(s: Seq<FuncMeta>)
    requires
        names_increasing(s),
        s.len() > 0,
        s.last().name@ == "json_contains"@,
    ensures
        names_increasing(table_part_5(s)),
        table_part_5(s).len() > 0,
        table_part_5(s).last().name@ == "pg_create_logical_replication_slot"@,
{
    reveal_strlit("json_contains");
    reveal_strlit("json_contains_path");
    lemma_chars_before_at("json_contains"@, "json_contains_path"@, 13);
    lemma_part_5_increasing(s);
}

proof fn lemma_part_6_after(s: Seq<FuncMeta>)
    requires
        names_increasing(s),
        s.len() > 0,
        s.last().name@ == "pg_create_logical_replication_slot"@,
    ensures
        names_increasing(table_part_6(s)),
        table_part_6(s).len() > 0,
        table_part_6(s).last().name@ == "pkg_util.file_write_raw"@,
{
    reveal_strlit("pg_create_logical_replication_slot");
    reveal_strlit("pg_create_physical_replication_slot");
    lemma_chars_before_at("pg_create_logical_replication_slot"@, "pg_create_physical_replication_slot"@, 10);
    lemma_part_6_increasing(s);
}

proof fn lemma_part_7_after(s: Seq<FuncMeta>)
    requires
        names_increasing(s),
        s.len() > 0,
        s.last().name@ == "pkg_util.file_write_raw"@,
    ensures
        names_increasing(table_part_7(s)),
        table_part_7(s).len() > 0,
        table_part_7(s).last().name@ == "subtime"@,
{
    reveal_strlit("pkg_util.file_write_raw");
    reveal_strlit("pkg_util.file_writeline");
    lemma_chars_before_at("pkg_util.file_write_raw"@, "pkg_util.file_writeline"@, 19);
    lemma_part_7_increasing(s);
}

proof fn lemma_part_8_after(s: Seq<FuncMeta>)
    requires
        names_increasing(s),
        s.len() > 0,
        s.last().name@ == "subtime"@,
    ensures
        names_increasing(table_part_8(s)),
        table_part_8(s).len() > 0,
        table_part_8(s).last().name@ == "yearweek"@,
{
    reveal_strlit("subtime");
    reveal_strlit("sum");
    lemma_chars_before_at("subtime"@, "sum"@, 2);
    lemma_part_8_increasing(s);
}

/// The built-in table lists its functions by strictly increasing name (in character
/// order).
#[verifier::spinoff_prover]
pub proof fn law_builtin_names_strictly_increasing()
    ensures
        names_increasing(builtin_function_table()),
{
    let s0 = Seq::<FuncMeta>::empty();
    let s1 = table_part_1(s0);
    let s2 = table_part_2(s1);
    let s3 = table_part_3(s2);
    let s4 = table_part_4(s3);
    let s5 = table_part_5(s4);
    let s6 = table_part_6(s5);
    let s7 = table_part_7(s6);
    lemma_part_1_increasing(s0);
    lemma_part_2_after(s1);
    lemma_part_3_after(s2);
    lemma_part_4_after(s3);
    lemma_part_5_after(s4);
    lemma_part_6_after(s5);
    lemma_part_7_after(s6);
    lemma_part_8_after(s7);
}

/// No two built-in functions share a name.
pub proof fn law_builtin_names_unique()
    ensures
        forall|i: int, j: int| 0 <= i < builtin_function_table().len() && 0 <= j < builtin_function_table().len() && i != j
            ==> builtin_function_table()[i].name@ != builtin_function_table()[j].name@,
{
    law_builtin_names_strictly_increasing();
    lemma_increasing_names_differ(builtin_function_table());
}

/// Names that strictly increase are pairwise different.
proof fn lemma_increasing_names_differ(t: Seq<FuncMeta>)
    requires
        names_increasing(t),
    ensures
        forall|i: int, j: int| 0 <= i < t.len() && 0 <= j < t.len() && i != j ==> t[i].name@ != t[j].name@,
{
    assert forall|i: int, j: int| 0 <= i < t.len() && 0 <= j < t.len() && i != j implies t[i].name@ != t[j].name@ by {
        lemma_chars_before_irreflexive(t[i].name@);
        lemma_chars_before_irreflexive(t[j].name@);
    }
}

/// No character of `s` is an ASCII capital letter.
pub open spec fn no_ascii_upper(s: Seq<char>) -> bool {
    forall|m: int| 0 <= m < s.len() ==> !is_ascii_upper(#[trigger] s[m])
}

/// Every name of `t` is written in lower case.
pub open spec fn names_lower(t: Seq<FuncMeta>) -> bool {
    forall|i: int| 0 <= i < t.len() ==> no_ascii_upper(#[trigger] t[i].name@)
}

proof fn lemma_push_keeps_lower(t: Seq<FuncMeta>, x: FuncMeta)
    requires
        names_lower(t),
        no_ascii_upper(x.name@),
    ensures
        names_lower(t.push(x)),
{
    assert forall|i: int| 0 <= i < t.push(x).len() implies no_ascii_upper(#[trigger] t.push(x)[i].name@) by {
        if i < t.len() {
            assert(t.push(x)[i] == t[i]);
        }
    }
}

proof fn lemma_chunk_lower_1_0(s: Seq<FuncMeta>)
    requires
        names_lower(s),
    ensures
        names_lower(table_chunk_1_0(s)),
{
    let t = s;
    reveal_strlit("abbrev");
    lemma_push_keeps_lower(t, spec_core_entry("abbrev", FuncCategory::Scalar, FuncDomain::Network, 1, Some(1), false));
    let t = t.push(spec_core_entry("abbrev", FuncCategory::Scalar, FuncDomain::Network, 1, Some(1), false));
    reveal_strlit("abs");
    lemma_push_keeps_lower(t, spec_core_entry("abs", FuncCategory::Scalar, FuncDomain::Math, 1, Some(1), false));
    let t = t.push(spec_core_entry("abs", FuncCategory::Scalar, FuncDomain::Math, 1, Some(1), false));
    reveal_strlit("acos");
    lemma_push_keeps_lower(t, spec_core_entry("acos", FuncCategory::Scalar, FuncDomain::Math, 1, Some(1), false));
    let t = t.push(spec_core_entry("acos", FuncCategory::Scalar, FuncDomain::Math, 1, Some(1), false));
    reveal_strlit("add_months");
    lemma_push_keeps_lower(t, spec_oracle_entry("add_months", FuncCategory::Scalar, FuncDomain::OracleCompat, 2, Some(2), false));
    let t = t.push(spec_oracle_entry("add_months", FuncCategory::Scalar, FuncDomain::OracleCompat, 2, Some(2), false));
    reveal_strlit("adddate");
    lemma_push_keeps_lower(t, spec_commercial_entry("adddate", FuncCategory::Scalar, FuncDomain::DateTime, 2, Some(2), false));
    let t = t.push(spec_commercial_entry("adddate", FuncCategory::Scalar, FuncDomain::DateTime, 2, Some(2), false));
    reveal_strlit("addtime");
    lemma_push_keeps_lower(t, spec_commercial_entry("addtime", FuncCategory::Scalar, FuncDomain::DateTime, 2, Some(2), false));
    let t = t.push(spec_commercial_entry("addtime", FuncCategory::Scalar, FuncDomain::DateTime, 2, Some(2), false));
    reveal_strlit("aes_decrypt");
    lemma_push_keeps_lower(t, spec_core_entry("aes_decrypt", FuncCategory::Scalar, FuncDomain::Crypto, 2, Some(2), false));
    let t = t.push(spec_core_entry("aes_decrypt", FuncCategory::Scalar, FuncDomain::Crypto, 2, Some(2), false));
    reveal_strlit("aes_encrypt");
    lemma_push_keeps_lower(t, spec_core_entry("aes_encrypt", FuncCategory::Scalar, FuncDomain::Crypto, 2, Some(2), false));
    let t = t.push(spec_core_entry("aes_encrypt", FuncCategory::Scalar, FuncDomain::Crypto, 2, Some(2), false));
    reveal_strlit("age");
    lemma_push_keeps_lower(t, spec_core_entry("age", FuncCategory::Scalar, FuncDomain::DateTime, 1, Some(2), false));
    let t = t.push(spec_core_entry("age", FuncCategory::Scalar, FuncDomain::DateTime, 1, Some(2), false));
    reveal_strlit("area");
    lemma_push_keeps_lower(t, spec_core_entry("area", FuncCategory::Scalar, FuncDomain::Geometric, 1, Some(1), false));
    let t = t.push(spec_core_entry("area", FuncCategory::Scalar, FuncDomain::Geometric, 1, Some(1), false));
    assert(t == table_chunk_1_0(s));
}

proof fn lemma_chunk_lower_1_1(s: Seq<FuncMeta>)
    requires
        names_lower(s),
    ensures
        names_lower(table_chunk_1_1(s)),
{
    let t = s;
    reveal_strlit("array_agg");
    lemma_push_keeps_lower(t, spec_core_entry("array_agg", FuncCategory::Aggregate, FuncDomain::Aggregate, 1, Some(1), true));
    let t = t.push(spec_core_entry("array_agg", FuncCategory::Aggregate, FuncDomain::Aggregate, 1, Some(1), true));
    reveal_strlit("array_append");
    lemma_push_keeps_lower(t, spec_core_entry("array_append", FuncCategory::Scalar, FuncDomain::Array, 2, Some(2), false));
    let t = t.push(spec_core_entry("array_append", FuncCategory::Scalar, FuncDomain::Array, 2, Some(2), false));
    reveal_strlit("array_cat");
    lemma_push_keeps_lower(t, spec_core_entry("array_cat", FuncCategory::Scalar, FuncDomain::Array, 2, Some(2), false));
    let t = t.push(spec_core_entry("array_cat", FuncCategory::Scalar, FuncDomain::Array, 2, Some(2), false));
    reveal_strlit("array_delete");
    lemma_push_keeps_lower(t, spec_core_entry("array_delete", FuncCategory::Scalar, FuncDomain::Array, 1, Some(1), false));
    let t = t.push(spec_core_entry("array_delete", FuncCategory::Scalar, FuncDomain::Array, 1, Some(1), false));
    reveal_strlit("array_deleteidx");
    lemma_push_keeps_lower(t, spec_core_entry("array_deleteidx", FuncCategory::Scalar, FuncDomain::Array, 2, Some(2), false));
    let t = t.push(spec_core_entry("array_deleteidx", FuncCategory::Scalar, FuncDomain::Array, 2, Some(2), false));
    reveal_strlit("array_dims");
    lemma_push_keeps_lower(t, spec_core_entry("array_dims", FuncCategory::Scalar, FuncDomain::Array, 1, Some(1), false));
    let t = t.push(spec_core_entry("array_dims", FuncCategory::Scalar, FuncDomain::Array, 1, Some(1), false));
    reveal_strlit("array_except");
    lemma_push_keeps_lower(t, spec_core_entry("array_except", FuncCategory::Scalar, FuncDomain::Array, 2, Some(2), false));
    let t = t.push(spec_core_entry("array_except", FuncCategory::Scalar, FuncDomain::Array, 2, Some(2), false));
    reveal_strlit("array_except_distinct");
    lemma_push_keeps_lower(t, spec_core_entry("array_except_distinct", FuncCategory::Scalar, FuncDomain::Array, 2, Some(2), false));
    let t = t.push(spec_core_entry("array_except_distinct", FuncCategory::Scalar, FuncDomain::Array, 2, Some(2), false));
    reveal_strlit("array_exists");
    lemma_push_keeps_lower(t, spec_core_entry("array_exists", FuncCategory::Scalar, FuncDomain::Array, 2, Some(2), false));
    let t = t.push(spec_core_entry("array_exists", FuncCategory::Scalar, FuncDomain::Array, 2, Some(2), false));
    reveal_strlit("array_extendnull");
    lemma_push_keeps_lower(t, spec_core_entry("array_extendnull", FuncCategory::Scalar, FuncDomain::Array, 2, Some(2), false));
    let t = t.push(spec_core_entry("array_extendnull", FuncCategory::Scalar, FuncDomain::Array, 2, Some(2), false));
    assert(t == table_chunk_1_1(s));
}

proof fn lemma_chunk_lower_1_2(s: Seq<FuncMeta>)
    requires
        names_lower(s),
    ensures
        names_lower(table_chunk_1_2(s)),
{
    let t = s;
    reveal_strlit("array_intersect");
    lemma_push_keeps_lower(t, spec_core_entry("array_intersect", FuncCategory::Scalar, FuncDomain::Array, 2, Some(2), false));
    let t = t.push(spec_core_entry("array_intersect", FuncCategory::Scalar, FuncDomain::Array, 2, Some(2), false));
    reveal_strlit("array_intersect_distinct");
    lemma_push_keeps_lower(t, spec_core_entry("array_intersect_distinct", FuncCategory::Scalar, FuncDomain::Array, 2, Some(2), false));
    let t = t.push(spec_core_entry("array_intersect_distinct", FuncCategory::Scalar, FuncDomain::Array, 2, Some(2), false));
    reveal_strlit("array_length");
    lemma_push_keeps_lower(t, spec_core_entry("array_length", FuncCategory::Scalar, FuncDomain::Array, 2, Some(2), false));
    let t = t.push(spec_core_entry("array_length", FuncCategory::Scalar, FuncDomain::Array, 2, Some(2), false));
    reveal_strlit("array_lower");
    lemma_push_keeps_lower(t, spec_core_entry("array_lower", FuncCategory::Scalar, FuncDomain::Array, 2, Some(2), false));
    let t = t.push(spec_core_entry("array_lower", FuncCategory::Scalar, FuncDomain::Array, 2, Some(2), false));
    reveal_strlit("array_ndims");
    lemma_push_keeps_lower(t, spec_core_entry("array_ndims", FuncCategory::Scalar, FuncDomain::Array, 1, Some(1), false));
    let t = t.push(spec_core_entry("array_ndims", FuncCategory::Scalar, FuncDomain::Array, 1, Some(1), false));
    reveal_strlit("array_next");
    lemma_push_keeps_lower(t, spec_core_entry("array_next", FuncCategory::Scalar, FuncDomain::Array, 2, Some(2), false));
    let t = t.push(spec_core_entry("array_next", FuncCategory::Scalar, FuncDomain::Array, 2, Some(2), false));
    reveal_strlit("array_positions");
    lemma_push_keeps_lower(t, spec_commercial_entry("array_positions", FuncCategory::Scalar, FuncDomain::Array, 2, Some(2), false));
    let t = t.push(spec_commercial_entry("array_positions", FuncCategory::Scalar, FuncDomain::Array, 2, Some(2), false));
    reveal_strlit("array_prepend");
    lemma_push_keeps_lower(t, spec_core_entry("array_prepend", FuncCategory::Scalar, FuncDomain::Array, 2, Some(2), false));
    let t = t.push(spec_core_entry("array_prepend", FuncCategory::Scalar, FuncDomain::Array, 2, Some(2), false));
    reveal_strlit("array_prior");
    lemma_push_keeps_lower(t, spec_core_entry("array_prior", FuncCategory::Scalar, FuncDomain::Array, 2, Some(2), false));
    let t = t.push(spec_core_entry("array_prior", FuncCategory::Scalar, FuncDomain::Array, 2, Some(2), false));
    reveal_strlit("array_sort");
    lemma_push_keeps_lower(t, spec_commercial_entry("array_sort", FuncCategory::Scalar, FuncDomain::Array, 1, Some(1), false));
    let t = t.push(spec_commercial_entry("array_sort", FuncCategory::Scalar, FuncDomain::Array, 1, Some(1), false));
    assert(t == table_chunk_1_2(s));
}

proof fn lemma_chunk_lower_1_3(s: Seq<FuncMeta>)
    requires
        names_lower(s),
    ensures
        names_lower(table_chunk_1_3(s)),
{
    let t = s;
    reveal_strlit("array_to_json");
    lemma_push_keeps_lower(t, spec_core_entry("array_to_json", FuncCategory::Scalar, FuncDomain::Json, 1, Some(2), false));
    let t = t.push(spec_core_entry("array_to_json", FuncCategory::Scalar, FuncDomain::Json, 1, Some(2), false));
    reveal_strlit("array_to_string");
    lemma_push_keeps_lower(t, spec_core_entry("array_to_string", FuncCategory::Scalar, FuncDomain::Array, 2, Some(3), false));
    let t = t.push(spec_core_entry("array_to_string", FuncCategory::Scalar, FuncDomain::Array, 2, Some(3), false));
    reveal_strlit("array_trim");
    lemma_push_keeps_lower(t, spec_core_entry("array_trim", FuncCategory::Scalar, FuncDomain::Array, 2, Some(2), false));
    let t = t.push(spec_core_entry("array_trim", FuncCategory::Scalar, FuncDomain::Array, 2, Some(2), false));
    reveal_strlit("array_union");
    lemma_push_keeps_lower(t, spec_core_entry("array_union", FuncCategory::Scalar, FuncDomain::Array, 2, Some(2), false));
    let t = t.push(spec_core_entry("array_union", FuncCategory::Scalar, FuncDomain::Array, 2, Some(2), false));
    reveal_strlit("array_union_distinct");
    lemma_push_keeps_lower(t, spec_core_entry("array_union_distinct", FuncCategory::Scalar, FuncDomain::Array, 2, Some(2), false));
    let t = t.push(spec_core_entry("array_union_distinct", FuncCategory::Scalar, FuncDomain::Array, 2, Some(2), false));
    reveal_strlit("array_upper");
    lemma_push_keeps_lower(t, spec_core_entry("array_upper", FuncCategory::Scalar, FuncDomain::Array, 2, Some(2), false));
    let t = t.push(spec_core_entry("array_upper", FuncCategory::Scalar, FuncDomain::Array, 2, Some(2), false));
    reveal_strlit("ascii");
    lemma_push_keeps_lower(t, spec_core_entry("ascii", FuncCategory::Scalar, FuncDomain::String, 1, Some(1), false));
    let t = t.push(spec_core_entry("ascii", FuncCategory::Scalar, FuncDomain::String, 1, Some(1), false));
    reveal_strlit("ascii2");
    lemma_push_keeps_lower(t, spec_oracle_entry("ascii2", FuncCategory::Scalar, FuncDomain::String, 1, Some(1), false));
    let t = t.push(spec_oracle_entry("ascii2", FuncCategory::Scalar, FuncDomain::String, 1, Some(1), false));
    reveal_strlit("asciistr");
    lemma_push_keeps_lower(t, spec_oracle_entry("asciistr", FuncCategory::Scalar, FuncDomain::String, 1, Some(1), false));
    let t = t.push(spec_oracle_entry("asciistr", FuncCategory::Scalar, FuncDomain::String, 1, Some(1), false));
    reveal_strlit("asin");
    lemma_push_keeps_lower(t, spec_core_entry("asin", FuncCategory::Scalar, FuncDomain::Math, 1, Some(1), false));
    let t = t.push(spec_core_entry("asin", FuncCategory::Scalar, FuncDomain::Math, 1, Some(1), false));
    assert(t == table_chunk_1_3(s));
}

proof fn lemma_chunk_lower_1_4(s: Seq<FuncMeta>)
    requires
        names_lower(s),
    ensures
        names_lower(table_chunk_1_4(s)),
{
    let t = s;
    reveal_strlit("atan");
    lemma_push_keeps_lower(t, spec_core_entry("atan", FuncCategory::Scalar, FuncDomain::Math, 1, Some(1), false));
    let t = t.push(spec_core_entry("atan", FuncCategory::Scalar, FuncDomain::Math, 1, Some(1), false));
    reveal_strlit("atan2");
    lemma_push_keeps_lower(t, spec_core_entry("atan2", FuncCategory::Scalar, FuncDomain::Math, 2, Some(2), false));
    let t = t.push(spec_core_entry("atan2", FuncCategory::Scalar, FuncDomain::Math, 2, Some(2), false));
    reveal_strlit("avg");
    lemma_push_keeps_lower(t, spec_core_entry("avg", FuncCategory::Aggregate, FuncDomain::Aggregate, 1, Some(1), true));
    let t = t.push(spec_core_entry("avg", FuncCategory::Aggregate, FuncDomain::Aggregate, 1, Some(1), true));
    reveal_strlit("bit_and");
    lemma_push_keeps_lower(t, spec_core_entry("bit_and", FuncCategory::Aggregate, FuncDomain::Aggregate, 1, Some(1), true));
    let t = t.push(spec_core_entry("bit_and", FuncCategory::Aggregate, FuncDomain::Aggregate, 1, Some(1), true));
    reveal_strlit("bit_length");
    lemma_push_keeps_lower(t, spec_core_entry("bit_length", FuncCategory::Scalar, FuncDomain::String, 1, Some(1), false));
    let t = t.push(spec_core_entry("bit_length", FuncCategory::Scalar, FuncDomain::String, 1, Some(1), false));
    reveal_strlit("bit_or");
    lemma_push_keeps_lower(t, spec_core_entry("bit_or", FuncCategory::Aggregate, FuncDomain::Aggregate, 1, Some(1), true));
    let t = t.push(spec_core_entry("bit_or", FuncCategory::Aggregate, FuncDomain::Aggregate, 1, Some(1), true));
    reveal_strlit("broadcast");
    lemma_push_keeps_lower(t, spec_core_entry("broadcast", FuncCategory::Scalar, FuncDomain::Network, 1, Some(1), false));
    let t = t.push(spec_core_entry("broadcast", FuncCategory::Scalar, FuncDomain::Network, 1, Some(1), false));
    reveal_strlit("btrim");
    lemma_push_keeps_lower(t, spec_core_entry("btrim", FuncCategory::Scalar, FuncDomain::String, 1, Some(2), false));
    let t = t.push(spec_core_entry("btrim", FuncCategory::Scalar, FuncDomain::String, 1, Some(2), false));
    reveal_strlit("cardinality");
    lemma_push_keeps_lower(t, spec_commercial_entry("cardinality", FuncCategory::Scalar, FuncDomain::Array, 1, Some(1), false));
    let t = t.push(spec_commercial_entry("cardinality", FuncCategory::Scalar, FuncDomain::Array, 1, Some(1), false));
    reveal_strlit("cbrt");
    lemma_push_keeps_lower(t, spec_core_entry("cbrt", FuncCategory::Scalar, FuncDomain::Math, 1, Some(1), false));
    let t = t.push(spec_core_entry("cbrt", FuncCategory::Scalar, FuncDomain::Math, 1, Some(1), false));
    assert(t == table_chunk_1_4(s));
}

proof fn lemma_chunk_lower_1_5(s: Seq<FuncMeta>)
    requires
        names_lower(s),
    ensures
        names_lower(table_chunk_1_5(s)),
{
    let t = s;
    reveal_strlit("ceil");
    lemma_push_keeps_lower(t, spec_core_entry("ceil", FuncCategory::Scalar, FuncDomain::Math, 1, Some(1), false));
    let t = t.push(spec_core_entry("ceil", FuncCategory::Scalar, FuncDomain::Math, 1, Some(1), false));
    reveal_strlit("ceiling");
    lemma_push_keeps_lower(t, spec_core_entry("ceiling", FuncCategory::Scalar, FuncDomain::Math, 1, Some(1), false));
    let t = t.push(spec_core_entry("ceiling", FuncCategory::Scalar, FuncDomain::Math, 1, Some(1), false));
    reveal_strlit("center");
    lemma_push_keeps_lower(t, spec_core_entry("center", FuncCategory::Scalar, FuncDomain::Geometric, 1, Some(1), false));
    let t = t.push(spec_core_entry("center", FuncCategory::Scalar, FuncDomain::Geometric, 1, Some(1), false));
    reveal_strlit("char_length");
    lemma_push_keeps_lower(t, spec_core_entry("char_length", FuncCategory::Scalar, FuncDomain::String, 1, Some(1), false));
    let t = t.push(spec_core_entry("char_length", FuncCategory::Scalar, FuncDomain::String, 1, Some(1), false));
    reveal_strlit("character_length");
    lemma_push_keeps_lower(t, spec_core_entry("character_length", FuncCategory::Scalar, FuncDomain::String, 1, Some(1), false));
    let t = t.push(spec_core_entry("character_length", FuncCategory::Scalar, FuncDomain::String, 1, Some(1), false));
    reveal_strlit("chr");
    lemma_push_keeps_lower(t, spec_core_entry("chr", FuncCategory::Scalar, FuncDomain::String, 1, Some(1), false));
    let t = t.push(spec_core_entry("chr", FuncCategory::Scalar, FuncDomain::String, 1, Some(1), false));
    reveal_strlit("circle");
    lemma_push_keeps_lower(t, spec_core_entry("circle", FuncCategory::Scalar, FuncDomain::Geometric, 1, Some(1), false));
    let t = t.push(spec_core_entry("circle", FuncCategory::Scalar, FuncDomain::Geometric, 1, Some(1), false));
    reveal_strlit("clock_timestamp");
    lemma_push_keeps_lower(t, spec_core_entry("clock_timestamp", FuncCategory::Scalar, FuncDomain::DateTime, 0, Some(0), false));
    let t = t.push(spec_core_entry("clock_timestamp", FuncCategory::Scalar, FuncDomain::DateTime, 0, Some(0), false));
    reveal_strlit("coalesce");
    lemma_push_keeps_lower(t, spec_core_entry("coalesce", FuncCategory::Special, FuncDomain::Other, 2, None, false));
    let t = t.push(spec_core_entry("coalesce", FuncCategory::Special, FuncDomain::Other, 2, None, false));
    reveal_strlit("col_description");
    lemma_push_keeps_lower(t, spec_core_entry("col_description", FuncCategory::Scalar, FuncDomain::System, 2, Some(3), false));
    let t = t.push(spec_core_entry("col_description", FuncCategory::Scalar, FuncDomain::System, 2, Some(3), false));
    assert(t == table_chunk_1_5(s));
}

proof fn lemma_chunk_lower_1_6(s: Seq<FuncMeta>)
    requires
        names_lower(s),
    ensures
        names_lower(table_chunk_1_6(s)),
{
    let t = s;
    reveal_strlit("concat");
    lemma_push_keeps_lower(t, spec_core_entry("concat", FuncCategory::Scalar, FuncDomain::String, 2, None, false));
    let t = t.push(spec_core_entry("concat", FuncCategory::Scalar, FuncDomain::String, 2, None, false));
    reveal_strlit("concat_ws");
    lemma_push_keeps_lower(t, spec_core_entry("concat_ws", FuncCategory::Scalar, FuncDomain::String, 2, None, false));
    let t = t.push(spec_core_entry("concat_ws", FuncCategory::Scalar, FuncDomain::String, 2, None, false));
    reveal_strlit("convert");
    lemma_push_keeps_lower(t, spec_core_entry("convert", FuncCategory::Scalar, FuncDomain::TypeConversion, 2, Some(3), false));
    let t = t.push(spec_core_entry("convert", FuncCategory::Scalar, FuncDomain::TypeConversion, 2, Some(3), false));
    reveal_strlit("convert_from");
    lemma_push_keeps_lower(t, spec_core_entry("convert_from", FuncCategory::Scalar, FuncDomain::TypeConversion, 2, Some(2), false));
    let t = t.push(spec_core_entry("convert_from", FuncCategory::Scalar, FuncDomain::TypeConversion, 2, Some(2), false));
    reveal_strlit("convert_to");
    lemma_push_keeps_lower(t, spec_core_entry("convert_to", FuncCategory::Scalar, FuncDomain::TypeConversion, 2, Some(2), false));
    let t = t.push(spec_core_entry("convert_to", FuncCategory::Scalar, FuncDomain::TypeConversion, 2, Some(2), false));
    reveal_strlit("convert_tz");
    lemma_push_keeps_lower(t, spec_commercial_entry("convert_tz", FuncCategory::Scalar, FuncDomain::DateTime, 3, Some(3), false));
    let t = t.push(spec_commercial_entry("convert_tz", FuncCategory::Scalar, FuncDomain::DateTime, 3, Some(3), false));
    reveal_strlit("corr");
    lemma_push_keeps_lower(t, spec_core_entry("corr", FuncCategory::Aggregate, FuncDomain::Aggregate, 2, Some(2), true));
    let t = t.push(spec_core_entry("corr", FuncCategory::Aggregate, FuncDomain::Aggregate, 2, Some(2), true));
    reveal_strlit("cos");
    lemma_push_keeps_lower(t, spec_core_entry("cos", FuncCategory::Scalar, FuncDomain::Math, 1, Some(1), false));
    let t = t.push(spec_core_entry("cos", FuncCategory::Scalar, FuncDomain::Math, 1, Some(1), false));
    reveal_strlit("cot");
    lemma_push_keeps_lower(t, spec_core_entry("cot", FuncCategory::Scalar, FuncDomain::Math, 1, Some(1), false));
    let t = t.push(spec_core_entry("cot", FuncCategory::Scalar, FuncDomain::Math, 1, Some(1), false));
    reveal_strlit("count");
    lemma_push_keeps_lower(t, spec_core_entry("count", FuncCategory::Aggregate, FuncDomain::Aggregate, 1, Some(1), true));
    let t = t.push(spec_core_entry("count", FuncCategory::Aggregate, FuncDomain::Aggregate, 1, Some(1), true));
    assert(t == table_chunk_1_6(s));
}

proof fn lemma_chunk_lower_1_7(s: Seq<FuncMeta>)
    requires
        names_lower(s),
    ensures
        names_lower(table_chunk_1_7(s)),
{
    let t = s;
    reveal_strlit("covar_pop");
    lemma_push_keeps_lower(t, spec_core_entry("covar_pop", FuncCategory::Aggregate, FuncDomain::Aggregate, 2, Some(2), true));
    let t = t.push(spec_core_entry("covar_pop", FuncCategory::Aggregate, FuncDomain::Aggregate, 2, Some(2), true));
    reveal_strlit("covar_samp");
    lemma_push_keeps_lower(t, spec_core_entry("covar_samp", FuncCategory::Aggregate, FuncDomain::Aggregate, 2, Some(2), true));
    let t = t.push(spec_core_entry("covar_samp", FuncCategory::Aggregate, FuncDomain::Aggregate, 2, Some(2), true));
    reveal_strlit("crc32");
    lemma_push_keeps_lower(t, spec_core_entry("crc32", FuncCategory::Scalar, FuncDomain::Hash, 1, Some(2), false));
    let t = t.push(spec_core_entry("crc32", FuncCategory::Scalar, FuncDomain::Hash, 1, Some(2), false));
    reveal_strlit("createxml");
    lemma_push_keeps_lower(t, spec_oracle_entry("createxml", FuncCategory::Scalar, FuncDomain::Xml, 1, Some(4), false));
    let t = t.push(spec_oracle_entry("createxml", FuncCategory::Scalar, FuncDomain::Xml, 1, Some(4), false));
    reveal_strlit("cume_dist");
    lemma_push_keeps_lower(t, spec_core_entry("cume_dist", FuncCategory::Window, FuncDomain::Window, 0, Some(0), false));
    let t = t.push(spec_core_entry("cume_dist", FuncCategory::Window, FuncDomain::Window, 0, Some(0), false));
    reveal_strlit("curdate");
    lemma_push_keeps_lower(t, spec_commercial_entry("curdate", FuncCategory::Scalar, FuncDomain::DateTime, 0, Some(0), false));
    let t = t.push(spec_commercial_entry("curdate", FuncCategory::Scalar, FuncDomain::DateTime, 0, Some(0), false));
    reveal_strlit("current_database");
    lemma_push_keeps_lower(t, spec_core_entry("current_database", FuncCategory::Scalar, FuncDomain::System, 0, Some(0), false));
    let t = t.push(spec_core_entry("current_database", FuncCategory::Scalar, FuncDomain::System, 0, Some(0), false));
    reveal_strlit("current_date");
    lemma_push_keeps_lower(t, spec_core_entry("current_date", FuncCategory::Scalar, FuncDomain::DateTime, 0, Some(0), false));
    let t = t.push(spec_core_entry("current_date", FuncCategory::Scalar, FuncDomain::DateTime, 0, Some(0), false));
    reveal_strlit("current_schema");
    lemma_push_keeps_lower(t, spec_core_entry("current_schema", FuncCategory::Scalar, FuncDomain::System, 0, Some(1), false));
    let t = t.push(spec_core_entry("current_schema", FuncCategory::Scalar, FuncDomain::System, 0, Some(1), false));
    reveal_strlit("current_setting");
    lemma_push_keeps_lower(t, spec_core_entry("current_setting", FuncCategory::Scalar, FuncDomain::System, 1, Some(2), false));
    let t = t.push(spec_core_entry("current_setting", FuncCategory::Scalar, FuncDomain::System, 1, Some(2), false));
    assert(t == table_chunk_1_7(s));
}

proof fn lemma_chunk_lower_1_8(s: Seq<FuncMeta>)
    requires
        names_lower(s),
    ensures
        names_lower(table_chunk_1_8(s)),
{
    let t = s;
    reveal_strlit("current_time");
    lemma_push_keeps_lower(t, spec_core_entry("current_time", FuncCategory::Scalar, FuncDomain::DateTime, 0, Some(1), false));
    let t = t.push(spec_core_entry("current_time", FuncCategory::Scalar, FuncDomain::DateTime, 0, Some(1), false));
    reveal_strlit("current_timestamp");
    lemma_push_keeps_lower(t, spec_core_entry("current_timestamp", FuncCategory::Scalar, FuncDomain::DateTime, 0, Some(1), false));
    let t = t.push(spec_core_entry("current_timestamp", FuncCategory::Scalar, FuncDomain::DateTime, 0, Some(1), false));
    reveal_strlit("current_user");
    lemma_push_keeps_lower(t, spec_core_entry("current_user", FuncCategory::Scalar, FuncDomain::System, 0, Some(0), false));
    let t = t.push(spec_core_entry("current_user", FuncCategory::Scalar, FuncDomain::System, 0, Some(0), false));
    reveal_strlit("currval");
    lemma_push_keeps_lower(t, spec_core_entry("currval", FuncCategory::Scalar, FuncDomain::System, 1, Some(2), false));
    let t = t.push(spec_core_entry("currval", FuncCategory::Scalar, FuncDomain::System, 1, Some(2), false));
    reveal_strlit("cursor_to_xml");
    lemma_push_keeps_lower(t, spec_core_entry("cursor_to_xml", FuncCategory::Scalar, FuncDomain::Xml, 5, Some(5), false));
    let t = t.push(spec_core_entry("cursor_to_xml", FuncCategory::Scalar, FuncDomain::Xml, 5, Some(5), false));
    reveal_strlit("cursor_to_xmlschema");
    lemma_push_keeps_lower(t, spec_core_entry("cursor_to_xmlschema", FuncCategory::Scalar, FuncDomain::Xml, 5, Some(5), false));
    let t = t.push(spec_core_entry("cursor_to_xmlschema", FuncCategory::Scalar, FuncDomain::Xml, 5, Some(5), false));
    reveal_strlit("curtime");
    lemma_push_keeps_lower(t, spec_commercial_entry("curtime", FuncCategory::Scalar, FuncDomain::DateTime, 0, Some(1), false));
    let t = t.push(spec_commercial_entry("curtime", FuncCategory::Scalar, FuncDomain::DateTime, 0, Some(1), false));
    reveal_strlit("database_to_xml");
    lemma_push_keeps_lower(t, spec_core_entry("database_to_xml", FuncCategory::Scalar, FuncDomain::Xml, 4, Some(4), false));
    let t = t.push(spec_core_entry("database_to_xml", FuncCategory::Scalar, FuncDomain::Xml, 4, Some(4), false));
    reveal_strlit("database_to_xml_and_xmlschema");
    lemma_push_keeps_lower(t, spec_core_entry("database_to_xml_and_xmlschema", FuncCategory::Scalar, FuncDomain::Xml, 4, Some(4), false));
    let t = t.push(spec_core_entry("database_to_xml_and_xmlschema", FuncCategory::Scalar, FuncDomain::Xml, 4, Some(4), false));
    reveal_strlit("database_to_xmlschema");
    lemma_push_keeps_lower(t, spec_core_entry("database_to_xmlschema", FuncCategory::Scalar, FuncDomain::Xml, 4, Some(4), false));
    let t = t.push(spec_core_entry("database_to_xmlschema", FuncCategory::Scalar, FuncDomain::Xml, 4, Some(4), false));
    assert(t == table_chunk_1_8(s));
}

proof fn lemma_chunk_lower_1_9(s: Seq<FuncMeta>)
    requires
        names_lower(s),
    ensures
        names_lower(table_chunk_1_9(s)),
{
    let t = s;
    reveal_strlit("date_add");
    lemma_push_keeps_lower(t, spec_commercial_entry("date_add", FuncCategory::Scalar, FuncDomain::DateTime, 2, Some(2), false));
    let t = t.push(spec_commercial_entry("date_add", FuncCategory::Scalar, FuncDomain::DateTime, 2, Some(2), false));
    reveal_strlit("date_format");
    lemma_push_keeps_lower(t, spec_commercial_entry("date_format", FuncCategory::Scalar, FuncDomain::DateTime, 2, Some(2), false));
    let t = t.push(spec_commercial_entry("date_format", FuncCategory::Scalar, FuncDomain::DateTime, 2, Some(2), false));
    reveal_strlit("date_part");
    lemma_push_keeps_lower(t, spec_core_entry("date_part", FuncCategory::Scalar, FuncDomain::DateTime, 2, Some(2), false));
    let t = t.push(spec_core_entry("date_part", FuncCategory::Scalar, FuncDomain::DateTime, 2, Some(2), false));
    reveal_strlit("date_sub");
    lemma_push_keeps_lower(t, spec_commercial_entry("date_sub", FuncCategory::Scalar, FuncDomain::DateTime, 2, Some(2), false));
    let t = t.push(spec_commercial_entry("date_sub", FuncCategory::Scalar, FuncDomain::DateTime, 2, Some(2), false));
    reveal_strlit("date_trunc");
    lemma_push_keeps_lower(t, spec_core_entry("date_trunc", FuncCategory::Scalar, FuncDomain::DateTime, 2, Some(2), false));
    let t = t.push(spec_core_entry("date_trunc", FuncCategory::Scalar, FuncDomain::DateTime, 2, Some(2), false));
    reveal_strlit("datediff");
    lemma_push_keeps_lower(t, spec_commercial_entry("datediff", FuncCategory::Scalar, FuncDomain::DateTime, 2, Some(2), false));
    let t = t.push(spec_commercial_entry("datediff", FuncCategory::Scalar, FuncDomain::DateTime, 2, Some(2), false));
    reveal_strlit("dayname");
    lemma_push_keeps_lower(t, spec_commercial_entry("dayname", FuncCategory::Scalar, FuncDomain::DateTime, 1, Some(1), false));
    let t = t.push(spec_commercial_entry("dayname", FuncCategory::Scalar, FuncDomain::DateTime, 1, Some(1), false));
    reveal_strlit("dayofmonth");
    lemma_push_keeps_lower(t, spec_commercial_entry("dayofmonth", FuncCategory::Scalar, FuncDomain::DateTime, 1, Some(1), false));
    let t = t.push(spec_commercial_entry("dayofmonth", FuncCategory::Scalar, FuncDomain::DateTime, 1, Some(1), false));
    reveal_strlit("dayofweek");
    lemma_push_keeps_lower(t, spec_commercial_entry("dayofweek", FuncCategory::Scalar, FuncDomain::DateTime, 1, Some(1), false));
    let t = t.push(spec_commercial_entry("dayofweek", FuncCategory::Scalar, FuncDomain::DateTime, 1, Some(1), false));
    reveal_strlit("dayofyear");
    lemma_push_keeps_lower(t, spec_commercial_entry("dayofyear", FuncCategory::Scalar, FuncDomain::DateTime, 1, Some(1), false));
    let t = t.push(spec_commercial_entry("dayofyear", FuncCategory::Scalar, FuncDomain::DateTime, 1, Some(1), false));
    assert(t == table_chunk_1_9(s));
}

proof fn lemma_chunk_lower_1_10(s: Seq<FuncMeta>)
    requires
        names_lower(s),
    ensures
        names_lower(table_chunk_1_10(s)),
{
    let t = s;
    reveal_strlit("dbe_application_info.read_client_info");
    lemma_push_keeps_lower(t, spec_oracle_entry("dbe_application_info.read_client_info", FuncCategory::Scalar, FuncDomain::DbeApplicationInfo, 0, Some(1), false));
    let t = t.push(spec_oracle_entry("dbe_application_info.read_client_info", FuncCategory::Scalar, FuncDomain::DbeApplicationInfo, 0, Some(1), false));
    reveal_strlit("dbe_application_info.read_module");
    lemma_push_keeps_lower(t, spec_oracle_entry("dbe_application_info.read_module", FuncCategory::Scalar, FuncDomain::DbeApplicationInfo, 0, Some(2), false));
    let t = t.push(spec_oracle_entry("dbe_application_info.read_module", FuncCategory::Scalar, FuncDomain::DbeApplicationInfo, 0, Some(2), false));
    reveal_strlit("dbe_application_info.set_action");
    lemma_push_keeps_lower(t, spec_oracle_entry("dbe_application_info.set_action", FuncCategory::Scalar, FuncDomain::DbeApplicationInfo, 1, Some(1), false));
    let t = t.push(spec_oracle_entry("dbe_application_info.set_action", FuncCategory::Scalar, FuncDomain::DbeApplicationInfo, 1, Some(1), false));
    reveal_strlit("dbe_application_info.set_client_info");
    lemma_push_keeps_lower(t, spec_oracle_entry("dbe_application_info.set_client_info", FuncCategory::Scalar, FuncDomain::DbeApplicationInfo, 1, Some(1), false));
    let t = t.push(spec_oracle_entry("dbe_application_info.set_client_info", FuncCategory::Scalar, FuncDomain::DbeApplicationInfo, 1, Some(1), false));
    reveal_strlit("dbe_application_info.set_module");
    lemma_push_keeps_lower(t, spec_oracle_entry("dbe_application_info.set_module", FuncCategory::Scalar, FuncDomain::DbeApplicationInfo, 2, Some(2), false));
    let t = t.push(spec_oracle_entry("dbe_application_info.set_module", FuncCategory::Scalar, FuncDomain::DbeApplicationInfo, 2, Some(2), false));
    reveal_strlit("dbe_compression.get_compression_ratio");
    lemma_push_keeps_lower(t, spec_commercial_oracle_entry("dbe_compression.get_compression_ratio", FuncCategory::Scalar, FuncDomain::Other, 11, Some(13), false));
    let t = t.push(spec_commercial_oracle_entry("dbe_compression.get_compression_ratio", FuncCategory::Scalar, FuncDomain::Other, 11, Some(13), false));
    reveal_strlit("dbe_compression.get_compression_type");
    lemma_push_keeps_lower(t, spec_commercial_oracle_entry("dbe_compression.get_compression_type", FuncCategory::Scalar, FuncDomain::Other, 4, Some(5), false));
    let t = t.push(spec_commercial_oracle_entry("dbe_compression.get_compression_type", FuncCategory::Scalar, FuncDomain::Other, 4, Some(5), false));
    reveal_strlit("dbe_file.close");
    lemma_push_keeps_lower(t, spec_oracle_entry("dbe_file.close", FuncCategory::Scalar, FuncDomain::DbeFile, 1, Some(1), false));
    let t = t.push(spec_oracle_entry("dbe_file.close", FuncCategory::Scalar, FuncDomain::DbeFile, 1, Some(1), false));
    reveal_strlit("dbe_file.close_all");
    lemma_push_keeps_lower(t, spec_oracle_entry("dbe_file.close_all", FuncCategory::Scalar, FuncDomain::DbeFile, 0, Some(0), false));
    let t = t.push(spec_oracle_entry("dbe_file.close_all", FuncCategory::Scalar, FuncDomain::DbeFile, 0, Some(0), false));
    reveal_strlit("dbe_file.copy");
    lemma_push_keeps_lower(t, spec_oracle_entry("dbe_file.copy", FuncCategory::Scalar, FuncDomain::DbeFile, 3, Some(3), false));
    let t = t.push(spec_oracle_entry("dbe_file.copy", FuncCategory::Scalar, FuncDomain::DbeFile, 3, Some(3), false));
    assert(t == table_chunk_1_10(s));
}

proof fn lemma_chunk_lower_1_11(s: Seq<FuncMeta>)
    requires
        names_lower(s),
    ensures
        names_lower(table_chunk_1_11(s)),
{
    let t = s;
    reveal_strlit("dbe_file.flush");
    lemma_push_keeps_lower(t, spec_oracle_entry("dbe_file.flush", FuncCategory::Scalar, FuncDomain::DbeFile, 1, Some(1), false));
    let t = t.push(spec_oracle_entry("dbe_file.flush", FuncCategory::Scalar, FuncDomain::DbeFile, 1, Some(1), false));
    reveal_strlit("dbe_file.fopen");
    lemma_push_keeps_lower(t, spec_oracle_entry("dbe_file.fopen", FuncCategory::Scalar, FuncDomain::DbeFile, 3, Some(4), false));
    let t = t.push(spec_oracle_entry("dbe_file.fopen", FuncCategory::Scalar, FuncDomain::DbeFile, 3, Some(4), false));
    reveal_strlit("dbe_file.fopen_nchar");
    lemma_push_keeps_lower(t, spec_oracle_entry("dbe_file.fopen_nchar", FuncCategory::Scalar, FuncDomain::DbeFile, 3, Some(4), false));
    let t = t.push(spec_oracle_entry("dbe_file.fopen_nchar", FuncCategory::Scalar, FuncDomain::DbeFile, 3, Some(4), false));
    reveal_strlit("dbe_file.format_write");
    lemma_push_keeps_lower(t, spec_oracle_entry("dbe_file.format_write", FuncCategory::Scalar, FuncDomain::DbeFile, 2, Some(8), false));
    let t = t.push(spec_oracle_entry("dbe_file.format_write", FuncCategory::Scalar, FuncDomain::DbeFile, 2, Some(8), false));
    reveal_strlit("dbe_file.format_write_nchar");
    lemma_push_keeps_lower(t, spec_oracle_entry("dbe_file.format_write_nchar", FuncCategory::Scalar, FuncDomain::DbeFile, 2, Some(7), false));
    let t = t.push(spec_oracle_entry("dbe_file.format_write_nchar", FuncCategory::Scalar, FuncDomain::DbeFile, 2, Some(7), false));
    reveal_strlit("dbe_file.get_attr");
    lemma_push_keeps_lower(t, spec_oracle_entry("dbe_file.get_attr", FuncCategory::Scalar, FuncDomain::DbeFile, 5, Some(5), false));
    let t = t.push(spec_oracle_entry("dbe_file.get_attr", FuncCategory::Scalar, FuncDomain::DbeFile, 5, Some(5), false));
    reveal_strlit("dbe_file.get_pos");
    lemma_push_keeps_lower(t, spec_oracle_entry("dbe_file.get_pos", FuncCategory::Scalar, FuncDomain::DbeFile, 1, Some(1), false));
    let t = t.push(spec_oracle_entry("dbe_file.get_pos", FuncCategory::Scalar, FuncDomain::DbeFile, 1, Some(1), false));
    reveal_strlit("dbe_file.get_raw");
    lemma_push_keeps_lower(t, spec_oracle_entry("dbe_file.get_raw", FuncCategory::Scalar, FuncDomain::DbeFile, 2, Some(3), false));
    let t = t.push(spec_oracle_entry("dbe_file.get_raw", FuncCategory::Scalar, FuncDomain::DbeFile, 2, Some(3), false));
    reveal_strlit("dbe_file.is_close");
    lemma_push_keeps_lower(t, spec_oracle_entry("dbe_file.is_close", FuncCategory::Scalar, FuncDomain::DbeFile, 1, Some(1), false));
    let t = t.push(spec_oracle_entry("dbe_file.is_close", FuncCategory::Scalar, FuncDomain::DbeFile, 1, Some(1), false));
    reveal_strlit("dbe_file.is_open");
    lemma_push_keeps_lower(t, spec_oracle_entry("dbe_file.is_open", FuncCategory::Scalar, FuncDomain::DbeFile, 1, Some(1), false));
    let t = t.push(spec_oracle_entry("dbe_file.is_open", FuncCategory::Scalar, FuncDomain::DbeFile, 1, Some(1), false));
    assert(t == table_chunk_1_11(s));
}

proof fn lemma_chunk_lower_1_12(s: Seq<FuncMeta>)
    requires
        names_lower(s),
    ensures
        names_lower(table_chunk_1_12(s)),
{
    let t = s;
    reveal_strlit("dbe_file.new_line");
    lemma_push_keeps_lower(t, spec_oracle_entry("dbe_file.new_line", FuncCategory::Scalar, FuncDomain::DbeFile, 1, Some(2), false));
    let t = t.push(spec_oracle_entry("dbe_file.new_line", FuncCategory::Scalar, FuncDomain::DbeFile, 1, Some(2), false));
    reveal_strlit("dbe_file.open");
    lemma_push_keeps_lower(t, spec_oracle_entry("dbe_file.open", FuncCategory::Scalar, FuncDomain::DbeFile, 2, Some(4), false));
    let t = t.push(spec_oracle_entry("dbe_file.open", FuncCategory::Scalar, FuncDomain::DbeFile, 2, Some(4), false));
    reveal_strlit("dbe_file.put_raw");
    lemma_push_keeps_lower(t, spec_oracle_entry("dbe_file.put_raw", FuncCategory::Scalar, FuncDomain::DbeFile, 2, Some(3), false));
    let t = t.push(spec_oracle_entry("dbe_file.put_raw", FuncCategory::Scalar, FuncDomain::DbeFile, 2, Some(3), false));
    reveal_strlit("dbe_file.read_line");
    lemma_push_keeps_lower(t, spec_oracle_entry("dbe_file.read_line", FuncCategory::Scalar, FuncDomain::DbeFile, 2, Some(3), false));
    let t = t.push(spec_oracle_entry("dbe_file.read_line", FuncCategory::Scalar, FuncDomain::DbeFile, 2, Some(3), false));
    reveal_strlit("dbe_file.read_line_nchar");
    lemma_push_keeps_lower(t, spec_oracle_entry("dbe_file.read_line_nchar", FuncCategory::Scalar, FuncDomain::DbeFile, 2, Some(3), false));
    let t = t.push(spec_oracle_entry("dbe_file.read_line_nchar", FuncCategory::Scalar, FuncDomain::DbeFile, 2, Some(3), false));
    assert(t == table_chunk_1_12(s));
}

proof fn lemma_part_1_lower(s: Seq<FuncMeta>)
    requires
        names_lower(s),
    ensures
        names_lower(table_part_1(s)),
{
    lemma_chunk_lower_1_0(s);
    let t0 = table_chunk_1_0(s);
    lemma_chunk_lower_1_1(t0);
    let t1 = table_chunk_1_1(t0);
    lemma_chunk_lower_1_2(t1);
    let t2 = table_chunk_1_2(t1);
    lemma_chunk_lower_1_3(t2);
    let t3 = table_chunk_1_3(t2);
    lemma_chunk_lower_1_4(t3);
    let t4 = table_chunk_1_4(t3);
    lemma_chunk_lower_1_5(t4);
    let t5 = table_chunk_1_5(t4);
    lemma_chunk_lower_1_6(t5);
    let t6 = table_chunk_1_6(t5);
    lemma_chunk_lower_1_7(t6);
    let t7 = table_chunk_1_7(t6);
    lemma_chunk_lower_1_8(t7);
    let t8 = table_chunk_1_8(t7);
    lemma_chunk_lower_1_9(t8);
    let t9 = table_chunk_1_9(t8);
    lemma_chunk_lower_1_10(t9);
    let t10 = table_chunk_1_10(t9);
    lemma_chunk_lower_1_11(t10);
    let t11 = table_chunk_1_11(t10);
    lemma_chunk_lower_1_12(t11);
    let t12 = table_chunk_1_12(t11);
    assert(t12 == table_part_1(s));
}

proof fn lemma_chunk_lower_2_0(s: Seq<FuncMeta>)
    requires
        names_lower(s),
    ensures
        names_lower(table_chunk_2_0(s)),
{
    let t = s;
    reveal_strlit("dbe_file.remove");
    lemma_push_keeps_lower(t, spec_oracle_entry("dbe_file.remove", FuncCategory::Scalar, FuncDomain::DbeFile, 2, Some(2), false));
    let t = t.push(spec_oracle_entry("dbe_file.remove", FuncCategory::Scalar, FuncDomain::DbeFile, 2, Some(2), false));
    reveal_strlit("dbe_file.rename");
    lemma_push_keeps_lower(t, spec_oracle_entry("dbe_file.rename", FuncCategory::Scalar, FuncDomain::DbeFile, 3, Some(3), false));
    let t = t.push(spec_oracle_entry("dbe_file.rename", FuncCategory::Scalar, FuncDomain::DbeFile, 3, Some(3), false));
    reveal_strlit("dbe_file.seek");
    lemma_push_keeps_lower(t, spec_oracle_entry("dbe_file.seek", FuncCategory::Scalar, FuncDomain::DbeFile, 1, Some(3), false));
    let t = t.push(spec_oracle_entry("dbe_file.seek", FuncCategory::Scalar, FuncDomain::DbeFile, 1, Some(3), false));
    reveal_strlit("dbe_file.write");
    lemma_push_keeps_lower(t, spec_oracle_entry("dbe_file.write", FuncCategory::Scalar, FuncDomain::DbeFile, 2, Some(2), false));
    let t = t.push(spec_oracle_entry("dbe_file.write", FuncCategory::Scalar, FuncDomain::DbeFile, 2, Some(2), false));
    reveal_strlit("dbe_file.write_line");
    lemma_push_keeps_lower(t, spec_oracle_entry("dbe_file.write_line", FuncCategory::Scalar, FuncDomain::DbeFile, 2, Some(2), false));
    let t = t.push(spec_oracle_entry("dbe_file.write_line", FuncCategory::Scalar, FuncDomain::DbeFile, 2, Some(2), false));
    reveal_strlit("dbe_file.write_line_nchar");
    lemma_push_keeps_lower(t, spec_oracle_entry("dbe_file.write_line_nchar", FuncCategory::Scalar, FuncDomain::DbeFile, 2, Some(2), false));
    let t = t.push(spec_oracle_entry("dbe_file.write_line_nchar", FuncCategory::Scalar, FuncDomain::DbeFile, 2, Some(2), false));
    reveal_strlit("dbe_file.write_nchar");
    lemma_push_keeps_lower(t, spec_oracle_entry("dbe_file.write_nchar", FuncCategory::Scalar, FuncDomain::DbeFile, 2, Some(2), false));
    let t = t.push(spec_oracle_entry("dbe_file.write_nchar", FuncCategory::Scalar, FuncDomain::DbeFile, 2, Some(2), false));
    reveal_strlit("dbe_heat_map.row_heat_map");
    lemma_push_keeps_lower(t, spec_commercial_oracle_entry("dbe_heat_map.row_heat_map", FuncCategory::Scalar, FuncDomain::Other, 3, Some(5), false));
    let t = t.push(spec_commercial_oracle_entry("dbe_heat_map.row_heat_map", FuncCategory::Scalar, FuncDomain::Other, 3, Some(5), false));
    reveal_strlit("dbe_ilm.execute_ilm");
    lemma_push_keeps_lower(t, spec_commercial_oracle_entry("dbe_ilm.execute_ilm", FuncCategory::Scalar, FuncDomain::Other, 3, Some(6), false));
    let t = t.push(spec_commercial_oracle_entry("dbe_ilm.execute_ilm", FuncCategory::Scalar, FuncDomain::Other, 3, Some(6), false));
    reveal_strlit("dbe_ilm.stop_ilm");
    lemma_push_keeps_lower(t, spec_commercial_oracle_entry("dbe_ilm.stop_ilm", FuncCategory::Scalar, FuncDomain::Other, 0, Some(3), false));
    let t = t.push(spec_commercial_oracle_entry("dbe_ilm.stop_ilm", FuncCategory::Scalar, FuncDomain::Other, 0, Some(3), false));
    assert(t == table_chunk_2_0(s));
}

proof fn lemma_chunk_lower_2_1(s: Seq<FuncMeta>)
    requires
        names_lower(s),
    ensures
        names_lower(table_chunk_2_1(s)),
{
    let t = s;
    reveal_strlit("dbe_ilm_admin.customize_ilm");
    lemma_push_keeps_lower(t, spec_commercial_oracle_entry("dbe_ilm_admin.customize_ilm", FuncCategory::Scalar, FuncDomain::Other, 2, Some(2), false));
    let t = t.push(spec_commercial_oracle_entry("dbe_ilm_admin.customize_ilm", FuncCategory::Scalar, FuncDomain::Other, 2, Some(2), false));
    reveal_strlit("dbe_ilm_admin.disable_ilm");
    lemma_push_keeps_lower(t, spec_commercial_oracle_entry("dbe_ilm_admin.disable_ilm", FuncCategory::Scalar, FuncDomain::Other, 0, Some(0), false));
    let t = t.push(spec_commercial_oracle_entry("dbe_ilm_admin.disable_ilm", FuncCategory::Scalar, FuncDomain::Other, 0, Some(0), false));
    reveal_strlit("dbe_ilm_admin.enable_ilm");
    lemma_push_keeps_lower(t, spec_commercial_oracle_entry("dbe_ilm_admin.enable_ilm", FuncCategory::Scalar, FuncDomain::Other, 0, Some(0), false));
    let t = t.push(spec_commercial_oracle_entry("dbe_ilm_admin.enable_ilm", FuncCategory::Scalar, FuncDomain::Other, 0, Some(0), false));
    reveal_strlit("dbe_lob.append");
    lemma_push_keeps_lower(t, spec_oracle_entry("dbe_lob.append", FuncCategory::Scalar, FuncDomain::DbeLob, 2, Some(2), false));
    let t = t.push(spec_oracle_entry("dbe_lob.append", FuncCategory::Scalar, FuncDomain::DbeLob, 2, Some(2), false));
    reveal_strlit("dbe_lob.bfileclose");
    lemma_push_keeps_lower(t, spec_oracle_entry("dbe_lob.bfileclose", FuncCategory::Scalar, FuncDomain::DbeLob, 1, Some(1), false));
    let t = t.push(spec_oracle_entry("dbe_lob.bfileclose", FuncCategory::Scalar, FuncDomain::DbeLob, 1, Some(1), false));
    reveal_strlit("dbe_lob.bfilename");
    lemma_push_keeps_lower(t, spec_oracle_entry("dbe_lob.bfilename", FuncCategory::Scalar, FuncDomain::DbeLob, 2, Some(2), false));
    let t = t.push(spec_oracle_entry("dbe_lob.bfilename", FuncCategory::Scalar, FuncDomain::DbeLob, 2, Some(2), false));
    reveal_strlit("dbe_lob.bfileopen");
    lemma_push_keeps_lower(t, spec_oracle_entry("dbe_lob.bfileopen", FuncCategory::Scalar, FuncDomain::DbeLob, 1, Some(2), false));
    let t = t.push(spec_oracle_entry("dbe_lob.bfileopen", FuncCategory::Scalar, FuncDomain::DbeLob, 1, Some(2), false));
    reveal_strlit("dbe_lob.close");
    lemma_push_keeps_lower(t, spec_oracle_entry("dbe_lob.close", FuncCategory::Scalar, FuncDomain::DbeLob, 1, Some(1), false));
    let t = t.push(spec_oracle_entry("dbe_lob.close", FuncCategory::Scalar, FuncDomain::DbeLob, 1, Some(1), false));
    reveal_strlit("dbe_lob.compare");
    lemma_push_keeps_lower(t, spec_oracle_entry("dbe_lob.compare", FuncCategory::Scalar, FuncDomain::DbeLob, 2, Some(3), false));
    let t = t.push(spec_oracle_entry("dbe_lob.compare", FuncCategory::Scalar, FuncDomain::DbeLob, 2, Some(3), false));
    reveal_strlit("dbe_lob.converttoblob");
    lemma_push_keeps_lower(t, spec_oracle_entry("dbe_lob.converttoblob", FuncCategory::Scalar, FuncDomain::DbeLob, 2, Some(5), false));
    let t = t.push(spec_oracle_entry("dbe_lob.converttoblob", FuncCategory::Scalar, FuncDomain::DbeLob, 2, Some(5), false));
    assert(t == table_chunk_2_1(s));
}

proof fn lemma_chunk_lower_2_2(s: Seq<FuncMeta>)
    requires
        names_lower(s),
    ensures
        names_lower(table_chunk_2_2(s)),
{
    let t = s;
    reveal_strlit("dbe_lob.converttoclob");
    lemma_push_keeps_lower(t, spec_oracle_entry("dbe_lob.converttoclob", FuncCategory::Scalar, FuncDomain::DbeLob, 2, Some(5), false));
    let t = t.push(spec_oracle_entry("dbe_lob.converttoclob", FuncCategory::Scalar, FuncDomain::DbeLob, 2, Some(5), false));
    reveal_strlit("dbe_lob.copy");
    lemma_push_keeps_lower(t, spec_oracle_entry("dbe_lob.copy", FuncCategory::Scalar, FuncDomain::DbeLob, 3, Some(5), false));
    let t = t.push(spec_oracle_entry("dbe_lob.copy", FuncCategory::Scalar, FuncDomain::DbeLob, 3, Some(5), false));
    reveal_strlit("dbe_lob.create_temporary");
    lemma_push_keeps_lower(t, spec_oracle_entry("dbe_lob.create_temporary", FuncCategory::Scalar, FuncDomain::DbeLob, 1, Some(3), false));
    let t = t.push(spec_oracle_entry("dbe_lob.create_temporary", FuncCategory::Scalar, FuncDomain::DbeLob, 1, Some(3), false));
    reveal_strlit("dbe_lob.erase");
    lemma_push_keeps_lower(t, spec_oracle_entry("dbe_lob.erase", FuncCategory::Scalar, FuncDomain::DbeLob, 2, Some(3), false));
    let t = t.push(spec_oracle_entry("dbe_lob.erase", FuncCategory::Scalar, FuncDomain::DbeLob, 2, Some(3), false));
    reveal_strlit("dbe_lob.fileclose");
    lemma_push_keeps_lower(t, spec_oracle_entry("dbe_lob.fileclose", FuncCategory::Scalar, FuncDomain::DbeLob, 1, Some(1), false));
    let t = t.push(spec_oracle_entry("dbe_lob.fileclose", FuncCategory::Scalar, FuncDomain::DbeLob, 1, Some(1), false));
    reveal_strlit("dbe_lob.fileopen");
    lemma_push_keeps_lower(t, spec_oracle_entry("dbe_lob.fileopen", FuncCategory::Scalar, FuncDomain::DbeLob, 2, Some(2), false));
    let t = t.push(spec_oracle_entry("dbe_lob.fileopen", FuncCategory::Scalar, FuncDomain::DbeLob, 2, Some(2), false));
    reveal_strlit("dbe_lob.freetemporary");
    lemma_push_keeps_lower(t, spec_oracle_entry("dbe_lob.freetemporary", FuncCategory::Scalar, FuncDomain::DbeLob, 1, Some(1), false));
    let t = t.push(spec_oracle_entry("dbe_lob.freetemporary", FuncCategory::Scalar, FuncDomain::DbeLob, 1, Some(1), false));
    reveal_strlit("dbe_lob.get_length");
    lemma_push_keeps_lower(t, spec_oracle_entry("dbe_lob.get_length", FuncCategory::Scalar, FuncDomain::DbeLob, 1, Some(1), false));
    let t = t.push(spec_oracle_entry("dbe_lob.get_length", FuncCategory::Scalar, FuncDomain::DbeLob, 1, Some(1), false));
    reveal_strlit("dbe_lob.getchunksize");
    lemma_push_keeps_lower(t, spec_oracle_entry("dbe_lob.getchunksize", FuncCategory::Scalar, FuncDomain::DbeLob, 1, Some(1), false));
    let t = t.push(spec_oracle_entry("dbe_lob.getchunksize", FuncCategory::Scalar, FuncDomain::DbeLob, 1, Some(1), false));
    reveal_strlit("dbe_lob.instr");
    lemma_push_keeps_lower(t, spec_oracle_entry("dbe_lob.instr", FuncCategory::Scalar, FuncDomain::DbeLob, 2, Some(4), false));
    let t = t.push(spec_oracle_entry("dbe_lob.instr", FuncCategory::Scalar, FuncDomain::DbeLob, 2, Some(4), false));
    assert(t == table_chunk_2_2(s));
}

proof fn lemma_chunk_lower_2_3(s: Seq<FuncMeta>)
    requires
        names_lower(s),
    ensures
        names_lower(table_chunk_2_3(s)),
{
    let t = s;
    reveal_strlit("dbe_lob.loadblobfrombfile");
    lemma_push_keeps_lower(t, spec_oracle_entry("dbe_lob.loadblobfrombfile", FuncCategory::Scalar, FuncDomain::DbeLob, 5, Some(5), false));
    let t = t.push(spec_oracle_entry("dbe_lob.loadblobfrombfile", FuncCategory::Scalar, FuncDomain::DbeLob, 5, Some(5), false));
    reveal_strlit("dbe_lob.loadblobfromfile");
    lemma_push_keeps_lower(t, spec_oracle_entry("dbe_lob.loadblobfromfile", FuncCategory::Scalar, FuncDomain::DbeLob, 5, Some(5), false));
    let t = t.push(spec_oracle_entry("dbe_lob.loadblobfromfile", FuncCategory::Scalar, FuncDomain::DbeLob, 5, Some(5), false));
    reveal_strlit("dbe_lob.loadclobfrombfile");
    lemma_push_keeps_lower(t, spec_oracle_entry("dbe_lob.loadclobfrombfile", FuncCategory::Scalar, FuncDomain::DbeLob, 5, Some(5), false));
    let t = t.push(spec_oracle_entry("dbe_lob.loadclobfrombfile", FuncCategory::Scalar, FuncDomain::DbeLob, 5, Some(5), false));
    reveal_strlit("dbe_lob.loadclobfromfile");
    lemma_push_keeps_lower(t, spec_oracle_entry("dbe_lob.loadclobfromfile", FuncCategory::Scalar, FuncDomain::DbeLob, 5, Some(5), false));
    let t = t.push(spec_oracle_entry("dbe_lob.loadclobfromfile", FuncCategory::Scalar, FuncDomain::DbeLob, 5, Some(5), false));
    reveal_strlit("dbe_lob.loadfrombfile");
    lemma_push_keeps_lower(t, spec_oracle_entry("dbe_lob.loadfrombfile", FuncCategory::Scalar, FuncDomain::DbeLob, 3, Some(5), false));
    let t = t.push(spec_oracle_entry("dbe_lob.loadfrombfile", FuncCategory::Scalar, FuncDomain::DbeLob, 3, Some(5), false));
    reveal_strlit("dbe_lob.loadfromfile");
    lemma_push_keeps_lower(t, spec_oracle_entry("dbe_lob.loadfromfile", FuncCategory::Scalar, FuncDomain::DbeLob, 5, Some(5), false));
    let t = t.push(spec_oracle_entry("dbe_lob.loadfromfile", FuncCategory::Scalar, FuncDomain::DbeLob, 5, Some(5), false));
    reveal_strlit("dbe_lob.lob_append");
    lemma_push_keeps_lower(t, spec_oracle_entry("dbe_lob.lob_append", FuncCategory::Scalar, FuncDomain::DbeLob, 2, Some(2), false));
    let t = t.push(spec_oracle_entry("dbe_lob.lob_append", FuncCategory::Scalar, FuncDomain::DbeLob, 2, Some(2), false));
    reveal_strlit("dbe_lob.lob_converttoblob");
    lemma_push_keeps_lower(t, spec_oracle_entry("dbe_lob.lob_converttoblob", FuncCategory::Scalar, FuncDomain::DbeLob, 5, Some(5), false));
    let t = t.push(spec_oracle_entry("dbe_lob.lob_converttoblob", FuncCategory::Scalar, FuncDomain::DbeLob, 5, Some(5), false));
    reveal_strlit("dbe_lob.lob_converttoclob");
    lemma_push_keeps_lower(t, spec_oracle_entry("dbe_lob.lob_converttoclob", FuncCategory::Scalar, FuncDomain::DbeLob, 5, Some(5), false));
    let t = t.push(spec_oracle_entry("dbe_lob.lob_converttoclob", FuncCategory::Scalar, FuncDomain::DbeLob, 5, Some(5), false));
    reveal_strlit("dbe_lob.lob_copy");
    lemma_push_keeps_lower(t, spec_oracle_entry("dbe_lob.lob_copy", FuncCategory::Scalar, FuncDomain::DbeLob, 3, Some(5), false));
    let t = t.push(spec_oracle_entry("dbe_lob.lob_copy", FuncCategory::Scalar, FuncDomain::DbeLob, 3, Some(5), false));
    assert(t == table_chunk_2_3(s));
}

proof fn lemma_chunk_lower_2_4(s: Seq<FuncMeta>)
    requires
        names_lower(s),
    ensures
        names_lower(table_chunk_2_4(s)),
{
    let t = s;
    reveal_strlit("dbe_lob.lob_erase");
    lemma_push_keeps_lower(t, spec_oracle_entry("dbe_lob.lob_erase", FuncCategory::Scalar, FuncDomain::DbeLob, 2, Some(3), false));
    let t = t.push(spec_oracle_entry("dbe_lob.lob_erase", FuncCategory::Scalar, FuncDomain::DbeLob, 2, Some(3), false));
    reveal_strlit("dbe_lob.lob_get_length");
    lemma_push_keeps_lower(t, spec_oracle_entry("dbe_lob.lob_get_length", FuncCategory::Scalar, FuncDomain::DbeLob, 1, Some(1), false));
    let t = t.push(spec_oracle_entry("dbe_lob.lob_get_length", FuncCategory::Scalar, FuncDomain::DbeLob, 1, Some(1), false));
    reveal_strlit("dbe_lob.lob_read");
    lemma_push_keeps_lower(t, spec_oracle_entry("dbe_lob.lob_read", FuncCategory::Scalar, FuncDomain::DbeLob, 3, Some(3), false));
    let t = t.push(spec_oracle_entry("dbe_lob.lob_read", FuncCategory::Scalar, FuncDomain::DbeLob, 3, Some(3), false));
    reveal_strlit("dbe_lob.lob_strip");
    lemma_push_keeps_lower(t, spec_oracle_entry("dbe_lob.lob_strip", FuncCategory::Scalar, FuncDomain::DbeLob, 2, Some(2), false));
    let t = t.push(spec_oracle_entry("dbe_lob.lob_strip", FuncCategory::Scalar, FuncDomain::DbeLob, 2, Some(2), false));
    reveal_strlit("dbe_lob.lob_substr");
    lemma_push_keeps_lower(t, spec_oracle_entry("dbe_lob.lob_substr", FuncCategory::Scalar, FuncDomain::DbeLob, 1, Some(3), false));
    let t = t.push(spec_oracle_entry("dbe_lob.lob_substr", FuncCategory::Scalar, FuncDomain::DbeLob, 1, Some(3), false));
    reveal_strlit("dbe_lob.lob_write");
    lemma_push_keeps_lower(t, spec_oracle_entry("dbe_lob.lob_write", FuncCategory::Scalar, FuncDomain::DbeLob, 4, Some(4), false));
    let t = t.push(spec_oracle_entry("dbe_lob.lob_write", FuncCategory::Scalar, FuncDomain::DbeLob, 4, Some(4), false));
    reveal_strlit("dbe_lob.lob_write_append");
    lemma_push_keeps_lower(t, spec_oracle_entry("dbe_lob.lob_write_append", FuncCategory::Scalar, FuncDomain::DbeLob, 2, Some(2), false));
    let t = t.push(spec_oracle_entry("dbe_lob.lob_write_append", FuncCategory::Scalar, FuncDomain::DbeLob, 2, Some(2), false));
    reveal_strlit("dbe_lob.match");
    lemma_push_keeps_lower(t, spec_oracle_entry("dbe_lob.match", FuncCategory::Scalar, FuncDomain::DbeLob, 2, Some(4), false));
    let t = t.push(spec_oracle_entry("dbe_lob.match", FuncCategory::Scalar, FuncDomain::DbeLob, 2, Some(4), false));
    reveal_strlit("dbe_lob.open");
    lemma_push_keeps_lower(t, spec_oracle_entry("dbe_lob.open", FuncCategory::Scalar, FuncDomain::DbeLob, 1, Some(2), false));
    let t = t.push(spec_oracle_entry("dbe_lob.open", FuncCategory::Scalar, FuncDomain::DbeLob, 1, Some(2), false));
    reveal_strlit("dbe_lob.read");
    lemma_push_keeps_lower(t, spec_oracle_entry("dbe_lob.read", FuncCategory::Scalar, FuncDomain::DbeLob, 3, Some(3), false));
    let t = t.push(spec_oracle_entry("dbe_lob.read", FuncCategory::Scalar, FuncDomain::DbeLob, 3, Some(3), false));
    assert(t == table_chunk_2_4(s));
}

proof fn lemma_chunk_lower_2_5(s: Seq<FuncMeta>)
    requires
        names_lower(s),
    ensures
        names_lower(table_chunk_2_5(s)),
{
    let t = s;
    reveal_strlit("dbe_lob.strip");
    lemma_push_keeps_lower(t, spec_oracle_entry("dbe_lob.strip", FuncCategory::Scalar, FuncDomain::DbeLob, 2, Some(2), false));
    let t = t.push(spec_oracle_entry("dbe_lob.strip", FuncCategory::Scalar, FuncDomain::DbeLob, 2, Some(2), false));
    reveal_strlit("dbe_lob.substr");
    lemma_push_keeps_lower(t, spec_oracle_entry("dbe_lob.substr", FuncCategory::Scalar, FuncDomain::DbeLob, 1, Some(3), false));
    let t = t.push(spec_oracle_entry("dbe_lob.substr", FuncCategory::Scalar, FuncDomain::DbeLob, 1, Some(3), false));
    reveal_strlit("dbe_lob.trim");
    lemma_push_keeps_lower(t, spec_oracle_entry("dbe_lob.trim", FuncCategory::Scalar, FuncDomain::DbeLob, 2, Some(2), false));
    let t = t.push(spec_oracle_entry("dbe_lob.trim", FuncCategory::Scalar, FuncDomain::DbeLob, 2, Some(2), false));
    reveal_strlit("dbe_lob.write");
    lemma_push_keeps_lower(t, spec_oracle_entry("dbe_lob.write", FuncCategory::Scalar, FuncDomain::DbeLob, 3, Some(3), false));
    let t = t.push(spec_oracle_entry("dbe_lob.write", FuncCategory::Scalar, FuncDomain::DbeLob, 3, Some(3), false));
    reveal_strlit("dbe_lob.write_append");
    lemma_push_keeps_lower(t, spec_oracle_entry("dbe_lob.write_append", FuncCategory::Scalar, FuncDomain::DbeLob, 2, Some(2), false));
    let t = t.push(spec_oracle_entry("dbe_lob.write_append", FuncCategory::Scalar, FuncDomain::DbeLob, 2, Some(2), false));
    reveal_strlit("dbe_match.edit_distance_similarity");
    lemma_push_keeps_lower(t, spec_oracle_entry("dbe_match.edit_distance_similarity", FuncCategory::Scalar, FuncDomain::DbeMatch, 2, Some(2), false));
    let t = t.push(spec_oracle_entry("dbe_match.edit_distance_similarity", FuncCategory::Scalar, FuncDomain::DbeMatch, 2, Some(2), false));
    reveal_strlit("dbe_output.disable");
    lemma_push_keeps_lower(t, spec_oracle_entry("dbe_output.disable", FuncCategory::Scalar, FuncDomain::DbeOutput, 0, Some(0), false));
    let t = t.push(spec_oracle_entry("dbe_output.disable", FuncCategory::Scalar, FuncDomain::DbeOutput, 0, Some(0), false));
    reveal_strlit("dbe_output.enable");
    lemma_push_keeps_lower(t, spec_oracle_entry("dbe_output.enable", FuncCategory::Scalar, FuncDomain::DbeOutput, 0, Some(1), false));
    let t = t.push(spec_oracle_entry("dbe_output.enable", FuncCategory::Scalar, FuncDomain::DbeOutput, 0, Some(1), false));
    reveal_strlit("dbe_output.get_line");
    lemma_push_keeps_lower(t, spec_oracle_entry("dbe_output.get_line", FuncCategory::Scalar, FuncDomain::DbeOutput, 2, Some(2), false));
    let t = t.push(spec_oracle_entry("dbe_output.get_line", FuncCategory::Scalar, FuncDomain::DbeOutput, 2, Some(2), false));
    reveal_strlit("dbe_output.get_lines");
    lemma_push_keeps_lower(t, spec_oracle_entry("dbe_output.get_lines", FuncCategory::Scalar, FuncDomain::DbeOutput, 2, Some(2), false));
    let t = t.push(spec_oracle_entry("dbe_output.get_lines", FuncCategory::Scalar, FuncDomain::DbeOutput, 2, Some(2), false));
    assert(t == table_chunk_2_5(s));
}

proof fn lemma_chunk_lower_2_6(s: Seq<FuncMeta>)
    requires
        names_lower(s),
    ensures
        names_lower(table_chunk_2_6(s)),
{
    let t = s;
    reveal_strlit("dbe_output.new_line");
    lemma_push_keeps_lower(t, spec_oracle_entry("dbe_output.new_line", FuncCategory::Scalar, FuncDomain::DbeOutput, 0, Some(0), false));
    let t = t.push(spec_oracle_entry("dbe_output.new_line", FuncCategory::Scalar, FuncDomain::DbeOutput, 0, Some(0), false));
    reveal_strlit("dbe_output.print");
    lemma_push_keeps_lower(t, spec_oracle_entry("dbe_output.print", FuncCategory::Scalar, FuncDomain::DbeOutput, 1, Some(1), false));
    let t = t.push(spec_oracle_entry("dbe_output.print", FuncCategory::Scalar, FuncDomain::DbeOutput, 1, Some(1), false));
    reveal_strlit("dbe_output.print_line");
    lemma_push_keeps_lower(t, spec_oracle_entry("dbe_output.print_line", FuncCategory::Scalar, FuncDomain::DbeOutput, 1, Some(1), false));
    let t = t.push(spec_oracle_entry("dbe_output.print_line", FuncCategory::Scalar, FuncDomain::DbeOutput, 1, Some(1), false));
    reveal_strlit("dbe_output.put");
    lemma_push_keeps_lower(t, spec_oracle_entry("dbe_output.put", FuncCategory::Scalar, FuncDomain::DbeOutput, 1, Some(1), false));
    let t = t.push(spec_oracle_entry("dbe_output.put", FuncCategory::Scalar, FuncDomain::DbeOutput, 1, Some(1), false));
    reveal_strlit("dbe_output.put_line");
    lemma_push_keeps_lower(t, spec_oracle_entry("dbe_output.put_line", FuncCategory::Scalar, FuncDomain::DbeOutput, 1, Some(1), false));
    let t = t.push(spec_oracle_entry("dbe_output.put_line", FuncCategory::Scalar, FuncDomain::DbeOutput, 1, Some(1), false));
    reveal_strlit("dbe_output.set_buffer_size");
    lemma_push_keeps_lower(t, spec_oracle_entry("dbe_output.set_buffer_size", FuncCategory::Scalar, FuncDomain::DbeOutput, 0, Some(1), false));
    let t = t.push(spec_oracle_entry("dbe_output.set_buffer_size", FuncCategory::Scalar, FuncDomain::DbeOutput, 0, Some(1), false));
    reveal_strlit("dbe_random.get_value");
    lemma_push_keeps_lower(t, spec_commercial_entry("dbe_random.get_value", FuncCategory::Scalar, FuncDomain::DbeRandom, 0, Some(2), false));
    let t = t.push(spec_commercial_entry("dbe_random.get_value", FuncCategory::Scalar, FuncDomain::DbeRandom, 0, Some(2), false));
    reveal_strlit("dbe_raw.bit_and");
    lemma_push_keeps_lower(t, spec_oracle_entry("dbe_raw.bit_and", FuncCategory::Scalar, FuncDomain::DbeRaw, 2, Some(2), false));
    let t = t.push(spec_oracle_entry("dbe_raw.bit_and", FuncCategory::Scalar, FuncDomain::DbeRaw, 2, Some(2), false));
    reveal_strlit("dbe_raw.bit_complement");
    lemma_push_keeps_lower(t, spec_oracle_entry("dbe_raw.bit_complement", FuncCategory::Scalar, FuncDomain::DbeRaw, 1, Some(1), false));
    let t = t.push(spec_oracle_entry("dbe_raw.bit_complement", FuncCategory::Scalar, FuncDomain::DbeRaw, 1, Some(1), false));
    reveal_strlit("dbe_raw.bit_or");
    lemma_push_keeps_lower(t, spec_oracle_entry("dbe_raw.bit_or", FuncCategory::Scalar, FuncDomain::DbeRaw, 2, Some(2), false));
    let t = t.push(spec_oracle_entry("dbe_raw.bit_or", FuncCategory::Scalar, FuncDomain::DbeRaw, 2, Some(2), false));
    assert(t == table_chunk_2_6(s));
}

proof fn lemma_chunk_lower_2_7(s: Seq<FuncMeta>)
    requires
        names_lower(s),
    ensures
        names_lower(table_chunk_2_7(s)),
{
    let t = s;
    reveal_strlit("dbe_raw.bit_xor");
    lemma_push_keeps_lower(t, spec_oracle_entry("dbe_raw.bit_xor", FuncCategory::Scalar, FuncDomain::DbeRaw, 2, Some(2), false));
    let t = t.push(spec_oracle_entry("dbe_raw.bit_xor", FuncCategory::Scalar, FuncDomain::DbeRaw, 2, Some(2), false));
    reveal_strlit("dbe_raw.cast_from_binary_double_to_raw");
    lemma_push_keeps_lower(t, spec_oracle_entry("dbe_raw.cast_from_binary_double_to_raw", FuncCategory::Scalar, FuncDomain::DbeRaw, 1, Some(2), false));
    let t = t.push(spec_oracle_entry("dbe_raw.cast_from_binary_double_to_raw", FuncCategory::Scalar, FuncDomain::DbeRaw, 1, Some(2), false));
    reveal_strlit("dbe_raw.cast_from_binary_float_to_raw");
    lemma_push_keeps_lower(t, spec_oracle_entry("dbe_raw.cast_from_binary_float_to_raw", FuncCategory::Scalar, FuncDomain::DbeRaw, 1, Some(2), false));
    let t = t.push(spec_oracle_entry("dbe_raw.cast_from_binary_float_to_raw", FuncCategory::Scalar, FuncDomain::DbeRaw, 1, Some(2), false));
    reveal_strlit("dbe_raw.cast_from_binary_integer_to_raw");
    lemma_push_keeps_lower(t, spec_oracle_entry("dbe_raw.cast_from_binary_integer_to_raw", FuncCategory::Scalar, FuncDomain::DbeRaw, 1, Some(2), false));
    let t = t.push(spec_oracle_entry("dbe_raw.cast_from_binary_integer_to_raw", FuncCategory::Scalar, FuncDomain::DbeRaw, 1, Some(2), false));
    reveal_strlit("dbe_raw.cast_from_number_to_raw");
    lemma_push_keeps_lower(t, spec_oracle_entry("dbe_raw.cast_from_number_to_raw", FuncCategory::Scalar, FuncDomain::DbeRaw, 1, Some(1), false));
    let t = t.push(spec_oracle_entry("dbe_raw.cast_from_number_to_raw", FuncCategory::Scalar, FuncDomain::DbeRaw, 1, Some(1), false));
    reveal_strlit("dbe_raw.cast_from_raw_to_binary_double");
    lemma_push_keeps_lower(t, spec_oracle_entry("dbe_raw.cast_from_raw_to_binary_double", FuncCategory::Scalar, FuncDomain::DbeRaw, 1, Some(2), false));
    let t = t.push(spec_oracle_entry("dbe_raw.cast_from_raw_to_binary_double", FuncCategory::Scalar, FuncDomain::DbeRaw, 1, Some(2), false));
    reveal_strlit("dbe_raw.cast_from_raw_to_binary_float");
    lemma_push_keeps_lower(t, spec_oracle_entry("dbe_raw.cast_from_raw_to_binary_float", FuncCategory::Scalar, FuncDomain::DbeRaw, 1, Some(2), false));
    let t = t.push(spec_oracle_entry("dbe_raw.cast_from_raw_to_binary_float", FuncCategory::Scalar, FuncDomain::DbeRaw, 1, Some(2), false));
    reveal_strlit("dbe_raw.cast_from_raw_to_binary_integer");
    lemma_push_keeps_lower(t, spec_oracle_entry("dbe_raw.cast_from_raw_to_binary_integer", FuncCategory::Scalar, FuncDomain::DbeRaw, 1, Some(2), false));
    let t = t.push(spec_oracle_entry("dbe_raw.cast_from_raw_to_binary_integer", FuncCategory::Scalar, FuncDomain::DbeRaw, 1, Some(2), false));
    reveal_strlit("dbe_raw.cast_from_raw_to_number");
    lemma_push_keeps_lower(t, spec_oracle_entry("dbe_raw.cast_from_raw_to_number", FuncCategory::Scalar, FuncDomain::DbeRaw, 1, Some(1), false));
    let t = t.push(spec_oracle_entry("dbe_raw.cast_from_raw_to_number", FuncCategory::Scalar, FuncDomain::DbeRaw, 1, Some(1), false));
    reveal_strlit("dbe_raw.cast_from_raw_to_nvarchar2");
    lemma_push_keeps_lower(t, spec_oracle_entry("dbe_raw.cast_from_raw_to_nvarchar2", FuncCategory::Scalar, FuncDomain::DbeRaw, 1, Some(1), false));
    let t = t.push(spec_oracle_entry("dbe_raw.cast_from_raw_to_nvarchar2", FuncCategory::Scalar, FuncDomain::DbeRaw, 1, Some(1), false));
    assert(t == table_chunk_2_7(s));
}

proof fn lemma_chunk_lower_2_8(s: Seq<FuncMeta>)
    requires
        names_lower(s),
    ensures
        names_lower(table_chunk_2_8(s)),
{
    let t = s;
    reveal_strlit("dbe_raw.cast_from_varchar2_to_raw");
    lemma_push_keeps_lower(t, spec_oracle_entry("dbe_raw.cast_from_varchar2_to_raw", FuncCategory::Scalar, FuncDomain::DbeRaw, 1, Some(1), false));
    let t = t.push(spec_oracle_entry("dbe_raw.cast_from_varchar2_to_raw", FuncCategory::Scalar, FuncDomain::DbeRaw, 1, Some(1), false));
    reveal_strlit("dbe_raw.cast_to_varchar2");
    lemma_push_keeps_lower(t, spec_oracle_entry("dbe_raw.cast_to_varchar2", FuncCategory::Scalar, FuncDomain::DbeRaw, 1, Some(1), false));
    let t = t.push(spec_oracle_entry("dbe_raw.cast_to_varchar2", FuncCategory::Scalar, FuncDomain::DbeRaw, 1, Some(1), false));
    reveal_strlit("dbe_raw.compare");
    lemma_push_keeps_lower(t, spec_oracle_entry("dbe_raw.compare", FuncCategory::Scalar, FuncDomain::DbeRaw, 2, Some(3), false));
    let t = t.push(spec_oracle_entry("dbe_raw.compare", FuncCategory::Scalar, FuncDomain::DbeRaw, 2, Some(3), false));
    reveal_strlit("dbe_raw.concat");
    lemma_push_keeps_lower(t, spec_oracle_entry("dbe_raw.concat", FuncCategory::Scalar, FuncDomain::DbeRaw, 0, Some(12), false));
    let t = t.push(spec_oracle_entry("dbe_raw.concat", FuncCategory::Scalar, FuncDomain::DbeRaw, 0, Some(12), false));
    reveal_strlit("dbe_raw.convert");
    lemma_push_keeps_lower(t, spec_oracle_entry("dbe_raw.convert", FuncCategory::Scalar, FuncDomain::DbeRaw, 3, Some(3), false));
    let t = t.push(spec_oracle_entry("dbe_raw.convert", FuncCategory::Scalar, FuncDomain::DbeRaw, 3, Some(3), false));
    reveal_strlit("dbe_raw.copies");
    lemma_push_keeps_lower(t, spec_oracle_entry("dbe_raw.copies", FuncCategory::Scalar, FuncDomain::DbeRaw, 2, Some(2), false));
    let t = t.push(spec_oracle_entry("dbe_raw.copies", FuncCategory::Scalar, FuncDomain::DbeRaw, 2, Some(2), false));
    reveal_strlit("dbe_raw.get_length");
    lemma_push_keeps_lower(t, spec_oracle_entry("dbe_raw.get_length", FuncCategory::Scalar, FuncDomain::DbeRaw, 1, Some(1), false));
    let t = t.push(spec_oracle_entry("dbe_raw.get_length", FuncCategory::Scalar, FuncDomain::DbeRaw, 1, Some(1), false));
    reveal_strlit("dbe_raw.overlay");
    lemma_push_keeps_lower(t, spec_oracle_entry("dbe_raw.overlay", FuncCategory::Scalar, FuncDomain::DbeRaw, 2, Some(5), false));
    let t = t.push(spec_oracle_entry("dbe_raw.overlay", FuncCategory::Scalar, FuncDomain::DbeRaw, 2, Some(5), false));
    reveal_strlit("dbe_raw.reverse");
    lemma_push_keeps_lower(t, spec_oracle_entry("dbe_raw.reverse", FuncCategory::Scalar, FuncDomain::DbeRaw, 1, Some(1), false));
    let t = t.push(spec_oracle_entry("dbe_raw.reverse", FuncCategory::Scalar, FuncDomain::DbeRaw, 1, Some(1), false));
    reveal_strlit("dbe_raw.substr");
    lemma_push_keeps_lower(t, spec_oracle_entry("dbe_raw.substr", FuncCategory::Scalar, FuncDomain::DbeRaw, 1, Some(3), false));
    let t = t.push(spec_oracle_entry("dbe_raw.substr", FuncCategory::Scalar, FuncDomain::DbeRaw, 1, Some(3), false));
    assert(t == table_chunk_2_8(s));
}

proof fn lemma_chunk_lower_2_9(s: Seq<FuncMeta>)
    requires
        names_lower(s),
    ensures
        names_lower(table_chunk_2_9(s)),
{
    let t = s;
    reveal_strlit("dbe_raw.translate");
    lemma_push_keeps_lower(t, spec_oracle_entry("dbe_raw.translate", FuncCategory::Scalar, FuncDomain::DbeRaw, 3, Some(3), false));
    let t = t.push(spec_oracle_entry("dbe_raw.translate", FuncCategory::Scalar, FuncDomain::DbeRaw, 3, Some(3), false));
    reveal_strlit("dbe_raw.transliterate");
    lemma_push_keeps_lower(t, spec_oracle_entry("dbe_raw.transliterate", FuncCategory::Scalar, FuncDomain::DbeRaw, 1, Some(4), false));
    let t = t.push(spec_oracle_entry("dbe_raw.transliterate", FuncCategory::Scalar, FuncDomain::DbeRaw, 1, Some(4), false));
    reveal_strlit("dbe_raw.xrange");
    lemma_push_keeps_lower(t, spec_oracle_entry("dbe_raw.xrange", FuncCategory::Scalar, FuncDomain::DbeRaw, 1, Some(2), false));
    let t = t.push(spec_oracle_entry("dbe_raw.xrange", FuncCategory::Scalar, FuncDomain::DbeRaw, 1, Some(2), false));
    reveal_strlit("dbe_scheduler.create_credential");
    lemma_push_keeps_lower(t, spec_oracle_entry("dbe_scheduler.create_credential", FuncCategory::Scalar, FuncDomain::DbeScheduler, 3, Some(3), false));
    let t = t.push(spec_oracle_entry("dbe_scheduler.create_credential", FuncCategory::Scalar, FuncDomain::DbeScheduler, 3, Some(3), false));
    reveal_strlit("dbe_scheduler.create_job");
    lemma_push_keeps_lower(t, spec_oracle_entry("dbe_scheduler.create_job", FuncCategory::Scalar, FuncDomain::DbeScheduler, 1, None, false));
    let t = t.push(spec_oracle_entry("dbe_scheduler.create_job", FuncCategory::Scalar, FuncDomain::DbeScheduler, 1, None, false));
    reveal_strlit("dbe_scheduler.create_job_class");
    lemma_push_keeps_lower(t, spec_oracle_entry("dbe_scheduler.create_job_class", FuncCategory::Scalar, FuncDomain::DbeScheduler, 1, Some(3), false));
    let t = t.push(spec_oracle_entry("dbe_scheduler.create_job_class", FuncCategory::Scalar, FuncDomain::DbeScheduler, 1, Some(3), false));
    reveal_strlit("dbe_scheduler.create_program");
    lemma_push_keeps_lower(t, spec_oracle_entry("dbe_scheduler.create_program", FuncCategory::Scalar, FuncDomain::DbeScheduler, 1, None, false));
    let t = t.push(spec_oracle_entry("dbe_scheduler.create_program", FuncCategory::Scalar, FuncDomain::DbeScheduler, 1, None, false));
    reveal_strlit("dbe_scheduler.create_schedule");
    lemma_push_keeps_lower(t, spec_oracle_entry("dbe_scheduler.create_schedule", FuncCategory::Scalar, FuncDomain::DbeScheduler, 1, Some(3), false));
    let t = t.push(spec_oracle_entry("dbe_scheduler.create_schedule", FuncCategory::Scalar, FuncDomain::DbeScheduler, 1, Some(3), false));
    reveal_strlit("dbe_scheduler.define_program_argument");
    lemma_push_keeps_lower(t, spec_oracle_entry("dbe_scheduler.define_program_argument", FuncCategory::Scalar, FuncDomain::DbeScheduler, 3, Some(5), false));
    let t = t.push(spec_oracle_entry("dbe_scheduler.define_program_argument", FuncCategory::Scalar, FuncDomain::DbeScheduler, 3, Some(5), false));
    reveal_strlit("dbe_scheduler.disable");
    lemma_push_keeps_lower(t, spec_oracle_entry("dbe_scheduler.disable", FuncCategory::Scalar, FuncDomain::DbeScheduler, 1, Some(2), false));
    let t = t.push(spec_oracle_entry("dbe_scheduler.disable", FuncCategory::Scalar, FuncDomain::DbeScheduler, 1, Some(2), false));
    assert(t == table_chunk_2_9(s));
}

proof fn lemma_chunk_lower_2_10(s: Seq<FuncMeta>)
    requires
        names_lower(s),
    ensures
        names_lower(table_chunk_2_10(s)),
{
    let t = s;
    reveal_strlit("dbe_scheduler.disable_single");
    lemma_push_keeps_lower(t, spec_oracle_entry("dbe_scheduler.disable_single", FuncCategory::Scalar, FuncDomain::DbeScheduler, 1, Some(2), false));
    let t = t.push(spec_oracle_entry("dbe_scheduler.disable_single", FuncCategory::Scalar, FuncDomain::DbeScheduler, 1, Some(2), false));
    reveal_strlit("dbe_scheduler.drop_credential");
    lemma_push_keeps_lower(t, spec_oracle_entry("dbe_scheduler.drop_credential", FuncCategory::Scalar, FuncDomain::DbeScheduler, 1, Some(1), false));
    let t = t.push(spec_oracle_entry("dbe_scheduler.drop_credential", FuncCategory::Scalar, FuncDomain::DbeScheduler, 1, Some(1), false));
    reveal_strlit("dbe_scheduler.drop_job");
    lemma_push_keeps_lower(t, spec_oracle_entry("dbe_scheduler.drop_job", FuncCategory::Scalar, FuncDomain::DbeScheduler, 1, None, false));
    let t = t.push(spec_oracle_entry("dbe_scheduler.drop_job", FuncCategory::Scalar, FuncDomain::DbeScheduler, 1, None, false));
    reveal_strlit("dbe_scheduler.drop_job_class");
    lemma_push_keeps_lower(t, spec_oracle_entry("dbe_scheduler.drop_job_class", FuncCategory::Scalar, FuncDomain::DbeScheduler, 1, Some(1), false));
    let t = t.push(spec_oracle_entry("dbe_scheduler.drop_job_class", FuncCategory::Scalar, FuncDomain::DbeScheduler, 1, Some(1), false));
    reveal_strlit("dbe_scheduler.drop_program");
    lemma_push_keeps_lower(t, spec_oracle_entry("dbe_scheduler.drop_program", FuncCategory::Scalar, FuncDomain::DbeScheduler, 1, Some(1), false));
    let t = t.push(spec_oracle_entry("dbe_scheduler.drop_program", FuncCategory::Scalar, FuncDomain::DbeScheduler, 1, Some(1), false));
    reveal_strlit("dbe_scheduler.drop_schedule");
    lemma_push_keeps_lower(t, spec_oracle_entry("dbe_scheduler.drop_schedule", FuncCategory::Scalar, FuncDomain::DbeScheduler, 1, Some(1), false));
    let t = t.push(spec_oracle_entry("dbe_scheduler.drop_schedule", FuncCategory::Scalar, FuncDomain::DbeScheduler, 1, Some(1), false));
    reveal_strlit("dbe_scheduler.drop_single_job");
    lemma_push_keeps_lower(t, spec_oracle_entry("dbe_scheduler.drop_single_job", FuncCategory::Scalar, FuncDomain::DbeScheduler, 1, Some(3), false));
    let t = t.push(spec_oracle_entry("dbe_scheduler.drop_single_job", FuncCategory::Scalar, FuncDomain::DbeScheduler, 1, Some(3), false));
    reveal_strlit("dbe_scheduler.drop_single_job_class");
    lemma_push_keeps_lower(t, spec_oracle_entry("dbe_scheduler.drop_single_job_class", FuncCategory::Scalar, FuncDomain::DbeScheduler, 1, Some(2), false));
    let t = t.push(spec_oracle_entry("dbe_scheduler.drop_single_job_class", FuncCategory::Scalar, FuncDomain::DbeScheduler, 1, Some(2), false));
    reveal_strlit("dbe_scheduler.drop_single_program");
    lemma_push_keeps_lower(t, spec_oracle_entry("dbe_scheduler.drop_single_program", FuncCategory::Scalar, FuncDomain::DbeScheduler, 1, Some(2), false));
    let t = t.push(spec_oracle_entry("dbe_scheduler.drop_single_program", FuncCategory::Scalar, FuncDomain::DbeScheduler, 1, Some(2), false));
    reveal_strlit("dbe_scheduler.drop_single_schedule");
    lemma_push_keeps_lower(t, spec_oracle_entry("dbe_scheduler.drop_single_schedule", FuncCategory::Scalar, FuncDomain::DbeScheduler, 1, Some(2), false));
    let t = t.push(spec_oracle_entry("dbe_scheduler.drop_single_schedule", FuncCategory::Scalar, FuncDomain::DbeScheduler, 1, Some(2), false));
    assert(t == table_chunk_2_10(s));
}

proof fn lemma_chunk_lower_2_11(s: Seq<FuncMeta>)
    requires
        names_lower(s),
    ensures
        names_lower(table_chunk_2_11(s)),
{
    let t = s;
    reveal_strlit("dbe_scheduler.enable");
    lemma_push_keeps_lower(t, spec_oracle_entry("dbe_scheduler.enable", FuncCategory::Scalar, FuncDomain::DbeScheduler, 1, Some(2), false));
    let t = t.push(spec_oracle_entry("dbe_scheduler.enable", FuncCategory::Scalar, FuncDomain::DbeScheduler, 1, Some(2), false));
    reveal_strlit("dbe_scheduler.enable_single");
    lemma_push_keeps_lower(t, spec_oracle_entry("dbe_scheduler.enable_single", FuncCategory::Scalar, FuncDomain::DbeScheduler, 1, Some(1), false));
    let t = t.push(spec_oracle_entry("dbe_scheduler.enable_single", FuncCategory::Scalar, FuncDomain::DbeScheduler, 1, Some(1), false));
    reveal_strlit("dbe_scheduler.eval_calendar_string");
    lemma_push_keeps_lower(t, spec_oracle_entry("dbe_scheduler.eval_calendar_string", FuncCategory::Scalar, FuncDomain::DbeScheduler, 2, Some(2), false));
    let t = t.push(spec_oracle_entry("dbe_scheduler.eval_calendar_string", FuncCategory::Scalar, FuncDomain::DbeScheduler, 2, Some(2), false));
    reveal_strlit("dbe_scheduler.evaluate_calendar_string");
    lemma_push_keeps_lower(t, spec_oracle_entry("dbe_scheduler.evaluate_calendar_string", FuncCategory::Scalar, FuncDomain::DbeScheduler, 2, Some(2), false));
    let t = t.push(spec_oracle_entry("dbe_scheduler.evaluate_calendar_string", FuncCategory::Scalar, FuncDomain::DbeScheduler, 2, Some(2), false));
    reveal_strlit("dbe_scheduler.generate_job_name");
    lemma_push_keeps_lower(t, spec_oracle_entry("dbe_scheduler.generate_job_name", FuncCategory::Scalar, FuncDomain::DbeScheduler, 1, Some(1), false));
    let t = t.push(spec_oracle_entry("dbe_scheduler.generate_job_name", FuncCategory::Scalar, FuncDomain::DbeScheduler, 1, Some(1), false));
    reveal_strlit("dbe_scheduler.grant_user_authorization");
    lemma_push_keeps_lower(t, spec_oracle_entry("dbe_scheduler.grant_user_authorization", FuncCategory::Scalar, FuncDomain::DbeScheduler, 2, Some(2), false));
    let t = t.push(spec_oracle_entry("dbe_scheduler.grant_user_authorization", FuncCategory::Scalar, FuncDomain::DbeScheduler, 2, Some(2), false));
    reveal_strlit("dbe_scheduler.revoke_user_authorization");
    lemma_push_keeps_lower(t, spec_oracle_entry("dbe_scheduler.revoke_user_authorization", FuncCategory::Scalar, FuncDomain::DbeScheduler, 2, Some(2), false));
    let t = t.push(spec_oracle_entry("dbe_scheduler.revoke_user_authorization", FuncCategory::Scalar, FuncDomain::DbeScheduler, 2, Some(2), false));
    reveal_strlit("dbe_scheduler.run_backend_job");
    lemma_push_keeps_lower(t, spec_oracle_entry("dbe_scheduler.run_backend_job", FuncCategory::Scalar, FuncDomain::DbeScheduler, 1, Some(2), false));
    let t = t.push(spec_oracle_entry("dbe_scheduler.run_backend_job", FuncCategory::Scalar, FuncDomain::DbeScheduler, 1, Some(2), false));
    reveal_strlit("dbe_scheduler.run_foreground_job");
    lemma_push_keeps_lower(t, spec_oracle_entry("dbe_scheduler.run_foreground_job", FuncCategory::Scalar, FuncDomain::DbeScheduler, 1, Some(2), false));
    let t = t.push(spec_oracle_entry("dbe_scheduler.run_foreground_job", FuncCategory::Scalar, FuncDomain::DbeScheduler, 1, Some(2), false));
    reveal_strlit("dbe_scheduler.run_job");
    lemma_push_keeps_lower(t, spec_oracle_entry("dbe_scheduler.run_job", FuncCategory::Scalar, FuncDomain::DbeScheduler, 1, Some(2), false));
    let t = t.push(spec_oracle_entry("dbe_scheduler.run_job", FuncCategory::Scalar, FuncDomain::DbeScheduler, 1, Some(2), false));
    assert(t == table_chunk_2_11(s));
}

proof fn lemma_chunk_lower_2_12(s: Seq<FuncMeta>)
    requires
        names_lower(s),
    ensures
        names_lower(table_chunk_2_12(s)),
{
    let t = s;
    reveal_strlit("dbe_scheduler.set_attribute");
    lemma_push_keeps_lower(t, spec_oracle_entry("dbe_scheduler.set_attribute", FuncCategory::Scalar, FuncDomain::DbeScheduler, 3, Some(3), false));
    let t = t.push(spec_oracle_entry("dbe_scheduler.set_attribute", FuncCategory::Scalar, FuncDomain::DbeScheduler, 3, Some(3), false));
    reveal_strlit("dbe_scheduler.set_job_argument_value");
    lemma_push_keeps_lower(t, spec_oracle_entry("dbe_scheduler.set_job_argument_value", FuncCategory::Scalar, FuncDomain::DbeScheduler, 3, Some(3), false));
    let t = t.push(spec_oracle_entry("dbe_scheduler.set_job_argument_value", FuncCategory::Scalar, FuncDomain::DbeScheduler, 3, Some(3), false));
    reveal_strlit("dbe_scheduler.stop_job");
    lemma_push_keeps_lower(t, spec_oracle_entry("dbe_scheduler.stop_job", FuncCategory::Scalar, FuncDomain::DbeScheduler, 1, Some(2), false));
    let t = t.push(spec_oracle_entry("dbe_scheduler.stop_job", FuncCategory::Scalar, FuncDomain::DbeScheduler, 1, Some(2), false));
    reveal_strlit("dbe_scheduler.stop_single_job");
    lemma_push_keeps_lower(t, spec_oracle_entry("dbe_scheduler.stop_single_job", FuncCategory::Scalar, FuncDomain::DbeScheduler, 1, Some(2), false));
    let t = t.push(spec_oracle_entry("dbe_scheduler.stop_single_job", FuncCategory::Scalar, FuncDomain::DbeScheduler, 1, Some(2), false));
    reveal_strlit("dbe_session.clear_context");
    lemma_push_keeps_lower(t, spec_oracle_entry("dbe_session.clear_context", FuncCategory::Scalar, FuncDomain::DbeSession, 2, Some(3), false));
    let t = t.push(spec_oracle_entry("dbe_session.clear_context", FuncCategory::Scalar, FuncDomain::DbeSession, 2, Some(3), false));
    assert(t == table_chunk_2_12(s));
}

proof fn lemma_part_2_lower(s: Seq<FuncMeta>)
    requires
        names_lower(s),
    ensures
        names_lower(table_part_2(s)),
{
    lemma_chunk_lower_2_0(s);
    let t0 = table_chunk_2_0(s);
    lemma_chunk_lower_2_1(t0);
    let t1 = table_chunk_2_1(t0);
    lemma_chunk_lower_2_2(t1);
    let t2 = table_chunk_2_2(t1);
    lemma_chunk_lower_2_3(t2);
    let t3 = table_chunk_2_3(t2);
    lemma_chunk_lower_2_4(t3);
    let t4 = table_chunk_2_4(t3);
    lemma_chunk_lower_2_5(t4);
    let t5 = table_chunk_2_5(t4);
    lemma_chunk_lower_2_6(t5);
    let t6 = table_chunk_2_6(t5);
    lemma_chunk_lower_2_7(t6);
    let t7 = table_chunk_2_7(t6);
    lemma_chunk_lower_2_8(t7);
    let t8 = table_chunk_2_8(t7);
    lemma_chunk_lower_2_9(t8);
    let t9 = table_chunk_2_9(t8);
    lemma_chunk_lower_2_10(t9);
    let t10 = table_chunk_2_10(t9);
    lemma_chunk_lower_2_11(t10);
    let t11 = table_chunk_2_11(t10);
    lemma_chunk_lower_2_12(t11);
    let t12 = table_chunk_2_12(t11);
    assert(t12 == table_part_2(s));
}

proof fn lemma_chunk_lower_3_0(s: Seq<FuncMeta>)
    requires
        names_lower(s),
    ensures
        names_lower(table_chunk_3_0(s)),
{
    let t = s;
    reveal_strlit("dbe_session.set_context");
    lemma_push_keeps_lower(t, spec_oracle_entry("dbe_session.set_context", FuncCategory::Scalar, FuncDomain::DbeSession, 3, Some(3), false));
    let t = t.push(spec_oracle_entry("dbe_session.set_context", FuncCategory::Scalar, FuncDomain::DbeSession, 3, Some(3), false));
    reveal_strlit("dbe_sql.bind_variable");
    lemma_push_keeps_lower(t, spec_oracle_entry("dbe_sql.bind_variable", FuncCategory::Scalar, FuncDomain::DbeSql, 3, Some(4), false));
    let t = t.push(spec_oracle_entry("dbe_sql.bind_variable", FuncCategory::Scalar, FuncDomain::DbeSql, 3, Some(4), false));
    reveal_strlit("dbe_sql.close_cursor");
    lemma_push_keeps_lower(t, spec_oracle_entry("dbe_sql.close_cursor", FuncCategory::Scalar, FuncDomain::DbeSql, 1, Some(1), false));
    let t = t.push(spec_oracle_entry("dbe_sql.close_cursor", FuncCategory::Scalar, FuncDomain::DbeSql, 1, Some(1), false));
    reveal_strlit("dbe_sql.column_value");
    lemma_push_keeps_lower(t, spec_oracle_entry("dbe_sql.column_value", FuncCategory::Scalar, FuncDomain::DbeSql, 3, Some(3), false));
    let t = t.push(spec_oracle_entry("dbe_sql.column_value", FuncCategory::Scalar, FuncDomain::DbeSql, 3, Some(3), false));
    reveal_strlit("dbe_sql.dbe_sql_get_result_char");
    lemma_push_keeps_lower(t, spec_oracle_entry("dbe_sql.dbe_sql_get_result_char", FuncCategory::Scalar, FuncDomain::DbeSql, 2, Some(2), false));
    let t = t.push(spec_oracle_entry("dbe_sql.dbe_sql_get_result_char", FuncCategory::Scalar, FuncDomain::DbeSql, 2, Some(2), false));
    reveal_strlit("dbe_sql.dbe_sql_get_result_long");
    lemma_push_keeps_lower(t, spec_oracle_entry("dbe_sql.dbe_sql_get_result_long", FuncCategory::Scalar, FuncDomain::DbeSql, 2, Some(2), false));
    let t = t.push(spec_oracle_entry("dbe_sql.dbe_sql_get_result_long", FuncCategory::Scalar, FuncDomain::DbeSql, 2, Some(2), false));
    reveal_strlit("dbe_sql.dbe_sql_get_result_raw");
    lemma_push_keeps_lower(t, spec_oracle_entry("dbe_sql.dbe_sql_get_result_raw", FuncCategory::Scalar, FuncDomain::DbeSql, 3, Some(3), false));
    let t = t.push(spec_oracle_entry("dbe_sql.dbe_sql_get_result_raw", FuncCategory::Scalar, FuncDomain::DbeSql, 3, Some(3), false));
    reveal_strlit("dbe_sql.describe_columns");
    lemma_push_keeps_lower(t, spec_oracle_entry("dbe_sql.describe_columns", FuncCategory::Scalar, FuncDomain::DbeSql, 3, Some(3), false));
    let t = t.push(spec_oracle_entry("dbe_sql.describe_columns", FuncCategory::Scalar, FuncDomain::DbeSql, 3, Some(3), false));
    reveal_strlit("dbe_sql.execute");
    lemma_push_keeps_lower(t, spec_oracle_entry("dbe_sql.execute", FuncCategory::Scalar, FuncDomain::DbeSql, 1, Some(2), false));
    let t = t.push(spec_oracle_entry("dbe_sql.execute", FuncCategory::Scalar, FuncDomain::DbeSql, 1, Some(2), false));
    reveal_strlit("dbe_sql.fetch_rows");
    lemma_push_keeps_lower(t, spec_oracle_entry("dbe_sql.fetch_rows", FuncCategory::Scalar, FuncDomain::DbeSql, 1, Some(1), false));
    let t = t.push(spec_oracle_entry("dbe_sql.fetch_rows", FuncCategory::Scalar, FuncDomain::DbeSql, 1, Some(1), false));
    assert(t == table_chunk_3_0(s));
}

proof fn lemma_chunk_lower_3_1(s: Seq<FuncMeta>)
    requires
        names_lower(s),
    ensures
        names_lower(table_chunk_3_1(s)),
{
    let t = s;
    reveal_strlit("dbe_sql.get_array_result_char");
    lemma_push_keeps_lower(t, spec_oracle_entry("dbe_sql.get_array_result_char", FuncCategory::Scalar, FuncDomain::DbeSql, 3, Some(3), false));
    let t = t.push(spec_oracle_entry("dbe_sql.get_array_result_char", FuncCategory::Scalar, FuncDomain::DbeSql, 3, Some(3), false));
    reveal_strlit("dbe_sql.get_array_result_int");
    lemma_push_keeps_lower(t, spec_oracle_entry("dbe_sql.get_array_result_int", FuncCategory::Scalar, FuncDomain::DbeSql, 3, Some(3), false));
    let t = t.push(spec_oracle_entry("dbe_sql.get_array_result_int", FuncCategory::Scalar, FuncDomain::DbeSql, 3, Some(3), false));
    reveal_strlit("dbe_sql.get_array_result_raw");
    lemma_push_keeps_lower(t, spec_oracle_entry("dbe_sql.get_array_result_raw", FuncCategory::Scalar, FuncDomain::DbeSql, 3, Some(3), false));
    let t = t.push(spec_oracle_entry("dbe_sql.get_array_result_raw", FuncCategory::Scalar, FuncDomain::DbeSql, 3, Some(3), false));
    reveal_strlit("dbe_sql.get_array_result_text");
    lemma_push_keeps_lower(t, spec_oracle_entry("dbe_sql.get_array_result_text", FuncCategory::Scalar, FuncDomain::DbeSql, 3, Some(3), false));
    let t = t.push(spec_oracle_entry("dbe_sql.get_array_result_text", FuncCategory::Scalar, FuncDomain::DbeSql, 3, Some(3), false));
    reveal_strlit("dbe_sql.get_result");
    lemma_push_keeps_lower(t, spec_oracle_entry("dbe_sql.get_result", FuncCategory::Scalar, FuncDomain::DbeSql, 3, Some(3), false));
    let t = t.push(spec_oracle_entry("dbe_sql.get_result", FuncCategory::Scalar, FuncDomain::DbeSql, 3, Some(3), false));
    reveal_strlit("dbe_sql.get_result_bytea");
    lemma_push_keeps_lower(t, spec_oracle_entry("dbe_sql.get_result_bytea", FuncCategory::Scalar, FuncDomain::DbeSql, 2, Some(2), false));
    let t = t.push(spec_oracle_entry("dbe_sql.get_result_bytea", FuncCategory::Scalar, FuncDomain::DbeSql, 2, Some(2), false));
    reveal_strlit("dbe_sql.get_result_char");
    lemma_push_keeps_lower(t, spec_oracle_entry("dbe_sql.get_result_char", FuncCategory::Scalar, FuncDomain::DbeSql, 3, Some(5), false));
    let t = t.push(spec_oracle_entry("dbe_sql.get_result_char", FuncCategory::Scalar, FuncDomain::DbeSql, 3, Some(5), false));
    reveal_strlit("dbe_sql.get_result_int");
    lemma_push_keeps_lower(t, spec_oracle_entry("dbe_sql.get_result_int", FuncCategory::Scalar, FuncDomain::DbeSql, 2, Some(2), false));
    let t = t.push(spec_oracle_entry("dbe_sql.get_result_int", FuncCategory::Scalar, FuncDomain::DbeSql, 2, Some(2), false));
    reveal_strlit("dbe_sql.get_result_long");
    lemma_push_keeps_lower(t, spec_oracle_entry("dbe_sql.get_result_long", FuncCategory::Scalar, FuncDomain::DbeSql, 6, Some(6), false));
    let t = t.push(spec_oracle_entry("dbe_sql.get_result_long", FuncCategory::Scalar, FuncDomain::DbeSql, 6, Some(6), false));
    reveal_strlit("dbe_sql.get_result_raw");
    lemma_push_keeps_lower(t, spec_oracle_entry("dbe_sql.get_result_raw", FuncCategory::Scalar, FuncDomain::DbeSql, 3, Some(5), false));
    let t = t.push(spec_oracle_entry("dbe_sql.get_result_raw", FuncCategory::Scalar, FuncDomain::DbeSql, 3, Some(5), false));
    assert(t == table_chunk_3_1(s));
}

proof fn lemma_chunk_lower_3_2(s: Seq<FuncMeta>)
    requires
        names_lower(s),
    ensures
        names_lower(table_chunk_3_2(s)),
{
    let t = s;
    reveal_strlit("dbe_sql.get_result_text");
    lemma_push_keeps_lower(t, spec_oracle_entry("dbe_sql.get_result_text", FuncCategory::Scalar, FuncDomain::DbeSql, 2, Some(2), false));
    let t = t.push(spec_oracle_entry("dbe_sql.get_result_text", FuncCategory::Scalar, FuncDomain::DbeSql, 2, Some(2), false));
    reveal_strlit("dbe_sql.get_result_unknown");
    lemma_push_keeps_lower(t, spec_oracle_entry("dbe_sql.get_result_unknown", FuncCategory::Scalar, FuncDomain::DbeSql, 3, Some(3), false));
    let t = t.push(spec_oracle_entry("dbe_sql.get_result_unknown", FuncCategory::Scalar, FuncDomain::DbeSql, 3, Some(3), false));
    reveal_strlit("dbe_sql.get_results");
    lemma_push_keeps_lower(t, spec_oracle_entry("dbe_sql.get_results", FuncCategory::Scalar, FuncDomain::DbeSql, 3, Some(3), false));
    let t = t.push(spec_oracle_entry("dbe_sql.get_results", FuncCategory::Scalar, FuncDomain::DbeSql, 3, Some(3), false));
    reveal_strlit("dbe_sql.get_results_bytea");
    lemma_push_keeps_lower(t, spec_oracle_entry("dbe_sql.get_results_bytea", FuncCategory::Scalar, FuncDomain::DbeSql, 3, Some(3), false));
    let t = t.push(spec_oracle_entry("dbe_sql.get_results_bytea", FuncCategory::Scalar, FuncDomain::DbeSql, 3, Some(3), false));
    reveal_strlit("dbe_sql.get_results_char");
    lemma_push_keeps_lower(t, spec_oracle_entry("dbe_sql.get_results_char", FuncCategory::Scalar, FuncDomain::DbeSql, 3, Some(3), false));
    let t = t.push(spec_oracle_entry("dbe_sql.get_results_char", FuncCategory::Scalar, FuncDomain::DbeSql, 3, Some(3), false));
    reveal_strlit("dbe_sql.get_results_int");
    lemma_push_keeps_lower(t, spec_oracle_entry("dbe_sql.get_results_int", FuncCategory::Scalar, FuncDomain::DbeSql, 3, Some(3), false));
    let t = t.push(spec_oracle_entry("dbe_sql.get_results_int", FuncCategory::Scalar, FuncDomain::DbeSql, 3, Some(3), false));
    reveal_strlit("dbe_sql.get_results_raw");
    lemma_push_keeps_lower(t, spec_oracle_entry("dbe_sql.get_results_raw", FuncCategory::Scalar, FuncDomain::DbeSql, 3, Some(3), false));
    let t = t.push(spec_oracle_entry("dbe_sql.get_results_raw", FuncCategory::Scalar, FuncDomain::DbeSql, 3, Some(3), false));
    reveal_strlit("dbe_sql.get_results_text");
    lemma_push_keeps_lower(t, spec_oracle_entry("dbe_sql.get_results_text", FuncCategory::Scalar, FuncDomain::DbeSql, 3, Some(3), false));
    let t = t.push(spec_oracle_entry("dbe_sql.get_results_text", FuncCategory::Scalar, FuncDomain::DbeSql, 3, Some(3), false));
    reveal_strlit("dbe_sql.get_variable_result");
    lemma_push_keeps_lower(t, spec_oracle_entry("dbe_sql.get_variable_result", FuncCategory::Scalar, FuncDomain::DbeSql, 3, Some(3), false));
    let t = t.push(spec_oracle_entry("dbe_sql.get_variable_result", FuncCategory::Scalar, FuncDomain::DbeSql, 3, Some(3), false));
    reveal_strlit("dbe_sql.get_variable_result_char");
    lemma_push_keeps_lower(t, spec_oracle_entry("dbe_sql.get_variable_result_char", FuncCategory::Scalar, FuncDomain::DbeSql, 2, Some(2), false));
    let t = t.push(spec_oracle_entry("dbe_sql.get_variable_result_char", FuncCategory::Scalar, FuncDomain::DbeSql, 2, Some(2), false));
    assert(t == table_chunk_3_2(s));
}

proof fn lemma_chunk_lower_3_3(s: Seq<FuncMeta>)
    requires
        names_lower(s),
    ensures
        names_lower(table_chunk_3_3(s)),
{
    let t = s;
    reveal_strlit("dbe_sql.get_variable_result_int");
    lemma_push_keeps_lower(t, spec_oracle_entry("dbe_sql.get_variable_result_int", FuncCategory::Scalar, FuncDomain::DbeSql, 3, Some(3), false));
    let t = t.push(spec_oracle_entry("dbe_sql.get_variable_result_int", FuncCategory::Scalar, FuncDomain::DbeSql, 3, Some(3), false));
    reveal_strlit("dbe_sql.get_variable_result_raw");
    lemma_push_keeps_lower(t, spec_oracle_entry("dbe_sql.get_variable_result_raw", FuncCategory::Scalar, FuncDomain::DbeSql, 3, Some(3), false));
    let t = t.push(spec_oracle_entry("dbe_sql.get_variable_result_raw", FuncCategory::Scalar, FuncDomain::DbeSql, 3, Some(3), false));
    reveal_strlit("dbe_sql.get_variable_result_text");
    lemma_push_keeps_lower(t, spec_oracle_entry("dbe_sql.get_variable_result_text", FuncCategory::Scalar, FuncDomain::DbeSql, 2, Some(2), false));
    let t = t.push(spec_oracle_entry("dbe_sql.get_variable_result_text", FuncCategory::Scalar, FuncDomain::DbeSql, 2, Some(2), false));
    reveal_strlit("dbe_sql.is_active");
    lemma_push_keeps_lower(t, spec_oracle_entry("dbe_sql.is_active", FuncCategory::Scalar, FuncDomain::DbeSql, 1, Some(1), false));
    let t = t.push(spec_oracle_entry("dbe_sql.is_active", FuncCategory::Scalar, FuncDomain::DbeSql, 1, Some(1), false));
    reveal_strlit("dbe_sql.last_row_count");
    lemma_push_keeps_lower(t, spec_oracle_entry("dbe_sql.last_row_count", FuncCategory::Scalar, FuncDomain::DbeSql, 0, Some(0), false));
    let t = t.push(spec_oracle_entry("dbe_sql.last_row_count", FuncCategory::Scalar, FuncDomain::DbeSql, 0, Some(0), false));
    reveal_strlit("dbe_sql.next_row");
    lemma_push_keeps_lower(t, spec_oracle_entry("dbe_sql.next_row", FuncCategory::Scalar, FuncDomain::DbeSql, 1, Some(1), false));
    let t = t.push(spec_oracle_entry("dbe_sql.next_row", FuncCategory::Scalar, FuncDomain::DbeSql, 1, Some(1), false));
    reveal_strlit("dbe_sql.open_cursor");
    lemma_push_keeps_lower(t, spec_oracle_entry("dbe_sql.open_cursor", FuncCategory::Scalar, FuncDomain::DbeSql, 0, Some(0), false));
    let t = t.push(spec_oracle_entry("dbe_sql.open_cursor", FuncCategory::Scalar, FuncDomain::DbeSql, 0, Some(0), false));
    reveal_strlit("dbe_sql.register_context");
    lemma_push_keeps_lower(t, spec_oracle_entry("dbe_sql.register_context", FuncCategory::Scalar, FuncDomain::DbeSql, 0, Some(0), false));
    let t = t.push(spec_oracle_entry("dbe_sql.register_context", FuncCategory::Scalar, FuncDomain::DbeSql, 0, Some(0), false));
    reveal_strlit("dbe_sql.register_variable");
    lemma_push_keeps_lower(t, spec_oracle_entry("dbe_sql.register_variable", FuncCategory::Scalar, FuncDomain::DbeSql, 3, Some(3), false));
    let t = t.push(spec_oracle_entry("dbe_sql.register_variable", FuncCategory::Scalar, FuncDomain::DbeSql, 3, Some(3), false));
    reveal_strlit("dbe_sql.run_and_next");
    lemma_push_keeps_lower(t, spec_oracle_entry("dbe_sql.run_and_next", FuncCategory::Scalar, FuncDomain::DbeSql, 1, Some(1), false));
    let t = t.push(spec_oracle_entry("dbe_sql.run_and_next", FuncCategory::Scalar, FuncDomain::DbeSql, 1, Some(1), false));
    assert(t == table_chunk_3_3(s));
}

proof fn lemma_chunk_lower_3_4(s: Seq<FuncMeta>)
    requires
        names_lower(s),
    ensures
        names_lower(table_chunk_3_4(s)),
{
    let t = s;
    reveal_strlit("dbe_sql.set_result_type");
    lemma_push_keeps_lower(t, spec_oracle_entry("dbe_sql.set_result_type", FuncCategory::Scalar, FuncDomain::DbeSql, 3, Some(4), false));
    let t = t.push(spec_oracle_entry("dbe_sql.set_result_type", FuncCategory::Scalar, FuncDomain::DbeSql, 3, Some(4), false));
    reveal_strlit("dbe_sql.set_result_type_bytea");
    lemma_push_keeps_lower(t, spec_oracle_entry("dbe_sql.set_result_type_bytea", FuncCategory::Scalar, FuncDomain::DbeSql, 4, Some(4), false));
    let t = t.push(spec_oracle_entry("dbe_sql.set_result_type_bytea", FuncCategory::Scalar, FuncDomain::DbeSql, 4, Some(4), false));
    reveal_strlit("dbe_sql.set_result_type_byteas");
    lemma_push_keeps_lower(t, spec_oracle_entry("dbe_sql.set_result_type_byteas", FuncCategory::Scalar, FuncDomain::DbeSql, 6, Some(6), false));
    let t = t.push(spec_oracle_entry("dbe_sql.set_result_type_byteas", FuncCategory::Scalar, FuncDomain::DbeSql, 6, Some(6), false));
    reveal_strlit("dbe_sql.set_result_type_char");
    lemma_push_keeps_lower(t, spec_oracle_entry("dbe_sql.set_result_type_char", FuncCategory::Scalar, FuncDomain::DbeSql, 4, Some(4), false));
    let t = t.push(spec_oracle_entry("dbe_sql.set_result_type_char", FuncCategory::Scalar, FuncDomain::DbeSql, 4, Some(4), false));
    reveal_strlit("dbe_sql.set_result_type_chars");
    lemma_push_keeps_lower(t, spec_oracle_entry("dbe_sql.set_result_type_chars", FuncCategory::Scalar, FuncDomain::DbeSql, 6, Some(6), false));
    let t = t.push(spec_oracle_entry("dbe_sql.set_result_type_chars", FuncCategory::Scalar, FuncDomain::DbeSql, 6, Some(6), false));
    reveal_strlit("dbe_sql.set_result_type_int");
    lemma_push_keeps_lower(t, spec_oracle_entry("dbe_sql.set_result_type_int", FuncCategory::Scalar, FuncDomain::DbeSql, 2, Some(2), false));
    let t = t.push(spec_oracle_entry("dbe_sql.set_result_type_int", FuncCategory::Scalar, FuncDomain::DbeSql, 2, Some(2), false));
    reveal_strlit("dbe_sql.set_result_type_ints");
    lemma_push_keeps_lower(t, spec_oracle_entry("dbe_sql.set_result_type_ints", FuncCategory::Scalar, FuncDomain::DbeSql, 5, Some(5), false));
    let t = t.push(spec_oracle_entry("dbe_sql.set_result_type_ints", FuncCategory::Scalar, FuncDomain::DbeSql, 5, Some(5), false));
    reveal_strlit("dbe_sql.set_result_type_long");
    lemma_push_keeps_lower(t, spec_oracle_entry("dbe_sql.set_result_type_long", FuncCategory::Scalar, FuncDomain::DbeSql, 2, Some(2), false));
    let t = t.push(spec_oracle_entry("dbe_sql.set_result_type_long", FuncCategory::Scalar, FuncDomain::DbeSql, 2, Some(2), false));
    reveal_strlit("dbe_sql.set_result_type_raw");
    lemma_push_keeps_lower(t, spec_oracle_entry("dbe_sql.set_result_type_raw", FuncCategory::Scalar, FuncDomain::DbeSql, 4, Some(4), false));
    let t = t.push(spec_oracle_entry("dbe_sql.set_result_type_raw", FuncCategory::Scalar, FuncDomain::DbeSql, 4, Some(4), false));
    reveal_strlit("dbe_sql.set_result_type_raws");
    lemma_push_keeps_lower(t, spec_oracle_entry("dbe_sql.set_result_type_raws", FuncCategory::Scalar, FuncDomain::DbeSql, 6, Some(6), false));
    let t = t.push(spec_oracle_entry("dbe_sql.set_result_type_raws", FuncCategory::Scalar, FuncDomain::DbeSql, 6, Some(6), false));
    assert(t == table_chunk_3_4(s));
}

proof fn lemma_chunk_lower_3_5(s: Seq<FuncMeta>)
    requires
        names_lower(s),
    ensures
        names_lower(table_chunk_3_5(s)),
{
    let t = s;
    reveal_strlit("dbe_sql.set_result_type_text");
    lemma_push_keeps_lower(t, spec_oracle_entry("dbe_sql.set_result_type_text", FuncCategory::Scalar, FuncDomain::DbeSql, 3, Some(3), false));
    let t = t.push(spec_oracle_entry("dbe_sql.set_result_type_text", FuncCategory::Scalar, FuncDomain::DbeSql, 3, Some(3), false));
    reveal_strlit("dbe_sql.set_result_type_texts");
    lemma_push_keeps_lower(t, spec_oracle_entry("dbe_sql.set_result_type_texts", FuncCategory::Scalar, FuncDomain::DbeSql, 6, Some(6), false));
    let t = t.push(spec_oracle_entry("dbe_sql.set_result_type_texts", FuncCategory::Scalar, FuncDomain::DbeSql, 6, Some(6), false));
    reveal_strlit("dbe_sql.set_result_type_unknown");
    lemma_push_keeps_lower(t, spec_oracle_entry("dbe_sql.set_result_type_unknown", FuncCategory::Scalar, FuncDomain::DbeSql, 3, Some(3), false));
    let t = t.push(spec_oracle_entry("dbe_sql.set_result_type_unknown", FuncCategory::Scalar, FuncDomain::DbeSql, 3, Some(3), false));
    reveal_strlit("dbe_sql.set_results_type");
    lemma_push_keeps_lower(t, spec_oracle_entry("dbe_sql.set_results_type", FuncCategory::Scalar, FuncDomain::DbeSql, 5, Some(6), false));
    let t = t.push(spec_oracle_entry("dbe_sql.set_results_type", FuncCategory::Scalar, FuncDomain::DbeSql, 5, Some(6), false));
    reveal_strlit("dbe_sql.sql_bind_array");
    lemma_push_keeps_lower(t, spec_oracle_entry("dbe_sql.sql_bind_array", FuncCategory::Scalar, FuncDomain::DbeSql, 3, Some(5), false));
    let t = t.push(spec_oracle_entry("dbe_sql.sql_bind_array", FuncCategory::Scalar, FuncDomain::DbeSql, 3, Some(5), false));
    reveal_strlit("dbe_sql.sql_bind_variable");
    lemma_push_keeps_lower(t, spec_oracle_entry("dbe_sql.sql_bind_variable", FuncCategory::Scalar, FuncDomain::DbeSql, 3, Some(4), false));
    let t = t.push(spec_oracle_entry("dbe_sql.sql_bind_variable", FuncCategory::Scalar, FuncDomain::DbeSql, 3, Some(4), false));
    reveal_strlit("dbe_sql.sql_describe_columns");
    lemma_push_keeps_lower(t, spec_oracle_entry("dbe_sql.sql_describe_columns", FuncCategory::Scalar, FuncDomain::DbeSql, 3, Some(3), false));
    let t = t.push(spec_oracle_entry("dbe_sql.sql_describe_columns", FuncCategory::Scalar, FuncDomain::DbeSql, 3, Some(3), false));
    reveal_strlit("dbe_sql.sql_get_tableof_values_c");
    lemma_push_keeps_lower(t, spec_oracle_entry("dbe_sql.sql_get_tableof_values_c", FuncCategory::Scalar, FuncDomain::DbeSql, 4, Some(4), false));
    let t = t.push(spec_oracle_entry("dbe_sql.sql_get_tableof_values_c", FuncCategory::Scalar, FuncDomain::DbeSql, 4, Some(4), false));
    reveal_strlit("dbe_sql.sql_get_values_c");
    lemma_push_keeps_lower(t, spec_oracle_entry("dbe_sql.sql_get_values_c", FuncCategory::Scalar, FuncDomain::DbeSql, 4, Some(4), false));
    let t = t.push(spec_oracle_entry("dbe_sql.sql_get_values_c", FuncCategory::Scalar, FuncDomain::DbeSql, 4, Some(4), false));
    reveal_strlit("dbe_sql.sql_run");
    lemma_push_keeps_lower(t, spec_oracle_entry("dbe_sql.sql_run", FuncCategory::Scalar, FuncDomain::DbeSql, 1, Some(1), false));
    let t = t.push(spec_oracle_entry("dbe_sql.sql_run", FuncCategory::Scalar, FuncDomain::DbeSql, 1, Some(1), false));
    assert(t == table_chunk_3_5(s));
}

proof fn lemma_chunk_lower_3_6(s: Seq<FuncMeta>)
    requires
        names_lower(s),
    ensures
        names_lower(table_chunk_3_6(s)),
{
    let t = s;
    reveal_strlit("dbe_sql.sql_set_results_type_c");
    lemma_push_keeps_lower(t, spec_oracle_entry("dbe_sql.sql_set_results_type_c", FuncCategory::Scalar, FuncDomain::DbeSql, 7, Some(7), false));
    let t = t.push(spec_oracle_entry("dbe_sql.sql_set_results_type_c", FuncCategory::Scalar, FuncDomain::DbeSql, 7, Some(7), false));
    reveal_strlit("dbe_sql.sql_set_sql");
    lemma_push_keeps_lower(t, spec_oracle_entry("dbe_sql.sql_set_sql", FuncCategory::Scalar, FuncDomain::DbeSql, 3, Some(3), false));
    let t = t.push(spec_oracle_entry("dbe_sql.sql_set_sql", FuncCategory::Scalar, FuncDomain::DbeSql, 3, Some(3), false));
    reveal_strlit("dbe_sql.sql_set_tableof_results_type_c");
    lemma_push_keeps_lower(t, spec_oracle_entry("dbe_sql.sql_set_tableof_results_type_c", FuncCategory::Scalar, FuncDomain::DbeSql, 7, Some(7), false));
    let t = t.push(spec_oracle_entry("dbe_sql.sql_set_tableof_results_type_c", FuncCategory::Scalar, FuncDomain::DbeSql, 7, Some(7), false));
    reveal_strlit("dbe_sql.sql_unregister_context");
    lemma_push_keeps_lower(t, spec_oracle_entry("dbe_sql.sql_unregister_context", FuncCategory::Scalar, FuncDomain::DbeSql, 1, Some(1), false));
    let t = t.push(spec_oracle_entry("dbe_sql.sql_unregister_context", FuncCategory::Scalar, FuncDomain::DbeSql, 1, Some(1), false));
    reveal_strlit("dbe_sql_util.create_abort_sql_patch");
    lemma_push_keeps_lower(t, spec_oracle_entry("dbe_sql_util.create_abort_sql_patch", FuncCategory::Scalar, FuncDomain::DbeSqlUtil, 1, Some(3), false));
    let t = t.push(spec_oracle_entry("dbe_sql_util.create_abort_sql_patch", FuncCategory::Scalar, FuncDomain::DbeSqlUtil, 1, Some(3), false));
    reveal_strlit("dbe_sql_util.create_hint_sql_patch");
    lemma_push_keeps_lower(t, spec_oracle_entry("dbe_sql_util.create_hint_sql_patch", FuncCategory::Scalar, FuncDomain::DbeSqlUtil, 1, Some(3), false));
    let t = t.push(spec_oracle_entry("dbe_sql_util.create_hint_sql_patch", FuncCategory::Scalar, FuncDomain::DbeSqlUtil, 1, Some(3), false));
    reveal_strlit("dbe_sql_util.disable_sql_patch");
    lemma_push_keeps_lower(t, spec_oracle_entry("dbe_sql_util.disable_sql_patch", FuncCategory::Scalar, FuncDomain::DbeSqlUtil, 1, Some(1), false));
    let t = t.push(spec_oracle_entry("dbe_sql_util.disable_sql_patch", FuncCategory::Scalar, FuncDomain::DbeSqlUtil, 1, Some(1), false));
    reveal_strlit("dbe_sql_util.drop_sql_patch");
    lemma_push_keeps_lower(t, spec_oracle_entry("dbe_sql_util.drop_sql_patch", FuncCategory::Scalar, FuncDomain::DbeSqlUtil, 1, Some(1), false));
    let t = t.push(spec_oracle_entry("dbe_sql_util.drop_sql_patch", FuncCategory::Scalar, FuncDomain::DbeSqlUtil, 1, Some(1), false));
    reveal_strlit("dbe_sql_util.enable_sql_patch");
    lemma_push_keeps_lower(t, spec_oracle_entry("dbe_sql_util.enable_sql_patch", FuncCategory::Scalar, FuncDomain::DbeSqlUtil, 1, Some(1), false));
    let t = t.push(spec_oracle_entry("dbe_sql_util.enable_sql_patch", FuncCategory::Scalar, FuncDomain::DbeSqlUtil, 1, Some(1), false));
    reveal_strlit("dbe_sql_util.show_sql_patch");
    lemma_push_keeps_lower(t, spec_oracle_entry("dbe_sql_util.show_sql_patch", FuncCategory::Scalar, FuncDomain::DbeSqlUtil, 0, Some(1), false));
    let t = t.push(spec_oracle_entry("dbe_sql_util.show_sql_patch", FuncCategory::Scalar, FuncDomain::DbeSqlUtil, 0, Some(1), false));
    assert(t == table_chunk_3_6(s));
}

proof fn lemma_chunk_lower_3_7(s: Seq<FuncMeta>)
    requires
        names_lower(s),
    ensures
        names_lower(table_chunk_3_7(s)),
{
    let t = s;
    reveal_strlit("dbe_stats.get_stats_history_availability");
    lemma_push_keeps_lower(t, spec_oracle_entry("dbe_stats.get_stats_history_availability", FuncCategory::Scalar, FuncDomain::DbeStats, 0, Some(0), false));
    let t = t.push(spec_oracle_entry("dbe_stats.get_stats_history_availability", FuncCategory::Scalar, FuncDomain::DbeStats, 0, Some(0), false));
    reveal_strlit("dbe_stats.get_stats_history_retention");
    lemma_push_keeps_lower(t, spec_oracle_entry("dbe_stats.get_stats_history_retention", FuncCategory::Scalar, FuncDomain::DbeStats, 0, Some(0), false));
    let t = t.push(spec_oracle_entry("dbe_stats.get_stats_history_retention", FuncCategory::Scalar, FuncDomain::DbeStats, 0, Some(0), false));
    reveal_strlit("dbe_stats.lock_column_stats");
    lemma_push_keeps_lower(t, spec_oracle_entry("dbe_stats.lock_column_stats", FuncCategory::Scalar, FuncDomain::DbeStats, 3, Some(3), false));
    let t = t.push(spec_oracle_entry("dbe_stats.lock_column_stats", FuncCategory::Scalar, FuncDomain::DbeStats, 3, Some(3), false));
    reveal_strlit("dbe_stats.lock_partition_stats");
    lemma_push_keeps_lower(t, spec_oracle_entry("dbe_stats.lock_partition_stats", FuncCategory::Scalar, FuncDomain::DbeStats, 3, Some(3), false));
    let t = t.push(spec_oracle_entry("dbe_stats.lock_partition_stats", FuncCategory::Scalar, FuncDomain::DbeStats, 3, Some(3), false));
    reveal_strlit("dbe_stats.lock_schema_stats");
    lemma_push_keeps_lower(t, spec_oracle_entry("dbe_stats.lock_schema_stats", FuncCategory::Scalar, FuncDomain::DbeStats, 1, Some(1), false));
    let t = t.push(spec_oracle_entry("dbe_stats.lock_schema_stats", FuncCategory::Scalar, FuncDomain::DbeStats, 1, Some(1), false));
    reveal_strlit("dbe_stats.lock_table_stats");
    lemma_push_keeps_lower(t, spec_oracle_entry("dbe_stats.lock_table_stats", FuncCategory::Scalar, FuncDomain::DbeStats, 1, Some(1), false));
    let t = t.push(spec_oracle_entry("dbe_stats.lock_table_stats", FuncCategory::Scalar, FuncDomain::DbeStats, 1, Some(1), false));
    reveal_strlit("dbe_stats.purge_stats");
    lemma_push_keeps_lower(t, spec_oracle_entry("dbe_stats.purge_stats", FuncCategory::Scalar, FuncDomain::DbeStats, 1, Some(1), false));
    let t = t.push(spec_oracle_entry("dbe_stats.purge_stats", FuncCategory::Scalar, FuncDomain::DbeStats, 1, Some(1), false));
    reveal_strlit("dbe_stats.restore_column_stats");
    lemma_push_keeps_lower(t, spec_oracle_entry("dbe_stats.restore_column_stats", FuncCategory::Scalar, FuncDomain::DbeStats, 6, Some(6), false));
    let t = t.push(spec_oracle_entry("dbe_stats.restore_column_stats", FuncCategory::Scalar, FuncDomain::DbeStats, 6, Some(6), false));
    reveal_strlit("dbe_stats.restore_partition_stats");
    lemma_push_keeps_lower(t, spec_oracle_entry("dbe_stats.restore_partition_stats", FuncCategory::Scalar, FuncDomain::DbeStats, 6, Some(6), false));
    let t = t.push(spec_oracle_entry("dbe_stats.restore_partition_stats", FuncCategory::Scalar, FuncDomain::DbeStats, 6, Some(6), false));
    reveal_strlit("dbe_stats.restore_schema_stats");
    lemma_push_keeps_lower(t, spec_oracle_entry("dbe_stats.restore_schema_stats", FuncCategory::Scalar, FuncDomain::DbeStats, 4, Some(4), false));
    let t = t.push(spec_oracle_entry("dbe_stats.restore_schema_stats", FuncCategory::Scalar, FuncDomain::DbeStats, 4, Some(4), false));
    assert(t == table_chunk_3_7(s));
}

proof fn lemma_chunk_lower_3_8(s: Seq<FuncMeta>)
    requires
        names_lower(s),
    ensures
        names_lower(table_chunk_3_8(s)),
{
    let t = s;
    reveal_strlit("dbe_stats.restore_table_stats");
    lemma_push_keeps_lower(t, spec_oracle_entry("dbe_stats.restore_table_stats", FuncCategory::Scalar, FuncDomain::DbeStats, 5, Some(5), false));
    let t = t.push(spec_oracle_entry("dbe_stats.restore_table_stats", FuncCategory::Scalar, FuncDomain::DbeStats, 5, Some(5), false));
    reveal_strlit("dbe_stats.unlock_column_stats");
    lemma_push_keeps_lower(t, spec_oracle_entry("dbe_stats.unlock_column_stats", FuncCategory::Scalar, FuncDomain::DbeStats, 3, Some(3), false));
    let t = t.push(spec_oracle_entry("dbe_stats.unlock_column_stats", FuncCategory::Scalar, FuncDomain::DbeStats, 3, Some(3), false));
    reveal_strlit("dbe_stats.unlock_partition_stats");
    lemma_push_keeps_lower(t, spec_oracle_entry("dbe_stats.unlock_partition_stats", FuncCategory::Scalar, FuncDomain::DbeStats, 3, Some(3), false));
    let t = t.push(spec_oracle_entry("dbe_stats.unlock_partition_stats", FuncCategory::Scalar, FuncDomain::DbeStats, 3, Some(3), false));
    reveal_strlit("dbe_stats.unlock_schema_stats");
    lemma_push_keeps_lower(t, spec_oracle_entry("dbe_stats.unlock_schema_stats", FuncCategory::Scalar, FuncDomain::DbeStats, 1, Some(1), false));
    let t = t.push(spec_oracle_entry("dbe_stats.unlock_schema_stats", FuncCategory::Scalar, FuncDomain::DbeStats, 1, Some(1), false));
    reveal_strlit("dbe_stats.unlock_table_stats");
    lemma_push_keeps_lower(t, spec_oracle_entry("dbe_stats.unlock_table_stats", FuncCategory::Scalar, FuncDomain::DbeStats, 1, Some(1), false));
    let t = t.push(spec_oracle_entry("dbe_stats.unlock_table_stats", FuncCategory::Scalar, FuncDomain::DbeStats, 1, Some(1), false));
    reveal_strlit("dbe_task.cancel");
    lemma_push_keeps_lower(t, spec_oracle_entry("dbe_task.cancel", FuncCategory::Scalar, FuncDomain::DbeTask, 1, Some(1), false));
    let t = t.push(spec_oracle_entry("dbe_task.cancel", FuncCategory::Scalar, FuncDomain::DbeTask, 1, Some(1), false));
    reveal_strlit("dbe_task.change");
    lemma_push_keeps_lower(t, spec_oracle_entry("dbe_task.change", FuncCategory::Scalar, FuncDomain::DbeTask, 1, Some(4), false));
    let t = t.push(spec_oracle_entry("dbe_task.change", FuncCategory::Scalar, FuncDomain::DbeTask, 1, Some(4), false));
    reveal_strlit("dbe_task.content");
    lemma_push_keeps_lower(t, spec_oracle_entry("dbe_task.content", FuncCategory::Scalar, FuncDomain::DbeTask, 2, Some(2), false));
    let t = t.push(spec_oracle_entry("dbe_task.content", FuncCategory::Scalar, FuncDomain::DbeTask, 2, Some(2), false));
    reveal_strlit("dbe_task.finish");
    lemma_push_keeps_lower(t, spec_oracle_entry("dbe_task.finish", FuncCategory::Scalar, FuncDomain::DbeTask, 2, Some(3), false));
    let t = t.push(spec_oracle_entry("dbe_task.finish", FuncCategory::Scalar, FuncDomain::DbeTask, 2, Some(3), false));
    reveal_strlit("dbe_task.id_submit");
    lemma_push_keeps_lower(t, spec_oracle_entry("dbe_task.id_submit", FuncCategory::Scalar, FuncDomain::DbeTask, 2, Some(4), false));
    let t = t.push(spec_oracle_entry("dbe_task.id_submit", FuncCategory::Scalar, FuncDomain::DbeTask, 2, Some(4), false));
    assert(t == table_chunk_3_8(s));
}

proof fn lemma_chunk_lower_3_9(s: Seq<FuncMeta>)
    requires
        names_lower(s),
    ensures
        names_lower(table_chunk_3_9(s)),
{
    let t = s;
    reveal_strlit("dbe_task.interval");
    lemma_push_keeps_lower(t, spec_oracle_entry("dbe_task.interval", FuncCategory::Scalar, FuncDomain::DbeTask, 2, Some(2), false));
    let t = t.push(spec_oracle_entry("dbe_task.interval", FuncCategory::Scalar, FuncDomain::DbeTask, 2, Some(2), false));
    reveal_strlit("dbe_task.job_submit");
    lemma_push_keeps_lower(t, spec_oracle_entry("dbe_task.job_submit", FuncCategory::Scalar, FuncDomain::DbeTask, 1, Some(3), false));
    let t = t.push(spec_oracle_entry("dbe_task.job_submit", FuncCategory::Scalar, FuncDomain::DbeTask, 1, Some(3), false));
    reveal_strlit("dbe_task.next_time");
    lemma_push_keeps_lower(t, spec_oracle_entry("dbe_task.next_time", FuncCategory::Scalar, FuncDomain::DbeTask, 2, Some(2), false));
    let t = t.push(spec_oracle_entry("dbe_task.next_time", FuncCategory::Scalar, FuncDomain::DbeTask, 2, Some(2), false));
    reveal_strlit("dbe_task.run");
    lemma_push_keeps_lower(t, spec_oracle_entry("dbe_task.run", FuncCategory::Scalar, FuncDomain::DbeTask, 1, Some(2), false));
    let t = t.push(spec_oracle_entry("dbe_task.run", FuncCategory::Scalar, FuncDomain::DbeTask, 1, Some(2), false));
    reveal_strlit("dbe_task.submit");
    lemma_push_keeps_lower(t, spec_oracle_entry("dbe_task.submit", FuncCategory::Scalar, FuncDomain::DbeTask, 1, Some(4), false));
    let t = t.push(spec_oracle_entry("dbe_task.submit", FuncCategory::Scalar, FuncDomain::DbeTask, 1, Some(4), false));
    reveal_strlit("dbe_task.update");
    lemma_push_keeps_lower(t, spec_oracle_entry("dbe_task.update", FuncCategory::Scalar, FuncDomain::DbeTask, 4, Some(4), false));
    let t = t.push(spec_oracle_entry("dbe_task.update", FuncCategory::Scalar, FuncDomain::DbeTask, 4, Some(4), false));
    reveal_strlit("dbe_utility.canonicalize");
    lemma_push_keeps_lower(t, spec_oracle_entry("dbe_utility.canonicalize", FuncCategory::Scalar, FuncDomain::DbeUtility, 2, Some(3), false));
    let t = t.push(spec_oracle_entry("dbe_utility.canonicalize", FuncCategory::Scalar, FuncDomain::DbeUtility, 2, Some(3), false));
    reveal_strlit("dbe_utility.comma_to_table");
    lemma_push_keeps_lower(t, spec_oracle_entry("dbe_utility.comma_to_table", FuncCategory::Scalar, FuncDomain::DbeUtility, 3, Some(3), false));
    let t = t.push(spec_oracle_entry("dbe_utility.comma_to_table", FuncCategory::Scalar, FuncDomain::DbeUtility, 3, Some(3), false));
    reveal_strlit("dbe_utility.compile_schema");
    lemma_push_keeps_lower(t, spec_oracle_entry("dbe_utility.compile_schema", FuncCategory::Scalar, FuncDomain::DbeUtility, 1, Some(3), false));
    let t = t.push(spec_oracle_entry("dbe_utility.compile_schema", FuncCategory::Scalar, FuncDomain::DbeUtility, 1, Some(3), false));
    reveal_strlit("dbe_utility.db_version");
    lemma_push_keeps_lower(t, spec_oracle_entry("dbe_utility.db_version", FuncCategory::Scalar, FuncDomain::DbeUtility, 1, Some(1), false));
    let t = t.push(spec_oracle_entry("dbe_utility.db_version", FuncCategory::Scalar, FuncDomain::DbeUtility, 1, Some(1), false));
    assert(t == table_chunk_3_9(s));
}

proof fn lemma_chunk_lower_3_10(s: Seq<FuncMeta>)
    requires
        names_lower(s),
    ensures
        names_lower(table_chunk_3_10(s)),
{
    let t = s;
    reveal_strlit("dbe_utility.exec_ddl_statement");
    lemma_push_keeps_lower(t, spec_oracle_entry("dbe_utility.exec_ddl_statement", FuncCategory::Scalar, FuncDomain::DbeUtility, 1, Some(1), false));
    let t = t.push(spec_oracle_entry("dbe_utility.exec_ddl_statement", FuncCategory::Scalar, FuncDomain::DbeUtility, 1, Some(1), false));
    reveal_strlit("dbe_utility.expand_sql_text_proc");
    lemma_push_keeps_lower(t, spec_oracle_entry("dbe_utility.expand_sql_text_proc", FuncCategory::Scalar, FuncDomain::DbeUtility, 2, Some(2), false));
    let t = t.push(spec_oracle_entry("dbe_utility.expand_sql_text_proc", FuncCategory::Scalar, FuncDomain::DbeUtility, 2, Some(2), false));
    reveal_strlit("dbe_utility.format_call_stack");
    lemma_push_keeps_lower(t, spec_oracle_entry("dbe_utility.format_call_stack", FuncCategory::Scalar, FuncDomain::DbeUtility, 0, Some(0), false));
    let t = t.push(spec_oracle_entry("dbe_utility.format_call_stack", FuncCategory::Scalar, FuncDomain::DbeUtility, 0, Some(0), false));
    reveal_strlit("dbe_utility.format_error_backtrace");
    lemma_push_keeps_lower(t, spec_oracle_entry("dbe_utility.format_error_backtrace", FuncCategory::Scalar, FuncDomain::DbeUtility, 0, Some(0), false));
    let t = t.push(spec_oracle_entry("dbe_utility.format_error_backtrace", FuncCategory::Scalar, FuncDomain::DbeUtility, 0, Some(0), false));
    reveal_strlit("dbe_utility.format_error_stack");
    lemma_push_keeps_lower(t, spec_oracle_entry("dbe_utility.format_error_stack", FuncCategory::Scalar, FuncDomain::DbeUtility, 0, Some(0), false));
    let t = t.push(spec_oracle_entry("dbe_utility.format_error_stack", FuncCategory::Scalar, FuncDomain::DbeUtility, 0, Some(0), false));
    reveal_strlit("dbe_utility.get_cpu_time");
    lemma_push_keeps_lower(t, spec_oracle_entry("dbe_utility.get_cpu_time", FuncCategory::Scalar, FuncDomain::DbeUtility, 0, Some(0), false));
    let t = t.push(spec_oracle_entry("dbe_utility.get_cpu_time", FuncCategory::Scalar, FuncDomain::DbeUtility, 0, Some(0), false));
    reveal_strlit("dbe_utility.get_endianness");
    lemma_push_keeps_lower(t, spec_oracle_entry("dbe_utility.get_endianness", FuncCategory::Scalar, FuncDomain::DbeUtility, 0, Some(0), false));
    let t = t.push(spec_oracle_entry("dbe_utility.get_endianness", FuncCategory::Scalar, FuncDomain::DbeUtility, 0, Some(0), false));
    reveal_strlit("dbe_utility.get_hash_value");
    lemma_push_keeps_lower(t, spec_oracle_entry("dbe_utility.get_hash_value", FuncCategory::Scalar, FuncDomain::DbeUtility, 3, Some(3), false));
    let t = t.push(spec_oracle_entry("dbe_utility.get_hash_value", FuncCategory::Scalar, FuncDomain::DbeUtility, 3, Some(3), false));
    reveal_strlit("dbe_utility.get_sql_hash");
    lemma_push_keeps_lower(t, spec_oracle_entry("dbe_utility.get_sql_hash", FuncCategory::Scalar, FuncDomain::DbeUtility, 3, Some(3), false));
    let t = t.push(spec_oracle_entry("dbe_utility.get_sql_hash", FuncCategory::Scalar, FuncDomain::DbeUtility, 3, Some(3), false));
    reveal_strlit("dbe_utility.get_sql_hash_func");
    lemma_push_keeps_lower(t, spec_oracle_entry("dbe_utility.get_sql_hash_func", FuncCategory::Scalar, FuncDomain::DbeUtility, 3, Some(3), false));
    let t = t.push(spec_oracle_entry("dbe_utility.get_sql_hash_func", FuncCategory::Scalar, FuncDomain::DbeUtility, 3, Some(3), false));
    assert(t == table_chunk_3_10(s));
}

proof fn lemma_chunk_lower_3_11(s: Seq<FuncMeta>)
    requires
        names_lower(s),
    ensures
        names_lower(table_chunk_3_11(s)),
{
    let t = s;
    reveal_strlit("dbe_utility.get_time");
    lemma_push_keeps_lower(t, spec_oracle_entry("dbe_utility.get_time", FuncCategory::Scalar, FuncDomain::DbeUtility, 0, Some(0), false));
    let t = t.push(spec_oracle_entry("dbe_utility.get_time", FuncCategory::Scalar, FuncDomain::DbeUtility, 0, Some(0), false));
    reveal_strlit("dbe_utility.is_bit_set");
    lemma_push_keeps_lower(t, spec_oracle_entry("dbe_utility.is_bit_set", FuncCategory::Scalar, FuncDomain::DbeUtility, 2, Some(2), false));
    let t = t.push(spec_oracle_entry("dbe_utility.is_bit_set", FuncCategory::Scalar, FuncDomain::DbeUtility, 2, Some(2), false));
    reveal_strlit("dbe_utility.is_cluster_database");
    lemma_push_keeps_lower(t, spec_oracle_entry("dbe_utility.is_cluster_database", FuncCategory::Scalar, FuncDomain::DbeUtility, 0, Some(0), false));
    let t = t.push(spec_oracle_entry("dbe_utility.is_cluster_database", FuncCategory::Scalar, FuncDomain::DbeUtility, 0, Some(0), false));
    reveal_strlit("dbe_utility.name_resolve");
    lemma_push_keeps_lower(t, spec_oracle_entry("dbe_utility.name_resolve", FuncCategory::Scalar, FuncDomain::DbeUtility, 8, Some(8), false));
    let t = t.push(spec_oracle_entry("dbe_utility.name_resolve", FuncCategory::Scalar, FuncDomain::DbeUtility, 8, Some(8), false));
    reveal_strlit("dbe_utility.name_tokenize");
    lemma_push_keeps_lower(t, spec_oracle_entry("dbe_utility.name_tokenize", FuncCategory::Scalar, FuncDomain::DbeUtility, 6, Some(6), false));
    let t = t.push(spec_oracle_entry("dbe_utility.name_tokenize", FuncCategory::Scalar, FuncDomain::DbeUtility, 6, Some(6), false));
    reveal_strlit("dbe_utility.old_current_schema");
    lemma_push_keeps_lower(t, spec_oracle_entry("dbe_utility.old_current_schema", FuncCategory::Scalar, FuncDomain::DbeUtility, 0, Some(0), false));
    let t = t.push(spec_oracle_entry("dbe_utility.old_current_schema", FuncCategory::Scalar, FuncDomain::DbeUtility, 0, Some(0), false));
    reveal_strlit("dbe_utility.old_current_user");
    lemma_push_keeps_lower(t, spec_oracle_entry("dbe_utility.old_current_user", FuncCategory::Scalar, FuncDomain::DbeUtility, 0, Some(0), false));
    let t = t.push(spec_oracle_entry("dbe_utility.old_current_user", FuncCategory::Scalar, FuncDomain::DbeUtility, 0, Some(0), false));
    reveal_strlit("dbe_utility.table_to_comma");
    lemma_push_keeps_lower(t, spec_oracle_entry("dbe_utility.table_to_comma", FuncCategory::Scalar, FuncDomain::DbeUtility, 3, Some(3), false));
    let t = t.push(spec_oracle_entry("dbe_utility.table_to_comma", FuncCategory::Scalar, FuncDomain::DbeUtility, 3, Some(3), false));
    reveal_strlit("dbe_xmldom.appendchild");
    lemma_push_keeps_lower(t, spec_commercial_oracle_entry("dbe_xmldom.appendchild", FuncCategory::Scalar, FuncDomain::DbeXmlDom, 2, Some(2), false));
    let t = t.push(spec_commercial_oracle_entry("dbe_xmldom.appendchild", FuncCategory::Scalar, FuncDomain::DbeXmlDom, 2, Some(2), false));
    reveal_strlit("dbe_xmldom.createelement");
    lemma_push_keeps_lower(t, spec_commercial_oracle_entry("dbe_xmldom.createelement", FuncCategory::Scalar, FuncDomain::DbeXmlDom, 2, Some(3), false));
    let t = t.push(spec_commercial_oracle_entry("dbe_xmldom.createelement", FuncCategory::Scalar, FuncDomain::DbeXmlDom, 2, Some(3), false));
    assert(t == table_chunk_3_11(s));
}

proof fn lemma_chunk_lower_3_12(s: Seq<FuncMeta>)
    requires
        names_lower(s),
    ensures
        names_lower(table_chunk_3_12(s)),
{
    let t = s;
    reveal_strlit("dbe_xmldom.createtextnode");
    lemma_push_keeps_lower(t, spec_commercial_oracle_entry("dbe_xmldom.createtextnode", FuncCategory::Scalar, FuncDomain::DbeXmlDom, 2, Some(2), false));
    let t = t.push(spec_commercial_oracle_entry("dbe_xmldom.createtextnode", FuncCategory::Scalar, FuncDomain::DbeXmlDom, 2, Some(2), false));
    reveal_strlit("dbe_xmldom.freedocument");
    lemma_push_keeps_lower(t, spec_commercial_oracle_entry("dbe_xmldom.freedocument", FuncCategory::Scalar, FuncDomain::DbeXmlDom, 1, Some(1), false));
    let t = t.push(spec_commercial_oracle_entry("dbe_xmldom.freedocument", FuncCategory::Scalar, FuncDomain::DbeXmlDom, 1, Some(1), false));
    reveal_strlit("dbe_xmldom.freeelement");
    lemma_push_keeps_lower(t, spec_commercial_oracle_entry("dbe_xmldom.freeelement", FuncCategory::Scalar, FuncDomain::DbeXmlDom, 1, Some(1), false));
    let t = t.push(spec_commercial_oracle_entry("dbe_xmldom.freeelement", FuncCategory::Scalar, FuncDomain::DbeXmlDom, 1, Some(1), false));
    reveal_strlit("dbe_xmldom.freenode");
    lemma_push_keeps_lower(t, spec_commercial_oracle_entry("dbe_xmldom.freenode", FuncCategory::Scalar, FuncDomain::DbeXmlDom, 1, Some(1), false));
    let t = t.push(spec_commercial_oracle_entry("dbe_xmldom.freenode", FuncCategory::Scalar, FuncDomain::DbeXmlDom, 1, Some(1), false));
    reveal_strlit("dbe_xmldom.freenodelist");
    lemma_push_keeps_lower(t, spec_commercial_oracle_entry("dbe_xmldom.freenodelist", FuncCategory::Scalar, FuncDomain::DbeXmlDom, 1, Some(1), false));
    let t = t.push(spec_commercial_oracle_entry("dbe_xmldom.freenodelist", FuncCategory::Scalar, FuncDomain::DbeXmlDom, 1, Some(1), false));
    assert(t == table_chunk_3_12(s));
}

proof fn lemma_part_3_lower(s: Seq<FuncMeta>)
    requires
        names_lower(s),
    ensures
        names_lower(table_part_3(s)),
{
    lemma_chunk_lower_3_0(s);
    let t0 = table_chunk_3_0(s);
    lemma_chunk_lower_3_1(t0);
    let t1 = table_chunk_3_1(t0);
    lemma_chunk_lower_3_2(t1);
    let t2 = table_chunk_3_2(t1);
    lemma_chunk_lower_3_3(t2);
    let t3 = table_chunk_3_3(t2);
    lemma_chunk_lower_3_4(t3);
    let t4 = table_chunk_3_4(t3);
    lemma_chunk_lower_3_5(t4);
    let t5 = table_chunk_3_5(t4);
    lemma_chunk_lower_3_6(t5);
    let t6 = table_chunk_3_6(t5);
    lemma_chunk_lower_3_7(t6);
    let t7 = table_chunk_3_7(t6);
    lemma_chunk_lower_3_8(t7);
    let t8 = table_chunk_3_8(t7);
    lemma_chunk_lower_3_9(t8);
    let t9 = table_chunk_3_9(t8);
    lemma_chunk_lower_3_10(t9);
    let t10 = table_chunk_3_10(t9);
    lemma_chunk_lower_3_11(t10);
    let t11 = table_chunk_3_11(t10);
    lemma_chunk_lower_3_12(t11);
    let t12 = table_chunk_3_12(t11);
    assert(t12 == table_part_3(s));
}

proof fn lemma_chunk_lower_4_0(s: Seq<FuncMeta>)
    requires
        names_lower(s),
    ensures
        names_lower(table_chunk_4_0(s)),
{
    let t = s;
    reveal_strlit("dbe_xmldom.getattribute");
    lemma_push_keeps_lower(t, spec_commercial_oracle_entry("dbe_xmldom.getattribute", FuncCategory::Scalar, FuncDomain::DbeXmlDom, 2, Some(3), false));
    let t = t.push(spec_commercial_oracle_entry("dbe_xmldom.getattribute", FuncCategory::Scalar, FuncDomain::DbeXmlDom, 2, Some(3), false));
    reveal_strlit("dbe_xmldom.getattributes");
    lemma_push_keeps_lower(t, spec_commercial_oracle_entry("dbe_xmldom.getattributes", FuncCategory::Scalar, FuncDomain::DbeXmlDom, 1, Some(1), false));
    let t = t.push(spec_commercial_oracle_entry("dbe_xmldom.getattributes", FuncCategory::Scalar, FuncDomain::DbeXmlDom, 1, Some(1), false));
    reveal_strlit("dbe_xmldom.getchildnodes");
    lemma_push_keeps_lower(t, spec_commercial_oracle_entry("dbe_xmldom.getchildnodes", FuncCategory::Scalar, FuncDomain::DbeXmlDom, 1, Some(1), false));
    let t = t.push(spec_commercial_oracle_entry("dbe_xmldom.getchildnodes", FuncCategory::Scalar, FuncDomain::DbeXmlDom, 1, Some(1), false));
    reveal_strlit("dbe_xmldom.getchildrenbytagname");
    lemma_push_keeps_lower(t, spec_commercial_oracle_entry("dbe_xmldom.getchildrenbytagname", FuncCategory::Scalar, FuncDomain::DbeXmlDom, 2, Some(3), false));
    let t = t.push(spec_commercial_oracle_entry("dbe_xmldom.getchildrenbytagname", FuncCategory::Scalar, FuncDomain::DbeXmlDom, 2, Some(3), false));
    reveal_strlit("dbe_xmldom.getdocumentelement");
    lemma_push_keeps_lower(t, spec_commercial_oracle_entry("dbe_xmldom.getdocumentelement", FuncCategory::Scalar, FuncDomain::DbeXmlDom, 1, Some(1), false));
    let t = t.push(spec_commercial_oracle_entry("dbe_xmldom.getdocumentelement", FuncCategory::Scalar, FuncDomain::DbeXmlDom, 1, Some(1), false));
    reveal_strlit("dbe_xmldom.getfirstchild");
    lemma_push_keeps_lower(t, spec_commercial_oracle_entry("dbe_xmldom.getfirstchild", FuncCategory::Scalar, FuncDomain::DbeXmlDom, 1, Some(1), false));
    let t = t.push(spec_commercial_oracle_entry("dbe_xmldom.getfirstchild", FuncCategory::Scalar, FuncDomain::DbeXmlDom, 1, Some(1), false));
    reveal_strlit("dbe_xmldom.getlastchild");
    lemma_push_keeps_lower(t, spec_commercial_oracle_entry("dbe_xmldom.getlastchild", FuncCategory::Scalar, FuncDomain::DbeXmlDom, 1, Some(1), false));
    let t = t.push(spec_commercial_oracle_entry("dbe_xmldom.getlastchild", FuncCategory::Scalar, FuncDomain::DbeXmlDom, 1, Some(1), false));
    reveal_strlit("dbe_xmldom.getlength");
    lemma_push_keeps_lower(t, spec_commercial_oracle_entry("dbe_xmldom.getlength", FuncCategory::Scalar, FuncDomain::DbeXmlDom, 1, Some(1), false));
    let t = t.push(spec_commercial_oracle_entry("dbe_xmldom.getlength", FuncCategory::Scalar, FuncDomain::DbeXmlDom, 1, Some(1), false));
    reveal_strlit("dbe_xmldom.getlocalname");
    lemma_push_keeps_lower(t, spec_commercial_oracle_entry("dbe_xmldom.getlocalname", FuncCategory::Scalar, FuncDomain::DbeXmlDom, 1, Some(2), false));
    let t = t.push(spec_commercial_oracle_entry("dbe_xmldom.getlocalname", FuncCategory::Scalar, FuncDomain::DbeXmlDom, 1, Some(2), false));
    reveal_strlit("dbe_xmldom.getnameditem");
    lemma_push_keeps_lower(t, spec_commercial_oracle_entry("dbe_xmldom.getnameditem", FuncCategory::Scalar, FuncDomain::DbeXmlDom, 2, Some(3), false));
    let t = t.push(spec_commercial_oracle_entry("dbe_xmldom.getnameditem", FuncCategory::Scalar, FuncDomain::DbeXmlDom, 2, Some(3), false));
    assert(t == table_chunk_4_0(s));
}

proof fn lemma_chunk_lower_4_1(s: Seq<FuncMeta>)
    requires
        names_lower(s),
    ensures
        names_lower(table_chunk_4_1(s)),
{
    let t = s;
    reveal_strlit("dbe_xmldom.getnextsibling");
    lemma_push_keeps_lower(t, spec_commercial_oracle_entry("dbe_xmldom.getnextsibling", FuncCategory::Scalar, FuncDomain::DbeXmlDom, 1, Some(1), false));
    let t = t.push(spec_commercial_oracle_entry("dbe_xmldom.getnextsibling", FuncCategory::Scalar, FuncDomain::DbeXmlDom, 1, Some(1), false));
    reveal_strlit("dbe_xmldom.getnodename");
    lemma_push_keeps_lower(t, spec_commercial_oracle_entry("dbe_xmldom.getnodename", FuncCategory::Scalar, FuncDomain::DbeXmlDom, 1, Some(1), false));
    let t = t.push(spec_commercial_oracle_entry("dbe_xmldom.getnodename", FuncCategory::Scalar, FuncDomain::DbeXmlDom, 1, Some(1), false));
    reveal_strlit("dbe_xmldom.getnodetype");
    lemma_push_keeps_lower(t, spec_commercial_oracle_entry("dbe_xmldom.getnodetype", FuncCategory::Scalar, FuncDomain::DbeXmlDom, 1, Some(1), false));
    let t = t.push(spec_commercial_oracle_entry("dbe_xmldom.getnodetype", FuncCategory::Scalar, FuncDomain::DbeXmlDom, 1, Some(1), false));
    reveal_strlit("dbe_xmldom.getnodevalue");
    lemma_push_keeps_lower(t, spec_commercial_oracle_entry("dbe_xmldom.getnodevalue", FuncCategory::Scalar, FuncDomain::DbeXmlDom, 1, Some(1), false));
    let t = t.push(spec_commercial_oracle_entry("dbe_xmldom.getnodevalue", FuncCategory::Scalar, FuncDomain::DbeXmlDom, 1, Some(1), false));
    reveal_strlit("dbe_xmldom.getparentnode");
    lemma_push_keeps_lower(t, spec_commercial_oracle_entry("dbe_xmldom.getparentnode", FuncCategory::Scalar, FuncDomain::DbeXmlDom, 1, Some(1), false));
    let t = t.push(spec_commercial_oracle_entry("dbe_xmldom.getparentnode", FuncCategory::Scalar, FuncDomain::DbeXmlDom, 1, Some(1), false));
    reveal_strlit("dbe_xmldom.gettagname");
    lemma_push_keeps_lower(t, spec_commercial_oracle_entry("dbe_xmldom.gettagname", FuncCategory::Scalar, FuncDomain::DbeXmlDom, 1, Some(1), false));
    let t = t.push(spec_commercial_oracle_entry("dbe_xmldom.gettagname", FuncCategory::Scalar, FuncDomain::DbeXmlDom, 1, Some(1), false));
    reveal_strlit("dbe_xmldom.haschildnodes");
    lemma_push_keeps_lower(t, spec_commercial_oracle_entry("dbe_xmldom.haschildnodes", FuncCategory::Scalar, FuncDomain::DbeXmlDom, 1, Some(1), false));
    let t = t.push(spec_commercial_oracle_entry("dbe_xmldom.haschildnodes", FuncCategory::Scalar, FuncDomain::DbeXmlDom, 1, Some(1), false));
    reveal_strlit("dbe_xmldom.importnode");
    lemma_push_keeps_lower(t, spec_commercial_oracle_entry("dbe_xmldom.importnode", FuncCategory::Scalar, FuncDomain::DbeXmlDom, 3, Some(3), false));
    let t = t.push(spec_commercial_oracle_entry("dbe_xmldom.importnode", FuncCategory::Scalar, FuncDomain::DbeXmlDom, 3, Some(3), false));
    reveal_strlit("dbe_xmldom.isnull");
    lemma_push_keeps_lower(t, spec_commercial_oracle_entry("dbe_xmldom.isnull", FuncCategory::Scalar, FuncDomain::DbeXmlDom, 1, Some(1), false));
    let t = t.push(spec_commercial_oracle_entry("dbe_xmldom.isnull", FuncCategory::Scalar, FuncDomain::DbeXmlDom, 1, Some(1), false));
    reveal_strlit("dbe_xmldom.item");
    lemma_push_keeps_lower(t, spec_commercial_oracle_entry("dbe_xmldom.item", FuncCategory::Scalar, FuncDomain::DbeXmlDom, 2, Some(2), false));
    let t = t.push(spec_commercial_oracle_entry("dbe_xmldom.item", FuncCategory::Scalar, FuncDomain::DbeXmlDom, 2, Some(2), false));
    assert(t == table_chunk_4_1(s));
}

proof fn lemma_chunk_lower_4_2(s: Seq<FuncMeta>)
    requires
        names_lower(s),
    ensures
        names_lower(table_chunk_4_2(s)),
{
    let t = s;
    reveal_strlit("dbe_xmldom.makeelement");
    lemma_push_keeps_lower(t, spec_commercial_oracle_entry("dbe_xmldom.makeelement", FuncCategory::Scalar, FuncDomain::DbeXmlDom, 1, Some(1), false));
    let t = t.push(spec_commercial_oracle_entry("dbe_xmldom.makeelement", FuncCategory::Scalar, FuncDomain::DbeXmlDom, 1, Some(1), false));
    reveal_strlit("dbe_xmldom.makenode");
    lemma_push_keeps_lower(t, spec_commercial_oracle_entry("dbe_xmldom.makenode", FuncCategory::Scalar, FuncDomain::DbeXmlDom, 1, Some(1), false));
    let t = t.push(spec_commercial_oracle_entry("dbe_xmldom.makenode", FuncCategory::Scalar, FuncDomain::DbeXmlDom, 1, Some(1), false));
    reveal_strlit("dbe_xmldom.newdomdocument");
    lemma_push_keeps_lower(t, spec_commercial_oracle_entry("dbe_xmldom.newdomdocument", FuncCategory::Scalar, FuncDomain::DbeXmlDom, 0, Some(1), false));
    let t = t.push(spec_commercial_oracle_entry("dbe_xmldom.newdomdocument", FuncCategory::Scalar, FuncDomain::DbeXmlDom, 0, Some(1), false));
    reveal_strlit("dbe_xmldom.setattribute");
    lemma_push_keeps_lower(t, spec_commercial_oracle_entry("dbe_xmldom.setattribute", FuncCategory::Scalar, FuncDomain::DbeXmlDom, 2, Some(4), false));
    let t = t.push(spec_commercial_oracle_entry("dbe_xmldom.setattribute", FuncCategory::Scalar, FuncDomain::DbeXmlDom, 2, Some(4), false));
    reveal_strlit("dbe_xmldom.setcharset");
    lemma_push_keeps_lower(t, spec_commercial_oracle_entry("dbe_xmldom.setcharset", FuncCategory::Scalar, FuncDomain::DbeXmlDom, 2, Some(2), false));
    let t = t.push(spec_commercial_oracle_entry("dbe_xmldom.setcharset", FuncCategory::Scalar, FuncDomain::DbeXmlDom, 2, Some(2), false));
    reveal_strlit("dbe_xmldom.setdoctype");
    lemma_push_keeps_lower(t, spec_commercial_oracle_entry("dbe_xmldom.setdoctype", FuncCategory::Scalar, FuncDomain::DbeXmlDom, 2, Some(2), false));
    let t = t.push(spec_commercial_oracle_entry("dbe_xmldom.setdoctype", FuncCategory::Scalar, FuncDomain::DbeXmlDom, 2, Some(2), false));
    reveal_strlit("dbe_xmldom.setnodevalue");
    lemma_push_keeps_lower(t, spec_commercial_oracle_entry("dbe_xmldom.setnodevalue", FuncCategory::Scalar, FuncDomain::DbeXmlDom, 2, Some(2), false));
    let t = t.push(spec_commercial_oracle_entry("dbe_xmldom.setnodevalue", FuncCategory::Scalar, FuncDomain::DbeXmlDom, 2, Some(2), false));
    reveal_strlit("dbe_xmldom.writetobuffer");
    lemma_push_keeps_lower(t, spec_commercial_oracle_entry("dbe_xmldom.writetobuffer", FuncCategory::Scalar, FuncDomain::DbeXmlDom, 2, Some(2), false));
    let t = t.push(spec_commercial_oracle_entry("dbe_xmldom.writetobuffer", FuncCategory::Scalar, FuncDomain::DbeXmlDom, 2, Some(2), false));
    reveal_strlit("dbe_xmldom.writetoclob");
    lemma_push_keeps_lower(t, spec_commercial_oracle_entry("dbe_xmldom.writetoclob", FuncCategory::Scalar, FuncDomain::DbeXmlDom, 2, Some(2), false));
    let t = t.push(spec_commercial_oracle_entry("dbe_xmldom.writetoclob", FuncCategory::Scalar, FuncDomain::DbeXmlDom, 2, Some(2), false));
    reveal_strlit("dbe_xmlparser.freeparser");
    lemma_push_keeps_lower(t, spec_commercial_oracle_entry("dbe_xmlparser.freeparser", FuncCategory::Scalar, FuncDomain::DbeXmlParser, 1, Some(1), false));
    let t = t.push(spec_commercial_oracle_entry("dbe_xmlparser.freeparser", FuncCategory::Scalar, FuncDomain::DbeXmlParser, 1, Some(1), false));
    assert(t == table_chunk_4_2(s));
}

proof fn lemma_chunk_lower_4_3(s: Seq<FuncMeta>)
    requires
        names_lower(s),
    ensures
        names_lower(table_chunk_4_3(s)),
{
    let t = s;
    reveal_strlit("dbe_xmlparser.getdocument");
    lemma_push_keeps_lower(t, spec_commercial_oracle_entry("dbe_xmlparser.getdocument", FuncCategory::Scalar, FuncDomain::DbeXmlParser, 1, Some(1), false));
    let t = t.push(spec_commercial_oracle_entry("dbe_xmlparser.getdocument", FuncCategory::Scalar, FuncDomain::DbeXmlParser, 1, Some(1), false));
    reveal_strlit("dbe_xmlparser.getvalidationmode");
    lemma_push_keeps_lower(t, spec_commercial_oracle_entry("dbe_xmlparser.getvalidationmode", FuncCategory::Scalar, FuncDomain::DbeXmlParser, 1, Some(1), false));
    let t = t.push(spec_commercial_oracle_entry("dbe_xmlparser.getvalidationmode", FuncCategory::Scalar, FuncDomain::DbeXmlParser, 1, Some(1), false));
    reveal_strlit("dbe_xmlparser.newparser");
    lemma_push_keeps_lower(t, spec_commercial_oracle_entry("dbe_xmlparser.newparser", FuncCategory::Scalar, FuncDomain::DbeXmlParser, 0, Some(0), false));
    let t = t.push(spec_commercial_oracle_entry("dbe_xmlparser.newparser", FuncCategory::Scalar, FuncDomain::DbeXmlParser, 0, Some(0), false));
    reveal_strlit("dbe_xmlparser.parsebuffer");
    lemma_push_keeps_lower(t, spec_commercial_oracle_entry("dbe_xmlparser.parsebuffer", FuncCategory::Scalar, FuncDomain::DbeXmlParser, 2, Some(2), false));
    let t = t.push(spec_commercial_oracle_entry("dbe_xmlparser.parsebuffer", FuncCategory::Scalar, FuncDomain::DbeXmlParser, 2, Some(2), false));
    reveal_strlit("dbe_xmlparser.parseclob");
    lemma_push_keeps_lower(t, spec_commercial_oracle_entry("dbe_xmlparser.parseclob", FuncCategory::Scalar, FuncDomain::DbeXmlParser, 2, Some(2), false));
    let t = t.push(spec_commercial_oracle_entry("dbe_xmlparser.parseclob", FuncCategory::Scalar, FuncDomain::DbeXmlParser, 2, Some(2), false));
    reveal_strlit("dbe_xmlparser.setvalidationmode");
    lemma_push_keeps_lower(t, spec_commercial_oracle_entry("dbe_xmlparser.setvalidationmode", FuncCategory::Scalar, FuncDomain::DbeXmlParser, 2, Some(2), false));
    let t = t.push(spec_commercial_oracle_entry("dbe_xmlparser.setvalidationmode", FuncCategory::Scalar, FuncDomain::DbeXmlParser, 2, Some(2), false));
    reveal_strlit("dbms_lob.append");
    lemma_push_keeps_lower(t, spec_oracle_entry("dbms_lob.append", FuncCategory::Scalar, FuncDomain::DbmsLob, 2, Some(2), false));
    let t = t.push(spec_oracle_entry("dbms_lob.append", FuncCategory::Scalar, FuncDomain::DbmsLob, 2, Some(2), false));
    reveal_strlit("dbms_lob.read");
    lemma_push_keeps_lower(t, spec_oracle_entry("dbms_lob.read", FuncCategory::Scalar, FuncDomain::DbmsLob, 3, Some(3), false));
    let t = t.push(spec_oracle_entry("dbms_lob.read", FuncCategory::Scalar, FuncDomain::DbmsLob, 3, Some(3), false));
    reveal_strlit("dbms_lob.substr");
    lemma_push_keeps_lower(t, spec_oracle_entry("dbms_lob.substr", FuncCategory::Scalar, FuncDomain::DbmsLob, 1, Some(3), false));
    let t = t.push(spec_oracle_entry("dbms_lob.substr", FuncCategory::Scalar, FuncDomain::DbmsLob, 1, Some(3), false));
    reveal_strlit("dbms_lob.write");
    lemma_push_keeps_lower(t, spec_oracle_entry("dbms_lob.write", FuncCategory::Scalar, FuncDomain::DbmsLob, 3, Some(3), false));
    let t = t.push(spec_oracle_entry("dbms_lob.write", FuncCategory::Scalar, FuncDomain::DbmsLob, 3, Some(3), false));
    assert(t == table_chunk_4_3(s));
}

proof fn lemma_chunk_lower_4_4(s: Seq<FuncMeta>)
    requires
        names_lower(s),
    ensures
        names_lower(table_chunk_4_4(s)),
{
    let t = s;
    reveal_strlit("dbms_output.disable");
    lemma_push_keeps_lower(t, spec_oracle_entry("dbms_output.disable", FuncCategory::Scalar, FuncDomain::DbmsOutput, 0, Some(0), false));
    let t = t.push(spec_oracle_entry("dbms_output.disable", FuncCategory::Scalar, FuncDomain::DbmsOutput, 0, Some(0), false));
    reveal_strlit("dbms_output.enable");
    lemma_push_keeps_lower(t, spec_oracle_entry("dbms_output.enable", FuncCategory::Scalar, FuncDomain::DbmsOutput, 0, Some(1), false));
    let t = t.push(spec_oracle_entry("dbms_output.enable", FuncCategory::Scalar, FuncDomain::DbmsOutput, 0, Some(1), false));
    reveal_strlit("dbms_output.put");
    lemma_push_keeps_lower(t, spec_oracle_entry("dbms_output.put", FuncCategory::Scalar, FuncDomain::DbmsOutput, 1, Some(1), false));
    let t = t.push(spec_oracle_entry("dbms_output.put", FuncCategory::Scalar, FuncDomain::DbmsOutput, 1, Some(1), false));
    reveal_strlit("dbms_output.put_line");
    lemma_push_keeps_lower(t, spec_oracle_entry("dbms_output.put_line", FuncCategory::Scalar, FuncDomain::DbmsOutput, 1, Some(1), false));
    let t = t.push(spec_oracle_entry("dbms_output.put_line", FuncCategory::Scalar, FuncDomain::DbmsOutput, 1, Some(1), false));
    reveal_strlit("dbms_scheduler.create_job");
    lemma_push_keeps_lower(t, spec_oracle_entry("dbms_scheduler.create_job", FuncCategory::Scalar, FuncDomain::DbmsScheduler, 1, None, false));
    let t = t.push(spec_oracle_entry("dbms_scheduler.create_job", FuncCategory::Scalar, FuncDomain::DbmsScheduler, 1, None, false));
    reveal_strlit("dbms_scheduler.drop_job");
    lemma_push_keeps_lower(t, spec_oracle_entry("dbms_scheduler.drop_job", FuncCategory::Scalar, FuncDomain::DbmsScheduler, 1, None, false));
    let t = t.push(spec_oracle_entry("dbms_scheduler.drop_job", FuncCategory::Scalar, FuncDomain::DbmsScheduler, 1, None, false));
    reveal_strlit("dbms_scheduler.run_job");
    lemma_push_keeps_lower(t, spec_oracle_entry("dbms_scheduler.run_job", FuncCategory::Scalar, FuncDomain::DbmsScheduler, 1, Some(2), false));
    let t = t.push(spec_oracle_entry("dbms_scheduler.run_job", FuncCategory::Scalar, FuncDomain::DbmsScheduler, 1, Some(2), false));
    reveal_strlit("dbms_sql.close_cursor");
    lemma_push_keeps_lower(t, spec_oracle_entry("dbms_sql.close_cursor", FuncCategory::Scalar, FuncDomain::DbmsSql, 1, Some(1), false));
    let t = t.push(spec_oracle_entry("dbms_sql.close_cursor", FuncCategory::Scalar, FuncDomain::DbmsSql, 1, Some(1), false));
    reveal_strlit("dbms_sql.column_value");
    lemma_push_keeps_lower(t, spec_oracle_entry("dbms_sql.column_value", FuncCategory::Scalar, FuncDomain::DbmsSql, 3, Some(3), false));
    let t = t.push(spec_oracle_entry("dbms_sql.column_value", FuncCategory::Scalar, FuncDomain::DbmsSql, 3, Some(3), false));
    reveal_strlit("dbms_sql.execute");
    lemma_push_keeps_lower(t, spec_oracle_entry("dbms_sql.execute", FuncCategory::Scalar, FuncDomain::DbmsSql, 1, Some(2), false));
    let t = t.push(spec_oracle_entry("dbms_sql.execute", FuncCategory::Scalar, FuncDomain::DbmsSql, 1, Some(2), false));
    assert(t == table_chunk_4_4(s));
}

proof fn lemma_chunk_lower_4_5(s: Seq<FuncMeta>)
    requires
        names_lower(s),
    ensures
        names_lower(table_chunk_4_5(s)),
{
    let t = s;
    reveal_strlit("dbms_sql.fetch_rows");
    lemma_push_keeps_lower(t, spec_oracle_entry("dbms_sql.fetch_rows", FuncCategory::Scalar, FuncDomain::DbmsSql, 1, Some(1), false));
    let t = t.push(spec_oracle_entry("dbms_sql.fetch_rows", FuncCategory::Scalar, FuncDomain::DbmsSql, 1, Some(1), false));
    reveal_strlit("dbms_sql.open_cursor");
    lemma_push_keeps_lower(t, spec_oracle_entry("dbms_sql.open_cursor", FuncCategory::Scalar, FuncDomain::DbmsSql, 0, Some(0), false));
    let t = t.push(spec_oracle_entry("dbms_sql.open_cursor", FuncCategory::Scalar, FuncDomain::DbmsSql, 0, Some(0), false));
    reveal_strlit("dbms_utility.format_error_backtrace");
    lemma_push_keeps_lower(t, spec_oracle_entry("dbms_utility.format_error_backtrace", FuncCategory::Scalar, FuncDomain::DbmsUtility, 0, Some(0), false));
    let t = t.push(spec_oracle_entry("dbms_utility.format_error_backtrace", FuncCategory::Scalar, FuncDomain::DbmsUtility, 0, Some(0), false));
    reveal_strlit("dbms_utility.get_time");
    lemma_push_keeps_lower(t, spec_oracle_entry("dbms_utility.get_time", FuncCategory::Scalar, FuncDomain::DbmsUtility, 0, Some(0), false));
    let t = t.push(spec_oracle_entry("dbms_utility.get_time", FuncCategory::Scalar, FuncDomain::DbmsUtility, 0, Some(0), false));
    reveal_strlit("decode");
    lemma_push_keeps_lower(t, spec_oracle_entry("decode", FuncCategory::Special, FuncDomain::OracleCompat, 2, None, false));
    let t = t.push(spec_oracle_entry("decode", FuncCategory::Special, FuncDomain::OracleCompat, 2, None, false));
    reveal_strlit("degrees");
    lemma_push_keeps_lower(t, spec_core_entry("degrees", FuncCategory::Scalar, FuncDomain::Math, 1, Some(1), false));
    let t = t.push(spec_core_entry("degrees", FuncCategory::Scalar, FuncDomain::Math, 1, Some(1), false));
    reveal_strlit("dense_rank");
    lemma_push_keeps_lower(t, spec_core_entry("dense_rank", FuncCategory::Window, FuncDomain::Window, 0, Some(0), false));
    let t = t.push(spec_core_entry("dense_rank", FuncCategory::Window, FuncDomain::Window, 0, Some(0), false));
    reveal_strlit("diameter");
    lemma_push_keeps_lower(t, spec_core_entry("diameter", FuncCategory::Scalar, FuncDomain::Geometric, 1, Some(1), false));
    let t = t.push(spec_core_entry("diameter", FuncCategory::Scalar, FuncDomain::Geometric, 1, Some(1), false));
    reveal_strlit("digest");
    lemma_push_keeps_lower(t, spec_core_entry("digest", FuncCategory::Scalar, FuncDomain::Crypto, 2, Some(2), false));
    let t = t.push(spec_core_entry("digest", FuncCategory::Scalar, FuncDomain::Crypto, 2, Some(2), false));
    reveal_strlit("div");
    lemma_push_keeps_lower(t, spec_core_entry("div", FuncCategory::Scalar, FuncDomain::Math, 2, Some(2), false));
    let t = t.push(spec_core_entry("div", FuncCategory::Scalar, FuncDomain::Math, 2, Some(2), false));
    assert(t == table_chunk_4_5(s));
}

proof fn lemma_chunk_lower_4_6(s: Seq<FuncMeta>)
    requires
        names_lower(s),
    ensures
        names_lower(table_chunk_4_6(s)),
{
    let t = s;
    reveal_strlit("dump");
    lemma_push_keeps_lower(t, spec_oracle_entry("dump", FuncCategory::Scalar, FuncDomain::String, 1, Some(4), false));
    let t = t.push(spec_oracle_entry("dump", FuncCategory::Scalar, FuncDomain::String, 1, Some(4), false));
    reveal_strlit("empty_blob");
    lemma_push_keeps_lower(t, spec_commercial_entry("empty_blob", FuncCategory::Scalar, FuncDomain::Other, 0, Some(0), false));
    let t = t.push(spec_commercial_entry("empty_blob", FuncCategory::Scalar, FuncDomain::Other, 0, Some(0), false));
    reveal_strlit("empty_clob");
    lemma_push_keeps_lower(t, spec_commercial_entry("empty_clob", FuncCategory::Scalar, FuncDomain::Other, 0, Some(0), false));
    let t = t.push(spec_commercial_entry("empty_clob", FuncCategory::Scalar, FuncDomain::Other, 0, Some(0), false));
    reveal_strlit("encode");
    lemma_push_keeps_lower(t, spec_core_entry("encode", FuncCategory::Scalar, FuncDomain::String, 2, Some(2), false));
    let t = t.push(spec_core_entry("encode", FuncCategory::Scalar, FuncDomain::String, 2, Some(2), false));
    reveal_strlit("every");
    lemma_push_keeps_lower(t, spec_core_entry("every", FuncCategory::Aggregate, FuncDomain::Aggregate, 1, Some(1), true));
    let t = t.push(spec_core_entry("every", FuncCategory::Aggregate, FuncDomain::Aggregate, 1, Some(1), true));
    reveal_strlit("existsnode");
    lemma_push_keeps_lower(t, spec_oracle_entry("existsnode", FuncCategory::Scalar, FuncDomain::Xml, 2, Some(3), false));
    let t = t.push(spec_oracle_entry("existsnode", FuncCategory::Scalar, FuncDomain::Xml, 2, Some(3), false));
    reveal_strlit("exp");
    lemma_push_keeps_lower(t, spec_core_entry("exp", FuncCategory::Scalar, FuncDomain::Math, 1, Some(1), false));
    let t = t.push(spec_core_entry("exp", FuncCategory::Scalar, FuncDomain::Math, 1, Some(1), false));
    reveal_strlit("extract");
    lemma_push_keeps_lower(t, spec_core_entry("extract", FuncCategory::Scalar, FuncDomain::DateTime, 2, Some(2), false));
    let t = t.push(spec_core_entry("extract", FuncCategory::Scalar, FuncDomain::DateTime, 2, Some(2), false));
    reveal_strlit("extractvalue");
    lemma_push_keeps_lower(t, spec_oracle_entry("extractvalue", FuncCategory::Scalar, FuncDomain::Xml, 2, Some(3), false));
    let t = t.push(spec_oracle_entry("extractvalue", FuncCategory::Scalar, FuncDomain::Xml, 2, Some(3), false));
    reveal_strlit("extractxml");
    lemma_push_keeps_lower(t, spec_oracle_entry("extractxml", FuncCategory::Scalar, FuncDomain::Xml, 2, Some(3), false));
    let t = t.push(spec_oracle_entry("extractxml", FuncCategory::Scalar, FuncDomain::Xml, 2, Some(3), false));
    assert(t == table_chunk_4_6(s));
}

proof fn lemma_chunk_lower_4_7(s: Seq<FuncMeta>)
    requires
        names_lower(s),
    ensures
        names_lower(table_chunk_4_7(s)),
{
    let t = s;
    reveal_strlit("factorial");
    lemma_push_keeps_lower(t, spec_core_entry("factorial", FuncCategory::Scalar, FuncDomain::Math, 1, Some(1), false));
    let t = t.push(spec_core_entry("factorial", FuncCategory::Scalar, FuncDomain::Math, 1, Some(1), false));
    reveal_strlit("family");
    lemma_push_keeps_lower(t, spec_core_entry("family", FuncCategory::Scalar, FuncDomain::Network, 1, Some(1), false));
    let t = t.push(spec_core_entry("family", FuncCategory::Scalar, FuncDomain::Network, 1, Some(1), false));
    reveal_strlit("find_in_set");
    lemma_push_keeps_lower(t, spec_core_entry("find_in_set", FuncCategory::Scalar, FuncDomain::String, 2, Some(2), false));
    let t = t.push(spec_core_entry("find_in_set", FuncCategory::Scalar, FuncDomain::String, 2, Some(2), false));
    reveal_strlit("first_value");
    lemma_push_keeps_lower(t, spec_core_entry("first_value", FuncCategory::Window, FuncDomain::Window, 1, Some(1), false));
    let t = t.push(spec_core_entry("first_value", FuncCategory::Window, FuncDomain::Window, 1, Some(1), false));
    reveal_strlit("floor");
    lemma_push_keeps_lower(t, spec_core_entry("floor", FuncCategory::Scalar, FuncDomain::Math, 1, Some(1), false));
    let t = t.push(spec_core_entry("floor", FuncCategory::Scalar, FuncDomain::Math, 1, Some(1), false));
    reveal_strlit("format");
    lemma_push_keeps_lower(t, spec_core_entry("format", FuncCategory::Scalar, FuncDomain::String, 2, None, false));
    let t = t.push(spec_core_entry("format", FuncCategory::Scalar, FuncDomain::String, 2, None, false));
    reveal_strlit("format_type");
    lemma_push_keeps_lower(t, spec_core_entry("format_type", FuncCategory::Scalar, FuncDomain::System, 1, Some(2), false));
    let t = t.push(spec_core_entry("format_type", FuncCategory::Scalar, FuncDomain::System, 1, Some(2), false));
    reveal_strlit("from_days");
    lemma_push_keeps_lower(t, spec_commercial_entry("from_days", FuncCategory::Scalar, FuncDomain::DateTime, 1, Some(1), false));
    let t = t.push(spec_commercial_entry("from_days", FuncCategory::Scalar, FuncDomain::DateTime, 1, Some(1), false));
    reveal_strlit("from_unixtime");
    lemma_push_keeps_lower(t, spec_commercial_entry("from_unixtime", FuncCategory::Scalar, FuncDomain::DateTime, 1, Some(2), false));
    let t = t.push(spec_commercial_entry("from_unixtime", FuncCategory::Scalar, FuncDomain::DateTime, 1, Some(2), false));
    reveal_strlit("gcd");
    lemma_push_keeps_lower(t, spec_core_entry("gcd", FuncCategory::Scalar, FuncDomain::Math, 2, Some(2), false));
    let t = t.push(spec_core_entry("gcd", FuncCategory::Scalar, FuncDomain::Math, 2, Some(2), false));
    assert(t == table_chunk_4_7(s));
}

proof fn lemma_chunk_lower_4_8(s: Seq<FuncMeta>)
    requires
        names_lower(s),
    ensures
        names_lower(table_chunk_4_8(s)),
{
    let t = s;
    reveal_strlit("gen_random_uuid");
    lemma_push_keeps_lower(t, spec_core_entry("gen_random_uuid", FuncCategory::Scalar, FuncDomain::Crypto, 0, Some(0), false));
    let t = t.push(spec_core_entry("gen_random_uuid", FuncCategory::Scalar, FuncDomain::Crypto, 0, Some(0), false));
    reveal_strlit("generate_series");
    lemma_push_keeps_lower(t, spec_core_entry("generate_series", FuncCategory::SetReturning, FuncDomain::Other, 2, Some(3), false));
    let t = t.push(spec_core_entry("generate_series", FuncCategory::SetReturning, FuncDomain::Other, 2, Some(3), false));
    reveal_strlit("generate_subscripts");
    lemma_push_keeps_lower(t, spec_core_entry("generate_subscripts", FuncCategory::SetReturning, FuncDomain::Array, 2, Some(3), false));
    let t = t.push(spec_core_entry("generate_subscripts", FuncCategory::SetReturning, FuncDomain::Array, 2, Some(3), false));
    reveal_strlit("get_bit");
    lemma_push_keeps_lower(t, spec_core_entry("get_bit", FuncCategory::Scalar, FuncDomain::String, 2, Some(2), false));
    let t = t.push(spec_core_entry("get_bit", FuncCategory::Scalar, FuncDomain::String, 2, Some(2), false));
    reveal_strlit("get_byte");
    lemma_push_keeps_lower(t, spec_core_entry("get_byte", FuncCategory::Scalar, FuncDomain::String, 2, Some(2), false));
    let t = t.push(spec_core_entry("get_byte", FuncCategory::Scalar, FuncDomain::String, 2, Some(2), false));
    reveal_strlit("get_current_ts_config");
    lemma_push_keeps_lower(t, spec_core_entry("get_current_ts_config", FuncCategory::Scalar, FuncDomain::TextSearch, 0, Some(0), false));
    let t = t.push(spec_core_entry("get_current_ts_config", FuncCategory::Scalar, FuncDomain::TextSearch, 0, Some(0), false));
    reveal_strlit("getblobval");
    lemma_push_keeps_lower(t, spec_oracle_entry("getblobval", FuncCategory::Scalar, FuncDomain::Xml, 1, Some(1), false));
    let t = t.push(spec_oracle_entry("getblobval", FuncCategory::Scalar, FuncDomain::Xml, 1, Some(1), false));
    reveal_strlit("getclobval");
    lemma_push_keeps_lower(t, spec_oracle_entry("getclobval", FuncCategory::Scalar, FuncDomain::Xml, 1, Some(1), false));
    let t = t.push(spec_oracle_entry("getclobval", FuncCategory::Scalar, FuncDomain::Xml, 1, Some(1), false));
    reveal_strlit("getnamespace");
    lemma_push_keeps_lower(t, spec_oracle_entry("getnamespace", FuncCategory::Scalar, FuncDomain::Xml, 1, Some(1), false));
    let t = t.push(spec_oracle_entry("getnamespace", FuncCategory::Scalar, FuncDomain::Xml, 1, Some(1), false));
    reveal_strlit("getnumberval");
    lemma_push_keeps_lower(t, spec_oracle_entry("getnumberval", FuncCategory::Scalar, FuncDomain::Xml, 1, Some(1), false));
    let t = t.push(spec_oracle_entry("getnumberval", FuncCategory::Scalar, FuncDomain::Xml, 1, Some(1), false));
    assert(t == table_chunk_4_8(s));
}

proof fn lemma_chunk_lower_4_9(s: Seq<FuncMeta>)
    requires
        names_lower(s),
    ensures
        names_lower(table_chunk_4_9(s)),
{
    let t = s;
    reveal_strlit("getrootelement");
    lemma_push_keeps_lower(t, spec_oracle_entry("getrootelement", FuncCategory::Scalar, FuncDomain::Xml, 1, Some(1), false));
    let t = t.push(spec_oracle_entry("getrootelement", FuncCategory::Scalar, FuncDomain::Xml, 1, Some(1), false));
    reveal_strlit("getstringval");
    lemma_push_keeps_lower(t, spec_oracle_entry("getstringval", FuncCategory::Scalar, FuncDomain::Xml, 1, Some(1), false));
    let t = t.push(spec_oracle_entry("getstringval", FuncCategory::Scalar, FuncDomain::Xml, 1, Some(1), false));
    reveal_strlit("greatest");
    lemma_push_keeps_lower(t, spec_core_entry("greatest", FuncCategory::Special, FuncDomain::Other, 2, None, false));
    let t = t.push(spec_core_entry("greatest", FuncCategory::Special, FuncDomain::Other, 2, None, false));
    reveal_strlit("group_concat");
    lemma_push_keeps_lower(t, spec_oracle_entry("group_concat", FuncCategory::Aggregate, FuncDomain::String, 1, None, true));
    let t = t.push(spec_oracle_entry("group_concat", FuncCategory::Aggregate, FuncDomain::String, 1, None, true));
    reveal_strlit("gs_decrypt");
    lemma_push_keeps_lower(t, spec_core_entry("gs_decrypt", FuncCategory::Scalar, FuncDomain::Crypto, 3, Some(3), false));
    let t = t.push(spec_core_entry("gs_decrypt", FuncCategory::Scalar, FuncDomain::Crypto, 3, Some(3), false));
    reveal_strlit("gs_decrypt_aes128");
    lemma_push_keeps_lower(t, spec_core_entry("gs_decrypt_aes128", FuncCategory::Scalar, FuncDomain::Crypto, 2, Some(2), false));
    let t = t.push(spec_core_entry("gs_decrypt_aes128", FuncCategory::Scalar, FuncDomain::Crypto, 2, Some(2), false));
    reveal_strlit("gs_encrypt");
    lemma_push_keeps_lower(t, spec_core_entry("gs_encrypt", FuncCategory::Scalar, FuncDomain::Crypto, 3, Some(3), false));
    let t = t.push(spec_core_entry("gs_encrypt", FuncCategory::Scalar, FuncDomain::Crypto, 3, Some(3), false));
    reveal_strlit("gs_encrypt_aes128");
    lemma_push_keeps_lower(t, spec_core_entry("gs_encrypt_aes128", FuncCategory::Scalar, FuncDomain::Crypto, 2, Some(2), false));
    let t = t.push(spec_core_entry("gs_encrypt_aes128", FuncCategory::Scalar, FuncDomain::Crypto, 2, Some(2), false));
    reveal_strlit("has_schema_privilege");
    lemma_push_keeps_lower(t, spec_core_entry("has_schema_privilege", FuncCategory::Scalar, FuncDomain::System, 2, Some(4), false));
    let t = t.push(spec_core_entry("has_schema_privilege", FuncCategory::Scalar, FuncDomain::System, 2, Some(4), false));
    reveal_strlit("has_table_privilege");
    lemma_push_keeps_lower(t, spec_core_entry("has_table_privilege", FuncCategory::Scalar, FuncDomain::System, 2, Some(4), false));
    let t = t.push(spec_core_entry("has_table_privilege", FuncCategory::Scalar, FuncDomain::System, 2, Some(4), false));
    assert(t == table_chunk_4_9(s));
}

proof fn lemma_chunk_lower_4_10(s: Seq<FuncMeta>)
    requires
        names_lower(s),
    ensures
        names_lower(table_chunk_4_10(s)),
{
    let t = s;
    reveal_strlit("hextoraw");
    lemma_push_keeps_lower(t, spec_core_entry("hextoraw", FuncCategory::Scalar, FuncDomain::TypeConversion, 1, Some(1), false));
    let t = t.push(spec_core_entry("hextoraw", FuncCategory::Scalar, FuncDomain::TypeConversion, 1, Some(1), false));
    reveal_strlit("host");
    lemma_push_keeps_lower(t, spec_core_entry("host", FuncCategory::Scalar, FuncDomain::Network, 1, Some(1), false));
    let t = t.push(spec_core_entry("host", FuncCategory::Scalar, FuncDomain::Network, 1, Some(1), false));
    reveal_strlit("hostmask");
    lemma_push_keeps_lower(t, spec_core_entry("hostmask", FuncCategory::Scalar, FuncDomain::Network, 1, Some(1), false));
    let t = t.push(spec_core_entry("hostmask", FuncCategory::Scalar, FuncDomain::Network, 1, Some(1), false));
    reveal_strlit("ifnull");
    lemma_push_keeps_lower(t, spec_commercial_entry("ifnull", FuncCategory::Special, FuncDomain::OracleCompat, 2, Some(2), false));
    let t = t.push(spec_commercial_entry("ifnull", FuncCategory::Special, FuncDomain::OracleCompat, 2, Some(2), false));
    reveal_strlit("inet_client_addr");
    lemma_push_keeps_lower(t, spec_core_entry("inet_client_addr", FuncCategory::Scalar, FuncDomain::System, 0, Some(0), false));
    let t = t.push(spec_core_entry("inet_client_addr", FuncCategory::Scalar, FuncDomain::System, 0, Some(0), false));
    reveal_strlit("inet_client_port");
    lemma_push_keeps_lower(t, spec_core_entry("inet_client_port", FuncCategory::Scalar, FuncDomain::System, 0, Some(0), false));
    let t = t.push(spec_core_entry("inet_client_port", FuncCategory::Scalar, FuncDomain::System, 0, Some(0), false));
    reveal_strlit("inet_server_addr");
    lemma_push_keeps_lower(t, spec_core_entry("inet_server_addr", FuncCategory::Scalar, FuncDomain::System, 0, Some(0), false));
    let t = t.push(spec_core_entry("inet_server_addr", FuncCategory::Scalar, FuncDomain::System, 0, Some(0), false));
    reveal_strlit("inet_server_port");
    lemma_push_keeps_lower(t, spec_core_entry("inet_server_port", FuncCategory::Scalar, FuncDomain::System, 0, Some(0), false));
    let t = t.push(spec_core_entry("inet_server_port", FuncCategory::Scalar, FuncDomain::System, 0, Some(0), false));
    reveal_strlit("initcap");
    lemma_push_keeps_lower(t, spec_core_entry("initcap", FuncCategory::Scalar, FuncDomain::String, 1, Some(1), false));
    let t = t.push(spec_core_entry("initcap", FuncCategory::Scalar, FuncDomain::String, 1, Some(1), false));
    reveal_strlit("instr");
    lemma_push_keeps_lower(t, spec_oracle_entry("instr", FuncCategory::Scalar, FuncDomain::String, 2, Some(4), false));
    let t = t.push(spec_oracle_entry("instr", FuncCategory::Scalar, FuncDomain::String, 2, Some(4), false));
    assert(t == table_chunk_4_10(s));
}

proof fn lemma_chunk_lower_4_11(s: Seq<FuncMeta>)
    requires
        names_lower(s),
    ensures
        names_lower(table_chunk_4_11(s)),
{
    let t = s;
    reveal_strlit("instrb");
    lemma_push_keeps_lower(t, spec_oracle_entry("instrb", FuncCategory::Scalar, FuncDomain::String, 2, Some(4), false));
    let t = t.push(spec_oracle_entry("instrb", FuncCategory::Scalar, FuncDomain::String, 2, Some(4), false));
    reveal_strlit("intervaltonum");
    lemma_push_keeps_lower(t, spec_oracle_entry("intervaltonum", FuncCategory::Scalar, FuncDomain::TypeConversion, 1, Some(1), false));
    let t = t.push(spec_oracle_entry("intervaltonum", FuncCategory::Scalar, FuncDomain::TypeConversion, 1, Some(1), false));
    reveal_strlit("isfinite");
    lemma_push_keeps_lower(t, spec_core_entry("isfinite", FuncCategory::Scalar, FuncDomain::DateTime, 1, Some(1), false));
    let t = t.push(spec_core_entry("isfinite", FuncCategory::Scalar, FuncDomain::DateTime, 1, Some(1), false));
    reveal_strlit("isfragment");
    lemma_push_keeps_lower(t, spec_oracle_entry("isfragment", FuncCategory::Scalar, FuncDomain::Xml, 1, Some(1), false));
    let t = t.push(spec_oracle_entry("isfragment", FuncCategory::Scalar, FuncDomain::Xml, 1, Some(1), false));
    reveal_strlit("json");
    lemma_push_keeps_lower(t, spec_core_entry("json", FuncCategory::TypeConstructor, FuncDomain::Json, 0, Some(1), false));
    let t = t.push(spec_core_entry("json", FuncCategory::TypeConstructor, FuncDomain::Json, 0, Some(1), false));
    reveal_strlit("json_agg");
    lemma_push_keeps_lower(t, spec_core_entry("json_agg", FuncCategory::Aggregate, FuncDomain::Json, 1, Some(1), true));
    let t = t.push(spec_core_entry("json_agg", FuncCategory::Aggregate, FuncDomain::Json, 1, Some(1), true));
    reveal_strlit("json_append");
    lemma_push_keeps_lower(t, spec_core_entry("json_append", FuncCategory::Scalar, FuncDomain::Json, 2, None, false));
    let t = t.push(spec_core_entry("json_append", FuncCategory::Scalar, FuncDomain::Json, 2, None, false));
    reveal_strlit("json_array");
    lemma_push_keeps_lower(t, spec_commercial_entry("json_array", FuncCategory::Scalar, FuncDomain::Json, 0, None, false));
    let t = t.push(spec_commercial_entry("json_array", FuncCategory::Scalar, FuncDomain::Json, 0, None, false));
    reveal_strlit("json_array_element");
    lemma_push_keeps_lower(t, spec_core_entry("json_array_element", FuncCategory::Scalar, FuncDomain::Json, 2, Some(2), false));
    let t = t.push(spec_core_entry("json_array_element", FuncCategory::Scalar, FuncDomain::Json, 2, Some(2), false));
    reveal_strlit("json_array_element_text");
    lemma_push_keeps_lower(t, spec_core_entry("json_array_element_text", FuncCategory::Scalar, FuncDomain::Json, 2, Some(2), false));
    let t = t.push(spec_core_entry("json_array_element_text", FuncCategory::Scalar, FuncDomain::Json, 2, Some(2), false));
    assert(t == table_chunk_4_11(s));
}

proof fn lemma_chunk_lower_4_12(s: Seq<FuncMeta>)
    requires
        names_lower(s),
    ensures
        names_lower(table_chunk_4_12(s)),
{
    let t = s;
    reveal_strlit("json_array_elements");
    lemma_push_keeps_lower(t, spec_core_entry("json_array_elements", FuncCategory::SetReturning, FuncDomain::Json, 1, Some(1), false));
    let t = t.push(spec_core_entry("json_array_elements", FuncCategory::SetReturning, FuncDomain::Json, 1, Some(1), false));
    reveal_strlit("json_array_length");
    lemma_push_keeps_lower(t, spec_core_entry("json_array_length", FuncCategory::Scalar, FuncDomain::Json, 1, Some(1), false));
    let t = t.push(spec_core_entry("json_array_length", FuncCategory::Scalar, FuncDomain::Json, 1, Some(1), false));
    reveal_strlit("json_build_array");
    lemma_push_keeps_lower(t, spec_core_entry("json_build_array", FuncCategory::Scalar, FuncDomain::Json, 0, None, false));
    let t = t.push(spec_core_entry("json_build_array", FuncCategory::Scalar, FuncDomain::Json, 0, None, false));
    reveal_strlit("json_build_object");
    lemma_push_keeps_lower(t, spec_core_entry("json_build_object", FuncCategory::Scalar, FuncDomain::Json, 0, None, false));
    let t = t.push(spec_core_entry("json_build_object", FuncCategory::Scalar, FuncDomain::Json, 0, None, false));
    reveal_strlit("json_contains");
    lemma_push_keeps_lower(t, spec_commercial_entry("json_contains", FuncCategory::Scalar, FuncDomain::Json, 2, Some(3), false));
    let t = t.push(spec_commercial_entry("json_contains", FuncCategory::Scalar, FuncDomain::Json, 2, Some(3), false));
    assert(t == table_chunk_4_12(s));
}

proof fn lemma_part_4_lower(s: Seq<FuncMeta>)
    requires
        names_lower(s),
    ensures
        names_lower(table_part_4(s)),
{
    lemma_chunk_lower_4_0(s);
    let t0 = table_chunk_4_0(s);
    lemma_chunk_lower_4_1(t0);
    let t1 = table_chunk_4_1(t0);
    lemma_chunk_lower_4_2(t1);
    let t2 = table_chunk_4_2(t1);
    lemma_chunk_lower_4_3(t2);
    let t3 = table_chunk_4_3(t2);
    lemma_chunk_lower_4_4(t3);
    let t4 = table_chunk_4_4(t3);
    lemma_chunk_lower_4_5(t4);
    let t5 = table_chunk_4_5(t4);
    lemma_chunk_lower_4_6(t5);
    let t6 = table_chunk_4_6(t5);
    lemma_chunk_lower_4_7(t6);
    let t7 = table_chunk_4_7(t6);
    lemma_chunk_lower_4_8(t7);
    let t8 = table_chunk_4_8(t7);
    lemma_chunk_lower_4_9(t8);
    let t9 = table_chunk_4_9(t8);
    lemma_chunk_lower_4_10(t9);
    let t10 = table_chunk_4_10(t9);
    lemma_chunk_lower_4_11(t10);
    let t11 = table_chunk_4_11(t10);
    lemma_chunk_lower_4_12(t11);
    let t12 = table_chunk_4_12(t11);
    assert(t12 == table_part_4(s));
}

proof fn lemma_chunk_lower_5_0(s: Seq<FuncMeta>)
    requires
        names_lower(s),
    ensures
        names_lower(table_chunk_5_0(s)),
{
    let t = s;
    reveal_strlit("json_contains_path");
    lemma_push_keeps_lower(t, spec_commercial_entry("json_contains_path", FuncCategory::Scalar, FuncDomain::Json, 2, Some(3), false));
    let t = t.push(spec_commercial_entry("json_contains_path", FuncCategory::Scalar, FuncDomain::Json, 2, Some(3), false));
    reveal_strlit("json_depth");
    lemma_push_keeps_lower(t, spec_commercial_entry("json_depth", FuncCategory::Scalar, FuncDomain::Json, 1, Some(1), false));
    let t = t.push(spec_commercial_entry("json_depth", FuncCategory::Scalar, FuncDomain::Json, 1, Some(1), false));
    reveal_strlit("json_each");
    lemma_push_keeps_lower(t, spec_core_entry("json_each", FuncCategory::SetReturning, FuncDomain::Json, 1, Some(1), false));
    let t = t.push(spec_core_entry("json_each", FuncCategory::SetReturning, FuncDomain::Json, 1, Some(1), false));
    reveal_strlit("json_each_text");
    lemma_push_keeps_lower(t, spec_core_entry("json_each_text", FuncCategory::SetReturning, FuncDomain::Json, 1, Some(1), false));
    let t = t.push(spec_core_entry("json_each_text", FuncCategory::SetReturning, FuncDomain::Json, 1, Some(1), false));
    reveal_strlit("json_extract_path");
    lemma_push_keeps_lower(t, spec_core_entry("json_extract_path", FuncCategory::Scalar, FuncDomain::Json, 1, None, false));
    let t = t.push(spec_core_entry("json_extract_path", FuncCategory::Scalar, FuncDomain::Json, 1, None, false));
    reveal_strlit("json_extract_path_text");
    lemma_push_keeps_lower(t, spec_core_entry("json_extract_path_text", FuncCategory::Scalar, FuncDomain::Json, 1, None, false));
    let t = t.push(spec_core_entry("json_extract_path_text", FuncCategory::Scalar, FuncDomain::Json, 1, None, false));
    reveal_strlit("json_keys");
    lemma_push_keeps_lower(t, spec_commercial_entry("json_keys", FuncCategory::Scalar, FuncDomain::Json, 1, Some(2), false));
    let t = t.push(spec_commercial_entry("json_keys", FuncCategory::Scalar, FuncDomain::Json, 1, Some(2), false));
    reveal_strlit("json_length");
    lemma_push_keeps_lower(t, spec_commercial_entry("json_length", FuncCategory::Scalar, FuncDomain::Json, 1, Some(2), false));
    let t = t.push(spec_commercial_entry("json_length", FuncCategory::Scalar, FuncDomain::Json, 1, Some(2), false));
    reveal_strlit("json_merge");
    lemma_push_keeps_lower(t, spec_commercial_entry("json_merge", FuncCategory::Scalar, FuncDomain::Json, 2, None, false));
    let t = t.push(spec_commercial_entry("json_merge", FuncCategory::Scalar, FuncDomain::Json, 2, None, false));
    reveal_strlit("json_object");
    lemma_push_keeps_lower(t, spec_core_entry("json_object", FuncCategory::Scalar, FuncDomain::Json, 1, None, true));
    let t = t.push(spec_core_entry("json_object", FuncCategory::Scalar, FuncDomain::Json, 1, None, true));
    assert(t == table_chunk_5_0(s));
}

proof fn lemma_chunk_lower_5_1(s: Seq<FuncMeta>)
    requires
        names_lower(s),
    ensures
        names_lower(table_chunk_5_1(s)),
{
    let t = s;
    reveal_strlit("json_object_agg");
    lemma_push_keeps_lower(t, spec_core_entry("json_object_agg", FuncCategory::Aggregate, FuncDomain::Json, 2, Some(2), true));
    let t = t.push(spec_core_entry("json_object_agg", FuncCategory::Aggregate, FuncDomain::Json, 2, Some(2), true));
    reveal_strlit("json_object_field");
    lemma_push_keeps_lower(t, spec_core_entry("json_object_field", FuncCategory::Scalar, FuncDomain::Json, 2, Some(2), false));
    let t = t.push(spec_core_entry("json_object_field", FuncCategory::Scalar, FuncDomain::Json, 2, Some(2), false));
    reveal_strlit("json_object_field_text");
    lemma_push_keeps_lower(t, spec_core_entry("json_object_field_text", FuncCategory::Scalar, FuncDomain::Json, 2, Some(2), false));
    let t = t.push(spec_core_entry("json_object_field_text", FuncCategory::Scalar, FuncDomain::Json, 2, Some(2), false));
    reveal_strlit("json_object_keys");
    lemma_push_keeps_lower(t, spec_core_entry("json_object_keys", FuncCategory::SetReturning, FuncDomain::Json, 1, Some(1), false));
    let t = t.push(spec_core_entry("json_object_keys", FuncCategory::SetReturning, FuncDomain::Json, 1, Some(1), false));
    reveal_strlit("json_quote");
    lemma_push_keeps_lower(t, spec_commercial_entry("json_quote", FuncCategory::Scalar, FuncDomain::Json, 1, Some(1), false));
    let t = t.push(spec_commercial_entry("json_quote", FuncCategory::Scalar, FuncDomain::Json, 1, Some(1), false));
    reveal_strlit("json_remove");
    lemma_push_keeps_lower(t, spec_commercial_entry("json_remove", FuncCategory::Scalar, FuncDomain::Json, 2, Some(2), false));
    let t = t.push(spec_commercial_entry("json_remove", FuncCategory::Scalar, FuncDomain::Json, 2, Some(2), false));
    reveal_strlit("json_replace");
    lemma_push_keeps_lower(t, spec_commercial_entry("json_replace", FuncCategory::Scalar, FuncDomain::Json, 2, Some(2), false));
    let t = t.push(spec_commercial_entry("json_replace", FuncCategory::Scalar, FuncDomain::Json, 2, Some(2), false));
    reveal_strlit("json_search");
    lemma_push_keeps_lower(t, spec_commercial_entry("json_search", FuncCategory::Scalar, FuncDomain::Json, 2, Some(4), false));
    let t = t.push(spec_commercial_entry("json_search", FuncCategory::Scalar, FuncDomain::Json, 2, Some(4), false));
    reveal_strlit("json_set");
    lemma_push_keeps_lower(t, spec_commercial_entry("json_set", FuncCategory::Scalar, FuncDomain::Json, 2, Some(2), false));
    let t = t.push(spec_commercial_entry("json_set", FuncCategory::Scalar, FuncDomain::Json, 2, Some(2), false));
    reveal_strlit("json_type");
    lemma_push_keeps_lower(t, spec_commercial_entry("json_type", FuncCategory::Scalar, FuncDomain::Json, 1, Some(1), false));
    let t = t.push(spec_commercial_entry("json_type", FuncCategory::Scalar, FuncDomain::Json, 1, Some(1), false));
    assert(t == table_chunk_5_1(s));
}

proof fn lemma_chunk_lower_5_2(s: Seq<FuncMeta>)
    requires
        names_lower(s),
    ensures
        names_lower(table_chunk_5_2(s)),
{
    let t = s;
    reveal_strlit("json_typeof");
    lemma_push_keeps_lower(t, spec_core_entry("json_typeof", FuncCategory::Scalar, FuncDomain::Json, 1, Some(1), false));
    let t = t.push(spec_core_entry("json_typeof", FuncCategory::Scalar, FuncDomain::Json, 1, Some(1), false));
    reveal_strlit("json_unquote");
    lemma_push_keeps_lower(t, spec_commercial_entry("json_unquote", FuncCategory::Scalar, FuncDomain::Json, 1, Some(1), false));
    let t = t.push(spec_commercial_entry("json_unquote", FuncCategory::Scalar, FuncDomain::Json, 1, Some(1), false));
    reveal_strlit("json_valid");
    lemma_push_keeps_lower(t, spec_commercial_entry("json_valid", FuncCategory::Scalar, FuncDomain::Json, 1, Some(1), false));
    let t = t.push(spec_commercial_entry("json_valid", FuncCategory::Scalar, FuncDomain::Json, 1, Some(1), false));
    reveal_strlit("jsonb_agg");
    lemma_push_keeps_lower(t, spec_core_entry("jsonb_agg", FuncCategory::Aggregate, FuncDomain::Json, 1, Some(1), true));
    let t = t.push(spec_core_entry("jsonb_agg", FuncCategory::Aggregate, FuncDomain::Json, 1, Some(1), true));
    reveal_strlit("jsonb_array_elements");
    lemma_push_keeps_lower(t, spec_core_entry("jsonb_array_elements", FuncCategory::SetReturning, FuncDomain::Json, 1, Some(1), false));
    let t = t.push(spec_core_entry("jsonb_array_elements", FuncCategory::SetReturning, FuncDomain::Json, 1, Some(1), false));
    reveal_strlit("jsonb_array_length");
    lemma_push_keeps_lower(t, spec_core_entry("jsonb_array_length", FuncCategory::Scalar, FuncDomain::Json, 1, Some(1), false));
    let t = t.push(spec_core_entry("jsonb_array_length", FuncCategory::Scalar, FuncDomain::Json, 1, Some(1), false));
    reveal_strlit("jsonb_build_array");
    lemma_push_keeps_lower(t, spec_core_entry("jsonb_build_array", FuncCategory::Scalar, FuncDomain::Json, 0, None, true));
    let t = t.push(spec_core_entry("jsonb_build_array", FuncCategory::Scalar, FuncDomain::Json, 0, None, true));
    reveal_strlit("jsonb_build_object");
    lemma_push_keeps_lower(t, spec_core_entry("jsonb_build_object", FuncCategory::Scalar, FuncDomain::Json, 0, None, true));
    let t = t.push(spec_core_entry("jsonb_build_object", FuncCategory::Scalar, FuncDomain::Json, 0, None, true));
    reveal_strlit("jsonb_cmp");
    lemma_push_keeps_lower(t, spec_core_entry("jsonb_cmp", FuncCategory::Scalar, FuncDomain::Json, 2, Some(2), false));
    let t = t.push(spec_core_entry("jsonb_cmp", FuncCategory::Scalar, FuncDomain::Json, 2, Some(2), false));
    reveal_strlit("jsonb_contained");
    lemma_push_keeps_lower(t, spec_core_entry("jsonb_contained", FuncCategory::Scalar, FuncDomain::Json, 2, Some(2), false));
    let t = t.push(spec_core_entry("jsonb_contained", FuncCategory::Scalar, FuncDomain::Json, 2, Some(2), false));
    assert(t == table_chunk_5_2(s));
}

proof fn lemma_chunk_lower_5_3(s: Seq<FuncMeta>)
    requires
        names_lower(s),
    ensures
        names_lower(table_chunk_5_3(s)),
{
    let t = s;
    reveal_strlit("jsonb_contains");
    lemma_push_keeps_lower(t, spec_core_entry("jsonb_contains", FuncCategory::Scalar, FuncDomain::Json, 2, Some(2), false));
    let t = t.push(spec_core_entry("jsonb_contains", FuncCategory::Scalar, FuncDomain::Json, 2, Some(2), false));
    reveal_strlit("jsonb_each");
    lemma_push_keeps_lower(t, spec_core_entry("jsonb_each", FuncCategory::SetReturning, FuncDomain::Json, 1, Some(1), false));
    let t = t.push(spec_core_entry("jsonb_each", FuncCategory::SetReturning, FuncDomain::Json, 1, Some(1), false));
    reveal_strlit("jsonb_each_text");
    lemma_push_keeps_lower(t, spec_core_entry("jsonb_each_text", FuncCategory::SetReturning, FuncDomain::Json, 1, Some(1), false));
    let t = t.push(spec_core_entry("jsonb_each_text", FuncCategory::SetReturning, FuncDomain::Json, 1, Some(1), false));
    reveal_strlit("jsonb_eq");
    lemma_push_keeps_lower(t, spec_core_entry("jsonb_eq", FuncCategory::Scalar, FuncDomain::Json, 2, Some(2), false));
    let t = t.push(spec_core_entry("jsonb_eq", FuncCategory::Scalar, FuncDomain::Json, 2, Some(2), false));
    reveal_strlit("jsonb_exists");
    lemma_push_keeps_lower(t, spec_core_entry("jsonb_exists", FuncCategory::Scalar, FuncDomain::Json, 2, Some(2), false));
    let t = t.push(spec_core_entry("jsonb_exists", FuncCategory::Scalar, FuncDomain::Json, 2, Some(2), false));
    reveal_strlit("jsonb_exists_all");
    lemma_push_keeps_lower(t, spec_core_entry("jsonb_exists_all", FuncCategory::Scalar, FuncDomain::Json, 2, Some(2), false));
    let t = t.push(spec_core_entry("jsonb_exists_all", FuncCategory::Scalar, FuncDomain::Json, 2, Some(2), false));
    reveal_strlit("jsonb_exists_any");
    lemma_push_keeps_lower(t, spec_core_entry("jsonb_exists_any", FuncCategory::Scalar, FuncDomain::Json, 2, Some(2), false));
    let t = t.push(spec_core_entry("jsonb_exists_any", FuncCategory::Scalar, FuncDomain::Json, 2, Some(2), false));
    reveal_strlit("jsonb_ge");
    lemma_push_keeps_lower(t, spec_core_entry("jsonb_ge", FuncCategory::Scalar, FuncDomain::Json, 2, Some(2), false));
    let t = t.push(spec_core_entry("jsonb_ge", FuncCategory::Scalar, FuncDomain::Json, 2, Some(2), false));
    reveal_strlit("jsonb_gt");
    lemma_push_keeps_lower(t, spec_core_entry("jsonb_gt", FuncCategory::Scalar, FuncDomain::Json, 2, Some(2), false));
    let t = t.push(spec_core_entry("jsonb_gt", FuncCategory::Scalar, FuncDomain::Json, 2, Some(2), false));
    reveal_strlit("jsonb_hash");
    lemma_push_keeps_lower(t, spec_core_entry("jsonb_hash", FuncCategory::Scalar, FuncDomain::Json, 1, Some(1), false));
    let t = t.push(spec_core_entry("jsonb_hash", FuncCategory::Scalar, FuncDomain::Json, 1, Some(1), false));
    assert(t == table_chunk_5_3(s));
}

proof fn lemma_chunk_lower_5_4(s: Seq<FuncMeta>)
    requires
        names_lower(s),
    ensures
        names_lower(table_chunk_5_4(s)),
{
    let t = s;
    reveal_strlit("jsonb_le");
    lemma_push_keeps_lower(t, spec_core_entry("jsonb_le", FuncCategory::Scalar, FuncDomain::Json, 2, Some(2), false));
    let t = t.push(spec_core_entry("jsonb_le", FuncCategory::Scalar, FuncDomain::Json, 2, Some(2), false));
    reveal_strlit("jsonb_lt");
    lemma_push_keeps_lower(t, spec_core_entry("jsonb_lt", FuncCategory::Scalar, FuncDomain::Json, 2, Some(2), false));
    let t = t.push(spec_core_entry("jsonb_lt", FuncCategory::Scalar, FuncDomain::Json, 2, Some(2), false));
    reveal_strlit("jsonb_ne");
    lemma_push_keeps_lower(t, spec_core_entry("jsonb_ne", FuncCategory::Scalar, FuncDomain::Json, 2, Some(2), false));
    let t = t.push(spec_core_entry("jsonb_ne", FuncCategory::Scalar, FuncDomain::Json, 2, Some(2), false));
    reveal_strlit("jsonb_object_keys");
    lemma_push_keeps_lower(t, spec_core_entry("jsonb_object_keys", FuncCategory::SetReturning, FuncDomain::Json, 1, Some(1), false));
    let t = t.push(spec_core_entry("jsonb_object_keys", FuncCategory::SetReturning, FuncDomain::Json, 1, Some(1), false));
    reveal_strlit("jsonb_pretty");
    lemma_push_keeps_lower(t, spec_core_entry("jsonb_pretty", FuncCategory::Scalar, FuncDomain::Json, 1, Some(1), false));
    let t = t.push(spec_core_entry("jsonb_pretty", FuncCategory::Scalar, FuncDomain::Json, 1, Some(1), false));
    reveal_strlit("jsonb_set");
    lemma_push_keeps_lower(t, spec_core_entry("jsonb_set", FuncCategory::Scalar, FuncDomain::Json, 3, Some(4), false));
    let t = t.push(spec_core_entry("jsonb_set", FuncCategory::Scalar, FuncDomain::Json, 3, Some(4), false));
    reveal_strlit("jsonb_typeof");
    lemma_push_keeps_lower(t, spec_core_entry("jsonb_typeof", FuncCategory::Scalar, FuncDomain::Json, 1, Some(1), false));
    let t = t.push(spec_core_entry("jsonb_typeof", FuncCategory::Scalar, FuncDomain::Json, 1, Some(1), false));
    reveal_strlit("justify_days");
    lemma_push_keeps_lower(t, spec_core_entry("justify_days", FuncCategory::Scalar, FuncDomain::DateTime, 1, Some(1), false));
    let t = t.push(spec_core_entry("justify_days", FuncCategory::Scalar, FuncDomain::DateTime, 1, Some(1), false));
    reveal_strlit("justify_hours");
    lemma_push_keeps_lower(t, spec_core_entry("justify_hours", FuncCategory::Scalar, FuncDomain::DateTime, 1, Some(1), false));
    let t = t.push(spec_core_entry("justify_hours", FuncCategory::Scalar, FuncDomain::DateTime, 1, Some(1), false));
    reveal_strlit("justify_interval");
    lemma_push_keeps_lower(t, spec_core_entry("justify_interval", FuncCategory::Scalar, FuncDomain::DateTime, 1, Some(1), false));
    let t = t.push(spec_core_entry("justify_interval", FuncCategory::Scalar, FuncDomain::DateTime, 1, Some(1), false));
    assert(t == table_chunk_5_4(s));
}

proof fn lemma_chunk_lower_5_5(s: Seq<FuncMeta>)
    requires
        names_lower(s),
    ensures
        names_lower(table_chunk_5_5(s)),
{
    let t = s;
    reveal_strlit("lag");
    lemma_push_keeps_lower(t, spec_core_entry("lag", FuncCategory::Window, FuncDomain::Window, 1, Some(3), false));
    let t = t.push(spec_core_entry("lag", FuncCategory::Window, FuncDomain::Window, 1, Some(3), false));
    reveal_strlit("last_day");
    lemma_push_keeps_lower(t, spec_oracle_entry("last_day", FuncCategory::Scalar, FuncDomain::OracleCompat, 1, Some(1), false));
    let t = t.push(spec_oracle_entry("last_day", FuncCategory::Scalar, FuncDomain::OracleCompat, 1, Some(1), false));
    reveal_strlit("last_insert_id");
    lemma_push_keeps_lower(t, spec_core_entry("last_insert_id", FuncCategory::Scalar, FuncDomain::System, 0, Some(1), false));
    let t = t.push(spec_core_entry("last_insert_id", FuncCategory::Scalar, FuncDomain::System, 0, Some(1), false));
    reveal_strlit("last_value");
    lemma_push_keeps_lower(t, spec_core_entry("last_value", FuncCategory::Window, FuncDomain::Window, 1, Some(1), false));
    let t = t.push(spec_core_entry("last_value", FuncCategory::Window, FuncDomain::Window, 1, Some(1), false));
    reveal_strlit("lastval");
    lemma_push_keeps_lower(t, spec_core_entry("lastval", FuncCategory::Scalar, FuncDomain::System, 0, Some(0), false));
    let t = t.push(spec_core_entry("lastval", FuncCategory::Scalar, FuncDomain::System, 0, Some(0), false));
    reveal_strlit("lcm");
    lemma_push_keeps_lower(t, spec_core_entry("lcm", FuncCategory::Scalar, FuncDomain::Math, 2, Some(2), false));
    let t = t.push(spec_core_entry("lcm", FuncCategory::Scalar, FuncDomain::Math, 2, Some(2), false));
    reveal_strlit("lead");
    lemma_push_keeps_lower(t, spec_core_entry("lead", FuncCategory::Window, FuncDomain::Window, 1, Some(3), false));
    let t = t.push(spec_core_entry("lead", FuncCategory::Window, FuncDomain::Window, 1, Some(3), false));
    reveal_strlit("least");
    lemma_push_keeps_lower(t, spec_core_entry("least", FuncCategory::Special, FuncDomain::Other, 2, None, false));
    let t = t.push(spec_core_entry("least", FuncCategory::Special, FuncDomain::Other, 2, None, false));
    reveal_strlit("left");
    lemma_push_keeps_lower(t, spec_core_entry("left", FuncCategory::Scalar, FuncDomain::String, 2, Some(2), false));
    let t = t.push(spec_core_entry("left", FuncCategory::Scalar, FuncDomain::String, 2, Some(2), false));
    reveal_strlit("length");
    lemma_push_keeps_lower(t, spec_core_entry("length", FuncCategory::Scalar, FuncDomain::String, 1, Some(2), false));
    let t = t.push(spec_core_entry("length", FuncCategory::Scalar, FuncDomain::String, 1, Some(2), false));
    assert(t == table_chunk_5_5(s));
}

proof fn lemma_chunk_lower_5_6(s: Seq<FuncMeta>)
    requires
        names_lower(s),
    ensures
        names_lower(table_chunk_5_6(s)),
{
    let t = s;
    reveal_strlit("lengthb");
    lemma_push_keeps_lower(t, spec_core_entry("lengthb", FuncCategory::Scalar, FuncDomain::String, 1, Some(1), false));
    let t = t.push(spec_core_entry("lengthb", FuncCategory::Scalar, FuncDomain::String, 1, Some(1), false));
    reveal_strlit("listagg");
    lemma_push_keeps_lower(t, spec_oracle_entry("listagg", FuncCategory::Aggregate, FuncDomain::String, 1, Some(2), true));
    let t = t.push(spec_oracle_entry("listagg", FuncCategory::Aggregate, FuncDomain::String, 1, Some(2), true));
    reveal_strlit("ln");
    lemma_push_keeps_lower(t, spec_core_entry("ln", FuncCategory::Scalar, FuncDomain::Math, 1, Some(1), false));
    let t = t.push(spec_core_entry("ln", FuncCategory::Scalar, FuncDomain::Math, 1, Some(1), false));
    reveal_strlit("localtime");
    lemma_push_keeps_lower(t, spec_core_entry("localtime", FuncCategory::Scalar, FuncDomain::DateTime, 0, Some(1), false));
    let t = t.push(spec_core_entry("localtime", FuncCategory::Scalar, FuncDomain::DateTime, 0, Some(1), false));
    reveal_strlit("localtimestamp");
    lemma_push_keeps_lower(t, spec_core_entry("localtimestamp", FuncCategory::Scalar, FuncDomain::DateTime, 0, Some(1), false));
    let t = t.push(spec_core_entry("localtimestamp", FuncCategory::Scalar, FuncDomain::DateTime, 0, Some(1), false));
    reveal_strlit("log");
    lemma_push_keeps_lower(t, spec_core_entry("log", FuncCategory::Scalar, FuncDomain::Math, 1, Some(2), false));
    let t = t.push(spec_core_entry("log", FuncCategory::Scalar, FuncDomain::Math, 1, Some(2), false));
    reveal_strlit("log10");
    lemma_push_keeps_lower(t, spec_core_entry("log10", FuncCategory::Scalar, FuncDomain::Math, 1, Some(1), false));
    let t = t.push(spec_core_entry("log10", FuncCategory::Scalar, FuncDomain::Math, 1, Some(1), false));
    reveal_strlit("lower");
    lemma_push_keeps_lower(t, spec_core_entry("lower", FuncCategory::Scalar, FuncDomain::String, 1, Some(1), false));
    let t = t.push(spec_core_entry("lower", FuncCategory::Scalar, FuncDomain::String, 1, Some(1), false));
    reveal_strlit("lpad");
    lemma_push_keeps_lower(t, spec_core_entry("lpad", FuncCategory::Scalar, FuncDomain::String, 2, Some(3), false));
    let t = t.push(spec_core_entry("lpad", FuncCategory::Scalar, FuncDomain::String, 2, Some(3), false));
    reveal_strlit("ltrim");
    lemma_push_keeps_lower(t, spec_core_entry("ltrim", FuncCategory::Scalar, FuncDomain::String, 1, Some(2), false));
    let t = t.push(spec_core_entry("ltrim", FuncCategory::Scalar, FuncDomain::String, 1, Some(2), false));
    assert(t == table_chunk_5_6(s));
}

proof fn lemma_chunk_lower_5_7(s: Seq<FuncMeta>)
    requires
        names_lower(s),
    ensures
        names_lower(table_chunk_5_7(s)),
{
    let t = s;
    reveal_strlit("make_date");
    lemma_push_keeps_lower(t, spec_core_entry("make_date", FuncCategory::Scalar, FuncDomain::DateTime, 3, Some(3), false));
    let t = t.push(spec_core_entry("make_date", FuncCategory::Scalar, FuncDomain::DateTime, 3, Some(3), false));
    reveal_strlit("make_time");
    lemma_push_keeps_lower(t, spec_core_entry("make_time", FuncCategory::Scalar, FuncDomain::DateTime, 3, Some(3), false));
    let t = t.push(spec_core_entry("make_time", FuncCategory::Scalar, FuncDomain::DateTime, 3, Some(3), false));
    reveal_strlit("make_timestamp");
    lemma_push_keeps_lower(t, spec_core_entry("make_timestamp", FuncCategory::Scalar, FuncDomain::DateTime, 6, Some(6), false));
    let t = t.push(spec_core_entry("make_timestamp", FuncCategory::Scalar, FuncDomain::DateTime, 6, Some(6), false));
    reveal_strlit("make_timestamptz");
    lemma_push_keeps_lower(t, spec_core_entry("make_timestamptz", FuncCategory::Scalar, FuncDomain::DateTime, 6, Some(7), false));
    let t = t.push(spec_core_entry("make_timestamptz", FuncCategory::Scalar, FuncDomain::DateTime, 6, Some(7), false));
    reveal_strlit("makedate");
    lemma_push_keeps_lower(t, spec_commercial_entry("makedate", FuncCategory::Scalar, FuncDomain::DateTime, 2, Some(2), false));
    let t = t.push(spec_commercial_entry("makedate", FuncCategory::Scalar, FuncDomain::DateTime, 2, Some(2), false));
    reveal_strlit("maketime");
    lemma_push_keeps_lower(t, spec_commercial_entry("maketime", FuncCategory::Scalar, FuncDomain::DateTime, 3, Some(3), false));
    let t = t.push(spec_commercial_entry("maketime", FuncCategory::Scalar, FuncDomain::DateTime, 3, Some(3), false));
    reveal_strlit("masklen");
    lemma_push_keeps_lower(t, spec_core_entry("masklen", FuncCategory::Scalar, FuncDomain::Network, 1, Some(1), false));
    let t = t.push(spec_core_entry("masklen", FuncCategory::Scalar, FuncDomain::Network, 1, Some(1), false));
    reveal_strlit("max");
    lemma_push_keeps_lower(t, spec_core_entry("max", FuncCategory::Aggregate, FuncDomain::Aggregate, 1, Some(1), true));
    let t = t.push(spec_core_entry("max", FuncCategory::Aggregate, FuncDomain::Aggregate, 1, Some(1), true));
    reveal_strlit("md5");
    lemma_push_keeps_lower(t, spec_core_entry("md5", FuncCategory::Scalar, FuncDomain::Crypto, 1, Some(2), false));
    let t = t.push(spec_core_entry("md5", FuncCategory::Scalar, FuncDomain::Crypto, 1, Some(2), false));
    reveal_strlit("median");
    lemma_push_keeps_lower(t, spec_core_entry("median", FuncCategory::Aggregate, FuncDomain::Aggregate, 1, Some(1), true));
    let t = t.push(spec_core_entry("median", FuncCategory::Aggregate, FuncDomain::Aggregate, 1, Some(1), true));
    assert(t == table_chunk_5_7(s));
}

proof fn lemma_chunk_lower_5_8(s: Seq<FuncMeta>)
    requires
        names_lower(s),
    ensures
        names_lower(table_chunk_5_8(s)),
{
    let t = s;
    reveal_strlit("min");
    lemma_push_keeps_lower(t, spec_core_entry("min", FuncCategory::Aggregate, FuncDomain::Aggregate, 1, Some(1), true));
    let t = t.push(spec_core_entry("min", FuncCategory::Aggregate, FuncDomain::Aggregate, 1, Some(1), true));
    reveal_strlit("mod");
    lemma_push_keeps_lower(t, spec_core_entry("mod", FuncCategory::Scalar, FuncDomain::Math, 2, Some(2), false));
    let t = t.push(spec_core_entry("mod", FuncCategory::Scalar, FuncDomain::Math, 2, Some(2), false));
    reveal_strlit("mode");
    lemma_push_keeps_lower(t, spec_core_entry("mode", FuncCategory::Aggregate, FuncDomain::Aggregate, 1, Some(1), true));
    let t = t.push(spec_core_entry("mode", FuncCategory::Aggregate, FuncDomain::Aggregate, 1, Some(1), true));
    reveal_strlit("monthname");
    lemma_push_keeps_lower(t, spec_commercial_entry("monthname", FuncCategory::Scalar, FuncDomain::DateTime, 1, Some(1), false));
    let t = t.push(spec_commercial_entry("monthname", FuncCategory::Scalar, FuncDomain::DateTime, 1, Some(1), false));
    reveal_strlit("months_between");
    lemma_push_keeps_lower(t, spec_oracle_entry("months_between", FuncCategory::Scalar, FuncDomain::OracleCompat, 2, Some(2), false));
    let t = t.push(spec_oracle_entry("months_between", FuncCategory::Scalar, FuncDomain::OracleCompat, 2, Some(2), false));
    reveal_strlit("nanvl");
    lemma_push_keeps_lower(t, spec_commercial_oracle_entry("nanvl", FuncCategory::Scalar, FuncDomain::OracleCompat, 2, Some(2), false));
    let t = t.push(spec_commercial_oracle_entry("nanvl", FuncCategory::Scalar, FuncDomain::OracleCompat, 2, Some(2), false));
    reveal_strlit("nchr");
    lemma_push_keeps_lower(t, spec_oracle_entry("nchr", FuncCategory::Scalar, FuncDomain::String, 1, Some(1), false));
    let t = t.push(spec_oracle_entry("nchr", FuncCategory::Scalar, FuncDomain::String, 1, Some(1), false));
    reveal_strlit("netmask");
    lemma_push_keeps_lower(t, spec_core_entry("netmask", FuncCategory::Scalar, FuncDomain::Network, 1, Some(1), false));
    let t = t.push(spec_core_entry("netmask", FuncCategory::Scalar, FuncDomain::Network, 1, Some(1), false));
    reveal_strlit("network");
    lemma_push_keeps_lower(t, spec_core_entry("network", FuncCategory::Scalar, FuncDomain::Network, 1, Some(1), false));
    let t = t.push(spec_core_entry("network", FuncCategory::Scalar, FuncDomain::Network, 1, Some(1), false));
    reveal_strlit("new_time");
    lemma_push_keeps_lower(t, spec_oracle_entry("new_time", FuncCategory::Scalar, FuncDomain::DateTime, 3, Some(3), false));
    let t = t.push(spec_oracle_entry("new_time", FuncCategory::Scalar, FuncDomain::DateTime, 3, Some(3), false));
    assert(t == table_chunk_5_8(s));
}

proof fn lemma_chunk_lower_5_9(s: Seq<FuncMeta>)
    requires
        names_lower(s),
    ensures
        names_lower(table_chunk_5_9(s)),
{
    let t = s;
    reveal_strlit("next_day");
    lemma_push_keeps_lower(t, spec_oracle_entry("next_day", FuncCategory::Scalar, FuncDomain::OracleCompat, 2, Some(2), false));
    let t = t.push(spec_oracle_entry("next_day", FuncCategory::Scalar, FuncDomain::OracleCompat, 2, Some(2), false));
    reveal_strlit("nextval");
    lemma_push_keeps_lower(t, spec_core_entry("nextval", FuncCategory::Scalar, FuncDomain::System, 1, Some(1), false));
    let t = t.push(spec_core_entry("nextval", FuncCategory::Scalar, FuncDomain::System, 1, Some(1), false));
    reveal_strlit("nls_initcap");
    lemma_push_keeps_lower(t, spec_oracle_entry("nls_initcap", FuncCategory::Scalar, FuncDomain::OracleCompat, 1, Some(2), false));
    let t = t.push(spec_oracle_entry("nls_initcap", FuncCategory::Scalar, FuncDomain::OracleCompat, 1, Some(2), false));
    reveal_strlit("nls_lower");
    lemma_push_keeps_lower(t, spec_oracle_entry("nls_lower", FuncCategory::Scalar, FuncDomain::OracleCompat, 1, Some(2), false));
    let t = t.push(spec_oracle_entry("nls_lower", FuncCategory::Scalar, FuncDomain::OracleCompat, 1, Some(2), false));
    reveal_strlit("nls_sort");
    lemma_push_keeps_lower(t, spec_oracle_entry("nls_sort", FuncCategory::Scalar, FuncDomain::OracleCompat, 1, Some(2), false));
    let t = t.push(spec_oracle_entry("nls_sort", FuncCategory::Scalar, FuncDomain::OracleCompat, 1, Some(2), false));
    reveal_strlit("nls_upper");
    lemma_push_keeps_lower(t, spec_oracle_entry("nls_upper", FuncCategory::Scalar, FuncDomain::OracleCompat, 1, Some(2), false));
    let t = t.push(spec_oracle_entry("nls_upper", FuncCategory::Scalar, FuncDomain::OracleCompat, 1, Some(2), false));
    reveal_strlit("nlssort");
    lemma_push_keeps_lower(t, spec_oracle_entry("nlssort", FuncCategory::Scalar, FuncDomain::OracleCompat, 1, Some(2), false));
    let t = t.push(spec_oracle_entry("nlssort", FuncCategory::Scalar, FuncDomain::OracleCompat, 1, Some(2), false));
    reveal_strlit("now");
    lemma_push_keeps_lower(t, spec_core_entry("now", FuncCategory::Scalar, FuncDomain::DateTime, 0, Some(0), false));
    let t = t.push(spec_core_entry("now", FuncCategory::Scalar, FuncDomain::DateTime, 0, Some(0), false));
    reveal_strlit("nth_value");
    lemma_push_keeps_lower(t, spec_core_entry("nth_value", FuncCategory::Window, FuncDomain::Window, 2, Some(2), false));
    let t = t.push(spec_core_entry("nth_value", FuncCategory::Window, FuncDomain::Window, 2, Some(2), false));
    reveal_strlit("ntile");
    lemma_push_keeps_lower(t, spec_core_entry("ntile", FuncCategory::Window, FuncDomain::Window, 1, Some(1), false));
    let t = t.push(spec_core_entry("ntile", FuncCategory::Window, FuncDomain::Window, 1, Some(1), false));
    assert(t == table_chunk_5_9(s));
}

proof fn lemma_chunk_lower_5_10(s: Seq<FuncMeta>)
    requires
        names_lower(s),
    ensures
        names_lower(table_chunk_5_10(s)),
{
    let t = s;
    reveal_strlit("nullif");
    lemma_push_keeps_lower(t, spec_core_entry("nullif", FuncCategory::Special, FuncDomain::Other, 2, Some(2), false));
    let t = t.push(spec_core_entry("nullif", FuncCategory::Special, FuncDomain::Other, 2, Some(2), false));
    reveal_strlit("numrange");
    lemma_push_keeps_lower(t, spec_core_entry("numrange", FuncCategory::Scalar, FuncDomain::Range, 2, Some(3), false));
    let t = t.push(spec_core_entry("numrange", FuncCategory::Scalar, FuncDomain::Range, 2, Some(3), false));
    reveal_strlit("numtoday");
    lemma_push_keeps_lower(t, spec_core_entry("numtoday", FuncCategory::Scalar, FuncDomain::TypeConversion, 1, Some(1), false));
    let t = t.push(spec_core_entry("numtoday", FuncCategory::Scalar, FuncDomain::TypeConversion, 1, Some(1), false));
    reveal_strlit("numtodsinterval");
    lemma_push_keeps_lower(t, spec_core_entry("numtodsinterval", FuncCategory::Scalar, FuncDomain::TypeConversion, 2, Some(2), false));
    let t = t.push(spec_core_entry("numtodsinterval", FuncCategory::Scalar, FuncDomain::TypeConversion, 2, Some(2), false));
    reveal_strlit("numtoyminterval");
    lemma_push_keeps_lower(t, spec_commercial_oracle_entry("numtoyminterval", FuncCategory::Scalar, FuncDomain::TypeConversion, 2, Some(2), false));
    let t = t.push(spec_commercial_oracle_entry("numtoyminterval", FuncCategory::Scalar, FuncDomain::TypeConversion, 2, Some(2), false));
    reveal_strlit("nvl");
    lemma_push_keeps_lower(t, spec_oracle_entry("nvl", FuncCategory::Special, FuncDomain::OracleCompat, 2, Some(2), false));
    let t = t.push(spec_oracle_entry("nvl", FuncCategory::Special, FuncDomain::OracleCompat, 2, Some(2), false));
    reveal_strlit("nvl2");
    lemma_push_keeps_lower(t, spec_oracle_entry("nvl2", FuncCategory::Special, FuncDomain::OracleCompat, 3, Some(3), false));
    let t = t.push(spec_oracle_entry("nvl2", FuncCategory::Special, FuncDomain::OracleCompat, 3, Some(3), false));
    reveal_strlit("octet_length");
    lemma_push_keeps_lower(t, spec_core_entry("octet_length", FuncCategory::Scalar, FuncDomain::String, 1, Some(1), false));
    let t = t.push(spec_core_entry("octet_length", FuncCategory::Scalar, FuncDomain::String, 1, Some(1), false));
    reveal_strlit("ora_hash");
    lemma_push_keeps_lower(t, spec_commercial_entry("ora_hash", FuncCategory::Scalar, FuncDomain::Hash, 1, Some(2), false));
    let t = t.push(spec_commercial_entry("ora_hash", FuncCategory::Scalar, FuncDomain::Hash, 1, Some(2), false));
    reveal_strlit("overlay");
    lemma_push_keeps_lower(t, spec_core_entry("overlay", FuncCategory::Scalar, FuncDomain::String, 3, Some(4), false));
    let t = t.push(spec_core_entry("overlay", FuncCategory::Scalar, FuncDomain::String, 3, Some(4), false));
    assert(t == table_chunk_5_10(s));
}

proof fn lemma_chunk_lower_5_11(s: Seq<FuncMeta>)
    requires
        names_lower(s),
    ensures
        names_lower(table_chunk_5_11(s)),
{
    let t = s;
    reveal_strlit("percent_rank");
    lemma_push_keeps_lower(t, spec_core_entry("percent_rank", FuncCategory::Window, FuncDomain::Window, 0, Some(0), false));
    let t = t.push(spec_core_entry("percent_rank", FuncCategory::Window, FuncDomain::Window, 0, Some(0), false));
    reveal_strlit("percentile_cont");
    lemma_push_keeps_lower(t, spec_core_entry("percentile_cont", FuncCategory::Aggregate, FuncDomain::Aggregate, 1, Some(2), true));
    let t = t.push(spec_core_entry("percentile_cont", FuncCategory::Aggregate, FuncDomain::Aggregate, 1, Some(2), true));
    reveal_strlit("percentile_disc");
    lemma_push_keeps_lower(t, spec_core_entry("percentile_disc", FuncCategory::Aggregate, FuncDomain::Aggregate, 1, Some(2), true));
    let t = t.push(spec_core_entry("percentile_disc", FuncCategory::Aggregate, FuncDomain::Aggregate, 1, Some(2), true));
    reveal_strlit("period_add");
    lemma_push_keeps_lower(t, spec_commercial_entry("period_add", FuncCategory::Scalar, FuncDomain::DateTime, 2, Some(2), false));
    let t = t.push(spec_commercial_entry("period_add", FuncCategory::Scalar, FuncDomain::DateTime, 2, Some(2), false));
    reveal_strlit("period_diff");
    lemma_push_keeps_lower(t, spec_commercial_entry("period_diff", FuncCategory::Scalar, FuncDomain::DateTime, 2, Some(2), false));
    let t = t.push(spec_commercial_entry("period_diff", FuncCategory::Scalar, FuncDomain::DateTime, 2, Some(2), false));
    reveal_strlit("pg_advisory_lock");
    lemma_push_keeps_lower(t, spec_core_entry("pg_advisory_lock", FuncCategory::Scalar, FuncDomain::System, 1, Some(2), false));
    let t = t.push(spec_core_entry("pg_advisory_lock", FuncCategory::Scalar, FuncDomain::System, 1, Some(2), false));
    reveal_strlit("pg_advisory_unlock");
    lemma_push_keeps_lower(t, spec_core_entry("pg_advisory_unlock", FuncCategory::Scalar, FuncDomain::System, 1, Some(2), false));
    let t = t.push(spec_core_entry("pg_advisory_unlock", FuncCategory::Scalar, FuncDomain::System, 1, Some(2), false));
    reveal_strlit("pg_advisory_xact_lock");
    lemma_push_keeps_lower(t, spec_core_entry("pg_advisory_xact_lock", FuncCategory::Scalar, FuncDomain::System, 1, Some(2), false));
    let t = t.push(spec_core_entry("pg_advisory_xact_lock", FuncCategory::Scalar, FuncDomain::System, 1, Some(2), false));
    reveal_strlit("pg_backend_pid");
    lemma_push_keeps_lower(t, spec_core_entry("pg_backend_pid", FuncCategory::Scalar, FuncDomain::System, 0, Some(0), false));
    let t = t.push(spec_core_entry("pg_backend_pid", FuncCategory::Scalar, FuncDomain::System, 0, Some(0), false));
    reveal_strlit("pg_cancel_backend");
    lemma_push_keeps_lower(t, spec_core_entry("pg_cancel_backend", FuncCategory::Scalar, FuncDomain::System, 1, Some(1), false));
    let t = t.push(spec_core_entry("pg_cancel_backend", FuncCategory::Scalar, FuncDomain::System, 1, Some(1), false));
    assert(t == table_chunk_5_11(s));
}

proof fn lemma_chunk_lower_5_12(s: Seq<FuncMeta>)
    requires
        names_lower(s),
    ensures
        names_lower(table_chunk_5_12(s)),
{
    let t = s;
    reveal_strlit("pg_collation_is_visible");
    lemma_push_keeps_lower(t, spec_core_entry("pg_collation_is_visible", FuncCategory::Scalar, FuncDomain::System, 1, Some(2), false));
    let t = t.push(spec_core_entry("pg_collation_is_visible", FuncCategory::Scalar, FuncDomain::System, 1, Some(2), false));
    reveal_strlit("pg_column_size");
    lemma_push_keeps_lower(t, spec_core_entry("pg_column_size", FuncCategory::Scalar, FuncDomain::System, 1, Some(1), false));
    let t = t.push(spec_core_entry("pg_column_size", FuncCategory::Scalar, FuncDomain::System, 1, Some(1), false));
    reveal_strlit("pg_conf_load_time");
    lemma_push_keeps_lower(t, spec_core_entry("pg_conf_load_time", FuncCategory::Scalar, FuncDomain::System, 0, Some(0), false));
    let t = t.push(spec_core_entry("pg_conf_load_time", FuncCategory::Scalar, FuncDomain::System, 0, Some(0), false));
    reveal_strlit("pg_conversion_is_visible");
    lemma_push_keeps_lower(t, spec_core_entry("pg_conversion_is_visible", FuncCategory::Scalar, FuncDomain::System, 1, Some(1), false));
    let t = t.push(spec_core_entry("pg_conversion_is_visible", FuncCategory::Scalar, FuncDomain::System, 1, Some(1), false));
    reveal_strlit("pg_create_logical_replication_slot");
    lemma_push_keeps_lower(t, spec_core_entry("pg_create_logical_replication_slot", FuncCategory::Scalar, FuncDomain::System, 2, Some(3), false));
    let t = t.push(spec_core_entry("pg_create_logical_replication_slot", FuncCategory::Scalar, FuncDomain::System, 2, Some(3), false));
    assert(t == table_chunk_5_12(s));
}

proof fn lemma_part_5_lower(s: Seq<FuncMeta>)
    requires
        names_lower(s),
    ensures
        names_lower(table_part_5(s)),
{
    lemma_chunk_lower_5_0(s);
    let t0 = table_chunk_5_0(s);
    lemma_chunk_lower_5_1(t0);
    let t1 = table_chunk_5_1(t0);
    lemma_chunk_lower_5_2(t1);
    let t2 = table_chunk_5_2(t1);
    lemma_chunk_lower_5_3(t2);
    let t3 = table_chunk_5_3(t2);
    lemma_chunk_lower_5_4(t3);
    let t4 = table_chunk_5_4(t3);
    lemma_chunk_lower_5_5(t4);
    let t5 = table_chunk_5_5(t4);
    lemma_chunk_lower_5_6(t5);
    let t6 = table_chunk_5_6(t5);
    lemma_chunk_lower_5_7(t6);
    let t7 = table_chunk_5_7(t6);
    lemma_chunk_lower_5_8(t7);
    let t8 = table_chunk_5_8(t7);
    lemma_chunk_lower_5_9(t8);
    let t9 = table_chunk_5_9(t8);
    lemma_chunk_lower_5_10(t9);
    let t10 = table_chunk_5_10(t9);
    lemma_chunk_lower_5_11(t10);
    let t11 = table_chunk_5_11(t10);
    lemma_chunk_lower_5_12(t11);
    let t12 = table_chunk_5_12(t11);
    assert(t12 == table_part_5(s));
}

proof fn lemma_chunk_lower_6_0(s: Seq<FuncMeta>)
    requires
        names_lower(s),
    ensures
        names_lower(table_chunk_6_0(s)),
{
    let t = s;
    reveal_strlit("pg_create_physical_replication_slot");
    lemma_push_keeps_lower(t, spec_core_entry("pg_create_physical_replication_slot", FuncCategory::Scalar, FuncDomain::System, 1, Some(2), false));
    let t = t.push(spec_core_entry("pg_create_physical_replication_slot", FuncCategory::Scalar, FuncDomain::System, 1, Some(2), false));
    reveal_strlit("pg_current_xlog_location");
    lemma_push_keeps_lower(t, spec_core_entry("pg_current_xlog_location", FuncCategory::Scalar, FuncDomain::System, 0, Some(0), false));
    let t = t.push(spec_core_entry("pg_current_xlog_location", FuncCategory::Scalar, FuncDomain::System, 0, Some(0), false));
    reveal_strlit("pg_database_size");
    lemma_push_keeps_lower(t, spec_core_entry("pg_database_size", FuncCategory::Scalar, FuncDomain::System, 1, Some(1), false));
    let t = t.push(spec_core_entry("pg_database_size", FuncCategory::Scalar, FuncDomain::System, 1, Some(1), false));
    reveal_strlit("pg_describe_object");
    lemma_push_keeps_lower(t, spec_core_entry("pg_describe_object", FuncCategory::Scalar, FuncDomain::System, 3, Some(3), false));
    let t = t.push(spec_core_entry("pg_describe_object", FuncCategory::Scalar, FuncDomain::System, 3, Some(3), false));
    reveal_strlit("pg_drop_replication_slot");
    lemma_push_keeps_lower(t, spec_core_entry("pg_drop_replication_slot", FuncCategory::Scalar, FuncDomain::System, 1, Some(1), false));
    let t = t.push(spec_core_entry("pg_drop_replication_slot", FuncCategory::Scalar, FuncDomain::System, 1, Some(1), false));
    reveal_strlit("pg_exception_context");
    lemma_push_keeps_lower(t, spec_core_entry("pg_exception_context", FuncCategory::Scalar, FuncDomain::ExceptionContext, 0, Some(0), false));
    let t = t.push(spec_core_entry("pg_exception_context", FuncCategory::Scalar, FuncDomain::ExceptionContext, 0, Some(0), false));
    reveal_strlit("pg_exception_detail");
    lemma_push_keeps_lower(t, spec_core_entry("pg_exception_detail", FuncCategory::Scalar, FuncDomain::ExceptionContext, 0, Some(0), false));
    let t = t.push(spec_core_entry("pg_exception_detail", FuncCategory::Scalar, FuncDomain::ExceptionContext, 0, Some(0), false));
    reveal_strlit("pg_exception_hint");
    lemma_push_keeps_lower(t, spec_core_entry("pg_exception_hint", FuncCategory::Scalar, FuncDomain::ExceptionContext, 0, Some(0), false));
    let t = t.push(spec_core_entry("pg_exception_hint", FuncCategory::Scalar, FuncDomain::ExceptionContext, 0, Some(0), false));
    reveal_strlit("pg_export_snapshot");
    lemma_push_keeps_lower(t, spec_core_entry("pg_export_snapshot", FuncCategory::Scalar, FuncDomain::System, 0, Some(0), false));
    let t = t.push(spec_core_entry("pg_export_snapshot", FuncCategory::Scalar, FuncDomain::System, 0, Some(0), false));
    reveal_strlit("pg_function_is_visible");
    lemma_push_keeps_lower(t, spec_core_entry("pg_function_is_visible", FuncCategory::Scalar, FuncDomain::System, 1, Some(1), false));
    let t = t.push(spec_core_entry("pg_function_is_visible", FuncCategory::Scalar, FuncDomain::System, 1, Some(1), false));
    assert(t == table_chunk_6_0(s));
}

proof fn lemma_chunk_lower_6_1(s: Seq<FuncMeta>)
    requires
        names_lower(s),
    ensures
        names_lower(table_chunk_6_1(s)),
{
    let t = s;
    reveal_strlit("pg_get_constraintdef");
    lemma_push_keeps_lower(t, spec_core_entry("pg_get_constraintdef", FuncCategory::Scalar, FuncDomain::System, 1, Some(2), false));
    let t = t.push(spec_core_entry("pg_get_constraintdef", FuncCategory::Scalar, FuncDomain::System, 1, Some(2), false));
    reveal_strlit("pg_get_expr");
    lemma_push_keeps_lower(t, spec_core_entry("pg_get_expr", FuncCategory::Scalar, FuncDomain::System, 2, Some(3), false));
    let t = t.push(spec_core_entry("pg_get_expr", FuncCategory::Scalar, FuncDomain::System, 2, Some(3), false));
    reveal_strlit("pg_get_functiondef");
    lemma_push_keeps_lower(t, spec_core_entry("pg_get_functiondef", FuncCategory::Scalar, FuncDomain::System, 1, Some(1), false));
    let t = t.push(spec_core_entry("pg_get_functiondef", FuncCategory::Scalar, FuncDomain::System, 1, Some(1), false));
    reveal_strlit("pg_get_indexdef");
    lemma_push_keeps_lower(t, spec_core_entry("pg_get_indexdef", FuncCategory::Scalar, FuncDomain::System, 1, Some(3), false));
    let t = t.push(spec_core_entry("pg_get_indexdef", FuncCategory::Scalar, FuncDomain::System, 1, Some(3), false));
    reveal_strlit("pg_get_keywords");
    lemma_push_keeps_lower(t, spec_core_entry("pg_get_keywords", FuncCategory::Scalar, FuncDomain::System, 0, Some(0), false));
    let t = t.push(spec_core_entry("pg_get_keywords", FuncCategory::Scalar, FuncDomain::System, 0, Some(0), false));
    reveal_strlit("pg_get_ruledef");
    lemma_push_keeps_lower(t, spec_core_entry("pg_get_ruledef", FuncCategory::Scalar, FuncDomain::System, 1, Some(2), false));
    let t = t.push(spec_core_entry("pg_get_ruledef", FuncCategory::Scalar, FuncDomain::System, 1, Some(2), false));
    reveal_strlit("pg_get_serial_sequence");
    lemma_push_keeps_lower(t, spec_core_entry("pg_get_serial_sequence", FuncCategory::Scalar, FuncDomain::System, 2, Some(2), false));
    let t = t.push(spec_core_entry("pg_get_serial_sequence", FuncCategory::Scalar, FuncDomain::System, 2, Some(2), false));
    reveal_strlit("pg_get_triggerdef");
    lemma_push_keeps_lower(t, spec_core_entry("pg_get_triggerdef", FuncCategory::Scalar, FuncDomain::System, 1, Some(1), false));
    let t = t.push(spec_core_entry("pg_get_triggerdef", FuncCategory::Scalar, FuncDomain::System, 1, Some(1), false));
    reveal_strlit("pg_get_userbyid");
    lemma_push_keeps_lower(t, spec_core_entry("pg_get_userbyid", FuncCategory::Scalar, FuncDomain::System, 1, Some(1), false));
    let t = t.push(spec_core_entry("pg_get_userbyid", FuncCategory::Scalar, FuncDomain::System, 1, Some(1), false));
    reveal_strlit("pg_get_viewdef");
    lemma_push_keeps_lower(t, spec_core_entry("pg_get_viewdef", FuncCategory::Scalar, FuncDomain::System, 1, Some(2), false));
    let t = t.push(spec_core_entry("pg_get_viewdef", FuncCategory::Scalar, FuncDomain::System, 1, Some(2), false));
    assert(t == table_chunk_6_1(s));
}

proof fn lemma_chunk_lower_6_2(s: Seq<FuncMeta>)
    requires
        names_lower(s),
    ensures
        names_lower(table_chunk_6_2(s)),
{
    let t = s;
    reveal_strlit("pg_has_role");
    lemma_push_keeps_lower(t, spec_core_entry("pg_has_role", FuncCategory::Scalar, FuncDomain::System, 2, Some(3), false));
    let t = t.push(spec_core_entry("pg_has_role", FuncCategory::Scalar, FuncDomain::System, 2, Some(3), false));
    reveal_strlit("pg_identify_object");
    lemma_push_keeps_lower(t, spec_core_entry("pg_identify_object", FuncCategory::Scalar, FuncDomain::System, 3, Some(3), false));
    let t = t.push(spec_core_entry("pg_identify_object", FuncCategory::Scalar, FuncDomain::System, 3, Some(3), false));
    reveal_strlit("pg_indexes_size");
    lemma_push_keeps_lower(t, spec_core_entry("pg_indexes_size", FuncCategory::Scalar, FuncDomain::System, 1, Some(1), false));
    let t = t.push(spec_core_entry("pg_indexes_size", FuncCategory::Scalar, FuncDomain::System, 1, Some(1), false));
    reveal_strlit("pg_is_in_recovery");
    lemma_push_keeps_lower(t, spec_core_entry("pg_is_in_recovery", FuncCategory::Scalar, FuncDomain::System, 0, Some(0), false));
    let t = t.push(spec_core_entry("pg_is_in_recovery", FuncCategory::Scalar, FuncDomain::System, 0, Some(0), false));
    reveal_strlit("pg_is_other_temp_schema");
    lemma_push_keeps_lower(t, spec_core_entry("pg_is_other_temp_schema", FuncCategory::Scalar, FuncDomain::System, 1, Some(1), false));
    let t = t.push(spec_core_entry("pg_is_other_temp_schema", FuncCategory::Scalar, FuncDomain::System, 1, Some(1), false));
    reveal_strlit("pg_last_xact_replay_timestamp");
    lemma_push_keeps_lower(t, spec_core_entry("pg_last_xact_replay_timestamp", FuncCategory::Scalar, FuncDomain::System, 0, Some(0), false));
    let t = t.push(spec_core_entry("pg_last_xact_replay_timestamp", FuncCategory::Scalar, FuncDomain::System, 0, Some(0), false));
    reveal_strlit("pg_listening_channels");
    lemma_push_keeps_lower(t, spec_core_entry("pg_listening_channels", FuncCategory::Scalar, FuncDomain::System, 0, Some(0), false));
    let t = t.push(spec_core_entry("pg_listening_channels", FuncCategory::Scalar, FuncDomain::System, 0, Some(0), false));
    reveal_strlit("pg_logical_slot_get_binary_changes");
    lemma_push_keeps_lower(t, spec_core_entry("pg_logical_slot_get_binary_changes", FuncCategory::Scalar, FuncDomain::System, 2, None, false));
    let t = t.push(spec_core_entry("pg_logical_slot_get_binary_changes", FuncCategory::Scalar, FuncDomain::System, 2, None, false));
    reveal_strlit("pg_logical_slot_get_changes");
    lemma_push_keeps_lower(t, spec_core_entry("pg_logical_slot_get_changes", FuncCategory::Scalar, FuncDomain::System, 2, None, false));
    let t = t.push(spec_core_entry("pg_logical_slot_get_changes", FuncCategory::Scalar, FuncDomain::System, 2, None, false));
    reveal_strlit("pg_logical_slot_peek_binary_changes");
    lemma_push_keeps_lower(t, spec_core_entry("pg_logical_slot_peek_binary_changes", FuncCategory::Scalar, FuncDomain::System, 2, None, false));
    let t = t.push(spec_core_entry("pg_logical_slot_peek_binary_changes", FuncCategory::Scalar, FuncDomain::System, 2, None, false));
    assert(t == table_chunk_6_2(s));
}

proof fn lemma_chunk_lower_6_3(s: Seq<FuncMeta>)
    requires
        names_lower(s),
    ensures
        names_lower(table_chunk_6_3(s)),
{
    let t = s;
    reveal_strlit("pg_logical_slot_peek_changes");
    lemma_push_keeps_lower(t, spec_core_entry("pg_logical_slot_peek_changes", FuncCategory::Scalar, FuncDomain::System, 2, None, false));
    let t = t.push(spec_core_entry("pg_logical_slot_peek_changes", FuncCategory::Scalar, FuncDomain::System, 2, None, false));
    reveal_strlit("pg_ls_dir");
    lemma_push_keeps_lower(t, spec_core_entry("pg_ls_dir", FuncCategory::Scalar, FuncDomain::System, 1, Some(1), false));
    let t = t.push(spec_core_entry("pg_ls_dir", FuncCategory::Scalar, FuncDomain::System, 1, Some(1), false));
    reveal_strlit("pg_my_temp_schema");
    lemma_push_keeps_lower(t, spec_core_entry("pg_my_temp_schema", FuncCategory::Scalar, FuncDomain::System, 0, Some(0), false));
    let t = t.push(spec_core_entry("pg_my_temp_schema", FuncCategory::Scalar, FuncDomain::System, 0, Some(0), false));
    reveal_strlit("pg_opclass_is_visible");
    lemma_push_keeps_lower(t, spec_core_entry("pg_opclass_is_visible", FuncCategory::Scalar, FuncDomain::System, 1, Some(1), false));
    let t = t.push(spec_core_entry("pg_opclass_is_visible", FuncCategory::Scalar, FuncDomain::System, 1, Some(1), false));
    reveal_strlit("pg_operator_is_visible");
    lemma_push_keeps_lower(t, spec_core_entry("pg_operator_is_visible", FuncCategory::Scalar, FuncDomain::System, 1, Some(1), false));
    let t = t.push(spec_core_entry("pg_operator_is_visible", FuncCategory::Scalar, FuncDomain::System, 1, Some(1), false));
    reveal_strlit("pg_opfamily_is_visible");
    lemma_push_keeps_lower(t, spec_core_entry("pg_opfamily_is_visible", FuncCategory::Scalar, FuncDomain::System, 1, Some(1), false));
    let t = t.push(spec_core_entry("pg_opfamily_is_visible", FuncCategory::Scalar, FuncDomain::System, 1, Some(1), false));
    reveal_strlit("pg_postmaster_start_time");
    lemma_push_keeps_lower(t, spec_core_entry("pg_postmaster_start_time", FuncCategory::Scalar, FuncDomain::System, 0, Some(0), false));
    let t = t.push(spec_core_entry("pg_postmaster_start_time", FuncCategory::Scalar, FuncDomain::System, 0, Some(0), false));
    reveal_strlit("pg_prepared_statement");
    lemma_push_keeps_lower(t, spec_core_entry("pg_prepared_statement", FuncCategory::Scalar, FuncDomain::System, 1, Some(1), false));
    let t = t.push(spec_core_entry("pg_prepared_statement", FuncCategory::Scalar, FuncDomain::System, 1, Some(1), false));
    reveal_strlit("pg_prepared_xact");
    lemma_push_keeps_lower(t, spec_core_entry("pg_prepared_xact", FuncCategory::Scalar, FuncDomain::System, 1, Some(1), false));
    let t = t.push(spec_core_entry("pg_prepared_xact", FuncCategory::Scalar, FuncDomain::System, 1, Some(1), false));
    reveal_strlit("pg_query_audit");
    lemma_push_keeps_lower(t, spec_core_entry("pg_query_audit", FuncCategory::Scalar, FuncDomain::System, 2, Some(2), false));
    let t = t.push(spec_core_entry("pg_query_audit", FuncCategory::Scalar, FuncDomain::System, 2, Some(2), false));
    assert(t == table_chunk_6_3(s));
}

proof fn lemma_chunk_lower_6_4(s: Seq<FuncMeta>)
    requires
        names_lower(s),
    ensures
        names_lower(table_chunk_6_4(s)),
{
    let t = s;
    reveal_strlit("pg_read_binary_file");
    lemma_push_keeps_lower(t, spec_core_entry("pg_read_binary_file", FuncCategory::Scalar, FuncDomain::System, 1, Some(3), false));
    let t = t.push(spec_core_entry("pg_read_binary_file", FuncCategory::Scalar, FuncDomain::System, 1, Some(3), false));
    reveal_strlit("pg_read_file");
    lemma_push_keeps_lower(t, spec_core_entry("pg_read_file", FuncCategory::Scalar, FuncDomain::System, 1, Some(3), false));
    let t = t.push(spec_core_entry("pg_read_file", FuncCategory::Scalar, FuncDomain::System, 1, Some(3), false));
    reveal_strlit("pg_relation_filenode");
    lemma_push_keeps_lower(t, spec_core_entry("pg_relation_filenode", FuncCategory::Scalar, FuncDomain::System, 1, Some(1), false));
    let t = t.push(spec_core_entry("pg_relation_filenode", FuncCategory::Scalar, FuncDomain::System, 1, Some(1), false));
    reveal_strlit("pg_relation_filepath");
    lemma_push_keeps_lower(t, spec_core_entry("pg_relation_filepath", FuncCategory::Scalar, FuncDomain::System, 1, Some(1), false));
    let t = t.push(spec_core_entry("pg_relation_filepath", FuncCategory::Scalar, FuncDomain::System, 1, Some(1), false));
    reveal_strlit("pg_relation_size");
    lemma_push_keeps_lower(t, spec_core_entry("pg_relation_size", FuncCategory::Scalar, FuncDomain::System, 1, Some(2), false));
    let t = t.push(spec_core_entry("pg_relation_size", FuncCategory::Scalar, FuncDomain::System, 1, Some(2), false));
    reveal_strlit("pg_replication_origin_create");
    lemma_push_keeps_lower(t, spec_core_entry("pg_replication_origin_create", FuncCategory::Scalar, FuncDomain::System, 1, Some(1), false));
    let t = t.push(spec_core_entry("pg_replication_origin_create", FuncCategory::Scalar, FuncDomain::System, 1, Some(1), false));
    reveal_strlit("pg_replication_origin_drop");
    lemma_push_keeps_lower(t, spec_core_entry("pg_replication_origin_drop", FuncCategory::Scalar, FuncDomain::System, 1, Some(1), false));
    let t = t.push(spec_core_entry("pg_replication_origin_drop", FuncCategory::Scalar, FuncDomain::System, 1, Some(1), false));
    reveal_strlit("pg_replication_origin_oid");
    lemma_push_keeps_lower(t, spec_core_entry("pg_replication_origin_oid", FuncCategory::Scalar, FuncDomain::System, 1, Some(1), false));
    let t = t.push(spec_core_entry("pg_replication_origin_oid", FuncCategory::Scalar, FuncDomain::System, 1, Some(1), false));
    reveal_strlit("pg_replication_origin_progress");
    lemma_push_keeps_lower(t, spec_core_entry("pg_replication_origin_progress", FuncCategory::Scalar, FuncDomain::System, 1, Some(2), false));
    let t = t.push(spec_core_entry("pg_replication_origin_progress", FuncCategory::Scalar, FuncDomain::System, 1, Some(2), false));
    reveal_strlit("pg_rotate_logfile");
    lemma_push_keeps_lower(t, spec_core_entry("pg_rotate_logfile", FuncCategory::Scalar, FuncDomain::System, 0, Some(0), false));
    let t = t.push(spec_core_entry("pg_rotate_logfile", FuncCategory::Scalar, FuncDomain::System, 0, Some(0), false));
    assert(t == table_chunk_6_4(s));
}

proof fn lemma_chunk_lower_6_5(s: Seq<FuncMeta>)
    requires
        names_lower(s),
    ensures
        names_lower(table_chunk_6_5(s)),
{
    let t = s;
    reveal_strlit("pg_size_pretty");
    lemma_push_keeps_lower(t, spec_core_entry("pg_size_pretty", FuncCategory::Scalar, FuncDomain::System, 1, Some(1), false));
    let t = t.push(spec_core_entry("pg_size_pretty", FuncCategory::Scalar, FuncDomain::System, 1, Some(1), false));
    reveal_strlit("pg_sleep");
    lemma_push_keeps_lower(t, spec_core_entry("pg_sleep", FuncCategory::Scalar, FuncDomain::System, 1, Some(1), false));
    let t = t.push(spec_core_entry("pg_sleep", FuncCategory::Scalar, FuncDomain::System, 1, Some(1), false));
    reveal_strlit("pg_start_backup");
    lemma_push_keeps_lower(t, spec_core_entry("pg_start_backup", FuncCategory::Scalar, FuncDomain::System, 1, Some(2), false));
    let t = t.push(spec_core_entry("pg_start_backup", FuncCategory::Scalar, FuncDomain::System, 1, Some(2), false));
    reveal_strlit("pg_stat_file");
    lemma_push_keeps_lower(t, spec_core_entry("pg_stat_file", FuncCategory::Scalar, FuncDomain::System, 1, Some(1), false));
    let t = t.push(spec_core_entry("pg_stat_file", FuncCategory::Scalar, FuncDomain::System, 1, Some(1), false));
    reveal_strlit("pg_stop_backup");
    lemma_push_keeps_lower(t, spec_core_entry("pg_stop_backup", FuncCategory::Scalar, FuncDomain::System, 0, Some(1), false));
    let t = t.push(spec_core_entry("pg_stop_backup", FuncCategory::Scalar, FuncDomain::System, 0, Some(1), false));
    reveal_strlit("pg_switch_xlog");
    lemma_push_keeps_lower(t, spec_core_entry("pg_switch_xlog", FuncCategory::Scalar, FuncDomain::System, 0, Some(0), false));
    let t = t.push(spec_core_entry("pg_switch_xlog", FuncCategory::Scalar, FuncDomain::System, 0, Some(0), false));
    reveal_strlit("pg_table_is_visible");
    lemma_push_keeps_lower(t, spec_core_entry("pg_table_is_visible", FuncCategory::Scalar, FuncDomain::System, 1, Some(2), false));
    let t = t.push(spec_core_entry("pg_table_is_visible", FuncCategory::Scalar, FuncDomain::System, 1, Some(2), false));
    reveal_strlit("pg_table_size");
    lemma_push_keeps_lower(t, spec_core_entry("pg_table_size", FuncCategory::Scalar, FuncDomain::System, 1, Some(1), false));
    let t = t.push(spec_core_entry("pg_table_size", FuncCategory::Scalar, FuncDomain::System, 1, Some(1), false));
    reveal_strlit("pg_tablespace_databases");
    lemma_push_keeps_lower(t, spec_core_entry("pg_tablespace_databases", FuncCategory::Scalar, FuncDomain::System, 1, Some(1), false));
    let t = t.push(spec_core_entry("pg_tablespace_databases", FuncCategory::Scalar, FuncDomain::System, 1, Some(1), false));
    reveal_strlit("pg_tablespace_location");
    lemma_push_keeps_lower(t, spec_core_entry("pg_tablespace_location", FuncCategory::Scalar, FuncDomain::System, 1, Some(1), false));
    let t = t.push(spec_core_entry("pg_tablespace_location", FuncCategory::Scalar, FuncDomain::System, 1, Some(1), false));
    assert(t == table_chunk_6_5(s));
}

proof fn lemma_chunk_lower_6_6(s: Seq<FuncMeta>)
    requires
        names_lower(s),
    ensures
        names_lower(table_chunk_6_6(s)),
{
    let t = s;
    reveal_strlit("pg_tablespace_size");
    lemma_push_keeps_lower(t, spec_core_entry("pg_tablespace_size", FuncCategory::Scalar, FuncDomain::System, 1, Some(1), false));
    let t = t.push(spec_core_entry("pg_tablespace_size", FuncCategory::Scalar, FuncDomain::System, 1, Some(1), false));
    reveal_strlit("pg_terminate_backend");
    lemma_push_keeps_lower(t, spec_core_entry("pg_terminate_backend", FuncCategory::Scalar, FuncDomain::System, 1, Some(1), false));
    let t = t.push(spec_core_entry("pg_terminate_backend", FuncCategory::Scalar, FuncDomain::System, 1, Some(1), false));
    reveal_strlit("pg_total_relation_size");
    lemma_push_keeps_lower(t, spec_core_entry("pg_total_relation_size", FuncCategory::Scalar, FuncDomain::System, 1, Some(1), false));
    let t = t.push(spec_core_entry("pg_total_relation_size", FuncCategory::Scalar, FuncDomain::System, 1, Some(1), false));
    reveal_strlit("pg_try_advisory_lock");
    lemma_push_keeps_lower(t, spec_core_entry("pg_try_advisory_lock", FuncCategory::Scalar, FuncDomain::System, 1, Some(2), false));
    let t = t.push(spec_core_entry("pg_try_advisory_lock", FuncCategory::Scalar, FuncDomain::System, 1, Some(2), false));
    reveal_strlit("pg_try_advisory_xact_lock");
    lemma_push_keeps_lower(t, spec_core_entry("pg_try_advisory_xact_lock", FuncCategory::Scalar, FuncDomain::System, 1, Some(2), false));
    let t = t.push(spec_core_entry("pg_try_advisory_xact_lock", FuncCategory::Scalar, FuncDomain::System, 1, Some(2), false));
    reveal_strlit("pg_ts_config_is_visible");
    lemma_push_keeps_lower(t, spec_core_entry("pg_ts_config_is_visible", FuncCategory::Scalar, FuncDomain::System, 1, Some(1), false));
    let t = t.push(spec_core_entry("pg_ts_config_is_visible", FuncCategory::Scalar, FuncDomain::System, 1, Some(1), false));
    reveal_strlit("pg_ts_dict_is_visible");
    lemma_push_keeps_lower(t, spec_core_entry("pg_ts_dict_is_visible", FuncCategory::Scalar, FuncDomain::System, 1, Some(1), false));
    let t = t.push(spec_core_entry("pg_ts_dict_is_visible", FuncCategory::Scalar, FuncDomain::System, 1, Some(1), false));
    reveal_strlit("pg_ts_parser_is_visible");
    lemma_push_keeps_lower(t, spec_core_entry("pg_ts_parser_is_visible", FuncCategory::Scalar, FuncDomain::System, 1, Some(1), false));
    let t = t.push(spec_core_entry("pg_ts_parser_is_visible", FuncCategory::Scalar, FuncDomain::System, 1, Some(1), false));
    reveal_strlit("pg_ts_template_is_visible");
    lemma_push_keeps_lower(t, spec_core_entry("pg_ts_template_is_visible", FuncCategory::Scalar, FuncDomain::System, 1, Some(1), false));
    let t = t.push(spec_core_entry("pg_ts_template_is_visible", FuncCategory::Scalar, FuncDomain::System, 1, Some(1), false));
    reveal_strlit("pg_type_is_visible");
    lemma_push_keeps_lower(t, spec_core_entry("pg_type_is_visible", FuncCategory::Scalar, FuncDomain::System, 1, Some(1), false));
    let t = t.push(spec_core_entry("pg_type_is_visible", FuncCategory::Scalar, FuncDomain::System, 1, Some(1), false));
    assert(t == table_chunk_6_6(s));
}

proof fn lemma_chunk_lower_6_7(s: Seq<FuncMeta>)
    requires
        names_lower(s),
    ensures
        names_lower(table_chunk_6_7(s)),
{
    let t = s;
    reveal_strlit("pg_typeof");
    lemma_push_keeps_lower(t, spec_core_entry("pg_typeof", FuncCategory::Scalar, FuncDomain::System, 1, Some(1), false));
    let t = t.push(spec_core_entry("pg_typeof", FuncCategory::Scalar, FuncDomain::System, 1, Some(1), false));
    reveal_strlit("pg_xlog_location_diff");
    lemma_push_keeps_lower(t, spec_core_entry("pg_xlog_location_diff", FuncCategory::Scalar, FuncDomain::System, 2, Some(2), false));
    let t = t.push(spec_core_entry("pg_xlog_location_diff", FuncCategory::Scalar, FuncDomain::System, 2, Some(2), false));
    reveal_strlit("pg_xlog_replay_pause");
    lemma_push_keeps_lower(t, spec_core_entry("pg_xlog_replay_pause", FuncCategory::Scalar, FuncDomain::System, 0, Some(0), false));
    let t = t.push(spec_core_entry("pg_xlog_replay_pause", FuncCategory::Scalar, FuncDomain::System, 0, Some(0), false));
    reveal_strlit("pg_xlog_replay_resume");
    lemma_push_keeps_lower(t, spec_core_entry("pg_xlog_replay_resume", FuncCategory::Scalar, FuncDomain::System, 0, Some(0), false));
    let t = t.push(spec_core_entry("pg_xlog_replay_resume", FuncCategory::Scalar, FuncDomain::System, 0, Some(0), false));
    reveal_strlit("pg_xlogfile_name");
    lemma_push_keeps_lower(t, spec_core_entry("pg_xlogfile_name", FuncCategory::Scalar, FuncDomain::System, 1, Some(1), false));
    let t = t.push(spec_core_entry("pg_xlogfile_name", FuncCategory::Scalar, FuncDomain::System, 1, Some(1), false));
    reveal_strlit("pg_xlogfile_name_offset");
    lemma_push_keeps_lower(t, spec_core_entry("pg_xlogfile_name_offset", FuncCategory::Scalar, FuncDomain::System, 1, Some(1), false));
    let t = t.push(spec_core_entry("pg_xlogfile_name_offset", FuncCategory::Scalar, FuncDomain::System, 1, Some(1), false));
    reveal_strlit("pi");
    lemma_push_keeps_lower(t, spec_core_entry("pi", FuncCategory::Scalar, FuncDomain::Math, 0, Some(0), false));
    let t = t.push(spec_core_entry("pi", FuncCategory::Scalar, FuncDomain::Math, 0, Some(0), false));
    reveal_strlit("pkg_service.isubmit_on_nodes");
    lemma_push_keeps_lower(t, spec_oracle_entry("pkg_service.isubmit_on_nodes", FuncCategory::Scalar, FuncDomain::PkgService, 5, Some(6), false));
    let t = t.push(spec_oracle_entry("pkg_service.isubmit_on_nodes", FuncCategory::Scalar, FuncDomain::PkgService, 5, Some(6), false));
    reveal_strlit("pkg_service.job_cancel");
    lemma_push_keeps_lower(t, spec_oracle_entry("pkg_service.job_cancel", FuncCategory::Scalar, FuncDomain::PkgService, 1, Some(1), false));
    let t = t.push(spec_oracle_entry("pkg_service.job_cancel", FuncCategory::Scalar, FuncDomain::PkgService, 1, Some(1), false));
    reveal_strlit("pkg_service.job_finish");
    lemma_push_keeps_lower(t, spec_oracle_entry("pkg_service.job_finish", FuncCategory::Scalar, FuncDomain::PkgService, 2, Some(3), false));
    let t = t.push(spec_oracle_entry("pkg_service.job_finish", FuncCategory::Scalar, FuncDomain::PkgService, 2, Some(3), false));
    assert(t == table_chunk_6_7(s));
}

proof fn lemma_chunk_lower_6_8(s: Seq<FuncMeta>)
    requires
        names_lower(s),
    ensures
        names_lower(table_chunk_6_8(s)),
{
    let t = s;
    reveal_strlit("pkg_service.job_submit");
    lemma_push_keeps_lower(t, spec_oracle_entry("pkg_service.job_submit", FuncCategory::Scalar, FuncDomain::PkgService, 3, Some(5), false));
    let t = t.push(spec_oracle_entry("pkg_service.job_submit", FuncCategory::Scalar, FuncDomain::PkgService, 3, Some(5), false));
    reveal_strlit("pkg_service.job_update");
    lemma_push_keeps_lower(t, spec_oracle_entry("pkg_service.job_update", FuncCategory::Scalar, FuncDomain::PkgService, 4, Some(4), false));
    let t = t.push(spec_oracle_entry("pkg_service.job_update", FuncCategory::Scalar, FuncDomain::PkgService, 4, Some(4), false));
    reveal_strlit("pkg_service.sql_cancel");
    lemma_push_keeps_lower(t, spec_oracle_entry("pkg_service.sql_cancel", FuncCategory::Scalar, FuncDomain::PkgService, 1, Some(1), false));
    let t = t.push(spec_oracle_entry("pkg_service.sql_cancel", FuncCategory::Scalar, FuncDomain::PkgService, 1, Some(1), false));
    reveal_strlit("pkg_service.sql_clean_all_contexts");
    lemma_push_keeps_lower(t, spec_oracle_entry("pkg_service.sql_clean_all_contexts", FuncCategory::Scalar, FuncDomain::PkgService, 0, Some(0), false));
    let t = t.push(spec_oracle_entry("pkg_service.sql_clean_all_contexts", FuncCategory::Scalar, FuncDomain::PkgService, 0, Some(0), false));
    reveal_strlit("pkg_service.sql_get_array_result");
    lemma_push_keeps_lower(t, spec_oracle_entry("pkg_service.sql_get_array_result", FuncCategory::Scalar, FuncDomain::PkgService, 4, Some(4), false));
    let t = t.push(spec_oracle_entry("pkg_service.sql_get_array_result", FuncCategory::Scalar, FuncDomain::PkgService, 4, Some(4), false));
    reveal_strlit("pkg_service.sql_get_value");
    lemma_push_keeps_lower(t, spec_oracle_entry("pkg_service.sql_get_value", FuncCategory::Scalar, FuncDomain::PkgService, 3, Some(3), false));
    let t = t.push(spec_oracle_entry("pkg_service.sql_get_value", FuncCategory::Scalar, FuncDomain::PkgService, 3, Some(3), false));
    reveal_strlit("pkg_service.sql_get_variable_result");
    lemma_push_keeps_lower(t, spec_oracle_entry("pkg_service.sql_get_variable_result", FuncCategory::Scalar, FuncDomain::PkgService, 3, Some(3), false));
    let t = t.push(spec_oracle_entry("pkg_service.sql_get_variable_result", FuncCategory::Scalar, FuncDomain::PkgService, 3, Some(3), false));
    reveal_strlit("pkg_service.sql_is_context_active");
    lemma_push_keeps_lower(t, spec_oracle_entry("pkg_service.sql_is_context_active", FuncCategory::Scalar, FuncDomain::PkgService, 1, Some(1), false));
    let t = t.push(spec_oracle_entry("pkg_service.sql_is_context_active", FuncCategory::Scalar, FuncDomain::PkgService, 1, Some(1), false));
    reveal_strlit("pkg_service.sql_next_row");
    lemma_push_keeps_lower(t, spec_oracle_entry("pkg_service.sql_next_row", FuncCategory::Scalar, FuncDomain::PkgService, 1, Some(1), false));
    let t = t.push(spec_oracle_entry("pkg_service.sql_next_row", FuncCategory::Scalar, FuncDomain::PkgService, 1, Some(1), false));
    reveal_strlit("pkg_service.sql_register_context");
    lemma_push_keeps_lower(t, spec_oracle_entry("pkg_service.sql_register_context", FuncCategory::Scalar, FuncDomain::PkgService, 0, Some(0), false));
    let t = t.push(spec_oracle_entry("pkg_service.sql_register_context", FuncCategory::Scalar, FuncDomain::PkgService, 0, Some(0), false));
    assert(t == table_chunk_6_8(s));
}

proof fn lemma_chunk_lower_6_9(s: Seq<FuncMeta>)
    requires
        names_lower(s),
    ensures
        names_lower(table_chunk_6_9(s)),
{
    let t = s;
    reveal_strlit("pkg_service.sql_run");
    lemma_push_keeps_lower(t, spec_oracle_entry("pkg_service.sql_run", FuncCategory::Scalar, FuncDomain::PkgService, 1, Some(1), false));
    let t = t.push(spec_oracle_entry("pkg_service.sql_run", FuncCategory::Scalar, FuncDomain::PkgService, 1, Some(1), false));
    reveal_strlit("pkg_service.sql_set_result_type");
    lemma_push_keeps_lower(t, spec_oracle_entry("pkg_service.sql_set_result_type", FuncCategory::Scalar, FuncDomain::PkgService, 4, Some(4), false));
    let t = t.push(spec_oracle_entry("pkg_service.sql_set_result_type", FuncCategory::Scalar, FuncDomain::PkgService, 4, Some(4), false));
    reveal_strlit("pkg_service.sql_set_sql");
    lemma_push_keeps_lower(t, spec_oracle_entry("pkg_service.sql_set_sql", FuncCategory::Scalar, FuncDomain::PkgService, 3, Some(3), false));
    let t = t.push(spec_oracle_entry("pkg_service.sql_set_sql", FuncCategory::Scalar, FuncDomain::PkgService, 3, Some(3), false));
    reveal_strlit("pkg_service.sql_unregister_context");
    lemma_push_keeps_lower(t, spec_oracle_entry("pkg_service.sql_unregister_context", FuncCategory::Scalar, FuncDomain::PkgService, 1, Some(1), false));
    let t = t.push(spec_oracle_entry("pkg_service.sql_unregister_context", FuncCategory::Scalar, FuncDomain::PkgService, 1, Some(1), false));
    reveal_strlit("pkg_service.submit_on_nodes");
    lemma_push_keeps_lower(t, spec_oracle_entry("pkg_service.submit_on_nodes", FuncCategory::Scalar, FuncDomain::PkgService, 5, Some(6), false));
    let t = t.push(spec_oracle_entry("pkg_service.submit_on_nodes", FuncCategory::Scalar, FuncDomain::PkgService, 5, Some(6), false));
    reveal_strlit("pkg_util.app_read_action");
    lemma_push_keeps_lower(t, spec_commercial_oracle_entry("pkg_util.app_read_action", FuncCategory::Scalar, FuncDomain::PkgUtil, 1, Some(1), false));
    let t = t.push(spec_commercial_oracle_entry("pkg_util.app_read_action", FuncCategory::Scalar, FuncDomain::PkgUtil, 1, Some(1), false));
    reveal_strlit("pkg_util.app_read_client_info");
    lemma_push_keeps_lower(t, spec_commercial_oracle_entry("pkg_util.app_read_client_info", FuncCategory::Scalar, FuncDomain::PkgUtil, 1, Some(1), false));
    let t = t.push(spec_commercial_oracle_entry("pkg_util.app_read_client_info", FuncCategory::Scalar, FuncDomain::PkgUtil, 1, Some(1), false));
    reveal_strlit("pkg_util.app_read_module");
    lemma_push_keeps_lower(t, spec_commercial_oracle_entry("pkg_util.app_read_module", FuncCategory::Scalar, FuncDomain::PkgUtil, 1, Some(1), false));
    let t = t.push(spec_commercial_oracle_entry("pkg_util.app_read_module", FuncCategory::Scalar, FuncDomain::PkgUtil, 1, Some(1), false));
    reveal_strlit("pkg_util.app_set_action");
    lemma_push_keeps_lower(t, spec_commercial_oracle_entry("pkg_util.app_set_action", FuncCategory::Scalar, FuncDomain::PkgUtil, 1, Some(1), false));
    let t = t.push(spec_commercial_oracle_entry("pkg_util.app_set_action", FuncCategory::Scalar, FuncDomain::PkgUtil, 1, Some(1), false));
    reveal_strlit("pkg_util.app_set_client_info");
    lemma_push_keeps_lower(t, spec_commercial_oracle_entry("pkg_util.app_set_client_info", FuncCategory::Scalar, FuncDomain::PkgUtil, 1, Some(1), false));
    let t = t.push(spec_commercial_oracle_entry("pkg_util.app_set_client_info", FuncCategory::Scalar, FuncDomain::PkgUtil, 1, Some(1), false));
    assert(t == table_chunk_6_9(s));
}

proof fn lemma_chunk_lower_6_10(s: Seq<FuncMeta>)
    requires
        names_lower(s),
    ensures
        names_lower(table_chunk_6_10(s)),
{
    let t = s;
    reveal_strlit("pkg_util.app_set_module");
    lemma_push_keeps_lower(t, spec_commercial_oracle_entry("pkg_util.app_set_module", FuncCategory::Scalar, FuncDomain::PkgUtil, 1, Some(1), false));
    let t = t.push(spec_commercial_oracle_entry("pkg_util.app_set_module", FuncCategory::Scalar, FuncDomain::PkgUtil, 1, Some(1), false));
    reveal_strlit("pkg_util.bfile_close");
    lemma_push_keeps_lower(t, spec_commercial_oracle_entry("pkg_util.bfile_close", FuncCategory::Scalar, FuncDomain::PkgUtil, 1, Some(1), false));
    let t = t.push(spec_commercial_oracle_entry("pkg_util.bfile_close", FuncCategory::Scalar, FuncDomain::PkgUtil, 1, Some(1), false));
    reveal_strlit("pkg_util.bfile_get_length");
    lemma_push_keeps_lower(t, spec_commercial_oracle_entry("pkg_util.bfile_get_length", FuncCategory::Scalar, FuncDomain::PkgUtil, 1, Some(1), false));
    let t = t.push(spec_commercial_oracle_entry("pkg_util.bfile_get_length", FuncCategory::Scalar, FuncDomain::PkgUtil, 1, Some(1), false));
    reveal_strlit("pkg_util.bfile_open");
    lemma_push_keeps_lower(t, spec_commercial_oracle_entry("pkg_util.bfile_open", FuncCategory::Scalar, FuncDomain::PkgUtil, 2, Some(2), false));
    let t = t.push(spec_commercial_oracle_entry("pkg_util.bfile_open", FuncCategory::Scalar, FuncDomain::PkgUtil, 2, Some(2), false));
    reveal_strlit("pkg_util.blob_reset");
    lemma_push_keeps_lower(t, spec_commercial_oracle_entry("pkg_util.blob_reset", FuncCategory::Scalar, FuncDomain::PkgUtil, 2, Some(4), false));
    let t = t.push(spec_commercial_oracle_entry("pkg_util.blob_reset", FuncCategory::Scalar, FuncDomain::PkgUtil, 2, Some(4), false));
    reveal_strlit("pkg_util.clob_reset");
    lemma_push_keeps_lower(t, spec_commercial_oracle_entry("pkg_util.clob_reset", FuncCategory::Scalar, FuncDomain::PkgUtil, 2, Some(3), false));
    let t = t.push(spec_commercial_oracle_entry("pkg_util.clob_reset", FuncCategory::Scalar, FuncDomain::PkgUtil, 2, Some(3), false));
    reveal_strlit("pkg_util.exception_report_error");
    lemma_push_keeps_lower(t, spec_commercial_oracle_entry("pkg_util.exception_report_error", FuncCategory::Scalar, FuncDomain::PkgUtil, 2, Some(3), false));
    let t = t.push(spec_commercial_oracle_entry("pkg_util.exception_report_error", FuncCategory::Scalar, FuncDomain::PkgUtil, 2, Some(3), false));
    reveal_strlit("pkg_util.file_block_size");
    lemma_push_keeps_lower(t, spec_commercial_oracle_entry("pkg_util.file_block_size", FuncCategory::Scalar, FuncDomain::PkgUtil, 1, Some(1), false));
    let t = t.push(spec_commercial_oracle_entry("pkg_util.file_block_size", FuncCategory::Scalar, FuncDomain::PkgUtil, 1, Some(1), false));
    reveal_strlit("pkg_util.file_close_all");
    lemma_push_keeps_lower(t, spec_commercial_oracle_entry("pkg_util.file_close_all", FuncCategory::Scalar, FuncDomain::PkgUtil, 0, Some(0), false));
    let t = t.push(spec_commercial_oracle_entry("pkg_util.file_close_all", FuncCategory::Scalar, FuncDomain::PkgUtil, 0, Some(0), false));
    reveal_strlit("pkg_util.file_exists");
    lemma_push_keeps_lower(t, spec_commercial_oracle_entry("pkg_util.file_exists", FuncCategory::Scalar, FuncDomain::PkgUtil, 1, Some(1), false));
    let t = t.push(spec_commercial_oracle_entry("pkg_util.file_exists", FuncCategory::Scalar, FuncDomain::PkgUtil, 1, Some(1), false));
    assert(t == table_chunk_6_10(s));
}

proof fn lemma_chunk_lower_6_11(s: Seq<FuncMeta>)
    requires
        names_lower(s),
    ensures
        names_lower(table_chunk_6_11(s)),
{
    let t = s;
    reveal_strlit("pkg_util.file_getpos");
    lemma_push_keeps_lower(t, spec_commercial_oracle_entry("pkg_util.file_getpos", FuncCategory::Scalar, FuncDomain::PkgUtil, 1, Some(1), false));
    let t = t.push(spec_commercial_oracle_entry("pkg_util.file_getpos", FuncCategory::Scalar, FuncDomain::PkgUtil, 1, Some(1), false));
    reveal_strlit("pkg_util.file_is_close");
    lemma_push_keeps_lower(t, spec_commercial_oracle_entry("pkg_util.file_is_close", FuncCategory::Scalar, FuncDomain::PkgUtil, 1, Some(1), false));
    let t = t.push(spec_commercial_oracle_entry("pkg_util.file_is_close", FuncCategory::Scalar, FuncDomain::PkgUtil, 1, Some(1), false));
    reveal_strlit("pkg_util.file_newline");
    lemma_push_keeps_lower(t, spec_commercial_oracle_entry("pkg_util.file_newline", FuncCategory::Scalar, FuncDomain::PkgUtil, 1, Some(1), false));
    let t = t.push(spec_commercial_oracle_entry("pkg_util.file_newline", FuncCategory::Scalar, FuncDomain::PkgUtil, 1, Some(1), false));
    reveal_strlit("pkg_util.file_open");
    lemma_push_keeps_lower(t, spec_commercial_oracle_entry("pkg_util.file_open", FuncCategory::Scalar, FuncDomain::PkgUtil, 2, Some(2), false));
    let t = t.push(spec_commercial_oracle_entry("pkg_util.file_open", FuncCategory::Scalar, FuncDomain::PkgUtil, 2, Some(2), false));
    reveal_strlit("pkg_util.file_read");
    lemma_push_keeps_lower(t, spec_commercial_oracle_entry("pkg_util.file_read", FuncCategory::Scalar, FuncDomain::PkgUtil, 2, Some(3), false));
    let t = t.push(spec_commercial_oracle_entry("pkg_util.file_read", FuncCategory::Scalar, FuncDomain::PkgUtil, 2, Some(3), false));
    reveal_strlit("pkg_util.file_read_raw");
    lemma_push_keeps_lower(t, spec_commercial_oracle_entry("pkg_util.file_read_raw", FuncCategory::Scalar, FuncDomain::PkgUtil, 1, Some(2), false));
    let t = t.push(spec_commercial_oracle_entry("pkg_util.file_read_raw", FuncCategory::Scalar, FuncDomain::PkgUtil, 1, Some(2), false));
    reveal_strlit("pkg_util.file_readline");
    lemma_push_keeps_lower(t, spec_commercial_oracle_entry("pkg_util.file_readline", FuncCategory::Scalar, FuncDomain::PkgUtil, 2, Some(3), false));
    let t = t.push(spec_commercial_oracle_entry("pkg_util.file_readline", FuncCategory::Scalar, FuncDomain::PkgUtil, 2, Some(3), false));
    reveal_strlit("pkg_util.file_remove");
    lemma_push_keeps_lower(t, spec_commercial_oracle_entry("pkg_util.file_remove", FuncCategory::Scalar, FuncDomain::PkgUtil, 1, Some(1), false));
    let t = t.push(spec_commercial_oracle_entry("pkg_util.file_remove", FuncCategory::Scalar, FuncDomain::PkgUtil, 1, Some(1), false));
    reveal_strlit("pkg_util.file_rename");
    lemma_push_keeps_lower(t, spec_commercial_oracle_entry("pkg_util.file_rename", FuncCategory::Scalar, FuncDomain::PkgUtil, 4, Some(5), false));
    let t = t.push(spec_commercial_oracle_entry("pkg_util.file_rename", FuncCategory::Scalar, FuncDomain::PkgUtil, 4, Some(5), false));
    reveal_strlit("pkg_util.file_seek");
    lemma_push_keeps_lower(t, spec_commercial_oracle_entry("pkg_util.file_seek", FuncCategory::Scalar, FuncDomain::PkgUtil, 2, Some(2), false));
    let t = t.push(spec_commercial_oracle_entry("pkg_util.file_seek", FuncCategory::Scalar, FuncDomain::PkgUtil, 2, Some(2), false));
    assert(t == table_chunk_6_11(s));
}

proof fn lemma_chunk_lower_6_12(s: Seq<FuncMeta>)
    requires
        names_lower(s),
    ensures
        names_lower(table_chunk_6_12(s)),
{
    let t = s;
    reveal_strlit("pkg_util.file_set_dirname");
    lemma_push_keeps_lower(t, spec_commercial_oracle_entry("pkg_util.file_set_dirname", FuncCategory::Scalar, FuncDomain::PkgUtil, 1, Some(1), false));
    let t = t.push(spec_commercial_oracle_entry("pkg_util.file_set_dirname", FuncCategory::Scalar, FuncDomain::PkgUtil, 1, Some(1), false));
    reveal_strlit("pkg_util.file_set_max_line_size");
    lemma_push_keeps_lower(t, spec_commercial_oracle_entry("pkg_util.file_set_max_line_size", FuncCategory::Scalar, FuncDomain::PkgUtil, 1, Some(1), false));
    let t = t.push(spec_commercial_oracle_entry("pkg_util.file_set_max_line_size", FuncCategory::Scalar, FuncDomain::PkgUtil, 1, Some(1), false));
    reveal_strlit("pkg_util.file_size");
    lemma_push_keeps_lower(t, spec_commercial_oracle_entry("pkg_util.file_size", FuncCategory::Scalar, FuncDomain::PkgUtil, 1, Some(1), false));
    let t = t.push(spec_commercial_oracle_entry("pkg_util.file_size", FuncCategory::Scalar, FuncDomain::PkgUtil, 1, Some(1), false));
    reveal_strlit("pkg_util.file_write");
    lemma_push_keeps_lower(t, spec_commercial_oracle_entry("pkg_util.file_write", FuncCategory::Scalar, FuncDomain::PkgUtil, 2, Some(2), false));
    let t = t.push(spec_commercial_oracle_entry("pkg_util.file_write", FuncCategory::Scalar, FuncDomain::PkgUtil, 2, Some(2), false));
    reveal_strlit("pkg_util.file_write_raw");
    lemma_push_keeps_lower(t, spec_commercial_oracle_entry("pkg_util.file_write_raw", FuncCategory::Scalar, FuncDomain::PkgUtil, 2, Some(2), false));
    let t = t.push(spec_commercial_oracle_entry("pkg_util.file_write_raw", FuncCategory::Scalar, FuncDomain::PkgUtil, 2, Some(2), false));
    assert(t == table_chunk_6_12(s));
}

proof fn lemma_part_6_lower(s: Seq<FuncMeta>)
    requires
        names_lower(s),
    ensures
        names_lower(table_part_6(s)),
{
    lemma_chunk_lower_6_0(s);
    let t0 = table_chunk_6_0(s);
    lemma_chunk_lower_6_1(t0);
    let t1 = table_chunk_6_1(t0);
    lemma_chunk_lower_6_2(t1);
    let t2 = table_chunk_6_2(t1);
    lemma_chunk_lower_6_3(t2);
    let t3 = table_chunk_6_3(t2);
    lemma_chunk_lower_6_4(t3);
    let t4 = table_chunk_6_4(t3);
    lemma_chunk_lower_6_5(t4);
    let t5 = table_chunk_6_5(t4);
    lemma_chunk_lower_6_6(t5);
    let t6 = table_chunk_6_6(t5);
    lemma_chunk_lower_6_7(t6);
    let t7 = table_chunk_6_7(t6);
    lemma_chunk_lower_6_8(t7);
    let t8 = table_chunk_6_8(t7);
    lemma_chunk_lower_6_9(t8);
    let t9 = table_chunk_6_9(t8);
    lemma_chunk_lower_6_10(t9);
    let t10 = table_chunk_6_10(t9);
    lemma_chunk_lower_6_11(t10);
    let t11 = table_chunk_6_11(t10);
    lemma_chunk_lower_6_12(t11);
    let t12 = table_chunk_6_12(t11);
    assert(t12 == table_part_6(s));
}

proof fn lemma_chunk_lower_7_0(s: Seq<FuncMeta>)
    requires
        names_lower(s),
    ensures
        names_lower(table_chunk_7_0(s)),
{
    let t = s;
    reveal_strlit("pkg_util.file_writeline");
    lemma_push_keeps_lower(t, spec_commercial_oracle_entry("pkg_util.file_writeline", FuncCategory::Scalar, FuncDomain::PkgUtil, 2, Some(2), false));
    let t = t.push(spec_commercial_oracle_entry("pkg_util.file_writeline", FuncCategory::Scalar, FuncDomain::PkgUtil, 2, Some(2), false));
    reveal_strlit("pkg_util.gs_compile_schema");
    lemma_push_keeps_lower(t, spec_commercial_oracle_entry("pkg_util.gs_compile_schema", FuncCategory::Scalar, FuncDomain::PkgUtil, 0, Some(3), false));
    let t = t.push(spec_commercial_oracle_entry("pkg_util.gs_compile_schema", FuncCategory::Scalar, FuncDomain::PkgUtil, 0, Some(3), false));
    reveal_strlit("pkg_util.io_print");
    lemma_push_keeps_lower(t, spec_commercial_oracle_entry("pkg_util.io_print", FuncCategory::Scalar, FuncDomain::PkgUtil, 2, Some(2), false));
    let t = t.push(spec_commercial_oracle_entry("pkg_util.io_print", FuncCategory::Scalar, FuncDomain::PkgUtil, 2, Some(2), false));
    reveal_strlit("pkg_util.loadblobfromfile");
    lemma_push_keeps_lower(t, spec_commercial_oracle_entry("pkg_util.loadblobfromfile", FuncCategory::Scalar, FuncDomain::PkgUtil, 5, Some(5), false));
    let t = t.push(spec_commercial_oracle_entry("pkg_util.loadblobfromfile", FuncCategory::Scalar, FuncDomain::PkgUtil, 5, Some(5), false));
    reveal_strlit("pkg_util.loadclobfromfile");
    lemma_push_keeps_lower(t, spec_commercial_oracle_entry("pkg_util.loadclobfromfile", FuncCategory::Scalar, FuncDomain::PkgUtil, 5, Some(5), false));
    let t = t.push(spec_commercial_oracle_entry("pkg_util.loadclobfromfile", FuncCategory::Scalar, FuncDomain::PkgUtil, 5, Some(5), false));
    reveal_strlit("pkg_util.lob_append");
    lemma_push_keeps_lower(t, spec_commercial_oracle_entry("pkg_util.lob_append", FuncCategory::Scalar, FuncDomain::PkgUtil, 2, Some(3), false));
    let t = t.push(spec_commercial_oracle_entry("pkg_util.lob_append", FuncCategory::Scalar, FuncDomain::PkgUtil, 2, Some(3), false));
    reveal_strlit("pkg_util.lob_append_huge");
    lemma_push_keeps_lower(t, spec_commercial_oracle_entry("pkg_util.lob_append_huge", FuncCategory::Scalar, FuncDomain::PkgUtil, 2, Some(2), false));
    let t = t.push(spec_commercial_oracle_entry("pkg_util.lob_append_huge", FuncCategory::Scalar, FuncDomain::PkgUtil, 2, Some(2), false));
    reveal_strlit("pkg_util.lob_compare");
    lemma_push_keeps_lower(t, spec_commercial_oracle_entry("pkg_util.lob_compare", FuncCategory::Scalar, FuncDomain::PkgUtil, 2, Some(5), false));
    let t = t.push(spec_commercial_oracle_entry("pkg_util.lob_compare", FuncCategory::Scalar, FuncDomain::PkgUtil, 2, Some(5), false));
    reveal_strlit("pkg_util.lob_converttoblob");
    lemma_push_keeps_lower(t, spec_commercial_oracle_entry("pkg_util.lob_converttoblob", FuncCategory::Scalar, FuncDomain::PkgUtil, 5, Some(5), false));
    let t = t.push(spec_commercial_oracle_entry("pkg_util.lob_converttoblob", FuncCategory::Scalar, FuncDomain::PkgUtil, 5, Some(5), false));
    reveal_strlit("pkg_util.lob_converttoblob_huge");
    lemma_push_keeps_lower(t, spec_commercial_oracle_entry("pkg_util.lob_converttoblob_huge", FuncCategory::Scalar, FuncDomain::PkgUtil, 5, Some(5), false));
    let t = t.push(spec_commercial_oracle_entry("pkg_util.lob_converttoblob_huge", FuncCategory::Scalar, FuncDomain::PkgUtil, 5, Some(5), false));
    assert(t == table_chunk_7_0(s));
}

proof fn lemma_chunk_lower_7_1(s: Seq<FuncMeta>)
    requires
        names_lower(s),
    ensures
        names_lower(table_chunk_7_1(s)),
{
    let t = s;
    reveal_strlit("pkg_util.lob_converttoclob");
    lemma_push_keeps_lower(t, spec_commercial_oracle_entry("pkg_util.lob_converttoclob", FuncCategory::Scalar, FuncDomain::PkgUtil, 5, Some(5), false));
    let t = t.push(spec_commercial_oracle_entry("pkg_util.lob_converttoclob", FuncCategory::Scalar, FuncDomain::PkgUtil, 5, Some(5), false));
    reveal_strlit("pkg_util.lob_converttoclob_huge");
    lemma_push_keeps_lower(t, spec_commercial_oracle_entry("pkg_util.lob_converttoclob_huge", FuncCategory::Scalar, FuncDomain::PkgUtil, 5, Some(5), false));
    let t = t.push(spec_commercial_oracle_entry("pkg_util.lob_converttoclob_huge", FuncCategory::Scalar, FuncDomain::PkgUtil, 5, Some(5), false));
    reveal_strlit("pkg_util.lob_copy_huge");
    lemma_push_keeps_lower(t, spec_commercial_oracle_entry("pkg_util.lob_copy_huge", FuncCategory::Scalar, FuncDomain::PkgUtil, 3, Some(5), false));
    let t = t.push(spec_commercial_oracle_entry("pkg_util.lob_copy_huge", FuncCategory::Scalar, FuncDomain::PkgUtil, 3, Some(5), false));
    reveal_strlit("pkg_util.lob_get_length");
    lemma_push_keeps_lower(t, spec_commercial_oracle_entry("pkg_util.lob_get_length", FuncCategory::Scalar, FuncDomain::PkgUtil, 1, Some(1), false));
    let t = t.push(spec_commercial_oracle_entry("pkg_util.lob_get_length", FuncCategory::Scalar, FuncDomain::PkgUtil, 1, Some(1), false));
    reveal_strlit("pkg_util.lob_match");
    lemma_push_keeps_lower(t, spec_commercial_oracle_entry("pkg_util.lob_match", FuncCategory::Scalar, FuncDomain::PkgUtil, 3, Some(4), false));
    let t = t.push(spec_commercial_oracle_entry("pkg_util.lob_match", FuncCategory::Scalar, FuncDomain::PkgUtil, 3, Some(4), false));
    reveal_strlit("pkg_util.lob_rawtotext");
    lemma_push_keeps_lower(t, spec_commercial_oracle_entry("pkg_util.lob_rawtotext", FuncCategory::Scalar, FuncDomain::PkgUtil, 1, Some(1), false));
    let t = t.push(spec_commercial_oracle_entry("pkg_util.lob_rawtotext", FuncCategory::Scalar, FuncDomain::PkgUtil, 1, Some(1), false));
    reveal_strlit("pkg_util.lob_read");
    lemma_push_keeps_lower(t, spec_commercial_oracle_entry("pkg_util.lob_read", FuncCategory::Scalar, FuncDomain::PkgUtil, 4, Some(4), false));
    let t = t.push(spec_commercial_oracle_entry("pkg_util.lob_read", FuncCategory::Scalar, FuncDomain::PkgUtil, 4, Some(4), false));
    reveal_strlit("pkg_util.lob_read_huge");
    lemma_push_keeps_lower(t, spec_commercial_oracle_entry("pkg_util.lob_read_huge", FuncCategory::Scalar, FuncDomain::PkgUtil, 4, Some(4), false));
    let t = t.push(spec_commercial_oracle_entry("pkg_util.lob_read_huge", FuncCategory::Scalar, FuncDomain::PkgUtil, 4, Some(4), false));
    reveal_strlit("pkg_util.lob_reset");
    lemma_push_keeps_lower(t, spec_commercial_oracle_entry("pkg_util.lob_reset", FuncCategory::Scalar, FuncDomain::PkgUtil, 3, Some(4), false));
    let t = t.push(spec_commercial_oracle_entry("pkg_util.lob_reset", FuncCategory::Scalar, FuncDomain::PkgUtil, 3, Some(4), false));
    reveal_strlit("pkg_util.lob_texttoraw");
    lemma_push_keeps_lower(t, spec_commercial_oracle_entry("pkg_util.lob_texttoraw", FuncCategory::Scalar, FuncDomain::PkgUtil, 1, Some(1), false));
    let t = t.push(spec_commercial_oracle_entry("pkg_util.lob_texttoraw", FuncCategory::Scalar, FuncDomain::PkgUtil, 1, Some(1), false));
    assert(t == table_chunk_7_1(s));
}

proof fn lemma_chunk_lower_7_2(s: Seq<FuncMeta>)
    requires
        names_lower(s),
    ensures
        names_lower(table_chunk_7_2(s)),
{
    let t = s;
    reveal_strlit("pkg_util.lob_write");
    lemma_push_keeps_lower(t, spec_commercial_oracle_entry("pkg_util.lob_write", FuncCategory::Scalar, FuncDomain::PkgUtil, 3, Some(3), false));
    let t = t.push(spec_commercial_oracle_entry("pkg_util.lob_write", FuncCategory::Scalar, FuncDomain::PkgUtil, 3, Some(3), false));
    reveal_strlit("pkg_util.lob_write_huge");
    lemma_push_keeps_lower(t, spec_commercial_oracle_entry("pkg_util.lob_write_huge", FuncCategory::Scalar, FuncDomain::PkgUtil, 4, Some(4), false));
    let t = t.push(spec_commercial_oracle_entry("pkg_util.lob_write_huge", FuncCategory::Scalar, FuncDomain::PkgUtil, 4, Some(4), false));
    reveal_strlit("pkg_util.lob_writeappend_huge");
    lemma_push_keeps_lower(t, spec_commercial_oracle_entry("pkg_util.lob_writeappend_huge", FuncCategory::Scalar, FuncDomain::PkgUtil, 3, Some(3), false));
    let t = t.push(spec_commercial_oracle_entry("pkg_util.lob_writeappend_huge", FuncCategory::Scalar, FuncDomain::PkgUtil, 3, Some(3), false));
    reveal_strlit("pkg_util.match_edit_distance_similarity");
    lemma_push_keeps_lower(t, spec_commercial_oracle_entry("pkg_util.match_edit_distance_similarity", FuncCategory::Scalar, FuncDomain::PkgUtil, 2, Some(2), false));
    let t = t.push(spec_commercial_oracle_entry("pkg_util.match_edit_distance_similarity", FuncCategory::Scalar, FuncDomain::PkgUtil, 2, Some(2), false));
    reveal_strlit("pkg_util.modify_package_state");
    lemma_push_keeps_lower(t, spec_commercial_oracle_entry("pkg_util.modify_package_state", FuncCategory::Scalar, FuncDomain::PkgUtil, 1, Some(1), false));
    let t = t.push(spec_commercial_oracle_entry("pkg_util.modify_package_state", FuncCategory::Scalar, FuncDomain::PkgUtil, 1, Some(1), false));
    reveal_strlit("pkg_util.random_get_value");
    lemma_push_keeps_lower(t, spec_commercial_oracle_entry("pkg_util.random_get_value", FuncCategory::Scalar, FuncDomain::PkgUtil, 0, Some(0), false));
    let t = t.push(spec_commercial_oracle_entry("pkg_util.random_get_value", FuncCategory::Scalar, FuncDomain::PkgUtil, 0, Some(0), false));
    reveal_strlit("pkg_util.random_set_seed");
    lemma_push_keeps_lower(t, spec_commercial_oracle_entry("pkg_util.random_set_seed", FuncCategory::Scalar, FuncDomain::PkgUtil, 1, Some(1), false));
    let t = t.push(spec_commercial_oracle_entry("pkg_util.random_set_seed", FuncCategory::Scalar, FuncDomain::PkgUtil, 1, Some(1), false));
    reveal_strlit("pkg_util.raw_cast_from_binary_integer");
    lemma_push_keeps_lower(t, spec_commercial_oracle_entry("pkg_util.raw_cast_from_binary_integer", FuncCategory::Scalar, FuncDomain::PkgUtil, 2, Some(2), false));
    let t = t.push(spec_commercial_oracle_entry("pkg_util.raw_cast_from_binary_integer", FuncCategory::Scalar, FuncDomain::PkgUtil, 2, Some(2), false));
    reveal_strlit("pkg_util.raw_cast_from_varchar2");
    lemma_push_keeps_lower(t, spec_commercial_oracle_entry("pkg_util.raw_cast_from_varchar2", FuncCategory::Scalar, FuncDomain::PkgUtil, 1, Some(1), false));
    let t = t.push(spec_commercial_oracle_entry("pkg_util.raw_cast_from_varchar2", FuncCategory::Scalar, FuncDomain::PkgUtil, 1, Some(1), false));
    reveal_strlit("pkg_util.raw_cast_to_binary_integer");
    lemma_push_keeps_lower(t, spec_commercial_oracle_entry("pkg_util.raw_cast_to_binary_integer", FuncCategory::Scalar, FuncDomain::PkgUtil, 2, Some(2), false));
    let t = t.push(spec_commercial_oracle_entry("pkg_util.raw_cast_to_binary_integer", FuncCategory::Scalar, FuncDomain::PkgUtil, 2, Some(2), false));
    assert(t == table_chunk_7_2(s));
}

proof fn lemma_chunk_lower_7_3(s: Seq<FuncMeta>)
    requires
        names_lower(s),
    ensures
        names_lower(table_chunk_7_3(s)),
{
    let t = s;
    reveal_strlit("pkg_util.raw_cast_to_varchar2");
    lemma_push_keeps_lower(t, spec_commercial_oracle_entry("pkg_util.raw_cast_to_varchar2", FuncCategory::Scalar, FuncDomain::PkgUtil, 1, Some(1), false));
    let t = t.push(spec_commercial_oracle_entry("pkg_util.raw_cast_to_varchar2", FuncCategory::Scalar, FuncDomain::PkgUtil, 1, Some(1), false));
    reveal_strlit("pkg_util.raw_get_length");
    lemma_push_keeps_lower(t, spec_commercial_oracle_entry("pkg_util.raw_get_length", FuncCategory::Scalar, FuncDomain::PkgUtil, 1, Some(1), false));
    let t = t.push(spec_commercial_oracle_entry("pkg_util.raw_get_length", FuncCategory::Scalar, FuncDomain::PkgUtil, 1, Some(1), false));
    reveal_strlit("pkg_util.read_bfile_to_blob");
    lemma_push_keeps_lower(t, spec_commercial_oracle_entry("pkg_util.read_bfile_to_blob", FuncCategory::Scalar, FuncDomain::PkgUtil, 1, Some(1), false));
    let t = t.push(spec_commercial_oracle_entry("pkg_util.read_bfile_to_blob", FuncCategory::Scalar, FuncDomain::PkgUtil, 1, Some(1), false));
    reveal_strlit("pkg_util.session_clear_context");
    lemma_push_keeps_lower(t, spec_commercial_oracle_entry("pkg_util.session_clear_context", FuncCategory::Scalar, FuncDomain::PkgUtil, 3, Some(3), false));
    let t = t.push(spec_commercial_oracle_entry("pkg_util.session_clear_context", FuncCategory::Scalar, FuncDomain::PkgUtil, 3, Some(3), false));
    reveal_strlit("pkg_util.session_search_context");
    lemma_push_keeps_lower(t, spec_commercial_oracle_entry("pkg_util.session_search_context", FuncCategory::Scalar, FuncDomain::PkgUtil, 2, Some(2), false));
    let t = t.push(spec_commercial_oracle_entry("pkg_util.session_search_context", FuncCategory::Scalar, FuncDomain::PkgUtil, 2, Some(2), false));
    reveal_strlit("pkg_util.session_set_context");
    lemma_push_keeps_lower(t, spec_commercial_oracle_entry("pkg_util.session_set_context", FuncCategory::Scalar, FuncDomain::PkgUtil, 3, Some(3), false));
    let t = t.push(spec_commercial_oracle_entry("pkg_util.session_set_context", FuncCategory::Scalar, FuncDomain::PkgUtil, 3, Some(3), false));
    reveal_strlit("pkg_util.utility_compile_schema");
    lemma_push_keeps_lower(t, spec_commercial_oracle_entry("pkg_util.utility_compile_schema", FuncCategory::Scalar, FuncDomain::PkgUtil, 1, Some(3), false));
    let t = t.push(spec_commercial_oracle_entry("pkg_util.utility_compile_schema", FuncCategory::Scalar, FuncDomain::PkgUtil, 1, Some(3), false));
    reveal_strlit("pkg_util.utility_format_call_stack");
    lemma_push_keeps_lower(t, spec_commercial_oracle_entry("pkg_util.utility_format_call_stack", FuncCategory::Scalar, FuncDomain::PkgUtil, 0, Some(0), false));
    let t = t.push(spec_commercial_oracle_entry("pkg_util.utility_format_call_stack", FuncCategory::Scalar, FuncDomain::PkgUtil, 0, Some(0), false));
    reveal_strlit("pkg_util.utility_format_error_backtrace");
    lemma_push_keeps_lower(t, spec_commercial_oracle_entry("pkg_util.utility_format_error_backtrace", FuncCategory::Scalar, FuncDomain::PkgUtil, 0, Some(0), false));
    let t = t.push(spec_commercial_oracle_entry("pkg_util.utility_format_error_backtrace", FuncCategory::Scalar, FuncDomain::PkgUtil, 0, Some(0), false));
    reveal_strlit("pkg_util.utility_format_error_stack");
    lemma_push_keeps_lower(t, spec_commercial_oracle_entry("pkg_util.utility_format_error_stack", FuncCategory::Scalar, FuncDomain::PkgUtil, 0, Some(0), false));
    let t = t.push(spec_commercial_oracle_entry("pkg_util.utility_format_error_stack", FuncCategory::Scalar, FuncDomain::PkgUtil, 0, Some(0), false));
    assert(t == table_chunk_7_3(s));
}

proof fn lemma_chunk_lower_7_4(s: Seq<FuncMeta>)
    requires
        names_lower(s),
    ensures
        names_lower(table_chunk_7_4(s)),
{
    let t = s;
    reveal_strlit("pkg_util.utility_get_time");
    lemma_push_keeps_lower(t, spec_commercial_oracle_entry("pkg_util.utility_get_time", FuncCategory::Scalar, FuncDomain::PkgUtil, 0, Some(0), false));
    let t = t.push(spec_commercial_oracle_entry("pkg_util.utility_get_time", FuncCategory::Scalar, FuncDomain::PkgUtil, 0, Some(0), false));
    reveal_strlit("plainto_tsquery");
    lemma_push_keeps_lower(t, spec_core_entry("plainto_tsquery", FuncCategory::Scalar, FuncDomain::TextSearch, 1, Some(2), false));
    let t = t.push(spec_core_entry("plainto_tsquery", FuncCategory::Scalar, FuncDomain::TextSearch, 1, Some(2), false));
    reveal_strlit("point");
    lemma_push_keeps_lower(t, spec_core_entry("point", FuncCategory::Scalar, FuncDomain::Geometric, 2, Some(2), false));
    let t = t.push(spec_core_entry("point", FuncCategory::Scalar, FuncDomain::Geometric, 2, Some(2), false));
    reveal_strlit("polygon");
    lemma_push_keeps_lower(t, spec_core_entry("polygon", FuncCategory::Scalar, FuncDomain::Geometric, 1, Some(1), false));
    let t = t.push(spec_core_entry("polygon", FuncCategory::Scalar, FuncDomain::Geometric, 1, Some(1), false));
    reveal_strlit("position");
    lemma_push_keeps_lower(t, spec_core_entry("position", FuncCategory::Scalar, FuncDomain::String, 2, Some(2), false));
    let t = t.push(spec_core_entry("position", FuncCategory::Scalar, FuncDomain::String, 2, Some(2), false));
    reveal_strlit("power");
    lemma_push_keeps_lower(t, spec_core_entry("power", FuncCategory::Scalar, FuncDomain::Math, 2, Some(2), false));
    let t = t.push(spec_core_entry("power", FuncCategory::Scalar, FuncDomain::Math, 2, Some(2), false));
    reveal_strlit("query_to_xml");
    lemma_push_keeps_lower(t, spec_core_entry("query_to_xml", FuncCategory::Scalar, FuncDomain::Xml, 4, Some(4), false));
    let t = t.push(spec_core_entry("query_to_xml", FuncCategory::Scalar, FuncDomain::Xml, 4, Some(4), false));
    reveal_strlit("query_to_xml_and_xmlschema");
    lemma_push_keeps_lower(t, spec_core_entry("query_to_xml_and_xmlschema", FuncCategory::Scalar, FuncDomain::Xml, 4, Some(4), false));
    let t = t.push(spec_core_entry("query_to_xml_and_xmlschema", FuncCategory::Scalar, FuncDomain::Xml, 4, Some(4), false));
    reveal_strlit("query_to_xmlschema");
    lemma_push_keeps_lower(t, spec_core_entry("query_to_xmlschema", FuncCategory::Scalar, FuncDomain::Xml, 4, Some(4), false));
    let t = t.push(spec_core_entry("query_to_xmlschema", FuncCategory::Scalar, FuncDomain::Xml, 4, Some(4), false));
    reveal_strlit("querytree");
    lemma_push_keeps_lower(t, spec_core_entry("querytree", FuncCategory::Scalar, FuncDomain::TextSearch, 1, Some(1), false));
    let t = t.push(spec_core_entry("querytree", FuncCategory::Scalar, FuncDomain::TextSearch, 1, Some(1), false));
    assert(t == table_chunk_7_4(s));
}

proof fn lemma_chunk_lower_7_5(s: Seq<FuncMeta>)
    requires
        names_lower(s),
    ensures
        names_lower(table_chunk_7_5(s)),
{
    let t = s;
    reveal_strlit("quote_ident");
    lemma_push_keeps_lower(t, spec_core_entry("quote_ident", FuncCategory::Scalar, FuncDomain::String, 1, Some(1), false));
    let t = t.push(spec_core_entry("quote_ident", FuncCategory::Scalar, FuncDomain::String, 1, Some(1), false));
    reveal_strlit("quote_literal");
    lemma_push_keeps_lower(t, spec_core_entry("quote_literal", FuncCategory::Scalar, FuncDomain::String, 1, Some(1), false));
    let t = t.push(spec_core_entry("quote_literal", FuncCategory::Scalar, FuncDomain::String, 1, Some(1), false));
    reveal_strlit("quote_nullable");
    lemma_push_keeps_lower(t, spec_core_entry("quote_nullable", FuncCategory::Scalar, FuncDomain::String, 1, Some(1), false));
    let t = t.push(spec_core_entry("quote_nullable", FuncCategory::Scalar, FuncDomain::String, 1, Some(1), false));
    reveal_strlit("radians");
    lemma_push_keeps_lower(t, spec_core_entry("radians", FuncCategory::Scalar, FuncDomain::Math, 1, Some(1), false));
    let t = t.push(spec_core_entry("radians", FuncCategory::Scalar, FuncDomain::Math, 1, Some(1), false));
    reveal_strlit("radius");
    lemma_push_keeps_lower(t, spec_core_entry("radius", FuncCategory::Scalar, FuncDomain::Geometric, 1, Some(1), false));
    let t = t.push(spec_core_entry("radius", FuncCategory::Scalar, FuncDomain::Geometric, 1, Some(1), false));
    reveal_strlit("rand");
    lemma_push_keeps_lower(t, spec_commercial_entry("rand", FuncCategory::Scalar, FuncDomain::Math, 0, Some(1), false));
    let t = t.push(spec_commercial_entry("rand", FuncCategory::Scalar, FuncDomain::Math, 0, Some(1), false));
    reveal_strlit("random");
    lemma_push_keeps_lower(t, spec_core_entry("random", FuncCategory::Scalar, FuncDomain::Math, 0, Some(0), false));
    let t = t.push(spec_core_entry("random", FuncCategory::Scalar, FuncDomain::Math, 0, Some(0), false));
    reveal_strlit("rank");
    lemma_push_keeps_lower(t, spec_core_entry("rank", FuncCategory::Window, FuncDomain::Window, 0, Some(0), false));
    let t = t.push(spec_core_entry("rank", FuncCategory::Window, FuncDomain::Window, 0, Some(0), false));
    reveal_strlit("ratio_to_report");
    lemma_push_keeps_lower(t, spec_core_entry("ratio_to_report", FuncCategory::Window, FuncDomain::Window, 1, Some(1), false));
    let t = t.push(spec_core_entry("ratio_to_report", FuncCategory::Window, FuncDomain::Window, 1, Some(1), false));
    reveal_strlit("rawout");
    lemma_push_keeps_lower(t, spec_core_entry("rawout", FuncCategory::Scalar, FuncDomain::TypeConversion, 1, Some(1), false));
    let t = t.push(spec_core_entry("rawout", FuncCategory::Scalar, FuncDomain::TypeConversion, 1, Some(1), false));
    assert(t == table_chunk_7_5(s));
}

proof fn lemma_chunk_lower_7_6(s: Seq<FuncMeta>)
    requires
        names_lower(s),
    ensures
        names_lower(table_chunk_7_6(s)),
{
    let t = s;
    reveal_strlit("rawsend");
    lemma_push_keeps_lower(t, spec_core_entry("rawsend", FuncCategory::Scalar, FuncDomain::TypeConversion, 1, Some(1), false));
    let t = t.push(spec_core_entry("rawsend", FuncCategory::Scalar, FuncDomain::TypeConversion, 1, Some(1), false));
    reveal_strlit("rawtohex");
    lemma_push_keeps_lower(t, spec_core_entry("rawtohex", FuncCategory::Scalar, FuncDomain::TypeConversion, 1, Some(1), false));
    let t = t.push(spec_core_entry("rawtohex", FuncCategory::Scalar, FuncDomain::TypeConversion, 1, Some(1), false));
    reveal_strlit("rawtohex2");
    lemma_push_keeps_lower(t, spec_oracle_entry("rawtohex2", FuncCategory::Scalar, FuncDomain::TypeConversion, 1, Some(1), false));
    let t = t.push(spec_oracle_entry("rawtohex2", FuncCategory::Scalar, FuncDomain::TypeConversion, 1, Some(1), false));
    reveal_strlit("regexp_count");
    lemma_push_keeps_lower(t, spec_core_entry("regexp_count", FuncCategory::Scalar, FuncDomain::String, 2, Some(4), false));
    let t = t.push(spec_core_entry("regexp_count", FuncCategory::Scalar, FuncDomain::String, 2, Some(4), false));
    reveal_strlit("regexp_instr");
    lemma_push_keeps_lower(t, spec_core_entry("regexp_instr", FuncCategory::Scalar, FuncDomain::String, 2, Some(5), false));
    let t = t.push(spec_core_entry("regexp_instr", FuncCategory::Scalar, FuncDomain::String, 2, Some(5), false));
    reveal_strlit("regexp_like");
    lemma_push_keeps_lower(t, spec_core_entry("regexp_like", FuncCategory::Scalar, FuncDomain::String, 2, Some(3), false));
    let t = t.push(spec_core_entry("regexp_like", FuncCategory::Scalar, FuncDomain::String, 2, Some(3), false));
    reveal_strlit("regexp_matches");
    lemma_push_keeps_lower(t, spec_core_entry("regexp_matches", FuncCategory::Scalar, FuncDomain::String, 2, Some(3), false));
    let t = t.push(spec_core_entry("regexp_matches", FuncCategory::Scalar, FuncDomain::String, 2, Some(3), false));
    reveal_strlit("regexp_replace");
    lemma_push_keeps_lower(t, spec_core_entry("regexp_replace", FuncCategory::Scalar, FuncDomain::String, 2, Some(6), false));
    let t = t.push(spec_core_entry("regexp_replace", FuncCategory::Scalar, FuncDomain::String, 2, Some(6), false));
    reveal_strlit("regexp_split_to_array");
    lemma_push_keeps_lower(t, spec_core_entry("regexp_split_to_array", FuncCategory::Scalar, FuncDomain::String, 1, Some(3), false));
    let t = t.push(spec_core_entry("regexp_split_to_array", FuncCategory::Scalar, FuncDomain::String, 1, Some(3), false));
    reveal_strlit("regexp_split_to_table");
    lemma_push_keeps_lower(t, spec_core_entry("regexp_split_to_table", FuncCategory::SetReturning, FuncDomain::String, 1, Some(3), false));
    let t = t.push(spec_core_entry("regexp_split_to_table", FuncCategory::SetReturning, FuncDomain::String, 1, Some(3), false));
    assert(t == table_chunk_7_6(s));
}

proof fn lemma_chunk_lower_7_7(s: Seq<FuncMeta>)
    requires
        names_lower(s),
    ensures
        names_lower(table_chunk_7_7(s)),
{
    let t = s;
    reveal_strlit("regexp_substr");
    lemma_push_keeps_lower(t, spec_core_entry("regexp_substr", FuncCategory::Scalar, FuncDomain::String, 2, Some(4), false));
    let t = t.push(spec_core_entry("regexp_substr", FuncCategory::Scalar, FuncDomain::String, 2, Some(4), false));
    reveal_strlit("regr_avgx");
    lemma_push_keeps_lower(t, spec_core_entry("regr_avgx", FuncCategory::Aggregate, FuncDomain::Aggregate, 2, Some(2), true));
    let t = t.push(spec_core_entry("regr_avgx", FuncCategory::Aggregate, FuncDomain::Aggregate, 2, Some(2), true));
    reveal_strlit("regr_avgy");
    lemma_push_keeps_lower(t, spec_core_entry("regr_avgy", FuncCategory::Aggregate, FuncDomain::Aggregate, 2, Some(2), true));
    let t = t.push(spec_core_entry("regr_avgy", FuncCategory::Aggregate, FuncDomain::Aggregate, 2, Some(2), true));
    reveal_strlit("regr_count");
    lemma_push_keeps_lower(t, spec_core_entry("regr_count", FuncCategory::Aggregate, FuncDomain::Aggregate, 2, Some(2), true));
    let t = t.push(spec_core_entry("regr_count", FuncCategory::Aggregate, FuncDomain::Aggregate, 2, Some(2), true));
    reveal_strlit("regr_intercept");
    lemma_push_keeps_lower(t, spec_core_entry("regr_intercept", FuncCategory::Aggregate, FuncDomain::Aggregate, 2, Some(2), true));
    let t = t.push(spec_core_entry("regr_intercept", FuncCategory::Aggregate, FuncDomain::Aggregate, 2, Some(2), true));
    reveal_strlit("regr_r2");
    lemma_push_keeps_lower(t, spec_core_entry("regr_r2", FuncCategory::Aggregate, FuncDomain::Aggregate, 2, Some(2), true));
    let t = t.push(spec_core_entry("regr_r2", FuncCategory::Aggregate, FuncDomain::Aggregate, 2, Some(2), true));
    reveal_strlit("regr_slope");
    lemma_push_keeps_lower(t, spec_core_entry("regr_slope", FuncCategory::Aggregate, FuncDomain::Aggregate, 2, Some(2), true));
    let t = t.push(spec_core_entry("regr_slope", FuncCategory::Aggregate, FuncDomain::Aggregate, 2, Some(2), true));
    reveal_strlit("regr_sxx");
    lemma_push_keeps_lower(t, spec_core_entry("regr_sxx", FuncCategory::Aggregate, FuncDomain::Aggregate, 2, Some(2), true));
    let t = t.push(spec_core_entry("regr_sxx", FuncCategory::Aggregate, FuncDomain::Aggregate, 2, Some(2), true));
    reveal_strlit("regr_sxy");
    lemma_push_keeps_lower(t, spec_core_entry("regr_sxy", FuncCategory::Aggregate, FuncDomain::Aggregate, 2, Some(2), true));
    let t = t.push(spec_core_entry("regr_sxy", FuncCategory::Aggregate, FuncDomain::Aggregate, 2, Some(2), true));
    reveal_strlit("regr_syy");
    lemma_push_keeps_lower(t, spec_core_entry("regr_syy", FuncCategory::Aggregate, FuncDomain::Aggregate, 2, Some(2), true));
    let t = t.push(spec_core_entry("regr_syy", FuncCategory::Aggregate, FuncDomain::Aggregate, 2, Some(2), true));
    assert(t == table_chunk_7_7(s));
}

proof fn lemma_chunk_lower_7_8(s: Seq<FuncMeta>)
    requires
        names_lower(s),
    ensures
        names_lower(table_chunk_7_8(s)),
{
    let t = s;
    reveal_strlit("remainder");
    lemma_push_keeps_lower(t, spec_commercial_oracle_entry("remainder", FuncCategory::Scalar, FuncDomain::Math, 2, Some(2), false));
    let t = t.push(spec_commercial_oracle_entry("remainder", FuncCategory::Scalar, FuncDomain::Math, 2, Some(2), false));
    reveal_strlit("repeat");
    lemma_push_keeps_lower(t, spec_core_entry("repeat", FuncCategory::Scalar, FuncDomain::String, 2, Some(2), false));
    let t = t.push(spec_core_entry("repeat", FuncCategory::Scalar, FuncDomain::String, 2, Some(2), false));
    reveal_strlit("replace");
    lemma_push_keeps_lower(t, spec_core_entry("replace", FuncCategory::Scalar, FuncDomain::String, 2, Some(3), false));
    let t = t.push(spec_core_entry("replace", FuncCategory::Scalar, FuncDomain::String, 2, Some(3), false));
    reveal_strlit("reverse");
    lemma_push_keeps_lower(t, spec_core_entry("reverse", FuncCategory::Scalar, FuncDomain::String, 1, Some(1), false));
    let t = t.push(spec_core_entry("reverse", FuncCategory::Scalar, FuncDomain::String, 1, Some(1), false));
    reveal_strlit("right");
    lemma_push_keeps_lower(t, spec_core_entry("right", FuncCategory::Scalar, FuncDomain::String, 2, Some(2), false));
    let t = t.push(spec_core_entry("right", FuncCategory::Scalar, FuncDomain::String, 2, Some(2), false));
    reveal_strlit("round");
    lemma_push_keeps_lower(t, spec_core_entry("round", FuncCategory::Scalar, FuncDomain::Math, 1, Some(2), false));
    let t = t.push(spec_core_entry("round", FuncCategory::Scalar, FuncDomain::Math, 1, Some(2), false));
    reveal_strlit("row_number");
    lemma_push_keeps_lower(t, spec_core_entry("row_number", FuncCategory::Window, FuncDomain::Window, 0, Some(0), false));
    let t = t.push(spec_core_entry("row_number", FuncCategory::Window, FuncDomain::Window, 0, Some(0), false));
    reveal_strlit("row_to_json");
    lemma_push_keeps_lower(t, spec_core_entry("row_to_json", FuncCategory::Scalar, FuncDomain::Json, 1, Some(2), false));
    let t = t.push(spec_core_entry("row_to_json", FuncCategory::Scalar, FuncDomain::Json, 1, Some(2), false));
    reveal_strlit("rownum");
    lemma_push_keeps_lower(t, spec_oracle_entry("rownum", FuncCategory::Scalar, FuncDomain::OracleCompat, 0, Some(0), false));
    let t = t.push(spec_oracle_entry("rownum", FuncCategory::Scalar, FuncDomain::OracleCompat, 0, Some(0), false));
    reveal_strlit("rpad");
    lemma_push_keeps_lower(t, spec_core_entry("rpad", FuncCategory::Scalar, FuncDomain::String, 2, Some(3), false));
    let t = t.push(spec_core_entry("rpad", FuncCategory::Scalar, FuncDomain::String, 2, Some(3), false));
    assert(t == table_chunk_7_8(s));
}

proof fn lemma_chunk_lower_7_9(s: Seq<FuncMeta>)
    requires
        names_lower(s),
    ensures
        names_lower(table_chunk_7_9(s)),
{
    let t = s;
    reveal_strlit("rtrim");
    lemma_push_keeps_lower(t, spec_core_entry("rtrim", FuncCategory::Scalar, FuncDomain::String, 1, Some(2), false));
    let t = t.push(spec_core_entry("rtrim", FuncCategory::Scalar, FuncDomain::String, 1, Some(2), false));
    reveal_strlit("schema_to_xml");
    lemma_push_keeps_lower(t, spec_core_entry("schema_to_xml", FuncCategory::Scalar, FuncDomain::Xml, 4, Some(4), false));
    let t = t.push(spec_core_entry("schema_to_xml", FuncCategory::Scalar, FuncDomain::Xml, 4, Some(4), false));
    reveal_strlit("schema_to_xml_and_xmlschema");
    lemma_push_keeps_lower(t, spec_core_entry("schema_to_xml_and_xmlschema", FuncCategory::Scalar, FuncDomain::Xml, 4, Some(4), false));
    let t = t.push(spec_core_entry("schema_to_xml_and_xmlschema", FuncCategory::Scalar, FuncDomain::Xml, 4, Some(4), false));
    reveal_strlit("schema_to_xmlschema");
    lemma_push_keeps_lower(t, spec_core_entry("schema_to_xmlschema", FuncCategory::Scalar, FuncDomain::Xml, 4, Some(4), false));
    let t = t.push(spec_core_entry("schema_to_xmlschema", FuncCategory::Scalar, FuncDomain::Xml, 4, Some(4), false));
    reveal_strlit("sec_to_time");
    lemma_push_keeps_lower(t, spec_commercial_entry("sec_to_time", FuncCategory::Scalar, FuncDomain::DateTime, 1, Some(1), false));
    let t = t.push(spec_commercial_entry("sec_to_time", FuncCategory::Scalar, FuncDomain::DateTime, 1, Some(1), false));
    reveal_strlit("session_user");
    lemma_push_keeps_lower(t, spec_core_entry("session_user", FuncCategory::Scalar, FuncDomain::System, 0, Some(0), false));
    let t = t.push(spec_core_entry("session_user", FuncCategory::Scalar, FuncDomain::System, 0, Some(0), false));
    reveal_strlit("set_bit");
    lemma_push_keeps_lower(t, spec_core_entry("set_bit", FuncCategory::Scalar, FuncDomain::String, 3, Some(3), false));
    let t = t.push(spec_core_entry("set_bit", FuncCategory::Scalar, FuncDomain::String, 3, Some(3), false));
    reveal_strlit("set_byte");
    lemma_push_keeps_lower(t, spec_core_entry("set_byte", FuncCategory::Scalar, FuncDomain::String, 3, Some(3), false));
    let t = t.push(spec_core_entry("set_byte", FuncCategory::Scalar, FuncDomain::String, 3, Some(3), false));
    reveal_strlit("set_config");
    lemma_push_keeps_lower(t, spec_core_entry("set_config", FuncCategory::Scalar, FuncDomain::System, 2, Some(3), false));
    let t = t.push(spec_core_entry("set_config", FuncCategory::Scalar, FuncDomain::System, 2, Some(3), false));
    reveal_strlit("setseed");
    lemma_push_keeps_lower(t, spec_core_entry("setseed", FuncCategory::Scalar, FuncDomain::Math, 1, Some(1), false));
    let t = t.push(spec_core_entry("setseed", FuncCategory::Scalar, FuncDomain::Math, 1, Some(1), false));
    assert(t == table_chunk_7_9(s));
}

proof fn lemma_chunk_lower_7_10(s: Seq<FuncMeta>)
    requires
        names_lower(s),
    ensures
        names_lower(table_chunk_7_10(s)),
{
    let t = s;
    reveal_strlit("setval");
    lemma_push_keeps_lower(t, spec_core_entry("setval", FuncCategory::Scalar, FuncDomain::System, 2, Some(3), false));
    let t = t.push(spec_core_entry("setval", FuncCategory::Scalar, FuncDomain::System, 2, Some(3), false));
    reveal_strlit("sha1");
    lemma_push_keeps_lower(t, spec_core_entry("sha1", FuncCategory::Scalar, FuncDomain::Crypto, 1, Some(1), false));
    let t = t.push(spec_core_entry("sha1", FuncCategory::Scalar, FuncDomain::Crypto, 1, Some(1), false));
    reveal_strlit("sha2");
    lemma_push_keeps_lower(t, spec_core_entry("sha2", FuncCategory::Scalar, FuncDomain::Crypto, 1, Some(2), false));
    let t = t.push(spec_core_entry("sha2", FuncCategory::Scalar, FuncDomain::Crypto, 1, Some(2), false));
    reveal_strlit("sign");
    lemma_push_keeps_lower(t, spec_core_entry("sign", FuncCategory::Scalar, FuncDomain::Math, 1, Some(1), false));
    let t = t.push(spec_core_entry("sign", FuncCategory::Scalar, FuncDomain::Math, 1, Some(1), false));
    reveal_strlit("sin");
    lemma_push_keeps_lower(t, spec_core_entry("sin", FuncCategory::Scalar, FuncDomain::Math, 1, Some(1), false));
    let t = t.push(spec_core_entry("sin", FuncCategory::Scalar, FuncDomain::Math, 1, Some(1), false));
    reveal_strlit("split_part");
    lemma_push_keeps_lower(t, spec_core_entry("split_part", FuncCategory::Scalar, FuncDomain::String, 3, Some(3), false));
    let t = t.push(spec_core_entry("split_part", FuncCategory::Scalar, FuncDomain::String, 3, Some(3), false));
    reveal_strlit("sqrt");
    lemma_push_keeps_lower(t, spec_core_entry("sqrt", FuncCategory::Scalar, FuncDomain::Math, 1, Some(1), false));
    let t = t.push(spec_core_entry("sqrt", FuncCategory::Scalar, FuncDomain::Math, 1, Some(1), false));
    reveal_strlit("st_buffer");
    lemma_push_keeps_lower(t, spec_oracle_entry("st_buffer", FuncCategory::Scalar, FuncDomain::Geometric, 2, Some(3), false));
    let t = t.push(spec_oracle_entry("st_buffer", FuncCategory::Scalar, FuncDomain::Geometric, 2, Some(3), false));
    reveal_strlit("st_envelope");
    lemma_push_keeps_lower(t, spec_oracle_entry("st_envelope", FuncCategory::Scalar, FuncDomain::Geometric, 1, Some(1), false));
    let t = t.push(spec_oracle_entry("st_envelope", FuncCategory::Scalar, FuncDomain::Geometric, 1, Some(1), false));
    reveal_strlit("st_makepoint");
    lemma_push_keeps_lower(t, spec_oracle_entry("st_makepoint", FuncCategory::Scalar, FuncDomain::Geometric, 2, Some(4), false));
    let t = t.push(spec_oracle_entry("st_makepoint", FuncCategory::Scalar, FuncDomain::Geometric, 2, Some(4), false));
    assert(t == table_chunk_7_10(s));
}

proof fn lemma_chunk_lower_7_11(s: Seq<FuncMeta>)
    requires
        names_lower(s),
    ensures
        names_lower(table_chunk_7_11(s)),
{
    let t = s;
    reveal_strlit("st_setsrid");
    lemma_push_keeps_lower(t, spec_oracle_entry("st_setsrid", FuncCategory::Scalar, FuncDomain::Geometric, 2, Some(2), false));
    let t = t.push(spec_oracle_entry("st_setsrid", FuncCategory::Scalar, FuncDomain::Geometric, 2, Some(2), false));
    reveal_strlit("statement_timestamp");
    lemma_push_keeps_lower(t, spec_core_entry("statement_timestamp", FuncCategory::Scalar, FuncDomain::DateTime, 0, Some(0), false));
    let t = t.push(spec_core_entry("statement_timestamp", FuncCategory::Scalar, FuncDomain::DateTime, 0, Some(0), false));
    reveal_strlit("stddev");
    lemma_push_keeps_lower(t, spec_core_entry("stddev", FuncCategory::Aggregate, FuncDomain::Aggregate, 1, Some(1), true));
    let t = t.push(spec_core_entry("stddev", FuncCategory::Aggregate, FuncDomain::Aggregate, 1, Some(1), true));
    reveal_strlit("stddev_pop");
    lemma_push_keeps_lower(t, spec_core_entry("stddev_pop", FuncCategory::Aggregate, FuncDomain::Aggregate, 1, Some(1), true));
    let t = t.push(spec_core_entry("stddev_pop", FuncCategory::Aggregate, FuncDomain::Aggregate, 1, Some(1), true));
    reveal_strlit("stddev_samp");
    lemma_push_keeps_lower(t, spec_core_entry("stddev_samp", FuncCategory::Aggregate, FuncDomain::Aggregate, 1, Some(1), true));
    let t = t.push(spec_core_entry("stddev_samp", FuncCategory::Aggregate, FuncDomain::Aggregate, 1, Some(1), true));
    reveal_strlit("str_to_date");
    lemma_push_keeps_lower(t, spec_commercial_entry("str_to_date", FuncCategory::Scalar, FuncDomain::DateTime, 2, Some(2), false));
    let t = t.push(spec_commercial_entry("str_to_date", FuncCategory::Scalar, FuncDomain::DateTime, 2, Some(2), false));
    reveal_strlit("string_agg");
    lemma_push_keeps_lower(t, spec_core_entry("string_agg", FuncCategory::Aggregate, FuncDomain::String, 2, Some(2), true));
    let t = t.push(spec_core_entry("string_agg", FuncCategory::Aggregate, FuncDomain::String, 2, Some(2), true));
    reveal_strlit("string_to_array");
    lemma_push_keeps_lower(t, spec_core_entry("string_to_array", FuncCategory::Scalar, FuncDomain::Array, 2, Some(3), false));
    let t = t.push(spec_core_entry("string_to_array", FuncCategory::Scalar, FuncDomain::Array, 2, Some(3), false));
    reveal_strlit("strpos");
    lemma_push_keeps_lower(t, spec_core_entry("strpos", FuncCategory::Scalar, FuncDomain::String, 2, Some(2), false));
    let t = t.push(spec_core_entry("strpos", FuncCategory::Scalar, FuncDomain::String, 2, Some(2), false));
    reveal_strlit("subdate");
    lemma_push_keeps_lower(t, spec_commercial_entry("subdate", FuncCategory::Scalar, FuncDomain::DateTime, 2, Some(2), false));
    let t = t.push(spec_commercial_entry("subdate", FuncCategory::Scalar, FuncDomain::DateTime, 2, Some(2), false));
    assert(t == table_chunk_7_11(s));
}

proof fn lemma_chunk_lower_7_12(s: Seq<FuncMeta>)
    requires
        names_lower(s),
    ensures
        names_lower(table_chunk_7_12(s)),
{
    let t = s;
    reveal_strlit("substr");
    lemma_push_keeps_lower(t, spec_core_entry("substr", FuncCategory::Scalar, FuncDomain::String, 2, Some(3), false));
    let t = t.push(spec_core_entry("substr", FuncCategory::Scalar, FuncDomain::String, 2, Some(3), false));
    reveal_strlit("substrb");
    lemma_push_keeps_lower(t, spec_oracle_entry("substrb", FuncCategory::Scalar, FuncDomain::String, 2, Some(3), false));
    let t = t.push(spec_oracle_entry("substrb", FuncCategory::Scalar, FuncDomain::String, 2, Some(3), false));
    reveal_strlit("substring");
    lemma_push_keeps_lower(t, spec_core_entry("substring", FuncCategory::Scalar, FuncDomain::String, 2, Some(3), false));
    let t = t.push(spec_core_entry("substring", FuncCategory::Scalar, FuncDomain::String, 2, Some(3), false));
    reveal_strlit("substring_index");
    lemma_push_keeps_lower(t, spec_commercial_entry("substring_index", FuncCategory::Scalar, FuncDomain::String, 3, Some(3), false));
    let t = t.push(spec_commercial_entry("substring_index", FuncCategory::Scalar, FuncDomain::String, 3, Some(3), false));
    reveal_strlit("subtime");
    lemma_push_keeps_lower(t, spec_commercial_entry("subtime", FuncCategory::Scalar, FuncDomain::DateTime, 2, Some(2), false));
    let t = t.push(spec_commercial_entry("subtime", FuncCategory::Scalar, FuncDomain::DateTime, 2, Some(2), false));
    assert(t == table_chunk_7_12(s));
}

proof fn lemma_part_7_lower(s: Seq<FuncMeta>)
    requires
        names_lower(s),
    ensures
        names_lower(table_part_7(s)),
{
    lemma_chunk_lower_7_0(s);
    let t0 = table_chunk_7_0(s);
    lemma_chunk_lower_7_1(t0);
    let t1 = table_chunk_7_1(t0);
    lemma_chunk_lower_7_2(t1);
    let t2 = table_chunk_7_2(t1);
    lemma_chunk_lower_7_3(t2);
    let t3 = table_chunk_7_3(t2);
    lemma_chunk_lower_7_4(t3);
    let t4 = table_chunk_7_4(t3);
    lemma_chunk_lower_7_5(t4);
    let t5 = table_chunk_7_5(t4);
    lemma_chunk_lower_7_6(t5);
    let t6 = table_chunk_7_6(t5);
    lemma_chunk_lower_7_7(t6);
    let t7 = table_chunk_7_7(t6);
    lemma_chunk_lower_7_8(t7);
    let t8 = table_chunk_7_8(t7);
    lemma_chunk_lower_7_9(t8);
    let t9 = table_chunk_7_9(t8);
    lemma_chunk_lower_7_10(t9);
    let t10 = table_chunk_7_10(t9);
    lemma_chunk_lower_7_11(t10);
    let t11 = table_chunk_7_11(t10);
    lemma_chunk_lower_7_12(t11);
    let t12 = table_chunk_7_12(t11);
    assert(t12 == table_part_7(s));
}

proof fn lemma_chunk_lower_8_0(s: Seq<FuncMeta>)
    requires
        names_lower(s),
    ensures
        names_lower(table_chunk_8_0(s)),
{
    let t = s;
    reveal_strlit("sum");
    lemma_push_keeps_lower(t, spec_core_entry("sum", FuncCategory::Aggregate, FuncDomain::Aggregate, 1, Some(1), true));
    let t = t.push(spec_core_entry("sum", FuncCategory::Aggregate, FuncDomain::Aggregate, 1, Some(1), true));
    reveal_strlit("sys_connect_by_path");
    lemma_push_keeps_lower(t, spec_commercial_oracle_entry("sys_connect_by_path", FuncCategory::Scalar, FuncDomain::OracleCompat, 2, Some(2), false));
    let t = t.push(spec_commercial_oracle_entry("sys_connect_by_path", FuncCategory::Scalar, FuncDomain::OracleCompat, 2, Some(2), false));
    reveal_strlit("sys_context");
    lemma_push_keeps_lower(t, spec_commercial_oracle_entry("sys_context", FuncCategory::Scalar, FuncDomain::System, 2, Some(3), false));
    let t = t.push(spec_commercial_oracle_entry("sys_context", FuncCategory::Scalar, FuncDomain::System, 2, Some(3), false));
    reveal_strlit("sys_extract_utc");
    lemma_push_keeps_lower(t, spec_commercial_oracle_entry("sys_extract_utc", FuncCategory::Scalar, FuncDomain::DateTime, 1, Some(1), false));
    let t = t.push(spec_commercial_oracle_entry("sys_extract_utc", FuncCategory::Scalar, FuncDomain::DateTime, 1, Some(1), false));
    reveal_strlit("sysdate");
    lemma_push_keeps_lower(t, spec_oracle_entry("sysdate", FuncCategory::Scalar, FuncDomain::OracleCompat, 0, Some(0), false));
    let t = t.push(spec_oracle_entry("sysdate", FuncCategory::Scalar, FuncDomain::OracleCompat, 0, Some(0), false));
    reveal_strlit("table_to_xml");
    lemma_push_keeps_lower(t, spec_core_entry("table_to_xml", FuncCategory::Scalar, FuncDomain::Xml, 4, Some(4), false));
    let t = t.push(spec_core_entry("table_to_xml", FuncCategory::Scalar, FuncDomain::Xml, 4, Some(4), false));
    reveal_strlit("table_to_xml_and_xmlschema");
    lemma_push_keeps_lower(t, spec_core_entry("table_to_xml_and_xmlschema", FuncCategory::Scalar, FuncDomain::Xml, 4, Some(4), false));
    let t = t.push(spec_core_entry("table_to_xml_and_xmlschema", FuncCategory::Scalar, FuncDomain::Xml, 4, Some(4), false));
    reveal_strlit("table_to_xmlschema");
    lemma_push_keeps_lower(t, spec_core_entry("table_to_xmlschema", FuncCategory::Scalar, FuncDomain::Xml, 4, Some(4), false));
    let t = t.push(spec_core_entry("table_to_xmlschema", FuncCategory::Scalar, FuncDomain::Xml, 4, Some(4), false));
    reveal_strlit("tan");
    lemma_push_keeps_lower(t, spec_core_entry("tan", FuncCategory::Scalar, FuncDomain::Math, 1, Some(1), false));
    let t = t.push(spec_core_entry("tan", FuncCategory::Scalar, FuncDomain::Math, 1, Some(1), false));
    reveal_strlit("time_format");
    lemma_push_keeps_lower(t, spec_commercial_entry("time_format", FuncCategory::Scalar, FuncDomain::DateTime, 2, Some(2), false));
    let t = t.push(spec_commercial_entry("time_format", FuncCategory::Scalar, FuncDomain::DateTime, 2, Some(2), false));
    assert(t == table_chunk_8_0(s));
}

proof fn lemma_chunk_lower_8_1(s: Seq<FuncMeta>)
    requires
        names_lower(s),
    ensures
        names_lower(table_chunk_8_1(s)),
{
    let t = s;
    reveal_strlit("time_to_sec");
    lemma_push_keeps_lower(t, spec_commercial_entry("time_to_sec", FuncCategory::Scalar, FuncDomain::DateTime, 1, Some(1), false));
    let t = t.push(spec_commercial_entry("time_to_sec", FuncCategory::Scalar, FuncDomain::DateTime, 1, Some(1), false));
    reveal_strlit("timediff");
    lemma_push_keeps_lower(t, spec_commercial_entry("timediff", FuncCategory::Scalar, FuncDomain::DateTime, 2, Some(2), false));
    let t = t.push(spec_commercial_entry("timediff", FuncCategory::Scalar, FuncDomain::DateTime, 2, Some(2), false));
    reveal_strlit("timenow");
    lemma_push_keeps_lower(t, spec_core_entry("timenow", FuncCategory::Scalar, FuncDomain::DateTime, 0, Some(0), false));
    let t = t.push(spec_core_entry("timenow", FuncCategory::Scalar, FuncDomain::DateTime, 0, Some(0), false));
    reveal_strlit("timeofday");
    lemma_push_keeps_lower(t, spec_core_entry("timeofday", FuncCategory::Scalar, FuncDomain::DateTime, 0, Some(0), false));
    let t = t.push(spec_core_entry("timeofday", FuncCategory::Scalar, FuncDomain::DateTime, 0, Some(0), false));
    reveal_strlit("timestampadd");
    lemma_push_keeps_lower(t, spec_commercial_entry("timestampadd", FuncCategory::Scalar, FuncDomain::DateTime, 3, Some(3), false));
    let t = t.push(spec_commercial_entry("timestampadd", FuncCategory::Scalar, FuncDomain::DateTime, 3, Some(3), false));
    reveal_strlit("timestampdiff");
    lemma_push_keeps_lower(t, spec_commercial_entry("timestampdiff", FuncCategory::Scalar, FuncDomain::DateTime, 3, Some(3), false));
    let t = t.push(spec_commercial_entry("timestampdiff", FuncCategory::Scalar, FuncDomain::DateTime, 3, Some(3), false));
    reveal_strlit("to_ascii");
    lemma_push_keeps_lower(t, spec_core_entry("to_ascii", FuncCategory::Scalar, FuncDomain::TypeConversion, 1, Some(2), false));
    let t = t.push(spec_core_entry("to_ascii", FuncCategory::Scalar, FuncDomain::TypeConversion, 1, Some(2), false));
    reveal_strlit("to_bigint");
    lemma_push_keeps_lower(t, spec_oracle_entry("to_bigint", FuncCategory::Scalar, FuncDomain::TypeConversion, 1, Some(1), false));
    let t = t.push(spec_oracle_entry("to_bigint", FuncCategory::Scalar, FuncDomain::TypeConversion, 1, Some(1), false));
    reveal_strlit("to_binary_double");
    lemma_push_keeps_lower(t, spec_commercial_oracle_entry("to_binary_double", FuncCategory::Scalar, FuncDomain::TypeConversion, 1, Some(2), false));
    let t = t.push(spec_commercial_oracle_entry("to_binary_double", FuncCategory::Scalar, FuncDomain::TypeConversion, 1, Some(2), false));
    reveal_strlit("to_binary_float");
    lemma_push_keeps_lower(t, spec_oracle_entry("to_binary_float", FuncCategory::Scalar, FuncDomain::TypeConversion, 1, Some(2), false));
    let t = t.push(spec_oracle_entry("to_binary_float", FuncCategory::Scalar, FuncDomain::TypeConversion, 1, Some(2), false));
    assert(t == table_chunk_8_1(s));
}

proof fn lemma_chunk_lower_8_2(s: Seq<FuncMeta>)
    requires
        names_lower(s),
    ensures
        names_lower(table_chunk_8_2(s)),
{
    let t = s;
    reveal_strlit("to_blob");
    lemma_push_keeps_lower(t, spec_oracle_entry("to_blob", FuncCategory::Scalar, FuncDomain::TypeConversion, 1, Some(1), false));
    let t = t.push(spec_oracle_entry("to_blob", FuncCategory::Scalar, FuncDomain::TypeConversion, 1, Some(1), false));
    reveal_strlit("to_char");
    lemma_push_keeps_lower(t, spec_core_entry("to_char", FuncCategory::Scalar, FuncDomain::TypeConversion, 1, Some(2), false));
    let t = t.push(spec_core_entry("to_char", FuncCategory::Scalar, FuncDomain::TypeConversion, 1, Some(2), false));
    reveal_strlit("to_clob");
    lemma_push_keeps_lower(t, spec_core_entry("to_clob", FuncCategory::Scalar, FuncDomain::TypeConversion, 1, Some(1), false));
    let t = t.push(spec_core_entry("to_clob", FuncCategory::Scalar, FuncDomain::TypeConversion, 1, Some(1), false));
    reveal_strlit("to_date");
    lemma_push_keeps_lower(t, spec_core_entry("to_date", FuncCategory::Scalar, FuncDomain::TypeConversion, 1, Some(2), false));
    let t = t.push(spec_core_entry("to_date", FuncCategory::Scalar, FuncDomain::TypeConversion, 1, Some(2), false));
    reveal_strlit("to_days");
    lemma_push_keeps_lower(t, spec_commercial_entry("to_days", FuncCategory::Scalar, FuncDomain::DateTime, 1, Some(1), false));
    let t = t.push(spec_commercial_entry("to_days", FuncCategory::Scalar, FuncDomain::DateTime, 1, Some(1), false));
    reveal_strlit("to_dsinterval");
    lemma_push_keeps_lower(t, spec_oracle_entry("to_dsinterval", FuncCategory::Scalar, FuncDomain::TypeConversion, 1, Some(1), false));
    let t = t.push(spec_oracle_entry("to_dsinterval", FuncCategory::Scalar, FuncDomain::TypeConversion, 1, Some(1), false));
    reveal_strlit("to_hex");
    lemma_push_keeps_lower(t, spec_core_entry("to_hex", FuncCategory::Scalar, FuncDomain::TypeConversion, 1, Some(1), false));
    let t = t.push(spec_core_entry("to_hex", FuncCategory::Scalar, FuncDomain::TypeConversion, 1, Some(1), false));
    reveal_strlit("to_json");
    lemma_push_keeps_lower(t, spec_core_entry("to_json", FuncCategory::Scalar, FuncDomain::Json, 1, Some(1), false));
    let t = t.push(spec_core_entry("to_json", FuncCategory::Scalar, FuncDomain::Json, 1, Some(1), false));
    reveal_strlit("to_jsonb");
    lemma_push_keeps_lower(t, spec_core_entry("to_jsonb", FuncCategory::Scalar, FuncDomain::Json, 1, Some(1), false));
    let t = t.push(spec_core_entry("to_jsonb", FuncCategory::Scalar, FuncDomain::Json, 1, Some(1), false));
    reveal_strlit("to_multi_byte");
    lemma_push_keeps_lower(t, spec_commercial_oracle_entry("to_multi_byte", FuncCategory::Scalar, FuncDomain::String, 1, Some(1), false));
    let t = t.push(spec_commercial_oracle_entry("to_multi_byte", FuncCategory::Scalar, FuncDomain::String, 1, Some(1), false));
    assert(t == table_chunk_8_2(s));
}

proof fn lemma_chunk_lower_8_3(s: Seq<FuncMeta>)
    requires
        names_lower(s),
    ensures
        names_lower(table_chunk_8_3(s)),
{
    let t = s;
    reveal_strlit("to_nchar");
    lemma_push_keeps_lower(t, spec_commercial_oracle_entry("to_nchar", FuncCategory::Scalar, FuncDomain::TypeConversion, 1, Some(2), false));
    let t = t.push(spec_commercial_oracle_entry("to_nchar", FuncCategory::Scalar, FuncDomain::TypeConversion, 1, Some(2), false));
    reveal_strlit("to_number");
    lemma_push_keeps_lower(t, spec_core_entry("to_number", FuncCategory::Scalar, FuncDomain::TypeConversion, 1, Some(2), false));
    let t = t.push(spec_core_entry("to_number", FuncCategory::Scalar, FuncDomain::TypeConversion, 1, Some(2), false));
    reveal_strlit("to_seconds");
    lemma_push_keeps_lower(t, spec_commercial_entry("to_seconds", FuncCategory::Scalar, FuncDomain::DateTime, 1, Some(1), false));
    let t = t.push(spec_commercial_entry("to_seconds", FuncCategory::Scalar, FuncDomain::DateTime, 1, Some(1), false));
    reveal_strlit("to_single_byte");
    lemma_push_keeps_lower(t, spec_commercial_oracle_entry("to_single_byte", FuncCategory::Scalar, FuncDomain::String, 1, Some(1), false));
    let t = t.push(spec_commercial_oracle_entry("to_single_byte", FuncCategory::Scalar, FuncDomain::String, 1, Some(1), false));
    reveal_strlit("to_timestamp");
    lemma_push_keeps_lower(t, spec_core_entry("to_timestamp", FuncCategory::Scalar, FuncDomain::DateTime, 1, Some(2), false));
    let t = t.push(spec_core_entry("to_timestamp", FuncCategory::Scalar, FuncDomain::DateTime, 1, Some(2), false));
    reveal_strlit("to_timestamp_tz");
    lemma_push_keeps_lower(t, spec_commercial_oracle_entry("to_timestamp_tz", FuncCategory::Scalar, FuncDomain::DateTime, 1, Some(2), false));
    let t = t.push(spec_commercial_oracle_entry("to_timestamp_tz", FuncCategory::Scalar, FuncDomain::DateTime, 1, Some(2), false));
    reveal_strlit("to_tsquery");
    lemma_push_keeps_lower(t, spec_core_entry("to_tsquery", FuncCategory::Scalar, FuncDomain::TextSearch, 1, Some(2), false));
    let t = t.push(spec_core_entry("to_tsquery", FuncCategory::Scalar, FuncDomain::TextSearch, 1, Some(2), false));
    reveal_strlit("to_tsvector");
    lemma_push_keeps_lower(t, spec_core_entry("to_tsvector", FuncCategory::Scalar, FuncDomain::TextSearch, 1, Some(2), false));
    let t = t.push(spec_core_entry("to_tsvector", FuncCategory::Scalar, FuncDomain::TextSearch, 1, Some(2), false));
    reveal_strlit("to_yminterval");
    lemma_push_keeps_lower(t, spec_oracle_entry("to_yminterval", FuncCategory::Scalar, FuncDomain::TypeConversion, 1, Some(1), false));
    let t = t.push(spec_oracle_entry("to_yminterval", FuncCategory::Scalar, FuncDomain::TypeConversion, 1, Some(1), false));
    reveal_strlit("transaction_timestamp");
    lemma_push_keeps_lower(t, spec_core_entry("transaction_timestamp", FuncCategory::Scalar, FuncDomain::DateTime, 0, Some(0), false));
    let t = t.push(spec_core_entry("transaction_timestamp", FuncCategory::Scalar, FuncDomain::DateTime, 0, Some(0), false));
    assert(t == table_chunk_8_3(s));
}

proof fn lemma_chunk_lower_8_4(s: Seq<FuncMeta>)
    requires
        names_lower(s),
    ensures
        names_lower(table_chunk_8_4(s)),
{
    let t = s;
    reveal_strlit("translate");
    lemma_push_keeps_lower(t, spec_core_entry("translate", FuncCategory::Scalar, FuncDomain::String, 3, Some(3), false));
    let t = t.push(spec_core_entry("translate", FuncCategory::Scalar, FuncDomain::String, 3, Some(3), false));
    reveal_strlit("treat");
    lemma_push_keeps_lower(t, spec_commercial_oracle_entry("treat", FuncCategory::Scalar, FuncDomain::TypeConversion, 1, Some(1), false));
    let t = t.push(spec_commercial_oracle_entry("treat", FuncCategory::Scalar, FuncDomain::TypeConversion, 1, Some(1), false));
    reveal_strlit("trim");
    lemma_push_keeps_lower(t, spec_core_entry("trim", FuncCategory::Scalar, FuncDomain::String, 1, Some(3), false));
    let t = t.push(spec_core_entry("trim", FuncCategory::Scalar, FuncDomain::String, 1, Some(3), false));
    reveal_strlit("trunc");
    lemma_push_keeps_lower(t, spec_core_entry("trunc", FuncCategory::Scalar, FuncDomain::Math, 1, Some(2), false));
    let t = t.push(spec_core_entry("trunc", FuncCategory::Scalar, FuncDomain::Math, 1, Some(2), false));
    reveal_strlit("ts_headline");
    lemma_push_keeps_lower(t, spec_core_entry("ts_headline", FuncCategory::Scalar, FuncDomain::TextSearch, 2, Some(4), false));
    let t = t.push(spec_core_entry("ts_headline", FuncCategory::Scalar, FuncDomain::TextSearch, 2, Some(4), false));
    reveal_strlit("ts_lexize");
    lemma_push_keeps_lower(t, spec_core_entry("ts_lexize", FuncCategory::Scalar, FuncDomain::TextSearch, 2, Some(2), false));
    let t = t.push(spec_core_entry("ts_lexize", FuncCategory::Scalar, FuncDomain::TextSearch, 2, Some(2), false));
    reveal_strlit("ts_parse");
    lemma_push_keeps_lower(t, spec_core_entry("ts_parse", FuncCategory::Scalar, FuncDomain::TextSearch, 1, Some(2), false));
    let t = t.push(spec_core_entry("ts_parse", FuncCategory::Scalar, FuncDomain::TextSearch, 1, Some(2), false));
    reveal_strlit("ts_rank");
    lemma_push_keeps_lower(t, spec_core_entry("ts_rank", FuncCategory::Scalar, FuncDomain::TextSearch, 1, Some(4), false));
    let t = t.push(spec_core_entry("ts_rank", FuncCategory::Scalar, FuncDomain::TextSearch, 1, Some(4), false));
    reveal_strlit("ts_rank_cd");
    lemma_push_keeps_lower(t, spec_core_entry("ts_rank_cd", FuncCategory::Scalar, FuncDomain::TextSearch, 1, Some(4), false));
    let t = t.push(spec_core_entry("ts_rank_cd", FuncCategory::Scalar, FuncDomain::TextSearch, 1, Some(4), false));
    reveal_strlit("ts_rewrite");
    lemma_push_keeps_lower(t, spec_core_entry("ts_rewrite", FuncCategory::Scalar, FuncDomain::TextSearch, 2, Some(3), false));
    let t = t.push(spec_core_entry("ts_rewrite", FuncCategory::Scalar, FuncDomain::TextSearch, 2, Some(3), false));
    assert(t == table_chunk_8_4(s));
}

proof fn lemma_chunk_lower_8_5(s: Seq<FuncMeta>)
    requires
        names_lower(s),
    ensures
        names_lower(table_chunk_8_5(s)),
{
    let t = s;
    reveal_strlit("ts_stat");
    lemma_push_keeps_lower(t, spec_core_entry("ts_stat", FuncCategory::Scalar, FuncDomain::TextSearch, 1, Some(2), false));
    let t = t.push(spec_core_entry("ts_stat", FuncCategory::Scalar, FuncDomain::TextSearch, 1, Some(2), false));
    reveal_strlit("ts_token_type");
    lemma_push_keeps_lower(t, spec_core_entry("ts_token_type", FuncCategory::Scalar, FuncDomain::TextSearch, 0, Some(1), false));
    let t = t.push(spec_core_entry("ts_token_type", FuncCategory::Scalar, FuncDomain::TextSearch, 0, Some(1), false));
    reveal_strlit("tsrange");
    lemma_push_keeps_lower(t, spec_core_entry("tsrange", FuncCategory::Scalar, FuncDomain::Range, 2, Some(3), false));
    let t = t.push(spec_core_entry("tsrange", FuncCategory::Scalar, FuncDomain::Range, 2, Some(3), false));
    reveal_strlit("tsvector_update_trigger");
    lemma_push_keeps_lower(t, spec_core_entry("tsvector_update_trigger", FuncCategory::Scalar, FuncDomain::TextSearch, 0, Some(0), false));
    let t = t.push(spec_core_entry("tsvector_update_trigger", FuncCategory::Scalar, FuncDomain::TextSearch, 0, Some(0), false));
    reveal_strlit("txid_current");
    lemma_push_keeps_lower(t, spec_core_entry("txid_current", FuncCategory::Scalar, FuncDomain::System, 0, Some(0), false));
    let t = t.push(spec_core_entry("txid_current", FuncCategory::Scalar, FuncDomain::System, 0, Some(0), false));
    reveal_strlit("txid_current_snapshot");
    lemma_push_keeps_lower(t, spec_core_entry("txid_current_snapshot", FuncCategory::Scalar, FuncDomain::System, 0, Some(0), false));
    let t = t.push(spec_core_entry("txid_current_snapshot", FuncCategory::Scalar, FuncDomain::System, 0, Some(0), false));
    reveal_strlit("txid_snapshot_xip");
    lemma_push_keeps_lower(t, spec_core_entry("txid_snapshot_xip", FuncCategory::Scalar, FuncDomain::System, 1, Some(1), false));
    let t = t.push(spec_core_entry("txid_snapshot_xip", FuncCategory::Scalar, FuncDomain::System, 1, Some(1), false));
    reveal_strlit("txid_snapshot_xmax");
    lemma_push_keeps_lower(t, spec_core_entry("txid_snapshot_xmax", FuncCategory::Scalar, FuncDomain::System, 1, Some(1), false));
    let t = t.push(spec_core_entry("txid_snapshot_xmax", FuncCategory::Scalar, FuncDomain::System, 1, Some(1), false));
    reveal_strlit("txid_snapshot_xmin");
    lemma_push_keeps_lower(t, spec_core_entry("txid_snapshot_xmin", FuncCategory::Scalar, FuncDomain::System, 1, Some(1), false));
    let t = t.push(spec_core_entry("txid_snapshot_xmin", FuncCategory::Scalar, FuncDomain::System, 1, Some(1), false));
    reveal_strlit("txid_visible_in_snapshot");
    lemma_push_keeps_lower(t, spec_core_entry("txid_visible_in_snapshot", FuncCategory::Scalar, FuncDomain::System, 2, Some(2), false));
    let t = t.push(spec_core_entry("txid_visible_in_snapshot", FuncCategory::Scalar, FuncDomain::System, 2, Some(2), false));
    assert(t == table_chunk_8_5(s));
}

proof fn lemma_chunk_lower_8_6(s: Seq<FuncMeta>)
    requires
        names_lower(s),
    ensures
        names_lower(table_chunk_8_6(s)),
{
    let t = s;
    reveal_strlit("tz_offset");
    lemma_push_keeps_lower(t, spec_commercial_oracle_entry("tz_offset", FuncCategory::Scalar, FuncDomain::DateTime, 1, Some(1), false));
    let t = t.push(spec_commercial_oracle_entry("tz_offset", FuncCategory::Scalar, FuncDomain::DateTime, 1, Some(1), false));
    reveal_strlit("unistr");
    lemma_push_keeps_lower(t, spec_oracle_entry("unistr", FuncCategory::Scalar, FuncDomain::String, 1, Some(1), false));
    let t = t.push(spec_oracle_entry("unistr", FuncCategory::Scalar, FuncDomain::String, 1, Some(1), false));
    reveal_strlit("unix_timestamp");
    lemma_push_keeps_lower(t, spec_commercial_entry("unix_timestamp", FuncCategory::Scalar, FuncDomain::DateTime, 0, Some(1), false));
    let t = t.push(spec_commercial_entry("unix_timestamp", FuncCategory::Scalar, FuncDomain::DateTime, 0, Some(1), false));
    reveal_strlit("unnest");
    lemma_push_keeps_lower(t, spec_core_entry("unnest", FuncCategory::SetReturning, FuncDomain::Array, 1, Some(1), false));
    let t = t.push(spec_core_entry("unnest", FuncCategory::SetReturning, FuncDomain::Array, 1, Some(1), false));
    reveal_strlit("unnest_table");
    lemma_push_keeps_lower(t, spec_commercial_entry("unnest_table", FuncCategory::SetReturning, FuncDomain::Array, 1, Some(1), false));
    let t = t.push(spec_commercial_entry("unnest_table", FuncCategory::SetReturning, FuncDomain::Array, 1, Some(1), false));
    reveal_strlit("upper");
    lemma_push_keeps_lower(t, spec_core_entry("upper", FuncCategory::Scalar, FuncDomain::String, 1, Some(1), false));
    let t = t.push(spec_core_entry("upper", FuncCategory::Scalar, FuncDomain::String, 1, Some(1), false));
    reveal_strlit("user");
    lemma_push_keeps_lower(t, spec_core_entry("user", FuncCategory::Scalar, FuncDomain::System, 0, Some(0), false));
    let t = t.push(spec_core_entry("user", FuncCategory::Scalar, FuncDomain::System, 0, Some(0), false));
    reveal_strlit("utc_date");
    lemma_push_keeps_lower(t, spec_commercial_entry("utc_date", FuncCategory::Scalar, FuncDomain::DateTime, 0, Some(0), false));
    let t = t.push(spec_commercial_entry("utc_date", FuncCategory::Scalar, FuncDomain::DateTime, 0, Some(0), false));
    reveal_strlit("utc_time");
    lemma_push_keeps_lower(t, spec_commercial_entry("utc_time", FuncCategory::Scalar, FuncDomain::DateTime, 0, Some(1), false));
    let t = t.push(spec_commercial_entry("utc_time", FuncCategory::Scalar, FuncDomain::DateTime, 0, Some(1), false));
    reveal_strlit("utc_timestamp");
    lemma_push_keeps_lower(t, spec_commercial_entry("utc_timestamp", FuncCategory::Scalar, FuncDomain::DateTime, 0, Some(1), false));
    let t = t.push(spec_commercial_entry("utc_timestamp", FuncCategory::Scalar, FuncDomain::DateTime, 0, Some(1), false));
    assert(t == table_chunk_8_6(s));
}

proof fn lemma_chunk_lower_8_7(s: Seq<FuncMeta>)
    requires
        names_lower(s),
    ensures
        names_lower(table_chunk_8_7(s)),
{
    let t = s;
    reveal_strlit("utl_file.fclose");
    lemma_push_keeps_lower(t, spec_oracle_entry("utl_file.fclose", FuncCategory::Scalar, FuncDomain::UtlFile, 1, Some(1), false));
    let t = t.push(spec_oracle_entry("utl_file.fclose", FuncCategory::Scalar, FuncDomain::UtlFile, 1, Some(1), false));
    reveal_strlit("utl_file.fclose_all");
    lemma_push_keeps_lower(t, spec_oracle_entry("utl_file.fclose_all", FuncCategory::Scalar, FuncDomain::UtlFile, 0, Some(0), false));
    let t = t.push(spec_oracle_entry("utl_file.fclose_all", FuncCategory::Scalar, FuncDomain::UtlFile, 0, Some(0), false));
    reveal_strlit("utl_file.fopen");
    lemma_push_keeps_lower(t, spec_oracle_entry("utl_file.fopen", FuncCategory::Scalar, FuncDomain::UtlFile, 2, Some(4), false));
    let t = t.push(spec_oracle_entry("utl_file.fopen", FuncCategory::Scalar, FuncDomain::UtlFile, 2, Some(4), false));
    reveal_strlit("utl_file.get_line");
    lemma_push_keeps_lower(t, spec_oracle_entry("utl_file.get_line", FuncCategory::Scalar, FuncDomain::UtlFile, 1, Some(2), false));
    let t = t.push(spec_oracle_entry("utl_file.get_line", FuncCategory::Scalar, FuncDomain::UtlFile, 1, Some(2), false));
    reveal_strlit("utl_file.put_line");
    lemma_push_keeps_lower(t, spec_oracle_entry("utl_file.put_line", FuncCategory::Scalar, FuncDomain::UtlFile, 1, Some(2), false));
    let t = t.push(spec_oracle_entry("utl_file.put_line", FuncCategory::Scalar, FuncDomain::UtlFile, 1, Some(2), false));
    reveal_strlit("uuid_short");
    lemma_push_keeps_lower(t, spec_commercial_entry("uuid_short", FuncCategory::Scalar, FuncDomain::System, 0, Some(0), false));
    let t = t.push(spec_commercial_entry("uuid_short", FuncCategory::Scalar, FuncDomain::System, 0, Some(0), false));
    reveal_strlit("var_pop");
    lemma_push_keeps_lower(t, spec_core_entry("var_pop", FuncCategory::Aggregate, FuncDomain::Aggregate, 1, Some(1), true));
    let t = t.push(spec_core_entry("var_pop", FuncCategory::Aggregate, FuncDomain::Aggregate, 1, Some(1), true));
    reveal_strlit("var_samp");
    lemma_push_keeps_lower(t, spec_core_entry("var_samp", FuncCategory::Aggregate, FuncDomain::Aggregate, 1, Some(1), true));
    let t = t.push(spec_core_entry("var_samp", FuncCategory::Aggregate, FuncDomain::Aggregate, 1, Some(1), true));
    reveal_strlit("variance");
    lemma_push_keeps_lower(t, spec_core_entry("variance", FuncCategory::Aggregate, FuncDomain::Aggregate, 1, Some(1), true));
    let t = t.push(spec_core_entry("variance", FuncCategory::Aggregate, FuncDomain::Aggregate, 1, Some(1), true));
    reveal_strlit("version");
    lemma_push_keeps_lower(t, spec_core_entry("version", FuncCategory::Scalar, FuncDomain::System, 0, Some(0), false));
    let t = t.push(spec_core_entry("version", FuncCategory::Scalar, FuncDomain::System, 0, Some(0), false));
    assert(t == table_chunk_8_7(s));
}

proof fn lemma_chunk_lower_8_8(s: Seq<FuncMeta>)
    requires
        names_lower(s),
    ensures
        names_lower(table_chunk_8_8(s)),
{
    let t = s;
    reveal_strlit("vsize");
    lemma_push_keeps_lower(t, spec_oracle_entry("vsize", FuncCategory::Scalar, FuncDomain::String, 1, Some(1), false));
    let t = t.push(spec_oracle_entry("vsize", FuncCategory::Scalar, FuncDomain::String, 1, Some(1), false));
    reveal_strlit("weekday");
    lemma_push_keeps_lower(t, spec_commercial_entry("weekday", FuncCategory::Scalar, FuncDomain::DateTime, 1, Some(1), false));
    let t = t.push(spec_commercial_entry("weekday", FuncCategory::Scalar, FuncDomain::DateTime, 1, Some(1), false));
    reveal_strlit("weekofyear");
    lemma_push_keeps_lower(t, spec_commercial_entry("weekofyear", FuncCategory::Scalar, FuncDomain::DateTime, 1, Some(1), false));
    let t = t.push(spec_commercial_entry("weekofyear", FuncCategory::Scalar, FuncDomain::DateTime, 1, Some(1), false));
    reveal_strlit("width");
    lemma_push_keeps_lower(t, spec_core_entry("width", FuncCategory::Scalar, FuncDomain::Geometric, 1, Some(1), false));
    let t = t.push(spec_core_entry("width", FuncCategory::Scalar, FuncDomain::Geometric, 1, Some(1), false));
    reveal_strlit("width_bucket");
    lemma_push_keeps_lower(t, spec_core_entry("width_bucket", FuncCategory::Scalar, FuncDomain::Math, 3, Some(4), false));
    let t = t.push(spec_core_entry("width_bucket", FuncCategory::Scalar, FuncDomain::Math, 3, Some(4), false));
    reveal_strlit("wm_concat");
    lemma_push_keeps_lower(t, spec_oracle_entry("wm_concat", FuncCategory::Aggregate, FuncDomain::String, 1, None, true));
    let t = t.push(spec_oracle_entry("wm_concat", FuncCategory::Aggregate, FuncDomain::String, 1, None, true));
    reveal_strlit("xml_is_well_formed");
    lemma_push_keeps_lower(t, spec_core_entry("xml_is_well_formed", FuncCategory::Scalar, FuncDomain::Xml, 1, Some(1), false));
    let t = t.push(spec_core_entry("xml_is_well_formed", FuncCategory::Scalar, FuncDomain::Xml, 1, Some(1), false));
    reveal_strlit("xml_is_well_formed_content");
    lemma_push_keeps_lower(t, spec_core_entry("xml_is_well_formed_content", FuncCategory::Scalar, FuncDomain::Xml, 1, Some(2), false));
    let t = t.push(spec_core_entry("xml_is_well_formed_content", FuncCategory::Scalar, FuncDomain::Xml, 1, Some(2), false));
    reveal_strlit("xml_is_well_formed_document");
    lemma_push_keeps_lower(t, spec_core_entry("xml_is_well_formed_document", FuncCategory::Scalar, FuncDomain::Xml, 1, Some(2), false));
    let t = t.push(spec_core_entry("xml_is_well_formed_document", FuncCategory::Scalar, FuncDomain::Xml, 1, Some(2), false));
    reveal_strlit("xmlagg");
    lemma_push_keeps_lower(t, spec_oracle_entry("xmlagg", FuncCategory::Aggregate, FuncDomain::Xml, 1, Some(1), true));
    let t = t.push(spec_oracle_entry("xmlagg", FuncCategory::Aggregate, FuncDomain::Xml, 1, Some(1), true));
    assert(t == table_chunk_8_8(s));
}

proof fn lemma_chunk_lower_8_9(s: Seq<FuncMeta>)
    requires
        names_lower(s),
    ensures
        names_lower(table_chunk_8_9(s)),
{
    let t = s;
    reveal_strlit("xmlattributes");
    lemma_push_keeps_lower(t, spec_oracle_entry("xmlattributes", FuncCategory::Scalar, FuncDomain::Xml, 1, None, false));
    let t = t.push(spec_oracle_entry("xmlattributes", FuncCategory::Scalar, FuncDomain::Xml, 1, None, false));
    reveal_strlit("xmlcomment");
    lemma_push_keeps_lower(t, spec_oracle_entry("xmlcomment", FuncCategory::Scalar, FuncDomain::Xml, 1, Some(1), false));
    let t = t.push(spec_oracle_entry("xmlcomment", FuncCategory::Scalar, FuncDomain::Xml, 1, Some(1), false));
    reveal_strlit("xmlconcat");
    lemma_push_keeps_lower(t, spec_oracle_entry("xmlconcat", FuncCategory::Scalar, FuncDomain::Xml, 1, None, false));
    let t = t.push(spec_oracle_entry("xmlconcat", FuncCategory::Scalar, FuncDomain::Xml, 1, None, false));
    reveal_strlit("xmlelement");
    lemma_push_keeps_lower(t, spec_oracle_entry("xmlelement", FuncCategory::Scalar, FuncDomain::Xml, 1, None, false));
    let t = t.push(spec_oracle_entry("xmlelement", FuncCategory::Scalar, FuncDomain::Xml, 1, None, false));
    reveal_strlit("xmlexists");
    lemma_push_keeps_lower(t, spec_core_entry("xmlexists", FuncCategory::Scalar, FuncDomain::Xml, 2, Some(2), false));
    let t = t.push(spec_core_entry("xmlexists", FuncCategory::Scalar, FuncDomain::Xml, 2, Some(2), false));
    reveal_strlit("xmlforest");
    lemma_push_keeps_lower(t, spec_oracle_entry("xmlforest", FuncCategory::Scalar, FuncDomain::Xml, 1, None, false));
    let t = t.push(spec_oracle_entry("xmlforest", FuncCategory::Scalar, FuncDomain::Xml, 1, None, false));
    reveal_strlit("xmlparse");
    lemma_push_keeps_lower(t, spec_oracle_entry("xmlparse", FuncCategory::Scalar, FuncDomain::Xml, 1, Some(2), false));
    let t = t.push(spec_oracle_entry("xmlparse", FuncCategory::Scalar, FuncDomain::Xml, 1, Some(2), false));
    reveal_strlit("xmlpi");
    lemma_push_keeps_lower(t, spec_oracle_entry("xmlpi", FuncCategory::Scalar, FuncDomain::Xml, 1, Some(2), false));
    let t = t.push(spec_oracle_entry("xmlpi", FuncCategory::Scalar, FuncDomain::Xml, 1, Some(2), false));
    reveal_strlit("xmlquery");
    lemma_push_keeps_lower(t, spec_oracle_entry("xmlquery", FuncCategory::Scalar, FuncDomain::Xml, 2, Some(3), false));
    let t = t.push(spec_oracle_entry("xmlquery", FuncCategory::Scalar, FuncDomain::Xml, 2, Some(3), false));
    reveal_strlit("xmlroot");
    lemma_push_keeps_lower(t, spec_commercial_entry("xmlroot", FuncCategory::Scalar, FuncDomain::Xml, 1, Some(3), false));
    let t = t.push(spec_commercial_entry("xmlroot", FuncCategory::Scalar, FuncDomain::Xml, 1, Some(3), false));
    assert(t == table_chunk_8_9(s));
}

proof fn lemma_chunk_lower_8_10(s: Seq<FuncMeta>)
    requires
        names_lower(s),
    ensures
        names_lower(table_chunk_8_10(s)),
{
    let t = s;
    reveal_strlit("xmlsequence");
    lemma_push_keeps_lower(t, spec_oracle_entry("xmlsequence", FuncCategory::Scalar, FuncDomain::Xml, 1, Some(1), false));
    let t = t.push(spec_oracle_entry("xmlsequence", FuncCategory::Scalar, FuncDomain::Xml, 1, Some(1), false));
    reveal_strlit("xmlserialize");
    lemma_push_keeps_lower(t, spec_oracle_entry("xmlserialize", FuncCategory::Scalar, FuncDomain::Xml, 2, Some(3), false));
    let t = t.push(spec_oracle_entry("xmlserialize", FuncCategory::Scalar, FuncDomain::Xml, 2, Some(3), false));
    reveal_strlit("xmltype");
    lemma_push_keeps_lower(t, spec_oracle_entry("xmltype", FuncCategory::Scalar, FuncDomain::Xml, 1, Some(1), false));
    let t = t.push(spec_oracle_entry("xmltype", FuncCategory::Scalar, FuncDomain::Xml, 1, Some(1), false));
    reveal_strlit("xpath");
    lemma_push_keeps_lower(t, spec_core_entry("xpath", FuncCategory::Scalar, FuncDomain::Xml, 2, Some(2), false));
    let t = t.push(spec_core_entry("xpath", FuncCategory::Scalar, FuncDomain::Xml, 2, Some(2), false));
    reveal_strlit("xpath_exists");
    lemma_push_keeps_lower(t, spec_core_entry("xpath_exists", FuncCategory::Scalar, FuncDomain::Xml, 2, Some(2), false));
    let t = t.push(spec_core_entry("xpath_exists", FuncCategory::Scalar, FuncDomain::Xml, 2, Some(2), false));
    reveal_strlit("yearweek");
    lemma_push_keeps_lower(t, spec_commercial_entry("yearweek", FuncCategory::Scalar, FuncDomain::DateTime, 1, Some(2), false));
    let t = t.push(spec_commercial_entry("yearweek", FuncCategory::Scalar, FuncDomain::DateTime, 1, Some(2), false));
    assert(t == table_chunk_8_10(s));
}

proof fn lemma_part_8_lower(s: Seq<FuncMeta>)
    requires
        names_lower(s),
    ensures
        names_lower(table_part_8(s)),
{
    lemma_chunk_lower_8_0(s);
    let t0 = table_chunk_8_0(s);
    lemma_chunk_lower_8_1(t0);
    let t1 = table_chunk_8_1(t0);
    lemma_chunk_lower_8_2(t1);
    let t2 = table_chunk_8_2(t1);
    lemma_chunk_lower_8_3(t2);
    let t3 = table_chunk_8_3(t2);
    lemma_chunk_lower_8_4(t3);
    let t4 = table_chunk_8_4(t3);
    lemma_chunk_lower_8_5(t4);
    let t5 = table_chunk_8_5(t4);
    lemma_chunk_lower_8_6(t5);
    let t6 = table_chunk_8_6(t5);
    lemma_chunk_lower_8_7(t6);
    let t7 = table_chunk_8_7(t6);
    lemma_chunk_lower_8_8(t7);
    let t8 = table_chunk_8_8(t7);
    lemma_chunk_lower_8_9(t8);
    let t9 = table_chunk_8_9(t8);
    lemma_chunk_lower_8_10(t9);
    let t10 = table_chunk_8_10(t9);
    assert(t10 == table_part_8(s));
}

/// Every built-in function name is written in lower case.
pub proof fn law_builtin_names_lower_case()
    ensures
        names_lower(builtin_function_table()),
{
    let s0 = Seq::<FuncMeta>::empty();
    let s1 = table_part_1(s0);
    let s2 = table_part_2(s1);
    let s3 = table_part_3(s2);
    let s4 = table_part_4(s3);
    let s5 = table_part_5(s4);
    let s6 = table_part_6(s5);
    let s7 = table_part_7(s6);
    lemma_part_1_lower(s0);
    lemma_part_2_lower(s1);
    lemma_part_3_lower(s2);
    lemma_part_4_lower(s3);
    lemma_part_5_lower(s4);
    lemma_part_6_lower(s5);
    lemma_part_7_lower(s6);
    lemma_part_8_lower(s7);
}

/// The built-in functions, in table order.
pub fn builtin_functions() -> (t: Vec<FuncMeta>)
    ensures
        t@ == builtin_function_table(),
{
    let mut v: Vec<FuncMeta> = Vec::new();
    push_table_part_1(&mut v);
    push_table_part_2(&mut v);
    push_table_part_3(&mut v);
    push_table_part_4(&mut v);
    push_table_part_5(&mut v);
    push_table_part_6(&mut v);
    push_table_part_7(&mut v);
    push_table_part_8(&mut v);
    v
}

} // verus!
