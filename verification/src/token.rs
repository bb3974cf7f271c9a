//! Tokens handed from the tokenizer to the parser.
use vstd::prelude::*;
use crate::error::SourceLocation;
use crate::text::{debug_str, decimal, push_decimal, push_signed, signed_decimal, str_debug_text};

verus! {

/// SQL keywords the parser recognises.
#[allow(non_camel_case_types)]
#[derive(Debug, Clone, Copy, PartialEq, Eq, Structural)]
pub enum Keyword {
    ACCESS,
    ACCOUNT,
    ADD_P,
    ADMIN,
    AFTER,
    AGGREGATE,
    ALL,
    ALTER,
    ALWAYS,
    AND,
    ARRAY,
    AS,
    ASC,
    AT,
    ATTRIBUTE,
    AUDIT,
    AUTHORIZATION,
    BARRIER,
    BEFORE,
    BETWEEN,
    BIGINT,
    BIT,
    BOOLEAN_P,
    BOTH,
    BY,
    BYTE_P,
    CACHE,
    CASCADE,
    CASCADED,
    CASE,
    CAST,
    CHARACTER,
    CHARSET,
    CHAR_P,
    CHECK,
    CLASS,
    CLUSTER,
    COLLATE,
    COLUMN,
    COLUMNS,
    COMMENT,
    COMMENTS,
    COMMIT,
    COMPILE,
    COMPRESS,
    CONCURRENTLY,
    CONFIGURATION,
    CONFLICT,
    CONNECT,
    CONNECTION,
    CONSTRAINT,
    CONSTRAINTS,
    CONTENT_P,
    CONTINUE_P,
    CONVERSION_P,
    CREATE,
    CURRENT_CATALOG,
    CURRENT_DATE,
    CURRENT_P,
    CURRENT_TIME,
    CURRENT_TIMESTAMP,
    CURRENT_USER,
    CYCLE,
    DATABASE,
    DATA_P,
    DATE_P,
    DAY_HOUR_P,
    DAY_MINUTE_P,
    DAY_P,
    DAY_SECOND_P,
    DECIMAL_P,
    DEFAULT,
    DEFAULTS,
    DEFERRABLE,
    DELETE_P,
    DESC,
    DICTIONARY,
    DIRECTORY,
    DISABLE_P,
    DISTINCT,
    DISTRIBUTE,
    DISTRIBUTION,
    DO,
    DOCUMENT_P,
    DOMAIN_P,
    DOUBLE_P,
    DROP,
    DUPLICATE,
    ELSE,
    ENABLE_P,
    ENCRYPTED,
    ENCRYPTION,
    END_P,
    ENTITYESCAPING,
    ENUM_P,
    EVALNAME,
    EVENT,
    EVERY,
    EXCHANGE,
    EXCLUDING,
    EXISTS,
    EXTENSION,
    FALSE_P,
    FAMILY,
    FIRST_P,
    FLOAT_P,
    FOLLOWING,
    FOR,
    FORCE,
    FOREIGN,
    FROM,
    FULL,
    FUNCTION,
    GENERATED,
    GLOBAL,
    GROUPS,
    GROUP_P,
    HANDLER,
    HOUR_MINUTE_P,
    HOUR_P,
    HOUR_SECOND_P,
    IDENTIFIED,
    IDENTITY_P,
    IF_P,
    ILIKE,
    INCLUDING,
    INCREMENT,
    INDEX,
    INDEXES,
    INHERIT,
    INHERITS,
    INITRANS,
    INSERT,
    INTEGER,
    INTERVAL,
    INTO,
    INT_P,
    INVISIBLE,
    INVOKER,
    IN_P,
    IS,
    ISNULL,
    KEY,
    LABEL,
    LANGUAGE,
    LAST_P,
    LEADING,
    LESS,
    LEVEL,
    LIKE,
    LIMIT,
    LIST,
    LOCAL,
    LOCALTIME,
    LOCALTIMESTAMP,
    LOCATION,
    LOCK_P,
    LOGGING,
    MASKING,
    MATCHED,
    MATERIALIZED,
    MAXSIZE,
    MAXTRANS,
    MAXVALUE,
    MERGE,
    METHOD,
    MINUTE_P,
    MINUTE_SECOND_P,
    MINVALUE,
    MODEL,
    MODIFY_P,
    MONTH_P,
    MOVE,
    MOVEMENT,
    NAME_P,
    NO,
    NOCOMPRESS,
    NODE,
    NOENTITYESCAPING,
    NOLOGGING,
    NOT,
    NOTHING,
    NOTNULL,
    NULLS_P,
    NULL_P,
    NUMERIC,
    OF,
    OIDS,
    ON,
    OPERATOR,
    OPTION,
    OR,
    ORDER,
    OVER,
    OWNED,
    OWNER,
    PARTITION,
    PARTITIONS,
    PASSWORD,
    PCTFREE,
    PERCENT,
    PLACING,
    POLICY,
    POOL,
    PRECEDING,
    PRECISION,
    PRESERVE,
    PRIMARY,
    PRIOR,
    PROCEDURE,
    PUBLICATION,
    PURGE,
    RANGE,
    REAL,
    REFERENCES,
    RELATIVE_P,
    RELOPTIONS,
    RENAME,
    REPLICA,
    RESET,
    RESOURCE,
    RESTART,
    RETURNING,
    ROLE,
    ROTATION,
    ROW,
    ROWNUM,
    ROWS,
    RULE,
    SCHEMA,
    SEARCH,
    SECOND_P,
    SECURITY,
    SELECT,
    SEQUENCE,
    SERVER,
    SESSION_USER,
    SET,
    SMALLINT,
    SOURCE_P,
    SPLIT,
    STANDALONE_P,
    START,
    STATISTICS,
    STORAGE,
    STORED,
    STREAM,
    SUBPARTITION,
    SUBPARTITIONS,
    SUBSCRIPTION,
    SYNONYM,
    SYSDATE,
    SYSID,
    TABLE,
    TABLESPACE,
    TEXT_P,
    THAN,
    THEN,
    TIME,
    TIMESTAMP,
    TINYINT,
    TO,
    TRAILING,
    TRIGGER,
    TRUE_P,
    TRUNCATE,
    TYPE_P,
    UNBOUNDED,
    UNENCRYPTED,
    UNIQUE,
    UNLOCK,
    UNTIL,
    UNUSABLE,
    UPDATE,
    USER,
    USING,
    VALID,
    VALIDATE,
    VALIDATION,
    VALUES,
    VALUE_P,
    VARCHAR,
    VARYING,
    VERBOSE,
    VERSION_P,
    VIEW,
    VISIBLE,
    WEAK,
    WELLFORMED,
    WHEN,
    WHERE,
    WITH,
    WITHIN,
    WITHOUT,
    WORKLOAD,
    WRAPPER,
    XMLATTRIBUTES,
    XMLCONCAT,
    XMLELEMENT,
    XMLFOREST,
    XMLPARSE,
    XMLPI,
    XMLROOT,
    XMLSERIALIZE,
    YEAR_MONTH_P,
    YEAR_P,
    YES_P,
    ZONE,
}
/// The SQL spelling of a keyword (upper case, without the `_P` disambiguation suffix).
pub open spec fn keyword_text(k: Keyword) -> Seq<char> {
    match k {
        Keyword::ACCESS => "ACCESS"@,
        Keyword::ACCOUNT => "ACCOUNT"@,
        Keyword::ADD_P => "ADD"@,
        Keyword::ADMIN => "ADMIN"@,
        Keyword::AFTER => "AFTER"@,
        Keyword::AGGREGATE => "AGGREGATE"@,
        Keyword::ALL => "ALL"@,
        Keyword::ALTER => "ALTER"@,
        Keyword::ALWAYS => "ALWAYS"@,
        Keyword::AND => "AND"@,
        Keyword::ARRAY => "ARRAY"@,
        Keyword::AS => "AS"@,
        Keyword::ASC => "ASC"@,
        Keyword::AT => "AT"@,
        Keyword::ATTRIBUTE => "ATTRIBUTE"@,
        Keyword::AUDIT => "AUDIT"@,
        Keyword::AUTHORIZATION => "AUTHORIZATION"@,
        Keyword::BARRIER => "BARRIER"@,
        Keyword::BEFORE => "BEFORE"@,
        Keyword::BETWEEN => "BETWEEN"@,
        Keyword::BIGINT => "BIGINT"@,
        Keyword::BIT => "BIT"@,
        Keyword::BOOLEAN_P => "BOOLEAN"@,
        Keyword::BOTH => "BOTH"@,
        Keyword::BY => "BY"@,
        Keyword::BYTE_P => "BYTE"@,
        Keyword::CACHE => "CACHE"@,
        Keyword::CASCADE => "CASCADE"@,
        Keyword::CASCADED => "CASCADED"@,
        Keyword::CASE => "CASE"@,
        Keyword::CAST => "CAST"@,
        Keyword::CHARACTER => "CHARACTER"@,
        Keyword::CHARSET => "CHARSET"@,
        Keyword::CHAR_P => "CHAR"@,
        Keyword::CHECK => "CHECK"@,
        Keyword::CLASS => "CLASS"@,
        Keyword::CLUSTER => "CLUSTER"@,
        Keyword::COLLATE => "COLLATE"@,
        Keyword::COLUMN => "COLUMN"@,
        Keyword::COLUMNS => "COLUMNS"@,
        Keyword::COMMENT => "COMMENT"@,
        Keyword::COMMENTS => "COMMENTS"@,
        Keyword::COMMIT => "COMMIT"@,
        Keyword::COMPILE => "COMPILE"@,
        Keyword::COMPRESS => "COMPRESS"@,
        Keyword::CONCURRENTLY => "CONCURRENTLY"@,
        Keyword::CONFIGURATION => "CONFIGURATION"@,
        Keyword::CONFLICT => "CONFLICT"@,
        Keyword::CONNECT => "CONNECT"@,
        Keyword::CONNECTION => "CONNECTION"@,
        Keyword::CONSTRAINT => "CONSTRAINT"@,
        Keyword::CONSTRAINTS => "CONSTRAINTS"@,
        Keyword::CONTENT_P => "CONTENT"@,
        Keyword::CONTINUE_P => "CONTINUE"@,
        Keyword::CONVERSION_P => "CONVERSION"@,
        Keyword::CREATE => "CREATE"@,
        Keyword::CURRENT_CATALOG => "CURRENT_CATALOG"@,
        Keyword::CURRENT_DATE => "CURRENT_DATE"@,
        Keyword::CURRENT_P => "CURRENT"@,
        Keyword::CURRENT_TIME => "CURRENT_TIME"@,
        Keyword::CURRENT_TIMESTAMP => "CURRENT_TIMESTAMP"@,
        Keyword::CURRENT_USER => "CURRENT_USER"@,
        Keyword::CYCLE => "CYCLE"@,
        Keyword::DATABASE => "DATABASE"@,
        Keyword::DATA_P => "DATA"@,
        Keyword::DATE_P => "DATE"@,
        Keyword::DAY_HOUR_P => "DAY_HOUR"@,
        Keyword::DAY_MINUTE_P => "DAY_MINUTE"@,
        Keyword::DAY_P => "DAY"@,
        Keyword::DAY_SECOND_P => "DAY_SECOND"@,
        Keyword::DECIMAL_P => "DECIMAL"@,
        Keyword::DEFAULT => "DEFAULT"@,
        Keyword::DEFAULTS => "DEFAULTS"@,
        Keyword::DEFERRABLE => "DEFERRABLE"@,
        Keyword::DELETE_P => "DELETE"@,
        Keyword::DESC => "DESC"@,
        Keyword::DICTIONARY => "DICTIONARY"@,
        Keyword::DIRECTORY => "DIRECTORY"@,
        Keyword::DISABLE_P => "DISABLE"@,
        Keyword::DISTINCT => "DISTINCT"@,
        Keyword::DISTRIBUTE => "DISTRIBUTE"@,
        Keyword::DISTRIBUTION => "DISTRIBUTION"@,
        Keyword::DO => "DO"@,
        Keyword::DOCUMENT_P => "DOCUMENT"@,
        Keyword::DOMAIN_P => "DOMAIN"@,
        Keyword::DOUBLE_P => "DOUBLE"@,
        Keyword::DROP => "DROP"@,
        Keyword::DUPLICATE => "DUPLICATE"@,
        Keyword::ELSE => "ELSE"@,
        Keyword::ENABLE_P => "ENABLE"@,
        Keyword::ENCRYPTED => "ENCRYPTED"@,
        Keyword::ENCRYPTION => "ENCRYPTION"@,
        Keyword::END_P => "END"@,
        Keyword::ENTITYESCAPING => "ENTITYESCAPING"@,
        Keyword::ENUM_P => "ENUM"@,
        Keyword::EVALNAME => "EVALNAME"@,
        Keyword::EVENT => "EVENT"@,
        Keyword::EVERY => "EVERY"@,
        Keyword::EXCHANGE => "EXCHANGE"@,
        Keyword::EXCLUDING => "EXCLUDING"@,
        Keyword::EXISTS => "EXISTS"@,
        Keyword::EXTENSION => "EXTENSION"@,
        Keyword::FALSE_P => "FALSE"@,
        Keyword::FAMILY => "FAMILY"@,
        Keyword::FIRST_P => "FIRST"@,
        Keyword::FLOAT_P => "FLOAT"@,
        Keyword::FOLLOWING => "FOLLOWING"@,
        Keyword::FOR => "FOR"@,
        Keyword::FORCE => "FORCE"@,
        Keyword::FOREIGN => "FOREIGN"@,
        Keyword::FROM => "FROM"@,
        Keyword::FULL => "FULL"@,
        Keyword::FUNCTION => "FUNCTION"@,
        Keyword::GENERATED => "GENERATED"@,
        Keyword::GLOBAL => "GLOBAL"@,
        Keyword::GROUPS => "GROUPS"@,
        Keyword::GROUP_P => "GROUP"@,
        Keyword::HANDLER => "HANDLER"@,
        Keyword::HOUR_MINUTE_P => "HOUR_MINUTE"@,
        Keyword::HOUR_P => "HOUR"@,
        Keyword::HOUR_SECOND_P => "HOUR_SECOND"@,
        Keyword::IDENTIFIED => "IDENTIFIED"@,
        Keyword::IDENTITY_P => "IDENTITY"@,
        Keyword::IF_P => "IF"@,
        Keyword::ILIKE => "ILIKE"@,
        Keyword::INCLUDING => "INCLUDING"@,
        Keyword::INCREMENT => "INCREMENT"@,
        Keyword::INDEX => "INDEX"@,
        Keyword::INDEXES => "INDEXES"@,
        Keyword::INHERIT => "INHERIT"@,
        Keyword::INHERITS => "INHERITS"@,
        Keyword::INITRANS => "INITRANS"@,
        Keyword::INSERT => "INSERT"@,
        Keyword::INTEGER => "INTEGER"@,
        Keyword::INTERVAL => "INTERVAL"@,
        Keyword::INTO => "INTO"@,
        Keyword::INT_P => "INT"@,
        Keyword::INVISIBLE => "INVISIBLE"@,
        Keyword::INVOKER => "INVOKER"@,
        Keyword::IN_P => "IN"@,
        Keyword::IS => "IS"@,
        Keyword::ISNULL => "ISNULL"@,
        Keyword::KEY => "KEY"@,
        Keyword::LABEL => "LABEL"@,
        Keyword::LANGUAGE => "LANGUAGE"@,
        Keyword::LAST_P => "LAST"@,
        Keyword::LEADING => "LEADING"@,
        Keyword::LESS => "LESS"@,
        Keyword::LEVEL => "LEVEL"@,
        Keyword::LIKE => "LIKE"@,
        Keyword::LIMIT => "LIMIT"@,
        Keyword::LIST => "LIST"@,
        Keyword::LOCAL => "LOCAL"@,
        Keyword::LOCALTIME => "LOCALTIME"@,
        Keyword::LOCALTIMESTAMP => "LOCALTIMESTAMP"@,
        Keyword::LOCATION => "LOCATION"@,
        Keyword::LOCK_P => "LOCK"@,
        Keyword::LOGGING => "LOGGING"@,
        Keyword::MASKING => "MASKING"@,
        Keyword::MATCHED => "MATCHED"@,
        Keyword::MATERIALIZED => "MATERIALIZED"@,
        Keyword::MAXSIZE => "MAXSIZE"@,
        Keyword::MAXTRANS => "MAXTRANS"@,
        Keyword::MAXVALUE => "MAXVALUE"@,
        Keyword::MERGE => "MERGE"@,
        Keyword::METHOD => "METHOD"@,
        Keyword::MINUTE_P => "MINUTE"@,
        Keyword::MINUTE_SECOND_P => "MINUTE_SECOND"@,
        Keyword::MINVALUE => "MINVALUE"@,
        Keyword::MODEL => "MODEL"@,
        Keyword::MODIFY_P => "MODIFY"@,
        Keyword::MONTH_P => "MONTH"@,
        Keyword::MOVE => "MOVE"@,
        Keyword::MOVEMENT => "MOVEMENT"@,
        Keyword::NAME_P => "NAME"@,
        Keyword::NO => "NO"@,
        Keyword::NOCOMPRESS => "NOCOMPRESS"@,
        Keyword::NODE => "NODE"@,
        Keyword::NOENTITYESCAPING => "NOENTITYESCAPING"@,
        Keyword::NOLOGGING => "NOLOGGING"@,
        Keyword::NOT => "NOT"@,
        Keyword::NOTHING => "NOTHING"@,
        Keyword::NOTNULL => "NOTNULL"@,
        Keyword::NULLS_P => "NULLS"@,
        Keyword::NULL_P => "NULL"@,
        Keyword::NUMERIC => "NUMERIC"@,
        Keyword::OF => "OF"@,
        Keyword::OIDS => "OIDS"@,
        Keyword::ON => "ON"@,
        Keyword::OPERATOR => "OPERATOR"@,
        Keyword::OPTION => "OPTION"@,
        Keyword::OR => "OR"@,
        Keyword::ORDER => "ORDER"@,
        Keyword::OVER => "OVER"@,
        Keyword::OWNED => "OWNED"@,
        Keyword::OWNER => "OWNER"@,
        Keyword::PARTITION => "PARTITION"@,
        Keyword::PARTITIONS => "PARTITIONS"@,
        Keyword::PASSWORD => "PASSWORD"@,
        Keyword::PCTFREE => "PCTFREE"@,
        Keyword::PERCENT => "PERCENT"@,
        Keyword::PLACING => "PLACING"@,
        Keyword::POLICY => "POLICY"@,
        Keyword::POOL => "POOL"@,
        Keyword::PRECEDING => "PRECEDING"@,
        Keyword::PRECISION => "PRECISION"@,
        Keyword::PRESERVE => "PRESERVE"@,
        Keyword::PRIMARY => "PRIMARY"@,
        Keyword::PRIOR => "PRIOR"@,
        Keyword::PROCEDURE => "PROCEDURE"@,
        Keyword::PUBLICATION => "PUBLICATION"@,
        Keyword::PURGE => "PURGE"@,
        Keyword::RANGE => "RANGE"@,
        Keyword::REAL => "REAL"@,
        Keyword::REFERENCES => "REFERENCES"@,
        Keyword::RELATIVE_P => "RELATIVE"@,
        Keyword::RELOPTIONS => "RELOPTIONS"@,
        Keyword::RENAME => "RENAME"@,
        Keyword::REPLICA => "REPLICA"@,
        Keyword::RESET => "RESET"@,
        Keyword::RESOURCE => "RESOURCE"@,
        Keyword::RESTART => "RESTART"@,
        Keyword::RETURNING => "RETURNING"@,
        Keyword::ROLE => "ROLE"@,
        Keyword::ROTATION => "ROTATION"@,
        Keyword::ROW => "ROW"@,
        Keyword::ROWNUM => "ROWNUM"@,
        Keyword::ROWS => "ROWS"@,
        Keyword::RULE => "RULE"@,
        Keyword::SCHEMA => "SCHEMA"@,
        Keyword::SEARCH => "SEARCH"@,
        Keyword::SECOND_P => "SECOND"@,
        Keyword::SECURITY => "SECURITY"@,
        Keyword::SELECT => "SELECT"@,
        Keyword::SEQUENCE => "SEQUENCE"@,
        Keyword::SERVER => "SERVER"@,
        Keyword::SESSION_USER => "SESSION_USER"@,
        Keyword::SET => "SET"@,
        Keyword::SMALLINT => "SMALLINT"@,
        Keyword::SOURCE_P => "SOURCE"@,
        Keyword::SPLIT => "SPLIT"@,
        Keyword::STANDALONE_P => "STANDALONE"@,
        Keyword::START => "START"@,
        Keyword::STATISTICS => "STATISTICS"@,
        Keyword::STORAGE => "STORAGE"@,
        Keyword::STORED => "STORED"@,
        Keyword::STREAM => "STREAM"@,
        Keyword::SUBPARTITION => "SUBPARTITION"@,
        Keyword::SUBPARTITIONS => "SUBPARTITIONS"@,
        Keyword::SUBSCRIPTION => "SUBSCRIPTION"@,
        Keyword::SYNONYM => "SYNONYM"@,
        Keyword::SYSDATE => "SYSDATE"@,
        Keyword::SYSID => "SYSID"@,
        Keyword::TABLE => "TABLE"@,
        Keyword::TABLESPACE => "TABLESPACE"@,
        Keyword::TEXT_P => "TEXT"@,
        Keyword::THAN => "THAN"@,
        Keyword::THEN => "THEN"@,
        Keyword::TIME => "TIME"@,
        Keyword::TIMESTAMP => "TIMESTAMP"@,
        Keyword::TINYINT => "TINYINT"@,
        Keyword::TO => "TO"@,
        Keyword::TRAILING => "TRAILING"@,
        Keyword::TRIGGER => "TRIGGER"@,
        Keyword::TRUE_P => "TRUE"@,
        Keyword::TRUNCATE => "TRUNCATE"@,
        Keyword::TYPE_P => "TYPE"@,
        Keyword::UNBOUNDED => "UNBOUNDED"@,
        Keyword::UNENCRYPTED => "UNENCRYPTED"@,
        Keyword::UNIQUE => "UNIQUE"@,
        Keyword::UNLOCK => "UNLOCK"@,
        Keyword::UNTIL => "UNTIL"@,
        Keyword::UNUSABLE => "UNUSABLE"@,
        Keyword::UPDATE => "UPDATE"@,
        Keyword::USER => "USER"@,
        Keyword::USING => "USING"@,
        Keyword::VALID => "VALID"@,
        Keyword::VALIDATE => "VALIDATE"@,
        Keyword::VALIDATION => "VALIDATION"@,
        Keyword::VALUES => "VALUES"@,
        Keyword::VALUE_P => "VALUE"@,
        Keyword::VARCHAR => "VARCHAR"@,
        Keyword::VARYING => "VARYING"@,
        Keyword::VERBOSE => "VERBOSE"@,
        Keyword::VERSION_P => "VERSION"@,
        Keyword::VIEW => "VIEW"@,
        Keyword::VISIBLE => "VISIBLE"@,
        Keyword::WEAK => "WEAK"@,
        Keyword::WELLFORMED => "WELLFORMED"@,
        Keyword::WHEN => "WHEN"@,
        Keyword::WHERE => "WHERE"@,
        Keyword::WITH => "WITH"@,
        Keyword::WITHIN => "WITHIN"@,
        Keyword::WITHOUT => "WITHOUT"@,
        Keyword::WORKLOAD => "WORKLOAD"@,
        Keyword::WRAPPER => "WRAPPER"@,
        Keyword::XMLATTRIBUTES => "XMLATTRIBUTES"@,
        Keyword::XMLCONCAT => "XMLCONCAT"@,
        Keyword::XMLELEMENT => "XMLELEMENT"@,
        Keyword::XMLFOREST => "XMLFOREST"@,
        Keyword::XMLPARSE => "XMLPARSE"@,
        Keyword::XMLPI => "XMLPI"@,
        Keyword::XMLROOT => "XMLROOT"@,
        Keyword::XMLSERIALIZE => "XMLSERIALIZE"@,
        Keyword::YEAR_MONTH_P => "YEAR_MONTH"@,
        Keyword::YEAR_P => "YEAR"@,
        Keyword::YES_P => "YES"@,
        Keyword::ZONE => "ZONE"@,
    }
}
/// Keywords that cannot be used as identifiers.
pub open spec fn is_reserved(k: Keyword) -> bool {
    k == Keyword::ALL ||
    k == Keyword::AND ||
    k == Keyword::ARRAY ||
    k == Keyword::AS ||
    k == Keyword::ASC ||
    k == Keyword::BOTH ||
    k == Keyword::CASE ||
    k == Keyword::CAST ||
    k == Keyword::CHECK ||
    k == Keyword::COLLATE ||
    k == Keyword::COLUMN ||
    k == Keyword::CONSTRAINT ||
    k == Keyword::CREATE ||
    k == Keyword::CURRENT_CATALOG ||
    k == Keyword::CURRENT_DATE ||
    k == Keyword::CURRENT_TIME ||
    k == Keyword::CURRENT_TIMESTAMP ||
    k == Keyword::CURRENT_USER ||
    k == Keyword::DEFAULT ||
    k == Keyword::DEFERRABLE ||
    k == Keyword::DESC ||
    k == Keyword::DISTINCT ||
    k == Keyword::DO ||
    k == Keyword::ELSE ||
    k == Keyword::END_P ||
    k == Keyword::FALSE_P ||
    k == Keyword::FOR ||
    k == Keyword::FOREIGN ||
    k == Keyword::FROM ||
    k == Keyword::GROUP_P ||
    k == Keyword::INTO ||
    k == Keyword::IN_P ||
    k == Keyword::IS ||
    k == Keyword::LEADING ||
    k == Keyword::LIMIT ||
    k == Keyword::LOCALTIME ||
    k == Keyword::LOCALTIMESTAMP ||
    k == Keyword::NOT ||
    k == Keyword::NULL_P ||
    k == Keyword::ON ||
    k == Keyword::OR ||
    k == Keyword::ORDER ||
    k == Keyword::PLACING ||
    k == Keyword::PRIMARY ||
    k == Keyword::REFERENCES ||
    k == Keyword::RETURNING ||
    k == Keyword::ROWNUM ||
    k == Keyword::SELECT ||
    k == Keyword::SESSION_USER ||
    k == Keyword::SYSDATE ||
    k == Keyword::TABLE ||
    k == Keyword::THEN ||
    k == Keyword::TO ||
    k == Keyword::TRAILING ||
    k == Keyword::TRUE_P ||
    k == Keyword::UNIQUE ||
    k == Keyword::USER ||
    k == Keyword::USING ||
    k == Keyword::WHEN ||
    k == Keyword::WHERE ||
    k == Keyword::WITH
}
impl Keyword {
    /// The SQL spelling of the keyword.
    pub fn as_str(self) -> (s: &'static str)
        ensures
            s@ == keyword_text(self),
    {
        match self {
            Keyword::ACCESS => "ACCESS",
            Keyword::ACCOUNT => "ACCOUNT",
            Keyword::ADD_P => "ADD",
            Keyword::ADMIN => "ADMIN",
            Keyword::AFTER => "AFTER",
            Keyword::AGGREGATE => "AGGREGATE",
            Keyword::ALL => "ALL",
            Keyword::ALTER => "ALTER",
            Keyword::ALWAYS => "ALWAYS",
            Keyword::AND => "AND",
            Keyword::ARRAY => "ARRAY",
            Keyword::AS => "AS",
            Keyword::ASC => "ASC",
            Keyword::AT => "AT",
            Keyword::ATTRIBUTE => "ATTRIBUTE",
            Keyword::AUDIT => "AUDIT",
            Keyword::AUTHORIZATION => "AUTHORIZATION",
            Keyword::BARRIER => "BARRIER",
            Keyword::BEFORE => "BEFORE",
            Keyword::BETWEEN => "BETWEEN",
            Keyword::BIGINT => "BIGINT",
            Keyword::BIT => "BIT",
            Keyword::BOOLEAN_P => "BOOLEAN",
            Keyword::BOTH => "BOTH",
            Keyword::BY => "BY",
            Keyword::BYTE_P => "BYTE",
            Keyword::CACHE => "CACHE",
            Keyword::CASCADE => "CASCADE",
            Keyword::CASCADED => "CASCADED",
            Keyword::CASE => "CASE",
            Keyword::CAST => "CAST",
            Keyword::CHARACTER => "CHARACTER",
            Keyword::CHARSET => "CHARSET",
            Keyword::CHAR_P => "CHAR",
            Keyword::CHECK => "CHECK",
            Keyword::CLASS => "CLASS",
            Keyword::CLUSTER => "CLUSTER",
            Keyword::COLLATE => "COLLATE",
            Keyword::COLUMN => "COLUMN",
            Keyword::COLUMNS => "COLUMNS",
            Keyword::COMMENT => "COMMENT",
            Keyword::COMMENTS => "COMMENTS",
            Keyword::COMMIT => "COMMIT",
            Keyword::COMPILE => "COMPILE",
            Keyword::COMPRESS => "COMPRESS",
            Keyword::CONCURRENTLY => "CONCURRENTLY",
            Keyword::CONFIGURATION => "CONFIGURATION",
            Keyword::CONFLICT => "CONFLICT",
            Keyword::CONNECT => "CONNECT",
            Keyword::CONNECTION => "CONNECTION",
            Keyword::CONSTRAINT => "CONSTRAINT",
            Keyword::CONSTRAINTS => "CONSTRAINTS",
            Keyword::CONTENT_P => "CONTENT",
            Keyword::CONTINUE_P => "CONTINUE",
            Keyword::CONVERSION_P => "CONVERSION",
            Keyword::CREATE => "CREATE",
            Keyword::CURRENT_CATALOG => "CURRENT_CATALOG",
            Keyword::CURRENT_DATE => "CURRENT_DATE",
            Keyword::CURRENT_P => "CURRENT",
            Keyword::CURRENT_TIME => "CURRENT_TIME",
            Keyword::CURRENT_TIMESTAMP => "CURRENT_TIMESTAMP",
            Keyword::CURRENT_USER => "CURRENT_USER",
            Keyword::CYCLE => "CYCLE",
            Keyword::DATABASE => "DATABASE",
            Keyword::DATA_P => "DATA",
            Keyword::DATE_P => "DATE",
            Keyword::DAY_HOUR_P => "DAY_HOUR",
            Keyword::DAY_MINUTE_P => "DAY_MINUTE",
            Keyword::DAY_P => "DAY",
            Keyword::DAY_SECOND_P => "DAY_SECOND",
            Keyword::DECIMAL_P => "DECIMAL",
            Keyword::DEFAULT => "DEFAULT",
            Keyword::DEFAULTS => "DEFAULTS",
            Keyword::DEFERRABLE => "DEFERRABLE",
            Keyword::DELETE_P => "DELETE",
            Keyword::DESC => "DESC",
            Keyword::DICTIONARY => "DICTIONARY",
            Keyword::DIRECTORY => "DIRECTORY",
            Keyword::DISABLE_P => "DISABLE",
            Keyword::DISTINCT => "DISTINCT",
            Keyword::DISTRIBUTE => "DISTRIBUTE",
            Keyword::DISTRIBUTION => "DISTRIBUTION",
            Keyword::DO => "DO",
            Keyword::DOCUMENT_P => "DOCUMENT",
            Keyword::DOMAIN_P => "DOMAIN",
            Keyword::DOUBLE_P => "DOUBLE",
            Keyword::DROP => "DROP",
            Keyword::DUPLICATE => "DUPLICATE",
            Keyword::ELSE => "ELSE",
            Keyword::ENABLE_P => "ENABLE",
            Keyword::ENCRYPTED => "ENCRYPTED",
            Keyword::ENCRYPTION => "ENCRYPTION",
            Keyword::END_P => "END",
            Keyword::ENTITYESCAPING => "ENTITYESCAPING",
            Keyword::ENUM_P => "ENUM",
            Keyword::EVALNAME => "EVALNAME",
            Keyword::EVENT => "EVENT",
            Keyword::EVERY => "EVERY",
            Keyword::EXCHANGE => "EXCHANGE",
            Keyword::EXCLUDING => "EXCLUDING",
            Keyword::EXISTS => "EXISTS",
            Keyword::EXTENSION => "EXTENSION",
            Keyword::FALSE_P => "FALSE",
            Keyword::FAMILY => "FAMILY",
            Keyword::FIRST_P => "FIRST",
            Keyword::FLOAT_P => "FLOAT",
            Keyword::FOLLOWING => "FOLLOWING",
            Keyword::FOR => "FOR",
            Keyword::FORCE => "FORCE",
            Keyword::FOREIGN => "FOREIGN",
            Keyword::FROM => "FROM",
            Keyword::FULL => "FULL",
            Keyword::FUNCTION => "FUNCTION",
            Keyword::GENERATED => "GENERATED",
            Keyword::GLOBAL => "GLOBAL",
            Keyword::GROUPS => "GROUPS",
            Keyword::GROUP_P => "GROUP",
            Keyword::HANDLER => "HANDLER",
            Keyword::HOUR_MINUTE_P => "HOUR_MINUTE",
            Keyword::HOUR_P => "HOUR",
            Keyword::HOUR_SECOND_P => "HOUR_SECOND",
            Keyword::IDENTIFIED => "IDENTIFIED",
            Keyword::IDENTITY_P => "IDENTITY",
            Keyword::IF_P => "IF",
            Keyword::ILIKE => "ILIKE",
            Keyword::INCLUDING => "INCLUDING",
            Keyword::INCREMENT => "INCREMENT",
            Keyword::INDEX => "INDEX",
            Keyword::INDEXES => "INDEXES",
            Keyword::INHERIT => "INHERIT",
            Keyword::INHERITS => "INHERITS",
            Keyword::INITRANS => "INITRANS",
            Keyword::INSERT => "INSERT",
            Keyword::INTEGER => "INTEGER",
            Keyword::INTERVAL => "INTERVAL",
            Keyword::INTO => "INTO",
            Keyword::INT_P => "INT",
            Keyword::INVISIBLE => "INVISIBLE",
            Keyword::INVOKER => "INVOKER",
            Keyword::IN_P => "IN",
            Keyword::IS => "IS",
            Keyword::ISNULL => "ISNULL",
            Keyword::KEY => "KEY",
            Keyword::LABEL => "LABEL",
            Keyword::LANGUAGE => "LANGUAGE",
            Keyword::LAST_P => "LAST",
            Keyword::LEADING => "LEADING",
            Keyword::LESS => "LESS",
            Keyword::LEVEL => "LEVEL",
            Keyword::LIKE => "LIKE",
            Keyword::LIMIT => "LIMIT",
            Keyword::LIST => "LIST",
            Keyword::LOCAL => "LOCAL",
            Keyword::LOCALTIME => "LOCALTIME",
            Keyword::LOCALTIMESTAMP => "LOCALTIMESTAMP",
            Keyword::LOCATION => "LOCATION",
            Keyword::LOCK_P => "LOCK",
            Keyword::LOGGING => "LOGGING",
            Keyword::MASKING => "MASKING",
            Keyword::MATCHED => "MATCHED",
            Keyword::MATERIALIZED => "MATERIALIZED",
            Keyword::MAXSIZE => "MAXSIZE",
            Keyword::MAXTRANS => "MAXTRANS",
            Keyword::MAXVALUE => "MAXVALUE",
            Keyword::MERGE => "MERGE",
            Keyword::METHOD => "METHOD",
            Keyword::MINUTE_P => "MINUTE",
            Keyword::MINUTE_SECOND_P => "MINUTE_SECOND",
            Keyword::MINVALUE => "MINVALUE",
            Keyword::MODEL => "MODEL",
            Keyword::MODIFY_P => "MODIFY",
            Keyword::MONTH_P => "MONTH",
            Keyword::MOVE => "MOVE",
            Keyword::MOVEMENT => "MOVEMENT",
            Keyword::NAME_P => "NAME",
            Keyword::NO => "NO",
            Keyword::NOCOMPRESS => "NOCOMPRESS",
            Keyword::NODE => "NODE",
            Keyword::NOENTITYESCAPING => "NOENTITYESCAPING",
            Keyword::NOLOGGING => "NOLOGGING",
            Keyword::NOT => "NOT",
            Keyword::NOTHING => "NOTHING",
            Keyword::NOTNULL => "NOTNULL",
            Keyword::NULLS_P => "NULLS",
            Keyword::NULL_P => "NULL",
            Keyword::NUMERIC => "NUMERIC",
            Keyword::OF => "OF",
            Keyword::OIDS => "OIDS",
            Keyword::ON => "ON",
            Keyword::OPERATOR => "OPERATOR",
            Keyword::OPTION => "OPTION",
            Keyword::OR => "OR",
            Keyword::ORDER => "ORDER",
            Keyword::OVER => "OVER",
            Keyword::OWNED => "OWNED",
            Keyword::OWNER => "OWNER",
            Keyword::PARTITION => "PARTITION",
            Keyword::PARTITIONS => "PARTITIONS",
            Keyword::PASSWORD => "PASSWORD",
            Keyword::PCTFREE => "PCTFREE",
            Keyword::PERCENT => "PERCENT",
            Keyword::PLACING => "PLACING",
            Keyword::POLICY => "POLICY",
            Keyword::POOL => "POOL",
            Keyword::PRECEDING => "PRECEDING",
            Keyword::PRECISION => "PRECISION",
            Keyword::PRESERVE => "PRESERVE",
            Keyword::PRIMARY => "PRIMARY",
            Keyword::PRIOR => "PRIOR",
            Keyword::PROCEDURE => "PROCEDURE",
            Keyword::PUBLICATION => "PUBLICATION",
            Keyword::PURGE => "PURGE",
            Keyword::RANGE => "RANGE",
            Keyword::REAL => "REAL",
            Keyword::REFERENCES => "REFERENCES",
            Keyword::RELATIVE_P => "RELATIVE",
            Keyword::RELOPTIONS => "RELOPTIONS",
            Keyword::RENAME => "RENAME",
            Keyword::REPLICA => "REPLICA",
            Keyword::RESET => "RESET",
            Keyword::RESOURCE => "RESOURCE",
            Keyword::RESTART => "RESTART",
            Keyword::RETURNING => "RETURNING",
            Keyword::ROLE => "ROLE",
            Keyword::ROTATION => "ROTATION",
            Keyword::ROW => "ROW",
            Keyword::ROWNUM => "ROWNUM",
            Keyword::ROWS => "ROWS",
            Keyword::RULE => "RULE",
            Keyword::SCHEMA => "SCHEMA",
            Keyword::SEARCH => "SEARCH",
            Keyword::SECOND_P => "SECOND",
            Keyword::SECURITY => "SECURITY",
            Keyword::SELECT => "SELECT",
            Keyword::SEQUENCE => "SEQUENCE",
            Keyword::SERVER => "SERVER",
            Keyword::SESSION_USER => "SESSION_USER",
            Keyword::SET => "SET",
            Keyword::SMALLINT => "SMALLINT",
            Keyword::SOURCE_P => "SOURCE",
            Keyword::SPLIT => "SPLIT",
            Keyword::STANDALONE_P => "STANDALONE",
            Keyword::START => "START",
            Keyword::STATISTICS => "STATISTICS",
            Keyword::STORAGE => "STORAGE",
            Keyword::STORED => "STORED",
            Keyword::STREAM => "STREAM",
            Keyword::SUBPARTITION => "SUBPARTITION",
            Keyword::SUBPARTITIONS => "SUBPARTITIONS",
            Keyword::SUBSCRIPTION => "SUBSCRIPTION",
            Keyword::SYNONYM => "SYNONYM",
            Keyword::SYSDATE => "SYSDATE",
            Keyword::SYSID => "SYSID",
            Keyword::TABLE => "TABLE",
            Keyword::TABLESPACE => "TABLESPACE",
            Keyword::TEXT_P => "TEXT",
            Keyword::THAN => "THAN",
            Keyword::THEN => "THEN",
            Keyword::TIME => "TIME",
            Keyword::TIMESTAMP => "TIMESTAMP",
            Keyword::TINYINT => "TINYINT",
            Keyword::TO => "TO",
            Keyword::TRAILING => "TRAILING",
            Keyword::TRIGGER => "TRIGGER",
            Keyword::TRUE_P => "TRUE",
            Keyword::TRUNCATE => "TRUNCATE",
            Keyword::TYPE_P => "TYPE",
            Keyword::UNBOUNDED => "UNBOUNDED",
            Keyword::UNENCRYPTED => "UNENCRYPTED",
            Keyword::UNIQUE => "UNIQUE",
            Keyword::UNLOCK => "UNLOCK",
            Keyword::UNTIL => "UNTIL",
            Keyword::UNUSABLE => "UNUSABLE",
            Keyword::UPDATE => "UPDATE",
            Keyword::USER => "USER",
            Keyword::USING => "USING",
            Keyword::VALID => "VALID",
            Keyword::VALIDATE => "VALIDATE",
            Keyword::VALIDATION => "VALIDATION",
            Keyword::VALUES => "VALUES",
            Keyword::VALUE_P => "VALUE",
            Keyword::VARCHAR => "VARCHAR",
            Keyword::VARYING => "VARYING",
            Keyword::VERBOSE => "VERBOSE",
            Keyword::VERSION_P => "VERSION",
            Keyword::VIEW => "VIEW",
            Keyword::VISIBLE => "VISIBLE",
            Keyword::WEAK => "WEAK",
            Keyword::WELLFORMED => "WELLFORMED",
            Keyword::WHEN => "WHEN",
            Keyword::WHERE => "WHERE",
            Keyword::WITH => "WITH",
            Keyword::WITHIN => "WITHIN",
            Keyword::WITHOUT => "WITHOUT",
            Keyword::WORKLOAD => "WORKLOAD",
            Keyword::WRAPPER => "WRAPPER",
            Keyword::XMLATTRIBUTES => "XMLATTRIBUTES",
            Keyword::XMLCONCAT => "XMLCONCAT",
            Keyword::XMLELEMENT => "XMLELEMENT",
            Keyword::XMLFOREST => "XMLFOREST",
            Keyword::XMLPARSE => "XMLPARSE",
            Keyword::XMLPI => "XMLPI",
            Keyword::XMLROOT => "XMLROOT",
            Keyword::XMLSERIALIZE => "XMLSERIALIZE",
            Keyword::YEAR_MONTH_P => "YEAR_MONTH",
            Keyword::YEAR_P => "YEAR",
            Keyword::YES_P => "YES",
            Keyword::ZONE => "ZONE",
        }
    }

    /// Whether the keyword is reserved, so that it cannot stand for an identifier.
    pub fn is_reserved(self) -> (r: bool)
        ensures
            r == is_reserved(self),
    {
        self == Keyword::ALL ||
    self == Keyword::AND ||
    self == Keyword::ARRAY ||
    self == Keyword::AS ||
    self == Keyword::ASC ||
    self == Keyword::BOTH ||
    self == Keyword::CASE ||
    self == Keyword::CAST ||
    self == Keyword::CHECK ||
    self == Keyword::COLLATE ||
    self == Keyword::COLUMN ||
    self == Keyword::CONSTRAINT ||
    self == Keyword::CREATE ||
    self == Keyword::CURRENT_CATALOG ||
    self == Keyword::CURRENT_DATE ||
    self == Keyword::CURRENT_TIME ||
    self == Keyword::CURRENT_TIMESTAMP ||
    self == Keyword::CURRENT_USER ||
    self == Keyword::DEFAULT ||
    self == Keyword::DEFERRABLE ||
    self == Keyword::DESC ||
    self == Keyword::DISTINCT ||
    self == Keyword::DO ||
    self == Keyword::ELSE ||
    self == Keyword::END_P ||
    self == Keyword::FALSE_P ||
    self == Keyword::FOR ||
    self == Keyword::FOREIGN ||
    self == Keyword::FROM ||
    self == Keyword::GROUP_P ||
    self == Keyword::INTO ||
    self == Keyword::IN_P ||
    self == Keyword::IS ||
    self == Keyword::LEADING ||
    self == Keyword::LIMIT ||
    self == Keyword::LOCALTIME ||
    self == Keyword::LOCALTIMESTAMP ||
    self == Keyword::NOT ||
    self == Keyword::NULL_P ||
    self == Keyword::ON ||
    self == Keyword::OR ||
    self == Keyword::ORDER ||
    self == Keyword::PLACING ||
    self == Keyword::PRIMARY ||
    self == Keyword::REFERENCES ||
    self == Keyword::RETURNING ||
    self == Keyword::ROWNUM ||
    self == Keyword::SELECT ||
    self == Keyword::SESSION_USER ||
    self == Keyword::SYSDATE ||
    self == Keyword::TABLE ||
    self == Keyword::THEN ||
    self == Keyword::TO ||
    self == Keyword::TRAILING ||
    self == Keyword::TRUE_P ||
    self == Keyword::UNIQUE ||
    self == Keyword::USER ||
    self == Keyword::USING ||
    self == Keyword::WHEN ||
    self == Keyword::WHERE ||
    self == Keyword::WITH
    }
}
/// A lexical token.
#[derive(Debug)]
pub enum Token {
    Keyword(Keyword),
    Ident(String),
    QuotedIdent(String),
    SetIdent(String),
    StringLiteral(String),
    EscapeString(String),
    BitString(String),
    HexString(String),
    NationalString(String),
    DollarString { tag: String, body: String },
    Integer(i64),
    Float(String),
    Param(u32),
    Op(String),
    LParen,
    RParen,
    LBracket,
    RBracket,
    Comma,
    Semicolon,
    Dot,
    Colon,
    Eq,
    Lt,
    Gt,
    Plus,
    Minus,
    Star,
    Slash,
    Percent,
    Caret,
    At,
    Typecast,
    Eof,
}

/// A token and where it starts in the source.
#[derive(Debug)]
pub struct TokenWithSpan {
    pub token: Token,
    pub location: SourceLocation,
}

/// Whether two tokens are the same, payload included (strings compared by their characters).
pub open spec fn same_token(a: Token, b: Token) -> bool {
    match (a, b) {
        (Token::Keyword(x), Token::Keyword(y)) => x == y,
        (Token::Ident(x), Token::Ident(y)) => x@ == y@,
        (Token::QuotedIdent(x), Token::QuotedIdent(y)) => x@ == y@,
        (Token::SetIdent(x), Token::SetIdent(y)) => x@ == y@,
        (Token::StringLiteral(x), Token::StringLiteral(y)) => x@ == y@,
        (Token::EscapeString(x), Token::EscapeString(y)) => x@ == y@,
        (Token::BitString(x), Token::BitString(y)) => x@ == y@,
        (Token::HexString(x), Token::HexString(y)) => x@ == y@,
        (Token::NationalString(x), Token::NationalString(y)) => x@ == y@,
        (Token::DollarString { tag: t1, body: b1 }, Token::DollarString { tag: t2, body: b2 }) => t1@ == t2@ && b1@ == b2@,
        (Token::Integer(x), Token::Integer(y)) => x == y,
        (Token::Float(x), Token::Float(y)) => x@ == y@,
        (Token::Param(x), Token::Param(y)) => x == y,
        (Token::Op(x), Token::Op(y)) => x@ == y@,
        (Token::LParen, Token::LParen) => true,
        (Token::RParen, Token::RParen) => true,
        (Token::LBracket, Token::LBracket) => true,
        (Token::RBracket, Token::RBracket) => true,
        (Token::Comma, Token::Comma) => true,
        (Token::Semicolon, Token::Semicolon) => true,
        (Token::Dot, Token::Dot) => true,
        (Token::Colon, Token::Colon) => true,
        (Token::Eq, Token::Eq) => true,
        (Token::Lt, Token::Lt) => true,
        (Token::Gt, Token::Gt) => true,
        (Token::Plus, Token::Plus) => true,
        (Token::Minus, Token::Minus) => true,
        (Token::Star, Token::Star) => true,
        (Token::Slash, Token::Slash) => true,
        (Token::Percent, Token::Percent) => true,
        (Token::Caret, Token::Caret) => true,
        (Token::At, Token::At) => true,
        (Token::Typecast, Token::Typecast) => true,
        (Token::Eof, Token::Eof) => true,
        _ => false,
    }
}

fn strings_equal(a: &String, b: &String) -> (r: bool)
    ensures
        r == (a@ == b@),
{
    a.eq(b)
}

impl Token {
    /// Whether `self` and `other` are the same token.
    pub fn same_as(&self, other: &Token) -> (r: bool)
        ensures
            r == same_token(*self, *other),
    {
        match (self, other) {
            (Token::Keyword(x), Token::Keyword(y)) => *x == *y,
            (Token::Ident(x), Token::Ident(y)) => strings_equal(x, y),
            (Token::QuotedIdent(x), Token::QuotedIdent(y)) => strings_equal(x, y),
            (Token::SetIdent(x), Token::SetIdent(y)) => strings_equal(x, y),
            (Token::StringLiteral(x), Token::StringLiteral(y)) => strings_equal(x, y),
            (Token::EscapeString(x), Token::EscapeString(y)) => strings_equal(x, y),
            (Token::BitString(x), Token::BitString(y)) => strings_equal(x, y),
            (Token::HexString(x), Token::HexString(y)) => strings_equal(x, y),
            (Token::NationalString(x), Token::NationalString(y)) => strings_equal(x, y),
            (Token::DollarString { tag: t1, body: b1 }, Token::DollarString { tag: t2, body: b2 }) => strings_equal(t1, t2) && strings_equal(b1, b2),
            (Token::Integer(x), Token::Integer(y)) => *x == *y,
            (Token::Float(x), Token::Float(y)) => strings_equal(x, y),
            (Token::Param(x), Token::Param(y)) => *x == *y,
            (Token::Op(x), Token::Op(y)) => strings_equal(x, y),
            (Token::LParen, Token::LParen) => true,
            (Token::RParen, Token::RParen) => true,
            (Token::LBracket, Token::LBracket) => true,
            (Token::RBracket, Token::RBracket) => true,
            (Token::Comma, Token::Comma) => true,
            (Token::Semicolon, Token::Semicolon) => true,
            (Token::Dot, Token::Dot) => true,
            (Token::Colon, Token::Colon) => true,
            (Token::Eq, Token::Eq) => true,
            (Token::Lt, Token::Lt) => true,
            (Token::Gt, Token::Gt) => true,
            (Token::Plus, Token::Plus) => true,
            (Token::Minus, Token::Minus) => true,
            (Token::Star, Token::Star) => true,
            (Token::Slash, Token::Slash) => true,
            (Token::Percent, Token::Percent) => true,
            (Token::Caret, Token::Caret) => true,
            (Token::At, Token::At) => true,
            (Token::Typecast, Token::Typecast) => true,
            (Token::Eof, Token::Eof) => true,
            _ => false,
        }
    }
}

/// Whether the keyword's variant name carries the `_P` suffix after its spelling.
pub open spec fn has_p_suffix(k: Keyword) -> bool {
    k == Keyword::ADD_P ||
        k == Keyword::BOOLEAN_P ||
        k == Keyword::BYTE_P ||
        k == Keyword::CHAR_P ||
        k == Keyword::CONTENT_P ||
        k == Keyword::CONTINUE_P ||
        k == Keyword::CONVERSION_P ||
        k == Keyword::CURRENT_P ||
        k == Keyword::DATA_P ||
        k == Keyword::DATE_P ||
        k == Keyword::DAY_HOUR_P ||
        k == Keyword::DAY_MINUTE_P ||
        k == Keyword::DAY_P ||
        k == Keyword::DAY_SECOND_P ||
        k == Keyword::DECIMAL_P ||
        k == Keyword::DELETE_P ||
        k == Keyword::DISABLE_P ||
        k == Keyword::DOCUMENT_P ||
        k == Keyword::DOMAIN_P ||
        k == Keyword::DOUBLE_P ||
        k == Keyword::ENABLE_P ||
        k == Keyword::END_P ||
        k == Keyword::ENUM_P ||
        k == Keyword::FALSE_P ||
        k == Keyword::FIRST_P ||
        k == Keyword::FLOAT_P ||
        k == Keyword::GROUP_P ||
        k == Keyword::HOUR_MINUTE_P ||
        k == Keyword::HOUR_P ||
        k == Keyword::HOUR_SECOND_P ||
        k == Keyword::IDENTITY_P ||
        k == Keyword::IF_P ||
        k == Keyword::INT_P ||
        k == Keyword::IN_P ||
        k == Keyword::LAST_P ||
        k == Keyword::LOCK_P ||
        k == Keyword::MINUTE_P ||
        k == Keyword::MINUTE_SECOND_P ||
        k == Keyword::MODIFY_P ||
        k == Keyword::MONTH_P ||
        k == Keyword::NAME_P ||
        k == Keyword::NULLS_P ||
        k == Keyword::NULL_P ||
        k == Keyword::RELATIVE_P ||
        k == Keyword::SECOND_P ||
        k == Keyword::SOURCE_P ||
        k == Keyword::STANDALONE_P ||
        k == Keyword::TEXT_P ||
        k == Keyword::TRUE_P ||
        k == Keyword::TYPE_P ||
        k == Keyword::VALUE_P ||
        k == Keyword::VERSION_P ||
        k == Keyword::YEAR_MONTH_P ||
        k == Keyword::YEAR_P ||
        k == Keyword::YES_P
}

fn keyword_has_p_suffix(k: Keyword) -> (r: bool)
    ensures
        r == has_p_suffix(k),
{
    k == Keyword::ADD_P ||
        k == Keyword::BOOLEAN_P ||
        k == Keyword::BYTE_P ||
        k == Keyword::CHAR_P ||
        k == Keyword::CONTENT_P ||
        k == Keyword::CONTINUE_P ||
        k == Keyword::CONVERSION_P ||
        k == Keyword::CURRENT_P ||
        k == Keyword::DATA_P ||
        k == Keyword::DATE_P ||
        k == Keyword::DAY_HOUR_P ||
        k == Keyword::DAY_MINUTE_P ||
        k == Keyword::DAY_P ||
        k == Keyword::DAY_SECOND_P ||
        k == Keyword::DECIMAL_P ||
        k == Keyword::DELETE_P ||
        k == Keyword::DISABLE_P ||
        k == Keyword::DOCUMENT_P ||
        k == Keyword::DOMAIN_P ||
        k == Keyword::DOUBLE_P ||
        k == Keyword::ENABLE_P ||
        k == Keyword::END_P ||
        k == Keyword::ENUM_P ||
        k == Keyword::FALSE_P ||
        k == Keyword::FIRST_P ||
        k == Keyword::FLOAT_P ||
        k == Keyword::GROUP_P ||
        k == Keyword::HOUR_MINUTE_P ||
        k == Keyword::HOUR_P ||
        k == Keyword::HOUR_SECOND_P ||
        k == Keyword::IDENTITY_P ||
        k == Keyword::IF_P ||
        k == Keyword::INT_P ||
        k == Keyword::IN_P ||
        k == Keyword::LAST_P ||
        k == Keyword::LOCK_P ||
        k == Keyword::MINUTE_P ||
        k == Keyword::MINUTE_SECOND_P ||
        k == Keyword::MODIFY_P ||
        k == Keyword::MONTH_P ||
        k == Keyword::NAME_P ||
        k == Keyword::NULLS_P ||
        k == Keyword::NULL_P ||
        k == Keyword::RELATIVE_P ||
        k == Keyword::SECOND_P ||
        k == Keyword::SOURCE_P ||
        k == Keyword::STANDALONE_P ||
        k == Keyword::TEXT_P ||
        k == Keyword::TRUE_P ||
        k == Keyword::TYPE_P ||
        k == Keyword::VALUE_P ||
        k == Keyword::VERSION_P ||
        k == Keyword::YEAR_MONTH_P ||
        k == Keyword::YEAR_P ||
        k == Keyword::YES_P
}

/// The derived `Debug` text of a keyword: its variant name, which is its spelling with
/// `_P` added where the variant carries that suffix.
pub open spec fn keyword_debug_text(k: Keyword) -> Seq<char> {
    if has_p_suffix(k) { keyword_text(k) + "_P"@ } else { keyword_text(k) }
}

fn keyword_debug(k: Keyword) -> (s: String)
    ensures
        s@ == keyword_debug_text(k),
{
    let mut s = String::from_str(k.as_str());
    if keyword_has_p_suffix(k) {
        s.append("_P");
    }
    s
}

/// `name(inner)`, as the derived `Debug` writes a variant with one field.
pub open spec fn wrapped(name: Seq<char>, inner: Seq<char>) -> Seq<char> {
    name + seq!['('] + inner + seq![')']
}

pub(crate) fn wrap(name: &str, inner: &str) -> (s: String)
    ensures
        s@ == wrapped(name@, inner@),
{
    let mut s = String::from_str(name);
    s.push('(');
    s.append(inner);
    s.push(')');
    proof {
        assert(s@ =~= wrapped(name@, inner@));
    }
    s
}

/// The text of a token as its derived `Debug` writes it (`format!("{:?}", token)`): the
/// variant name, with the payload in round brackets (strings quoted and escaped as `str`'s
/// `Debug` does), or with named fields in braces.
pub open spec fn token_debug_text(t: Token) -> Seq<char> {
    match t {
        Token::Keyword(k) => wrapped("Keyword"@, keyword_debug_text(k)),
        Token::Ident(x) => wrapped("Ident"@, str_debug_text(x@)),
        Token::QuotedIdent(x) => wrapped("QuotedIdent"@, str_debug_text(x@)),
        Token::SetIdent(x) => wrapped("SetIdent"@, str_debug_text(x@)),
        Token::StringLiteral(x) => wrapped("StringLiteral"@, str_debug_text(x@)),
        Token::EscapeString(x) => wrapped("EscapeString"@, str_debug_text(x@)),
        Token::BitString(x) => wrapped("BitString"@, str_debug_text(x@)),
        Token::HexString(x) => wrapped("HexString"@, str_debug_text(x@)),
        Token::NationalString(x) => wrapped("NationalString"@, str_debug_text(x@)),
        Token::Float(x) => wrapped("Float"@, str_debug_text(x@)),
        Token::Op(x) => wrapped("Op"@, str_debug_text(x@)),
        Token::DollarString { tag, body } => "DollarString { tag: "@ + str_debug_text(tag@) + ", body: "@ + str_debug_text(body@)
            + " }"@,
        Token::Integer(n) => wrapped("Integer"@, signed_decimal(n as int)),
        Token::Param(n) => wrapped("Param"@, decimal(n as nat)),
        Token::LParen => "LParen"@,
        Token::RParen => "RParen"@,
        Token::LBracket => "LBracket"@,
        Token::RBracket => "RBracket"@,
        Token::Comma => "Comma"@,
        Token::Semicolon => "Semicolon"@,
        Token::Dot => "Dot"@,
        Token::Colon => "Colon"@,
        Token::Eq => "Eq"@,
        Token::Lt => "Lt"@,
        Token::Gt => "Gt"@,
        Token::Plus => "Plus"@,
        Token::Minus => "Minus"@,
        Token::Star => "Star"@,
        Token::Slash => "Slash"@,
        Token::Percent => "Percent"@,
        Token::Caret => "Caret"@,
        Token::At => "At"@,
        Token::Typecast => "Typecast"@,
        Token::Eof => "Eof"@,
    }
}

/// Renders a token as its derived `Debug` does.
pub(crate) fn token_debug(t: &Token) -> (s: String)
    ensures
        s@ == token_debug_text(*t),
{
    match t {
        Token::Keyword(k) => {
            let inner = keyword_debug(*k);
            wrap("Keyword", inner.as_str())
        },
        Token::Ident(x) => {
            let inner = debug_str(x.as_str());
            wrap("Ident", inner.as_str())
        },
        Token::QuotedIdent(x) => {
            let inner = debug_str(x.as_str());
            wrap("QuotedIdent", inner.as_str())
        },
        Token::SetIdent(x) => {
            let inner = debug_str(x.as_str());
            wrap("SetIdent", inner.as_str())
        },
        Token::StringLiteral(x) => {
            let inner = debug_str(x.as_str());
            wrap("StringLiteral", inner.as_str())
        },
        Token::EscapeString(x) => {
            let inner = debug_str(x.as_str());
            wrap("EscapeString", inner.as_str())
        },
        Token::BitString(x) => {
            let inner = debug_str(x.as_str());
            wrap("BitString", inner.as_str())
        },
        Token::HexString(x) => {
            let inner = debug_str(x.as_str());
            wrap("HexString", inner.as_str())
        },
        Token::NationalString(x) => {
            let inner = debug_str(x.as_str());
            wrap("NationalString", inner.as_str())
        },
        Token::Float(x) => {
            let inner = debug_str(x.as_str());
            wrap("Float", inner.as_str())
        },
        Token::Op(x) => {
            let inner = debug_str(x.as_str());
            wrap("Op", inner.as_str())
        },
        Token::DollarString { tag, body } => {
            let mut s = String::from_str("DollarString { tag: ");
            let t = debug_str(tag.as_str());
            s.append(t.as_str());
            s.append(", body: ");
            let b = debug_str(body.as_str());
            s.append(b.as_str());
            s.append(" }");
            proof {
                assert(s@ =~= "DollarString { tag: "@ + str_debug_text(tag@) + ", body: "@ + str_debug_text(body@) + " }"@);
            }
            s
        },
        Token::Integer(n) => {
            let mut inner = String::new();
            push_signed(&mut inner, *n);
            proof {
                assert(inner@ =~= signed_decimal(*n as int));
            }
            wrap("Integer", inner.as_str())
        },
        Token::Param(n) => {
            let mut inner = String::new();
            push_decimal(&mut inner, *n as u64);
            proof {
                assert(inner@ =~= decimal(*n as nat));
            }
            wrap("Param", inner.as_str())
        },
        Token::LParen => String::from_str("LParen"),
        Token::RParen => String::from_str("RParen"),
        Token::LBracket => String::from_str("LBracket"),
        Token::RBracket => String::from_str("RBracket"),
        Token::Comma => String::from_str("Comma"),
        Token::Semicolon => String::from_str("Semicolon"),
        Token::Dot => String::from_str("Dot"),
        Token::Colon => String::from_str("Colon"),
        Token::Eq => String::from_str("Eq"),
        Token::Lt => String::from_str("Lt"),
        Token::Gt => String::from_str("Gt"),
        Token::Plus => String::from_str("Plus"),
        Token::Minus => String::from_str("Minus"),
        Token::Star => String::from_str("Star"),
        Token::Slash => String::from_str("Slash"),
        Token::Percent => String::from_str("Percent"),
        Token::Caret => String::from_str("Caret"),
        Token::At => String::from_str("At"),
        Token::Typecast => String::from_str("Typecast"),
        Token::Eof => String::from_str("Eof"),
    }
}

} // verus!
