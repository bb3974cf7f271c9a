//! Syntax-tree types produced by the parser.
use vstd::prelude::*;

verus! {

/// A possibly qualified name, one string per dot-separated segment.
pub type ObjectName = Vec<String>;

/// Category and domain labels of a recognised built-in function.
#[derive(Debug)]
pub struct BuiltinFuncMeta {
    pub category: String,
    pub domain: String,
}

// ── Data types ─────────────────────────────────────────────────────

#[derive(Debug, Clone, Copy, PartialEq, Eq, Structural)]
pub enum TimeZoneInfo {
    WithTimeZone,
    WithoutTimeZone,
}

/// An interval qualifier such as `DAY TO SECOND(3)`.
#[derive(Debug)]
pub struct IntervalType {
    pub from: String,
    pub from_precision: Option<u32>,
    pub to: Option<String>,
    pub to_precision: Option<u32>,
}

#[derive(Debug)]
pub enum DataType {
    Boolean,
    TinyInt(Option<u32>),
    SmallInt(Option<u32>),
    Integer(Option<u32>),
    BigInt(Option<u32>),
    Real,
    Float(Option<u32>),
    Double,
    Numeric(Option<u32>, Option<u32>),
    Char(Option<u32>),
    Varchar(Option<u32>),
    Text,
    Bytea,
    Timestamp(Option<u32>, Option<TimeZoneInfo>),
    Date,
    Time(Option<u32>, Option<TimeZoneInfo>),
    Interval(Option<IntervalType>),
    Bit(Option<u32>),
    Varbit(Option<u32>),
    Serial,
    SmallSerial,
    BigSerial,
    BinaryFloat,
    BinaryDouble,
    Uuid,
    Json,
    Jsonb,
    Custom(ObjectName, Vec<Expr>),
    Array(Box<DataType>),
}

// ── Expressions ────────────────────────────────────────────────────

#[derive(Debug)]
pub enum Literal {
    Integer(i64),
    Float(String),
    String(String),
    EscapeString(String),
    BitString(String),
    HexString(String),
    NationalString(String),
    DollarString { tag: String, body: String },
    Boolean(bool),
    Null,
}

#[derive(Debug)]
pub struct WhenClause {
    pub condition: Expr,
    pub result: Expr,
}

#[derive(Debug)]
pub struct OrderByItem {
    pub expr: Expr,
    pub asc: Option<bool>,
    pub nulls_first: Option<bool>,
}

#[derive(Debug, Clone, Copy, PartialEq, Eq, Structural)]
pub enum WindowFrameMode {
    Rows,
    Range,
    Groups,
}

#[derive(Debug, Clone, Copy, PartialEq, Eq, Structural)]
pub enum WindowFrameDirection {
    UnboundedPreceding,
    UnboundedFollowing,
    CurrentRow,
    Preceding(i64),
    Following(i64),
}

#[derive(Debug, Clone, Copy, PartialEq, Eq, Structural)]
pub struct WindowFrameBound {
    pub direction: WindowFrameDirection,
}

#[derive(Debug, Clone, Copy, PartialEq, Eq, Structural)]
pub struct WindowFrame {
    pub mode: WindowFrameMode,
    pub start: Option<WindowFrameBound>,
    pub end: Option<WindowFrameBound>,
}

#[derive(Debug)]
pub struct WindowSpec {
    pub partition_by: Vec<Expr>,
    pub order_by: Vec<OrderByItem>,
    pub frame: Option<WindowFrame>,
    pub window_name: Option<String>,
}

#[derive(Debug, Clone, Copy, PartialEq, Eq, Structural)]
pub enum XmlOption {
    Document,
    Content,
}

#[derive(Debug)]
pub struct XmlAttribute {
    pub value: Expr,
    pub name: Option<String>,
}

#[derive(Debug)]
pub struct XmlAttributes {
    pub entity_escaping: Option<bool>,
    pub items: Vec<XmlAttribute>,
}

#[derive(Debug)]
pub struct XmlContent {
    pub expr: Expr,
    pub alias: Option<String>,
}

#[allow(inconsistent_fields)]
#[derive(Debug)]
pub enum Expr {
    Literal(Literal),
    ColumnRef(ObjectName),
    QualifiedStar(String),
    Parameter(u32),
    BinaryOp { left: Box<Expr>, op: String, right: Box<Expr> },
    UnaryOp { op: String, expr: Box<Expr> },
    Prior(Box<Expr>),
    IsNull { expr: Box<Expr>, negated: bool },
    Between { expr: Box<Expr>, low: Box<Expr>, high: Box<Expr>, negated: bool },
    InList { expr: Box<Expr>, list: Vec<Expr>, negated: bool },
    Subscript { object: Box<Expr>, index: Box<Expr> },
    TypeCast { expr: Box<Expr>, data_type: DataType, default: Option<Box<Expr>>, format: Option<Box<Expr>> },
    Parenthesized(Box<Expr>),
    RowConstructor(Vec<Expr>),
    Array(Vec<Expr>),
    Case { operand: Option<Box<Expr>>, whens: Vec<WhenClause>, else_expr: Option<Box<Expr>> },
    FunctionCall {
        name: ObjectName,
        args: Vec<Expr>,
        distinct: bool,
        over: Option<WindowSpec>,
        filter: Option<Box<Expr>>,
        within_group: Vec<OrderByItem>,
    },
    SpecialFunction { name: String, args: Vec<Expr> },
    XmlElement {
        entity_escaping: Option<bool>,
        evalname: Option<Box<Expr>>,
        name: Option<String>,
        attributes: Option<XmlAttributes>,
        content: Vec<XmlContent>,
    },
    XmlConcat(Vec<Expr>),
    XmlForest(Vec<XmlContent>),
    XmlParse { option: XmlOption, expr: Box<Expr>, wellformed: bool },
    XmlPi { name: Option<String>, content: Option<Box<Expr>> },
    XmlRoot { expr: Box<Expr>, version: Option<Box<Expr>>, standalone: Option<Option<bool>> },
    XmlSerialize { option: XmlOption, expr: Box<Expr>, data_type: DataType },
    Default,
}

// ── DDL statements ─────────────────────────────────────────────────

#[derive(Debug, Clone, Copy, PartialEq, Eq, Structural)]
pub enum ObjectType {
    Table,
    Index,
    Sequence,
    View,
    Schema,
    Database,
    Tablespace,
    MaterializedView,
    Function,
    Procedure,
    Trigger,
    Extension,
    ForeignTable,
    Fdw,
    ForeignServer,
    User,
    Role,
    Group,
    ResourcePool,
    ResourceLabel,
    WorkloadGroup,
    AuditPolicy,
    MaskingPolicy,
    RlsPolicy,
    DataSource,
    Directory,
    Event,
    Publication,
    Subscription,
    Synonym,
    Model,
    SecurityLabel,
    NodeGroup,
    Node,
    TextSearchConfig,
    TextSearchDict,
    OpClass,
    OpFamily,
    OperatorClass,
    OperatorFamily,
    Operator,
    Aggregate,
    Cast,
    Conversion,
    Domain,
    Rule,
    Language,
    Policy,
    WeakPasswordDictionary,
    Type,
    App,
    Global,
}

#[derive(Debug)]
pub struct DropStatement {
    pub object_type: ObjectType,
    pub if_exists: bool,
    pub names: Vec<ObjectName>,
    pub cascade: bool,
    pub purge: bool,
}

#[derive(Debug)]
pub struct TruncateStatement {
    pub tables: Vec<ObjectName>,
    pub cascade: bool,
    pub restart_identity: bool,
    pub continue_identity: bool,
}

#[derive(Debug)]
pub struct AlterTriggerStatement {
    pub name: String,
    pub table: Option<ObjectName>,
    pub new_name: Option<String>,
    pub enable: Option<bool>,
}

#[derive(Debug)]
pub struct AlterExtensionStatement {
    pub name: String,
    pub action: String,
}

#[derive(Debug)]
pub struct CreateTablespaceStatement {
    pub name: String,
    pub owner: Option<String>,
    pub relative: bool,
    pub location: String,
    pub maxsize: Option<String>,
}

#[derive(Debug)]
pub struct CreateDatabaseStatement {
    pub name: String,
    pub owner: Option<String>,
    pub template: Option<String>,
    pub encoding: Option<String>,
    pub locale: Option<String>,
    pub lc_collate: Option<String>,
    pub lc_ctype: Option<String>,
    pub tablespace: Option<String>,
    pub allow_connections: Option<bool>,
    pub connection_limit: Option<i32>,
    pub is_template: Option<bool>,
}

#[derive(Debug)]
pub struct CreateSequenceStatement {
    pub if_not_exists: bool,
    pub name: ObjectName,
    pub start: Option<Expr>,
    pub increment: Option<Expr>,
    pub min_value: Option<Expr>,
    pub max_value: Option<Expr>,
    pub cache: Option<Expr>,
    pub cycle: bool,
    pub owned_by: Option<ObjectName>,
}

#[derive(Debug)]
pub enum RoleOption {
    Superuser(bool),
    CreateDb(bool),
    CreateRole(bool),
    Inherit(bool),
    Login(bool),
    Replication(bool),
    BypassRls(bool),
    ConnectionLimit(i64),
    EncryptedPassword(String),
    UnencryptedPassword(String),
    ValidUntil(String),
    InRole(Vec<String>),
    Role(Vec<String>),
    Admin(Vec<String>),
    User(Vec<String>),
    Sysid(i64),
    DefaultTablespace(String),
    Tablespace(String),
    Profile(String),
    AccountLock(bool),
    AuditAdmin(bool),
    MonAdmin(bool),
    OprAdmin(bool),
    PolAdmin(bool),
    Persistence(bool),
    Independent(bool),
    Useft(bool),
    VcAdmin(bool),
    Permit(bool),
}

/// `ALTER TYPE name action`.
#[derive(Debug)]
pub struct AlterCompositeTypeStatement {
    pub name: ObjectName,
    pub action: AlterTypeAction,
}

#[derive(Debug)]
pub enum AlterTypeAction {
    AddAttribute { name: String, data_type: String, cascade: bool },
    AddEnumValue { if_not_exists: bool, value: String, before: Option<String>, after: Option<String> },
    DropAttribute { name: String, if_exists: bool, cascade: bool },
    RenameAttribute { old_name: String, new_name: String, cascade: bool },
    RenameEnumValue { old_value: String, new_value: String },
    RenameTo(String),
    SetSchema(String),
    OwnerTo(String),
}

// ── CREATE TABLE ───────────────────────────────────────────────────

#[derive(Debug)]
pub enum ColumnConstraint {
    NotNull,
    Null,
    Default(Expr),
    Unique,
    PrimaryKey,
    Check(Expr),
    References(ObjectName, Vec<String>),
}

#[derive(Debug)]
pub enum TableConstraint {
    PrimaryKey(Vec<String>),
    Unique(Vec<String>),
    Check(Expr),
    ForeignKey { columns: Vec<String>, ref_table: ObjectName, ref_columns: Vec<String> },
}

/// `GENERATED ALWAYS AS (expr) [STORED]`.
#[derive(Debug)]
pub struct GeneratedColumn {
    pub expr: Expr,
    pub stored: bool,
}

/// `ENCRYPTED WITH (COLUMN_ENCRYPTION_KEY = k, ENCRYPTION_TYPE = t)`.
#[derive(Debug)]
pub struct EncryptedWith {
    pub column_encryption_key: String,
    pub encryption_type: String,
}

#[derive(Debug)]
pub struct ColumnDef {
    pub name: String,
    pub data_type: DataType,
    pub constraints: Vec<ColumnConstraint>,
    pub compress_mode: Option<String>,
    pub charset: Option<String>,
    pub collate: Option<String>,
    pub on_update: Option<String>,
    pub comment: Option<String>,
    pub generated: Option<GeneratedColumn>,
    pub encrypted_with: Option<EncryptedWith>,
}

/// `LIKE source {INCLUDING | EXCLUDING} option ...`; each option with whether it is included.
#[derive(Debug)]
pub struct LikeClause {
    pub source_table: ObjectName,
    pub options: Vec<(bool, String)>,
}

#[derive(Debug)]
pub enum PartitionValues {
    LessThan(Vec<Expr>),
    InValues(Vec<Expr>),
    StartEnd { start: Expr, end: Expr, every: Option<Expr> },
}

#[derive(Debug)]
pub struct PartitionDef {
    pub name: String,
    pub values: Option<PartitionValues>,
    pub tablespace: Option<String>,
    pub subpartitions: Vec<PartitionDef>,
}

#[allow(inconsistent_fields)]
#[derive(Debug)]
pub enum PartitionClause {
    Range {
        columns: Vec<ObjectName>,
        interval: Option<Expr>,
        is_columns: bool,
        partitions_count: Option<u32>,
        partitions: Vec<PartitionDef>,
    },
    List { columns: Vec<ObjectName>, is_columns: bool, partitions: Vec<PartitionDef> },
    Hash { columns: Vec<ObjectName>, partitions_count: Option<u32>, partitions: Vec<PartitionDef> },
}

/// An ILM policy: `ILM ADD POLICY ... AFTER n unit OF NO MODIFICATION [ON (condition)]`.
#[derive(Debug)]
pub struct IlmPolicy {
    pub after_n: u64,
    pub unit: String,
    pub condition: Option<Expr>,
}

#[derive(Debug)]
pub enum DistributeClause {
    Hash { columns: Vec<String> },
    Replication,
    RoundRobin { columns: Vec<String> },
    Modulo { columns: Vec<String> },
}

#[derive(Debug, Clone, Copy, PartialEq, Eq, Structural)]
pub enum OnCommitAction {
    PreserveRows,
    DeleteRows,
    Drop,
}

#[derive(Debug)]
pub struct CreateTableStatement {
    pub temporary: bool,
    pub unlogged: bool,
    pub if_not_exists: bool,
    pub name: ObjectName,
    pub columns: Vec<ColumnDef>,
    pub constraints: Vec<TableConstraint>,
    pub like_clauses: Vec<LikeClause>,
    pub inherits: Vec<ObjectName>,
    pub partition_by: Option<PartitionClause>,
    pub subpartition_by: Option<PartitionClause>,
    pub subpartitions_count: Option<u32>,
    pub distribute_by: Option<DistributeClause>,
    pub to_group: Option<String>,
    pub tablespace: Option<String>,
    pub on_commit: Option<OnCommitAction>,
    pub options: Vec<(String, String)>,
    pub table_options: Vec<(String, String)>,
    pub compress: Option<bool>,
    pub ilm: Option<IlmPolicy>,
    pub row_movement: Option<bool>,
}

// ── ALTER TABLE ────────────────────────────────────────────────────

#[derive(Debug)]
pub enum AlterColumnAction {
    SetDataType(DataType),
    SetDefault(Expr),
    SetNotNull,
    DropDefault,
    DropNotNull,
}

#[derive(Debug, Clone, Copy, PartialEq, Eq, Structural)]
pub enum StatisticsOpKind {
    Add,
    Delete,
    Enable,
    Disable,
}

/// A column of `MODIFY (col type [NOT NULL | NULL], ...)`.
#[derive(Debug)]
pub struct ModifyColumnInfo {
    pub name: String,
    pub data_type: DataType,
    pub nullability: Option<bool>,
}

#[derive(Debug)]
pub enum ReplicaIdentity {
    Default,
    Nothing,
    Full,
    Index { name: String },
}

#[allow(inconsistent_fields)]
#[derive(Debug)]
pub enum AlterTableAction {
    AddColumns(Vec<ColumnDef>),
    StatisticsOp { op: StatisticsOpKind, columns: Vec<String> },
    AddPartition { name: String, values: PartitionValues, tablespace: Option<String> },
    AddSubPartition { partition_name: String, name: String, values: Option<PartitionValues> },
    AddConstraintUsingIndex { name: String, index_name: String },
    AddConstraint { name: Option<String>, constraint: TableConstraint },
    AddColumn(ColumnDef),
    AddNode { node_name: String },
    DropPartitionFor { expr: Expr, if_exists: bool, update_global_index: bool, update_distributed_global_index: Option<bool> },
    DropPartition { name: String, if_exists: bool, update_global_index: bool, update_distributed_global_index: Option<bool> },
    DropSubPartition { name: String, if_exists: bool },
    DropColumn { name: String, if_exists: bool, cascade: bool },
    DropConstraint { name: String, if_exists: bool, cascade: bool },
    DeleteNode { node_name: String },
    AlterColumnStatistics { column: String, percent: bool, value: i64 },
    AlterColumnStorage { column: String, storage: String },
    AlterColumn { name: String, action: AlterColumnAction },
    RenameSubPartition { old_name: String, new_name: String },
    RenamePartitionFor { expr: Expr, new_name: String },
    RenamePartition { old_name: String, new_name: String },
    RenameColumn { old: String, new: String },
    RenameTo { new_name: String },
    OwnerTo { owner: String },
    SetSchema { schema: String },
    SetTablespace { tablespace: String },
    SetCompress,
    SetWithoutCluster,
    SetWithoutOids,
    SetOptions { options: Vec<(String, String)> },
    TruncateSubPartition { name: String, cascade: bool },
    TruncatePartition { name: String, cascade: bool, update_global_index: bool, update_distributed_global_index: Option<bool> },
    MergeSubPartitions { names: Vec<String>, into_name: String },
    MergePartitions { names: Vec<String>, into_name: String, update_global_index: bool, update_distributed_global_index: Option<bool> },
    SplitSubPartition { name: String, at_value: Option<Expr>, into: Vec<PartitionDef> },
    SplitPartitionFor {
        expr: Expr,
        at_value: Option<Expr>,
        into: Vec<PartitionDef>,
        update_global_index: bool,
        update_distributed_global_index: Option<bool>,
    },
    SplitPartition {
        name: String,
        at_value: Option<Expr>,
        into: Vec<PartitionDef>,
        update_global_index: bool,
        update_distributed_global_index: Option<bool>,
    },
    ExchangeSubPartition { name: String, table: ObjectName },
    ExchangePartition {
        name: String,
        table: ObjectName,
        update_global_index: bool,
        update_distributed_global_index: Option<bool>,
        with_validation: Option<bool>,
        verbose: bool,
    },
    ResetOptions { options: Vec<String> },
    MoveSubPartition { name: String, tablespace: String },
    MovePartitionFor { expr: Expr, tablespace: String },
    MovePartition { name: String, tablespace: String },
    ModifyColumns(Vec<ModifyColumnInfo>),
    EnableRowMovement,
    EnableRowLevelSecurity,
    EnableTrigger { name: Option<String> },
    SetRule { enable: bool, mode: Option<String>, name: String },
    DisableRowMovement,
    DisableRowLevelSecurity,
    DisableTrigger { name: Option<String> },
    SetCharset { charset: String, collation: Option<String> },
    ValidateConstraint { name: String },
    Inherit { parent: ObjectName },
    NoInherit { parent: ObjectName },
    NoForceRowLevelSecurity,
    ClusterOn { index_name: String },
    ReplicaIdentity(ReplicaIdentity),
    SetNoCompress,
    ForceRowLevelSecurity,
    NotOfType { of_type: ObjectName },
    OfType { of_type: ObjectName },
    SetComment { comment: String },
    IlmEnablePolicy,
    IlmDisablePolicy,
    IlmDeletePolicy,
    IlmAddPolicy(IlmPolicy),
    EncryptionKeyRotation,
    GsiWaitAll,
}

/// `ALTER TABLE [IF EXISTS] name action, ...`.
#[derive(Debug)]
pub struct AlterTableStatement {
    pub if_exists: bool,
    pub name: ObjectName,
    pub actions: Vec<AlterTableAction>,
}

// ── CREATE INDEX ───────────────────────────────────────────────────

#[derive(Debug, Clone, Copy, PartialEq, Eq, Structural)]
pub enum IndexNulls {
    First,
    Last,
}

#[derive(Debug, Clone, Copy, PartialEq, Eq, Structural)]
pub enum IndexOrdering {
    Asc,
    Desc,
}

/// A key of an index: a column name or an expression, with its options.
#[derive(Debug)]
pub struct IndexColumn {
    pub name: Option<String>,
    pub expr: Option<Expr>,
    pub collation: Option<String>,
    pub opclass: Option<String>,
    pub asc: Option<bool>,
    pub nulls: Option<IndexNulls>,
}

#[derive(Debug)]
pub struct CreateIndexStatement {
    pub unique: bool,
    pub if_not_exists: bool,
    pub concurrent: bool,
    pub name: Option<ObjectName>,
    pub table: ObjectName,
    pub using_method: Option<String>,
    pub columns: Vec<IndexColumn>,
    pub tablespace: Option<String>,
    pub where_clause: Option<Expr>,
}

/// A key of a global secondary index.
#[derive(Debug)]
pub struct GlobalIndexColumn {
    pub name: String,
    pub length: Option<u32>,
    pub collation: Option<String>,
    pub opclass: Option<String>,
    pub ordering: Option<IndexOrdering>,
    pub nulls: Option<IndexNulls>,
    pub expression: Option<Expr>,
}

#[derive(Debug)]
pub struct CreateGlobalIndexStatement {
    pub unique: bool,
    pub concurrent: bool,
    pub if_not_exists: bool,
    pub name: Option<ObjectName>,
    pub table: ObjectName,
    pub using_method: Option<String>,
    pub columns: Vec<GlobalIndexColumn>,
    pub containing: Vec<String>,
    pub distribute_by: Option<DistributeClause>,
    pub with_options: Vec<(String, String)>,
    pub tablespace: Option<String>,
    pub visible: Option<bool>,
    pub where_clause: Option<Expr>,
}

// ── ALTER INDEX / ALTER VIEW / CREATE TYPE ─────────────────────────

#[derive(Debug)]
pub enum AlterIndexAction {
    RenamePartition { old_name: String, new_name: String },
    RenameTo(String),
    SetTablespace(String),
    SetOptions(Vec<(String, String)>),
    Reset(Vec<String>),
    Unusable,
    RebuildPartition { partition_name: String },
    Rebuild,
    MovePartition { partition_name: String, tablespace: Option<String> },
    NoOp,
}

#[derive(Debug)]
pub struct AlterIndexStatement {
    pub if_exists: bool,
    pub name: ObjectName,
    pub action: AlterIndexAction,
}

#[derive(Debug)]
pub enum AlterViewAction {
    RenameTo(String),
    SetSchema(String),
    SetOptions(Vec<(String, String)>),
    Reset(Vec<String>),
    OwnerTo(String),
    AlterColumnDefault { column: String, set_default: Option<String> },
}

#[derive(Debug)]
pub struct AlterViewStatement {
    pub name: ObjectName,
    pub action: AlterViewAction,
}

#[derive(Debug)]
pub struct TypeAttribute {
    pub name: String,
    pub data_type: DataType,
}

#[derive(Debug)]
pub enum TypeKind {
    Enum { labels: Vec<String> },
    Composite { attributes: Vec<TypeAttribute> },
    Table { element_type: String },
    Range { options: Vec<(String, String)> },
    Base { options: Vec<(String, String)> },
    Shell,
}

#[derive(Debug)]
pub struct CreateTypeStatement {
    pub name: ObjectName,
    pub type_kind: TypeKind,
}


// ── Statements of other objects ────────────────────────────────────

#[derive(Debug)]
pub struct AlterForeignTableStatement {
    pub name: ObjectName,
    pub raw_rest: String,
}

#[derive(Debug)]
pub struct AlterForeignServerStatement {
    pub name: String,
    pub raw_rest: String,
}

#[derive(Debug)]
pub struct AlterFdwStatement {
    pub name: String,
    pub raw_rest: String,
}

#[derive(Debug)]
pub struct AlterPublicationStatement {
    pub name: String,
    pub raw_rest: String,
}

#[derive(Debug)]
pub struct AlterSubscriptionStatement {
    pub name: String,
    pub raw_rest: String,
}

#[derive(Debug)]
pub struct AlterNodeStatement {
    pub name: String,
    pub raw_rest: String,
}

#[derive(Debug)]
pub struct AlterNodeGroupStatement {
    pub name: String,
    pub raw_rest: String,
}

#[derive(Debug)]
pub struct AlterWorkloadGroupStatement {
    pub name: String,
    pub raw_rest: String,
}

#[derive(Debug)]
pub struct AlterAuditPolicyStatement {
    pub name: String,
    pub raw_rest: String,
}

#[derive(Debug)]
pub struct AlterRlsPolicyStatement {
    pub name: String,
    pub raw_rest: String,
}

#[derive(Debug)]
pub struct AlterDataSourceStatement {
    pub name: String,
    pub raw_rest: String,
}

#[derive(Debug)]
pub struct AlterEventStatement {
    pub name: String,
    pub raw_rest: String,
}

#[derive(Debug)]
pub struct AlterMaterializedViewStatement {
    pub name: ObjectName,
    pub raw_rest: String,
}

#[derive(Debug)]
pub struct AlterTextSearchConfigStatement {
    pub name: ObjectName,
    pub raw_rest: String,
}

#[derive(Debug)]
pub struct AlterCoordinatorStatement {
    pub name: String,
    pub raw_rest: String,
}

#[derive(Debug)]
pub struct AlterAppWorkloadGroupMappingStatement {
    pub name: String,
    pub raw_rest: String,
}

#[derive(Debug)]
pub struct CreateModelStatement {
    pub name: String,
    pub raw_rest: String,
}

#[derive(Debug)]
pub struct CreateEventStatement {
    pub name: String,
    pub raw_rest: String,
}

#[derive(Debug)]
pub struct CreateContQueryStatement {
    pub raw_rest: String,
}

#[derive(Debug)]
pub struct CreateStreamStatement {
    pub raw_rest: String,
}

#[derive(Debug)]
pub struct CreateKeyStatement {
    pub raw_rest: String,
}

#[derive(Debug)]
pub struct CreateOpClassStatement {
    pub name: String,
    pub method: String,
    pub raw_rest: String,
}

#[derive(Debug)]
pub struct AlterOpFamilyStatement {
    pub name: String,
    pub method: String,
    pub raw_rest: String,
}

#[derive(Debug)]
pub struct CreateOpFamilyStatement {
    pub name: String,
    pub method: String,
}

#[derive(Debug)]
pub struct CreateConversionStatement {
    pub name: String,
    pub source_encoding: String,
    pub dest_encoding: String,
    pub function_name: String,
}

#[derive(Debug)]
pub struct CreateSynonymStatement {
    pub replace: bool,
    pub name: ObjectName,
    pub target: ObjectName,
    pub public: bool,
}

#[derive(Debug)]
pub struct CreateAmStatement {
    pub name: String,
    pub method: String,
    pub handler: String,
}

#[derive(Debug)]
pub struct CreateDirectoryStatement {
    pub name: String,
    pub path: String,
}

#[derive(Debug)]
pub struct AlterTextSearchDictStatement {
    pub name: ObjectName,
    pub options: Vec<(String, String)>,
}

#[derive(Debug)]
pub enum AlterSynonymAction {
    Compile { debug: bool },
    OwnerTo { new_owner: String },
}

#[derive(Debug)]
pub struct AlterSynonymStatement {
    pub name: String,
    pub action: AlterSynonymAction,
}

/// The partition a DML statement is restricted to.
#[derive(Debug)]
pub enum DmlPartitionClause {
    Partition(Vec<String>),
    Subpartition(Vec<String>),
    PartitionFor(Vec<Expr>),
    SubpartitionFor(Vec<Expr>),
}

/// `column = value` in a `SET` list.
#[derive(Debug)]
pub struct UpdateAssignment {
    pub column: ObjectName,
    pub value: Expr,
}

/// Where the rows of an INSERT come from.
#[derive(Debug)]
pub enum InsertSource {
    Values(Vec<Vec<Expr>>),
    DefaultValues,
    Assignments(Vec<UpdateAssignment>),
}

/// The conflict that `ON CONFLICT` names.
#[derive(Debug)]
pub enum OnConflictTarget {
    OnConstraint(String),
    Columns(Vec<String>),
}

/// What an INSERT does on a conflict.
#[derive(Debug)]
pub enum OnConflictAction {
    Nothing { target: Option<OnConflictTarget> },
    Update { target: Option<OnConflictTarget>, assignments: Vec<UpdateAssignment>, where_clause: Option<Expr> },
}

/// `INSERT [INTO] table [alias] [partition] [(columns)] source [ON DUPLICATE KEY UPDATE ... |
/// ON CONFLICT ...]`.
#[derive(Debug)]
pub struct InsertStatement {
    pub table: ObjectName,
    pub alias: Option<String>,
    pub partition: Option<DmlPartitionClause>,
    pub columns: Vec<String>,
    pub source: InsertSource,
    pub on_conflict: Option<OnConflictAction>,
}

/// An object created together with a schema.
#[derive(Debug)]
pub enum SchemaElement {
    Table(CreateTableStatement),
    Index(CreateIndexStatement),
    Sequence(CreateSequenceStatement),
}

/// `CREATE SCHEMA [IF NOT EXISTS] [name] [AUTHORIZATION role] [CHARACTER SET cs]
/// [COLLATE c] [CREATE ...]*`.
#[derive(Debug)]
pub struct CreateSchemaStatement {
    pub if_not_exists: bool,
    pub name: Option<String>,
    pub authorization: Option<String>,
    pub character_set: Option<String>,
    pub collate: Option<String>,
    pub elements: Vec<SchemaElement>,
}

/// `CREATE [PUBLIC] DATABASE LINK name [CONNECT TO user] [IDENTIFIED BY 'pw'] [USING '...']`.
#[derive(Debug)]
pub struct CreateDatabaseLinkStatement {
    pub name: String,
    pub public_link: bool,
    pub user: Option<String>,
    pub password: Option<String>,
    pub using_clause: Option<String>,
}

} // verus!
