# ogsql_parser

Verified building blocks of a recursive-descent SQL parser for openGauss / GaussDB,
written in Verus.

- `src/function_registry.rs`, `src/function_table.rs`: the built-in function table,
  case-insensitive and schema-qualified lookup, call validation, and a registry with
  extension entries layered over the built-ins; the laws of lookup and validation are
  proof functions at the end of the registry module.
- `src/function_validator.rs`, `src/hint_validator.rs`: call checks against fixed name
  lists, and the parsing and checking of optimizer hints.
- `src/parser/`: the parser over a token vector — expressions and data types, the DDL
  statements (CREATE TABLE / INDEX / SEQUENCE / TYPE / SCHEMA / DATABASE LINK, ALTER
  TABLE / INDEX / VIEW / ..., DROP, TRUNCATE) and INSERT. Each parsing method states how
  the cursor moves. The exact result, and when it succeeds, is stated over the token
  sequence for the forms that its spec functions describe: statements and clauses made of
  names, keywords and literals; expressions made of single operands and infix operators
  (with their precedence and left grouping), calls, `CAST` and `CASE` over such
  expressions; rows of such expressions; data types (their modifier expressions
  included); column definitions with all their clauses; the column lists of `ALTER TABLE
  ... ADD (...)` and `MODIFY (...)`; every table clause of CREATE TABLE, partitioning,
  subpartitioning and ILM policies included (an interval, a bound or a policy condition
  as a single operand). Subqueries, a `SELECT` source of INSERT and a `RETURNING` list are
  reported as unexpected tokens: there is no query parser here.
- Statements that need a query parser are not parsed at all: UPDATE, DELETE, MERGE,
  multi-table `INSERT ALL` / `INSERT FIRST`, CREATE VIEW, CREATE TABLE ... AS, and
  CREATE DATA SOURCE (its options clause). Their parsers read `SELECT` statements, table
  references, target lists and generic option clauses, none of which is part of this
  crate.
- The registry's extension entries are held in a `Vec` whose keys are kept distinct (a
  type invariant over `keys_distinct`), in place of a hash map keyed by name: with
  string keys a verified hash map states too little to prove lookups against. Declaring
  an outside or std map type for this purpose was not tried.
- `app/`: loading extension entries from JSON (serde copies of the metadata types).
