use ogsql_parser::ast::{AlterTableAction, ColumnConstraint, ObjectType, RoleOption, TableConstraint};
use ogsql_parser::error::{ParserError, SourceLocation};
use ogsql_parser::parser::expr::format_data_type;
use ogsql_parser::parser::Parser;
use ogsql_parser::token::{Keyword, Token, TokenWithSpan};

fn parser(ts: Vec<Token>) -> Parser {
    let spans: Vec<TokenWithSpan> = ts
        .into_iter()
        .enumerate()
        .map(|(i, token)| TokenWithSpan { token, location: SourceLocation { line: 1, column: i + 1, offset: i } })
        .collect();
    Parser::new(spans)
}

fn id(s: &str) -> Token {
    Token::Ident(s.to_string())
}

fn kw(k: Keyword) -> Token {
    Token::Keyword(k)
}

fn names(v: &[&str]) -> Vec<String> {
    v.iter().map(|s| s.to_string()).collect()
}

#[test]
fn if_exists_and_if_not_exists() {
    let mut p = parser(vec![kw(Keyword::IF_P), kw(Keyword::EXISTS), id("t")]);
    assert!(p.parse_if_exists());
    assert_eq!(p.pos(), 2);
    let mut p = parser(vec![kw(Keyword::IF_P), kw(Keyword::NOT), kw(Keyword::EXISTS), id("t")]);
    assert!(p.parse_if_not_exists());
    assert_eq!(p.pos(), 3);
    let mut p = parser(vec![id("t")]);
    assert!(!p.parse_if_exists());
    assert_eq!(p.pos(), 0);
}

#[test]
fn column_list() {
    let mut p = parser(vec![Token::LParen, id("a"), Token::Comma, id("b"), Token::RParen, id("rest")]);
    assert_eq!(p.parse_column_list().unwrap(), names(&["a", "b"]));
    assert_eq!(p.pos(), 5);
}

#[test]
fn truncate_several_tables() {
    let mut p = parser(vec![
        kw(Keyword::TABLE),
        id("t1"),
        Token::Comma,
        id("s"),
        Token::Dot,
        id("t2"),
        kw(Keyword::CASCADE),
        kw(Keyword::RESTART),
        kw(Keyword::IDENTITY_P),
    ]);
    let t = p.parse_truncate().unwrap();
    assert_eq!(t.tables, vec![names(&["t1"]), names(&["s", "t2"])]);
    assert!(t.cascade);
    assert!(t.restart_identity);
    assert!(!t.continue_identity);
    assert_eq!(p.pos(), 9);
}

#[test]
fn truncate_continue_identity() {
    let mut p = parser(vec![id("t"), kw(Keyword::CONTINUE_P), kw(Keyword::IDENTITY_P)]);
    let t = p.parse_truncate().unwrap();
    assert!(!t.cascade);
    assert!(!t.restart_identity);
    assert!(t.continue_identity);
}

#[test]
fn drop_table_if_exists_cascade() {
    let mut p = parser(vec![
        kw(Keyword::TABLE),
        kw(Keyword::IF_P),
        kw(Keyword::EXISTS),
        id("a"),
        Token::Comma,
        id("b"),
        kw(Keyword::CASCADE),
    ]);
    let d = p.parse_drop().unwrap();
    assert_eq!(d.object_type, ObjectType::Table);
    assert!(d.if_exists);
    assert_eq!(d.names, vec![names(&["a"]), names(&["b"])]);
    assert!(d.cascade);
    assert!(!d.purge);
}

#[test]
fn drop_unknown_object_type_is_an_error() {
    let mut p = parser(vec![kw(Keyword::SELECT), id("x")]);
    match p.parse_drop().unwrap_err() {
        ParserError::UnexpectedToken { expected, got, location } => {
            assert_eq!(expected, "DROP object type");
            assert_eq!(got, "Keyword(SELECT)");
            assert_eq!(location.column, 1);
        },
        other => panic!("unexpected {:?}", other),
    }
    assert_eq!(p.pos(), 0);
}

#[test]
fn create_tablespace() {
    let mut p = parser(vec![
        kw(Keyword::TABLESPACE),
        id("ts"),
        kw(Keyword::OWNER),
        id("bob"),
        kw(Keyword::RELATIVE_P),
        kw(Keyword::LOCATION),
        Token::StringLiteral("dir".to_string()),
        kw(Keyword::MAXSIZE),
        Token::StringLiteral("10G".to_string()),
    ]);
    let t = p.parse_create_tablespace().unwrap();
    assert_eq!(t.name, "ts");
    assert_eq!(t.owner, Some("bob".to_string()));
    assert!(t.relative);
    assert_eq!(t.location, "dir");
    assert_eq!(t.maxsize, Some("10G".to_string()));
}

#[test]
fn create_tablespace_needs_a_string_location() {
    let mut p = parser(vec![kw(Keyword::TABLESPACE), id("ts"), kw(Keyword::LOCATION), id("dir")]);
    match p.parse_create_tablespace().unwrap_err() {
        ParserError::UnexpectedToken { expected, got, .. } => {
            assert_eq!(expected, "string literal for location");
            assert_eq!(got, "Ident(\"dir\")");
        },
        other => panic!("unexpected {:?}", other),
    }
}

#[test]
fn alter_trigger_rename_and_enable() {
    let mut p = parser(vec![
        kw(Keyword::TRIGGER),
        id("tg"),
        kw(Keyword::ON),
        id("t"),
        kw(Keyword::RENAME),
        kw(Keyword::TO),
        id("tg2"),
    ]);
    let a = p.parse_alter_trigger().unwrap();
    assert_eq!(a.name, "tg");
    assert_eq!(a.table, Some(names(&["t"])));
    assert_eq!(a.new_name, Some("tg2".to_string()));
    assert_eq!(a.enable, None);

    let mut p = parser(vec![kw(Keyword::TRIGGER), id("tg"), kw(Keyword::DISABLE_P)]);
    let a = p.parse_alter_trigger().unwrap();
    assert_eq!(a.enable, Some(false));
    assert!(a.table.is_none());
}

#[test]
fn collect_rest_stops_at_semicolon() {
    let mut p = parser(vec![id("a"), id("b"), Token::Semicolon, id("c")]);
    assert_eq!(p.collect_rest_until_semicolon(), "a b");
    assert_eq!(p.pos(), 2);
}

#[test]
fn create_table_columns_and_constraints() {
    let mut p = parser(vec![
        kw(Keyword::TABLE),
        kw(Keyword::IF_P),
        kw(Keyword::NOT),
        kw(Keyword::EXISTS),
        id("s"),
        Token::Dot,
        id("t"),
        Token::LParen,
        id("id"),
        kw(Keyword::INT_P),
        kw(Keyword::PRIMARY),
        kw(Keyword::KEY),
        Token::Comma,
        id("name"),
        kw(Keyword::VARCHAR),
        Token::LParen,
        Token::Integer(40),
        Token::RParen,
        kw(Keyword::NOT),
        kw(Keyword::NULL_P),
        kw(Keyword::DEFAULT),
        Token::StringLiteral("x".to_string()),
        Token::Comma,
        kw(Keyword::UNIQUE),
        Token::LParen,
        id("name"),
        Token::RParen,
        Token::RParen,
        kw(Keyword::TABLESPACE),
        id("ts"),
    ]);
    let t = p.parse_create_table(true, false).unwrap();
    assert!(t.temporary);
    assert!(!t.unlogged);
    assert!(t.if_not_exists);
    assert_eq!(t.name, names(&["s", "t"]));
    assert_eq!(t.columns.len(), 2);
    assert_eq!(t.columns[0].name, "id");
    assert_eq!(format_data_type(&t.columns[0].data_type), "integer");
    assert!(matches!(t.columns[0].constraints[..], [ColumnConstraint::PrimaryKey]));
    assert_eq!(t.columns[1].name, "name");
    assert_eq!(format_data_type(&t.columns[1].data_type), "varchar(40)");
    assert_eq!(t.columns[1].constraints.len(), 2);
    assert!(matches!(t.columns[1].constraints[0], ColumnConstraint::NotNull));
    assert!(matches!(t.columns[1].constraints[1], ColumnConstraint::Default(_)));
    assert_eq!(t.constraints.len(), 1);
    match &t.constraints[0] {
        TableConstraint::Unique(cols) => assert_eq!(cols, &names(&["name"])),
        other => panic!("unexpected {:?}", other),
    }
    assert_eq!(t.tablespace, Some("ts".to_string()));
    assert_eq!(p.pos(), 30);
}

#[test]
fn create_table_needs_table_keyword() {
    let mut p = parser(vec![id("t")]);
    match p.parse_create_table(false, false).unwrap_err() {
        ParserError::UnexpectedToken { expected, .. } => assert_eq!(expected, "TABLE"),
        other => panic!("unexpected {:?}", other),
    }
    assert_eq!(p.pos(), 0);
}

#[test]
fn alter_table_actions() {
    let mut p = parser(vec![
        kw(Keyword::TABLE),
        kw(Keyword::IF_P),
        kw(Keyword::EXISTS),
        id("t"),
        kw(Keyword::RENAME),
        kw(Keyword::COLUMN),
        id("a"),
        kw(Keyword::TO),
        id("b"),
        Token::Comma,
        kw(Keyword::DROP),
        kw(Keyword::COLUMN),
        id("c"),
        kw(Keyword::CASCADE),
        Token::Comma,
        kw(Keyword::RENAME),
        kw(Keyword::TO),
        id("t2"),
    ]);
    let a = p.parse_alter_table().unwrap();
    assert!(a.if_exists);
    assert_eq!(a.name, names(&["t"]));
    assert_eq!(a.actions.len(), 3);
    match &a.actions[0] {
        AlterTableAction::RenameColumn { old, new } => {
            assert_eq!(old, "a");
            assert_eq!(new, "b");
        },
        other => panic!("unexpected {:?}", other),
    }
    match &a.actions[1] {
        AlterTableAction::DropColumn { name, if_exists, cascade } => {
            assert_eq!(name, "c");
            assert!(!if_exists);
            assert!(cascade);
        },
        other => panic!("unexpected {:?}", other),
    }
    match &a.actions[2] {
        AlterTableAction::RenameTo { new_name } => assert_eq!(new_name, "t2"),
        other => panic!("unexpected {:?}", other),
    }
    assert_eq!(p.pos(), 18);
}

#[test]
fn alter_table_add_column() {
    let mut p = parser(vec![kw(Keyword::TABLE), id("t"), kw(Keyword::ADD_P), kw(Keyword::COLUMN), id("c"), kw(Keyword::BIGINT)]);
    let a = p.parse_alter_table().unwrap();
    match &a.actions[0] {
        AlterTableAction::AddColumn(col) => {
            assert_eq!(col.name, "c");
            assert_eq!(format_data_type(&col.data_type), "bigint");
        },
        other => panic!("unexpected {:?}", other),
    }
}

#[test]
fn create_index_on_columns() {
    let mut p = parser(vec![
        kw(Keyword::INDEX),
        kw(Keyword::CONCURRENTLY),
        id("idx"),
        kw(Keyword::ON),
        id("t"),
        kw(Keyword::USING),
        id("btree"),
        Token::LParen,
        id("a"),
        kw(Keyword::DESC),
        Token::Comma,
        id("b"),
        Token::RParen,
    ]);
    let i = p.parse_create_index(true).unwrap();
    assert!(i.unique);
    assert!(i.concurrent);
    assert!(!i.if_not_exists);
    assert_eq!(i.name, Some(names(&["idx"])));
    assert_eq!(i.table, names(&["t"]));
    assert_eq!(i.using_method, Some("btree".to_string()));
    assert_eq!(i.columns.len(), 2);
    assert_eq!(i.columns[0].name, Some("a".to_string()));
    assert_eq!(i.columns[0].asc, Some(false));
    assert_eq!(i.columns[1].name, Some("b".to_string()));
    assert_eq!(i.columns[1].asc, None);
    assert!(i.where_clause.is_none());
}

#[test]
fn create_role_options() {
    let mut p = parser(vec![
        id("r"),
        kw(Keyword::WITH),
        id("LOGIN"),
        id("nocreatedb"),
        kw(Keyword::CONNECTION),
        kw(Keyword::LIMIT),
        Token::Integer(5),
    ]);
    let (name, opts) = p.parse_create_role_options().unwrap();
    assert_eq!(name, "r");
    assert_eq!(opts.len(), 3);
    assert!(matches!(opts[0], RoleOption::Login(true)));
    assert!(matches!(opts[1], RoleOption::CreateDb(false)));
    assert!(matches!(opts[2], RoleOption::ConnectionLimit(5)));
}

#[test]
fn alter_table_name_only_actions() {
    let mut p = parser(vec![
        kw(Keyword::TABLE),
        id("t"),
        kw(Keyword::SET),
        Token::LParen,
        id("fillfactor"),
        Token::Eq,
        id("x"),
        Token::RParen,
        Token::Comma,
        kw(Keyword::OWNER),
        kw(Keyword::TO),
        id("bob"),
        Token::Comma,
        kw(Keyword::COMMENT),
        Token::Eq,
        Token::StringLiteral("c".to_string()),
        Token::Comma,
        kw(Keyword::VALIDATE),
        kw(Keyword::CONSTRAINT),
        id("k"),
        Token::Comma,
        id("gsiwaitall"),
    ]);
    let a = p.parse_alter_table().unwrap();
    assert_eq!(a.actions.len(), 5);
    match &a.actions[0] {
        AlterTableAction::SetOptions { options } => assert_eq!(options, &vec![("fillfactor".to_string(), "x".to_string())]),
        other => panic!("unexpected {:?}", other),
    }
    match &a.actions[1] {
        AlterTableAction::OwnerTo { owner } => assert_eq!(owner, "bob"),
        other => panic!("unexpected {:?}", other),
    }
    match &a.actions[2] {
        AlterTableAction::SetComment { comment } => assert_eq!(comment, "c"),
        other => panic!("unexpected {:?}", other),
    }
    match &a.actions[3] {
        AlterTableAction::ValidateConstraint { name } => assert_eq!(name, "k"),
        other => panic!("unexpected {:?}", other),
    }
    assert!(matches!(a.actions[4], AlterTableAction::GsiWaitAll));
    assert_eq!(p.pos(), 22);
}

#[test]
fn alter_table_rename_constraint_is_read_and_dropped() {
    let mut p = parser(vec![kw(Keyword::TABLE), id("t"), kw(Keyword::RENAME), kw(Keyword::CONSTRAINT), id("a"), kw(Keyword::TO), id("b")]);
    let a = p.parse_alter_table().unwrap();
    match &a.actions[0] {
        AlterTableAction::DropConstraint { name, if_exists, cascade } => {
            assert_eq!(name, "");
            assert!(!if_exists);
            assert!(!cascade);
        },
        other => panic!("unexpected {:?}", other),
    }
}

#[test]
fn alter_table_unknown_action_is_an_error() {
    let mut p = parser(vec![kw(Keyword::TABLE), id("t"), id("frobnicate")]);
    match p.parse_alter_table().unwrap_err() {
        ParserError::UnexpectedToken { expected, .. } => assert_eq!(expected, "ALTER TABLE action"),
        other => panic!("unexpected {:?}", other),
    }
}
