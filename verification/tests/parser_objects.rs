use ogsql_parser::ast::{AlterIndexAction, AlterSynonymAction, AlterViewAction, DmlPartitionClause, Expr, Literal, TypeKind};
use ogsql_parser::error::{ParserError, SourceLocation};
use ogsql_parser::parser::expr::format_data_type;
use ogsql_parser::parser::Parser;
use ogsql_parser::token::{Keyword, Token, TokenWithSpan};

fn parser(ts: Vec<Token>) -> Parser {
    let spans: Vec<TokenWithSpan> = ts
        .into_iter()
        .enumerate()
        .map(|(i, token)| TokenWithSpan { token, location: SourceLocation { line: 1, column: i + 1, offset: i } })
        .collect();
    Parser::new(spans)
}

fn id(s: &str) -> Token {
    Token::Ident(s.to_string())
}

fn kw(k: Keyword) -> Token {
    Token::Keyword(k)
}

fn lit(s: &str) -> Token {
    Token::StringLiteral(s.to_string())
}

fn pair(a: &str, b: &str) -> (String, String) {
    (a.to_string(), b.to_string())
}

#[test]
fn alter_index_rename_partition() {
    let mut p = parser(vec![
        kw(Keyword::INDEX),
        kw(Keyword::IF_P),
        kw(Keyword::EXISTS),
        id("s"),
        Token::Dot,
        id("idx"),
        kw(Keyword::RENAME),
        kw(Keyword::PARTITION),
        id("p1"),
        kw(Keyword::TO),
        id("p2"),
    ]);
    let a = p.parse_alter_index().unwrap();
    assert!(a.if_exists);
    assert_eq!(a.name, vec!["s".to_string(), "idx".to_string()]);
    match a.action {
        AlterIndexAction::RenamePartition { old_name, new_name } => {
            assert_eq!(old_name, "p1");
            assert_eq!(new_name, "p2");
        },
        other => panic!("unexpected {:?}", other),
    }
    assert_eq!(p.pos(), 11);
}

#[test]
fn alter_index_set_options_and_reset() {
    let mut p = parser(vec![
        kw(Keyword::INDEX),
        id("idx"),
        kw(Keyword::SET),
        Token::LParen,
        id("fillfactor"),
        Token::Eq,
        Token::Integer(70),
        Token::Comma,
        id("deduplicate"),
        Token::RParen,
    ]);
    match p.parse_alter_index().unwrap().action {
        AlterIndexAction::SetOptions(o) => assert_eq!(o, vec![pair("fillfactor", "70"), pair("deduplicate", "")]),
        other => panic!("unexpected {:?}", other),
    }
    assert_eq!(p.pos(), 10);

    let mut p = parser(vec![kw(Keyword::INDEX), id("idx"), kw(Keyword::RESET), Token::LParen, id("a"), Token::Comma, id("b"), Token::RParen]);
    match p.parse_alter_index().unwrap().action {
        AlterIndexAction::Reset(v) => assert_eq!(v, vec!["a".to_string(), "b".to_string()]),
        other => panic!("unexpected {:?}", other),
    }
}

#[test]
fn alter_index_move_rebuild_and_storage() {
    let mut p = parser(vec![
        kw(Keyword::INDEX),
        id("idx"),
        kw(Keyword::MOVE),
        kw(Keyword::PARTITION),
        id("p"),
        kw(Keyword::TABLESPACE),
        id("ts"),
    ]);
    match p.parse_alter_index().unwrap().action {
        AlterIndexAction::MovePartition { partition_name, tablespace } => {
            assert_eq!(partition_name, "p");
            assert_eq!(tablespace, Some("ts".to_string()));
        },
        other => panic!("unexpected {:?}", other),
    }
    let mut p = parser(vec![kw(Keyword::INDEX), id("idx"), id("rebuild")]);
    assert!(matches!(p.parse_alter_index().unwrap().action, AlterIndexAction::Rebuild));
    let mut p = parser(vec![kw(Keyword::INDEX), id("idx"), kw(Keyword::PCTFREE), Token::Integer(10), kw(Keyword::INITRANS), Token::Integer(2)]);
    assert!(matches!(p.parse_alter_index().unwrap().action, AlterIndexAction::NoOp));
    assert_eq!(p.pos(), 6);
    let mut p = parser(vec![kw(Keyword::INDEX), id("idx"), kw(Keyword::MOVE), id("p")]);
    match p.parse_alter_index().unwrap_err() {
        ParserError::UnexpectedToken { expected, .. } => assert_eq!(expected, "PARTITION"),
        other => panic!("unexpected {:?}", other),
    }
}

#[test]
fn alter_view_actions() {
    let mut p = parser(vec![kw(Keyword::VIEW), kw(Keyword::IF_P), kw(Keyword::EXISTS), id("v"), kw(Keyword::OWNER), kw(Keyword::TO), id("bob")]);
    let a = p.parse_alter_view().unwrap();
    assert_eq!(a.name, vec!["v".to_string()]);
    match a.action {
        AlterViewAction::OwnerTo(o) => assert_eq!(o, "bob"),
        other => panic!("unexpected {:?}", other),
    }
    let mut p = parser(vec![
        kw(Keyword::VIEW),
        id("v"),
        kw(Keyword::ALTER),
        kw(Keyword::COLUMN),
        id("c"),
        kw(Keyword::SET),
        kw(Keyword::DEFAULT),
        Token::Integer(5),
        Token::Semicolon,
    ]);
    match p.parse_alter_view().unwrap().action {
        AlterViewAction::AlterColumnDefault { column, set_default } => {
            assert_eq!(column, "c");
            assert_eq!(set_default, Some("5".to_string()));
        },
        other => panic!("unexpected {:?}", other),
    }
    assert_eq!(p.pos(), 8);
    let mut p = parser(vec![kw(Keyword::VIEW), id("v"), kw(Keyword::SET), kw(Keyword::WITH), Token::LParen, id("check_option"), Token::Eq, lit("local"), Token::RParen]);
    match p.parse_alter_view().unwrap().action {
        AlterViewAction::SetOptions(o) => assert_eq!(o, vec![pair("check_option", "local")]),
        other => panic!("unexpected {:?}", other),
    }
    let mut p = parser(vec![kw(Keyword::VIEW), id("v"), kw(Keyword::DROP)]);
    match p.parse_alter_view().unwrap_err() {
        ParserError::UnexpectedToken { expected, .. } => assert_eq!(expected, "RENAME, SET, RESET, OWNER, or ALTER COLUMN"),
        other => panic!("unexpected {:?}", other),
    }
}

#[test]
fn create_type_kinds() {
    let mut p = parser(vec![
        kw(Keyword::TYPE_P),
        id("mood"),
        kw(Keyword::AS),
        kw(Keyword::ENUM_P),
        Token::LParen,
        lit("sad"),
        Token::Comma,
        lit("happy"),
        Token::RParen,
    ]);
    let t = p.parse_create_type().unwrap();
    assert_eq!(t.name, vec!["mood".to_string()]);
    match t.type_kind {
        TypeKind::Enum { labels } => assert_eq!(labels, vec!["sad".to_string(), "happy".to_string()]),
        other => panic!("unexpected {:?}", other),
    }
    let mut p = parser(vec![
        kw(Keyword::TYPE_P),
        id("pt"),
        kw(Keyword::AS),
        Token::LParen,
        id("x"),
        kw(Keyword::INTEGER),
        Token::Comma,
        id("y"),
        kw(Keyword::TEXT_P),
        Token::RParen,
    ]);
    match p.parse_create_type().unwrap().type_kind {
        TypeKind::Composite { attributes } => {
            assert_eq!(attributes.len(), 2);
            assert_eq!(attributes[1].name, "y");
            assert_eq!(format_data_type(&attributes[1].data_type), "text");
        },
        other => panic!("unexpected {:?}", other),
    }
    let mut p = parser(vec![kw(Keyword::TYPE_P), id("arr"), kw(Keyword::IS), kw(Keyword::TABLE), kw(Keyword::OF), kw(Keyword::BIGINT)]);
    match p.parse_create_type().unwrap().type_kind {
        TypeKind::Table { element_type } => assert_eq!(element_type, "bigint"),
        other => panic!("unexpected {:?}", other),
    }
    let mut p = parser(vec![kw(Keyword::TYPE_P), id("shell")]);
    assert!(matches!(p.parse_create_type().unwrap().type_kind, TypeKind::Shell));
    let mut p = parser(vec![kw(Keyword::TYPE_P), id("r"), kw(Keyword::AS), kw(Keyword::RANGE), Token::LParen, id("subtype"), Token::Eq, kw(Keyword::INTEGER), Token::RParen]);
    match p.parse_create_type().unwrap().type_kind {
        TypeKind::Range { options } => assert_eq!(options, vec![pair("subtype", "INTEGER")]),
        other => panic!("unexpected {:?}", other),
    }
    let mut p = parser(vec![kw(Keyword::TYPE_P), id("bad"), kw(Keyword::AS), Token::Integer(1)]);
    match p.parse_create_type().unwrap_err() {
        ParserError::UnexpectedToken { expected, .. } => assert_eq!(expected, "ENUM, TABLE OF, RANGE, or ("),
        other => panic!("unexpected {:?}", other),
    }
    let mut p = parser(vec![kw(Keyword::TYPE_P), id("e"), kw(Keyword::AS), kw(Keyword::ENUM_P), Token::LParen, id("x"), Token::RParen]);
    match p.parse_create_type().unwrap_err() {
        ParserError::UnexpectedToken { expected, .. } => assert_eq!(expected, "string literal"),
        other => panic!("unexpected {:?}", other),
    }
}

#[test]
fn create_conversion_synonym_am_directory() {
    let mut p = parser(vec![
        kw(Keyword::CONVERSION_P),
        id("c"),
        kw(Keyword::FOR),
        lit("UTF8"),
        kw(Keyword::TO),
        id("latin1"),
        kw(Keyword::FROM),
        id("f"),
        Token::Semicolon,
    ]);
    let c = p.parse_create_conversion().unwrap();
    assert_eq!((c.name.as_str(), c.source_encoding.as_str(), c.dest_encoding.as_str(), c.function_name.as_str()), ("c", "UTF8", "latin1", "f"));
    assert_eq!(p.pos(), 9);

    let mut p = parser(vec![kw(Keyword::SYNONYM), id("s"), kw(Keyword::FOR), id("a"), Token::Dot, id("t"), id("public")]);
    let s = p.parse_create_synonym(true).unwrap();
    assert!(s.replace);
    assert!(s.public);
    assert_eq!(s.target, vec!["a".to_string(), "t".to_string()]);

    let mut p = parser(vec![kw(Keyword::ACCESS), kw(Keyword::METHOD), id("m"), kw(Keyword::TYPE_P), id("index"), kw(Keyword::HANDLER), id("h")]);
    let a = p.parse_create_am().unwrap();
    assert_eq!((a.name.as_str(), a.method.as_str(), a.handler.as_str()), ("m", "index", "h"));

    let mut p = parser(vec![kw(Keyword::DIRECTORY), id("d"), kw(Keyword::AS), lit("/tmp/x")]);
    let d = p.parse_create_directory().unwrap();
    assert_eq!(d.path, "/tmp/x");
    let mut p = parser(vec![kw(Keyword::DIRECTORY), id("d")]);
    assert_eq!(p.parse_create_directory().unwrap().path, "");
}

#[test]
fn operator_families_and_text_kept_statements() {
    let mut p = parser(vec![kw(Keyword::FAMILY), id("f"), kw(Keyword::USING), id("btree"), Token::Semicolon]);
    let f = p.parse_create_opfamily().unwrap();
    assert_eq!((f.name.as_str(), f.method.as_str()), ("f", "btree"));
    assert_eq!(p.pos(), 5);

    let mut p = parser(vec![id("f"), kw(Keyword::USING), id("hash"), kw(Keyword::ADD_P), id("x"), Token::Semicolon]);
    let a = p.parse_alter_opfamily().unwrap();
    assert_eq!(a.method, "hash");
    assert_eq!(a.raw_rest, "ADD x");
    assert_eq!(p.pos(), 5);

    let mut p = parser(vec![id("srv"), kw(Keyword::OWNER), kw(Keyword::TO), id("bob")]);
    let s = p.parse_alter_foreign_server().unwrap();
    assert_eq!(s.name, "srv");
    assert_eq!(s.raw_rest, "OWNER TO bob");

    let mut p = parser(vec![kw(Keyword::STREAM), id("s"), Token::LParen, id("a"), kw(Keyword::INT_P), Token::RParen]);
    assert_eq!(p.parse_create_stream().unwrap().raw_rest, "s ( a INT )");

    let mut p = parser(vec![kw(Keyword::MODEL), id("m"), kw(Keyword::USING), lit("x")]);
    let m = p.parse_create_model().unwrap();
    assert_eq!(m.name, "m");
    assert_eq!(m.raw_rest, "USING 'x'");
}

#[test]
fn alter_text_search_dictionary_options() {
    let mut p = parser(vec![id("d"), Token::LParen, id("stopwords"), Token::Eq, id("english"), Token::Comma, id("x"), Token::Eq, id("y"), Token::RParen]);
    let d = p.parse_alter_text_search_dict().unwrap();
    assert_eq!(d.options, vec![pair("stopwords", "english"), pair("x", "y")]);
    assert_eq!(p.pos(), 10);
    let mut p = parser(vec![id("d"), Token::LParen, id("a"), id("b")]);
    match p.parse_alter_text_search_dict().unwrap_err() {
        ParserError::UnexpectedToken { expected, .. } => assert_eq!(expected, "="),
        other => panic!("unexpected {:?}", other),
    }
}

#[test]
fn alter_synonym_actions() {
    let mut p = parser(vec![id("s"), kw(Keyword::COMPILE), id("debug")]);
    match p.parse_alter_synonym().unwrap().action {
        AlterSynonymAction::Compile { debug } => assert!(debug),
        other => panic!("unexpected {:?}", other),
    }
    let mut p = parser(vec![id("s"), kw(Keyword::OWNER), kw(Keyword::TO), id("u")]);
    match p.parse_alter_synonym().unwrap().action {
        AlterSynonymAction::OwnerTo { new_owner } => assert_eq!(new_owner, "u"),
        other => panic!("unexpected {:?}", other),
    }
    let mut p = parser(vec![id("s"), id("foo"), id("bar"), Token::Semicolon]);
    match p.parse_alter_synonym().unwrap_err() {
        ParserError::UnexpectedToken { expected, got, location } => {
            assert_eq!(expected, "COMPILE or OWNER after ALTER SYNONYM name");
            assert_eq!(got, "foo bar");
            assert_eq!(location.column, 4);
        },
        other => panic!("unexpected {:?}", other),
    }
}

#[test]
fn dml_partition_clauses() {
    let mut p = parser(vec![kw(Keyword::PARTITION), Token::LParen, id("p1"), Token::Comma, id("p2"), Token::RParen]);
    match p.parse_dml_partition().unwrap() {
        Some(DmlPartitionClause::Partition(v)) => assert_eq!(v, vec!["p1".to_string(), "p2".to_string()]),
        other => panic!("unexpected {:?}", other),
    }
    assert_eq!(p.pos(), 6);
    let mut p = parser(vec![kw(Keyword::SUBPARTITION), kw(Keyword::FOR), Token::LParen, Token::Integer(1), Token::Comma, Token::Integer(2), Token::RParen]);
    match p.parse_dml_partition().unwrap() {
        Some(DmlPartitionClause::SubpartitionFor(v)) => assert_eq!(v.len(), 2),
        other => panic!("unexpected {:?}", other),
    }
    let mut p = parser(vec![id("t")]);
    assert!(p.parse_dml_partition().unwrap().is_none());
    assert_eq!(p.pos(), 0);
    let mut p = parser(vec![kw(Keyword::PARTITION), id("p")]);
    match p.parse_dml_partition().unwrap_err() {
        ParserError::UnexpectedToken { expected, .. } => assert_eq!(expected, "("),
        other => panic!("unexpected {:?}", other),
    }
}

#[test]
fn validate_function_args_uses_last_segment() {
    let mut p = parser(vec![]);
    let name = vec!["pkg".to_string(), "now".to_string()];
    let args = vec![Expr::Literal(Literal::Integer(1))];
    p.validate_function_args(&name, &args, false, &None);
    let msgs: Vec<String> = p
        .errors()
        .iter()
        .map(|e| match e {
            ParserError::Warning { message, .. } => message.clone(),
            _ => String::new(),
        })
        .collect();
    assert_eq!(msgs, vec!["Function 'now' takes no arguments but 1 were provided".to_string()]);
    let mut q = parser(vec![]);
    q.validate_function_args(&Vec::new(), &args, true, &None);
    assert!(q.errors().is_empty());
}
