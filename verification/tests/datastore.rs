use greener_admin::datastore::DatastoreKind;

#[test]
fn parse_reads_the_three_keywords() {
    assert_eq!(DatastoreKind::parse("postgres"), Some(DatastoreKind::Postgres));
    assert_eq!(DatastoreKind::parse("mysql"), Some(DatastoreKind::MySql));
    assert_eq!(DatastoreKind::parse("sqlite"), Some(DatastoreKind::Sqlite));
}

#[test]
fn parse_ignores_case() {
    assert_eq!(DatastoreKind::parse("POSTGRES"), Some(DatastoreKind::Postgres));
    assert_eq!(DatastoreKind::parse("Postgres"), Some(DatastoreKind::Postgres));
    assert_eq!(DatastoreKind::parse("MySQL"), Some(DatastoreKind::MySql));
    assert_eq!(DatastoreKind::parse("mYsQl"), Some(DatastoreKind::MySql));
    assert_eq!(DatastoreKind::parse("SQLite"), Some(DatastoreKind::Sqlite));
}

#[test]
fn parse_refuses_everything_else() {
    assert_eq!(DatastoreKind::parse(""), None);
    assert_eq!(DatastoreKind::parse("oracle"), None);
    assert_eq!(DatastoreKind::parse("postgresql"), None);
    assert_eq!(DatastoreKind::parse("sqlite3"), None);
    assert_eq!(DatastoreKind::parse("postgre"), None);
    assert_eq!(DatastoreKind::parse(" mysql"), None);
    assert_eq!(DatastoreKind::parse("mysql "), None);
    assert_eq!(DatastoreKind::parse("my sql"), None);
}

#[test]
fn parse_refuses_letters_outside_ascii() {
    assert_eq!(DatastoreKind::parse("sqlit\u{e9}"), None);
    assert_eq!(DatastoreKind::parse("SQL\u{130}TE"), None);
    assert_eq!(DatastoreKind::parse("my\u{17f}ql"), None);
    assert_eq!(DatastoreKind::parse("postgre\u{17f}"), None);
}

#[test]
fn parse_agrees_with_lowercasing() {
    let words = [
        "postgres", "POSTGRES", "PostGres", "mysql", "MYSQL", "sqlite", "SQLITE", "sqlite3",
        "postgresql", "SQL\u{130}TE", "my\u{17f}ql", "", "db2",
    ];
    for word in words {
        let lowered = word.to_lowercase();
        let expected = match lowered.as_str() {
            "postgres" => Some(DatastoreKind::Postgres),
            "mysql" => Some(DatastoreKind::MySql),
            "sqlite" => Some(DatastoreKind::Sqlite),
            _ => None,
        };
        assert_eq!(DatastoreKind::parse(word), expected);
    }
}

#[test]
fn keywords_parse_back_to_their_kind() {
    for kind in [DatastoreKind::Postgres, DatastoreKind::MySql, DatastoreKind::Sqlite] {
        assert_eq!(DatastoreKind::parse(kind.keyword()), Some(kind));
    }
    assert_eq!(DatastoreKind::Postgres.keyword(), "postgres");
    assert_eq!(DatastoreKind::MySql.keyword(), "mysql");
    assert_eq!(DatastoreKind::Sqlite.keyword(), "sqlite");
}

#[test]
fn names_are_the_engine_names() {
    assert_eq!(DatastoreKind::Postgres.name(), "Postgres");
    assert_eq!(DatastoreKind::MySql.name(), "MySql");
    assert_eq!(DatastoreKind::Sqlite.name(), "Sqlite");
}
