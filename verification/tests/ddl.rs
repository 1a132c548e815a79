use greener_admin::migration::Migration;
use greener_admin::schema::{Column, ColumnType, ReferentialAction, Statement};
use sea_orm_migration::schema::{
    binary, integer, json_null, pk_auto, string, string_null, timestamp_with_time_zone, uuid,
};
use sea_orm_migration::sea_query::{
    Alias, ColumnDef, Expr, ForeignKey, ForeignKeyAction, ForeignKeyCreateStatement, Index,
    IndexCreateStatement, MysqlQueryBuilder, PostgresQueryBuilder, SqliteQueryBuilder, Table,
    TableCreateStatement,
};

fn name(text: &str) -> Alias {
    Alias::new(text)
}

fn column_def(column: &Column) -> ColumnDef {
    let mut def = ColumnDef::new(name(column.id.name()));
    match column.ty {
        ColumnType::Uuid => def.uuid(),
        ColumnType::String => def.string(),
        ColumnType::Binary => def.binary(),
        ColumnType::Json => def.json(),
        ColumnType::Integer => def.integer(),
        ColumnType::TimestampWithTimeZone => def.timestamp_with_time_zone(),
    };
    if column.nullable {
        def.null();
    } else {
        def.not_null();
    }
    if column.auto_increment {
        def.auto_increment();
    }
    if column.primary_key {
        def.primary_key();
    }
    if column.default_current_timestamp {
        def.default(Expr::current_timestamp());
    }
    def
}

fn action(on_delete: ReferentialAction) -> ForeignKeyAction {
    match on_delete {
        ReferentialAction::Restrict => ForeignKeyAction::Restrict,
        ReferentialAction::Cascade => ForeignKeyAction::Cascade,
        ReferentialAction::SetNull => ForeignKeyAction::SetNull,
        ReferentialAction::NoAction => ForeignKeyAction::NoAction,
        ReferentialAction::SetDefault => ForeignKeyAction::SetDefault,
    }
}

fn render_table(statement: &TableCreateStatement) -> Vec<String> {
    vec![
        statement.to_string(PostgresQueryBuilder),
        statement.to_string(MysqlQueryBuilder),
        statement.to_string(SqliteQueryBuilder),
    ]
}

fn render_index(statement: &IndexCreateStatement) -> Vec<String> {
    vec![
        statement.to_string(PostgresQueryBuilder),
        statement.to_string(MysqlQueryBuilder),
        statement.to_string(SqliteQueryBuilder),
    ]
}

fn rendered(plan: &[Statement]) -> Vec<Vec<String>> {
    let mut all = Vec::new();
    for statement in plan {
        match statement {
            Statement::CreateTable(table) => {
                let mut create = Table::create();
                create.table(name(table.id.name()));
                for column in &table.columns {
                    create.col(column_def(column));
                }
                for key in &table.foreign_keys {
                    create.foreign_key(
                        ForeignKey::create()
                            .from(name(key.from_table.name()), name(key.from_column.name()))
                            .to(name(key.to_table.name()), name(key.to_column.name()))
                            .on_delete(action(key.on_delete)),
                    );
                }
                all.push(render_table(&create));
            }
            Statement::CreateIndex(index) => {
                let create = Index::create()
                    .name(index.name())
                    .table(name(index.table.name()))
                    .col(name(index.column.name()))
                    .to_owned();
                all.push(render_index(&create));
            }
        }
    }
    all
}

fn stamp(column: &str) -> ColumnDef {
    timestamp_with_time_zone(name(column)).default(Expr::current_timestamp()).to_owned()
}

fn owner(table: &str, column: &str, parent: &str) -> ForeignKeyCreateStatement {
    ForeignKey::create()
        .from(name(table), name(column))
        .to(name(parent), name("id"))
        .on_delete(ForeignKeyAction::Cascade)
        .to_owned()
}

fn index(index_name: &str, table: &str, column: &str) -> Vec<String> {
    render_index(Index::create().name(index_name).table(name(table)).col(name(column)))
}

#[test]
fn plan_renders_as_the_hand_built_statements() {
    let expected = vec![
        render_table(
            Table::create()
                .table(name("users"))
                .col(uuid(name("id")).primary_key())
                .col(string(name("username")))
                .col(binary(name("password_salt")))
                .col(binary(name("password_hash")))
                .col(stamp("created_at"))
                .col(stamp("updated_at")),
        ),
        index("ix_users_username", "users", "username"),
        render_table(
            Table::create()
                .table(name("apikeys"))
                .col(uuid(name("id")).primary_key())
                .col(string_null(name("description")))
                .col(binary(name("secret_salt")))
                .col(binary(name("secret_hash")))
                .col(stamp("created_at"))
                .col(stamp("updated_at"))
                .col(uuid(name("user_id")))
                .foreign_key(&mut owner("apikeys", "user_id", "users")),
        ),
        index("ix_apikeys_user_id", "apikeys", "user_id"),
        render_table(
            Table::create()
                .table(name("sessions"))
                .col(uuid(name("id")).primary_key())
                .col(string_null(name("description")))
                .col(json_null(name("baggage")))
                .col(stamp("created_at"))
                .col(stamp("updated_at"))
                .col(uuid(name("user_id")))
                .foreign_key(&mut owner("sessions", "user_id", "users")),
        ),
        index("ix_sessions_user_id", "sessions", "user_id"),
        render_table(
            Table::create()
                .table(name("labels"))
                .col(pk_auto(name("id")))
                .col(uuid(name("session_id")))
                .col(string(name("key")))
                .col(string_null(name("value")))
                .col(uuid(name("user_id")))
                .col(stamp("created_at"))
                .col(stamp("updated_at"))
                .foreign_key(&mut owner("labels", "session_id", "sessions"))
                .foreign_key(&mut owner("labels", "user_id", "users")),
        ),
        index("ix_labels_session_id", "labels", "session_id"),
        index("ix_labels_user_id", "labels", "user_id"),
        render_table(
            Table::create()
                .table(name("testcases"))
                .col(uuid(name("id")).primary_key())
                .col(uuid(name("session_id")))
                .col(string(name("name")))
                .col(string_null(name("classname")))
                .col(string_null(name("file")))
                .col(string_null(name("testsuite")))
                .col(string_null(name("output")))
                .col(integer(name("status")))
                .col(json_null(name("baggage")))
                .col(stamp("created_at"))
                .col(stamp("updated_at"))
                .col(uuid(name("user_id")))
                .foreign_key(&mut owner("testcases", "session_id", "sessions"))
                .foreign_key(&mut owner("testcases", "user_id", "users")),
        ),
        index("ix_testcases_session_id", "testcases", "session_id"),
        index("ix_testcases_user_id", "testcases", "user_id"),
    ];
    let actual = rendered(&Migration.up());
    assert_eq!(actual.len(), expected.len());
    for (got, wanted) in actual.iter().zip(expected.iter()) {
        assert_eq!(got, wanted);
    }
}

#[test]
fn users_table_renders_for_sqlite() {
    let plan = Migration.up();
    let statements = rendered(&plan[..1]);
    assert_eq!(
        statements[0][2],
        "CREATE TABLE \"users\" ( \
         \"id\" uuid_text NOT NULL PRIMARY KEY, \
         \"username\" varchar NOT NULL, \
         \"password_salt\" blob(1) NOT NULL, \
         \"password_hash\" blob(1) NOT NULL, \
         \"created_at\" timestamp_with_timezone_text NOT NULL DEFAULT CURRENT_TIMESTAMP, \
         \"updated_at\" timestamp_with_timezone_text NOT NULL DEFAULT CURRENT_TIMESTAMP )"
    );
}
