use greener_admin::migration::Migration;
use greener_admin::schema::{
    Column, ColumnId, ColumnType, ForeignKey, Index, ReferentialAction, Statement, Table, TableId,
};

fn tables(plan: &[Statement]) -> Vec<&Table> {
    let mut found = Vec::new();
    for statement in plan {
        if let Statement::CreateTable(table) = statement {
            found.push(table);
        }
    }
    found
}

fn indexes(plan: &[Statement]) -> Vec<Index> {
    let mut found = Vec::new();
    for statement in plan {
        if let Statement::CreateIndex(index) = statement {
            found.push(*index);
        }
    }
    found
}

fn table(plan: &[Statement], id: TableId) -> &Table {
    let found: Vec<&Table> = tables(plan).into_iter().filter(|table| table.id == id).collect();
    assert_eq!(found.len(), 1);
    found[0]
}

fn column_names(table: &Table) -> Vec<&'static str> {
    table.columns.iter().map(|column| column.id.name()).collect()
}

fn plain(id: ColumnId, ty: ColumnType, nullable: bool) -> Column {
    Column {
        id,
        ty,
        nullable,
        primary_key: false,
        auto_increment: false,
        default_current_timestamp: false,
    }
}

fn audit(id: ColumnId) -> Column {
    Column {
        default_current_timestamp: true,
        ..plain(id, ColumnType::TimestampWithTimeZone, false)
    }
}

fn owned_by(from_table: TableId, from_column: ColumnId, to_table: TableId) -> ForeignKey {
    ForeignKey {
        from_table,
        from_column,
        to_table,
        to_column: ColumnId::Id,
        on_delete: ReferentialAction::Cascade,
    }
}

#[test]
fn up_creates_five_tables_and_seven_indexes() {
    let plan = Migration.up();
    assert_eq!(plan.len(), 12);
    assert_eq!(tables(&plan).len(), 5);
    assert_eq!(indexes(&plan).len(), 7);
}

#[test]
fn up_orders_tables_and_indexes() {
    let plan = Migration.up();
    let mut steps = Vec::new();
    for statement in &plan {
        steps.push(match statement {
            Statement::CreateTable(table) => format!("table {}", table.id.name()),
            Statement::CreateIndex(index) => format!("index {}", index.name()),
        });
    }
    assert_eq!(
        steps,
        vec![
            "table users",
            "index ix_users_username",
            "table apikeys",
            "index ix_apikeys_user_id",
            "table sessions",
            "index ix_sessions_user_id",
            "table labels",
            "index ix_labels_session_id",
            "index ix_labels_user_id",
            "table testcases",
            "index ix_testcases_session_id",
            "index ix_testcases_user_id",
        ]
    );
}

#[test]
fn down_does_nothing() {
    assert_eq!(Migration.down(), Vec::<Statement>::new());
}

#[test]
fn users_table_holds_salt_and_hash() {
    let plan = Migration.up();
    let users = table(&plan, TableId::Users);
    assert_eq!(
        users.columns,
        vec![
            Column { primary_key: true, ..plain(ColumnId::Id, ColumnType::Uuid, false) },
            plain(ColumnId::Username, ColumnType::String, false),
            plain(ColumnId::PasswordSalt, ColumnType::Binary, false),
            plain(ColumnId::PasswordHash, ColumnType::Binary, false),
            audit(ColumnId::CreatedAt),
            audit(ColumnId::UpdatedAt),
        ]
    );
    assert_eq!(users.foreign_keys, vec![]);
}

#[test]
fn apikeys_table_belongs_to_users() {
    let plan = Migration.up();
    let apikeys = table(&plan, TableId::Apikeys);
    assert_eq!(
        apikeys.columns,
        vec![
            Column { primary_key: true, ..plain(ColumnId::Id, ColumnType::Uuid, false) },
            plain(ColumnId::Description, ColumnType::String, true),
            plain(ColumnId::SecretSalt, ColumnType::Binary, false),
            plain(ColumnId::SecretHash, ColumnType::Binary, false),
            audit(ColumnId::CreatedAt),
            audit(ColumnId::UpdatedAt),
            plain(ColumnId::UserId, ColumnType::Uuid, false),
        ]
    );
    assert_eq!(
        apikeys.foreign_keys,
        vec![owned_by(TableId::Apikeys, ColumnId::UserId, TableId::Users)]
    );
}

#[test]
fn sessions_table_belongs_to_users() {
    let plan = Migration.up();
    let sessions = table(&plan, TableId::Sessions);
    assert_eq!(
        column_names(sessions),
        vec!["id", "description", "baggage", "created_at", "updated_at", "user_id"]
    );
    assert_eq!(sessions.columns[2], plain(ColumnId::Baggage, ColumnType::Json, true));
    assert_eq!(
        sessions.foreign_keys,
        vec![owned_by(TableId::Sessions, ColumnId::UserId, TableId::Users)]
    );
}

#[test]
fn labels_table_is_numbered_and_owned_twice() {
    let plan = Migration.up();
    let labels = table(&plan, TableId::Labels);
    assert_eq!(
        labels.columns,
        vec![
            Column {
                primary_key: true,
                auto_increment: true,
                ..plain(ColumnId::Id, ColumnType::Integer, false)
            },
            plain(ColumnId::SessionId, ColumnType::Uuid, false),
            plain(ColumnId::Key, ColumnType::String, false),
            plain(ColumnId::Value, ColumnType::String, true),
            plain(ColumnId::UserId, ColumnType::Uuid, false),
            audit(ColumnId::CreatedAt),
            audit(ColumnId::UpdatedAt),
        ]
    );
    assert_eq!(
        labels.foreign_keys,
        vec![
            owned_by(TableId::Labels, ColumnId::SessionId, TableId::Sessions),
            owned_by(TableId::Labels, ColumnId::UserId, TableId::Users),
        ]
    );
}

#[test]
fn testcases_table_is_owned_twice() {
    let plan = Migration.up();
    let testcases = table(&plan, TableId::Testcases);
    assert_eq!(
        testcases.columns,
        vec![
            Column { primary_key: true, ..plain(ColumnId::Id, ColumnType::Uuid, false) },
            plain(ColumnId::SessionId, ColumnType::Uuid, false),
            plain(ColumnId::Name, ColumnType::String, false),
            plain(ColumnId::Classname, ColumnType::String, true),
            plain(ColumnId::File, ColumnType::String, true),
            plain(ColumnId::Testsuite, ColumnType::String, true),
            plain(ColumnId::Output, ColumnType::String, true),
            plain(ColumnId::Status, ColumnType::Integer, false),
            plain(ColumnId::Baggage, ColumnType::Json, true),
            audit(ColumnId::CreatedAt),
            audit(ColumnId::UpdatedAt),
            plain(ColumnId::UserId, ColumnType::Uuid, false),
        ]
    );
    assert_eq!(
        testcases.foreign_keys,
        vec![
            owned_by(TableId::Testcases, ColumnId::SessionId, TableId::Sessions),
            owned_by(TableId::Testcases, ColumnId::UserId, TableId::Users),
        ]
    );
}

#[test]
fn every_foreign_key_cascades_to_an_earlier_table() {
    let plan = Migration.up();
    let mut created: Vec<TableId> = Vec::new();
    let mut keys = 0;
    for statement in &plan {
        if let Statement::CreateTable(table) = statement {
            for key in &table.foreign_keys {
                assert_eq!(key.from_table, table.id);
                assert_eq!(key.to_column, ColumnId::Id);
                assert_eq!(key.on_delete, ReferentialAction::Cascade);
                assert!(created.contains(&key.to_table));
                assert!(table.columns.iter().any(|column| column.id == key.from_column));
                keys += 1;
            }
            assert!(!created.contains(&table.id));
            created.push(table.id);
        }
    }
    assert_eq!(keys, 6);
}

#[test]
fn every_index_follows_its_table() {
    let plan = Migration.up();
    let mut created: Vec<&Table> = Vec::new();
    for statement in &plan {
        match statement {
            Statement::CreateTable(table) => created.push(table),
            Statement::CreateIndex(index) => {
                let on = created.iter().find(|table| table.id == index.table).unwrap();
                assert!(on.columns.iter().any(|column| column.id == index.column));
            }
        }
    }
}

#[test]
fn every_ownership_column_is_indexed() {
    let plan = Migration.up();
    let indexed = indexes(&plan);
    assert!(indexed.contains(&Index { table: TableId::Users, column: ColumnId::Username }));
    for table in tables(&plan) {
        for key in &table.foreign_keys {
            assert!(indexed.contains(&Index { table: key.from_table, column: key.from_column }));
        }
    }
}

#[test]
fn every_table_has_audit_timestamps() {
    let plan = Migration.up();
    for table in tables(&plan) {
        assert!(table.columns.contains(&audit(ColumnId::CreatedAt)));
        assert!(table.columns.contains(&audit(ColumnId::UpdatedAt)));
        assert_eq!(table.columns[0].id, ColumnId::Id);
        assert!(table.columns[0].primary_key);
    }
}

#[test]
fn names_are_snake_case() {
    assert_eq!(TableId::Users.name(), "users");
    assert_eq!(TableId::Apikeys.name(), "apikeys");
    assert_eq!(TableId::Sessions.name(), "sessions");
    assert_eq!(TableId::Labels.name(), "labels");
    assert_eq!(TableId::Testcases.name(), "testcases");
    assert_eq!(ColumnId::PasswordSalt.name(), "password_salt");
    assert_eq!(ColumnId::PasswordHash.name(), "password_hash");
    assert_eq!(ColumnId::SecretSalt.name(), "secret_salt");
    assert_eq!(ColumnId::SecretHash.name(), "secret_hash");
    assert_eq!(ColumnId::SessionId.name(), "session_id");
    assert_eq!(ColumnId::UserId.name(), "user_id");
    assert_eq!(ColumnId::CreatedAt.name(), "created_at");
    assert_eq!(ColumnId::UpdatedAt.name(), "updated_at");
    assert_eq!(ColumnId::Classname.name(), "classname");
    assert_eq!(ColumnId::Testsuite.name(), "testsuite");
}

#[test]
fn index_names_join_table_and_column() {
    let index = Index { table: TableId::Testcases, column: ColumnId::SessionId };
    assert_eq!(index.name(), "ix_testcases_session_id");
}

#[test]
fn column_builders_set_one_property_each() {
    let column = Column::required(ColumnId::Name, ColumnType::String);
    assert_eq!(column, plain(ColumnId::Name, ColumnType::String, false));
    assert_eq!(
        Column::optional(ColumnId::Value, ColumnType::String),
        plain(ColumnId::Value, ColumnType::String, true)
    );
    assert_eq!(column.primary_key(), Column { primary_key: true, ..column });
    assert_eq!(column.auto_increment(), Column { auto_increment: true, ..column });
    assert_eq!(
        column.default_current_timestamp(),
        Column { default_current_timestamp: true, ..column }
    );
}

#[test]
fn table_builder_keeps_declaration_order() {
    let table = Table::create(TableId::Labels)
        .col(Column::required(ColumnId::Key, ColumnType::String))
        .foreign_key(ForeignKey::cascade(TableId::Labels, ColumnId::SessionId, TableId::Sessions))
        .col(Column::optional(ColumnId::Value, ColumnType::String));
    assert_eq!(table.id, TableId::Labels);
    assert_eq!(column_names(&table), vec!["key", "value"]);
    assert_eq!(
        table.foreign_keys,
        vec![owned_by(TableId::Labels, ColumnId::SessionId, TableId::Sessions)]
    );
}
