//! The initial migration: the statements that create the five tables and
//! their indexes, and what the resulting schema guarantees.

use crate::schema::{
    plan_view, Column, ColumnId, ColumnType, ForeignKey, Index, ReferentialAction, Statement,
    StatementView, Table, TableId, TableView,
};
use vstd::prelude::*;

verus! {

/// The migration that creates the schema.
#[derive(Clone, Copy, Debug, Default)]
pub struct Migration;

/// A primary-key column of type `ty`.
pub open spec fn key_column(ty: ColumnType) -> Column {
    Column { primary_key: true, ..Column::plain(ColumnId::Id, ty, false) }
}

/// An audit timestamp: required, defaulting to the time of insertion.
pub open spec fn audit_column(id: ColumnId) -> Column {
    Column {
        default_current_timestamp: true,
        ..Column::plain(id, ColumnType::TimestampWithTimeZone, false)
    }
}

/// A required reference to the `id` of a row of another table.
pub open spec fn reference_column(id: ColumnId) -> Column {
    Column::plain(id, ColumnType::Uuid, false)
}

/// The table of principals.
pub open spec fn users_table() -> TableView {
    TableView {
        id: TableId::Users,
        columns: seq![
            key_column(ColumnType::Uuid),
            Column::plain(ColumnId::Username, ColumnType::String, false),
            Column::plain(ColumnId::PasswordSalt, ColumnType::Binary, false),
            Column::plain(ColumnId::PasswordHash, ColumnType::Binary, false),
            audit_column(ColumnId::CreatedAt),
            audit_column(ColumnId::UpdatedAt),
        ],
        foreign_keys: Seq::empty(),
    }
}

/// The table of API keys, each owned by a user.
pub open spec fn apikeys_table() -> TableView {
    TableView {
        id: TableId::Apikeys,
        columns: seq![
            key_column(ColumnType::Uuid),
            Column::plain(ColumnId::Description, ColumnType::String, true),
            Column::plain(ColumnId::SecretSalt, ColumnType::Binary, false),
            Column::plain(ColumnId::SecretHash, ColumnType::Binary, false),
            audit_column(ColumnId::CreatedAt),
            audit_column(ColumnId::UpdatedAt),
            reference_column(ColumnId::UserId),
        ],
        foreign_keys: seq![
            ForeignKey::owned_by(TableId::Apikeys, ColumnId::UserId, TableId::Users),
        ],
    }
}

/// The table of sessions, each owned by a user.
pub open spec fn sessions_table() -> TableView {
    TableView {
        id: TableId::Sessions,
        columns: seq![
            key_column(ColumnType::Uuid),
            Column::plain(ColumnId::Description, ColumnType::String, true),
            Column::plain(ColumnId::Baggage, ColumnType::Json, true),
            audit_column(ColumnId::CreatedAt),
            audit_column(ColumnId::UpdatedAt),
            reference_column(ColumnId::UserId),
        ],
        foreign_keys: seq![
            ForeignKey::owned_by(TableId::Sessions, ColumnId::UserId, TableId::Users),
        ],
    }
}

/// The table of labels, each owned by a session and by that session's user.
pub open spec fn labels_table() -> TableView {
    TableView {
        id: TableId::Labels,
        columns: seq![
            Column { auto_increment: true, ..key_column(ColumnType::Integer) },
            reference_column(ColumnId::SessionId),
            Column::plain(ColumnId::Key, ColumnType::String, false),
            Column::plain(ColumnId::Value, ColumnType::String, true),
            reference_column(ColumnId::UserId),
            audit_column(ColumnId::CreatedAt),
            audit_column(ColumnId::UpdatedAt),
        ],
        foreign_keys: seq![
            ForeignKey::owned_by(TableId::Labels, ColumnId::SessionId, TableId::Sessions),
            ForeignKey::owned_by(TableId::Labels, ColumnId::UserId, TableId::Users),
        ],
    }
}

/// The table of test cases, each owned by a session and by that session's
/// user.
pub open spec fn testcases_table() -> TableView {
    TableView {
        id: TableId::Testcases,
        columns: seq![
            key_column(ColumnType::Uuid),
            reference_column(ColumnId::SessionId),
            Column::plain(ColumnId::Name, ColumnType::String, false),
            Column::plain(ColumnId::Classname, ColumnType::String, true),
            Column::plain(ColumnId::File, ColumnType::String, true),
            Column::plain(ColumnId::Testsuite, ColumnType::String, true),
            Column::plain(ColumnId::Output, ColumnType::String, true),
            Column::plain(ColumnId::Status, ColumnType::Integer, false),
            Column::plain(ColumnId::Baggage, ColumnType::Json, true),
            audit_column(ColumnId::CreatedAt),
            audit_column(ColumnId::UpdatedAt),
            reference_column(ColumnId::UserId),
        ],
        foreign_keys: seq![
            ForeignKey::owned_by(TableId::Testcases, ColumnId::SessionId, TableId::Sessions),
            ForeignKey::owned_by(TableId::Testcases, ColumnId::UserId, TableId::Users),
        ],
    }
}

/// The statement that creates an index on `column` of `table`.
pub open spec fn index_on(table: TableId, column: ColumnId) -> StatementView {
    StatementView::CreateIndex(Index { table, column })
}

/// The statements of the initial migration, in the order of application:
/// each table is followed by its indexes and precedes the tables that
/// reference it.
pub open spec fn initial_plan() -> Seq<StatementView> {
    seq![
        StatementView::CreateTable(users_table()),
        index_on(TableId::Users, ColumnId::Username),
        StatementView::CreateTable(apikeys_table()),
        index_on(TableId::Apikeys, ColumnId::UserId),
        StatementView::CreateTable(sessions_table()),
        index_on(TableId::Sessions, ColumnId::UserId),
        StatementView::CreateTable(labels_table()),
        index_on(TableId::Labels, ColumnId::SessionId),
        index_on(TableId::Labels, ColumnId::UserId),
        StatementView::CreateTable(testcases_table()),
        index_on(TableId::Testcases, ColumnId::SessionId),
        index_on(TableId::Testcases, ColumnId::UserId),
    ]
}

fn primary_key(ty: ColumnType) -> (column: Column)
    ensures
        column == key_column(ty),
{
    Column::required(ColumnId::Id, ty).primary_key()
}

fn audit(id: ColumnId) -> (column: Column)
    ensures
        column == audit_column(id),
{
    Column::required(id, ColumnType::TimestampWithTimeZone).default_current_timestamp()
}

fn reference(id: ColumnId) -> (column: Column)
    ensures
        column == reference_column(id),
{
    Column::required(id, ColumnType::Uuid)
}

fn create_users() -> (table: Table)
    ensures
        table@ == users_table(),
{
    let table = Table::create(TableId::Users)
        .col(primary_key(ColumnType::Uuid))
        .col(Column::required(ColumnId::Username, ColumnType::String))
        .col(Column::required(ColumnId::PasswordSalt, ColumnType::Binary))
        .col(Column::required(ColumnId::PasswordHash, ColumnType::Binary))
        .col(audit(ColumnId::CreatedAt))
        .col(audit(ColumnId::UpdatedAt));
    assert(table@.columns =~= users_table().columns);
    assert(table@.foreign_keys =~= users_table().foreign_keys);
    table
}

fn create_apikeys() -> (table: Table)
    ensures
        table@ == apikeys_table(),
{
    let table = Table::create(TableId::Apikeys)
        .col(primary_key(ColumnType::Uuid))
        .col(Column::optional(ColumnId::Description, ColumnType::String))
        .col(Column::required(ColumnId::SecretSalt, ColumnType::Binary))
        .col(Column::required(ColumnId::SecretHash, ColumnType::Binary))
        .col(audit(ColumnId::CreatedAt))
        .col(audit(ColumnId::UpdatedAt))
        .col(reference(ColumnId::UserId))
        .foreign_key(ForeignKey::cascade(TableId::Apikeys, ColumnId::UserId, TableId::Users));
    assert(table@.columns =~= apikeys_table().columns);
    assert(table@.foreign_keys =~= apikeys_table().foreign_keys);
    table
}

fn create_sessions() -> (table: Table)
    ensures
        table@ == sessions_table(),
{
    let table = Table::create(TableId::Sessions)
        .col(primary_key(ColumnType::Uuid))
        .col(Column::optional(ColumnId::Description, ColumnType::String))
        .col(Column::optional(ColumnId::Baggage, ColumnType::Json))
        .col(audit(ColumnId::CreatedAt))
        .col(audit(ColumnId::UpdatedAt))
        .col(reference(ColumnId::UserId))
        .foreign_key(ForeignKey::cascade(TableId::Sessions, ColumnId::UserId, TableId::Users));
    assert(table@.columns =~= sessions_table().columns);
    assert(table@.foreign_keys =~= sessions_table().foreign_keys);
    table
}

fn create_labels() -> (table: Table)
    ensures
        table@ == labels_table(),
{
    let table = Table::create(TableId::Labels)
        .col(primary_key(ColumnType::Integer).auto_increment())
        .col(reference(ColumnId::SessionId))
        .col(Column::required(ColumnId::Key, ColumnType::String))
        .col(Column::optional(ColumnId::Value, ColumnType::String))
        .col(reference(ColumnId::UserId))
        .col(audit(ColumnId::CreatedAt))
        .col(audit(ColumnId::UpdatedAt))
        .foreign_key(ForeignKey::cascade(TableId::Labels, ColumnId::SessionId, TableId::Sessions))
        .foreign_key(ForeignKey::cascade(TableId::Labels, ColumnId::UserId, TableId::Users));
    assert(table@.columns =~= labels_table().columns);
    assert(table@.foreign_keys =~= labels_table().foreign_keys);
    table
}

fn create_testcases() -> (table: Table)
    ensures
        table@ == testcases_table(),
{
    let table = Table::create(TableId::Testcases)
        .col(primary_key(ColumnType::Uuid))
        .col(reference(ColumnId::SessionId))
        .col(Column::required(ColumnId::Name, ColumnType::String))
        .col(Column::optional(ColumnId::Classname, ColumnType::String))
        .col(Column::optional(ColumnId::File, ColumnType::String))
        .col(Column::optional(ColumnId::Testsuite, ColumnType::String))
        .col(Column::optional(ColumnId::Output, ColumnType::String))
        .col(Column::required(ColumnId::Status, ColumnType::Integer))
        .col(Column::optional(ColumnId::Baggage, ColumnType::Json))
        .col(audit(ColumnId::CreatedAt))
        .col(audit(ColumnId::UpdatedAt))
        .col(reference(ColumnId::UserId))
        .foreign_key(
            ForeignKey::cascade(TableId::Testcases, ColumnId::SessionId, TableId::Sessions),
        )
        .foreign_key(ForeignKey::cascade(TableId::Testcases, ColumnId::UserId, TableId::Users));
    assert(table@.columns =~= testcases_table().columns);
    assert(table@.foreign_keys =~= testcases_table().foreign_keys);
    table
}

fn index(table: TableId, column: ColumnId) -> (statement: Statement)
    ensures
        statement@ == index_on(table, column),
{
    Statement::CreateIndex(Index { table, column })
}

impl Migration {
    /// The statements that create the schema, to be applied in order. The
    /// first one that the datastore refuses ends the migration.
    pub fn up(&self) -> (plan: Vec<Statement>)
        ensures
            plan_view(plan@) == initial_plan(),
    {
        let mut plan: Vec<Statement> = Vec::new();
        plan.push(Statement::CreateTable(create_users()));
        plan.push(index(TableId::Users, ColumnId::Username));
        plan.push(Statement::CreateTable(create_apikeys()));
        plan.push(index(TableId::Apikeys, ColumnId::UserId));
        plan.push(Statement::CreateTable(create_sessions()));
        plan.push(index(TableId::Sessions, ColumnId::UserId));
        plan.push(Statement::CreateTable(create_labels()));
        plan.push(index(TableId::Labels, ColumnId::SessionId));
        plan.push(index(TableId::Labels, ColumnId::UserId));
        plan.push(Statement::CreateTable(create_testcases()));
        plan.push(index(TableId::Testcases, ColumnId::SessionId));
        plan.push(index(TableId::Testcases, ColumnId::UserId));
        assert(plan_view(plan@) =~= initial_plan());
        plan
    }

    /// The statements that undo the migration: none, the schema stays.
    pub fn down(&self) -> (plan: Vec<Statement>)
        ensures
            plan_view(plan@) == Seq::<StatementView>::empty(),
    {
        let plan: Vec<Statement> = Vec::new();
        assert(plan_view(plan@) =~= Seq::<StatementView>::empty());
        plan
    }
}

/// The table that statement `j` of `plan` creates, if it creates one.
pub open spec fn table_at(plan: Seq<StatementView>, j: int) -> Option<TableView> {
    if 0 <= j < plan.len() {
        match plan[j] {
            StatementView::CreateTable(table) => Some(table),
            StatementView::CreateIndex(_) => None,
        }
    } else {
        None
    }
}

/// Column `p` of the table that statement `j` of `plan` creates.
pub open spec fn column_at(plan: Seq<StatementView>, j: int, p: int) -> Option<Column> {
    match table_at(plan, j) {
        Some(table) => if 0 <= p < table.columns.len() {
            Some(table.columns[p])
        } else {
            None
        },
        None => None,
    }
}

/// Foreign key `k` of the table that statement `j` of `plan` creates.
pub open spec fn foreign_key_at(plan: Seq<StatementView>, j: int, k: int) -> Option<ForeignKey> {
    match table_at(plan, j) {
        Some(table) => if 0 <= k < table.foreign_keys.len() {
            Some(table.foreign_keys[k])
        } else {
            None
        },
        None => None,
    }
}

/// Whether one of the first `i` statements of `plan` creates `table` with a
/// column `column`.
pub open spec fn declared_before(
    plan: Seq<StatementView>,
    i: int,
    table: TableId,
    column: Column,
) -> bool {
    exists|j: int, p: int|
        0 <= j < i && table_at(plan, j) is Some && table_at(plan, j)->0.id == table
            && #[trigger] column_at(plan, j, p) == Some(column)
}

/// Whether foreign key `key` of the table that statement `i` creates can be
/// declared there: it starts at a column of that table and ends at a primary
/// key of the same type in a table that an earlier statement creates.
pub open spec fn resolves(plan: Seq<StatementView>, i: int, key: ForeignKey) -> bool {
    exists|c: int|
        {
            let from = #[trigger] column_at(plan, i, c);
            &&& from is Some
            &&& from->0.id == key.from_column
            &&& declared_before(
                plan,
                i,
                key.to_table,
                Column { primary_key: true, ..Column::plain(key.to_column, from->0.ty, false) },
            )
        }
}

/// Whether statement `i` of `plan` can be applied once the statements before
/// it have been: a table is new, starts with its primary key `id` and has
/// foreign keys of its own that resolve; an index is on a column of a table
/// that exists.
pub open spec fn applicable_at(plan: Seq<StatementView>, i: int) -> bool {
    match plan[i] {
        StatementView::CreateTable(table) => {
            &&& forall|j: int|
                0 <= j < i && (#[trigger] table_at(plan, j)) is Some ==> table_at(plan, j)->0.id
                    != table.id
            &&& column_at(plan, i, 0) is Some
            &&& column_at(plan, i, 0)->0.id == ColumnId::Id
            &&& column_at(plan, i, 0)->0.primary_key
            &&& !column_at(plan, i, 0)->0.nullable
            &&& forall|k: int|
                (#[trigger] foreign_key_at(plan, i, k)) is Some ==> foreign_key_at(
                    plan,
                    i,
                    k,
                )->0.from_table == table.id && resolves(plan, i, foreign_key_at(plan, i, k)->0)
        },
        StatementView::CreateIndex(index) => exists|column: Column|
            column.id == index.column && #[trigger] declared_before(plan, i, index.table, column),
    }
}

/// Whether deleting a row of `parent` deletes the rows of `child` that
/// reference it, by a foreign key that `plan` declares.
pub open spec fn cascades(plan: Seq<StatementView>, parent: TableId, child: TableId) -> bool {
    exists|j: int, k: int|
        {
            let key = #[trigger] foreign_key_at(plan, j, k);
            &&& key is Some
            &&& key->0.from_table == child
            &&& key->0.to_table == parent
            &&& key->0.on_delete == ReferentialAction::Cascade
        }
}

/// Whether `plan` creates an index on `column` of `table`.
pub open spec fn indexed(plan: Seq<StatementView>, table: TableId, column: ColumnId) -> bool {
    exists|j: int| 0 <= j < plan.len() && #[trigger] plan[j] == index_on(table, column)
}

/// The ownership edges of the data model: a user owns API keys, sessions,
/// labels and test cases; a session owns labels and test cases.
pub open spec fn owns(parent: TableId, child: TableId) -> bool {
    ||| parent == TableId::Users && child != TableId::Users
    ||| parent == TableId::Sessions && (child == TableId::Labels || child == TableId::Testcases)
}

proof fn initial_plan_items()
    ensures
        initial_plan().len() == 12,
        table_at(initial_plan(), 0) == Some(users_table()),
        table_at(initial_plan(), 1) is None,
        table_at(initial_plan(), 2) == Some(apikeys_table()),
        table_at(initial_plan(), 3) is None,
        table_at(initial_plan(), 4) == Some(sessions_table()),
        table_at(initial_plan(), 5) is None,
        table_at(initial_plan(), 6) == Some(labels_table()),
        table_at(initial_plan(), 7) is None,
        table_at(initial_plan(), 8) is None,
        table_at(initial_plan(), 9) == Some(testcases_table()),
        table_at(initial_plan(), 10) is None,
        table_at(initial_plan(), 11) is None,
{
}

/// The initial migration applies cleanly to an empty datastore: every
/// statement can be applied after the ones before it.
pub proof fn initial_plan_is_applicable()
    ensures
        forall|i: int| 0 <= i < initial_plan().len() ==> applicable_at(initial_plan(), i),
{
    let plan = initial_plan();
    initial_plan_items();
    let user_key = key_column(ColumnType::Uuid);
    assert(column_at(plan, 0, 0) == Some(user_key));
    assert(column_at(plan, 4, 0) == Some(user_key));
    assert(declared_before(plan, 2, TableId::Users, user_key));
    assert(declared_before(plan, 4, TableId::Users, user_key));
    assert(declared_before(plan, 6, TableId::Users, user_key));
    assert(declared_before(plan, 9, TableId::Users, user_key));
    assert(declared_before(plan, 6, TableId::Sessions, user_key));
    assert(declared_before(plan, 9, TableId::Sessions, user_key));
    assert(applicable_at(plan, 0));
    assert(applicable_at(plan, 1)) by {
        let column = Column::plain(ColumnId::Username, ColumnType::String, false);
        assert(column_at(plan, 0, 1) == Some(column));
        assert(declared_before(plan, 1, TableId::Users, column));
    }
    assert(applicable_at(plan, 2)) by {
        assert(column_at(plan, 2, 6) == Some(reference_column(ColumnId::UserId)));
        assert(resolves(plan, 2, apikeys_table().foreign_keys[0]));
    }
    assert(applicable_at(plan, 3)) by {
        let column = reference_column(ColumnId::UserId);
        assert(column_at(plan, 2, 6) == Some(column));
        assert(declared_before(plan, 3, TableId::Apikeys, column));
    }
    assert(applicable_at(plan, 4)) by {
        assert(column_at(plan, 4, 5) == Some(reference_column(ColumnId::UserId)));
        assert(resolves(plan, 4, sessions_table().foreign_keys[0]));
    }
    assert(applicable_at(plan, 5)) by {
        let column = reference_column(ColumnId::UserId);
        assert(column_at(plan, 4, 5) == Some(column));
        assert(declared_before(plan, 5, TableId::Sessions, column));
    }
    assert(applicable_at(plan, 6)) by {
        assert(column_at(plan, 6, 1) == Some(reference_column(ColumnId::SessionId)));
        assert(column_at(plan, 6, 4) == Some(reference_column(ColumnId::UserId)));
        assert(resolves(plan, 6, labels_table().foreign_keys[0]));
        assert(resolves(plan, 6, labels_table().foreign_keys[1]));
    }
    assert(applicable_at(plan, 7)) by {
        let column = reference_column(ColumnId::SessionId);
        assert(column_at(plan, 6, 1) == Some(column));
        assert(declared_before(plan, 7, TableId::Labels, column));
    }
    assert(applicable_at(plan, 8)) by {
        let column = reference_column(ColumnId::UserId);
        assert(column_at(plan, 6, 4) == Some(column));
        assert(declared_before(plan, 8, TableId::Labels, column));
    }
    assert(applicable_at(plan, 9)) by {
        assert(column_at(plan, 9, 1) == Some(reference_column(ColumnId::SessionId)));
        assert(column_at(plan, 9, 11) == Some(reference_column(ColumnId::UserId)));
        assert(resolves(plan, 9, testcases_table().foreign_keys[0]));
        assert(resolves(plan, 9, testcases_table().foreign_keys[1]));
    }
    assert(applicable_at(plan, 10)) by {
        let column = reference_column(ColumnId::SessionId);
        assert(column_at(plan, 9, 1) == Some(column));
        assert(declared_before(plan, 10, TableId::Testcases, column));
    }
    assert(applicable_at(plan, 11)) by {
        let column = reference_column(ColumnId::UserId);
        assert(column_at(plan, 9, 11) == Some(column));
        assert(declared_before(plan, 11, TableId::Testcases, column));
    }
}

/// The foreign keys of the initial migration are the ownership edges of the
/// data model, each deleting the owned rows with their owner.
pub proof fn initial_plan_cascades_along_ownership()
    ensures
        forall|parent: TableId, child: TableId|
            #[trigger] cascades(initial_plan(), parent, child) <==> owns(parent, child),
{
    let plan = initial_plan();
    initial_plan_items();
    assert forall|parent: TableId, child: TableId| owns(parent, child) implies cascades(
        plan,
        parent,
        child,
    ) by {
        assert(foreign_key_at(plan, 2, 0) == Some(apikeys_table().foreign_keys[0]));
        assert(foreign_key_at(plan, 4, 0) == Some(sessions_table().foreign_keys[0]));
        assert(foreign_key_at(plan, 6, 0) == Some(labels_table().foreign_keys[0]));
        assert(foreign_key_at(plan, 6, 1) == Some(labels_table().foreign_keys[1]));
        assert(foreign_key_at(plan, 9, 0) == Some(testcases_table().foreign_keys[0]));
        assert(foreign_key_at(plan, 9, 1) == Some(testcases_table().foreign_keys[1]));
    }
    assert forall|parent: TableId, child: TableId| cascades(plan, parent, child) implies owns(
        parent,
        child,
    ) by {
        let (j, k) = choose|j: int, k: int|
            {
                let key = #[trigger] foreign_key_at(plan, j, k);
                &&& key is Some
                &&& key->0.from_table == child
                &&& key->0.to_table == parent
                &&& key->0.on_delete == ReferentialAction::Cascade
            };
        assert(table_at(plan, j) is Some);
        assert(j == 0 || j == 2 || j == 4 || j == 6 || j == 9);
    }
}

/// Every column by which the initial migration ties a row to its owner is
/// indexed, and so is the username.
pub proof fn initial_plan_indexes_ownership_lookups()
    ensures
        indexed(initial_plan(), TableId::Users, ColumnId::Username),
        forall|j: int, k: int|
            (#[trigger] foreign_key_at(initial_plan(), j, k)) is Some ==> indexed(
                initial_plan(),
                foreign_key_at(initial_plan(), j, k)->0.from_table,
                foreign_key_at(initial_plan(), j, k)->0.from_column,
            ),
{
    let plan = initial_plan();
    initial_plan_items();
    assert(plan[1] == index_on(TableId::Users, ColumnId::Username));
    assert(plan[3] == index_on(TableId::Apikeys, ColumnId::UserId));
    assert(plan[5] == index_on(TableId::Sessions, ColumnId::UserId));
    assert(plan[7] == index_on(TableId::Labels, ColumnId::SessionId));
    assert(plan[8] == index_on(TableId::Labels, ColumnId::UserId));
    assert(plan[10] == index_on(TableId::Testcases, ColumnId::SessionId));
    assert(plan[11] == index_on(TableId::Testcases, ColumnId::UserId));
    assert forall|j: int, k: int| (#[trigger] foreign_key_at(plan, j, k)) is Some implies indexed(
        plan,
        foreign_key_at(plan, j, k)->0.from_table,
        foreign_key_at(plan, j, k)->0.from_column,
    ) by {
        assert(table_at(plan, j) is Some);
        assert(j == 0 || j == 2 || j == 4 || j == 6 || j == 9);
    }
}

/// Every table of the initial migration carries the two audit timestamps,
/// required and defaulting to the time of insertion.
pub proof fn initial_plan_stamps_every_table()
    ensures
        forall|j: int|
            (#[trigger] table_at(initial_plan(), j)) is Some ==> {
                let columns = table_at(initial_plan(), j)->0.columns;
                &&& columns.contains(audit_column(ColumnId::CreatedAt))
                &&& columns.contains(audit_column(ColumnId::UpdatedAt))
            },
{
    let plan = initial_plan();
    initial_plan_items();
    assert(users_table().columns[4] == audit_column(ColumnId::CreatedAt));
    assert(users_table().columns[5] == audit_column(ColumnId::UpdatedAt));
    assert(apikeys_table().columns[4] == audit_column(ColumnId::CreatedAt));
    assert(apikeys_table().columns[5] == audit_column(ColumnId::UpdatedAt));
    assert(sessions_table().columns[3] == audit_column(ColumnId::CreatedAt));
    assert(sessions_table().columns[4] == audit_column(ColumnId::UpdatedAt));
    assert(labels_table().columns[5] == audit_column(ColumnId::CreatedAt));
    assert(labels_table().columns[6] == audit_column(ColumnId::UpdatedAt));
    assert(testcases_table().columns[9] == audit_column(ColumnId::CreatedAt));
    assert(testcases_table().columns[10] == audit_column(ColumnId::UpdatedAt));
    assert forall|j: int| (#[trigger] table_at(plan, j)) is Some implies {
        let columns = table_at(plan, j)->0.columns;
        &&& columns.contains(audit_column(ColumnId::CreatedAt))
        &&& columns.contains(audit_column(ColumnId::UpdatedAt))
    } by {
        assert(j == 0 || j == 2 || j == 4 || j == 6 || j == 9);
    }
}

} // verus!
