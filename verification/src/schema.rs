//! The relational schema: five tables, the foreign keys that make a user the
//! root of everything it owns, and the indexes that serve ownership lookups.
//!
//! The schema is plain data. [`Migration::up`](crate::migration::Migration::up)
//! returns the statements that create it, in the order in which they must be
//! applied; applying them to a datastore is left to the caller.

use vstd::prelude::*;

verus! {

/// A table of the schema.
#[derive(Clone, Copy, Debug, PartialEq, Eq, Hash, Structural)]
pub enum TableId {
    Users,
    Apikeys,
    Sessions,
    Labels,
    Testcases,
}

/// A column name. Which tables have a column of that name is part of the
/// schema, not of this type.
#[derive(Clone, Copy, Debug, PartialEq, Eq, Hash, Structural)]
pub enum ColumnId {
    Id,
    Username,
    PasswordSalt,
    PasswordHash,
    Description,
    SecretSalt,
    SecretHash,
    Baggage,
    SessionId,
    Key,
    Value,
    Name,
    Classname,
    File,
    Testsuite,
    Output,
    Status,
    UserId,
    CreatedAt,
    UpdatedAt,
}

/// The type of a column.
#[derive(Clone, Copy, Debug, PartialEq, Eq, Hash, Structural)]
pub enum ColumnType {
    Uuid,
    String,
    Binary,
    Json,
    Integer,
    TimestampWithTimeZone,
}

/// What happens to a referencing row when the row it references is deleted.
#[derive(Clone, Copy, Debug, PartialEq, Eq, Hash, Structural)]
pub enum ReferentialAction {
    Restrict,
    Cascade,
    SetNull,
    NoAction,
    SetDefault,
}

/// One column of a table.
#[derive(Clone, Copy, Debug, PartialEq, Eq, Hash, Structural)]
pub struct Column {
    pub id: ColumnId,
    pub ty: ColumnType,
    pub nullable: bool,
    pub primary_key: bool,
    pub auto_increment: bool,
    /// Whether a row inserted without a value gets the time of insertion.
    pub default_current_timestamp: bool,
}

/// A foreign key of `from_table`: `from_column` holds a value of `to_column`
/// of a row of `to_table`.
#[derive(Clone, Copy, Debug, PartialEq, Eq, Hash, Structural)]
pub struct ForeignKey {
    pub from_table: TableId,
    pub from_column: ColumnId,
    pub to_table: TableId,
    pub to_column: ColumnId,
    pub on_delete: ReferentialAction,
}

/// A secondary, non-unique index on one column.
#[derive(Clone, Copy, Debug, PartialEq, Eq, Hash, Structural)]
pub struct Index {
    pub table: TableId,
    pub column: ColumnId,
}

/// A table with its columns and foreign keys, in declaration order.
#[derive(Clone, Debug, PartialEq, Eq)]
pub struct Table {
    pub id: TableId,
    pub columns: Vec<Column>,
    pub foreign_keys: Vec<ForeignKey>,
}

/// A [`Table`] as a mathematical value.
pub struct TableView {
    pub id: TableId,
    pub columns: Seq<Column>,
    pub foreign_keys: Seq<ForeignKey>,
}

/// One step of a migration.
#[derive(Clone, Debug, PartialEq, Eq)]
pub enum Statement {
    CreateTable(Table),
    CreateIndex(Index),
}

/// A [`Statement`] as a mathematical value.
pub enum StatementView {
    CreateTable(TableView),
    CreateIndex(Index),
}

impl TableId {
    /// The table's name in the datastore.
    pub open spec fn spec_name(self) -> Seq<char> {
        match self {
            TableId::Users => "users"@,
            TableId::Apikeys => "apikeys"@,
            TableId::Sessions => "sessions"@,
            TableId::Labels => "labels"@,
            TableId::Testcases => "testcases"@,
        }
    }

    /// The table's name in the datastore.
    pub fn name(self) -> (name: &'static str)
        ensures
            name@ == self.spec_name(),
    {
        match self {
            TableId::Users => "users",
            TableId::Apikeys => "apikeys",
            TableId::Sessions => "sessions",
            TableId::Labels => "labels",
            TableId::Testcases => "testcases",
        }
    }
}

impl ColumnId {
    /// The column's name in the datastore.
    pub open spec fn spec_name(self) -> Seq<char> {
        match self {
            ColumnId::Id => "id"@,
            ColumnId::Username => "username"@,
            ColumnId::PasswordSalt => "password_salt"@,
            ColumnId::PasswordHash => "password_hash"@,
            ColumnId::Description => "description"@,
            ColumnId::SecretSalt => "secret_salt"@,
            ColumnId::SecretHash => "secret_hash"@,
            ColumnId::Baggage => "baggage"@,
            ColumnId::SessionId => "session_id"@,
            ColumnId::Key => "key"@,
            ColumnId::Value => "value"@,
            ColumnId::Name => "name"@,
            ColumnId::Classname => "classname"@,
            ColumnId::File => "file"@,
            ColumnId::Testsuite => "testsuite"@,
            ColumnId::Output => "output"@,
            ColumnId::Status => "status"@,
            ColumnId::UserId => "user_id"@,
            ColumnId::CreatedAt => "created_at"@,
            ColumnId::UpdatedAt => "updated_at"@,
        }
    }

    /// The column's name in the datastore.
    pub fn name(self) -> (name: &'static str)
        ensures
            name@ == self.spec_name(),
    {
        match self {
            ColumnId::Id => "id",
            ColumnId::Username => "username",
            ColumnId::PasswordSalt => "password_salt",
            ColumnId::PasswordHash => "password_hash",
            ColumnId::Description => "description",
            ColumnId::SecretSalt => "secret_salt",
            ColumnId::SecretHash => "secret_hash",
            ColumnId::Baggage => "baggage",
            ColumnId::SessionId => "session_id",
            ColumnId::Key => "key",
            ColumnId::Value => "value",
            ColumnId::Name => "name",
            ColumnId::Classname => "classname",
            ColumnId::File => "file",
            ColumnId::Testsuite => "testsuite",
            ColumnId::Output => "output",
            ColumnId::Status => "status",
            ColumnId::UserId => "user_id",
            ColumnId::CreatedAt => "created_at",
            ColumnId::UpdatedAt => "updated_at",
        }
    }
}

impl Column {
    /// A column with no key, no auto-increment and no default.
    pub open spec fn plain(id: ColumnId, ty: ColumnType, nullable: bool) -> Column {
        Column {
            id,
            ty,
            nullable,
            primary_key: false,
            auto_increment: false,
            default_current_timestamp: false,
        }
    }

    /// A required column of type `ty`.
    pub fn required(id: ColumnId, ty: ColumnType) -> (column: Column)
        ensures
            column == Column::plain(id, ty, false),
    {
        Column {
            id,
            ty,
            nullable: false,
            primary_key: false,
            auto_increment: false,
            default_current_timestamp: false,
        }
    }

    /// An optional column of type `ty`.
    pub fn optional(id: ColumnId, ty: ColumnType) -> (column: Column)
        ensures
            column == Column::plain(id, ty, true),
    {
        Column {
            id,
            ty,
            nullable: true,
            primary_key: false,
            auto_increment: false,
            default_current_timestamp: false,
        }
    }

    /// The same column as (part of) the primary key.
    pub fn primary_key(self) -> (column: Column)
        ensures
            column == (Column { primary_key: true, ..self }),
    {
        Column { primary_key: true, ..self }
    }

    /// The same column, numbered by the datastore on insertion.
    pub fn auto_increment(self) -> (column: Column)
        ensures
            column == (Column { auto_increment: true, ..self }),
    {
        Column { auto_increment: true, ..self }
    }

    /// The same column, defaulting to the time of insertion.
    pub fn default_current_timestamp(self) -> (column: Column)
        ensures
            column == (Column { default_current_timestamp: true, ..self }),
    {
        Column { default_current_timestamp: true, ..self }
    }
}

impl ForeignKey {
    /// The foreign key from `from_table.from_column` to the `id` of
    /// `to_table` whose rows go when the row they reference goes.
    pub open spec fn owned_by(
        from_table: TableId,
        from_column: ColumnId,
        to_table: TableId,
    ) -> ForeignKey {
        ForeignKey {
            from_table,
            from_column,
            to_table,
            to_column: ColumnId::Id,
            on_delete: ReferentialAction::Cascade,
        }
    }

    /// The foreign key from `from_table.from_column` to the `id` of
    /// `to_table`, deleting the referencing rows with the referenced one.
    pub fn cascade(from_table: TableId, from_column: ColumnId, to_table: TableId) -> (key:
        ForeignKey)
        ensures
            key == ForeignKey::owned_by(from_table, from_column, to_table),
    {
        ForeignKey {
            from_table,
            from_column,
            to_table,
            to_column: ColumnId::Id,
            on_delete: ReferentialAction::Cascade,
        }
    }
}

impl Index {
    /// The index's name: `ix_`, the table's name, `_`, the column's name.
    pub open spec fn spec_name(self) -> Seq<char> {
        "ix_"@ + self.table.spec_name() + "_"@ + self.column.spec_name()
    }

    /// The index's name in the datastore.
    pub fn name(&self) -> (name: String)
        ensures
            name@ == self.spec_name(),
    {
        let mut name = String::from_str("ix_");
        name.append(self.table.name());
        name.append("_");
        name.append(self.column.name());
        name
    }
}

impl View for Table {
    type V = TableView;

    open spec fn view(&self) -> TableView {
        TableView { id: self.id, columns: self.columns@, foreign_keys: self.foreign_keys@ }
    }
}

impl View for Statement {
    type V = StatementView;

    open spec fn view(&self) -> StatementView {
        match self {
            Statement::CreateTable(table) => StatementView::CreateTable(table@),
            Statement::CreateIndex(index) => StatementView::CreateIndex(*index),
        }
    }
}

impl Table {
    /// A table without columns.
    pub fn create(id: TableId) -> (table: Table)
        ensures
            table@ == (TableView { id, columns: Seq::empty(), foreign_keys: Seq::empty() }),
    {
        Table { id, columns: Vec::new(), foreign_keys: Vec::new() }
    }

    /// The table with `column` added after its other columns.
    pub fn col(self, column: Column) -> (table: Table)
        ensures
            table@ == (TableView { columns: self@.columns.push(column), ..self@ }),
    {
        let mut table = self;
        table.columns.push(column);
        table
    }

    /// The table with `key` added after its other foreign keys.
    pub fn foreign_key(self, key: ForeignKey) -> (table: Table)
        ensures
            table@ == (TableView { foreign_keys: self@.foreign_keys.push(key), ..self@ }),
    {
        let mut table = self;
        table.foreign_keys.push(key);
        table
    }
}

/// A sequence of statements as mathematical values.
pub open spec fn plan_view(plan: Seq<Statement>) -> Seq<StatementView> {
    plan.map_values(|statement: Statement| statement@)
}

} // verus!
