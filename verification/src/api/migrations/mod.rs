//! The database schema, as migrations built with `barrel` for SQLite.
use vstd::prelude::*;
use vstd::string::*;

pub mod v1_create_users_table;
pub mod v2_create_files_table;
pub mod v3_create_api_tokens_table;

verus! {

/// `barrel::Migration`, a list of schema changes.
#[verifier::external_type_specification]
#[verifier::external_body]
pub struct ExMigration(barrel::Migration);

/// `barrel::Table`, the columns of a table being created.
#[verifier::external_type_specification]
#[verifier::external_body]
pub struct ExTable(barrel::Table);

/// The type of a column, as the migrations build it with barrel's builders.
pub enum ColumnType {
    /// `primary()`: an auto-incrementing 64-bit primary key.
    Primary,
    /// `varchar(len)` with its uniqueness and indexing set.
    Varchar { len: usize, unique: bool, indexed: bool },
    /// `integer()`.
    Integer,
    /// `date()`, with an SQL default value or none, and its nullability set.
    Date { default: Option<&'static str>, nullable: bool },
    /// `foreign(table, key)`: a reference to `key` of `table`.
    Foreign { table: String, key: String },
}

/// A column of a table: its name and its type.
pub struct Column {
    pub name: String,
    pub ty: ColumnType,
}

/// A column type as plain values.
pub enum ColumnTypeView {
    Primary,
    Varchar { len: usize, unique: bool, indexed: bool },
    Integer,
    Date { default: Option<Seq<char>>, nullable: bool },
    Foreign { table: Seq<char>, key: Seq<char> },
}

/// A column as plain values.
pub struct ColumnView {
    pub name: Seq<char>,
    pub ty: ColumnTypeView,
}

/// The plain values of a column.
pub open spec fn column_view(c: Column) -> ColumnView {
    ColumnView {
        name: c.name@,
        ty: match c.ty {
            ColumnType::Primary => ColumnTypeView::Primary,
            ColumnType::Varchar { len, unique, indexed } => ColumnTypeView::Varchar {
                len,
                unique,
                indexed,
            },
            ColumnType::Integer => ColumnTypeView::Integer,
            ColumnType::Date { default, nullable } => ColumnTypeView::Date {
                default: match default {
                    Some(d) => Some(d@),
                    None => None,
                },
                nullable,
            },
            ColumnType::Foreign { table, key } => ColumnTypeView::Foreign {
                table: table@,
                key: key@,
            },
        },
    }
}

/// Whether SQLite fills a column of this type in a row that gives it no
/// value: a primary key is numbered, a nullable date is left null, and a date
/// with a default takes it. Any other column (`NOT NULL`, no default) makes
/// such an insert fail.
pub open spec fn fills_itself(t: ColumnTypeView) -> bool {
    match t {
        ColumnTypeView::Primary => true,
        ColumnTypeView::Date { default, nullable } => nullable || default is Some,
        _ => false,
    }
}

/// Whether a table accepts rows that give values for the `given` columns
/// only: each given column exists, and every other column fills itself.
pub open spec fn accepts_rows_giving(schema: Seq<ColumnView>, given: Set<Seq<char>>) -> bool {
    &&& forall|name: Seq<char>| #[trigger] given.contains(name) ==> exists|i: int|
        0 <= i < schema.len() && #[trigger] schema[i].name == name
    &&& forall|i: int| 0 <= i < schema.len() && !given.contains(#[trigger] schema[i].name) ==> fills_itself(
        schema[i].ty,
    )
}

/// Whether the table has a column `name` whose values are unique.
pub open spec fn has_unique_column(schema: Seq<ColumnView>, name: Seq<char>) -> bool {
    exists|i: int| 0 <= i < schema.len() && schema[i].name == name && (#[trigger] schema[i].ty) matches ColumnTypeView::Varchar { unique: true, .. }
}

/// The plain values of a list of columns.
pub open spec fn columns_view(cols: Seq<Column>) -> Seq<ColumnView> {
    cols.map_values(|c: Column| column_view(c))
}

/// The columns that a barrel table holds, in the order they were added.
pub uninterp spec fn table_columns(t: barrel::Table) -> Seq<ColumnView>;

/// The tables that a barrel migration creates if they do not exist, in
/// order, each with the columns it gets.
pub uninterp spec fn migration_tables(m: barrel::Migration) -> Seq<(Seq<char>, Seq<ColumnView>)>;

/// Whether a barrel migration has no schema set and holds only
/// `create_table_if_not_exists` changes, so that `migration_tables` is all
/// that its SQL depends on.
pub uninterp spec fn migration_creates_tables_only(m: barrel::Migration) -> bool;

/// The SQLite text that barrel's `Migration::make::<Sqlite>` gives for a
/// migration without schema that only creates these tables if they do not
/// exist.
pub uninterp spec fn sqlite_migration_sql(tables: Seq<(Seq<char>, Seq<ColumnView>)>) -> Seq<char>;

/// `barrel::Migration::new`: a migration with no changes and no schema.
#[verifier::external_body]
pub(crate) fn new_migration() -> (m: barrel::Migration)
    ensures
        migration_tables(m) == Seq::<(Seq<char>, Seq<ColumnView>)>::empty(),
        migration_creates_tables_only(m),
{
    barrel::Migration::new()
}

/// `barrel::Migration::create_table_if_not_exists`: adds the creation of the
/// table `name`. barrel stores the table empty (`Table::new`) with the
/// closure, and runs the closure on it when the SQL is made; the closure adds
/// `columns` in order (what `add_columns` ensures), so the migration creates
/// the table with these columns.
#[verifier::external_body]
pub(crate) fn create_table_if_not_exists(m: &mut barrel::Migration, name: &str, columns: Vec<Column>)
    ensures
        migration_tables(*final(m)) == migration_tables(*old(m)).push((name@, columns_view(columns@))),
        migration_creates_tables_only(*old(m)) ==> migration_creates_tables_only(*final(m)),
{
    m.create_table_if_not_exists(name.to_owned(), move |t: &mut barrel::Table| add_columns(t, &columns));
}

/// `barrel::Table::add_column(name, barrel::types::primary())`: adds the
/// column at the end of the table.
#[verifier::external_body]
pub(crate) fn add_primary_column(t: &mut barrel::Table, name: &str)
    ensures
        table_columns(*final(t)) == table_columns(*old(t)).push(
            ColumnView { name: name@, ty: ColumnTypeView::Primary },
        ),
{
    t.add_column(name.to_owned(), barrel::types::primary());
}

/// `barrel::Table::add_column(name, varchar(len).unique(unique).indexed(indexed))`:
/// adds the column at the end of the table.
#[verifier::external_body]
pub(crate) fn add_varchar_column(t: &mut barrel::Table, name: &str, len: usize, unique: bool, indexed: bool)
    ensures
        table_columns(*final(t)) == table_columns(*old(t)).push(
            ColumnView { name: name@, ty: ColumnTypeView::Varchar { len, unique, indexed } },
        ),
{
    t.add_column(name.to_owned(), barrel::types::varchar(len).unique(unique).indexed(indexed));
}

/// `barrel::Table::add_column(name, barrel::types::integer())`: adds the
/// column at the end of the table.
#[verifier::external_body]
pub(crate) fn add_integer_column(t: &mut barrel::Table, name: &str)
    ensures
        table_columns(*final(t)) == table_columns(*old(t)).push(
            ColumnView { name: name@, ty: ColumnTypeView::Integer },
        ),
{
    t.add_column(name.to_owned(), barrel::types::integer());
}

/// `barrel::Table::add_column(name, date().nullable(nullable))`: adds the
/// column at the end of the table.
#[verifier::external_body]
pub(crate) fn add_date_column(t: &mut barrel::Table, name: &str, nullable: bool)
    ensures
        table_columns(*final(t)) == table_columns(*old(t)).push(
            ColumnView { name: name@, ty: ColumnTypeView::Date { default: None, nullable } },
        ),
{
    t.add_column(name.to_owned(), barrel::types::date().nullable(nullable));
}

/// `barrel::Table::add_column(name, date().default(default).nullable(nullable))`:
/// adds the column at the end of the table.
#[verifier::external_body]
pub(crate) fn add_defaulted_date_column(t: &mut barrel::Table, name: &str, default: &'static str, nullable: bool)
    ensures
        table_columns(*final(t)) == table_columns(*old(t)).push(
            ColumnView { name: name@, ty: ColumnTypeView::Date { default: Some(default@), nullable } },
        ),
{
    t.add_column(name.to_owned(), barrel::types::date().default(default).nullable(nullable));
}

/// `barrel::Table::add_column(name, barrel::types::foreign(table, key))`:
/// adds the column at the end of the table.
#[verifier::external_body]
pub(crate) fn add_foreign_column(t: &mut barrel::Table, name: &str, table: &str, key: &str)
    ensures
        table_columns(*final(t)) == table_columns(*old(t)).push(
            ColumnView { name: name@, ty: ColumnTypeView::Foreign { table: table@, key: key@ } },
        ),
{
    t.add_column(name.to_owned(), barrel::types::foreign(table.to_owned(), key.to_owned()));
}

/// `barrel::Migration::make::<Sqlite>`: the SQL for SQLite of a migration
/// that only creates tables, named by `sqlite_migration_sql` over them.
#[verifier::external_body]
pub(crate) fn make_sqlite(m: &barrel::Migration) -> (sql: String)
    requires
        migration_creates_tables_only(*m),
    ensures
        sql@ == sqlite_migration_sql(migration_tables(*m)),
{
    m.make::<barrel::backend::Sqlite>()
}

/// Adds the columns to the table, in order.
pub fn add_columns(t: &mut barrel::Table, columns: &Vec<Column>)
    ensures
        table_columns(*final(t)) == table_columns(*old(t)) + columns_view(columns@),
{
    let mut i: usize = 0;
    while i < columns.len()
        invariant
            i <= columns@.len(),
            table_columns(*t) == table_columns(*old(t)) + columns_view(columns@.subrange(0, i as int)),
        decreases columns@.len() - i,
    {
        let c = &columns[i];
        let name = c.name.as_str();
        match &c.ty {
            ColumnType::Primary => add_primary_column(t, name),
            ColumnType::Varchar { len, unique, indexed } => add_varchar_column(t, name, *len, *unique, *indexed),
            ColumnType::Integer => add_integer_column(t, name),
            ColumnType::Date { default, nullable } => match default {
                Some(d) => add_defaulted_date_column(t, name, *d, *nullable),
                None => add_date_column(t, name, *nullable),
            },
            ColumnType::Foreign { table, key } => add_foreign_column(t, name, table.as_str(), key.as_str()),
        }
        proof {
            assert(columns@.subrange(0, i + 1) =~= columns@.subrange(0, i as int).push(columns@[i as int]));
            assert(columns_view(columns@.subrange(0, i + 1)) =~= columns_view(columns@.subrange(0, i as int)).push(column_view(columns@[i as int])));
        }
        i = i + 1;
    }
    proof {
        assert(columns@.subrange(0, columns@.len() as int) =~= columns@);
    }
}

} // verus!
