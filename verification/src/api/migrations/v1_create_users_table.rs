//! The `users` table.
use vstd::prelude::*;
use vstd::string::*;
use super::{
    add_columns, columns_view, create_table_if_not_exists, make_sqlite, new_migration,
    sqlite_migration_sql, table_columns, accepts_rows_giving, has_unique_column, Column, ColumnType, ColumnTypeView, ColumnView,
};

verus! {

/// The columns of `users`: id, unique email, creation and update dates.
pub open spec fn users_schema() -> Seq<ColumnView> {
    seq![
        ColumnView { name: "id"@, ty: ColumnTypeView::Primary },
        ColumnView { name: "email"@, ty: ColumnTypeView::Varchar { len: 255, unique: true, indexed: false } },
        ColumnView { name: "created_at"@, ty: ColumnTypeView::Date { default: Some("current_timestamp"@), nullable: false } },
        ColumnView { name: "updated_at"@, ty: ColumnTypeView::Date { default: None, nullable: true } },
    ]
}

/// The columns of `users`, as values.
pub fn users_column_list() -> (columns: Vec<Column>)
    ensures
        columns_view(columns@) == users_schema(),
{
    let columns = vec![
        Column { name: String::from_str("id"), ty: ColumnType::Primary },
        Column { name: String::from_str("email"), ty: ColumnType::Varchar { len: 255, unique: true, indexed: false } },
        Column { name: String::from_str("created_at"), ty: ColumnType::Date { default: Some("current_timestamp"), nullable: false } },
        Column { name: String::from_str("updated_at"), ty: ColumnType::Date { default: None, nullable: true } },
    ];
    proof {
        assert(columns_view(columns@) =~= users_schema());
    }
    columns
}

/// Adds the columns of `users` to a table: id, unique email, creation and update dates.
pub fn users_columns(t: &mut barrel::Table)
    ensures
        table_columns(*final(t)) == table_columns(*old(t)) + users_schema(),
{
    add_columns(t, &users_column_list());
}

/// The SQL that creates `users` with its columns if it does not exist.
pub fn migration() -> (sql: String)
    ensures
        sql@ == sqlite_migration_sql(seq![("users"@, users_schema())]),
{
    let mut m = new_migration();
    create_table_if_not_exists(&mut m, "users", users_column_list());
    let sql = make_sqlite(&m);
    proof {
        assert(Seq::<(Seq<char>, Seq<ColumnView>)>::empty().push(("users"@, users_schema())) =~= seq![("users"@, users_schema())]);
    }
    sql
}

/// Law: the `users` table that the migration creates takes a new user from
/// its email alone (`POST /users` inserts only the email: the id is
/// numbered, the dates fill themselves), and keeps emails unique, so that a
/// second user with a taken email is refused.
pub proof fn law_users_take_unique_emails()
    ensures
        accepts_rows_giving(users_schema(), set!["email"@]),
        has_unique_column(users_schema(), "email"@),
{
    let s = users_schema();
    assert(s[1].name == "email"@);
    assert(s[1].ty matches ColumnTypeView::Varchar { unique: true, .. });
    assert forall|name: Seq<char>| #[trigger] set!["email"@].contains(name) implies exists|i: int|
        0 <= i < s.len() && #[trigger] s[i].name == name by {
        assert(s[1].name == name);
    }
}

} // verus!
