//! The `api_tokens` table.
use vstd::prelude::*;
use vstd::string::*;
use super::{
    add_columns, columns_view, create_table_if_not_exists, make_sqlite, new_migration,
    sqlite_migration_sql, table_columns, accepts_rows_giving, has_unique_column, Column, ColumnType, ColumnTypeView, ColumnView,
};

verus! {

/// The columns of `api_tokens`: id, unique contents, owner, creation date.
pub open spec fn api_tokens_schema() -> Seq<ColumnView> {
    seq![
        ColumnView { name: "id"@, ty: ColumnTypeView::Primary },
        ColumnView { name: "contents"@, ty: ColumnTypeView::Varchar { len: 50, unique: true, indexed: false } },
        ColumnView { name: "user_id"@, ty: ColumnTypeView::Foreign { table: "users"@, key: "id"@ } },
        ColumnView { name: "created_at"@, ty: ColumnTypeView::Date { default: Some("current_timestamp"@), nullable: false } },
    ]
}

/// The columns of `api_tokens`, as values.
pub fn api_tokens_column_list() -> (columns: Vec<Column>)
    ensures
        columns_view(columns@) == api_tokens_schema(),
{
    let columns = vec![
        Column { name: String::from_str("id"), ty: ColumnType::Primary },
        Column { name: String::from_str("contents"), ty: ColumnType::Varchar { len: 50, unique: true, indexed: false } },
        Column { name: String::from_str("user_id"), ty: ColumnType::Foreign { table: String::from_str("users"), key: String::from_str("id") } },
        Column { name: String::from_str("created_at"), ty: ColumnType::Date { default: Some("current_timestamp"), nullable: false } },
    ];
    proof {
        assert(columns_view(columns@) =~= api_tokens_schema());
    }
    columns
}

/// Adds the columns of `api_tokens` to a table: id, unique contents, owner, creation date.
pub fn api_tokens_columns(t: &mut barrel::Table)
    ensures
        table_columns(*final(t)) == table_columns(*old(t)) + api_tokens_schema(),
{
    add_columns(t, &api_tokens_column_list());
}

/// The SQL that creates `api_tokens` with its columns if it does not exist.
pub fn migration() -> (sql: String)
    ensures
        sql@ == sqlite_migration_sql(seq![("api_tokens"@, api_tokens_schema())]),
{
    let mut m = new_migration();
    create_table_if_not_exists(&mut m, "api_tokens", api_tokens_column_list());
    let sql = make_sqlite(&m);
    proof {
        assert(Seq::<(Seq<char>, Seq<ColumnView>)>::empty().push(("api_tokens"@, api_tokens_schema())) =~= seq![("api_tokens"@, api_tokens_schema())]);
    }
    sql
}

/// Law: the `api_tokens` table that the migration creates takes a new token
/// from its contents and owner alone, the values that `POST /users` inserts,
/// and keeps token contents unique.
pub proof fn law_api_tokens_take_issued_tokens()
    ensures
        accepts_rows_giving(api_tokens_schema(), set!["contents"@, "user_id"@]),
        has_unique_column(api_tokens_schema(), "contents"@),
{
    let s = api_tokens_schema();
    let given = set!["contents"@, "user_id"@];
    assert(s[1].name == "contents"@);
    assert(s[2].name == "user_id"@);
    assert(s[1].ty matches ColumnTypeView::Varchar { unique: true, .. });
    assert forall|name: Seq<char>| #[trigger] given.contains(name) implies exists|i: int|
        0 <= i < s.len() && #[trigger] s[i].name == name by {
        if name == "contents"@ {
            assert(s[1].name == name);
        } else {
            assert(s[2].name == name);
        }
    }
    assert(given.contains(s[1].name));
    assert(given.contains(s[2].name));
}

} // verus!
