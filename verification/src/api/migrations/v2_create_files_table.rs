//! The `files` table.
use vstd::prelude::*;
use vstd::string::*;
use super::{
    add_columns, columns_view, create_table_if_not_exists, make_sqlite, new_migration,
    sqlite_migration_sql, table_columns, accepts_rows_giving, has_unique_column, Column, ColumnType, ColumnTypeView, ColumnView,
};

verus! {

/// The columns of `files`: unique indexed id, size, owner, creation and update dates.
pub open spec fn files_schema() -> Seq<ColumnView> {
    seq![
        ColumnView { name: "id"@, ty: ColumnTypeView::Varchar { len: 20, unique: true, indexed: true } },
        ColumnView { name: "size"@, ty: ColumnTypeView::Integer },
        ColumnView { name: "user_id"@, ty: ColumnTypeView::Foreign { table: "users"@, key: "id"@ } },
        ColumnView { name: "created_at"@, ty: ColumnTypeView::Date { default: Some("current_timestamp"@), nullable: false } },
        ColumnView { name: "updated_at"@, ty: ColumnTypeView::Date { default: None, nullable: true } },
    ]
}

/// The columns of `files`, as values.
pub fn files_column_list() -> (columns: Vec<Column>)
    ensures
        columns_view(columns@) == files_schema(),
{
    let columns = vec![
        Column { name: String::from_str("id"), ty: ColumnType::Varchar { len: 20, unique: true, indexed: true } },
        Column { name: String::from_str("size"), ty: ColumnType::Integer },
        Column { name: String::from_str("user_id"), ty: ColumnType::Foreign { table: String::from_str("users"), key: String::from_str("id") } },
        Column { name: String::from_str("created_at"), ty: ColumnType::Date { default: Some("current_timestamp"), nullable: false } },
        Column { name: String::from_str("updated_at"), ty: ColumnType::Date { default: None, nullable: true } },
    ];
    proof {
        assert(columns_view(columns@) =~= files_schema());
    }
    columns
}

/// Adds the columns of `files` to a table: unique indexed id, size, owner, creation and update dates.
pub fn files_columns(t: &mut barrel::Table)
    ensures
        table_columns(*final(t)) == table_columns(*old(t)) + files_schema(),
{
    add_columns(t, &files_column_list());
}

/// The SQL that creates `files` with its columns if it does not exist.
pub fn migration() -> (sql: String)
    ensures
        sql@ == sqlite_migration_sql(seq![("files"@, files_schema())]),
{
    let mut m = new_migration();
    create_table_if_not_exists(&mut m, "files", files_column_list());
    let sql = make_sqlite(&m);
    proof {
        assert(Seq::<(Seq<char>, Seq<ColumnView>)>::empty().push(("files"@, files_schema())) =~= seq![("files"@, files_schema())]);
    }
    sql
}

/// Law: the `files` table that the migration creates takes a new file from
/// its id, size and owner alone, the values that an upload inserts: every
/// other column fills itself (the creation date takes its default).
pub proof fn law_files_take_uploaded_rows()
    ensures
        accepts_rows_giving(files_schema(), set!["id"@, "size"@, "user_id"@]),
        has_unique_column(files_schema(), "id"@),
{
    let s = files_schema();
    let given = set!["id"@, "size"@, "user_id"@];
    assert(s[0].name == "id"@);
    assert(s[1].name == "size"@);
    assert(s[2].name == "user_id"@);
    assert(s[0].ty matches ColumnTypeView::Varchar { unique: true, .. });
    assert forall|name: Seq<char>| #[trigger] given.contains(name) implies exists|i: int|
        0 <= i < s.len() && #[trigger] s[i].name == name by {
        if name == "id"@ {
            assert(s[0].name == name);
        } else if name == "size"@ {
            assert(s[1].name == name);
        } else {
            assert(s[2].name == name);
        }
    }
    assert(given.contains(s[0].name));
    assert(given.contains(s[1].name));
    assert(given.contains(s[2].name));
}

} // verus!
