use leaves::api::migrations::{v1_create_users_table, v2_create_files_table, v3_create_api_tokens_table};

#[test]
fn migrations_create_the_three_tables() {
    let users = v1_create_users_table::migration();
    println!("{}", users);
    assert!(users.contains("CREATE TABLE IF NOT EXISTS \"users\""));
    assert!(users.contains("\"email\" VARCHAR(255)"));
    let files = v2_create_files_table::migration();
    println!("{}", files);
    assert!(files.contains("CREATE TABLE IF NOT EXISTS \"files\""));
    assert!(files.contains("REFERENCES users(id)") || files.contains("REFERENCES \"users\""));
    let tokens = v3_create_api_tokens_table::migration();
    println!("{}", tokens);
    assert!(tokens.contains("CREATE TABLE IF NOT EXISTS \"api_tokens\""));
    assert!(tokens.contains("\"contents\" VARCHAR(50)"));
}

#[test]
fn migration_column_lists() {
    let names = |cols: Vec<leaves::api::migrations::Column>| cols.into_iter().map(|c| c.name).collect::<Vec<_>>();
    assert_eq!(names(v1_create_users_table::users_column_list()), vec!["id", "email", "created_at", "updated_at"]);
    assert_eq!(names(v2_create_files_table::files_column_list()), vec!["id", "size", "user_id", "created_at", "updated_at"]);
    assert_eq!(names(v3_create_api_tokens_table::api_tokens_column_list()), vec!["id", "contents", "user_id", "created_at"]);
}
