use sql_crud::model::{MissingPrimaryKeyError, ParsedField, ParsedStruct};
use sql_crud::sql_generator::{
    generate_create_table_sql, generate_delete_sql, generate_insert_sql, generate_select_by_id_sql,
    generate_select_sql, generate_table_exists_sql, generate_update_sql, PlaceholderStyle,
    SqlGenerator,
};

fn field(name: &str, sql_type: &str, pk: bool, comment: Option<&str>) -> ParsedField {
    ParsedField {
        name: name.to_string(),
        sql_type: sql_type.to_string(),
        is_primary_key: pk,
        comment: comment.map(|c| c.to_string()),
    }
}

fn user_schema() -> ParsedStruct {
    ParsedStruct {
        name: "User".to_string(),
        table_name: "user".to_string(),
        fields: vec![
            field("id", "INT", true, None),
            field("name", "VARCHAR(255)", false, None),
            field("email", "VARCHAR(255)", false, Some("user email")),
        ],
        comment: None,
    }
}

fn keyless_schema() -> ParsedStruct {
    ParsedStruct {
        name: "Log".to_string(),
        table_name: "log".to_string(),
        fields: vec![field("line", "VARCHAR(255)", false, None)],
        comment: None,
    }
}

fn two_key_schema() -> ParsedStruct {
    ParsedStruct {
        name: "Pairing".to_string(),
        table_name: "pairing".to_string(),
        fields: vec![
            field("left_id", "INT", true, None),
            field("right_id", "INT", true, None),
        ],
        comment: None,
    }
}

#[test]
fn insert_lists_every_field_and_placeholder_in_order() {
    assert_eq!(
        generate_insert_sql(&user_schema()),
        "INSERT INTO user (id, name, email) VALUES ($1, $2, $3);"
    );
}

#[test]
fn select_by_key_filters_by_the_primary_key() {
    assert_eq!(
        generate_select_by_id_sql(&user_schema()).unwrap(),
        "SELECT id, name, email FROM user WHERE id = $1;"
    );
}

#[test]
fn update_binds_non_key_fields_first_and_the_key_last() {
    assert_eq!(
        generate_update_sql(&user_schema()).unwrap(),
        "UPDATE user SET name = $1, email = $2 WHERE id = $3;"
    );
}

#[test]
fn delete_filters_by_the_primary_key() {
    assert_eq!(generate_delete_sql(&user_schema()).unwrap(), "DELETE FROM user WHERE id = $1;");
}

#[test]
fn select_all_lists_every_field_in_order() {
    assert_eq!(generate_select_sql(&user_schema()), "SELECT id, name, email FROM user;");
}

#[test]
fn create_table_lists_one_column_definition_per_field() {
    assert_eq!(
        generate_create_table_sql(&user_schema()),
        "CREATE TABLE IF NOT EXISTS user (\n    id INT PRIMARY KEY,\n    name VARCHAR(255),\n    email VARCHAR(255) COMMENT 'user email'\n);"
    );
}

#[test]
fn create_table_starts_with_create_table() {
    let sql = generate_create_table_sql(&user_schema());
    assert!(sql.starts_with("CREATE TABLE"));
    let commas = sql.matches(',').count();
    assert_eq!(commas, user_schema().fields.len() - 1);
}

#[test]
fn create_table_appends_the_table_comment() {
    let mut schema = keyless_schema();
    schema.comment = Some("audit log".to_string());
    assert_eq!(
        generate_create_table_sql(&schema),
        "CREATE TABLE IF NOT EXISTS log (\n    line VARCHAR(255)\n) COMMENT 'audit log';"
    );
}

#[test]
fn table_exists_query_names_the_table() {
    assert_eq!(
        generate_table_exists_sql(&user_schema()),
        "SELECT name FROM sqlite_master WHERE type = 'table' AND name = 'user';"
    );
}

#[test]
fn keyless_schema_still_creates_inserts_and_selects() {
    let schema = keyless_schema();
    assert_eq!(
        generate_create_table_sql(&schema),
        "CREATE TABLE IF NOT EXISTS log (\n    line VARCHAR(255)\n);"
    );
    assert_eq!(generate_insert_sql(&schema), "INSERT INTO log (line) VALUES ($1);");
    assert_eq!(generate_select_sql(&schema), "SELECT line FROM log;");
}

#[test]
fn keyless_schema_fails_update_delete_and_select_by_key() {
    let schema = keyless_schema();
    assert_eq!(generate_update_sql(&schema), Err(MissingPrimaryKeyError));
    assert_eq!(generate_delete_sql(&schema), Err(MissingPrimaryKeyError));
    assert_eq!(generate_select_by_id_sql(&schema), Err(MissingPrimaryKeyError));
}

#[test]
fn two_key_schema_fails_update_delete_and_select_by_key() {
    let schema = two_key_schema();
    assert_eq!(generate_update_sql(&schema), Err(MissingPrimaryKeyError));
    assert_eq!(generate_delete_sql(&schema), Err(MissingPrimaryKeyError));
    assert_eq!(generate_select_by_id_sql(&schema), Err(MissingPrimaryKeyError));
}

#[test]
fn question_style_uses_bare_question_marks() {
    let gen = SqlGenerator::new(PlaceholderStyle::Question);
    let schema = user_schema();
    assert_eq!(gen.insert(&schema), "INSERT INTO user (id, name, email) VALUES (?, ?, ?);");
    assert_eq!(gen.update(&schema).unwrap(), "UPDATE user SET name = ?, email = ? WHERE id = ?;");
    assert_eq!(gen.delete(&schema).unwrap(), "DELETE FROM user WHERE id = ?;");
    assert_eq!(
        gen.select_by_key(&schema).unwrap(),
        "SELECT id, name, email FROM user WHERE id = ?;"
    );
}

#[test]
fn numbered_placeholders_reach_two_digits() {
    let mut fields = vec![field("k", "INT", true, None)];
    for i in 1..=10 {
        fields.push(field(&format!("c{}", i), "INT", false, None));
    }
    let schema = ParsedStruct {
        name: "Wide".to_string(),
        table_name: "wide".to_string(),
        fields,
        comment: None,
    };
    let insert = generate_insert_sql(&schema);
    assert!(insert.ends_with("($1, $2, $3, $4, $5, $6, $7, $8, $9, $10, $11);"));
    let update = generate_update_sql(&schema).unwrap();
    assert!(update.ends_with("c10 = $10 WHERE k = $11;"));
}

#[test]
fn comments_with_quotes_are_doubled_and_balanced() {
    let mut schema = keyless_schema();
    schema.fields[0].comment = Some("the record's text".to_string());
    schema.comment = Some("user's log".to_string());
    let sql = generate_create_table_sql(&schema);
    assert!(sql.contains("COMMENT 'the record''s text'"));
    assert!(sql.contains("COMMENT 'user''s log'"));
    assert_eq!(sql.matches('\'').count() % 2, 0);
}

#[test]
fn generators_are_idempotent() {
    let schema = user_schema();
    assert_eq!(generate_create_table_sql(&schema), generate_create_table_sql(&schema));
    assert_eq!(generate_insert_sql(&schema), generate_insert_sql(&schema));
    assert_eq!(generate_update_sql(&schema), generate_update_sql(&schema));
    assert_eq!(generate_delete_sql(&schema), generate_delete_sql(&schema));
    assert_eq!(generate_select_sql(&schema), generate_select_sql(&schema));
    assert_eq!(generate_select_by_id_sql(&schema), generate_select_by_id_sql(&schema));
    assert_eq!(generate_table_exists_sql(&schema), generate_table_exists_sql(&schema));
}
