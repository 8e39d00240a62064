use sql_crud::model::{Attr, ConfigurationError, NativeType, RawBody, RawEntity, RawField};
use sql_crud::parser::{parse_field, parse_struct};
use sql_crud::utils::{extract_comment, get_table_name, map_type_to_sql};

fn named(name: &str) -> NativeType {
    NativeType::Name(name.to_string())
}

fn plain_field(name: &str, ty: &str) -> RawField {
    RawField { name: name.to_string(), ty: named(ty), attrs: vec![] }
}

#[test]
fn maps_known_scalar_types() {
    assert_eq!(map_type_to_sql(&named("i32")), "INT");
    assert_eq!(map_type_to_sql(&named("i64")), "BIGINT");
    assert_eq!(map_type_to_sql(&named("String")), "VARCHAR(255)");
    assert_eq!(map_type_to_sql(&named("bool")), "BOOLEAN");
    assert_eq!(map_type_to_sql(&named("f32")), "FLOAT");
    assert_eq!(map_type_to_sql(&named("f64")), "DOUBLE");
    assert_eq!(map_type_to_sql(&named("NaiveDateTime")), "DATETIME");
    assert_eq!(map_type_to_sql(&named("Uuid")), "UUID");
}

#[test]
fn passes_unknown_named_types_through() {
    assert_eq!(map_type_to_sql(&named("MyEnum")), "MyEnum");
    assert_eq!(map_type_to_sql(&named("i16")), "i16");
}

#[test]
fn type_mapping_is_case_sensitive() {
    assert_eq!(map_type_to_sql(&named("I32")), "I32");
    assert_eq!(map_type_to_sql(&named("string")), "string");
}

#[test]
fn unnamed_types_become_text() {
    assert_eq!(map_type_to_sql(&NativeType::Unnamed), "TEXT");
}

#[test]
fn table_name_defaults_to_lower_cased_entity_name() {
    assert_eq!(get_table_name(&vec![], "User"), "user");
    assert_eq!(get_table_name(&vec![], "UserAccount"), "useraccount");
}

#[test]
fn table_name_default_lower_cases_beyond_ascii() {
    assert_eq!(get_table_name(&vec![], "\u{00C9}clair"), "\u{00E9}clair");
    assert_eq!(get_table_name(&vec![], "\u{0393}amma"), "\u{03B3}amma");
}

#[test]
fn table_name_annotation_wins() {
    let attrs = vec![Attr::Other, Attr::TableName("accounts".to_string())];
    assert_eq!(get_table_name(&attrs, "User"), "accounts");
}

#[test]
fn first_table_name_annotation_wins() {
    let attrs = vec![
        Attr::TableName("first".to_string()),
        Attr::TableName("second".to_string()),
    ];
    assert_eq!(get_table_name(&attrs, "User"), "first");
}

#[test]
fn no_comment_without_annotations() {
    assert_eq!(extract_comment(&vec![Attr::PrimaryKey, Attr::Other]), None);
}

#[test]
fn doc_lines_are_trimmed_and_space_joined() {
    let attrs = vec![
        Attr::Doc(" first line ".to_string()),
        Attr::Doc("\tsecond line".to_string()),
    ];
    assert_eq!(extract_comment(&attrs), Some("first line second line".to_string()));
}

#[test]
fn doc_lines_are_trimmed_of_every_unicode_blank() {
    let attrs = vec![
        Attr::Doc("\u{3000}\u{000B}first\u{000C}".to_string()),
        Attr::Doc("\u{00A0}second\u{2028}\u{205F}".to_string()),
    ];
    assert_eq!(extract_comment(&attrs), Some("first second".to_string()));
}

#[test]
fn explicit_comment_wins_over_doc_lines() {
    let attrs = vec![
        Attr::Doc(" ignored ".to_string()),
        Attr::Comment("the comment".to_string()),
    ];
    assert_eq!(extract_comment(&attrs), Some("the comment".to_string()));
}

#[test]
fn last_explicit_comment_wins() {
    let attrs = vec![
        Attr::Comment("older".to_string()),
        Attr::Comment("newer".to_string()),
    ];
    assert_eq!(extract_comment(&attrs), Some("newer".to_string()));
}

#[test]
fn explicit_comment_is_not_trimmed() {
    let attrs = vec![Attr::Comment(" spaced ".to_string())];
    assert_eq!(extract_comment(&attrs), Some(" spaced ".to_string()));
}

#[test]
fn parse_field_resolves_type_and_key() {
    let field = RawField {
        name: "id".to_string(),
        ty: named("i32"),
        attrs: vec![Attr::PrimaryKey],
    };
    let parsed = parse_field(&field);
    assert_eq!(parsed.name, "id");
    assert_eq!(parsed.sql_type, "INT");
    assert!(parsed.is_primary_key);
    assert_eq!(parsed.comment, None);
}

#[test]
fn parse_field_sql_type_annotation_wins() {
    let field = RawField {
        name: "body".to_string(),
        ty: named("String"),
        attrs: vec![Attr::SqlType("TEXT".to_string())],
    };
    let parsed = parse_field(&field);
    assert_eq!(parsed.sql_type, "TEXT");
    assert!(!parsed.is_primary_key);
}

#[test]
fn parse_field_collects_doc_comment() {
    let field = RawField {
        name: "email".to_string(),
        ty: named("String"),
        attrs: vec![Attr::Doc(" user email ".to_string())],
    };
    let parsed = parse_field(&field);
    assert_eq!(parsed.comment, Some("user email".to_string()));
}

#[test]
fn parse_struct_resolves_whole_entity() {
    let entity = RawEntity {
        name: "User".to_string(),
        attrs: vec![Attr::Comment("user table".to_string())],
        body: RawBody::Named(vec![
            RawField {
                name: "id".to_string(),
                ty: named("i32"),
                attrs: vec![Attr::PrimaryKey],
            },
            plain_field("name", "String"),
        ]),
    };
    let parsed = parse_struct(&entity).unwrap();
    assert_eq!(parsed.name, "User");
    assert_eq!(parsed.table_name, "user");
    assert_eq!(parsed.comment, Some("user table".to_string()));
    assert_eq!(parsed.fields.len(), 2);
    assert_eq!(parsed.fields[0].name, "id");
    assert!(parsed.fields[0].is_primary_key);
    assert_eq!(parsed.fields[1].sql_type, "VARCHAR(255)");
    assert!(!parsed.fields[1].is_primary_key);
}

#[test]
fn parse_struct_rejects_non_struct() {
    let entity = RawEntity {
        name: "Kind".to_string(),
        attrs: vec![],
        body: RawBody::NotAStruct,
    };
    assert_eq!(parse_struct(&entity).unwrap_err(), ConfigurationError::NotAStruct);
}

#[test]
fn parse_struct_rejects_tuple_record() {
    let entity = RawEntity {
        name: "Pair".to_string(),
        attrs: vec![],
        body: RawBody::Tuple,
    };
    assert_eq!(parse_struct(&entity).unwrap_err(), ConfigurationError::UnnamedFields);
}

#[test]
fn parse_struct_rejects_unit_record() {
    let entity = RawEntity {
        name: "Marker".to_string(),
        attrs: vec![],
        body: RawBody::Unit,
    };
    assert_eq!(parse_struct(&entity).unwrap_err(), ConfigurationError::UnnamedFields);
}

#[test]
fn parse_struct_rejects_empty_record() {
    let entity = RawEntity {
        name: "Empty".to_string(),
        attrs: vec![],
        body: RawBody::Named(vec![]),
    };
    assert_eq!(parse_struct(&entity).unwrap_err(), ConfigurationError::EmptyFields);
}

#[test]
fn extraction_is_deterministic() {
    let make = || RawEntity {
        name: "Item".to_string(),
        attrs: vec![Attr::Doc(" an item ".to_string())],
        body: RawBody::Named(vec![plain_field("id", "i64"), plain_field("label", "String")]),
    };
    let a = parse_struct(&make()).unwrap();
    let b = parse_struct(&make()).unwrap();
    assert_eq!(a.table_name, b.table_name);
    assert_eq!(a.comment, b.comment);
    assert_eq!(a.fields.len(), b.fields.len());
    for (fa, fb) in a.fields.iter().zip(b.fields.iter()) {
        assert_eq!(fa.name, fb.name);
        assert_eq!(fa.sql_type, fb.sql_type);
        assert_eq!(fa.is_primary_key, fb.is_primary_key);
        assert_eq!(fa.comment, fb.comment);
    }
}
