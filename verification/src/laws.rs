//! The laws of the translation engine, stated and proved once for all
//! schemas: statement shape, placeholder round trips, primary-key handling,
//! determinism and quote balance.

use vstd::prelude::*;
use crate::model::{FieldModel, SchemaModel};
use crate::sql_generator::{
    non_pk_fields, pk_count, pk_fields, spec_col_def, spec_col_defs, spec_create_table_sql,
    spec_delete_sql, spec_field_names, spec_insert_sql, spec_placeholder, spec_placeholders,
    spec_select_by_id_sql, spec_select_sql, spec_set_clauses, spec_table_exists_sql,
    spec_update_sql, PlaceholderStyle,
};
use crate::text::{
    count_char, escape_sq, join, lemma_count_char_add, lemma_count_char_join, sum_count_char,
};

verus! {

/// Escaping doubles every single quote: the escaped text holds exactly twice
/// as many quote characters as the unescaped text.
pub proof fn lemma_escape_doubles_quotes(s: Seq<char>)
    ensures
        count_char(escape_sq(s), '\'') == 2 * count_char(s, '\''),
    decreases s.len(),
{
    reveal_with_fuel(count_char, 4);
    if s.len() > 0 {
        lemma_escape_doubles_quotes(s.drop_last());
        if s.last() == '\'' {
            lemma_count_char_add(escape_sq(s.drop_last()), seq!['\'', '\''], '\'');
            assert(count_char(seq!['\'', '\''], '\'') == 2);
        } else {
            lemma_count_char_add(escape_sq(s.drop_last()), seq![s.last()], '\'');
        }
    }
}

/// Escaping leaves every character other than the single quote as often in
/// the text as before.
pub proof fn lemma_escape_keeps_other(s: Seq<char>, c: char)
    requires
        c != '\'',
    ensures
        count_char(escape_sq(s), c) == count_char(s, c),
    decreases s.len(),
{
    reveal_with_fuel(count_char, 4);
    if s.len() > 0 {
        lemma_escape_keeps_other(s.drop_last(), c);
        if s.last() == '\'' {
            lemma_count_char_add(escape_sq(s.drop_last()), seq!['\'', '\''], c);
        } else {
            lemma_count_char_add(escape_sq(s.drop_last()), seq![s.last()], c);
        }
    }
}

/// Every statement is a function of the schema and the placeholder style
/// alone: two generation results for the same statement kind, schema and
/// style are byte-identical.
pub proof fn lemma_generation_deterministic(
    s: SchemaModel,
    style: PlaceholderStyle,
    r1: Seq<char>,
    r2: Seq<char>,
)
    requires
        (r1 == spec_create_table_sql(s) && r2 == spec_create_table_sql(s)) || (r1 == spec_insert_sql(
            s,
            style,
        ) && r2 == spec_insert_sql(s, style)) || (r1 == spec_update_sql(s, style) && r2
            == spec_update_sql(s, style)) || (r1 == spec_delete_sql(s, style) && r2
            == spec_delete_sql(s, style)) || (r1 == spec_select_sql(s) && r2 == spec_select_sql(s))
            || (r1 == spec_select_by_id_sql(s, style) && r2 == spec_select_by_id_sql(s, style)) || (
        r1 == spec_table_exists_sql(s) && r2 == spec_table_exists_sql(s)),
    ensures
        r1 == r2,
{
}

/// Extraction is deterministic: two resolutions of the same raw entity
/// description are identical, schema for schema and error for error.
pub proof fn lemma_extraction_deterministic(
    e: crate::model::RawEntityModel,
    r1: Result<SchemaModel, crate::model::ConfigurationError>,
    r2: Result<SchemaModel, crate::model::ConfigurationError>,
)
    requires
        r1 == crate::parser::spec_parse_struct(e),
        r2 == crate::parser::spec_parse_struct(e),
    ensures
        r1 == r2,
{
}

/// The INSERT statement round-trips the schema: it lists exactly one column
/// name per field and exactly one placeholder per field, in the same order,
/// the k-th name being the k-th field's and the k-th placeholder standing
/// for the k-th bound value.
pub proof fn lemma_insert_round_trip(s: SchemaModel, style: PlaceholderStyle)
    ensures
        spec_field_names(s.fields).len() == s.fields.len(),
        spec_placeholders(style, s.fields.len()).len() == s.fields.len(),
        forall|i: int|
            0 <= i < s.fields.len() ==> spec_field_names(s.fields)[i] == s.fields[i].name,
        forall|i: int|
            0 <= i < s.fields.len() ==> spec_placeholders(style, s.fields.len())[i]
                == spec_placeholder(style, (i + 1) as nat),
        spec_insert_sql(s, style) == "INSERT INTO "@ + s.table_name + " ("@ + join(
            spec_field_names(s.fields),
            ", "@,
        ) + ") VALUES ("@ + join(spec_placeholders(style, s.fields.len()), ", "@) + ");"@,
{
}

/// For a schema with exactly one primary-key field, the UPDATE statement's
/// WHERE clause references that field, bound last, and its SET clause
/// enumerates every non-primary-key field exactly once, in declaration
/// order, bound first.
pub proof fn lemma_update_shape(s: SchemaModel, style: PlaceholderStyle)
    requires
        pk_count(s) == 1,
    ensures
        pk_fields(s.fields)[0].is_primary_key,
        spec_set_clauses(s.fields, style).len() == non_pk_fields(s.fields).len(),
        forall|i: int|
            0 <= i < non_pk_fields(s.fields).len() ==> !(#[trigger] non_pk_fields(
                s.fields,
            )[i]).is_primary_key,
        forall|i: int|
            0 <= i < non_pk_fields(s.fields).len() ==> #[trigger] spec_set_clauses(s.fields, style)[i]
                == non_pk_fields(s.fields)[i].name + " = "@ + spec_placeholder(
                style,
                (i + 1) as nat,
            ),
        spec_update_sql(s, style) == ("UPDATE "@ + s.table_name + " SET "@ + join(
            spec_set_clauses(s.fields, style),
            ", "@,
        )) + (" WHERE "@ + pk_fields(s.fields)[0].name + " = "@ + spec_placeholder(
            style,
            non_pk_fields(s.fields).len() + 1,
        ) + ";"@),
{
    assert forall|i: int| 0 <= i < pk_fields(s.fields).len() implies (#[trigger] pk_fields(
        s.fields,
    )[i]).is_primary_key by {
        s.fields.lemma_filter_pred(|f: crate::model::FieldModel| f.is_primary_key, i);
    }
    assert forall|i: int| 0 <= i < non_pk_fields(s.fields).len() implies !(#[trigger] non_pk_fields(
        s.fields,
    )[i]).is_primary_key by {
        s.fields.lemma_filter_pred(|f: crate::model::FieldModel| !f.is_primary_key, i);
    }
    assert(spec_update_sql(s, style) =~= ("UPDATE "@ + s.table_name + " SET "@ + join(
        spec_set_clauses(s.fields, style),
        ", "@,
    )) + (" WHERE "@ + pk_fields(s.fields)[0].name + " = "@ + spec_placeholder(
        style,
        non_pk_fields(s.fields).len() + 1,
    ) + ";"@));
}

/// Occurrence counts of the comma and the single quote in the fixed pieces
/// of the CREATE TABLE statement.
proof fn lemma_create_table_literal_counts()
    ensures
        count_char("CREATE TABLE IF NOT EXISTS "@, ',') == 0,
        count_char(" (\n"@, ',') == 0,
        count_char(",\n"@, ',') == 1,
        count_char("\n)"@, ',') == 0,
        count_char(";"@, ',') == 0,
        count_char("    "@, ',') == 0,
        count_char(" "@, ',') == 0,
        count_char(" PRIMARY KEY"@, ',') == 0,
        count_char(" COMMENT '"@, ',') == 0,
        count_char("'"@, ',') == 0,
        count_char("CREATE TABLE IF NOT EXISTS "@, '\'') == 0,
        count_char(" (\n"@, '\'') == 0,
        count_char(",\n"@, '\'') == 0,
        count_char("\n)"@, '\'') == 0,
        count_char(";"@, '\'') == 0,
        count_char("    "@, '\'') == 0,
        count_char(" "@, '\'') == 0,
        count_char(" PRIMARY KEY"@, '\'') == 0,
        count_char(" COMMENT '"@, '\'') == 1,
        count_char("'"@, '\'') == 1,
{
    reveal_strlit("CREATE TABLE IF NOT EXISTS ");
    reveal_strlit(" (\n");
    reveal_strlit(",\n");
    reveal_strlit("\n)");
    reveal_strlit(";");
    reveal_strlit("    ");
    reveal_strlit(" ");
    reveal_strlit(" PRIMARY KEY");
    reveal_strlit(" COMMENT '");
    reveal_strlit("'");
    reveal_with_fuel(count_char, 30);
}

/// A sequence of comma-free parts sums to a comma-free whole.
proof fn lemma_sum_count_zero(parts: Seq<Seq<char>>, c: char)
    requires
        forall|i: int| 0 <= i < parts.len() ==> count_char(#[trigger] parts[i], c) == 0,
    ensures
        sum_count_char(parts, c) == 0,
    decreases parts.len(),
{
    if parts.len() > 0 {
        lemma_sum_count_zero(parts.drop_last(), c);
    }
}

/// Parts with even counts sum to an even count.
proof fn lemma_sum_count_even(parts: Seq<Seq<char>>, c: char)
    requires
        forall|i: int| 0 <= i < parts.len() ==> count_char(#[trigger] parts[i], c) % 2 == 0,
    ensures
        sum_count_char(parts, c) % 2 == 0,
    decreases parts.len(),
{
    if parts.len() > 0 {
        lemma_sum_count_even(parts.drop_last(), c);
    }
}

/// A column definition built from comma-free name, type and comment holds no
/// comma of its own.
proof fn lemma_col_def_comma_free(f: FieldModel)
    requires
        count_char(f.name, ',') == 0,
        count_char(f.sql_type, ',') == 0,
        f.comment matches Some(c) ==> count_char(c, ',') == 0,
    ensures
        count_char(spec_col_def(f), ',') == 0,
{
    lemma_create_table_literal_counts();
    let pk_part = if f.is_primary_key {
        " PRIMARY KEY"@
    } else {
        Seq::<char>::empty()
    };
    let comment_part = match f.comment {
        Some(c) => " COMMENT '"@ + escape_sq(c) + "'"@,
        None => Seq::<char>::empty(),
    };
    match f.comment {
        Some(c) => {
            lemma_escape_keeps_other(c, ',');
            lemma_count_char_add(" COMMENT '"@, escape_sq(c), ',');
            lemma_count_char_add(" COMMENT '"@ + escape_sq(c), "'"@, ',');
        },
        None => {},
    }
    lemma_count_char_add("    "@, f.name, ',');
    lemma_count_char_add("    "@ + f.name, " "@, ',');
    lemma_count_char_add("    "@ + f.name + " "@, f.sql_type, ',');
    lemma_count_char_add("    "@ + f.name + " "@ + f.sql_type, pk_part, ',');
    lemma_count_char_add("    "@ + f.name + " "@ + f.sql_type + pk_part, comment_part, ',');
}

/// A column definition built from quote-free name and type holds an even
/// number of single quotes, whatever quotes its comment holds.
proof fn lemma_col_def_quotes_even(f: FieldModel)
    requires
        count_char(f.name, '\'') == 0,
        count_char(f.sql_type, '\'') == 0,
    ensures
        count_char(spec_col_def(f), '\'') % 2 == 0,
{
    lemma_create_table_literal_counts();
    let pk_part = if f.is_primary_key {
        " PRIMARY KEY"@
    } else {
        Seq::<char>::empty()
    };
    let comment_part = match f.comment {
        Some(c) => " COMMENT '"@ + escape_sq(c) + "'"@,
        None => Seq::<char>::empty(),
    };
    match f.comment {
        Some(c) => {
            lemma_escape_doubles_quotes(c);
            lemma_count_char_add(" COMMENT '"@, escape_sq(c), '\'');
            lemma_count_char_add(" COMMENT '"@ + escape_sq(c), "'"@, '\'');
        },
        None => {},
    }
    lemma_count_char_add("    "@, f.name, '\'');
    lemma_count_char_add("    "@ + f.name, " "@, '\'');
    lemma_count_char_add("    "@ + f.name + " "@, f.sql_type, '\'');
    lemma_count_char_add("    "@ + f.name + " "@ + f.sql_type, pk_part, '\'');
    lemma_count_char_add("    "@ + f.name + " "@ + f.sql_type + pk_part, comment_part, '\'');
}

/// Every CREATE TABLE statement starts with `CREATE TABLE`.
pub proof fn lemma_create_table_prefix(s: SchemaModel)
    ensures
        spec_create_table_sql(s).len() >= "CREATE TABLE"@.len(),
        spec_create_table_sql(s).subrange(0, "CREATE TABLE"@.len() as int) == "CREATE TABLE"@,
{
    reveal_strlit("CREATE TABLE");
    reveal_strlit("CREATE TABLE IF NOT EXISTS ");
    assert("CREATE TABLE"@.len() == 12);
    assert("CREATE TABLE IF NOT EXISTS "@.len() == 27);
    assert(spec_create_table_sql(s).subrange(0, 12) =~= "CREATE TABLE"@);
}

/// With SQL-safe (comma-free) names, types and comments, the commas of a
/// CREATE TABLE statement are exactly those separating neighbouring column
/// definitions: one fewer than there are fields.
pub proof fn lemma_create_table_commas(s: SchemaModel)
    requires
        s.fields.len() > 0,
        count_char(s.table_name, ',') == 0,
        forall|i: int| 0 <= i < s.fields.len() ==> count_char((#[trigger] s.fields[i]).name, ',') == 0,
        forall|i: int|
            0 <= i < s.fields.len() ==> count_char((#[trigger] s.fields[i]).sql_type, ',') == 0,
        forall|i: int|
            0 <= i < s.fields.len() ==> ((#[trigger] s.fields[i]).comment matches Some(c)
                ==> count_char(c, ',') == 0),
        s.comment matches Some(c) ==> count_char(c, ',') == 0,
    ensures
        count_char(spec_create_table_sql(s), ',') == s.fields.len() - 1,
{
    lemma_create_table_literal_counts();
    let defs = spec_col_defs(s.fields);
    assert(defs.len() == s.fields.len());
    assert forall|i: int| 0 <= i < defs.len() implies count_char(#[trigger] defs[i], ',') == 0 by {
        assert(defs[i] == spec_col_def(s.fields[i]));
        lemma_col_def_comma_free(s.fields[i]);
    }
    lemma_sum_count_zero(defs, ',');
    lemma_count_char_join(defs, ",\n"@, ',');
    assert(count_char(join(defs, ",\n"@), ',') == s.fields.len() - 1);
    let comment_part = match s.comment {
        Some(c) => " COMMENT '"@ + escape_sq(c) + "'"@,
        None => Seq::<char>::empty(),
    };
    match s.comment {
        Some(c) => {
            lemma_escape_keeps_other(c, ',');
            lemma_count_char_add(" COMMENT '"@, escape_sq(c), ',');
            lemma_count_char_add(" COMMENT '"@ + escape_sq(c), "'"@, ',');
        },
        None => {},
    }
    let p1 = "CREATE TABLE IF NOT EXISTS "@;
    let p2 = p1 + s.table_name;
    let p3 = p2 + " (\n"@;
    let p4 = p3 + join(defs, ",\n"@);
    let p5 = p4 + "\n)"@;
    let p6 = p5 + comment_part;
    lemma_count_char_add(p1, s.table_name, ',');
    lemma_count_char_add(p2, " (\n"@, ',');
    lemma_count_char_add(p3, join(defs, ",\n"@), ',');
    lemma_count_char_add(p4, "\n)"@, ',');
    lemma_count_char_add(p5, comment_part, ',');
    lemma_count_char_add(p6, ";"@, ',');
}

/// With SQL-safe (quote-free) table name, field names and types, every
/// CREATE TABLE statement holds an even number of single quotes: comment
/// escaping keeps the statement's quoting balanced, whatever quotes the
/// comments hold.
pub proof fn lemma_create_table_quotes_balanced(s: SchemaModel)
    requires
        count_char(s.table_name, '\'') == 0,
        forall|i: int|
            0 <= i < s.fields.len() ==> count_char((#[trigger] s.fields[i]).name, '\'') == 0,
        forall|i: int|
            0 <= i < s.fields.len() ==> count_char((#[trigger] s.fields[i]).sql_type, '\'') == 0,
    ensures
        count_char(spec_create_table_sql(s), '\'') % 2 == 0,
{
    lemma_create_table_literal_counts();
    let defs = spec_col_defs(s.fields);
    assert forall|i: int| 0 <= i < defs.len() implies count_char(#[trigger] defs[i], '\'') % 2
        == 0 by {
        assert(defs[i] == spec_col_def(s.fields[i]));
        lemma_col_def_quotes_even(s.fields[i]);
    }
    lemma_sum_count_even(defs, '\'');
    if defs.len() > 0 {
        lemma_count_char_join(defs, ",\n"@, '\'');
    }
    let comment_part = match s.comment {
        Some(c) => " COMMENT '"@ + escape_sq(c) + "'"@,
        None => Seq::<char>::empty(),
    };
    match s.comment {
        Some(c) => {
            lemma_escape_doubles_quotes(c);
            lemma_count_char_add(" COMMENT '"@, escape_sq(c), '\'');
            lemma_count_char_add(" COMMENT '"@ + escape_sq(c), "'"@, '\'');
        },
        None => {},
    }
    let p1 = "CREATE TABLE IF NOT EXISTS "@;
    let p2 = p1 + s.table_name;
    let p3 = p2 + " (\n"@;
    let p4 = p3 + join(defs, ",\n"@);
    let p5 = p4 + "\n)"@;
    let p6 = p5 + comment_part;
    lemma_count_char_add(p1, s.table_name, '\'');
    lemma_count_char_add(p2, " (\n"@, '\'');
    lemma_count_char_add(p3, join(defs, ",\n"@), '\'');
    lemma_count_char_add(p4, "\n)"@, '\'');
    lemma_count_char_add(p5, comment_part, '\'');
    lemma_count_char_add(p6, ";"@, '\'');
}

} // verus!
