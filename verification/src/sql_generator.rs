//! The SQL generators: pure functions from an entity schema to statement
//! text. Every statement is deterministic and order-stable: columns appear
//! exactly in schema field order, and bound placeholders are numbered in the
//! order the execution adapter binds values.

use vstd::prelude::*;
use vstd::string::*;
use crate::model::{FieldModel, MissingPrimaryKeyError, ParsedField, ParsedStruct, SchemaModel};
use crate::text::{append_dec, dec_rep, escape_quotes, escape_sq, join};

verus! {

broadcast use vstd::string::group_string_axioms;

/// The placeholder convention used for bound values, chosen once per
/// generator and used consistently across all statements of a schema.
#[derive(Clone, Copy, Debug, PartialEq, Eq)]
pub enum PlaceholderStyle {
    /// Numbered positional placeholders: `$1`, `$2`, and so on.
    Numbered,
    /// A bare `?` for every bound value.
    Question,
}

/// The text of the placeholder standing for the `i`-th bound value (`i`
/// counted from one).
pub open spec fn spec_placeholder(style: PlaceholderStyle, i: nat) -> Seq<char> {
    match style {
        PlaceholderStyle::Numbered => seq!['$'] + dec_rep(i),
        PlaceholderStyle::Question => seq!['?'],
    }
}

/// The placeholders for `n` bound values, in binding order.
pub open spec fn spec_placeholders(style: PlaceholderStyle, n: nat) -> Seq<Seq<char>> {
    Seq::new(n, |i: int| spec_placeholder(style, (i + 1) as nat))
}

/// The names of the fields, in declaration order.
pub open spec fn spec_field_names(fields: Seq<FieldModel>) -> Seq<Seq<char>> {
    fields.map_values(|f: FieldModel| f.name)
}

/// The fields that are not primary keys, in declaration order.
pub open spec fn non_pk_fields(fields: Seq<FieldModel>) -> Seq<FieldModel> {
    fields.filter(|f: FieldModel| !f.is_primary_key)
}

/// The fields marked as primary keys, in declaration order.
pub open spec fn pk_fields(fields: Seq<FieldModel>) -> Seq<FieldModel> {
    fields.filter(|f: FieldModel| f.is_primary_key)
}

/// How many fields of the schema are marked as primary keys.
pub open spec fn pk_count(s: SchemaModel) -> nat {
    pk_fields(s.fields).len()
}

/// Appends the placeholder for the `i`-th bound value to `out`.
fn append_placeholder(out: &mut String, style: PlaceholderStyle, i: usize)
    ensures
        final (out)@ == old(out)@ + spec_placeholder(style, i as nat),
{
    match style {
        PlaceholderStyle::Numbered => {
            proof {
                reveal_strlit("$");
                assert("$"@ =~= seq!['$']);
            }
            out.append("$");
            append_dec(out, i as u64);
        },
        PlaceholderStyle::Question => {
            proof {
                reveal_strlit("?");
                assert("?"@ =~= seq!['?']);
            }
            out.append("?");
        },
    }
}

/// Appends the parts joined with `sep` between neighbours to `out`.
fn append_joined(out: &mut String, parts: &Vec<String>, sep: &str)
    ensures
        final (out)@ == old(out)@ + join(parts.deep_view(), sep@),
{
    let ghost pv = parts.deep_view();
    let ghost base = out@;
    let mut i: usize = 0;
    while i < parts.len()
        invariant
            pv == parts.deep_view(),
            pv.len() == parts@.len(),
            i <= parts@.len(),
            out@ == base + join(pv.take(i as int), sep@),
        decreases parts@.len() - i,
    {
        if i > 0 {
            out.append(sep);
        }
        out.append(parts[i].as_str());
        proof {
            assert(pv[i as int] == parts@[i as int]@);
            assert(pv.take(i as int + 1).drop_last() =~= pv.take(i as int));
            assert(pv.take(i as int + 1).last() == pv[i as int]);
            if i == 0 {
                assert(join(pv.take(1), sep@) == pv.take(1)[0]);
                assert(base + join(Seq::<Seq<char>>::empty(), sep@) =~= base);
            }
        }
        i = i + 1;
    }
    proof {
        assert(pv.take(parts@.len() as int) =~= pv);
        if parts@.len() == 0 {
            assert(base + join(pv, sep@) =~= base);
        }
    }
}

/// The names of the fields, cloned in declaration order.
fn field_name_strings(fields: &Vec<ParsedField>) -> (r: Vec<String>)
    ensures
        r.deep_view() == spec_field_names(fields.deep_view()),
{
    let ghost fv = fields.deep_view();
    let mut names: Vec<String> = Vec::new();
    let mut i: usize = 0;
    while i < fields.len()
        invariant
            fv == fields.deep_view(),
            fv.len() == fields@.len(),
            i <= fields@.len(),
            names.deep_view() == fv.take(i as int).map_values(|f: FieldModel| f.name),
        decreases fields@.len() - i,
    {
        let ghost prev = names.deep_view();
        names.push(fields[i].name.clone());
        proof {
            assert(fv[i as int] == fields@[i as int]@);
            assert(names.deep_view() =~= prev.push(fields@[i as int].name@));
            assert(fv.take(i as int + 1).map_values(|f: FieldModel| f.name) =~= prev.push(
                fv[i as int].name,
            ));
        }
        i = i + 1;
    }
    proof {
        assert(fv.take(fields@.len() as int) =~= fv);
    }
    names
}

/// The placeholder texts for `n` bound values, in binding order.
fn placeholder_strings(style: PlaceholderStyle, n: usize) -> (r: Vec<String>)
    ensures
        r.deep_view() == spec_placeholders(style, n as nat),
{
    let mut parts: Vec<String> = Vec::new();
    let mut i: usize = 0;
    while i < n
        invariant
            i <= n,
            parts.deep_view() == spec_placeholders(style, i as nat),
        decreases n - i,
    {
        let ghost prev = parts.deep_view();
        let mut p = String::new();
        append_placeholder(&mut p, style, i + 1);
        parts.push(p);
        proof {
            assert(parts.deep_view() =~= prev.push(spec_placeholder(style, i as nat + 1)));
            assert(spec_placeholders(style, i as nat + 1) =~= prev.push(
                spec_placeholder(style, i as nat + 1),
            ));
        }
        i = i + 1;
    }
    parts
}

/// One column definition inside `CREATE TABLE`: indented name and type, an
/// inline `PRIMARY KEY` marker where the field carries one, and the escaped
/// column comment where the field has one.
pub open spec fn spec_col_def(f: FieldModel) -> Seq<char> {
    "    "@ + f.name + " "@ + f.sql_type + (if f.is_primary_key {
        " PRIMARY KEY"@
    } else {
        Seq::<char>::empty()
    }) + (match f.comment {
        Some(c) => " COMMENT '"@ + escape_sq(c) + "'"@,
        None => Seq::<char>::empty(),
    })
}

/// The column definitions, in declaration order.
pub open spec fn spec_col_defs(fields: Seq<FieldModel>) -> Seq<Seq<char>> {
    fields.map_values(|f: FieldModel| spec_col_def(f))
}

/// The `CREATE TABLE` statement: one column definition per field, in field
/// order, and the escaped table comment where the schema has one.
pub open spec fn spec_create_table_sql(s: SchemaModel) -> Seq<char> {
    "CREATE TABLE IF NOT EXISTS "@ + s.table_name + " (\n"@ + join(spec_col_defs(s.fields), ",\n"@)
        + "\n)"@ + (match s.comment {
        Some(c) => " COMMENT '"@ + escape_sq(c) + "'"@,
        None => Seq::<char>::empty(),
    }) + ";"@
}

/// The `INSERT` statement: every field name in declaration order, then one
/// placeholder per field in the same order.
pub open spec fn spec_insert_sql(s: SchemaModel, style: PlaceholderStyle) -> Seq<char> {
    "INSERT INTO "@ + s.table_name + " ("@ + join(spec_field_names(s.fields), ", "@)
        + ") VALUES ("@ + join(spec_placeholders(style, s.fields.len()), ", "@) + ");"@
}

/// The `SELECT`-all statement: every field name in declaration order.
pub open spec fn spec_select_sql(s: SchemaModel) -> Seq<char> {
    "SELECT "@ + join(spec_field_names(s.fields), ", "@) + " FROM "@ + s.table_name + ";"@
}

/// The catalog query that tells whether the table exists.
pub open spec fn spec_table_exists_sql(s: SchemaModel) -> Seq<char> {
    "SELECT name FROM sqlite_master WHERE type = 'table' AND name = '"@ + s.table_name + "';"@
}

/// Builds one column definition.
fn col_def_string(f: &ParsedField) -> (r: String)
    ensures
        r@ == spec_col_def(f@),
{
    let mut d = String::from_str("    ");
    d.append(f.name.as_str());
    d.append(" ");
    d.append(f.sql_type.as_str());
    if f.is_primary_key {
        d.append(" PRIMARY KEY");
    }
    match &f.comment {
        Some(c) => {
            d.append(" COMMENT '");
            let e = escape_quotes(c.as_str());
            d.append(e.as_str());
            d.append("'");
        },
        None => {},
    }
    proof {
        assert(d@ =~= spec_col_def(f@));
    }
    d
}

/// The column definitions, in declaration order.
fn col_def_strings(fields: &Vec<ParsedField>) -> (r: Vec<String>)
    ensures
        r.deep_view() == spec_col_defs(fields.deep_view()),
{
    let ghost fv = fields.deep_view();
    let mut defs: Vec<String> = Vec::new();
    let mut i: usize = 0;
    while i < fields.len()
        invariant
            fv == fields.deep_view(),
            fv.len() == fields@.len(),
            i <= fields@.len(),
            defs.deep_view() == spec_col_defs(fv.take(i as int)),
        decreases fields@.len() - i,
    {
        let ghost prev = defs.deep_view();
        let d = col_def_string(&fields[i]);
        defs.push(d);
        proof {
            assert(fv[i as int] == fields@[i as int]@);
            assert(defs.deep_view() =~= prev.push(spec_col_def(fv[i as int])));
            assert(spec_col_defs(fv.take(i as int + 1)) =~= prev.push(spec_col_def(fv[i as int])));
        }
        i = i + 1;
    }
    proof {
        assert(fv.take(fields@.len() as int) =~= fv);
    }
    defs
}

/// The `SET` clauses of `UPDATE`: one per non-primary-key field, in
/// declaration order, the `k`-th bound to the `k`-th placeholder.
pub open spec fn spec_set_clauses(fields: Seq<FieldModel>, style: PlaceholderStyle) -> Seq<
    Seq<char>,
> {
    Seq::new(
        non_pk_fields(fields).len(),
        |i: int| non_pk_fields(fields)[i].name + " = "@ + spec_placeholder(style, (i + 1) as nat),
    )
}

/// The `UPDATE` statement for a schema with exactly one primary-key field:
/// every non-primary-key field is set, in declaration order, bound first;
/// the primary key is bound last, in the `WHERE` clause.
pub open spec fn spec_update_sql(s: SchemaModel, style: PlaceholderStyle) -> Seq<char> {
    "UPDATE "@ + s.table_name + " SET "@ + join(spec_set_clauses(s.fields, style), ", "@)
        + " WHERE "@ + pk_fields(s.fields)[0].name + " = "@ + spec_placeholder(
        style,
        non_pk_fields(s.fields).len() + 1,
    ) + ";"@
}

/// The `DELETE` statement for a schema with exactly one primary-key field.
pub open spec fn spec_delete_sql(s: SchemaModel, style: PlaceholderStyle) -> Seq<char> {
    "DELETE FROM "@ + s.table_name + " WHERE "@ + pk_fields(s.fields)[0].name + " = "@
        + spec_placeholder(style, 1) + ";"@
}

/// The `SELECT`-by-key statement for a schema with exactly one primary-key
/// field: every field name in declaration order, filtered by the key.
pub open spec fn spec_select_by_id_sql(s: SchemaModel, style: PlaceholderStyle) -> Seq<char> {
    "SELECT "@ + join(spec_field_names(s.fields), ", "@) + " FROM "@ + s.table_name + " WHERE "@
        + pk_fields(s.fields)[0].name + " = "@ + spec_placeholder(style, 1) + ";"@
}

/// A field marked as a primary key is not among the non-primary-key fields,
/// so those number strictly fewer than all fields.
proof fn lemma_non_pk_fewer(fields: Seq<FieldModel>, i: int)
    requires
        0 <= i < fields.len(),
        fields[i].is_primary_key,
    ensures
        non_pk_fields(fields).len() < fields.len(),
    decreases fields.len(),
{
    reveal(Seq::filter);
    if i == fields.len() - 1 {
        fields.drop_last().lemma_filter_len(|f: FieldModel| !f.is_primary_key);
    } else {
        lemma_non_pk_fewer(fields.drop_last(), i);
    }
}

/// The index of the only primary-key field, where there is exactly one.
fn find_single_pk(fields: &Vec<ParsedField>) -> (r: Option<usize>)
    ensures
        match r {
            Some(i) => pk_fields(fields.deep_view()).len() == 1 && i < fields@.len()
                && fields.deep_view()[i as int].is_primary_key && pk_fields(
                fields.deep_view(),
            )[0] == fields.deep_view()[i as int],
            None => pk_fields(fields.deep_view()).len() != 1,
        },
{
    let ghost fv = fields.deep_view();
    let mut count: usize = 0;
    let mut idx: usize = 0;
    let mut i: usize = 0;
    proof {
        reveal(Seq::filter);
        assert(fv.take(0) =~= Seq::<FieldModel>::empty());
    }
    while i < fields.len()
        invariant
            fv == fields.deep_view(),
            fv.len() == fields@.len(),
            i <= fields@.len(),
            count == pk_fields(fv.take(i as int)).len(),
            count > 0 ==> idx < i && fv[idx as int].is_primary_key && pk_fields(
                fv.take(i as int),
            )[0] == fv[idx as int],
            count <= i,
        decreases fields@.len() - i,
    {
        proof {
            reveal(Seq::filter);
            assert(fv[i as int] == fields@[i as int]@);
            assert(fv.take(i as int + 1).drop_last() =~= fv.take(i as int));
            assert(fv.take(i as int + 1).last() == fv[i as int]);
        }
        if fields[i].is_primary_key {
            if count == 0 {
                idx = i;
            }
            count = count + 1;
        }
        i = i + 1;
    }
    proof {
        assert(fv.take(fields@.len() as int) =~= fv);
    }
    if count == 1 {
        Some(idx)
    } else {
        None
    }
}

/// The `SET` clause texts, in declaration order of the non-primary-key
/// fields.
fn set_clause_strings(fields: &Vec<ParsedField>, style: PlaceholderStyle) -> (r: Vec<String>)
    ensures
        r.deep_view() == spec_set_clauses(fields.deep_view(), style),
        r@.len() == non_pk_fields(fields.deep_view()).len(),
{
    let ghost fv = fields.deep_view();
    let mut clauses: Vec<String> = Vec::new();
    let mut i: usize = 0;
    proof {
        reveal(Seq::filter);
        assert(fv.take(0) =~= Seq::<FieldModel>::empty());
        assert(clauses.deep_view() =~= spec_set_clauses(fv.take(0), style));
    }
    while i < fields.len()
        invariant
            fv == fields.deep_view(),
            fv.len() == fields@.len(),
            i <= fields@.len(),
            clauses@.len() == non_pk_fields(fv.take(i as int)).len(),
            clauses.deep_view() == spec_set_clauses(fv.take(i as int), style),
        decreases fields@.len() - i,
    {
        let ghost prev = clauses.deep_view();
        proof {
            reveal(Seq::filter);
            assert(fv[i as int] == fields@[i as int]@);
            assert(fv.take(i as int + 1).drop_last() =~= fv.take(i as int));
            assert(fv.take(i as int + 1).last() == fv[i as int]);
        }
        if !fields[i].is_primary_key {
            let k = clauses.len();
            let mut clause = String::new();
            clause.append(fields[i].name.as_str());
            clause.append(" = ");
            append_placeholder(&mut clause, style, k + 1);
            clauses.push(clause);
            proof {
                assert(non_pk_fields(fv.take(i as int + 1)) =~= non_pk_fields(
                    fv.take(i as int),
                ).push(fv[i as int]));
                assert(clause@ =~= fv[i as int].name + " = "@ + spec_placeholder(
                    style,
                    (k + 1) as nat,
                ));
                assert(clauses.deep_view() =~= prev.push(clause@));
                assert(spec_set_clauses(fv.take(i as int + 1), style) =~= prev.push(clause@));
            }
        } else {
            proof {
                assert(non_pk_fields(fv.take(i as int + 1)) =~= non_pk_fields(fv.take(i as int)));
                assert(spec_set_clauses(fv.take(i as int + 1), style) =~= prev);
            }
        }
        i = i + 1;
    }
    proof {
        assert(fv.take(fields@.len() as int) =~= fv);
    }
    clauses
}

/// A statement generator with a fixed placeholder convention.
#[derive(Clone, Copy, Debug)]
pub struct SqlGenerator {
    pub style: PlaceholderStyle,
}

impl SqlGenerator {
    /// A generator that uses `style` for every statement it produces.
    pub fn new(style: PlaceholderStyle) -> (r: Self)
        ensures
            r.style == style,
    {
        SqlGenerator { style }
    }

    /// The `CREATE TABLE` statement for the schema.
    pub fn create_table(&self, schema: &ParsedStruct) -> (r: String)
        ensures
            r@ == spec_create_table_sql(schema@),
    {
        let defs = col_def_strings(&schema.fields);
        let mut out = String::from_str("CREATE TABLE IF NOT EXISTS ");
        out.append(schema.table_name.as_str());
        out.append(" (\n");
        append_joined(&mut out, &defs, ",\n");
        out.append("\n)");
        match &schema.comment {
            Some(c) => {
                out.append(" COMMENT '");
                let e = escape_quotes(c.as_str());
                out.append(e.as_str());
                out.append("'");
            },
            None => {},
        }
        out.append(";");
        proof {
            assert(out@ =~= spec_create_table_sql(schema@));
        }
        out
    }

    /// The `INSERT` statement for the schema.
    pub fn insert(&self, schema: &ParsedStruct) -> (r: String)
        ensures
            r@ == spec_insert_sql(schema@, self.style),
    {
        let names = field_name_strings(&schema.fields);
        let placeholders = placeholder_strings(self.style, schema.fields.len());
        let mut out = String::from_str("INSERT INTO ");
        out.append(schema.table_name.as_str());
        out.append(" (");
        append_joined(&mut out, &names, ", ");
        out.append(") VALUES (");
        append_joined(&mut out, &placeholders, ", ");
        out.append(");");
        proof {
            assert(out@ =~= spec_insert_sql(schema@, self.style));
        }
        out
    }

    /// The `SELECT`-all statement for the schema.
    pub fn select_all(&self, schema: &ParsedStruct) -> (r: String)
        ensures
            r@ == spec_select_sql(schema@),
    {
        let names = field_name_strings(&schema.fields);
        let mut out = String::from_str("SELECT ");
        append_joined(&mut out, &names, ", ");
        out.append(" FROM ");
        out.append(schema.table_name.as_str());
        out.append(";");
        proof {
            assert(out@ =~= spec_select_sql(schema@));
        }
        out
    }

    /// The catalog query that tells whether the schema's table exists.
    pub fn table_exists_check(&self, schema: &ParsedStruct) -> (r: String)
        ensures
            r@ == spec_table_exists_sql(schema@),
    {
        let mut out = String::from_str("SELECT name FROM sqlite_master WHERE type = 'table' AND name = '");
        out.append(schema.table_name.as_str());
        out.append("';");
        proof {
            assert(out@ =~= spec_table_exists_sql(schema@));
        }
        out
    }

    /// The `UPDATE` statement for the schema. Fails if and only if the
    /// schema does not have exactly one primary-key field.
    pub fn update(&self, schema: &ParsedStruct) -> (r: Result<String, MissingPrimaryKeyError>)
        ensures
            r is Ok <==> pk_count(schema@) == 1,
            r is Ok ==> r->Ok_0@ == spec_update_sql(schema@, self.style),
    {
        let pk_idx = match find_single_pk(&schema.fields) {
            Some(i) => i,
            None => {
                return Err(MissingPrimaryKeyError);
            },
        };
        let clauses = set_clause_strings(&schema.fields, self.style);
        let n_set = clauses.len();
        let n_fields = schema.fields.len();
        proof {
            lemma_non_pk_fewer(schema.fields.deep_view(), pk_idx as int);
            assert(n_set < n_fields);
        }
        let mut out = String::from_str("UPDATE ");
        out.append(schema.table_name.as_str());
        out.append(" SET ");
        append_joined(&mut out, &clauses, ", ");
        out.append(" WHERE ");
        out.append(schema.fields[pk_idx].name.as_str());
        out.append(" = ");
        append_placeholder(&mut out, self.style, n_set + 1);
        out.append(";");
        proof {
            assert(schema.fields.deep_view()[pk_idx as int] == schema@.fields[pk_idx as int]);
            assert(out@ =~= spec_update_sql(schema@, self.style));
        }
        Ok(out)
    }

    /// The `DELETE` statement for the schema. Fails if and only if the
    /// schema does not have exactly one primary-key field.
    pub fn delete(&self, schema: &ParsedStruct) -> (r: Result<String, MissingPrimaryKeyError>)
        ensures
            r is Ok <==> pk_count(schema@) == 1,
            r is Ok ==> r->Ok_0@ == spec_delete_sql(schema@, self.style),
    {
        let pk_idx = match find_single_pk(&schema.fields) {
            Some(i) => i,
            None => {
                return Err(MissingPrimaryKeyError);
            },
        };
        let mut out = String::from_str("DELETE FROM ");
        out.append(schema.table_name.as_str());
        out.append(" WHERE ");
        out.append(schema.fields[pk_idx].name.as_str());
        out.append(" = ");
        append_placeholder(&mut out, self.style, 1);
        out.append(";");
        proof {
            assert(schema.fields.deep_view()[pk_idx as int] == schema@.fields[pk_idx as int]);
            assert(out@ =~= spec_delete_sql(schema@, self.style));
        }
        Ok(out)
    }

    /// The `SELECT`-by-key statement for the schema. Fails if and only if
    /// the schema does not have exactly one primary-key field.
    pub fn select_by_key(&self, schema: &ParsedStruct) -> (r: Result<
        String,
        MissingPrimaryKeyError,
    >)
        ensures
            r is Ok <==> pk_count(schema@) == 1,
            r is Ok ==> r->Ok_0@ == spec_select_by_id_sql(schema@, self.style),
    {
        let pk_idx = match find_single_pk(&schema.fields) {
            Some(i) => i,
            None => {
                return Err(MissingPrimaryKeyError);
            },
        };
        let names = field_name_strings(&schema.fields);
        let mut out = String::from_str("SELECT ");
        append_joined(&mut out, &names, ", ");
        out.append(" FROM ");
        out.append(schema.table_name.as_str());
        out.append(" WHERE ");
        out.append(schema.fields[pk_idx].name.as_str());
        out.append(" = ");
        append_placeholder(&mut out, self.style, 1);
        out.append(";");
        proof {
            assert(schema.fields.deep_view()[pk_idx as int] == schema@.fields[pk_idx as int]);
            assert(out@ =~= spec_select_by_id_sql(schema@, self.style));
        }
        Ok(out)
    }
}

/// The `CREATE TABLE` statement for the schema.
pub fn generate_create_table_sql(parsed: &ParsedStruct) -> (r: String)
    ensures
        r@ == spec_create_table_sql(parsed@),
{
    SqlGenerator::new(PlaceholderStyle::Numbered).create_table(parsed)
}

/// The `INSERT` statement for the schema, with numbered placeholders.
pub fn generate_insert_sql(parsed: &ParsedStruct) -> (r: String)
    ensures
        r@ == spec_insert_sql(parsed@, PlaceholderStyle::Numbered),
{
    SqlGenerator::new(PlaceholderStyle::Numbered).insert(parsed)
}

/// The `UPDATE` statement for the schema, with numbered placeholders. Fails
/// if and only if the schema does not have exactly one primary-key field.
pub fn generate_update_sql(parsed: &ParsedStruct) -> (r: Result<String, MissingPrimaryKeyError>)
    ensures
        r is Ok <==> pk_count(parsed@) == 1,
        r is Ok ==> r->Ok_0@ == spec_update_sql(parsed@, PlaceholderStyle::Numbered),
{
    SqlGenerator::new(PlaceholderStyle::Numbered).update(parsed)
}

/// The `DELETE` statement for the schema, with numbered placeholders. Fails
/// if and only if the schema does not have exactly one primary-key field.
pub fn generate_delete_sql(parsed: &ParsedStruct) -> (r: Result<String, MissingPrimaryKeyError>)
    ensures
        r is Ok <==> pk_count(parsed@) == 1,
        r is Ok ==> r->Ok_0@ == spec_delete_sql(parsed@, PlaceholderStyle::Numbered),
{
    SqlGenerator::new(PlaceholderStyle::Numbered).delete(parsed)
}

/// The `SELECT`-all statement for the schema.
pub fn generate_select_sql(parsed: &ParsedStruct) -> (r: String)
    ensures
        r@ == spec_select_sql(parsed@),
{
    SqlGenerator::new(PlaceholderStyle::Numbered).select_all(parsed)
}

/// The `SELECT`-by-key statement for the schema, with numbered placeholders.
/// Fails if and only if the schema does not have exactly one primary-key
/// field.
pub fn generate_select_by_id_sql(parsed: &ParsedStruct) -> (r: Result<
    String,
    MissingPrimaryKeyError,
>)
    ensures
        r is Ok <==> pk_count(parsed@) == 1,
        r is Ok ==> r->Ok_0@ == spec_select_by_id_sql(parsed@, PlaceholderStyle::Numbered),
{
    SqlGenerator::new(PlaceholderStyle::Numbered).select_by_key(parsed)
}

/// The catalog query that tells whether the schema's table exists.
pub fn generate_table_exists_sql(parsed: &ParsedStruct) -> (r: String)
    ensures
        r@ == spec_table_exists_sql(parsed@),
{
    SqlGenerator::new(PlaceholderStyle::Numbered).table_exists_check(parsed)
}

} // verus!
