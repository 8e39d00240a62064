//! The schema extractor: from a raw entity description to a resolved entity
//! schema, or a configuration error where the description is not a record
//! with at least one named field.

use vstd::prelude::*;
use crate::model::{
    ConfigurationError, FieldModel, ParsedField, ParsedStruct, RawBody, RawBodyModel, RawEntity,
    RawEntityModel, RawField, RawFieldModel, SchemaModel,
};
use crate::utils::{
    explicit_sql_type, extract_comment, get_table_name, has_primary_key_marker, map_type_to_sql,
    spec_comment, spec_explicit_sql_type, spec_has_pk, spec_map_type, spec_table_name,
};

verus! {

/// The resolved column for one raw field: an explicit SQL-type annotation
/// wins over the type mapper, the primary-key flag is the presence of the
/// marker, and the comment follows the comment resolution rules.
pub open spec fn spec_parse_field(f: RawFieldModel) -> FieldModel {
    FieldModel {
        name: f.name,
        sql_type: match spec_explicit_sql_type(f.attrs) {
            Some(t) => t,
            None => spec_map_type(f.ty),
        },
        is_primary_key: spec_has_pk(f.attrs),
        comment: spec_comment(f.attrs),
    }
}

/// The resolved schema for a raw entity description, or the configuration
/// error that rejects it: a description that is not a record, one with
/// unnamed fields, and one with no fields at all are all rejected.
pub open spec fn spec_parse_struct(e: RawEntityModel) -> Result<SchemaModel, ConfigurationError> {
    match e.body {
        RawBodyModel::Named(fs) => {
            if fs.len() == 0 {
                Err(ConfigurationError::EmptyFields)
            } else {
                Ok(
                    SchemaModel {
                        name: e.name,
                        table_name: spec_table_name(e.attrs, e.name),
                        fields: fs.map_values(|f: RawFieldModel| spec_parse_field(f)),
                        comment: spec_comment(e.attrs),
                    },
                )
            }
        },
        RawBodyModel::Tuple => Err(ConfigurationError::UnnamedFields),
        RawBodyModel::Unit => Err(ConfigurationError::UnnamedFields),
        RawBodyModel::NotAStruct => Err(ConfigurationError::NotAStruct),
    }
}

/// Resolves one raw field into a column descriptor.
pub fn parse_field(field: &RawField) -> (r: ParsedField)
    ensures
        r@ == spec_parse_field(field@),
{
    let sql_type = match explicit_sql_type(&field.attrs) {
        Some(t) => t,
        None => map_type_to_sql(&field.ty),
    };
    ParsedField {
        name: field.name.clone(),
        sql_type,
        is_primary_key: has_primary_key_marker(&field.attrs),
        comment: extract_comment(&field.attrs),
    }
}

/// Resolves a raw entity description into an entity schema. Fails with a
/// `ConfigurationError` if and only if the description is not a record with
/// at least one named field.
pub fn parse_struct(input: &RawEntity) -> (r: Result<ParsedStruct, ConfigurationError>)
    ensures
        match r {
            Ok(p) => spec_parse_struct(input@) is Ok && p@ == spec_parse_struct(input@)->Ok_0,
            Err(e) => spec_parse_struct(input@) is Err && e == spec_parse_struct(input@)->Err_0,
        },
{
    let fields_raw = match &input.body {
        RawBody::Named(fs) => fs,
        RawBody::Tuple => {
            return Err(ConfigurationError::UnnamedFields);
        },
        RawBody::Unit => {
            return Err(ConfigurationError::UnnamedFields);
        },
        RawBody::NotAStruct => {
            return Err(ConfigurationError::NotAStruct);
        },
    };
    if fields_raw.len() == 0 {
        return Err(ConfigurationError::EmptyFields);
    }
    let ghost fm = fields_raw.deep_view();
    let ghost resolve = |f: RawFieldModel| spec_parse_field(f);
    let mut fields: Vec<ParsedField> = Vec::new();
    let mut i: usize = 0;
    proof {
        assert(fields.deep_view() =~= fm.take(0).map_values(resolve));
    }
    while i < fields_raw.len()
        invariant
            fm == fields_raw.deep_view(),
            fm.len() == fields_raw@.len(),
            i <= fields_raw@.len(),
            resolve == (|f: RawFieldModel| spec_parse_field(f)),
            fields.deep_view() == fm.take(i as int).map_values(resolve),
        decreases fields_raw@.len() - i,
    {
        let ghost prev = fields.deep_view();
        let pf = parse_field(&fields_raw[i]);
        fields.push(pf);
        proof {
            assert(fm[i as int] == fields_raw@[i as int]@);
            assert(fields.deep_view() =~= prev.push(pf@));
            assert(fm.take(i as int + 1).map_values(resolve) =~= prev.push(pf@));
        }
        i = i + 1;
    }
    proof {
        assert(fm.take(fields_raw@.len() as int) =~= fm);
    }
    Ok(
        ParsedStruct {
            name: input.name.clone(),
            table_name: get_table_name(&input.attrs, input.name.as_str()),
            fields,
            comment: extract_comment(&input.attrs),
        },
    )
}

} // verus!
