//! Metadata resolution: explicit annotations win, documentation lines are
//! the fallback for comments, the type mapper is the fallback for SQL types,
//! and the lower-cased entity name is the fallback for the table name.

use vstd::prelude::*;
use vstd::string::*;
use crate::model::{Attr, AttrModel, NativeType, NativeTypeModel};
use crate::text::{join, lower_of, str_eq, to_lower, trim, trim_seq};

verus! {

/// The payload of the last explicit SQL-type annotation, if any.
pub open spec fn spec_explicit_sql_type(attrs: Seq<AttrModel>) -> Option<Seq<char>>
    decreases attrs.len(),
{
    if attrs.len() == 0 {
        None
    } else {
        match attrs.last() {
            AttrModel::SqlType(s) => Some(s),
            _ => spec_explicit_sql_type(attrs.drop_last()),
        }
    }
}

/// The payload of the last explicit comment annotation, if any.
pub open spec fn spec_explicit_comment(attrs: Seq<AttrModel>) -> Option<Seq<char>>
    decreases attrs.len(),
{
    if attrs.len() == 0 {
        None
    } else {
        match attrs.last() {
            AttrModel::Comment(s) => Some(s),
            _ => spec_explicit_comment(attrs.drop_last()),
        }
    }
}

/// The documentation lines among the annotations, in order, each trimmed of
/// leading and trailing blanks.
pub open spec fn spec_doc_lines(attrs: Seq<AttrModel>) -> Seq<Seq<char>>
    decreases attrs.len(),
{
    if attrs.len() == 0 {
        Seq::empty()
    } else {
        spec_doc_lines(attrs.drop_last()) + (match attrs.last() {
            AttrModel::Doc(d) => seq![trim_seq(d)],
            _ => Seq::<Seq<char>>::empty(),
        })
    }
}

/// The resolved comment: an explicit comment annotation wins; otherwise the
/// documentation lines, trimmed and space-joined; otherwise nothing.
pub open spec fn spec_comment(attrs: Seq<AttrModel>) -> Option<Seq<char>> {
    match spec_explicit_comment(attrs) {
        Some(c) => Some(c),
        None => if spec_doc_lines(attrs).len() == 0 {
            None
        } else {
            Some(join(spec_doc_lines(attrs), seq![' ']))
        },
    }
}

/// The payload of the first table-name annotation, if any.
pub open spec fn spec_table_name_attr(attrs: Seq<AttrModel>) -> Option<Seq<char>>
    decreases attrs.len(),
{
    if attrs.len() == 0 {
        None
    } else {
        match attrs.first() {
            AttrModel::TableName(t) => Some(t),
            _ => spec_table_name_attr(attrs.drop_first()),
        }
    }
}

/// The resolved table name: the first table-name annotation wins, returned
/// verbatim; otherwise the lower-cased entity name.
pub open spec fn spec_table_name(attrs: Seq<AttrModel>, entity_name: Seq<char>) -> Seq<char> {
    match spec_table_name_attr(attrs) {
        Some(t) => t,
        None => lower_of(entity_name),
    }
}

/// Whether some annotation is the primary-key marker.
pub open spec fn spec_has_pk(attrs: Seq<AttrModel>) -> bool {
    exists|i: int| 0 <= i < attrs.len() && attrs[i] is PrimaryKey
}

/// The SQL column type for a native type: the fixed table below for the
/// known scalar names, the name itself for any other named type, and `TEXT`
/// for a type that is not a simple named type.
pub open spec fn spec_map_type(ty: NativeTypeModel) -> Seq<char> {
    match ty {
        NativeTypeModel::Name(n) => {
            if n == "i32"@ {
                "INT"@
            } else if n == "i64"@ {
                "BIGINT"@
            } else if n == "String"@ {
                "VARCHAR(255)"@
            } else if n == "bool"@ {
                "BOOLEAN"@
            } else if n == "f32"@ {
                "FLOAT"@
            } else if n == "f64"@ {
                "DOUBLE"@
            } else if n == "NaiveDateTime"@ {
                "DATETIME"@
            } else if n == "Uuid"@ {
                "UUID"@
            } else {
                n
            }
        },
        NativeTypeModel::Unnamed => "TEXT"@,
    }
}

/// Maps a native type to its SQL column type.
pub fn map_type_to_sql(ty: &NativeType) -> (r: String)
    ensures
        r@ == spec_map_type(ty@),
{
    match ty {
        NativeType::Name(n) => {
            let s = n.as_str();
            if str_eq(s, "i32") {
                String::from_str("INT")
            } else if str_eq(s, "i64") {
                String::from_str("BIGINT")
            } else if str_eq(s, "String") {
                String::from_str("VARCHAR(255)")
            } else if str_eq(s, "bool") {
                String::from_str("BOOLEAN")
            } else if str_eq(s, "f32") {
                String::from_str("FLOAT")
            } else if str_eq(s, "f64") {
                String::from_str("DOUBLE")
            } else if str_eq(s, "NaiveDateTime") {
                String::from_str("DATETIME")
            } else if str_eq(s, "Uuid") {
                String::from_str("UUID")
            } else {
                n.clone()
            }
        },
        NativeType::Unnamed => String::from_str("TEXT"),
    }
}

/// The resolved table name for an entity called `default`: the first
/// table-name annotation wins, otherwise the lower-cased entity name.
pub fn get_table_name(attrs: &Vec<Attr>, default: &str) -> (r: String)
    ensures
        r@ == spec_table_name(attrs.deep_view(), default@),
{
    let ghost am = attrs.deep_view();
    proof {
        assert(am.skip(0) =~= am);
    }
    let mut i: usize = 0;
    while i < attrs.len()
        invariant
            am == attrs.deep_view(),
            am.len() == attrs@.len(),
            i <= attrs@.len(),
            spec_table_name_attr(am) == spec_table_name_attr(am.skip(i as int)),
        decreases attrs@.len() - i,
    {
        proof {
            assert(am.skip(i as int).first() == am[i as int]);
            assert(am[i as int] == attrs@[i as int]@);
        }
        match &attrs[i] {
            Attr::TableName(t) => {
                return t.clone();
            },
            _ => {},
        }
        proof {
            assert(am.skip(i as int).drop_first() =~= am.skip(i as int + 1));
        }
        i = i + 1;
    }
    proof {
        assert(am.skip(attrs@.len() as int) =~= Seq::<AttrModel>::empty());
    }
    to_lower(default)
}

/// The payload of the last explicit SQL-type annotation, if any.
pub fn explicit_sql_type(attrs: &Vec<Attr>) -> (r: Option<String>)
    ensures
        r.deep_view() == spec_explicit_sql_type(attrs.deep_view()),
{
    let ghost am = attrs.deep_view();
    let mut found: Option<String> = None;
    let mut i: usize = 0;
    while i < attrs.len()
        invariant
            am == attrs.deep_view(),
            am.len() == attrs@.len(),
            i <= attrs@.len(),
            found.deep_view() == spec_explicit_sql_type(am.take(i as int)),
        decreases attrs@.len() - i,
    {
        proof {
            assert(am.take(i as int + 1).drop_last() =~= am.take(i as int));
            assert(am.take(i as int + 1).last() == am[i as int]);
            assert(am[i as int] == attrs@[i as int]@);
        }
        match &attrs[i] {
            Attr::SqlType(s) => {
                found = Some(s.clone());
            },
            _ => {},
        }
        i = i + 1;
    }
    proof {
        assert(am.take(attrs@.len() as int) =~= am);
    }
    found
}

/// Whether some annotation is the primary-key marker.
pub fn has_primary_key_marker(attrs: &Vec<Attr>) -> (r: bool)
    ensures
        r == spec_has_pk(attrs.deep_view()),
{
    let ghost am = attrs.deep_view();
    let mut i: usize = 0;
    while i < attrs.len()
        invariant
            am == attrs.deep_view(),
            am.len() == attrs@.len(),
            i <= attrs@.len(),
            forall|j: int| 0 <= j < i ==> !(am[j] is PrimaryKey),
        decreases attrs@.len() - i,
    {
        proof {
            assert(am[i as int] == attrs@[i as int]@);
        }
        match &attrs[i] {
            Attr::PrimaryKey => {
                return true;
            },
            _ => {},
        }
        i = i + 1;
    }
    false
}

/// The resolved comment for a declaration: an explicit comment annotation
/// wins; otherwise its documentation lines, each trimmed, joined with single
/// spaces; otherwise nothing.
pub fn extract_comment(attrs: &Vec<Attr>) -> (r: Option<String>)
    ensures
        r.deep_view() == spec_comment(attrs.deep_view()),
{
    let ghost am = attrs.deep_view();
    let mut explicit: Option<String> = None;
    let mut docs = String::new();
    let mut have_docs = false;
    let mut i: usize = 0;
    while i < attrs.len()
        invariant
            am == attrs.deep_view(),
            am.len() == attrs@.len(),
            i <= attrs@.len(),
            explicit.deep_view() == spec_explicit_comment(am.take(i as int)),
            have_docs == (spec_doc_lines(am.take(i as int)).len() > 0),
            docs@ == join(spec_doc_lines(am.take(i as int)), seq![' ']),
        decreases attrs@.len() - i,
    {
        proof {
            assert(am.take(i as int + 1).drop_last() =~= am.take(i as int));
            assert(am.take(i as int + 1).last() == am[i as int]);
            assert(am[i as int] == attrs@[i as int]@);
        }
        let ghost prev_lines = spec_doc_lines(am.take(i as int));
        match &attrs[i] {
            Attr::Comment(c) => {
                explicit = Some(c.clone());
                proof {
                    assert(spec_doc_lines(am.take(i as int + 1)) =~= prev_lines);
                }
            },
            Attr::Doc(d) => {
                if have_docs {
                    proof {
                        reveal_strlit(" ");
                        assert(" "@ =~= seq![' ']);
                    }
                    docs.append(" ");
                }
                let t = trim(d.as_str());
                docs.append(t);
                have_docs = true;
                proof {
                    let lines = spec_doc_lines(am.take(i as int + 1));
                    assert(lines =~= prev_lines + seq![trim_seq(d@)]);
                    assert(lines.drop_last() =~= prev_lines);
                    assert(lines.last() == trim_seq(d@));
                    if prev_lines.len() == 0 {
                        assert(docs@ =~= trim_seq(d@));
                        assert(join(lines, seq![' ']) == lines[0]);
                    } else {
                        assert(join(lines, seq![' ']) == join(prev_lines, seq![' ']) + seq![' ']
                            + trim_seq(d@));
                    }
                }
            },
            _ => {
                proof {
                    assert(spec_doc_lines(am.take(i as int + 1)) =~= prev_lines);
                }
            },
        }
        i = i + 1;
    }
    proof {
        assert(am.take(attrs@.len() as int) =~= am);
    }
    match explicit {
        Some(c) => Some(c),
        None => {
            if have_docs {
                Some(docs)
            } else {
                None
            }
        },
    }
}

} // verus!
