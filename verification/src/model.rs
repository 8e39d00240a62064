//! The schema model: the raw entity description handed in by the caller and
//! the resolved entity schema the SQL generators consume, with the ghost
//! images the contracts speak of.

use vstd::prelude::*;

verus! {

/// One metadata annotation attached to an entity or to one of its fields.
#[derive(Debug)]
pub enum Attr {
    /// Overrides the table name of the entity.
    TableName(String),
    /// Overrides the comment of the entity or of the field.
    Comment(String),
    /// One documentation line attached to the declaration.
    Doc(String),
    /// Overrides the SQL column type of the field.
    SqlType(String),
    /// Marks the field as a primary key.
    PrimaryKey,
    /// Any annotation this library does not interpret.
    Other,
}

/// Ghost image of an `Attr`.
pub enum AttrModel {
    TableName(Seq<char>),
    Comment(Seq<char>),
    Doc(Seq<char>),
    SqlType(Seq<char>),
    PrimaryKey,
    Other,
}

impl View for Attr {
    type V = AttrModel;

    open spec fn view(&self) -> AttrModel {
        match self {
            Attr::TableName(s) => AttrModel::TableName(s@),
            Attr::Comment(s) => AttrModel::Comment(s@),
            Attr::Doc(s) => AttrModel::Doc(s@),
            Attr::SqlType(s) => AttrModel::SqlType(s@),
            Attr::PrimaryKey => AttrModel::PrimaryKey,
            Attr::Other => AttrModel::Other,
        }
    }
}

impl DeepView for Attr {
    type V = AttrModel;

    open spec fn deep_view(&self) -> AttrModel {
        self.view()
    }
}

/// A field's native type as the caller declared it: a simple named type, or
/// anything structurally unrecognizable.
#[derive(Debug)]
pub enum NativeType {
    /// A simple named type, such as `i64` or `Uuid`.
    Name(String),
    /// A type that is not a simple named type.
    Unnamed,
}

/// Ghost image of a `NativeType`.
pub enum NativeTypeModel {
    Name(Seq<char>),
    Unnamed,
}

impl View for NativeType {
    type V = NativeTypeModel;

    open spec fn view(&self) -> NativeTypeModel {
        match self {
            NativeType::Name(s) => NativeTypeModel::Name(s@),
            NativeType::Unnamed => NativeTypeModel::Unnamed,
        }
    }
}

/// One field of a raw entity description: its declared name, its native
/// type, and the annotations attached to it.
pub struct RawField {
    pub name: String,
    pub ty: NativeType,
    pub attrs: Vec<Attr>,
}

/// Ghost image of a `RawField`.
pub struct RawFieldModel {
    pub name: Seq<char>,
    pub ty: NativeTypeModel,
    pub attrs: Seq<AttrModel>,
}

impl View for RawField {
    type V = RawFieldModel;

    open spec fn view(&self) -> RawFieldModel {
        RawFieldModel { name: self.name@, ty: self.ty@, attrs: self.attrs.deep_view() }
    }
}

impl DeepView for RawField {
    type V = RawFieldModel;

    open spec fn deep_view(&self) -> RawFieldModel {
        self.view()
    }
}

/// The body of a raw entity description.
pub enum RawBody {
    /// A record with named fields: the one shape the extractor accepts.
    Named(Vec<RawField>),
    /// A tuple-style record, rejected by the extractor.
    Tuple,
    /// A record without a body, rejected by the extractor.
    Unit,
    /// A declaration that is not a record at all, rejected by the extractor.
    NotAStruct,
}

/// Ghost image of a `RawBody`.
pub enum RawBodyModel {
    Named(Seq<RawFieldModel>),
    Tuple,
    Unit,
    NotAStruct,
}

impl View for RawBody {
    type V = RawBodyModel;

    open spec fn view(&self) -> RawBodyModel {
        match self {
            RawBody::Named(fields) => RawBodyModel::Named(fields.deep_view()),
            RawBody::Tuple => RawBodyModel::Tuple,
            RawBody::Unit => RawBodyModel::Unit,
            RawBody::NotAStruct => RawBodyModel::NotAStruct,
        }
    }
}

/// A raw entity description: the entity's declared name, its entity-level
/// annotations, and its body.
pub struct RawEntity {
    pub name: String,
    pub attrs: Vec<Attr>,
    pub body: RawBody,
}

/// Ghost image of a `RawEntity`.
pub struct RawEntityModel {
    pub name: Seq<char>,
    pub attrs: Seq<AttrModel>,
    pub body: RawBodyModel,
}

impl View for RawEntity {
    type V = RawEntityModel;

    open spec fn view(&self) -> RawEntityModel {
        RawEntityModel { name: self.name@, attrs: self.attrs.deep_view(), body: self.body@ }
    }
}

/// One resolved column: its name, its SQL type, whether it is a primary key,
/// and its optional comment.
#[derive(Debug)]
pub struct ParsedField {
    pub name: String,
    pub sql_type: String,
    pub is_primary_key: bool,
    pub comment: Option<String>,
}

/// Ghost image of a `ParsedField`.
pub struct FieldModel {
    pub name: Seq<char>,
    pub sql_type: Seq<char>,
    pub is_primary_key: bool,
    pub comment: Option<Seq<char>>,
}

impl View for ParsedField {
    type V = FieldModel;

    open spec fn view(&self) -> FieldModel {
        FieldModel {
            name: self.name@,
            sql_type: self.sql_type@,
            is_primary_key: self.is_primary_key,
            comment: self.comment.deep_view(),
        }
    }
}

impl DeepView for ParsedField {
    type V = FieldModel;

    open spec fn deep_view(&self) -> FieldModel {
        self.view()
    }
}

/// One resolved entity schema: the entity's name, its table name, its
/// ordered columns and its optional table comment.
#[derive(Debug)]
pub struct ParsedStruct {
    pub name: String,
    pub table_name: String,
    pub fields: Vec<ParsedField>,
    pub comment: Option<String>,
}

/// Ghost image of a `ParsedStruct`.
pub struct SchemaModel {
    pub name: Seq<char>,
    pub table_name: Seq<char>,
    pub fields: Seq<FieldModel>,
    pub comment: Option<Seq<char>>,
}

impl View for ParsedStruct {
    type V = SchemaModel;

    open spec fn view(&self) -> SchemaModel {
        SchemaModel {
            name: self.name@,
            table_name: self.table_name@,
            fields: self.fields.deep_view(),
            comment: self.comment.deep_view(),
        }
    }
}

/// The entity description is not a record with at least one named field.
#[derive(Clone, Copy, Debug, PartialEq, Eq)]
pub enum ConfigurationError {
    /// The declaration is not a record at all.
    NotAStruct,
    /// The record's fields are not named.
    UnnamedFields,
    /// The record has no fields.
    EmptyFields,
}

/// A statement that needs exactly one primary-key field was asked of a
/// schema with none or with several.
#[derive(Clone, Copy, Debug, PartialEq, Eq)]
pub struct MissingPrimaryKeyError;

} // verus!
