//! Structured description of a declared record, as handed over by a parser.
use vstd::prelude::*;
use crate::shape::TypeShape;

verus! {

/// One declared field. `ident` is absent for a positional field.
pub struct FieldDescriptor {
    pub ident: Option<String>,
    pub ty: TypeShape,
}

/// What kind of declaration was handed over.
pub enum RecordData {
    Struct { fields: Vec<FieldDescriptor> },
    Enum,
    Union,
}

#[derive(Clone, Copy, PartialEq, Eq, Debug)]
pub enum GenericParamKind {
    Type,
    Lifetime,
    Const,
}

/// A generic parameter of the declaration; `text` is its full source form, bounds included.
pub struct GenericParam {
    pub kind: GenericParamKind,
    pub text: String,
}

/// The generic parameters of the declaration, in order, and its constraint clause.
pub struct Generics {
    pub params: Vec<GenericParam>,
    pub where_clause: Option<String>,
}

pub struct RecordDescriptor {
    pub ident: String,
    pub generics: Generics,
    pub data: RecordData,
}

} // verus!
