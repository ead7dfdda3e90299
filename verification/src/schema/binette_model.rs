//! Binette's schema model, as the conversions read and build it.

use vstd::prelude::*;

verus! {

/// The id of a schema.
#[derive(Clone, Copy, Debug, PartialEq, Eq, Structural)]
pub struct TypeId(pub u64);

/// The primitive types.
#[derive(Clone, Copy, Debug, PartialEq, Eq, Structural)]
pub enum Primitive {
    Bool,
    U8,
    U16,
    U32,
    U64,
    U128,
    I8,
    I16,
    I32,
    I64,
    I128,
    F32,
    F64,
    Char,
    String,
    Unit,
    Never,
    Bytes,
    Payload,
}

/// A reference to a type: a schema applied to arguments, or a parameter.
#[derive(Debug)]
pub enum TypeRef {
    Concrete { type_id: TypeId, args: Vec<TypeRef> },
    Var { name: String },
}

/// A named field.
#[derive(Debug)]
pub struct Field {
    pub name: String,
    pub type_ref: TypeRef,
    pub required: bool,
}

/// A variant of an enum.
#[derive(Debug)]
pub struct Variant {
    pub name: String,
    pub index: u32,
    pub payload: VariantPayload,
}

/// What a variant carries.
#[derive(Debug)]
pub enum VariantPayload {
    Unit,
    Newtype { type_ref: TypeRef },
    Tuple { elements: Vec<TypeRef> },
    Struct { fields: Vec<Field> },
}

/// A dynamic value attached to an external schema, as far as the channel
/// conversion reads it.
#[derive(Debug)]
pub enum Value {
    String(String),
    Struct(Vec<FieldValue>),
    Other,
}

/// A field of a struct value, with two readings of its value that binette
/// gives: its `Debug` rendering, and what reading it as an encoded type
/// reference yields (the type reference, or the error's text).
#[derive(Debug)]
pub struct FieldValue {
    pub name: String,
    pub value: Value,
    pub debug: String,
    pub as_type_ref: Result<TypeRef, String>,
}

/// The shape of a schema.
#[derive(Debug)]
pub enum SchemaKind {
    Primitive(Primitive),
    Struct { name: String, fields: Vec<Field> },
    Enum { name: String, variants: Vec<Variant> },
    Tuple { elements: Vec<TypeRef> },
    List { element: TypeRef },
    SetOf { element: TypeRef },
    MapOf { key: TypeRef, value: TypeRef },
    Array { element: TypeRef, dimensions: Vec<u64> },
    Option { element: TypeRef },
    Dynamic,
    External { kind: String, metadata: Value },
}

/// A schema: its id, type parameters and shape.
#[derive(Debug)]
pub struct Schema {
    pub id: TypeId,
    pub type_params: Vec<String>,
    pub kind: SchemaKind,
}

/// A root type and the schemas it needs.
#[derive(Debug)]
pub struct SchemaBundle {
    pub schemas: Vec<Schema>,
    pub root: TypeRef,
}

} // verus!
