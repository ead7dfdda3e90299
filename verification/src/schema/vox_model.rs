//! Vox's schema model.

use vstd::prelude::*;

verus! {

/// The content hash that identifies a schema.
#[derive(Clone, Copy, Debug, PartialEq, Eq, Structural)]
pub struct SchemaHash(pub u64);

/// The name of a type parameter.
#[derive(Debug)]
pub struct TypeParamName(pub String);

/// The primitive types.
#[derive(Clone, Copy, Debug, PartialEq, Eq, Structural)]
pub enum PrimitiveType {
    Bool,
    U8,
    U16,
    U32,
    U64,
    U128,
    I8,
    I16,
    I32,
    I64,
    I128,
    F32,
    F64,
    Char,
    String,
    Unit,
    Never,
    Bytes,
    Payload,
}

/// Which way a channel carries items.
#[derive(Clone, Copy, Debug, PartialEq, Eq, Structural)]
pub enum ChannelDirection {
    Tx,
    Rx,
}

/// A reference to a type: a schema applied to arguments, or a parameter.
#[derive(Debug)]
pub enum TypeRef {
    Concrete { type_id: SchemaHash, args: Vec<TypeRef> },
    Var { name: TypeParamName },
}

/// A named field.
#[derive(Debug)]
pub struct FieldSchema {
    pub name: String,
    pub type_ref: TypeRef,
    pub required: bool,
}

/// A variant of an enum.
#[derive(Debug)]
pub struct VariantSchema {
    pub name: String,
    pub index: u32,
    pub payload: VariantPayload,
}

/// What a variant carries.
#[derive(Debug)]
pub enum VariantPayload {
    Unit,
    Newtype { type_ref: TypeRef },
    Tuple { types: Vec<TypeRef> },
    Struct { fields: Vec<FieldSchema> },
}

/// The shape of a schema.
#[derive(Debug)]
pub enum SchemaKind {
    Struct { name: String, fields: Vec<FieldSchema> },
    Enum { name: String, variants: Vec<VariantSchema> },
    Tuple { elements: Vec<TypeRef> },
    List { element: TypeRef },
    MapOf { key: TypeRef, value: TypeRef },
    Array { element: TypeRef, length: u64 },
    Option { element: TypeRef },
    Channel { direction: ChannelDirection, element: TypeRef },
    Primitive { primitive_type: PrimitiveType },
}

/// A schema: its hash, type parameters and shape.
#[derive(Debug)]
pub struct Schema {
    pub id: SchemaHash,
    pub type_params: Vec<TypeParamName>,
    pub kind: SchemaKind,
}

/// The schemas of one binding and the root type among them.
#[derive(Debug)]
pub struct SchemaPayload {
    pub schemas: Vec<Schema>,
    pub root: TypeRef,
}

} // verus!
