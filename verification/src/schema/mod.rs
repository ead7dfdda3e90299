//! The two schema models that cross the wire: vox's own, and binette's. Each
//! is held here as plain values; the conversions between them are in
//! [`crate::schema_deser`].

pub mod binette_model;
pub mod vox_model;
