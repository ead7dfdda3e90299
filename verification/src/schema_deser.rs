//! Schema-driven decoding: its errors, and the conversions between vox's
//! schema model and binette's in both directions.

use crate::schema::binette_model as bn;
use crate::schema::vox_model as vx;
use crate::text::{debug_quote, debug_str};
use std::collections::HashSet;
use vstd::prelude::*;

verus! {

/// Why schema-driven decoding failed.
#[derive(Debug)]
pub enum SchemaDeserializeError {
    Protocol(String),
    Plan(String),
    Decode(String),
}

/// The content of a [`SchemaDeserializeError`].
pub enum SchemaDeserializeErrorView {
    Protocol(Seq<char>),
    Plan(Seq<char>),
    Decode(Seq<char>),
}

impl View for SchemaDeserializeError {
    type V = SchemaDeserializeErrorView;

    open spec fn view(&self) -> SchemaDeserializeErrorView {
        match self {
            SchemaDeserializeError::Protocol(m) => SchemaDeserializeErrorView::Protocol(m@),
            SchemaDeserializeError::Plan(m) => SchemaDeserializeErrorView::Plan(m@),
            SchemaDeserializeError::Decode(m) => SchemaDeserializeErrorView::Decode(m@),
        }
    }
}

/// The text of a schema decoding error.
pub open spec fn schema_error_text(e: SchemaDeserializeErrorView) -> Seq<char> {
    match e {
        SchemaDeserializeErrorView::Protocol(m) => "protocol error: "@ + m,
        SchemaDeserializeErrorView::Plan(m) => "translation plan failed: "@ + m,
        SchemaDeserializeErrorView::Decode(m) => "binette decode error: "@ + m,
    }
}

impl SchemaDeserializeError {
    /// The error's message, as its `Display` renders it.
    pub fn message(&self) -> (s: String)
        ensures
            s@ == schema_error_text(self@),
    {
        match self {
            SchemaDeserializeError::Protocol(m) => String::from_str("protocol error: ").concat(m.as_str()),
            SchemaDeserializeError::Plan(m) => String::from_str("translation plan failed: ").concat(m.as_str()),
            SchemaDeserializeError::Decode(m) => String::from_str("binette decode error: ").concat(m.as_str()),
        }
    }
}

/// `v` is the vox type reference for binette's `b`: the same ids, names and
/// arguments.
pub open spec fn vox_ref_of(b: bn::TypeRef, v: vx::TypeRef) -> bool
    decreases b,
{
    match b {
        bn::TypeRef::Concrete { type_id, args } => match v {
            vx::TypeRef::Concrete { type_id: vid, args: vargs } => vid.0 == type_id.0 && vox_refs_of(
                args@,
                vargs@,
            ),
            _ => false,
        },
        bn::TypeRef::Var { name } => match v {
            vx::TypeRef::Var { name: vn } => vn.0@ == name@,
            _ => false,
        },
    }
}

/// Each of `vs` is the vox type reference for the binette one at its
/// position in `bs`.
pub open spec fn vox_refs_of(bs: Seq<bn::TypeRef>, vs: Seq<vx::TypeRef>) -> bool
    decreases bs,
{
    &&& bs.len() == vs.len()
    &&& bs.len() > 0 ==> vox_refs_of(bs.drop_last(), vs.drop_last()) && vox_ref_of(bs.last(), vs.last())
}

/// Appending a matching pair keeps two sequences of references matching.
pub proof fn lemma_vox_refs_push(bs: Seq<bn::TypeRef>, vs: Seq<vx::TypeRef>, b: bn::TypeRef, v: vx::TypeRef)
    requires
        vox_refs_of(bs, vs),
        vox_ref_of(b, v),
    ensures
        vox_refs_of(bs.push(b), vs.push(v)),
{
    assert(bs.push(b).drop_last() =~= bs);
    assert(vs.push(v).drop_last() =~= vs);
}

fn vox_refs(args: &Vec<bn::TypeRef>) -> (out: Vec<vx::TypeRef>)
    ensures
        vox_refs_of(args@, out@),
    decreases args@, 1int,
{
    let mut out: Vec<vx::TypeRef> = Vec::new();
    let mut i: usize = 0;
    while i < args.len()
        invariant
            i <= args.len(),
            vox_refs_of(args@.take(i as int), out@),
        decreases args.len() - i,
    {
        proof {
            assert(decreases_to!(args@ => args@[i as int]));
        }
        let r = vox_ref(&args[i]);
        let ghost before = out@;
        out.push(r);
        proof {
            lemma_vox_refs_push(args@.take(i as int), before, args@[i as int], r);
            assert(args@.take(i as int).push(args@[i as int]) =~= args@.take(i + 1));
        }
        i += 1;
    }
    assert(args@.take(i as int) =~= args@);
    out
}

fn vox_ref(t: &bn::TypeRef) -> (r: vx::TypeRef)
    ensures
        vox_ref_of(*t, r),
    decreases t, 0int,
{
    match t {
        bn::TypeRef::Concrete { type_id, args } => {
            proof {
                assert(decreases_to!(*t => t->args));
                assert(decreases_to!(*args => args@));
            }
            let out = vox_refs(args);
            vx::TypeRef::Concrete { type_id: vx::SchemaHash(type_id.0), args: out }
        },
        bn::TypeRef::Var { name } => vx::TypeRef::Var { name: vx::TypeParamName(name.clone()) },
    }
}

/// The vox type reference for a binette one.
pub fn vox_type_ref_from_binette_type_ref(type_ref: bn::TypeRef) -> (r: vx::TypeRef)
    ensures
        vox_ref_of(type_ref, r),
{
    vox_ref(&type_ref)
}

/// The vox primitive of the same name.
pub open spec fn vox_prim(p: bn::Primitive) -> vx::PrimitiveType {
    match p {
        bn::Primitive::Bool => vx::PrimitiveType::Bool,
        bn::Primitive::U8 => vx::PrimitiveType::U8,
        bn::Primitive::U16 => vx::PrimitiveType::U16,
        bn::Primitive::U32 => vx::PrimitiveType::U32,
        bn::Primitive::U64 => vx::PrimitiveType::U64,
        bn::Primitive::U128 => vx::PrimitiveType::U128,
        bn::Primitive::I8 => vx::PrimitiveType::I8,
        bn::Primitive::I16 => vx::PrimitiveType::I16,
        bn::Primitive::I32 => vx::PrimitiveType::I32,
        bn::Primitive::I64 => vx::PrimitiveType::I64,
        bn::Primitive::I128 => vx::PrimitiveType::I128,
        bn::Primitive::F32 => vx::PrimitiveType::F32,
        bn::Primitive::F64 => vx::PrimitiveType::F64,
        bn::Primitive::Char => vx::PrimitiveType::Char,
        bn::Primitive::String => vx::PrimitiveType::String,
        bn::Primitive::Unit => vx::PrimitiveType::Unit,
        bn::Primitive::Never => vx::PrimitiveType::Never,
        bn::Primitive::Bytes => vx::PrimitiveType::Bytes,
        bn::Primitive::Payload => vx::PrimitiveType::Payload,
    }
}

/// The vox primitive for a binette one.
pub fn vox_primitive_from_binette_primitive(primitive: bn::Primitive) -> (r: vx::PrimitiveType)
    ensures
        r == vox_prim(primitive),
{
    match primitive {
        bn::Primitive::Bool => vx::PrimitiveType::Bool,
        bn::Primitive::U8 => vx::PrimitiveType::U8,
        bn::Primitive::U16 => vx::PrimitiveType::U16,
        bn::Primitive::U32 => vx::PrimitiveType::U32,
        bn::Primitive::U64 => vx::PrimitiveType::U64,
        bn::Primitive::U128 => vx::PrimitiveType::U128,
        bn::Primitive::I8 => vx::PrimitiveType::I8,
        bn::Primitive::I16 => vx::PrimitiveType::I16,
        bn::Primitive::I32 => vx::PrimitiveType::I32,
        bn::Primitive::I64 => vx::PrimitiveType::I64,
        bn::Primitive::I128 => vx::PrimitiveType::I128,
        bn::Primitive::F32 => vx::PrimitiveType::F32,
        bn::Primitive::F64 => vx::PrimitiveType::F64,
        bn::Primitive::Char => vx::PrimitiveType::Char,
        bn::Primitive::String => vx::PrimitiveType::String,
        bn::Primitive::Unit => vx::PrimitiveType::Unit,
        bn::Primitive::Never => vx::PrimitiveType::Never,
        bn::Primitive::Bytes => vx::PrimitiveType::Bytes,
        bn::Primitive::Payload => vx::PrimitiveType::Payload,
    }
}

/// The binette primitive of the same name.
pub open spec fn binette_prim(p: vx::PrimitiveType) -> bn::Primitive {
    match p {
        vx::PrimitiveType::Bool => bn::Primitive::Bool,
        vx::PrimitiveType::U8 => bn::Primitive::U8,
        vx::PrimitiveType::U16 => bn::Primitive::U16,
        vx::PrimitiveType::U32 => bn::Primitive::U32,
        vx::PrimitiveType::U64 => bn::Primitive::U64,
        vx::PrimitiveType::U128 => bn::Primitive::U128,
        vx::PrimitiveType::I8 => bn::Primitive::I8,
        vx::PrimitiveType::I16 => bn::Primitive::I16,
        vx::PrimitiveType::I32 => bn::Primitive::I32,
        vx::PrimitiveType::I64 => bn::Primitive::I64,
        vx::PrimitiveType::I128 => bn::Primitive::I128,
        vx::PrimitiveType::F32 => bn::Primitive::F32,
        vx::PrimitiveType::F64 => bn::Primitive::F64,
        vx::PrimitiveType::Char => bn::Primitive::Char,
        vx::PrimitiveType::String => bn::Primitive::String,
        vx::PrimitiveType::Unit => bn::Primitive::Unit,
        vx::PrimitiveType::Never => bn::Primitive::Never,
        vx::PrimitiveType::Bytes => bn::Primitive::Bytes,
        vx::PrimitiveType::Payload => bn::Primitive::Payload,
    }
}

/// The binette primitive for a vox one.
pub fn binette_primitive_from_vox_primitive(primitive: vx::PrimitiveType) -> (r: bn::Primitive)
    ensures
        r == binette_prim(primitive),
{
    match primitive {
        vx::PrimitiveType::Bool => bn::Primitive::Bool,
        vx::PrimitiveType::U8 => bn::Primitive::U8,
        vx::PrimitiveType::U16 => bn::Primitive::U16,
        vx::PrimitiveType::U32 => bn::Primitive::U32,
        vx::PrimitiveType::U64 => bn::Primitive::U64,
        vx::PrimitiveType::U128 => bn::Primitive::U128,
        vx::PrimitiveType::I8 => bn::Primitive::I8,
        vx::PrimitiveType::I16 => bn::Primitive::I16,
        vx::PrimitiveType::I32 => bn::Primitive::I32,
        vx::PrimitiveType::I64 => bn::Primitive::I64,
        vx::PrimitiveType::I128 => bn::Primitive::I128,
        vx::PrimitiveType::F32 => bn::Primitive::F32,
        vx::PrimitiveType::F64 => bn::Primitive::F64,
        vx::PrimitiveType::Char => bn::Primitive::Char,
        vx::PrimitiveType::String => bn::Primitive::String,
        vx::PrimitiveType::Unit => bn::Primitive::Unit,
        vx::PrimitiveType::Never => bn::Primitive::Never,
        vx::PrimitiveType::Bytes => bn::Primitive::Bytes,
        vx::PrimitiveType::Payload => bn::Primitive::Payload,
    }
}

/// `g` is the vox field for binette's `f`.
pub open spec fn vox_field_of(f: bn::Field, g: vx::FieldSchema) -> bool {
    g.name@ == f.name@ && vox_ref_of(f.type_ref, g.type_ref) && g.required == f.required
}

/// Each of `gs` is the vox field for the binette one at its position.
pub open spec fn vox_fields_of(fs: Seq<bn::Field>, gs: Seq<vx::FieldSchema>) -> bool {
    fs.len() == gs.len() && forall|i: int| 0 <= i < fs.len() ==> #[trigger] vox_field_of(fs[i], gs[i])
}

fn vox_fields(fields: &Vec<bn::Field>) -> (out: Vec<vx::FieldSchema>)
    ensures
        vox_fields_of(fields@, out@),
{
    let mut out: Vec<vx::FieldSchema> = Vec::new();
    let mut i: usize = 0;
    while i < fields.len()
        invariant
            i <= fields.len(),
            out@.len() == i,
            forall|j: int| 0 <= j < i ==> #[trigger] vox_field_of(fields@[j], out@[j]),
        decreases fields.len() - i,
    {
        let f = &fields[i];
        out.push(vx::FieldSchema { name: f.name.clone(), type_ref: vox_ref(&f.type_ref), required: f.required });
        i += 1;
    }
    out
}

/// `q` is the vox variant payload for binette's `p`.
pub open spec fn vox_payload_of(p: bn::VariantPayload, q: vx::VariantPayload) -> bool {
    match p {
        bn::VariantPayload::Unit => q is Unit,
        bn::VariantPayload::Newtype { type_ref } => q matches vx::VariantPayload::Newtype { type_ref: t }
            && vox_ref_of(type_ref, t),
        bn::VariantPayload::Tuple { elements } => q matches vx::VariantPayload::Tuple { types } && vox_refs_of(
            elements@,
            types@,
        ),
        bn::VariantPayload::Struct { fields } => q matches vx::VariantPayload::Struct { fields: gs }
            && vox_fields_of(fields@, gs@),
    }
}

fn vox_payload(payload: &bn::VariantPayload) -> (r: vx::VariantPayload)
    ensures
        vox_payload_of(*payload, r),
{
    match payload {
        bn::VariantPayload::Unit => vx::VariantPayload::Unit,
        bn::VariantPayload::Newtype { type_ref } => vx::VariantPayload::Newtype { type_ref: vox_ref(type_ref) },
        bn::VariantPayload::Tuple { elements } => vx::VariantPayload::Tuple { types: vox_refs(elements) },
        bn::VariantPayload::Struct { fields } => vx::VariantPayload::Struct { fields: vox_fields(fields) },
    }
}

/// The vox variant payload for a binette one.
pub fn vox_variant_payload_from_binette_variant_payload(payload: bn::VariantPayload) -> (r: vx::VariantPayload)
    ensures
        vox_payload_of(payload, r),
{
    vox_payload(&payload)
}

/// `w` is the vox variant for binette's `v`.
pub open spec fn vox_variant_of(v: bn::Variant, w: vx::VariantSchema) -> bool {
    w.name@ == v.name@ && w.index == v.index && vox_payload_of(v.payload, w.payload)
}

/// Each of `ws` is the vox variant for the binette one at its position.
pub open spec fn vox_variants_of(vs: Seq<bn::Variant>, ws: Seq<vx::VariantSchema>) -> bool {
    vs.len() == ws.len() && forall|i: int| 0 <= i < vs.len() ==> #[trigger] vox_variant_of(vs[i], ws[i])
}

fn vox_variants(variants: &Vec<bn::Variant>) -> (out: Vec<vx::VariantSchema>)
    ensures
        vox_variants_of(variants@, out@),
{
    let mut out: Vec<vx::VariantSchema> = Vec::new();
    let mut i: usize = 0;
    while i < variants.len()
        invariant
            i <= variants.len(),
            out@.len() == i,
            forall|j: int| 0 <= j < i ==> #[trigger] vox_variant_of(variants@[j], out@[j]),
        decreases variants.len() - i,
    {
        let v = &variants[i];
        out.push(vx::VariantSchema { name: v.name.clone(), index: v.index, payload: vox_payload(&v.payload) });
        i += 1;
    }
    out
}

/// A field named `name` is at `i`.
pub open spec fn names_field(fs: Seq<bn::FieldValue>, name: Seq<char>, i: int) -> bool {
    0 <= i < fs.len() && fs[i].name@ == name
}

/// The one field named `name`, or the message for none or several.
pub open spec fn lookup_field(fs: Seq<bn::FieldValue>, name: Seq<char>) -> Result<bn::FieldValue, Seq<char>> {
    if !exists|i: int| names_field(fs, name, i) {
        Err("vox.channel external metadata missing "@ + debug_str(name))
    } else if exists|i: int, j: int| i < j && names_field(fs, name, i) && names_field(fs, name, j) {
        Err("vox.channel external metadata has duplicate "@ + debug_str(name))
    } else {
        Ok(fs[choose|i: int| names_field(fs, name, i)])
    }
}

/// Finds the one metadata field named `name`.
pub fn metadata_field<'a>(fields: &'a [bn::FieldValue], name: &str) -> (r: Result<&'a bn::FieldValue, SchemaDeserializeError>)
    ensures
        match r {
            Ok(f) => lookup_field(fields@, name@) == Ok::<bn::FieldValue, Seq<char>>(*f),
            Err(e) => lookup_field(fields@, name@) matches Err(m) && e@ == SchemaDeserializeErrorView::Plan(m),
        },
{
    let key = String::from_str(name);
    let mut found: Option<usize> = None;
    let mut i: usize = 0;
    while i < fields.len()
        invariant
            key@ == name@,
            i <= fields.len(),
            match found {
                None => forall|j: int| 0 <= j < i ==> !names_field(fields@, name@, j),
                Some(k) => k < i && names_field(fields@, name@, k as int) && forall|j: int|
                    0 <= j < i && j != k ==> !names_field(fields@, name@, j),
            },
        decreases fields.len() - i,
    {
        if fields[i].name == key {
            match found {
                Some(k) => {
                    assert(names_field(fields@, name@, k as int) && names_field(fields@, name@, i as int));
                    let quoted = debug_quote(name);
                    let m = String::from_str("vox.channel external metadata has duplicate ").concat(quoted.as_str());
                    return Err(SchemaDeserializeError::Plan(m));
                },
                None => {
                    found = Some(i);
                },
            }
        }
        i += 1;
    }
    match found {
        Some(k) => {
            assert(names_field(fields@, name@, k as int));
            assert(!exists|a: int, b: int| a < b && names_field(fields@, name@, a) && names_field(fields@, name@, b));
            let ghost w = choose|a: int| names_field(fields@, name@, a);
            assert(w == k);
            Ok(&fields[k])
        },
        None => {
            let quoted = debug_quote(name);
            let m = String::from_str("vox.channel external metadata missing ").concat(quoted.as_str());
            Err(SchemaDeserializeError::Plan(m))
        },
    }
}

/// The direction a `direction` field names, or the message of why it names
/// none. The protocol's names are `"send"` and `"recv"`; the short forms
/// `"tx"` and `"rx"` are read as the same directions.
pub open spec fn direction_of(f: bn::FieldValue) -> Result<vx::ChannelDirection, Seq<char>> {
    match f.value {
        bn::Value::String(d) => if d@ == "send"@ || d@ == "tx"@ {
            Ok(vx::ChannelDirection::Tx)
        } else if d@ == "recv"@ || d@ == "rx"@ {
            Ok(vx::ChannelDirection::Rx)
        } else {
            Err("vox.channel direction must be \"send\" or \"recv\", got "@ + debug_str(d@))
        },
        _ => Err("vox.channel direction must be a string, got "@ + f.debug@),
    }
}

/// What an external attachment reads as: a channel's direction and element
/// type, or the message of why it is no channel.
pub open spec fn channel_parts(kind: Seq<char>, metadata: bn::Value) -> Result<
    (vx::ChannelDirection, bn::TypeRef),
    Seq<char>,
> {
    if kind != "vox.channel"@ {
        Err("binette external attachment "@ + debug_str(kind) + " is not a Vox channel"@)
    } else {
        match metadata {
            bn::Value::Struct(fields) => match lookup_field(fields@, "direction"@) {
                Err(m) => Err(m),
                Ok(d) => match lookup_field(fields@, "element"@) {
                    Err(m) => Err(m),
                    Ok(e) => match direction_of(d) {
                        Err(m) => Err(m),
                        Ok(dir) => match e.as_type_ref {
                            Ok(t) => Ok((dir, t)),
                            Err(m) => Err(m@),
                        },
                    },
                },
            },
            _ => Err("vox.channel external metadata must be a struct"@),
        }
    }
}

fn plan_error(m: &str) -> (e: SchemaDeserializeError)
    ensures
        e@ == SchemaDeserializeErrorView::Plan(m@),
{
    SchemaDeserializeError::Plan(String::from_str(m))
}

fn direction_from_field(f: &bn::FieldValue) -> (r: Result<vx::ChannelDirection, SchemaDeserializeError>)
    ensures
        match direction_of(*f) {
            Ok(d) => r == Ok::<vx::ChannelDirection, SchemaDeserializeError>(d),
            Err(m) => r matches Err(e) && e@ == SchemaDeserializeErrorView::Plan(m),
        },
{
    proof {
        reveal_strlit("send");
        reveal_strlit("recv");
        reveal_strlit("tx");
        reveal_strlit("rx");
    }
    match &f.value {
        bn::Value::String(d) => {
            if *d == String::from_str("send") || *d == String::from_str("tx") {
                Ok(vx::ChannelDirection::Tx)
            } else if *d == String::from_str("recv") || *d == String::from_str("rx") {
                Ok(vx::ChannelDirection::Rx)
            } else {
                let quoted = debug_quote(d.as_str());
                let m = String::from_str("vox.channel direction must be \"send\" or \"recv\", got ").concat(quoted.as_str());
                Err(SchemaDeserializeError::Plan(m))
            }
        },
        _ => {
            let m = String::from_str("vox.channel direction must be a string, got ").concat(f.debug.as_str());
            Err(SchemaDeserializeError::Plan(m))
        },
    }
}

fn channel_from_external(kind: &String, metadata: &bn::Value) -> (r: Result<vx::SchemaKind, SchemaDeserializeError>)
    ensures
        match channel_parts(kind@, *metadata) {
            Ok((dir, t)) => r matches Ok(vx::SchemaKind::Channel { direction, element }) && direction == dir
                && vox_ref_of(t, element),
            Err(m) => r matches Err(e) && e@ == SchemaDeserializeErrorView::Plan(m),
        },
{
    if *kind != String::from_str("vox.channel") {
        let mut m = String::from_str("binette external attachment ");
        let quoted = debug_quote(kind.as_str());
        m.append(quoted.as_str());
        m.append(" is not a Vox channel");
        return Err(SchemaDeserializeError::Plan(m));
    }
    let fields = match metadata {
        bn::Value::Struct(fields) => fields,
        _ => {
            return Err(plan_error("vox.channel external metadata must be a struct"));
        },
    };
    let direction = metadata_field(fields.as_slice(), "direction")?;
    let element = metadata_field(fields.as_slice(), "element")?;
    let direction = direction_from_field(direction)?;
    match &element.as_type_ref {
        Ok(t) => Ok(vx::SchemaKind::Channel { direction, element: vox_ref(t) }),
        Err(m) => Err(plan_error(m.as_str())),
    }
}

/// The vox channel schema that an external attachment describes: a
/// `vox.channel` attachment whose `direction` is `"send"` (or `"tx"`) is a
/// sending channel, `"recv"` (or `"rx"`) a receiving one.
pub fn vox_channel_schema_from_binette_external(kind: String, metadata: bn::Value) -> (r: Result<
    vx::SchemaKind,
    SchemaDeserializeError,
>)
    ensures
        match channel_parts(kind@, metadata) {
            Ok((dir, t)) => r matches Ok(vx::SchemaKind::Channel { direction, element }) && direction == dir
                && vox_ref_of(t, element),
            Err(m) => r matches Err(e) && e@ == SchemaDeserializeErrorView::Plan(m),
        },
{
    channel_from_external(&kind, &metadata)
}

/// `r` is what converting binette's schema kind `k` to vox's gives: the kind
/// of the same shape with every part converted; a plan error for a set, a
/// dynamic value, an array of other than one dimension, or an external
/// attachment that is no channel.
pub open spec fn vox_kind_of(k: bn::SchemaKind, r: Result<vx::SchemaKind, SchemaDeserializeError>) -> bool {
    match k {
        bn::SchemaKind::Primitive(p) => r matches Ok(vx::SchemaKind::Primitive { primitive_type })
            && primitive_type == vox_prim(p),
        bn::SchemaKind::Struct { name, fields } => r matches Ok(vx::SchemaKind::Struct { name: n, fields: gs })
            && n@ == name@ && vox_fields_of(fields@, gs@),
        bn::SchemaKind::Enum { name, variants } => r matches Ok(vx::SchemaKind::Enum { name: n, variants: ws })
            && n@ == name@ && vox_variants_of(variants@, ws@),
        bn::SchemaKind::Tuple { elements } => r matches Ok(vx::SchemaKind::Tuple { elements: es })
            && vox_refs_of(elements@, es@),
        bn::SchemaKind::List { element } => r matches Ok(vx::SchemaKind::List { element: e }) && vox_ref_of(
            element,
            e,
        ),
        bn::SchemaKind::SetOf { .. } => r matches Err(e) && e@ == SchemaDeserializeErrorView::Plan(
            "Vox schema model does not have a set kind"@,
        ),
        bn::SchemaKind::MapOf { key, value } => r matches Ok(vx::SchemaKind::MapOf { key: k2, value: v2 })
            && vox_ref_of(key, k2) && vox_ref_of(value, v2),
        bn::SchemaKind::Array { element, dimensions } => if dimensions@.len() == 1 {
            r matches Ok(vx::SchemaKind::Array { element: e, length }) && vox_ref_of(element, e) && length
                == dimensions@[0]
        } else {
            r matches Err(e) && e@ == SchemaDeserializeErrorView::Plan(
                "Vox schema model only supports one-dimensional arrays"@,
            )
        },
        bn::SchemaKind::Option { element } => r matches Ok(vx::SchemaKind::Option { element: e })
            && vox_ref_of(element, e),
        bn::SchemaKind::Dynamic => r matches Err(e) && e@ == SchemaDeserializeErrorView::Plan(
            "Vox schema model does not have a dynamic value kind"@,
        ),
        bn::SchemaKind::External { kind, metadata } => match channel_parts(kind@, metadata) {
            Ok((dir, t)) => r matches Ok(vx::SchemaKind::Channel { direction, element }) && direction == dir
                && vox_ref_of(t, element),
            Err(m) => r matches Err(e) && e@ == SchemaDeserializeErrorView::Plan(m),
        },
    }
}

fn vox_kind(kind: &bn::SchemaKind) -> (r: Result<vx::SchemaKind, SchemaDeserializeError>)
    ensures
        vox_kind_of(*kind, r),
{
    match kind {
        bn::SchemaKind::Primitive(p) => Ok(
            vx::SchemaKind::Primitive { primitive_type: vox_primitive_from_binette_primitive(*p) },
        ),
        bn::SchemaKind::Struct { name, fields } => Ok(
            vx::SchemaKind::Struct { name: name.clone(), fields: vox_fields(fields) },
        ),
        bn::SchemaKind::Enum { name, variants } => Ok(
            vx::SchemaKind::Enum { name: name.clone(), variants: vox_variants(variants) },
        ),
        bn::SchemaKind::Tuple { elements } => Ok(vx::SchemaKind::Tuple { elements: vox_refs(elements) }),
        bn::SchemaKind::List { element } => Ok(vx::SchemaKind::List { element: vox_ref(element) }),
        bn::SchemaKind::SetOf { .. } => Err(plan_error("Vox schema model does not have a set kind")),
        bn::SchemaKind::MapOf { key, value } => Ok(
            vx::SchemaKind::MapOf { key: vox_ref(key), value: vox_ref(value) },
        ),
        bn::SchemaKind::Array { element, dimensions } => {
            if dimensions.len() != 1 {
                return Err(plan_error("Vox schema model only supports one-dimensional arrays"));
            }
            Ok(vx::SchemaKind::Array { element: vox_ref(element), length: dimensions[0] })
        },
        bn::SchemaKind::Option { element } => Ok(vx::SchemaKind::Option { element: vox_ref(element) }),
        bn::SchemaKind::Dynamic => Err(plan_error("Vox schema model does not have a dynamic value kind")),
        bn::SchemaKind::External { kind, metadata } => channel_from_external(kind, metadata),
    }
}

/// The vox schema kind for a binette one (see [`vox_kind_of`]).
pub fn vox_schema_kind_from_binette_schema_kind(kind: bn::SchemaKind) -> (r: Result<
    vx::SchemaKind,
    SchemaDeserializeError,
>)
    ensures
        vox_kind_of(kind, r),
{
    vox_kind(&kind)
}

/// Whether converting binette's kind `k` fails: a set, a dynamic value, an
/// array of other than one dimension, or an external attachment that is no
/// channel.
pub open spec fn vox_kind_fails(k: bn::SchemaKind) -> bool {
    match k {
        bn::SchemaKind::SetOf { .. } => true,
        bn::SchemaKind::Dynamic => true,
        bn::SchemaKind::Array { dimensions, .. } => dimensions@.len() != 1,
        bn::SchemaKind::External { kind, metadata } => channel_parts(kind@, metadata) is Err,
        _ => false,
    }
}

/// The type parameter names `qs` are the names `ps`.
pub open spec fn params_of(ps: Seq<String>, qs: Seq<vx::TypeParamName>) -> bool {
    ps.len() == qs.len() && forall|i: int| 0 <= i < ps.len() ==> #[trigger] qs[i].0@ == ps[i]@
}

/// `r` is what converting binette's schema `s` to vox's gives: the same id
/// and type parameters with the kind converted, or the kind's error.
pub open spec fn vox_schema_of(s: bn::Schema, r: Result<vx::Schema, SchemaDeserializeError>) -> bool {
    match r {
        Ok(v) => v.id.0 == s.id.0 && params_of(s.type_params@, v.type_params@) && !vox_kind_fails(s.kind)
            && vox_kind_of(s.kind, Ok(v.kind)),
        Err(e) => vox_kind_fails(s.kind) && vox_kind_of(s.kind, Err(e)),
    }
}

fn vox_schema(schema: &bn::Schema) -> (r: Result<vx::Schema, SchemaDeserializeError>)
    ensures
        vox_schema_of(*schema, r),
{
    let mut params: Vec<vx::TypeParamName> = Vec::new();
    let mut i: usize = 0;
    while i < schema.type_params.len()
        invariant
            i <= schema.type_params.len(),
            params@.len() == i,
            forall|j: int| 0 <= j < i ==> #[trigger] params@[j].0@ == schema.type_params@[j]@,
        decreases schema.type_params.len() - i,
    {
        params.push(vx::TypeParamName(schema.type_params[i].clone()));
        i += 1;
    }
    let kind = vox_kind(&schema.kind);
    match kind {
        Ok(k) => Ok(vx::Schema { id: vx::SchemaHash(schema.id.0), type_params: params, kind: k }),
        Err(e) => Err(e),
    }
}

/// The vox schema for a binette one (see [`vox_schema_of`]).
pub fn vox_schema_from_binette_schema(schema: bn::Schema) -> (r: Result<vx::Schema, SchemaDeserializeError>)
    ensures
        vox_schema_of(schema, r),
{
    vox_schema(&schema)
}

/// `r` is what converting a binette bundle to a vox schema payload gives:
/// every schema converted in order and the root converted, or the error of
/// the first schema that does not convert.
pub open spec fn vox_payload_result(b: bn::SchemaBundle, r: Result<vx::SchemaPayload, SchemaDeserializeError>) -> bool {
    match r {
        Ok(p) => {
            &&& p.schemas@.len() == b.schemas@.len()
            &&& forall|i: int| 0 <= i < b.schemas@.len() ==> #[trigger] vox_schema_of(b.schemas@[i], Ok(p.schemas@[i]))
            &&& vox_ref_of(b.root, p.root)
        },
        Err(e) => exists|i: int|
            0 <= i < b.schemas@.len() && (forall|j: int| 0 <= j < i ==> !vox_kind_fails(#[trigger] b.schemas@[j].kind))
                && #[trigger] vox_schema_of(b.schemas@[i], Err(e)),
    }
}

/// The vox schema payload for a binette bundle (see [`vox_payload_result`]).
pub fn vox_schema_payload_from_binette_schema_bundle(bundle: bn::SchemaBundle) -> (r: Result<
    vx::SchemaPayload,
    SchemaDeserializeError,
>)
    ensures
        vox_payload_result(bundle, r),
{
    let mut schemas: Vec<vx::Schema> = Vec::new();
    let mut i: usize = 0;
    while i < bundle.schemas.len()
        invariant
            i <= bundle.schemas.len(),
            schemas@.len() == i,
            forall|j: int| 0 <= j < i ==> #[trigger] vox_schema_of(bundle.schemas@[j], Ok(schemas@[j])),
        decreases bundle.schemas.len() - i,
    {
        match vox_schema(&bundle.schemas[i]) {
            Ok(s) => schemas.push(s),
            Err(e) => {
                assert forall|j: int| 0 <= j < i implies !vox_kind_fails(#[trigger] bundle.schemas@[j].kind) by {
                    assert(vox_schema_of(bundle.schemas@[j], Ok(schemas@[j])));
                }
                assert(vox_schema_of(bundle.schemas@[i as int], Err(e)));
                return Err(e);
            },
        }
        i += 1;
    }
    Ok(vx::SchemaPayload { schemas, root: vox_ref(&bundle.root) })
}

/// `b` is the binette type reference for vox's `v`, where the schemas in
/// `argless` take no arguments: the same ids and names, with the arguments
/// of an argless schema dropped.
pub open spec fn bin_ref_of(v: vx::TypeRef, b: bn::TypeRef, argless: Set<u64>) -> bool
    decreases v,
{
    match v {
        vx::TypeRef::Concrete { type_id, args } => match b {
            bn::TypeRef::Concrete { type_id: bid, args: bargs } => bid.0 == type_id.0 && if argless.contains(
                type_id.0,
            ) {
                bargs@.len() == 0
            } else {
                bin_refs_of(args@, bargs@, argless)
            },
            _ => false,
        },
        vx::TypeRef::Var { name } => match b {
            bn::TypeRef::Var { name: n } => n@ == name.0@,
            _ => false,
        },
    }
}

/// Each of `bs` is the binette type reference for the vox one at its
/// position in `vs`.
pub open spec fn bin_refs_of(vs: Seq<vx::TypeRef>, bs: Seq<bn::TypeRef>, argless: Set<u64>) -> bool
    decreases vs,
{
    &&& vs.len() == bs.len()
    &&& vs.len() > 0 ==> bin_refs_of(vs.drop_last(), bs.drop_last(), argless) && bin_ref_of(
        vs.last(),
        bs.last(),
        argless,
    )
}

/// Appending a matching pair keeps two sequences of references matching.
pub proof fn lemma_bin_refs_push(
    vs: Seq<vx::TypeRef>,
    bs: Seq<bn::TypeRef>,
    v: vx::TypeRef,
    b: bn::TypeRef,
    argless: Set<u64>,
)
    requires
        bin_refs_of(vs, bs, argless),
        bin_ref_of(v, b, argless),
    ensures
        bin_refs_of(vs.push(v), bs.push(b), argless),
{
    assert(vs.push(v).drop_last() =~= vs);
    assert(bs.push(b).drop_last() =~= bs);
}

fn bin_refs(args: &Vec<vx::TypeRef>, argless: &HashSet<u64>) -> (out: Vec<bn::TypeRef>)
    ensures
        bin_refs_of(args@, out@, argless@),
    decreases args@, 1int,
{
    let mut out: Vec<bn::TypeRef> = Vec::new();
    let mut i: usize = 0;
    while i < args.len()
        invariant
            i <= args.len(),
            bin_refs_of(args@.take(i as int), out@, argless@),
        decreases args.len() - i,
    {
        proof {
            assert(decreases_to!(args@ => args@[i as int]));
        }
        let r = bin_ref(&args[i], argless);
        let ghost before = out@;
        out.push(r);
        proof {
            lemma_bin_refs_push(args@.take(i as int), before, args@[i as int], r, argless@);
            assert(args@.take(i as int).push(args@[i as int]) =~= args@.take(i + 1));
        }
        i += 1;
    }
    assert(args@.take(i as int) =~= args@);
    out
}

fn bin_ref(t: &vx::TypeRef, argless: &HashSet<u64>) -> (r: bn::TypeRef)
    ensures
        bin_ref_of(*t, r, argless@),
    decreases t, 0int,
{
    broadcast use vstd::std_specs::hash::group_hash_axioms;

    match t {
        vx::TypeRef::Concrete { type_id, args } => {
            proof {
                assert(decreases_to!(*t => t->args));
                assert(decreases_to!(*args => args@));
            }
            let out = if argless.contains(&type_id.0) {
                Vec::new()
            } else {
                bin_refs(args, argless)
            };
            bn::TypeRef::Concrete { type_id: bn::TypeId(type_id.0), args: out }
        },
        vx::TypeRef::Var { name } => bn::TypeRef::Var { name: name.0.clone() },
    }
}

/// The binette type reference for a vox one (see [`bin_ref_of`]).
pub fn binette_type_ref_from_vox_type_ref(type_ref: vx::TypeRef, argless_schema_ids: &HashSet<u64>) -> (r:
    bn::TypeRef)
    ensures
        bin_ref_of(type_ref, r, argless_schema_ids@),
{
    bin_ref(&type_ref, argless_schema_ids)
}

/// `g` is the binette field for vox's `f`.
pub open spec fn bin_field_of(f: vx::FieldSchema, g: bn::Field, argless: Set<u64>) -> bool {
    g.name@ == f.name@ && bin_ref_of(f.type_ref, g.type_ref, argless) && g.required == f.required
}

/// Each of `gs` is the binette field for the vox one at its position.
pub open spec fn bin_fields_of(fs: Seq<vx::FieldSchema>, gs: Seq<bn::Field>, argless: Set<u64>) -> bool {
    fs.len() == gs.len() && forall|i: int| 0 <= i < fs.len() ==> #[trigger] bin_field_of(fs[i], gs[i], argless)
}

fn bin_fields(fields: &Vec<vx::FieldSchema>, argless: &HashSet<u64>) -> (out: Vec<bn::Field>)
    ensures
        bin_fields_of(fields@, out@, argless@),
{
    let mut out: Vec<bn::Field> = Vec::new();
    let mut i: usize = 0;
    while i < fields.len()
        invariant
            i <= fields.len(),
            out@.len() == i,
            forall|j: int| 0 <= j < i ==> #[trigger] bin_field_of(fields@[j], out@[j], argless@),
        decreases fields.len() - i,
    {
        let f = &fields[i];
        out.push(bn::Field { name: f.name.clone(), type_ref: bin_ref(&f.type_ref, argless), required: f.required });
        i += 1;
    }
    out
}

/// `q` is the binette variant payload for vox's `p`.
pub open spec fn bin_payload_of(p: vx::VariantPayload, q: bn::VariantPayload, argless: Set<u64>) -> bool {
    match p {
        vx::VariantPayload::Unit => q is Unit,
        vx::VariantPayload::Newtype { type_ref } => q matches bn::VariantPayload::Newtype { type_ref: t }
            && bin_ref_of(type_ref, t, argless),
        vx::VariantPayload::Tuple { types } => q matches bn::VariantPayload::Tuple { elements }
            && bin_refs_of(types@, elements@, argless),
        vx::VariantPayload::Struct { fields } => q matches bn::VariantPayload::Struct { fields: gs }
            && bin_fields_of(fields@, gs@, argless),
    }
}

fn bin_payload(payload: &vx::VariantPayload, argless: &HashSet<u64>) -> (r: bn::VariantPayload)
    ensures
        bin_payload_of(*payload, r, argless@),
{
    match payload {
        vx::VariantPayload::Unit => bn::VariantPayload::Unit,
        vx::VariantPayload::Newtype { type_ref } => bn::VariantPayload::Newtype { type_ref: bin_ref(type_ref, argless) },
        vx::VariantPayload::Tuple { types } => bn::VariantPayload::Tuple { elements: bin_refs(types, argless) },
        vx::VariantPayload::Struct { fields } => bn::VariantPayload::Struct { fields: bin_fields(fields, argless) },
    }
}

/// The binette variant payload for a vox one.
pub fn binette_variant_payload_from_vox_variant_payload(
    payload: vx::VariantPayload,
    argless_schema_ids: &HashSet<u64>,
) -> (r: bn::VariantPayload)
    ensures
        bin_payload_of(payload, r, argless_schema_ids@),
{
    bin_payload(&payload, argless_schema_ids)
}

/// `w` is the binette variant for vox's `v`.
pub open spec fn bin_variant_of(v: vx::VariantSchema, w: bn::Variant, argless: Set<u64>) -> bool {
    w.name@ == v.name@ && w.index == v.index && bin_payload_of(v.payload, w.payload, argless)
}

/// Each of `ws` is the binette variant for the vox one at its position.
pub open spec fn bin_variants_of(vs: Seq<vx::VariantSchema>, ws: Seq<bn::Variant>, argless: Set<u64>) -> bool {
    vs.len() == ws.len() && forall|i: int| 0 <= i < vs.len() ==> #[trigger] bin_variant_of(vs[i], ws[i], argless)
}

fn bin_variants(variants: &Vec<vx::VariantSchema>, argless: &HashSet<u64>) -> (out: Vec<bn::Variant>)
    ensures
        bin_variants_of(variants@, out@, argless@),
{
    let mut out: Vec<bn::Variant> = Vec::new();
    let mut i: usize = 0;
    while i < variants.len()
        invariant
            i <= variants.len(),
            out@.len() == i,
            forall|j: int| 0 <= j < i ==> #[trigger] bin_variant_of(variants@[j], out@[j], argless@),
        decreases variants.len() - i,
    {
        let v = &variants[i];
        out.push(bn::Variant { name: v.name.clone(), index: v.index, payload: bin_payload(&v.payload, argless) });
        i += 1;
    }
    out
}

/// `b` is the binette kind for vox's `k`: the kind of the same shape with
/// every part converted, an array's length as its one dimension, and a
/// channel as the unit primitive.
pub open spec fn bin_kind_of(k: vx::SchemaKind, b: bn::SchemaKind, argless: Set<u64>) -> bool {
    match k {
        vx::SchemaKind::Struct { name, fields } => b matches bn::SchemaKind::Struct { name: n, fields: gs }
            && n@ == name@ && bin_fields_of(fields@, gs@, argless),
        vx::SchemaKind::Enum { name, variants } => b matches bn::SchemaKind::Enum { name: n, variants: ws }
            && n@ == name@ && bin_variants_of(variants@, ws@, argless),
        vx::SchemaKind::Tuple { elements } => b matches bn::SchemaKind::Tuple { elements: es } && bin_refs_of(
            elements@,
            es@,
            argless,
        ),
        vx::SchemaKind::List { element } => b matches bn::SchemaKind::List { element: e } && bin_ref_of(
            element,
            e,
            argless,
        ),
        vx::SchemaKind::MapOf { key, value } => b matches bn::SchemaKind::MapOf { key: k2, value: v2 }
            && bin_ref_of(key, k2, argless) && bin_ref_of(value, v2, argless),
        vx::SchemaKind::Array { element, length } => b matches bn::SchemaKind::Array { element: e, dimensions }
            && bin_ref_of(element, e, argless) && dimensions@ == seq![length],
        vx::SchemaKind::Option { element } => b matches bn::SchemaKind::Option { element: e } && bin_ref_of(
            element,
            e,
            argless,
        ),
        vx::SchemaKind::Channel { .. } => b == bn::SchemaKind::Primitive(bn::Primitive::Unit),
        vx::SchemaKind::Primitive { primitive_type } => b == bn::SchemaKind::Primitive(
            binette_prim(primitive_type),
        ),
    }
}

fn bin_kind(kind: &vx::SchemaKind, argless: &HashSet<u64>) -> (r: bn::SchemaKind)
    ensures
        bin_kind_of(*kind, r, argless@),
{
    match kind {
        vx::SchemaKind::Struct { name, fields } => bn::SchemaKind::Struct {
            name: name.clone(),
            fields: bin_fields(fields, argless),
        },
        vx::SchemaKind::Enum { name, variants } => bn::SchemaKind::Enum {
            name: name.clone(),
            variants: bin_variants(variants, argless),
        },
        vx::SchemaKind::Tuple { elements } => bn::SchemaKind::Tuple { elements: bin_refs(elements, argless) },
        vx::SchemaKind::List { element } => bn::SchemaKind::List { element: bin_ref(element, argless) },
        vx::SchemaKind::MapOf { key, value } => bn::SchemaKind::MapOf {
            key: bin_ref(key, argless),
            value: bin_ref(value, argless),
        },
        vx::SchemaKind::Array { element, length } => {
            let mut dimensions: Vec<u64> = Vec::new();
            dimensions.push(*length);
            assert(dimensions@ =~= seq![*length]);
            bn::SchemaKind::Array { element: bin_ref(element, argless), dimensions }
        },
        vx::SchemaKind::Option { element } => bn::SchemaKind::Option { element: bin_ref(element, argless) },
        vx::SchemaKind::Channel { .. } => bn::SchemaKind::Primitive(bn::Primitive::Unit),
        vx::SchemaKind::Primitive { primitive_type } => bn::SchemaKind::Primitive(
            binette_primitive_from_vox_primitive(*primitive_type),
        ),
    }
}

/// The binette kind for a vox one (see [`bin_kind_of`]); every vox kind has
/// one.
pub fn binette_schema_kind_from_vox_schema_kind(kind: vx::SchemaKind, argless_schema_ids: &HashSet<u64>) -> (r:
    Result<bn::SchemaKind, SchemaDeserializeError>)
    ensures
        r matches Ok(b) && bin_kind_of(kind, b, argless_schema_ids@),
{
    Ok(bin_kind(&kind, argless_schema_ids))
}

/// `b` is the binette schema for vox's `s`: the same id, the type
/// parameters (none for a channel) and the converted kind.
pub open spec fn bin_schema_of(s: vx::Schema, b: bn::Schema, argless: Set<u64>) -> bool {
    &&& b.id.0 == s.id.0
    &&& if s.kind is Channel {
        b.type_params@.len() == 0
    } else {
        params_of(b.type_params@, s.type_params@)
    }
    &&& bin_kind_of(s.kind, b.kind, argless)
}

fn bin_schema(schema: &vx::Schema, argless: &HashSet<u64>) -> (r: bn::Schema)
    ensures
        bin_schema_of(*schema, r, argless@),
{
    let mut params: Vec<String> = Vec::new();
    let channel = match &schema.kind {
        vx::SchemaKind::Channel { .. } => true,
        _ => false,
    };
    if !channel {
        let mut i: usize = 0;
        while i < schema.type_params.len()
            invariant
                i <= schema.type_params.len(),
                params@.len() == i,
                forall|j: int| 0 <= j < i ==> #[trigger] schema.type_params@[j].0@ == params@[j]@,
            decreases schema.type_params.len() - i,
        {
            params.push(schema.type_params[i].0.clone());
            i += 1;
        }
    }
    bn::Schema { id: bn::TypeId(schema.id.0), type_params: params, kind: bin_kind(&schema.kind, argless) }
}

/// The binette schema for a vox one (see [`bin_schema_of`]); every vox
/// schema has one.
pub fn binette_schema_from_vox_schema(schema: vx::Schema, argless_schema_ids: &HashSet<u64>) -> (r: Result<
    bn::Schema,
    SchemaDeserializeError,
>)
    ensures
        r matches Ok(b) && bin_schema_of(schema, b, argless_schema_ids@),
{
    Ok(bin_schema(&schema, argless_schema_ids))
}

/// The schemas that take no type arguments on binette's side: primitives
/// and channels.
pub open spec fn is_argless(k: vx::SchemaKind) -> bool {
    k is Primitive || k is Channel
}

/// The ids of the argless schemas among `schemas`.
pub open spec fn argless_ids(schemas: Seq<vx::Schema>) -> Set<u64> {
    Set::new(|id: u64| exists|i: int| 0 <= i < schemas.len() && #[trigger] schemas[i].id.0 == id && is_argless(schemas[i].kind))
}

/// Collects the ids of the argless schemas.
pub fn argless_schema_ids(schemas: &[vx::Schema]) -> (r: HashSet<u64>)
    ensures
        r@ == argless_ids(schemas@),
{
    broadcast use vstd::std_specs::hash::group_hash_axioms;

    let mut ids: HashSet<u64> = HashSet::new();
    let mut i: usize = 0;
    while i < schemas.len()
        invariant
            i <= schemas.len(),
            ids@ == argless_ids(schemas@.take(i as int)),
        decreases schemas.len() - i,
    {
        let ghost before = ids@;
        let argless_kind = match &schemas[i].kind {
            vx::SchemaKind::Primitive { .. } => true,
            vx::SchemaKind::Channel { .. } => true,
            _ => false,
        };
        if argless_kind {
            ids.insert(schemas[i].id.0);
        }
        proof {
            let t = schemas@.take(i + 1);
            let p = schemas@.take(i as int);
            let s = schemas@[i as int];
            assert(argless_kind == is_argless(s.kind));
            assert(ids@ == if argless_kind { before.insert(s.id.0) } else { before });
            assert forall|id: u64| ids@.contains(id) implies argless_ids(t).contains(id) by {
                if argless_kind && id == s.id.0 {
                    assert(t[i as int] == s);
                } else {
                    assert(argless_ids(p).contains(id));
                    let k = choose|k: int| 0 <= k < p.len() && #[trigger] p[k].id.0 == id && is_argless(p[k].kind);
                    assert(t[k] == p[k]);
                }
            }
            assert forall|id: u64| argless_ids(t).contains(id) implies ids@.contains(id) by {
                let k = choose|k: int| 0 <= k < t.len() && #[trigger] t[k].id.0 == id && is_argless(t[k].kind);
                if k < i {
                    assert(p[k] == t[k]);
                    assert(argless_ids(p).contains(id));
                } else {
                    assert(t[k] == s);
                }
            }
            assert(ids@ =~= argless_ids(t));
        }
        i += 1;
    }
    assert(schemas@.take(i as int) =~= schemas@);
    ids
}

/// The binette schemas and root for a root type and the vox schemas it
/// needs, with the arguments of argless schemas dropped; arranging the
/// bundle in binette's canonical order is left to binette.
pub fn binette_bundle_from_vox_schemas(root: vx::TypeRef, schemas: Vec<vx::Schema>) -> (r: bn::SchemaBundle)
    ensures
        r.schemas@.len() == schemas@.len(),
        forall|i: int| 0 <= i < schemas@.len() ==> #[trigger] bin_schema_of(schemas@[i], r.schemas@[i], argless_ids(schemas@)),
        bin_ref_of(root, r.root, argless_ids(schemas@)),
{
    let argless = argless_schema_ids(schemas.as_slice());
    let mut out: Vec<bn::Schema> = Vec::new();
    let mut i: usize = 0;
    while i < schemas.len()
        invariant
            i <= schemas.len(),
            argless@ == argless_ids(schemas@),
            out@.len() == i,
            forall|j: int| 0 <= j < i ==> #[trigger] bin_schema_of(schemas@[j], out@[j], argless@),
        decreases schemas.len() - i,
    {
        out.push(bin_schema(&schemas[i], &argless));
        i += 1;
    }
    bn::SchemaBundle { schemas: out, root: bin_ref(&root, &argless) }
}

/// Two vox type references are the same: the same ids, names and
/// arguments.
pub open spec fn vox_ref_same(a: vx::TypeRef, b: vx::TypeRef) -> bool
    decreases a,
{
    match a {
        vx::TypeRef::Concrete { type_id, args } => match b {
            vx::TypeRef::Concrete { type_id: t2, args: a2 } => t2 == type_id && vox_refs_same(args@, a2@),
            _ => false,
        },
        vx::TypeRef::Var { name } => match b {
            vx::TypeRef::Var { name: n2 } => n2.0@ == name.0@,
            _ => false,
        },
    }
}

/// Two sequences of vox type references are the same, position by
/// position.
pub open spec fn vox_refs_same(a: Seq<vx::TypeRef>, b: Seq<vx::TypeRef>) -> bool
    decreases a,
{
    &&& a.len() == b.len()
    &&& a.len() > 0 ==> vox_refs_same(a.drop_last(), b.drop_last()) && vox_ref_same(a.last(), b.last())
}

/// No schema of `argless` is applied to arguments anywhere in `v`.
pub open spec fn keeps_args(v: vx::TypeRef, argless: Set<u64>) -> bool
    decreases v,
{
    match v {
        vx::TypeRef::Concrete { type_id, args } => (argless.contains(type_id.0) ==> args@.len() == 0)
            && all_keep_args(args@, argless),
        vx::TypeRef::Var { .. } => true,
    }
}

/// No schema of `argless` is applied to arguments anywhere in `vs`.
pub open spec fn all_keep_args(vs: Seq<vx::TypeRef>, argless: Set<u64>) -> bool
    decreases vs,
{
    vs.len() > 0 ==> all_keep_args(vs.drop_last(), argless) && keeps_args(vs.last(), argless)
}

/// Converting a vox type reference to binette and back gives it back,
/// unless it applies an argless schema to arguments (those are dropped).
pub proof fn law_type_ref_round_trip(v: vx::TypeRef, b: bn::TypeRef, back: vx::TypeRef, argless: Set<u64>)
    requires
        keeps_args(v, argless),
        bin_ref_of(v, b, argless),
        vox_ref_of(b, back),
    ensures
        vox_ref_same(v, back),
    decreases v, 0int,
{
    match v {
        vx::TypeRef::Concrete { type_id, args } => {
            let bargs = b->args;
            let vargs = back->args;
            if argless.contains(type_id.0) {
                assert(args@.len() == 0);
                assert(vargs@.len() == 0);
                assert(vox_refs_same(args@, vargs@));
            } else {
                assert(decreases_to!(v => v->args));
                assert(decreases_to!(args => args@));
                lemma_refs_round_trip(args@, bargs@, vargs@, argless);
            }
        },
        vx::TypeRef::Var { .. } => {},
    }
}

/// [`law_type_ref_round_trip`] for each of a sequence of references.
pub proof fn lemma_refs_round_trip(vs: Seq<vx::TypeRef>, bs: Seq<bn::TypeRef>, backs: Seq<vx::TypeRef>, argless: Set<u64>)
    requires
        all_keep_args(vs, argless),
        bin_refs_of(vs, bs, argless),
        vox_refs_of(bs, backs),
    ensures
        vox_refs_same(vs, backs),
    decreases vs, 1int,
{
    if vs.len() > 0 {
        lemma_refs_round_trip(vs.drop_last(), bs.drop_last(), backs.drop_last(), argless);
        assert(decreases_to!(vs => vs[vs.len() - 1]));
        law_type_ref_round_trip(vs.last(), bs.last(), backs.last(), argless);
    }
}

/// Two vox fields are the same: name, type and requiredness.
pub open spec fn field_same(a: vx::FieldSchema, b: vx::FieldSchema) -> bool {
    b.name@ == a.name@ && vox_ref_same(a.type_ref, b.type_ref) && b.required == a.required
}

/// Two sequences of vox fields are the same, position by position.
pub open spec fn fields_same(a: Seq<vx::FieldSchema>, b: Seq<vx::FieldSchema>) -> bool {
    a.len() == b.len() && forall|i: int| 0 <= i < a.len() ==> #[trigger] field_same(a[i], b[i])
}

/// Two vox variant payloads are the same.
pub open spec fn payload_same(a: vx::VariantPayload, b: vx::VariantPayload) -> bool {
    match a {
        vx::VariantPayload::Unit => b is Unit,
        vx::VariantPayload::Newtype { type_ref } => b matches vx::VariantPayload::Newtype { type_ref: t }
            && vox_ref_same(type_ref, t),
        vx::VariantPayload::Tuple { types } => b matches vx::VariantPayload::Tuple { types: t2 }
            && vox_refs_same(types@, t2@),
        vx::VariantPayload::Struct { fields } => b matches vx::VariantPayload::Struct { fields: f2 }
            && fields_same(fields@, f2@),
    }
}

/// Two vox variants are the same: name, index and payload.
pub open spec fn variant_same(a: vx::VariantSchema, b: vx::VariantSchema) -> bool {
    b.name@ == a.name@ && b.index == a.index && payload_same(a.payload, b.payload)
}

/// Two sequences of vox variants are the same, position by position.
pub open spec fn variants_same(a: Seq<vx::VariantSchema>, b: Seq<vx::VariantSchema>) -> bool {
    a.len() == b.len() && forall|i: int| 0 <= i < a.len() ==> #[trigger] variant_same(a[i], b[i])
}

/// Two vox schema kinds are the same: the same shape with the same parts.
pub open spec fn kind_same(a: vx::SchemaKind, b: vx::SchemaKind) -> bool {
    match a {
        vx::SchemaKind::Struct { name, fields } => b matches vx::SchemaKind::Struct { name: n, fields: f }
            && n@ == name@ && fields_same(fields@, f@),
        vx::SchemaKind::Enum { name, variants } => b matches vx::SchemaKind::Enum { name: n, variants: v }
            && n@ == name@ && variants_same(variants@, v@),
        vx::SchemaKind::Tuple { elements } => b matches vx::SchemaKind::Tuple { elements: e } && vox_refs_same(
            elements@,
            e@,
        ),
        vx::SchemaKind::List { element } => b matches vx::SchemaKind::List { element: e } && vox_ref_same(
            element,
            e,
        ),
        vx::SchemaKind::MapOf { key, value } => b matches vx::SchemaKind::MapOf { key: k, value: v }
            && vox_ref_same(key, k) && vox_ref_same(value, v),
        vx::SchemaKind::Array { element, length } => b matches vx::SchemaKind::Array { element: e, length: l }
            && vox_ref_same(element, e) && l == length,
        vx::SchemaKind::Option { element } => b matches vx::SchemaKind::Option { element: e } && vox_ref_same(
            element,
            e,
        ),
        vx::SchemaKind::Channel { direction, element } => b matches vx::SchemaKind::Channel {
            direction: d,
            element: e,
        } && d == direction && vox_ref_same(element, e),
        vx::SchemaKind::Primitive { primitive_type } => b matches vx::SchemaKind::Primitive {
            primitive_type: p,
        } && p == primitive_type,
    }
}

/// No schema of `argless` is applied to arguments in a variant payload.
pub open spec fn payload_keeps_args(p: vx::VariantPayload, argless: Set<u64>) -> bool {
    match p {
        vx::VariantPayload::Unit => true,
        vx::VariantPayload::Newtype { type_ref } => keeps_args(type_ref, argless),
        vx::VariantPayload::Tuple { types } => all_keep_args(types@, argless),
        vx::VariantPayload::Struct { fields } => forall|i: int|
            0 <= i < fields@.len() ==> keeps_args(#[trigger] fields@[i].type_ref, argless),
    }
}

/// No schema of `argless` is applied to arguments anywhere in a kind.
pub open spec fn kind_keeps_args(k: vx::SchemaKind, argless: Set<u64>) -> bool {
    match k {
        vx::SchemaKind::Struct { fields, .. } => forall|i: int|
            0 <= i < fields@.len() ==> keeps_args(#[trigger] fields@[i].type_ref, argless),
        vx::SchemaKind::Enum { variants, .. } => forall|i: int|
            0 <= i < variants@.len() ==> payload_keeps_args(#[trigger] variants@[i].payload, argless),
        vx::SchemaKind::Tuple { elements } => all_keep_args(elements@, argless),
        vx::SchemaKind::List { element } => keeps_args(element, argless),
        vx::SchemaKind::MapOf { key, value } => keeps_args(key, argless) && keeps_args(value, argless),
        vx::SchemaKind::Array { element, .. } => keeps_args(element, argless),
        vx::SchemaKind::Option { element } => keeps_args(element, argless),
        vx::SchemaKind::Channel { element, .. } => keeps_args(element, argless),
        vx::SchemaKind::Primitive { .. } => true,
    }
}

/// [`law_type_ref_round_trip`] for the fields of a record.
pub proof fn lemma_fields_round_trip(
    fs: Seq<vx::FieldSchema>,
    gs: Seq<bn::Field>,
    hs: Seq<vx::FieldSchema>,
    argless: Set<u64>,
)
    requires
        forall|i: int| 0 <= i < fs.len() ==> keeps_args(#[trigger] fs[i].type_ref, argless),
        bin_fields_of(fs, gs, argless),
        vox_fields_of(gs, hs),
    ensures
        fields_same(fs, hs),
{
    assert forall|i: int| 0 <= i < fs.len() implies #[trigger] field_same(fs[i], hs[i]) by {
        assert(bin_field_of(fs[i], gs[i], argless));
        assert(vox_field_of(gs[i], hs[i]));
        assert(keeps_args(fs[i].type_ref, argless));
        law_type_ref_round_trip(fs[i].type_ref, gs[i].type_ref, hs[i].type_ref, argless);
    }
}

/// [`law_type_ref_round_trip`] for a variant payload.
pub proof fn lemma_payload_round_trip(
    p: vx::VariantPayload,
    q: bn::VariantPayload,
    r: vx::VariantPayload,
    argless: Set<u64>,
)
    requires
        payload_keeps_args(p, argless),
        bin_payload_of(p, q, argless),
        vox_payload_of(q, r),
    ensures
        payload_same(p, r),
{
    match p {
        vx::VariantPayload::Unit => {},
        vx::VariantPayload::Newtype { type_ref } => {
            law_type_ref_round_trip(type_ref, q->Newtype_type_ref, r->Newtype_type_ref, argless);
        },
        vx::VariantPayload::Tuple { types } => {
            lemma_refs_round_trip(types@, q->elements@, r->types@, argless);
        },
        vx::VariantPayload::Struct { fields } => {
            lemma_fields_round_trip(fields@, q->Struct_fields@, r->Struct_fields@, argless);
        },
    }
}

/// Converting a vox schema kind other than a channel to binette and back
/// gives it back, unless it applies an argless schema to arguments. (A
/// channel comes back as the unit primitive: binette payloads carry no
/// channels.)
pub proof fn law_schema_kind_round_trip(
    k: vx::SchemaKind,
    b: bn::SchemaKind,
    r: Result<vx::SchemaKind, SchemaDeserializeError>,
    argless: Set<u64>,
)
    requires
        !(k is Channel),
        kind_keeps_args(k, argless),
        bin_kind_of(k, b, argless),
        vox_kind_of(b, r),
    ensures
        r matches Ok(back) && kind_same(k, back),
{
    match k {
        vx::SchemaKind::Struct { fields, .. } => {
            lemma_fields_round_trip(fields@, b->Struct_fields@, r->Ok_0->Struct_fields@, argless);
        },
        vx::SchemaKind::Enum { variants, .. } => {
            let ws = b->Enum_variants@;
            let back = r->Ok_0->Enum_variants@;
            assert forall|i: int| 0 <= i < variants@.len() implies #[trigger] variant_same(variants@[i], back[i]) by {
                assert(bin_variant_of(variants@[i], ws[i], argless));
                assert(vox_variant_of(ws[i], back[i]));
                assert(payload_keeps_args(variants@[i].payload, argless));
                lemma_payload_round_trip(variants@[i].payload, ws[i].payload, back[i].payload, argless);
            }
        },
        vx::SchemaKind::Tuple { elements } => {
            lemma_refs_round_trip(elements@, b->Tuple_elements@, r->Ok_0->Tuple_elements@, argless);
        },
        vx::SchemaKind::List { element } => {
            law_type_ref_round_trip(element, b->List_element, r->Ok_0->List_element, argless);
        },
        vx::SchemaKind::MapOf { key, value } => {
            law_type_ref_round_trip(key, b->key, r->Ok_0->key, argless);
            law_type_ref_round_trip(value, b->value, r->Ok_0->value, argless);
        },
        vx::SchemaKind::Array { element, .. } => {
            law_type_ref_round_trip(element, b->Array_element, r->Ok_0->Array_element, argless);
        },
        vx::SchemaKind::Option { element } => {
            law_type_ref_round_trip(element, b->Option_element, r->Ok_0->Option_element, argless);
        },
        vx::SchemaKind::Channel { .. } => {},
        vx::SchemaKind::Primitive { .. } => {},
    }
}

/// Each primitive converts to the primitive of the same name, in both
/// directions: a boolean stays a boolean, each integer keeps its width and
/// signedness, each float its width, and the text, unit, never, bytes and
/// payload primitives stay what they are.
pub proof fn law_primitives_keep_their_names()
    ensures
        vox_prim(bn::Primitive::Bool) == vx::PrimitiveType::Bool,
        vox_prim(bn::Primitive::U8) == vx::PrimitiveType::U8,
        vox_prim(bn::Primitive::U16) == vx::PrimitiveType::U16,
        vox_prim(bn::Primitive::U32) == vx::PrimitiveType::U32,
        vox_prim(bn::Primitive::U64) == vx::PrimitiveType::U64,
        vox_prim(bn::Primitive::U128) == vx::PrimitiveType::U128,
        vox_prim(bn::Primitive::I8) == vx::PrimitiveType::I8,
        vox_prim(bn::Primitive::I16) == vx::PrimitiveType::I16,
        vox_prim(bn::Primitive::I32) == vx::PrimitiveType::I32,
        vox_prim(bn::Primitive::I64) == vx::PrimitiveType::I64,
        vox_prim(bn::Primitive::I128) == vx::PrimitiveType::I128,
        vox_prim(bn::Primitive::F32) == vx::PrimitiveType::F32,
        vox_prim(bn::Primitive::F64) == vx::PrimitiveType::F64,
        vox_prim(bn::Primitive::Char) == vx::PrimitiveType::Char,
        vox_prim(bn::Primitive::String) == vx::PrimitiveType::String,
        vox_prim(bn::Primitive::Unit) == vx::PrimitiveType::Unit,
        vox_prim(bn::Primitive::Never) == vx::PrimitiveType::Never,
        vox_prim(bn::Primitive::Bytes) == vx::PrimitiveType::Bytes,
        vox_prim(bn::Primitive::Payload) == vx::PrimitiveType::Payload,
        binette_prim(vx::PrimitiveType::Bool) == bn::Primitive::Bool,
        binette_prim(vx::PrimitiveType::U8) == bn::Primitive::U8,
        binette_prim(vx::PrimitiveType::U16) == bn::Primitive::U16,
        binette_prim(vx::PrimitiveType::U32) == bn::Primitive::U32,
        binette_prim(vx::PrimitiveType::U64) == bn::Primitive::U64,
        binette_prim(vx::PrimitiveType::U128) == bn::Primitive::U128,
        binette_prim(vx::PrimitiveType::I8) == bn::Primitive::I8,
        binette_prim(vx::PrimitiveType::I16) == bn::Primitive::I16,
        binette_prim(vx::PrimitiveType::I32) == bn::Primitive::I32,
        binette_prim(vx::PrimitiveType::I64) == bn::Primitive::I64,
        binette_prim(vx::PrimitiveType::I128) == bn::Primitive::I128,
        binette_prim(vx::PrimitiveType::F32) == bn::Primitive::F32,
        binette_prim(vx::PrimitiveType::F64) == bn::Primitive::F64,
        binette_prim(vx::PrimitiveType::Char) == bn::Primitive::Char,
        binette_prim(vx::PrimitiveType::String) == bn::Primitive::String,
        binette_prim(vx::PrimitiveType::Unit) == bn::Primitive::Unit,
        binette_prim(vx::PrimitiveType::Never) == bn::Primitive::Never,
        binette_prim(vx::PrimitiveType::Bytes) == bn::Primitive::Bytes,
        binette_prim(vx::PrimitiveType::Payload) == bn::Primitive::Payload,
{
}

/// A channel's `direction` field is read by the protocol's names: `"send"`
/// (or its short form `"tx"`) is a sending channel and `"recv"` (or `"rx"`)
/// a receiving one; any other text is no direction.
pub proof fn law_channel_direction_names(f: bn::FieldValue)
    ensures
        f.value matches bn::Value::String(d) && (d@ == "send"@ || d@ == "tx"@) ==> direction_of(f) == Ok::<
            vx::ChannelDirection,
            Seq<char>,
        >(vx::ChannelDirection::Tx),
        f.value matches bn::Value::String(d) && (d@ == "recv"@ || d@ == "rx"@) ==> direction_of(f) == Ok::<
            vx::ChannelDirection,
            Seq<char>,
        >(vx::ChannelDirection::Rx),
        f.value matches bn::Value::String(d) && d@ != "send"@ && d@ != "tx"@ && d@ != "recv"@ && d@ != "rx"@
            ==> direction_of(f) is Err,
{
    reveal_strlit("send");
    reveal_strlit("recv");
    reveal_strlit("tx");
    reveal_strlit("rx");
    assert("recv"@[0] != "send"@[0]);
    assert("recv"@.len() != "tx"@.len());
    assert("rx"@.len() != "send"@.len());
    assert("rx"@[0] == 'r' && "tx"@[0] == 't');
}

} // verus!
