//! Swift descriptor expressions: for a type, the Swift expression that builds
//! its `Descriptor` — schema id, memory layout and access path (scalars,
//! strings and byte runs, options, sequences, string-keyed maps, records,
//! unit/newtype enums and results).

use super::{join, join_strings, push_str};
use crate::text::{decimal, hex_u64_text, push_decimal, push_hex_u64};
use vstd::prelude::*;

verus! {

/// A type as the descriptor generator reads it: its Swift spelling, the
/// content id of its schema root, and its shape.
#[derive(Debug)]
pub struct DescShape {
    pub swift_type: String,
    pub schema_id: u64,
    pub kind: DescKind,
}

/// The shapes a descriptor can be built for.
#[derive(Debug)]
pub enum DescKind {
    /// A byte sequence, or an opaque payload carried as one.
    Bytes,
    /// A string.
    Text,
    /// Any other scalar; `fixed` for the fixed-width ones (unit, bool, the
    /// integers and floats), which sequences copy as raw bytes.
    Scalar { fixed: bool },
    Optional(Box<DescShape>),
    /// A list, slice, array or set.
    Sequence(Box<DescShape>),
    /// A map; its keys are strings.
    Dictionary { key: Box<DescShape>, value: Box<DescShape> },
    /// A named struct, its fields by Swift name.
    Record { name: String, fields: Vec<DescField> },
    /// A named enum of unit and newtype variants.
    Enumeration { variants: Vec<DescVariant> },
    /// `Result<Ok, Err>`.
    Outcome { ok: Box<DescShape>, err: Box<DescShape> },
}

/// A struct field: its Swift name and type.
#[derive(Debug)]
pub struct DescField {
    pub name: String,
    pub shape: DescShape,
}

/// An enum variant: its Swift case name and, for a newtype, the payload.
#[derive(Debug)]
pub struct DescVariant {
    pub case_name: String,
    pub payload: Option<DescShape>,
}

/// Every map in the type has string keys.
pub open spec fn desc_wf(s: DescShape) -> bool
    decreases s, 0int,
{
    match s.kind {
        DescKind::Optional(inner) => desc_wf(*inner),
        DescKind::Sequence(e) => desc_wf(*e),
        DescKind::Dictionary { key, value } => key.kind is Text && desc_wf(*key) && desc_wf(*value),
        DescKind::Record { fields, .. } => fields_wf(fields@),
        DescKind::Enumeration { variants } => variants_wf(variants@),
        DescKind::Outcome { ok, err } => desc_wf(*ok) && desc_wf(*err),
        _ => true,
    }
}

/// Every field's type is well formed.
pub open spec fn fields_wf(fs: Seq<DescField>) -> bool
    decreases fs, 1int,
{
    fs.len() > 0 ==> fields_wf(fs.drop_last()) && desc_wf(fs.last().shape)
}

/// Every variant's payload is well formed.
pub open spec fn variants_wf(vs: Seq<DescVariant>) -> bool
    decreases vs, 1int,
{
    vs.len() > 0 ==> variants_wf(vs.drop_last()) && match vs.last().payload {
        Some(p) => desc_wf(p),
        None => true,
    }
}

/// The schema reference of a type.
pub open spec fn schema_ref_text(id: u64) -> Seq<char> {
    ".concrete(SchemaId("@ + hex_u64_text(id) + "))"@
}

/// The layout of a Swift type.
pub open spec fn layout_text(ty: Seq<char>) -> Seq<char> {
    "Layout(size: MemoryLayout<"@ + ty + ">.size, align: MemoryLayout<"@ + ty + ">.alignment)"@
}

/// The byte-run access of bytes and opaque payloads.
pub open spec fn byte_array_access() -> Seq<char> {
    ".bytes(BytesAccess(stride: 1, elemAlign: 1, witness: .byteArray))"@
}

/// The byte-run access of strings.
pub open spec fn string_access() -> Seq<char> {
    ".bytes(BytesAccess(stride: 1, elemAlign: 1, witness: .string))"@
}

/// The full descriptor expression of a type.
pub open spec fn desc_text(s: DescShape) -> Seq<char>
    decreases s, 0int, 1int,
{
    "Descriptor(schema: "@ + schema_ref_text(s.schema_id) + ", layout: "@ + layout_text(s.swift_type@)
        + ", access: "@ + access_text(s) + ")"@
}

/// The bulk access of a sequence of fixed-width scalars of Swift type `ty`.
pub open spec fn bulk_text(ty: Seq<char>) -> Seq<char> {
    ".bytes(BytesAccess(stride: MemoryLayout<"@ + ty + ">.stride, elemAlign: MemoryLayout<"@ + ty
        + ">.alignment, witness: .scalarArray("@ + ty + ".self)))"@
}

/// The per-element access of a sequence of Swift type `ty` elements.
pub open spec fn sequence_text(ty: Seq<char>, element_desc: Seq<char>) -> Seq<char> {
    ".sequence(SequenceAccess(element: "@ + element_desc + ", stride: MemoryLayout<"@ + ty
        + ">.stride, elemAlign: MemoryLayout<"@ + ty + ">.alignment, witness: .of("@ + ty + ".self)))"@
}

/// The access of a string-keyed map of Swift type `v` values.
pub open spec fn map_text(key_desc: Seq<char>, value_desc: Seq<char>, v: Seq<char>) -> Seq<char> {
    ".map(MapAccess(key: "@ + key_desc + ", value: "@ + value_desc
        + ", keyStride: MemoryLayout<String>.stride, keyAlign: MemoryLayout<String>.alignment, valueStride: MemoryLayout<"@
        + v + ">.stride, valueAlign: MemoryLayout<"@ + v + ">.alignment, witness: .stringKeyed("@ + v + ".self)))"@
}

/// The option access of an optional Swift type `inner`.
pub open spec fn option_text(inner: Seq<char>, inner_desc: Seq<char>) -> Seq<char> {
    ".option(OptionAccess(witness: .of("@ + inner + ".self), some: "@ + inner_desc + "))"@
}

/// A sequence element type is copied as raw bytes.
pub open spec fn is_fixed(s: DescShape) -> bool {
    s.kind matches DescKind::Scalar { fixed } && fixed
}

/// The access path of a type.
pub open spec fn access_text(s: DescShape) -> Seq<char>
    decreases s, 0int, 0int,
{
    match s.kind {
        DescKind::Bytes => byte_array_access(),
        DescKind::Text => string_access(),
        DescKind::Scalar { .. } => ".scalar"@,
        DescKind::Optional(inner) => option_text(inner.swift_type@, desc_text(*inner)),
        DescKind::Sequence(e) => if is_fixed(*e) {
            bulk_text(e.swift_type@)
        } else {
            sequence_text(e.swift_type@, desc_text(*e))
        },
        DescKind::Dictionary { key, value } => map_text(desc_text(*key), desc_text(*value), value.swift_type@),
        DescKind::Record { name, fields } => ".record(RecordAccess(fields: ["@ + join(
            field_entries(name@, fields@, fields@.len() as int),
            ", "@,
        ) + "], construct: .inPlace))"@,
        DescKind::Enumeration { variants } => enum_text(s.swift_type@, variants@),
        DescKind::Outcome { ok, err } => result_text(ok.swift_type@, err.swift_type@, desc_text(*ok), desc_text(*err)),
    }
}

/// The field access of a field of record `ty`.
pub open spec fn field_entry(ty: Seq<char>, name: Seq<char>, field_desc: Seq<char>) -> Seq<char> {
    "FieldAccess(offset: MemoryLayout<"@ + ty + ">.offset(of: \\"@ + ty + "."@ + name + ")!, descriptor: "@
        + field_desc + ")"@
}

/// The field accesses of the first `n` fields of a record named `ty`.
pub open spec fn field_entries(ty: Seq<char>, fs: Seq<DescField>, n: int) -> Seq<Seq<char>>
    decreases fs, 1int, n,
{
    if n <= 0 || n > fs.len() {
        Seq::empty()
    } else {
        field_entries(ty, fs, n - 1).push(field_entry(ty, fs[n - 1].name@, desc_text(fs[n - 1].shape)))
    }
}

/// The tag switch case of the variant at position `i`.
pub open spec fn tag_case(i: int, v: DescVariant) -> Seq<char> {
    "case ."@ + v.case_name@ + ": return "@ + decimal(i as nat) + "\n            "@
}

/// The payload-projection case of the variant at position `i`.
pub open spec fn project_case(v: DescVariant) -> Seq<char> {
    match v.payload {
        None => "case ."@ + v.case_name@ + ": break\n            "@,
        Some(p) => "case ."@ + v.case_name@ + "(let f0): scratch.assumingMemoryBound(to: "@ + p.swift_type@
            + ".self).initialize(to: f0)\n            "@,
    }
}

/// The payload-destruction case of the variant at position `i` (none for a
/// unit variant).
pub open spec fn destroy_case(i: int, v: DescVariant) -> Seq<char> {
    match v.payload {
        None => Seq::empty(),
        Some(p) => "case "@ + decimal(i as nat) + ": scratch.assumingMemoryBound(to: "@ + p.swift_type@
            + ".self).deinitialize(count: 1)\n            "@,
    }
}

/// The injection case of the variant at position `i`.
pub open spec fn inject_case(i: int, v: DescVariant) -> Seq<char> {
    match v.payload {
        None => "case "@ + decimal(i as nat) + ": v = ."@ + v.case_name@ + "\n            "@,
        Some(p) => "case "@ + decimal(i as nat) + ": v = ."@ + v.case_name@ + "(scratch.assumingMemoryBound(to: "@
            + p.swift_type@ + ".self).move())\n            "@,
    }
}

/// The cases of the first `n` variants, each case from `f`, concatenated.
pub open spec fn cases(vs: Seq<DescVariant>, n: int, f: spec_fn(int, DescVariant) -> Seq<char>) -> Seq<char>
    decreases n,
{
    if n <= 0 {
        Seq::empty()
    } else {
        cases(vs, n - 1, f) + f(n - 1, vs[n - 1])
    }
}

/// The variant access entry of the variant at position `i`.
pub open spec fn variant_entry(i: int, v: DescVariant, payload_desc: Seq<char>) -> Seq<char> {
    match v.payload {
        None => "VariantAccess(wireIndex: "@ + decimal(i as nat)
            + ", payloadFields: [], payloadLayout: Layout(size: 0, align: 1))"@,
        Some(p) => "VariantAccess(wireIndex: "@ + decimal(i as nat)
            + ", payloadFields: [FieldAccess(offset: 0, descriptor: "@ + payload_desc
            + ")], payloadLayout: MemoryLayout<"@ + p.swift_type@ + ">.phonLayout)"@,
    }
}

/// The variant access entries of the first `n` variants.
pub open spec fn variant_entries(vs: Seq<DescVariant>, n: int) -> Seq<Seq<char>>
    decreases vs, 1int, n,
{
    if n <= 0 || n > vs.len() {
        Seq::empty()
    } else {
        let v = vs[n - 1];
        let pd = match v.payload {
            Some(p) => desc_text(p),
            None => Seq::empty(),
        };
        variant_entries(vs, n - 1).push(variant_entry(n - 1, v, pd))
    }
}

/// The enumeration access of an enum `ty` with these variants.
pub open spec fn enum_text(ty: Seq<char>, vs: Seq<DescVariant>) -> Seq<char>
    decreases vs, 2int, 0int,
{
    let n = vs.len() as int;
    ".enumeration(EnumAccess(\n            tag: { ptr in switch ptr.assumingMemoryBound(to: "@ + ty
        + ".self).pointee {\n            "@ + cases(vs, n, |i: int, v: DescVariant| tag_case(i, v))
        + "} },\n            projectPayload: { value, _, scratch in switch value.assumingMemoryBound(to: "@ + ty
        + ".self).pointee {\n            "@ + cases(vs, n, |i: int, v: DescVariant| project_case(v))
        + "} },\n            destroyPayload: { scratch, localIndex in switch localIndex {\n            "@
        + cases(vs, n, |i: int, v: DescVariant| destroy_case(i, v))
        + "default: break\n            } },\n            inject: { slot, localIndex, scratch in\n            let v: "@
        + ty + "\n            switch localIndex {\n            "@ + cases(vs, n, |i: int, v: DescVariant| inject_case(i, v))
        + "default: fatalError(\"bad variant index\")\n            }\n            slot.assumingMemoryBound(to: "@ + ty
        + ".self).initialize(to: v) },\n            variants: ["@ + join(variant_entries(vs, n), ", "@) + "]))"@
}

/// The handler closures of the enumeration access of `Result<Ok, Err>`
/// (spelled `res`): `.success` is variant 0 and `.failure` variant 1.
pub open spec fn result_handlers(res: Seq<char>, ok_ty: Seq<char>, err_ty: Seq<char>) -> Seq<char> {
    ".enumeration(EnumAccess(\n            tag: { ptr in switch ptr.assumingMemoryBound(to: "@ + res
        + ".self).pointee { case .success: return 0; case .failure: return 1 } },\n            projectPayload: { value, _, scratch in switch value.assumingMemoryBound(to: "@
        + res + ".self).pointee { case .success(let f0): scratch.assumingMemoryBound(to: "@ + ok_ty
        + ".self).initialize(to: f0); case .failure(let f0): scratch.assumingMemoryBound(to: "@ + err_ty
        + ".self).initialize(to: f0) } },\n            destroyPayload: { scratch, localIndex in if localIndex == 0 { scratch.assumingMemoryBound(to: "@
        + ok_ty + ".self).deinitialize(count: 1) } else { scratch.assumingMemoryBound(to: "@ + err_ty
        + ".self).deinitialize(count: 1) } },\n            inject: { slot, localIndex, scratch in\n            let v: "@
        + res + " = localIndex == 0 ? .success(scratch.assumingMemoryBound(to: "@ + ok_ty
        + ".self).move()) : .failure(scratch.assumingMemoryBound(to: "@ + err_ty
        + ".self).move())\n            slot.assumingMemoryBound(to: "@ + res + ".self).initialize(to: v) },\n"@
}

/// The variant entries of the enumeration access of `Result<Ok, Err>`.
pub open spec fn result_variants(ok_ty: Seq<char>, err_ty: Seq<char>, ok_desc: Seq<char>, err_desc: Seq<char>) -> Seq<char> {
    "            variants: [VariantAccess(wireIndex: 0, payloadFields: [FieldAccess(offset: 0, descriptor: "@
        + ok_desc + ")], payloadLayout: MemoryLayout<"@ + ok_ty
        + ">.phonLayout), VariantAccess(wireIndex: 1, payloadFields: [FieldAccess(offset: 0, descriptor: "@
        + err_desc + ")], payloadLayout: MemoryLayout<"@ + err_ty + ">.phonLayout)]))"@
}

/// The enumeration access of `Result<Ok, Err>`.
pub open spec fn result_text(ok_ty: Seq<char>, err_ty: Seq<char>, ok_desc: Seq<char>, err_desc: Seq<char>) -> Seq<char> {
    let res = "Result<"@ + ok_ty + ", "@ + err_ty + ">"@;
    result_handlers(res, ok_ty, err_ty) + result_variants(ok_ty, err_ty, ok_desc, err_desc)
}

/// A well-formed record's fields are well formed.
pub proof fn lemma_fields_wf(fs: Seq<DescField>, i: int)
    requires
        fields_wf(fs),
        0 <= i < fs.len(),
    ensures
        desc_wf(fs[i].shape),
    decreases fs.len(),
{
    if i < fs.len() - 1 {
        assert(fs.drop_last()[i] == fs[i]);
        lemma_fields_wf(fs.drop_last(), i);
    }
}

/// A well-formed enum's payloads are well formed.
pub proof fn lemma_variants_wf(vs: Seq<DescVariant>, i: int)
    requires
        variants_wf(vs),
        0 <= i < vs.len(),
    ensures
        vs[i].payload matches Some(p) ==> desc_wf(p),
    decreases vs.len(),
{
    if i < vs.len() - 1 {
        assert(vs.drop_last()[i] == vs[i]);
        lemma_variants_wf(vs.drop_last(), i);
    }
}

fn push_layout(out: &mut String, ty: &String)
    ensures
        final(out)@ == old(out)@ + layout_text(ty@),
{
    push_str(out, "Layout(size: MemoryLayout<");
    push_str(out, ty.as_str());
    push_str(out, ">.size, align: MemoryLayout<");
    push_str(out, ty.as_str());
    push_str(out, ">.alignment)");
    assert(final(out)@ =~= old(out)@ + layout_text(ty@));
}

fn desc_string(s: &DescShape) -> (r: String)
    requires
        desc_wf(*s),
    ensures
        r@ == desc_text(*s),
    decreases s, 0int, 2int,
{
    let mut r = String::new();
    push_desc(&mut r, s);
    assert(r@ =~= desc_text(*s));
    r
}

fn push_desc(out: &mut String, s: &DescShape)
    requires
        desc_wf(*s),
    ensures
        final(out)@ == old(out)@ + desc_text(*s),
    decreases s, 0int, 1int,
{
    push_str(out, "Descriptor(schema: ");
    push_str(out, ".concrete(SchemaId(");
    push_hex_u64(out, s.schema_id);
    push_str(out, "))");
    push_str(out, ", layout: ");
    push_layout(out, &s.swift_type);
    push_str(out, ", access: ");
    push_access(out, s);
    push_str(out, ")");
    assert(final(out)@ =~= old(out)@ + desc_text(*s));
}

fn push_bulk(out: &mut String, ty: &String)
    ensures
        final(out)@ == old(out)@ + bulk_text(ty@),
{
    push_str(out, ".bytes(BytesAccess(stride: MemoryLayout<");
    push_str(out, ty.as_str());
    push_str(out, ">.stride, elemAlign: MemoryLayout<");
    push_str(out, ty.as_str());
    push_str(out, ">.alignment, witness: .scalarArray(");
    push_str(out, ty.as_str());
    push_str(out, ".self)))");
    assert(final(out)@ =~= old(out)@ + bulk_text(ty@));
}

fn push_sequence(out: &mut String, ty: &String, element_desc: &String)
    ensures
        final(out)@ == old(out)@ + sequence_text(ty@, element_desc@),
{
    push_str(out, ".sequence(SequenceAccess(element: ");
    push_str(out, element_desc.as_str());
    push_str(out, ", stride: MemoryLayout<");
    push_str(out, ty.as_str());
    push_str(out, ">.stride, elemAlign: MemoryLayout<");
    push_str(out, ty.as_str());
    push_str(out, ">.alignment, witness: .of(");
    push_str(out, ty.as_str());
    push_str(out, ".self)))");
    assert(final(out)@ =~= old(out)@ + sequence_text(ty@, element_desc@));
}

fn push_map(out: &mut String, key_desc: &String, value_desc: &String, v: &String)
    ensures
        final(out)@ == old(out)@ + map_text(key_desc@, value_desc@, v@),
{
    push_str(out, ".map(MapAccess(key: ");
    push_str(out, key_desc.as_str());
    push_str(out, ", value: ");
    push_str(out, value_desc.as_str());
    push_str(
        out,
        ", keyStride: MemoryLayout<String>.stride, keyAlign: MemoryLayout<String>.alignment, valueStride: MemoryLayout<",
    );
    push_str(out, v.as_str());
    push_str(out, ">.stride, valueAlign: MemoryLayout<");
    push_str(out, v.as_str());
    push_str(out, ">.alignment, witness: .stringKeyed(");
    push_str(out, v.as_str());
    push_str(out, ".self)))");
    assert(final(out)@ =~= old(out)@ + map_text(key_desc@, value_desc@, v@));
}

fn push_option(out: &mut String, inner: &String, inner_desc: &String)
    ensures
        final(out)@ == old(out)@ + option_text(inner@, inner_desc@),
{
    push_str(out, ".option(OptionAccess(witness: .of(");
    push_str(out, inner.as_str());
    push_str(out, ".self), some: ");
    push_str(out, inner_desc.as_str());
    push_str(out, "))");
    assert(final(out)@ =~= old(out)@ + option_text(inner@, inner_desc@));
}

fn push_access(out: &mut String, s: &DescShape)
    requires
        desc_wf(*s),
    ensures
        final(out)@ == old(out)@ + access_text(*s),
    decreases s, 0int, 0int,
{
    match &s.kind {
        DescKind::Bytes => push_str(out, ".bytes(BytesAccess(stride: 1, elemAlign: 1, witness: .byteArray))"),
        DescKind::Text => push_str(out, ".bytes(BytesAccess(stride: 1, elemAlign: 1, witness: .string))"),
        DescKind::Scalar { .. } => push_str(out, ".scalar"),
        DescKind::Optional(inner) => {
            let d = desc_string(inner);
            push_option(out, &inner.swift_type, &d);
        },
        DescKind::Sequence(e) => {
            let fixed = match &e.kind {
                DescKind::Scalar { fixed } => *fixed,
                _ => false,
            };
            if fixed {
                push_bulk(out, &e.swift_type);
            } else {
                let d = desc_string(e);
                push_sequence(out, &e.swift_type, &d);
            }
        },
        DescKind::Dictionary { key, value } => {
            let kd = desc_string(key);
            let vd = desc_string(value);
            push_map(out, &kd, &vd, &value.swift_type);
        },
        DescKind::Record { name, fields } => {
            proof {
                assert(decreases_to!(*s => s.kind));
                assert(decreases_to!(s.kind => *fields));
                assert(decreases_to!(*fields => fields@));
            }
            let entries = field_strings(name, fields);
            push_str(out, ".record(RecordAccess(fields: [");
            let joined = join_strings(&entries, ", ");
            push_str(out, joined.as_str());
            push_str(out, "], construct: .inPlace))");
            assert(final(out)@ =~= old(out)@ + access_text(*s));
        },
        DescKind::Enumeration { variants } => {
            proof {
                assert(decreases_to!(*s => s.kind));
                assert(decreases_to!(s.kind => *variants));
                assert(decreases_to!(*variants => variants@));
            }
            push_enum(out, &s.swift_type, variants);
        },
        DescKind::Outcome { ok, err } => {
            let od = desc_string(ok);
            let ed = desc_string(err);
            push_result(out, &ok.swift_type, &err.swift_type, &od, &ed);
        },
    }
}

fn field_strings(ty: &String, fields: &Vec<DescField>) -> (r: Vec<String>)
    requires
        fields_wf(fields@),
    ensures
        r@.map_values(|e: String| e@) == field_entries(ty@, fields@, fields@.len() as int),
    decreases fields@, 1int, 0int,
{
    let mut r: Vec<String> = Vec::new();
    let mut i: usize = 0;
    while i < fields.len()
        invariant
            i <= fields.len(),
            fields_wf(fields@),
            r@.map_values(|e: String| e@) == field_entries(ty@, fields@, i as int),
        decreases fields.len() - i,
    {
        let f = &fields[i];
        proof {
            lemma_fields_wf(fields@, i as int);
            assert(decreases_to!(fields@ => fields@[i as int]));
            assert(decreases_to!(fields@[i as int] => fields@[i as int].shape));
        }
        let d = desc_string(&f.shape);
        let mut e = String::from_str("FieldAccess(offset: MemoryLayout<");
        push_str(&mut e, ty.as_str());
        push_str(&mut e, ">.offset(of: \\");
        push_str(&mut e, ty.as_str());
        push_str(&mut e, ".");
        push_str(&mut e, f.name.as_str());
        push_str(&mut e, ")!, descriptor: ");
        push_str(&mut e, d.as_str());
        push_str(&mut e, ")");
        assert(e@ =~= field_entry(ty@, f.name@, d@));
        let ghost before = r@.map_values(|e: String| e@);
        r.push(e);
        assert(r@.map_values(|e: String| e@) =~= before.push(field_entry(ty@, f.name@, d@)));
        i += 1;
    }
    r
}

fn variant_strings(vs: &Vec<DescVariant>) -> (r: Vec<String>)
    requires
        variants_wf(vs@),
    ensures
        r@.map_values(|e: String| e@) == variant_entries(vs@, vs@.len() as int),
    decreases vs@, 1int, 0int,
{
    let mut r: Vec<String> = Vec::new();
    let mut i: usize = 0;
    while i < vs.len()
        invariant
            i <= vs.len(),
            variants_wf(vs@),
            r@.map_values(|e: String| e@) == variant_entries(vs@, i as int),
        decreases vs.len() - i,
    {
        let v = &vs[i];
        proof {
            lemma_variants_wf(vs@, i as int);
        }
        let ghost before = r@.map_values(|e: String| e@);
        let mut e = String::from_str("VariantAccess(wireIndex: ");
        push_decimal(&mut e, i as u64);
        match &v.payload {
            None => {
                push_str(&mut e, ", payloadFields: [], payloadLayout: Layout(size: 0, align: 1))");
                assert(e@ =~= variant_entry(i as int, *v, Seq::empty()));
            },
            Some(p) => {
                proof {
                    assert(decreases_to!(vs@ => vs@[i as int]));
                    assert(decreases_to!(vs@[i as int] => vs@[i as int].payload));
                    assert(decreases_to!(vs@[i as int].payload => *p));
                }
                let d = desc_string(p);
                push_str(&mut e, ", payloadFields: [FieldAccess(offset: 0, descriptor: ");
                push_str(&mut e, d.as_str());
                push_str(&mut e, ")], payloadLayout: MemoryLayout<");
                push_str(&mut e, p.swift_type.as_str());
                push_str(&mut e, ">.phonLayout)");
                assert(e@ =~= variant_entry(i as int, *v, d@));
            },
        }
        r.push(e);
        assert(r@.map_values(|e: String| e@) =~= variant_entries(vs@, i + 1));
        i += 1;
    }
    r
}

fn push_enum(out: &mut String, ty: &String, vs: &Vec<DescVariant>)
    requires
        variants_wf(vs@),
    ensures
        final(out)@ == old(out)@ + enum_text(ty@, vs@),
    decreases vs@, 2int, 0int,
{
    let ghost n = vs@.len() as int;
    let mut tag = String::new();
    let mut project = String::new();
    let mut destroy = String::new();
    let mut inject = String::new();
    let mut i: usize = 0;
    while i < vs.len()
        invariant
            i <= vs.len(),
            tag@ == cases(vs@, i as int, |i: int, v: DescVariant| tag_case(i, v)),
            project@ == cases(vs@, i as int, |i: int, v: DescVariant| project_case(v)),
            destroy@ == cases(vs@, i as int, |i: int, v: DescVariant| destroy_case(i, v)),
            inject@ == cases(vs@, i as int, |i: int, v: DescVariant| inject_case(i, v)),
        decreases vs.len() - i,
    {
        let v = &vs[i];
        let ghost (t0, p0, d0, j0) = (tag@, project@, destroy@, inject@);
        push_str(&mut tag, "case .");
        push_str(&mut tag, v.case_name.as_str());
        push_str(&mut tag, ": return ");
        push_decimal(&mut tag, i as u64);
        push_str(&mut tag, "\n            ");
        match &v.payload {
            None => {
                push_str(&mut project, "case .");
                push_str(&mut project, v.case_name.as_str());
                push_str(&mut project, ": break\n            ");
                push_str(&mut inject, "case ");
                push_decimal(&mut inject, i as u64);
                push_str(&mut inject, ": v = .");
                push_str(&mut inject, v.case_name.as_str());
                push_str(&mut inject, "\n            ");
                assert(destroy@ =~= d0 + destroy_case(i as int, *v));
            },
            Some(p) => {
                push_str(&mut project, "case .");
                push_str(&mut project, v.case_name.as_str());
                push_str(&mut project, "(let f0): scratch.assumingMemoryBound(to: ");
                push_str(&mut project, p.swift_type.as_str());
                push_str(&mut project, ".self).initialize(to: f0)\n            ");
                push_str(&mut destroy, "case ");
                push_decimal(&mut destroy, i as u64);
                push_str(&mut destroy, ": scratch.assumingMemoryBound(to: ");
                push_str(&mut destroy, p.swift_type.as_str());
                push_str(&mut destroy, ".self).deinitialize(count: 1)\n            ");
                push_str(&mut inject, "case ");
                push_decimal(&mut inject, i as u64);
                push_str(&mut inject, ": v = .");
                push_str(&mut inject, v.case_name.as_str());
                push_str(&mut inject, "(scratch.assumingMemoryBound(to: ");
                push_str(&mut inject, p.swift_type.as_str());
                push_str(&mut inject, ".self).move())\n            ");
                assert(destroy@ =~= d0 + destroy_case(i as int, *v));
            },
        }
        assert(tag@ =~= t0 + tag_case(i as int, *v));
        assert(project@ =~= p0 + project_case(*v));
        assert(inject@ =~= j0 + inject_case(i as int, *v));
        i += 1;
    }
    let entries = variant_strings(vs);
    let joined = join_strings(&entries, ", ");
    push_enum_text(out, ty, &tag, &project, &destroy, &inject, &joined);
    assert(final(out)@ =~= old(out)@ + enum_text(ty@, vs@));
}

fn push_enum_text(
    out: &mut String,
    ty: &String,
    tag: &String,
    project: &String,
    destroy: &String,
    inject: &String,
    variants: &String,
)
    ensures
        final(out)@ == old(out)@ + ".enumeration(EnumAccess(\n            tag: { ptr in switch ptr.assumingMemoryBound(to: "@
            + ty@ + ".self).pointee {\n            "@ + tag@
            + "} },\n            projectPayload: { value, _, scratch in switch value.assumingMemoryBound(to: "@
            + ty@ + ".self).pointee {\n            "@ + project@
            + "} },\n            destroyPayload: { scratch, localIndex in switch localIndex {\n            "@
            + destroy@ + "default: break\n            } },\n            inject: { slot, localIndex, scratch in\n            let v: "@
            + ty@ + "\n            switch localIndex {\n            "@ + inject@
            + "default: fatalError(\"bad variant index\")\n            }\n            slot.assumingMemoryBound(to: "@
            + ty@ + ".self).initialize(to: v) },\n            variants: ["@ + variants@ + "]))"@,
{
    push_str(out, ".enumeration(EnumAccess(\n            tag: { ptr in switch ptr.assumingMemoryBound(to: ");
    push_str(out, ty.as_str());
    push_str(out, ".self).pointee {\n            ");
    push_str(out, tag.as_str());
    push_str(out, "} },\n            projectPayload: { value, _, scratch in switch value.assumingMemoryBound(to: ");
    push_str(out, ty.as_str());
    push_str(out, ".self).pointee {\n            ");
    push_str(out, project.as_str());
    push_str(out, "} },\n            destroyPayload: { scratch, localIndex in switch localIndex {\n            ");
    push_str(out, destroy.as_str());
    push_str(out, "default: break\n            } },\n            inject: { slot, localIndex, scratch in\n            let v: ");
    push_str(out, ty.as_str());
    push_str(out, "\n            switch localIndex {\n            ");
    push_str(out, inject.as_str());
    push_str(out, "default: fatalError(\"bad variant index\")\n            }\n            slot.assumingMemoryBound(to: ");
    push_str(out, ty.as_str());
    push_str(out, ".self).initialize(to: v) },\n            variants: [");
    push_str(out, variants.as_str());
    push_str(out, "]))");
    assert(final(out)@ =~= old(out)@ + ".enumeration(EnumAccess(\n            tag: { ptr in switch ptr.assumingMemoryBound(to: "@
            + ty@ + ".self).pointee {\n            "@ + tag@
            + "} },\n            projectPayload: { value, _, scratch in switch value.assumingMemoryBound(to: "@
            + ty@ + ".self).pointee {\n            "@ + project@
            + "} },\n            destroyPayload: { scratch, localIndex in switch localIndex {\n            "@
            + destroy@ + "default: break\n            } },\n            inject: { slot, localIndex, scratch in\n            let v: "@
            + ty@ + "\n            switch localIndex {\n            "@ + inject@
            + "default: fatalError(\"bad variant index\")\n            }\n            slot.assumingMemoryBound(to: "@
            + ty@ + ".self).initialize(to: v) },\n            variants: ["@ + variants@ + "]))"@);
}

fn push_result_handlers(out: &mut String, res: &String, ok_ty: &String, err_ty: &String)
    ensures
        final(out)@ == old(out)@ + result_handlers(res@, ok_ty@, err_ty@),
{
    push_str(out, ".enumeration(EnumAccess(\n            tag: { ptr in switch ptr.assumingMemoryBound(to: ");
    push_str(out, res.as_str());
    push_str(
        out,
        ".self).pointee { case .success: return 0; case .failure: return 1 } },\n            projectPayload: { value, _, scratch in switch value.assumingMemoryBound(to: ",
    );
    push_str(out, res.as_str());
    push_str(out, ".self).pointee { case .success(let f0): scratch.assumingMemoryBound(to: ");
    push_str(out, ok_ty.as_str());
    push_str(out, ".self).initialize(to: f0); case .failure(let f0): scratch.assumingMemoryBound(to: ");
    push_str(out, err_ty.as_str());
    push_str(
        out,
        ".self).initialize(to: f0) } },\n            destroyPayload: { scratch, localIndex in if localIndex == 0 { scratch.assumingMemoryBound(to: ",
    );
    push_str(out, ok_ty.as_str());
    push_str(out, ".self).deinitialize(count: 1) } else { scratch.assumingMemoryBound(to: ");
    push_str(out, err_ty.as_str());
    push_str(out, ".self).deinitialize(count: 1) } },\n            inject: { slot, localIndex, scratch in\n            let v: ");
    push_str(out, res.as_str());
    push_str(out, " = localIndex == 0 ? .success(scratch.assumingMemoryBound(to: ");
    push_str(out, ok_ty.as_str());
    push_str(out, ".self).move()) : .failure(scratch.assumingMemoryBound(to: ");
    push_str(out, err_ty.as_str());
    push_str(out, ".self).move())\n            slot.assumingMemoryBound(to: ");
    push_str(out, res.as_str());
    push_str(out, ".self).initialize(to: v) },\n");
    assert(final(out)@ =~= old(out)@ + result_handlers(res@, ok_ty@, err_ty@));
}

fn push_result_variants(out: &mut String, ok_ty: &String, err_ty: &String, ok_desc: &String, err_desc: &String)
    ensures
        final(out)@ == old(out)@ + result_variants(ok_ty@, err_ty@, ok_desc@, err_desc@),
{
    push_str(out, "            variants: [VariantAccess(wireIndex: 0, payloadFields: [FieldAccess(offset: 0, descriptor: ");
    push_str(out, ok_desc.as_str());
    push_str(out, ")], payloadLayout: MemoryLayout<");
    push_str(out, ok_ty.as_str());
    push_str(out, ">.phonLayout), VariantAccess(wireIndex: 1, payloadFields: [FieldAccess(offset: 0, descriptor: ");
    push_str(out, err_desc.as_str());
    push_str(out, ")], payloadLayout: MemoryLayout<");
    push_str(out, err_ty.as_str());
    push_str(out, ">.phonLayout)]))");
    assert(final(out)@ =~= old(out)@ + result_variants(ok_ty@, err_ty@, ok_desc@, err_desc@));
}

fn push_result(out: &mut String, ok_ty: &String, err_ty: &String, ok_desc: &String, err_desc: &String)
    ensures
        final(out)@ == old(out)@ + result_text(ok_ty@, err_ty@, ok_desc@, err_desc@),
{
    let mut res = String::from_str("Result<");
    push_str(&mut res, ok_ty.as_str());
    push_str(&mut res, ", ");
    push_str(&mut res, err_ty.as_str());
    push_str(&mut res, ">");
    push_result_handlers(out, &res, ok_ty, err_ty);
    push_result_variants(out, ok_ty, err_ty, ok_desc, err_desc);
    assert(final(out)@ =~= old(out)@ + result_text(ok_ty@, err_ty@, ok_desc@, err_desc@));
}

/// The full `Descriptor(...)` expression for a type (see [`desc_text`]).
/// Map keys must be strings.
pub fn descriptor_expr(shape: &DescShape) -> (r: String)
    requires
        desc_wf(*shape),
    ensures
        r@ == desc_text(*shape),
{
    desc_string(shape)
}

/// The access path of a type (see [`access_text`]). Map keys must be
/// strings.
pub fn access_expr(shape: &DescShape) -> (r: String)
    requires
        desc_wf(*shape),
    ensures
        r@ == access_text(*shape),
{
    let mut r = String::new();
    push_access(&mut r, shape);
    assert(r@ =~= access_text(*shape));
    r
}

/// A descriptor's access path follows the type's kind: bytes and strings
/// are byte runs told apart by their witness, other scalars are read as
/// scalars, an optional carries the descriptor of its inner type, a
/// sequence of fixed-width scalars is copied in bulk and any other sequence
/// goes element by element with the element's descriptor, and a map names
/// the key's descriptor before the value's.
pub proof fn law_access_follows_kind(s: DescShape)
    ensures
        s.kind is Bytes ==> access_text(s) == ".bytes(BytesAccess(stride: 1, elemAlign: 1, witness: .byteArray))"@,
        s.kind is Text ==> access_text(s) == ".bytes(BytesAccess(stride: 1, elemAlign: 1, witness: .string))"@,
        s.kind is Scalar ==> access_text(s) == ".scalar"@,
        s.kind matches DescKind::Optional(inner) ==> access_text(s) == ".option(OptionAccess(witness: .of("@
            + inner.swift_type@ + ".self), some: "@ + desc_text(*inner) + "))"@,
        s.kind matches DescKind::Sequence(e) ==> access_text(s) == if e.kind matches DescKind::Scalar { fixed }
            && fixed {
            ".bytes(BytesAccess(stride: MemoryLayout<"@ + e.swift_type@ + ">.stride, elemAlign: MemoryLayout<"@
                + e.swift_type@ + ">.alignment, witness: .scalarArray("@ + e.swift_type@ + ".self)))"@
        } else {
            ".sequence(SequenceAccess(element: "@ + desc_text(*e) + ", stride: MemoryLayout<"@ + e.swift_type@
                + ">.stride, elemAlign: MemoryLayout<"@ + e.swift_type@ + ">.alignment, witness: .of("@
                + e.swift_type@ + ".self)))"@
        },
        s.kind matches DescKind::Dictionary { key, value } ==> access_text(s) == ".map(MapAccess(key: "@
            + desc_text(*key) + ", value: "@ + desc_text(*value)
            + ", keyStride: MemoryLayout<String>.stride, keyAlign: MemoryLayout<String>.alignment, valueStride: MemoryLayout<"@
            + value.swift_type@ + ">.stride, valueAlign: MemoryLayout<"@ + value.swift_type@
            + ">.alignment, witness: .stringKeyed("@ + value.swift_type@ + ".self)))"@,
{
}

} // verus!
