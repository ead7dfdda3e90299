use vox_verified::swift::descriptor::{access_expr, descriptor_expr, DescField, DescKind, DescShape, DescVariant};

fn shape(ty: &str, id: u64, kind: DescKind) -> DescShape {
    DescShape { swift_type: ty.to_string(), schema_id: id, kind }
}

fn u32_shape() -> DescShape {
    shape("UInt32", 0x20, DescKind::Scalar { fixed: true })
}

fn string_shape() -> DescShape {
    shape("String", 0x21, DescKind::Text)
}

#[test]
fn scalar_and_string() {
    assert_eq!(access_expr(&u32_shape()), ".scalar");
    assert!(access_expr(&string_shape()).contains("witness: .string"));
}

#[test]
fn envelope_descriptor_emits() {
    // An envelope-like enum: a unit variant and a newtype variant carrying a record.
    let record = shape(
        "Hello",
        0x31,
        DescKind::Record {
            name: "Hello".to_string(),
            fields: vec![DescField { name: "version".to_string(), shape: u32_shape() }],
        },
    );
    let envelope = shape(
        "MessagePayload",
        0x30,
        DescKind::Enumeration {
            variants: vec![
                DescVariant { case_name: "ping".to_string(), payload: None },
                DescVariant { case_name: "hello".to_string(), payload: Some(record) },
            ],
        },
    );
    let expr = descriptor_expr(&envelope);
    assert!(expr.contains("Descriptor("), "got: {expr}");
    assert!(expr.contains(".enumeration"), "envelope should be an enum at the root payload");
}

#[test]
fn scalar_descriptor_in_full() {
    assert_eq!(
        descriptor_expr(&u32_shape()),
        "Descriptor(schema: .concrete(SchemaId(0x0000000000000020)), layout: Layout(size: MemoryLayout<UInt32>.size, align: MemoryLayout<UInt32>.alignment), access: .scalar)"
    );
}

#[test]
fn sequences_of_fixed_scalars_are_bulk() {
    let list = shape("[UInt32]", 0x40, DescKind::Sequence(Box::new(u32_shape())));
    assert_eq!(
        access_expr(&list),
        ".bytes(BytesAccess(stride: MemoryLayout<UInt32>.stride, elemAlign: MemoryLayout<UInt32>.alignment, witness: .scalarArray(UInt32.self)))"
    );
    let strings = shape("[String]", 0x41, DescKind::Sequence(Box::new(string_shape())));
    let inner = descriptor_expr(&string_shape());
    assert_eq!(
        access_expr(&strings),
        format!(".sequence(SequenceAccess(element: {inner}, stride: MemoryLayout<String>.stride, elemAlign: MemoryLayout<String>.alignment, witness: .of(String.self)))")
    );
}

#[test]
fn records_and_options() {
    let point = shape(
        "Point",
        0x50,
        DescKind::Record {
            name: "Point".to_string(),
            fields: vec![
                DescField { name: "x".to_string(), shape: u32_shape() },
                DescField { name: "y".to_string(), shape: u32_shape() },
            ],
        },
    );
    let d = descriptor_expr(&u32_shape());
    assert_eq!(
        access_expr(&point),
        format!(".record(RecordAccess(fields: [FieldAccess(offset: MemoryLayout<Point>.offset(of: \\Point.x)!, descriptor: {d}), FieldAccess(offset: MemoryLayout<Point>.offset(of: \\Point.y)!, descriptor: {d})], construct: .inPlace))")
    );
    let opt = shape("String?", 0x51, DescKind::Optional(Box::new(string_shape())));
    let s = descriptor_expr(&string_shape());
    assert_eq!(access_expr(&opt), format!(".option(OptionAccess(witness: .of(String.self), some: {s}))"));
}

#[test]
fn maps_and_results() {
    let map = shape(
        "[String: UInt32]",
        0x60,
        DescKind::Dictionary { key: Box::new(string_shape()), value: Box::new(u32_shape()) },
    );
    let k = descriptor_expr(&string_shape());
    let v = descriptor_expr(&u32_shape());
    assert_eq!(
        access_expr(&map),
        format!(".map(MapAccess(key: {k}, value: {v}, keyStride: MemoryLayout<String>.stride, keyAlign: MemoryLayout<String>.alignment, valueStride: MemoryLayout<UInt32>.stride, valueAlign: MemoryLayout<UInt32>.alignment, witness: .stringKeyed(UInt32.self)))")
    );
    let result = shape(
        "Result<UInt32, String>",
        0x61,
        DescKind::Outcome { ok: Box::new(u32_shape()), err: Box::new(string_shape()) },
    );
    let r = access_expr(&result);
    assert!(r.starts_with(".enumeration(EnumAccess(\n            tag: { ptr in switch ptr.assumingMemoryBound(to: Result<UInt32, String>.self).pointee { case .success: return 0; case .failure: return 1 } },"));
    assert!(r.ends_with(&format!("variants: [VariantAccess(wireIndex: 0, payloadFields: [FieldAccess(offset: 0, descriptor: {v})], payloadLayout: MemoryLayout<UInt32>.phonLayout), VariantAccess(wireIndex: 1, payloadFields: [FieldAccess(offset: 0, descriptor: {k})], payloadLayout: MemoryLayout<String>.phonLayout)]))")));
}

#[test]
fn enum_cases() {
    let e = shape(
        "Shape",
        0x70,
        DescKind::Enumeration {
            variants: vec![
                DescVariant { case_name: "empty".to_string(), payload: None },
                DescVariant { case_name: "circle".to_string(), payload: Some(u32_shape()) },
            ],
        },
    );
    let d = descriptor_expr(&u32_shape());
    let expected = [
        ".enumeration(EnumAccess(\n",
        "            tag: { ptr in switch ptr.assumingMemoryBound(to: Shape.self).pointee {\n",
        "            case .empty: return 0\n            case .circle: return 1\n            } },\n",
        "            projectPayload: { value, _, scratch in switch value.assumingMemoryBound(to: Shape.self).pointee {\n",
        "            case .empty: break\n            case .circle(let f0): scratch.assumingMemoryBound(to: UInt32.self).initialize(to: f0)\n            } },\n",
        "            destroyPayload: { scratch, localIndex in switch localIndex {\n",
        "            case 1: scratch.assumingMemoryBound(to: UInt32.self).deinitialize(count: 1)\n            default: break\n            } },\n",
        "            inject: { slot, localIndex, scratch in\n",
        "            let v: Shape\n",
        "            switch localIndex {\n",
        "            case 0: v = .empty\n            case 1: v = .circle(scratch.assumingMemoryBound(to: UInt32.self).move())\n            default: fatalError(\"bad variant index\")\n",
        "            }\n",
        "            slot.assumingMemoryBound(to: Shape.self).initialize(to: v) },\n",
        "            variants: [VariantAccess(wireIndex: 0, payloadFields: [], payloadLayout: Layout(size: 0, align: 1)), ",
    ]
    .concat()
        + &format!("VariantAccess(wireIndex: 1, payloadFields: [FieldAccess(offset: 0, descriptor: {d})], payloadLayout: MemoryLayout<UInt32>.phonLayout)]))");
    assert_eq!(access_expr(&e), expected);
}

#[test]
fn bytes_and_opaque_payloads() {
    let b = shape("[UInt8]", 0x80, DescKind::Bytes);
    assert_eq!(access_expr(&b), ".bytes(BytesAccess(stride: 1, elemAlign: 1, witness: .byteArray))");
}
