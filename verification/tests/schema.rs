use std::collections::HashSet;
use vox_verified::schema::binette_model as bn;
use vox_verified::schema::vox_model as vx;
use vox_verified::schema_deser::{
    argless_schema_ids, binette_bundle_from_vox_schemas, binette_schema_from_vox_schema,
    binette_type_ref_from_vox_type_ref, metadata_field, vox_channel_schema_from_binette_external,
    vox_schema_kind_from_binette_schema_kind, vox_schema_payload_from_binette_schema_bundle,
    vox_type_ref_from_binette_type_ref, SchemaDeserializeError,
};

const U32_ID: u64 = 0x0000_0000_0000_0032;

fn bn_concrete(id: u64) -> bn::TypeRef {
    bn::TypeRef::Concrete { type_id: bn::TypeId(id), args: Vec::new() }
}

fn vx_concrete(id: u64) -> vx::TypeRef {
    vx::TypeRef::Concrete { type_id: vx::SchemaHash(id), args: Vec::new() }
}

fn field(name: &str, value: bn::Value, debug: &str, as_type_ref: Result<bn::TypeRef, String>) -> bn::FieldValue {
    bn::FieldValue { name: name.to_string(), value, debug: debug.to_string(), as_type_ref }
}

fn plan_message(e: SchemaDeserializeError) -> String {
    match e {
        SchemaDeserializeError::Plan(m) => m,
        _ => panic!("expected a plan error"),
    }
}

#[test]
fn binette_external_schema_requires_vox_specific_metadata_before_advertising() {
    let bundle = bn::SchemaBundle {
        schemas: vec![bn::Schema {
            id: bn::TypeId(0xB1_0000_0000_3000),
            type_params: Vec::new(),
            kind: bn::SchemaKind::External { kind: "vox.channel".to_string(), metadata: bn::Value::Other },
        }],
        root: bn_concrete(0xB1_0000_0000_3000),
    };

    let error = match vox_schema_payload_from_binette_schema_bundle(bundle) {
        Err(e) => e,
        Ok(_) => panic!("external attachments need a Vox channel metadata convention"),
    };

    assert!(matches!(error, SchemaDeserializeError::Plan(message) if message.contains("vox.channel")));
}

#[test]
fn binette_external_channel_schema_advertises_as_vox_channel() {
    let channel_id = bn::TypeId(0xB1_0000_0000_3001);
    let element = bn_concrete(U32_ID);
    let bundle = bn::SchemaBundle {
        schemas: vec![bn::Schema {
            id: channel_id,
            type_params: Vec::new(),
            kind: bn::SchemaKind::External {
                kind: "vox.channel".to_string(),
                metadata: bn::Value::Struct(vec![
                    field("direction", bn::Value::String("tx".to_owned()), "String(\"tx\")", Err("not a type ref".to_string())),
                    field("element", bn::Value::Other, "Struct([..])", Ok(element)),
                ]),
            },
        }],
        root: bn_concrete(channel_id.0),
    };

    let payload = match vox_schema_payload_from_binette_schema_bundle(bundle) {
        Ok(p) => p,
        Err(_) => panic!("vox.channel metadata should become a Vox Channel schema"),
    };
    let channel = payload
        .schemas
        .iter()
        .find(|schema| schema.id == vx::SchemaHash(channel_id.0))
        .expect("channel schema should be present");

    let vx::SchemaKind::Channel { direction, element } = &channel.kind else {
        panic!("expected channel schema");
    };
    assert_eq!(*direction, vx::ChannelDirection::Tx);
    assert!(matches!(element, vx::TypeRef::Concrete { type_id, args } if *type_id == vx::SchemaHash(U32_ID) && args.is_empty()));
}

#[test]
fn vox_channel_schema_lowers_to_unit_for_binette_payloads() {
    let channel_id = 0x7700u64;
    let schemas = vec![
        vx::Schema {
            id: vx::SchemaHash(channel_id),
            type_params: vec![vx::TypeParamName("T".to_string())],
            kind: vx::SchemaKind::Channel { direction: vx::ChannelDirection::Tx, element: vx_concrete(U32_ID) },
        },
        vx::Schema {
            id: vx::SchemaHash(U32_ID),
            type_params: Vec::new(),
            kind: vx::SchemaKind::Primitive { primitive_type: vx::PrimitiveType::U32 },
        },
    ];
    let root = vx::TypeRef::Concrete { type_id: vx::SchemaHash(channel_id), args: vec![vx_concrete(U32_ID)] };
    let bundle = binette_bundle_from_vox_schemas(root, schemas);
    let bn::TypeRef::Concrete { type_id, args } = &bundle.root else {
        panic!("expected concrete channel root");
    };
    assert!(args.is_empty());
    let channel = bundle
        .schemas
        .iter()
        .find(|schema| schema.id == *type_id)
        .expect("channel schema should be present");

    assert!(matches!(channel.kind, bn::SchemaKind::Primitive(bn::Primitive::Unit)));
    assert!(channel.type_params.is_empty());
}

#[test]
fn external_kind_errors() {
    let e = vox_channel_schema_from_binette_external("other.kind".to_string(), bn::Value::Other).err().unwrap();
    assert_eq!(plan_message(e), "binette external attachment \"other.kind\" is not a Vox channel");
    let e = vox_channel_schema_from_binette_external("vox.channel".to_string(), bn::Value::String("x".into())).err().unwrap();
    assert_eq!(plan_message(e), "vox.channel external metadata must be a struct");
    let no_element = bn::Value::Struct(vec![field("direction", bn::Value::String("rx".into()), "", Err(String::new()))]);
    let e = vox_channel_schema_from_binette_external("vox.channel".to_string(), no_element).err().unwrap();
    assert_eq!(plan_message(e), "vox.channel external metadata missing \"element\"");
    let twice = bn::Value::Struct(vec![
        field("direction", bn::Value::String("rx".into()), "", Err(String::new())),
        field("direction", bn::Value::String("tx".into()), "", Err(String::new())),
    ]);
    let e = vox_channel_schema_from_binette_external("vox.channel".to_string(), twice).err().unwrap();
    assert_eq!(plan_message(e), "vox.channel external metadata has duplicate \"direction\"");
    let sideways = bn::Value::Struct(vec![
        field("direction", bn::Value::String("up".into()), "", Err(String::new())),
        field("element", bn::Value::Other, "", Ok(bn_concrete(1))),
    ]);
    let e = vox_channel_schema_from_binette_external("vox.channel".to_string(), sideways).err().unwrap();
    assert_eq!(plan_message(e), "vox.channel direction must be \"send\" or \"recv\", got \"up\"");
    let numeric = bn::Value::Struct(vec![
        field("direction", bn::Value::Other, "U32(1)", Err(String::new())),
        field("element", bn::Value::Other, "", Ok(bn_concrete(1))),
    ]);
    let e = vox_channel_schema_from_binette_external("vox.channel".to_string(), numeric).err().unwrap();
    assert_eq!(plan_message(e), "vox.channel direction must be a string, got U32(1)");
    let undecodable = bn::Value::Struct(vec![
        field("direction", bn::Value::String("rx".into()), "", Err(String::new())),
        field("element", bn::Value::Other, "", Err("bad type ref".to_string())),
    ]);
    let e = vox_channel_schema_from_binette_external("vox.channel".to_string(), undecodable).err().unwrap();
    assert_eq!(plan_message(e), "bad type ref");
}

#[test]
fn unsupported_binette_kinds() {
    let e = vox_schema_kind_from_binette_schema_kind(bn::SchemaKind::SetOf { element: bn_concrete(1) }).err().unwrap();
    assert_eq!(plan_message(e), "Vox schema model does not have a set kind");
    let e = vox_schema_kind_from_binette_schema_kind(bn::SchemaKind::Dynamic).err().unwrap();
    assert_eq!(plan_message(e), "Vox schema model does not have a dynamic value kind");
    let e = vox_schema_kind_from_binette_schema_kind(bn::SchemaKind::Array { element: bn_concrete(1), dimensions: vec![2, 3] })
        .err().unwrap();
    assert_eq!(plan_message(e), "Vox schema model only supports one-dimensional arrays");
    match vox_schema_kind_from_binette_schema_kind(bn::SchemaKind::Array { element: bn_concrete(1), dimensions: vec![4] }) {
        Ok(vx::SchemaKind::Array { length, .. }) => assert_eq!(length, 4),
        _ => panic!("expected an array"),
    }
}

#[test]
fn struct_and_enum_kinds_convert_field_by_field() {
    let kind = bn::SchemaKind::Struct {
        name: "Point".to_string(),
        fields: vec![bn::Field { name: "x".to_string(), type_ref: bn::TypeRef::Var { name: "T".to_string() }, required: true }],
    };
    match vox_schema_kind_from_binette_schema_kind(kind) {
        Ok(vx::SchemaKind::Struct { name, fields }) => {
            assert_eq!(name, "Point");
            assert_eq!(fields.len(), 1);
            assert_eq!(fields[0].name, "x");
            assert!(fields[0].required);
            assert!(matches!(&fields[0].type_ref, vx::TypeRef::Var { name } if name.0 == "T"));
        }
        _ => panic!("expected a struct"),
    }
    let kind = bn::SchemaKind::Enum {
        name: "E".to_string(),
        variants: vec![
            bn::Variant { name: "A".to_string(), index: 0, payload: bn::VariantPayload::Unit },
            bn::Variant {
                name: "B".to_string(),
                index: 1,
                payload: bn::VariantPayload::Tuple { elements: vec![bn_concrete(5), bn_concrete(6)] },
            },
        ],
    };
    match vox_schema_kind_from_binette_schema_kind(kind) {
        Ok(vx::SchemaKind::Enum { variants, .. }) => {
            assert_eq!(variants.len(), 2);
            assert!(matches!(variants[0].payload, vx::VariantPayload::Unit));
            assert_eq!(variants[1].index, 1);
            assert!(matches!(&variants[1].payload, vx::VariantPayload::Tuple { types } if types.len() == 2));
        }
        _ => panic!("expected an enum"),
    }
}

#[test]
fn type_refs_round_trip() {
    let argless: HashSet<u64> = [U32_ID].into_iter().collect();
    let v = vx::TypeRef::Concrete {
        type_id: vx::SchemaHash(9),
        args: vec![vx_concrete(U32_ID), vx::TypeRef::Var { name: vx::TypeParamName("K".to_string()) }],
    };
    let b = binette_type_ref_from_vox_type_ref(v, &argless);
    let back = vox_type_ref_from_binette_type_ref(b);
    match back {
        vx::TypeRef::Concrete { type_id, args } => {
            assert_eq!(type_id, vx::SchemaHash(9));
            assert_eq!(args.len(), 2);
            assert!(matches!(&args[0], vx::TypeRef::Concrete { type_id, args } if *type_id == vx::SchemaHash(U32_ID) && args.is_empty()));
            assert!(matches!(&args[1], vx::TypeRef::Var { name } if name.0 == "K"));
        }
        _ => panic!("expected a concrete reference"),
    }
}

#[test]
fn argless_schemas_lose_their_arguments() {
    let schemas = vec![
        vx::Schema { id: vx::SchemaHash(1), type_params: Vec::new(), kind: vx::SchemaKind::Primitive { primitive_type: vx::PrimitiveType::Bool } },
        vx::Schema { id: vx::SchemaHash(2), type_params: Vec::new(), kind: vx::SchemaKind::List { element: vx_concrete(1) } },
    ];
    let ids = argless_schema_ids(&schemas);
    assert!(ids.contains(&1));
    assert!(!ids.contains(&2));
    let b = binette_type_ref_from_vox_type_ref(
        vx::TypeRef::Concrete { type_id: vx::SchemaHash(1), args: vec![vx_concrete(2)] },
        &ids,
    );
    assert!(matches!(b, bn::TypeRef::Concrete { type_id, args } if type_id == bn::TypeId(1) && args.is_empty()));
    let s = binette_schema_from_vox_schema(
        vx::Schema { id: vx::SchemaHash(3), type_params: vec![vx::TypeParamName("T".into())], kind: vx::SchemaKind::Array { element: vx_concrete(1), length: 8 } },
        &ids,
    )
    .ok()
    .unwrap();
    assert_eq!(s.type_params, vec!["T".to_string()]);
    assert!(matches!(s.kind, bn::SchemaKind::Array { dimensions, .. } if dimensions == vec![8]));
}

#[test]
fn metadata_field_lookup() {
    let fields = vec![field("a", bn::Value::Other, "", Err(String::new())), field("b", bn::Value::String("v".into()), "", Err(String::new()))];
    let f = metadata_field(&fields, "b").ok().unwrap();
    assert!(matches!(&f.value, bn::Value::String(s) if s == "v"));
    assert_eq!(plan_message(metadata_field(&fields, "c").err().unwrap()), "vox.channel external metadata missing \"c\"");
}

#[test]
fn whole_schemas_convert() {
    let s = bn::Schema {
        id: bn::TypeId(77),
        type_params: vec!["T".to_string(), "U".to_string()],
        kind: bn::SchemaKind::Primitive(bn::Primitive::F64),
    };
    let v = vox_verified::schema_deser::vox_schema_from_binette_schema(s).ok().unwrap();
    assert_eq!(v.id, vx::SchemaHash(77));
    assert_eq!(v.type_params.iter().map(|p| p.0.clone()).collect::<Vec<_>>(), vec!["T", "U"]);
    assert!(matches!(v.kind, vx::SchemaKind::Primitive { primitive_type: vx::PrimitiveType::F64 }));
    let k = vox_verified::schema_deser::binette_schema_kind_from_vox_schema_kind(
        vx::SchemaKind::Channel { direction: vx::ChannelDirection::Rx, element: vx_concrete(1) },
        &HashSet::new(),
    )
    .ok()
    .unwrap();
    assert!(matches!(k, bn::SchemaKind::Primitive(bn::Primitive::Unit)));
    let p = vox_verified::schema_deser::binette_variant_payload_from_vox_variant_payload(
        vx::VariantPayload::Newtype { type_ref: vx_concrete(3) },
        &HashSet::new(),
    );
    assert!(matches!(p, bn::VariantPayload::Newtype { type_ref: bn::TypeRef::Concrete { type_id: bn::TypeId(3), .. } }));
    let q = vox_verified::schema_deser::vox_variant_payload_from_binette_variant_payload(bn::VariantPayload::Struct {
        fields: vec![bn::Field { name: "f".into(), type_ref: bn_concrete(4), required: false }],
    });
    assert!(matches!(q, vx::VariantPayload::Struct { fields } if fields.len() == 1 && !fields[0].required));
}

#[test]
fn struct_kind_round_trips_through_binette() {
    let argless: HashSet<u64> = HashSet::new();
    let kind = vx::SchemaKind::Struct {
        name: "Pair".to_string(),
        fields: vec![
            vx::FieldSchema { name: "a".to_string(), type_ref: vx_concrete(1), required: true },
            vx::FieldSchema { name: "b".to_string(), type_ref: vx::TypeRef::Var { name: vx::TypeParamName("T".into()) }, required: false },
        ],
    };
    let b = vox_verified::schema_deser::binette_schema_kind_from_vox_schema_kind(kind, &argless).ok().unwrap();
    match vox_schema_kind_from_binette_schema_kind(b) {
        Ok(vx::SchemaKind::Struct { name, fields }) => {
            assert_eq!(name, "Pair");
            assert_eq!(fields.len(), 2);
            assert_eq!(fields[0].name, "a");
            assert!(fields[0].required);
            assert!(matches!(&fields[0].type_ref, vx::TypeRef::Concrete { type_id, args } if *type_id == vx::SchemaHash(1) && args.is_empty()));
            assert!(!fields[1].required);
            assert!(matches!(&fields[1].type_ref, vx::TypeRef::Var { name } if name.0 == "T"));
        }
        _ => panic!("expected the struct back"),
    }
}

fn channel_with_direction(direction: &str) -> Result<vx::SchemaKind, SchemaDeserializeError> {
    let metadata = bn::Value::Struct(vec![
        field("direction", bn::Value::String(direction.into()), "", Err(String::new())),
        field("element", bn::Value::Other, "", Ok(bn_concrete(U32_ID))),
    ]);
    vox_channel_schema_from_binette_external("vox.channel".to_string(), metadata)
}

#[test]
fn channel_directions_use_protocol_names() {
    for (name, expected) in [
        ("send", vx::ChannelDirection::Tx),
        ("recv", vx::ChannelDirection::Rx),
        ("tx", vx::ChannelDirection::Tx),
        ("rx", vx::ChannelDirection::Rx),
    ] {
        match channel_with_direction(name) {
            Ok(vx::SchemaKind::Channel { direction, element }) => {
                assert_eq!(direction, expected);
                assert!(matches!(element, vx::TypeRef::Concrete { type_id: vx::SchemaHash(U32_ID), ref args } if args.is_empty()));
            }
            _ => panic!("expected a channel for {name}"),
        }
    }
    let e = channel_with_direction("Send").err().unwrap();
    assert_eq!(plan_message(e), "vox.channel direction must be \"send\" or \"recv\", got \"Send\"");
}
