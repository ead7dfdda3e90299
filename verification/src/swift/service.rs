//! Per-service schema emission for the Swift runtime: the wire error types,
//! a `Descriptor` per method's argument tuple and response wire type, the
//! `{service}Methods` table of roots, schema closures and channel metadata,
//! the merged `{service}Registry`, and the per-method lowered programs.

use super::{join, join_strings, push_str, ArgDescriptor, MethodDescriptor, ServiceDescriptor};
use crate::text::{
    bool_text, decimal, hex_u64_text, lower_camel_case, push_bool, push_decimal, push_hex_u64,
    to_lower_camel,
};
use vstd::prelude::*;

verus! {

/// The wire error type `VoxError<E>` and the empty `Infallible`.
pub open spec fn wire_error_types_text() -> Seq<char> {
    "// MARK: - wire error type\n\n"@ + "public enum Infallible: Sendable {}\n\n"@
        + "/// The wire error of `Result<T, VoxError<E>>`. Variant order matches the\n"@
        + "/// Rust `VoxError<E>` (User=0 \u{2026} Indeterminate=7) so wire indices align.\n"@
        + "public enum VoxError<E: Sendable>: Error, Sendable {\n"@ + "    case user(E)\n"@
        + "    case unknownMethod\n"@ + "    case invalidPayload(String)\n"@ + "    case cancelled\n"@
        + "    case connectionClosed\n"@ + "    case sessionShutdown\n"@ + "    case sendFailed\n"@
        + "    case indeterminate\n"@ + "}\n\n"@
}

/// Generates the Swift wire error types (see [`wire_error_types_text`]).
pub fn generate_wire_error_types() -> (out: String)
    ensures
        out@ == wire_error_types_text(),
{
    let mut out = String::new();
    push_str(&mut out, "// MARK: - wire error type\n\n");
    push_str(&mut out, "public enum Infallible: Sendable {}\n\n");
    push_str(&mut out, "/// The wire error of `Result<T, VoxError<E>>`. Variant order matches the\n");
    push_str(&mut out, "/// Rust `VoxError<E>` (User=0 \u{2026} Indeterminate=7) so wire indices align.\n");
    push_str(&mut out, "public enum VoxError<E: Sendable>: Error, Sendable {\n");
    push_str(&mut out, "    case user(E)\n");
    push_str(&mut out, "    case unknownMethod\n");
    push_str(&mut out, "    case invalidPayload(String)\n");
    push_str(&mut out, "    case cancelled\n");
    push_str(&mut out, "    case connectionClosed\n");
    push_str(&mut out, "    case sessionShutdown\n");
    push_str(&mut out, "    case sendFailed\n");
    push_str(&mut out, "    case indeterminate\n");
    push_str(&mut out, "}\n\n");
    assert(out@ =~= wire_error_types_text());
    out
}

/// A schema closure as the body of a Swift `[UInt8]` literal: the bytes in
/// decimal, separated by `, `.
pub open spec fn closure_text(bytes: Seq<u8>) -> Seq<char> {
    join(bytes.map_values(|b: u8| decimal(b as nat)), ", "@)
}

fn closure_bytes(bytes: &Vec<u8>) -> (r: String)
    ensures
        r@ == closure_text(bytes@),
{
    let mut items: Vec<String> = Vec::new();
    let mut i: usize = 0;
    while i < bytes.len()
        invariant
            i <= bytes.len(),
            items@.map_values(|s: String| s@) == bytes@.take(i as int).map_values(|b: u8| decimal(b as nat)),
        decreases bytes.len() - i,
    {
        let mut t = String::new();
        push_decimal(&mut t, bytes[i] as u64);
        let ghost before = items@.map_values(|s: String| s@);
        items.push(t);
        assert(items@.map_values(|s: String| s@) =~= before.push(decimal(bytes@[i as int] as nat)));
        assert(bytes@.take(i + 1) =~= bytes@.take(i as int).push(bytes@[i as int]));
        assert(bytes@.take(i + 1).map_values(|b: u8| decimal(b as nat))
            =~= bytes@.take(i as int).map_values(|b: u8| decimal(b as nat)).push(decimal(bytes@[i as int] as nat)));
        i += 1;
    }
    assert(bytes@.take(i as int) =~= bytes@);
    join_strings(&items, ", ")
}

/// The channel metadata entry of the argument at position `i`.
pub open spec fn channel_meta_text(i: int, is_tx: bool, element_root: u64) -> Seq<char> {
    "PhonChannelMeta(index: "@ + decimal(i as nat) + ", isTx: "@ + bool_text(is_tx)
        + ", elementRoot: SchemaId("@ + hex_u64_text(element_root) + "))"@
}

/// The channel metadata entries of the first `n` arguments, in order.
pub open spec fn channel_metas(args: Seq<ArgDescriptor>, n: int) -> Seq<Seq<char>>
    decreases n,
{
    if n <= 0 {
        Seq::empty()
    } else {
        let rest = channel_metas(args, n - 1);
        match args[n - 1].channel {
            Some(c) => rest.push(channel_meta_text(n - 1, c.is_tx, c.element_root)),
            None => rest,
        }
    }
}

/// The descriptor globals of one method.
pub open spec fn descriptor_globals(name: Seq<char>, m: MethodDescriptor) -> Seq<char> {
    let mname = lower_camel_case(m.method_name@);
    "nonisolated(unsafe) let "@ + name + "_"@ + mname + "_ArgsDescriptor: Descriptor = "@ + m.args_descriptor@
        + "\n"@ + "nonisolated(unsafe) let "@ + name + "_"@ + mname
        + "_ResponseDescriptor: Descriptor = "@ + m.response_descriptor@ + "\n"@
}

/// The descriptor globals, in method order.
pub open spec fn all_descriptor_globals(name: Seq<char>, ms: Seq<MethodDescriptor>) -> Seq<char>
    decreases ms.len(),
{
    if ms.len() == 0 {
        Seq::empty()
    } else {
        all_descriptor_globals(name, ms.drop_last()) + descriptor_globals(name, ms.last())
    }
}

/// One entry of the methods table.
pub open spec fn method_entry(name: Seq<char>, m: MethodDescriptor) -> Seq<char> {
    let mname = lower_camel_case(m.method_name@);
    "    "@ + hex_u64_text(m.method_id) + ": PhonMethodSchemas(\n"@ + "        argsRoot: SchemaId("@
        + hex_u64_text(m.args_root) + "),\n"@ + "        argsSchemaClosure: ["@ + closure_text(
        m.args_schema_closure@,
    ) + "],\n"@ + "        argsDescriptor: "@ + name + "_"@ + mname + "_ArgsDescriptor,\n"@
        + "        okRoot: SchemaId("@ + hex_u64_text(m.ok_root) + "),\n"@ + "        responseRoot: SchemaId("@
        + hex_u64_text(m.response_root) + "),\n"@ + "        responseSchemaClosure: ["@ + closure_text(
        m.response_schema_closure@,
    ) + "],\n"@ + "        responseDescriptor: "@ + name + "_"@ + mname + "_ResponseDescriptor,\n"@
        + "        channels: ["@ + join(channel_metas(m.args@, m.args@.len() as int), ", "@) + "]),\n"@
}

/// The methods table entries, in method order.
pub open spec fn method_entries(name: Seq<char>, ms: Seq<MethodDescriptor>) -> Seq<char>
    decreases ms.len(),
{
    if ms.len() == 0 {
        Seq::empty()
    } else {
        method_entries(name, ms.drop_last()) + method_entry(name, ms.last())
    }
}

/// One lowered-program global.
pub open spec fn program_line(name: Seq<char>, mname: Seq<char>, suffix: Seq<char>, lower: Seq<char>, desc: Seq<char>) -> Seq<char> {
    "nonisolated(unsafe) let "@ + name + "_"@ + mname + "_"@ + suffix + ": MemProgram = try! "@ + lower
        + "("@ + name + "_"@ + mname + desc + ", "@ + name + "Registry)\n"@
}

/// The four lowered programs of one method: the arguments' encoder and
/// decoder, the response's encoder and decoder.
pub open spec fn program_globals(name: Seq<char>, m: MethodDescriptor) -> Seq<char> {
    let mname = lower_camel_case(m.method_name@);
    program_line(name, mname, "ArgsEncodeProgram"@, "lowerTyped"@, "_ArgsDescriptor"@) + program_line(
        name,
        mname,
        "ArgsDecodeProgram"@,
        "lowerDecode"@,
        "_ArgsDescriptor"@,
    ) + program_line(name, mname, "ResponseEncodeProgram"@, "lowerTyped"@, "_ResponseDescriptor"@)
        + program_line(name, mname, "ResponseDecodeProgram"@, "lowerDecode"@, "_ResponseDescriptor"@)
}

/// The lowered programs, in method order.
pub open spec fn all_program_globals(name: Seq<char>, ms: Seq<MethodDescriptor>) -> Seq<char>
    decreases ms.len(),
{
    if ms.len() == 0 {
        Seq::empty()
    } else {
        all_program_globals(name, ms.drop_last()) + program_globals(name, ms.last())
    }
}

/// The whole schema source of a service.
pub open spec fn service_text(s: ServiceDescriptor) -> Seq<char> {
    let name = lower_camel_case(s.service_name@);
    let ms = s.methods@;
    wire_error_types_text()
        + "// MARK: - phon service schemas (registry + per-method roots/descriptors/channels)\n\n"@
        + all_descriptor_globals(name, ms) + "\n"@ + "public let "@ + name
        + "Methods: [UInt64: PhonMethodSchemas] = [\n"@ + method_entries(name, ms) + "]\n\n"@
        + "nonisolated(unsafe) public let "@ + name + "Registry: Registry = buildServiceRegistry("@ + name
        + "Methods)\n\n"@ + "// MARK: - per-method lowered programs\n\n"@ + all_program_globals(name, ms)
        + "\n"@
}

fn channel_metas_exec(args: &Vec<ArgDescriptor>) -> (r: String)
    ensures
        r@ == join(channel_metas(args@, args@.len() as int), ", "@),
{
    let mut items: Vec<String> = Vec::new();
    let mut i: usize = 0;
    while i < args.len()
        invariant
            i <= args.len(),
            items@.map_values(|s: String| s@) == channel_metas(args@, i as int),
        decreases args.len() - i,
    {
        let ghost before = items@.map_values(|s: String| s@);
        match &args[i].channel {
            Some(c) => {
                let mut t = String::from_str("PhonChannelMeta(index: ");
                push_decimal(&mut t, i as u64);
                push_str(&mut t, ", isTx: ");
                push_bool(&mut t, c.is_tx);
                push_str(&mut t, ", elementRoot: SchemaId(");
                push_hex_u64(&mut t, c.element_root);
                push_str(&mut t, "))");
                assert(t@ =~= channel_meta_text(i as int, c.is_tx, c.element_root));
                items.push(t);
                assert(items@.map_values(|s: String| s@) =~= before.push(channel_meta_text(i as int, c.is_tx, c.element_root)));
            },
            None => {},
        }
        i += 1;
    }
    assert(items@.map_values(|s: String| s@) == channel_metas(args@, args@.len() as int));
    join_strings(&items, ", ")
}

/// The first half of a methods table entry: id, argument root, closure and
/// descriptor.
pub open spec fn method_entry_head(name: Seq<char>, m: MethodDescriptor) -> Seq<char> {
    let mname = lower_camel_case(m.method_name@);
    "    "@ + hex_u64_text(m.method_id) + ": PhonMethodSchemas(\n"@ + "        argsRoot: SchemaId("@
        + hex_u64_text(m.args_root) + "),\n"@ + "        argsSchemaClosure: ["@ + closure_text(
        m.args_schema_closure@,
    ) + "],\n"@ + "        argsDescriptor: "@ + name + "_"@ + mname + "_ArgsDescriptor,\n"@
}

/// The second half of a methods table entry: ok and response roots, response
/// closure and descriptor, channels.
pub open spec fn method_entry_tail(name: Seq<char>, m: MethodDescriptor) -> Seq<char> {
    let mname = lower_camel_case(m.method_name@);
    "        okRoot: SchemaId("@ + hex_u64_text(m.ok_root) + "),\n"@ + "        responseRoot: SchemaId("@
        + hex_u64_text(m.response_root) + "),\n"@ + "        responseSchemaClosure: ["@ + closure_text(
        m.response_schema_closure@,
    ) + "],\n"@ + "        responseDescriptor: "@ + name + "_"@ + mname + "_ResponseDescriptor,\n"@
        + "        channels: ["@ + join(channel_metas(m.args@, m.args@.len() as int), ", "@) + "]),\n"@
}

fn push_method_entry_head(out: &mut String, name: &String, mname: &String, m: &MethodDescriptor)
    requires
        mname@ == lower_camel_case(m.method_name@),
    ensures
        final(out)@ == old(out)@ + method_entry_head(name@, *m),
{
    push_str(out, "    ");
    push_hex_u64(out, m.method_id);
    push_str(out, ": PhonMethodSchemas(\n");
    push_str(out, "        argsRoot: SchemaId(");
    push_hex_u64(out, m.args_root);
    push_str(out, "),\n");
    push_str(out, "        argsSchemaClosure: [");
    push_str(out, closure_bytes(&m.args_schema_closure).as_str());
    push_str(out, "],\n");
    push_str(out, "        argsDescriptor: ");
    push_str(out, name.as_str());
    push_str(out, "_");
    push_str(out, mname.as_str());
    push_str(out, "_ArgsDescriptor,\n");
    assert(final(out)@ =~= old(out)@ + method_entry_head(name@, *m));
}

fn push_method_entry_tail(out: &mut String, name: &String, mname: &String, m: &MethodDescriptor)
    requires
        mname@ == lower_camel_case(m.method_name@),
    ensures
        final(out)@ == old(out)@ + method_entry_tail(name@, *m),
{
    push_str(out, "        okRoot: SchemaId(");
    push_hex_u64(out, m.ok_root);
    push_str(out, "),\n");
    push_str(out, "        responseRoot: SchemaId(");
    push_hex_u64(out, m.response_root);
    push_str(out, "),\n");
    push_str(out, "        responseSchemaClosure: [");
    push_str(out, closure_bytes(&m.response_schema_closure).as_str());
    push_str(out, "],\n");
    push_str(out, "        responseDescriptor: ");
    push_str(out, name.as_str());
    push_str(out, "_");
    push_str(out, mname.as_str());
    push_str(out, "_ResponseDescriptor,\n");
    push_str(out, "        channels: [");
    push_str(out, channel_metas_exec(&m.args).as_str());
    push_str(out, "]),\n");
    assert(final(out)@ =~= old(out)@ + method_entry_tail(name@, *m));
}

fn push_method_entry(out: &mut String, name: &String, m: &MethodDescriptor)
    ensures
        final(out)@ == old(out)@ + method_entry(name@, *m),
{
    let mname = to_lower_camel(m.method_name.as_str());
    push_method_entry_head(out, name, &mname, m);
    push_method_entry_tail(out, name, &mname, m);
    assert(method_entry(name@, *m) =~= method_entry_head(name@, *m) + method_entry_tail(name@, *m));
    assert(final(out)@ =~= old(out)@ + method_entry(name@, *m));
}

fn push_descriptor_globals(out: &mut String, name: &String, m: &MethodDescriptor)
    ensures
        final(out)@ == old(out)@ + descriptor_globals(name@, *m),
{
    let mname = to_lower_camel(m.method_name.as_str());
    push_str(out, "nonisolated(unsafe) let ");
    push_str(out, name.as_str());
    push_str(out, "_");
    push_str(out, mname.as_str());
    push_str(out, "_ArgsDescriptor: Descriptor = ");
    push_str(out, m.args_descriptor.as_str());
    push_str(out, "\n");
    push_str(out, "nonisolated(unsafe) let ");
    push_str(out, name.as_str());
    push_str(out, "_");
    push_str(out, mname.as_str());
    push_str(out, "_ResponseDescriptor: Descriptor = ");
    push_str(out, m.response_descriptor.as_str());
    push_str(out, "\n");
    assert(final(out)@ =~= old(out)@ + descriptor_globals(name@, *m));
}

fn push_program_globals(out: &mut String, name: &String, m: &MethodDescriptor)
    ensures
        final(out)@ == old(out)@ + program_globals(name@, *m),
{
    let mname = to_lower_camel(m.method_name.as_str());
    push_program_line(out, name, &mname, "ArgsEncodeProgram", "lowerTyped", "_ArgsDescriptor");
    push_program_line(out, name, &mname, "ArgsDecodeProgram", "lowerDecode", "_ArgsDescriptor");
    push_program_line(out, name, &mname, "ResponseEncodeProgram", "lowerTyped", "_ResponseDescriptor");
    push_program_line(out, name, &mname, "ResponseDecodeProgram", "lowerDecode", "_ResponseDescriptor");
    assert(final(out)@ =~= old(out)@ + program_globals(name@, *m));
}

fn push_program_line(out: &mut String, name: &String, mname: &String, suffix: &str, lower: &str, desc: &str)
    ensures
        final(out)@ == old(out)@ + program_line(name@, mname@, suffix@, lower@, desc@),
{
    push_str(out, "nonisolated(unsafe) let ");
    push_str(out, name.as_str());
    push_str(out, "_");
    push_str(out, mname.as_str());
    push_str(out, "_");
    push_str(out, suffix);
    push_str(out, ": MemProgram = try! ");
    push_str(out, lower);
    push_str(out, "(");
    push_str(out, name.as_str());
    push_str(out, "_");
    push_str(out, mname.as_str());
    push_str(out, desc);
    push_str(out, ", ");
    push_str(out, name.as_str());
    push_str(out, "Registry)\n");
    assert(final(out)@ =~= old(out)@ + program_line(name@, mname@, suffix@, lower@, desc@));
}

/// Generates the Swift schema source of a service (see [`service_text`]).
pub fn generate_phon_service(service: &ServiceDescriptor) -> (out: String)
    ensures
        out@ == service_text(*service),
{
    let name = to_lower_camel(service.service_name.as_str());
    let ms = &service.methods;
    let mut out = generate_wire_error_types();
    push_str(&mut out, "// MARK: - phon service schemas (registry + per-method roots/descriptors/channels)\n\n");
    let ghost h0 = out@;
    let mut i: usize = 0;
    while i < ms.len()
        invariant
            i <= ms.len(),
            name@ == lower_camel_case(service.service_name@),
            out@ == h0 + all_descriptor_globals(name@, ms@.take(i as int)),
        decreases ms.len() - i,
    {
        let m = &ms[i];
        let ghost before = out@;
        push_descriptor_globals(&mut out, &name, m);
        proof {
            assert(ms@.take(i + 1).drop_last() =~= ms@.take(i as int));
            assert(ms@.take(i + 1).last() == *m);
            assert(out@ =~= h0 + all_descriptor_globals(name@, ms@.take(i + 1)));
        }
        i += 1;
    }
    assert(ms@.take(i as int) =~= ms@);
    push_str(&mut out, "\n");
    push_str(&mut out, "public let ");
    push_str(&mut out, name.as_str());
    push_str(&mut out, "Methods: [UInt64: PhonMethodSchemas] = [\n");
    let ghost h1 = out@;
    let mut j: usize = 0;
    while j < ms.len()
        invariant
            j <= ms.len(),
            out@ == h1 + method_entries(name@, ms@.take(j as int)),
        decreases ms.len() - j,
    {
        let ghost before = out@;
        push_method_entry(&mut out, &name, &ms[j]);
        proof {
            assert(ms@.take(j + 1).drop_last() =~= ms@.take(j as int));
            assert(ms@.take(j + 1).last() == ms@[j as int]);
            assert(out@ =~= h1 + method_entries(name@, ms@.take(j + 1)));
        }
        j += 1;
    }
    assert(ms@.take(j as int) =~= ms@);
    push_str(&mut out, "]\n\n");
    push_str(&mut out, "nonisolated(unsafe) public let ");
    push_str(&mut out, name.as_str());
    push_str(&mut out, "Registry: Registry = buildServiceRegistry(");
    push_str(&mut out, name.as_str());
    push_str(&mut out, "Methods)\n\n");
    push_str(&mut out, "// MARK: - per-method lowered programs\n\n");
    let ghost h2 = out@;
    let mut k: usize = 0;
    while k < ms.len()
        invariant
            k <= ms.len(),
            out@ == h2 + all_program_globals(name@, ms@.take(k as int)),
        decreases ms.len() - k,
    {
        let m = &ms[k];
        let ghost before = out@;
        push_program_globals(&mut out, &name, m);
        proof {
            assert(ms@.take(k + 1).drop_last() =~= ms@.take(k as int));
            assert(ms@.take(k + 1).last() == *m);
            assert(out@ =~= h2 + all_program_globals(name@, ms@.take(k + 1)));
        }
        k += 1;
    }
    assert(ms@.take(k as int) =~= ms@);
    push_str(&mut out, "\n");
    assert(out@ =~= service_text(*service));
    out
}

/// The text before a channel entry's `isTx` flag.
pub open spec fn channel_meta_head(i: int) -> Seq<char> {
    "PhonChannelMeta(index: "@ + decimal(i as nat) + ", isTx: "@
}

/// A channel metadata entry tells a sending channel from a receiving one:
/// right after `isTx: ` it reads `true` for a sending channel and `false`
/// for a receiving one.
pub proof fn law_channel_meta_names_its_direction(i: int, element_root: u64)
    requires
        0 <= i,
    ensures
        ({
            let h = channel_meta_head(i).len() as int;
            &&& channel_meta_text(i, true, element_root).subrange(h, h + 4) == seq!['t', 'r', 'u', 'e']
            &&& channel_meta_text(i, false, element_root).subrange(h, h + 5) == seq!['f', 'a', 'l', 's', 'e']
        }),
{
    let h = channel_meta_head(i).len() as int;
    let tail = ", elementRoot: SchemaId("@ + hex_u64_text(element_root) + "))"@;
    assert(channel_meta_text(i, true, element_root) =~= channel_meta_head(i) + bool_text(true) + tail);
    assert(channel_meta_text(i, false, element_root) =~= channel_meta_head(i) + bool_text(false) + tail);
    assert(channel_meta_text(i, true, element_root).subrange(h, h + 4) =~= seq!['t', 'r', 'u', 'e']);
    assert(channel_meta_text(i, false, element_root).subrange(h, h + 5) =~= seq!['f', 'a', 'l', 's', 'e']);
}

} // verus!
