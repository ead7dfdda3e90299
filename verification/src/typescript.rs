//! The TypeScript runtime's per-service schema table: the service's schema
//! registry (rendered by the schema crate and handed in) and, per method, its
//! id, argument root, argument schema closure in hex, success root and
//! channel metadata.

use crate::swift::{join, join_strings, push_str, ArgDescriptor, MethodDescriptor, ServiceDescriptor};
use crate::text::{
    decimal, hex_byte_text, hex_u64_text, lower_camel_case, push_decimal, push_hex_byte, push_hex_u64,
    to_lower_camel,
};
use vstd::prelude::*;

verus! {

/// Bytes as lowercase hexadecimal, two digits each.
pub open spec fn hex_bytes(bs: Seq<u8>) -> Seq<char>
    decreases bs.len(),
{
    if bs.len() == 0 {
        Seq::empty()
    } else {
        hex_bytes(bs.drop_last()) + hex_byte_text(bs.last())
    }
}

/// The channel entry of the argument at position `i`.
pub open spec fn ts_channel_entry(i: int, is_tx: bool, element_root: u64) -> Seq<char> {
    "{ index: "@ + decimal(i as nat) + ", direction: \""@ + (if is_tx {
        "tx"@
    } else {
        "rx"@
    }) + "\", elementRoot: "@ + hex_u64_text(element_root) + "n }"@
}

/// The channel entries of the first `n` arguments, in order.
pub open spec fn ts_channel_entries(args: Seq<ArgDescriptor>, n: int) -> Seq<Seq<char>>
    decreases n,
{
    if n <= 0 {
        Seq::empty()
    } else {
        let rest = ts_channel_entries(args, n - 1);
        match args[n - 1].channel {
            Some(c) => rest.push(ts_channel_entry(n - 1, c.is_tx, c.element_root)),
            None => rest,
        }
    }
}

/// A method's entry in the methods table.
pub open spec fn ts_method_entry(m: MethodDescriptor) -> Seq<char> {
    "  \""@ + hex_u64_text(m.method_id) + "\": {\n"@ + "    argsRoot: "@ + hex_u64_text(m.args_root) + "n,\n"@
        + "    argsSchemaClosure: \""@ + hex_bytes(m.args_schema_closure@) + "\",\n"@ + "    okRoot: "@
        + hex_u64_text(m.ok_root) + "n,\n"@ + "    channels: ["@ + join(
        ts_channel_entries(m.args@, m.args@.len() as int),
        ", "@,
    ) + "],\n"@ + "  },\n"@
}

/// The methods table entries, in method order.
pub open spec fn ts_method_entries(ms: Seq<MethodDescriptor>) -> Seq<char>
    decreases ms.len(),
{
    if ms.len() == 0 {
        Seq::empty()
    } else {
        ts_method_entries(ms.drop_last()) + ts_method_entry(ms.last())
    }
}

/// The generated TypeScript module: a header with the imports, the rendered
/// registry, and the `{service}Methods` table.
pub open spec fn ts_service_text(s: ServiceDescriptor, registry: Seq<char>) -> Seq<char> {
    let name = lower_camel_case(s.service_name@);
    "// phon schemas for this service (registry + per-method roots + channel metadata).\n"@
        + "import { Registry, schemaFromBytes, hexToBytes } from \"@bearcove/phon-schema\";\n"@
        + "import type { Primitive } from \"@bearcove/phon-schema\";\n\n"@ + registry + "\n"@
        + "export const "@ + name
        + "Methods: Record<string, import(\"@bearcove/vox-core\").PhonMethodSchemas> = {\n"@
        + ts_method_entries(s.methods@) + "};\n"@
}

fn push_hex_bytes(out: &mut String, bytes: &Vec<u8>)
    ensures
        final(out)@ == old(out)@ + hex_bytes(bytes@),
{
    let ghost start = out@;
    let mut i: usize = 0;
    while i < bytes.len()
        invariant
            i <= bytes.len(),
            out@ == start + hex_bytes(bytes@.take(i as int)),
        decreases bytes.len() - i,
    {
        push_hex_byte(out, bytes[i]);
        assert(bytes@.take(i + 1).drop_last() =~= bytes@.take(i as int));
        assert(out@ =~= start + hex_bytes(bytes@.take(i + 1)));
        i += 1;
    }
    assert(bytes@.take(i as int) =~= bytes@);
}

fn ts_channels(args: &Vec<ArgDescriptor>) -> (r: String)
    ensures
        r@ == join(ts_channel_entries(args@, args@.len() as int), ", "@),
{
    let mut items: Vec<String> = Vec::new();
    let mut i: usize = 0;
    while i < args.len()
        invariant
            i <= args.len(),
            items@.map_values(|s: String| s@) == ts_channel_entries(args@, i as int),
        decreases args.len() - i,
    {
        let ghost before = items@.map_values(|s: String| s@);
        match &args[i].channel {
            Some(c) => {
                let mut t = String::from_str("{ index: ");
                push_decimal(&mut t, i as u64);
                push_str(&mut t, ", direction: \"");
                if c.is_tx {
                    push_str(&mut t, "tx");
                } else {
                    push_str(&mut t, "rx");
                }
                push_str(&mut t, "\", elementRoot: ");
                push_hex_u64(&mut t, c.element_root);
                push_str(&mut t, "n }");
                assert(t@ =~= ts_channel_entry(i as int, c.is_tx, c.element_root));
                items.push(t);
                assert(items@.map_values(|s: String| s@) =~= before.push(ts_channel_entry(i as int, c.is_tx, c.element_root)));
            },
            None => {},
        }
        i += 1;
    }
    join_strings(&items, ", ")
}

fn push_ts_method_entry(out: &mut String, m: &MethodDescriptor)
    ensures
        final(out)@ == old(out)@ + ts_method_entry(*m),
{
    push_str(out, "  \"");
    push_hex_u64(out, m.method_id);
    push_str(out, "\": {\n");
    push_str(out, "    argsRoot: ");
    push_hex_u64(out, m.args_root);
    push_str(out, "n,\n");
    push_str(out, "    argsSchemaClosure: \"");
    push_hex_bytes(out, &m.args_schema_closure);
    push_str(out, "\",\n");
    push_str(out, "    okRoot: ");
    push_hex_u64(out, m.ok_root);
    push_str(out, "n,\n");
    push_str(out, "    channels: [");
    let channels = ts_channels(&m.args);
    push_str(out, channels.as_str());
    push_str(out, "],\n");
    push_str(out, "  },\n");
    assert(final(out)@ =~= old(out)@ + ts_method_entry(*m));
}

/// Generates the TypeScript schema module for a service (see
/// [`ts_service_text`]); `registry` is the service's schema registry as the
/// schema crate renders it, under the name `{service}Registry`.
pub fn generate_phon_service(service: &ServiceDescriptor, registry: &str) -> (out: String)
    ensures
        out@ == ts_service_text(*service, registry@),
{
    let name = to_lower_camel(service.service_name.as_str());
    let mut out = String::new();
    push_str(&mut out, "// phon schemas for this service (registry + per-method roots + channel metadata).\n");
    push_str(&mut out, "import { Registry, schemaFromBytes, hexToBytes } from \"@bearcove/phon-schema\";\n");
    push_str(&mut out, "import type { Primitive } from \"@bearcove/phon-schema\";\n\n");
    push_str(&mut out, registry);
    push_str(&mut out, "\n");
    push_str(&mut out, "export const ");
    push_str(&mut out, name.as_str());
    push_str(&mut out, "Methods: Record<string, import(\"@bearcove/vox-core\").PhonMethodSchemas> = {\n");
    let ghost head = out@;
    let ms = &service.methods;
    let mut i: usize = 0;
    while i < ms.len()
        invariant
            i <= ms.len(),
            out@ == head + ts_method_entries(ms@.take(i as int)),
        decreases ms.len() - i,
    {
        push_ts_method_entry(&mut out, &ms[i]);
        assert(ms@.take(i + 1).drop_last() =~= ms@.take(i as int));
        i += 1;
    }
    assert(ms@.take(i as int) =~= ms@);
    push_str(&mut out, "};\n");
    assert(out@ =~= ts_service_text(*service, registry@));
    out
}

/// The text before a channel entry's direction word.
pub open spec fn ts_channel_entry_head(i: int) -> Seq<char> {
    "{ index: "@ + decimal(i as nat) + ", direction: \""@
}

/// A channel entry names its channel's direction right after
/// `direction: "`: `tx` for a sending channel and `rx` for a receiving one,
/// so the entries of the two directions always differ.
pub proof fn law_channel_entry_names_its_direction(i: int, element_root: u64)
    requires
        0 <= i,
    ensures
        ({
            let h = ts_channel_entry_head(i).len() as int;
            &&& ts_channel_entry(i, true, element_root).subrange(h, h + 2) == "tx"@
            &&& ts_channel_entry(i, false, element_root).subrange(h, h + 2) == "rx"@
            &&& ts_channel_entry(i, true, element_root) != ts_channel_entry(i, false, element_root)
        }),
{
    reveal_strlit("tx");
    reveal_strlit("rx");
    let h = ts_channel_entry_head(i).len() as int;
    let tail = "\", elementRoot: "@ + hex_u64_text(element_root) + "n }"@;
    let t = ts_channel_entry(i, true, element_root);
    let r = ts_channel_entry(i, false, element_root);
    assert(t =~= ts_channel_entry_head(i) + "tx"@ + tail);
    assert(r =~= ts_channel_entry_head(i) + "rx"@ + tail);
    assert(t.subrange(h, h + 2) =~= "tx"@);
    assert(r.subrange(h, h + 2) =~= "rx"@);
    assert(t[h] != r[h]);
}

} // verus!
