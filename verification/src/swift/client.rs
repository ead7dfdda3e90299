//! The Swift client emitter: the `{Service}Caller` protocol and the
//! `{Service}Client` class whose methods encode the arguments through the
//! typed path, call the runtime with the method's schema info, decode the
//! `Result<T, VoxError<E>>` response and unwrap it (throwing on failure).

use super::{
    arg_names, arg_names_exec, doc_text, global_prefix, has_channels, has_channels_exec, is_void,
    is_void_exec, join, join_strings, method_global_prefix, push_doc, push_str, ArgDescriptor,
    MethodDescriptor, ServiceDescriptor,
};
use crate::text::{hex_u64_text, lower_camel_case, push_hex_u64, to_lower_camel, to_upper_camel, upper_camel_case};
use vstd::prelude::*;

verus! {

/// `name: Type` for one argument on the client side.
pub open spec fn client_arg_text(a: ArgDescriptor) -> Seq<char> {
    lower_camel_case(a.name@) + ": "@ + a.client_type@
}

/// The client-side parameter list.
pub open spec fn client_args_text(m: MethodDescriptor) -> Seq<char> {
    join(m.args@.map_values(|a: ArgDescriptor| client_arg_text(a)), ", "@)
}

/// One requirement of the caller protocol.
pub open spec fn caller_decl(m: MethodDescriptor) -> Seq<char> {
    doc_text(m.doc) + "    func "@ + lower_camel_case(m.method_name@) + "("@ + client_args_text(m) + (if is_void(
        m.client_return@,
    ) {
        ") async throws\n"@
    } else {
        ") async throws -> "@ + m.client_return@ + "\n"@
    })
}

/// The requirements of the caller protocol, in method order.
pub open spec fn caller_decls(ms: Seq<MethodDescriptor>) -> Seq<char>
    decreases ms.len(),
{
    if ms.len() == 0 {
        Seq::empty()
    } else {
        caller_decls(ms.drop_last()) + caller_decl(ms.last())
    }
}

/// The line that encodes the arguments value.
pub open spec fn encode_args_line(prefix: Seq<char>) -> Seq<char> {
    "        let payload = withUnsafeBytes(of: &argsValue) { encodeWith("@ + prefix
        + "_ArgsEncodeProgram, $0.baseAddress!) }\n"@
}

/// How the payload is built: empty for no arguments, the bare value for one,
/// a tuple for several.
pub open spec fn payload_text(m: MethodDescriptor, prefix: Seq<char>) -> Seq<char> {
    let names = arg_names(m.args@);
    if names.len() == 0 {
        "        let payload: [UInt8] = []\n"@
    } else if names.len() == 1 {
        "        var argsValue = "@ + names[0] + "\n"@ + encode_args_line(prefix)
    } else {
        "        var argsValue = ("@ + join(names, ", "@) + ")\n"@ + encode_args_line(prefix)
    }
}

/// The runtime call with the method's schema info.
pub open spec fn call_text(id: Seq<char>, svc: Seq<char>) -> Seq<char> {
    "        let response = try await connection.call(\n            methodId: "@ + id
        + ", metadata: .null, payload: payload, retry: .volatile,\n            timeout: timeout, prepareRetry: nil, finalizeChannels: nil,\n            schemaInfo: ClientSchemaInfo(methodSchemas: "@
        + svc + "Methods["@ + id + "]!, registry: "@ + svc + "Registry))\n"@
}

/// Decoding the response into the wire result.
pub open spec fn decode_text(prefix: Seq<char>, resp: Seq<char>) -> Seq<char> {
    "        let raw = UnsafeMutableRawPointer.allocate(byteCount: MemoryLayout<"@ + resp
        + ">.size, alignment: MemoryLayout<"@ + resp
        + ">.alignment)\n        defer { raw.deallocate() }\n        try decodeInto("@ + prefix
        + "_ResponseDecodeProgram, response, raw)\n        let result = raw.assumingMemoryBound(to: "@
        + resp + ".self).move()\n        switch result {\n"@
}

/// The method signature line of the client class.
pub open spec fn client_sig_text(m: MethodDescriptor) -> Seq<char> {
    "    public func "@ + lower_camel_case(m.method_name@) + "("@ + client_args_text(m) + (if is_void(
        m.client_return@,
    ) {
        ") async throws {\n"@
    } else {
        ") async throws -> "@ + m.client_return@ + " {\n"@
    })
}

/// One method of the client class. A method with channel arguments is not
/// wired yet and fails loudly.
pub open spec fn client_method(service_name: Seq<char>, m: MethodDescriptor) -> Seq<char> {
    let name = lower_camel_case(m.method_name@);
    let prefix = global_prefix(service_name, m.method_name@);
    let id = hex_u64_text(m.method_id);
    if has_channels(m) {
        client_sig_text(m) + "        fatalError(\"phon Swift client: channel method `"@ + name
            + "` not yet wired\")\n    }\n\n"@
    } else {
        client_sig_text(m) + payload_text(m, prefix) + call_text(id, lower_camel_case(service_name))
            + decode_text(prefix, m.response_wire_type@) + (if is_void(m.client_return@) {
            "        case .success: return\n"@
        } else {
            "        case .success(let value): return value\n"@
        }) + "        case .failure(let error): throw error\n        }\n    }\n\n"@
    }
}

/// The client methods, in method order.
pub open spec fn client_methods(service_name: Seq<char>, ms: Seq<MethodDescriptor>) -> Seq<char>
    decreases ms.len(),
{
    if ms.len() == 0 {
        Seq::empty()
    } else {
        client_methods(service_name, ms.drop_last()) + client_method(service_name, ms.last())
    }
}

/// The whole client source: caller protocol, then client class.
pub open spec fn client_text(s: ServiceDescriptor) -> Seq<char> {
    let upper = upper_camel_case(s.service_name@);
    doc_text(s.doc) + "public protocol "@ + upper + "Caller: Sendable {\n"@ + caller_decls(s.methods@)
        + "}\n\n"@ + "public final class "@ + upper + "Client: "@ + upper + "Caller, Sendable {\n"@
        + "    private let connection: VoxConnection\n"@ + "    private let timeout: TimeInterval?\n\n"@
        + "    public init(connection: VoxConnection, timeout: TimeInterval? = 30.0) {\n        self.connection = connection\n        self.timeout = timeout\n    }\n\n"@
        + client_methods(s.service_name@, s.methods@) + "}\n\n"@
}

/// A method's name, parameter list and return type on the client side.
fn method_signature(method: &MethodDescriptor) -> (r: (String, String, String))
    ensures
        r.0@ == lower_camel_case(method.method_name@),
        r.1@ == client_args_text(*method),
        r.2@ == method.client_return@,
{
    let name = to_lower_camel(method.method_name.as_str());
    let mut args: Vec<String> = Vec::new();
    let mut i: usize = 0;
    while i < method.args.len()
        invariant
            i <= method.args.len(),
            args@.map_values(|s: String| s@) == method.args@.take(i as int).map_values(
                |a: ArgDescriptor| client_arg_text(a),
            ),
        decreases method.args.len() - i,
    {
        let a = &method.args[i];
        let mut t = to_lower_camel(a.name.as_str());
        push_str(&mut t, ": ");
        push_str(&mut t, a.client_type.as_str());
        let ghost before = args@.map_values(|s: String| s@);
        args.push(t);
        assert(args@.map_values(|s: String| s@) =~= before.push(client_arg_text(*a)));
        assert(method.args@.take(i + 1) =~= method.args@.take(i as int).push(*a));
        assert(method.args@.take(i + 1).map_values(|a: ArgDescriptor| client_arg_text(a))
            =~= method.args@.take(i as int).map_values(|a: ArgDescriptor| client_arg_text(a)).push(client_arg_text(*a)));
        i += 1;
    }
    assert(method.args@.take(i as int) =~= method.args@);
    let joined = join_strings(&args, ", ");
    let ret = method.client_return.clone();
    (name, joined, ret)
}

fn push_payload(out: &mut String, m: &MethodDescriptor, prefix: &String)
    ensures
        final(out)@ == old(out)@ + payload_text(*m, prefix@),
{
    let names = arg_names_exec(&m.args);
    proof {
        assert(names@.map_values(|s: String| s@).len() == names@.len());
    }
    if names.len() == 0 {
        push_str(out, "        let payload: [UInt8] = []\n");
    } else if names.len() == 1 {
        push_str(out, "        var argsValue = ");
        push_str(out, names[0].as_str());
        assert(names@.map_values(|s: String| s@)[0] == names@[0]@);
        push_str(out, "\n");
        push_str(out, "        let payload = withUnsafeBytes(of: &argsValue) { encodeWith(");
        push_str(out, prefix.as_str());
        push_str(out, "_ArgsEncodeProgram, $0.baseAddress!) }\n");
    } else {
        push_str(out, "        var argsValue = (");
        push_str(out, join_strings(&names, ", ").as_str());
        push_str(out, ")\n");
        push_str(out, "        let payload = withUnsafeBytes(of: &argsValue) { encodeWith(");
        push_str(out, prefix.as_str());
        push_str(out, "_ArgsEncodeProgram, $0.baseAddress!) }\n");
    }
    assert(final(out)@ =~= old(out)@ + payload_text(*m, prefix@));
}

fn push_call(out: &mut String, id: &String, svc: &String)
    ensures
        final(out)@ == old(out)@ + call_text(id@, svc@),
{
    push_str(out, "        let response = try await connection.call(\n            methodId: ");
    push_str(out, id.as_str());
    push_str(
        out,
        ", metadata: .null, payload: payload, retry: .volatile,\n            timeout: timeout, prepareRetry: nil, finalizeChannels: nil,\n            schemaInfo: ClientSchemaInfo(methodSchemas: ",
    );
    push_str(out, svc.as_str());
    push_str(out, "Methods[");
    push_str(out, id.as_str());
    push_str(out, "]!, registry: ");
    push_str(out, svc.as_str());
    push_str(out, "Registry))\n");
    assert(final(out)@ =~= old(out)@ + call_text(id@, svc@));
}

fn push_decode(out: &mut String, prefix: &String, resp: &String)
    ensures
        final(out)@ == old(out)@ + decode_text(prefix@, resp@),
{
    push_str(out, "        let raw = UnsafeMutableRawPointer.allocate(byteCount: MemoryLayout<");
    push_str(out, resp.as_str());
    push_str(out, ">.size, alignment: MemoryLayout<");
    push_str(out, resp.as_str());
    push_str(out, ">.alignment)\n        defer { raw.deallocate() }\n        try decodeInto(");
    push_str(out, prefix.as_str());
    push_str(out, "_ResponseDecodeProgram, response, raw)\n        let result = raw.assumingMemoryBound(to: ");
    push_str(out, resp.as_str());
    push_str(out, ".self).move()\n        switch result {\n");
    assert(final(out)@ =~= old(out)@ + decode_text(prefix@, resp@));
}

fn push_client_method(out: &mut String, service_name: &String, svc: &String, m: &MethodDescriptor)
    requires
        svc@ == lower_camel_case(service_name@),
    ensures
        final(out)@ == old(out)@ + client_method(service_name@, *m),
{
    let (name, args, ret) = method_signature(m);
    let mut id = String::new();
    push_hex_u64(&mut id, m.method_id);
    let prefix = method_global_prefix(service_name.as_str(), m.method_name.as_str());
    let void = is_void_exec(&ret);
    let ghost start = out@;
    push_str(out, "    public func ");
    push_str(out, name.as_str());
    push_str(out, "(");
    push_str(out, args.as_str());
    if void {
        push_str(out, ") async throws {\n");
    } else {
        push_str(out, ") async throws -> ");
        push_str(out, ret.as_str());
        push_str(out, " {\n");
    }
    assert(out@ =~= start + client_sig_text(*m));
    if has_channels_exec(m) {
        push_str(out, "        fatalError(\"phon Swift client: channel method `");
        push_str(out, name.as_str());
        push_str(out, "` not yet wired\")\n    }\n\n");
        assert(out@ =~= start + client_method(service_name@, *m));
        return;
    }
    push_payload(out, m, &prefix);
    push_call(out, &id, svc);
    push_decode(out, &prefix, &m.response_wire_type);
    if void {
        push_str(out, "        case .success: return\n");
    } else {
        push_str(out, "        case .success(let value): return value\n");
    }
    push_str(out, "        case .failure(let error): throw error\n        }\n    }\n\n");
    assert(out@ =~= start + client_method(service_name@, *m));
}

/// Generates the Swift client source for a service (see [`client_text`]).
pub fn generate_phon_client(service: &ServiceDescriptor) -> (out: String)
    ensures
        out@ == client_text(*service),
{
    let service_name = to_upper_camel(service.service_name.as_str());
    let svc = to_lower_camel(service.service_name.as_str());
    let ms = &service.methods;
    let mut out = String::new();
    push_doc(&mut out, &service.doc);
    push_str(&mut out, "public protocol ");
    push_str(&mut out, service_name.as_str());
    push_str(&mut out, "Caller: Sendable {\n");
    let ghost head = out@;
    let mut i: usize = 0;
    while i < ms.len()
        invariant
            i <= ms.len(),
            out@ == head + caller_decls(ms@.take(i as int)),
        decreases ms.len() - i,
    {
        let method = &ms[i];
        let ghost before = out@;
        push_doc(&mut out, &method.doc);
        let (name, args, ret) = method_signature(method);
        push_str(&mut out, "    func ");
        push_str(&mut out, name.as_str());
        push_str(&mut out, "(");
        push_str(&mut out, args.as_str());
        if is_void_exec(&ret) {
            push_str(&mut out, ") async throws\n");
        } else {
            push_str(&mut out, ") async throws -> ");
            push_str(&mut out, ret.as_str());
            push_str(&mut out, "\n");
        }
        proof {
            assert(out@ =~= before + caller_decl(*method));
            assert(ms@.take(i + 1).drop_last() =~= ms@.take(i as int));
            assert(ms@.take(i + 1).last() == *method);
            assert(out@ =~= head + caller_decls(ms@.take(i + 1)));
        }
        i += 1;
    }
    assert(ms@.take(i as int) =~= ms@);
    push_str(&mut out, "}\n\n");
    push_str(&mut out, "public final class ");
    push_str(&mut out, service_name.as_str());
    push_str(&mut out, "Client: ");
    push_str(&mut out, service_name.as_str());
    push_str(&mut out, "Caller, Sendable {\n");
    push_str(&mut out, "    private let connection: VoxConnection\n");
    push_str(&mut out, "    private let timeout: TimeInterval?\n\n");
    push_str(
        &mut out,
        "    public init(connection: VoxConnection, timeout: TimeInterval? = 30.0) {\n        self.connection = connection\n        self.timeout = timeout\n    }\n\n",
    );
    let ghost mid = out@;
    let mut j: usize = 0;
    while j < ms.len()
        invariant
            j <= ms.len(),
            svc@ == lower_camel_case(service.service_name@),
            out@ == mid + client_methods(service.service_name@, ms@.take(j as int)),
        decreases ms.len() - j,
    {
        let ghost before = out@;
        push_client_method(&mut out, &service.service_name, &svc, &ms[j]);
        proof {
            assert(ms@.take(j + 1).drop_last() =~= ms@.take(j as int));
            assert(ms@.take(j + 1).last() == ms@[j as int]);
            assert(out@ =~= mid + client_methods(service.service_name@, ms@.take(j + 1)));
        }
        j += 1;
    }
    assert(ms@.take(j as int) =~= ms@);
    push_str(&mut out, "}\n\n");
    assert(out@ =~= client_text(*service));
    out
}

/// What a wired client method sends: right after its signature it builds the
/// arguments value from its arguments, in order, under their lowerCamelCase
/// names. Several arguments go as one tuple of all of them, a single
/// argument as itself, and no argument as an empty payload.
pub proof fn law_client_sends_every_argument(service_name: Seq<char>, m: MethodDescriptor)
    requires
        !has_channels(m),
    ensures
        ({
            let names = arg_names(m.args@);
            let text = client_method(service_name, m);
            let at = client_sig_text(m).len() as int;
            let line = if names.len() == 0 {
                "        let payload: [UInt8] = []\n"@
            } else if names.len() == 1 {
                "        var argsValue = "@ + names[0] + "\n"@
            } else {
                "        var argsValue = ("@ + join(names, ", "@) + ")\n"@
            };
            at + line.len() <= text.len() && text.subrange(at, at + line.len() as int) == line
        }),
{
    let names = arg_names(m.args@);
    let text = client_method(service_name, m);
    let sig = client_sig_text(m);
    let prefix = global_prefix(service_name, m.method_name@);
    let line = if names.len() == 0 {
        "        let payload: [UInt8] = []\n"@
    } else if names.len() == 1 {
        "        var argsValue = "@ + names[0] + "\n"@
    } else {
        "        var argsValue = ("@ + join(names, ", "@) + ")\n"@
    };
    let p = payload_text(m, prefix);
    if names.len() == 0 {
        assert(p =~= line);
    } else {
        assert(p =~= line + encode_args_line(prefix));
    }
    assert(text.subrange(sig.len() as int, sig.len() + line.len() as int) =~= line);
}

} // verus!
