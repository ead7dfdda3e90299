//! The Swift server emitter: the `{Service}Handler` protocol the user
//! implements, and a `{Service}Dispatcher` that decodes the arguments
//! (reconciling the peer's writer schema), calls the handler, wraps the
//! result into `Result<T, VoxError<E>>`, encodes and advertises it, and
//! replies.

use super::{
    doc_text, global_prefix, has_channels, has_channels_exec, is_void, is_void_exec, join,
    join_strings, method_global_prefix, push_doc, push_str, ArgDescriptor, MethodDescriptor,
    ServiceDescriptor,
};
use crate::text::{
    bool_text, decimal, hex_u64_text, lower_camel_case, push_bool, push_decimal, push_hex_u64,
    to_lower_camel, to_upper_camel, upper_camel_case,
};
use vstd::prelude::*;

verus! {

/// `name: Type` for one argument on the server side.
pub open spec fn server_arg_text(a: ArgDescriptor) -> Seq<char> {
    lower_camel_case(a.name@) + ": "@ + a.server_type@
}

/// One requirement of the handler protocol.
pub open spec fn handler_decl(m: MethodDescriptor) -> Seq<char> {
    doc_text(m.doc) + "    func "@ + lower_camel_case(m.method_name@) + "("@ + join(
        m.args@.map_values(|a: ArgDescriptor| server_arg_text(a)),
        ", "@,
    ) + (if is_void(m.server_return@) {
        ") async throws\n"@
    } else {
        ") async throws -> "@ + m.server_return@ + "\n"@
    })
}

/// The requirements of the handler protocol, in method order.
pub open spec fn handler_decls(ms: Seq<MethodDescriptor>) -> Seq<char>
    decreases ms.len(),
{
    if ms.len() == 0 {
        Seq::empty()
    } else {
        handler_decls(ms.drop_last()) + handler_decl(ms.last())
    }
}

/// One case of `retryPolicy`.
pub open spec fn retry_case(m: MethodDescriptor) -> Seq<char> {
    "        case "@ + hex_u64_text(m.method_id) + ": return RetryPolicy(persist: "@ + bool_text(
        m.retry_persist,
    ) + ", idem: "@ + bool_text(m.retry_idem) + ")\n"@
}

/// The cases of `retryPolicy`, in method order.
pub open spec fn retry_cases(ms: Seq<MethodDescriptor>) -> Seq<char>
    decreases ms.len(),
{
    if ms.len() == 0 {
        Seq::empty()
    } else {
        retry_cases(ms.drop_last()) + retry_case(ms.last())
    }
}

/// The wire error type used to encode runtime errors.
pub open spec fn wire_error_type(m: MethodDescriptor) -> Seq<char> {
    match m.response_wire_error {
        Some(e) => e@,
        None => "VoxError<Infallible>"@,
    }
}

/// `encodeVoxError`, encoding a runtime error through the first method's
/// response type (the non-user error arms do not depend on `E`).
pub open spec fn encode_vox_error_text(service_name: Seq<char>, m0: MethodDescriptor) -> Seq<char> {
    "    public func encodeVoxError(_ error: VoxRuntimeError) -> [UInt8] {\n        let wire: "@
        + wire_error_type(m0)
        + "\n        switch error {\n        case .unknownMethod, .notImplemented: wire = .unknownMethod\n        case .invalidPayload(let s), .decodeError(let s), .encodeError(let s): wire = .invalidPayload(s)\n        case .cancelled: wire = .cancelled\n        case .connectionClosed: wire = .connectionClosed\n        case .timeout, .indeterminate: wire = .indeterminate\n        }\n        var r: "@
        + m0.response_wire_type@ + " = .failure(wire)\n        return withUnsafeBytes(of: &r) { encodeWith("@
        + global_prefix(service_name, m0.method_name@)
        + "_ResponseEncodeProgram, $0.baseAddress!) }\n    }\n\n"@
}

/// One case of `dispatch`.
pub open spec fn dispatch_case(m: MethodDescriptor) -> Seq<char> {
    "        case "@ + hex_u64_text(m.method_id) + ": await dispatch_"@ + lower_camel_case(m.method_name@)
        + "(payload: payload, requestId: requestId, schemaSendTracker: schemaSendTracker, schemaReceiveTracker: schemaReceiveTracker, taskTx: taskTx)\n"@
}

/// The cases of `dispatch`, in method order.
pub open spec fn dispatch_cases(ms: Seq<MethodDescriptor>) -> Seq<char>
    decreases ms.len(),
{
    if ms.len() == 0 {
        Seq::empty()
    } else {
        dispatch_cases(ms.drop_last()) + dispatch_case(ms.last())
    }
}

/// `label: value` for the argument at position `i` of the handler call.
pub open spec fn call_arg_text(args: Seq<ArgDescriptor>, i: int) -> Seq<char> {
    lower_camel_case(args[i].name@) + ": "@ + (if args.len() == 1 {
        "args"@
    } else {
        "args."@ + decimal(i as nat)
    })
}

/// The handler call arguments, in order.
pub open spec fn call_args(args: Seq<ArgDescriptor>) -> Seq<Seq<char>> {
    Seq::new(args.len(), |i: int| call_arg_text(args, i))
}

/// Decoding the arguments (nothing for a method without arguments).
pub open spec fn decode_args_text(
    m: MethodDescriptor,
    id: Seq<char>,
    prefix: Seq<char>,
    svc: Seq<char>,
) -> Seq<char> {
    if m.args@.len() == 0 {
        Seq::empty()
    } else {
        "        let argsProgram = schemaReceiveTracker.buildDecodeProgram("@ + id
            + ", .args, readerDescriptor: "@ + prefix + "_ArgsDescriptor, local: "@ + svc + "Registry) ?? "@
            + prefix + "_ArgsDecodeProgram\n"@
            + "        let argsRaw = UnsafeMutableRawPointer.allocate(byteCount: MemoryLayout<"@
            + m.args_type@ + ">.size, alignment: MemoryLayout<"@ + m.args_type@
            + ">.alignment)\n        defer { argsRaw.deallocate() }\n"@
            + "        do { try decodeInto(argsProgram, payload, argsRaw) } catch {\n            taskTx(.response(requestId: requestId, payload: encodeVoxError(.invalidPayload(\"decode args\")), methodId: "@
            + id + "))\n            return\n        }\n        let args = argsRaw.assumingMemoryBound(to: "@
            + m.args_type@ + ".self).move()\n"@
    }
}

/// Calling the handler and wrapping its outcome into the wire result.
pub open spec fn call_handler_text(m: MethodDescriptor, call: Seq<char>) -> Seq<char> {
    "        let result: "@ + m.response_wire_type@ + "\n        do {\n"@ + (if m.user_error is Some {
        "            let userResult = try await "@ + call + "\n"@
            + "            switch userResult {\n            case .success(let v): result = .success(v)\n            case .failure(let e): result = .failure(.user(e))\n            }\n"@
    } else if is_void(m.server_return@) {
        "            try await "@ + call + "\n            result = .success(())\n"@
    } else {
        "            let value = try await "@ + call + "\n            result = .success(value)\n"@
    }) + "        } catch {\n            result = .failure(.indeterminate)\n        }\n"@
}

/// Encoding, advertising and sending the response.
pub open spec fn reply_text(id: Seq<char>, prefix: Seq<char>, svc: Seq<char>) -> Seq<char> {
    "        var r = result\n        let respPayload = withUnsafeBytes(of: &r) { encodeWith("@ + prefix
        + "_ResponseEncodeProgram, $0.baseAddress!) }\n        let schemas = schemaSendTracker.prepareSchemas("@
        + id + ", .response, "@ + svc + "Methods["@ + id
        + "]!.responseSchemaClosure)\n        taskTx(.response(requestId: requestId, payload: respPayload, methodId: "@
        + id + ", schemas: schemas))\n    }\n\n"@
}

/// The per-method dispatch helper. A method with channel arguments is not
/// wired yet and answers an invalid-payload error.
pub open spec fn dispatch_method_text(service_name: Seq<char>, m: MethodDescriptor) -> Seq<char> {
    let id = hex_u64_text(m.method_id);
    let name = lower_camel_case(m.method_name@);
    let prefix = global_prefix(service_name, m.method_name@);
    let svc = lower_camel_case(service_name);
    let header = "    private func dispatch_"@ + name
        + "(payload: [UInt8], requestId: UInt64, schemaSendTracker: SchemaSendTracker, schemaReceiveTracker: SchemaTracker, taskTx: @escaping @Sendable (TaskMessage) -> Void) async {\n"@;
    if has_channels(m) {
        header
            + "        // Channel method \u{2014} out-of-band binding not yet wired in the Swift phon server.\n        taskTx(.response(requestId: requestId, payload: encodeVoxError(.invalidPayload(\"channel method `"@
            + name + "` not wired\")), methodId: "@ + id + "))\n    }\n\n"@
    } else {
        let call = "handler."@ + name + "("@ + join(call_args(m.args@), ", "@) + ")"@;
        header + decode_args_text(m, id, prefix, svc) + call_handler_text(m, call) + reply_text(id, prefix, svc)
    }
}

/// The dispatch helpers, in method order.
pub open spec fn dispatch_methods(service_name: Seq<char>, ms: Seq<MethodDescriptor>) -> Seq<char>
    decreases ms.len(),
{
    if ms.len() == 0 {
        Seq::empty()
    } else {
        dispatch_methods(service_name, ms.drop_last()) + dispatch_method_text(service_name, ms.last())
    }
}

/// The whole server source: handler protocol, then dispatcher class.
pub open spec fn server_text(s: ServiceDescriptor) -> Seq<char> {
    let upper = upper_camel_case(s.service_name@);
    let ms = s.methods@;
    doc_text(s.doc) + "public protocol "@ + upper + "Handler: Sendable {\n"@ + handler_decls(ms)
        + "}\n\n"@ + "public final class "@ + upper + "Dispatcher: ServiceDispatcher {\n"@
        + "    private let handler: "@ + upper + "Handler\n"@ + "    public init(handler: "@ + upper
        + "Handler) { self.handler = handler }\n\n"@
        + "    public func retryPolicy(methodId: UInt64) -> RetryPolicy {\n        switch methodId {\n"@
        + retry_cases(ms) + "        default: return .volatile\n        }\n    }\n\n"@
        + encode_vox_error_text(s.service_name@, ms[0])
        + "    public func preregister(methodId: UInt64, payload: [UInt8], registry: ChannelRegistry) async {}\n\n"@
        + "    public func dispatch(methodId: UInt64, payload: [UInt8], requestId: UInt64, registry: ChannelRegistry, schemaSendTracker: SchemaSendTracker, schemaReceiveTracker: SchemaTracker, taskTx: @escaping @Sendable (TaskMessage) -> Void) async {\n        switch methodId {\n"@
        + dispatch_cases(ms)
        + "        default: taskTx(.response(requestId: requestId, payload: encodeVoxError(.unknownMethod), methodId: methodId))\n        }\n    }\n\n"@
        + dispatch_methods(s.service_name@, ms) + "}\n\n"@
}

/// Whether any argument is a channel.
fn method_has_channels(method: &MethodDescriptor) -> (b: bool)
    ensures
        b == has_channels(*method),
{
    has_channels_exec(method)
}

/// `(return type, response wire type, user error type)` on the server side;
/// the user error type is present only for a fallible method.
fn method_types(method: &MethodDescriptor) -> (r: (String, String, Option<String>))
    ensures
        r.0@ == method.server_return@,
        r.1@ == method.response_wire_type@,
        r.2 is Some == method.user_error is Some,
        r.2 matches Some(e) ==> method.user_error matches Some(u) && e@ == u@,
{
    let user_err = match &method.user_error {
        Some(e) => Some(e.clone()),
        None => None,
    };
    (method.server_return.clone(), method.response_wire_type.clone(), user_err)
}

fn server_args(m: &MethodDescriptor) -> (r: String)
    ensures
        r@ == join(m.args@.map_values(|a: ArgDescriptor| server_arg_text(a)), ", "@),
{
    let mut args: Vec<String> = Vec::new();
    let mut i: usize = 0;
    while i < m.args.len()
        invariant
            i <= m.args.len(),
            args@.map_values(|s: String| s@) == m.args@.take(i as int).map_values(
                |a: ArgDescriptor| server_arg_text(a),
            ),
        decreases m.args.len() - i,
    {
        let a = &m.args[i];
        let mut t = to_lower_camel(a.name.as_str());
        push_str(&mut t, ": ");
        push_str(&mut t, a.server_type.as_str());
        let ghost before = args@.map_values(|s: String| s@);
        args.push(t);
        assert(args@.map_values(|s: String| s@) =~= before.push(server_arg_text(*a)));
        assert(m.args@.take(i + 1) =~= m.args@.take(i as int).push(*a));
        assert(m.args@.take(i + 1).map_values(|a: ArgDescriptor| server_arg_text(a))
            =~= m.args@.take(i as int).map_values(|a: ArgDescriptor| server_arg_text(a)).push(server_arg_text(*a)));
        i += 1;
    }
    assert(m.args@.take(i as int) =~= m.args@);
    join_strings(&args, ", ")
}

fn call_args_exec(args: &Vec<ArgDescriptor>) -> (r: String)
    ensures
        r@ == join(call_args(args@), ", "@),
{
    let arity = args.len();
    let mut items: Vec<String> = Vec::new();
    let mut i: usize = 0;
    while i < arity
        invariant
            i <= arity,
            arity == args@.len(),
            items@.map_values(|s: String| s@) == call_args(args@).take(i as int),
        decreases arity - i,
    {
        let mut t = to_lower_camel(args[i].name.as_str());
        push_str(&mut t, ": ");
        if arity == 1 {
            push_str(&mut t, "args");
        } else {
            push_str(&mut t, "args.");
            push_decimal(&mut t, i as u64);
        }
        let ghost before = items@.map_values(|s: String| s@);
        assert(t@ == call_arg_text(args@, i as int));
        items.push(t);
        assert(items@.map_values(|s: String| s@) =~= before.push(call_arg_text(args@, i as int)));
        assert(call_args(args@).take(i + 1) =~= call_args(args@).take(i as int).push(call_arg_text(args@, i as int)));
        i += 1;
    }
    assert(call_args(args@).take(i as int) =~= call_args(args@));
    join_strings(&items, ", ")
}

fn push_decode_args(out: &mut String, m: &MethodDescriptor, id: &String, prefix: &String, svc: &String)
    ensures
        final(out)@ == old(out)@ + decode_args_text(*m, id@, prefix@, svc@),
{
    if m.args.len() == 0 {
        assert(old(out)@ + Seq::<char>::empty() =~= old(out)@);
        return;
    }
    push_str(out, "        let argsProgram = schemaReceiveTracker.buildDecodeProgram(");
    push_str(out, id.as_str());
    push_str(out, ", .args, readerDescriptor: ");
    push_str(out, prefix.as_str());
    push_str(out, "_ArgsDescriptor, local: ");
    push_str(out, svc.as_str());
    push_str(out, "Registry) ?? ");
    push_str(out, prefix.as_str());
    push_str(out, "_ArgsDecodeProgram\n");
    push_str(out, "        let argsRaw = UnsafeMutableRawPointer.allocate(byteCount: MemoryLayout<");
    push_str(out, m.args_type.as_str());
    push_str(out, ">.size, alignment: MemoryLayout<");
    push_str(out, m.args_type.as_str());
    push_str(out, ">.alignment)\n        defer { argsRaw.deallocate() }\n");
    push_str(
        out,
        "        do { try decodeInto(argsProgram, payload, argsRaw) } catch {\n            taskTx(.response(requestId: requestId, payload: encodeVoxError(.invalidPayload(\"decode args\")), methodId: ",
    );
    push_str(out, id.as_str());
    push_str(out, "))\n            return\n        }\n        let args = argsRaw.assumingMemoryBound(to: ");
    push_str(out, m.args_type.as_str());
    push_str(out, ".self).move()\n");
    assert(final(out)@ =~= old(out)@ + decode_args_text(*m, id@, prefix@, svc@));
}

fn push_call_handler(out: &mut String, m: &MethodDescriptor, call: &String)
    ensures
        final(out)@ == old(out)@ + call_handler_text(*m, call@),
{
    let (ret_ty, resp_ty, user_err) = method_types(m);
    push_str(out, "        let result: ");
    push_str(out, resp_ty.as_str());
    push_str(out, "\n        do {\n");
    if user_err.is_some() {
        push_str(out, "            let userResult = try await ");
        push_str(out, call.as_str());
        push_str(out, "\n");
        push_str(
            out,
            "            switch userResult {\n            case .success(let v): result = .success(v)\n            case .failure(let e): result = .failure(.user(e))\n            }\n",
        );
    } else if is_void_exec(&ret_ty) {
        push_str(out, "            try await ");
        push_str(out, call.as_str());
        push_str(out, "\n            result = .success(())\n");
    } else {
        push_str(out, "            let value = try await ");
        push_str(out, call.as_str());
        push_str(out, "\n            result = .success(value)\n");
    }
    push_str(out, "        } catch {\n            result = .failure(.indeterminate)\n        }\n");
    assert(final(out)@ =~= old(out)@ + call_handler_text(*m, call@));
}

fn push_reply(out: &mut String, id: &String, prefix: &String, svc: &String)
    ensures
        final(out)@ == old(out)@ + reply_text(id@, prefix@, svc@),
{
    push_str(out, "        var r = result\n        let respPayload = withUnsafeBytes(of: &r) { encodeWith(");
    push_str(out, prefix.as_str());
    push_str(out, "_ResponseEncodeProgram, $0.baseAddress!) }\n        let schemas = schemaSendTracker.prepareSchemas(");
    push_str(out, id.as_str());
    push_str(out, ", .response, ");
    push_str(out, svc.as_str());
    push_str(out, "Methods[");
    push_str(out, id.as_str());
    push_str(out, "]!.responseSchemaClosure)\n        taskTx(.response(requestId: requestId, payload: respPayload, methodId: ");
    push_str(out, id.as_str());
    push_str(out, ", schemas: schemas))\n    }\n\n");
    assert(final(out)@ =~= old(out)@ + reply_text(id@, prefix@, svc@));
}

/// The per-method dispatch helper (see [`dispatch_method_text`]).
fn generate_dispatch_method(service: &ServiceDescriptor, m: &MethodDescriptor) -> (out: String)
    ensures
        out@ == dispatch_method_text(service.service_name@, *m),
{
    let mut id = String::new();
    push_hex_u64(&mut id, m.method_id);
    let name = to_lower_camel(m.method_name.as_str());
    let prefix = method_global_prefix(service.service_name.as_str(), m.method_name.as_str());
    let svc = to_lower_camel(service.service_name.as_str());
    let mut out = String::new();
    push_str(&mut out, "    private func dispatch_");
    push_str(&mut out, name.as_str());
    push_str(
        &mut out,
        "(payload: [UInt8], requestId: UInt64, schemaSendTracker: SchemaSendTracker, schemaReceiveTracker: SchemaTracker, taskTx: @escaping @Sendable (TaskMessage) -> Void) async {\n",
    );
    if method_has_channels(m) {
        push_str(
            &mut out,
            "        // Channel method \u{2014} out-of-band binding not yet wired in the Swift phon server.\n        taskTx(.response(requestId: requestId, payload: encodeVoxError(.invalidPayload(\"channel method `",
        );
        push_str(&mut out, name.as_str());
        push_str(&mut out, "` not wired\")), methodId: ");
        push_str(&mut out, id.as_str());
        push_str(&mut out, "))\n    }\n\n");
        assert(out@ =~= dispatch_method_text(service.service_name@, *m));
        return out;
    }
    push_decode_args(&mut out, m, &id, &prefix, &svc);
    let mut call = String::from_str("handler.");
    push_str(&mut call, name.as_str());
    push_str(&mut call, "(");
    push_str(&mut call, call_args_exec(&m.args).as_str());
    push_str(&mut call, ")");
    push_call_handler(&mut out, m, &call);
    push_reply(&mut out, &id, &prefix, &svc);
    assert(out@ =~= dispatch_method_text(service.service_name@, *m));
    out
}

fn push_encode_vox_error(out: &mut String, service_name: &String, m0: &MethodDescriptor)
    ensures
        final(out)@ == old(out)@ + encode_vox_error_text(service_name@, *m0),
{
    let prefix0 = method_global_prefix(service_name.as_str(), m0.method_name.as_str());
    push_str(out, "    public func encodeVoxError(_ error: VoxRuntimeError) -> [UInt8] {\n        let wire: ");
    match &m0.response_wire_error {
        Some(e) => push_str(out, e.as_str()),
        None => push_str(out, "VoxError<Infallible>"),
    }
    push_str(
        out,
        "\n        switch error {\n        case .unknownMethod, .notImplemented: wire = .unknownMethod\n        case .invalidPayload(let s), .decodeError(let s), .encodeError(let s): wire = .invalidPayload(s)\n        case .cancelled: wire = .cancelled\n        case .connectionClosed: wire = .connectionClosed\n        case .timeout, .indeterminate: wire = .indeterminate\n        }\n        var r: ",
    );
    push_str(out, m0.response_wire_type.as_str());
    push_str(out, " = .failure(wire)\n        return withUnsafeBytes(of: &r) { encodeWith(");
    push_str(out, prefix0.as_str());
    push_str(out, "_ResponseEncodeProgram, $0.baseAddress!) }\n    }\n\n");
    assert(final(out)@ =~= old(out)@ + encode_vox_error_text(service_name@, *m0));
}

fn push_handler_decl(out: &mut String, method: &MethodDescriptor)
    ensures
        final(out)@ == old(out)@ + handler_decl(*method),
{
    push_doc(out, &method.doc);
    let name = to_lower_camel(method.method_name.as_str());
    let args = server_args(method);
    push_str(out, "    func ");
    push_str(out, name.as_str());
    push_str(out, "(");
    push_str(out, args.as_str());
    if is_void_exec(&method.server_return) {
        push_str(out, ") async throws\n");
    } else {
        push_str(out, ") async throws -> ");
        push_str(out, method.server_return.as_str());
        push_str(out, "\n");
    }
    assert(final(out)@ =~= old(out)@ + handler_decl(*method));
}

fn push_retry_case(out: &mut String, m: &MethodDescriptor)
    ensures
        final(out)@ == old(out)@ + retry_case(*m),
{
    push_str(out, "        case ");
    push_hex_u64(out, m.method_id);
    push_str(out, ": return RetryPolicy(persist: ");
    push_bool(out, m.retry_persist);
    push_str(out, ", idem: ");
    push_bool(out, m.retry_idem);
    push_str(out, ")\n");
    assert(final(out)@ =~= old(out)@ + retry_case(*m));
}

/// Generates the Swift server source for a service (see [`server_text`]).
/// The runtime-error encoder goes through the first method, so the service
/// must have one.
pub fn generate_phon_server(service: &ServiceDescriptor) -> (out: String)
    requires
        service.methods@.len() > 0,
    ensures
        out@ == server_text(*service),
{
    let service_name = to_upper_camel(service.service_name.as_str());
    let ms = &service.methods;
    let mut out = String::new();
    push_doc(&mut out, &service.doc);
    push_str(&mut out, "public protocol ");
    push_str(&mut out, service_name.as_str());
    push_str(&mut out, "Handler: Sendable {\n");
    let ghost h0 = out@;
    let mut i: usize = 0;
    while i < ms.len()
        invariant
            i <= ms.len(),
            out@ == h0 + handler_decls(ms@.take(i as int)),
        decreases ms.len() - i,
    {
        let method = &ms[i];
        let ghost before = out@;
        push_handler_decl(&mut out, method);
        proof {
            assert(ms@.take(i + 1).drop_last() =~= ms@.take(i as int));
            assert(ms@.take(i + 1).last() == *method);
            assert(out@ =~= h0 + handler_decls(ms@.take(i + 1)));
        }
        i += 1;
    }
    assert(ms@.take(i as int) =~= ms@);
    push_str(&mut out, "}\n\n");
    push_str(&mut out, "public final class ");
    push_str(&mut out, service_name.as_str());
    push_str(&mut out, "Dispatcher: ServiceDispatcher {\n");
    push_str(&mut out, "    private let handler: ");
    push_str(&mut out, service_name.as_str());
    push_str(&mut out, "Handler\n");
    push_str(&mut out, "    public init(handler: ");
    push_str(&mut out, service_name.as_str());
    push_str(&mut out, "Handler) { self.handler = handler }\n\n");
    push_str(&mut out, "    public func retryPolicy(methodId: UInt64) -> RetryPolicy {\n        switch methodId {\n");
    let ghost h1 = out@;
    let mut j: usize = 0;
    while j < ms.len()
        invariant
            j <= ms.len(),
            out@ == h1 + retry_cases(ms@.take(j as int)),
        decreases ms.len() - j,
    {
        let m = &ms[j];
        let ghost before = out@;
        push_retry_case(&mut out, m);
        proof {
            assert(ms@.take(j + 1).drop_last() =~= ms@.take(j as int));
            assert(ms@.take(j + 1).last() == *m);
            assert(out@ =~= h1 + retry_cases(ms@.take(j + 1)));
        }
        j += 1;
    }
    assert(ms@.take(j as int) =~= ms@);
    push_str(&mut out, "        default: return .volatile\n        }\n    }\n\n");
    push_encode_vox_error(&mut out, &service.service_name, &ms[0]);
    push_str(&mut out, "    public func preregister(methodId: UInt64, payload: [UInt8], registry: ChannelRegistry) async {}\n\n");
    push_str(
        &mut out,
        "    public func dispatch(methodId: UInt64, payload: [UInt8], requestId: UInt64, registry: ChannelRegistry, schemaSendTracker: SchemaSendTracker, schemaReceiveTracker: SchemaTracker, taskTx: @escaping @Sendable (TaskMessage) -> Void) async {\n        switch methodId {\n",
    );
    let ghost h2 = out@;
    let mut k: usize = 0;
    while k < ms.len()
        invariant
            k <= ms.len(),
            out@ == h2 + dispatch_cases(ms@.take(k as int)),
        decreases ms.len() - k,
    {
        let m = &ms[k];
        let ghost before = out@;
        push_str(&mut out, "        case ");
        push_hex_u64(&mut out, m.method_id);
        push_str(&mut out, ": await dispatch_");
        push_str(&mut out, to_lower_camel(m.method_name.as_str()).as_str());
        push_str(
            &mut out,
            "(payload: payload, requestId: requestId, schemaSendTracker: schemaSendTracker, schemaReceiveTracker: schemaReceiveTracker, taskTx: taskTx)\n",
        );
        proof {
            assert(out@ =~= before + dispatch_case(*m));
            assert(ms@.take(k + 1).drop_last() =~= ms@.take(k as int));
            assert(ms@.take(k + 1).last() == *m);
            assert(out@ =~= h2 + dispatch_cases(ms@.take(k + 1)));
        }
        k += 1;
    }
    assert(ms@.take(k as int) =~= ms@);
    push_str(
        &mut out,
        "        default: taskTx(.response(requestId: requestId, payload: encodeVoxError(.unknownMethod), methodId: methodId))\n        }\n    }\n\n",
    );
    let ghost h3 = out@;
    let mut l: usize = 0;
    while l < ms.len()
        invariant
            l <= ms.len(),
            out@ == h3 + dispatch_methods(service.service_name@, ms@.take(l as int)),
        decreases ms.len() - l,
    {
        let ghost before = out@;
        let text = generate_dispatch_method(service, &ms[l]);
        push_str(&mut out, text.as_str());
        proof {
            assert(ms@.take(l + 1).drop_last() =~= ms@.take(l as int));
            assert(ms@.take(l + 1).last() == ms@[l as int]);
            assert(out@ =~= h3 + dispatch_methods(service.service_name@, ms@.take(l + 1)));
        }
        l += 1;
    }
    assert(ms@.take(l as int) =~= ms@);
    push_str(&mut out, "}\n\n");
    assert(out@ =~= server_text(*service));
    out
}

/// Whether `t` occurs in `s`.
pub open spec fn text_contains(s: Seq<char>, t: Seq<char>) -> bool {
    exists|k: int| 0 <= k && k + t.len() <= s.len() && #[trigger] s.subrange(k, k + t.len()) == t
}

proof fn lemma_contains_concat(a: Seq<char>, b: Seq<char>, t: Seq<char>)
    ensures
        text_contains(b, t) ==> text_contains(a + b, t),
        text_contains(a, t) ==> text_contains(a + b, t),
{
    if text_contains(b, t) {
        let k = choose|k: int| 0 <= k && k + t.len() <= b.len() && #[trigger] b.subrange(k, k + t.len()) == t;
        assert((a + b).subrange(a.len() + k, a.len() + k + t.len()) =~= b.subrange(k, k + t.len()));
    }
    if text_contains(a, t) {
        let k = choose|k: int| 0 <= k && k + t.len() <= a.len() && #[trigger] a.subrange(k, k + t.len()) == t;
        assert((a + b).subrange(k, k + t.len()) =~= a.subrange(k, k + t.len()));
    }
}

/// The line that hands a handler's own error to the client as the wire
/// error `.user(e)`.
pub open spec fn user_failure_line() -> Seq<char> {
    "            case .failure(let e): result = .failure(.user(e))\n"@
}

proof fn lemma_handler_reports_user_error(m: MethodDescriptor, call: Seq<char>)
    requires
        m.user_error is Some,
    ensures
        text_contains(call_handler_text(m, call), user_failure_line()),
{
    let before = "            switch userResult {\n            case .success(let v): result = .success(v)\n"@;
    let after = "            }\n"@;
    let lit = "            switch userResult {\n            case .success(let v): result = .success(v)\n            case .failure(let e): result = .failure(.user(e))\n            }\n"@;
    reveal_strlit("            switch userResult {\n            case .success(let v): result = .success(v)\n");
    reveal_strlit("            }\n");
    reveal_strlit("            switch userResult {\n            case .success(let v): result = .success(v)\n            case .failure(let e): result = .failure(.user(e))\n            }\n");
    reveal_strlit("            case .failure(let e): result = .failure(.user(e))\n");
    assert(lit =~= before + user_failure_line() + after);
    lemma_contains_concat(before, user_failure_line(), user_failure_line());
    let l = user_failure_line();
    assert(l.subrange(0, 0 + l.len() as int) =~= l);
    assert(text_contains(l, l));
    lemma_contains_concat(before + user_failure_line(), after, user_failure_line());
    let head = "        let result: "@ + m.response_wire_type@ + "\n        do {\n"@ + "            let userResult = try await "@ + call + "\n"@;
    let tail = "        } catch {\n            result = .failure(.indeterminate)\n        }\n"@;
    lemma_contains_concat(head, lit, user_failure_line());
    lemma_contains_concat(head + lit, tail, user_failure_line());
    assert(call_handler_text(m, call) =~= head + lit + tail);
}

proof fn lemma_dispatch_methods_report_user_errors(service_name: Seq<char>, ms: Seq<MethodDescriptor>, i: int)
    requires
        0 <= i < ms.len(),
        !has_channels(ms[i]),
        ms[i].user_error is Some,
    ensures
        text_contains(dispatch_methods(service_name, ms), user_failure_line()),
    decreases ms.len(),
{
    let prev = ms.drop_last();
    if i < ms.len() - 1 {
        assert(prev[i] == ms[i]);
        lemma_dispatch_methods_report_user_errors(service_name, prev, i);
        lemma_contains_concat(
            dispatch_methods(service_name, prev),
            dispatch_method_text(service_name, ms.last()),
            user_failure_line(),
        );
    } else {
        let m = ms.last();
        let id = hex_u64_text(m.method_id);
        let name = lower_camel_case(m.method_name@);
        let prefix = global_prefix(service_name, m.method_name@);
        let svc = lower_camel_case(service_name);
        let header = "    private func dispatch_"@ + name
            + "(payload: [UInt8], requestId: UInt64, schemaSendTracker: SchemaSendTracker, schemaReceiveTracker: SchemaTracker, taskTx: @escaping @Sendable (TaskMessage) -> Void) async {\n"@;
        let call = "handler."@ + name + "("@ + join(call_args(m.args@), ", "@) + ")"@;
        lemma_handler_reports_user_error(m, call);
        lemma_contains_concat(header + decode_args_text(m, id, prefix, svc), call_handler_text(m, call), user_failure_line());
        lemma_contains_concat(
            header + decode_args_text(m, id, prefix, svc) + call_handler_text(m, call),
            reply_text(id, prefix, svc),
            user_failure_line(),
        );
        lemma_contains_concat(
            dispatch_methods(service_name, prev),
            dispatch_method_text(service_name, m),
            user_failure_line(),
        );
    }
}

/// A dispatcher hands the client the handler's own error: for every method
/// whose handler returns a `Result` with a user error type (and that is
/// wired, having no channel arguments), the generated server maps the
/// handler's `.failure(let e)` to the wire error `.user(e)`.
pub proof fn law_server_reports_user_errors(s: ServiceDescriptor, i: int)
    requires
        0 <= i < s.methods@.len(),
        !has_channels(s.methods@[i]),
        s.methods@[i].user_error is Some,
    ensures
        text_contains(server_text(s), user_failure_line()),
{
    let ms = s.methods@;
    lemma_dispatch_methods_report_user_errors(s.service_name@, ms, i);
    let upper = upper_camel_case(s.service_name@);
    let front = doc_text(s.doc) + "public protocol "@ + upper + "Handler: Sendable {\n"@ + handler_decls(ms)
        + "}\n\n"@ + "public final class "@ + upper + "Dispatcher: ServiceDispatcher {\n"@
        + "    private let handler: "@ + upper + "Handler\n"@ + "    public init(handler: "@ + upper
        + "Handler) { self.handler = handler }\n\n"@
        + "    public func retryPolicy(methodId: UInt64) -> RetryPolicy {\n        switch methodId {\n"@
        + retry_cases(ms) + "        default: return .volatile\n        }\n    }\n\n"@
        + encode_vox_error_text(s.service_name@, ms[0])
        + "    public func preregister(methodId: UInt64, payload: [UInt8], registry: ChannelRegistry) async {}\n\n"@
        + "    public func dispatch(methodId: UInt64, payload: [UInt8], requestId: UInt64, registry: ChannelRegistry, schemaSendTracker: SchemaSendTracker, schemaReceiveTracker: SchemaTracker, taskTx: @escaping @Sendable (TaskMessage) -> Void) async {\n        switch methodId {\n"@
        + dispatch_cases(ms)
        + "        default: taskTx(.response(requestId: requestId, payload: encodeVoxError(.unknownMethod), methodId: methodId))\n        }\n    }\n\n"@;
    lemma_contains_concat(front, dispatch_methods(s.service_name@, ms), user_failure_line());
    lemma_contains_concat(front + dispatch_methods(s.service_name@, ms), "}\n\n"@, user_failure_line());
}

/// A dispatcher passes each decoded argument to the handler under its own
/// label: the argument at position `i` gets `args` itself when it is the
/// only one, and the tuple's element `args.i` when there are several.
pub proof fn law_handler_gets_each_argument(args: Seq<ArgDescriptor>, i: int)
    requires
        0 <= i < args.len(),
    ensures
        call_args(args).len() == args.len(),
        args.len() == 1 ==> call_args(args)[i] == lower_camel_case(args[i].name@) + ": "@ + "args"@,
        args.len() >= 2 ==> call_args(args)[i] == lower_camel_case(args[i].name@) + ": "@ + "args."@ + decimal(
            i as nat,
        ),
{
}

} // verus!
