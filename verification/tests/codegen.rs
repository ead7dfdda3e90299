use vox_verified::swift::client::generate_phon_client;
use vox_verified::swift::method_global_prefix;
use vox_verified::swift::{ArgDescriptor, ChannelArg, MethodDescriptor, ServiceDescriptor};

fn method() -> MethodDescriptor {
    MethodDescriptor {
        method_name: "say_hello".to_string(),
        method_id: 0x1234,
        doc: None,
        args: vec![ArgDescriptor {
            name: "message".to_string(),
            client_type: "String".to_string(),
            server_type: "String".to_string(),
            channel: None,
        }],
        client_return: "String".to_string(),
        server_return: "String".to_string(),
        user_error: None,
        args_type: "String".to_string(),
        response_wire_type: "R".to_string(),
        response_wire_error: None,
        retry_persist: false,
        retry_idem: true,
        args_descriptor: "D".to_string(),
        response_descriptor: "E".to_string(),
        args_root: 1,
        ok_root: 2,
        response_root: 3,
        args_schema_closure: vec![],
        response_schema_closure: vec![],
    }
}

#[test]
fn global_prefix_is_lower_camel() {
    assert_eq!(method_global_prefix("Echo", "say_hello"), "echo_sayHello");
}

#[test]
fn client_for_a_one_argument_method() {
    let service = ServiceDescriptor { service_name: "Echo".to_string(), doc: None, methods: vec![method()] };
    let expected = [
        "public protocol EchoCaller: Sendable {\n",
        "    func sayHello(message: String) async throws -> String\n",
        "}\n\n",
        "public final class EchoClient: EchoCaller, Sendable {\n",
        "    private let connection: VoxConnection\n",
        "    private let timeout: TimeInterval?\n\n",
        "    public init(connection: VoxConnection, timeout: TimeInterval? = 30.0) {\n",
        "        self.connection = connection\n",
        "        self.timeout = timeout\n",
        "    }\n\n",
        "    public func sayHello(message: String) async throws -> String {\n",
        "        var argsValue = message\n",
        "        let payload = withUnsafeBytes(of: &argsValue) { encodeWith(echo_sayHello_ArgsEncodeProgram, $0.baseAddress!) }\n",
        "        let response = try await connection.call(\n",
        "            methodId: 0x0000000000001234, metadata: .null, payload: payload, retry: .volatile,\n",
        "            timeout: timeout, prepareRetry: nil, finalizeChannels: nil,\n",
        "            schemaInfo: ClientSchemaInfo(methodSchemas: echoMethods[0x0000000000001234]!, registry: echoRegistry))\n",
        "        let raw = UnsafeMutableRawPointer.allocate(byteCount: MemoryLayout<R>.size, alignment: MemoryLayout<R>.alignment)\n",
        "        defer { raw.deallocate() }\n",
        "        try decodeInto(echo_sayHello_ResponseDecodeProgram, response, raw)\n",
        "        let result = raw.assumingMemoryBound(to: R.self).move()\n",
        "        switch result {\n",
        "        case .success(let value): return value\n",
        "        case .failure(let error): throw error\n",
        "        }\n",
        "    }\n\n",
        "}\n\n",
    ]
    .concat();
    assert_eq!(generate_phon_client(&service), expected);
}

#[test]
fn typescript_schema_table() {
    let mut m = method();
    m.args_schema_closure = vec![0x0a, 0xff, 0x00];
    m.args.push(ArgDescriptor {
        name: "stream".to_string(),
        client_type: "Tx<UInt32>".to_string(),
        server_type: "Rx<UInt32>".to_string(),
        channel: Some(ChannelArg { is_tx: true, element_root: 0x55 }),
    });
    let service = ServiceDescriptor { service_name: "Echo".to_string(), doc: None, methods: vec![m] };
    let out = vox_verified::typescript::generate_phon_service(&service, "export const echoRegistry = new Registry();");
    let expected = [
        "// phon schemas for this service (registry + per-method roots + channel metadata).\n",
        "import { Registry, schemaFromBytes, hexToBytes } from \"@bearcove/phon-schema\";\n",
        "import type { Primitive } from \"@bearcove/phon-schema\";\n\n",
        "export const echoRegistry = new Registry();\n",
        "export const echoMethods: Record<string, import(\"@bearcove/vox-core\").PhonMethodSchemas> = {\n",
        "  \"0x0000000000001234\": {\n",
        "    argsRoot: 0x0000000000000001n,\n",
        "    argsSchemaClosure: \"0aff00\",\n",
        "    okRoot: 0x0000000000000002n,\n",
        "    channels: [{ index: 1, direction: \"tx\", elementRoot: 0x0000000000000055n }],\n",
        "  },\n",
        "};\n",
    ]
    .concat();
    assert_eq!(out, expected);
}

#[test]
fn server_routes_each_method() {
    let service = ServiceDescriptor { service_name: "echo".to_string(), doc: Some("/// Echoes.\n".to_string()), methods: vec![method()] };
    let out = vox_verified::swift::server::generate_phon_server(&service);
    assert!(out.starts_with("/// Echoes.\npublic protocol EchoHandler: Sendable {\n    func sayHello(message: String) async throws -> String\n}\n\n"));
    assert!(out.contains("public final class EchoDispatcher: ServiceDispatcher {\n    private let handler: EchoHandler\n    public init(handler: EchoHandler) { self.handler = handler }\n\n"));
    assert!(out.contains("        case 0x0000000000001234: return RetryPolicy(persist: false, idem: true)\n        default: return .volatile\n"));
    assert!(out.contains("        let wire: VoxError<Infallible>\n"));
    assert!(out.contains("        var r: R = .failure(wire)\n        return withUnsafeBytes(of: &r) { encodeWith(echo_sayHello_ResponseEncodeProgram, $0.baseAddress!) }\n"));
    assert!(out.contains("        case 0x0000000000001234: await dispatch_sayHello(payload: payload, requestId: requestId, schemaSendTracker: schemaSendTracker, schemaReceiveTracker: schemaReceiveTracker, taskTx: taskTx)\n"));
    assert!(out.contains("    private func dispatch_sayHello(payload: [UInt8], requestId: UInt64, schemaSendTracker: SchemaSendTracker, schemaReceiveTracker: SchemaTracker, taskTx: @escaping @Sendable (TaskMessage) -> Void) async {\n"));
    assert!(out.ends_with("}\n\n"));
}

#[test]
fn wire_error_types_text() {
    let out = vox_verified::swift::service::generate_wire_error_types();
    assert!(out.starts_with("// MARK: - wire error type\n\npublic enum Infallible: Sendable {}\n\n"));
    assert!(out.ends_with("    case sendFailed\n    case indeterminate\n}\n\n"));
}

#[test]
fn service_tables() {
    let mut m = method();
    m.args_schema_closure = vec![1, 200];
    let service = ServiceDescriptor { service_name: "echo".to_string(), doc: None, methods: vec![m] };
    let out = vox_verified::swift::service::generate_phon_service(&service);
    assert!(out.contains("argsSchemaClosure: [1, 200]"));
    assert!(out.contains("nonisolated(unsafe) let echo_sayHello_ArgsDescriptor: Descriptor = D\n"));
    assert!(out.contains("nonisolated(unsafe) let echo_sayHello_ResponseDescriptor: Descriptor = E\n"));
    assert!(out.contains("nonisolated(unsafe) public let echoRegistry: Registry = buildServiceRegistry(echoMethods)\n\n"));
}

#[test]
fn each_method_global_is_defined_once() {
    let mut second = method();
    second.method_name = "say_goodbye".to_string();
    second.method_id = 0x5678;
    let service = ServiceDescriptor { service_name: "echo".to_string(), doc: None, methods: vec![method(), second] };
    let out = vox_verified::swift::service::generate_phon_service(&service);
    assert!(out.starts_with(&vox_verified::swift::service::generate_wire_error_types()));
    for prefix in ["echo_sayHello", "echo_sayGoodbye"] {
        for suffix in [
            "_ArgsDescriptor",
            "_ResponseDescriptor",
            "_ArgsEncodeProgram",
            "_ArgsDecodeProgram",
            "_ResponseEncodeProgram",
            "_ResponseDecodeProgram",
        ] {
            let definition = format!("nonisolated(unsafe) let {prefix}{suffix}: ");
            assert_eq!(out.matches(&definition).count(), 1, "{definition}");
        }
    }
    assert!(out.contains(
        "nonisolated(unsafe) let echo_sayGoodbye_ResponseDecodeProgram: MemProgram = try! lowerDecode(echo_sayGoodbye_ResponseDescriptor, echoRegistry)\n"
    ));
}
