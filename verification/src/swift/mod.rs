//! Swift binding generation over a service description.
//!
//! A [`ServiceDescriptor`] holds, for each method, what the emitters read:
//! names, the method id, the Swift spellings of its argument, return and wire
//! types, its retry policy, its channel arguments, its descriptor
//! expressions, schema root ids and schema closure bytes. The emitters turn
//! that into Swift source text.

pub mod client;
pub mod descriptor;
pub mod globals;
pub mod server;
pub mod service;

use crate::text::{lower_camel_case, to_lower_camel};
use vstd::prelude::*;

verus! {

/// A channel argument: its direction and the schema root id of its element.
pub struct ChannelArg {
    pub is_tx: bool,
    pub element_root: u64,
}

/// One method argument.
pub struct ArgDescriptor {
    /// The argument's name as declared.
    pub name: String,
    /// The Swift type of the argument on the client side.
    pub client_type: String,
    /// The Swift type of the argument on the server side.
    pub server_type: String,
    /// `Some` for a `Tx`/`Rx` channel argument.
    pub channel: Option<ChannelArg>,
}

/// One service method.
pub struct MethodDescriptor {
    /// The method's name as declared.
    pub method_name: String,
    /// The method's wire id.
    pub method_id: u64,
    /// The method's doc comment, already rendered as Swift comment lines at
    /// member indentation.
    pub doc: Option<String>,
    pub args: Vec<ArgDescriptor>,
    /// The Swift return type on the client side (`Void` for unit).
    pub client_return: String,
    /// The Swift return type on the server side (`Void` for unit).
    pub server_return: String,
    /// The Swift type of `E` when the method returns `Result<T, E>`.
    pub user_error: Option<String>,
    /// The Swift type of the arguments tuple.
    pub args_type: String,
    /// The Swift type of the response wire type `Result<T, VoxError<E>>`.
    pub response_wire_type: String,
    /// The Swift type of the response wire type's error, when it is a `Result`.
    pub response_wire_error: Option<String>,
    pub retry_persist: bool,
    pub retry_idem: bool,
    /// The Swift `Descriptor(...)` expression for the arguments tuple.
    pub args_descriptor: String,
    /// The Swift `Descriptor(...)` expression for the response wire type.
    pub response_descriptor: String,
    pub args_root: u64,
    pub ok_root: u64,
    pub response_root: u64,
    pub args_schema_closure: Vec<u8>,
    pub response_schema_closure: Vec<u8>,
}

/// A service: its name, doc comment and methods.
pub struct ServiceDescriptor {
    pub service_name: String,
    /// The service's doc comment, already rendered as Swift comment lines.
    pub doc: Option<String>,
    pub methods: Vec<MethodDescriptor>,
}

/// A doc block, or nothing.
pub open spec fn doc_text(doc: Option<String>) -> Seq<char> {
    match doc {
        Some(d) => d@,
        None => Seq::empty(),
    }
}

/// The items joined with `sep` between consecutive items.
pub open spec fn join(items: Seq<Seq<char>>, sep: Seq<char>) -> Seq<char>
    decreases items.len(),
{
    if items.len() == 0 {
        Seq::empty()
    } else if items.len() == 1 {
        items[0]
    } else {
        join(items.drop_last(), sep) + sep + items.last()
    }
}

/// Whether a Swift type spelling is `Void`.
pub open spec fn is_void(ty: Seq<char>) -> bool {
    ty == "Void"@
}

/// Whether any argument is a channel.
pub open spec fn has_channels(m: MethodDescriptor) -> bool {
    exists|i: int| 0 <= i < m.args@.len() && (#[trigger] m.args@[i]).channel is Some
}

/// The name of the Swift globals for a method's descriptors and programs.
pub open spec fn global_prefix(service_name: Seq<char>, method_name: Seq<char>) -> Seq<char> {
    lower_camel_case(service_name) + "_"@ + lower_camel_case(method_name)
}

/// The lowerCamelCase argument names.
pub open spec fn arg_names(args: Seq<ArgDescriptor>) -> Seq<Seq<char>> {
    args.map_values(|a: ArgDescriptor| lower_camel_case(a.name@))
}

/// Appends a string slice.
pub(crate) fn push_str(out: &mut String, s: &str)
    ensures
        final(out)@ == old(out)@ + s@,
{
    out.append(s);
}

/// Whether a Swift type spelling is `Void`.
pub(crate) fn is_void_exec(ty: &String) -> (b: bool)
    ensures
        b == is_void(ty@),
{
    *ty == String::from_str("Void")
}

/// Appends the doc block, if any.
pub(crate) fn push_doc(out: &mut String, doc: &Option<String>)
    ensures
        final(out)@ == old(out)@ + doc_text(*doc),
{
    match doc {
        Some(d) => push_str(out, d.as_str()),
        None => {
            assert(old(out)@ + Seq::<char>::empty() =~= old(out)@);
        },
    }
}

/// Joins the strings with `sep`.
pub(crate) fn join_strings(items: &Vec<String>, sep: &str) -> (r: String)
    ensures
        r@ == join(items@.map_values(|s: String| s@), sep@),
{
    let ghost v = items@.map_values(|s: String| s@);
    let mut r = String::new();
    let mut i: usize = 0;
    assert(join(v.take(0), sep@) =~= r@);
    while i < items.len()
        invariant
            i <= items.len(),
            v == items@.map_values(|s: String| s@),
            r@ == join(v.take(i as int), sep@),
        decreases items.len() - i,
    {
        assert(v.take(i + 1).drop_last() =~= v.take(i as int));
        assert(v.take(i + 1).last() == items@[i as int]@);
        if i > 0 {
            push_str(&mut r, sep);
        } else {
            assert(v.take(i + 1) =~= seq![items@[i as int]@]);
        }
        push_str(&mut r, items[i].as_str());
        i += 1;
    }
    assert(v.take(i as int) =~= v);
    r
}

/// Whether any argument is a channel.
pub(crate) fn has_channels_exec(m: &MethodDescriptor) -> (b: bool)
    ensures
        b == has_channels(*m),
{
    let mut i: usize = 0;
    while i < m.args.len()
        invariant
            i <= m.args.len(),
            forall|j: int| 0 <= j < i ==> (#[trigger] m.args@[j]).channel is None,
        decreases m.args.len() - i,
    {
        if m.args[i].channel.is_some() {
            return true;
        }
        i += 1;
    }
    false
}

/// The lowerCamelCase argument names.
pub(crate) fn arg_names_exec(args: &Vec<ArgDescriptor>) -> (r: Vec<String>)
    ensures
        r@.map_values(|s: String| s@) == arg_names(args@),
{
    let mut r: Vec<String> = Vec::new();
    let mut i: usize = 0;
    while i < args.len()
        invariant
            i <= args.len(),
            r@.map_values(|s: String| s@) == arg_names(args@.take(i as int)),
        decreases args.len() - i,
    {
        let ghost before = r@.map_values(|s: String| s@);
        let n = to_lower_camel(args[i].name.as_str());
        r.push(n);
        assert(r@.map_values(|s: String| s@) =~= before.push(lower_camel_case(args@[i as int].name@)));
        assert(args@.take(i + 1) =~= args@.take(i as int).push(args@[i as int]));
        assert(arg_names(args@.take(i + 1)) =~= arg_names(args@.take(i as int)).push(lower_camel_case(args@[i as int].name@)));
        i += 1;
    }
    assert(args@.take(i as int) =~= args@);
    r
}

/// The name of the Swift descriptor/program globals for a method's args and
/// response: `{service}_{method}` in lowerCamelCase.
pub fn method_global_prefix(service_name: &str, method_name: &str) -> (r: String)
    ensures
        r@ == global_prefix(service_name@, method_name@),
{
    let mut r = to_lower_camel(service_name);
    push_str(&mut r, "_");
    push_str(&mut r, to_lower_camel(method_name).as_str());
    r
}

} // verus!
