//! Byte framing of schema closures and self-describing messages.
//!
//! A schema closure is framed as the `u64` root id, the `u32` schema count,
//! then each schema as a `u32` length and its self-describing bytes (all
//! little-endian). A self-describing message is a `u32` length, that many
//! bytes of schema closure, then the compact value bytes.

use vstd::bytes::*;
use vstd::prelude::*;
use vstd::slice::*;

verus! {

/// A codec error, with its message.
#[derive(Debug)]
pub struct Error(pub String);

impl Error {
    /// The message, as the error's `Display` renders it.
    pub fn message(&self) -> (s: &str)
        ensures
            s@ == self.0@,
    {
        self.0.as_str()
    }
}

/// A schema closure as framed on the wire: the root type's id and each
/// reachable schema's self-describing bytes, in order.
pub struct SchemaClosure {
    pub root: u64,
    pub schemas: Vec<Vec<u8>>,
}

impl SchemaClosure {
    /// The schemas' bytes.
    pub open spec fn schemas_view(&self) -> Seq<Seq<u8>> {
        self.schemas@.map_values(|s: Vec<u8>| s@)
    }
}

/// Where reading a framed closure ran out or went wrong.
pub enum BundleFault {
    Root,
    Count,
    EntryLength,
    EntryBody,
    Trailing(nat),
}

/// How the byte reader reports running out of input.
pub open spec fn reader_eof_text() -> Seq<char> {
    "UnexpectedEof"@
}

/// The message of each framing fault.
pub open spec fn fault_message(f: BundleFault) -> Seq<char> {
    match f {
        BundleFault::Root => "schema bundle root: "@ + reader_eof_text(),
        BundleFault::Count => "schema bundle count: "@ + reader_eof_text(),
        BundleFault::EntryLength => "schema bundle entry length: "@ + reader_eof_text(),
        BundleFault::EntryBody => "schema bundle entry body: "@ + reader_eof_text(),
        BundleFault::Trailing(n) => "schema bundle has "@ + crate::text::decimal(n) + " trailing bytes"@,
    }
}

/// The framing of the entries: each as its `u32` length then its bytes.
pub open spec fn frame_entries(entries: Seq<Seq<u8>>) -> Seq<u8>
    decreases entries.len(),
{
    if entries.len() == 0 {
        Seq::empty()
    } else {
        frame_entries(entries.drop_last()) + spec_u32_to_le_bytes(entries.last().len() as u32)
            + entries.last()
    }
}

/// The framing of a whole closure.
pub open spec fn bundle_bytes(root: u64, entries: Seq<Seq<u8>>) -> Seq<u8> {
    spec_u64_to_le_bytes(root) + spec_u32_to_le_bytes(entries.len() as u32) + frame_entries(entries)
}

/// Reads `count` framed entries from the front of `b`, giving the entries and
/// what follows them.
pub open spec fn parse_entries(b: Seq<u8>, count: nat) -> Result<(Seq<Seq<u8>>, Seq<u8>), BundleFault>
    decreases count,
{
    if count == 0 {
        Ok((Seq::empty(), b))
    } else {
        match parse_entries(b, (count - 1) as nat) {
            Err(f) => Err(f),
            Ok((entries, rest)) => {
                if rest.len() < 4 {
                    Err(BundleFault::EntryLength)
                } else {
                    let len = spec_u32_from_le_bytes(rest.take(4));
                    let body = rest.skip(4);
                    if body.len() < len {
                        Err(BundleFault::EntryBody)
                    } else {
                        Ok((entries.push(body.take(len as int)), body.skip(len as int)))
                    }
                }
            },
        }
    }
}

/// Reads a framed closure that must fill `b` exactly.
pub open spec fn parse_bundle(b: Seq<u8>) -> Result<(u64, Seq<Seq<u8>>), BundleFault> {
    if b.len() < 8 {
        Err(BundleFault::Root)
    } else if b.len() < 12 {
        Err(BundleFault::Count)
    } else {
        let root = spec_u64_from_le_bytes(b.take(8));
        let count = spec_u32_from_le_bytes(b.subrange(8, 12));
        match parse_entries(b.skip(12), count as nat) {
            Err(f) => Err(f),
            Ok((entries, rest)) => if rest.len() == 0 {
                Ok((root, entries))
            } else {
                Err(BundleFault::Trailing(rest.len()))
            },
        }
    }
}

proof fn lemma_parse_entries_error_persists(b: Seq<u8>, i: nat, n: nat)
    requires
        i <= n,
        parse_entries(b, i) is Err,
    ensures
        parse_entries(b, n) == parse_entries(b, i),
    decreases n - i,
{
    if i < n {
        lemma_parse_entries_error_persists(b, i, (n - 1) as nat);
    }
}

fn append_bytes(out: &mut Vec<u8>, b: &[u8])
    ensures
        final(out)@ == old(out)@ + b@,
{
    let mut i: usize = 0;
    while i < b.len()
        invariant
            i <= b.len(),
            out@ == old(out)@ + b@.subrange(0, i as int),
        decreases b.len() - i,
    {
        out.push(b[i]);
        i += 1;
        assert(out@ =~= old(out)@ + b@.subrange(0, i as int));
    }
    assert(b@.subrange(0, i as int) =~= b@);
}

fn eof_error(prefix: &str) -> (e: Error)
    ensures
        e.0@ == prefix@ + reader_eof_text(),
{
    let mut s = String::from_str(prefix);
    s.append("UnexpectedEof");
    Error(s)
}

/// Frames a closure: root, count, then each schema's length and bytes.
pub fn encode_bundle(root: u64, schemas: &[Vec<u8>]) -> (out: Vec<u8>)
    ensures
        out@ == bundle_bytes(root, schemas@.map_values(|s: Vec<u8>| s@)),
{
    let ghost es = schemas@.map_values(|s: Vec<u8>| s@);
    let mut out: Vec<u8> = Vec::new();
    let root_bytes = u64_to_le_bytes(root);
    append_bytes(&mut out, root_bytes.as_slice());
    let count_bytes = u32_to_le_bytes(schemas.len() as u32);
    append_bytes(&mut out, count_bytes.as_slice());
    let mut i: usize = 0;
    while i < schemas.len()
        invariant
            i <= schemas.len(),
            es == schemas@.map_values(|s: Vec<u8>| s@),
            out@ == spec_u64_to_le_bytes(root) + spec_u32_to_le_bytes(es.len() as u32)
                + frame_entries(es.take(i as int)),
        decreases schemas.len() - i,
    {
        let s = &schemas[i];
        let len_bytes = u32_to_le_bytes(s.len() as u32);
        append_bytes(&mut out, len_bytes.as_slice());
        append_bytes(&mut out, s.as_slice());
        proof {
            assert(es.take(i + 1).drop_last() =~= es.take(i as int));
            assert(es.take(i + 1).last() == s@);
            assert(out@ =~= spec_u64_to_le_bytes(root) + spec_u32_to_le_bytes(es.len() as u32)
                + frame_entries(es.take(i + 1)));
        }
        i += 1;
    }
    assert(es.take(i as int) =~= es);
    out
}

/// Parses a framed closure (see [`parse_bundle`]); trailing bytes are an
/// error.
pub fn parse_schema_bytes(bytes: &[u8]) -> (r: Result<SchemaClosure, Error>)
    ensures
        match parse_bundle(bytes@) {
            Ok((root, entries)) => r matches Ok(c) && c.root == root && c.schemas_view() == entries,
            Err(f) => r matches Err(e) && e.0@ == fault_message(f),
        },
{
    if bytes.len() < 8 {
        return Err(eof_error("schema bundle root: "));
    }
    if bytes.len() < 12 {
        return Err(eof_error("schema bundle count: "));
    }
    let root = u64_from_le_bytes(slice_subrange(bytes, 0, 8));
    let count = u32_from_le_bytes(slice_subrange(bytes, 8, 12));
    let ghost body = bytes@.skip(12);
    assert(bytes@.take(8) =~= bytes@.subrange(0, 8));
    let mut schemas: Vec<Vec<u8>> = Vec::new();
    let mut pos: usize = 12;
    let mut i: u32 = 0;
    assert(bytes@.skip(12) =~= body);
    assert(schemas@.map_values(|s: Vec<u8>| s@) =~= Seq::<Seq<u8>>::empty());
    while i < count
        invariant
            12 <= pos <= bytes.len(),
            i <= count,
            count == spec_u32_from_le_bytes(bytes@.subrange(8, 12)),
            root == spec_u64_from_le_bytes(bytes@.take(8)),
            body == bytes@.skip(12),
            parse_entries(body, i as nat) == Ok::<(Seq<Seq<u8>>, Seq<u8>), BundleFault>(
                (schemas@.map_values(|s: Vec<u8>| s@), bytes@.skip(pos as int)),
            ),
        decreases count - i,
    {
        let ghost rest = bytes@.skip(pos as int);
        if bytes.len() - pos < 4 {
            proof {
                assert(parse_entries(body, (i + 1) as nat) == Err::<(Seq<Seq<u8>>, Seq<u8>), BundleFault>(BundleFault::EntryLength));
                lemma_parse_entries_error_persists(body, (i + 1) as nat, count as nat);
            }
            return Err(eof_error("schema bundle entry length: "));
        }
        let len = u32_from_le_bytes(slice_subrange(bytes, pos, pos + 4)) as usize;
        assert(rest.take(4) =~= bytes@.subrange(pos as int, pos + 4));
        pos = pos + 4;
        assert(rest.skip(4) =~= bytes@.skip(pos as int));
        if bytes.len() - pos < len {
            proof {
                assert(parse_entries(body, (i + 1) as nat) == Err::<(Seq<Seq<u8>>, Seq<u8>), BundleFault>(BundleFault::EntryBody));
                lemma_parse_entries_error_persists(body, (i + 1) as nat, count as nat);
            }
            return Err(eof_error("schema bundle entry body: "));
        }
        let entry = slice_to_vec(slice_subrange(bytes, pos, pos + len));
        let ghost before = schemas@.map_values(|s: Vec<u8>| s@);
        schemas.push(entry);
        proof {
            assert(bytes@.skip(pos as int).take(len as int) =~= bytes@.subrange(pos as int, pos + len));
            assert(bytes@.skip(pos as int).skip(len as int) =~= bytes@.skip(pos + len));
            assert(schemas@.map_values(|s: Vec<u8>| s@) =~= before.push(bytes@.subrange(pos as int, pos + len)));
        }
        pos = pos + len;
        i = i + 1;
    }
    if pos != bytes.len() {
        let mut s = String::from_str("schema bundle has ");
        crate::text::push_decimal(&mut s, (bytes.len() - pos) as u64);
        s.append(" trailing bytes");
        return Err(Error(s));
    }
    assert(bytes@.skip(pos as int) =~= Seq::<u8>::empty());
    Ok(SchemaClosure { root, schemas })
}

/// A self-describing message: the schema closure's length, the closure,
/// then the value bytes.
pub open spec fn self_describing_bytes(schema: Seq<u8>, value: Seq<u8>) -> Seq<u8> {
    spec_u32_to_le_bytes(schema.len() as u32) + schema + value
}

/// Splits a self-describing message into its parsed schema closure and the
/// value bytes that follow it.
pub open spec fn split_self_describing_spec(b: Seq<u8>) -> Result<((u64, Seq<Seq<u8>>), Seq<u8>), Seq<char>> {
    if b.len() < 4 {
        Err("self-describing schema length: "@ + reader_eof_text())
    } else {
        let n = spec_u32_from_le_bytes(b.take(4));
        if b.len() - 4 < n {
            Err("self-describing schema body: "@ + reader_eof_text())
        } else {
            match parse_bundle(b.subrange(4, 4 + n)) {
                Err(f) => Err(fault_message(f)),
                Ok(c) => Ok((c, b.skip(4 + n))),
            }
        }
    }
}

/// Frames a message as self-describing: schema length, schema, value.
pub fn to_self_describing(schema: &[u8], value: &[u8]) -> (out: Vec<u8>)
    ensures
        out@ == self_describing_bytes(schema@, value@),
{
    let mut out: Vec<u8> = Vec::new();
    let len_bytes = u32_to_le_bytes(schema.len() as u32);
    append_bytes(&mut out, len_bytes.as_slice());
    append_bytes(&mut out, schema);
    append_bytes(&mut out, value);
    out
}

/// Reads a self-describing message: its schema closure (parsed) and the
/// value bytes (see [`split_self_describing_spec`]).
pub fn split_self_describing(bytes: &[u8]) -> (r: Result<(SchemaClosure, &[u8]), Error>)
    ensures
        match split_self_describing_spec(bytes@) {
            Ok(((root, entries), value)) => r matches Ok((c, v)) && c.root == root && c.schemas_view() == entries && v@ == value,
            Err(m) => r matches Err(e) && e.0@ == m,
        },
{
    if bytes.len() < 4 {
        return Err(eof_error("self-describing schema length: "));
    }
    let n = u32_from_le_bytes(slice_subrange(bytes, 0, 4)) as usize;
    assert(bytes@.take(4) =~= bytes@.subrange(0, 4));
    if bytes.len() - 4 < n {
        return Err(eof_error("self-describing schema body: "));
    }
    let closure = parse_schema_bytes(slice_subrange(bytes, 4, 4 + n))?;
    let value = slice_subrange(bytes, 4 + n, bytes.len());
    assert(value@ =~= bytes@.skip(4 + n));
    Ok((closure, value))
}

proof fn lemma_parse_entries_framed(es: Seq<Seq<u8>>, rest: Seq<u8>)
    requires
        forall|i: int| 0 <= i < es.len() ==> (#[trigger] es[i]).len() <= u32::MAX,
    ensures
        parse_entries(frame_entries(es) + rest, es.len()) == Ok::<(Seq<Seq<u8>>, Seq<u8>), BundleFault>((es, rest)),
    decreases es.len(),
{
    if es.len() > 0 {
        let init = es.drop_last();
        let last = es.last();
        let lb = spec_u32_to_le_bytes(last.len() as u32);
        lemma_auto_spec_u32_to_from_le_bytes();
        let tail = lb + last + rest;
        assert forall|i: int| 0 <= i < init.len() implies (#[trigger] init[i]).len() <= u32::MAX by {
            assert(init[i] == es[i]);
        }
        lemma_parse_entries_framed(init, tail);
        assert(frame_entries(es) + rest =~= frame_entries(init) + tail);
        assert(tail.take(4) =~= lb);
        assert(tail.skip(4) =~= last + rest);
        assert((last + rest).take(last.len() as int) =~= last);
        assert((last + rest).skip(last.len() as int) =~= rest);
        assert(spec_u32_from_le_bytes(lb) == last.len());
        assert(init.push(last) =~= es);
    } else {
        assert(es =~= Seq::<Seq<u8>>::empty());
        assert(frame_entries(es) + rest =~= rest);
    }
}

/// A framed closure parses back to the same root and schemas, provided the
/// count and every schema length fit the `u32` length fields.
pub proof fn law_bundle_round_trip(root: u64, entries: Seq<Seq<u8>>)
    requires
        entries.len() <= u32::MAX,
        forall|i: int| 0 <= i < entries.len() ==> (#[trigger] entries[i]).len() <= u32::MAX,
    ensures
        parse_bundle(bundle_bytes(root, entries)) == Ok::<(u64, Seq<Seq<u8>>), BundleFault>((root, entries)),
{
    lemma_auto_spec_u32_to_from_le_bytes();
    lemma_auto_spec_u64_to_from_le_bytes();
    let b = bundle_bytes(root, entries);
    let rb = spec_u64_to_le_bytes(root);
    let cb = spec_u32_to_le_bytes(entries.len() as u32);
    lemma_parse_entries_framed(entries, Seq::empty());
    assert(b.take(8) =~= rb);
    assert(b.subrange(8, 12) =~= cb);
    assert(b.skip(12) =~= frame_entries(entries) + Seq::<u8>::empty());
}

/// Bytes after a framed closure are rejected, never ignored.
pub proof fn law_bundle_rejects_trailing(root: u64, entries: Seq<Seq<u8>>, extra: Seq<u8>)
    requires
        entries.len() <= u32::MAX,
        forall|i: int| 0 <= i < entries.len() ==> (#[trigger] entries[i]).len() <= u32::MAX,
        extra.len() > 0,
    ensures
        parse_bundle(bundle_bytes(root, entries) + extra) == Err::<(u64, Seq<Seq<u8>>), BundleFault>(
            BundleFault::Trailing(extra.len()),
        ),
{
    lemma_auto_spec_u32_to_from_le_bytes();
    lemma_auto_spec_u64_to_from_le_bytes();
    let b = bundle_bytes(root, entries) + extra;
    let rb = spec_u64_to_le_bytes(root);
    let cb = spec_u32_to_le_bytes(entries.len() as u32);
    lemma_parse_entries_framed(entries, extra);
    assert(b.take(8) =~= rb);
    assert(b.subrange(8, 12) =~= cb);
    assert(b.skip(12) =~= frame_entries(entries) + extra);
}

/// A self-describing message splits back into the closure it was framed
/// with and exactly the value bytes that followed.
pub proof fn law_self_describing_round_trip(root: u64, entries: Seq<Seq<u8>>, value: Seq<u8>)
    requires
        entries.len() <= u32::MAX,
        forall|i: int| 0 <= i < entries.len() ==> (#[trigger] entries[i]).len() <= u32::MAX,
        bundle_bytes(root, entries).len() <= u32::MAX,
    ensures
        split_self_describing_spec(self_describing_bytes(bundle_bytes(root, entries), value))
            == Ok::<((u64, Seq<Seq<u8>>), Seq<u8>), Seq<char>>(((root, entries), value)),
{
    lemma_auto_spec_u32_to_from_le_bytes();
    law_bundle_round_trip(root, entries);
    let schema = bundle_bytes(root, entries);
    let b = self_describing_bytes(schema, value);
    assert(b.take(4) =~= spec_u32_to_le_bytes(schema.len() as u32));
    assert(b.subrange(4, 4 + schema.len() as int) =~= schema);
    assert(b.skip(4 + schema.len() as int) =~= value);
}

/// The size of the framed entries: each entry's bytes and a four-byte
/// length before them.
pub open spec fn framed_size(entries: Seq<Seq<u8>>) -> int
    decreases entries.len(),
{
    if entries.len() == 0 {
        0
    } else {
        framed_size(entries.drop_last()) + 4 + entries.last().len()
    }
}

proof fn lemma_frame_entries_len(entries: Seq<Seq<u8>>)
    ensures
        frame_entries(entries).len() == framed_size(entries),
    decreases entries.len(),
{
    if entries.len() > 0 {
        lemma_frame_entries_len(entries.drop_last());
        vstd::bytes::lemma_auto_spec_u32_to_from_le_bytes();
    }
}

/// A schema closure is laid out as its root id in eight little-endian
/// bytes, the number of entries in four, then the entries, each as its
/// length in four bytes and its bytes; nothing else is written.
pub proof fn law_bundle_layout(root: u64, entries: Seq<Seq<u8>>)
    requires
        entries.len() <= u32::MAX,
    ensures
        ({
            let b = bundle_bytes(root, entries);
            &&& b.len() == 12 + framed_size(entries)
            &&& b.subrange(0, 8) == spec_u64_to_le_bytes(root)
            &&& b.subrange(8, 12) == spec_u32_to_le_bytes(entries.len() as u32)
            &&& b.subrange(12, b.len() as int) == frame_entries(entries)
        }),
{
    vstd::bytes::lemma_auto_spec_u32_to_from_le_bytes();
    vstd::bytes::lemma_auto_spec_u64_to_from_le_bytes();
    lemma_frame_entries_len(entries);
    let b = bundle_bytes(root, entries);
    assert(b.subrange(0, 8) =~= spec_u64_to_le_bytes(root));
    assert(b.subrange(8, 12) =~= spec_u32_to_le_bytes(entries.len() as u32));
    assert(b.subrange(12, b.len() as int) =~= frame_entries(entries));
}

/// A self-describing message is the closure's length in four little-endian
/// bytes, the closure, then the value.
pub proof fn law_self_describing_layout(schema: Seq<u8>, value: Seq<u8>)
    requires
        schema.len() <= u32::MAX,
    ensures
        ({
            let b = self_describing_bytes(schema, value);
            &&& b.len() == 4 + schema.len() + value.len()
            &&& spec_u32_from_le_bytes(b.subrange(0, 4)) == schema.len()
            &&& b.subrange(4, 4 + schema.len() as int) == schema
            &&& b.subrange(4 + schema.len() as int, b.len() as int) == value
        }),
{
    vstd::bytes::lemma_auto_spec_u32_to_from_le_bytes();
    let b = self_describing_bytes(schema, value);
    assert(b.subrange(0, 4) =~= spec_u32_to_le_bytes(schema.len() as u32));
    assert(b.subrange(4, 4 + schema.len() as int) =~= schema);
    assert(b.subrange(4 + schema.len() as int, b.len() as int) =~= value);
}

} // verus!
