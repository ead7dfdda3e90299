//! Turning fuzzer input into a session workload. A cursor reads the input
//! cyclically (an empty input reads as zeros) and the workload is the list of
//! calls the bytes select; the calls themselves are made by the caller.

use vstd::prelude::*;

verus! {

/// What `String::from_utf8_lossy` makes of a byte string.
pub uninterp spec fn lossy_text(b: Seq<u8>) -> Seq<char>;

/// Calls `String::from_utf8_lossy` and takes the text; the result is the
/// named decoding of the bytes (invalid sequences become U+FFFD).
#[verifier::external_body]
fn utf8_lossy(b: &[u8]) -> (s: String)
    ensures
        s@ == lossy_text(b@),
{
    String::from_utf8_lossy(b).into_owned()
}

/// The byte read at position `idx`: the input taken cyclically, or zero
/// for an empty input.
pub open spec fn byte_at(bytes: Seq<u8>, idx: usize) -> u8 {
    if bytes.len() == 0 {
        0
    } else {
        bytes[idx as int % bytes.len() as int]
    }
}

/// The position after a read: one further, wrapping at the end of `usize`;
/// an empty input does not move.
pub open spec fn step(bytes: Seq<u8>, idx: usize) -> usize {
    if bytes.len() == 0 {
        idx
    } else if idx == usize::MAX {
        0
    } else {
        (idx + 1) as usize
    }
}

/// The position after `n` reads.
pub open spec fn advance(bytes: Seq<u8>, idx: usize, n: nat) -> usize
    decreases n,
{
    if n == 0 {
        idx
    } else {
        step(bytes, advance(bytes, idx, (n - 1) as nat))
    }
}

/// The `n` bytes read from position `idx`.
pub open spec fn stream(bytes: Seq<u8>, idx: usize, n: nat) -> Seq<u8>
    decreases n,
{
    if n == 0 {
        Seq::empty()
    } else {
        stream(bytes, idx, (n - 1) as nat).push(byte_at(bytes, advance(bytes, idx, (n - 1) as nat)))
    }
}

/// `n` reads give `n` bytes.
pub proof fn lemma_stream_len(bytes: Seq<u8>, idx: usize, n: nat)
    ensures
        stream(bytes, idx, n).len() == n,
    decreases n,
{
    if n > 0 {
        lemma_stream_len(bytes, idx, (n - 1) as nat);
    }
}

/// Four bytes as a little-endian `u32`.
pub open spec fn le_u32(s: Seq<u8>) -> u32 {
    (s[0] + s[1] * 0x100 + s[2] * 0x1_0000 + s[3] * 0x100_0000) as u32
}

/// Eight bytes as a little-endian `u64`.
pub open spec fn le_u64(s: Seq<u8>) -> u64 {
    (le_u32(s.subrange(0, 4)) + le_u32(s.subrange(4, 8)) * 0x1_0000_0000) as u64
}

/// A `u32` read at `idx`, and the position after it.
pub open spec fn take_u32(bytes: Seq<u8>, idx: usize) -> (u32, usize) {
    (le_u32(stream(bytes, idx, 4)), advance(bytes, idx, 4))
}

/// An `i64` read at `idx` (little-endian, two's complement), and the
/// position after it.
pub open spec fn take_i64(bytes: Seq<u8>, idx: usize) -> (i64, usize) {
    (le_u64(stream(bytes, idx, 8)) as i64, advance(bytes, idx, 8))
}

/// A length byte (modulo `max_len + 1`) and that many bytes, read at `idx`.
pub open spec fn take_bytes(bytes: Seq<u8>, idx: usize, max_len: nat) -> (Seq<u8>, usize) {
    let len = (byte_at(bytes, idx) as nat) % (max_len + 1);
    let start = step(bytes, idx);
    (stream(bytes, start, len), advance(bytes, start, len))
}

/// Bytes as by [`take_bytes`], decoded as text.
pub open spec fn take_string(bytes: Seq<u8>, idx: usize, max_len: nat) -> (Seq<char>, usize) {
    let (b, next) = take_bytes(bytes, idx, max_len);
    (lossy_text(b), next)
}

/// `n` values read as `u32` and reinterpreted as `i32`.
pub open spec fn take_i32s(bytes: Seq<u8>, idx: usize, n: nat) -> (Seq<i32>, usize)
    decreases n,
{
    if n == 0 {
        (Seq::empty(), idx)
    } else {
        let (front, mid) = take_i32s(bytes, idx, (n - 1) as nat);
        let (v, next) = take_u32(bytes, mid);
        (front.push(v as i32), next)
    }
}

/// `n` strings of at most `max_len` bytes each.
pub open spec fn take_strings(bytes: Seq<u8>, idx: usize, n: nat, max_len: nat) -> (
    Seq<Seq<char>>,
    usize,
)
    decreases n,
{
    if n == 0 {
        (Seq::empty(), idx)
    } else {
        let (front, mid) = take_strings(bytes, idx, (n - 1) as nat, max_len);
        let (s, next) = take_string(bytes, mid, max_len);
        (front.push(s), next)
    }
}

/// A reader over fuzzer input.
pub struct Cursor<'a> {
    bytes: &'a [u8],
    idx: usize,
}

impl<'a> View for Cursor<'a> {
    type V = (Seq<u8>, usize);

    closed spec fn view(&self) -> (Seq<u8>, usize) {
        (self.bytes@, self.idx)
    }
}

impl<'a> Cursor<'a> {
    /// A cursor at the start of `bytes`.
    pub fn new(bytes: &'a [u8]) -> (c: Self)
        ensures
            c@ == (bytes@, 0usize),
    {
        Cursor { bytes, idx: 0 }
    }

    /// The next byte.
    pub fn next_u8(&mut self) -> (b: u8)
        ensures
            final(self)@.0 == old(self)@.0,
            b == byte_at(old(self)@.0, old(self)@.1),
            final(self)@.1 == step(old(self)@.0, old(self)@.1),
    {
        if self.bytes.len() == 0 {
            return 0;
        }
        let b = self.bytes[self.idx % self.bytes.len()];
        self.idx = self.idx.wrapping_add(1);
        b
    }

    /// The next `n` bytes, gathered into a vector.
    fn next_n(&mut self, n: usize) -> (v: Vec<u8>)
        ensures
            final(self)@.0 == old(self)@.0,
            v@ == stream(old(self)@.0, old(self)@.1, n as nat),
            final(self)@.1 == advance(old(self)@.0, old(self)@.1, n as nat),
    {
        let ghost bytes = self@.0;
        let ghost start = self@.1;
        let mut v: Vec<u8> = Vec::new();
        let mut i: usize = 0;
        while i < n
            invariant
                i <= n,
                self@.0 == bytes,
                v@ == stream(bytes, start, i as nat),
                self@.1 == advance(bytes, start, i as nat),
            decreases n - i,
        {
            let b = self.next_u8();
            v.push(b);
            i += 1;
        }
        v
    }

    /// The next four bytes as a little-endian `u32`.
    pub fn next_u32(&mut self) -> (r: u32)
        ensures
            final(self)@.0 == old(self)@.0,
            (r, final(self)@.1) == take_u32(old(self)@.0, old(self)@.1),
    {
        let b = self.next_n(4);
        proof {
            lemma_stream_len(old(self)@.0, old(self)@.1, 4);
        }
        proof {
            reveal_with_fuel(stream, 5);
        }
        (b[0] as u32) + (b[1] as u32) * 0x100 + (b[2] as u32) * 0x1_0000 + (b[3] as u32) * 0x100_0000
    }

    /// The next eight bytes as a little-endian `i64`.
    pub fn next_i64(&mut self) -> (r: i64)
        ensures
            final(self)@.0 == old(self)@.0,
            (r, final(self)@.1) == take_i64(old(self)@.0, old(self)@.1),
    {
        let b = self.next_n(8);
        proof {
            lemma_stream_len(old(self)@.0, old(self)@.1, 8);
        }
        let lo: u64 = (b[0] as u64) + (b[1] as u64) * 0x100 + (b[2] as u64) * 0x1_0000 + (b[3] as u64)
            * 0x100_0000;
        let hi: u64 = (b[4] as u64) + (b[5] as u64) * 0x100 + (b[6] as u64) * 0x1_0000 + (b[7] as u64)
            * 0x100_0000;
        let v: u64 = lo + hi * 0x1_0000_0000;
        proof {
            reveal_with_fuel(stream, 9);
            let s = stream(old(self)@.0, old(self)@.1, 8);
            assert(s.subrange(0, 4) =~= seq![b@[0], b@[1], b@[2], b@[3]]);
            assert(s.subrange(4, 8) =~= seq![b@[4], b@[5], b@[6], b@[7]]);
        }
        #[verifier::truncate]
        (v as i64)
    }

    /// A length byte, taken modulo `max_len + 1`, and that many bytes.
    pub fn bytes(&mut self, max_len: usize) -> (v: Vec<u8>)
        requires
            max_len < usize::MAX,
        ensures
            final(self)@.0 == old(self)@.0,
            (v@, final(self)@.1) == take_bytes(old(self)@.0, old(self)@.1, max_len as nat),
    {
        let len = (self.next_u8() as usize) % (max_len + 1);
        self.next_n(len)
    }

    /// Bytes as by [`Cursor::bytes`], decoded as text.
    pub fn string(&mut self, max_len: usize) -> (s: String)
        requires
            max_len < usize::MAX,
        ensures
            final(self)@.0 == old(self)@.0,
            (s@, final(self)@.1) == take_string(old(self)@.0, old(self)@.1, max_len as nat),
    {
        let b = self.bytes(max_len);
        utf8_lossy(b.as_slice())
    }
}

/// One call of the workload.
pub enum FuzzOp {
    Echo(String),
    Reverse(String),
    Divide(i64, i64),
    Lookup(u32),
    ProcessMessage(Vec<u8>),
    Sum(Vec<i32>),
    Generate(u32),
    Transform(Vec<String>),
    EchoPoint(i32, i32),
    SwapPair(i32, String),
}

/// The content of a [`FuzzOp`].
pub enum FuzzOpView {
    Echo(Seq<char>),
    Reverse(Seq<char>),
    Divide(i64, i64),
    Lookup(u32),
    ProcessMessage(Seq<u8>),
    Sum(Seq<i32>),
    Generate(u32),
    Transform(Seq<Seq<char>>),
    EchoPoint(i32, i32),
    SwapPair(i32, Seq<char>),
}

/// The texts of a vector of strings.
pub open spec fn strings_view(v: Seq<String>) -> Seq<Seq<char>> {
    v.map_values(|s: String| s@)
}

impl View for FuzzOp {
    type V = FuzzOpView;

    open spec fn view(&self) -> FuzzOpView {
        match self {
            FuzzOp::Echo(s) => FuzzOpView::Echo(s@),
            FuzzOp::Reverse(s) => FuzzOpView::Reverse(s@),
            FuzzOp::Divide(a, b) => FuzzOpView::Divide(*a, *b),
            FuzzOp::Lookup(id) => FuzzOpView::Lookup(*id),
            FuzzOp::ProcessMessage(p) => FuzzOpView::ProcessMessage(p@),
            FuzzOp::Sum(v) => FuzzOpView::Sum(v@),
            FuzzOp::Generate(n) => FuzzOpView::Generate(*n),
            FuzzOp::Transform(v) => FuzzOpView::Transform(strings_view(v@)),
            FuzzOp::EchoPoint(x, y) => FuzzOpView::EchoPoint(*x, *y),
            FuzzOp::SwapPair(n, s) => FuzzOpView::SwapPair(*n, s@),
        }
    }
}

/// The call selected at `idx`, and the position after it. A selector byte
/// (modulo ten) picks the call; its arguments follow.
pub open spec fn decode_op(bytes: Seq<u8>, idx: usize) -> (FuzzOpView, usize) {
    let sel = byte_at(bytes, idx) % 10;
    let i = step(bytes, idx);
    if sel == 0 {
        let (s, next) = take_string(bytes, i, 64);
        (FuzzOpView::Echo(s), next)
    } else if sel == 1 {
        let (s, next) = take_string(bytes, i, 64);
        (FuzzOpView::Reverse(s), next)
    } else if sel == 2 {
        let (a, mid) = take_i64(bytes, i);
        let (b, next) = take_i64(bytes, mid);
        (FuzzOpView::Divide(a, b), next)
    } else if sel == 3 {
        let (id, next) = take_u32(bytes, i);
        (FuzzOpView::Lookup(id), next)
    } else if sel == 4 {
        let (p, next) = take_bytes(bytes, i, 1024);
        (FuzzOpView::ProcessMessage(p), next)
    } else if sel == 5 {
        let count = (byte_at(bytes, i) % 8) as nat;
        let (nums, next) = take_i32s(bytes, step(bytes, i), count);
        (FuzzOpView::Sum(nums), next)
    } else if sel == 6 {
        let (n, next) = take_u32(bytes, i);
        (FuzzOpView::Generate(n % 16), next)
    } else if sel == 7 {
        let count = (byte_at(bytes, i) % 6) as nat;
        let (vals, next) = take_strings(bytes, step(bytes, i), count, 24);
        (FuzzOpView::Transform(vals), next)
    } else if sel == 8 {
        let (x, mid) = take_u32(bytes, i);
        let (y, next) = take_u32(bytes, mid);
        (FuzzOpView::EchoPoint(x as i32, y as i32), next)
    } else {
        let (n, mid) = take_u32(bytes, i);
        let (s, next) = take_string(bytes, mid, 32);
        (FuzzOpView::SwapPair(n as i32, s), next)
    }
}

/// `n` calls decoded from `idx`, and the position after them.
pub open spec fn decode_ops(bytes: Seq<u8>, idx: usize, n: nat) -> (Seq<FuzzOpView>, usize)
    decreases n,
{
    if n == 0 {
        (Seq::empty(), idx)
    } else {
        let (front, mid) = decode_ops(bytes, idx, (n - 1) as nat);
        let (op, next) = decode_op(bytes, mid);
        (front.push(op), next)
    }
}

/// The workload of a fuzz case: a count byte (modulo 24, plus one) and that
/// many calls.
pub open spec fn fuzz_plan(bytes: Seq<u8>) -> Seq<FuzzOpView> {
    let n = ((byte_at(bytes, 0) % 24) + 1) as nat;
    decode_ops(bytes, step(bytes, 0), n).0
}

/// The views of a vector of calls.
pub open spec fn ops_view(v: Seq<FuzzOp>) -> Seq<FuzzOpView> {
    v.map_values(|op: FuzzOp| op@)
}

impl<'a> Cursor<'a> {
    fn next_i32s(&mut self, n: usize) -> (v: Vec<i32>)
        ensures
            final(self)@.0 == old(self)@.0,
            (v@, final(self)@.1) == take_i32s(old(self)@.0, old(self)@.1, n as nat),
    {
        let ghost bytes = self@.0;
        let ghost start = self@.1;
        let mut v: Vec<i32> = Vec::new();
        let mut i: usize = 0;
        while i < n
            invariant
                i <= n,
                self@.0 == bytes,
                (v@, self@.1) == take_i32s(bytes, start, i as nat),
            decreases n - i,
        {
            let x = self.next_u32();
            v.push(#[verifier::truncate] (x as i32));
            i += 1;
        }
        v
    }

    fn next_strings(&mut self, n: usize, max_len: usize) -> (v: Vec<String>)
        requires
            max_len < usize::MAX,
        ensures
            final(self)@.0 == old(self)@.0,
            (strings_view(v@), final(self)@.1) == take_strings(old(self)@.0, old(self)@.1, n as nat, max_len as nat),
    {
        let ghost bytes = self@.0;
        let ghost start = self@.1;
        let mut v: Vec<String> = Vec::new();
        let mut i: usize = 0;
        while i < n
            invariant
                i <= n,
                max_len < usize::MAX,
                self@.0 == bytes,
                (strings_view(v@), self@.1) == take_strings(bytes, start, i as nat, max_len as nat),
            decreases n - i,
        {
            let s = self.string(max_len);
            let ghost before = v@;
            v.push(s);
            proof {
                assert(strings_view(v@) =~= strings_view(before).push(s@));
            }
            i += 1;
        }
        v
    }

    /// Decodes the next call.
    pub fn next_op(&mut self) -> (op: FuzzOp)
        ensures
            final(self)@.0 == old(self)@.0,
            (op@, final(self)@.1) == decode_op(old(self)@.0, old(self)@.1),
    {
        let sel = self.next_u8() % 10;
        if sel == 0 {
            FuzzOp::Echo(self.string(64))
        } else if sel == 1 {
            FuzzOp::Reverse(self.string(64))
        } else if sel == 2 {
            let a = self.next_i64();
            let b = self.next_i64();
            FuzzOp::Divide(a, b)
        } else if sel == 3 {
            FuzzOp::Lookup(self.next_u32())
        } else if sel == 4 {
            FuzzOp::ProcessMessage(self.bytes(1024))
        } else if sel == 5 {
            let count = (self.next_u8() % 8) as usize;
            FuzzOp::Sum(self.next_i32s(count))
        } else if sel == 6 {
            FuzzOp::Generate(self.next_u32() % 16)
        } else if sel == 7 {
            let count = (self.next_u8() % 6) as usize;
            FuzzOp::Transform(self.next_strings(count, 24))
        } else if sel == 8 {
            let x = self.next_u32();
            let y = self.next_u32();
            FuzzOp::EchoPoint(#[verifier::truncate] (x as i32), #[verifier::truncate] (y as i32))
        } else {
            let n = self.next_u32();
            let s = self.string(32);
            FuzzOp::SwapPair(#[verifier::truncate] (n as i32), s)
        }
    }
}

/// The workload a fuzz case selects.
pub fn plan_fuzz_case(data: &[u8]) -> (ops: Vec<FuzzOp>)
    ensures
        ops_view(ops@) == fuzz_plan(data@),
{
    let mut cur = Cursor::new(data);
    let n = ((cur.next_u8() % 24) + 1) as usize;
    let ghost start = cur@.1;
    let mut ops: Vec<FuzzOp> = Vec::new();
    let mut i: usize = 0;
    while i < n
        invariant
            i <= n,
            n == ((byte_at(data@, 0) % 24) + 1) as nat,
            cur@.0 == data@,
            start == step(data@, 0),
            (ops_view(ops@), cur@.1) == decode_ops(data@, start, i as nat),
        decreases n - i,
    {
        let op = cur.next_op();
        let ghost before = ops@;
        ops.push(op);
        proof {
            assert(ops_view(ops@) =~= ops_view(before).push(op@));
        }
        i += 1;
    }
    ops
}

/// Whether the echo of a `Data` message came back reversed, as the service
/// promises.
pub fn process_message_reply_ok(payload: &[u8], ret: &[u8]) -> (ok: bool)
    ensures
        ok == (ret@ == payload@.reverse()),
{
    if ret.len() != payload.len() {
        assert(ret@.len() != payload@.reverse().len());
        return false;
    }
    let n = payload.len();
    let mut i: usize = 0;
    while i < n
        invariant
            n == payload@.len(),
            n == ret@.len(),
            i <= n,
            forall|j: int| 0 <= j < i ==> ret@[j] == payload@[n - 1 - j],
        decreases n - i,
    {
        if ret[i] != payload[n - 1 - i] {
            assert(ret@[i as int] != payload@.reverse()[i as int]);
            return false;
        }
        i += 1;
    }
    assert(ret@ =~= payload@.reverse());
    true
}

proof fn lemma_decode_ops_len(bytes: Seq<u8>, idx: usize, n: nat)
    ensures
        decode_ops(bytes, idx, n).0.len() == n,
    decreases n,
{
    if n > 0 {
        lemma_decode_ops_len(bytes, idx, (n - 1) as nat);
    }
}

/// A fuzz case runs between one and twenty-four calls: as many as its first
/// byte modulo twenty-four, plus one (one call for an empty input).
pub proof fn law_fuzz_plan_length(bytes: Seq<u8>)
    ensures
        1 <= fuzz_plan(bytes).len() <= 24,
        bytes.len() > 0 ==> fuzz_plan(bytes).len() == bytes[0] % 24 + 1,
        bytes.len() == 0 ==> fuzz_plan(bytes).len() == 1,
{
    lemma_decode_ops_len(bytes, step(bytes, 0), ((byte_at(bytes, 0) % 24) + 1) as nat);
}

/// The selector byte picks the call by its value modulo ten: echo, reverse,
/// divide, lookup, process a message, sum, generate, transform, echo a
/// point, swap a pair, in that order.
pub proof fn law_selector_picks_call(bytes: Seq<u8>, idx: usize)
    ensures
        ({
            let sel = byte_at(bytes, idx) % 10;
            let op = decode_op(bytes, idx).0;
            &&& sel == 0 <==> op is Echo
            &&& sel == 1 <==> op is Reverse
            &&& sel == 2 <==> op is Divide
            &&& sel == 3 <==> op is Lookup
            &&& sel == 4 <==> op is ProcessMessage
            &&& sel == 5 <==> op is Sum
            &&& sel == 6 <==> op is Generate
            &&& sel == 7 <==> op is Transform
            &&& sel == 8 <==> op is EchoPoint
            &&& sel == 9 <==> op is SwapPair
        }),
{
}

} // verus!
