//! The bare conduit: a link with message framing and nothing else (no
//! reconnect, no reliability), and the message plan handed over from the
//! handshake.

use crate::handshake::{io_error_text, HandshakeResult};
use crate::phon::Error;
use core::marker::PhantomData;
use vstd::prelude::*;

verus! {

/// Calls `std::io::Error::other` with a message. std documents the result
/// as an error of kind `Other` carrying the message; no clause states that,
/// because an I/O error is opaque here and its kind and text are not given a
/// name (for errors from the operating system both depend on the platform).
/// What is handed to the call is fixed by [`fd_passing_refusal`].
#[verifier::external_body]
fn io_error_other(msg: &str) -> std::io::Error {
    std::io::Error::other(msg.to_string())
}

/// A bidirectional byte link that can be split into its two halves.
pub trait Link: Sized {
    type Tx;
    type Rx;

    fn split(self) -> (Self::Tx, Self::Rx);
}

/// The peer's `Message` envelope schema, carried from the handshake into the
/// conduit's receive half.
pub struct MessagePlan {
    /// The peer's envelope schema closure bytes.
    pub writer_schema: Vec<u8>,
}

impl MessagePlan {
    /// The writer schema is the peer's, or our own when the peer sent none
    /// (our own envelope schema is the one the handshake announced).
    pub fn from_handshake(result: &HandshakeResult) -> (r: Result<MessagePlan, String>)
        ensures
            r matches Ok(p) && p.writer_schema@ == (if result.peer_schema@.len() == 0 {
                result.our_schema@
            } else {
                result.peer_schema@
            }),
    {
        let src = if result.peer_schema.len() == 0 {
            &result.our_schema
        } else {
            &result.peer_schema
        };
        let mut writer_schema: Vec<u8> = Vec::new();
        let mut i: usize = 0;
        while i < src.len()
            invariant
                i <= src.len(),
                writer_schema@ == src@.subrange(0, i as int),
            decreases src.len() - i,
        {
            writer_schema.push(src[i]);
            i += 1;
            assert(writer_schema@ =~= src@.subrange(0, i as int));
        }
        assert(src@.subrange(0, i as int) =~= src@);
        Ok(MessagePlan { writer_schema })
    }
}

/// Wraps a link with message framing. If the link dies, the conduit is dead.
pub struct BareConduit<F, L> {
    link: L,
    _family: PhantomData<F>,
}

impl<F, L> BareConduit<F, L> {
    /// The wrapped link.
    pub closed spec fn link(&self) -> L {
        self.link
    }

    /// Create a new conduit over `link`.
    pub fn new(link: L) -> (r: Self)
        ensures
            r.link() == link,
    {
        BareConduit { link, _family: PhantomData }
    }

    /// Create a new conduit over `link`; the message plan is accepted and
    /// dropped (the envelope is decoded single-schema).
    pub fn with_message_plan(link: L, _message_plan: MessagePlan) -> (r: Self)
        ensures
            r.link() == link,
    {
        Self::new(link)
    }
}

/// A raw file descriptor number travelling beside a frame.
pub type RawFd = i32;

/// The sending half.
pub struct BareConduitTx<F, LTx> {
    link_tx: LTx,
    _family: PhantomData<F>,
}

/// The receiving half, holding the descriptors that arrived with the most
/// recently received frame until they are taken.
pub struct BareConduitRx<F, LRx> {
    link_rx: LRx,
    pending_fds: Vec<RawFd>,
    _family: PhantomData<F>,
}

impl<F, L: Link> BareConduit<F, L> {
    /// Splits into the sending and receiving halves; nothing is pending yet.
    pub fn split(self) -> (r: (BareConduitTx<F, L::Tx>, BareConduitRx<F, L::Rx>))
        ensures
            r.1.pending_fds().len() == 0,
    {
        let (tx, rx) = self.link.split();
        (
            BareConduitTx { link_tx: tx, _family: PhantomData },
            BareConduitRx { link_rx: rx, pending_fds: Vec::new(), _family: PhantomData },
        )
    }
}

impl<F, LTx> BareConduitTx<F, LTx> {
    /// The link half this conduit sends on.
    pub closed spec fn sending_link(&self) -> LTx {
        self.link_tx
    }

    /// The link's sending half.
    pub fn link_tx(&self) -> (r: &LTx)
        ensures
            *r == self.sending_link(),
    {
        &self.link_tx
    }
}

impl<F, LRx> BareConduitRx<F, LRx> {
    /// The descriptors waiting to be taken.
    pub closed spec fn pending_fds(&self) -> Seq<RawFd> {
        self.pending_fds@
    }

    /// The link half this conduit receives on.
    pub closed spec fn receiving_link(&self) -> LRx {
        self.link_rx
    }

    /// The link's receiving half; the descriptors pending stay as they are.
    pub fn link_rx(&mut self) -> (r: &mut LRx)
        ensures
            *r == old(self).receiving_link(),
            final(self).receiving_link() == *final(r),
            final(self).pending_fds() == old(self).pending_fds(),
    {
        &mut self.link_rx
    }

    /// Records the descriptors that arrived with the frame just received,
    /// replacing any not taken.
    pub fn set_frame_fds(&mut self, fds: Vec<RawFd>)
        ensures
            final(self).pending_fds() == fds@,
    {
        self.pending_fds = fds;
    }

    /// Takes the descriptors of the most recent frame, leaving none pending.
    pub fn take_frame_fds(&mut self) -> (r: Vec<RawFd>)
        ensures
            r@ == old(self).pending_fds(),
            final(self).pending_fds().len() == 0,
    {
        let mut taken: Vec<RawFd> = Vec::new();
        core::mem::swap(&mut taken, &mut self.pending_fds);
        taken
    }
}

/// A serialized message plus the descriptors collected while encoding it.
pub struct PreparedFrame {
    pub bytes: Vec<u8>,
    pub fds: Vec<RawFd>,
}

/// Why a conduit operation failed.
pub enum BareConduitError {
    Encode(Error),
    Decode(Error),
    Io(std::io::Error),
    LinkDead,
}

impl BareConduitError {
    /// The error's message, as its `Display` would render it.
    pub fn message(&self) -> (s: String)
        ensures
            match self {
                BareConduitError::Encode(e) => s@ == "encode error: "@ + e.0@,
                BareConduitError::Decode(e) => s@ == "decode error: "@ + e.0@,
                BareConduitError::Io(_) => exists|t: Seq<char>| s@ == "io error: "@ + t,
                BareConduitError::LinkDead => s@ == "link dead"@,
            },
    {
        match self {
            BareConduitError::Encode(e) => String::from_str("encode error: ").concat(e.0.as_str()),
            BareConduitError::Decode(e) => String::from_str("decode error: ").concat(e.0.as_str()),
            BareConduitError::Io(e) => {
                let t = io_error_text(e);
                let s = String::from_str("io error: ").concat(t.as_str());
                assert(s@ == "io error: "@ + t@);
                s
            },
            BareConduitError::LinkDead => String::from_str("link dead"),
        }
    }
}

/// Why a frame with descriptors cannot go over a transport that does not
/// pass them.
pub open spec fn fd_refusal_text() -> Seq<char> {
    "message carries file descriptors but the transport cannot pass them"@
}

/// Whether a prepared frame must be refused before it is sent, and with
/// which message: a frame that carries descriptors can only go over a
/// transport that passes them.
pub fn fd_passing_refusal(frame: &PreparedFrame, supports_fd_passing: bool) -> (r: Option<&'static str>)
    ensures
        r is Some <==> (frame.fds@.len() > 0 && !supports_fd_passing),
        r matches Some(m) ==> m@ == fd_refusal_text(),
{
    if frame.fds.len() > 0 && !supports_fd_passing {
        Some("message carries file descriptors but the transport cannot pass them")
    } else {
        None
    }
}

/// Before a prepared frame is sent: a frame that carries descriptors over a
/// transport that cannot pass them is refused with an I/O error, which
/// `std::io::Error::other` makes from the message of
/// [`fd_passing_refusal`].
pub fn check_fd_passing(frame: &PreparedFrame, supports_fd_passing: bool) -> (r: Result<(), BareConduitError>)
    ensures
        r is Err <==> (frame.fds@.len() > 0 && !supports_fd_passing),
        r matches Err(e) ==> e is Io,
{
    match fd_passing_refusal(frame, supports_fd_passing) {
        Some(m) => Err(BareConduitError::Io(io_error_other(m))),
        None => Ok(()),
    }
}

} // verus!
