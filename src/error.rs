//! The errors of the library.
use vstd::prelude::*;

verus! {

/// The kinds of input/output failure that the supervisor tells apart.
#[derive(Clone, Copy, Debug, PartialEq, Eq, Structural)]
pub enum IoKind {
    ConnectionReset,
    ConnectionAborted,
    BrokenPipe,
    TimedOut,
    Other,
}

/// Everything that can go wrong in the codec, the handshake and the session.
#[derive(Clone, Debug, PartialEq, Eq)]
pub enum Error {
    /// The first four bytes are not a known magic number.
    BadMagic,
    /// The buffer ends before the message does.
    Truncated,
    /// The body does not have the shape that its header announces.
    MalformedPayload,
    /// The transport closed.
    DroppedConnection,
    /// The transport stopped answering.
    TimeoutDisconnected,
    /// A message could not be handed to the writer.
    TokioBcSendError,
    /// The camera refused the credentials.
    CameraLoginFail,
    /// The camera answered a request with a code other than success.
    CameraServiceUnavailable { id: u32, code: u16 },
    /// The reply has a shape other than the one expected.
    UnintelligibleReply { id: u32, why: &'static str },
    /// The firmware lacks the named capability.
    AbilityMissing(String),
    /// A subscriber did not keep up and was dropped.
    SlowConsumer,
    /// The transport failed.
    Io(IoKind),
    /// A request that cannot be carried out, and why.
    Other(&'static str),
}

} // verus!
