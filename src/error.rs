use vstd::prelude::*;
use vstd::string::StringExecFns;

verus! {

/// Why a byte string could not be read as the value it was expected to hold.
#[derive(Debug, Clone, Copy, PartialEq, Eq, Structural)]
pub enum DecodeError {
    /// The input ended before the value did.
    Truncated,
    /// A length-prefixed sequence declared a negative element count.
    NegativeCount,
    /// A string's bytes are not valid UTF-8.
    InvalidUtf8,
    /// An enumerated wire value has no variant.
    InvalidTag(u8),
    /// Bytes were left over after a complete value.
    TrailingBytes,
}

/// Why a debugger operation failed.
#[derive(Debug, Clone, PartialEq, Eq)]
pub enum JdwpError {
    /// The debuggee did not echo the handshake token.
    HandshakeFailed,
    /// The debuggee rejected a command with this JDWP error code.
    ErrorCode(u16),
    /// A reply body did not hold what its command declares.
    Decode(DecodeError),
    /// A reply frame's length field does not describe the frame.
    MalformedFrame,
    /// A reply answered a request other than the one outstanding.
    IdMismatch { expected: u32, found: u32 },
    /// A frame expected to be a reply lacks the reply flag.
    NotAReply,
    /// A request does not fit a frame, or an argument does not fit its wire form.
    RequestTooLarge,
    /// The connection ended after a malformed reply or a stream failure.
    ConnectionFailed,
    /// Every correlation id of the connection has been used.
    IdsExhausted,
    /// A command was issued before identifier sizes were negotiated.
    NotReady,
    /// The debuggee uses identifier widths other than eight bytes.
    UnsupportedIdSize,
    /// A looked-up item is not among those the debuggee listed.
    NotFound,
    /// The backend does not offer this capability.
    Unsupported,
    /// A protocol violation described in words.
    Protocol(String),
    /// The stream to the debuggee failed.
    Io(String),
}

/// The text that starts every protocol-violation message.
pub open spec fn protocol_prefix() -> Seq<char> {
    "JDWP Protocol Error: "@
}

/// A protocol-violation error whose message is `msg` after a fixed prefix.
pub fn protocol_err(msg: &str) -> (r: JdwpError)
    ensures
        r matches JdwpError::Protocol(s) && s@ == protocol_prefix() + msg@,
{
    let mut s = String::from_str("JDWP Protocol Error: ");
    proof {
        reveal_strlit("JDWP Protocol Error: ");
    }
    s.append(msg);
    JdwpError::Protocol(s)
}

} // verus!
