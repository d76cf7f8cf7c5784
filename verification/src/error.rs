//! Error values of the codec and of the stream layer.

use vstd::prelude::*;
use vstd::std_specs::convert::FromSpecImpl;

verus! {

/// Why a payload could not be decoded.
#[derive(Clone, Copy, Debug, PartialEq, Eq, Structural)]
pub enum DecodeFault {
    /// The bytes ended before the value was complete.
    UnexpectedEnd,
    /// An integer starts with a marker byte that its type does not admit.
    InvalidIntegerType,
    /// The tag names no variant of the message type.
    UnexpectedVariant { found: u32 },
    /// Any other fault that the integer codec reports.
    Other,
}

/// Why a message could not be encoded.
#[derive(Clone, Copy, Debug, PartialEq, Eq, Structural)]
pub enum EncodeFault {
    /// The payload is longer than a 32-bit length prefix can state.
    PayloadTooLarge,
    /// The integer codec reported a fault.
    Codec,
}

/// How a connection ended or failed, as the transport reports it.
#[derive(Clone, Copy, Debug, PartialEq, Eq, Structural)]
pub enum ConnectionFault {
    /// The peer implements no supported protocol version.
    VersionMismatch,
    /// The peer violated the transport protocol.
    TransportError,
    /// The peer's transport layer aborted the connection.
    ConnectionClosed,
    /// The peer's application closed the connection.
    ApplicationClosed,
    /// The peer lost its state and reset the connection.
    Reset,
    /// The peer fell silent for too long.
    TimedOut,
    /// This side closed the connection.
    LocallyClosed,
    /// No connection identifier is left to use.
    CidsExhausted,
}

/// Why a write on a stream failed.
#[derive(Clone, Copy, Debug, PartialEq, Eq, Structural)]
pub enum WriteFault {
    /// The peer no longer reads the stream; it gave this code.
    Stopped(u64),
    /// The connection was lost.
    ConnectionLost(ConnectionFault),
    /// The stream was finished or reset before.
    ClosedStream,
    /// The peer refused the early data that held this stream.
    ZeroRttRejected,
}

/// Why a read on a stream failed.
#[derive(Clone, Copy, Debug, PartialEq, Eq, Structural)]
pub enum ReadFault {
    /// The peer gave the stream up; it gave this code.
    Reset(u64),
    /// The connection was lost.
    ConnectionLost(ConnectionFault),
    /// The stream was closed before.
    ClosedStream,
    /// An ordered read followed an unordered one.
    IllegalOrderedRead,
    /// The peer refused the early data that held this stream.
    ZeroRttRejected,
}

/// Why a read of an exact number of bytes failed.
#[derive(Clone, Copy, Debug, PartialEq, Eq, Structural)]
pub enum ReadExactFault {
    /// The stream ended between two messages: no byte of a further message
    /// arrived.
    EndOfStream,
    /// The stream ended inside a message, after this many bytes of the part
    /// that was being read.
    FinishedEarly(usize),
    /// The transport failed.
    ReadError(ReadFault),
}

/// What can go wrong when a message is sent or received.
#[derive(Clone, Copy, Debug, PartialEq, Eq, Structural)]
pub enum CoreError {
    DecodeError(DecodeFault),
    EncodeError(EncodeFault),
    WriteError(WriteFault),
    ReadExactError(ReadExactFault),
}

/// What can go wrong in a server.
#[derive(Clone, Copy, Debug, PartialEq, Eq, Structural)]
pub enum ServerError {
    /// A message could not be sent or received.
    CoreError(CoreError),
    /// The connection failed.
    ConnectionError(ConnectionFault),
    /// The transport could not be set up.
    Error,
    /// A file or a socket could not be used.
    IoError,
    /// The listen address names no socket.
    InvalidAddress,
    EncodeError(EncodeFault),
    DecodeError(DecodeFault),
    WriteError(WriteFault),
    ReadExactError(ReadExactFault),
}

impl From<DecodeFault> for CoreError {
    fn from(fault: DecodeFault) -> (error: CoreError) {
        CoreError::DecodeError(fault)
    }
}

impl FromSpecImpl<DecodeFault> for CoreError {
    open spec fn obeys_from_spec() -> bool {
        true
    }

    open spec fn from_spec(fault: DecodeFault) -> CoreError {
        CoreError::DecodeError(fault)
    }
}

impl From<EncodeFault> for CoreError {
    fn from(fault: EncodeFault) -> (error: CoreError) {
        CoreError::EncodeError(fault)
    }
}

impl FromSpecImpl<EncodeFault> for CoreError {
    open spec fn obeys_from_spec() -> bool {
        true
    }

    open spec fn from_spec(fault: EncodeFault) -> CoreError {
        CoreError::EncodeError(fault)
    }
}

impl From<WriteFault> for CoreError {
    fn from(fault: WriteFault) -> (error: CoreError) {
        CoreError::WriteError(fault)
    }
}

impl FromSpecImpl<WriteFault> for CoreError {
    open spec fn obeys_from_spec() -> bool {
        true
    }

    open spec fn from_spec(fault: WriteFault) -> CoreError {
        CoreError::WriteError(fault)
    }
}

impl From<ReadExactFault> for CoreError {
    fn from(fault: ReadExactFault) -> (error: CoreError) {
        CoreError::ReadExactError(fault)
    }
}

impl FromSpecImpl<ReadExactFault> for CoreError {
    open spec fn obeys_from_spec() -> bool {
        true
    }

    open spec fn from_spec(fault: ReadExactFault) -> CoreError {
        CoreError::ReadExactError(fault)
    }
}

impl From<CoreError> for ServerError {
    fn from(fault: CoreError) -> (error: ServerError) {
        ServerError::CoreError(fault)
    }
}

impl FromSpecImpl<CoreError> for ServerError {
    open spec fn obeys_from_spec() -> bool {
        true
    }

    open spec fn from_spec(fault: CoreError) -> ServerError {
        ServerError::CoreError(fault)
    }
}

impl From<ConnectionFault> for ServerError {
    fn from(fault: ConnectionFault) -> (error: ServerError) {
        ServerError::ConnectionError(fault)
    }
}

impl FromSpecImpl<ConnectionFault> for ServerError {
    open spec fn obeys_from_spec() -> bool {
        true
    }

    open spec fn from_spec(fault: ConnectionFault) -> ServerError {
        ServerError::ConnectionError(fault)
    }
}

impl From<EncodeFault> for ServerError {
    fn from(fault: EncodeFault) -> (error: ServerError) {
        ServerError::EncodeError(fault)
    }
}

impl FromSpecImpl<EncodeFault> for ServerError {
    open spec fn obeys_from_spec() -> bool {
        true
    }

    open spec fn from_spec(fault: EncodeFault) -> ServerError {
        ServerError::EncodeError(fault)
    }
}

impl From<DecodeFault> for ServerError {
    fn from(fault: DecodeFault) -> (error: ServerError) {
        ServerError::DecodeError(fault)
    }
}

impl FromSpecImpl<DecodeFault> for ServerError {
    open spec fn obeys_from_spec() -> bool {
        true
    }

    open spec fn from_spec(fault: DecodeFault) -> ServerError {
        ServerError::DecodeError(fault)
    }
}

impl From<WriteFault> for ServerError {
    fn from(fault: WriteFault) -> (error: ServerError) {
        ServerError::WriteError(fault)
    }
}

impl FromSpecImpl<WriteFault> for ServerError {
    open spec fn obeys_from_spec() -> bool {
        true
    }

    open spec fn from_spec(fault: WriteFault) -> ServerError {
        ServerError::WriteError(fault)
    }
}

impl From<ReadExactFault> for ServerError {
    fn from(fault: ReadExactFault) -> (error: ServerError) {
        ServerError::ReadExactError(fault)
    }
}

impl FromSpecImpl<ReadExactFault> for ServerError {
    open spec fn obeys_from_spec() -> bool {
        true
    }

    open spec fn from_spec(fault: ReadExactFault) -> ServerError {
        ServerError::ReadExactError(fault)
    }
}

} // verus!
