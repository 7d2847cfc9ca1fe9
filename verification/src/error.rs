//! The ways in which handling a connection can fail.

use vstd::prelude::*;

verus! {

/// Why a payload did not decode.
#[derive(Clone, Copy, Debug, PartialEq, Eq, Structural)]
pub enum DecodeFault {
    /// The bytes end before the value does.
    UnexpectedEnd,
    /// An integer is announced with a width that its type cannot hold.
    InvalidIntegerType,
    /// The message kind is none of the known ones.
    UnexpectedVariant,
    /// A text field is not UTF-8.
    Utf8,
    /// A length does not fit the machine's address range.
    OutsideUsizeRange,
    /// Any other refusal of the decoder.
    Other,
}

/// The step of a connection at which the operating system refused.
#[derive(Clone, Copy, Debug, PartialEq, Eq, Structural)]
pub enum IoStage {
    /// Accepting a connection.
    Accept,
    /// Reading the request from the connection.
    ReadRequest,
    /// Creating the workspace directory.
    CreateWorkspace,
    /// Writing the source file.
    WriteSource,
    /// Reading a line of the interpreter's output, or waiting for its exit.
    ReadOutput,
    /// Writing a line to the connection.
    Relay,
    /// Removing the workspace directory.
    RemoveWorkspace,
}

/// The error with which the handling of a connection, or the listener, ends.
#[derive(Clone, Copy, Debug, PartialEq, Eq, Structural)]
pub enum HandlerError {
    /// The listening endpoint could not be acquired.
    ListenerError { port: u16 },
    /// A file system or stream operation failed.
    IoError(IoStage),
    /// The framed payload is truncated or malformed.
    DecodeError(DecodeFault),
    /// A message could not be encoded. Reserved: nothing is encoded yet.
    EncodeError,
    /// The interpreter could not be launched.
    SpawnError,
    /// An output pipe of the interpreter could not be obtained.
    ProcessIOError,
}

} // verus!
