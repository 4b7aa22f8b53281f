//! Errors of the file-system layer.

use vstd::prelude::*;

verus! {

/// The ways an operation on a file-system node can fail.
#[derive(Clone, Copy, Debug, PartialEq, Eq, Structural)]
pub enum VfsError {
    /// An entity of that name exists already.
    AlreadyExists,
    /// A user address cannot be used.
    BadAddress,
    /// The descriptor does not allow the operation.
    BadFileDescriptor,
    /// The device does not know the command.
    BadIoctl,
    /// The descriptor is a pipe where none will do.
    BrokenPipe,
    /// A directory that must be empty is not.
    DirectoryNotEmpty,
    /// The data handed over is malformed.
    InvalidData,
    /// A parameter is out of its range.
    InvalidInput,
    /// The node is a directory where a file is needed.
    IsADirectory,
    /// The node is not a directory where one is needed.
    NotADirectory,
    /// The descriptor is no socket.
    NotASocket,
    /// No entity of that name exists.
    NotFound,
    /// The protocol has no such option.
    NoProtocolOption,
    /// The node does not allow the operation at all.
    OperationNotPermitted,
    /// A result does not fit the room given for it.
    OutOfRange,
    /// Every descriptor is in use.
    TooManyOpenFiles,
    /// The operation is not provided.
    Unsupported,
    /// The operation would have to wait.
    WouldBlock,
}

} // verus!
