//! The errors of the filesystem operations and their messages.

use vstd::prelude::*;
use vstd::string::*;
use crate::host::{HostCall, HostFailure, Request};

verus! {

/// What an operation fails with.
#[derive(Clone, Debug)]
pub enum GameError {
    /// The host failed a call. Holds a message that names the call and the
    /// path, and the host's own failure.
    IOError(String, HostFailure),
    /// A condition that the operation sets was not met, and the host was not
    /// asked to act.
    FileSystemError(String),
}

pub type GameResult<T> = Result<T, GameError>;

/// How the message for a failed host call begins.
pub open spec fn io_context(call: HostCall) -> Seq<char> {
    match call {
        HostCall::Open(_) => "Could not open the file at path ("@,
        HostCall::CreateDirAll => "Could not create the directory at path ("@,
        HostCall::RemoveDir => "Could not remove the directory at path ("@,
        HostCall::RemoveFile => "Could not remove the file at path ("@,
        HostCall::RemoveDirAll => "Error while deleting the directory ("@,
        HostCall::Exists => "Could not look for an entry at path ("@,
        HostCall::Metadata => "Could not get the metadata of the entry at path ("@,
        HostCall::ReadDir => "Could not read the content of the directory at path ("@,
    }
}

/// The message for a failed host call on `path`.
pub open spec fn io_message(call: HostCall, path: Seq<char>) -> Seq<char> {
    io_context(call) + path + ")"@
}

/// The message for a listing asked of something that is no directory.
pub open spec fn not_a_directory_message(path: Seq<char>) -> Seq<char> {
    "the path ("@ + path + ") must be a directory !"@
}

impl GameError {
    /// The message that the error carries.
    pub open spec fn message(&self) -> Seq<char> {
        match self {
            GameError::IOError(m, _) => m@,
            GameError::FileSystemError(m) => m@,
        }
    }

    /// The message that the error carries.
    pub fn description(&self) -> (r: String)
        ensures
            r@ == self.message(),
    {
        match self {
            GameError::IOError(m, _) => m.clone(),
            GameError::FileSystemError(m) => m.clone(),
        }
    }

    /// Whether the error reports a failure of the host.
    pub fn is_io_error(&self) -> (r: bool)
        ensures
            r == (self is IOError),
    {
        match self {
            GameError::IOError(_, _) => true,
            GameError::FileSystemError(_) => false,
        }
    }
}

/// The beginning of the message for a failed host call.
pub fn context_of(call: HostCall) -> (r: &'static str)
    ensures
        r@ == io_context(call),
{
    match call {
        HostCall::Open(_) => "Could not open the file at path (",
        HostCall::CreateDirAll => "Could not create the directory at path (",
        HostCall::RemoveDir => "Could not remove the directory at path (",
        HostCall::RemoveFile => "Could not remove the file at path (",
        HostCall::RemoveDirAll => "Error while deleting the directory (",
        HostCall::Exists => "Could not look for an entry at path (",
        HostCall::Metadata => "Could not get the metadata of the entry at path (",
        HostCall::ReadDir => "Could not read the content of the directory at path (",
    }
}

/// The error for a host call that failed: it names the call and the path, and
/// keeps the host's failure as it came.
pub fn io_error(request: &Request, failure: HostFailure) -> (r: GameError)
    ensures
        r matches GameError::IOError(m, f) && m@ == io_message(request.call, request.path@) && f
            == failure,
{
    let mut message = String::from_str(context_of(request.call));
    message.append(request.path.as_str());
    message.append(")");
    GameError::IOError(message, failure)
}

/// The error for a listing asked of a path that leads to no directory.
pub fn not_a_directory(path: &str) -> (r: GameError)
    ensures
        r matches GameError::FileSystemError(m) && m@ == not_a_directory_message(path@),
{
    let mut message = String::from_str("the path (");
    message.append(path);
    message.append(") must be a directory !");
    GameError::FileSystemError(message)
}

} // verus!
