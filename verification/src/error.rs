//! The recoverable failures of a session, and the reading of the engine's
//! status codes.

use vstd::prelude::*;

verus! {

/// Why an operation of a session did not succeed. Every one of them leaves
/// the caller free to try again.
#[derive(Debug, Clone, Copy, PartialEq, Eq, Structural)]
pub enum Error {
    /// Another guard is alive: release it first.
    GuardConflict,
    /// The engine could not allocate a handle.
    OutOfMemory,
    /// A compilation call returned a non-zero status.
    CompileError,
    /// Emitting a file or resolving a library returned a non-zero status.
    LinkError,
    /// The size query or the copying call of a relocation failed.
    RelocationError,
}

impl Error {
    /// The failure in words.
    pub open spec fn message_spec(self) -> Seq<char> {
        match self {
            Error::GuardConflict => "Try to create TCC instance multiple time"@,
            Error::OutOfMemory => "out of memory"@,
            Error::CompileError => "compilation failed"@,
            Error::LinkError => "linking failed"@,
            Error::RelocationError => "relocation failed"@,
        }
    }

    /// The failure in words. The text of the diagnostics is not part of it:
    /// the engine hands that to the registered closure alone.
    pub fn message(self) -> (m: &'static str)
        ensures
            m@ == self.message_spec(),
    {
        match self {
            Error::GuardConflict => "Try to create TCC instance multiple time",
            Error::OutOfMemory => "out of memory",
            Error::CompileError => "compilation failed",
            Error::LinkError => "linking failed",
            Error::RelocationError => "relocation failed",
        }
    }
}

/// Reads a status code of the engine: zero is success, anything else failure.
pub fn map_c_ret(code: i32) -> (r: Result<(), ()>)
    ensures
        r.is_ok() <==> code == 0,
{
    if code == 0 {
        Ok(())
    } else {
        Err(())
    }
}

/// A status code read as the failure `e` where it is not zero.
pub open spec fn status(code: i32, e: Error) -> Result<(), Error> {
    if code == 0 {
        Ok(())
    } else {
        Err(e)
    }
}

/// Reads a status code of the engine and names the failure.
pub fn map_status(code: i32, e: Error) -> (r: Result<(), Error>)
    ensures
        r == status(code, e),
{
    match map_c_ret(code) {
        Ok(()) => Ok(()),
        Err(()) => Err(e),
    }
}

} // verus!
