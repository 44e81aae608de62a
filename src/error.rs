//! Error codes of the register-map engine and their mapping into `Result`.

use vstd::prelude::*;

verus! {

/// Largest error number that the engine encodes in a return code or pointer.
pub const MAX_ERRNO: i32 = 4095;

/// Out of memory.
pub const ENOMEM: i32 = 12;

/// A failure reported by the register-map engine, holding its return code.
///
/// Codes are carried unmodified: a failed read that returned `-5` gives an
/// `Error` whose code is `-5`.
#[derive(Clone, Copy, Debug, PartialEq, Eq, Structural)]
pub struct Error {
    code: i32,
}

impl Error {
    /// The code carried by this error.
    pub closed spec fn spec_code(&self) -> i32 {
        self.code
    }

    /// Wraps an engine return code.
    pub fn from_errno(code: i32) -> (e: Error)
        ensures
            e.spec_code() == code,
    {
        Error { code }
    }

    /// The out-of-memory error, raised when a projection cannot allocate.
    pub fn enomem() -> (e: Error)
        ensures
            e.spec_code() == -ENOMEM,
    {
        Error { code: -ENOMEM }
    }

    /// The engine return code that this error carries.
    pub fn to_errno(&self) -> (code: i32)
        ensures
            code == self.spec_code(),
    {
        self.code
    }
}

/// Maps the return code of an engine call that yields no value: `0` is
/// success, every other code is an error that carries it.
pub fn to_result(code: i32) -> (r: Result<(), Error>)
    ensures
        code == 0 ==> r is Ok,
        code != 0 ==> r is Err && r->Err_0.spec_code() == code,
{
    if code == 0 {
        Ok(())
    } else {
        Err(Error::from_errno(code))
    }
}

/// Maps the outcome of a scalar register read: the value read when the engine
/// returned `0`, otherwise an error that carries the code.
pub fn read_result(code: i32, val: u32) -> (r: Result<u32, Error>)
    ensures
        code == 0 ==> r == Ok::<u32, Error>(val),
        code != 0 ==> r is Err && r->Err_0.spec_code() == code,
{
    match code {
        0 => Ok(val),
        e => Err(Error::from_errno(e)),
    }
}

} // verus!
