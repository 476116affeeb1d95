use vstd::prelude::*;

verus! {

/// The failures that operations of this library report.
#[derive(Clone, Copy, Debug, PartialEq, Eq, Structural)]
pub enum Error {
    /// A kernel call failed; `errno` is the error number it reported.
    Os { errno: i64 },
    /// Text handed over by the kernel is not valid UTF-8.
    InvalidData,
    /// A caller-supplied value cannot be encoded for the kernel interface
    /// (a name or path with an interior NUL byte, a buffer too large).
    InvalidInput,
    /// A kernel call that hands out an object returned none and no error.
    NullObject,
}

/// The error that a kernel call returning `ret` reports.
pub open spec fn os_error(ret: int) -> Error {
    Error::Os { errno: (-ret) as i64 }
}

/// The meaning of a status code: negative is an error, anything else success.
pub open spec fn ret_outcome(ret: i32) -> Result<(), Error> {
    if ret < 0 {
        Err(os_error(ret as int))
    } else {
        Ok(())
    }
}

/// Interprets the status code of a kernel call.
pub fn parse_ret(ret: i32) -> (r: Result<(), Error>)
    ensures
        r == ret_outcome(ret),
{
    if ret < 0 {
        Err(Error::Os { errno: -(ret as i64) })
    } else {
        Ok(())
    }
}

/// Interprets the return value of a kernel call that yields a value (such
/// as a file descriptor) on success.
pub fn parse_ret_i32(ret: i32) -> (r: Result<i32, Error>)
    ensures
        ret < 0 ==> r == Err::<i32, Error>(os_error(ret as int)),
        ret >= 0 ==> r == Ok::<i32, Error>(ret),
{
    if ret < 0 {
        Err(Error::Os { errno: -(ret as i64) })
    } else {
        Ok(ret)
    }
}

} // verus!
