//! The system's error numbers, as the platform defines them. Their
//! values differ between platforms, so the drivers are handed them.

use vstd::prelude::*;

verus! {

/// The error numbers that the drivers tell apart.
#[derive(Debug, Clone, Copy)]
pub struct Errno {
    /// Operation already in progress.
    pub ealready: i32,
    /// No such device.
    pub enodev: i32,
    /// Operation not supported.
    pub enotsup: i32,
    /// No such file or directory.
    pub enoent: i32,
    /// Not enough memory.
    pub enomem: i32,
    /// Timed out.
    pub etimedout: i32,
}

/// Whether a return code reports the error `code`: it is its negative.
pub open spec fn reports(rc: i32, code: i32) -> bool {
    rc + code == 0
}

/// Whether a return code reports the error `code`.
pub fn is_error(rc: i32, code: i32) -> (reported: bool)
    ensures
        reported == reports(rc, code),
{
    rc as i64 + code as i64 == 0
}

/// The error number that a failed return code carries: its negative,
/// which for the least return code is that code itself.
pub open spec fn error_number(rc: i32) -> i32 {
    if rc == i32::MIN {
        rc
    } else {
        (-rc) as i32
    }
}

/// The error number that a failed return code carries.
pub fn error_of(rc: i32) -> (number: i32)
    ensures
        number == error_number(rc),
{
    if rc == i32::MIN {
        rc
    } else {
        -rc
    }
}

} // verus!
