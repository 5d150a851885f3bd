//! Operating-system error numbers as the rest of the library carries them.
//!
//! The numbers are Linux's: an image is mounted through the Linux mount
//! interface, and the library builds for no other system.

use vstd::prelude::*;

verus! {

/// Operation not permitted.
pub const EPERM: i32 = 1;

/// No such file or directory.
pub const ENOENT: i32 = 2;

/// Invalid argument.
pub const EINVAL: i32 = 22;

/// The discriminant of the `nix::errno::Errno` that `Errno::from_raw` picks
/// for `raw`, in the errno table of the target the library is built for.
pub uninterp spec fn errno_of_raw(raw: i32) -> i32;

/// Calls `nix::errno::Errno::from_raw` and reads the variant back as a number.
///
/// Not proved, taken from the errno table in nix: a number that the table
/// lists comes back unchanged, since each variant's discriminant is the
/// constant it is matched from; any other number gives `UnknownErrno`, which
/// is 0. The table lists `EPERM`, which is 1 on Linux.
#[verifier::external_body]
fn errno_from_raw(raw: i32) -> (code: i32)
    ensures
        code == errno_of_raw(raw),
        code == raw || code == 0,
        raw == EPERM ==> code == EPERM,
{
    nix::errno::Errno::from_raw(raw) as i32
}

/// The number a failed call is recorded under when the standard library
/// reported it with `raw` as its OS error number, if it had one.
pub open spec fn recorded_code(raw: Option<i32>) -> i32 {
    match raw {
        Some(number) => errno_of_raw(number),
        None => EPERM,
    }
}

/// Turns the optional OS error number of a failed standard-library call into
/// the number the library records: an error without a number counts as
/// `EPERM`, and a number is looked up in nix's errno table, which keeps the
/// numbers it lists and turns every other into 0.
pub fn os_error_code(raw: Option<i32>) -> (code: i32)
    ensures
        code == recorded_code(raw),
        raw matches Some(number) ==> code == number || code == 0,
{
    match raw {
        Some(number) => errno_from_raw(number),
        None => errno_from_raw(EPERM),
    }
}

} // verus!
