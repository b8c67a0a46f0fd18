//! The check that a detach redirects a standard stream that was closed before:
//! which one to close, and what to make of what is found afterwards.

use vstd::prelude::*;

use crate::spawn::inherited::S_IFMT;
use crate::text::{chars_of, i32_value, lemma_i32_is_read_back, parse_i32, signed_decimal};

verus! {

/// The file type of a character device.
pub const S_IFCHR: u32 = 0o020000;

/// The exit code for bad arguments.
pub const EXIT_BAD_ARGUMENT: i32 = 2;

/// The exit code for a detach that failed.
pub const EXIT_DETACH_FAILED: i32 = 3;

/// The exit code for a standard descriptor that is closed.
pub const EXIT_STILL_CLOSED: i32 = 4;

/// The exit code for a standard descriptor that is open on something else.
pub const EXIT_NOT_DEV_NULL: i32 = 5;

/// The exit code for a check that could not be set up.
pub const EXIT_SETUP_FAILED: i32 = 6;

/// The standard descriptor that the argument names: 0, 1 or 2.
pub fn preclosed_target(arg: Option<&str>) -> (target: Option<i32>)
    ensures
        target == match arg {
            Some(text) => match i32_value(text@) {
                Some(n) => if 0 <= n <= 2 {
                    Some(n as i32)
                } else {
                    None
                },
                None => None,
            },
            None => None,
        },
{
    match arg {
        Some(text) => {
            let chars = chars_of(text);
            match parse_i32(chars.as_slice()) {
                Some(n) => if 0 <= n && n <= 2 {
                    Some(n)
                } else {
                    None
                },
                None => None,
            }
        },
        None => None,
    }
}

/// What is wrong with a standard descriptor after a detach, as an exit code,
/// given its file mode and device where it is open: it has to be the character
/// device that `/dev/null` is.
pub fn std_fd_fault(stat: Option<(u32, u64)>, dev_null: u64) -> (fault: Option<i32>)
    ensures
        fault == match stat {
            None => Some(EXIT_STILL_CLOSED),
            Some((mode, device)) => if mode & S_IFMT == S_IFCHR && device == dev_null {
                None
            } else {
                Some(EXIT_NOT_DEV_NULL)
            },
        },
{
    match stat {
        None => Some(EXIT_STILL_CLOSED),
        Some((mode, device)) => if mode & S_IFMT != S_IFCHR || device != dev_null {
            Some(EXIT_NOT_DEV_NULL)
        } else {
            None
        },
    }
}

/// The numerals of the three standard descriptors name them, and those of all
/// other numbers name none.
pub proof fn law_target_is_named_by_its_number(n: i32, arg: &str, target: Option<i32>, none: Option<i32>)
    requires
        arg@ == signed_decimal(n as int),
        call_ensures(preclosed_target, (Some(arg),), target),
        call_ensures(preclosed_target, (None::<&str>,), none),
    ensures
        0 <= n <= 2 ==> target == Some(n),
        !(0 <= n <= 2) ==> target is None,
        none is None,
{
    lemma_i32_is_read_back(n);
}

/// A descriptor passes the check exactly where it is open on the character device
/// that `/dev/null` is, and a closed one is told from one that is open on
/// something else.
pub proof fn law_only_dev_null_passes(
    stat: Option<(u32, u64)>,
    dev_null: u64,
    fault: Option<i32>,
)
    requires
        call_ensures(std_fd_fault, (stat, dev_null), fault),
    ensures
        fault is None <==> (stat matches Some((mode, device)) && mode & S_IFMT == S_IFCHR && device
            == dev_null),
        stat is None ==> fault == Some(4i32),
        stat is Some && fault is Some ==> fault == Some(5i32),
        S_IFCHR == 0o020000 && S_IFMT == 0o170000,
{
}

} // verus!
