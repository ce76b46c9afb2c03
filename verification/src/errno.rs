//! Raw error numbers, read the way `nix` reads them.
//!
//! The session core is handed error numbers as plain `i32` values. What a
//! number means is the business of `nix` and of the platform's C library, so
//! the two questions asked of a number here are put to `nix` itself.

use nix::errno::Errno;
use vstd::prelude::*;

verus! {

/// Whether `nix` reads the raw error number `code` as `EAGAIN`, the error of
/// an operation that found nothing to do yet and would have had to wait.
pub uninterp spec fn errno_would_block(code: i32) -> bool;

/// The text that `nix` displays for the raw error number `code`.
pub uninterp spec fn errno_display(code: i32) -> Seq<char>;

/// Trusted: `nix::errno::Errno::from_raw` maps `code` to an error of `nix`, and
/// the result is compared with `Errno::EAGAIN`. The contract only gives that
/// answer its name; which numbers answer `true` is fixed by the platform.
#[verifier::external_body]
pub(crate) fn is_would_block(code: i32) -> (b: bool)
    ensures
        b == errno_would_block(code),
{
    Errno::from_raw(code) == Errno::EAGAIN
}

/// Trusted: the `Display` form of `nix::errno::Errno::from_raw(code)`, which
/// `nix` writes as the error's name, a colon and a short description. The
/// contract only gives that text its name.
#[verifier::external_body]
pub(crate) fn display_errno(code: i32) -> (text: String)
    ensures
        text@ == errno_display(code),
{
    format!("{}", Errno::from_raw(code))
}

} // verus!
