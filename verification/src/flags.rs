//! Descriptor status flags, with the non-blocking flag added the way `nix`
//! adds it.
//!
//! Flags travel through the session core as the plain `i32` that the
//! operating system hands out. Which bit asks for non-blocking reads depends
//! on the platform, so setting it is left to `nix`. Every bit that the
//! descriptor had stays as it was, whether `nix` has a name for it or not.

use nix::fcntl::OFlag;
use vstd::prelude::*;

verus! {

/// The raw status flags `bits` with the non-blocking flag of `nix` added.
pub uninterp spec fn with_nonblock(bits: i32) -> i32;

/// The bits of the non-blocking flag: what adding it to no flags at all
/// gives.
pub open spec fn nonblock_bits() -> i32 {
    with_nonblock(0)
}

/// The flags to write back to a descriptor whose current flags are `current`
/// so that reads from it stop blocking: the current flags together with the
/// non-blocking flag.
pub open spec fn nonblocking_flags_spec(current: i32) -> i32 {
    current | nonblock_bits()
}

/// Trusted: `nix::fcntl::OFlag::insert` with `OFlag::O_NONBLOCK`, on the flag
/// set that `OFlag::from_bits_retain` makes of exactly `bits`. The result has
/// its name, and, as `insert` is the bitwise or of the two flag sets, it is
/// `bits` or-ed with what the same call makes of zero.
#[verifier::external_body]
fn insert_nonblock(bits: i32) -> (flags: i32)
    ensures
        flags == with_nonblock(bits),
        flags == bits | with_nonblock(0),
{
    let mut flags = OFlag::from_bits_retain(bits);
    flags.insert(OFlag::O_NONBLOCK);
    flags.bits()
}

/// Computes the status flags that make a descriptor non-blocking from the
/// flags it has now: every flag it has is kept, the non-blocking flag is set,
/// and nothing else changes.
pub fn nonblocking_flags(current: i32) -> (flags: i32)
    ensures
        flags == nonblocking_flags_spec(current),
        flags & current == current,
        flags & nonblock_bits() == nonblock_bits(),
        flags & !(current | nonblock_bits()) == 0,
{
    let flags = insert_nonblock(current);
    proof {
        lemma_only_the_nonblocking_flag_changes(current);
    }
    flags
}

/// Setting the non-blocking flag keeps every bit of the current flags, sets
/// the bits of the flag, and sets no bit besides these.
pub proof fn lemma_only_the_nonblocking_flag_changes(current: i32)
    ensures
        nonblocking_flags_spec(current) & current == current,
        nonblocking_flags_spec(current) & nonblock_bits() == nonblock_bits(),
        nonblocking_flags_spec(current) & !(current | nonblock_bits()) == 0,
{
    let flag = nonblock_bits();
    assert((current | flag) & current == current) by (bit_vector);
    assert((current | flag) & flag == flag) by (bit_vector);
    assert((current | flag) & !(current | flag) == 0) by (bit_vector);
}

/// Setting the non-blocking flag a second time changes nothing.
pub proof fn lemma_nonblocking_flags_settle(current: i32)
    ensures
        nonblocking_flags_spec(nonblocking_flags_spec(current)) == nonblocking_flags_spec(
            current,
        ),
{
    let flag = nonblock_bits();
    assert(((current | flag) | flag) == (current | flag)) by (bit_vector);
}

/// A descriptor that is non-blocking already gets its own flags written
/// back.
pub proof fn lemma_nonblocking_already_set(current: i32)
    ensures
        current & nonblock_bits() == nonblock_bits() ==> nonblocking_flags_spec(current)
            == current,
{
    let flag = nonblock_bits();
    assert(current & flag == flag ==> (current | flag) == current) by (bit_vector);
}

} // verus!
