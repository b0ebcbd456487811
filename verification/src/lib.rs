//! Retrieval of the local machine's host name as the operating system
//! reports it, returned as a raw byte sequence with no encoding guarantee.
//!
//! The POSIX-family retrieval reads the node name field of the kernel's
//! system-identification structure. The wide-character retrieval used on
//! Windows needs a two-call size-then-fill protocol; its decision logic is
//! in [`wide`], so that the caller performing the system calls only has to
//! hand the raw results over.

use vstd::prelude::*;

pub mod wide;

verus! {

/// Relies on rustix::system::uname: `nodename` is the NUL-terminated node
/// name field, and `to_bytes` yields its bytes up to (not including) the
/// terminator, so no byte of the result is zero.
#[verifier::external_body]
fn uname_nodename() -> (r: Vec<u8>)
    ensures
        forall|i: int| 0 <= i < r@.len() ==> r@[i] != 0u8,
{
    rustix::system::uname().nodename().to_bytes().to_vec()
}

/// The standard host name for the current machine, as raw bytes.
///
/// The node name is read from the kernel's system-identification structure.
/// The result carries no trailing terminator: the terminator in the kernel's
/// buffer marks the end of the name and is not part of it.
pub fn gethostname() -> (r: Vec<u8>)
    ensures
        forall|i: int| 0 <= i < r@.len() ==> r@[i] != 0u8,
{
    uname_nodename()
}

} // verus!
