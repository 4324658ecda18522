//! Seals and file types of open files.

use vstd::prelude::*;

verus! {

/// `libc::F_SEAL_SEAL`: the seal that forbids further sealing, the bit 0x0001 of
/// `fcntl.h`.
#[verifier::external_body]
fn seal_seal() -> (flag: i32)
    ensures
        flag == 0x0001,
{
    libc::F_SEAL_SEAL
}

/// `libc::F_SEAL_SHRINK`: the seal that forbids shrinking, the bit 0x0002 of
/// `fcntl.h`.
#[verifier::external_body]
fn seal_shrink() -> (flag: i32)
    ensures
        flag == 0x0002,
{
    libc::F_SEAL_SHRINK
}

/// `libc::F_SEAL_GROW`: the seal that forbids growing, the bit 0x0004 of `fcntl.h`.
#[verifier::external_body]
fn seal_grow() -> (flag: i32)
    ensures
        flag == 0x0004,
{
    libc::F_SEAL_GROW
}

/// `libc::F_SEAL_WRITE`: the seal that forbids writing, the bit 0x0008 of `fcntl.h`.
#[verifier::external_body]
fn seal_write() -> (flag: i32)
    ensures
        flag == 0x0008,
{
    libc::F_SEAL_WRITE
}

/// The seals of a file, as `fcntl` takes them.
#[derive(Clone, Copy, Debug, PartialEq, Eq, Structural)]
pub struct Seals {
    /// The file cannot shrink.
    pub shrink: bool,
    /// The file cannot grow.
    pub grow: bool,
    /// The file cannot be written to.
    pub write: bool,
    /// The seals of the file cannot be changed.
    pub seal: bool,
}

impl Seals {
    /// The bits that stand for the seals.
    pub open spec fn bits(self) -> i32 {
        ((if self.seal { 1i32 } else { 0i32 }) + (if self.shrink { 2i32 } else { 0i32 }) + (
        if self.grow { 4i32 } else { 0i32 }) + (if self.write { 8i32 } else { 0i32 })) as i32
    }

    /// All four seals.
    pub open spec fn all() -> Seals {
        Seals { shrink: true, grow: true, write: true, seal: true }
    }

    /// Returns the bits that stand for the seals.
    pub fn flags(self) -> (bits: i32)
        ensures
            bits == self.bits(),
            0 <= bits <= 15,
    {
        let mut bits: i32 = 0;
        if self.seal {
            bits = bits + seal_seal();
        }
        if self.shrink {
            bits = bits + seal_shrink();
        }
        if self.grow {
            bits = bits + seal_grow();
        }
        if self.write {
            bits = bits + seal_write();
        }
        bits
    }
}

/// Returns the seals that are put on a memory file before it is handed on, as `fcntl`
/// takes them: it can no longer shrink, grow or be written to, and its seals can no
/// longer be changed.
pub fn seal_all() -> (bits: i32)
    ensures
        bits == Seals::all().bits(),
        bits == 15,
{
    (Seals { shrink: true, grow: true, write: true, seal: true }).flags()
}

/// What sealing came to: `fcntl` returns a negative number where it fails, and then
/// `code` is the error code of the system.
pub fn seal(returned: i32, code: i32) -> (r: Result<(), i32>)
    ensures
        r == if returned < 0 {
            Err::<(), i32>(code)
        } else {
            Ok::<(), i32>(())
        },
{
    if returned < 0 {
        Err(code)
    } else {
        Ok(())
    }
}

} // verus!
