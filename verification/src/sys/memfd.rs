//! Anonymous memory files that are sealed before they are handed on.
//!
//! A memory file is created writable. The record is written to it, then it is sealed,
//! so that whoever gets its descriptor can read it without racing a writer, and only
//! then is the descriptor sent.

use vstd::prelude::*;
use vstd::string::StringSliceAdditionalSpecFns;

verus! {

/// The name under which the memory files of this library show up in the system.
pub const MEMFD_NAME: &'static str = "libsystemd-rs-logging";

/// The name `name` as the system takes it: its bytes, ended by a byte 0.
pub open spec fn terminated(name: Seq<u8>) -> Seq<u8> {
    name.push(0u8)
}

/// Returns `name` as the system takes it: its bytes, ended by a byte 0. There is no
/// such form of a name that holds a byte 0 itself.
pub fn c_name(name: &str) -> (r: Option<Vec<u8>>)
    ensures
        r is Some <==> !name.spec_bytes().contains(0u8),
        r matches Some(bytes) ==> bytes@ == terminated(name.spec_bytes()),
{
    let bytes = name.as_bytes();
    let mut out: Vec<u8> = Vec::new();
    let mut i: usize = 0;
    while i < bytes.len()
        invariant
            i <= bytes@.len(),
            bytes@ == name.spec_bytes(),
            out@ == bytes@.take(i as int),
            forall|j: int| 0 <= j < i ==> bytes@[j] != 0u8,
        decreases bytes@.len() - i,
    {
        if bytes[i] == 0 {
            return None;
        }
        out.push(bytes[i]);
        i = i + 1;
    }
    out.push(0);
    Some(out)
}

/// What creating a memory file came to: `memfd_create` returns the descriptor of the
/// new file, or a negative number, and then `code` is the error code of the system.
pub fn created(returned: i32, code: i32) -> (r: Result<MemoryFile, i32>)
    ensures
        returned < 0 ==> r == Err::<MemoryFile, i32>(code),
        returned >= 0 ==> (r matches Ok(file) && file.descriptor() == returned && file.stage()
            == Stage::Writable),
{
    if returned < 0 {
        Err(code)
    } else {
        Ok(MemoryFile { fd: returned, stage: Stage::Writable })
    }
}

/// How far a memory file has come.
#[derive(Clone, Copy, Debug, PartialEq, Eq, Structural)]
pub enum Stage {
    /// The file was created; nothing was written to it.
    Writable,
    /// The record was written to the file.
    Written,
    /// The file is sealed: it can no longer shrink, grow or be written to, and its
    /// seals can no longer be changed.
    Sealed,
    /// The descriptor of the file was sent. It is no longer the sender's to use.
    Consumed,
}

/// What is done to a memory file.
#[derive(Clone, Copy, Debug, PartialEq, Eq, Structural)]
pub enum Operation {
    /// The whole record is written to the file.
    Write,
    /// The file is sealed.
    Seal,
    /// The descriptor of the file is sent.
    Send,
}

/// The stage that `operation` brings a file at `stage` to, or `None` where it is out
/// of order: a file is written once, sealed after it was written, and sent after it
/// was sealed.
pub open spec fn next_stage(stage: Stage, operation: Operation) -> Option<Stage> {
    match (stage, operation) {
        (Stage::Writable, Operation::Write) => Some(Stage::Written),
        (Stage::Written, Operation::Seal) => Some(Stage::Sealed),
        (Stage::Sealed, Operation::Send) => Some(Stage::Consumed),
        _ => None,
    }
}

/// The stage that a file at `stage` has come to after `operations`, or `None` if one of
/// them was out of order.
pub open spec fn stage_after(stage: Stage, operations: Seq<Operation>) -> Option<Stage>
    decreases operations.len(),
{
    if operations.len() == 0 {
        Some(stage)
    } else {
        match stage_after(stage, operations.drop_last()) {
            Some(reached) => next_stage(reached, operations.last()),
            None => None,
        }
    }
}

/// There is one way from a new file to one whose descriptor was sent: it is written,
/// then sealed, then sent. So no file is sent that is not sealed, and none is sealed
/// before the record is in it.
pub proof fn lemma_sealed_before_sent(operations: Seq<Operation>)
    requires
        stage_after(Stage::Writable, operations) == Some(Stage::Consumed),
    ensures
        operations == seq![Operation::Write, Operation::Seal, Operation::Send],
{
    reveal_with_fuel(stage_after, 5);
    if operations.len() > 0 {
        let a = operations.drop_last();
        let b = a.drop_last();
        let c = b.drop_last();
        if c.len() > 0 {
            lemma_never_writable_again(c);
        }
    }
}

/// A file to which something was done is not writable.
proof fn lemma_never_writable_again(operations: Seq<Operation>)
    requires
        operations.len() > 0,
    ensures
        stage_after(Stage::Writable, operations) != Some(Stage::Writable),
{
}

/// An anonymous memory file and how far it has come.
#[derive(Debug)]
pub struct MemoryFile {
    fd: i32,
    stage: Stage,
}

impl MemoryFile {
    /// The descriptor of the file.
    pub closed spec fn descriptor(&self) -> i32 {
        self.fd
    }

    /// How far the file has come.
    pub closed spec fn stage(&self) -> Stage {
        self.stage
    }

    /// Returns the descriptor of the file while it is the sender's: `None` once it was
    /// sent.
    pub fn raw_fd(&self) -> (fd: Option<i32>)
        ensures
            fd == if self.stage() == Stage::Consumed {
                None
            } else {
                Some(self.descriptor())
            },
    {
        match self.stage {
            Stage::Consumed => None,
            _ => Some(self.fd),
        }
    }

    /// Returns the descriptor of the file if the file may be sent: if it is sealed.
    pub fn sealed_fd(&self) -> (fd: Option<i32>)
        ensures
            fd == if self.stage() == Stage::Sealed {
                Some(self.descriptor())
            } else {
                None
            },
    {
        match self.stage {
            Stage::Sealed => Some(self.fd),
            _ => None,
        }
    }

    /// Records that `operation` was done to the file and went well. Returns false, and
    /// records nothing, where the operation was out of order.
    pub fn record(&mut self, operation: Operation) -> (in_order: bool)
        ensures
            final(self).descriptor() == old(self).descriptor(),
            in_order == next_stage(old(self).stage(), operation) is Some,
            final(self).stage() == match next_stage(old(self).stage(), operation) {
                Some(stage) => stage,
                None => old(self).stage(),
            },
    {
        let next = match (self.stage, operation) {
            (Stage::Writable, Operation::Write) => Stage::Written,
            (Stage::Written, Operation::Seal) => Stage::Sealed,
            (Stage::Sealed, Operation::Send) => Stage::Consumed,
            _ => { return false; },
        };
        self.stage = next;
        true
    }
}

} // verus!
