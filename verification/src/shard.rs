//! One of the two regions that together encode a secret.

use crate::error::MemoryError;
use crate::utils::wipe;
use vstd::prelude::*;

verus! {

/// The one size of data that a shard holds, in bytes.
pub const NC_DATA_SIZE: usize = 32;

/// Where a shard keeps its bytes.
#[derive(Debug, PartialEq, Eq, Clone, Copy, Structural)]
pub enum ShardKind {
    /// Persistent: backed by a file.
    File,
    /// Volatile: backed by memory only.
    Ram,
}

/// What a shard is, as far as contracts are concerned: its kind, and its
/// content until it is wiped.
pub struct ShardView {
    pub kind: ShardKind,
    pub content: Option<Seq<u8>>,
}

/// A holder of exactly [`NC_DATA_SIZE`] bytes.  The bytes never leave the
/// shard but as copies, and once wiped the shard stays unusable.
pub struct MemoryShard {
    kind: ShardKind,
    bytes: Vec<u8>,
}

impl View for MemoryShard {
    type V = ShardView;

    closed spec fn view(&self) -> ShardView {
        ShardView {
            kind: self.kind,
            content: if self.bytes@.len() == NC_DATA_SIZE {
                Some(self.bytes@)
            } else {
                None
            },
        }
    }
}

/// Copies the bytes of `source` into a new buffer.
fn copy_bytes(source: &[u8]) -> (copy: Vec<u8>)
    ensures
        copy@ == source@,
{
    let mut copy: Vec<u8> = Vec::with_capacity(source.len());
    let mut i: usize = 0;
    while i < source.len()
        invariant
            i <= source@.len(),
            copy@ == source@.subrange(0, i as int),
        decreases source@.len() - i,
    {
        copy.push(source[i]);
        i = i + 1;
    }
    assert(copy@ == source@);
    copy
}

impl Clone for MemoryShard {
    /// A second shard of the same kind with a copy of the content.
    fn clone(&self) -> (copy: Self)
        ensures
            copy@ == self@,
    {
        proof {
            use_type_invariant(self);
        }
        MemoryShard { kind: self.kind, bytes: copy_bytes(self.bytes.as_slice()) }
    }
}

impl MemoryShard {
    /// A shard holds all of its bytes or none.
    #[verifier::type_invariant]
    spec fn inv(&self) -> bool {
        self.bytes@.len() == NC_DATA_SIZE || self.bytes@.len() == 0
    }

    /// Stores a copy of `payload` in a new shard of the given kind.  Fails
    /// with [`MemoryError::NCSizeNotAllowed`] unless both the payload and the
    /// declared `size` are of [`NC_DATA_SIZE`] bytes.
    pub fn allocate(payload: &[u8], size: usize, kind: ShardKind) -> (res: Result<Self, MemoryError>)
        ensures
            res is Ok <==> size == NC_DATA_SIZE && payload@.len() == NC_DATA_SIZE,
            res matches Ok(shard) ==> shard@ == (ShardView { kind, content: Some(payload@) }),
            res matches Err(e) ==> e == MemoryError::NCSizeNotAllowed,
    {
        if size != NC_DATA_SIZE || payload.len() != NC_DATA_SIZE {
            return Err(MemoryError::NCSizeNotAllowed);
        }
        Ok(MemoryShard { kind, bytes: copy_bytes(payload) })
    }

    /// Hands out a copy of the content, or fails with
    /// [`MemoryError::ShardUnavailable`] once the shard has been wiped.
    pub fn unlock(&self) -> (res: Result<Vec<u8>, MemoryError>)
        ensures
            match self@.content {
                Some(bytes) => res matches Ok(copy) && copy@ == bytes && copy@.len()
                    == NC_DATA_SIZE,
                None => res == Err::<Vec<u8>, MemoryError>(MemoryError::ShardUnavailable),
            },
    {
        if self.bytes.len() != NC_DATA_SIZE {
            return Err(MemoryError::ShardUnavailable);
        }
        Ok(copy_bytes(self.bytes.as_slice()))
    }

    /// Overwrites the content with zeroes and drops it.  The shard keeps its
    /// kind and is unavailable from then on.
    pub fn zeroize(&mut self)
        ensures
            final(self)@ == (ShardView { kind: old(self)@.kind, content: None }),
        opens_invariants none
        no_unwind
    {
        wipe(&mut self.bytes);
    }

    /// The kind of the shard.
    pub fn kind(&self) -> (kind: ShardKind)
        ensures
            kind == self@.kind,
    {
        self.kind
    }

    /// Tells whether the shard still holds its content.
    pub fn is_available(&self) -> (available: bool)
        ensures
            available == self@.content is Some,
    {
        self.bytes.len() == NC_DATA_SIZE
    }
}

impl Drop for MemoryShard {
    /// A shard that goes away wipes its bytes.
    fn drop(&mut self)
        opens_invariants none
        no_unwind
    {
        self.zeroize();
    }
}

} // verus!
