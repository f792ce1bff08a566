use vstd::prelude::*;

verus! {

/// What the split-secret guard and its shards report.
#[derive(Debug, PartialEq, Eq, Clone, Copy, Structural)]
pub enum MemoryError {
    /// The payload is not of the one size that the guard accepts.
    NCSizeNotAllowed,
    /// The requested configuration is reserved and cannot be served.
    LockNotAvailable,
    /// A shard was asked for its content after it had been wiped.
    ShardUnavailable,
}

/// What the version lock reports.
#[derive(Debug, PartialEq, Eq, Clone, Copy, Structural)]
pub enum TxError {
    /// The lock was held on every attempt that the spin budget allowed.
    LockPresent,
}

impl MemoryError {
    /// A short description for messages and logs.
    pub fn message(&self) -> (text: &'static str)
        ensures
            text@ == match *self {
                MemoryError::NCSizeNotAllowed => "Illegal non-contiguous size"@,
                MemoryError::LockNotAvailable => "Lock unavailable"@,
                MemoryError::ShardUnavailable => "Shard unavailable"@,
            },
    {
        match self {
            MemoryError::NCSizeNotAllowed => "Illegal non-contiguous size",
            MemoryError::LockNotAvailable => "Lock unavailable",
            MemoryError::ShardUnavailable => "Shard unavailable",
        }
    }
}

impl TxError {
    /// A short description for messages and logs.
    pub fn message(&self) -> (text: &'static str)
        ensures
            text@ == "Lock is present"@,
    {
        "Lock is present"
    }
}

} // verus!
