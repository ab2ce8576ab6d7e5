use vstd::prelude::*;

verus! {

/// Typed failures surfaced by the store and the credential service.
#[derive(Clone, Copy, Debug, PartialEq, Eq, Structural)]
pub enum StoreError {
    /// The store could not be reached.
    Connectivity,
    /// A natural key (username, course id, lecture id) is already taken.
    ConstraintViolation,
    /// A stored row could not be turned back into its entity.
    Decode,
    /// A stored role tag is neither of the two known ones.
    UnknownRole,
    /// The credential digest is malformed or the hashing backend failed.
    Hashing,
    /// The store moved on since the transaction began; nothing was written.
    CommitConflict,
    /// No further surrogate identifier can be assigned.
    CapacityExceeded,
}

impl StoreError {
    /// The text of `describe`.
    pub open spec fn describe_spec(&self) -> Seq<char> {
        match self {
            StoreError::Connectivity => "store unreachable"@,
            StoreError::ConstraintViolation => "duplicate key"@,
            StoreError::Decode => "stored row cannot be decoded"@,
            StoreError::UnknownRole => "unknown role"@,
            StoreError::Hashing => "credential hashing failed"@,
            StoreError::CommitConflict => "concurrent commit"@,
            StoreError::CapacityExceeded => "identifier space exhausted"@,
        }
    }

    /// A short human-readable description of the failure.
    pub fn describe(&self) -> (r: &'static str)
        ensures
            r@ == self.describe_spec(),
    {
        match self {
            StoreError::Connectivity => "store unreachable",
            StoreError::ConstraintViolation => "duplicate key",
            StoreError::Decode => "stored row cannot be decoded",
            StoreError::UnknownRole => "unknown role",
            StoreError::Hashing => "credential hashing failed",
            StoreError::CommitConflict => "concurrent commit",
            StoreError::CapacityExceeded => "identifier space exhausted",
        }
    }
}

} // verus!
