//! The failure-reporting side of the boundary contract.
//!
//! Two disjoint classes of failure exist. Boundary-contract violations
//! (malformed encodings, wrong buffer lengths, an undersized seed, an
//! unrecognized ciphersuite tag) mean the caller handed this library material
//! it could never have produced itself; processing stops before any
//! cryptographic state is built from it. Protocol-level negative results (an
//! aggregation request with nothing to aggregate) are ordinary, recoverable
//! answers. A signature that is well-formed but cryptographically wrong is
//! not an error at all: verification simply returns `false`.

use vstd::prelude::*;

verus! {

/// Every failure a boundary operation can report.
#[derive(Debug, Clone, Copy, PartialEq, Eq, Structural)]
pub enum BlsError {
    /// A buffer whose length is not the fixed encoded size of its type.
    WrongLength,
    /// A key-generation seed shorter than `MIN_SEED_LEN` bytes.
    SeedTooShort,
    /// A ciphersuite tag this scheme does not recognize.
    UnknownCiphersuite,
    /// A secret-key buffer that does not encode a scalar of the signing group.
    InvalidSecretKey,
    /// A public-key buffer that does not encode a valid element of the
    /// public-key subgroup.
    InvalidPublicKey,
    /// A signature buffer that does not encode a valid element of the
    /// signature subgroup.
    InvalidSignature,
    /// An aggregation or aggregate verification over an empty list; there is
    /// nothing to combine. This is the one recoverable, protocol-level error.
    EmptyInput,
}

impl BlsError {
    /// Whether this failure belongs to the unrecoverable class: the caller
    /// broke the boundary contract by passing malformed material.
    pub open spec fn spec_is_boundary_violation(&self) -> bool {
        !(self is EmptyInput)
    }

    /// Runtime test of the failure class; `EmptyInput` alone is recoverable.
    pub fn is_boundary_violation(&self) -> (r: bool)
        ensures
            r == self.spec_is_boundary_violation(),
    {
        !matches!(self, BlsError::EmptyInput)
    }
}

} // verus!
