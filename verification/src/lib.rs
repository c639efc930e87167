//! A BLS (Boneh–Lynn–Shacham) aggregate-signature scheme behind a
//! boundary-safe byte interface.
//!
//! Every operation takes and returns fixed-length byte buffers: a secret key,
//! a public key and a (possibly aggregated) signature each have one exact
//! encoded size, every input length is checked before any cryptographic
//! decode begins, and malformed material is reported as a typed error rather
//! than ever being processed half-decoded. The elliptic-curve arithmetic,
//! pairing evaluation and compressed-point (de)serialization are supplied by
//! the `blst` library of cryptographic primitives; what this crate verifies
//! is the marshalling and validation around them and the aggregate-signature
//! protocol logic itself.
//!
//! The five operations — key generation, signing, verification, aggregation
//! without per-signature verification, and aggregated verification — are
//! stateless, pure functions of their inputs.

use vstd::prelude::*;

mod err;
mod keys;
mod prims;
mod codec;
mod ops;

pub use err::BlsError;
pub use keys::bls_keys;
pub use keys::bls_pk;
pub use keys::bls_sig;
pub use keys::bls_sk;
pub use ops::aggregate;
pub use ops::keygen;
pub use ops::sign;
pub use ops::verify;
pub use ops::verify_aggregated;
pub use ops::valid_ciphersuite;
pub use ops::lemma_aggregate_order_independent;
pub use ops::lemma_keygen_deterministic;
pub use ops::lemma_verify_aggregated_order_independent;
pub use codec::lemma_pk_round_trip;
pub use codec::lemma_sig_round_trip;
pub use codec::lemma_sk_round_trip;
pub use codec::spec_pk_decode;
pub use codec::spec_sig_decode;
pub use codec::spec_sk_decode;
pub use ops::spec_aggregate;
pub use ops::spec_dst;
pub use prims::agg_of;
pub use prims::agg_verifies;
pub use prims::identity_sig_enc;
pub use prims::all_pks_valid;
pub use prims::all_sigs_valid;
pub use prims::keys_match;
pub use prims::pk_of_sk;
pub use prims::pk_valid;
pub use prims::pk_views;
pub use prims::sig_of;
pub use prims::sig_valid;
pub use prims::sig_views;
pub use prims::signatures_of;
pub use prims::sk_of_seed;
pub use prims::sk_valid;
pub use prims::verifies;

verus! {

/// Encoded length in bytes of a secret key: a scalar of the signing group.
pub const SK_LEN: usize = 32;

/// Encoded length in bytes of a public key: a compressed point of the
/// public-key group.
pub const PK_LEN: usize = 48;

/// Encoded length in bytes of a signature or aggregated signature: a
/// compressed point of the signature group.
pub const SIG_LEN: usize = 96;

/// The fewest seed bytes key generation accepts; shorter seeds are a caller
/// error and are rejected, never padded.
pub const MIN_SEED_LEN: usize = 32;

} // verus!
