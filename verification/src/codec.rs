//! The serialization adapter: validated decoding of caller-supplied buffers.
//!
//! `decode` is the strict entry point of each container type: it checks that
//! the buffer has exactly the fixed encoded length and that it encodes a
//! valid element (on the curve and inside the intended subgroup, for the two
//! point types; a nonzero in-range scalar for the secret key). Encoding is
//! the compressed-point form the primitives produce, which is canonical:
//! every element has exactly one encoding, so a container's bytes stand for
//! the element itself, and decoding the encoding of any valid element yields
//! it back unchanged.

use vstd::prelude::*;

use crate::err::BlsError;
use crate::keys::bls_pk;
use crate::keys::bls_sig;
use crate::keys::bls_sk;
use crate::prims::pk_valid;
use crate::prims::raw_pk_check;
use crate::prims::raw_sig_check;
use crate::prims::raw_sk_check;
use crate::prims::sig_valid;
use crate::prims::sk_valid;
use crate::PK_LEN;
use crate::SIG_LEN;
use crate::SK_LEN;

verus! {

/// What decoding a secret-key buffer yields: the same bytes, if and only if
/// they have the fixed length and encode a valid scalar.
pub open spec fn spec_sk_decode(b: Seq<u8>) -> Result<Seq<u8>, BlsError> {
    if b.len() != SK_LEN {
        Err(BlsError::WrongLength)
    } else if !sk_valid(b) {
        Err(BlsError::InvalidSecretKey)
    } else {
        Ok(b)
    }
}

/// What decoding a public-key buffer yields.
pub open spec fn spec_pk_decode(b: Seq<u8>) -> Result<Seq<u8>, BlsError> {
    if b.len() != PK_LEN {
        Err(BlsError::WrongLength)
    } else if !pk_valid(b) {
        Err(BlsError::InvalidPublicKey)
    } else {
        Ok(b)
    }
}

/// What decoding a signature buffer yields.
pub open spec fn spec_sig_decode(b: Seq<u8>) -> Result<Seq<u8>, BlsError> {
    if b.len() != SIG_LEN {
        Err(BlsError::WrongLength)
    } else if !sig_valid(b) {
        Err(BlsError::InvalidSignature)
    } else {
        Ok(b)
    }
}

impl bls_sk {
    /// Decode with strict validation: exact length and a scalar the signing
    /// group accepts. Never a partially-populated container.
    pub fn decode(b: &[u8]) -> (r: Result<Self, BlsError>)
        ensures
            r is Ok <==> spec_sk_decode(b@) is Ok,
            r is Ok ==> (r->Ok_0)@ == b@ && (r->Ok_0).wf(),
            r is Err ==> r->Err_0 == spec_sk_decode(b@)->Err_0,
    {
        match bls_sk::from_bytes(b) {
            Ok(k) => {
                if raw_sk_check(&k) {
                    Ok(k)
                } else {
                    Err(BlsError::InvalidSecretKey)
                }
            },
            Err(e) => Err(e),
        }
    }
}

impl bls_pk {
    /// Decode with strict validation: exact length, on-curve, in-subgroup
    /// and not the identity.
    pub fn decode(b: &[u8]) -> (r: Result<Self, BlsError>)
        ensures
            r is Ok <==> spec_pk_decode(b@) is Ok,
            r is Ok ==> (r->Ok_0)@ == b@ && (r->Ok_0).wf(),
            r is Err ==> r->Err_0 == spec_pk_decode(b@)->Err_0,
    {
        match bls_pk::from_bytes(b) {
            Ok(k) => {
                if raw_pk_check(&k) {
                    Ok(k)
                } else {
                    Err(BlsError::InvalidPublicKey)
                }
            },
            Err(e) => Err(e),
        }
    }
}

impl bls_sig {
    /// Decode with strict validation: exact length, on-curve and
    /// in-subgroup.
    pub fn decode(b: &[u8]) -> (r: Result<Self, BlsError>)
        ensures
            r is Ok <==> spec_sig_decode(b@) is Ok,
            r is Ok ==> (r->Ok_0)@ == b@ && (r->Ok_0).wf(),
            r is Err ==> r->Err_0 == spec_sig_decode(b@)->Err_0,
    {
        match bls_sig::from_bytes(b) {
            Ok(s) => {
                if raw_sig_check(&s) {
                    Ok(s)
                } else {
                    Err(BlsError::InvalidSignature)
                }
            },
            Err(e) => Err(e),
        }
    }
}

/// Round trip for secret keys: decoding the encoding of any valid secret key
/// yields exactly that key. Encoding is the identity on a container's bytes
/// (`to_bytes`), so the law is stated over the decode of those bytes.
pub proof fn lemma_sk_round_trip(x: Seq<u8>)
    requires
        x.len() == SK_LEN,
        sk_valid(x),
    ensures
        spec_sk_decode(x) == Ok::<Seq<u8>, BlsError>(x),
{
}

/// Round trip for public keys: decoding the encoding of any valid public
/// key yields exactly that key.
pub proof fn lemma_pk_round_trip(x: Seq<u8>)
    requires
        x.len() == PK_LEN,
        pk_valid(x),
    ensures
        spec_pk_decode(x) == Ok::<Seq<u8>, BlsError>(x),
{
}

/// Round trip for signatures: decoding the encoding of any valid signature
/// yields exactly that signature.
pub proof fn lemma_sig_round_trip(x: Seq<u8>)
    requires
        x.len() == SIG_LEN,
        sig_valid(x),
    ensures
        spec_sig_decode(x) == Ok::<Seq<u8>, BlsError>(x),
{
}

} // verus!
