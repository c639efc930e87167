//! Trusted face of the cryptographic primitives library.
//!
//! Everything this crate needs from `blst` passes through the wrappers in
//! this module, and nothing else in the crate is trusted. Each wrapper makes
//! one conceptual call into `blst::min_pk` (decoding its fixed-size byte
//! arguments on the way in and re-encoding the result in compressed form on
//! the way out) and states its effect over a handful of named byte-level
//! functions. The names are deliberately unspecified: what `sk_of_seed`
//! evaluates to on given bytes is known only by running the primitives, but
//! every name is a pure function of its arguments, so determinism, round
//! trips and order-independence can be proved about the code around them.
//!
//! All encodings are the compressed-point forms produced by `blst`:
//! `SK_LEN`-byte big-endian scalars, `PK_LEN`-byte compressed public-key
//! points and `SIG_LEN`-byte compressed signature points.

use vstd::prelude::*;
use vstd::multiset::Multiset;

use crate::keys::bls_pk;
use crate::keys::bls_sig;
use crate::keys::bls_sk;
use crate::SIG_LEN;

verus! {

/// Whether a buffer encodes a scalar of the signing group: exactly 32 bytes
/// whose big-endian value is nonzero and below the group order.
pub uninterp spec fn sk_valid(sk: Seq<u8>) -> bool;

/// Whether a buffer is an encoding the primitives accept of a valid
/// public-key group element: on the curve, inside the prime-order subgroup
/// and not the identity. Every `bls_pk` container holds the `PK_LEN`-byte
/// compressed form, though the primitives' decoder also accepts the longer
/// uncompressed form, so the predicate does not by itself fix a length.
pub uninterp spec fn pk_valid(pk: Seq<u8>) -> bool;

/// Whether a buffer is an encoding the primitives accept of a valid
/// signature group element: on the curve and inside the prime-order
/// subgroup. Every `bls_sig` container holds the `SIG_LEN`-byte compressed
/// form, though the primitives' decoder also accepts the longer uncompressed
/// form, so the predicate does not by itself fix a length.
pub uninterp spec fn sig_valid(sig: Seq<u8>) -> bool;

/// The canonical compressed encoding of the signature group's identity
/// element: the compression and infinity flag bits set in the leading byte,
/// every other bit zero. A list of valid signatures can legitimately sum to
/// it (signatures under keys whose scalars cancel), and the primitives treat
/// the resulting infinite key sum specially, so the aggregated-verification
/// contract must name it.
pub open spec fn identity_sig_enc() -> Seq<u8> {
    Seq::new(SIG_LEN as nat, |i: int| if i == 0 { 0xc0u8 } else { 0u8 })
}

/// The secret key that the primitives' deterministic key derivation produces
/// from a seed and a one-byte domain-separation tag.
pub uninterp spec fn sk_of_seed(seed: Seq<u8>, cs: u8) -> Seq<u8>;

/// The compressed public key obtained by multiplying the fixed generator of
/// the public-key group by the given secret scalar.
pub uninterp spec fn pk_of_sk(sk: Seq<u8>) -> Seq<u8>;

/// The compressed signature obtained by hashing a message into the signature
/// group under a domain-separation tag and multiplying by the secret scalar.
pub uninterp spec fn sig_of(sk: Seq<u8>, msg: Seq<u8>, dst: Seq<u8>) -> Seq<u8>;

/// The outcome of the single-signature pairing check for a public key, a
/// message, a domain-separation tag and a signature.
pub uninterp spec fn verifies(pk: Seq<u8>, msg: Seq<u8>, dst: Seq<u8>, sig: Seq<u8>) -> bool;

/// The compressed sum, in the signature group, of a non-empty collection of
/// valid signatures. Group addition is commutative and associative, so the
/// sum is a function of the multiset alone; this is what makes aggregation
/// order-independent.
pub uninterp spec fn agg_of(sigs: Multiset<Seq<u8>>) -> Seq<u8>;

/// The outcome of the aggregated pairing check: one signature against the
/// group sum of a non-empty multiset of public keys and a single message.
pub uninterp spec fn agg_verifies(pks: Multiset<Seq<u8>>, msg: Seq<u8>, dst: Seq<u8>, sig: Seq<u8>) -> bool;

/// The views of a list of signature containers.
pub open spec fn sig_views(l: Seq<bls_sig>) -> Seq<Seq<u8>> {
    l.map_values(|s: bls_sig| s@)
}

/// The views of a list of public-key containers.
pub open spec fn pk_views(l: Seq<bls_pk>) -> Seq<Seq<u8>> {
    l.map_values(|p: bls_pk| p@)
}

/// Every byte string in the list is a valid signature encoding.
pub open spec fn all_sigs_valid(l: Seq<Seq<u8>>) -> bool {
    forall|i: int| 0 <= i < l.len() ==> sig_valid(#[trigger] l[i])
}

/// Every byte string in the list is a valid public-key encoding.
pub open spec fn all_pks_valid(l: Seq<Seq<u8>>) -> bool {
    forall|i: int| 0 <= i < l.len() ==> pk_valid(#[trigger] l[i])
}

/// Each listed secret key is valid and the public key at the same position
/// is exactly the one derived from it.
pub open spec fn keys_match(sks: Seq<Seq<u8>>, pks: Seq<Seq<u8>>) -> bool {
    &&& sks.len() == pks.len()
    &&& forall|i: int| 0 <= i < sks.len() ==> sk_valid(#[trigger] sks[i]) && pks[i] == pk_of_sk(sks[i])
}

/// The signatures that the listed secret keys produce over one shared
/// message and domain-separation tag.
pub open spec fn signatures_of(sks: Seq<Seq<u8>>, msg: Seq<u8>, dst: Seq<u8>) -> Seq<Seq<u8>> {
    sks.map_values(|k: Seq<u8>| sig_of(k, msg, dst))
}

/// Relies on `blst::min_pk::SecretKey::key_gen`: deterministic key
/// derivation from seed material of at least 32 bytes plus a key-info
/// string (here the one-byte ciphersuite tag), per the BLS signature draft.
/// Its output scalar is nonzero and below the group order, so its 32-byte
/// big-endian serialization is a valid secret key.
#[verifier::external_body]
pub(crate) fn raw_derive_sk(seed: &[u8], cs: u8) -> (r: bls_sk)
    requires
        seed@.len() >= 32,
    ensures
        r.wf(),
        r@ == sk_of_seed(seed@, cs),
        sk_valid(r@),
{
    let sk = blst::min_pk::SecretKey::key_gen(seed, &[cs]).unwrap();
    bls_sk { data: sk.to_bytes().to_vec() }
}

/// Relies on `blst::min_pk::SecretKey::sk_to_pk` (scalar multiplication of
/// the fixed public-key-group generator) and on `SecretKey::from_bytes` to
/// read the scalar, which succeeds exactly on valid secret-key bytes. The
/// resulting point is a nonzero multiple of the generator, so its compressed
/// form passes `PublicKey::key_validate`.
#[verifier::external_body]
pub(crate) fn raw_pk_of_sk(sk: &bls_sk) -> (r: bls_pk)
    requires
        sk_valid(sk@),
    ensures
        r.wf(),
        r@ == pk_of_sk(sk@),
        pk_valid(r@),
{
    let k = blst::min_pk::SecretKey::from_bytes(&sk.data).unwrap();
    bls_pk { data: k.sk_to_pk().to_bytes().to_vec() }
}

/// Relies on `blst::min_pk::SecretKey::from_bytes`, which accepts exactly
/// the 32-byte big-endian encodings of a nonzero scalar below the group
/// order.
#[verifier::external_body]
pub(crate) fn raw_sk_check(sk: &bls_sk) -> (r: bool)
    ensures
        r == sk_valid(sk@),
{
    blst::min_pk::SecretKey::from_bytes(&sk.data).is_ok()
}

/// Relies on `blst::min_pk::PublicKey::key_validate`, which accepts exactly
/// the compressed encodings of on-curve, in-subgroup, non-identity
/// public-key points.
#[verifier::external_body]
pub(crate) fn raw_pk_check(pk: &bls_pk) -> (r: bool)
    ensures
        r == pk_valid(pk@),
{
    blst::min_pk::PublicKey::key_validate(&pk.data).is_ok()
}

/// Relies on `blst::min_pk::Signature::sig_validate`, which accepts exactly
/// the compressed encodings of on-curve, in-subgroup signature points (the
/// identity is allowed: an aggregate may legitimately sum to it).
#[verifier::external_body]
pub(crate) fn raw_sig_check(sig: &bls_sig) -> (r: bool)
    ensures
        r == sig_valid(sig@),
{
    blst::min_pk::Signature::sig_validate(&sig.data, false).is_ok()
}

/// Relies on `blst::min_pk::SecretKey::sign`: hash the message to the
/// signature group under the domain-separation tag and multiply by the
/// secret scalar. The scalar is read with `SecretKey::from_bytes`, which
/// cannot fail on the valid encoding required here. Signing is
/// deterministic, and the result lies in the signature subgroup.
#[verifier::external_body]
pub(crate) fn raw_sign(sk: &bls_sk, msg: &[u8], dst: &[u8]) -> (r: bls_sig)
    requires
        sk_valid(sk@),
    ensures
        r.wf(),
        r@ == sig_of(sk@, msg@, dst@),
        sig_valid(r@),
{
    let k = blst::min_pk::SecretKey::from_bytes(&sk.data).unwrap();
    bls_sig { data: k.sign(msg, dst, &[]).to_bytes().to_vec() }
}

/// Relies on `blst::min_pk::Signature::verify`: the pairing check that
/// accepts exactly the signatures `SecretKey::sign` produces for the secret
/// key behind `pk` on this message and tag — the correctness guarantee of
/// the BLS scheme. The check also accepts at most one signature per key and
/// message: in a prime-order group the pairing equation has a unique
/// solution, so acceptance pins the signature to the one `sign` produces.
/// Both points are decoded with `from_bytes`, which cannot fail on the valid
/// encodings required here.
#[verifier::external_body]
pub(crate) fn raw_verify(pk: &bls_pk, msg: &[u8], dst: &[u8], sig: &bls_sig) -> (r: bool)
    requires
        pk_valid(pk@),
        sig_valid(sig@),
    ensures
        r == verifies(pk@, msg@, dst@, sig@),
        (exists|skb: Seq<u8>|
            sk_valid(skb) && pk@ == pk_of_sk(skb) && sig@ == #[trigger] sig_of(skb, msg@, dst@)) ==> r,
        r ==> forall|skb: Seq<u8>|
            sk_valid(skb) && pk@ == #[trigger] pk_of_sk(skb) ==> sig@ == sig_of(skb, msg@, dst@),
{
    let p = blst::min_pk::PublicKey::from_bytes(&pk.data).unwrap();
    let s = blst::min_pk::Signature::from_bytes(&sig.data).unwrap();
    s.verify(false, msg, dst, &[], &p, false) == blst::BLST_ERROR::BLST_SUCCESS
}

/// Relies on `blst::min_pk::AggregateSignature::aggregate`: the group sum of
/// a non-empty list of valid signatures, re-encoded in compressed form. Each
/// input is read with `Signature::from_bytes`, which cannot fail on the
/// valid encodings required here. Group addition is commutative and
/// associative, so the sum depends only on the multiset of inputs, and it
/// stays inside the signature subgroup. The sum of a single signature is
/// that signature, and on an accepted `SIG_LEN`-byte buffer decoding is
/// injective and re-compression reproduces the buffer (the decoder rejects
/// non-canonical field elements and non-zero-padded infinity), so a
/// one-element aggregation returns its input bytes unchanged.
#[verifier::external_body]
pub(crate) fn raw_aggregate(sigs: &[bls_sig]) -> (r: bls_sig)
    requires
        sigs@.len() >= 1,
        all_sigs_valid(sig_views(sigs@)),
    ensures
        r.wf(),
        r@ == agg_of(sig_views(sigs@).to_multiset()),
        sig_valid(r@),
        sigs@.len() == 1 && sig_views(sigs@)[0].len() == SIG_LEN ==> r@ == sig_views(sigs@)[0],
{
    let mut elems: Vec<blst::min_pk::Signature> = Vec::with_capacity(sigs.len());
    for s in sigs.iter() {
        elems.push(blst::min_pk::Signature::from_bytes(&s.data).unwrap());
    }
    let refs: Vec<&blst::min_pk::Signature> = elems.iter().collect();
    let agg = blst::min_pk::AggregateSignature::aggregate(&refs, false).unwrap();
    bls_sig { data: agg.to_signature().to_bytes().to_vec() }
}

/// Relies on `blst::min_pk::Signature::fast_aggregate_verify`: sum the
/// public keys in their group and run the single pairing check of the
/// aggregate against that sum and one message. The key sum depends only on
/// the multiset of keys.
///
/// When the aggregate is exactly the group sum of signatures by those keys
/// over this message and tag, the check accepts — the aggregation guarantee
/// of the BLS scheme — with one exception the source forces: the primitives
/// reject an infinite aggregated public key outright, and under that same
/// hypothesis the key scalars sum to zero exactly when the aggregate
/// signature is the identity encoding, so acceptance is promised only for a
/// non-identity aggregate. Conversely, acceptance means the pairing equation
/// held with a non-infinite key sum, and in a prime-order group that
/// equation has a unique solution, so the signature is exactly the aggregate
/// of the matching keys' signatures (encodings are canonical: the decoder
/// rejects non-canonical field elements).
#[verifier::external_body]
pub(crate) fn raw_verify_agg(pks: &[bls_pk], msg: &[u8], dst: &[u8], sig: &bls_sig) -> (r: bool)
    requires
        pks@.len() >= 1,
        all_pks_valid(pk_views(pks@)),
        sig_valid(sig@),
    ensures
        r == agg_verifies(pk_views(pks@).to_multiset(), msg@, dst@, sig@),
        (sig@ != identity_sig_enc() && exists|sks: Seq<Seq<u8>>|
            #[trigger] keys_match(sks, pk_views(pks@))
                && sig@ == agg_of(signatures_of(sks, msg@, dst@).to_multiset())) ==> r,
        r ==> forall|sks: Seq<Seq<u8>>|
            #[trigger] keys_match(sks, pk_views(pks@)) ==> sig@ == agg_of(
                signatures_of(sks, msg@, dst@).to_multiset(),
            ),
{
    let mut keys: Vec<blst::min_pk::PublicKey> = Vec::with_capacity(pks.len());
    for p in pks.iter() {
        keys.push(blst::min_pk::PublicKey::from_bytes(&p.data).unwrap());
    }
    let refs: Vec<&blst::min_pk::PublicKey> = keys.iter().collect();
    let s = blst::min_pk::Signature::from_bytes(&sig.data).unwrap();
    s.fast_aggregate_verify(false, msg, dst, &refs) == blst::BLST_ERROR::BLST_SUCCESS
}

} // verus!
