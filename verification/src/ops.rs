//! The core protocol operations: key generation, signing, verification,
//! aggregation and aggregated verification.
//!
//! Each operation validates every buffer it consumes before any
//! cryptographic work starts, reports malformed input as a typed error, and
//! otherwise computes a pure function of its inputs. Domain-separation
//! policy: the one-byte ciphersuite tag (the recognized tags are 0 and 1)
//! feeds the key-derivation step as its key-info string, and hashing to the
//! signature group always uses the fixed tag `spec_dst()`, the standard
//! hash-to-curve suite name for this curve. Signatures carry no epoch or
//! context field of their own, so the one recoverable aggregation error is
//! an empty input list.

use vstd::prelude::*;

use crate::err::BlsError;
use crate::keys::bls_keys;
use crate::keys::bls_pk;
use crate::keys::bls_sig;
use crate::keys::bls_sk;
use crate::prims::agg_of;
use crate::prims::agg_verifies;
use crate::prims::identity_sig_enc;
use crate::prims::all_pks_valid;
use crate::prims::all_sigs_valid;
use crate::prims::keys_match;
use crate::prims::pk_of_sk;
use crate::prims::pk_valid;
use crate::prims::pk_views;
use crate::prims::raw_aggregate;
use crate::prims::raw_derive_sk;
use crate::prims::raw_pk_check;
use crate::prims::raw_pk_of_sk;
use crate::prims::raw_sig_check;
use crate::prims::raw_sign;
use crate::prims::raw_sk_check;
use crate::prims::raw_verify;
use crate::prims::raw_verify_agg;
use crate::prims::sig_of;
use crate::prims::sig_valid;
use crate::prims::sig_views;
use crate::prims::signatures_of;
use crate::prims::sk_of_seed;
use crate::prims::sk_valid;
use crate::prims::verifies;
use crate::MIN_SEED_LEN;
use crate::SIG_LEN;

verus! {

/// The recognized one-byte ciphersuite tags.
pub open spec fn valid_ciphersuite(cs: u8) -> bool {
    cs == 0 || cs == 1
}

/// The fixed domain-separation tag under which messages are hashed to the
/// signature group: the ASCII bytes of
/// `BLS_SIG_BLS12381G2_XMD:SHA-256_SSWU_RO_NUL_`.
pub open spec fn spec_dst() -> Seq<u8> {
    seq![
        66u8, 76u8, 83u8, 95u8, 83u8, 73u8, 71u8, 95u8, 66u8, 76u8, 83u8, 49u8, 50u8, 51u8, 56u8,
        49u8, 71u8, 50u8, 95u8, 88u8, 77u8, 68u8, 58u8, 83u8, 72u8, 65u8, 45u8, 50u8, 53u8, 54u8,
        95u8, 83u8, 83u8, 87u8, 85u8, 95u8, 82u8, 79u8, 95u8, 78u8, 85u8, 76u8, 95u8,
    ]
}

/// The domain-separation tag as a byte vector.
fn dst_bytes() -> (r: Vec<u8>)
    ensures
        r@ == spec_dst(),
{
    let r: Vec<u8> = vec![
        66u8, 76u8, 83u8, 95u8, 83u8, 73u8, 71u8, 95u8, 66u8, 76u8, 83u8, 49u8, 50u8, 51u8, 56u8,
        49u8, 71u8, 50u8, 95u8, 88u8, 77u8, 68u8, 58u8, 83u8, 72u8, 65u8, 45u8, 50u8, 53u8, 54u8,
        95u8, 83u8, 83u8, 87u8, 85u8, 95u8, 82u8, 79u8, 95u8, 78u8, 85u8, 76u8, 95u8,
    ];
    proof {
        assert(r@ =~= spec_dst());
    }
    r
}

/// Generate a key pair from seed material and a ciphersuite tag.
///
/// Deterministic: the contract pins both output encodings to functions of
/// the seed and the tag alone, so two calls with identical inputs return
/// identical byte encodings. A seed shorter than `MIN_SEED_LEN` bytes and an
/// unrecognized tag are rejected outright, the seed being checked first;
/// nothing is ever silently padded.
pub fn keygen(seed: &[u8], ciphersuite: u8) -> (r: Result<bls_keys, BlsError>)
    ensures
        r is Ok <==> seed@.len() >= MIN_SEED_LEN && valid_ciphersuite(ciphersuite),
        r is Ok ==> {
            let k = r->Ok_0;
            &&& k.wf()
            &&& k@.1 == sk_of_seed(seed@, ciphersuite)
            &&& sk_valid(k@.1)
            &&& k@.0 == pk_of_sk(sk_of_seed(seed@, ciphersuite))
            &&& pk_valid(k@.0)
        },
        seed@.len() < MIN_SEED_LEN ==> r == Err::<bls_keys, BlsError>(BlsError::SeedTooShort),
        seed@.len() >= MIN_SEED_LEN && !valid_ciphersuite(ciphersuite) ==> r == Err::<
            bls_keys,
            BlsError,
        >(BlsError::UnknownCiphersuite),
{
    if seed.len() < MIN_SEED_LEN {
        return Err(BlsError::SeedTooShort);
    }
    if !(ciphersuite == 0 || ciphersuite == 1) {
        return Err(BlsError::UnknownCiphersuite);
    }
    let sk = raw_derive_sk(seed, ciphersuite);
    let pk = raw_pk_of_sk(&sk);
    Ok(bls_keys::assemble(pk, sk))
}

/// Sign a message with a secret key.
///
/// The key buffer is decoded with strict validation first: a buffer that no
/// run of key generation could have produced is a boundary-contract
/// violation, reported as `InvalidSecretKey`. Signing itself accepts
/// messages of any length and is deterministic.
pub fn sign(sk: &bls_sk, msg: &[u8]) -> (r: Result<bls_sig, BlsError>)
    ensures
        r is Ok <==> sk_valid(sk@),
        r is Ok ==> {
            let s = r->Ok_0;
            s.wf() && s@ == sig_of(sk@, msg@, spec_dst()) && sig_valid(s@)
        },
        r is Err ==> r->Err_0 == BlsError::InvalidSecretKey,
{
    if !raw_sk_check(sk) {
        return Err(BlsError::InvalidSecretKey);
    }
    let dst = dst_bytes();
    Ok(raw_sign(sk, msg, dst.as_slice()))
}

/// Verify one signature over one message against one public key.
///
/// Malformed encodings of the key or the signature are boundary-contract
/// violations, reported as errors; a well-formed signature that simply does
/// not match is the ordinary answer `Ok(false)`, never an error. For every
/// signature produced by `sign` under the secret key matching `pk`, over the
/// same message, the answer is `Ok(true)` — the correctness law of the
/// scheme — and for no other signature is it `Ok(true)`: acceptance pins the
/// signature to exactly the one `sign` produces, so any well-formed but
/// different signature, such as one with a flipped byte, is answered
/// `Ok(false)`. Both laws stand as the final two clauses.
pub fn verify(pk: &bls_pk, msg: &[u8], sig: &bls_sig) -> (r: Result<bool, BlsError>)
    ensures
        r is Ok <==> pk_valid(pk@) && sig_valid(sig@),
        r is Ok ==> r->Ok_0 == verifies(pk@, msg@, spec_dst(), sig@),
        !pk_valid(pk@) ==> r == Err::<bool, BlsError>(BlsError::InvalidPublicKey),
        pk_valid(pk@) && !sig_valid(sig@) ==> r == Err::<bool, BlsError>(
            BlsError::InvalidSignature,
        ),
        (pk_valid(pk@) && sig_valid(sig@) && exists|skb: Seq<u8>|
            sk_valid(skb) && pk@ == pk_of_sk(skb) && sig@ == #[trigger] sig_of(
                skb,
                msg@,
                spec_dst(),
            )) ==> r == Ok::<bool, BlsError>(true),
        r == Ok::<bool, BlsError>(true) ==> forall|skb: Seq<u8>|
            sk_valid(skb) && pk@ == #[trigger] pk_of_sk(skb) ==> sig@ == sig_of(
                skb,
                msg@,
                spec_dst(),
            ),
{
    if !raw_pk_check(pk) {
        return Err(BlsError::InvalidPublicKey);
    }
    if !raw_sig_check(sig) {
        return Err(BlsError::InvalidSignature);
    }
    let dst = dst_bytes();
    Ok(raw_verify(pk, msg, dst.as_slice(), sig))
}

/// Combine signatures over one shared message into a single aggregate,
/// without verifying any of them.
///
/// Every input buffer must decode to a valid signature-group element; any
/// failure aborts the whole aggregation, and a partial aggregate is never
/// returned. No validity check against any message or key is performed —
/// the caller either verifies the aggregate afterwards or has already
/// verified each signature. An empty list is the one recoverable error. The
/// result is the group sum, a function of the multiset of inputs alone; in
/// particular, aggregating a single fixed-size signature returns its bytes
/// unchanged, the encoding being canonical.
pub fn aggregate(sigs: &[bls_sig]) -> (r: Result<bls_sig, BlsError>)
    ensures
        r is Ok <==> sigs@.len() > 0 && all_sigs_valid(sig_views(sigs@)),
        r is Ok ==> {
            let s = r->Ok_0;
            s.wf() && s@ == spec_aggregate(sig_views(sigs@)) && sig_valid(s@)
        },
        r is Ok && sigs@.len() == 1 && sigs@[0]@.len() == SIG_LEN ==> (r->Ok_0)@ == sigs@[0]@,
        sigs@.len() == 0 ==> r == Err::<bls_sig, BlsError>(BlsError::EmptyInput),
        sigs@.len() > 0 && !all_sigs_valid(sig_views(sigs@)) ==> r == Err::<bls_sig, BlsError>(
            BlsError::InvalidSignature,
        ),
{
    if sigs.len() == 0 {
        return Err(BlsError::EmptyInput);
    }
    let mut i: usize = 0;
    while i < sigs.len()
        invariant
            i <= sigs@.len(),
            forall|j: int| 0 <= j < i ==> sig_valid(#[trigger] sig_views(sigs@)[j]),
        decreases sigs@.len() - i,
    {
        if !raw_sig_check(&sigs[i]) {
            assert(!sig_valid(sig_views(sigs@)[i as int]));
            return Err(BlsError::InvalidSignature);
        }
        i += 1;
    }
    Ok(raw_aggregate(sigs))
}

/// The aggregate encoding of a list of valid signatures: the compressed
/// group sum, which depends only on the multiset of the list.
pub open spec fn spec_aggregate(sigs: Seq<Seq<u8>>) -> Seq<u8> {
    agg_of(sigs.to_multiset())
}

/// Verify an aggregated signature against the public keys of all signers
/// and the single message every one of them signed.
///
/// The keys are summed in their group — a multiset operation, so signer
/// order is irrelevant — and one pairing check is run against the sum,
/// whatever the number of signers. Malformed encodings are boundary-contract
/// violations, the signature buffer being checked before anything else; an
/// empty key list is the recoverable `EmptyInput`. The two laws of the
/// scheme stand as the final two clauses: when the aggregate is exactly the
/// combination of signatures by these keys over this message, the answer is
/// `Ok(true)` — except for an aggregate that is the identity encoding, which
/// arises only from keys whose scalars cancel and which the primitives
/// reject by refusing the infinite key sum, answering `Ok(false)` — and
/// conversely `Ok(true)` pins the aggregate to exactly that combination, so
/// a key list that does not account for every signer is answered
/// `Ok(false)`.
pub fn verify_aggregated(pks: &[bls_pk], msg: &[u8], agg_sig: &bls_sig) -> (r: Result<
    bool,
    BlsError,
>)
    ensures
        r is Ok <==> pks@.len() > 0 && all_pks_valid(pk_views(pks@)) && sig_valid(agg_sig@),
        r is Ok ==> r->Ok_0 == agg_verifies(
            pk_views(pks@).to_multiset(),
            msg@,
            spec_dst(),
            agg_sig@,
        ),
        !sig_valid(agg_sig@) ==> r == Err::<bool, BlsError>(BlsError::InvalidSignature),
        sig_valid(agg_sig@) && pks@.len() == 0 ==> r == Err::<bool, BlsError>(
            BlsError::EmptyInput,
        ),
        sig_valid(agg_sig@) && pks@.len() > 0 && !all_pks_valid(pk_views(pks@)) ==> r == Err::<
            bool,
            BlsError,
        >(BlsError::InvalidPublicKey),
        (pks@.len() > 0 && all_pks_valid(pk_views(pks@)) && sig_valid(agg_sig@) && agg_sig@
            != identity_sig_enc() && exists|sks: Seq<Seq<u8>>|
            #[trigger] keys_match(sks, pk_views(pks@)) && agg_sig@ == spec_aggregate(
                signatures_of(sks, msg@, spec_dst()),
            )) ==> r == Ok::<bool, BlsError>(true),
        r == Ok::<bool, BlsError>(true) ==> forall|sks: Seq<Seq<u8>>|
            #[trigger] keys_match(sks, pk_views(pks@)) ==> agg_sig@ == spec_aggregate(
                signatures_of(sks, msg@, spec_dst()),
            ),
{
    if !raw_sig_check(agg_sig) {
        return Err(BlsError::InvalidSignature);
    }
    if pks.len() == 0 {
        return Err(BlsError::EmptyInput);
    }
    let mut i: usize = 0;
    while i < pks.len()
        invariant
            i <= pks@.len(),
            sig_valid(agg_sig@),
            forall|j: int| 0 <= j < i ==> pk_valid(#[trigger] pk_views(pks@)[j]),
        decreases pks@.len() - i,
    {
        if !raw_pk_check(&pks[i]) {
            assert(!pk_valid(pk_views(pks@)[i as int]));
            return Err(BlsError::InvalidPublicKey);
        }
        i += 1;
    }
    let dst = dst_bytes();
    Ok(raw_verify_agg(pks, msg, dst.as_slice(), agg_sig))
}

/// Key generation is deterministic: any two outputs that meet `keygen`'s
/// contract for the same seed and ciphersuite tag carry identical secret-key
/// and public-key encodings.
pub proof fn lemma_keygen_deterministic(
    seed: Seq<u8>,
    cs: u8,
    first: (Seq<u8>, Seq<u8>),
    second: (Seq<u8>, Seq<u8>),
)
    requires
        first.0 == pk_of_sk(sk_of_seed(seed, cs)) && first.1 == sk_of_seed(seed, cs),
        second.0 == pk_of_sk(sk_of_seed(seed, cs)) && second.1 == sk_of_seed(seed, cs),
    ensures
        first == second,
{
}

/// Aggregation is order-independent: two signature lists with the same
/// multiset of encodings — in particular, any permutation of a list —
/// aggregate to the same encoding, and therefore verify identically against
/// any key list and message.
pub proof fn lemma_aggregate_order_independent(first: Seq<Seq<u8>>, second: Seq<Seq<u8>>)
    requires
        first.to_multiset() == second.to_multiset(),
    ensures
        spec_aggregate(first) == spec_aggregate(second),
{
}

/// Aggregated verification is likewise order-independent in the key list:
/// two public-key lists with the same multiset of encodings give the same
/// answer for every message and aggregate.
pub proof fn lemma_verify_aggregated_order_independent(
    first: Seq<Seq<u8>>,
    second: Seq<Seq<u8>>,
    msg: Seq<u8>,
    sig: Seq<u8>,
)
    requires
        first.to_multiset() == second.to_multiset(),
    ensures
        agg_verifies(first.to_multiset(), msg, spec_dst(), sig) == agg_verifies(
            second.to_multiset(),
            msg,
            spec_dst(),
            sig,
        ),
{
}

} // verus!
