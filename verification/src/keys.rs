//! Fixed-size byte containers for key and signature material.
//!
//! These types are the data currency of the boundary: a secret key, a public
//! key and a signature each travel as a buffer of one fixed length, and a
//! container is only ever built from a slice whose length was checked first.
//! The view of each container is the byte sequence it carries; whether those
//! bytes decode to a valid group element is a separate question, answered by
//! the operations that consume the container.

use vstd::prelude::*;

use crate::err::BlsError;
use crate::prims::identity_sig_enc;
use crate::PK_LEN;
use crate::SIG_LEN;
use crate::SK_LEN;

verus! {

/// A secret-key buffer of exactly `SK_LEN` bytes.
#[allow(non_camel_case_types)]
#[derive(Debug, Clone)]
pub struct bls_sk {
    pub(crate) data: Vec<u8>,
}

/// A public-key buffer of exactly `PK_LEN` bytes (compressed-point form).
#[allow(non_camel_case_types)]
#[derive(Debug, Clone)]
pub struct bls_pk {
    pub(crate) data: Vec<u8>,
}

/// A signature buffer of exactly `SIG_LEN` bytes (compressed-point form).
/// An aggregated signature uses this same type and encoding.
#[allow(non_camel_case_types)]
#[derive(Debug, Clone)]
pub struct bls_sig {
    pub(crate) data: Vec<u8>,
}

/// The output of key generation: a public key and its secret key.
#[allow(non_camel_case_types)]
#[derive(Debug, Clone)]
pub struct bls_keys {
    pub(crate) pk: bls_pk,
    pub(crate) sk: bls_sk,
}

impl View for bls_sk {
    type V = Seq<u8>;

    closed spec fn view(&self) -> Seq<u8> {
        self.data@
    }
}

impl View for bls_pk {
    type V = Seq<u8>;

    closed spec fn view(&self) -> Seq<u8> {
        self.data@
    }
}

impl View for bls_sig {
    type V = Seq<u8>;

    closed spec fn view(&self) -> Seq<u8> {
        self.data@
    }
}

impl View for bls_keys {
    type V = (Seq<u8>, Seq<u8>);

    /// The pair (public-key bytes, secret-key bytes).
    closed spec fn view(&self) -> (Seq<u8>, Seq<u8>) {
        (self.pk@, self.sk@)
    }
}

impl bls_sk {
    /// The container holds exactly the fixed encoded length.
    pub open spec fn wf(&self) -> bool {
        self@.len() == SK_LEN
    }

    /// Borrow a secret-key buffer from a caller-supplied slice, rejecting any
    /// slice that is not exactly `SK_LEN` bytes long.
    pub fn from_bytes(b: &[u8]) -> (r: Result<Self, BlsError>)
        ensures
            r is Ok <==> b@.len() == SK_LEN,
            r is Ok ==> (r->Ok_0)@ == b@ && (r->Ok_0).wf(),
            r is Err ==> r->Err_0 == BlsError::WrongLength,
    {
        if b.len() == SK_LEN {
            Ok(bls_sk { data: vstd::slice::slice_to_vec(b) })
        } else {
            Err(BlsError::WrongLength)
        }
    }

    /// Copy the fixed-size encoding out of the container.
    pub fn to_bytes(&self) -> (r: Vec<u8>)
        ensures
            r@ == self@,
    {
        vstd::slice::slice_to_vec(self.data.as_slice())
    }
}

impl bls_pk {
    /// The container holds exactly the fixed encoded length.
    pub open spec fn wf(&self) -> bool {
        self@.len() == PK_LEN
    }

    /// Borrow a public-key buffer from a caller-supplied slice, rejecting any
    /// slice that is not exactly `PK_LEN` bytes long.
    pub fn from_bytes(b: &[u8]) -> (r: Result<Self, BlsError>)
        ensures
            r is Ok <==> b@.len() == PK_LEN,
            r is Ok ==> (r->Ok_0)@ == b@ && (r->Ok_0).wf(),
            r is Err ==> r->Err_0 == BlsError::WrongLength,
    {
        if b.len() == PK_LEN {
            Ok(bls_pk { data: vstd::slice::slice_to_vec(b) })
        } else {
            Err(BlsError::WrongLength)
        }
    }

    /// Copy the fixed-size encoding out of the container.
    pub fn to_bytes(&self) -> (r: Vec<u8>)
        ensures
            r@ == self@,
    {
        vstd::slice::slice_to_vec(self.data.as_slice())
    }
}

impl bls_sig {
    /// The container holds exactly the fixed encoded length.
    pub open spec fn wf(&self) -> bool {
        self@.len() == SIG_LEN
    }

    /// Borrow a signature buffer from a caller-supplied slice, rejecting any
    /// slice that is not exactly `SIG_LEN` bytes long.
    pub fn from_bytes(b: &[u8]) -> (r: Result<Self, BlsError>)
        ensures
            r is Ok <==> b@.len() == SIG_LEN,
            r is Ok ==> (r->Ok_0)@ == b@ && (r->Ok_0).wf(),
            r is Err ==> r->Err_0 == BlsError::WrongLength,
    {
        if b.len() == SIG_LEN {
            Ok(bls_sig { data: vstd::slice::slice_to_vec(b) })
        } else {
            Err(BlsError::WrongLength)
        }
    }

    /// Copy the fixed-size encoding out of the container.
    pub fn to_bytes(&self) -> (r: Vec<u8>)
        ensures
            r@ == self@,
    {
        vstd::slice::slice_to_vec(self.data.as_slice())
    }

    /// Whether this container holds the identity element's encoding — the
    /// aggregate of signatures under keys whose scalars cancel. Aggregated
    /// verification promises acceptance of a matching aggregate only when it
    /// is not the identity, so a caller relying on that promise tests here.
    pub fn is_identity(&self) -> (r: bool)
        ensures
            r == (self@ == identity_sig_enc()),
    {
        if self.data.len() != SIG_LEN {
            proof {
                assert(self@ != identity_sig_enc());
            }
            return false;
        }
        if self.data[0] != 0xc0 {
            proof {
                assert(self@[0] != identity_sig_enc()[0]);
            }
            return false;
        }
        let mut i: usize = 1;
        while i < SIG_LEN
            invariant
                1 <= i <= SIG_LEN,
                self@.len() == SIG_LEN,
                self@[0] == 0xc0,
                forall|j: int| 1 <= j < i ==> self@[j] == 0,
            decreases SIG_LEN - i,
        {
            if self.data[i] != 0 {
                proof {
                    assert(self@[i as int] != identity_sig_enc()[i as int]);
                }
                return false;
            }
            i += 1;
        }
        proof {
            assert(self@ =~= identity_sig_enc());
        }
        true
    }
}

impl bls_keys {
    /// Both members hold their fixed encoded lengths.
    pub open spec fn wf(&self) -> bool {
        self@.0.len() == PK_LEN && self@.1.len() == SK_LEN
    }

    /// The public-key member.
    pub fn pk(&self) -> (r: &bls_pk)
        ensures
            r@ == self@.0,
    {
        &self.pk
    }

    /// The secret-key member.
    pub fn sk(&self) -> (r: &bls_sk)
        ensures
            r@ == self@.1,
    {
        &self.sk
    }

    /// Take the pair apart, handing ownership of both members to the caller.
    pub fn into_parts(self) -> (r: (bls_pk, bls_sk))
        ensures
            r.0@ == self@.0,
            r.1@ == self@.1,
    {
        let bls_keys { pk, sk } = self;
        (pk, sk)
    }

    /// Assemble the key-generation output from its two members.
    pub(crate) fn assemble(pk: bls_pk, sk: bls_sk) -> (r: bls_keys)
        ensures
            r@.0 == pk@,
            r@.1 == sk@,
    {
        bls_keys { pk, sk }
    }
}

} // verus!
