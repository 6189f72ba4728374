//! The VRF primitive, specified at its interface.
//!
//! The elliptic-curve work stays inside `schnorrkel`; this module gives each
//! call a contract over plain values.  A VRF input/output pair is modelled by
//! the triple (public key bytes, input transcript entries, preoutput bytes):
//! schnorrkel derives the input point from the public key and the transcript
//! alone, and the output point is exactly what the preoutput bytes encode, so
//! every byte the pair can produce is a function of that triple.  The names
//! `preout_of`, `vrf_bytes` and `dleq_valid` stand for results that would
//! take pages to state; nothing in this crate claims their values, only how
//! the schnorrkel calls relate them.

use vstd::prelude::*;

use crate::transcript::{Entry, VrfTranscript};

verus! {

#[verifier::external_type_specification]
#[verifier::external_body]
pub struct ExKeypair(schnorrkel::Keypair);

#[verifier::external_type_specification]
#[verifier::external_body]
pub struct ExPublicKey(schnorrkel::PublicKey);

#[verifier::external_type_specification]
#[verifier::external_body]
pub struct ExVRFInOut(schnorrkel::vrf::VRFInOut);

/// Whether `schnorrkel::PublicKey::from_bytes` accepts these bytes as a
/// public key.
pub uninterp spec fn pk_ok(pk: Seq<u8>) -> bool;

/// Whether these public key bytes encode the identity point: 32 zero
/// bytes, the public key of a zero secret scalar.  No honest key
/// generation produces it, and the primitive rejects its VRF outputs
/// (the output point would be the identity, which `attach_input_hash`
/// refuses), so VRF evaluation excludes it.
pub open spec fn is_identity_pk(pk: Seq<u8>) -> bool {
    pk =~= Seq::new(32, |i: int| 0u8)
}

/// Whether `schnorrkel::vrf::VRFPreOut::attach_input_hash` accepts these
/// bytes as a VRF preoutput (a canonical, non-identity Ristretto point).
pub uninterp spec fn preout_ok(preout: Seq<u8>) -> bool;

/// Whether `schnorrkel::vrf::VRFProof::from_bytes` accepts these bytes as a
/// proof (two canonical scalars).
pub uninterp spec fn proof_ok(proof: Seq<u8>) -> bool;

/// The serialized VRF output that the key behind `pk` produces on the input
/// transcript `input`: what `Keypair::vrf_create_hash` followed by
/// `VRFInOut::to_preout().to_bytes()` returns.
pub uninterp spec fn preout_of(pk: Seq<u8>, input: Seq<Entry>) -> Seq<u8>;

/// The pseudorandom bytes that `VRFInOut::make_bytes` derives under `label`
/// from the pair modelled by (`pk`, `input`, `preout`).
pub uninterp spec fn vrf_bytes(pk: Seq<u8>, input: Seq<Entry>, preout: Seq<u8>, label: Seq<u8>) -> Seq<u8>;

/// Whether `PublicKey::dleq_verify` (under the network's fixed
/// `KUSAMA_VRF` protocol identifier) accepts `proof` for the extra
/// transcript `extra` and the VRF pair modelled by (`pk`, `input`,
/// `preout`).
pub uninterp spec fn dleq_valid(pk: Seq<u8>, extra: Seq<Entry>, input: Seq<Entry>, preout: Seq<u8>, proof: Seq<u8>) -> bool;

/// A checker's keypair, alongside its serialized public key.
pub struct CheckerPair {
    pub inner: schnorrkel::Keypair,
    pub pk: [u8; 32],
}

/// A checker's public key as decoded from wire bytes, alongside those bytes.
pub struct CheckerPk {
    pub inner: schnorrkel::PublicKey,
    pub bytes: [u8; 32],
}

/// A VRF input/output pair, alongside the plain values that model it: the
/// public key bytes it is attached to, the entries of the input transcript,
/// and the serialized preoutput.
pub struct VrfPair {
    pub inner: schnorrkel::vrf::VRFInOut,
    pub pk: [u8; 32],
    pub input: Ghost<Seq<Entry>>,
    pub preout: [u8; 32],
}

impl CheckerPair {
    /// Relies on `schnorrkel::PublicKey::to_bytes`: the 32 bytes it returns
    /// are the key's canonical encoding, which `PublicKey::from_bytes`
    /// accepts again.
    #[verifier::external_body]
    pub fn from_keypair(keypair: schnorrkel::Keypair) -> (r: CheckerPair)
        ensures
            pk_ok(r.pk@),
    {
        let pk = keypair.public.to_bytes();
        CheckerPair { inner: keypair, pk }
    }

    /// The checker's public identity.
    pub fn validator_id(&self) -> (r: [u8; 32])
        ensures
            r@ == self.pk@,
    {
        self.pk
    }

    /// Whether this keypair's public key encodes the identity point.
    /// Such a key arises only from a forged zero secret scalar;
    /// `Assignment::create` excludes it, since the primitive rejects its
    /// VRF outputs.
    pub fn is_identity_key(&self) -> (r: bool)
        ensures
            r == is_identity_pk(self.pk@),
    {
        let mut i: usize = 0;
        while i < 32
            invariant
                i <= 32,
                forall|j: int| 0 <= j < i ==> self.pk@[j] == 0u8,
            decreases 32 - i,
        {
            if self.pk[i] != 0 {
                assert(!is_identity_pk(self.pk@)) by {
                    assert(Seq::new(32, |k: int| 0u8)[i as int] == 0u8);
                }
                return false;
            }
            i = i + 1;
        }
        assert(self.pk@ =~= Seq::new(32, |k: int| 0u8));
        true
    }
}

/// Relies on `schnorrkel::Keypair::vrf_create_hash`: the pair it returns is
/// the keypair's unique VRF evaluation on the input transcript, and on
/// `VRFInOut::to_preout`/`to_bytes`: the preoutput bytes are its canonical
/// serialization, which `attach_input_hash` accepts again.  The identity
/// key is excluded: a zero secret scalar would make the output point the
/// identity, the one point `attach_input_hash` refuses; for any other key
/// the output of the prime-order group is a non-identity point.
#[verifier::external_body]
pub(crate) fn vrf_create(checker: &CheckerPair, input: VrfTranscript) -> (r: VrfPair)
    requires
        !is_identity_pk(checker.pk@),
    ensures
        r.pk@ == checker.pk@,
        r.input@ == input.entries@,
        r.preout@ == preout_of(checker.pk@, input.entries@),
        preout_ok(r.preout@),
{
    let io = checker.inner.vrf_create_hash(input.inner);
    let preout = io.to_preout().to_bytes();
    VrfPair { inner: io, pk: checker.pk, input: input.entries, preout }
}

/// Relies on `schnorrkel::Keypair::dleq_proove` under `KUSAMA_VRF`: for a
/// pair genuinely evaluated by this keypair, the proof it returns passes
/// `dleq_verify` on the same extra transcript and pair, and serializes to
/// two canonical scalars that `VRFProof::from_bytes` accepts again.
#[verifier::external_body]
pub(crate) fn dleq_sign(checker: &CheckerPair, extra: VrfTranscript, io: &VrfPair) -> (r: [u8; 64])
    requires
        io.pk@ == checker.pk@,
        io.preout@ == preout_of(checker.pk@, io.input@),
    ensures
        dleq_valid(checker.pk@, extra.entries@, io.input@, io.preout@, r@),
        proof_ok(r@),
{
    let (proof, _) = checker.inner.dleq_proove(extra.inner, &io.inner, schnorrkel::vrf::KUSAMA_VRF);
    proof.to_bytes()
}

/// Relies on `schnorrkel::PublicKey::from_bytes`: it accepts exactly the
/// canonical encodings of public keys, and the key it returns re-encodes to
/// the same bytes.
#[verifier::external_body]
pub(crate) fn decode_checker_pk(bytes: &[u8; 32]) -> (r: Option<CheckerPk>)
    ensures
        r is Some <==> pk_ok(bytes@),
        r is Some ==> r->0.bytes@ == bytes@,
{
    match schnorrkel::PublicKey::from_bytes(bytes) {
        Ok(pk) => Some(CheckerPk { inner: pk, bytes: *bytes }),
        Err(_) => None,
    }
}

/// Relies on `schnorrkel::vrf::VRFPreOut::attach_input_hash`: it fails
/// exactly when the preoutput bytes are not a canonical non-identity point,
/// and otherwise returns the pair of the input point derived from the
/// public key and transcript with the output point those bytes encode.
#[verifier::external_body]
pub(crate) fn attach_preout(pk: &CheckerPk, preout: &[u8; 32], input: VrfTranscript) -> (r: Option<VrfPair>)
    ensures
        r is Some <==> preout_ok(preout@),
        r is Some ==> {
            &&& r->0.pk@ == pk.bytes@
            &&& r->0.input@ == input.entries@
            &&& r->0.preout@ == preout@
        },
{
    let pre = schnorrkel::vrf::VRFPreOut(*preout);
    match pre.attach_input_hash(&pk.inner, input.inner) {
        Ok(io) => Some(VrfPair { inner: io, pk: pk.bytes, input: input.entries, preout: *preout }),
        Err(_) => None,
    }
}

/// Relies on `schnorrkel::vrf::VRFProof::from_bytes`: it accepts exactly
/// the encodings of two canonical scalars.
#[verifier::external_body]
pub(crate) fn proof_decodes(bytes: &[u8; 64]) -> (r: bool)
    ensures
        r == proof_ok(bytes@),
{
    schnorrkel::vrf::VRFProof::from_bytes(bytes).is_ok()
}

/// Relies on `schnorrkel::PublicKey::dleq_verify` under `KUSAMA_VRF`: its
/// verdict is a function of the public key, the extra transcript, the VRF
/// pair and the proof alone (and on `VRFProof::from_bytes` to re-decode the
/// proof, which the caller has already checked).
#[verifier::external_body]
pub(crate) fn dleq_check(pk: &CheckerPk, extra: VrfTranscript, io: &VrfPair, proof: &[u8; 64]) -> (r: bool)
    requires
        proof_ok(proof@),
        io.pk@ == pk.bytes@,
    ensures
        r == dleq_valid(pk.bytes@, extra.entries@, io.input@, io.preout@, proof@),
{
    match schnorrkel::vrf::VRFProof::from_bytes(proof) {
        Ok(p) => pk.inner.dleq_verify(extra.inner, &io.inner, &p, schnorrkel::vrf::KUSAMA_VRF).is_ok(),
        Err(_) => false,
    }
}

/// Relies on `schnorrkel::vrf::VRFInOut::make_bytes`: the bytes it derives
/// under a label depend only on the label and the two points of the pair,
/// which (`pk`, `input`, `preout`) determine.
#[verifier::external_body]
pub(crate) fn vrf_make_bytes(io: &VrfPair, label: &'static [u8]) -> (r: [u8; 8])
    ensures
        r@ == vrf_bytes(io.pk@, io.input@, io.preout@, label@),
{
    io.inner.make_bytes::<[u8; 8]>(label)
}

/// Relies on `schnorrkel::vrf::VRFInOut::Clone`: the clone is the same pair
/// of points.
#[verifier::external_body]
pub(crate) fn vrf_pair_clone(io: &VrfPair) -> (r: VrfPair)
    ensures
        r.pk@ == io.pk@,
        r.input@ == io.input@,
        r.preout@ == io.preout@,
{
    VrfPair { inner: io.inner.clone(), pk: io.pk, input: io.input, preout: io.preout }
}

} // verus!
