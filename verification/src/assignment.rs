//! The assignment pipeline: create, sign, announce, verify, position.
//!
//! A checker holding a keypair and a story creates an unsigned assignment
//! (its VRF evaluation of the criteria's input transcript), signs it
//! against the context to obtain a DLEQ proof, and packages it for
//! announcement.  A receiver holding the same story verifies the wire form
//! and obtains an assignment usable exactly like a locally signed one, from
//! which the position methods derive the target parachain and the delay
//! tranche.

use vstd::prelude::*;

use crate::{AssignmentResult, DelayTranche, Error, ParaId, ValidatorId};
use crate::context::ApprovalContext;
use crate::criteria::{Criteria, DelayCriteria, RelayEquivocation, RelayVRFDelay, RelayVRFModulo};
use crate::transcript::{PARACHAIN_LABEL, TRANCHE_LABEL};
use crate::vrf::{CheckerPair, VrfPair};
use crate::vrf::{attach_preout, decode_checker_pk, dleq_check, dleq_sign, dleq_valid, is_identity_pk, pk_ok, preout_of, preout_ok, proof_decodes, proof_ok, vrf_bytes, vrf_create, vrf_make_bytes, vrf_pair_clone};
use vstd::bytes::{spec_u64_from_le_bytes, u64_from_le_bytes};
use vstd::array::array_as_slice;

verus! {

/// An assignment's VRF signature: the checker's identity and the DLEQ
/// proof bytes.
#[derive(Clone, Copy)]
pub struct AssignmentSignature {
    /// The identity of the checker that signed.
    pub checker: ValidatorId,
    /// The serialized DLEQ proof.
    pub vrf_proof: [u8; 64],
}

/// An assignment with some computable position.
///
/// Obtained either by evaluating one's own criteria (`create`, then
/// `sign`) or by verifying an announced assignment
/// (`AssignmentSigned::verify`).  `K` is the signature state: `()` while
/// unsigned, [`AssignmentSignature`] once signed; only unsigned
/// assignments can be signed, and only signed ones announced.
pub struct Assignment<C: Criteria, K = AssignmentSignature> {
    /// The criteria-specific data.
    pub criteria: C,
    /// The signature state.
    pub vrf_signature: K,
    /// The VRF input/output pair the position is computed from.
    pub vrf: VrfPair,
}

/// An announcable, verifiable signed assignment: the only form that
/// crosses the system boundary.
pub struct AssignmentSigned<C: Criteria> {
    /// The context the assignment was signed against.
    pub context: ApprovalContext,
    /// The criteria-specific data.
    pub criteria: C,
    /// The serialized VRF preoutput.
    pub vrf_preout: [u8; 32],
    /// The checker's identity and DLEQ proof.
    pub vrf_signature: AssignmentSignature,
}

impl<C: Criteria> Assignment<C, ()> {
    /// An assignment as `create` builds it: its VRF pair is the genuine
    /// evaluation of its key on its input transcript.
    pub open spec fn created(&self) -> bool {
        &&& self.vrf.preout@ == preout_of(self.vrf.pk@, self.vrf.input@)
        &&& preout_ok(self.vrf.preout@)
    }

    /// Create our own assignment for the given criteria, story and
    /// keypair, by evaluating the VRF on the criteria's input transcript.
    /// Fails exactly when the criteria rejects the story.  The identity
    /// key (a forged zero secret scalar, testable with
    /// `CheckerPair::is_identity_key`) is excluded: the primitive rejects
    /// its VRF outputs, so no assignment it created could verify.
    pub fn create(criteria: C, story: &C::Story, checker: &CheckerPair) -> (r: AssignmentResult<Assignment<C, ()>>)
        requires
            !is_identity_pk(checker.pk@),
        ensures
            r is Ok <==> criteria.input_ok(story),
            r is Ok ==> {
                let a = r->Ok_0;
                &&& a.criteria == criteria
                &&& a.vrf.pk@ == checker.pk@
                &&& a.vrf.input@ == criteria.input_entries(story)
                &&& a.created()
            },
            r is Err ==> r->Err_0 == criteria.input_error(story),
    {
        let input = match criteria.vrf_input(story) {
            Ok(t) => t,
            Err(e) => {
                return Err(e);
            }
        };
        let vrf = vrf_create(checker, input);
        Ok(Assignment { criteria, vrf_signature: (), vrf })
    }

    /// VRF-sign our assignment for announcement: bind the context-binding
    /// transcript into a DLEQ proof over the pair.
    pub fn sign(&self, context: &ApprovalContext, checker: &CheckerPair) -> (r: Assignment<C, AssignmentSignature>)
        requires
            self.vrf.pk@ == checker.pk@,
            self.created(),
        ensures
            r.criteria == self.criteria,
            r.vrf.pk@ == self.vrf.pk@,
            r.vrf.input@ == self.vrf.input@,
            r.vrf.preout@ == self.vrf.preout@,
            r.vrf_signature.checker@ == checker.pk@,
            proof_ok(r.vrf_signature.vrf_proof@),
            dleq_valid(checker.pk@, context.transcript_entries(), self.vrf.input@, self.vrf.preout@, r.vrf_signature.vrf_proof@),
    {
        let t = self.criteria.extra(context);
        let vrf_proof = dleq_sign(checker, t, &self.vrf);
        let vrf_signature = AssignmentSignature { checker: checker.validator_id(), vrf_proof };
        Assignment { criteria: self.criteria, vrf_signature, vrf: vrf_pair_clone(&self.vrf) }
    }
}

impl<C: Criteria> Assignment<C, AssignmentSignature> {
    /// Identify the checker.
    pub fn checker(&self) -> (r: &ValidatorId)
        ensures
            r@ == self.vrf_signature.checker@,
    {
        &self.vrf_signature.checker
    }

    /// Package the assignment for announcement.
    pub fn to_signed(&self, context: ApprovalContext) -> (r: AssignmentSigned<C>)
        ensures
            r.context == context,
            r.criteria == self.criteria,
            r.vrf_preout@ == self.vrf.preout@,
            r.vrf_signature == self.vrf_signature,
    {
        AssignmentSigned {
            context,
            criteria: self.criteria,
            vrf_preout: self.vrf.preout,
            vrf_signature: self.vrf_signature,
        }
    }
}

impl<C: Criteria> AssignmentSigned<C> {
    /// Identify the checker.
    pub fn checker(&self) -> (r: &ValidatorId)
        ensures
            r@ == self.vrf_signature.checker@,
    {
        &self.vrf_signature.checker
    }

    /// Exactly when `verify` succeeds on this story: the checker identity
    /// decodes, the criteria accepts the story, the preoutput decodes, the
    /// proof decodes, and the DLEQ proof is valid for the recomputed input
    /// and context transcripts.
    pub open spec fn verify_ok(&self, story: &C::Story) -> bool {
        &&& pk_ok(self.vrf_signature.checker@)
        &&& self.criteria.input_ok(story)
        &&& preout_ok(self.vrf_preout@)
        &&& proof_ok(self.vrf_signature.vrf_proof@)
        &&& dleq_valid(self.vrf_signature.checker@, self.context.transcript_entries(), self.criteria.input_entries(story), self.vrf_preout@, self.vrf_signature.vrf_proof@)
    }

    /// The error `verify` returns on this story, when it fails: the first
    /// check that goes wrong decides.
    pub open spec fn verify_error(&self, story: &C::Story) -> Error {
        if !pk_ok(self.vrf_signature.checker@) {
            Error::BadAssignment("Bad VRF signature (bad publickey)")
        } else if !self.criteria.input_ok(story) {
            self.criteria.input_error(story)
        } else if !preout_ok(self.vrf_preout@) {
            Error::BadAssignment("Bad VRF signature (bad pre-output)")
        } else if !proof_ok(self.vrf_signature.vrf_proof@) {
            Error::BadAssignment("Bad VRF signature (bad proof)")
        } else {
            Error::BadAssignment("Bad VRF signature (invalid)")
        }
    }

    /// Verify an announced assignment against our own story.  On success
    /// the returned assignment carries exactly the announced criteria,
    /// checker and preoutput, attached to the recomputed input transcript,
    /// so its position is the one the signer computed.
    pub fn verify(&self, story: &C::Story) -> (r: AssignmentResult<(&ApprovalContext, Assignment<C, AssignmentSignature>)>)
        ensures
            r is Ok <==> self.verify_ok(story),
            r is Ok ==> {
                let a = r->Ok_0.1;
                &&& r->Ok_0.0 == &self.context
                &&& a.criteria == self.criteria
                &&& a.vrf.pk@ == self.vrf_signature.checker@
                &&& a.vrf.input@ == self.criteria.input_entries(story)
                &&& a.vrf.preout@ == self.vrf_preout@
                &&& a.vrf_signature == self.vrf_signature
            },
            r is Err ==> r->Err_0 == self.verify_error(story),
    {
        let checker_pk = match decode_checker_pk(&self.vrf_signature.checker) {
            Some(pk) => pk,
            None => {
                return Err(Error::BadAssignment("Bad VRF signature (bad publickey)"));
            }
        };
        let input = match self.criteria.vrf_input(story) {
            Ok(t) => t,
            Err(e) => {
                return Err(e);
            }
        };
        let vrf = match attach_preout(&checker_pk, &self.vrf_preout, input) {
            Some(v) => v,
            None => {
                return Err(Error::BadAssignment("Bad VRF signature (bad pre-output)"));
            }
        };
        if !proof_decodes(&self.vrf_signature.vrf_proof) {
            return Err(Error::BadAssignment("Bad VRF signature (bad proof)"));
        }
        let t = self.criteria.extra(&self.context);
        if !dleq_check(&checker_pk, t, &vrf, &self.vrf_signature.vrf_proof) {
            return Err(Error::BadAssignment("Bad VRF signature (invalid)"));
        }
        Ok((
            &self.context,
            Assignment { criteria: self.criteria, vrf_signature: self.vrf_signature, vrf },
        ))
    }
}

impl<C: Criteria> AssignmentSigned<C> {
    /// What `create`, `sign` and `to_signed` guarantee of an announced
    /// assignment built from this story and its own context: the checker
    /// bytes encode the signer's key, the criteria accepted the story, the
    /// preoutput is the signer's genuine VRF output on the recomputed
    /// input transcript, and the proof binds it to the context transcript.
    pub open spec fn announced_by_signer(&self, story: &C::Story) -> bool {
        &&& pk_ok(self.vrf_signature.checker@)
        &&& self.criteria.input_ok(story)
        &&& self.vrf_preout@ == preout_of(self.vrf_signature.checker@, self.criteria.input_entries(story))
        &&& preout_ok(self.vrf_preout@)
        &&& proof_ok(self.vrf_signature.vrf_proof@)
        &&& dleq_valid(self.vrf_signature.checker@, self.context.transcript_entries(), self.criteria.input_entries(story), self.vrf_preout@, self.vrf_signature.vrf_proof@)
    }
}

/// An assignment signed by its creator always verifies: if the announced
/// fields are exactly what `create` and `sign` produced from this story
/// and context, then every check of `verify` passes, and the verifier
/// reconstructs the VRF pair the signer computed its position from.
pub proof fn lemma_round_trip_verifies<C: Criteria>(signed: &AssignmentSigned<C>, story: &C::Story)
    requires
        signed.announced_by_signer(story),
    ensures
        signed.verify_ok(story),
{
}

/// A position depends only on the plain values that model the VRF pair:
/// two pairs that agree on public key, input entries and preoutput, such
/// as the signer's own pair and the one a verifier reconstructs from the
/// announced assignment, yield the same sortition value under every
/// label, and so the same paraid and delay tranche.
pub proof fn lemma_position_from_model(a: VrfPair, b: VrfPair, label: Seq<u8>)
    requires
        a.pk@ == b.pk@,
        a.input@ == b.input@,
        a.preout@ == b.preout@,
    ensures
        sortition_value(a, label) == sortition_value(b, label),
{
}

/// Positions are provenance-independent for modulo assignments: two
/// assignments whose VRF pairs agree on the model triple, as the signer's
/// own and any verifier's do by `verify`'s postcondition, select the same
/// core in every context (and both always sit in tranche zero).
pub proof fn lemma_modulo_position_provenance<K1, K2>(
    a: &Assignment<RelayVRFModulo, K1>,
    b: &Assignment<RelayVRFModulo, K2>,
    context: &ApprovalContext,
)
    requires
        a.vrf.pk@ == b.vrf.pk@,
        a.vrf.input@ == b.vrf.input@,
        a.vrf.preout@ == b.vrf.preout@,
    ensures
        modulo_core_spec(sortition_value(a.vrf, PARACHAIN_LABEL@), context.paraids_by_core@)
            == modulo_core_spec(sortition_value(b.vrf, PARACHAIN_LABEL@), context.paraids_by_core@),
{
    lemma_position_from_model(a.vrf, b.vrf, PARACHAIN_LABEL@);
}

/// Positions are provenance-independent for delay-based assignments: with
/// equal criteria the paraid is the same by `paraid`'s contract, and VRF
/// pairs that agree on the model triple, as the signer's own and any
/// verifier's do by `verify`'s postcondition, yield the same delay
/// tranche in every context.
pub proof fn lemma_delay_position_provenance<C: DelayCriteria, K1, K2>(
    a: &Assignment<C, K1>,
    b: &Assignment<C, K2>,
    context: &ApprovalContext,
)
    requires
        a.criteria == b.criteria,
        a.vrf.pk@ == b.vrf.pk@,
        a.vrf.input@ == b.vrf.input@,
        a.vrf.preout@ == b.vrf.preout@,
    ensures
        a.criteria.paraid_spec() == b.criteria.paraid_spec(),
        tranche_spec(
            sortition_value(a.vrf, TRANCHE_LABEL@),
            context.num_cores_spec(),
            C::delay_tranches_per_core_spec(),
            C::zeroth_delay_tranche_width_spec(),
        ) == tranche_spec(
            sortition_value(b.vrf, TRANCHE_LABEL@),
            context.num_cores_spec(),
            C::delay_tranches_per_core_spec(),
            C::zeroth_delay_tranche_width_spec(),
        ),
{
    lemma_position_from_model(a.vrf, b.vrf, TRANCHE_LABEL@);
}

/// Saturating 32-bit multiplication.
pub open spec fn sat_mul_u32(a: u32, b: u32) -> u32 {
    if a * b > u32::MAX {
        u32::MAX
    } else {
        (a * b) as u32
    }
}

/// Saturating 32-bit multiplication.
pub fn saturating_mul_u32(a: u32, b: u32) -> (r: u32)
    ensures
        r == sat_mul_u32(a, b),
{
    match a.checked_mul(b) {
        Some(x) => x,
        None => u32::MAX,
    }
}

/// The parachain id that a sortition value selects: the value reduced
/// modulo the number of cores indexes the core table, whose entry may be
/// empty for an unoccupied core.
pub open spec fn modulo_core_spec(value: u64, paraids: Seq<Option<ParaId>>) -> Option<ParaId>
    recommends
        paraids.len() > 0,
{
    paraids[value as int % paraids.len() as int]
}

/// Select a core by a sortition value: reduce it modulo the number of
/// cores and index the core table.
pub fn modulo_paraid_value(value: u64, context: &ApprovalContext) -> (r: Option<ParaId>)
    requires
        context.paraids_by_core@.len() > 0,
    ensures
        r == modulo_core_spec(value, context.paraids_by_core@),
{
    let len = context.paraids_by_core.len();
    let idx = (value % (len as u64)) as usize;
    context.paraids_by_core[idx]
}

/// The delay tranche that a sortition value selects: the value reduced
/// modulo `num_cores * per_core + width` (saturating), then shifted down
/// by `width` with a floor at zero, so that tranche zero takes `width + 1`
/// virtual slots and the remainder spreads evenly over later tranches.
pub open spec fn tranche_spec(value: u64, num_cores: u32, per_core: u32, width: u32) -> DelayTranche
    recommends
        sat_mul_u32(num_cores, per_core).saturating_add(width) > 0,
{
    let modulus = sat_mul_u32(num_cores, per_core).saturating_add(width);
    let raw = value % (modulus as u64);
    raw.saturating_sub(width as u64) as u32
}

/// Compute a delay tranche from a sortition value.  The result always
/// falls short of `num_cores * per_core` (saturating), so every tranche
/// number a positive core count can produce lies in
/// `[0, num_cores * per_core)`.
pub fn tranche_value(value: u64, num_cores: u32, per_core: u32, width: u32) -> (r: DelayTranche)
    requires
        sat_mul_u32(num_cores, per_core).saturating_add(width) > 0,
    ensures
        r == tranche_spec(value, num_cores, per_core, width),
        sat_mul_u32(num_cores, per_core) > 0 ==> r < sat_mul_u32(num_cores, per_core),
{
    let modulus = saturating_mul_u32(num_cores, per_core).saturating_add(width);
    let raw = value % (modulus as u64);
    raw.saturating_sub(width as u64) as u32
}

/// The pseudorandom 64-bit sortition value a VRF pair yields under a
/// label.
pub open spec fn sortition_value(vrf: VrfPair, label: Seq<u8>) -> u64 {
    spec_u64_from_le_bytes(vrf_bytes(vrf.pk@, vrf.input@, vrf.preout@, label))
}

/// Draw the 64-bit sortition value of a VRF pair under a label.
fn draw_sortition_value(vrf: &VrfPair, label: &'static [u8]) -> (r: u64)
    ensures
        r == sortition_value(*vrf, label@),
{
    let bytes = vrf_make_bytes(vrf, label);
    u64_from_le_bytes(array_as_slice(&bytes))
}

impl<K> Assignment<RelayVRFModulo, K> {
    /// Assign our parachain from the core table: the VRF output drawn
    /// under the `"parachain"` label, reduced modulo the number of cores,
    /// indexes it; an unoccupied core means no assignment.
    pub fn paraid(&self, context: &ApprovalContext) -> (r: Option<ParaId>)
        requires
            context.paraids_by_core@.len() > 0,
        ensures
            r == modulo_core_spec(sortition_value(self.vrf, PARACHAIN_LABEL@), context.paraids_by_core@),
    {
        let value = draw_sortition_value(&self.vrf, &PARACHAIN_LABEL);
        modulo_paraid_value(value, context)
    }

    /// Modulo assignments always land in the zeroth delay tranche: they
    /// guarantee a baseline of immediate checkers regardless of tranche
    /// tuning.
    pub fn delay_tranche(&self, _context: &ApprovalContext) -> (r: DelayTranche)
        ensures
            r == 0,
    {
        0
    }
}

/// Assign the parachain explicitly carried by a delay criteria, unless it
/// is not occupying any live core in this context.
pub fn delay_paraid<C: DelayCriteria>(criteria: &C, context: &ApprovalContext) -> (r: Option<ParaId>)
    ensures
        context.has_core_for(criteria.paraid_spec()) ==> r == Some(criteria.paraid_spec()),
        !context.has_core_for(criteria.paraid_spec()) ==> r is None,
{
    let paraid = criteria.paraid();
    if context.core_by_paraid(paraid).is_none() {
        return None;
    }
    Some(paraid)
}

/// Compute the delay tranche of a delay criteria from the VRF pair: the
/// value drawn under the `"tranche"` label, tuned by the criteria's
/// network-wide constants.
pub fn delay_tranche_of<C: DelayCriteria>(vrf: &VrfPair, context: &ApprovalContext) -> (r: DelayTranche)
    requires
        context.wf(),
        sat_mul_u32(context.num_cores_spec(), C::delay_tranches_per_core_spec()).saturating_add(C::zeroth_delay_tranche_width_spec()) > 0,
    ensures
        r == tranche_spec(sortition_value(*vrf, TRANCHE_LABEL@), context.num_cores_spec(), C::delay_tranches_per_core_spec(), C::zeroth_delay_tranche_width_spec()),
        sat_mul_u32(context.num_cores_spec(), C::delay_tranches_per_core_spec()) > 0 ==> r < sat_mul_u32(context.num_cores_spec(), C::delay_tranches_per_core_spec()),
{
    let value = draw_sortition_value(vrf, &TRANCHE_LABEL);
    tranche_value(value, context.num_cores(), C::delay_tranches_per_core(), C::zeroth_delay_tranche_width())
}

impl<K> Assignment<RelayVRFDelay, K> {
    /// Assign our parachain from the one explicitly stored, but only if it
    /// currently occupies a core.
    pub fn paraid(&self, context: &ApprovalContext) -> (r: Option<ParaId>)
        ensures
            context.has_core_for(self.criteria.paraid) ==> r == Some(self.criteria.paraid),
            !context.has_core_for(self.criteria.paraid) ==> r is None,
    {
        delay_paraid(&self.criteria, context)
    }

    /// Assign our delay using the VRF output.  The tranche always lies in
    /// `[0, num_cores * 2)`.
    pub fn delay_tranche(&self, context: &ApprovalContext) -> (r: DelayTranche)
        requires
            context.wf(),
            context.num_cores_spec() > 0,
        ensures
            r == tranche_spec(sortition_value(self.vrf, TRANCHE_LABEL@), context.num_cores_spec(), 2, 0),
            r < sat_mul_u32(context.num_cores_spec(), 2),
    {
        delay_tranche_of::<RelayVRFDelay>(&self.vrf, context)
    }
}

impl<K> Assignment<RelayEquivocation, K> {
    /// Assign our parachain from the one explicitly stored, but only if it
    /// currently occupies a core.
    pub fn paraid(&self, context: &ApprovalContext) -> (r: Option<ParaId>)
        ensures
            context.has_core_for(self.criteria.paraid) ==> r == Some(self.criteria.paraid),
            !context.has_core_for(self.criteria.paraid) ==> r is None,
    {
        delay_paraid(&self.criteria, context)
    }

    /// Assign our delay using the VRF output.  With a positive core count
    /// the tranche always lies in `[0, num_cores * 2)`.
    pub fn delay_tranche(&self, context: &ApprovalContext) -> (r: DelayTranche)
        requires
            context.wf(),
        ensures
            r == tranche_spec(sortition_value(self.vrf, TRANCHE_LABEL@), context.num_cores_spec(), 2, 7),
            context.num_cores_spec() > 0 ==> r < sat_mul_u32(context.num_cores_spec(), 2),
    {
        delay_tranche_of::<RelayEquivocation>(&self.vrf, context)
    }
}

} // verus!
