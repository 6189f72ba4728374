//! Approval checker assignment criteria.
//!
//! A criteria decides how the relay-chain context, the criteria's own data
//! and the relevant story shape the VRF invocation: `vrf_input` builds the
//! transcript whose hash becomes the VRF input, `extra` the transcript that
//! the DLEQ proof additionally authenticates.  The exact entries of both
//! are pinned per criteria, since signer and verifier must agree on them
//! bit for bit.

use vstd::prelude::*;

use crate::{AssignmentResult, DelayTranche, Error, ParaId};
use crate::context::{ApprovalContext, RelayEquivocationStory, RelayVRFStory};
use crate::transcript::{Entry, VrfTranscript};
use crate::transcript::{CANDIDATE_EQUIVOCATION_LABEL, PARA_ID_LABEL, RELAY_VRF_DELAY_LABEL, RELAY_VRF_MODULO_LABEL, VRF_CONTEXT_LABEL};

verus! {

/// Approval checker assignment criteria.
///
/// Determines how the relay-chain context, the criteria data and the
/// relevant story impact the VRF invocation.  The three spec functions fix
/// per criteria when input construction succeeds, which entries the input
/// transcript then holds, and which error comes back otherwise.
pub trait Criteria: Sized + Copy {
    /// Additional data required for constructing the VRF input.
    type Story;

    /// Whether `vrf_input` succeeds on this story.
    spec fn input_ok(&self, story: &Self::Story) -> bool;

    /// The entries of the VRF input transcript, when it succeeds.
    spec fn input_entries(&self, story: &Self::Story) -> Seq<Entry>;

    /// The error `vrf_input` returns, when it fails.
    spec fn input_error(&self, story: &Self::Story) -> Error;

    /// Build the transcript from which the VRF input is derived.
    fn vrf_input(&self, story: &Self::Story) -> (r: AssignmentResult<VrfTranscript>)
        ensures
            r is Ok <==> self.input_ok(story),
            r is Ok ==> (r->Ok_0).entries@ == self.input_entries(story),
            r is Err ==> (r->Err_0) == self.input_error(story),
    ;

    /// Build the transcript for the Schnorr DLEQ proof: the context-binding
    /// transcript, identical for every criteria.
    fn extra(&self, context: &ApprovalContext) -> (t: VrfTranscript)
        ensures
            t.entries@ == context.transcript_entries(),
    {
        context.transcript()
    }
}

/// Initial approval checker assignment: the checker's VRF applied to the
/// relay-chain VRF, later reduced modulo the number of parachains.
#[derive(Clone, Copy)]
pub struct RelayVRFModulo {
    /// Which independent sample this is.  Only `0` is supported: rejection
    /// sampling for additional samples needs a VRF-output merge strategy
    /// that is not specified yet.
    pub sample: u16,
}

impl Criteria for RelayVRFModulo {
    type Story = RelayVRFStory;

    open spec fn input_ok(&self, story: &RelayVRFStory) -> bool {
        self.sample == 0
    }

    open spec fn input_entries(&self, story: &RelayVRFStory) -> Seq<Entry> {
        seq![
            Entry::Domain(VRF_CONTEXT_LABEL@),
            Entry::Message { label: RELAY_VRF_MODULO_LABEL@, data: story.anv_rc_vrf_source@ },
            Entry::Number { label: RELAY_VRF_MODULO_LABEL@, value: self.sample as u64 },
        ]
    }

    open spec fn input_error(&self, story: &RelayVRFStory) -> Error {
        Error::BadAssignment("RelayVRFModulo does not yet support additional samples")
    }

    /// Errors exactly when `sample > 0`.
    fn vrf_input(&self, story: &RelayVRFStory) -> (r: AssignmentResult<VrfTranscript>) {
        if self.sample > 0 {
            return Err(Error::BadAssignment("RelayVRFModulo does not yet support additional samples"));
        }
        let mut t = VrfTranscript::new(&VRF_CONTEXT_LABEL);
        t.append_message(&RELAY_VRF_MODULO_LABEL, &story.anv_rc_vrf_source);
        t.append_u64(&RELAY_VRF_MODULO_LABEL, self.sample as u64);
        assert(t.entries@ =~= self.input_entries(story));
        Ok(t)
    }
}

/// Approval checker assignment from the checker's VRF applied to the
/// relay-chain VRF and a parachain id, yielding a delay tranche.  Applies
/// only if too few checkers arrived before that delay.
#[derive(Clone, Copy)]
pub struct RelayVRFDelay {
    /// The parachain this assignment would check.
    pub paraid: ParaId,
}

impl Criteria for RelayVRFDelay {
    type Story = RelayVRFStory;

    open spec fn input_ok(&self, story: &RelayVRFStory) -> bool {
        true
    }

    open spec fn input_entries(&self, story: &RelayVRFStory) -> Seq<Entry> {
        seq![
            Entry::Domain(VRF_CONTEXT_LABEL@),
            Entry::Message { label: RELAY_VRF_DELAY_LABEL@, data: story.anv_rc_vrf_source@ },
            Entry::Number { label: PARA_ID_LABEL@, value: self.paraid as u64 },
        ]
    }

    open spec fn input_error(&self, story: &RelayVRFStory) -> Error {
        Error::BadAssignment("RelayVRFDelay cannot fail")
    }

    /// Never errors.
    fn vrf_input(&self, story: &RelayVRFStory) -> (r: AssignmentResult<VrfTranscript>) {
        let mut t = VrfTranscript::new(&VRF_CONTEXT_LABEL);
        t.append_message(&RELAY_VRF_DELAY_LABEL, &story.anv_rc_vrf_source);
        t.append_u64(&PARA_ID_LABEL, self.paraid as u64);
        assert(t.entries@ =~= self.input_entries(story));
        Ok(t)
    }
}

/// Approval checker assignment based upon the parablock hash of a
/// candidate equivocation.
#[derive(Clone, Copy)]
pub struct RelayEquivocation {
    /// The parachain whose candidate equivocation triggers the check.
    pub paraid: ParaId,
}

impl Criteria for RelayEquivocation {
    type Story = RelayEquivocationStory;

    open spec fn input_ok(&self, story: &RelayEquivocationStory) -> bool {
        story.equivocation_for(self.paraid) is Some
    }

    open spec fn input_entries(&self, story: &RelayEquivocationStory) -> Seq<Entry> {
        seq![
            Entry::Domain(VRF_CONTEXT_LABEL@),
            Entry::Number { label: PARA_ID_LABEL@, value: self.paraid as u64 },
            Entry::Message { label: CANDIDATE_EQUIVOCATION_LABEL@, data: story.equivocation_for(self.paraid)->0@ },
        ]
    }

    open spec fn input_error(&self, story: &RelayEquivocationStory) -> Error {
        Error::BadStory("Not a candidate equivocation")
    }

    /// Errors exactly when the paraid does not currently count as a
    /// candidate equivocation in the story.
    fn vrf_input(&self, story: &RelayEquivocationStory) -> (r: AssignmentResult<VrfTranscript>) {
        let h = match story.lookup_equivocation(self.paraid) {
            Some(h) => h,
            None => {
                return Err(Error::BadStory("Not a candidate equivocation"));
            }
        };
        let mut t = VrfTranscript::new(&VRF_CONTEXT_LABEL);
        t.append_u64(&PARA_ID_LABEL, self.paraid as u64);
        t.append_message(&CANDIDATE_EQUIVOCATION_LABEL, &h);
        assert(t.entries@ =~= self.input_entries(story));
        Ok(t)
    }
}

/// Approval checker assignment criteria that fully utilize delays.
///
/// Unifies the handling of `RelayVRFDelay` and `RelayEquivocation`: both
/// carry an explicit paraid and draw their delay tranche from the VRF
/// output, tuned by two network-wide constants.
pub trait DelayCriteria: Criteria {
    /// The paraid carried by the criteria.
    spec fn paraid_spec(&self) -> ParaId;

    /// How many delays are consolidated at tranche zero (plus one),
    /// ensuring those checkers always run their checks.
    spec fn zeroth_delay_tranche_width_spec() -> DelayTranche;

    /// Delay tranches per core; two, so that each tranche expects half as
    /// many checkers as the number of backing checkers.
    spec fn delay_tranches_per_core_spec() -> DelayTranche;

    /// The paraid carried by the criteria.
    fn paraid(&self) -> (r: ParaId)
        ensures
            r == self.paraid_spec(),
    ;

    /// How many delays are consolidated at tranche zero (plus one).
    fn zeroth_delay_tranche_width() -> (r: DelayTranche)
        ensures
            r == Self::zeroth_delay_tranche_width_spec(),
    ;

    /// Delay tranches per core.
    fn delay_tranches_per_core() -> (r: DelayTranche)
        ensures
            r == Self::delay_tranches_per_core_spec(),
    ;
}

impl DelayCriteria for RelayVRFDelay {
    open spec fn paraid_spec(&self) -> ParaId {
        self.paraid
    }

    /// No tranche-zero checkers are technically required here thanks to
    /// `RelayVRFModulo`, but they help tune the expected checker count.
    open spec fn zeroth_delay_tranche_width_spec() -> DelayTranche {
        0
    }

    open spec fn delay_tranches_per_core_spec() -> DelayTranche {
        2
    }

    fn paraid(&self) -> ParaId {
        self.paraid
    }

    fn zeroth_delay_tranche_width() -> DelayTranche {
        0
    }

    fn delay_tranches_per_core() -> DelayTranche {
        2
    }
}

impl DelayCriteria for RelayEquivocation {
    open spec fn paraid_spec(&self) -> ParaId {
        self.paraid
    }

    /// Consolidates an expected four times the number of backing checkers
    /// into tranche zero, so that they always check: the equivocator is
    /// already being slashed, so over-provisioning immediate checkers is
    /// cheaper than a modulo-style consolidation scheme.
    open spec fn zeroth_delay_tranche_width_spec() -> DelayTranche {
        7
    }

    open spec fn delay_tranches_per_core_spec() -> DelayTranche {
        2
    }

    fn paraid(&self) -> ParaId {
        self.paraid
    }

    fn zeroth_delay_tranche_width() -> DelayTranche {
        7
    }

    fn delay_tranches_per_core() -> DelayTranche {
        2
    }
}

} // verus!
