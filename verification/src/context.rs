//! The relay-chain context and the criteria's stories.
//!
//! Both are consumed read-only by the assignment pipeline.  The context
//! identifies the slot, epoch, block and authority an assignment is
//! evaluated against and carries the core-to-parachain table; the stories
//! supply the entropy source (or the recognized candidate equivocations)
//! that a criteria builds its VRF input from.

use vstd::prelude::*;

use crate::{BlockHash, ParaId, ValidatorId};
use crate::transcript::{Entry, VrfTranscript};
use crate::transcript::{RAD_AUTHORITY_LABEL, RAD_BLOCK_LABEL, RAD_EPOCH_LABEL, RAD_SLOT_LABEL, SIGNATURE_CONTEXT_LABEL};

verus! {

/// The relay-chain context one assignment is evaluated against.
#[derive(Clone)]
pub struct ApprovalContext {
    /// The relay-chain slot number.
    pub slot: u64,
    /// The epoch the slot falls in.
    pub epoch: u64,
    /// The hash of the relay-chain block.
    pub hash: BlockHash,
    /// The authority (validator) being evaluated against.
    pub authority: ValidatorId,
    /// For each availability core, in order, the parachain occupying it,
    /// or `None` for an unoccupied core.
    pub paraids_by_core: Vec<Option<ParaId>>,
}

impl ApprovalContext {
    /// A context fits in the protocol's arithmetic: the core count is a
    /// 32-bit number.
    pub open spec fn wf(&self) -> bool {
        self.paraids_by_core@.len() <= u32::MAX
    }

    /// The entries of the context-binding transcript: the signature domain
    /// label, then slot, epoch, block hash and authority key, in order.
    pub open spec fn transcript_entries(&self) -> Seq<Entry> {
        seq![
            Entry::Domain(SIGNATURE_CONTEXT_LABEL@),
            Entry::Number { label: RAD_SLOT_LABEL@, value: self.slot },
            Entry::Number { label: RAD_EPOCH_LABEL@, value: self.epoch },
            Entry::Message { label: RAD_BLOCK_LABEL@, data: self.hash@ },
            Entry::Message { label: RAD_AUTHORITY_LABEL@, data: self.authority@ },
        ]
    }

    /// Build the context-binding transcript.  Signer and verifier must
    /// agree on it bit for bit, so its entries are pinned exactly.
    pub fn transcript(&self) -> (t: VrfTranscript)
        ensures
            t.entries@ =~= self.transcript_entries(),
    {
        let mut t = VrfTranscript::new(&SIGNATURE_CONTEXT_LABEL);
        t.append_u64(&RAD_SLOT_LABEL, self.slot);
        t.append_u64(&RAD_EPOCH_LABEL, self.epoch);
        t.append_message(&RAD_BLOCK_LABEL, &self.hash);
        t.append_message(&RAD_AUTHORITY_LABEL, &self.authority);
        t
    }

    /// The number of availability cores.
    pub open spec fn num_cores_spec(&self) -> u32
        recommends
            self.wf(),
    {
        self.paraids_by_core@.len() as u32
    }

    /// The number of availability cores.
    pub fn num_cores(&self) -> (n: u32)
        requires
            self.wf(),
        ensures
            n == self.num_cores_spec(),
    {
        self.paraids_by_core.len() as u32
    }

    /// Whether some core is currently occupied by `id`.
    pub open spec fn has_core_for(&self, id: ParaId) -> bool {
        exists|i: int| 0 <= i < self.paraids_by_core@.len() && self.paraids_by_core@[i] == Some(id)
    }

    /// The first core occupied by `id`, if any.
    pub fn core_by_paraid(&self, id: ParaId) -> (r: Option<usize>)
        ensures
            r is Some <==> self.has_core_for(id),
            r is Some ==> {
                let i = r->0;
                &&& i < self.paraids_by_core@.len()
                &&& self.paraids_by_core@[i as int] == Some(id)
            },
    {
        let mut i: usize = 0;
        while i < self.paraids_by_core.len()
            invariant
                i <= self.paraids_by_core@.len(),
                forall|j: int| 0 <= j < i ==> self.paraids_by_core@[j] != Some(id),
            decreases self.paraids_by_core@.len() - i,
        {
            match self.paraids_by_core[i] {
                Some(p) => {
                    if p == id {
                        return Some(i);
                    }
                }
                None => {}
            }
            i = i + 1;
        }
        None
    }
}

/// The entropy source for the normal sortition criteria: the relay chain's
/// own VRF output bytes for this block.
#[derive(Clone)]
pub struct RelayVRFStory {
    /// The relay-chain VRF source bytes.
    pub anv_rc_vrf_source: [u8; 32],
}

/// The story for equivocation-triggered checks: the candidate
/// equivocations currently recognized, keyed by parachain id.
#[derive(Clone)]
pub struct RelayEquivocationStory {
    /// The recorded equivocating parablock hash for each parachain id.
    pub candidate_equivocations: Vec<(ParaId, BlockHash)>,
}

impl RelayEquivocationStory {
    /// The recorded equivocating block hash for `id`, if any (first entry
    /// wins).
    pub open spec fn equivocation_for(&self, id: ParaId) -> Option<BlockHash> {
        let s = self.candidate_equivocations@;
        if exists|i: int| 0 <= i < s.len() && s[i].0 == id {
            let i = choose|i: int| 0 <= i < s.len() && s[i].0 == id && forall|j: int| 0 <= j < i ==> s[j].0 != id;
            Some(s[i].1)
        } else {
            None
        }
    }

    /// Look up the recorded equivocating block hash for `id`.
    pub fn lookup_equivocation(&self, id: ParaId) -> (r: Option<BlockHash>)
        ensures
            r == self.equivocation_for(id),
    {
        let mut i: usize = 0;
        while i < self.candidate_equivocations.len()
            invariant
                i <= self.candidate_equivocations@.len(),
                forall|j: int| 0 <= j < i ==> self.candidate_equivocations@[j].0 != id,
            decreases self.candidate_equivocations@.len() - i,
        {
            let entry = self.candidate_equivocations[i];
            if entry.0 == id {
                proof {
                    let s = self.candidate_equivocations@;
                    assert(0 <= i < s.len() && s[i as int].0 == id && forall|j: int| 0 <= j < i ==> s[j].0 != id);
                    let w = choose|k: int| 0 <= k < s.len() && s[k].0 == id && forall|j: int| 0 <= j < k ==> s[j].0 != id;
                    assert(!(w < i) && !(i < w));
                }
                return Some(entry.1);
            }
            i = i + 1;
        }
        None
    }
}

} // verus!
