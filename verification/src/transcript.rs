//! Domain-separated transcripts.
//!
//! Signer and verifier must feed bit-identical transcripts to the VRF, so a
//! transcript is modelled by the exact sequence of appends made to it: the
//! ghost view `entries` of a [`VrfTranscript`] records the domain label and
//! every labelled field in order.  Two transcripts with equal views are
//! byte-identical on the wire; every contract in this crate speaks of the
//! views.  The `merlin` calls that realize the transcript are declared
//! below and only [`VrfTranscript`]'s methods make them.

use vstd::prelude::*;

verus! {

/// Label bytes for `"Approval Assignment Signature"`.
pub const SIGNATURE_CONTEXT_LABEL: [u8; 29] = [65u8, 112u8, 112u8, 114u8, 111u8, 118u8, 97u8, 108u8, 32u8, 65u8, 115u8, 115u8, 105u8, 103u8, 110u8, 109u8, 101u8, 110u8, 116u8, 32u8, 83u8, 105u8, 103u8, 110u8, 97u8, 116u8, 117u8, 114u8, 101u8];

/// Label bytes for `"Approval Assignment VRF"`.
pub const VRF_CONTEXT_LABEL: [u8; 23] = [65u8, 112u8, 112u8, 114u8, 111u8, 118u8, 97u8, 108u8, 32u8, 65u8, 115u8, 115u8, 105u8, 103u8, 110u8, 109u8, 101u8, 110u8, 116u8, 32u8, 86u8, 82u8, 70u8];

/// Label bytes for `"RelayVRFModulo"`.
pub const RELAY_VRF_MODULO_LABEL: [u8; 14] = [82u8, 101u8, 108u8, 97u8, 121u8, 86u8, 82u8, 70u8, 77u8, 111u8, 100u8, 117u8, 108u8, 111u8];

/// Label bytes for `"RelayVRFDelay"`.
pub const RELAY_VRF_DELAY_LABEL: [u8; 13] = [82u8, 101u8, 108u8, 97u8, 121u8, 86u8, 82u8, 70u8, 68u8, 101u8, 108u8, 97u8, 121u8];

/// Label bytes for `"ParaId"`.
pub const PARA_ID_LABEL: [u8; 6] = [80u8, 97u8, 114u8, 97u8, 73u8, 100u8];

/// Label bytes for `"Candidate Equivocation"`.
pub const CANDIDATE_EQUIVOCATION_LABEL: [u8; 22] = [67u8, 97u8, 110u8, 100u8, 105u8, 100u8, 97u8, 116u8, 101u8, 32u8, 69u8, 113u8, 117u8, 105u8, 118u8, 111u8, 99u8, 97u8, 116u8, 105u8, 111u8, 110u8];

/// Label bytes for `"rad slot"`.
pub const RAD_SLOT_LABEL: [u8; 8] = [114u8, 97u8, 100u8, 32u8, 115u8, 108u8, 111u8, 116u8];

/// Label bytes for `"rad epoch"`.
pub const RAD_EPOCH_LABEL: [u8; 9] = [114u8, 97u8, 100u8, 32u8, 101u8, 112u8, 111u8, 99u8, 104u8];

/// Label bytes for `"rad block"`.
pub const RAD_BLOCK_LABEL: [u8; 9] = [114u8, 97u8, 100u8, 32u8, 98u8, 108u8, 111u8, 99u8, 107u8];

/// Label bytes for `"rad authority"`.
pub const RAD_AUTHORITY_LABEL: [u8; 13] = [114u8, 97u8, 100u8, 32u8, 97u8, 117u8, 116u8, 104u8, 111u8, 114u8, 105u8, 116u8, 121u8];

/// Label bytes for `"parachain"`.
pub const PARACHAIN_LABEL: [u8; 9] = [112u8, 97u8, 114u8, 97u8, 99u8, 104u8, 97u8, 105u8, 110u8];

/// Label bytes for `"tranche"`.
pub const TRANCHE_LABEL: [u8; 7] = [116u8, 114u8, 97u8, 110u8, 99u8, 104u8, 101u8];

/// One append made to a transcript, in the abstract.
pub enum Entry {
    /// The domain label the transcript was created with.
    Domain(Seq<u8>),
    /// A labelled 64-bit field.
    Number { label: Seq<u8>, value: u64 },
    /// A labelled byte-string field.
    Message { label: Seq<u8>, data: Seq<u8> },
}

#[verifier::external_type_specification]
#[verifier::external_body]
pub struct ExTranscript(merlin::Transcript);

/// Relies on `merlin::Transcript::new`: starts a transcript whose state
/// depends exactly on the given domain label.  The state itself stays
/// opaque; [`VrfTranscript`] records beside it what was appended.  The
/// label is forwarded as a message, and merlin asserts that a message
/// length fits in 32 bits, so longer labels are excluded.
pub assume_specification[ merlin::Transcript::new ](label: &'static [u8]) -> merlin::Transcript
    requires
        label@.len() <= u32::MAX,
;

/// Relies on `merlin::Transcript::append_message`: appends one labelled
/// byte string to the opaque transcript state.  merlin asserts that the
/// message length fits in 32 bits, so longer messages are excluded.
pub assume_specification[ merlin::Transcript::append_message ](t: &mut merlin::Transcript, label: &'static [u8], message: &[u8])
    requires
        message@.len() <= u32::MAX,
;

/// Relies on `merlin::Transcript::append_u64`: appends one labelled 64-bit
/// field to the opaque transcript state.
pub assume_specification[ merlin::Transcript::append_u64 ](t: &mut merlin::Transcript, label: &'static [u8], x: u64);

/// A transcript under construction, together with the record of every
/// append made to it.  The merlin state is opaque, so the record is the
/// crate's handle on it: merlin hashes exactly the appended labels and
/// data, so two transcripts built along equal `entries` views are
/// byte-identical, and the VRF contracts in `vrf` speak of the views.
/// The methods below are the only places that build one, and each keeps
/// `entries` in step with the appends it performs.
pub struct VrfTranscript {
    pub inner: merlin::Transcript,
    pub entries: Ghost<Seq<Entry>>,
}

impl VrfTranscript {
    /// Start a transcript under the given domain label.
    pub fn new(label: &'static [u8]) -> (t: VrfTranscript)
        requires
            label@.len() <= u32::MAX,
        ensures
            t.entries@ =~= seq![Entry::Domain(label@)],
    {
        let ghost e: Seq<Entry> = seq![Entry::Domain(label@)];
        VrfTranscript { inner: merlin::Transcript::new(label), entries: Ghost(e) }
    }

    /// Append one labelled 64-bit field.
    pub fn append_u64(&mut self, label: &'static [u8], value: u64)
        ensures
            final(self).entries@ =~= old(self).entries@.push(Entry::Number { label: label@, value }),
    {
        let ghost e: Seq<Entry> = self.entries@.push(Entry::Number { label: label@, value });
        self.inner.append_u64(label, value);
        self.entries = Ghost(e);
    }

    /// Append one labelled byte-string field.
    pub fn append_message(&mut self, label: &'static [u8], data: &[u8])
        requires
            data@.len() <= u32::MAX,
        ensures
            final(self).entries@ =~= old(self).entries@.push(Entry::Message { label: label@, data: data@ }),
    {
        let ghost e: Seq<Entry> = self.entries@.push(Entry::Message { label: label@, data: data@ });
        self.inner.append_message(label, data);
        self.entries = Ghost(e);
    }
}

} // verus!
