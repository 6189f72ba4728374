use approval_assignments::assignment::{
    modulo_paraid_value, tranche_value, Assignment, AssignmentSigned,
};
use approval_assignments::context::{ApprovalContext, RelayEquivocationStory, RelayVRFStory};
use approval_assignments::criteria::{RelayEquivocation, RelayVRFDelay, RelayVRFModulo};
use approval_assignments::vrf::CheckerPair;
use approval_assignments::Error;

fn checker_pair(seed: u8) -> CheckerPair {
    let mini = schnorrkel::MiniSecretKey::from_bytes(&[seed; 32]).unwrap();
    CheckerPair::from_keypair(mini.expand_to_keypair(schnorrkel::ExpansionMode::Uniform))
}

fn four_core_context() -> ApprovalContext {
    ApprovalContext {
        slot: 55,
        epoch: 3,
        hash: [8u8; 32],
        authority: [1u8; 32],
        paraids_by_core: vec![Some(10), Some(11), Some(12), Some(13)],
    }
}

fn vrf_story() -> RelayVRFStory {
    RelayVRFStory { anv_rc_vrf_source: [7u8; 32] }
}

#[test]
fn round_trip_modulo() {
    let checker = checker_pair(1);
    let context = four_core_context();
    let story = vrf_story();
    let unsigned = Assignment::create(RelayVRFModulo { sample: 0 }, &story, &checker).unwrap();
    let signed = unsigned.sign(&context, &checker);
    assert_eq!(*signed.checker(), checker.validator_id());
    let wire = signed.to_signed(context.clone());
    let (ctx, verified) = wire.verify(&story).unwrap();
    assert_eq!(ctx.slot, context.slot);
    assert_eq!(*verified.checker(), checker.validator_id());
    assert_eq!(verified.paraid(&context), unsigned.paraid(&context));
    assert_eq!(verified.delay_tranche(&context), 0);
    assert_eq!(unsigned.delay_tranche(&context), 0);
}

#[test]
fn round_trip_delay() {
    let checker = checker_pair(2);
    let context = four_core_context();
    let story = vrf_story();
    let unsigned = Assignment::create(RelayVRFDelay { paraid: 11 }, &story, &checker).unwrap();
    let signed = unsigned.sign(&context, &checker);
    let wire = signed.to_signed(context.clone());
    let (_, verified) = wire.verify(&story).unwrap();
    assert_eq!(verified.paraid(&context), Some(11));
    assert_eq!(unsigned.paraid(&context), Some(11));
    let tranche = verified.delay_tranche(&context);
    assert_eq!(tranche, unsigned.delay_tranche(&context));
    // 4 cores, 2 tranches per core, zeroth width 0.
    assert!(tranche < 8);
}

#[test]
fn round_trip_equivocation() {
    let checker = checker_pair(3);
    let context = four_core_context();
    let story = RelayEquivocationStory { candidate_equivocations: vec![(12, [9u8; 32])] };
    let unsigned = Assignment::create(RelayEquivocation { paraid: 12 }, &story, &checker).unwrap();
    let signed = unsigned.sign(&context, &checker);
    let wire = signed.to_signed(context.clone());
    let (_, verified) = wire.verify(&story).unwrap();
    assert_eq!(verified.paraid(&context), Some(12));
    let tranche = verified.delay_tranche(&context);
    assert_eq!(tranche, unsigned.delay_tranche(&context));
    // 4 cores, 2 tranches per core.
    assert!(tranche < 8);
}

#[test]
fn create_is_deterministic() {
    let checker = checker_pair(4);
    let context = four_core_context();
    let story = vrf_story();
    let a = Assignment::create(RelayVRFModulo { sample: 0 }, &story, &checker).unwrap();
    let b = Assignment::create(RelayVRFModulo { sample: 0 }, &story, &checker).unwrap();
    let sa = a.sign(&context, &checker).to_signed(context.clone());
    let sb = b.sign(&context, &checker).to_signed(context.clone());
    assert_eq!(sa.vrf_preout, sb.vrf_preout);
}

#[test]
fn modulo_rejects_additional_samples() {
    let checker = checker_pair(5);
    let story = vrf_story();
    for sample in [1u16, 7u16] {
        let err = match Assignment::create(RelayVRFModulo { sample }, &story, &checker) {
            Ok(_) => panic!("multi-sample criteria accepted"),
            Err(e) => e,
        };
        assert_eq!(err, Error::BadAssignment("RelayVRFModulo does not yet support additional samples"));
    }
    assert!(Assignment::create(RelayVRFModulo { sample: 0 }, &story, &checker).is_ok());
}

#[test]
fn equivocation_requires_recorded_paraid() {
    let checker = checker_pair(6);
    let story = RelayEquivocationStory { candidate_equivocations: vec![(12, [9u8; 32])] };
    let err = match Assignment::create(RelayEquivocation { paraid: 99 }, &story, &checker) {
        Ok(_) => panic!("unrecorded paraid accepted"),
        Err(e) => e,
    };
    assert_eq!(err, Error::BadStory("Not a candidate equivocation"));
    assert!(Assignment::create(RelayEquivocation { paraid: 12 }, &story, &checker).is_ok());
    let empty = RelayEquivocationStory { candidate_equivocations: vec![] };
    let err = match Assignment::create(RelayEquivocation { paraid: 12 }, &empty, &checker) {
        Ok(_) => panic!("empty story accepted"),
        Err(e) => e,
    };
    assert_eq!(err, Error::BadStory("Not a candidate equivocation"));
}

fn signed_modulo_wire(seed: u8) -> (CheckerPair, ApprovalContext, RelayVRFStory, AssignmentSigned<RelayVRFModulo>) {
    let checker = checker_pair(seed);
    let context = four_core_context();
    let story = vrf_story();
    let unsigned = Assignment::create(RelayVRFModulo { sample: 0 }, &story, &checker).unwrap();
    let wire = unsigned.sign(&context, &checker).to_signed(context.clone());
    (checker, context, story, wire)
}

#[test]
fn verify_fails_on_altered_context() {
    let (_, _, story, wire) = signed_modulo_wire(7);
    let mut altered = wire.context.clone();
    altered.slot += 1;
    let tampered = AssignmentSigned {
        context: altered,
        criteria: wire.criteria,
        vrf_preout: wire.vrf_preout,
        vrf_signature: wire.vrf_signature,
    };
    let err = match tampered.verify(&story) {
        Ok(_) => panic!("tampered assignment verified"),
        Err(e) => e,
    };
    assert_eq!(err, Error::BadAssignment("Bad VRF signature (invalid)"));
}

#[test]
fn verify_fails_on_flipped_proof() {
    let (_, _, story, wire) = signed_modulo_wire(8);
    let mut sig = wire.vrf_signature;
    sig.vrf_proof[40] ^= 0x01;
    let tampered = AssignmentSigned {
        context: wire.context.clone(),
        criteria: wire.criteria,
        vrf_preout: wire.vrf_preout,
        vrf_signature: sig,
    };
    assert!(tampered.verify(&story).is_err());
}

#[test]
fn verify_fails_on_flipped_preout() {
    let (_, _, story, wire) = signed_modulo_wire(9);
    let mut preout = wire.vrf_preout;
    preout[0] ^= 0x01;
    let tampered = AssignmentSigned {
        context: wire.context.clone(),
        criteria: wire.criteria,
        vrf_preout: preout,
        vrf_signature: wire.vrf_signature,
    };
    assert!(tampered.verify(&story).is_err());
}

#[test]
fn verify_fails_on_different_story() {
    let (_, _, _, wire) = signed_modulo_wire(10);
    let other = RelayVRFStory { anv_rc_vrf_source: [77u8; 32] };
    let err = match wire.verify(&other) {
        Ok(_) => panic!("verification against another story passed"),
        Err(e) => e,
    };
    assert_eq!(err, Error::BadAssignment("Bad VRF signature (invalid)"));
}

#[test]
fn verify_fails_on_bad_publickey_bytes() {
    let (_, _, story, wire) = signed_modulo_wire(11);
    let mut sig = wire.vrf_signature;
    // 2^255 - 1 is not a canonical Ristretto encoding, so decoding fails.
    sig.checker = [0xFF; 32];
    let tampered = AssignmentSigned {
        context: wire.context.clone(),
        criteria: wire.criteria,
        vrf_preout: wire.vrf_preout,
        vrf_signature: sig,
    };
    let err = match tampered.verify(&story) {
        Ok(_) => panic!("bad public key accepted"),
        Err(e) => e,
    };
    assert_eq!(err, Error::BadAssignment("Bad VRF signature (bad publickey)"));
}

#[test]
fn verify_propagates_story_error() {
    let checker = checker_pair(12);
    let context = four_core_context();
    let story = RelayEquivocationStory { candidate_equivocations: vec![(12, [9u8; 32])] };
    let unsigned = Assignment::create(RelayEquivocation { paraid: 12 }, &story, &checker).unwrap();
    let wire = unsigned.sign(&context, &checker).to_signed(context.clone());
    // A receiver that does not recognize the equivocation rejects before
    // any cryptographic check.
    let other = RelayEquivocationStory { candidate_equivocations: vec![] };
    let err = match wire.verify(&other) {
        Ok(_) => panic!("unrecognized equivocation accepted"),
        Err(e) => e,
    };
    assert_eq!(err, Error::BadStory("Not a candidate equivocation"));
    // A receiver that recorded a different parablock hash fails the proof.
    let different = RelayEquivocationStory { candidate_equivocations: vec![(12, [13u8; 32])] };
    let err = match wire.verify(&different) {
        Ok(_) => panic!("different equivocation hash accepted"),
        Err(e) => e,
    };
    assert_eq!(err, Error::BadAssignment("Bad VRF signature (invalid)"));
}

#[test]
fn modulo_sortition_selects_core() {
    let context = four_core_context();
    // 18 % 4 == 2, so the third entry wins.
    assert_eq!(modulo_paraid_value(18, &context), Some(12));
    assert_eq!(modulo_paraid_value(0, &context), Some(10));
    assert_eq!(modulo_paraid_value(7, &context), Some(13));
}

#[test]
fn modulo_sortition_may_hit_empty_core() {
    let context = ApprovalContext {
        slot: 1,
        epoch: 1,
        hash: [0u8; 32],
        authority: [1u8; 32],
        paraids_by_core: vec![Some(10), None, Some(12)],
    };
    assert_eq!(modulo_paraid_value(4, &context), None);
    assert_eq!(modulo_paraid_value(3, &context), Some(10));
}

#[test]
fn tranche_saturates_at_zero() {
    // 5 cores, 2 tranches per core, zeroth width 7: modulus 17.
    assert_eq!(tranche_value(3, 5, 2, 7), 0);
    assert_eq!(tranche_value(7, 5, 2, 7), 0);
    assert_eq!(tranche_value(8, 5, 2, 7), 1);
    assert_eq!(tranche_value(16, 5, 2, 7), 9);
    // 17 wraps around to raw value 0.
    assert_eq!(tranche_value(17, 5, 2, 7), 0);
    for v in 0..100u64 {
        assert!(tranche_value(v, 5, 2, 7) < 10);
    }
}

#[test]
fn tranche_without_zeroth_width() {
    // 4 cores, 2 tranches per core, zeroth width 0: modulus 8.
    assert_eq!(tranche_value(5, 4, 2, 0), 5);
    assert_eq!(tranche_value(8, 4, 2, 0), 0);
    for v in 0..100u64 {
        assert!(tranche_value(v, 4, 2, 0) < 8);
    }
}

#[test]
fn delay_paraid_requires_live_core() {
    let checker = checker_pair(13);
    let context = four_core_context();
    let story = vrf_story();
    let assigned = Assignment::create(RelayVRFDelay { paraid: 99 }, &story, &checker).unwrap();
    assert_eq!(assigned.paraid(&context), None);
    let assigned = Assignment::create(RelayVRFDelay { paraid: 13 }, &story, &checker).unwrap();
    assert_eq!(assigned.paraid(&context), Some(13));
}

#[test]
fn modulo_sortition_extremes() {
    let context = four_core_context();
    // u64::MAX % 4 == 3.
    assert_eq!(modulo_paraid_value(u64::MAX, &context), Some(13));
    let single = ApprovalContext {
        slot: 1,
        epoch: 1,
        hash: [0u8; 32],
        authority: [1u8; 32],
        paraids_by_core: vec![Some(77)],
    };
    assert_eq!(modulo_paraid_value(u64::MAX, &single), Some(77));
    assert_eq!(modulo_paraid_value(0, &single), Some(77));
}

#[test]
fn tranche_extremes() {
    // A single core with no zeroth width: only tranches 0 and 1 exist.
    assert_eq!(tranche_value(u64::MAX, 1, 2, 0), 1);
    // A saturated modulus still yields a tranche below the saturated
    // core capacity.
    assert!(tranche_value(u64::MAX, u32::MAX, 2, 7) < u32::MAX);
}

#[test]
fn identity_key_is_detected() {
    // A zero secret scalar passes schnorrkel's decoding but its public
    // key is the identity point; such a keypair cannot create
    // assignments.
    let forged = schnorrkel::SecretKey::from_bytes(&[0u8; 64]).unwrap();
    let pair = CheckerPair::from_keypair(forged.to_keypair());
    assert!(pair.is_identity_key());
    assert_eq!(pair.validator_id(), [0u8; 32]);
    assert!(!checker_pair(14).is_identity_key());
}
