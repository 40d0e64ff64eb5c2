use std::time::Duration;

use brokkr::crypto::{DualSignature, Signature, SignatureAlg};
use brokkr::ids::{Dap, EscalationId, Nonce, Timestamp};
use brokkr::resolution::{
    BaselinePosture, ClearCondition, ClearEvidence, EscalationType, ResolutionDecision,
    ResolutionVerdict, ResolveError,
};
use brokkr::sentinel::eir::Eir;

fn dap() -> Dap {
    Dap::new("Jeremy Rose", "dap-1")
}

fn dummy_dual() -> DualSignature {
    DualSignature {
        lattice: Signature {
            alg: SignatureAlg::MlDsa65,
            bytes: Vec::new(),
        },
        hash_based: Signature {
            alg: SignatureAlg::SlhDsaShake192s,
            bytes: Vec::new(),
        },
    }
}

fn escalation(id: &str, dwell: u64, hold: u64, max: u64) -> EscalationType {
    EscalationType::new(
        EscalationId::new(id),
        ClearCondition {
            detail: "clear".to_string(),
        },
        BaselinePosture {
            detail: "baseline".to_string(),
        },
        Duration::from_millis(dwell),
        Duration::from_millis(hold),
        Duration::from_millis(max),
    )
}

/// The DAP's encoded public keys.
fn dap_public() -> (Vec<u8>, Vec<u8>) {
    (vec![0x5au8; 1952], vec![0xa5u8; 48])
}

#[test]
fn test_oqgf_p_8_5_cannot_lower_above_baseline_without_dap() {
    let mut eir = Eir::new(dap_public());
    eir.raise(escalation("e1", 10, 10, 100_000), Timestamp(0));
    eir.clear_condition_met(&EscalationId::new("e1"), Timestamp(0));

    // A decision whose signature does not verify under the DAP's key is not DAP-confirmed.
    let forged = ResolutionDecision::new(
        EscalationId::new("e1"),
        ClearEvidence {
            detail: "cleared".to_string(),
        },
        dap(),
        Timestamp(1000),
        Nonce(1),
        Timestamp(1_000_000),
        dummy_dual(),
    );
    assert_eq!(eir.resolve(forged, Timestamp(1000)), Err(ResolveError::NeedsDapConfirmation));
}

#[test]
fn test_oqgf_p_8_3_i13_hysteresis_ages() {
    // One instance, one escalation, `may_resolve` at two times: NotYet before the hold window
    // is satisfied, Eligible after.
    let mut eir = Eir::new(dap_public());
    // dwell 10, hold 1000, raised at 0, clear condition began at 0.
    eir.raise(escalation("e1", 10, 1000, 100_000), Timestamp(0));
    eir.clear_condition_met(&EscalationId::new("e1"), Timestamp(0));

    // now = 500: elapsed 500 >= dwell 10, but held 500 < hold 1000.
    assert!(matches!(
        eir.may_resolve(&EscalationId::new("e1"), Timestamp(500)),
        ResolutionVerdict::NotYet { .. }
    ));
    // Same instance, now = 2000: held 2000 >= hold 1000.
    assert!(matches!(
        eir.may_resolve(&EscalationId::new("e1"), Timestamp(2000)),
        ResolutionVerdict::Eligible { needs_dap: true }
    ));
}

#[test]
fn test_oqgf_p_8_3_hysteresis_not_satisfied() {
    // dwell 10 (satisfied by elapsed 1000), hold 5000 (not satisfied: held only 1ms).
    let mut eir = Eir::new(dap_public());
    eir.raise(escalation("e1", 10, 5000, 100_000), Timestamp(0));
    eir.clear_condition_met(&EscalationId::new("e1"), Timestamp(999));
    assert!(matches!(
        eir.may_resolve(&EscalationId::new("e1"), Timestamp(1000)),
        ResolutionVerdict::NotYet { .. }
    ));
}

#[test]
fn test_oqgf_p_8_6_chronic_is_flagged() {
    // max_duration 500ms; now 1000: elapsed 1000 > 500, chronic; clear never met.
    let mut eir = Eir::new(dap_public());
    eir.raise(escalation("e1", 10, 10, 500), Timestamp(0));
    assert!(matches!(
        eir.may_resolve(&EscalationId::new("e1"), Timestamp(1000)),
        ResolutionVerdict::Chronic
    ));
    let chronic = eir.scan_chronic(Timestamp(1000));
    assert_eq!(chronic.len(), 1);
    assert_eq!(chronic[0].escalation, EscalationId::new("e1"));
}
