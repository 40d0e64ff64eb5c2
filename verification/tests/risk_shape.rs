use brokkr::crypto::{DualSignature, Signature, SignatureAlg};
use brokkr::ids::{Dap, RiskAcceptanceId, Timestamp};
use brokkr::personal_data::{Purpose, RetentionPeriod};
use brokkr::risk::{
    DeterministicGateId, Disposition, Impact, Likelihood, RiskAcceptance, RiskEntry, RiskId,
    RiskRegister, RiskSource, TransferMechanism, TreatmentPlan, TreatmentStatus,
};
use core::time::Duration;

fn dual_sig() -> DualSignature {
    DualSignature {
        lattice: Signature {
            alg: SignatureAlg::MlDsa65,
            bytes: vec![1, 2, 3],
        },
        hash_based: Signature {
            alg: SignatureAlg::SlhDsaShake192s,
            bytes: vec![4, 5, 6],
        },
    }
}

fn dap() -> Dap {
    Dap::new("Jeremy Rose", "dap-1")
}

fn gate_acceptance() -> RiskAcceptance {
    RiskAcceptance {
        finding: RiskAcceptanceId::new("ra-1"),
        gate: Some(DeterministicGateId::Genome),
        dap: dap(),
        justification: "quantum-vulnerable dependency; removal scheduled".into(),
        expiry: Timestamp(100),
        signature: dual_sig(),
    }
}

fn entry_with(disposition: Disposition) -> RiskEntry {
    RiskEntry {
        id: RiskId::new("risk-1"),
        description: "model drift on a shifting population".into(),
        context: "production classifier".into(),
        likelihood: Likelihood::Possible,
        impact: Impact::Major,
        owner: dap(),
        source: RiskSource::ThreatModel,
        disposition,
    }
}

#[test]
fn test_p10_accept_holds_a_risk_acceptance() {
    let entry = entry_with(Disposition::Accept {
        acceptance: gate_acceptance(),
    });
    match entry.disposition {
        Disposition::Accept { acceptance } => {
            assert_eq!(acceptance.finding, RiskAcceptanceId::new("ra-1"));
            assert_eq!(acceptance.gate, Some(DeterministicGateId::Genome));
            assert_eq!(acceptance.dap, dap());
        }
        _ => panic!("expected Accept"),
    }
}

#[test]
fn test_p10_accept_supports_a_non_gate_risk() {
    // : a non-gate risk has no gate to attach to -> gate is None.
    let acceptance = RiskAcceptance {
        gate: None,
        ..gate_acceptance()
    };
    assert_eq!(acceptance.gate, None);
    let entry = entry_with(Disposition::Accept { acceptance });
    assert!(matches!(entry.disposition, Disposition::Accept { .. }));
}

#[test]
fn test_p10_reduce_and_transfer_carry_a_residual() {
    let residual = Box::new(entry_with(Disposition::Avoid {
        plan: TreatmentPlan {
            owner: dap(),
            target: Timestamp(200),
            status: TreatmentStatus::Open,
        },
    }));

    let reduce = Disposition::Reduce {
        plan: TreatmentPlan {
            owner: dap(),
            target: Timestamp(300),
            status: TreatmentStatus::Open,
        },
        residual: residual.clone(),
    };
    let transfer = Disposition::Transfer {
        mechanism: TransferMechanism::Insurance,
        residual,
    };

    // The residual is present and is itself a full RiskEntry.
    if let Disposition::Reduce { residual, .. } = &reduce {
        assert_eq!(residual.id, RiskId::new("risk-1"));
    } else {
        panic!("expected Reduce");
    }
    assert!(matches!(transfer, Disposition::Transfer { .. }));
}

#[test]
fn test_p10_avoid_carries_a_tracked_plan() {
    let avoid = Disposition::Avoid {
        plan: TreatmentPlan {
            owner: dap(),
            target: Timestamp(1),
            status: TreatmentStatus::Executed,
        },
    };
    if let Disposition::Avoid { plan } = avoid {
        assert_eq!(plan.status, TreatmentStatus::Executed);
    } else {
        panic!("expected Avoid");
    }
}

struct MockRegister;
impl RiskRegister for MockRegister {
    fn record(&self, risk: RiskEntry) -> RiskId {
        risk.id
    }
    fn inventory(&self) -> Vec<RiskEntry> {
        Vec::new()
    }
}

#[test]
fn test_p10_risk_register_trait_is_implementable() {
    let reg = MockRegister;
    let id = reg.record(entry_with(Disposition::Accept {
        acceptance: gate_acceptance(),
    }));
    assert_eq!(id, RiskId::new("risk-1"));
    assert!(reg.inventory().is_empty());
}

#[test]
fn test_p11_purpose_and_retention_are_value_types() {
    let purpose = Purpose {
        description: "fraud-detection model training".into(),
    };
    let retention = RetentionPeriod {
        duration: Duration::from_secs(7 * 365 * 24 * 3600),
    };
    assert_eq!(purpose.description, "fraud-detection model training");
    assert_eq!(retention.duration.as_secs(), 7 * 365 * 24 * 3600);
}
