//! Coordinated signals between organs. A signal may only raise posture.
use vstd::prelude::*;
use crate::crypto::DualSignature;
use crate::ids::{Nonce, OrganId, Timestamp};

verus! {

#[derive(Debug, Clone, Copy, PartialEq, Eq, Structural)]
pub enum SignalClass {
    ThreatDetected,
    PostureRaiseRequest,
    StateChangeNotice,
}

#[derive(Debug, Clone, Copy, PartialEq, Eq, PartialOrd, Ord, Structural)]
pub enum Severity {
    Info,
    Low,
    Medium,
    High,
    Critical,
}

/// The only effect a signal can carry: a raise. There is no lowering variant.
#[derive(Debug, Clone, PartialEq, Eq)]
pub enum PostureEffect {
    Raise { detail: String },
}

#[derive(Debug, Clone, PartialEq, Eq)]
pub struct SignalScope {
    pub detail: String,
}

#[derive(Debug, Clone, PartialEq, Eq)]
pub struct Signal {
    pub source: OrganId,
    pub class: SignalClass,
    pub severity: Severity,
    pub effect: PostureEffect,
    pub scope: SignalScope,
    pub nonce: Nonce,
    pub expiry: Timestamp,
    pub signature: DualSignature,
}

} // verus!
