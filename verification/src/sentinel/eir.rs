//! EIR: the resolution engine. An escalation returns to baseline only through a
//! DAP-signed, unexpired, never-before-accepted decision, and only once its hysteresis
//! (minimum dwell, hold window) is satisfied or it has run chronic.
//!
//! Checks run in a fixed order: the DAP signature, then expiry, then replay, then the
//! escalation's readiness. A nonce is recorded only when a decision is accepted, and
//! recorded nonces are never forgotten.
use vstd::prelude::*;
use crate::backend::primitives::{MLDSA65_PUBLIC_LEN, SLH192S_PUBLIC_LEN};
use crate::backend::sign::{DualPublicKey, dual_verdict};
use crate::crypto::DualSignature;
use crate::durations::{duration_ms, millis_of};
use crate::ids::{EscalationId, Nonce, Timestamp};
use crate::resolution::{
    ChronicEscalation, EscalationType, ResolutionDecision, ResolutionEngine, ResolutionVerdict,
    ResolveError, ReturnedToBaseline, resolution_content, resolution_signed_content,
};

verus! {

/// How ready an escalation is to resolve.
#[derive(Debug, Clone, Copy, PartialEq, Eq, Structural)]
pub enum Readiness {
    Eligible,
    /// Not yet: a reason code, and whether the hold-up is hysteresis.
    NotYet(u8, bool),
    Chronic,
}

/// The reason given for each not-yet code.
pub open spec fn reason_text(code: u8) -> Seq<char> {
    if code == 0 {
        "clear condition not met"@
    } else if code == 1 {
        "minimum dwell not elapsed"@
    } else if code == 2 {
        "clear condition has not held long enough"@
    } else {
        "not resolvable"@
    }
}

fn reason_string(code: u8) -> (r: String)
    ensures
        r@ == reason_text(code),
{
    if code == 0 {
        "clear condition not met".to_owned()
    } else if code == 1 {
        "minimum dwell not elapsed".to_owned()
    } else if code == 2 {
        "clear condition has not held long enough".to_owned()
    } else {
        "not resolvable".to_owned()
    }
}

/// A raised escalation.
#[derive(Debug, Clone)]
pub struct EscalationState {
    pub kind: EscalationType,
    pub raised_at: Timestamp,
    pub clear_since: Option<Timestamp>,
    pub active: bool,
}

/// `a - b`, or zero.
pub open spec fn sat_sub(a: u64, b: u64) -> int {
    if a >= b {
        a - b
    } else {
        0
    }
}

/// The readiness of an escalation at `now`. Eligible when its clear condition has held
/// since some time, the minimum dwell has elapsed since it was raised and the hold window
/// since the condition cleared; otherwise chronic once past its maximum duration;
/// otherwise not yet, with the first unmet requirement.
pub open spec fn readiness(now: Timestamp, e: EscalationState) -> Readiness {
    let elapsed = sat_sub(now.0, e.raised_at.0);
    let past_max = elapsed > duration_ms(e.kind.max_duration);
    let eligible = match e.clear_since {
        None => false,
        Some(since) => elapsed >= duration_ms(e.kind.dwell_min) && sat_sub(now.0, since.0)
            >= duration_ms(e.kind.hold_window),
    };
    if eligible {
        Readiness::Eligible
    } else if past_max {
        Readiness::Chronic
    } else {
        match e.clear_since {
            None => Readiness::NotYet(0, false),
            Some(since) => if elapsed < duration_ms(e.kind.dwell_min) {
                Readiness::NotYet(1, true)
            } else if sat_sub(now.0, since.0) < duration_ms(e.kind.hold_window) {
                Readiness::NotYet(2, true)
            } else {
                Readiness::NotYet(3, false)
            },
        }
    }
}

/// Whether `e` is the active escalation of the given identifier.
pub open spec fn is_active_for(e: EscalationState, id: Seq<char>) -> bool {
    e.active && e.kind.id.0@ == id
}

/// The index of the first active escalation with the given identifier, searching from
/// `k`.
pub open spec fn find_active_from(es: Seq<EscalationState>, id: Seq<char>, k: int) -> Option<int>
    decreases es.len() - k,
{
    if k < 0 || k >= es.len() {
        None
    } else if is_active_for(es[k], id) {
        Some(k)
    } else {
        find_active_from(es, id, k + 1)
    }
}

pub open spec fn find_active(es: Seq<EscalationState>, id: Seq<char>) -> Option<int> {
    find_active_from(es, id, 0)
}

/// What the search finds is an active escalation of that identifier, within bounds.
pub proof fn lemma_find_active_from(es: Seq<EscalationState>, id: Seq<char>, k: int)
    ensures
        find_active_from(es, id, k) matches Some(i) ==> k <= i < es.len() && is_active_for(es[i], id),
    decreases es.len() - k,
{
    if 0 <= k < es.len() && !is_active_for(es[k], id) {
        lemma_find_active_from(es, id, k + 1);
    }
}

/// Whether an (escalation, nonce) pair has been accepted.
pub open spec fn nonce_seen(nonces: Seq<(EscalationId, Nonce)>, id: Seq<char>, n: Nonce) -> bool {
    exists|i: int| 0 <= i < nonces.len() && (#[trigger] nonces[i]).0.0@ == id && nonces[i].1 == n
}

/// Whether the DAP key accepts a decision: the key is well formed and the dual
/// signature verifies over the decision's signed content.
pub open spec fn dap_accepts(key: (Seq<u8>, Seq<u8>), d: ResolutionDecision) -> bool {
    &&& key.0.len() == MLDSA65_PUBLIC_LEN
    &&& key.1.len() == SLH192S_PUBLIC_LEN
    &&& dual_verdict(key.0, key.1, resolution_content(d), d.signature) is Ok
}

/// What resolving a decision at `now` returns.
pub open spec fn resolve_verdict(
    key: (Seq<u8>, Seq<u8>),
    es: Seq<EscalationState>,
    nonces: Seq<(EscalationId, Nonce)>,
    d: ResolutionDecision,
    now: Timestamp,
) -> Result<(), ResolveError> {
    if !dap_accepts(key, d) {
        Err(ResolveError::NeedsDapConfirmation)
    } else if now.0 > d.expiry.0 {
        Err(ResolveError::Expired)
    } else if nonce_seen(nonces, d.escalation.0@, d.nonce) {
        Err(ResolveError::ReplayedNonce)
    } else {
        match find_active(es, d.escalation.0@) {
            None => Err(ResolveError::CriteriaNotMet),
            Some(i) => match readiness(now, es[i]) {
                Readiness::Eligible => Ok(()),
                Readiness::Chronic => Ok(()),
                Readiness::NotYet(_, true) => Err(ResolveError::HysteresisNotSatisfied),
                Readiness::NotYet(_, false) => Err(ResolveError::CriteriaNotMet),
            },
        }
    }
}

/// The engine: the DAP's public key, the raised escalations, and every accepted nonce.
pub struct Eir {
    dap_public: (Vec<u8>, Vec<u8>),
    escalations: Vec<EscalationState>,
    accepted_nonces: Vec<(EscalationId, Nonce)>,
}

impl Eir {
    pub closed spec fn key_spec(&self) -> (Seq<u8>, Seq<u8>) {
        (self.dap_public.0@, self.dap_public.1@)
    }

    pub closed spec fn escalations_spec(&self) -> Seq<EscalationState> {
        self.escalations@
    }

    pub closed spec fn nonces_spec(&self) -> Seq<(EscalationId, Nonce)> {
        self.accepted_nonces@
    }

    /// An engine with no escalations and no accepted nonces, trusting the given DAP
    /// public key (ML-DSA-65, SLH-DSA-SHAKE-192s encodings).
    pub fn new(dap_public: (Vec<u8>, Vec<u8>)) -> (r: Self)
        ensures
            r.key_spec() == (dap_public.0@, dap_public.1@),
            r.escalations_spec().len() == 0,
            r.nonces_spec().len() == 0,
    {
        Eir { dap_public, escalations: Vec::new(), accepted_nonces: Vec::new() }
    }

    /// Raises an escalation of the given kind at `raised_at`, its clear condition unmet.
    pub fn raise(&mut self, kind: EscalationType, raised_at: Timestamp)
        ensures
            final(self).key_spec() == old(self).key_spec(),
            final(self).nonces_spec() == old(self).nonces_spec(),
            final(self).escalations_spec() == old(self).escalations_spec().push(
                EscalationState { kind, raised_at, clear_since: None, active: true },
            ),
    {
        self.escalations.push(EscalationState { kind, raised_at, clear_since: None, active: true });
    }

    fn find(&self, id: &EscalationId) -> (r: Option<usize>)
        ensures
            r matches Some(i) ==> find_active(self.escalations@, id.0@) == Some(i as int) && i
                < self.escalations@.len() && is_active_for(self.escalations@[i as int], id.0@),
            r is None ==> find_active(self.escalations@, id.0@) is None,
    {
        proof {
            lemma_find_active_from(self.escalations@, id.0@, 0);
        }
        let mut i: usize = 0;
        while i < self.escalations.len()
            invariant
                0 <= i <= self.escalations@.len(),
                find_active(self.escalations@, id.0@) == find_active_from(
                    self.escalations@,
                    id.0@,
                    i as int,
                ),
            decreases self.escalations@.len() - i,
        {
            if self.escalations[i].active && self.escalations[i].kind.id == *id {
                return Some(i);
            }
            i = i + 1;
        }
        None
    }

    fn set_clear_since(&mut self, id: &EscalationId, since: Option<Timestamp>)
        ensures
            final(self).key_spec() == old(self).key_spec(),
            final(self).nonces_spec() == old(self).nonces_spec(),
            match find_active(old(self).escalations_spec(), id.0@) {
                Some(i) => final(self).escalations_spec() == old(self).escalations_spec().update(
                    i,
                    EscalationState { clear_since: since, ..old(self).escalations_spec()[i] },
                ),
                None => final(self).escalations_spec() == old(self).escalations_spec(),
            },
    {
        match self.find(id) {
            Some(i) => {
                let ghost before = self.escalations@;
                let mut e = self.escalations.remove(i);
                e.clear_since = since;
                self.escalations.insert(i, e);
                assert(self.escalations@ =~= before.update(
                    i as int,
                    EscalationState { clear_since: since, ..before[i as int] },
                ));
            },
            None => {},
        }
    }

    /// Records that the active escalation's clear condition has held since `since`; no
    /// effect when no escalation of that identifier is active.
    pub fn clear_condition_met(&mut self, id: &EscalationId, since: Timestamp)
        ensures
            final(self).key_spec() == old(self).key_spec(),
            final(self).nonces_spec() == old(self).nonces_spec(),
            match find_active(old(self).escalations_spec(), id.0@) {
                Some(i) => final(self).escalations_spec() == old(self).escalations_spec().update(
                    i,
                    EscalationState {
                        clear_since: Some(since),
                        ..old(self).escalations_spec()[i]
                    },
                ),
                None => final(self).escalations_spec() == old(self).escalations_spec(),
            },
    {
        self.set_clear_since(id, Some(since));
    }

    /// Records that the active escalation's clear condition no longer holds; no effect
    /// when no escalation of that identifier is active.
    pub fn clear_condition_unmet(&mut self, id: &EscalationId)
        ensures
            final(self).key_spec() == old(self).key_spec(),
            final(self).nonces_spec() == old(self).nonces_spec(),
            match find_active(old(self).escalations_spec(), id.0@) {
                Some(i) => final(self).escalations_spec() == old(self).escalations_spec().update(
                    i,
                    EscalationState { clear_since: None, ..old(self).escalations_spec()[i] },
                ),
                None => final(self).escalations_spec() == old(self).escalations_spec(),
            },
    {
        self.set_clear_since(id, None);
    }

    fn classify(now: Timestamp, e: &EscalationState) -> (r: Readiness)
        ensures
            r == readiness(now, *e),
    {
        let elapsed: u128 = if now.0 >= e.raised_at.0 {
            (now.0 - e.raised_at.0) as u128
        } else {
            0
        };
        let max = millis_of(&e.kind.max_duration);
        let dwell = millis_of(&e.kind.dwell_min);
        let hold = millis_of(&e.kind.hold_window);
        let past_max = elapsed > max;
        let eligible = match e.clear_since {
            None => false,
            Some(since) => {
                let held: u128 = if now.0 >= since.0 {
                    (now.0 - since.0) as u128
                } else {
                    0
                };
                elapsed >= dwell && held >= hold
            },
        };
        if eligible {
            Readiness::Eligible
        } else if past_max {
            Readiness::Chronic
        } else {
            match e.clear_since {
                None => Readiness::NotYet(0, false),
                Some(since) => {
                    let held: u128 = if now.0 >= since.0 {
                        (now.0 - since.0) as u128
                    } else {
                        0
                    };
                    if elapsed < dwell {
                        Readiness::NotYet(1, true)
                    } else if held < hold {
                        Readiness::NotYet(2, true)
                    } else {
                        Readiness::NotYet(3, false)
                    }
                },
            }
        }
    }

    /// What the engine says of an escalation at `now`: not yet (with a reason) when no
    /// escalation of that identifier is active; otherwise its readiness, eligibility
    /// always needing the DAP.
    pub fn may_resolve(&self, escalation: &EscalationId, now: Timestamp) -> (r: ResolutionVerdict)
        ensures
            match find_active(self.escalations_spec(), escalation.0@) {
                None => r matches ResolutionVerdict::NotYet { reason } && reason@
                    == "unknown or inactive escalation"@,
                Some(i) => match readiness(now, self.escalations_spec()[i]) {
                    Readiness::Eligible => r == ResolutionVerdict::Eligible { needs_dap: true },
                    Readiness::NotYet(code, _) => r matches ResolutionVerdict::NotYet { reason }
                        && reason@ == reason_text(code),
                    Readiness::Chronic => r == ResolutionVerdict::Chronic,
                },
            },
    {
        match self.find(escalation) {
            None => ResolutionVerdict::NotYet { reason: "unknown or inactive escalation".to_owned() },
            Some(i) => match Eir::classify(now, &self.escalations[i]) {
                Readiness::Eligible => ResolutionVerdict::Eligible { needs_dap: true },
                Readiness::NotYet(code, _) => ResolutionVerdict::NotYet { reason: reason_string(code) },
                Readiness::Chronic => ResolutionVerdict::Chronic,
            },
        }
    }

    fn verify_under(&self, msg: &[u8], sig: &DualSignature) -> (ok: bool)
        ensures
            ok == (self.key_spec().0.len() == MLDSA65_PUBLIC_LEN && self.key_spec().1.len()
                == SLH192S_PUBLIC_LEN && dual_verdict(
                self.key_spec().0,
                self.key_spec().1,
                msg@,
                *sig,
            ) is Ok),
    {
        match DualPublicKey::from_public_bytes(self.dap_public.0.as_slice(), self.dap_public.1.as_slice()) {
            Ok(pk) => pk.verify_dual(msg, sig).is_ok(),
            Err(_) => false,
        }
    }

    fn replayed(&self, id: &EscalationId, n: Nonce) -> (r: bool)
        ensures
            r == nonce_seen(self.accepted_nonces@, id.0@, n),
    {
        let mut i: usize = 0;
        while i < self.accepted_nonces.len()
            invariant
                0 <= i <= self.accepted_nonces@.len(),
                forall|k: int|
                    0 <= k < i ==> !((#[trigger] self.accepted_nonces@[k]).0.0@ == id.0@
                        && self.accepted_nonces@[k].1 == n),
            decreases self.accepted_nonces@.len() - i,
        {
            if self.accepted_nonces[i].0 == *id && self.accepted_nonces[i].1 == n {
                return true;
            }
            i = i + 1;
        }
        false
    }

    /// Resolves an escalation with a DAP-signed decision at `now`. Refused, in order: with
    /// `NeedsDapConfirmation` unless the signature verifies under the DAP key; `Expired`
    /// once `now` is past the decision's expiry; `ReplayedNonce` when the decision's
    /// (escalation, nonce) was accepted before; `CriteriaNotMet` when no escalation of
    /// that identifier is active or its clear condition does not hold;
    /// `HysteresisNotSatisfied` while the dwell or hold window runs. Otherwise the
    /// escalation is deactivated and the nonce recorded. A refusal changes nothing.
    pub fn resolve(&mut self, d: ResolutionDecision, now: Timestamp) -> (r: Result<
        ReturnedToBaseline,
        ResolveError,
    >)
        ensures
            final(self).key_spec() == old(self).key_spec(),
            match resolve_verdict(
                old(self).key_spec(),
                old(self).escalations_spec(),
                old(self).nonces_spec(),
                d,
                now,
            ) {
                Err(e) => r == Err::<ReturnedToBaseline, ResolveError>(e) && final(self).escalations_spec()
                    == old(self).escalations_spec() && final(self).nonces_spec()
                    == old(self).nonces_spec(),
                Ok(()) => {
                    &&& r matches Ok(b) && b.escalation == d.escalation
                    &&& final(self).nonces_spec() == old(self).nonces_spec().push(
                        (d.escalation, d.nonce),
                    )
                    &&& find_active(old(self).escalations_spec(), d.escalation.0@) matches Some(i)
                        && final(self).escalations_spec() == old(self).escalations_spec().update(
                        i,
                        EscalationState { active: false, ..old(self).escalations_spec()[i] },
                    )
                },
            },
    {
        let body = resolution_signed_content(&d);
        if !self.verify_under(body.as_slice(), &d.signature) {
            return Err(ResolveError::NeedsDapConfirmation);
        }
        if now.0 > d.expiry.0 {
            return Err(ResolveError::Expired);
        }
        if self.replayed(&d.escalation, d.nonce) {
            return Err(ResolveError::ReplayedNonce);
        }
        let idx = match self.find(&d.escalation) {
            Some(i) => i,
            None => {
                return Err(ResolveError::CriteriaNotMet);
            },
        };
        match Eir::classify(now, &self.escalations[idx]) {
            Readiness::NotYet(_, true) => Err(ResolveError::HysteresisNotSatisfied),
            Readiness::NotYet(_, false) => Err(ResolveError::CriteriaNotMet),
            _ => {
                let ghost before = self.escalations@;
                let mut e = self.escalations.remove(idx);
                e.active = false;
                self.escalations.insert(idx, e);
                assert(self.escalations@ =~= before.update(
                    idx as int,
                    EscalationState { active: false, ..before[idx as int] },
                ));
                let id = d.escalation.copy();
                self.accepted_nonces.push((id, d.nonce));
                Ok(ReturnedToBaseline { escalation: d.escalation })
            },
        }
    }

    /// The active escalations past their maximum duration at `now`, in raising order.
    pub fn scan_chronic(&self, now: Timestamp) -> (r: Vec<ChronicEscalation>)
        ensures
            r@.len() == chronic_ids(self.escalations_spec(), now).len(),
            forall|i: int|
                0 <= i < r@.len() ==> (#[trigger] r@[i]).escalation.0@ == chronic_ids(
                    self.escalations_spec(),
                    now,
                )[i],
    {
        let mut out: Vec<ChronicEscalation> = Vec::new();
        let mut i: usize = 0;
        while i < self.escalations.len()
            invariant
                0 <= i <= self.escalations@.len(),
                out@.len() == chronic_ids(self.escalations@.subrange(0, i as int), now).len(),
                forall|k: int|
                    0 <= k < out@.len() ==> (#[trigger] out@[k]).escalation.0@ == chronic_ids(
                        self.escalations@.subrange(0, i as int),
                        now,
                    )[k],
            decreases self.escalations@.len() - i,
        {
            let e = &self.escalations[i];
            assert(self.escalations@.subrange(0, i + 1).drop_last() =~= self.escalations@.subrange(
                0,
                i as int,
            ));
            let elapsed: u128 = if now.0 >= e.raised_at.0 {
                (now.0 - e.raised_at.0) as u128
            } else {
                0
            };
            if e.active && elapsed > millis_of(&e.kind.max_duration) {
                out.push(ChronicEscalation { escalation: e.kind.id.copy() });
            }
            i = i + 1;
        }
        assert(self.escalations@.subrange(0, self.escalations@.len() as int) =~= self.escalations@);
        out
    }
}

/// Whether an escalation is chronic at `now`: active and past its maximum duration.
pub open spec fn is_chronic(e: EscalationState, now: Timestamp) -> bool {
    e.active && sat_sub(now.0, e.raised_at.0) > duration_ms(e.kind.max_duration)
}

/// The identifiers of the chronic escalations, in raising order.
pub open spec fn chronic_ids(es: Seq<EscalationState>, now: Timestamp) -> Seq<Seq<char>>
    decreases es.len(),
{
    if es.len() == 0 {
        Seq::empty()
    } else if is_chronic(es.last(), now) {
        chronic_ids(es.drop_last(), now).push(es.last().kind.id.0@)
    } else {
        chronic_ids(es.drop_last(), now)
    }
}

/// A nonce, once accepted for an escalation, is refused for it ever after: any decision
/// bearing it is refused with `ReplayedNonce` or earlier (bad signature, expired), never
/// accepted again.
pub proof fn lemma_accepted_nonce_never_reaccepted(
    key: (Seq<u8>, Seq<u8>),
    es: Seq<EscalationState>,
    nonces: Seq<(EscalationId, Nonce)>,
    d: ResolutionDecision,
    now: Timestamp,
)
    requires
        nonce_seen(nonces, d.escalation.0@, d.nonce),
    ensures
        resolve_verdict(key, es, nonces, d, now) is Err,
        dap_accepts(key, d) && now.0 <= d.expiry.0 ==> resolve_verdict(key, es, nonces, d, now)
            == Err::<(), ResolveError>(ResolveError::ReplayedNonce),
{
}

/// Expiry is checked before replay: an expired decision with a valid signature is
/// reported `Expired` whether or not its nonce was seen.
pub proof fn lemma_expired_before_replay(
    key: (Seq<u8>, Seq<u8>),
    es: Seq<EscalationState>,
    nonces: Seq<(EscalationId, Nonce)>,
    d: ResolutionDecision,
    now: Timestamp,
)
    requires
        dap_accepts(key, d),
        now.0 > d.expiry.0,
    ensures
        resolve_verdict(key, es, nonces, d, now) == Err::<(), ResolveError>(ResolveError::Expired),
{
}

/// Accepted nonces only accumulate: whatever was seen before a step is seen after it,
/// whichever operation the step is.
pub proof fn lemma_seen_nonce_persists(
    before: Seq<(EscalationId, Nonce)>,
    after: Seq<(EscalationId, Nonce)>,
    id: Seq<char>,
    n: Nonce,
)
    requires
        nonce_seen(before, id, n),
        after == before || exists|p: (EscalationId, Nonce)| after == before.push(p),
    ensures
        nonce_seen(after, id, n),
{
    let i = choose|i: int| 0 <= i < before.len() && (#[trigger] before[i]).0.0@ == id && before[i].1 == n;
    if after != before {
        let p = choose|p: (EscalationId, Nonce)| after == before.push(p);
        assert(after[i] == before[i]);
    }
    assert(after[i] == before[i]);
}

/// Hysteresis comes before eligibility: an escalation is eligible only when its clear
/// condition holds, the minimum dwell has elapsed since it was raised, and the hold window
/// has elapsed since the condition cleared (elapsed times counting as zero before they
/// start).
pub proof fn lemma_eligible_only_after_hysteresis(now: Timestamp, e: EscalationState)
    requires
        readiness(now, e) is Eligible,
    ensures
        e.clear_since is Some,
        e.clear_since matches Some(since) && sat_sub(now.0, since.0) >= duration_ms(
            e.kind.hold_window,
        ),
        sat_sub(now.0, e.raised_at.0) >= duration_ms(e.kind.dwell_min),
{
}

/// While the minimum dwell runs, an escalation whose clear condition holds is not yet
/// resolvable, for the dwell and as hysteresis, unless it has already run past its
/// maximum duration, when it is chronic. It is never eligible.
pub proof fn lemma_dwell_not_elapsed(now: Timestamp, e: EscalationState)
    requires
        e.clear_since is Some,
        sat_sub(now.0, e.raised_at.0) < duration_ms(e.kind.dwell_min),
    ensures
        readiness(now, e) !is Eligible,
        sat_sub(now.0, e.raised_at.0) <= duration_ms(e.kind.max_duration) ==> readiness(now, e)
            == Readiness::NotYet(1, true),
        sat_sub(now.0, e.raised_at.0) > duration_ms(e.kind.max_duration) ==> readiness(now, e)
            == Readiness::Chronic,
{
}

/// An escalation is chronic exactly when it is not eligible and has run past its maximum
/// duration since it was raised.
pub proof fn lemma_chronic_iff_past_max(now: Timestamp, e: EscalationState)
    ensures
        readiness(now, e) == Readiness::Chronic <==> (sat_sub(now.0, e.raised_at.0) > duration_ms(
            e.kind.max_duration,
        ) && !(e.clear_since matches Some(since) && sat_sub(now.0, e.raised_at.0) >= duration_ms(
            e.kind.dwell_min,
        ) && sat_sub(now.0, since.0) >= duration_ms(e.kind.hold_window))),
{
}

/// A decision returns an escalation to baseline only when that escalation is active and
/// either has satisfied its hysteresis (clear condition held, minimum dwell and hold
/// window elapsed) or has run past its maximum duration.
pub proof fn lemma_accepted_resolution_respects_hysteresis(
    key: (Seq<u8>, Seq<u8>),
    es: Seq<EscalationState>,
    nonces: Seq<(EscalationId, Nonce)>,
    d: ResolutionDecision,
    now: Timestamp,
)
    requires
        resolve_verdict(key, es, nonces, d, now) is Ok,
    ensures
        find_active(es, d.escalation.0@) matches Some(i) && {
            let e = es[i];
            ||| e.clear_since matches Some(since) && sat_sub(now.0, e.raised_at.0) >= duration_ms(
                e.kind.dwell_min,
            ) && sat_sub(now.0, since.0) >= duration_ms(e.kind.hold_window)
            ||| sat_sub(now.0, e.raised_at.0) > duration_ms(e.kind.max_duration)
        },
{
    let i = find_active(es, d.escalation.0@)->0;
    if readiness(now, es[i]) is Eligible {
        lemma_eligible_only_after_hysteresis(now, es[i]);
    }
}

/// While the minimum dwell of the escalation it names runs, a decision that passes the
/// signature, expiry and replay checks is refused as `HysteresisNotSatisfied`, unless the
/// escalation has run past its maximum duration.
pub proof fn lemma_resolution_refused_during_dwell(
    key: (Seq<u8>, Seq<u8>),
    es: Seq<EscalationState>,
    nonces: Seq<(EscalationId, Nonce)>,
    d: ResolutionDecision,
    now: Timestamp,
    i: int,
)
    requires
        dap_accepts(key, d),
        now.0 <= d.expiry.0,
        !nonce_seen(nonces, d.escalation.0@, d.nonce),
        find_active(es, d.escalation.0@) == Some(i),
        es[i].clear_since is Some,
        sat_sub(now.0, es[i].raised_at.0) < duration_ms(es[i].kind.dwell_min),
        sat_sub(now.0, es[i].raised_at.0) <= duration_ms(es[i].kind.max_duration),
    ensures
        resolve_verdict(key, es, nonces, d, now) == Err::<(), ResolveError>(
            ResolveError::HysteresisNotSatisfied,
        ),
{
    lemma_dwell_not_elapsed(now, es[i]);
}

impl ResolutionEngine for Eir {
    fn may_resolve(&self, escalation: &EscalationId, now: Timestamp) -> (r: ResolutionVerdict)
        ensures
            match find_active(self.escalations_spec(), escalation.0@) {
                None => r matches ResolutionVerdict::NotYet { reason } && reason@
                    == "unknown or inactive escalation"@,
                Some(i) => match readiness(now, self.escalations_spec()[i]) {
                    Readiness::Eligible => r == ResolutionVerdict::Eligible { needs_dap: true },
                    Readiness::NotYet(code, _) => r matches ResolutionVerdict::NotYet { reason }
                        && reason@ == reason_text(code),
                    Readiness::Chronic => r == ResolutionVerdict::Chronic,
                },
            },
    {
        Eir::may_resolve(self, escalation, now)
    }

    fn resolve(&mut self, d: ResolutionDecision, now: Timestamp) -> (r: Result<
        ReturnedToBaseline,
        ResolveError,
    >)
        ensures
            final(self).key_spec() == old(self).key_spec(),
            match resolve_verdict(
                old(self).key_spec(),
                old(self).escalations_spec(),
                old(self).nonces_spec(),
                d,
                now,
            ) {
                Err(e) => r == Err::<ReturnedToBaseline, ResolveError>(e) && final(self).escalations_spec()
                    == old(self).escalations_spec() && final(self).nonces_spec()
                    == old(self).nonces_spec(),
                Ok(()) => {
                    &&& r matches Ok(b) && b.escalation == d.escalation
                    &&& final(self).nonces_spec() == old(self).nonces_spec().push(
                        (d.escalation, d.nonce),
                    )
                    &&& find_active(old(self).escalations_spec(), d.escalation.0@) matches Some(i)
                        && final(self).escalations_spec() == old(self).escalations_spec().update(
                        i,
                        EscalationState { active: false, ..old(self).escalations_spec()[i] },
                    )
                },
            },
    {
        Eir::resolve(self, d, now)
    }

    fn scan_chronic(&self, now: Timestamp) -> (r: Vec<ChronicEscalation>)
        ensures
            r@.len() == chronic_ids(self.escalations_spec(), now).len(),
            forall|i: int|
                0 <= i < r@.len() ==> (#[trigger] r@[i]).escalation.0@ == chronic_ids(
                    self.escalations_spec(),
                    now,
                )[i],
    {
        Eir::scan_chronic(self, now)
    }
}

} // verus!
