//! HEIMDALL: the tolerance controller and host-harm monitor. It verifies DAP-signed
//! tolerance grants, screens detectors against the Self Set, keeps the host-harm window's
//! counts and the streak of over-bound windows, assesses storms against the declared blast
//! radius, and raises signed, raise-only signals on cross-hop deviations. The host-harm
//! rate and its declared ceiling are floating-point values: whether a closed window
//! breached the ceiling is decided by the caller and handed to `roll_window`.
use vstd::prelude::*;
use crate::backend::hash::Sha384Hasher;
use crate::backend::primitives::{MLDSA65_PUBLIC_LEN, SLH192S_PUBLIC_LEN, sha384_digest};
use crate::backend::sign::{DualKeyPair, DualPublicKey, dual_accepts, dual_verdict};
use crate::crypto::{DualSignature, HashAlg, Hasher, SignatureAlg, placeholder_signature};
use crate::gate::Action;
use crate::ids::{GrantId, Nonce, OrganId, SelfSetVersion, Timestamp};
use crate::sentinel::canonical::{
    corpus_content, corpus_signed_content, grant_content, grant_signed_content, signal_content,
    signal_signed_content,
};
use crate::sentinel::observation::{DetectionVerdict, Detector, Observation, SelfSetCorpus};
use crate::signal::{PostureEffect, Severity, Signal, SignalClass, SignalScope};
use crate::sset::text_eq;
use crate::text::{decimal, push_decimal, push_lit, string_of};
use crate::tolerance::{
    DetectorSpec, HostHarmIncident, ScreenPass, SelfSet, StormEvent, ToleranceController,
    ToleranceError, ToleranceGrant,
};

verus! {

/// How one response's magnitude stands against the declared blast radius. Without a
/// declared radius the bound cannot be enforced, and the assessment says so rather than
/// report that no storm occurred.
#[derive(Debug, Clone, PartialEq, Eq)]
pub enum StormAssessment {
    Within,
    Exceeds(StormEvent),
    Unenforceable,
}

/// The detail of a storm: the magnitude and the radius it exceeds.
pub open spec fn storm_detail(magnitude: u64, radius: u64) -> Seq<char> {
    "response magnitude "@ + decimal(magnitude as nat) + " exceeds declared blast radius "@
        + decimal(radius as nat)
}

/// The detail of the signal raised for a cross-hop deviation.
pub open spec fn deviation_detail() -> Seq<char> {
    "cross-hop reconciliation deviation"@
}

/// Two actions are the same: same tool, same detail.
pub open spec fn same_action(a: Action, b: Action) -> bool {
    a.tool.0@ == b.tool.0@ && a.detail@ == b.detail@
}

/// Whether an observation records a hop that executed something other than what it was
/// authorized to do. A hop with nothing executed yet is no deviation.
pub open spec fn deviates(o: Observation) -> bool {
    o matches Observation::Hop { authorized, executed: Some(e) } && !same_action(e, authorized)
}

/// A deviation is exactly a hop whose executed action differs from the authorized one,
/// in its tool or in its detail; an observation of any other kind, or a hop with nothing
/// executed yet, never deviates.
pub proof fn lemma_deviation_is_action_inequality(o: Observation)
    ensures
        deviates(o) <==> (o matches Observation::Hop { authorized, executed: Some(e) } && (e.tool.0@
            != authorized.tool.0@ || e.detail@ != authorized.detail@)),
{
}

/// A difference in detail alone is a deviation: a hop that executed the authorized tool
/// with another detail deviates, while one that executed that tool with the authorized
/// detail does not.
pub proof fn lemma_detail_alone_deviates(authorized: Action, executed: Action)
    requires
        executed.tool.0@ == authorized.tool.0@,
        executed.detail@ != authorized.detail@,
    ensures
        deviates(Observation::Hop { authorized, executed: Some(executed) }),
        !deviates(
            Observation::Hop {
                authorized,
                executed: Some(Action { tool: executed.tool, detail: authorized.detail }),
            },
        ),
{
}

/// Whether a DAP key, given as its two encodings, accepts a dual signature over a message.
pub open spec fn key_accepts(key: (Seq<u8>, Seq<u8>), msg: Seq<u8>, sig: DualSignature) -> bool {
    &&& key.0.len() == MLDSA65_PUBLIC_LEN
    &&& key.1.len() == SLH192S_PUBLIC_LEN
    &&& dual_verdict(key.0, key.1, msg, sig) is Ok
}

/// What attaching a grant to a heuristic detector decides: a grant not validly signed by
/// the DAP is refused as forged, a blanket (empty) scope is refused; otherwise the grant
/// is attached under the target's identifier. Expiry is not checked at issuance: an
/// expired grant is retained, and its expiry matters only where it would suppress.
pub open spec fn grant_verdict(key: (Seq<u8>, Seq<u8>), g: ToleranceGrant) -> Result<
    (),
    ToleranceError,
> {
    if !key_accepts(key, grant_content(g), g.signature) {
        Err(ToleranceError::SignatureInvalid)
    } else if g.scope.detail@.len() == 0 {
        Err(ToleranceError::OutOfScope)
    } else {
        Ok(())
    }
}

/// The first detector, from index `k` on, with the given identifier.
pub open spec fn find_detector<D: Detector>(ds: Seq<D>, id: Seq<char>, k: int) -> Option<int>
    decreases ds.len() - k,
{
    if k < 0 || k >= ds.len() {
        None
    } else if ds[k].id_spec().0@ == id {
        Some(k)
    } else {
        find_detector(ds, id, k + 1)
    }
}

/// Whether a detector fires on any observation of a corpus.
pub open spec fn fires_on<D: Detector>(d: D, obs: Seq<Observation>) -> bool {
    exists|i: int| 0 <= i < obs.len() && d.verdict(obs[i]) is Fired
}

/// Whether screening passes: the corpus is the declared version, the digest recomputed
/// over its observations is the declared one, a registered detector has the identifier,
/// and it fires on no observation of the corpus.
pub open spec fn screen_passes<D: Detector>(
    version: Seq<char>,
    obs: Seq<Observation>,
    ds: Seq<D>,
    detector: DetectorSpec,
    self_set: SelfSet,
) -> bool {
    &&& version == self_set.version.0@
    &&& self_set.corpus_digest.alg == HashAlg::Sha384
    &&& sha384_digest(corpus_content(obs)) == self_set.corpus_digest.bytes@
    &&& find_detector(ds, detector.id.0@, 0) matches Some(i) && !fires_on(ds[i], obs)
}

/// HEIMDALL: the Self Set corpus, the DAP key grants are verified under, its own signing
/// key, the declared blast radius and sustained-breach threshold, the injected evaluation
/// time, the registered detectors, and the host-harm window.
pub struct Heimdall<C: SelfSetCorpus, D: Detector> {
    corpus: C,
    dap_public: (Vec<u8>, Vec<u8>),
    signing: DualKeyPair,
    blast_radius: Option<u64>,
    sustained_threshold: u32,
    now: Timestamp,
    detectors: Vec<D>,
    governed: u64,
    incidents: Vec<HostHarmIncident>,
    over_bound_streak: u32,
    last_storm: Option<StormEvent>,
}

impl<C: SelfSetCorpus, D: Detector> Heimdall<C, D> {
    pub closed spec fn corpus_spec(&self) -> C {
        self.corpus
    }

    pub closed spec fn key_spec(&self) -> (Seq<u8>, Seq<u8>) {
        (self.dap_public.0@, self.dap_public.1@)
    }

    pub closed spec fn signing_spec(&self) -> DualKeyPair {
        self.signing
    }

    pub closed spec fn blast_radius_spec(&self) -> Option<u64> {
        self.blast_radius
    }

    pub closed spec fn threshold_spec(&self) -> u32 {
        self.sustained_threshold
    }

    pub closed spec fn now_spec(&self) -> Timestamp {
        self.now
    }

    pub closed spec fn detectors_spec(&self) -> Seq<D> {
        self.detectors@
    }

    /// Governed actions evaluated in the current window.
    pub closed spec fn governed_spec(&self) -> u64 {
        self.governed
    }

    /// Confirmed host-harm incidents in the current window.
    pub closed spec fn incidents_spec(&self) -> Seq<HostHarmIncident> {
        self.incidents@
    }

    /// Consecutive closed windows whose rate breached the ceiling.
    pub closed spec fn streak_spec(&self) -> u32 {
        self.over_bound_streak
    }

    pub closed spec fn last_storm_spec(&self) -> Option<StormEvent> {
        self.last_storm
    }

    /// A monitor with no detectors, an empty window and no streak.
    pub fn new(
        corpus: C,
        dap_public: (Vec<u8>, Vec<u8>),
        signing: DualKeyPair,
        blast_radius: Option<u64>,
        sustained_threshold: u32,
        now: Timestamp,
    ) -> (r: Self)
        ensures
            r.corpus_spec() == corpus,
            r.key_spec() == (dap_public.0@, dap_public.1@),
            r.signing_spec() == signing,
            r.blast_radius_spec() == blast_radius,
            r.threshold_spec() == sustained_threshold,
            r.now_spec() == now,
            r.detectors_spec().len() == 0,
            r.governed_spec() == 0,
            r.incidents_spec().len() == 0,
            r.streak_spec() == 0,
            r.last_storm_spec() is None,
    {
        Heimdall {
            corpus,
            dap_public,
            signing,
            blast_radius,
            sustained_threshold,
            now,
            detectors: Vec::new(),
            governed: 0,
            incidents: Vec::new(),
            over_bound_streak: 0,
            last_storm: None,
        }
    }

    /// Sets the evaluation time; nothing else changes.
    pub fn set_now(&mut self, now: Timestamp)
        ensures
            final(self).now_spec() == now,
            final(self).detectors_spec() == old(self).detectors_spec(),
            final(self).governed_spec() == old(self).governed_spec(),
            final(self).incidents_spec() == old(self).incidents_spec(),
            final(self).streak_spec() == old(self).streak_spec(),
            final(self).key_spec() == old(self).key_spec(),
    {
        self.now = now;
    }

    /// Registers a detector for screening.
    pub fn register_detector(&mut self, detector: D)
        ensures
            final(self).detectors_spec() == old(self).detectors_spec().push(detector),
            final(self).now_spec() == old(self).now_spec(),
            final(self).governed_spec() == old(self).governed_spec(),
            final(self).incidents_spec() == old(self).incidents_spec(),
            final(self).streak_spec() == old(self).streak_spec(),
    {
        self.detectors.push(detector);
    }

    /// Counts one governed action in the current window (saturating).
    pub fn record_governed_action(&mut self)
        ensures
            final(self).governed_spec() == (if old(self).governed_spec() == u64::MAX {
                u64::MAX as int
            } else {
                old(self).governed_spec() + 1
            }),
            final(self).incidents_spec() == old(self).incidents_spec(),
            final(self).streak_spec() == old(self).streak_spec(),
            final(self).detectors_spec() == old(self).detectors_spec(),
            final(self).now_spec() == old(self).now_spec(),
    {
        if self.governed < u64::MAX {
            self.governed = self.governed + 1;
        }
    }

    /// Records a DAP-confirmed host-harm incident in the current window.
    pub fn record_incident(&mut self, incident: HostHarmIncident)
        ensures
            final(self).incidents_spec() == old(self).incidents_spec().push(incident),
            final(self).governed_spec() == old(self).governed_spec(),
            final(self).streak_spec() == old(self).streak_spec(),
            final(self).detectors_spec() == old(self).detectors_spec(),
            final(self).now_spec() == old(self).now_spec(),
    {
        self.incidents.push(incident);
    }

    /// Governed actions counted in the current window.
    pub fn governed(&self) -> (r: u64)
        ensures
            r == self.governed_spec(),
    {
        self.governed
    }

    /// Incidents recorded in the current window.
    pub fn incident_count(&self) -> (r: u64)
        ensures
            r == self.incidents_spec().len(),
    {
        self.incidents.len() as u64
    }

    /// Whether the breach is sustained: the over-bound streak has reached the declared
    /// threshold.
    pub fn autoimmunity(&self) -> (r: bool)
        ensures
            r == (self.streak_spec() >= self.threshold_spec()),
    {
        self.over_bound_streak >= self.sustained_threshold
    }

    /// The most recent storm assessed.
    pub fn last_storm(&self) -> (r: Option<StormEvent>)
        ensures
            r is Some <==> self.last_storm_spec() is Some,
            r matches Some(e) ==> e.detail@ == self.last_storm_spec()->0.detail@,
    {
        match &self.last_storm {
            Some(e) => Some(StormEvent { detail: e.detail.clone() }),
            None => None,
        }
    }

    /// Closes the current window: a breached window extends the over-bound streak
    /// (saturating), any other resets it; the window's counts start again from zero.
    pub fn roll_window(&mut self, breached: bool)
        ensures
            final(self).streak_spec() == (if !breached {
                0
            } else if old(self).streak_spec() == u32::MAX {
                u32::MAX as int
            } else {
                old(self).streak_spec() + 1
            }),
            final(self).governed_spec() == 0,
            final(self).incidents_spec().len() == 0,
            final(self).detectors_spec() == old(self).detectors_spec(),
            final(self).now_spec() == old(self).now_spec(),
            final(self).threshold_spec() == old(self).threshold_spec(),
    {
        if breached {
            if self.over_bound_streak < u32::MAX {
                self.over_bound_streak = self.over_bound_streak + 1;
            }
        } else {
            self.over_bound_streak = 0;
        }
        self.governed = 0;
        self.incidents = Vec::new();
    }

    /// Assesses one response's magnitude against the declared blast radius: beyond it is a
    /// storm, which is remembered as the last storm; without a declared radius the
    /// assessment is `Unenforceable`.
    pub fn assess_response(&mut self, magnitude: u64) -> (r: StormAssessment)
        ensures
            match old(self).blast_radius_spec() {
                None => r == StormAssessment::Unenforceable && final(self).last_storm_spec()
                    == old(self).last_storm_spec(),
                Some(radius) => if magnitude > radius {
                    &&& r matches StormAssessment::Exceeds(e) && e.detail@ == storm_detail(
                        magnitude,
                        radius,
                    )
                    &&& final(self).last_storm_spec() matches Some(s) && s.detail@
                        == storm_detail(magnitude, radius)
                } else {
                    r == StormAssessment::Within && final(self).last_storm_spec()
                        == old(self).last_storm_spec()
                },
            },
            final(self).blast_radius_spec() == old(self).blast_radius_spec(),
            final(self).streak_spec() == old(self).streak_spec(),
            final(self).governed_spec() == old(self).governed_spec(),
            final(self).incidents_spec() == old(self).incidents_spec(),
            final(self).detectors_spec() == old(self).detectors_spec(),
            final(self).now_spec() == old(self).now_spec(),
    {
        match self.blast_radius {
            None => StormAssessment::Unenforceable,
            Some(radius) => {
                if magnitude > radius {
                    let mut d: Vec<char> = Vec::new();
                    push_lit(&mut d, "response magnitude ");
                    push_decimal(&mut d, magnitude);
                    push_lit(&mut d, " exceeds declared blast radius ");
                    push_decimal(&mut d, radius);
                    assert(d@ =~= storm_detail(magnitude, radius));
                    let detail = string_of(d.as_slice());
                    self.last_storm = Some(StormEvent { detail: detail.clone() });
                    StormAssessment::Exceeds(StormEvent { detail })
                } else {
                    StormAssessment::Within
                }
            },
        }
    }

    /// Cross-hop reconciliation: a hop that executed something other than what it was
    /// authorized to do raises a high-severity threat signal; anything else raises
    /// nothing.
    pub fn reconcile(&self, observation: &Observation) -> (r: Option<Signal>)
        ensures
            r is Some <==> deviates(*observation),
            r matches Some(s) ==> self.raised(s, SignalClass::ThreatDetected, Severity::High, deviation_detail()),
    {
        match observation {
            Observation::Hop { authorized, executed: Some(executed) } => {
                if actions_equal(executed, authorized) {
                    None
                } else {
                    Some(
                        self.raise_signal(
                            SignalClass::ThreatDetected,
                            Severity::High,
                            "cross-hop reconciliation deviation",
                        ),
                    )
                }
            },
            _ => None,
        }
    }

    /// A raise-only signal from the sentinel: the class, severity and detail given, the
    /// scope `sentinel`, nonce and expiry zero, and either a dual signature by the
    /// monitor's key over the signal's signed content or, when signing fails, the empty
    /// placeholder signature.
    pub open spec fn raised(&self, s: Signal, class: SignalClass, severity: Severity, detail: Seq<char>) -> bool {
        &&& s.source == OrganId::Sentinel
        &&& s.class == class
        &&& s.severity == severity
        &&& s.effect matches PostureEffect::Raise { detail: d } && d@ == detail
        &&& s.scope.detail@ == "sentinel"@
        &&& s.nonce == Nonce(0)
        &&& s.expiry == Timestamp(0)
        &&& (is_placeholder(s.signature) || dual_accepts(
            self.signing_spec().mldsa_public_view(),
            self.signing_spec().slh_public_view(),
            signal_content(s),
            s.signature,
        ))
    }

    fn raise_signal(&self, class: SignalClass, severity: Severity, detail: &str) -> (r: Signal)
        ensures
            self.raised(r, class, severity, detail@),
    {
        let mut signal = Signal {
            source: OrganId::Sentinel,
            class,
            severity,
            effect: PostureEffect::Raise { detail: detail.to_owned() },
            scope: SignalScope { detail: "sentinel".to_owned() },
            nonce: Nonce(0),
            expiry: Timestamp(0),
            signature: placeholder_signature(),
        };
        let ghost unsigned = signal;
        let body = signal_signed_content(&signal);
        match self.signing.sign_dual(body.as_slice()) {
            Ok(sig) => {
                signal.signature = sig;
                assert(signal_content(signal) == signal_content(unsigned));
            },
            Err(_) => {},
        }
        signal
    }

    fn dap_accepts(&self, msg: &[u8], sig: &DualSignature) -> (ok: bool)
        ensures
            ok == key_accepts(self.key_spec(), msg@, *sig),
    {
        match DualPublicKey::from_public_bytes(self.dap_public.0.as_slice(), self.dap_public.1.as_slice()) {
            Ok(pk) => pk.verify_dual(msg, sig).is_ok(),
            Err(_) => false,
        }
    }

    fn find_detector_index(&self, id: &str) -> (r: Option<usize>)
        ensures
            r is None <==> find_detector(self.detectors@, id@, 0) is None,
            r matches Some(i) ==> find_detector(self.detectors@, id@, 0) == Some(i as int) && i
                < self.detectors@.len(),
    {
        let mut i: usize = 0;
        while i < self.detectors.len()
            invariant
                0 <= i <= self.detectors@.len(),
                find_detector(self.detectors@, id@, 0) == find_detector(self.detectors@, id@, i as int),
            decreases self.detectors@.len() - i,
        {
            if text_eq(self.detectors[i].id().as_str(), id) {
                return Some(i);
            }
            i = i + 1;
        }
        None
    }
}

/// The empty placeholder signature: the two families' identifiers and no bytes.
pub open spec fn is_placeholder(s: DualSignature) -> bool {
    &&& s.lattice.alg == SignatureAlg::MlDsa65
    &&& s.hash_based.alg == SignatureAlg::SlhDsaShake192s
    &&& s.lattice.bytes@.len() == 0
    &&& s.hash_based.bytes@.len() == 0
}

fn actions_equal(a: &Action, b: &Action) -> (r: bool)
    ensures
        r == same_action(*a, *b),
{
    text_eq(a.tool.as_str(), b.tool.as_str()) && text_eq(a.detail.as_str(), b.detail.as_str())
}

impl<C: SelfSetCorpus, D: Detector> ToleranceController for Heimdall<C, D> {
    open spec fn heuristic_verdict(&self, grant: ToleranceGrant) -> Result<(), ToleranceError> {
        grant_verdict(self.key_spec(), grant)
    }

    /// Attaches a grant to a heuristic detector, as `grant_verdict` decides, under the
    /// target's identifier.
    fn grant_heuristic(&self, grant: ToleranceGrant) -> (r: Result<GrantId, ToleranceError>)
        ensures
            r matches Ok(id) ==> id.0@ == grant.target.0@,
    {
        let body = grant_signed_content(&grant);
        if !self.dap_accepts(body.as_slice(), &grant.signature) {
            return Err(ToleranceError::SignatureInvalid);
        }
        if grant.scope.detail.as_str().is_empty() {
            return Err(ToleranceError::OutOfScope);
        }
        Ok(GrantId::new(grant.target.as_str()))
    }

    /// Screens a detector against the Self Set: the corpus version must match the
    /// declared one, the digest recomputed over the corpus must be the declared digest
    /// (a substituted corpus is refused before anything runs), the detector must be
    /// registered, and a single firing over the corpus fails it.
    #[verifier::loop_isolation(false)]
    fn screen(&self, detector: &DetectorSpec, self_set: &SelfSet, now: Timestamp) -> (r: Result<
        ScreenPass,
        ToleranceError,
    >)
        ensures
            r is Ok <==> screen_passes(
                self.corpus_spec().version_spec().0@,
                self.corpus_spec().observations_spec(),
                self.detectors_spec(),
                *detector,
                *self_set,
            ),
            r matches Ok(p) ==> p.version.0@ == self_set.version.0@ && p.produced_at == now,
            r matches Err(e) ==> e == ToleranceError::FailsCentralTolerance,
    {
        let version = self.corpus.version();
        if !text_eq(version.as_str(), self_set.version.as_str()) {
            return Err(ToleranceError::FailsCentralTolerance);
        }
        let obs = self.corpus.observations();
        let recomputed = Sha384Hasher.hash(corpus_signed_content(obs).as_slice());
        if !recomputed.matches(&self_set.corpus_digest) {
            return Err(ToleranceError::FailsCentralTolerance);
        }
        let i = match self.find_detector_index(detector.id.as_str()) {
            Some(i) => i,
            None => {
                return Err(ToleranceError::FailsCentralTolerance);
            },
        };
        let d = &self.detectors[i];
        let mut k: usize = 0;
        while k < obs.len()
            invariant
                0 <= k <= obs@.len(),
                forall|j: int| 0 <= j < k ==> !(d.verdict(obs@[j]) is Fired),
            decreases obs@.len() - k,
        {
            match d.observe(&obs[k]) {
                DetectionVerdict::Fired { .. } => {
                    assert(d.verdict(obs@[k as int]) is Fired);
                    assert(fires_on(*d, obs@));
                    return Err(ToleranceError::FailsCentralTolerance);
                },
                DetectionVerdict::Clear => {},
            }
            k = k + 1;
        }
        assert(!fires_on(*d, obs@));
        Ok(ScreenPass { version: SelfSetVersion::new(self_set.version.as_str()), produced_at: now })
    }
}

} // verus!
