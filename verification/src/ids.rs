//! Common identifiers and small value types.
//!
//! Every string identifier is a newtype over `String` whose equality is the equality of
//! its characters; `Timestamp` is epoch milliseconds.
use vstd::prelude::*;

verus! {

/// Subject of an attestation (a hop, a workload).
#[derive(Debug, Clone, PartialEq, Eq, PartialOrd, Ord, Hash)]
pub struct SubjectId(pub String);

impl SubjectId {
    /// A copy of this identifier.
    pub fn copy(&self) -> (r: Self)
        ensures
            r == *self,
    {
        SubjectId(self.0.clone())
    }

    pub fn new(s: &str) -> (r: Self)
        ensures
            r.0@ == s@,
    {
        SubjectId(s.to_owned())
    }

    pub fn as_str(&self) -> (r: &str)
        ensures
            r@ == self.0@,
    {
        self.0.as_str()
    }
}

/// A registered model endpoint.
#[derive(Debug, Clone, PartialOrd, Ord, Hash)]
pub struct ModelEndpointId(pub String);

impl ModelEndpointId {
    /// A copy of this identifier.
    pub fn copy(&self) -> (r: Self)
        ensures
            r == *self,
    {
        ModelEndpointId(self.0.clone())
    }

    pub fn new(s: &str) -> (r: Self)
        ensures
            r.0@ == s@,
    {
        ModelEndpointId(s.to_owned())
    }

    pub fn as_str(&self) -> (r: &str)
        ensures
            r@ == self.0@,
    {
        self.0.as_str()
    }
}

impl PartialEq for ModelEndpointId {
    fn eq(&self, other: &Self) -> (r: bool) {
        self.0 == other.0
    }
}

impl Eq for ModelEndpointId {}

impl vstd::std_specs::cmp::PartialEqSpecImpl for ModelEndpointId {
    open spec fn obeys_eq_spec() -> bool {
        true
    }

    open spec fn eq_spec(&self, other: &Self) -> bool {
        self.0@ == other.0@
    }
}

/// A genome version tag.
#[derive(Debug, Clone, PartialOrd, Ord, Hash)]
pub struct GenomeVersion(pub String);

impl GenomeVersion {
    pub fn new(s: &str) -> (r: Self)
        ensures
            r.0@ == s@,
    {
        GenomeVersion(s.to_owned())
    }

    pub fn as_str(&self) -> (r: &str)
        ensures
            r@ == self.0@,
    {
        self.0.as_str()
    }
}

impl PartialEq for GenomeVersion {
    fn eq(&self, other: &Self) -> (r: bool) {
        self.0 == other.0
    }
}

impl Eq for GenomeVersion {}

impl vstd::std_specs::cmp::PartialEqSpecImpl for GenomeVersion {
    open spec fn obeys_eq_spec() -> bool {
        true
    }

    open spec fn eq_spec(&self, other: &Self) -> bool {
        self.0@ == other.0@
    }
}

/// An escalation type identifier.
#[derive(Debug, Clone, PartialOrd, Ord, Hash)]
pub struct EscalationId(pub String);

impl EscalationId {
    /// A copy of this identifier.
    pub fn copy(&self) -> (r: Self)
        ensures
            r == *self,
    {
        EscalationId(self.0.clone())
    }

    pub fn new(s: &str) -> (r: Self)
        ensures
            r.0@ == s@,
    {
        EscalationId(s.to_owned())
    }

    pub fn as_str(&self) -> (r: &str)
        ensures
            r@ == self.0@,
    {
        self.0.as_str()
    }
}

impl PartialEq for EscalationId {
    fn eq(&self, other: &Self) -> (r: bool) {
        self.0 == other.0
    }
}

impl Eq for EscalationId {}

impl vstd::std_specs::cmp::PartialEqSpecImpl for EscalationId {
    open spec fn obeys_eq_spec() -> bool {
        true
    }

    open spec fn eq_spec(&self, other: &Self) -> bool {
        self.0@ == other.0@
    }
}

/// A heuristic detector identifier.
#[derive(Debug, Clone, PartialOrd, Ord, Hash)]
pub struct DetectorId(pub String);

impl DetectorId {
    /// A copy of this identifier.
    pub fn copy(&self) -> (r: Self)
        ensures
            r == *self,
    {
        DetectorId(self.0.clone())
    }

    pub fn new(s: &str) -> (r: Self)
        ensures
            r.0@ == s@,
    {
        DetectorId(s.to_owned())
    }

    pub fn as_str(&self) -> (r: &str)
        ensures
            r@ == self.0@,
    {
        self.0.as_str()
    }
}

impl PartialEq for DetectorId {
    fn eq(&self, other: &Self) -> (r: bool) {
        self.0 == other.0
    }
}

impl Eq for DetectorId {}

impl vstd::std_specs::cmp::PartialEqSpecImpl for DetectorId {
    open spec fn obeys_eq_spec() -> bool {
        true
    }

    open spec fn eq_spec(&self, other: &Self) -> bool {
        self.0@ == other.0@
    }
}

/// A tolerance-grant identifier.
#[derive(Debug, Clone, PartialOrd, Ord, Hash)]
pub struct GrantId(pub String);

impl GrantId {
    pub fn new(s: &str) -> (r: Self)
        ensures
            r.0@ == s@,
    {
        GrantId(s.to_owned())
    }

    pub fn as_str(&self) -> (r: &str)
        ensures
            r@ == self.0@,
    {
        self.0.as_str()
    }
}

impl PartialEq for GrantId {
    fn eq(&self, other: &Self) -> (r: bool) {
        self.0 == other.0
    }
}

impl Eq for GrantId {}

impl vstd::std_specs::cmp::PartialEqSpecImpl for GrantId {
    open spec fn obeys_eq_spec() -> bool {
        true
    }

    open spec fn eq_spec(&self, other: &Self) -> bool {
        self.0@ == other.0@
    }
}

/// A risk-acceptance-entry identifier.
#[derive(Debug, Clone, PartialOrd, Ord, Hash)]
pub struct RiskAcceptanceId(pub String);

impl RiskAcceptanceId {
    pub fn new(s: &str) -> (r: Self)
        ensures
            r.0@ == s@,
    {
        RiskAcceptanceId(s.to_owned())
    }

    pub fn as_str(&self) -> (r: &str)
        ensures
            r@ == self.0@,
    {
        self.0.as_str()
    }
}

impl PartialEq for RiskAcceptanceId {
    fn eq(&self, other: &Self) -> (r: bool) {
        self.0 == other.0
    }
}

impl Eq for RiskAcceptanceId {}

impl vstd::std_specs::cmp::PartialEqSpecImpl for RiskAcceptanceId {
    open spec fn obeys_eq_spec() -> bool {
        true
    }

    open spec fn eq_spec(&self, other: &Self) -> bool {
        self.0@ == other.0@
    }
}

/// An audit incident identifier.
#[derive(Debug, Clone, PartialOrd, Ord, Hash)]
pub struct IncidentId(pub String);

impl IncidentId {
    pub fn new(s: &str) -> (r: Self)
        ensures
            r.0@ == s@,
    {
        IncidentId(s.to_owned())
    }

    pub fn as_str(&self) -> (r: &str)
        ensures
            r@ == self.0@,
    {
        self.0.as_str()
    }
}

impl PartialEq for IncidentId {
    fn eq(&self, other: &Self) -> (r: bool) {
        self.0 == other.0
    }
}

impl Eq for IncidentId {}

impl vstd::std_specs::cmp::PartialEqSpecImpl for IncidentId {
    open spec fn obeys_eq_spec() -> bool {
        true
    }

    open spec fn eq_spec(&self, other: &Self) -> bool {
        self.0@ == other.0@
    }
}

/// A reasoning-hop identifier.
#[derive(Debug, Clone, PartialOrd, Ord, Hash)]
pub struct HopId(pub String);

impl HopId {
    /// A copy of this identifier.
    pub fn copy(&self) -> (r: Self)
        ensures
            r == *self,
    {
        HopId(self.0.clone())
    }

    pub fn new(s: &str) -> (r: Self)
        ensures
            r.0@ == s@,
    {
        HopId(s.to_owned())
    }

    pub fn as_str(&self) -> (r: &str)
        ensures
            r@ == self.0@,
    {
        self.0.as_str()
    }
}

impl PartialEq for HopId {
    fn eq(&self, other: &Self) -> (r: bool) {
        self.0 == other.0
    }
}

impl Eq for HopId {}

impl vstd::std_specs::cmp::PartialEqSpecImpl for HopId {
    open spec fn obeys_eq_spec() -> bool {
        true
    }

    open spec fn eq_spec(&self, other: &Self) -> bool {
        self.0@ == other.0@
    }
}

/// A tool identifier (the tool genome).
#[derive(Debug, Clone, PartialOrd, Ord, Hash)]
pub struct ToolId(pub String);

impl ToolId {
    /// A copy of this identifier.
    pub fn copy(&self) -> (r: Self)
        ensures
            r == *self,
    {
        ToolId(self.0.clone())
    }

    pub fn new(s: &str) -> (r: Self)
        ensures
            r.0@ == s@,
    {
        ToolId(s.to_owned())
    }

    pub fn as_str(&self) -> (r: &str)
        ensures
            r@ == self.0@,
    {
        self.0.as_str()
    }
}

impl PartialEq for ToolId {
    fn eq(&self, other: &Self) -> (r: bool) {
        self.0 == other.0
    }
}

impl Eq for ToolId {}

impl vstd::std_specs::cmp::PartialEqSpecImpl for ToolId {
    open spec fn obeys_eq_spec() -> bool {
        true
    }

    open spec fn eq_spec(&self, other: &Self) -> bool {
        self.0@ == other.0@
    }
}

/// An evaluation-corpus version.
#[derive(Debug, Clone, PartialOrd, Ord, Hash)]
pub struct CorpusVersion(pub String);

impl CorpusVersion {
    pub fn new(s: &str) -> (r: Self)
        ensures
            r.0@ == s@,
    {
        CorpusVersion(s.to_owned())
    }

    pub fn as_str(&self) -> (r: &str)
        ensures
            r@ == self.0@,
    {
        self.0.as_str()
    }
}

impl PartialEq for CorpusVersion {
    fn eq(&self, other: &Self) -> (r: bool) {
        self.0 == other.0
    }
}

impl Eq for CorpusVersion {}

impl vstd::std_specs::cmp::PartialEqSpecImpl for CorpusVersion {
    open spec fn obeys_eq_spec() -> bool {
        true
    }

    open spec fn eq_spec(&self, other: &Self) -> bool {
        self.0@ == other.0@
    }
}

/// A Self Set version.
#[derive(Debug, Clone, PartialOrd, Ord, Hash)]
pub struct SelfSetVersion(pub String);

impl SelfSetVersion {
    pub fn new(s: &str) -> (r: Self)
        ensures
            r.0@ == s@,
    {
        SelfSetVersion(s.to_owned())
    }

    pub fn as_str(&self) -> (r: &str)
        ensures
            r@ == self.0@,
    {
        self.0.as_str()
    }
}

impl PartialEq for SelfSetVersion {
    fn eq(&self, other: &Self) -> (r: bool) {
        self.0 == other.0
    }
}

impl Eq for SelfSetVersion {}

impl vstd::std_specs::cmp::PartialEqSpecImpl for SelfSetVersion {
    open spec fn obeys_eq_spec() -> bool {
        true
    }

    open spec fn eq_spec(&self, other: &Self) -> bool {
        self.0@ == other.0@
    }
}

/// A network host.
#[derive(Debug, Clone, PartialOrd, Ord, Hash)]
pub struct Host(pub String);

impl Host {
    pub fn new(s: &str) -> (r: Self)
        ensures
            r.0@ == s@,
    {
        Host(s.to_owned())
    }

    pub fn as_str(&self) -> (r: &str)
        ensures
            r@ == self.0@,
    {
        self.0.as_str()
    }
}

impl PartialEq for Host {
    fn eq(&self, other: &Self) -> (r: bool) {
        self.0 == other.0
    }
}

impl Eq for Host {}

impl vstd::std_specs::cmp::PartialEqSpecImpl for Host {
    open spec fn obeys_eq_spec() -> bool {
        true
    }

    open spec fn eq_spec(&self, other: &Self) -> bool {
        self.0@ == other.0@
    }
}

/// A reference to a client certificate (mutual TLS). Opaque here.
#[derive(Debug, Clone, PartialOrd, Ord, Hash)]
pub struct ClientCertRef(pub String);

impl ClientCertRef {
    pub fn new(s: &str) -> (r: Self)
        ensures
            r.0@ == s@,
    {
        ClientCertRef(s.to_owned())
    }

    pub fn as_str(&self) -> (r: &str)
        ensures
            r@ == self.0@,
    {
        self.0.as_str()
    }
}

impl PartialEq for ClientCertRef {
    fn eq(&self, other: &Self) -> (r: bool) {
        self.0 == other.0
    }
}

impl Eq for ClientCertRef {}

impl vstd::std_specs::cmp::PartialEqSpecImpl for ClientCertRef {
    open spec fn obeys_eq_spec() -> bool {
        true
    }

    open spec fn eq_spec(&self, other: &Self) -> bool {
        self.0@ == other.0@
    }
}

/// A pinned server trust anchor.
#[derive(Debug, Clone, PartialOrd, Ord, Hash)]
pub struct TrustAnchor(pub String);

impl TrustAnchor {
    pub fn new(s: &str) -> (r: Self)
        ensures
            r.0@ == s@,
    {
        TrustAnchor(s.to_owned())
    }

    pub fn as_str(&self) -> (r: &str)
        ensures
            r@ == self.0@,
    {
        self.0.as_str()
    }
}

impl PartialEq for TrustAnchor {
    fn eq(&self, other: &Self) -> (r: bool) {
        self.0 == other.0
    }
}

impl Eq for TrustAnchor {}

impl vstd::std_specs::cmp::PartialEqSpecImpl for TrustAnchor {
    open spec fn obeys_eq_spec() -> bool {
        true
    }

    open spec fn eq_spec(&self, other: &Self) -> bool {
        self.0@ == other.0@
    }
}

/// A reference to a datum crossing a boundary.
#[derive(Debug, Clone, PartialOrd, Ord, Hash)]
pub struct DatumRef(pub String);

impl DatumRef {
    pub fn new(s: &str) -> (r: Self)
        ensures
            r.0@ == s@,
    {
        DatumRef(s.to_owned())
    }

    pub fn as_str(&self) -> (r: &str)
        ensures
            r@ == self.0@,
    {
        self.0.as_str()
    }
}

impl PartialEq for DatumRef {
    fn eq(&self, other: &Self) -> (r: bool) {
        self.0 == other.0
    }
}

impl Eq for DatumRef {}

impl vstd::std_specs::cmp::PartialEqSpecImpl for DatumRef {
    open spec fn obeys_eq_spec() -> bool {
        true
    }

    open spec fn eq_spec(&self, other: &Self) -> bool {
        self.0@ == other.0@
    }
}

/// The provenance root recorded on a Boundary Custody Record.
#[derive(Debug, Clone, PartialOrd, Ord, Hash)]
pub struct OriginId(pub String);

impl OriginId {
    pub fn new(s: &str) -> (r: Self)
        ensures
            r.0@ == s@,
    {
        OriginId(s.to_owned())
    }

    pub fn as_str(&self) -> (r: &str)
        ensures
            r@ == self.0@,
    {
        self.0.as_str()
    }
}

impl PartialEq for OriginId {
    fn eq(&self, other: &Self) -> (r: bool) {
        self.0 == other.0
    }
}

impl Eq for OriginId {}

impl vstd::std_specs::cmp::PartialEqSpecImpl for OriginId {
    open spec fn obeys_eq_spec() -> bool {
        true
    }

    open spec fn eq_spec(&self, other: &Self) -> bool {
        self.0@ == other.0@
    }
}

/// Identity of a deterministic-gate finding an acceptance is scoped to.
#[derive(Debug, Clone, PartialOrd, Ord, Hash)]
pub struct FindingId(pub String);

impl FindingId {
    pub fn new(s: &str) -> (r: Self)
        ensures
            r.0@ == s@,
    {
        FindingId(s.to_owned())
    }

    pub fn as_str(&self) -> (r: &str)
        ensures
            r@ == self.0@,
    {
        self.0.as_str()
    }
}

impl PartialEq for FindingId {
    fn eq(&self, other: &Self) -> (r: bool) {
        self.0 == other.0
    }
}

impl Eq for FindingId {}

impl vstd::std_specs::cmp::PartialEqSpecImpl for FindingId {
    open spec fn obeys_eq_spec() -> bool {
        true
    }

    open spec fn eq_spec(&self, other: &Self) -> bool {
        self.0@ == other.0@
    }
}

/// A named field of a personal datum, declared on a crossing and permitted by the signed purpose-field policy.
#[derive(Debug, Clone, PartialOrd, Ord, Hash)]
pub struct FieldName(pub String);

impl FieldName {
    pub fn new(s: &str) -> (r: Self)
        ensures
            r.0@ == s@,
    {
        FieldName(s.to_owned())
    }

    pub fn as_str(&self) -> (r: &str)
        ensures
            r@ == self.0@,
    {
        self.0.as_str()
    }
}

impl PartialEq for FieldName {
    fn eq(&self, other: &Self) -> (r: bool) {
        self.0 == other.0
    }
}

impl Eq for FieldName {}

impl vstd::std_specs::cmp::PartialEqSpecImpl for FieldName {
    open spec fn obeys_eq_spec() -> bool {
        true
    }

    open spec fn eq_spec(&self, other: &Self) -> bool {
        self.0@ == other.0@
    }
}

/// A resource path (a filesystem path, held as text).
#[derive(Debug, Clone, PartialOrd, Ord, Hash)]
pub struct ResourcePath(pub String);

impl ResourcePath {
    pub fn new(s: &str) -> (r: Self)
        ensures
            r.0@ == s@,
    {
        ResourcePath(s.to_owned())
    }

    pub fn as_str(&self) -> (r: &str)
        ensures
            r@ == self.0@,
    {
        self.0.as_str()
    }
}

impl PartialEq for ResourcePath {
    fn eq(&self, other: &Self) -> (r: bool) {
        self.0 == other.0
    }
}

impl Eq for ResourcePath {}

impl vstd::std_specs::cmp::PartialEqSpecImpl for ResourcePath {
    open spec fn obeys_eq_spec() -> bool {
        true
    }

    open spec fn eq_spec(&self, other: &Self) -> bool {
        self.0@ == other.0@
    }
}

/// Epoch milliseconds.
#[derive(Debug, Clone, Copy, PartialEq, Eq, PartialOrd, Ord, Hash, Structural)]
pub struct Timestamp(pub u64);

/// A freshness nonce.
#[derive(Debug, Clone, Copy, PartialEq, Eq, PartialOrd, Ord, Hash, Structural)]
pub struct Nonce(pub u64);

/// A 0..=100 trust/score value.
#[derive(Debug, Clone, Copy, PartialEq, Eq, PartialOrd, Ord, Hash, Structural)]
pub struct Score(pub u8);

/// The Designated Accountable Party: a natural person.
#[derive(Debug, Clone, Hash)]
pub struct Dap {
    pub name: String,
    pub id: String,
}

impl Dap {
    pub fn new(name: &str, id: &str) -> (r: Self)
        ensures
            r.name@ == name@,
            r.id@ == id@,
    {
        Dap { name: name.to_owned(), id: id.to_owned() }
    }
}

impl PartialEq for Dap {
    fn eq(&self, other: &Self) -> (r: bool) {
        self.name == other.name && self.id == other.id
    }
}

impl Eq for Dap {}

impl vstd::std_specs::cmp::PartialEqSpecImpl for Dap {
    open spec fn obeys_eq_spec() -> bool {
        true
    }

    open spec fn eq_spec(&self, other: &Self) -> bool {
        self.name@ == other.name@ && self.id@ == other.id@
    }
}

/// A model's declared identity, recorded in the AI bill of materials.
#[derive(Debug, Clone, PartialEq, Eq, Hash)]
pub struct ModelIdentity {
    pub name: String,
    pub version: String,
    pub provider: String,
}

/// The organs that emit and receive coordinated signals.
#[derive(Debug, Clone, Copy, PartialEq, Eq, Hash, Structural)]
pub enum OrganId {
    Genome,
    Intent,
    Gate,
    Barrier,
    Sentinel,
    Resolution,
    Adapt,
    Audit,
    Bifrost,
    Reasoner,
}

} // verus!
