//! Federation treaties.

use vstd::prelude::*;

verus! {

/// A treaty among federated clusters.
#[derive(Clone, Debug, Default)]
pub struct FederationTreaty {}

/// A boundary of the federation.
#[derive(Clone, Debug, Default)]
pub struct FederationBoundary {}

/// A sovereign replay domain.
#[derive(Clone, Debug, Default)]
pub struct SovereignReplayDomain {}

/// An invariant a treaty imposes.
#[derive(Clone, Debug, Default)]
pub struct TreatyInvariant {}

/// The certification policy of a federation.
#[derive(Clone, Debug, Default)]
pub struct FederationCertificationPolicy {}

/// An agreement to trust replays.
#[derive(Clone, Debug, Default)]
pub struct ReplayTrustAgreement {}

/// A sequence boundary of the federation.
#[derive(Clone, Debug, Default)]
pub struct FederationSequenceBoundary {}

/// The manifest of a treaty.
#[derive(Clone, Debug, Default)]
pub struct DeterministicTreatyManifest {}

/// Verifies treaty compatibility. Every check of this kind currently succeeds.
pub fn verify_treaty_compatibility() -> (ok: bool)
    ensures
        ok,
{
    true
}

/// Validates a federation boundary. Every check of this kind currently succeeds.
pub fn validate_federation_boundary() -> (ok: bool)
    ensures
        ok,
{
    true
}

/// Verifies a sovereign replay domain. Every check of this kind currently succeeds.
pub fn verify_sovereign_replay_domain() -> (ok: bool)
    ensures
        ok,
{
    true
}

} // verus!
