//! Replay notarisation.

use vstd::prelude::*;

verus! {

/// A notary of replays.
#[derive(Clone, Debug, Default)]
pub struct ReplayNotary {}

/// A notarised certification.
#[derive(Clone, Debug, Default)]
pub struct CertificationNotaryRecord {}

/// An attestation of a replay.
#[derive(Clone, Debug, Default)]
pub struct ReplayAttestation {}

/// An envelope of federated proofs.
#[derive(Clone, Debug, Default)]
pub struct FederatedProofEnvelope {}

/// A seal over a replay.
#[derive(Clone, Debug, Default)]
pub struct ReplaySeal {}

/// An anchor of certifications in one domain.
#[derive(Clone, Debug, Default)]
pub struct SovereignCertificationAnchor {}

/// Notarises a replay certificate. Every check of this kind currently succeeds.
pub fn notarize_replay_certificate() -> (ok: bool)
    ensures
        ok,
{
    true
}

/// Verifies a notary attestation. Every check of this kind currently succeeds.
pub fn verify_notary_attestation() -> (ok: bool)
    ensures
        ok,
{
    true
}

/// Seals a federated replay. Every check of this kind currently succeeds.
pub fn seal_federated_replay() -> (ok: bool)
    ensures
        ok,
{
    true
}

} // verus!
