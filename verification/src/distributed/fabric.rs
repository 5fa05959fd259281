//! Messages of the replay fabric.

use vstd::prelude::*;
use crate::distributed::partition::{ReplayShard, ReplayShardCertification};

verus! {

/// A message dispatching a shard to a worker.
#[derive(Clone, Debug)]
pub struct ReplayDispatchEnvelope {
    pub message_id: String,
    pub shard: ReplayShard,
}

/// A transfer of shard bytes.
#[derive(Clone, Debug)]
pub struct ReplayShardTransfer {
    pub transfer_id: String,
    pub payload: Vec<u8>,
}

/// A shard certification sent by a node.
#[derive(Clone, Debug)]
pub struct CertificationSyncEnvelope {
    pub node_id: String,
    pub certification: ReplayShardCertification,
}

/// The replay fabric protocol.
#[derive(Clone, Debug)]
pub struct ReplayFabricProtocol;

/// The distributed replay transport.
#[derive(Clone, Debug)]
pub struct DistributedReplayTransport;

} // verus!
