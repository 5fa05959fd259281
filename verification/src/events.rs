use vstd::prelude::*;

verus! {

/// The kind of a journaled event.
#[derive(Clone, Copy, Debug, PartialEq, Eq, Structural)]
pub enum EventType {
    MarketTick,
    OrderSubmitted,
    OrderFilled,
    RiskLimitBreached,
    StateSnapshot,
    LimitOrderPlaced,
    LimitOrderCancelled,
    VenueStatusChanged,
    MarketStressInjected,
    OperatorAction,
    PolicyAction,
    RegulatoryIntervention,
    LiquidityFacilityActivated,
    CircuitBreakerTriggered,
    SettlementHolidayActivated,
    AuditCheckpoint,
    InvariantViolationDetected,
    ReplayVerificationCompleted,
    AgentIntent,
    BehaviorTransition,
    SystemicCascadeTriggered,
    AgentLiquidityWithdrawal,
    AgentMarginDefense,
}

/// How the payload bytes of an event are to be interpreted.
#[derive(Clone, Copy, Debug, PartialEq, Eq, Structural)]
pub enum PayloadEncoding {
    RawBytes,
    Json,
    Bincode,
    Protobuf,
    ArrowIPC,
}

/// Encoding and schema version of an event payload.
#[derive(Clone, Copy, Debug, PartialEq, Eq, Structural)]
pub struct PayloadMetadata {
    pub encoding: PayloadEncoding,
    pub schema_version: u16,
}

impl PayloadMetadata {
    pub fn new(encoding: PayloadEncoding, schema_version: u16) -> (m: PayloadMetadata)
        ensures
            m.encoding == encoding,
            m.schema_version == schema_version,
    {
        PayloadMetadata { encoding, schema_version }
    }

    /// Metadata for an uninterpreted byte payload, schema version 1.
    pub fn raw() -> (m: PayloadMetadata)
        ensures
            m.encoding == PayloadEncoding::RawBytes,
            m.schema_version == 1,
    {
        PayloadMetadata { encoding: PayloadEncoding::RawBytes, schema_version: 1 }
    }
}

/// A sequenced, timestamped event: the unit of the append-only journal.
#[derive(Clone, Debug, PartialEq, Eq)]
pub struct AstraEvent {
    pub sequence_id: u64,
    pub timestamp_ns: u64,
    pub event_type: EventType,
    pub payload: Vec<u8>,
    pub payload_metadata: PayloadMetadata,
}

/// The mathematical value of an event: its fields, with the payload as a sequence.
pub struct EventView {
    pub sequence_id: u64,
    pub timestamp_ns: u64,
    pub event_type: EventType,
    pub payload: Seq<u8>,
    pub payload_metadata: PayloadMetadata,
}

impl View for AstraEvent {
    type V = EventView;

    open spec fn view(&self) -> EventView {
        EventView {
            sequence_id: self.sequence_id,
            timestamp_ns: self.timestamp_ns,
            event_type: self.event_type,
            payload: self.payload@,
            payload_metadata: self.payload_metadata,
        }
    }
}

impl AstraEvent {
    pub fn new(
        timestamp_ns: u64,
        sequence_id: u64,
        event_type: EventType,
        payload: Vec<u8>,
        payload_metadata: PayloadMetadata,
    ) -> (e: AstraEvent)
        ensures
            e.timestamp_ns == timestamp_ns,
            e.sequence_id == sequence_id,
            e.event_type == event_type,
            e.payload@ == payload@,
            e.payload_metadata == payload_metadata,
    {
        AstraEvent { sequence_id, timestamp_ns, event_type, payload, payload_metadata }
    }

    /// An event whose payload is raw bytes with schema version 1.
    pub fn new_raw(timestamp_ns: u64, sequence_id: u64, event_type: EventType, payload: Vec<u8>) -> (e: AstraEvent)
        ensures
            e.timestamp_ns == timestamp_ns,
            e.sequence_id == sequence_id,
            e.event_type == event_type,
            e.payload@ == payload@,
            e.payload_metadata == (PayloadMetadata { encoding: PayloadEncoding::RawBytes, schema_version: 1 }),
    {
        AstraEvent::new(timestamp_ns, sequence_id, event_type, payload, PayloadMetadata::raw())
    }
}

} // verus!
