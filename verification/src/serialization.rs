//! The canonical binary form of an event: fixed-width little-endian
//! integers, enum variants as their `u32` index, and the payload as a
//! `u64` length followed by its bytes, fields in declaration order.
//! Decoding accepts exactly the encodings of events and nothing else.

use vstd::prelude::*;
use crate::events::{AstraEvent, EventType, EventView, PayloadEncoding, PayloadMetadata};

verus! {

/// Little-endian bytes of a `u16`.
pub open spec fn le_u16(x: u16) -> Seq<u8> {
    seq![x as u8, (x >> 8u16) as u8]
}

/// Little-endian bytes of a `u32`.
pub open spec fn le_u32(x: u32) -> Seq<u8> {
    seq![x as u8, (x >> 8u32) as u8, (x >> 16u32) as u8, (x >> 24u32) as u8]
}

/// Little-endian bytes of a `u64`.
pub open spec fn le_u64(x: u64) -> Seq<u8> {
    seq![
        x as u8,
        (x >> 8u64) as u8,
        (x >> 16u64) as u8,
        (x >> 24u64) as u8,
        (x >> 32u64) as u8,
        (x >> 40u64) as u8,
        (x >> 48u64) as u8,
        (x >> 56u64) as u8,
    ]
}

/// The `u16` whose little-endian bytes are `b0, b1`.
pub open spec fn u16_of(b0: u8, b1: u8) -> u16 {
    (b0 as u16) | ((b1 as u16) << 8u16)
}

/// The `u32` whose little-endian bytes are `b0 .. b3`.
pub open spec fn u32_of(b0: u8, b1: u8, b2: u8, b3: u8) -> u32 {
    (b0 as u32) | ((b1 as u32) << 8u32) | ((b2 as u32) << 16u32) | ((b3 as u32) << 24u32)
}

/// The `u64` whose little-endian bytes are `b0 .. b7`.
pub open spec fn u64_of(b0: u8, b1: u8, b2: u8, b3: u8, b4: u8, b5: u8, b6: u8, b7: u8) -> u64 {
    (b0 as u64) | ((b1 as u64) << 8u64) | ((b2 as u64) << 16u64) | ((b3 as u64) << 24u64)
        | ((b4 as u64) << 32u64) | ((b5 as u64) << 40u64) | ((b6 as u64) << 48u64) | ((b7 as u64)
        << 56u64)
}

pub open spec fn u16_at(b: Seq<u8>, i: int) -> u16 {
    u16_of(b[i], b[i + 1])
}

pub open spec fn u32_at(b: Seq<u8>, i: int) -> u32 {
    u32_of(b[i], b[i + 1], b[i + 2], b[i + 3])
}

pub open spec fn u64_at(b: Seq<u8>, i: int) -> u64 {
    u64_of(b[i], b[i + 1], b[i + 2], b[i + 3], b[i + 4], b[i + 5], b[i + 6], b[i + 7])
}

/// The variant index of an event type.
pub open spec fn event_type_tag(t: EventType) -> u32 {
    match t {
        EventType::MarketTick => 0,
        EventType::OrderSubmitted => 1,
        EventType::OrderFilled => 2,
        EventType::RiskLimitBreached => 3,
        EventType::StateSnapshot => 4,
        EventType::LimitOrderPlaced => 5,
        EventType::LimitOrderCancelled => 6,
        EventType::VenueStatusChanged => 7,
        EventType::MarketStressInjected => 8,
        EventType::OperatorAction => 9,
        EventType::PolicyAction => 10,
        EventType::RegulatoryIntervention => 11,
        EventType::LiquidityFacilityActivated => 12,
        EventType::CircuitBreakerTriggered => 13,
        EventType::SettlementHolidayActivated => 14,
        EventType::AuditCheckpoint => 15,
        EventType::InvariantViolationDetected => 16,
        EventType::ReplayVerificationCompleted => 17,
        EventType::AgentIntent => 18,
        EventType::BehaviorTransition => 19,
        EventType::SystemicCascadeTriggered => 20,
        EventType::AgentLiquidityWithdrawal => 21,
        EventType::AgentMarginDefense => 22,
    }
}

/// The event type with a given variant index, if there is one.
pub open spec fn event_type_of_tag(tag: u32) -> Option<EventType> {
    if tag == 0 { Some(EventType::MarketTick) }
    else if tag == 1 { Some(EventType::OrderSubmitted) }
    else if tag == 2 { Some(EventType::OrderFilled) }
    else if tag == 3 { Some(EventType::RiskLimitBreached) }
    else if tag == 4 { Some(EventType::StateSnapshot) }
    else if tag == 5 { Some(EventType::LimitOrderPlaced) }
    else if tag == 6 { Some(EventType::LimitOrderCancelled) }
    else if tag == 7 { Some(EventType::VenueStatusChanged) }
    else if tag == 8 { Some(EventType::MarketStressInjected) }
    else if tag == 9 { Some(EventType::OperatorAction) }
    else if tag == 10 { Some(EventType::PolicyAction) }
    else if tag == 11 { Some(EventType::RegulatoryIntervention) }
    else if tag == 12 { Some(EventType::LiquidityFacilityActivated) }
    else if tag == 13 { Some(EventType::CircuitBreakerTriggered) }
    else if tag == 14 { Some(EventType::SettlementHolidayActivated) }
    else if tag == 15 { Some(EventType::AuditCheckpoint) }
    else if tag == 16 { Some(EventType::InvariantViolationDetected) }
    else if tag == 17 { Some(EventType::ReplayVerificationCompleted) }
    else if tag == 18 { Some(EventType::AgentIntent) }
    else if tag == 19 { Some(EventType::BehaviorTransition) }
    else if tag == 20 { Some(EventType::SystemicCascadeTriggered) }
    else if tag == 21 { Some(EventType::AgentLiquidityWithdrawal) }
    else if tag == 22 { Some(EventType::AgentMarginDefense) }
    else { None }
}

/// The variant index of a payload encoding.
pub open spec fn encoding_tag(e: PayloadEncoding) -> u32 {
    match e {
        PayloadEncoding::RawBytes => 0,
        PayloadEncoding::Json => 1,
        PayloadEncoding::Bincode => 2,
        PayloadEncoding::Protobuf => 3,
        PayloadEncoding::ArrowIPC => 4,
    }
}

/// The payload encoding with a given variant index, if there is one.
pub open spec fn encoding_of_tag(tag: u32) -> Option<PayloadEncoding> {
    if tag == 0 { Some(PayloadEncoding::RawBytes) }
    else if tag == 1 { Some(PayloadEncoding::Json) }
    else if tag == 2 { Some(PayloadEncoding::Bincode) }
    else if tag == 3 { Some(PayloadEncoding::Protobuf) }
    else if tag == 4 { Some(PayloadEncoding::ArrowIPC) }
    else { None }
}

/// Bytes before the payload: sequence id, timestamp, type tag, payload length.
pub open spec fn header_len() -> int {
    28
}

/// Bytes after the payload: encoding tag and schema version.
pub open spec fn trailer_len() -> int {
    6
}

/// The canonical bytes of an event.
pub open spec fn event_bytes(e: EventView) -> Seq<u8> {
    le_u64(e.sequence_id) + le_u64(e.timestamp_ns) + le_u32(event_type_tag(e.event_type)) + le_u64(
        e.payload.len() as u64,
    ) + e.payload + le_u32(encoding_tag(e.payload_metadata.encoding)) + le_u16(
        e.payload_metadata.schema_version,
    )
}

/// Why a byte string is not the canonical form of an event. Encoding never fails.
#[derive(Clone, Copy, Debug, PartialEq, Eq, Structural)]
pub enum SerializationError {
    /// The bytes end before the event does.
    UnexpectedEnd,
    /// The event type tag names no event type.
    UnknownEventType(u32),
    /// The encoding tag names no payload encoding.
    UnknownEncoding(u32),
    /// Bytes remain after a complete event.
    TrailingBytes,
}

/// The result of decoding `b`, field by field, as the canonical form of an event.
pub open spec fn decode_event_bytes(b: Seq<u8>) -> Result<EventView, SerializationError> {
    if b.len() < header_len() {
        Err(SerializationError::UnexpectedEnd)
    } else {
        let tag = u32_at(b, 16);
        match event_type_of_tag(tag) {
            None => Err(SerializationError::UnknownEventType(tag)),
            Some(t) => {
                let n = u64_at(b, 20);
                if b.len() < header_len() + n + 4 {
                    Err(SerializationError::UnexpectedEnd)
                } else {
                    let etag = u32_at(b, header_len() + n);
                    match encoding_of_tag(etag) {
                        None => Err(SerializationError::UnknownEncoding(etag)),
                        Some(enc) => {
                            if b.len() < header_len() + n + trailer_len() {
                                Err(SerializationError::UnexpectedEnd)
                            } else if b.len() > header_len() + n + trailer_len() {
                                Err(SerializationError::TrailingBytes)
                            } else {
                                Ok(
                                    EventView {
                                        sequence_id: u64_at(b, 0),
                                        timestamp_ns: u64_at(b, 8),
                                        event_type: t,
                                        payload: b.subrange(header_len(), header_len() + n),
                                        payload_metadata: PayloadMetadata {
                                            encoding: enc,
                                            schema_version: u16_at(b, header_len() + n + 4),
                                        },
                                    },
                                )
                            }
                        },
                    }
                }
            },
        }
    }
}

pub proof fn lemma_u16_roundtrip(x: u16)
    ensures
        u16_of(x as u8, (x >> 8u16) as u8) == x,
{
    assert(u16_of(x as u8, (x >> 8u16) as u8) == x) by (bit_vector);
}

pub proof fn lemma_u32_roundtrip(x: u32)
    ensures
        u32_of(x as u8, (x >> 8u32) as u8, (x >> 16u32) as u8, (x >> 24u32) as u8) == x,
{
    assert(u32_of(x as u8, (x >> 8u32) as u8, (x >> 16u32) as u8, (x >> 24u32) as u8) == x)
        by (bit_vector);
}

pub proof fn lemma_u64_roundtrip(x: u64)
    ensures
        u64_of(
            x as u8,
            (x >> 8u64) as u8,
            (x >> 16u64) as u8,
            (x >> 24u64) as u8,
            (x >> 32u64) as u8,
            (x >> 40u64) as u8,
            (x >> 48u64) as u8,
            (x >> 56u64) as u8,
        ) == x,
{
    assert(u64_of(
        x as u8,
        (x >> 8u64) as u8,
        (x >> 16u64) as u8,
        (x >> 24u64) as u8,
        (x >> 32u64) as u8,
        (x >> 40u64) as u8,
        (x >> 48u64) as u8,
        (x >> 56u64) as u8,
    ) == x) by (bit_vector);
}


pub proof fn lemma_u16_canonical(b0: u8, b1: u8)
    ensures
        u16_of(b0, b1) as u8 == b0,
        (u16_of(b0, b1) >> 8u16) as u8 == b1,
{
    assert(u16_of(b0, b1) as u8 == b0) by (bit_vector);
    assert((u16_of(b0, b1) >> 8u16) as u8 == b1) by (bit_vector);
}

pub proof fn lemma_u32_canonical(b0: u8, b1: u8, b2: u8, b3: u8)
    ensures
        le_u32(u32_of(b0, b1, b2, b3)) == seq![b0, b1, b2, b3],
{
    let x = u32_of(b0, b1, b2, b3);
    assert(x as u8 == b0) by (bit_vector)
        requires x == u32_of(b0, b1, b2, b3);
    assert((x >> 8u32) as u8 == b1) by (bit_vector)
        requires x == u32_of(b0, b1, b2, b3);
    assert((x >> 16u32) as u8 == b2) by (bit_vector)
        requires x == u32_of(b0, b1, b2, b3);
    assert((x >> 24u32) as u8 == b3) by (bit_vector)
        requires x == u32_of(b0, b1, b2, b3);
    assert(le_u32(x) =~= seq![b0, b1, b2, b3]);
}

pub proof fn lemma_u64_canonical(b0: u8, b1: u8, b2: u8, b3: u8, b4: u8, b5: u8, b6: u8, b7: u8)
    ensures
        le_u64(u64_of(b0, b1, b2, b3, b4, b5, b6, b7)) == seq![b0, b1, b2, b3, b4, b5, b6, b7],
{
    let x = u64_of(b0, b1, b2, b3, b4, b5, b6, b7);
    assert(x as u8 == b0) by (bit_vector)
        requires x == u64_of(b0, b1, b2, b3, b4, b5, b6, b7);
    assert((x >> 8u64) as u8 == b1) by (bit_vector)
        requires x == u64_of(b0, b1, b2, b3, b4, b5, b6, b7);
    assert((x >> 16u64) as u8 == b2) by (bit_vector)
        requires x == u64_of(b0, b1, b2, b3, b4, b5, b6, b7);
    assert((x >> 24u64) as u8 == b3) by (bit_vector)
        requires x == u64_of(b0, b1, b2, b3, b4, b5, b6, b7);
    assert((x >> 32u64) as u8 == b4) by (bit_vector)
        requires x == u64_of(b0, b1, b2, b3, b4, b5, b6, b7);
    assert((x >> 40u64) as u8 == b5) by (bit_vector)
        requires x == u64_of(b0, b1, b2, b3, b4, b5, b6, b7);
    assert((x >> 48u64) as u8 == b6) by (bit_vector)
        requires x == u64_of(b0, b1, b2, b3, b4, b5, b6, b7);
    assert((x >> 56u64) as u8 == b7) by (bit_vector)
        requires x == u64_of(b0, b1, b2, b3, b4, b5, b6, b7);
    assert(le_u64(x) =~= seq![b0, b1, b2, b3, b4, b5, b6, b7]);
}

/// Decoding the canonical bytes of an event gives back that event.
pub proof fn lemma_decode_encoded_event(e: EventView)
    requires
        e.payload.len() <= u64::MAX,
    ensures
        decode_event_bytes(event_bytes(e)) == Ok::<EventView, SerializationError>(e),
{
    let b = event_bytes(e);
    let n = e.payload.len() as u64;
    let tt = event_type_tag(e.event_type);
    let et = encoding_tag(e.payload_metadata.encoding);
    lemma_u64_roundtrip(e.sequence_id);
    lemma_u64_roundtrip(e.timestamp_ns);
    lemma_u32_roundtrip(tt);
    lemma_u64_roundtrip(n);
    lemma_u32_roundtrip(et);
    lemma_u16_roundtrip(e.payload_metadata.schema_version);
    let p0 = le_u64(e.sequence_id);
    let p1 = le_u64(e.timestamp_ns);
    let p2 = le_u32(tt);
    let p3 = le_u64(n);
    let p5 = le_u32(et);
    let p6 = le_u16(e.payload_metadata.schema_version);
    assert(b == p0 + p1 + p2 + p3 + e.payload + p5 + p6);
    assert(b.len() == 34 + n);
    assert forall|i: int| 0 <= i < 8 implies b[i] == p0[i] && b[8 + i] == p1[i] && b[20 + i] == p3[i] by {}
    assert forall|i: int| 0 <= i < 4 implies b[16 + i] == p2[i] && b[28 + n + i] == p5[i] by {}
    assert forall|i: int| 0 <= i < 2 implies b[32 + n + i] == p6[i] by {}
    assert(u64_at(b, 0) == e.sequence_id);
    assert(u64_at(b, 8) == e.timestamp_ns);
    assert(u32_at(b, 16) == tt);
    assert(u64_at(b, 20) == n);
    assert(u32_at(b, 28 + n) == et);
    assert(u16_at(b, 32 + n) == e.payload_metadata.schema_version);
    assert(b.subrange(28, 28 + n) =~= e.payload);
    assert(event_type_of_tag(tt) == Some(e.event_type));
    assert(encoding_of_tag(et) == Some(e.payload_metadata.encoding));
}

/// Whatever decodes successfully is the canonical encoding of what it decodes to:
/// no two byte strings decode to the same event.
pub proof fn lemma_decoded_bytes_are_canonical(b: Seq<u8>)
    requires
        decode_event_bytes(b) is Ok,
    ensures
        event_bytes(decode_event_bytes(b)->Ok_0) == b,
{
    let v = decode_event_bytes(b)->Ok_0;
    let n = u64_at(b, 20);
    lemma_u64_canonical(b[0], b[1], b[2], b[3], b[4], b[5], b[6], b[7]);
    lemma_u64_canonical(b[8], b[9], b[10], b[11], b[12], b[13], b[14], b[15]);
    lemma_u32_canonical(b[16], b[17], b[18], b[19]);
    lemma_u64_canonical(b[20], b[21], b[22], b[23], b[24], b[25], b[26], b[27]);
    let k = 28 + n;
    lemma_u32_canonical(b[k], b[k + 1], b[k + 2], b[k + 3]);
    lemma_u16_canonical(b[k + 4], b[k + 5]);
    assert(v.payload.len() == n);
    let t = v.event_type;
    assert(event_type_tag(t) == u32_at(b, 16));
    assert(encoding_tag(v.payload_metadata.encoding) == u32_at(b, k));
    assert(le_u16(u16_at(b, k + 4)) =~= seq![b[k + 4], b[k + 5]]);
    assert(le_u64(v.sequence_id) =~= b.subrange(0, 8));
    assert(le_u64(v.timestamp_ns) =~= b.subrange(8, 16));
    assert(le_u32(event_type_tag(t)) =~= b.subrange(16, 20));
    assert(le_u64(v.payload.len() as u64) =~= b.subrange(20, 28));
    assert(le_u32(encoding_tag(v.payload_metadata.encoding)) =~= b.subrange(k, k + 4));
    assert(le_u16(v.payload_metadata.schema_version) =~= b.subrange(k + 4, k + 6));
    assert(b =~= b.subrange(0, 8) + b.subrange(8, 16) + b.subrange(16, 20) + b.subrange(20, 28)
        + b.subrange(28, k) + b.subrange(k, k + 4) + b.subrange(k + 4, k + 6));
}


pub(crate) fn push_u16(out: &mut Vec<u8>, x: u16)
    ensures
        final(out)@ == old(out)@ + le_u16(x),
{
    out.push(x as u8);
    out.push((x >> 8u16) as u8);
    assert(out@ =~= old(out)@ + le_u16(x));
}

pub(crate) fn push_u32(out: &mut Vec<u8>, x: u32)
    ensures
        final(out)@ == old(out)@ + le_u32(x),
{
    out.push(x as u8);
    out.push((x >> 8u32) as u8);
    out.push((x >> 16u32) as u8);
    out.push((x >> 24u32) as u8);
    assert(out@ =~= old(out)@ + le_u32(x));
}

pub(crate) fn push_u64(out: &mut Vec<u8>, x: u64)
    ensures
        final(out)@ == old(out)@ + le_u64(x),
{
    out.push(x as u8);
    out.push((x >> 8u64) as u8);
    out.push((x >> 16u64) as u8);
    out.push((x >> 24u64) as u8);
    out.push((x >> 32u64) as u8);
    out.push((x >> 40u64) as u8);
    out.push((x >> 48u64) as u8);
    out.push((x >> 56u64) as u8);
    assert(out@ =~= old(out)@ + le_u64(x));
}

pub(crate) fn read_u16(b: &[u8], i: usize) -> (r: u16)
    requires
        i + 2 <= b@.len(),
    ensures
        r == u16_at(b@, i as int),
{
    (b[i] as u16) | ((b[i + 1] as u16) << 8u16)
}

pub(crate) fn read_u32(b: &[u8], i: usize) -> (r: u32)
    requires
        i + 4 <= b@.len(),
    ensures
        r == u32_at(b@, i as int),
{
    (b[i] as u32) | ((b[i + 1] as u32) << 8u32) | ((b[i + 2] as u32) << 16u32) | ((b[i + 3] as u32)
        << 24u32)
}

pub(crate) fn read_u64(b: &[u8], i: usize) -> (r: u64)
    requires
        i + 8 <= b@.len(),
    ensures
        r == u64_at(b@, i as int),
{
    (b[i] as u64) | ((b[i + 1] as u64) << 8u64) | ((b[i + 2] as u64) << 16u64) | ((b[i + 3] as u64)
        << 24u64) | ((b[i + 4] as u64) << 32u64) | ((b[i + 5] as u64) << 40u64) | ((b[i + 6] as u64)
        << 48u64) | ((b[i + 7] as u64) << 56u64)
}

/// The variant index of an event type.
pub fn event_type_to_tag(t: EventType) -> (tag: u32)
    ensures
        tag == event_type_tag(t),
{
    match t {
        EventType::MarketTick => 0,
        EventType::OrderSubmitted => 1,
        EventType::OrderFilled => 2,
        EventType::RiskLimitBreached => 3,
        EventType::StateSnapshot => 4,
        EventType::LimitOrderPlaced => 5,
        EventType::LimitOrderCancelled => 6,
        EventType::VenueStatusChanged => 7,
        EventType::MarketStressInjected => 8,
        EventType::OperatorAction => 9,
        EventType::PolicyAction => 10,
        EventType::RegulatoryIntervention => 11,
        EventType::LiquidityFacilityActivated => 12,
        EventType::CircuitBreakerTriggered => 13,
        EventType::SettlementHolidayActivated => 14,
        EventType::AuditCheckpoint => 15,
        EventType::InvariantViolationDetected => 16,
        EventType::ReplayVerificationCompleted => 17,
        EventType::AgentIntent => 18,
        EventType::BehaviorTransition => 19,
        EventType::SystemicCascadeTriggered => 20,
        EventType::AgentLiquidityWithdrawal => 21,
        EventType::AgentMarginDefense => 22,
    }
}

/// The event type with a given variant index, if there is one.
pub fn event_type_from_tag(tag: u32) -> (t: Option<EventType>)
    ensures
        t == event_type_of_tag(tag),
{
    match tag {
        0 => Some(EventType::MarketTick),
        1 => Some(EventType::OrderSubmitted),
        2 => Some(EventType::OrderFilled),
        3 => Some(EventType::RiskLimitBreached),
        4 => Some(EventType::StateSnapshot),
        5 => Some(EventType::LimitOrderPlaced),
        6 => Some(EventType::LimitOrderCancelled),
        7 => Some(EventType::VenueStatusChanged),
        8 => Some(EventType::MarketStressInjected),
        9 => Some(EventType::OperatorAction),
        10 => Some(EventType::PolicyAction),
        11 => Some(EventType::RegulatoryIntervention),
        12 => Some(EventType::LiquidityFacilityActivated),
        13 => Some(EventType::CircuitBreakerTriggered),
        14 => Some(EventType::SettlementHolidayActivated),
        15 => Some(EventType::AuditCheckpoint),
        16 => Some(EventType::InvariantViolationDetected),
        17 => Some(EventType::ReplayVerificationCompleted),
        18 => Some(EventType::AgentIntent),
        19 => Some(EventType::BehaviorTransition),
        20 => Some(EventType::SystemicCascadeTriggered),
        21 => Some(EventType::AgentLiquidityWithdrawal),
        22 => Some(EventType::AgentMarginDefense),
        _ => None,
    }
}

/// The variant index of a payload encoding.
pub fn encoding_to_tag(e: PayloadEncoding) -> (tag: u32)
    ensures
        tag == encoding_tag(e),
{
    match e {
        PayloadEncoding::RawBytes => 0,
        PayloadEncoding::Json => 1,
        PayloadEncoding::Bincode => 2,
        PayloadEncoding::Protobuf => 3,
        PayloadEncoding::ArrowIPC => 4,
    }
}

/// The payload encoding with a given variant index, if there is one.
pub fn encoding_from_tag(tag: u32) -> (e: Option<PayloadEncoding>)
    ensures
        e == encoding_of_tag(tag),
{
    match tag {
        0 => Some(PayloadEncoding::RawBytes),
        1 => Some(PayloadEncoding::Json),
        2 => Some(PayloadEncoding::Bincode),
        3 => Some(PayloadEncoding::Protobuf),
        4 => Some(PayloadEncoding::ArrowIPC),
        _ => None,
    }
}

/// The canonical bytes of an event. Encoding always succeeds.
pub fn serialize_event(event: &AstraEvent) -> (r: Result<Vec<u8>, SerializationError>)
    ensures
        r is Ok,
        r matches Ok(bytes) ==> bytes@ == event_bytes(event@),
{
    let mut out: Vec<u8> = Vec::new();
    push_u64(&mut out, event.sequence_id);
    push_u64(&mut out, event.timestamp_ns);
    push_u32(&mut out, event_type_to_tag(event.event_type));
    let n = event.payload.len();
    push_u64(&mut out, n as u64);
    let ghost start = out@;
    let mut i: usize = 0;
    while i < n
        invariant
            n == event.payload@.len(),
            i <= n,
            out@ == start + event.payload@.subrange(0, i as int),
        decreases n - i,
    {
        out.push(event.payload[i]);
        i = i + 1;
        assert(out@ =~= start + event.payload@.subrange(0, i as int));
    }
    assert(event.payload@.subrange(0, n as int) =~= event.payload@);
    push_u32(&mut out, encoding_to_tag(event.payload_metadata.encoding));
    push_u16(&mut out, event.payload_metadata.schema_version);
    Ok(out)
}

/// Decodes the canonical bytes of an event. Succeeds exactly on the
/// canonical encodings of events (see `lemma_decoded_bytes_are_canonical`).
pub fn deserialize_event(bytes: &[u8]) -> (r: Result<AstraEvent, SerializationError>)
    ensures
        match r {
            Ok(e) => decode_event_bytes(bytes@) == Ok::<EventView, SerializationError>(e@),
            Err(err) => decode_event_bytes(bytes@) == Err::<EventView, SerializationError>(err),
        },
{
    let len = bytes.len();
    if len < 28 {
        return Err(SerializationError::UnexpectedEnd);
    }
    let tag = read_u32(bytes, 16);
    let event_type = match event_type_from_tag(tag) {
        Some(t) => t,
        None => {
            return Err(SerializationError::UnknownEventType(tag));
        },
    };
    let n = read_u64(bytes, 20);
    if n > (len - 28) as u64 || len - 28 - (n as usize) < 4 {
        return Err(SerializationError::UnexpectedEnd);
    }
    let k = 28 + n as usize;
    let etag = read_u32(bytes, k);
    let encoding = match encoding_from_tag(etag) {
        Some(e) => e,
        None => {
            return Err(SerializationError::UnknownEncoding(etag));
        },
    };
    if len - k < 6 {
        return Err(SerializationError::UnexpectedEnd);
    }
    if len - k > 6 {
        return Err(SerializationError::TrailingBytes);
    }
    let mut payload: Vec<u8> = Vec::new();
    let mut i: usize = 28;
    while i < k
        invariant
            28 <= i <= k,
            k <= bytes@.len(),
            payload@ == bytes@.subrange(28, i as int),
        decreases k - i,
    {
        payload.push(bytes[i]);
        i = i + 1;
        assert(payload@ =~= bytes@.subrange(28, i as int));
    }
    let schema_version = read_u16(bytes, k + 4);
    let e = AstraEvent {
        sequence_id: read_u64(bytes, 0),
        timestamp_ns: read_u64(bytes, 8),
        event_type,
        payload,
        payload_metadata: PayloadMetadata { encoding, schema_version },
    };
    Ok(e)
}

} // verus!
