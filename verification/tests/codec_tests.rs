use astraquant::events::{AstraEvent, EventType, PayloadEncoding, PayloadMetadata};
use astraquant::exchange::state::ExchangeStateHash;
use astraquant::hashing::{hash_bytes, hash_to_hex, DeterministicState};
use astraquant::serialization::{deserialize_event, serialize_event, SerializationError};

fn sample_event() -> AstraEvent {
    AstraEvent::new(
        0x0102030405060708,
        7,
        EventType::OrderFilled,
        vec![0xAA, 0xBB],
        PayloadMetadata::new(PayloadEncoding::Json, 3),
    )
}

#[test]
fn canonical_bytes_layout() {
    let bytes = serialize_event(&sample_event()).unwrap();
    let expected: Vec<u8> = vec![
        7, 0, 0, 0, 0, 0, 0, 0, // sequence id
        8, 7, 6, 5, 4, 3, 2, 1, // timestamp
        2, 0, 0, 0, // OrderFilled
        2, 0, 0, 0, 0, 0, 0, 0, // payload length
        0xAA, 0xBB, // payload
        1, 0, 0, 0, // Json
        3, 0, // schema version
    ];
    assert_eq!(bytes, expected);
}

#[test]
fn decode_rejects_truncated_input() {
    let bytes = serialize_event(&sample_event()).unwrap();
    assert_eq!(deserialize_event(&bytes[..10]), Err(SerializationError::UnexpectedEnd));
    assert_eq!(deserialize_event(&bytes[..bytes.len() - 1]), Err(SerializationError::UnexpectedEnd));
    assert_eq!(deserialize_event(&bytes[..30]), Err(SerializationError::UnexpectedEnd));
    assert_eq!(deserialize_event(&[]), Err(SerializationError::UnexpectedEnd));
}

#[test]
fn decode_rejects_unknown_tags() {
    let mut bytes = serialize_event(&sample_event()).unwrap();
    bytes[16] = 23;
    assert_eq!(deserialize_event(&bytes), Err(SerializationError::UnknownEventType(23)));
    let mut bytes = serialize_event(&sample_event()).unwrap();
    bytes[30] = 9;
    assert_eq!(deserialize_event(&bytes), Err(SerializationError::UnknownEncoding(9)));
}

#[test]
fn decode_rejects_trailing_bytes() {
    let mut bytes = serialize_event(&sample_event()).unwrap();
    bytes.push(0);
    assert_eq!(deserialize_event(&bytes), Err(SerializationError::TrailingBytes));
}

#[test]
fn roundtrip_every_event_type() {
    let types = [
        EventType::MarketTick,
        EventType::OrderSubmitted,
        EventType::OrderFilled,
        EventType::RiskLimitBreached,
        EventType::StateSnapshot,
        EventType::LimitOrderPlaced,
        EventType::LimitOrderCancelled,
        EventType::VenueStatusChanged,
        EventType::MarketStressInjected,
        EventType::OperatorAction,
        EventType::PolicyAction,
        EventType::RegulatoryIntervention,
        EventType::LiquidityFacilityActivated,
        EventType::CircuitBreakerTriggered,
        EventType::SettlementHolidayActivated,
        EventType::AuditCheckpoint,
        EventType::InvariantViolationDetected,
        EventType::ReplayVerificationCompleted,
        EventType::AgentIntent,
        EventType::BehaviorTransition,
        EventType::SystemicCascadeTriggered,
        EventType::AgentLiquidityWithdrawal,
        EventType::AgentMarginDefense,
    ];
    for (i, t) in types.into_iter().enumerate() {
        let e = AstraEvent::new_raw(u64::MAX - i as u64, i as u64, t, vec![i as u8; i]);
        let bytes = serialize_event(&e).unwrap();
        assert_eq!(bytes[16] as usize, i);
        assert_eq!(deserialize_event(&bytes).unwrap(), e);
    }
}

#[test]
fn empty_payload_roundtrip() {
    let e = AstraEvent::new_raw(0, 0, EventType::MarketTick, vec![]);
    let bytes = serialize_event(&e).unwrap();
    assert_eq!(bytes.len(), 34);
    assert_eq!(deserialize_event(&bytes).unwrap(), e);
    assert_eq!(e.payload_metadata, PayloadMetadata::raw());
}

#[test]
fn blake3_known_digest() {
    assert_eq!(
        hash_to_hex(&hash_bytes(b"abc")),
        "6437b3ac38465133ffb63b75273a8db548c558465d79db03fd359c6cd5bd9d85"
    );
    assert_eq!(
        hash_to_hex(&hash_bytes(b"")),
        "af1349b9f5f9a1a6a0404dea36dcc9499bcb25c9adc112b7cc9a93cae41f3262"
    );
}

#[test]
fn hex_is_lowercase_two_digits_per_byte() {
    let mut h = [0u8; 32];
    h[0] = 0xAB;
    h[1] = 0x0F;
    h[31] = 0x10;
    let hex = hash_to_hex(&h);
    assert_eq!(hex.len(), 64);
    assert!(hex.starts_with("ab0f00"));
    assert!(hex.ends_with("0010"));
}

#[test]
fn event_state_hash_is_hash_of_canonical_bytes() {
    let e = sample_event();
    let bytes = serialize_event(&e).unwrap();
    assert_eq!(e.state_hash(), hash_bytes(&bytes));
    let recovered = deserialize_event(&bytes).unwrap();
    assert_eq!(recovered.state_hash(), e.state_hash());
}

#[test]
fn exchange_state_hash_covers_every_field() {
    let base = ExchangeStateHash::default();
    let mut bytes = vec![0u8; 8 * 32];
    bytes.extend_from_slice(&0u64.to_le_bytes());
    assert_eq!(base.state_hash(), hash_bytes(&bytes));

    let mut changed = base;
    changed.sequence_clock = 1;
    assert_ne!(changed.state_hash(), base.state_hash());
    let mut changed = base;
    changed.funding_ledger_hash[31] = 1;
    assert_ne!(changed.state_hash(), base.state_hash());
}
