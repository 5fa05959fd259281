use astraquant::orderbook::{
    deserialize_cancelled_order, deserialize_placed_order, serialize_cancelled_order,
    serialize_placed_order, LimitOrderCancelledPayload, LimitOrderPlacedPayload, OrderSide,
    PayloadError,
};

fn placed() -> LimitOrderPlacedPayload {
    LimitOrderPlacedPayload {
        order_id: 7,
        trader_id: 3,
        symbol: "BTC/USD".to_string(),
        side: OrderSide::Ask,
        price: -2,
        quantity: 10,
    }
}

fn expected_placed_bytes() -> Vec<u8> {
    let mut b = Vec::new();
    b.extend_from_slice(&7u64.to_le_bytes());
    b.extend_from_slice(&3u64.to_le_bytes());
    b.extend_from_slice(&7u64.to_le_bytes());
    b.extend_from_slice(b"BTC/USD");
    b.extend_from_slice(&1u32.to_le_bytes());
    b.extend_from_slice(&(-2i64).to_le_bytes());
    b.extend_from_slice(&10u64.to_le_bytes());
    b
}

#[test]
fn placed_order_canonical_layout() {
    let bytes = serialize_placed_order(&placed());
    assert_eq!(bytes, expected_placed_bytes());
    assert_eq!(bytes.len(), 51);
}

#[test]
fn placed_order_roundtrip() {
    let p = deserialize_placed_order(&serialize_placed_order(&placed())).unwrap();
    assert_eq!(p.order_id, 7);
    assert_eq!(p.trader_id, 3);
    assert_eq!(p.symbol, "BTC/USD");
    assert_eq!(p.side, OrderSide::Ask);
    assert_eq!(p.price, -2);
    assert_eq!(p.quantity, 10);
}

#[test]
fn placed_order_roundtrip_multibyte_symbol_and_extremes() {
    let original = LimitOrderPlacedPayload {
        order_id: u64::MAX,
        trader_id: 0,
        symbol: "€/¥".to_string(),
        side: OrderSide::Bid,
        price: i64::MIN,
        quantity: u64::MAX,
    };
    let bytes = serialize_placed_order(&original);
    assert_eq!(&bytes[16..24], &("€/¥".len() as u64).to_le_bytes());
    let p = deserialize_placed_order(&bytes).unwrap();
    assert_eq!(p.symbol, "€/¥");
    assert_eq!(p.side, OrderSide::Bid);
    assert_eq!(p.price, i64::MIN);
    assert_eq!(p.order_id, u64::MAX);
}

#[test]
fn placed_order_decode_errors() {
    let good = expected_placed_bytes();
    assert_eq!(deserialize_placed_order(&good[..23]).unwrap_err(), PayloadError::UnexpectedEnd);
    assert_eq!(deserialize_placed_order(&good[..30]).unwrap_err(), PayloadError::UnexpectedEnd);
    assert_eq!(deserialize_placed_order(&good[..33]).unwrap_err(), PayloadError::UnexpectedEnd);
    assert_eq!(deserialize_placed_order(&good[..40]).unwrap_err(), PayloadError::UnexpectedEnd);

    let mut bad_utf8 = good.clone();
    bad_utf8[24] = 0xff;
    assert_eq!(deserialize_placed_order(&bad_utf8).unwrap_err(), PayloadError::InvalidUtf8);

    let mut bad_side = good.clone();
    bad_side[31] = 2;
    assert_eq!(deserialize_placed_order(&bad_side).unwrap_err(), PayloadError::UnknownOrderSide(2));

    let mut trailing = good.clone();
    trailing.push(0);
    assert_eq!(deserialize_placed_order(&trailing).unwrap_err(), PayloadError::TrailingBytes);

    let mut huge_len = good.clone();
    huge_len[16..24].copy_from_slice(&u64::MAX.to_le_bytes());
    assert_eq!(deserialize_placed_order(&huge_len).unwrap_err(), PayloadError::UnexpectedEnd);
}

#[test]
fn cancelled_order_layout_roundtrip_and_errors() {
    let c = LimitOrderCancelledPayload { symbol: "ETH/USD".to_string(), order_id: 42 };
    let bytes = serialize_cancelled_order(&c);
    let mut expected = Vec::new();
    expected.extend_from_slice(&7u64.to_le_bytes());
    expected.extend_from_slice(b"ETH/USD");
    expected.extend_from_slice(&42u64.to_le_bytes());
    assert_eq!(bytes, expected);

    let back = deserialize_cancelled_order(&bytes).unwrap();
    assert_eq!(back.symbol, "ETH/USD");
    assert_eq!(back.order_id, 42);

    assert_eq!(deserialize_cancelled_order(&bytes[..7]).unwrap_err(), PayloadError::UnexpectedEnd);
    assert_eq!(deserialize_cancelled_order(&bytes[..12]).unwrap_err(), PayloadError::UnexpectedEnd);
    assert_eq!(deserialize_cancelled_order(&bytes[..20]).unwrap_err(), PayloadError::UnexpectedEnd);
    let mut trailing = bytes.clone();
    trailing.push(1);
    assert_eq!(deserialize_cancelled_order(&trailing).unwrap_err(), PayloadError::TrailingBytes);
    let mut bad = bytes.clone();
    bad[8] = 0xc0;
    assert_eq!(deserialize_cancelled_order(&bad).unwrap_err(), PayloadError::InvalidUtf8);
}
