//! Order payloads carried by `LimitOrderPlaced` and `LimitOrderCancelled`
//! events, and their canonical binary form: fixed-width little-endian
//! integers, the side as its `u32` variant index, and the symbol as a `u64`
//! byte length followed by its UTF-8 bytes, fields in declaration order.
//! Decoding accepts exactly the encodings of payloads and nothing else.

use vstd::prelude::*;
use vstd::utf8::{decode_utf8, encode_utf8, valid_utf8};
use crate::serialization::{le_u32, le_u64, u32_at, u64_at, push_u32, push_u64, read_u32, read_u64};

verus! {

broadcast use {
    vstd::utf8::encode_utf8_valid_utf8,
    vstd::utf8::encode_utf8_decode_utf8,
    vstd::utf8::decode_utf8_encode_utf8,
};

/// The side of the book an order rests on.
#[derive(Clone, Copy, Debug, PartialEq, Eq, Structural)]
pub enum OrderSide {
    Bid,
    Ask,
}

/// A new limit order.
#[derive(Clone, Debug)]
pub struct LimitOrderPlacedPayload {
    pub order_id: u64,
    pub trader_id: u64,
    pub symbol: String,
    pub side: OrderSide,
    pub price: i64,
    pub quantity: u64,
}

/// The cancellation of a resting order.
#[derive(Clone, Debug)]
pub struct LimitOrderCancelledPayload {
    pub symbol: String,
    pub order_id: u64,
}

/// A placed order with its symbol as characters.
pub struct PlacedOrderView {
    pub order_id: u64,
    pub trader_id: u64,
    pub symbol: Seq<char>,
    pub side: OrderSide,
    pub price: i64,
    pub quantity: u64,
}

/// A cancellation with its symbol as characters.
pub struct CancelledOrderView {
    pub symbol: Seq<char>,
    pub order_id: u64,
}

impl View for LimitOrderPlacedPayload {
    type V = PlacedOrderView;

    open spec fn view(&self) -> PlacedOrderView {
        PlacedOrderView {
            order_id: self.order_id,
            trader_id: self.trader_id,
            symbol: self.symbol@,
            side: self.side,
            price: self.price,
            quantity: self.quantity,
        }
    }
}

impl View for LimitOrderCancelledPayload {
    type V = CancelledOrderView;

    open spec fn view(&self) -> CancelledOrderView {
        CancelledOrderView { symbol: self.symbol@, order_id: self.order_id }
    }
}

/// Why a byte string is not the canonical form of an order payload.
#[derive(Clone, Copy, Debug, PartialEq, Eq, Structural)]
pub enum PayloadError {
    /// The bytes end before the payload does.
    UnexpectedEnd,
    /// The symbol's bytes are not UTF-8.
    InvalidUtf8,
    /// The side tag names no side.
    UnknownOrderSide(u32),
    /// Bytes remain after a complete payload.
    TrailingBytes,
}

/// The variant index of a side.
pub open spec fn side_tag(s: OrderSide) -> u32 {
    match s {
        OrderSide::Bid => 0,
        OrderSide::Ask => 1,
    }
}

/// The side with a variant index, if any.
pub open spec fn side_of_tag(tag: u32) -> Option<OrderSide> {
    if tag == 0 {
        Some(OrderSide::Bid)
    } else if tag == 1 {
        Some(OrderSide::Ask)
    } else {
        None
    }
}

/// The canonical bytes of a symbol: its UTF-8 length, then its UTF-8 bytes.
pub open spec fn symbol_bytes(symbol: Seq<char>) -> Seq<u8> {
    le_u64(encode_utf8(symbol).len() as u64) + encode_utf8(symbol)
}

/// The canonical bytes of a placed order.
pub open spec fn placed_order_bytes(p: PlacedOrderView) -> Seq<u8> {
    le_u64(p.order_id) + le_u64(p.trader_id) + symbol_bytes(p.symbol) + le_u32(side_tag(p.side))
        + le_u64(p.price as u64) + le_u64(p.quantity)
}

/// The canonical bytes of a cancellation.
pub open spec fn cancelled_order_bytes(c: CancelledOrderView) -> Seq<u8> {
    symbol_bytes(c.symbol) + le_u64(c.order_id)
}

/// The result of decoding `b`, field by field, as a placed order.
pub open spec fn decode_placed_order(b: Seq<u8>) -> Result<PlacedOrderView, PayloadError> {
    if b.len() < 24 {
        Err(PayloadError::UnexpectedEnd)
    } else {
        let n = u64_at(b, 16);
        if b.len() < 24 + n {
            Err(PayloadError::UnexpectedEnd)
        } else if !valid_utf8(b.subrange(24, 24 + n)) {
            Err(PayloadError::InvalidUtf8)
        } else if b.len() < 28 + n {
            Err(PayloadError::UnexpectedEnd)
        } else {
            let tag = u32_at(b, 24 + n);
            match side_of_tag(tag) {
                None => Err(PayloadError::UnknownOrderSide(tag)),
                Some(side) => if b.len() < 44 + n {
                    Err(PayloadError::UnexpectedEnd)
                } else if b.len() > 44 + n {
                    Err(PayloadError::TrailingBytes)
                } else {
                    Ok(
                        PlacedOrderView {
                            order_id: u64_at(b, 0),
                            trader_id: u64_at(b, 8),
                            symbol: decode_utf8(b.subrange(24, 24 + n)),
                            side,
                            price: u64_at(b, 28 + n) as i64,
                            quantity: u64_at(b, 36 + n),
                        },
                    )
                },
            }
        }
    }
}

/// The result of decoding `b`, field by field, as a cancellation.
pub open spec fn decode_cancelled_order(b: Seq<u8>) -> Result<CancelledOrderView, PayloadError> {
    if b.len() < 8 {
        Err(PayloadError::UnexpectedEnd)
    } else {
        let n = u64_at(b, 0);
        if b.len() < 8 + n {
            Err(PayloadError::UnexpectedEnd)
        } else if !valid_utf8(b.subrange(8, 8 + n)) {
            Err(PayloadError::InvalidUtf8)
        } else if b.len() < 16 + n {
            Err(PayloadError::UnexpectedEnd)
        } else if b.len() > 16 + n {
            Err(PayloadError::TrailingBytes)
        } else {
            Ok(
                CancelledOrderView {
                    symbol: decode_utf8(b.subrange(8, 8 + n)),
                    order_id: u64_at(b, 8 + n),
                },
            )
        }
    }
}


/// A signed price survives its two's-complement round trip through `u64`.
pub proof fn lemma_price_bits_roundtrip(price: i64)
    ensures
        (price as u64) as i64 == price,
{
    assert((price as u64) as i64 == price) by (bit_vector);
}

/// Decoding the canonical bytes of a placed order gives back that order.
pub proof fn lemma_decode_placed_order_roundtrip(p: PlacedOrderView)
    requires
        encode_utf8(p.symbol).len() <= u64::MAX,
    ensures
        decode_placed_order(placed_order_bytes(p)) == Ok::<PlacedOrderView, PayloadError>(p),
{
    let b = placed_order_bytes(p);
    let s = encode_utf8(p.symbol);
    let n = s.len() as u64;
    let tag = side_tag(p.side);
    let bits = p.price as u64;
    crate::serialization::lemma_u64_roundtrip(p.order_id);
    crate::serialization::lemma_u64_roundtrip(p.trader_id);
    crate::serialization::lemma_u64_roundtrip(n);
    crate::serialization::lemma_u32_roundtrip(tag);
    crate::serialization::lemma_u64_roundtrip(bits);
    crate::serialization::lemma_u64_roundtrip(p.quantity);
    lemma_price_bits_roundtrip(p.price);
    let p0 = le_u64(p.order_id);
    let p1 = le_u64(p.trader_id);
    let p2 = le_u64(n);
    let p4 = le_u32(tag);
    let p5 = le_u64(bits);
    let p6 = le_u64(p.quantity);
    assert(b =~= p0 + p1 + p2 + s + p4 + p5 + p6);
    assert(b.len() == 44 + n);
    assert forall|i: int| 0 <= i < 8 implies b[i] == p0[i] && b[8 + i] == p1[i] && b[16 + i] == p2[i]
        && b[28 + n + i] == p5[i] && b[36 + n + i] == p6[i] by {}
    assert forall|i: int| 0 <= i < 4 implies b[24 + n + i] == p4[i] by {}
    assert(u64_at(b, 0) == p.order_id);
    assert(u64_at(b, 8) == p.trader_id);
    assert(u64_at(b, 16) == n);
    assert(b.subrange(24, 24 + n) =~= s);
    assert(u32_at(b, 24 + n) == tag);
    assert(u64_at(b, 28 + n) == bits);
    assert(u64_at(b, 36 + n) == p.quantity);
    assert(side_of_tag(tag) == Some(p.side));
}

/// Whatever decodes successfully as a placed order is the canonical
/// encoding of what it decodes to.
pub proof fn lemma_decoded_placed_order_is_canonical(b: Seq<u8>)
    requires
        decode_placed_order(b) is Ok,
    ensures
        placed_order_bytes(decode_placed_order(b)->Ok_0) == b,
{
    let v = decode_placed_order(b)->Ok_0;
    let n = u64_at(b, 16);
    let k = 24 + n;
    crate::serialization::lemma_u64_canonical(b[0], b[1], b[2], b[3], b[4], b[5], b[6], b[7]);
    crate::serialization::lemma_u64_canonical(b[8], b[9], b[10], b[11], b[12], b[13], b[14], b[15]);
    crate::serialization::lemma_u64_canonical(b[16], b[17], b[18], b[19], b[20], b[21], b[22], b[23]);
    crate::serialization::lemma_u32_canonical(b[k], b[k + 1], b[k + 2], b[k + 3]);
    crate::serialization::lemma_u64_canonical(
        b[k + 4], b[k + 5], b[k + 6], b[k + 7], b[k + 8], b[k + 9], b[k + 10], b[k + 11],
    );
    crate::serialization::lemma_u64_canonical(
        b[k + 12], b[k + 13], b[k + 14], b[k + 15], b[k + 16], b[k + 17], b[k + 18], b[k + 19],
    );
    let bits = u64_at(b, k + 4);
    assert((bits as i64) as u64 == bits) by (bit_vector);
    let sym = b.subrange(24, k);
    assert(encode_utf8(decode_utf8(sym)) == sym);
    assert(encode_utf8(v.symbol).len() == n);
    assert(side_tag(v.side) == u32_at(b, k));
    assert(le_u64(v.order_id) =~= b.subrange(0, 8));
    assert(le_u64(v.trader_id) =~= b.subrange(8, 16));
    assert(le_u64(n) =~= b.subrange(16, 24));
    assert(le_u32(side_tag(v.side)) =~= b.subrange(k, k + 4));
    assert(le_u64(v.price as u64) =~= b.subrange(k + 4, k + 12));
    assert(le_u64(v.quantity) =~= b.subrange(k + 12, k + 20));
    assert(b =~= b.subrange(0, 8) + b.subrange(8, 16) + b.subrange(16, 24) + b.subrange(24, k)
        + b.subrange(k, k + 4) + b.subrange(k + 4, k + 12) + b.subrange(k + 12, k + 20));
}

/// Decoding the canonical bytes of a cancellation gives back that cancellation.
pub proof fn lemma_decode_cancelled_order_roundtrip(c: CancelledOrderView)
    requires
        encode_utf8(c.symbol).len() <= u64::MAX,
    ensures
        decode_cancelled_order(cancelled_order_bytes(c)) == Ok::<CancelledOrderView, PayloadError>(c),
{
    let b = cancelled_order_bytes(c);
    let s = encode_utf8(c.symbol);
    let n = s.len() as u64;
    crate::serialization::lemma_u64_roundtrip(n);
    crate::serialization::lemma_u64_roundtrip(c.order_id);
    let p0 = le_u64(n);
    let p2 = le_u64(c.order_id);
    assert(b =~= p0 + s + p2);
    assert forall|i: int| 0 <= i < 8 implies b[i] == p0[i] && b[8 + n + i] == p2[i] by {}
    assert(u64_at(b, 0) == n);
    assert(b.subrange(8, 8 + n) =~= s);
    assert(u64_at(b, 8 + n) == c.order_id);
}

/// Whatever decodes successfully as a cancellation is the canonical
/// encoding of what it decodes to.
pub proof fn lemma_decoded_cancelled_order_is_canonical(b: Seq<u8>)
    requires
        decode_cancelled_order(b) is Ok,
    ensures
        cancelled_order_bytes(decode_cancelled_order(b)->Ok_0) == b,
{
    let v = decode_cancelled_order(b)->Ok_0;
    let n = u64_at(b, 0);
    let k = 8 + n;
    crate::serialization::lemma_u64_canonical(b[0], b[1], b[2], b[3], b[4], b[5], b[6], b[7]);
    crate::serialization::lemma_u64_canonical(
        b[k], b[k + 1], b[k + 2], b[k + 3], b[k + 4], b[k + 5], b[k + 6], b[k + 7],
    );
    let sym = b.subrange(8, k);
    assert(encode_utf8(decode_utf8(sym)) == sym);
    assert(le_u64(n) =~= b.subrange(0, 8));
    assert(le_u64(v.order_id) =~= b.subrange(k, k + 8));
    assert(b =~= b.subrange(0, 8) + b.subrange(8, k) + b.subrange(k, k + 8));
}

/// Calls `String::from_utf8` on the bytes.
/// Trusted: the conversion succeeds exactly when the bytes are valid UTF-8
/// (as `valid_utf8` defines it), and the string then holds the characters
/// those bytes encode (`decode_utf8`).
#[verifier::external_body]
fn string_from_utf8(bytes: Vec<u8>) -> (r: Option<String>)
    ensures
        r is Some <==> valid_utf8(bytes@),
        r matches Some(s) ==> s@ == decode_utf8(bytes@),
{
    String::from_utf8(bytes).ok()
}

/// Appends the canonical bytes of a symbol.
fn push_symbol(out: &mut Vec<u8>, symbol: &String)
    ensures
        final(out)@ == old(out)@ + symbol_bytes(symbol@),
{
    let b = symbol.as_str().as_bytes();
    push_u64(out, b.len() as u64);
    let ghost start = out@;
    let mut i: usize = 0;
    while i < b.len()
        invariant
            i <= b@.len(),
            b@ == encode_utf8(symbol@),
            out@ == start + b@.subrange(0, i as int),
        decreases b@.len() - i,
    {
        out.push(b[i]);
        i = i + 1;
        assert(out@ =~= start + b@.subrange(0, i as int));
    }
    assert(b@.subrange(0, b@.len() as int) =~= b@);
}

/// Reads the symbol stored in `bytes[start .. end]`, if those bytes are UTF-8.
fn read_symbol(bytes: &[u8], start: usize, end: usize) -> (r: Option<String>)
    requires
        start <= end <= bytes@.len(),
    ensures
        r is Some <==> valid_utf8(bytes@.subrange(start as int, end as int)),
        r matches Some(s) ==> s@ == decode_utf8(bytes@.subrange(start as int, end as int)),
{
    let mut v: Vec<u8> = Vec::new();
    let mut i: usize = start;
    while i < end
        invariant
            start <= i <= end,
            end <= bytes@.len(),
            v@ == bytes@.subrange(start as int, i as int),
        decreases end - i,
    {
        v.push(bytes[i]);
        i = i + 1;
        assert(v@ =~= bytes@.subrange(start as int, i as int));
    }
    string_from_utf8(v)
}

/// The canonical bytes of a placed order.
pub fn serialize_placed_order(p: &LimitOrderPlacedPayload) -> (bytes: Vec<u8>)
    ensures
        bytes@ == placed_order_bytes(p@),
{
    let mut out: Vec<u8> = Vec::new();
    push_u64(&mut out, p.order_id);
    push_u64(&mut out, p.trader_id);
    push_symbol(&mut out, &p.symbol);
    let tag: u32 = match p.side {
        OrderSide::Bid => 0,
        OrderSide::Ask => 1,
    };
    push_u32(&mut out, tag);
    push_u64(&mut out, p.price as u64);
    push_u64(&mut out, p.quantity);
    assert(out@ =~= placed_order_bytes(p@));
    out
}

/// Decodes the canonical bytes of a placed order. Succeeds exactly on the
/// canonical encodings of placed orders (see `lemma_decoded_placed_order_is_canonical`).
pub fn deserialize_placed_order(bytes: &[u8]) -> (r: Result<LimitOrderPlacedPayload, PayloadError>)
    ensures
        match r {
            Ok(p) => decode_placed_order(bytes@) == Ok::<PlacedOrderView, PayloadError>(p@),
            Err(e) => decode_placed_order(bytes@) == Err::<PlacedOrderView, PayloadError>(e),
        },
{
    let len = bytes.len();
    if len < 24 {
        return Err(PayloadError::UnexpectedEnd);
    }
    let n64 = read_u64(bytes, 16);
    if n64 > (len - 24) as u64 {
        return Err(PayloadError::UnexpectedEnd);
    }
    let n = n64 as usize;
    let symbol = match read_symbol(bytes, 24, 24 + n) {
        Some(s) => s,
        None => {
            return Err(PayloadError::InvalidUtf8);
        },
    };
    if len - 24 - n < 4 {
        return Err(PayloadError::UnexpectedEnd);
    }
    let tag = read_u32(bytes, 24 + n);
    let side = if tag == 0 {
        OrderSide::Bid
    } else if tag == 1 {
        OrderSide::Ask
    } else {
        return Err(PayloadError::UnknownOrderSide(tag));
    };
    if len - 24 - n < 20 {
        return Err(PayloadError::UnexpectedEnd);
    }
    if len - 24 - n > 20 {
        return Err(PayloadError::TrailingBytes);
    }
    let price = read_u64(bytes, 28 + n) as i64;
    let quantity = read_u64(bytes, 36 + n);
    let p = LimitOrderPlacedPayload {
        order_id: read_u64(bytes, 0),
        trader_id: read_u64(bytes, 8),
        symbol,
        side,
        price,
        quantity,
    };
    Ok(p)
}

/// The canonical bytes of a cancellation.
pub fn serialize_cancelled_order(c: &LimitOrderCancelledPayload) -> (bytes: Vec<u8>)
    ensures
        bytes@ == cancelled_order_bytes(c@),
{
    let mut out: Vec<u8> = Vec::new();
    push_symbol(&mut out, &c.symbol);
    push_u64(&mut out, c.order_id);
    assert(out@ =~= cancelled_order_bytes(c@));
    out
}

/// Decodes the canonical bytes of a cancellation. Succeeds exactly on the
/// canonical encodings of cancellations (see `lemma_decoded_cancelled_order_is_canonical`).
pub fn deserialize_cancelled_order(bytes: &[u8]) -> (r: Result<LimitOrderCancelledPayload, PayloadError>)
    ensures
        match r {
            Ok(c) => decode_cancelled_order(bytes@) == Ok::<CancelledOrderView, PayloadError>(c@),
            Err(e) => decode_cancelled_order(bytes@) == Err::<CancelledOrderView, PayloadError>(e),
        },
{
    let len = bytes.len();
    if len < 8 {
        return Err(PayloadError::UnexpectedEnd);
    }
    let n64 = read_u64(bytes, 0);
    if n64 > (len - 8) as u64 {
        return Err(PayloadError::UnexpectedEnd);
    }
    let n = n64 as usize;
    let symbol = match read_symbol(bytes, 8, 8 + n) {
        Some(s) => s,
        None => {
            return Err(PayloadError::InvalidUtf8);
        },
    };
    if len - 8 - n < 8 {
        return Err(PayloadError::UnexpectedEnd);
    }
    if len - 8 - n > 8 {
        return Err(PayloadError::TrailingBytes);
    }
    let c = LimitOrderCancelledPayload { symbol, order_id: read_u64(bytes, 8 + n) };
    Ok(c)
}

} // verus!
