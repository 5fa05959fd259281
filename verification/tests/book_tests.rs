use astraquant::inspect::book::{BookDepth, PriceLevel, RestingOrder, SymbolBook, VenueLiquidity};
use astraquant::inspect::visualization::{export_ascii_lob, export_multi_venue_ascii_lob};
use std::collections::BTreeMap;

fn order(trader_id: u64, remaining_quantity: u64) -> RestingOrder {
    RestingOrder { trader_id, remaining_quantity }
}

fn sample_book() -> BookDepth {
    BookDepth {
        asks: vec![
            PriceLevel { price: 101, orders: vec![order(1, 5), order(2, 7)] },
            PriceLevel { price: 102, orders: vec![order(3, 3)] },
        ],
        bids: vec![
            PriceLevel { price: 99, orders: vec![order(4, 20)] },
            PriceLevel { price: 100, orders: vec![order(5, 1)] },
        ],
    }
}

#[test]
fn ascii_lob_prints_asks_high_to_low_then_spread_then_bids() {
    let mut out = String::new();
    export_ascii_lob(&mut out, &sample_book());
    let expected = "ASKS\n\
102 | ###(3) | Q: [T3:3] \n\
101 | ##########(12) | Q: [T1:5] [T2:7] \n\
\nSPREAD = 1\n\n\
100 | #(1) | Q: [T5:1] \n\
99 | ##########(20) | Q: [T4:20] \n\
BIDS\n";
    assert_eq!(out, expected);
}

#[test]
fn ascii_lob_of_empty_book_has_infinite_spread() {
    let mut out = String::new();
    export_ascii_lob(&mut out, &BookDepth { asks: vec![], bids: vec![] });
    assert_eq!(out, "ASKS\n\nSPREAD = INF\n\nBIDS\n");
}

#[test]
fn ascii_lob_one_sided_book_and_crossed_spread() {
    let mut out = String::new();
    let book = BookDepth {
        asks: vec![PriceLevel { price: -5, orders: vec![] }],
        bids: vec![],
    };
    export_ascii_lob(&mut out, &book);
    assert_eq!(out, "ASKS\n-5 | (0) | Q: \n\nSPREAD = INF\n\nBIDS\n");

    let mut crossed = String::new();
    let book = BookDepth {
        asks: vec![PriceLevel { price: 98, orders: vec![order(1, 10)] }],
        bids: vec![PriceLevel { price: 100, orders: vec![order(2, 11)] }],
    };
    export_ascii_lob(&mut crossed, &book);
    assert!(crossed.contains("\nSPREAD = -2\n\n"));
    assert!(crossed.contains("98 | ##########(10) | Q: [T1:10] \n"));
}

#[test]
fn multi_venue_heatmap_lists_venues_in_id_order() {
    let mut venues = BTreeMap::new();
    venues.insert(
        2,
        VenueLiquidity {
            venue_id: 2,
            books: vec![SymbolBook { symbol: "ETH/USD".to_string(), book: sample_book() }],
        },
    );
    venues.insert(
        1,
        VenueLiquidity {
            venue_id: 1,
            books: vec![
                SymbolBook { symbol: "ETH/USD".to_string(), book: BookDepth { asks: vec![], bids: vec![] } },
                SymbolBook { symbol: "BTC/USD".to_string(), book: sample_book() },
            ],
        },
    );
    let mut out = String::new();
    export_multi_venue_ascii_lob(&mut out, &venues, &"BTC/USD".to_string());
    let mut lob = String::new();
    export_ascii_lob(&mut lob, &sample_book());
    let expected = format!(
        "==============================================\n   MULTI-VENUE LIQUIDITY HEATMAP: BTC/USD\n==============================================\n\nVENUE ID: 1\n{}\nVENUE ID: 2\nNo liquidity for symbol.\n",
        lob
    );
    assert_eq!(out, expected);
}
