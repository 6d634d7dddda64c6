//! Tests of registry administration and ticker creation.

use ticker_token::errors::TickerError;
use ticker_token::ticker::create_ticker;
use ticker_token::{init, transfer_authority, Registry, ZERO_KEY};

fn key(n: u8) -> [u8; 32] {
    [n; 32]
}

#[test]
fn init_records_the_payer_and_no_oracle() {
    let r = init(key(8));
    assert_eq!(r.authority, key(8));
    assert_eq!(r.oracle, ZERO_KEY);
}

#[test]
fn authority_transfer_needs_the_current_authority() {
    let mut r = Registry { authority: key(8), oracle: key(10) };
    assert_eq!(
        transfer_authority(&mut r, key(3), key(4)),
        Err(TickerError::Unauthorized)
    );
    assert_eq!(r.authority, key(8));
    assert_eq!(
        transfer_authority(&mut r, key(8), ZERO_KEY),
        Err(TickerError::InvalidAuthority)
    );
    assert_eq!(r.authority, key(8));
    assert_eq!(transfer_authority(&mut r, key(8), key(4)), Ok(()));
    assert_eq!(r.authority, key(4));
    assert_eq!(r.oracle, key(10));
}

#[test]
fn ticker_creation_is_the_authority_alone() {
    let r = Registry { authority: key(8), oracle: key(10) };
    let ev = create_ticker(&r, key(8), String::from("GOLD"), 6).expect("authority may");
    assert_eq!(ev.ticker, "GOLD");
    assert!(matches!(
        create_ticker(&r, key(3), String::from("GOLD"), 6),
        Err(TickerError::Unauthorized)
    ));
}
