//! Order-side data carried by trade intents.

use vstd::prelude::*;

verus! {

/// A 32-byte account or asset identifier.
pub type Pubkey = [u8; 32];

/// Bytewise equality of two 32-byte identifiers.
pub fn pubkey_eq(a: &Pubkey, b: &Pubkey) -> (r: bool)
    ensures
        r <==> a@ == b@,
{
    let mut i: usize = 0;
    while i < 32
        invariant
            0 <= i <= 32,
            forall|j: int| 0 <= j < i ==> a@[j] == b@[j],
        decreases 32 - i,
    {
        if a[i] != b[i] {
            return false;
        }
        i += 1;
    }
    assert(a@ =~= b@);
    true
}

/// Kind of an order: market orders take the attested price as-is, limit
/// orders carry a maker-chosen bound.
#[derive(Clone, Copy, PartialEq, Eq, Structural, Debug)]
pub enum OrderType {
    Market,
    Limit,
}

/// Side of an order.
#[derive(Clone, Copy, PartialEq, Eq, Structural, Debug)]
pub enum OrderSide {
    Buy,
    Sell,
}

/// Lifecycle status persisted in an open order. Terminal states are not
/// stored: executing or cancelling an order closes its record.
#[derive(Clone, Copy, PartialEq, Eq, Structural, Debug)]
pub enum OrderStatus {
    Pending,
    Processing,
}

/// A trade intent as the attester signs it: the exact byte serialization of
/// these fields, in order, is what the attestation's digest covers.
#[derive(Clone, Copy, PartialEq, Eq, Debug)]
pub struct OrderPayload {
    pub id: u64,
    pub market: bool,

    pub ticker_mint: Pubkey,
    pub amount: u64,

    pub payment_mint: Pubkey,
    pub price: u64,
    pub fee: u64,

    pub expires_at: i64,
}

} // verus!
