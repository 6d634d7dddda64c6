//! Persisted order records, the ledger-account model, and the notification
//! records the lifecycle operations emit.

use vstd::prelude::*;

use crate::order::types::{OrderPayload, OrderSide, OrderStatus, Pubkey};

verus! {

/// A fungible-asset holding account as the ledger keeps it: the authority
/// that may spend it, the asset it holds, and its balance.
///
/// Escrow accounts are owned by the order record itself (`owner` is the
/// order's derived address), never by a person.
#[derive(Clone, Copy, PartialEq, Eq, Debug)]
pub struct TokenAccount {
    pub owner: Pubkey,
    pub mint: Pubkey,
    pub balance: u64,
}

/// An open order, persisted at the address derived from `(maker, id)`.
/// Closed (executed or cancelled) orders are not stored at all: closing
/// reclaims the record.
#[derive(Clone, Copy, PartialEq, Eq, Debug)]
pub struct Order {
    pub id: u64,

    pub side: OrderSide,
    pub market: bool,
    pub maker: Pubkey,

    pub ticker_mint: Pubkey,
    pub amount: u64,

    pub payment_mint: Pubkey,
    pub price: u64,
    pub fee: u64,

    pub status: OrderStatus,
    pub expires_at: i64,
}

/// Total a buyer pays: `amount * price + fee`, or `None` on overflow.
pub open spec fn spec_total_cost(amount: u64, price: u64, fee: u64) -> Option<u64> {
    if amount * price + fee <= u64::MAX {
        Some((amount * price + fee) as u64)
    } else {
        None
    }
}

/// What a seller receives: `amount * price - fee`, or `None` when the
/// product overflows or the fee exceeds it.
pub open spec fn spec_sell_proceeds(amount: u64, price: u64, fee: u64) -> Option<u64> {
    if amount * price > u64::MAX || amount * price < fee {
        None
    } else {
        Some((amount * price - fee) as u64)
    }
}

/// The quantity a Create operation locks in escrow, and the quantity a
/// Cancel later refunds: the full cost on the buy side, the traded amount
/// itself on the sell side.
pub open spec fn spec_locked_amount(side: OrderSide, amount: u64, price: u64, fee: u64) -> Option<
    u64,
> {
    match side {
        OrderSide::Buy => spec_total_cost(amount, price, fee),
        OrderSide::Sell => Some(amount),
    }
}

/// The quantity Cancel recomputes from the persisted order to move out of
/// escrow.
pub open spec fn spec_refund_amount(o: Order) -> Option<u64> {
    spec_locked_amount(o.side, o.amount, o.price, o.fee)
}

/// The order record a Create operation writes: the payload's terms, the
/// caller as maker, status `Pending`.
pub open spec fn spec_new_order(payload: OrderPayload, side: OrderSide, maker: Pubkey) -> Order {
    Order {
        id: payload.id,
        side: side,
        market: payload.market,
        maker: maker,
        ticker_mint: payload.ticker_mint,
        amount: payload.amount,
        payment_mint: payload.payment_mint,
        price: payload.price,
        fee: payload.fee,
        status: OrderStatus::Pending,
        expires_at: payload.expires_at,
    }
}

/// Notification record of a successful Create.
#[derive(Clone, Copy, PartialEq, Eq, Debug)]
pub struct OrderCreated {
    pub id: u64,
    pub maker: Pubkey,

    pub created_at: i64,
    pub expires_at: i64,
}

/// Notification record of a successful Cancel.
#[derive(Clone, Copy, PartialEq, Eq, Debug)]
pub struct OrderCanceled {
    pub id: u64,
    pub maker: Pubkey,
    pub timestamp: i64,
}

/// Notification record of a successful Process.
#[derive(Clone, Copy, PartialEq, Eq, Debug)]
pub struct OrderProcessing {
    pub id: u64,
    pub maker: Pubkey,
    pub timestamp: i64,
}

/// Notification record of a successful Execute, carrying the settlement
/// proof reference handed in by the attester.
#[derive(PartialEq, Eq, Debug)]
pub struct OrderExecuted {
    pub id: u64,

    pub side: OrderSide,
    pub market: bool,
    pub maker: Pubkey,

    pub ticker_mint: Pubkey,
    pub amount: u64,

    pub payment_mint: Pubkey,
    pub price: u64,
    pub fee: u64,

    pub proof_cid: Vec<u8>,

    pub timestamp: i64,
}

} // verus!
