//! Custody and settlement core for attester-priced trades.
//!
//! A trusted price-setting party (the oracle) signs trade intents off-engine.
//! The engine admits an intent only after checking the oracle's signature
//! record, locks the corresponding funds in an order-owned escrow account,
//! and later settles or refunds them while driving the order through its
//! lifecycle: `Pending` -> `Processing` -> closed (executed), or
//! `Pending` -> closed (cancelled).

use vstd::prelude::*;

pub mod codec;
pub mod errors;
pub mod order;
pub mod ticker;
pub mod utils;

use crate::errors::{ErrorCode, TickerError};
use crate::order::cancel::{spec_cancel_err, CancelOrder};
use crate::order::create::{
    spec_buy_err, spec_locked_escrow, spec_sell_err, CreateBuyOrder, CreateSellOrder,
};
use crate::order::execute::{
    spec_execute_err, spec_process_err, ExecuteOrder, ProcessOrder,
};
use crate::order::state::{
    spec_locked_amount, spec_new_order, spec_refund_amount, spec_sell_proceeds, spec_total_cost,
    Order, OrderCanceled, OrderCreated, OrderExecuted, OrderProcessing, TokenAccount,
};
use crate::order::types::{OrderPayload, OrderSide, OrderStatus, Pubkey};

verus! {

/// This engine's own program identifier: derived sub-account addresses are
/// computed under it.
pub const ID: Pubkey = [
    203, 253, 211, 102, 141, 152, 5, 155, 198, 99, 69, 164, 229, 49, 147, 117, 133, 40, 58, 200,
    158, 167, 97, 180, 49, 72, 254, 154, 49, 194, 179, 103,
];

/// The all-zero key, used as the "unset" sentinel for registry entries.
pub const ZERO_KEY: Pubkey = [
    0, 0, 0, 0, 0, 0, 0, 0, 0, 0, 0, 0, 0, 0, 0, 0, 0, 0, 0, 0, 0, 0, 0, 0, 0, 0, 0, 0, 0, 0, 0,
    0,
];

/// Registry of the trusted keys: the administrative `authority` that may
/// rotate registry entries, and the `oracle` whose signature admits trade
/// intents and whose holder may process and execute orders.
///
/// A rotation takes effect for intents verified after it commits; it has no
/// retroactive effect on settled orders.
#[derive(Clone, Copy, PartialEq, Eq, Debug)]
pub struct Registry {
    pub authority: Pubkey,
    pub oracle: Pubkey,
}

/// Creates the registry with the paying caller as administrative authority
/// and no oracle key recorded yet.
pub fn init(payer: Pubkey) -> (r: Registry)
    ensures
        r.authority == payer,
        r.oracle == ZERO_KEY,
{
    Registry { authority: payer, oracle: ZERO_KEY }
}

/// Hands the administrative authority to a new key. Only the current
/// authority may do so, and the zero sentinel is not a valid authority.
pub fn transfer_authority(registry: &mut Registry, caller: Pubkey, new_authority: Pubkey) -> (r:
    Result<(), TickerError>)
    ensures
        caller@ != old(registry).authority@ ==> r == Err::<(), TickerError>(
            TickerError::Unauthorized,
        ) && *final(registry) == *old(registry),
        caller@ == old(registry).authority@ && new_authority@ == ZERO_KEY@ ==> r == Err::<
            (),
            TickerError,
        >(TickerError::InvalidAuthority) && *final(registry) == *old(registry),
        caller@ == old(registry).authority@ && new_authority@ != ZERO_KEY@ ==> r == Ok::<
            (),
            TickerError,
        >(()) && final(registry).authority == new_authority && final(registry).oracle == old(registry).oracle,
{
    if !crate::order::types::pubkey_eq(&caller, &registry.authority) {
        return Err(TickerError::Unauthorized);
    }
    if crate::order::types::pubkey_eq(&new_authority, &ZERO_KEY) {
        return Err(TickerError::InvalidAuthority);
    }
    registry.authority = new_authority;
    Ok(())
}

/// Creates a buy order from a signed trade intent: verifies admission,
/// locks `amount * price + fee` of the payment asset in escrow, and writes
/// a `Pending` order — or rejects with no state change.
pub fn create_buy_order(ctx: &mut CreateBuyOrder, payload: &OrderPayload, now: i64) -> (r: Result<
    OrderCreated,
    ErrorCode,
>)
    ensures
        ({
            let err = spec_buy_err(*old(ctx), *payload, now);
            let lock = spec_locked_amount(
                OrderSide::Buy,
                payload.amount,
                payload.price,
                payload.fee,
            );
            match r {
                Err(e) => Some(e) == err && *final(ctx) == *old(ctx),
                Ok(ev) => err is None && lock is Some && final(ctx).order == Some(
                    spec_new_order(*payload, OrderSide::Buy, old(ctx).payer),
                ) && final(ctx).maker_payment_account == (TokenAccount {
                    balance: (old(ctx).maker_payment_account.balance - lock.unwrap()) as u64,
                    ..old(ctx).maker_payment_account
                }) && final(ctx).escrow_account == Some(
                    spec_locked_escrow(
                        *payload,
                        OrderSide::Buy,
                        old(ctx).order_key,
                        old(ctx).escrow_account,
                        lock.unwrap(),
                    ),
                ) && final(ctx).payer == old(ctx).payer && final(ctx).registry == old(ctx).registry
                    && final(ctx).order_key == old(ctx).order_key && final(ctx).maker_ticker_account
                    == old(ctx).maker_ticker_account && final(ctx).ix_program_id == old(ctx).ix_program_id && final(ctx).ix_data == old(ctx).ix_data && ev == (OrderCreated {
                    id: payload.id,
                    maker: old(ctx).payer,
                    created_at: now,
                    expires_at: payload.expires_at,
                }),
            }
        }),
{
    crate::order::create::buy(ctx, payload, now)
}

/// Creates a sell order from a signed trade intent: verifies admission,
/// locks `amount` of the traded asset in escrow, and writes a `Pending`
/// order — or rejects with no state change.
pub fn create_sell_order(ctx: &mut CreateSellOrder, payload: &OrderPayload, now: i64) -> (r:
    Result<OrderCreated, ErrorCode>)
    ensures
        ({
            let err = spec_sell_err(*old(ctx), *payload, now);
            match r {
                Err(e) => Some(e) == err && *final(ctx) == *old(ctx),
                Ok(ev) => err is None && final(ctx).order == Some(
                    spec_new_order(*payload, OrderSide::Sell, old(ctx).payer),
                ) && final(ctx).maker_ticker_account == (TokenAccount {
                    balance: (old(ctx).maker_ticker_account.balance - payload.amount) as u64,
                    ..old(ctx).maker_ticker_account
                }) && final(ctx).escrow_account == Some(
                    spec_locked_escrow(
                        *payload,
                        OrderSide::Sell,
                        old(ctx).order_key,
                        old(ctx).escrow_account,
                        payload.amount,
                    ),
                ) && final(ctx).payer == old(ctx).payer && final(ctx).registry == old(ctx).registry
                    && final(ctx).order_key == old(ctx).order_key && final(ctx).ix_program_id == old(ctx).ix_program_id && final(ctx).ix_data == old(ctx).ix_data && ev == (OrderCreated {
                    id: payload.id,
                    maker: old(ctx).payer,
                    created_at: now,
                    expires_at: payload.expires_at,
                }),
            }
        }),
{
    crate::order::create::sell(ctx, payload, now)
}

/// Cancels a `Pending` order: the maker's pre-processing-only right to
/// refund exactly what Create locked and close the order and its escrow.
pub fn cancel_order(ctx: &mut CancelOrder, id: u64, now: i64) -> (r: Result<
    OrderCanceled,
    ErrorCode,
>)
    ensures
        ({
            let err = spec_cancel_err(*old(ctx), id);
            match r {
                Err(e) => Some(e) == err && *final(ctx) == *old(ctx),
                Ok(ev) => err is None && final(ctx).order is None && final(ctx).escrow_account
                    is None && final(ctx).refund_account == (TokenAccount {
                    balance: (old(ctx).refund_account.balance + spec_refund_amount(
                        old(ctx).order.unwrap(),
                    ).unwrap()) as u64,
                    ..old(ctx).refund_account
                }) && final(ctx).payer == old(ctx).payer && final(ctx).order_key == old(ctx).order_key && ev == (OrderCanceled {
                    id: old(ctx).order.unwrap().id,
                    maker: old(ctx).order.unwrap().maker,
                    timestamp: now,
                }),
            }
        }),
{
    crate::order::cancel::cancel(ctx, id, now)
}

/// Moves a `Pending` order to `Processing`: the attester's declaration
/// that settlement has begun, after which cancellation is impossible.
pub fn process_order(ctx: &mut ProcessOrder, now: i64) -> (r: Result<OrderProcessing, ErrorCode>)
    ensures
        ({
            let err = spec_process_err(*old(ctx));
            match r {
                Err(e) => Some(e) == err && *final(ctx) == *old(ctx),
                Ok(ev) => err is None && final(ctx).order == Some(
                    Order { status: OrderStatus::Processing, ..old(ctx).order.unwrap() },
                ) && final(ctx).payer == old(ctx).payer && final(ctx).registry == old(ctx).registry
                    && ev == (OrderProcessing {
                    id: old(ctx).order.unwrap().id,
                    maker: old(ctx).order.unwrap().maker,
                    timestamp: now,
                }),
            }
        }),
{
    crate::order::execute::process(ctx, now)
}

/// Settles a `Processing` order per its side and closes it together with
/// its escrow. `_spent` is carried by the interface and plays no part in
/// settlement; the settlement amounts are recomputed from the order's own
/// terms.
pub fn execute_order(
    ctx: &mut ExecuteOrder,
    order_id: u64,
    _spent: u64,
    proof_cid: Vec<u8>,
    now: i64,
) -> (r: Result<OrderExecuted, ErrorCode>)
    ensures
        ({
            let err = spec_execute_err(*old(ctx), order_id);
            match r {
                Err(e) => Some(e) == err && *final(ctx) == *old(ctx),
                Ok(ev) => err is None && ({
                    let o = old(ctx).order.unwrap();
                    final(ctx).order is None && final(ctx).escrow_account is None && final(ctx).payer == old(ctx).payer && final(ctx).registry == old(ctx).registry && final(ctx).order_key == old(ctx).order_key && final(ctx).maker == old(ctx).maker && ev
                        == (OrderExecuted {
                        id: o.id,
                        side: o.side,
                        market: o.market,
                        maker: o.maker,
                        ticker_mint: o.ticker_mint,
                        amount: o.amount,
                        payment_mint: o.payment_mint,
                        price: o.price,
                        fee: o.fee,
                        proof_cid: proof_cid,
                        timestamp: now,
                    }) && match o.side {
                        OrderSide::Buy => {
                            let total = spec_total_cost(o.amount, o.price, o.fee).unwrap();
                            final(ctx).pool == (TokenAccount {
                                balance: (old(ctx).pool.balance + total) as u64,
                                ..old(ctx).pool
                            }) && final(ctx).maker_account == (TokenAccount {
                                balance: (old(ctx).maker_account.balance + o.amount) as u64,
                                ..old(ctx).maker_account
                            }) && final(ctx).ticker_supply == (old(ctx).ticker_supply
                                + o.amount) as u64
                        },
                        OrderSide::Sell => {
                            let proceeds = spec_sell_proceeds(o.amount, o.price, o.fee).unwrap();
                            final(ctx).pool == (TokenAccount {
                                balance: (old(ctx).pool.balance - proceeds) as u64,
                                ..old(ctx).pool
                            }) && final(ctx).maker_account == (TokenAccount {
                                balance: (old(ctx).maker_account.balance + proceeds) as u64,
                                ..old(ctx).maker_account
                            }) && final(ctx).ticker_supply == (old(ctx).ticker_supply
                                - o.amount) as u64
                        },
                    }
                }),
            }
        }),
{
    crate::order::execute::execute(ctx, order_id, proof_cid, now)
}

} // verus!
