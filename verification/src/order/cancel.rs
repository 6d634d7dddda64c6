//! The Cancel operation: a pre-processing-only right of the maker to
//! unwind a `Pending` order, refunding exactly what Create locked and
//! closing the order and its escrow together.

use vstd::prelude::*;

use crate::errors::ErrorCode;
use crate::order::state::{
    spec_locked_amount, spec_new_order, spec_refund_amount, Order, OrderCanceled, TokenAccount,
};
use crate::order::types::{pubkey_eq, OrderPayload, OrderSide, OrderStatus, Pubkey};

verus! {

/// The accounts a Cancel touches. `order` and `escrow_account` are the
/// accounts at the derived `(payer, id)` order address and its escrow
/// derivation; `refund_account` is where the maker wants the locked funds
/// back.
#[derive(Clone, Copy, PartialEq, Eq, Debug)]
pub struct CancelOrder {
    pub payer: Pubkey,
    pub order_key: Pubkey,
    pub order: Option<Order>,
    pub escrow_account: Option<TokenAccount>,
    pub refund_account: TokenAccount,
}

/// The asset a Cancel refunds: the leg Create locked.
pub open spec fn spec_refund_mint(o: Order) -> Pubkey {
    match o.side {
        OrderSide::Buy => o.payment_mint,
        OrderSide::Sell => o.ticker_mint,
    }
}

/// Outcome of the refund step: the recomputed locked amount must be
/// representable; escrow and refund account must hold the locked leg's
/// asset; the escrow must hold exactly the locked amount (a shortfall or
/// excess means the escrow is not in the state Create left it, and closing
/// it would strand funds); and the refund balance must stay representable.
pub open spec fn spec_refund_err(o: Order, escrow: TokenAccount, refund: TokenAccount) -> Option<
    ErrorCode,
> {
    match spec_refund_amount(o) {
        None => Some(ErrorCode::Overflow),
        Some(amount) => {
            if escrow.mint@ != spec_refund_mint(o)@ {
                Some(ErrorCode::InvalidEscrowMint)
            } else if refund.mint@ != spec_refund_mint(o)@ {
                Some(ErrorCode::InvalidRefundMint)
            } else if escrow.balance < amount {
                Some(ErrorCode::InsufficientFunds)
            } else if escrow.balance > amount {
                Some(ErrorCode::InvalidEscrowAccount)
            } else if refund.balance + amount > u64::MAX {
                Some(ErrorCode::Overflow)
            } else {
                None
            }
        },
    }
}

/// Outcome of a Cancel, checked in this order: the order must exist (a
/// closed or never-created order rejects as already processed), match the
/// claimed id, belong to the caller, and still be `Pending`; the escrow
/// must exist and be owned by the order; the refund account must be the
/// caller's; then the refund step decides.
pub open spec fn spec_cancel_err(ctx: CancelOrder, id: u64) -> Option<ErrorCode> {
    match ctx.order {
        None => Some(ErrorCode::OrderAlreadyProcessed),
        Some(o) => {
            if o.id != id {
                Some(ErrorCode::InvalidPDA)
            } else if o.maker@ != ctx.payer@ {
                Some(ErrorCode::Unauthorized)
            } else if o.status != OrderStatus::Pending {
                Some(ErrorCode::OrderAlreadyProcessed)
            } else {
                match ctx.escrow_account {
                    None => Some(ErrorCode::InvalidEscrowAccount),
                    Some(e) => {
                        if e.owner@ != ctx.order_key@ {
                            Some(ErrorCode::InvalidEscrowOwner)
                        } else if ctx.refund_account.owner@ != ctx.payer@ {
                            Some(ErrorCode::InvalidRefundOwner)
                        } else {
                            spec_refund_err(o, e, ctx.refund_account)
                        }
                    },
                }
            }
        },
    }
}

/// The refund step: recomputes the amount Create locked from the persisted
/// order and moves it from escrow to the refund account, draining the
/// escrow completely — or rejects with both accounts unchanged.
pub fn refund(
    order: &Order,
    escrow_account: &mut TokenAccount,
    refund_account: &mut TokenAccount,
) -> (r: Result<u64, ErrorCode>)
    ensures
        ({
            let err = spec_refund_err(*order, *old(escrow_account), *old(refund_account));
            match r {
                Err(e) => Some(e) == err && *final(escrow_account) == *old(escrow_account)
                    && *final(refund_account) == *old(refund_account),
                Ok(amount) => err is None && Some(amount) == spec_refund_amount(*order) && *final(escrow_account) == (TokenAccount { balance: 0, ..*old(escrow_account) }) && *final(refund_account) == (TokenAccount {
                    balance: (old(refund_account).balance + amount) as u64,
                    ..*old(refund_account)
                }),
            }
        }),
{
    let amount: u64 = match order.side {
        OrderSide::Buy => {
            let product = match order.amount.checked_mul(order.price) {
                None => {
                    return Err(ErrorCode::Overflow);
                },
                Some(p) => p,
            };
            match product.checked_add(order.fee) {
                None => {
                    return Err(ErrorCode::Overflow);
                },
                Some(t) => t,
            }
        },
        OrderSide::Sell => order.amount,
    };
    let leg_mint = match order.side {
        OrderSide::Buy => order.payment_mint,
        OrderSide::Sell => order.ticker_mint,
    };
    if !pubkey_eq(&escrow_account.mint, &leg_mint) {
        return Err(ErrorCode::InvalidEscrowMint);
    }
    if !pubkey_eq(&refund_account.mint, &leg_mint) {
        return Err(ErrorCode::InvalidRefundMint);
    }
    if escrow_account.balance < amount {
        return Err(ErrorCode::InsufficientFunds);
    }
    if escrow_account.balance > amount {
        return Err(ErrorCode::InvalidEscrowAccount);
    }
    match refund_account.balance.checked_add(amount) {
        None => Err(ErrorCode::Overflow),
        Some(new_balance) => {
            escrow_account.balance = 0;
            refund_account.balance = new_balance;
            Ok(amount)
        },
    }
}

/// Closes the order record and its (already drained) escrow together:
/// either both cease to exist or neither does, since a closed order with
/// an open escrow would strand funds, and the reverse is equally invalid.
pub fn close(order_slot: &mut Option<Order>, escrow_slot: &mut Option<TokenAccount>)
    ensures
        *final(order_slot) is None,
        *final(escrow_slot) is None,
{
    *order_slot = None;
    *escrow_slot = None;
}

/// Cancels a `Pending` order: refunds exactly what Create locked to the
/// maker's refund account, closes the escrow and the order record, and
/// reports the cancellation — or rejects with no state change.
pub fn cancel(ctx: &mut CancelOrder, id: u64, now: i64) -> (r: Result<OrderCanceled, ErrorCode>)
    ensures
        ({
            let err = spec_cancel_err(*old(ctx), id);
            match r {
                Err(e) => Some(e) == err && *final(ctx) == *old(ctx),
                Ok(ev) => err is None && final(ctx).order is None && final(ctx).escrow_account
                    is None && final(ctx).refund_account == (TokenAccount {
                    balance: (old(ctx).refund_account.balance + spec_refund_amount(
                        old(ctx).order.unwrap(),
                    ).unwrap()) as u64,
                    ..old(ctx).refund_account
                }) && final(ctx).payer == old(ctx).payer && final(ctx).order_key == old(ctx).order_key && ev == (OrderCanceled {
                    id: old(ctx).order.unwrap().id,
                    maker: old(ctx).order.unwrap().maker,
                    timestamp: now,
                }),
            }
        }),
{
    let o: Order = match ctx.order {
        Some(o) => o,
        None => {
            return Err(ErrorCode::OrderAlreadyProcessed);
        },
    };
    if o.id != id {
        return Err(ErrorCode::InvalidPDA);
    }
    if !pubkey_eq(&o.maker, &ctx.payer) {
        return Err(ErrorCode::Unauthorized);
    }
    match o.status {
        OrderStatus::Pending => {},
        OrderStatus::Processing => {
            return Err(ErrorCode::OrderAlreadyProcessed);
        },
    }
    let escrow: TokenAccount = match ctx.escrow_account {
        Some(e) => e,
        None => {
            return Err(ErrorCode::InvalidEscrowAccount);
        },
    };
    if !pubkey_eq(&escrow.owner, &ctx.order_key) {
        return Err(ErrorCode::InvalidEscrowOwner);
    }
    if !pubkey_eq(&ctx.refund_account.owner, &ctx.payer) {
        return Err(ErrorCode::InvalidRefundOwner);
    }
    let mut drained = escrow;
    match refund(&o, &mut drained, &mut ctx.refund_account) {
        Err(e) => {
            return Err(e);
        },
        Ok(_) => {},
    }
    close(&mut ctx.order, &mut ctx.escrow_account);
    Ok(OrderCanceled { id: o.id, maker: o.maker, timestamp: now })
}

/// Create followed by Cancel is a no-op on net balances: the amount Cancel
/// recomputes from the order Create stored equals the amount Create
/// locked, so refunding it returns the maker's funding balance and the
/// escrow balance exactly to their pre-Create values.
pub proof fn lemma_create_cancel_round_trip(
    payload: OrderPayload,
    side: OrderSide,
    maker: Pubkey,
    maker_balance: u64,
    escrow_balance: u64,
)
    requires
        spec_locked_amount(side, payload.amount, payload.price, payload.fee) is Some,
        spec_locked_amount(side, payload.amount, payload.price, payload.fee).unwrap()
            <= maker_balance,
        escrow_balance + spec_locked_amount(side, payload.amount, payload.price, payload.fee).unwrap()
            <= u64::MAX,
    ensures
        spec_refund_amount(spec_new_order(payload, side, maker)) == spec_locked_amount(
            side,
            payload.amount,
            payload.price,
            payload.fee,
        ),
        ({
            let lock = spec_locked_amount(side, payload.amount, payload.price, payload.fee).unwrap();
            (maker_balance - lock) + lock == maker_balance && ((escrow_balance + lock) as u64)
                - lock == escrow_balance
        }),
{
}

/// A Cancel attempted by the maker once the order has reached `Processing`
/// always fails with `OrderAlreadyProcessed` — and, by `cancel`'s
/// contract, changes nothing. Once processing begins, settlement and
/// cancellation are mutually exclusive.
pub proof fn lemma_no_cancel_after_processing(ctx: CancelOrder, id: u64)
    requires
        ctx.order is Some,
        ctx.order.unwrap().status == OrderStatus::Processing,
        ctx.order.unwrap().id == id,
        ctx.order.unwrap().maker@ == ctx.payer@,
    ensures
        spec_cancel_err(ctx, id) == Some(ErrorCode::OrderAlreadyProcessed),
{
}

} // verus!
