//! The Process and Execute operations: the attester marks a `Pending`
//! order `Processing`, then settles it — paying the pool and minting to the
//! maker on the buy side, paying the maker from the pool and burning the
//! escrowed asset on the sell side — and closes the order and its escrow.

use vstd::prelude::*;

use crate::errors::ErrorCode;
use crate::order::state::{
    spec_sell_proceeds, spec_total_cost, Order, OrderExecuted, OrderProcessing, TokenAccount,
};
use crate::order::types::{pubkey_eq, OrderSide, OrderStatus, Pubkey};
use crate::Registry;

verus! {

/// The accounts a Process touches.
#[derive(Clone, Copy, PartialEq, Eq, Debug)]
pub struct ProcessOrder {
    pub payer: Pubkey,
    pub registry: Registry,
    pub order: Option<Order>,
}

/// Outcome of a Process: only the registered attester may call, and only a
/// still-`Pending` order can move to `Processing`.
pub open spec fn spec_process_err(ctx: ProcessOrder) -> Option<ErrorCode> {
    if ctx.payer@ != ctx.registry.oracle@ {
        Some(ErrorCode::Unauthorized)
    } else {
        match ctx.order {
            None => Some(ErrorCode::OrderAlreadyProcessed),
            Some(o) => {
                if o.status != OrderStatus::Pending {
                    Some(ErrorCode::OrderAlreadyProcessed)
                } else {
                    None
                }
            },
        }
    }
}

/// Marks a `Pending` order `Processing`. From then on the maker can no
/// longer cancel: settlement and cancellation are mutually exclusive, and
/// whichever transition commits first is final.
pub fn process(ctx: &mut ProcessOrder, now: i64) -> (r: Result<OrderProcessing, ErrorCode>)
    ensures
        ({
            let err = spec_process_err(*old(ctx));
            match r {
                Err(e) => Some(e) == err && *final(ctx) == *old(ctx),
                Ok(ev) => err is None && final(ctx).order == Some(
                    Order { status: OrderStatus::Processing, ..old(ctx).order.unwrap() },
                ) && final(ctx).payer == old(ctx).payer && final(ctx).registry == old(ctx).registry
                    && ev == (OrderProcessing {
                    id: old(ctx).order.unwrap().id,
                    maker: old(ctx).order.unwrap().maker,
                    timestamp: now,
                }),
            }
        }),
{
    if !pubkey_eq(&ctx.payer, &ctx.registry.oracle) {
        return Err(ErrorCode::Unauthorized);
    }
    let o: Order = match ctx.order {
        Some(o) => o,
        None => {
            return Err(ErrorCode::OrderAlreadyProcessed);
        },
    };
    match o.status {
        OrderStatus::Pending => {},
        OrderStatus::Processing => {
            return Err(ErrorCode::OrderAlreadyProcessed);
        },
    }
    ctx.order = Some(Order { status: OrderStatus::Processing, ..o });
    Ok(OrderProcessing { id: o.id, maker: o.maker, timestamp: now })
}

/// A Process attempted on an order that is already `Processing` always
/// fails with `OrderAlreadyProcessed`: the transition cannot be taken
/// twice.
pub proof fn lemma_no_process_twice(ctx: ProcessOrder)
    requires
        ctx.payer@ == ctx.registry.oracle@,
        ctx.order is Some,
        ctx.order.unwrap().status == OrderStatus::Processing,
    ensures
        spec_process_err(ctx) == Some(ErrorCode::OrderAlreadyProcessed),
{
}

/// The accounts an Execute touches. `pool` is the shared liquidity account
/// of the asset pair (holding the payment asset); `ticker_supply` is the
/// traded asset's total supply, raised by minting and lowered by burning;
/// `maker_account` is the maker's receiving account — the traded asset on
/// the buy side, the payment asset on the sell side.
#[derive(Clone, Copy, PartialEq, Eq, Debug)]
pub struct ExecuteOrder {
    pub payer: Pubkey,
    pub registry: Registry,
    pub order_key: Pubkey,
    pub order: Option<Order>,
    pub maker: Pubkey,
    pub maker_account: TokenAccount,
    pub escrow_account: Option<TokenAccount>,
    pub pool: TokenAccount,
    pub ticker_supply: u64,
}

/// Outcome of the buy-side settlement arithmetic and account checks.
pub open spec fn spec_execute_buy_err(ctx: ExecuteOrder, o: Order, e: TokenAccount) -> Option<
    ErrorCode,
> {
    match spec_total_cost(o.amount, o.price, o.fee) {
        None => Some(ErrorCode::Overflow),
        Some(total) => {
            if e.mint@ != o.payment_mint@ {
                Some(ErrorCode::InvalidEscrowMint)
            } else if e.balance < total {
                Some(ErrorCode::InsufficientFunds)
            } else if e.balance > total {
                Some(ErrorCode::InvalidEscrowAccount)
            } else if ctx.pool.balance + total > u64::MAX {
                Some(ErrorCode::Overflow)
            } else if ctx.maker_account.mint@ != o.ticker_mint@ {
                Some(ErrorCode::InvalidMakerMint)
            } else if ctx.maker_account.balance + o.amount > u64::MAX {
                Some(ErrorCode::Overflow)
            } else if ctx.ticker_supply + o.amount > u64::MAX {
                Some(ErrorCode::Overflow)
            } else {
                None
            }
        },
    }
}

/// Outcome of the sell-side settlement arithmetic and account checks.
pub open spec fn spec_execute_sell_err(ctx: ExecuteOrder, o: Order, e: TokenAccount) -> Option<
    ErrorCode,
> {
    match spec_sell_proceeds(o.amount, o.price, o.fee) {
        None => Some(ErrorCode::Overflow),
        Some(proceeds) => {
            if proceeds == 0 {
                Some(ErrorCode::InvalidSellAmount)
            } else if ctx.maker_account.mint@ != o.payment_mint@ {
                Some(ErrorCode::InvalidMakerMint)
            } else if e.mint@ != o.ticker_mint@ {
                Some(ErrorCode::InvalidEscrowMint)
            } else if ctx.pool.balance < proceeds {
                Some(ErrorCode::InsufficientFunds)
            } else if ctx.maker_account.balance + proceeds > u64::MAX {
                Some(ErrorCode::Overflow)
            } else if e.balance < o.amount {
                Some(ErrorCode::InsufficientFunds)
            } else if e.balance > o.amount {
                Some(ErrorCode::InvalidEscrowAccount)
            } else if ctx.ticker_supply < o.amount {
                Some(ErrorCode::Overflow)
            } else {
                None
            }
        },
    }
}

/// Outcome of an Execute, checked in this order: only the registered
/// attester may call; the order must exist, match the claimed id and
/// maker, and be `Processing`; the maker's receiving account must be the
/// maker's; the escrow must exist and be owned by the order; the pool must
/// hold the payment asset; then the side's settlement checks decide.
pub open spec fn spec_execute_err(ctx: ExecuteOrder, order_id: u64) -> Option<ErrorCode> {
    if ctx.payer@ != ctx.registry.oracle@ {
        Some(ErrorCode::Unauthorized)
    } else {
        match ctx.order {
            None => Some(ErrorCode::OrderAlreadyProcessed),
            Some(o) => {
                if o.id != order_id {
                    Some(ErrorCode::InvalidPDA)
                } else if o.maker@ != ctx.maker@ {
                    Some(ErrorCode::InvalidMaker)
                } else if o.status != OrderStatus::Processing {
                    Some(ErrorCode::OrderAlreadyProcessed)
                } else if ctx.maker_account.owner@ != ctx.maker@ {
                    Some(ErrorCode::InvalidMakerAccount)
                } else {
                    match ctx.escrow_account {
                        None => Some(ErrorCode::InvalidEscrowAccount),
                        Some(e) => {
                            if e.owner@ != ctx.order_key@ {
                                Some(ErrorCode::InvalidEscrowOwner)
                            } else if ctx.pool.mint@ != o.payment_mint@ {
                                Some(ErrorCode::InvalidPaymentMint)
                            } else {
                                match o.side {
                                    OrderSide::Buy => spec_execute_buy_err(ctx, o, e),
                                    OrderSide::Sell => spec_execute_sell_err(ctx, o, e),
                                }
                            }
                        },
                    }
                }
            },
        }
    }
}

/// Settles a `Processing` order and closes it together with its escrow.
///
/// Buy side: moves the full locked cost `amount * price + fee` from escrow
/// into the pool, then mints exactly `amount` of the traded asset to the
/// maker. Sell side: pays the maker exactly `amount * price - fee` from
/// the pool — failing the whole operation if that quantity is not positive
/// — and burns the `amount` locked in escrow. Either way the order record
/// and the escrow cease to exist, and the settlement-proof reference is
/// echoed in the emitted record. A rejected Execute changes nothing.
pub fn execute(ctx: &mut ExecuteOrder, order_id: u64, proof_cid: Vec<u8>, now: i64) -> (r: Result<
    OrderExecuted,
    ErrorCode,
>)
    ensures
        ({
            let err = spec_execute_err(*old(ctx), order_id);
            match r {
                Err(e) => Some(e) == err && *final(ctx) == *old(ctx),
                Ok(ev) => err is None && ({
                    let o = old(ctx).order.unwrap();
                    final(ctx).order is None && final(ctx).escrow_account is None && final(ctx).payer == old(ctx).payer && final(ctx).registry == old(ctx).registry && final(ctx).order_key == old(ctx).order_key && final(ctx).maker == old(ctx).maker && ev
                        == (OrderExecuted {
                        id: o.id,
                        side: o.side,
                        market: o.market,
                        maker: o.maker,
                        ticker_mint: o.ticker_mint,
                        amount: o.amount,
                        payment_mint: o.payment_mint,
                        price: o.price,
                        fee: o.fee,
                        proof_cid: proof_cid,
                        timestamp: now,
                    }) && match o.side {
                        OrderSide::Buy => {
                            let total = spec_total_cost(o.amount, o.price, o.fee).unwrap();
                            final(ctx).pool == (TokenAccount {
                                balance: (old(ctx).pool.balance + total) as u64,
                                ..old(ctx).pool
                            }) && final(ctx).maker_account == (TokenAccount {
                                balance: (old(ctx).maker_account.balance + o.amount) as u64,
                                ..old(ctx).maker_account
                            }) && final(ctx).ticker_supply == (old(ctx).ticker_supply
                                + o.amount) as u64
                        },
                        OrderSide::Sell => {
                            let proceeds = spec_sell_proceeds(o.amount, o.price, o.fee).unwrap();
                            final(ctx).pool == (TokenAccount {
                                balance: (old(ctx).pool.balance - proceeds) as u64,
                                ..old(ctx).pool
                            }) && final(ctx).maker_account == (TokenAccount {
                                balance: (old(ctx).maker_account.balance + proceeds) as u64,
                                ..old(ctx).maker_account
                            }) && final(ctx).ticker_supply == (old(ctx).ticker_supply
                                - o.amount) as u64
                        },
                    }
                }),
            }
        }),
{
    if !pubkey_eq(&ctx.payer, &ctx.registry.oracle) {
        return Err(ErrorCode::Unauthorized);
    }
    let o: Order = match ctx.order {
        Some(o) => o,
        None => {
            return Err(ErrorCode::OrderAlreadyProcessed);
        },
    };
    if o.id != order_id {
        return Err(ErrorCode::InvalidPDA);
    }
    if !pubkey_eq(&o.maker, &ctx.maker) {
        return Err(ErrorCode::InvalidMaker);
    }
    match o.status {
        OrderStatus::Processing => {},
        OrderStatus::Pending => {
            return Err(ErrorCode::OrderAlreadyProcessed);
        },
    }
    if !pubkey_eq(&ctx.maker_account.owner, &ctx.maker) {
        return Err(ErrorCode::InvalidMakerAccount);
    }
    let escrow: TokenAccount = match ctx.escrow_account {
        Some(e) => e,
        None => {
            return Err(ErrorCode::InvalidEscrowAccount);
        },
    };
    if !pubkey_eq(&escrow.owner, &ctx.order_key) {
        return Err(ErrorCode::InvalidEscrowOwner);
    }
    if !pubkey_eq(&ctx.pool.mint, &o.payment_mint) {
        return Err(ErrorCode::InvalidPaymentMint);
    }
    match o.side {
        OrderSide::Buy => {
            let product = match o.amount.checked_mul(o.price) {
                None => {
                    return Err(ErrorCode::Overflow);
                },
                Some(p) => p,
            };
            let total = match product.checked_add(o.fee) {
                None => {
                    return Err(ErrorCode::Overflow);
                },
                Some(t) => t,
            };
            if !pubkey_eq(&escrow.mint, &o.payment_mint) {
                return Err(ErrorCode::InvalidEscrowMint);
            }
            if escrow.balance < total {
                return Err(ErrorCode::InsufficientFunds);
            }
            if escrow.balance > total {
                return Err(ErrorCode::InvalidEscrowAccount);
            }
            let new_pool_balance = match ctx.pool.balance.checked_add(total) {
                None => {
                    return Err(ErrorCode::Overflow);
                },
                Some(b) => b,
            };
            if !pubkey_eq(&ctx.maker_account.mint, &o.ticker_mint) {
                return Err(ErrorCode::InvalidMakerMint);
            }
            let new_maker_balance = match ctx.maker_account.balance.checked_add(o.amount) {
                None => {
                    return Err(ErrorCode::Overflow);
                },
                Some(b) => b,
            };
            let new_supply = match ctx.ticker_supply.checked_add(o.amount) {
                None => {
                    return Err(ErrorCode::Overflow);
                },
                Some(s) => s,
            };
            ctx.pool.balance = new_pool_balance;
            ctx.maker_account.balance = new_maker_balance;
            ctx.ticker_supply = new_supply;
        },
        OrderSide::Sell => {
            let product = match o.amount.checked_mul(o.price) {
                None => {
                    return Err(ErrorCode::Overflow);
                },
                Some(p) => p,
            };
            let proceeds = match product.checked_sub(o.fee) {
                None => {
                    return Err(ErrorCode::Overflow);
                },
                Some(p) => p,
            };
            if proceeds == 0 {
                return Err(ErrorCode::InvalidSellAmount);
            }
            if !pubkey_eq(&ctx.maker_account.mint, &o.payment_mint) {
                return Err(ErrorCode::InvalidMakerMint);
            }
            if !pubkey_eq(&escrow.mint, &o.ticker_mint) {
                return Err(ErrorCode::InvalidEscrowMint);
            }
            if ctx.pool.balance < proceeds {
                return Err(ErrorCode::InsufficientFunds);
            }
            let new_maker_balance = match ctx.maker_account.balance.checked_add(proceeds) {
                None => {
                    return Err(ErrorCode::Overflow);
                },
                Some(b) => b,
            };
            if escrow.balance < o.amount {
                return Err(ErrorCode::InsufficientFunds);
            }
            if escrow.balance > o.amount {
                return Err(ErrorCode::InvalidEscrowAccount);
            }
            if ctx.ticker_supply < o.amount {
                return Err(ErrorCode::Overflow);
            }
            ctx.pool.balance = ctx.pool.balance - proceeds;
            ctx.maker_account.balance = new_maker_balance;
            ctx.ticker_supply = ctx.ticker_supply - o.amount;
        },
    }
    crate::order::cancel::close(&mut ctx.order, &mut ctx.escrow_account);
    Ok(
        OrderExecuted {
            id: o.id,
            side: o.side,
            market: o.market,
            maker: o.maker,
            ticker_mint: o.ticker_mint,
            amount: o.amount,
            payment_mint: o.payment_mint,
            price: o.price,
            fee: o.fee,
            proof_cid: proof_cid,
            timestamp: now,
        },
    )
}

} // verus!
