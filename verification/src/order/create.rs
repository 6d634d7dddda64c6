//! The Create operation: admission control, fund lock, and the writing of a
//! new `Pending` order.
//!
//! The checks run in a fixed sequence, and every fund movement comes after
//! the last of them, so a rejected Create changes nothing.

use vstd::prelude::*;

use crate::codec::{serialize_payload, spec_serialize_payload, spec_u16_of_le};
use crate::errors::ErrorCode;
use crate::order::state::{
    spec_locked_amount, spec_new_order, spec_total_cost, Order, OrderCreated, TokenAccount,
};
use crate::order::types::{pubkey_eq, OrderPayload, OrderSide, Pubkey};
use crate::utils::{
    keccak_of, keccak_hash, spec_verify_ed25519_err, verify_ed25519_ix, ED25519_PROGRAM_ID,
};
use crate::{Registry, ZERO_KEY};

verus! {

/// The asset a Create locks: the payment asset on the buy side (the buyer
/// escrows what they will pay), the traded asset on the sell side (the
/// seller escrows what they will deliver).
pub open spec fn spec_lock_mint(payload: OrderPayload, side: OrderSide) -> Pubkey {
    match side {
        OrderSide::Buy => payload.payment_mint,
        OrderSide::Sell => payload.ticker_mint,
    }
}

/// Balance of an escrow slot that may not exist yet: a lazily created
/// escrow starts empty.
pub open spec fn spec_escrow_balance(escrow_slot: Option<TokenAccount>) -> int {
    match escrow_slot {
        Some(e) => e.balance as int,
        None => 0,
    }
}

/// Outcome of the shared Create core, checked in this order: the derived
/// order address must be vacant; the intent must not be expired; the
/// registry must hold an oracle key; the attestation must pass the
/// admission gate over the intent's digest; an existing escrow must hold
/// the locked leg's asset and be owned by the order; the maker's funding
/// account must be the maker's and hold that asset with at least the
/// locked amount; and the escrow balance must stay representable.
pub open spec fn spec_create_err(
    payload: OrderPayload,
    side: OrderSide,
    payer: Pubkey,
    registry: Registry,
    order_slot: Option<Order>,
    order_key: Pubkey,
    amount: u64,
    maker_account: TokenAccount,
    escrow_slot: Option<TokenAccount>,
    ix_program_id: Pubkey,
    ix_data: Seq<u8>,
    now: i64,
) -> Option<ErrorCode> {
    if order_slot is Some {
        Some(ErrorCode::DuplicateOrderId)
    } else if now > payload.expires_at {
        Some(ErrorCode::PayloadExpired)
    } else if registry.oracle@ == ZERO_KEY@ {
        Some(ErrorCode::InvalidOracle)
    } else if spec_verify_ed25519_err(
        ix_program_id@,
        ix_data,
        registry.oracle@,
        keccak_of(spec_serialize_payload(payload)),
    ) is Some {
        spec_verify_ed25519_err(
            ix_program_id@,
            ix_data,
            registry.oracle@,
            keccak_of(spec_serialize_payload(payload)),
        )
    } else if escrow_slot matches Some(e) && e.mint@ != spec_lock_mint(payload, side)@ {
        Some(ErrorCode::InvalidEscrowMint)
    } else if escrow_slot matches Some(e) && e.owner@ != order_key@ {
        Some(ErrorCode::InvalidEscrowOwner)
    } else if maker_account.owner@ != payer@ || maker_account.mint@ != spec_lock_mint(
        payload,
        side,
    )@ {
        Some(ErrorCode::InvalidUserTokenAccount)
    } else if maker_account.balance < amount {
        Some(ErrorCode::InsufficientFunds)
    } else if spec_escrow_balance(escrow_slot) + amount > u64::MAX {
        Some(ErrorCode::Overflow)
    } else {
        None
    }
}

/// The escrow account a successful Create leaves behind: owned by the
/// order, holding the locked leg's asset, its previous balance (zero if it
/// was just created) raised by the locked amount.
pub open spec fn spec_locked_escrow(
    payload: OrderPayload,
    side: OrderSide,
    order_key: Pubkey,
    escrow_slot: Option<TokenAccount>,
    amount: u64,
) -> TokenAccount {
    TokenAccount {
        owner: order_key,
        mint: spec_lock_mint(payload, side),
        balance: (spec_escrow_balance(escrow_slot) + amount) as u64,
    }
}

/// The shared Create core. Verifies admission (expiry, oracle signature
/// over the intent's digest), lazily creates or checks the escrow, moves
/// `amount` from the maker's funding account into escrow, and writes the
/// `Pending` order record — or rejects with no state change at all.
///
/// `order_slot` and `escrow_slot` stand for the accounts at the derived
/// `(payer, id)` order address and its escrow address; the caller validates
/// those derivations (`check_order_address`, `check_escrow_address`) before
/// handing the accounts in.
pub fn create(
    payload: &OrderPayload,
    side: OrderSide,
    payer: Pubkey,
    registry: &Registry,
    order_slot: &mut Option<Order>,
    order_key: Pubkey,
    amount: u64,
    maker_token_account: &mut TokenAccount,
    escrow_slot: &mut Option<TokenAccount>,
    ix_program_id: &Pubkey,
    ix_data: &Vec<u8>,
    now: i64,
) -> (r: Result<OrderCreated, ErrorCode>)
    ensures
        ({
            let err = spec_create_err(
                *payload,
                side,
                payer,
                *registry,
                *old(order_slot),
                order_key,
                amount,
                *old(maker_token_account),
                *old(escrow_slot),
                *ix_program_id,
                ix_data@,
                now,
            );
            match r {
                Err(e) => Some(e) == err && *final(order_slot) == *old(order_slot)
                    && *final(maker_token_account) == *old(maker_token_account)
                    && *final(escrow_slot) == *old(escrow_slot),
                Ok(ev) => err is None && *final(order_slot) == Some(
                    spec_new_order(*payload, side, payer),
                ) && *final(maker_token_account) == (TokenAccount {
                    balance: (old(maker_token_account).balance - amount) as u64,
                    ..*old(maker_token_account)
                }) && *final(escrow_slot) == Some(
                    spec_locked_escrow(*payload, side, order_key, *old(escrow_slot), amount),
                ) && ev == (OrderCreated {
                    id: payload.id,
                    maker: payer,
                    created_at: now,
                    expires_at: payload.expires_at,
                }),
            }
        }),
{
    if order_slot.is_some() {
        return Err(ErrorCode::DuplicateOrderId);
    }
    if now > payload.expires_at {
        return Err(ErrorCode::PayloadExpired);
    }
    if pubkey_eq(&registry.oracle, &ZERO_KEY) {
        return Err(ErrorCode::InvalidOracle);
    }
    let serialized = serialize_payload(payload);
    let digest = keccak_hash(&serialized);
    match verify_ed25519_ix(ix_program_id, ix_data, &registry.oracle, digest.as_slice()) {
        Err(e) => {
            return Err(e);
        },
        Ok(_) => {},
    }
    let lock_mint = match side {
        OrderSide::Buy => payload.payment_mint,
        OrderSide::Sell => payload.ticker_mint,
    };
    let escrow_balance: u64 = match *escrow_slot {
        Some(e) => {
            if !pubkey_eq(&e.mint, &lock_mint) {
                return Err(ErrorCode::InvalidEscrowMint);
            }
            if !pubkey_eq(&e.owner, &order_key) {
                return Err(ErrorCode::InvalidEscrowOwner);
            }
            e.balance
        },
        None => 0,
    };
    if !pubkey_eq(&maker_token_account.owner, &payer) || !pubkey_eq(
        &maker_token_account.mint,
        &lock_mint,
    ) {
        return Err(ErrorCode::InvalidUserTokenAccount);
    }
    if maker_token_account.balance < amount {
        return Err(ErrorCode::InsufficientFunds);
    }
    match escrow_balance.checked_add(amount) {
        None => Err(ErrorCode::Overflow),
        Some(new_balance) => {
            maker_token_account.balance = maker_token_account.balance - amount;
            *escrow_slot = Some(
                TokenAccount { owner: order_key, mint: lock_mint, balance: new_balance },
            );
            *order_slot = Some(
                Order {
                    id: payload.id,
                    side: side,
                    market: payload.market,
                    maker: payer,
                    ticker_mint: payload.ticker_mint,
                    amount: payload.amount,
                    payment_mint: payload.payment_mint,
                    price: payload.price,
                    fee: payload.fee,
                    status: crate::order::types::OrderStatus::Pending,
                    expires_at: payload.expires_at,
                },
            );
            Ok(
                OrderCreated {
                    id: payload.id,
                    maker: payer,
                    created_at: now,
                    expires_at: payload.expires_at,
                },
            )
        },
    }
}

/// The accounts a buy-side Create touches. `order_key` is the address
/// derived from `(payer, payload.id)`; `order` and `escrow_account` are
/// the accounts stored there and at the escrow derivation (`None` while
/// vacant). `ix_program_id` and `ix_data` are the co-submitted attestation
/// record.
#[derive(PartialEq, Eq, Debug)]
pub struct CreateBuyOrder {
    pub payer: Pubkey,
    pub registry: Registry,
    pub order_key: Pubkey,
    pub order: Option<Order>,
    pub maker_payment_account: TokenAccount,
    pub maker_ticker_account: TokenAccount,
    pub escrow_account: Option<TokenAccount>,
    pub ix_program_id: Pubkey,
    pub ix_data: Vec<u8>,
}

/// The accounts a sell-side Create touches: as the buy side, but the
/// funding account is the maker's holding of the traded asset.
#[derive(PartialEq, Eq, Debug)]
pub struct CreateSellOrder {
    pub payer: Pubkey,
    pub registry: Registry,
    pub order_key: Pubkey,
    pub order: Option<Order>,
    pub maker_ticker_account: TokenAccount,
    pub escrow_account: Option<TokenAccount>,
    pub ix_program_id: Pubkey,
    pub ix_data: Vec<u8>,
}

/// Outcome of a buy-side Create: the buyer's total `amount * price + fee`
/// must be representable before anything else is looked at, then the
/// shared core decides.
pub open spec fn spec_buy_err(ctx: CreateBuyOrder, payload: OrderPayload, now: i64) -> Option<
    ErrorCode,
> {
    match spec_total_cost(payload.amount, payload.price, payload.fee) {
        None => Some(ErrorCode::Overflow),
        Some(total) => spec_create_err(
            payload,
            OrderSide::Buy,
            ctx.payer,
            ctx.registry,
            ctx.order,
            ctx.order_key,
            total,
            ctx.maker_payment_account,
            ctx.escrow_account,
            ctx.ix_program_id,
            ctx.ix_data@,
            now,
        ),
    }
}

/// Outcome of a sell-side Create: the locked quantity is the traded amount
/// itself, so the shared core decides directly.
pub open spec fn spec_sell_err(ctx: CreateSellOrder, payload: OrderPayload, now: i64) -> Option<
    ErrorCode,
> {
    spec_create_err(
        payload,
        OrderSide::Sell,
        ctx.payer,
        ctx.registry,
        ctx.order,
        ctx.order_key,
        payload.amount,
        ctx.maker_ticker_account,
        ctx.escrow_account,
        ctx.ix_program_id,
        ctx.ix_data@,
        now,
    )
}

/// Creates a buy order: locks `amount * price + fee` of the payment asset
/// in escrow and writes a `Pending` order — or rejects with no change.
pub fn buy(ctx: &mut CreateBuyOrder, payload: &OrderPayload, now: i64) -> (r: Result<
    OrderCreated,
    ErrorCode,
>)
    ensures
        ({
            let err = spec_buy_err(*old(ctx), *payload, now);
            let lock = spec_locked_amount(
                OrderSide::Buy,
                payload.amount,
                payload.price,
                payload.fee,
            );
            match r {
                Err(e) => Some(e) == err && *final(ctx) == *old(ctx),
                Ok(ev) => err is None && lock is Some && final(ctx).order == Some(
                    spec_new_order(*payload, OrderSide::Buy, old(ctx).payer),
                ) && final(ctx).maker_payment_account == (TokenAccount {
                    balance: (old(ctx).maker_payment_account.balance - lock.unwrap()) as u64,
                    ..old(ctx).maker_payment_account
                }) && final(ctx).escrow_account == Some(
                    spec_locked_escrow(
                        *payload,
                        OrderSide::Buy,
                        old(ctx).order_key,
                        old(ctx).escrow_account,
                        lock.unwrap(),
                    ),
                ) && final(ctx).payer == old(ctx).payer && final(ctx).registry == old(ctx).registry
                    && final(ctx).order_key == old(ctx).order_key && final(ctx).maker_ticker_account == old(ctx).maker_ticker_account && final(ctx).ix_program_id == old(ctx).ix_program_id && final(ctx).ix_data == old(ctx).ix_data
                    && ev == (OrderCreated {
                    id: payload.id,
                    maker: old(ctx).payer,
                    created_at: now,
                    expires_at: payload.expires_at,
                }),
            }
        }),
{
    let product = match payload.amount.checked_mul(payload.price) {
        None => {
            return Err(ErrorCode::Overflow);
        },
        Some(p) => p,
    };
    let total = match product.checked_add(payload.fee) {
        None => {
            return Err(ErrorCode::Overflow);
        },
        Some(t) => t,
    };
    create(
        payload,
        OrderSide::Buy,
        ctx.payer,
        &ctx.registry,
        &mut ctx.order,
        ctx.order_key,
        total,
        &mut ctx.maker_payment_account,
        &mut ctx.escrow_account,
        &ctx.ix_program_id,
        &ctx.ix_data,
        now,
    )
}

/// Creates a sell order: locks `amount` of the traded asset in escrow and
/// writes a `Pending` order — or rejects with no change.
pub fn sell(ctx: &mut CreateSellOrder, payload: &OrderPayload, now: i64) -> (r: Result<
    OrderCreated,
    ErrorCode,
>)
    ensures
        ({
            let err = spec_sell_err(*old(ctx), *payload, now);
            match r {
                Err(e) => Some(e) == err && *final(ctx) == *old(ctx),
                Ok(ev) => err is None && final(ctx).order == Some(
                    spec_new_order(*payload, OrderSide::Sell, old(ctx).payer),
                ) && final(ctx).maker_ticker_account == (TokenAccount {
                    balance: (old(ctx).maker_ticker_account.balance - payload.amount) as u64,
                    ..old(ctx).maker_ticker_account
                }) && final(ctx).escrow_account == Some(
                    spec_locked_escrow(
                        *payload,
                        OrderSide::Sell,
                        old(ctx).order_key,
                        old(ctx).escrow_account,
                        payload.amount,
                    ),
                ) && final(ctx).payer == old(ctx).payer && final(ctx).registry == old(ctx).registry
                    && final(ctx).order_key == old(ctx).order_key && final(ctx).ix_program_id == old(ctx).ix_program_id && final(ctx).ix_data == old(ctx).ix_data && ev == (OrderCreated {
                    id: payload.id,
                    maker: old(ctx).payer,
                    created_at: now,
                    expires_at: payload.expires_at,
                }),
            }
        }),
{
    create(
        payload,
        OrderSide::Sell,
        ctx.payer,
        &ctx.registry,
        &mut ctx.order,
        ctx.order_key,
        payload.amount,
        &mut ctx.maker_ticker_account,
        &mut ctx.escrow_account,
        &ctx.ix_program_id,
        &ctx.ix_data,
        now,
    )
}

/// A Create against an occupied `(maker, id)` order address always fails
/// with `DuplicateOrderId`, whatever else the request carries: the derived
/// address is the engine's idempotence boundary, and by `create`'s
/// contract the first order and all balances stay untouched.
pub proof fn lemma_double_create_rejected(
    payload: OrderPayload,
    side: OrderSide,
    payer: Pubkey,
    registry: Registry,
    order_slot: Option<Order>,
    order_key: Pubkey,
    amount: u64,
    maker_account: TokenAccount,
    escrow_slot: Option<TokenAccount>,
    ix_program_id: Pubkey,
    ix_data: Seq<u8>,
    now: i64,
)
    requires
        order_slot is Some,
    ensures
        spec_create_err(
            payload,
            side,
            payer,
            registry,
            order_slot,
            order_key,
            amount,
            maker_account,
            escrow_slot,
            ix_program_id,
            ix_data,
            now,
        ) == Some(ErrorCode::DuplicateOrderId),
{
}

/// An intent submitted after its expiry is rejected as expired regardless
/// of signature validity: the expiry check precedes the signature check,
/// and no property of the attestation appears among these hypotheses.
pub proof fn lemma_expired_intent_rejected(
    payload: OrderPayload,
    side: OrderSide,
    payer: Pubkey,
    registry: Registry,
    order_key: Pubkey,
    amount: u64,
    maker_account: TokenAccount,
    escrow_slot: Option<TokenAccount>,
    ix_program_id: Pubkey,
    ix_data: Seq<u8>,
    now: i64,
)
    requires
        now > payload.expires_at,
    ensures
        spec_create_err(
            payload,
            side,
            payer,
            registry,
            None,
            order_key,
            amount,
            maker_account,
            escrow_slot,
            ix_program_id,
            ix_data,
            now,
        ) == Some(ErrorCode::PayloadExpired),
{
}

/// An attestation whose embedded message differs anywhere from the digest
/// of the intent's actual serialization is rejected as a bad oracle
/// signature: admission compares the embedded bytes against the recomputed
/// digest exactly, so no altered intent passes under an old attestation.
pub proof fn lemma_mismatched_attestation_rejected(
    payload: OrderPayload,
    side: OrderSide,
    payer: Pubkey,
    registry: Registry,
    order_key: Pubkey,
    amount: u64,
    maker_account: TokenAccount,
    escrow_slot: Option<TokenAccount>,
    ix_program_id: Pubkey,
    ix_data: Seq<u8>,
    now: i64,
)
    requires
        now <= payload.expires_at,
        registry.oracle@ != ZERO_KEY@,
        ix_program_id@ == ED25519_PROGRAM_ID@,
        ix_data.len() >= 16,
        spec_u16_of_le(ix_data[6], ix_data[7]) + 32 <= ix_data.len(),
        spec_u16_of_le(ix_data[10], ix_data[11]) + spec_u16_of_le(ix_data[12], ix_data[13])
            <= ix_data.len(),
        ix_data.subrange(
            spec_u16_of_le(ix_data[10], ix_data[11]),
            spec_u16_of_le(ix_data[10], ix_data[11]) + spec_u16_of_le(ix_data[12], ix_data[13]),
        ) != keccak_of(spec_serialize_payload(payload)),
    ensures
        spec_create_err(
            payload,
            side,
            payer,
            registry,
            None,
            order_key,
            amount,
            maker_account,
            escrow_slot,
            ix_program_id,
            ix_data,
            now,
        ) == Some(ErrorCode::InvalidOracleSig),
{
}

/// Overflow in the buyer's total `amount * price + fee` is rejected before
/// anything else is looked at — in particular before any fund movement:
/// the whole Create is refused with `Overflow` and, by `buy`'s contract,
/// every balance stays unchanged.
pub proof fn lemma_buy_overflow_rejected(ctx: CreateBuyOrder, payload: OrderPayload, now: i64)
    requires
        payload.amount * payload.price + payload.fee > u64::MAX,
    ensures
        spec_buy_err(ctx, payload, now) == Some(ErrorCode::Overflow),
{
}

} // verus!
