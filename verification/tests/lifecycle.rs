//! End-to-end scenarios of the order lifecycle: create, cancel, process,
//! execute, and the rejections each stage owes.

use ticker_token::codec::serialize_payload;
use ticker_token::errors::ErrorCode;
use ticker_token::order::cancel::CancelOrder;
use ticker_token::order::create::{CreateBuyOrder, CreateSellOrder};
use ticker_token::order::execute::{ExecuteOrder, ProcessOrder};
use ticker_token::order::state::{Order, TokenAccount};
use ticker_token::order::types::{OrderPayload, OrderSide, OrderStatus};
use ticker_token::utils::ED25519_PROGRAM_ID;
use ticker_token::{
    cancel_order, create_buy_order, create_sell_order, execute_order, process_order, Registry,
};

fn key(n: u8) -> [u8; 32] {
    [n; 32]
}

const MAKER: u8 = 9;
const ORACLE: u8 = 10;
const TICKER_MINT: u8 = 1;
const PAYMENT_MINT: u8 = 2;
const ORDER_KEY: u8 = 20;
const NOW: i64 = 500_000;

fn base_payload() -> OrderPayload {
    OrderPayload {
        id: 7,
        market: true,
        ticker_mint: key(TICKER_MINT),
        amount: 3,
        payment_mint: key(PAYMENT_MINT),
        price: 50,
        fee: 7,
        expires_at: 1_000_000,
    }
}

fn registry() -> Registry {
    Registry { authority: key(8), oracle: key(ORACLE) }
}

fn ed25519_record(pubkey: &[u8; 32], msg: &[u8]) -> Vec<u8> {
    let mut data = vec![1u8, 0u8];
    let fields: [u16; 7] = [48, 0xffff, 16, 0xffff, 112, msg.len() as u16, 0xffff];
    for v in fields {
        data.extend_from_slice(&v.to_le_bytes());
    }
    data.extend_from_slice(pubkey);
    data.extend_from_slice(&[0u8; 64]);
    data.extend_from_slice(msg);
    data
}

fn attestation_for(oracle: &[u8; 32], payload: &OrderPayload) -> Vec<u8> {
    let bytes = serialize_payload(payload);
    let digest = anchor_lang::solana_program::keccak::hash(&bytes).0;
    ed25519_record(oracle, &digest)
}

fn buy_ctx(payload: &OrderPayload) -> CreateBuyOrder {
    CreateBuyOrder {
        payer: key(MAKER),
        registry: registry(),
        order_key: key(ORDER_KEY),
        order: None,
        maker_payment_account: TokenAccount {
            owner: key(MAKER),
            mint: key(PAYMENT_MINT),
            balance: 1000,
        },
        maker_ticker_account: TokenAccount { owner: key(MAKER), mint: key(TICKER_MINT), balance: 0 },
        escrow_account: None,
        ix_program_id: ED25519_PROGRAM_ID,
        ix_data: attestation_for(&key(ORACLE), payload),
    }
}

fn sell_ctx(payload: &OrderPayload) -> CreateSellOrder {
    CreateSellOrder {
        payer: key(MAKER),
        registry: registry(),
        order_key: key(ORDER_KEY),
        order: None,
        maker_ticker_account: TokenAccount {
            owner: key(MAKER),
            mint: key(TICKER_MINT),
            balance: 40,
        },
        escrow_account: None,
        ix_program_id: ED25519_PROGRAM_ID,
        ix_data: attestation_for(&key(ORACLE), payload),
    }
}

fn processing_order(payload: &OrderPayload, side: OrderSide) -> Order {
    Order {
        id: payload.id,
        side,
        market: payload.market,
        maker: key(MAKER),
        ticker_mint: payload.ticker_mint,
        amount: payload.amount,
        payment_mint: payload.payment_mint,
        price: payload.price,
        fee: payload.fee,
        status: OrderStatus::Processing,
        expires_at: payload.expires_at,
    }
}

#[test]
fn buy_create_locks_exactly_the_total() {
    let payload = base_payload();
    let mut ctx = buy_ctx(&payload);
    let ev = create_buy_order(&mut ctx, &payload, NOW).expect("valid buy intent");
    // total = 3 * 50 + 7
    let escrow = ctx.escrow_account.expect("escrow created");
    assert_eq!(escrow.balance, 157);
    assert_eq!(escrow.mint, key(PAYMENT_MINT));
    assert_eq!(escrow.owner, key(ORDER_KEY));
    assert_eq!(ctx.maker_payment_account.balance, 1000 - 157);
    let order = ctx.order.expect("order written");
    assert_eq!(order.status, OrderStatus::Pending);
    assert_eq!(order.side, OrderSide::Buy);
    assert_eq!(order.maker, key(MAKER));
    assert_eq!(order.amount, 3);
    assert_eq!(ev.id, 7);
    assert_eq!(ev.created_at, NOW);
    assert_eq!(ev.expires_at, 1_000_000);
}

#[test]
fn sell_create_locks_exactly_the_amount() {
    let payload = base_payload();
    let mut ctx = sell_ctx(&payload);
    create_sell_order(&mut ctx, &payload, NOW).expect("valid sell intent");
    let escrow = ctx.escrow_account.expect("escrow created");
    assert_eq!(escrow.balance, 3);
    assert_eq!(escrow.mint, key(TICKER_MINT));
    assert_eq!(ctx.maker_ticker_account.balance, 40 - 3);
    assert_eq!(ctx.order.expect("order").side, OrderSide::Sell);
}

#[test]
fn create_then_cancel_restores_the_maker_balance() {
    let payload = base_payload();
    let mut ctx = buy_ctx(&payload);
    create_buy_order(&mut ctx, &payload, NOW).expect("valid buy intent");
    let mut cancel_ctx = CancelOrder {
        payer: key(MAKER),
        order_key: key(ORDER_KEY),
        order: ctx.order,
        escrow_account: ctx.escrow_account,
        refund_account: ctx.maker_payment_account,
    };
    let ev = cancel_order(&mut cancel_ctx, payload.id, NOW + 1).expect("cancellable");
    assert_eq!(cancel_ctx.refund_account.balance, 1000);
    assert!(cancel_ctx.order.is_none());
    assert!(cancel_ctx.escrow_account.is_none());
    assert_eq!(ev.id, 7);
    assert_eq!(ev.maker, key(MAKER));
    assert_eq!(ev.timestamp, NOW + 1);
}

#[test]
fn execute_buy_pays_the_pool_and_mints_to_the_maker() {
    let payload = base_payload();
    let mut ctx = ExecuteOrder {
        payer: key(ORACLE),
        registry: registry(),
        order_key: key(ORDER_KEY),
        order: Some(processing_order(&payload, OrderSide::Buy)),
        maker: key(MAKER),
        maker_account: TokenAccount { owner: key(MAKER), mint: key(TICKER_MINT), balance: 1 },
        escrow_account: Some(TokenAccount {
            owner: key(ORDER_KEY),
            mint: key(PAYMENT_MINT),
            balance: 157,
        }),
        pool: TokenAccount { owner: key(ORACLE), mint: key(PAYMENT_MINT), balance: 10_000 },
        ticker_supply: 500,
    };
    let ev = execute_order(&mut ctx, payload.id, 0, vec![0xAB; 34], NOW + 2).expect("executable");
    assert_eq!(ctx.pool.balance, 10_000 + 157);
    assert_eq!(ctx.maker_account.balance, 1 + 3);
    assert_eq!(ctx.ticker_supply, 500 + 3);
    assert!(ctx.order.is_none());
    assert!(ctx.escrow_account.is_none());
    assert_eq!(ev.proof_cid, vec![0xAB; 34]);
    assert_eq!(ev.amount, 3);
    assert_eq!(ev.timestamp, NOW + 2);
}

#[test]
fn execute_sell_pays_the_maker_and_burns_the_escrow() {
    let payload = base_payload();
    let mut ctx = ExecuteOrder {
        payer: key(ORACLE),
        registry: registry(),
        order_key: key(ORDER_KEY),
        order: Some(processing_order(&payload, OrderSide::Sell)),
        maker: key(MAKER),
        maker_account: TokenAccount { owner: key(MAKER), mint: key(PAYMENT_MINT), balance: 5 },
        escrow_account: Some(TokenAccount {
            owner: key(ORDER_KEY),
            mint: key(TICKER_MINT),
            balance: 3,
        }),
        pool: TokenAccount { owner: key(ORACLE), mint: key(PAYMENT_MINT), balance: 10_000 },
        ticker_supply: 500,
    };
    execute_order(&mut ctx, payload.id, 0, Vec::new(), NOW + 2).expect("executable");
    // proceeds = 3 * 50 - 7
    assert_eq!(ctx.pool.balance, 10_000 - 143);
    assert_eq!(ctx.maker_account.balance, 5 + 143);
    assert_eq!(ctx.ticker_supply, 500 - 3);
    assert!(ctx.order.is_none());
    assert!(ctx.escrow_account.is_none());
}

#[test]
fn execute_sell_rejects_non_positive_proceeds() {
    let mut payload = base_payload();
    payload.amount = 1;
    payload.price = 7;
    payload.fee = 7;
    let mut ctx = ExecuteOrder {
        payer: key(ORACLE),
        registry: registry(),
        order_key: key(ORDER_KEY),
        order: Some(processing_order(&payload, OrderSide::Sell)),
        maker: key(MAKER),
        maker_account: TokenAccount { owner: key(MAKER), mint: key(PAYMENT_MINT), balance: 5 },
        escrow_account: Some(TokenAccount {
            owner: key(ORDER_KEY),
            mint: key(TICKER_MINT),
            balance: 1,
        }),
        pool: TokenAccount { owner: key(ORACLE), mint: key(PAYMENT_MINT), balance: 10_000 },
        ticker_supply: 500,
    };
    assert_eq!(
        execute_order(&mut ctx, payload.id, 0, Vec::new(), NOW + 2),
        Err(ErrorCode::InvalidSellAmount)
    );
    assert_eq!(ctx.pool.balance, 10_000);
    assert_eq!(ctx.ticker_supply, 500);
    assert!(ctx.order.is_some());
}

#[test]
fn double_create_fails_and_changes_nothing() {
    let payload = base_payload();
    let mut ctx = buy_ctx(&payload);
    create_buy_order(&mut ctx, &payload, NOW).expect("first create");
    let first_order = ctx.order;
    let first_escrow = ctx.escrow_account;
    let first_balance = ctx.maker_payment_account.balance;
    assert_eq!(
        create_buy_order(&mut ctx, &payload, NOW),
        Err(ErrorCode::DuplicateOrderId)
    );
    assert_eq!(ctx.order, first_order);
    assert_eq!(ctx.escrow_account, first_escrow);
    assert_eq!(ctx.maker_payment_account.balance, first_balance);
}

#[test]
fn expired_intent_is_rejected_despite_a_valid_attestation() {
    let payload = base_payload();
    let mut ctx = buy_ctx(&payload);
    assert_eq!(
        create_buy_order(&mut ctx, &payload, payload.expires_at + 1),
        Err(ErrorCode::PayloadExpired)
    );
    assert!(ctx.order.is_none());
    assert_eq!(ctx.maker_payment_account.balance, 1000);
}

#[test]
fn flipped_attestation_bit_is_rejected() {
    let payload = base_payload();
    let mut ctx = buy_ctx(&payload);
    // Flip one bit of the embedded digest.
    ctx.ix_data[112] ^= 0x01;
    assert_eq!(
        create_buy_order(&mut ctx, &payload, NOW),
        Err(ErrorCode::InvalidOracleSig)
    );
    assert!(ctx.order.is_none());
    assert_eq!(ctx.maker_payment_account.balance, 1000);
}

#[test]
fn altered_intent_fails_under_the_old_attestation() {
    let payload = base_payload();
    let mut ctx = buy_ctx(&payload);
    let mut sweeter = payload;
    sweeter.price = 1;
    assert_eq!(
        create_buy_order(&mut ctx, &sweeter, NOW),
        Err(ErrorCode::InvalidOracleSig)
    );
    assert!(ctx.order.is_none());
}

#[test]
fn cancel_after_process_fails() {
    let payload = base_payload();
    let mut ctx = buy_ctx(&payload);
    create_buy_order(&mut ctx, &payload, NOW).expect("create");
    let mut process_ctx =
        ProcessOrder { payer: key(ORACLE), registry: registry(), order: ctx.order };
    process_order(&mut process_ctx, NOW + 1).expect("processable");
    assert_eq!(
        process_ctx.order.expect("still open").status,
        OrderStatus::Processing
    );
    let mut cancel_ctx = CancelOrder {
        payer: key(MAKER),
        order_key: key(ORDER_KEY),
        order: process_ctx.order,
        escrow_account: ctx.escrow_account,
        refund_account: ctx.maker_payment_account,
    };
    assert_eq!(
        cancel_order(&mut cancel_ctx, payload.id, NOW + 2),
        Err(ErrorCode::OrderAlreadyProcessed)
    );
    assert!(cancel_ctx.order.is_some());
    assert_eq!(cancel_ctx.refund_account.balance, 1000 - 157);
}

#[test]
fn process_twice_fails_on_the_second_call() {
    let payload = base_payload();
    let mut ctx = buy_ctx(&payload);
    create_buy_order(&mut ctx, &payload, NOW).expect("create");
    let mut process_ctx =
        ProcessOrder { payer: key(ORACLE), registry: registry(), order: ctx.order };
    process_order(&mut process_ctx, NOW + 1).expect("first process");
    assert_eq!(
        process_order(&mut process_ctx, NOW + 2),
        Err(ErrorCode::OrderAlreadyProcessed)
    );
}

#[test]
fn overflowing_total_is_rejected_before_any_transfer() {
    let mut payload = base_payload();
    payload.amount = u64::MAX;
    payload.price = 2;
    let mut ctx = buy_ctx(&payload);
    assert_eq!(
        create_buy_order(&mut ctx, &payload, NOW),
        Err(ErrorCode::Overflow)
    );
    assert!(ctx.order.is_none());
    assert!(ctx.escrow_account.is_none());
    assert_eq!(ctx.maker_payment_account.balance, 1000);
}

#[test]
fn unset_oracle_key_is_rejected() {
    let payload = base_payload();
    let mut ctx = buy_ctx(&payload);
    ctx.registry.oracle = [0u8; 32];
    assert_eq!(
        create_buy_order(&mut ctx, &payload, NOW),
        Err(ErrorCode::InvalidOracle)
    );
}

#[test]
fn insufficient_maker_funds_are_rejected() {
    let payload = base_payload();
    let mut ctx = buy_ctx(&payload);
    ctx.maker_payment_account.balance = 156;
    assert_eq!(
        create_buy_order(&mut ctx, &payload, NOW),
        Err(ErrorCode::InsufficientFunds)
    );
}

#[test]
fn foreign_funding_account_is_rejected() {
    let payload = base_payload();
    let mut ctx = buy_ctx(&payload);
    ctx.maker_payment_account.owner = key(33);
    assert_eq!(
        create_buy_order(&mut ctx, &payload, NOW),
        Err(ErrorCode::InvalidUserTokenAccount)
    );
}

#[test]
fn mismatched_existing_escrow_is_rejected() {
    let payload = base_payload();
    let mut ctx = buy_ctx(&payload);
    ctx.escrow_account =
        Some(TokenAccount { owner: key(ORDER_KEY), mint: key(TICKER_MINT), balance: 0 });
    assert_eq!(
        create_buy_order(&mut ctx, &payload, NOW),
        Err(ErrorCode::InvalidEscrowMint)
    );
    ctx.escrow_account =
        Some(TokenAccount { owner: key(33), mint: key(PAYMENT_MINT), balance: 0 });
    assert_eq!(
        create_buy_order(&mut ctx, &payload, NOW),
        Err(ErrorCode::InvalidEscrowOwner)
    );
}

#[test]
fn cancel_guards_reject_wrong_caller_id_and_accounts() {
    let payload = base_payload();
    let mut ctx = buy_ctx(&payload);
    create_buy_order(&mut ctx, &payload, NOW).expect("create");
    let base = CancelOrder {
        payer: key(MAKER),
        order_key: key(ORDER_KEY),
        order: ctx.order,
        escrow_account: ctx.escrow_account,
        refund_account: ctx.maker_payment_account,
    };

    let mut wrong_caller = CancelOrder { payer: key(33), ..base };
    assert_eq!(
        cancel_order(&mut wrong_caller, payload.id, NOW),
        Err(ErrorCode::Unauthorized)
    );

    let mut wrong_id = CancelOrder { ..base };
    assert_eq!(
        cancel_order(&mut wrong_id, payload.id + 1, NOW),
        Err(ErrorCode::InvalidPDA)
    );

    let mut no_escrow = CancelOrder { escrow_account: None, ..base };
    assert_eq!(
        cancel_order(&mut no_escrow, payload.id, NOW),
        Err(ErrorCode::InvalidEscrowAccount)
    );

    let mut foreign_refund = CancelOrder {
        refund_account: TokenAccount { owner: key(33), mint: key(PAYMENT_MINT), balance: 0 },
        ..base
    };
    assert_eq!(
        cancel_order(&mut foreign_refund, payload.id, NOW),
        Err(ErrorCode::InvalidRefundOwner)
    );

    let mut wrong_refund_mint = CancelOrder {
        refund_account: TokenAccount { owner: key(MAKER), mint: key(TICKER_MINT), balance: 0 },
        ..base
    };
    assert_eq!(
        cancel_order(&mut wrong_refund_mint, payload.id, NOW),
        Err(ErrorCode::InvalidRefundMint)
    );

    let mut vanished = CancelOrder { order: None, ..base };
    assert_eq!(
        cancel_order(&mut vanished, payload.id, NOW),
        Err(ErrorCode::OrderAlreadyProcessed)
    );
}

#[test]
fn execute_guards_reject_wrong_caller_maker_and_accounts() {
    let payload = base_payload();
    let base = ExecuteOrder {
        payer: key(ORACLE),
        registry: registry(),
        order_key: key(ORDER_KEY),
        order: Some(processing_order(&payload, OrderSide::Buy)),
        maker: key(MAKER),
        maker_account: TokenAccount { owner: key(MAKER), mint: key(TICKER_MINT), balance: 0 },
        escrow_account: Some(TokenAccount {
            owner: key(ORDER_KEY),
            mint: key(PAYMENT_MINT),
            balance: 157,
        }),
        pool: TokenAccount { owner: key(ORACLE), mint: key(PAYMENT_MINT), balance: 0 },
        ticker_supply: 0,
    };

    let mut not_oracle = ExecuteOrder { payer: key(33), ..base.clone() };
    assert_eq!(
        execute_order(&mut not_oracle, payload.id, 0, Vec::new(), NOW),
        Err(ErrorCode::Unauthorized)
    );

    let mut wrong_maker = ExecuteOrder { maker: key(33), ..base.clone() };
    wrong_maker.maker_account.owner = key(33);
    assert_eq!(
        execute_order(&mut wrong_maker, payload.id, 0, Vec::new(), NOW),
        Err(ErrorCode::InvalidMaker)
    );

    let mut foreign_receiver = ExecuteOrder {
        maker_account: TokenAccount { owner: key(33), mint: key(TICKER_MINT), balance: 0 },
        ..base.clone()
    };
    assert_eq!(
        execute_order(&mut foreign_receiver, payload.id, 0, Vec::new(), NOW),
        Err(ErrorCode::InvalidMakerAccount)
    );

    let mut wrong_receiver_mint = ExecuteOrder {
        maker_account: TokenAccount { owner: key(MAKER), mint: key(PAYMENT_MINT), balance: 0 },
        ..base.clone()
    };
    assert_eq!(
        execute_order(&mut wrong_receiver_mint, payload.id, 0, Vec::new(), NOW),
        Err(ErrorCode::InvalidMakerMint)
    );

    let mut wrong_pool_mint = ExecuteOrder {
        pool: TokenAccount { owner: key(ORACLE), mint: key(TICKER_MINT), balance: 0 },
        ..base.clone()
    };
    assert_eq!(
        execute_order(&mut wrong_pool_mint, payload.id, 0, Vec::new(), NOW),
        Err(ErrorCode::InvalidPaymentMint)
    );

    let mut pending = ExecuteOrder { ..base.clone() };
    pending.order = Some(Order {
        status: OrderStatus::Pending,
        ..processing_order(&payload, OrderSide::Buy)
    });
    assert_eq!(
        execute_order(&mut pending, payload.id, 0, Vec::new(), NOW),
        Err(ErrorCode::OrderAlreadyProcessed)
    );

    let mut sell_pool_short = ExecuteOrder {
        order: Some(processing_order(&payload, OrderSide::Sell)),
        maker_account: TokenAccount { owner: key(MAKER), mint: key(PAYMENT_MINT), balance: 0 },
        escrow_account: Some(TokenAccount {
            owner: key(ORDER_KEY),
            mint: key(TICKER_MINT),
            balance: 3,
        }),
        pool: TokenAccount { owner: key(ORACLE), mint: key(PAYMENT_MINT), balance: 100 },
        ..base.clone()
    };
    assert_eq!(
        execute_order(&mut sell_pool_short, payload.id, 0, Vec::new(), NOW),
        Err(ErrorCode::InsufficientFunds)
    );
}

#[test]
fn overfull_escrow_cannot_be_closed_by_cancel() {
    let payload = base_payload();
    let mut ctx = buy_ctx(&payload);
    create_buy_order(&mut ctx, &payload, NOW).expect("create");
    let mut escrow = ctx.escrow_account.expect("escrow");
    escrow.balance += 1;
    let mut cancel_ctx = CancelOrder {
        payer: key(MAKER),
        order_key: key(ORDER_KEY),
        order: ctx.order,
        escrow_account: Some(escrow),
        refund_account: ctx.maker_payment_account,
    };
    assert_eq!(
        cancel_order(&mut cancel_ctx, payload.id, NOW),
        Err(ErrorCode::InvalidEscrowAccount)
    );
    assert!(cancel_ctx.order.is_some());
    assert_eq!(cancel_ctx.refund_account.balance, 1000 - 157);
}
