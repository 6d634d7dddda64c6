//! Tests of the serialization codec, the signature admission gate, and the
//! address integrity checker, against the real platform primitives.

use ticker_token::codec::serialize_payload;
use ticker_token::errors::ErrorCode;
use ticker_token::order::types::OrderPayload;
use ticker_token::utils::{
    assert_ata, assert_pda, check_escrow_address, check_order_address, check_pool_address,
    order_seeds, verify_ed25519_ix, ED25519_PROGRAM_ID,
};

fn key(n: u8) -> [u8; 32] {
    [n; 32]
}

fn base_payload() -> OrderPayload {
    OrderPayload {
        id: 7,
        market: true,
        ticker_mint: key(1),
        amount: 3,
        payment_mint: key(2),
        price: 50,
        fee: 7,
        expires_at: 1_000_000,
    }
}

/// Builds an ed25519 signature-verification instruction record: a 16-byte
/// offset table, the public key at 16, a signature placeholder at 48, the
/// message at 112.
fn ed25519_record(pubkey: &[u8; 32], msg: &[u8]) -> Vec<u8> {
    let mut data = vec![1u8, 0u8];
    let fields: [u16; 7] = [48, 0xffff, 16, 0xffff, 112, msg.len() as u16, 0xffff];
    for v in fields {
        data.extend_from_slice(&v.to_le_bytes());
    }
    data.extend_from_slice(pubkey);
    data.extend_from_slice(&[0u8; 64]);
    data.extend_from_slice(msg);
    data
}

#[test]
fn serialization_layout_is_exact() {
    let p = base_payload();
    let bytes = serialize_payload(&p);
    let mut expected: Vec<u8> = Vec::new();
    expected.extend_from_slice(&7u64.to_le_bytes());
    expected.push(1);
    expected.extend_from_slice(&key(1));
    expected.extend_from_slice(&3u64.to_le_bytes());
    expected.extend_from_slice(&key(2));
    expected.extend_from_slice(&50u64.to_le_bytes());
    expected.extend_from_slice(&7u64.to_le_bytes());
    expected.extend_from_slice(&1_000_000i64.to_le_bytes());
    assert_eq!(bytes, expected);
    assert_eq!(bytes.len(), 105);
}

#[test]
fn serialization_negative_expiry_is_twos_complement() {
    let mut p = base_payload();
    p.expires_at = -2;
    p.market = false;
    let bytes = serialize_payload(&p);
    assert_eq!(&bytes[97..105], &(-2i64).to_le_bytes());
    assert_eq!(bytes[8], 0);
}

#[test]
fn ed25519_program_id_matches_the_platform() {
    assert_eq!(
        ED25519_PROGRAM_ID,
        anchor_lang::solana_program::ed25519_program::ID.to_bytes()
    );
}

#[test]
fn admission_accepts_a_matching_record() {
    let oracle = key(10);
    let msg = [5u8; 32];
    let data = ed25519_record(&oracle, &msg);
    assert_eq!(
        verify_ed25519_ix(&ED25519_PROGRAM_ID, &data, &oracle, &msg),
        Ok(())
    );
}

#[test]
fn admission_rejects_a_foreign_program() {
    let oracle = key(10);
    let msg = [5u8; 32];
    let data = ed25519_record(&oracle, &msg);
    assert_eq!(
        verify_ed25519_ix(&key(3), &data, &oracle, &msg),
        Err(ErrorCode::InvalidSignatureInstruction)
    );
}

#[test]
fn admission_rejects_a_truncated_record() {
    let oracle = key(10);
    let data = vec![1u8, 0, 0, 0];
    assert_eq!(
        verify_ed25519_ix(&ED25519_PROGRAM_ID, &data, &oracle, &[5u8; 32]),
        Err(ErrorCode::InvalidSignatureInstruction)
    );
}

#[test]
fn admission_rejects_offsets_past_the_end() {
    let oracle = key(10);
    let msg = [5u8; 32];
    let mut data = ed25519_record(&oracle, &msg);
    // Declare a message length that runs past the record's end.
    data[12] = 0xff;
    data[13] = 0xff;
    assert_eq!(
        verify_ed25519_ix(&ED25519_PROGRAM_ID, &data, &oracle, &msg),
        Err(ErrorCode::InvalidSignatureInstruction)
    );
}

#[test]
fn admission_rejects_a_foreign_key() {
    let msg = [5u8; 32];
    let data = ed25519_record(&key(11), &msg);
    assert_eq!(
        verify_ed25519_ix(&ED25519_PROGRAM_ID, &data, &key(10), &msg),
        Err(ErrorCode::InvalidOracleSig)
    );
}

#[test]
fn admission_rejects_a_single_flipped_bit() {
    let oracle = key(10);
    let msg = [5u8; 32];
    let mut data = ed25519_record(&oracle, &msg);
    let msg_start = 112;
    data[msg_start] ^= 0x01;
    assert_eq!(
        verify_ed25519_ix(&ED25519_PROGRAM_ID, &data, &oracle, &msg),
        Err(ErrorCode::InvalidOracleSig)
    );
}

#[test]
fn order_seeds_spell_out_the_derivation() {
    let maker = key(9);
    let seeds = order_seeds(&maker, 7);
    assert_eq!(seeds.len(), 3);
    assert_eq!(seeds[0], b"order".to_vec());
    assert_eq!(seeds[1], maker.to_vec());
    assert_eq!(seeds[2], 7u64.to_le_bytes().to_vec());
}

#[test]
fn pda_check_accepts_the_real_derivation_and_rejects_others() {
    let maker = key(9);
    let program = anchor_lang::prelude::Pubkey::new_from_array(ticker_token::ID);
    let id_bytes = 7u64.to_le_bytes();
    let seed_refs: [&[u8]; 3] = [b"order", &maker, &id_bytes];
    let (expected, _bump) =
        anchor_lang::prelude::Pubkey::find_program_address(&seed_refs, &program);
    let seeds = order_seeds(&maker, 7);
    assert_eq!(assert_pda(expected.to_bytes(), &seeds), Ok(()));
    assert_eq!(check_order_address(expected.to_bytes(), &maker, 7), Ok(()));
    assert_eq!(
        assert_pda(key(33), &seeds),
        Err(ErrorCode::InvalidPDA)
    );
    assert_eq!(
        check_order_address(key(33), &maker, 7),
        Err(ErrorCode::InvalidPDA)
    );
}

#[test]
fn escrow_and_pool_addresses_follow_their_seeds() {
    let program = anchor_lang::prelude::Pubkey::new_from_array(ticker_token::ID);
    let order_key = key(20);
    let escrow_refs: [&[u8]; 2] = [b"escrow", &order_key];
    let (escrow, _) = anchor_lang::prelude::Pubkey::find_program_address(&escrow_refs, &program);
    assert_eq!(check_escrow_address(escrow.to_bytes(), &order_key), Ok(()));
    assert_eq!(
        check_escrow_address(key(34), &order_key),
        Err(ErrorCode::InvalidPDA)
    );

    let ticker_mint = key(1);
    let payment_mint = key(2);
    let pool_refs: [&[u8]; 3] = [b"pool", &ticker_mint, &payment_mint];
    let (pool, _) = anchor_lang::prelude::Pubkey::find_program_address(&pool_refs, &program);
    assert_eq!(
        check_pool_address(pool.to_bytes(), &ticker_mint, &payment_mint),
        Ok(())
    );
    assert_eq!(
        check_pool_address(key(35), &ticker_mint, &payment_mint),
        Err(ErrorCode::InvalidPDA)
    );
}

#[test]
fn ata_check_accepts_the_real_derivation_and_rejects_others() {
    let owner = key(9);
    let mint = key(1);
    let expected = anchor_spl::associated_token::get_associated_token_address(
        &anchor_lang::prelude::Pubkey::new_from_array(owner),
        &anchor_lang::prelude::Pubkey::new_from_array(mint),
    );
    assert_eq!(assert_ata(expected.to_bytes(), &owner, &mint), Ok(()));
    assert_eq!(
        assert_ata(key(36), &owner, &mint),
        Err(ErrorCode::InvalidATA)
    );
}
