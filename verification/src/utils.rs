//! The signature admission gate and the address integrity checker, together
//! with the trusted bridges to the platform primitives they rest on: the
//! keccak digest, program-derived addresses, and associated token addresses.

use vstd::prelude::*;

use crate::codec::{spec_u16_of_le, spec_u64_le, u16_of_le};
use crate::errors::ErrorCode;
use crate::order::types::{pubkey_eq, Pubkey};

verus! {

/// Identifier of the platform's native ed25519 signature-verification
/// program ("Ed25519SigVerify111111111111111111111111111"): a co-submitted
/// attestation record counts only when it is an instruction of this program.
pub const ED25519_PROGRAM_ID: Pubkey = [
    3, 125, 70, 214, 124, 147, 251, 190, 18, 249, 66, 143, 131, 141, 64, 255, 5, 112, 116, 73, 39,
    244, 138, 100, 252, 202, 112, 68, 128, 0, 0, 0,
];

/// The 32-byte keccak digest of a byte string.
pub uninterp spec fn keccak_of(bytes: Seq<u8>) -> Seq<u8>;

/// Relies on `anchor_lang::solana_program::keccak::hash`: the 32-byte
/// keccak-256 digest, a function of the input bytes alone.
#[verifier::external_body]
pub(crate) fn keccak_hash(bytes: &Vec<u8>) -> (r: [u8; 32])
    ensures
        r@ == keccak_of(bytes@),
{
    anchor_lang::solana_program::keccak::hash(bytes.as_slice()).0
}

/// The program-derived address and bump for a seed tuple under a program
/// id, or `None` when no bump seed yields a valid address.
pub uninterp spec fn pda_of(seeds: Seq<Seq<u8>>, program_id: Seq<u8>) -> Option<(Seq<u8>, u8)>;

/// Relies on `Pubkey::try_find_program_address`: the derived address and
/// bump depend on the seeds and the program id alone; `None` in the
/// statistically improbable case that no bump seed is viable.
#[verifier::external_body]
fn try_find_pda(seeds: &Vec<Vec<u8>>, program_id: &Pubkey) -> (r: Option<([u8; 32], u8)>)
    ensures
        match r {
            Some(p) => pda_of(seeds.deep_view(), program_id@) == Some((p.0@, p.1)),
            None => pda_of(seeds.deep_view(), program_id@) is None,
        },
{
    let key = anchor_lang::prelude::Pubkey::new_from_array(*program_id);
    let seed_refs: Vec<&[u8]> = seeds.iter().map(|s| s.as_slice()).collect();
    anchor_lang::prelude::Pubkey::try_find_program_address(&seed_refs, &key).map(
        |p: (anchor_lang::prelude::Pubkey, u8)| (p.0.to_bytes(), p.1),
    )
}

/// The associated token address of a wallet for a mint.
pub uninterp spec fn ata_of(owner: Seq<u8>, mint: Seq<u8>) -> Seq<u8>;

/// Relies on `anchor_spl::associated_token::get_associated_token_address`:
/// the associated holding account address, a function of wallet and mint
/// alone.
#[verifier::external_body]
fn ata_address(owner: &Pubkey, mint: &Pubkey) -> (r: [u8; 32])
    ensures
        r@ == ata_of(owner@, mint@),
{
    anchor_spl::associated_token::get_associated_token_address(
        &anchor_lang::prelude::Pubkey::new_from_array(*owner),
        &anchor_lang::prelude::Pubkey::new_from_array(*mint),
    ).to_bytes()
}

/// Bytewise equality of two byte strings.
pub fn bytes_eq(a: &[u8], b: &[u8]) -> (r: bool)
    ensures
        r <==> a@ == b@,
{
    if a.len() != b.len() {
        return false;
    }
    let n = a.len();
    let mut i: usize = 0;
    while i < n
        invariant
            0 <= i <= n,
            n == a@.len() == b@.len(),
            forall|j: int| 0 <= j < i ==> a@[j] == b@[j],
        decreases n - i,
    {
        if a[i] != b[i] {
            return false;
        }
        i += 1;
    }
    assert(a@ =~= b@);
    true
}

/// Outcome of the signature admission gate on an attestation record.
///
/// The record must be an instruction of the ed25519 program, long enough to
/// hold its offset table, with its declared key and message ranges inside
/// the record; the embedded key and message must equal the expected key and
/// the expected digest exactly.
pub open spec fn spec_verify_ed25519_err(
    program_id: Seq<u8>,
    data: Seq<u8>,
    expected_pubkey: Seq<u8>,
    expected_msg: Seq<u8>,
) -> Option<ErrorCode> {
    if program_id != ED25519_PROGRAM_ID@ {
        Some(ErrorCode::InvalidSignatureInstruction)
    } else if data.len() < 16 {
        Some(ErrorCode::InvalidSignatureInstruction)
    } else {
        let pubkey_off = spec_u16_of_le(data[6], data[7]);
        let msg_off = spec_u16_of_le(data[10], data[11]);
        let msg_len = spec_u16_of_le(data[12], data[13]);
        if pubkey_off + 32 > data.len() || msg_off + msg_len > data.len() {
            Some(ErrorCode::InvalidSignatureInstruction)
        } else if data.subrange(pubkey_off, pubkey_off + 32) != expected_pubkey || data.subrange(
            msg_off,
            msg_off + msg_len,
        ) != expected_msg {
            Some(ErrorCode::InvalidOracleSig)
        } else {
            None
        }
    }
}

/// The signature admission gate: checks that the co-submitted attestation
/// record proves the expected key's signature over exactly the expected
/// message bytes (the intent digest).
///
/// Pure verification, no side effect; callers invoke it before any fund
/// movement. The cryptographic validity of the signature itself is the
/// ed25519 program's own check, performed by the platform on the same
/// record in the same atomic unit of work.
pub fn verify_ed25519_ix(
    program_id: &Pubkey,
    data: &Vec<u8>,
    expected_pubkey: &Pubkey,
    expected_msg: &[u8],
) -> (r: Result<(), ErrorCode>)
    ensures
        r is Ok <==> spec_verify_ed25519_err(program_id@, data@, expected_pubkey@, expected_msg@)
            is None,
        r is Err ==> Some(r->Err_0) == spec_verify_ed25519_err(
            program_id@,
            data@,
            expected_pubkey@,
            expected_msg@,
        ),
{
    if !pubkey_eq(program_id, &ED25519_PROGRAM_ID) {
        return Err(ErrorCode::InvalidSignatureInstruction);
    }
    if data.len() < 16 {
        return Err(ErrorCode::InvalidSignatureInstruction);
    }
    let pubkey_off = u16_of_le(data[6], data[7]) as usize;
    let msg_off = u16_of_le(data[10], data[11]) as usize;
    let msg_len = u16_of_le(data[12], data[13]) as usize;
    if pubkey_off + 32 > data.len() || msg_off + msg_len > data.len() {
        return Err(ErrorCode::InvalidSignatureInstruction);
    }
    let actual_pubkey = vstd::slice::slice_subrange(data.as_slice(), pubkey_off, pubkey_off + 32);
    let actual_msg = vstd::slice::slice_subrange(data.as_slice(), msg_off, msg_off + msg_len);
    if !bytes_eq(actual_pubkey, expected_pubkey.as_slice()) {
        return Err(ErrorCode::InvalidOracleSig);
    }
    if !bytes_eq(actual_msg, expected_msg) {
        return Err(ErrorCode::InvalidOracleSig);
    }
    Ok(())
}

/// Outcome of checking a claimed address against its seed derivation.
pub open spec fn spec_pda_err(account: Seq<u8>, seeds: Seq<Seq<u8>>, program_id: Seq<u8>) -> Option<
    ErrorCode,
> {
    match pda_of(seeds, program_id) {
        Some(p) => if p.0 == account {
            None
        } else {
            Some(ErrorCode::InvalidPDA)
        },
        None => Some(ErrorCode::BumpNotFound),
    }
}

/// The address integrity check for program-derived sub-accounts: recomputes
/// the derivation for `seeds` under this engine's program id and requires
/// bytewise equality with the claimed address. The engine never trusts a
/// caller-supplied address for a custody account.
pub fn assert_pda(account: Pubkey, seeds: &Vec<Vec<u8>>) -> (r: Result<(), ErrorCode>)
    ensures
        r is Ok <==> spec_pda_err(account@, seeds.deep_view(), crate::ID@) is None,
        r is Err ==> Some(r->Err_0) == spec_pda_err(account@, seeds.deep_view(), crate::ID@),
{
    match try_find_pda(seeds, &crate::ID) {
        Some(expected) => {
            if pubkey_eq(&account, &expected.0) {
                Ok(())
            } else {
                Err(ErrorCode::InvalidPDA)
            }
        },
        None => Err(ErrorCode::BumpNotFound),
    }
}

/// The address integrity check for associated holding accounts: recomputes
/// the associated token address of `owner` for `mint` and requires bytewise
/// equality with the claimed address.
pub fn assert_ata(account: Pubkey, owner: &Pubkey, mint: &Pubkey) -> (r: Result<(), ErrorCode>)
    ensures
        r is Ok <==> account@ == ata_of(owner@, mint@),
        r is Err ==> r->Err_0 == ErrorCode::InvalidATA && account@ != ata_of(owner@, mint@),
{
    let expected = ata_address(owner, mint);
    if pubkey_eq(&account, &expected) {
        Ok(())
    } else {
        Err(ErrorCode::InvalidATA)
    }
}

/// Seed tag of order records: the bytes of "order".
pub const ORDER_SEED: [u8; 5] = [111, 114, 100, 101, 114];

/// Seed tag of escrow sub-accounts: the bytes of "escrow".
pub const ESCROW_SEED: [u8; 6] = [101, 115, 99, 114, 111, 119];

/// Seed tag of liquidity pool sub-accounts: the bytes of "pool".
pub const POOL_SEED: [u8; 4] = [112, 111, 111, 108];

/// Seed tag of the registry record: the bytes of "registry".
pub const REGISTRY_SEED: [u8; 8] = [114, 101, 103, 105, 115, 116, 114, 121];

/// Seed tuple of the order record for `(maker, id)`: the uniqueness of this
/// derivation is what makes an order id unique per maker.
pub open spec fn spec_order_seeds(maker: Seq<u8>, id: u64) -> Seq<Seq<u8>> {
    seq![ORDER_SEED@, maker, spec_u64_le(id)]
}

/// Seed tuple of the escrow sub-account owned by the order at `order_key`.
pub open spec fn spec_escrow_seeds(order_key: Seq<u8>) -> Seq<Seq<u8>> {
    seq![ESCROW_SEED@, order_key]
}

/// Seed tuple of the liquidity pool for an asset pair.
pub open spec fn spec_pool_seeds(ticker_mint: Seq<u8>, payment_mint: Seq<u8>) -> Seq<Seq<u8>> {
    seq![POOL_SEED@, ticker_mint, payment_mint]
}

/// Seed tuple of the registry record.
pub open spec fn spec_registry_seeds() -> Seq<Seq<u8>> {
    seq![REGISTRY_SEED@]
}

/// Builds the order record's seed tuple for `(maker, id)`.
pub fn order_seeds(maker: &Pubkey, id: u64) -> (r: Vec<Vec<u8>>)
    ensures
        r.deep_view() == spec_order_seeds(maker@, id),
{
    let mut r: Vec<Vec<u8>> = Vec::new();
    r.push(vstd::slice::slice_to_vec(ORDER_SEED.as_slice()));
    r.push(vstd::slice::slice_to_vec(maker.as_slice()));
    let mut id_bytes: Vec<u8> = Vec::new();
    crate::codec::push_u64_le(&mut id_bytes, id);
    r.push(id_bytes);
    assert(r.deep_view() =~~= spec_order_seeds(maker@, id));
    r
}

/// Builds the escrow sub-account's seed tuple for the order at `order_key`.
pub fn escrow_seeds(order_key: &Pubkey) -> (r: Vec<Vec<u8>>)
    ensures
        r.deep_view() == spec_escrow_seeds(order_key@),
{
    let mut r: Vec<Vec<u8>> = Vec::new();
    r.push(vstd::slice::slice_to_vec(ESCROW_SEED.as_slice()));
    r.push(vstd::slice::slice_to_vec(order_key.as_slice()));
    assert(r.deep_view() =~~= spec_escrow_seeds(order_key@));
    r
}

/// Builds the liquidity pool's seed tuple for an asset pair.
pub fn pool_seeds(ticker_mint: &Pubkey, payment_mint: &Pubkey) -> (r: Vec<Vec<u8>>)
    ensures
        r.deep_view() == spec_pool_seeds(ticker_mint@, payment_mint@),
{
    let mut r: Vec<Vec<u8>> = Vec::new();
    r.push(vstd::slice::slice_to_vec(POOL_SEED.as_slice()));
    r.push(vstd::slice::slice_to_vec(ticker_mint.as_slice()));
    r.push(vstd::slice::slice_to_vec(payment_mint.as_slice()));
    assert(r.deep_view() =~~= spec_pool_seeds(ticker_mint@, payment_mint@));
    r
}

/// Checks a claimed order record address against its `(maker, id)`
/// derivation.
pub fn check_order_address(order_key: Pubkey, maker: &Pubkey, id: u64) -> (r: Result<
    (),
    ErrorCode,
>)
    ensures
        r is Ok <==> spec_pda_err(order_key@, spec_order_seeds(maker@, id), crate::ID@) is None,
        r is Err ==> Some(r->Err_0) == spec_pda_err(
            order_key@,
            spec_order_seeds(maker@, id),
            crate::ID@,
        ),
{
    let seeds = order_seeds(maker, id);
    assert_pda(order_key, &seeds)
}

/// Checks a claimed escrow address against its derivation from the order's
/// address.
pub fn check_escrow_address(escrow_key: Pubkey, order_key: &Pubkey) -> (r: Result<(), ErrorCode>)
    ensures
        r is Ok <==> spec_pda_err(escrow_key@, spec_escrow_seeds(order_key@), crate::ID@) is None,
        r is Err ==> Some(r->Err_0) == spec_pda_err(
            escrow_key@,
            spec_escrow_seeds(order_key@),
            crate::ID@,
        ),
{
    let seeds = escrow_seeds(order_key);
    assert_pda(escrow_key, &seeds)
}

/// Checks a claimed pool address against its derivation from the asset
/// pair.
pub fn check_pool_address(pool_key: Pubkey, ticker_mint: &Pubkey, payment_mint: &Pubkey) -> (r:
    Result<(), ErrorCode>)
    ensures
        r is Ok <==> spec_pda_err(
            pool_key@,
            spec_pool_seeds(ticker_mint@, payment_mint@),
            crate::ID@,
        ) is None,
        r is Err ==> Some(r->Err_0) == spec_pda_err(
            pool_key@,
            spec_pool_seeds(ticker_mint@, payment_mint@),
            crate::ID@,
        ),
{
    let seeds = pool_seeds(ticker_mint, payment_mint);
    assert_pda(pool_key, &seeds)
}

} // verus!
