//! Error taxonomy of the settlement engine.
//!
//! Every operation rejects synchronously with one of these codes and makes
//! no state change when it does: there is no partial-success outcome.

use vstd::prelude::*;

verus! {

/// Errors of the administrative (registry and ticker) operations.
#[derive(Clone, Copy, PartialEq, Eq, Structural, Debug)]
pub enum TickerError {
    Unauthorized,
    TickerTooLong,
    InvalidAuthority,
    InvalidMetadataPda,
}

/// Errors of the order lifecycle operations.
#[derive(Clone, Copy, PartialEq, Eq, Structural, Debug)]
pub enum ErrorCode {
    /// Oracle public key is not set in the registry.
    InvalidOracle,
    /// The attestation's embedded key or message does not match.
    InvalidOracleSig,
    /// The intent's expiry lies before the clock reading.
    PayloadExpired,
    /// Checked arithmetic overflowed or underflowed.
    Overflow,
    /// The maker's funding account is not owned by the maker or holds the
    /// wrong asset.
    InvalidUserTokenAccount,
    /// Vault address mismatch or not found.
    InvalidVaultAccount,
    /// Escrow account missing or not in the state the operation needs.
    InvalidEscrowAccount,
    /// The caller is not entitled to this operation.
    Unauthorized,
    /// An order with the same id already exists for this maker.
    DuplicateOrderId,
    /// The co-submitted record is not a well-formed signature-verification
    /// instruction of the ed25519 native program.
    InvalidSignatureInstruction,
    /// A derived sub-account address does not match its seeds.
    InvalidPDA,
    /// An associated holding account address does not match its derivation.
    InvalidATA,
    InvalidOrderSide,
    InvalidOrderType,
    /// A transfer asks for more than the source account holds.
    InsufficientFunds,
    /// The order is not in the status this transition requires.
    OrderAlreadyProcessed,
    /// The escrow account's asset differs from the leg it custodies.
    InvalidEscrowMint,
    /// The escrow account's spending authority is not the order.
    InvalidEscrowOwner,
    /// The refund account's asset differs from the refunded leg.
    InvalidRefundMint,
    /// The refund account is not owned by the maker.
    InvalidRefundOwner,
    /// No viable bump seed exists for the requested derivation.
    BumpNotFound,
    /// The maker's receiving account holds the wrong asset.
    InvalidMakerMint,
    /// The maker account handed in does not match the order's maker.
    InvalidMaker,
    /// The maker's token account is not owned by the maker.
    InvalidMakerAccount,
    InvalidPaymentMint,
    InvalidTickerMint,
    InvalidMakerPaymentAccount,
    /// Sell proceeds after the fee would not be positive.
    InvalidSellAmount,
}

} // verus!
