//! The ledger's canonical structures, in the shape that the wire codec takes.
//!
//! These are plain carriers: every rule is enforced by the builder that fills
//! them, and nothing in this module can fail.

use vstd::prelude::*;

verus! {

/// A 256-bit value: an ed25519 public key.
#[derive(Clone, Copy, Debug, PartialEq, Eq)]
pub struct Uint256(pub [u8; 32]);

/// An account key together with the sub-account id that multiplexes it.
#[derive(Clone, Copy, Debug, PartialEq, Eq)]
pub struct MuxedAccountMed25519 {
    pub id: u64,
    pub ed25519: Uint256,
}

/// A ledger-level account identity: a plain key, or a key with a sub-account id.
#[derive(Clone, Copy, Debug, PartialEq, Eq)]
pub enum MuxedAccount {
    Ed25519(Uint256),
    MuxedEd25519(MuxedAccountMed25519),
}

/// An issued asset whose code has at most four characters.
#[derive(Clone, Copy, Debug, PartialEq, Eq)]
pub struct AlphaNum4 {
    pub asset_code: [u8; 4],
    pub issuer: Uint256,
}

/// An issued asset whose code has five to twelve characters.
#[derive(Clone, Copy, Debug, PartialEq, Eq)]
pub struct AlphaNum12 {
    pub asset_code: [u8; 12],
    pub issuer: Uint256,
}

/// An asset: the native currency, or a code under an issuer's key.
#[derive(Clone, Copy, Debug, PartialEq, Eq)]
pub enum Asset {
    Native,
    CreditAlphanum4(AlphaNum4),
    CreditAlphanum12(AlphaNum12),
}

/// The body of a payment.
#[derive(Clone, Copy, Debug, PartialEq, Eq)]
pub struct PaymentOp {
    pub destination: MuxedAccount,
    pub asset: Asset,
    pub amount: i64,
}

/// One variant per kind of operation, each with the fields of that kind only.
#[derive(Clone, Copy, Debug, PartialEq, Eq)]
pub enum OperationBody {
    Payment(PaymentOp),
}

/// An operation as the ledger takes it: the body, and the account that it acts
/// for where that is not the transaction's own source.
#[derive(Clone, Copy, Debug, PartialEq, Eq)]
pub struct Operation {
    pub source_account: Option<MuxedAccount>,
    pub body: OperationBody,
}

} // verus!
