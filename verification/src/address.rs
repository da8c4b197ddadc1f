//! Textual identifiers and the identities that they stand for.
//!
//! The text form (base32 with a version byte and a checksum) is the work of
//! `stellar_strkey`; this module names what that crate computes, tells the
//! three kinds of address apart, and maps the crate's errors to its own.

use stellar_strkey::{ed25519, DecodeError, Strkey};
use vstd::prelude::*;

use crate::xdr::{MuxedAccount, MuxedAccountMed25519, Uint256};

verus! {

/// What a textual address stands for.
#[derive(Clone, Copy, Debug, PartialEq, Eq)]
pub enum Address {
    /// An account, by its ed25519 public key.
    Plain([u8; 32]),
    /// A sub-account: an account's key and a 64-bit id under it.
    Multiplexed { key: [u8; 32], id: u64 },
    /// A contract. It is no account, and no payment can be sent to it.
    Contract([u8; 32]),
}

/// Why a text is no address.
#[derive(Clone, Copy, Debug, PartialEq, Eq)]
pub enum AddressError {
    /// The text is in none of the three encodings: a symbol outside the
    /// alphabet, a wrong length, a wrong checksum or another version byte.
    MalformedAddress,
}

/// The error of `stellar_strkey`'s decoder. It is carried through unopened:
/// whatever it says, the text is no address.
#[verifier::external_type_specification]
#[verifier::external_body]
pub struct ExDecodeError(stellar_strkey::DecodeError);

/// What `stellar_strkey::Strkey::from_string` returns for a text, with the
/// kinds that are no address folded into `Ok(None)`.
pub uninterp spec fn strkey_parse(text: Seq<char>) -> Result<Option<Address>, DecodeError>;

/// The text that `stellar_strkey::Strkey::to_string` gives for an address.
pub uninterp spec fn strkey_text(address: Address) -> Seq<char>;

/// Calls `stellar_strkey::Strkey::from_string`.
///
/// Trusted: the result is a function of the text alone, and a text that
/// decodes is the only text of what it decodes to. The crate accepts base32
/// without padding, in upper case and with zero trailing bits only, and the
/// payload of each of the three kinds has a fixed length, so encoding the
/// decoded value again yields the same characters.
#[verifier::external_body]
fn parse_strkey(text: &str) -> (r: Result<Option<Address>, DecodeError>)
    ensures
        r == strkey_parse(text@),
        r matches Ok(Some(a)) ==> strkey_text(a) == text@,
{
    match Strkey::from_string(text) {
        Ok(Strkey::PublicKeyEd25519(k)) => Ok(Some(Address::Plain(k.0))),
        Ok(Strkey::MuxedAccountEd25519(m)) => Ok(Some(Address::Multiplexed { key: m.ed25519, id: m.id })),
        Ok(Strkey::Contract(c)) => Ok(Some(Address::Contract(c.0))),
        Ok(_) => Ok(None),
        Err(e) => Err(e),
    }
}

/// Calls `stellar_strkey::Strkey::to_string`.
///
/// Trusted: the result is a function of the address alone, and it decodes to
/// that address again. The crate writes the version byte of the kind, the
/// payload and their checksum, which is what its decoder takes apart.
#[verifier::external_body]
fn render_strkey(address: &Address) -> (s: String)
    ensures
        s@ == strkey_text(*address),
        decodes_to(s@, *address),
{
    let key = match *address {
        Address::Plain(k) => Strkey::PublicKeyEd25519(ed25519::PublicKey(k)),
        Address::Multiplexed { key, id } => Strkey::MuxedAccountEd25519(ed25519::MuxedAccount { ed25519: key, id }),
        Address::Contract(k) => Strkey::Contract(stellar_strkey::Contract(k)),
    };
    key.to_string().as_str().to_owned()
}

/// Whether the codec decodes a text to this address.
pub open spec fn decodes_to(text: Seq<char>, address: Address) -> bool {
    strkey_parse(text) matches Ok(Some(a)) && a == address
}

/// The address that a text stands for: what the codec decodes it to, where
/// that is one of the three kinds of address.
pub open spec fn decode_spec(text: Seq<char>) -> Result<Address, AddressError> {
    resolve_spec(strkey_parse(text))
}

/// The text of an address.
pub open spec fn encode_spec(address: Address) -> Seq<char> {
    strkey_text(address)
}

/// What a decoded key is as an address: itself where the codec decoded one of
/// the three kinds, and malformed in every other case.
pub open spec fn resolve_spec(parsed: Result<Option<Address>, DecodeError>) -> Result<
    Address,
    AddressError,
> {
    match parsed {
        Ok(Some(address)) => Ok(address),
        _ => Err(AddressError::MalformedAddress),
    }
}

/// Turns the codec's answer into an address or this library's error.
pub fn resolve(parsed: Result<Option<Address>, DecodeError>) -> (r: Result<Address, AddressError>)
    ensures
        r == resolve_spec(parsed),
{
    match parsed {
        Ok(Some(address)) => Ok(address),
        Ok(None) => Err(AddressError::MalformedAddress),
        Err(_) => Err(AddressError::MalformedAddress),
    }
}

/// Decodes a textual address.
///
/// A text that decodes has exactly one meaning, and encoding that meaning
/// gives the text back.
pub fn decode(text: &str) -> (r: Result<Address, AddressError>)
    ensures
        r == decode_spec(text@),
        r matches Ok(address) ==> encode_spec(address) == text@,
{
    resolve(parse_strkey(text))
}

/// Encodes an address as text. Decoding the text gives the address back.
pub fn encode(address: &Address) -> (s: String)
    ensures
        s@ == encode_spec(*address),
        decode_spec(s@) matches Ok(a) && a == *address,
{
    render_strkey(address)
}

impl Address {
    /// The account identity behind an address: none for a contract.
    pub open spec fn account_spec(self) -> Option<MuxedAccount> {
        match self {
            Address::Plain(key) => Some(MuxedAccount::Ed25519(Uint256(key))),
            Address::Multiplexed { key, id } => Some(
                MuxedAccount::MuxedEd25519(MuxedAccountMed25519 { id, ed25519: Uint256(key) }),
            ),
            Address::Contract(_) => None,
        }
    }

    /// The account identity behind this address, kept as it was written: a
    /// sub-account stays a sub-account. A contract has none.
    pub fn account(&self) -> (r: Option<MuxedAccount>)
        ensures
            r == self.account_spec(),
    {
        match *self {
            Address::Plain(key) => Some(MuxedAccount::Ed25519(Uint256(key))),
            Address::Multiplexed { key, id } => Some(
                MuxedAccount::MuxedEd25519(MuxedAccountMed25519 { id, ed25519: Uint256(key) }),
            ),
            Address::Contract(_) => None,
        }
    }

    /// The address of an account identity.
    pub open spec fn of_account_spec(account: MuxedAccount) -> Address {
        match account {
            MuxedAccount::Ed25519(key) => Address::Plain(key.0),
            MuxedAccount::MuxedEd25519(muxed) => Address::Multiplexed {
                key: muxed.ed25519.0,
                id: muxed.id,
            },
        }
    }

    /// The address of an account identity.
    pub fn of_account(account: &MuxedAccount) -> (r: Address)
        ensures
            r == Address::of_account_spec(*account),
            r.account_spec() == Some(*account),
    {
        match *account {
            MuxedAccount::Ed25519(key) => Address::Plain(key.0),
            MuxedAccount::MuxedEd25519(muxed) => Address::Multiplexed {
                key: muxed.ed25519.0,
                id: muxed.id,
            },
        }
    }
}

} // verus!
