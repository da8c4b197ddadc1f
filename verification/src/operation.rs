//! The builder of operations, its errors, and the rules that every kind of
//! operation shares for the accounts it names.

use vstd::prelude::*;

use crate::address::{decode, decode_spec, Address, AddressError};
use crate::xdr::MuxedAccount;

verus! {

/// One unit of an asset: amounts are fixed-point numbers with seven decimals.
pub const ONE: i64 = 10_000_000;

/// Why no operation was built. The first rule that fails decides.
#[derive(Debug, PartialEq, Eq)]
pub enum Error {
    /// An amount outside the range that its operation permits, with the amount.
    InvalidAmount(i64),
    /// A field that is malformed or not allowed where it stands, by its name.
    InvalidField(String),
}

/// An error as contracts speak of it: the field's name as its characters.
pub enum ErrorView {
    InvalidAmount(i64),
    InvalidField(Seq<char>),
}

impl View for Error {
    type V = ErrorView;

    open spec fn view(&self) -> ErrorView {
        match self {
            Error::InvalidAmount(amount) => ErrorView::InvalidAmount(*amount),
            Error::InvalidField(name) => ErrorView::InvalidField(name@),
        }
    }
}

/// A builder's result as contracts speak of it: the value itself, or the view
/// of the error.
pub open spec fn outcome<T>(r: Result<T, Error>) -> Result<T, ErrorView> {
    match r {
        Ok(value) => Ok(value),
        Err(error) => Err(error@),
    }
}

/// The account that a field names: the identity behind the decoded address.
/// A text that is no address, and the address of a contract, are both refused
/// under the field's name.
pub open spec fn account_field_spec(
    decoded: Result<Address, AddressError>,
    field: Seq<char>,
) -> Result<MuxedAccount, ErrorView> {
    match decoded {
        Ok(address) => match address.account_spec() {
            Some(account) => Ok(account),
            None => Err(ErrorView::InvalidField(field)),
        },
        Err(_) => Err(ErrorView::InvalidField(field)),
    }
}

/// Applies the account rule to a decoded address: that a text decodes is not
/// enough, it must decode to an account.
pub fn account_field(decoded: Result<Address, AddressError>, field: &str) -> (r: Result<
    MuxedAccount,
    Error,
>)
    ensures
        outcome(r) == account_field_spec(decoded, field@),
{
    match decoded {
        Ok(address) => match address.account() {
            Some(account) => Ok(account),
            None => Err(Error::InvalidField(field.to_owned())),
        },
        Err(_) => Err(Error::InvalidField(field.to_owned())),
    }
}

/// Builds operations. It carries the account that the operations act for,
/// where that is not the source of the transaction they will stand in.
#[derive(Clone, Copy, Debug, PartialEq, Eq)]
pub struct Operation {
    pub source: Option<MuxedAccount>,
}

/// A builder for the account that a text names, as `with_source` gives it.
pub open spec fn with_source_spec(decoded: Result<Address, AddressError>) -> Result<
    Operation,
    ErrorView,
> {
    match account_field_spec(decoded, "source"@) {
        Ok(account) => Ok(Operation { source: Some(account) }),
        Err(error) => Err(error),
    }
}

impl Operation {
    /// A builder without a source of its own: its operations act for the
    /// source of their transaction.
    pub fn new() -> (r: Operation)
        ensures
            r.source is None,
    {
        Operation { source: None }
    }

    /// A builder whose operations act for the account that `source` names.
    /// Fails with `InvalidField("source")` where the text is no address or
    /// names a contract.
    pub fn with_source(source: &str) -> (r: Result<Operation, Error>)
        ensures
            outcome(r) == with_source_spec(decode_spec(source@)),
    {
        match account_field(decode(source), "source") {
            Ok(account) => Ok(Operation { source: Some(account) }),
            Err(error) => Err(error),
        }
    }
}

} // verus!
