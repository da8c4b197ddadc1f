//! Payment: an amount of one asset, sent to an account.

use vstd::prelude::*;

use crate::address::{decode, decode_spec, Address, AddressError};
use crate::amount::{validate, validate_spec};
use crate::asset::{canonical, Asset, AssetView};
use crate::operation::{account_field, account_field_spec, outcome, Error, ErrorView, Operation};
use crate::xdr;

verus! {

/// The payment that a builder makes of a decoded destination, an asset and an
/// amount. The amount is judged first, then the destination, which must be an
/// account; where both pass, the operation carries the builder's source, the
/// destination as it was written, the asset in the ledger's structure, and the
/// amount.
pub open spec fn payment_spec(
    source: Option<xdr::MuxedAccount>,
    destination: Result<Address, AddressError>,
    asset: AssetView,
    amount: i64,
) -> Result<xdr::Operation, ErrorView> {
    match validate_spec(amount) {
        Err(error) => Err(error),
        Ok(amount) => match account_field_spec(destination, "destination"@) {
            Err(error) => Err(error),
            Ok(account) => Ok(
                xdr::Operation {
                    source_account: source,
                    body: xdr::OperationBody::Payment(
                        xdr::PaymentOp { destination: account, asset: canonical(asset), amount },
                    ),
                },
            ),
        },
    }
}

impl Operation {
    /// A payment to a destination that is decoded already: the rules of
    /// `payment`, on what the codec made of the destination's text.
    pub fn payment_to(
        &self,
        destination: Result<Address, AddressError>,
        asset: &Asset,
        amount: i64,
    ) -> (r: Result<xdr::Operation, Error>)
        ensures
            outcome(r) == payment_spec(self.source, destination, asset@, amount),
            amount < 0 ==> (r matches Err(Error::InvalidAmount(refused)) && refused == amount),
    {
        let amount = match validate(amount) {
            Ok(amount) => amount,
            Err(error) => return Err(error),
        };
        let destination = match account_field(destination, "destination") {
            Ok(account) => account,
            Err(error) => return Err(error),
        };
        let asset = asset.to_xdr_object();
        let payment_op = xdr::PaymentOp { asset, amount, destination };
        let body = xdr::OperationBody::Payment(payment_op);
        Ok(xdr::Operation { source_account: self.source, body })
    }

    /// A payment of `amount` of `asset` to the account that `destination`
    /// names.
    ///
    /// Fails with `InvalidAmount(amount)` where the amount is negative; else
    /// with `InvalidField("destination")` where the text is no address or is
    /// the address of a contract. An account and a sub-account are both
    /// destinations, and the operation carries each as it was written: a
    /// sub-account with its key and its id, never the bare key in its place.
    pub fn payment(&self, destination: &str, asset: &Asset, amount: i64) -> (r: Result<
        xdr::Operation,
        Error,
    >)
        ensures
            outcome(r) == payment_spec(self.source, decode_spec(destination@), asset@, amount),
            amount < 0 ==> (r matches Err(Error::InvalidAmount(refused)) && refused == amount),
            amount >= 0 ==> (decode_spec(destination@) matches Ok(Address::Contract(_))
                ==> (r matches Err(Error::InvalidField(field)) && field@ == "destination"@)),
            amount >= 0 ==> (decode_spec(destination@) matches Ok(address)
                ==> (address.account_spec() matches Some(account)
                ==> (r matches Ok(operation) && destination_of(operation) == account))),
    {
        match validate(amount) {
            Err(error) => Err(error),
            Ok(amount) => self.payment_to(decode(destination), asset, amount),
        }
    }
}

/// The account that a payment goes to.
pub open spec fn destination_of(operation: xdr::Operation) -> xdr::MuxedAccount {
    match operation.body {
        xdr::OperationBody::Payment(payment) => payment.destination,
    }
}

/// Building is a function of its inputs: two results of `payment` for the same
/// builder, destination, asset and amount are equal, operation for operation
/// and error for error.
pub proof fn payment_is_deterministic(
    builder: Operation,
    destination: Seq<char>,
    asset: AssetView,
    amount: i64,
    first: Result<xdr::Operation, Error>,
    second: Result<xdr::Operation, Error>,
)
    requires
        outcome(first) == payment_spec(builder.source, decode_spec(destination), asset, amount),
        outcome(second) == payment_spec(builder.source, decode_spec(destination), asset, amount),
    ensures
        outcome(first) == outcome(second),
        first matches Ok(operation) ==> (second matches Ok(other) && other == operation),
        first matches Err(error) ==> (second matches Err(other) && other@ == error@),
{
}

} // verus!
