use stellar_ops::address::{self, Address, AddressError};
use stellar_ops::asset::Asset;
use stellar_ops::operation::{self, Operation};
use stellar_ops::xdr;
use stellar_ops::xdr::Uint256;
use stellar_strkey::ed25519;
use stellar_strkey::ed25519::PublicKey;
use stellar_strkey::Strkey;

const RAW_KEY: [u8; 32] = [
    0x36, 0x3e, 0xaa, 0x38, 0x67, 0x84, 0x1f, 0xba, 0xd0, 0xf4, 0xed, 0x88, 0xc7, 0x79, 0xe4, 0xfe,
    0x66, 0xe5, 0x6a, 0x24, 0x70, 0xdc, 0x98, 0xc0, 0xec, 0x9c, 0x07, 0x3d, 0x05, 0xc7, 0xb1, 0x03,
];

const ACCOUNT: &str = "GA3D5KRYM6CB7OWQ6TWYRR3Z4T7GNZLKERYNZGGA5SOAOPIFY6YQHES5";
const SUB_ACCOUNT: &str = "MA3D5KRYM6CB7OWQ6TWYRR3Z4T7GNZLKERYNZGGA5SOAOPIFY6YQGAAAAAAAAAPCICBKU";
const CONTRACT: &str = "CA3D5KRYM6CB7OWQ6TWYRR3Z4T7GNZLKERYNZGGA5SOAOPIFY6YQGAXE";

fn public_key() -> String {
    Strkey::PublicKeyEd25519(PublicKey(RAW_KEY)).to_string().as_str().to_owned()
}

fn invalid_field(name: &str) -> operation::Error {
    operation::Error::InvalidField(name.into())
}

#[test]
fn test_payment() {
    let dest = &public_key();
    let a = Asset::native();
    let am = operation::ONE;
    let r = Operation::new().payment(dest, &a, am);
    if let Ok(op) = r {
        let xdr::OperationBody::Payment(xdr::PaymentOp { destination, asset, amount }) = op.body;
        if let Strkey::PublicKeyEd25519(PublicKey(pk)) = Strkey::from_string(dest).unwrap() {
            if let xdr::MuxedAccount::Ed25519(Uint256(d)) = destination {
                assert_eq!(d, pk);
                assert_eq!(asset, a.to_xdr_object());
                assert_eq!(amount, am);
                return;
            }
        }
    }
    panic!("Fail")
}

#[test]
fn test_payment_muxed() {
    let m = *RAW_KEY.last_chunk::<32>().unwrap();
    let dest =
        &Strkey::MuxedAccountEd25519(ed25519::MuxedAccount { ed25519: m, id: 8 }).to_string();
    println!("Dest: {}", dest);
    let a = Asset::native();
    let am = operation::ONE;
    let r = Operation::new().payment(dest, &a, am);
    if let Ok(op) = r {
        let xdr::OperationBody::Payment(xdr::PaymentOp { destination, asset, amount }) = op.body;
        if let Strkey::MuxedAccountEd25519(ed25519::MuxedAccount { ed25519, id }) =
            Strkey::from_string(dest).unwrap()
        {
            if let xdr::MuxedAccount::MuxedEd25519(muxed_account_med25519) = destination {
                assert_eq!(ed25519, muxed_account_med25519.ed25519.0);
                assert_eq!(id, muxed_account_med25519.id);
                assert_eq!(asset, a.to_xdr_object());
                assert_eq!(amount, am);
                return;
            }
        }
    }

    panic!("Fail")
}

#[test]
fn test_payment_bad_amount() {
    let dest = &public_key();
    let a = Asset::native();
    let am = -operation::ONE;
    let r = Operation::new().payment(dest, &a, am);

    assert_eq!(r.err().unwrap(), operation::Error::InvalidAmount(am));
}

#[test]
fn test_payment_bad_destination() {
    let dest = &Strkey::Contract(stellar_strkey::Contract([0; 32])).to_string();
    let a = Asset::native();
    let am = operation::ONE;
    let r = Operation::new().payment(dest, &a, am);

    assert_eq!(
        r.err().unwrap(),
        operation::Error::InvalidField("destination".into())
    );
}

#[test]
fn one_unit_is_ten_million() {
    assert_eq!(operation::ONE, 10_000_000);
}

#[test]
fn payment_of_one_unit_of_the_native_asset() {
    let op = Operation::new().payment(ACCOUNT, &Asset::native(), 10_000_000).unwrap();
    assert_eq!(
        op,
        xdr::Operation {
            source_account: None,
            body: xdr::OperationBody::Payment(xdr::PaymentOp {
                destination: xdr::MuxedAccount::Ed25519(Uint256(RAW_KEY)),
                asset: xdr::Asset::Native,
                amount: 10_000_000,
            }),
        }
    );
}

#[test]
fn payment_of_minus_one_is_refused() {
    let r = Operation::new().payment(ACCOUNT, &Asset::native(), -1);
    assert_eq!(r, Err(operation::Error::InvalidAmount(-1)));
}

#[test]
fn payment_of_the_least_amount_is_refused() {
    let r = Operation::new().payment(ACCOUNT, &Asset::native(), i64::MIN);
    assert_eq!(r, Err(operation::Error::InvalidAmount(i64::MIN)));
}

#[test]
fn payment_of_zero_is_built() {
    let op = Operation::new().payment(ACCOUNT, &Asset::native(), 0).unwrap();
    let xdr::OperationBody::Payment(payment) = op.body;
    assert_eq!(payment.amount, 0);
}

#[test]
fn payment_of_the_greatest_amount_is_built() {
    let op = Operation::new().payment(ACCOUNT, &Asset::native(), i64::MAX).unwrap();
    let xdr::OperationBody::Payment(payment) = op.body;
    assert_eq!(payment.amount, i64::MAX);
}

#[test]
fn payment_to_a_contract_is_refused() {
    let r = Operation::new().payment(CONTRACT, &Asset::native(), 10_000_000);
    assert_eq!(r, Err(invalid_field("destination")));
}

#[test]
fn payment_to_a_text_that_is_no_address_is_refused() {
    let a = Asset::native();
    let op = Operation::new();
    assert_eq!(op.payment("", &a, 1), Err(invalid_field("destination")));
    assert_eq!(op.payment("not an address", &a, 1), Err(invalid_field("destination")));
    // The last symbol is changed, so the checksum no longer matches.
    assert_eq!(
        op.payment("GA3D5KRYM6CB7OWQ6TWYRR3Z4T7GNZLKERYNZGGA5SOAOPIFY6YQHES6", &a, 1),
        Err(invalid_field("destination"))
    );
    // A pre-authorised transaction hash is a valid key, and no address.
    assert_eq!(
        op.payment("TBU2RRGLXH3E5CQHTD3ODLDF2BWDCYUSSBLLZ5GNW7JXHDIYKXZWHXL7", &a, 1),
        Err(invalid_field("destination"))
    );
}

#[test]
fn the_amount_is_judged_before_the_destination() {
    let a = Asset::native();
    let op = Operation::new();
    assert_eq!(op.payment(CONTRACT, &a, -5), Err(operation::Error::InvalidAmount(-5)));
    assert_eq!(op.payment("", &a, -5), Err(operation::Error::InvalidAmount(-5)));
}

#[test]
fn payment_to_a_sub_account_keeps_key_and_id() {
    let dest = Strkey::MuxedAccountEd25519(ed25519::MuxedAccount { ed25519: RAW_KEY, id: 8 })
        .to_string();
    let op = Operation::new().payment(&dest, &Asset::native(), 10_000_000).unwrap();
    let xdr::OperationBody::Payment(payment) = op.body;
    assert_eq!(
        payment.destination,
        xdr::MuxedAccount::MuxedEd25519(xdr::MuxedAccountMed25519 {
            id: 8,
            ed25519: Uint256(RAW_KEY),
        })
    );
}

#[test]
fn payment_to_a_sub_account_with_a_large_id() {
    let op = Operation::new().payment(SUB_ACCOUNT, &Asset::native(), 1).unwrap();
    let xdr::OperationBody::Payment(payment) = op.body;
    assert_eq!(
        payment.destination,
        xdr::MuxedAccount::MuxedEd25519(xdr::MuxedAccountMed25519 {
            id: 123456,
            ed25519: Uint256(RAW_KEY),
        })
    );
}

#[test]
fn payment_of_an_issued_asset_carries_its_structure() {
    let asset = Asset::issued("USD", ACCOUNT).unwrap();
    let op = Operation::new().payment(ACCOUNT, &asset, 25).unwrap();
    let xdr::OperationBody::Payment(payment) = op.body;
    assert_eq!(
        payment.asset,
        xdr::Asset::CreditAlphanum4(xdr::AlphaNum4 {
            asset_code: [b'U', b'S', b'D', 0],
            issuer: Uint256(RAW_KEY),
        })
    );
    assert_eq!(payment.amount, 25);
}

#[test]
fn payment_carries_the_source_of_its_builder() {
    let builder = Operation::with_source(SUB_ACCOUNT).unwrap();
    let op = builder.payment(ACCOUNT, &Asset::native(), 1).unwrap();
    assert_eq!(
        op.source_account,
        Some(xdr::MuxedAccount::MuxedEd25519(xdr::MuxedAccountMed25519 {
            id: 123456,
            ed25519: Uint256(RAW_KEY),
        }))
    );
    assert_eq!(Operation::new().payment(ACCOUNT, &Asset::native(), 1).unwrap().source_account, None);
}

#[test]
fn the_same_inputs_build_the_same_payment() {
    let asset = Asset::issued("EURT", ACCOUNT).unwrap();
    let builder = Operation::with_source(ACCOUNT).unwrap();
    assert_eq!(builder.payment(SUB_ACCOUNT, &asset, 7), builder.payment(SUB_ACCOUNT, &asset, 7));
    assert_eq!(builder.payment(CONTRACT, &asset, 7), builder.payment(CONTRACT, &asset, 7));
    assert_eq!(builder.payment(ACCOUNT, &asset, -7), builder.payment(ACCOUNT, &asset, -7));
}

#[test]
fn payment_to_a_decoded_destination() {
    let a = Asset::native();
    let op = Operation::new();
    let built = op.payment_to(Ok(Address::Plain(RAW_KEY)), &a, 3).unwrap();
    assert_eq!(built, op.payment(ACCOUNT, &a, 3).unwrap());
    assert_eq!(
        op.payment_to(Ok(Address::Contract(RAW_KEY)), &a, 3),
        Err(invalid_field("destination"))
    );
    assert_eq!(
        op.payment_to(Err(AddressError::MalformedAddress), &a, 3),
        Err(invalid_field("destination"))
    );
    assert_eq!(
        op.payment_to(Err(AddressError::MalformedAddress), &a, -3),
        Err(operation::Error::InvalidAmount(-3))
    );
}

#[test]
fn builder_with_a_source() {
    assert_eq!(Operation::new().source, None);
    assert_eq!(
        Operation::with_source(ACCOUNT).unwrap().source,
        Some(xdr::MuxedAccount::Ed25519(Uint256(RAW_KEY)))
    );
    assert_eq!(Operation::with_source(CONTRACT), Err(invalid_field("source")));
    assert_eq!(Operation::with_source("G"), Err(invalid_field("source")));
}

#[test]
fn account_rule_on_a_decoded_address() {
    assert_eq!(
        operation::account_field(address::decode(ACCOUNT), "destination"),
        Ok(xdr::MuxedAccount::Ed25519(Uint256(RAW_KEY)))
    );
    assert_eq!(
        operation::account_field(Ok(Address::Multiplexed { key: RAW_KEY, id: 8 }), "destination"),
        Ok(xdr::MuxedAccount::MuxedEd25519(xdr::MuxedAccountMed25519 {
            id: 8,
            ed25519: Uint256(RAW_KEY),
        }))
    );
    assert_eq!(
        operation::account_field(Ok(Address::Contract(RAW_KEY)), "issuer"),
        Err(invalid_field("issuer"))
    );
    assert_eq!(
        operation::account_field(Err(AddressError::MalformedAddress), "source"),
        Err(invalid_field("source"))
    );
}
