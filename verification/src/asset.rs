//! Assets: the native currency, and codes issued under an account's key.
//!
//! An `Asset` is checked once, where it is made. Putting it into the ledger's
//! structure is then a matter of shape alone and cannot fail.

use vstd::prelude::*;
use vstd::string::*;

use crate::address::{decode, decode_spec, Address, AddressError};
use crate::operation::{Error, ErrorView};
use crate::xdr;

verus! {

/// The longest code that an issued asset can have.
pub const MAX_CODE_LEN: usize = 12;

/// The longest code that the ledger stores in its short form.
pub const SHORT_CODE_LEN: usize = 4;

/// A character that may stand in an asset code: an ASCII letter or digit.
pub open spec fn is_code_char(c: char) -> bool {
    ('0' <= c && c <= '9') || ('A' <= c && c <= 'Z') || ('a' <= c && c <= 'z')
}

/// The byte of a character that may stand in an asset code.
pub open spec fn is_code_byte(b: u8) -> bool {
    (0x30 <= b && b <= 0x39) || (0x41 <= b && b <= 0x5a) || (0x61 <= b && b <= 0x7a)
}

/// An asset code has one to twelve characters, each a letter or a digit.
pub open spec fn valid_code(code: Seq<char>) -> bool {
    &&& 1 <= code.len() <= MAX_CODE_LEN
    &&& forall|i: int| 0 <= i < code.len() ==> is_code_char(#[trigger] code[i])
}

/// The bytes of a code, one for each character.
pub open spec fn code_bytes(code: Seq<char>) -> Seq<u8> {
    Seq::new(code.len(), |i: int| code[i] as u8)
}

/// An asset as contracts speak of it.
pub enum AssetView {
    Native,
    Issued { code: Seq<u8>, issuer: [u8; 32] },
}

impl AssetView {
    /// What holds of every asset: an issued one has a valid code.
    pub open spec fn wf(self) -> bool {
        match self {
            AssetView::Native => true,
            AssetView::Issued { code, issuer } => {
                &&& 1 <= code.len() <= MAX_CODE_LEN
                &&& forall|i: int| 0 <= i < code.len() ==> is_code_byte(#[trigger] code[i])
            },
        }
    }
}

/// The byte at a place of a padded code: the code's own byte, and zero behind
/// its end.
pub open spec fn padded_at(code: Seq<u8>, i: int) -> u8 {
    if 0 <= i < code.len() {
        code[i]
    } else {
        0u8
    }
}

/// A code in the ledger's short form: four bytes, zeros behind the code.
pub open spec fn padded4(code: Seq<u8>) -> [u8; 4] {
    [padded_at(code, 0), padded_at(code, 1), padded_at(code, 2), padded_at(code, 3)]
}

/// A code in the ledger's long form: twelve bytes, zeros behind the code.
pub open spec fn padded12(code: Seq<u8>) -> [u8; 12] {
    [
        padded_at(code, 0),
        padded_at(code, 1),
        padded_at(code, 2),
        padded_at(code, 3),
        padded_at(code, 4),
        padded_at(code, 5),
        padded_at(code, 6),
        padded_at(code, 7),
        padded_at(code, 8),
        padded_at(code, 9),
        padded_at(code, 10),
        padded_at(code, 11),
    ]
}

/// The ledger's structure for an asset. The native currency has a form of its
/// own; an issued asset takes the short form where its code fits in four
/// bytes, the long form otherwise, and carries its issuer's key in both.
pub open spec fn canonical(asset: AssetView) -> xdr::Asset {
    match asset {
        AssetView::Native => xdr::Asset::Native,
        AssetView::Issued { code, issuer } => if code.len() <= SHORT_CODE_LEN {
            xdr::Asset::CreditAlphanum4(
                xdr::AlphaNum4 { asset_code: padded4(code), issuer: xdr::Uint256(issuer) },
            )
        } else {
            xdr::Asset::CreditAlphanum12(
                xdr::AlphaNum12 { asset_code: padded12(code), issuer: xdr::Uint256(issuer) },
            )
        },
    }
}

/// The asset that a code and a decoded issuer make. The code is looked at
/// first; the issuer must be an account's plain key.
pub open spec fn issued_spec(code: Seq<char>, issuer: Result<Address, AddressError>) -> Result<
    AssetView,
    ErrorView,
> {
    if !valid_code(code) {
        Err(ErrorView::InvalidField("code"@))
    } else {
        match issuer {
            Ok(Address::Plain(key)) => Ok(AssetView::Issued { code: code_bytes(code), issuer: key }),
            _ => Err(ErrorView::InvalidField("issuer"@)),
        }
    }
}

/// Whether a result is what the contract of a constructor names.
pub open spec fn made(r: Result<Asset, Error>, expected: Result<AssetView, ErrorView>) -> bool {
    match r {
        Ok(asset) => expected == Ok::<AssetView, ErrorView>(asset@),
        Err(error) => expected == Err::<AssetView, ErrorView>(error@),
    }
}

#[derive(Debug, PartialEq, Eq)]
struct Credit {
    code: Vec<u8>,
    issuer: [u8; 32],
}

/// An asset of the ledger.
#[derive(Debug, PartialEq, Eq)]
pub struct Asset {
    credit: Option<Credit>,
}

impl View for Asset {
    type V = AssetView;

    closed spec fn view(&self) -> AssetView {
        match self.credit {
            None => AssetView::Native,
            Some(credit) => AssetView::Issued { code: credit.code@, issuer: credit.issuer },
        }
    }
}

impl Clone for Asset {
    fn clone(&self) -> (r: Asset)
        ensures
            r@ == self@,
    {
        proof {
            use_type_invariant(self);
        }
        match &self.credit {
            None => Asset { credit: None },
            Some(credit) => {
                let code = credit.code.clone();
                assert(code@ =~= credit.code@);
                Asset { credit: Some(Credit { code, issuer: credit.issuer }) }
            },
        }
    }
}

fn is_code(b: u8) -> (r: bool)
    ensures
        r == is_code_byte(b),
{
    (0x30 <= b && b <= 0x39) || (0x41 <= b && b <= 0x5a) || (0x61 <= b && b <= 0x7a)
}

/// The bytes of a valid code, and nothing for any other text.
fn checked_code(code: &str) -> (r: Option<Vec<u8>>)
    ensures
        r is Some <==> valid_code(code@),
        r matches Some(bytes) ==> bytes@ == code_bytes(code@),
{
    if !code.is_ascii() {
        return None;
    }
    let bytes = code.as_bytes_vec();
    proof {
        is_ascii_spec_bytes(code);
        assert(bytes@ =~= code_bytes(code@));
    }
    if bytes.len() < 1 || bytes.len() > MAX_CODE_LEN {
        return None;
    }
    let mut i: usize = 0;
    while i < bytes.len()
        invariant
            i <= bytes@.len(),
            bytes@ == code_bytes(code@),
            is_ascii(code),
            forall|j: int| 0 <= j < i ==> is_code_char(#[trigger] code@[j]),
        decreases bytes@.len() - i,
    {
        if !is_code(bytes[i]) {
            assert(!is_code_char(code@[i as int]));
            return None;
        }
        assert(is_code_char(code@[i as int]));
        i = i + 1;
    }
    Some(bytes)
}

/// A code padded with zeros to the length of a form of the ledger.
fn padded<const N: usize>(code: &Vec<u8>) -> (r: [u8; N])
    requires
        code@.len() <= N,
    ensures
        forall|j: int| 0 <= j < N ==> r@[j] == padded_at(code@, j),
{
    let mut out: [u8; N] = [0u8; N];
    let mut i: usize = 0;
    while i < code.len()
        invariant
            i <= code@.len() <= N,
            forall|j: int| 0 <= j < i ==> out@[j] == code@[j],
            forall|j: int| i <= j < N ==> out@[j] == 0u8,
        decreases code@.len() - i,
    {
        out[i] = code[i];
        i = i + 1;
    }
    out
}

impl Asset {
    #[verifier::type_invariant]
    spec fn inv(self) -> bool {
        self@.wf()
    }

    /// The native currency of the ledger.
    pub fn native() -> (r: Asset)
        ensures
            r@ == AssetView::Native,
    {
        Asset { credit: None }
    }

    /// The asset with this code under an issuer whose address is decoded
    /// already. Fails with `InvalidField("code")` where the code is not valid,
    /// else with `InvalidField("issuer")` where the issuer is no plain key.
    pub fn issued_by(code: &str, issuer: Result<Address, AddressError>) -> (r: Result<Asset, Error>)
        ensures
            made(r, issued_spec(code@, issuer)),
    {
        match checked_code(code) {
            None => Err(Error::InvalidField("code".to_owned())),
            Some(bytes) => match issuer {
                Ok(Address::Plain(key)) => Ok(Asset { credit: Some(Credit { code: bytes, issuer: key }) }),
                _ => Err(Error::InvalidField("issuer".to_owned())),
            },
        }
    }

    /// The asset with this code under the issuer that a text names.
    pub fn issued(code: &str, issuer: &str) -> (r: Result<Asset, Error>)
        ensures
            made(r, issued_spec(code@, decode_spec(issuer@))),
    {
        Asset::issued_by(code, decode(issuer))
    }

    /// Whether this is the native currency.
    pub fn is_native(&self) -> (r: bool)
        ensures
            r == (self@ == AssetView::Native),
    {
        self.credit.is_none()
    }

    /// The ledger's structure for this asset.
    pub fn to_xdr_object(&self) -> (r: xdr::Asset)
        ensures
            self@.wf(),
            r == canonical(self@),
    {
        proof {
            use_type_invariant(self);
        }
        match &self.credit {
            None => xdr::Asset::Native,
            Some(credit) => {
                let issuer = xdr::Uint256(credit.issuer);
                if credit.code.len() <= SHORT_CODE_LEN {
                    let asset_code: [u8; 4] = padded(&credit.code);
                    assert(asset_code =~= padded4(credit.code@));
                    xdr::Asset::CreditAlphanum4(xdr::AlphaNum4 { asset_code, issuer })
                } else {
                    let asset_code: [u8; 12] = padded(&credit.code);
                    assert(asset_code =~= padded12(credit.code@));
                    xdr::Asset::CreditAlphanum12(xdr::AlphaNum12 { asset_code, issuer })
                }
            },
        }
    }
}

} // verus!
