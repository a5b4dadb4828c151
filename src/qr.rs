//! The QR code that carries a client's profile.

use vstd::prelude::*;
use vstd::string::*;

verus! {

#[verifier::external_type_specification]
#[verifier::external_body]
pub struct ExQrCode(qrcode::QrCode);

#[verifier::external_type_specification]
#[verifier::external_body]
pub struct ExQrError(qrcode::types::QrError);

/// Whether a QR code at the medium error correction level can hold `data`.
pub uninterp spec fn qr_encodable(data: Seq<u8>) -> bool;

/// Relies on `qrcode::QrCode::new`: the smallest QR code at the medium error
/// correction level that holds `data`, or an error where none does. Which
/// of the two comes depends on `data` alone.
#[verifier::external_body]
fn qr_encode(data: &[u8]) -> (r: Result<qrcode::QrCode, qrcode::types::QrError>)
    ensures
        r is Ok <==> qr_encodable(data@),
{
    qrcode::QrCode::new(data)
}

/// Why a profile could not be put in a QR code.
#[derive(Clone, Copy, Debug, PartialEq, Eq)]
pub enum QrCodeError {
    /// No QR code is large enough for the profile.
    Unencodable,
}

/// The QR code of `profile`: it carries the profile's UTF-8 bytes exactly.
pub fn profile_qr_code(profile: &str) -> (r: Result<qrcode::QrCode, QrCodeError>)
    ensures
        r is Ok <==> qr_encodable(profile.spec_bytes()),
        r is Err ==> r->Err_0 == QrCodeError::Unencodable,
{
    match qr_encode(profile.as_bytes()) {
        Ok(code) => Ok(code),
        Err(_) => Err(QrCodeError::Unencodable),
    }
}

} // verus!
