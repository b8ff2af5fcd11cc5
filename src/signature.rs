use vstd::prelude::*;
use crate::error::Error;

verus! {

/// The value of one hexadecimal digit, in either case.
pub open spec fn hex_digit_value(c: u8) -> Option<u8> {
    if 48 <= c <= 57 {
        Some((c - 48) as u8)
    } else if 97 <= c <= 102 {
        Some((c - 87) as u8)
    } else if 65 <= c <= 70 {
        Some((c - 55) as u8)
    } else {
        None
    }
}

pub open spec fn is_hex(s: Seq<u8>) -> bool {
    &&& s.len() % 2 == 0
    &&& forall|i: int| 0 <= i < s.len() ==> (#[trigger] hex_digit_value(s[i])).is_some()
}

/// The bytes that a hexadecimal text stands for, two digits per byte, high digit first.
pub open spec fn hex_decoded(s: Seq<u8>) -> Option<Seq<u8>> {
    if is_hex(s) {
        Some(
            Seq::new(
                s.len() / 2,
                |i: int|
                    (16 * hex_digit_value(s[2 * i]).unwrap() + hex_digit_value(
                        s[2 * i + 1],
                    ).unwrap()) as u8,
            ),
        )
    } else {
        None
    }
}

/// Relies on hex::decode: it accepts exactly the texts of even length made of
/// hex digits of either case, and gives one byte per two digits, high digit first.
#[verifier::external_body]
fn decode_hex(s: &[u8]) -> (r: Option<Vec<u8>>)
    ensures
        match r {
            Some(b) => hex_decoded(s@) == Some(b@),
            None => hex_decoded(s@).is_none(),
        },
{
    hex::decode(s).ok()
}

/// Whether `signature` is a valid Ed25519 signature of `message` under the
/// public key `key`.
pub uninterp spec fn ed25519_accepts(key: Seq<u8>, message: Seq<u8>, signature: Seq<u8>) -> bool;

/// Relies on ed25519_dalek's PublicKey::from_bytes, Signature::from_bytes and
/// Verifier::verify: the answer depends on the three byte strings alone, and
/// both parsers refuse any length but 32 bytes of key and 64 of signature.
#[verifier::external_body]
fn ed25519_verify(key: &[u8], message: &[u8], signature: &[u8]) -> (r: bool)
    ensures
        r == ed25519_accepts(key@, message@, signature@),
        r ==> key@.len() == 32 && signature@.len() == 64,
{
    let key = ed25519_dalek::PublicKey::from_bytes(key);
    let signature = ed25519_dalek::Signature::from_bytes(signature);
    match (key, signature) {
        (Ok(k), Ok(s)) => ed25519_dalek::Verifier::verify(&k, message, &s).is_ok(),
        _ => false,
    }
}

/// The bytes the platform signs: the timestamp header followed by the body.
pub open spec fn signed_message(timestamp: Seq<u8>, body: Seq<u8>) -> Seq<u8> {
    timestamp + body
}

/// The text of the error for a request without its signature headers.
pub open spec fn missing_headers_text() -> Seq<char> {
    "You need to provide both signature and timestamp"@
}

/// Whether a request carrying these headers and this body was signed by the
/// holder of the hex-encoded public key.
pub open spec fn is_authentic(
    signature: Seq<u8>,
    timestamp: Seq<u8>,
    body: Seq<u8>,
    public_key: Seq<u8>,
) -> bool {
    &&& hex_decoded(public_key).is_some()
    &&& hex_decoded(signature).is_some()
    &&& ed25519_accepts(
        hex_decoded(public_key).unwrap(),
        signed_message(timestamp, body),
        hex_decoded(signature).unwrap(),
    )
}

/// Checks that a request was signed by the platform.
///
/// `signature` and `timestamp` are the raw values of the `x-signature-ed25519`
/// and `x-signature-timestamp` headers, `None` where the header is absent;
/// `public_key` is the platform's key in hexadecimal.
pub fn validate_headers(
    signature: Option<&[u8]>,
    timestamp: Option<&[u8]>,
    body: &[u8],
    public_key: &[u8],
) -> (r: Result<(), Error>)
    ensures
        (signature.is_none() || timestamp.is_none()) <==> r matches Err(Error::InvalidInput(_)),
        r matches Err(Error::InvalidInput(m)) ==> m@ == missing_headers_text(),
        r matches Err(Error::DecodingError) <==> signature.is_some() && timestamp.is_some() && (
        hex_decoded(public_key@).is_none() || hex_decoded(signature.unwrap()@).is_none()),
        r is Ok <==> signature.is_some() && timestamp.is_some() && is_authentic(
            signature.unwrap()@,
            timestamp.unwrap()@,
            body@,
            public_key@,
        ),
        r is Ok ==> hex_decoded(public_key@).unwrap().len() == 32 && hex_decoded(
            signature.unwrap()@,
        ).unwrap().len() == 64,
        r is Ok || r matches Err(Error::InvalidInput(_)) || r matches Err(Error::DecodingError)
            || r matches Err(Error::DecryptingError),
{
    match (signature, timestamp) {
        (Some(signature), Some(timestamp)) => {
            let key = match decode_hex(public_key) {
                Some(k) => k,
                None => return Err(Error::DecodingError),
            };
            let sig = match decode_hex(signature) {
                Some(s) => s,
                None => return Err(Error::DecodingError),
            };
            let mut message: Vec<u8> = Vec::new();
            message.extend_from_slice(timestamp);
            message.extend_from_slice(body);
            assert(message@ =~= signed_message(timestamp@, body@));
            if ed25519_verify(key.as_slice(), message.as_slice(), sig.as_slice()) {
                Ok(())
            } else {
                Err(Error::DecryptingError)
            }
        },
        _ => Err(Error::InvalidInput("You need to provide both signature and timestamp".to_owned())),
    }
}

} // verus!
