//! The boundary to the Ed25519 implementation.
//!
//! Everything in this file is believed, not proved: the contracts restate what
//! the `ed25519` and `ed25519-dalek` crates do, and the bodies only make the
//! calls. Nothing else in the library touches a key or a signature of those
//! crates.

use vstd::prelude::*;
use ed25519_dalek::Verifier;

verus! {

/// `ed25519_dalek::PublicKey`, opaque to verified code.
#[verifier::external_type_specification]
#[verifier::external_body]
pub struct ExPublicKey(ed25519_dalek::PublicKey);

/// `ed25519::Signature`, opaque to verified code.
#[verifier::external_type_specification]
#[verifier::external_body]
pub struct ExSignature(ed25519::Signature);

/// `ed25519_dalek::SignatureError`, the error of every fallible call below.
/// It says nothing that verified code could read.
#[verifier::external_type_specification]
#[verifier::external_body]
pub struct ExSignatureError(ed25519_dalek::SignatureError);

/// Whether `PublicKey::from_bytes` accepts `bytes`: they are 32 in number and
/// decompress to a point of the curve.
pub uninterp spec fn public_key_decodes(bytes: Seq<u8>) -> bool;

/// Whether `Verifier::verify` accepts `signature` for `message` under `key`,
/// where `key` and `signature` are the bytes that the public key and the
/// signature were parsed from.
pub uninterp spec fn signature_verifies(
    key: Seq<u8>,
    message: Seq<u8>,
    signature: Seq<u8>,
) -> bool;

/// What `Signature::from_bytes` tests: 64 bytes, the last with its three
/// highest bits unset.
pub open spec fn signature_decodes(bytes: Seq<u8>) -> bool {
    bytes.len() == 64 && bytes[63] & 0xe0 == 0
}

/// A public key that parsed, with the bytes it was parsed from. Only
/// `parse_public_key` makes one, so the two always belong together.
pub(crate) struct VerificationKey {
    bytes: Vec<u8>,
    parsed: ed25519_dalek::PublicKey,
}

impl View for VerificationKey {
    type V = Seq<u8>;

    closed spec fn view(&self) -> Seq<u8> {
        self.bytes@
    }
}

/// A signature that parsed, with the bytes it was parsed from. Only
/// `parse_signature` makes one, so the two always belong together.
pub(crate) struct ParsedSignature {
    bytes: Vec<u8>,
    parsed: ed25519::Signature,
}

impl View for ParsedSignature {
    type V = Seq<u8>;

    closed spec fn view(&self) -> Seq<u8> {
        self.bytes@
    }
}

/// Calls `ed25519_dalek::PublicKey::from_bytes`.
///
/// Believed: the call succeeds exactly on the byte strings that
/// `public_key_decodes` names, and never on one whose length is not 32. The
/// key that is returned is the one parsed from `bytes`.
#[verifier::external_body]
pub(crate) fn parse_public_key(bytes: &[u8]) -> (res: Result<
    VerificationKey,
    ed25519_dalek::SignatureError,
>)
    ensures
        res is Ok <==> public_key_decodes(bytes@),
        res is Ok ==> bytes@.len() == 32,
        res matches Ok(key) ==> key@ == bytes@,
{
    match ed25519_dalek::PublicKey::from_bytes(bytes) {
        Ok(parsed) => Ok(VerificationKey { bytes: bytes.to_vec(), parsed }),
        Err(error) => Err(error),
    }
}

/// Calls `ed25519::Signature::from_bytes`.
///
/// Believed: the call succeeds exactly when `signature_decodes` holds. The
/// signature that is returned is the one parsed from `bytes`.
#[verifier::external_body]
pub(crate) fn parse_signature(bytes: &[u8]) -> (res: Result<
    ParsedSignature,
    ed25519_dalek::SignatureError,
>)
    ensures
        res is Ok <==> signature_decodes(bytes@),
        res matches Ok(signature) ==> signature@ == bytes@,
{
    match ed25519::Signature::from_bytes(bytes) {
        Ok(parsed) => Ok(ParsedSignature { bytes: bytes.to_vec(), parsed }),
        Err(error) => Err(error),
    }
}

/// Calls `ed25519_dalek::PublicKey::verify`, the `Verifier` impl.
///
/// Believed: whether the call succeeds depends on nothing but the bytes of the
/// key, the message and the bytes of the signature.
#[verifier::external_body]
pub(crate) fn verify_signature(
    key: &VerificationKey,
    message: &[u8],
    signature: &ParsedSignature,
) -> (res: Result<(), ed25519_dalek::SignatureError>)
    ensures
        res is Ok <==> signature_verifies(key@, message@, signature@),
{
    key.parsed.verify(message, &signature.parsed)
}

} // verus!
