//! The claim authorizer: one fixed message, one fixed verification key, one
//! fixed signature. A claim is authorized only if the key parses, the
//! signature parses and the signature verifies; every other course ends in
//! the same refusal.

use vstd::prelude::*;
use crate::dalek::{
    parse_public_key, parse_signature, public_key_decodes, signature_decodes, signature_verifies,
    verify_signature,
};
use crate::error::Error;
use crate::ledger::Pallet;

verus! {

/// The message whose signature is checked.
pub const MESSAGE: [u8; 5] = [1, 2, 3, 4, 5];

/// The verification key, in its compressed 32-byte form.
pub const PUBLIC_KEY: [u8; 32] = [
    64, 62, 214, 61, 58, 61, 30, 176,
    50, 167, 89, 40, 14, 74, 55, 162,
    180, 239, 145, 111, 62, 251, 55, 20,
    244, 147, 168, 212, 182, 184, 143, 123,
];

/// The signature over `MESSAGE` that is checked.
pub const SIGNATURE: [u8; 64] = [
    176, 149, 248, 112, 26, 7, 30, 203,
    255, 227, 148, 63, 19, 230, 136, 205,
    93, 114, 0, 103, 101, 67, 84, 120,
    3, 52, 141, 23, 252, 198, 208, 169,
    209, 134, 164, 172, 214, 131, 120, 63,
    105, 92, 76, 45, 155, 50, 196, 227,
    151, 241, 74, 77, 131, 104, 115, 22,
    220, 133, 41, 227, 4, 249, 66, 13,
];

/// Where a claim attempt stands. An attempt starts at `Start`, does one piece
/// of work in each of the three middle states, and ends in `Authorized` or
/// `Denied`; there is no way back and no retry.
#[derive(Clone, Copy, Debug, PartialEq, Eq, Structural)]
pub enum ClaimState {
    Start,
    ParsingKey,
    ParsingSignature,
    Verifying,
    Authorized,
    Denied,
}

impl ClaimState {
    /// The state that follows `self` when the work done in `self` succeeded or
    /// failed. `Start` does no work and always moves on; the two final states
    /// stay where they are.
    pub open spec fn next(self, succeeded: bool) -> ClaimState {
        match self {
            ClaimState::Start => ClaimState::ParsingKey,
            ClaimState::ParsingKey => if succeeded {
                ClaimState::ParsingSignature
            } else {
                ClaimState::Denied
            },
            ClaimState::ParsingSignature => if succeeded {
                ClaimState::Verifying
            } else {
                ClaimState::Denied
            },
            ClaimState::Verifying => if succeeded {
                ClaimState::Authorized
            } else {
                ClaimState::Denied
            },
            ClaimState::Authorized => ClaimState::Authorized,
            ClaimState::Denied => ClaimState::Denied,
        }
    }

    /// True of the two states in which an attempt ends.
    pub open spec fn is_final(self) -> bool {
        self == ClaimState::Authorized || self == ClaimState::Denied
    }

    /// What the caller is told in this state: success in `Authorized`, the one
    /// refusal everywhere else.
    pub open spec fn verdict(self) -> Result<(), Error> {
        if self == ClaimState::Authorized {
            Ok(())
        } else {
            Err(Error::SignatureNotValid)
        }
    }

    /// Moves one step on; see `next`.
    pub fn advance(self, succeeded: bool) -> (state: ClaimState)
        ensures
            state == self.next(succeeded),
    {
        match self {
            ClaimState::Start => ClaimState::ParsingKey,
            ClaimState::ParsingKey => if succeeded {
                ClaimState::ParsingSignature
            } else {
                ClaimState::Denied
            },
            ClaimState::ParsingSignature => if succeeded {
                ClaimState::Verifying
            } else {
                ClaimState::Denied
            },
            ClaimState::Verifying => if succeeded {
                ClaimState::Authorized
            } else {
                ClaimState::Denied
            },
            ClaimState::Authorized => ClaimState::Authorized,
            ClaimState::Denied => ClaimState::Denied,
        }
    }

    /// The result handed to the caller; see `verdict`.
    pub fn result(self) -> (res: Result<(), Error>)
        ensures
            res == self.verdict(),
    {
        match self {
            ClaimState::Authorized => Ok(()),
            _ => Err(Error::SignatureNotValid),
        }
    }
}

/// The state in which an attempt ends when its three pieces of work turn out
/// as given. Work that is never reached has no say.
pub open spec fn final_state(
    key_parsed: bool,
    signature_parsed: bool,
    verified: bool,
) -> ClaimState {
    ClaimState::Start.next(true).next(key_parsed).next(signature_parsed).next(verified)
}

/// Whether a claim is authorized for this key, message and signature: the key
/// is 32 bytes that decode to a public key, the signature is 64 well-formed
/// bytes, and the signature verifies.
pub open spec fn claim_authorized(key: Seq<u8>, message: Seq<u8>, signature: Seq<u8>) -> bool {
    &&& key.len() == 32
    &&& public_key_decodes(key)
    &&& signature_decodes(signature)
    &&& signature_verifies(key, message, signature)
}

/// What a claim attempt on this key, message and signature returns.
pub open spec fn claim_outcome(key: Seq<u8>, message: Seq<u8>, signature: Seq<u8>) -> Result<
    (),
    Error,
> {
    if claim_authorized(key, message, signature) {
        Ok(())
    } else {
        Err(Error::SignatureNotValid)
    }
}

/// Runs one claim attempt on the given bytes: parse the key, parse the
/// signature, verify. The first failure ends the attempt.
pub fn verify_claim(key: &[u8], message: &[u8], signature: &[u8]) -> (res: Result<(), Error>)
    ensures
        res == claim_outcome(key@, message@, signature@),
{
    let mut state: ClaimState = ClaimState::Start.advance(true);
    match parse_public_key(key) {
        Err(_) => {
            state = state.advance(false);
        },
        Ok(public_key) => {
            state = state.advance(true);
            match parse_signature(signature) {
                Err(_) => {
                    state = state.advance(false);
                },
                Ok(parsed) => {
                    state = state.advance(true);
                    let verified: bool = verify_signature(&public_key, message, &parsed).is_ok();
                    state = state.advance(verified);
                },
            }
        },
    }
    state.result()
}

/// What a claim attempt on the fixed key, message and signature returns. It
/// depends on nothing else, so every attempt returns this same value.
pub open spec fn fixed_claim_outcome() -> Result<(), Error> {
    claim_outcome(PUBLIC_KEY@, MESSAGE@, SIGNATURE@)
}

impl Pallet {
    /// Checks the fixed signature over the fixed message with the fixed key.
    /// There is no hidden state: every call returns the same value.
    pub fn validate_signature() -> (res: Result<(), Error>)
        ensures
            res == fixed_claim_outcome(),
    {
        verify_claim(&PUBLIC_KEY, &MESSAGE, &SIGNATURE)
    }

    /// The claim operation: succeeds only if the fixed signature is valid. It
    /// neither reads nor writes the ledger.
    pub fn claim_reward() -> (res: Result<(), Error>)
        ensures
            res == fixed_claim_outcome(),
    {
        if Pallet::validate_signature().is_ok() {
            Ok(())
        } else {
            Err(Error::SignatureNotValid)
        }
    }
}

/// An attempt ends authorized only if all three pieces of work succeeded, and
/// denied in every other case; it never ends anywhere else.
pub proof fn lemma_final_state(key_parsed: bool, signature_parsed: bool, verified: bool)
    ensures
        final_state(key_parsed, signature_parsed, verified).is_final(),
        final_state(key_parsed, signature_parsed, verified) == ClaimState::Authorized
            <==> key_parsed && signature_parsed && verified,
        final_state(key_parsed, signature_parsed, verified).verdict() is Ok
            <==> key_parsed && signature_parsed && verified,
{
}

/// Once an attempt has ended, nothing moves it: a denied attempt stays denied.
pub proof fn lemma_final_states_stay(state: ClaimState, succeeded: bool)
    requires
        state.is_final(),
    ensures
        state.next(succeeded) == state,
{
}

/// The authorizer fails closed. A claim succeeds only if the key decodes, the
/// signature is well formed and the signature verifies; a key that is not 32
/// bytes long, a signature that is not 64 bytes long and a signature whose
/// last byte has one of its three highest bits set are refused; and the only
/// refusal there is is `SignatureNotValid`.
pub proof fn lemma_claim_fails_closed(key: Seq<u8>, message: Seq<u8>, signature: Seq<u8>)
    ensures
        claim_outcome(key, message, signature) is Ok ==> public_key_decodes(key)
            && signature_decodes(signature) && signature_verifies(key, message, signature),
        key.len() != 32 ==> claim_outcome(key, message, signature) is Err,
        signature.len() != 64 ==> claim_outcome(key, message, signature) is Err,
        signature.len() == 64 && signature[63] & 0xe0 != 0 ==> claim_outcome(
            key,
            message,
            signature,
        ) is Err,
        claim_outcome(key, message, signature) is Err ==> claim_outcome(key, message, signature)
            == Err::<(), Error>(Error::SignatureNotValid),
{
}

} // verus!
