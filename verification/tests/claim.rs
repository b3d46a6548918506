use pallet_fluence::{verify_claim, ClaimState, Error, Pallet, MESSAGE, PUBLIC_KEY, SIGNATURE};

#[test]
fn fixed_signature_is_valid() {
    assert_eq!(Pallet::validate_signature(), Ok(()));
    assert_eq!(Pallet::claim_reward(), Ok(()));
    assert_eq!(verify_claim(&PUBLIC_KEY, &MESSAGE, &SIGNATURE), Ok(()));
}

#[test]
fn truncated_signature_is_refused() {
    assert_eq!(
        verify_claim(&PUBLIC_KEY, &MESSAGE, &SIGNATURE[..63]),
        Err(Error::SignatureNotValid)
    );
}

#[test]
fn repeated_claims_give_the_same_outcome() {
    let first = Pallet::validate_signature();
    for _ in 0..10 {
        assert_eq!(Pallet::validate_signature(), first);
        assert_eq!(Pallet::claim_reward(), first);
    }
    let refused = verify_claim(&PUBLIC_KEY, b"another message", &SIGNATURE);
    for _ in 0..10 {
        assert_eq!(
            verify_claim(&PUBLIC_KEY, b"another message", &SIGNATURE),
            refused
        );
    }
}

#[test]
fn every_one_bit_change_of_the_key_is_refused() {
    for byte in 0..PUBLIC_KEY.len() {
        for bit in 0..8 {
            let mut key = PUBLIC_KEY;
            key[byte] ^= 1 << bit;
            assert_eq!(
                verify_claim(&key, &MESSAGE, &SIGNATURE),
                Err(Error::SignatureNotValid),
                "key byte {} bit {}",
                byte,
                bit
            );
        }
    }
}

#[test]
fn every_one_bit_change_of_the_signature_is_refused() {
    for byte in 0..SIGNATURE.len() {
        for bit in 0..8 {
            let mut signature = SIGNATURE;
            signature[byte] ^= 1 << bit;
            assert_eq!(
                verify_claim(&PUBLIC_KEY, &MESSAGE, &signature),
                Err(Error::SignatureNotValid),
                "signature byte {} bit {}",
                byte,
                bit
            );
        }
    }
}

#[test]
fn every_one_bit_change_of_the_message_is_refused() {
    for byte in 0..MESSAGE.len() {
        for bit in 0..8 {
            let mut message = MESSAGE;
            message[byte] ^= 1 << bit;
            assert_eq!(
                verify_claim(&PUBLIC_KEY, &message, &SIGNATURE),
                Err(Error::SignatureNotValid)
            );
        }
    }
}

#[test]
fn message_of_another_length_is_refused() {
    assert_eq!(
        verify_claim(&PUBLIC_KEY, b"", &SIGNATURE),
        Err(Error::SignatureNotValid)
    );
    assert_eq!(
        verify_claim(&PUBLIC_KEY, &[1, 2, 3, 4], &SIGNATURE),
        Err(Error::SignatureNotValid)
    );
    assert_eq!(
        verify_claim(&PUBLIC_KEY, &[1, 2, 3, 4, 5, 6], &SIGNATURE),
        Err(Error::SignatureNotValid)
    );
}

#[test]
fn key_of_wrong_length_is_refused() {
    assert_eq!(
        verify_claim(&PUBLIC_KEY[..31], &MESSAGE, &SIGNATURE),
        Err(Error::SignatureNotValid)
    );
    let mut long = PUBLIC_KEY.to_vec();
    long.push(0);
    assert_eq!(
        verify_claim(&long, &MESSAGE, &SIGNATURE),
        Err(Error::SignatureNotValid)
    );
    assert_eq!(
        verify_claim(b"", &MESSAGE, &SIGNATURE),
        Err(Error::SignatureNotValid)
    );
}

#[test]
fn key_off_the_curve_is_refused() {
    let mut key = [0u8; 32];
    key[0] = 2;
    assert_eq!(
        verify_claim(&key, &MESSAGE, &SIGNATURE),
        Err(Error::SignatureNotValid)
    );
}

#[test]
fn key_of_another_signer_is_refused() {
    let mut key = [0u8; 32];
    key[0] = 1;
    assert_eq!(
        verify_claim(&key, &MESSAGE, &SIGNATURE),
        Err(Error::SignatureNotValid)
    );
}

#[test]
fn signature_of_wrong_length_is_refused() {
    let mut long = SIGNATURE.to_vec();
    long.push(0);
    assert_eq!(
        verify_claim(&PUBLIC_KEY, &MESSAGE, &long),
        Err(Error::SignatureNotValid)
    );
    assert_eq!(
        verify_claim(&PUBLIC_KEY, &MESSAGE, b""),
        Err(Error::SignatureNotValid)
    );
    assert_eq!(
        verify_claim(&PUBLIC_KEY, &MESSAGE, &SIGNATURE[..32]),
        Err(Error::SignatureNotValid)
    );
}

#[test]
fn signature_with_a_high_bit_in_its_last_byte_is_refused() {
    for mask in [0x20u8, 0x40, 0x80, 0xe0] {
        let mut signature = SIGNATURE;
        signature[63] |= mask;
        assert_eq!(
            verify_claim(&PUBLIC_KEY, &MESSAGE, &signature),
            Err(Error::SignatureNotValid)
        );
    }
}

#[test]
fn signature_of_zeroes_is_refused() {
    assert_eq!(
        verify_claim(&PUBLIC_KEY, &MESSAGE, &[0u8; 64]),
        Err(Error::SignatureNotValid)
    );
}

#[test]
fn fixed_material_has_its_stated_sizes() {
    assert_eq!(PUBLIC_KEY.len(), 32);
    assert_eq!(SIGNATURE.len(), 64);
    assert_eq!(MESSAGE, [1, 2, 3, 4, 5]);
    assert_eq!(PUBLIC_KEY[0], 64);
    assert_eq!(PUBLIC_KEY[31], 123);
    assert_eq!(SIGNATURE[0], 176);
    assert_eq!(SIGNATURE[63], 13);
}

#[test]
fn attempt_walks_through_its_states() {
    let state = ClaimState::Start;
    let state = state.advance(true);
    assert_eq!(state, ClaimState::ParsingKey);
    let state = state.advance(true);
    assert_eq!(state, ClaimState::ParsingSignature);
    let state = state.advance(true);
    assert_eq!(state, ClaimState::Verifying);
    let state = state.advance(true);
    assert_eq!(state, ClaimState::Authorized);
    assert_eq!(state.result(), Ok(()));
}

#[test]
fn start_moves_on_whatever_it_is_told() {
    assert_eq!(ClaimState::Start.advance(false), ClaimState::ParsingKey);
    assert_eq!(ClaimState::Start.advance(true), ClaimState::ParsingKey);
}

#[test]
fn failure_at_any_step_denies() {
    assert_eq!(ClaimState::ParsingKey.advance(false), ClaimState::Denied);
    assert_eq!(
        ClaimState::ParsingSignature.advance(false),
        ClaimState::Denied
    );
    assert_eq!(ClaimState::Verifying.advance(false), ClaimState::Denied);
}

#[test]
fn final_states_do_not_move() {
    for succeeded in [false, true] {
        assert_eq!(ClaimState::Denied.advance(succeeded), ClaimState::Denied);
        assert_eq!(
            ClaimState::Authorized.advance(succeeded),
            ClaimState::Authorized
        );
    }
}

#[test]
fn only_the_authorized_state_reports_success() {
    assert_eq!(ClaimState::Authorized.result(), Ok(()));
    for state in [
        ClaimState::Start,
        ClaimState::ParsingKey,
        ClaimState::ParsingSignature,
        ClaimState::Verifying,
        ClaimState::Denied,
    ] {
        assert_eq!(state.result(), Err(Error::SignatureNotValid));
    }
}

#[test]
fn attempt_is_authorized_only_if_all_three_steps_succeed() {
    for key in [false, true] {
        for signature in [false, true] {
            for verified in [false, true] {
                let end = ClaimState::Start
                    .advance(true)
                    .advance(key)
                    .advance(signature)
                    .advance(verified);
                if key && signature && verified {
                    assert_eq!(end, ClaimState::Authorized);
                } else {
                    assert_eq!(end, ClaimState::Denied);
                }
            }
        }
    }
}
