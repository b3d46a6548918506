use pallet_fluence::{Call, Error, Event, Pallet};

#[test]
fn deposit_call_records_and_announces() {
    let mut ledger = Pallet::new();
    let call = Call::MakeDeposit {
        client_id: b"client-42".to_vec(),
        amount: 75,
    };
    assert_eq!(
        ledger.dispatch(100, call),
        Ok(Event::Deposit(b"client-42".to_vec(), 75))
    );
    assert_eq!(ledger.deposits(b"client-42"), Some(75));
}

#[test]
fn refused_deposit_call_announces_nothing_and_changes_nothing() {
    let mut ledger = Pallet::new();
    assert_eq!(ledger.make_deposit(100, b"client-42".to_vec(), 75), Ok(()));
    let call = Call::MakeDeposit {
        client_id: b"client-42".to_vec(),
        amount: 150,
    };
    assert_eq!(ledger.dispatch(100, call), Err(Error::InsufficientBalance));
    assert_eq!(ledger.deposits(b"client-42"), Some(75));
}

#[test]
fn claim_call_announces_the_authorization() {
    let mut ledger = Pallet::new();
    assert_eq!(ledger.make_deposit(100, b"c1".to_vec(), 10), Ok(()));
    assert_eq!(
        ledger.dispatch(0, Call::ClaimReward),
        Ok(Event::ClaimAuthorized)
    );
    assert_eq!(ledger.deposits(b"c1"), Some(10));
}

#[test]
fn claim_call_does_not_look_at_the_balance() {
    let mut ledger = Pallet::new();
    assert_eq!(
        ledger.dispatch(0, Call::ClaimReward),
        ledger.dispatch(u128::MAX, Call::ClaimReward)
    );
}
