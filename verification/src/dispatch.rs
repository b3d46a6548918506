//! The two calls that the ledger answers, what each announces on success, and
//! the function that routes a call to its operation.

use vstd::prelude::*;
use crate::claim::fixed_claim_outcome;
use crate::error::Error;
use crate::ledger::{deposit_result, ledger_after, Balance, Pallet};

verus! {

/// A request from an authenticated caller.
#[derive(Clone, Debug, PartialEq, Eq)]
pub enum Call {
    /// Record `amount` for `client_id`.
    MakeDeposit { client_id: Vec<u8>, amount: Balance },
    /// Ask for the claim to be authorized.
    ClaimReward,
}

/// What a successful call announces to the outside.
#[derive(Clone, Debug, PartialEq, Eq)]
pub enum Event {
    /// The amount was recorded for the client identifier.
    Deposit(Vec<u8>, Balance),
    /// The claim was authorized.
    ClaimAuthorized,
}

/// Whether `call` succeeds for a caller whose free balance is `free_balance`.
pub open spec fn call_result(call: Call, free_balance: Balance) -> Result<(), Error> {
    match call {
        Call::MakeDeposit { client_id, amount } => deposit_result(free_balance, amount),
        Call::ClaimReward => fixed_claim_outcome(),
    }
}

/// The ledger after `call`: a deposit acts on it, a claim does not.
pub open spec fn ledger_after_call(
    ledger: Map<Seq<u8>, Balance>,
    free_balance: Balance,
    call: Call,
) -> Map<Seq<u8>, Balance> {
    match call {
        Call::MakeDeposit { client_id, amount } => ledger_after(
            ledger,
            free_balance,
            client_id@,
            amount,
        ),
        Call::ClaimReward => ledger,
    }
}

/// Whether `event` is the announcement that belongs to `call`.
pub open spec fn announces(event: Event, call: Call) -> bool {
    match call {
        Call::MakeDeposit { client_id, amount } => {
            &&& event matches Event::Deposit(recorded_id, recorded)
            &&& recorded_id@ == client_id@
            &&& recorded == amount
        },
        Call::ClaimReward => event is ClaimAuthorized,
    }
}

impl Pallet {
    /// Routes `call` to its operation. `free_balance` is the caller's free
    /// balance as the balance oracle reported it. On success the result is the
    /// event to announce; on refusal it is the operation's error, and the
    /// ledger is as it was.
    pub fn dispatch(&mut self, free_balance: Balance, call: Call) -> (res: Result<Event, Error>)
        ensures
            final(self)@ == ledger_after_call(old(self)@, free_balance, call),
            match res {
                Ok(event) => call_result(call, free_balance) is Ok && announces(event, call),
                Err(refusal) => call_result(call, free_balance) == Err::<(), Error>(refusal),
            },
    {
        match call {
            Call::MakeDeposit { client_id, amount } => {
                let announced: Vec<u8> = client_id.clone();
                assert(announced@ =~= client_id@);
                match self.make_deposit(free_balance, client_id, amount) {
                    Ok(()) => Ok(Event::Deposit(announced, amount)),
                    Err(refusal) => Err(refusal),
                }
            },
            Call::ClaimReward => match Pallet::claim_reward() {
                Ok(()) => Ok(Event::ClaimAuthorized),
                Err(refusal) => Err(refusal),
            },
        }
    }
}

/// A refused call changes nothing: the ledger after it is the ledger before.
pub proof fn lemma_refused_call_changes_nothing(
    ledger: Map<Seq<u8>, Balance>,
    free_balance: Balance,
    call: Call,
)
    requires
        call_result(call, free_balance) is Err,
    ensures
        ledger_after_call(ledger, free_balance, call) == ledger,
{
}

} // verus!
