//! The deposit ledger: for each client identifier at most one recorded amount,
//! written only by a deposit that the depositor's free balance covers.

use vstd::prelude::*;
use crate::error::Error;

verus! {

/// A quantity of the native currency.
pub type Balance = u128;

/// One entry of the ledger: the amount recorded for a client identifier.
struct DepositRecord {
    client_id: Vec<u8>,
    amount: Balance,
}

/// The ledger. Seen from outside it is a map from client identifier to amount;
/// inside it is a list of records in which no identifier occurs twice.
pub struct Pallet {
    deposits: Vec<DepositRecord>,
}

/// Whether some record of `records` is for `client_id`.
spec fn has_record(records: Seq<DepositRecord>, client_id: Seq<u8>) -> bool {
    exists|i: int| 0 <= i < records.len() && #[trigger] records[i].client_id@ == client_id
}

/// The place of a record for `client_id` in `records`, where there is one.
spec fn record_index(records: Seq<DepositRecord>, client_id: Seq<u8>) -> int {
    choose|i: int| 0 <= i < records.len() && #[trigger] records[i].client_id@ == client_id
}

/// No client identifier has two records.
spec fn distinct_clients(records: Seq<DepositRecord>) -> bool {
    forall|i: int, j: int|
        0 <= i < records.len() && 0 <= j < records.len() && #[trigger] records[i].client_id@
            == #[trigger] records[j].client_id@ ==> i == j
}

/// The map that a list of records stands for.
spec fn records_map(records: Seq<DepositRecord>) -> Map<Seq<u8>, Balance> {
    Map::new(
        |client_id: Seq<u8>| has_record(records, client_id),
        |client_id: Seq<u8>| records[record_index(records, client_id)].amount,
    )
}

/// Whether a deposit of `amount` is accepted from an account whose free
/// balance is `free_balance`.
pub open spec fn deposit_result(free_balance: Balance, amount: Balance) -> Result<(), Error> {
    if free_balance < amount {
        Err(Error::InsufficientBalance)
    } else {
        Ok(())
    }
}

/// The ledger after a deposit attempt: the entry for `client_id` is set to
/// `amount` if the balance covers it, and nothing changes if it does not.
pub open spec fn ledger_after(
    ledger: Map<Seq<u8>, Balance>,
    free_balance: Balance,
    client_id: Seq<u8>,
    amount: Balance,
) -> Map<Seq<u8>, Balance> {
    if free_balance < amount {
        ledger
    } else {
        ledger.insert(client_id, amount)
    }
}

/// Compares two byte strings.
pub fn same_bytes(a: &[u8], b: &[u8]) -> (same: bool)
    ensures
        same == (a@ == b@),
{
    if a.len() != b.len() {
        return false;
    }
    let mut i: usize = 0;
    while i < a.len()
        invariant
            a@.len() == b@.len(),
            0 <= i <= a@.len(),
            forall|k: int| 0 <= k < i ==> a@[k] == b@[k],
        decreases a@.len() - i,
    {
        if a[i] != b[i] {
            return false;
        }
        i += 1;
    }
    assert(a@ =~= b@);
    true
}

/// Decides a deposit from the two amounts alone.
pub fn check_balance(free_balance: Balance, amount: Balance) -> (res: Result<(), Error>)
    ensures
        res == deposit_result(free_balance, amount),
{
    if free_balance < amount {
        Err(Error::InsufficientBalance)
    } else {
        Ok(())
    }
}

impl View for Pallet {
    type V = Map<Seq<u8>, Balance>;

    closed spec fn view(&self) -> Map<Seq<u8>, Balance> {
        records_map(self.deposits@)
    }
}

impl Pallet {
    #[verifier::type_invariant]
    spec fn well_formed(self) -> bool {
        distinct_clients(self.deposits@)
    }

    /// An empty ledger.
    pub fn new() -> (ledger: Pallet)
        ensures
            ledger@ == Map::<Seq<u8>, Balance>::empty(),
    {
        let ledger = Pallet { deposits: Vec::new() };
        assert(ledger@ =~= Map::<Seq<u8>, Balance>::empty());
        ledger
    }

    /// The place of the record for `client_id`, if there is one.
    fn position(&self, client_id: &[u8]) -> (found: Option<usize>)
        ensures
            match found {
                Some(i) => i < self.deposits@.len() && self.deposits@[i as int].client_id@
                    == client_id@,
                None => !has_record(self.deposits@, client_id@),
            },
    {
        let mut i: usize = 0;
        while i < self.deposits.len()
            invariant
                0 <= i <= self.deposits@.len(),
                forall|k: int| 0 <= k < i ==> self.deposits@[k].client_id@ != client_id@,
            decreases self.deposits@.len() - i,
        {
            if same_bytes(self.deposits[i].client_id.as_slice(), client_id) {
                return Some(i);
            }
            i += 1;
        }
        None
    }

    /// The amount recorded for `client_id`, if any.
    pub fn deposits(&self, client_id: &[u8]) -> (amount: Option<Balance>)
        ensures
            amount == (if self@.contains_key(client_id@) {
                Some(self@[client_id@])
            } else {
                None
            }),
    {
        proof {
            use_type_invariant(self);
        }
        match self.position(client_id) {
            Some(i) => {
                assert(has_record(self.deposits@, client_id@));
                Some(self.deposits[i].amount)
            },
            None => None,
        }
    }

    /// Records a deposit of `amount` for `client_id`, made by an account whose
    /// free balance is `free_balance`.
    ///
    /// If the balance does not cover the amount, the deposit is refused and the
    /// ledger stays as it was. Otherwise the entry for `client_id` is set to
    /// `amount`, whatever it held before. The balance itself is only looked at:
    /// nothing is taken from it.
    pub fn make_deposit(
        &mut self,
        free_balance: Balance,
        client_id: Vec<u8>,
        amount: Balance,
    ) -> (res: Result<(), Error>)
        ensures
            res == deposit_result(free_balance, amount),
            final(self)@ == ledger_after(old(self)@, free_balance, client_id@, amount),
    {
        proof {
            use_type_invariant(&*self);
        }
        if let Err(refusal) = check_balance(free_balance, amount) {
            return Err(refusal);
        }
        let found = self.position(client_id.as_slice());
        let mut records: Vec<DepositRecord> = Vec::new();
        std::mem::swap(&mut records, &mut self.deposits);
        let ghost before = records@;
        match found {
            Some(i) => {
                records[i] = DepositRecord { client_id, amount };
                proof {
                    lemma_overwrite_record(before, records@, i as int, client_id@, amount);
                }
            },
            None => {
                records.push(DepositRecord { client_id, amount });
                proof {
                    lemma_append_record(before, records@, client_id@, amount);
                }
            },
        }
        self.deposits = records;
        Ok(())
    }
}

/// Balance gating: a deposit of more than the free balance is refused with
/// `InsufficientBalance`, and the ledger stays as it was. In particular the
/// entry for the client is unchanged, or still absent.
pub proof fn lemma_uncovered_deposit_is_refused(
    ledger: Map<Seq<u8>, Balance>,
    free_balance: Balance,
    client_id: Seq<u8>,
    amount: Balance,
)
    requires
        amount > free_balance,
    ensures
        deposit_result(free_balance, amount) == Err::<(), Error>(Error::InsufficientBalance),
        ledger_after(ledger, free_balance, client_id, amount) == ledger,
{
}

/// A covered deposit is accepted, and afterwards the ledger holds exactly the
/// amount for the client, and for every other client what it held before.
pub proof fn lemma_covered_deposit_is_recorded(
    ledger: Map<Seq<u8>, Balance>,
    free_balance: Balance,
    client_id: Seq<u8>,
    amount: Balance,
)
    requires
        amount <= free_balance,
    ensures
        deposit_result(free_balance, amount) is Ok,
        ledger_after(ledger, free_balance, client_id, amount).contains_key(client_id),
        ledger_after(ledger, free_balance, client_id, amount)[client_id] == amount,
        forall|other: Seq<u8>|
            other != client_id ==> {
                &&& ledger_after(ledger, free_balance, client_id, amount).contains_key(other)
                    == ledger.contains_key(other)
                &&& ledger_after(ledger, free_balance, client_id, amount)[other] == ledger[other]
            },
{
}

/// Nothing is ever removed: a client that has an entry before a deposit
/// attempt, accepted or refused, for this client or another, has one after it.
pub proof fn lemma_deposit_removes_no_entry(
    ledger: Map<Seq<u8>, Balance>,
    free_balance: Balance,
    client_id: Seq<u8>,
    amount: Balance,
    recorded: Seq<u8>,
)
    requires
        ledger.contains_key(recorded),
    ensures
        ledger_after(ledger, free_balance, client_id, amount).contains_key(recorded),
{
}

/// Overwriting: of two covered deposits for one client the second replaces the
/// first. The ledger is what the second deposit alone would have left, and the
/// client's entry is the second amount, not the sum of the two.
pub proof fn lemma_later_deposit_replaces_earlier(
    ledger: Map<Seq<u8>, Balance>,
    client_id: Seq<u8>,
    first_balance: Balance,
    first: Balance,
    second_balance: Balance,
    second: Balance,
)
    requires
        first <= first_balance,
        second <= second_balance,
    ensures
        ledger_after(
            ledger_after(ledger, first_balance, client_id, first),
            second_balance,
            client_id,
            second,
        ) == ledger_after(ledger, second_balance, client_id, second),
        ledger_after(
            ledger_after(ledger, first_balance, client_id, first),
            second_balance,
            client_id,
            second,
        )[client_id] == second,
{
    assert(ledger.insert(client_id, first).insert(client_id, second) =~= ledger.insert(
        client_id,
        second,
    ));
}

/// Independence: deposits for two different clients may be made in either
/// order. Both orders leave the same ledger, and where both deposits are
/// covered it holds each client's own amount.
pub proof fn lemma_deposits_of_different_clients_commute(
    ledger: Map<Seq<u8>, Balance>,
    one: Seq<u8>,
    one_balance: Balance,
    one_amount: Balance,
    other: Seq<u8>,
    other_balance: Balance,
    other_amount: Balance,
)
    requires
        one != other,
    ensures
        ledger_after(
            ledger_after(ledger, one_balance, one, one_amount),
            other_balance,
            other,
            other_amount,
        ) == ledger_after(
            ledger_after(ledger, other_balance, other, other_amount),
            one_balance,
            one,
            one_amount,
        ),
        one_amount <= one_balance && other_amount <= other_balance ==> {
            let both = ledger_after(
                ledger_after(ledger, one_balance, one, one_amount),
                other_balance,
                other,
                other_amount,
            );
            &&& both.contains_key(one) && both[one] == one_amount
            &&& both.contains_key(other) && both[other] == other_amount
        },
{
    assert(ledger.insert(one, one_amount).insert(other, other_amount) =~= ledger.insert(
        other,
        other_amount,
    ).insert(one, one_amount));
}

/// Replacing the record of a client by one with another amount sets that
/// client's entry and keeps the list free of doubles.
proof fn lemma_overwrite_record(
    before: Seq<DepositRecord>,
    after: Seq<DepositRecord>,
    i: int,
    client_id: Seq<u8>,
    amount: Balance,
)
    requires
        distinct_clients(before),
        0 <= i < before.len(),
        before[i].client_id@ == client_id,
        after.len() == before.len(),
        after[i].client_id@ == client_id,
        after[i].amount == amount,
        forall|k: int| 0 <= k < before.len() && k != i ==> after[k] == before[k],
    ensures
        distinct_clients(after),
        records_map(after) == records_map(before).insert(client_id, amount),
{
    assert forall|k: int| 0 <= k < after.len() implies #[trigger] after[k].client_id@
        == before[k].client_id@ by {}
    assert forall|id: Seq<u8>| has_record(after, id) == has_record(before, id) by {
        if has_record(after, id) {
            let k = record_index(after, id);
            assert(before[k].client_id@ == id);
        }
        if has_record(before, id) {
            let k = record_index(before, id);
            assert(after[k].client_id@ == id);
        }
    }
    assert forall|id: Seq<u8>| has_record(after, id) implies #[trigger] records_map(after)[id]
        == records_map(before).insert(client_id, amount)[id] by {
        let k = record_index(after, id);
        assert(before[k].client_id@ == id);
        let j = record_index(before, id);
        assert(j == k);
    }
    assert(records_map(after) =~= records_map(before).insert(client_id, amount));
}

/// Adding a record for a client that had none sets that client's entry and
/// keeps the list free of doubles.
proof fn lemma_append_record(
    before: Seq<DepositRecord>,
    after: Seq<DepositRecord>,
    client_id: Seq<u8>,
    amount: Balance,
)
    requires
        distinct_clients(before),
        !has_record(before, client_id),
        after.len() == before.len() + 1,
        after[before.len() as int].client_id@ == client_id,
        after[before.len() as int].amount == amount,
        forall|k: int| 0 <= k < before.len() ==> after[k] == before[k],
    ensures
        distinct_clients(after),
        records_map(after) == records_map(before).insert(client_id, amount),
{
    let last = before.len() as int;
    assert forall|k: int| 0 <= k < before.len() implies #[trigger] after[k].client_id@
        != client_id by {
        assert(before[k].client_id@ == after[k].client_id@);
    }
    assert(has_record(after, client_id)) by {
        assert(after[last].client_id@ == client_id);
    }
    assert forall|id: Seq<u8>| id != client_id implies has_record(after, id) == has_record(
        before,
        id,
    ) by {
        if has_record(after, id) {
            let k = record_index(after, id);
            assert(before[k].client_id@ == id);
        }
        if has_record(before, id) {
            let k = record_index(before, id);
            assert(after[k].client_id@ == id);
        }
    }
    assert forall|id: Seq<u8>| has_record(after, id) implies #[trigger] records_map(after)[id]
        == records_map(before).insert(client_id, amount)[id] by {
        let k = record_index(after, id);
        if id != client_id {
            assert(before[k].client_id@ == id);
            let j = record_index(before, id);
            assert(j == k);
        }
    }
    assert(records_map(after) =~= records_map(before).insert(client_id, amount));
}

} // verus!
