//! The registry of accounts and the operations on their storage deposits.
use vstd::prelude::*;
use vstd::hash_map::StringHashMap;

use crate::amount::{cost_of, storage_cost, ONE_UNIT};

verus! {

/// The record kept for each registered identity.
#[derive(Clone, Copy, Debug, PartialEq, Eq, Structural)]
pub struct Account {
    /// Value held against the account's storage footprint.
    pub total: u128,
    /// Value committed to the pool's staking; it must be released before
    /// the account may leave.
    pub reserved: u128,
    /// The account's current footprint in persisted bytes.
    pub used_bytes: u64,
}

/// The current price of persisted state, as the host reports it.
#[derive(Clone, Copy, Debug, PartialEq, Eq, Structural)]
pub struct CostOracle {
    /// Price of one persisted byte.
    pub price_per_byte: u128,
    /// Footprint that a newly registered account is assumed to need.
    pub min_storage_bytes: u64,
}

/// What an account holds and what it may withdraw.
#[derive(Clone, Copy, Debug, PartialEq, Eq, Structural)]
pub struct StorageBalance {
    pub total: u128,
    pub available: u128,
}

/// The smallest commitment that registers an account, and the largest
/// (`None`: unbounded).
#[derive(Clone, Copy, Debug, PartialEq, Eq, Structural)]
pub struct StorageBalanceBounds {
    pub min: u128,
    pub max: Option<u128>,
}

/// An outgoing transfer of value that the host must carry out.
#[derive(Clone, Debug, PartialEq, Eq)]
pub struct Transfer {
    pub receiver: String,
    pub amount: u128,
}

/// The result of a successful operation, with the transfer it asks for.
#[derive(Clone, Debug)]
pub struct Receipt<T> {
    pub value: T,
    pub transfer: Option<Transfer>,
}

/// Why an operation was refused. A refused operation changes nothing and
/// asks for no transfer.
#[derive(Clone, Copy, Debug, PartialEq, Eq, Structural)]
pub enum LedgerError {
    /// The call did not carry exactly one unit of value.
    RequiresOneUnit,
    /// The deposit is below the minimum commitment of a new account.
    DepositLessThanMinStorage,
    /// The caller has no record.
    NotRegistered,
    /// The requested amount exceeds what the account may withdraw.
    WithdrawTooMuch,
    /// The account still has reserved value.
    UnregisterNotEmpty,
}

/// The commitment needed to register a new account.
pub open spec fn min_balance(o: CostOracle) -> int {
    cost_of(o.price_per_byte, o.min_storage_bytes)
}

/// The cost of the bytes that an account uses.
pub open spec fn footprint_cost(a: Account, price_per_byte: u128) -> int {
    cost_of(price_per_byte, a.used_bytes)
}

/// The account's commitment covers its footprint.
pub open spec fn covered(a: Account, price_per_byte: u128) -> bool {
    a.total >= footprint_cost(a, price_per_byte)
}

/// The part of the commitment that the footprint does not need.
pub open spec fn available_of(a: Account, price_per_byte: u128) -> int {
    if covered(a, price_per_byte) {
        a.total - footprint_cost(a, price_per_byte)
    } else {
        0
    }
}

/// The balance summary of an account.
pub open spec fn balance_spec(a: Account, price_per_byte: u128) -> StorageBalance {
    StorageBalance { total: a.total, available: available_of(a, price_per_byte) as u128 }
}

/// A freshly registered account holding `total`.
pub open spec fn fresh_account(total: int, o: CostOracle) -> Account {
    Account { total: total as u128, reserved: 0, used_bytes: o.min_storage_bytes }
}

/// `t` is one transfer of `amount` to `to`.
pub open spec fn sends(t: Option<Transfer>, to: Seq<char>, amount: int) -> bool {
    &&& t is Some
    &&& t->0.receiver@ == to
    &&& t->0.amount == amount
}

/// `t` refunds `amount` to `to`, and is absent when there is nothing to refund.
pub open spec fn refunds(t: Option<Transfer>, to: Seq<char>, amount: int) -> bool {
    if amount > 0 {
        sends(t, to, amount)
    } else {
        t is None
    }
}

/// The identity that a deposit is for: the one named, else the caller.
pub open spec fn deposit_target(caller: Seq<char>, account_id: Option<String>) -> Seq<char> {
    match account_id {
        Some(s) => s@,
        None => caller,
    }
}

/// Accepts a call only if it carries exactly one unit of value.
pub fn check_one_unit(attached: u128) -> (r: Result<(), LedgerError>)
    ensures
        r is Ok <==> attached == ONE_UNIT,
        r is Err ==> r == Err::<(), LedgerError>(LedgerError::RequiresOneUnit),
{
    if attached == ONE_UNIT {
        Ok(())
    } else {
        Err(LedgerError::RequiresOneUnit)
    }
}

/// The part of `a`'s commitment that its footprint does not need.
pub fn storage_available(a: &Account, price_per_byte: u128) -> (r: u128)
    ensures
        r == available_of(*a, price_per_byte),
{
    let cost = storage_cost(price_per_byte, a.used_bytes);
    a.total.saturating_sub(cost)
}

fn balance_of_account(a: &Account, price_per_byte: u128) -> (r: StorageBalance)
    ensures
        r == balance_spec(*a, price_per_byte),
{
    StorageBalance { total: a.total, available: storage_available(a, price_per_byte) }
}

/// The accounts registered for storage, keyed by identity.
pub struct StorageLedger {
    accounts: StringHashMap<Account>,
}

impl View for StorageLedger {
    type V = Map<Seq<char>, Account>;

    closed spec fn view(&self) -> Map<Seq<char>, Account> {
        self.accounts@
    }
}

impl StorageLedger {
    /// Every registered account's commitment covers its footprint at
    /// `price_per_byte`.
    pub open spec fn covers(&self, price_per_byte: u128) -> bool {
        forall|id: Seq<char>| #[trigger]
            self@.contains_key(id) ==> covered(self@[id], price_per_byte)
    }

    /// An empty registry.
    pub fn new() -> (r: Self)
        ensures
            r@ == Map::<Seq<char>, Account>::empty(),
            forall|price: u128| #[trigger] r.covers(price),
    {
        StorageLedger { accounts: StringHashMap::new() }
    }

    /// The record of `account_id`, if it is registered.
    pub fn account(&self, account_id: &str) -> (r: Option<Account>)
        ensures
            r is Some <==> self@.contains_key(account_id@),
            r is Some ==> r->0 == self@[account_id@],
    {
        match self.accounts.get(account_id) {
            Some(a) => Some(*a),
            None => None,
        }
    }

    /// Stores `a` as the record of `account_id`, as the staking side of the
    /// pool does when it reserves value or changes an account's footprint.
    pub fn put_account(&mut self, account_id: String, a: Account)
        ensures
            final(self)@ == old(self)@.insert(account_id@, a),
            forall|price: u128|
                #![trigger final(self).covers(price)]
                old(self).covers(price) && covered(a, price) ==> final(self).covers(price),
    {
        let ghost before = self@;
        let ghost id = account_id@;
        self.accounts.insert(account_id, a);
        proof {
            assert forall|price: u128|
                old(self).covers(price) && covered(a, price) implies #[trigger] self.covers(
                price,
            ) by {
                assert forall|k: Seq<char>| #[trigger] self@.contains_key(k) implies covered(
                    self@[k],
                    price,
                ) by {
                    if k != id {
                        assert(before.contains_key(k));
                    }
                }
            }
        }
    }

    /// Registers an identity, or refunds a deposit to one already registered.
    ///
    /// The identity is `account_id`, or the caller when it is `None`. For a
    /// registered identity nothing changes and the whole of `attached` goes
    /// back to the caller. Otherwise `attached` must reach the minimum
    /// commitment; with `registration_only` the account keeps exactly that
    /// minimum and the excess goes back to the caller, else it keeps all of
    /// `attached`. Returns the identity's balance afterwards.
    pub fn storage_deposit(
        &mut self,
        oracle: &CostOracle,
        caller: &String,
        attached: u128,
        account_id: Option<String>,
        registration_only: Option<bool>,
    ) -> (r: Result<Receipt<StorageBalance>, LedgerError>)
        ensures
            ({
                let id = deposit_target(caller@, account_id);
                let price = oracle.price_per_byte;
                let registered = old(self)@.contains_key(id);
                let only = registration_only == Some(true);
                &&& r is Err <==> !registered && attached < min_balance(*oracle)
                &&& r is Err ==> r == Err::<Receipt<StorageBalance>, LedgerError>(
                    LedgerError::DepositLessThanMinStorage,
                ) && final(self)@ == old(self)@
                &&& r is Ok ==> {
                    &&& registered ==> final(self)@ == old(self)@ && refunds(
                        r->Ok_0.transfer,
                        caller@,
                        attached as int,
                    )
                    &&& !registered && only ==> final(self)@ == old(self)@.insert(
                        id,
                        fresh_account(min_balance(*oracle), *oracle),
                    ) && refunds(r->Ok_0.transfer, caller@, attached - min_balance(*oracle))
                    &&& !registered && !only ==> final(self)@ == old(self)@.insert(
                        id,
                        fresh_account(attached as int, *oracle),
                    ) && r->Ok_0.transfer is None
                    &&& final(self)@.contains_key(id)
                    &&& r->Ok_0.value == balance_spec(final(self)@[id], price)
                }
                &&& old(self).covers(price) ==> final(self).covers(price)
            }),
    {
        let ghost before = self@;
        let id: String = match account_id {
            Some(s) => s,
            None => caller.clone(),
        };
        let price = oracle.price_per_byte;
        let transfer: Option<Transfer>;
        let account: Account;
        match self.accounts.get(id.as_str()) {
            Some(existing) => {
                account = *existing;
                if attached != 0 {
                    transfer = Some(Transfer { receiver: caller.clone(), amount: attached });
                } else {
                    transfer = None;
                }
            },
            None => {
                let min = storage_cost(price, oracle.min_storage_bytes);
                if attached < min {
                    return Err(LedgerError::DepositLessThanMinStorage);
                }
                let only = match registration_only {
                    Some(b) => b,
                    None => false,
                };
                let committed = if only {
                    min
                } else {
                    attached
                };
                account = Account {
                    total: committed,
                    reserved: 0,
                    used_bytes: oracle.min_storage_bytes,
                };
                self.accounts.insert(id.clone(), account);
                if attached - committed > 0 {
                    transfer = Some(
                        Transfer { receiver: caller.clone(), amount: attached - committed },
                    );
                } else {
                    transfer = None;
                }
            },
        }
        proof {
            if old(self).covers(price) {
                assert forall|k: Seq<char>| #[trigger] self@.contains_key(k) implies covered(
                    self@[k],
                    price,
                ) by {
                    if k != id@ {
                        assert(before.contains_key(k));
                    }
                }
            }
        }
        Ok(Receipt { value: balance_of_account(&account, price), transfer })
    }
    /// Withdraws `amount` from the caller's commitment, or all that it may
    /// withdraw when `amount` is `None`, and sends it to the caller.
    ///
    /// The call must carry exactly one unit of value, the caller must be
    /// registered, and `amount` may not exceed what is available. The
    /// withdrawn value is taken off the account's commitment, so that the
    /// commitment still covers the footprint afterwards.
    pub fn storage_withdraw(
        &mut self,
        oracle: &CostOracle,
        caller: &String,
        attached: u128,
        amount: Option<u128>,
    ) -> (r: Result<Receipt<StorageBalance>, LedgerError>)
        ensures
            ({
                let id = caller@;
                let price = oracle.price_per_byte;
                let a = old(self)@[id];
                let avail = available_of(a, price);
                let wanted = match amount {
                    Some(x) => x as int,
                    None => avail,
                };
                &&& attached != ONE_UNIT ==> r == Err::<Receipt<StorageBalance>, LedgerError>(
                    LedgerError::RequiresOneUnit,
                )
                &&& attached == ONE_UNIT && !old(self)@.contains_key(id) ==> r == Err::<
                    Receipt<StorageBalance>,
                    LedgerError,
                >(LedgerError::NotRegistered)
                &&& attached == ONE_UNIT && old(self)@.contains_key(id) && wanted > avail ==> r
                    == Err::<Receipt<StorageBalance>, LedgerError>(LedgerError::WithdrawTooMuch)
                &&& r is Ok <==> attached == ONE_UNIT && old(self)@.contains_key(id) && wanted
                    <= avail
                &&& r is Err ==> final(self)@ == old(self)@
                &&& r is Ok ==> {
                    &&& final(self)@ == old(self)@.insert(
                        id,
                        Account { total: (a.total - wanted) as u128, ..a },
                    )
                    &&& sends(r->Ok_0.transfer, caller@, wanted)
                    &&& r->Ok_0.value == balance_spec(final(self)@[id], price)
                    &&& amount is None ==> available_of(final(self)@[id], price) == 0
                }
                &&& old(self).covers(price) ==> final(self).covers(price)
            }),
    {
        let ghost before = self@;
        check_one_unit(attached)?;
        let price = oracle.price_per_byte;
        let a = match self.accounts.get(caller.as_str()) {
            Some(a) => *a,
            None => {
                return Err(LedgerError::NotRegistered);
            },
        };
        let available = storage_available(&a, price);
        let wanted = match amount {
            Some(x) => x,
            None => available,
        };
        if wanted > available {
            return Err(LedgerError::WithdrawTooMuch);
        }
        let updated = Account { total: a.total - wanted, ..a };
        self.accounts.insert(caller.clone(), updated);
        proof {
            if old(self).covers(price) {
                assert forall|k: Seq<char>| #[trigger] self@.contains_key(k) implies covered(
                    self@[k],
                    price,
                ) by {
                    if k != caller@ {
                        assert(before.contains_key(k));
                    }
                }
            }
        }
        Ok(Receipt {
            value: balance_of_account(&updated, price),
            transfer: Some(Transfer { receiver: caller.clone(), amount: wanted }),
        })
    }

    /// Removes the caller's record and sends its whole commitment back.
    ///
    /// The call must carry exactly one unit of value. Returns `false`, and
    /// changes nothing, when the caller is not registered; refuses an
    /// account that still has reserved value. `force` has no effect.
    pub fn storage_unregister(
        &mut self,
        caller: &String,
        attached: u128,
        _force: Option<bool>,
    ) -> (r: Result<Receipt<bool>, LedgerError>)
        ensures
            ({
                let id = caller@;
                let registered = old(self)@.contains_key(id);
                let a = old(self)@[id];
                &&& attached != ONE_UNIT ==> r == Err::<Receipt<bool>, LedgerError>(
                    LedgerError::RequiresOneUnit,
                )
                &&& attached == ONE_UNIT && registered && a.reserved > 0 ==> r == Err::<
                    Receipt<bool>,
                    LedgerError,
                >(LedgerError::UnregisterNotEmpty)
                &&& r is Ok <==> attached == ONE_UNIT && (!registered || a.reserved == 0)
                &&& r is Err ==> final(self)@ == old(self)@
                &&& r is Ok && !registered ==> {
                    &&& final(self)@ == old(self)@
                    &&& !r->Ok_0.value
                    &&& r->Ok_0.transfer is None
                }
                &&& r is Ok && registered ==> {
                    &&& final(self)@ == old(self)@.remove(id)
                    &&& r->Ok_0.value
                    &&& sends(r->Ok_0.transfer, caller@, a.total as int)
                }
                &&& forall|price: u128| #[trigger]
                    old(self).covers(price) ==> final(self).covers(price)
            }),
    {
        check_one_unit(attached)?;
        let a = match self.accounts.get(caller.as_str()) {
            Some(a) => *a,
            None => {
                return Ok(Receipt { value: false, transfer: None });
            },
        };
        if a.reserved > 0 {
            return Err(LedgerError::UnregisterNotEmpty);
        }
        self.accounts.remove(caller.as_str());
        Ok(Receipt {
            value: true,
            transfer: Some(Transfer { receiver: caller.clone(), amount: a.total }),
        })
    }

    /// The smallest commitment that registers a new account, at the current
    /// price; there is no largest.
    pub fn storage_balance_bounds(&self, oracle: &CostOracle) -> (r: StorageBalanceBounds)
        ensures
            r.min == min_balance(*oracle),
            r.max is None,
    {
        StorageBalanceBounds {
            min: storage_cost(oracle.price_per_byte, oracle.min_storage_bytes),
            max: None,
        }
    }

    /// The balance of `account_id`, or `None` when it is not registered.
    pub fn storage_balance_of(&self, oracle: &CostOracle, account_id: &str) -> (r: Option<
        StorageBalance,
    >)
        ensures
            r is Some <==> self@.contains_key(account_id@),
            r is Some ==> r->0 == balance_spec(self@[account_id@], oracle.price_per_byte),
    {
        match self.accounts.get(account_id) {
            Some(a) => Some(balance_of_account(a, oracle.price_per_byte)),
            None => None,
        }
    }
}

} // verus!
