//! The ledger's state, its abstract model, and its four state transitions.
use std::collections::BTreeMap;
use vstd::prelude::*;

use crate::total::{
    lemma_total_bounds_entry, lemma_total_bounds_pair, lemma_total_insert, lemma_total_remove,
    total,
};

verus! {

broadcast use vstd::std_specs::btree::group_btree_axioms;

/// An opaque identifier of a ledger participant.
pub type AccountId = u64;

/// A non-negative quantity of the token.
pub type Balance = u64;

/// A record of one successful transition, in the order transitions happened.
#[derive(Clone, Copy, Debug, PartialEq, Eq, Structural)]
pub enum Event {
    /// Tokens moved: from, to, amount.
    Transfer(AccountId, AccountId, Balance),
    /// An allowance changed by the given delta: owner, spender, amount.
    Approval(AccountId, AccountId, Balance),
}

/// Why an operation was refused; a refused operation changes nothing.
#[derive(Clone, Copy, Debug, PartialEq, Eq, Structural)]
pub enum Error {
    /// `init` was called on a ledger that is already initialized.
    AlreadyInitialized,
    /// The caller or source account holds no balance entry.
    NoSuchAccount,
    /// The amount is not strictly less than the source's balance.
    InsufficientBalance,
    /// No allowance entry exists for the (source, destination) pair.
    NoAllowance,
    /// The amount exceeds the recorded allowance.
    InsufficientAllowance,
}

/// The abstract state of a ledger.
pub struct LedgerModel {
    pub total_supply: Balance,
    pub owner: AccountId,
    pub initialized: bool,
    pub name: Seq<u8>,
    pub ticker: Seq<u8>,
    pub balances: Map<AccountId, Balance>,
    /// Keyed by (owner of the funds, account the allowance is for).
    pub allowances: Map<(AccountId, AccountId), Balance>,
    pub events: Seq<Event>,
}

impl LedgerModel {
    /// The state's invariant: before `init` nobody holds a balance entry;
    /// afterwards the entries add up to exactly the total supply.
    pub open spec fn valid(self) -> bool {
        &&& self.balances.dom().finite()
        &&& if self.initialized {
            total(self.balances) == self.total_supply
        } else {
            self.balances == Map::<AccountId, Balance>::empty()
        }
    }

    /// The balance of `a`, zero where `a` has no entry.
    pub open spec fn balance_of(self, a: AccountId) -> Balance {
        if self.balances.contains_key(a) {
            self.balances[a]
        } else {
            0
        }
    }

    /// What `owner` has allowed towards `spender`, zero where there is no entry.
    pub open spec fn allowance(self, owner: AccountId, spender: AccountId) -> Balance {
        if self.allowances.contains_key((owner, spender)) {
            self.allowances[(owner, spender)]
        } else {
            0
        }
    }

    /// The outcome of `init(caller)`.
    pub open spec fn init_check(self) -> Result<(), Error> {
        if self.initialized {
            Err(Error::AlreadyInitialized)
        } else {
            Ok(())
        }
    }

    /// The state after a successful `init(caller)`.
    pub open spec fn after_init(self, caller: AccountId) -> LedgerModel {
        LedgerModel {
            balances: self.balances.insert(caller, self.total_supply),
            owner: caller,
            initialized: true,
            ..self
        }
    }

    /// The outcome of `transfer(from, to, amount)`: the source must hold an
    /// entry with strictly more than `amount`.
    pub open spec fn transfer_check(self, from: AccountId, to: AccountId, amount: Balance) -> Result<
        (),
        Error,
    > {
        if !self.balances.contains_key(from) {
            Err(Error::NoSuchAccount)
        } else if self.balances[from] <= amount {
            Err(Error::InsufficientBalance)
        } else {
            Ok(())
        }
    }

    /// The state after a successful `transfer(from, to, amount)`: the source is
    /// debited, then the destination credited (its entry created if absent),
    /// and one `Transfer` notification is appended.
    pub open spec fn after_transfer(self, from: AccountId, to: AccountId, amount: Balance) -> LedgerModel {
        let debited = self.balances.insert(from, (self.balances[from] - amount) as Balance);
        let credited = if debited.contains_key(to) {
            debited.insert(to, (debited[to] + amount) as Balance)
        } else {
            debited.insert(to, amount)
        };
        LedgerModel {
            balances: credited,
            events: self.events.push(Event::Transfer(from, to, amount)),
            ..self
        }
    }

    /// The outcome of `approve(caller, spender, amount)`: the caller must hold
    /// a balance entry.
    pub open spec fn approve_check(self, caller: AccountId) -> Result<(), Error> {
        if !self.balances.contains_key(caller) {
            Err(Error::NoSuchAccount)
        } else {
            Ok(())
        }
    }

    /// The state after a successful `approve(caller, spender, amount)`: the
    /// allowance grows by `amount` and an `Approval` with that delta is appended.
    pub open spec fn after_approve(self, caller: AccountId, spender: AccountId, amount: Balance) -> LedgerModel {
        LedgerModel {
            allowances: self.allowances.insert(
                (caller, spender),
                (self.allowance(caller, spender) + amount) as Balance,
            ),
            events: self.events.push(Event::Approval(caller, spender, amount)),
            ..self
        }
    }

    /// The outcome of `transfer_from(from, to, amount)`: the allowance of the
    /// pair (from, to) must exist and cover `amount`, then the transfer's own
    /// conditions apply.
    pub open spec fn transfer_from_check(self, from: AccountId, to: AccountId, amount: Balance) -> Result<
        (),
        Error,
    > {
        if !self.allowances.contains_key((from, to)) {
            Err(Error::NoAllowance)
        } else if self.allowances[(from, to)] < amount {
            Err(Error::InsufficientAllowance)
        } else {
            self.transfer_check(from, to, amount)
        }
    }

    /// The first step of a successful `transfer_from(from, to, amount)`: the
    /// allowance is consumed and reported by an `Approval`.
    pub open spec fn after_consume(self, from: AccountId, to: AccountId, amount: Balance) -> LedgerModel {
        LedgerModel {
            allowances: self.allowances.insert(
                (from, to),
                (self.allowances[(from, to)] - amount) as Balance,
            ),
            events: self.events.push(Event::Approval(from, to, amount)),
            ..self
        }
    }

    /// The state after a successful `transfer_from(from, to, amount)`: the
    /// allowance is consumed, then the transfer takes effect with its own
    /// `Transfer` notification.
    pub open spec fn after_transfer_from(self, from: AccountId, to: AccountId, amount: Balance) -> LedgerModel {
        self.after_consume(from, to, amount).after_transfer(from, to, amount)
    }
}

/// A successful transfer keeps the state valid.
pub proof fn lemma_transfer_keeps_valid(m: LedgerModel, from: AccountId, to: AccountId, amount: Balance)
    requires
        m.valid(),
        m.transfer_check(from, to, amount) is Ok,
    ensures
        m.after_transfer(from, to, amount).valid(),
        from != to ==> m.balance_of(to) + amount <= m.total_supply,
{
    let b = m.balances;
    let debited = b.insert(from, (b[from] - amount) as Balance);
    lemma_total_insert(b, from, (b[from] - amount) as Balance);
    lemma_total_remove(b, from);
    lemma_total_bounds_entry(b, from);
    assert(total(debited) == total(b) - amount);
    if debited.contains_key(to) {
        lemma_total_insert(debited, to, (debited[to] + amount) as Balance);
        lemma_total_remove(debited, to);
        if from != to {
            lemma_total_bounds_pair(b, from, to);
        }
    } else {
        lemma_total_insert(debited, to, amount);
        assert(debited.remove(to) =~= debited);
    }
}

/// The ledger: total supply, owner, metadata, balances, allowances, and the
/// notifications emitted so far.
pub struct Ledger {
    total_supply: Balance,
    owner: AccountId,
    initialized: bool,
    name: Vec<u8>,
    ticker: Vec<u8>,
    balances: BTreeMap<AccountId, Balance>,
    allowed: BTreeMap<(AccountId, AccountId), Balance>,
    events: Vec<Event>,
}

impl View for Ledger {
    type V = LedgerModel;

    closed spec fn view(&self) -> LedgerModel {
        LedgerModel {
            total_supply: self.total_supply,
            owner: self.owner,
            initialized: self.initialized,
            name: self.name@,
            ticker: self.ticker@,
            balances: self.balances@,
            allowances: self.allowed@,
            events: self.events@,
        }
    }
}

impl Ledger {
    /// The ledger's invariant.
    pub open spec fn wf(&self) -> bool {
        self@.valid()
    }

    /// A ledger at genesis: not yet initialized, with no balances, no
    /// allowances, no notifications, and the owner unset (zero).
    pub fn new(total_supply: Balance, name: Vec<u8>, ticker: Vec<u8>) -> (r: Ledger)
        ensures
            r.wf(),
            r@ == (LedgerModel {
                total_supply,
                owner: 0,
                initialized: false,
                name: name@,
                ticker: ticker@,
                balances: Map::empty(),
                allowances: Map::empty(),
                events: Seq::empty(),
            }),
    {
        let r = Ledger {
            total_supply,
            owner: 0,
            initialized: false,
            name,
            ticker,
            balances: BTreeMap::new(),
            allowed: BTreeMap::new(),
            events: Vec::new(),
        };
        assert(r.events@ =~= Seq::<Event>::empty());
        r
    }

    /// Mints the whole supply to `caller` and makes it the owner; allowed once.
    pub fn init(&mut self, caller: AccountId) -> (r: Result<(), Error>)
        requires
            old(self).wf(),
        ensures
            final(self).wf(),
            r == old(self)@.init_check(),
            r is Ok ==> final(self)@ == old(self)@.after_init(caller),
            r is Err ==> final(self)@ == old(self)@,
    {
        if self.initialized {
            return Err(Error::AlreadyInitialized);
        }
        self.balances.insert(caller, self.total_supply);
        self.owner = caller;
        self.initialized = true;
        proof {
            lemma_total_insert(Map::<AccountId, Balance>::empty(), caller, self.total_supply);
            assert(Map::<AccountId, Balance>::empty().remove(caller) =~= Map::empty());
            assert(total(Map::<AccountId, Balance>::empty()) == 0);
        }
        Ok(())
    }
    /// Whether the balance-moving step may run: returns the source's balance
    /// when it does, the refusal otherwise.
    fn check_transfer(&self, from: AccountId, to: AccountId, amount: Balance) -> (r: Result<
        Balance,
        Error,
    >)
        ensures
            match r {
                Ok(b) => self@.transfer_check(from, to, amount) is Ok && b == self@.balances[from],
                Err(e) => self@.transfer_check(from, to, amount) == Err::<(), Error>(e),
            },
    {
        match self.balances.get(&from) {
            None => Err(Error::NoSuchAccount),
            Some(b) => {
                if *b <= amount {
                    Err(Error::InsufficientBalance)
                } else {
                    Ok(*b)
                }
            },
        }
    }

    /// Moves `amount` from `from` to `to` and records the notification; the
    /// checks have already passed.
    fn commit_transfer(&mut self, from: AccountId, to: AccountId, amount: Balance, sender_balance: Balance)
        requires
            old(self).wf(),
            old(self)@.transfer_check(from, to, amount) is Ok,
            sender_balance == old(self)@.balances[from],
        ensures
            final(self).wf(),
            final(self)@ == old(self)@.after_transfer(from, to, amount),
    {
        proof {
            lemma_transfer_keeps_valid(self@, from, to, amount);
        }
        self.events.push(Event::Transfer(from, to, amount));
        self.balances.insert(from, sender_balance - amount);
        let credited = match self.balances.get(&to) {
            Some(b) => *b + amount,
            None => amount,
        };
        self.balances.insert(to, credited);
    }

    /// Moves `amount` from `caller` to `to`. The caller must hold a balance
    /// entry with strictly more than `amount`.
    pub fn transfer(&mut self, caller: AccountId, to: AccountId, amount: Balance) -> (r: Result<
        (),
        Error,
    >)
        requires
            old(self).wf(),
        ensures
            final(self).wf(),
            r == old(self)@.transfer_check(caller, to, amount),
            r is Ok ==> final(self)@ == old(self)@.after_transfer(caller, to, amount),
            r is Err ==> final(self)@ == old(self)@,
    {
        match self.check_transfer(caller, to, amount) {
            Ok(sender_balance) => {
                self.commit_transfer(caller, to, amount, sender_balance);
                Ok(())
            },
            Err(e) => Err(e),
        }
    }

    /// Grows the allowance of (`caller`, `spender`) by `amount`, creating it
    /// if absent. The caller must hold a balance entry. The grown allowance
    /// must fit in a `Balance`.
    pub fn approve(&mut self, caller: AccountId, spender: AccountId, amount: Balance) -> (r: Result<
        (),
        Error,
    >)
        requires
            old(self).wf(),
            old(self)@.allowance(caller, spender) + amount <= Balance::MAX,
        ensures
            final(self).wf(),
            r == old(self)@.approve_check(caller),
            r is Ok ==> final(self)@ == old(self)@.after_approve(caller, spender, amount),
            r is Err ==> final(self)@ == old(self)@,
    {
        if !self.balances.contains_key(&caller) {
            return Err(Error::NoSuchAccount);
        }
        self.events.push(Event::Approval(caller, spender, amount));
        let current = match self.allowed.get(&(caller, spender)) {
            Some(a) => *a,
            None => 0,
        };
        self.allowed.insert((caller, spender), current + amount);
        Ok(())
    }

    /// Consumes `amount` of the allowance of the pair (`from`, `to`) and moves
    /// `amount` from `from` to `to`. Either both steps happen or neither does.
    pub fn transfer_from(&mut self, from: AccountId, to: AccountId, amount: Balance) -> (r: Result<
        (),
        Error,
    >)
        requires
            old(self).wf(),
        ensures
            final(self).wf(),
            r == old(self)@.transfer_from_check(from, to, amount),
            r is Ok ==> final(self)@ == old(self)@.after_transfer_from(from, to, amount),
            r is Err ==> final(self)@ == old(self)@,
    {
        let allowed = match self.allowed.get(&(from, to)) {
            Some(a) => *a,
            None => {
                return Err(Error::NoAllowance);
            },
        };
        if allowed < amount {
            return Err(Error::InsufficientAllowance);
        }
        let sender_balance = match self.check_transfer(from, to, amount) {
            Ok(b) => b,
            Err(e) => {
                return Err(e);
            },
        };
        self.allowed.insert((from, to), allowed - amount);
        self.events.push(Event::Approval(from, to, amount));
        self.commit_transfer(from, to, amount, sender_balance);
        Ok(())
    }

    /// Whether `init` has run.
    pub fn is_initialized(&self) -> (r: bool)
        ensures
            r == self@.initialized,
    {
        self.initialized
    }

    /// The supply fixed at genesis.
    pub fn total_supply(&self) -> (r: Balance)
        ensures
            r == self@.total_supply,
    {
        self.total_supply
    }

    /// The account that received the supply on `init` (zero before it).
    pub fn owner(&self) -> (r: AccountId)
        ensures
            r == self@.owner,
    {
        self.owner
    }

    /// The token's name.
    pub fn name(&self) -> (r: &Vec<u8>)
        ensures
            r@ == self@.name,
    {
        &self.name
    }

    /// The token's ticker symbol.
    pub fn ticker(&self) -> (r: &Vec<u8>)
        ensures
            r@ == self@.ticker,
    {
        &self.ticker
    }

    /// The balance of `account`, zero where it has no entry.
    pub fn balance_of(&self, account: AccountId) -> (r: Balance)
        ensures
            r == self@.balance_of(account),
    {
        match self.balances.get(&account) {
            Some(b) => *b,
            None => 0,
        }
    }

    /// What `owner` has allowed towards `spender`, zero where there is no entry.
    pub fn allowance(&self, owner: AccountId, spender: AccountId) -> (r: Balance)
        ensures
            r == self@.allowance(owner, spender),
    {
        match self.allowed.get(&(owner, spender)) {
            Some(a) => *a,
            None => 0,
        }
    }

    /// The notifications emitted so far, oldest first.
    pub fn events(&self) -> (r: &Vec<Event>)
        ensures
            r@ == self@.events,
    {
        &self.events
    }
}

} // verus!
