//! Properties that hold of every valid ledger state and every sequence of
//! transitions, stated over the model that the operations' contracts use.
use vstd::prelude::*;

use crate::ledger::{lemma_transfer_keeps_valid, AccountId, Balance, Error, LedgerModel};
use crate::total::{lemma_total_bounds_entry, lemma_total_insert, total};

verus! {

broadcast use vstd::std_specs::btree::group_btree_axioms;

/// In a valid state no balance is negative, and none exceeds the total supply.
pub proof fn law_balance_bounded(m: LedgerModel, a: AccountId)
    requires
        m.valid(),
    ensures
        0 <= m.balance_of(a) <= m.total_supply,
{
    if m.balances.contains_key(a) {
        lemma_total_bounds_entry(m.balances, a);
    }
}

/// Every successful transition leads from a valid state to a valid state.
pub proof fn law_transitions_keep_valid(
    m: LedgerModel,
    caller: AccountId,
    other: AccountId,
    amount: Balance,
)
    requires
        m.valid(),
    ensures
        m.init_check() is Ok ==> m.after_init(caller).valid(),
        m.transfer_check(caller, other, amount) is Ok ==> m.after_transfer(
            caller,
            other,
            amount,
        ).valid(),
        m.approve_check(caller) is Ok ==> m.after_approve(caller, other, amount).valid(),
        m.transfer_from_check(caller, other, amount) is Ok ==> m.after_transfer_from(
            caller,
            other,
            amount,
        ).valid(),
{
    if m.init_check() is Ok {
        lemma_total_insert(m.balances, caller, m.total_supply);
        assert(m.balances.remove(caller) =~= Map::empty());
        assert(total(Map::<AccountId, Balance>::empty()) == 0);
    }
    if m.transfer_check(caller, other, amount) is Ok {
        lemma_transfer_keeps_valid(m, caller, other, amount);
    }
    if m.transfer_from_check(caller, other, amount) is Ok {
        let consumed = m.after_consume(caller, other, amount);
        lemma_transfer_keeps_valid(consumed, caller, other, amount);
    }
}

/// A successful transfer between two distinct accounts lowers the source's
/// balance by exactly `amount` and raises the destination's by exactly
/// `amount`; whatever the accounts, the sum of all balances is unchanged.
pub proof fn law_transfer_moves_amount(
    m: LedgerModel,
    from: AccountId,
    to: AccountId,
    amount: Balance,
)
    requires
        m.valid(),
        m.transfer_check(from, to, amount) is Ok,
    ensures
        total(m.after_transfer(from, to, amount).balances) == total(m.balances),
        from != to ==> m.after_transfer(from, to, amount).balance_of(from) == m.balance_of(from)
            - amount,
        from != to ==> m.after_transfer(from, to, amount).balance_of(to) == m.balance_of(to)
            + amount,
        from == to ==> m.after_transfer(from, to, amount).balance_of(from) == m.balance_of(from),
{
    lemma_transfer_keeps_valid(m, from, to, amount);
}

/// A successful delegated transfer moves the balances as a transfer does,
/// and keeps the sum of all balances.
pub proof fn law_transfer_from_moves_amount(
    m: LedgerModel,
    from: AccountId,
    to: AccountId,
    amount: Balance,
)
    requires
        m.valid(),
        m.transfer_from_check(from, to, amount) is Ok,
    ensures
        total(m.after_transfer_from(from, to, amount).balances) == total(m.balances),
        from != to ==> m.after_transfer_from(from, to, amount).balance_of(from) == m.balance_of(
            from,
        ) - amount,
        from != to ==> m.after_transfer_from(from, to, amount).balance_of(to) == m.balance_of(to)
            + amount,
{
    lemma_transfer_keeps_valid(m.after_consume(from, to, amount), from, to, amount);
}

/// Once a ledger is initialized, `init` is refused, and every successful
/// transition keeps it initialized; so in any sequence of calls, a second
/// `init` is refused with `AlreadyInitialized`.
pub proof fn law_init_only_once(m: LedgerModel, caller: AccountId, other: AccountId, amount: Balance)
    requires
        m.initialized,
    ensures
        m.init_check() == Err::<(), Error>(Error::AlreadyInitialized),
        m.after_init(caller).init_check() == Err::<(), Error>(Error::AlreadyInitialized),
        m.after_transfer(caller, other, amount).initialized,
        m.after_approve(caller, other, amount).initialized,
        m.after_transfer_from(caller, other, amount).initialized,
{
}

/// The first `init` on a fresh ledger succeeds, and one right after it is refused.
pub proof fn law_init_then_rejected(m: LedgerModel, first: AccountId)
    requires
        !m.initialized,
    ensures
        m.init_check() is Ok,
        m.after_init(first).init_check() == Err::<(), Error>(Error::AlreadyInitialized),
{
}

/// Approvals add up: approving `x` and then `y` for the same pair leaves an
/// allowance `x + y` above where it started.
pub proof fn law_approve_additive(
    m: LedgerModel,
    owner: AccountId,
    spender: AccountId,
    x: Balance,
    y: Balance,
)
    requires
        m.approve_check(owner) is Ok,
        m.allowance(owner, spender) + x + y <= Balance::MAX,
    ensures
        m.after_approve(owner, spender, x).approve_check(owner) is Ok,
        m.after_approve(owner, spender, x).after_approve(owner, spender, y).allowance(
            owner,
            spender,
        ) == m.allowance(owner, spender) + x + y,
{
}

/// A successful delegated transfer consumes exactly `amount` of the pair's
/// allowance; one asking for more than the allowance is refused, with
/// `InsufficientAllowance` where the allowance entry exists.
pub proof fn law_transfer_from_consumes_allowance(
    m: LedgerModel,
    from: AccountId,
    to: AccountId,
    amount: Balance,
)
    ensures
        m.transfer_from_check(from, to, amount) is Ok ==> m.allowance(from, to) == m.after_transfer_from(
            from,
            to,
            amount,
        ).allowance(from, to) + amount,
        amount > m.allowance(from, to) && m.allowances.contains_key((from, to))
            ==> m.transfer_from_check(from, to, amount) == Err::<(), Error>(
            Error::InsufficientAllowance,
        ),
        amount > m.allowance(from, to) && !m.allowances.contains_key((from, to))
            ==> m.transfer_from_check(from, to, amount) == Err::<(), Error>(Error::NoAllowance),
{
}

} // verus!
