//! The ledger of per-account balances, as the transfer logic sees it.
//!
//! The ledger itself lives in an external relational store. This module holds the
//! plain values read from it, the relative wallet updates written to it, and a
//! mathematical model of the table against which those updates are specified.
use vstd::prelude::*;

verus! {

/// Identifies an account: one owner in one community.
#[derive(Clone, Copy, Debug, PartialEq, Eq, Structural, Hash)]
pub struct AccountKey {
    pub user_id: u64,
    pub guild_id: u64,
}

/// The balances of one account, as read from the store.
#[derive(Clone, Copy, Debug, PartialEq, Eq, Structural)]
pub struct UserBalances {
    pub bank_balance: i32,
    pub wallet_balance: i32,
}

/// Why a balance lookup produced no account.
#[derive(Clone, Copy, Debug, PartialEq, Eq, Structural)]
pub enum LookupError {
    /// The owner never registered in this community.
    AccountNotFound,
    /// The store could not answer.
    Store,
}

/// One row of the ledger, as a mathematical value.
pub struct LedgerRow {
    pub wallet: int,
    pub bank: int,
}

/// The whole ledger: the row of each registered account.
pub type LedgerModel = Map<AccountKey, LedgerRow>;

/// Which way a wallet update moves a balance.
#[derive(Clone, Copy, Debug, PartialEq, Eq, Structural)]
pub enum Direction {
    Credit,
    Debit,
}

/// A relative change of one account's wallet balance: the store adds or subtracts
/// `amount` from whatever the balance is when the update runs.
#[derive(Clone, Copy, Debug, PartialEq, Eq, Structural)]
pub struct WalletUpdate {
    pub account: AccountKey,
    pub direction: Direction,
    pub amount: i32,
}

impl WalletUpdate {
    /// The signed change that the update makes to the wallet balance.
    pub open spec fn delta(self) -> int {
        match self.direction {
            Direction::Credit => self.amount as int,
            Direction::Debit => -(self.amount as int),
        }
    }
}

/// The ledger after one wallet update. An update of an account that has no row
/// touches nothing; the bank balance is never touched.
pub open spec fn apply_update(ledger: LedgerModel, u: WalletUpdate) -> LedgerModel {
    if ledger.contains_key(u.account) {
        ledger.insert(
            u.account,
            LedgerRow { wallet: ledger[u.account].wallet + u.delta(), bank: ledger[u.account].bank },
        )
    } else {
        ledger
    }
}

/// Whether an account must be created, given what the store said about its existence
/// (`None` when the store gave no answer to the existence query).
pub fn needs_registration(exists: Option<bool>) -> (r: bool)
    ensures
        r == (exists != Some(true)),
{
    match exists {
        Some(true) => false,
        _ => true,
    }
}

} // verus!
