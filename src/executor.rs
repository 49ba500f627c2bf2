//! The transfer executor: the two relative wallet updates that commit a confirmed
//! transfer as one atomic unit.
use vstd::prelude::*;
use crate::ledger::{AccountKey, Direction, LedgerModel, LedgerRow, WalletUpdate, apply_update};

verus! {

/// A confirmed transfer, ready to be committed.
#[derive(Clone, Copy, Debug, PartialEq, Eq, Structural)]
pub struct PerformGive {
    pub giver_id: u64,
    pub receiver_id: u64,
    pub guild_id: u64,
    pub amount: i32,
}

impl PerformGive {
    pub open spec fn giver_key(self) -> AccountKey {
        AccountKey { user_id: self.giver_id, guild_id: self.guild_id }
    }

    pub open spec fn receiver_key(self) -> AccountKey {
        AccountKey { user_id: self.receiver_id, guild_id: self.guild_id }
    }

    /// The update that credits the receiver.
    pub open spec fn credit(self) -> WalletUpdate {
        WalletUpdate { account: self.receiver_key(), direction: Direction::Credit, amount: self.amount }
    }

    /// The update that debits the giver.
    pub open spec fn debit(self) -> WalletUpdate {
        WalletUpdate { account: self.giver_key(), direction: Direction::Debit, amount: self.amount }
    }

    /// The ledger once the transfer has committed: both updates, in order.
    pub open spec fn committed(self, ledger: LedgerModel) -> LedgerModel {
        apply_update(apply_update(ledger, self.credit()), self.debit())
    }

    /// Whether the transfer touches the given account.
    pub open spec fn touches(self, key: AccountKey) -> bool {
        key == self.giver_key() || key == self.receiver_key()
    }

    /// The two updates to run inside one store transaction, in this order: credit the
    /// receiver, then debit the giver. Either both are committed or neither is.
    pub fn updates(&self) -> (r: (WalletUpdate, WalletUpdate))
        ensures
            r.0 == self.credit(),
            r.1 == self.debit(),
    {
        let credit = WalletUpdate {
            account: AccountKey { user_id: self.receiver_id, guild_id: self.guild_id },
            direction: Direction::Credit,
            amount: self.amount,
        };
        let debit = WalletUpdate {
            account: AccountKey { user_id: self.giver_id, guild_id: self.guild_id },
            direction: Direction::Debit,
            amount: self.amount,
        };
        (credit, debit)
    }
}

/// A committed transfer between two distinct registered accounts takes `amount` from
/// the giver's wallet and adds it to the receiver's: the sum of the two wallets is
/// kept, both bank balances are kept, and every other account is left as it was.
pub proof fn lemma_commit_moves_amount(g: PerformGive, ledger: LedgerModel)
    requires
        g.giver_id != g.receiver_id,
        ledger.contains_key(g.giver_key()),
        ledger.contains_key(g.receiver_key()),
    ensures
        ({
            let after = g.committed(ledger);
            &&& after.dom() == ledger.dom()
            &&& after[g.giver_key()].wallet == ledger[g.giver_key()].wallet - g.amount
            &&& after[g.receiver_key()].wallet == ledger[g.receiver_key()].wallet + g.amount
            &&& after[g.giver_key()].wallet + after[g.receiver_key()].wallet
                == ledger[g.giver_key()].wallet + ledger[g.receiver_key()].wallet
            &&& after[g.giver_key()].bank == ledger[g.giver_key()].bank
            &&& after[g.receiver_key()].bank == ledger[g.receiver_key()].bank
            &&& forall|k: AccountKey| #[trigger] ledger.contains_key(k) && !g.touches(k) ==> after[k] == ledger[k]
        }),
{
    let mid = apply_update(ledger, g.credit());
    assert(mid.dom() =~= ledger.dom());
    assert(g.committed(ledger).dom() =~= ledger.dom());
}

/// Two transfers over disjoint accounts do not interfere: committing them in either
/// order gives the same ledger, each one's accounts end as that transfer alone leaves
/// them, and every account that neither touches is left as it was.
pub proof fn lemma_disjoint_commits_independent(g1: PerformGive, g2: PerformGive, ledger: LedgerModel)
    requires
        !g2.touches(g1.giver_key()),
        !g2.touches(g1.receiver_key()),
    ensures
        g2.committed(g1.committed(ledger)) == g1.committed(g2.committed(ledger)),
        forall|k: AccountKey| #[trigger] g1.touches(k) ==> g2.committed(g1.committed(ledger)).contains_key(k)
            == g1.committed(ledger).contains_key(k)
            && g2.committed(g1.committed(ledger))[k] == g1.committed(ledger)[k],
        forall|k: AccountKey| #[trigger] g2.touches(k) ==> g2.committed(g1.committed(ledger)).contains_key(k)
            == g2.committed(ledger).contains_key(k)
            && g2.committed(g1.committed(ledger))[k] == g2.committed(ledger)[k],
        forall|k: AccountKey|
            !g1.touches(k) && !g2.touches(k) ==> #[trigger] g2.committed(g1.committed(ledger)).contains_key(k)
                == ledger.contains_key(k)
                && g2.committed(g1.committed(ledger))[k] == ledger[k],
{
    let a = g2.committed(g1.committed(ledger));
    let b = g1.committed(g2.committed(ledger));
    assert(a =~= b);
}

} // verus!
