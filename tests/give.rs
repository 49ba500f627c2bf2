use std::collections::HashMap;

use avion::executor::PerformGive;
use avion::give::{
    Action, BalanceView, Choice, Event, GiveRequest, Negotiation, Outcome, Phase, Rejection,
    DEFAULT_CONFIRMATION_WINDOW_MS,
};
use avion::ledger::{AccountKey, Direction, LookupError, UserBalances};

const GUILD: u64 = 77;

fn request(giver: u64, receiver: u64, amount: i32) -> GiveRequest {
    GiveRequest {
        giver_id: giver,
        receiver_id: receiver,
        receiver_is_bot: false,
        guild_id: GUILD,
        amount,
    }
}

fn wallet(w: i32) -> Result<UserBalances, LookupError> {
    Ok(UserBalances {
        bank_balance: 500,
        wallet_balance: w,
    })
}

/// Starts a negotiation and feeds it both balances at time 1000.
fn awaiting(req: GiveRequest, giver_wallet: i32, receiver_wallet: i32) -> (Negotiation, Action) {
    let (mut n, first) = Negotiation::start(req, 60_000);
    assert_eq!(first, Action::FetchBalances);
    let action = n.handle(
        Event::Balances {
            giver: wallet(giver_wallet),
            receiver: wallet(receiver_wallet),
        },
        1000,
    );
    (n, action)
}

/// A ledger as the store holds it: wallet and bank of each account.
type Table = HashMap<(u64, u64), (i64, i64)>;

fn commit(table: &mut Table, g: &PerformGive) {
    let (credit, debit) = g.updates();
    for u in [credit, debit] {
        let row = table
            .get_mut(&(u.account.user_id, u.account.guild_id))
            .expect("account exists");
        match u.direction {
            Direction::Credit => row.0 += u.amount as i64,
            Direction::Debit => row.0 -= u.amount as i64,
        }
    }
}

fn executed(action: Action) -> (PerformGive, BalanceView) {
    match action {
        Action::Execute(g, view) => (g, view),
        other => panic!("expected a commit, got {:?}", other),
    }
}

#[test]
fn confirmed_transfer_moves_amount() {
    let (mut n, action) = awaiting(request(1, 2, 40), 100, 20);
    assert_eq!(
        action,
        Action::AskConfirmation(BalanceView {
            giver_wallet: 60,
            receiver_wallet: 60,
        })
    );
    let action = n.handle(
        Event::Pressed {
            actor: 1,
            choice: Choice::Confirm,
        },
        2000,
    );
    let (g, view) = executed(action);
    assert_eq!(
        g,
        PerformGive {
            giver_id: 1,
            receiver_id: 2,
            guild_id: GUILD,
            amount: 40
        }
    );
    assert_eq!(view.giver_wallet, 60);
    assert_eq!(view.receiver_wallet, 60);
    assert_eq!(n.phase, Phase::Resolved(Outcome::Confirmed));

    let mut table: Table = HashMap::new();
    table.insert((1, GUILD), (100, 7));
    table.insert((2, GUILD), (20, 8));
    table.insert((3, GUILD), (5, 9));
    commit(&mut table, &g);
    assert_eq!(table[&(1, GUILD)], (60, 7));
    assert_eq!(table[&(2, GUILD)], (60, 8));
    assert_eq!(table[&(1, GUILD)].0 + table[&(2, GUILD)].0, 120);
    assert_eq!(table[&(3, GUILD)], (5, 9));
}

#[test]
fn updates_credit_receiver_then_debit_giver() {
    let g = PerformGive {
        giver_id: 10,
        receiver_id: 20,
        guild_id: 3,
        amount: 15,
    };
    let (credit, debit) = g.updates();
    assert_eq!(
        credit.account,
        AccountKey {
            user_id: 20,
            guild_id: 3
        }
    );
    assert_eq!(credit.direction, Direction::Credit);
    assert_eq!(credit.amount, 15);
    assert_eq!(
        debit.account,
        AccountKey {
            user_id: 10,
            guild_id: 3
        }
    );
    assert_eq!(debit.direction, Direction::Debit);
    assert_eq!(debit.amount, 15);
}

#[test]
fn cancelled_transfer_changes_nothing() {
    let (mut n, _) = awaiting(request(1, 2, 10), 100, 0);
    let action = n.handle(
        Event::Pressed {
            actor: 1,
            choice: Choice::Cancel,
        },
        1500,
    );
    assert_eq!(action, Action::ReportCancelled);
    assert_eq!(n.phase, Phase::Resolved(Outcome::Cancelled));
    let again = n.handle(
        Event::Pressed {
            actor: 1,
            choice: Choice::Confirm,
        },
        1600,
    );
    assert_eq!(again, Action::Ignore);
    assert_eq!(n.phase, Phase::Resolved(Outcome::Cancelled));
}

#[test]
fn insufficient_funds_reports_shortfall() {
    let (n, action) = awaiting(request(1, 2, 150), 100, 0);
    assert_eq!(
        action,
        Action::Reject(Rejection::InsufficientFunds { shortfall: 50 })
    );
    assert_eq!(
        n.phase,
        Phase::Resolved(Outcome::Rejected(Rejection::InsufficientFunds {
            shortfall: 50
        }))
    );
}

#[test]
fn exact_balance_is_enough() {
    let (_, action) = awaiting(request(1, 2, 100), 100, 0);
    assert_eq!(
        action,
        Action::AskConfirmation(BalanceView {
            giver_wallet: 0,
            receiver_wallet: 100,
        })
    );
}

#[test]
fn self_transfer_rejected_before_any_read() {
    let (n, action) = Negotiation::start(request(5, 5, 10), 60_000);
    assert_eq!(action, Action::Reject(Rejection::SelfTransfer));
    assert_eq!(
        n.phase,
        Phase::Resolved(Outcome::Rejected(Rejection::SelfTransfer))
    );
    assert!(n.is_resolved());
}

#[test]
fn bot_rejected_before_self_check() {
    let mut req = request(5, 5, 10);
    req.receiver_is_bot = true;
    let (n, action) = Negotiation::start(req, 60_000);
    assert_eq!(action, Action::Reject(Rejection::Bot));
    assert_eq!(n.phase, Phase::Resolved(Outcome::Rejected(Rejection::Bot)));

    let mut req = request(5, 6, 10);
    req.receiver_is_bot = true;
    assert_eq!(
        Negotiation::start(req, 60_000).1,
        Action::Reject(Rejection::Bot)
    );
}

#[test]
fn missing_accounts_are_rejected() {
    for (giver, receiver) in [
        (Err(LookupError::AccountNotFound), wallet(10)),
        (wallet(10), Err(LookupError::AccountNotFound)),
    ] {
        let (mut n, _) = Negotiation::start(request(1, 2, 5), 60_000);
        let action = n.handle(Event::Balances { giver, receiver }, 0);
        assert_eq!(action, Action::Reject(Rejection::AccountMissing));
        assert_eq!(
            n.phase,
            Phase::Resolved(Outcome::Rejected(Rejection::AccountMissing))
        );
    }
}

#[test]
fn store_failure_is_reported() {
    for (giver, receiver) in [
        (Err(LookupError::Store), wallet(10)),
        (wallet(10), Err(LookupError::Store)),
        (Err(LookupError::Store), Err(LookupError::AccountNotFound)),
    ] {
        let (mut n, _) = Negotiation::start(request(1, 2, 5), 60_000);
        let action = n.handle(Event::Balances { giver, receiver }, 0);
        assert_eq!(action, Action::Fail);
        assert_eq!(n.phase, Phase::Resolved(Outcome::StoreFailed));
    }
}

#[test]
fn times_out_at_window_end_never_before() {
    let (mut n, _) = awaiting(request(1, 2, 10), 100, 0);
    assert_eq!(n.handle(Event::Tick, 1000), Action::Ignore);
    assert_eq!(n.handle(Event::Tick, 60_999), Action::Ignore);
    assert!(matches!(n.phase, Phase::AwaitingConfirmation { .. }));
    assert_eq!(n.handle(Event::Tick, 61_000), Action::ReportTimedOut);
    assert_eq!(n.phase, Phase::Resolved(Outcome::TimedOut));
}

#[test]
fn late_confirmation_is_ignored() {
    let (mut n, _) = awaiting(request(1, 2, 10), 100, 0);
    let action = n.handle(
        Event::Pressed {
            actor: 1,
            choice: Choice::Confirm,
        },
        61_000,
    );
    assert_eq!(action, Action::ReportTimedOut);
    assert_eq!(n.phase, Phase::Resolved(Outcome::TimedOut));
    let again = n.handle(
        Event::Pressed {
            actor: 1,
            choice: Choice::Confirm,
        },
        61_001,
    );
    assert_eq!(again, Action::Ignore);
}

#[test]
fn second_confirmation_has_no_effect() {
    let (mut n, _) = awaiting(request(1, 2, 10), 100, 0);
    let press = Event::Pressed {
        actor: 1,
        choice: Choice::Confirm,
    };
    let first = n.handle(press, 1100);
    assert!(matches!(first, Action::Execute(..)));
    let settled = n;
    let second = n.handle(press, 1200);
    assert_eq!(second, Action::Ignore);
    assert_eq!(n, settled);
}

#[test]
fn other_member_cannot_confirm() {
    let (mut n, _) = awaiting(request(1, 2, 10), 100, 0);
    let before = n;
    for actor in [2, 3] {
        for choice in [Choice::Confirm, Choice::Cancel] {
            let action = n.handle(Event::Pressed { actor, choice }, 1500);
            assert_eq!(action, Action::Ignore);
            assert_eq!(n, before);
        }
    }
    let action = n.handle(
        Event::Pressed {
            actor: 1,
            choice: Choice::Confirm,
        },
        1600,
    );
    assert!(matches!(action, Action::Execute(..)));
}

#[test]
fn disjoint_transfers_are_independent() {
    let (mut ab, _) = awaiting(request(1, 2, 10), 50, 50);
    let (mut cd, _) = awaiting(request(3, 4, 10), 50, 50);
    let g_ab = executed(ab.handle(
        Event::Pressed {
            actor: 1,
            choice: Choice::Confirm,
        },
        1100,
    ))
    .0;
    let g_cd = executed(cd.handle(
        Event::Pressed {
            actor: 3,
            choice: Choice::Confirm,
        },
        1100,
    ))
    .0;
    let mut start: Table = HashMap::new();
    for user in 1..=5u64 {
        start.insert((user, GUILD), (50, 0));
    }
    let mut one = start.clone();
    commit(&mut one, &g_ab);
    commit(&mut one, &g_cd);
    let mut other = start.clone();
    commit(&mut other, &g_cd);
    commit(&mut other, &g_ab);
    assert_eq!(one, other);
    assert_eq!(one[&(1, GUILD)].0, 40);
    assert_eq!(one[&(2, GUILD)].0, 60);
    assert_eq!(one[&(3, GUILD)].0, 40);
    assert_eq!(one[&(4, GUILD)].0, 60);
    assert_eq!(one[&(5, GUILD)], (50, 0));
}

#[test]
fn events_out_of_phase_are_ignored() {
    let (mut n, _) = Negotiation::start(request(1, 2, 10), 60_000);
    let press = Event::Pressed {
        actor: 1,
        choice: Choice::Confirm,
    };
    assert_eq!(n.handle(press, 10), Action::Ignore);
    assert_eq!(n.handle(Event::Tick, 10), Action::Ignore);
    assert_eq!(n.phase, Phase::FetchingBalances);
    n.handle(
        Event::Balances {
            giver: wallet(100),
            receiver: wallet(0),
        },
        20,
    );
    let waiting = n;
    let again = n.handle(
        Event::Balances {
            giver: wallet(0),
            receiver: wallet(0),
        },
        30,
    );
    assert_eq!(again, Action::Ignore);
    assert_eq!(n, waiting);
}

#[test]
fn window_length_is_configurable() {
    let (mut n, _) = Negotiation::start(request(1, 2, 10), DEFAULT_CONFIRMATION_WINDOW_MS);
    assert_eq!(n.window, 180_000);
    n.handle(
        Event::Balances {
            giver: wallet(100),
            receiver: wallet(0),
        },
        0,
    );
    assert_eq!(n.handle(Event::Tick, 179_999), Action::Ignore);
    assert_eq!(n.handle(Event::Tick, 180_000), Action::ReportTimedOut);
}

#[test]
fn choice_custom_ids() {
    assert_eq!(Choice::Confirm.custom_id(), "confirm_give");
    assert_eq!(Choice::Cancel.custom_id(), "cancel_give");
    assert_eq!(Choice::from_custom_id("confirm_give"), Some(Choice::Confirm));
    assert_eq!(Choice::from_custom_id("cancel_give"), Some(Choice::Cancel));
    assert_eq!(Choice::from_custom_id("give"), None);
    assert_eq!(Choice::from_custom_id(""), None);
}
