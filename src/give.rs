//! The transfer negotiation: validates a request to give coins to another member,
//! checks the balances read from the store, waits a bounded time for the giver to
//! confirm or cancel, and resolves exactly once.
//!
//! The negotiation performs no I/O. Each input (balances read, a button pressed,
//! time passing) is handed to it as an [`Event`] together with the current time,
//! and each transition answers with the [`Action`] the caller must carry out.
use vstd::prelude::*;
use crate::executor::PerformGive;
use crate::ledger::{AccountKey, LedgerModel, LookupError, UserBalances};

verus! {

/// How long the giver has to answer, in milliseconds, unless configured otherwise.
pub const DEFAULT_CONFIRMATION_WINDOW_MS: u64 = 180_000;

/// A member's request to give coins to another member of the same community.
#[derive(Clone, Copy, Debug, PartialEq, Eq, Structural)]
pub struct GiveRequest {
    pub giver_id: u64,
    pub receiver_id: u64,
    /// Whether the receiver is an automated account.
    pub receiver_is_bot: bool,
    pub guild_id: u64,
    pub amount: i32,
}

impl GiveRequest {
    /// The transfer that confirming this request commits.
    pub open spec fn transfer(self) -> PerformGive {
        PerformGive {
            giver_id: self.giver_id,
            receiver_id: self.receiver_id,
            guild_id: self.guild_id,
            amount: self.amount,
        }
    }
}

/// Why a request is refused before any confirmation is asked for.
#[derive(Clone, Copy, Debug, PartialEq, Eq, Structural)]
pub enum Rejection {
    /// The receiver is an automated account.
    Bot,
    /// The receiver is the giver.
    SelfTransfer,
    /// The giver or the receiver has no account in the community.
    AccountMissing,
    /// The giver's wallet holds less than the amount; `shortfall` is what is missing.
    InsufficientFunds { shortfall: i64 },
}

/// The button the giver pressed.
#[derive(Clone, Copy, Debug, PartialEq, Eq, Structural)]
pub enum Choice {
    Confirm,
    Cancel,
}

/// The balances the two wallets will have once the transfer commits, computed from
/// the snapshot read when the negotiation started. The commit itself applies
/// relative updates, so a balance that moved in the meantime leaves this view
/// stale but never the ledger wrong.
#[derive(Clone, Copy, Debug, PartialEq, Eq, Structural)]
pub struct BalanceView {
    pub giver_wallet: i64,
    pub receiver_wallet: i64,
}

/// How a negotiation ended.
#[derive(Clone, Copy, Debug, PartialEq, Eq, Structural)]
pub enum Outcome {
    Rejected(Rejection),
    Confirmed,
    Cancelled,
    TimedOut,
    /// Reading a balance failed in the store.
    StoreFailed,
}

/// Where a negotiation stands.
#[derive(Clone, Copy, Debug, PartialEq, Eq, Structural)]
pub enum Phase {
    /// The request is valid; both accounts must be read.
    FetchingBalances,
    /// The giver was asked to confirm at time `opened_at`.
    AwaitingConfirmation { view: BalanceView, opened_at: u64 },
    /// Final: later events change nothing.
    Resolved(Outcome),
}

/// An input to a negotiation.
#[derive(Clone, Copy, Debug)]
pub enum Event {
    /// The result of reading the giver's and the receiver's accounts.
    Balances {
        giver: Result<UserBalances, LookupError>,
        receiver: Result<UserBalances, LookupError>,
    },
    /// A member pressed one of the two buttons.
    Pressed { actor: u64, choice: Choice },
    /// Time passed without any other input.
    Tick,
}

/// What the caller must do after a transition.
#[derive(Clone, Copy, Debug, PartialEq, Eq, Structural)]
pub enum Action {
    /// Nothing: the event had no effect.
    Ignore,
    /// Read both accounts and report them with [`Event::Balances`].
    FetchBalances,
    /// Tell the giver why the request was refused.
    Reject(Rejection),
    /// Report a failure of the store.
    Fail,
    /// Show the proposed balances and ask the giver to confirm or cancel.
    AskConfirmation(BalanceView),
    /// Commit the transfer, then show the balances.
    Execute(PerformGive, BalanceView),
    /// Report that the giver cancelled.
    ReportCancelled,
    /// Report that the giver did not answer in time.
    ReportTimedOut,
}

/// One transfer negotiation.
#[derive(Clone, Copy, Debug, PartialEq, Eq, Structural)]
pub struct Negotiation {
    pub request: GiveRequest,
    /// How long the giver has to answer, in milliseconds.
    pub window: u64,
    pub phase: Phase,
}

/// The first rule that a request breaks, checked in order: the receiver is a bot,
/// the receiver is the giver.
pub open spec fn rule_broken(request: GiveRequest) -> Option<Rejection> {
    if request.receiver_is_bot {
        Some(Rejection::Bot)
    } else if request.receiver_id == request.giver_id {
        Some(Rejection::SelfTransfer)
    } else {
        None
    }
}

/// What the two account reads decide: the proposed balances when both accounts
/// exist and the giver can pay, else how the negotiation ends. A failure of the
/// store, or a missing account, is reported for the giver's read before the
/// receiver's.
pub open spec fn assessment(
    request: GiveRequest,
    giver: Result<UserBalances, LookupError>,
    receiver: Result<UserBalances, LookupError>,
) -> Result<BalanceView, Outcome> {
    match giver {
        Err(LookupError::Store) => Err(Outcome::StoreFailed),
        Err(LookupError::AccountNotFound) => Err(Outcome::Rejected(Rejection::AccountMissing)),
        Ok(g) => match receiver {
            Err(LookupError::Store) => Err(Outcome::StoreFailed),
            Err(LookupError::AccountNotFound) => Err(Outcome::Rejected(Rejection::AccountMissing)),
            Ok(r) => if g.wallet_balance < request.amount {
                Err(
                    Outcome::Rejected(
                        Rejection::InsufficientFunds {
                            shortfall: (request.amount - g.wallet_balance) as i64,
                        },
                    ),
                )
            } else {
                Ok(
                    BalanceView {
                        giver_wallet: (g.wallet_balance - request.amount) as i64,
                        receiver_wallet: (r.wallet_balance + request.amount) as i64,
                    },
                )
            },
        },
    }
}

/// The action that reports an outcome reached without a confirmation.
pub open spec fn report(outcome: Outcome) -> Action {
    match outcome {
        Outcome::Rejected(reason) => Action::Reject(reason),
        Outcome::StoreFailed => Action::Fail,
        Outcome::Cancelled => Action::ReportCancelled,
        Outcome::TimedOut => Action::ReportTimedOut,
        Outcome::Confirmed => Action::Ignore,
    }
}

/// Whether a window of `window` milliseconds opened at `opened_at` has closed at `now`.
pub open spec fn window_closed(opened_at: u64, window: u64, now: u64) -> bool {
    now >= opened_at + window
}

/// The ledger once an action has been carried out: only `Execute` writes to it.
pub open spec fn effect(action: Action, ledger: LedgerModel) -> LedgerModel {
    match action {
        Action::Execute(g, _) => g.committed(ledger),
        _ => ledger,
    }
}

impl Negotiation {
    /// The negotiation's invariant: a live negotiation carries a request that passed
    /// validation, and every amount is at least one coin.
    pub open spec fn wf(self) -> bool {
        &&& self.request.amount >= 1
        &&& (self.phase !is Resolved ==> rule_broken(self.request) is None)
    }

    /// The negotiation with the same request, resolved with `outcome`.
    pub open spec fn resolved(self, outcome: Outcome) -> Negotiation {
        Negotiation { phase: Phase::Resolved(outcome), ..self }
    }

    /// The state a negotiation moves to on `event` at time `now`, and the action the
    /// caller must carry out. Once the window has closed, any event times the
    /// negotiation out; only the giver can confirm or cancel; a resolved negotiation
    /// ignores everything.
    pub open spec fn transition(self, event: Event, now: u64) -> (Negotiation, Action) {
        match self.phase {
            Phase::Resolved(_) => (self, Action::Ignore),
            Phase::FetchingBalances => match event {
                Event::Balances { giver, receiver } => match assessment(self.request, giver, receiver) {
                    Ok(view) => (
                        Negotiation {
                            phase: Phase::AwaitingConfirmation { view, opened_at: now },
                            ..self
                        },
                        Action::AskConfirmation(view),
                    ),
                    Err(outcome) => (self.resolved(outcome), report(outcome)),
                },
                _ => (self, Action::Ignore),
            },
            Phase::AwaitingConfirmation { view, opened_at } => if window_closed(
                opened_at,
                self.window,
                now,
            ) {
                (self.resolved(Outcome::TimedOut), Action::ReportTimedOut)
            } else {
                match event {
                    Event::Pressed { actor, choice } => if actor != self.request.giver_id {
                        (self, Action::Ignore)
                    } else {
                        match choice {
                            Choice::Confirm => (
                                self.resolved(Outcome::Confirmed),
                                Action::Execute(self.request.transfer(), view),
                            ),
                            Choice::Cancel => (
                                self.resolved(Outcome::Cancelled),
                                Action::ReportCancelled,
                            ),
                        }
                    },
                    _ => (self, Action::Ignore),
                }
            },
        }
    }
}


impl Choice {
    /// The identifier that the button for this choice carries.
    pub open spec fn spec_custom_id(self) -> Seq<char> {
        match self {
            Choice::Confirm => "confirm_give"@,
            Choice::Cancel => "cancel_give"@,
        }
    }

    /// The identifier that the button for this choice carries.
    pub fn custom_id(&self) -> (r: &'static str)
        ensures
            r@ == self.spec_custom_id(),
    {
        match self {
            Choice::Confirm => "confirm_give",
            Choice::Cancel => "cancel_give",
        }
    }

    /// The choice whose button carries `id`, if any.
    pub fn from_custom_id(id: &str) -> (r: Option<Choice>)
        ensures
            r == Some(Choice::Confirm) <==> id@ == Choice::Confirm.spec_custom_id(),
            r == Some(Choice::Cancel) <==> id@ == Choice::Cancel.spec_custom_id(),
            r is None <==> (id@ != Choice::Confirm.spec_custom_id() && id@
                != Choice::Cancel.spec_custom_id()),
    {
        proof {
            reveal_strlit("confirm_give");
            reveal_strlit("cancel_give");
            assert("confirm_give"@[1] != "cancel_give"@[1]);
        }
        let given = id.to_owned();
        if given == "confirm_give".to_owned() {
            Some(Choice::Confirm)
        } else if given == "cancel_give".to_owned() {
            Some(Choice::Cancel)
        } else {
            None
        }
    }
}

/// Checks a request before any balance is read: the receiver must not be a bot,
/// then must not be the giver.
pub fn validate(request: &GiveRequest) -> (r: Result<(), Rejection>)
    ensures
        request.receiver_is_bot ==> r == Err::<(), Rejection>(Rejection::Bot),
        !request.receiver_is_bot && request.receiver_id == request.giver_id ==> r == Err::<
            (),
            Rejection,
        >(Rejection::SelfTransfer),
        r is Ok <==> rule_broken(*request) is None,
{
    if request.receiver_is_bot {
        Err(Rejection::Bot)
    } else if request.receiver_id == request.giver_id {
        Err(Rejection::SelfTransfer)
    } else {
        Ok(())
    }
}

/// Decides from the two account reads whether the giver can be asked to confirm:
/// both accounts must exist and the giver's wallet must hold at least the amount.
pub fn assess(
    request: &GiveRequest,
    giver: &Result<UserBalances, LookupError>,
    receiver: &Result<UserBalances, LookupError>,
) -> (r: Result<BalanceView, Outcome>)
    ensures
        r == assessment(*request, *giver, *receiver),
{
    match giver {
        Err(LookupError::Store) => Err(Outcome::StoreFailed),
        Err(LookupError::AccountNotFound) => Err(Outcome::Rejected(Rejection::AccountMissing)),
        Ok(g) => match receiver {
            Err(LookupError::Store) => Err(Outcome::StoreFailed),
            Err(LookupError::AccountNotFound) => Err(
                Outcome::Rejected(Rejection::AccountMissing),
            ),
            Ok(r) => {
                if g.wallet_balance < request.amount {
                    let shortfall = request.amount as i64 - g.wallet_balance as i64;
                    Err(Outcome::Rejected(Rejection::InsufficientFunds { shortfall }))
                } else {
                    Ok(
                        BalanceView {
                            giver_wallet: g.wallet_balance as i64 - request.amount as i64,
                            receiver_wallet: r.wallet_balance as i64 + request.amount as i64,
                        },
                    )
                }
            },
        },
    }
}

fn report_outcome(outcome: Outcome) -> (r: Action)
    ensures
        r == report(outcome),
{
    match outcome {
        Outcome::Rejected(reason) => Action::Reject(reason),
        Outcome::StoreFailed => Action::Fail,
        Outcome::Cancelled => Action::ReportCancelled,
        Outcome::TimedOut => Action::ReportTimedOut,
        Outcome::Confirmed => Action::Ignore,
    }
}

impl Negotiation {
    /// Starts a negotiation with a confirmation window of `window` milliseconds.
    /// A request that breaks a rule is resolved at once and nothing is read from the
    /// store; otherwise the caller is asked to read both accounts.
    pub fn start(request: GiveRequest, window: u64) -> (r: (Negotiation, Action))
        requires
            request.amount >= 1,
        ensures
            r.0.wf(),
            r.0.request == request,
            r.0.window == window,
            rule_broken(request) matches Some(reason) ==> r.0.phase == Phase::Resolved(
                Outcome::Rejected(reason),
            ) && r.1 == Action::Reject(reason),
            rule_broken(request) is None ==> r.0.phase == Phase::FetchingBalances && r.1
                == Action::FetchBalances,
    {
        match validate(&request) {
            Err(reason) => (
                Negotiation {
                    request,
                    window,
                    phase: Phase::Resolved(Outcome::Rejected(reason)),
                },
                Action::Reject(reason),
            ),
            Ok(()) => (Negotiation { request, window, phase: Phase::FetchingBalances }, Action::FetchBalances),
        }
    }

    /// Feeds one event, observed at time `now`, to the negotiation, and returns what the
    /// caller must do next.
    pub fn handle(&mut self, event: Event, now: u64) -> (r: Action)
        requires
            old(self).wf(),
        ensures
            final(self).wf(),
            (*final(self), r) == old(self).transition(event, now),
    {
        match self.phase {
            Phase::Resolved(_) => Action::Ignore,
            Phase::FetchingBalances => match event {
                Event::Balances { giver, receiver } => match assess(&self.request, &giver, &receiver) {
                    Ok(view) => {
                        self.phase = Phase::AwaitingConfirmation { view, opened_at: now };
                        Action::AskConfirmation(view)
                    },
                    Err(outcome) => {
                        self.phase = Phase::Resolved(outcome);
                        report_outcome(outcome)
                    },
                },
                _ => Action::Ignore,
            },
            Phase::AwaitingConfirmation { view, opened_at } => {
                if now >= opened_at && now - opened_at >= self.window {
                    self.phase = Phase::Resolved(Outcome::TimedOut);
                    Action::ReportTimedOut
                } else {
                    match event {
                        Event::Pressed { actor, choice } => {
                            if actor != self.request.giver_id {
                                Action::Ignore
                            } else {
                                match choice {
                                    Choice::Confirm => {
                                        self.phase = Phase::Resolved(Outcome::Confirmed);
                                        Action::Execute(
                                            PerformGive {
                                                giver_id: self.request.giver_id,
                                                receiver_id: self.request.receiver_id,
                                                guild_id: self.request.guild_id,
                                                amount: self.request.amount,
                                            },
                                            view,
                                        )
                                    },
                                    Choice::Cancel => {
                                        self.phase = Phase::Resolved(Outcome::Cancelled);
                                        Action::ReportCancelled
                                    },
                                }
                            }
                        },
                        _ => Action::Ignore,
                    }
                }
            },
        }
    }

    /// Whether the negotiation has resolved.
    pub fn is_resolved(&self) -> (r: bool)
        ensures
            r == (self.phase is Resolved),
    {
        match self.phase {
            Phase::Resolved(_) => true,
            _ => false,
        }
    }
}


/// Runs a negotiation through a sequence of events, each with the time it was
/// observed, and collects the actions, in order.
pub open spec fn run(n: Negotiation, events: Seq<(Event, u64)>) -> (Negotiation, Seq<Action>)
    decreases events.len(),
{
    if events.len() == 0 {
        (n, Seq::empty())
    } else {
        let (next, action) = n.transition(events[0].0, events[0].1);
        let (last, rest) = run(next, events.drop_first());
        (last, seq![action] + rest)
    }
}

/// How many of the actions commit a transfer.
pub open spec fn executions(actions: Seq<Action>) -> nat
    decreases actions.len(),
{
    if actions.len() == 0 {
        0
    } else {
        (if actions[0] is Execute { 1nat } else { 0nat }) + executions(actions.drop_first())
    }
}

/// When the giver confirms, the transfer that is committed takes exactly the
/// requested amount from the giver's wallet and adds it to the receiver's: the sum
/// of the two wallets is kept, bank balances are kept, and no other account changes.
pub proof fn lemma_confirmed_transfer_moves_amount(
    n: Negotiation,
    event: Event,
    now: u64,
    ledger: LedgerModel,
)
    requires
        n.wf(),
        n.phase !is Resolved,
        n.transition(event, now).0.phase == Phase::Resolved(Outcome::Confirmed),
        ledger.contains_key(AccountKey { user_id: n.request.giver_id, guild_id: n.request.guild_id }),
        ledger.contains_key(AccountKey { user_id: n.request.receiver_id, guild_id: n.request.guild_id }),
    ensures
        ({
            let giver = AccountKey { user_id: n.request.giver_id, guild_id: n.request.guild_id };
            let receiver = AccountKey { user_id: n.request.receiver_id, guild_id: n.request.guild_id };
            let after = effect(n.transition(event, now).1, ledger);
            &&& n.transition(event, now).1 is Execute
            &&& after.dom() == ledger.dom()
            &&& after[giver].wallet == ledger[giver].wallet - n.request.amount
            &&& after[receiver].wallet == ledger[receiver].wallet + n.request.amount
            &&& after[giver].wallet < ledger[giver].wallet
            &&& ledger[giver].wallet >= n.request.amount ==> after[giver].wallet >= 0
            &&& after[giver].wallet + after[receiver].wallet == ledger[giver].wallet
                + ledger[receiver].wallet
            &&& after[giver].bank == ledger[giver].bank
            &&& after[receiver].bank == ledger[receiver].bank
            &&& forall|k: AccountKey|
                #![trigger after[k]]
                ledger.contains_key(k) && k != giver && k != receiver ==> after[k] == ledger[k]
        }),
{
    let g = n.request.transfer();
    crate::executor::lemma_commit_moves_amount(g, ledger);
}

/// A negotiation that ends cancelled, timed out, rejected or failed leaves every
/// balance as it was: the action it ends with writes nothing.
pub proof fn lemma_unconfirmed_leaves_ledger(
    n: Negotiation,
    event: Event,
    now: u64,
    ledger: LedgerModel,
)
    requires
        n.transition(event, now).0.phase is Resolved,
        n.transition(event, now).0.phase != Phase::Resolved(Outcome::Confirmed),
    ensures
        n.transition(event, now).1 !is Execute,
        effect(n.transition(event, now).1, ledger) == ledger,
{
}

/// The ledger once each action, in order, has been carried out.
pub open spec fn effects(actions: Seq<Action>, ledger: LedgerModel) -> LedgerModel
    decreases actions.len(),
{
    if actions.len() == 0 {
        ledger
    } else {
        effects(actions.drop_first(), effect(actions[0], ledger))
    }
}

proof fn lemma_no_execution_no_effect(actions: Seq<Action>, ledger: LedgerModel)
    requires
        executions(actions) == 0,
    ensures
        effects(actions, ledger) == ledger,
    decreases actions.len(),
{
    if actions.len() > 0 {
        lemma_no_execution_no_effect(actions.drop_first(), ledger);
    }
}

/// Over a whole run, a negotiation that does not end confirmed (it is cancelled,
/// times out, is rejected, fails, or is still open) commits nothing, so every balance
/// is left as it was.
pub proof fn lemma_unconfirmed_run_leaves_ledger(
    n: Negotiation,
    events: Seq<(Event, u64)>,
    ledger: LedgerModel,
)
    requires
        run(n, events).0.phase != Phase::Resolved(Outcome::Confirmed),
    ensures
        executions(run(n, events).1) == 0,
        effects(run(n, events).1, ledger) == ledger,
    decreases events.len(),
{
    if events.len() > 0 {
        let (next, action) = n.transition(events[0].0, events[0].1);
        let rest = run(next, events.drop_first()).1;
        assert((seq![action] + rest).drop_first() =~= rest);
        if action is Execute {
            lemma_resolved_runs_nothing(next, events.drop_first());
        } else {
            lemma_unconfirmed_run_leaves_ledger(next, events.drop_first(), ledger);
        }
    }
    lemma_no_execution_no_effect(run(n, events).1, ledger);
}

/// A negotiation waiting for the giver resolves as timed out exactly when the
/// window has run its full length: never before, whatever event arrives.
pub proof fn lemma_times_out_when_window_closes(n: Negotiation, event: Event, now: u64)
    requires
        n.phase is AwaitingConfirmation,
    ensures
        n.transition(event, now).0.phase == Phase::Resolved(Outcome::TimedOut) <==> now
            >= n.phase->opened_at + n.window,
        now >= n.phase->opened_at + n.window ==> n.transition(event, now).1
            == Action::ReportTimedOut,
{
}

/// A resolved negotiation ignores every event: a second confirmation does nothing.
pub proof fn lemma_resolved_is_final(n: Negotiation, event: Event, now: u64)
    requires
        n.phase is Resolved,
    ensures
        n.transition(event, now) == (n, Action::Ignore),
{
}

proof fn lemma_resolved_runs_nothing(n: Negotiation, events: Seq<(Event, u64)>)
    requires
        n.phase is Resolved,
    ensures
        run(n, events).0 == n,
        executions(run(n, events).1) == 0,
    decreases events.len(),
{
    if events.len() > 0 {
        lemma_resolved_runs_nothing(n, events.drop_first());
        let rest = run(n, events.drop_first()).1;
        assert((seq![Action::Ignore] + rest).drop_first() =~= rest);
    }
}

/// However many events a negotiation receives, at most one of its actions commits
/// a transfer.
pub proof fn lemma_executes_at_most_once(n: Negotiation, events: Seq<(Event, u64)>)
    ensures
        executions(run(n, events).1) <= 1,
    decreases events.len(),
{
    if events.len() > 0 {
        let (next, action) = n.transition(events[0].0, events[0].1);
        let rest = run(next, events.drop_first()).1;
        assert((seq![action] + rest).drop_first() =~= rest);
        if action is Execute {
            lemma_resolved_runs_nothing(next, events.drop_first());
        } else {
            lemma_executes_at_most_once(next, events.drop_first());
        }
    }
}

/// A button pressed by anyone but the giver never confirms the transfer: the
/// negotiation stays as it was, unless its window has closed.
pub proof fn lemma_only_giver_confirms(n: Negotiation, actor: u64, choice: Choice, now: u64)
    requires
        actor != n.request.giver_id,
    ensures
        ({
            let (next, action) = n.transition(Event::Pressed { actor, choice }, now);
            &&& action !is Execute
            &&& n.phase is AwaitingConfirmation ==> next.phase != Phase::Resolved(Outcome::Confirmed)
            &&& next == n || next.phase == Phase::Resolved(Outcome::TimedOut)
        }),
{
}

} // verus!
