//! Finding, or making, a coin that holds exactly a requested amount.
//!
//! The coins of the sender are listed and scanned once. A coin with exactly the
//! amount is handed out as it is, and nothing is submitted. Else the last coin
//! with more than the amount is split in two by one transaction, and the new
//! coin that holds the amount is looked up among the objects that the
//! transaction created. Else the selection fails.
//!
//! Listing, building, signing, submitting and reading are the work of
//! collaborators outside this library. [`CoinSelector`] holds the decisions:
//! it says what to do next ([`CoinSelector::action`]) and takes what came of it
//! ([`CoinSelector::step`]).

use vstd::prelude::*;
use crate::coin::{is_coin_of, is_first_exact, is_last_greater, scan_coins, Coin, CoinView};
use crate::error::{ResponseError, ResponseErrorView, SelectionError, SelectionErrorView};
use crate::gas_info::GasInfo;
use crate::ids::{ObjectId, SuiAddress};
use crate::response::{ExecutionResult, ExecutionResultView, ObjectChange, ObjectChangeView};
use crate::settlement::{
    phase_action, phase_step, Intent, PreparedTransaction, PreparedTransactionView,
    ResponseOptions, SettlerAction, SettlerActionView, SettlerConfig, SettlerEvent,
    SettlerEventView, SettlerPhase, SettlerPhaseView, SettlerState, SettlerStateView,
};

verus! {

/// Some coin in `coins` holds exactly `amount`.
pub open spec fn has_exact(coins: Seq<CoinView>, amount: u64) -> bool {
    exists|i: int| 0 <= i < coins.len() && (#[trigger] coins[i]).balance == amount
}

/// Some coin in `coins` holds more than `amount`.
pub open spec fn has_greater(coins: Seq<CoinView>, amount: u64) -> bool {
    exists|i: int| 0 <= i < coins.len() && (#[trigger] coins[i]).balance > amount
}

/// The position of the first coin in `coins` that holds exactly `amount`.
pub open spec fn first_exact(coins: Seq<CoinView>, amount: u64) -> int {
    choose|i: int| is_first_exact(coins, amount, i)
}

/// The position of the last coin in `coins` that holds more than `amount`.
pub open spec fn last_greater(coins: Seq<CoinView>, amount: u64) -> int {
    choose|i: int| is_last_greater(coins, amount, i)
}

/// There is one first exact match at most: a position that is one is
/// [`first_exact`].
pub proof fn first_exact_is_unique(coins: Seq<CoinView>, amount: u64, i: int)
    requires
        is_first_exact(coins, amount, i),
    ensures
        first_exact(coins, amount) == i,
        has_exact(coins, amount),
{
    let j = first_exact(coins, amount);
    assert(is_first_exact(coins, amount, j));
    if j < i {
        assert(coins[j].balance != amount);
    }
    if i < j {
        assert(coins[i].balance != amount);
    }
}

/// There is one last larger coin at most: a position that is one is
/// [`last_greater`].
pub proof fn last_greater_is_unique(coins: Seq<CoinView>, amount: u64, i: int)
    requires
        is_last_greater(coins, amount, i),
    ensures
        last_greater(coins, amount) == i,
        has_greater(coins, amount),
{
    let j = last_greater(coins, amount);
    assert(is_last_greater(coins, amount, j));
    if j < i {
        assert(coins[i].balance <= amount);
    }
    if i < j {
        assert(coins[j].balance <= amount);
    }
}

/// Among the coins up to a coin that holds exactly `amount`, one is the first
/// that does.
pub proof fn first_exact_exists(coins: Seq<CoinView>, amount: u64, i: int)
    requires
        0 <= i < coins.len(),
        coins[i].balance == amount,
    ensures
        is_first_exact(coins, amount, first_exact(coins, amount)),
    decreases i,
{
    if exists|j: int| 0 <= j < i && (#[trigger] coins[j]).balance == amount {
        let j = choose|j: int| 0 <= j < i && (#[trigger] coins[j]).balance == amount;
        first_exact_exists(coins, amount, j);
    } else {
        assert(is_first_exact(coins, amount, i));
    }
}

/// Among the coins from a coin that holds more than `amount`, one is the last
/// that does.
pub proof fn last_greater_exists(coins: Seq<CoinView>, amount: u64, i: int)
    requires
        0 <= i < coins.len(),
        coins[i].balance > amount,
    ensures
        is_last_greater(coins, amount, last_greater(coins, amount)),
    decreases coins.len() - i,
{
    if exists|j: int| i < j < coins.len() && (#[trigger] coins[j]).balance > amount {
        let j = choose|j: int| i < j < coins.len() && (#[trigger] coins[j]).balance > amount;
        last_greater_exists(coins, amount, j);
    } else {
        assert(is_last_greater(coins, amount, i));
    }
}

/// The object that `change` records as a new coin of the token `coin_type`, if
/// it records one.
pub open spec fn new_coin_of(coin_type: Seq<char>) -> spec_fn(ObjectChangeView) -> Option<
    ObjectId,
> {
    |change: ObjectChangeView|
        match change {
            ObjectChangeView::Created { object_id, object_type } => if is_coin_of(
                object_type,
                coin_type,
            ) {
                Some(object_id)
            } else {
                None
            },
            _ => None,
        }
}

/// The new coins of the token `coin_type` that `changes` records, in the order
/// of `changes`.
pub open spec fn split_candidates(changes: Seq<ObjectChangeView>, coin_type: Seq<char>) -> Seq<
    ObjectId,
> {
    changes.filter_map(new_coin_of(coin_type))
}

/// The new coins of the token `coin_type` that `changes` records, in the order
/// of `changes`.
pub fn find_split_candidates(changes: &Vec<ObjectChange>, coin_type: &String) -> (found: Vec<
    ObjectId,
>)
    ensures
        found@ == split_candidates(changes.deep_view(), coin_type@),
{
    let ghost all = changes.deep_view();
    let mut found: Vec<ObjectId> = Vec::new();
    let mut i: usize = 0;
    assert(all.take(0) =~= Seq::<ObjectChangeView>::empty());
    while i < changes.len()
        invariant
            i <= changes.len(),
            all == changes.deep_view(),
            found@ == split_candidates(all.take(i as int), coin_type@),
        decreases changes.len() - i,
    {
        proof {
            all.lemma_filter_map_take_succ(new_coin_of(coin_type@), i as int);
        }
        match &changes[i] {
            ObjectChange::Created { object_id, object_type } => {
                if Coin::is_coin_of(object_type, coin_type) {
                    found.push(*object_id);
                }
            },
            _ => {},
        }
        i = i + 1;
    }
    assert(all.take(changes.len() as int) =~= all);
    found
}

/// Where a selection stands.
#[derive(Debug, PartialEq, Eq)]
pub enum SelectorState {
    /// Waiting for the sender's coins of the token.
    ListingCoins,
    /// Waiting for the transaction that splits `coin_object_id` into the
    /// amount and `remainder`.
    BuildingSplit { coin_object_id: ObjectId, remainder: u64 },
    /// Waiting for the settlement of the split.
    Settling(SettlerPhase),
    /// Waiting for the balance of `candidate`, a new coin of the split whose
    /// result is `digest`; `later` are the new coins after it.
    ReadingCoin { candidate: ObjectId, later: Vec<ObjectId>, digest: String },
    /// Over.
    Done(Result<ObjectId, SelectionError>),
}

/// The mathematical value of a [`SelectorState`].
pub enum SelectorStateView {
    ListingCoins,
    BuildingSplit { coin_object_id: ObjectId, remainder: u64 },
    Settling(SettlerPhaseView),
    ReadingCoin { candidate: ObjectId, later: Seq<ObjectId>, digest: Seq<char> },
    Done(Result<ObjectId, SelectionErrorView>),
}

impl View for SelectorState {
    type V = SelectorStateView;

    open spec fn view(&self) -> SelectorStateView {
        match self {
            SelectorState::ListingCoins => SelectorStateView::ListingCoins,
            SelectorState::BuildingSplit { coin_object_id, remainder } => {
                SelectorStateView::BuildingSplit {
                    coin_object_id: *coin_object_id,
                    remainder: *remainder,
                }
            },
            SelectorState::Settling(phase) => SelectorStateView::Settling(phase@),
            SelectorState::ReadingCoin { candidate, later, digest } => {
                SelectorStateView::ReadingCoin {
                    candidate: *candidate,
                    later: later@,
                    digest: digest@,
                }
            },
            SelectorState::Done(Ok(coin)) => SelectorStateView::Done(Ok(*coin)),
            SelectorState::Done(Err(error)) => SelectorStateView::Done(Err(error@)),
        }
    }
}

impl DeepView for SelectorState {
    type V = SelectorStateView;

    open spec fn deep_view(&self) -> SelectorStateView {
        self@
    }
}

/// What the selection asks of its collaborators.
#[derive(Debug, PartialEq, Eq)]
pub enum SelectorAction<'a> {
    /// List the coins of the token `coin_type` that `owner` holds.
    ListCoins { owner: SuiAddress, coin_type: &'a String },
    /// Build the transaction by which `signer` splits `coin_object_id` into
    /// new coins of `split_amounts`, paying gas as `gas` and `gas_budget` say.
    BuildSplit {
        signer: SuiAddress,
        coin_object_id: ObjectId,
        split_amounts: Vec<u64>,
        gas: Option<ObjectId>,
        gas_budget: u64,
    },
    /// Do what the settlement of the split asks.
    Settle(SettlerAction<'a>),
    /// Read the balance of the coin `object_id`.
    ReadCoin { object_id: ObjectId },
    /// Nothing: the selection is over.
    Return,
}

/// The mathematical value of a [`SelectorAction`].
pub enum SelectorActionView {
    ListCoins { owner: SuiAddress, coin_type: Seq<char> },
    BuildSplit {
        signer: SuiAddress,
        coin_object_id: ObjectId,
        split_amounts: Seq<u64>,
        gas: Option<ObjectId>,
        gas_budget: u64,
    },
    Settle(SettlerActionView),
    ReadCoin { object_id: ObjectId },
    Return,
}

impl<'a> View for SelectorAction<'a> {
    type V = SelectorActionView;

    open spec fn view(&self) -> SelectorActionView {
        match self {
            SelectorAction::ListCoins { owner, coin_type } => SelectorActionView::ListCoins {
                owner: *owner,
                coin_type: coin_type@,
            },
            SelectorAction::BuildSplit {
                signer,
                coin_object_id,
                split_amounts,
                gas,
                gas_budget,
            } => {
                SelectorActionView::BuildSplit {
                    signer: *signer,
                    coin_object_id: *coin_object_id,
                    split_amounts: split_amounts@,
                    gas: *gas,
                    gas_budget: *gas_budget,
                }
            },
            SelectorAction::Settle(action) => SelectorActionView::Settle(action@),
            SelectorAction::ReadCoin { object_id } => SelectorActionView::ReadCoin {
                object_id: *object_id,
            },
            SelectorAction::Return => SelectorActionView::Return,
        }
    }
}

/// What came of an action.
#[derive(Debug, PartialEq, Eq)]
pub enum SelectorEvent {
    /// The coins that were listed, in the ledger's order.
    Coins { coins: Vec<Coin> },
    /// The split transaction that was built.
    SplitBuilt { transaction: PreparedTransaction },
    /// What came of an action of the settlement.
    Settlement(SettlerEvent),
    /// The balance that was read.
    CoinRead { balance: u64 },
    /// The ledger client failed to list, to build or to read.
    LedgerFailed { message: String },
}

/// The mathematical value of a [`SelectorEvent`].
pub enum SelectorEventView {
    Coins { coins: Seq<CoinView> },
    SplitBuilt { transaction: PreparedTransactionView },
    Settlement(SettlerEventView),
    CoinRead { balance: u64 },
    LedgerFailed { message: Seq<char> },
}

impl View for SelectorEvent {
    type V = SelectorEventView;

    open spec fn view(&self) -> SelectorEventView {
        match self {
            SelectorEvent::Coins { coins } => SelectorEventView::Coins {
                coins: coins.deep_view(),
            },
            SelectorEvent::SplitBuilt { transaction } => SelectorEventView::SplitBuilt {
                transaction: transaction@,
            },
            SelectorEvent::Settlement(event) => SelectorEventView::Settlement(event@),
            SelectorEvent::CoinRead { balance } => SelectorEventView::CoinRead {
                balance: *balance,
            },
            SelectorEvent::LedgerFailed { message } => SelectorEventView::LedgerFailed {
                message: message@,
            },
        }
    }
}

impl DeepView for SelectorEvent {
    type V = SelectorEventView;

    open spec fn deep_view(&self) -> SelectorEventView {
        self@
    }
}

/// Who pays how much of which token.
#[derive(Clone, Debug, PartialEq, Eq)]
pub struct PaymentRequest {
    pub sender: SuiAddress,
    pub coin_type: String,
    pub amount: u64,
}

/// The mathematical value of a [`PaymentRequest`].
pub struct PaymentRequestView {
    pub sender: SuiAddress,
    pub coin_type: Seq<char>,
    pub amount: u64,
}

impl View for PaymentRequest {
    type V = PaymentRequestView;

    open spec fn view(&self) -> PaymentRequestView {
        PaymentRequestView {
            sender: self.sender,
            coin_type: self.coin_type@,
            amount: self.amount,
        }
    }
}

impl DeepView for PaymentRequest {
    type V = PaymentRequestView;

    open spec fn deep_view(&self) -> PaymentRequestView {
        self@
    }
}

impl PaymentRequestView {
    /// The failure that says that no coin holds the amount or more.
    pub open spec fn insufficient_balance(self) -> SelectionErrorView {
        SelectionErrorView::InsufficientBalance {
            address: self.sender,
            coin_type: self.coin_type,
            amount: self.amount,
        }
    }

    /// The failure that says that no new coin of the split `digest` holds the
    /// amount.
    pub open spec fn split_result_not_found(self, digest: Seq<char>) -> SelectionErrorView {
        SelectionErrorView::SplitResultNotFound {
            amount: self.amount,
            coin_type: self.coin_type,
            digest,
        }
    }

    /// What the listed coins decide: the first coin that holds exactly the
    /// amount is the result; without one, the last coin that holds more is to
    /// be split; without one, the balance is insufficient.
    pub open spec fn on_coins(self, coins: Seq<CoinView>) -> SelectorStateView {
        if has_exact(coins, self.amount) {
            SelectorStateView::Done(Ok(coins[first_exact(coins, self.amount)].coin_object_id))
        } else if has_greater(coins, self.amount) {
            let primary = coins[last_greater(coins, self.amount)];
            SelectorStateView::BuildingSplit {
                coin_object_id: primary.coin_object_id,
                remainder: (primary.balance - self.amount) as u64,
            }
        } else {
            SelectorStateView::Done(Err(self.insufficient_balance()))
        }
    }

    /// Where the selection goes when `candidates` are the new coins left to
    /// look at: it reads the first, or fails if there is none.
    pub open spec fn look_at(
        self,
        candidates: Seq<ObjectId>,
        digest: Seq<char>,
    ) -> SelectorStateView {
        if candidates.len() == 0 {
            SelectorStateView::Done(Err(self.split_result_not_found(digest)))
        } else {
            SelectorStateView::ReadingCoin {
                candidate: candidates[0],
                later: candidates.skip(1),
                digest,
            }
        }
    }

    /// What the balance of a candidate decides: the candidate is the result if
    /// it holds the amount; else the new coins after it are looked at.
    pub open spec fn on_balance(
        self,
        candidate: ObjectId,
        later: Seq<ObjectId>,
        digest: Seq<char>,
        balance: u64,
    ) -> SelectorStateView {
        if balance == self.amount {
            SelectorStateView::Done(Ok(candidate))
        } else {
            self.look_at(later, digest)
        }
    }

    /// What the result of a settled split decides: its new coins of the token
    /// are looked at in turn. A result without object changes cannot be read.
    pub open spec fn on_split_result(self, result: ExecutionResultView) -> SelectorStateView {
        match result.object_changes {
            None => SelectorStateView::Done(
                Err(SelectionErrorView::Response(ResponseErrorView::MissingObjectChanges)),
            ),
            Some(changes) => self.look_at(
                split_candidates(changes, self.coin_type),
                result.digest,
            ),
        }
    }

    /// What the settlement's next state decides.
    pub open spec fn on_settlement(self, next: SettlerStateView) -> SelectorStateView {
        match next {
            SettlerStateView::Pending(phase) => SelectorStateView::Settling(phase),
            SettlerStateView::Done(Ok(result)) => self.on_split_result(result),
            SettlerStateView::Done(Err(error)) => SelectorStateView::Done(
                Err(SelectionErrorView::Settlement(error)),
            ),
        }
    }
}

impl PaymentRequest {
    /// The failure that says that no coin holds the amount or more.
    fn insufficient_balance(&self) -> (error: SelectionError)
        ensures
            error@ == self@.insufficient_balance(),
    {
        SelectionError::InsufficientBalance {
            address: self.sender,
            coin_type: self.coin_type.clone(),
            amount: self.amount,
        }
    }

    /// The failure that says that no new coin of the split `digest` holds the
    /// amount.
    fn split_result_not_found(&self, digest: String) -> (error: SelectionError)
        ensures
            error@ == self@.split_result_not_found(digest@),
    {
        SelectionError::SplitResultNotFound {
            amount: self.amount,
            coin_type: self.coin_type.clone(),
            digest,
        }
    }

    /// What the listed coins decide.
    pub fn on_coins(&self, coins: &Vec<Coin>) -> (next: SelectorState)
        ensures
            next@ == self@.on_coins(coins.deep_view()),
    {
        let ghost all = coins.deep_view();
        let scan = scan_coins(coins, self.amount);
        match scan.equal {
            Some(i) => {
                proof {
                    first_exact_is_unique(all, self.amount, i as int);
                }
                SelectorState::Done(Ok(coins[i].coin_object_id))
            },
            None => {
                assert(all.take(all.len() as int) =~= all);
                assert(!has_exact(all, self.amount));
                match scan.greater {
                    Some(i) => {
                        proof {
                            last_greater_is_unique(all, self.amount, i as int);
                        }
                        SelectorState::BuildingSplit {
                            coin_object_id: coins[i].coin_object_id,
                            remainder: coins[i].balance - self.amount,
                        }
                    },
                    None => {
                        assert(!has_greater(all, self.amount));
                        SelectorState::Done(Err(self.insufficient_balance()))
                    },
                }
            },
        }
    }

    /// Where the selection goes when `candidates` are the new coins left to
    /// look at.
    pub fn look_at(&self, candidates: Vec<ObjectId>, digest: String) -> (next: SelectorState)
        ensures
            next@ == self@.look_at(candidates@, digest@),
    {
        let mut later = candidates;
        if later.len() == 0 {
            SelectorState::Done(Err(self.split_result_not_found(digest)))
        } else {
            let ghost all = later@;
            let candidate = later.remove(0);
            assert(later@ =~= all.skip(1));
            SelectorState::ReadingCoin { candidate, later, digest }
        }
    }

    /// What the balance of a candidate decides.
    pub fn on_balance(
        &self,
        candidate: ObjectId,
        later: Vec<ObjectId>,
        digest: String,
        balance: u64,
    ) -> (next: SelectorState)
        ensures
            next@ == self@.on_balance(candidate, later@, digest@, balance),
    {
        if balance == self.amount {
            SelectorState::Done(Ok(candidate))
        } else {
            self.look_at(later, digest)
        }
    }

    /// What the result of a settled split decides.
    pub fn on_split_result(&self, result: ExecutionResult) -> (next: SelectorState)
        ensures
            next@ == self@.on_split_result(result@),
    {
        match &result.object_changes {
            None => SelectorState::Done(
                Err(SelectionError::Response(ResponseError::MissingObjectChanges)),
            ),
            Some(changes) => {
                let candidates = find_split_candidates(changes, &self.coin_type);
                self.look_at(candidates, result.digest)
            },
        }
    }

    /// What the settlement's next state decides.
    pub fn on_settlement(&self, next: SettlerState) -> (state: SelectorState)
        ensures
            state@ == self@.on_settlement(next@),
    {
        match next {
            SettlerState::Pending(phase) => SelectorState::Settling(phase),
            SettlerState::Done(Ok(result)) => self.on_split_result(result),
            SettlerState::Done(Err(error)) => SelectorState::Done(
                Err(SelectionError::Settlement(error)),
            ),
        }
    }
}

/// The selection of a coin for a payment request.
#[derive(Debug, PartialEq, Eq)]
pub struct CoinSelector {
    pub request: PaymentRequest,
    pub gas: GasInfo,
    pub intent: Intent,
    pub state: SelectorState,
}

/// The mathematical value of a [`CoinSelector`].
pub struct CoinSelectorView {
    pub request: PaymentRequestView,
    pub gas: GasInfo,
    pub intent: Intent,
    pub state: SelectorStateView,
}

impl View for CoinSelector {
    type V = CoinSelectorView;

    open spec fn view(&self) -> CoinSelectorView {
        CoinSelectorView {
            request: self.request@,
            gas: self.gas,
            intent: self.intent,
            state: self.state@,
        }
    }
}

impl DeepView for CoinSelector {
    type V = CoinSelectorView;

    open spec fn deep_view(&self) -> CoinSelectorView {
        self@
    }
}

impl CoinSelectorView {
    /// The selection before anything was done.
    pub open spec fn start(
        request: PaymentRequestView,
        gas: GasInfo,
        intent: Intent,
    ) -> CoinSelectorView {
        CoinSelectorView { request, gas, intent, state: SelectorStateView::ListingCoins }
    }

    /// The same selection in another state.
    pub open spec fn at(self, state: SelectorStateView) -> CoinSelectorView {
        CoinSelectorView { state, ..self }
    }

    /// How the split is settled: signed by the sender, with the effects and
    /// the object changes asked for, and not without confirmation.
    pub open spec fn settler_config(self) -> SettlerConfig {
        SettlerConfig {
            signer: self.request.sender,
            intent: self.intent,
            options: ResponseOptions::full(),
            require_confirmation: true,
        }
    }

    /// What the selection asks for now.
    pub open spec fn action(self) -> SelectorActionView {
        match self.state {
            SelectorStateView::ListingCoins => SelectorActionView::ListCoins {
                owner: self.request.sender,
                coin_type: self.request.coin_type,
            },
            SelectorStateView::BuildingSplit { coin_object_id, remainder } => {
                SelectorActionView::BuildSplit {
                    signer: self.request.sender,
                    coin_object_id,
                    split_amounts: seq![self.request.amount, remainder],
                    gas: self.gas.object,
                    gas_budget: self.gas.budget,
                }
            },
            SelectorStateView::Settling(phase) => SelectorActionView::Settle(
                phase_action(self.settler_config(), phase),
            ),
            SelectorStateView::ReadingCoin { candidate, .. } => SelectorActionView::ReadCoin {
                object_id: candidate,
            },
            SelectorStateView::Done(_) => SelectorActionView::Return,
        }
    }

    /// The state that the selection goes to on `event`. An event that the
    /// state does not wait for changes nothing.
    pub open spec fn next_state(self, event: SelectorEventView) -> SelectorStateView {
        match (self.state, event) {
            (SelectorStateView::ListingCoins, SelectorEventView::Coins { coins }) => {
                self.request.on_coins(coins)
            },
            (
                SelectorStateView::BuildingSplit { .. },
                SelectorEventView::SplitBuilt { transaction },
            ) => SelectorStateView::Settling(SettlerPhaseView::Signing(transaction)),
            (SelectorStateView::Settling(phase), SelectorEventView::Settlement(event)) => {
                self.request.on_settlement(phase_step(self.settler_config(), phase, event))
            },
            (
                SelectorStateView::ReadingCoin { candidate, later, digest },
                SelectorEventView::CoinRead { balance },
            ) => self.request.on_balance(candidate, later, digest, balance),
            (
                SelectorStateView::ListingCoins
                | SelectorStateView::BuildingSplit { .. }
                | SelectorStateView::ReadingCoin { .. },
                SelectorEventView::LedgerFailed { message },
            ) => SelectorStateView::Done(Err(SelectionErrorView::Ledger { message })),
            _ => self.state,
        }
    }

    /// Where the selection goes on `event`.
    pub open spec fn step(self, event: SelectorEventView) -> CoinSelectorView {
        self.at(self.next_state(event))
    }

    /// What the selection ended with, if it is over.
    pub open spec fn outcome(self) -> Option<Result<ObjectId, SelectionErrorView>> {
        match self.state {
            SelectorStateView::Done(outcome) => Some(outcome),
            _ => None,
        }
    }
}

impl CoinSelector {
    /// Begins the selection of a coin for `request`, with `gas` to pay for a
    /// split and `intent` to sign it for. The first action is the request for
    /// the sender's coins.
    pub fn new(request: PaymentRequest, gas: GasInfo, intent: Intent) -> (selector: CoinSelector)
        requires
            gas.well_formed(),
        ensures
            selector@ == CoinSelectorView::start(request@, gas, intent),
    {
        CoinSelector { request, gas, intent, state: SelectorState::ListingCoins }
    }

    /// How the split is settled.
    pub fn settler_config(&self) -> (config: SettlerConfig)
        ensures
            config == self@.settler_config(),
    {
        SettlerConfig {
            signer: self.request.sender,
            intent: self.intent,
            options: ResponseOptions::new().with_effects().with_object_changes(),
            require_confirmation: true,
        }
    }

    /// What the caller is to do now.
    pub fn action(&self) -> (action: SelectorAction<'_>)
        ensures
            action@ == self@.action(),
    {
        match &self.state {
            SelectorState::ListingCoins => SelectorAction::ListCoins {
                owner: self.request.sender,
                coin_type: &self.request.coin_type,
            },
            SelectorState::BuildingSplit { coin_object_id, remainder } => {
                let mut split_amounts: Vec<u64> = Vec::new();
                split_amounts.push(self.request.amount);
                split_amounts.push(*remainder);
                assert(split_amounts@ =~= seq![self.request.amount, *remainder]);
                SelectorAction::BuildSplit {
                    signer: self.request.sender,
                    coin_object_id: *coin_object_id,
                    split_amounts,
                    gas: self.gas.object,
                    gas_budget: self.gas.budget,
                }
            },
            SelectorState::Settling(phase) => {
                let config = self.settler_config();
                SelectorAction::Settle(phase.action(&config))
            },
            SelectorState::ReadingCoin { candidate, .. } => SelectorAction::ReadCoin {
                object_id: *candidate,
            },
            SelectorState::Done(_) => SelectorAction::Return,
        }
    }

    /// Takes what came of the last action.
    pub fn step(self, event: SelectorEvent) -> (next: CoinSelector)
        ensures
            next@ == self@.step(event@),
    {
        let config = self.settler_config();
        let CoinSelector { request, gas, intent, state } = self;
        let state = match state {
            SelectorState::ListingCoins => match event {
                SelectorEvent::Coins { coins } => request.on_coins(&coins),
                SelectorEvent::LedgerFailed { message } => SelectorState::Done(
                    Err(SelectionError::Ledger { message }),
                ),
                _ => SelectorState::ListingCoins,
            },
            SelectorState::BuildingSplit { coin_object_id, remainder } => match event {
                SelectorEvent::SplitBuilt { transaction } => SelectorState::Settling(
                    SettlerPhase::Signing(transaction),
                ),
                SelectorEvent::LedgerFailed { message } => SelectorState::Done(
                    Err(SelectionError::Ledger { message }),
                ),
                _ => SelectorState::BuildingSplit { coin_object_id, remainder },
            },
            SelectorState::Settling(phase) => match event {
                SelectorEvent::Settlement(event) => request.on_settlement(
                    phase.step(&config, event),
                ),
                _ => SelectorState::Settling(phase),
            },
            SelectorState::ReadingCoin { candidate, later, digest } => match event {
                SelectorEvent::CoinRead { balance } => request.on_balance(
                    candidate,
                    later,
                    digest,
                    balance,
                ),
                SelectorEvent::LedgerFailed { message } => SelectorState::Done(
                    Err(SelectionError::Ledger { message }),
                ),
                _ => SelectorState::ReadingCoin { candidate, later, digest },
            },
            SelectorState::Done(outcome) => SelectorState::Done(outcome),
        };
        CoinSelector { request, gas, intent, state }
    }

    /// Whether the selection is over.
    pub fn is_done(&self) -> (done: bool)
        ensures
            done == self@.outcome().is_some(),
    {
        match &self.state {
            SelectorState::Done(_) => true,
            _ => false,
        }
    }

    /// What the selection ended with; `None` while it is not over.
    pub fn into_result(self) -> (outcome: Option<Result<ObjectId, SelectionError>>)
        ensures
            match outcome {
                Some(Ok(coin)) => self@.outcome() == Some(Ok::<ObjectId, SelectionErrorView>(coin)),
                Some(Err(error)) => self@.outcome() == Some(
                    Err::<ObjectId, SelectionErrorView>(error@),
                ),
                None => self@.outcome().is_none(),
            },
    {
        match self.state {
            SelectorState::Done(outcome) => Some(outcome),
            _ => None,
        }
    }
}

} // verus!
