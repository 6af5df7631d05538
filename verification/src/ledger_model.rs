//! A model of the collaborators, and what holds of every complete run of a
//! selection or a settlement against it.
//!
//! The ledger client and the signer answer each request with a value or with
//! a failure. [`LedgerModel`] gives those answers as functions of the request,
//! so that it stands for any collaborator that answers the same request the
//! same way. [`run_selection`] and [`run_settlement`] play a state machine
//! against the model to its end and count the submissions on the way.

use vstd::prelude::*;
use crate::coin::{is_first_exact, is_last_greater, CoinView};
use crate::error::{ResponseErrorView, SelectionErrorView, SettlementErrorView};
use crate::gas_info::GasInfo;
use crate::ids::{ObjectId, SuiAddress};
use crate::response::ExecutionResultView;
use crate::selection::{
    first_exact, first_exact_exists, has_exact, has_greater, last_greater, last_greater_exists,
    split_candidates, CoinSelectorView, PaymentRequestView, SelectorActionView,
    SelectorEventView, SelectorStateView,
};
use crate::settlement::{
    settled, Intent, PreparedTransactionView, RequestType, ResponseOptions, SettlerActionView,
    SettlerConfig, SettlerEventView, SettlerPhaseView, SettlerStateView, SignedTransactionView,
    TransactionSettlerView,
};

verus! {

/// The answers of the ledger client and the signer, each as a function of what
/// is asked. A failure carries the collaborator's message.
pub struct LedgerModel {
    /// The coins of a token that an address holds.
    pub list_coins: spec_fn(SuiAddress, Seq<char>) -> Result<Seq<CoinView>, Seq<char>>,
    /// The transaction that splits a coin: for the signer, the coin, the
    /// amounts, the gas object and the gas budget.
    pub build_split: spec_fn(SuiAddress, ObjectId, Seq<u64>, Option<ObjectId>, u64) -> Result<
        PreparedTransactionView,
        Seq<char>,
    >,
    /// The signature of an address over transaction bytes, within an intent.
    pub sign: spec_fn(SuiAddress, Seq<u8>, Intent) -> Result<Seq<u8>, Seq<char>>,
    /// The ledger's answer to a submitted transaction.
    pub submit: spec_fn(SignedTransactionView, ResponseOptions, RequestType) -> Result<
        ExecutionResultView,
        Seq<char>,
    >,
    /// The balance of a coin.
    pub read_coin: spec_fn(ObjectId) -> Result<u64, Seq<char>>,
}

impl LedgerModel {
    /// What comes of an action of a settlement. `Return` asks for nothing; no
    /// run looks at what is given for it.
    pub open spec fn settle(self, action: SettlerActionView) -> SettlerEventView {
        match action {
            SettlerActionView::Sign { address, tx_bytes, intent } => match (self.sign)(
                address,
                tx_bytes,
                intent,
            ) {
                Ok(signature) => SettlerEventView::Signed { signature },
                Err(message) => SettlerEventView::SigningFailed { message },
            },
            SettlerActionView::Submit { transaction, options, request_type } => match (
                self.submit
            )(transaction, options, request_type) {
                Ok(result) => SettlerEventView::Submitted { result },
                Err(message) => SettlerEventView::SubmissionFailed { message },
            },
            SettlerActionView::Return => SettlerEventView::SigningFailed { message: Seq::empty() },
        }
    }

    /// What comes of an action of a selection. `Return` asks for nothing; no
    /// run looks at what is given for it.
    pub open spec fn answer(self, action: SelectorActionView) -> SelectorEventView {
        match action {
            SelectorActionView::ListCoins { owner, coin_type } => match (self.list_coins)(
                owner,
                coin_type,
            ) {
                Ok(coins) => SelectorEventView::Coins { coins },
                Err(message) => SelectorEventView::LedgerFailed { message },
            },
            SelectorActionView::BuildSplit {
                signer,
                coin_object_id,
                split_amounts,
                gas,
                gas_budget,
            } => match (self.build_split)(signer, coin_object_id, split_amounts, gas, gas_budget) {
                Ok(transaction) => SelectorEventView::SplitBuilt { transaction },
                Err(message) => SelectorEventView::LedgerFailed { message },
            },
            SelectorActionView::Settle(action) => SelectorEventView::Settlement(
                self.settle(action),
            ),
            SelectorActionView::ReadCoin { object_id } => match (self.read_coin)(object_id) {
                Ok(balance) => SelectorEventView::CoinRead { balance },
                Err(message) => SelectorEventView::LedgerFailed { message },
            },
            SelectorActionView::Return => SelectorEventView::LedgerFailed {
                message: Seq::empty(),
            },
        }
    }
}

/// Whether an action of a settlement submits a transaction.
pub open spec fn is_submission(action: SettlerActionView) -> bool {
    action is Submit
}

/// Whether an action of a selection submits a transaction.
pub open spec fn submits(action: SelectorActionView) -> bool {
    action matches SelectorActionView::Settle(inner) && is_submission(inner)
}

/// How a settlement ended, and how many transactions were submitted on the
/// way.
pub struct SettlementRun {
    pub outcome: Result<ExecutionResultView, SettlementErrorView>,
    pub submissions: nat,
}

/// How a selection ended, and how many transactions were submitted on the way.
pub struct SelectionRun {
    pub outcome: Result<ObjectId, SelectionErrorView>,
    pub submissions: nat,
}

/// The number of answers that a settlement still waits for, at most.
pub open spec fn settlement_rank(state: SettlerStateView) -> nat {
    match state {
        SettlerStateView::Pending(SettlerPhaseView::Signing(_)) => 2,
        SettlerStateView::Pending(SettlerPhaseView::Submitting(_)) => 1,
        SettlerStateView::Done(_) => 0,
    }
}

/// The settlement played against `ledger` to its end: every action gets the
/// ledger's answer, until the settlement is over.
pub open spec fn run_settlement(
    settler: TransactionSettlerView,
    ledger: LedgerModel,
) -> SettlementRun
    decreases settlement_rank(settler.state),
{
    match settler.state {
        SettlerStateView::Done(outcome) => SettlementRun { outcome, submissions: 0 },
        SettlerStateView::Pending(_) => {
            let action = settler.action();
            let rest = run_settlement(settler.step(ledger.settle(action)), ledger);
            SettlementRun {
                outcome: rest.outcome,
                submissions: rest.submissions + if is_submission(action) {
                    1nat
                } else {
                    0nat
                },
            }
        },
    }
}

/// The stage of a selection: the later the stage, the smaller the number.
pub open spec fn selection_rank(state: SelectorStateView) -> nat {
    match state {
        SelectorStateView::ListingCoins => 5,
        SelectorStateView::BuildingSplit { .. } => 4,
        SelectorStateView::Settling(SettlerPhaseView::Signing(_)) => 3,
        SelectorStateView::Settling(SettlerPhaseView::Submitting(_)) => 2,
        SelectorStateView::ReadingCoin { .. } => 1,
        SelectorStateView::Done(_) => 0,
    }
}

/// The number of new coins that a selection has still to look at.
pub open spec fn coins_to_read(state: SelectorStateView) -> nat {
    match state {
        SelectorStateView::ReadingCoin { later, .. } => later.len() + 1,
        _ => 0,
    }
}

/// The selection played against `ledger` to its end: every action gets the
/// ledger's answer, until the selection is over.
pub open spec fn run_selection(selector: CoinSelectorView, ledger: LedgerModel) -> SelectionRun
    decreases selection_rank(selector.state), coins_to_read(selector.state),
{
    match selector.state {
        SelectorStateView::Done(outcome) => SelectionRun { outcome, submissions: 0 },
        _ => {
            let action = selector.action();
            let rest = run_selection(selector.step(ledger.answer(action)), ledger);
            SelectionRun {
                outcome: rest.outcome,
                submissions: rest.submissions + if submits(action) {
                    1nat
                } else {
                    0nat
                },
            }
        },
    }
}

/// A settlement submits once at most, whatever the collaborators answer: no
/// failure is answered by a second attempt.
pub proof fn settlement_submits_at_most_once(settler: TransactionSettlerView, ledger: LedgerModel)
    ensures
        run_settlement(settler, ledger).submissions <= 1,
{
    reveal_with_fuel(run_settlement, 3);
}

/// Where the signer gives no signature, the settlement ends with
/// `SigningFailed` and the signer's message, and nothing is submitted.
pub proof fn failed_signing_submits_nothing(
    config: SettlerConfig,
    transaction: PreparedTransactionView,
    ledger: LedgerModel,
    message: Seq<char>,
)
    requires
        (ledger.sign)(config.signer, transaction.tx_bytes, config.intent) == Err::<
            Seq<u8>,
            Seq<char>,
        >(message),
    ensures
        run_settlement(TransactionSettlerView::start(config, transaction), ledger) == (
        SettlementRun {
            outcome: Err(SettlementErrorView::SigningFailed { message }),
            submissions: 0,
        }),
{
    reveal_with_fuel(run_settlement, 3);
}

/// Where the signer signs, the settlement submits the signed transaction
/// once, waiting for local execution, and ends with what came of it: the
/// ledger's result, `NotConfirmed` where confirmation is required and missing,
/// or `SubmissionFailed` with the ledger client's message.
pub proof fn signed_transaction_is_submitted_once(
    config: SettlerConfig,
    transaction: PreparedTransactionView,
    ledger: LedgerModel,
    signature: Seq<u8>,
)
    requires
        (ledger.sign)(config.signer, transaction.tx_bytes, config.intent) == Ok::<
            Seq<u8>,
            Seq<char>,
        >(signature),
    ensures
        run_settlement(TransactionSettlerView::start(config, transaction), ledger) == (
        SettlementRun {
            outcome: match (ledger.submit)(
                SignedTransactionView { transaction, signature },
                config.options,
                RequestType::WaitForLocalExecution,
            ) {
                Ok(result) => settled(config, result),
                Err(message) => Err(SettlementErrorView::SubmissionFailed { message }),
            },
            submissions: 1,
        }),
{
    reveal_with_fuel(run_settlement, 3);
}

/// Where the sender holds a coin with exactly the amount, the selection ends
/// with the first such coin, and nothing is submitted.
pub proof fn exact_match_is_returned_without_submission(
    request: PaymentRequestView,
    gas: GasInfo,
    intent: Intent,
    ledger: LedgerModel,
    coins: Seq<CoinView>,
)
    requires
        gas.well_formed(),
        (ledger.list_coins)(request.sender, request.coin_type) == Ok::<Seq<CoinView>, Seq<char>>(
            coins,
        ),
        has_exact(coins, request.amount),
    ensures
        run_selection(CoinSelectorView::start(request, gas, intent), ledger) == (SelectionRun {
            outcome: Ok(coins[first_exact(coins, request.amount)].coin_object_id),
            submissions: 0,
        }),
        is_first_exact(coins, request.amount, first_exact(coins, request.amount)),
{
    reveal_with_fuel(run_selection, 3);
    let witness = choose|i: int| 0 <= i < coins.len() && (#[trigger] coins[i]).balance
        == request.amount;
    first_exact_exists(coins, request.amount, witness);
}

/// Where every coin of the sender holds less than the amount, the selection
/// fails with `InsufficientBalance` for the sender, the token and the amount,
/// and nothing is submitted.
pub proof fn insufficient_balance_fails_without_submission(
    request: PaymentRequestView,
    gas: GasInfo,
    intent: Intent,
    ledger: LedgerModel,
    coins: Seq<CoinView>,
)
    requires
        gas.well_formed(),
        (ledger.list_coins)(request.sender, request.coin_type) == Ok::<Seq<CoinView>, Seq<char>>(
            coins,
        ),
        forall|i: int| 0 <= i < coins.len() ==> (#[trigger] coins[i]).balance < request.amount,
    ensures
        run_selection(CoinSelectorView::start(request, gas, intent), ledger) == (SelectionRun {
            outcome: Err(request.insufficient_balance()),
            submissions: 0,
        }),
{
    reveal_with_fuel(run_selection, 3);
    assert(!has_exact(coins, request.amount));
    assert(!has_greater(coins, request.amount));
}

/// What looking at `candidates` in turn ends with: the first whose balance is
/// the amount, if every candidate before it could be read; the ledger client's
/// failure, if one of those could not; `SplitResultNotFound` for the split
/// `digest`, if every candidate holds another amount.
pub open spec fn reading_outcome(
    request: PaymentRequestView,
    ledger: LedgerModel,
    candidates: Seq<ObjectId>,
    digest: Seq<char>,
) -> Result<ObjectId, SelectionErrorView>
    decreases candidates.len(),
{
    if candidates.len() == 0 {
        Err(request.split_result_not_found(digest))
    } else {
        match (ledger.read_coin)(candidates[0]) {
            Err(message) => Err(SelectionErrorView::Ledger { message }),
            Ok(balance) => if balance == request.amount {
                Ok(candidates[0])
            } else {
                reading_outcome(request, ledger, candidates.skip(1), digest)
            },
        }
    }
}

/// A coin that looking at `candidates` ends with is one of them and holds
/// exactly the amount.
pub proof fn found_coin_holds_the_amount(
    request: PaymentRequestView,
    ledger: LedgerModel,
    candidates: Seq<ObjectId>,
    digest: Seq<char>,
)
    ensures
        reading_outcome(request, ledger, candidates, digest) matches Ok(coin) ==> {
            &&& candidates.contains(coin)
            &&& (ledger.read_coin)(coin) == Ok::<u64, Seq<char>>(request.amount)
        },
    decreases candidates.len(),
{
    if candidates.len() > 0 {
        let rest = candidates.skip(1);
        found_coin_holds_the_amount(request, ledger, rest, digest);
        assert(candidates[0] == candidates[0]);
        match reading_outcome(request, ledger, rest, digest) {
            Ok(coin) => {
                let k = choose|k: int| 0 <= k < rest.len() && rest[k] == coin;
                assert(candidates[k + 1] == coin);
            },
            Err(_) => {},
        }
    }
}

/// Reading the new coins of a split submits nothing, and ends as looking at
/// them in turn ends.
pub proof fn reading_submits_nothing(selector: CoinSelectorView, ledger: LedgerModel)
    requires
        selector.state is ReadingCoin,
    ensures
        run_selection(selector, ledger) == (SelectionRun {
            outcome: reading_outcome(
                selector.request,
                ledger,
                seq![selector.state->candidate] + selector.state->later,
                selector.state->digest,
            ),
            submissions: 0,
        }),
    decreases coins_to_read(selector.state),
{
    reveal_with_fuel(run_selection, 2);
    reveal_with_fuel(reading_outcome, 2);
    let candidates = seq![selector.state->candidate] + selector.state->later;
    let later = selector.state->later;
    assert(candidates.skip(1) =~= later);
    let next = selector.step(ledger.answer(selector.action()));
    if next.state is ReadingCoin {
        reading_submits_nothing(next, ledger);
        assert(seq![next.state->candidate] + next.state->later =~= later);
    }
}

/// The transaction that the selection asks to be built when `primary` is the
/// coin to split: for the sender, the coin is split into the amount and what
/// is left of its balance, with the gas payment of the selection.
pub open spec fn split_of(
    request: PaymentRequestView,
    gas: GasInfo,
    ledger: LedgerModel,
    primary: CoinView,
) -> Result<PreparedTransactionView, Seq<char>> {
    (ledger.build_split)(
        request.sender,
        primary.coin_object_id,
        seq![request.amount, (primary.balance - request.amount) as u64],
        gas.object,
        gas.budget,
    )
}

/// Where no coin of the sender holds exactly the amount and some coin holds
/// more, the last coin that holds more is split. One transaction is submitted
/// at most, and exactly one where the split was built and signed. The
/// selection then ends as looking at the new coins of the token in the
/// submitted transaction's result ends: a coin that it ends with is one of
/// them and holds exactly the amount.
pub proof fn greater_match_is_split_by_one_submission(
    request: PaymentRequestView,
    gas: GasInfo,
    intent: Intent,
    ledger: LedgerModel,
    coins: Seq<CoinView>,
)
    requires
        gas.well_formed(),
        (ledger.list_coins)(request.sender, request.coin_type) == Ok::<Seq<CoinView>, Seq<char>>(
            coins,
        ),
        !has_exact(coins, request.amount),
        has_greater(coins, request.amount),
    ensures
        is_last_greater(coins, request.amount, last_greater(coins, request.amount)),
        ({
            let run = run_selection(CoinSelectorView::start(request, gas, intent), ledger);
            let primary = coins[last_greater(coins, request.amount)];
            &&& run.submissions <= 1
            &&& match split_of(request, gas, ledger, primary) {
                Err(message) => run == (SelectionRun {
                    outcome: Err(SelectionErrorView::Ledger { message }),
                    submissions: 0,
                }),
                Ok(transaction) => match (ledger.sign)(
                    request.sender,
                    transaction.tx_bytes,
                    intent,
                ) {
                    Err(message) => run == (SelectionRun {
                        outcome: Err(
                            SelectionErrorView::Settlement(
                                SettlementErrorView::SigningFailed { message },
                            ),
                        ),
                        submissions: 0,
                    }),
                    Ok(signature) => {
                        &&& run.submissions == 1
                        &&& match (ledger.submit)(
                            SignedTransactionView { transaction, signature },
                            ResponseOptions::full(),
                            RequestType::WaitForLocalExecution,
                        ) {
                            Err(message) => run.outcome == Err::<ObjectId, SelectionErrorView>(
                                SelectionErrorView::Settlement(
                                    SettlementErrorView::SubmissionFailed { message },
                                ),
                            ),
                            Ok(result) => if !result.confirmed() {
                                run.outcome == Err::<ObjectId, SelectionErrorView>(
                                    SelectionErrorView::Settlement(
                                        SettlementErrorView::NotConfirmed,
                                    ),
                                )
                            } else {
                                match result.object_changes {
                                    None => run.outcome == Err::<ObjectId, SelectionErrorView>(
                                        SelectionErrorView::Response(
                                            ResponseErrorView::MissingObjectChanges,
                                        ),
                                    ),
                                    Some(changes) => {
                                        &&& run.outcome == reading_outcome(
                                            request,
                                            ledger,
                                            split_candidates(changes, request.coin_type),
                                            result.digest,
                                        )
                                        &&& run.outcome matches Ok(coin) ==> {
                                            &&& split_candidates(
                                                changes,
                                                request.coin_type,
                                            ).contains(coin)
                                            &&& (ledger.read_coin)(coin) == Ok::<u64, Seq<char>>(
                                                request.amount,
                                            )
                                        }
                                    },
                                }
                            },
                        }
                    },
                },
            }
        }),
{
    let witness = choose|i: int| 0 <= i < coins.len() && (#[trigger] coins[i]).balance
        > request.amount;
    last_greater_exists(coins, request.amount, witness);
    let primary = coins[last_greater(coins, request.amount)];
    let start = CoinSelectorView::start(request, gas, intent);
    let building = start.step(ledger.answer(start.action()));
    assert(building.state == SelectorStateView::BuildingSplit {
        coin_object_id: primary.coin_object_id,
        remainder: (primary.balance - request.amount) as u64,
    });
    reveal_with_fuel(run_selection, 5);
    match split_of(request, gas, ledger, primary) {
        Err(message) => {},
        Ok(transaction) => {
            let signing = building.step(ledger.answer(building.action()));
            assert(signing.state == SelectorStateView::Settling(
                SettlerPhaseView::Signing(transaction),
            ));
            match (ledger.sign)(request.sender, transaction.tx_bytes, intent) {
                Err(message) => {},
                Ok(signature) => {
                    let submitting = signing.step(ledger.answer(signing.action()));
                    let signed = SignedTransactionView { transaction, signature };
                    assert(submitting.state == SelectorStateView::Settling(
                        SettlerPhaseView::Submitting(signed),
                    ));
                    let after = submitting.step(ledger.answer(submitting.action()));
                    assert(submits(submitting.action()));
                    match (ledger.submit)(
                        signed,
                        ResponseOptions::full(),
                        RequestType::WaitForLocalExecution,
                    ) {
                        Ok(result) => {
                            if result.confirmed() && result.object_changes is Some {
                                let candidates = split_candidates(
                                    result.object_changes->Some_0,
                                    request.coin_type,
                                );
                                found_coin_holds_the_amount(
                                    request,
                                    ledger,
                                    candidates,
                                    result.digest,
                                );
                                if candidates.len() > 0 {
                                    reading_submits_nothing(after, ledger);
                                    assert(seq![after.state->candidate] + after.state->later
                                        =~= candidates);
                                }
                            }
                        },
                        Err(_) => {},
                    }
                },
            }
        },
    }
}

/// Where the split of the last larger coin was built and signed and its
/// submission fails, the selection ends with `SubmissionFailed` and the ledger
/// client's message, after that one submission: the failure is passed on, not
/// answered by a second attempt.
pub proof fn failed_submission_is_passed_on(
    request: PaymentRequestView,
    gas: GasInfo,
    intent: Intent,
    ledger: LedgerModel,
    coins: Seq<CoinView>,
    transaction: PreparedTransactionView,
    signature: Seq<u8>,
    message: Seq<char>,
)
    requires
        gas.well_formed(),
        (ledger.list_coins)(request.sender, request.coin_type) == Ok::<Seq<CoinView>, Seq<char>>(
            coins,
        ),
        !has_exact(coins, request.amount),
        has_greater(coins, request.amount),
        split_of(request, gas, ledger, coins[last_greater(coins, request.amount)]) == Ok::<
            PreparedTransactionView,
            Seq<char>,
        >(transaction),
        (ledger.sign)(request.sender, transaction.tx_bytes, intent) == Ok::<Seq<u8>, Seq<char>>(
            signature,
        ),
        (ledger.submit)(
            SignedTransactionView { transaction, signature },
            ResponseOptions::full(),
            RequestType::WaitForLocalExecution,
        ) == Err::<ExecutionResultView, Seq<char>>(message),
    ensures
        run_selection(CoinSelectorView::start(request, gas, intent), ledger) == (SelectionRun {
            outcome: Err(
                SelectionErrorView::Settlement(SettlementErrorView::SubmissionFailed { message }),
            ),
            submissions: 1,
        }),
{
    greater_match_is_split_by_one_submission(request, gas, intent, ledger, coins);
}

} // verus!
