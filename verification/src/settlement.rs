//! Settling a prepared transaction: sign it, submit it, wait until the
//! submitting node has executed it.
//!
//! Signing and submission are the work of collaborators that live outside this
//! library. [`TransactionSettler`] holds the decisions only: it says what to do
//! next ([`TransactionSettler::action`]) and takes what came of it
//! ([`TransactionSettler::step`]). It never asks for the same thing twice: a
//! failure ends the settlement.

use vstd::prelude::*;
use crate::error::{SettlementError, SettlementErrorView};
use crate::gas_info::GasInfo;
use crate::ids::SuiAddress;
use crate::response::{ExecutionResult, ExecutionResultView};

verus! {

/// The domain that a signature is made for. A signature made for one intent is
/// not valid for another, so the intent is set once, where the settlement is
/// configured, and handed to the signer with every request.
#[derive(Clone, Copy, Debug, PartialEq, Eq, Structural)]
pub struct Intent {
    pub scope: u8,
    pub version: u8,
    pub app_id: u8,
}

impl Intent {
    /// The intent of a user transaction on the ledger: scope, version and
    /// application are all zero.
    pub fn sui_transaction() -> (intent: Intent)
        ensures
            intent == (Intent { scope: 0, version: 0, app_id: 0 }),
    {
        Intent { scope: 0, version: 0, app_id: 0 }
    }
}

/// Which sections the ledger is asked to put into an execution result.
#[derive(Clone, Copy, Debug, PartialEq, Eq, Structural)]
pub struct ResponseOptions {
    pub show_input: bool,
    pub show_raw_input: bool,
    pub show_effects: bool,
    pub show_events: bool,
    pub show_object_changes: bool,
    pub show_balance_changes: bool,
}

impl ResponseOptions {
    /// Options that ask for no section.
    pub fn new() -> (options: ResponseOptions)
        ensures
            options == (ResponseOptions {
                show_input: false,
                show_raw_input: false,
                show_effects: false,
                show_events: false,
                show_object_changes: false,
                show_balance_changes: false,
            }),
    {
        ResponseOptions {
            show_input: false,
            show_raw_input: false,
            show_effects: false,
            show_events: false,
            show_object_changes: false,
            show_balance_changes: false,
        }
    }

    /// The same options, with the effects section asked for.
    pub fn with_effects(self) -> (options: ResponseOptions)
        ensures
            options == (ResponseOptions { show_effects: true, ..self }),
    {
        ResponseOptions { show_effects: true, ..self }
    }

    /// The same options, with the object changes asked for.
    pub fn with_object_changes(self) -> (options: ResponseOptions)
        ensures
            options == (ResponseOptions { show_object_changes: true, ..self }),
    {
        ResponseOptions { show_object_changes: true, ..self }
    }

    /// The effects section alone: the cheaper of the two usual requests.
    pub open spec fn effects_only() -> ResponseOptions {
        ResponseOptions {
            show_input: false,
            show_raw_input: false,
            show_effects: true,
            show_events: false,
            show_object_changes: false,
            show_balance_changes: false,
        }
    }

    /// The effects section and the object changes: what is needed to find the
    /// objects that a transaction created or published.
    pub open spec fn full() -> ResponseOptions {
        ResponseOptions {
            show_input: false,
            show_raw_input: false,
            show_effects: true,
            show_events: false,
            show_object_changes: true,
            show_balance_changes: false,
        }
    }
}

/// How long a submission waits before it answers.
#[derive(Clone, Copy, Debug, PartialEq, Eq, Structural)]
pub enum RequestType {
    /// Until the transaction is certified.
    WaitForEffectsCert,
    /// Until the submitting node has executed the transaction itself.
    WaitForLocalExecution,
}

/// An unsigned transaction: its canonical bytes, and who sends it with which
/// gas payment. It is used up by one settlement.
#[derive(Debug, PartialEq, Eq)]
pub struct PreparedTransaction {
    pub tx_bytes: Vec<u8>,
    pub sender: SuiAddress,
    pub gas: GasInfo,
}

/// The mathematical value of a [`PreparedTransaction`].
pub struct PreparedTransactionView {
    pub tx_bytes: Seq<u8>,
    pub sender: SuiAddress,
    pub gas: GasInfo,
}

impl View for PreparedTransaction {
    type V = PreparedTransactionView;

    open spec fn view(&self) -> PreparedTransactionView {
        PreparedTransactionView { tx_bytes: self.tx_bytes@, sender: self.sender, gas: self.gas }
    }
}

impl DeepView for PreparedTransaction {
    type V = PreparedTransactionView;

    open spec fn deep_view(&self) -> PreparedTransactionView {
        self@
    }
}

/// A prepared transaction with its one signature. It is good for one
/// submission.
#[derive(Debug, PartialEq, Eq)]
pub struct SignedTransaction {
    pub transaction: PreparedTransaction,
    pub signature: Vec<u8>,
}

/// The mathematical value of a [`SignedTransaction`].
pub struct SignedTransactionView {
    pub transaction: PreparedTransactionView,
    pub signature: Seq<u8>,
}

impl View for SignedTransaction {
    type V = SignedTransactionView;

    open spec fn view(&self) -> SignedTransactionView {
        SignedTransactionView { transaction: self.transaction@, signature: self.signature@ }
    }
}

impl DeepView for SignedTransaction {
    type V = SignedTransactionView;

    open spec fn deep_view(&self) -> SignedTransactionView {
        self@
    }
}

/// What a settlement that is not over waits for.
#[derive(Debug, PartialEq, Eq)]
pub enum SettlerPhase {
    /// For the signature over the transaction.
    Signing(PreparedTransaction),
    /// For the ledger's answer to the submission.
    Submitting(SignedTransaction),
}

/// The mathematical value of a [`SettlerPhase`].
pub enum SettlerPhaseView {
    Signing(PreparedTransactionView),
    Submitting(SignedTransactionView),
}

impl View for SettlerPhase {
    type V = SettlerPhaseView;

    open spec fn view(&self) -> SettlerPhaseView {
        match self {
            SettlerPhase::Signing(transaction) => SettlerPhaseView::Signing(transaction@),
            SettlerPhase::Submitting(signed) => SettlerPhaseView::Submitting(signed@),
        }
    }
}

impl DeepView for SettlerPhase {
    type V = SettlerPhaseView;

    open spec fn deep_view(&self) -> SettlerPhaseView {
        self@
    }
}

/// Where a settlement stands.
#[derive(Debug, PartialEq, Eq)]
pub enum SettlerState {
    Pending(SettlerPhase),
    Done(Result<ExecutionResult, SettlementError>),
}

/// The mathematical value of a [`SettlerState`].
pub enum SettlerStateView {
    Pending(SettlerPhaseView),
    Done(Result<ExecutionResultView, SettlementErrorView>),
}

impl View for SettlerState {
    type V = SettlerStateView;

    open spec fn view(&self) -> SettlerStateView {
        match self {
            SettlerState::Pending(phase) => SettlerStateView::Pending(phase@),
            SettlerState::Done(Ok(result)) => SettlerStateView::Done(Ok(result@)),
            SettlerState::Done(Err(error)) => SettlerStateView::Done(Err(error@)),
        }
    }
}

impl DeepView for SettlerState {
    type V = SettlerStateView;

    open spec fn deep_view(&self) -> SettlerStateView {
        self@
    }
}

/// How a settlement is to be made: who signs and for which intent, which
/// sections the result is to carry, and whether an unconfirmed result counts
/// as a failure.
#[derive(Clone, Copy, Debug, PartialEq, Eq, Structural)]
pub struct SettlerConfig {
    pub signer: SuiAddress,
    pub intent: Intent,
    pub options: ResponseOptions,
    pub require_confirmation: bool,
}

/// What the settlement asks of its collaborators.
#[derive(Debug, PartialEq, Eq)]
pub enum SettlerAction<'a> {
    /// Ask the signer to sign `tx_bytes` for `address`, within `intent`.
    Sign { address: SuiAddress, tx_bytes: &'a Vec<u8>, intent: Intent },
    /// Submit `transaction` once, asking for `options`, and wait as
    /// `request_type` says.
    Submit {
        transaction: &'a SignedTransaction,
        options: ResponseOptions,
        request_type: RequestType,
    },
    /// Nothing: the settlement is over.
    Return,
}

/// The mathematical value of a [`SettlerAction`].
pub enum SettlerActionView {
    Sign { address: SuiAddress, tx_bytes: Seq<u8>, intent: Intent },
    Submit {
        transaction: SignedTransactionView,
        options: ResponseOptions,
        request_type: RequestType,
    },
    Return,
}

impl<'a> View for SettlerAction<'a> {
    type V = SettlerActionView;

    open spec fn view(&self) -> SettlerActionView {
        match self {
            SettlerAction::Sign { address, tx_bytes, intent } => SettlerActionView::Sign {
                address: *address,
                tx_bytes: tx_bytes@,
                intent: *intent,
            },
            SettlerAction::Submit { transaction, options, request_type } => {
                SettlerActionView::Submit {
                    transaction: transaction@,
                    options: *options,
                    request_type: *request_type,
                }
            },
            SettlerAction::Return => SettlerActionView::Return,
        }
    }
}

/// What came of an action.
#[derive(Debug, PartialEq, Eq)]
pub enum SettlerEvent {
    /// The signer signed.
    Signed { signature: Vec<u8> },
    /// The signer gave no signature.
    SigningFailed { message: String },
    /// The ledger answered the submission.
    Submitted { result: ExecutionResult },
    /// The submission failed.
    SubmissionFailed { message: String },
}

/// The mathematical value of a [`SettlerEvent`].
pub enum SettlerEventView {
    Signed { signature: Seq<u8> },
    SigningFailed { message: Seq<char> },
    Submitted { result: ExecutionResultView },
    SubmissionFailed { message: Seq<char> },
}

impl View for SettlerEvent {
    type V = SettlerEventView;

    open spec fn view(&self) -> SettlerEventView {
        match self {
            SettlerEvent::Signed { signature } => SettlerEventView::Signed {
                signature: signature@,
            },
            SettlerEvent::SigningFailed { message } => SettlerEventView::SigningFailed {
                message: message@,
            },
            SettlerEvent::Submitted { result } => SettlerEventView::Submitted { result: result@ },
            SettlerEvent::SubmissionFailed { message } => SettlerEventView::SubmissionFailed {
                message: message@,
            },
        }
    }
}

impl DeepView for SettlerEvent {
    type V = SettlerEventView;

    open spec fn deep_view(&self) -> SettlerEventView {
        self@
    }
}

/// What a phase asks for under `config`.
pub open spec fn phase_action(config: SettlerConfig, phase: SettlerPhaseView) -> SettlerActionView {
    match phase {
        SettlerPhaseView::Signing(transaction) => SettlerActionView::Sign {
            address: config.signer,
            tx_bytes: transaction.tx_bytes,
            intent: config.intent,
        },
        SettlerPhaseView::Submitting(signed) => SettlerActionView::Submit {
            transaction: signed,
            options: config.options,
            request_type: RequestType::WaitForLocalExecution,
        },
    }
}

/// What an answered submission settles to: the result as it came, unless
/// confirmation is required and the result does not carry it.
pub open spec fn settled(config: SettlerConfig, result: ExecutionResultView) -> Result<
    ExecutionResultView,
    SettlementErrorView,
> {
    if config.require_confirmation && !result.confirmed() {
        Err(SettlementErrorView::NotConfirmed)
    } else {
        Ok(result)
    }
}

/// Where a phase goes on an event. An event that the phase does not wait for
/// changes nothing.
pub open spec fn phase_step(
    config: SettlerConfig,
    phase: SettlerPhaseView,
    event: SettlerEventView,
) -> SettlerStateView {
    match (phase, event) {
        (SettlerPhaseView::Signing(transaction), SettlerEventView::Signed { signature }) => {
            SettlerStateView::Pending(
                SettlerPhaseView::Submitting(SignedTransactionView { transaction, signature }),
            )
        },
        (SettlerPhaseView::Signing(_), SettlerEventView::SigningFailed { message }) => {
            SettlerStateView::Done(Err(SettlementErrorView::SigningFailed { message }))
        },
        (SettlerPhaseView::Submitting(_), SettlerEventView::Submitted { result }) => {
            SettlerStateView::Done(settled(config, result))
        },
        (SettlerPhaseView::Submitting(_), SettlerEventView::SubmissionFailed { message }) => {
            SettlerStateView::Done(Err(SettlementErrorView::SubmissionFailed { message }))
        },
        _ => SettlerStateView::Pending(phase),
    }
}

/// Whether the submitting node confirmed that it executed the transaction.
pub fn is_confirmed(result: &ExecutionResult) -> (confirmed: bool)
    ensures
        confirmed == result@.confirmed(),
{
    match result.confirmed_local_execution {
        Some(confirmed) => confirmed,
        None => false,
    }
}

/// Fails with `NotConfirmed` unless the submitting node confirmed that it
/// executed the transaction. A submission that succeeded is not yet a
/// transaction that took effect: this is the test that tells them apart.
pub fn ensure_confirmed(result: &ExecutionResult) -> (res: Result<(), SettlementError>)
    ensures
        match res {
            Ok(_) => result@.confirmed(),
            Err(e) => !result@.confirmed() && e@ == SettlementErrorView::NotConfirmed,
        },
{
    if is_confirmed(result) {
        Ok(())
    } else {
        Err(SettlementError::NotConfirmed)
    }
}

impl SettlerPhase {
    /// What this phase asks for under `config`.
    pub fn action(&self, config: &SettlerConfig) -> (action: SettlerAction<'_>)
        ensures
            action@ == phase_action(*config, self@),
    {
        match self {
            SettlerPhase::Signing(transaction) => SettlerAction::Sign {
                address: config.signer,
                tx_bytes: &transaction.tx_bytes,
                intent: config.intent,
            },
            SettlerPhase::Submitting(signed) => SettlerAction::Submit {
                transaction: signed,
                options: config.options,
                request_type: RequestType::WaitForLocalExecution,
            },
        }
    }

    /// Where this phase goes on `event`.
    pub fn step(self, config: &SettlerConfig, event: SettlerEvent) -> (next: SettlerState)
        ensures
            next@ == phase_step(*config, self@, event@),
    {
        match self {
            SettlerPhase::Signing(transaction) => match event {
                SettlerEvent::Signed { signature } => SettlerState::Pending(
                    SettlerPhase::Submitting(SignedTransaction { transaction, signature }),
                ),
                SettlerEvent::SigningFailed { message } => SettlerState::Done(
                    Err(SettlementError::SigningFailed { message }),
                ),
                _ => SettlerState::Pending(SettlerPhase::Signing(transaction)),
            },
            SettlerPhase::Submitting(signed) => match event {
                SettlerEvent::Submitted { result } => {
                    if config.require_confirmation {
                        match ensure_confirmed(&result) {
                            Ok(_) => SettlerState::Done(Ok(result)),
                            Err(error) => SettlerState::Done(Err(error)),
                        }
                    } else {
                        SettlerState::Done(Ok(result))
                    }
                },
                SettlerEvent::SubmissionFailed { message } => SettlerState::Done(
                    Err(SettlementError::SubmissionFailed { message }),
                ),
                _ => SettlerState::Pending(SettlerPhase::Submitting(signed)),
            },
        }
    }
}

/// The settlement of one prepared transaction.
#[derive(Debug, PartialEq, Eq)]
pub struct TransactionSettler {
    pub config: SettlerConfig,
    pub state: SettlerState,
}

/// The mathematical value of a [`TransactionSettler`].
pub struct TransactionSettlerView {
    pub config: SettlerConfig,
    pub state: SettlerStateView,
}

impl View for TransactionSettler {
    type V = TransactionSettlerView;

    open spec fn view(&self) -> TransactionSettlerView {
        TransactionSettlerView { config: self.config, state: self.state@ }
    }
}

impl DeepView for TransactionSettler {
    type V = TransactionSettlerView;

    open spec fn deep_view(&self) -> TransactionSettlerView {
        self@
    }
}

impl TransactionSettlerView {
    /// The settlement of `transaction` under `config`, before anything was
    /// done.
    pub open spec fn start(
        config: SettlerConfig,
        transaction: PreparedTransactionView,
    ) -> TransactionSettlerView {
        TransactionSettlerView {
            config,
            state: SettlerStateView::Pending(SettlerPhaseView::Signing(transaction)),
        }
    }

    /// What the settlement asks for now.
    pub open spec fn action(self) -> SettlerActionView {
        match self.state {
            SettlerStateView::Pending(phase) => phase_action(self.config, phase),
            SettlerStateView::Done(_) => SettlerActionView::Return,
        }
    }

    /// Where the settlement goes on `event`. A settlement that is over stays as
    /// it is.
    pub open spec fn step(self, event: SettlerEventView) -> TransactionSettlerView {
        match self.state {
            SettlerStateView::Pending(phase) => TransactionSettlerView {
                config: self.config,
                state: phase_step(self.config, phase, event),
            },
            SettlerStateView::Done(_) => self,
        }
    }

    /// What the settlement ended with, if it is over.
    pub open spec fn outcome(self) -> Option<Result<ExecutionResultView, SettlementErrorView>> {
        match self.state {
            SettlerStateView::Pending(_) => None,
            SettlerStateView::Done(outcome) => Some(outcome),
        }
    }
}

impl TransactionSettler {
    /// Begins the settlement of `transaction` under `config`. The first action
    /// is the request for a signature.
    pub fn new(config: SettlerConfig, transaction: PreparedTransaction) -> (settler:
        TransactionSettler)
        ensures
            settler@ == TransactionSettlerView::start(config, transaction@),
    {
        TransactionSettler {
            config,
            state: SettlerState::Pending(SettlerPhase::Signing(transaction)),
        }
    }

    /// What the caller is to do now.
    pub fn action(&self) -> (action: SettlerAction<'_>)
        ensures
            action@ == self@.action(),
    {
        match &self.state {
            SettlerState::Pending(phase) => phase.action(&self.config),
            SettlerState::Done(_) => SettlerAction::Return,
        }
    }

    /// Takes what came of the last action.
    pub fn step(self, event: SettlerEvent) -> (next: TransactionSettler)
        ensures
            next@ == self@.step(event@),
    {
        let config = self.config;
        match self.state {
            SettlerState::Pending(phase) => TransactionSettler {
                config,
                state: phase.step(&config, event),
            },
            SettlerState::Done(outcome) => TransactionSettler {
                config,
                state: SettlerState::Done(outcome),
            },
        }
    }

    /// Whether the settlement is over.
    pub fn is_done(&self) -> (done: bool)
        ensures
            done == self@.outcome().is_some(),
    {
        match &self.state {
            SettlerState::Pending(_) => false,
            SettlerState::Done(_) => true,
        }
    }

    /// What the settlement ended with; `None` while it is not over.
    pub fn into_result(self) -> (outcome: Option<Result<ExecutionResult, SettlementError>>)
        ensures
            match outcome {
                Some(Ok(result)) => self@.outcome() == Some(
                    Ok::<ExecutionResultView, SettlementErrorView>(result@),
                ),
                Some(Err(error)) => self@.outcome() == Some(
                    Err::<ExecutionResultView, SettlementErrorView>(error@),
                ),
                None => self@.outcome().is_none(),
            },
    {
        match self.state {
            SettlerState::Pending(_) => None,
            SettlerState::Done(outcome) => Some(outcome),
        }
    }
}

} // verus!
