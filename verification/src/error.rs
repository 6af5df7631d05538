//! The failures that the library reports. Every one is returned to the caller
//! as a value; none is retried or dropped inside the library.

use vstd::prelude::*;
use crate::ids::SuiAddress;

verus! {

/// What can be wrong with an execution result when it is read.
///
/// The three `Missing*` variants say that the result lacks a section; they are
/// kept apart from `TransactionFailed`, which says that the ledger executed
/// the transaction and rejected it.
#[derive(Clone, Debug, PartialEq, Eq)]
pub enum ResponseError {
    /// The result carries no effects section.
    MissingEffects,
    /// The result carries no object changes: they were not asked for when the
    /// transaction was submitted.
    MissingObjectChanges,
    /// The object changes hold no record of a published package.
    MissingPackageId,
    /// The ledger reported a failed execution, with this message.
    TransactionFailed { error: String },
}

/// The mathematical value of a [`ResponseError`].
pub enum ResponseErrorView {
    MissingEffects,
    MissingObjectChanges,
    MissingPackageId,
    TransactionFailed { error: Seq<char> },
}

impl View for ResponseError {
    type V = ResponseErrorView;

    open spec fn view(&self) -> ResponseErrorView {
        match self {
            ResponseError::MissingEffects => ResponseErrorView::MissingEffects,
            ResponseError::MissingObjectChanges => ResponseErrorView::MissingObjectChanges,
            ResponseError::MissingPackageId => ResponseErrorView::MissingPackageId,
            ResponseError::TransactionFailed { error } => ResponseErrorView::TransactionFailed {
                error: error@,
            },
        }
    }
}

impl DeepView for ResponseError {
    type V = ResponseErrorView;

    open spec fn deep_view(&self) -> ResponseErrorView {
        self@
    }
}

/// Why a transaction was not settled.
#[derive(Clone, Debug, PartialEq, Eq)]
pub enum SettlementError {
    /// The signer gave no signature (key unavailable, wrong address). Final.
    SigningFailed { message: String },
    /// The ledger client failed to submit; its failure is passed on as it is.
    SubmissionFailed { message: String },
    /// The transaction was submitted, but the submitting node did not confirm
    /// that it executed it locally.
    NotConfirmed,
}

/// The mathematical value of a [`SettlementError`].
pub enum SettlementErrorView {
    SigningFailed { message: Seq<char> },
    SubmissionFailed { message: Seq<char> },
    NotConfirmed,
}

impl View for SettlementError {
    type V = SettlementErrorView;

    open spec fn view(&self) -> SettlementErrorView {
        match self {
            SettlementError::SigningFailed { message } => SettlementErrorView::SigningFailed {
                message: message@,
            },
            SettlementError::SubmissionFailed { message } => SettlementErrorView::SubmissionFailed {
                message: message@,
            },
            SettlementError::NotConfirmed => SettlementErrorView::NotConfirmed,
        }
    }
}

impl DeepView for SettlementError {
    type V = SettlementErrorView;

    open spec fn deep_view(&self) -> SettlementErrorView {
        self@
    }
}

/// Why no coin of the requested amount could be handed out.
#[derive(Clone, Debug, PartialEq, Eq)]
pub enum SelectionError {
    /// No coin of the type has a balance of at least the amount.
    InsufficientBalance { address: SuiAddress, coin_type: String, amount: u64 },
    /// The split was confirmed, but its result names no new coin of the type
    /// that holds the amount. `digest` identifies the split's result.
    SplitResultNotFound { amount: u64, coin_type: String, digest: String },
    /// The split transaction was not settled.
    Settlement(SettlementError),
    /// The split's result could not be read.
    Response(ResponseError),
    /// The ledger client failed to list coins, to build the split or to read a
    /// coin; its failure is passed on as it is.
    Ledger { message: String },
}

/// The mathematical value of a [`SelectionError`].
pub enum SelectionErrorView {
    InsufficientBalance { address: SuiAddress, coin_type: Seq<char>, amount: u64 },
    SplitResultNotFound { amount: u64, coin_type: Seq<char>, digest: Seq<char> },
    Settlement(SettlementErrorView),
    Response(ResponseErrorView),
    Ledger { message: Seq<char> },
}

impl View for SelectionError {
    type V = SelectionErrorView;

    open spec fn view(&self) -> SelectionErrorView {
        match self {
            SelectionError::InsufficientBalance { address, coin_type, amount } => {
                SelectionErrorView::InsufficientBalance {
                    address: *address,
                    coin_type: coin_type@,
                    amount: *amount,
                }
            },
            SelectionError::SplitResultNotFound { amount, coin_type, digest } => {
                SelectionErrorView::SplitResultNotFound {
                    amount: *amount,
                    coin_type: coin_type@,
                    digest: digest@,
                }
            },
            SelectionError::Settlement(e) => SelectionErrorView::Settlement(e@),
            SelectionError::Response(e) => SelectionErrorView::Response(e@),
            SelectionError::Ledger { message } => SelectionErrorView::Ledger { message: message@ },
        }
    }
}

impl DeepView for SelectionError {
    type V = SelectionErrorView;

    open spec fn deep_view(&self) -> SelectionErrorView {
        self@
    }
}

} // verus!
