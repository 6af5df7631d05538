//! An execution result reduced to what a caller asks of it: the published
//! package, the object changes and the reported outcome, each of which may be
//! absent.

use vstd::prelude::*;
use crate::error::{ResponseError, ResponseErrorView};
use crate::ids::ObjectId;
use crate::published_objects::{find_published_package, published_package};
use crate::response::{
    ExecutionResult, ExecutionResultView, ExecutionStatus, ExecutionStatusView, ObjectChange,
    ObjectChangeView,
};
use crate::views::result_view;

verus! {

/// What an execution result says of a package, of objects and of the outcome.
/// The package is the last one that the object changes record as published.
#[derive(Debug)]
pub struct TransactionResponse {
    package_id: Option<ObjectId>,
    object_changes: Option<Vec<ObjectChange>>,
    execution_status: Option<ExecutionStatus>,
}

/// The mathematical value of a [`TransactionResponse`].
pub struct TransactionResponseView {
    pub package_id: Option<ObjectId>,
    pub object_changes: Option<Seq<ObjectChangeView>>,
    pub execution_status: Option<ExecutionStatusView>,
}

impl TransactionResponseView {
    /// The package is the last one that the object changes record as
    /// published, and there is none without object changes.
    pub open spec fn well_formed(self) -> bool {
        self.package_id == match self.object_changes {
            Some(changes) => published_package(changes),
            None => None,
        }
    }

    /// What an execution result reduces to.
    pub open spec fn of(result: ExecutionResultView) -> TransactionResponseView {
        TransactionResponseView {
            package_id: match result.object_changes {
                Some(changes) => published_package(changes),
                None => None,
            },
            object_changes: result.object_changes,
            execution_status: match result.effects {
                Some(effects) => Some(effects.status),
                None => None,
            },
        }
    }

    /// `Ok` for a reported success; `MissingEffects` where no outcome was
    /// reported; `TransactionFailed` with the ledger's message for a reported
    /// failure.
    pub open spec fn check_execution_status(self) -> Result<(), ResponseErrorView> {
        match self.execution_status {
            None => Err(ResponseErrorView::MissingEffects),
            Some(ExecutionStatusView::Success) => Ok(()),
            Some(ExecutionStatusView::Failure { error }) => Err(
                ResponseErrorView::TransactionFailed { error },
            ),
        }
    }

    /// The object changes, or `MissingObjectChanges`.
    pub open spec fn object_changes(self) -> Result<Seq<ObjectChangeView>, ResponseErrorView> {
        match self.object_changes {
            Some(changes) => Ok(changes),
            None => Err(ResponseErrorView::MissingObjectChanges),
        }
    }

    /// The published package, or `MissingPackageId`.
    pub open spec fn package_id(self) -> Result<ObjectId, ResponseErrorView> {
        match self.package_id {
            Some(package_id) => Ok(package_id),
            None => Err(ResponseErrorView::MissingPackageId),
        }
    }
}

/// A result without an effects section reduces to a response that fails the
/// status check with `MissingEffects`: it is neither passed as a success nor
/// reported as a failure of the transaction.
pub proof fn missing_effects_fail_the_status_check(result: ExecutionResultView)
    requires
        result.effects is None,
    ensures
        TransactionResponseView::of(result).check_execution_status() == Err::<
            (),
            ResponseErrorView,
        >(ResponseErrorView::MissingEffects),
{
}

impl View for TransactionResponse {
    type V = TransactionResponseView;

    closed spec fn view(&self) -> TransactionResponseView {
        TransactionResponseView {
            package_id: self.package_id,
            object_changes: self.object_changes.deep_view(),
            execution_status: self.execution_status.deep_view(),
        }
    }
}

impl DeepView for TransactionResponse {
    type V = TransactionResponseView;

    open spec fn deep_view(&self) -> TransactionResponseView {
        self@
    }
}

impl TransactionResponse {
    #[verifier::type_invariant]
    closed spec fn package_is_last_published(&self) -> bool {
        self@.well_formed()
    }

    /// Reduces an execution result. This never fails: a section that the
    /// result lacks is absent from the response.
    pub fn try_from(value: ExecutionResult) -> (res: Result<TransactionResponse, ResponseError>)
        ensures
            res matches Ok(response) && response@ == TransactionResponseView::of(value@),
    {
        let ExecutionResult { digest: _, confirmed_local_execution: _, effects, object_changes } =
            value;
        let package_id = match &object_changes {
            Some(changes) => find_published_package(changes),
            None => None,
        };
        let execution_status = match effects {
            Some(effects) => Some(effects.status),
            None => None,
        };
        Ok(TransactionResponse { package_id, object_changes, execution_status })
    }

    /// Passes exactly when a success was reported. Fails with `MissingEffects`
    /// exactly when the result had no effects section, so that no outcome is
    /// known: that is neither a success nor a failure that the ledger
    /// reported. Fails with `TransactionFailed` and the ledger's message
    /// exactly when a failure was reported.
    pub fn check_execution_status(&self) -> (res: Result<(), ResponseError>)
        ensures
            result_view(res) == self@.check_execution_status(),
    {
        match &self.execution_status {
            None => Err(ResponseError::MissingEffects),
            Some(ExecutionStatus::Success) => Ok(()),
            Some(ExecutionStatus::Failure { error }) => Err(
                ResponseError::TransactionFailed { error: error.clone() },
            ),
        }
    }

    /// The object changes; `MissingObjectChanges` exactly when the result
    /// reported none.
    pub fn object_changes(&self) -> (res: Result<&Vec<ObjectChange>, ResponseError>)
        ensures
            result_view(res) == self@.object_changes(),
    {
        match &self.object_changes {
            Some(changes) => Ok(changes),
            None => Err(ResponseError::MissingObjectChanges),
        }
    }

    /// The object changes, taken out of the response.
    pub fn into_object_changes(self) -> (res: Result<Vec<ObjectChange>, ResponseError>)
        ensures
            result_view(res) == self@.object_changes(),
    {
        match self.object_changes {
            Some(changes) => Ok(changes),
            None => Err(ResponseError::MissingObjectChanges),
        }
    }

    /// The published package: the last one that the object changes record.
    /// `MissingPackageId` exactly when they record none, or are absent.
    pub fn package_id(&self) -> (res: Result<&ObjectId, ResponseError>)
        ensures
            result_view(res) == self@.package_id(),
            self@.well_formed(),
    {
        proof {
            use_type_invariant(self);
        }
        match &self.package_id {
            Some(package_id) => Ok(package_id),
            None => Err(ResponseError::MissingPackageId),
        }
    }
}

} // verus!
