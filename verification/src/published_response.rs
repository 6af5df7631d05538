//! The result of a transaction that published a package.

use vstd::prelude::*;
use crate::error::{ResponseError, ResponseErrorView};
use crate::ids::ObjectId;
use crate::published_objects::{find_published_package, published_package};
use crate::response::{
    ExecutionResult, ExecutionResultView, ExecutionStatus, ExecutionStatusView, ObjectChange,
    ObjectChangeView,
};
use crate::views::result_view;

verus! {

/// An execution result that holds object changes, an outcome and a published
/// package, with those three taken out. `response` is the result without its
/// object changes.
#[derive(Debug)]
pub struct PublishedResponse {
    pub package_id: ObjectId,
    pub object_changes: Vec<ObjectChange>,
    pub execution_status: ExecutionStatus,
    pub response: ExecutionResult,
}

/// The mathematical value of a [`PublishedResponse`].
pub struct PublishedResponseView {
    pub package_id: ObjectId,
    pub object_changes: Seq<ObjectChangeView>,
    pub execution_status: ExecutionStatusView,
    pub response: ExecutionResultView,
}

impl View for PublishedResponse {
    type V = PublishedResponseView;

    open spec fn view(&self) -> PublishedResponseView {
        PublishedResponseView {
            package_id: self.package_id,
            object_changes: self.object_changes.deep_view(),
            execution_status: self.execution_status@,
            response: self.response@,
        }
    }
}

impl DeepView for PublishedResponse {
    type V = PublishedResponseView;

    open spec fn deep_view(&self) -> PublishedResponseView {
        self@
    }
}

impl PublishedResponseView {
    /// What an execution result yields. It must hold object changes, then an
    /// effects section, then a published package: the first that is missing
    /// names the failure.
    pub open spec fn of(result: ExecutionResultView) -> Result<
        PublishedResponseView,
        ResponseErrorView,
    > {
        match result.object_changes {
            None => Err(ResponseErrorView::MissingObjectChanges),
            Some(changes) => match result.effects {
                None => Err(ResponseErrorView::MissingEffects),
                Some(effects) => match published_package(changes) {
                    None => Err(ResponseErrorView::MissingPackageId),
                    Some(package_id) => Ok(
                        PublishedResponseView {
                            package_id,
                            object_changes: changes,
                            execution_status: effects.status,
                            response: ExecutionResultView { object_changes: None, ..result },
                        },
                    ),
                },
            },
        }
    }

    /// `Ok` unless the outcome is a failure.
    pub open spec fn check_execution_status(self) -> Result<(), ResponseErrorView> {
        match self.execution_status {
            ExecutionStatusView::Failure { error } => Err(
                ResponseErrorView::TransactionFailed { error },
            ),
            ExecutionStatusView::Success => Ok(()),
        }
    }
}

impl PublishedResponse {
    /// Takes the object changes, the outcome and the published package out of
    /// an execution result. Fails with `MissingObjectChanges`, `MissingEffects`
    /// or `MissingPackageId`, in that order of precedence, exactly when the
    /// result lacks the section or records no publication. Of several
    /// publications, the last is the package.
    pub fn try_from(value: ExecutionResult) -> (res: Result<PublishedResponse, ResponseError>)
        ensures
            result_view(res) == PublishedResponseView::of(value@),
    {
        let ExecutionResult { digest, confirmed_local_execution, effects, object_changes } = value;
        let object_changes = match object_changes {
            Some(changes) => changes,
            None => {
                return Err(ResponseError::MissingObjectChanges);
            },
        };
        let package = find_published_package(&object_changes);
        let execution_status = match &effects {
            Some(effects) => effects.status.clone(),
            None => {
                return Err(ResponseError::MissingEffects);
            },
        };
        match package {
            Some(package_id) => Ok(
                PublishedResponse {
                    package_id,
                    object_changes,
                    execution_status,
                    response: ExecutionResult {
                        digest,
                        confirmed_local_execution,
                        effects,
                        object_changes: None,
                    },
                },
            ),
            None => Err(ResponseError::MissingPackageId),
        }
    }

    /// Fails with `TransactionFailed` and the ledger's message exactly when
    /// the outcome is a failure.
    pub fn check_execution_status(&self) -> (res: Result<(), ResponseError>)
        ensures
            result_view(res) == self@.check_execution_status(),
    {
        match &self.execution_status {
            ExecutionStatus::Failure { error } => Err(
                ResponseError::TransactionFailed { error: error.clone() },
            ),
            ExecutionStatus::Success => Ok(()),
        }
    }
}

} // verus!
