//! The result of an executed transaction, and the pure functions that read it.

use vstd::prelude::*;
use crate::error::{ResponseError, ResponseErrorView};
use crate::ids::ObjectId;
use crate::views::result_view;

verus! {

/// The outcome that the ledger reported for a transaction. A failure is an
/// ordinary value here: the caller decides whether it is fatal.
#[derive(Debug, PartialEq, Eq)]
pub enum ExecutionStatus {
    Success,
    Failure { error: String },
}

/// The mathematical value of an [`ExecutionStatus`].
pub enum ExecutionStatusView {
    Success,
    Failure { error: Seq<char> },
}

impl View for ExecutionStatus {
    type V = ExecutionStatusView;

    open spec fn view(&self) -> ExecutionStatusView {
        match self {
            ExecutionStatus::Success => ExecutionStatusView::Success,
            ExecutionStatus::Failure { error } => ExecutionStatusView::Failure { error: error@ },
        }
    }
}

impl DeepView for ExecutionStatus {
    type V = ExecutionStatusView;

    open spec fn deep_view(&self) -> ExecutionStatusView {
        self@
    }
}

impl Clone for ExecutionStatus {
    fn clone(&self) -> (copy: ExecutionStatus)
        ensures
            copy@ == self@,
    {
        match self {
            ExecutionStatus::Success => ExecutionStatus::Success,
            ExecutionStatus::Failure { error } => ExecutionStatus::Failure { error: error.clone() },
        }
    }
}

/// What a transaction cost, in the ledger's smallest unit.
#[derive(Clone, Copy, Debug, PartialEq, Eq, Structural)]
pub struct GasCostSummary {
    pub computation_cost: u64,
    pub storage_cost: u64,
    pub storage_rebate: u64,
    pub non_refundable_storage_fee: u64,
}

impl View for GasCostSummary {
    type V = GasCostSummary;

    open spec fn view(&self) -> GasCostSummary {
        *self
    }
}

impl DeepView for GasCostSummary {
    type V = GasCostSummary;

    open spec fn deep_view(&self) -> GasCostSummary {
        *self
    }
}

/// The type of an on-chain object: the package address, the module and the
/// type's name, and each type argument in its canonical text form.
#[derive(Debug, PartialEq, Eq)]
pub struct StructTag {
    pub address: ObjectId,
    pub module: String,
    pub name: String,
    pub type_params: Vec<String>,
}

/// The mathematical value of a [`StructTag`].
pub struct StructTagView {
    pub address: ObjectId,
    pub module: Seq<char>,
    pub name: Seq<char>,
    pub type_params: Seq<Seq<char>>,
}

impl View for StructTag {
    type V = StructTagView;

    open spec fn view(&self) -> StructTagView {
        StructTagView {
            address: self.address,
            module: self.module@,
            name: self.name@,
            type_params: self.type_params.deep_view(),
        }
    }
}

impl DeepView for StructTag {
    type V = StructTagView;

    open spec fn deep_view(&self) -> StructTagView {
        self@
    }
}

impl Clone for StructTag {
    fn clone(&self) -> (copy: StructTag)
        ensures
            copy@ == self@,
    {
        let mut type_params: Vec<String> = Vec::new();
        let mut i: usize = 0;
        while i < self.type_params.len()
            invariant
                i <= self.type_params.len(),
                type_params.len() == i,
                forall|j: int|
                    0 <= j < i ==> (#[trigger] type_params@[j])@ == self.type_params@[j]@,
            decreases self.type_params.len() - i,
        {
            type_params.push(self.type_params[i].clone());
            i = i + 1;
        }
        assert(type_params.deep_view() =~= self.type_params.deep_view());
        StructTag {
            address: self.address,
            module: self.module.clone(),
            name: self.name.clone(),
            type_params,
        }
    }
}

/// One effect of a transaction on the ledger's objects.
#[derive(Clone, Debug, PartialEq, Eq)]
pub enum ObjectChange {
    /// A new object of the given type.
    Created { object_id: ObjectId, object_type: StructTag },
    /// A newly published package.
    Published { package_id: ObjectId },
    /// Any other change: a mutation, a transfer, a deletion.
    Other,
}

/// The mathematical value of an [`ObjectChange`].
pub enum ObjectChangeView {
    Created { object_id: ObjectId, object_type: StructTagView },
    Published { package_id: ObjectId },
    Other,
}

impl View for ObjectChange {
    type V = ObjectChangeView;

    open spec fn view(&self) -> ObjectChangeView {
        match self {
            ObjectChange::Created { object_id, object_type } => ObjectChangeView::Created {
                object_id: *object_id,
                object_type: object_type@,
            },
            ObjectChange::Published { package_id } => ObjectChangeView::Published {
                package_id: *package_id,
            },
            ObjectChange::Other => ObjectChangeView::Other,
        }
    }
}

impl DeepView for ObjectChange {
    type V = ObjectChangeView;

    open spec fn deep_view(&self) -> ObjectChangeView {
        self@
    }
}

/// The effects section of an execution result.
#[derive(Clone, Debug, PartialEq, Eq)]
pub struct TransactionEffects {
    pub status: ExecutionStatus,
    pub gas_used: GasCostSummary,
    pub created: Vec<ObjectId>,
}

/// The mathematical value of [`TransactionEffects`].
pub struct TransactionEffectsView {
    pub status: ExecutionStatusView,
    pub gas_used: GasCostSummary,
    pub created: Seq<ObjectId>,
}

impl View for TransactionEffects {
    type V = TransactionEffectsView;

    open spec fn view(&self) -> TransactionEffectsView {
        TransactionEffectsView {
            status: self.status@,
            gas_used: self.gas_used,
            created: self.created@,
        }
    }
}

impl DeepView for TransactionEffects {
    type V = TransactionEffectsView;

    open spec fn deep_view(&self) -> TransactionEffectsView {
        self@
    }
}

/// What the ledger answered to a submitted transaction. `digest` identifies
/// the transaction. A section that was not asked for at submission is `None`.
#[derive(Clone, Debug, PartialEq, Eq)]
pub struct ExecutionResult {
    pub digest: String,
    pub confirmed_local_execution: Option<bool>,
    pub effects: Option<TransactionEffects>,
    pub object_changes: Option<Vec<ObjectChange>>,
}

/// The mathematical value of an [`ExecutionResult`].
pub struct ExecutionResultView {
    pub digest: Seq<char>,
    pub confirmed_local_execution: Option<bool>,
    pub effects: Option<TransactionEffectsView>,
    pub object_changes: Option<Seq<ObjectChangeView>>,
}

impl View for ExecutionResult {
    type V = ExecutionResultView;

    open spec fn view(&self) -> ExecutionResultView {
        ExecutionResultView {
            digest: self.digest@,
            confirmed_local_execution: self.confirmed_local_execution,
            effects: self.effects.deep_view(),
            object_changes: self.object_changes.deep_view(),
        }
    }
}

impl DeepView for ExecutionResult {
    type V = ExecutionResultView;

    open spec fn deep_view(&self) -> ExecutionResultView {
        self@
    }
}

impl ExecutionResultView {
    /// The submitting node confirmed that it executed the transaction.
    pub open spec fn confirmed(self) -> bool {
        self.confirmed_local_execution == Some(true)
    }

    /// The effects section, or `MissingEffects` where there is none.
    pub open spec fn effects(self) -> Result<TransactionEffectsView, ResponseErrorView> {
        match self.effects {
            Some(effects) => Ok(effects),
            None => Err(ResponseErrorView::MissingEffects),
        }
    }

    /// The reported outcome, or `MissingEffects` where there is no effects
    /// section.
    pub open spec fn execution_status(self) -> Result<ExecutionStatusView, ResponseErrorView> {
        match self.effects {
            Some(effects) => Ok(effects.status),
            None => Err(ResponseErrorView::MissingEffects),
        }
    }

    /// The reported cost, or `MissingEffects` where there is no effects section.
    pub open spec fn gas_used(self) -> Result<GasCostSummary, ResponseErrorView> {
        match self.effects {
            Some(effects) => Ok(effects.gas_used),
            None => Err(ResponseErrorView::MissingEffects),
        }
    }

    /// The object changes, or `MissingObjectChanges` where they were not
    /// reported.
    pub open spec fn object_changes(self) -> Result<Seq<ObjectChangeView>, ResponseErrorView> {
        match self.object_changes {
            Some(changes) => Ok(changes),
            None => Err(ResponseErrorView::MissingObjectChanges),
        }
    }

    /// `Ok` for a reported success; `MissingEffects` where there is no effects
    /// section; `TransactionFailed` with the ledger's message for a reported
    /// failure.
    pub open spec fn ensure_success(self) -> Result<(), ResponseErrorView> {
        match self.effects {
            None => Err(ResponseErrorView::MissingEffects),
            Some(effects) => match effects.status {
                ExecutionStatusView::Success => Ok(()),
                ExecutionStatusView::Failure { error } => Err(
                    ResponseErrorView::TransactionFailed { error },
                ),
            },
        }
    }
}

/// The effects section of `response`; `MissingEffects` exactly when it has
/// none.
pub fn get_transaction_effects_v1(response: &ExecutionResult) -> (res: Result<
    &TransactionEffects,
    ResponseError,
>)
    ensures
        match res {
            Ok(effects) => response.effects == Some(*effects),
            Err(e) => response.effects is None && e@ == ResponseErrorView::MissingEffects,
        },
        result_view(res) == response@.effects(),
{
    match &response.effects {
        Some(effects) => Ok(effects),
        None => Err(ResponseError::MissingEffects),
    }
}

/// The outcome that the ledger reported. A result without an effects section
/// gives `MissingEffects`, never a failure status: the result is incomplete,
/// the transaction was not rejected.
pub fn execution_status(response: &ExecutionResult) -> (res: Result<
    &ExecutionStatus,
    ResponseError,
>)
    ensures
        result_view(res) == response@.execution_status(),
        response@.effects is None ==> res == Err::<&ExecutionStatus, ResponseError>(
            ResponseError::MissingEffects,
        ),
{
    match get_transaction_effects_v1(response) {
        Ok(effects) => Ok(&effects.status),
        Err(e) => Err(e),
    }
}

/// The cost that the ledger reported; `MissingEffects` exactly when the result
/// has no effects section.
pub fn gas_used(response: &ExecutionResult) -> (res: Result<GasCostSummary, ResponseError>)
    ensures
        result_view(res) == response@.gas_used(),
{
    match get_transaction_effects_v1(response) {
        Ok(effects) => Ok(effects.gas_used),
        Err(e) => Err(e),
    }
}

/// Fails unless the ledger reported a successful execution: with
/// `MissingEffects` where the result has no effects section, with
/// `TransactionFailed` and the ledger's message where it reports a failure.
pub fn ensure_transaction_success(response: &ExecutionResult) -> (res: Result<(), ResponseError>)
    ensures
        result_view(res) == response@.ensure_success(),
{
    let effects = get_transaction_effects_v1(response)?;
    match &effects.status {
        ExecutionStatus::Failure { error } => Err(
            ResponseError::TransactionFailed { error: error.clone() },
        ),
        ExecutionStatus::Success => Ok(()),
    }
}

/// The object changes of `result`, in the order in which the ledger listed
/// them; `MissingObjectChanges` exactly when the result has none, which is the
/// case when they were not asked for at submission.
pub fn object_changes_from_tx_result(result: ExecutionResult) -> (res: Result<
    Vec<ObjectChange>,
    ResponseError,
>)
    ensures
        result_view(res) == result@.object_changes(),
{
    match result.object_changes {
        Some(changes) => Ok(changes),
        None => Err(ResponseError::MissingObjectChanges),
    }
}

/// One line of the report on an execution result.
#[derive(Clone, Copy, Debug, PartialEq, Eq, Structural)]
pub enum ReportLine {
    /// Whether the submitting node confirmed that it executed the transaction.
    Confirmed(bool),
    /// What the transaction cost.
    GasUsed(GasCostSummary),
    /// The heading of the list of created objects.
    CreatedHeading,
    /// An object that the transaction created.
    Created(ObjectId),
    /// The result has no effects section.
    NoEffects,
}

/// The report on an execution result: the lines to show, in their order, and
/// whether the report ends in a failure.
#[derive(Debug, PartialEq, Eq)]
pub struct EffectsReport {
    pub lines: Vec<ReportLine>,
    pub outcome: Result<(), ResponseError>,
}

impl ExecutionResultView {
    /// The line that says whether the transaction was confirmed; none where
    /// the result does not say.
    pub open spec fn confirmation_lines(self) -> Seq<ReportLine> {
        match self.confirmed_local_execution {
            Some(confirmed) => seq![ReportLine::Confirmed(confirmed)],
            None => Seq::empty(),
        }
    }

    /// The lines of the report: the confirmation first, where the result says
    /// whether it was confirmed; then, for a reported success, the cost and,
    /// where objects were created, a heading and one line for each; for a
    /// reported failure nothing more; without an effects section, a line that
    /// says so.
    pub open spec fn report_lines(self) -> Seq<ReportLine> {
        self.confirmation_lines() + match self.effects {
            None => seq![ReportLine::NoEffects],
            Some(effects) => match effects.status {
                ExecutionStatusView::Failure { .. } => Seq::empty(),
                ExecutionStatusView::Success => seq![ReportLine::GasUsed(effects.gas_used)] + (
                if effects.created.len() > 0 {
                    seq![ReportLine::CreatedHeading] + effects.created.map_values(
                        |object_id: ObjectId| ReportLine::Created(object_id),
                    )
                } else {
                    Seq::empty()
                }),
            },
        }
    }

    /// How the report ends: in `TransactionFailed` for a reported failure,
    /// else well. A result without an effects section is no failure here.
    pub open spec fn report_outcome(self) -> Result<(), ResponseErrorView> {
        match self.effects {
            Some(effects) => match effects.status {
                ExecutionStatusView::Failure { error } => Err(
                    ResponseErrorView::TransactionFailed { error },
                ),
                ExecutionStatusView::Success => Ok(()),
            },
            None => Ok(()),
        }
    }
}

/// What is to be shown of an execution result, and whether the report ends
/// in a failure.
pub fn effects_report(response: &ExecutionResult) -> (report: EffectsReport)
    ensures
        report.lines@ == response@.report_lines(),
        result_view(report.outcome) == response@.report_outcome(),
{
    let mut lines: Vec<ReportLine> = Vec::new();
    match response.confirmed_local_execution {
        Some(confirmed) => {
            lines.push(ReportLine::Confirmed(confirmed));
        },
        None => {},
    }
    match &response.effects {
        None => {
            lines.push(ReportLine::NoEffects);
            assert(lines@ =~= response@.report_lines());
            EffectsReport { lines, outcome: Ok(()) }
        },
        Some(effects) => match &effects.status {
            ExecutionStatus::Failure { error } => {
                assert(lines@ =~= response@.report_lines());
                EffectsReport {
                    lines,
                    outcome: Err(ResponseError::TransactionFailed { error: error.clone() }),
                }
            },
            ExecutionStatus::Success => {
                lines.push(ReportLine::GasUsed(effects.gas_used));
                if effects.created.len() > 0 {
                    lines.push(ReportLine::CreatedHeading);
                    let ghost head = lines@;
                    let ghost created = effects.created@.map_values(
                        |object_id: ObjectId| ReportLine::Created(object_id),
                    );
                    let mut i: usize = 0;
                    while i < effects.created.len()
                        invariant
                            i <= effects.created.len(),
                            created == effects.created@.map_values(
                                |object_id: ObjectId| ReportLine::Created(object_id),
                            ),
                            lines@ == head + created.take(i as int),
                        decreases effects.created.len() - i,
                    {
                        lines.push(ReportLine::Created(effects.created[i]));
                        assert(lines@ =~= head + created.take(i + 1));
                        i = i + 1;
                    }
                    assert(created.take(i as int) =~= created);
                }
                assert(lines@ =~= response@.report_lines());
                EffectsReport { lines, outcome: Ok(()) }
            },
        },
    }
}

} // verus!
