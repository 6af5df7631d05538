//! The published package and the created objects of a reduced execution
//! result.

use vstd::prelude::*;
use crate::error::{ResponseError, ResponseErrorView};
use crate::ids::ObjectId;
use crate::published_objects::{
    created_by_type, group_created, published_package, CreatedObjectIndex, CreatedObjectView,
};
use crate::transaction_response::{TransactionResponse, TransactionResponseView};
use crate::views::result_view;

verus! {

/// The package that a transaction published and the objects that it created,
/// by type key.
#[derive(Debug)]
pub struct PackageObjects {
    pub package_id: ObjectId,
    pub objects: CreatedObjectIndex,
}

/// The mathematical value of [`PackageObjects`].
pub struct PackageObjectsView {
    pub package_id: ObjectId,
    pub objects: Map<Seq<char>, Seq<CreatedObjectView>>,
}

impl View for PackageObjects {
    type V = PackageObjectsView;

    open spec fn view(&self) -> PackageObjectsView {
        PackageObjectsView { package_id: self.package_id, objects: self.objects@ }
    }
}

impl DeepView for PackageObjects {
    type V = PackageObjectsView;

    open spec fn deep_view(&self) -> PackageObjectsView {
        self@
    }
}

impl PackageObjectsView {
    /// What a reduced execution result yields: every created object under its
    /// type key, and the last published package. Absent object changes come
    /// before an absent package.
    pub open spec fn of(response: TransactionResponseView) -> Result<
        PackageObjectsView,
        ResponseErrorView,
    > {
        match response.object_changes {
            None => Err(ResponseErrorView::MissingObjectChanges),
            Some(changes) => match published_package(changes) {
                None => Err(ResponseErrorView::MissingPackageId),
                Some(package_id) => Ok(
                    PackageObjectsView { package_id, objects: created_by_type(changes) },
                ),
            },
        }
    }
}

impl PackageObjects {
    /// Groups the created objects of a reduced execution result by type key,
    /// in the order of its object changes, beside the package that it
    /// published. Fails with `MissingObjectChanges` exactly when the object
    /// changes are absent, else with `MissingPackageId` exactly when they
    /// record no publication.
    pub fn try_from(value: TransactionResponse) -> (res: Result<PackageObjects, ResponseError>)
        ensures
            result_view(res) == PackageObjectsView::of(value@),
    {
        let package = match value.package_id() {
            Ok(package_id) => Some(*package_id),
            Err(_) => None,
        };
        let changes = value.into_object_changes()?;
        let (_, objects) = group_created(changes);
        match package {
            Some(package_id) => Ok(PackageObjects { package_id, objects }),
            None => Err(ResponseError::MissingPackageId),
        }
    }
}

} // verus!
