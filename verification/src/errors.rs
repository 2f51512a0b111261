//! The broker's error envelope: every failure a lifecycle request can meet,
//! each with the HTTP status it maps to.

use vstd::prelude::*;

verus! {

/// The error envelope of every failed request.
#[derive(Debug)]
pub struct OSBError {
    pub error: ErrorCode,
    pub description: String,
    pub instance_usable: bool,
    pub update_repeatable: bool,
}

/// Everything a lifecycle request can fail with.
#[derive(Debug, Clone, PartialEq, Eq)]
pub enum ErrorCode {
    AsyncRequired,
    ConcurrencyError,
    RequiresApp,
    MaintenanceInfoConflict,
    VersionUnsupported,
    CatalogEntryNotFound,
    InstanceAlreadyExists,
    BindingAlreadyExists,
    OperationAlreadyInProgress,
    BindingsExist,
    PlanNotUpdateable,
    NotBindable,
    ServicePlanMismatch,
    NoActiveOperation,
    NotFound,
    Custom(String),
}

/// The mathematical content of an error code.
pub enum ErrorCodeView {
    AsyncRequired,
    ConcurrencyError,
    RequiresApp,
    MaintenanceInfoConflict,
    VersionUnsupported,
    CatalogEntryNotFound,
    InstanceAlreadyExists,
    BindingAlreadyExists,
    OperationAlreadyInProgress,
    BindingsExist,
    PlanNotUpdateable,
    NotBindable,
    ServicePlanMismatch,
    NoActiveOperation,
    NotFound,
    Custom(Seq<char>),
}

impl View for ErrorCode {
    type V = ErrorCodeView;

    open spec fn view(&self) -> ErrorCodeView {
        match self {
            ErrorCode::AsyncRequired => ErrorCodeView::AsyncRequired,
            ErrorCode::ConcurrencyError => ErrorCodeView::ConcurrencyError,
            ErrorCode::RequiresApp => ErrorCodeView::RequiresApp,
            ErrorCode::MaintenanceInfoConflict => ErrorCodeView::MaintenanceInfoConflict,
            ErrorCode::VersionUnsupported => ErrorCodeView::VersionUnsupported,
            ErrorCode::CatalogEntryNotFound => ErrorCodeView::CatalogEntryNotFound,
            ErrorCode::InstanceAlreadyExists => ErrorCodeView::InstanceAlreadyExists,
            ErrorCode::BindingAlreadyExists => ErrorCodeView::BindingAlreadyExists,
            ErrorCode::OperationAlreadyInProgress => ErrorCodeView::OperationAlreadyInProgress,
            ErrorCode::BindingsExist => ErrorCodeView::BindingsExist,
            ErrorCode::PlanNotUpdateable => ErrorCodeView::PlanNotUpdateable,
            ErrorCode::NotBindable => ErrorCodeView::NotBindable,
            ErrorCode::ServicePlanMismatch => ErrorCodeView::ServicePlanMismatch,
            ErrorCode::NoActiveOperation => ErrorCodeView::NoActiveOperation,
            ErrorCode::NotFound => ErrorCodeView::NotFound,
            ErrorCode::Custom(s) => ErrorCodeView::Custom(s@),
        }
    }
}

/// The mathematical content of an error envelope; the human-readable
/// description carries no meaning.
pub struct OSBErrorView {
    pub error: ErrorCodeView,
    pub instance_usable: bool,
    pub update_repeatable: bool,
}

impl View for OSBError {
    type V = OSBErrorView;

    open spec fn view(&self) -> OSBErrorView {
        OSBErrorView {
            error: self.error@,
            instance_usable: self.instance_usable,
            update_repeatable: self.update_repeatable,
        }
    }
}

/// A client error: the resource stays usable and an update may be repeated.
pub open spec fn spec_err(error: ErrorCodeView) -> OSBErrorView {
    OSBErrorView { error, instance_usable: true, update_repeatable: true }
}

/// The HTTP status each error code maps to.
pub open spec fn spec_status_code(e: ErrorCodeView) -> u16 {
    match e {
        ErrorCodeView::AsyncRequired => 422,
        ErrorCodeView::ConcurrencyError => 409,
        ErrorCodeView::RequiresApp => 422,
        ErrorCodeView::MaintenanceInfoConflict => 409,
        ErrorCodeView::VersionUnsupported => 412,
        ErrorCodeView::CatalogEntryNotFound => 400,
        ErrorCodeView::InstanceAlreadyExists => 409,
        ErrorCodeView::BindingAlreadyExists => 409,
        ErrorCodeView::OperationAlreadyInProgress => 409,
        ErrorCodeView::BindingsExist => 400,
        ErrorCodeView::PlanNotUpdateable => 400,
        ErrorCodeView::NotBindable => 400,
        ErrorCodeView::ServicePlanMismatch => 400,
        ErrorCodeView::NoActiveOperation => 404,
        ErrorCodeView::NotFound => 404,
        ErrorCodeView::Custom(_) => 500,
    }
}

impl OSBError {
    /// A client error with the given code and description.
    pub fn new(error: ErrorCode, desc: String) -> (r: Self)
        ensures
            r@ == spec_err(error@),
            r.description == desc,
    {
        OSBError { error, description: desc, instance_usable: true, update_repeatable: true }
    }

    /// The HTTP status this error is reported with.
    pub fn status_code(&self) -> (r: u16)
        ensures
            r == spec_status_code(self.error@),
    {
        match &self.error {
            ErrorCode::AsyncRequired => 422,
            ErrorCode::ConcurrencyError => 409,
            ErrorCode::RequiresApp => 422,
            ErrorCode::MaintenanceInfoConflict => 409,
            ErrorCode::VersionUnsupported => 412,
            ErrorCode::CatalogEntryNotFound => 400,
            ErrorCode::InstanceAlreadyExists => 409,
            ErrorCode::BindingAlreadyExists => 409,
            ErrorCode::OperationAlreadyInProgress => 409,
            ErrorCode::BindingsExist => 400,
            ErrorCode::PlanNotUpdateable => 400,
            ErrorCode::NotBindable => 400,
            ErrorCode::ServicePlanMismatch => 400,
            ErrorCode::NoActiveOperation => 404,
            ErrorCode::NotFound => 404,
            ErrorCode::Custom(_) => 500,
        }
    }
}

} // verus!
