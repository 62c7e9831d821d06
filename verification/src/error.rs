use vstd::prelude::*;
use vstd::string::StringExecFns;

verus! {

/// The kinds of failure an authentication operation can report.
///
/// `NotFound` carries the key whose lookup failed. Store failures are
/// reported by the store interfaces themselves and propagated unchanged.
#[derive(Debug)]
pub enum ServiceError {
    InvalidArgument,
    InvalidFormat,
    Unauthorized,
    NotFound(String),
    StoreFailure,
}

/// The mathematical shape of a `ServiceError`: the key of a `NotFound`
/// is seen as its character sequence.
#[verifier::ext_equal]
pub enum ServiceErrorView {
    InvalidArgument,
    InvalidFormat,
    Unauthorized,
    NotFound(Seq<char>),
    StoreFailure,
}

/// The human-readable message for each error kind.
pub open spec fn error_message(e: ServiceErrorView) -> Seq<char> {
    match e {
        ServiceErrorView::InvalidArgument => "invalid argument"@,
        ServiceErrorView::InvalidFormat => "invalid format"@,
        ServiceErrorView::Unauthorized => "unauthorized"@,
        ServiceErrorView::NotFound(key) => key + " is not found"@,
        ServiceErrorView::StoreFailure => "store failure"@,
    }
}

impl ServiceError {
    /// The message a transport layer may show for this error.
    pub fn message(&self) -> (r: String)
        ensures
            r@ == error_message(self@),
    {
        match self {
            ServiceError::InvalidArgument => "invalid argument".to_owned(),
            ServiceError::InvalidFormat => "invalid format".to_owned(),
            ServiceError::Unauthorized => "unauthorized".to_owned(),
            ServiceError::NotFound(key) => {
                let mut s = key.clone();
                s.append(" is not found");
                s
            },
            ServiceError::StoreFailure => "store failure".to_owned(),
        }
    }
}

impl View for ServiceError {
    type V = ServiceErrorView;

    open spec fn view(&self) -> ServiceErrorView {
        match self {
            ServiceError::InvalidArgument => ServiceErrorView::InvalidArgument,
            ServiceError::InvalidFormat => ServiceErrorView::InvalidFormat,
            ServiceError::Unauthorized => ServiceErrorView::Unauthorized,
            ServiceError::NotFound(key) => ServiceErrorView::NotFound(key@),
            ServiceError::StoreFailure => ServiceErrorView::StoreFailure,
        }
    }
}

} // verus!
