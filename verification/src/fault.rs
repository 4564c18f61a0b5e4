//! Failures of a call itself, as the transport reports them.

use crate::text::concat2;
use vstd::prelude::*;

verus! {

/// The class of a transport-level fault.
#[derive(Debug, Clone, Copy, PartialEq, Eq, Structural)]
pub enum FaultCode {
    /// The caller sent something that cannot be worked on.
    InvalidArgument,
    /// What the caller named does not exist.
    NotFound,
    /// A backend could not be reached or broke off.
    Internal,
    /// A class that a backend reported and that is handed on as it came.
    Other(i32),
}

/// A failure of the call itself, as opposed to a well-formed answer that
/// reports `success: false`.
#[derive(Debug, Clone)]
pub struct Fault {
    /// The class of the fault.
    pub code: FaultCode,
    /// What went wrong.
    pub message: String,
}

/// A [`Fault`] as a mathematical value.
pub struct FaultView {
    pub code: FaultCode,
    pub message: Seq<char>,
}

impl View for Fault {
    type V = FaultView;

    open spec fn view(&self) -> FaultView {
        FaultView { code: self.code, message: self.message@ }
    }
}

/// The internal fault whose message is `prefix` followed by `detail`.
pub open spec fn internal_fault(prefix: Seq<char>, detail: Seq<char>) -> FaultView {
    FaultView { code: FaultCode::Internal, message: prefix + detail }
}

impl Fault {
    /// A fault of class [`FaultCode::InvalidArgument`].
    pub fn invalid_argument(message: &str) -> (r: Fault)
        ensures
            r@ == (FaultView { code: FaultCode::InvalidArgument, message: message@ }),
    {
        Fault { code: FaultCode::InvalidArgument, message: crate::text::owned(message) }
    }

    /// A fault of class [`FaultCode::NotFound`].
    pub fn not_found(message: String) -> (r: Fault)
        ensures
            r@ == (FaultView { code: FaultCode::NotFound, message: message@ }),
    {
        Fault { code: FaultCode::NotFound, message }
    }

    /// A fault of class [`FaultCode::Internal`].
    pub fn internal(message: String) -> (r: Fault)
        ensures
            r@ == (FaultView { code: FaultCode::Internal, message: message@ }),
    {
        Fault { code: FaultCode::Internal, message }
    }

    /// The internal fault that reports what a backend said: `prefix`, then
    /// the backend's own words.
    pub fn from_backend(prefix: &str, detail: &str) -> (r: Fault)
        ensures
            r@ == internal_fault(prefix@, detail@),
    {
        Fault { code: FaultCode::Internal, message: concat2(prefix, detail) }
    }
}

/// What came back from a backend: its answer, or the text of the transport
/// fault that took the answer's place.
pub open spec fn reply_view<T: View>(r: Result<T, String>) -> Result<T::V, Seq<char>> {
    match r {
        Ok(v) => Ok(v@),
        Err(e) => Err(e@),
    }
}

/// The view of what a gateway call ends with: an answer or a fault.
pub open spec fn ending_view<T: View>(r: Result<T, Fault>) -> Result<T::V, FaultView> {
    match r {
        Ok(v) => Ok(v@),
        Err(e) => Err(e@),
    }
}

} // verus!
