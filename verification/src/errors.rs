//! Failures of invocations and failures of the interpreter itself.
use crate::journal::CodecError;
use vstd::prelude::*;

verus! {

/// Numeric code of an invocation failure.
pub type InvocationErrorCode = u32;

/// Code of an invocation that was cancelled.
pub const CANCELLED_CODE: InvocationErrorCode = 1;

/// Code of an invocation that was aborted.
pub const ABORTED_CODE: InvocationErrorCode = 10;

/// The failure of an invocation as its caller sees it. This is a result of
/// the invocation, not a failure of the interpreter.
#[derive(Debug, PartialEq, Eq)]
pub struct InvocationError {
    pub code: InvocationErrorCode,
    pub message: String,
}

pub struct InvocationErrorView {
    pub code: InvocationErrorCode,
    pub message: Seq<char>,
}

impl View for InvocationError {
    type V = InvocationErrorView;

    open spec fn view(&self) -> InvocationErrorView {
        InvocationErrorView { code: self.code, message: self.message@ }
    }
}

impl Clone for InvocationError {
    fn clone(&self) -> (r: Self)
        ensures
            r@ == self@,
    {
        InvocationError { code: self.code, message: self.message.clone() }
    }
}

/// The failure that the caller of a killed invocation receives.
pub open spec fn killed_invocation_error() -> InvocationErrorView {
    InvocationErrorView { code: ABORTED_CODE, message: "killed"@ }
}

/// The failure that the caller of a cancelled invocation receives, and that
/// completes the journal entries a cancellation interrupts.
pub open spec fn canceled_invocation_error() -> InvocationErrorView {
    InvocationErrorView { code: CANCELLED_CODE, message: "canceled"@ }
}

impl InvocationError {
    pub fn new(code: InvocationErrorCode, message: String) -> (r: Self)
        ensures
            r@ == (InvocationErrorView { code, message: message@ }),
    {
        InvocationError { code, message }
    }

    pub fn killed() -> (r: Self)
        ensures
            r@ == killed_invocation_error(),
    {
        InvocationError { code: ABORTED_CODE, message: "killed".to_owned() }
    }

    pub fn canceled() -> (r: Self)
        ensures
            r@ == canceled_invocation_error(),
    {
        InvocationError { code: CANCELLED_CODE, message: "canceled".to_owned() }
    }

    pub fn code(&self) -> (r: InvocationErrorCode)
        ensures
            r == self@.code,
    {
        self.code
    }
}

/// A read of the partition state that failed.
#[derive(Debug, PartialEq, Eq)]
pub struct StorageError {
    pub reason: String,
}

impl Clone for StorageError {
    fn clone(&self) -> (r: Self)
        ensures
            r == *self,
    {
        StorageError { reason: self.reason.clone() }
    }
}

/// Why a command could not be applied. The command has then left no trace:
/// its effects are to be thrown away, and it is applied again later.
#[derive(Debug, PartialEq, Eq)]
pub enum Error {
    /// The state could not be read.
    Storage(StorageError),
    /// A journal entry could not be decoded or completed, or it was not of
    /// the kind its header announces.
    Codec(CodecError),
}

impl Clone for Error {
    fn clone(&self) -> (r: Self)
        ensures
            r == *self,
    {
        match self {
            Error::Storage(e) => Error::Storage(e.clone()),
            Error::Codec(e) => Error::Codec(*e),
        }
    }
}

} // verus!
