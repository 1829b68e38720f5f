//! The failures of an execution, one variant for each stage that can fail.

use crate::text::{decimal, decimal_of};
use vstd::prelude::*;
use vstd::string::StringExecFns;

verus! {

/// Why an execution failed. No failure leaves a state behind: the state that
/// went in is gone, and none comes back.
#[derive(Debug)]
pub enum ExecError {
    /// The bytecode could not be decoded or validated. `dump` holds the
    /// bytecode in hexadecimal, for offline inspection.
    Load { detail: String, dump: String },
    /// The module could not be instantiated against the host functions.
    Instantiate { detail: String },
    /// The module's start function trapped.
    Start { detail: String },
    /// The module exports no function of the requested name.
    NotFound { name: String },
    /// The function did not accept the arguments, or trapped while it ran.
    Call { detail: String },
    /// A writable account is not owned by the executing program.
    Permission { address: i64 },
}

/// What an execution failure stands for.
pub enum ErrorView {
    Load { detail: Seq<char>, dump: Seq<char> },
    Instantiate { detail: Seq<char> },
    Start { detail: Seq<char> },
    NotFound { name: Seq<char> },
    Call { detail: Seq<char> },
    Permission { address: i64 },
}

impl View for ExecError {
    type V = ErrorView;

    open spec fn view(&self) -> ErrorView {
        match *self {
            ExecError::Load { detail, dump } => ErrorView::Load { detail: detail@, dump: dump@ },
            ExecError::Instantiate { detail } => ErrorView::Instantiate { detail: detail@ },
            ExecError::Start { detail } => ErrorView::Start { detail: detail@ },
            ExecError::NotFound { name } => ErrorView::NotFound { name: name@ },
            ExecError::Call { detail } => ErrorView::Call { detail: detail@ },
            ExecError::Permission { address } => ErrorView::Permission { address },
        }
    }
}

impl ErrorView {
    /// The failure in words.
    pub open spec fn message(self) -> Seq<char> {
        match self {
            ErrorView::Load { detail, .. } => "Failed to load module: "@ + detail,
            ErrorView::Instantiate { detail } => "Failed to instantiate module: "@ + detail,
            ErrorView::Start { detail } => "Failed to start module: "@ + detail,
            ErrorView::NotFound { name } => "Function '"@ + name + "' not found in WASM"@,
            ErrorView::Call { detail } => "Error calling function: "@ + detail,
            ErrorView::Permission { address } => "Cannot write to account "@ + decimal_of(
                address as int,
            ) + " not owned by program"@,
        }
    }
}

impl ExecError {
    /// The failure in words: what failed, and the detail, name or address
    /// that the failure carries.
    pub fn message(&self) -> (text: String)
        ensures
            text@ == self@.message(),
    {
        match self {
            ExecError::Load { detail, .. } => String::from_str("Failed to load module: ").concat(
                detail.as_str(),
            ),
            ExecError::Instantiate { detail } => String::from_str(
                "Failed to instantiate module: ",
            ).concat(detail.as_str()),
            ExecError::Start { detail } => String::from_str("Failed to start module: ").concat(
                detail.as_str(),
            ),
            ExecError::NotFound { name } => String::from_str("Function '").concat(
                name.as_str(),
            ).concat("' not found in WASM"),
            ExecError::Call { detail } => String::from_str("Error calling function: ").concat(
                detail.as_str(),
            ),
            ExecError::Permission { address } => String::from_str(
                "Cannot write to account ",
            ).concat(decimal(*address).as_str()).concat(" not owned by program"),
        }
    }
}

} // verus!
