//! The errors a call can end in.
use vstd::prelude::*;

verus! {

/// Why a call produced no result. Each variant carries what a caller needs
/// to act on it without seeing the registry.
#[derive(Debug, Clone, PartialEq)]
pub enum RaycastError {
    /// A declared parameter position has no supplied value.
    MissingArgument { function: String, parameter: String, position: usize },
    /// The number of supplied arguments differs from the declared count.
    ArgumentCountMismatch { function: String, expected: usize, actual: usize },
    /// A supplied value could not be converted to the declared type.
    DecodingError { function: String, parameter: String, position: usize, error: String },
    /// No command is registered under the requested name.
    FunctionNotFound { function: String },
    /// The handler failed, with the text of its domain error.
    ExecutionError { error: String },
    /// The argument text was not a JSON array of values.
    JsonError { error: String },
}

impl RaycastError {
    pub open spec fn is_missing_argument(
        self,
        function: Seq<char>,
        parameter: Seq<char>,
        position: nat,
    ) -> bool {
        &&& self matches RaycastError::MissingArgument { function: f, parameter: p, position: i }
        &&& f@ == function
        &&& p@ == parameter
        &&& i == position
    }

    pub open spec fn is_count_mismatch(self, function: Seq<char>, expected: nat, actual: nat) -> bool {
        &&& self matches RaycastError::ArgumentCountMismatch { function: f, expected: e, actual: a }
        &&& f@ == function
        &&& e == expected
        &&& a == actual
    }

    /// A decoding failure at `position`; the underlying description is free.
    pub open spec fn is_decoding_error(
        self,
        function: Seq<char>,
        parameter: Seq<char>,
        position: nat,
    ) -> bool {
        &&& self matches RaycastError::DecodingError { function: f, parameter: p, position: i, .. }
        &&& f@ == function
        &&& p@ == parameter
        &&& i == position
    }

    pub open spec fn is_not_found(self, function: Seq<char>) -> bool {
        self matches RaycastError::FunctionNotFound { function: f } && f@ == function
    }

    pub open spec fn is_execution_error(self, error: Seq<char>) -> bool {
        self matches RaycastError::ExecutionError { error: e } && e@ == error
    }
}

} // verus!
